use vstd::prelude::*;
use crate::protocol::EQ_BANDS;

verus! {

/// The equalizer gains that saved settings give: the saved gains of the
/// first bands, and `fill` for the bands that were not saved.
pub open spec fn spec_fit_eq_gains<T>(saved: Seq<T>, fill: T) -> Seq<T> {
    Seq::new(EQ_BANDS as nat, |i: int| if i < saved.len() { saved[i] } else { fill })
}

/// Fits saved equalizer gains to the number of bands: extra gains are
/// dropped, missing ones are `fill`.
pub fn fit_eq_gains<T: Copy>(saved: &Vec<T>, fill: T) -> (r: Vec<T>)
    ensures
        r@ == spec_fit_eq_gains(saved@, fill),
{
    let mut r: Vec<T> = Vec::new();
    let mut i: usize = 0;
    while i < EQ_BANDS
        invariant
            i <= EQ_BANDS,
            r@.len() == i,
            forall|k: int| 0 <= k < i ==> r@[k] == spec_fit_eq_gains(saved@, fill)[k],
        decreases EQ_BANDS - i,
    {
        if i < saved.len() {
            r.push(saved[i]);
        } else {
            r.push(fill);
        }
        i = i + 1;
    }
    assert(r@ =~= spec_fit_eq_gains(saved@, fill));
    r
}

/// Sets the gain of one band; a band that does not exist is ignored.
/// Returns whether the gain was set.
pub fn set_band_gain<T>(gains: &mut Vec<T>, band: usize, gain: T) -> (r: bool)
    ensures
        r == (band < old(gains)@.len()),
        r ==> final(gains)@ == old(gains)@.update(band as int, gain),
        !r ==> final(gains)@ == old(gains)@,
{
    if band < gains.len() {
        gains.set(band, gain);
        true
    } else {
        false
    }
}

/// Fitting keeps every saved gain of a band that exists, and fitting
/// fitted gains changes nothing.
pub proof fn law_fit_keeps_saved_bands<T>(saved: Seq<T>, fill: T)
    ensures
        spec_fit_eq_gains(saved, fill).len() == EQ_BANDS,
        forall|i: int| 0 <= i < saved.len() && i < EQ_BANDS ==> spec_fit_eq_gains(saved, fill)[i] == saved[i],
        spec_fit_eq_gains(spec_fit_eq_gains(saved, fill), fill) == spec_fit_eq_gains(saved, fill),
{
    assert(spec_fit_eq_gains(spec_fit_eq_gains(saved, fill), fill) =~= spec_fit_eq_gains(saved, fill));
}

} // verus!
