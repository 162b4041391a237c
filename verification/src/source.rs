use vstd::prelude::*;

verus! {

/// An audio input of the daemon.
#[derive(Clone, Copy, PartialEq, Eq, Debug, Structural)]
pub enum Source {
    Airplay,
    Bluetooth,
}

/// The sample rate, in Hz, at which a source delivers its frames.
pub open spec fn spec_sample_rate(s: Source) -> u32 {
    match s {
        Source::Airplay => 352800,
        Source::Bluetooth => 48000,
    }
}

/// The other source.
pub open spec fn spec_toggle(s: Source) -> Source {
    match s {
        Source::Airplay => Source::Bluetooth,
        Source::Bluetooth => Source::Airplay,
    }
}

/// The index under which a source is stored in a shared integer.
pub open spec fn spec_as_usize(s: Source) -> usize {
    match s {
        Source::Airplay => 0,
        Source::Bluetooth => 1,
    }
}

/// The source stored under an index: 1 is Bluetooth, anything else AirPlay.
pub open spec fn spec_from_usize(v: usize) -> Source {
    if v == 1 {
        Source::Bluetooth
    } else {
        Source::Airplay
    }
}

impl Source {
    pub fn sample_rate(self) -> (r: u32)
        ensures
            r == spec_sample_rate(self),
    {
        match self {
            Source::Airplay => 352800,
            Source::Bluetooth => 48000,
        }
    }

    pub fn name(self) -> (r: &'static str)
        ensures
            self == Source::Airplay ==> r@ == "AirPlay"@,
            self == Source::Bluetooth ==> r@ == "Bluetooth"@,
    {
        match self {
            Source::Airplay => "AirPlay",
            Source::Bluetooth => "Bluetooth",
        }
    }

    pub fn toggle(self) -> (r: Self)
        ensures
            r == spec_toggle(self),
    {
        match self {
            Source::Airplay => Source::Bluetooth,
            Source::Bluetooth => Source::Airplay,
        }
    }

    pub fn as_usize(self) -> (r: usize)
        ensures
            r == spec_as_usize(self),
    {
        match self {
            Source::Airplay => 0,
            Source::Bluetooth => 1,
        }
    }

    pub fn from_usize(v: usize) -> (r: Self)
        ensures
            r == spec_from_usize(v),
    {
        match v {
            1 => Source::Bluetooth,
            _ => Source::Airplay,
        }
    }
}

impl Default for Source {
    fn default() -> (r: Self)
        ensures
            r == Source::Airplay,
    {
        Source::Airplay
    }
}

/// Toggling twice gives back the source one started from.
pub proof fn lemma_toggle_involutive(s: Source)
    ensures
        spec_toggle(spec_toggle(s)) == s,
        spec_toggle(s) != s,
{
}

/// Storing a source as an index and reading it back gives the same source,
/// and every index reads back as a source whose index is 0 or 1.
pub proof fn lemma_usize_round_trip(s: Source, v: usize)
    ensures
        spec_from_usize(spec_as_usize(s)) == s,
        spec_as_usize(s) < 2,
        spec_as_usize(spec_from_usize(v)) == (if v == 1 { 1usize } else { 0usize }),
{
}

} // verus!
