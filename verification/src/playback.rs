use vstd::prelude::*;
use crate::source::{spec_from_usize, Source};

verus! {

/// The source the daemon should play, given which sources carry signal:
/// AirPlay whenever it is active, Bluetooth when it alone is active, and
/// the current source when neither is.
pub open spec fn spec_preferred_source(airplay_active: bool, bt_active: bool, current: Source) -> Source {
    if airplay_active {
        Source::Airplay
    } else if bt_active {
        Source::Bluetooth
    } else {
        current
    }
}

/// The source the daemon should play, given which sources carry signal.
pub fn preferred_source(airplay_active: bool, bt_active: bool, current: Source) -> (r: Source)
    ensures
        r == spec_preferred_source(airplay_active, bt_active, current),
{
    if airplay_active {
        Source::Airplay
    } else if bt_active {
        Source::Bluetooth
    } else {
        current
    }
}

/// The automatic switch to request, if the preferred source is not the
/// one playing.
pub fn auto_switch(current: Source, airplay_active: bool, bt_active: bool) -> (r: Option<Source>)
    ensures
        r == (if spec_preferred_source(airplay_active, bt_active, current) != current {
            Some(spec_preferred_source(airplay_active, bt_active, current))
        } else {
            None
        }),
{
    let want = preferred_source(airplay_active, bt_active, current);
    if want != current {
        Some(want)
    } else {
        None
    }
}

/// The source to reopen the output for, when the requested source (stored
/// as an index) differs from the one playing.
pub fn source_change(current: Source, requested: usize) -> (r: Option<Source>)
    ensures
        r == (if spec_from_usize(requested) != current {
            Some(spec_from_usize(requested))
        } else {
            None
        }),
{
    let new_source = Source::from_usize(requested);
    if new_source != current {
        Some(new_source)
    } else {
        None
    }
}

/// AirPlay has priority: when it is active it is always the preferred
/// source; Bluetooth is preferred only while AirPlay is inactive.
pub proof fn law_airplay_priority(airplay_active: bool, bt_active: bool, current: Source)
    ensures
        airplay_active ==> spec_preferred_source(airplay_active, bt_active, current) == Source::Airplay,
        spec_preferred_source(airplay_active, bt_active, current) == Source::Bluetooth ==> !airplay_active
            && (bt_active || current == Source::Bluetooth),
{
}

/// With both sources silent, the daemon keeps what it plays; and once it
/// has switched to the preferred source it requests no further switch.
pub proof fn law_switch_is_stable(airplay_active: bool, bt_active: bool, current: Source)
    ensures
        !airplay_active && !bt_active ==> spec_preferred_source(airplay_active, bt_active, current)
            == current,
        ({
            let next = spec_preferred_source(airplay_active, bt_active, current);
            spec_preferred_source(airplay_active, bt_active, next) == next
        }),
{
}

} // verus!
