use vstd::prelude::*;

verus! {

/// The status shown in the header of the terminal client.
#[derive(Clone, Copy, PartialEq, Eq, Debug, Structural)]
pub enum HeaderStatus {
    Connecting,
    Muted,
    Live,
    Silence,
}

/// The header status: connecting until the first state arrives, then
/// muted, live (signal present) or silence, in that order of precedence.
pub open spec fn spec_header_status(connected: bool, muted: bool, signal_active: bool) -> HeaderStatus {
    if !connected {
        HeaderStatus::Connecting
    } else if muted {
        HeaderStatus::Muted
    } else if signal_active {
        HeaderStatus::Live
    } else {
        HeaderStatus::Silence
    }
}

/// The header status of the terminal client.
pub fn header_status(connected: bool, muted: bool, signal_active: bool) -> (r: HeaderStatus)
    ensures
        r == spec_header_status(connected, muted, signal_active),
{
    if !connected {
        HeaderStatus::Connecting
    } else if muted {
        HeaderStatus::Muted
    } else if signal_active {
        HeaderStatus::Live
    } else {
        HeaderStatus::Silence
    }
}

impl HeaderStatus {
    /// The text shown for the status.
    pub fn label(self) -> (r: &'static str)
        ensures
            self == HeaderStatus::Connecting ==> r@ == " [CONNECTING...] "@,
            self == HeaderStatus::Muted ==> r@ == " [MUTED] "@,
            self == HeaderStatus::Live ==> r@ == " [LIVE] "@,
            self == HeaderStatus::Silence ==> r@ == " [SILENCE] "@,
    {
        match self {
            HeaderStatus::Connecting => " [CONNECTING...] ",
            HeaderStatus::Muted => " [MUTED] ",
            HeaderStatus::Live => " [LIVE] ",
            HeaderStatus::Silence => " [SILENCE] ",
        }
    }
}

/// The limiter field of the DSP panel: `ACT` while it is reducing gain,
/// else `ON ` or `OFF`.
pub fn limiter_label(limiter_active: bool, limiter: bool) -> (r: &'static str)
    ensures
        limiter_active ==> r@ == "ACT"@,
        !limiter_active && limiter ==> r@ == "ON "@,
        !limiter_active && !limiter ==> r@ == "OFF"@,
{
    if limiter_active {
        "ACT"
    } else if limiter {
        "ON "
    } else {
        "OFF"
    }
}

/// The loudness field of the DSP panel.
pub fn loudness_label(loudness: bool) -> (r: &'static str)
    ensures
        loudness ==> r@ == "ON "@,
        !loudness ==> r@ == "OFF"@,
{
    if loudness {
        "ON "
    } else {
        "OFF"
    }
}

/// Seconds of uptime as hours, minutes and seconds.
pub fn uptime_hms(secs: u64) -> (r: (u64, u64, u64))
    ensures
        r.0 == secs / 3600,
        r.1 == (secs % 3600) / 60,
        r.2 == secs % 60,
{
    (secs / 3600, (secs % 3600) / 60, secs % 60)
}

/// The hours, minutes and seconds shown add up to the uptime, with minutes
/// and seconds below sixty.
pub proof fn law_uptime_hms_adds_up(secs: u64)
    ensures
        (secs / 3600) * 3600 + ((secs % 3600) / 60) * 60 + secs % 60 == secs,
        (secs % 3600) / 60 < 60,
        secs % 60 < 60,
{
    assert((secs / 3600) * 3600 + ((secs % 3600) / 60) * 60 + secs % 60 == secs) by (nonlinear_arith);
    assert((secs % 3600) / 60 < 60) by (nonlinear_arith);
}


/// Once connected, a muted client shows Muted whatever the signal; an
/// unmuted one shows Live exactly when signal is present; before the
/// first state arrives it shows Connecting.
pub proof fn law_header_status_precedence(connected: bool, muted: bool, signal_active: bool)
    ensures
        !connected ==> spec_header_status(connected, muted, signal_active) == HeaderStatus::Connecting,
        connected && muted ==> spec_header_status(connected, muted, signal_active) == HeaderStatus::Muted,
        connected && !muted ==> (spec_header_status(connected, muted, signal_active) == HeaderStatus::Live
            <==> signal_active),
        connected && !muted ==> (spec_header_status(connected, muted, signal_active)
            == HeaderStatus::Silence <==> !signal_active),
{
}

} // verus!
