use vstd::prelude::*;

verus! {

/// What a capture or playback loop does after an ALSA error.
#[derive(Clone, Copy, PartialEq, Eq, Debug, Structural)]
pub enum AfterError {
    /// Recover the stream and go on.
    Recover,
    /// Ignore the error and go on.
    Continue,
    /// Close the device and open it again.
    Reopen,
    /// Stop the loop with the error.
    Fail,
}

/// Whether an ALSA error can be recovered from in place: a broken pipe
/// (overrun or underrun) or a suspended stream. The platform's numbers of
/// these errors (`EPIPE`, `ESTRPIPE`) are given as arguments.
pub fn is_recoverable(errno: i32, broken_pipe: i32, suspended: i32) -> (r: bool)
    ensures
        r == (errno == broken_pipe || errno == suspended),
{
    errno == broken_pipe || errno == suspended
}

/// What to do after an ALSA error: recover where the stream can be
/// recovered, else what the loop does with other errors.
pub fn after_capture_error(errno: i32, broken_pipe: i32, suspended: i32, otherwise: AfterError) -> (r: AfterError)
    ensures
        r == (if errno == broken_pipe || errno == suspended {
            AfterError::Recover
        } else {
            otherwise
        }),
{
    if is_recoverable(errno, broken_pipe, suspended) {
        AfterError::Recover
    } else {
        otherwise
    }
}

/// How many pauses of 100 ms a capture loop waits before it tries again to
/// open a device that failed to open.
pub const RETRY_SLICES: u32 = 20;

/// A step of the wait before opening a device again.
#[derive(Clone, Copy, PartialEq, Eq, Debug, Structural)]
pub enum RetryStep {
    /// The daemon is stopping: leave the loop.
    Stop,
    /// Pause for one slice.
    Sleep,
    /// The wait is over: open the device again.
    Reopen,
}

/// The next step of the wait, after `slices_done` pauses.
pub open spec fn spec_retry_step(slices_done: u32, running: bool) -> RetryStep {
    if slices_done >= RETRY_SLICES {
        RetryStep::Reopen
    } else if !running {
        RetryStep::Stop
    } else {
        RetryStep::Sleep
    }
}

/// The next step of the wait, after `slices_done` pauses.
pub fn retry_step(slices_done: u32, running: bool) -> (r: RetryStep)
    ensures
        r == spec_retry_step(slices_done, running),
{
    if slices_done >= RETRY_SLICES {
        RetryStep::Reopen
    } else if !running {
        RetryStep::Stop
    } else {
        RetryStep::Sleep
    }
}

/// The wait pauses at most `RETRY_SLICES` times before it opens the device
/// again, and a stop request during the wait is always heeded.
pub proof fn law_retry_wait_is_bounded(slices_done: u32, running: bool)
    ensures
        slices_done < RETRY_SLICES && !running ==> spec_retry_step(slices_done, running) == RetryStep::Stop,
        spec_retry_step(slices_done, running) == RetryStep::Sleep ==> slices_done < RETRY_SLICES,
{
}

} // verus!
