use carplay_audio::capture::{
    after_capture_error, is_recoverable, retry_step, AfterError, RetryStep, RETRY_SLICES,
};

const EPIPE: i32 = 32;
const ESTRPIPE: i32 = 86;

#[test]
fn recoverable_errors() {
    assert!(is_recoverable(EPIPE, EPIPE, ESTRPIPE));
    assert!(is_recoverable(ESTRPIPE, EPIPE, ESTRPIPE));
    assert!(!is_recoverable(5, EPIPE, ESTRPIPE));
}

#[test]
fn after_error_decisions() {
    assert_eq!(after_capture_error(EPIPE, EPIPE, ESTRPIPE, AfterError::Fail), AfterError::Recover);
    assert_eq!(after_capture_error(ESTRPIPE, EPIPE, ESTRPIPE, AfterError::Reopen), AfterError::Recover);
    assert_eq!(after_capture_error(19, EPIPE, ESTRPIPE, AfterError::Fail), AfterError::Fail);
    assert_eq!(after_capture_error(19, EPIPE, ESTRPIPE, AfterError::Reopen), AfterError::Reopen);
    assert_eq!(after_capture_error(-1, EPIPE, ESTRPIPE, AfterError::Continue), AfterError::Continue);
}

#[test]
fn retry_wait_steps() {
    assert_eq!(RETRY_SLICES, 20);
    assert_eq!(retry_step(0, true), RetryStep::Sleep);
    assert_eq!(retry_step(19, true), RetryStep::Sleep);
    assert_eq!(retry_step(20, true), RetryStep::Reopen);
    assert_eq!(retry_step(5, false), RetryStep::Stop);
    assert_eq!(retry_step(20, false), RetryStep::Reopen);
    let mut slices = 0u32;
    let mut sleeps = 0;
    while retry_step(slices, true) == RetryStep::Sleep {
        slices += 1;
        sleeps += 1;
    }
    assert_eq!(sleeps, 20);
}
