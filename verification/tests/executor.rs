use engine_core::command::{
    BufferState, CommandBufferHandle, CommandExecutor, FenceHandle, FillCommand, WaitOutcome,
};
use engine_core::error::Error;

#[test]
fn new_executor_has_no_buffer_and_no_fence() {
    let x = CommandExecutor::new();
    assert_eq!(x.state(CommandBufferHandle(0)), BufferState::Invalid);
    assert_eq!(x.commands(CommandBufferHandle(0)), None);
    assert_eq!(x.is_signaled(FenceHandle(0)), None);
}

#[test]
fn begin_recording_hands_out_a_recording_buffer() {
    let mut x = CommandExecutor::new();
    let h = x.begin_recording();
    assert_eq!(h, CommandBufferHandle(0));
    assert_eq!(x.state(h), BufferState::Recording);
    assert_eq!(x.commands(h), Some(&Vec::new()));
    let second = x.begin_recording();
    assert_eq!(second, CommandBufferHandle(1));
    assert_eq!(x.state(second), BufferState::Recording);
    assert_eq!(x.state(h), BufferState::Recording);
}

#[test]
fn fill_before_begin_is_invalid_state() {
    let mut x = CommandExecutor::new();
    assert_eq!(x.fill_buffer(CommandBufferHandle(0), 1, 0, 16, 9), Err(Error::InvalidState));
    let _other = x.begin_recording();
    assert_eq!(x.fill_buffer(CommandBufferHandle(1), 1, 0, 16, 9), Err(Error::InvalidState));
    assert_eq!(x.state(CommandBufferHandle(1)), BufferState::Invalid);
}

#[test]
fn fill_while_recording_is_recorded_in_order() {
    let mut x = CommandExecutor::new();
    let h = x.begin_recording();
    assert_eq!(x.fill_buffer(h, 1, 0, 16, 9), Ok(()));
    assert_eq!(x.fill_buffer(h, 2, 4, 8, 7), Ok(()));
    assert_eq!(
        x.commands(h),
        Some(&vec![
            FillCommand { buffer: 1, offset: 0, size: 16, value: 9 },
            FillCommand { buffer: 2, offset: 4, size: 8, value: 7 },
        ])
    );
    assert_eq!(x.state(h), BufferState::Recording);
}

#[test]
fn fill_after_end_is_invalid_state() {
    let mut x = CommandExecutor::new();
    let h = x.begin_recording();
    assert_eq!(x.fill_buffer(h, 1, 0, 16, 9), Ok(()));
    assert_eq!(x.end_recording(h), Ok(()));
    assert_eq!(x.state(h), BufferState::Executable);
    assert_eq!(x.fill_buffer(h, 1, 16, 16, 9), Err(Error::InvalidState));
    assert_eq!(x.commands(h).unwrap().len(), 1);
    let fence = x.submit(h).unwrap();
    assert_eq!(x.fill_buffer(h, 1, 16, 16, 9), Err(Error::InvalidState));
    assert_eq!(x.signal(fence), Ok(()));
    assert_eq!(x.wait(fence, 0), WaitOutcome::Completed);
    assert_eq!(x.fill_buffer(h, 1, 16, 16, 9), Err(Error::InvalidState));
}

#[test]
fn end_needs_a_recording_buffer() {
    let mut x = CommandExecutor::new();
    assert_eq!(x.end_recording(CommandBufferHandle(0)), Err(Error::InvalidState));
    let h = x.begin_recording();
    assert_eq!(x.end_recording(h), Ok(()));
    assert_eq!(x.end_recording(h), Err(Error::InvalidState));
    assert_eq!(x.state(h), BufferState::Executable);
}

#[test]
fn submit_before_end_is_invalid_state() {
    let mut x = CommandExecutor::new();
    assert_eq!(x.submit(CommandBufferHandle(0)), Err(Error::InvalidState));
    let h = x.begin_recording();
    assert_eq!(x.submit(h), Err(Error::InvalidState));
    assert_eq!(x.state(h), BufferState::Recording);
    assert_eq!(x.is_signaled(FenceHandle(0)), None);
}

#[test]
fn submit_makes_the_buffer_pending_on_a_fresh_fence() {
    let mut x = CommandExecutor::new();
    let h = x.begin_recording();
    assert_eq!(x.end_recording(h), Ok(()));
    assert_eq!(x.submit(h), Ok(FenceHandle(0)));
    assert_eq!(x.state(h), BufferState::Pending);
    assert_eq!(x.is_signaled(FenceHandle(0)), Some(false));
    assert_eq!(x.submit(h), Err(Error::InvalidState));
    let other = x.begin_recording();
    assert_eq!(other, CommandBufferHandle(1));
    assert_eq!(x.end_recording(other), Ok(()));
    assert_eq!(x.submit(other), Ok(FenceHandle(1)));
    assert_eq!(x.is_signaled(FenceHandle(1)), Some(false));
}

#[test]
fn empty_recording_can_be_submitted() {
    let mut x = CommandExecutor::new();
    let h = x.begin_recording();
    assert_eq!(x.end_recording(h), Ok(()));
    let fence = x.submit(h).unwrap();
    assert_eq!(x.signal(fence), Ok(()));
    assert_eq!(x.wait(fence, 1_000_000), WaitOutcome::Completed);
    assert_eq!(x.state(h), BufferState::Initial);
}

#[test]
fn wait_with_zero_timeout_on_unsignaled_fence_times_out() {
    let mut x = CommandExecutor::new();
    let h = x.begin_recording();
    assert_eq!(x.fill_buffer(h, 1, 0, 4, 1), Ok(()));
    assert_eq!(x.end_recording(h), Ok(()));
    let fence = x.submit(h).unwrap();
    assert_eq!(x.wait(fence, 0), WaitOutcome::TimedOut);
    assert_eq!(x.is_signaled(fence), Some(false));
    assert_eq!(x.state(h), BufferState::Pending);
    assert_eq!(x.commands(h).unwrap().len(), 1);
    assert_eq!(x.wait(fence, 0), WaitOutcome::TimedOut);
    assert_eq!(x.wait(fence, u64::MAX), WaitOutcome::TimedOut);
    assert_eq!(x.signal(fence), Ok(()));
    assert_eq!(x.is_signaled(fence), Some(true));
    assert_eq!(x.wait(fence, 0), WaitOutcome::Completed);
}

#[test]
fn wait_on_unknown_fence_is_an_error() {
    let mut x = CommandExecutor::new();
    assert_eq!(x.wait(FenceHandle(0), 0), WaitOutcome::Error(Error::InvalidState));
    assert_eq!(x.signal(FenceHandle(3)), Err(Error::InvalidState));
}

#[test]
fn completed_wait_returns_the_buffer_for_reuse() {
    let mut x = CommandExecutor::new();
    let h = x.begin_recording();
    assert_eq!(x.fill_buffer(h, 1, 0, 4, 1), Ok(()));
    assert_eq!(x.end_recording(h), Ok(()));
    let fence = x.submit(h).unwrap();
    assert_eq!(x.signal(fence), Ok(()));
    assert_eq!(x.state(h), BufferState::Pending);
    assert_eq!(x.wait(fence, 5), WaitOutcome::Completed);
    assert_eq!(x.state(h), BufferState::Initial);
    assert_eq!(x.commands(h), Some(&Vec::new()));
    let again = x.begin_recording();
    assert_eq!(again, h);
    assert_eq!(x.state(h), BufferState::Recording);
    assert_eq!(x.commands(h), Some(&Vec::new()));
}

#[test]
fn stale_fence_does_not_disturb_a_reused_buffer() {
    let mut x = CommandExecutor::new();
    let h = x.begin_recording();
    assert_eq!(x.end_recording(h), Ok(()));
    let old = x.submit(h).unwrap();
    assert_eq!(x.signal(old), Ok(()));
    assert_eq!(x.wait(old, 0), WaitOutcome::Completed);
    let h = x.begin_recording();
    assert_eq!(x.fill_buffer(h, 1, 0, 4, 1), Ok(()));
    assert_eq!(x.wait(old, 0), WaitOutcome::Completed);
    assert_eq!(x.state(h), BufferState::Recording);
    assert_eq!(x.commands(h).unwrap().len(), 1);
    assert_eq!(x.end_recording(h), Ok(()));
    let new = x.submit(h).unwrap();
    assert_eq!(new, FenceHandle(1));
    assert_eq!(x.wait(old, 0), WaitOutcome::Completed);
    assert_eq!(x.state(h), BufferState::Pending);
    assert_eq!(x.wait(new, 0), WaitOutcome::TimedOut);
}

#[test]
fn begin_recording_takes_the_first_initial_buffer() {
    let mut x = CommandExecutor::new();
    let a = x.begin_recording();
    let b = x.begin_recording();
    let c = x.begin_recording();
    for h in [a, b, c] {
        assert_eq!(x.end_recording(h), Ok(()));
    }
    let fb = x.submit(b).unwrap();
    let fc = x.submit(c).unwrap();
    assert_eq!(x.signal(fc), Ok(()));
    assert_eq!(x.signal(fb), Ok(()));
    assert_eq!(x.wait(fc, 0), WaitOutcome::Completed);
    assert_eq!(x.wait(fb, 0), WaitOutcome::Completed);
    assert_eq!(x.begin_recording(), b);
    assert_eq!(x.begin_recording(), c);
    assert_eq!(x.begin_recording(), CommandBufferHandle(3));
    assert_eq!(x.state(a), BufferState::Executable);
}

#[test]
fn wait_outcome_as_result() {
    assert_eq!(WaitOutcome::Completed.into_result(), Ok(()));
    assert_eq!(WaitOutcome::TimedOut.into_result(), Err(Error::WaitTimeout));
    assert_eq!(
        WaitOutcome::Error(Error::InvalidState).into_result(),
        Err(Error::InvalidState)
    );
    assert_eq!(WaitOutcome::Error(Error::Submission).into_result(), Err(Error::Submission));
    assert!(WaitOutcome::TimedOut.into_result().unwrap_err().is_retryable());
    let mut x = CommandExecutor::new();
    let h = x.begin_recording();
    assert_eq!(x.end_recording(h), Ok(()));
    let fence = x.submit(h).unwrap();
    assert_eq!(x.wait(fence, 0).into_result(), Err(Error::WaitTimeout));
    assert_eq!(x.state(h), BufferState::Pending);
}
