use limbo::error::PipelineError;
use limbo::handoff::LatestSlot;
use limbo::stream::{pacing_idle_ms, write_output, FrameDecision, LoopControl, StreamLoop, StreamPhase};

fn running(period: Option<u64>, now: u64) -> StreamLoop {
    let mut s = StreamLoop::new(period, now);
    s.begin_negotiation();
    s.negotiated(true);
    s
}

#[test]
fn quit_during_slow_iteration_finishes_frame_then_stops() {
    let mut s = running(Some(33), 0);
    let mut slot = vec![0u8; 8];
    // The filter stage takes far longer than one period; a quit arrives meanwhile.
    s.request_quit();
    let encoded = [1u8, 2, 3, 4, 5];
    assert_eq!(s.on_frame(&Ok(())), FrameDecision::Write);
    assert_eq!(write_output(&mut slot, &encoded), Ok(5));
    assert_eq!(slot, vec![1, 2, 3, 4, 5, 0, 0, 0]);
    assert_eq!(s.end_iteration(500), LoopControl::Stop);
    assert_eq!(s.phase(), StreamPhase::Stopping);
    s.streams_released();
    assert_eq!(s.phase(), StreamPhase::Stopped);
    assert_eq!(s.cycles(), 1);
}

#[test]
fn pacing_idles_when_ahead_of_schedule() {
    assert_eq!(pacing_idle_ms(Some(33), 100, 110), 23);
    assert_eq!(pacing_idle_ms(Some(33), 100, 140), 0);
    assert_eq!(pacing_idle_ms(None, 100, 110), 0);
    assert_eq!(pacing_idle_ms(Some(33), 100, 90), 33);
}

#[test]
fn iterations_continue_with_pacing() {
    let mut s = running(Some(40), 1000);
    assert_eq!(s.on_frame(&Ok(())), FrameDecision::Write);
    assert_eq!(s.end_iteration(1010), LoopControl::Continue(30));
    assert_eq!(s.end_iteration(1100), LoopControl::Continue(0));
    assert_eq!(s.cycles(), 2);
    assert_eq!(s.phase(), StreamPhase::Running);
}

#[test]
fn per_frame_errors_drop_the_frame() {
    let mut s = running(None, 0);
    assert_eq!(s.on_frame(&Err(PipelineError::DecodeError)), FrameDecision::Drop);
    assert_eq!(s.on_frame(&Err(PipelineError::RenderError)), FrameDecision::Drop);
    assert_eq!(s.on_frame(&Err(PipelineError::EncodeError)), FrameDecision::Drop);
    assert_eq!(s.dropped(), 3);
    assert_eq!(s.phase(), StreamPhase::Running);
}

#[test]
fn device_error_ends_the_stream() {
    let mut s = running(None, 0);
    assert_eq!(s.on_frame(&Err(PipelineError::DeviceIOError)), FrameDecision::Fail);
    assert_eq!(s.phase(), StreamPhase::Stopping);
}

#[test]
fn failed_negotiation_stops() {
    let mut s = StreamLoop::new(None, 0);
    assert_eq!(s.phase(), StreamPhase::Idle);
    s.begin_negotiation();
    assert_eq!(s.phase(), StreamPhase::Negotiating);
    s.negotiated(false);
    assert_eq!(s.phase(), StreamPhase::Stopped);
}

#[test]
fn write_output_too_large_leaves_slot_untouched() {
    let mut slot = vec![9u8; 3];
    assert_eq!(write_output(&mut slot, &[1, 2, 3, 4]), Err(PipelineError::DeviceIOError));
    assert_eq!(slot, vec![9, 9, 9]);
    assert_eq!(write_output(&mut slot, &[]), Ok(0));
    assert_eq!(slot, vec![9, 9, 9]);
}

#[test]
fn latest_slot_keeps_only_freshest() {
    let mut slot = LatestSlot::new();
    assert!(slot.is_empty());
    assert_eq!(slot.put(1), None);
    assert_eq!(slot.put(2), Some(1));
    assert_eq!(slot.take(), Some(2));
    assert_eq!(slot.take(), None);
}
