use frame_pipeline::capture::{CaptureError, FrameSource, Reading};
use frame_pipeline::frame::{DecodedFrame, Resolution};
use frame_pipeline::render_loop::{
    Action, DisplayError, Event, LoopState, Phase, PipelineError, RenderLoop, EXIT_FAILURE,
    EXIT_SUCCESS,
};
use frame_pipeline::snapshot::EncodeError;
use frame_pipeline::transform::{FrameTransformer, TransformError, TransformMode};

const OPEN: Event = Event::Surface { open: true, quit_pressed: false };
const CLOSED: Event = Event::Surface { open: false, quit_pressed: false };
const QUIT: Event = Event::Surface { open: true, quit_pressed: true };

fn direct(width: u32, height: u32) -> RenderLoop {
    let transformer = FrameTransformer::new(TransformMode::Direct);
    RenderLoop::new(transformer, Resolution::new(width, height), 33).unwrap()
}

fn resampled(width: u32, height: u32) -> RenderLoop {
    let transformer = FrameTransformer::new(TransformMode::Resampled);
    RenderLoop::new(transformer, Resolution::new(width, height), 33).unwrap()
}

fn solid(width: u32, height: u32, rgb: [u8; 3]) -> DecodedFrame {
    let mut data = Vec::new();
    for _ in 0..width * height {
        data.extend_from_slice(&rgb);
    }
    DecodedFrame::from_rgb(width, height, data).unwrap()
}

fn captured(width: u32, height: u32, rgb: [u8; 3]) -> Event {
    Event::Captured(Ok(solid(width, height, rgb)))
}

#[test]
fn a_new_loop_runs_and_polls_the_surface_first() {
    let renderer = direct(2, 2);
    assert_eq!(renderer.state(), LoopState::Running);
    assert_eq!(renderer.phase(), Phase::Surface);
    assert_eq!(renderer.pending(), Action::PollSurface);
    assert_eq!(renderer.target(), Resolution::new(2, 2));
    assert_eq!(renderer.failure(), None);
    assert_eq!(renderer.exit_code(), EXIT_SUCCESS);
    assert!(renderer.retained().is_none());
    assert!(renderer.snapshot().is_none());
    assert_eq!(renderer.buffer().words(), &[0, 0, 0, 0]);
}

#[test]
fn one_iteration_captures_presents_and_polls() {
    let mut renderer = direct(1, 1);
    assert_eq!(renderer.step(OPEN), Action::Capture);
    assert_eq!(renderer.step(captured(1, 1, [1, 2, 3])), Action::Present);
    assert_eq!(renderer.buffer().words(), &[0x0001_0203]);
    assert_eq!(renderer.retained().unwrap().data(), &[1, 2, 3]);
    assert_eq!(renderer.step(Event::Presented(Ok(()))), Action::PollSurface);
    assert_eq!(renderer.state(), LoopState::Running);
}

#[test]
fn the_loop_paces_between_a_present_and_the_next_capture() {
    let mut renderer = direct(1, 1);
    assert_eq!(renderer.step(OPEN), Action::Capture);
    assert_eq!(renderer.step(captured(1, 1, [1, 2, 3])), Action::Present);
    assert_eq!(renderer.step(Event::Presented(Ok(()))), Action::PollSurface);
    assert_eq!(renderer.step(OPEN), Action::Pace { interval_ms: 33 });
    assert_eq!(renderer.step(Event::Paced), Action::Capture);
    assert_eq!(renderer.step(captured(1, 1, [4, 5, 6])), Action::Present);
    assert_eq!(renderer.buffer().words(), &[0x0004_0506]);
}

#[test]
fn the_retained_frame_is_replaced_by_the_next() {
    let mut renderer = direct(1, 1);
    renderer.step(OPEN);
    renderer.step(captured(1, 1, [1, 1, 1]));
    renderer.step(Event::Presented(Ok(())));
    renderer.step(OPEN);
    renderer.step(Event::Paced);
    renderer.step(captured(1, 1, [2, 2, 2]));
    assert_eq!(renderer.retained().unwrap().data(), &[2, 2, 2]);
}

#[test]
fn zero_frame_run_writes_no_snapshot_and_succeeds() {
    for quit in [CLOSED, QUIT, Event::Surface { open: false, quit_pressed: true }] {
        let mut renderer = direct(4, 4);
        assert_eq!(renderer.step(quit), Action::Exit { code: 0 });
        assert_eq!(renderer.state(), LoopState::Stopped);
        assert_eq!(renderer.phase(), Phase::Finished);
        assert_eq!(renderer.exit_code(), EXIT_SUCCESS);
        assert_eq!(renderer.failure(), None);
        assert!(renderer.snapshot().is_none());
    }
}

#[test]
fn scenario_device_loss_on_the_first_capture() {
    let mut renderer = resampled(640, 360);
    let mut actions = vec![renderer.pending()];
    actions.push(renderer.step(OPEN));
    let lost = FrameSource::capture_one(Reading::DeviceLost);
    actions.push(renderer.step(Event::Captured(lost)));
    assert_eq!(actions, vec![Action::PollSurface, Action::Capture, Action::Exit { code: 1 }]);
    assert!(!actions.contains(&Action::Present));
    assert!(!actions.contains(&Action::WriteSnapshot));
    assert_ne!(renderer.exit_code(), 0);
    assert_eq!(renderer.exit_code(), EXIT_FAILURE);
    assert_eq!(
        renderer.failure(),
        Some(PipelineError::Capture(CaptureError::DeviceUnavailable))
    );
    assert!(renderer.buffer().words().iter().all(|&w| w == 0));
}

#[test]
fn quitting_after_a_frame_asks_for_the_snapshot_then_exits_with_success() {
    let mut renderer = direct(1, 1);
    renderer.step(OPEN);
    renderer.step(captured(1, 1, [10, 20, 30]));
    renderer.step(Event::Presented(Ok(())));
    assert_eq!(renderer.step(QUIT), Action::WriteSnapshot);
    assert_eq!(renderer.state(), LoopState::Stopped);
    let snapshot = renderer.snapshot().unwrap();
    assert_eq!(snapshot.bgr(), &[30, 20, 10]);
    assert_eq!(renderer.step(Event::SnapshotWritten(Ok(()))), Action::Exit { code: 0 });
    assert_eq!(renderer.failure(), None);
}

#[test]
fn the_snapshot_has_the_frame_size_not_the_display_size() {
    let mut renderer = resampled(4, 2);
    renderer.step(OPEN);
    assert_eq!(renderer.step(captured(8, 6, [9, 8, 7])), Action::Present);
    assert_eq!(renderer.buffer().len(), 8);
    renderer.step(Event::Presented(Ok(())));
    assert_eq!(renderer.step(CLOSED), Action::WriteSnapshot);
    let snapshot = renderer.snapshot().unwrap();
    assert_eq!(snapshot.resolution(), Resolution::new(8, 6));
    assert_eq!(snapshot.bgr().len(), 8 * 6 * 3);
    assert_eq!(&snapshot.bgr()[0..3], &[7, 8, 9]);
}

#[test]
fn a_failed_snapshot_write_fails_the_run() {
    let mut renderer = direct(1, 1);
    renderer.step(OPEN);
    renderer.step(captured(1, 1, [1, 2, 3]));
    renderer.step(Event::Presented(Ok(())));
    renderer.step(QUIT);
    let written = Event::SnapshotWritten(Err(EncodeError::WriteFailed));
    assert_eq!(renderer.step(written), Action::Exit { code: 1 });
    assert_eq!(renderer.failure(), Some(PipelineError::Encode(EncodeError::WriteFailed)));
}

#[test]
fn a_transform_failure_stops_the_loop_and_keeps_the_earlier_frame() {
    let mut renderer = direct(1, 1);
    renderer.step(OPEN);
    renderer.step(captured(1, 1, [1, 2, 3]));
    renderer.step(Event::Presented(Ok(())));
    renderer.step(OPEN);
    renderer.step(Event::Paced);
    assert_eq!(renderer.step(captured(2, 2, [9, 9, 9])), Action::WriteSnapshot);
    assert_eq!(
        renderer.failure(),
        Some(PipelineError::Transform(TransformError::SizeMismatch))
    );
    assert_eq!(renderer.buffer().words(), &[0x0001_0203]);
    assert_eq!(renderer.retained().unwrap().data(), &[1, 2, 3]);
    assert_eq!(renderer.step(Event::SnapshotWritten(Ok(()))), Action::Exit { code: 1 });
}

#[test]
fn a_transform_failure_on_the_first_frame_exits_at_once() {
    let mut renderer = direct(2, 2);
    renderer.step(OPEN);
    assert_eq!(renderer.step(captured(1, 1, [1, 2, 3])), Action::Exit { code: 1 });
    assert!(renderer.retained().is_none());
    let mut renderer = resampled(2, 2);
    renderer.step(OPEN);
    assert_eq!(renderer.step(captured(0, 0, [0, 0, 0])), Action::Exit { code: 1 });
    assert_eq!(
        renderer.failure(),
        Some(PipelineError::Transform(TransformError::ResampleFailed))
    );
}

#[test]
fn a_later_capture_failure_still_asks_for_the_snapshot() {
    let mut renderer = direct(1, 1);
    renderer.step(OPEN);
    renderer.step(captured(1, 1, [1, 2, 3]));
    renderer.step(Event::Presented(Ok(())));
    renderer.step(OPEN);
    renderer.step(Event::Paced);
    let failed = Event::Captured(Err(CaptureError::DecodeFailed));
    assert_eq!(renderer.step(failed), Action::WriteSnapshot);
    let written = Event::SnapshotWritten(Err(EncodeError::WriteFailed));
    assert_eq!(renderer.step(written), Action::Exit { code: 1 });
    assert_eq!(renderer.failure(), Some(PipelineError::Capture(CaptureError::DecodeFailed)));
}

#[test]
fn a_failed_present_stops_the_loop() {
    let mut renderer = direct(1, 1);
    renderer.step(OPEN);
    renderer.step(captured(1, 1, [1, 2, 3]));
    let refused = Event::Presented(Err(DisplayError::PresentFailed));
    assert_eq!(renderer.step(refused), Action::WriteSnapshot);
    assert_eq!(renderer.failure(), Some(PipelineError::Display(DisplayError::PresentFailed)));
    assert_eq!(renderer.step(Event::SnapshotWritten(Ok(()))), Action::Exit { code: 1 });
}

#[test]
fn an_event_that_is_not_awaited_changes_nothing() {
    let mut renderer = direct(1, 1);
    assert_eq!(renderer.step(Event::Paced), Action::PollSurface);
    assert_eq!(renderer.step(captured(1, 1, [1, 2, 3])), Action::PollSurface);
    assert_eq!(renderer.step(Event::Presented(Ok(()))), Action::PollSurface);
    assert_eq!(renderer.step(Event::SnapshotWritten(Ok(()))), Action::PollSurface);
    assert!(renderer.retained().is_none());
    assert_eq!(renderer.buffer().words(), &[0]);
    assert_eq!(renderer.step(OPEN), Action::Capture);
    assert_eq!(renderer.step(QUIT), Action::Capture);
    assert_eq!(renderer.state(), LoopState::Running);
}

#[test]
fn a_finished_loop_stays_finished() {
    let mut renderer = direct(1, 1);
    renderer.step(CLOSED);
    assert_eq!(renderer.step(OPEN), Action::Exit { code: 0 });
    assert_eq!(renderer.step(captured(1, 1, [1, 2, 3])), Action::Exit { code: 0 });
    assert_eq!(renderer.pending(), Action::Exit { code: 0 });
    assert!(renderer.retained().is_none());
}

#[test]
fn the_buffer_length_never_changes() {
    let mut renderer = resampled(6, 4);
    assert_eq!(renderer.buffer().len(), 24);
    renderer.step(OPEN);
    renderer.step(captured(3, 9, [1, 2, 3]));
    assert_eq!(renderer.buffer().len(), 24);
    renderer.step(Event::Presented(Ok(())));
    renderer.step(OPEN);
    renderer.step(Event::Paced);
    renderer.step(captured(60, 40, [4, 5, 6]));
    assert_eq!(renderer.buffer().len(), 24);
    assert!(renderer.buffer().words().iter().all(|&w| w == 0x0004_0506));
}

#[test]
fn replay_answers_each_event_of_a_script() {
    let mut renderer = direct(1, 1);
    let script = vec![
        Event::Surface { open: true, quit_pressed: false },
        captured(1, 1, [1, 2, 3]),
        Event::Presented(Ok(())),
        Event::Surface { open: true, quit_pressed: true },
        Event::SnapshotWritten(Ok(())),
    ];
    let actions = renderer.replay(script);
    assert_eq!(
        actions,
        vec![
            Action::Capture,
            Action::Present,
            Action::PollSurface,
            Action::WriteSnapshot,
            Action::Exit { code: 0 },
        ]
    );
    assert_eq!(renderer.phase(), Phase::Finished);
    assert_eq!(renderer.replay(Vec::new()), Vec::<Action>::new());
}

#[test]
fn pipeline_errors_describe_the_error_they_hold() {
    assert_eq!(
        PipelineError::Capture(CaptureError::DeviceUnavailable).describe(),
        "the capture device is unavailable"
    );
    assert_eq!(
        PipelineError::Transform(TransformError::SizeMismatch).describe(),
        "frame and display differ in size"
    );
    assert_eq!(
        PipelineError::Display(DisplayError::PresentFailed).describe(),
        "the display did not take the frame"
    );
    assert_eq!(
        PipelineError::Encode(EncodeError::WriteFailed).describe(),
        "the snapshot could not be written"
    );
    assert_eq!(DisplayError::PresentFailed.describe(), "the display did not take the frame");
}

#[test]
fn no_loop_is_made_for_a_display_too_large_to_allocate() {
    let transformer = FrameTransformer::new(TransformMode::Direct);
    assert!(RenderLoop::new(transformer, Resolution::new(u32::MAX, u32::MAX), 33).is_none());
}

#[test]
fn the_pacing_interval_is_the_one_the_loop_was_made_with() {
    let transformer = FrameTransformer::new(TransformMode::Direct);
    let mut renderer = RenderLoop::new(transformer, Resolution::new(1, 1), 16).unwrap();
    renderer.step(OPEN);
    renderer.step(captured(1, 1, [1, 2, 3]));
    renderer.step(Event::Presented(Ok(())));
    assert_eq!(renderer.step(OPEN), Action::Pace { interval_ms: 16 });
}
