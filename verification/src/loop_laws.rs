//! What holds of every run of the render loop.

use vstd::prelude::*;
use crate::capture::CaptureError;
use crate::frame::{FrameView, Resolution};
use crate::render_loop::{
    initial, run, Action, EventView, LoopModel, LoopState, Phase, PipelineError, EXIT_FAILURE,
    EXIT_SUCCESS,
};
use crate::transform::{transformed, transformed_fills_the_display, TransformMode};

verus! {

/// What the parts of a loop's state have to do with each other: a running
/// loop has not failed; the loop waits for a pacing wait, a present or a
/// snapshot only while it retains a frame.
pub open spec fn coherent(model: LoopModel) -> bool {
    &&& model.state() == LoopState::Running ==> model.failure is None
    &&& model.phase == Phase::Pacing ==> model.retained is Some
    &&& model.phase == Phase::Present ==> model.retained is Some
    &&& model.phase == Phase::Snapshot ==> model.retained is Some
}

/// A new loop is coherent and well formed.
pub proof fn new_loop_is_sound(mode: TransformMode, target: Resolution, interval_ms: u64)
    ensures
        coherent(initial(mode, target, interval_ms)),
        initial(mode, target, interval_ms).wf(),
        initial(mode, target, interval_ms).state() == LoopState::Running,
        initial(mode, target, interval_ms).pending() == Action::PollSurface,
{
}

/// No event makes a coherent loop incoherent. So the loop never asks for a
/// snapshot while it retains no frame, and never keeps running after an
/// error.
pub proof fn runs_stay_coherent(start: LoopModel, events: Seq<EventView>)
    requires
        coherent(start),
    ensures
        coherent(run(start, events)),
        run(start, events).pending() == Action::WriteSnapshot ==> run(start, events).retained
            is Some,
    decreases events.len(),
{
    if events.len() > 0 {
        runs_stay_coherent(start, events.drop_last());
    }
}

/// Whether every frame that the events bring is well formed.
pub open spec fn frames_well_formed(events: Seq<EventView>) -> bool {
    forall|i: int|
        0 <= i < events.len() ==> (#[trigger] events[i] matches EventView::Captured(Ok(frame))
            ==> frame.wf())
}

/// The display keeps its size: whatever the sizes of the frames that
/// arrive, and in either mode, the loop's buffer holds one word for each
/// pixel of its target after every event.
pub proof fn runs_keep_the_display_size(start: LoopModel, events: Seq<EventView>)
    requires
        start.wf(),
        frames_well_formed(events),
    ensures
        run(start, events).wf(),
        run(start, events).words.len() == start.target.pixels(),
    decreases events.len(),
{
    runs_keep_configuration(start, events);
    if events.len() > 0 {
        let earlier = events.drop_last();
        assert(frames_well_formed(earlier)) by {
            assert forall|i: int| 0 <= i < earlier.len() implies earlier[i] == events[i] by {}
        }
        runs_keep_the_display_size(start, earlier);
        runs_keep_configuration(start, earlier);
        let before = run(start, earlier);
        if let EventView::Captured(Ok(frame)) = events.last() {
            assert(events[events.len() - 1] == events.last());
            transformed_fills_the_display(before.mode, frame, before.target);
        }
    }
}

/// The configuration of a loop never changes: not its mode, its target or
/// its pacing interval.
pub proof fn runs_keep_configuration(start: LoopModel, events: Seq<EventView>)
    ensures
        run(start, events).mode == start.mode,
        run(start, events).target == start.target,
        run(start, events).interval_ms == start.interval_ms,
    decreases events.len(),
{
    if events.len() > 0 {
        runs_keep_configuration(start, events.drop_last());
    }
}

/// Whether no capture has answered among the events.
pub open spec fn without_capture(events: Seq<EventView>) -> bool {
    forall|i: int| 0 <= i < events.len() ==> !(#[trigger] events[i] is Captured)
}

/// A run in which no frame is captured before the quit writes no snapshot
/// and ends in success: as long as no capture has answered, the loop retains
/// nothing, has not failed, leaves the display's words alone, asks neither
/// for a present nor for a snapshot, and exits, if it does, with success.
pub proof fn zero_frame_run_is_clean(start: LoopModel, events: Seq<EventView>)
    requires
        start.phase == Phase::Surface,
        start.retained is None,
        start.failure is None,
        without_capture(events),
    ensures
        run(start, events).retained is None,
        run(start, events).failure is None,
        run(start, events).words == start.words,
        run(start, events).pending() != Action::WriteSnapshot,
        run(start, events).pending() != Action::Present,
        run(start, events).exit_code() == EXIT_SUCCESS,
        run(start, events).phase == Phase::Surface || run(start, events).phase == Phase::Capture
            || run(start, events).phase == Phase::Finished,
        run(start, events).phase == Phase::Finished ==> run(start, events).pending()
            == (Action::Exit { code: EXIT_SUCCESS }),
    decreases events.len(),
{
    if events.len() > 0 {
        let earlier = events.drop_last();
        assert(without_capture(earlier)) by {
            assert forall|i: int| 0 <= i < earlier.len() implies earlier[i] == events[i] by {}
        }
        zero_frame_run_is_clean(start, earlier);
    }
}

/// A closed surface or a pressed quit key ends a run that has captured
/// nothing at once: the next action is the exit with success.
pub proof fn quit_before_first_frame_exits(start: LoopModel, open: bool, quit_pressed: bool)
    requires
        start.phase == Phase::Surface,
        start.retained is None,
        start.failure is None,
        !open || quit_pressed,
    ensures
        start.next(EventView::Surface { open, quit_pressed }).phase == Phase::Finished,
        start.next(EventView::Surface { open, quit_pressed }).pending() == (Action::Exit {
            code: EXIT_SUCCESS,
        }),
{
}

/// A capture that fails before any frame was retained ends the run at once,
/// with failure: nothing is presented and no snapshot is asked for.
pub proof fn failed_first_capture_exits(start: LoopModel, error: CaptureError)
    requires
        start.phase == Phase::Capture,
        start.retained is None,
    ensures
        start.next(EventView::Captured(Err(error))).phase == Phase::Finished,
        start.next(EventView::Captured(Err(error))).failure == Some(PipelineError::Capture(error)),
        start.next(EventView::Captured(Err(error))).pending() == (Action::Exit {
            code: EXIT_FAILURE,
        }),
        start.next(EventView::Captured(Err(error))).words == start.words,
{
}

/// A frame that is refused is never presented, not even in part: the
/// display's words and the retained frame stay as they were, the loop
/// stops with the transformer's error, and the next action is no present.
pub proof fn refused_frame_is_not_presented(model: LoopModel, frame: FrameView)
    requires
        model.phase == Phase::Capture,
        transformed(model.mode, frame, model.target) is Err,
    ensures
        model.next(EventView::Captured(Ok(frame))).words == model.words,
        model.next(EventView::Captured(Ok(frame))).retained == model.retained,
        model.next(EventView::Captured(Ok(frame))).state() == LoopState::Stopped,
        model.next(EventView::Captured(Ok(frame))).failure == Some(
            PipelineError::Transform(transformed(model.mode, frame, model.target)->Err_0),
        ),
        model.next(EventView::Captured(Ok(frame))).pending() != Action::Present,
{
}

/// A frame that is taken replaces the retained one and is presented next:
/// the loop keeps a single frame, the last that reached the display.
pub proof fn taken_frame_is_retained(model: LoopModel, frame: FrameView)
    requires
        model.phase == Phase::Capture,
        transformed(model.mode, frame, model.target) is Ok,
    ensures
        model.next(EventView::Captured(Ok(frame))).retained == Some(frame),
        model.next(EventView::Captured(Ok(frame))).words == transformed(
            model.mode,
            frame,
            model.target,
        )->Ok_0,
        model.next(EventView::Captured(Ok(frame))).pending() == Action::Present,
        model.next(EventView::Captured(Ok(frame))).failure == model.failure,
{
}

/// A finished run stays finished: every further event leaves the loop as it
/// is, and the action stays the same exit.
pub proof fn finished_is_final(end: LoopModel, events: Seq<EventView>)
    requires
        end.phase == Phase::Finished,
    ensures
        run(end, events) == end,
    decreases events.len(),
{
    if events.len() > 0 {
        finished_is_final(end, events.drop_last());
    }
}

/// A stopped loop never runs again.
pub proof fn stopped_stays_stopped(model: LoopModel, events: Seq<EventView>)
    requires
        model.state() == LoopState::Stopped,
    ensures
        run(model, events).state() == LoopState::Stopped,
        run(model, events).retained == model.retained,
        run(model, events).words == model.words,
    decreases events.len(),
{
    if events.len() > 0 {
        stopped_stays_stopped(model, events.drop_last());
    }
}

/// The first error of a run is the one that is kept: once the loop has
/// failed no event replaces the error, not even a snapshot that cannot be
/// written, and the exit status stays failure.
pub proof fn first_error_is_kept(model: LoopModel, event: EventView)
    requires
        model.failure is Some,
        coherent(model),
    ensures
        model.next(event).failure == model.failure,
        model.next(event).exit_code() == EXIT_FAILURE,
{
}

} // verus!
