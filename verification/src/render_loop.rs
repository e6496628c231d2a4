//! The render loop: which collaborator is asked next, and what its answer
//! does to the loop.
//!
//! The loop itself performs no capture, present, wait or write. It hands out
//! one [`Action`] at a time; whoever drives it performs the action and hands
//! back the [`Event`] that came of it.

use vstd::prelude::*;
use crate::capture::CaptureError;
use crate::display::{allocatable, blank_words, DisplayBuffer};
use crate::frame::{DecodedFrame, FrameView, Resolution};
use crate::snapshot::{snapshot_of, EncodeError, Snapshot, SnapshotWriter};
use crate::transform::{transformed, FrameTransformer, TransformError, TransformMode};

verus! {

/// The exit status of a run that stopped cleanly.
pub const EXIT_SUCCESS: i32 = 0;

/// The exit status of a run that a fatal error stopped.
pub const EXIT_FAILURE: i32 = 1;

/// The two states of the loop.
#[derive(Clone, Copy, Debug, PartialEq, Eq, Structural)]
pub enum LoopState {
    Running,
    Stopped,
}

/// What the loop is waiting for.
#[derive(Clone, Copy, Debug, PartialEq, Eq, Structural)]
pub enum Phase {
    /// Whether the display surface is still open and the quit key is up.
    Surface,
    /// The end of the pacing wait.
    Pacing,
    /// A frame from the capture device.
    Capture,
    /// The display surface to take the buffer.
    Present,
    /// The snapshot to be written.
    Snapshot,
    /// Nothing: the run is over.
    Finished,
}

/// Why the display surface did not show a frame.
#[derive(Clone, Copy, Debug, PartialEq, Eq, Structural)]
pub enum DisplayError {
    /// The surface refused the buffer.
    PresentFailed,
}

impl DisplayError {
    /// The sentence that describes the error.
    pub open spec fn message(self) -> Seq<char> {
        match self {
            DisplayError::PresentFailed => "the display did not take the frame"@,
        }
    }

    /// A sentence for the user.
    pub fn describe(&self) -> (text: &'static str)
        ensures
            text@ == self.message(),
    {
        match self {
            DisplayError::PresentFailed => "the display did not take the frame",
        }
    }
}

/// The fatal errors of a run. None is retried.
#[derive(Clone, Copy, Debug, PartialEq, Eq, Structural)]
pub enum PipelineError {
    Capture(CaptureError),
    Transform(TransformError),
    Display(DisplayError),
    Encode(EncodeError),
}

impl PipelineError {
    /// The sentence that describes the error: that of the error it holds.
    pub open spec fn message(self) -> Seq<char> {
        match self {
            PipelineError::Capture(error) => error.message(),
            PipelineError::Transform(error) => error.message(),
            PipelineError::Display(error) => error.message(),
            PipelineError::Encode(error) => error.message(),
        }
    }

    /// A sentence for the user.
    pub fn describe(&self) -> (text: &'static str)
        ensures
            text@ == self.message(),
    {
        match self {
            PipelineError::Capture(error) => error.describe(),
            PipelineError::Transform(error) => error.describe(),
            PipelineError::Display(error) => error.describe(),
            PipelineError::Encode(error) => error.describe(),
        }
    }
}

/// What the driver is to do next.
#[derive(Clone, Copy, Debug, PartialEq, Eq, Structural)]
pub enum Action {
    /// Ask the display surface whether it is open and whether the quit key
    /// is down.
    PollSurface,
    /// Block until `interval_ms` have passed since the last present.
    Pace { interval_ms: u64 },
    /// Pull one frame from the capture device.
    Capture,
    /// Present the loop's buffer.
    Present,
    /// Write the loop's snapshot to disk.
    WriteSnapshot,
    /// End the process with this status.
    Exit { code: i32 },
}

/// What a collaborator answered.
#[derive(Debug)]
pub enum Event {
    /// The state of the display surface and of the quit key.
    Surface { open: bool, quit_pressed: bool },
    /// The pacing wait is over.
    Paced,
    /// The frame source's result.
    Captured(Result<DecodedFrame, CaptureError>),
    /// The display surface's result.
    Presented(Result<(), DisplayError>),
    /// The snapshot writer's result.
    SnapshotWritten(Result<(), EncodeError>),
}

/// An event with its frame as a value.
pub enum EventView {
    Surface { open: bool, quit_pressed: bool },
    Paced,
    Captured(Result<FrameView, CaptureError>),
    Presented(Result<(), DisplayError>),
    SnapshotWritten(Result<(), EncodeError>),
}

impl View for Event {
    type V = EventView;

    open spec fn view(&self) -> EventView {
        match *self {
            Event::Surface { open, quit_pressed } => EventView::Surface { open, quit_pressed },
            Event::Paced => EventView::Paced,
            Event::Captured(Ok(frame)) => EventView::Captured(Ok(frame@)),
            Event::Captured(Err(error)) => EventView::Captured(Err(error)),
            Event::Presented(result) => EventView::Presented(result),
            Event::SnapshotWritten(result) => EventView::SnapshotWritten(result),
        }
    }
}

/// What a render loop is: its fixed configuration, what it waits for, the
/// display's words, the one frame it retains and the error that stopped it.
pub struct LoopModel {
    pub mode: TransformMode,
    pub target: Resolution,
    pub interval_ms: u64,
    pub phase: Phase,
    pub words: Seq<u32>,
    pub retained: Option<FrameView>,
    pub failure: Option<PipelineError>,
}

impl LoopModel {
    /// The display has one word for each pixel of the target, and the
    /// retained frame, if any, is well formed.
    pub open spec fn wf(self) -> bool {
        &&& self.words.len() == self.target.pixels()
        &&& self.retained matches Some(frame) ==> frame.wf()
    }

    pub open spec fn state(self) -> LoopState {
        match self.phase {
            Phase::Snapshot | Phase::Finished => LoopState::Stopped,
            _ => LoopState::Running,
        }
    }

    /// The exit status that the run has earned so far.
    pub open spec fn exit_code(self) -> i32 {
        exit_code_of(self.failure)
    }

    /// The action whose event the loop is waiting for.
    pub open spec fn pending(self) -> Action {
        match self.phase {
            Phase::Surface => Action::PollSurface,
            Phase::Pacing => Action::Pace { interval_ms: self.interval_ms },
            Phase::Capture => Action::Capture,
            Phase::Present => Action::Present,
            Phase::Snapshot => Action::WriteSnapshot,
            Phase::Finished => Action::Exit { code: self.exit_code() },
        }
    }

    /// The loop in another phase.
    pub open spec fn at(self, phase: Phase) -> LoopModel {
        LoopModel { phase, ..self }
    }

    /// The loop on entering the stopped state with `failure`: it asks for the
    /// snapshot if a frame is retained and is finished if none is.
    pub open spec fn stopped(self, failure: Option<PipelineError>) -> LoopModel {
        LoopModel {
            failure,
            phase: if self.retained is Some {
                Phase::Snapshot
            } else {
                Phase::Finished
            },
            ..self
        }
    }

    /// The loop after an event. An event that the loop is not waiting for
    /// changes nothing.
    pub open spec fn next(self, event: EventView) -> LoopModel {
        match (self.phase, event) {
            (Phase::Surface, EventView::Surface { open, quit_pressed }) => {
                if !open || quit_pressed {
                    self.stopped(None)
                } else if self.retained is Some {
                    self.at(Phase::Pacing)
                } else {
                    self.at(Phase::Capture)
                }
            },
            (Phase::Pacing, EventView::Paced) => self.at(Phase::Capture),
            (Phase::Capture, EventView::Captured(Ok(frame))) => {
                match transformed(self.mode, frame, self.target) {
                    Ok(words) => LoopModel {
                        words,
                        retained: Some(frame),
                        phase: Phase::Present,
                        ..self
                    },
                    Err(error) => self.stopped(Some(PipelineError::Transform(error))),
                }
            },
            (Phase::Capture, EventView::Captured(Err(error))) => self.stopped(
                Some(PipelineError::Capture(error)),
            ),
            (Phase::Present, EventView::Presented(Ok(_))) => self.at(Phase::Surface),
            (Phase::Present, EventView::Presented(Err(error))) => self.stopped(
                Some(PipelineError::Display(error)),
            ),
            (Phase::Snapshot, EventView::SnapshotWritten(result)) => LoopModel {
                phase: Phase::Finished,
                failure: match (self.failure, result) {
                    (None, Err(error)) => Some(PipelineError::Encode(error)),
                    (failure, _) => failure,
                },
                ..self
            },
            _ => self,
        }
    }
}

/// The loop after a sequence of events, each handed to it in turn.
pub open spec fn run(start: LoopModel, events: Seq<EventView>) -> LoopModel
    decreases events.len(),
{
    if events.len() == 0 {
        start
    } else {
        run(start, events.drop_last()).next(events.last())
    }
}

/// The events of a script as values.
pub open spec fn views(events: Seq<Event>) -> Seq<EventView> {
    events.map_values(|event: Event| event@)
}

/// The exit status for a run that ended with `failure`.
pub open spec fn exit_code_of(failure: Option<PipelineError>) -> i32 {
    if failure is None {
        EXIT_SUCCESS
    } else {
        EXIT_FAILURE
    }
}

/// A loop that has just been made: it waits for the display surface's state,
/// shows nothing, retains nothing and has not failed.
pub open spec fn initial(mode: TransformMode, target: Resolution, interval_ms: u64) -> LoopModel {
    LoopModel {
        mode,
        target,
        interval_ms,
        phase: Phase::Surface,
        words: blank_words(target),
        retained: None,
        failure: None,
    }
}

/// The render loop.
#[derive(Debug)]
pub struct RenderLoop {
    transformer: FrameTransformer,
    interval_ms: u64,
    phase: Phase,
    buffer: DisplayBuffer,
    retained: Option<DecodedFrame>,
    failure: Option<PipelineError>,
}

impl View for RenderLoop {
    type V = LoopModel;

    closed spec fn view(&self) -> LoopModel {
        LoopModel {
            mode: self.transformer@,
            target: self.buffer@.resolution(),
            interval_ms: self.interval_ms,
            phase: self.phase,
            words: self.buffer@.words,
            retained: match self.retained {
                Some(frame) => Some(frame@),
                None => None,
            },
            failure: self.failure,
        }
    }
}

impl RenderLoop {
    /// A loop for a display of resolution `target`, with a buffer of zero
    /// words; none where a buffer of that size cannot be allocated.
    pub fn new(transformer: FrameTransformer, target: Resolution, interval_ms: u64) -> (made:
        Option<RenderLoop>)
        ensures
            made is Some <==> allocatable(target),
            made matches Some(l) ==> l@ == initial(transformer@, target, interval_ms) && l@.wf(),
    {
        match DisplayBuffer::new(target) {
            Some(buffer) => Some(
                RenderLoop {
                    transformer,
                    interval_ms,
                    phase: Phase::Surface,
                    buffer,
                    retained: None,
                    failure: None,
                },
            ),
            None => None,
        }
    }

    pub fn state(&self) -> (state: LoopState)
        ensures
            state == self@.state(),
    {
        match self.phase {
            Phase::Snapshot | Phase::Finished => LoopState::Stopped,
            _ => LoopState::Running,
        }
    }

    pub fn phase(&self) -> (phase: Phase)
        ensures
            phase == self@.phase,
    {
        self.phase
    }

    pub fn target(&self) -> (target: Resolution)
        ensures
            target == self@.target,
    {
        self.buffer.resolution()
    }

    /// The error that stopped the loop, if one did.
    pub fn failure(&self) -> (failure: Option<PipelineError>)
        ensures
            failure == self@.failure,
    {
        self.failure
    }

    /// The exit status that the run has earned so far: success unless a
    /// fatal error occurred.
    pub fn exit_code(&self) -> (code: i32)
        ensures
            code == self@.exit_code(),
    {
        match self.failure {
            None => EXIT_SUCCESS,
            Some(_) => EXIT_FAILURE,
        }
    }

    /// The action whose event the loop is waiting for. For a new loop this
    /// is the first thing to do.
    pub fn pending(&self) -> (action: Action)
        ensures
            action == self@.pending(),
    {
        match self.phase {
            Phase::Surface => Action::PollSurface,
            Phase::Pacing => Action::Pace { interval_ms: self.interval_ms },
            Phase::Capture => Action::Capture,
            Phase::Present => Action::Present,
            Phase::Snapshot => Action::WriteSnapshot,
            Phase::Finished => Action::Exit { code: self.exit_code() },
        }
    }

    /// The display buffer, for the display surface to present.
    pub fn buffer(&self) -> (buffer: &DisplayBuffer)
        ensures
            buffer@.words == self@.words,
            buffer@.resolution() == self@.target,
            buffer@.wf(),
    {
        proof {
            use_type_invariant(&self.buffer);
        }
        &self.buffer
    }

    /// The frame that the loop retains: the last one that reached the
    /// display buffer.
    pub fn retained(&self) -> (frame: Option<&DecodedFrame>)
        ensures
            frame is Some <==> self@.retained is Some,
            frame matches Some(f) ==> self@.retained == Some(f@) && f@.wf(),
    {
        match &self.retained {
            Some(frame) => {
                proof {
                    use_type_invariant(frame);
                }
                Some(frame)
            },
            None => None,
        }
    }

    /// The snapshot of the retained frame, for the image encoder; none
    /// where no frame is retained.
    pub fn snapshot(&self) -> (snapshot: Option<Snapshot>)
        ensures
            snapshot is Some <==> self@.retained is Some,
            snapshot matches Some(s) ==> s@ == snapshot_of(self@.retained->Some_0),
    {
        match &self.retained {
            Some(frame) => Some(SnapshotWriter::prepare(frame)),
            None => None,
        }
    }

    /// Takes the event of the pending action and says what to do next.
    ///
    /// The loop polls the surface, waits out the pacing interval once a
    /// frame has been presented, captures, transforms the frame into its
    /// buffer, retains it, and has the buffer presented. It stops when the
    /// surface is closed or the quit key is down, and on the first error of
    /// a capture, a transformation or a present. On stopping it asks for the
    /// snapshot if it retains a frame, and then for the exit.
    pub fn step(&mut self, event: Event) -> (action: Action)
        ensures
            final(self)@ == old(self)@.next(event@),
            action == final(self)@.pending(),
            final(self)@.wf(),
    {
        proof {
            use_type_invariant(&self.buffer);
            if let Some(frame) = &self.retained {
                use_type_invariant(frame);
            }
        }
        let ghost before = self@;
        match (self.phase, event) {
            (Phase::Surface, Event::Surface { open, quit_pressed }) => {
                if !open || quit_pressed {
                    self.stop(None);
                } else if self.retained.is_some() {
                    self.phase = Phase::Pacing;
                } else {
                    self.phase = Phase::Capture;
                }
            },
            (Phase::Pacing, Event::Paced) => {
                self.phase = Phase::Capture;
            },
            (Phase::Capture, Event::Captured(Ok(frame))) => {
                proof {
                    use_type_invariant(&frame);
                }
                let transformer = self.transformer;
                let target = self.buffer.resolution();
                match transformer.to_display_buffer(&frame, &mut self.buffer, target) {
                    Ok(()) => {
                        self.retained = Some(frame);
                        self.phase = Phase::Present;
                    },
                    Err(error) => {
                        self.stop(Some(PipelineError::Transform(error)));
                    },
                }
            },
            (Phase::Capture, Event::Captured(Err(error))) => {
                self.stop(Some(PipelineError::Capture(error)));
            },
            (Phase::Present, Event::Presented(Ok(()))) => {
                self.phase = Phase::Surface;
            },
            (Phase::Present, Event::Presented(Err(error))) => {
                self.stop(Some(PipelineError::Display(error)));
            },
            (Phase::Snapshot, Event::SnapshotWritten(result)) => {
                if let Err(error) = result {
                    if self.failure.is_none() {
                        self.failure = Some(PipelineError::Encode(error));
                    }
                }
                self.phase = Phase::Finished;
            },
            _ => {},
        }
        assert(self@.words =~= before.next(event@).words);
        self.pending()
    }

    /// Hands a script of events to the loop, one after the other, and
    /// collects the action that answers each.
    pub fn replay(&mut self, events: Vec<Event>) -> (actions: Vec<Action>)
        ensures
            final(self)@ == run(old(self)@, views(events@)),
            actions@.len() == events@.len(),
            forall|i: int|
                0 <= i < actions@.len() ==> actions@[i] == run(
                    old(self)@,
                    views(events@).take(i + 1),
                ).pending(),
            final(self)@.wf(),
    {
        proof {
            use_type_invariant(&self.buffer);
            if let Some(frame) = &self.retained {
                use_type_invariant(frame);
            }
        }
        let mut actions: Vec<Action> = Vec::new();
        let ghost script = views(events@);
        for event in it: events.into_iter()
            invariant
                it.seq() == events@,
                script == views(events@),
                self@ == run(old(self)@, script.take(it.index() as int)),
                self@.wf(),
                actions@.len() == it.index(),
                forall|i: int|
                    0 <= i < actions@.len() ==> actions@[i] == run(
                        old(self)@,
                        script.take(i + 1),
                    ).pending(),
        {
            proof {
                let done = it.index() as int;
                assert(script.take(done + 1).drop_last() =~= script.take(done));
                assert(script.take(done + 1).last() == event@);
            }
            let action = self.step(event);
            actions.push(action);
        }
        proof {
            assert(script.take(script.len() as int) =~= script);
        }
        actions
    }

    /// Enters the stopped state.
    fn stop(&mut self, failure: Option<PipelineError>)
        ensures
            final(self)@ == old(self)@.stopped(failure),
    {
        self.failure = failure;
        if self.retained.is_some() {
            self.phase = Phase::Snapshot;
        } else {
            self.phase = Phase::Finished;
        }
    }
}

} // verus!
