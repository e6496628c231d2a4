//! The frame transformer: from a decoded frame to the words of the display.

use vstd::prelude::*;
use crate::display::{packed_pixels, DisplayBuffer, DisplayView};
use crate::frame::{DecodedFrame, FrameView, Resolution};
use crate::pixel::pack_word;
use crate::resample::{backend_accepts, resample_frame, resampled_rgb};

verus! {

/// How frames reach the display's resolution; chosen once, when the
/// transformer is made.
#[derive(Clone, Copy, Debug, PartialEq, Eq, Structural)]
pub enum TransformMode {
    /// Frames already have the display's resolution and are packed as they are.
    Direct,
    /// Frames of any resolution are resampled to the display's, then packed.
    Resampled,
}

/// Why a frame did not reach the display buffer.
#[derive(Clone, Copy, Debug, PartialEq, Eq, Structural)]
pub enum TransformError {
    /// Direct mode was given a frame that has not the display's resolution.
    SizeMismatch,
    /// The resampling backend cannot take the frame's or the display's size.
    ResampleFailed,
}

impl TransformError {
    /// The sentence that describes the error.
    pub open spec fn message(self) -> Seq<char> {
        match self {
            TransformError::SizeMismatch => "frame and display differ in size"@,
            TransformError::ResampleFailed => "the frame could not be resampled"@,
        }
    }

    /// A sentence for the user.
    pub fn describe(&self) -> (text: &'static str)
        ensures
            text@ == self.message(),
    {
        match self {
            TransformError::SizeMismatch => "frame and display differ in size",
            TransformError::ResampleFailed => "the frame could not be resampled",
        }
    }
}

/// The words that a frame gives for a display of resolution `target`, or the
/// error with which it is refused.
pub open spec fn transformed(mode: TransformMode, frame: FrameView, target: Resolution) -> Result<
    Seq<u32>,
    TransformError,
> {
    match mode {
        TransformMode::Direct => if frame.resolution() == target {
            Ok(packed_pixels(frame.data))
        } else {
            Err(TransformError::SizeMismatch)
        },
        TransformMode::Resampled => match resampled_rgb(frame, target) {
            Some(rgb) => Ok(packed_pixels(rgb)),
            None => Err(TransformError::ResampleFailed),
        },
    }
}

/// What one transformation does to the display buffer: on success every word
/// is overwritten with the frame's; on failure the buffer is as it was.
pub open spec fn transforms(
    mode: TransformMode,
    frame: FrameView,
    target: Resolution,
    before: DisplayView,
    after: DisplayView,
    result: Result<(), TransformError>,
) -> bool {
    &&& after.resolution() == target
    &&& match transformed(mode, frame, target) {
        Ok(words) => result is Ok && after.words == words,
        Err(error) => result == Err::<(), TransformError>(error) && after.words == before.words,
    }
}

/// Converts decoded frames into the display's words.
#[derive(Clone, Copy, Debug)]
pub struct FrameTransformer {
    mode: TransformMode,
}

impl View for FrameTransformer {
    type V = TransformMode;

    closed spec fn view(&self) -> TransformMode {
        self.mode
    }
}

impl FrameTransformer {
    pub fn new(mode: TransformMode) -> (transformer: FrameTransformer)
        ensures
            transformer@ == mode,
    {
        FrameTransformer { mode }
    }

    pub fn mode(&self) -> (mode: TransformMode)
        ensures
            mode == self@,
    {
        self.mode
    }

    /// Writes the frame into `out`, the buffer of a display of resolution
    /// `target`.
    ///
    /// In direct mode the frame must have the target's resolution, else it is
    /// refused with `SizeMismatch`: nothing is cropped or padded. In resampled
    /// mode the frame is first resampled to the target, and refused with
    /// `ResampleFailed` exactly where the backend cannot take the sizes. A
    /// refused frame leaves `out` untouched, and the length of `out` never
    /// changes.
    pub fn to_display_buffer(
        &self,
        frame: &DecodedFrame,
        out: &mut DisplayBuffer,
        target: Resolution,
    ) -> (result: Result<(), TransformError>)
        requires
            old(out)@.resolution() == target,
        ensures
            transforms(self@, frame@, target, old(out)@, final(out)@, result),
            final(out)@.wf(),
            final(out)@.words.len() == target.pixels(),
            result is Err ==> final(out)@ == old(out)@,
            self@ == TransformMode::Direct ==> (result is Ok <==> frame@.resolution() == target),
            self@ == TransformMode::Direct && frame@.resolution() != target ==> result == Err::<
                (),
                TransformError,
            >(TransformError::SizeMismatch),
            self@ == TransformMode::Direct && frame@.resolution() == target ==> forall|i: int|
                0 <= i < target.pixels() ==> final(out)@.words[i] == pack_word(
                    frame@.red(i),
                    frame@.green(i),
                    frame@.blue(i),
                ),
            self@ == TransformMode::Resampled ==> (result is Ok <==> backend_accepts(
                frame@.width,
                frame@.height,
                target.width,
                target.height,
            )),
            self@ == TransformMode::Resampled && result is Err ==> result == Err::<
                (),
                TransformError,
            >(TransformError::ResampleFailed),
            self@ == TransformMode::Resampled && result is Ok && frame@.resolution() == target
                ==> final(out)@.words == packed_pixels(frame@.data),
    {
        proof {
            use_type_invariant(&*out);
        }
        match self.mode {
            TransformMode::Direct => {
                if frame.width() != target.width || frame.height() != target.height {
                    return Err(TransformError::SizeMismatch);
                }
                let rgb = frame.data();
                match out.fill_from_rgb(rgb) {
                    Ok(()) => Ok(()),
                    Err(_) => Err(TransformError::SizeMismatch),
                }
            },
            TransformMode::Resampled => {
                match resample_frame(frame, target) {
                    Some(rgb) => match out.fill_from_rgb(rgb.as_slice()) {
                        Ok(()) => Ok(()),
                        Err(_) => Err(TransformError::ResampleFailed),
                    },
                    None => Err(TransformError::ResampleFailed),
                }
            },
        }
    }
}

/// A frame that is taken fills the display exactly: in either mode, and
/// whatever the frame's own size, there is one word for each pixel of the
/// target.
pub proof fn transformed_fills_the_display(
    mode: TransformMode,
    frame: FrameView,
    target: Resolution,
)
    requires
        frame.wf(),
    ensures
        transformed(mode, frame, target) matches Ok(words) ==> words.len() == target.pixels(),
{
}

/// Resampling is deterministic: the same bytes, the same frame size and the
/// same target leave no choice of result or of buffer contents, whatever the
/// buffer held before.
pub proof fn resampling_is_deterministic(
    first: FrameView,
    second: FrameView,
    target: Resolution,
    before_first: DisplayView,
    before_second: DisplayView,
    after_first: DisplayView,
    after_second: DisplayView,
    result_first: Result<(), TransformError>,
    result_second: Result<(), TransformError>,
)
    requires
        first.width == second.width,
        first.height == second.height,
        first.data == second.data,
        transforms(
            TransformMode::Resampled,
            first,
            target,
            before_first,
            after_first,
            result_first,
        ),
        transforms(
            TransformMode::Resampled,
            second,
            target,
            before_second,
            after_second,
            result_second,
        ),
    ensures
        result_first == result_second,
        result_first is Ok ==> after_first == after_second,
{
    assert(first == second);
    match transformed(TransformMode::Resampled, first, target) {
        Ok(words) => {
            assert(result_first is Ok && result_second is Ok);
            assert(result_first->Ok_0 == result_second->Ok_0);
            assert(after_first.words == after_second.words);
        },
        Err(error) => {},
    }
}

} // verus!
