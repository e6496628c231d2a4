//! The frame source: what one pull from the capture device becomes.

use vstd::prelude::*;
use crate::frame::{DecodedFrame, FrameView};

verus! {

/// Why no frame was captured.
#[derive(Clone, Copy, Debug, PartialEq, Eq, Structural)]
pub enum CaptureError {
    /// The capture device is gone.
    DeviceUnavailable,
    /// The device's bytes are no image of the expected pixel format.
    DecodeFailed,
}

impl CaptureError {
    /// The sentence that describes the error.
    pub open spec fn message(self) -> Seq<char> {
        match self {
            CaptureError::DeviceUnavailable => "the capture device is unavailable"@,
            CaptureError::DecodeFailed => "the captured frame could not be decoded"@,
        }
    }

    /// A sentence for the user.
    pub fn describe(&self) -> (text: &'static str)
        ensures
            text@ == self.message(),
    {
        match self {
            CaptureError::DeviceUnavailable => "the capture device is unavailable",
            CaptureError::DecodeFailed => "the captured frame could not be decoded",
        }
    }
}

/// What one pull from the capture device gave.
#[derive(Debug)]
pub enum Reading {
    /// The device reported that it is lost.
    DeviceLost,
    /// The device gave bytes that its decoder could not read.
    Undecodable,
    /// The decoder's output: RGB bytes for an image of the declared size.
    Pixels { width: u32, height: u32, rgb: Vec<u8> },
}

/// What a reading becomes: the frame it holds, or the error it stands for.
/// Decoded bytes are a frame only if there are three for each pixel of the
/// declared size.
pub open spec fn captured(reading: Reading) -> Result<FrameView, CaptureError> {
    match reading {
        Reading::DeviceLost => Err(CaptureError::DeviceUnavailable),
        Reading::Undecodable => Err(CaptureError::DecodeFailed),
        Reading::Pixels { width, height, rgb } => {
            let frame = FrameView { width, height, data: rgb@ };
            if frame.wf() {
                Ok(frame)
            } else {
                Err(CaptureError::DecodeFailed)
            }
        },
    }
}

/// Turns readings of the capture device into decoded frames. It keeps nothing
/// between calls.
#[derive(Clone, Copy, Debug)]
pub struct FrameSource;

impl FrameSource {
    /// The frame of one reading, or why there is none.
    pub fn capture_one(reading: Reading) -> (result: Result<DecodedFrame, CaptureError>)
        ensures
            match captured(reading) {
                Ok(frame) => result matches Ok(f) && f@ == frame,
                Err(error) => result matches Err(e) && e == error,
            },
            result matches Ok(f) ==> f@.wf(),
    {
        match reading {
            Reading::DeviceLost => Err(CaptureError::DeviceUnavailable),
            Reading::Undecodable => Err(CaptureError::DecodeFailed),
            Reading::Pixels { width, height, rgb } => {
                match DecodedFrame::from_rgb(width, height, rgb) {
                    Some(frame) => Ok(frame),
                    None => Err(CaptureError::DecodeFailed),
                }
            },
        }
    }
}

} // verus!
