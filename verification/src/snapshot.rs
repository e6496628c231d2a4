//! The snapshot: the last frame as the image encoder wants it.

use vstd::prelude::*;
use crate::frame::{DecodedFrame, FrameView, Resolution};

verus! {

/// Why no snapshot was written.
#[derive(Clone, Copy, Debug, PartialEq, Eq, Structural)]
pub enum EncodeError {
    /// The encoder could not create or write the file.
    WriteFailed,
}

impl EncodeError {
    /// The sentence that describes the error.
    pub open spec fn message(self) -> Seq<char> {
        match self {
            EncodeError::WriteFailed => "the snapshot could not be written"@,
        }
    }

    /// A sentence for the user.
    pub fn describe(&self) -> (text: &'static str)
        ensures
            text@ == self.message(),
    {
        match self {
            EncodeError::WriteFailed => "the snapshot could not be written",
        }
    }
}

/// The length of the group of three that holds byte `i` of `len` bytes; the
/// last group is shorter where `len` is no multiple of three.
pub open spec fn group_len(len: int, i: int) -> int {
    let start = i - i % 3;
    if len - start >= 3 {
        3
    } else {
        len - start
    }
}

/// The place that byte `i` comes from when each group is reversed.
pub open spec fn mirrored(len: int, i: int) -> int {
    let start = i - i % 3;
    start + (group_len(len, i) - 1 - i % 3)
}

/// The bytes with each group of three reversed, a shorter last group too.
pub open spec fn reversed_triplets(bytes: Seq<u8>) -> Seq<u8> {
    Seq::new(bytes.len(), |i: int| bytes[mirrored(bytes.len() as int, i)])
}

/// Reverses the channel order of each pixel: RGB bytes become BGR bytes. The
/// input is not changed; the result is a new buffer of the same length.
pub fn rgb_to_bgr(rgb: &[u8]) -> (bgr: Vec<u8>)
    ensures
        bgr@ == reversed_triplets(rgb@),
        bgr@.len() == rgb@.len(),
{
    let len = rgb.len();
    let mut bgr: Vec<u8> = Vec::with_capacity(len);
    let mut start: usize = 0;
    while start < len
        invariant
            len == rgb@.len(),
            start <= len,
            start % 3 == 0 || start == len,
            bgr@.len() == start,
            forall|j: int| 0 <= j < start ==> bgr@[j] == rgb@[mirrored(len as int, j)],
        decreases len - start,
    {
        let left = len - start;
        if left >= 3 {
            bgr.push(rgb[start + 2]);
            bgr.push(rgb[start + 1]);
            bgr.push(rgb[start]);
            start += 3;
        } else if left == 2 {
            bgr.push(rgb[start + 1]);
            bgr.push(rgb[start]);
            start += 2;
        } else {
            bgr.push(rgb[start]);
            start += 1;
        }
    }
    assert(bgr@ =~= reversed_triplets(rgb@));
    bgr
}

/// What a snapshot is: the size of the frame it was taken from and its bytes
/// in the order blue, green, red.
pub struct SnapshotView {
    pub width: u32,
    pub height: u32,
    pub bgr: Seq<u8>,
}

/// The snapshot of a frame: the frame's own size, whatever the display's,
/// and its bytes with every pixel's channels reversed.
pub open spec fn snapshot_of(frame: FrameView) -> SnapshotView {
    SnapshotView { width: frame.width, height: frame.height, bgr: reversed_triplets(frame.data) }
}

/// An image ready for the encoder.
#[derive(Debug)]
pub struct Snapshot {
    width: u32,
    height: u32,
    bgr: Vec<u8>,
}

impl View for Snapshot {
    type V = SnapshotView;

    closed spec fn view(&self) -> SnapshotView {
        SnapshotView { width: self.width, height: self.height, bgr: self.bgr@ }
    }
}

impl Snapshot {
    pub fn width(&self) -> (width: u32)
        ensures
            width == self@.width,
    {
        self.width
    }

    pub fn height(&self) -> (height: u32)
        ensures
            height == self@.height,
    {
        self.height
    }

    pub fn resolution(&self) -> (resolution: Resolution)
        ensures
            resolution.width == self@.width,
            resolution.height == self@.height,
    {
        Resolution { width: self.width, height: self.height }
    }

    /// The bytes to encode: blue, green, red for each pixel, row by row.
    pub fn bgr(&self) -> (bytes: &[u8])
        ensures
            bytes@ == self@.bgr,
    {
        self.bgr.as_slice()
    }
}

/// Prepares the last frame for the image encoder and judges what the encoder
/// made of it.
#[derive(Clone, Copy, Debug)]
pub struct SnapshotWriter;

impl SnapshotWriter {
    /// The image to hand to the encoder for a frame. The frame is left as it
    /// is; the reversal happens in a copy.
    pub fn prepare(frame: &DecodedFrame) -> (snapshot: Snapshot)
        ensures
            snapshot@ == snapshot_of(frame@),
            snapshot@.bgr.len() == 3 * frame@.pixels(),
    {
        let bgr = rgb_to_bgr(frame.data());
        Snapshot { width: frame.width(), height: frame.height(), bgr }
    }

    /// The result of a write, given whether the encoder wrote the file.
    pub fn conclude(written: bool) -> (result: Result<(), EncodeError>)
        ensures
            written ==> result is Ok,
            !written ==> result == Err::<(), EncodeError>(EncodeError::WriteFailed),
    {
        if written {
            Ok(())
        } else {
            Err(EncodeError::WriteFailed)
        }
    }
}

/// In a snapshot every pixel keeps its place and its green channel, and its
/// red and blue channels change places.
pub proof fn snapshot_reverses_each_pixel(frame: FrameView, i: int)
    requires
        frame.wf(),
        0 <= i < frame.pixels(),
    ensures
        snapshot_of(frame).width == frame.width,
        snapshot_of(frame).height == frame.height,
        snapshot_of(frame).bgr.len() == frame.data.len(),
        snapshot_of(frame).bgr[3 * i] == frame.blue(i),
        snapshot_of(frame).bgr[3 * i + 1] == frame.green(i),
        snapshot_of(frame).bgr[3 * i + 2] == frame.red(i),
{
}

/// Reversing the channels twice gives the bytes back.
pub proof fn reversal_undoes_itself(bytes: Seq<u8>)
    ensures
        reversed_triplets(reversed_triplets(bytes)) == bytes,
{
    let len = bytes.len() as int;
    assert forall|i: int| 0 <= i < len implies mirrored(len, mirrored(len, i)) == i && 0
        <= mirrored(len, i) < len by {}
    assert(reversed_triplets(reversed_triplets(bytes)) =~= bytes);
}

} // verus!
