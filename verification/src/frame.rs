//! Resolutions and decoded frames.

use vstd::prelude::*;

verus! {

/// A width and a height in pixels, fixed when the pipeline starts.
#[derive(Clone, Copy, Debug, PartialEq, Eq, Structural)]
pub struct Resolution {
    pub width: u32,
    pub height: u32,
}

impl Resolution {
    /// The number of pixels of an image of this resolution.
    pub open spec fn pixels(self) -> int {
        self.width as int * self.height as int
    }

    /// The number of bytes of an RGB image of this resolution.
    pub open spec fn rgb_len(self) -> int {
        3 * self.pixels()
    }

    pub fn new(width: u32, height: u32) -> (resolution: Resolution)
        ensures
            resolution.width == width,
            resolution.height == height,
    {
        Resolution { width, height }
    }

    /// The number of pixels, which always fits 64 bits.
    pub fn pixel_count(&self) -> (count: u64)
        ensures
            count == self.pixels(),
    {
        assert(self.width as int * self.height as int <= 0xffff_ffff * 0xffff_ffff)
            by (nonlinear_arith)
            requires
                self.width <= 0xffff_ffff,
                self.height <= 0xffff_ffff,
        ;
        (self.width as u64) * (self.height as u64)
    }

    /// Whether either side is zero.
    pub fn is_empty(&self) -> (empty: bool)
        ensures
            empty == (self.width == 0 || self.height == 0),
    {
        self.width == 0 || self.height == 0
    }
}

/// What a decoded frame is: its size and its bytes, row by row, three per
/// pixel in the order red, green, blue, with no padding.
pub struct FrameView {
    pub width: u32,
    pub height: u32,
    pub data: Seq<u8>,
}

impl FrameView {
    /// The frame holds exactly three bytes for each of its pixels.
    pub open spec fn wf(self) -> bool {
        self.data.len() == 3 * (self.width as int * self.height as int)
    }

    pub open spec fn resolution(self) -> Resolution {
        Resolution { width: self.width, height: self.height }
    }

    /// The number of pixels.
    pub open spec fn pixels(self) -> int {
        self.width as int * self.height as int
    }

    /// The red channel of pixel `i`.
    pub open spec fn red(self, i: int) -> u8 {
        self.data[3 * i]
    }

    /// The green channel of pixel `i`.
    pub open spec fn green(self, i: int) -> u8 {
        self.data[3 * i + 1]
    }

    /// The blue channel of pixel `i`.
    pub open spec fn blue(self, i: int) -> u8 {
        self.data[3 * i + 2]
    }
}

/// A frame of RGB pixels as the capture device's decoder produced it.
#[derive(Debug)]
pub struct DecodedFrame {
    width: u32,
    height: u32,
    data: Vec<u8>,
}

impl View for DecodedFrame {
    type V = FrameView;

    closed spec fn view(&self) -> FrameView {
        FrameView { width: self.width, height: self.height, data: self.data@ }
    }
}

impl DecodedFrame {
    #[verifier::type_invariant]
    pub(crate) open spec fn inv(&self) -> bool {
        self@.wf()
    }

    /// Takes decoded bytes as a frame of the declared size. The bytes are
    /// refused unless there are exactly three for each pixel.
    pub fn from_rgb(width: u32, height: u32, data: Vec<u8>) -> (frame: Option<DecodedFrame>)
        ensures
            frame is Some <==> data@.len() == 3 * (width as int * height as int),
            frame matches Some(f) ==> f@ == (FrameView { width, height, data: data@ }),
    {
        let pixels: u64 = Resolution { width, height }.pixel_count();
        let len: u64 = data.len() as u64;
        if len % 3 != 0 || len / 3 != pixels {
            return None;
        }
        Some(DecodedFrame { width, height, data })
    }

    pub fn width(&self) -> (width: u32)
        ensures
            width == self@.width,
    {
        self.width
    }

    pub fn height(&self) -> (height: u32)
        ensures
            height == self@.height,
    {
        self.height
    }

    pub fn resolution(&self) -> (resolution: Resolution)
        ensures
            resolution == self@.resolution(),
    {
        Resolution { width: self.width, height: self.height }
    }

    /// The frame's bytes.
    pub fn data(&self) -> (data: &[u8])
        ensures
            data@ == self@.data,
            self@.wf(),
    {
        proof {
            use_type_invariant(self);
        }
        self.data.as_slice()
    }

    /// A copy of the frame.
    pub fn duplicate(&self) -> (copy: DecodedFrame)
        ensures
            copy@ == self@,
    {
        proof {
            use_type_invariant(self);
        }
        let data = self.data.clone();
        assert(data@ =~= self.data@);
        DecodedFrame { width: self.width, height: self.height, data }
    }
}

} // verus!
