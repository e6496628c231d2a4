//! The display buffer: one packed word per pixel of the display surface.

use vstd::prelude::*;
use crate::frame::Resolution;
use crate::pixel::{pack_rgb, pack_word};

verus! {

/// The display words of a run of RGB bytes: word `i` packs bytes `3i`,
/// `3i + 1` and `3i + 2`. Bytes beyond the last whole pixel are left out.
pub open spec fn packed_pixels(rgb: Seq<u8>) -> Seq<u32> {
    Seq::new((rgb.len() / 3) as nat, |i: int| pack_word(rgb[3 * i], rgb[3 * i + 1], rgb[3 * i + 2]))
}

/// What a display buffer is: the surface's size and one word per pixel.
pub struct DisplayView {
    pub width: u32,
    pub height: u32,
    pub words: Seq<u32>,
}

impl DisplayView {
    /// There is exactly one word for each pixel of the surface.
    pub open spec fn wf(self) -> bool {
        self.words.len() == self.width as int * self.height as int
    }

    pub open spec fn resolution(self) -> Resolution {
        Resolution { width: self.width, height: self.height }
    }
}

/// The words of a surface that shows nothing yet: a zero for each pixel.
pub open spec fn blank_words(resolution: Resolution) -> Seq<u32> {
    Seq::new(resolution.pixels() as nat, |i: int| 0u32)
}

/// Whether a buffer for a surface of this resolution can be allocated: its
/// words, four bytes each, must not take more bytes than an allocation may.
pub open spec fn allocatable(resolution: Resolution) -> bool {
    4 * resolution.pixels() <= isize::MAX
}

/// Why a display buffer was not filled.
#[derive(Clone, Copy, Debug, PartialEq, Eq, Structural)]
pub enum FillError {
    /// The bytes are not three for each word of the buffer.
    WrongLength,
}

/// The words handed to the display surface, row by row. Its length is set
/// when it is made and never changes.
#[derive(Debug)]
pub struct DisplayBuffer {
    width: u32,
    height: u32,
    words: Vec<u32>,
}

impl View for DisplayBuffer {
    type V = DisplayView;

    closed spec fn view(&self) -> DisplayView {
        DisplayView { width: self.width, height: self.height, words: self.words@ }
    }
}

impl DisplayBuffer {
    #[verifier::type_invariant]
    pub(crate) open spec fn inv(&self) -> bool {
        self@.wf()
    }

    /// A buffer of zero words for a surface of the given resolution; none
    /// where that many words cannot be allocated on this machine.
    pub fn new(resolution: Resolution) -> (buffer: Option<DisplayBuffer>)
        ensures
            buffer is Some <==> allocatable(resolution),
            buffer matches Some(b) ==> b@.resolution() == resolution && b@.wf() && b@.words
                == blank_words(resolution),
    {
        let count: u64 = resolution.pixel_count();
        if count > isize::MAX as u64 / 4 {
            return None;
        }
        let words: Vec<u32> = vec![0u32; count as usize];
        assert(words@ =~= blank_words(resolution));
        Some(DisplayBuffer { width: resolution.width, height: resolution.height, words })
    }

    pub fn resolution(&self) -> (resolution: Resolution)
        ensures
            resolution == self@.resolution(),
    {
        Resolution { width: self.width, height: self.height }
    }

    /// The number of words, which is the number of pixels of the surface.
    pub fn len(&self) -> (len: usize)
        ensures
            len == self@.words.len(),
            len == self@.resolution().pixels(),
    {
        proof {
            use_type_invariant(self);
        }
        self.words.len()
    }

    /// The words, for the display surface to present.
    pub fn words(&self) -> (words: &[u32])
        ensures
            words@ == self@.words,
            self@.wf(),
    {
        proof {
            use_type_invariant(self);
        }
        self.words.as_slice()
    }

    /// Overwrites every word with the packed pixels of `rgb`, in place. The
    /// bytes are refused, and nothing is written, unless there are exactly
    /// three for each word.
    pub fn fill_from_rgb(&mut self, rgb: &[u8]) -> (result: Result<(), FillError>)
        ensures
            final(self)@.wf(),
            final(self)@.resolution() == old(self)@.resolution(),
            result is Ok <==> rgb@.len() == 3 * old(self)@.words.len(),
            result is Ok ==> final(self)@.words == packed_pixels(rgb@),
            result is Err ==> final(self)@ == old(self)@,
    {
        proof {
            use_type_invariant(&*self);
        }
        let count = self.words.len();
        let len = rgb.len();
        if len % 3 != 0 || len / 3 != count {
            return Err(FillError::WrongLength);
        }
        let mut i: usize = 0;
        while i < count
            invariant
                i <= count,
                count == self.words@.len(),
                len == rgb@.len(),
                len == 3 * count,
                self.width == old(self).width,
                self.height == old(self).height,
                self.words@.len() == self.width as int * self.height as int,
                forall|j: int|
                    0 <= j < i ==> self.words@[j] == pack_word(
                        rgb@[3 * j],
                        rgb@[3 * j + 1],
                        rgb@[3 * j + 2],
                    ),
            decreases count - i,
        {
            let word = pack_rgb(rgb[3 * i], rgb[3 * i + 1], rgb[3 * i + 2]);
            self.words[i] = word;
            i += 1;
        }
        assert(self.words@ =~= packed_pixels(rgb@));
        Ok(())
    }
}

} // verus!
