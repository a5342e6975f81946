use vstd::prelude::*;

verus! {

/// A raw RGBA image: `width * height` pixels, four bytes each, row by row.
pub struct Frame {
    pub width: u32,
    pub height: u32,
    pub rgba: Vec<u8>,
}

/// Why a pixel buffer could not become a `Frame`.
#[derive(Debug, PartialEq, Eq, Structural)]
pub enum FrameError {
    /// The buffer does not hold exactly four bytes per pixel.
    LengthMismatch,
}

impl Frame {
    /// The buffer holds four bytes for each of the `width * height` pixels.
    pub open spec fn wf(&self) -> bool {
        self.rgba@.len() == 4 * self.pixel_count()
    }

    pub open spec fn pixel_count(&self) -> int {
        self.width as int * self.height as int
    }

    /// Channel `c` (0 red, 1 green, 2 blue, 3 alpha) of the pixel at linear index `i`.
    pub open spec fn channel(&self, i: int, c: int) -> u8 {
        self.rgba@[4 * i + c]
    }

    /// Channel `c` of the pixel in column `x`, row `y`.
    pub open spec fn channel_at(&self, x: int, y: int, c: int) -> u8 {
        self.channel(y * self.width + x, c)
    }

    /// Wraps a buffer; fails unless it holds exactly four bytes per pixel.
    pub fn new(width: u32, height: u32, rgba: Vec<u8>) -> (r: Result<Frame, FrameError>)
        ensures
            rgba@.len() == 4 * ((width as int) * (height as int)) <==> r is Ok,
            r matches Ok(f) ==> f.width == width && f.height == height && f.rgba@ == rgba@,
            r is Ok ==> r->Ok_0.wf(),
            r is Err ==> r == Err::<Frame, FrameError>(FrameError::LengthMismatch),
    {
        assert((width as int) * (height as int) <= 0xffff_ffff * 0xffff_ffff) by (nonlinear_arith)
            requires
                width <= 0xffff_ffff,
                height <= 0xffff_ffff,
        ;
        let pixels: u64 = width as u64 * height as u64;
        let len: usize = rgba.len();
        if len % 4 == 0 && (len / 4) as u64 == pixels {
            Ok(Frame { width, height, rgba })
        } else {
            Err(FrameError::LengthMismatch)
        }
    }
}

} // verus!
