//! One captured screen image.
use vstd::prelude::*;

verus! {

/// Bytes per pixel: four channels of eight bits each.
pub const BYTES_PER_PIXEL: u64 = 4;

/// The number of bytes that a `width` by `height` image holds.
pub open spec fn frame_len(width: nat, height: nat) -> nat {
    width * height * 4
}

/// What a frame is: its dimensions and its row-major pixel bytes.
pub struct FrameView {
    pub width: nat,
    pub height: nat,
    pub bytes: Seq<u8>,
}

/// The bytes of the pixel at column `x` and row `y`.
pub open spec fn pixel_of(f: FrameView, x: nat, y: nat) -> (u8, u8, u8, u8) {
    let i: int = ((y * f.width + x) * 4) as int;
    (f.bytes[i], f.bytes[i + 1], f.bytes[i + 2], f.bytes[i + 3])
}

/// An immutable snapshot of the screen, whose byte buffer always holds
/// exactly four bytes for each pixel.
#[derive(Debug, PartialEq, Eq)]
pub struct Frame {
    width: u32,
    height: u32,
    bytes: Vec<u8>,
}

/// Why a buffer was not accepted as a frame.
#[derive(Debug, PartialEq, Eq, Structural, Clone, Copy)]
pub enum FrameError {
    /// The buffer's length is not `width * height * 4`.
    LengthMismatch,
}

impl View for Frame {
    type V = FrameView;

    closed spec fn view(&self) -> FrameView {
        FrameView { width: self.width as nat, height: self.height as nat, bytes: self.bytes@ }
    }
}

impl Frame {
    #[verifier::type_invariant]
    closed spec fn inv(&self) -> bool {
        self.bytes@.len() == frame_len(self.width as nat, self.height as nat)
    }

    /// Accepts `bytes` as a `width` by `height` frame when its length is
    /// exactly four bytes per pixel, and rejects it otherwise.
    pub fn new(width: u32, height: u32, bytes: Vec<u8>) -> (r: Result<Frame, FrameError>)
        ensures
            bytes@.len() == frame_len(width as nat, height as nat) <==> r is Ok,
            r is Ok ==> r->Ok_0@ == (FrameView { width: width as nat, height: height as nat, bytes: bytes@ }),
            r is Err ==> r->Err_0 == FrameError::LengthMismatch,
    {
        let n: usize = bytes.len();
        let w = width as u64;
        let h = height as u64;
        assert(w * h <= 0xffff_ffffu64 * 0xffff_ffffu64) by (nonlinear_arith)
            requires w <= 0xffff_ffffu64, h <= 0xffff_ffffu64;
        let pixels: u64 = w * h;
        if pixels > u64::MAX / BYTES_PER_PIXEL {
            assert(frame_len(width as nat, height as nat) > n) by (nonlinear_arith)
                requires pixels == w * h, pixels > u64::MAX / 4, w == width, h == height, n <= u64::MAX;
            return Err(FrameError::LengthMismatch);
        }
        let expected: u64 = pixels * BYTES_PER_PIXEL;
        if n as u64 == expected {
            Ok(Frame { width, height, bytes })
        } else {
            Err(FrameError::LengthMismatch)
        }
    }

    /// A frame of one colour everywhere.
    pub fn filled(width: u32, height: u32, rgba: (u8, u8, u8, u8)) -> (r: Option<Frame>)
        ensures
            r is Some <==> frame_len(width as nat, height as nat) <= usize::MAX,
            r is Some ==> r->0@.bytes.len() == frame_len(width as nat, height as nat),
            r is Some ==> r->0@.width == width && r->0@.height == height && (forall|x: nat, y: nat|
                x < width && y < height ==> #[trigger] pixel_of(r->0@, x, y) == rgba),
    {
        let w = width as u64;
        let h = height as u64;
        assert(w * h <= 0xffff_ffffu64 * 0xffff_ffffu64) by (nonlinear_arith)
            requires w <= 0xffff_ffffu64, h <= 0xffff_ffffu64;
        let pixels: u64 = w * h;
        if pixels > (usize::MAX as u64) / BYTES_PER_PIXEL {
            assert(frame_len(width as nat, height as nat) > usize::MAX) by (nonlinear_arith)
                requires pixels == w * h, pixels > usize::MAX / 4, w == width, h == height;
            return None;
        }
        let n: usize = pixels as usize;
        let mut bytes: Vec<u8> = Vec::new();
        let mut i: usize = 0;
        while i < n
            invariant
                n == w * h,
                n * 4 <= usize::MAX,
                i <= n,
                bytes@.len() == i * 4,
                forall|k: int| 0 <= k < i * 4 ==> #[trigger] bytes@[k] == (
                    if k % 4 == 0 { rgba.0 } else if k % 4 == 1 { rgba.1 } else if k % 4 == 2 { rgba.2 } else { rgba.3 }
                ),
            decreases n - i,
        {
            bytes.push(rgba.0);
            bytes.push(rgba.1);
            bytes.push(rgba.2);
            bytes.push(rgba.3);
            i = i + 1;
        }
        let f = Frame { width, height, bytes };
        assert forall|x: nat, y: nat| x < width && y < height implies #[trigger] pixel_of(f@, x, y) == rgba by {
            let p: int = (y * width + x) as int;
            assert(p < n) by (nonlinear_arith)
                requires x < width, y < height, n == width * height, p == y * width + x;
            assert((p * 4) % 4 == 0 && (p * 4 + 1) % 4 == 1 && (p * 4 + 2) % 4 == 2 && (p * 4 + 3) % 4 == 3) by (nonlinear_arith);
        }
        Some(f)
    }

    pub fn width(&self) -> (r: u32)
        ensures
            r == self@.width,
    {
        self.width
    }

    pub fn height(&self) -> (r: u32)
        ensures
            r == self@.height,
    {
        self.height
    }

    /// The pixel bytes, row by row.
    pub fn bytes(&self) -> (r: &[u8])
        ensures
            r@ == self@.bytes,
            r@.len() == frame_len(self@.width, self@.height),
    {
        proof { use_type_invariant(self); }
        self.bytes.as_slice()
    }

    /// The bytes of the pixel at column `x` and row `y`.
    pub fn pixel(&self, x: u32, y: u32) -> (r: Option<(u8, u8, u8, u8)>)
        ensures
            r is Some <==> x < self@.width && y < self@.height,
            r is Some ==> r->0 == pixel_of(self@, x as nat, y as nat),
    {
        proof { use_type_invariant(self); }
        if x >= self.width || y >= self.height {
            return None;
        }
        let len: usize = self.bytes.len();
        let wd = self.width as usize;
        let row = y as usize;
        let col = x as usize;
        proof {
            assert(row * wd + col < wd * self.height && (row * wd + col) * 4 + 3 < len && row * wd <= row * wd + col)
                by (nonlinear_arith)
                requires col < wd, row < self.height, len == wd * self.height * 4;
        }
        let i: usize = (row * wd + col) * 4;
        Some((self.bytes[i], self.bytes[i + 1], self.bytes[i + 2], self.bytes[i + 3]))
    }
}

} // verus!
