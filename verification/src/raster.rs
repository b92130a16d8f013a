//! Raster page images and the pure geometric transforms applied to them.
//!
//! A rendered page is a top-left-origin buffer of packed RGBA pixels
//! (one `u32` per pixel, red in the highest byte). Rotation is a pure
//! permutation of that buffer: a quarter turn swaps width and height,
//! a half turn keeps them; no pixel value is invented or lost.

use vstd::prelude::*;
use vstd::arithmetic::div_mod::{lemma_fundamental_div_mod, lemma_fundamental_div_mod_converse,
    lemma_mod_bound};
use vstd::arithmetic::mul::lemma_mul_inequality;

verus! {

/// A fully rendered page: pixel dimensions and one packed RGBA pixel
/// per cell, rows stored top to bottom.
pub struct PageImage {
    /// Width in pixels.
    pub width: u32,
    /// Height in pixels.
    pub height: u32,
    /// Row-major packed RGBA pixels; exactly `width * height` entries.
    pub pixels: Vec<u32>,
}

impl PageImage {
    /// The buffer holds exactly one pixel per cell.
    pub open spec fn wf(self) -> bool {
        self.pixels@.len() == (self.width as nat) * (self.height as nat)
    }

    /// The pixel at column `x` of row `y`.
    pub open spec fn spec_pixel(self, x: int, y: int) -> u32
        recommends
            0 <= x < self.width,
            0 <= y < self.height,
    {
        self.pixels@[y * (self.width as int) + x]
    }
}

/// One packed RGBA pixel, red in the highest byte.
pub open spec fn spec_pack_rgba(r: u8, g: u8, b: u8, a: u8) -> u32 {
    ((r as int) * 0x1000000 + (g as int) * 0x10000 + (b as int) * 0x100 + (a as int)) as u32
}

/// Packs four bytes in RGBA order into one pixel.
pub fn pack_rgba(r: u8, g: u8, b: u8, a: u8) -> (p: u32)
    ensures
        p == spec_pack_rgba(r, g, b, a),
{
    (r as u32) * 0x1000000 + (g as u32) * 0x10000 + (b as u32) * 0x100 + (a as u32)
}

/// The buffer of a clockwise quarter turn of `img`: the result is
/// `img.height` wide and `img.width` tall, and its pixel at `(x, y)`
/// is the source pixel at `(y, img.height - 1 - x)`.
pub open spec fn spec_rotate90_pixels(img: PageImage) -> Seq<u32>
    recommends
        img.wf(),
{
    Seq::new(
        img.pixels@.len(),
        |i: int|
            img.spec_pixel(i / (img.height as int), img.height - 1 - (i % (img.height as int))),
    )
}

/// The buffer of a half turn of `img`: the source buffer reversed.
pub open spec fn spec_rotate180_pixels(img: PageImage) -> Seq<u32> {
    img.pixels@.reverse()
}

/// The buffer of a counter-clockwise quarter turn of `img`: the result
/// is `img.height` wide and `img.width` tall, and its pixel at `(x, y)`
/// is the source pixel at `(img.width - 1 - y, x)`.
pub open spec fn spec_rotate270_pixels(img: PageImage) -> Seq<u32>
    recommends
        img.wf(),
{
    Seq::new(
        img.pixels@.len(),
        |i: int|
            img.spec_pixel(
                img.width - 1 - (i / (img.height as int)),
                i % (img.height as int),
            ),
    )
}

impl PageImage {
    /// Builds a page image from a raw byte buffer in RGBA order, four
    /// bytes per pixel; fails exactly when the byte count does not
    /// match the dimensions.
    pub fn from_rgba_bytes(bytes: &Vec<u8>, width: u32, height: u32) -> (r: Option<PageImage>)
        ensures
            r is Some <==> bytes@.len() == 4 * ((width as nat) * (height as nat)),
            r matches Some(img) ==> {
                &&& img.wf()
                &&& img.width == width
                &&& img.height == height
                &&& forall|i: int|
                    0 <= i < img.pixels@.len() ==> img.pixels@[i] == spec_pack_rgba(
                        bytes@[4 * i],
                        bytes@[4 * i + 1],
                        bytes@[4 * i + 2],
                        bytes@[4 * i + 3],
                    )
            },
    {
        let ghost cells: int = (width as int) * (height as int);
        let n = bytes.len();
        proof {
            assert(0 <= cells <= 0xffff_ffff * 0xffff_ffff) by (nonlinear_arith)
                requires
                    cells == (width as int) * (height as int),
                    0 <= width <= 0xffff_ffff,
                    0 <= height <= 0xffff_ffff,
            ;
            lemma_fundamental_div_mod(n as int, 4);
        }
        let wh: u64 = (width as u64) * (height as u64);
        if n % 4 != 0 || (n / 4) as u64 != wh {
            proof {
                assert(n as int != 4 * cells);
            }
            return None;
        }
        let count = n / 4;
        let mut pixels: Vec<u32> = Vec::new();
        let mut i: usize = 0;
        while i < count
            invariant
                0 <= i <= count,
                count == cells,
                cells == (width as int) * (height as int),
                n == bytes@.len(),
                n == 4 * count,
                pixels@.len() == i,
                forall|j: int|
                    0 <= j < i ==> pixels@[j] == spec_pack_rgba(
                        bytes@[4 * j],
                        bytes@[4 * j + 1],
                        bytes@[4 * j + 2],
                        bytes@[4 * j + 3],
                    ),
            decreases count - i,
        {
            let base = 4 * i;
            let p = pack_rgba(bytes[base], bytes[base + 1], bytes[base + 2], bytes[base + 3]);
            pixels.push(p);
            i = i + 1;
        }
        Some(PageImage { width, height, pixels })
    }

    /// Rotates the image a quarter turn clockwise; width and height
    /// swap, and the buffer is permuted accordingly.
    pub fn rotate90(&self) -> (r: PageImage)
        requires
            self.wf(),
        ensures
            r.wf(),
            r.width == self.height,
            r.height == self.width,
            r.pixels@ == spec_rotate90_pixels(*self),
    {
        let w = self.width as usize;
        let h = self.height as usize;
        let n = self.pixels.len();
        proof {
            assert((self.height as int) * (self.width as int) == (self.width as int) * (
            self.height as int)) by (nonlinear_arith);
        }
        let mut pixels: Vec<u32> = Vec::new();
        let mut y2: usize = 0;
        while y2 < w
            invariant
                self.wf(),
                w == self.width,
                h == self.height,
                n == self.pixels@.len(),
                n == w * h,
                0 <= y2 <= w,
                pixels@.len() == y2 * h,
                forall|k: int|
                    0 <= k < pixels@.len() ==> pixels@[k] == spec_rotate90_pixels(*self)[k],
            decreases w - y2,
        {
            let mut x2: usize = 0;
            while x2 < h
                invariant
                    self.wf(),
                    w == self.width,
                    h == self.height,
                    n == self.pixels@.len(),
                    n == w * h,
                    0 <= y2 < w,
                    0 <= x2 <= h,
                    pixels@.len() == y2 * h + x2,
                    forall|k: int|
                        0 <= k < pixels@.len() ==> pixels@[k] == spec_rotate90_pixels(*self)[k],
                decreases h - x2,
            {
                proof {
                    assert(y2 * h + x2 < w * h && (h - 1 - x2) * w + y2 < w * h) by (
                    nonlinear_arith)
                        requires
                            0 <= x2 < h,
                            0 <= y2 < w,
                    ;
                    lemma_fundamental_div_mod_converse(
                        (y2 * h + x2) as int,
                        h as int,
                        y2 as int,
                        x2 as int,
                    );
                }
                let src = (h - 1 - x2) * w + y2;
                let p = self.pixels[src];
                pixels.push(p);
                proof {
                    let k = (y2 * h + x2) as int;
                    assert(k / (h as int) == y2 && k % (h as int) == x2);
                    assert((h - 1 - x2) * (w as int) + y2 == (h - 1 - x2) * (self.width as int)
                        + y2);
                    assert(pixels@[k] == spec_rotate90_pixels(*self)[k]);
                }
                x2 = x2 + 1;
            }
            y2 = y2 + 1;
            proof {
                assert((y2 - 1) * h + h == y2 * h) by (nonlinear_arith);
            }
        }
        proof {
            assert(pixels@.len() == (self.width as int) * (self.height as int));
            assert(pixels@ =~= spec_rotate90_pixels(*self));
        }
        PageImage { width: self.height, height: self.width, pixels }
    }

    /// Rotates the image a half turn; dimensions are unchanged and the
    /// buffer is reversed.
    pub fn rotate180(&self) -> (r: PageImage)
        requires
            self.wf(),
        ensures
            r.wf(),
            r.width == self.width,
            r.height == self.height,
            r.pixels@ == spec_rotate180_pixels(*self),
    {
        let n = self.pixels.len();
        let mut pixels: Vec<u32> = Vec::new();
        let mut i: usize = 0;
        while i < n
            invariant
                n == self.pixels@.len(),
                0 <= i <= n,
                pixels@.len() == i,
                forall|k: int| 0 <= k < i ==> pixels@[k] == self.pixels@[n - 1 - k],
            decreases n - i,
        {
            let p = self.pixels[n - 1 - i];
            pixels.push(p);
            i = i + 1;
        }
        proof {
            assert(pixels@ =~= spec_rotate180_pixels(*self));
        }
        PageImage { width: self.width, height: self.height, pixels }
    }

    /// Rotates the image a quarter turn counter-clockwise; width and
    /// height swap, and the buffer is permuted accordingly.
    pub fn rotate270(&self) -> (r: PageImage)
        requires
            self.wf(),
        ensures
            r.wf(),
            r.width == self.height,
            r.height == self.width,
            r.pixels@ == spec_rotate270_pixels(*self),
    {
        let w = self.width as usize;
        let h = self.height as usize;
        let n = self.pixels.len();
        proof {
            assert((self.height as int) * (self.width as int) == (self.width as int) * (
            self.height as int)) by (nonlinear_arith);
        }
        let mut pixels: Vec<u32> = Vec::new();
        let mut y2: usize = 0;
        while y2 < w
            invariant
                self.wf(),
                w == self.width,
                h == self.height,
                n == self.pixels@.len(),
                n == w * h,
                0 <= y2 <= w,
                pixels@.len() == y2 * h,
                forall|k: int|
                    0 <= k < pixels@.len() ==> pixels@[k] == spec_rotate270_pixels(*self)[k],
            decreases w - y2,
        {
            let mut x2: usize = 0;
            while x2 < h
                invariant
                    self.wf(),
                    w == self.width,
                    h == self.height,
                    n == self.pixels@.len(),
                    n == w * h,
                    0 <= y2 < w,
                    0 <= x2 <= h,
                    pixels@.len() == y2 * h + x2,
                    forall|k: int|
                        0 <= k < pixels@.len() ==> pixels@[k] == spec_rotate270_pixels(*self)[k],
                decreases h - x2,
            {
                proof {
                    assert(y2 * h + x2 < w * h && x2 * w + (w - 1 - y2) < w * h) by (
                    nonlinear_arith)
                        requires
                            0 <= x2 < h,
                            0 <= y2 < w,
                    ;
                    lemma_fundamental_div_mod_converse(
                        (y2 * h + x2) as int,
                        h as int,
                        y2 as int,
                        x2 as int,
                    );
                }
                let src = x2 * w + (w - 1 - y2);
                let p = self.pixels[src];
                pixels.push(p);
                proof {
                    let k = (y2 * h + x2) as int;
                    assert(k / (h as int) == y2 && k % (h as int) == x2);
                    assert(pixels@[k] == spec_rotate270_pixels(*self)[k]);
                }
                x2 = x2 + 1;
            }
            y2 = y2 + 1;
            proof {
                assert((y2 - 1) * h + h == y2 * h) by (nonlinear_arith);
            }
        }
        proof {
            assert(pixels@.len() == (self.width as int) * (self.height as int));
            assert(pixels@ =~= spec_rotate270_pixels(*self));
        }
        PageImage { width: self.height, height: self.width, pixels }
    }
}

/// The byte at position `k` after the BGRA-to-RGBA swizzle of `b`:
/// within every four-byte pixel the first and third bytes swap.
pub open spec fn spec_bgra_swizzled(b: Seq<u8>, k: int) -> u8
    recommends
        0 <= k < b.len(),
{
    if k % 4 == 0 {
        b[k + 2]
    } else if k % 4 == 2 {
        b[k - 2]
    } else {
        b[k]
    }
}

/// Converts a raw byte buffer from BGRA order to RGBA order: within
/// every four-byte pixel the first and third bytes swap.
pub fn bgra_to_rgba(bytes: &Vec<u8>) -> (r: Vec<u8>)
    requires
        bytes@.len() % 4 == 0,
    ensures
        r@.len() == bytes@.len(),
        forall|k: int| 0 <= k < r@.len() ==> #[trigger] r@[k] == spec_bgra_swizzled(bytes@, k),
{
    let n = bytes.len();
    proof {
        lemma_fundamental_div_mod(n as int, 4);
    }
    let count = n / 4;
    let mut out: Vec<u8> = Vec::new();
    let mut i: usize = 0;
    while i < count
        invariant
            n == bytes@.len(),
            n == 4 * count,
            0 <= i <= count,
            out@.len() == 4 * i,
            forall|k: int| 0 <= k < out@.len() ==> #[trigger] out@[k] == spec_bgra_swizzled(bytes@, k),
        decreases count - i,
    {
        let base = 4 * i;
        out.push(bytes[base + 2]);
        out.push(bytes[base + 1]);
        out.push(bytes[base]);
        out.push(bytes[base + 3]);
        i = i + 1;
    }
    out
}

/// Two well-formed images of equal dimensions whose pixels agree at
/// every coordinate hold equal buffers.
pub proof fn lemma_pixels_determine_buffer(a: PageImage, b: PageImage)
    requires
        a.wf(),
        b.wf(),
        a.width == b.width,
        a.height == b.height,
        forall|x: int, y: int|
            0 <= x < a.width && 0 <= y < a.height ==> a.spec_pixel(x, y) == b.spec_pixel(x, y),
    ensures
        a.pixels@ == b.pixels@,
{
    let w = a.width as int;
    let h = a.height as int;
    assert(a.pixels@.len() == w * h && b.pixels@.len() == w * h);
    assert forall|i: int| 0 <= i < a.pixels@.len() implies a.pixels@[i] == b.pixels@[i] by {
        assert(w > 0 && h > 0) by (nonlinear_arith)
            requires
                w >= 0,
                h >= 0,
                w * h > 0,
        ;
        lemma_fundamental_div_mod(i, w);
        lemma_mod_bound(i, w);
        let x = i % w;
        let y = i / w;
        assert(0 <= y < h && y * w + x == i) by (nonlinear_arith)
            requires
                w > 0,
                0 <= x < w,
                i == w * y + x,
                0 <= i < w * h,
        ;
        assert(a.spec_pixel(x, y) == b.spec_pixel(x, y));
    }
    assert(a.pixels@ =~= b.pixels@);
}

} // verus!
