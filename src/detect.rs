use vstd::prelude::*;

use crate::frame::Frame;

verus! {

/// Side of the square pixel block that becomes one fingerprint pixel.
pub const SCALE: u32 = 4;

/// Two fingerprint pixels differ when their luma values are further apart than this.
pub const SENSITIVITY: u8 = 5;

/// A ratio is compared against a threshold given in parts per million.
pub const PPM: u128 = 1_000_000;

/// Integer luma of an RGB colour: `(299 r + 587 g + 114 b) / 1000`.
pub open spec fn luma(r: u8, g: u8, b: u8) -> int {
    (r as int * 299 + g as int * 587 + b as int * 114) / 1000
}

pub open spec fn pixel_luma(f: Frame, x: int, y: int) -> int {
    luma(f.channel_at(x, y, 0), f.channel_at(x, y, 1), f.channel_at(x, y, 2))
}

/// Sum of the luma of the first `k` cells of block `(bx, by)`, cell `j` lying in
/// column `4 bx + j % 4` and row `4 by + j / 4`.
pub open spec fn block_sum(f: Frame, bx: int, by: int, k: nat) -> int
    decreases k,
{
    if k == 0 {
        0
    } else {
        let j = k - 1;
        block_sum(f, bx, by, (k - 1) as nat) + pixel_luma(
            f,
            SCALE * bx + j % SCALE as int,
            SCALE * by + j / SCALE as int,
        )
    }
}

/// Mean luma of the block `(bx, by)`, rounded down.
pub open spec fn block_luma(f: Frame, bx: int, by: int) -> int {
    block_sum(f, bx, by, (SCALE * SCALE) as nat) / (SCALE * SCALE) as int
}

/// A coarse single-channel image: one luma byte per pixel, row by row.
pub struct Fingerprint {
    pub width: u32,
    pub height: u32,
    pub luma: Vec<u8>,
}

impl Fingerprint {
    pub open spec fn wf(&self) -> bool {
        self.luma@.len() == self.width as int * self.height as int
    }

    /// `self` is the block-averaged fingerprint of `f`: a `width / 4` by
    /// `height / 4` image whose pixels are the mean lumas of the 4 by 4 blocks;
    /// pixels of `f` right or below the last full block are left out.
    pub open spec fn is_fingerprint_of(&self, f: Frame) -> bool {
        &&& self.wf()
        &&& self.width == f.width / SCALE
        &&& self.height == f.height / SCALE
        &&& forall|x: int, y: int|
            0 <= x < self.width && 0 <= y < self.height ==> self.luma@[y * self.width + x] as int
                == #[trigger] block_luma(f, x, y)
    }
}

/// Whether two luma values are further apart than `SENSITIVITY`.
pub open spec fn differs(a: u8, b: u8) -> bool {
    a as int - b as int > SENSITIVITY as int || b as int - a as int > SENSITIVITY as int
}

/// How many of the first `k` positions hold values that differ.
pub open spec fn different_count(a: Seq<u8>, b: Seq<u8>, k: nat) -> nat
    decreases k,
{
    if k == 0 {
        0
    } else {
        different_count(a, b, (k - 1) as nat) + if differs(a[k - 1], b[k - 1]) {
            1nat
        } else {
            0nat
        }
    }
}

/// The fraction `different / total` of fingerprint pixels that changed.
#[derive(Clone, Copy, Debug, PartialEq, Eq, Structural)]
pub struct DiffRatio {
    pub different: u64,
    pub total: u64,
}

/// The difference ratio of two fingerprints: one (`1 / 1`) when their sizes
/// differ, else the changed pixels over all pixels.
pub open spec fn difference_spec(a: Fingerprint, b: Fingerprint) -> DiffRatio {
    if a.width != b.width || a.height != b.height {
        DiffRatio { different: 1, total: 1 }
    } else {
        DiffRatio {
            different: different_count(a.luma@, b.luma@, a.luma@.len()) as u64,
            total: a.luma@.len() as u64,
        }
    }
}

/// `r` lies strictly below `ppm` parts per million; an empty ratio (`0 / 0`) lies
/// below nothing.
pub open spec fn below_spec(r: DiffRatio, ppm: u64) -> bool {
    r.different as int * PPM < ppm as int * r.total as int
}

proof fn lemma_index_in(x: int, y: int, w: int, h: int)
    requires
        0 <= x < w,
        0 <= y < h,
    ensures
        0 <= y * w + x < w * h,
{
    assert(0 <= y * w + x < w * h) by (nonlinear_arith)
        requires
            0 <= x < w,
            0 <= y < h,
    ;
}

proof fn lemma_row_major_before(xx: int, yy: int, bx: int, by: int, w: int)
    requires
        0 <= xx < w,
        0 <= bx,
        0 <= yy,
        yy < by || (yy == by && xx < bx),
    ensures
        yy * w + xx < by * w + bx,
{
    if yy < by {
        assert(yy * w + xx < by * w + bx) by (nonlinear_arith)
            requires
                0 <= xx < w,
                0 <= bx,
                0 <= yy < by,
        ;
    }
}

/// Two fingerprints of one frame hold the same pixels.
pub proof fn lemma_fingerprint_unique(a: Fingerprint, b: Fingerprint, f: Frame)
    requires
        a.is_fingerprint_of(f),
        b.is_fingerprint_of(f),
    ensures
        a.luma@ == b.luma@,
        forall|c: Fingerprint| #[trigger] difference_spec(c, a) == difference_spec(c, b),
{
    let w = a.width as int;
    let h = a.height as int;
    assert forall|i: int| 0 <= i < a.luma@.len() implies a.luma@[i] == b.luma@[i] by {
        let x = i % w;
        let y = i / w;
        vstd::arithmetic::div_mod::lemma_fundamental_div_mod(i, w);
        assert(y < h) by (nonlinear_arith)
            requires
                i == w * y + x,
                0 <= x,
                0 <= i < w * h,
                w > 0,
        ;
        assert(0 <= x < w);
        assert(0 <= y);
        assert(i == y * w + x) by (nonlinear_arith)
            requires
                i == w * y + x,
        ;
        assert(a.luma@[y * w + x] as int == block_luma(f, x, y));
        assert(b.luma@[y * w + x] as int == block_luma(f, x, y));
    }
    assert(a.luma@ =~= b.luma@);
}

/// Luma of the pixel in column `x`, row `y`.
fn luma_at(f: &Frame, x: u32, y: u32) -> (r: u32)
    requires
        f.wf(),
        x < f.width,
        y < f.height,
    ensures
        r == pixel_luma(*f, x as int, y as int),
        r <= 255,
{
    proof {
        lemma_index_in(x as int, y as int, f.width as int, f.height as int);
    }
    let len: usize = f.rgba.len();
    assert(((y as int) * (f.width as int) + x) * 4 < len);
    let i: usize = (y as usize * f.width as usize + x as usize) * 4;
    let r: u32 = f.rgba[i] as u32;
    let g: u32 = f.rgba[i + 1] as u32;
    let b: u32 = f.rgba[i + 2] as u32;
    (r * 299 + g * 587 + b * 114) / 1000
}

/// Reduces a frame to its fingerprint by averaging the luma of each 4 by 4 block.
pub fn fast_downsample(img: &Frame) -> (r: Fingerprint)
    requires
        img.wf(),
    ensures
        r.is_fingerprint_of(*img),
{
    let new_width: u32 = img.width / SCALE;
    let new_height: u32 = img.height / SCALE;
    let ghost nw = new_width as int;
    proof {
        assert(nw * (new_height as int) <= img.pixel_count()) by (nonlinear_arith)
            requires
                nw * SCALE <= img.width,
                new_height * SCALE <= img.height,
                0 <= nw,
                0 <= new_height,
        ;
    }
    let mut out: Vec<u8> = Vec::new();
    let mut by: u32 = 0;
    while by < new_height
        invariant
            img.wf(),
            new_width == img.width / SCALE,
            new_height == img.height / SCALE,
            nw == new_width,
            by <= new_height,
            out@.len() == by * nw,
            forall|xx: int, yy: int|
                0 <= xx < nw && 0 <= yy < by ==> out@[yy * nw + xx] as int == #[trigger] block_luma(
                    *img,
                    xx,
                    yy,
                ),
        decreases new_height - by,
    {
        let mut bx: u32 = 0;
        while bx < new_width
            invariant
                img.wf(),
                new_width == img.width / SCALE,
                new_height == img.height / SCALE,
                nw == new_width,
                by < new_height,
                bx <= new_width,
                out@.len() == by * nw + bx,
                forall|xx: int, yy: int|
                    0 <= xx < nw && 0 <= yy && (yy < by || (yy == by && xx < bx)) ==> out@[yy * nw
                        + xx] as int == #[trigger] block_luma(*img, xx, yy),
            decreases new_width - bx,
        {
            let mut sum: u32 = 0;
            let mut k: u32 = 0;
            while k < SCALE * SCALE
                invariant
                    img.wf(),
                    new_width == img.width / SCALE,
                    new_height == img.height / SCALE,
                    by < new_height,
                    bx < new_width,
                    k <= SCALE * SCALE,
                    sum == block_sum(*img, bx as int, by as int, k as nat),
                    sum <= 255 * k,
                decreases SCALE * SCALE - k,
            {
                let v = luma_at(img, bx * SCALE + k % SCALE, by * SCALE + k / SCALE);
                sum = sum + v;
                k = k + 1;
            }
            let ghost before = out@;
            out.push((sum / (SCALE * SCALE)) as u8);
            proof {
                assert forall|xx: int, yy: int|
                    0 <= xx < nw && 0 <= yy && (yy < by || (yy == by && xx < bx + 1)) implies out@[yy
                    * nw + xx] as int == #[trigger] block_luma(*img, xx, yy) by {
                    if yy == by && xx == bx {
                    } else {
                        lemma_row_major_before(xx, yy, bx as int, by as int, nw);
                        assert(out@[yy * nw + xx] == before[yy * nw + xx]);
                    }
                }
            }
            bx = bx + 1;
        }
        assert(out@.len() == (by + 1) * nw) by (nonlinear_arith)
            requires
                out@.len() == by * nw + nw,
        ;
        by = by + 1;
    }
    assert(out@.len() == nw * new_height) by (nonlinear_arith)
        requires
            out@.len() == new_height * nw,
    ;
    Fingerprint { width: new_width, height: new_height, luma: out }
}

/// Share of fingerprint pixels whose luma changed by more than `SENSITIVITY`;
/// fingerprints of different sizes differ entirely.
pub fn get_difference_ratio2(img1: &Fingerprint, img2: &Fingerprint) -> (r: DiffRatio)
    requires
        img1.wf(),
        img2.wf(),
    ensures
        r == difference_spec(*img1, *img2),
{
    if img1.width != img2.width || img1.height != img2.height {
        return DiffRatio { different: 1, total: 1 };
    }
    let n: usize = img1.luma.len();
    let mut count: u64 = 0;
    let mut i: usize = 0;
    while i < n
        invariant
            n == img1.luma@.len(),
            n == img2.luma@.len(),
            i <= n,
            count == different_count(img1.luma@, img2.luma@, i as nat),
            count <= i,
        decreases n - i,
    {
        let a: u8 = img1.luma[i];
        let b: u8 = img2.luma[i];
        let diff: u8 = if a > b {
            a - b
        } else {
            b - a
        };
        if diff > SENSITIVITY {
            count = count + 1;
        }
        i = i + 1;
    }
    DiffRatio { different: count, total: n as u64 }
}

/// Whether `r` is strictly below `ppm` parts per million.
pub fn ratio_below(r: DiffRatio, ppm: u64) -> (b: bool)
    ensures
        b == below_spec(r, ppm),
{
    assert((ppm as int) * (r.total as int) <= 0xffff_ffff_ffff_ffff * 0xffff_ffff_ffff_ffff)
        by (nonlinear_arith)
        requires
            ppm <= 0xffff_ffff_ffff_ffff,
            r.total <= 0xffff_ffff_ffff_ffff,
    ;
    (r.different as u128) * PPM < (ppm as u128) * (r.total as u128)
}

} // verus!
