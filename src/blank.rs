use vstd::prelude::*;

use crate::frame::Frame;

verus! {

/// Only every `SAMPLE_STRIDE`-th pixel is looked at by the blank filter.
pub const SAMPLE_STRIDE: usize = 25;

/// A pixel is not blank when one of its colour channels reaches the threshold.
pub open spec fn pixel_lit(f: Frame, i: int, black: u8) -> bool {
    f.channel(i, 0) >= black || f.channel(i, 1) >= black || f.channel(i, 2) >= black
}

/// How many pixels are sampled from a frame of `n` pixels.
pub open spec fn sample_count(n: int) -> int {
    if n <= 0 { 0 } else { (n + SAMPLE_STRIDE - 1) / SAMPLE_STRIDE as int }
}

/// Number of lit pixels among the first `k` samples (sample `j` is pixel `j * SAMPLE_STRIDE`).
pub open spec fn non_blank_sample_count(f: Frame, black: u8, k: nat) -> nat
    decreases k,
{
    if k == 0 {
        0
    } else {
        non_blank_sample_count(f, black, (k - 1) as nat) + if pixel_lit(
            f,
            (k - 1) * SAMPLE_STRIDE,
            black,
        ) {
            1nat
        } else {
            0nat
        }
    }
}

/// The colour threshold is compared at byte width, as in `threshold as u8`.
pub open spec fn black_byte(threshold: u64) -> u8 {
    (threshold % 256) as u8
}

/// The verdict of the blank filter: blank unless at least one pixel is sampled and
/// the sampled lit pixels reach `non_blank_threshold`.
pub open spec fn blank_spec(f: Frame, almost_black_threshold: u64, non_blank_threshold: u64) -> bool {
    let n = sample_count(f.pixel_count());
    !(n > 0 && non_blank_sample_count(f, black_byte(almost_black_threshold), n as nat)
        >= non_blank_threshold)
}

proof fn lemma_count_monotone(f: Frame, black: u8, a: nat, b: nat)
    requires
        a <= b,
    ensures
        non_blank_sample_count(f, black, a) <= non_blank_sample_count(f, black, b),
    decreases b - a,
{
    if a < b {
        lemma_count_monotone(f, black, a, (b - 1) as nat);
    }
}

proof fn lemma_count_same(f: Frame, g: Frame, black: u8, k: nat)
    requires
        forall|j: int|
            0 <= j < k ==> (pixel_lit(f, j * SAMPLE_STRIDE, black) <==> #[trigger] pixel_lit(
                g,
                j * SAMPLE_STRIDE,
                black,
            )),
    ensures
        non_blank_sample_count(f, black, k) == non_blank_sample_count(g, black, k),
    decreases k,
{
    if k > 0 {
        lemma_count_same(f, g, black, (k - 1) as nat);
        assert(pixel_lit(g, (k - 1) * SAMPLE_STRIDE, black) <==> pixel_lit(
            f,
            (k - 1) * SAMPLE_STRIDE,
            black,
        ));
    }
}

/// The blank verdict depends on the sampled pixels alone: two frames of the same
/// size whose sampled pixels agree in being lit get the same verdict, whatever the
/// pixels between the samples hold.
pub proof fn lemma_blank_depends_on_samples_only(
    f: Frame,
    g: Frame,
    almost_black_threshold: u64,
    non_blank_threshold: u64,
)
    requires
        f.pixel_count() == g.pixel_count(),
        forall|j: int|
            0 <= j < sample_count(f.pixel_count()) ==> (pixel_lit(
                f,
                j * SAMPLE_STRIDE,
                black_byte(almost_black_threshold),
            ) <==> #[trigger] pixel_lit(g, j * SAMPLE_STRIDE, black_byte(almost_black_threshold))),
    ensures
        blank_spec(f, almost_black_threshold, non_blank_threshold) == blank_spec(
            g,
            almost_black_threshold,
            non_blank_threshold,
        ),
{
    let n = sample_count(f.pixel_count());
    if n > 0 {
        lemma_count_same(f, g, black_byte(almost_black_threshold), n as nat);
    }
}

/// Blank filter: samples every `SAMPLE_STRIDE`-th pixel and reports the frame
/// blank unless the lit samples reach `non_blank_threshold`.
pub fn is_blank(image: &Frame, almost_black_threshold: u64, non_blank_threshold: u64) -> (r: bool)
    requires
        image.wf(),
    ensures
        r == blank_spec(*image, almost_black_threshold, non_blank_threshold),
{
    let black: u8 = (almost_black_threshold % 256) as u8;
    let n: usize = image.rgba.len() / 4;
    let mut count: u64 = 0;
    let mut i: usize = 0;
    let mut k: usize = 0;
    while i < n
        invariant
            image.wf(),
            n == image.pixel_count(),
            n * 4 == image.rgba@.len(),
            n * 4 <= usize::MAX,
            black == black_byte(almost_black_threshold),
            i == k * SAMPLE_STRIDE,
            k == 0 || (k - 1) * SAMPLE_STRIDE < n,
            count == non_blank_sample_count(*image, black, k as nat),
            k == 0 || count < non_blank_threshold,
        decreases n + SAMPLE_STRIDE - i,
    {
        let base: usize = 4 * i;
        let lit = image.rgba[base] >= black || image.rgba[base + 1] >= black || image.rgba[base
            + 2] >= black;
        assert(lit == pixel_lit(*image, k * SAMPLE_STRIDE, black));
        if lit {
            count = count + 1;
        }
        k = k + 1;
        assert(count == non_blank_sample_count(*image, black, k as nat));
        if count >= non_blank_threshold {
            proof {
                assert(k <= sample_count(n as int));
                lemma_count_monotone(*image, black, k as nat, sample_count(n as int) as nat);
            }
            return false;
        }
        i = i + SAMPLE_STRIDE;
    }
    assert(k == sample_count(n as int));
    true
}

} // verus!
