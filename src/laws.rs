use vstd::prelude::*;

use crate::agent::same_screen;
use crate::detect::{
    block_luma, block_sum, different_count, differs, lemma_fingerprint_unique, Fingerprint, PPM,
    SCALE,
};
use crate::frame::Frame;

verus! {

proof fn lemma_block_sum_same_pixels(f: Frame, g: Frame, bx: int, by: int, k: nat)
    requires
        f.width == g.width,
        f.rgba@ == g.rgba@,
    ensures
        block_sum(f, bx, by, k) == block_sum(g, bx, by, k),
    decreases k,
{
    if k > 0 {
        lemma_block_sum_same_pixels(f, g, bx, by, (k - 1) as nat);
    }
}

proof fn lemma_no_difference(a: Seq<u8>, k: nat)
    requires
        k <= a.len(),
    ensures
        different_count(a, a, k) == 0,
    decreases k,
{
    if k > 0 {
        lemma_no_difference(a, (k - 1) as nat);
    }
}

proof fn lemma_all_differ_count(a: Seq<u8>, b: Seq<u8>, k: nat)
    requires
        k <= a.len(),
        k <= b.len(),
        forall|i: int| 0 <= i < k ==> #[trigger] differs(a[i], b[i]),
    ensures
        different_count(a, b, k) == k,
    decreases k,
{
    if k > 0 {
        lemma_all_differ_count(a, b, (k - 1) as nat);
    }
}

proof fn lemma_len_fits(fp: Fingerprint)
    requires
        fp.wf(),
    ensures
        fp.luma@.len() <= u64::MAX,
{
    assert(fp.width as int * fp.height as int <= 0xffff_ffff * 0xffff_ffff) by (nonlinear_arith)
        requires
            fp.width <= 0xffff_ffff,
            fp.height <= 0xffff_ffff,
    ;
}

/// With no retained fingerprint, as for the first frame a fresh agent sees, a
/// frame never counts as the same screen.
pub proof fn lemma_first_frame_is_different(fp: Fingerprint, ppm: u64)
    ensures
        !same_screen(None, fp, ppm),
{
}

/// Two frames with identical pixels count as the same screen for every positive
/// ratio, provided they hold at least one full 4 by 4 block.
pub proof fn lemma_identical_frames_are_same(
    f: Frame,
    g: Frame,
    last: Fingerprint,
    fp: Fingerprint,
    ppm: u64,
)
    requires
        f.width == g.width,
        f.height == g.height,
        f.rgba@ == g.rgba@,
        f.width >= SCALE,
        f.height >= SCALE,
        last.is_fingerprint_of(f),
        fp.is_fingerprint_of(g),
        ppm > 0,
    ensures
        same_screen(Some(last), fp, ppm),
{
    assert forall|x: int, y: int| 0 <= x < last.width && 0 <= y < last.height implies last.luma@[y
        * last.width + x] as int == #[trigger] block_luma(g, x, y) by {
        lemma_block_sum_same_pixels(f, g, x, y, (SCALE * SCALE) as nat);
        assert(last.luma@[y * last.width + x] as int == block_luma(f, x, y));
    }
    assert(last.is_fingerprint_of(g));
    lemma_fingerprint_unique(last, fp, g);
    lemma_no_difference(fp.luma@, fp.luma@.len());
    lemma_len_fits(fp);
    let n = fp.luma@.len();
    assert(n > 0) by (nonlinear_arith)
        requires
            n == fp.width as int * fp.height as int,
            fp.width >= 1,
            fp.height >= 1,
    ;
    assert(0 < ppm as int * n) by (nonlinear_arith)
        requires
            ppm > 0,
            n > 0,
    ;
    let r = crate::detect::difference_spec(last, fp);
    assert(r.different == 0 && r.total as int == n);
    assert(crate::detect::below_spec(r, ppm));
}

/// Fingerprints of one size that differ beyond the sensitivity in every pixel never
/// count as the same screen for a ratio below one.
pub proof fn lemma_all_pixels_changed_is_different(last: Fingerprint, fp: Fingerprint, ppm: u64)
    requires
        last.wf(),
        fp.wf(),
        last.width == fp.width,
        last.height == fp.height,
        fp.luma@.len() > 0,
        forall|i: int| 0 <= i < fp.luma@.len() ==> #[trigger] differs(last.luma@[i], fp.luma@[i]),
        (ppm as int) < PPM,
    ensures
        !same_screen(Some(last), fp, ppm),
{
    lemma_all_differ_count(last.luma@, fp.luma@, last.luma@.len());
    lemma_len_fits(fp);
    let n = fp.luma@.len() as int;
    assert(!(n * PPM < ppm as int * n)) by (nonlinear_arith)
        requires
            n > 0,
            (ppm as int) < PPM,
    ;
    let r = crate::detect::difference_spec(last, fp);
    assert(r.different as int == n && r.total as int == n);
    assert(!crate::detect::below_spec(r, ppm));
}

/// Fingerprints of different sizes never count as the same screen, whatever the
/// ratio.
pub proof fn lemma_size_change_is_different(last: Fingerprint, fp: Fingerprint, ppm: u64)
    requires
        last.width != fp.width || last.height != fp.height,
    ensures
        !same_screen(Some(last), fp, ppm),
{
}

} // verus!
