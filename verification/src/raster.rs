//! Box blur of RGBA rasters (used to soften the forest overlay).
//!
//! A raster is `width * height` pixels of four channels, row after row.
//! One pass averages each channel over a window of `2 * radius + 1` pixels
//! along the row, then along the column; the window is cut at the edges but
//! the divisor stays `2 * radius + 1`, and the quotient is truncated.
use vstd::prelude::*;

verus! {

pub open spec fn min_int(a: int, b: int) -> int {
    if a < b {
        a
    } else {
        b
    }
}

pub open spec fn max_int(a: int, b: int) -> int {
    if a < b {
        b
    } else {
        a
    }
}

/// Channel `c` summed over the pixels of row `y` in columns `lo..=hi`.
pub open spec fn row_sum(src: Seq<u8>, w: int, y: int, c: int, lo: int, hi: int) -> int
    decreases hi - lo + 1,
{
    if hi < lo {
        0
    } else {
        row_sum(src, w, y, c, lo, hi - 1) + src[(y * w + hi) * 4 + c] as int
    }
}

/// Channel `c` summed over the pixels of column `x` in rows `lo..=hi`.
pub open spec fn col_sum(src: Seq<u8>, w: int, x: int, c: int, lo: int, hi: int) -> int
    decreases hi - lo + 1,
{
    if hi < lo {
        0
    } else {
        col_sum(src, w, x, c, lo, hi - 1) + src[(hi * w + x) * 4 + c] as int
    }
}

/// The horizontally blurred value of byte `i` (pixel `i / 4`, channel
/// `i % 4`).
pub open spec fn h_value(src: Seq<u8>, w: int, r: int, i: int) -> int {
    let p = i / 4;
    let c = i % 4;
    let y = p / w;
    let x = p % w;
    row_sum(src, w, y, c, max_int(x - r, 0), min_int(x + r, w - 1)) / (2 * r + 1)
}

/// The vertically blurred value of byte `i`.
pub open spec fn v_value(src: Seq<u8>, w: int, h: int, r: int, i: int) -> int {
    let p = i / 4;
    let c = i % 4;
    let y = p / w;
    let x = p % w;
    col_sum(src, w, x, c, max_int(y - r, 0), min_int(y + r, h - 1)) / (2 * r + 1)
}

/// The first `w * h * 4` bytes of `tgt` replaced by the horizontal blur of
/// `src`.
pub open spec fn h_pass(src: Seq<u8>, tgt: Seq<u8>, w: int, h: int, r: int) -> Seq<u8> {
    Seq::new(tgt.len(), |i: int| if i < w * h * 4 { h_value(src, w, r, i) as u8 } else { tgt[i] })
}

/// The first `w * h * 4` bytes of `tgt` replaced by the vertical blur of
/// `src`.
pub open spec fn v_pass(src: Seq<u8>, tgt: Seq<u8>, w: int, h: int, r: int) -> Seq<u8> {
    Seq::new(
        tgt.len(),
        |i: int| if i < w * h * 4 { v_value(src, w, h, r, i) as u8 } else { tgt[i] },
    )
}

/// The raster after `passes` passes; `scratch` is the horizontal pass's
/// buffer, of which only the first `w * h * 4` bytes are ever read.
pub open spec fn blurred(p: Seq<u8>, w: int, h: int, r: int, passes: nat) -> Seq<u8>
    decreases passes,
{
    if passes == 0 {
        p
    } else {
        let s = blurred(p, w, h, r, (passes - 1) as nat);
        v_pass(h_pass(s, Seq::new(s.len(), |i: int| 0u8), w, h, r), s, w, h, r)
    }
}

/// What `blur_rgba` leaves in the raster.
pub open spec fn spec_blur(p: Seq<u8>, w: int, h: int, r: int, passes: nat) -> Seq<u8> {
    if w == 0 || h == 0 || r == 0 || passes == 0 {
        p
    } else {
        blurred(p, w, h, r, passes)
    }
}

/// Blurring keeps the raster's length and every byte past its
/// `width * height` pixels.
pub proof fn law_blur_keeps_tail(p: Seq<u8>, w: int, h: int, r: int, passes: nat)
    requires
        w >= 0,
        h >= 0,
    ensures
        spec_blur(p, w, h, r, passes).len() == p.len(),
        forall|i: int| w * h * 4 <= i < p.len() ==> #[trigger] spec_blur(p, w, h, r, passes)[i] == p[i],
{
    assert(w * h * 4 >= 0) by (nonlinear_arith)
        requires
            w >= 0,
            h >= 0,
    ;
    if !(w == 0 || h == 0 || r == 0 || passes == 0) {
        lemma_blurred_keeps_tail(p, w, h, r, passes);
    }
}

proof fn lemma_blurred_keeps_tail(p: Seq<u8>, w: int, h: int, r: int, passes: nat)
    requires
        w * h * 4 >= 0,
    ensures
        blurred(p, w, h, r, passes).len() == p.len(),
        forall|i: int| w * h * 4 <= i < p.len() ==> #[trigger] blurred(p, w, h, r, passes)[i] == p[i],
    decreases passes,
{
    if passes > 0 {
        lemma_blurred_keeps_tail(p, w, h, r, (passes - 1) as nat);
    }
}

/// No window sum can overflow `u32`: a window holds at most
/// `min(2 * radius + 1, extent)` bytes of at most 255.
pub open spec fn sums_fit(radius: int, extent: int) -> bool {
    min_int(2 * radius + 1, extent) * 255 <= u32::MAX
}

proof fn lemma_row_sum_bounds(src: Seq<u8>, w: int, y: int, c: int, lo: int, hi: int)
    ensures
        0 <= row_sum(src, w, y, c, lo, hi),
        row_sum(src, w, y, c, lo, hi) <= 255 * max_int(hi - lo + 1, 0),
    decreases hi - lo + 1,
{
    if hi >= lo {
        lemma_row_sum_bounds(src, w, y, c, lo, hi - 1);
    }
}

proof fn lemma_col_sum_bounds(src: Seq<u8>, w: int, x: int, c: int, lo: int, hi: int)
    ensures
        0 <= col_sum(src, w, x, c, lo, hi),
        col_sum(src, w, x, c, lo, hi) <= 255 * max_int(hi - lo + 1, 0),
    decreases hi - lo + 1,
{
    if hi >= lo {
        lemma_col_sum_bounds(src, w, x, c, lo, hi - 1);
    }
}

proof fn lemma_index(w: int, h: int, y: int, x: int, c: int)
    requires
        0 <= y < h,
        0 <= x < w,
        0 <= c < 4,
    ensures
        0 <= (y * w + x) * 4 + c < w * h * 4,
        ((y * w + x) * 4 + c) / 4 == y * w + x,
        ((y * w + x) * 4 + c) % 4 == c,
        (y * w + x) / w == y,
        (y * w + x) % w == x,
{
    assert(0 <= y * w + x < w * h) by (nonlinear_arith)
        requires
            0 <= y < h,
            0 <= x < w,
    ;
    assert((y * w + x) / w == y && (y * w + x) % w == x) by (nonlinear_arith)
        requires
            0 <= y,
            0 <= x < w,
    ;
    assert(w * h * 4 == (w * h) * 4) by (nonlinear_arith);
}

proof fn lemma_quotient_byte(sum: int, count: int, k: int)
    requires
        0 <= sum <= 255 * count,
        0 <= count <= k,
        k > 0,
    ensures
        0 <= sum / k <= 255,
{
    assert(0 <= sum / k <= 255) by (nonlinear_arith)
        requires
            0 <= sum <= 255 * count,
            0 <= count <= k,
            k > 0,
    ;
}

/// One horizontal pass from `source` into the first `width * height * 4`
/// bytes of `target`.
pub fn box_blur_horizontal(
    source: &Vec<u8>,
    target: &mut Vec<u8>,
    width: usize,
    height: usize,
    radius: usize,
)
    requires
        width * height * 4 <= source.len(),
        width * height * 4 <= old(target).len(),
        width > 0 && height > 0 ==> {
            &&& radius * 2 + 1 <= u32::MAX
            &&& width - 1 + radius <= usize::MAX
            &&& sums_fit(radius as int, width as int)
        },
    ensures
        final(target)@ == h_pass(source@, old(target)@, width as int, height as int, radius as int),
{
    if width == 0 || height == 0 {
        assert(width * height == 0) by (nonlinear_arith)
            requires
                width == 0 || height == 0,
        ;
        assert(target@ =~= h_pass(source@, target@, width as int, height as int, radius as int));
        return;
    }
    let kernel: u32 = (radius * 2 + 1) as u32;
    let ghost w = width as int;
    let ghost h = height as int;
    let ghost r = radius as int;
    let ghost t0 = target@;
    assert(0 * w * 4 == 0);
    for y in 0..height
        invariant
            width > 0,
            width * height * 4 <= source.len(),
            target.len() == t0.len(),
            w * h * 4 <= t0.len(),
            w == width,
            h == height,
            r == radius,
            kernel == 2 * radius + 1,
            width - 1 + radius <= usize::MAX,
            sums_fit(r, w),
            forall|i: int|
                0 <= i < target.len() ==> #[trigger] target@[i] == if i < y * w * 4 {
                    h_value(source@, w, r, i) as u8
                } else {
                    t0[i]
                },
    {
        for x in 0..width
            invariant
                width > 0,
                width * height * 4 <= source.len(),
                target.len() == t0.len(),
                w * h * 4 <= t0.len(),
                w == width,
                h == height,
                r == radius,
                y < height,
                kernel == 2 * radius + 1,
                width - 1 + radius <= usize::MAX,
                sums_fit(r, w),
                forall|i: int|
                    0 <= i < target.len() ==> #[trigger] target@[i] == if i < (y * w + x) * 4 {
                        h_value(source@, w, r, i) as u8
                    } else {
                        t0[i]
                    },
        {
            let lo: usize = if x >= radius {
                x - radius
            } else {
                0
            };
            let hi: usize = if x + radius < width - 1 {
                x + radius
            } else {
                width - 1
            };
            let mut s0: u32 = 0;
            let mut s1: u32 = 0;
            let mut s2: u32 = 0;
            let mut s3: u32 = 0;
            let mut offset = lo;
            proof {
                assert(hi - lo + 1 <= min_int(2 * r + 1, w));
            }
            while offset <= hi
                invariant
                    lo <= offset <= hi + 1,
                    hi < width,
                    y < height,
                    w == width,
                    h == height,
                    width * height * 4 <= source.len(),
                    hi - lo + 1 <= min_int(2 * r + 1, w),
                    sums_fit(r, w),
                    s0 == row_sum(source@, w, y as int, 0, lo as int, offset - 1),
                    s1 == row_sum(source@, w, y as int, 1, lo as int, offset - 1),
                    s2 == row_sum(source@, w, y as int, 2, lo as int, offset - 1),
                    s3 == row_sum(source@, w, y as int, 3, lo as int, offset - 1),
                decreases hi + 1 - offset,
            {
                proof {
                    lemma_index(w, h, y as int, offset as int, 0);
                    lemma_index(w, h, y as int, offset as int, 3);
                    lemma_row_sum_bounds(source@, w, y as int, 0, lo as int, offset as int);
                    lemma_row_sum_bounds(source@, w, y as int, 1, lo as int, offset as int);
                    lemma_row_sum_bounds(source@, w, y as int, 2, lo as int, offset as int);
                    lemma_row_sum_bounds(source@, w, y as int, 3, lo as int, offset as int);
                    assert(255 * (offset - lo + 1) <= 255 * min_int(2 * r + 1, w));
                }
                let base = (y * width + offset) * 4;
                s0 = s0 + source[base] as u32;
                s1 = s1 + source[base + 1] as u32;
                s2 = s2 + source[base + 2] as u32;
                s3 = s3 + source[base + 3] as u32;
                offset = offset + 1;
            }
            proof {
                lemma_index(w, h, y as int, x as int, 0);
                lemma_index(w, h, y as int, x as int, 1);
                lemma_index(w, h, y as int, x as int, 2);
                lemma_index(w, h, y as int, x as int, 3);
                lemma_row_sum_bounds(source@, w, y as int, 0, lo as int, hi as int);
                lemma_row_sum_bounds(source@, w, y as int, 1, lo as int, hi as int);
                lemma_row_sum_bounds(source@, w, y as int, 2, lo as int, hi as int);
                lemma_row_sum_bounds(source@, w, y as int, 3, lo as int, hi as int);
                lemma_quotient_byte(s0 as int, hi - lo + 1, 2 * r + 1);
                lemma_quotient_byte(s1 as int, hi - lo + 1, 2 * r + 1);
                lemma_quotient_byte(s2 as int, hi - lo + 1, 2 * r + 1);
                lemma_quotient_byte(s3 as int, hi - lo + 1, 2 * r + 1);
            }
            let base = (y * width + x) * 4;
            target.set(base, (s0 / kernel) as u8);
            target.set(base + 1, (s1 / kernel) as u8);
            target.set(base + 2, (s2 / kernel) as u8);
            target.set(base + 3, (s3 / kernel) as u8);
            assert forall|i: int| 0 <= i < target.len() implies #[trigger] target@[i] == if i < (y
                * w + x + 1) * 4 {
                h_value(source@, w, r, i) as u8
            } else {
                t0[i]
            } by {
                if base <= i < base + 4 {
                    lemma_index(w, h, y as int, x as int, i - base);
                }
            }
        }
        assert((y * w + w) * 4 == (y + 1) * w * 4) by (nonlinear_arith);
    }
    assert(h * w * 4 == w * h * 4) by (nonlinear_arith);
    assert(target@ =~= h_pass(source@, t0, w, h, r));
}

/// One vertical pass from `source` into the first `width * height * 4`
/// bytes of `target`.
pub fn box_blur_vertical(
    source: &Vec<u8>,
    target: &mut Vec<u8>,
    width: usize,
    height: usize,
    radius: usize,
)
    requires
        width * height * 4 <= source.len(),
        width * height * 4 <= old(target).len(),
        width > 0 && height > 0 ==> {
            &&& radius * 2 + 1 <= u32::MAX
            &&& height - 1 + radius <= usize::MAX
            &&& sums_fit(radius as int, height as int)
        },
    ensures
        final(target)@ == v_pass(source@, old(target)@, width as int, height as int, radius as int),
{
    if width == 0 || height == 0 {
        assert(width * height == 0) by (nonlinear_arith)
            requires
                width == 0 || height == 0,
        ;
        assert(target@ =~= v_pass(source@, target@, width as int, height as int, radius as int));
        return;
    }
    let kernel: u32 = (radius * 2 + 1) as u32;
    let ghost w = width as int;
    let ghost h = height as int;
    let ghost r = radius as int;
    let ghost t0 = target@;
    assert(0 * w * 4 == 0);
    for y in 0..height
        invariant
            width > 0,
            height > 0,
            width * height * 4 <= source.len(),
            target.len() == t0.len(),
            w * h * 4 <= t0.len(),
            w == width,
            h == height,
            r == radius,
            kernel == 2 * radius + 1,
            height - 1 + radius <= usize::MAX,
            sums_fit(r, h),
            forall|i: int|
                0 <= i < target.len() ==> #[trigger] target@[i] == if i < y * w * 4 {
                    v_value(source@, w, h, r, i) as u8
                } else {
                    t0[i]
                },
    {
        for x in 0..width
            invariant
                width > 0,
                height > 0,
                width * height * 4 <= source.len(),
                target.len() == t0.len(),
                w * h * 4 <= t0.len(),
                w == width,
                h == height,
                r == radius,
                y < height,
                kernel == 2 * radius + 1,
                height - 1 + radius <= usize::MAX,
                sums_fit(r, h),
                forall|i: int|
                    0 <= i < target.len() ==> #[trigger] target@[i] == if i < (y * w + x) * 4 {
                        v_value(source@, w, h, r, i) as u8
                    } else {
                        t0[i]
                    },
        {
            let lo: usize = if y >= radius {
                y - radius
            } else {
                0
            };
            let hi: usize = if y + radius < height - 1 {
                y + radius
            } else {
                height - 1
            };
            let mut s0: u32 = 0;
            let mut s1: u32 = 0;
            let mut s2: u32 = 0;
            let mut s3: u32 = 0;
            let mut offset = lo;
            proof {
                assert(hi - lo + 1 <= min_int(2 * r + 1, h));
            }
            while offset <= hi
                invariant
                    lo <= offset <= hi + 1,
                    hi < height,
                    x < width,
                    w == width,
                    h == height,
                    width * height * 4 <= source.len(),
                    hi - lo + 1 <= min_int(2 * r + 1, h),
                    sums_fit(r, h),
                    s0 == col_sum(source@, w, x as int, 0, lo as int, offset - 1),
                    s1 == col_sum(source@, w, x as int, 1, lo as int, offset - 1),
                    s2 == col_sum(source@, w, x as int, 2, lo as int, offset - 1),
                    s3 == col_sum(source@, w, x as int, 3, lo as int, offset - 1),
                decreases hi + 1 - offset,
            {
                proof {
                    lemma_index(w, h, offset as int, x as int, 0);
                    lemma_index(w, h, offset as int, x as int, 3);
                    lemma_col_sum_bounds(source@, w, x as int, 0, lo as int, offset as int);
                    lemma_col_sum_bounds(source@, w, x as int, 1, lo as int, offset as int);
                    lemma_col_sum_bounds(source@, w, x as int, 2, lo as int, offset as int);
                    lemma_col_sum_bounds(source@, w, x as int, 3, lo as int, offset as int);
                    assert(255 * (offset - lo + 1) <= 255 * min_int(2 * r + 1, h));
                }
                let base = (offset * width + x) * 4;
                s0 = s0 + source[base] as u32;
                s1 = s1 + source[base + 1] as u32;
                s2 = s2 + source[base + 2] as u32;
                s3 = s3 + source[base + 3] as u32;
                offset = offset + 1;
            }
            proof {
                lemma_index(w, h, y as int, x as int, 0);
                lemma_index(w, h, y as int, x as int, 1);
                lemma_index(w, h, y as int, x as int, 2);
                lemma_index(w, h, y as int, x as int, 3);
                lemma_col_sum_bounds(source@, w, x as int, 0, lo as int, hi as int);
                lemma_col_sum_bounds(source@, w, x as int, 1, lo as int, hi as int);
                lemma_col_sum_bounds(source@, w, x as int, 2, lo as int, hi as int);
                lemma_col_sum_bounds(source@, w, x as int, 3, lo as int, hi as int);
                lemma_quotient_byte(s0 as int, hi - lo + 1, 2 * r + 1);
                lemma_quotient_byte(s1 as int, hi - lo + 1, 2 * r + 1);
                lemma_quotient_byte(s2 as int, hi - lo + 1, 2 * r + 1);
                lemma_quotient_byte(s3 as int, hi - lo + 1, 2 * r + 1);
            }
            let base = (y * width + x) * 4;
            target.set(base, (s0 / kernel) as u8);
            target.set(base + 1, (s1 / kernel) as u8);
            target.set(base + 2, (s2 / kernel) as u8);
            target.set(base + 3, (s3 / kernel) as u8);
            assert forall|i: int| 0 <= i < target.len() implies #[trigger] target@[i] == if i < (y
                * w + x + 1) * 4 {
                v_value(source@, w, h, r, i) as u8
            } else {
                t0[i]
            } by {
                if base <= i < base + 4 {
                    lemma_index(w, h, y as int, x as int, i - base);
                }
            }
        }
        assert((y * w + w) * 4 == (y + 1) * w * 4) by (nonlinear_arith);
    }
    assert(h * w * 4 == w * h * 4) by (nonlinear_arith);
    assert(target@ =~= v_pass(source@, t0, w, h, r));
}

/// Blurs an RGBA raster in place with `passes` box-blur passes of the given
/// radius; an empty raster, a zero radius or no passes leave it as it is.
pub fn blur_rgba(pixels: &mut Vec<u8>, width: usize, height: usize, radius: usize, passes: usize)
    requires
        width > 0 && height > 0 && radius > 0 && passes > 0 ==> {
            &&& width * height * 4 <= old(pixels).len()
            &&& radius * 2 + 1 <= u32::MAX
            &&& width - 1 + radius <= usize::MAX
            &&& height - 1 + radius <= usize::MAX
            &&& sums_fit(radius as int, width as int)
            &&& sums_fit(radius as int, height as int)
        },
    ensures
        final(pixels)@ == spec_blur(
            old(pixels)@,
            width as int,
            height as int,
            radius as int,
            passes as nat,
        ),
{
    if width == 0 || height == 0 || radius == 0 || passes == 0 {
        return;
    }
    let ghost p0 = pixels@;
    let ghost w = width as int;
    let ghost h = height as int;
    let ghost r = radius as int;
    let mut source = pixels.clone();
    let mut target: Vec<u8> = vec![0u8; pixels.len()];
    assert(source@ =~= blurred(p0, w, h, r, 0));
    for k in 0..passes
        invariant
            width > 0,
            height > 0,
            w == width,
            h == height,
            r == radius,
            width * height * 4 <= p0.len(),
            radius * 2 + 1 <= u32::MAX,
            width - 1 + radius <= usize::MAX,
            height - 1 + radius <= usize::MAX,
            sums_fit(r, w),
            sums_fit(r, h),
            source@ == blurred(p0, w, h, r, k as nat),
            source@.len() == p0.len(),
            target@.len() == p0.len(),
            forall|i: int| w * h * 4 <= i < target@.len() ==> #[trigger] target@[i] == 0u8,
    {
        let ghost s = source@;
        box_blur_horizontal(&source, &mut target, width, height, radius);
        assert(target@ =~= h_pass(s, Seq::new(s.len(), |i: int| 0u8), w, h, r));
        box_blur_vertical(&target, &mut source, width, height, radius);
    }
    *pixels = source;
}

} // verus!
