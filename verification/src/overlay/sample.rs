use crate::geometry::{spec_max, spec_min};
use crate::overlay::types::IntRect;
use vstd::prelude::*;

verus! {

/// The colour used where the region has no pixel to sample.
pub const EMPTY_REGION_COLOR: u32 = 0xF0F0F0;

/// How many of `lo, lo + step, ...` lie below `hi`.
pub open spec fn sample_count(lo: int, hi: int, step: int) -> int
    decreases spec_max(hi - lo, 0),
{
    if step <= 0 || lo >= hi {
        0
    } else {
        1 + sample_count(lo + step, hi, step)
    }
}

/// Channel `c` summed over the pixels `(x, y), (x + step, y), ...` of row
/// `y` before column `x1`, in an RGBA image `w` pixels wide.
pub open spec fn row_sum(bytes: Seq<u8>, w: int, y: int, x: int, x1: int, step: int, c: int) -> int
    decreases spec_max(x1 - x, 0),
{
    if step <= 0 || x >= x1 {
        0
    } else {
        bytes[(y * w + x) * 4 + c] as int + row_sum(bytes, w, y, x + step, x1, step, c)
    }
}

/// Channel `c` summed over the sampled rows `y, y + step, ...` before `y1`.
pub open spec fn region_sum(bytes: Seq<u8>, w: int, y: int, y1: int, x0: int, x1: int, step: int, c: int) -> int
    decreases spec_max(y1 - y, 0),
{
    if step <= 0 || y >= y1 {
        0
    } else {
        row_sum(bytes, w, y, x0, x1, step, c) + region_sum(bytes, w, y + step, y1, x0, x1, step, c)
    }
}

/// The number of pixels sampled over the rows `y, y + step, ...` before `y1`.
pub open spec fn region_count(y: int, y1: int, x0: int, x1: int, step: int) -> int
    decreases spec_max(y1 - y, 0),
{
    if step <= 0 || y >= y1 {
        0
    } else {
        sample_count(x0, x1, step) + region_count(y + step, y1, x0, x1, step)
    }
}

/// The average colour (`0xRRGGBB`) of `rect`, clipped to a `width` by
/// `height` RGBA image, sampled on a grid of about twelve steps along the
/// longer side; a light grey where the clipped region is empty.
pub open spec fn region_avg_color(bytes: Seq<u8>, width: int, height: int, rect: IntRect) -> int {
    let x0 = spec_max(rect.left as int, 0);
    let y0 = spec_max(rect.top as int, 0);
    let x1 = spec_min(rect.right as int, width);
    let y1 = spec_min(rect.bottom as int, height);
    if x1 <= x0 || y1 <= y0 {
        EMPTY_REGION_COLOR as int
    } else {
        let step = spec_max(spec_max(x1 - x0, y1 - y0) / 12, 1);
        let count = region_count(y0, y1, x0, x1, step);
        let r = region_sum(bytes, width, y0, y1, x0, x1, step, 0) / count;
        let g = region_sum(bytes, width, y0, y1, x0, x1, step, 1) / count;
        let b = region_sum(bytes, width, y0, y1, x0, x1, step, 2) / count;
        r * 0x10000 + g * 0x100 + b
    }
}

proof fn lemma_pixel_in_image(x: int, y: int, w: int, h: int)
    requires
        0 <= x < w,
        0 <= y < h,
    ensures
        0 <= (y * w + x) * 4,
        (y * w + x) * 4 + 3 < w * h * 4,
{
    assert(y * w + x < w * h) by (nonlinear_arith)
        requires
            0 <= x < w,
            0 <= y < h,
    ;
    assert(0 <= y * w) by (nonlinear_arith)
        requires
            0 <= y,
            0 <= w,
    ;
}

proof fn lemma_sample_count_nonneg(lo: int, hi: int, step: int)
    ensures
        0 <= sample_count(lo, hi, step),
        step > 0 && lo < hi ==> 1 <= sample_count(lo, hi, step),
    decreases spec_max(hi - lo, 0),
{
    if step > 0 && lo < hi {
        lemma_sample_count_nonneg(lo + step, hi, step);
    }
}

proof fn lemma_region_count_nonneg(y: int, y1: int, x0: int, x1: int, step: int)
    ensures
        0 <= region_count(y, y1, x0, x1, step),
    decreases spec_max(y1 - y, 0),
{
    lemma_sample_count_nonneg(x0, x1, step);
    if step > 0 && y < y1 {
        lemma_region_count_nonneg(y + step, y1, x0, x1, step);
    }
}

proof fn lemma_average_fits(sum: int, count: int)
    requires
        0 < count,
        0 <= sum <= 255 * count,
    ensures
        0 <= sum / count <= 255,
{
    assert(sum / count <= 255) by (nonlinear_arith)
        requires
            0 < count,
            0 <= sum <= 255 * count,
    ;
}

/// The average colour under `rect` of the captured image, given as its RGBA
/// bytes, as `region_avg_color` describes it.
pub fn sample_region_avg_color(bytes: &Vec<u8>, width: u32, height: u32, rect: &IntRect) -> (r: u32)
    requires
        bytes@.len() == width * height * 4,
    ensures
        r == region_avg_color(bytes@, width as int, height as int, *rect),
{
    let x0: i64 = if rect.left > 0 { rect.left as i64 } else { 0 };
    let y0: i64 = if rect.top > 0 { rect.top as i64 } else { 0 };
    let x1: i64 = if (rect.right as i64) < (width as i64) { rect.right as i64 } else { width as i64 };
    let y1: i64 = if (rect.bottom as i64) < (height as i64) { rect.bottom as i64 } else { height as i64 };
    if x1 <= x0 || y1 <= y0 {
        return EMPTY_REGION_COLOR;
    }
    let x0 = x0 as u64;
    let y0 = y0 as u64;
    let x1 = x1 as u64;
    let y1 = y1 as u64;
    let span: u64 = if x1 - x0 >= y1 - y0 { x1 - x0 } else { y1 - y0 };
    let step: u64 = if span / 12 >= 1 { span / 12 } else { 1 };
    let w = width as u64;
    let n = bytes.len();
    let ghost bs = bytes@;
    let ghost wi = width as int;
    let mut sum_r: u128 = 0;
    let mut sum_g: u128 = 0;
    let mut sum_b: u128 = 0;
    let mut count: u128 = 0;
    let mut y: u64 = y0;
    while y < y1
        invariant
            bs == bytes@,
            bs.len() == width * height * 4,
            bs.len() == n,
            wi == w,
            w == width,
            x0 < x1 <= width,
            y0 < y1 <= height,
            1 <= step <= 0x1_0000_0000,
            y0 <= y <= y1 + step,
            count <= y * 0x4_0000_0000,
            sum_r <= 255 * count,
            sum_g <= 255 * count,
            sum_b <= 255 * count,
            sum_r + region_sum(bs, wi, y as int, y1 as int, x0 as int, x1 as int, step as int, 0)
                == region_sum(bs, wi, y0 as int, y1 as int, x0 as int, x1 as int, step as int, 0),
            sum_g + region_sum(bs, wi, y as int, y1 as int, x0 as int, x1 as int, step as int, 1)
                == region_sum(bs, wi, y0 as int, y1 as int, x0 as int, x1 as int, step as int, 1),
            sum_b + region_sum(bs, wi, y as int, y1 as int, x0 as int, x1 as int, step as int, 2)
                == region_sum(bs, wi, y0 as int, y1 as int, x0 as int, x1 as int, step as int, 2),
            count + region_count(y as int, y1 as int, x0 as int, x1 as int, step as int)
                == region_count(y0 as int, y1 as int, x0 as int, x1 as int, step as int),
        decreases y1 + step - y,
    {
        let mut x: u64 = x0;
        let ghost row_start_r = sum_r;
        let ghost row_start_g = sum_g;
        let ghost row_start_b = sum_b;
        let ghost row_start_count = count;
        while x < x1
            invariant
                bs == bytes@,
                bs.len() == width * height * 4,
                bs.len() == n,
                wi == w,
                w == width,
                x0 < x1 <= width,
                y0 <= y < y1 <= height,
                1 <= step <= 0x1_0000_0000,
                x0 <= x <= x1 + step,
                count <= y * 0x4_0000_0000 + x,
                row_start_count <= count,
                sum_r <= 255 * count,
                sum_g <= 255 * count,
                sum_b <= 255 * count,
                sum_r + row_sum(bs, wi, y as int, x as int, x1 as int, step as int, 0)
                    == row_start_r + row_sum(bs, wi, y as int, x0 as int, x1 as int, step as int, 0),
                sum_g + row_sum(bs, wi, y as int, x as int, x1 as int, step as int, 1)
                    == row_start_g + row_sum(bs, wi, y as int, x0 as int, x1 as int, step as int, 1),
                sum_b + row_sum(bs, wi, y as int, x as int, x1 as int, step as int, 2)
                    == row_start_b + row_sum(bs, wi, y as int, x0 as int, x1 as int, step as int, 2),
                count + sample_count(x as int, x1 as int, step as int)
                    == row_start_count + sample_count(x0 as int, x1 as int, step as int),
            decreases x1 + step - x,
        {
            proof {
                lemma_pixel_in_image(x as int, y as int, width as int, height as int);
            }
            assert((y * w + x) * 4 + 3 < n);
            let offset = ((y * w + x) * 4) as usize;
            sum_r = sum_r + bytes[offset] as u128;
            sum_g = sum_g + bytes[offset + 1] as u128;
            sum_b = sum_b + bytes[offset + 2] as u128;
            count = count + 1;
            x = x + step;
        }
        y = y + step;
    }
    proof {
        lemma_sample_count_nonneg(x0 as int, x1 as int, step as int);
        lemma_region_count_nonneg(y0 as int + step, y1 as int, x0 as int, x1 as int, step as int);
        lemma_average_fits(sum_r as int, count as int);
        lemma_average_fits(sum_g as int, count as int);
        lemma_average_fits(sum_b as int, count as int);
    }
    let avg_r = (sum_r / count) as u32;
    let avg_g = (sum_g / count) as u32;
    let avg_b = (sum_b / count) as u32;
    avg_r * 0x10000 + avg_g * 0x100 + avg_b
}

} // verus!
