use crate::geometry::SelectionRect;
use crate::notification::fits_i32;
use crate::overlay::pixels::{
    alpha_blend, alpha_blend_spec, dim_color, dim_spec, frame_fits, frame_index, lemma_index_in_frame,
    lemma_index_unique, on_frame, opaque, opaque_spec, pixel_index, rgb_spec,
};
use crate::overlay::types::{CursorPoint, IntRect, PREVIEW_BRIGHTNESS_PERCENT};
use vstd::prelude::*;

verus! {

/// `(x, y)` lies in `rect`, right and bottom edges excluded.
pub open spec fn in_int_rect(rect: IntRect, x: int, y: int) -> bool {
    rect.left <= x < rect.right && rect.top <= y < rect.bottom
}

/// `v` clamped to `[lo, hi]`.
fn clamp_to(v: i32, lo: i32, hi: i32) -> (r: i32)
    requires
        lo <= hi,
    ensures
        lo <= r <= hi,
        r == (if v < lo { lo } else if v > hi { hi } else { v }),
{
    if v < lo { lo } else if v > hi { hi } else { v }
}

/// Blends `color` into the pixels `xl..xr` of row `y`.
fn blend_row_span(frame: &mut [u32], width: u32, height: u32, y: u32, xl: u32, xr: u32, color: u32)
    requires
        frame_fits(old(frame)@, width, height),
        y < height,
        xl <= xr <= width,
    ensures
        final(frame)@.len() == old(frame)@.len(),
        forall|px: int, py: int| #![trigger pixel_index(width, px, py)]
            on_frame(width, height, px, py) ==> final(frame)@[pixel_index(width, px, py)]
                == if py == y && xl <= px < xr {
                    alpha_blend_spec(old(frame)@[pixel_index(width, px, py)], color)
                } else {
                    old(frame)@[pixel_index(width, px, py)]
                },
        forall|i: int| width as int * height as int <= i < old(frame)@.len() ==> final(frame)@[i] == old(frame)@[i],
{
    let ghost start = frame@;
    let mut x = xl;
    while x < xr
        invariant
            frame_fits(start, width, height),
            y < height,
            xl <= x <= xr <= width,
            frame@.len() == start.len(),
            forall|px: int, py: int| #![trigger pixel_index(width, px, py)]
                on_frame(width, height, px, py) ==> frame@[pixel_index(width, px, py)]
                    == if py == y && xl <= px < x {
                        alpha_blend_spec(start[pixel_index(width, px, py)], color)
                    } else {
                        start[pixel_index(width, px, py)]
                    },
            forall|i: int| width as int * height as int <= i < start.len() ==> frame@[i] == start[i],
        decreases xr - x,
    {
        let index = frame_index(width, height, x, y, frame.len());
        let ghost before = frame@;
        let v = alpha_blend(frame[index], color);
        frame[index] = v;
        proof {
            assert forall|px: int, py: int| #![trigger pixel_index(width, px, py)]
                on_frame(width, height, px, py) && !(px == x && py == y)
                implies frame@[pixel_index(width, px, py)] == before[pixel_index(width, px, py)] by {
                lemma_index_in_frame(width, height, px, py);
                if pixel_index(width, px, py) == pixel_index(width, x as int, y as int) {
                    lemma_index_unique(width, px, py, x as int, y as int);
                }
            }
        }
        x = x + 1;
    }
}

/// Paints `rect`, clipped to the frame, with `color` at its effective alpha.
pub fn fill_rect(frame: &mut [u32], width: u32, height: u32, rect: IntRect, color: u32)
    requires
        frame_fits(old(frame)@, width, height),
    ensures
        final(frame)@.len() == old(frame)@.len(),
        forall|x: int, y: int| #![trigger pixel_index(width, x, y)]
            on_frame(width, height, x, y) ==> final(frame)@[pixel_index(width, x, y)]
                == if in_int_rect(rect, x, y) {
                    alpha_blend_spec(old(frame)@[pixel_index(width, x, y)], color)
                } else {
                    old(frame)@[pixel_index(width, x, y)]
                },
        forall|i: int| width as int * height as int <= i < old(frame)@.len() ==> final(frame)@[i] == old(frame)@[i],
{
    let ghost start = frame@;
    let w = width as i32;
    let h = height as i32;
    let sx = clamp_to(rect.left, 0, w);
    let ex = clamp_to(rect.right, sx, w);
    let sy = clamp_to(rect.top, 0, h);
    let ey = clamp_to(rect.bottom, sy, h);
    let mut y = sy;
    while y < ey
        invariant
            frame_fits(start, width, height),
            w == width,
            h == height,
            0 <= sx <= ex <= w,
            0 <= sy <= y <= ey <= h,
            sx == (if rect.left < 0 { 0 } else if rect.left > w { w as int } else { rect.left as int }),
            ex == (if rect.right < sx { sx as int } else if rect.right > w { w as int } else { rect.right as int }),
            sy == (if rect.top < 0 { 0 } else if rect.top > h { h as int } else { rect.top as int }),
            ey == (if rect.bottom < sy { sy as int } else if rect.bottom > h { h as int } else { rect.bottom as int }),
            frame@.len() == start.len(),
            forall|px: int, py: int| #![trigger pixel_index(width, px, py)]
                on_frame(width, height, px, py) ==> frame@[pixel_index(width, px, py)]
                    == if in_int_rect(rect, px, py) && py < y {
                        alpha_blend_spec(start[pixel_index(width, px, py)], color)
                    } else {
                        start[pixel_index(width, px, py)]
                    },
            forall|i: int| width as int * height as int <= i < start.len() ==> frame@[i] == start[i],
        decreases ey - y,
    {
        blend_row_span(frame, width, height, y as u32, sx as u32, ex as u32, color);
        y = y + 1;
    }
}

/// The largest corner radius a rectangle takes: `radius`, not below zero
/// and not above half the shorter side.
pub open spec fn rounded_rect_radius_spec(rect: IntRect, radius: int) -> int {
    let w = rect.right - rect.left;
    let h = rect.bottom - rect.top;
    let shorter = if w < h { w } else { h };
    let half = if shorter >= 0 { shorter / 2 } else { -((-shorter) / 2) };
    let max_radius = if half < 0 { 0 } else { half };
    let r = if radius < 0 { 0 } else { radius };
    if r < max_radius { r } else { max_radius }
}

/// Limits a corner radius to what the rectangle can take.
pub fn rounded_rect_radius(rect: IntRect, radius: i32) -> (r: i32)
    requires
        fits_i32(rect.right - rect.left),
        fits_i32(rect.bottom - rect.top),
    ensures
        r == rounded_rect_radius_spec(rect, radius as int),
        r >= 0,
{
    let w = rect.right - rect.left;
    let h = rect.bottom - rect.top;
    let shorter = if w < h { w } else { h };
    let half = shorter / 2;
    let max_radius = if half < 0 { 0 } else { half };
    let r = if radius < 0 { 0 } else { radius };
    if r < max_radius { r } else { max_radius }
}

/// A rectangle moved in by `inset` on every side, the inset kept between
/// zero and what leaves at least two pixels across the shorter side.
pub open spec fn inset_rect_spec(rect: IntRect, inset: int) -> IntRect {
    let w = rect.right - rect.left;
    let h = rect.bottom - rect.top;
    let shorter = if w < h { w } else { h };
    let v = shorter - 2;
    let half = if v >= 0 { v / 2 } else { -((-v) / 2) };
    let max_inset = if half < 0 { 0 } else { half };
    let i0 = if inset < 0 { 0 } else { inset };
    let i = if i0 < max_inset { i0 } else { max_inset };
    IntRect {
        left: (rect.left + i) as i32,
        top: (rect.top + i) as i32,
        right: (rect.right - i) as i32,
        bottom: (rect.bottom - i) as i32,
    }
}

/// Shrinks a rectangle by `inset` on each side (see `inset_rect_spec`).
pub fn inset_rect(rect: IntRect, inset: i32) -> (r: IntRect)
    requires
        fits_i32(rect.right - rect.left),
        fits_i32(rect.bottom - rect.top),
    ensures
        r == inset_rect_spec(rect, inset as int),
{
    let w = rect.right - rect.left;
    let h = rect.bottom - rect.top;
    let shorter: i64 = if w < h { w as i64 } else { h as i64 };
    let half: i64 = (shorter - 2) / 2;
    let max_inset: i64 = if half < 0 { 0 } else { half };
    let i0: i64 = if inset < 0 { 0 } else { inset as i64 };
    let i: i64 = if i0 < max_inset { i0 } else { max_inset };
    IntRect {
        left: (rect.left as i64 + i) as i32,
        top: (rect.top as i64 + i) as i32,
        right: (rect.right as i64 - i) as i32,
        bottom: (rect.bottom as i64 - i) as i32,
    }
}

/// The backdrop of OCR text: each channel of the sampled colour moved a
/// fifth of the way to white, at alpha 0xE8.
pub open spec fn ocr_overlay_bg_spec(avg_color: u32) -> u32 {
    let mix = |c: int| { let m = (c * 80 + 255 * 20) / 100; if m > 255 { 255 } else { m } };
    (0xE8 * 0x100_0000 + mix((avg_color as int / 0x1_0000) % 0x100) * 0x1_0000
        + mix((avg_color as int / 0x100) % 0x100) * 0x100 + mix(avg_color as int % 0x100)) as u32
}

fn lighten(c: u32) -> (r: u32)
    requires
        c <= 255,
    ensures
        r == (if (c * 80 + 255 * 20) / 100 > 255 { 255 } else { (c * 80 + 255 * 20) / 100 }),
        r <= 255,
{
    let m = (c * 80 + 255 * 20) / 100;
    if m > 255 { 255 } else { m }
}

/// The backdrop colour for recognised text over a region of this average colour.
pub fn ocr_overlay_bg_color(avg_color: u32) -> (r: u32)
    ensures
        r == ocr_overlay_bg_spec(avg_color),
{
    let red = lighten((avg_color / 0x1_0000) % 0x100);
    let green = lighten((avg_color / 0x100) % 0x100);
    let blue = lighten(avg_color % 0x100);
    0xE8 * 0x100_0000 + red * 0x1_0000 + green * 0x100 + blue
}

/// The opaque pixel of the RGBA quadruple at `i` of an image's bytes.
pub open spec fn rgba_pixel(bytes: Seq<u8>, i: int) -> u32 {
    opaque_spec(rgb_spec(bytes[4 * i] as int, bytes[4 * i + 1] as int, bytes[4 * i + 2] as int))
}

/// An image's pixels as opaque `0xAARRGGBB` values, one per whole RGBA
/// quadruple of `bytes`.
pub fn opaque_frame_from_image(bytes: &[u8]) -> (r: Vec<u32>)
    ensures
        r@.len() == bytes@.len() / 4,
        forall|i: int| 0 <= i < r@.len() ==> #[trigger] r@[i] == rgba_pixel(bytes@, i),
{
    let n = bytes.len() / 4;
    let mut out: Vec<u32> = Vec::new();
    let mut i: usize = 0;
    while i < n
        invariant
            i <= n == bytes@.len() / 4,
            bytes@.len() <= usize::MAX,
            out@.len() == i,
            forall|k: int| 0 <= k < i ==> #[trigger] out@[k] == rgba_pixel(bytes@, k),
        decreases n - i,
    {
        let red = bytes[4 * i] as u32;
        let green = bytes[4 * i + 1] as u32;
        let blue = bytes[4 * i + 2] as u32;
        out.push(opaque(red * 0x1_0000 + green * 0x100 + blue));
        i = i + 1;
    }
    out
}

/// An image's pixels dimmed to the preview brightness, opaque.
pub fn dimmed_opaque_frame_from_image(bytes: &[u8]) -> (r: Vec<u32>)
    ensures
        r@.len() == bytes@.len() / 4,
        forall|i: int| 0 <= i < r@.len() ==> #[trigger] r@[i] == opaque_spec(dim_spec(
            rgb_spec(bytes@[4 * i] as int, bytes@[4 * i + 1] as int, bytes@[4 * i + 2] as int),
            PREVIEW_BRIGHTNESS_PERCENT as int,
        )),
{
    let n = bytes.len() / 4;
    let mut out: Vec<u32> = Vec::new();
    let mut i: usize = 0;
    while i < n
        invariant
            i <= n == bytes@.len() / 4,
            bytes@.len() <= usize::MAX,
            out@.len() == i,
            forall|k: int| 0 <= k < i ==> #[trigger] out@[k] == opaque_spec(dim_spec(
                rgb_spec(bytes@[4 * k] as int, bytes@[4 * k + 1] as int, bytes@[4 * k + 2] as int),
                PREVIEW_BRIGHTNESS_PERCENT as int,
            )),
        decreases n - i,
    {
        let red = bytes[4 * i] as u32;
        let green = bytes[4 * i + 1] as u32;
        let blue = bytes[4 * i + 2] as u32;
        out.push(opaque(dim_color(red * 0x1_0000 + green * 0x100 + blue, PREVIEW_BRIGHTNESS_PERCENT)));
        i = i + 1;
    }
    out
}

/// Copies the selection's pixels back from the captured image (RGBA bytes,
/// `width` pixels to a row) into the frame, opaque. The selection must lie
/// on the frame.
pub fn restore_selection_region_from_image(
    source: &[u8],
    destination: &mut [u32],
    width: u32,
    height: u32,
    selection: SelectionRect,
)
    requires
        frame_fits(old(destination)@, width, height),
        4 * (width as int * height as int) <= source@.len(),
        0 <= selection.x,
        0 <= selection.y,
        selection.x + selection.width <= width,
        selection.y + selection.height <= height,
    ensures
        final(destination)@.len() == old(destination)@.len(),
        forall|x: int, y: int| #![trigger pixel_index(width, x, y)]
            on_frame(width, height, x, y) ==> final(destination)@[pixel_index(width, x, y)]
                == if selection.x <= x < selection.x + selection.width && selection.y <= y < selection.y + selection.height {
                    rgba_pixel(source@, pixel_index(width, x, y))
                } else {
                    old(destination)@[pixel_index(width, x, y)]
                },
        forall|i: int| width as int * height as int <= i < old(destination)@.len() ==> final(destination)@[i] == old(destination)@[i],
{
    let ghost start = destination@;
    let source_len = source.len();
    let left = selection.x as u32;
    let top = selection.y as u32;
    let right = left + selection.width;
    let bottom = top + selection.height;
    let mut row = top;
    while row < bottom
        invariant
            frame_fits(start, width, height),
            4 * (width as int * height as int) <= source@.len(),
            source@.len() <= usize::MAX,
            left == selection.x,
            top == selection.y,
            right == selection.x + selection.width,
            bottom == selection.y + selection.height,
            right <= width,
            bottom <= height,
            top <= row <= bottom,
            destination@.len() == start.len(),
            forall|px: int, py: int| #![trigger pixel_index(width, px, py)]
                on_frame(width, height, px, py) ==> destination@[pixel_index(width, px, py)]
                    == if left <= px < right && top <= py < row {
                        rgba_pixel(source@, pixel_index(width, px, py))
                    } else {
                        start[pixel_index(width, px, py)]
                    },
            forall|i: int| width as int * height as int <= i < start.len() ==> destination@[i] == start[i],
        decreases bottom - row,
    {
        let mut col = left;
        while col < right
            invariant
                frame_fits(start, width, height),
                4 * (width as int * height as int) <= source@.len(),
                source@.len() <= usize::MAX,
                left <= col <= right <= width,
                top <= row < bottom <= height,
                destination@.len() == start.len(),
                forall|px: int, py: int| #![trigger pixel_index(width, px, py)]
                    on_frame(width, height, px, py) ==> destination@[pixel_index(width, px, py)]
                        == if (left <= px < right && top <= py < row) || (py == row && left <= px < col) {
                            rgba_pixel(source@, pixel_index(width, px, py))
                        } else {
                            start[pixel_index(width, px, py)]
                        },
                forall|i: int| width as int * height as int <= i < start.len() ==> destination@[i] == start[i],
            decreases right - col,
        {
            let index = frame_index(width, height, col, row, destination.len());
            let red = source[4 * index] as u32;
            let green = source[4 * index + 1] as u32;
            let blue = source[4 * index + 2] as u32;
            let ghost before = destination@;
            destination[index] = opaque(red * 0x1_0000 + green * 0x100 + blue);
            proof {
                assert forall|px: int, py: int| #![trigger pixel_index(width, px, py)]
                    on_frame(width, height, px, py) && !(px == col && py == row)
                    implies destination@[pixel_index(width, px, py)] == before[pixel_index(width, px, py)] by {
                    lemma_index_in_frame(width, height, px, py);
                    if pixel_index(width, px, py) == pixel_index(width, col as int, row as int) {
                        lemma_index_unique(width, px, py, col as int, row as int);
                    }
                }
            }
            col = col + 1;
        }
        row = row + 1;
    }
}

/// How many times drawing a rectangle's outline covers `(x, y)`: once per
/// side the pixel lies on (twice on a one-pixel-high or -wide rectangle).
pub open spec fn outline_hits(rect: IntRect, x: int, y: int) -> nat {
    if rect.right <= rect.left || rect.bottom <= rect.top {
        0
    } else {
        let on_columns = rect.left <= x < rect.right;
        let on_rows = rect.top <= y < rect.bottom;
        ((if on_columns && y == rect.top { 1nat } else { 0nat })
            + (if on_columns && y == rect.bottom - 1 { 1nat } else { 0nat })
            + (if on_rows && x == rect.left { 1nat } else { 0nat })
            + (if on_rows && x == rect.right - 1 { 1nat } else { 0nat })) as nat
    }
}

/// `color` blended over `p` `n` times.
pub open spec fn blended_times(p: u32, color: u32, n: nat) -> u32
    decreases n,
{
    if n == 0 { p } else { alpha_blend_spec(blended_times(p, color, (n - 1) as nat), color) }
}

/// Hits of the outline on `(x, y)` from the top and bottom rows, for columns before `cx`.
pub open spec fn row_hits(rect: IntRect, x: int, y: int, cx: int) -> nat {
    let on = rect.left <= x < cx;
    ((if on && y == rect.top { 1nat } else { 0nat }) + (if on && y == rect.bottom - 1 { 1nat } else { 0nat })) as nat
}

/// Hits of the outline on `(x, y)` from the left and right columns, for rows before `cy`.
pub open spec fn column_hits(rect: IntRect, x: int, y: int, cy: int) -> nat {
    let on = rect.top <= y < cy;
    ((if on && x == rect.left { 1nat } else { 0nat }) + (if on && x == rect.right - 1 { 1nat } else { 0nat })) as nat
}

/// The frame pixel at `(x, y)` after one more blend when it is `(tx, ty)`.
proof fn lemma_put_pixel_step(before: Seq<u32>, after: Seq<u32>, start: Seq<u32>, width: u32, height: u32,
    tx: int, ty: int, color: u32, x: int, y: int, n: nat)
    requires
        on_frame(width, height, x, y),
        before[pixel_index(width, x, y)] == blended_times(start[pixel_index(width, x, y)], color, n),
        on_frame(width, height, tx, ty) ==> after == before.update(pixel_index(width, tx, ty),
            alpha_blend_spec(before[pixel_index(width, tx, ty)], color)),
        !on_frame(width, height, tx, ty) ==> after == before,
        before.len() == after.len(),
        width as int * height as int <= before.len(),
    ensures
        after[pixel_index(width, x, y)] == blended_times(start[pixel_index(width, x, y)], color,
            if x == tx && y == ty { n + 1 } else { n }),
{
    lemma_index_in_frame(width, height, x, y);
    if on_frame(width, height, tx, ty) {
        lemma_index_in_frame(width, height, tx, ty);
        if !(x == tx && y == ty) && pixel_index(width, x, y) == pixel_index(width, tx, ty) {
            lemma_index_unique(width, x, y, tx, ty);
        }
    }
}

proof fn lemma_put_pixel_tail(before: Seq<u32>, after: Seq<u32>, width: u32, height: u32, tx: int, ty: int, color: u32)
    requires
        on_frame(width, height, tx, ty) ==> after == before.update(pixel_index(width, tx, ty),
            alpha_blend_spec(before[pixel_index(width, tx, ty)], color)),
        !on_frame(width, height, tx, ty) ==> after == before,
        before.len() == after.len(),
    ensures
        forall|i: int| width as int * height as int <= i < before.len() ==> after[i] == before[i],
{
    if on_frame(width, height, tx, ty) {
        lemma_index_in_frame(width, height, tx, ty);
    }
}

/// Outlines `rect` in `color` with one-pixel lines, clipped to the frame;
/// a pixel on two sides is blended twice.
pub fn stroke_rect(frame: &mut [u32], width: u32, height: u32, rect: IntRect, color: u32)
    requires
        frame_fits(old(frame)@, width, height),
    ensures
        final(frame)@.len() == old(frame)@.len(),
        forall|x: int, y: int| #![trigger pixel_index(width, x, y)]
            on_frame(width, height, x, y) ==> final(frame)@[pixel_index(width, x, y)]
                == blended_times(old(frame)@[pixel_index(width, x, y)], color, outline_hits(rect, x, y)),
        forall|i: int| width as int * height as int <= i < old(frame)@.len() ==> final(frame)@[i] == old(frame)@[i],
{
    let ghost start = frame@;
    if rect.right <= rect.left || rect.bottom <= rect.top {
        assert forall|x: int, y: int| #![trigger pixel_index(width, x, y)]
            on_frame(width, height, x, y) implies frame@[pixel_index(width, x, y)]
                == blended_times(start[pixel_index(width, x, y)], color, outline_hits(rect, x, y)) by {}
        return;
    }
    let mut x = rect.left;
    while x < rect.right
        invariant
            frame_fits(start, width, height),
            rect.left <= x <= rect.right,
            rect.top < rect.bottom,
            frame@.len() == start.len(),
            forall|px: int, py: int| #![trigger pixel_index(width, px, py)]
                on_frame(width, height, px, py) ==> frame@[pixel_index(width, px, py)]
                    == blended_times(start[pixel_index(width, px, py)], color, row_hits(rect, px, py, x as int)),
            forall|i: int| width as int * height as int <= i < start.len() ==> frame@[i] == start[i],
        decreases rect.right - x,
    {
        let ghost f0 = frame@;
        crate::overlay::pixels::put_pixel(frame, width, height, x, rect.top, color);
        let ghost f1 = frame@;
        proof {
            lemma_put_pixel_tail(f0, f1, width, height, x as int, rect.top as int, color);
            assert forall|px: int, py: int| #![trigger pixel_index(width, px, py)]
                on_frame(width, height, px, py) implies f1[pixel_index(width, px, py)]
                    == blended_times(start[pixel_index(width, px, py)], color,
                        (row_hits(rect, px, py, x as int) + if px == x && py == rect.top { 1nat } else { 0nat }) as nat) by {
                lemma_put_pixel_step(f0, f1, start, width, height, x as int, rect.top as int, color, px, py,
                    row_hits(rect, px, py, x as int));
            }
        }
        crate::overlay::pixels::put_pixel(frame, width, height, x, rect.bottom - 1, color);
        proof {
            lemma_put_pixel_tail(f1, frame@, width, height, x as int, rect.bottom - 1, color);
            assert forall|px: int, py: int| #![trigger pixel_index(width, px, py)]
                on_frame(width, height, px, py) implies frame@[pixel_index(width, px, py)]
                    == blended_times(start[pixel_index(width, px, py)], color, row_hits(rect, px, py, x + 1)) by {
                lemma_put_pixel_step(f1, frame@, start, width, height, x as int, rect.bottom - 1, color, px, py,
                    (row_hits(rect, px, py, x as int) + if px == x && py == rect.top { 1nat } else { 0nat }) as nat);
            }
        }
        x = x + 1;
    }
    let mut y = rect.top;
    while y < rect.bottom
        invariant
            frame_fits(start, width, height),
            rect.left < rect.right,
            rect.top <= y <= rect.bottom,
            frame@.len() == start.len(),
            forall|px: int, py: int| #![trigger pixel_index(width, px, py)]
                on_frame(width, height, px, py) ==> frame@[pixel_index(width, px, py)]
                    == blended_times(start[pixel_index(width, px, py)], color,
                        (row_hits(rect, px, py, rect.right as int) + column_hits(rect, px, py, y as int)) as nat),
            forall|i: int| width as int * height as int <= i < start.len() ==> frame@[i] == start[i],
        decreases rect.bottom - y,
    {
        let ghost f0 = frame@;
        crate::overlay::pixels::put_pixel(frame, width, height, rect.left, y, color);
        let ghost f1 = frame@;
        proof {
            lemma_put_pixel_tail(f0, f1, width, height, rect.left as int, y as int, color);
            assert forall|px: int, py: int| #![trigger pixel_index(width, px, py)]
                on_frame(width, height, px, py) implies f1[pixel_index(width, px, py)]
                    == blended_times(start[pixel_index(width, px, py)], color,
                        (row_hits(rect, px, py, rect.right as int) + column_hits(rect, px, py, y as int)
                            + if px == rect.left && py == y { 1nat } else { 0nat }) as nat) by {
                lemma_put_pixel_step(f0, f1, start, width, height, rect.left as int, y as int, color, px, py,
                    (row_hits(rect, px, py, rect.right as int) + column_hits(rect, px, py, y as int)) as nat);
            }
        }
        crate::overlay::pixels::put_pixel(frame, width, height, rect.right - 1, y, color);
        proof {
            lemma_put_pixel_tail(f1, frame@, width, height, rect.right - 1, y as int, color);
            assert forall|px: int, py: int| #![trigger pixel_index(width, px, py)]
                on_frame(width, height, px, py) implies frame@[pixel_index(width, px, py)]
                    == blended_times(start[pixel_index(width, px, py)], color,
                        (row_hits(rect, px, py, rect.right as int) + column_hits(rect, px, py, y + 1)) as nat) by {
                lemma_put_pixel_step(f1, frame@, start, width, height, rect.right - 1, y as int, color, px, py,
                    (row_hits(rect, px, py, rect.right as int) + column_hits(rect, px, py, y as int)
                        + if px == rect.left && py == y { 1nat } else { 0nat }) as nat);
            }
        }
        y = y + 1;
    }
    proof {
        assert forall|px: int, py: int| #![trigger pixel_index(width, px, py)]
            on_frame(width, height, px, py) implies
            (row_hits(rect, px, py, rect.right as int) + column_hits(rect, px, py, rect.bottom as int)) as nat
                == outline_hits(rect, px, py) by {}
    }
}

/// The square of a resize handle: `size / 2` pixels (rounded toward zero)
/// each side of the centre.
pub open spec fn handle_rect_spec(center: CursorPoint, size: int) -> IntRect {
    let half = if size >= 0 { size / 2 } else { -((-size) / 2) };
    IntRect {
        left: (center.x - half) as i32,
        top: (center.y - half) as i32,
        right: (center.x + half + 1) as i32,
        bottom: (center.y + half + 1) as i32,
    }
}

/// Draws a resize handle: a square filled with `fill` and outlined with `border`.
pub fn draw_handle_square(frame: &mut [u32], width: u32, height: u32, center: CursorPoint, size: i32, fill: u32, border: u32)
    requires
        frame_fits(old(frame)@, width, height),
        fits_i32(center.x - (if size >= 0 { size / 2 } else { -((-size) / 2) })),
        fits_i32(center.y - (if size >= 0 { size / 2 } else { -((-size) / 2) })),
        fits_i32(center.x + (if size >= 0 { size / 2 } else { -((-size) / 2) })),
        fits_i32(center.y + (if size >= 0 { size / 2 } else { -((-size) / 2) })),
        fits_i32(center.x + (if size >= 0 { size / 2 } else { -((-size) / 2) }) + 1),
        fits_i32(center.y + (if size >= 0 { size / 2 } else { -((-size) / 2) }) + 1),
    ensures
        final(frame)@.len() == old(frame)@.len(),
        forall|x: int, y: int| #![trigger pixel_index(width, x, y)]
            on_frame(width, height, x, y) ==> final(frame)@[pixel_index(width, x, y)] == blended_times(
                if in_int_rect(handle_rect_spec(center, size as int), x, y) {
                    alpha_blend_spec(old(frame)@[pixel_index(width, x, y)], fill)
                } else {
                    old(frame)@[pixel_index(width, x, y)]
                },
                border,
                outline_hits(handle_rect_spec(center, size as int), x, y),
            ),
        forall|i: int| width as int * height as int <= i < old(frame)@.len() ==> final(frame)@[i] == old(frame)@[i],
{
    let half = size / 2;
    let rect = IntRect {
        left: center.x - half,
        top: center.y - half,
        right: center.x + half + 1,
        bottom: center.y + half + 1,
    };
    assert(rect == handle_rect_spec(center, size as int));
    fill_rect(frame, width, height, rect, fill);
    stroke_rect(frame, width, height, rect, border);
}

} // verus!
