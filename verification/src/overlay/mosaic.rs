use crate::geometry::spec_clamp;
use crate::overlay::pixels::{
    blue_of, frame_fits, frame_index, green_of, lemma_index_in_frame, lemma_index_unique, on_frame,
    opaque_spec, pixel_index, red_of, rgb_spec,
};
use crate::overlay::types::{NormalizedRect, ShapeStyle, MAX_MOSAIC_SIZE, MIN_MOSAIC_SIZE};
use vstd::prelude::*;

verus! {

/// The largest mosaic block handled; it keeps a block's channel sums well within `u32`.
pub const MAX_MOSAIC_BLOCK: i32 = 4096;

/// The size of a mosaic's blocks for a style: its stroke width, clamped to
/// the mosaic range.
pub fn mosaic_block_size(style: ShapeStyle) -> (r: i32)
    ensures
        r == spec_clamp(style.stroke as int, MIN_MOSAIC_SIZE as int, MAX_MOSAIC_SIZE as int),
{
    let s = if style.stroke < MIN_MOSAIC_SIZE {
        MIN_MOSAIC_SIZE
    } else if style.stroke > MAX_MOSAIC_SIZE {
        MAX_MOSAIC_SIZE
    } else {
        style.stroke
    };
    s as i32
}

/// One channel of a pixel: 0 red, 1 green, 2 blue.
pub open spec fn channel(p: u32, ch: int) -> int {
    if ch == 0 { red_of(p) } else if ch == 1 { green_of(p) } else { blue_of(p) }
}

/// The sum of one channel over pixels `x0..x1` of row `y`.
pub open spec fn row_sum(f: Seq<u32>, width: u32, y: int, x0: int, x1: int, ch: int) -> int
    decreases x1 - x0,
{
    if x1 <= x0 {
        0
    } else {
        row_sum(f, width, y, x0, x1 - 1, ch) + channel(f[pixel_index(width, x1 - 1, y)], ch)
    }
}

/// The sum of one channel over the block `x0..x1` by `y0..y1`.
pub open spec fn block_sum(f: Seq<u32>, width: u32, x0: int, x1: int, y0: int, y1: int, ch: int) -> int
    decreases y1 - y0,
{
    if y1 <= y0 {
        0
    } else {
        block_sum(f, width, x0, x1, y0, y1 - 1, ch) + row_sum(f, width, y1 - 1, x0, x1, ch)
    }
}

/// The colour a mosaic block takes: each channel the average (rounded down)
/// of the block's pixels, opaque.
pub open spec fn block_color(f: Seq<u32>, width: u32, x0: int, x1: int, y0: int, y1: int) -> u32 {
    let count = (x1 - x0) * (y1 - y0);
    opaque_spec(rgb_spec(
        block_sum(f, width, x0, x1, y0, y1, 0) / count,
        block_sum(f, width, x0, x1, y0, y1, 1) / count,
        block_sum(f, width, x0, x1, y0, y1, 2) / count,
    ))
}

/// Where the block holding `v` starts, counting blocks of `size` from `base`.
pub open spec fn cell_start(base: int, v: int, size: int) -> int {
    base + ((v - base) / size) * size
}

/// The part of `rect` on a `width` by `height` frame.
pub open spec fn mosaic_bounds(rect: NormalizedRect, width: u32, height: u32) -> (int, int, int, int) {
    (
        if rect.left < 0 { 0 } else { rect.left as int },
        if rect.top < 0 { 0 } else { rect.top as int },
        if rect.right > width { width as int } else { rect.right as int },
        if rect.bottom > height { height as int } else { rect.bottom as int },
    )
}

/// The block size used: at least two pixels.
pub open spec fn effective_block(block_size: i32) -> int {
    if block_size < 2 { 2 } else { block_size as int }
}

/// A pixel after the mosaic: inside the mosaic's part of the frame, the
/// colour of its block, blocks laid out from the top-left corner of that
/// part and cut at its edges; elsewhere as it was.
pub open spec fn mosaic_pixel(f: Seq<u32>, width: u32, height: u32, rect: NormalizedRect, size: int, x: int, y: int) -> u32 {
    let (bl, bt, br, bb) = mosaic_bounds(rect, width, height);
    if bl <= x < br && bt <= y < bb {
        let ox = cell_start(bl, x, size);
        let oy = cell_start(bt, y, size);
        block_color(f, width, ox, if ox + size < br { ox + size } else { br }, oy,
            if oy + size < bb { oy + size } else { bb })
    } else {
        f[pixel_index(width, x, y)]
    }
}

proof fn lemma_channel_bound(p: u32, ch: int)
    ensures
        0 <= channel(p, ch) <= 255,
{
}

proof fn lemma_row_sum_bounds(f: Seq<u32>, width: u32, y: int, x0: int, x1: int, ch: int)
    requires
        x0 <= x1,
    ensures
        0 <= row_sum(f, width, y, x0, x1, ch) <= 255 * (x1 - x0),
    decreases x1 - x0,
{
    if x1 > x0 {
        lemma_row_sum_bounds(f, width, y, x0, x1 - 1, ch);
        lemma_channel_bound(f[pixel_index(width, x1 - 1, y)], ch);
    }
}

proof fn lemma_block_sum_bounds(f: Seq<u32>, width: u32, x0: int, x1: int, y0: int, y1: int, ch: int)
    requires
        x0 <= x1,
        y0 <= y1,
    ensures
        0 <= block_sum(f, width, x0, x1, y0, y1, ch) <= 255 * ((x1 - x0) * (y1 - y0)),
    decreases y1 - y0,
{
    if y1 > y0 {
        lemma_block_sum_bounds(f, width, x0, x1, y0, y1 - 1, ch);
        lemma_row_sum_bounds(f, width, y1 - 1, x0, x1, ch);
        assert((x1 - x0) * (y1 - 1 - y0) + (x1 - x0) == (x1 - x0) * (y1 - y0)) by (nonlinear_arith);
    }
}

/// Sums over a block depend only on the block's pixels.
proof fn lemma_block_sum_local(f: Seq<u32>, g: Seq<u32>, width: u32, x0: int, x1: int, y0: int, y1: int, ch: int)
    requires
        forall|x: int, y: int| #![trigger pixel_index(width, x, y)]
            x0 <= x < x1 && y0 <= y < y1 ==> f[pixel_index(width, x, y)] == g[pixel_index(width, x, y)],
    ensures
        block_sum(f, width, x0, x1, y0, y1, ch) == block_sum(g, width, x0, x1, y0, y1, ch),
    decreases y1 - y0,
{
    if y1 > y0 {
        lemma_block_sum_local(f, g, width, x0, x1, y0, y1 - 1, ch);
        lemma_row_sum_local(f, g, width, y1 - 1, x0, x1, ch);
    }
}

proof fn lemma_row_sum_local(f: Seq<u32>, g: Seq<u32>, width: u32, y: int, x0: int, x1: int, ch: int)
    requires
        forall|x: int| #![trigger pixel_index(width, x, y)]
            x0 <= x < x1 ==> f[pixel_index(width, x, y)] == g[pixel_index(width, x, y)],
    ensures
        row_sum(f, width, y, x0, x1, ch) == row_sum(g, width, y, x0, x1, ch),
    decreases x1 - x0,
{
    if x1 > x0 {
        lemma_row_sum_local(f, g, width, y, x0, x1 - 1, ch);
    }
}

/// The channel sums of the block `x0..x1` by `y0..y1`.
fn block_sums(frame: &[u32], width: u32, height: u32, x0: u32, x1: u32, y0: u32, y1: u32) -> (r: (u64, u64, u64))
    requires
        frame_fits(frame@, width, height),
        x0 < x1 <= width,
        y0 < y1 <= height,
        x1 - x0 <= MAX_MOSAIC_BLOCK,
        y1 - y0 <= MAX_MOSAIC_BLOCK,
    ensures
        r.0 == block_sum(frame@, width, x0 as int, x1 as int, y0 as int, y1 as int, 0),
        r.1 == block_sum(frame@, width, x0 as int, x1 as int, y0 as int, y1 as int, 1),
        r.2 == block_sum(frame@, width, x0 as int, x1 as int, y0 as int, y1 as int, 2),
{
    let mut sr: u64 = 0;
    let mut sg: u64 = 0;
    let mut sb: u64 = 0;
    let mut y = y0;
    while y < y1
        invariant
            frame_fits(frame@, width, height),
            x0 < x1 <= width,
            y0 <= y <= y1 <= height,
            x1 - x0 <= MAX_MOSAIC_BLOCK,
            y1 - y0 <= MAX_MOSAIC_BLOCK,
            sr == block_sum(frame@, width, x0 as int, x1 as int, y0 as int, y as int, 0),
            sg == block_sum(frame@, width, x0 as int, x1 as int, y0 as int, y as int, 1),
            sb == block_sum(frame@, width, x0 as int, x1 as int, y0 as int, y as int, 2),
        decreases y1 - y,
    {
        proof {
            lemma_block_sum_bounds(frame@, width, x0 as int, x1 as int, y0 as int, y as int, 0);
            lemma_block_sum_bounds(frame@, width, x0 as int, x1 as int, y0 as int, y as int, 1);
            lemma_block_sum_bounds(frame@, width, x0 as int, x1 as int, y0 as int, y as int, 2);
            assert((x1 - x0) * (y - y0) <= 4096 * 4096) by (nonlinear_arith)
                requires x1 - x0 <= 4096, 0 <= y - y0 <= 4096;
        }
        let mut x = x0;
        while x < x1
            invariant
                frame_fits(frame@, width, height),
                x0 <= x <= x1 <= width,
                y0 <= y < y1 <= height,
                x1 - x0 <= MAX_MOSAIC_BLOCK,
                y1 - y0 <= MAX_MOSAIC_BLOCK,
                sr == block_sum(frame@, width, x0 as int, x1 as int, y0 as int, y as int, 0)
                    + row_sum(frame@, width, y as int, x0 as int, x as int, 0),
                sg == block_sum(frame@, width, x0 as int, x1 as int, y0 as int, y as int, 1)
                    + row_sum(frame@, width, y as int, x0 as int, x as int, 1),
                sb == block_sum(frame@, width, x0 as int, x1 as int, y0 as int, y as int, 2)
                    + row_sum(frame@, width, y as int, x0 as int, x as int, 2),
                sr <= 255 * 4096 * 4096 + 255 * (x - x0),
                sg <= 255 * 4096 * 4096 + 255 * (x - x0),
                sb <= 255 * 4096 * 4096 + 255 * (x - x0),
            decreases x1 - x,
        {
            let index = frame_index(width, height, x, y, frame.len());
            let p = frame[index];
            sr = sr + ((p / 0x1_0000) % 0x100) as u64;
            sg = sg + ((p / 0x100) % 0x100) as u64;
            sb = sb + (p % 0x100) as u64;
            x = x + 1;
        }
        y = y + 1;
    }
    (sr, sg, sb)
}

/// Sets every pixel of the block `x0..x1` by `y0..y1` to `color`.
fn set_block(frame: &mut [u32], width: u32, height: u32, x0: u32, x1: u32, y0: u32, y1: u32, color: u32)
    requires
        frame_fits(old(frame)@, width, height),
        x0 <= x1 <= width,
        y0 <= y1 <= height,
    ensures
        final(frame)@.len() == old(frame)@.len(),
        forall|px: int, py: int| #![trigger pixel_index(width, px, py)]
            on_frame(width, height, px, py) ==> final(frame)@[pixel_index(width, px, py)]
                == if x0 <= px < x1 && y0 <= py < y1 { color } else { old(frame)@[pixel_index(width, px, py)] },
        forall|i: int| width as int * height as int <= i < old(frame)@.len() ==> final(frame)@[i] == old(frame)@[i],
{
    let ghost start = frame@;
    let mut y = y0;
    while y < y1
        invariant
            frame_fits(start, width, height),
            x0 <= x1 <= width,
            y0 <= y <= y1 <= height,
            frame@.len() == start.len(),
            forall|px: int, py: int| #![trigger pixel_index(width, px, py)]
                on_frame(width, height, px, py) ==> frame@[pixel_index(width, px, py)]
                    == if x0 <= px < x1 && y0 <= py < y { color } else { start[pixel_index(width, px, py)] },
            forall|i: int| width as int * height as int <= i < start.len() ==> frame@[i] == start[i],
        decreases y1 - y,
    {
        let mut x = x0;
        while x < x1
            invariant
                frame_fits(start, width, height),
                x0 <= x <= x1 <= width,
                y0 <= y < y1 <= height,
                frame@.len() == start.len(),
                forall|px: int, py: int| #![trigger pixel_index(width, px, py)]
                    on_frame(width, height, px, py) ==> frame@[pixel_index(width, px, py)]
                        == if (x0 <= px < x1 && y0 <= py < y) || (py == y && x0 <= px < x) {
                            color
                        } else {
                            start[pixel_index(width, px, py)]
                        },
                forall|i: int| width as int * height as int <= i < start.len() ==> frame@[i] == start[i],
            decreases x1 - x,
        {
            let index = frame_index(width, height, x, y, frame.len());
            let ghost before = frame@;
            frame[index] = color;
            proof {
                assert forall|px: int, py: int| #![trigger pixel_index(width, px, py)]
                    on_frame(width, height, px, py) && !(px == x && py == y)
                    implies frame@[pixel_index(width, px, py)] == before[pixel_index(width, px, py)] by {
                    lemma_index_in_frame(width, height, px, py);
                    if pixel_index(width, px, py) == pixel_index(width, x as int, y as int) {
                        lemma_index_unique(width, px, py, x as int, y as int);
                    }
                }
            }
            x = x + 1;
        }
        y = y + 1;
    }
}

/// A value in the block starting `k` blocks after `base` has that block's start.
proof fn lemma_cell(base: int, v: int, size: int, k: int)
    requires
        size > 0,
        k >= 0,
        base + k * size <= v < base + k * size + size,
    ensures
        cell_start(base, v, size) == base + k * size,
{
    vstd::arithmetic::div_mod::lemma_fundamental_div_mod_converse(v - base, size, k, v - base - k * size);
}

/// Block starts are `base` plus whole blocks.
proof fn lemma_cell_is_multiple(base: int, v: int, size: int)
    requires
        size > 0,
        v >= base,
    ensures
        (v - base) / size >= 0,
        cell_start(base, v, size) == base + ((v - base) / size) * size,
        cell_start(base, v, size) <= v < cell_start(base, v, size) + size,
{
    vstd::arithmetic::div_mod::lemma_fundamental_div_mod(v - base, size);
    vstd::arithmetic::div_mod::lemma_div_pos_is_pos(v - base, size);
    vstd::arithmetic::div_mod::lemma_mod_pos_bound(v - base, size);
    let q = (v - base) / size;
    assert(size * q == q * size) by (nonlinear_arith);
}

/// Two block starts, one of them `k` blocks after `base`, compare as their block counts do.
proof fn lemma_multiples_order(base: int, size: int, m: int, k: int)
    requires
        size > 0,
    ensures
        base + m * size < base + k * size + size ==> base + m * size <= base + k * size,
        base + m * size < base + k * size ==> m < k,
        m < k ==> base + m * size < base + k * size,
        m == k <==> base + m * size == base + k * size,
{
    assert(base + m * size < base + k * size + size ==> m <= k) by (nonlinear_arith)
        requires size > 0;
    assert(m <= k ==> m * size <= k * size) by (nonlinear_arith)
        requires size > 0;
    assert(m < k ==> m * size < k * size) by (nonlinear_arith)
        requires size > 0;
    assert(base + m * size < base + k * size ==> m < k) by (nonlinear_arith)
        requires size > 0;
    assert(m * size == k * size ==> m == k) by (nonlinear_arith)
        requires size > 0;
}

/// The pixels of the mosaic done so far: every block whose row starts
/// before `by`, and the blocks of row `by` starting before `bx`.
pub open spec fn mosaic_done(rect: NormalizedRect, width: u32, height: u32, size: int, x: int, y: int, bx: int, by: int) -> bool {
    let (bl, bt, br, bb) = mosaic_bounds(rect, width, height);
    &&& bl <= x < br
    &&& bt <= y < bb
    &&& (cell_start(bt, y, size) < by || (cell_start(bt, y, size) == by && cell_start(bl, x, size) < bx))
}

/// Replaces the part of `rect` on the frame by a mosaic: blocks of
/// `block_size` pixels (at least two) from its top-left corner, each
/// painted opaque in the average colour of its pixels.
pub fn draw_mosaic_rect(frame: &mut [u32], width: u32, height: u32, rect: NormalizedRect, block_size: i32)
    requires
        frame_fits(old(frame)@, width, height),
        block_size <= MAX_MOSAIC_BLOCK,
    ensures
        final(frame)@.len() == old(frame)@.len(),
        forall|x: int, y: int| #![trigger pixel_index(width, x, y)]
            on_frame(width, height, x, y) ==> final(frame)@[pixel_index(width, x, y)]
                == mosaic_pixel(old(frame)@, width, height, rect, effective_block(block_size), x, y),
        forall|i: int| width as int * height as int <= i < old(frame)@.len() ==> final(frame)@[i] == old(frame)@[i],
{
    let ghost start = frame@;
    let bs: i64 = if block_size < 2 { 2 } else { block_size as i64 };
    let ghost size = effective_block(block_size);
    let bl: i64 = if rect.left < 0 { 0 } else { rect.left as i64 };
    let bt: i64 = if rect.top < 0 { 0 } else { rect.top as i64 };
    let br: i64 = if (rect.right as i64) > (width as i64) { width as i64 } else { rect.right as i64 };
    let bb: i64 = if (rect.bottom as i64) > (height as i64) { height as i64 } else { rect.bottom as i64 };
    assert(mosaic_bounds(rect, width, height) == (bl as int, bt as int, br as int, bb as int));
    let mut by: i64 = bt;
    let ghost mut ky: int = 0;
    while by < bb
        invariant
            frame_fits(start, width, height),
            frame@.len() == start.len(),
            size == bs,
            2 <= bs <= MAX_MOSAIC_BLOCK,
            mosaic_bounds(rect, width, height) == (bl as int, bt as int, br as int, bb as int),
            0 <= bl,
            0 <= bt,
            br <= width,
            bb <= height,
            ky >= 0,
            by == bt + ky * bs,
            by <= i32::MAX + 4096,
            forall|px: int, py: int| #![trigger pixel_index(width, px, py)]
                on_frame(width, height, px, py) ==> frame@[pixel_index(width, px, py)]
                    == if mosaic_done(rect, width, height, size, px, py, bl as int, by as int) {
                        mosaic_pixel(start, width, height, rect, size, px, py)
                    } else {
                        start[pixel_index(width, px, py)]
                    },
            forall|i: int| width as int * height as int <= i < start.len() ==> frame@[i] == start[i],
        decreases bb + bs - by,
    {
        let mut bx: i64 = bl;
        let ghost mut kx: int = 0;
        while bx < br
            invariant
                frame_fits(start, width, height),
                frame@.len() == start.len(),
                size == bs,
                2 <= bs <= MAX_MOSAIC_BLOCK,
                mosaic_bounds(rect, width, height) == (bl as int, bt as int, br as int, bb as int),
                0 <= bl,
                0 <= bt,
                br <= width,
                bb <= height,
                ky >= 0,
                by == bt + ky * bs,
                bt <= by < bb,
                kx >= 0,
                bx == bl + kx * bs,
                bx <= i32::MAX + 4096,
                forall|px: int, py: int| #![trigger pixel_index(width, px, py)]
                    on_frame(width, height, px, py) ==> frame@[pixel_index(width, px, py)]
                        == if mosaic_done(rect, width, height, size, px, py, bx as int, by as int) {
                            mosaic_pixel(start, width, height, rect, size, px, py)
                        } else {
                            start[pixel_index(width, px, py)]
                        },
                forall|i: int| width as int * height as int <= i < start.len() ==> frame@[i] == start[i],
            decreases br + bs - bx,
        {
            let xr: i64 = if bx + bs < br { bx + bs } else { br };
            let yb: i64 = if by + bs < bb { by + bs } else { bb };
            proof {
                assert forall|px: int, py: int|
                    bx <= px < xr && by <= py < yb implies
                    cell_start(bl as int, px, size) == bx && cell_start(bt as int, py, size) == by by {
                    lemma_cell(bl as int, px, size, kx);
                    lemma_cell(bt as int, py, size, ky);
                }
                assert forall|px: int, py: int| #![trigger pixel_index(width, px, py)]
                    bx <= px < xr && by <= py < yb implies
                    frame@[pixel_index(width, px, py)] == start[pixel_index(width, px, py)] by {
                    lemma_cell(bl as int, px, size, kx);
                    lemma_cell(bt as int, py, size, ky);
                    assert(on_frame(width, height, px, py));
                }
                lemma_block_sum_local(frame@, start, width, bx as int, xr as int, by as int, yb as int, 0);
                lemma_block_sum_local(frame@, start, width, bx as int, xr as int, by as int, yb as int, 1);
                lemma_block_sum_local(frame@, start, width, bx as int, xr as int, by as int, yb as int, 2);
                lemma_block_sum_bounds(start, width, bx as int, xr as int, by as int, yb as int, 0);
                lemma_block_sum_bounds(start, width, bx as int, xr as int, by as int, yb as int, 1);
                lemma_block_sum_bounds(start, width, bx as int, xr as int, by as int, yb as int, 2);
            }
            let (sr, sg, sb) = block_sums(frame, width, height, bx as u32, xr as u32, by as u32, yb as u32);
            assert(0 < (xr - bx) * (yb - by) <= 4096 * 4096) by (nonlinear_arith)
                requires 0 < xr - bx <= 4096, 0 < yb - by <= 4096;
            let count: u64 = ((xr - bx) * (yb - by)) as u64;
            assert(sr / count <= 255 && sg / count <= 255 && sb / count <= 255) by (nonlinear_arith)
                requires
                    sr <= 255 * count,
                    sg <= 255 * count,
                    sb <= 255 * count,
                    count > 0;
            let red: u32 = (sr / count) as u32;
            let green: u32 = (sg / count) as u32;
            let blue: u32 = (sb / count) as u32;
            let color: u32 = 0xff00_0000 + red * 0x1_0000 + green * 0x100 + blue;
            assert(color == block_color(start, width, bx as int, xr as int, by as int, yb as int));
            let ghost before = frame@;
            set_block(frame, width, height, bx as u32, xr as u32, by as u32, yb as u32, color);
            proof {
                assert forall|px: int, py: int| #![trigger pixel_index(width, px, py)]
                    on_frame(width, height, px, py) implies frame@[pixel_index(width, px, py)]
                        == if mosaic_done(rect, width, height, size, px, py, bx + bs, by as int) {
                            mosaic_pixel(start, width, height, rect, size, px, py)
                        } else {
                            start[pixel_index(width, px, py)]
                        } by {
                    if bl <= px < br && bt <= py < bb {
                        lemma_cell_is_multiple(bl as int, px, size);
                        lemma_cell_is_multiple(bt as int, py, size);
                        let m = (px - bl) / size;
                        let n = (py - bt) / size;
                        lemma_multiples_order(bl as int, size, m, kx);
                        lemma_multiples_order(bt as int, size, n, ky);
                        lemma_multiples_order(bl as int, size, m, kx + 1);
                        if bx <= px < xr && by <= py < yb {
                            lemma_cell(bl as int, px, size, kx);
                            lemma_cell(bt as int, py, size, ky);
                        } else {
                            if cell_start(bt as int, py, size) == by && cell_start(bl as int, px, size) == bx {
                                assert(bx <= px < bx + bs && by <= py < by + bs);
                            }
                        }
                    }
                }
            }
            bx = bx + bs;
            proof {
                assert(bl + (kx + 1) * bs == bl + kx * bs + bs) by (nonlinear_arith);
                kx = kx + 1;
            }
        }
        proof {
            assert forall|px: int, py: int| #![trigger pixel_index(width, px, py)]
                on_frame(width, height, px, py) implies
                mosaic_done(rect, width, height, size, px, py, bx as int, by as int)
                    == mosaic_done(rect, width, height, size, px, py, bl as int, by + bs) by {
                if bl <= px < br && bt <= py < bb {
                    lemma_cell_is_multiple(bl as int, px, size);
                    lemma_cell_is_multiple(bt as int, py, size);
                    let n = (py - bt) / size;
                    lemma_multiples_order(bt as int, size, n, ky);
                    lemma_multiples_order(bt as int, size, n, ky + 1);
                }
            }
        }
        by = by + bs;
        proof {
            assert(bt + (ky + 1) * bs == bt + ky * bs + bs) by (nonlinear_arith);
            ky = ky + 1;
        }
    }
    proof {
        assert forall|px: int, py: int| #![trigger pixel_index(width, px, py)]
            on_frame(width, height, px, py) implies frame@[pixel_index(width, px, py)]
                == mosaic_pixel(start, width, height, rect, size, px, py) by {
            if bl <= px < br && bt <= py < bb {
                lemma_cell_is_multiple(bt as int, py, size);
                assert(mosaic_done(rect, width, height, size, px, py, bl as int, by as int));
            }
        }
    }
}

} // verus!
