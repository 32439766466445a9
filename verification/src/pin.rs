use crate::notification::fits_i32;
use crate::overlay::pixels::{
    alpha_of, blue_of, frame_fits, frame_index, green_of, lemma_index_in_frame, lemma_index_unique,
    on_frame, pixel_index, red_of,
};
use vstd::prelude::*;

verus! {

/// Room left around a pinned image for its shadow when decoration is on.
pub const DECORATION_PADDING: i32 = 10;
/// The shadow's alpha right next to the image.
pub const SHADOW_ALPHA: u8 = 72;
/// The colour of the frame drawn round a decorated pin.
pub const FRAME_COLOR: u32 = 0xFFE6EEF9;
/// How many pixels wide that frame is.
pub const FRAME_BORDER_THICKNESS: i32 = 1;

/// The context-menu commands of a pinned image, by their menu identifiers.
#[derive(Debug, Clone, Copy, PartialEq, Eq, Structural)]
pub enum PinCommand {
    Copy,
    Save,
    ToggleTopmost,
    ToggleDecoration,
    ResetZoom,
    Close,
}

/// The command a context-menu identifier stands for; `None` when the menu
/// was dismissed (identifier 0) or the identifier is unknown.
pub fn pin_command_of(id: u32) -> (r: Option<PinCommand>)
    ensures
        r == (if id == 1001 {
            Some(PinCommand::Copy)
        } else if id == 1002 {
            Some(PinCommand::Save)
        } else if id == 1003 {
            Some(PinCommand::ToggleTopmost)
        } else if id == 1004 {
            Some(PinCommand::ToggleDecoration)
        } else if id == 1005 {
            Some(PinCommand::ResetZoom)
        } else if id == 1006 {
            Some(PinCommand::Close)
        } else {
            None
        }),
{
    match id {
        1001 => Some(PinCommand::Copy),
        1002 => Some(PinCommand::Save),
        1003 => Some(PinCommand::ToggleTopmost),
        1004 => Some(PinCommand::ToggleDecoration),
        1005 => Some(PinCommand::ResetZoom),
        1006 => Some(PinCommand::Close),
        _ => None,
    }
}

/// Where a pinned image's window and the image inside it go.
#[derive(Debug, Clone, Copy, PartialEq, Eq, Structural)]
pub struct PinLayout {
    pub window_x: i32,
    pub window_y: i32,
    pub window_width: i32,
    pub window_height: i32,
    pub image_left: i32,
    pub image_top: i32,
    pub image_width: i32,
    pub image_height: i32,
}

/// The window of an image shown at `(image_x, image_y)` at its scaled size:
/// the image alone, or with the decoration padding all round it.
pub open spec fn pin_layout_spec(image_x: int, image_y: int, width: int, height: int, decorated: bool) -> PinLayout {
    let p: int = if decorated { DECORATION_PADDING as int } else { 0 };
    PinLayout {
        window_x: (image_x - p) as i32,
        window_y: (image_y - p) as i32,
        window_width: (width + 2 * p) as i32,
        window_height: (height + 2 * p) as i32,
        image_left: p as i32,
        image_top: p as i32,
        image_width: width as i32,
        image_height: height as i32,
    }
}

/// Lays out a pinned image's window.
pub fn pin_layout(image_x: i32, image_y: i32, width: i32, height: i32, decorated: bool) -> (r: PinLayout)
    requires
        fits_i32(image_x - DECORATION_PADDING),
        fits_i32(image_y - DECORATION_PADDING),
        fits_i32(width + 2 * DECORATION_PADDING),
        fits_i32(height + 2 * DECORATION_PADDING),
    ensures
        r == pin_layout_spec(image_x as int, image_y as int, width as int, height as int, decorated),
{
    let p: i32 = if decorated { DECORATION_PADDING } else { 0 };
    PinLayout {
        window_x: image_x - p,
        window_y: image_y - p,
        window_width: width + p * 2,
        window_height: height + p * 2,
        image_left: p,
        image_top: p,
        image_width: width,
        image_height: height,
    }
}

/// Keeps a zoomed image centred where it was: the position moves by half the
/// change of size, rounded toward zero.
pub fn recenter_after_scale(image_x: i32, image_y: i32, old_size: (i32, i32), new_size: (i32, i32)) -> (r: (i32, i32))
    requires
        fits_i32(new_size.0 - old_size.0),
        fits_i32(new_size.1 - old_size.1),
        fits_i32(image_x - crate::notification::div_toward_zero(new_size.0 - old_size.0, 2)),
        fits_i32(image_y - crate::notification::div_toward_zero(new_size.1 - old_size.1, 2)),
    ensures
        r.0 == image_x - crate::notification::div_toward_zero(new_size.0 - old_size.0, 2),
        r.1 == image_y - crate::notification::div_toward_zero(new_size.1 - old_size.1, 2),
{
    (image_x - (new_size.0 - old_size.0) / 2, image_y - (new_size.1 - old_size.1) / 2)
}

/// A colour from its alpha and channels.
pub open spec fn argb_spec(a: int, r: int, g: int, b: int) -> u32 {
    (a * 0x100_0000 + r * 0x1_0000 + g * 0x100 + b) as u32
}

pub fn argb(a: u8, r: u8, g: u8, b: u8) -> (c: u32)
    ensures
        c == argb_spec(a as int, r as int, g as int, b as int),
{
    (a as u32) * 0x100_0000 + (r as u32) * 0x1_0000 + (g as u32) * 0x100 + b as u32
}

/// One channel of premultiplied `src` over `dst`, kept to a byte.
pub open spec fn over_channel(src: int, dst: int, src_alpha: int) -> int {
    (src + (dst * (255 - src_alpha) + 127) / 255) % 0x100
}

/// Premultiplied `src` drawn over premultiplied `dst`: `dst` when `src` is
/// transparent, `src` when it is opaque, else each channel and the alpha
/// as `src + dst * (1 - src alpha)`, rounded.
pub open spec fn blend_argb_spec(dst: u32, src: u32) -> u32 {
    let sa = alpha_of(src);
    if sa == 0 {
        dst
    } else if sa == 255 {
        src
    } else {
        argb_spec(
            over_channel(sa, alpha_of(dst), sa),
            over_channel(red_of(src), red_of(dst), sa),
            over_channel(green_of(src), green_of(dst), sa),
            over_channel(blue_of(src), blue_of(dst), sa),
        )
    }
}

fn over(src: u32, dst: u32, src_alpha: u32) -> (r: u32)
    requires
        src <= 255,
        dst <= 255,
        src_alpha < 255,
    ensures
        r == over_channel(src as int, dst as int, src_alpha as int),
        r <= 255,
{
    assert(dst * (255 - src_alpha) <= 255 * 255) by (nonlinear_arith)
        requires dst <= 255, src_alpha < 255;
    (src + (dst * (255 - src_alpha) + 127) / 255) % 0x100
}

/// Draws premultiplied `src` over premultiplied `dst`.
pub fn blend_argb(dst: u32, src: u32) -> (r: u32)
    ensures
        r == blend_argb_spec(dst, src),
{
    let sa = src / 0x100_0000;
    if sa == 0 {
        return dst;
    }
    if sa == 255 {
        return src;
    }
    let a = over(sa, dst / 0x100_0000, sa);
    let red = over((src / 0x1_0000) % 0x100, (dst / 0x1_0000) % 0x100, sa);
    let green = over((src / 0x100) % 0x100, (dst / 0x100) % 0x100, sa);
    let blue = over(src % 0x100, dst % 0x100, sa);
    a * 0x100_0000 + red * 0x1_0000 + green * 0x100 + blue
}

/// A channel premultiplied by alpha, rounded to nearest.
pub open spec fn premultiply(c: int, a: int) -> int {
    (c * a + 127) / 255
}

/// The layered-window pixel of the RGBA quadruple at `i`: premultiplied by its alpha.
pub open spec fn layered_pixel(bytes: Seq<u8>, i: int) -> u32 {
    let a = bytes[4 * i + 3] as int;
    argb_spec(a, premultiply(bytes[4 * i] as int, a), premultiply(bytes[4 * i + 1] as int, a),
        premultiply(bytes[4 * i + 2] as int, a))
}

fn premultiplied(c: u8, a: u8) -> (r: u32)
    ensures
        r == premultiply(c as int, a as int),
        r <= 255,
{
    assert((c as u32) * (a as u32) <= 255 * 255) by (nonlinear_arith);
    assert(((c as u32) * (a as u32) + 127) / 255 <= 255) by (nonlinear_arith)
        requires (c as u32) * (a as u32) <= 255 * 255;
    ((c as u32) * (a as u32) + 127) / 255
}

/// An RGBA image as premultiplied `0xAARRGGBB` pixels for a layered window.
pub fn rgba_to_layered_pixels(bytes: &[u8]) -> (r: Vec<u32>)
    ensures
        r@.len() == bytes@.len() / 4,
        forall|i: int| 0 <= i < r@.len() ==> #[trigger] r@[i] == layered_pixel(bytes@, i),
{
    let n = bytes.len() / 4;
    let mut out: Vec<u32> = Vec::new();
    let mut i: usize = 0;
    while i < n
        invariant
            i <= n == bytes@.len() / 4,
            bytes@.len() <= usize::MAX,
            out@.len() == i,
            forall|k: int| 0 <= k < i ==> #[trigger] out@[k] == layered_pixel(bytes@, k),
        decreases n - i,
    {
        let a = bytes[4 * i + 3];
        let red = premultiplied(bytes[4 * i], a);
        let green = premultiplied(bytes[4 * i + 1], a);
        let blue = premultiplied(bytes[4 * i + 2], a);
        out.push((a as u32) * 0x100_0000 + red * 0x1_0000 + green * 0x100 + blue);
        i = i + 1;
    }
    out
}

/// How far `v` lies outside `lo..=hi`, zero inside.
pub open spec fn outside_by(v: int, lo: int, hi: int) -> int {
    if v < lo { lo - v } else if v > hi { v - hi } else { 0 }
}

/// The shadow's alpha at `(x, y)` of the window: `None` on the image and
/// beyond the padding; else it fades from the image edge outwards.
pub open spec fn shadow_alpha_spec(layout: PinLayout, x: int, y: int) -> Option<int> {
    let left = layout.image_left as int;
    let top = layout.image_top as int;
    let right = layout.image_left + layout.image_width - 1;
    let bottom = layout.image_top + layout.image_height - 1;
    let dx = outside_by(x, left, right);
    let dy = outside_by(y, top, bottom);
    let d = if dx > dy { dx } else { dy };
    if d <= 0 || d > DECORATION_PADDING {
        None
    } else {
        Some((DECORATION_PADDING - d + 1) * (SHADOW_ALPHA as int) / (DECORATION_PADDING as int))
    }
}

/// A window pixel once the shadow is drawn.
pub open spec fn shadowed(before: u32, layout: PinLayout, x: int, y: int) -> u32 {
    match shadow_alpha_spec(layout, x, y) {
        Some(a) => blend_argb_spec(before, argb_spec(a, 0, 0, 0)),
        None => before,
    }
}

fn shadow_alpha(layout: PinLayout, x: i64, y: i64) -> (r: Option<u8>)
    requires
        -0x1_0000_0000 <= x <= 0x1_0000_0000,
        -0x1_0000_0000 <= y <= 0x1_0000_0000,
    ensures
        match (r, shadow_alpha_spec(layout, x as int, y as int)) {
            (Some(a), Some(b)) => a == b,
            (None, None) => true,
            _ => false,
        },
{
    let left = layout.image_left as i64;
    let top = layout.image_top as i64;
    let right = layout.image_left as i64 + layout.image_width as i64 - 1;
    let bottom = layout.image_top as i64 + layout.image_height as i64 - 1;
    let dx: i64 = if x < left { left - x } else if x > right { x - right } else { 0 };
    let dy: i64 = if y < top { top - y } else if y > bottom { y - bottom } else { 0 };
    let d = if dx > dy { dx } else { dy };
    if d <= 0 || d > DECORATION_PADDING as i64 {
        None
    } else {
        let a = ((DECORATION_PADDING as i64 - d + 1) * SHADOW_ALPHA as i64) / DECORATION_PADDING as i64;
        Some(a as u8)
    }
}

/// Draws the soft shadow round the image of a decorated pin window.
pub fn draw_shadow(frame: &mut [u32], width: u32, height: u32, layout: PinLayout)
    requires
        frame_fits(old(frame)@, width, height),
    ensures
        final(frame)@.len() == old(frame)@.len(),
        forall|x: int, y: int| #![trigger pixel_index(width, x, y)]
            on_frame(width, height, x, y) ==> final(frame)@[pixel_index(width, x, y)]
                == shadowed(old(frame)@[pixel_index(width, x, y)], layout, x, y),
        forall|i: int| width as int * height as int <= i < old(frame)@.len() ==> final(frame)@[i] == old(frame)@[i],
{
    let ghost start = frame@;
    let mut y: u32 = 0;
    while y < height
        invariant
            frame_fits(start, width, height),
            y <= height,
            frame@.len() == start.len(),
            forall|px: int, py: int| #![trigger pixel_index(width, px, py)]
                on_frame(width, height, px, py) ==> frame@[pixel_index(width, px, py)]
                    == if py < y { shadowed(start[pixel_index(width, px, py)], layout, px, py) } else { start[pixel_index(width, px, py)] },
            forall|i: int| width as int * height as int <= i < start.len() ==> frame@[i] == start[i],
        decreases height - y,
    {
        let mut x: u32 = 0;
        while x < width
            invariant
                frame_fits(start, width, height),
                y < height,
                x <= width,
                frame@.len() == start.len(),
                forall|px: int, py: int| #![trigger pixel_index(width, px, py)]
                    on_frame(width, height, px, py) ==> frame@[pixel_index(width, px, py)]
                        == if py < y || (py == y && px < x) {
                            shadowed(start[pixel_index(width, px, py)], layout, px, py)
                        } else {
                            start[pixel_index(width, px, py)]
                        },
                forall|i: int| width as int * height as int <= i < start.len() ==> frame@[i] == start[i],
            decreases width - x,
        {
            let index = frame_index(width, height, x, y, frame.len());
            match shadow_alpha(layout, x as i64, y as i64) {
                Some(a) => {
                    let ghost before = frame@;
                    let v = blend_argb(frame[index], argb(a, 0, 0, 0));
                    frame[index] = v;
                    proof {
                        assert forall|px: int, py: int| #![trigger pixel_index(width, px, py)]
                            on_frame(width, height, px, py) && !(px == x && py == y)
                            implies frame@[pixel_index(width, px, py)] == before[pixel_index(width, px, py)] by {
                            lemma_index_in_frame(width, height, px, py);
                            if pixel_index(width, px, py) == pixel_index(width, x as int, y as int) {
                                lemma_index_unique(width, px, py, x as int, y as int);
                            }
                        }
                    }
                },
                None => {},
            }
            x = x + 1;
        }
        y = y + 1;
    }
}

/// Copies an image of `src_width` by `src_height` pixels into a frame with
/// its top-left pixel at `(dest_left, dest_top)`; the image must fit.
pub fn blit_argb(
    dest: &mut [u32],
    dest_width: u32,
    dest_height: u32,
    src: &[u32],
    dest_left: u32,
    dest_top: u32,
    src_width: u32,
    src_height: u32,
)
    requires
        frame_fits(old(dest)@, dest_width, dest_height),
        src_width as int * src_height as int <= src@.len(),
        dest_left + src_width <= dest_width,
        dest_top + src_height <= dest_height,
    ensures
        final(dest)@.len() == old(dest)@.len(),
        forall|x: int, y: int| #![trigger pixel_index(dest_width, x, y)]
            on_frame(dest_width, dest_height, x, y) ==> final(dest)@[pixel_index(dest_width, x, y)]
                == if dest_left <= x < dest_left + src_width && dest_top <= y < dest_top + src_height {
                    src@[pixel_index(src_width, x - dest_left, y - dest_top)]
                } else {
                    old(dest)@[pixel_index(dest_width, x, y)]
                },
        forall|i: int| dest_width as int * dest_height as int <= i < old(dest)@.len() ==> final(dest)@[i] == old(dest)@[i],
{
    let ghost start = dest@;
    let mut row: u32 = 0;
    while row < src_height
        invariant
            frame_fits(start, dest_width, dest_height),
            src_width as int * src_height as int <= src@.len(),
            dest_left + src_width <= dest_width,
            dest_top + src_height <= dest_height,
            row <= src_height,
            dest@.len() == start.len(),
            forall|px: int, py: int| #![trigger pixel_index(dest_width, px, py)]
                on_frame(dest_width, dest_height, px, py) ==> dest@[pixel_index(dest_width, px, py)]
                    == if dest_left <= px < dest_left + src_width && dest_top <= py < dest_top + row {
                        src@[pixel_index(src_width, px - dest_left, py - dest_top)]
                    } else {
                        start[pixel_index(dest_width, px, py)]
                    },
            forall|i: int| dest_width as int * dest_height as int <= i < start.len() ==> dest@[i] == start[i],
        decreases src_height - row,
    {
        let mut col: u32 = 0;
        while col < src_width
            invariant
                frame_fits(start, dest_width, dest_height),
                src_width as int * src_height as int <= src@.len(),
                dest_left + src_width <= dest_width,
                dest_top + src_height <= dest_height,
                row < src_height,
                col <= src_width,
                dest@.len() == start.len(),
                forall|px: int, py: int| #![trigger pixel_index(dest_width, px, py)]
                    on_frame(dest_width, dest_height, px, py) ==> dest@[pixel_index(dest_width, px, py)]
                        == if (dest_left <= px < dest_left + src_width && dest_top <= py < dest_top + row)
                            || (py == dest_top + row && dest_left <= px < dest_left + col) {
                            src@[pixel_index(src_width, px - dest_left, py - dest_top)]
                        } else {
                            start[pixel_index(dest_width, px, py)]
                        },
                forall|i: int| dest_width as int * dest_height as int <= i < start.len() ==> dest@[i] == start[i],
            decreases src_width - col,
        {
            let from = frame_index(src_width, src_height, col, row, src.len());
            let to = frame_index(dest_width, dest_height, dest_left + col, dest_top + row, dest.len());
            let ghost before = dest@;
            dest[to] = src[from];
            proof {
                let tx = dest_left + col;
                let ty = dest_top + row;
                assert forall|px: int, py: int| #![trigger pixel_index(dest_width, px, py)]
                    on_frame(dest_width, dest_height, px, py) && !(px == tx && py == ty)
                    implies dest@[pixel_index(dest_width, px, py)] == before[pixel_index(dest_width, px, py)] by {
                    lemma_index_in_frame(dest_width, dest_height, px, py);
                    if pixel_index(dest_width, px, py) == pixel_index(dest_width, tx as int, ty as int) {
                        lemma_index_unique(dest_width, px, py, tx as int, ty as int);
                    }
                }
            }
            col = col + 1;
        }
        row = row + 1;
    }
}

/// The window has room for the frame all round the image.
pub open spec fn frame_room(layout: PinLayout, width: u32, height: u32) -> bool {
    &&& layout.window_width == width
    &&& layout.window_height == height
    &&& 1 <= layout.image_width
    &&& 1 <= layout.image_height
    &&& FRAME_BORDER_THICKNESS <= layout.image_left
    &&& FRAME_BORDER_THICKNESS <= layout.image_top
    &&& layout.image_left + layout.image_width + FRAME_BORDER_THICKNESS <= layout.window_width
    &&& layout.image_top + layout.image_height + FRAME_BORDER_THICKNESS <= layout.window_height
}

/// `(x, y)` lies on the `o`-th ring out from the image's edge: ring 0 is
/// the image's own outermost pixels.
pub open spec fn on_ring(layout: PinLayout, o: int, x: int, y: int) -> bool {
    let left = layout.image_left as int;
    let top = layout.image_top as int;
    let right = layout.image_left + layout.image_width - 1;
    let bottom = layout.image_top + layout.image_height - 1;
    ||| (y == top - o || y == bottom + o) && left - o <= x <= right + o
    ||| (x == left - o || x == right + o) && top - o <= y <= bottom + o
}

/// `(x, y)` is painted by the frame: it lies on one of the frame's rings.
pub open spec fn on_frame_border(layout: PinLayout, x: int, y: int) -> bool {
    exists|o: int| 0 <= o < FRAME_BORDER_THICKNESS && #[trigger] on_ring(layout, o, x, y)
}

proof fn lemma_set_one(frame_before: Seq<u32>, frame_after: Seq<u32>, width: u32, height: u32, x: int, y: int)
    requires
        frame_fits(frame_before, width, height),
        on_frame(width, height, x, y),
        frame_after == frame_before.update(pixel_index(width, x, y), FRAME_COLOR),
    ensures
        forall|px: int, py: int| #![trigger pixel_index(width, px, py)]
            on_frame(width, height, px, py) && !(px == x && py == y)
            ==> frame_after[pixel_index(width, px, py)] == frame_before[pixel_index(width, px, py)],
        frame_after[pixel_index(width, x, y)] == FRAME_COLOR,
        frame_after.len() == frame_before.len(),
{
    lemma_index_in_frame(width, height, x, y);
    assert forall|px: int, py: int| #![trigger pixel_index(width, px, py)]
        on_frame(width, height, px, py) && !(px == x && py == y)
        implies frame_after[pixel_index(width, px, py)] == frame_before[pixel_index(width, px, py)] by {
        lemma_index_in_frame(width, height, px, py);
        if pixel_index(width, px, py) == pixel_index(width, x, y) {
            lemma_index_unique(width, px, py, x, y);
        }
    }
}

/// Paints the frame of a decorated pin window: its rings, from the image's
/// edge outwards.
pub fn draw_border(frame: &mut [u32], width: u32, height: u32, layout: PinLayout)
    requires
        frame_fits(old(frame)@, width, height),
        frame_room(layout, width, height),
    ensures
        final(frame)@.len() == old(frame)@.len(),
        forall|x: int, y: int| #![trigger pixel_index(width, x, y)]
            on_frame(width, height, x, y) ==> final(frame)@[pixel_index(width, x, y)]
                == if on_frame_border(layout, x, y) { FRAME_COLOR } else { old(frame)@[pixel_index(width, x, y)] },
        forall|i: int| width as int * height as int <= i < old(frame)@.len() ==> final(frame)@[i] == old(frame)@[i],
{
    let ghost start = frame@;
    let left = layout.image_left;
    let top = layout.image_top;
    let right = layout.image_left + layout.image_width - 1;
    let bottom = layout.image_top + layout.image_height - 1;
    let mut offset: i32 = 0;
    while offset < FRAME_BORDER_THICKNESS
        invariant
            frame_fits(start, width, height),
            frame_room(layout, width, height),
            left == layout.image_left,
            top == layout.image_top,
            right == layout.image_left + layout.image_width - 1,
            bottom == layout.image_top + layout.image_height - 1,
            0 <= offset <= FRAME_BORDER_THICKNESS,
            frame@.len() == start.len(),
            forall|px: int, py: int| #![trigger pixel_index(width, px, py)]
                on_frame(width, height, px, py) ==> frame@[pixel_index(width, px, py)]
                    == if exists|o: int| 0 <= o < offset && #[trigger] on_ring(layout, o, px, py) {
                        FRAME_COLOR
                    } else {
                        start[pixel_index(width, px, py)]
                    },
            forall|i: int| width as int * height as int <= i < start.len() ==> frame@[i] == start[i],
        decreases FRAME_BORDER_THICKNESS - offset,
    {
        let ghost round = frame@;
        let mut x: i32 = left - offset;
        while x <= right + offset
            invariant
                frame_fits(start, width, height),
                frame_room(layout, width, height),
                left == layout.image_left,
                top == layout.image_top,
                right == layout.image_left + layout.image_width - 1,
                bottom == layout.image_top + layout.image_height - 1,
                0 <= offset < FRAME_BORDER_THICKNESS,
                left - offset <= x <= right + offset + 1,
                frame@.len() == start.len(),
                round.len() == start.len(),
                forall|px: int, py: int| #![trigger pixel_index(width, px, py)]
                    on_frame(width, height, px, py) ==> frame@[pixel_index(width, px, py)]
                        == if (py == top - offset || py == bottom + offset) && left - offset <= px < x {
                            FRAME_COLOR
                        } else {
                            round[pixel_index(width, px, py)]
                        },
                forall|i: int| width as int * height as int <= i < start.len() ==> frame@[i] == start[i],
            decreases right + offset + 1 - x,
        {
            let ghost before = frame@;
            let top_index = frame_index(width, height, x as u32, (top - offset) as u32, frame.len());
            frame[top_index] = FRAME_COLOR;
            proof {
                lemma_set_one(before, frame@, width, height, x as int, (top - offset) as int);
            }
            let ghost middle = frame@;
            let bottom_index = frame_index(width, height, x as u32, (bottom + offset) as u32, frame.len());
            frame[bottom_index] = FRAME_COLOR;
            proof {
                lemma_set_one(middle, frame@, width, height, x as int, (bottom + offset) as int);
            }
            x = x + 1;
        }
        let mut y: i32 = top - offset;
        while y <= bottom + offset
            invariant
                frame_fits(start, width, height),
                frame_room(layout, width, height),
                left == layout.image_left,
                top == layout.image_top,
                right == layout.image_left + layout.image_width - 1,
                bottom == layout.image_top + layout.image_height - 1,
                0 <= offset < FRAME_BORDER_THICKNESS,
                top - offset <= y <= bottom + offset + 1,
                frame@.len() == start.len(),
                round.len() == start.len(),
                forall|px: int, py: int| #![trigger pixel_index(width, px, py)]
                    on_frame(width, height, px, py) ==> frame@[pixel_index(width, px, py)]
                        == if ((py == top - offset || py == bottom + offset) && left - offset <= px <= right + offset)
                            || ((px == left - offset || px == right + offset) && top - offset <= py < y) {
                            FRAME_COLOR
                        } else {
                            round[pixel_index(width, px, py)]
                        },
                forall|i: int| width as int * height as int <= i < start.len() ==> frame@[i] == start[i],
            decreases bottom + offset + 1 - y,
        {
            let ghost before = frame@;
            let left_index = frame_index(width, height, (left - offset) as u32, y as u32, frame.len());
            frame[left_index] = FRAME_COLOR;
            proof {
                lemma_set_one(before, frame@, width, height, (left - offset) as int, y as int);
            }
            let ghost middle = frame@;
            let right_index = frame_index(width, height, (right + offset) as u32, y as u32, frame.len());
            frame[right_index] = FRAME_COLOR;
            proof {
                lemma_set_one(middle, frame@, width, height, (right + offset) as int, y as int);
            }
            y = y + 1;
        }
        proof {
            assert forall|px: int, py: int| #![trigger pixel_index(width, px, py)]
                on_frame(width, height, px, py) implies frame@[pixel_index(width, px, py)]
                    == if exists|o: int| 0 <= o < offset + 1 && #[trigger] on_ring(layout, o, px, py) {
                        FRAME_COLOR
                    } else {
                        start[pixel_index(width, px, py)]
                    } by {
                if on_ring(layout, offset as int, px, py) {
                    assert(exists|o: int| 0 <= o < offset + 1 && #[trigger] on_ring(layout, o, px, py));
                } else if exists|o: int| 0 <= o < offset + 1 && #[trigger] on_ring(layout, o, px, py) {
                    let o = choose|o: int| 0 <= o < offset + 1 && #[trigger] on_ring(layout, o, px, py);
                    assert(o < offset);
                }
            }
        }
        offset = offset + 1;
    }
}

/// A pixel of a decorated pin window: the image where it lies, the frame
/// round it, and the shadow (over transparency) further out.
pub open spec fn window_pixel(bytes: Seq<u8>, layout: PinLayout, x: int, y: int) -> u32 {
    let l = layout.image_left as int;
    let t = layout.image_top as int;
    if l <= x < l + layout.image_width && t <= y < t + layout.image_height {
        layered_pixel(bytes, pixel_index(layout.image_width as u32, x - l, y - t))
    } else if on_frame_border(layout, x, y) {
        FRAME_COLOR
    } else {
        shadowed(0, layout, x, y)
    }
}

fn transparent_pixels(n: usize) -> (r: Vec<u32>)
    ensures
        r@.len() == n,
        forall|i: int| 0 <= i < n ==> #[trigger] r@[i] == 0,
{
    let mut out: Vec<u32> = Vec::new();
    let mut i: usize = 0;
    while i < n
        invariant
            i <= n,
            out@.len() == i,
            forall|k: int| 0 <= k < i ==> #[trigger] out@[k] == 0,
        decreases n - i,
    {
        out.push(0);
        i = i + 1;
    }
    out
}

/// The pixels of a pin window showing `image_bytes` (RGBA, already scaled to
/// the layout's image size): the image alone, or with its shadow and frame.
pub fn compose_window_pixels(image_bytes: &[u8], decorated: bool, layout: PinLayout) -> (r: Vec<u32>)
    requires
        image_bytes@.len() == layout.image_width * layout.image_height * 4,
        decorated ==> frame_room(layout, layout.window_width as u32, layout.window_height as u32),
        decorated ==> layout.window_width * layout.window_height <= usize::MAX,
    ensures
        !decorated ==> r@.len() == image_bytes@.len() / 4
            && forall|i: int| 0 <= i < r@.len() ==> #[trigger] r@[i] == layered_pixel(image_bytes@, i),
        decorated ==> r@.len() == layout.window_width * layout.window_height
            && forall|x: int, y: int| #![trigger pixel_index(layout.window_width as u32, x, y)]
                on_frame(layout.window_width as u32, layout.window_height as u32, x, y)
                ==> r@[pixel_index(layout.window_width as u32, x, y)] == window_pixel(image_bytes@, layout, x, y),
{
    if !decorated {
        return rgba_to_layered_pixels(image_bytes);
    }
    let width = layout.window_width as u32;
    let height = layout.window_height as u32;
    let n = (width as usize) * (height as usize);
    let mut pixels = transparent_pixels(n);
    let ghost blank = pixels@;
    draw_shadow(pixels.as_mut_slice(), width, height, layout);
    let ghost shaded = pixels@;
    draw_border(pixels.as_mut_slice(), width, height, layout);
    let ghost framed = pixels@;
    let image = rgba_to_layered_pixels(image_bytes);
    let iw = layout.image_width as u32;
    let ih = layout.image_height as u32;
    blit_argb(pixels.as_mut_slice(), width, height, image.as_slice(), layout.image_left as u32, layout.image_top as u32, iw, ih);
    proof {
        assert forall|x: int, y: int| #![trigger pixel_index(width, x, y)]
            on_frame(width, height, x, y)
            implies pixels@[pixel_index(width, x, y)] == window_pixel(image_bytes@, layout, x, y) by {
            lemma_index_in_frame(width, height, x, y);
            assert(blank[pixel_index(width, x, y)] == 0);
            let l = layout.image_left as int;
            let t = layout.image_top as int;
            if l <= x < l + iw && t <= y < t + ih {
                lemma_index_in_frame(iw, ih, x - l, y - t);
            }
        }
    }
    pixels
}

} // verus!
