use crate::geometry::{spec_max, spec_min, SelectionRect};
use crate::overlay::types::{IntRect, PREVIEW_BRIGHTNESS_PERCENT};
use vstd::prelude::*;

verus! {

// Frames are rows of `0xAARRGGBB` pixels, `width` pixels to a row.

pub open spec fn red_of(c: u32) -> int {
    (c as int / 0x1_0000) % 0x100
}

pub open spec fn green_of(c: u32) -> int {
    (c as int / 0x100) % 0x100
}

pub open spec fn blue_of(c: u32) -> int {
    c as int % 0x100
}

pub open spec fn alpha_of(c: u32) -> int {
    c as int / 0x100_0000
}

pub open spec fn rgb_spec(red: int, green: int, blue: int) -> u32 {
    (red * 0x1_0000 + green * 0x100 + blue) as u32
}

/// The colour with these channels, alpha left zero.
pub fn pack_rgb(red: u8, green: u8, blue: u8) -> (r: u32)
    ensures
        r == rgb_spec(red as int, green as int, blue as int),
        red_of(r) == red,
        green_of(r) == green,
        blue_of(r) == blue,
        alpha_of(r) == 0,
{
    (red as u32) * 0x1_0000 + (green as u32) * 0x100 + blue as u32
}

pub fn red_channel(c: u32) -> (r: u32)
    ensures
        r == red_of(c),
{
    (c / 0x1_0000) % 0x100
}

pub fn green_channel(c: u32) -> (r: u32)
    ensures
        r == green_of(c),
{
    (c / 0x100) % 0x100
}

pub fn blue_channel(c: u32) -> (r: u32)
    ensures
        r == blue_of(c),
{
    c % 0x100
}

/// `pixel` with its alpha set to fully opaque.
pub open spec fn opaque_spec(pixel: u32) -> u32 {
    (0xff00_0000 + pixel as int % 0x100_0000) as u32
}

pub fn opaque(pixel: u32) -> (r: u32)
    ensures
        r == opaque_spec(pixel),
{
    0xff00_0000 + pixel % 0x100_0000
}

/// Each channel scaled to `brightness_percent` percent, rounding down; alpha dropped.
pub open spec fn dim_spec(pixel: u32, pct: int) -> u32 {
    rgb_spec(red_of(pixel) * pct / 100, green_of(pixel) * pct / 100, blue_of(pixel) * pct / 100)
}

pub fn dim_color(pixel: u32, brightness_percent: u32) -> (r: u32)
    requires
        brightness_percent <= 100,
    ensures
        r == dim_spec(pixel, brightness_percent as int),
{
    let red = red_channel(pixel);
    let green = green_channel(pixel);
    let blue = blue_channel(pixel);
    assert(red * brightness_percent <= 255 * 100) by (nonlinear_arith)
        requires red <= 255, brightness_percent <= 100;
    assert(green * brightness_percent <= 255 * 100) by (nonlinear_arith)
        requires green <= 255, brightness_percent <= 100;
    assert(blue * brightness_percent <= 255 * 100) by (nonlinear_arith)
        requires blue <= 255, brightness_percent <= 100;
    let dr = red * brightness_percent / 100;
    let dg = green * brightness_percent / 100;
    let db = blue * brightness_percent / 100;
    dr * 0x1_0000 + dg * 0x100 + db
}

/// The alpha a colour is drawn with: a colour with a zero alpha byte but
/// some colour in it counts as opaque.
pub open spec fn effective_alpha_spec(color: u32) -> int {
    if alpha_of(color) == 0 && color > 0 { 255 } else { alpha_of(color) }
}

pub fn effective_alpha(color: u32) -> (r: u32)
    ensures
        r == effective_alpha_spec(color),
        r <= 255,
{
    let a = color / 0x100_0000;
    if a == 0 && color > 0 { 255 } else { a }
}

/// One channel of `fg` over `bg` at alpha `a`, with the rounding division by 255
/// done as `(v + 1 + (v >> 8)) >> 8`.
pub open spec fn mix_channel(fg: int, bg: int, a: int) -> int {
    let v = fg * a + bg * (255 - a);
    (v + 1 + v / 256) / 256
}

/// `fg` drawn over `bg` with `fg`'s effective alpha; the result is opaque.
pub open spec fn alpha_blend_spec(bg: u32, fg: u32) -> u32 {
    let a = effective_alpha_spec(fg);
    if a == 255 {
        opaque_spec(fg)
    } else if a == 0 {
        bg
    } else {
        (0xff00_0000 + rgb_spec(mix_channel(red_of(fg), red_of(bg), a),
            mix_channel(green_of(fg), green_of(bg), a), mix_channel(blue_of(fg), blue_of(bg), a)) as int) as u32
    }
}

fn mix(fg: u32, bg: u32, a: u32) -> (r: u32)
    requires
        fg <= 255,
        bg <= 255,
        a <= 255,
    ensures
        r == mix_channel(fg as int, bg as int, a as int),
        r <= 255,
{
    assert(fg * a + bg * (255 - a) <= 255 * 255) by (nonlinear_arith)
        requires fg <= 255, bg <= 255, a <= 255;
    let v = fg * a + bg * (255 - a);
    (v + 1 + v / 256) / 256
}

pub fn alpha_blend(bg: u32, fg: u32) -> (r: u32)
    ensures
        r == alpha_blend_spec(bg, fg),
{
    let a = effective_alpha(fg);
    if a == 255 {
        return opaque(fg);
    }
    if a == 0 {
        return bg;
    }
    let r = mix(red_channel(fg), red_channel(bg), a);
    let g = mix(green_channel(fg), green_channel(bg), a);
    let b = mix(blue_channel(fg), blue_channel(bg), a);
    0xff00_0000 + (r * 0x1_0000 + g * 0x100 + b)
}

/// One channel of `color` over `bg` at coverage `alpha`, rounded to nearest.
pub open spec fn cover_channel(fg: int, bg: int, alpha: int) -> int {
    (fg * alpha + bg * (255 - alpha) + 127) / 255
}

/// `color` drawn over `background` at coverage `alpha`; the background's
/// alpha is kept, a transparent background becoming opaque.
pub open spec fn blend_over_spec(background: u32, color: u32, alpha: int) -> u32 {
    let bg_alpha = if alpha_of(background) == 0 { 0xff } else { alpha_of(background) };
    (bg_alpha * 0x100_0000 + rgb_spec(cover_channel(red_of(color), red_of(background), alpha),
        cover_channel(green_of(color), green_of(background), alpha),
        cover_channel(blue_of(color), blue_of(background), alpha)) as int) as u32
}

pub(crate) fn cover(fg: u32, bg: u32, alpha: u32) -> (r: u32)
    requires
        fg <= 255,
        bg <= 255,
        alpha <= 255,
    ensures
        r == cover_channel(fg as int, bg as int, alpha as int),
        r <= 255,
{
    assert(fg * alpha + bg * (255 - alpha) <= 255 * 255) by (nonlinear_arith)
        requires fg <= 255, bg <= 255, alpha <= 255;
    (fg * alpha + bg * (255 - alpha) + 127) / 255
}

/// The frame holds `width * height` pixels or more.
pub open spec fn frame_fits(frame: Seq<u32>, width: u32, height: u32) -> bool {
    width as int * height as int <= frame.len() && width <= i32::MAX && height <= i32::MAX
}

pub open spec fn pixel_index(width: u32, x: int, y: int) -> int {
    y * width + x
}

pub open spec fn on_frame(width: u32, height: u32, x: int, y: int) -> bool {
    0 <= x < width && 0 <= y < height
}

pub(crate) proof fn lemma_index_in_frame(width: u32, height: u32, x: int, y: int)
    requires
        on_frame(width, height, x, y),
    ensures
        0 <= pixel_index(width, x, y) < width as int * height as int,
{
    assert(0 <= y * width + x < width as int * height as int) by (nonlinear_arith)
        requires 0 <= x < width, 0 <= y < height;
}

pub(crate) proof fn lemma_index_unique(width: u32, x1: int, y1: int, x2: int, y2: int)
    requires
        0 <= x1 < width,
        0 <= x2 < width,
        0 <= y1,
        0 <= y2,
        pixel_index(width, x1, y1) == pixel_index(width, x2, y2),
    ensures
        x1 == x2 && y1 == y2,
{
    assert(x1 == x2 && y1 == y2) by (nonlinear_arith)
        requires
            0 <= x1 < width,
            0 <= x2 < width,
            0 <= y1,
            0 <= y2,
            y1 * width + x1 == y2 * width + x2;
}

/// The position of pixel `(x, y)` in a frame of `len` pixels.
pub(crate) fn frame_index(width: u32, height: u32, x: u32, y: u32, len: usize) -> (r: usize)
    requires
        on_frame(width, height, x as int, y as int),
        width as int * height as int <= len,
    ensures
        r == pixel_index(width, x as int, y as int),
        r < width as int * height as int,
{
    proof {
        lemma_index_in_frame(width, height, x as int, y as int);
    }
    assert((y as usize) * (width as usize) <= y * width + x) by (nonlinear_arith)
        requires 0 <= x;
    (y as usize) * (width as usize) + x as usize
}

/// Blends `color` at coverage `alpha` into the pixel at `(x, y)`; nothing
/// happens off the frame or at zero coverage.
pub fn blend_pixel(frame: &mut [u32], width: u32, height: u32, x: i32, y: i32, color: u32, alpha: u8)
    requires
        frame_fits(old(frame)@, width, height),
    ensures
        final(frame)@.len() == old(frame)@.len(),
        if alpha == 0 || !on_frame(width, height, x as int, y as int) {
            final(frame)@ == old(frame)@
        } else {
            final(frame)@ == old(frame)@.update(pixel_index(width, x as int, y as int),
                blend_over_spec(old(frame)@[pixel_index(width, x as int, y as int)], color, alpha as int))
        },
{
    if alpha == 0 || x < 0 || y < 0 || x as i64 >= width as i64 || y as i64 >= height as i64 {
        return;
    }
    let index = frame_index(width, height, x as u32, y as u32, frame.len());
    let background = frame[index];
    let top = background / 0x100_0000;
    let bg_alpha: u32 = if top == 0 { 0xff } else { top };
    let a = alpha as u32;
    let red = cover(red_channel(color), red_channel(background), a);
    let green = cover(green_channel(color), green_channel(background), a);
    let blue = cover(blue_channel(color), blue_channel(background), a);
    frame[index] = bg_alpha * 0x100_0000 + (red * 0x1_0000 + green * 0x100 + blue);
}

/// Draws `color` over the pixel at `(x, y)` with its effective alpha; nothing
/// happens off the frame.
pub fn put_pixel(frame: &mut [u32], width: u32, height: u32, x: i32, y: i32, color: u32)
    requires
        frame_fits(old(frame)@, width, height),
    ensures
        final(frame)@.len() == old(frame)@.len(),
        if !on_frame(width, height, x as int, y as int) {
            final(frame)@ == old(frame)@
        } else {
            final(frame)@ == old(frame)@.update(pixel_index(width, x as int, y as int),
                alpha_blend_spec(old(frame)@[pixel_index(width, x as int, y as int)], color))
        },
{
    if x < 0 || y < 0 || x as i64 >= width as i64 || y as i64 >= height as i64 {
        return;
    }
    let index = frame_index(width, height, x as u32, y as u32, frame.len());
    let v = alpha_blend(frame[index], color);
    frame[index] = v;
}

/// What the preview shows at `(x, y)`: the captured pixel inside the
/// selection, a dimmed one outside, both opaque.
pub open spec fn preview_pixel(source: u32, selection: Option<SelectionRect>, x: int, y: int) -> u32 {
    if selection matches Some(rect) && rect.contains_spec(x, y) {
        opaque_spec(source)
    } else {
        opaque_spec(dim_spec(source, PREVIEW_BRIGHTNESS_PERCENT as int))
    }
}

pub open spec fn selection_fits(selection: Option<SelectionRect>) -> bool {
    selection matches Some(rect) ==> rect.width <= i32::MAX && rect.height <= i32::MAX
        && rect.right_spec() <= i32::MAX && rect.bottom_spec() <= i32::MAX
}

proof fn lemma_index_before(width: u32, px: int, py: int, x: int, y: int)
    requires
        0 <= px < width,
        0 <= x < width,
        0 <= py,
        0 <= y,
        py < y || (py == y && px < x),
    ensures
        pixel_index(width, px, py) < pixel_index(width, x, y),
{
    assert(py * width + px < y * width + x) by (nonlinear_arith)
        requires
            0 <= px < width,
            0 <= x < width,
            0 <= py,
            0 <= y,
            py < y || (py == y && px < x);
}

/// Every pixel before `(x, y)`, row by row, shows its preview.
pub open spec fn preview_done(dest: Seq<u32>, source: Seq<u32>, selection: Option<SelectionRect>, width: u32, height: u32, x: int, y: int) -> bool {
    forall|px: int, py: int| #![trigger pixel_index(width, px, py)]
        on_frame(width, height, px, py) && (py < y || (py == y && px < x))
            ==> dest[pixel_index(width, px, py)] == preview_pixel(source[pixel_index(width, px, py)], selection, px, py)
}

fn compose_preview_row(
    source: &[u32],
    destination: &mut [u32],
    width: u32,
    height: u32,
    selection: Option<SelectionRect>,
    y: u32,
)
    requires
        frame_fits(source@, width, height),
        frame_fits(old(destination)@, width, height),
        selection_fits(selection),
        y < height,
        preview_done(old(destination)@, source@, selection, width, height, 0, y as int),
    ensures
        final(destination)@.len() == old(destination)@.len(),
        preview_done(final(destination)@, source@, selection, width, height, 0, y + 1),
        forall|i: int| (y + 1) * width <= i < old(destination)@.len() ==> final(destination)@[i] == old(destination)@[i],
{
    let ghost start = destination@;
    let mut x: u32 = 0;
    while x < width
        invariant
            frame_fits(source@, width, height),
            frame_fits(destination@, width, height),
            selection_fits(selection),
            destination@.len() == start.len(),
            y < height,
            x <= width,
            preview_done(destination@, source@, selection, width, height, x as int, y as int),
            forall|i: int| pixel_index(width, x as int, y as int) <= i < destination@.len() ==> destination@[i] == start[i],
        decreases width - x,
    {
        let index = frame_index(width, height, x, y, destination.len());
        let pixel = source[index];
        let inside = match selection {
            Some(rect) => rect.contains(x as i32, y as i32),
            None => false,
        };
        let v = if inside { opaque(pixel) } else { opaque(dim_color(pixel, PREVIEW_BRIGHTNESS_PERCENT)) };
        assert(v == preview_pixel(pixel, selection, x as int, y as int));
        let ghost before = destination@;
        destination[index] = v;
        proof {
            assert forall|px: int, py: int| #![trigger pixel_index(width, px, py)]
                on_frame(width, height, px, py) && (py < y || (py == y && px < x + 1))
                implies destination@[pixel_index(width, px, py)] == preview_pixel(source@[pixel_index(width, px, py)], selection, px, py) by {
                if !(px == x && py == y) {
                    lemma_index_before(width, px, py, x as int, y as int);
                }
            }
        }
        x = x + 1;
    }
    proof {
        assert forall|px: int, py: int| #![trigger pixel_index(width, px, py)]
            on_frame(width, height, px, py) && (py < y + 1 || (py == y + 1 && px < 0))
            implies destination@[pixel_index(width, px, py)] == preview_pixel(source@[pixel_index(width, px, py)], selection, px, py) by {
        }
        assert(pixel_index(width, width as int, y as int) == (y + 1) * width) by (nonlinear_arith);
    }
}

/// Fills `destination` with the dimmed screen, the selection left at full brightness.
pub fn compose_preview_frame(
    source: &[u32],
    destination: &mut [u32],
    width: u32,
    height: u32,
    selection: Option<SelectionRect>,
)
    requires
        frame_fits(source@, width, height),
        frame_fits(old(destination)@, width, height),
        selection_fits(selection),
    ensures
        final(destination)@.len() == old(destination)@.len(),
        forall|x: int, y: int| #![trigger pixel_index(width, x, y)] on_frame(width, height, x, y)
            ==> final(destination)@[pixel_index(width, x, y)] == preview_pixel(source@[pixel_index(width, x, y)], selection, x, y),
        forall|i: int| width as int * height as int <= i < old(destination)@.len()
            ==> final(destination)@[i] == old(destination)@[i],
{
    let ghost start = destination@;
    let mut y: u32 = 0;
    while y < height
        invariant
            frame_fits(source@, width, height),
            frame_fits(destination@, width, height),
            selection_fits(selection),
            destination@.len() == start.len(),
            y <= height,
            preview_done(destination@, source@, selection, width, height, 0, y as int),
            forall|i: int| y as int * width as int <= i < destination@.len() ==> destination@[i] == start[i],
        decreases height - y,
    {
        compose_preview_row(source, destination, width, height, selection, y);
        assert((y + 1) as int * width as int >= y as int * width as int) by (nonlinear_arith);
        y = y + 1;
    }
    proof {
        assert forall|x: int, y2: int| #![trigger pixel_index(width, x, y2)] on_frame(width, height, x, y2)
            implies destination@[pixel_index(width, x, y2)] == preview_pixel(source@[pixel_index(width, x, y2)], selection, x, y2) by {
            assert(y2 < y);
        }
        assert(y as int * width as int == width as int * height as int) by (nonlinear_arith)
            requires y == height;
    }
}

} // verus!
