use crate::notification::{div_toward_zero, fits_i32};
use crate::overlay::pixels::{
    blue_channel, blue_of, cover, cover_channel, frame_fits, frame_index, green_channel, green_of,
    lemma_index_in_frame,
    lemma_index_unique, on_frame, pixel_index, red_channel, red_of, rgb_spec,
};
use std::collections::HashMap;
use vstd::prelude::*;

verus! {

/// The toolbar icons.
#[derive(Debug, Clone, Copy, PartialEq, Eq, Hash, Structural)]
pub enum IconId {
    Mouse,
    Select,
    Rectangle,
    Ellipse,
    Line,
    Arrow,
    Mosaic,
    Text,
    Number,
    Undo,
    Pin,
    Confirm,
    Cancel,
}

impl IconId {
    /// The icon's position in the list above.
    pub open spec fn index_spec(self) -> u64 {
        match self {
            IconId::Mouse => 0,
            IconId::Select => 1,
            IconId::Rectangle => 2,
            IconId::Ellipse => 3,
            IconId::Line => 4,
            IconId::Arrow => 5,
            IconId::Mosaic => 6,
            IconId::Text => 7,
            IconId::Number => 8,
            IconId::Undo => 9,
            IconId::Pin => 10,
            IconId::Confirm => 11,
            IconId::Cancel => 12,
        }
    }

    pub fn index(self) -> (r: u64)
        ensures
            r == self.index_spec(),
    {
        match self {
            IconId::Mouse => 0,
            IconId::Select => 1,
            IconId::Rectangle => 2,
            IconId::Ellipse => 3,
            IconId::Line => 4,
            IconId::Arrow => 5,
            IconId::Mosaic => 6,
            IconId::Text => 7,
            IconId::Number => 8,
            IconId::Undo => 9,
            IconId::Pin => 10,
            IconId::Confirm => 11,
            IconId::Cancel => 12,
        }
    }

    pub open spec fn file_name_spec(self) -> Seq<char> {
        match self {
            IconId::Mouse => "mouse"@,
            IconId::Select => "select"@,
            IconId::Rectangle => "rectangle"@,
            IconId::Ellipse => "ellipse"@,
            IconId::Line => "line"@,
            IconId::Arrow => "arrow"@,
            IconId::Mosaic => "mosaic"@,
            IconId::Text => "text"@,
            IconId::Number => "number"@,
            IconId::Undo => "undo"@,
            IconId::Pin => "pin"@,
            IconId::Confirm => "confirm"@,
            IconId::Cancel => "cancel"@,
        }
    }

    /// The base name of the icon's SVG file.
    pub fn file_name(self) -> (r: &'static str)
        ensures
            r@ == self.file_name_spec(),
    {
        match self {
            IconId::Mouse => "mouse",
            IconId::Select => "select",
            IconId::Rectangle => "rectangle",
            IconId::Ellipse => "ellipse",
            IconId::Line => "line",
            IconId::Arrow => "arrow",
            IconId::Mosaic => "mosaic",
            IconId::Text => "text",
            IconId::Number => "number",
            IconId::Undo => "undo",
            IconId::Pin => "pin",
            IconId::Confirm => "confirm",
            IconId::Cancel => "cancel",
        }
    }
}

/// What a rasterized icon is cached under: the icon, its size in pixels
/// and the display scale in hundredths.
#[derive(Debug, Clone, Copy, PartialEq, Eq, Hash, Structural)]
pub struct IconRasterKey {
    pub id: IconId,
    pub size_px: u32,
    pub scale_bucket: u16,
}

impl IconRasterKey {
    /// The key for an icon at a size (at least one pixel) and scale bucket.
    pub fn new(id: IconId, size_px: u32, scale_bucket: u16) -> (r: IconRasterKey)
        ensures
            r.id == id,
            r.size_px == (if size_px < 1 { 1 } else { size_px }),
            r.scale_bucket == scale_bucket,
    {
        IconRasterKey { id, size_px: if size_px < 1 { 1 } else { size_px }, scale_bucket }
    }

    /// The key as one number: icon, size and scale in separate bit ranges.
    pub open spec fn code_spec(self) -> u64 {
        (self.id.index_spec() as int * 0x1_0000_0000_0000 + self.size_px as int * 0x1_0000
            + self.scale_bucket as int) as u64
    }

    pub fn code(&self) -> (r: u64)
        ensures
            r == self.code_spec(),
    {
        self.id.index() * 0x1_0000_0000_0000 + (self.size_px as u64) * 0x1_0000 + self.scale_bucket as u64
    }
}

/// Different keys have different codes.
pub proof fn lemma_code_injective(a: IconRasterKey, b: IconRasterKey)
    requires
        a.code_spec() == b.code_spec(),
    ensures
        a == b,
{
    let ia = a.id.index_spec() as int;
    let ib = b.id.index_spec() as int;
    assert(ia == ib && a.size_px == b.size_px && a.scale_bucket == b.scale_bucket) by (nonlinear_arith)
        requires
            0 <= ia <= 12,
            0 <= ib <= 12,
            ia * 0x1_0000_0000_0000 + a.size_px as int * 0x1_0000 + a.scale_bucket as int
                == ib * 0x1_0000_0000_0000 + b.size_px as int * 0x1_0000 + b.scale_bucket as int,
            a.size_px < 0x1_0000_0000,
            b.size_px < 0x1_0000_0000,
            a.scale_bucket < 0x1_0000,
            b.scale_bucket < 0x1_0000,
    ;
}

/// An icon as a coverage mask, one byte of alpha per pixel, row by row.
#[derive(Debug, Clone)]
pub struct RasterizedIcon {
    pub width: u32,
    pub height: u32,
    pub alpha: Vec<u8>,
}

impl RasterizedIcon {
    pub open spec fn wf(self) -> bool {
        &&& self.alpha@.len() >= self.width as int * self.height as int
        &&& self.width <= i32::MAX
        &&& self.height <= i32::MAX
    }
}

/// Rasterized icons, and the error each icon that failed to rasterize gave,
/// by key code.
#[derive(Debug)]
pub struct IconCache {
    icons: HashMap<u64, RasterizedIcon>,
    failures: HashMap<u64, String>,
}

/// What the cache holds for a key.
#[derive(Debug)]
pub enum CacheLookup<'a> {
    /// The icon failed before, with this error; it is not tried again.
    Failed(String),
    Hit(&'a RasterizedIcon),
    /// Not tried yet: rasterize it and record the outcome.
    Miss,
}

impl IconCache {
    pub closed spec fn icons_view(&self) -> Map<u64, RasterizedIcon> {
        self.icons@
    }

    pub closed spec fn failures_view(&self) -> Map<u64, Seq<char>> {
        self.failures@.map_values(|s: String| s@)
    }

    pub fn new() -> (r: IconCache)
        ensures
            r.icons_view() == Map::<u64, RasterizedIcon>::empty(),
            r.failures_view() == Map::<u64, Seq<char>>::empty(),
    {
        let r = IconCache { icons: HashMap::new(), failures: HashMap::new() };
        assert(r.failures_view() =~= Map::<u64, Seq<char>>::empty());
        r
    }

    /// What the cache holds for `key`: a recorded failure first, then a
    /// rasterized icon, else nothing.
    pub fn lookup(&self, key: &IconRasterKey) -> (r: CacheLookup)
        ensures
            match (r, cache_lookup_spec(self.icons_view(), self.failures_view(), key.code_spec())) {
                (CacheLookup::Failed(m), Some(Err(n))) => m@ == n,
                (CacheLookup::Hit(icon), Some(Ok(i))) => *icon == i,
                (CacheLookup::Miss, None) => true,
                _ => false,
            },
    {
        let code = key.code();
        match self.failures.get(&code) {
            Some(message) => {
                return CacheLookup::Failed(message.clone());
            },
            None => {},
        }
        match self.icons.get(&code) {
            Some(icon) => CacheLookup::Hit(icon),
            None => CacheLookup::Miss,
        }
    }

    /// Records how rasterizing `key` went and hands the icon back, or the error.
    pub fn record(&mut self, key: &IconRasterKey, outcome: Result<RasterizedIcon, String>) -> (r: Result<&RasterizedIcon, String>)
        ensures
            match outcome {
                Ok(icon) => {
                    &&& final(self).icons_view() == old(self).icons_view().insert(key.code_spec(), icon)
                    &&& final(self).failures_view() == old(self).failures_view()
                    &&& r matches Ok(got) && *got == icon
                },
                Err(m) => {
                    &&& final(self).icons_view() == old(self).icons_view()
                    &&& final(self).failures_view() == old(self).failures_view().insert(key.code_spec(), m@)
                    &&& r matches Err(e) && e@ == m@
                },
            },
    {
        let code = key.code();
        match outcome {
            Ok(icon) => {
                self.icons.insert(code, icon);
                match self.icons.get(&code) {
                    Some(got) => Ok(got),
                    None => {
                        assert(false);
                        Err(String::new())
                    },
                }
            },
            Err(message) => {
                let kept = message.clone();
                self.failures.insert(code, kept);
                assert(self.failures@.map_values(|s: String| s@) =~= old(self).failures@.map_values(
                    |s: String| s@).insert(code, message@));
                Err(message)
            },
        }
    }
}

/// What a cache with these contents holds for a key code: a recorded
/// failure first, then a rasterized icon; `None` when the key was not tried.
pub open spec fn cache_lookup_spec(
    icons: Map<u64, RasterizedIcon>,
    failures: Map<u64, Seq<char>>,
    code: u64,
) -> Option<Result<RasterizedIcon, Seq<char>>> {
    if failures.contains_key(code) {
        Some(Err(failures[code]))
    } else if icons.contains_key(code) {
        Some(Ok(icons[code]))
    } else {
        None
    }
}

/// Recording an outcome for a key that has not failed before makes a later
/// lookup of that key give exactly that outcome, and leaves what the cache
/// gives for every other key as it was.
pub proof fn lemma_record_then_lookup(
    icons: Map<u64, RasterizedIcon>,
    failures: Map<u64, Seq<char>>,
    code: u64,
    other: u64,
    icon: RasterizedIcon,
    message: Seq<char>,
)
    requires
        !failures.contains_key(code),
        other != code,
    ensures
        cache_lookup_spec(icons.insert(code, icon), failures, code) == Some(Ok::<RasterizedIcon, Seq<char>>(icon)),
        cache_lookup_spec(icons, failures.insert(code, message), code) == Some(Err::<RasterizedIcon, Seq<char>>(message)),
        cache_lookup_spec(icons.insert(code, icon), failures, other) == cache_lookup_spec(icons, failures, other),
        cache_lookup_spec(icons, failures.insert(code, message), other) == cache_lookup_spec(icons, failures, other),
{
}

/// `foreground` over `background` at coverage `alpha`, each channel rounded
/// to nearest; the result carries no alpha.
pub open spec fn blend_rgb_spec(background: u32, foreground: u32, alpha: int) -> u32 {
    rgb_spec(
        cover_channel(red_of(foreground), red_of(background), alpha),
        cover_channel(green_of(foreground), green_of(background), alpha),
        cover_channel(blue_of(foreground), blue_of(background), alpha),
    )
}

/// Mixes `foreground` into `background` at coverage `alpha`.
pub fn blend_rgb(background: u32, foreground: u32, alpha: u8) -> (r: u32)
    ensures
        r == blend_rgb_spec(background, foreground, alpha as int),
{
    let a = alpha as u32;
    let red = cover(red_channel(foreground), red_channel(background), a);
    let green = cover(green_channel(foreground), green_channel(background), a);
    let blue = cover(blue_channel(foreground), blue_channel(background), a);
    red * 0x1_0000 + green * 0x100 + blue
}

/// Where an icon is drawn in a box: centred, but never left of or above the box.
pub open spec fn icon_origin(start: int, extent: int, icon_extent: int) -> int {
    let offset = div_toward_zero(extent - icon_extent, 2);
    start + if offset < 0 { 0 } else { offset }
}

/// The icon's coverage at frame pixel `(x, y)` when its top-left pixel is
/// at `(dl, dt)`; zero off the icon.
pub open spec fn icon_alpha_at(icon: RasterizedIcon, dl: int, dt: int, x: int, y: int) -> int {
    if dl <= x < dl + icon.width && dt <= y < dt + icon.height {
        icon.alpha@[(y - dt) * icon.width + (x - dl)] as int
    } else {
        0
    }
}

/// The frame pixel at `(x, y)` once the icon is stamped: blended where the
/// icon covers it, as it was elsewhere.
pub open spec fn stamped(before: u32, icon: RasterizedIcon, dl: int, dt: int, x: int, y: int, color: u32) -> u32 {
    let a = icon_alpha_at(icon, dl, dt, x, y);
    if a > 0 { blend_rgb_spec(before, color, a) } else { before }
}

/// The icon pixels stamped so far: rows above `row`, and the first `col`
/// pixels of `row`.
pub open spec fn stamp_done(icon: RasterizedIcon, dl: int, dt: int, x: int, y: int, row: int, col: int) -> bool {
    let ix = x - dl;
    let iy = y - dt;
    0 <= ix < icon.width && 0 <= iy < icon.height && (iy < row || (iy == row && ix < col))
}

/// Stamps an icon's coverage mask into a frame in `color`, centred in the
/// box at `(left, top)` of size `width` by `height` (never left of or above
/// it), clipped to the frame.
pub fn blit_icon_mask(
    frame: &mut Vec<u32>,
    frame_width: u32,
    frame_height: u32,
    left: i32,
    top: i32,
    width: i32,
    height: i32,
    icon: &RasterizedIcon,
    color: u32,
)
    requires
        frame_fits(old(frame)@, frame_width, frame_height),
        icon.wf(),
        fits_i32(width - icon.width),
        fits_i32(height - icon.height),
        fits_i32(icon_origin(left as int, width as int, icon.width as int) + icon.width),
        fits_i32(icon_origin(top as int, height as int, icon.height as int) + icon.height),
    ensures
        final(frame)@.len() == old(frame)@.len(),
        forall|x: int, y: int| #![trigger pixel_index(frame_width, x, y)]
            on_frame(frame_width, frame_height, x, y) ==> final(frame)@[pixel_index(frame_width, x, y)]
                == stamped(old(frame)@[pixel_index(frame_width, x, y)], *icon,
                    icon_origin(left as int, width as int, icon.width as int),
                    icon_origin(top as int, height as int, icon.height as int), x, y, color),
        forall|i: int| frame_width as int * frame_height as int <= i < old(frame)@.len()
            ==> final(frame)@[i] == old(frame)@[i],
{
    let iw = icon.width as i32;
    let ih = icon.height as i32;
    let off_x = (width - iw) / 2;
    let off_y = (height - ih) / 2;
    let draw_left: i32 = left + if off_x < 0 { 0 } else { off_x };
    let draw_top: i32 = top + if off_y < 0 { 0 } else { off_y };
    let ghost dl = draw_left as int;
    let ghost dt = draw_top as int;
    let ghost start = frame@;
    let mut y: i32 = 0;
    while y < ih
        invariant
            frame_fits(start, frame_width, frame_height),
            icon.wf(),
            iw == icon.width,
            ih == icon.height,
            dl == draw_left,
            dt == draw_top,
            fits_i32(dl + iw),
            fits_i32(dt + ih),
            0 <= y <= ih,
            frame@.len() == start.len(),
            forall|x: int, yy: int| #![trigger pixel_index(frame_width, x, yy)]
                on_frame(frame_width, frame_height, x, yy) ==> frame@[pixel_index(frame_width, x, yy)]
                    == if stamp_done(*icon, dl, dt, x, yy, y as int, 0) {
                        stamped(start[pixel_index(frame_width, x, yy)], *icon, dl, dt, x, yy, color)
                    } else {
                        start[pixel_index(frame_width, x, yy)]
                    },
            forall|i: int| frame_width as int * frame_height as int <= i < start.len() ==> frame@[i] == start[i],
        decreases ih - y,
    {
        let dst_y: i32 = draw_top + y;
        let row_visible = dst_y >= 0 && (dst_y as i64) < frame_height as i64;
        let mut x: i32 = 0;
        while x < iw
            invariant
                frame_fits(start, frame_width, frame_height),
                icon.wf(),
                iw == icon.width,
                ih == icon.height,
                dl == draw_left,
                dt == draw_top,
                fits_i32(dl + iw),
                fits_i32(dt + ih),
                0 <= y < ih,
                0 <= x <= iw,
                dst_y == dt + y,
                row_visible == (0 <= dst_y < frame_height),
                frame@.len() == start.len(),
                forall|px: int, py: int| #![trigger pixel_index(frame_width, px, py)]
                    on_frame(frame_width, frame_height, px, py) ==> frame@[pixel_index(frame_width, px, py)]
                        == if stamp_done(*icon, dl, dt, px, py, y as int, x as int) {
                            stamped(start[pixel_index(frame_width, px, py)], *icon, dl, dt, px, py, color)
                        } else {
                            start[pixel_index(frame_width, px, py)]
                        },
                forall|i: int| frame_width as int * frame_height as int <= i < start.len() ==> frame@[i] == start[i],
            decreases iw - x,
        {
            let dst_x: i32 = draw_left + x;
            if row_visible && dst_x >= 0 && (dst_x as i64) < frame_width as i64 {
                let ghost px0 = dst_x as int;
                let ghost py0 = dst_y as int;
                assert((y as int) * (iw as int) + (x as int) < (iw as int) * (ih as int)) by (nonlinear_arith)
                    requires 0 <= x < iw, 0 <= y < ih;
                let alen = icon.alpha.len();
                assert((y as int) * (iw as int) + (x as int) < alen);
                assert((y as int) * (iw as int) <= (y as int) * (iw as int) + (x as int));
                let src = (y as usize) * (icon.width as usize) + x as usize;
                let alpha = icon.alpha[src];
                let index = frame_index(frame_width, frame_height, dst_x as u32, dst_y as u32, frame.len());
                assert(index as int == pixel_index(frame_width, px0, py0));
                assert(icon_alpha_at(*icon, dl, dt, px0, py0) == alpha as int);
                if alpha != 0 {
                    let before = frame[index];
                    let ghost old_frame = frame@;
                    frame.set(index, blend_rgb(before, color, alpha));
                    proof {
                        assert forall|px: int, py: int| #![trigger pixel_index(frame_width, px, py)]
                            on_frame(frame_width, frame_height, px, py) && !(px == px0 && py == py0)
                            implies frame@[pixel_index(frame_width, px, py)] == old_frame[pixel_index(frame_width, px, py)] by {
                            lemma_index_in_frame(frame_width, frame_height, px, py);
                            if pixel_index(frame_width, px, py) == pixel_index(frame_width, px0, py0) {
                                lemma_index_unique(frame_width, px, py, px0, py0);
                            }
                        }
                    }
                }
            }
            proof {
                assert forall|px: int, py: int| #![trigger pixel_index(frame_width, px, py)]
                    on_frame(frame_width, frame_height, px, py)
                    implies frame@[pixel_index(frame_width, px, py)]
                        == if stamp_done(*icon, dl, dt, px, py, y as int, x + 1) {
                            stamped(start[pixel_index(frame_width, px, py)], *icon, dl, dt, px, py, color)
                        } else {
                            start[pixel_index(frame_width, px, py)]
                        } by {
                    if px == dl + x && py == dt + y {
                    } else {
                        assert(stamp_done(*icon, dl, dt, px, py, y as int, x + 1)
                            == stamp_done(*icon, dl, dt, px, py, y as int, x as int));
                    }
                }
            }
            x = x + 1;
        }
        proof {
            assert forall|px: int, py: int| #![trigger pixel_index(frame_width, px, py)]
                on_frame(frame_width, frame_height, px, py)
                implies stamp_done(*icon, dl, dt, px, py, y as int, iw as int)
                    == stamp_done(*icon, dl, dt, px, py, y + 1, 0) by {
            }
        }
        y = y + 1;
    }
    proof {
        assert forall|px: int, py: int| #![trigger pixel_index(frame_width, px, py)]
            on_frame(frame_width, frame_height, px, py)
            implies frame@[pixel_index(frame_width, px, py)]
                == stamped(start[pixel_index(frame_width, px, py)], *icon, dl, dt, px, py, color) by {
            if !stamp_done(*icon, dl, dt, px, py, ih as int, 0) {
                assert(icon_alpha_at(*icon, dl, dt, px, py) == 0);
            }
        }
    }
}

/// The factor icons are rendered larger by before their coverage is
/// averaged down.
pub const ICON_OVERSAMPLE: u32 = 4;

/// The alpha bytes (every fourth, from the fourth) of pixels `x0..x1` of row
/// `y` of an RGBA image `sw` pixels wide, summed.
pub open spec fn alpha_row_sum(src: Seq<u8>, sw: int, y: int, x0: int, x1: int) -> int
    decreases x1 - x0,
{
    if x1 <= x0 {
        0
    } else {
        alpha_row_sum(src, sw, y, x0, x1 - 1) + src[(y * sw + x1 - 1) * 4 + 3] as int
    }
}

/// The alpha bytes of the block `x0..x1` by `y0..y1`, summed.
pub open spec fn alpha_block_sum(src: Seq<u8>, sw: int, x0: int, x1: int, y0: int, y1: int) -> int
    decreases y1 - y0,
{
    if y1 <= y0 {
        0
    } else {
        alpha_block_sum(src, sw, x0, x1, y0, y1 - 1) + alpha_row_sum(src, sw, y1 - 1, x0, x1)
    }
}

/// The coverage of target pixel `(tx, ty)`: the average (rounded down) of the
/// alpha of the `factor` by `factor` block it was rendered as.
pub open spec fn downsampled_alpha(src: Seq<u8>, target_width: int, factor: int, tx: int, ty: int) -> int {
    alpha_block_sum(src, target_width * factor, tx * factor, tx * factor + factor, ty * factor, ty * factor + factor)
        / (factor * factor)
}

proof fn lemma_alpha_sum_bound(src: Seq<u8>, sw: int, x0: int, x1: int, y0: int, y1: int)
    requires
        x0 <= x1,
        y0 <= y1,
    ensures
        0 <= alpha_block_sum(src, sw, x0, x1, y0, y1) <= 255 * ((y1 - y0) * (x1 - x0)),
    decreases y1 - y0,
{
    if y1 > y0 {
        lemma_alpha_sum_bound(src, sw, x0, x1, y0, y1 - 1);
        lemma_alpha_row_bound(src, sw, y1 - 1, x0, x1);
        assert((y1 - y0) * (x1 - x0) == (y1 - 1 - y0) * (x1 - x0) + (x1 - x0)) by (nonlinear_arith);
    }
}

proof fn lemma_alpha_row_bound(src: Seq<u8>, sw: int, y: int, x0: int, x1: int)
    requires
        x0 <= x1,
    ensures
        0 <= alpha_row_sum(src, sw, y, x0, x1) <= 255 * (x1 - x0),
    decreases x1 - x0,
{
    if x1 > x0 {
        lemma_alpha_row_bound(src, sw, y, x0, x1 - 1);
    }
}

proof fn lemma_source_index(tw: int, th: int, f: int, sx: int, sy: int)
    requires
        1 <= f,
        0 <= sx < tw * f,
        0 <= sy < th * f,
    ensures
        0 <= sy * (tw * f) + sx,
        (sy * (tw * f) + sx) * 4 + 3 < tw * f * (th * f) * 4,
{
    assert(0 <= sy * (tw * f) + sx < (tw * f) * (th * f)) by (nonlinear_arith)
        requires
            0 <= sx < tw * f,
            0 <= sy < th * f,
    ;
    assert((tw * f) * (th * f) == tw * f * (th * f)) by (nonlinear_arith);
}

/// Averages an icon rendered `factor` times larger down to its size: each
/// target pixel gets the mean alpha of its block, in row order.
#[verifier::spinoff_prover]
pub fn downsample_alpha(source: &Vec<u8>, target_width: u32, target_height: u32, factor: u32) -> (r: Vec<u8>)
    requires
        1 <= factor,
        255 * (factor * factor) <= u32::MAX,
        target_width * factor <= u32::MAX,
        target_height * factor <= u32::MAX,
        source@.len() == target_width * factor * (target_height * factor) * 4,
    ensures
        r@.len() == target_width * target_height,
        forall|tx: int, ty: int|
            0 <= tx < target_width && 0 <= ty < target_height ==> r@[pixel_index(target_width, tx, ty)] as int
                == #[trigger] downsampled_alpha(source@, target_width as int, factor as int, tx, ty),
{
    let tw = target_width;
    let th = target_height;
    let f = factor;
    let n = source.len();
    let sw: u64 = (tw as u64) * (f as u64);
    let ghost src = source@;
    let mut alpha: Vec<u8> = Vec::new();
    let mut ty: u32 = 0;
    while ty < th
        invariant
            src == source@,
            n == src.len(),
            src.len() == tw * f * (th * f) * 4,
            sw == tw * f,
            1 <= f,
            255 * (f * f) <= u32::MAX,
            tw * f <= u32::MAX,
            th * f <= u32::MAX,
            ty <= th,
            alpha@.len() == pixel_index(tw, 0, ty as int),
            forall|i: int, j: int|
                0 <= i < tw && 0 <= j < ty ==> alpha@[#[trigger] pixel_index(tw, i, j)] as int
                    == downsampled_alpha(src, tw as int, f as int, i, j),
        decreases th - ty,
    {
        let mut tx: u32 = 0;
        while tx < tw
            invariant
                src == source@,
                n == src.len(),
                src.len() == tw * f * (th * f) * 4,
                sw == tw * f,
                1 <= f,
                255 * (f * f) <= u32::MAX,
                tw * f <= u32::MAX,
                th * f <= u32::MAX,
                ty < th,
                tx <= tw,
                alpha@.len() == pixel_index(tw, tx as int, ty as int),
                forall|i: int, j: int|
                    0 <= i < tw && 0 <= j <= ty && pixel_index(tw, i, j) < alpha@.len() ==>
                        alpha@[#[trigger] pixel_index(tw, i, j)] as int
                        == downsampled_alpha(src, tw as int, f as int, i, j),
            decreases tw - tx,
        {
            let ghost x0 = tx * f;
            let ghost y0 = ty * f;
            proof {
                assert(tx * f + f <= tw * f) by (nonlinear_arith)
                    requires tx < tw, 1 <= f;
                assert(ty * f + f <= th * f) by (nonlinear_arith)
                    requires ty < th, 1 <= f;
            }
            let mut sum: u32 = 0;
            let mut oy: u32 = 0;
            while oy < f
                invariant
                    src == source@,
                    n == src.len(),
                    src.len() == tw * f * (th * f) * 4,
                    sw == tw * f,
                    1 <= f,
                    255 * (f * f) <= u32::MAX,
                    x0 == tx * f,
                    y0 == ty * f,
                    x0 + f <= tw * f,
                    y0 + f <= th * f,
                    tw * f <= u32::MAX,
                    th * f <= u32::MAX,
                    tx < tw,
                    ty < th,
                    oy <= f,
                    sum == alpha_block_sum(src, sw as int, x0, x0 + f, y0, y0 + oy),
                decreases f - oy,
            {
                proof {
                    assert((ty as u64) * (f as u64) + oy < th * f) by (nonlinear_arith)
                        requires ty < th, oy < f, 1 <= f;
                }
                let sy: u64 = (ty as u64) * (f as u64) + oy as u64;
                let mut ox: u32 = 0;
                while ox < f
                    invariant
                        src == source@,
                        n == src.len(),
                        src.len() == tw * f * (th * f) * 4,
                        sw == tw * f,
                        1 <= f,
                        255 * (f * f) <= u32::MAX,
                        x0 == tx * f,
                        y0 == ty * f,
                        x0 + f <= tw * f,
                        y0 + f <= th * f,
                        tx < tw,
                        ty < th,
                        oy < f,
                        sy == y0 + oy,
                        ox <= f,
                        sum == alpha_block_sum(src, sw as int, x0, x0 + f, y0, y0 + oy)
                            + alpha_row_sum(src, sw as int, sy as int, x0, x0 + ox),
                    decreases f - ox,
                {
                    let sx: u64 = (tx as u64) * (f as u64) + ox as u64;
                    proof {
                        lemma_source_index(tw as int, th as int, f as int, sx as int, sy as int);
                        lemma_alpha_sum_bound(src, sw as int, x0, x0 + f, y0, y0 + oy);
                        lemma_alpha_row_bound(src, sw as int, sy as int, x0, x0 + ox);
                        assert(255 * (oy * f + ox) + 255 <= 255 * (f * f)) by (nonlinear_arith)
                            requires oy < f, ox < f;
                        assert(255 * (oy * f) + 255 * ox == 255 * (oy * f + ox)) by (nonlinear_arith);
                    }
                    let index = ((sy * sw + sx) * 4 + 3) as usize;
                    sum = sum + source[index] as u32;
                    ox = ox + 1;
                }
                oy = oy + 1;
            }
            proof {
                lemma_alpha_sum_bound(src, sw as int, x0, x0 + f, y0, y0 + f);
            }
            let ff = f * f;
            proof {
                assert(1 <= ff) by (nonlinear_arith) requires ff == f * f, 1 <= f;
            }
            let value = sum / ff;
            proof {
                assert(value <= 255) by (nonlinear_arith)
                    requires value as int == sum as int / ff as int, sum as int <= 255 * (ff as int), 1 <= ff;
            }
            let ghost before = alpha@;
            alpha.push(value as u8);
            proof {
                assert(value as int == downsampled_alpha(src, tw as int, f as int, tx as int, ty as int));
                assert forall|i: int, j: int|
                    0 <= i < tw && 0 <= j <= ty && pixel_index(tw, i, j) < alpha@.len() implies
                        alpha@[#[trigger] pixel_index(tw, i, j)] as int
                        == downsampled_alpha(src, tw as int, f as int, i, j) by {
                    if pixel_index(tw, i, j) == before.len() {
                        lemma_index_unique(tw, i, j, tx as int, ty as int);
                    }
                }
            }
            tx = tx + 1;
        }
        proof {
            assert(pixel_index(tw, tw as int, ty as int) == pixel_index(tw, 0, ty + 1)) by (nonlinear_arith);
            assert(pixel_index(tw, 0, ty + 1) == tw as int * (ty + 1) as int) by (nonlinear_arith);
            assert forall|i: int, j: int|
                0 <= i < tw && 0 <= j < ty + 1 implies alpha@[#[trigger] pixel_index(tw, i, j)] as int
                    == downsampled_alpha(src, tw as int, f as int, i, j) by {
                lemma_index_in_frame(tw, (ty + 1) as u32, i, j);
                assert(pixel_index(tw, i, j) < alpha@.len());
            }
        }
        ty = ty + 1;
    }
    proof {
        assert(pixel_index(tw, 0, th as int) == tw * th) by (nonlinear_arith);
    }
    alpha
}

} // verus!
