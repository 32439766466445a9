use crate::geometry::{spec_clamp, spec_max, spec_min, spec_selection_from_coords, SelectionRect};
use crate::overlay::types::{fits_i32, in_range, CursorPoint, IntRect, NormalizedRect, COORD_LIMIT};
use vstd::prelude::*;

verus! {

impl CursorPoint {
    /// The point with each coordinate clamped into `0..=max`.
    pub fn clamp(self, max_x: i32, max_y: i32) -> (r: Self)
        requires
            0 <= max_x,
            0 <= max_y,
        ensures
            r.x == spec_clamp(self.x as int, 0, max_x as int),
            r.y == spec_clamp(self.y as int, 0, max_y as int),
    {
        Self { x: clamp_i32(self.x, 0, max_x), y: clamp_i32(self.y, 0, max_y) }
    }
}

/// `value` clamped into `lo..=hi`.
pub fn clamp_i32(value: i32, lo: i32, hi: i32) -> (r: i32)
    requires
        lo <= hi,
    ensures
        r == spec_clamp(value as int, lo as int, hi as int),
{
    if value < lo {
        lo
    } else if value > hi {
        hi
    } else {
        value
    }
}

impl SelectionRect {
    /// The selection spanned by a drag between two points.
    pub fn from_points(start: CursorPoint, end: CursorPoint) -> (r: Option<Self>)
        ensures
            match spec_selection_from_coords(start.x as int, start.y as int, end.x as int, end.y as int) {
                None => r.is_none(),
                Some((x, y, w, h)) => r matches Some(s) && s.x == x && s.y == y && s.width == w && s.height == h,
            },
    {
        Self::from_coords(start.x, start.y, end.x, end.y)
    }
}

impl NormalizedRect {
    pub open spec fn width_spec(self) -> int {
        self.right - self.left
    }

    pub open spec fn height_spec(self) -> int {
        self.bottom - self.top
    }

    pub open spec fn contains_spec(self, p: CursorPoint) -> bool {
        self.left <= p.x < self.right && self.top <= p.y < self.bottom
    }

    pub open spec fn area_spec(self) -> int {
        spec_max(self.width_spec(), 0) * spec_max(self.height_spec(), 0)
    }

    pub open spec fn expanded_spec(self, padding: int) -> Self {
        NormalizedRect {
            left: (self.left - padding) as i32,
            top: (self.top - padding) as i32,
            right: (self.right + padding) as i32,
            bottom: (self.bottom + padding) as i32,
        }
    }

    /// The rectangle spanned by two corners; `None` when it has no area.
    pub open spec fn from_points_spec(start: CursorPoint, end: CursorPoint) -> Option<Self> {
        let left = spec_min(start.x as int, end.x as int);
        let top = spec_min(start.y as int, end.y as int);
        let right = spec_max(start.x as int, end.x as int);
        let bottom = spec_max(start.y as int, end.y as int);
        if right - left < 1 || bottom - top < 1 {
            None
        } else {
            Some(NormalizedRect { left: left as i32, top: top as i32, right: right as i32, bottom: bottom as i32 })
        }
    }

    pub fn from_points(start: CursorPoint, end: CursorPoint) -> (r: Option<Self>)
        ensures
            r == Self::from_points_spec(start, end),
    {
        let left = if start.x <= end.x { start.x } else { end.x };
        let top = if start.y <= end.y { start.y } else { end.y };
        let right = if start.x >= end.x { start.x } else { end.x };
        let bottom = if start.y >= end.y { start.y } else { end.y };
        if (right as i64) - (left as i64) < 1 || (bottom as i64) - (top as i64) < 1 {
            None
        } else {
            Some(Self { left, top, right, bottom })
        }
    }

    /// The edges of a selection.
    pub fn from_selection_rect(rect: SelectionRect) -> (r: Self)
        requires
            rect.x + rect.width <= i32::MAX,
            rect.y + rect.height <= i32::MAX,
        ensures
            r.left == rect.x,
            r.top == rect.y,
            r.right == rect.x + rect.width,
            r.bottom == rect.y + rect.height,
    {
        Self {
            left: rect.x,
            top: rect.y,
            right: ((rect.x as i64) + (rect.width as i64)) as i32,
            bottom: ((rect.y as i64) + (rect.height as i64)) as i32,
        }
    }

    /// The selection with these edges; `None` when it has no area.
    pub fn to_selection_rect(self) -> (r: Option<SelectionRect>)
        requires
            self.sized(),
        ensures
            match r {
                None => self.width_spec() <= 0 || self.height_spec() <= 0,
                Some(s) => self.width_spec() > 0 && self.height_spec() > 0 && s.x == self.left
                    && s.y == self.top && s.width == self.width_spec() && s.height == self.height_spec(),
            },
    {
        let width = self.width();
        let height = self.height();
        if width <= 0 || height <= 0 {
            None
        } else {
            Some(SelectionRect { x: self.left, y: self.top, width: width as u32, height: height as u32 })
        }
    }

    pub fn width(self) -> (r: i32)
        requires
            self.sized(),
        ensures
            r == self.width_spec(),
    {
        self.right - self.left
    }

    pub fn height(self) -> (r: i32)
        requires
            self.sized(),
        ensures
            r == self.height_spec(),
    {
        self.bottom - self.top
    }

    /// The number of pixels held; zero for an empty rectangle.
    pub fn area(self) -> (r: u64)
        requires
            self.sized(),
        ensures
            r == self.area_spec(),
    {
        let width: i32 = if self.width() > 0 { self.width() } else { 0 };
        let height: i32 = if self.height() > 0 { self.height() } else { 0 };
        assert(0 <= width * height <= 0x7fff_ffff * 0x7fff_ffff) by (nonlinear_arith)
            requires
                0 <= width <= 0x7fff_ffff,
                0 <= height <= 0x7fff_ffff,
        ;
        (width as u64) * (height as u64)
    }

    /// The last column held.
    pub fn max_inclusive_x(self) -> (r: i32)
        requires
            fits_i32(self.right - 1),
        ensures
            r == self.right - 1,
    {
        self.right - 1
    }

    /// The last row held.
    pub fn max_inclusive_y(self) -> (r: i32)
        requires
            fits_i32(self.bottom - 1),
        ensures
            r == self.bottom - 1,
    {
        self.bottom - 1
    }

    pub fn contains(self, point: CursorPoint) -> (r: bool)
        ensures
            r == self.contains_spec(point),
    {
        point.x >= self.left && point.x < self.right && point.y >= self.top && point.y < self.bottom
    }

    /// Moved by `(dx, dy)`, with the move cut short so that the rectangle stays
    /// inside `bounds`.
    pub open spec fn translated_clamped_spec(self, dx: int, dy: int, bounds: NormalizedRect) -> Self {
        let cdx = spec_clamp(dx, bounds.left - self.left, bounds.right - self.right);
        let cdy = spec_clamp(dy, bounds.top - self.top, bounds.bottom - self.bottom);
        NormalizedRect {
            left: (self.left + cdx) as i32,
            top: (self.top + cdy) as i32,
            right: (self.right + cdx) as i32,
            bottom: (self.bottom + cdy) as i32,
        }
    }

    pub fn translated_clamped(self, dx: i32, dy: i32, bounds: NormalizedRect) -> (r: Self)
        requires
            self.wf(),
            bounds.wf(),
            0 <= self.width_spec() <= bounds.width_spec(),
            0 <= self.height_spec() <= bounds.height_spec(),
        ensures
            ({
                let cdx = spec_clamp(dx as int, bounds.left - self.left, bounds.right - self.right);
                let cdy = spec_clamp(dy as int, bounds.top - self.top, bounds.bottom - self.bottom);
                &&& r.left == self.left + cdx
                &&& r.right == self.right + cdx
                &&& r.top == self.top + cdy
                &&& r.bottom == self.bottom + cdy
            }),
            r == self.translated_clamped_spec(dx as int, dy as int, bounds),
            r.width_spec() == self.width_spec(),
            r.height_spec() == self.height_spec(),
            bounds.left <= r.left,
            r.right <= bounds.right,
            bounds.top <= r.top,
            r.bottom <= bounds.bottom,
            r.wf(),
    {
        let dx = clamp_i32(dx, bounds.left - self.left, bounds.right - self.right);
        let dy = clamp_i32(dy, bounds.top - self.top, bounds.bottom - self.bottom);
        Self { left: self.left + dx, top: self.top + dy, right: self.right + dx, bottom: self.bottom + dy }
    }

    /// Grown by `padding` on every side (shrunk for a negative padding).
    pub fn expanded(self, padding: i32) -> (r: Self)
        requires
            fits_i32(self.left - padding),
            fits_i32(self.top - padding),
            fits_i32(self.right + padding),
            fits_i32(self.bottom + padding),
        ensures
            r == self.expanded_spec(padding as int),
            r.left == self.left - padding,
            r.top == self.top - padding,
            r.right == self.right + padding,
            r.bottom == self.bottom + padding,
    {
        Self {
            left: self.left - padding,
            top: self.top - padding,
            right: self.right + padding,
            bottom: self.bottom + padding,
        }
    }
}

impl IntRect {
    pub open spec fn contains_spec(self, p: CursorPoint) -> bool {
        self.left <= p.x < self.right && self.top <= p.y < self.bottom
    }

    pub fn contains(self, point: CursorPoint) -> (r: bool)
        ensures
            r == self.contains_spec(point),
    {
        point.x >= self.left && point.x < self.right && point.y >= self.top && point.y < self.bottom
    }

    pub fn width(self) -> (r: i32)
        requires
            fits_i32(self.right - self.left),
        ensures
            r == self.right - self.left,
    {
        self.right - self.left
    }
}

/// A 16-bit word read as a signed number.
pub open spec fn signed_word(w: int) -> int {
    if w >= 0x8000 { w - 0x1_0000 } else { w }
}

fn word_as_signed(w: i32) -> (r: i32)
    requires
        0 <= w <= 0xffff,
    ensures
        r == signed_word(w as int),
{
    let r = w as i16 as i32;
    assert(r == signed_word(w as int)) by (bit_vector)
        requires
            0 <= w <= 0xffff,
            r == w as i16 as i32;
    r
}

/// The cursor position a mouse message carries in its `lParam`: the low and
/// high words of its low 32 bits, each signed.
pub fn point_from_lparam(lparam: isize) -> (r: CursorPoint)
    ensures
        r.x == signed_word(((lparam as i32) & 0xffff) as int),
        r.y == signed_word((((lparam as i32) >> 16) & 0xffff) as int),
{
    let value = lparam as i32;
    let low = value & 0xffff;
    let high = (value >> 16) & 0xffff;
    assert(0 <= low <= 0xffff) by (bit_vector)
        requires low == value & 0xffff;
    assert(0 <= high <= 0xffff) by (bit_vector)
        requires high == (value >> 16) & 0xffff;
    CursorPoint { x: word_as_signed(low), y: word_as_signed(high) }
}

} // verus!
