use vstd::prelude::*;

verus! {

/// A pixel selection on a capture surface: top-left corner plus a positive size.
#[derive(Debug, Clone, Copy, PartialEq, Eq, Structural)]
pub struct SelectionRect {
    pub x: i32,
    pub y: i32,
    pub width: u32,
    pub height: u32,
}

pub open spec fn spec_min(a: int, b: int) -> int {
    if a <= b { a } else { b }
}

pub open spec fn spec_max(a: int, b: int) -> int {
    if a >= b { a } else { b }
}

pub open spec fn spec_clamp(v: int, lo: int, hi: int) -> int {
    if v < lo { lo } else if v > hi { hi } else { v }
}

/// The selection spanned by two corners, with both corners clamped to the
/// non-negative quadrant; `None` when it would be empty.
pub open spec fn spec_selection_from_coords(sx: int, sy: int, ex: int, ey: int) -> Option<(int, int, int, int)> {
    let left = spec_max(spec_min(sx, ex), 0);
    let top = spec_max(spec_min(sy, ey), 0);
    let right = spec_max(spec_max(sx, ex), 0);
    let bottom = spec_max(spec_max(sy, ey), 0);
    if right - left == 0 || bottom - top == 0 {
        None
    } else {
        Some((left, top, right - left, bottom - top))
    }
}

/// A drag selects the same rectangle whichever of its four corners it
/// starts from and ends at: swapping the ends, or swapping one axis only,
/// changes nothing.
pub proof fn lemma_selection_corner_independent(sx: int, sy: int, ex: int, ey: int)
    ensures
        spec_selection_from_coords(sx, sy, ex, ey) == spec_selection_from_coords(ex, ey, sx, sy),
        spec_selection_from_coords(sx, sy, ex, ey) == spec_selection_from_coords(ex, sy, sx, ey),
        spec_selection_from_coords(sx, sy, ex, ey) == spec_selection_from_coords(sx, ey, ex, sy),
{
}


/// `(px, py)` lies within `radius` of the segment from `(sx, sy)` to
/// `(ex, ey)`, measured exactly: to the nearer end when the foot of the
/// perpendicular falls outside the segment, else to the line.
pub open spec fn near_segment_xy(px: int, py: int, sx: int, sy: int, ex: int, ey: int, radius: int) -> bool {
    let dx = ex - sx;
    let dy = ey - sy;
    let wx = px - sx;
    let wy = py - sy;
    let len_sq = dx * dx + dy * dy;
    let dot = wx * dx + wy * dy;
    if len_sq == 0 || dot <= 0 {
        wx * wx + wy * wy <= radius * radius
    } else if dot >= len_sq {
        (px - ex) * (px - ex) + (py - ey) * (py - ey) <= radius * radius
    } else {
        let cross = wx * dy - wy * dx;
        cross * cross <= radius * radius * len_sq
    }
}

pub open spec fn small_coord(v: int) -> bool {
    -0x100_0000 <= v <= 0x100_0000
}

/// Whether `(px, py)` lies within `radius` of the segment `(sx, sy)`-`(ex, ey)`.
pub fn point_near_segment(px: i32, py: i32, sx: i32, sy: i32, ex: i32, ey: i32, radius: i64) -> (r: bool)
    requires
        small_coord(px as int),
        small_coord(py as int),
        small_coord(sx as int),
        small_coord(sy as int),
        small_coord(ex as int),
        small_coord(ey as int),
        0 <= radius <= 0x1000_0000,
    ensures
        r == near_segment_xy(px as int, py as int, sx as int, sy as int, ex as int, ey as int, radius as int),
{
    let dx = (ex as i128) - (sx as i128);
    let dy = (ey as i128) - (sy as i128);
    let wx = (px as i128) - (sx as i128);
    let wy = (py as i128) - (sy as i128);
    let r128 = radius as i128;
    assert(0 <= r128 * r128 <= 0x100_0000_0000_0000) by (nonlinear_arith)
        requires 0 <= r128 <= 0x1000_0000;
    let rr = r128 * r128;
    assert(0 <= dx * dx <= 0x4_0000_0000_0000) by (nonlinear_arith)
        requires -0x200_0000 <= dx <= 0x200_0000;
    assert(0 <= dy * dy <= 0x4_0000_0000_0000) by (nonlinear_arith)
        requires -0x200_0000 <= dy <= 0x200_0000;
    assert(0 <= wx * wx <= 0x4_0000_0000_0000) by (nonlinear_arith)
        requires -0x200_0000 <= wx <= 0x200_0000;
    assert(0 <= wy * wy <= 0x4_0000_0000_0000) by (nonlinear_arith)
        requires -0x200_0000 <= wy <= 0x200_0000;
    assert(-0x4_0000_0000_0000 <= wx * dx <= 0x4_0000_0000_0000) by (nonlinear_arith)
        requires -0x200_0000 <= dx <= 0x200_0000, -0x200_0000 <= wx <= 0x200_0000;
    assert(-0x4_0000_0000_0000 <= wy * dy <= 0x4_0000_0000_0000) by (nonlinear_arith)
        requires -0x200_0000 <= dy <= 0x200_0000, -0x200_0000 <= wy <= 0x200_0000;
    assert(-0x4_0000_0000_0000 <= wx * dy <= 0x4_0000_0000_0000) by (nonlinear_arith)
        requires -0x200_0000 <= dy <= 0x200_0000, -0x200_0000 <= wx <= 0x200_0000;
    assert(-0x4_0000_0000_0000 <= wy * dx <= 0x4_0000_0000_0000) by (nonlinear_arith)
        requires -0x200_0000 <= dx <= 0x200_0000, -0x200_0000 <= wy <= 0x200_0000;
    let len_sq = dx * dx + dy * dy;
    let dot = wx * dx + wy * dy;
    if len_sq == 0 || dot <= 0 {
        wx * wx + wy * wy <= rr
    } else if dot >= len_sq {
        let qx = (px as i128) - (ex as i128);
        let qy = (py as i128) - (ey as i128);
        assert(0 <= qx * qx <= 0x4_0000_0000_0000) by (nonlinear_arith)
            requires -0x200_0000 <= qx <= 0x200_0000;
        assert(0 <= qy * qy <= 0x4_0000_0000_0000) by (nonlinear_arith)
            requires -0x200_0000 <= qy <= 0x200_0000;
        qx * qx + qy * qy <= rr
    } else {
        let cross = wx * dy - wy * dx;
        assert(0 <= cross * cross <= 0x40_0000_0000_0000_0000_0000_0000) by (nonlinear_arith)
            requires -0x8_0000_0000_0000 <= cross <= 0x8_0000_0000_0000;
        assert(0 <= rr * len_sq <= 0x800_0000_0000_0000_0000_0000_0000) by (nonlinear_arith)
            requires 0 <= rr <= 0x100_0000_0000_0000, 0 <= len_sq <= 0x8_0000_0000_0000;
        cross * cross <= rr * len_sq
    }
}

impl SelectionRect {
    pub open spec fn right_spec(self) -> int {
        self.x + self.width
    }

    pub open spec fn bottom_spec(self) -> int {
        self.y + self.height
    }

    pub open spec fn contains_spec(self, x: int, y: int) -> bool {
        self.x <= x < self.right_spec() && self.y <= y < self.bottom_spec()
    }

    /// Normalises a drag between two corners into a selection.
    pub fn from_coords(start_x: i32, start_y: i32, end_x: i32, end_y: i32) -> (r: Option<Self>)
        ensures
            match spec_selection_from_coords(start_x as int, start_y as int, end_x as int, end_y as int) {
                None => r.is_none(),
                Some((x, y, w, h)) => r matches Some(s) && s.x == x && s.y == y && s.width == w && s.height == h,
            },
            r matches Some(s) ==> s.width > 0 && s.height > 0 && s.x >= 0 && s.y >= 0
                && s.right_spec() <= i32::MAX && s.bottom_spec() <= i32::MAX,
    {
        let lo_x = if start_x <= end_x { start_x } else { end_x };
        let hi_x = if start_x >= end_x { start_x } else { end_x };
        let lo_y = if start_y <= end_y { start_y } else { end_y };
        let hi_y = if start_y >= end_y { start_y } else { end_y };
        let left = if lo_x >= 0 { lo_x } else { 0 };
        let top = if lo_y >= 0 { lo_y } else { 0 };
        let right = if hi_x >= 0 { hi_x } else { 0 };
        let bottom = if hi_y >= 0 { hi_y } else { 0 };
        let width = (right - left) as u32;
        let height = (bottom - top) as u32;
        if width == 0 || height == 0 {
            None
        } else {
            Some(SelectionRect { x: left, y: top, width, height })
        }
    }

    /// Half-open containment: the right and bottom edges are outside.
    /// The sizes are taken as `i32`, as the edge arithmetic does.
    pub fn contains(self, x: i32, y: i32) -> (r: bool)
        requires
            i32::MIN <= self.x + (self.width as i32) <= i32::MAX,
            i32::MIN <= self.y + (self.height as i32) <= i32::MAX,
        ensures
            r == (self.x <= x < self.x + (self.width as i32) && self.y <= y < self.y + (self.height as i32)),
            self.width <= i32::MAX && self.height <= i32::MAX ==> r == self.contains_spec(x as int, y as int),
    {
        x >= self.x && x < self.x + self.width as i32 && y >= self.y && y < self.y + self.height as i32
    }
}

} // verus!
