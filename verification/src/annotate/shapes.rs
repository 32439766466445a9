use crate::geometry::{near_segment_xy, point_near_segment, spec_clamp, spec_max, spec_min};
use crate::overlay::types::CursorKind;
use vstd::prelude::*;

verus! {

/// The colours offered by the standalone editor, as RGBA.
pub const COLOR_PRESETS: [[u8; 4]; 5] = [
    [239, 68, 68, 255],
    [249, 115, 22, 255],
    [234, 179, 8, 255],
    [34, 197, 94, 255],
    [59, 130, 246, 255],
];

/// The smallest side a rectangle can be resized to.
pub const MIN_RESIZE_SIDE: i32 = 2;

/// Coordinates that an `f32` holds exactly; the editor works within them.
pub open spec fn in_canvas_range(v: int) -> bool {
    -0x100_0000 <= v <= 0x100_0000
}

#[derive(Debug, Clone, Copy, PartialEq, Eq, Structural)]
pub enum AnnotationTool {
    Rectangle,
    Arrow,
}

/// A pixel position in the image being annotated.
#[derive(Debug, Clone, Copy, PartialEq, Eq, Structural)]
pub struct ImagePoint {
    pub x: i32,
    pub y: i32,
}

impl ImagePoint {
    pub open spec fn in_canvas(self) -> bool {
        in_canvas_range(self.x as int) && in_canvas_range(self.y as int)
    }
}

/// An RGBA colour and a stroke width.
#[derive(Debug, Clone, Copy, PartialEq, Eq)]
pub struct ShapeStyle {
    pub color: [u8; 4],
    pub stroke: u32,
}

/// A shape being dragged out, from where the drag started to where it is now.
#[derive(Debug, Clone, Copy, PartialEq, Eq)]
pub struct DraftShape {
    pub tool: AnnotationTool,
    pub start: ImagePoint,
    pub current: ImagePoint,
    pub style: ShapeStyle,
}

#[derive(Debug, Clone, Copy, PartialEq, Eq)]
pub enum AnnotationShape {
    Rectangle { start: ImagePoint, end: ImagePoint, style: ShapeStyle },
    Arrow { start: ImagePoint, end: ImagePoint, style: ShapeStyle },
}

/// A rectangle with `left <= right` and `top <= bottom`; edges are inclusive.
#[derive(Debug, Clone, Copy, PartialEq, Eq, Structural)]
pub struct NormalizedRect {
    pub left: i32,
    pub top: i32,
    pub right: i32,
    pub bottom: i32,
}

#[derive(Debug, Clone, Copy, PartialEq, Eq, Structural)]
pub enum ResizeHandle {
    NorthWest,
    North,
    NorthEast,
    East,
    SouthEast,
    South,
    SouthWest,
    West,
}

/// The rectangle spanned by two corners, or `None` when it has no width or no height.
pub open spec fn rect_from_points_spec(start: ImagePoint, end: ImagePoint) -> Option<NormalizedRect> {
    let left = spec_min(start.x as int, end.x as int);
    let top = spec_min(start.y as int, end.y as int);
    let right = spec_max(start.x as int, end.x as int);
    let bottom = spec_max(start.y as int, end.y as int);
    if left == right || top == bottom {
        None
    } else {
        Some(NormalizedRect { left: left as i32, top: top as i32, right: right as i32, bottom: bottom as i32 })
    }
}

pub open spec fn squared_distance(a: ImagePoint, b: ImagePoint) -> int {
    (b.x - a.x) * (b.x - a.x) + (b.y - a.y) * (b.y - a.y)
}

impl NormalizedRect {
    pub open spec fn width_spec(self) -> int {
        self.right - self.left
    }

    pub open spec fn height_spec(self) -> int {
        self.bottom - self.top
    }

    pub open spec fn contains_spec(self, p: ImagePoint) -> bool {
        self.left <= p.x <= self.right && self.top <= p.y <= self.bottom
    }

    /// The rectangle spanned by two corners; `None` when it is flat.
    pub fn from_points(start: ImagePoint, end: ImagePoint) -> (r: Option<Self>)
        ensures
            r == rect_from_points_spec(start, end),
    {
        let left = if start.x <= end.x { start.x } else { end.x };
        let top = if start.y <= end.y { start.y } else { end.y };
        let right = if start.x >= end.x { start.x } else { end.x };
        let bottom = if start.y >= end.y { start.y } else { end.y };
        if left == right || top == bottom {
            None
        } else {
            Some(NormalizedRect { left, top, right, bottom })
        }
    }

    pub fn width(self) -> (r: i32)
        requires
            i32::MIN <= self.width_spec() <= i32::MAX,
        ensures
            r == self.width_spec(),
    {
        self.right - self.left
    }

    pub fn height(self) -> (r: i32)
        requires
            i32::MIN <= self.height_spec() <= i32::MAX,
        ensures
            r == self.height_spec(),
    {
        self.bottom - self.top
    }

    /// Inclusive containment: all four edges belong to the rectangle.
    pub fn contains(self, point: ImagePoint) -> (r: bool)
        ensures
            r == self.contains_spec(point),
    {
        point.x >= self.left && point.x <= self.right && point.y >= self.top && point.y <= self.bottom
    }

    /// The rectangle grown by `padding` on every side.
    pub fn expanded(self, padding: i32) -> (r: Self)
        requires
            i32::MIN <= self.left - padding <= i32::MAX,
            i32::MIN <= self.top - padding <= i32::MAX,
            i32::MIN <= self.right + padding <= i32::MAX,
            i32::MIN <= self.bottom + padding <= i32::MAX,
        ensures
            r.left == self.left - padding,
            r.top == self.top - padding,
            r.right == self.right + padding,
            r.bottom == self.bottom + padding,
    {
        NormalizedRect {
            left: self.left - padding,
            top: self.top - padding,
            right: self.right + padding,
            bottom: self.bottom + padding,
        }
    }
}

/// The tool that draws a shape of this kind.
pub open spec fn tool_of_shape(s: AnnotationShape) -> AnnotationTool {
    match s {
        AnnotationShape::Rectangle { .. } => AnnotationTool::Rectangle,
        AnnotationShape::Arrow { .. } => AnnotationTool::Arrow,
    }
}

/// `s` is what drag `d` drew: a shape of the drag's tool from where the drag
/// started to where it ended, in the drag's style.
pub open spec fn drawn_from(s: AnnotationShape, d: DraftShape) -> bool {
    &&& tool_of_shape(s) == d.tool
    &&& s.start_spec() == d.start
    &&& s.end_spec() == d.current
    &&& match s {
        AnnotationShape::Rectangle { style, .. } | AnnotationShape::Arrow { style, .. } => style == d.style,
    }
}

/// A finished drag makes, if anything, a shape of its own tool from its start
/// to its end in its style; a rectangle drag of at least two pixels each way
/// and an arrow drag of at least four pixels in either direction make one.
pub proof fn lemma_draft_makes_its_tool_shape(d: DraftShape)
    ensures
        d.to_shape_spec() matches Some(s) ==> drawn_from(s, d),
        d.tool == AnnotationTool::Rectangle && (d.current.x - d.start.x >= 2 || d.start.x - d.current.x >= 2)
            && (d.current.y - d.start.y >= 2 || d.start.y - d.current.y >= 2) ==> d.to_shape_spec() is Some,
        d.tool == AnnotationTool::Arrow && (d.current.x - d.start.x >= 4 || d.start.x - d.current.x >= 4
            || d.current.y - d.start.y >= 4 || d.start.y - d.current.y >= 4) ==> d.to_shape_spec() is Some,
{
    let dx = d.current.x - d.start.x;
    let dy = d.current.y - d.start.y;
    assert(dx * dx >= 0 && dy * dy >= 0) by (nonlinear_arith);
    assert((dx >= 4 || dx <= -4) ==> dx * dx >= 16) by (nonlinear_arith);
    assert((dy >= 4 || dy <= -4) ==> dy * dy >= 16) by (nonlinear_arith);
}

impl DraftShape {
    /// The shape that this drag makes: a rectangle at least two pixels wide and
    /// high, or an arrow at least four pixels long; `None` otherwise.
    pub open spec fn to_shape_spec(self) -> Option<AnnotationShape> {
        match self.tool {
            AnnotationTool::Rectangle => match rect_from_points_spec(self.start, self.current) {
                None => None,
                Some(rect) => if rect.width_spec() < 2 || rect.height_spec() < 2 {
                    None
                } else {
                    Some(AnnotationShape::Rectangle { start: self.start, end: self.current, style: self.style })
                },
            },
            AnnotationTool::Arrow => if squared_distance(self.start, self.current) < 16 {
                None
            } else {
                Some(AnnotationShape::Arrow { start: self.start, end: self.current, style: self.style })
            },
        }
    }

    pub fn to_shape(self) -> (r: Option<AnnotationShape>)
        requires
            self.start.in_canvas(),
            self.current.in_canvas(),
        ensures
            r == self.to_shape_spec(),
            r matches Some(s) ==> drawn_from(s, self),
    {
        proof {
            lemma_draft_makes_its_tool_shape(self);
        }
        match self.tool {
            AnnotationTool::Rectangle => {
                let rect = match NormalizedRect::from_points(self.start, self.current) {
                    Some(rect) => rect,
                    None => {
                        return None;
                    },
                };
                if rect.width() < 2 || rect.height() < 2 {
                    None
                } else {
                    Some(AnnotationShape::Rectangle { start: self.start, end: self.current, style: self.style })
                }
            },
            AnnotationTool::Arrow => {
                let dx = (self.current.x - self.start.x) as i64;
                let dy = (self.current.y - self.start.y) as i64;
                assert(0 <= dx * dx <= 0x4_0000_0000_0000) by (nonlinear_arith)
                    requires -0x200_0000 <= dx <= 0x200_0000;
                assert(0 <= dy * dy <= 0x4_0000_0000_0000) by (nonlinear_arith)
                    requires -0x200_0000 <= dy <= 0x200_0000;
                if dx * dx + dy * dy < 16 {
                    None
                } else {
                    Some(AnnotationShape::Arrow { start: self.start, end: self.current, style: self.style })
                }
            },
        }
    }
}

impl AnnotationShape {
    pub open spec fn start_spec(self) -> ImagePoint {
        match self {
            AnnotationShape::Rectangle { start, .. } => start,
            AnnotationShape::Arrow { start, .. } => start,
        }
    }

    pub open spec fn end_spec(self) -> ImagePoint {
        match self {
            AnnotationShape::Rectangle { end, .. } => end,
            AnnotationShape::Arrow { end, .. } => end,
        }
    }

    pub open spec fn bounds_spec(self) -> NormalizedRect {
        let s = self.start_spec();
        let e = self.end_spec();
        NormalizedRect {
            left: spec_min(s.x as int, e.x as int) as i32,
            top: spec_min(s.y as int, e.y as int) as i32,
            right: spec_max(s.x as int, e.x as int) as i32,
            bottom: spec_max(s.y as int, e.y as int) as i32,
        }
    }

    /// The same shape moved by `(dx, dy)`.
    pub open spec fn translated_spec(self, dx: int, dy: int) -> AnnotationShape {
        match self {
            AnnotationShape::Rectangle { start, end, style } => AnnotationShape::Rectangle {
                start: ImagePoint { x: (start.x + dx) as i32, y: (start.y + dy) as i32 },
                end: ImagePoint { x: (end.x + dx) as i32, y: (end.y + dy) as i32 },
                style,
            },
            AnnotationShape::Arrow { start, end, style } => AnnotationShape::Arrow {
                start: ImagePoint { x: (start.x + dx) as i32, y: (start.y + dy) as i32 },
                end: ImagePoint { x: (end.x + dx) as i32, y: (end.y + dy) as i32 },
                style,
            },
        }
    }

    pub open spec fn in_canvas(self) -> bool {
        self.start_spec().in_canvas() && self.end_spec().in_canvas()
    }

    /// The smallest rectangle holding both end points.
    pub fn bounds(self) -> (r: NormalizedRect)
        ensures
            r == self.bounds_spec(),
    {
        match self {
            AnnotationShape::Rectangle { start, end, .. } | AnnotationShape::Arrow { start, end, .. } => {
                NormalizedRect {
                    left: if start.x <= end.x { start.x } else { end.x },
                    top: if start.y <= end.y { start.y } else { end.y },
                    right: if start.x >= end.x { start.x } else { end.x },
                    bottom: if start.y >= end.y { start.y } else { end.y },
                }
            },
        }
    }

    /// The shape moved by `(dx, dy)`, style kept.
    pub fn translated(self, dx: i32, dy: i32) -> (r: Self)
        requires
            i32::MIN <= self.start_spec().x + dx <= i32::MAX,
            i32::MIN <= self.start_spec().y + dy <= i32::MAX,
            i32::MIN <= self.end_spec().x + dx <= i32::MAX,
            i32::MIN <= self.end_spec().y + dy <= i32::MAX,
        ensures
            r == self.translated_spec(dx as int, dy as int),
    {
        match self {
            AnnotationShape::Rectangle { start, end, style } => AnnotationShape::Rectangle {
                start: ImagePoint { x: start.x + dx, y: start.y + dy },
                end: ImagePoint { x: end.x + dx, y: end.y + dy },
                style,
            },
            AnnotationShape::Arrow { start, end, style } => AnnotationShape::Arrow {
                start: ImagePoint { x: start.x + dx, y: start.y + dy },
                end: ImagePoint { x: end.x + dx, y: end.y + dy },
                style,
            },
        }
    }

    /// The shape moved by `(dx, dy)`, with the move limited so that the shape
    /// ends up inside an image of the given size (whose last pixel is at
    /// `width - 1`, or at 0 for an empty side). The shape must not be wider
    /// or taller than that.
    pub fn translated_clamped(self, dx: i32, dy: i32, image_width: u32, image_height: u32) -> (r: Self)
        requires
            self.in_canvas(),
            image_width <= 0x100_0000,
            image_height <= 0x100_0000,
            self.bounds_spec().right - self.bounds_spec().left <= last_pixel(image_width),
            self.bounds_spec().bottom - self.bounds_spec().top <= last_pixel(image_height),
        ensures
            r == self.translated_spec(
                spec_clamp(dx as int, -self.bounds_spec().left, last_pixel(image_width) - self.bounds_spec().right),
                spec_clamp(dy as int, -self.bounds_spec().top, last_pixel(image_height) - self.bounds_spec().bottom),
            ),
            r.bounds_spec().left >= 0,
            r.bounds_spec().top >= 0,
            r.bounds_spec().right <= last_pixel(image_width),
            r.bounds_spec().bottom <= last_pixel(image_height),
    {
        let bounds = self.bounds();
        let max_x: i32 = if image_width == 0 { 0 } else { (image_width - 1) as i32 };
        let max_y: i32 = if image_height == 0 { 0 } else { (image_height - 1) as i32 };
        let lo_x = -bounds.left;
        let hi_x = max_x - bounds.right;
        let lo_y = -bounds.top;
        let hi_y = max_y - bounds.bottom;
        let dx = if dx < lo_x { lo_x } else if dx > hi_x { hi_x } else { dx };
        let dy = if dy < lo_y { lo_y } else if dy > hi_y { hi_y } else { dy };
        self.translated(dx, dy)
    }
}

/// The last pixel along a side of `n` pixels; 0 for an empty side.
pub open spec fn last_pixel(n: u32) -> int {
    if n == 0 { 0 } else { n - 1 }
}

/// The point lies within `radius` of the segment from `s` to `e`, measured exactly.
pub open spec fn near_segment(p: ImagePoint, s: ImagePoint, e: ImagePoint, radius: int) -> bool {
    near_segment_xy(p.x as int, p.y as int, s.x as int, s.y as int, e.x as int, e.y as int, radius)
}

/// Whether `p` lies within `radius` of the segment `s`-`e`.
pub fn is_near_segment(p: ImagePoint, s: ImagePoint, e: ImagePoint, radius: i64) -> (r: bool)
    requires
        p.in_canvas(),
        s.in_canvas(),
        e.in_canvas(),
        0 <= radius <= 0x1000_0000,
    ensures
        r == near_segment(p, s, e, radius as int),
{
    point_near_segment(p.x, p.y, s.x, s.y, e.x, e.y, radius)
}

impl AnnotationShape {
    /// Whether a click at `point` picks this shape. A rectangle is picked on a
    /// band around its border (its whole area once selected); an arrow within a
    /// few pixels of its line, a little further once selected.
    pub open spec fn hit_test_spec(self, point: ImagePoint, selected: bool) -> bool {
        match self {
            AnnotationShape::Rectangle { start, end, style } => match rect_from_points_spec(start, end) {
                None => false,
                Some(rect) => {
                    let padding = spec_max(style.stroke as int, 2) + 4;
                    let outer = NormalizedRect {
                        left: (rect.left - padding) as i32,
                        top: (rect.top - padding) as i32,
                        right: (rect.right + padding) as i32,
                        bottom: (rect.bottom + padding) as i32,
                    };
                    if !outer.contains_spec(point) {
                        false
                    } else if selected {
                        true
                    } else {
                        let il = rect.left + padding;
                        let it = rect.top + padding;
                        let ir = rect.right - padding;
                        let ib = rect.bottom - padding;
                        if il >= ir || it >= ib {
                            true
                        } else {
                            !(il <= point.x <= ir && it <= point.y <= ib)
                        }
                    }
                },
            },
            AnnotationShape::Arrow { start, end, style } => near_segment(
                point,
                start,
                end,
                spec_max(style.stroke as int, 2) + if selected { 7int } else { 5int },
            ),
        }
    }

    pub fn hit_test(self, point: ImagePoint, selected: bool) -> (r: bool)
        requires
            self.in_canvas(),
            point.in_canvas(),
            match self {
                AnnotationShape::Rectangle { style, .. } => style.stroke <= 0x0FFF_FFF0,
                AnnotationShape::Arrow { style, .. } => style.stroke <= 0x0FFF_FFF0,
            },
        ensures
            r == self.hit_test_spec(point, selected),
    {
        match self {
            AnnotationShape::Rectangle { start, end, style } => {
                let rect = match NormalizedRect::from_points(start, end) {
                    Some(rect) => rect,
                    None => {
                        return false;
                    },
                };
                let padding: i32 = (if style.stroke >= 2 { style.stroke } else { 2 }) as i32 + 4;
                let outer = rect.expanded(padding);
                if !outer.contains(point) {
                    return false;
                }
                if selected {
                    return true;
                }
                let inner_left = rect.left + padding;
                let inner_top = rect.top + padding;
                let inner_right = rect.right - padding;
                let inner_bottom = rect.bottom - padding;
                if inner_left >= inner_right || inner_top >= inner_bottom {
                    true
                } else {
                    !(NormalizedRect { left: inner_left, top: inner_top, right: inner_right, bottom: inner_bottom }).contains(point)
                }
            },
            AnnotationShape::Arrow { start, end, style } => {
                let base: i64 = if style.stroke >= 2 { style.stroke as i64 } else { 2 };
                is_near_segment(point, start, end, base + if selected { 7 } else { 5 })
            },
        }
    }
}

impl ResizeHandle {
    /// The resize cursor along the axis the handle moves.
    pub fn cursor_icon(self) -> (r: CursorKind)
        ensures
            r == match self {
                ResizeHandle::NorthWest | ResizeHandle::SouthEast => CursorKind::ResizeNwSe,
                ResizeHandle::NorthEast | ResizeHandle::SouthWest => CursorKind::ResizeNeSw,
                ResizeHandle::East | ResizeHandle::West => CursorKind::ResizeHorizontal,
                ResizeHandle::North | ResizeHandle::South => CursorKind::ResizeVertical,
            },
    {
        match self {
            ResizeHandle::NorthWest | ResizeHandle::SouthEast => CursorKind::ResizeNwSe,
            ResizeHandle::NorthEast | ResizeHandle::SouthWest => CursorKind::ResizeNeSw,
            ResizeHandle::East | ResizeHandle::West => CursorKind::ResizeHorizontal,
            ResizeHandle::North | ResizeHandle::South => CursorKind::ResizeVertical,
        }
    }

    /// The rectangle after dragging this handle to `point`: the moved edges
    /// follow the point, kept at least two pixels from the opposite edge and
    /// inside `0..=max_x` by `0..=max_y`.
    pub open spec fn resized_rect_spec(self, start: NormalizedRect, point: ImagePoint, max_x: int, max_y: int) -> NormalizedRect {
        let o = start;
        let new_left = spec_clamp(point.x as int, 0, o.right - MIN_RESIZE_SIDE) as i32;
        let new_top = spec_clamp(point.y as int, 0, o.bottom - MIN_RESIZE_SIDE) as i32;
        let new_right = spec_clamp(point.x as int, o.left + MIN_RESIZE_SIDE, max_x) as i32;
        let new_bottom = spec_clamp(point.y as int, o.top + MIN_RESIZE_SIDE, max_y) as i32;
        match self {
            ResizeHandle::NorthWest => NormalizedRect { left: new_left, top: new_top, ..o },
            ResizeHandle::North => NormalizedRect { top: new_top, ..o },
            ResizeHandle::NorthEast => NormalizedRect { right: new_right, top: new_top, ..o },
            ResizeHandle::East => NormalizedRect { right: new_right, ..o },
            ResizeHandle::SouthEast => NormalizedRect { right: new_right, bottom: new_bottom, ..o },
            ResizeHandle::South => NormalizedRect { bottom: new_bottom, ..o },
            ResizeHandle::SouthWest => NormalizedRect { left: new_left, bottom: new_bottom, ..o },
            ResizeHandle::West => NormalizedRect { left: new_left, ..o },
        }
    }

    /// Drags this handle of `start` to `point` within an image whose last
    /// pixel is `(max_x, max_y)`.
    pub fn resized_rect(self, start: NormalizedRect, point: ImagePoint, max_x: i32, max_y: i32) -> (r: NormalizedRect)
        requires
            MIN_RESIZE_SIDE <= start.right,
            MIN_RESIZE_SIDE <= start.bottom,
            start.left + MIN_RESIZE_SIDE <= max_x,
            start.top + MIN_RESIZE_SIDE <= max_y,
        ensures
            r == self.resized_rect_spec(start, point, max_x as int, max_y as int),
    {
        let mut left = start.left;
        let mut top = start.top;
        let mut right = start.right;
        let mut bottom = start.bottom;
        match self {
            ResizeHandle::NorthWest => {
                left = clamp_i32(point.x, 0, right - MIN_RESIZE_SIDE);
                top = clamp_i32(point.y, 0, bottom - MIN_RESIZE_SIDE);
            },
            ResizeHandle::North => {
                top = clamp_i32(point.y, 0, bottom - MIN_RESIZE_SIDE);
            },
            ResizeHandle::NorthEast => {
                right = clamp_i32(point.x, left + MIN_RESIZE_SIDE, max_x);
                top = clamp_i32(point.y, 0, bottom - MIN_RESIZE_SIDE);
            },
            ResizeHandle::East => {
                right = clamp_i32(point.x, left + MIN_RESIZE_SIDE, max_x);
            },
            ResizeHandle::SouthEast => {
                right = clamp_i32(point.x, left + MIN_RESIZE_SIDE, max_x);
                bottom = clamp_i32(point.y, top + MIN_RESIZE_SIDE, max_y);
            },
            ResizeHandle::South => {
                bottom = clamp_i32(point.y, top + MIN_RESIZE_SIDE, max_y);
            },
            ResizeHandle::SouthWest => {
                left = clamp_i32(point.x, 0, right - MIN_RESIZE_SIDE);
                bottom = clamp_i32(point.y, top + MIN_RESIZE_SIDE, max_y);
            },
            ResizeHandle::West => {
                left = clamp_i32(point.x, 0, right - MIN_RESIZE_SIDE);
            },
        }
        NormalizedRect { left, top, right, bottom }
    }
}

/// `value` clamped to `lo..=hi`.
pub fn clamp_i32(value: i32, lo: i32, hi: i32) -> (r: i32)
    requires
        lo <= hi,
    ensures
        r == spec_clamp(value as int, lo as int, hi as int),
{
    if value < lo {
        lo
    } else if value > hi {
        hi
    } else {
        value
    }
}

} // verus!
