use crate::geometry::{near_segment_xy, point_near_segment, spec_clamp, spec_max, spec_min};
use crate::overlay::geometry::clamp_i32;
use crate::overlay::text::{
    badge_bounds_spec, badge_radius_spec, number_badge_bounds, number_badge_radius,
    text_box_bounds_spec, text_box_bounds_styled, TEXT_CHAR_LIMIT,
};
use crate::overlay::types::{
    fits_i32, in_range, AnnotationShape, AnnotationTool, CursorKind, CursorPoint, DraftShape,
    NormalizedRect, ResizeHandle, ShapeStyle, COORD_LIMIT, HANDLE_HIT_RADIUS, MIN_SELECTION_SPAN,
    TEXT_BOX_MIN_HEIGHT, TEXT_BOX_MIN_WIDTH,
};
use vstd::prelude::*;

verus! {

/// Half of `v`, rounded towards zero as integer division does.
pub open spec fn trunc_half(v: int) -> int {
    if v >= 0 { v / 2 } else { -((-v) / 2) }
}

impl ResizeHandle {
    pub open spec fn cursor_kind_spec(self) -> CursorKind {
        match self {
            ResizeHandle::NorthWest | ResizeHandle::SouthEast => CursorKind::ResizeNwSe,
            ResizeHandle::NorthEast | ResizeHandle::SouthWest => CursorKind::ResizeNeSw,
            ResizeHandle::East | ResizeHandle::West => CursorKind::ResizeHorizontal,
            ResizeHandle::North | ResizeHandle::South => CursorKind::ResizeVertical,
        }
    }

    /// The resize cursor along the axis this handle moves.
    pub fn cursor_kind(self) -> (r: CursorKind)
        ensures
            r == self.cursor_kind_spec(),
    {
        match self {
            ResizeHandle::NorthWest | ResizeHandle::SouthEast => CursorKind::ResizeNwSe,
            ResizeHandle::NorthEast | ResizeHandle::SouthWest => CursorKind::ResizeNeSw,
            ResizeHandle::East | ResizeHandle::West => CursorKind::ResizeHorizontal,
            ResizeHandle::North | ResizeHandle::South => CursorKind::ResizeVertical,
        }
    }

    pub open spec fn is_corner(self) -> bool {
        self == ResizeHandle::NorthWest || self == ResizeHandle::NorthEast
            || self == ResizeHandle::SouthEast || self == ResizeHandle::SouthWest
    }

    /// Where this handle sits on `rect`: corners at the corners, edge handles
    /// at the middle of their edge.
    pub open spec fn position_spec(self, rect: NormalizedRect) -> CursorPoint {
        let cx = (rect.left + trunc_half(rect.right - rect.left)) as i32;
        let cy = (rect.top + trunc_half(rect.bottom - rect.top)) as i32;
        match self {
            ResizeHandle::NorthWest => CursorPoint { x: rect.left, y: rect.top },
            ResizeHandle::North => CursorPoint { x: cx, y: rect.top },
            ResizeHandle::NorthEast => CursorPoint { x: rect.right, y: rect.top },
            ResizeHandle::East => CursorPoint { x: rect.right, y: cy },
            ResizeHandle::SouthEast => CursorPoint { x: rect.right, y: rect.bottom },
            ResizeHandle::South => CursorPoint { x: cx, y: rect.bottom },
            ResizeHandle::SouthWest => CursorPoint { x: rect.left, y: rect.bottom },
            ResizeHandle::West => CursorPoint { x: rect.left, y: cy },
        }
    }

    /// The eight handles, clockwise from the top-left corner, with their positions.
    pub fn positions(rect: NormalizedRect) -> (r: [(ResizeHandle, CursorPoint); 8])
        requires
            rect.wf(),
        ensures
            r@.len() == 8,
            r@[0].0 == ResizeHandle::NorthWest,
            r@[1].0 == ResizeHandle::North,
            r@[2].0 == ResizeHandle::NorthEast,
            r@[3].0 == ResizeHandle::East,
            r@[4].0 == ResizeHandle::SouthEast,
            r@[5].0 == ResizeHandle::South,
            r@[6].0 == ResizeHandle::SouthWest,
            r@[7].0 == ResizeHandle::West,
            forall|i: int| 0 <= i < 8 ==> #[trigger] r@[i].1 == r@[i].0.position_spec(rect),
    {
        let center_x = rect.left + (rect.right - rect.left) / 2;
        let center_y = rect.top + (rect.bottom - rect.top) / 2;
        let r = [
            (ResizeHandle::NorthWest, CursorPoint { x: rect.left, y: rect.top }),
            (ResizeHandle::North, CursorPoint { x: center_x, y: rect.top }),
            (ResizeHandle::NorthEast, CursorPoint { x: rect.right, y: rect.top }),
            (ResizeHandle::East, CursorPoint { x: rect.right, y: center_y }),
            (ResizeHandle::SouthEast, CursorPoint { x: rect.right, y: rect.bottom }),
            (ResizeHandle::South, CursorPoint { x: center_x, y: rect.bottom }),
            (ResizeHandle::SouthWest, CursorPoint { x: rect.left, y: rect.bottom }),
            (ResizeHandle::West, CursorPoint { x: rect.left, y: center_y }),
        ];
        assert(r@[0].1 == r@[0].0.position_spec(rect));
        assert(r@[1].1 == r@[1].0.position_spec(rect));
        assert(r@[2].1 == r@[2].0.position_spec(rect));
        assert(r@[3].1 == r@[3].0.position_spec(rect));
        assert(r@[4].1 == r@[4].0.position_spec(rect));
        assert(r@[5].1 == r@[5].0.position_spec(rect));
        assert(r@[6].1 == r@[6].0.position_spec(rect));
        assert(r@[7].1 == r@[7].0.position_spec(rect));
        assert(forall|i: int| 0 <= i < 8 ==> #[trigger] r@[i].1 == r@[i].0.position_spec(rect));
        r
    }

    /// The handle grabbed by a press at `point`: a corner within the hit
    /// radius of it first (in clockwise order from the top-left), then an
    /// edge near which the point lies, away from the corners.
    pub open spec fn hit_at_spec(rect: NormalizedRect, point: CursorPoint) -> Option<ResizeHandle> {
        let near = |h: ResizeHandle| {
            let c = h.position_spec(rect);
            -HANDLE_HIT_RADIUS <= point.x - c.x <= HANDLE_HIT_RADIUS
                && -HANDLE_HIT_RADIUS <= point.y - c.y <= HANDLE_HIT_RADIUS
        };
        let near_left = -HANDLE_HIT_RADIUS <= point.x - rect.left <= HANDLE_HIT_RADIUS;
        let near_right = -HANDLE_HIT_RADIUS <= point.x - rect.right <= HANDLE_HIT_RADIUS;
        let near_top = -HANDLE_HIT_RADIUS <= point.y - rect.top <= HANDLE_HIT_RADIUS;
        let near_bottom = -HANDLE_HIT_RADIUS <= point.y - rect.bottom <= HANDLE_HIT_RADIUS;
        let within_x = rect.left + HANDLE_HIT_RADIUS <= point.x <= rect.right - HANDLE_HIT_RADIUS;
        let within_y = rect.top + HANDLE_HIT_RADIUS <= point.y <= rect.bottom - HANDLE_HIT_RADIUS;
        if near(ResizeHandle::NorthWest) {
            Some(ResizeHandle::NorthWest)
        } else if near(ResizeHandle::NorthEast) {
            Some(ResizeHandle::NorthEast)
        } else if near(ResizeHandle::SouthEast) {
            Some(ResizeHandle::SouthEast)
        } else if near(ResizeHandle::SouthWest) {
            Some(ResizeHandle::SouthWest)
        } else if near_top && within_x {
            Some(ResizeHandle::North)
        } else if near_bottom && within_x {
            Some(ResizeHandle::South)
        } else if near_left && within_y {
            Some(ResizeHandle::West)
        } else if near_right && within_y {
            Some(ResizeHandle::East)
        } else {
            None
        }
    }

    pub fn hit_at(rect: NormalizedRect, point: CursorPoint) -> (r: Option<ResizeHandle>)
        requires
            rect.wf(),
            point.wf(),
        ensures
            r == Self::hit_at_spec(rect, point),
    {
        let positions = Self::positions(rect);
        let mut i: usize = 0;
        while i < 8
            invariant
                rect.wf(),
                point.wf(),
                i <= 8,
                positions@.len() == 8,
                forall|k: int| 0 <= k < 8 ==> #[trigger] positions@[k].1 == positions@[k].0.position_spec(rect),
                positions@[0].0 == ResizeHandle::NorthWest,
                positions@[1].0 == ResizeHandle::North,
                positions@[2].0 == ResizeHandle::NorthEast,
                positions@[3].0 == ResizeHandle::East,
                positions@[4].0 == ResizeHandle::SouthEast,
                positions@[5].0 == ResizeHandle::South,
                positions@[6].0 == ResizeHandle::SouthWest,
                positions@[7].0 == ResizeHandle::West,
                forall|k: int| 0 <= k < i && (#[trigger] positions@[k]).0.is_corner() ==> !({
                    let c = positions@[k].1;
                    -HANDLE_HIT_RADIUS <= point.x - c.x <= HANDLE_HIT_RADIUS
                        && -HANDLE_HIT_RADIUS <= point.y - c.y <= HANDLE_HIT_RADIUS
                }),
            decreases 8 - i,
        {
            let (handle, center) = positions[i];
            let is_corner = match handle {
                ResizeHandle::NorthWest | ResizeHandle::NorthEast | ResizeHandle::SouthEast
                | ResizeHandle::SouthWest => true,
                _ => false,
            };
            let dx = point.x - center.x;
            let dy = point.y - center.y;
            if is_corner && -HANDLE_HIT_RADIUS <= dx && dx <= HANDLE_HIT_RADIUS
                && -HANDLE_HIT_RADIUS <= dy && dy <= HANDLE_HIT_RADIUS {
                proof {
                    assert(positions@[0].0.is_corner());
                    assert(positions@[2].0.is_corner());
                    assert(positions@[4].0.is_corner());
                    assert(positions@[6].0.is_corner());
                }
                return Some(handle);
            }
            i = i + 1;
        }
        proof {
            assert(positions@[0].0.is_corner());
            assert(positions@[2].0.is_corner());
            assert(positions@[4].0.is_corner());
            assert(positions@[6].0.is_corner());
        }
        let near_left = -HANDLE_HIT_RADIUS <= point.x - rect.left && point.x - rect.left <= HANDLE_HIT_RADIUS;
        let near_right = -HANDLE_HIT_RADIUS <= point.x - rect.right && point.x - rect.right <= HANDLE_HIT_RADIUS;
        let near_top = -HANDLE_HIT_RADIUS <= point.y - rect.top && point.y - rect.top <= HANDLE_HIT_RADIUS;
        let near_bottom = -HANDLE_HIT_RADIUS <= point.y - rect.bottom && point.y - rect.bottom <= HANDLE_HIT_RADIUS;
        let within_x = point.x >= rect.left + HANDLE_HIT_RADIUS && point.x <= rect.right - HANDLE_HIT_RADIUS;
        let within_y = point.y >= rect.top + HANDLE_HIT_RADIUS && point.y <= rect.bottom - HANDLE_HIT_RADIUS;
        if near_top && within_x {
            return Some(ResizeHandle::North);
        }
        if near_bottom && within_x {
            return Some(ResizeHandle::South);
        }
        if near_left && within_y {
            return Some(ResizeHandle::West);
        }
        if near_right && within_y {
            return Some(ResizeHandle::East);
        }
        None
    }

    /// `start` with this handle dragged to `point`: each moved edge follows
    /// the point, kept inside `bounds` and at least the minimum span from the
    /// opposite edge.
    pub open spec fn resized_spec(self, start: NormalizedRect, point: CursorPoint, bounds: NormalizedRect) -> NormalizedRect {
        let left = spec_clamp(point.x as int, bounds.left as int, start.right - MIN_SELECTION_SPAN) as i32;
        let top = spec_clamp(point.y as int, bounds.top as int, start.bottom - MIN_SELECTION_SPAN) as i32;
        let right = spec_clamp(point.x as int, start.left + MIN_SELECTION_SPAN, bounds.right as int) as i32;
        let bottom = spec_clamp(point.y as int, start.top + MIN_SELECTION_SPAN, bounds.bottom as int) as i32;
        match self {
            ResizeHandle::NorthWest => NormalizedRect { left, top, right: start.right, bottom: start.bottom },
            ResizeHandle::North => NormalizedRect { left: start.left, top, right: start.right, bottom: start.bottom },
            ResizeHandle::NorthEast => NormalizedRect { left: start.left, top, right, bottom: start.bottom },
            ResizeHandle::East => NormalizedRect { left: start.left, top: start.top, right, bottom: start.bottom },
            ResizeHandle::SouthEast => NormalizedRect { left: start.left, top: start.top, right, bottom },
            ResizeHandle::South => NormalizedRect { left: start.left, top: start.top, right: start.right, bottom },
            ResizeHandle::SouthWest => NormalizedRect { left, top: start.top, right: start.right, bottom },
            ResizeHandle::West => NormalizedRect { left, top: start.top, right: start.right, bottom: start.bottom },
        }
    }

    /// Only the edges that the handle moves are clamped, so the bounds must
    /// leave room for the minimum span on each axis the handle moves.
    pub open spec fn resize_fits(self, start: NormalizedRect, bounds: NormalizedRect) -> bool {
        let moves_left = self == ResizeHandle::NorthWest || self == ResizeHandle::SouthWest || self == ResizeHandle::West;
        let moves_right = self == ResizeHandle::NorthEast || self == ResizeHandle::SouthEast || self == ResizeHandle::East;
        let moves_top = self == ResizeHandle::NorthWest || self == ResizeHandle::NorthEast || self == ResizeHandle::North;
        let moves_bottom = self == ResizeHandle::SouthWest || self == ResizeHandle::SouthEast || self == ResizeHandle::South;
        &&& moves_left ==> bounds.left <= start.right - MIN_SELECTION_SPAN
        &&& moves_right ==> start.left + MIN_SELECTION_SPAN <= bounds.right
        &&& moves_top ==> bounds.top <= start.bottom - MIN_SELECTION_SPAN
        &&& moves_bottom ==> start.top + MIN_SELECTION_SPAN <= bounds.bottom
    }

    pub fn resized_rect_with_bounds(self, start: NormalizedRect, point: CursorPoint, bounds: NormalizedRect) -> (r: NormalizedRect)
        requires
            start.wf(),
            bounds.wf(),
            self.resize_fits(start, bounds),
        ensures
            r == self.resized_spec(start, point, bounds),
            r.wf(),
            start.inside(bounds) ==> r.inside(bounds),
    {
        let min_right = start.left + MIN_SELECTION_SPAN;
        let min_bottom = start.top + MIN_SELECTION_SPAN;
        let max_left = start.right - MIN_SELECTION_SPAN;
        let max_top = start.bottom - MIN_SELECTION_SPAN;
        match self {
            ResizeHandle::NorthWest => NormalizedRect {
                left: clamp_i32(point.x, bounds.left, max_left),
                top: clamp_i32(point.y, bounds.top, max_top),
                right: start.right,
                bottom: start.bottom,
            },
            ResizeHandle::North => NormalizedRect {
                left: start.left,
                top: clamp_i32(point.y, bounds.top, max_top),
                right: start.right,
                bottom: start.bottom,
            },
            ResizeHandle::NorthEast => NormalizedRect {
                left: start.left,
                top: clamp_i32(point.y, bounds.top, max_top),
                right: clamp_i32(point.x, min_right, bounds.right),
                bottom: start.bottom,
            },
            ResizeHandle::East => NormalizedRect {
                left: start.left,
                top: start.top,
                right: clamp_i32(point.x, min_right, bounds.right),
                bottom: start.bottom,
            },
            ResizeHandle::SouthEast => NormalizedRect {
                left: start.left,
                top: start.top,
                right: clamp_i32(point.x, min_right, bounds.right),
                bottom: clamp_i32(point.y, min_bottom, bounds.bottom),
            },
            ResizeHandle::South => NormalizedRect {
                left: start.left,
                top: start.top,
                right: start.right,
                bottom: clamp_i32(point.y, min_bottom, bounds.bottom),
            },
            ResizeHandle::SouthWest => NormalizedRect {
                left: clamp_i32(point.x, bounds.left, max_left),
                top: start.top,
                right: start.right,
                bottom: clamp_i32(point.y, min_bottom, bounds.bottom),
            },
            ResizeHandle::West => NormalizedRect {
                left: clamp_i32(point.x, bounds.left, max_left),
                top: start.top,
                right: start.right,
                bottom: start.bottom,
            },
        }
    }
}

/// The square of the distance dragged.
pub open spec fn drag_len_sq(d: DraftShape) -> int {
    (d.current.x - d.start.x) * (d.current.x - d.start.x) + (d.current.y - d.start.y) * (d.current.y - d.start.y)
}

/// A box shape needs at least the minimum span each way.
pub open spec fn box_big_enough(d: DraftShape) -> bool {
    match NormalizedRect::from_points_spec(d.start, d.current) {
        None => false,
        Some(rect) => rect.width_spec() >= MIN_SELECTION_SPAN && rect.height_spec() >= MIN_SELECTION_SPAN,
    }
}

/// The tool that draws a shape of this kind.
pub open spec fn tool_of_shape(s: AnnotationShape) -> AnnotationTool {
    match s {
        AnnotationShape::Rectangle { .. } => AnnotationTool::Rectangle,
        AnnotationShape::Ellipse { .. } => AnnotationTool::Ellipse,
        AnnotationShape::Line { .. } => AnnotationTool::Line,
        AnnotationShape::Arrow { .. } => AnnotationTool::Arrow,
        AnnotationShape::Mosaic { .. } => AnnotationTool::Mosaic,
        AnnotationShape::Text { .. } => AnnotationTool::Text,
        AnnotationShape::Number { .. } => AnnotationTool::Number,
    }
}

/// `s` is what drag `d` drew: a shape of the drag's own tool, running from
/// where the drag started to where it ended, in the drag's style.
pub open spec fn drawn_from(s: AnnotationShape, d: DraftShape) -> bool {
    &&& tool_of_shape(s) == d.tool
    &&& match s {
        AnnotationShape::Rectangle { start, end, style }
        | AnnotationShape::Ellipse { start, end, style }
        | AnnotationShape::Line { start, end, style }
        | AnnotationShape::Arrow { start, end, style }
        | AnnotationShape::Mosaic { start, end, style } => start == d.start && end == d.current && style == d.style,
        _ => false,
    }
}

/// A finished drag makes, if anything, a shape of the drag's own tool from
/// its start to its end in its style; the pointer, select, text and badge
/// tools make none; a drag of each drawing tool that is large enough (at
/// least 8 pixels each way for boxes, 4 pixels long for lines) makes one.
pub proof fn lemma_draft_makes_its_tool_shape(d: DraftShape)
    ensures
        d.to_shape_spec() matches Some(s) ==> drawn_from(s, d),
        (d.tool == AnnotationTool::Mouse || d.tool == AnnotationTool::Select || d.tool == AnnotationTool::Text
            || d.tool == AnnotationTool::Number) ==> d.to_shape_spec() is None,
        (d.tool == AnnotationTool::Rectangle || d.tool == AnnotationTool::Ellipse || d.tool == AnnotationTool::Mosaic)
            && (d.current.x - d.start.x >= 8 || d.start.x - d.current.x >= 8)
            && (d.current.y - d.start.y >= 8 || d.start.y - d.current.y >= 8) ==> d.to_shape_spec() is Some,
        (d.tool == AnnotationTool::Line || d.tool == AnnotationTool::Arrow) && (d.current.x - d.start.x >= 4
            || d.start.x - d.current.x >= 4 || d.current.y - d.start.y >= 4 || d.start.y - d.current.y >= 4)
            ==> d.to_shape_spec() is Some,
{
    let dx = d.current.x - d.start.x;
    let dy = d.current.y - d.start.y;
    assert(dx * dx >= 0 && dy * dy >= 0) by (nonlinear_arith);
    assert((dx >= 4 || dx <= -4) ==> dx * dx >= 16) by (nonlinear_arith);
    assert((dy >= 4 || dy <= -4) ==> dy * dy >= 16) by (nonlinear_arith);
}

impl DraftShape {
    /// The shape a finished drag makes: boxes need the minimum span each way,
    /// lines and arrows a length of at least four pixels; the pointer, text
    /// and number tools make no shape from a drag.
    pub open spec fn to_shape_spec(self) -> Option<AnnotationShape> {
        match self.tool {
            AnnotationTool::Rectangle => if box_big_enough(self) {
                Some(AnnotationShape::Rectangle { start: self.start, end: self.current, style: self.style })
            } else {
                None
            },
            AnnotationTool::Ellipse => if box_big_enough(self) {
                Some(AnnotationShape::Ellipse { start: self.start, end: self.current, style: self.style })
            } else {
                None
            },
            AnnotationTool::Mosaic => if box_big_enough(self) {
                Some(AnnotationShape::Mosaic { start: self.start, end: self.current, style: self.style })
            } else {
                None
            },
            AnnotationTool::Line => if drag_len_sq(self) < 16 {
                None
            } else {
                Some(AnnotationShape::Line { start: self.start, end: self.current, style: self.style })
            },
            AnnotationTool::Arrow => if drag_len_sq(self) < 16 {
                None
            } else {
                Some(AnnotationShape::Arrow { start: self.start, end: self.current, style: self.style })
            },
            _ => None,
        }
    }

    pub fn to_shape(self) -> (r: Option<AnnotationShape>)
        requires
            -0x7fff_ffff <= self.current.x - self.start.x <= 0x7fff_ffff,
            -0x7fff_ffff <= self.current.y - self.start.y <= 0x7fff_ffff,
            (self.tool == AnnotationTool::Line || self.tool == AnnotationTool::Arrow) ==> drag_len_sq(self) <= i32::MAX,
        ensures
            r == self.to_shape_spec(),
            r matches Some(s) ==> drawn_from(s, self),
    {
        proof {
            lemma_draft_makes_its_tool_shape(self);
        }
        match self.tool {
            AnnotationTool::Mouse | AnnotationTool::Select | AnnotationTool::Text | AnnotationTool::Number => None,
            AnnotationTool::Rectangle | AnnotationTool::Ellipse | AnnotationTool::Mosaic => {
                let rect = match NormalizedRect::from_points(self.start, self.current) {
                    Some(rect) => rect,
                    None => return None,
                };
                if rect.width() < MIN_SELECTION_SPAN || rect.height() < MIN_SELECTION_SPAN {
                    None
                } else {
                    match self.tool {
                        AnnotationTool::Rectangle => Some(AnnotationShape::Rectangle { start: self.start, end: self.current, style: self.style }),
                        AnnotationTool::Ellipse => Some(AnnotationShape::Ellipse { start: self.start, end: self.current, style: self.style }),
                        _ => Some(AnnotationShape::Mosaic { start: self.start, end: self.current, style: self.style }),
                    }
                }
            },
            AnnotationTool::Line | AnnotationTool::Arrow => {
                let dx = (self.current.x as i64) - (self.start.x as i64);
                let dy = (self.current.y as i64) - (self.start.y as i64);
                assert(0 <= dx * dx && 0 <= dy * dy) by (nonlinear_arith);
                assert(dx == self.current.x - self.start.x && dy == self.current.y - self.start.y);
                assert(drag_len_sq(self) <= i32::MAX);
                assert(dx * dx + dy * dy == drag_len_sq(self));
                assert(-0x1_0000 <= dx <= 0x1_0000) by (nonlinear_arith)
                    requires dx * dx + dy * dy <= 0x7fff_ffff, 0 <= dy * dy;
                assert(-0x1_0000 <= dy <= 0x1_0000) by (nonlinear_arith)
                    requires dx * dx + dy * dy <= 0x7fff_ffff, 0 <= dx * dx;
                assert(0 <= dx * dx <= 0x1_0000_0000) by (nonlinear_arith)
                    requires -0x1_0000 <= dx <= 0x1_0000;
                assert(0 <= dy * dy <= 0x1_0000_0000) by (nonlinear_arith)
                    requires -0x1_0000 <= dy <= 0x1_0000;
                if dx * dx + dy * dy < 16 {
                    None
                } else if self.tool == AnnotationTool::Line {
                    Some(AnnotationShape::Line { start: self.start, end: self.current, style: self.style })
                } else {
                    Some(AnnotationShape::Arrow { start: self.start, end: self.current, style: self.style })
                }
            },
        }
    }
}

/// The box spanned by two points, at least one pixel each way.
pub open spec fn segment_bounds_spec(start: CursorPoint, end: CursorPoint) -> NormalizedRect {
    let left = spec_min(start.x as int, end.x as int);
    let top = spec_min(start.y as int, end.y as int);
    NormalizedRect {
        left: left as i32,
        top: top as i32,
        right: spec_max(spec_max(start.x as int, end.x as int), left + 1) as i32,
        bottom: spec_max(spec_max(start.y as int, end.y as int), top + 1) as i32,
    }
}

fn segment_bounds(start: CursorPoint, end: CursorPoint) -> (r: NormalizedRect)
    requires
        start.wf(),
        end.wf(),
    ensures
        r == segment_bounds_spec(start, end),
        r.bounded(),
{
    let left = if start.x <= end.x { start.x } else { end.x };
    let top = if start.y <= end.y { start.y } else { end.y };
    let right0 = if start.x >= end.x { start.x } else { end.x };
    let bottom0 = if start.y >= end.y { start.y } else { end.y };
    NormalizedRect {
        left,
        top,
        right: if right0 >= left + 1 { right0 } else { left + 1 },
        bottom: if bottom0 >= top + 1 { bottom0 } else { top + 1 },
    }
}

pub open spec fn moved(p: CursorPoint, dx: int, dy: int) -> CursorPoint {
    CursorPoint { x: (p.x + dx) as i32, y: (p.y + dy) as i32 }
}

impl AnnotationShape {
    /// Coordinates and sizes stay within the overlay's working range.
    pub open spec fn wf(self) -> bool {
        match self {
            AnnotationShape::Rectangle { start, end, style }
            | AnnotationShape::Ellipse { start, end, style }
            | AnnotationShape::Line { start, end, style }
            | AnnotationShape::Arrow { start, end, style }
            | AnnotationShape::Mosaic { start, end, style } => start.wf() && end.wf() && style.stroke <= COORD_LIMIT,
            AnnotationShape::Text { box_rect, text, .. } => box_rect.text_ok() && text@.len() <= TEXT_CHAR_LIMIT,
            AnnotationShape::Number { center, .. } => center.wf(),
        }
    }

    /// The area a shape covers: the box spanned by its points, the text box
    /// grown to hold its text, or the badge's square.
    pub open spec fn bounds_spec(self) -> NormalizedRect {
        match self {
            AnnotationShape::Rectangle { start, end, .. }
            | AnnotationShape::Ellipse { start, end, .. }
            | AnnotationShape::Line { start, end, .. }
            | AnnotationShape::Arrow { start, end, .. }
            | AnnotationShape::Mosaic { start, end, .. } => segment_bounds_spec(start, end),
            AnnotationShape::Text { box_rect, text, style, bold, italic, .. } =>
                text_box_bounds_spec(box_rect, text@, style, bold, italic),
            AnnotationShape::Number { center, style, .. } => badge_bounds_spec(center, style),
        }
    }

    pub fn bounds(&self) -> (r: NormalizedRect)
        requires
            self.wf(),
        ensures
            r == self.bounds_spec(),
            r.bounded(),
    {
        match self {
            AnnotationShape::Rectangle { start, end, .. }
            | AnnotationShape::Ellipse { start, end, .. }
            | AnnotationShape::Line { start, end, .. }
            | AnnotationShape::Arrow { start, end, .. }
            | AnnotationShape::Mosaic { start, end, .. } => segment_bounds(*start, *end),
            AnnotationShape::Text { box_rect, text, style, bold, italic, font_family, .. } => {
                let r = text_box_bounds_styled(*box_rect, text.as_str(), *style, *bold, *italic, *font_family);
                r
            },
            AnnotationShape::Number { center, style, .. } => number_badge_bounds(*center, *style),
        }
    }

    /// The same shape moved by `(dx, dy)`.
    pub open spec fn translated_spec(self, dx: int, dy: int) -> AnnotationShape {
        match self {
            AnnotationShape::Rectangle { start, end, style } =>
                AnnotationShape::Rectangle { start: moved(start, dx, dy), end: moved(end, dx, dy), style },
            AnnotationShape::Ellipse { start, end, style } =>
                AnnotationShape::Ellipse { start: moved(start, dx, dy), end: moved(end, dx, dy), style },
            AnnotationShape::Line { start, end, style } =>
                AnnotationShape::Line { start: moved(start, dx, dy), end: moved(end, dx, dy), style },
            AnnotationShape::Arrow { start, end, style } =>
                AnnotationShape::Arrow { start: moved(start, dx, dy), end: moved(end, dx, dy), style },
            AnnotationShape::Mosaic { start, end, style } =>
                AnnotationShape::Mosaic { start: moved(start, dx, dy), end: moved(end, dx, dy), style },
            AnnotationShape::Text { box_rect, text, style, bold, italic, background, font_family } =>
                AnnotationShape::Text {
                    box_rect: NormalizedRect {
                        left: (box_rect.left + dx) as i32,
                        top: (box_rect.top + dy) as i32,
                        right: (box_rect.right + dx) as i32,
                        bottom: (box_rect.bottom + dy) as i32,
                    },
                    text,
                    style,
                    bold,
                    italic,
                    background,
                    font_family,
                },
            AnnotationShape::Number { center, value, style } =>
                AnnotationShape::Number { center: moved(center, dx, dy), value, style },
        }
    }

    /// The shape's points (or box) all stay within the working range after
    /// moving by `(dx, dy)`.
    pub open spec fn can_move(self, dx: int, dy: int) -> bool {
        match self {
            AnnotationShape::Rectangle { start, end, .. }
            | AnnotationShape::Ellipse { start, end, .. }
            | AnnotationShape::Line { start, end, .. }
            | AnnotationShape::Arrow { start, end, .. }
            | AnnotationShape::Mosaic { start, end, .. } =>
                moved(start, dx, dy).wf() && moved(end, dx, dy).wf() && in_range(start.x + dx)
                    && in_range(start.y + dy) && in_range(end.x + dx) && in_range(end.y + dy),
            AnnotationShape::Text { box_rect, .. } => in_range(box_rect.left + dx) && in_range(box_rect.right + dx)
                && in_range(box_rect.top + dy) && in_range(box_rect.bottom + dy),
            AnnotationShape::Number { center, .. } => in_range(center.x + dx) && in_range(center.y + dy),
        }
    }

    /// Every coordinate of the shape, moved by `(dx, dy)`, is still an `i32`.
    pub open spec fn move_fits(self, dx: int, dy: int) -> bool {
        match self {
            AnnotationShape::Rectangle { start, end, .. }
            | AnnotationShape::Ellipse { start, end, .. }
            | AnnotationShape::Line { start, end, .. }
            | AnnotationShape::Arrow { start, end, .. }
            | AnnotationShape::Mosaic { start, end, .. } =>
                fits_i32(start.x + dx) && fits_i32(start.y + dy) && fits_i32(end.x + dx) && fits_i32(end.y + dy),
            AnnotationShape::Text { box_rect, .. } => fits_i32(box_rect.left + dx) && fits_i32(box_rect.right + dx)
                && fits_i32(box_rect.top + dy) && fits_i32(box_rect.bottom + dy),
            AnnotationShape::Number { center, .. } => fits_i32(center.x + dx) && fits_i32(center.y + dy),
        }
    }

    pub fn translated(&self, dx: i32, dy: i32) -> (r: Self)
        requires
            self.move_fits(dx as int, dy as int),
        ensures
            r == self.translated_spec(dx as int, dy as int),
            self.wf() && self.can_move(dx as int, dy as int) ==> r.wf(),
    {
        match self {
            AnnotationShape::Rectangle { start, end, style } => AnnotationShape::Rectangle {
                start: CursorPoint { x: start.x + dx, y: start.y + dy },
                end: CursorPoint { x: end.x + dx, y: end.y + dy },
                style: *style,
            },
            AnnotationShape::Ellipse { start, end, style } => AnnotationShape::Ellipse {
                start: CursorPoint { x: start.x + dx, y: start.y + dy },
                end: CursorPoint { x: end.x + dx, y: end.y + dy },
                style: *style,
            },
            AnnotationShape::Line { start, end, style } => AnnotationShape::Line {
                start: CursorPoint { x: start.x + dx, y: start.y + dy },
                end: CursorPoint { x: end.x + dx, y: end.y + dy },
                style: *style,
            },
            AnnotationShape::Arrow { start, end, style } => AnnotationShape::Arrow {
                start: CursorPoint { x: start.x + dx, y: start.y + dy },
                end: CursorPoint { x: end.x + dx, y: end.y + dy },
                style: *style,
            },
            AnnotationShape::Mosaic { start, end, style } => AnnotationShape::Mosaic {
                start: CursorPoint { x: start.x + dx, y: start.y + dy },
                end: CursorPoint { x: end.x + dx, y: end.y + dy },
                style: *style,
            },
            AnnotationShape::Text { box_rect, text, style, bold, italic, background, font_family } => {
                let t = text.clone();
                AnnotationShape::Text {
                    box_rect: NormalizedRect {
                        left: box_rect.left + dx,
                        top: box_rect.top + dy,
                        right: box_rect.right + dx,
                        bottom: box_rect.bottom + dy,
                    },
                    text: t,
                    style: *style,
                    bold: *bold,
                    italic: *italic,
                    background: *background,
                    font_family: *font_family,
                }
            },
            AnnotationShape::Number { center, value, style } => AnnotationShape::Number {
                center: CursorPoint { x: center.x + dx, y: center.y + dy },
                value: *value,
                style: *style,
            },
        }
    }
}

/// `t` is `s` with at most its points or its box changed: the same kind,
/// with the same style, text, text flags, font and badge value.
pub open spec fn moved_only(s: AnnotationShape, t: AnnotationShape) -> bool {
    match (s, t) {
        (AnnotationShape::Rectangle { style: a, .. }, AnnotationShape::Rectangle { style: b, .. }) => a == b,
        (AnnotationShape::Ellipse { style: a, .. }, AnnotationShape::Ellipse { style: b, .. }) => a == b,
        (AnnotationShape::Line { style: a, .. }, AnnotationShape::Line { style: b, .. }) => a == b,
        (AnnotationShape::Arrow { style: a, .. }, AnnotationShape::Arrow { style: b, .. }) => a == b,
        (AnnotationShape::Mosaic { style: a, .. }, AnnotationShape::Mosaic { style: b, .. }) => a == b,
        (AnnotationShape::Text { text: t1, style: s1, bold: b1, italic: i1, background: g1, font_family: f1, .. },
            AnnotationShape::Text { text: t2, style: s2, bold: b2, italic: i2, background: g2, font_family: f2, .. }) =>
            t1@ == t2@ && s1 == s2 && b1 == b2 && i1 == i2 && g1 == g2 && f1 == f2,
        (AnnotationShape::Number { value: v1, style: s1, .. }, AnnotationShape::Number { value: v2, style: s2, .. }) =>
            v1 == v2 && s1 == s2,
        _ => false,
    }
}

/// Moving a shape by nothing leaves it as it was; moving it back undoes a
/// move; two moves make one by the sum (wherever the coordinates stay `i32`
/// values). Only the points or the box move: kind, style, text and value stay.
pub proof fn lemma_translated_laws(s: AnnotationShape, dx: int, dy: int, a: int, b: int, c: int, d: int)
    requires
        s.move_fits(dx, dy),
        s.move_fits(a, b),
        s.move_fits(a + c, b + d),
    ensures
        s.translated_spec(0, 0) == s,
        s.translated_spec(dx, dy).translated_spec(-dx, -dy) == s,
        s.translated_spec(a, b).translated_spec(c, d) == s.translated_spec(a + c, b + d),
        moved_only(s, s.translated_spec(dx, dy)),
{
}

/// The edges of a shape's bounds, before they are stored as `i32`s: the
/// box spanned by its points (at least a pixel each way) or the badge's
/// square. Text boxes, whose bounds depend on their text, have none here.
pub open spec fn bounds_edges(s: AnnotationShape) -> Option<(int, int, int, int)> {
    match s {
        AnnotationShape::Rectangle { start, end, .. }
        | AnnotationShape::Ellipse { start, end, .. }
        | AnnotationShape::Line { start, end, .. }
        | AnnotationShape::Arrow { start, end, .. }
        | AnnotationShape::Mosaic { start, end, .. } => {
            let left = spec_min(start.x as int, end.x as int);
            let top = spec_min(start.y as int, end.y as int);
            Some((left, top, spec_max(spec_max(start.x as int, end.x as int), left + 1),
                spec_max(spec_max(start.y as int, end.y as int), top + 1)))
        },
        AnnotationShape::Number { center, style, .. } => {
            let radius = crate::overlay::text::badge_radius_spec(style) + 2;
            Some((center.x - radius, center.y - radius, center.x + radius + 1, center.y + radius + 1))
        },
        AnnotationShape::Text { .. } => None,
    }
}

/// The edges, moved by `(dx, dy)`, are all `i32` values.
pub open spec fn edges_fit(e: (int, int, int, int), dx: int, dy: int) -> bool {
    fits_i32(e.0 + dx) && fits_i32(e.1 + dy) && fits_i32(e.2 + dx) && fits_i32(e.3 + dy)
}

/// The bounds of a moved shape (other than a text box) are its bounds moved
/// by the same amount, wherever the edges stay `i32` values.
pub proof fn lemma_translated_bounds(s: AnnotationShape, dx: int, dy: int)
    requires
        bounds_edges(s) is Some,
        s.move_fits(dx, dy),
        edges_fit(bounds_edges(s).unwrap(), 0, 0),
        edges_fit(bounds_edges(s).unwrap(), dx, dy),
    ensures
        ({
            let b = s.bounds_spec();
            s.translated_spec(dx, dy).bounds_spec() == NormalizedRect {
                left: (b.left + dx) as i32,
                top: (b.top + dy) as i32,
                right: (b.right + dx) as i32,
                bottom: (b.bottom + dy) as i32,
            }
        }),
{
}

impl AnnotationShape {
    /// Moved by `(dx, dy)`, the move cut short so that the shape's bounds stay inside `bounds`.
    pub fn translated_clamped_to_rect(&self, dx: i32, dy: i32, bounds: NormalizedRect) -> (r: Self)
        requires
            self.wf(),
            bounds.wf(),
            self.bounds_spec().width_spec() <= bounds.width_spec(),
            self.bounds_spec().height_spec() <= bounds.height_spec(),
        ensures
            ({
                let sb = self.bounds_spec();
                r == self.translated_spec(
                    spec_clamp(dx as int, bounds.left - sb.left, bounds.right - sb.right),
                    spec_clamp(dy as int, bounds.top - sb.top, bounds.bottom - sb.bottom),
                )
            }),
            r.wf(),
    {
        let sb = self.bounds();
        let cdx = clamp_i32(dx, bounds.left - sb.left, bounds.right - sb.right);
        let cdy = clamp_i32(dy, bounds.top - sb.top, bounds.bottom - sb.bottom);
        proof {
            lemma_clamped_move_in_range(self, cdx as int, cdy as int, bounds);
        }
        self.translated(cdx, cdy)
    }
}

proof fn lemma_clamped_move_in_range(shape: &AnnotationShape, dx: int, dy: int, bounds: NormalizedRect)
    requires
        shape.wf(),
        bounds.wf(),
        bounds.left - shape.bounds_spec().left <= dx <= bounds.right - shape.bounds_spec().right,
        bounds.top - shape.bounds_spec().top <= dy <= bounds.bottom - shape.bounds_spec().bottom,
    ensures
        shape.can_move(dx, dy),
{
    match shape {
        AnnotationShape::Text { box_rect, text, style, bold, italic, .. } => {
            crate::overlay::text::lemma_text_box_bounds(*box_rect, text@, *style, *bold, *italic);
        },
        _ => {},
    }
}

/// `point` lies inside the ellipse inscribed in `rect` (a side of zero
/// counted as one), measured exactly: with `w`, `h` the sides and the centre
/// at half of each, `(2dx)^2 h^2 + (2dy)^2 w^2 <= w^2 h^2`.
pub open spec fn ellipse_measure(point: CursorPoint, rect: NormalizedRect) -> (int, int) {
    let w = spec_max(rect.width_spec(), 1);
    let h = spec_max(rect.height_spec(), 1);
    let ex = 2 * point.x - 2 * rect.left - w;
    let ey = 2 * point.y - 2 * rect.top - h;
    (ex * ex * h * h + ey * ey * w * w, w * w * h * h)
}

pub open spec fn inside_ellipse(point: CursorPoint, rect: NormalizedRect) -> bool {
    ellipse_measure(point, rect).0 <= ellipse_measure(point, rect).1
}

pub open spec fn outside_or_on_ellipse(point: CursorPoint, rect: NormalizedRect) -> bool {
    ellipse_measure(point, rect).0 >= ellipse_measure(point, rect).1
}

/// Compares `point` with the ellipse in `rect`: negative inside, zero on it,
/// positive outside.
fn ellipse_compare(point: CursorPoint, rect: NormalizedRect) -> (r: i8)
    requires
        point.wf(),
        -0x0300_0000 <= rect.left <= 0x0300_0000,
        -0x0300_0000 <= rect.top <= 0x0300_0000,
        -0x0300_0000 <= rect.right <= 0x0300_0000,
        -0x0300_0000 <= rect.bottom <= 0x0300_0000,
    ensures
        (r <= 0) == inside_ellipse(point, rect),
        (r >= 0) == outside_or_on_ellipse(point, rect),
{
    let w0 = (rect.right as i128) - (rect.left as i128);
    let h0 = (rect.bottom as i128) - (rect.top as i128);
    let w: i128 = if w0 >= 1 { w0 } else { 1 };
    let h: i128 = if h0 >= 1 { h0 } else { 1 };
    let ex = 2 * (point.x as i128) - 2 * (rect.left as i128) - w;
    let ey = 2 * (point.y as i128) - 2 * (rect.top as i128) - h;
    assert(0 <= ex * ex <= 0x1000_0000_0000_0000) by (nonlinear_arith)
        requires -0x4000_0000 <= ex <= 0x4000_0000;
    assert(0 <= ey * ey <= 0x1000_0000_0000_0000) by (nonlinear_arith)
        requires -0x4000_0000 <= ey <= 0x4000_0000;
    assert(0 < w * w <= 0x0100_0000_0000_0000) by (nonlinear_arith)
        requires 1 <= w <= 0x1000_0000;
    assert(0 < h * h <= 0x0100_0000_0000_0000) by (nonlinear_arith)
        requires 1 <= h <= 0x1000_0000;
    let ww = w * w;
    let hh = h * h;
    let exx = ex * ex;
    let eyy = ey * ey;
    assert(0 <= exx * hh <= 0x1000_0000_0000_0000 * 0x0100_0000_0000_0000) by (nonlinear_arith)
        requires 0 <= exx <= 0x1000_0000_0000_0000, 0 < hh <= 0x0100_0000_0000_0000;
    assert(0 <= eyy * ww <= 0x1000_0000_0000_0000 * 0x0100_0000_0000_0000) by (nonlinear_arith)
        requires 0 <= eyy <= 0x1000_0000_0000_0000, 0 < ww <= 0x0100_0000_0000_0000;
    assert(0 < ww * hh <= 0x0100_0000_0000_0000 * 0x0100_0000_0000_0000) by (nonlinear_arith)
        requires 0 < ww <= 0x0100_0000_0000_0000, 0 < hh <= 0x0100_0000_0000_0000;
    let lhs = exx * hh + eyy * ww;
    let rhs = ww * hh;
    proof {
        let m = ellipse_measure(point, rect);
        assert(ex * ex * h * h == exx * hh) by (nonlinear_arith)
            requires exx == ex * ex, hh == h * h;
        assert(ey * ey * w * w == eyy * ww) by (nonlinear_arith)
            requires eyy == ey * ey, ww == w * w;
        assert(w * w * h * h == ww * hh) by (nonlinear_arith)
            requires ww == w * w, hh == h * h;
        assert(m.0 == lhs);
        assert(m.1 == rhs);
    }
    if lhs < rhs {
        -1
    } else if lhs == rhs {
        0
    } else {
        1
    }
}

impl AnnotationShape {
    /// Whether a press at `point` picks this shape. Outlines are picked near
    /// their border (boxes within a band of the stroke plus four pixels,
    /// lines within the stroke plus five), the whole shape once selected;
    /// mosaics, text and badges anywhere on them, a little further once selected.
    pub open spec fn hit_test_spec(self, point: CursorPoint, selected: bool) -> bool {
        match self {
            AnnotationShape::Rectangle { start, end, style } => match NormalizedRect::from_points_spec(start, end) {
                None => false,
                Some(rect) => {
                    let padding = spec_max(style.stroke as int, 2) + 4;
                    let inner = NormalizedRect {
                        left: (rect.left + padding) as i32,
                        top: (rect.top + padding) as i32,
                        right: (rect.right - padding) as i32,
                        bottom: (rect.bottom - padding) as i32,
                    };
                    if !rect.expanded_spec(padding).contains_spec(point) {
                        false
                    } else if selected {
                        true
                    } else if inner.width_spec() <= 0 || inner.height_spec() <= 0 {
                        true
                    } else {
                        !inner.contains_spec(point)
                    }
                },
            },
            AnnotationShape::Ellipse { start, end, style } => match NormalizedRect::from_points_spec(start, end) {
                None => false,
                Some(rect) => {
                    let padding = spec_max(style.stroke as int, 2) + 4;
                    let inner = NormalizedRect {
                        left: (rect.left + padding) as i32,
                        top: (rect.top + padding) as i32,
                        right: (rect.right - padding) as i32,
                        bottom: (rect.bottom - padding) as i32,
                    };
                    if !inside_ellipse(point, rect.expanded_spec(padding)) {
                        false
                    } else if selected {
                        true
                    } else if inner.width_spec() <= 2 || inner.height_spec() <= 2 {
                        true
                    } else {
                        outside_or_on_ellipse(point, inner)
                    }
                },
            },
            AnnotationShape::Line { start, end, style } | AnnotationShape::Arrow { start, end, style } =>
                near_segment_xy(point.x as int, point.y as int, start.x as int, start.y as int, end.x as int, end.y as int,
                    spec_max(style.stroke as int, 2) + if selected { 7int } else { 5int }),
            AnnotationShape::Mosaic { start, end, .. } => match NormalizedRect::from_points_spec(start, end) {
                None => false,
                Some(rect) => rect.expanded_spec(if selected { 6int } else { 3int }).contains_spec(point),
            },
            AnnotationShape::Text { box_rect, text, style, bold, italic, .. } =>
                text_box_bounds_spec(box_rect, text@, style, bold, italic)
                    .expanded_spec(if selected { 6int } else { 4int }).contains_spec(point),
            AnnotationShape::Number { center, style, .. } => {
                let radius = badge_radius_spec(style) + if selected { 8int } else { 5int };
                let dx = point.x - center.x;
                let dy = point.y - center.y;
                dx * dx + dy * dy <= radius * radius
            },
        }
    }

    pub fn hit_test(&self, point: CursorPoint, selected: bool) -> (r: bool)
        requires
            self.wf(),
            point.wf(),
        ensures
            r == self.hit_test_spec(point, selected),
    {
        match self {
            AnnotationShape::Rectangle { start, end, style } => {
                let rect = match NormalizedRect::from_points(*start, *end) {
                    Some(rect) => rect,
                    None => return false,
                };
                let padding = (if style.stroke >= 2 { style.stroke } else { 2 }) as i32 + 4;
                let outer = rect.expanded(padding);
                if !outer.contains(point) {
                    return false;
                }
                if selected {
                    return true;
                }
                let inner = NormalizedRect {
                    left: rect.left + padding,
                    top: rect.top + padding,
                    right: rect.right - padding,
                    bottom: rect.bottom - padding,
                };
                if inner.width() <= 0 || inner.height() <= 0 {
                    true
                } else {
                    !inner.contains(point)
                }
            },
            AnnotationShape::Ellipse { start, end, style } => {
                let rect = match NormalizedRect::from_points(*start, *end) {
                    Some(rect) => rect,
                    None => return false,
                };
                let padding = (if style.stroke >= 2 { style.stroke } else { 2 }) as i32 + 4;
                let outer = rect.expanded(padding);
                if ellipse_compare(point, outer) > 0 {
                    return false;
                }
                if selected {
                    return true;
                }
                let inner = NormalizedRect {
                    left: rect.left + padding,
                    top: rect.top + padding,
                    right: rect.right - padding,
                    bottom: rect.bottom - padding,
                };
                if inner.width() <= 2 || inner.height() <= 2 {
                    return true;
                }
                ellipse_compare(point, inner) >= 0
            },
            AnnotationShape::Line { start, end, style } | AnnotationShape::Arrow { start, end, style } => {
                let base: i64 = if style.stroke >= 2 { style.stroke as i64 } else { 2 };
                let radius = base + if selected { 7 } else { 5 };
                point_near_segment(point.x, point.y, start.x, start.y, end.x, end.y, radius)
            },
            AnnotationShape::Mosaic { start, end, .. } => {
                let rect = match NormalizedRect::from_points(*start, *end) {
                    Some(rect) => rect,
                    None => return false,
                };
                rect.expanded(if selected { 6 } else { 3 }).contains(point)
            },
            AnnotationShape::Text { box_rect, text, style, bold, italic, font_family, .. } => {
                let b = text_box_bounds_styled(*box_rect, text.as_str(), *style, *bold, *italic, *font_family);
                b.expanded(if selected { 6 } else { 4 }).contains(point)
            },
            AnnotationShape::Number { center, style, .. } => {
                let radius = (number_badge_radius(*style) + if selected { 8 } else { 5 }) as i64;
                let dx = (point.x as i64) - (center.x as i64);
                let dy = (point.y as i64) - (center.y as i64);
                assert(0 <= dx * dx <= 0x4_0000_0000_0000) by (nonlinear_arith)
                    requires -0x200_0000 <= dx <= 0x200_0000;
                assert(0 <= dy * dy <= 0x4_0000_0000_0000) by (nonlinear_arith)
                    requires -0x200_0000 <= dy <= 0x200_0000;
                assert(0 <= radius * radius <= 34 * 34) by (nonlinear_arith)
                    requires 0 <= radius <= 34;
                dx * dx + dy * dy <= radius * radius
            },
        }
    }
}

/// The box for new text dragged from `start` to `current`: the dragged box,
/// widened and heightened to the minimum text box away from the drag's start
/// where the bounds allow, then clamped into `bounds`; `None` if nothing is left.
pub open spec fn text_box_from_drag_spec(start: CursorPoint, current: CursorPoint, bounds: NormalizedRect) -> Option<NormalizedRect> {
    let left0 = spec_min(start.x as int, current.x as int);
    let top0 = spec_min(start.y as int, current.y as int);
    let right0 = spec_max(spec_max(start.x as int, current.x as int), left0 + 1);
    let bottom0 = spec_max(spec_max(start.y as int, current.y as int), top0 + 1);
    let (left, right) = if right0 - left0 < TEXT_BOX_MIN_WIDTH {
        if current.x >= start.x {
            let r = spec_min(left0 + TEXT_BOX_MIN_WIDTH, bounds.right as int);
            (spec_max(r - TEXT_BOX_MIN_WIDTH, bounds.left as int), r)
        } else {
            let l = spec_max(right0 - TEXT_BOX_MIN_WIDTH, bounds.left as int);
            (l, spec_min(l + TEXT_BOX_MIN_WIDTH, bounds.right as int))
        }
    } else {
        (left0, right0)
    };
    let (top, bottom) = if bottom0 - top0 < TEXT_BOX_MIN_HEIGHT {
        if current.y >= start.y {
            let b = spec_min(top0 + TEXT_BOX_MIN_HEIGHT, bounds.bottom as int);
            (spec_max(b - TEXT_BOX_MIN_HEIGHT, bounds.top as int), b)
        } else {
            let t = spec_max(bottom0 - TEXT_BOX_MIN_HEIGHT, bounds.top as int);
            (t, spec_min(t + TEXT_BOX_MIN_HEIGHT, bounds.bottom as int))
        }
    } else {
        (top0, bottom0)
    };
    let rect = NormalizedRect {
        left: spec_clamp(left, bounds.left as int, bounds.right - 1) as i32,
        top: spec_clamp(top, bounds.top as int, bounds.bottom - 1) as i32,
        right: spec_clamp(right, bounds.left + 1, bounds.right as int) as i32,
        bottom: spec_clamp(bottom, bounds.top + 1, bounds.bottom as int) as i32,
    };
    if rect.width_spec() > 0 && rect.height_spec() > 0 { Some(rect) } else { None }
}

pub fn text_box_from_drag(start: CursorPoint, current: CursorPoint, bounds: NormalizedRect) -> (r: Option<NormalizedRect>)
    requires
        start.wf(),
        current.wf(),
        bounds.wf(),
        0 <= bounds.left < bounds.right,
        0 <= bounds.top < bounds.bottom,
    ensures
        r == text_box_from_drag_spec(start, current, bounds),
        r matches Some(b) ==> b.wf() && b.text_ok(),
{
    let mut left = if start.x <= current.x { start.x } else { current.x };
    let mut top = if start.y <= current.y { start.y } else { current.y };
    let right0 = if start.x >= current.x { start.x } else { current.x };
    let bottom0 = if start.y >= current.y { start.y } else { current.y };
    let mut right = if right0 >= left + 1 { right0 } else { left + 1 };
    let mut bottom = if bottom0 >= top + 1 { bottom0 } else { top + 1 };
    if right - left < TEXT_BOX_MIN_WIDTH {
        if current.x >= start.x {
            let r0 = left + TEXT_BOX_MIN_WIDTH;
            right = if r0 <= bounds.right { r0 } else { bounds.right };
            let l0 = right - TEXT_BOX_MIN_WIDTH;
            left = if l0 >= bounds.left { l0 } else { bounds.left };
        } else {
            let l0 = right - TEXT_BOX_MIN_WIDTH;
            left = if l0 >= bounds.left { l0 } else { bounds.left };
            let r0 = left + TEXT_BOX_MIN_WIDTH;
            right = if r0 <= bounds.right { r0 } else { bounds.right };
        }
    }
    if bottom - top < TEXT_BOX_MIN_HEIGHT {
        if current.y >= start.y {
            let b0 = top + TEXT_BOX_MIN_HEIGHT;
            bottom = if b0 <= bounds.bottom { b0 } else { bounds.bottom };
            let t0 = bottom - TEXT_BOX_MIN_HEIGHT;
            top = if t0 >= bounds.top { t0 } else { bounds.top };
        } else {
            let t0 = bottom - TEXT_BOX_MIN_HEIGHT;
            top = if t0 >= bounds.top { t0 } else { bounds.top };
            let b0 = top + TEXT_BOX_MIN_HEIGHT;
            bottom = if b0 <= bounds.bottom { b0 } else { bounds.bottom };
        }
    }
    let rect = NormalizedRect {
        left: clamp_i32(left, bounds.left, bounds.right - 1),
        top: clamp_i32(top, bounds.top, bounds.bottom - 1),
        right: clamp_i32(right, bounds.left + 1, bounds.right),
        bottom: clamp_i32(bottom, bounds.top + 1, bounds.bottom),
    };
    if rect.width() > 0 && rect.height() > 0 {
        Some(rect)
    } else {
        None
    }
}

} // verus!
