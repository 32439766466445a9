use crate::annotate::shapes::{
    rect_from_points_spec, AnnotationShape, AnnotationTool, DraftShape, ImagePoint, NormalizedRect, ResizeHandle,
    ShapeStyle, MIN_RESIZE_SIDE,
};
use crate::geometry::spec_clamp;
use vstd::prelude::*;

verus! {

/// A shape being moved: where the drag started and the shape as it was then.
#[derive(Debug, Clone, Copy, PartialEq, Eq)]
pub struct MoveDrag {
    pub shape_index: usize,
    pub anchor: ImagePoint,
    pub original: AnnotationShape,
}

/// A rectangle being resized by one of its handles.
#[derive(Debug, Clone, Copy, PartialEq, Eq)]
pub struct ResizeDrag {
    pub shape_index: usize,
    pub handle: ResizeHandle,
    pub original_rect: NormalizedRect,
    pub style: ShapeStyle,
}

/// What the pointer is over, as the shell works it out on screen: a resize
/// handle of the selected rectangle, or a shape.
#[derive(Debug, Clone, Copy, PartialEq, Eq)]
pub enum EditorHover {
    Resize(ResizeHandle),
    MoveShape(usize),
}

/// A primary-button event on the canvas. Points are image pixels (`None`
/// where the pointer is off the image); while dragging, the shell pulls the
/// point onto the image.
#[derive(Debug, Clone, Copy, PartialEq, Eq)]
pub enum CanvasEvent {
    Click { point: Option<ImagePoint> },
    DragStart { point: Option<ImagePoint>, hover: Option<EditorHover> },
    Drag { point: Option<ImagePoint> },
    DragStop { point: Option<ImagePoint> },
}

/// The standalone editor's canvas: the image size, the tool and style in
/// use, the shapes, the selected shape and the drag in progress.
pub struct EditorCanvas {
    pub image_width: u32,
    pub image_height: u32,
    pub tool: AnnotationTool,
    pub style: ShapeStyle,
    pub shapes: Vec<AnnotationShape>,
    pub selected_shape: Option<usize>,
    pub move_drag: Option<MoveDrag>,
    pub resize_drag: Option<ResizeDrag>,
    pub draft: Option<DraftShape>,
}

/// A stroke narrow enough for the hit test's arithmetic.
pub open spec fn style_ok(style: ShapeStyle) -> bool {
    style.stroke <= 0x0FFF_FFF0
}

pub open spec fn shape_style(s: AnnotationShape) -> ShapeStyle {
    match s {
        AnnotationShape::Rectangle { style, .. } => style,
        AnnotationShape::Arrow { style, .. } => style,
    }
}

/// A box at least the smallest resize side each way, on an image `w` by `h`.
pub open spec fn rect_ok(r: NormalizedRect, w: int, h: int) -> bool {
    &&& 0 <= r.left
    &&& r.left + MIN_RESIZE_SIDE <= r.right <= w - 1
    &&& 0 <= r.top
    &&& r.top + MIN_RESIZE_SIDE <= r.bottom <= h - 1
}

impl EditorCanvas {
    pub open spec fn in_image(&self, p: ImagePoint) -> bool {
        0 <= p.x < self.image_width && 0 <= p.y < self.image_height
    }

    /// A shape on the image; a rectangle at least two pixels each way.
    pub open spec fn shape_ok(&self, s: AnnotationShape) -> bool {
        &&& self.in_image(s.start_spec())
        &&& self.in_image(s.end_spec())
        &&& style_ok(shape_style(s))
        &&& s is Rectangle ==> (rect_from_points_spec(s.start_spec(), s.end_spec()) matches Some(r)
            && r.width_spec() >= 2 && r.height_spec() >= 2)
    }

    pub open spec fn wf(&self) -> bool {
        &&& 1 <= self.image_width <= 0x100_0000
        &&& 1 <= self.image_height <= 0x100_0000
        &&& style_ok(self.style)
        &&& forall|i: int| 0 <= i < self.shapes@.len() ==> self.shape_ok(#[trigger] self.shapes@[i])
        &&& self.move_drag matches Some(m) ==> self.shape_ok(m.original) && self.in_image(m.anchor)
        &&& self.resize_drag matches Some(r) ==> rect_ok(r.original_rect, self.image_width as int,
            self.image_height as int) && style_ok(r.style)
        &&& self.draft matches Some(d) ==> self.in_image(d.start) && self.in_image(d.current) && style_ok(d.style)
    }

    /// The topmost of the first `n` shapes that the point hits.
    pub open spec fn shape_at_from(&self, point: ImagePoint, n: int) -> Option<usize>
        decreases n,
    {
        if n <= 0 {
            None
        } else if self.shapes@[n - 1].hit_test_spec(point, self.selected_shape == Some((n - 1) as usize)) {
            Some((n - 1) as usize)
        } else {
            self.shape_at_from(point, n - 1)
        }
    }

    pub open spec fn shape_at_spec(&self, point: ImagePoint) -> Option<usize> {
        self.shape_at_from(point, self.shapes@.len() as int)
    }

    /// The selected shape when it is a rectangle, with its box and style.
    pub open spec fn selected_rectangle_spec(&self) -> Option<(usize, NormalizedRect, ShapeStyle)> {
        match self.selected_shape {
            Some(i) => if i < self.shapes@.len() {
                match self.shapes@[i as int] {
                    AnnotationShape::Rectangle { start, end, style } => match rect_from_points_spec(start, end) {
                        Some(r) => Some((i, r, style)),
                        None => None,
                    },
                    _ => None,
                }
            } else {
                None
            },
            None => None,
        }
    }

    /// The shapes once the drag in progress follows the pointer to `p`: a
    /// moved shape is its original moved as far as the image allows; a
    /// resized rectangle follows its handle; otherwise nothing changes.
    pub open spec fn shapes_following(&self, p: ImagePoint) -> Seq<AnnotationShape> {
        match self.resize_drag {
            Some(r) => if r.shape_index < self.shapes@.len() {
                let rect = r.handle.resized_rect_spec(r.original_rect, p, self.image_width - 1, self.image_height - 1);
                self.shapes@.update(r.shape_index as int, AnnotationShape::Rectangle {
                    start: ImagePoint { x: rect.left, y: rect.top },
                    end: ImagePoint { x: rect.right, y: rect.bottom },
                    style: r.style,
                })
            } else {
                self.shapes@
            },
            None => match self.move_drag {
                Some(m) => if m.shape_index < self.shapes@.len() {
                    let b = m.original.bounds_spec();
                    self.shapes@.update(m.shape_index as int, m.original.translated_spec(
                        spec_clamp(p.x - m.anchor.x, -b.left, self.image_width - 1 - b.right),
                        spec_clamp(p.y - m.anchor.y, -b.top, self.image_height - 1 - b.bottom),
                    ))
                } else {
                    self.shapes@
                },
                None => self.shapes@,
            },
        }
    }

    /// The draft once the pointer reaches `p`: only a drawing drag follows it.
    pub open spec fn draft_following(&self, p: ImagePoint) -> Option<DraftShape> {
        if self.resize_drag is None && self.move_drag is None {
            match self.draft {
                Some(d) => Some(DraftShape { current: p, ..d }),
                None => None,
            }
        } else {
            self.draft
        }
    }

    /// The selection, the drags and the draft are as they were.
    pub open spec fn drags_unchanged(&self, after: &Self) -> bool {
        &&& after.selected_shape == self.selected_shape
        &&& after.move_drag == self.move_drag
        &&& after.resize_drag == self.resize_drag
        &&& after.draft == self.draft
    }

    /// The top-most shape under `point` (or none off the image).
    fn shape_at(&self, point: ImagePoint) -> (r: Option<usize>)
        requires
            self.wf(),
            self.in_image(point),
        ensures
            r == self.shape_at_spec(point),
            r matches Some(i) ==> i < self.shapes@.len(),
    {
        let mut n = self.shapes.len();
        while n > 0
            invariant
                self.wf(),
                self.in_image(point),
                n <= self.shapes@.len(),
                self.shape_at_spec(point) == self.shape_at_from(point, n as int),
            decreases n,
        {
            let i = n - 1;
            let shape = self.shapes[i];
            proof {
                assert(self.shape_ok(self.shapes@[i as int]));
            }
            let selected = match self.selected_shape {
                Some(s) => s == i,
                None => false,
            };
            if shape.hit_test(point, selected) {
                return Some(i);
            }
            n = i;
        }
        None
    }

    fn selected_rectangle(&self) -> (r: Option<(usize, NormalizedRect, ShapeStyle)>)
        ensures
            r == self.selected_rectangle_spec(),
    {
        let i = match self.selected_shape {
            Some(i) => i,
            None => return None,
        };
        if i >= self.shapes.len() {
            return None;
        }
        match self.shapes[i] {
            AnnotationShape::Rectangle { start, end, style } => match NormalizedRect::from_points(start, end) {
                Some(r) => Some((i, r, style)),
                None => None,
            },
            _ => None,
        }
    }

    /// Lets the drag in progress follow the pointer to `p`.
    fn follow(&mut self, p: ImagePoint)
        requires
            old(self).wf(),
            old(self).in_image(p),
        ensures
            final(self).wf(),
            final(self).shapes@ == old(self).shapes_following(p),
            final(self).draft == old(self).draft_following(p),
            final(self).image_width == old(self).image_width,
            final(self).image_height == old(self).image_height,
            final(self).tool == old(self).tool,
            final(self).style == old(self).style,
            final(self).selected_shape == old(self).selected_shape,
            final(self).move_drag == old(self).move_drag,
            final(self).resize_drag == old(self).resize_drag,
    {
        let w = self.image_width;
        let h = self.image_height;
        if let Some(r) = self.resize_drag {
            if r.shape_index < self.shapes.len() {
                let max_x: i32 = (w - 1) as i32;
                let max_y: i32 = (h - 1) as i32;
                let rect = r.handle.resized_rect(r.original_rect, p, max_x, max_y);
                let shape = AnnotationShape::Rectangle {
                    start: ImagePoint { x: rect.left, y: rect.top },
                    end: ImagePoint { x: rect.right, y: rect.bottom },
                    style: r.style,
                };
                let ghost before = self.shapes@;
                self.shapes.set(r.shape_index, shape);
                proof {
                    assert(self.shape_ok(shape));
                    assert forall|i: int| 0 <= i < self.shapes@.len() implies self.shape_ok(#[trigger] self.shapes@[i]) by {
                        if i != r.shape_index {
                            assert(self.shapes@[i] == before[i]);
                        }
                    }
                }
            }
        } else if let Some(m) = self.move_drag {
            if m.shape_index < self.shapes.len() {
                let dx: i32 = p.x - m.anchor.x;
                let dy: i32 = p.y - m.anchor.y;
                let shape = m.original.translated_clamped(dx, dy, w, h);
                let ghost before = self.shapes@;
                self.shapes.set(m.shape_index, shape);
                proof {
                    assert(self.shape_ok(shape));
                    assert forall|i: int| 0 <= i < self.shapes@.len() implies self.shape_ok(#[trigger] self.shapes@[i]) by {
                        if i != m.shape_index {
                            assert(self.shapes@[i] == before[i]);
                        }
                    }
                }
            }
        } else {
            match &mut self.draft {
                Some(d) => {
                    d.current = p;
                },
                None => {},
            }
        }
    }

    /// Handles a primary-button event on the canvas. A click selects the
    /// top-most shape under it. A drag that starts on a handle of the
    /// selected rectangle resizes it; one that starts on a shape selects and
    /// moves it; one that starts on empty image drafts a new shape with the
    /// tool and style in use. While dragging, the shape or draft follows the
    /// pointer; when the drag stops, a drafted shape big enough to keep is
    /// added on top and selected.
    pub fn handle_canvas_event(&mut self, event: CanvasEvent)
        requires
            old(self).wf(),
            match event {
                CanvasEvent::Click { point } => point matches Some(p) ==> old(self).in_image(p),
                CanvasEvent::DragStart { point, .. } => point matches Some(p) ==> old(self).in_image(p),
                CanvasEvent::Drag { point } => point matches Some(p) ==> old(self).in_image(p),
                CanvasEvent::DragStop { point } => point matches Some(p) ==> old(self).in_image(p),
            },
        ensures
            final(self).wf(),
            final(self).image_width == old(self).image_width,
            final(self).image_height == old(self).image_height,
            final(self).tool == old(self).tool,
            final(self).style == old(self).style,
            match event {
                CanvasEvent::Click { point } => {
                    &&& final(self).selected_shape == (match point {
                        Some(p) => old(self).shape_at_spec(p),
                        None => None,
                    })
                    &&& final(self).shapes@ == old(self).shapes@
                    &&& final(self).draft == old(self).draft
                    &&& final(self).move_drag == old(self).move_drag
                    &&& final(self).resize_drag == old(self).resize_drag
                },
                CanvasEvent::DragStart { point, hover } => {
                    &&& final(self).shapes@ == old(self).shapes@
                    &&& match (hover, old(self).selected_rectangle_spec(), point) {
                        (Some(EditorHover::Resize(handle)), Some((i, rect, style)), _) => {
                            &&& final(self).resize_drag == Some(ResizeDrag { shape_index: i, handle, original_rect: rect, style })
                            &&& final(self).move_drag is None
                            &&& final(self).draft is None
                            &&& final(self).selected_shape == old(self).selected_shape
                        },
                        (Some(EditorHover::MoveShape(i)), _, Some(p)) => {
                            &&& final(self).selected_shape == Some(i)
                            &&& final(self).move_drag == (if i < old(self).shapes@.len() {
                                Some(MoveDrag { shape_index: i, anchor: p, original: old(self).shapes@[i as int] })
                            } else {
                                None
                            })
                            &&& final(self).resize_drag is None
                            &&& final(self).draft is None
                        },
                        (_, _, Some(p)) => if old(self).shape_at_spec(p) is None {
                            &&& final(self).selected_shape is None
                            &&& final(self).move_drag is None
                            &&& final(self).resize_drag is None
                            &&& final(self).draft == Some(DraftShape { tool: old(self).tool, start: p, current: p, style: old(self).style })
                        } else {
                            old(self).drags_unchanged(&*final(self))
                        },
                        (_, _, None) => old(self).drags_unchanged(&*final(self)),
                    }
                },
                CanvasEvent::Drag { point } => {
                    &&& final(self).selected_shape == old(self).selected_shape
                    &&& final(self).move_drag == old(self).move_drag
                    &&& final(self).resize_drag == old(self).resize_drag
                    &&& match point {
                        Some(p) => final(self).shapes@ == old(self).shapes_following(p)
                            && final(self).draft == old(self).draft_following(p),
                        None => final(self).shapes@ == old(self).shapes@ && final(self).draft == old(self).draft,
                    }
                },
                CanvasEvent::DragStop { point } => {
                    let shapes = match point {
                        Some(p) => old(self).shapes_following(p),
                        None => old(self).shapes@,
                    };
                    let draft = match point {
                        Some(p) => old(self).draft_following(p),
                        None => old(self).draft,
                    };
                    let drawing = old(self).resize_drag is None && old(self).move_drag is None;
                    &&& final(self).move_drag is None
                    &&& final(self).resize_drag is None
                    &&& if drawing && draft is Some {
                        &&& final(self).draft is None
                        &&& match draft.unwrap().to_shape_spec() {
                            Some(s) => final(self).shapes@ == shapes.push(s)
                                && final(self).selected_shape == Some(shapes.len() as usize),
                            None => final(self).shapes@ == shapes
                                && final(self).selected_shape == old(self).selected_shape,
                        }
                    } else {
                        &&& final(self).draft == draft
                        &&& final(self).shapes@ == shapes
                        &&& final(self).selected_shape == old(self).selected_shape
                    }
                },
            },
    {
        match event {
            CanvasEvent::Click { point } => {
                self.selected_shape = match point {
                    Some(p) => self.shape_at(p),
                    None => None,
                };
            },
            CanvasEvent::DragStart { point, hover } => {
                if let Some(EditorHover::Resize(handle)) = hover {
                    if let Some((i, rect, style)) = self.selected_rectangle() {
                        proof {
                            assert(self.shape_ok(self.shapes@[i as int]));
                        }
                        self.resize_drag = Some(ResizeDrag { shape_index: i, handle, original_rect: rect, style });
                        self.move_drag = None;
                        self.draft = None;
                        return;
                    }
                }
                if let Some(EditorHover::MoveShape(i)) = hover {
                    if let Some(p) = point {
                        self.selected_shape = Some(i);
                        self.move_drag = if i < self.shapes.len() {
                            proof {
                                assert(self.shape_ok(self.shapes@[i as int]));
                            }
                            Some(MoveDrag { shape_index: i, anchor: p, original: self.shapes[i] })
                        } else {
                            None
                        };
                        self.resize_drag = None;
                        self.draft = None;
                        return;
                    }
                }
                if let Some(p) = point {
                    if self.shape_at(p).is_none() {
                        self.selected_shape = None;
                        self.move_drag = None;
                        self.resize_drag = None;
                        self.draft = Some(DraftShape { tool: self.tool, start: p, current: p, style: self.style });
                    }
                }
            },
            CanvasEvent::Drag { point } => {
                if let Some(p) = point {
                    self.follow(p);
                }
            },
            CanvasEvent::DragStop { point } => {
                if let Some(p) = point {
                    self.follow(p);
                }
                let resized = self.resize_drag.is_some();
                let moved = self.move_drag.is_some();
                self.resize_drag = None;
                self.move_drag = None;
                if !resized && !moved {
                    if let Some(draft) = self.draft {
                        self.draft = None;
                        if let Some(shape) = draft.to_shape() {
                            let new_index = self.shapes.len();
                            let ghost before = self.shapes@;
                            self.shapes.push(shape);
                            self.selected_shape = Some(new_index);
                            proof {
                                assert(self.shape_ok(shape));
                                assert forall|i: int| 0 <= i < self.shapes@.len() implies self.shape_ok(#[trigger] self.shapes@[i]) by {
                                    if i < new_index {
                                        assert(self.shapes@[i] == before[i]);
                                    }
                                }
                            }
                        }
                    }
                }
            },
        }
    }
}

} // verus!
