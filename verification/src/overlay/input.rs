use crate::config::types::TextFontFamily;
use crate::geometry::{spec_clamp, spec_max, SelectionRect};
use crate::overlay::geometry::clamp_i32;
use crate::overlay::session::{clone_shape, draft_with, selection_ok, text_draft_ok, text_shape_with, OverlayState};
use crate::overlay::text::{clamp_text_box_spec, clamp_text_box_to_bounds_styled};
use crate::overlay::types::TextDraft;
use crate::text::{is_blank, is_blank_spec};
use crate::overlay::types::{
    ActiveDrag, AnnotationShape, AnnotationTool, CursorPoint, IntRect, NormalizedRect, OverlayMode,
    ResizeHandle, ShapeStyle, TextDropdownKind, ToolbarAction, COLOR_PRESETS, MAX_TEXT_SIZE, TOOLBAR_STYLE_TRACK_HEIGHT,
};
use vstd::prelude::*;

verus! {

/// What the window must do after an input has been handled.
#[derive(Debug, Clone, Copy, PartialEq, Eq, Structural)]
pub enum OverlayCommand {
    /// Nothing beyond repainting.
    Nothing,
    /// Capture the mouse for the drag that started.
    CaptureMouse,
    /// Look up the windows and controls under the cursor and report them with
    /// [`OverlayState::apply_hover`].
    RefreshHover,
    /// Copy the text of this recognised block, then report with
    /// [`OverlayState::report_block_copy`].
    CopyBlockText(usize),
    /// Copy the full recognised or translated text, then report with
    /// [`OverlayState::report_full_text_copy`].
    CopyFullText,
    StartOcr,
    StartTranslation,
    /// Close the overlay without a capture.
    Cancel,
    /// Render the annotated selection and close with it.
    Complete,
    /// Render the annotated selection and pin it to the desktop.
    Pin,
}

/// The area a drag on a shape is kept inside: the selection, else the overlay.
pub open spec fn shape_area(state: &OverlayState) -> NormalizedRect {
    match state.selection {
        Some(s) => s,
        None => state.bounds_spec(),
    }
}

impl OverlayState {
    /// The drag in progress can be continued: its starting rectangle fits the
    /// area it is kept in, with room for the minimum span on each axis a
    /// resize handle moves.
    pub open spec fn drag_ok(&self) -> bool {
        match self.active_drag {
            Some(ActiveDrag::Selecting { start, current }) => self.on_overlay(start) && current.wf(),
            Some(ActiveDrag::Drafting) => match self.draft {
                Some(d) => d.start.wf() && d.current.wf() && d.style.stroke <= crate::overlay::types::COORD_LIMIT
                    && ((d.tool == crate::overlay::types::AnnotationTool::Line || d.tool == crate::overlay::types::AnnotationTool::Arrow)
                        ==> crate::overlay::shapes::drag_len_sq(d) <= i32::MAX),
                None => true,
            },
            Some(ActiveDrag::MoveSelection { anchor, original_rect }) => anchor.wf()
                && selection_ok(original_rect, self.width, self.height),
            Some(ActiveDrag::ResizeSelection { handle, original_rect }) =>
                selection_ok(original_rect, self.width, self.height) && handle.resize_fits(original_rect, self.bounds_spec()),
            Some(ActiveDrag::MoveShape { anchor, original, .. }) => anchor.wf() && original.wf()
                && original.bounds_spec().width_spec() <= shape_area(self).width_spec()
                && original.bounds_spec().height_spec() <= shape_area(self).height_spec(),
            Some(ActiveDrag::ResizeShape { handle, original_rect, style, .. }) => original_rect.wf()
                && handle.resize_fits(original_rect, shape_area(self)) && style.stroke <= crate::overlay::types::COORD_LIMIT,
            _ => true,
        }
    }

    /// The point lies on the overlay.
    pub open spec fn on_overlay(&self, p: CursorPoint) -> bool {
        0 <= p.x < self.width && 0 <= p.y < self.height
    }

    /// The results bound to the old selection are dropped after it moved.
    pub open spec fn ocr_cleared(&self) -> bool {
        &&& self.ocr_blocks@.len() == 0
        &&& self.ocr_selected_block is None
        &&& self.ocr_full_text@.len() == 0
        &&& self.translated_full_text@.len() == 0
        &&& !self.has_translated_image
        &&& self.ocr_status is Some
    }

    fn clear_for_adjusted_selection(&mut self)
        ensures
            final(self).ocr_cleared(),
            final(self).ocr_status matches Some(m) && m@ == "选区已调整，请重新执行 OCR/翻译"@,
            final(self).same_selection_state(&old(self)),
            final(self).same_tool_state(&old(self)),
            final(self).same_shape_state(&old(self)),
            final(self).ocr_profile_index == old(self).ocr_profile_index,
            final(self).translation_profile_index == old(self).translation_profile_index,
            final(self).ocr_running == old(self).ocr_running,
            final(self).translation_running == old(self).translation_running,
    {
        self.ocr_blocks = Vec::new();
        self.ocr_selected_block = None;
        self.ocr_full_text = String::new();
        self.translated_full_text = String::new();
        self.has_translated_image = false;
        self.ocr_status = Some(String::from_str("选区已调整，请重新执行 OCR/翻译"));
    }
}

/// The box shape of a resized kind spanning `rect`, keeping `style`.
pub open spec fn box_shape_like(shape: AnnotationShape, rect: NormalizedRect, style: ShapeStyle) -> AnnotationShape {
    let start = CursorPoint { x: rect.left, y: rect.top };
    let end = CursorPoint { x: rect.right, y: rect.bottom };
    match shape {
        AnnotationShape::Ellipse { .. } => AnnotationShape::Ellipse { start, end, style },
        AnnotationShape::Mosaic { .. } => AnnotationShape::Mosaic { start, end, style },
        _ => AnnotationShape::Rectangle { start, end, style },
    }
}

/// Resizing a box shape keeps its kind: a rectangle stays a rectangle, an
/// ellipse an ellipse, a mosaic a mosaic; it takes the new box's corners and
/// the given style.
pub proof fn lemma_resize_keeps_kind(shape: AnnotationShape, rect: NormalizedRect, style: ShapeStyle)
    requires
        shape is Rectangle || shape is Ellipse || shape is Mosaic,
    ensures
        crate::overlay::shapes::tool_of_shape(box_shape_like(shape, rect, style))
            == crate::overlay::shapes::tool_of_shape(shape),
        match box_shape_like(shape, rect, style) {
            AnnotationShape::Rectangle { start, end, style: st }
            | AnnotationShape::Ellipse { start, end, style: st }
            | AnnotationShape::Mosaic { start, end, style: st } =>
                start.x == rect.left && start.y == rect.top && end.x == rect.right && end.y == rect.bottom && st == style,
            _ => false,
        },
{
}

impl OverlayState {
    /// Moves the selection to `next`, dropping the results bound to it if it changed.
    fn set_adjusted_selection(&mut self, next: NormalizedRect)
        requires
            old(self).wf(),
            selection_ok(next, old(self).width, old(self).height),
        ensures
            final(self).selection == Some(next),
            old(self).selection != Some(next) ==> final(self).ocr_cleared(),
            old(self).selection == Some(next) ==> final(self).same_ocr_state(&old(self)),
            final(self).same_tool_state(&old(self)),
            final(self).same_shape_state(&old(self)),
            final(self).mode == old(self).mode,
            final(self).hover_selection == old(self).hover_selection,
            final(self).last_cursor == old(self).last_cursor,
            final(self).width == old(self).width,
            final(self).height == old(self).height,
            final(self).wf(),
    {
        let same = match self.selection {
            Some(s) => s == next,
            None => false,
        };
        if !same {
            self.clear_for_adjusted_selection();
        }
        self.selection = Some(next);
    }

    /// Continues a drag of a shape to `point`: the shape at the dragged index
    /// becomes the original moved by the drag, kept inside the selection.
    fn continue_shape_move(&mut self, shape_index: usize, anchor: CursorPoint, original: &AnnotationShape, point: CursorPoint)
        requires
            old(self).wf(),
            point.wf(),
            anchor.wf(),
            original.wf(),
            original.bounds_spec().width_spec() <= shape_area(&old(self)).width_spec(),
            original.bounds_spec().height_spec() <= shape_area(&old(self)).height_spec(),
        ensures
            shape_index < old(self).shapes@.len() ==> {
                let area = shape_area(&old(self));
                let sb = original.bounds_spec();
                &&& final(self).shapes@ == old(self).shapes@.update(shape_index as int, original.translated_spec(
                    spec_clamp(point.x - anchor.x, area.left - sb.left, area.right - sb.right),
                    spec_clamp(point.y - anchor.y, area.top - sb.top, area.bottom - sb.bottom)))
                &&& final(self).composed_dirty
            },
            shape_index >= old(self).shapes@.len() ==> final(self).shapes@ == old(self).shapes@
                && final(self).composed_dirty == old(self).composed_dirty,
            final(self).same_selection_state(&old(self)),
            final(self).same_tool_state(&old(self)),
            final(self).same_ocr_state(&old(self)),
            final(self).draft == old(self).draft,
            final(self).text_input == old(self).text_input,
            final(self).selected_shape == old(self).selected_shape,
            final(self).active_drag == old(self).active_drag,
            final(self).next_number == old(self).next_number,
            final(self).wf(),
    {
        let dx = point.x - anchor.x;
        let dy = point.y - anchor.y;
        let area = match self.selection {
            Some(s) => s,
            None => self.bounds(),
        };
        if shape_index < self.shapes.len() {
            let moved = original.translated_clamped_to_rect(dx, dy, area);
            let ghost before = self.shapes@;
            self.shapes.set(shape_index, moved);
            self.composed_dirty = true;
            proof {
                assert forall|k: int| 0 <= k < self.shapes@.len() implies (#[trigger] self.shapes@[k]).wf() by {
                    if k != shape_index {
                        assert(before[k].wf());
                    }
                }
            }
        }
    }

    /// Continues a resize of a box shape to `point`, kept inside the selection.
    fn continue_shape_resize(&mut self, shape_index: usize, handle: ResizeHandle, original_rect: NormalizedRect, style: ShapeStyle, point: CursorPoint)
        requires
            old(self).wf(),
            point.wf(),
            original_rect.wf(),
            handle.resize_fits(original_rect, shape_area(&old(self))),
            style.stroke <= crate::overlay::types::COORD_LIMIT,
        ensures
            shape_index < old(self).shapes@.len() ==> {
                let rect = handle.resized_spec(original_rect, old(self).clamp_to_selection_spec(point), shape_area(&old(self)));
                &&& final(self).shapes@ == old(self).shapes@.update(shape_index as int,
                    box_shape_like(old(self).shapes@[shape_index as int], rect, style))
                &&& final(self).composed_dirty
            },
            shape_index >= old(self).shapes@.len() ==> final(self).shapes@ == old(self).shapes@
                && final(self).composed_dirty == old(self).composed_dirty,
            final(self).same_selection_state(&old(self)),
            final(self).same_tool_state(&old(self)),
            final(self).same_ocr_state(&old(self)),
            final(self).draft == old(self).draft,
            final(self).text_input == old(self).text_input,
            final(self).selected_shape == old(self).selected_shape,
            final(self).active_drag == old(self).active_drag,
            final(self).next_number == old(self).next_number,
            final(self).wf(),
    {
        let area = match self.selection {
            Some(s) => s,
            None => self.bounds(),
        };
        let clamped = self.clamp_point_to_selection(point);
        if shape_index < self.shapes.len() {
            let rect = handle.resized_rect_with_bounds(original_rect, clamped, area);
            let start = CursorPoint { x: rect.left, y: rect.top };
            let end = CursorPoint { x: rect.right, y: rect.bottom };
            let replaced = match &self.shapes[shape_index] {
                AnnotationShape::Ellipse { .. } => AnnotationShape::Ellipse { start, end, style },
                AnnotationShape::Mosaic { .. } => AnnotationShape::Mosaic { start, end, style },
                _ => AnnotationShape::Rectangle { start, end, style },
            };
            let ghost before = self.shapes@;
            self.shapes.set(shape_index, replaced);
            self.composed_dirty = true;
            proof {
                assert forall|k: int| 0 <= k < self.shapes@.len() implies (#[trigger] self.shapes@[k]).wf() by {
                    if k != shape_index {
                        assert(before[k].wf());
                    }
                }
            }
        }
    }
}

/// What the overlay's owner is asked to do after a toolbar button: start a
/// request, copy the full text (when there is any), pin, finish or cancel.
pub open spec fn toolbar_command(action: ToolbarAction, full_text_available: bool) -> OverlayCommand {
    match action {
        ToolbarAction::OcrRun => OverlayCommand::StartOcr,
        ToolbarAction::TranslateRun => OverlayCommand::StartTranslation,
        ToolbarAction::OcrCopyAll => if full_text_available { OverlayCommand::CopyFullText } else { OverlayCommand::Nothing },
        ToolbarAction::Pin => OverlayCommand::Pin,
        ToolbarAction::Confirm => OverlayCommand::Complete,
        ToolbarAction::Cancel => OverlayCommand::Cancel,
        _ => OverlayCommand::Nothing,
    }
}

/// The tools that draw a new shape with a drag.
pub open spec fn draws_shape(tool: AnnotationTool) -> bool {
    tool == AnnotationTool::Rectangle || tool == AnnotationTool::Ellipse || tool == AnnotationTool::Line
        || tool == AnnotationTool::Arrow || tool == AnnotationTool::Mosaic || tool == AnnotationTool::Text
}

impl OverlayState {
    /// What a press on the canvas away from every handle and shape does
    /// (the badge tool aside): the select tool starts moving the selection,
    /// a drawing tool starts a new shape at the point pulled into the
    /// selection; outside the selection nothing starts.
    pub open spec fn press_start_spec(&self, point: CursorPoint, r: OverlayCommand, after: &Self) -> bool {
        &&& self.tool != AnnotationTool::Number ==> after.selected_shape is None && after.shapes@ == self.shapes@
        &&& self.tool == AnnotationTool::Select && self.point_in_selection_spec(point) ==> r == OverlayCommand::CaptureMouse
            && after.active_drag == Some(ActiveDrag::MoveSelection { anchor: point, original_rect: self.selection.unwrap() })
        &&& draws_shape(self.tool) && self.point_in_selection_spec(point) ==> r == OverlayCommand::CaptureMouse
            && after.active_drag == Some(ActiveDrag::Drafting)
            && after.draft == Some(crate::overlay::types::DraftShape {
                tool: self.tool,
                start: self.clamp_to_selection_spec(point),
                current: self.clamp_to_selection_spec(point),
                style: ShapeStyle { color: COLOR_PRESETS@[self.color_index as int], stroke: self.current_style_value_spec() },
            })
        &&& !self.point_in_selection_spec(point) ==> r == OverlayCommand::Nothing && after.active_drag == self.active_drag
    }
}

impl OverlayState {
    /// What a press on the canvas does once the toolbar, any text being typed
    /// and the recognised blocks have had their turn. The pointer tool only
    /// drops the shape selection. Otherwise, in this order: a handle of the
    /// selection starts resizing it; a handle of the selected box shape
    /// starts resizing that shape; a shape under the point is selected and
    /// starts moving; the badge tool places the next numbered badge; and
    /// `press_start_spec` covers the rest. A resize or move that could not
    /// fit its area starts nothing.
    pub open spec fn press_canvas_spec(&self, point: CursorPoint, r: OverlayCommand, after: &Self) -> bool {
        let sel_handle = self.selection_handle_spec(point);
        let shape_handle = self.shape_handle_spec(point);
        if self.tool == AnnotationTool::Mouse {
            r == OverlayCommand::Nothing && after.selected_shape is None && after.shapes@ == self.shapes@
        } else if sel_handle is Some {
            let handle = sel_handle.unwrap();
            let rect = self.selection.unwrap();
            &&& after.shapes@ == self.shapes@
            &&& after.selected_shape == self.selected_shape
            &&& if handle.resize_fits(rect, self.bounds_spec()) {
                r == OverlayCommand::CaptureMouse
                    && after.active_drag == Some(ActiveDrag::ResizeSelection { handle, original_rect: rect })
            } else {
                r == OverlayCommand::Nothing && after.active_drag is None
            }
        } else if shape_handle is Some {
            let handle = shape_handle.unwrap();
            let t = self.resizable_selected_spec().unwrap();
            &&& after.shapes@ == self.shapes@
            &&& after.selected_shape == self.selected_shape
            &&& if handle.resize_fits(t.1, shape_area(self)) && t.2.stroke <= crate::overlay::types::COORD_LIMIT {
                r == OverlayCommand::CaptureMouse && after.active_drag == Some(ActiveDrag::ResizeShape {
                    shape_index: t.0, handle, original_rect: t.1, style: t.2 })
            } else {
                r == OverlayCommand::Nothing && after.active_drag is None
            }
        } else if self.shape_at_spec(point) is Some {
            let i = self.shape_at_spec(point).unwrap();
            let sb = self.shapes@[i as int].bounds_spec();
            let area = shape_area(self);
            &&& after.shapes@ == self.shapes@
            &&& after.selected_shape == Some(i)
            &&& if sb.right - sb.left <= area.right - area.left && sb.bottom - sb.top <= area.bottom - area.top {
                r == OverlayCommand::CaptureMouse && after.active_drag == Some(ActiveDrag::MoveShape {
                    shape_index: i, anchor: self.clamp_to_selection_spec(point), original: self.shapes@[i as int] })
            } else {
                r == OverlayCommand::Nothing && after.active_drag is None
            }
        } else if self.tool == AnnotationTool::Number && self.point_in_selection_spec(point) {
            &&& r == OverlayCommand::Nothing
            &&& after.shapes@ == self.shapes@.push(AnnotationShape::Number {
                center: self.clamp_to_selection_spec(point),
                value: self.next_number,
                style: ShapeStyle { color: COLOR_PRESETS@[self.color_index as int], stroke: self.current_style_value_spec() },
            })
            &&& after.selected_shape == Some(self.shapes@.len() as usize)
            &&& after.next_number == (if self.next_number == u32::MAX { u32::MAX } else { (self.next_number + 1) as u32 })
        } else {
            self.press_start_spec(point, r, after)
        }
    }
}

/// The state a canvas press starts from: the text being typed committed,
/// and all that the press reads otherwise as before.
pub open spec fn canvas_ready(mid: &OverlayState, old: &OverlayState) -> bool {
    &&& mid.text_input is None
    &&& mid.shapes@ == shapes_after_commit(old)
    &&& mid.selected_shape == selected_after_commit(old)
    &&& mid.tool == old.tool
    &&& mid.selection == old.selection
    &&& mid.width == old.width
    &&& mid.height == old.height
    &&& mid.color_index == old.color_index
    &&& mid.stroke_width == old.stroke_width
    &&& mid.text_size == old.text_size
    &&& mid.number_size == old.number_size
    &&& mid.mosaic_size == old.mosaic_size
    &&& mid.next_number == old.next_number
    &&& mid.active_drag == old.active_drag
    &&& mid.draft == old.draft
}

/// The selected shape once the text being typed is committed: the text
/// shape when there was text, none when the text was blank.
pub open spec fn selected_after_commit(state: &OverlayState) -> Option<usize> {
    match state.text_input {
        None => state.selected_shape,
        Some(d) => if is_blank_spec(d.text@) {
            None
        } else {
            Some(restore_index(d, state.shapes@.len() as int) as usize)
        },
    }
}

/// Two states that agree on what a canvas press reads answer it alike.
proof fn lemma_press_canvas_spec_same(a: &OverlayState, b: &OverlayState, point: CursorPoint, r: OverlayCommand, after: &OverlayState)
    requires
        a.shapes@ == b.shapes@,
        a.selected_shape == b.selected_shape,
        a.text_input == b.text_input,
        a.tool == b.tool,
        a.selection == b.selection,
        a.width == b.width,
        a.height == b.height,
        a.color_index == b.color_index,
        a.stroke_width == b.stroke_width,
        a.text_size == b.text_size,
        a.number_size == b.number_size,
        a.mosaic_size == b.mosaic_size,
        a.next_number == b.next_number,
        a.active_drag == b.active_drag,
        a.draft == b.draft,
    ensures
        a.press_canvas_spec(point, r, after) == b.press_canvas_spec(point, r, after),
{
    lemma_topmost_hit_same(a, b, a.shapes@.len() as int, point);
}

/// Which shape a point hits depends only on the shapes, the selected shape
/// and the tool.
proof fn lemma_topmost_hit_same(a: &OverlayState, b: &OverlayState, n: int, point: CursorPoint)
    requires
        a.shapes@ == b.shapes@,
        a.selected_shape == b.selected_shape,
        a.tool == b.tool,
    ensures
        crate::overlay::session::topmost_hit(a, n, point) == crate::overlay::session::topmost_hit(b, n, point),
    decreases n,
{
    if n > 0 {
        lemma_topmost_hit_same(a, b, n - 1, point);
    }
}

/// The shapes after undo: a shape being re-edited goes back in its place;
/// otherwise the last shape drawn goes.
pub open spec fn shapes_after_undo(state: &OverlayState) -> Seq<AnnotationShape> {
    let dropped = if state.shapes@.len() > 0 { state.shapes@.drop_last() } else { state.shapes@ };
    match state.text_input {
        Some(d) => match d.editing_shape {
            Some(e) => state.shapes@.insert(restore_index(d, state.shapes@.len() as int), e.1),
            None => dropped,
        },
        None => dropped,
    }
}

/// The shapes once the text being typed is committed: unchanged without
/// text or with blank text, else with the text shape put back in its place.
pub open spec fn shapes_after_commit(state: &OverlayState) -> Seq<AnnotationShape> {
    match state.text_input {
        Some(d) => if is_blank_spec(d.text@) {
            state.shapes@
        } else {
            state.shapes@.insert(restore_index(d, state.shapes@.len() as int), committed_shape(d, state.selection))
        },
        None => state.shapes@,
    }
}

/// The slider's track inside its button: twelve pixels in from each side,
/// a little above and below the middle.
pub open spec fn track_of(rect: IntRect) -> IntRect {
    let cy = crate::notification::div_toward_zero(rect.top + rect.bottom, 2);
    IntRect {
        left: (rect.left + 12) as i32,
        top: (cy - TOOLBAR_STYLE_TRACK_HEIGHT) as i32,
        right: (rect.right - 12) as i32,
        bottom: (cy + TOOLBAR_STYLE_TRACK_HEIGHT) as i32,
    }
}

/// The slider value at `x` on `track`: the position along the track (clamped
/// to its ends) scaled onto `lo..=hi` and rounded to the nearest value.
pub open spec fn slider_value_spec(track: IntRect, x: int, lo: int, hi: int) -> int {
    let span = spec_max(track.right - track.left - 1, 1);
    let pos = spec_clamp(x - track.left, 0, span);
    lo + ((hi - lo) * pos * 2 + span) / (2 * span)
}

pub fn slider_value(track: IntRect, x: i32, lo: u32, hi: u32) -> (r: u32)
    requires
        lo <= hi <= 1000,
        -0x0300_0000 <= track.left <= 0x0300_0000,
        -0x0300_0000 <= track.right <= 0x0300_0000,
        -0x0400_0000 <= x <= 0x0400_0000,
    ensures
        r == slider_value_spec(track, x as int, lo as int, hi as int),
        lo <= r <= hi,
{
    let w = (track.right as i64) - (track.left as i64) - 1;
    let span: i64 = if w >= 1 { w } else { 1 };
    let off = (x as i64) - (track.left as i64);
    let pos: i64 = if off < 0 { 0 } else if off > span { span } else { off };
    let d = (hi - lo) as i64;
    assert(0 <= d * pos * 2 <= 1000 * 0x1000_0000 * 2) by (nonlinear_arith)
        requires 0 <= d <= 1000, 0 <= pos <= 0x1000_0000;
    let q = (d * pos * 2 + span) / (2 * span);
    assert(q <= d) by (nonlinear_arith)
        requires
            0 <= pos <= span,
            1 <= span,
            0 <= d,
            q == (d * pos * 2 + span) / (2 * span);
    assert(q >= 0) by (nonlinear_arith)
        requires 0 <= pos, 1 <= span, 0 <= d, q == (d * pos * 2 + span) / (2 * span);
    lo + q as u32
}

impl OverlayState {
    /// The slider's button on the toolbar.
    pub fn style_control_rect(&self) -> (r: Option<IntRect>)
        requires
            self.wf(),
        ensures
            r == self.toolbar_item_rect_spec(ToolbarAction::StyleControl),
            r matches Some(rect) ==> -0x0200_0000 <= rect.left <= 0x0200_0000 && -0x0200_0000 <= rect.top <= 0x0200_0000
                && -0x0200_0000 <= rect.bottom <= 0x0200_0000 && -0x0200_0000 <= rect.right <= 0x0200_0000,
    {
        self.toolbar_item_rect(ToolbarAction::StyleControl)
    }

    /// The slider's track, when the toolbar shows the slider.
    pub open spec fn style_track_spec(&self) -> Option<IntRect> {
        match self.toolbar_item_rect_spec(ToolbarAction::StyleControl) {
            Some(rect) => Some(track_of(rect)),
            None => None,
        }
    }

    /// The slider value under the point, when the toolbar shows the slider.
    pub open spec fn style_value_at_spec(&self, point: CursorPoint) -> Option<u32> {
        let range = crate::overlay::session::style_range_spec(self.style_control_target_spec());
        match self.style_track_spec() {
            Some(track) => Some(slider_value_spec(track, point.x as int, range.0 as int, range.1 as int) as u32),
            None => None,
        }
    }

    /// The slider's track.
    pub fn style_control_track_rect(&self) -> (r: Option<IntRect>)
        requires
            self.wf(),
        ensures
            r == self.style_track_spec(),
            r matches Some(t) ==> -0x0200_0000 - 12 <= t.left <= 0x0200_0000 + 12 && -0x0200_0000 - 12 <= t.right <= 0x0200_0000 + 12,
    {
        let rect = match self.style_control_rect() {
            Some(r) => r,
            None => return None,
        };
        let cy = (rect.top + rect.bottom) / 2;
        Some(IntRect {
            left: rect.left + 12,
            top: cy - TOOLBAR_STYLE_TRACK_HEIGHT,
            right: rect.right - 12,
            bottom: cy + TOOLBAR_STYLE_TRACK_HEIGHT,
        })
    }

    /// The slider value under the point, in the range of the slider's target.
    pub fn style_control_value_from_point(&self, point: CursorPoint) -> (r: Option<u32>)
        requires
            self.wf(),
            point.wf(),
        ensures
            r == self.style_value_at_spec(point),
            r matches Some(v) ==> style_range_bounds(self, v),
    {
        let track = match self.style_control_track_rect() {
            Some(t) => t,
            None => return None,
        };
        let (min_value, max_value) = self.style_value_range();
        Some(slider_value(track, point.x, min_value, max_value))
    }

    /// Follows the pointer while a button is held: extends the selection or
    /// the shape being drawn, moves or resizes the selection or a shape, or
    /// moves the size slider. With nothing held while selecting, the window
    /// under the cursor is looked up to highlight it.
    pub fn handle_mouse_move(&mut self, point: CursorPoint) -> (r: OverlayCommand)
        requires
            old(self).wf(),
            old(self).drag_ok(),
            point.wf(),
        ensures
            final(self).wf(),
            (r == OverlayCommand::RefreshHover) == (old(self).active_drag is None && old(self).mode == OverlayMode::Selecting),
            r == OverlayCommand::RefreshHover || r == OverlayCommand::Nothing,
            final(self).active_drag == (match old(self).active_drag {
                Some(ActiveDrag::Selecting { start, .. }) => Some(ActiveDrag::Selecting { start, current: point }),
                other => other,
            }),
            old(self).active_drag matches Some(ActiveDrag::Drafting) ==> final(self).draft == (match old(self).draft {
                Some(d) => Some(crate::overlay::types::DraftShape { current: old(self).clamp_to_selection_spec(point), ..d }),
                None => None,
            }),
            old(self).active_drag matches Some(ActiveDrag::MoveSelection { anchor, original_rect }) ==> final(self).selection
                == Some(original_rect.translated_clamped_spec(point.x - anchor.x, point.y - anchor.y, old(self).bounds_spec())),
            old(self).active_drag matches Some(ActiveDrag::ResizeSelection { handle, original_rect }) ==> final(self).selection
                == Some(handle.resized_spec(original_rect, point, old(self).bounds_spec())),
            old(self).active_drag matches Some(ActiveDrag::MoveShape { shape_index, anchor, original }) ==> (shape_index < old(self).shapes@.len() ==> {
                let area = shape_area(&old(self));
                let sb = original.bounds_spec();
                final(self).shapes@ == old(self).shapes@.update(shape_index as int, original.translated_spec(
                    spec_clamp(point.x - anchor.x, area.left - sb.left, area.right - sb.right),
                    spec_clamp(point.y - anchor.y, area.top - sb.top, area.bottom - sb.bottom)))
            }),
            old(self).active_drag matches Some(ActiveDrag::ResizeShape { shape_index, handle, original_rect, style }) ==> (shape_index < old(self).shapes@.len() ==> {
                let rect = handle.resized_spec(original_rect, old(self).clamp_to_selection_spec(point), shape_area(&old(self)));
                final(self).shapes@ == old(self).shapes@.update(shape_index as int, box_shape_like(old(self).shapes@[shape_index as int], rect, style))
            }),
            !(old(self).active_drag matches Some(ActiveDrag::MoveShape { .. })) && !(old(self).active_drag matches Some(ActiveDrag::ResizeShape { .. }))
                && !(old(self).active_drag matches Some(ActiveDrag::AdjustStyleControl)) ==> final(self).shapes@ == old(self).shapes@,
            !(old(self).active_drag matches Some(ActiveDrag::MoveSelection { .. }))
                && !(old(self).active_drag matches Some(ActiveDrag::ResizeSelection { .. })) ==> final(self).selection == old(self).selection,
            final(self).selection != old(self).selection ==> final(self).ocr_cleared(),
            old(self).active_drag matches Some(ActiveDrag::AdjustStyleControl) ==> match old(self).style_value_at_spec(point) {
                Some(v) => final(self).style_value_set(&old(self), v),
                None => *final(self) == *old(self),
            },
    {
        let drag = match &self.active_drag {
            Some(d) => clone_drag(d),
            None => {
                return if self.mode == OverlayMode::Selecting { OverlayCommand::RefreshHover } else { OverlayCommand::Nothing };
            },
        };
        match drag {
            ActiveDrag::Selecting { start, .. } => {
                self.active_drag = Some(ActiveDrag::Selecting { start, current: point });
            },
            ActiveDrag::Drafting => {
                let clamped = self.clamp_point_to_selection(point);
                match &mut self.draft {
                    Some(d) => {
                        d.current = clamped;
                    },
                    None => {},
                }
            },
            ActiveDrag::MoveSelection { anchor, original_rect } => {
                let bounds = self.bounds();
                let next = original_rect.translated_clamped(point.x - anchor.x, point.y - anchor.y, bounds);
                self.set_adjusted_selection(next);
            },
            ActiveDrag::ResizeSelection { handle, original_rect } => {
                let bounds = self.bounds();
                let next = handle.resized_rect_with_bounds(original_rect, point, bounds);
                self.set_adjusted_selection(next);
            },
            ActiveDrag::MoveShape { shape_index, anchor, original } => {
                self.continue_shape_move(shape_index, anchor, &original, point);
            },
            ActiveDrag::ResizeShape { shape_index, handle, original_rect, style } => {
                self.continue_shape_resize(shape_index, handle, original_rect, style, point);
            },
            ActiveDrag::AdjustStyleControl => {
                if let Some(value) = self.style_control_value_from_point(point) {
                    self.set_current_style_value(value);
                }
            },
        }
        OverlayCommand::Nothing
    }
}

pub open spec fn style_range_bounds(state: &OverlayState, v: u32) -> bool {
    let range = crate::overlay::session::style_range_spec(state.style_control_target_spec());
    range.0 <= v <= range.1
}

/// An exact copy of a drag.
pub fn clone_drag(drag: &ActiveDrag) -> (r: ActiveDrag)
    ensures
        r == *drag,
{
    match drag {
        ActiveDrag::Selecting { start, current } => ActiveDrag::Selecting { start: *start, current: *current },
        ActiveDrag::Drafting => ActiveDrag::Drafting,
        ActiveDrag::MoveSelection { anchor, original_rect } => ActiveDrag::MoveSelection { anchor: *anchor, original_rect: *original_rect },
        ActiveDrag::ResizeSelection { handle, original_rect } => ActiveDrag::ResizeSelection { handle: *handle, original_rect: *original_rect },
        ActiveDrag::MoveShape { shape_index, anchor, original } =>
            ActiveDrag::MoveShape { shape_index: *shape_index, anchor: *anchor, original: clone_shape(original) },
        ActiveDrag::ResizeShape { shape_index, handle, original_rect, style } =>
            ActiveDrag::ResizeShape { shape_index: *shape_index, handle: *handle, original_rect: *original_rect, style: *style },
        ActiveDrag::AdjustStyleControl => ActiveDrag::AdjustStyleControl,
    }
}

/// The box a draft is committed with: kept inside the selection, if any.
pub open spec fn committed_box(d: TextDraft, selection: Option<NormalizedRect>) -> NormalizedRect {
    match selection {
        Some(sel) => clamp_text_box_spec(d.box_rect, d.text@, d.style, d.bold, d.italic, sel),
        None => d.box_rect,
    }
}

/// The text shape a draft becomes.
pub open spec fn committed_shape(d: TextDraft, selection: Option<NormalizedRect>) -> AnnotationShape {
    AnnotationShape::Text {
        box_rect: committed_box(d, selection),
        text: d.text,
        style: d.style,
        bold: d.bold,
        italic: d.italic,
        background: d.background,
        font_family: d.font_family,
    }
}

/// Where a shape taken out for editing goes back: its old place, or the end.
pub open spec fn restore_index(d: TextDraft, len: int) -> int {
    match d.editing_shape {
        Some(e) => if e.0 < len { e.0 as int } else { len },
        None => len,
    }
}

/// Opening an annotation for editing and cancelling the edit gives the
/// annotation list back as it was: `begin_text_edit` takes the shape out at
/// its index, and `cancel_text_input` puts it back at `restore_index`.
pub proof fn lemma_edit_then_cancel_restores(shapes: Seq<AnnotationShape>, index: usize, draft: TextDraft)
    requires
        index < shapes.len(),
        draft.editing_shape == Some((index, shapes[index as int])),
    ensures
        shapes.remove(index as int).insert(restore_index(draft, shapes.len() - 1), shapes[index as int]) == shapes,
{
    assert(restore_index(draft, shapes.len() - 1) == index);
    assert(shapes.remove(index as int).insert(index as int, shapes[index as int]) =~= shapes);
}

/// Drawing a shape and undoing gives the annotation list back as it was:
/// `finish_drafting` pushes the new shape and `undo` drops the last one.
pub proof fn lemma_draw_then_undo_restores(shapes: Seq<AnnotationShape>, shape: AnnotationShape)
    ensures
        shapes.push(shape).len() > 0,
        shapes.push(shape).drop_last() == shapes,
{
    assert(shapes.push(shape).drop_last() =~= shapes);
}


impl OverlayState {
    /// Everything but the annotations, the draft, the selected shape and the
    /// repaint flag is as in `other`.
    pub open spec fn same_but_shapes(&self, other: &Self) -> bool {
        &&& self.same_selection_state(other)
        &&& self.same_tool_state(other)
        &&& self.same_ocr_state(other)
        &&& self.draft == other.draft
        &&& self.active_drag == other.active_drag
        &&& self.next_number == other.next_number
    }

    /// Ends text input: a blank draft is dropped (a re-edited shape is then
    /// gone); otherwise the text becomes a shape, kept inside the selection,
    /// back in the re-edited shape's place or on top, and is selected.
    /// Returns whether the annotations changed.
    #[verifier::rlimit(40)]
    pub fn commit_text_input(&mut self) -> (r: bool)
        requires
            old(self).wf(),
        ensures
            final(self).wf(),
            final(self).same_but_shapes(&old(self)),
            final(self).text_input is None,
            match old(self).text_input {
                None => !r && final(self).shapes@ == old(self).shapes@ && final(self).selected_shape == old(self).selected_shape
                    && final(self).composed_dirty == old(self).composed_dirty,
                Some(d) => if is_blank_spec(d.text@) {
                    &&& r == d.editing_shape is Some
                    &&& final(self).shapes@ == old(self).shapes@
                    &&& final(self).selected_shape is None
                    &&& final(self).composed_dirty == (old(self).composed_dirty || d.editing_shape is Some)
                } else {
                    let idx = restore_index(d, old(self).shapes@.len() as int);
                    &&& r
                    &&& final(self).shapes@ == old(self).shapes@.insert(idx, committed_shape(d, old(self).selection))
                    &&& final(self).selected_shape == Some(idx as usize)
                    &&& final(self).composed_dirty
                },
            },
    {
        let draft = match self.text_input.take() {
            Some(d) => d,
            None => return false,
        };
        if is_blank(draft.text.as_str()) {
            self.selected_shape = None;
            if draft.editing_shape.is_some() {
                self.composed_dirty = true;
                return true;
            }
            return false;
        }
        let selection = self.selection;
        let (editing_index, shape) = committed_text_shape(draft, selection);
        let new_index = insert_shape_at(&mut self.shapes, shape, editing_index);
        self.selected_shape = Some(new_index);
        self.composed_dirty = true;
        true
    }

    /// Takes the text shape at `shape_index` out of the annotations and opens
    /// it for typing, remembering where it was. Returns whether it did.
    pub fn begin_text_edit(&mut self, shape_index: usize) -> (r: bool)
        requires
            old(self).wf(),
        ensures
            final(self).wf(),
            final(self).same_but_shapes(&old(self)),
            r == (shape_index < old(self).shapes@.len() && old(self).shapes@[shape_index as int] is Text),
            r ==> ({
                let s = old(self).shapes@[shape_index as int];
                &&& final(self).shapes@ == old(self).shapes@.remove(shape_index as int)
                &&& final(self).text_input matches Some(d) && d.editing_shape == Some((shape_index, s))
                    && committed_shape(d, None) == s
                &&& final(self).selected_shape is None
                &&& final(self).composed_dirty
            }),
            !r ==> final(self).shapes@ == old(self).shapes@ && final(self).text_input == old(self).text_input
                && final(self).selected_shape == old(self).selected_shape && final(self).composed_dirty == old(self).composed_dirty,
    {
        if shape_index >= self.shapes.len() {
            return false;
        }
        let original = clone_shape(&self.shapes[shape_index]);
        match &original {
            AnnotationShape::Text { box_rect, text, style, bold, italic, background, font_family } => {
                let draft = TextDraft {
                    box_rect: *box_rect,
                    text: text.clone(),
                    style: *style,
                    bold: *bold,
                    italic: *italic,
                    background: *background,
                    font_family: *font_family,
                    editing_shape: None,
                };
                let ghost before = self.shapes@;
                self.shapes.remove(shape_index);
                self.text_input = Some(TextDraft { editing_shape: Some((shape_index, clone_shape(&original))), ..draft });
                self.selected_shape = None;
                self.composed_dirty = true;
                proof {
                    assert forall|k: int| 0 <= k < self.shapes@.len() implies (#[trigger] self.shapes@[k]).wf() by {
                        if k < shape_index {
                            assert(self.shapes@[k] == before[k]);
                        } else {
                            assert(self.shapes@[k] == before[k + 1]);
                        }
                    }
                }
                true
            },
            _ => false,
        }
    }

    /// Abandons text input; a re-edited shape goes back in its place and is
    /// selected. Returns whether a shape was restored.
    pub fn cancel_text_input(&mut self) -> (r: bool)
        requires
            old(self).wf(),
        ensures
            final(self).wf(),
            final(self).same_but_shapes(&old(self)),
            final(self).text_input is None,
            match old(self).text_input {
                Some(d) => match d.editing_shape {
                    Some(e) => {
                        let idx = restore_index(d, old(self).shapes@.len() as int);
                        &&& r
                        &&& final(self).shapes@ == old(self).shapes@.insert(idx, e.1)
                        &&& final(self).selected_shape == Some(idx as usize)
                        &&& final(self).composed_dirty
                    },
                    None => !r && final(self).shapes@ == old(self).shapes@ && final(self).selected_shape == old(self).selected_shape
                        && final(self).composed_dirty == old(self).composed_dirty,
                },
                None => !r && final(self).shapes@ == old(self).shapes@ && final(self).selected_shape == old(self).selected_shape
                    && final(self).composed_dirty == old(self).composed_dirty,
            },
    {
        let draft = match self.text_input.take() {
            Some(d) => d,
            None => return false,
        };
        match draft.editing_shape {
            Some((index, shape)) => {
                let insert_index = if index < self.shapes.len() { index } else { self.shapes.len() };
                let ghost before = self.shapes@;
                self.shapes.insert(insert_index, shape);
                self.selected_shape = Some(insert_index);
                self.composed_dirty = true;
                proof {
                    assert forall|k: int| 0 <= k < self.shapes@.len() implies (#[trigger] self.shapes@[k]).wf() by {
                        if k < insert_index {
                            assert(self.shapes@[k] == before[k]);
                        } else if k > insert_index {
                            assert(self.shapes@[k] == before[k - 1]);
                        }
                    }
                }
                true
            },
            None => false,
        }
    }
}

/// Inserts `shape` at `at` (or at the end when `at` is past it or absent),
/// returning where it went.
fn insert_shape_at(shapes: &mut Vec<AnnotationShape>, shape: AnnotationShape, at: Option<usize>) -> (idx: usize)
    requires
        forall|k: int| 0 <= k < old(shapes)@.len() ==> (#[trigger] old(shapes)@[k]).wf(),
        shape.wf(),
    ensures
        idx == (match at {
            Some(i) => if i < old(shapes)@.len() { i as int } else { old(shapes)@.len() as int },
            None => old(shapes)@.len() as int,
        }),
        final(shapes)@ == old(shapes)@.insert(idx as int, shape),
        forall|k: int| 0 <= k < final(shapes)@.len() ==> (#[trigger] final(shapes)@[k]).wf(),
{
    let n = shapes.len();
    let idx = match at {
        Some(i) => if i < n { i } else { n },
        None => n,
    };
    let ghost before = shapes@;
    shapes.insert(idx, shape);
    proof {
        assert forall|k: int| 0 <= k < shapes@.len() implies (#[trigger] shapes@[k]).wf() by {
            if k < idx {
                assert(shapes@[k] == before[k]);
            } else if k > idx {
                assert(shapes@[k] == before[k - 1]);
            }
        }
    }
    idx
}

/// The shape a non-blank draft becomes, with the place of the shape it re-edits.
fn committed_text_shape(draft: TextDraft, selection: Option<NormalizedRect>) -> (r: (Option<usize>, AnnotationShape))
    requires
        text_draft_ok(draft),
        selection matches Some(s) ==> s.wf() && 0 <= s.left < s.right && 0 <= s.top < s.bottom,
    ensures
        r.1 == committed_shape(draft, selection),
        r.1.wf(),
        r.0 == (match draft.editing_shape { Some(e) => Some(e.0), None => None::<usize> }),
{
    let box_rect = match selection {
        Some(sel) => clamp_text_box_to_bounds_styled(
            draft.box_rect,
            draft.text.as_str(),
            draft.style,
            draft.bold,
            draft.italic,
            draft.font_family,
            sel,
        ),
        None => draft.box_rect,
    };
    let editing_index = match &draft.editing_shape {
        Some((index, _)) => Some(*index),
        None => None,
    };
    (editing_index, AnnotationShape::Text {
        box_rect,
        text: draft.text,
        style: draft.style,
        bold: draft.bold,
        italic: draft.italic,
        background: draft.background,
        font_family: draft.font_family,
    })
}

impl OverlayState {
    /// Whether the drag in progress can be continued; see [`OverlayState::drag_ok`].
    pub fn drag_ok_exec(&self) -> (r: bool)
        requires
            self.wf(),
        ensures
            r == self.drag_ok(),
    {
        match &self.active_drag {
            Some(ActiveDrag::Selecting { start, current }) => {
                start.x >= 0 && (start.x as i64) < self.width as i64 && start.y >= 0 && (start.y as i64) < self.height as i64
                    && -crate::overlay::types::COORD_LIMIT <= current.x && current.x <= crate::overlay::types::COORD_LIMIT
                    && -crate::overlay::types::COORD_LIMIT <= current.y && current.y <= crate::overlay::types::COORD_LIMIT
            },
            Some(ActiveDrag::Drafting) => match &self.draft {
                Some(d) => {
                    let lim = crate::overlay::types::COORD_LIMIT;
                    let pts = -lim <= d.start.x && d.start.x <= lim && -lim <= d.start.y && d.start.y <= lim
                        && -lim <= d.current.x && d.current.x <= lim && -lim <= d.current.y && d.current.y <= lim;
                    if !pts || d.style.stroke > lim as u32 {
                        false
                    } else if d.tool == crate::overlay::types::AnnotationTool::Line || d.tool == crate::overlay::types::AnnotationTool::Arrow {
                        let dx = (d.current.x as i64) - (d.start.x as i64);
                        let dy = (d.current.y as i64) - (d.start.y as i64);
                        assert(0 <= dx * dx <= 0x4_0000_0000_0000) by (nonlinear_arith)
                            requires -0x200_0000 <= dx <= 0x200_0000;
                        assert(0 <= dy * dy <= 0x4_0000_0000_0000) by (nonlinear_arith)
                            requires -0x200_0000 <= dy <= 0x200_0000;
                        dx * dx + dy * dy <= i32::MAX as i64
                    } else {
                        true
                    }
                },
                None => true,
            },
            Some(ActiveDrag::MoveSelection { anchor, original_rect }) => {
                let lim = crate::overlay::types::COORD_LIMIT;
                -lim <= anchor.x && anchor.x <= lim && -lim <= anchor.y && anchor.y <= lim
                    && 0 <= original_rect.left && original_rect.left < original_rect.right
                    && (original_rect.right as i64) <= self.width as i64
                    && 0 <= original_rect.top && original_rect.top < original_rect.bottom
                    && (original_rect.bottom as i64) <= self.height as i64
            },
            Some(ActiveDrag::ResizeSelection { handle, original_rect }) => {
                let ok = 0 <= original_rect.left && original_rect.left < original_rect.right
                    && (original_rect.right as i64) <= self.width as i64
                    && 0 <= original_rect.top && original_rect.top < original_rect.bottom
                    && (original_rect.bottom as i64) <= self.height as i64;
                ok && resize_fits_exec(*handle, *original_rect, self.bounds())
            },
            Some(ActiveDrag::MoveShape { anchor, original, .. }) => {
                let lim = crate::overlay::types::COORD_LIMIT;
                if !(-lim <= anchor.x && anchor.x <= lim && -lim <= anchor.y && anchor.y <= lim) || !shape_wf_exec(original) {
                    false
                } else {
                    let area = match self.selection { Some(s) => s, None => self.bounds() };
                    let sb = original.bounds();
                    (sb.right as i64) - (sb.left as i64) <= (area.right as i64) - (area.left as i64)
                        && (sb.bottom as i64) - (sb.top as i64) <= (area.bottom as i64) - (area.top as i64)
                }
            },
            Some(ActiveDrag::ResizeShape { handle, original_rect, style, .. }) => {
                let lim = crate::overlay::types::COORD_LIMIT;
                let wf = -lim <= original_rect.left && original_rect.left <= lim && -lim <= original_rect.top && original_rect.top <= lim
                    && -lim <= original_rect.right && original_rect.right <= lim && -lim <= original_rect.bottom && original_rect.bottom <= lim;
                let area = match self.selection { Some(s) => s, None => self.bounds() };
                wf && style.stroke <= lim as u32 && resize_fits_exec(*handle, *original_rect, area)
            },
            _ => true,
        }
    }
}

fn resize_fits_exec(handle: ResizeHandle, start: NormalizedRect, bounds: NormalizedRect) -> (r: bool)
    requires
        start.wf(),
        bounds.wf(),
    ensures
        r == handle.resize_fits(start, bounds),
{
    let moves_left = handle == ResizeHandle::NorthWest || handle == ResizeHandle::SouthWest || handle == ResizeHandle::West;
    let moves_right = handle == ResizeHandle::NorthEast || handle == ResizeHandle::SouthEast || handle == ResizeHandle::East;
    let moves_top = handle == ResizeHandle::NorthWest || handle == ResizeHandle::NorthEast || handle == ResizeHandle::North;
    let moves_bottom = handle == ResizeHandle::SouthWest || handle == ResizeHandle::SouthEast || handle == ResizeHandle::South;
    (!moves_left || bounds.left <= start.right - crate::overlay::types::MIN_SELECTION_SPAN)
        && (!moves_right || start.left + crate::overlay::types::MIN_SELECTION_SPAN <= bounds.right)
        && (!moves_top || bounds.top <= start.bottom - crate::overlay::types::MIN_SELECTION_SPAN)
        && (!moves_bottom || start.top + crate::overlay::types::MIN_SELECTION_SPAN <= bounds.bottom)
}

/// Whether a shape stays within the overlay's working range; see [`AnnotationShape::wf`].
pub fn shape_wf_exec(shape: &AnnotationShape) -> (r: bool)
    ensures
        r == shape.wf(),
{
    let lim = crate::overlay::types::COORD_LIMIT;
    match shape {
        AnnotationShape::Rectangle { start, end, style }
        | AnnotationShape::Ellipse { start, end, style }
        | AnnotationShape::Line { start, end, style }
        | AnnotationShape::Arrow { start, end, style }
        | AnnotationShape::Mosaic { start, end, style } => {
            -lim <= start.x && start.x <= lim && -lim <= start.y && start.y <= lim && -lim <= end.x && end.x <= lim
                && -lim <= end.y && end.y <= lim && style.stroke <= lim as u32
        },
        AnnotationShape::Text { box_rect, text, .. } => {
            -0x0200_0000 <= box_rect.left && box_rect.left < box_rect.right && box_rect.right <= 0x0200_0000
                && -0x4300_0000 <= box_rect.top && box_rect.top < box_rect.bottom && box_rect.bottom <= 0x0200_0000
                && (box_rect.right as i64) - (box_rect.left as i64) <= 0x0100_0000
                && (box_rect.bottom as i64) - (box_rect.top as i64) <= 0x0100_0000
                && text.unicode_len() <= crate::overlay::text::TEXT_CHAR_LIMIT
        },
        AnnotationShape::Number { center, .. } => -lim <= center.x && center.x <= lim && -lim <= center.y && center.y <= lim,
    }
}

/// The selection a finished selecting drag from `start` to `point` makes: the
/// dragged rectangle, unless it is so small that it looks like a click, when
/// the highlighted window or control is taken instead (if there is one);
/// with no rectangle at all, the highlighted one; `None` if neither.
pub open spec fn released_selection(start: CursorPoint, point: CursorPoint, hover: Option<NormalizedRect>) -> Option<NormalizedRect> {
    match crate::geometry::spec_selection_from_coords(start.x as int, start.y as int, point.x as int, point.y as int) {
        Some((x, y, w, h)) => {
            let dragged = NormalizedRect { left: x as i32, top: y as i32, right: (x + w) as i32, bottom: (y + h) as i32 };
            if w < crate::overlay::types::MIN_SELECTION_SPAN || h < crate::overlay::types::MIN_SELECTION_SPAN {
                match hover {
                    Some(hv) => if hv.width_spec() > 0 && hv.height_spec() > 0 { Some(hv) } else { Some(dragged) },
                    None => Some(dragged),
                }
            } else {
                Some(dragged)
            }
        },
        None => hover,
    }
}

impl OverlayState {
    /// Starts annotating `selection` after a selecting drag.
    fn begin_annotating(&mut self, selection: NormalizedRect)
        requires
            old(self).wf(),
            selection_ok(selection, old(self).width, old(self).height),
        ensures
            final(self).wf(),
            final(self).mode == OverlayMode::Annotating,
            final(self).selection == Some(selection),
            final(self).hover_selection is None,
            final(self).tool == crate::overlay::types::AnnotationTool::Mouse,
            final(self).draft is None,
            final(self).text_input is None,
            final(self).selected_shape is None,
            final(self).shapes@ == old(self).shapes@,
            final(self).active_drag == old(self).active_drag,
            final(self).same_ocr_state(&old(self)),
    {
        self.mode = OverlayMode::Annotating;
        self.selection = Some(selection);
        self.hover_selection = None;
        self.tool = crate::overlay::types::AnnotationTool::Mouse;
        self.draft = None;
        self.text_input = None;
        self.selected_shape = None;
    }

    /// Ends a selecting drag at `point`: annotating starts on the selection it
    /// makes, or the overlay is cancelled when there is none.
    fn finish_selecting(&mut self, start: CursorPoint, point: CursorPoint) -> (r: OverlayCommand)
        requires
            old(self).wf(),
            old(self).on_overlay(start),
            old(self).on_overlay(point),
        ensures
            final(self).wf(),
            match released_selection(start, point, old(self).hover_selection) {
                Some(sel) => r == OverlayCommand::Nothing && final(self).mode == OverlayMode::Annotating
                    && final(self).selection == Some(sel) && final(self).shapes@ == old(self).shapes@,
                None => r == OverlayCommand::Cancel,
            },
            final(self).active_drag == old(self).active_drag,
    {
        match SelectionRect::from_points(start, point) {
            Some(rect) => {
                let looks_like_click = rect.width < crate::overlay::types::MIN_SELECTION_SPAN as u32
                    || rect.height < crate::overlay::types::MIN_SELECTION_SPAN as u32;
                let hovered = match self.hover_selection {
                    Some(h) => h.to_selection_rect(),
                    None => None,
                };
                let chosen = if looks_like_click {
                    match hovered {
                        Some(h) => h,
                        None => rect,
                    }
                } else {
                    rect
                };
                let selection = NormalizedRect::from_selection_rect(chosen);
                self.begin_annotating(selection);
                OverlayCommand::Nothing
            },
            None => match self.hover_selection {
                Some(hover) => {
                    self.begin_annotating(hover);
                    OverlayCommand::Nothing
                },
                None => OverlayCommand::Cancel,
            },
        }
    }

    /// What ending a drawing drag leaves: a text drag opens an empty text box
    /// (`text_box_from_drag_spec`) in the selection; any other drag adds the
    /// shape that `to_shape_spec` gives on top and selects it, or changes
    /// nothing when the drag was too small.
    pub open spec fn drafting_finished(&self, after: &Self) -> bool {
        &&& after.draft is None
        &&& match self.draft {
            None => after.shapes@ == self.shapes@ && after.text_input == self.text_input,
            Some(d) => if d.tool == crate::overlay::types::AnnotationTool::Text {
                after.shapes@ == self.shapes@ && match self.selection {
                    Some(sel) => match crate::overlay::shapes::text_box_from_drag_spec(d.start, d.current, sel) {
                        Some(b) => after.text_input matches Some(t) && t.box_rect == b && t.text@.len() == 0
                            && t.editing_shape is None,
                        None => after.text_input == self.text_input,
                    },
                    None => after.text_input == self.text_input,
                }
            } else {
                after.text_input == self.text_input && match d.to_shape_spec() {
                    Some(shape) => after.shapes@ == self.shapes@.push(shape)
                        && after.selected_shape == Some(self.shapes@.len() as usize)
                        && after.composed_dirty,
                    None => after.shapes@ == self.shapes@ && after.selected_shape == self.selected_shape,
                }
            },
        }
    }

    /// Ends a drawing drag: a text drag opens a text box in the selection, any
    /// other drag adds its shape (when big enough) on top and selects it.
    fn finish_drafting(&mut self)
        requires
            old(self).wf(),
            old(self).active_drag matches Some(ActiveDrag::Drafting),
            old(self).drag_ok(),
        ensures
            final(self).wf(),
            final(self).draft is None,
            final(self).same_selection_state(&old(self)),
            final(self).same_tool_state(&old(self)),
            final(self).same_ocr_state(&old(self)),
            final(self).active_drag == old(self).active_drag,
            old(self).drafting_finished(&*final(self)),
    {
        let draft = match self.draft.take() {
            Some(d) => d,
            None => return,
        };
        if draft.tool == crate::overlay::types::AnnotationTool::Text {
            if let Some(selection) = self.selection {
                if let Some(box_rect) = crate::overlay::shapes::text_box_from_drag(draft.start, draft.current, selection) {
                    let style = self.current_style();
                    self.text_input = Some(TextDraft {
                        box_rect,
                        text: String::new(),
                        style,
                        bold: self.text_bold,
                        italic: self.text_italic,
                        background: self.text_background,
                        font_family: self.text_font_family,
                        editing_shape: None,
                    });
                }
            }
        } else {
            match draft.to_shape() {
                Some(shape) => {
                    let new_index = self.shapes.len();
                    let ghost before = self.shapes@;
                    self.shapes.push(shape);
                    self.selected_shape = Some(new_index);
                    self.composed_dirty = true;
                    proof {
                        assert forall|k: int| 0 <= k < self.shapes@.len() implies (#[trigger] self.shapes@[k]).wf() by {
                            if k < new_index {
                                assert(self.shapes@[k] == before[k]);
                            }
                        }
                    }
                },
                None => {},
            }
        }
    }

    /// Ends the drag in progress at `point`. A selecting drag starts
    /// annotating (or cancels the overlay when it selected nothing); a drawing
    /// drag adds its shape or opens a text box; moves and resizes just end.
    pub fn handle_mouse_up(&mut self, point: CursorPoint) -> (r: OverlayCommand)
        requires
            old(self).wf(),
            old(self).drag_ok(),
            old(self).on_overlay(point),
        ensures
            final(self).wf(),
            final(self).active_drag is None,
            r == OverlayCommand::Nothing || r == OverlayCommand::Cancel,
            match old(self).active_drag {
                Some(ActiveDrag::Selecting { start, .. }) => match released_selection(start, point, old(self).hover_selection) {
                    Some(sel) => r == OverlayCommand::Nothing && final(self).mode == OverlayMode::Annotating
                        && final(self).selection == Some(sel),
                    None => r == OverlayCommand::Cancel,
                },
                Some(ActiveDrag::Drafting) => r == OverlayCommand::Nothing && old(self).drafting_finished(&*final(self))
                    && final(self).selection == old(self).selection,
                _ => r == OverlayCommand::Nothing && final(self).shapes@ == old(self).shapes@
                    && final(self).selection == old(self).selection,
            },
    {
        let drag = match self.active_drag.take() {
            Some(d) => d,
            None => return OverlayCommand::Nothing,
        };
        match drag {
            ActiveDrag::Selecting { start, .. } => self.finish_selecting(start, point),
            ActiveDrag::Drafting => {
                self.active_drag = Some(ActiveDrag::Drafting);
                self.finish_drafting();
                self.active_drag = None;
                OverlayCommand::Nothing
            },
            _ => OverlayCommand::Nothing,
        }
    }
}

/// The highest badge number among the shapes, or zero.
pub open spec fn max_badge(shapes: Seq<AnnotationShape>) -> int
    decreases shapes.len(),
{
    if shapes.len() == 0 {
        0
    } else {
        let rest = max_badge(shapes.drop_last());
        match shapes.last() {
            AnnotationShape::Number { value, .. } => spec_max(rest, value as int),
            _ => rest,
        }
    }
}

proof fn lemma_max_badge_bound(shapes: Seq<AnnotationShape>)
    ensures
        0 <= max_badge(shapes) <= u32::MAX,
    decreases shapes.len(),
{
    if shapes.len() > 0 {
        lemma_max_badge_bound(shapes.drop_last());
    }
}

/// A tool button's tool.
pub open spec fn tool_of_action(action: ToolbarAction) -> Option<AnnotationTool> {
    match action {
        ToolbarAction::MouseTool => Some(AnnotationTool::Mouse),
        ToolbarAction::SelectTool => Some(AnnotationTool::Select),
        ToolbarAction::RectangleTool => Some(AnnotationTool::Rectangle),
        ToolbarAction::EllipseTool => Some(AnnotationTool::Ellipse),
        ToolbarAction::LineTool => Some(AnnotationTool::Line),
        ToolbarAction::ArrowTool => Some(AnnotationTool::Arrow),
        ToolbarAction::MosaicTool => Some(AnnotationTool::Mosaic),
        ToolbarAction::TextTool => Some(AnnotationTool::Text),
        ToolbarAction::NumberTool => Some(AnnotationTool::Number),
        _ => None,
    }
}

impl OverlayState {
    /// The next badge number: one past the highest on the canvas (saturating).
    pub fn renumber_next_value(&mut self)
        requires
            old(self).wf(),
        ensures
            final(self).next_number == (if max_badge(old(self).shapes@) == u32::MAX { u32::MAX as int } else { max_badge(old(self).shapes@) + 1 }),
            final(self).same_selection_state(&old(self)),
            final(self).same_tool_state(&old(self)),
            final(self).same_ocr_state(&old(self)),
            final(self).shapes@ == old(self).shapes@,
            final(self).draft == old(self).draft,
            final(self).text_input == old(self).text_input,
            final(self).selected_shape == old(self).selected_shape,
            final(self).active_drag == old(self).active_drag,
            final(self).composed_dirty == old(self).composed_dirty,
            final(self).wf(),
    {
        let mut best: u32 = 0;
        let mut i: usize = 0;
        while i < self.shapes.len()
            invariant
                i <= self.shapes@.len(),
                best == max_badge(self.shapes@.take(i as int)),
            decreases self.shapes@.len() - i,
        {
            assert(self.shapes@.take(i + 1).drop_last() =~= self.shapes@.take(i as int));
            if let AnnotationShape::Number { value, .. } = &self.shapes[i] {
                if *value > best {
                    best = *value;
                }
            }
            i = i + 1;
        }
        assert(self.shapes@.take(self.shapes@.len() as int) =~= self.shapes@);
        self.next_number = if best == u32::MAX { u32::MAX } else { best + 1 };
    }

    /// Switches to `tool` after committing any text being typed.
    fn switch_tool(&mut self, tool: AnnotationTool)
        requires
            old(self).wf(),
        ensures
            final(self).active_drag == old(self).active_drag,
            final(self).open_text_dropdown == old(self).open_text_dropdown,
            final(self).wf(),
            final(self).tool == tool,
            final(self).text_input is None,
            final(self).shapes@ == shapes_after_commit(&old(self)),
            final(self).same_selection_state(&old(self)),
            final(self).same_ocr_state(&old(self)),
    {
        self.commit_text_input();
        self.tool = tool;
    }

    /// Picks colour `index` (the last one for larger indexes), also for the draft.
    fn choose_color(&mut self, index: usize)
        requires
            old(self).wf(),
        ensures
            final(self).active_drag == old(self).active_drag,
            final(self).open_text_dropdown == old(self).open_text_dropdown,
            final(self).wf(),
            final(self).color_index == (if index < 4 { index } else { 4 }),
            final(self).text_input == (match old(self).text_input {
                Some(d) => Some(TextDraft { style: ShapeStyle { color: COLOR_PRESETS@[final(self).color_index as int], ..d.style }, ..d }),
                None => None::<TextDraft>,
            }),
            final(self).same_selection_state(&old(self)),
            final(self).same_ocr_state(&old(self)),
            final(self).shapes@ == old(self).shapes@,
    {
        self.color_index = if index < 4 { index } else { 4 };
        let color = COLOR_PRESETS[self.color_index];
        match &mut self.text_input {
            Some(d) => {
                d.style.color = color;
            },
            None => {},
        }
    }

    /// Undoes the last step: a re-edited text shape goes back; otherwise the
    /// topmost shape is removed (renumbering badges) and nothing stays selected.
    fn undo(&mut self)
        requires
            old(self).wf(),
        ensures
            final(self).active_drag == old(self).active_drag,
            final(self).open_text_dropdown == old(self).open_text_dropdown,
            final(self).shapes@ == shapes_after_undo(&old(self)),
            final(self).wf(),
            final(self).text_input is None,
            final(self).same_selection_state(&old(self)),
            final(self).same_ocr_state(&old(self)),
            (old(self).text_input matches Some(d) && d.editing_shape is Some) ==> final(self).shapes@.len() == old(self).shapes@.len() + 1,
            !(old(self).text_input matches Some(d) && d.editing_shape is Some) ==> {
                &&& final(self).shapes@ == (if old(self).shapes@.len() > 0 { old(self).shapes@.drop_last() } else { old(self).shapes@ })
                &&& final(self).selected_shape is None
            },
    {
        let restored = if self.text_input.is_some() { self.cancel_text_input() } else { false };
        if !restored {
            let ghost before = self.shapes@;
            if self.shapes.len() > 0 {
                let _ = self.shapes.pop();
                self.composed_dirty = true;
                proof {
                    assert(self.shapes@ =~= before.drop_last());
                    assert forall|k: int| 0 <= k < self.shapes@.len() implies (#[trigger] self.shapes@[k]).wf() by {
                        assert(self.shapes@[k] == before[k]);
                    }
                }
                self.renumber_next_value();
            }
            self.selected_shape = None;
        }
    }

    /// The text to copy with "copy all": the translation when there is one,
    /// else the recognised text; `None` when both are blank. The flag tells
    /// whether it is the translation.
    pub fn full_text_for_copy(&self) -> (r: Option<(bool, &String)>)
        ensures
            match r {
                Some((translated, text)) => !is_blank_spec(text@) && translated == !is_blank_spec(self.translated_full_text@)
                    && text@ == if translated { self.translated_full_text@ } else { self.ocr_full_text@ },
                None => is_blank_spec(self.translated_full_text@) && is_blank_spec(self.ocr_full_text@),
            },
    {
        let translated = !is_blank(self.translated_full_text.as_str());
        let text = if translated { &self.translated_full_text } else { &self.ocr_full_text };
        if is_blank(text.as_str()) {
            None
        } else {
            Some((translated, text))
        }
    }

    /// Records how copying the full text went.
    pub fn report_full_text_copy(&mut self, translated: bool, result: Result<(), String>)
        ensures
            final(self).ocr_status matches Some(m) && m@ == match result {
                Err(e) => "复制文本失败: "@ + e@,
                Ok(_) => if translated { "已复制全部翻译文本"@ } else { "已复制全部 OCR 文本"@ },
            },
            final(self).shapes@ == old(self).shapes@,
            final(self).same_selection_state(&old(self)),
            final(self).same_tool_state(&old(self)),
    {
        let message = match result {
            Err(e) => crate::text::concat("复制文本失败: ", e.as_str()),
            Ok(_) => if translated { String::from_str("已复制全部翻译文本") } else { String::from_str("已复制全部 OCR 文本") },
        };
        self.ocr_status = Some(message);
    }

    /// Records how copying a block's text went.
    pub fn report_block_copy(&mut self, result: Result<(), String>)
        ensures
            final(self).ocr_status matches Some(m) && m@ == match result {
                Err(e) => "复制 OCR/翻译文本失败: "@ + e@,
                Ok(_) => "已复制文本块"@,
            },
            final(self).shapes@ == old(self).shapes@,
            final(self).same_selection_state(&old(self)),
            final(self).same_tool_state(&old(self)),
    {
        let message = match result {
            Err(e) => crate::text::concat("复制 OCR/翻译文本失败: ", e.as_str()),
            Ok(_) => String::from_str("已复制文本块"),
        };
        self.ocr_status = Some(message);
    }

    /// What a toolbar button does: the command it returns; a tool button
    /// commits any typed text and picks its tool; the dropdown buttons open
    /// or close their list; bold, italic and the font apply to new text, the
    /// text being typed and the selected text shape; a colour applies to new
    /// shapes and the text being typed; a size option sets the slider's size;
    /// copy-all without text says so; undo drops the last change; pin and
    /// confirm commit the typed text; cancel drops every drag and draft.
    pub open spec fn toolbar_effect(&self, action: ToolbarAction, r: OverlayCommand, after: &Self) -> bool {
        &&& r == toolbar_command(action, self.full_text_available())
        &&& tool_of_action(action) matches Some(t) ==> after.tool == t && after.text_input is None
            && after.shapes@ == shapes_after_commit(self)
        &&& action == ToolbarAction::TextFontDropdown ==> after.open_text_dropdown
            == (if self.open_text_dropdown == Some(TextDropdownKind::FontFamily) { None } else { Some(TextDropdownKind::FontFamily) })
        &&& action == ToolbarAction::TextSizeDropdown ==> after.open_text_dropdown
            == (if self.open_text_dropdown == Some(TextDropdownKind::FontSize) { None } else { Some(TextDropdownKind::FontSize) })
        &&& !(action == ToolbarAction::TextFontDropdown || action == ToolbarAction::TextSizeDropdown
            || action == ToolbarAction::Cancel) ==> after.open_text_dropdown is None
        &&& action == ToolbarAction::TextBoldToggle ==> after.text_applied(self, Some(!self.current_text_bold_spec()), None, None)
        &&& action == ToolbarAction::TextItalicToggle ==> after.text_applied(self, None, Some(!self.current_text_italic_spec()), None)
        &&& action matches ToolbarAction::TextFontOption(f) ==> after.text_applied(self, None, None, Some(f))
        &&& action matches ToolbarAction::Color(i) ==> {
            &&& after.color_index == (if i < 4 { i } else { 4 })
            &&& after.text_input == (match self.text_input {
                Some(d) => Some(TextDraft { style: ShapeStyle { color: COLOR_PRESETS@[after.color_index as int], ..d.style }, ..d }),
                None => None::<TextDraft>,
            })
            &&& after.shapes@ == self.shapes@
        }
        &&& action == ToolbarAction::OcrCopyAll && !self.full_text_available() ==> (after.ocr_status matches Some(m) && m@ == "暂无文本可复制"@)
        &&& (action == ToolbarAction::Pin || action == ToolbarAction::Confirm) ==> after.text_input is None
            && after.shapes@ == shapes_after_commit(self)
        &&& action == ToolbarAction::Cancel ==> after.shapes@ == self.shapes@
            && after.active_drag is None && after.draft is None && after.text_input is None
        &&& action == ToolbarAction::Undo ==> after.shapes@ == shapes_after_undo(self)
        &&& action matches ToolbarAction::TextSizeOption(n) ==> after.style_sizes_set(self, n)
        &&& action != ToolbarAction::Cancel ==> after.active_drag == self.active_drag
        &&& after.mode == self.mode
        &&& after.selection == self.selection
    }

    /// A bold, italic or font setting applied: to new text, to the text being
    /// typed and to the selected text shape.
    pub open spec fn text_applied(&self, old: &Self, bold: Option<bool>, italic: Option<bool>, font: Option<TextFontFamily>) -> bool {
        &&& self.text_bold == (match bold { Some(v) => v, None => old.text_bold })
        &&& self.text_italic == (match italic { Some(v) => v, None => old.text_italic })
        &&& self.text_font_family == (match font { Some(v) => v, None => old.text_font_family })
        &&& self.text_input == (match old.text_input { Some(d) => Some(draft_with(d, bold, italic, font)), None => None::<TextDraft> })
        &&& match old.selected_text_index() {
            Some(i) => self.shapes@ == old.shapes@.update(i, text_shape_with(old.shapes@[i], bold, italic, font)),
            None => self.shapes@ == old.shapes@,
        }
    }

    /// Acts on a toolbar button: tools commit any text and switch; text
    /// buttons toggle bold or italic, open or close a dropdown, or pick a font
    /// or size; a swatch picks a colour; undo undoes; OCR, translation, pin,
    /// confirm and cancel are handed to the window as commands. Any dropdown
    /// closes except on the dropdown buttons, and a selected shape the new tool
    /// cannot pick is deselected.
    pub fn handle_toolbar_action(&mut self, action: ToolbarAction) -> (r: OverlayCommand)
        requires
            old(self).wf(),
        ensures
            final(self).wf(),
            old(self).toolbar_effect(action, r, &*final(self)),
    {
        let keeps_dropdown = match action {
            ToolbarAction::TextFontDropdown | ToolbarAction::TextSizeDropdown | ToolbarAction::TextFontOption(_)
            | ToolbarAction::TextSizeOption(_) => true,
            _ => false,
        };
        if action == ToolbarAction::Cancel {
            if !keeps_dropdown {
                self.open_text_dropdown = None;
            }
            self.finish();
            return OverlayCommand::Cancel;
        }
        if !keeps_dropdown {
            self.open_text_dropdown = None;
        }
        let mut command = OverlayCommand::Nothing;
        match action {
            ToolbarAction::MouseTool => self.switch_tool(AnnotationTool::Mouse),
            ToolbarAction::SelectTool => self.switch_tool(AnnotationTool::Select),
            ToolbarAction::RectangleTool => self.switch_tool(AnnotationTool::Rectangle),
            ToolbarAction::EllipseTool => self.switch_tool(AnnotationTool::Ellipse),
            ToolbarAction::LineTool => self.switch_tool(AnnotationTool::Line),
            ToolbarAction::ArrowTool => self.switch_tool(AnnotationTool::Arrow),
            ToolbarAction::MosaicTool => self.switch_tool(AnnotationTool::Mosaic),
            ToolbarAction::TextTool => self.switch_tool(AnnotationTool::Text),
            ToolbarAction::NumberTool => self.switch_tool(AnnotationTool::Number),
            ToolbarAction::TextBoldToggle => {
                let v = !self.current_text_bold();
                self.set_text_bold(v);
            },
            ToolbarAction::TextItalicToggle => {
                let v = !self.current_text_italic();
                self.set_text_italic(v);
            },
            ToolbarAction::TextFontDropdown => {
                self.open_text_dropdown = if self.open_text_dropdown == Some(TextDropdownKind::FontFamily) {
                    None
                } else {
                    Some(TextDropdownKind::FontFamily)
                };
            },
            ToolbarAction::TextSizeDropdown => {
                self.open_text_dropdown = if self.open_text_dropdown == Some(TextDropdownKind::FontSize) {
                    None
                } else {
                    Some(TextDropdownKind::FontSize)
                };
            },
            ToolbarAction::TextFontOption(font_family) => {
                self.set_text_font_family(font_family);
                self.open_text_dropdown = None;
            },
            ToolbarAction::TextSizeOption(size) => {
                self.set_current_style_value(size);
                self.open_text_dropdown = None;
            },
            ToolbarAction::Color(index) => self.choose_color(index),
            ToolbarAction::OcrRun => {
                command = OverlayCommand::StartOcr;
            },
            ToolbarAction::TranslateRun => {
                command = OverlayCommand::StartTranslation;
            },
            ToolbarAction::OcrCopyAll => {
                if self.full_text_for_copy().is_some() {
                    command = OverlayCommand::CopyFullText;
                } else {
                    self.ocr_status = Some(String::from_str("暂无文本可复制"));
                }
            },
            ToolbarAction::StyleControl => {},
            ToolbarAction::Undo => self.undo(),
            ToolbarAction::Pin => {
                self.commit_text_input();
                command = OverlayCommand::Pin;
            },
            ToolbarAction::Confirm => {
                self.commit_text_input();
                command = OverlayCommand::Complete;
            },
            ToolbarAction::Cancel => {},
        }
        self.sync_selected_shape_with_tool();
        command
    }

    pub open spec fn full_text_available(&self) -> bool {
        !is_blank_spec(self.translated_full_text@) || !is_blank_spec(self.ocr_full_text@)
    }
}

pub const VK_BACK: u32 = 0x08;
pub const VK_RETURN: u32 = 0x0D;
pub const VK_ESCAPE: u32 = 0x1B;
pub const VK_DELETE: u32 = 0x2E;

/// The tool a letter key picks: V select, R rectangle, O ellipse, L line,
/// A arrow, M mosaic, T text, N number.
pub open spec fn tool_of_key(key: u32) -> Option<AnnotationTool> {
    if key == 0x56 {
        Some(AnnotationTool::Select)
    } else if key == 0x52 {
        Some(AnnotationTool::Rectangle)
    } else if key == 0x4F {
        Some(AnnotationTool::Ellipse)
    } else if key == 0x4C {
        Some(AnnotationTool::Line)
    } else if key == 0x41 {
        Some(AnnotationTool::Arrow)
    } else if key == 0x4D {
        Some(AnnotationTool::Mosaic)
    } else if key == 0x54 {
        Some(AnnotationTool::Text)
    } else if key == 0x4E {
        Some(AnnotationTool::Number)
    } else {
        None
    }
}

/// A tool button picks the very tool whose button shows as active while it
/// is in use, and every tool but the pointer also has a key that picks it.
pub proof fn lemma_tool_buttons_match_highlight(state: &OverlayState, action: ToolbarAction)
    ensures
        match tool_of_action(action) {
            Some(t) => {
                &&& (state.toolbar_item_selected_spec(action) <==> state.tool == t)
                &&& t != AnnotationTool::Mouse ==> (shortcut_letter(t) matches Some(c)
                    && tool_of_key(c as u32) == Some(t))
            },
            None => true,
        },
{
    match tool_of_action(action) {
        Some(t) => {
            if t != AnnotationTool::Mouse {
                lemma_tool_keys(shortcut_letter(t).unwrap() as u32, t);
            }
        },
        None => {},
    }
}

/// A tool's English name.
pub open spec fn tool_name(t: AnnotationTool) -> Seq<char> {
    match t {
        AnnotationTool::Mouse => "Mouse"@,
        AnnotationTool::Select => "Select"@,
        AnnotationTool::Rectangle => "Rectangle"@,
        AnnotationTool::Ellipse => "Ellipse"@,
        AnnotationTool::Line => "Line"@,
        AnnotationTool::Arrow => "Arrow"@,
        AnnotationTool::Mosaic => "Mosaic"@,
        AnnotationTool::Text => "Text"@,
        AnnotationTool::Number => "Number"@,
    }
}

/// The letter key that picks a tool: the initial of its name, except V for
/// the select tool and O (oval) for the ellipse; the pointer has no key.
pub open spec fn shortcut_letter(t: AnnotationTool) -> Option<char> {
    match t {
        AnnotationTool::Mouse => None,
        AnnotationTool::Select => Some('V'),
        AnnotationTool::Ellipse => Some('O'),
        _ => Some(tool_name(t)[0]),
    }
}

/// A key picks a tool exactly when it is that tool's shortcut letter (as an
/// upper-case virtual-key code); no two tools share a key.
pub proof fn lemma_tool_keys(key: u32, t: AnnotationTool)
    ensures
        tool_of_key(key) == Some(t) <==> (shortcut_letter(t) matches Some(c) && c as u32 == key),
{
    reveal_strlit("Rectangle");
    reveal_strlit("Line");
    reveal_strlit("Arrow");
    reveal_strlit("Mosaic");
    reveal_strlit("Text");
    reveal_strlit("Number");
    assert(('V' as u32) == 0x56 && ('R' as u32) == 0x52 && ('O' as u32) == 0x4F && ('L' as u32) == 0x4C);
    assert(('A' as u32) == 0x41 && ('M' as u32) == 0x4D && ('T' as u32) == 0x54 && ('N' as u32) == 0x4E);
}

fn key_tool(key: u32) -> (r: Option<AnnotationTool>)
    ensures
        r == tool_of_key(key),
        r matches Some(t) ==> (shortcut_letter(t) matches Some(c) && c as u32 == key),
        r is None ==> forall|t: AnnotationTool| !(#[trigger] shortcut_letter(t) matches Some(c) && c as u32 == key),
{
    proof {
        assert forall|t: AnnotationTool| #[trigger] shortcut_letter(t) matches Some(c) && c as u32 == key implies
            tool_of_key(key) == Some(t) by {
            lemma_tool_keys(key, t);
        }
        if tool_of_key(key) is Some {
            lemma_tool_keys(key, tool_of_key(key).unwrap());
        }
    }
    if key == 0x56 {
        Some(AnnotationTool::Select)
    } else if key == 0x52 {
        Some(AnnotationTool::Rectangle)
    } else if key == 0x4F {
        Some(AnnotationTool::Ellipse)
    } else if key == 0x4C {
        Some(AnnotationTool::Line)
    } else if key == 0x41 {
        Some(AnnotationTool::Arrow)
    } else if key == 0x4D {
        Some(AnnotationTool::Mosaic)
    } else if key == 0x54 {
        Some(AnnotationTool::Text)
    } else if key == 0x4E {
        Some(AnnotationTool::Number)
    } else {
        None
    }
}

/// `c` is a control character (Unicode general category Cc).
pub open spec fn is_control_spec(c: char) -> bool {
    (c as u32) <= 0x1F || (0x7F <= (c as u32) && (c as u32) <= 0x9F)
}

pub fn is_control_char(c: char) -> (r: bool)
    ensures
        r == is_control_spec(c),
{
    let v = c as u32;
    v <= 0x1F || (0x7F <= v && v <= 0x9F)
}

/// `s` without its last character (unchanged when empty).
fn without_last_char(s: &String) -> (r: String)
    ensures
        r@ == if s@.len() == 0 { s@ } else { s@.drop_last() },
{
    let chars = crate::text::chars_of(s.as_str());
    if chars.len() == 0 {
        return String::new();
    }
    let mut out = String::new();
    let mut i: usize = 0;
    let last = chars.len() - 1;
    while i < last
        invariant
            chars@ == s@,
            chars@.len() >= 1,
            last == chars@.len() - 1,
            i <= last,
            out@ == chars@.take(i as int),
        decreases chars@.len() - i,
    {
        crate::text::push_char(&mut out, chars[i]);
        assert(chars@.take(i + 1) =~= chars@.take(i as int).push(chars@[i as int]));
        i = i + 1;
    }
    assert(chars@.take(i as int) =~= chars@.drop_last());
    out
}

impl OverlayState {
    /// While typing, the draft's text with its last character removed.
    fn draft_backspace(&mut self)
        requires
            old(self).wf(),
        ensures
            final(self).wf(),
            final(self).text_input == (match old(self).text_input {
                Some(d) => Some(TextDraft { text: final(self).text_input.unwrap().text, ..d }),
                None => None::<TextDraft>,
            }),
            old(self).text_input matches Some(d) ==> final(self).text_input.unwrap().text@
                == if d.text@.len() == 0 { d.text@ } else { d.text@.drop_last() },
            final(self).shapes@ == old(self).shapes@,
            final(self).same_selection_state(&old(self)),
            final(self).same_tool_state(&old(self)),
            final(self).same_ocr_state(&old(self)),
    {
        match &mut self.text_input {
            Some(d) => {
                let t = without_last_char(&d.text);
                d.text = t;
            },
            None => {},
        }
    }

    /// While typing, appends `c` to the draft's text.
    fn draft_push(&mut self, c: char, style: Option<ShapeStyle>)
        requires
            old(self).wf(),
            old(self).text_input matches Some(d) ==> d.text@.len() < crate::overlay::text::TEXT_CHAR_LIMIT,
        ensures
            final(self).wf(),
            old(self).text_input matches Some(d) ==> final(self).text_input matches Some(n)
                && n.text@ == d.text@.push(c) && n.box_rect == d.box_rect && n.editing_shape == d.editing_shape
                && n.style == (match style { Some(st) => st, None => d.style }),
            old(self).text_input is None ==> final(self).text_input is None,
            final(self).shapes@ == old(self).shapes@,
            final(self).same_selection_state(&old(self)),
            final(self).same_tool_state(&old(self)),
            final(self).same_ocr_state(&old(self)),
    {
        match &mut self.text_input {
            Some(d) => {
                crate::text::push_char(&mut d.text, c);
                if let Some(st) = style {
                    d.style = st;
                }
            },
            None => {},
        }
    }

    /// Types a character into the text box being edited; line breaks,
    /// backspace, escape and other control characters are not typed. The
    /// draft takes the current style.
    pub fn handle_char_input(&mut self, c: char) -> (r: OverlayCommand)
        requires
            old(self).wf(),
            old(self).text_input matches Some(d) ==> d.text@.len() < crate::overlay::text::TEXT_CHAR_LIMIT,
        ensures
            final(self).wf(),
            r == OverlayCommand::Nothing,
            (old(self).mode == OverlayMode::Annotating && !is_control_spec(c) && old(self).text_input is Some) ==> ({
                let d = old(self).text_input.unwrap();
                final(self).text_input matches Some(n) && n.text@ == d.text@.push(c)
                    && n.style == (ShapeStyle { color: COLOR_PRESETS@[old(self).color_index as int], stroke: old(self).current_style_value_spec() })
            }),
            !(old(self).mode == OverlayMode::Annotating && !is_control_spec(c) && old(self).text_input is Some)
                ==> final(self).text_input == old(self).text_input,
            final(self).shapes@ == old(self).shapes@,
    {
        if self.mode != OverlayMode::Annotating {
            return OverlayCommand::Nothing;
        }
        if c == '\r' || c == '\n' || c == '\u{8}' || c == '\u{1b}' || is_control_char(c) {
            return OverlayCommand::Nothing;
        }
        if self.text_input.is_none() {
            return OverlayCommand::Nothing;
        }
        let style = self.current_style();
        self.draft_push(c, Some(style));
        OverlayCommand::Nothing
    }

    /// Deletes the selected shape (renumbering badges); nothing stays selected.
    fn delete_selected(&mut self)
        requires
            old(self).wf(),
        ensures
            final(self).active_drag == old(self).active_drag,
            final(self).wf(),
            final(self).selected_shape is None,
            match old(self).selected_shape {
                Some(i) => if i < old(self).shapes@.len() {
                    final(self).shapes@ == old(self).shapes@.remove(i as int)
                } else {
                    final(self).shapes@ == old(self).shapes@
                },
                None => final(self).shapes@ == old(self).shapes@,
            },
            final(self).text_input == old(self).text_input,
            final(self).same_selection_state(&old(self)),
            final(self).same_tool_state(&old(self)),
            final(self).same_ocr_state(&old(self)),
    {
        let selected = self.selected_shape;
        self.selected_shape = None;
        if let Some(index) = selected {
            if index < self.shapes.len() {
                let ghost before = self.shapes@;
                self.shapes.remove(index);
                self.composed_dirty = true;
                proof {
                    assert forall|k: int| 0 <= k < self.shapes@.len() implies (#[trigger] self.shapes@[k]).wf() by {
                        if k < index {
                            assert(self.shapes@[k] == before[k]);
                        } else {
                            assert(self.shapes@[k] == before[k + 1]);
                        }
                    }
                }
                self.renumber_next_value();
            }
        }
    }

    /// Ctrl+Z: a re-edited text shape goes back; otherwise the topmost shape
    /// is removed and nothing stays selected.
    fn undo_key(&mut self)
        requires
            old(self).wf(),
        ensures
            final(self).active_drag == old(self).active_drag,
            final(self).shapes@ == shapes_after_undo(&old(self)),
            final(self).wf(),
            final(self).text_input is None,
            (old(self).text_input matches Some(d) && d.editing_shape is Some) ==> final(self).shapes@.len() == old(self).shapes@.len() + 1,
            !(old(self).text_input matches Some(d) && d.editing_shape is Some) ==> {
                &&& final(self).shapes@ == (if old(self).shapes@.len() > 0 { old(self).shapes@.drop_last() } else { old(self).shapes@ })
                &&& final(self).selected_shape is None
            },
            final(self).same_selection_state(&old(self)),
            final(self).same_tool_state(&old(self)),
            final(self).same_ocr_state(&old(self)),
    {
        let restored = if self.text_input.is_some() { self.cancel_text_input() } else { false };
        if !restored {
            let ghost before = self.shapes@;
            if self.shapes.len() > 0 {
                let _ = self.shapes.pop();
                self.composed_dirty = true;
                proof {
                    assert(self.shapes@ =~= before.drop_last());
                    assert forall|k: int| 0 <= k < self.shapes@.len() implies (#[trigger] self.shapes@[k]).wf() by {
                        assert(self.shapes@[k] == before[k]);
                    }
                }
            }
            self.selected_shape = None;
        }
    }

    /// A key press. While typing: Escape abandons the text, Enter commits it
    /// (Shift+Enter breaks the line), Backspace and Delete erase the last
    /// character, and other keys do nothing unless Ctrl is held. Otherwise:
    /// Escape cancels, Enter completes, letters pick tools, P pins, Backspace
    /// and Delete remove the selected shape, Ctrl+Z undoes.
    /// Ends the overlay's interaction when it closes: no drag, no shape being
    /// drawn, no text being typed; everything else stays.
    pub fn finish(&mut self)
        requires
            old(self).wf(),
        ensures
            final(self).wf(),
            final(self).active_drag is None,
            final(self).draft is None,
            final(self).text_input is None,
            final(self).shapes@ == old(self).shapes@,
            final(self).same_selection_state(&old(self)),
            final(self).same_tool_state(&old(self)),
            final(self).same_ocr_state(&old(self)),
            final(self).selected_shape == old(self).selected_shape,
            final(self).next_number == old(self).next_number,
    {
        self.active_drag = None;
        self.draft = None;
        self.text_input = None;
    }

    pub fn handle_key_down(&mut self, key: u32, shift: bool, control: bool) -> (r: OverlayCommand)
        requires
            old(self).wf(),
            old(self).text_input matches Some(d) ==> d.text@.len() < crate::overlay::text::TEXT_CHAR_LIMIT,
        ensures
            final(self).wf(),
            key == VK_ESCAPE ==> match old(self).text_input {
                Some(d) => r == OverlayCommand::Nothing && final(self).text_input is None
                    && final(self).shapes@ == (match d.editing_shape {
                        Some(e) => old(self).shapes@.insert(restore_index(d, old(self).shapes@.len() as int), e.1),
                        None => old(self).shapes@,
                    }),
                None => true,
            },
            old(self).text_input is Some && key == VK_RETURN && !shift ==> r == OverlayCommand::Nothing
                && final(self).text_input is None && final(self).shapes@ == shapes_after_commit(&old(self)),
            old(self).text_input is Some && key == VK_RETURN && shift ==> r == OverlayCommand::Nothing
                && final(self).text_input.unwrap().text@ == old(self).text_input.unwrap().text@.push('\n')
                && final(self).shapes@ == old(self).shapes@,
            (key == VK_BACK || key == VK_DELETE) ==> match old(self).text_input {
                Some(d) => r == OverlayCommand::Nothing && final(self).shapes@ == old(self).shapes@
                    && (final(self).text_input matches Some(n)
                    && n.text@ == (if d.text@.len() == 0 { d.text@ } else { d.text@.drop_last() })),
                None => true,
            },
            old(self).text_input is Some && !control && key != VK_ESCAPE && key != VK_RETURN && key != VK_BACK && key != VK_DELETE
                ==> r == OverlayCommand::Nothing && final(self).text_input == old(self).text_input && final(self).shapes@ == old(self).shapes@,
            old(self).text_input is None && key == VK_ESCAPE ==> r == OverlayCommand::Cancel
                && final(self).active_drag is None && final(self).draft is None && final(self).text_input is None
                && final(self).shapes@ == old(self).shapes@,
            old(self).text_input is None && key == VK_RETURN ==> r == (if old(self).mode == OverlayMode::Annotating { OverlayCommand::Complete } else { OverlayCommand::Nothing }),
            old(self).text_input is None && tool_of_key(key) is Some ==> r == OverlayCommand::Nothing
                && (old(self).mode == OverlayMode::Annotating ==> final(self).tool == tool_of_key(key).unwrap()),
            old(self).text_input is None && key == 0x50 ==> r == (if old(self).mode == OverlayMode::Annotating { OverlayCommand::Pin } else { OverlayCommand::Nothing }),
            old(self).text_input is None && (key == VK_BACK || key == VK_DELETE) ==> r == OverlayCommand::Nothing
                && final(self).selected_shape is None
                && (old(self).selected_shape is Some && old(self).selected_shape.unwrap() < old(self).shapes@.len()
                    ==> final(self).shapes@ == old(self).shapes@.remove(old(self).selected_shape.unwrap() as int)),
            old(self).text_input is None && key == 0x5A && control ==> r == OverlayCommand::Nothing
                && final(self).shapes@ == (if old(self).shapes@.len() > 0 { old(self).shapes@.drop_last() } else { old(self).shapes@ }),
            final(self).selection == old(self).selection,
            final(self).mode == old(self).mode,
    {
        if self.text_input.is_some() {
            if key == VK_ESCAPE {
                self.cancel_text_input();
                return OverlayCommand::Nothing;
            }
            if key == VK_RETURN {
                if shift {
                    self.draft_push('\n', None);
                } else {
                    self.commit_text_input();
                }
                return OverlayCommand::Nothing;
            }
            if key == VK_BACK || key == VK_DELETE {
                self.draft_backspace();
                return OverlayCommand::Nothing;
            }
            if !control {
                return OverlayCommand::Nothing;
            }
        }
        if key == VK_ESCAPE {
            self.finish();
            return OverlayCommand::Cancel;
        }
        if key == VK_RETURN {
            return if self.mode == OverlayMode::Annotating { OverlayCommand::Complete } else { OverlayCommand::Nothing };
        }
        if let Some(tool) = key_tool(key) {
            if self.mode == OverlayMode::Annotating {
                self.commit_text_input();
                self.tool = tool;
                self.sync_selected_shape_with_tool();
            }
            return OverlayCommand::Nothing;
        }
        if key == 0x50 {
            if self.mode == OverlayMode::Annotating {
                self.commit_text_input();
                return OverlayCommand::Pin;
            }
            return OverlayCommand::Nothing;
        }
        if key == VK_BACK || key == VK_DELETE {
            self.delete_selected();
            return OverlayCommand::Nothing;
        }
        if key == 0x5A {
            if control {
                self.undo_key();
            }
            return OverlayCommand::Nothing;
        }
        OverlayCommand::Nothing
    }
}

impl OverlayState {
    /// The text a block copies: its translation when it has one, else its source text.
    pub fn block_copy_text(&self, index: usize) -> (r: Option<&String>)
        ensures
            match r {
                Some(t) => index < self.ocr_blocks@.len() && match self.ocr_blocks@[index as int].translated_text {
                    Some(tr) => t@ == tr@,
                    None => t@ == self.ocr_blocks@[index as int].source_text@,
                },
                None => index >= self.ocr_blocks@.len(),
            },
    {
        if index >= self.ocr_blocks.len() {
            return None;
        }
        let block = &self.ocr_blocks[index];
        match &block.translated_text {
            Some(t) => Some(t),
            None => Some(&block.source_text),
        }
    }

    /// Takes the hover rectangles found for the cursor: the one reported for
    /// the window under it, kept only when it holds the point, and the one
    /// from the list of windows and controls; the smaller is highlighted.
    pub fn apply_hover(&mut self, point: CursorPoint, uia: Option<NormalizedRect>, listed: Option<NormalizedRect>)
        requires
            old(self).wf(),
            uia matches Some(u) ==> selection_ok(u, old(self).width, old(self).height),
            listed matches Some(l) ==> selection_ok(l, old(self).width, old(self).height),
        ensures
            final(self).wf(),
            final(self).hover_selection == (if old(self).mode != OverlayMode::Selecting {
                None
            } else {
                crate::overlay::session::choose_hover_spec(
                    match uia { Some(u) => if u.contains_spec(point) { Some(u) } else { None }, None => None },
                    listed)
            }),
            final(self).uia_hover_selection == uia,
            final(self).shapes@ == old(self).shapes@,
            final(self).selection == old(self).selection,
            final(self).mode == old(self).mode,
    {
        self.uia_hover_selection = uia;
        if self.mode != OverlayMode::Selecting {
            self.hover_selection = None;
            return;
        }
        let uia_hit = match uia {
            Some(u) => if u.contains(point) { Some(u) } else { None },
            None => None,
        };
        self.hover_selection = crate::overlay::session::choose_hover(uia_hit, listed);
    }

    /// A press on the style slider sets the value under the point and starts
    /// adjusting it.
    fn press_style_control(&mut self, point: CursorPoint) -> (r: OverlayCommand)
        requires
            old(self).wf(),
            point.wf(),
        ensures
            final(self).wf(),
            r == OverlayCommand::Nothing || r == OverlayCommand::CaptureMouse,
            r == OverlayCommand::CaptureMouse ==> final(self).active_drag == Some(ActiveDrag::AdjustStyleControl),
            r == OverlayCommand::Nothing ==> final(self).active_drag == old(self).active_drag,
            final(self).selection == old(self).selection,
            final(self).mode == old(self).mode,
            match old(self).style_value_at_spec(point) {
                Some(v) => {
                    &&& r == OverlayCommand::CaptureMouse
                    &&& (OverlayState { active_drag: old(self).active_drag, ..*final(self) }).style_value_set(&old(self), v)
                },
                None => r == OverlayCommand::Nothing && *final(self) == *old(self),
            },
    {
        match self.style_control_value_from_point(point) {
            Some(value) => {
                self.set_current_style_value(value);
                self.active_drag = Some(ActiveDrag::AdjustStyleControl);
                OverlayCommand::CaptureMouse
            },
            None => OverlayCommand::Nothing,
        }
    }

    /// Starts the drag a press at the point makes on the canvas, after the
    /// toolbar, dropdown, text and recognised blocks have had their turn.
    fn press_canvas(&mut self, point: CursorPoint) -> (r: OverlayCommand)
        requires
            old(self).wf(),
            old(self).on_overlay(point),
            old(self).mode == OverlayMode::Annotating,
        ensures
            final(self).wf(),
            final(self).active_drag == old(self).active_drag || final(self).drag_ok(),
            r == OverlayCommand::CaptureMouse ==> final(self).drag_ok() && final(self).active_drag is Some,
            r == OverlayCommand::Nothing || r == OverlayCommand::CaptureMouse,
            final(self).selection == old(self).selection,
            final(self).mode == old(self).mode,
            final(self).tool == old(self).tool,
            final(self).text_input == old(self).text_input,
            final(self).open_text_dropdown == old(self).open_text_dropdown,
            final(self).same_ocr_state(&old(self)),
            old(self).press_canvas_spec(point, r, &*final(self)),
    {
        if self.tool == AnnotationTool::Mouse {
            self.selected_shape = None;
            return OverlayCommand::Nothing;
        }
        if let Some(handle) = self.selection_resize_handle_at(point) {
            if let Some(selection) = self.selection {
                if resize_fits_exec(handle, selection, self.bounds()) {
                    self.active_drag = Some(ActiveDrag::ResizeSelection { handle, original_rect: selection });
                    return OverlayCommand::CaptureMouse;
                }
                self.active_drag = None;
                return OverlayCommand::Nothing;
            }
            return OverlayCommand::Nothing;
        }
        if let Some(handle) = self.shape_resize_handle_at(point) {
            if let Some((shape_index, rect, style, _)) = self.selected_resizable_shape_for_editing() {
                let area = match self.selection { Some(s) => s, None => self.bounds() };
                if resize_fits_exec(handle, rect, area) && style.stroke <= crate::overlay::types::COORD_LIMIT as u32 {
                    self.active_drag = Some(ActiveDrag::ResizeShape { shape_index, handle, original_rect: rect, style });
                    return OverlayCommand::CaptureMouse;
                }
                self.active_drag = None;
            }
            return OverlayCommand::Nothing;
        }
        if let Some(shape_index) = self.shape_at(point) {
            proof {
                crate::overlay::session::lemma_topmost_hit_in_range(self, self.shapes@.len() as int, point);
            }
            self.selected_shape = Some(shape_index);
            let original = clone_shape(&self.shapes[shape_index]);
            let anchor = self.clamp_point_to_selection(point);
            let area = match self.selection { Some(s) => s, None => self.bounds() };
            let sb = original.bounds();
            if (sb.right as i64) - (sb.left as i64) <= (area.right as i64) - (area.left as i64)
                && (sb.bottom as i64) - (sb.top as i64) <= (area.bottom as i64) - (area.top as i64) {
                self.active_drag = Some(ActiveDrag::MoveShape { shape_index, anchor, original });
                return OverlayCommand::CaptureMouse;
            }
            self.active_drag = None;
            return OverlayCommand::Nothing;
        }
        self.selected_shape = None;
        if self.tool == AnnotationTool::Number && self.point_in_selection(point) {
            let center = self.clamp_point_to_selection(point);
            let style = self.current_style();
            let new_index = self.shapes.len();
            let ghost before = self.shapes@;
            self.shapes.push(AnnotationShape::Number { center, value: self.next_number, style });
            self.selected_shape = Some(new_index);
            self.next_number = if self.next_number == u32::MAX { u32::MAX } else { self.next_number + 1 };
            self.composed_dirty = true;
            proof {
                assert forall|k: int| 0 <= k < self.shapes@.len() implies (#[trigger] self.shapes@[k]).wf() by {
                    if k < new_index {
                        assert(self.shapes@[k] == before[k]);
                    }
                }
            }
            return OverlayCommand::Nothing;
        }
        if self.tool == AnnotationTool::Select && self.point_in_selection(point) {
            if let Some(selection) = self.selection {
                self.active_drag = Some(ActiveDrag::MoveSelection { anchor: point, original_rect: selection });
                return OverlayCommand::CaptureMouse;
            }
            return OverlayCommand::Nothing;
        }
        let draws = match self.tool {
            AnnotationTool::Rectangle | AnnotationTool::Ellipse | AnnotationTool::Line | AnnotationTool::Arrow
            | AnnotationTool::Mosaic | AnnotationTool::Text => true,
            _ => false,
        };
        if draws && self.point_in_selection(point) {
            assert(point.wf());
            let p = self.clamp_point_to_selection(point);
            let style = self.current_style();
            assert(style.stroke <= MAX_TEXT_SIZE);
            let d = crate::overlay::types::DraftShape { tool: self.tool, start: p, current: p, style };
            assert(crate::overlay::shapes::drag_len_sq(d) == 0) by (nonlinear_arith)
                requires d.start == d.current;
            self.draft = Some(d);
            self.active_drag = Some(ActiveDrag::Drafting);
            return OverlayCommand::CaptureMouse;
        }
        OverlayCommand::Nothing
    }

    /// A press of the left button. While selecting it starts a selecting
    /// drag. While annotating: the style slider, then the toolbar and its
    /// dropdown take the press; otherwise any dropdown closes and any text
    /// being typed is committed; with the pointer or select tool a recognised
    /// block under the point is selected and its text copied; then the press
    /// starts a resize, a move, a badge, a selection move or a new shape.
    pub fn handle_mouse_down(&mut self, point: CursorPoint) -> (r: OverlayCommand)
        requires
            old(self).wf(),
            old(self).on_overlay(point),
        ensures
            final(self).wf(),
            final(self).active_drag == old(self).active_drag || final(self).drag_ok(),
            r == OverlayCommand::CaptureMouse ==> final(self).drag_ok(),
            old(self).mode == OverlayMode::Selecting ==> r == OverlayCommand::CaptureMouse
                && final(self).active_drag == Some(ActiveDrag::Selecting { start: point, current: point }),
            final(self).mode == old(self).mode,
            final(self).selection == old(self).selection,
            old(self).mode == OverlayMode::Annotating ==> {
                let on_slider = old(self).toolbar_item_rect_spec(ToolbarAction::StyleControl) matches Some(rect)
                    && rect.contains_spec(point);
                let pointing = old(self).tool == AnnotationTool::Mouse || old(self).tool == AnnotationTool::Select;
                if on_slider {
                    match old(self).style_value_at_spec(point) {
                        Some(v) => r == OverlayCommand::CaptureMouse
                            && final(self).active_drag == Some(ActiveDrag::AdjustStyleControl)
                            && (OverlayState { active_drag: old(self).active_drag, ..*final(self) }).style_value_set(&old(self), v),
                        None => r == OverlayCommand::Nothing && *final(self) == *old(self),
                    }
                } else if old(self).toolbar_action_spec(point) is Some {
                    old(self).toolbar_effect(old(self).toolbar_action_spec(point).unwrap(), r, &*final(self))
                } else {
                    &&& final(self).open_text_dropdown is None
                    &&& final(self).text_input is None
                    &&& (pointing && old(self).ocr_block_at_spec(point) is Some) ==> r == OverlayCommand::CopyBlockText(
                        old(self).ocr_block_at_spec(point).unwrap(),
                    ) && final(self).ocr_selected_block == old(self).ocr_block_at_spec(point)
                        && final(self).shapes@ == shapes_after_commit(&old(self))
                    &&& !(pointing && old(self).ocr_block_at_spec(point) is Some) ==> exists|mid: OverlayState|
                        #[trigger] canvas_ready(&mid, &old(self)) && mid.press_canvas_spec(point, r, &*final(self))
                    &&& (old(self).text_input is None && !(pointing && old(self).ocr_block_at_spec(point) is Some))
                        ==> old(self).press_canvas_spec(point, r, &*final(self))
                }
            },
    {
        if self.mode == OverlayMode::Selecting {
            self.active_drag = Some(ActiveDrag::Selecting { start: point, current: point });
            return OverlayCommand::CaptureMouse;
        }
        let on_slider = match self.style_control_rect() {
            Some(rect) => rect.contains(point),
            None => false,
        };
        if on_slider {
            let r = self.press_style_control(point);
            return r;
        }
        if let Some(action) = self.toolbar_action_at(point) {
            let r = self.handle_toolbar_action(action);
            return r;
        }
        let ghost start = *self;
        self.open_text_dropdown = None;
        if self.text_input.is_some() {
            self.commit_text_input();
        }
        if self.tool == AnnotationTool::Mouse || self.tool == AnnotationTool::Select {
            if let Some(index) = self.ocr_block_at(point) {
                self.ocr_selected_block = Some(index);
                return OverlayCommand::CopyBlockText(index);
            }
            if self.ocr_blocks.len() > 0 {
                self.ocr_selected_block = None;
            }
        }
        let ghost mid = *self;
        proof {
            assert(canvas_ready(&mid, &start));
        }
        let r = self.press_canvas(point);
        proof {
            if start.text_input is None {
                lemma_press_canvas_spec_same(&mid, &start, point, r, &*self);
            }
        }
        r
    }

    /// A double click: toolbar buttons act as on a single press; with the text
    /// tool, any text being typed is committed and the text shape under the
    /// point opens for editing.
    pub fn handle_mouse_double_click(&mut self, point: CursorPoint) -> (r: OverlayCommand)
        requires
            old(self).wf(),
            old(self).on_overlay(point),
        ensures
            final(self).wf(),
            final(self).mode == old(self).mode,
            final(self).selection == old(self).selection,
            old(self).mode != OverlayMode::Annotating ==> r == OverlayCommand::Nothing && *final(self) == *old(self),
            old(self).mode == OverlayMode::Annotating ==> match old(self).toolbar_action_spec(point) {
                Some(action) => r == toolbar_command(action, old(self).full_text_available()),
                None => r == OverlayCommand::Nothing,
            },
            old(self).mode == OverlayMode::Annotating && old(self).toolbar_action_spec(point) is None
                && old(self).tool != AnnotationTool::Text ==> *final(self) == *old(self),
            old(self).mode == OverlayMode::Annotating && old(self).toolbar_action_spec(point) is None
                && old(self).tool == AnnotationTool::Text ==> {
                let mid = shapes_after_commit(&old(self));
                &&& old(self).text_input is None ==> match old(self).shape_at_spec(point) {
                    Some(i) => if old(self).shapes@[i as int] is Text {
                        &&& final(self).shapes@ == old(self).shapes@.remove(i as int)
                        &&& final(self).text_input matches Some(d) && d.editing_shape == Some((i, old(self).shapes@[i as int]))
                    } else {
                        final(self).shapes@ == old(self).shapes@ && final(self).text_input is None
                    },
                    None => final(self).shapes@ == old(self).shapes@ && final(self).text_input is None,
                }
                &&& final(self).text_input is None ==> final(self).shapes@ == mid
                &&& final(self).text_input matches Some(d) ==> (d.editing_shape matches Some((i, s))
                    && i < mid.len() && mid[i as int] == s && s is Text && final(self).shapes@ == mid.remove(i as int))
            },
    {
        if self.mode != OverlayMode::Annotating {
            return OverlayCommand::Nothing;
        }
        if let Some(action) = self.toolbar_action_at(point) {
            return self.handle_toolbar_action(action);
        }
        if self.tool != AnnotationTool::Text {
            return OverlayCommand::Nothing;
        }
        let ghost start = *self;
        if self.text_input.is_some() {
            self.commit_text_input();
        }
        let ghost committed = *self;
        proof {
            assert(committed.shapes@ == shapes_after_commit(&start));
        }
        if let Some(shape_index) = self.shape_at(point) {
            proof {
                crate::overlay::session::lemma_topmost_hit_in_range(&committed, committed.shapes@.len() as int, point);
            }
            self.begin_text_edit(shape_index);
        }
        OverlayCommand::Nothing
    }
}

} // verus!
