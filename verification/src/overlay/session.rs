use crate::config::types::{AnnotationDefaults, OcrProfile, TextFontFamily, TranslationProfile};
use crate::geometry::{spec_clamp, spec_min, SelectionRect};
use crate::overlay::geometry::clamp_i32;
use crate::overlay::shapes::text_box_from_drag;
use crate::overlay::text::{clamp_text_box_spec, clamp_text_box_to_bounds_styled, TEXT_CHAR_LIMIT};
use crate::overlay::toolbar::{first_hit, item_at, item_rect_for, text_dropdown_layout_at, toolbar_item_rect, toolbar_layout_for};
use crate::overlay::types::{
    ActiveDrag, AnnotationShape, AnnotationTool, CanvasHoverAction, CursorKind, CursorPoint,
    DraftShape, IntRect, NormalizedRect, OverlayMode, ResizableShapeKind, ResizeHandle,
    ShapeStyle, StyleControlTarget, TextDraft, TextDropdownKind, ToolbarAction, ToolbarItem,
    ToolbarLayout, COLOR_PRESETS, COORD_LIMIT, MAX_MOSAIC_SIZE, MAX_NUMBER_SIZE,
    MAX_STROKE_WIDTH, MAX_TEXT_SIZE, MIN_MOSAIC_SIZE, MIN_NUMBER_SIZE, MIN_SELECTION_SPAN,
    MIN_STROKE_WIDTH, MIN_TEXT_SIZE, TOOLBAR_STYLE_TRACK_HEIGHT,
};
use vstd::prelude::*;

verus! {

/// A recognised (and possibly translated) block of text on the overlay.
#[derive(Debug, Clone)]
pub struct OcrOverlayBlock {
    pub source_text: String,
    pub translated_text: Option<String>,
    pub rect: NormalizedRect,
}

/// The capture overlay's state: what is selected, which tool is active, the
/// annotations drawn so far and the drag in progress.
pub struct OverlayState {
    /// The overlay's size in pixels.
    pub width: u32,
    pub height: u32,
    pub mode: OverlayMode,
    pub selection: Option<NormalizedRect>,
    pub hover_selection: Option<NormalizedRect>,
    pub uia_hover_selection: Option<NormalizedRect>,
    pub tool: AnnotationTool,
    pub color_index: usize,
    pub stroke_width: u32,
    pub text_size: u32,
    pub number_size: u32,
    pub mosaic_size: u32,
    pub text_bold: bool,
    pub text_italic: bool,
    pub text_background: bool,
    pub text_font_family: TextFontFamily,
    pub open_text_dropdown: Option<TextDropdownKind>,
    pub ocr_profile_index: usize,
    pub translation_profile_index: usize,
    pub ocr_blocks: Vec<OcrOverlayBlock>,
    pub ocr_full_text: String,
    pub translated_full_text: String,
    /// A translated image of the selection is shown.
    pub has_translated_image: bool,
    pub ocr_selected_block: Option<usize>,
    pub ocr_running: bool,
    pub translation_running: bool,
    pub ocr_status: Option<String>,
    pub shapes: Vec<AnnotationShape>,
    pub draft: Option<DraftShape>,
    pub text_input: Option<TextDraft>,
    pub selected_shape: Option<usize>,
    pub active_drag: Option<ActiveDrag>,
    pub last_cursor: CursorPoint,
    pub next_number: u32,
    /// The annotations changed since the frame was last composed.
    pub composed_dirty: bool,
}

/// A selection rectangle on an overlay of the given size: non-empty and on it.
pub open spec fn selection_ok(r: NormalizedRect, width: u32, height: u32) -> bool {
    0 <= r.left < r.right <= width && 0 <= r.top < r.bottom <= height
}

pub open spec fn text_draft_ok(d: TextDraft) -> bool {
    &&& d.box_rect.text_ok()
    &&& d.text@.len() <= TEXT_CHAR_LIMIT
    &&& d.editing_shape matches Some(e) ==> e.1.wf()
}

impl OverlayState {
    pub open spec fn wf(&self) -> bool {
        &&& 1 <= self.width <= COORD_LIMIT
        &&& 1 <= self.height <= COORD_LIMIT
        &&& self.selection matches Some(s) ==> selection_ok(s, self.width, self.height)
        &&& self.hover_selection matches Some(s) ==> selection_ok(s, self.width, self.height)
        &&& self.color_index < 5
        &&& MIN_STROKE_WIDTH <= self.stroke_width <= MAX_STROKE_WIDTH
        &&& MIN_TEXT_SIZE <= self.text_size <= MAX_TEXT_SIZE
        &&& MIN_NUMBER_SIZE <= self.number_size <= MAX_NUMBER_SIZE
        &&& MIN_MOSAIC_SIZE <= self.mosaic_size <= MAX_MOSAIC_SIZE
        &&& forall|k: int| 0 <= k < self.shapes@.len() ==> (#[trigger] self.shapes@[k]).wf()
        &&& self.text_input matches Some(d) ==> text_draft_ok(d)
        &&& self.last_cursor.wf()
        &&& forall|k: int| 0 <= k < self.ocr_blocks@.len() ==> (#[trigger] self.ocr_blocks@[k]).rect.wf()
    }

    pub open spec fn text_toolbar_visible_spec(&self) -> bool {
        self.tool == AnnotationTool::Text || self.text_input is Some
    }

    /// The text row shows while the text tool is chosen or text is being typed.
    pub fn text_toolbar_visible(&self) -> (r: bool)
        ensures
            r == self.text_toolbar_visible_spec(),
    {
        self.tool == AnnotationTool::Text || self.text_input.is_some()
    }

    /// The shape at `index`, if there is one.
    pub open spec fn shape_at_index(&self, index: Option<usize>) -> Option<AnnotationShape> {
        match index {
            Some(i) => if i < self.shapes@.len() { Some(self.shapes@[i as int]) } else { None },
            None => None,
        }
    }

    /// Which size the slider adjusts: the text size while typing or with the
    /// text tool, the badge or mosaic size with those tools, the selected
    /// shape's size with the select tool, else the stroke width.
    pub open spec fn style_control_target_spec(&self) -> StyleControlTarget {
        if self.text_input is Some || self.tool == AnnotationTool::Text {
            StyleControlTarget::Text
        } else if self.tool == AnnotationTool::Number {
            StyleControlTarget::Badge
        } else if self.tool == AnnotationTool::Mosaic {
            StyleControlTarget::Mosaic
        } else if self.tool == AnnotationTool::Select && self.shape_at_index(self.selected_shape) is Some {
            shape_style_target_spec(self.shape_at_index(self.selected_shape).unwrap())
        } else {
            StyleControlTarget::Stroke
        }
    }

    pub fn style_control_target(&self) -> (r: StyleControlTarget)
        ensures
            r == self.style_control_target_spec(),
    {
        if self.text_input.is_some() || self.tool == AnnotationTool::Text {
            return StyleControlTarget::Text;
        }
        if self.tool == AnnotationTool::Number {
            return StyleControlTarget::Badge;
        }
        if self.tool == AnnotationTool::Mosaic {
            return StyleControlTarget::Mosaic;
        }
        if self.tool == AnnotationTool::Select {
            if let Some(index) = self.selected_shape {
                if index < self.shapes.len() {
                    return shape_style_target(&self.shapes[index]);
                }
            }
        }
        StyleControlTarget::Stroke
    }

    pub open spec fn current_style_value_spec(&self) -> u32 {
        match self.style_control_target_spec() {
            StyleControlTarget::Stroke => self.stroke_width,
            StyleControlTarget::Mosaic => self.mosaic_size,
            StyleControlTarget::Text => self.text_size,
            StyleControlTarget::Badge => self.number_size,
        }
    }

    /// The size the slider shows.
    pub fn current_style_value(&self) -> (r: u32)
        ensures
            r == self.current_style_value_spec(),
    {
        match self.style_control_target() {
            StyleControlTarget::Stroke => self.stroke_width,
            StyleControlTarget::Mosaic => self.mosaic_size,
            StyleControlTarget::Text => self.text_size,
            StyleControlTarget::Badge => self.number_size,
        }
    }

    /// The slider's range.
    pub fn style_value_range(&self) -> (r: (u32, u32))
        ensures
            r == style_range_spec(self.style_control_target_spec()),
    {
        style_range(self.style_control_target())
    }

    /// The style new shapes are drawn with: the chosen colour and the slider's size.
    pub fn current_style(&self) -> (r: ShapeStyle)
        requires
            self.color_index < 5,
        ensures
            r == (ShapeStyle { color: COLOR_PRESETS@[self.color_index as int], stroke: self.current_style_value_spec() }),
    {
        ShapeStyle { color: COLOR_PRESETS[self.color_index], stroke: self.current_style_value() }
    }

    /// A text setting as shown: the draft's while typing, else the selected text
    /// shape's, else the default for new text.
    pub open spec fn current_text_bold_spec(&self) -> bool {
        match self.text_input {
            Some(d) => d.bold,
            None => match self.shape_at_index(self.selected_shape) {
                Some(AnnotationShape::Text { bold, .. }) => bold,
                _ => self.text_bold,
            },
        }
    }

    pub fn current_text_bold(&self) -> (r: bool)
        ensures
            r == self.current_text_bold_spec(),
    {
        if let Some(draft) = &self.text_input {
            return draft.bold;
        }
        if let Some(index) = self.selected_shape {
            if index < self.shapes.len() {
                if let AnnotationShape::Text { bold, .. } = &self.shapes[index] {
                    return *bold;
                }
            }
        }
        self.text_bold
    }

    pub open spec fn current_text_italic_spec(&self) -> bool {
        match self.text_input {
            Some(d) => d.italic,
            None => match self.shape_at_index(self.selected_shape) {
                Some(AnnotationShape::Text { italic, .. }) => italic,
                _ => self.text_italic,
            },
        }
    }

    pub fn current_text_italic(&self) -> (r: bool)
        ensures
            r == self.current_text_italic_spec(),
    {
        if let Some(draft) = &self.text_input {
            return draft.italic;
        }
        if let Some(index) = self.selected_shape {
            if index < self.shapes.len() {
                if let AnnotationShape::Text { italic, .. } = &self.shapes[index] {
                    return *italic;
                }
            }
        }
        self.text_italic
    }

    pub open spec fn current_text_font_family_spec(&self) -> TextFontFamily {
        match self.text_input {
            Some(d) => d.font_family,
            None => match self.shape_at_index(self.selected_shape) {
                Some(AnnotationShape::Text { font_family, .. }) => font_family,
                _ => self.text_font_family,
            },
        }
    }

    pub fn current_text_font_family(&self) -> (r: TextFontFamily)
        ensures
            r == self.current_text_font_family_spec(),
    {
        if let Some(draft) = &self.text_input {
            return draft.font_family;
        }
        if let Some(index) = self.selected_shape {
            if index < self.shapes.len() {
                if let AnnotationShape::Text { font_family, .. } = &self.shapes[index] {
                    return *font_family;
                }
            }
        }
        self.text_font_family
    }

    pub open spec fn current_text_size_spec(&self) -> int {
        match self.text_input {
            Some(d) => spec_clamp(d.style.stroke as int, MIN_TEXT_SIZE as int, MAX_TEXT_SIZE as int),
            None => match self.shape_at_index(self.selected_shape) {
                Some(AnnotationShape::Text { style, .. }) => spec_clamp(style.stroke as int, MIN_TEXT_SIZE as int, MAX_TEXT_SIZE as int),
                _ => spec_clamp(self.text_size as int, MIN_TEXT_SIZE as int, MAX_TEXT_SIZE as int),
            },
        }
    }

    pub fn current_text_size(&self) -> (r: u32)
        ensures
            r == self.current_text_size_spec(),
    {
        if let Some(draft) = &self.text_input {
            return clamp_u32(draft.style.stroke, MIN_TEXT_SIZE, MAX_TEXT_SIZE);
        }
        if let Some(index) = self.selected_shape {
            if index < self.shapes.len() {
                if let AnnotationShape::Text { style, .. } = &self.shapes[index] {
                    return clamp_u32(style.stroke, MIN_TEXT_SIZE, MAX_TEXT_SIZE);
                }
            }
        }
        clamp_u32(self.text_size, MIN_TEXT_SIZE, MAX_TEXT_SIZE)
    }

    /// Whether a toolbar button shows as active: the tool in use, the text
    /// styles in effect, the open dropdown, the chosen colour, or a request
    /// under way. The other buttons never do.
    pub open spec fn toolbar_item_selected_spec(&self, action: ToolbarAction) -> bool {
        match action {
            ToolbarAction::MouseTool => self.tool == AnnotationTool::Mouse,
            ToolbarAction::SelectTool => self.tool == AnnotationTool::Select,
            ToolbarAction::RectangleTool => self.tool == AnnotationTool::Rectangle,
            ToolbarAction::EllipseTool => self.tool == AnnotationTool::Ellipse,
            ToolbarAction::LineTool => self.tool == AnnotationTool::Line,
            ToolbarAction::ArrowTool => self.tool == AnnotationTool::Arrow,
            ToolbarAction::MosaicTool => self.tool == AnnotationTool::Mosaic,
            ToolbarAction::TextTool => self.tool == AnnotationTool::Text,
            ToolbarAction::NumberTool => self.tool == AnnotationTool::Number,
            ToolbarAction::TextBoldToggle => self.current_text_bold_spec(),
            ToolbarAction::TextItalicToggle => self.current_text_italic_spec(),
            ToolbarAction::TextFontDropdown => self.open_text_dropdown == Some(TextDropdownKind::FontFamily),
            ToolbarAction::TextSizeDropdown => self.open_text_dropdown == Some(TextDropdownKind::FontSize),
            ToolbarAction::TextFontOption(family) => self.current_text_font_family_spec() == family,
            ToolbarAction::TextSizeOption(size) => self.current_text_size_spec() == size,
            ToolbarAction::Color(index) => self.color_index == index,
            ToolbarAction::OcrRun => self.ocr_running,
            ToolbarAction::TranslateRun => self.translation_running,
            _ => false,
        }
    }

    pub fn toolbar_item_selected(&self, action: ToolbarAction) -> (r: bool)
        ensures
            r == self.toolbar_item_selected_spec(action),
    {
        match action {
            ToolbarAction::MouseTool => self.tool == AnnotationTool::Mouse,
            ToolbarAction::SelectTool => self.tool == AnnotationTool::Select,
            ToolbarAction::RectangleTool => self.tool == AnnotationTool::Rectangle,
            ToolbarAction::EllipseTool => self.tool == AnnotationTool::Ellipse,
            ToolbarAction::LineTool => self.tool == AnnotationTool::Line,
            ToolbarAction::ArrowTool => self.tool == AnnotationTool::Arrow,
            ToolbarAction::MosaicTool => self.tool == AnnotationTool::Mosaic,
            ToolbarAction::TextTool => self.tool == AnnotationTool::Text,
            ToolbarAction::NumberTool => self.tool == AnnotationTool::Number,
            ToolbarAction::TextBoldToggle => self.current_text_bold(),
            ToolbarAction::TextItalicToggle => self.current_text_italic(),
            ToolbarAction::TextFontDropdown => self.open_text_dropdown == Some(TextDropdownKind::FontFamily),
            ToolbarAction::TextSizeDropdown => self.open_text_dropdown == Some(TextDropdownKind::FontSize),
            ToolbarAction::TextFontOption(family) => self.current_text_font_family() == family,
            ToolbarAction::TextSizeOption(size) => self.current_text_size() == size,
            ToolbarAction::Color(index) => self.color_index == index,
            ToolbarAction::OcrRun => self.ocr_running,
            ToolbarAction::TranslateRun => self.translation_running,
            _ => false,
        }
    }

    /// Whether the active tool can pick `shape`: the select tool picks any
    /// shape, each drawing tool its own kind, the pointer none.
    pub open spec fn can_interact_spec(&self, shape: AnnotationShape) -> bool {
        match self.tool {
            AnnotationTool::Mouse => false,
            AnnotationTool::Select => true,
            AnnotationTool::Rectangle => shape is Rectangle,
            AnnotationTool::Ellipse => shape is Ellipse,
            AnnotationTool::Line => shape is Line,
            AnnotationTool::Arrow => shape is Arrow,
            AnnotationTool::Mosaic => shape is Mosaic,
            AnnotationTool::Text => shape is Text,
            AnnotationTool::Number => shape is Number,
        }
    }

    pub fn tool_can_interact_with_shape(&self, shape: &AnnotationShape) -> (r: bool)
        ensures
            r == self.can_interact_spec(*shape),
    {
        match self.tool {
            AnnotationTool::Mouse => false,
            AnnotationTool::Select => true,
            AnnotationTool::Rectangle => matches!(shape, AnnotationShape::Rectangle { .. }),
            AnnotationTool::Ellipse => matches!(shape, AnnotationShape::Ellipse { .. }),
            AnnotationTool::Line => matches!(shape, AnnotationShape::Line { .. }),
            AnnotationTool::Arrow => matches!(shape, AnnotationShape::Arrow { .. }),
            AnnotationTool::Mosaic => matches!(shape, AnnotationShape::Mosaic { .. }),
            AnnotationTool::Text => matches!(shape, AnnotationShape::Text { .. }),
            AnnotationTool::Number => matches!(shape, AnnotationShape::Number { .. }),
        }
    }
}

/// The slider target for a shape: its own kind of size.
pub open spec fn shape_style_target_spec(shape: AnnotationShape) -> StyleControlTarget {
    match shape {
        AnnotationShape::Mosaic { .. } => StyleControlTarget::Mosaic,
        AnnotationShape::Text { .. } => StyleControlTarget::Text,
        AnnotationShape::Number { .. } => StyleControlTarget::Badge,
        _ => StyleControlTarget::Stroke,
    }
}

pub fn shape_style_target(shape: &AnnotationShape) -> (r: StyleControlTarget)
    ensures
        r == shape_style_target_spec(*shape),
{
    match shape {
        AnnotationShape::Mosaic { .. } => StyleControlTarget::Mosaic,
        AnnotationShape::Text { .. } => StyleControlTarget::Text,
        AnnotationShape::Number { .. } => StyleControlTarget::Badge,
        _ => StyleControlTarget::Stroke,
    }
}

pub open spec fn style_range_spec(target: StyleControlTarget) -> (u32, u32) {
    match target {
        StyleControlTarget::Stroke => (MIN_STROKE_WIDTH, MAX_STROKE_WIDTH),
        StyleControlTarget::Mosaic => (MIN_MOSAIC_SIZE, MAX_MOSAIC_SIZE),
        StyleControlTarget::Text => (MIN_TEXT_SIZE, MAX_TEXT_SIZE),
        StyleControlTarget::Badge => (MIN_NUMBER_SIZE, MAX_NUMBER_SIZE),
    }
}

/// The range of sizes the slider offers for a target.
pub fn style_range(target: StyleControlTarget) -> (r: (u32, u32))
    ensures
        r == style_range_spec(target),
{
    match target {
        StyleControlTarget::Stroke => (MIN_STROKE_WIDTH, MAX_STROKE_WIDTH),
        StyleControlTarget::Mosaic => (MIN_MOSAIC_SIZE, MAX_MOSAIC_SIZE),
        StyleControlTarget::Text => (MIN_TEXT_SIZE, MAX_TEXT_SIZE),
        StyleControlTarget::Badge => (MIN_NUMBER_SIZE, MAX_NUMBER_SIZE),
    }
}

pub fn clamp_u32(value: u32, lo: u32, hi: u32) -> (r: u32)
    requires
        lo <= hi,
    ensures
        r == spec_clamp(value as int, lo as int, hi as int),
{
    if value < lo {
        lo
    } else if value > hi {
        hi
    } else {
        value
    }
}

/// An exact copy of a shape.
pub fn clone_shape(shape: &AnnotationShape) -> (r: AnnotationShape)
    ensures
        r == *shape,
{
    match shape {
        AnnotationShape::Rectangle { start, end, style } => AnnotationShape::Rectangle { start: *start, end: *end, style: *style },
        AnnotationShape::Ellipse { start, end, style } => AnnotationShape::Ellipse { start: *start, end: *end, style: *style },
        AnnotationShape::Line { start, end, style } => AnnotationShape::Line { start: *start, end: *end, style: *style },
        AnnotationShape::Arrow { start, end, style } => AnnotationShape::Arrow { start: *start, end: *end, style: *style },
        AnnotationShape::Mosaic { start, end, style } => AnnotationShape::Mosaic { start: *start, end: *end, style: *style },
        AnnotationShape::Text { box_rect, text, style, bold, italic, background, font_family } => AnnotationShape::Text {
            box_rect: *box_rect,
            text: text.clone(),
            style: *style,
            bold: *bold,
            italic: *italic,
            background: *background,
            font_family: *font_family,
        },
        AnnotationShape::Number { center, value, style } => AnnotationShape::Number { center: *center, value: *value, style: *style },
    }
}

/// A text shape with one of its settings changed; other shapes as they are.
pub open spec fn text_shape_with(shape: AnnotationShape, bold: Option<bool>, italic: Option<bool>, font: Option<TextFontFamily>) -> AnnotationShape {
    match shape {
        AnnotationShape::Text { box_rect, text, style, bold: b, italic: i, background, font_family } => AnnotationShape::Text {
            box_rect,
            text,
            style,
            bold: match bold { Some(v) => v, None => b },
            italic: match italic { Some(v) => v, None => i },
            background,
            font_family: match font { Some(v) => v, None => font_family },
        },
        _ => shape,
    }
}

pub open spec fn draft_with(d: TextDraft, bold: Option<bool>, italic: Option<bool>, font: Option<TextFontFamily>) -> TextDraft {
    TextDraft {
        bold: match bold { Some(v) => v, None => d.bold },
        italic: match italic { Some(v) => v, None => d.italic },
        font_family: match font { Some(v) => v, None => d.font_family },
        ..d
    }
}

impl OverlayState {
    /// Selection, hover and mode are as in `other`.
    pub open spec fn same_selection_state(&self, other: &Self) -> bool {
        &&& self.width == other.width
        &&& self.height == other.height
        &&& self.mode == other.mode
        &&& self.selection == other.selection
        &&& self.hover_selection == other.hover_selection
        &&& self.uia_hover_selection == other.uia_hover_selection
        &&& self.last_cursor == other.last_cursor
    }

    /// Tool and style settings are as in `other`.
    pub open spec fn same_tool_state(&self, other: &Self) -> bool {
        &&& self.tool == other.tool
        &&& self.color_index == other.color_index
        &&& self.stroke_width == other.stroke_width
        &&& self.text_size == other.text_size
        &&& self.number_size == other.number_size
        &&& self.mosaic_size == other.mosaic_size
        &&& self.text_bold == other.text_bold
        &&& self.text_italic == other.text_italic
        &&& self.text_background == other.text_background
        &&& self.text_font_family == other.text_font_family
        &&& self.open_text_dropdown == other.open_text_dropdown
    }

    /// Recognition and translation results are as in `other`.
    pub open spec fn same_ocr_state(&self, other: &Self) -> bool {
        &&& self.ocr_profile_index == other.ocr_profile_index
        &&& self.translation_profile_index == other.translation_profile_index
        &&& self.ocr_blocks@ == other.ocr_blocks@
        &&& self.ocr_full_text@ == other.ocr_full_text@
        &&& self.translated_full_text@ == other.translated_full_text@
        &&& self.has_translated_image == other.has_translated_image
        &&& self.ocr_selected_block == other.ocr_selected_block
        &&& self.ocr_running == other.ocr_running
        &&& self.translation_running == other.translation_running
        &&& self.ocr_status == other.ocr_status
    }

    /// Annotations, drafts and drags are as in `other`.
    pub open spec fn same_shape_state(&self, other: &Self) -> bool {
        &&& self.shapes@ == other.shapes@
        &&& self.draft == other.draft
        &&& self.text_input == other.text_input
        &&& self.selected_shape == other.selected_shape
        &&& self.active_drag == other.active_drag
        &&& self.next_number == other.next_number
        &&& self.composed_dirty == other.composed_dirty
    }

    /// The selected shape, when it is a text shape.
    pub open spec fn selected_text_index(&self) -> Option<int> {
        match self.selected_shape {
            Some(i) => if i < self.shapes@.len() && self.shapes@[i as int] is Text { Some(i as int) } else { None },
            None => None,
        }
    }

    /// The effect of changing a text setting: the default for new text, the
    /// draft being typed and the selected text shape all take the new value.
    pub open spec fn text_setting_changed(&self, old: &Self, bold: Option<bool>, italic: Option<bool>, font: Option<TextFontFamily>) -> bool {
        &&& self.same_selection_state(old)
        &&& self.same_ocr_state(old)
        &&& self.tool == old.tool
        &&& self.color_index == old.color_index
        &&& self.stroke_width == old.stroke_width
        &&& self.text_size == old.text_size
        &&& self.number_size == old.number_size
        &&& self.mosaic_size == old.mosaic_size
        &&& self.text_background == old.text_background
        &&& self.open_text_dropdown == old.open_text_dropdown
        &&& self.text_bold == (match bold { Some(v) => v, None => old.text_bold })
        &&& self.text_italic == (match italic { Some(v) => v, None => old.text_italic })
        &&& self.text_font_family == (match font { Some(v) => v, None => old.text_font_family })
        &&& self.text_input == (match old.text_input { Some(d) => Some(draft_with(d, bold, italic, font)), None => None::<TextDraft> })
        &&& self.draft == old.draft
        &&& self.selected_shape == old.selected_shape
        &&& self.active_drag == old.active_drag
        &&& self.next_number == old.next_number
        &&& match old.selected_text_index() {
            Some(i) => self.shapes@ == old.shapes@.update(i, text_shape_with(old.shapes@[i], bold, italic, font))
                && self.composed_dirty,
            None => self.shapes@ == old.shapes@ && self.composed_dirty == old.composed_dirty,
        }
    }

    #[verifier::rlimit(60)]
    fn apply_text_setting(&mut self, bold: Option<bool>, italic: Option<bool>, font: Option<TextFontFamily>)
        requires
            old(self).wf(),
        ensures
            final(self).text_setting_changed(&old(self), bold, italic, font),
    {
        if let Some(v) = bold {
            self.text_bold = v;
        }
        if let Some(v) = italic {
            self.text_italic = v;
        }
        if let Some(v) = font {
            self.text_font_family = v;
        }
        update_draft_settings(&mut self.text_input, bold, italic, font);
        let ghost before = self.shapes@;
        let changed = update_selected_text(&mut self.shapes, self.selected_shape, bold, italic, font);
        if changed {
            self.composed_dirty = true;
        }
    }

    /// Bold on or off for new text, the draft and the selected text shape.
    pub fn set_text_bold(&mut self, value: bool)
        requires
            old(self).wf(),
        ensures
            final(self).text_setting_changed(&old(self), Some(value), None, None),
            final(self).wf(),
    {
        self.apply_text_setting(Some(value), None, None);
        proof {
            lemma_text_setting_keeps_wf(self, &old(self), Some(value), None, None);
        }
    }

    /// Italic on or off for new text, the draft and the selected text shape.
    pub fn set_text_italic(&mut self, value: bool)
        requires
            old(self).wf(),
        ensures
            final(self).text_setting_changed(&old(self), None, Some(value), None),
            final(self).wf(),
    {
        self.apply_text_setting(None, Some(value), None);
        proof {
            lemma_text_setting_keeps_wf(self, &old(self), None, Some(value), None);
        }
    }

    /// The font for new text, the draft and the selected text shape.
    pub fn set_text_font_family(&mut self, value: TextFontFamily)
        requires
            old(self).wf(),
        ensures
            final(self).text_setting_changed(&old(self), None, None, Some(value)),
            final(self).wf(),
    {
        self.apply_text_setting(None, None, Some(value));
        proof {
            lemma_text_setting_keeps_wf(self, &old(self), None, None, Some(value));
        }
    }
}

fn update_draft_settings(d: &mut Option<TextDraft>, bold: Option<bool>, italic: Option<bool>, font: Option<TextFontFamily>)
    ensures
        *final(d) == (match *old(d) { Some(x) => Some(draft_with(x, bold, italic, font)), None => None::<TextDraft> }),
{
    match d {
        Some(draft) => {
            if let Some(v) = bold {
                draft.bold = v;
            }
            if let Some(v) = italic {
                draft.italic = v;
            }
            if let Some(v) = font {
                draft.font_family = v;
            }
        },
        None => {},
    }
}

fn update_selected_text(
    shapes: &mut Vec<AnnotationShape>,
    selected: Option<usize>,
    bold: Option<bool>,
    italic: Option<bool>,
    font: Option<TextFontFamily>,
) -> (changed: bool)
    ensures
        ({
            let idx = match selected {
                Some(i) => if i < old(shapes)@.len() && old(shapes)@[i as int] is Text { Some(i as int) } else { None },
                None => None,
            };
            match idx {
                Some(i) => changed && final(shapes)@ == old(shapes)@.update(i, text_shape_with(old(shapes)@[i], bold, italic, font)),
                None => !changed && final(shapes)@ == old(shapes)@,
            }
        }),
        forall|k: int| 0 <= k < old(shapes)@.len() ==> #[trigger] final(shapes)@[k] == old(shapes)@[k]
            || final(shapes)@[k] == text_shape_with(old(shapes)@[k], bold, italic, font),
        final(shapes)@.len() == old(shapes)@.len(),
{
    if let Some(index) = selected {
        if index < shapes.len() {
            let shape = clone_shape(&shapes[index]);
            match shape {
                AnnotationShape::Text { box_rect, text, style, bold: b, italic: i, background, font_family } => {
                    let updated = AnnotationShape::Text {
                        box_rect,
                        text,
                        style,
                        bold: match bold { Some(v) => v, None => b },
                        italic: match italic { Some(v) => v, None => i },
                        background,
                        font_family: match font { Some(v) => v, None => font_family },
                    };
                    shapes.set(index, updated);
                    return true;
                },
                _ => {},
            }
        }
    }
    false
}

proof fn lemma_text_setting_keeps_wf(new: &OverlayState, old: &OverlayState, bold: Option<bool>, italic: Option<bool>, font: Option<TextFontFamily>)
    requires
        old.wf(),
        new.text_setting_changed(old, bold, italic, font),
    ensures
        new.wf(),
{
    assert forall|k: int| 0 <= k < new.shapes@.len() implies (#[trigger] new.shapes@[k]).wf() by {
        assert(old.shapes@[k].wf());
    }
}

/// A shape with its size set to `v`; a text box is then kept inside the
/// selection, if there is one.
pub open spec fn restyled(shape: AnnotationShape, v: u32, selection: Option<NormalizedRect>) -> AnnotationShape {
    match shape {
        AnnotationShape::Rectangle { start, end, style } =>
            AnnotationShape::Rectangle { start, end, style: ShapeStyle { stroke: v, ..style } },
        AnnotationShape::Ellipse { start, end, style } =>
            AnnotationShape::Ellipse { start, end, style: ShapeStyle { stroke: v, ..style } },
        AnnotationShape::Line { start, end, style } =>
            AnnotationShape::Line { start, end, style: ShapeStyle { stroke: v, ..style } },
        AnnotationShape::Arrow { start, end, style } =>
            AnnotationShape::Arrow { start, end, style: ShapeStyle { stroke: v, ..style } },
        AnnotationShape::Mosaic { start, end, style } =>
            AnnotationShape::Mosaic { start, end, style: ShapeStyle { stroke: v, ..style } },
        AnnotationShape::Text { box_rect, text, style, bold, italic, background, font_family } => {
            let ns = ShapeStyle { stroke: v, ..style };
            AnnotationShape::Text {
                box_rect: match selection {
                    Some(sel) => clamp_text_box_spec(box_rect, text@, ns, bold, italic, sel),
                    None => box_rect,
                },
                text,
                style: ns,
                bold,
                italic,
                background,
                font_family,
            }
        },
        AnnotationShape::Number { center, value, style } =>
            AnnotationShape::Number { center, value, style: ShapeStyle { stroke: v, ..style } },
    }
}

/// The draft with its text size set to `v`, its box kept inside the selection.
pub open spec fn restyled_draft(d: TextDraft, v: u32, selection: Option<NormalizedRect>) -> TextDraft {
    let ns = ShapeStyle { stroke: v, ..d.style };
    TextDraft {
        style: ns,
        box_rect: match selection {
            Some(sel) => clamp_text_box_spec(d.box_rect, d.text@, ns, d.bold, d.italic, sel),
            None => d.box_rect,
        },
        ..d
    }
}

pub open spec fn selection_fits_overlay(selection: Option<NormalizedRect>) -> bool {
    selection matches Some(s) ==> s.wf() && 0 <= s.left < s.right && 0 <= s.top < s.bottom
}

fn restyle_draft(d: &mut Option<TextDraft>, v: u32, selection: Option<NormalizedRect>)
    requires
        *old(d) matches Some(x) ==> text_draft_ok(x),
        selection_fits_overlay(selection),
    ensures
        *final(d) == (match *old(d) { Some(x) => Some(restyled_draft(x, v, selection)), None => None::<TextDraft> }),
        *final(d) matches Some(x) ==> text_draft_ok(x),
{
    match d {
        Some(draft) => {
            draft.style.stroke = v;
            if let Some(sel) = selection {
                draft.box_rect = clamp_text_box_to_bounds_styled(
                    draft.box_rect,
                    draft.text.as_str(),
                    draft.style,
                    draft.bold,
                    draft.italic,
                    draft.font_family,
                    sel,
                );
            }
        },
        None => {},
    }
}

fn restyle_shape(shape: AnnotationShape, v: u32, selection: Option<NormalizedRect>) -> (r: AnnotationShape)
    requires
        shape.wf(),
        selection_fits_overlay(selection),
        v <= MAX_TEXT_SIZE,
    ensures
        r == restyled(shape, v, selection),
        r.wf(),
{
    match shape {
        AnnotationShape::Rectangle { start, end, style } =>
            AnnotationShape::Rectangle { start, end, style: ShapeStyle { color: style.color, stroke: v } },
        AnnotationShape::Ellipse { start, end, style } =>
            AnnotationShape::Ellipse { start, end, style: ShapeStyle { color: style.color, stroke: v } },
        AnnotationShape::Line { start, end, style } =>
            AnnotationShape::Line { start, end, style: ShapeStyle { color: style.color, stroke: v } },
        AnnotationShape::Arrow { start, end, style } =>
            AnnotationShape::Arrow { start, end, style: ShapeStyle { color: style.color, stroke: v } },
        AnnotationShape::Mosaic { start, end, style } =>
            AnnotationShape::Mosaic { start, end, style: ShapeStyle { color: style.color, stroke: v } },
        AnnotationShape::Text { box_rect, text, style, bold, italic, background, font_family } => {
            let ns = ShapeStyle { color: style.color, stroke: v };
            let b = match selection {
                Some(sel) => clamp_text_box_to_bounds_styled(box_rect, text.as_str(), ns, bold, italic, font_family, sel),
                None => box_rect,
            };
            AnnotationShape::Text { box_rect: b, text, style: ns, bold, italic, background, font_family }
        },
        AnnotationShape::Number { center, value, style } =>
            AnnotationShape::Number { center, value, style: ShapeStyle { color: style.color, stroke: v } },
    }
}

impl OverlayState {
    /// The effect of moving the size slider to `value`: the value is clamped
    /// into the target's range and becomes the default for that target; the
    /// draft (for text) and the selected shape of the same kind take it too.
    /// The slider's sizes once `value` is set: the size the slider adjusts
    /// takes `value`, kept in its range; the others stay.
    pub open spec fn style_sizes_set(&self, old: &Self, value: u32) -> bool {
        let target = old.style_control_target_spec();
        let range = style_range_spec(target);
        let v = spec_clamp(value as int, range.0 as int, range.1 as int) as u32;
        &&& self.stroke_width == if target == StyleControlTarget::Stroke { v } else { old.stroke_width }
        &&& self.mosaic_size == if target == StyleControlTarget::Mosaic { v } else { old.mosaic_size }
        &&& self.text_size == if target == StyleControlTarget::Text { v } else { old.text_size }
        &&& self.number_size == if target == StyleControlTarget::Badge { v } else { old.number_size }
    }

    pub open spec fn style_value_set(&self, old: &Self, value: u32) -> bool {
        let target = old.style_control_target_spec();
        let range = style_range_spec(target);
        let v = spec_clamp(value as int, range.0 as int, range.1 as int) as u32;
        &&& self.same_selection_state(old)
        &&& self.same_ocr_state(old)
        &&& self.tool == old.tool
        &&& self.color_index == old.color_index
        &&& self.text_bold == old.text_bold
        &&& self.text_italic == old.text_italic
        &&& self.text_background == old.text_background
        &&& self.text_font_family == old.text_font_family
        &&& self.open_text_dropdown == old.open_text_dropdown
        &&& self.stroke_width == if target == StyleControlTarget::Stroke { v } else { old.stroke_width }
        &&& self.mosaic_size == if target == StyleControlTarget::Mosaic { v } else { old.mosaic_size }
        &&& self.text_size == if target == StyleControlTarget::Text { v } else { old.text_size }
        &&& self.number_size == if target == StyleControlTarget::Badge { v } else { old.number_size }
        &&& self.text_input == (match old.text_input {
            Some(d) => if target == StyleControlTarget::Text { Some(restyled_draft(d, v, old.selection)) } else { Some(d) },
            None => None::<TextDraft>,
        })
        &&& self.draft == old.draft
        &&& self.selected_shape == old.selected_shape
        &&& self.active_drag == old.active_drag
        &&& self.next_number == old.next_number
        &&& match old.shape_at_index(old.selected_shape) {
            Some(shape) => if shape_style_target_spec(shape) == target {
                self.shapes@ == old.shapes@.update(old.selected_shape.unwrap() as int, restyled(shape, v, old.selection))
                    && self.composed_dirty
            } else {
                self.shapes@ == old.shapes@ && self.composed_dirty == old.composed_dirty
            },
            None => self.shapes@ == old.shapes@ && self.composed_dirty == old.composed_dirty,
        }
    }

    #[verifier::rlimit(60)]
    fn apply_style_value(&mut self, value: u32)
        requires
            old(self).wf(),
        ensures
            final(self).style_value_set(&old(self), value),
            final(self).text_input matches Some(x) ==> text_draft_ok(x),
            forall|k: int| 0 <= k < final(self).shapes@.len() ==> (#[trigger] final(self).shapes@[k]).wf(),
    {
        let target = self.style_control_target();
        let (min_value, max_value) = self.style_value_range();
        let value = clamp_u32(value, min_value, max_value);
        match target {
            StyleControlTarget::Stroke => self.stroke_width = value,
            StyleControlTarget::Mosaic => self.mosaic_size = value,
            StyleControlTarget::Text => self.text_size = value,
            StyleControlTarget::Badge => self.number_size = value,
        }
        let selection = self.selection;
        if target == StyleControlTarget::Text {
            restyle_draft(&mut self.text_input, value, selection);
        }
        if let Some(index) = self.selected_shape {
            if index < self.shapes.len() {
                let shape = clone_shape(&self.shapes[index]);
                if shape_style_target(&shape) == target {
                    let ghost before = self.shapes@;
                    let updated = restyle_shape(shape, value, selection);
                    self.shapes.set(index, updated);
                    self.composed_dirty = true;
                    proof {
                        assert forall|k: int| 0 <= k < self.shapes@.len() implies (#[trigger] self.shapes@[k]).wf() by {
                            if k != index {
                                assert(before[k].wf());
                            }
                        }
                    }
                }
            }
        }
    }

    /// Moves the size slider to `value`.
    pub fn set_current_style_value(&mut self, value: u32)
        requires
            old(self).wf(),
        ensures
            final(self).style_value_set(&old(self), value),
            final(self).wf(),
    {
        self.apply_style_value(value);
    }
}

impl OverlayState {
    /// The whole overlay as a rectangle.
    pub open spec fn bounds_spec(&self) -> NormalizedRect {
        NormalizedRect { left: 0, top: 0, right: self.width as i32, bottom: self.height as i32 }
    }

    pub fn bounds(&self) -> (r: NormalizedRect)
        requires
            self.wf(),
        ensures
            r == self.bounds_spec(),
            r.wf(),
    {
        NormalizedRect { left: 0, top: 0, right: self.width as i32, bottom: self.height as i32 }
    }

    pub open spec fn point_in_selection_spec(&self, point: CursorPoint) -> bool {
        self.selection matches Some(s) && s.contains_spec(point)
    }

    pub fn point_in_selection(&self, point: CursorPoint) -> (r: bool)
        ensures
            r == self.point_in_selection_spec(point),
    {
        match self.selection {
            Some(selection) => selection.contains(point),
            None => false,
        }
    }

    /// The point pulled into the selection's last row and column; unchanged
    /// without a selection.
    pub open spec fn clamp_to_selection_spec(&self, point: CursorPoint) -> CursorPoint {
        match self.selection {
            None => point,
            Some(s) => CursorPoint {
                x: spec_clamp(point.x as int, s.left as int, s.right - 1) as i32,
                y: spec_clamp(point.y as int, s.top as int, s.bottom - 1) as i32,
            },
        }
    }

    pub fn clamp_point_to_selection(&self, point: CursorPoint) -> (r: CursorPoint)
        requires
            self.wf(),
        ensures
            r == self.clamp_to_selection_spec(point),
            point.wf() ==> r.wf(),
    {
        match self.selection {
            None => point,
            Some(selection) => CursorPoint {
                x: clamp_i32(point.x, selection.left, selection.max_inclusive_x()),
                y: clamp_i32(point.y, selection.top, selection.max_inclusive_y()),
            },
        }
    }

    /// What the preview shows bright: the rectangle being dragged, else the
    /// window or control under the cursor, while selecting; the selection
    /// while annotating.
    pub open spec fn preview_selection_spec(&self) -> Option<SelectionRect> {
        match self.mode {
            OverlayMode::Selecting => match self.active_drag {
                Some(ActiveDrag::Selecting { start, current }) => match crate::geometry::spec_selection_from_coords(
                    start.x as int, start.y as int, current.x as int, current.y as int) {
                    None => None,
                    Some((x, y, w, h)) => Some(SelectionRect { x: x as i32, y: y as i32, width: w as u32, height: h as u32 }),
                },
                _ => match self.hover_selection {
                    Some(h) => if h.width_spec() > 0 && h.height_spec() > 0 {
                        Some(SelectionRect { x: h.left, y: h.top, width: h.width_spec() as u32, height: h.height_spec() as u32 })
                    } else {
                        None
                    },
                    None => None,
                },
            },
            OverlayMode::Annotating => match self.selection {
                Some(s) => Some(SelectionRect { x: s.left, y: s.top, width: s.width_spec() as u32, height: s.height_spec() as u32 }),
                None => None,
            },
        }
    }

    pub fn preview_selection_rect(&self) -> (r: Option<SelectionRect>)
        requires
            self.wf(),
        ensures
            r == self.preview_selection_spec(),
    {
        match self.mode {
            OverlayMode::Selecting => match &self.active_drag {
                Some(ActiveDrag::Selecting { start, current }) => SelectionRect::from_points(*start, *current),
                _ => match self.hover_selection {
                    Some(h) => h.to_selection_rect(),
                    None => None,
                },
            },
            OverlayMode::Annotating => match self.selection {
                Some(s) => s.to_selection_rect(),
                None => None,
            },
        }
    }

    /// The last recognised block, in drawing order, under the point.
    pub open spec fn ocr_block_at_spec(&self, point: CursorPoint) -> Option<usize> {
        last_block_at(self.ocr_blocks@, point)
    }

    pub fn ocr_block_at(&self, point: CursorPoint) -> (r: Option<usize>)
        ensures
            r == self.ocr_block_at_spec(point),
    {
        let mut i: usize = self.ocr_blocks.len();
        assert(self.ocr_blocks@.take(i as int) =~= self.ocr_blocks@);
        while i > 0
            invariant
                i <= self.ocr_blocks@.len(),
                last_block_at(self.ocr_blocks@, point) == last_block_at(self.ocr_blocks@.take(i as int), point),
            decreases i,
        {
            let ghost prefix = self.ocr_blocks@.take(i as int);
            assert(prefix.drop_last() =~= self.ocr_blocks@.take(i - 1));
            if self.ocr_blocks[i - 1].rect.contains(point) {
                return Some(i - 1);
            }
            i = i - 1;
        }
        None
    }

    /// Clears the selection of a shape the active tool cannot pick.
    pub fn sync_selected_shape_with_tool(&mut self)
        requires
            old(self).wf(),
        ensures
            final(self).same_selection_state(&old(self)),
            final(self).same_tool_state(&old(self)),
            final(self).same_ocr_state(&old(self)),
            final(self).shapes@ == old(self).shapes@,
            final(self).draft == old(self).draft,
            final(self).text_input == old(self).text_input,
            final(self).active_drag == old(self).active_drag,
            final(self).next_number == old(self).next_number,
            final(self).composed_dirty == old(self).composed_dirty,
            final(self).selected_shape == (match old(self).shape_at_index(old(self).selected_shape) {
                Some(shape) => if old(self).can_interact_spec(shape) { old(self).selected_shape } else { None },
                None => if old(self).selected_shape is Some { None } else { None },
            }),
            final(self).wf(),
    {
        if let Some(index) = self.selected_shape {
            let keep = index < self.shapes.len() && self.tool_can_interact_with_shape(&self.shapes[index]);
            if !keep {
                self.selected_shape = None;
            }
        }
    }
}

/// The index of the last block holding the point.
pub open spec fn last_block_at(blocks: Seq<OcrOverlayBlock>, point: CursorPoint) -> Option<usize>
    decreases blocks.len(),
{
    if blocks.len() == 0 {
        None
    } else if blocks.last().rect.contains_spec(point) {
        Some((blocks.len() - 1) as usize)
    } else {
        last_block_at(blocks.drop_last(), point)
    }
}

/// The hover rectangle: of the one found by asking the window under the cursor
/// and the one from the list of windows and controls, the smaller; either when
/// only it was found.
pub open spec fn choose_hover_spec(uia: Option<NormalizedRect>, listed: Option<NormalizedRect>) -> Option<NormalizedRect> {
    match (uia, listed) {
        (Some(u), Some(l)) => if u.area_spec() <= l.area_spec() { Some(u) } else { Some(l) },
        (Some(u), None) => Some(u),
        (None, Some(l)) => Some(l),
        (None, None) => None,
    }
}

pub fn choose_hover(uia: Option<NormalizedRect>, listed: Option<NormalizedRect>) -> (r: Option<NormalizedRect>)
    requires
        uia matches Some(u) ==> u.sized(),
        listed matches Some(l) ==> l.sized(),
    ensures
        r == choose_hover_spec(uia, listed),
{
    match (uia, listed) {
        (Some(u), Some(l)) => if u.area() <= l.area() { Some(u) } else { Some(l) },
        (Some(u), None) => Some(u),
        (None, Some(l)) => Some(l),
        (None, None) => None,
    }
}

/// The index of the first OCR profile with the default id, or 0.
pub fn default_ocr_profile_index(profiles: &Vec<OcrProfile>, default_id: &str) -> (r: usize)
    ensures
        (exists|i: int| 0 <= i < profiles@.len() && #[trigger] profiles@[i].id@ == default_id@) ==> {
            &&& r < profiles@.len()
            &&& profiles@[r as int].id@ == default_id@
            &&& forall|j: int| 0 <= j < r ==> #[trigger] profiles@[j].id@ != default_id@
        },
        !(exists|i: int| 0 <= i < profiles@.len() && #[trigger] profiles@[i].id@ == default_id@) ==> r == 0,
{
    let mut i: usize = 0;
    while i < profiles.len()
        invariant
            i <= profiles@.len(),
            forall|j: int| 0 <= j < i ==> #[trigger] profiles@[j].id@ != default_id@,
        decreases profiles@.len() - i,
    {
        if crate::text::str_eq(profiles[i].id.as_str(), default_id) {
            return i;
        }
        i = i + 1;
    }
    0
}

/// The index of the first translation profile with the default id, or 0.
pub fn default_translation_profile_index(profiles: &Vec<TranslationProfile>, default_id: &str) -> (r: usize)
    ensures
        (exists|i: int| 0 <= i < profiles@.len() && #[trigger] profiles@[i].id@ == default_id@) ==> {
            &&& r < profiles@.len()
            &&& profiles@[r as int].id@ == default_id@
            &&& forall|j: int| 0 <= j < r ==> #[trigger] profiles@[j].id@ != default_id@
        },
        !(exists|i: int| 0 <= i < profiles@.len() && #[trigger] profiles@[i].id@ == default_id@) ==> r == 0,
{
    let mut i: usize = 0;
    while i < profiles.len()
        invariant
            i <= profiles@.len(),
            forall|j: int| 0 <= j < i ==> #[trigger] profiles@[j].id@ != default_id@,
        decreases profiles@.len() - i,
    {
        if crate::text::str_eq(profiles[i].id.as_str(), default_id) {
            return i;
        }
        i = i + 1;
    }
    0
}

/// The toolbar button a text dropdown opens under.
pub open spec fn dropdown_anchor_action(kind: TextDropdownKind) -> ToolbarAction {
    match kind {
        TextDropdownKind::FontFamily => ToolbarAction::TextFontDropdown,
        TextDropdownKind::FontSize => ToolbarAction::TextSizeDropdown,
    }
}

/// The shape found under the point among the first `n`, searching from the
/// last drawn: one the active tool can pick and whose hit test passes.
pub open spec fn topmost_hit(state: &OverlayState, n: int, point: CursorPoint) -> Option<usize>
    decreases n,
{
    if n <= 0 {
        None
    } else {
        let shape = state.shapes@[n - 1];
        if state.can_interact_spec(shape) && shape.hit_test_spec(point, state.selected_shape == Some((n - 1) as usize)) {
            Some((n - 1) as usize)
        } else {
            topmost_hit(state, n - 1, point)
        }
    }
}

impl OverlayState {
    /// The selected shape when it is a box the active tool can resize, with
    /// its rectangle, style and kind.
    pub open spec fn resizable_selected_spec(&self) -> Option<(usize, NormalizedRect, ShapeStyle, ResizableShapeKind)> {
        match self.selected_shape {
            None => None,
            Some(index) => if index >= self.shapes@.len() || !self.can_interact_spec(self.shapes@[index as int]) {
                None
            } else {
                match self.shapes@[index as int] {
                    AnnotationShape::Rectangle { start, end, style } => match NormalizedRect::from_points_spec(start, end) {
                        Some(rect) => Some((index, rect, style, ResizableShapeKind::Rectangle)),
                        None => None,
                    },
                    AnnotationShape::Ellipse { start, end, style } => match NormalizedRect::from_points_spec(start, end) {
                        Some(rect) => Some((index, rect, style, ResizableShapeKind::Ellipse)),
                        None => None,
                    },
                    AnnotationShape::Mosaic { start, end, style } => match NormalizedRect::from_points_spec(start, end) {
                        Some(rect) => Some((index, rect, style, ResizableShapeKind::Mosaic)),
                        None => None,
                    },
                    _ => None,
                }
            },
        }
    }

    pub fn selected_resizable_shape_for_editing(&self) -> (r: Option<(usize, NormalizedRect, ShapeStyle, ResizableShapeKind)>)
        requires
            self.wf(),
        ensures
            r == self.resizable_selected_spec(),
            r matches Some(t) ==> t.1.wf(),
    {
        let index = match self.selected_shape {
            Some(index) => index,
            None => return None,
        };
        if index >= self.shapes.len() {
            return None;
        }
        let shape = &self.shapes[index];
        if !self.tool_can_interact_with_shape(shape) {
            return None;
        }
        match shape {
            AnnotationShape::Rectangle { start, end, style } => match NormalizedRect::from_points(*start, *end) {
                Some(rect) => Some((index, rect, *style, ResizableShapeKind::Rectangle)),
                None => None,
            },
            AnnotationShape::Ellipse { start, end, style } => match NormalizedRect::from_points(*start, *end) {
                Some(rect) => Some((index, rect, *style, ResizableShapeKind::Ellipse)),
                None => None,
            },
            AnnotationShape::Mosaic { start, end, style } => match NormalizedRect::from_points(*start, *end) {
                Some(rect) => Some((index, rect, *style, ResizableShapeKind::Mosaic)),
                None => None,
            },
            _ => None,
        }
    }

    pub open spec fn selection_handle_spec(&self, point: CursorPoint) -> Option<ResizeHandle> {
        match self.selection {
            Some(s) => ResizeHandle::hit_at_spec(s, point),
            None => None,
        }
    }

    /// The selection's resize handle under the point.
    pub fn selection_resize_handle_at(&self, point: CursorPoint) -> (r: Option<ResizeHandle>)
        requires
            self.wf(),
            point.wf(),
        ensures
            r == self.selection_handle_spec(point),
    {
        match self.selection {
            Some(s) => ResizeHandle::hit_at(s, point),
            None => None,
        }
    }

    pub open spec fn shape_handle_spec(&self, point: CursorPoint) -> Option<ResizeHandle> {
        match self.resizable_selected_spec() {
            Some(t) => ResizeHandle::hit_at_spec(t.1, point),
            None => None,
        }
    }

    /// The selected shape's resize handle under the point.
    pub fn shape_resize_handle_at(&self, point: CursorPoint) -> (r: Option<ResizeHandle>)
        requires
            self.wf(),
            point.wf(),
        ensures
            r == self.shape_handle_spec(point),
    {
        match self.selected_resizable_shape_for_editing() {
            Some((_, rect, _, _)) => ResizeHandle::hit_at(rect, point),
            None => None,
        }
    }

    pub open spec fn shape_at_spec(&self, point: CursorPoint) -> Option<usize> {
        if !self.point_in_selection_spec(point) {
            None
        } else {
            topmost_hit(self, self.shapes@.len() as int, point)
        }
    }

    /// The topmost shape under the point that the active tool can pick,
    /// looking only inside the selection.
    pub fn shape_at(&self, point: CursorPoint) -> (r: Option<usize>)
        requires
            self.wf(),
            point.wf(),
        ensures
            r == self.shape_at_spec(point),
    {
        if !self.point_in_selection(point) {
            return None;
        }
        let mut i: usize = self.shapes.len();
        while i > 0
            invariant
                self.wf(),
                point.wf(),
                i <= self.shapes@.len(),
                self.point_in_selection_spec(point),
                topmost_hit(self, self.shapes@.len() as int, point) == topmost_hit(self, i as int, point),
            decreases i,
        {
            let index = i - 1;
            let shape = &self.shapes[index];
            let selected = match self.selected_shape {
                Some(s) => s == index,
                None => false,
            };
            assert(selected == (self.selected_shape == Some(index)));
            assert(self.shapes@[index as int].wf());
            let can = self.tool_can_interact_with_shape(shape);
            let hit = can && shape.hit_test(point, selected);
            proof {
                let sh = self.shapes@[i - 1];
                assert(sh == *shape);
                assert(((i as int) - 1) as usize == index);
            }
            if hit {
                assert(topmost_hit(self, i as int, point) == Some(index));
                return Some(index);
            }
            assert(topmost_hit(self, i as int, point) == topmost_hit(self, index as int, point));
            i = index;
        }
        None
    }

    /// What a press would start at the point while annotating: resizing the
    /// selection or the selected shape, moving a shape, or (with the select
    /// tool) moving the selection.
    pub open spec fn hover_action_spec(&self, point: CursorPoint) -> Option<CanvasHoverAction> {
        if self.mode != OverlayMode::Annotating || self.tool == AnnotationTool::Mouse {
            None
        } else if self.selection_handle_spec(point) is Some {
            Some(CanvasHoverAction::ResizeSelection(self.selection_handle_spec(point).unwrap()))
        } else if self.shape_handle_spec(point) is Some {
            Some(CanvasHoverAction::ResizeShape(self.shape_handle_spec(point).unwrap()))
        } else if self.shape_at_spec(point) is Some {
            Some(CanvasHoverAction::MoveShape(self.shape_at_spec(point).unwrap()))
        } else if self.tool == AnnotationTool::Select && self.point_in_selection_spec(point) {
            Some(CanvasHoverAction::MoveSelection)
        } else {
            None
        }
    }

    pub fn hover_action_at(&self, point: CursorPoint) -> (r: Option<CanvasHoverAction>)
        requires
            self.wf(),
            point.wf(),
        ensures
            r == self.hover_action_spec(point),
    {
        if self.mode != OverlayMode::Annotating {
            return None;
        }
        if self.tool == AnnotationTool::Mouse {
            return None;
        }
        if let Some(handle) = self.selection_resize_handle_at(point) {
            return Some(CanvasHoverAction::ResizeSelection(handle));
        }
        if let Some(handle) = self.shape_resize_handle_at(point) {
            return Some(CanvasHoverAction::ResizeShape(handle));
        }
        if let Some(index) = self.shape_at(point) {
            return Some(CanvasHoverAction::MoveShape(index));
        }
        if self.tool == AnnotationTool::Select && self.point_in_selection(point) {
            return Some(CanvasHoverAction::MoveSelection);
        }
        None
    }

    /// The toolbar while annotating a selection.
    pub fn toolbar_layout(&self) -> (r: Option<ToolbarLayout>)
        requires
            self.wf(),
        ensures
            match r {
                None => self.mode != OverlayMode::Annotating || self.selection is None,
                Some(l) => self.mode == OverlayMode::Annotating && self.selection is Some
                    && (l.panels@, l.items@) == crate::overlay::toolbar::toolbar_layout_spec(self.selection.unwrap(),
                        self.width as int, self.height as int, self.text_toolbar_visible_spec())
                    && crate::overlay::toolbar::items_in_range(l.items@),
            },
    {
        if self.mode != OverlayMode::Annotating {
            return None;
        }
        let selection = match self.selection {
            Some(s) => s,
            None => return None,
        };
        Some(toolbar_layout_for(selection, self.width, self.height, self.text_toolbar_visible()))
    }

    /// The rectangle of a toolbar button.
    pub fn toolbar_item_rect(&self, action: ToolbarAction) -> (r: Option<IntRect>)
        requires
            self.wf(),
        ensures
            r == self.toolbar_item_rect_spec(action),
            r matches Some(rect) ==> -0x0200_0000 <= rect.left <= 0x0200_0000 && -0x0200_0000 <= rect.top <= 0x0200_0000
                && -0x0200_0000 <= rect.bottom <= 0x0200_0000 && -0x0200_0000 <= rect.right <= 0x0200_0000,
            self.toolbar_layout_is_none() ==> r is None,
    {
        match self.toolbar_layout() {
            None => None,
            Some(layout) => toolbar_item_rect(&layout.items, action),
        }
    }

    pub open spec fn toolbar_layout_is_none(&self) -> bool {
        self.mode != OverlayMode::Annotating || self.selection is None
    }

    /// The toolbar's buttons, when it is shown.
    pub open spec fn toolbar_items_spec(&self) -> Option<Seq<ToolbarItem>> {
        if self.toolbar_layout_is_none() {
            None
        } else {
            Some(crate::overlay::toolbar::toolbar_layout_spec(
                self.selection.unwrap(),
                self.width as int,
                self.height as int,
                self.text_toolbar_visible_spec(),
            ).1)
        }
    }

    /// Where the button for `action` is, when the toolbar shows one.
    pub open spec fn toolbar_item_rect_spec(&self, action: ToolbarAction) -> Option<IntRect> {
        match self.toolbar_items_spec() {
            None => None,
            Some(items) => item_rect_for(items, action),
        }
    }

    /// The options of the open text dropdown, placed under its button.
    pub open spec fn text_dropdown_items_spec(&self) -> Option<Seq<ToolbarItem>> {
        match self.open_text_dropdown {
            None => None,
            Some(kind) => if !self.text_toolbar_visible_spec() {
                None
            } else {
                match self.toolbar_item_rect_spec(dropdown_anchor_action(kind)) {
                    None => None,
                    Some(anchor) => {
                        let defs = crate::overlay::toolbar::dropdown_defs_spec(kind);
                        let panel = crate::overlay::toolbar::dropdown_panel_spec(
                            kind,
                            anchor,
                            self.width as int,
                            self.height as int,
                        );
                        Some(Seq::new(defs.len(), |k: int| crate::overlay::toolbar::dropdown_item_spec(panel, defs, k)))
                    },
                }
            },
        }
    }

    /// The action under the point: an option of the open dropdown first,
    /// then a toolbar button.
    pub open spec fn toolbar_action_spec(&self, point: CursorPoint) -> Option<ToolbarAction> {
        let dropdown_hit = match self.text_dropdown_items_spec() {
            Some(items) => first_hit(items, point),
            None => None,
        };
        match dropdown_hit {
            Some(item) => Some(item.action),
            None => match self.toolbar_items_spec() {
                None => None,
                Some(items) => match first_hit(items, point) {
                    Some(item) => Some(item.action),
                    None => None,
                },
            },
        }
    }

    /// The open text dropdown, under its button in the text row.
    pub fn text_dropdown_layout(&self) -> (r: Option<ToolbarLayout>)
        requires
            self.wf(),
        ensures
            r is Some ==> self.open_text_dropdown is Some && self.text_toolbar_visible_spec() && !self.toolbar_layout_is_none(),
            match r {
                None => self.text_dropdown_items_spec() is None,
                Some(l) => self.text_dropdown_items_spec() == Some(l.items@),
            },
    {
        let kind = match self.open_text_dropdown {
            Some(k) => k,
            None => return None,
        };
        if !self.text_toolbar_visible() {
            return None;
        }
        let anchor_action = match kind {
            TextDropdownKind::FontFamily => ToolbarAction::TextFontDropdown,
            TextDropdownKind::FontSize => ToolbarAction::TextSizeDropdown,
        };
        let anchor = match self.toolbar_item_rect(anchor_action) {
            Some(a) => a,
            None => return None,
        };
        let layout = text_dropdown_layout_at(kind, anchor, self.width, self.height);
        proof {
            let defs = crate::overlay::toolbar::dropdown_defs_spec(kind);
            let panel = crate::overlay::toolbar::dropdown_panel_spec(kind, anchor, self.width as int, self.height as int);
            assert(layout.items@ =~= Seq::new(defs.len(), |k: int| crate::overlay::toolbar::dropdown_item_spec(panel, defs, k)));
        }
        Some(layout)
    }

    /// The toolbar (or open dropdown) button under the point; dropdown options first.
    pub fn toolbar_action_at(&self, point: CursorPoint) -> (r: Option<ToolbarAction>)
        requires
            self.wf(),
        ensures
            r is Some ==> self.mode == OverlayMode::Annotating && self.selection is Some,
            r == self.toolbar_action_spec(point),
    {
        if let Some(layout) = self.text_dropdown_layout() {
            if let Some(item) = item_at(&layout.items, point) {
                return Some(item.action);
            }
        }
        match self.toolbar_layout() {
            None => None,
            Some(layout) => match item_at(&layout.items, point) {
                Some(item) => Some(item.action),
                None => None,
            },
        }
    }

}

/// A shape found under the point is one of the shapes searched.
pub proof fn lemma_topmost_hit_in_range(state: &OverlayState, n: int, point: CursorPoint)
    ensures
        topmost_hit(state, n, point) matches Some(i) ==> i < n,
    decreases n,
{
    if n > 0 {
        lemma_topmost_hit_in_range(state, n - 1, point);
    }
}

} // verus!
