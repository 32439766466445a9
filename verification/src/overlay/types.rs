use crate::config::types::TextFontFamily;
use vstd::prelude::*;

verus! {

/// Brightness, in percent, of the screen outside the selection.
pub const PREVIEW_BRIGHTNESS_PERCENT: u32 = 60;
/// The five annotation colours, as `0xRRGGBB`.
pub const COLOR_PRESETS: [u32; 5] = [0xF14C4C, 0xFF8C00, 0xF2C94C, 0x2ECC71, 0x4F8CFF];
pub const MIN_STROKE_WIDTH: u32 = 1;
pub const MAX_STROKE_WIDTH: u32 = 16;
pub const DEFAULT_STROKE_WIDTH: u32 = 2;
pub const MIN_TEXT_SIZE: u32 = 14;
pub const MAX_TEXT_SIZE: u32 = 54;
pub const DEFAULT_TEXT_SIZE: u32 = 24;
/// The sizes offered in the text size menu.
pub const TEXT_SIZE_OPTIONS: [u32; 11] = [14, 16, 18, 20, 24, 28, 32, 36, 42, 48, 54];
pub const MIN_NUMBER_SIZE: u32 = 18;
pub const MAX_NUMBER_SIZE: u32 = 52;
pub const DEFAULT_NUMBER_SIZE: u32 = 28;
pub const MIN_MOSAIC_SIZE: u32 = 6;
pub const MAX_MOSAIC_SIZE: u32 = 30;
pub const DEFAULT_MOSAIC_SIZE: u32 = 12;
pub const TOOLBAR_PADDING: i32 = 10;
pub const TOOLBAR_GROUP_GAP: i32 = 10;
pub const TOOLBAR_ITEM_GAP: i32 = 8;
pub const TOOLBAR_BUTTON: i32 = 36;
pub const TOOLBAR_COLOR: i32 = 26;
pub const TOOLBAR_STYLE_WIDTH: i32 = 132;
pub const TOOLBAR_STYLE_TRACK_HEIGHT: i32 = 5;
pub const TOOLBAR_HEIGHT: i32 = 52;
pub const TOOLBAR_MARGIN: i32 = 18;
pub const WINDOW_MARGIN: i32 = 10;
pub const HANDLE_HIT_RADIUS: i32 = 11;
/// The smallest side, in pixels, of a selection or a box-shaped annotation.
pub const MIN_SELECTION_SPAN: i32 = 8;
pub const TEXT_BOX_PADDING_X: i32 = 8;
pub const TEXT_BOX_PADDING_Y: i32 = 6;
pub const TEXT_BOX_MIN_WIDTH: i32 = 96;
pub const TEXT_BOX_MIN_HEIGHT: i32 = 40;
pub const TEXT_LAYOUT_BOTTOM_PADDING: i32 = 4;

/// The largest magnitude a coordinate takes anywhere on the overlay; every
/// sum or difference of a few coordinates then fits in an `i32`.
pub const COORD_LIMIT: i32 = 0x0100_0000;

pub open spec fn in_range(v: int) -> bool {
    -COORD_LIMIT <= v <= COORD_LIMIT
}

/// `v` is a value of `i32`.
pub open spec fn fits_i32(v: int) -> bool {
    i32::MIN <= v <= i32::MAX
}

/// A point on the overlay, in pixels from its top-left corner.
#[derive(Debug, Clone, Copy, PartialEq, Eq, Structural)]
pub struct CursorPoint {
    pub x: i32,
    pub y: i32,
}

impl CursorPoint {
    pub open spec fn wf(self) -> bool {
        in_range(self.x as int) && in_range(self.y as int)
    }
}

/// Colour (`0xRRGGBB`) and size of an annotation: stroke width, mosaic block,
/// text size or badge size, depending on the shape.
#[derive(Debug, Clone, Copy, PartialEq, Eq, Structural)]
pub struct ShapeStyle {
    pub color: u32,
    pub stroke: u32,
}

#[derive(Debug, Clone, Copy, PartialEq, Eq, Structural)]
pub enum AnnotationTool {
    Mouse,
    Select,
    Rectangle,
    Ellipse,
    Line,
    Arrow,
    Mosaic,
    Text,
    Number,
}

#[derive(Debug, Clone, Copy, PartialEq, Eq, Structural)]
pub enum OverlayMode {
    Selecting,
    Annotating,
}

/// A shape being dragged out with a drawing tool.
#[derive(Debug, Clone, Copy, PartialEq, Eq, Structural)]
pub struct DraftShape {
    pub tool: AnnotationTool,
    pub start: CursorPoint,
    pub current: CursorPoint,
    pub style: ShapeStyle,
}

/// The size of a laid-out block of text.
#[derive(Debug, Clone, Copy, PartialEq, Eq, Structural)]
pub struct TextMetrics {
    pub max_width: i32,
    pub total_height: i32,
    pub line_height: i32,
    pub line_gap: i32,
    pub last_line_width: i32,
    pub line_count: i32,
}

/// Text broken into lines no wider than a limit, with its size.
#[derive(Debug, Clone)]
pub struct WrappedTextLayout {
    pub lines: Vec<String>,
    pub metrics: TextMetrics,
}

/// A rectangle by its edges: it holds the points with `left <= x < right`
/// and `top <= y < bottom`.
#[derive(Debug, Clone, Copy, PartialEq, Eq, Structural)]
pub struct NormalizedRect {
    pub left: i32,
    pub top: i32,
    pub right: i32,
    pub bottom: i32,
}

impl NormalizedRect {
    pub open spec fn wf(self) -> bool {
        in_range(self.left as int) && in_range(self.top as int) && in_range(self.right as int)
            && in_range(self.bottom as int)
    }

    /// A text box: non-empty, no larger than the working range each way, near
    /// it sideways, and possibly pushed far up when its text is taller than
    /// the area it was kept inside.
    pub open spec fn text_ok(self) -> bool {
        &&& -0x0200_0000 <= self.left < self.right <= 0x0200_0000
        &&& -0x4300_0000 <= self.top < self.bottom <= 0x0200_0000
        &&& self.right - self.left <= 0x0100_0000
        &&& self.bottom - self.top <= 0x0100_0000
    }

    /// A non-empty box with its top-left corner near the working range and a
    /// size of at most a text box's height: the bounds of any shape.
    pub open spec fn bounded(self) -> bool {
        &&& -0x0200_0000 <= self.left <= 0x0200_0000
        &&& -0x4400_0000 <= self.top <= 0x0200_0000
        &&& self.left < self.right <= self.left + 0x4200_0000
        &&& self.top < self.bottom <= self.top + 0x4200_0000
    }

    /// Non-empty and within `bounds`.
    pub open spec fn inside(self, bounds: NormalizedRect) -> bool {
        bounds.left <= self.left < self.right <= bounds.right && bounds.top <= self.top < self.bottom <= bounds.bottom
    }

    /// Its width and height are values of `i32`.
    pub open spec fn sized(self) -> bool {
        fits_i32(self.right - self.left) && fits_i32(self.bottom - self.top)
    }
}

/// A finished annotation.
#[derive(Debug, Clone)]
pub enum AnnotationShape {
    Rectangle { start: CursorPoint, end: CursorPoint, style: ShapeStyle },
    Ellipse { start: CursorPoint, end: CursorPoint, style: ShapeStyle },
    Line { start: CursorPoint, end: CursorPoint, style: ShapeStyle },
    Arrow { start: CursorPoint, end: CursorPoint, style: ShapeStyle },
    Mosaic { start: CursorPoint, end: CursorPoint, style: ShapeStyle },
    Text {
        box_rect: NormalizedRect,
        text: String,
        style: ShapeStyle,
        bold: bool,
        italic: bool,
        background: bool,
        font_family: TextFontFamily,
    },
    Number { center: CursorPoint, value: u32, style: ShapeStyle },
}

/// Text being typed into a box, possibly replacing a shape being re-edited.
#[derive(Debug, Clone)]
pub struct TextDraft {
    pub box_rect: NormalizedRect,
    pub text: String,
    pub style: ShapeStyle,
    pub bold: bool,
    pub italic: bool,
    pub background: bool,
    pub font_family: TextFontFamily,
    pub editing_shape: Option<(usize, AnnotationShape)>,
}

#[derive(Debug, Clone, Copy, PartialEq, Eq, Structural)]
pub enum ResizeHandle {
    NorthWest,
    North,
    NorthEast,
    East,
    SouthEast,
    South,
    SouthWest,
    West,
}

/// What a press at the cursor would start.
#[derive(Debug, Clone, Copy, PartialEq, Eq, Structural)]
pub enum CanvasHoverAction {
    ResizeSelection(ResizeHandle),
    MoveSelection,
    ResizeShape(ResizeHandle),
    MoveShape(usize),
}

/// The drag in progress.
#[derive(Debug, Clone)]
pub enum ActiveDrag {
    Selecting { start: CursorPoint, current: CursorPoint },
    Drafting,
    MoveSelection { anchor: CursorPoint, original_rect: NormalizedRect },
    ResizeSelection { handle: ResizeHandle, original_rect: NormalizedRect },
    MoveShape { shape_index: usize, anchor: CursorPoint, original: AnnotationShape },
    ResizeShape { shape_index: usize, handle: ResizeHandle, original_rect: NormalizedRect, style: ShapeStyle },
    AdjustStyleControl,
}

#[derive(Debug, Clone, Copy, PartialEq, Eq, Structural)]
pub enum ToolbarAction {
    MouseTool,
    SelectTool,
    RectangleTool,
    EllipseTool,
    LineTool,
    ArrowTool,
    MosaicTool,
    TextTool,
    NumberTool,
    OcrRun,
    TranslateRun,
    OcrCopyAll,
    TextBoldToggle,
    TextItalicToggle,
    TextFontDropdown,
    TextSizeDropdown,
    TextFontOption(TextFontFamily),
    TextSizeOption(u32),
    Color(usize),
    StyleControl,
    Undo,
    Pin,
    Confirm,
    Cancel,
}

#[derive(Debug, Clone, Copy, PartialEq, Eq, Structural)]
pub enum CursorKind {
    Arrow,
    Crosshair,
    Hand,
    Text,
    Move,
    ResizeNwSe,
    ResizeNeSw,
    ResizeHorizontal,
    ResizeVertical,
}

/// A toolbar rectangle by its edges, with the same half-open convention as
/// [`NormalizedRect`].
#[derive(Debug, Clone, Copy, PartialEq, Eq, Structural)]
pub struct IntRect {
    pub left: i32,
    pub top: i32,
    pub right: i32,
    pub bottom: i32,
}

#[derive(Debug, Clone, Copy, PartialEq, Eq, Structural)]
pub struct ToolbarItem {
    pub rect: IntRect,
    pub action: ToolbarAction,
}

/// Which size the toolbar's slider adjusts.
#[derive(Debug, Clone, Copy, PartialEq, Eq, Structural)]
pub enum StyleControlTarget {
    Stroke,
    Mosaic,
    Text,
    Badge,
}

#[derive(Debug, Clone, Copy, PartialEq, Eq, Structural)]
pub enum ResizableShapeKind {
    Rectangle,
    Ellipse,
    Mosaic,
}

#[derive(Debug, Clone, Copy, PartialEq, Eq, Structural)]
pub enum TextDropdownKind {
    FontFamily,
    FontSize,
}

/// The panels of a toolbar and its buttons, in order.
#[derive(Debug, Clone)]
pub struct ToolbarLayout {
    pub panels: Vec<IntRect>,
    pub items: Vec<ToolbarItem>,
}

/// What happens once recognised or translated text is ready: whether it is
/// copied at once, and whether the overlay then closes.
#[derive(Debug, Clone, Copy, PartialEq, Eq, Structural)]
pub struct FullTextCopyPolicy {
    pub copy_on_completion: bool,
    pub exit_after_copy: bool,
}

impl FullTextCopyPolicy {
    pub fn should_copy_on_completion(self) -> (r: bool)
        ensures
            r == self.copy_on_completion,
    {
        self.copy_on_completion
    }

    /// The overlay closes after a copy only when the copy succeeded and the
    /// policy asks for it.
    pub fn should_exit(self, copy_succeeded: bool) -> (r: bool)
        ensures
            r == (copy_succeeded && self.exit_after_copy),
    {
        copy_succeeded && self.exit_after_copy
    }
}

} // verus!
