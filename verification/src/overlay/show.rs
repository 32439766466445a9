use crate::config::types::{AnnotationDefaults, OcrConfig, OcrProfile, TranslationConfig, TranslationProfile};
use crate::geometry::{spec_clamp, spec_min};
use crate::overlay::session::{default_ocr_profile_index, default_translation_profile_index, selection_ok, OverlayState};
use crate::overlay::types::{
    ActiveDrag, AnnotationTool, CanvasHoverAction, CursorKind, CursorPoint, NormalizedRect, OverlayMode, MAX_MOSAIC_SIZE, MAX_NUMBER_SIZE, MAX_STROKE_WIDTH,
    MAX_TEXT_SIZE, MIN_MOSAIC_SIZE, MIN_NUMBER_SIZE, MIN_STROKE_WIDTH, MIN_TEXT_SIZE,
};
use vstd::prelude::*;

verus! {

/// `r` is the index of the first id equal to `id`, or 0 when none is.
pub open spec fn picks_default(ids: Seq<Seq<char>>, id: Seq<char>, r: int) -> bool {
    if exists|i: int| 0 <= i < ids.len() && #[trigger] ids[i] == id {
        &&& 0 <= r < ids.len()
        &&& ids[r] == id
        &&& forall|j: int| 0 <= j < r ==> #[trigger] ids[j] != id
    } else {
        r == 0
    }
}

fn clamp_u32_into(value: u32, lo: u32, hi: u32) -> (r: u32)
    requires
        lo <= hi,
    ensures
        r == spec_clamp(value as int, lo as int, hi as int),
{
    if value < lo {
        lo
    } else if value > hi {
        hi
    } else {
        value
    }
}

fn ocr_default_index(config: &OcrConfig) -> (r: usize)
    ensures
        picks_default(config.profiles@.map_values(|p: OcrProfile| p.id@), config.default_profile_id@, r as int),
{
    let r = default_ocr_profile_index(&config.profiles, config.default_profile_id.as_str());
    proof {
        let ids = config.profiles@.map_values(|p: OcrProfile| p.id@);
        let id = config.default_profile_id@;
        assert forall|i: int| 0 <= i < ids.len() implies #[trigger] ids[i] == config.profiles@[i].id@ by {}
        if exists|i: int| 0 <= i < ids.len() && #[trigger] ids[i] == id {
            let i = choose|i: int| 0 <= i < ids.len() && #[trigger] ids[i] == id;
            assert(config.profiles@[i].id@ == id);
        }
    }
    r
}

fn translation_default_index(config: &TranslationConfig) -> (r: usize)
    ensures
        picks_default(config.profiles@.map_values(|p: TranslationProfile| p.id@), config.default_profile_id@, r as int),
{
    let r = default_translation_profile_index(&config.profiles, config.default_profile_id.as_str());
    proof {
        let ids = config.profiles@.map_values(|p: TranslationProfile| p.id@);
        let id = config.default_profile_id@;
        assert forall|i: int| 0 <= i < ids.len() implies #[trigger] ids[i] == config.profiles@[i].id@ by {}
        if exists|i: int| 0 <= i < ids.len() && #[trigger] ids[i] == id {
            let i = choose|i: int| 0 <= i < ids.len() && #[trigger] ids[i] == id;
            assert(config.profiles@[i].id@ == id);
        }
    }
    r
}

impl OverlayState {
    /// Prepares the overlay for a new capture: back to selecting with the
    /// mouse tool, the style taken from the defaults (each clamped into its
    /// range), the default recognition and translation profiles chosen,
    /// every result, annotation and drag dropped, and the cursor placed on
    /// the overlay.
    pub fn reset_for_show(
        &mut self,
        cursor_x: i32,
        cursor_y: i32,
        defaults: &AnnotationDefaults,
        ocr_config: &OcrConfig,
        translation_config: &TranslationConfig,
    )
        requires
            old(self).wf(),
        ensures
            final(self).wf(),
            final(self).width == old(self).width,
            final(self).height == old(self).height,
            final(self).mode == OverlayMode::Selecting,
            final(self).selection is None,
            final(self).hover_selection is None,
            final(self).uia_hover_selection is None,
            final(self).tool == AnnotationTool::Mouse,
            final(self).color_index == spec_min(defaults.default_color_index as int, 4),
            final(self).stroke_width == spec_clamp(
                defaults.stroke_width as int,
                MIN_STROKE_WIDTH as int,
                MAX_STROKE_WIDTH as int,
            ),
            final(self).text_size == spec_clamp(defaults.text_size as int, MIN_TEXT_SIZE as int, MAX_TEXT_SIZE as int),
            final(self).number_size == spec_clamp(
                defaults.number_size as int,
                MIN_NUMBER_SIZE as int,
                MAX_NUMBER_SIZE as int,
            ),
            final(self).mosaic_size == spec_clamp(
                defaults.mosaic_size as int,
                MIN_MOSAIC_SIZE as int,
                MAX_MOSAIC_SIZE as int,
            ),
            final(self).text_bold == defaults.text_bold,
            final(self).text_italic == defaults.text_italic,
            final(self).text_background == defaults.text_background,
            final(self).text_font_family == defaults.text_font_family,
            final(self).open_text_dropdown is None,
            picks_default(
                ocr_config.profiles@.map_values(|p: OcrProfile| p.id@),
                ocr_config.default_profile_id@,
                final(self).ocr_profile_index as int,
            ),
            picks_default(
                translation_config.profiles@.map_values(|p: TranslationProfile| p.id@),
                translation_config.default_profile_id@,
                final(self).translation_profile_index as int,
            ),
            final(self).ocr_blocks@.len() == 0,
            final(self).ocr_full_text@.len() == 0,
            final(self).translated_full_text@.len() == 0,
            !final(self).has_translated_image,
            final(self).ocr_selected_block is None,
            !final(self).ocr_running,
            !final(self).translation_running,
            final(self).ocr_status is None,
            final(self).shapes@.len() == 0,
            final(self).draft is None,
            final(self).text_input is None,
            final(self).selected_shape is None,
            final(self).active_drag is None,
            final(self).last_cursor.x == spec_clamp(cursor_x as int, 0, old(self).width - 1),
            final(self).last_cursor.y == spec_clamp(cursor_y as int, 0, old(self).height - 1),
            final(self).next_number == 1,
    {
        self.mode = OverlayMode::Selecting;
        self.selection = None;
        self.hover_selection = None;
        self.uia_hover_selection = None;
        self.tool = AnnotationTool::Mouse;
        self.color_index = if defaults.default_color_index < 4 { defaults.default_color_index } else { 4 };
        self.stroke_width = clamp_u32_into(defaults.stroke_width, MIN_STROKE_WIDTH, MAX_STROKE_WIDTH);
        self.text_size = clamp_u32_into(defaults.text_size, MIN_TEXT_SIZE, MAX_TEXT_SIZE);
        self.number_size = clamp_u32_into(defaults.number_size, MIN_NUMBER_SIZE, MAX_NUMBER_SIZE);
        self.mosaic_size = clamp_u32_into(defaults.mosaic_size, MIN_MOSAIC_SIZE, MAX_MOSAIC_SIZE);
        self.text_bold = defaults.text_bold;
        self.text_italic = defaults.text_italic;
        self.text_background = defaults.text_background;
        self.text_font_family = defaults.text_font_family;
        self.open_text_dropdown = None;
        self.ocr_profile_index = ocr_default_index(ocr_config);
        self.translation_profile_index = translation_default_index(translation_config);
        self.ocr_blocks = Vec::new();
        self.ocr_full_text = String::new();
        self.translated_full_text = String::new();
        self.has_translated_image = false;
        self.ocr_selected_block = None;
        self.ocr_running = false;
        self.translation_running = false;
        self.ocr_status = None;
        self.shapes = Vec::new();
        self.draft = None;
        self.text_input = None;
        self.selected_shape = None;
        self.active_drag = None;
        let max_x = (self.width - 1) as i32;
        let max_y = (self.height - 1) as i32;
        self.last_cursor = CursorPoint { x: cursor_x, y: cursor_y }.clamp(max_x, max_y);
        self.next_number = 1;
    }
}

impl OverlayState {
    /// Drops what belongs to the current selection: recognition and
    /// translation results, the status line, the shape being drawn, the text
    /// being typed and the shape selection.
    pub fn clear_selection_bound_content(&mut self)
        requires
            old(self).wf(),
        ensures
            final(self).wf(),
            final(self).ocr_blocks@.len() == 0,
            final(self).ocr_full_text@.len() == 0,
            final(self).translated_full_text@.len() == 0,
            !final(self).has_translated_image,
            final(self).ocr_selected_block is None,
            final(self).ocr_status is None,
            final(self).draft is None,
            final(self).text_input is None,
            final(self).selected_shape is None,
            final(self).width == old(self).width,
            final(self).height == old(self).height,
            final(self).mode == old(self).mode,
            final(self).selection == old(self).selection,
            final(self).tool == old(self).tool,
            final(self).shapes@ == old(self).shapes@,
            final(self).ocr_running == old(self).ocr_running,
            final(self).translation_running == old(self).translation_running,
            final(self).active_drag == old(self).active_drag,
    {
        self.ocr_blocks = Vec::new();
        self.ocr_full_text = String::new();
        self.translated_full_text = String::new();
        self.has_translated_image = false;
        self.ocr_selected_block = None;
        self.ocr_status = None;
        self.draft = None;
        self.text_input = None;
        self.selected_shape = None;
    }

    /// Starts annotating `selection`. A different selection drops what
    /// belonged to the old one; the same selection keeps its results and
    /// only drops the shape being drawn, the text being typed and the
    /// selections of a shape or block.
    pub fn enter_annotating_for_selection(&mut self, selection: NormalizedRect)
        requires
            old(self).wf(),
            selection_ok(selection, old(self).width, old(self).height),
        ensures
            final(self).wf(),
            final(self).mode == OverlayMode::Annotating,
            final(self).selection == Some(selection),
            final(self).hover_selection is None,
            final(self).uia_hover_selection is None,
            final(self).tool == AnnotationTool::Mouse,
            final(self).open_text_dropdown is None,
            final(self).active_drag is None,
            final(self).draft is None,
            final(self).text_input is None,
            final(self).selected_shape is None,
            final(self).ocr_selected_block is None,
            final(self).shapes@ == old(self).shapes@,
            old(self).selection != Some(selection) ==> {
                &&& final(self).ocr_blocks@.len() == 0
                &&& final(self).ocr_full_text@.len() == 0
                &&& final(self).translated_full_text@.len() == 0
                &&& !final(self).has_translated_image
                &&& final(self).ocr_status is None
            },
            old(self).selection == Some(selection) ==> {
                &&& final(self).ocr_blocks@ == old(self).ocr_blocks@
                &&& final(self).ocr_full_text@ == old(self).ocr_full_text@
                &&& final(self).translated_full_text@ == old(self).translated_full_text@
                &&& final(self).has_translated_image == old(self).has_translated_image
                &&& final(self).ocr_status == old(self).ocr_status
            },
    {
        let same = match self.selection {
            Some(current) => current == selection,
            None => false,
        };
        if !same {
            self.clear_selection_bound_content();
        } else {
            self.draft = None;
            self.text_input = None;
            self.selected_shape = None;
            self.ocr_selected_block = None;
        }
        self.mode = OverlayMode::Annotating;
        self.selection = Some(selection);
        self.hover_selection = None;
        self.uia_hover_selection = None;
        self.tool = AnnotationTool::Mouse;
        self.open_text_dropdown = None;
        self.active_drag = None;
    }

    /// Goes back to choosing a selection: the current one is offered as the
    /// hovered one, and the tool, drags and shape or block selections reset.
    pub fn step_back_to_selecting(&mut self)
        requires
            old(self).wf(),
        ensures
            final(self).wf(),
            final(self).mode == OverlayMode::Selecting,
            final(self).hover_selection == old(self).selection,
            final(self).selection == old(self).selection,
            final(self).uia_hover_selection is None,
            final(self).tool == AnnotationTool::Mouse,
            final(self).draft is None,
            final(self).selected_shape is None,
            final(self).ocr_selected_block is None,
            final(self).open_text_dropdown is None,
            final(self).active_drag is None,
            final(self).shapes@ == old(self).shapes@,
            final(self).ocr_blocks@ == old(self).ocr_blocks@,
            final(self).text_input == old(self).text_input,
    {
        self.mode = OverlayMode::Selecting;
        self.hover_selection = self.selection;
        self.uia_hover_selection = None;
        self.tool = AnnotationTool::Mouse;
        self.draft = None;
        self.selected_shape = None;
        self.ocr_selected_block = None;
        self.open_text_dropdown = None;
        self.active_drag = None;
    }
}

impl OverlayState {
    /// The cursor over the overlay at the last cursor position: a crosshair
    /// while selecting; a hand over a button or, with the mouse or select
    /// tool, over a recognised block; a text cursor while typing; then what
    /// the drag in progress or the hovered handle calls for; a crosshair in
    /// the selection with a drawing tool; an arrow elsewhere.
    pub open spec fn cursor_spec(&self) -> CursorKind {
        let p = self.last_cursor;
        let pointing_tool = self.tool == AnnotationTool::Mouse || self.tool == AnnotationTool::Select;
        if self.mode == OverlayMode::Selecting {
            CursorKind::Crosshair
        } else if self.toolbar_action_spec(p) is Some {
            CursorKind::Hand
        } else if pointing_tool && self.ocr_block_at_spec(p) is Some {
            CursorKind::Hand
        } else if self.text_input is Some {
            CursorKind::Text
        } else if self.active_drag is Some {
            match self.active_drag.unwrap() {
                ActiveDrag::Selecting { .. } | ActiveDrag::Drafting => CursorKind::Crosshair,
                ActiveDrag::MoveSelection { .. } | ActiveDrag::MoveShape { .. } => CursorKind::Move,
                ActiveDrag::ResizeSelection { handle, .. } => handle.cursor_kind_spec(),
                ActiveDrag::ResizeShape { handle, .. } => handle.cursor_kind_spec(),
                ActiveDrag::AdjustStyleControl => CursorKind::Hand,
            }
        } else if self.hover_action_spec(p) is Some {
            match self.hover_action_spec(p).unwrap() {
                CanvasHoverAction::ResizeSelection(handle) => handle.cursor_kind_spec(),
                CanvasHoverAction::ResizeShape(handle) => handle.cursor_kind_spec(),
                CanvasHoverAction::MoveSelection | CanvasHoverAction::MoveShape(_) => CursorKind::Move,
            }
        } else if !pointing_tool && self.point_in_selection_spec(p) {
            CursorKind::Crosshair
        } else {
            CursorKind::Arrow
        }
    }

    /// The cursor to show now, as `cursor_spec` describes it.
    pub fn current_cursor(&self) -> (r: CursorKind)
        requires
            self.wf(),
        ensures
            r == self.cursor_spec(),
    {
        if self.mode == OverlayMode::Selecting {
            return CursorKind::Crosshair;
        }
        let p = self.last_cursor;
        if self.toolbar_action_at(p).is_some() {
            return CursorKind::Hand;
        }
        let pointing_tool = match self.tool {
            AnnotationTool::Mouse | AnnotationTool::Select => true,
            _ => false,
        };
        if pointing_tool && self.ocr_block_at(p).is_some() {
            return CursorKind::Hand;
        }
        if self.text_input.is_some() {
            return CursorKind::Text;
        }
        match &self.active_drag {
            Some(drag) => {
                return match drag {
                    ActiveDrag::Selecting { .. } | ActiveDrag::Drafting => CursorKind::Crosshair,
                    ActiveDrag::MoveSelection { .. } | ActiveDrag::MoveShape { .. } => CursorKind::Move,
                    ActiveDrag::ResizeSelection { handle, .. } => handle.cursor_kind(),
                    ActiveDrag::ResizeShape { handle, .. } => handle.cursor_kind(),
                    ActiveDrag::AdjustStyleControl => CursorKind::Hand,
                };
            },
            None => {},
        }
        match self.hover_action_at(p) {
            Some(action) => {
                return match action {
                    CanvasHoverAction::ResizeSelection(handle) => handle.cursor_kind(),
                    CanvasHoverAction::ResizeShape(handle) => handle.cursor_kind(),
                    CanvasHoverAction::MoveSelection | CanvasHoverAction::MoveShape(_) => CursorKind::Move,
                };
            },
            None => {},
        }
        if !pointing_tool && self.point_in_selection(p) {
            CursorKind::Crosshair
        } else {
            CursorKind::Arrow
        }
    }
}

} // verus!
