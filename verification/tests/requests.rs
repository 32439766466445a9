use opencapt::config::types::{
    default_ocr_profile, default_translation_profile, AnnotationDefaults, OcrConfig, TextFontFamily,
    TranslationConfig, TranslationProviderKind,
};
use opencapt::icons::IconId;
use opencapt::overlay::tooltips::{
    hovered_toolbar_item, style_control_tooltip_text, toolbar_action_icon_id, toolbar_action_tooltip_text,
};
use opencapt::overlay::requests::{CropRegion, PastedImageStatus, PlacedBlock, RequestCheck};
use opencapt::overlay::session::{OcrOverlayBlock, OverlayState};
use opencapt::overlay::toolbar::toolbar_item_fill;
use opencapt::overlay::types::{
    AnnotationShape, AnnotationTool, CursorKind, CursorPoint, NormalizedRect, OverlayMode, ShapeStyle,
    ToolbarAction, DEFAULT_MOSAIC_SIZE,
    DEFAULT_NUMBER_SIZE, DEFAULT_STROKE_WIDTH, DEFAULT_TEXT_SIZE,
};

fn state_with_selection(selection: Option<NormalizedRect>) -> OverlayState {
    OverlayState {
        width: 800,
        height: 600,
        mode: OverlayMode::Annotating,
        selection,
        hover_selection: None,
        uia_hover_selection: None,
        tool: AnnotationTool::Mouse,
        color_index: 4,
        stroke_width: DEFAULT_STROKE_WIDTH,
        text_size: DEFAULT_TEXT_SIZE,
        number_size: DEFAULT_NUMBER_SIZE,
        mosaic_size: DEFAULT_MOSAIC_SIZE,
        text_bold: false,
        text_italic: false,
        text_background: false,
        text_font_family: TextFontFamily::YaHei,
        open_text_dropdown: None,
        ocr_profile_index: 0,
        translation_profile_index: 0,
        ocr_blocks: Vec::new(),
        ocr_full_text: String::new(),
        translated_full_text: String::new(),
        has_translated_image: false,
        ocr_selected_block: None,
        ocr_running: false,
        translation_running: false,
        ocr_status: None,
        shapes: Vec::new(),
        draft: None,
        text_input: None,
        selected_shape: None,
        active_drag: None,
        last_cursor: CursorPoint { x: 0, y: 0 },
        next_number: 1,
        composed_dirty: false,
    }
}

fn selection() -> NormalizedRect {
    NormalizedRect { left: 10, top: 20, right: 110, bottom: 70 }
}

fn block(text: &str, start: (i32, i32), end: (i32, i32)) -> PlacedBlock {
    PlacedBlock {
        source_text: text.to_string(),
        translated_text: None,
        start: CursorPoint { x: start.0, y: start.1 },
        end: CursorPoint { x: end.0, y: end.1 },
    }
}

#[test]
fn ocr_request_is_ready_with_the_selection_crop() {
    let mut state = state_with_selection(Some(selection()));
    let check = state.check_ocr_request(true, 1);
    assert_eq!(
        check,
        RequestCheck::Ready {
            crop: CropRegion { left: 10, top: 20, width: 100, height: 50 },
            ocr_profile: Some(0),
            translation_profile: None,
        }
    );
    assert_eq!(state.ocr_status, None);
}

#[test]
fn ocr_request_is_refused_with_a_reason() {
    let mut state = state_with_selection(Some(selection()));
    assert_eq!(state.check_ocr_request(false, 1), RequestCheck::Refused);
    assert_eq!(state.ocr_status.as_deref(), Some("OCR 已关闭，请在设置中启用"));

    let mut state = state_with_selection(None);
    assert_eq!(state.check_ocr_request(true, 1), RequestCheck::Refused);
    assert_eq!(state.ocr_status.as_deref(), Some("当前没有可用选区"));

    let mut state = state_with_selection(Some(selection()));
    assert_eq!(state.check_ocr_request(true, 0), RequestCheck::Refused);
    assert_eq!(state.ocr_status.as_deref(), Some("未配置 OCR 模型"));
}

#[test]
fn requests_wait_while_one_is_running() {
    let mut state = state_with_selection(Some(selection()));
    state.begin_ocr();
    assert!(state.ocr_running);
    assert_eq!(state.ocr_status.as_deref(), Some("OCR 识别中..."));
    assert_eq!(state.check_ocr_request(true, 1), RequestCheck::Busy);
    let kinds = vec![TranslationProviderKind::OpenAiCompatible];
    assert_eq!(state.check_translation_request(true, &kinds, true, 1), RequestCheck::Busy);
    assert_eq!(state.ocr_status.as_deref(), Some("OCR 识别中..."));
}

#[test]
fn image_translation_needs_no_recognition_profile() {
    let mut state = state_with_selection(Some(selection()));
    let kinds = vec![TranslationProviderKind::BaiduImageTranslate];
    let check = state.check_translation_request(true, &kinds, false, 0);
    assert_eq!(
        check,
        RequestCheck::Ready {
            crop: CropRegion { left: 10, top: 20, width: 100, height: 50 },
            ocr_profile: None,
            translation_profile: Some(0),
        }
    );
}

#[test]
fn text_translation_needs_recognition() {
    let kinds = vec![TranslationProviderKind::OpenAiCompatible];
    let mut state = state_with_selection(Some(selection()));
    assert_eq!(state.check_translation_request(true, &kinds, false, 1), RequestCheck::Refused);
    assert_eq!(state.ocr_status.as_deref(), Some("OCR 已关闭，请在设置中启用"));

    let mut state = state_with_selection(Some(selection()));
    assert_eq!(state.check_translation_request(true, &Vec::new(), true, 1), RequestCheck::Refused);
    assert_eq!(state.ocr_status.as_deref(), Some("未配置翻译模型"));

    let mut state = state_with_selection(Some(selection()));
    assert_eq!(state.check_translation_request(false, &kinds, true, 1), RequestCheck::Refused);
    assert_eq!(state.ocr_status.as_deref(), Some("翻译已关闭，请在设置中启用"));

    let mut state = state_with_selection(Some(selection()));
    assert_eq!(
        state.check_translation_request(true, &kinds, true, 1),
        RequestCheck::Ready {
            crop: CropRegion { left: 10, top: 20, width: 100, height: 50 },
            ocr_profile: Some(0),
            translation_profile: Some(0),
        }
    );
}

#[test]
fn encoding_failure_names_the_request() {
    let mut state = state_with_selection(Some(selection()));
    state.report_encoding_failure(true);
    assert_eq!(state.ocr_status.as_deref(), Some("翻译输入图片编码失败"));
    state.report_encoding_failure(false);
    assert_eq!(state.ocr_status.as_deref(), Some("OCR 输入图片编码失败"));
}

#[test]
fn ocr_result_keeps_blocks_with_a_box() {
    let mut state = state_with_selection(Some(selection()));
    state.begin_ocr();
    let blocks = vec![
        block("first", (12, 22), (40, 30)),
        block("empty", (50, 50), (50, 60)),
        block("second", (60, 40), (20, 32)),
    ];
    state.apply_ocr_success("first\nsecond".to_string(), &blocks);
    assert!(!state.ocr_running);
    assert_eq!(state.ocr_full_text, "first\nsecond");
    assert_eq!(state.ocr_blocks.len(), 2);
    assert_eq!(state.ocr_blocks[0].source_text, "first");
    assert_eq!(state.ocr_blocks[0].rect, NormalizedRect { left: 12, top: 22, right: 40, bottom: 30 });
    assert_eq!(state.ocr_blocks[1].source_text, "second");
    assert_eq!(state.ocr_blocks[1].rect, NormalizedRect { left: 20, top: 32, right: 60, bottom: 40 });
    assert_eq!(state.ocr_status.as_deref(), Some("OCR 完成：识别 2 个文本块"));
}

#[test]
fn ocr_failure_clears_the_result() {
    let mut state = state_with_selection(Some(selection()));
    state.ocr_blocks.push(OcrOverlayBlock {
        source_text: "old".to_string(),
        translated_text: None,
        rect: selection(),
    });
    state.begin_ocr();
    state.apply_ocr_failure("timeout");
    assert!(!state.ocr_running);
    assert!(state.ocr_blocks.is_empty());
    assert_eq!(state.ocr_status.as_deref(), Some("OCR 失败：timeout"));
}

#[test]
fn translation_result_reports_what_was_used() {
    let mut state = state_with_selection(Some(selection()));
    state.begin_translation(true);
    assert_eq!(state.ocr_status.as_deref(), Some("OCR + 翻译处理中..."));
    let mut translated = block("hello", (12, 22), (40, 30));
    translated.translated_text = Some("你好".to_string());
    let blocks = vec![translated];
    state.apply_translation_success(
        "hello".to_string(),
        "你好".to_string(),
        &blocks,
        false,
        PastedImageStatus::NotRequested,
    );
    assert!(!state.translation_running);
    assert_eq!(state.translated_full_text, "你好");
    assert_eq!(state.ocr_blocks[0].translated_text.as_deref(), Some("你好"));
    assert_eq!(state.ocr_status.as_deref(), Some("翻译完成：生成 1 个文本块译文"));

    let mut state = state_with_selection(Some(selection()));
    state.begin_translation(false);
    assert_eq!(state.ocr_status.as_deref(), Some("图片翻译处理中..."));
    state.apply_translation_success(String::new(), String::new(), &Vec::new(), true, PastedImageStatus::Applied);
    assert!(state.has_translated_image);
    assert_eq!(state.ocr_status.as_deref(), Some("翻译完成：已使用接口返回的译图"));
}

#[test]
fn translation_failure_keeps_recognised_blocks() {
    let mut state = state_with_selection(Some(selection()));
    state.ocr_blocks.push(OcrOverlayBlock {
        source_text: "kept".to_string(),
        translated_text: None,
        rect: selection(),
    });
    state.begin_translation(true);
    state.apply_translation_failure("bad key");
    assert!(!state.translation_running);
    assert_eq!(state.ocr_blocks.len(), 1);
    assert_eq!(state.ocr_status.as_deref(), Some("翻译失败：bad key"));
}

#[test]
fn showing_again_resets_the_overlay() {
    let mut state = state_with_selection(Some(selection()));
    state.begin_ocr();
    state.shapes.push(AnnotationShape::Rectangle {
        start: CursorPoint { x: 10, y: 20 },
        end: CursorPoint { x: 50, y: 60 },
        style: ShapeStyle { color: 0xF14C4C, stroke: 2 },
    });
    state.tool = AnnotationTool::Rectangle;
    let mut defaults = AnnotationDefaults::default();
    defaults.default_color_index = 9;
    defaults.stroke_width = 40;
    defaults.text_size = 3;
    let mut ocr = OcrConfig::default();
    ocr.profiles = vec![default_ocr_profile(0, "a".to_string()), default_ocr_profile(1, "b".to_string())];
    ocr.default_profile_id = "b".to_string();
    let mut translation = TranslationConfig::default();
    translation.profiles = vec![default_translation_profile(0, "x".to_string())];
    translation.default_profile_id = "missing".to_string();
    state.reset_for_show(900, -5, &defaults, &ocr, &translation);
    assert_eq!(state.mode, OverlayMode::Selecting);
    assert_eq!(state.selection, None);
    assert_eq!(state.tool, AnnotationTool::Mouse);
    assert_eq!(state.color_index, 4);
    assert_eq!(state.stroke_width, 16);
    assert_eq!(state.text_size, 14);
    assert_eq!(state.ocr_profile_index, 1);
    assert_eq!(state.translation_profile_index, 0);
    assert!(state.shapes.is_empty());
    assert!(!state.ocr_running);
    assert_eq!(state.ocr_status, None);
    assert_eq!(state.last_cursor, CursorPoint { x: 799, y: 0 });
    assert_eq!(state.next_number, 1);
}

#[test]
fn a_new_selection_drops_the_old_results() {
    let mut state = state_with_selection(Some(selection()));
    state.ocr_blocks.push(OcrOverlayBlock {
        source_text: "old".to_string(),
        translated_text: None,
        rect: selection(),
    });
    state.ocr_status = Some("OCR 完成：识别 1 个文本块".to_string());
    state.enter_annotating_for_selection(selection());
    assert_eq!(state.ocr_blocks.len(), 1);
    assert!(state.ocr_status.is_some());

    let other = NormalizedRect { left: 0, top: 0, right: 50, bottom: 50 };
    state.enter_annotating_for_selection(other);
    assert_eq!(state.mode, OverlayMode::Annotating);
    assert_eq!(state.selection, Some(other));
    assert!(state.ocr_blocks.is_empty());
    assert_eq!(state.ocr_status, None);
}

#[test]
fn stepping_back_offers_the_selection_as_hover() {
    let mut state = state_with_selection(Some(selection()));
    state.tool = AnnotationTool::Arrow;
    state.step_back_to_selecting();
    assert_eq!(state.mode, OverlayMode::Selecting);
    assert_eq!(state.hover_selection, Some(selection()));
    assert_eq!(state.tool, AnnotationTool::Mouse);
}

#[test]
fn cursor_follows_mode_and_tool() {
    let mut state = state_with_selection(Some(selection()));
    state.mode = OverlayMode::Selecting;
    assert_eq!(state.current_cursor(), CursorKind::Crosshair);

    state.mode = OverlayMode::Annotating;
    state.last_cursor = CursorPoint { x: 60, y: 45 };
    assert_eq!(state.current_cursor(), CursorKind::Arrow);
    state.tool = AnnotationTool::Rectangle;
    assert_eq!(state.current_cursor(), CursorKind::Crosshair);
    state.tool = AnnotationTool::Select;
    assert_eq!(state.current_cursor(), CursorKind::Move);
    state.tool = AnnotationTool::Rectangle;
    state.last_cursor = CursorPoint { x: 700, y: 500 };
    assert_eq!(state.current_cursor(), CursorKind::Arrow);
}

#[test]
fn toolbar_tooltips_and_icons() {
    let mut state = state_with_selection(Some(selection()));
    assert_eq!(toolbar_action_icon_id(ToolbarAction::MouseTool), Some(IconId::Mouse));
    assert_eq!(toolbar_action_icon_id(ToolbarAction::OcrRun), None);
    assert_eq!(
        toolbar_action_tooltip_text(&state, ToolbarAction::TextSizeOption(24)).as_deref(),
        Some("字号选项：24")
    );
    assert_eq!(
        toolbar_action_tooltip_text(&state, ToolbarAction::TextFontOption(TextFontFamily::KaiTi)).as_deref(),
        Some("字体选项：楷体")
    );
    assert_eq!(
        toolbar_action_tooltip_text(&state, ToolbarAction::Color(7)).as_deref(),
        Some("颜色")
    );
    state.tool = AnnotationTool::Mosaic;
    assert_eq!(style_control_tooltip_text(&state), "样式：调整马赛克块大小");
    assert_eq!(
        toolbar_action_tooltip_text(&state, ToolbarAction::StyleControl).as_deref(),
        Some("样式：调整马赛克块大小")
    );
}

#[test]
fn no_button_is_hovered_while_selecting() {
    let mut state = state_with_selection(Some(selection()));
    state.mode = OverlayMode::Selecting;
    assert!(hovered_toolbar_item(&state).is_none());
    state.mode = OverlayMode::Annotating;
    state.last_cursor = CursorPoint { x: 700, y: 500 };
    assert!(hovered_toolbar_item(&state).is_none());
}

#[test]
fn escape_cancels_and_drops_the_drag() {
    let mut state = state_with_selection(Some(selection()));
    state.active_drag = Some(opencapt::overlay::types::ActiveDrag::Drafting);
    let r = state.handle_key_down(opencapt::overlay::input::VK_ESCAPE, false, false);
    assert_eq!(r, opencapt::overlay::input::OverlayCommand::Cancel);
    assert!(state.active_drag.is_none());
    assert!(state.draft.is_none());
}

#[test]
fn pressing_with_a_drawing_tool_starts_a_draft() {
    let mut state = state_with_selection(Some(selection()));
    state.tool = AnnotationTool::Rectangle;
    let r = state.handle_mouse_down(CursorPoint { x: 40, y: 40 });
    assert_eq!(r, opencapt::overlay::input::OverlayCommand::CaptureMouse);
    assert!(matches!(state.active_drag, Some(opencapt::overlay::types::ActiveDrag::Drafting)));
    let draft = state.draft.unwrap();
    assert_eq!(draft.start, CursorPoint { x: 40, y: 40 });
}

#[test]
fn toolbar_undo_drops_the_last_shape() {
    let mut state = state_with_selection(Some(selection()));
    state.shapes.push(AnnotationShape::Rectangle {
        start: CursorPoint { x: 10, y: 20 },
        end: CursorPoint { x: 50, y: 60 },
        style: ShapeStyle { color: 0xF14C4C, stroke: 2 },
    });
    state.handle_toolbar_action(ToolbarAction::Undo);
    assert!(state.shapes.is_empty());
}

#[test]
fn toolbar_highlights_follow_the_state() {
    let mut state = state_with_selection(Some(NormalizedRect { left: 10, top: 10, right: 200, bottom: 150 }));
    state.tool = AnnotationTool::Arrow;
    state.ocr_running = true;
    assert!(state.toolbar_item_selected(ToolbarAction::ArrowTool));
    assert!(!state.toolbar_item_selected(ToolbarAction::LineTool));
    assert!(state.toolbar_item_selected(ToolbarAction::Color(4)));
    assert!(!state.toolbar_item_selected(ToolbarAction::Color(3)));
    assert!(state.toolbar_item_selected(ToolbarAction::OcrRun));
    assert!(!state.toolbar_item_selected(ToolbarAction::TranslateRun));
    assert!(!state.toolbar_item_selected(ToolbarAction::Undo));
    assert!(state.toolbar_item_selected(ToolbarAction::TextSizeOption(DEFAULT_TEXT_SIZE)));
    assert_eq!(toolbar_item_fill(true, true), 0x80_2A69F6);
    assert_eq!(toolbar_item_fill(false, true), 0x1F_FFFFFF);
    assert_eq!(toolbar_item_fill(false, false), 0xA0_151A23);
}

#[test]
fn pressing_a_selection_corner_starts_a_resize() {
    let mut state = state_with_selection(Some(selection()));
    state.tool = AnnotationTool::Select;
    let r = state.handle_mouse_down(CursorPoint { x: 110, y: 70 });
    assert_eq!(r, opencapt::overlay::input::OverlayCommand::CaptureMouse);
    assert!(matches!(
        state.active_drag,
        Some(opencapt::overlay::types::ActiveDrag::ResizeSelection { original_rect, .. }) if original_rect == selection()
    ));
}

#[test]
fn pressing_a_shape_selects_it_and_starts_a_move() {
    let mut state = state_with_selection(Some(selection()));
    state.tool = AnnotationTool::Select;
    state.shapes.push(AnnotationShape::Rectangle {
        start: CursorPoint { x: 30, y: 30 },
        end: CursorPoint { x: 60, y: 50 },
        style: ShapeStyle { color: 0xF14C4C, stroke: 2 },
    });
    let r = state.handle_mouse_down(CursorPoint { x: 30, y: 40 });
    assert_eq!(r, opencapt::overlay::input::OverlayCommand::CaptureMouse);
    assert_eq!(state.selected_shape, Some(0));
    assert!(matches!(
        state.active_drag,
        Some(opencapt::overlay::types::ActiveDrag::MoveShape { shape_index: 0, .. })
    ));
}

#[test]
fn releasing_a_drawing_drag_adds_and_selects_the_shape() {
    let mut state = state_with_selection(Some(selection()));
    state.tool = AnnotationTool::Rectangle;
    state.handle_mouse_down(CursorPoint { x: 40, y: 40 });
    state.handle_mouse_move(CursorPoint { x: 80, y: 60 });
    let r = state.handle_mouse_up(CursorPoint { x: 80, y: 60 });
    assert_eq!(r, opencapt::overlay::input::OverlayCommand::Nothing);
    assert_eq!(state.shapes.len(), 1);
    assert_eq!(state.selected_shape, Some(0));
    assert!(state.draft.is_none());
    assert!(state.active_drag.is_none());
}

#[test]
fn pressing_the_slider_sets_the_size() {
    let mut state = state_with_selection(Some(NormalizedRect { left: 100, top: 100, right: 500, bottom: 300 }));
    state.tool = AnnotationTool::Rectangle;
    let rect = state.style_control_rect().expect("slider shown");
    let point = CursorPoint { x: rect.right - 4, y: (rect.top + rect.bottom) / 2 };
    let value = state.style_control_value_from_point(point).expect("on the track");
    let r = state.handle_mouse_down(point);
    assert_eq!(r, opencapt::overlay::input::OverlayCommand::CaptureMouse);
    assert_eq!(state.stroke_width, value);
}

#[test]
fn pressing_the_bold_button_toggles_bold() {
    let mut state = state_with_selection(Some(NormalizedRect { left: 100, top: 100, right: 500, bottom: 300 }));
    state.tool = AnnotationTool::Text;
    let layout = state.toolbar_layout().expect("toolbar shown");
    let item = layout.items.iter().find(|i| i.action == ToolbarAction::TextBoldToggle).expect("bold button");
    let point = CursorPoint { x: (item.rect.left + item.rect.right) / 2, y: (item.rect.top + item.rect.bottom) / 2 };
    assert!(!state.text_bold);
    state.handle_mouse_down(point);
    assert!(state.text_bold);
    assert!(!state.text_italic);
}
