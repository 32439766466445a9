use opencapt::overlay::types::CursorKind;
use opencapt::annotate::cli::{editor_args, AnnotateCli, AnnotateCliError, EditorPlacement};
use opencapt::annotate::canvas::{CanvasEvent, EditorCanvas, EditorHover};
use opencapt::annotate::shapes::{
    AnnotationShape, AnnotationTool, DraftShape, ImagePoint, NormalizedRect, ResizeHandle,
    ShapeStyle, COLOR_PRESETS, MIN_RESIZE_SIDE,
};

fn args(items: &[&str]) -> Vec<String> {
    items.iter().map(|s| s.to_string()).collect()
}

fn style() -> ShapeStyle {
    ShapeStyle {
        color: COLOR_PRESETS[0],
        stroke: 2,
    }
}

#[test]
fn parse_cli_requires_input_and_output() {
    let cli = AnnotateCli::parse(args(&["--input", "in.png", "--output", "out.png"]))
        .expect("cli should parse");
    assert_eq!(cli.input, "in.png");
    assert_eq!(cli.output, "out.png");
}

#[test]
fn draft_rejects_tiny_rectangle() {
    let draft = DraftShape {
        tool: AnnotationTool::Rectangle,
        start: ImagePoint { x: 10, y: 10 },
        current: ImagePoint { x: 11, y: 11 },
        style: style(),
    };
    assert!(draft.to_shape().is_none());
}

#[test]
fn draft_accepts_arrow_with_distance() {
    let draft = DraftShape {
        tool: AnnotationTool::Arrow,
        start: ImagePoint { x: 10, y: 10 },
        current: ImagePoint { x: 40, y: 24 },
        style: style(),
    };
    assert!(matches!(
        draft.to_shape(),
        Some(AnnotationShape::Arrow { .. })
    ));
}

#[test]
fn rectangle_hit_test_prefers_border_until_selected() {
    let shape = AnnotationShape::Rectangle {
        start: ImagePoint { x: 20, y: 20 },
        end: ImagePoint { x: 80, y: 60 },
        style: style(),
    };

    assert!(shape.hit_test(ImagePoint { x: 20, y: 32 }, false));
    assert!(!shape.hit_test(ImagePoint { x: 50, y: 40 }, false));
    assert!(shape.hit_test(ImagePoint { x: 50, y: 40 }, true));
}

#[test]
fn translated_shape_clamps_to_image_bounds() {
    let shape = AnnotationShape::Rectangle {
        start: ImagePoint { x: 10, y: 10 },
        end: ImagePoint { x: 40, y: 30 },
        style: style(),
    };

    let moved = shape.translated_clamped(-50, 100, 64, 64);
    let bounds = moved.bounds();
    assert_eq!(bounds.left, 0);
    assert_eq!(bounds.bottom, 63);
}

#[test]
fn east_resize_handle_respects_minimum_width_and_bounds() {
    let rect = NormalizedRect {
        left: 20,
        top: 10,
        right: 40,
        bottom: 30,
    };
    let shrunk = ResizeHandle::East.resized_rect(rect, ImagePoint { x: 18, y: 20 }, 63, 63);
    assert_eq!(shrunk.right - shrunk.left, MIN_RESIZE_SIDE);

    let expanded = ResizeHandle::East.resized_rect(rect, ImagePoint { x: 99, y: 20 }, 63, 63);
    assert_eq!(expanded.right, 63);
}

#[test]
fn cli_reads_placement_flags() {
    let cli = AnnotateCli::parse(args(&[
        "--input", "a.png", "--output", "b.png", "--screen-x", "-5", "--screen-y", "7",
        "--monitor-x", "0", "--monitor-y", "0", "--monitor-width", "1920",
        "--monitor-height", "1080", "--scale-milli", "1250",
    ]))
    .expect("cli should parse");
    let placement = cli.placement.expect("placement expected");
    assert_eq!(placement.screen_x, -5);
    assert_eq!(placement.screen_y, 7);
    assert_eq!(placement.monitor_width, 1920);
    assert_eq!(placement.scale_milli, 1250);
}

#[test]
fn cli_without_output_is_rejected() {
    let r = AnnotateCli::parse(args(&["--input", "in.png"]));
    assert!(r.is_err());
}

#[test]
fn cli_unknown_flag_is_rejected() {
    let r = AnnotateCli::parse(args(&["--input", "a", "--output", "b", "--bogus"]));
    assert!(matches!(r, Err(AnnotateCliError::UnexpectedArgument { index: 4 })));
}

#[test]
fn rectangle_from_points_is_order_independent() {
    let a = NormalizedRect::from_points(ImagePoint { x: 40, y: 5 }, ImagePoint { x: 10, y: 30 })
        .expect("rect");
    let b = NormalizedRect::from_points(ImagePoint { x: 10, y: 30 }, ImagePoint { x: 40, y: 5 })
        .expect("rect");
    assert_eq!(a, b);
    assert_eq!((a.left, a.top, a.right, a.bottom), (10, 5, 40, 30));
    assert_eq!(a.width(), 30);
    assert_eq!(a.height(), 25);
}

#[test]
fn translation_without_clamp_moves_both_points() {
    let shape = AnnotationShape::Arrow {
        start: ImagePoint { x: 1, y: 2 },
        end: ImagePoint { x: 30, y: 40 },
        style: style(),
    };
    let moved = shape.translated(5, -2);
    let b = moved.bounds();
    assert_eq!((b.left, b.top, b.right, b.bottom), (6, 0, 35, 38));
}

#[test]
fn arrow_hit_test_uses_distance_to_segment() {
    let shape = AnnotationShape::Arrow {
        start: ImagePoint { x: 0, y: 0 },
        end: ImagePoint { x: 100, y: 0 },
        style: style(),
    };
    assert!(shape.hit_test(ImagePoint { x: 50, y: 3 }, false));
    assert!(!shape.hit_test(ImagePoint { x: 50, y: 30 }, false));
}

#[test]
fn resize_handle_cursor_icons_match_expected_axes() {
    assert_eq!(ResizeHandle::NorthWest.cursor_icon(), CursorKind::ResizeNwSe);
    assert_eq!(ResizeHandle::SouthWest.cursor_icon(), CursorKind::ResizeNeSw);
    assert_eq!(ResizeHandle::East.cursor_icon(), CursorKind::ResizeHorizontal);
    assert_eq!(ResizeHandle::South.cursor_icon(), CursorKind::ResizeVertical);
}

#[test]
fn editor_args_parse_back_to_the_placement() {
    let placement = EditorPlacement {
        screen_x: -1920,
        screen_y: 40,
        monitor_x: -1920,
        monitor_y: 0,
        monitor_width: 1920,
        monitor_height: 1080,
        scale_milli: 1250,
    };
    let args = editor_args("C:\\tmp\\in.png", "C:\\tmp\\out.png", placement);
    assert_eq!(args[4], "--screen-x");
    assert_eq!(args[5], "-1920");
    assert_eq!(args[17], "1250");
    let cli = AnnotateCli::parse(args).unwrap();
    assert_eq!(cli.input, "C:\\tmp\\in.png");
    assert_eq!(cli.output, "C:\\tmp\\out.png");
    assert_eq!(cli.placement, Some(placement));
}

#[test]
fn editor_args_parse_back_in_any_order() {
    let placement = EditorPlacement {
        screen_x: 5,
        screen_y: -6,
        monitor_x: 0,
        monitor_y: -1080,
        monitor_width: 2560,
        monitor_height: 1440,
        scale_milli: 1500,
    };
    let args = editor_args("in.png", "out.png", placement);
    let pairs: Vec<(String, String)> = args.chunks(2).map(|c| (c[0].clone(), c[1].clone())).collect();
    let order = [8, 3, 0, 6, 1, 5, 2, 7, 4];
    let mut shuffled = Vec::new();
    for &k in &order {
        shuffled.push(pairs[k].0.clone());
        shuffled.push(pairs[k].1.clone());
    }
    let cli = AnnotateCli::parse(shuffled).unwrap();
    assert_eq!(cli.input, "in.png");
    assert_eq!(cli.output, "out.png");
    assert_eq!(cli.placement, Some(placement));
}

fn canvas_at(width: u32, height: u32) -> EditorCanvas {
    EditorCanvas {
        image_width: width,
        image_height: height,
        tool: AnnotationTool::Rectangle,
        style: ShapeStyle { color: [239, 68, 68, 255], stroke: 2 },
        shapes: Vec::new(),
        selected_shape: None,
        move_drag: None,
        resize_drag: None,
        draft: None,
    }
}

fn pt(x: i32, y: i32) -> Option<ImagePoint> {
    Some(ImagePoint { x, y })
}

#[test]
fn canvas_draws_selects_moves_and_resizes() {
    let mut c = canvas_at(100, 80);
    c.handle_canvas_event(CanvasEvent::DragStart { point: pt(10, 10), hover: None });
    assert!(c.draft.is_some());
    c.handle_canvas_event(CanvasEvent::Drag { point: pt(50, 40) });
    c.handle_canvas_event(CanvasEvent::DragStop { point: pt(50, 40) });
    assert_eq!(c.shapes.len(), 1);
    assert_eq!(c.selected_shape, Some(0));
    assert!(c.draft.is_none());

    c.handle_canvas_event(CanvasEvent::Click { point: pt(90, 70) });
    assert_eq!(c.selected_shape, None);
    c.handle_canvas_event(CanvasEvent::Click { point: pt(10, 25) });
    assert_eq!(c.selected_shape, Some(0));

    c.handle_canvas_event(CanvasEvent::DragStart { point: pt(10, 25), hover: Some(EditorHover::MoveShape(0)) });
    c.handle_canvas_event(CanvasEvent::Drag { point: pt(20, 30) });
    c.handle_canvas_event(CanvasEvent::DragStop { point: pt(20, 30) });
    match c.shapes[0] {
        AnnotationShape::Rectangle { start, end, .. } => {
            assert_eq!((start.x, start.y, end.x, end.y), (20, 15, 60, 45));
        }
        _ => panic!("not a rectangle"),
    }

    c.handle_canvas_event(CanvasEvent::DragStart { point: pt(60, 45), hover: Some(EditorHover::Resize(ResizeHandle::SouthEast)) });
    assert!(c.resize_drag.is_some());
    c.handle_canvas_event(CanvasEvent::DragStop { point: pt(99, 79) });
    match c.shapes[0] {
        AnnotationShape::Rectangle { start, end, .. } => {
            assert_eq!((start.x, start.y, end.x, end.y), (20, 15, 99, 79));
        }
        _ => panic!("not a rectangle"),
    }
    assert!(c.resize_drag.is_none());
    assert_eq!(c.shapes.len(), 1);
}

#[test]
fn canvas_drops_drafts_too_small_to_keep() {
    let mut c = canvas_at(100, 80);
    c.handle_canvas_event(CanvasEvent::DragStart { point: pt(10, 10), hover: None });
    c.handle_canvas_event(CanvasEvent::DragStop { point: pt(11, 30) });
    assert!(c.shapes.is_empty());
    assert!(c.draft.is_none());
}

#[test]
fn shape_sticking_out_is_moved_back_onto_the_image() {
    let shape = AnnotationShape::Rectangle {
        start: ImagePoint { x: -5, y: 50 },
        end: ImagePoint { x: 10, y: 70 },
        style: ShapeStyle { color: COLOR_PRESETS[0], stroke: 2 },
    };
    match shape.translated_clamped(0, 0, 64, 64) {
        AnnotationShape::Rectangle { start, end, .. } => {
            assert_eq!((start.x, start.y, end.x, end.y), (0, 43, 15, 63));
        }
        _ => panic!("not a rectangle"),
    }
}
