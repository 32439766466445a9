use opencapt::geometry::SelectionRect;
use opencapt::overlay::pixels::{compose_preview_frame, dim_color, opaque};
use opencapt::overlay::text::{fallback_text_metrics, measure_wrapped_text_styled, text_bounds};
use opencapt::overlay::types::{
    AnnotationShape, AnnotationTool, DraftShape, CursorPoint, FullTextCopyPolicy, NormalizedRect, ShapeStyle, PREVIEW_BRIGHTNESS_PERCENT,
};
use opencapt::config::types::TextFontFamily;

#[test]
fn normalizes_forward_drag() {
    let rect = SelectionRect::from_points(
        CursorPoint { x: 10, y: 20 },
        CursorPoint { x: 110, y: 120 },
    )
    .expect("selection");
    assert_eq!(rect.x, 10);
    assert_eq!(rect.y, 20);
    assert_eq!(rect.width, 100);
    assert_eq!(rect.height, 100);
}

#[test]
fn normalizes_reverse_drag() {
    let rect = SelectionRect::from_points(
        CursorPoint { x: 200, y: 150 },
        CursorPoint { x: 50, y: 100 },
    )
    .expect("selection");
    assert_eq!(rect.x, 50);
    assert_eq!(rect.y, 100);
    assert_eq!(rect.width, 150);
    assert_eq!(rect.height, 50);
}

#[test]
fn fallback_text_metrics_expand_for_multiline_text() {
    let style = ShapeStyle {
        color: 0xffffff,
        stroke: 4,
    };
    let metrics = fallback_text_metrics("A\nBC", style, false);
    assert_eq!(metrics.line_count, 2);
    assert!(metrics.total_height > metrics.line_height);
    assert!(metrics.max_width >= metrics.last_line_width);
}

#[test]
fn text_bounds_use_multiline_height() {
    let style = ShapeStyle {
        color: 0xffffff,
        stroke: 2,
    };
    let single = text_bounds(CursorPoint { x: 10, y: 10 }, "Hello", style);
    let multi = text_bounds(CursorPoint { x: 10, y: 10 }, "Hello\nWorld", style);
    assert!(multi.height() > single.height());
}

#[test]
fn full_text_copy_policy_links_copy_and_exit_independently() {
    let manual_exit = FullTextCopyPolicy {
        copy_on_completion: false,
        exit_after_copy: true,
    };
    assert!(!manual_exit.should_copy_on_completion());
    assert!(manual_exit.should_exit(true));
    assert!(!manual_exit.should_exit(false));

    let automatic_stay = FullTextCopyPolicy {
        copy_on_completion: true,
        exit_after_copy: false,
    };
    assert!(automatic_stay.should_copy_on_completion());
    assert!(!automatic_stay.should_exit(true));

    let automatic_exit = FullTextCopyPolicy {
        copy_on_completion: true,
        exit_after_copy: true,
    };
    assert!(automatic_exit.should_copy_on_completion());
    assert!(automatic_exit.should_exit(true));

    let manual_stay = FullTextCopyPolicy {
        copy_on_completion: false,
        exit_after_copy: false,
    };
    assert!(!manual_stay.should_copy_on_completion());
    assert!(!manual_stay.should_exit(true));
}

#[test]
fn preview_composition_restores_selection_pixels() {
    let source = vec![0x112233, 0x445566, 0x778899, 0xaabbcc];
    let mut destination = vec![0; 4];
    compose_preview_frame(
        &source,
        &mut destination,
        2,
        2,
        Some(SelectionRect {
            x: 1,
            y: 0,
            width: 1,
            height: 2,
        }),
    );
    assert_eq!(
        destination[0],
        opaque(dim_color(source[0], PREVIEW_BRIGHTNESS_PERCENT))
    );
    assert_eq!(destination[1], opaque(source[1]));
    assert_eq!(
        destination[2],
        opaque(dim_color(source[2], PREVIEW_BRIGHTNESS_PERCENT))
    );
    assert_eq!(destination[3], opaque(source[3]));
}

#[test]
fn pixel_helpers_have_exact_values() {
    assert_eq!(opaque(0x112233), 0xff112233);
    assert_eq!(opaque(0x7f112233), 0xff112233);
    assert_eq!(dim_color(0xff_64_c8_0a, 60), 0x3c_78_06);
}

#[test]
fn fallback_metrics_scale_for_style() {
    let style = ShapeStyle { color: 0, stroke: 20 };
    // 5 characters at half of 20 pixels each.
    assert_eq!(fallback_text_metrics("Hello", style, false).max_width, 50);
    assert_eq!(fallback_text_metrics("Hello", style, true).max_width, 54);
    let m = fallback_text_metrics("", style, false);
    assert_eq!(m.line_count, 1);
    assert_eq!(m.max_width, 1);
    assert_eq!(m.total_height, 24);
}

#[test]
fn wrapping_breaks_long_lines_between_characters() {
    let style = ShapeStyle { color: 0, stroke: 20 };
    let layout = measure_wrapped_text_styled("abcdef\n\nxy", style, 30, false, false, TextFontFamily::YaHei);
    assert_eq!(layout.lines, vec!["abc", "def", "", "xy"]);
    assert_eq!(layout.metrics.line_count, 4);
    assert_eq!(layout.metrics.max_width, 30);
    assert_eq!(layout.metrics.last_line_width, 20);
}

#[test]
fn normalized_rect_clamped_move_stays_inside() {
    let rect = NormalizedRect { left: 10, top: 10, right: 30, bottom: 20 };
    let bounds = NormalizedRect { left: 0, top: 0, right: 100, bottom: 50 };
    let moved = rect.translated_clamped(500, -500, bounds);
    assert_eq!(moved, NormalizedRect { left: 80, top: 0, right: 100, bottom: 10 });
}

#[test]
fn region_average_samples_the_clipped_region() {
    let bytes: Vec<u8> = vec![
        10, 20, 30, 255, 20, 30, 40, 255, //
        30, 40, 50, 255, 40, 50, 60, 255,
    ];
    let all = opencapt::overlay::types::IntRect { left: 0, top: 0, right: 2, bottom: 2 };
    assert_eq!(opencapt::overlay::sample::sample_region_avg_color(&bytes, 2, 2, &all), 0x19232D);
    let corner = opencapt::overlay::types::IntRect { left: -5, top: -5, right: 1, bottom: 1 };
    assert_eq!(opencapt::overlay::sample::sample_region_avg_color(&bytes, 2, 2, &corner), 0x0A141E);
    let outside = opencapt::overlay::types::IntRect { left: 5, top: 5, right: 9, bottom: 9 };
    assert_eq!(opencapt::overlay::sample::sample_region_avg_color(&bytes, 2, 2, &outside), 0xF0F0F0);
}

#[test]
fn region_average_steps_over_large_regions() {
    let width: u32 = 24;
    let height: u32 = 1;
    let mut bytes: Vec<u8> = Vec::new();
    for x in 0..width {
        let v = if x % 2 == 0 { 100 } else { 0 };
        bytes.extend_from_slice(&[v, v, v, 255]);
    }
    let rect = opencapt::overlay::types::IntRect { left: 0, top: 0, right: 24, bottom: 1 };
    // With a step of two only the even columns are sampled.
    assert_eq!(
        opencapt::overlay::sample::sample_region_avg_color(&bytes, width, height, &rect),
        0x646464
    );
}

#[test]
fn mouse_message_position_words_are_signed() {
    let p = opencapt::overlay::geometry::point_from_lparam(0x012C_FFFB);
    assert_eq!(p, CursorPoint { x: -5, y: 300 });
    let q = opencapt::overlay::geometry::point_from_lparam(0x7FFF_0001);
    assert_eq!(q, CursorPoint { x: 1, y: 32767 });
}

fn line_ends(shape: &AnnotationShape) -> (i32, i32, i32, i32) {
    match shape {
        AnnotationShape::Line { start, end, .. } => (start.x, start.y, end.x, end.y),
        _ => panic!("not a line"),
    }
}

#[test]
fn moving_a_shape_back_and_by_sums() {
    let style = ShapeStyle { color: 0xff0000, stroke: 3 };
    let line = AnnotationShape::Line {
        start: CursorPoint { x: 10, y: 20 },
        end: CursorPoint { x: 30, y: -40 },
        style,
    };
    assert_eq!(line_ends(&line.translated(0, 0)), (10, 20, 30, -40));
    assert_eq!(line_ends(&line.translated(7, -9).translated(-7, 9)), (10, 20, 30, -40));
    assert_eq!(
        line_ends(&line.translated(5, 6).translated(-2, 3)),
        line_ends(&line.translated(3, 9))
    );
    let far = line.translated(i32::MAX - 30, 0);
    assert_eq!(line_ends(&far).2, i32::MAX);
}

#[test]
fn drafts_become_shapes_by_size() {
    let style = ShapeStyle { color: 0, stroke: 2 };
    let draft = |tool, x: i32, y: i32| DraftShape {
        tool,
        start: CursorPoint { x: 0, y: 0 },
        current: CursorPoint { x, y },
        style,
    };
    assert!(draft(AnnotationTool::Rectangle, 8, 8).to_shape().is_some());
    assert!(draft(AnnotationTool::Rectangle, 7, 100).to_shape().is_none());
    assert!(draft(AnnotationTool::Line, 4, 0).to_shape().is_some());
    assert!(draft(AnnotationTool::Arrow, 2, 3).to_shape().is_none());
    assert!(draft(AnnotationTool::Mosaic, 100_000_000, 100_000_000).to_shape().is_some());
    assert!(draft(AnnotationTool::Text, 50, 50).to_shape().is_none());
}

#[test]
fn moved_shapes_have_shifted_bounds() {
    let style = ShapeStyle { color: 0xff0000, stroke: 3 };
    let line = AnnotationShape::Line {
        start: CursorPoint { x: 10, y: 20 },
        end: CursorPoint { x: 30, y: -40 },
        style,
    };
    let b = line.bounds();
    let m = line.translated(5, 6).bounds();
    assert_eq!((m.left, m.top, m.right, m.bottom), (b.left + 5, b.top + 6, b.right + 5, b.bottom + 6));
    let badge = AnnotationShape::Number { center: CursorPoint { x: 100, y: 100 }, value: 1, style };
    let b = badge.bounds();
    let m = badge.translated(-7, 9).bounds();
    assert_eq!((m.left, m.top, m.right, m.bottom), (b.left - 7, b.top + 9, b.right - 7, b.bottom + 9));
}
