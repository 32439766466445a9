use opencapt::capture::{
    best_ui_selection_candidate_at_point, capture_region, RegionError, UiCaptureKind, UiSelectionCandidate,
};
use opencapt::raster::{crop_frame, selection_png, RgbaFrame};
use opencapt::geometry::SelectionRect;

fn candidate(
    x: i32,
    y: i32,
    width: u32,
    height: u32,
    kind: UiCaptureKind,
    z_order: u32,
) -> UiSelectionCandidate {
    UiSelectionCandidate {
        rect: SelectionRect {
            x,
            y,
            width,
            height,
        },
        kind,
        z_order,
        area: width as u64 * height as u64,
    }
}

#[test]
fn prefers_smallest_candidate() {
    let candidates = vec![
        candidate(0, 0, 400, 300, UiCaptureKind::Window, 0),
        candidate(20, 20, 80, 60, UiCaptureKind::Control, 0),
    ];

    let hit =
        best_ui_selection_candidate_at_point(&candidates, 40, 40).expect("candidate expected");
    assert_eq!(hit.rect.width, 80);
    assert_eq!(hit.rect.height, 60);
    assert_eq!(hit.kind, UiCaptureKind::Control);
}

#[test]
fn prefers_control_when_area_tied() {
    let candidates = vec![
        candidate(0, 0, 200, 100, UiCaptureKind::Window, 0),
        candidate(0, 0, 200, 100, UiCaptureKind::Control, 0),
    ];

    let hit =
        best_ui_selection_candidate_at_point(&candidates, 100, 50).expect("candidate expected");
    assert_eq!(hit.kind, UiCaptureKind::Control);
}

#[test]
fn prefers_frontmost_when_kind_and_area_tied() {
    let candidates = vec![
        candidate(0, 0, 200, 100, UiCaptureKind::Control, 4),
        candidate(0, 0, 200, 100, UiCaptureKind::Control, 1),
    ];

    let hit =
        best_ui_selection_candidate_at_point(&candidates, 100, 50).expect("candidate expected");
    assert_eq!(hit.z_order, 1);
}

#[test]
fn no_candidate_contains_point() {
    let candidates = vec![candidate(0, 0, 10, 10, UiCaptureKind::Window, 0)];
    assert!(best_ui_selection_candidate_at_point(&candidates, 10, 5).is_none());
    assert!(best_ui_selection_candidate_at_point(&[], 0, 0).is_none());
}

#[test]
fn selection_rect_from_coords_normalizes_and_rejects_empty() {
    let r = SelectionRect::from_coords(30, 40, 10, 20).expect("rect");
    assert_eq!((r.x, r.y, r.width, r.height), (10, 20, 20, 20));
    assert!(SelectionRect::from_coords(5, 5, 5, 9).is_none());
    assert!(r.contains(10, 20));
    assert!(!r.contains(30, 40));
}

#[test]
fn window_edges_give_a_screen_rect() {
    assert_eq!(
        opencapt::capture::screen_rect_from_edges(-10, 5, 90, 45),
        Ok(opencapt::capture::ScreenRect { x: -10, y: 5, width: 100, height: 40 })
    );
    let empty = opencapt::capture::screen_rect_from_edges(10, 5, 10, 45).unwrap_err();
    assert_eq!(
        empty.message(),
        "window rectangle has no size: left=10, top=5, right=10, bottom=45"
    );
    let negative = opencapt::capture::screen_rect_from_edges(-3, -4, -5, -6).unwrap_err();
    assert_eq!(
        negative.message(),
        "window rectangle has no size: left=-3, top=-4, right=-5, bottom=-6"
    );
}

#[test]
fn screen_rect_is_clipped_to_the_monitor() {
    let monitor = opencapt::capture::MonitorArea { origin_x: 1920, origin_y: 0, width: 1280, height: 1024 };
    let rect = opencapt::capture::ScreenRect { x: 1800, y: -20, width: 300, height: 100 };
    let selection = opencapt::capture::selection_from_screen_rect(rect, monitor).unwrap();
    assert_eq!((selection.x, selection.y, selection.width, selection.height), (0, 0, 180, 80));
    let away = opencapt::capture::ScreenRect { x: 0, y: 0, width: 100, height: 100 };
    let err = opencapt::capture::selection_from_screen_rect(away, monitor).unwrap_err();
    assert_eq!(err, opencapt::capture::UiCaptureError::OutsideMonitor);
    assert_eq!(err.message(), "ui capture target is outside monitor bounds");
}

fn numbered_frame(width: u32, height: u32) -> RgbaFrame {
    let mut rgba = Vec::new();
    for i in 0..(width * height) {
        rgba.extend_from_slice(&[i as u8, 0, 0, 255]);
    }
    RgbaFrame { width, height, rgba }
}

#[test]
fn capture_region_cuts_exact_pixels() {
    let screen = numbered_frame(4, 3);
    let rect = SelectionRect { x: 1, y: 1, width: 2, height: 2 };
    let image = capture_region(&screen, rect).unwrap();
    assert_eq!((image.width, image.height), (2, 2));
    let reds: Vec<u8> = image.rgba.chunks(4).map(|p| p[0]).collect();
    assert_eq!(reds, vec![5, 6, 9, 10]);
}

#[test]
fn capture_region_rejects_bad_rects() {
    let screen = numbered_frame(4, 3);
    let r = |x, y, width, height| capture_region(&screen, SelectionRect { x, y, width, height }).err();
    assert_eq!(r(0, 0, 0, 2), Some(RegionError::NoSize));
    assert_eq!(r(-1, 0, 2, 2), Some(RegionError::NegativeX));
    assert_eq!(r(0, -1, 2, 2), Some(RegionError::NegativeY));
    assert_eq!(r(3, 0, 2, 2), Some(RegionError::OutOfBounds));
    assert_eq!(r(0, 2, 2, 2), Some(RegionError::OutOfBounds));
    assert_eq!(r(2, 1, 2, 2), None);
}

#[test]
fn crop_is_cut_to_the_picture() {
    let screen = numbered_frame(4, 3);
    let image = crop_frame(&screen, 3, 2, 5, 5);
    assert_eq!((image.width, image.height), (1, 1));
    assert_eq!(image.rgba, vec![11, 0, 0, 255]);
    let empty = crop_frame(&screen, 9, 0, 2, 2);
    assert_eq!((empty.width, empty.height), (0, 2));
    assert!(empty.rgba.is_empty());
}

#[test]
fn selection_is_encoded_as_png() {
    let screen = numbered_frame(4, 3);
    let png = selection_png(&screen, -2, 0, 0, 2).unwrap();
    assert_eq!(&png[..8], &[137, 80, 78, 71, 13, 10, 26, 10]);
    let decoded = image::load_from_memory(&png).unwrap().to_rgba8();
    assert_eq!(decoded.dimensions(), (2, 2));
    assert_eq!(decoded.get_pixel(1, 1).0, [5, 0, 0, 255]);
    let collapsed = selection_png(&screen, 1, 1, 1, 1).unwrap();
    let one = image::load_from_memory(&collapsed).unwrap().to_rgba8();
    assert_eq!(one.dimensions(), (1, 1));
    assert_eq!(one.get_pixel(0, 0).0, [5, 0, 0, 255]);
    assert!(selection_png(&screen, 5, 0, 6, 1).is_none());
}
