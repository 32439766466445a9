use opencapt::capture::UiCaptureKind;
use opencapt::icons::{blend_rgb, blit_icon_mask, CacheLookup, IconCache, IconId, IconRasterKey, RasterizedIcon};
use opencapt::lifecycle::{app_step, selection_opened, should_exit, AppAction, AppEvent, AppState};
use opencapt::notification::{notification_layout, scale_for_dpi, WorkArea};
use opencapt::output::{build_capture_filename, dated_output_dir, CalendarDate, LocalTimestamp};
use opencapt::startup::{parse_startup_mode, registry_status_ok, sync_launch_at_startup, to_wide, StartupChange, StartupMode};
use opencapt::tray::{resolve_action, tray_action_label, TrayAction};
use opencapt::overlay::mosaic::{draw_mosaic_rect, mosaic_block_size};
use opencapt::overlay::types::{NormalizedRect, ShapeStyle};
use opencapt::overlay::draw::{fill_rect, inset_rect, ocr_overlay_bg_color, opaque_frame_from_image, rounded_rect_radius};
use opencapt::overlay::types::IntRect;
use opencapt::pin::{
        argb, blend_argb, blit_argb, draw_shadow, pin_command_of, pin_layout, recenter_after_scale,
        rgba_to_layered_pixels, PinCommand,
    };

#[test]
fn notification_layout_is_bottom_centered_and_dpi_scaled() {
    let work_area = WorkArea { left: 100, top: 50, right: 2020, bottom: 1130 };

    let normal = notification_layout(work_area, 96);
    assert_eq!(normal.width, 220);
    assert_eq!(normal.height, 56);
    assert_eq!(normal.left, 950);
    assert_eq!(normal.top, 1026);

    let scaled = notification_layout(work_area, 144);
    assert_eq!(scaled.width, 330);
    assert_eq!(scaled.height, 84);
    assert_eq!(scaled.left, 895);
    assert_eq!(scaled.top, 974);
}

#[test]
fn dpi_scaling_floors_at_96_and_saturates() {
    assert_eq!(scale_for_dpi(48, 10), 48);
    assert_eq!(scale_for_dpi(-7, 192), -14);
    assert_eq!(scale_for_dpi(i32::MAX, 192), i32::MAX / 96);
}

fn stamp() -> LocalTimestamp {
    LocalTimestamp {
        date: CalendarDate { year: 2026, month: 3, day: 20 },
        hour: 15,
        minute: 4,
        second: 5,
        nanosecond: 123_000_000,
    }
}

#[test]
fn capture_filename_matches_expected_shape() {
    assert_eq!(build_capture_filename(stamp()), "OpenCapt_20260320_150405_123.png");
}

#[test]
fn capture_filename_pads_years_and_leap_seconds() {
    let mut now = stamp();
    now.date.year = 812;
    now.nanosecond = 1_007_000_000;
    assert_eq!(build_capture_filename(now), "OpenCapt_08120320_150405_007.png");
    now.date.year = 12345;
    assert_eq!(build_capture_filename(now), "OpenCapt_+123450320_150405_007.png");
    now.date.year = -3;
    assert_eq!(build_capture_filename(now), "OpenCapt_-00030320_150405_007.png");
}

#[test]
fn dated_dir_uses_day_partition() {
    let dir = dated_output_dir(r"C:\Shots", CalendarDate { year: 2026, month: 3, day: 20 });
    assert!(dir.starts_with(r"C:\Shots"));
    assert!(dir.ends_with("2026-03-20"));
    let separator = &dir[r"C:\Shots".len()..dir.len() - "2026-03-20".len()];
    assert!(separator == "/" || separator == "\\");
}

#[test]
fn app_events_drive_the_capture_cycle() {
    assert_eq!(app_step(AppState::Idle, AppEvent::Hotkey { matches: true }), (AppState::Capturing, AppAction::StartSelection));
    assert_eq!(app_step(AppState::Idle, AppEvent::Hotkey { matches: false }), (AppState::Idle, AppAction::Nothing));
    assert_eq!(app_step(AppState::Selecting, AppEvent::Hotkey { matches: true }), (AppState::Selecting, AppAction::Nothing));
    assert_eq!(
        app_step(AppState::Idle, AppEvent::Tray(TrayAction::CaptureControl)),
        (AppState::Capturing, AppAction::CaptureUiElement(UiCaptureKind::Control))
    );
    assert_eq!(app_step(AppState::Capturing, AppEvent::Tray(TrayAction::OpenSettings)), (AppState::Capturing, AppAction::OpenSettings));
    assert_eq!(app_step(AppState::Selecting, AppEvent::Tray(TrayAction::Exit)), (AppState::Exiting, AppAction::ShutDown));
    assert_eq!(app_step(AppState::Selecting, AppEvent::OverlayCompleted), (AppState::Idle, AppAction::ProcessCapture));
    assert_eq!(app_step(AppState::Selecting, AppEvent::OverlayPinned), (AppState::Idle, AppAction::ShowPin));
    assert_eq!(app_step(AppState::Selecting, AppEvent::OverlayCancelled), (AppState::Idle, AppAction::Nothing));
    assert_eq!(app_step(AppState::Idle, AppEvent::LoopDestroyed), (AppState::Exiting, AppAction::Nothing));
    assert_eq!(selection_opened(true), AppState::Selecting);
    assert_eq!(selection_opened(false), AppState::Idle);
    assert!(should_exit(AppState::Exiting));
    assert!(!should_exit(AppState::Capturing));
}

#[test]
fn tray_menu_labels_and_positions() {
    assert_eq!(tray_action_label(TrayAction::Capture), "截图");
    assert_eq!(tray_action_label(TrayAction::Exit), "退出");
    assert_eq!(resolve_action(4), Some(TrayAction::OpenSaveDir));
    assert_eq!(resolve_action(7), None);
}

#[test]
fn startup_mode_and_run_key() {
    let args = |v: &[&str]| v.iter().map(|s| s.to_string()).collect::<Vec<_>>();
    assert_eq!(parse_startup_mode(&args(&["opencapt"])), StartupMode::Run);
    assert_eq!(parse_startup_mode(&args(&["opencapt", "settings"])), StartupMode::Settings);
    assert_eq!(parse_startup_mode(&args(&["opencapt", "overlay-test", "x"])), StartupMode::OverlayTest);
    assert_eq!(parse_startup_mode(&args(&["opencapt", "--help"])), StartupMode::Run);
    match sync_launch_at_startup(true, r"C:\Apps\OpenCapt.exe") {
        StartupChange::Register { command } => assert_eq!(command, "\"C:\\Apps\\OpenCapt.exe\""),
        StartupChange::Unregister => panic!("expected a registration"),
    }
    assert!(matches!(sync_launch_at_startup(false, "x"), StartupChange::Unregister));
    assert!(registry_status_ok(2, true));
    assert!(!registry_status_ok(2, false));
    assert_eq!(to_wide("a😀"), vec![0x61, 0xD83D, 0xDE00, 0]);
}

#[test]
fn icon_names_and_keys() {
    assert_eq!(IconId::Confirm.file_name(), "confirm");
    let key = IconRasterKey::new(IconId::Pin, 0, 150);
    assert_eq!(key.size_px, 1);
    assert_ne!(key.code(), IconRasterKey::new(IconId::Pin, 1, 151).code());
    assert_ne!(key.code(), IconRasterKey::new(IconId::Undo, 1, 150).code());
}

#[test]
fn icon_cache_remembers_icons_and_failures() {
    let mut cache = IconCache::new();
    let key = IconRasterKey::new(IconId::Text, 16, 100);
    assert!(matches!(cache.lookup(&key), CacheLookup::Miss));
    let icon = RasterizedIcon { width: 1, height: 1, alpha: vec![7] };
    assert_eq!(cache.record(&key, Ok(icon)).unwrap().alpha, vec![7]);
    assert!(matches!(cache.lookup(&key), CacheLookup::Hit(found) if found.alpha == vec![7]));
    let other = IconRasterKey::new(IconId::Text, 24, 100);
    assert_eq!(cache.record(&other, Err("bad svg".to_string())).unwrap_err(), "bad svg");
    assert!(matches!(cache.lookup(&other), CacheLookup::Failed(message) if message == "bad svg"));
}

#[test]
fn icon_mask_is_centred_and_clipped() {
    assert_eq!(blend_rgb(0x000000, 0xFFFFFF, 128), 0x808080);
    assert_eq!(blend_rgb(0x123456, 0xABCDEF, 255), 0xABCDEF);
    let mut frame = vec![0u32; 16];
    let icon = RasterizedIcon { width: 2, height: 2, alpha: vec![255, 0, 0, 255] };
    blit_icon_mask(&mut frame, 4, 4, 0, 0, 4, 4, &icon, 0xFF0000);
    let mut expected = vec![0u32; 16];
    expected[5] = 0xFF0000;
    expected[10] = 0xFF0000;
    assert_eq!(frame, expected);
    let mut edge = vec![0u32; 4];
    blit_icon_mask(&mut edge, 2, 2, 1, 1, 1, 1, &icon, 0x00FF00);
    assert_eq!(edge, vec![0, 0, 0, 0x00FF00]);
}

#[test]
fn mosaic_paints_blocks_in_their_average() {
    assert_eq!(mosaic_block_size(ShapeStyle { color: 0, stroke: 1 }), 6);
    assert_eq!(mosaic_block_size(ShapeStyle { color: 0, stroke: 99 }), 30);
    let mut frame: Vec<u32> = vec![
        0x000000, 0x0000FF, 0x111111, 0x222222,
        0x0000FF, 0x000000, 0x333333, 0x444444,
        0xFFFFFF, 0xFFFFFF, 0x555555, 0x666666,
    ];
    let original = frame.clone();
    draw_mosaic_rect(&mut frame, 4, 3, NormalizedRect { left: -5, top: 0, right: 2, bottom: 9 }, 1);
    assert_eq!(&frame[0..2], &[0xFF00007F, 0xFF00007F]);
    assert_eq!(&frame[4..6], &[0xFF00007F, 0xFF00007F]);
    assert_eq!(&frame[8..10], &[0xFFFFFFFF, 0xFFFFFFFF]);
    assert_eq!(&frame[2..4], &original[2..4]);
    assert_eq!(&frame[10..12], &original[10..12]);
}

#[test]
fn fill_and_inset_rectangles() {
    let mut frame = vec![0u32; 9];
    fill_rect(&mut frame, 3, 3, IntRect { left: 1, top: -4, right: 9, bottom: 2 }, 0x123456);
    assert_eq!(frame, vec![0, 0xFF123456, 0xFF123456, 0, 0xFF123456, 0xFF123456, 0, 0, 0]);
    let rect = IntRect { left: 0, top: 0, right: 10, bottom: 6 };
    assert_eq!(inset_rect(rect, 3), IntRect { left: 2, top: 2, right: 8, bottom: 4 });
    assert_eq!(inset_rect(rect, -1), rect);
    assert_eq!(rounded_rect_radius(rect, 9), 3);
    assert_eq!(rounded_rect_radius(rect, -2), 0);
    assert_eq!(ocr_overlay_bg_color(0x000000), 0xE8333333);
    assert_eq!(ocr_overlay_bg_color(0xFF0000), 0xE8FF3333);
    assert_eq!(opaque_frame_from_image(&[1, 2, 3, 0, 4, 5, 6, 9, 7]), vec![0xFF010203, 0xFF040506]);
}

#[test]
fn pin_window_layout_and_pixels() {
    let layout = pin_layout(100, 50, 30, 20, true);
    assert_eq!((layout.window_x, layout.window_y, layout.window_width, layout.window_height), (90, 40, 50, 40));
    assert_eq!((layout.image_left, layout.image_top), (10, 10));
    let plain = pin_layout(100, 50, 30, 20, false);
    assert_eq!((plain.window_x, plain.window_width, plain.image_left), (100, 30, 0));
    assert_eq!(recenter_after_scale(100, 50, (30, 20), (61, 10)), (85, 55));
    assert_eq!(pin_command_of(1005), Some(PinCommand::ResetZoom));
    assert_eq!(pin_command_of(0), None);
    assert_eq!(argb(0x80, 1, 2, 3), 0x80010203);
    assert_eq!(blend_argb(0xFF00FF00, 0x00123456), 0xFF00FF00);
    assert_eq!(blend_argb(0xFF00FF00, 0xFF123456), 0xFF123456);
    assert_eq!(blend_argb(0xFFFFFFFF, 0x80000000), 0xFF7F7F7F);
    assert_eq!(rgba_to_layered_pixels(&[255, 128, 0, 128, 9]), vec![0x80804000]);

    let mut window = vec![0u32; 22 * 22];
    let small = pin_layout(0, 0, 2, 2, true);
    draw_shadow(&mut window, 22, 22, small);
    assert_eq!(window[10 * 22 + 10], 0);
    assert_eq!(window[10 * 22 + 9], 0x48000000);
    assert_eq!(window[0], 0x07000000);
    let mut dest = vec![0u32; 9];
    blit_argb(&mut dest, 3, 3, &[1, 2, 3, 4], 1, 1, 2, 2);
    assert_eq!(dest, vec![0, 0, 0, 0, 1, 2, 0, 3, 4]);
}

#[test]
fn icon_coverage_is_averaged_per_block() {
    // A 4 by 2 rendering of a 2 by 1 icon; only the alpha bytes matter.
    let alphas: [u8; 8] = [0, 255, 10, 20, 255, 255, 30, 40];
    let mut source: Vec<u8> = Vec::new();
    for a in alphas {
        source.extend_from_slice(&[1, 2, 3, a]);
    }
    let alpha = opencapt::icons::downsample_alpha(&source, 2, 1, 2);
    assert_eq!(alpha, vec![191, 25]);
    let same = opencapt::icons::downsample_alpha(&source, 4, 2, 1);
    assert_eq!(same, alphas.to_vec());
}

#[test]
fn decorated_pin_window_has_image_and_shadow() {
    let layout = opencapt::pin::pin_layout(0, 0, 1, 1, true);
    let red = [255u8, 0, 0, 255];
    let pixels = opencapt::pin::compose_window_pixels(&red, true, layout);
    let w = layout.window_width as usize;
    assert_eq!(pixels.len(), w * layout.window_height as usize);
    // The one-pixel frame lies on the image's edge, so the image covers it.
    assert_eq!(pixels[10 * w + 10], 0xFFFF0000);
    assert_eq!(pixels[10 * w + 9], 0x48000000);
    assert_eq!(pixels[9 * w + 9], 0x48000000);
    assert_eq!(pixels[10 * w + 8], 0x40000000);
    assert_eq!(pixels[0], 0x07000000);
    let plain = opencapt::pin::compose_window_pixels(&red, false, layout);
    assert_eq!(plain, vec![0xFFFF0000]);
}

#[test]
fn pin_border_follows_the_image_edge() {
    let layout = opencapt::pin::pin_layout(0, 0, 3, 2, true);
    let width = layout.window_width as u32;
    let height = layout.window_height as u32;
    let mut frame = vec![0u32; (width * height) as usize];
    opencapt::pin::draw_border(&mut frame, width, height, layout);
    let painted = frame.iter().filter(|p| **p == opencapt::pin::FRAME_COLOR).count();
    // The frame is the image's edge: all six pixels of a 3 by 2 image.
    assert_eq!(painted, 6);
    assert_eq!(frame[(10 * width + 10) as usize], opencapt::pin::FRAME_COLOR);
    assert_eq!(frame[(9 * width + 9) as usize], 0);
}
