use vstd::prelude::*;

verus! {

/// Size of the "copied" toast at 96 DPI.
pub const BASE_WIDTH: i32 = 220;
pub const BASE_HEIGHT: i32 = 56;
/// Gap between the toast and the bottom of the work area at 96 DPI.
pub const BASE_BOTTOM_MARGIN: i32 = 48;
/// How long the toast stays up.
pub const DISPLAY_DURATION_MS: u32 = 1800;

/// The part of a monitor not covered by the taskbar, in screen pixels.
#[derive(Debug, Clone, Copy, PartialEq, Eq, Structural)]
pub struct WorkArea {
    pub left: i32,
    pub top: i32,
    pub right: i32,
    pub bottom: i32,
}

/// Where the toast window goes.
#[derive(Debug, Clone, Copy, PartialEq, Eq, Structural)]
pub struct NotificationLayout {
    pub left: i32,
    pub top: i32,
    pub width: i32,
    pub height: i32,
}

/// Rust's `/` on integers: the quotient rounded toward zero.
pub open spec fn div_toward_zero(a: int, b: int) -> int {
    if a >= 0 { a / b } else { -((-a) / b) }
}

/// Whether `v` is a value of `i32`.
pub open spec fn fits_i32(v: int) -> bool {
    i32::MIN <= v <= i32::MAX
}

/// `v` clamped to the range of `i32`.
pub open spec fn saturate_i32(v: int) -> int {
    if v > i32::MAX { i32::MAX as int } else if v < i32::MIN { i32::MIN as int } else { v }
}

/// The DPI factor as an `i32`, never below 96.
pub open spec fn dpi_factor(dpi: u32) -> i32 {
    if dpi < 96 { 96i32 } else { dpi as i32 }
}

/// `value * dpi / 96` with the product saturated to `i32`, DPI below 96 read as 96.
pub open spec fn scale_for_dpi_spec(value: i32, dpi: u32) -> int {
    div_toward_zero(saturate_i32(value * dpi_factor(dpi)), 96)
}

/// A length given at 96 DPI, at the monitor's DPI.
pub fn scale_for_dpi(value: i32, dpi: u32) -> (r: i32)
    ensures
        r == scale_for_dpi_spec(value, dpi),
{
    let d: u32 = if dpi < 96 { 96 } else { dpi };
    let factor: i32 = #[verifier::truncate] (d as i32);
    let a: i64 = value as i64;
    let b: i64 = factor as i64;
    assert(-0x4000_0000_0000_0000 <= a * b <= 0x4000_0000_0000_0000) by (nonlinear_arith)
        requires
            -0x8000_0000 <= a <= 0x7fff_ffff,
            -0x8000_0000 <= b <= 0x7fff_ffff,
    ;
    let product: i64 = a * b;
    let saturated: i32 = if product > i32::MAX as i64 {
        i32::MAX
    } else if product < i32::MIN as i64 {
        i32::MIN
    } else {
        product as i32
    };
    saturated / 96
}

/// The toast's box: the DPI-scaled size, centred horizontally in the work
/// area, its bottom edge the scaled margin above the work area's bottom.
pub open spec fn notification_layout_spec(work_area: WorkArea, dpi: u32) -> (int, int, int, int) {
    let width = scale_for_dpi_spec(BASE_WIDTH, dpi);
    let height = scale_for_dpi_spec(BASE_HEIGHT, dpi);
    let margin = scale_for_dpi_spec(BASE_BOTTOM_MARGIN, dpi);
    (
        work_area.left + div_toward_zero(work_area.right - work_area.left - width, 2),
        work_area.bottom - margin - height,
        width,
        height,
    )
}

/// Places the toast for a work area and DPI, on every input where the
/// arithmetic stays within `i32`.
pub fn notification_layout(work_area: WorkArea, dpi: u32) -> (r: NotificationLayout)
    requires
        fits_i32(work_area.right - work_area.left),
        fits_i32(work_area.right - work_area.left - scale_for_dpi_spec(BASE_WIDTH, dpi)),
        fits_i32(work_area.bottom - scale_for_dpi_spec(BASE_BOTTOM_MARGIN, dpi)),
        fits_i32(work_area.bottom - scale_for_dpi_spec(BASE_BOTTOM_MARGIN, dpi)
            - scale_for_dpi_spec(BASE_HEIGHT, dpi)),
        fits_i32(work_area.left + div_toward_zero(
            work_area.right - work_area.left - scale_for_dpi_spec(BASE_WIDTH, dpi), 2)),
    ensures
        (r.left as int, r.top as int, r.width as int, r.height as int)
            == notification_layout_spec(work_area, dpi),
{
    let width = scale_for_dpi(BASE_WIDTH, dpi);
    let height = scale_for_dpi(BASE_HEIGHT, dpi);
    let bottom_margin = scale_for_dpi(BASE_BOTTOM_MARGIN, dpi);
    NotificationLayout {
        left: work_area.left + (work_area.right - work_area.left - width) / 2,
        top: work_area.bottom - bottom_margin - height,
        width,
        height,
    }
}

} // verus!
