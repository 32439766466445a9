use crate::geometry::{spec_max, spec_min, SelectionRect};
use crate::raster::{clamp_crop, crop_bytes, crop_frame, RgbaFrame};
use crate::remote::{signed_decimal, signed_decimal_spec};
use crate::text::{chars_of, string_from_chars};
use vstd::prelude::*;

verus! {

#[derive(Debug, Clone, Copy, PartialEq, Eq, Structural)]
pub enum UiCaptureKind {
    Window,
    Control,
}

/// A window or control that the cursor may be pointing at, with its stacking
/// position (0 is frontmost) and its area.
#[derive(Debug, Clone, Copy, PartialEq, Eq, Structural)]
pub struct UiSelectionCandidate {
    pub rect: SelectionRect,
    pub kind: UiCaptureKind,
    pub z_order: u32,
    pub area: u64,
}

/// Controls are preferred over windows of the same size.
pub open spec fn kind_priority(kind: UiCaptureKind) -> int {
    match kind {
        UiCaptureKind::Control => 2,
        UiCaptureKind::Window => 1,
    }
}

pub fn candidate_kind_priority(kind: UiCaptureKind) -> (r: u8)
    ensures
        r == kind_priority(kind),
{
    match kind {
        UiCaptureKind::Control => 2,
        UiCaptureKind::Window => 1,
    }
}

/// Half-open containment in a selection rectangle.
pub open spec fn rect_contains(rect: SelectionRect, x: int, y: int) -> bool {
    rect.x <= x < rect.x + rect.width && rect.y <= y < rect.y + rect.height
}

pub fn selection_rect_contains(rect: SelectionRect, x: i32, y: i32) -> (r: bool)
    ensures
        r == rect_contains(rect, x as int, y as int),
{
    let right = rect.x as i64 + rect.width as i64;
    let bottom = rect.y as i64 + rect.height as i64;
    x >= rect.x && (x as i64) < right && y >= rect.y && (y as i64) < bottom
}

/// `a` is preferred to `b`: smaller, then a control over a window, then nearer the front.
pub open spec fn preferred(a: UiSelectionCandidate, b: UiSelectionCandidate) -> bool {
    a.area < b.area || (a.area == b.area && kind_priority(a.kind) > kind_priority(b.kind))
        || (a.area == b.area && a.kind == b.kind && a.z_order < b.z_order)
}

/// The best candidate under `(x, y)` among the first `n`: the first one met
/// that no later one is preferred to.
pub open spec fn best_candidate_spec(c: Seq<UiSelectionCandidate>, n: int, x: int, y: int) -> Option<UiSelectionCandidate>
    decreases n,
{
    if n <= 0 {
        None
    } else {
        let prev = best_candidate_spec(c, n - 1, x, y);
        let cand = c[n - 1];
        if !rect_contains(cand.rect, x, y) {
            prev
        } else {
            match prev {
                None => Some(cand),
                Some(p) => if preferred(cand, p) { Some(cand) } else { prev },
            }
        }
    }
}

/// The candidate to outline under the cursor at `(local_x, local_y)`: among
/// those containing the point, the smallest; on a tie a control before a
/// window; then the frontmost; then the first listed.
pub fn best_ui_selection_candidate_at_point(
    candidates: &[UiSelectionCandidate],
    local_x: i32,
    local_y: i32,
) -> (r: Option<UiSelectionCandidate>)
    ensures
        r == best_candidate_spec(candidates@, candidates@.len() as int, local_x as int, local_y as int),
{
    let mut best: Option<UiSelectionCandidate> = None;
    let mut i: usize = 0;
    while i < candidates.len()
        invariant
            i <= candidates@.len(),
            best == best_candidate_spec(candidates@, i as int, local_x as int, local_y as int),
        decreases candidates@.len() - i,
    {
        let candidate = candidates[i];
        if selection_rect_contains(candidate.rect, local_x, local_y) {
            let take = match best {
                None => true,
                Some(prev) => {
                    candidate.area < prev.area || (candidate.area == prev.area
                        && candidate_kind_priority(candidate.kind) > candidate_kind_priority(prev.kind))
                        || (candidate.area == prev.area && candidate.kind == prev.kind
                        && candidate.z_order < prev.z_order)
                },
            };
            if take {
                best = Some(candidate);
            }
        }
        i = i + 1;
    }
    best
}

/// Preference between candidates is transitive.
proof fn lemma_preferred_transitive(a: UiSelectionCandidate, b: UiSelectionCandidate, c: UiSelectionCandidate)
    requires
        preferred(a, b),
        preferred(b, c),
    ensures
        preferred(a, c),
{
}

/// The outlined candidate is right: there is one exactly when some
/// candidate contains the point; it is one of the candidates, it contains
/// the point, and no candidate containing the point is preferred to it.
pub proof fn lemma_best_candidate_is_best(c: Seq<UiSelectionCandidate>, n: int, x: int, y: int)
    requires
        0 <= n <= c.len(),
    ensures
        best_candidate_spec(c, n, x, y) is None <==> (forall|k: int| 0 <= k < n ==> !rect_contains(#[trigger] c[k].rect, x, y)),
        best_candidate_spec(c, n, x, y) matches Some(b) ==> {
            &&& rect_contains(b.rect, x, y)
            &&& exists|k: int| 0 <= k < n && #[trigger] c[k] == b
            &&& forall|k: int| 0 <= k < n && rect_contains(#[trigger] c[k].rect, x, y) ==> !preferred(c[k], b)
        },
    decreases n,
{
    if n > 0 {
        lemma_best_candidate_is_best(c, n - 1, x, y);
        let prev = best_candidate_spec(c, n - 1, x, y);
        let cand = c[n - 1];
        if rect_contains(cand.rect, x, y) {
            match prev {
                None => {},
                Some(p) => {
                    if preferred(cand, p) {
                        assert forall|k: int| 0 <= k < n && rect_contains(#[trigger] c[k].rect, x, y)
                            implies !preferred(c[k], cand) by {
                            if k < n - 1 && preferred(c[k], cand) {
                                lemma_preferred_transitive(c[k], cand, p);
                            }
                        }
                    }
                },
            }
        }
        if best_candidate_spec(c, n, x, y) is None {
            assert forall|k: int| 0 <= k < n implies !rect_contains(#[trigger] c[k].rect, x, y) by {
                if k == n - 1 {
                }
            }
        }
    }
}

/// A rectangle on the whole screen (all monitors), by its top-left corner
/// and size.
#[derive(Debug, Clone, Copy, PartialEq, Eq, Structural)]
pub struct ScreenRect {
    pub x: i32,
    pub y: i32,
    pub width: u32,
    pub height: u32,
}

/// Where a monitor's captured image lies on the screen.
#[derive(Debug, Clone, Copy, PartialEq, Eq, Structural)]
pub struct MonitorArea {
    pub origin_x: i32,
    pub origin_y: i32,
    pub width: u32,
    pub height: u32,
}

/// Why a window or control could not be captured.
#[derive(Debug, Clone, Copy, PartialEq, Eq, Structural)]
pub enum UiCaptureError {
    /// The window's rectangle, by its edges, has no area.
    EmptyWindowRect { left: i32, top: i32, right: i32, bottom: i32 },
    /// The rectangle does not overlap the monitor it was sampled on.
    OutsideMonitor,
}

pub open spec fn ui_capture_error_text(e: UiCaptureError) -> Seq<char> {
    match e {
        UiCaptureError::EmptyWindowRect { left, top, right, bottom } => "window rectangle has no size: left="@
            + signed_decimal_spec(left as int) + ", top="@ + signed_decimal_spec(top as int) + ", right="@
            + signed_decimal_spec(right as int) + ", bottom="@ + signed_decimal_spec(bottom as int),
        UiCaptureError::OutsideMonitor => "ui capture target is outside monitor bounds"@,
    }
}

impl UiCaptureError {
    /// The error's text.
    pub fn message(&self) -> (r: String)
        ensures
            r@ == ui_capture_error_text(*self),
    {
        match *self {
            UiCaptureError::EmptyWindowRect { left, top, right, bottom } => {
                let mut out = chars_of("window rectangle has no size: left=");
                let mut part = signed_decimal(left as i64);
                out.append(&mut part);
                let mut label = chars_of(", top=");
                out.append(&mut label);
                let mut part = signed_decimal(top as i64);
                out.append(&mut part);
                let mut label = chars_of(", right=");
                out.append(&mut label);
                let mut part = signed_decimal(right as i64);
                out.append(&mut part);
                let mut label = chars_of(", bottom=");
                out.append(&mut label);
                let mut part = signed_decimal(bottom as i64);
                out.append(&mut part);
                string_from_chars(out.as_slice())
            },
            UiCaptureError::OutsideMonitor => String::from_str("ui capture target is outside monitor bounds"),
        }
    }
}

/// The screen rectangle of a window given by its edges; an error when it has
/// no area.
pub fn screen_rect_from_edges(left: i32, top: i32, right: i32, bottom: i32) -> (r: Result<ScreenRect, UiCaptureError>)
    ensures
        right - left <= 0 || bottom - top <= 0 ==> r == Err::<ScreenRect, UiCaptureError>(
            UiCaptureError::EmptyWindowRect { left, top, right, bottom },
        ),
        right - left > 0 && bottom - top > 0 ==> r == Ok::<ScreenRect, UiCaptureError>(
            ScreenRect { x: left, y: top, width: (right - left) as u32, height: (bottom - top) as u32 },
        ),
{
    let width = right as i64 - left as i64;
    let height = bottom as i64 - top as i64;
    if width <= 0 || height <= 0 {
        return Err(UiCaptureError::EmptyWindowRect { left, top, right, bottom });
    }
    Ok(ScreenRect { x: left, y: top, width: width as u32, height: height as u32 })
}

/// The part of a screen rectangle on the monitor, in the monitor's own
/// coordinates; an error when they do not overlap.
pub open spec fn clip_to_monitor_spec(rect: ScreenRect, monitor: MonitorArea) -> Option<SelectionRect> {
    let left = spec_max(rect.x as int, monitor.origin_x as int);
    let top = spec_max(rect.y as int, monitor.origin_y as int);
    let right = spec_min(rect.x + rect.width, monitor.origin_x + monitor.width);
    let bottom = spec_min(rect.y + rect.height, monitor.origin_y + monitor.height);
    if right <= left || bottom <= top {
        None
    } else {
        Some(SelectionRect {
            x: (left - monitor.origin_x) as i32,
            y: (top - monitor.origin_y) as i32,
            width: (right - left) as u32,
            height: (bottom - top) as u32,
        })
    }
}

pub fn selection_from_screen_rect(rect: ScreenRect, monitor: MonitorArea) -> (r: Result<SelectionRect, UiCaptureError>)
    ensures
        match clip_to_monitor_spec(rect, monitor) {
            None => r == Err::<SelectionRect, UiCaptureError>(UiCaptureError::OutsideMonitor),
            Some(s) => r == Ok::<SelectionRect, UiCaptureError>(s),
        },
{
    let monitor_left = monitor.origin_x as i64;
    let monitor_top = monitor.origin_y as i64;
    let monitor_right = monitor_left + monitor.width as i64;
    let monitor_bottom = monitor_top + monitor.height as i64;
    let rect_left = rect.x as i64;
    let rect_top = rect.y as i64;
    let rect_right = rect_left + rect.width as i64;
    let rect_bottom = rect_top + rect.height as i64;
    let left = if rect_left > monitor_left { rect_left } else { monitor_left };
    let top = if rect_top > monitor_top { rect_top } else { monitor_top };
    let right = if rect_right < monitor_right { rect_right } else { monitor_right };
    let bottom = if rect_bottom < monitor_bottom { rect_bottom } else { monitor_bottom };
    if right <= left || bottom <= top {
        return Err(UiCaptureError::OutsideMonitor);
    }
    Ok(SelectionRect {
        x: (left - monitor_left) as i32,
        y: (top - monitor_top) as i32,
        width: (right - left) as u32,
        height: (bottom - top) as u32,
    })
}

/// Why a region cannot be cut out of a captured screen.
#[derive(Debug, Clone, Copy, PartialEq, Eq, Structural)]
pub enum RegionError {
    /// The selection is zero pixels wide or high.
    NoSize,
    /// The selection starts left of the screen.
    NegativeX,
    /// The selection starts above the screen.
    NegativeY,
    /// The selection reaches past the right or bottom edge.
    OutOfBounds,
}

/// The first check that a region fails on a screen `width` by `height`.
pub open spec fn region_error(width: int, height: int, rect: SelectionRect) -> Option<RegionError> {
    if rect.width == 0 || rect.height == 0 {
        Some(RegionError::NoSize)
    } else if rect.x < 0 {
        Some(RegionError::NegativeX)
    } else if rect.y < 0 {
        Some(RegionError::NegativeY)
    } else if rect.x + rect.width > width || rect.y + rect.height > height {
        Some(RegionError::OutOfBounds)
    } else {
        None
    }
}

/// Cuts `rect` out of a captured screen: the pixels of exactly that block,
/// or the first reason it does not fit.
pub fn capture_region(screen: &RgbaFrame, rect: SelectionRect) -> (r: Result<RgbaFrame, RegionError>)
    requires
        screen.wf(),
    ensures
        match r {
            Ok(image) => {
                &&& region_error(screen.width as int, screen.height as int, rect) is None
                &&& image.wf()
                &&& image.width == rect.width
                &&& image.height == rect.height
                &&& image.rgba@ == crop_bytes(screen.rgba@, screen.width as int, rect.x as int, rect.y as int,
                    rect.width as int, rect.height as int)
            },
            Err(e) => region_error(screen.width as int, screen.height as int, rect) == Some(e),
        },
{
    if rect.width == 0 || rect.height == 0 {
        return Err(RegionError::NoSize);
    }
    if rect.x < 0 {
        return Err(RegionError::NegativeX);
    }
    if rect.y < 0 {
        return Err(RegionError::NegativeY);
    }
    let x = rect.x as u32;
    let y = rect.y as u32;
    if x as u64 + rect.width as u64 > screen.width as u64 || y as u64 + rect.height as u64 > screen.height as u64 {
        return Err(RegionError::OutOfBounds);
    }
    let image = crop_frame(screen, x, y, rect.width, rect.height);
    assert(clamp_crop(screen.width as int, screen.height as int, x as int, y as int, rect.width as int,
        rect.height as int) == (x as int, y as int, rect.width as int, rect.height as int));
    Ok(image)
}

} // verus!
