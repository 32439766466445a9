use crate::config::types::TextFontFamily;
use crate::geometry::{spec_clamp, spec_max};
use crate::overlay::geometry::clamp_i32;
use crate::overlay::types::{
    IntRect, NormalizedRect, TextDropdownKind, ToolbarAction, ToolbarItem, ToolbarLayout,
    COORD_LIMIT, TEXT_SIZE_OPTIONS, TOOLBAR_BUTTON, TOOLBAR_COLOR, TOOLBAR_GROUP_GAP,
    TOOLBAR_HEIGHT, TOOLBAR_ITEM_GAP, TOOLBAR_MARGIN, TOOLBAR_PADDING, TOOLBAR_STYLE_WIDTH,
    WINDOW_MARGIN,
};
use vstd::prelude::*;

verus! {

/// The height of a toolbar button: swatches and the slider are short, the
/// text row's controls a little taller than tool buttons.
pub open spec fn button_height_spec(action: ToolbarAction) -> int {
    match action {
        ToolbarAction::Color(_) | ToolbarAction::StyleControl => TOOLBAR_COLOR as int,
        ToolbarAction::TextBoldToggle | ToolbarAction::TextItalicToggle | ToolbarAction::TextFontDropdown
        | ToolbarAction::TextSizeDropdown | ToolbarAction::TextFontOption(_) | ToolbarAction::TextSizeOption(_) =>
            TOOLBAR_BUTTON + 4,
        _ => TOOLBAR_BUTTON as int,
    }
}

pub fn button_height(action: ToolbarAction) -> (r: i32)
    ensures
        r == button_height_spec(action),
{
    match action {
        ToolbarAction::Color(_) | ToolbarAction::StyleControl => TOOLBAR_COLOR,
        ToolbarAction::TextBoldToggle | ToolbarAction::TextItalicToggle | ToolbarAction::TextFontDropdown
        | ToolbarAction::TextSizeDropdown | ToolbarAction::TextFontOption(_) | ToolbarAction::TextSizeOption(_) =>
            TOOLBAR_BUTTON + 4,
        _ => TOOLBAR_BUTTON,
    }
}

/// The gap after a button: a wider one closes each group of buttons.
pub open spec fn gap_after_spec(action: ToolbarAction, text_row: bool) -> int {
    if text_row {
        match action {
            ToolbarAction::TextItalicToggle | ToolbarAction::TextFontDropdown => TOOLBAR_GROUP_GAP as int,
            _ => TOOLBAR_ITEM_GAP as int,
        }
    } else {
        match action {
            ToolbarAction::NumberTool | ToolbarAction::OcrCopyAll | ToolbarAction::StyleControl
            | ToolbarAction::Undo => TOOLBAR_GROUP_GAP as int,
            ToolbarAction::Color(i) => if i == 4 { TOOLBAR_GROUP_GAP as int } else { TOOLBAR_ITEM_GAP as int },
            _ => TOOLBAR_ITEM_GAP as int,
        }
    }
}

pub fn toolbar_gap_after(action: ToolbarAction, text_row: bool) -> (r: i32)
    ensures
        r == gap_after_spec(action, text_row),
{
    if text_row {
        match action {
            ToolbarAction::TextItalicToggle | ToolbarAction::TextFontDropdown => TOOLBAR_GROUP_GAP,
            _ => TOOLBAR_ITEM_GAP,
        }
    } else {
        match action {
            ToolbarAction::NumberTool | ToolbarAction::OcrCopyAll | ToolbarAction::StyleControl
            | ToolbarAction::Undo => TOOLBAR_GROUP_GAP,
            ToolbarAction::Color(i) => if i == 4 { TOOLBAR_GROUP_GAP } else { TOOLBAR_ITEM_GAP },
            _ => TOOLBAR_ITEM_GAP,
        }
    }
}

/// The item widths, at most a few hundred pixels each, of a row of at most a
/// few dozen buttons.
pub open spec fn defs_ok(defs: Seq<(ToolbarAction, i32)>) -> bool {
    defs.len() <= 64 && forall|k: int| 0 <= k < defs.len() ==> 0 <= #[trigger] defs[k].1 <= 1000
}

/// How far the `k`-th button of a row starts from the row's first button.
pub open spec fn row_offset(defs: Seq<(ToolbarAction, i32)>, k: int, text_row: bool) -> int
    decreases k,
{
    if k <= 0 {
        0
    } else {
        row_offset(defs, k - 1, text_row) + defs[k - 1].1 + gap_after_spec(defs[k - 1].0, text_row)
    }
}

proof fn lemma_row_offset_bounds(defs: Seq<(ToolbarAction, i32)>, k: int, text_row: bool)
    requires
        defs_ok(defs),
        0 <= k <= defs.len(),
    ensures
        0 <= row_offset(defs, k, text_row) <= k * 1010,
    decreases k,
{
    if k > 0 {
        lemma_row_offset_bounds(defs, k - 1, text_row);
    }
}

/// The width of a row: padding on both sides, the buttons and the gaps between them.
pub open spec fn row_width_spec(defs: Seq<(ToolbarAction, i32)>, text_row: bool) -> int {
    if defs.len() == 0 {
        TOOLBAR_PADDING * 2
    } else {
        TOOLBAR_PADDING * 2 + row_offset(defs, defs.len() - 1, text_row) + defs.last().1
    }
}

pub fn toolbar_row_width(defs: &[(ToolbarAction, i32)], text_row: bool) -> (r: i32)
    requires
        defs_ok(defs@),
    ensures
        r == row_width_spec(defs@, text_row),
        0 <= r <= 0x0001_0000,
{
    if defs.len() == 0 {
        return TOOLBAR_PADDING * 2;
    }
    let mut offset: i32 = 0;
    let mut i: usize = 0;
    while i + 1 < defs.len()
        invariant
            defs_ok(defs@),
            1 <= defs@.len(),
            i + 1 <= defs@.len(),
            offset == row_offset(defs@, i as int, text_row),
        decreases defs@.len() - i,
    {
        proof {
            lemma_row_offset_bounds(defs@, i as int, text_row);
        }
        let (action, width) = defs[i];
        offset = offset + width + toolbar_gap_after(action, text_row);
        i = i + 1;
    }
    proof {
        lemma_row_offset_bounds(defs@, i as int, text_row);
    }
    TOOLBAR_PADDING * 2 + offset + defs[defs.len() - 1].1
}

/// The `k`-th button of a row laid out in `panel`: left to right from the
/// padding, vertically centred.
pub open spec fn row_item_spec(panel: IntRect, defs: Seq<(ToolbarAction, i32)>, k: int, text_row: bool) -> ToolbarItem {
    let h = button_height_spec(defs[k].0);
    let left = panel.left + TOOLBAR_PADDING + row_offset(defs, k, text_row);
    let top = panel.top + (panel.bottom - panel.top - h) / 2;
    ToolbarItem {
        rect: IntRect { left: left as i32, top: top as i32, right: (left + defs[k].1) as i32, bottom: (top + h) as i32 },
        action: defs[k].0,
    }
}

pub open spec fn panel_ok(panel: IntRect) -> bool {
    -COORD_LIMIT <= panel.left <= COORD_LIMIT && -COORD_LIMIT <= panel.top <= COORD_LIMIT
        && panel.bottom == panel.top + TOOLBAR_HEIGHT
}

pub fn layout_toolbar_row(panel: IntRect, defs: &[(ToolbarAction, i32)], text_row: bool) -> (r: Vec<ToolbarItem>)
    requires
        defs_ok(defs@),
        panel_ok(panel),
    ensures
        r@.len() == defs@.len(),
        forall|k: int| 0 <= k < defs@.len() ==> #[trigger] r@[k] == row_item_spec(panel, defs@, k, text_row),
        forall|k: int| 0 <= k < r@.len() ==> item_near(#[trigger] r@[k], panel),
{
    let mut items: Vec<ToolbarItem> = Vec::new();
    let mut x = panel.left + TOOLBAR_PADDING;
    let mut i: usize = 0;
    while i < defs.len()
        invariant
            defs_ok(defs@),
            panel_ok(panel),
            i <= defs@.len(),
            x == panel.left + TOOLBAR_PADDING + row_offset(defs@, i as int, text_row),
            items@.len() == i,
            forall|k: int| 0 <= k < i ==> #[trigger] items@[k] == row_item_spec(panel, defs@, k, text_row),
            forall|k: int| 0 <= k < i ==> item_near(#[trigger] items@[k], panel),
        decreases defs@.len() - i,
    {
        proof {
            lemma_row_offset_bounds(defs@, i as int, text_row);
        }
        let (action, item_width) = defs[i];
        let item_height = button_height(action);
        let top = panel.top + (panel.bottom - panel.top - item_height) / 2;
        let rect = IntRect { left: x, top, right: x + item_width, bottom: top + item_height };
        items.push(ToolbarItem { rect, action });
        proof {
            assert(item_near(items@[i as int], panel));
        }
        x = x + item_width + toolbar_gap_after(action, text_row);
        i = i + 1;
    }
    items
}

/// An item lies in its panel's row, no further right than a row of buttons reaches.
pub open spec fn item_near(item: ToolbarItem, panel: IntRect) -> bool {
    &&& panel.left <= item.rect.left <= panel.left + 70000
    &&& panel.left <= item.rect.right <= panel.left + 71000
    &&& panel.top <= item.rect.top <= panel.top + TOOLBAR_HEIGHT
    &&& panel.top <= item.rect.bottom <= panel.top + TOOLBAR_HEIGHT
}

/// Every item lies within twice the working range.
pub open spec fn items_in_range(items: Seq<ToolbarItem>) -> bool {
    forall|k: int| 0 <= k < items.len() ==> {
        &&& -0x0200_0000 <= (#[trigger] items[k]).rect.left <= 0x0200_0000
        &&& -0x0200_0000 <= items[k].rect.right <= 0x0200_0000
        &&& -0x0200_0000 <= items[k].rect.top <= 0x0200_0000
        &&& -0x0200_0000 <= items[k].rect.bottom <= 0x0200_0000
    }
}

/// The buttons of the main row, the size slider left out while the text row shows.
pub open spec fn primary_defs_spec(text_toolbar_visible: bool) -> Seq<(ToolbarAction, i32)> {
    let head = seq![
        (ToolbarAction::MouseTool, TOOLBAR_BUTTON),
        (ToolbarAction::SelectTool, TOOLBAR_BUTTON),
        (ToolbarAction::RectangleTool, TOOLBAR_BUTTON),
        (ToolbarAction::EllipseTool, TOOLBAR_BUTTON),
        (ToolbarAction::LineTool, TOOLBAR_BUTTON),
        (ToolbarAction::ArrowTool, TOOLBAR_BUTTON),
        (ToolbarAction::MosaicTool, TOOLBAR_BUTTON),
        (ToolbarAction::TextTool, TOOLBAR_BUTTON),
        (ToolbarAction::NumberTool, TOOLBAR_BUTTON),
        (ToolbarAction::Color(0), TOOLBAR_COLOR),
        (ToolbarAction::Color(1), TOOLBAR_COLOR),
        (ToolbarAction::Color(2), TOOLBAR_COLOR),
        (ToolbarAction::Color(3), TOOLBAR_COLOR),
        (ToolbarAction::Color(4), TOOLBAR_COLOR),
        (ToolbarAction::OcrRun, TOOLBAR_BUTTON),
        (ToolbarAction::TranslateRun, TOOLBAR_BUTTON),
        (ToolbarAction::OcrCopyAll, 96i32),
    ];
    let tail = seq![
        (ToolbarAction::Undo, TOOLBAR_BUTTON),
        (ToolbarAction::Pin, TOOLBAR_BUTTON),
        (ToolbarAction::Confirm, TOOLBAR_BUTTON),
        (ToolbarAction::Cancel, TOOLBAR_BUTTON),
    ];
    if text_toolbar_visible {
        head + tail
    } else {
        head + seq![(ToolbarAction::StyleControl, TOOLBAR_STYLE_WIDTH)] + tail
    }
}

/// The text row: bold, italic, font and size.
pub open spec fn secondary_defs_spec() -> Seq<(ToolbarAction, i32)> {
    seq![
        (ToolbarAction::TextBoldToggle, TOOLBAR_BUTTON),
        (ToolbarAction::TextItalicToggle, TOOLBAR_BUTTON),
        (ToolbarAction::TextFontDropdown, 132i32),
        (ToolbarAction::TextSizeDropdown, 68i32),
    ]
}

fn primary_defs(text_toolbar_visible: bool) -> (r: Vec<(ToolbarAction, i32)>)
    ensures
        r@ == primary_defs_spec(text_toolbar_visible),
        defs_ok(r@),
{
    let mut v: Vec<(ToolbarAction, i32)> = vec![
        (ToolbarAction::MouseTool, TOOLBAR_BUTTON),
        (ToolbarAction::SelectTool, TOOLBAR_BUTTON),
        (ToolbarAction::RectangleTool, TOOLBAR_BUTTON),
        (ToolbarAction::EllipseTool, TOOLBAR_BUTTON),
        (ToolbarAction::LineTool, TOOLBAR_BUTTON),
        (ToolbarAction::ArrowTool, TOOLBAR_BUTTON),
        (ToolbarAction::MosaicTool, TOOLBAR_BUTTON),
        (ToolbarAction::TextTool, TOOLBAR_BUTTON),
        (ToolbarAction::NumberTool, TOOLBAR_BUTTON),
        (ToolbarAction::Color(0), TOOLBAR_COLOR),
        (ToolbarAction::Color(1), TOOLBAR_COLOR),
        (ToolbarAction::Color(2), TOOLBAR_COLOR),
        (ToolbarAction::Color(3), TOOLBAR_COLOR),
        (ToolbarAction::Color(4), TOOLBAR_COLOR),
        (ToolbarAction::OcrRun, TOOLBAR_BUTTON),
        (ToolbarAction::TranslateRun, TOOLBAR_BUTTON),
        (ToolbarAction::OcrCopyAll, 96),
    ];
    if !text_toolbar_visible {
        v.push((ToolbarAction::StyleControl, TOOLBAR_STYLE_WIDTH));
    }
    v.push((ToolbarAction::Undo, TOOLBAR_BUTTON));
    v.push((ToolbarAction::Pin, TOOLBAR_BUTTON));
    v.push((ToolbarAction::Confirm, TOOLBAR_BUTTON));
    v.push((ToolbarAction::Cancel, TOOLBAR_BUTTON));
    assert(v@ =~= primary_defs_spec(text_toolbar_visible));
    v
}

fn secondary_defs() -> (r: Vec<(ToolbarAction, i32)>)
    ensures
        r@ == secondary_defs_spec(),
        defs_ok(r@),
{
    let v: Vec<(ToolbarAction, i32)> = vec![
        (ToolbarAction::TextBoldToggle, TOOLBAR_BUTTON),
        (ToolbarAction::TextItalicToggle, TOOLBAR_BUTTON),
        (ToolbarAction::TextFontDropdown, 132),
        (ToolbarAction::TextSizeDropdown, 68),
    ];
    assert(v@ =~= secondary_defs_spec());
    v
}

/// Where the toolbar panels go for a selection on a `width` by `height`
/// overlay: centred under the selection, or above it when there is no room
/// below, kept inside the window margin.
pub open spec fn toolbar_origin_spec(selection: NormalizedRect, width: int, height: int, overall_width: int, total_height: int) -> (int, int) {
    let preferred_top = selection.bottom + TOOLBAR_MARGIN;
    let base_y = if preferred_top + total_height <= height - WINDOW_MARGIN {
        preferred_top
    } else {
        spec_max(selection.top - TOOLBAR_MARGIN - total_height, WINDOW_MARGIN as int)
    };
    let center = selection.left + (selection.right - selection.left) / 2;
    let max_left = spec_max(width - overall_width - WINDOW_MARGIN, WINDOW_MARGIN as int);
    (spec_clamp(center - overall_width / 2, WINDOW_MARGIN as int, max_left), base_y)
}

/// The panel of a row of `row_width` centred in `overall_width` from `x`.
pub open spec fn centred_panel(x: int, top: int, overall_width: int, row_width: int) -> IntRect {
    let left = x + (overall_width - row_width) / 2;
    IntRect { left: left as i32, top: top as i32, right: (left + row_width) as i32, bottom: (top + TOOLBAR_HEIGHT) as i32 }
}

/// The toolbar for `selection`: the main row, and under it the text row while
/// text is being edited or the text tool is chosen.
pub open spec fn toolbar_layout_spec(selection: NormalizedRect, width: int, height: int, text_toolbar_visible: bool) -> (Seq<IntRect>, Seq<ToolbarItem>) {
    let primary = primary_defs_spec(text_toolbar_visible);
    let secondary = secondary_defs_spec();
    let primary_width = row_width_spec(primary, false);
    let secondary_width = if text_toolbar_visible { row_width_spec(secondary, true) } else { 0 };
    let total_height = if text_toolbar_visible { TOOLBAR_HEIGHT * 2 + TOOLBAR_ITEM_GAP } else { TOOLBAR_HEIGHT as int };
    let overall = spec_max(primary_width, secondary_width);
    let (x, base_y) = toolbar_origin_spec(selection, width, height, overall, total_height);
    let primary_panel = centred_panel(x, base_y, overall, primary_width);
    let primary_items = Seq::new(primary.len(), |k: int| row_item_spec(primary_panel, primary, k, false));
    if text_toolbar_visible {
        let secondary_panel = centred_panel(x, primary_panel.bottom + TOOLBAR_ITEM_GAP, overall, secondary_width);
        (seq![primary_panel, secondary_panel],
            primary_items + Seq::new(secondary.len(), |k: int| row_item_spec(secondary_panel, secondary, k, true)))
    } else {
        (seq![primary_panel], primary_items)
    }
}

#[verifier::rlimit(80)]
#[verifier::spinoff_prover]
pub fn toolbar_layout_for(selection: NormalizedRect, width: u32, height: u32, text_toolbar_visible: bool) -> (r: ToolbarLayout)
    requires
        selection.wf(),
        selection.left <= selection.right,
        width <= COORD_LIMIT,
        height <= COORD_LIMIT,
    ensures
        (r.panels@, r.items@) == toolbar_layout_spec(selection, width as int, height as int, text_toolbar_visible),
        items_in_range(r.items@),
{
    let primary = primary_defs(text_toolbar_visible);
    let primary_width = toolbar_row_width(primary.as_slice(), false);
    let secondary = secondary_defs();
    let secondary_width = if text_toolbar_visible { toolbar_row_width(secondary.as_slice(), true) } else { 0 };
    let total_height = if text_toolbar_visible { TOOLBAR_HEIGHT * 2 + TOOLBAR_ITEM_GAP } else { TOOLBAR_HEIGHT };
    let preferred_top = selection.bottom + TOOLBAR_MARGIN;
    let base_y = if preferred_top + total_height <= height as i32 - WINDOW_MARGIN {
        preferred_top
    } else {
        let above = selection.top - TOOLBAR_MARGIN - total_height;
        if above >= WINDOW_MARGIN { above } else { WINDOW_MARGIN }
    };
    let center = selection.left + (selection.right - selection.left) / 2;
    let overall = if primary_width >= secondary_width { primary_width } else { secondary_width };
    let max_left0 = width as i32 - overall - WINDOW_MARGIN;
    let max_left = if max_left0 >= WINDOW_MARGIN { max_left0 } else { WINDOW_MARGIN };
    let x = clamp_i32(center - overall / 2, WINDOW_MARGIN, max_left);
    let pleft = x + (overall - primary_width) / 2;
    let primary_panel = IntRect { left: pleft, top: base_y, right: pleft + primary_width, bottom: base_y + TOOLBAR_HEIGHT };
    let mut panels: Vec<IntRect> = Vec::new();
    panels.push(primary_panel);
    let mut items = layout_toolbar_row(primary_panel, primary.as_slice(), false);
    let ghost primary_items = items@;
    if text_toolbar_visible {
        let stop = primary_panel.bottom + TOOLBAR_ITEM_GAP;
        let sleft = x + (overall - secondary_width) / 2;
        let secondary_panel = IntRect { left: sleft, top: stop, right: sleft + secondary_width, bottom: stop + TOOLBAR_HEIGHT };
        panels.push(secondary_panel);
        let mut more = layout_toolbar_row(secondary_panel, secondary.as_slice(), true);
        let ghost more_items = more@;
        items.append(&mut more);
        proof {
            let spec = toolbar_layout_spec(selection, width as int, height as int, text_toolbar_visible);
            assert(panels@ =~= spec.0);
            assert(primary_items =~= Seq::new(primary@.len(), |k: int| row_item_spec(primary_panel, primary@, k, false)));
            assert(more_items =~= Seq::new(secondary@.len(), |k: int| row_item_spec(secondary_panel, secondary@, k, true)));
            assert(items@ =~= spec.1);
            assert(items_in_range(items@)) by {
                assert forall|k: int| 0 <= k < items@.len() implies {
                    &&& -0x0200_0000 <= (#[trigger] items@[k]).rect.left <= 0x0200_0000
                    &&& -0x0200_0000 <= items@[k].rect.right <= 0x0200_0000
                    &&& -0x0200_0000 <= items@[k].rect.top <= 0x0200_0000
                    &&& -0x0200_0000 <= items@[k].rect.bottom <= 0x0200_0000
                } by {
                    if k < primary_items.len() {
                        assert(items@[k] == primary_items[k]);
                        assert(item_near(primary_items[k], primary_panel));
                    } else {
                        assert(items@[k] == more_items[k - primary_items.len()]);
                        assert(item_near(more_items[k - primary_items.len()], secondary_panel));
                    }
                }
            }
        }
    } else {
        proof {
            let spec = toolbar_layout_spec(selection, width as int, height as int, text_toolbar_visible);
            assert(panels@ =~= spec.0);
            assert(items@ =~= spec.1);
            assert(items_in_range(items@)) by {
                assert forall|k: int| 0 <= k < items@.len() implies {
                    &&& -0x0200_0000 <= (#[trigger] items@[k]).rect.left <= 0x0200_0000
                    &&& -0x0200_0000 <= items@[k].rect.right <= 0x0200_0000
                    &&& -0x0200_0000 <= items@[k].rect.top <= 0x0200_0000
                    &&& -0x0200_0000 <= items@[k].rect.bottom <= 0x0200_0000
                } by {
                    assert(item_near(items@[k], primary_panel));
                }
            }
        }
    }
    ToolbarLayout { panels, items }
}

/// The first item, in order, whose rectangle holds the point.
pub open spec fn first_hit(items: Seq<ToolbarItem>, point: crate::overlay::types::CursorPoint) -> Option<ToolbarItem>
    decreases items.len(),
{
    if items.len() == 0 {
        None
    } else if items[0].rect.contains_spec(point) {
        Some(items[0])
    } else {
        first_hit(items.drop_first(), point)
    }
}

pub fn item_at(items: &Vec<ToolbarItem>, point: crate::overlay::types::CursorPoint) -> (r: Option<ToolbarItem>)
    ensures
        r == first_hit(items@, point),
{
    let mut i: usize = 0;
    assert(items@.skip(0) =~= items@);
    while i < items.len()
        invariant
            i <= items@.len(),
            first_hit(items@, point) == first_hit(items@.skip(i as int), point),
        decreases items@.len() - i,
    {
        let item = items[i];
        proof {
            assert(items@.skip(i as int)[0] == item);
            assert(items@.skip(i as int).drop_first() =~= items@.skip(i + 1));
        }
        if item.rect.contains(point) {
            return Some(item);
        }
        i = i + 1;
    }
    proof {
        assert(items@.skip(i as int).len() == 0);
    }
    None
}

/// The rectangle of the first item for `action`.
pub open spec fn item_rect_for(items: Seq<ToolbarItem>, action: ToolbarAction) -> Option<IntRect>
    decreases items.len(),
{
    if items.len() == 0 {
        None
    } else if items[0].action == action {
        Some(items[0].rect)
    } else {
        item_rect_for(items.drop_first(), action)
    }
}

pub fn toolbar_item_rect(items: &Vec<ToolbarItem>, action: ToolbarAction) -> (r: Option<IntRect>)
    ensures
        r == item_rect_for(items@, action),
        items_in_range(items@) ==> (r matches Some(rect) ==> exists|k: int| 0 <= k < items@.len() && #[trigger] items@[k].rect == rect),
{
    let mut i: usize = 0;
    assert(items@.skip(0) =~= items@);
    while i < items.len()
        invariant
            i <= items@.len(),
            item_rect_for(items@, action) == item_rect_for(items@.skip(i as int), action),
        decreases items@.len() - i,
    {
        let item = items[i];
        proof {
            assert(items@.skip(i as int)[0] == item);
            assert(items@.skip(i as int).drop_first() =~= items@.skip(i + 1));
        }
        if item.action == action {
            assert(items@[i as int].rect == item.rect);
            return Some(item.rect);
        }
        i = i + 1;
    }
    proof {
        assert(items@.skip(i as int).len() == 0);
    }
    None
}

/// The options of a text dropdown with their widths.
pub open spec fn dropdown_defs_spec(kind: TextDropdownKind) -> Seq<(ToolbarAction, i32)> {
    match kind {
        TextDropdownKind::FontFamily => seq![
            (ToolbarAction::TextFontOption(TextFontFamily::YaHei), 132i32),
            (ToolbarAction::TextFontOption(TextFontFamily::DengXian), 132i32),
            (ToolbarAction::TextFontOption(TextFontFamily::KaiTi), 132i32),
        ],
        TextDropdownKind::FontSize => Seq::new(11, |k: int| (ToolbarAction::TextSizeOption(TEXT_SIZE_OPTIONS@[k]), 68i32)),
    }
}

/// A dropdown's panel: a column under `anchor`, or above it when there is no
/// room below, kept inside the window margin.
pub open spec fn dropdown_panel_spec(kind: TextDropdownKind, anchor: IntRect, width: int, height: int) -> IntRect {
    let n = dropdown_defs_spec(kind).len() as int;
    let item_width: int = if kind == TextDropdownKind::FontFamily { 132 } else { 68 };
    let panel_width = TOOLBAR_PADDING * 2 + item_width;
    let panel_height = TOOLBAR_PADDING * 2 + n * TOOLBAR_BUTTON + (n - 1) * TOOLBAR_ITEM_GAP;
    let max_left = spec_max(width - panel_width - WINDOW_MARGIN, WINDOW_MARGIN as int);
    let left = spec_clamp(anchor.left as int, WINDOW_MARGIN as int, max_left);
    let below_top = anchor.bottom + 4;
    let top = if below_top + panel_height <= height - WINDOW_MARGIN {
        below_top
    } else {
        spec_max(anchor.top - panel_height - 4, WINDOW_MARGIN as int)
    };
    IntRect { left: left as i32, top: top as i32, right: (left + panel_width) as i32, bottom: (top + panel_height) as i32 }
}

/// The `k`-th option of a dropdown in `panel`, one under another.
pub open spec fn dropdown_item_spec(panel: IntRect, defs: Seq<(ToolbarAction, i32)>, k: int) -> ToolbarItem {
    let y = panel.top + TOOLBAR_PADDING + k * 44;
    ToolbarItem {
        rect: IntRect {
            left: (panel.left + TOOLBAR_PADDING) as i32,
            top: y as i32,
            right: (panel.left + TOOLBAR_PADDING + defs[k].1) as i32,
            bottom: (y + TOOLBAR_BUTTON) as i32,
        },
        action: defs[k].0,
    }
}

pub fn text_dropdown_layout_at(kind: TextDropdownKind, anchor: IntRect, width: u32, height: u32) -> (r: ToolbarLayout)
    requires
        -0x0200_0000 <= anchor.left <= 0x0200_0000,
        -0x0200_0000 <= anchor.top <= 0x0200_0000,
        -0x0200_0000 <= anchor.bottom <= 0x0200_0000,
        width <= COORD_LIMIT,
        height <= COORD_LIMIT,
    ensures
        r.panels@ == seq![dropdown_panel_spec(kind, anchor, width as int, height as int)],
        r.items@.len() == dropdown_defs_spec(kind).len(),
        forall|k: int| 0 <= k < r.items@.len() ==> #[trigger] r.items@[k]
            == dropdown_item_spec(dropdown_panel_spec(kind, anchor, width as int, height as int), dropdown_defs_spec(kind), k),
{
    let mut defs: Vec<(ToolbarAction, i32)> = Vec::new();
    match kind {
        TextDropdownKind::FontFamily => {
            defs.push((ToolbarAction::TextFontOption(TextFontFamily::YaHei), 132));
            defs.push((ToolbarAction::TextFontOption(TextFontFamily::DengXian), 132));
            defs.push((ToolbarAction::TextFontOption(TextFontFamily::KaiTi), 132));
        },
        TextDropdownKind::FontSize => {
            let mut k: usize = 0;
            while k < 11
                invariant
                    k <= 11,
                    defs@.len() == k,
                    forall|j: int| 0 <= j < k ==> #[trigger] defs@[j] == (ToolbarAction::TextSizeOption(TEXT_SIZE_OPTIONS@[j]), 68i32),
                decreases 11 - k,
            {
                defs.push((ToolbarAction::TextSizeOption(TEXT_SIZE_OPTIONS[k]), 68));
                k = k + 1;
            }
        },
    }
    let ghost dspec = dropdown_defs_spec(kind);
    assert(defs@ =~= dspec);
    let item_width: i32 = if kind == TextDropdownKind::FontFamily { 132 } else { 68 };
    let n = defs.len() as i32;
    let panel_width = TOOLBAR_PADDING * 2 + item_width;
    let panel_height = TOOLBAR_PADDING * 2 + n * TOOLBAR_BUTTON + (n - 1) * TOOLBAR_ITEM_GAP;
    let max_left0 = width as i32 - panel_width - WINDOW_MARGIN;
    let max_left = if max_left0 >= WINDOW_MARGIN { max_left0 } else { WINDOW_MARGIN };
    let left = clamp_i32(anchor.left, WINDOW_MARGIN, max_left);
    let below_top = anchor.bottom + 4;
    let top = if below_top + panel_height <= height as i32 - WINDOW_MARGIN {
        below_top
    } else {
        let above = anchor.top - panel_height - 4;
        if above >= WINDOW_MARGIN { above } else { WINDOW_MARGIN }
    };
    let panel = IntRect { left, top, right: left + panel_width, bottom: top + panel_height };
    let ghost spanel = dropdown_panel_spec(kind, anchor, width as int, height as int);
    assert(spanel == panel);
    let mut items: Vec<ToolbarItem> = Vec::new();
    let mut y = top + TOOLBAR_PADDING;
    let mut i: usize = 0;
    assert(forall|k: int| 0 <= k < defs@.len() ==> 0 <= #[trigger] defs@[k].1 <= 132);
    while i < defs.len()
        invariant
            forall|k: int| 0 <= k < defs@.len() ==> 0 <= #[trigger] defs@[k].1 <= 132,
            defs@ == dspec,
            defs@.len() <= 11,
            spanel == panel,
            top == panel.top,
            left == panel.left,
            -0x0200_0000 - 600 <= top <= 0x0200_0000 + 600,
            -0x0200_0000 <= left <= 0x0200_0000,
            i <= defs@.len(),
            y == top + TOOLBAR_PADDING + i * 44,
            items@.len() == i,
            forall|k: int| 0 <= k < i ==> #[trigger] items@[k] == dropdown_item_spec(spanel, dspec, k),
        decreases defs@.len() - i,
    {
        let (action, w) = defs[i];
        let rect = IntRect { left: left + TOOLBAR_PADDING, top: y, right: left + TOOLBAR_PADDING + w, bottom: y + TOOLBAR_BUTTON };
        items.push(ToolbarItem { rect, action });
        assert((i + 1) * 44 == i * 44 + 44) by (nonlinear_arith);
        y = y + TOOLBAR_BUTTON + TOOLBAR_ITEM_GAP;
        i = i + 1;
    }
    let mut panels: Vec<IntRect> = Vec::new();
    panels.push(panel);
    assert(panels@ =~= seq![spanel]);
    ToolbarLayout { panels, items }
}

/// The tooltip for a colour swatch.
pub fn color_tooltip_text(index: usize) -> (r: &'static str)
    ensures
        r@ == match index {
            0 => "颜色：红色"@,
            1 => "颜色：橙色"@,
            2 => "颜色：黄色"@,
            3 => "颜色：绿色"@,
            4 => "颜色：蓝色"@,
            _ => "颜色"@,
        },
{
    match index {
        0 => "颜色：红色",
        1 => "颜色：橙色",
        2 => "颜色：黄色",
        3 => "颜色：绿色",
        4 => "颜色：蓝色",
        _ => "颜色",
    }
}

/// The fill of a toolbar button: the accent when active, a light wash
/// under the pointer, else the panel colour (`0xAARRGGBB`).
pub fn toolbar_item_fill(selected: bool, hovered: bool) -> (r: u32)
    ensures
        r == (if selected { 0x80_2A69F6u32 } else if hovered { 0x1F_FFFFFFu32 } else { 0xA0_151A23u32 }),
{
    if selected {
        0x80_2A69F6
    } else if hovered {
        0x1F_FFFFFF
    } else {
        0xA0_151A23
    }
}

} // verus!
