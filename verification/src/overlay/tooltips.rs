use crate::config::types::TextFontFamily;
use crate::icons::IconId;
use crate::overlay::session::OverlayState;
use crate::overlay::text::font_face_label;
use crate::overlay::toolbar::{color_tooltip_text, first_hit, item_at};
use crate::overlay::types::{StyleControlTarget, ToolbarAction, ToolbarItem};
use crate::text::{concat, decimal_spec, prefixed_decimal};
use vstd::prelude::*;

verus! {

/// The icon drawn on a toolbar button; buttons without one draw a glyph or
/// a label instead.
pub open spec fn icon_for_spec(action: ToolbarAction) -> Option<IconId> {
    match action {
        ToolbarAction::MouseTool => Some(IconId::Mouse),
        ToolbarAction::SelectTool => Some(IconId::Select),
        ToolbarAction::RectangleTool => Some(IconId::Rectangle),
        ToolbarAction::EllipseTool => Some(IconId::Ellipse),
        ToolbarAction::LineTool => Some(IconId::Line),
        ToolbarAction::ArrowTool => Some(IconId::Arrow),
        ToolbarAction::MosaicTool => Some(IconId::Mosaic),
        ToolbarAction::TextTool => Some(IconId::Text),
        ToolbarAction::NumberTool => Some(IconId::Number),
        ToolbarAction::Undo => Some(IconId::Undo),
        ToolbarAction::Pin => Some(IconId::Pin),
        ToolbarAction::Confirm => Some(IconId::Confirm),
        ToolbarAction::Cancel => Some(IconId::Cancel),
        _ => None,
    }
}

pub fn toolbar_action_icon_id(action: ToolbarAction) -> (r: Option<IconId>)
    ensures
        r == icon_for_spec(action),
{
    match action {
        ToolbarAction::MouseTool => Some(IconId::Mouse),
        ToolbarAction::SelectTool => Some(IconId::Select),
        ToolbarAction::RectangleTool => Some(IconId::Rectangle),
        ToolbarAction::EllipseTool => Some(IconId::Ellipse),
        ToolbarAction::LineTool => Some(IconId::Line),
        ToolbarAction::ArrowTool => Some(IconId::Arrow),
        ToolbarAction::MosaicTool => Some(IconId::Mosaic),
        ToolbarAction::TextTool => Some(IconId::Text),
        ToolbarAction::NumberTool => Some(IconId::Number),
        ToolbarAction::Undo => Some(IconId::Undo),
        ToolbarAction::Pin => Some(IconId::Pin),
        ToolbarAction::Confirm => Some(IconId::Confirm),
        ToolbarAction::Cancel => Some(IconId::Cancel),
        _ => None,
    }
}

/// What the slider's tooltip says it adjusts.
pub open spec fn style_tooltip_spec(target: StyleControlTarget) -> Seq<char> {
    match target {
        StyleControlTarget::Stroke => "样式：调整线宽"@,
        StyleControlTarget::Mosaic => "样式：调整马赛克块大小"@,
        StyleControlTarget::Text => "样式：调整文字大小"@,
        StyleControlTarget::Badge => "样式：调整序号大小"@,
    }
}

pub fn style_control_tooltip_text(state: &OverlayState) -> (r: &'static str)
    ensures
        r@ == style_tooltip_spec(state.style_control_target_spec()),
{
    match state.style_control_target() {
        StyleControlTarget::Stroke => "样式：调整线宽",
        StyleControlTarget::Mosaic => "样式：调整马赛克块大小",
        StyleControlTarget::Text => "样式：调整文字大小",
        StyleControlTarget::Badge => "样式：调整序号大小",
    }
}

/// The tooltip of each toolbar button; the slider's depends on what it adjusts.
pub open spec fn tooltip_spec(target: StyleControlTarget, action: ToolbarAction) -> Seq<char> {
    match action {
        ToolbarAction::MouseTool => "鼠标：默认安全模式，不进行标注"@,
        ToolbarAction::SelectTool => "选择：选中并调整已有标注"@,
        ToolbarAction::RectangleTool => "矩形：绘制矩形标注"@,
        ToolbarAction::EllipseTool => "椭圆：绘制椭圆标注"@,
        ToolbarAction::LineTool => "直线：绘制直线标注"@,
        ToolbarAction::ArrowTool => "箭头：绘制箭头标注"@,
        ToolbarAction::MosaicTool => "马赛克：对区域打码"@,
        ToolbarAction::TextTool => "文字：添加或编辑文字标注"@,
        ToolbarAction::NumberTool => "序号：添加编号标注"@,
        ToolbarAction::OcrRun => "OCR：识别当前选区文字"@,
        ToolbarAction::TranslateRun => "翻译：翻译当前选区内容"@,
        ToolbarAction::OcrCopyAll => "复制全文：复制 OCR 或翻译结果"@,
        ToolbarAction::TextBoldToggle => "加粗：切换文字粗体"@,
        ToolbarAction::TextItalicToggle => "斜体：切换文字斜体"@,
        ToolbarAction::TextFontDropdown => "字体：选择文字字体"@,
        ToolbarAction::TextSizeDropdown => "字号：选择文字大小"@,
        ToolbarAction::TextFontOption(font) => "字体选项："@ + match font {
            TextFontFamily::YaHei => "雅黑"@,
            TextFontFamily::DengXian => "等线"@,
            TextFontFamily::KaiTi => "楷体"@,
        },
        ToolbarAction::TextSizeOption(size) => "字号选项："@ + decimal_spec(size as nat),
        ToolbarAction::Color(index) => match index {
            0 => "颜色：红色"@,
            1 => "颜色：橙色"@,
            2 => "颜色：黄色"@,
            3 => "颜色：绿色"@,
            4 => "颜色：蓝色"@,
            _ => "颜色"@,
        },
        ToolbarAction::StyleControl => style_tooltip_spec(target),
        ToolbarAction::Undo => "撤销：回退上一步操作"@,
        ToolbarAction::Pin => "贴图：将当前选区固定到桌面"@,
        ToolbarAction::Confirm => "完成：复制并保存当前截图"@,
        ToolbarAction::Cancel => "取消：放弃当前截图"@,
    }
}

/// The tooltip shown over a toolbar button; every button has one.
pub fn toolbar_action_tooltip_text(state: &OverlayState, action: ToolbarAction) -> (r: Option<String>)
    ensures
        r matches Some(t) && t@ == tooltip_spec(state.style_control_target_spec(), action),
{
    let text: String = match action {
        ToolbarAction::MouseTool => String::from_str("鼠标：默认安全模式，不进行标注"),
        ToolbarAction::SelectTool => String::from_str("选择：选中并调整已有标注"),
        ToolbarAction::RectangleTool => String::from_str("矩形：绘制矩形标注"),
        ToolbarAction::EllipseTool => String::from_str("椭圆：绘制椭圆标注"),
        ToolbarAction::LineTool => String::from_str("直线：绘制直线标注"),
        ToolbarAction::ArrowTool => String::from_str("箭头：绘制箭头标注"),
        ToolbarAction::MosaicTool => String::from_str("马赛克：对区域打码"),
        ToolbarAction::TextTool => String::from_str("文字：添加或编辑文字标注"),
        ToolbarAction::NumberTool => String::from_str("序号：添加编号标注"),
        ToolbarAction::OcrRun => String::from_str("OCR：识别当前选区文字"),
        ToolbarAction::TranslateRun => String::from_str("翻译：翻译当前选区内容"),
        ToolbarAction::OcrCopyAll => String::from_str("复制全文：复制 OCR 或翻译结果"),
        ToolbarAction::TextBoldToggle => String::from_str("加粗：切换文字粗体"),
        ToolbarAction::TextItalicToggle => String::from_str("斜体：切换文字斜体"),
        ToolbarAction::TextFontDropdown => String::from_str("字体：选择文字字体"),
        ToolbarAction::TextSizeDropdown => String::from_str("字号：选择文字大小"),
        ToolbarAction::TextFontOption(font) => concat("字体选项：", font_face_label(font)),
        ToolbarAction::TextSizeOption(size) => prefixed_decimal("字号选项：", size as usize),
        ToolbarAction::Color(index) => String::from_str(color_tooltip_text(index)),
        ToolbarAction::StyleControl => String::from_str(style_control_tooltip_text(state)),
        ToolbarAction::Undo => String::from_str("撤销：回退上一步操作"),
        ToolbarAction::Pin => String::from_str("贴图：将当前选区固定到桌面"),
        ToolbarAction::Confirm => String::from_str("完成：复制并保存当前截图"),
        ToolbarAction::Cancel => String::from_str("取消：放弃当前截图"),
    };
    Some(text)
}

/// The button under the cursor: an option of the open dropdown first, then a
/// toolbar button.
pub open spec fn hovered_item_spec(state: &OverlayState) -> Option<ToolbarItem> {
    let p = state.last_cursor;
    let dropdown_hit = match state.text_dropdown_items_spec() {
        Some(items) => first_hit(items, p),
        None => None,
    };
    match dropdown_hit {
        Some(item) => Some(item),
        None => match state.toolbar_items_spec() {
            Some(items) => first_hit(items, p),
            None => None,
        },
    }
}

pub fn hovered_toolbar_item(state: &OverlayState) -> (r: Option<ToolbarItem>)
    requires
        state.wf(),
    ensures
        r == hovered_item_spec(state),
{
    if let Some(layout) = state.text_dropdown_layout() {
        if let Some(item) = item_at(&layout.items, state.last_cursor) {
            return Some(item);
        }
    }
    match state.toolbar_layout() {
        Some(layout) => item_at(&layout.items, state.last_cursor),
        None => None,
    }
}

} // verus!
