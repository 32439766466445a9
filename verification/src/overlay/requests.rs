use crate::config::types::TranslationProviderKind;
use crate::overlay::session::{OcrOverlayBlock, OverlayState};
use crate::overlay::types::{CursorPoint, NormalizedRect};
use crate::text::{concat, decimal_spec, prefixed_decimal};
use vstd::prelude::*;

verus! {

/// The part of the captured image a recognition request sends: the selection,
/// at least one pixel each way.
#[derive(Debug, Clone, Copy, PartialEq, Eq, Structural)]
pub struct CropRegion {
    pub left: u32,
    pub top: u32,
    pub width: u32,
    pub height: u32,
}

/// Whether a recognition or translation request can start.
#[derive(Debug, Clone, Copy, PartialEq, Eq, Structural)]
pub enum RequestCheck {
    /// Another request is still running; nothing changes.
    Busy,
    /// It cannot start; the status line says why.
    Refused,
    /// Crop this region, encode it and send it with these profiles (by index).
    Ready { crop: CropRegion, ocr_profile: Option<usize>, translation_profile: Option<usize> },
}

/// How a translated image came back from the provider.
#[derive(Debug, Clone, Copy, PartialEq, Eq, Structural)]
pub enum PastedImageStatus {
    Applied,
    Missing,
    InvalidBase64,
    InvalidImage,
    NotRequested,
}

/// The region sent for a selection.
pub open spec fn crop_of(selection: NormalizedRect) -> CropRegion {
    let w = selection.right - selection.left;
    let h = selection.bottom - selection.top;
    CropRegion {
        left: (if selection.left < 0 { 0 } else { selection.left as int }) as u32,
        top: (if selection.top < 0 { 0 } else { selection.top as int }) as u32,
        width: (if w < 1 { 1 } else { w }) as u32,
        height: (if h < 1 { 1 } else { h }) as u32,
    }
}

fn crop_region(selection: NormalizedRect) -> (r: CropRegion)
    requires
        selection.wf(),
    ensures
        r == crop_of(selection),
{
    let w = selection.right - selection.left;
    let h = selection.bottom - selection.top;
    CropRegion {
        left: if selection.left < 0 { 0 } else { selection.left as u32 },
        top: if selection.top < 0 { 0 } else { selection.top as u32 },
        width: if w < 1 { 1 } else { w as u32 },
        height: if h < 1 { 1 } else { h as u32 },
    }
}

/// The status line's text, if any.
pub open spec fn status_text(s: Option<String>) -> Option<Seq<char>> {
    match s {
        Some(t) => Some(t@),
        None => None,
    }
}

impl OverlayState {
    /// Everything but the status line is as in `other`.
    pub open spec fn same_but_status(&self, other: &Self) -> bool {
        &&& self.ocr_running == other.ocr_running
        &&& self.translation_running == other.translation_running
        &&& self.ocr_selected_block == other.ocr_selected_block
        &&& self.has_translated_image == other.has_translated_image
        &&& self.ocr_blocks@ == other.ocr_blocks@
        &&& self.ocr_full_text@ == other.ocr_full_text@
        &&& self.translated_full_text@ == other.translated_full_text@
        &&& self.selection == other.selection
        &&& self.shapes@ == other.shapes@
        &&& self.width == other.width
        &&& self.height == other.height
    }

    /// Checks whether recognition can start: not while a request runs; not
    /// with recognition switched off, without a selection or without the
    /// chosen profile (the status line says which).
    pub fn check_ocr_request(&mut self, ocr_enabled: bool, ocr_profile_count: usize) -> (r: RequestCheck)
        requires
            old(self).wf(),
        ensures
            final(self).wf(),
            final(self).same_but_status(&old(self)),
            old(self).ocr_running || old(self).translation_running ==> r == RequestCheck::Busy
                && final(self).ocr_status == old(self).ocr_status,
            !(old(self).ocr_running || old(self).translation_running) ==> {
                if !ocr_enabled {
                    r == RequestCheck::Refused && status_text(final(self).ocr_status) == Some("OCR 已关闭，请在设置中启用"@)
                } else if old(self).selection is None {
                    r == RequestCheck::Refused && status_text(final(self).ocr_status) == Some("当前没有可用选区"@)
                } else if old(self).ocr_profile_index >= ocr_profile_count {
                    r == RequestCheck::Refused && status_text(final(self).ocr_status) == Some("未配置 OCR 模型"@)
                } else {
                    &&& r == RequestCheck::Ready {
                        crop: crop_of(old(self).selection->0),
                        ocr_profile: Some(old(self).ocr_profile_index),
                        translation_profile: None,
                    }
                    &&& final(self).ocr_status == old(self).ocr_status
                }
            },
    {
        if self.ocr_running || self.translation_running {
            return RequestCheck::Busy;
        }
        if !ocr_enabled {
            self.ocr_status = Some(String::from_str("OCR 已关闭，请在设置中启用"));
            return RequestCheck::Refused;
        }
        let selection = match self.selection {
            Some(s) => s,
            None => {
                self.ocr_status = Some(String::from_str("当前没有可用选区"));
                return RequestCheck::Refused;
            },
        };
        if self.ocr_profile_index >= ocr_profile_count {
            self.ocr_status = Some(String::from_str("未配置 OCR 模型"));
            return RequestCheck::Refused;
        }
        RequestCheck::Ready {
            crop: crop_region(selection),
            ocr_profile: Some(self.ocr_profile_index),
            translation_profile: None,
        }
    }

    /// Checks whether translation can start. Image translation (Baidu) needs
    /// only the translation profile; text translation also needs recognition
    /// switched on and its profile.
    pub fn check_translation_request(
        &mut self,
        translation_enabled: bool,
        translation_kinds: &Vec<TranslationProviderKind>,
        ocr_enabled: bool,
        ocr_profile_count: usize,
    ) -> (r: RequestCheck)
        requires
            old(self).wf(),
        ensures
            final(self).wf(),
            final(self).same_but_status(&old(self)),
            old(self).ocr_running || old(self).translation_running ==> r == RequestCheck::Busy
                && final(self).ocr_status == old(self).ocr_status,
            !(old(self).ocr_running || old(self).translation_running) ==> {
                let ti = old(self).translation_profile_index;
                if !translation_enabled {
                    r == RequestCheck::Refused && status_text(final(self).ocr_status) == Some("翻译已关闭，请在设置中启用"@)
                } else if old(self).selection is None {
                    r == RequestCheck::Refused && status_text(final(self).ocr_status) == Some("当前没有可用选区"@)
                } else if ti >= translation_kinds@.len() {
                    r == RequestCheck::Refused && status_text(final(self).ocr_status) == Some("未配置翻译模型"@)
                } else if translation_kinds@[ti as int] == TranslationProviderKind::BaiduImageTranslate {
                    &&& r == RequestCheck::Ready {
                        crop: crop_of(old(self).selection->0),
                        ocr_profile: None,
                        translation_profile: Some(ti),
                    }
                    &&& final(self).ocr_status == old(self).ocr_status
                } else if !ocr_enabled {
                    r == RequestCheck::Refused && status_text(final(self).ocr_status) == Some("OCR 已关闭，请在设置中启用"@)
                } else if old(self).ocr_profile_index >= ocr_profile_count {
                    r == RequestCheck::Refused && status_text(final(self).ocr_status) == Some("未配置 OCR 模型"@)
                } else {
                    &&& r == RequestCheck::Ready {
                        crop: crop_of(old(self).selection->0),
                        ocr_profile: Some(old(self).ocr_profile_index),
                        translation_profile: Some(ti),
                    }
                    &&& final(self).ocr_status == old(self).ocr_status
                }
            },
    {
        if self.ocr_running || self.translation_running {
            return RequestCheck::Busy;
        }
        if !translation_enabled {
            self.ocr_status = Some(String::from_str("翻译已关闭，请在设置中启用"));
            return RequestCheck::Refused;
        }
        let selection = match self.selection {
            Some(s) => s,
            None => {
                self.ocr_status = Some(String::from_str("当前没有可用选区"));
                return RequestCheck::Refused;
            },
        };
        let ti = self.translation_profile_index;
        if ti >= translation_kinds.len() {
            self.ocr_status = Some(String::from_str("未配置翻译模型"));
            return RequestCheck::Refused;
        }
        let needs_ocr = match translation_kinds[ti] {
            TranslationProviderKind::BaiduImageTranslate => false,
            _ => true,
        };
        if !needs_ocr {
            return RequestCheck::Ready { crop: crop_region(selection), ocr_profile: None, translation_profile: Some(ti) };
        }
        if !ocr_enabled {
            self.ocr_status = Some(String::from_str("OCR 已关闭，请在设置中启用"));
            return RequestCheck::Refused;
        }
        if self.ocr_profile_index >= ocr_profile_count {
            self.ocr_status = Some(String::from_str("未配置 OCR 模型"));
            return RequestCheck::Refused;
        }
        RequestCheck::Ready {
            crop: crop_region(selection),
            ocr_profile: Some(self.ocr_profile_index),
            translation_profile: Some(ti),
        }
    }

    /// The crop could not be encoded as PNG; the request does not start.
    pub fn report_encoding_failure(&mut self, translating: bool)
        requires
            old(self).wf(),
        ensures
            final(self).wf(),
            final(self).same_but_status(&old(self)),
            status_text(final(self).ocr_status) == Some(
                if translating { "翻译输入图片编码失败"@ } else { "OCR 输入图片编码失败"@ },
            ),
    {
        self.ocr_status = Some(String::from_str(if translating { "翻译输入图片编码失败" } else { "OCR 输入图片编码失败" }));
    }

    /// Recognition has been sent: it runs alone, the translated image goes,
    /// no block is selected, and the status line says so.
    pub fn begin_ocr(&mut self)
        requires
            old(self).wf(),
        ensures
            final(self).wf(),
            final(self).ocr_running,
            !final(self).translation_running,
            !final(self).has_translated_image,
            final(self).ocr_selected_block is None,
            status_text(final(self).ocr_status) == Some("OCR 识别中..."@),
            final(self).ocr_blocks@ == old(self).ocr_blocks@,
            final(self).selection == old(self).selection,
            final(self).shapes@ == old(self).shapes@,
    {
        self.ocr_running = true;
        self.translation_running = false;
        self.has_translated_image = false;
        self.ocr_status = Some(String::from_str("OCR 识别中..."));
        self.ocr_selected_block = None;
    }

    /// Translation has been sent, with recognition first when `needs_ocr`.
    pub fn begin_translation(&mut self, needs_ocr: bool)
        requires
            old(self).wf(),
        ensures
            final(self).wf(),
            final(self).translation_running,
            !final(self).ocr_running,
            !final(self).has_translated_image,
            final(self).ocr_selected_block is None,
            status_text(final(self).ocr_status) == Some(
                if needs_ocr { "OCR + 翻译处理中..."@ } else { "图片翻译处理中..."@ },
            ),
            final(self).ocr_blocks@ == old(self).ocr_blocks@,
            final(self).selection == old(self).selection,
            final(self).shapes@ == old(self).shapes@,
    {
        self.translation_running = true;
        self.ocr_running = false;
        self.has_translated_image = false;
        self.ocr_status = Some(String::from_str(if needs_ocr { "OCR + 翻译处理中..." } else { "图片翻译处理中..." }));
        self.ocr_selected_block = None;
    }
}

/// A recognised or translated block as placed on the overlay: its texts and
/// the corners its box was scaled to.
#[derive(Debug, Clone)]
pub struct PlacedBlock {
    pub source_text: String,
    pub translated_text: Option<String>,
    pub start: CursorPoint,
    pub end: CursorPoint,
}

/// The overlay blocks kept of `blocks`: those whose box is not empty, in order.
pub open spec fn kept_blocks(blocks: Seq<PlacedBlock>) -> Seq<PlacedBlock>
    decreases blocks.len(),
{
    if blocks.len() == 0 {
        Seq::empty()
    } else {
        let rest = kept_blocks(blocks.drop_last());
        if NormalizedRect::from_points_spec(blocks.last().start, blocks.last().end) is Some {
            rest.push(blocks.last())
        } else {
            rest
        }
    }
}

/// Turns placed blocks into overlay blocks, dropping those with an empty box.
fn overlay_blocks(blocks: &Vec<PlacedBlock>) -> (r: Vec<OcrOverlayBlock>)
    requires
        forall|i: int| 0 <= i < blocks@.len() ==> (#[trigger] blocks@[i]).start.wf() && blocks@[i].end.wf(),
    ensures
        r@.len() == kept_blocks(blocks@).len(),
        forall|i: int| 0 <= i < r@.len() ==> {
            &&& (#[trigger] r@[i]).source_text@ == kept_blocks(blocks@)[i].source_text@
            &&& r@[i].translated_text == kept_blocks(blocks@)[i].translated_text
            &&& Some(r@[i].rect) == NormalizedRect::from_points_spec(kept_blocks(blocks@)[i].start, kept_blocks(blocks@)[i].end)
            &&& r@[i].rect.wf()
        },
{
    let ghost all = blocks@;
    let mut out: Vec<OcrOverlayBlock> = Vec::new();
    let mut i: usize = 0;
    let n = blocks.len();
    while i < n
        invariant
            i <= n == all.len(),
            all == blocks@,
            forall|k: int| 0 <= k < all.len() ==> (#[trigger] all[k]).start.wf() && all[k].end.wf(),
            out@.len() == kept_blocks(all.take(i as int)).len(),
            forall|k: int| 0 <= k < out@.len() ==> {
                &&& (#[trigger] out@[k]).source_text@ == kept_blocks(all.take(i as int))[k].source_text@
                &&& out@[k].translated_text == kept_blocks(all.take(i as int))[k].translated_text
                &&& Some(out@[k].rect) == NormalizedRect::from_points_spec(kept_blocks(all.take(i as int))[k].start,
                    kept_blocks(all.take(i as int))[k].end)
                &&& out@[k].rect.wf()
            },
        decreases n - i,
    {
        assert(all.take(i + 1).drop_last() =~= all.take(i as int));
        assert(all.take(i + 1).last() == all[i as int]);
        let b = &blocks[i];
        match NormalizedRect::from_points(b.start, b.end) {
            Some(rect) => {
                let translated = match &b.translated_text {
                    Some(t) => Some(t.clone()),
                    None => None,
                };
                out.push(OcrOverlayBlock { source_text: b.source_text.clone(), translated_text: translated, rect });
            },
            None => {},
        }
        i = i + 1;
    }
    assert(all.take(n as int) =~= all);
    out
}

impl OverlayState {
    /// Shows a recognition result: the full text, and one block per
    /// recognised line with a non-empty box; any translation is dropped.
    pub fn apply_ocr_success(&mut self, full_text: String, blocks: &Vec<PlacedBlock>)
        requires
            old(self).wf(),
            forall|i: int| 0 <= i < blocks@.len() ==> (#[trigger] blocks@[i]).start.wf() && blocks@[i].end.wf(),
        ensures
            final(self).wf(),
            !final(self).ocr_running,
            final(self).ocr_full_text@ == full_text@,
            final(self).translated_full_text@.len() == 0,
            !final(self).has_translated_image,
            final(self).ocr_blocks@.len() == kept_blocks(blocks@).len(),
            forall|i: int| 0 <= i < final(self).ocr_blocks@.len() ==> {
                &&& (#[trigger] final(self).ocr_blocks@[i]).source_text@ == kept_blocks(blocks@)[i].source_text@
                &&& Some(final(self).ocr_blocks@[i].rect) == NormalizedRect::from_points_spec(
                    kept_blocks(blocks@)[i].start, kept_blocks(blocks@)[i].end)
            },
            final(self).ocr_selected_block is None,
            status_text(final(self).ocr_status) == Some(
                "OCR 完成：识别 "@ + decimal_spec(kept_blocks(blocks@).len()) + " 个文本块"@),
            final(self).selection == old(self).selection,
            final(self).shapes@ == old(self).shapes@,
    {
        self.ocr_running = false;
        self.ocr_full_text = full_text;
        self.translated_full_text = String::new();
        self.has_translated_image = false;
        self.ocr_blocks = overlay_blocks(blocks);
        self.ocr_selected_block = None;
        let head = prefixed_decimal("OCR 完成：识别 ", self.ocr_blocks.len());
        self.ocr_status = Some(concat(head.as_str(), " 个文本块"));
    }

    /// Shows a failed recognition: the error, and nothing recognised.
    pub fn apply_ocr_failure(&mut self, error: &str)
        requires
            old(self).wf(),
        ensures
            final(self).wf(),
            !final(self).ocr_running,
            status_text(final(self).ocr_status) == Some("OCR 失败："@ + error@),
            final(self).ocr_blocks@.len() == 0,
            final(self).ocr_selected_block is None,
            final(self).ocr_full_text@.len() == 0,
            final(self).translated_full_text@.len() == 0,
            !final(self).has_translated_image,
            final(self).selection == old(self).selection,
            final(self).shapes@ == old(self).shapes@,
    {
        self.ocr_running = false;
        self.ocr_status = Some(concat("OCR 失败：", error));
        self.ocr_blocks = Vec::new();
        self.ocr_selected_block = None;
        self.ocr_full_text = String::new();
        self.translated_full_text = String::new();
        self.has_translated_image = false;
    }

    /// Shows a translation: both full texts, the translated blocks, whether
    /// the provider's translated image is shown, and a status naming what was used.
    pub fn apply_translation_success(
        &mut self,
        source_full_text: String,
        translated_full_text: String,
        blocks: &Vec<PlacedBlock>,
        has_translated_image: bool,
        pasted: PastedImageStatus,
    )
        requires
            old(self).wf(),
            forall|i: int| 0 <= i < blocks@.len() ==> (#[trigger] blocks@[i]).start.wf() && blocks@[i].end.wf(),
        ensures
            final(self).wf(),
            !final(self).translation_running,
            final(self).ocr_full_text@ == source_full_text@,
            final(self).translated_full_text@ == translated_full_text@,
            final(self).has_translated_image == has_translated_image,
            final(self).ocr_blocks@.len() == kept_blocks(blocks@).len(),
            forall|i: int| 0 <= i < final(self).ocr_blocks@.len() ==> {
                &&& (#[trigger] final(self).ocr_blocks@[i]).source_text@ == kept_blocks(blocks@)[i].source_text@
                &&& final(self).ocr_blocks@[i].translated_text == kept_blocks(blocks@)[i].translated_text
                &&& Some(final(self).ocr_blocks@[i].rect) == NormalizedRect::from_points_spec(
                    kept_blocks(blocks@)[i].start, kept_blocks(blocks@)[i].end)
            },
            final(self).ocr_selected_block is None,
            status_text(final(self).ocr_status) == Some(match pasted {
                PastedImageStatus::Applied => "翻译完成：已使用接口返回的译图"@,
                PastedImageStatus::Missing => "翻译完成：接口未返回 pasteImg，已回退为文本块渲染"@,
                PastedImageStatus::InvalidBase64 => "翻译完成：pasteImg 解码失败，已回退为文本块渲染"@,
                PastedImageStatus::InvalidImage => "翻译完成：pasteImg 图像无效，已回退为文本块渲染"@,
                PastedImageStatus::NotRequested => "翻译完成：生成 "@ + decimal_spec(kept_blocks(blocks@).len())
                    + " 个文本块译文"@,
            }),
            final(self).selection == old(self).selection,
            final(self).shapes@ == old(self).shapes@,
    {
        self.translation_running = false;
        self.ocr_full_text = source_full_text;
        self.translated_full_text = translated_full_text;
        self.has_translated_image = has_translated_image;
        self.ocr_blocks = overlay_blocks(blocks);
        self.ocr_selected_block = None;
        let status = match pasted {
            PastedImageStatus::Applied => String::from_str("翻译完成：已使用接口返回的译图"),
            PastedImageStatus::Missing => String::from_str("翻译完成：接口未返回 pasteImg，已回退为文本块渲染"),
            PastedImageStatus::InvalidBase64 => String::from_str("翻译完成：pasteImg 解码失败，已回退为文本块渲染"),
            PastedImageStatus::InvalidImage => String::from_str("翻译完成：pasteImg 图像无效，已回退为文本块渲染"),
            PastedImageStatus::NotRequested => {
                let head = prefixed_decimal("翻译完成：生成 ", self.ocr_blocks.len());
                concat(head.as_str(), " 个文本块译文")
            },
        };
        self.ocr_status = Some(status);
    }

    /// Shows a failed translation: the error; the recognised blocks stay.
    pub fn apply_translation_failure(&mut self, error: &str)
        requires
            old(self).wf(),
        ensures
            final(self).wf(),
            !final(self).translation_running,
            status_text(final(self).ocr_status) == Some("翻译失败："@ + error@),
            final(self).translated_full_text@.len() == 0,
            !final(self).has_translated_image,
            final(self).ocr_blocks@ == old(self).ocr_blocks@,
            final(self).selection == old(self).selection,
            final(self).shapes@ == old(self).shapes@,
    {
        self.translation_running = false;
        self.ocr_status = Some(concat("翻译失败：", error));
        self.translated_full_text = String::new();
        self.has_translated_image = false;
    }
}

} // verus!
