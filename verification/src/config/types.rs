use crate::config::paths::{default_save_dir, ends_with_spec, APP_NAME};
use crate::text::prefixed_decimal;
use vstd::prelude::*;

verus! {

pub const ANNOTATION_COLOR_PRESET_COUNT: usize = 5;
pub const MIN_STROKE_WIDTH: u32 = 1;
pub const MAX_STROKE_WIDTH: u32 = 16;
pub const DEFAULT_STROKE_WIDTH: u32 = 2;
pub const MIN_TEXT_SIZE: u32 = 14;
pub const MAX_TEXT_SIZE: u32 = 54;
pub const DEFAULT_TEXT_SIZE: u32 = 24;
pub const MIN_NUMBER_SIZE: u32 = 18;
pub const MAX_NUMBER_SIZE: u32 = 52;
pub const DEFAULT_NUMBER_SIZE: u32 = 28;
pub const MIN_MOSAIC_SIZE: u32 = 6;
pub const MAX_MOSAIC_SIZE: u32 = 30;
pub const DEFAULT_MOSAIC_SIZE: u32 = 12;
pub const OCR_TIMEOUT_MIN_MS: u64 = 2000;
pub const OCR_TIMEOUT_MAX_MS: u64 = 120000;
pub const OCR_TIMEOUT_DEFAULT_MS: u64 = 20000;
pub const TRANSLATION_TIMEOUT_MIN_MS: u64 = 2000;
pub const TRANSLATION_TIMEOUT_MAX_MS: u64 = 120000;
pub const TRANSLATION_TIMEOUT_DEFAULT_MS: u64 = 20000;
pub const DEFAULT_PIN_OPACITY_PERCENT: u8 = 100;
pub const DEFAULT_TRANSLATION_PROMPT_TEMPLATE: &'static str = "Translate the following text into Chinese. Return only the translated text without explanation.\n{{text}}";

/// The annotation colours offered, as `0xRRGGBB`.
pub open spec fn annotation_color_preset_spec(index: int) -> u32 {
    if index == 0 {
        0xF14C4C
    } else if index == 1 {
        0xFF8C00
    } else if index == 2 {
        0xF2C94C
    } else if index == 3 {
        0x2ECC71
    } else {
        0x4F8CFF
    }
}

/// The annotation colour at `index` (`0..5`).
pub fn annotation_color_preset(index: usize) -> (r: u32)
    requires
        index < ANNOTATION_COLOR_PRESET_COUNT,
    ensures
        r == annotation_color_preset_spec(index as int),
{
    if index == 0 {
        0xF14C4C
    } else if index == 1 {
        0xFF8C00
    } else if index == 2 {
        0xF2C94C
    } else if index == 3 {
        0x2ECC71
    } else {
        0x4F8CFF
    }
}

/// The pin window opacities offered, in percent.
pub open spec fn is_pin_opacity_option_spec(value: u8) -> bool {
    value == 100 || value == 80 || value == 60 || value == 40
}

/// Whether `value` is one of the offered pin opacities (100, 80, 60, 40).
pub fn is_pin_opacity_option(value: u8) -> (r: bool)
    ensures
        r == is_pin_opacity_option_spec(value),
{
    value == 100 || value == 80 || value == 60 || value == 40
}

#[derive(Debug, Clone, Copy, PartialEq, Eq, Structural)]
pub enum TextFontFamily {
    YaHei,
    DengXian,
    KaiTi,
}

impl TextFontFamily {
    /// The name shown for this font in menus.
    pub fn label(self) -> (r: &'static str)
        ensures
            r@ == match self {
                TextFontFamily::YaHei => "微软雅黑"@,
                TextFontFamily::DengXian => "等线"@,
                TextFontFamily::KaiTi => "楷体"@,
            },
    {
        match self {
            TextFontFamily::YaHei => "微软雅黑",
            TextFontFamily::DengXian => "等线",
            TextFontFamily::KaiTi => "楷体",
        }
    }
}

impl Default for TextFontFamily {
    fn default() -> (r: Self)
        ensures
            r == TextFontFamily::YaHei,
    {
        TextFontFamily::YaHei
    }
}

#[derive(Debug, Clone, Copy, PartialEq, Eq, Structural)]
pub enum OcrBboxScaleMode {
    ZeroToOne,
    ZeroTo999,
    ZeroTo1000,
    PixelAbsolute,
}

impl OcrBboxScaleMode {
    /// The name shown for this coordinate range.
    pub fn label(self) -> (r: &'static str)
        ensures
            r@ == match self {
                OcrBboxScaleMode::ZeroToOne => "0~1"@,
                OcrBboxScaleMode::ZeroTo999 => "0~999"@,
                OcrBboxScaleMode::ZeroTo1000 => "0~1000"@,
                OcrBboxScaleMode::PixelAbsolute => "像素坐标"@,
            },
    {
        match self {
            OcrBboxScaleMode::ZeroToOne => "0~1",
            OcrBboxScaleMode::ZeroTo999 => "0~999",
            OcrBboxScaleMode::ZeroTo1000 => "0~1000",
            OcrBboxScaleMode::PixelAbsolute => "像素坐标",
        }
    }
}

impl Default for OcrBboxScaleMode {
    fn default() -> (r: Self)
        ensures
            r == OcrBboxScaleMode::ZeroToOne,
    {
        OcrBboxScaleMode::ZeroToOne
    }
}

#[derive(Debug, Clone, Copy, PartialEq, Eq, Structural)]
pub enum OcrProviderKind {
    OpenAiCompatible,
    BaiduOcr,
}

impl OcrProviderKind {
    pub fn label(self) -> (r: &'static str)
        ensures
            r@ == match self {
                OcrProviderKind::OpenAiCompatible => "OpenAI Compatible"@,
                OcrProviderKind::BaiduOcr => "百度 OCR"@,
            },
    {
        match self {
            OcrProviderKind::OpenAiCompatible => "OpenAI Compatible",
            OcrProviderKind::BaiduOcr => "百度 OCR",
        }
    }

    pub open spec fn default_base_url_spec(self) -> Seq<char> {
        match self {
            OcrProviderKind::OpenAiCompatible => "https://api.openai.com/v1"@,
            OcrProviderKind::BaiduOcr => "https://aip.baidubce.com"@,
        }
    }

    pub fn default_base_url(self) -> (r: &'static str)
        ensures
            r@ == self.default_base_url_spec(),
    {
        match self {
            OcrProviderKind::OpenAiCompatible => "https://api.openai.com/v1",
            OcrProviderKind::BaiduOcr => "https://aip.baidubce.com",
        }
    }

    pub open spec fn default_model_spec(self) -> Seq<char> {
        match self {
            OcrProviderKind::OpenAiCompatible => "gpt-4.1-mini"@,
            OcrProviderKind::BaiduOcr => "general"@,
        }
    }

    pub fn default_model(self) -> (r: &'static str)
        ensures
            r@ == self.default_model_spec(),
    {
        match self {
            OcrProviderKind::OpenAiCompatible => "gpt-4.1-mini",
            OcrProviderKind::BaiduOcr => "general",
        }
    }

    pub open spec fn default_bbox_scale_mode_spec(self) -> OcrBboxScaleMode {
        match self {
            OcrProviderKind::OpenAiCompatible => OcrBboxScaleMode::ZeroTo1000,
            OcrProviderKind::BaiduOcr => OcrBboxScaleMode::PixelAbsolute,
        }
    }

    pub fn default_bbox_scale_mode(self) -> (r: OcrBboxScaleMode)
        ensures
            r == self.default_bbox_scale_mode_spec(),
    {
        match self {
            OcrProviderKind::OpenAiCompatible => OcrBboxScaleMode::ZeroTo1000,
            OcrProviderKind::BaiduOcr => OcrBboxScaleMode::PixelAbsolute,
        }
    }

    pub fn model_field_label(self) -> (r: &'static str)
        ensures
            r@ == match self {
                OcrProviderKind::OpenAiCompatible => "模型名称"@,
                OcrProviderKind::BaiduOcr => "接口名称"@,
            },
    {
        match self {
            OcrProviderKind::OpenAiCompatible => "模型名称",
            OcrProviderKind::BaiduOcr => "接口名称",
        }
    }

    pub fn model_field_hint(self) -> (r: &'static str)
        ensures
            r@ == match self {
                OcrProviderKind::OpenAiCompatible => "例如 gpt-4.1-mini / deepseek-ocr"@,
                OcrProviderKind::BaiduOcr => "例如 general / accurate / general_basic"@,
            },
    {
        match self {
            OcrProviderKind::OpenAiCompatible => "例如 gpt-4.1-mini / deepseek-ocr",
            OcrProviderKind::BaiduOcr => "例如 general / accurate / general_basic",
        }
    }

    /// Only Baidu OCR authenticates with a secret key beside the API key.
    pub fn uses_secret_key(self) -> (r: bool)
        ensures
            r == (self == OcrProviderKind::BaiduOcr),
    {
        match self {
            OcrProviderKind::BaiduOcr => true,
            OcrProviderKind::OpenAiCompatible => false,
        }
    }
}

impl Default for OcrProviderKind {
    fn default() -> (r: Self)
        ensures
            r == OcrProviderKind::OpenAiCompatible,
    {
        OcrProviderKind::OpenAiCompatible
    }
}

#[derive(Debug, Clone, Copy, PartialEq, Eq, Structural)]
pub enum TranslationProviderKind {
    OpenAiCompatible,
    BaiduImageTranslate,
}

impl TranslationProviderKind {
    pub fn label(self) -> (r: &'static str)
        ensures
            r@ == match self {
                TranslationProviderKind::OpenAiCompatible => "OpenAI Compatible"@,
                TranslationProviderKind::BaiduImageTranslate => "百度图片翻译"@,
            },
    {
        match self {
            TranslationProviderKind::OpenAiCompatible => "OpenAI Compatible",
            TranslationProviderKind::BaiduImageTranslate => "百度图片翻译",
        }
    }

    pub open spec fn default_base_url_spec(self) -> Seq<char> {
        match self {
            TranslationProviderKind::OpenAiCompatible => "https://api.openai.com/v1"@,
            TranslationProviderKind::BaiduImageTranslate => "https://aip.baidubce.com"@,
        }
    }

    pub fn default_base_url(self) -> (r: &'static str)
        ensures
            r@ == self.default_base_url_spec(),
    {
        match self {
            TranslationProviderKind::OpenAiCompatible => "https://api.openai.com/v1",
            TranslationProviderKind::BaiduImageTranslate => "https://aip.baidubce.com",
        }
    }

    pub open spec fn default_model_spec(self) -> Seq<char> {
        match self {
            TranslationProviderKind::OpenAiCompatible => "gpt-4.1-mini"@,
            TranslationProviderKind::BaiduImageTranslate => "file/2.0/mt/pictrans/v1"@,
        }
    }

    pub fn default_model(self) -> (r: &'static str)
        ensures
            r@ == self.default_model_spec(),
    {
        match self {
            TranslationProviderKind::OpenAiCompatible => "gpt-4.1-mini",
            TranslationProviderKind::BaiduImageTranslate => "file/2.0/mt/pictrans/v1",
        }
    }

    pub fn model_field_label(self) -> (r: &'static str)
        ensures
            r@ == match self {
                TranslationProviderKind::OpenAiCompatible => "模型名称"@,
                TranslationProviderKind::BaiduImageTranslate => "接口路径"@,
            },
    {
        match self {
            TranslationProviderKind::OpenAiCompatible => "模型名称",
            TranslationProviderKind::BaiduImageTranslate => "接口路径",
        }
    }

    pub fn model_field_hint(self) -> (r: &'static str)
        ensures
            r@ == match self {
                TranslationProviderKind::OpenAiCompatible => "例如 gpt-4.1-mini"@,
                TranslationProviderKind::BaiduImageTranslate => "例如 file/2.0/mt/pictrans/v1"@,
            },
    {
        match self {
            TranslationProviderKind::OpenAiCompatible => "例如 gpt-4.1-mini",
            TranslationProviderKind::BaiduImageTranslate => "例如 file/2.0/mt/pictrans/v1",
        }
    }

    /// Only Baidu image translation authenticates with a secret key.
    pub fn uses_secret_key(self) -> (r: bool)
        ensures
            r == (self == TranslationProviderKind::BaiduImageTranslate),
    {
        match self {
            TranslationProviderKind::BaiduImageTranslate => true,
            TranslationProviderKind::OpenAiCompatible => false,
        }
    }

    /// Only the chat-style provider is driven by a prompt template.
    pub fn uses_prompt_template(self) -> (r: bool)
        ensures
            r == (self == TranslationProviderKind::OpenAiCompatible),
    {
        match self {
            TranslationProviderKind::OpenAiCompatible => true,
            TranslationProviderKind::BaiduImageTranslate => false,
        }
    }

    /// Only Baidu image translation can hand back a translated picture.
    pub fn supports_image_output(self) -> (r: bool)
        ensures
            r == (self == TranslationProviderKind::BaiduImageTranslate),
    {
        match self {
            TranslationProviderKind::BaiduImageTranslate => true,
            TranslationProviderKind::OpenAiCompatible => false,
        }
    }
}

impl Default for TranslationProviderKind {
    fn default() -> (r: Self)
        ensures
            r == TranslationProviderKind::OpenAiCompatible,
    {
        TranslationProviderKind::OpenAiCompatible
    }
}

#[derive(Debug, Clone, PartialEq, Eq)]
pub struct GeneralConfig {
    pub hotkey: String,
    pub auto_copy: bool,
    pub auto_save: bool,
    pub launch_at_startup: bool,
    pub save_dir: String,
}

#[derive(Debug, Clone, PartialEq, Eq)]
pub struct AnnotationDefaults {
    pub default_color_index: usize,
    pub stroke_width: u32,
    pub text_size: u32,
    pub number_size: u32,
    pub mosaic_size: u32,
    pub text_bold: bool,
    pub text_italic: bool,
    pub text_background: bool,
    pub text_font_family: TextFontFamily,
}

#[derive(Debug, Clone, PartialEq, Eq)]
pub struct PinDefaults {
    pub always_on_top: bool,
    pub show_decoration: bool,
    pub opacity_percent: u8,
}

#[derive(Debug, Clone, PartialEq, Eq)]
pub struct OcrProfile {
    pub id: String,
    pub display_name: String,
    pub provider_kind: OcrProviderKind,
    pub base_url: String,
    pub api_key: String,
    pub secret_key: String,
    pub model: String,
    pub bbox_scale_mode: OcrBboxScaleMode,
}

#[derive(Debug, Clone, PartialEq, Eq)]
pub struct OcrConfig {
    pub enabled: bool,
    pub auto_copy_full_text: bool,
    pub auto_exit_after_copy: bool,
    pub default_profile_id: String,
    pub request_timeout_ms: u64,
    pub profiles: Vec<OcrProfile>,
}

#[derive(Debug, Clone, PartialEq, Eq)]
pub struct TranslationProfile {
    pub id: String,
    pub display_name: String,
    pub provider_kind: TranslationProviderKind,
    pub base_url: String,
    pub api_key: String,
    pub secret_key: String,
    pub model: String,
    pub prompt_template: String,
    pub source_lang: String,
    pub target_lang: String,
    pub use_translated_image: bool,
}

#[derive(Debug, Clone, PartialEq, Eq)]
pub struct TranslationConfig {
    pub enabled: bool,
    pub auto_copy_full_text: bool,
    pub auto_exit_after_copy: bool,
    pub default_profile_id: String,
    pub request_timeout_ms: u64,
    pub profiles: Vec<TranslationProfile>,
}

#[derive(Debug, Clone, PartialEq, Eq)]
pub struct AppConfig {
    pub general: GeneralConfig,
    pub annotation_defaults: AnnotationDefaults,
    pub pin_defaults: PinDefaults,
    pub ocr: OcrConfig,
    pub translation: TranslationConfig,
}

impl Default for GeneralConfig {
    /// `Ctrl+Shift+A`, copy and save on, no launch at startup, captures saved under the pictures folder.
    fn default() -> (r: Self)
        ensures
            r.hotkey@ == "Ctrl+Shift+A"@,
            r.auto_copy,
            r.auto_save,
            !r.launch_at_startup,
            ends_with_spec(r.save_dir@, APP_NAME@),
    {
        GeneralConfig {
            hotkey: String::from_str("Ctrl+Shift+A"),
            auto_copy: true,
            auto_save: true,
            launch_at_startup: false,
            save_dir: default_save_dir(),
        }
    }
}

impl AnnotationDefaults {
    pub open spec fn is_default(&self) -> bool {
        &&& self.default_color_index == ANNOTATION_COLOR_PRESET_COUNT - 1
        &&& self.stroke_width == DEFAULT_STROKE_WIDTH
        &&& self.text_size == DEFAULT_TEXT_SIZE
        &&& self.number_size == DEFAULT_NUMBER_SIZE
        &&& self.mosaic_size == DEFAULT_MOSAIC_SIZE
        &&& !self.text_bold
        &&& !self.text_italic
        &&& !self.text_background
        &&& self.text_font_family == TextFontFamily::YaHei
    }
}

impl Default for AnnotationDefaults {
    /// The last colour, default sizes, plain text in YaHei.
    fn default() -> (r: Self)
        ensures
            r.is_default(),
    {
        AnnotationDefaults {
            default_color_index: ANNOTATION_COLOR_PRESET_COUNT - 1,
            stroke_width: DEFAULT_STROKE_WIDTH,
            text_size: DEFAULT_TEXT_SIZE,
            number_size: DEFAULT_NUMBER_SIZE,
            mosaic_size: DEFAULT_MOSAIC_SIZE,
            text_bold: false,
            text_italic: false,
            text_background: false,
            text_font_family: TextFontFamily::YaHei,
        }
    }
}

impl Default for PinDefaults {
    /// Always on top, decorated, fully opaque.
    fn default() -> (r: Self)
        ensures
            r.always_on_top,
            r.show_decoration,
            r.opacity_percent == DEFAULT_PIN_OPACITY_PERCENT,
    {
        PinDefaults { always_on_top: true, show_decoration: true, opacity_percent: DEFAULT_PIN_OPACITY_PERCENT }
    }
}

impl Default for OcrConfig {
    /// Disabled, no profiles, default timeout, exit after a copy.
    fn default() -> (r: Self)
        ensures
            !r.enabled,
            !r.auto_copy_full_text,
            r.auto_exit_after_copy,
            r.default_profile_id@.len() == 0,
            r.request_timeout_ms == OCR_TIMEOUT_DEFAULT_MS,
            r.profiles@.len() == 0,
    {
        OcrConfig {
            enabled: false,
            auto_copy_full_text: false,
            auto_exit_after_copy: true,
            default_profile_id: String::new(),
            request_timeout_ms: OCR_TIMEOUT_DEFAULT_MS,
            profiles: Vec::new(),
        }
    }
}

impl Default for TranslationConfig {
    /// Disabled, no profiles, default timeout, exit after a copy.
    fn default() -> (r: Self)
        ensures
            !r.enabled,
            !r.auto_copy_full_text,
            r.auto_exit_after_copy,
            r.default_profile_id@.len() == 0,
            r.request_timeout_ms == TRANSLATION_TIMEOUT_DEFAULT_MS,
            r.profiles@.len() == 0,
    {
        TranslationConfig {
            enabled: false,
            auto_copy_full_text: false,
            auto_exit_after_copy: true,
            default_profile_id: String::new(),
            request_timeout_ms: TRANSLATION_TIMEOUT_DEFAULT_MS,
            profiles: Vec::new(),
        }
    }
}

impl Default for AppConfig {
    fn default() -> (r: Self)
        ensures
            r.general.hotkey@ == "Ctrl+Shift+A"@,
            r.general.auto_copy,
            r.general.auto_save,
            !r.general.launch_at_startup,
            ends_with_spec(r.general.save_dir@, APP_NAME@),
            r.annotation_defaults.is_default(),
            r.pin_defaults.always_on_top,
            r.pin_defaults.show_decoration,
            r.pin_defaults.opacity_percent == DEFAULT_PIN_OPACITY_PERCENT,
            !r.ocr.enabled,
            !r.ocr.auto_copy_full_text,
            r.ocr.auto_exit_after_copy,
            r.ocr.default_profile_id@.len() == 0,
            r.ocr.request_timeout_ms == OCR_TIMEOUT_DEFAULT_MS,
            r.ocr.profiles@.len() == 0,
            !r.translation.enabled,
            !r.translation.auto_copy_full_text,
            r.translation.auto_exit_after_copy,
            r.translation.default_profile_id@.len() == 0,
            r.translation.request_timeout_ms == TRANSLATION_TIMEOUT_DEFAULT_MS,
            r.translation.profiles@.len() == 0,
    {
        AppConfig {
            general: GeneralConfig::default(),
            annotation_defaults: AnnotationDefaults::default(),
            pin_defaults: PinDefaults::default(),
            ocr: OcrConfig::default(),
            translation: TranslationConfig::default(),
        }
    }
}

/// A fresh OpenAI-compatible OCR profile named `模型{index}`.
pub fn default_ocr_profile(index: usize, id: String) -> (r: OcrProfile)
    ensures
        r.id@ == id@,
        r.display_name@ == "模型"@ + crate::text::decimal_spec(index as nat),
        r.provider_kind == OcrProviderKind::OpenAiCompatible,
        r.base_url@ == OcrProviderKind::OpenAiCompatible.default_base_url_spec(),
        r.api_key@.len() == 0,
        r.secret_key@.len() == 0,
        r.model@ == OcrProviderKind::OpenAiCompatible.default_model_spec(),
        r.bbox_scale_mode == OcrBboxScaleMode::ZeroTo1000,
{
    let provider = OcrProviderKind::OpenAiCompatible;
    OcrProfile {
        id,
        display_name: prefixed_decimal("模型", index),
        provider_kind: provider,
        base_url: String::from_str(provider.default_base_url()),
        api_key: String::new(),
        secret_key: String::new(),
        model: String::from_str(provider.default_model()),
        bbox_scale_mode: provider.default_bbox_scale_mode(),
    }
}

/// A fresh OpenAI-compatible translation profile named `翻译模型{index}`,
/// with source language `auto`, target language Chinese and the default prompt.
pub fn default_translation_profile(index: usize, id: String) -> (r: TranslationProfile)
    ensures
        r.id@ == id@,
        r.display_name@ == "翻译模型"@ + crate::text::decimal_spec(index as nat),
        r.provider_kind == TranslationProviderKind::OpenAiCompatible,
        r.base_url@ == TranslationProviderKind::OpenAiCompatible.default_base_url_spec(),
        r.api_key@.len() == 0,
        r.secret_key@.len() == 0,
        r.model@ == TranslationProviderKind::OpenAiCompatible.default_model_spec(),
        r.prompt_template@ == DEFAULT_TRANSLATION_PROMPT_TEMPLATE@,
        r.source_lang@ == "auto"@,
        r.target_lang@ == "zh"@,
        !r.use_translated_image,
{
    let provider = TranslationProviderKind::OpenAiCompatible;
    TranslationProfile {
        id,
        display_name: prefixed_decimal("翻译模型", index),
        provider_kind: provider,
        base_url: String::from_str(provider.default_base_url()),
        api_key: String::new(),
        secret_key: String::new(),
        model: String::from_str(provider.default_model()),
        prompt_template: String::from_str(DEFAULT_TRANSLATION_PROMPT_TEMPLATE),
        source_lang: String::from_str("auto"),
        target_lang: String::from_str("zh"),
        use_translated_image: false,
    }
}

} // verus!
