use crate::config::paths::{ends_with_spec, APP_NAME};
use crate::config::types::{
    AnnotationDefaults, AppConfig, GeneralConfig, OcrConfig, OcrProfile, PinDefaults, TextFontFamily,
    TranslationConfig, TranslationProfile, DEFAULT_PIN_OPACITY_PERCENT, OCR_TIMEOUT_DEFAULT_MS,
    TRANSLATION_TIMEOUT_DEFAULT_MS,
};
use vstd::prelude::*;

verus! {

/// A configuration file as read, old or new layout: every field may be missing,
/// and the general settings may also stand flat at the top level.
#[derive(Debug, Default)]
pub struct AppConfigCompat {
    pub general: Option<GeneralConfigCompat>,
    pub annotation_defaults: Option<AnnotationDefaultsCompat>,
    pub pin_defaults: Option<PinDefaultsCompat>,
    pub ocr: Option<OcrConfigCompat>,
    pub translation: Option<TranslationConfigCompat>,
    pub hotkey: Option<String>,
    pub auto_copy: Option<bool>,
    pub auto_save: Option<bool>,
    pub launch_at_startup: Option<bool>,
    pub save_dir: Option<String>,
}

#[derive(Debug, Default)]
pub struct GeneralConfigCompat {
    pub hotkey: Option<String>,
    pub auto_copy: Option<bool>,
    pub auto_save: Option<bool>,
    pub launch_at_startup: Option<bool>,
    pub save_dir: Option<String>,
}

#[derive(Debug, Default)]
pub struct AnnotationDefaultsCompat {
    pub default_color_index: Option<usize>,
    pub stroke_width: Option<u32>,
    pub text_size: Option<u32>,
    pub number_size: Option<u32>,
    pub mosaic_size: Option<u32>,
    pub text_bold: Option<bool>,
    pub text_italic: Option<bool>,
    pub text_background: Option<bool>,
    pub text_font_family: Option<TextFontFamily>,
}

#[derive(Debug, Default)]
pub struct PinDefaultsCompat {
    pub always_on_top: Option<bool>,
    pub show_decoration: Option<bool>,
    pub opacity_percent: Option<u8>,
}

#[derive(Debug, Default)]
pub struct OcrConfigCompat {
    pub enabled: Option<bool>,
    pub auto_copy_full_text: Option<bool>,
    pub auto_exit_after_copy: Option<bool>,
    pub default_profile_id: Option<String>,
    pub request_timeout_ms: Option<u64>,
    pub profiles: Option<Vec<OcrProfile>>,
}

#[derive(Debug, Default)]
pub struct TranslationConfigCompat {
    pub enabled: Option<bool>,
    pub auto_copy_full_text: Option<bool>,
    pub auto_exit_after_copy: Option<bool>,
    pub default_profile_id: Option<String>,
    pub request_timeout_ms: Option<u64>,
    pub profiles: Option<Vec<TranslationProfile>>,
}

/// `value` where given, `current` otherwise.
pub open spec fn or_keep<T>(value: Option<T>, current: T) -> T {
    match value {
        Some(v) => v,
        None => current,
    }
}

/// Overrides the general settings that `value` gives.
pub fn apply_general(target: &mut GeneralConfig, value: GeneralConfigCompat)
    ensures
        final(target).hotkey == or_keep(value.hotkey, old(target).hotkey),
        final(target).auto_copy == or_keep(value.auto_copy, old(target).auto_copy),
        final(target).auto_save == or_keep(value.auto_save, old(target).auto_save),
        final(target).launch_at_startup == or_keep(value.launch_at_startup, old(target).launch_at_startup),
        final(target).save_dir == or_keep(value.save_dir, old(target).save_dir),
{
    if let Some(hotkey) = value.hotkey {
        target.hotkey = hotkey;
    }
    target.auto_copy = pick(value.auto_copy, target.auto_copy);
    target.auto_save = pick(value.auto_save, target.auto_save);
    target.launch_at_startup = pick(value.launch_at_startup, target.launch_at_startup);
    if let Some(save_dir) = value.save_dir {
        target.save_dir = save_dir;
    }
}

/// Overrides the annotation defaults that `value` gives.
pub fn apply_annotation(target: &mut AnnotationDefaults, value: AnnotationDefaultsCompat)
    ensures
        final(target).default_color_index == or_keep(value.default_color_index, old(target).default_color_index),
        final(target).stroke_width == or_keep(value.stroke_width, old(target).stroke_width),
        final(target).text_size == or_keep(value.text_size, old(target).text_size),
        final(target).number_size == or_keep(value.number_size, old(target).number_size),
        final(target).mosaic_size == or_keep(value.mosaic_size, old(target).mosaic_size),
        final(target).text_bold == or_keep(value.text_bold, old(target).text_bold),
        final(target).text_italic == or_keep(value.text_italic, old(target).text_italic),
        final(target).text_background == or_keep(value.text_background, old(target).text_background),
        final(target).text_font_family == or_keep(value.text_font_family, old(target).text_font_family),
{
    target.default_color_index = pick(value.default_color_index, target.default_color_index);
    target.stroke_width = pick(value.stroke_width, target.stroke_width);
    target.text_size = pick(value.text_size, target.text_size);
    target.number_size = pick(value.number_size, target.number_size);
    target.mosaic_size = pick(value.mosaic_size, target.mosaic_size);
    target.text_bold = pick(value.text_bold, target.text_bold);
    target.text_italic = pick(value.text_italic, target.text_italic);
    target.text_background = pick(value.text_background, target.text_background);
    target.text_font_family = pick(value.text_font_family, target.text_font_family);
}

/// Overrides the pin defaults that `value` gives.
pub fn apply_pin(target: &mut PinDefaults, value: PinDefaultsCompat)
    ensures
        final(target).always_on_top == or_keep(value.always_on_top, old(target).always_on_top),
        final(target).show_decoration == or_keep(value.show_decoration, old(target).show_decoration),
        final(target).opacity_percent == or_keep(value.opacity_percent, old(target).opacity_percent),
{
    target.always_on_top = pick(value.always_on_top, target.always_on_top);
    target.show_decoration = pick(value.show_decoration, target.show_decoration);
    target.opacity_percent = pick(value.opacity_percent, target.opacity_percent);
}

/// Overrides the OCR settings that `value` gives.
pub fn apply_ocr(target: &mut OcrConfig, value: OcrConfigCompat)
    ensures
        final(target).enabled == or_keep(value.enabled, old(target).enabled),
        final(target).auto_copy_full_text == or_keep(value.auto_copy_full_text, old(target).auto_copy_full_text),
        final(target).auto_exit_after_copy == or_keep(value.auto_exit_after_copy, old(target).auto_exit_after_copy),
        final(target).default_profile_id == or_keep(value.default_profile_id, old(target).default_profile_id),
        final(target).request_timeout_ms == or_keep(value.request_timeout_ms, old(target).request_timeout_ms),
        final(target).profiles == or_keep(value.profiles, old(target).profiles),
{
    target.enabled = pick(value.enabled, target.enabled);
    target.auto_copy_full_text = pick(value.auto_copy_full_text, target.auto_copy_full_text);
    target.auto_exit_after_copy = pick(value.auto_exit_after_copy, target.auto_exit_after_copy);
    if let Some(v) = value.default_profile_id {
        target.default_profile_id = v;
    }
    target.request_timeout_ms = pick(value.request_timeout_ms, target.request_timeout_ms);
    if let Some(v) = value.profiles {
        target.profiles = v;
    }
}

/// Overrides the translation settings that `value` gives.
pub fn apply_translation(target: &mut TranslationConfig, value: TranslationConfigCompat)
    ensures
        final(target).enabled == or_keep(value.enabled, old(target).enabled),
        final(target).auto_copy_full_text == or_keep(value.auto_copy_full_text, old(target).auto_copy_full_text),
        final(target).auto_exit_after_copy == or_keep(value.auto_exit_after_copy, old(target).auto_exit_after_copy),
        final(target).default_profile_id == or_keep(value.default_profile_id, old(target).default_profile_id),
        final(target).request_timeout_ms == or_keep(value.request_timeout_ms, old(target).request_timeout_ms),
        final(target).profiles == or_keep(value.profiles, old(target).profiles),
{
    target.enabled = pick(value.enabled, target.enabled);
    target.auto_copy_full_text = pick(value.auto_copy_full_text, target.auto_copy_full_text);
    target.auto_exit_after_copy = pick(value.auto_exit_after_copy, target.auto_exit_after_copy);
    if let Some(v) = value.default_profile_id {
        target.default_profile_id = v;
    }
    target.request_timeout_ms = pick(value.request_timeout_ms, target.request_timeout_ms);
    if let Some(v) = value.profiles {
        target.profiles = v;
    }
}

/// A general setting as read: the flat top-level value wins over the nested one,
/// which wins over the default.
pub open spec fn layered<T>(flat: Option<T>, nested: Option<T>, default: T) -> T {
    or_keep(flat, or_keep(nested, default))
}

/// `value` where given, `current` otherwise.
pub fn pick<T: Copy>(value: Option<T>, current: T) -> (r: T)
    ensures
        r == or_keep(value, current),
{
    match value {
        Some(v) => v,
        None => current,
    }
}

impl AppConfigCompat {
    /// The configuration that a file as read describes: defaults, overridden by
    /// every section given, and the flat general keys of the old layout last.
    pub fn into_config(self) -> (r: AppConfig)
        ensures
            ({
                let g = self.general;
                &&& r.general.hotkey@ == (match self.hotkey {
                    Some(h) => h@,
                    None => match g {
                        Some(gc) => match gc.hotkey {
                            Some(h) => h@,
                            None => "Ctrl+Shift+A"@,
                        },
                        None => "Ctrl+Shift+A"@,
                    },
                })
                &&& r.general.auto_copy == layered(self.auto_copy, match g { Some(gc) => gc.auto_copy, None => None }, true)
                &&& r.general.auto_save == layered(self.auto_save, match g { Some(gc) => gc.auto_save, None => None }, true)
                &&& r.general.launch_at_startup == layered(
                    self.launch_at_startup,
                    match g { Some(gc) => gc.launch_at_startup, None => None },
                    false,
                )
                &&& match self.save_dir {
                    Some(d) => r.general.save_dir == d,
                    None => match g {
                        Some(gc) if gc.save_dir is Some => r.general.save_dir == gc.save_dir.unwrap(),
                        _ => ends_with_spec(r.general.save_dir@, APP_NAME@),
                    },
                }
            }),
            match self.annotation_defaults {
                None => r.annotation_defaults.is_default(),
                Some(a) => {
                    &&& r.annotation_defaults.default_color_index == or_keep(a.default_color_index, 4)
                    &&& r.annotation_defaults.stroke_width == or_keep(a.stroke_width, 2)
                    &&& r.annotation_defaults.text_size == or_keep(a.text_size, 24)
                    &&& r.annotation_defaults.number_size == or_keep(a.number_size, 28)
                    &&& r.annotation_defaults.mosaic_size == or_keep(a.mosaic_size, 12)
                    &&& r.annotation_defaults.text_bold == or_keep(a.text_bold, false)
                    &&& r.annotation_defaults.text_italic == or_keep(a.text_italic, false)
                    &&& r.annotation_defaults.text_background == or_keep(a.text_background, false)
                    &&& r.annotation_defaults.text_font_family == or_keep(a.text_font_family, TextFontFamily::YaHei)
                },
            },
            match self.pin_defaults {
                None => r.pin_defaults.always_on_top && r.pin_defaults.show_decoration
                    && r.pin_defaults.opacity_percent == DEFAULT_PIN_OPACITY_PERCENT,
                Some(p) => {
                    &&& r.pin_defaults.always_on_top == or_keep(p.always_on_top, true)
                    &&& r.pin_defaults.show_decoration == or_keep(p.show_decoration, true)
                    &&& r.pin_defaults.opacity_percent == or_keep(p.opacity_percent, DEFAULT_PIN_OPACITY_PERCENT)
                },
            },
            match self.ocr {
                None => !r.ocr.enabled && !r.ocr.auto_copy_full_text && r.ocr.auto_exit_after_copy
                    && r.ocr.default_profile_id@.len() == 0 && r.ocr.request_timeout_ms == OCR_TIMEOUT_DEFAULT_MS
                    && r.ocr.profiles@.len() == 0,
                Some(o) => {
                    &&& r.ocr.enabled == or_keep(o.enabled, false)
                    &&& r.ocr.auto_copy_full_text == or_keep(o.auto_copy_full_text, false)
                    &&& r.ocr.auto_exit_after_copy == or_keep(o.auto_exit_after_copy, true)
                    &&& match o.default_profile_id {
                        Some(d) => r.ocr.default_profile_id == d,
                        None => r.ocr.default_profile_id@.len() == 0,
                    }
                    &&& r.ocr.request_timeout_ms == or_keep(o.request_timeout_ms, OCR_TIMEOUT_DEFAULT_MS)
                    &&& match o.profiles {
                        Some(ps) => r.ocr.profiles == ps,
                        None => r.ocr.profiles@.len() == 0,
                    }
                },
            },
            match self.translation {
                None => !r.translation.enabled && !r.translation.auto_copy_full_text
                    && r.translation.auto_exit_after_copy && r.translation.default_profile_id@.len() == 0
                    && r.translation.request_timeout_ms == TRANSLATION_TIMEOUT_DEFAULT_MS
                    && r.translation.profiles@.len() == 0,
                Some(t) => {
                    &&& r.translation.enabled == or_keep(t.enabled, false)
                    &&& r.translation.auto_copy_full_text == or_keep(t.auto_copy_full_text, false)
                    &&& r.translation.auto_exit_after_copy == or_keep(t.auto_exit_after_copy, true)
                    &&& match t.default_profile_id {
                        Some(d) => r.translation.default_profile_id == d,
                        None => r.translation.default_profile_id@.len() == 0,
                    }
                    &&& r.translation.request_timeout_ms == or_keep(t.request_timeout_ms, TRANSLATION_TIMEOUT_DEFAULT_MS)
                    &&& match t.profiles {
                        Some(ps) => r.translation.profiles == ps,
                        None => r.translation.profiles@.len() == 0,
                    }
                },
            },
    {
        let general = general_from(self.general, self.hotkey, self.auto_copy, self.auto_save, self.launch_at_startup, self.save_dir);
        let annotation_defaults = annotation_from(self.annotation_defaults);
        let pin_defaults = pin_from(self.pin_defaults);
        let ocr = ocr_from(self.ocr);
        let translation = translation_from(self.translation);
        AppConfig { general, annotation_defaults, pin_defaults, ocr, translation }
    }
}

fn general_from(
    nested: Option<GeneralConfigCompat>,
    hotkey: Option<String>,
    auto_copy: Option<bool>,
    auto_save: Option<bool>,
    launch_at_startup: Option<bool>,
    save_dir: Option<String>,
) -> (r: GeneralConfig)
    ensures
        r.hotkey@ == (match hotkey {
            Some(h) => h@,
            None => match nested {
                Some(gc) => match gc.hotkey {
                    Some(h) => h@,
                    None => "Ctrl+Shift+A"@,
                },
                None => "Ctrl+Shift+A"@,
            },
        }),
        r.auto_copy == layered(auto_copy, match nested { Some(gc) => gc.auto_copy, None => None }, true),
        r.auto_save == layered(auto_save, match nested { Some(gc) => gc.auto_save, None => None }, true),
        r.launch_at_startup == layered(launch_at_startup, match nested { Some(gc) => gc.launch_at_startup, None => None }, false),
        match save_dir {
            Some(d) => r.save_dir == d,
            None => match nested {
                Some(gc) if gc.save_dir is Some => r.save_dir == gc.save_dir.unwrap(),
                _ => ends_with_spec(r.save_dir@, APP_NAME@),
            },
        },
{
    let mut general = GeneralConfig::default();
    if let Some(g) = nested {
        apply_general(&mut general, g);
    }
    if let Some(h) = hotkey {
        general.hotkey = h;
    }
    general.auto_copy = pick(auto_copy, general.auto_copy);
    general.auto_save = pick(auto_save, general.auto_save);
    general.launch_at_startup = pick(launch_at_startup, general.launch_at_startup);
    if let Some(d) = save_dir {
        general.save_dir = d;
    }
    general
}

fn annotation_from(value: Option<AnnotationDefaultsCompat>) -> (r: AnnotationDefaults)
    ensures
        match value {
            None => r.is_default(),
            Some(a) => {
                &&& r.default_color_index == or_keep(a.default_color_index, 4)
                &&& r.stroke_width == or_keep(a.stroke_width, 2)
                &&& r.text_size == or_keep(a.text_size, 24)
                &&& r.number_size == or_keep(a.number_size, 28)
                &&& r.mosaic_size == or_keep(a.mosaic_size, 12)
                &&& r.text_bold == or_keep(a.text_bold, false)
                &&& r.text_italic == or_keep(a.text_italic, false)
                &&& r.text_background == or_keep(a.text_background, false)
                &&& r.text_font_family == or_keep(a.text_font_family, TextFontFamily::YaHei)
            },
        },
{
    let mut d = AnnotationDefaults::default();
    if let Some(a) = value {
        apply_annotation(&mut d, a);
    }
    d
}

fn pin_from(value: Option<PinDefaultsCompat>) -> (r: PinDefaults)
    ensures
        match value {
            None => r.always_on_top && r.show_decoration && r.opacity_percent == DEFAULT_PIN_OPACITY_PERCENT,
            Some(p) => {
                &&& r.always_on_top == or_keep(p.always_on_top, true)
                &&& r.show_decoration == or_keep(p.show_decoration, true)
                &&& r.opacity_percent == or_keep(p.opacity_percent, DEFAULT_PIN_OPACITY_PERCENT)
            },
        },
{
    let mut d = PinDefaults::default();
    if let Some(p) = value {
        apply_pin(&mut d, p);
    }
    d
}

fn ocr_from(value: Option<OcrConfigCompat>) -> (r: OcrConfig)
    ensures
        match value {
            None => !r.enabled && !r.auto_copy_full_text && r.auto_exit_after_copy
                && r.default_profile_id@.len() == 0 && r.request_timeout_ms == OCR_TIMEOUT_DEFAULT_MS
                && r.profiles@.len() == 0,
            Some(o) => {
                &&& r.enabled == or_keep(o.enabled, false)
                &&& r.auto_copy_full_text == or_keep(o.auto_copy_full_text, false)
                &&& r.auto_exit_after_copy == or_keep(o.auto_exit_after_copy, true)
                &&& match o.default_profile_id {
                    Some(d) => r.default_profile_id == d,
                    None => r.default_profile_id@.len() == 0,
                }
                &&& r.request_timeout_ms == or_keep(o.request_timeout_ms, OCR_TIMEOUT_DEFAULT_MS)
                &&& match o.profiles {
                    Some(ps) => r.profiles == ps,
                    None => r.profiles@.len() == 0,
                }
            },
        },
{
    let mut d = OcrConfig::default();
    if let Some(o) = value {
        apply_ocr(&mut d, o);
    }
    d
}

fn translation_from(value: Option<TranslationConfigCompat>) -> (r: TranslationConfig)
    ensures
        match value {
            None => !r.enabled && !r.auto_copy_full_text && r.auto_exit_after_copy
                && r.default_profile_id@.len() == 0 && r.request_timeout_ms == TRANSLATION_TIMEOUT_DEFAULT_MS
                && r.profiles@.len() == 0,
            Some(t) => {
                &&& r.enabled == or_keep(t.enabled, false)
                &&& r.auto_copy_full_text == or_keep(t.auto_copy_full_text, false)
                &&& r.auto_exit_after_copy == or_keep(t.auto_exit_after_copy, true)
                &&& match t.default_profile_id {
                    Some(d) => r.default_profile_id == d,
                    None => r.default_profile_id@.len() == 0,
                }
                &&& r.request_timeout_ms == or_keep(t.request_timeout_ms, TRANSLATION_TIMEOUT_DEFAULT_MS)
                &&& match t.profiles {
                    Some(ps) => r.profiles == ps,
                    None => r.profiles@.len() == 0,
                }
            },
        },
{
    let mut d = TranslationConfig::default();
    if let Some(t) = value {
        apply_translation(&mut d, t);
    }
    d
}

} // verus!
