use crate::config::sanitize::{first_free_index, id_candidate, lemma_first_free_is_free};
use crate::config::paths::{ends_with_spec, APP_NAME};
use crate::config::types::{
    AnnotationDefaults, AppConfig, GeneralConfig, OcrConfig, OcrProfile, OcrProviderKind, PinDefaults,
    TranslationConfig, TranslationProfile, TranslationProviderKind, DEFAULT_PIN_OPACITY_PERCENT,
    DEFAULT_TRANSLATION_PROMPT_TEMPLATE,
    OCR_TIMEOUT_DEFAULT_MS, TRANSLATION_TIMEOUT_DEFAULT_MS,
};
use crate::config::validate::ConfigError;
use crate::text::{chars_of, chars_eq, concat, is_blank, is_blank_spec, push_decimal, string_from_chars, trimmed, trim_spec};
use vstd::prelude::*;

verus! {

/// The pages of the settings window.
#[derive(Debug, Clone, Copy, PartialEq, Eq, Structural)]
pub enum SettingsPage {
    General,
    Annotation,
    Pin,
    Ocr,
    Translation,
}

impl SettingsPage {
    /// The pages, in the order the sidebar lists them.
    pub fn all() -> (r: [SettingsPage; 5])
        ensures
            r@ == seq![SettingsPage::General, SettingsPage::Annotation, SettingsPage::Pin, SettingsPage::Ocr,
                SettingsPage::Translation],
    {
        let r = [SettingsPage::General, SettingsPage::Annotation, SettingsPage::Pin, SettingsPage::Ocr, SettingsPage::Translation];
        assert(r@ =~= seq![SettingsPage::General, SettingsPage::Annotation, SettingsPage::Pin, SettingsPage::Ocr,
            SettingsPage::Translation]);
        r
    }

    pub fn title(self) -> (r: &'static str)
        ensures
            r@ == match self {
                SettingsPage::General => "通用"@,
                SettingsPage::Annotation => "标注"@,
                SettingsPage::Pin => "贴图"@,
                SettingsPage::Ocr => "OCR"@,
                SettingsPage::Translation => "翻译"@,
            },
    {
        match self {
            SettingsPage::General => "通用",
            SettingsPage::Annotation => "标注",
            SettingsPage::Pin => "贴图",
            SettingsPage::Ocr => "OCR",
            SettingsPage::Translation => "翻译",
        }
    }

    pub fn summary(self) -> (r: &'static str)
        ensures
            r@ == match self {
                SettingsPage::General => "热键、目录和基础行为"@,
                SettingsPage::Annotation => "新截图进入标注时的默认值"@,
                SettingsPage::Pin => "贴图窗口的默认行为"@,
                SettingsPage::Ocr => "OCR 模型与接口配置"@,
                SettingsPage::Translation => "翻译模型与 Prompt 配置"@,
            },
    {
        match self {
            SettingsPage::General => "热键、目录和基础行为",
            SettingsPage::Annotation => "新截图进入标注时的默认值",
            SettingsPage::Pin => "贴图窗口的默认行为",
            SettingsPage::Ocr => "OCR 模型与接口配置",
            SettingsPage::Translation => "翻译模型与 Prompt 配置",
        }
    }
}

/// The profile selected in a list of `len` profiles: the current one while
/// it exists, else the first, none when the list is empty.
pub fn fix_selection(selected: Option<usize>, len: usize) -> (r: Option<usize>)
    ensures
        r == (match selected {
            Some(i) => if i < len { Some(i) } else if len == 0 { None } else { Some(0usize) },
            None => if len == 0 { None } else { Some(0usize) },
        }),
        r matches Some(i) ==> i < len,
{
    match selected {
        Some(i) => if i < len { Some(i) } else if len == 0 { None } else { Some(0) },
        None => if len == 0 { None } else { Some(0) },
    }
}

/// The ids' characters.
pub open spec fn id_views(ids: Seq<String>) -> Seq<Seq<char>> {
    ids.map_values(|s: String| s@)
}

/// A fresh profile id: `prefix` followed by the smallest counter from 1 on
/// whose id is not among `used`.
pub fn next_profile_id(used: &Vec<String>, prefix: &str) -> (r: String)
    requires
        used@.len() + 1 < usize::MAX,
    ensures
        r@ == id_candidate(prefix@, first_free_index(id_views(used@), prefix@, 1)),
        !id_views(used@).contains(r@),
{
    let ghost views = id_views(used@);
    proof {
        lemma_first_free_is_free(views, prefix@, 1);
    }
    let pre = chars_of(prefix);
    let mut k: usize = 1;
    loop
        invariant
            1 <= k <= first_free_index(views, prefix@, 1) <= 1 + views.len(),
            first_free_index(views, prefix@, 1) == first_free_index(views, prefix@, k as nat),
            !views.contains(id_candidate(prefix@, first_free_index(views, prefix@, 1))),
            pre@ == prefix@,
            views == id_views(used@),
            views.len() == used@.len(),
            used@.len() + 1 < usize::MAX,
        decreases 1 + views.len() - k,
    {
        let mut cand = pre.clone();
        push_decimal(&mut cand, k);
        assert(cand@ == id_candidate(prefix@, k as nat));
        let mut taken = false;
        let mut j: usize = 0;
        while j < used.len()
            invariant
                j <= used@.len(),
                views == id_views(used@),
                taken == (exists|m: int| 0 <= m < j && views[m] == cand@),
            decreases used@.len() - j,
        {
            let u = chars_of(used[j].as_str());
            assert(views[j as int] == u@);
            if chars_eq(u.as_slice(), cand.as_slice()) {
                taken = true;
            }
            j = j + 1;
        }
        if !taken {
            assert(!views.contains(cand@));
            return string_from_chars(cand.as_slice());
        }
        assert(views.contains(cand@)) by {
            let m = choose|m: int| 0 <= m < used@.len() && views[m] == cand@;
            assert(views[m] == cand@);
        }
        proof {
            let ff = first_free_index(views, prefix@, 1);
            assert(!views.contains(id_candidate(prefix@, ff)));
            assert(k != ff);
            assert(first_free_index(views, prefix@, k as nat) == first_free_index(views, prefix@, (k + 1) as nat));
        }
        k = k + 1;
    }
}

/// The default profile id after the profile with id `removed` is deleted
/// from a list now holding `remaining`: unchanged unless it named the
/// deleted profile, then the first remaining id, or empty.
pub fn default_after_removal(default_id: &str, removed: &str, remaining: &Vec<String>) -> (r: String)
    ensures
        r@ == (if default_id@ == removed@ {
            if remaining@.len() > 0 { remaining@[0]@ } else { Seq::<char>::empty() }
        } else {
            default_id@
        }),
{
    if crate::text::str_eq(default_id, removed) {
        if remaining.len() > 0 {
            remaining[0].clone()
        } else {
            String::new()
        }
    } else {
        String::from_str(default_id)
    }
}

/// The Baidu source languages offered, as code and label.
pub open spec fn source_lang_options() -> Seq<(Seq<char>, Seq<char>)> {
    seq![("auto"@, "自动检测"@), ("zh"@, "中文"@), ("en"@, "英语"@), ("jp"@, "日语"@), ("kor"@, "韩语"@),
        ("fra"@, "法语"@), ("spa"@, "西班牙语"@), ("ru"@, "俄语"@), ("de"@, "德语"@)]
}

/// The Baidu target languages offered: the source ones without `auto`.
pub open spec fn target_lang_options() -> Seq<(Seq<char>, Seq<char>)> {
    source_lang_options().drop_first()
}

/// The label of the first option whose code is `code`.
pub open spec fn option_label(options: Seq<(Seq<char>, Seq<char>)>, code: Seq<char>) -> Option<Seq<char>>
    decreases options.len(),
{
    if options.len() == 0 {
        None
    } else if options[0].0 == code {
        Some(options[0].1)
    } else {
        option_label(options.drop_first(), code)
    }
}

/// What a language picker shows for `value`: `label (code)` for a known
/// code, the empty label when nothing is set, else the code as written (trimmed).
pub open spec fn lang_label_spec(options: Seq<(Seq<char>, Seq<char>)>, value: Seq<char>, empty_label: Seq<char>) -> Seq<char> {
    let t = trim_spec(value);
    match option_label(options, t) {
        Some(label) => label + " ("@ + t + ")"@,
        None => if t.len() == 0 { empty_label } else { t },
    }
}

/// The options as character sequences.
pub open spec fn options_view(options: Seq<(&str, &str)>) -> Seq<(Seq<char>, Seq<char>)> {
    options.map_values(|o: (&str, &str)| (o.0@, o.1@))
}

/// The Baidu source languages, for the picker.
pub fn baidu_source_lang_options() -> (r: Vec<(&'static str, &'static str)>)
    ensures
        options_view(r@) == source_lang_options(),
{
    let r = vec![("auto", "自动检测"), ("zh", "中文"), ("en", "英语"), ("jp", "日语"), ("kor", "韩语"),
        ("fra", "法语"), ("spa", "西班牙语"), ("ru", "俄语"), ("de", "德语")];
    assert(options_view(r@) =~= source_lang_options());
    r
}

/// The Baidu target languages, for the picker.
pub fn baidu_target_lang_options() -> (r: Vec<(&'static str, &'static str)>)
    ensures
        options_view(r@) == target_lang_options(),
{
    let r = vec![("zh", "中文"), ("en", "英语"), ("jp", "日语"), ("kor", "韩语"), ("fra", "法语"),
        ("spa", "西班牙语"), ("ru", "俄语"), ("de", "德语")];
    assert(options_view(r@) =~= target_lang_options());
    r
}


/// The label a language picker shows.
pub fn baidu_lang_label(options: &[(&str, &str)], value: &str, empty_label: &str) -> (r: String)
    ensures
        r@ == lang_label_spec(options_view(options@), value@, empty_label@),
{
    let ghost opts = options_view(options@);
    let t = trimmed(value);
    let tc = chars_of(t.as_str());
    let mut i: usize = 0;
    assert(opts.skip(0) =~= opts);
    while i < options.len()
        invariant
            i <= options@.len(),
            opts == options_view(options@),
            tc@ == t@,
            t@ == trim_spec(value@),
            option_label(opts, t@) == option_label(opts.skip(i as int), t@),
        decreases options@.len() - i,
    {
        let ghost rest = opts.skip(i as int);
        assert(rest[0] == opts[i as int]);
        assert(rest.drop_first() =~= opts.skip(i + 1));
        let (code, label) = options[i];
        let cc = chars_of(code);
        if chars_eq(cc.as_slice(), tc.as_slice()) {
            let a = concat(label, " (");
            let b = concat(a.as_str(), t.as_str());
            return concat(b.as_str(), ")");
        }
        i = i + 1;
    }
    assert(opts.skip(options@.len() as int) =~= Seq::<(Seq<char>, Seq<char>)>::empty());
    if tc.len() == 0 {
        String::from_str(empty_label)
    } else {
        t
    }
}

/// Why the settings could not be saved.
#[derive(Debug, Clone, Copy, PartialEq, Eq, Structural)]
pub enum SaveError {
    /// The hotkey field is blank.
    EmptyHotkey,
    /// The save directory field is blank.
    EmptySaveDir,
    /// The edited configuration breaks a rule.
    Invalid(ConfigError),
}

impl SaveError {
    pub fn message(&self) -> (r: String)
        ensures
            *self == SaveError::EmptyHotkey ==> r@ == "截图热键不能为空"@,
            *self == SaveError::EmptySaveDir ==> r@ == "保存目录不能为空"@,
    {
        match self {
            SaveError::EmptyHotkey => String::from_str("截图热键不能为空"),
            SaveError::EmptySaveDir => String::from_str("保存目录不能为空"),
            SaveError::Invalid(_) => String::from_str("配置无效"),
        }
    }
}

fn copy_ocr_profile(p: &OcrProfile) -> (r: OcrProfile)
    ensures
        r == *p,
{
    OcrProfile {
        id: p.id.clone(),
        display_name: p.display_name.clone(),
        provider_kind: p.provider_kind,
        base_url: p.base_url.clone(),
        api_key: p.api_key.clone(),
        secret_key: p.secret_key.clone(),
        model: p.model.clone(),
        bbox_scale_mode: p.bbox_scale_mode,
    }
}

fn copy_translation_profile(p: &TranslationProfile) -> (r: TranslationProfile)
    ensures
        r == *p,
{
    TranslationProfile {
        id: p.id.clone(),
        display_name: p.display_name.clone(),
        provider_kind: p.provider_kind,
        base_url: p.base_url.clone(),
        api_key: p.api_key.clone(),
        secret_key: p.secret_key.clone(),
        model: p.model.clone(),
        prompt_template: p.prompt_template.clone(),
        source_lang: p.source_lang.clone(),
        target_lang: p.target_lang.clone(),
        use_translated_image: p.use_translated_image,
    }
}

fn copy_ocr_profiles(v: &Vec<OcrProfile>) -> (r: Vec<OcrProfile>)
    ensures
        r@ == v@,
{
    let mut out: Vec<OcrProfile> = Vec::new();
    let mut i: usize = 0;
    while i < v.len()
        invariant
            i <= v@.len(),
            out@ == v@.take(i as int),
        decreases v@.len() - i,
    {
        out.push(copy_ocr_profile(&v[i]));
        proof {
            assert(v@.take(i + 1) =~= v@.take(i as int).push(v@[i as int]));
        }
        i = i + 1;
    }
    assert(v@.take(v@.len() as int) =~= v@);
    out
}

fn copy_translation_profiles(v: &Vec<TranslationProfile>) -> (r: Vec<TranslationProfile>)
    ensures
        r@ == v@,
{
    let mut out: Vec<TranslationProfile> = Vec::new();
    let mut i: usize = 0;
    while i < v.len()
        invariant
            i <= v@.len(),
            out@ == v@.take(i as int),
        decreases v@.len() - i,
    {
        out.push(copy_translation_profile(&v[i]));
        proof {
            assert(v@.take(i + 1) =~= v@.take(i as int).push(v@[i as int]));
        }
        i = i + 1;
    }
    assert(v@.take(v@.len() as int) =~= v@);
    out
}

/// `c` is `draft` with the hotkey and the save directory given by their
/// text, every other setting as it was.
pub open spec fn saved_from(c: AppConfig, draft: AppConfig, hotkey: Seq<char>, save_dir: Seq<char>) -> bool {
    &&& c.general.hotkey@ == hotkey
    &&& c.general.save_dir@ == save_dir
    &&& c.general.auto_copy == draft.general.auto_copy
    &&& c.general.auto_save == draft.general.auto_save
    &&& c.general.launch_at_startup == draft.general.launch_at_startup
    &&& c.annotation_defaults == draft.annotation_defaults
    &&& c.pin_defaults == draft.pin_defaults
    &&& c.ocr.enabled == draft.ocr.enabled
    &&& c.ocr.auto_copy_full_text == draft.ocr.auto_copy_full_text
    &&& c.ocr.auto_exit_after_copy == draft.ocr.auto_exit_after_copy
    &&& c.ocr.default_profile_id@ == draft.ocr.default_profile_id@
    &&& c.ocr.request_timeout_ms == draft.ocr.request_timeout_ms
    &&& c.ocr.profiles@ == draft.ocr.profiles@
    &&& c.translation.enabled == draft.translation.enabled
    &&& c.translation.auto_copy_full_text == draft.translation.auto_copy_full_text
    &&& c.translation.auto_exit_after_copy == draft.translation.auto_exit_after_copy
    &&& c.translation.default_profile_id@ == draft.translation.default_profile_id@
    &&& c.translation.request_timeout_ms == draft.translation.request_timeout_ms
    &&& c.translation.profiles@ == draft.translation.profiles@
}

/// Whether a configuration is valid is decided by what `saved_from` fixes:
/// two saves of the same draft and fields are judged alike.
pub proof fn lemma_saved_judged_alike(a: AppConfig, b: AppConfig, draft: AppConfig, hotkey: Seq<char>, save_dir: Seq<char>)
    requires
        saved_from(a, draft, hotkey, save_dir),
        saved_from(b, draft, hotkey, save_dir),
    ensures
        a.validation_error() == b.validation_error(),
{
}

/// The configuration a save would write: the draft with the hotkey and the
/// save directory taken from their text fields, trimmed; refused when either
/// field is blank, else exactly when that configuration breaks a rule (the
/// first rule broken is reported).
pub fn prepare_save(draft: &AppConfig, hotkey_input: &str, save_dir_input: &str) -> (r: Result<AppConfig, SaveError>)
    ensures
        trim_spec(hotkey_input@).len() == 0 ==> r == Err::<AppConfig, SaveError>(SaveError::EmptyHotkey),
        trim_spec(hotkey_input@).len() > 0 && trim_spec(save_dir_input@).len() == 0
            ==> r == Err::<AppConfig, SaveError>(SaveError::EmptySaveDir),
        trim_spec(hotkey_input@).len() > 0 && trim_spec(save_dir_input@).len() > 0 ==> match r {
            Ok(c) => saved_from(c, *draft, trim_spec(hotkey_input@), trim_spec(save_dir_input@))
                && c.validation_error() is None,
            Err(SaveError::Invalid(e)) => exists|c: AppConfig|
                saved_from(c, *draft, trim_spec(hotkey_input@), trim_spec(save_dir_input@))
                && #[trigger] c.validation_error() == Some(e),
            Err(_) => false,
        },
{
    let hotkey = trimmed(hotkey_input);
    if is_blank(hotkey_input) {
        return Err(SaveError::EmptyHotkey);
    }
    if is_blank(save_dir_input) {
        return Err(SaveError::EmptySaveDir);
    }
    let next = AppConfig {
        general: GeneralConfig {
            hotkey,
            auto_copy: draft.general.auto_copy,
            auto_save: draft.general.auto_save,
            launch_at_startup: draft.general.launch_at_startup,
            save_dir: trimmed(save_dir_input),
        },
        annotation_defaults: AnnotationDefaults {
            default_color_index: draft.annotation_defaults.default_color_index,
            stroke_width: draft.annotation_defaults.stroke_width,
            text_size: draft.annotation_defaults.text_size,
            number_size: draft.annotation_defaults.number_size,
            mosaic_size: draft.annotation_defaults.mosaic_size,
            text_bold: draft.annotation_defaults.text_bold,
            text_italic: draft.annotation_defaults.text_italic,
            text_background: draft.annotation_defaults.text_background,
            text_font_family: draft.annotation_defaults.text_font_family,
        },
        pin_defaults: PinDefaults {
            always_on_top: draft.pin_defaults.always_on_top,
            show_decoration: draft.pin_defaults.show_decoration,
            opacity_percent: draft.pin_defaults.opacity_percent,
        },
        ocr: OcrConfig {
            enabled: draft.ocr.enabled,
            auto_copy_full_text: draft.ocr.auto_copy_full_text,
            auto_exit_after_copy: draft.ocr.auto_exit_after_copy,
            default_profile_id: draft.ocr.default_profile_id.clone(),
            request_timeout_ms: draft.ocr.request_timeout_ms,
            profiles: copy_ocr_profiles(&draft.ocr.profiles),
        },
        translation: TranslationConfig {
            enabled: draft.translation.enabled,
            auto_copy_full_text: draft.translation.auto_copy_full_text,
            auto_exit_after_copy: draft.translation.auto_exit_after_copy,
            default_profile_id: draft.translation.default_profile_id.clone(),
            request_timeout_ms: draft.translation.request_timeout_ms,
            profiles: copy_translation_profiles(&draft.translation.profiles),
        },
    };
    match next.validate() {
        Ok(()) => Ok(next),
        Err(e) => Err(SaveError::Invalid(e)),
    }
}

/// The general settings are the defaults.
pub open spec fn general_is_default(g: GeneralConfig) -> bool {
    &&& g.hotkey@ == "Ctrl+Shift+A"@
    &&& g.auto_copy
    &&& g.auto_save
    &&& !g.launch_at_startup
    &&& ends_with_spec(g.save_dir@, APP_NAME@)
}

/// The pin settings are the defaults.
pub open spec fn pin_is_default(p: PinDefaults) -> bool {
    p.always_on_top && p.show_decoration && p.opacity_percent == DEFAULT_PIN_OPACITY_PERCENT
}

/// The OCR settings are the defaults.
pub open spec fn ocr_is_default(o: OcrConfig) -> bool {
    &&& !o.enabled
    &&& !o.auto_copy_full_text
    &&& o.auto_exit_after_copy
    &&& o.default_profile_id@.len() == 0
    &&& o.request_timeout_ms == OCR_TIMEOUT_DEFAULT_MS
    &&& o.profiles@.len() == 0
}

/// The translation settings are the defaults.
pub open spec fn translation_is_default(t: TranslationConfig) -> bool {
    &&& !t.enabled
    &&& !t.auto_copy_full_text
    &&& t.auto_exit_after_copy
    &&& t.default_profile_id@.len() == 0
    &&& t.request_timeout_ms == TRANSLATION_TIMEOUT_DEFAULT_MS
    &&& t.profiles@.len() == 0
}

/// Puts the settings of one page back to their defaults; the other pages
/// keep what was entered.
pub fn reset_page(draft: &mut AppConfig, page: SettingsPage)
    ensures
        page == SettingsPage::General ==> general_is_default(final(draft).general),
        page == SettingsPage::Annotation ==> final(draft).annotation_defaults.is_default(),
        page == SettingsPage::Pin ==> pin_is_default(final(draft).pin_defaults),
        page == SettingsPage::Ocr ==> ocr_is_default(final(draft).ocr),
        page == SettingsPage::Translation ==> translation_is_default(final(draft).translation),
        page != SettingsPage::General ==> final(draft).general == old(draft).general,
        page != SettingsPage::Annotation ==> final(draft).annotation_defaults == old(draft).annotation_defaults,
        page != SettingsPage::Pin ==> final(draft).pin_defaults == old(draft).pin_defaults,
        page != SettingsPage::Ocr ==> final(draft).ocr == old(draft).ocr,
        page != SettingsPage::Translation ==> final(draft).translation == old(draft).translation,
{
    match page {
        SettingsPage::General => draft.general = GeneralConfig::default(),
        SettingsPage::Annotation => draft.annotation_defaults = AnnotationDefaults::default(),
        SettingsPage::Pin => draft.pin_defaults = PinDefaults::default(),
        SettingsPage::Ocr => draft.ocr = OcrConfig::default(),
        SettingsPage::Translation => draft.translation = TranslationConfig::default(),
    }
}

/// Picks another provider for an OCR profile. When the provider really
/// changes, the address, the model and the box scale go back to that
/// provider's defaults, and a secret key that the new provider does not use
/// is cleared; name, id and API key stay.
pub fn switch_ocr_provider(profile: &mut OcrProfile, kind: OcrProviderKind)
    ensures
        final(profile).provider_kind == kind,
        final(profile).id == old(profile).id,
        final(profile).display_name == old(profile).display_name,
        final(profile).api_key == old(profile).api_key,
        kind == old(profile).provider_kind ==> *final(profile) == *old(profile),
        kind != old(profile).provider_kind ==> {
            &&& final(profile).base_url@ == kind.default_base_url_spec()
            &&& final(profile).model@ == kind.default_model_spec()
            &&& final(profile).bbox_scale_mode == kind.default_bbox_scale_mode_spec()
            &&& final(profile).secret_key@ == (if kind == OcrProviderKind::BaiduOcr {
                old(profile).secret_key@
            } else {
                Seq::<char>::empty()
            })
        },
{
    if profile.provider_kind == kind {
        return;
    }
    profile.provider_kind = kind;
    profile.base_url = String::from_str(kind.default_base_url());
    profile.model = String::from_str(kind.default_model());
    profile.bbox_scale_mode = kind.default_bbox_scale_mode();
    if !kind.uses_secret_key() {
        profile.secret_key = String::new();
    }
}

/// Picks another provider for a translation profile. When the provider
/// really changes, the address and the model go back to that provider's
/// defaults; leaving Baidu clears the secret key and the translated-image
/// choice; moving to Baidu fills a blank prompt with the default template and
/// blank languages with `auto` and `zh`.
pub fn switch_translation_provider(profile: &mut TranslationProfile, kind: TranslationProviderKind)
    ensures
        final(profile).provider_kind == kind,
        final(profile).id == old(profile).id,
        final(profile).display_name == old(profile).display_name,
        final(profile).api_key == old(profile).api_key,
        kind == old(profile).provider_kind ==> *final(profile) == *old(profile),
        kind != old(profile).provider_kind ==> {
            let baidu = kind == TranslationProviderKind::BaiduImageTranslate;
            &&& final(profile).base_url@ == kind.default_base_url_spec()
            &&& final(profile).model@ == kind.default_model_spec()
            &&& final(profile).secret_key@ == (if baidu { old(profile).secret_key@ } else { Seq::<char>::empty() })
            &&& final(profile).use_translated_image == (baidu && old(profile).use_translated_image)
            &&& final(profile).prompt_template@ == (if baidu && is_blank_spec(old(profile).prompt_template@) {
                DEFAULT_TRANSLATION_PROMPT_TEMPLATE@
            } else {
                old(profile).prompt_template@
            })
            &&& final(profile).source_lang@ == (if baidu && is_blank_spec(old(profile).source_lang@) {
                "auto"@
            } else {
                old(profile).source_lang@
            })
            &&& final(profile).target_lang@ == (if baidu && is_blank_spec(old(profile).target_lang@) {
                "zh"@
            } else {
                old(profile).target_lang@
            })
        },
{
    if profile.provider_kind == kind {
        return;
    }
    profile.provider_kind = kind;
    profile.base_url = String::from_str(kind.default_base_url());
    profile.model = String::from_str(kind.default_model());
    if !kind.uses_secret_key() {
        profile.secret_key = String::new();
        profile.use_translated_image = false;
    }
    if !kind.uses_prompt_template() && is_blank(profile.prompt_template.as_str()) {
        profile.prompt_template = String::from_str(DEFAULT_TRANSLATION_PROMPT_TEMPLATE);
    }
    if kind.supports_image_output() {
        if is_blank(profile.source_lang.as_str()) {
            profile.source_lang = String::from_str("auto");
        }
        if is_blank(profile.target_lang.as_str()) {
            profile.target_lang = String::from_str("zh");
        }
    }
}

} // verus!
