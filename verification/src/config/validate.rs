use crate::config::types::{
    is_pin_opacity_option, is_pin_opacity_option_spec, AppConfig, OcrProfile, OcrProviderKind,
    TranslationProfile, TranslationProviderKind, OCR_TIMEOUT_MAX_MS, OCR_TIMEOUT_MIN_MS,
    TRANSLATION_TIMEOUT_MAX_MS, TRANSLATION_TIMEOUT_MIN_MS,
};
use crate::hotkey::{parse_hotkey, parse_hotkey_spec, HotkeyError};
use crate::text::{chars_eq, chars_of, is_blank, is_blank_spec, trim_chars, trim_spec};
use vstd::prelude::*;

verus! {

/// Why a configuration was rejected. Profile problems name the profile by its index.
#[derive(Debug, Clone, Copy, PartialEq, Eq, Structural)]
pub enum ConfigError {
    InvalidHotkey(HotkeyError),
    EmptySaveDir,
    UnsupportedPinOpacity { value: u8 },
    OcrTimeoutOutOfRange,
    EmptyOcrProfileId { index: usize },
    DuplicateOcrProfileId { index: usize },
    EmptyOcrDisplayName { index: usize },
    EmptyOcrBaseUrl { index: usize },
    EmptyOcrApiKey { index: usize },
    EmptyOcrModel { index: usize },
    EmptyBaiduOcrApiKey { index: usize },
    EmptyBaiduOcrSecretKey { index: usize },
    EmptyBaiduOcrApiPath { index: usize },
    OcrEnabledWithoutProfile,
    EmptyOcrDefaultProfile,
    OcrDefaultProfileNotFound,
    TranslationTimeoutOutOfRange,
    EmptyTranslationProfileId { index: usize },
    DuplicateTranslationProfileId { index: usize },
    EmptyTranslationDisplayName { index: usize },
    EmptyTranslationBaseUrl { index: usize },
    EmptyTranslationApiKey { index: usize },
    EmptyTranslationModel { index: usize },
    EmptyTranslationPromptTemplate { index: usize },
    EmptyBaiduTranslationApiKey { index: usize },
    EmptyBaiduTranslationSecretKey { index: usize },
    EmptyBaiduTranslationApiPath { index: usize },
    EmptyBaiduTranslationSourceLang { index: usize },
    EmptyBaiduTranslationTargetLang { index: usize },
    TranslationEnabledWithoutProfile,
    EmptyTranslationDefaultProfile,
    TranslationDefaultProfileNotFound,
}

/// Some profile before `i` has the same trimmed id as profile `i`.
pub open spec fn ocr_id_seen_before(profiles: Seq<OcrProfile>, i: int) -> bool {
    exists|j: int| 0 <= j < i && trim_spec(#[trigger] profiles[j].id@) == trim_spec(profiles[i].id@)
}

/// The problem with OCR profile `i`, given that the ones before it passed.
pub open spec fn ocr_profile_error(profiles: Seq<OcrProfile>, i: int) -> Option<ConfigError> {
    let p = profiles[i];
    let index = i as usize;
    if is_blank_spec(p.id@) {
        Some(ConfigError::EmptyOcrProfileId { index })
    } else if ocr_id_seen_before(profiles, i) {
        Some(ConfigError::DuplicateOcrProfileId { index })
    } else if is_blank_spec(p.display_name@) {
        Some(ConfigError::EmptyOcrDisplayName { index })
    } else if is_blank_spec(p.base_url@) {
        Some(ConfigError::EmptyOcrBaseUrl { index })
    } else {
        match p.provider_kind {
            OcrProviderKind::OpenAiCompatible => if is_blank_spec(p.api_key@) {
                Some(ConfigError::EmptyOcrApiKey { index })
            } else if is_blank_spec(p.model@) {
                Some(ConfigError::EmptyOcrModel { index })
            } else {
                None
            },
            OcrProviderKind::BaiduOcr => if is_blank_spec(p.api_key@) {
                Some(ConfigError::EmptyBaiduOcrApiKey { index })
            } else if is_blank_spec(p.secret_key@) {
                Some(ConfigError::EmptyBaiduOcrSecretKey { index })
            } else if is_blank_spec(p.model@) {
                Some(ConfigError::EmptyBaiduOcrApiPath { index })
            } else {
                None
            },
        }
    }
}

/// The first problem among the first `n` OCR profiles.
pub open spec fn ocr_profiles_error(profiles: Seq<OcrProfile>, n: int) -> Option<ConfigError>
    decreases n,
{
    if n <= 0 {
        None
    } else {
        match ocr_profiles_error(profiles, n - 1) {
            Some(e) => Some(e),
            None => ocr_profile_error(profiles, n - 1),
        }
    }
}

pub open spec fn translation_id_seen_before(profiles: Seq<TranslationProfile>, i: int) -> bool {
    exists|j: int| 0 <= j < i && trim_spec(#[trigger] profiles[j].id@) == trim_spec(profiles[i].id@)
}

/// The problem with translation profile `i`, given that the ones before it passed.
pub open spec fn translation_profile_error(profiles: Seq<TranslationProfile>, i: int) -> Option<ConfigError> {
    let p = profiles[i];
    let index = i as usize;
    if is_blank_spec(p.id@) {
        Some(ConfigError::EmptyTranslationProfileId { index })
    } else if translation_id_seen_before(profiles, i) {
        Some(ConfigError::DuplicateTranslationProfileId { index })
    } else if is_blank_spec(p.display_name@) {
        Some(ConfigError::EmptyTranslationDisplayName { index })
    } else if is_blank_spec(p.base_url@) {
        Some(ConfigError::EmptyTranslationBaseUrl { index })
    } else {
        match p.provider_kind {
            TranslationProviderKind::OpenAiCompatible => if is_blank_spec(p.api_key@) {
                Some(ConfigError::EmptyTranslationApiKey { index })
            } else if is_blank_spec(p.model@) {
                Some(ConfigError::EmptyTranslationModel { index })
            } else if is_blank_spec(p.prompt_template@) {
                Some(ConfigError::EmptyTranslationPromptTemplate { index })
            } else {
                None
            },
            TranslationProviderKind::BaiduImageTranslate => if is_blank_spec(p.api_key@) {
                Some(ConfigError::EmptyBaiduTranslationApiKey { index })
            } else if is_blank_spec(p.secret_key@) {
                Some(ConfigError::EmptyBaiduTranslationSecretKey { index })
            } else if is_blank_spec(p.model@) {
                Some(ConfigError::EmptyBaiduTranslationApiPath { index })
            } else if is_blank_spec(p.source_lang@) {
                Some(ConfigError::EmptyBaiduTranslationSourceLang { index })
            } else if is_blank_spec(p.target_lang@) {
                Some(ConfigError::EmptyBaiduTranslationTargetLang { index })
            } else {
                None
            },
        }
    }
}

pub open spec fn translation_profiles_error(profiles: Seq<TranslationProfile>, n: int) -> Option<ConfigError>
    decreases n,
{
    if n <= 0 {
        None
    } else {
        match translation_profiles_error(profiles, n - 1) {
            Some(e) => Some(e),
            None => translation_profile_error(profiles, n - 1),
        }
    }
}

pub open spec fn has_ocr_profile_id(profiles: Seq<OcrProfile>, id: Seq<char>) -> bool {
    exists|j: int| 0 <= j < profiles.len() && (#[trigger] profiles[j]).id@ == id
}

pub open spec fn has_translation_profile_id(profiles: Seq<TranslationProfile>, id: Seq<char>) -> bool {
    exists|j: int| 0 <= j < profiles.len() && (#[trigger] profiles[j]).id@ == id
}

impl AppConfig {
    /// The first rule that the configuration breaks, in the order the checks run, or `None`.
    pub open spec fn validation_error(&self) -> Option<ConfigError> {
        let ocr = self.ocr.profiles@;
        let tr = self.translation.profiles@;
        if parse_hotkey_spec(self.general.hotkey@) is Err {
            Some(ConfigError::InvalidHotkey(parse_hotkey_spec(self.general.hotkey@)->Err_0))
        } else if self.general.save_dir@.len() == 0 {
            Some(ConfigError::EmptySaveDir)
        } else if !is_pin_opacity_option_spec(self.pin_defaults.opacity_percent) {
            Some(ConfigError::UnsupportedPinOpacity { value: self.pin_defaults.opacity_percent })
        } else if !(OCR_TIMEOUT_MIN_MS <= self.ocr.request_timeout_ms <= OCR_TIMEOUT_MAX_MS) {
            Some(ConfigError::OcrTimeoutOutOfRange)
        } else if ocr_profiles_error(ocr, ocr.len() as int) is Some {
            ocr_profiles_error(ocr, ocr.len() as int)
        } else if self.ocr.enabled && ocr.len() == 0 {
            Some(ConfigError::OcrEnabledWithoutProfile)
        } else if ocr.len() > 0 && is_blank_spec(self.ocr.default_profile_id@) {
            Some(ConfigError::EmptyOcrDefaultProfile)
        } else if ocr.len() > 0 && !has_ocr_profile_id(ocr, self.ocr.default_profile_id@) {
            Some(ConfigError::OcrDefaultProfileNotFound)
        } else if !(TRANSLATION_TIMEOUT_MIN_MS <= self.translation.request_timeout_ms
            <= TRANSLATION_TIMEOUT_MAX_MS) {
            Some(ConfigError::TranslationTimeoutOutOfRange)
        } else if translation_profiles_error(tr, tr.len() as int) is Some {
            translation_profiles_error(tr, tr.len() as int)
        } else if self.translation.enabled && tr.len() == 0 {
            Some(ConfigError::TranslationEnabledWithoutProfile)
        } else if tr.len() > 0 && is_blank_spec(self.translation.default_profile_id@) {
            Some(ConfigError::EmptyTranslationDefaultProfile)
        } else if tr.len() > 0 && !has_translation_profile_id(tr, self.translation.default_profile_id@) {
            Some(ConfigError::TranslationDefaultProfileNotFound)
        } else {
            None
        }
    }
}

proof fn lemma_error_sticks_ocr(profiles: Seq<OcrProfile>, k: int, m: int)
    requires
        0 <= k <= m,
        ocr_profiles_error(profiles, k) is Some,
    ensures
        ocr_profiles_error(profiles, m) == ocr_profiles_error(profiles, k),
    decreases m - k,
{
    if m > k {
        lemma_error_sticks_ocr(profiles, k, m - 1);
    }
}

proof fn lemma_error_sticks_translation(profiles: Seq<TranslationProfile>, k: int, m: int)
    requires
        0 <= k <= m,
        translation_profiles_error(profiles, k) is Some,
    ensures
        translation_profiles_error(profiles, m) == translation_profiles_error(profiles, k),
    decreases m - k,
{
    if m > k {
        lemma_error_sticks_translation(profiles, k, m - 1);
    }
}

/// Whether some earlier trimmed id equals `id`.
fn seen_before(seen: &Vec<Vec<char>>, id: &[char]) -> (r: bool)
    ensures
        r == exists|j: int| 0 <= j < seen@.len() && (#[trigger] seen@[j])@ == id@,
{
    let mut j: usize = 0;
    while j < seen.len()
        invariant
            j <= seen@.len(),
            forall|k: int| 0 <= k < j ==> (#[trigger] seen@[k])@ != id@,
        decreases seen@.len() - j,
    {
        if chars_eq(seen[j].as_slice(), id) {
            return true;
        }
        j = j + 1;
    }
    false
}

fn check_ocr_profiles(profiles: &Vec<OcrProfile>) -> (r: Option<ConfigError>)
    ensures
        r == ocr_profiles_error(profiles@, profiles@.len() as int),
{
    let mut seen: Vec<Vec<char>> = Vec::new();
    let mut i: usize = 0;
    while i < profiles.len()
        invariant
            i <= profiles@.len(),
            seen@.len() == i,
            forall|j: int| 0 <= j < i ==> (#[trigger] seen@[j])@ == trim_spec(profiles@[j].id@),
            ocr_profiles_error(profiles@, i as int) is None,
        decreases profiles@.len() - i,
    {
        let p = &profiles[i];
        let index = i;
        let id_chars = chars_of(p.id.as_str());
        let id = trim_chars(id_chars.as_slice());
        let mut err: Option<ConfigError> = None;
        if id.len() == 0 {
            err = Some(ConfigError::EmptyOcrProfileId { index });
        } else if seen_before(&seen, id.as_slice()) {
            err = Some(ConfigError::DuplicateOcrProfileId { index });
        } else if is_blank(p.display_name.as_str()) {
            err = Some(ConfigError::EmptyOcrDisplayName { index });
        } else if is_blank(p.base_url.as_str()) {
            err = Some(ConfigError::EmptyOcrBaseUrl { index });
        } else {
            match p.provider_kind {
                OcrProviderKind::OpenAiCompatible => {
                    if is_blank(p.api_key.as_str()) {
                        err = Some(ConfigError::EmptyOcrApiKey { index });
                    } else if is_blank(p.model.as_str()) {
                        err = Some(ConfigError::EmptyOcrModel { index });
                    }
                },
                OcrProviderKind::BaiduOcr => {
                    if is_blank(p.api_key.as_str()) {
                        err = Some(ConfigError::EmptyBaiduOcrApiKey { index });
                    } else if is_blank(p.secret_key.as_str()) {
                        err = Some(ConfigError::EmptyBaiduOcrSecretKey { index });
                    } else if is_blank(p.model.as_str()) {
                        err = Some(ConfigError::EmptyBaiduOcrApiPath { index });
                    }
                },
            }
        }
        proof {
            assert(id@ == trim_spec(profiles@[i as int].id@));
            assert(ocr_id_seen_before(profiles@, i as int) == (exists|j: int| 0 <= j < seen@.len() && (#[trigger] seen@[j])@ == id@)) by {
                if ocr_id_seen_before(profiles@, i as int) {
                    let j = choose|j: int| 0 <= j < i && trim_spec(#[trigger] profiles@[j].id@) == trim_spec(profiles@[i as int].id@);
                    assert(seen@[j]@ == id@);
                }
            }
            assert(err == ocr_profile_error(profiles@, i as int));
        }
        if err.is_some() {
            proof {
                lemma_error_sticks_ocr(profiles@, i + 1, profiles@.len() as int);
            }
            return err;
        }
        seen.push(id);
        i = i + 1;
    }
    None
}

fn check_translation_profiles(profiles: &Vec<TranslationProfile>) -> (r: Option<ConfigError>)
    ensures
        r == translation_profiles_error(profiles@, profiles@.len() as int),
{
    let mut seen: Vec<Vec<char>> = Vec::new();
    let mut i: usize = 0;
    while i < profiles.len()
        invariant
            i <= profiles@.len(),
            seen@.len() == i,
            forall|j: int| 0 <= j < i ==> (#[trigger] seen@[j])@ == trim_spec(profiles@[j].id@),
            translation_profiles_error(profiles@, i as int) is None,
        decreases profiles@.len() - i,
    {
        let p = &profiles[i];
        let index = i;
        let id_chars = chars_of(p.id.as_str());
        let id = trim_chars(id_chars.as_slice());
        let mut err: Option<ConfigError> = None;
        if id.len() == 0 {
            err = Some(ConfigError::EmptyTranslationProfileId { index });
        } else if seen_before(&seen, id.as_slice()) {
            err = Some(ConfigError::DuplicateTranslationProfileId { index });
        } else if is_blank(p.display_name.as_str()) {
            err = Some(ConfigError::EmptyTranslationDisplayName { index });
        } else if is_blank(p.base_url.as_str()) {
            err = Some(ConfigError::EmptyTranslationBaseUrl { index });
        } else {
            match p.provider_kind {
                TranslationProviderKind::OpenAiCompatible => {
                    if is_blank(p.api_key.as_str()) {
                        err = Some(ConfigError::EmptyTranslationApiKey { index });
                    } else if is_blank(p.model.as_str()) {
                        err = Some(ConfigError::EmptyTranslationModel { index });
                    } else if is_blank(p.prompt_template.as_str()) {
                        err = Some(ConfigError::EmptyTranslationPromptTemplate { index });
                    }
                },
                TranslationProviderKind::BaiduImageTranslate => {
                    if is_blank(p.api_key.as_str()) {
                        err = Some(ConfigError::EmptyBaiduTranslationApiKey { index });
                    } else if is_blank(p.secret_key.as_str()) {
                        err = Some(ConfigError::EmptyBaiduTranslationSecretKey { index });
                    } else if is_blank(p.model.as_str()) {
                        err = Some(ConfigError::EmptyBaiduTranslationApiPath { index });
                    } else if is_blank(p.source_lang.as_str()) {
                        err = Some(ConfigError::EmptyBaiduTranslationSourceLang { index });
                    } else if is_blank(p.target_lang.as_str()) {
                        err = Some(ConfigError::EmptyBaiduTranslationTargetLang { index });
                    }
                },
            }
        }
        proof {
            assert(id@ == trim_spec(profiles@[i as int].id@));
            assert(translation_id_seen_before(profiles@, i as int) == (exists|j: int| 0 <= j < seen@.len() && (#[trigger] seen@[j])@ == id@)) by {
                if translation_id_seen_before(profiles@, i as int) {
                    let j = choose|j: int| 0 <= j < i && trim_spec(#[trigger] profiles@[j].id@) == trim_spec(profiles@[i as int].id@);
                    assert(seen@[j]@ == id@);
                }
            }
            assert(err == translation_profile_error(profiles@, i as int));
        }
        if err.is_some() {
            proof {
                lemma_error_sticks_translation(profiles@, i + 1, profiles@.len() as int);
            }
            return err;
        }
        seen.push(id);
        i = i + 1;
    }
    None
}

fn contains_ocr_profile_id(profiles: &Vec<OcrProfile>, id: &String) -> (r: bool)
    ensures
        r == has_ocr_profile_id(profiles@, id@),
{
    let mut j: usize = 0;
    while j < profiles.len()
        invariant
            j <= profiles@.len(),
            forall|k: int| 0 <= k < j ==> (#[trigger] profiles@[k]).id@ != id@,
        decreases profiles@.len() - j,
    {
        if profiles[j].id == *id {
            return true;
        }
        j = j + 1;
    }
    false
}

fn contains_translation_profile_id(profiles: &Vec<TranslationProfile>, id: &String) -> (r: bool)
    ensures
        r == has_translation_profile_id(profiles@, id@),
{
    let mut j: usize = 0;
    while j < profiles.len()
        invariant
            j <= profiles@.len(),
            forall|k: int| 0 <= k < j ==> (#[trigger] profiles@[k]).id@ != id@,
        decreases profiles@.len() - j,
    {
        if profiles[j].id == *id {
            return true;
        }
        j = j + 1;
    }
    false
}

impl AppConfig {
    /// Checks the configuration, reporting the first broken rule: a parseable
    /// hotkey, a save directory, a supported pin opacity, timeouts in range,
    /// complete and uniquely named profiles, and a default profile that exists
    /// whenever profiles are configured.
    pub fn validate(&self) -> (r: Result<(), ConfigError>)
        ensures
            match self.validation_error() {
                None => r is Ok,
                Some(e) => r == Err::<(), ConfigError>(e),
            },
    {
        match parse_hotkey(self.general.hotkey.as_str()) {
            Err(e) => {
                return Err(ConfigError::InvalidHotkey(e));
            },
            Ok(_) => {},
        }
        if self.general.save_dir.as_str().is_empty() {
            return Err(ConfigError::EmptySaveDir);
        }
        if !is_pin_opacity_option(self.pin_defaults.opacity_percent) {
            return Err(ConfigError::UnsupportedPinOpacity { value: self.pin_defaults.opacity_percent });
        }
        if !(OCR_TIMEOUT_MIN_MS <= self.ocr.request_timeout_ms && self.ocr.request_timeout_ms <= OCR_TIMEOUT_MAX_MS) {
            return Err(ConfigError::OcrTimeoutOutOfRange);
        }
        if let Some(e) = check_ocr_profiles(&self.ocr.profiles) {
            return Err(e);
        }
        if self.ocr.enabled && self.ocr.profiles.len() == 0 {
            return Err(ConfigError::OcrEnabledWithoutProfile);
        }
        if self.ocr.profiles.len() > 0 {
            if is_blank(self.ocr.default_profile_id.as_str()) {
                return Err(ConfigError::EmptyOcrDefaultProfile);
            }
            if !contains_ocr_profile_id(&self.ocr.profiles, &self.ocr.default_profile_id) {
                return Err(ConfigError::OcrDefaultProfileNotFound);
            }
        }
        if !(TRANSLATION_TIMEOUT_MIN_MS <= self.translation.request_timeout_ms
            && self.translation.request_timeout_ms <= TRANSLATION_TIMEOUT_MAX_MS) {
            return Err(ConfigError::TranslationTimeoutOutOfRange);
        }
        if let Some(e) = check_translation_profiles(&self.translation.profiles) {
            return Err(e);
        }
        if self.translation.enabled && self.translation.profiles.len() == 0 {
            return Err(ConfigError::TranslationEnabledWithoutProfile);
        }
        if self.translation.profiles.len() > 0 {
            if is_blank(self.translation.default_profile_id.as_str()) {
                return Err(ConfigError::EmptyTranslationDefaultProfile);
            }
            if !contains_translation_profile_id(&self.translation.profiles, &self.translation.default_profile_id) {
                return Err(ConfigError::TranslationDefaultProfileNotFound);
            }
        }
        Ok(())
    }
}

} // verus!
