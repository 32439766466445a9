use opencapt::config::compat::{AppConfigCompat, GeneralConfigCompat, TranslationConfigCompat};
use opencapt::config::paths::{appdata_app_paths, portable_app_paths, save_dir_under};
use opencapt::config::types::{
    AppConfig, TextFontFamily, DEFAULT_STROKE_WIDTH, OcrBboxScaleMode, OcrProfile, OcrProviderKind, TranslationProfile,
    TranslationProviderKind, OCR_TIMEOUT_DEFAULT_MS, TRANSLATION_TIMEOUT_DEFAULT_MS,
};
use opencapt::config::validate::ConfigError;
use std::collections::HashSet;
use std::path::Path;

#[test]
fn default_config_has_expected_values() {
    let config = AppConfig::default();
    assert_eq!(config.general.hotkey, "Ctrl+Shift+A");
    assert!(config.general.auto_copy);
    assert!(config.general.auto_save);
    assert!(!config.general.launch_at_startup);
    assert!(config.general.save_dir.ends_with("OpenCapt"));
    assert_eq!(config.annotation_defaults.default_color_index, 4);
    assert_eq!(config.pin_defaults.opacity_percent, 100);
    assert!(!config.ocr.enabled);
    assert!(!config.ocr.auto_copy_full_text);
    assert!(config.ocr.auto_exit_after_copy);
    assert_eq!(config.ocr.request_timeout_ms, OCR_TIMEOUT_DEFAULT_MS);
    assert!(!config.translation.enabled);
    assert!(!config.translation.auto_copy_full_text);
    assert!(config.translation.auto_exit_after_copy);
    assert_eq!(
        config.translation.request_timeout_ms,
        TRANSLATION_TIMEOUT_DEFAULT_MS
    );
}

#[test]
fn invalid_hotkey_is_rejected() {
    let mut config = AppConfig::default();
    config.general.hotkey = "Ctrl+A+B".to_string();
    assert!(config.validate().is_err());
}

fn ocr_profile(id: &str, name: &str, key: &str) -> OcrProfile {
    OcrProfile {
        id: id.to_string(),
        display_name: name.to_string(),
        provider_kind: OcrProviderKind::OpenAiCompatible,
        base_url: "https://api.openai.com/v1".to_string(),
        api_key: key.to_string(),
        secret_key: String::new(),
        model: "gpt-4.1-mini".to_string(),
        bbox_scale_mode: OcrBboxScaleMode::ZeroTo1000,
    }
}

fn translation_profile(id: &str, name: &str, key: &str) -> TranslationProfile {
    TranslationProfile {
        id: id.to_string(),
        display_name: name.to_string(),
        provider_kind: TranslationProviderKind::OpenAiCompatible,
        base_url: "https://api.openai.com/v1".to_string(),
        api_key: key.to_string(),
        model: "gpt-4.1-mini".to_string(),
        prompt_template: "{{texts}}".to_string(),
        secret_key: String::new(),
        source_lang: "auto".to_string(),
        target_lang: "zh".to_string(),
        use_translated_image: false,
    }
}

#[test]
fn sanitize_ocr_profile_ids_when_missing_or_duplicated() {
    let mut config = AppConfig::default();
    config.ocr.profiles = vec![
        ocr_profile("", "A", "a"),
        ocr_profile("profile_1", "B", "b"),
        ocr_profile("profile_1", "C", "c"),
    ];
    config.ocr.default_profile_id = "missing".to_string();

    let sanitized = config.sanitize();
    let ids: HashSet<_> = sanitized
        .ocr
        .profiles
        .iter()
        .map(|profile| profile.id.clone())
        .collect();
    assert_eq!(ids.len(), sanitized.ocr.profiles.len());
    assert!(sanitized
        .ocr
        .profiles
        .iter()
        .all(|profile| !profile.id.trim().is_empty()));
    assert_eq!(
        sanitized.ocr.default_profile_id,
        sanitized.ocr.profiles[0].id
    );
}

#[test]
fn missing_baidu_secret_key_is_rejected() {
    let mut config = AppConfig::default();
    config.ocr.enabled = true;
    config.ocr.default_profile_id = "baidu".to_string();
    config.ocr.profiles.push(OcrProfile {
        id: "baidu".to_string(),
        display_name: "百度".to_string(),
        provider_kind: OcrProviderKind::BaiduOcr,
        base_url: "https://aip.baidubce.com".to_string(),
        api_key: "api-key".to_string(),
        secret_key: String::new(),
        model: "general".to_string(),
        bbox_scale_mode: OcrBboxScaleMode::PixelAbsolute,
    });

    assert!(config.validate().is_err());
}

#[test]
fn sanitize_translation_profile_ids_when_missing_or_duplicated() {
    let mut config = AppConfig::default();
    config.translation.profiles = vec![
        translation_profile("", "A", "a"),
        translation_profile("translate_profile_1", "B", "b"),
        translation_profile("translate_profile_1", "C", "c"),
    ];
    config.translation.default_profile_id = "missing".to_string();

    let sanitized = config.sanitize();
    let ids: HashSet<_> = sanitized
        .translation
        .profiles
        .iter()
        .map(|profile| profile.id.clone())
        .collect();
    assert_eq!(ids.len(), sanitized.translation.profiles.len());
    assert!(sanitized
        .translation
        .profiles
        .iter()
        .all(|profile| !profile.id.trim().is_empty()));
    assert_eq!(
        sanitized.translation.default_profile_id,
        sanitized.translation.profiles[0].id
    );
}

#[test]
fn portable_paths_place_config_next_to_exe() {
    let exe_dir = r"C:\Apps\OpenCapt";
    let paths = portable_app_paths(exe_dir);
    assert_eq!(paths.config_dir, exe_dir);
    assert_eq!(
        paths.config_file,
        Path::new(exe_dir).join("config.toml").to_string_lossy()
    );
    assert_eq!(
        paths.log_dir,
        Path::new(exe_dir).join("logs").to_string_lossy()
    );
}

#[test]
fn appdata_paths_land_under_appdata() {
    let paths = appdata_app_paths().expect("resolve paths");
    assert!(paths.config_dir.ends_with("OpenCapt"));
    assert_eq!(
        Path::new(&paths.config_file)
            .file_name()
            .and_then(|name| name.to_str()),
        Some("config.toml")
    );
}

#[test]
fn save_dir_falls_back_to_public_pictures() {
    assert_eq!(save_dir_under(None), r"C:\Users\Public\Pictures\OpenCapt");
    let under = save_dir_under(Some("/home/u/Pictures".to_string()));
    assert_eq!(
        under,
        Path::new("/home/u/Pictures").join("OpenCapt").to_string_lossy()
    );
}

#[test]
fn default_config_validates() {
    assert_eq!(AppConfig::default().validate(), Ok(()));
}

#[test]
fn validate_reports_first_error() {
    let mut config = AppConfig::default();
    config.general.save_dir = String::new();
    config.pin_defaults.opacity_percent = 33;
    assert_eq!(config.validate(), Err(ConfigError::EmptySaveDir));
    config.general.save_dir = "x".to_string();
    assert_eq!(
        config.validate(),
        Err(ConfigError::UnsupportedPinOpacity { value: 33 })
    );
}

#[test]
fn enabled_ocr_without_profile_is_rejected() {
    let mut config = AppConfig::default();
    config.ocr.enabled = true;
    assert_eq!(config.validate(), Err(ConfigError::OcrEnabledWithoutProfile));
}

#[test]
fn sanitize_clamps_out_of_range_values() {
    let mut config = AppConfig::default();
    config.annotation_defaults.stroke_width = 99;
    config.annotation_defaults.default_color_index = 42;
    config.ocr.request_timeout_ms = 5;
    config.translation.request_timeout_ms = 9_999_999;
    config.pin_defaults.opacity_percent = 33;
    let s = config.sanitize();
    assert_eq!(s.annotation_defaults.stroke_width, 16);
    assert_eq!(s.ocr.request_timeout_ms, 2000);
    assert_eq!(s.translation.request_timeout_ms, 120000);
    assert_eq!(s.pin_defaults.opacity_percent, 100);
    assert!(s.annotation_defaults.default_color_index < 5);
    assert_eq!(s.validate(), Ok(()));
}

/// What reading a configuration file does once its fields are read.
fn load(compat: AppConfigCompat) -> AppConfig {
    compat.into_config().sanitize()
}

#[test]
fn old_flat_general_config_still_loads() {
    // hotkey = "Alt+Shift+Z", auto_copy = false, auto_save = true, save_dir = "C:\\Shots"
    let parsed = load(AppConfigCompat {
        hotkey: Some("Alt+Shift+Z".to_string()),
        auto_copy: Some(false),
        auto_save: Some(true),
        save_dir: Some(r"C:\Shots".to_string()),
        ..AppConfigCompat::default()
    });
    assert_eq!(parsed.general.hotkey, "Alt+Shift+Z");
    assert!(!parsed.general.auto_copy);
    assert!(parsed.general.auto_save);
    assert!(!parsed.general.launch_at_startup);
    assert_eq!(parsed.general.save_dir, r"C:\Shots");
    assert_eq!(parsed.annotation_defaults.text_font_family, TextFontFamily::YaHei);
    assert!(!parsed.ocr.auto_copy_full_text);
    assert!(parsed.ocr.auto_exit_after_copy);
    assert!(!parsed.translation.auto_copy_full_text);
    assert!(parsed.translation.auto_exit_after_copy);
}

#[test]
fn nested_partial_config_uses_defaults() {
    // [general] hotkey = "Alt+Shift+S"
    let parsed = load(AppConfigCompat {
        general: Some(GeneralConfigCompat { hotkey: Some("Alt+Shift+S".to_string()), ..GeneralConfigCompat::default() }),
        ..AppConfigCompat::default()
    });
    assert_eq!(parsed.general.hotkey, "Alt+Shift+S");
    assert!(parsed.general.auto_copy);
    assert!(!parsed.general.launch_at_startup);
    assert_eq!(parsed.annotation_defaults.stroke_width, DEFAULT_STROKE_WIDTH);
    assert!(!parsed.ocr.auto_copy_full_text);
    assert!(parsed.ocr.auto_exit_after_copy);
    assert!(!parsed.translation.auto_copy_full_text);
    assert!(parsed.translation.auto_exit_after_copy);
}

#[test]
fn missing_translation_prompt_is_rejected() {
    // [translation] with one OpenAI-compatible profile and no prompt_template
    let parsed = load(AppConfigCompat {
        translation: Some(TranslationConfigCompat {
            enabled: Some(true),
            default_profile_id: Some("t1".to_string()),
            request_timeout_ms: Some(20000),
            profiles: Some(vec![TranslationProfile {
                id: "t1".to_string(),
                display_name: "Translate".to_string(),
                provider_kind: TranslationProviderKind::OpenAiCompatible,
                base_url: "https://api.openai.com/v1".to_string(),
                api_key: "abc".to_string(),
                secret_key: String::new(),
                model: "gpt-4.1-mini".to_string(),
                prompt_template: String::new(),
                source_lang: String::new(),
                target_lang: String::new(),
                use_translated_image: false,
            }]),
            ..TranslationConfigCompat::default()
        }),
        ..AppConfigCompat::default()
    });
    assert!(parsed.validate().is_err());
}

#[test]
fn portable_paths_add_one_separator() {
    let paths = portable_app_paths("/opt/opencapt");
    assert_eq!(paths.config_file, "/opt/opencapt/config.toml");
    assert_eq!(paths.log_dir, "/opt/opencapt/logs");
    let rooted = portable_app_paths("/opt/opencapt/");
    assert_eq!(rooted.config_file, "/opt/opencapt/config.toml");
}

#[test]
fn sanitizing_twice_changes_nothing() {
    let mut config = AppConfig::default();
    config.annotation_defaults.stroke_width = 999;
    config.pin_defaults.opacity_percent = 55;
    config.ocr.request_timeout_ms = 1;
    config.translation.profiles = vec![
        translation_profile(" ", "A", "a"),
        translation_profile(" translate_profile_1 ", "B", "b"),
        translation_profile("translate_profile_1", "C", "c"),
    ];
    config.translation.profiles[0].provider_kind = TranslationProviderKind::BaiduImageTranslate;
    config.translation.profiles[0].source_lang = "  ".to_string();
    config.translation.default_profile_id = "missing".to_string();
    let once = config.sanitize();
    let twice = once.clone().sanitize();
    assert_eq!(twice, once);
    assert_eq!(once.translation.profiles[0].source_lang, "auto");
}
