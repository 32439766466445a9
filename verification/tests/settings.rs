use opencapt::config::types::AppConfig;
use opencapt::config::validate::ConfigError;
use opencapt::config::types::{
    default_ocr_profile, default_translation_profile, OcrBboxScaleMode, OcrProviderKind,
    TranslationProviderKind,
};
use opencapt::settings::{
    baidu_lang_label, baidu_source_lang_options, baidu_target_lang_options, default_after_removal,
    fix_selection, next_profile_id, prepare_save, switch_ocr_provider, switch_translation_provider,
    SaveError, SettingsPage,
};

#[test]
fn settings_pages_have_titles_and_summaries() {
    let pages = SettingsPage::all();
    assert_eq!(pages[0], SettingsPage::General);
    assert_eq!(pages[4].title(), "翻译");
    assert_eq!(SettingsPage::Pin.summary(), "贴图窗口的默认行为");
}

#[test]
fn selection_is_kept_in_range() {
    assert_eq!(fix_selection(Some(2), 3), Some(2));
    assert_eq!(fix_selection(Some(3), 3), Some(0));
    assert_eq!(fix_selection(Some(1), 0), None);
    assert_eq!(fix_selection(None, 2), Some(0));
}

#[test]
fn next_profile_id_takes_first_free_counter() {
    let used = vec!["profile_1".to_string(), "profile_3".to_string(), "x".to_string()];
    assert_eq!(next_profile_id(&used, "profile_"), "profile_2");
    assert_eq!(next_profile_id(&Vec::new(), "translate_profile_"), "translate_profile_1");
    let used = vec!["translate_profile_1".to_string(), "translate_profile_2".to_string()];
    assert_eq!(next_profile_id(&used, "translate_profile_"), "translate_profile_3");
}

#[test]
fn removing_the_default_profile_moves_the_default() {
    let remaining = vec!["b".to_string(), "c".to_string()];
    assert_eq!(default_after_removal("a", "a", &remaining), "b");
    assert_eq!(default_after_removal("c", "a", &remaining), "c");
    assert_eq!(default_after_removal("a", "a", &Vec::new()), "");
}

#[test]
fn language_labels_name_known_codes() {
    let source = baidu_source_lang_options();
    let target = baidu_target_lang_options();
    assert_eq!(source.len(), 9);
    assert_eq!(target.len(), 8);
    assert_eq!(baidu_lang_label(&source, " en ", "未设置"), "英语 (en)");
    assert_eq!(baidu_lang_label(&target, "auto", "未设置"), "auto");
    assert_eq!(baidu_lang_label(&target, "  ", "未设置"), "未设置");
}

#[test]
fn saving_settings_checks_the_fields() {
    let draft = AppConfig::default();
    assert_eq!(prepare_save(&draft, "  ", "C:\\Shots").unwrap_err(), SaveError::EmptyHotkey);
    assert_eq!(prepare_save(&draft, "Ctrl+Q", " ").unwrap_err(), SaveError::EmptySaveDir);
    assert_eq!(SaveError::EmptySaveDir.message(), "保存目录不能为空");
    assert!(matches!(prepare_save(&draft, "Ctrl+Shift", "C:\\Shots"), Err(SaveError::Invalid(ConfigError::InvalidHotkey(_)))));
    let saved = prepare_save(&draft, " Alt+Shift+Z ", " C:\\Shots ").unwrap();
    assert_eq!(saved.general.hotkey, "Alt+Shift+Z");
    assert_eq!(saved.general.save_dir, "C:\\Shots");
}

#[test]
fn resetting_a_page_touches_only_that_page() {
    let mut draft = opencapt::config::types::AppConfig::default();
    draft.general.hotkey = "Alt+Q".to_string();
    draft.pin_defaults.opacity_percent = 50;
    opencapt::settings::reset_page(&mut draft, SettingsPage::Pin);
    assert_eq!(draft.pin_defaults.opacity_percent, 100);
    assert_eq!(draft.general.hotkey, "Alt+Q");
    opencapt::settings::reset_page(&mut draft, SettingsPage::General);
    assert_eq!(draft.general.hotkey, "Ctrl+Shift+A");
}

#[test]
fn switching_ocr_provider_resets_endpoint_fields() {
    let mut p = default_ocr_profile(1, "ocr-1".to_string());
    p.api_key = "key".to_string();
    p.secret_key = "secret".to_string();
    switch_ocr_provider(&mut p, OcrProviderKind::BaiduOcr);
    assert_eq!(p.provider_kind, OcrProviderKind::BaiduOcr);
    assert_eq!(p.base_url, "https://aip.baidubce.com");
    assert_eq!(p.model, "general");
    assert_eq!(p.bbox_scale_mode, OcrBboxScaleMode::PixelAbsolute);
    assert_eq!(p.secret_key, "secret");
    assert_eq!(p.api_key, "key");

    p.model = "accurate".to_string();
    switch_ocr_provider(&mut p, OcrProviderKind::BaiduOcr);
    assert_eq!(p.model, "accurate");

    switch_ocr_provider(&mut p, OcrProviderKind::OpenAiCompatible);
    assert_eq!(p.base_url, "https://api.openai.com/v1");
    assert_eq!(p.model, "gpt-4.1-mini");
    assert_eq!(p.bbox_scale_mode, OcrBboxScaleMode::ZeroTo1000);
    assert_eq!(p.secret_key, "");
    assert_eq!(p.id, "ocr-1");
}

#[test]
fn switching_translation_provider_fills_baidu_fields() {
    let mut p = default_translation_profile(1, "tr-1".to_string());
    p.prompt_template = "  ".to_string();
    p.source_lang = String::new();
    p.target_lang = "en".to_string();
    switch_translation_provider(&mut p, TranslationProviderKind::BaiduImageTranslate);
    assert_eq!(p.base_url, "https://aip.baidubce.com");
    assert_eq!(p.model, "file/2.0/mt/pictrans/v1");
    assert!(p.prompt_template.contains("{{text}}"));
    assert_eq!(p.source_lang, "auto");
    assert_eq!(p.target_lang, "en");

    p.secret_key = "secret".to_string();
    p.use_translated_image = true;
    switch_translation_provider(&mut p, TranslationProviderKind::OpenAiCompatible);
    assert_eq!(p.secret_key, "");
    assert!(!p.use_translated_image);
    assert_eq!(p.model, "gpt-4.1-mini");
    assert_eq!(p.source_lang, "auto");
}
