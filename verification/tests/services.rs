use opencapt::config::types::{
    OcrBboxScaleMode, OcrProfile, OcrProviderKind, TranslationProfile, TranslationProviderKind,
    DEFAULT_TRANSLATION_PROMPT_TEMPLATE,
};
use opencapt::ocr::{
    baidu_language_field, baidu_ocr_url, build_user_prompt, is_deepseek_ocr_model, test_profile,
    OcrRecognizeRequest,
};
use opencapt::probe::{model_list_verdict, request_failure, ProbeMethod, ProbeScope};
use opencapt::remote::{baidu_error_summary, effective_timeout, endpoint_url};
use opencapt::translation::blocks::{
    baidu_pictrans_url, build_single_prompt, normalize_baidu_language, normalize_translated_output,
    should_force_plain_text_prompt, translate_blocks_parallel, worker_count, ImageTranslateRequest,
};
use opencapt::translation::parse::{parse_single_translation_content, TranslationParseError};

fn deepseek_profile(base_url: &str, model: &str) -> OcrProfile {
    OcrProfile {
        id: "p".to_string(),
        display_name: "deepseek".to_string(),
        provider_kind: OcrProviderKind::OpenAiCompatible,
        base_url: base_url.to_string(),
        api_key: "k".to_string(),
        secret_key: String::new(),
        model: model.to_string(),
        bbox_scale_mode: OcrBboxScaleMode::ZeroTo1000,
    }
}

fn translation_profile(kind: TranslationProviderKind, base_url: &str, model: &str) -> TranslationProfile {
    TranslationProfile {
        id: "t".to_string(),
        display_name: "t".to_string(),
        provider_kind: kind,
        base_url: base_url.to_string(),
        api_key: "  key  ".to_string(),
        secret_key: " secret ".to_string(),
        model: model.to_string(),
        prompt_template: DEFAULT_TRANSLATION_PROMPT_TEMPLATE.to_string(),
        source_lang: "auto".to_string(),
        target_lang: "zh".to_string(),
        use_translated_image: false,
    }
}

#[test]
fn detects_deepseek_ocr_model_name() {
    let profile = deepseek_profile("https://api.deepseek.com/v1", "deepseek-ocr");
    assert!(is_deepseek_ocr_model(&profile));
}

#[test]
fn deepseek_detection_needs_an_ocr_model() {
    assert!(!is_deepseek_ocr_model(&deepseek_profile("https://api.deepseek.com/v1", "deepseek-chat")));
    assert!(is_deepseek_ocr_model(&deepseek_profile("https://API.DeepSeek.com", "My-OCR")));
    assert!(!is_deepseek_ocr_model(&deepseek_profile("https://api.openai.com/v1", "gpt-ocr")));
}

#[test]
fn parse_single_prefers_plain_text() {
    let text = parse_single_translation_content("你好世界").expect("single parse");
    assert_eq!(text, "你好世界");
}

#[test]
fn parse_single_extracts_text_from_json_payload() {
    let text = parse_single_translation_content("{\"translation\":\"你好世界\"}").expect("json parse");
    assert_eq!(text, "你好世界");
}

#[test]
fn parse_single_handles_invalid_json_line_with_inner_quotes() {
    let content = r#"```json
{
  "translation": "textual input such as category names (e.g., "the red car")"
}
```"#;
    let text = parse_single_translation_content(content).expect("loose parse");
    assert_eq!(text, "textual input such as category names (e.g., \"the red car\")");
}

#[test]
fn parse_single_joins_array_items_and_follows_translations() {
    assert_eq!(parse_single_translation_content("[\"one\", \" two \"]").unwrap(), "one\ntwo");
    assert_eq!(
        parse_single_translation_content("{\"translations\": [{\"text\": \"1. 甲\"}, {\"text\": \"乙\"}]}").unwrap(),
        "甲\n乙"
    );
}

#[test]
fn parse_single_decodes_escapes_in_loose_lines() {
    let text = parse_single_translation_content("{\"text\": \"a\\u0041b\\tc\", broken").unwrap();
    assert_eq!(text, "aAb\tc");
}

#[test]
fn parse_single_reads_quoted_string_and_strips_numbering() {
    assert_eq!(parse_single_translation_content("```\n\"quoted\"\n```").unwrap(), "quoted");
    assert_eq!(parse_single_translation_content("  2) 第二行  ").unwrap(), "第二行");
}

#[test]
fn parse_single_rejects_empty_reply() {
    assert_eq!(parse_single_translation_content("   "), Err(TranslationParseError::EmptyContent));
    assert_eq!(parse_single_translation_content("```json\n```"), Err(TranslationParseError::EmptyContent));
    assert_eq!(parse_single_translation_content("1. - 3"), Err(TranslationParseError::EmptyContent));
    assert_eq!(TranslationParseError::EmptyContent.message(), "empty translation content");
}

#[test]
fn endpoint_url_joins_with_one_slash() {
    assert_eq!(endpoint_url("https://api.example.com/v1//", "/chat/completions"), "https://api.example.com/v1/chat/completions");
    assert_eq!(endpoint_url("https://x", "models"), "https://x/models");
    assert_eq!(effective_timeout(10), 1000);
    assert_eq!(effective_timeout(30_000), 30_000);
}

#[test]
fn error_summary_names_code_and_message() {
    assert_eq!(baidu_error_summary("{\"error_code\":110,\"error_msg\":\"Access token invalid\"}"), "110: Access token invalid");
    assert_eq!(
        baidu_error_summary("{\"error\":\"invalid_client\",\"error_description\":\"unknown client id\"}"),
        "invalid_client: unknown client id"
    );
    assert_eq!(baidu_error_summary("{\"error_code\":-3}"), "-3: {\"error_code\":-3}");
    assert_eq!(baidu_error_summary("  not json  "), "not json");
}

#[test]
fn baidu_urls_carry_the_access_token() {
    let mut profile = deepseek_profile("https://aip.baidubce.com/", " general_basic ");
    profile.provider_kind = OcrProviderKind::BaiduOcr;
    assert_eq!(baidu_ocr_url(&profile, "T"), "https://aip.baidubce.com/rest/2.0/ocr/v1/general_basic?access_token=T");
    profile.model = "https://ocr.example.com/api?x=1".to_string();
    assert_eq!(baidu_ocr_url(&profile, "T"), "https://ocr.example.com/api?x=1&access_token=T");
    profile.model = "rest/2.0/ocr/v1/accurate".to_string();
    assert_eq!(baidu_ocr_url(&profile, "T"), "https://aip.baidubce.com/rest/2.0/ocr/v1/accurate?access_token=T");

    let t = translation_profile(TranslationProviderKind::BaiduImageTranslate, "https://aip.baidubce.com", "file/2.0/mt/pictrans/v1");
    assert_eq!(baidu_pictrans_url(&t, "X"), "https://aip.baidubce.com/file/2.0/mt/pictrans/v1?access_token=X");
    assert_eq!(normalize_baidu_language("  "), "auto");
    assert_eq!(normalize_baidu_language(" en "), "en");
}

#[test]
fn connection_probes_follow_the_provider() {
    let mut profile = deepseek_profile("https://api.example.com/v1/", "m");
    profile.api_key = "  sk-1 ".to_string();
    let probe = test_profile(&profile, 200);
    assert_eq!(probe.method, ProbeMethod::Get);
    assert_eq!(probe.url, "https://api.example.com/v1/models");
    assert_eq!(probe.bearer_token.as_deref(), Some("sk-1"));
    assert!(probe.query.is_empty());
    assert_eq!(probe.timeout_ms, 1000);

    let t = translation_profile(TranslationProviderKind::BaiduImageTranslate, "https://aip.baidubce.com", "m");
    let probe = opencapt::translation::blocks::test_profile(&t, 5000);
    assert_eq!(probe.method, ProbeMethod::Post);
    assert_eq!(probe.url, "https://aip.baidubce.com/oauth/2.0/token");
    assert!(probe.bearer_token.is_none());
    assert_eq!(
        probe.query,
        vec![
            ("grant_type".to_string(), "client_credentials".to_string()),
            ("client_id".to_string(), "key".to_string()),
            ("client_secret".to_string(), "secret".to_string()),
        ]
    );
    assert_eq!(probe.timeout_ms, 5000);
}

#[test]
fn probe_verdicts_word_each_failure() {
    assert_eq!(model_list_verdict(ProbeScope::Ocr, 204, "204 No Content", ""), Ok(()));
    assert_eq!(model_list_verdict(ProbeScope::Ocr, 401, "401 Unauthorized", "x"), Err("连接测试失败（401）：API Key 无效".to_string()));
    assert_eq!(model_list_verdict(ProbeScope::Translation, 429, "429", "x"), Err("翻译连接测试失败（429）：请求过于频繁".to_string()));
    assert_eq!(
        model_list_verdict(ProbeScope::Ocr, 500, "500 Internal Server Error", "oops"),
        Err("连接测试失败（500 Internal Server Error）: oops".to_string())
    );
    assert_eq!(request_failure(ProbeScope::Ocr, true, 10, "t"), "连接测试超时（1000 ms）");
    assert_eq!(request_failure(ProbeScope::Translation, false, 10, "dns"), "翻译连接测试请求失败: dns");
}

#[test]
fn ocr_requests_name_the_language() {
    let request = OcrRecognizeRequest { image_png: vec![1, 2], timeout_ms: 5, language_hint: Some(" en ".to_string()) };
    assert!(build_user_prompt(&request).ends_with(" Language hint:  en ."));
    assert_eq!(baidu_language_field(&request).as_deref(), Some("en"));
    let blank = OcrRecognizeRequest { image_png: vec![], timeout_ms: 5, language_hint: Some("  ".to_string()) };
    assert!(build_user_prompt(&blank).ends_with(" Language hint: auto."));
    assert_eq!(baidu_language_field(&blank), None);
}

#[test]
fn single_prompt_fills_the_template() {
    assert_eq!(build_single_prompt("Translate {{text}} now {{text}}", "猫"), "Translate 猫 now 猫");
    assert_eq!(build_single_prompt("Use {{texts}}", "x"), "Use x");
    assert_eq!(build_single_prompt("  Into English:  ", "x"), "Into English:\n\nx");
    assert!(should_force_plain_text_prompt("Return JSON"));
    assert!(should_force_plain_text_prompt("use Translations with INDEX"));
    assert!(!should_force_plain_text_prompt("translations only"));
    assert_eq!(
        build_single_prompt("Return JSON {\"translations\": []}", "x"),
        DEFAULT_TRANSLATION_PROMPT_TEMPLATE.replace("{{text}}", "x")
    );
}

#[test]
fn block_outcomes_combine_with_fallbacks() {
    let texts = vec!["a".to_string(), "b".to_string(), "c".to_string()];
    let outcomes = vec![Ok("  甲 ".to_string()), Err("timeout".to_string()), Ok("   ".to_string())];
    assert_eq!(
        translate_blocks_parallel(&texts, &outcomes),
        Ok(vec!["甲".to_string(), "b".to_string(), "c".to_string()])
    );
    let failed = vec![Err("boom".to_string()), Err("bang".to_string()), Err("x".to_string())];
    assert_eq!(translate_blocks_parallel(&texts, &failed), Err("所有文本块翻译失败；块 #0 失败: boom".to_string()));
    assert_eq!(translate_blocks_parallel(&Vec::new(), &Vec::new()), Ok(Vec::new()));
    assert_eq!(worker_count(2), 2);
    assert_eq!(worker_count(9), 4);
    assert_eq!(normalize_translated_output("  ", "src"), "src");
    let request = ImageTranslateRequest { image_png: vec![0], image_width: 3, image_height: 4, timeout_ms: 9 };
    assert_eq!(request.image_width * request.image_height, 12);
}
