use opencapt::config::types::{default_translation_profile, OcrBboxScaleMode, OcrProfile, OcrProviderKind};
use opencapt::json::JsonValue;
use opencapt::ocr::{
    baidu_ocr_form, build_chat_payload, ocr_chat_request_body, OcrRecognizeRequest, SYSTEM_PROMPT,
    USER_PROMPT_DEEPSEEK_GROUNDING,
};
use opencapt::remote::baidu_token_query;
use opencapt::translation::blocks::{baidu_pictrans_fields, translation_payload};
use opencapt::translation::content::{chat_reply_content, ChatReplyError};
use opencapt::translation::pasted::{decode_base64_image, PastedImageError};

fn s(text: &str) -> JsonValue {
    JsonValue::Str(text.to_string())
}

fn obj(entries: Vec<(&str, JsonValue)>) -> JsonValue {
    JsonValue::Object(entries.into_iter().map(|(k, v)| (k.to_string(), v)).collect())
}

fn profile(base_url: &str, model: &str) -> OcrProfile {
    OcrProfile {
        id: "p".to_string(),
        display_name: "p".to_string(),
        provider_kind: OcrProviderKind::OpenAiCompatible,
        base_url: base_url.to_string(),
        api_key: String::new(),
        secret_key: String::new(),
        model: model.to_string(),
        bbox_scale_mode: OcrBboxScaleMode::ZeroTo1000,
    }
}

fn request(png: &[u8], hint: Option<&str>) -> OcrRecognizeRequest {
    OcrRecognizeRequest { image_png: png.to_vec(), timeout_ms: 1000, language_hint: hint.map(|h| h.to_string()) }
}

fn image_part(url: &str) -> JsonValue {
    obj(vec![("type", s("image_url")), ("image_url", obj(vec![("url", s(url))]))])
}

#[test]
fn ocr_payload_asks_for_json_with_the_language_hint() {
    let payload = build_chat_payload(&profile("https://api.example.com/v1", "gpt-4o"), &request(b"", Some("ja")), "QUJD");
    let prompt = format!("{} Language hint: ja.", opencapt::ocr::USER_PROMPT_JSON);
    let expected = obj(vec![
        ("model", s("gpt-4o")),
        ("temperature", JsonValue::Number(Some(0))),
        (
            "messages",
            JsonValue::Array(vec![
                obj(vec![("role", s("system")), ("content", s(SYSTEM_PROMPT))]),
                obj(vec![
                    ("role", s("user")),
                    (
                        "content",
                        JsonValue::Array(vec![
                            obj(vec![("type", s("text")), ("text", s(&prompt))]),
                            image_part("data:image/png;base64,QUJD"),
                        ]),
                    ),
                ]),
            ]),
        ),
    ]);
    assert_eq!(payload, expected);
}

#[test]
fn deepseek_payload_asks_for_grounding() {
    let payload = build_chat_payload(&profile("https://api.deepseek.com", "deepseek-ocr"), &request(b"", None), "QUJD");
    let expected = obj(vec![
        ("model", s("deepseek-ocr")),
        ("temperature", JsonValue::Number(Some(0))),
        (
            "messages",
            JsonValue::Array(vec![obj(vec![
                ("role", s("user")),
                (
                    "content",
                    JsonValue::Array(vec![
                        image_part("data:image/png;base64,QUJD"),
                        obj(vec![("type", s("text")), ("text", s(USER_PROMPT_DEEPSEEK_GROUNDING))]),
                    ]),
                ),
            ])]),
        ),
    ]);
    assert_eq!(payload, expected);
}

#[test]
fn request_body_sends_the_png_as_base64() {
    let body = ocr_chat_request_body(&profile("https://api.deepseek.com", "deepseek-ocr"), &request(b"hello", None));
    let JsonValue::Object(fields) = body else { panic!("not an object") };
    let JsonValue::Array(messages) = &fields[2].1 else { panic!("no messages") };
    let JsonValue::Object(user) = &messages[0] else { panic!("no user message") };
    let JsonValue::Array(parts) = &user[1].1 else { panic!("no parts") };
    assert_eq!(parts[0], image_part("data:image/png;base64,aGVsbG8="));
}

#[test]
fn baidu_form_carries_image_and_language() {
    let form = baidu_ocr_form(&request(b"hi", Some("  CHN_ENG ")));
    let expected: Vec<(String, String)> = vec![
        ("image".to_string(), "aGk=".to_string()),
        ("detect_direction".to_string(), "true".to_string()),
        ("probability".to_string(), "true".to_string()),
        ("language_type".to_string(), "CHN_ENG".to_string()),
    ];
    assert_eq!(form, expected);
    let without = baidu_ocr_form(&request(b"hi", Some("   ")));
    assert_eq!(without.len(), 3);
}

#[test]
fn translation_payload_carries_the_prompt() {
    let mut profile = default_translation_profile(1, "t".to_string());
    profile.model = "gpt-4o-mini".to_string();
    profile.prompt_template = "Translate: {{text}}".to_string();
    let payload = translation_payload(&profile, "你好");
    let expected = obj(vec![
        ("model", s("gpt-4o-mini")),
        ("temperature", JsonValue::Number(Some(0))),
        (
            "messages",
            JsonValue::Array(vec![
                obj(vec![("role", s("system")), ("content", s(opencapt::translation::blocks::SYSTEM_PROMPT))]),
                obj(vec![("role", s("user")), ("content", s("Translate: 你好"))]),
            ]),
        ),
    ]);
    assert_eq!(payload, expected);
}

#[test]
fn pasted_images_are_decoded_with_or_without_padding() {
    assert_eq!(decode_base64_image("  data:image/png;base64, aGVsbG8= "), Ok(b"hello".to_vec()));
    assert_eq!(decode_base64_image("aGVsbG8"), Ok(b"hello".to_vec()));
    assert_eq!(decode_base64_image("   "), Err(PastedImageError::Empty));
    assert_eq!(decode_base64_image("not base64!"), Err(PastedImageError::InvalidBase64));
    assert_eq!(PastedImageError::Empty.message(), "empty pasted image payload");
    assert_eq!(PastedImageError::InvalidBase64.message(), "invalid base64 pasted image");
}

fn pairs(items: &[(&str, &str)]) -> Vec<(String, String)> {
    items.iter().map(|(k, v)| (k.to_string(), v.to_string())).collect()
}

#[test]
fn token_query_trims_the_credentials() {
    assert_eq!(
        baidu_token_query("  key ", "\tsecret\n"),
        pairs(&[("grant_type", "client_credentials"), ("client_id", "key"), ("client_secret", "secret")])
    );
}

#[test]
fn pictrans_fields_name_languages_and_paste() {
    let mut profile = default_translation_profile(1, "t".to_string());
    profile.source_lang = "  ".to_string();
    profile.target_lang = " en ".to_string();
    profile.use_translated_image = true;
    assert_eq!(baidu_pictrans_fields(&profile), pairs(&[("from", "auto"), ("to", "en"), ("paste", "1")]));
    profile.use_translated_image = false;
    assert_eq!(baidu_pictrans_fields(&profile)[2], ("paste".to_string(), "0".to_string()));
}

#[test]
fn chat_reply_text_is_read_from_the_first_choice() {
    assert_eq!(
        chat_reply_content(r#"{"choices":[{"message":{"content":"你好"}}]}"#),
        Ok("你好".to_string())
    );
    assert_eq!(
        chat_reply_content(
            r#"{"choices":[{"message":{"content":[{"type":"text","text":"a"},{"type":"image"},{"text":"b"}]}}]}"#
        ),
        Ok("a\nb".to_string())
    );
    assert_eq!(chat_reply_content(r#"{"choices":[]}"#), Err(ChatReplyError::EmptyContent));
    assert_eq!(
        chat_reply_content(r#"{"choices":[{"message":{"content":"   "}}]}"#),
        Err(ChatReplyError::EmptyContent)
    );
    assert_eq!(chat_reply_content("not json"), Err(ChatReplyError::InvalidJson));
    assert_eq!(ChatReplyError::InvalidJson.message(), "invalid json response");
}

#[test]
fn baidu_image_reply_keeps_boxed_items_and_pasted_image() {
    let body = r#"{"data":{"sumSrc":"","sumDst":" 你好 ","content":[{"src":"hello","dst":"你好","rect":"1 2 3 4"},{"src":" ","dst":""},{"src":"world","dst":"世界"}],"pasteImg":"aGVsbG8="}}"#;
    let parsed = opencapt::translation::baidu_reply::parse_reply_json(body);
    let reply = opencapt::translation::baidu_reply::baidu_image_translation_from(&parsed).unwrap();
    assert_eq!(reply.items.len(), 2);
    assert_eq!(reply.items[0].source_text, "hello");
    assert_eq!(reply.items[0].rect, Some(&JsonValue::Str("1 2 3 4".to_string())));
    assert_eq!(reply.items[1].translated_text, "世界");
    assert!(reply.items[1].rect.is_none());
    let done = opencapt::translation::baidu_reply::finish_image_translation(&reply, &vec![true, false], true);
    assert_eq!(done.kept, vec![0]);
    assert_eq!(done.source_full_text, "hello");
    assert_eq!(done.translated_full_text, "你好");
    assert_eq!(done.pasted_image, Some(b"hello".to_vec()));
    let both = opencapt::translation::baidu_reply::finish_image_translation(&reply, &vec![true, true], false);
    assert_eq!(both.source_full_text, "hello\nworld");
    assert_eq!(both.pasted_image, None);
}

#[test]
fn baidu_image_reply_must_be_json() {
    let parsed = opencapt::translation::baidu_reply::parse_reply_json("<html>");
    let err = opencapt::translation::baidu_reply::baidu_image_translation_from(&parsed).err().unwrap();
    assert_eq!(err.message(), "invalid baidu image translation response");
}

#[test]
fn baidu_token_reply_needs_success_and_a_token() {
    let verdict = opencapt::remote::baidu_token_verdict;
    assert_eq!(verdict(200, r#"{"access_token":"abc","expires_in":1}"#), Ok("abc".to_string()));
    assert_eq!(verdict(200, r#"{"access_token":"  "}"#), Err(opencapt::remote::TokenError::EmptyToken));
    assert_eq!(verdict(200, r#"{"error":"invalid_client"}"#), Err(opencapt::remote::TokenError::EmptyToken));
    assert_eq!(verdict(200, r#"{"access_token":5}"#), Err(opencapt::remote::TokenError::InvalidReply));
    assert_eq!(verdict(200, "oops"), Err(opencapt::remote::TokenError::InvalidReply));
    assert_eq!(verdict(401, r#"{"access_token":"abc"}"#), Err(opencapt::remote::TokenError::HttpStatus));
}

#[test]
fn pasted_images_accept_only_canonical_base64() {
    assert_eq!(decode_base64_image("QQ=="), Ok(vec![65]));
    assert_eq!(decode_base64_image("QQ"), Ok(vec![65]));
    assert_eq!(decode_base64_image("QR=="), Err(PastedImageError::InvalidBase64));
    assert_eq!(decode_base64_image("QQ="), Err(PastedImageError::InvalidBase64));
    assert_eq!(decode_base64_image("Q"), Err(PastedImageError::InvalidBase64));
    assert_eq!(decode_base64_image("TWFu"), Ok(b"Man".to_vec()));
}

#[test]
fn parse_baidu_translation_response_uses_blocks_and_paste_img() {
    let body = r#"{
  "data": {
    "sumSrc": "Grounding-DINO",
    "sumDst": "Grounding-DINO（译）",
    "pasteImg": "aGVsbG8=",
    "content": [
      {
        "src": "Overview",
        "dst": "概述",
        "rect": "10 20 30 40"
      }
    ]
  }
}"#;
    let parsed = opencapt::translation::baidu_reply::parse_reply_json(body);
    let reply = opencapt::translation::baidu_reply::baidu_image_translation_from(&parsed).expect("parse baidu response");
    assert_eq!(reply.items.len(), 1);
    assert_eq!(reply.items[0].rect, Some(&JsonValue::Str("10 20 30 40".to_string())));
    let result = opencapt::translation::baidu_reply::finish_image_translation(&reply, &vec![true], true);
    assert_eq!(result.source_full_text, "Grounding-DINO");
    assert_eq!(result.translated_full_text, "Grounding-DINO（译）");
    assert_eq!(result.kept, vec![0]);
    assert_eq!(reply.items[result.kept[0]].source_text, "Overview");
    assert_eq!(reply.items[result.kept[0]].translated_text, "概述");
    assert_eq!(result.pasted_image.as_deref(), Some(b"hello".as_slice()));
}

#[test]
fn parse_baidu_translation_response_falls_back_to_joined_text() {
    let body = r#"{
  "data": {
    "content": [
      {
        "src": "A",
        "dst": "甲",
        "points": [[0, 0], [20, 0], [20, 10], [0, 10]]
      },
      {
        "src": "B",
        "dst": "乙",
        "rect": [30, 10, 20, 20]
      }
    ]
  }
}"#;
    let parsed = opencapt::translation::baidu_reply::parse_reply_json(body);
    let reply = opencapt::translation::baidu_reply::baidu_image_translation_from(&parsed).expect("parse baidu response");
    assert_eq!(reply.items.len(), 2);
    assert!(reply.items[0].points.is_some());
    assert!(reply.items[1].rect.is_some());
    let result = opencapt::translation::baidu_reply::finish_image_translation(&reply, &vec![true, true], false);
    assert_eq!(result.source_full_text, "A\nB");
    assert_eq!(result.translated_full_text, "甲\n乙");
    assert_eq!(result.kept.len(), 2);
    assert!(result.pasted_image.is_none());
}
