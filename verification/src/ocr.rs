use crate::config::types::{OcrProfile, OcrProviderKind};
use crate::encoding::{base64_standard_encoding, encode_base64};
use crate::json::{array1, array2, array_items, field_value, is_str, object1, object2, object3, object_keys, str_value, JsonValue};
use crate::remote::chat_message;
use crate::probe::{connection_probe, probe_matches, ConnectionProbe, ProbeStyle};
use crate::remote::{endpoint_url, endpoint_url_spec};
use crate::text::{
    ascii_lowercase, ascii_lowercase_spec, chars_of, concat, contains, contains_spec, is_blank,
    is_blank_spec, starts_with, starts_with_spec, string_from_chars, trimmed, trim_spec,
};
use vstd::prelude::*;

verus! {

/// What is sent to a recognizer: the PNG bytes, the time allowed, and the
/// language to expect, if the user named one.
#[derive(Debug, Clone)]
pub struct OcrRecognizeRequest {
    pub image_png: Vec<u8>,
    pub timeout_ms: u64,
    pub language_hint: Option<String>,
}

pub const SYSTEM_PROMPT: &'static str = "You are an OCR engine. Return strict JSON only.";
pub const USER_PROMPT_JSON: &'static str = "Recognize all text from the image. Return JSON with shape: {\"full_text\": string, \"blocks\": [{\"text\": string, \"bbox\": [x1,y1,x2,y2], \"confidence\": number|null}]}. bbox must be in your native coordinate scale.";
pub const USER_PROMPT_DEEPSEEK_GROUNDING: &'static str = "<image>\\n<|grounding|>OCR this image.";

/// How a profile's connection is checked.
pub open spec fn ocr_probe_style(kind: OcrProviderKind) -> ProbeStyle {
    match kind {
        OcrProviderKind::OpenAiCompatible => ProbeStyle::ModelList,
        OcrProviderKind::BaiduOcr => ProbeStyle::BaiduToken,
    }
}

/// The request that checks whether a recognizer profile works: the model
/// list of an OpenAI-compatible service, or an access token from Baidu.
pub fn test_profile(profile: &OcrProfile, timeout_ms: u64) -> (r: ConnectionProbe)
    ensures
        probe_matches(
            r,
            ocr_probe_style(profile.provider_kind),
            profile.base_url@,
            profile.api_key@,
            profile.secret_key@,
            timeout_ms,
        ),
{
    let style = match profile.provider_kind {
        OcrProviderKind::OpenAiCompatible => ProbeStyle::ModelList,
        OcrProviderKind::BaiduOcr => ProbeStyle::BaiduToken,
    };
    connection_probe(
        style,
        profile.base_url.as_str(),
        profile.api_key.as_str(),
        profile.secret_key.as_str(),
        timeout_ms,
    )
}

/// A DeepSeek OCR model, which is prompted for grounding output instead of
/// JSON: the model name mentions both "deepseek" and "ocr", or the service is
/// DeepSeek's and the model name mentions "ocr" (ignoring ASCII case).
pub open spec fn is_deepseek_ocr_model_spec(model: Seq<char>, base_url: Seq<char>) -> bool {
    let m = ascii_lowercase_spec(model);
    let b = ascii_lowercase_spec(base_url);
    (contains_spec(m, "deepseek"@) && contains_spec(m, "ocr"@))
        || (contains_spec(b, "deepseek"@) && contains_spec(m, "ocr"@))
}

/// Whether a profile uses a DeepSeek OCR model.
pub fn is_deepseek_ocr_model(profile: &OcrProfile) -> (r: bool)
    ensures
        r == is_deepseek_ocr_model_spec(profile.model@, profile.base_url@),
{
    let model = ascii_lowercase(profile.model.as_str());
    let base = ascii_lowercase(profile.base_url.as_str());
    let deepseek = chars_of("deepseek");
    let ocr = chars_of("ocr");
    (contains(model.as_slice(), deepseek.as_slice()) && contains(model.as_slice(), ocr.as_slice()))
        || (contains(base.as_slice(), deepseek.as_slice()) && contains(model.as_slice(), ocr.as_slice()))
}

/// The language named in a JSON-prompt request: the hint when it is not
/// blank (as given, untrimmed), else `auto`.
pub open spec fn prompt_language_spec(hint: Option<Seq<char>>) -> Seq<char> {
    match hint {
        Some(h) => if is_blank_spec(h) { "auto"@ } else { h },
        None => "auto"@,
    }
}

/// The hint's text, if there is one.
pub open spec fn hint_view(hint: Option<String>) -> Option<Seq<char>> {
    match hint {
        Some(h) => Some(h@),
        None => None,
    }
}

/// The user prompt of a JSON-prompt recognition request with this hint.
pub open spec fn json_user_prompt_spec(hint: Option<Seq<char>>) -> Seq<char> {
    USER_PROMPT_JSON@ + " Language hint: "@ + prompt_language_spec(hint) + "."@
}

/// The user prompt of a JSON-prompt recognition request.
pub fn build_user_prompt(request: &OcrRecognizeRequest) -> (r: String)
    ensures
        r@ == json_user_prompt_spec(hint_view(request.language_hint)),
{
    let lang: &str = match &request.language_hint {
        Some(h) => if is_blank(h.as_str()) { "auto" } else { h.as_str() },
        None => "auto",
    };
    let a = concat(USER_PROMPT_JSON, " Language hint: ");
    let b = concat(a.as_str(), lang);
    concat(b.as_str(), ".")
}

/// The `language_type` form field of a Baidu request: the trimmed hint, when
/// anything is left of it.
pub open spec fn baidu_language_field_spec(hint: Option<Seq<char>>) -> Option<Seq<char>> {
    match hint {
        Some(h) => if trim_spec(h).len() > 0 { Some(trim_spec(h)) } else { None },
        None => None,
    }
}

/// The language field sent to Baidu, if any.
pub fn baidu_language_field(request: &OcrRecognizeRequest) -> (r: Option<String>)
    ensures
        match (r, baidu_language_field_spec(hint_view(request.language_hint))) {
            (Some(a), Some(b)) => a@ == b,
            (None, None) => true,
            _ => false,
        },
{
    match &request.language_hint {
        Some(h) => {
            if is_blank(h.as_str()) { None } else { Some(trimmed(h.as_str())) }
        },
        None => None,
    }
}

/// The recognition endpoint of a Baidu profile before the token: the model
/// field as a full URL when it is one, as a path when it already names the
/// OCR API, else the name of an OCR v1 endpoint.
pub open spec fn baidu_ocr_endpoint_spec(base_url: Seq<char>, model: Seq<char>) -> Seq<char> {
    let path = trim_spec(model);
    if starts_with_spec(path, "http://"@) || starts_with_spec(path, "https://"@) {
        path
    } else if contains_spec(path, "rest/2.0/ocr/"@) {
        endpoint_url_spec(base_url, path)
    } else {
        endpoint_url_spec(base_url, "rest/2.0/ocr/v1/"@ + path)
    }
}

/// `endpoint` with the access token appended as a query parameter.
pub open spec fn with_access_token_spec(endpoint: Seq<char>, token: Seq<char>) -> Seq<char> {
    if contains_spec(endpoint, "?"@) {
        endpoint + "&access_token="@ + token
    } else {
        endpoint + "?access_token="@ + token
    }
}

/// Appends `access_token=...` to a URL with `?` or `&`, whichever fits.
pub fn with_access_token(endpoint: &str, token: &str) -> (r: String)
    ensures
        r@ == with_access_token_spec(endpoint@, token@),
{
    let e = chars_of(endpoint);
    let q = chars_of("?");
    let sep = if contains(e.as_slice(), q.as_slice()) { "&access_token=" } else { "?access_token=" };
    let a = concat(endpoint, sep);
    concat(a.as_str(), token)
}

/// The recognition URL of a Baidu profile.
pub fn baidu_ocr_url(profile: &OcrProfile, access_token: &str) -> (r: String)
    ensures
        r@ == with_access_token_spec(baidu_ocr_endpoint_spec(profile.base_url@, profile.model@), access_token@),
{
    let path = trimmed(profile.model.as_str());
    let p = chars_of(path.as_str());
    let http = chars_of("http://");
    let https = chars_of("https://");
    let api = chars_of("rest/2.0/ocr/");
    let endpoint = if starts_with(p.as_slice(), http.as_slice()) || starts_with(p.as_slice(), https.as_slice()) {
        path
    } else if contains(p.as_slice(), api.as_slice()) {
        endpoint_url(profile.base_url.as_str(), path.as_str())
    } else {
        let full = concat("rest/2.0/ocr/v1/", path.as_str());
        endpoint_url(profile.base_url.as_str(), full.as_str())
    };
    with_access_token(endpoint.as_str(), access_token)
}

/// The data URL a PNG is sent as.
pub open spec fn png_data_url(image_base64: Seq<char>) -> Seq<char> {
    "data:image/png;base64,"@ + image_base64
}

/// `v` is a text part `{"type": "text", "text": text}` of a message.
pub open spec fn text_part(v: JsonValue, text: Seq<char>) -> bool {
    &&& object_keys(v, seq!["type"@, "text"@])
    &&& is_str(field_value(v, 0), "text"@)
    &&& is_str(field_value(v, 1), text)
}

/// `v` is an image part `{"type": "image_url", "image_url": {"url": url}}` of a message.
pub open spec fn image_part(v: JsonValue, url: Seq<char>) -> bool {
    &&& object_keys(v, seq!["type"@, "image_url"@])
    &&& is_str(field_value(v, 0), "image_url"@)
    &&& object_keys(field_value(v, 1), seq!["url"@])
    &&& is_str(field_value(field_value(v, 1), 0), url)
}

/// The parts of a message whose content is an array.
pub open spec fn user_parts(v: JsonValue) -> Seq<JsonValue> {
    array_items(field_value(v, 1))
}

/// The chat-completion request that recognises an image: the model,
/// temperature 0, and for DeepSeek OCR models one user message with the
/// image and the grounding prompt; for other models the system prompt and a
/// user message with the JSON prompt and the image.
pub open spec fn ocr_payload_spec(v: JsonValue, model: Seq<char>, deepseek: bool, prompt: Seq<char>, image_base64: Seq<char>) -> bool {
    let messages = array_items(field_value(v, 2));
    let url = png_data_url(image_base64);
    &&& object_keys(v, seq!["model"@, "temperature"@, "messages"@])
    &&& is_str(field_value(v, 0), model)
    &&& field_value(v, 1) == JsonValue::Number(Some(0))
    &&& field_value(v, 2) is Array
    &&& if deepseek {
        let user = messages[0];
        &&& messages.len() == 1
        &&& object_keys(user, seq!["role"@, "content"@])
        &&& is_str(field_value(user, 0), "user"@)
        &&& field_value(user, 1) is Array
        &&& user_parts(user).len() == 2
        &&& image_part(user_parts(user)[0], url)
        &&& text_part(user_parts(user)[1], USER_PROMPT_DEEPSEEK_GROUNDING@)
    } else {
        let user = messages[1];
        &&& messages.len() == 2
        &&& chat_message(messages[0], "system"@, SYSTEM_PROMPT@)
        &&& object_keys(user, seq!["role"@, "content"@])
        &&& is_str(field_value(user, 0), "user"@)
        &&& field_value(user, 1) is Array
        &&& user_parts(user).len() == 2
        &&& text_part(user_parts(user)[0], prompt)
        &&& image_part(user_parts(user)[1], url)
    }
}

/// The request body that asks an OpenAI-compatible profile to recognise the
/// image given as base64.
pub fn build_chat_payload(profile: &OcrProfile, request: &OcrRecognizeRequest, image_base64: &str) -> (r: JsonValue)
    ensures
        ocr_payload_spec(
            r,
            profile.model@,
            is_deepseek_ocr_model_spec(profile.model@, profile.base_url@),
            json_user_prompt_spec(hint_view(request.language_hint)),
            image_base64@,
        ),
{
    let url = concat("data:image/png;base64,", image_base64);
    let image = object2("type", str_value("image_url"), "image_url", object1("url", JsonValue::Str(url)));
    let messages = if is_deepseek_ocr_model(profile) {
        let text = object2("type", str_value("text"), "text", str_value(USER_PROMPT_DEEPSEEK_GROUNDING));
        array1(object2("role", str_value("user"), "content", array2(image, text)))
    } else {
        let prompt = build_user_prompt(request);
        let text = object2("type", str_value("text"), "text", JsonValue::Str(prompt));
        let system = object2("role", str_value("system"), "content", str_value(SYSTEM_PROMPT));
        array2(system, object2("role", str_value("user"), "content", array2(text, image)))
    };
    object3("model", JsonValue::Str(profile.model.clone()), "temperature", JsonValue::Number(Some(0)), "messages", messages)
}

/// The body of a recognition request to an OpenAI-compatible profile: the
/// request's PNG encoded as standard base64 and sent as in `build_chat_payload`.
pub fn ocr_chat_request_body(profile: &OcrProfile, request: &OcrRecognizeRequest) -> (r: JsonValue)
    requires
        request.image_png@.len() <= usize::MAX / 2,
    ensures
        ocr_payload_spec(
            r,
            profile.model@,
            is_deepseek_ocr_model_spec(profile.model@, profile.base_url@),
            json_user_prompt_spec(hint_view(request.language_hint)),
            base64_standard_encoding(request.image_png@),
        ),
{
    let image_base64 = encode_base64(&request.image_png);
    build_chat_payload(profile, request, image_base64.as_str())
}

/// The form fields of a Baidu recognition request, by their text: the image
/// as standard base64, direction detection and probabilities switched on,
/// and the language when the hint names one.
pub open spec fn baidu_form_spec(image_base64: Seq<char>, hint: Option<Seq<char>>) -> Seq<(Seq<char>, Seq<char>)> {
    let base = seq![("image"@, image_base64), ("detect_direction"@, "true"@), ("probability"@, "true"@)];
    match baidu_language_field_spec(hint) {
        Some(language) => base.push(("language_type"@, language)),
        None => base,
    }
}

/// The form sent to Baidu to recognise the request's image.
pub fn baidu_ocr_form(request: &OcrRecognizeRequest) -> (r: Vec<(String, String)>)
    requires
        request.image_png@.len() <= usize::MAX / 2,
    ensures
        r@.len() == baidu_form_spec(base64_standard_encoding(request.image_png@), hint_view(request.language_hint)).len(),
        forall|i: int| 0 <= i < r@.len() ==> (#[trigger] r@[i]).0@ == baidu_form_spec(
            base64_standard_encoding(request.image_png@),
            hint_view(request.language_hint),
        )[i].0 && r@[i].1@ == baidu_form_spec(
            base64_standard_encoding(request.image_png@),
            hint_view(request.language_hint),
        )[i].1,
{
    let image_base64 = encode_base64(&request.image_png);
    let mut fields: Vec<(String, String)> = Vec::new();
    fields.push((String::from_str("image"), image_base64));
    fields.push((String::from_str("detect_direction"), String::from_str("true")));
    fields.push((String::from_str("probability"), String::from_str("true")));
    match baidu_language_field(request) {
        Some(language) => fields.push((String::from_str("language_type"), language)),
        None => {},
    }
    fields
}

} // verus!
