use crate::config::types::{TranslationProfile, TranslationProviderKind, DEFAULT_TRANSLATION_PROMPT_TEMPLATE};
use crate::json::{array2, array_items, field_value, is_str, object2, object3, object_keys, str_value, JsonValue};
use crate::ocr::with_access_token;
use crate::ocr::with_access_token_spec;
use crate::probe::{connection_probe, probe_matches, ConnectionProbe, ProbeStyle};
use crate::remote::{chat_message, endpoint_url, endpoint_url_spec, push_u64_decimal};
use crate::text::{
    ascii_lowercase, ascii_lowercase_spec, chars_of, concat, contains, contains_spec, decimal_spec,
    is_blank, is_blank_spec, slice_chars, starts_with, starts_with_spec, string_from_chars, trimmed,
    trim_spec,
};
use vstd::prelude::*;

verus! {

/// What is sent to an image translator: the PNG bytes, the image's size in
/// pixels and the time allowed.
#[derive(Debug, Clone)]
pub struct ImageTranslateRequest {
    pub image_png: Vec<u8>,
    pub image_width: u32,
    pub image_height: u32,
    pub timeout_ms: u64,
}

/// At most this many blocks are translated at once.
pub const MAX_PARALLEL_REQUESTS: usize = 4;

/// The system prompt of a text translation request.
pub const SYSTEM_PROMPT: &'static str = "You are a translation engine. Translate only the provided text segment and return only the translated text. Do not return JSON, Markdown, numbering, labels, or explanations.";

/// How many workers translate `block_count` blocks.
pub fn worker_count(block_count: usize) -> (r: usize)
    ensures
        r == (if block_count < MAX_PARALLEL_REQUESTS { block_count } else { MAX_PARALLEL_REQUESTS }),
{
    if block_count < MAX_PARALLEL_REQUESTS { block_count } else { MAX_PARALLEL_REQUESTS }
}

/// A block's translation as kept: the trimmed reply, or the source text
/// when the reply is blank.
pub open spec fn normalize_output_spec(translated: Seq<char>, source: Seq<char>) -> Seq<char> {
    if trim_spec(translated).len() == 0 { source } else { trim_spec(translated) }
}

/// Keeps a block's translation, falling back to its source when blank.
pub fn normalize_translated_output(translated: &str, source: &str) -> (r: String)
    ensures
        r@ == normalize_output_spec(translated@, source@),
{
    if is_blank(translated) {
        String::from_str(source)
    } else {
        trimmed(translated)
    }
}

/// The report of a failed block: `块 #index 失败: error`.
pub open spec fn block_failure_spec(index: nat, error: Seq<char>) -> Seq<char> {
    "块 #"@ + decimal_spec(index) + " 失败: "@ + error
}

/// The texts kept for all blocks, given each block's outcome.
pub open spec fn block_outputs_spec(texts: Seq<String>, outcomes: Seq<Result<String, String>>) -> Seq<Seq<char>> {
    Seq::new(texts.len(), |i: int| match outcomes[i] {
        Ok(t) => normalize_output_spec(t@, texts[i]@),
        Err(_) => texts[i]@,
    })
}

/// Whether every block failed.
pub open spec fn all_failed(outcomes: Seq<Result<String, String>>) -> bool {
    forall|i: int| 0 <= i < outcomes.len() ==> (#[trigger] outcomes[i]) is Err
}

/// The result of translating blocks, given each block's outcome (in block
/// order): when there are blocks and all of them failed, an error naming
/// the first failure; else the translations, a failed block keeping its
/// source text and a blank reply also falling back to the source.
pub open spec fn combine_spec(texts: Seq<String>, outcomes: Seq<Result<String, String>>) -> Result<Seq<Seq<char>>, Seq<char>> {
    if texts.len() > 0 && all_failed(outcomes) {
        Err("所有文本块翻译失败；"@ + block_failure_spec(0, outcomes[0]->Err_0@))
    } else {
        Ok(block_outputs_spec(texts, outcomes))
    }
}

/// The texts of a result, as sequences.
pub open spec fn texts_result(r: Result<Vec<String>, String>) -> Result<Seq<Seq<char>>, Seq<char>> {
    match r {
        Ok(v) => Ok(v@.map_values(|s: String| s@)),
        Err(e) => Err(e@),
    }
}

fn block_failure(index: usize, error: &str) -> (r: String)
    ensures
        r@ == block_failure_spec(index as nat, error@),
{
    let mut v = chars_of("块 #");
    push_u64_decimal(&mut v, index as u64);
    let head = string_from_chars(v.as_slice());
    let a = concat(head.as_str(), " 失败: ");
    concat(a.as_str(), error)
}

/// Combines the outcomes of translating each block (one per block, in
/// order, as the workers report them) into the translated texts.
pub fn translate_blocks_parallel(texts: &Vec<String>, outcomes: &Vec<Result<String, String>>) -> (r: Result<Vec<String>, String>)
    requires
        outcomes@.len() == texts@.len(),
    ensures
        texts_result(r) == combine_spec(texts@, outcomes@),
{
    let n = texts.len();
    let mut out: Vec<String> = Vec::new();
    let mut failures: usize = 0;
    let mut i: usize = 0;
    while i < n
        invariant
            i <= n == texts@.len() == outcomes@.len(),
            failures <= i,
            (failures == i) == (forall|j: int| 0 <= j < i ==> (#[trigger] outcomes@[j]) is Err),
            out@.map_values(|s: String| s@) == block_outputs_spec(texts@, outcomes@).take(i as int),
        decreases n - i,
    {
        let kept = match &outcomes[i] {
            Ok(t) => normalize_translated_output(t.as_str(), texts[i].as_str()),
            Err(_) => {
                failures = failures + 1;
                texts[i].clone()
            },
        };
        assert(kept@ == block_outputs_spec(texts@, outcomes@)[i as int]);
        let ghost prev = out@;
        out.push(kept);
        proof {
            assert(out@.map_values(|s: String| s@) =~= prev.map_values(|s: String| s@).push(kept@));
            assert(out@.map_values(|s: String| s@) =~= block_outputs_spec(texts@, outcomes@).take(i + 1));
            if failures == i + 1 {
                assert forall|j: int| 0 <= j < i + 1 implies (#[trigger] outcomes@[j]) is Err by {
                    if j < i {
                    }
                }
            } else {
                if outcomes@[i as int] is Err {
                    assert(!(forall|j: int| 0 <= j < i ==> (#[trigger] outcomes@[j]) is Err));
                    assert(!(forall|j: int| 0 <= j < i + 1 ==> (#[trigger] outcomes@[j]) is Err));
                } else {
                    assert(!(forall|j: int| 0 <= j < i + 1 ==> (#[trigger] outcomes@[j]) is Err));
                }
            }
        }
        i = i + 1;
    }
    assert(block_outputs_spec(texts@, outcomes@).take(n as int) =~= block_outputs_spec(texts@, outcomes@));
    if n > 0 && failures == n {
        match &outcomes[0] {
            Err(e) => {
                let first = block_failure(0, e.as_str());
                Err(concat("所有文本块翻译失败；", first.as_str()))
            },
            Ok(_) => {
                assert(false);
                Ok(out)
            },
        }
    } else {
        Ok(out)
    }
}

/// `s` with every occurrence of `pat` (which is not empty) replaced by
/// `rep`, scanning left to right without overlaps, as `str::replace` does.
pub open spec fn replace_spec(s: Seq<char>, pat: Seq<char>, rep: Seq<char>) -> Seq<char>
    decreases s.len(),
{
    if s.len() < pat.len() || pat.len() == 0 {
        s
    } else if s.take(pat.len() as int) == pat {
        rep + replace_spec(s.skip(pat.len() as int), pat, rep)
    } else {
        seq![s[0]] + replace_spec(s.drop_first(), pat, rep)
    }
}

/// Replaces every occurrence of `pat` in `s` by `rep`.
pub fn replace_all(s: &str, pat: &str, rep: &str) -> (r: String)
    requires
        pat@.len() > 0,
    ensures
        r@ == replace_spec(s@, pat@, rep@),
{
    let sc = chars_of(s);
    let pc = chars_of(pat);
    let rc = chars_of(rep);
    let n = sc.len();
    let m = pc.len();
    let mut out: Vec<char> = Vec::new();
    let mut i: usize = 0;
    assert(sc@.skip(0) =~= sc@);
    while i < n
        invariant
            i <= n == sc@.len(),
            m == pc@.len() > 0,
            sc@ == s@, pc@ == pat@, rc@ == rep@,
            replace_spec(s@, pat@, rep@) == out@ + replace_spec(sc@.skip(i as int), pat@, rep@),
        decreases n - i,
    {
        let ghost rest = sc@.skip(i as int);
        if n - i >= m {
            let window = slice_chars(sc.as_slice(), i, i + m);
            assert(window@ =~= rest.take(m as int));
            if crate::text::chars_eq(window.as_slice(), pc.as_slice()) {
                let mut k: usize = 0;
                let ghost before = out@;
                while k < rc.len()
                    invariant
                        k <= rc@.len(),
                        out@ == before + rc@.take(k as int),
                    decreases rc@.len() - k,
                {
                    out.push(rc[k]);
                    assert(rc@.take(k + 1) =~= rc@.take(k as int).push(rc@[k as int]));
                    k = k + 1;
                }
                assert(rc@.take(rc@.len() as int) =~= rc@);
                assert(rest.skip(m as int) =~= sc@.skip(i + m));
                i = i + m;
                assert(replace_spec(s@, pat@, rep@) == out@ + replace_spec(sc@.skip(i as int), pat@, rep@));
                continue;
            }
        }
        assert(rest[0] == sc@[i as int]);
        assert(rest.drop_first() =~= sc@.skip(i + 1));
        out.push(sc[i]);
        i = i + 1;
        assert(replace_spec(s@, pat@, rep@) == out@ + replace_spec(sc@.skip(i as int), pat@, rep@));
    }
    assert(sc@.skip(n as int) =~= Seq::<char>::empty());
    assert(out@ =~= out@ + Seq::<char>::empty());
    string_from_chars(out.as_slice())
}

/// A prompt template written for batch JSON replies, which single-block
/// requests replace by the default plain-text prompt: it mentions `json`, or
/// `"translations"`, or both `translations` and `index` (ignoring ASCII case).
pub open spec fn force_plain_prompt_spec(template: Seq<char>) -> bool {
    let lower = ascii_lowercase_spec(template);
    contains_spec(lower, "json"@) || contains_spec(lower, "\"translations\""@)
        || (contains_spec(lower, "translations"@) && contains_spec(lower, "index"@))
}

/// Whether a template asks for JSON and must give way to the default prompt.
pub fn should_force_plain_text_prompt(template: &str) -> (r: bool)
    ensures
        r == force_plain_prompt_spec(template@),
{
    let lower = ascii_lowercase(template);
    let json = chars_of("json");
    let quoted = chars_of("\"translations\"");
    let plural = chars_of("translations");
    let index = chars_of("index");
    contains(lower.as_slice(), json.as_slice()) || contains(lower.as_slice(), quoted.as_slice())
        || (contains(lower.as_slice(), plural.as_slice()) && contains(lower.as_slice(), index.as_slice()))
}

/// The prompt for one block: the default prompt when the template asks for
/// JSON; else the template with `{{text}}` (or, failing that, `{{texts}}`)
/// replaced by the text; else the trimmed template, a blank line and the text.
pub open spec fn single_prompt_spec(template: Seq<char>, text: Seq<char>) -> Seq<char> {
    if force_plain_prompt_spec(template) {
        replace_spec(DEFAULT_TRANSLATION_PROMPT_TEMPLATE@, "{{text}}"@, text)
    } else if contains_spec(template, "{{text}}"@) {
        replace_spec(template, "{{text}}"@, text)
    } else if contains_spec(template, "{{texts}}"@) {
        replace_spec(template, "{{texts}}"@, text)
    } else {
        trim_spec(template) + "\n\n"@ + text
    }
}

/// Builds the prompt that asks for one block's translation.
pub fn build_single_prompt(template: &str, text: &str) -> (r: String)
    ensures
        r@ == single_prompt_spec(template@, text@),
{
    proof {
        reveal_strlit("{{text}}");
        reveal_strlit("{{texts}}");
    }
    if should_force_plain_text_prompt(template) {
        return replace_all(DEFAULT_TRANSLATION_PROMPT_TEMPLATE, "{{text}}", text);
    }
    let t = chars_of(template);
    let one = chars_of("{{text}}");
    let many = chars_of("{{texts}}");
    if contains(t.as_slice(), one.as_slice()) {
        return replace_all(template, "{{text}}", text);
    }
    if contains(t.as_slice(), many.as_slice()) {
        return replace_all(template, "{{texts}}", text);
    }
    let head = trimmed(template);
    let a = concat(head.as_str(), "\n\n");
    concat(a.as_str(), text)
}

/// How a translation profile's connection is checked.
pub open spec fn translation_probe_style(kind: TranslationProviderKind) -> ProbeStyle {
    match kind {
        TranslationProviderKind::OpenAiCompatible => ProbeStyle::ModelList,
        TranslationProviderKind::BaiduImageTranslate => ProbeStyle::BaiduToken,
    }
}

/// The request that checks whether a translation profile works.
pub fn test_profile(profile: &TranslationProfile, timeout_ms: u64) -> (r: ConnectionProbe)
    ensures
        probe_matches(
            r,
            translation_probe_style(profile.provider_kind),
            profile.base_url@,
            profile.api_key@,
            profile.secret_key@,
            timeout_ms,
        ),
{
    let style = match profile.provider_kind {
        TranslationProviderKind::OpenAiCompatible => ProbeStyle::ModelList,
        TranslationProviderKind::BaiduImageTranslate => ProbeStyle::BaiduToken,
    };
    connection_probe(
        style,
        profile.base_url.as_str(),
        profile.api_key.as_str(),
        profile.secret_key.as_str(),
        timeout_ms,
    )
}

/// A language code as Baidu takes it: trimmed, `auto` when blank.
pub open spec fn baidu_language_spec(language: Seq<char>) -> Seq<char> {
    if trim_spec(language).len() == 0 { "auto"@ } else { trim_spec(language) }
}

/// Normalizes a language code for Baidu.
pub fn normalize_baidu_language(language: &str) -> (r: String)
    ensures
        r@ == baidu_language_spec(language@),
{
    if is_blank(language) { String::from_str("auto") } else { trimmed(language) }
}

/// The image translation endpoint of a Baidu profile: the model field as a
/// full URL when it is one, else as a path under the base URL.
pub open spec fn baidu_pictrans_endpoint_spec(base_url: Seq<char>, model: Seq<char>) -> Seq<char> {
    let path = trim_spec(model);
    if starts_with_spec(path, "http://"@) || starts_with_spec(path, "https://"@) {
        path
    } else {
        endpoint_url_spec(base_url, path)
    }
}

/// The image translation URL of a Baidu profile, with its access token.
pub fn baidu_pictrans_url(profile: &TranslationProfile, access_token: &str) -> (r: String)
    ensures
        r@ == with_access_token_spec(baidu_pictrans_endpoint_spec(profile.base_url@, profile.model@), access_token@),
{
    let path = trimmed(profile.model.as_str());
    let p = chars_of(path.as_str());
    let http = chars_of("http://");
    let https = chars_of("https://");
    let endpoint = if starts_with(p.as_slice(), http.as_slice()) || starts_with(p.as_slice(), https.as_slice()) {
        path
    } else {
        endpoint_url(profile.base_url.as_str(), path.as_str())
    };
    with_access_token(endpoint.as_str(), access_token)
}

/// The chat-completion request that translates one text: the profile's
/// model, temperature 0, the system prompt and the user prompt.
pub open spec fn translation_payload_spec(v: JsonValue, model: Seq<char>, prompt: Seq<char>) -> bool {
    let messages = array_items(field_value(v, 2));
    &&& object_keys(v, seq!["model"@, "temperature"@, "messages"@])
    &&& is_str(field_value(v, 0), model)
    &&& field_value(v, 1) == JsonValue::Number(Some(0))
    &&& field_value(v, 2) is Array
    &&& messages.len() == 2
    &&& chat_message(messages[0], "system"@, SYSTEM_PROMPT@)
    &&& chat_message(messages[1], "user"@, prompt)
}

/// The request body that translates `text` with an OpenAI-compatible profile.
pub fn translation_payload(profile: &TranslationProfile, text: &str) -> (r: JsonValue)
    ensures
        translation_payload_spec(r, profile.model@, single_prompt_spec(profile.prompt_template@, text@)),
{
    let prompt = build_single_prompt(profile.prompt_template.as_str(), text);
    let system = object2("role", str_value("system"), "content", str_value(SYSTEM_PROMPT));
    let user = object2("role", str_value("user"), "content", JsonValue::Str(prompt));
    object3(
        "model",
        JsonValue::Str(profile.model.clone()),
        "temperature",
        JsonValue::Number(Some(0)),
        "messages",
        array2(system, user),
    )
}

/// The text fields of a Baidu image translation form: the source and target
/// languages, and whether the translated image should be pasted back.
pub open spec fn pictrans_fields_spec(source: Seq<char>, target: Seq<char>, paste: bool) -> Seq<(Seq<char>, Seq<char>)> {
    seq![
        ("from"@, baidu_language_spec(source)),
        ("to"@, baidu_language_spec(target)),
        ("paste"@, if paste { "1"@ } else { "0"@ }),
    ]
}

/// The text fields sent with the image to Baidu's image translation.
pub fn baidu_pictrans_fields(profile: &TranslationProfile) -> (r: Vec<(String, String)>)
    ensures
        r@.len() == 3,
        forall|i: int| 0 <= i < 3 ==> (#[trigger] r@[i]).0@ == pictrans_fields_spec(
            profile.source_lang@,
            profile.target_lang@,
            profile.use_translated_image,
        )[i].0 && r@[i].1@ == pictrans_fields_spec(
            profile.source_lang@,
            profile.target_lang@,
            profile.use_translated_image,
        )[i].1,
{
    let mut fields: Vec<(String, String)> = Vec::new();
    fields.push((String::from_str("from"), normalize_baidu_language(profile.source_lang.as_str())));
    fields.push((String::from_str("to"), normalize_baidu_language(profile.target_lang.as_str())));
    let paste = if profile.use_translated_image { "1" } else { "0" };
    fields.push((String::from_str("paste"), String::from_str(paste)));
    fields
}

} // verus!
