use crate::encoding::{base64_standard_decoding, base64_unpadded_decoding};
use crate::json::{as_str_spec, get, get_spec, json_parse, parse_json, JsonValue};
use crate::text::{push_char, trim_spec, trimmed};
use crate::translation::pasted::{decode_base64_image, pasted_base64_text};
use vstd::prelude::*;

verus! {

/// Why a Baidu image translation reply could not be read.
#[derive(Debug, Clone, Copy, PartialEq, Eq, Structural)]
pub enum BaiduReplyError {
    /// The body is not JSON.
    InvalidJson,
}

impl BaiduReplyError {
    pub fn message(&self) -> (r: String)
        ensures
            r@ == "invalid baidu image translation response"@,
    {
        String::from_str("invalid baidu image translation response")
    }
}

/// The part of a reply that holds the result: its `data` when it has one,
/// else the whole reply.
pub open spec fn reply_data(value: JsonValue) -> JsonValue {
    match get_spec(value, "data"@) {
        Some(d) => d,
        None => value,
    }
}

/// The trimmed text of a string field, empty when it is missing or not a string.
pub open spec fn trimmed_field(value: JsonValue, key: Seq<char>) -> Seq<char> {
    match as_str_spec(get_spec(value, key)) {
        Some(s) => trim_spec(s),
        None => Seq::empty(),
    }
}

/// The items of the result's `content` array, empty when there is none.
pub open spec fn content_items(data: JsonValue) -> Seq<JsonValue> {
    match get_spec(data, "content"@) {
        Some(JsonValue::Array(items)) => items@,
        _ => Seq::empty(),
    }
}

/// An item has text when its source or its translation is not empty.
pub open spec fn item_has_text(item: JsonValue) -> bool {
    trimmed_field(item, "src"@).len() > 0 || trimmed_field(item, "dst"@).len() > 0
}

/// The items with text, in order.
pub open spec fn text_items(items: Seq<JsonValue>) -> Seq<JsonValue>
    decreases items.len(),
{
    if items.len() == 0 {
        Seq::empty()
    } else {
        let rest = text_items(items.drop_last());
        if item_has_text(items.last()) { rest.push(items.last()) } else { rest }
    }
}

/// A content item with text, by reference into the parsed reply: its
/// trimmed source and translation, and its box data as the reply gives it.
#[derive(Debug)]
pub struct BaiduImageItem<'a> {
    pub source_text: String,
    pub translated_text: String,
    pub rect: Option<&'a JsonValue>,
    pub points: Option<&'a JsonValue>,
}

/// What a Baidu image translation reply says: the two summary texts, the
/// items with text, and the pasted image's payload (empty when absent).
#[derive(Debug)]
pub struct BaiduImageReply<'a> {
    pub source_summary: String,
    pub translated_summary: String,
    pub items: Vec<BaiduImageItem<'a>>,
    pub pasted_payload: String,
}

/// `r` is the same JSON value as `s`, both missing or both present.
pub open spec fn same_ref(r: Option<&JsonValue>, s: Option<JsonValue>) -> bool {
    match (r, s) {
        (Some(a), Some(b)) => *a == b,
        (None, None) => true,
        _ => false,
    }
}

/// `item` is read from the content item `json`.
pub open spec fn item_read(item: BaiduImageItem, json: JsonValue) -> bool {
    &&& item.source_text@ == trimmed_field(json, "src"@)
    &&& item.translated_text@ == trimmed_field(json, "dst"@)
    &&& same_ref(item.rect, get_spec(json, "rect"@))
    &&& same_ref(item.points, get_spec(json, "points"@))
}

/// The pasted image's payload: `pasteImg` of the result, else of the whole
/// reply, else empty.
pub open spec fn pasted_payload_spec(value: JsonValue) -> Seq<char> {
    match as_str_spec(get_spec(reply_data(value), "pasteImg"@)) {
        Some(s) => s,
        None => match as_str_spec(get_spec(value, "pasteImg"@)) {
            Some(s) => s,
            None => Seq::empty(),
        },
    }
}

/// `reply` is read from the parsed reply `value`.
pub open spec fn reply_read(reply: BaiduImageReply, value: JsonValue) -> bool {
    let data = reply_data(value);
    let items = text_items(content_items(data));
    &&& reply.source_summary@ == trimmed_field(data, "sumSrc"@)
    &&& reply.translated_summary@ == trimmed_field(data, "sumDst"@)
    &&& reply.pasted_payload@ == pasted_payload_spec(value)
    &&& reply.items@.len() == items.len()
    &&& forall|k: int| 0 <= k < items.len() ==> item_read(#[trigger] reply.items@[k], items[k])
}

/// Calls the JSON parser on a reply body.
pub fn parse_reply_json(body: &str) -> (r: Option<JsonValue>)
    ensures
        r == json_parse(body@),
{
    parse_json(body)
}

fn trimmed_string_field(value: &JsonValue, key: &str) -> (r: String)
    ensures
        r@ == trimmed_field(*value, key@),
{
    match get(value, key) {
        Some(JsonValue::Str(s)) => trimmed(s.as_str()),
        _ => String::new(),
    }
}

fn string_field_or_none<'a>(value: &'a JsonValue, key: &str) -> (r: Option<&'a String>)
    ensures
        match (r, as_str_spec(get_spec(*value, key@))) {
            (Some(a), Some(b)) => a@ == b,
            (None, None) => true,
            _ => false,
        },
{
    match get(value, key) {
        Some(JsonValue::Str(s)) => Some(s),
        _ => None,
    }
}

/// Reads a parsed Baidu image translation reply; an error when the body was
/// not JSON.
pub fn baidu_image_translation_from<'a>(parsed: &'a Option<JsonValue>) -> (r: Result<BaiduImageReply<'a>, BaiduReplyError>)
    ensures
        match parsed {
            None => r is Err && r->Err_0 == BaiduReplyError::InvalidJson,
            Some(v) => r matches Ok(reply) && reply_read(reply, *v),
        },
{
    let value = match parsed {
        Some(v) => v,
        None => return Err(BaiduReplyError::InvalidJson),
    };
    let data = match get(value, "data") {
        Some(d) => d,
        None => value,
    };
    let source_summary = trimmed_string_field(data, "sumSrc");
    let translated_summary = trimmed_string_field(data, "sumDst");
    let mut items: Vec<BaiduImageItem<'a>> = Vec::new();
    let ghost all = content_items(*data);
    match get(data, "content") {
        Some(JsonValue::Array(content)) => {
            let mut i: usize = 0;
            while i < content.len()
                invariant
                    i <= content@.len(),
                    all == content@,
                    items@.len() == text_items(all.take(i as int)).len(),
                    forall|k: int| 0 <= k < items@.len() ==> item_read(#[trigger] items@[k], text_items(all.take(i as int))[k]),
                decreases content@.len() - i,
            {
                assert(all.take(i + 1).drop_last() =~= all.take(i as int));
                assert(all.take(i + 1).last() == all[i as int]);
                let item = &content[i];
                let source_text = trimmed_string_field(item, "src");
                let translated_text = trimmed_string_field(item, "dst");
                if source_text.as_str().unicode_len() > 0 || translated_text.as_str().unicode_len() > 0 {
                    let rect = get(item, "rect");
                    let points = get(item, "points");
                    items.push(BaiduImageItem { source_text, translated_text, rect, points });
                }
                i = i + 1;
            }
            assert(all.take(content@.len() as int) =~= all);
        },
        _ => {},
    }
    let pasted_payload = match string_field_or_none(data, "pasteImg") {
        Some(s) => s.clone(),
        None => match string_field_or_none(value, "pasteImg") {
            Some(s) => s.clone(),
            None => String::new(),
        },
    };
    Ok(BaiduImageReply { source_summary, translated_summary, items, pasted_payload })
}

/// The non-empty trimmed texts, one per line, appended to `acc`.
pub open spec fn joined_lines(texts: Seq<Seq<char>>, acc: Seq<char>) -> Seq<char>
    decreases texts.len(),
{
    if texts.len() == 0 {
        acc
    } else {
        let t = trim_spec(texts[0]);
        let next = if t.len() == 0 { acc } else if acc.len() > 0 { acc + seq!['\n'] + t } else { t };
        joined_lines(texts.drop_first(), next)
    }
}

/// What an image translation gives: the two full texts, the indexes of the
/// items kept as blocks, and the translated image when one was asked for
/// and decodes.
#[derive(Debug)]
pub struct ImageTranslationText {
    pub source_full_text: String,
    pub translated_full_text: String,
    pub kept: Vec<usize>,
    pub pasted_image: Option<Vec<u8>>,
}

/// The indexes `k < n` with `has_box[k]`, in order.
pub open spec fn kept_indexes(has_box: Seq<bool>, n: int) -> Seq<usize>
    decreases n,
{
    if n <= 0 {
        Seq::empty()
    } else {
        let rest = kept_indexes(has_box, n - 1);
        if has_box[n - 1] { rest.push((n - 1) as usize) } else { rest }
    }
}

/// A full text: the reply's summary when it is not empty, else the kept
/// items' texts one per line.
pub open spec fn full_text_spec(summary: Seq<char>, texts: Seq<Seq<char>>) -> Seq<char> {
    if summary.len() > 0 { summary } else { joined_lines(texts, Seq::empty()) }
}

/// The pasted image: decoded as `decode_base64_image` does, only when asked for.
pub open spec fn pasted_image_spec(payload: Seq<char>, prefer: bool) -> Option<Seq<u8>> {
    if !prefer || trim_spec(payload).len() == 0 {
        None
    } else {
        match base64_standard_decoding(pasted_base64_text(payload)) {
            Some(b) => Some(b),
            None => base64_unpadded_decoding(pasted_base64_text(payload)),
        }
    }
}

fn append_line(acc: &mut String, text: &String)
    ensures
        final(acc)@ == (if trim_spec(text@).len() == 0 {
            old(acc)@
        } else if old(acc)@.len() > 0 {
            old(acc)@ + seq!['\n'] + trim_spec(text@)
        } else {
            trim_spec(text@)
        }),
{
    let t = trimmed(text.as_str());
    if t.as_str().unicode_len() == 0 {
        return;
    }
    if acc.as_str().unicode_len() > 0 {
        push_char(acc, '\n');
        let ghost mid = acc@;
        acc.append(t.as_str());
        assert(acc@ =~= old(acc)@ + seq!['\n'] + t@);
    } else {
        acc.append(t.as_str());
        assert(acc@ =~= t@);
    }
}

/// Completes an image translation once the caller has judged which items
/// have a usable box (`has_box`, one flag per item): the kept items, the
/// full texts (the summaries, or the kept items' texts one per line), and
/// the translated image when `prefer_pasted_image` asks for it.
pub fn finish_image_translation(reply: &BaiduImageReply, has_box: &Vec<bool>, prefer_pasted_image: bool) -> (r: ImageTranslationText)
    requires
        has_box@.len() == reply.items@.len(),
    ensures
        r.kept@ == kept_indexes(has_box@, has_box@.len() as int),
        r.source_full_text@ == full_text_spec(
            reply.source_summary@,
            kept_indexes(has_box@, has_box@.len() as int).map_values(|k: usize| reply.items@[k as int].source_text@),
        ),
        r.translated_full_text@ == full_text_spec(
            reply.translated_summary@,
            kept_indexes(has_box@, has_box@.len() as int).map_values(|k: usize| reply.items@[k as int].translated_text@),
        ),
        match (r.pasted_image, pasted_image_spec(reply.pasted_payload@, prefer_pasted_image)) {
            (Some(a), Some(b)) => a@ == b,
            (None, None) => true,
            _ => false,
        },
{
    let n = has_box.len();
    let mut kept: Vec<usize> = Vec::new();
    let mut i: usize = 0;
    while i < n
        invariant
            n == has_box@.len(),
            i <= n,
            kept@ == kept_indexes(has_box@, i as int),
            forall|k: int| 0 <= k < kept@.len() ==> kept@[k] < i,
        decreases n - i,
    {
        if has_box[i] {
            kept.push(i);
        }
        i = i + 1;
    }
    let ghost kept_all = kept@;
    let mut source_joined = String::new();
    let mut translated_joined = String::new();
    let mut j: usize = 0;
    let ghost src_texts = kept_all.map_values(|k: usize| reply.items@[k as int].source_text@);
    let ghost dst_texts = kept_all.map_values(|k: usize| reply.items@[k as int].translated_text@);
    proof {
        assert(src_texts.skip(0) =~= src_texts);
        assert(dst_texts.skip(0) =~= dst_texts);
    }
    while j < kept.len()
        invariant
            kept@ == kept_all,
            n == has_box@.len() == reply.items@.len(),
            forall|k: int| 0 <= k < kept_all.len() ==> kept_all[k] < n,
            j <= kept_all.len(),
            src_texts == kept_all.map_values(|k: usize| reply.items@[k as int].source_text@),
            dst_texts == kept_all.map_values(|k: usize| reply.items@[k as int].translated_text@),
            joined_lines(src_texts, Seq::empty()) == joined_lines(src_texts.skip(j as int), source_joined@),
            joined_lines(dst_texts, Seq::empty()) == joined_lines(dst_texts.skip(j as int), translated_joined@),
        decreases kept_all.len() - j,
    {
        let k = kept[j];
        assert(src_texts.skip(j as int).drop_first() =~= src_texts.skip(j + 1));
        assert(dst_texts.skip(j as int).drop_first() =~= dst_texts.skip(j + 1));
        append_line(&mut source_joined, &reply.items[k].source_text);
        append_line(&mut translated_joined, &reply.items[k].translated_text);
        j = j + 1;
    }
    proof {
        assert(src_texts.skip(kept_all.len() as int) =~= Seq::<Seq<char>>::empty());
        assert(dst_texts.skip(kept_all.len() as int) =~= Seq::<Seq<char>>::empty());
    }
    let source_full_text = if reply.source_summary.as_str().unicode_len() > 0 {
        reply.source_summary.clone()
    } else {
        source_joined
    };
    let translated_full_text = if reply.translated_summary.as_str().unicode_len() > 0 {
        reply.translated_summary.clone()
    } else {
        translated_joined
    };
    let pasted_image = if prefer_pasted_image {
        match decode_base64_image(reply.pasted_payload.as_str()) {
            Ok(bytes) => Some(bytes),
            Err(_) => None,
        }
    } else {
        None
    };
    ImageTranslationText { source_full_text, translated_full_text, kept, pasted_image }
}

} // verus!
