use crate::json::{as_str_spec, get, get_spec, json_parse, parse_json, JsonValue};
use crate::text::{is_blank, is_blank_spec, push_char};
use vstd::prelude::*;

verus! {

/// The `content` of the first choice's message in a chat-completion reply.
pub open spec fn first_choice_content(value: JsonValue) -> Option<JsonValue> {
    match get_spec(value, "choices"@) {
        Some(JsonValue::Array(choices)) => if choices@.len() > 0 {
            match get_spec(choices@[0], "message"@) {
                Some(message) => get_spec(message, "content"@),
                None => None,
            }
        } else {
            None
        },
        _ => None,
    }
}

/// The `text` of each part that has one, appended to `acc` one per line.
pub open spec fn joined_part_texts(parts: Seq<JsonValue>, acc: Seq<char>) -> Seq<char>
    decreases parts.len(),
{
    if parts.len() == 0 {
        acc
    } else {
        let next = match as_str_spec(get_spec(parts[0], "text"@)) {
            Some(t) => if acc.len() > 0 { acc + seq!['\n'] + t } else { acc + t },
            None => acc,
        };
        joined_part_texts(parts.drop_first(), next)
    }
}

/// The text of a chat-completion reply: a string content as it is, or the
/// texts of a content made of parts, one per line; `None` when there is
/// neither.
pub open spec fn reply_text_spec(value: JsonValue) -> Option<Seq<char>> {
    match first_choice_content(value) {
        Some(JsonValue::Str(s)) => Some(s@),
        Some(JsonValue::Array(parts)) => {
            let joined = joined_part_texts(parts@, Seq::empty());
            if joined.len() > 0 { Some(joined) } else { None }
        },
        _ => None,
    }
}

fn first_choice_content_of(value: &JsonValue) -> (r: Option<&JsonValue>)
    ensures
        match (r, first_choice_content(*value)) {
            (Some(a), Some(b)) => *a == b,
            (None, None) => true,
            _ => false,
        },
{
    let choices = match get(value, "choices") {
        Some(JsonValue::Array(items)) => items,
        _ => return None,
    };
    if choices.len() == 0 {
        return None;
    }
    match get(&choices[0], "message") {
        Some(message) => get(message, "content"),
        None => None,
    }
}

/// The text of a chat-completion reply, as `reply_text_spec` describes it.
pub fn extract_content_string(value: &JsonValue) -> (r: Option<String>)
    ensures
        match (r, reply_text_spec(*value)) {
            (Some(a), Some(b)) => a@ == b,
            (None, None) => true,
            _ => false,
        },
{
    match first_choice_content_of(value) {
        Some(JsonValue::Str(s)) => Some(s.clone()),
        Some(JsonValue::Array(parts)) => {
            let mut combined = String::new();
            let mut i: usize = 0;
            proof {
                assert(parts@.skip(0) =~= parts@);
            }
            while i < parts.len()
                invariant
                    i <= parts@.len(),
                    joined_part_texts(parts@, Seq::empty()) == joined_part_texts(parts@.skip(i as int), combined@),
                decreases parts@.len() - i,
            {
                let ghost rest = parts@.skip(i as int);
                assert(rest[0] == parts@[i as int]);
                assert(rest.drop_first() =~= parts@.skip(i + 1));
                let ghost start = combined@;
                match get(&parts[i], "text") {
                    Some(JsonValue::Str(t)) => {
                        if combined.as_str().unicode_len() > 0 {
                            push_char(&mut combined, '\n');
                        }
                        combined.append(t.as_str());
                        proof {
                            if start.len() > 0 {
                                assert(combined@ =~= start + seq!['\n'] + t@);
                            } else {
                                assert(combined@ =~= start + t@);
                            }
                        }
                    },
                    _ => {},
                }
                i = i + 1;
            }
            proof {
                assert(parts@.skip(parts@.len() as int) =~= Seq::<JsonValue>::empty());
            }
            if combined.as_str().unicode_len() > 0 {
                Some(combined)
            } else {
                None
            }
        },
        _ => None,
    }
}

/// Why a chat-completion reply gave no translation.
#[derive(Debug, Clone, Copy, PartialEq, Eq, Structural)]
pub enum ChatReplyError {
    /// The body is not JSON.
    InvalidJson,
    /// The reply's text is missing or blank.
    EmptyContent,
}

impl ChatReplyError {
    pub fn message(&self) -> (r: String)
        ensures
            r@ == match *self {
                ChatReplyError::InvalidJson => "invalid json response"@,
                ChatReplyError::EmptyContent => "empty translation response content"@,
            },
    {
        match self {
            ChatReplyError::InvalidJson => String::from_str("invalid json response"),
            ChatReplyError::EmptyContent => String::from_str("empty translation response content"),
        }
    }
}

/// The translation in a successful reply, given what the JSON parser made
/// of its body: its text, unless that is missing or blank.
pub open spec fn reply_content_spec(parsed: Option<JsonValue>) -> Result<Seq<char>, ChatReplyError> {
    match parsed {
        None => Err(ChatReplyError::InvalidJson),
        Some(v) => {
            let text = match reply_text_spec(v) {
                Some(t) => t,
                None => Seq::empty(),
            };
            if is_blank_spec(text) { Err(ChatReplyError::EmptyContent) } else { Ok(text) }
        },
    }
}

pub fn reply_content_from(parsed: &Option<JsonValue>) -> (r: Result<String, ChatReplyError>)
    ensures
        match (r, reply_content_spec(*parsed)) {
            (Ok(a), Ok(b)) => a@ == b,
            (Err(a), Err(b)) => a == b,
            _ => false,
        },
{
    match parsed {
        None => Err(ChatReplyError::InvalidJson),
        Some(v) => {
            let text = match extract_content_string(v) {
                Some(t) => t,
                None => String::new(),
            };
            if is_blank(text.as_str()) {
                Err(ChatReplyError::EmptyContent)
            } else {
                Ok(text)
            }
        },
    }
}

/// The translation in the body of a successful chat-completion reply.
pub fn chat_reply_content(body: &str) -> (r: Result<String, ChatReplyError>)
    ensures
        match (r, reply_content_spec(json_parse(body@))) {
            (Ok(a), Ok(b)) => a@ == b,
            (Err(a), Err(b)) => a == b,
            _ => false,
        },
{
    let parsed = parse_json(body);
    reply_content_from(&parsed)
}

} // verus!
