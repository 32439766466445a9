use crate::json::{as_str_spec, field_value, get_spec, is_str, lookup_spec, object_keys, parse_json, json_parse, JsonValue};
use crate::text::{chars_of, concat, decimal_spec, push_decimal, string_from_chars, trim_chars, trim_spec};
use vstd::prelude::*;

verus! {

/// The shortest time a request to a provider is given.
pub const MIN_TIMEOUT_MS: u64 = 1000;

/// `s` without any `/` at its end.
pub open spec fn trim_end_slashes(s: Seq<char>) -> Seq<char>
    decreases s.len(),
{
    if s.len() > 0 && s.last() == '/' {
        trim_end_slashes(s.drop_last())
    } else {
        s
    }
}

/// `s` without any `/` at its start.
pub open spec fn trim_start_slashes(s: Seq<char>) -> Seq<char>
    decreases s.len(),
{
    if s.len() > 0 && s[0] == '/' {
        trim_start_slashes(s.drop_first())
    } else {
        s
    }
}

/// A provider endpoint: the base URL and the path joined by exactly one `/`.
pub open spec fn endpoint_url_spec(base_url: Seq<char>, path: Seq<char>) -> Seq<char> {
    trim_end_slashes(base_url) + seq!['/'] + trim_start_slashes(path)
}

/// Joins a provider's base URL and an API path with one `/` between them.
pub fn endpoint_url(base_url: &str, path: &str) -> (r: String)
    ensures
        r@ == endpoint_url_spec(base_url@, path@),
{
    let b = chars_of(base_url);
    let p = chars_of(path);
    let mut end = b.len();
    assert(b@.take(end as int) =~= b@);
    while end > 0 && b[end - 1] == '/'
        invariant
            end <= b@.len(),
            trim_end_slashes(b@) == trim_end_slashes(b@.take(end as int)),
        decreases end,
    {
        assert(b@.take(end as int).drop_last() =~= b@.take(end - 1));
        end = end - 1;
    }
    let mut start: usize = 0;
    assert(p@.skip(0) =~= p@);
    while start < p.len() && p[start] == '/'
        invariant
            start <= p@.len(),
            trim_start_slashes(p@) == trim_start_slashes(p@.skip(start as int)),
        decreases p@.len() - start,
    {
        assert(p@.skip(start as int).drop_first() =~= p@.skip(start + 1));
        start = start + 1;
    }
    assert(b@.take(b@.len() as int) =~= b@);
    let mut out: Vec<char> = Vec::new();
    let mut i: usize = 0;
    while i < end
        invariant
            i <= end <= b@.len(),
            out@ == b@.take(i as int),
        decreases end - i,
    {
        out.push(b[i]);
        assert(b@.take(i + 1) =~= b@.take(i as int).push(b@[i as int]));
        i = i + 1;
    }
    out.push('/');
    let ghost head = out@;
    let mut j = start;
    while j < p.len()
        invariant
            start <= j <= p@.len(),
            out@ == head + p@.subrange(start as int, j as int),
        decreases p@.len() - j,
    {
        out.push(p[j]);
        assert(p@.subrange(start as int, j + 1) =~= p@.subrange(start as int, j as int).push(p@[j as int]));
        j = j + 1;
    }
    proof {
        let tb = b@.take(end as int);
        let tp = p@.skip(start as int);
        assert(!(tb.len() > 0 && tb.last() == '/'));
        assert(trim_end_slashes(tb) == tb);
        assert(!(tp.len() > 0 && tp[0] == '/'));
        assert(trim_start_slashes(tp) == tp);
        assert(p@.subrange(start as int, p@.len() as int) =~= tp);
        assert(out@ =~= endpoint_url_spec(base_url@, path@));
    }
    string_from_chars(out.as_slice())
}

/// The timeout a request is sent with: the configured one, at least a second.
pub fn effective_timeout(timeout_ms: u64) -> (r: u64)
    ensures
        r == (if timeout_ms < MIN_TIMEOUT_MS { MIN_TIMEOUT_MS } else { timeout_ms }),
{
    if timeout_ms < MIN_TIMEOUT_MS { MIN_TIMEOUT_MS } else { timeout_ms }
}

/// The decimal form of a signed number, with `-` before negative ones.
pub open spec fn signed_decimal_spec(v: int) -> Seq<char> {
    if v < 0 { seq!['-'] + decimal_spec((-v) as nat) } else { decimal_spec(v as nat) }
}

pub(crate) fn signed_decimal(v: i64) -> (r: Vec<char>)
    ensures
        r@ == signed_decimal_spec(v as int),
{
    let mut out: Vec<char> = Vec::new();
    if v < 0 {
        out.push('-');
        let magnitude: u64 = if v == i64::MIN { 0x8000_0000_0000_0000u64 } else { (0 - v) as u64 };
        push_u64_decimal(&mut out, magnitude);
    } else {
        push_u64_decimal(&mut out, v as u64);
    }
    out
}

/// Appends the decimal digits of `n`.
pub fn push_u64_decimal(out: &mut Vec<char>, n: u64)
    ensures
        final(out)@ == old(out)@ + decimal_spec(n as nat),
    decreases n,
{
    if n >= 10 {
        push_u64_decimal(out, n / 10);
    }
    let d: u8 = (n % 10) as u8;
    let c = (48u8 + d) as char;
    assert(c == crate::text::digit_char_spec((n % 10) as int));
    out.push(c);
    proof {
        if n < 10 {
            assert(old(out)@ + decimal_spec(n as nat) =~= old(out)@.push(c));
        }
    }
}

/// The code of a provider's error reply: its `error_code` when that is a
/// whole number, else its `error` when that is a string.
pub open spec fn error_code_spec(parsed: JsonValue) -> Option<Seq<char>> {
    match get_spec(parsed, "error_code"@) {
        Some(JsonValue::Number(Some(n))) => Some(signed_decimal_spec(n as int)),
        _ => as_str_spec(get_spec(parsed, "error"@)),
    }
}

/// A one-line summary of a provider's error reply, given what the JSON
/// parser made of the body: `code: message` when the reply names a code,
/// the message alone otherwise; the message is `error_msg`, else
/// `error_description`, else the trimmed body. A body that is not JSON is
/// summarised by itself, trimmed.
pub open spec fn error_summary_spec(body: Seq<char>, parsed: Option<JsonValue>) -> Seq<char> {
    match parsed {
        None => trim_spec(body),
        Some(v) => {
            let message = match as_str_spec(get_spec(v, "error_msg"@)) {
                Some(m) => m,
                None => match as_str_spec(get_spec(v, "error_description"@)) {
                    Some(m) => m,
                    None => trim_spec(body),
                },
            };
            match error_code_spec(v) {
                Some(code) => if code.len() > 0 { code + ": "@ + message } else { message },
                None => message,
            }
        },
    }
}

fn str_of<'a>(v: Option<&'a JsonValue>) -> (r: Option<&'a String>)
    ensures
        match (r, v) {
            (Some(s), Some(JsonValue::Str(t))) => s == t,
            (None, Some(JsonValue::Str(_))) => false,
            (Some(_), _) => false,
            _ => true,
        },
{
    match v {
        Some(JsonValue::Str(s)) => Some(s),
        _ => None,
    }
}

/// Summarises an error reply, given what the JSON parser made of it.
pub fn error_summary_from(body: &str, parsed: &Option<JsonValue>) -> (r: String)
    ensures
        r@ == error_summary_spec(body@, *parsed),
{
    let body_chars = chars_of(body);
    match parsed {
        None => string_from_chars(trim_chars(body_chars.as_slice()).as_slice()),
        Some(v) => {
            let message: Vec<char> = match str_of(crate::json::get(v, "error_msg")) {
                Some(m) => chars_of(m.as_str()),
                None => match str_of(crate::json::get(v, "error_description")) {
                    Some(m) => chars_of(m.as_str()),
                    None => trim_chars(body_chars.as_slice()),
                },
            };
            let code: Option<Vec<char>> = match crate::json::get(v, "error_code") {
                Some(JsonValue::Number(Some(n))) => Some(signed_decimal(*n)),
                _ => match str_of(crate::json::get(v, "error")) {
                    Some(e) => Some(chars_of(e.as_str())),
                    None => None,
                },
            };
            proof {
                reveal_strlit("error_msg");
                reveal_strlit("error_description");
                reveal_strlit("error_code");
                reveal_strlit("error");
            }
            match code {
                Some(c) => {
                    if c.len() > 0 {
                        let mut out = c;
                        out.push(':');
                        out.push(' ');
                        let ghost head = out@;
                        let mut i: usize = 0;
                        while i < message.len()
                            invariant
                                i <= message@.len(),
                                out@ == head + message@.take(i as int),
                            decreases message@.len() - i,
                        {
                            out.push(message[i]);
                            assert(message@.take(i + 1) =~= message@.take(i as int).push(message@[i as int]));
                            i = i + 1;
                        }
                        proof {
                            reveal_strlit(": ");
                            assert(message@.take(message@.len() as int) =~= message@);
                        }
                        assert(out@ =~= error_summary_spec(body@, *parsed));
                        string_from_chars(out.as_slice())
                    } else {
                        string_from_chars(message.as_slice())
                    }
                },
                None => string_from_chars(message.as_slice()),
            }
        },
    }
}

/// Summarises a provider's error reply, parsing it with serde_json.
pub fn baidu_error_summary(body: &str) -> (r: String)
    ensures
        r@ == error_summary_spec(body@, json_parse(body@)),
{
    let parsed = parse_json(body);
    error_summary_from(body, &parsed)
}

/// `v` is a chat message `{"role": role, "content": content}` with text content.
pub open spec fn chat_message(v: JsonValue, role: Seq<char>, content: Seq<char>) -> bool {
    &&& object_keys(v, seq!["role"@, "content"@])
    &&& is_str(field_value(v, 0), role)
    &&& is_str(field_value(v, 1), content)
}

/// The query that asks Baidu for an access token: client credentials, with
/// the key and secret trimmed.
pub open spec fn token_query_spec(api_key: Seq<char>, secret_key: Seq<char>) -> Seq<(Seq<char>, Seq<char>)> {
    seq![
        ("grant_type"@, "client_credentials"@),
        ("client_id"@, trim_spec(api_key)),
        ("client_secret"@, trim_spec(secret_key)),
    ]
}

/// The query sent to Baidu's token endpoint.
pub fn baidu_token_query(api_key: &str, secret_key: &str) -> (r: Vec<(String, String)>)
    ensures
        r@.len() == 3,
        forall|i: int| 0 <= i < 3 ==> (#[trigger] r@[i]).0@ == token_query_spec(api_key@, secret_key@)[i].0
            && r@[i].1@ == token_query_spec(api_key@, secret_key@)[i].1,
{
    let mut fields: Vec<(String, String)> = Vec::new();
    fields.push((String::from_str("grant_type"), String::from_str("client_credentials")));
    let key = chars_of(api_key);
    fields.push((String::from_str("client_id"), string_from_chars(trim_chars(key.as_slice()).as_slice())));
    let secret = chars_of(secret_key);
    fields.push((String::from_str("client_secret"), string_from_chars(trim_chars(secret.as_slice()).as_slice())));
    fields
}

/// Why Baidu gave no access token.
#[derive(Debug, Clone, Copy, PartialEq, Eq, Structural)]
pub enum TokenError {
    /// The reply's status is not a success (2xx).
    HttpStatus,
    /// The reply is not a token reply: not JSON, or its `access_token` is not a string.
    InvalidReply,
    /// The reply's token is blank.
    EmptyToken,
}

/// The token field of a parsed token reply, read as a record with one
/// optional string field (`access_token`, empty when missing); `None` when
/// the reply cannot be read so.
pub open spec fn token_field_spec(parsed: Option<JsonValue>) -> Option<Seq<char>> {
    match parsed {
        Some(JsonValue::Object(fields)) => match lookup_spec(fields@, "access_token"@) {
            None => Some(Seq::empty()),
            Some(JsonValue::Str(t)) => Some(t@),
            Some(_) => None,
        },
        Some(JsonValue::Array(items)) => if items@.len() == 0 {
            Some(Seq::empty())
        } else if items@.len() == 1 && items@[0] is Str {
            Some(items@[0]->Str_0@)
        } else {
            None
        },
        _ => None,
    }
}

/// The verdict on a token reply with this status and parsed body.
pub open spec fn token_verdict_spec(status: u16, parsed: Option<JsonValue>) -> Result<Seq<char>, TokenError> {
    if !(200 <= status < 300) {
        Err(TokenError::HttpStatus)
    } else {
        match token_field_spec(parsed) {
            None => Err(TokenError::InvalidReply),
            Some(t) => if trim_spec(t).len() == 0 { Err(TokenError::EmptyToken) } else { Ok(t) },
        }
    }
}

/// Judges a Baidu token reply, given what the JSON parser made of its body:
/// a success status and a non-blank `access_token` give the token.
pub fn token_verdict_from(status: u16, parsed: &Option<JsonValue>) -> (r: Result<String, TokenError>)
    ensures
        match (r, token_verdict_spec(status, *parsed)) {
            (Ok(a), Ok(b)) => a@ == b,
            (Err(a), Err(b)) => a == b,
            _ => false,
        },
{
    if status < 200 || status >= 300 {
        return Err(TokenError::HttpStatus);
    }
    let token: String = match parsed {
        Some(JsonValue::Object(fields)) => match crate::json::lookup(fields, "access_token") {
            None => String::new(),
            Some(JsonValue::Str(t)) => t.clone(),
            Some(_) => return Err(TokenError::InvalidReply),
        },
        Some(JsonValue::Array(items)) => {
            if items.len() == 0 {
                String::new()
            } else if items.len() == 1 {
                match &items[0] {
                    JsonValue::Str(t) => t.clone(),
                    _ => return Err(TokenError::InvalidReply),
                }
            } else {
                return Err(TokenError::InvalidReply);
            }
        },
        _ => return Err(TokenError::InvalidReply),
    };
    let chars = chars_of(token.as_str());
    if trim_chars(chars.as_slice()).len() == 0 {
        Err(TokenError::EmptyToken)
    } else {
        Ok(token)
    }
}

/// Judges the reply of Baidu's token endpoint: its status and body.
pub fn baidu_token_verdict(status: u16, body: &str) -> (r: Result<String, TokenError>)
    ensures
        match (r, token_verdict_spec(status, json_parse(body@))) {
            (Ok(a), Ok(b)) => a@ == b,
            (Err(a), Err(b)) => a == b,
            _ => false,
        },
{
    let parsed = parse_json(body);
    token_verdict_from(status, &parsed)
}

} // verus!
