use crate::json::{as_str_spec, json_parse, lookup_spec, parse_json, JsonValue};
use crate::text::{
    chars_of, contains, contains_spec, find_char, find_spec, has_suffix_spec, is_space, is_space_spec, rfind_char,
    rfind_spec, slice_chars, starts_with, starts_with_spec, ends_with, string_from_chars, trim_chars,
    trim_spec,
};
use vstd::prelude::*;

verus! {

// ---------------------------------------------------------------------------
// Line prefixes and code fences
// ---------------------------------------------------------------------------

/// A character that list numbering is made of: ASCII digits, `.`, `:`, `)`,
/// `-`, and white space.
pub open spec fn is_numbering_char(c: char) -> bool {
    ('0' <= c && c <= '9') || c == '.' || c == ':' || c == ')' || c == '-' || is_space_spec(c)
}

/// `s` with its leading numbering characters dropped.
pub open spec fn skip_numbering(s: Seq<char>) -> Seq<char>
    decreases s.len(),
{
    if s.len() > 0 && is_numbering_char(s[0]) {
        skip_numbering(s.drop_first())
    } else {
        s
    }
}

/// A line without list numbering in front ("1. ", "2) ", "- ") and trimmed.
pub open spec fn strip_line_prefix_spec(line: Seq<char>) -> Seq<char> {
    trim_spec(skip_numbering(trim_spec(line)))
}

proof fn lemma_skip_numbering(s: Seq<char>, k: int)
    requires
        0 <= k <= s.len(),
        forall|j: int| 0 <= j < k ==> is_numbering_char(#[trigger] s[j]),
        k < s.len() ==> !is_numbering_char(s[k]),
    ensures
        skip_numbering(s) == s.skip(k),
    decreases k,
{
    if k == 0 {
        assert(s.skip(0) =~= s);
    } else {
        let t = s.drop_first();
        assert forall|j: int| 0 <= j < k - 1 implies is_numbering_char(#[trigger] t[j]) by {
            assert(t[j] == s[j + 1]);
        }
        lemma_skip_numbering(t, k - 1);
        assert(t.skip(k - 1) =~= s.skip(k));
    }
}

fn is_numbering(c: char) -> (r: bool)
    ensures
        r == is_numbering_char(c),
{
    ('0' <= c && c <= '9') || c == '.' || c == ':' || c == ')' || c == '-' || is_space(c)
}

/// Drops list numbering from the front of a line and trims it.
pub fn strip_line_prefix(line: &[char]) -> (r: Vec<char>)
    ensures
        r@ == strip_line_prefix_spec(line@),
{
    let t = trim_chars(line);
    let mut k: usize = 0;
    while k < t.len() && is_numbering(t[k])
        invariant
            k <= t@.len(),
            forall|j: int| 0 <= j < k ==> is_numbering_char(#[trigger] t@[j]),
        decreases t@.len() - k,
    {
        k = k + 1;
    }
    proof {
        lemma_skip_numbering(t@, k as int);
    }
    let rest = slice_chars(t.as_slice(), k, t.len());
    assert(rest@ =~= t@.skip(k as int));
    trim_chars(rest.as_slice())
}

/// The body of a Markdown code block: when the trimmed text opens with three
/// backticks, those, a `json` tag after them and three closing backticks are
/// taken off, trimming after each step; any other text is only trimmed.
pub open spec fn strip_code_fence_spec(content: Seq<char>) -> Seq<char> {
    let t = trim_spec(content);
    if starts_with_spec(t, "```"@) {
        let s1 = trim_spec(t.skip(3));
        let s2 = trim_spec(if starts_with_spec(s1, "json"@) { s1.skip(4) } else { s1 });
        trim_spec(if has_suffix_spec(s2, "```"@) { s2.take(s2.len() - 3) } else { s2 })
    } else {
        t
    }
}

/// Takes a Markdown code fence off a reply.
pub fn strip_code_fence(content: &[char]) -> (r: Vec<char>)
    ensures
        r@ == strip_code_fence_spec(content@),
{
    let t = trim_chars(content);
    let fence = chars_of("```");
    let json_tag = chars_of("json");
    proof {
        reveal_strlit("```");
        reveal_strlit("json");
    }
    if starts_with(t.as_slice(), fence.as_slice()) {
        let after = slice_chars(t.as_slice(), 3, t.len());
        assert(after@ =~= t@.skip(3));
        let s1 = trim_chars(after.as_slice());
        let s2 = if starts_with(s1.as_slice(), json_tag.as_slice()) {
            let tail = slice_chars(s1.as_slice(), 4, s1.len());
            assert(tail@ =~= s1@.skip(4));
            trim_chars(tail.as_slice())
        } else {
            trim_chars(s1.as_slice())
        };
        if ends_with(s2.as_slice(), fence.as_slice()) {
            let head = slice_chars(s2.as_slice(), 0, s2.len() - 3);
            assert(head@ =~= s2@.take(s2@.len() - 3));
            trim_chars(head.as_slice())
        } else {
            trim_chars(s2.as_slice())
        }
    } else {
        t
    }
}

// ---------------------------------------------------------------------------
// Locating a JSON payload and a quoted field value
// ---------------------------------------------------------------------------

/// The span from the first `open` to the last `close` of `t`, when the
/// last `close` comes after the first `open`.
pub open spec fn span_spec(t: Seq<char>, open: char, close: char) -> Option<(int, int)> {
    let start = find_spec(t, open);
    let end = rfind_spec(t, close);
    if start < t.len() && end >= 0 && end > start {
        Some((start, end))
    } else {
        None
    }
}

/// The JSON in a reply: the whole trimmed reply (code fence taken off) when
/// it is wrapped in braces or brackets, else the span from the first `{` to
/// the last `}` or from the first `[` to the last `]`, whichever starts
/// first (the braces when both start at the same place).
pub open spec fn extract_json_payload_spec(content: Seq<char>) -> Option<Seq<char>> {
    let t = trim_spec(strip_code_fence_spec(content));
    if t.len() > 0 && ((t[0] == '{' && t.last() == '}') || (t[0] == '[' && t.last() == ']')) {
        Some(t)
    } else {
        match (span_spec(t, '{', '}'), span_spec(t, '[', ']')) {
            (Some((os, oe)), Some((a_s, a_e))) => {
                if os <= a_s {
                    Some(t.subrange(os, oe + 1))
                } else {
                    Some(t.subrange(a_s, a_e + 1))
                }
            },
            (Some((s, e)), None) => Some(t.subrange(s, e + 1)),
            (None, Some((s, e))) => Some(t.subrange(s, e + 1)),
            (None, None) => None,
        }
    }
}

fn span(t: &[char], open: char, close: char) -> (r: Option<(usize, usize)>)
    ensures
        r matches Some((a, b)) ==> a < b < t@.len(),
        match (r, span_spec(t@, open, close)) {
            (Some((a, b)), Some((x, y))) => a == x && b == y,
            (None, None) => true,
            _ => false,
        },
{
    let start = find_char(t, open);
    if start >= t.len() {
        return None;
    }
    match rfind_char(t, close) {
        Some(end) => {
            if end > start {
                Some((start, end))
            } else {
                None
            }
        },
        None => None,
    }
}

/// Finds the JSON text in a reply.
pub fn extract_json_payload(content: &[char]) -> (r: Option<Vec<char>>)
    ensures
        match (r, extract_json_payload_spec(content@)) {
            (Some(a), Some(b)) => a@ == b,
            (None, None) => true,
            _ => false,
        },
{
    let fenced = strip_code_fence(content);
    let t = trim_chars(fenced.as_slice());
    let n = t.len();
    if n > 0 && ((t[0] == '{' && t[n - 1] == '}') || (t[0] == '[' && t[n - 1] == ']')) {
        return Some(t);
    }
    let object_span = span(t.as_slice(), '{', '}');
    let array_span = span(t.as_slice(), '[', ']');
    match (object_span, array_span) {
        (Some((os, oe)), Some((a_s, a_e))) => {
            if os <= a_s {
                Some(slice_chars(t.as_slice(), os, oe + 1))
            } else {
                Some(slice_chars(t.as_slice(), a_s, a_e + 1))
            }
        },
        (Some((s, e)), None) => Some(slice_chars(t.as_slice(), s, e + 1)),
        (None, Some((s, e))) => Some(slice_chars(t.as_slice(), s, e + 1)),
        (None, None) => None,
    }
}

/// The text between the first and the last double quote after the first
/// colon of a line, when there are two such quotes.
pub open spec fn extract_quoted_field_value_spec(line: Seq<char>) -> Option<Seq<char>> {
    let colon = find_spec(line, ':');
    if colon >= line.len() {
        None
    } else {
        let tail = line.skip(colon + 1);
        let first = find_spec(tail, '"');
        let last = rfind_spec(tail, '"');
        if first >= tail.len() || last <= first {
            None
        } else {
            Some(tail.subrange(first + 1, last))
        }
    }
}

/// Reads the quoted value of a `"key": "value"` line.
pub fn extract_quoted_field_value(line: &[char]) -> (r: Option<Vec<char>>)
    ensures
        match (r, extract_quoted_field_value_spec(line@)) {
            (Some(a), Some(b)) => a@ == b,
            (None, None) => true,
            _ => false,
        },
{
    let colon = find_char(line, ':');
    if colon >= line.len() {
        return None;
    }
    let tail = slice_chars(line, colon + 1, line.len());
    assert(tail@ =~= line@.skip(colon + 1));
    let first = find_char(tail.as_slice(), '"');
    if first >= tail.len() {
        return None;
    }
    match rfind_char(tail.as_slice(), '"') {
        Some(last) => {
            if last <= first {
                None
            } else {
                Some(slice_chars(tail.as_slice(), first + 1, last))
            }
        },
        None => None,
    }
}

// ---------------------------------------------------------------------------
// JSON-like escapes
// ---------------------------------------------------------------------------

/// Whether `code` is a Unicode scalar value, the codes a `char` can hold.
pub open spec fn is_scalar(code: u32) -> bool {
    code <= 0x10FFFF && !(0xD800 <= code <= 0xDFFF)
}

/// Calls `char::from_u32`. Claimed, as its documentation states: the
/// character with that code when the code is a Unicode scalar value, `None`
/// for a surrogate or a code above 0x10FFFF.
#[verifier::external_body]
fn char_from_u32(code: u32) -> (r: Option<char>)
    ensures
        is_scalar(code) ==> r == Some(code as char),
        !is_scalar(code) ==> r is None,
{
    char::from_u32(code)
}

pub open spec fn is_hex_digit(c: char) -> bool {
    ('0' <= c && c <= '9') || ('a' <= c && c <= 'f') || ('A' <= c && c <= 'F')
}

pub open spec fn hex_digit_value(c: char) -> nat {
    if '0' <= c && c <= '9' {
        (c as u32 - '0' as u32) as nat
    } else if 'a' <= c && c <= 'f' {
        (c as u32 - 'a' as u32 + 10) as nat
    } else {
        (c as u32 - 'A' as u32 + 10) as nat
    }
}

pub open spec fn all_hex(s: Seq<char>) -> bool {
    forall|i: int| 0 <= i < s.len() ==> is_hex_digit(#[trigger] s[i])
}

/// The value of a run of hexadecimal digits.
pub open spec fn hex_value(s: Seq<char>) -> nat
    decreases s.len(),
{
    if s.len() == 0 {
        0
    } else {
        hex_value(s.drop_last()) * 16 + hex_digit_value(s.last())
    }
}

/// What `u32::from_str_radix(h, 16)` gives for the four characters after
/// `\u`: four hex digits, or a `+` and three, are read as a number; anything
/// else (fewer than four characters too) is no number.
pub open spec fn escape_code_spec(h: Seq<char>) -> Option<u32> {
    if h.len() != 4 {
        None
    } else if h[0] == '+' {
        if all_hex(h.drop_first()) { Some(hex_value(h.drop_first()) as u32) } else { None }
    } else if all_hex(h) {
        Some(hex_value(h) as u32)
    } else {
        None
    }
}

/// The character a one-letter escape stands for: `\n`, `\r`, `\t`, `\b`
/// (backspace) and `\f` (form feed); any other letter stands for itself.
pub open spec fn simple_escape(c: char) -> char {
    if c == 'n' {
        '\n'
    } else if c == 'r' {
        '\r'
    } else if c == 't' {
        '\t'
    } else if c == 'b' {
        '\u{8}'
    } else if c == 'f' {
        '\u{c}'
    } else {
        c
    }
}

/// `s` with JSON-style escapes decoded. A `\u` takes up to four characters:
/// when they are a number that is a character, that character; else the
/// `\u` and the characters are kept as they were. A lone `\` at the end stays.
pub open spec fn decode_escapes_spec(s: Seq<char>) -> Seq<char>
    decreases s.len(),
{
    if s.len() == 0 {
        Seq::empty()
    } else if s[0] != '\\' {
        seq![s[0]] + decode_escapes_spec(s.drop_first())
    } else if s.len() == 1 {
        seq!['\\']
    } else if s[1] == 'u' {
        let n: int = if s.len() < 6 { s.len() - 2 } else { 4 };
        let h = s.subrange(2, 2 + n);
        let rest = s.skip(2 + n);
        match escape_code_spec(h) {
            Some(code) => {
                if is_scalar(code) {
                    seq![code as char] + decode_escapes_spec(rest)
                } else {
                    seq!['\\', 'u'] + h + decode_escapes_spec(rest)
                }
            },
            None => seq!['\\', 'u'] + h + decode_escapes_spec(rest),
        }
    } else {
        seq![simple_escape(s[1])] + decode_escapes_spec(s.skip(2))
    }
}

fn hex_digit(c: char) -> (r: Option<u32>)
    ensures
        is_hex_digit(c) ==> r == Some(hex_digit_value(c) as u32),
        !is_hex_digit(c) ==> r is None,
{
    if '0' <= c && c <= '9' {
        Some(c as u32 - '0' as u32)
    } else if 'a' <= c && c <= 'f' {
        Some(c as u32 - 'a' as u32 + 10)
    } else if 'A' <= c && c <= 'F' {
        Some(c as u32 - 'A' as u32 + 10)
    } else {
        None
    }
}

/// Reads hex digits `s[a..b]` (at most four).
fn hex_run(s: &[char], a: usize, b: usize) -> (r: Option<u32>)
    requires
        a <= b <= s@.len(),
        b - a <= 4,
    ensures
        all_hex(s@.subrange(a as int, b as int)) ==> r == Some(hex_value(s@.subrange(a as int, b as int)) as u32),
        !all_hex(s@.subrange(a as int, b as int)) ==> r is None,
{
    let mut acc: u32 = 0;
    let mut i = a;
    while i < b
        invariant
            a <= i <= b <= s@.len(),
            b - a <= 4,
            all_hex(s@.subrange(a as int, i as int)),
            acc == hex_value(s@.subrange(a as int, i as int)),
            acc < pow16(i - a),
        decreases b - i,
    {
        let ghost prev = s@.subrange(a as int, i as int);
        let ghost next = s@.subrange(a as int, i + 1);
        assert(next.drop_last() =~= prev);
        assert(next.last() == s@[i as int]);
        match hex_digit(s[i]) {
            Some(d) => {
                proof {
                    lemma_pow16_step(i - a);
                }
                assert(acc * 16 + d < pow16(i + 1 - a)) by (nonlinear_arith)
                    requires
                        acc < pow16(i - a),
                        d < 16,
                        pow16(i + 1 - a) == pow16(i - a) * 16,
                ;
                assert(pow16(i + 1 - a) <= 65536) by {
                    lemma_pow16_bound(i + 1 - a);
                }
                acc = acc * 16 + d;
                assert forall|j: int| 0 <= j < next.len() implies is_hex_digit(#[trigger] next[j]) by {
                    if j < prev.len() {
                        assert(next[j] == prev[j]);
                    }
                }
            },
            None => {
                assert(!is_hex_digit(s@.subrange(a as int, b as int)[i - a]));
                return None;
            },
        }
        i = i + 1;
    }
    Some(acc)
}

pub open spec fn pow16(n: int) -> int
    decreases n,
{
    if n <= 0 { 1 } else { 16 * pow16(n - 1) }
}

proof fn lemma_pow16_step(n: int)
    requires
        n >= 0,
    ensures
        pow16(n + 1) == pow16(n) * 16,
{
}

proof fn lemma_pow16_bound(n: int)
    requires
        0 <= n <= 4,
    ensures
        pow16(n) <= 65536,
{
    reveal_with_fuel(pow16, 5);
}

/// The code written after a `\u` at `start`: `s[start..end]`, up to four characters.
fn escape_code(s: &[char], start: usize, end: usize) -> (r: Option<u32>)
    requires
        start <= end <= s@.len(),
    ensures
        r == escape_code_spec(s@.subrange(start as int, end as int)),
{
    let ghost h = s@.subrange(start as int, end as int);
    if end - start != 4 {
        return None;
    }
    if s[start] == '+' {
        assert(h.drop_first() =~= s@.subrange(start + 1, end as int));
        hex_run(s, start + 1, end)
    } else {
        hex_run(s, start, end)
    }
}

/// Decodes the escapes of a JSON string that was written without its quotes.
pub fn decode_json_like_escapes(s: &[char]) -> (r: Vec<char>)
    ensures
        r@ == decode_escapes_spec(s@),
{
    let mut out: Vec<char> = Vec::new();
    let mut i: usize = 0;
    let n = s.len();
    assert(s@.skip(0) =~= s@);
    while i < n
        invariant
            i <= n == s@.len(),
            decode_escapes_spec(s@) == out@ + decode_escapes_spec(s@.skip(i as int)),
        decreases n - i,
    {
        let ghost rest = s@.skip(i as int);
        assert(rest[0] == s@[i as int]);
        let c = s[i];
        if c != '\\' {
            assert(rest.drop_first() =~= s@.skip(i + 1));
            out.push(c);
            i = i + 1;
            assert(decode_escapes_spec(s@) == out@ + decode_escapes_spec(s@.skip(i as int)));
        } else if i + 1 == n {
            out.push('\\');
            i = i + 1;
            assert(s@.skip(i as int) =~= Seq::<char>::empty());
            assert(decode_escapes_spec(s@) == out@ + decode_escapes_spec(s@.skip(i as int)));
        } else {
            let e = s[i + 1];
            assert(rest[1] == e);
            if e == 'u' {
                let end: usize = if n - (i + 2) < 4 { n } else { i + 6 };
                let ghost h = s@.subrange(i + 2, end as int);
                assert(h =~= rest.subrange(2, 2 + (end - (i + 2))));
                assert(rest.skip(2 + (end - (i + 2))) =~= s@.skip(end as int));
                let code = escape_code(s, i + 2, end);
                let decoded = match code {
                    Some(v) => char_from_u32(v),
                    None => None,
                };
                match decoded {
                    Some(ch) => {
                        out.push(ch);
                    },
                    None => {
                        out.push('\\');
                        out.push('u');
                        let mut k = i + 2;
                        let ghost before = out@;
                        while k < end
                            invariant
                                i + 2 <= k <= end <= n == s@.len(),
                                out@ == before + s@.subrange(i + 2, k as int),
                            decreases end - k,
                        {
                            out.push(s[k]);
                            proof {
                                assert(s@.subrange(i + 2, k + 1) =~= s@.subrange(i + 2, k as int).push(s@[k as int]));
                            }
                            k = k + 1;
                        }
                    },
                }
                i = end;
                assert(decode_escapes_spec(s@) == out@ + decode_escapes_spec(s@.skip(i as int)));
            } else {
                assert(rest.skip(2) =~= s@.skip(i + 2));
                let d = if e == 'n' {
                    '\n'
                } else if e == 'r' {
                    '\r'
                } else if e == 't' {
                    '\t'
                } else if e == 'b' {
                    '\u{8}'
                } else if e == 'f' {
                    '\u{c}'
                } else {
                    e
                };
                out.push(d);
                i = i + 2;
                assert(decode_escapes_spec(s@) == out@ + decode_escapes_spec(s@.skip(i as int)));
            }
        }
    }
    assert(s@.skip(n as int) =~= Seq::<char>::empty());
    assert(out@ =~= out@ + Seq::<char>::empty());
    out
}

// ---------------------------------------------------------------------------
// Text lines that look like `"key": "value"`
// ---------------------------------------------------------------------------

/// `text` trimmed and without list numbering, when anything is left.
pub open spec fn normalized_non_empty_spec(text: Seq<char>) -> Option<Seq<char>> {
    let n = strip_line_prefix_spec(trim_spec(text));
    if n.len() > 0 { Some(n) } else { None }
}

/// Trims a text and drops its list numbering; `None` when nothing is left.
pub fn normalized_non_empty(text: &[char]) -> (r: Option<Vec<char>>)
    ensures
        match (r, normalized_non_empty_spec(text@)) {
            (Some(a), Some(b)) => a@ == b,
            (None, None) => true,
            _ => false,
        },
{
    let t = trim_chars(text);
    let n = strip_line_prefix(t.as_slice());
    if n.len() > 0 { Some(n) } else { None }
}

/// A line that names one of the fields a translation may come in.
pub open spec fn is_text_line_spec(line: Seq<char>) -> bool {
    ||| contains_spec(line, "\"text\""@)
    ||| contains_spec(line, "\"translation\""@)
    ||| contains_spec(line, "\"translated_text\""@)
    ||| contains_spec(line, "\"target_text\""@)
    ||| contains_spec(line, "\"output_text\""@)
}

fn is_text_line(line: &[char]) -> (r: bool)
    ensures
        r == is_text_line_spec(line@),
{
    let a = chars_of("\"text\"");
    let b = chars_of("\"translation\"");
    let c = chars_of("\"translated_text\"");
    let d = chars_of("\"target_text\"");
    let e = chars_of("\"output_text\"");
    contains(line, a.as_slice()) || contains(line, b.as_slice()) || contains(line, c.as_slice())
        || contains(line, d.as_slice()) || contains(line, e.as_slice())
}

/// What one trimmed line of a reply tells: `None` to go on with the next
/// line (blank, no translation field, or an empty value), `Some(None)` to
/// give up (a field line without a quoted value), `Some(Some(text))` for the
/// decoded, trimmed value.
pub open spec fn line_verdict(line: Seq<char>) -> Option<Option<Seq<char>>> {
    if line.len() == 0 || !is_text_line_spec(line) {
        None
    } else {
        match extract_quoted_field_value_spec(line) {
            None => Some(None),
            Some(raw) => match normalized_non_empty_spec(decode_escapes_spec(trim_spec(raw))) {
                Some(t) => Some(Some(t)),
                None => None,
            },
        }
    }
}

/// The translation read from the first line, top down, that gives one (see
/// `line_verdict`); lines are split at `\n` and trimmed.
pub open spec fn loose_json_line_spec(s: Seq<char>) -> Option<Seq<char>>
    decreases s.len(),
{
    let k = find_spec(s, '\n');
    match line_verdict(trim_spec(s.take(k))) {
        Some(found) => found,
        None => if k < s.len() {
            proof {
                crate::text::lemma_find_bounds(s, '\n');
            }
            loose_json_line_spec(s.skip(k + 1))
        } else {
            None
        },
    }
}

fn line_verdict_exec(line: &[char]) -> (r: Option<Option<Vec<char>>>)
    ensures
        match (r, line_verdict(line@)) {
            (None, None) => true,
            (Some(None), Some(None)) => true,
            (Some(Some(a)), Some(Some(b))) => a@ == b,
            _ => false,
        },
{
    if line.len() == 0 || !is_text_line(line) {
        return None;
    }
    match extract_quoted_field_value(line) {
        None => Some(None),
        Some(raw) => {
            let t = trim_chars(raw.as_slice());
            let decoded = decode_json_like_escapes(t.as_slice());
            match normalized_non_empty(decoded.as_slice()) {
                Some(n) => Some(Some(n)),
                None => None,
            }
        },
    }
}

/// Reads a translation out of a reply that looks like JSON but does not
/// parse, one `"field": "value"` line at a time.
pub fn parse_loose_json_line(content: &[char]) -> (r: Option<Vec<char>>)
    ensures
        match (r, loose_json_line_spec(content@)) {
            (Some(a), Some(b)) => a@ == b,
            (None, None) => true,
            _ => false,
        },
{
    let n = content.len();
    let mut p: usize = 0;
    assert(content@.skip(0) =~= content@);
    while p <= n
        invariant
            p <= n + 1,
            n == content@.len(),
            p <= n ==> loose_json_line_spec(content@) == loose_json_line_spec(content@.skip(p as int)),
            p > n ==> loose_json_line_spec(content@) is None,
        decreases n + 1 - p,
    {
        let rest = slice_chars(content, p, n);
        assert(rest@ =~= content@.skip(p as int));
        let k = find_char(rest.as_slice(), '\n');
        let piece = slice_chars(rest.as_slice(), 0, k);
        assert(piece@ =~= rest@.take(k as int));
        let line = trim_chars(piece.as_slice());
        match line_verdict_exec(line.as_slice()) {
            Some(found) => {
                return found;
            },
            None => {
                if k < rest.len() {
                    assert(rest@.skip(k + 1) =~= content@.skip(p + k + 1));
                    p = p + k + 1;
                } else {
                    return None;
                }
            },
        }
    }
    None
}

// ---------------------------------------------------------------------------
// Text inside a parsed JSON reply
// ---------------------------------------------------------------------------

/// The lines of `texts` joined with `\n`.
pub open spec fn join_lines_spec(texts: Seq<Seq<char>>) -> Seq<char>
    decreases texts.len(),
{
    if texts.len() == 0 {
        Seq::empty()
    } else if texts.len() == 1 {
        texts[0]
    } else {
        join_lines_spec(texts.drop_last()) + seq!['\n'] + texts.last()
    }
}

/// Where `key` first occurs among an object's entries, -1 when it does not.
pub open spec fn key_index(fields: Seq<(String, JsonValue)>, key: Seq<char>) -> int
    decreases fields.len(),
{
    if fields.len() == 0 {
        -1
    } else if fields[0].0@ == key {
        0
    } else {
        let r = key_index(fields.drop_first(), key);
        if r == -1 { -1 } else { r + 1 }
    }
}

proof fn lemma_key_index(fields: Seq<(String, JsonValue)>, key: Seq<char>, k: int)
    requires
        0 <= k <= fields.len(),
        forall|j: int| 0 <= j < k ==> (#[trigger] fields[j]).0@ != key,
        k < fields.len() ==> fields[k].0@ == key,
    ensures
        key_index(fields, key) == (if k < fields.len() { k } else { -1 }),
    decreases k,
{
    if k > 0 {
        let t = fields.drop_first();
        assert(fields[0].0@ != key);
        assert forall|j: int| 0 <= j < k - 1 implies (#[trigger] t[j]).0@ != key by {
            assert(t[j] == fields[j + 1]);
            assert(fields[j + 1].0@ != key);
        }
        lemma_key_index(t, key, k - 1);
    }
}

proof fn lemma_lookup_first(fields: Seq<(String, JsonValue)>, key: Seq<char>, k: int)
    requires
        0 <= k <= fields.len(),
        forall|j: int| 0 <= j < k ==> (#[trigger] fields[j]).0@ != key,
    ensures
        lookup_spec(fields, key) == lookup_spec(fields.skip(k), key),
    decreases k,
{
    if k == 0 {
        assert(fields.skip(0) =~= fields);
    } else {
        let t = fields.drop_first();
        assert(fields[0].0@ != key);
        assert forall|j: int| 0 <= j < k - 1 implies (#[trigger] t[j]).0@ != key by {
            assert(t[j] == fields[j + 1]);
            assert(fields[j + 1].0@ != key);
        }
        lemma_lookup_first(t, key, k - 1);
        assert(t.skip(k - 1) =~= fields.skip(k));
    }
}

/// The field names a translation may be stored under, in the order they are tried.
pub open spec fn translation_keys() -> Seq<Seq<char>> {
    seq!["text"@, "translation"@, "translated_text"@, "target_text"@, "value"@, "content"@, "output_text"@]
}

/// The first of `keys` whose field is a string with text left after
/// normalizing, normalized.
pub open spec fn first_keyed_text(fields: Seq<(String, JsonValue)>, keys: Seq<Seq<char>>) -> Option<Seq<char>>
    decreases keys.len(),
{
    if keys.len() == 0 {
        None
    } else {
        let here = match as_str_spec(lookup_spec(fields, keys[0])) {
            Some(t) => normalized_non_empty_spec(t),
            None => None,
        };
        match here {
            Some(t) => Some(t),
            None => first_keyed_text(fields, keys.drop_first()),
        }
    }
}

/// The translation held by a parsed reply: a string's normalized text; for
/// an array, the texts of its items joined by line breaks (none when no item
/// has one); for an object, what its `translations` field holds when it has
/// one, else the first usable string among the known field names.
pub open spec fn extract_text_spec(value: JsonValue) -> Option<Seq<char>>
    decreases value, 0int,
{
    match value {
        JsonValue::Str(s) => normalized_non_empty_spec(s@),
        JsonValue::Array(items) => {
            let texts = array_texts_spec(items, items.len() as int);
            if texts.len() == 0 { None } else { Some(join_lines_spec(texts)) }
        },
        JsonValue::Object(fields) => {
            let i = key_index(fields@, "translations"@);
            if 0 <= i < fields.len() {
                extract_text_spec(fields[i].1)
            } else {
                first_keyed_text(fields@, translation_keys())
            }
        },
        _ => None,
    }
}

/// The texts of the first `n` items of an array, skipping items without one.
pub open spec fn array_texts_spec(items: Vec<JsonValue>, n: int) -> Seq<Seq<char>>
    decreases items, n,
{
    if n <= 0 || n > items.len() {
        Seq::empty()
    } else {
        let prev = array_texts_spec(items, n - 1);
        match extract_text_spec(items[n - 1]) {
            Some(t) => prev.push(t),
            None => prev,
        }
    }
}

/// The characters of an optional result, as a sequence.
pub open spec fn chars_opt(r: Option<Vec<char>>) -> Option<Seq<char>> {
    match r {
        Some(v) => Some(v@),
        None => None,
    }
}

/// Where `key` first occurs among an object's entries.
fn key_position(fields: &Vec<(String, JsonValue)>, key: &str) -> (r: Option<usize>)
    ensures
        match r {
            Some(i) => i == key_index(fields@, key@) && i < fields@.len(),
            None => key_index(fields@, key@) == -1,
        },
{
    let mut i: usize = 0;
    while i < fields.len()
        invariant
            i <= fields@.len(),
            forall|j: int| 0 <= j < i ==> (#[trigger] fields@[j]).0@ != key@,
        decreases fields@.len() - i,
    {
        if crate::text::str_eq(fields[i].0.as_str(), key) {
            proof { lemma_key_index(fields@, key@, i as int); }
            return Some(i);
        }
        i = i + 1;
    }
    proof { lemma_key_index(fields@, key@, i as int); }
    None
}

/// The value of the string field `key`, if the object has one.
fn str_field<'a>(fields: &'a Vec<(String, JsonValue)>, key: &str) -> (r: Option<&'a String>)
    ensures
        match (r, as_str_spec(lookup_spec(fields@, key@))) {
            (Some(a), Some(b)) => a@ == b,
            (None, None) => true,
            _ => false,
        },
{
    match crate::json::lookup(fields, key) {
        Some(JsonValue::Str(s)) => Some(s),
        _ => None,
    }
}

/// The first usable string among the known translation fields.
fn first_keyed_text_exec(fields: &Vec<(String, JsonValue)>) -> (r: Option<Vec<char>>)
    ensures
        chars_opt(r) == first_keyed_text(fields@, translation_keys()),
{
    let keys: [&str; 7] = ["text", "translation", "translated_text", "target_text", "value", "content", "output_text"];
    let ghost names = translation_keys();
    proof {
        reveal_strlit("text");
        reveal_strlit("translation");
        reveal_strlit("translated_text");
        reveal_strlit("target_text");
        reveal_strlit("value");
        reveal_strlit("content");
        reveal_strlit("output_text");
    }
    assert(forall|j: int| 0 <= j < 7 ==> (#[trigger] keys@[j])@ == names[j]);
    let mut k: usize = 0;
    assert(names.skip(0) =~= names);
    while k < 7
        invariant
            k <= 7,
            names == translation_keys(),
            names.len() == 7,
            forall|j: int| 0 <= j < 7 ==> (#[trigger] keys@[j])@ == names[j],
            first_keyed_text(fields@, names) == first_keyed_text(fields@, names.skip(k as int)),
        decreases 7 - k,
    {
        let ghost rest = names.skip(k as int);
        assert(rest[0] == names[k as int]);
        assert(rest.drop_first() =~= names.skip(k + 1));
        let key = keys[k];
        assert(key@ == rest[0]);
        match str_field(fields, key) {
            Some(text) => {
                let t = chars_of(text.as_str());
                match normalized_non_empty(t.as_slice()) {
                    Some(n) => {
                        assert(rest.len() > 0);
                        assert(first_keyed_text(fields@, rest) == Some(n@));
                        return Some(n);
                    },
                    None => {},
                }
            },
            None => {},
        }
        k = k + 1;
    }
    assert(names.skip(7) =~= Seq::<Seq<char>>::empty());
    None
}

/// Joins lines with `\n`.
fn join_lines(texts: &Vec<Vec<char>>) -> (r: Vec<char>)
    ensures
        r@ == join_lines_spec(texts@.map_values(|t: Vec<char>| t@)),
{
    let ghost views = texts@.map_values(|t: Vec<char>| t@);
    let mut out: Vec<char> = Vec::new();
    let mut i: usize = 0;
    while i < texts.len()
        invariant
            i <= texts@.len(),
            views == texts@.map_values(|t: Vec<char>| t@),
            out@ == join_lines_spec(views.take(i as int)),
        decreases texts@.len() - i,
    {
        assert(views.take(i + 1).drop_last() =~= views.take(i as int));
        assert(views.take(i + 1).last() == texts@[i as int]@);
        if i > 0 {
            out.push('\n');
        }
        let line = &texts[i];
        let mut j: usize = 0;
        let ghost before = out@;
        while j < line.len()
            invariant
                j <= line@.len(),
                out@ == before + line@.take(j as int),
            decreases line@.len() - j,
        {
            out.push(line[j]);
            proof {
                assert(line@.take(j + 1) =~= line@.take(j as int).push(line@[j as int]));
            }
            j = j + 1;
        }
        assert(line@.take(line@.len() as int) =~= line@);
        proof {
            if i == 0 {
                assert(views.take(1) =~= seq![line@]);
                assert(out@ =~= line@);
            }
        }
        i = i + 1;
    }
    assert(views.take(texts@.len() as int) =~= views);
    out
}

/// Reads the translation held by a parsed reply (see `extract_text_spec`).
pub fn extract_text_from_json_value(value: &JsonValue) -> (r: Option<Vec<char>>)
    ensures
        chars_opt(r) == extract_text_spec(*value),
    decreases value,
{
    match value {
        JsonValue::Str(s) => {
            let t = chars_of(s.as_str());
            normalized_non_empty(t.as_slice())
        },
        JsonValue::Array(items) => {
            let mut texts: Vec<Vec<char>> = Vec::new();
            let mut i: usize = 0;
            while i < items.len()
                invariant
                    i <= items@.len(),
                    *value == JsonValue::Array(*items),
                    texts@.map_values(|t: Vec<char>| t@) == array_texts_spec(*items, i as int),
                decreases items@.len() - i,
            {
                let item = &items[i];
                proof {
                    vstd::std_specs::vec::axiom_vec_index_decreases(*items, i as int);
                    assert(decreases_to!(*items => items[i as int]));
                    assert(decreases_to!(*value => (*value)->Array_0));
                    assert(decreases_to!(*value => items[i as int]));
                }
                match extract_text_from_json_value(item) {
                    Some(t) => {
                        texts.push(t);
                        assert(texts@.map_values(|t: Vec<char>| t@) =~= array_texts_spec(*items, i as int + 1));
                    },
                    None => {
                        assert(texts@.map_values(|t: Vec<char>| t@) =~= array_texts_spec(*items, i as int + 1));
                    },
                }
                i = i + 1;
            }
            if texts.len() == 0 {
                None
            } else {
                Some(join_lines(&texts))
            }
        },
        JsonValue::Object(fields) => {
            match key_position(fields, "translations") {
                Some(i) => {
                    proof {
                        vstd::std_specs::vec::axiom_vec_index_decreases(*fields, i as int);
                    }
                    extract_text_from_json_value(&fields[i].1)
                },
                None => first_keyed_text_exec(fields),
            }
        },
        _ => None,
    }
}

// ---------------------------------------------------------------------------
// One translated block out of a model's reply
// ---------------------------------------------------------------------------

/// Why a reply held no translation.
#[derive(Debug, Clone, Copy, PartialEq, Eq, Structural)]
pub enum TranslationParseError {
    /// Nothing was left of the reply once fences, quotes and numbering were taken off.
    EmptyContent,
}

impl TranslationParseError {
    pub fn message(&self) -> (r: String)
        ensures
            r@ == "empty translation content"@,
    {
        String::from_str("empty translation content")
    }
}

/// The translation in a reply, given what the JSON parser made of the
/// reply's JSON payload (`payload_json`) and of the whole stripped reply
/// (`quoted_json`): the text of the parsed payload; else the first
/// `"field": "value"` line; else, when the stripped reply is one quoted JSON
/// string, its trimmed contents; else the stripped reply without list
/// numbering. An empty result is an error.
pub open spec fn single_translation_spec(
    content: Seq<char>,
    payload_json: Option<JsonValue>,
    quoted_json: Option<JsonValue>,
) -> Result<Seq<char>, TranslationParseError> {
    let from_json = match payload_json {
        Some(v) => extract_text_spec(v),
        None => None,
    };
    match from_json {
        Some(t) => Ok(t),
        None => match loose_json_line_spec(content) {
            Some(t) => Ok(t),
            None => {
                let stripped = trim_spec(strip_code_fence_spec(content));
                if stripped.len() == 0 {
                    Err(TranslationParseError::EmptyContent)
                } else {
                    let quoted = if stripped[0] == '"' && stripped.last() == '"' {
                        match quoted_json {
                            Some(JsonValue::Str(q)) => {
                                let n = trim_spec(q@);
                                if n.len() > 0 { Some(n) } else { None }
                            },
                            _ => None,
                        }
                    } else {
                        None
                    };
                    match quoted {
                        Some(n) => Ok(n),
                        None => {
                            let n = strip_line_prefix_spec(stripped);
                            if n.len() == 0 { Err(TranslationParseError::EmptyContent) } else { Ok(n) }
                        },
                    }
                }
            },
        },
    }
}

/// The characters of a result, as a sequence.
pub open spec fn text_result(r: Result<String, TranslationParseError>) -> Result<Seq<char>, TranslationParseError> {
    match r {
        Ok(s) => Ok(s@),
        Err(e) => Err(e),
    }
}

/// Reads the translation out of a reply, given what the JSON parser made of
/// its payload and of the stripped reply (see `single_translation_spec`).
pub fn translation_from_reply(
    content: &str,
    payload_json: Option<JsonValue>,
    quoted_json: Option<JsonValue>,
) -> (r: Result<String, TranslationParseError>)
    ensures
        text_result(r) == single_translation_spec(content@, payload_json, quoted_json),
{
    let chars = chars_of(content);
    let from_json = match &payload_json {
        Some(v) => extract_text_from_json_value(v),
        None => None,
    };
    if let Some(t) = from_json {
        return Ok(string_from_chars(t.as_slice()));
    }
    if let Some(t) = parse_loose_json_line(chars.as_slice()) {
        return Ok(string_from_chars(t.as_slice()));
    }
    let fenced = strip_code_fence(chars.as_slice());
    let stripped = trim_chars(fenced.as_slice());
    let n = stripped.len();
    if n == 0 {
        return Err(TranslationParseError::EmptyContent);
    }
    if stripped[0] == '"' && stripped[n - 1] == '"' {
        if let Some(JsonValue::Str(q)) = &quoted_json {
            let qc = chars_of(q.as_str());
            let t = trim_chars(qc.as_slice());
            if t.len() > 0 {
                return Ok(string_from_chars(t.as_slice()));
            }
        }
    }
    let normalized = strip_line_prefix(stripped.as_slice());
    if normalized.len() == 0 {
        Err(TranslationParseError::EmptyContent)
    } else {
        Ok(string_from_chars(normalized.as_slice()))
    }
}

/// Reads the translation out of one model reply, parsing its JSON payload
/// and, where the stripped reply is one quoted string, that string, with
/// serde_json.
pub fn parse_single_translation_content(content: &str) -> (r: Result<String, TranslationParseError>)
    ensures
        text_result(r) == single_translation_spec(
            content@,
            match extract_json_payload_spec(content@) {
                Some(p) => json_parse(p),
                None => None,
            },
            json_parse(trim_spec(strip_code_fence_spec(content@))),
        ),
{
    let chars = chars_of(content);
    let payload_json = match extract_json_payload(chars.as_slice()) {
        Some(p) => {
            let text = string_from_chars(p.as_slice());
            parse_json(text.as_str())
        },
        None => None,
    };
    let fenced = strip_code_fence(chars.as_slice());
    let stripped = trim_chars(fenced.as_slice());
    let n = stripped.len();
    let quoted_json = if n > 0 && stripped[0] == '"' && stripped[n - 1] == '"' {
        let text = string_from_chars(stripped.as_slice());
        parse_json(text.as_str())
    } else {
        None
    };
    translation_from_reply(content, payload_json, quoted_json)
}

} // verus!
