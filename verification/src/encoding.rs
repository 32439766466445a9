use base64::Engine;
use vstd::prelude::*;

verus! {

/// The character of the standard base64 alphabet for a six-bit value.
pub open spec fn base64_digit(v: int) -> char {
    if v < 26 {
        (('A' as int) + v) as char
    } else if v < 52 {
        (('a' as int) + v - 26) as char
    } else if v < 62 {
        (('0' as int) + v - 52) as char
    } else if v == 62 {
        '+'
    } else {
        '/'
    }
}

/// Standard base64 with padding (RFC 4648), as the base64 crate's
/// `STANDARD` engine writes it: each three bytes become four characters;
/// a last one or two bytes become two or three characters and `=` padding.
pub open spec fn base64_standard_encoding(bytes: Seq<u8>) -> Seq<char>
    decreases bytes.len(),
{
    if bytes.len() == 0 {
        Seq::empty()
    } else if bytes.len() == 1 {
        let n = bytes[0] as int * 65536;
        seq![base64_digit(n / 262144), base64_digit((n / 4096) % 64), '=', '=']
    } else if bytes.len() == 2 {
        let n = bytes[0] as int * 65536 + bytes[1] as int * 256;
        seq![base64_digit(n / 262144), base64_digit((n / 4096) % 64), base64_digit((n / 64) % 64), '=']
    } else {
        let n = bytes[0] as int * 65536 + bytes[1] as int * 256 + bytes[2] as int;
        seq![base64_digit(n / 262144), base64_digit((n / 4096) % 64), base64_digit((n / 64) % 64), base64_digit(n % 64)]
            + base64_standard_encoding(bytes.skip(3))
    }
}

/// Standard base64 without padding: the padded form with its trailing `=`
/// left off.
pub open spec fn base64_unpadded_encoding(bytes: Seq<u8>) -> Seq<char> {
    let padded = base64_standard_encoding(bytes);
    let pads: int = if bytes.len() % 3 == 1 { 2 } else if bytes.len() % 3 == 2 { 1 } else { 0 };
    padded.subrange(0, padded.len() - pads)
}

/// What the base64 crate's `STANDARD` engine decodes `text` to: it accepts
/// exactly the canonical padded encodings (canonical padding, no stray
/// trailing bits), so the bytes are those whose encoding `text` is; `None`
/// for every other text.
pub open spec fn base64_standard_decoding(text: Seq<char>) -> Option<Seq<u8>> {
    if exists|b: Seq<u8>| #[trigger] base64_standard_encoding(b) == text {
        Some(choose|b: Seq<u8>| #[trigger] base64_standard_encoding(b) == text)
    } else {
        None
    }
}

/// What the base64 crate's `STANDARD_NO_PAD` engine decodes `text` to: it
/// accepts exactly the canonical encodings without padding; `None` for
/// every other text.
pub open spec fn base64_unpadded_decoding(text: Seq<char>) -> Option<Seq<u8>> {
    if exists|b: Seq<u8>| #[trigger] base64_unpadded_encoding(b) == text {
        Some(choose|b: Seq<u8>| #[trigger] base64_unpadded_encoding(b) == text)
    } else {
        None
    }
}

/// Calls `base64::engine::general_purpose::STANDARD.encode`.
/// Claimed: the text is the standard padded base64 of the bytes
/// (`base64_standard_encoding`).
/// The crate panics only when the encoded length overflows `usize`, which
/// the bound on the input rules out.
#[verifier::external_body]
pub(crate) fn encode_base64(bytes: &Vec<u8>) -> (r: String)
    requires
        bytes@.len() <= usize::MAX / 2,
    ensures
        r@ == base64_standard_encoding(bytes@),
{
    base64::engine::general_purpose::STANDARD.encode(bytes)
}

/// Calls `base64::engine::general_purpose::STANDARD.decode`.
/// Claimed: the bytes whose canonical padded encoding the text is, and an
/// error for any other text (`base64_standard_decoding`).
#[verifier::external_body]
pub(crate) fn decode_base64_padded(text: &str) -> (r: Option<Vec<u8>>)
    ensures
        match r {
            Some(bytes) => base64_standard_decoding(text@) == Some(bytes@),
            None => base64_standard_decoding(text@) is None,
        },
{
    base64::engine::general_purpose::STANDARD.decode(text).ok()
}

/// Calls `base64::engine::general_purpose::STANDARD_NO_PAD.decode`.
/// Claimed: the bytes whose canonical unpadded encoding the text is, and
/// an error for any other text (`base64_unpadded_decoding`).
#[verifier::external_body]
pub(crate) fn decode_base64_unpadded(text: &str) -> (r: Option<Vec<u8>>)
    ensures
        match r {
            Some(bytes) => base64_unpadded_decoding(text@) == Some(bytes@),
            None => base64_unpadded_decoding(text@) is None,
        },
{
    base64::engine::general_purpose::STANDARD_NO_PAD.decode(text).ok()
}

} // verus!
