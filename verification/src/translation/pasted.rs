use crate::encoding::{base64_standard_decoding, base64_unpadded_decoding, decode_base64_padded, decode_base64_unpadded};
use crate::text::{chars_of, find_char, find_spec, slice_chars, string_from_chars, trim_chars, trim_spec};
use vstd::prelude::*;

verus! {

/// Why the translated image a provider pasted back could not be used.
#[derive(Debug, Clone, Copy, PartialEq, Eq, Structural)]
pub enum PastedImageError {
    /// The payload is empty once trimmed.
    Empty,
    /// The payload is not base64, with or without padding.
    InvalidBase64,
}

impl PastedImageError {
    pub fn message(&self) -> (r: String)
        ensures
            r@ == match *self {
                PastedImageError::Empty => "empty pasted image payload"@,
                PastedImageError::InvalidBase64 => "invalid base64 pasted image"@,
            },
    {
        match self {
            PastedImageError::Empty => String::from_str("empty pasted image payload"),
            PastedImageError::InvalidBase64 => String::from_str("invalid base64 pasted image"),
        }
    }
}

/// The base64 text of a pasted image payload: the trimmed payload, after its
/// first comma when it has one (a `data:` URL), trimmed again.
pub open spec fn pasted_base64_text(payload: Seq<char>) -> Seq<char> {
    let t = trim_spec(payload);
    let comma = find_spec(t, ',');
    if comma < t.len() {
        trim_spec(t.subrange(comma + 1, t.len() as int))
    } else {
        trim_spec(t)
    }
}

/// Decodes the image a provider pasted back: empty payloads are refused;
/// the base64 text is decoded with padding, else without.
pub fn decode_base64_image(payload: &str) -> (r: Result<Vec<u8>, PastedImageError>)
    ensures
        trim_spec(payload@).len() == 0 ==> r == Err::<Vec<u8>, PastedImageError>(PastedImageError::Empty),
        trim_spec(payload@).len() != 0 ==> match base64_standard_decoding(pasted_base64_text(payload@)) {
            Some(bytes) => r matches Ok(v) && v@ == bytes,
            None => match base64_unpadded_decoding(pasted_base64_text(payload@)) {
                Some(bytes) => r matches Ok(v) && v@ == bytes,
                None => r == Err::<Vec<u8>, PastedImageError>(PastedImageError::InvalidBase64),
            },
        },
{
    let chars = chars_of(payload);
    let trimmed = trim_chars(chars.as_slice());
    if trimmed.len() == 0 {
        return Err(PastedImageError::Empty);
    }
    let comma = find_char(trimmed.as_slice(), ',');
    let tail = if comma < trimmed.len() {
        slice_chars(trimmed.as_slice(), comma + 1, trimmed.len())
    } else {
        slice_chars(trimmed.as_slice(), 0, trimmed.len())
    };
    proof {
        assert(trimmed@.subrange(0, trimmed@.len() as int) =~= trimmed@);
    }
    let encoded_chars = trim_chars(tail.as_slice());
    let encoded = string_from_chars(encoded_chars.as_slice());
    match decode_base64_padded(encoded.as_str()) {
        Some(bytes) => Ok(bytes),
        None => match decode_base64_unpadded(encoded.as_str()) {
            Some(bytes) => Ok(bytes),
            None => Err(PastedImageError::InvalidBase64),
        },
    }
}

} // verus!
