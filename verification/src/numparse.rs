use crate::remote::signed_decimal_spec;
use crate::text::{decimal_spec, digit_char_spec};
use vstd::prelude::*;

verus! {

pub open spec fn is_ascii_digit(c: char) -> bool {
    '0' <= c && c <= '9'
}

pub open spec fn all_digits(s: Seq<char>) -> bool {
    forall|i: int| 0 <= i < s.len() ==> is_ascii_digit(#[trigger] s[i])
}

/// The value of a run of decimal digits.
pub open spec fn digits_value(s: Seq<char>) -> nat
    decreases s.len(),
{
    if s.len() == 0 {
        0
    } else {
        digits_value(s.drop_last()) * 10 + ((s.last() as u32) - ('0' as u32)) as nat
    }
}

/// What `str::parse::<u32>` gives: an optional `+`, then at least one ASCII digit,
/// with the value in range.
pub open spec fn parse_u32_spec(s: Seq<char>) -> Option<u32> {
    let body = if s.len() > 0 && s[0] == '+' { s.subrange(1, s.len() as int) } else { s };
    if body.len() > 0 && all_digits(body) && digits_value(body) <= u32::MAX {
        Some(digits_value(body) as u32)
    } else {
        None
    }
}

/// What `str::parse::<i32>` gives: an optional sign, then at least one ASCII
/// digit, with the value in range.
pub open spec fn parse_i32_spec(s: Seq<char>) -> Option<i32> {
    if s.len() > 0 && s[0] == '-' {
        let body = s.subrange(1, s.len() as int);
        if body.len() > 0 && all_digits(body) && digits_value(body) <= 0x8000_0000 {
            Some((0 - digits_value(body)) as i32)
        } else {
            None
        }
    } else {
        let body = if s.len() > 0 && s[0] == '+' { s.subrange(1, s.len() as int) } else { s };
        if body.len() > 0 && all_digits(body) && digits_value(body) <= i32::MAX {
            Some(digits_value(body) as i32)
        } else {
            None
        }
    }
}

proof fn lemma_digits_value_monotone(s: Seq<char>, i: int)
    requires
        0 <= i <= s.len(),
        all_digits(s),
    ensures
        digits_value(s.subrange(0, i)) <= digits_value(s),
    decreases s.len() - i,
{
    if i < s.len() {
        lemma_digits_value_monotone(s, i + 1);
        let p = s.subrange(0, i + 1);
        assert(p.drop_last() =~= s.subrange(0, i));
        assert(is_ascii_digit(p.last()));
    } else {
        assert(s.subrange(0, i) =~= s);
    }
}

/// The value of the digit run `s[start..]`, or `None` when it is empty, holds a
/// non-digit, or exceeds `limit`.
fn digits_up_to(s: &[char], start: usize, limit: u64) -> (r: Option<u64>)
    requires
        start <= s@.len(),
        limit <= u32::MAX as u64 + 1,
    ensures
        ({
            let body = s@.subrange(start as int, s@.len() as int);
            if body.len() > 0 && all_digits(body) && digits_value(body) <= limit {
                r == Some(digits_value(body) as u64)
            } else {
                r is None
            }
        }),
{
    let ghost body = s@.subrange(start as int, s@.len() as int);
    if start >= s.len() {
        return None;
    }
    let mut value: u64 = 0;
    let mut i: usize = start;
    while i < s.len()
        invariant
            start <= i <= s@.len(),
            body == s@.subrange(start as int, s@.len() as int),
            limit <= u32::MAX as u64 + 1,
            all_digits(s@.subrange(start as int, i as int)),
            value == digits_value(s@.subrange(start as int, i as int)),
            value <= limit,
        decreases s@.len() - i,
    {
        let c = s[i];
        if !('0' <= c && c <= '9') {
            proof {
                assert(body[i - start] == c);
            }
            return None;
        }
        let d = (c as u32) - ('0' as u32);
        let next = value * 10 + d as u64;
        proof {
            let p = s@.subrange(start as int, i + 1);
            assert(p.drop_last() =~= s@.subrange(start as int, i as int));
            assert(p.last() == c);
            assert forall|j: int| 0 <= j < p.len() implies is_ascii_digit(#[trigger] p[j]) by {
                if j < p.len() - 1 {
                    assert(p[j] == s@.subrange(start as int, i as int)[j]);
                }
            }
        }
        if next > limit {
            proof {
                let p = s@.subrange(start as int, i + 1);
                if all_digits(body) {
                    lemma_digits_value_monotone(body, i + 1 - start);
                    assert(body.subrange(0, i + 1 - start) =~= p);
                }
            }
            return None;
        }
        value = next;
        i = i + 1;
    }
    Some(value)
}

/// Parses an unsigned decimal as `str::parse::<u32>` does.
pub fn parse_u32(s: &[char]) -> (r: Option<u32>)
    ensures
        r == parse_u32_spec(s@),
{
    let start: usize = if s.len() > 0 && s[0] == '+' { 1 } else { 0 };
    proof {
        if start == 0 {
            assert(s@.subrange(0, s@.len() as int) =~= s@);
        }
    }
    match digits_up_to(s, start, u32::MAX as u64) {
        Some(v) => Some(v as u32),
        None => None,
    }
}

/// Parses a signed decimal as `str::parse::<i32>` does.
pub fn parse_i32(s: &[char]) -> (r: Option<i32>)
    ensures
        r == parse_i32_spec(s@),
{
    if s.len() > 0 && s[0] == '-' {
        match digits_up_to(s, 1, 0x8000_0000) {
            Some(v) => {
                let neg: i64 = 0 - (v as i64);
                Some(neg as i32)
            },
            None => None,
        }
    } else {
        let start: usize = if s.len() > 0 && s[0] == '+' { 1 } else { 0 };
        proof {
            if start == 0 {
                assert(s@.subrange(0, s@.len() as int) =~= s@);
            }
        }
        match digits_up_to(s, start, i32::MAX as u64) {
            Some(v) => Some(v as i32),
            None => None,
        }
    }
}

/// The decimal digits of `n` are digits, at least one, and read back as `n`.
pub proof fn lemma_decimal_reads_back(n: nat)
    ensures
        decimal_spec(n).len() > 0,
        all_digits(decimal_spec(n)),
        digits_value(decimal_spec(n)) == n,
    decreases n,
{
    if n < 10 {
        let s = decimal_spec(n);
        assert(s == seq![digit_char_spec(n as int)]);
        assert(s.drop_last() =~= Seq::<char>::empty());
        assert((digit_char_spec(n as int) as u32) == 48 + n);
        assert(('0' as u32) == 48);
        assert(digits_value(s) == digits_value(s.drop_last()) * 10 + ((s.last() as u32) - ('0' as u32)) as nat);
    } else {
        lemma_decimal_reads_back(n / 10);
        let s = decimal_spec(n);
        let d = digit_char_spec((n % 10) as int);
        assert(s == decimal_spec(n / 10).push(d));
        assert(s.drop_last() =~= decimal_spec(n / 10));
        assert((d as u32) == 48 + n % 10);
        assert(s.last() == d);
        assert forall|i: int| 0 <= i < s.len() implies is_ascii_digit(#[trigger] s[i]) by {
            if i < s.len() - 1 {
                assert(s[i] == decimal_spec(n / 10)[i]);
            }
        }
        assert(('0' as u32) == 48);
        assert(digits_value(s) == digits_value(s.drop_last()) * 10 + ((s.last() as u32) - ('0' as u32)) as nat);
        assert((n / 10) * 10 + n % 10 == n);
    }
}

/// `u32::to_string` followed by `str::parse::<u32>` gives the number back.
pub proof fn lemma_parse_u32_of_decimal(n: u32)
    ensures
        parse_u32_spec(decimal_spec(n as nat)) == Some(n),
{
    lemma_decimal_reads_back(n as nat);
    let s = decimal_spec(n as nat);
    assert(is_ascii_digit(s[0]));
}

/// `i32::to_string` followed by `str::parse::<i32>` gives the number back.
pub proof fn lemma_parse_i32_of_decimal(v: i32)
    ensures
        parse_i32_spec(signed_decimal_spec(v as int)) == Some(v),
{
    if v < 0 {
        let m: nat = (-v) as nat;
        lemma_decimal_reads_back(m);
        let s = signed_decimal_spec(v as int);
        assert(s == seq!['-'] + decimal_spec(m));
        assert(s.subrange(1, s.len() as int) =~= decimal_spec(m));
    } else {
        lemma_decimal_reads_back(v as nat);
        let s = decimal_spec(v as nat);
        assert(is_ascii_digit(s[0]));
    }
}

} // verus!
