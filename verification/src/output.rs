use crate::config::paths::{ends_with_spec, is_plain_component, is_verbatim, join_path, joined_path};
use crate::text::{chars_of, decimal_spec, digit_char_spec, push_decimal, string_from_chars};
use crate::numparse::{all_digits, digits_value, lemma_decimal_reads_back};
use vstd::prelude::*;

verus! {

/// A calendar day, as the local clock gives it.
#[derive(Debug, Clone, Copy, PartialEq, Eq, Structural)]
pub struct CalendarDate {
    pub year: i32,
    pub month: u32,
    pub day: u32,
}

/// A local date and time of day, down to the nanosecond (a leap second
/// shows as a nanosecond count of a second or more).
#[derive(Debug, Clone, Copy, PartialEq, Eq, Structural)]
pub struct LocalTimestamp {
    pub date: CalendarDate,
    pub hour: u32,
    pub minute: u32,
    pub second: u32,
    pub nanosecond: u32,
}

impl CalendarDate {
    pub open spec fn wf(self) -> bool {
        &&& 1 <= self.month <= 12
        &&& 1 <= self.day <= 31
    }
}

impl LocalTimestamp {
    pub open spec fn wf(self) -> bool {
        &&& self.date.wf()
        &&& self.hour < 24
        &&& self.minute < 60
        &&& self.second < 60
        &&& self.nanosecond < 2_000_000_000
    }
}

/// The decimal digits of `n`, zero-padded on the left to at least `width`.
pub open spec fn padded_spec(n: nat, width: nat) -> Seq<char> {
    let digits = decimal_spec(n);
    if digits.len() < width {
        Seq::new((width - digits.len()) as nat, |i: int| '0') + digits
    } else {
        digits
    }
}

/// A year as the `%Y` format writes it: four digits at least, with a sign
/// before years outside 0 to 9999.
pub open spec fn year_spec(year: int) -> Seq<char> {
    if 0 <= year <= 9999 {
        padded_spec(year as nat, 4)
    } else if year < 0 {
        seq!['-'] + padded_spec((-year) as nat, 4)
    } else {
        seq!['+'] + padded_spec(year as nat, 4)
    }
}

/// The name of a day's folder, `YYYY-MM-DD`.
pub open spec fn day_folder_spec(date: CalendarDate) -> Seq<char> {
    year_spec(date.year as int) + seq!['-'] + padded_spec(date.month as nat, 2) + seq!['-']
        + padded_spec(date.day as nat, 2)
}

/// The file name of a capture taken at `now`: `OpenCapt_YYYYMMDD_HHMMSS_mmm.png`.
pub open spec fn capture_filename_spec(now: LocalTimestamp) -> Seq<char> {
    "OpenCapt_"@ + year_spec(now.date.year as int) + padded_spec(now.date.month as nat, 2)
        + padded_spec(now.date.day as nat, 2) + seq!['_'] + padded_spec(now.hour as nat, 2)
        + padded_spec(now.minute as nat, 2) + padded_spec(now.second as nat, 2) + seq!['_']
        + padded_spec((now.nanosecond / 1_000_000 % 1000) as nat, 3) + ".png"@
}

/// `s` is a run of decimal digits whose value is `n`.
pub open spec fn digits_for(s: Seq<char>, n: int) -> bool {
    all_digits(s) && digits_value(s) == n
}

/// The layout of a capture's file name for a year from 0 to 9999: 32
/// characters, `OpenCapt_`, the date as YYYYMMDD, `_`, the time as HHMMSS,
/// `_`, the milliseconds as three digits, `.png`; every field zero-padded.
pub open spec fn capture_filename_layout(f: Seq<char>, now: LocalTimestamp) -> bool {
    &&& f.len() == 32
    &&& f.subrange(0, 9) == "OpenCapt_"@
    &&& digits_for(f.subrange(9, 13), now.date.year as int)
    &&& digits_for(f.subrange(13, 15), now.date.month as int)
    &&& digits_for(f.subrange(15, 17), now.date.day as int)
    &&& f[17] == '_'
    &&& digits_for(f.subrange(18, 20), now.hour as int)
    &&& digits_for(f.subrange(20, 22), now.minute as int)
    &&& digits_for(f.subrange(22, 24), now.second as int)
    &&& f[24] == '_'
    &&& digits_for(f.subrange(25, 28), (now.nanosecond / 1_000_000 % 1000) as int)
    &&& f.subrange(28, 32) == ".png"@
}

pub open spec fn pow10(w: nat) -> nat
    decreases w,
{
    if w == 0 { 1 } else { 10 * pow10((w - 1) as nat) }
}

proof fn lemma_decimal_len_bound(n: nat, w: nat)
    requires
        1 <= w,
        n < pow10(w),
    ensures
        decimal_spec(n).len() <= w,
    decreases n,
{
    if n >= 10 {
        assert(w >= 2) by {
            if w == 1 {
                assert(pow10(1) == 10 * pow10(0));
            }
        }
        let v = (w - 1) as nat;
        assert(pow10(w) == 10 * pow10(v));
        assert(n / 10 < pow10(v)) by (nonlinear_arith)
            requires n < 10 * pow10(v);
        lemma_decimal_len_bound(n / 10, v);
    }
}

proof fn lemma_zeros_value(k: nat, d: Seq<char>)
    ensures
        digits_value(Seq::new(k, |i: int| '0') + d) == digits_value(d),
    decreases d.len() + k,
{
    let z = Seq::new(k, |i: int| '0');
    if d.len() == 0 {
        assert(z + d =~= z);
        if k > 0 {
            let z1 = Seq::new((k - 1) as nat, |i: int| '0');
            assert(z.drop_last() =~= z1 + Seq::<char>::empty());
            lemma_zeros_value((k - 1) as nat, Seq::<char>::empty());
            assert(z1 + Seq::<char>::empty() =~= z1);
            assert(digits_value(Seq::<char>::empty()) == 0);
            assert(z.last() == '0');
        }
    } else {
        assert((z + d).drop_last() =~= z + d.drop_last());
        assert((z + d).last() == d.last());
        lemma_zeros_value(k, d.drop_last());
    }
}

/// A number below `10^width`, zero-padded to `width`, is exactly `width`
/// digits that read back as the number.
pub proof fn lemma_padded_reads_back(n: nat, w: nat)
    requires
        1 <= w,
        n < pow10(w),
    ensures
        padded_spec(n, w).len() == w,
        digits_for(padded_spec(n, w), n as int),
{
    lemma_decimal_reads_back(n);
    lemma_decimal_len_bound(n, w);
    let d = decimal_spec(n);
    if d.len() < w {
        let z = Seq::new((w - d.len()) as nat, |i: int| '0');
        lemma_zeros_value((w - d.len()) as nat, d);
        assert forall|i: int| 0 <= i < (z + d).len() implies crate::numparse::is_ascii_digit(#[trigger] (z + d)[i]) by {
            if i >= z.len() {
                assert((z + d)[i] == d[i - z.len()]);
            }
        }
    }
}

/// A capture's file name has the fixed layout `capture_filename_layout`
/// describes, for every time of day and every year from 0 to 9999.
pub proof fn lemma_capture_filename_layout(now: LocalTimestamp)
    requires
        now.wf(),
        0 <= now.date.year <= 9999,
    ensures
        capture_filename_layout(capture_filename_spec(now), now),
{
    reveal_strlit("OpenCapt_");
    reveal_strlit(".png");
    assert(pow10(2) == 100 && pow10(3) == 1000 && pow10(4) == 10000) by {
        assert(pow10(0) == 1);
        assert(pow10(1) == 10);
        assert(pow10(2) == 100);
        assert(pow10(3) == 1000);
    }
    let ms = (now.nanosecond / 1_000_000 % 1000) as nat;
    lemma_padded_reads_back(now.date.year as nat, 4);
    lemma_padded_reads_back(now.date.month as nat, 2);
    lemma_padded_reads_back(now.date.day as nat, 2);
    lemma_padded_reads_back(now.hour as nat, 2);
    lemma_padded_reads_back(now.minute as nat, 2);
    lemma_padded_reads_back(now.second as nat, 2);
    lemma_padded_reads_back(ms, 3);
    let y = padded_spec(now.date.year as nat, 4);
    let mo = padded_spec(now.date.month as nat, 2);
    let d = padded_spec(now.date.day as nat, 2);
    let h = padded_spec(now.hour as nat, 2);
    let mi = padded_spec(now.minute as nat, 2);
    let se = padded_spec(now.second as nat, 2);
    let m3 = padded_spec(ms, 3);
    assert(year_spec(now.date.year as int) == y);
    let f = capture_filename_spec(now);
    assert(f == "OpenCapt_"@ + y + mo + d + seq!['_'] + h + mi + se + seq!['_'] + m3 + ".png"@);
    assert(f.subrange(0, 9) =~= "OpenCapt_"@);
    assert(f.subrange(9, 13) =~= y);
    assert(f.subrange(13, 15) =~= mo);
    assert(f.subrange(15, 17) =~= d);
    assert(f.subrange(18, 20) =~= h);
    assert(f.subrange(20, 22) =~= mi);
    assert(f.subrange(22, 24) =~= se);
    assert(f.subrange(25, 28) =~= m3);
    assert(f.subrange(28, 32) =~= ".png"@);
}

/// The layout of a day's folder name for a year from 0 to 9999: ten
/// characters, the year as four digits, `-`, the month as two, `-`, the day
/// as two.
pub open spec fn day_folder_layout(f: Seq<char>, date: CalendarDate) -> bool {
    &&& f.len() == 10
    &&& digits_for(f.subrange(0, 4), date.year as int)
    &&& f[4] == '-'
    &&& digits_for(f.subrange(5, 7), date.month as int)
    &&& f[7] == '-'
    &&& digits_for(f.subrange(8, 10), date.day as int)
}

/// A day's folder name has the fixed layout `day_folder_layout` describes,
/// for every year from 0 to 9999.
pub proof fn lemma_day_folder_layout(date: CalendarDate)
    requires
        date.wf(),
        0 <= date.year <= 9999,
    ensures
        day_folder_layout(day_folder_spec(date), date),
{
    assert(pow10(0) == 1);
    assert(pow10(1) == 10);
    assert(pow10(2) == 100);
    assert(pow10(3) == 1000);
    assert(pow10(4) == 10000);
    lemma_padded_reads_back(date.year as nat, 4);
    lemma_padded_reads_back(date.month as nat, 2);
    lemma_padded_reads_back(date.day as nat, 2);
    let y = padded_spec(date.year as nat, 4);
    let mo = padded_spec(date.month as nat, 2);
    let d = padded_spec(date.day as nat, 2);
    let f = day_folder_spec(date);
    assert(f == y + seq!['-'] + mo + seq!['-'] + d);
    assert(f.subrange(0, 4) =~= y);
    assert(f.subrange(5, 7) =~= mo);
    assert(f.subrange(8, 10) =~= d);
}

/// Every character of a decimal number is a digit.
proof fn lemma_decimal_digits(n: nat)
    ensures
        forall|i: int| 0 <= i < decimal_spec(n).len() ==> '0' <= #[trigger] decimal_spec(n)[i] <= '9',
    decreases n,
{
    if n >= 10 {
        lemma_decimal_digits(n / 10);
        assert forall|i: int| 0 <= i < decimal_spec(n).len() implies '0' <= #[trigger] decimal_spec(n)[i] <= '9' by {
            if i < decimal_spec(n / 10).len() {
                assert(decimal_spec(n)[i] == decimal_spec(n / 10)[i]);
            } else {
                assert(decimal_spec(n)[i] == digit_char_spec((n % 10) as int));
            }
        }
    }
}

/// Every character of a padded number is a digit.
proof fn lemma_padded_digits(n: nat, width: nat)
    ensures
        forall|i: int| 0 <= i < padded_spec(n, width).len() ==> '0' <= #[trigger] padded_spec(n, width)[i] <= '9',
{
    lemma_decimal_digits(n);
    let digits = decimal_spec(n);
    if digits.len() < width {
        let zeros = Seq::new((width - digits.len()) as nat, |i: int| '0');
        assert forall|i: int| 0 <= i < padded_spec(n, width).len() implies '0' <= #[trigger] padded_spec(n, width)[i] <= '9' by {
            if i < zeros.len() {
                assert(padded_spec(n, width)[i] == zeros[i]);
            } else {
                assert(padded_spec(n, width)[i] == digits[i - zeros.len()]);
            }
        }
    }
}

/// Appends `n` in decimal, zero-padded to at least `width` digits.
fn push_padded(out: &mut Vec<char>, n: usize, width: usize)
    requires
        width <= 4,
    ensures
        final(out)@ == old(out)@ + padded_spec(n as nat, width as nat),
{
    let mut digits: Vec<char> = Vec::new();
    push_decimal(&mut digits, n);
    assert(digits@ =~= decimal_spec(n as nat));
    let mut k: usize = digits.len();
    let ghost start = out@;
    while k < width
        invariant
            digits@ == decimal_spec(n as nat),
            digits@.len() <= k,
            k <= width || k == digits@.len(),
            out@ == start + Seq::new((k - digits@.len()) as nat, |i: int| '0'),
        decreases width - k,
    {
        out.push('0');
        proof {
            assert(Seq::new((k - digits@.len()) as nat, |i: int| '0').push('0')
                =~= Seq::new((k + 1 - digits@.len()) as nat, |i: int| '0'));
        }
        k = k + 1;
    }
    let mut j: usize = 0;
    let ghost pre = out@;
    while j < digits.len()
        invariant
            j <= digits@.len(),
            out@ == pre + digits@.subrange(0, j as int),
        decreases digits@.len() - j,
    {
        out.push(digits[j]);
        proof {
            assert(digits@.subrange(0, j + 1) =~= digits@.subrange(0, j as int).push(digits@[j as int]));
        }
        j = j + 1;
    }
    proof {
        assert(digits@.subrange(0, digits@.len() as int) =~= digits@);
        if digits@.len() < width {
            assert(out@ =~= old(out)@ + padded_spec(n as nat, width as nat));
        } else {
            assert(Seq::new(0nat, |i: int| '0') =~= Seq::<char>::empty());
            assert(out@ =~= old(out)@ + padded_spec(n as nat, width as nat));
        }
    }
}

/// Appends a year as `%Y` writes it.
fn push_year(out: &mut Vec<char>, year: i32)
    ensures
        final(out)@ == old(out)@ + year_spec(year as int),
{
    if 0 <= year && year <= 9999 {
        push_padded(out, year as usize, 4);
    } else if year < 0 {
        out.push('-');
        let magnitude: usize = (0i64 - year as i64) as usize;
        push_padded(out, magnitude, 4);
        assert(out@ =~= old(out)@ + year_spec(year as int));
    } else {
        out.push('+');
        push_padded(out, year as usize, 4);
        assert(out@ =~= old(out)@ + year_spec(year as int));
    }
}

/// Appends the characters of a text.
fn push_str(out: &mut Vec<char>, s: &str)
    ensures
        final(out)@ == old(out)@ + s@,
{
    let chars = chars_of(s);
    let mut j: usize = 0;
    let ghost pre = out@;
    while j < chars.len()
        invariant
            j <= chars@.len(),
            chars@ == s@,
            out@ == pre + chars@.subrange(0, j as int),
        decreases chars@.len() - j,
    {
        out.push(chars[j]);
        proof {
            assert(chars@.subrange(0, j + 1) =~= chars@.subrange(0, j as int).push(chars@[j as int]));
        }
        j = j + 1;
    }
    assert(chars@.subrange(0, chars@.len() as int) =~= chars@);
}

/// The file name a capture taken at `now` is saved under.
pub fn build_capture_filename(now: LocalTimestamp) -> (r: String)
    requires
        now.wf(),
    ensures
        r@ == capture_filename_spec(now),
        0 <= now.date.year <= 9999 ==> capture_filename_layout(r@, now),
{
    proof {
        if 0 <= now.date.year <= 9999 {
            lemma_capture_filename_layout(now);
        }
    }
    let mut out: Vec<char> = Vec::new();
    push_str(&mut out, "OpenCapt_");
    push_year(&mut out, now.date.year);
    push_padded(&mut out, now.date.month as usize, 2);
    push_padded(&mut out, now.date.day as usize, 2);
    out.push('_');
    push_padded(&mut out, now.hour as usize, 2);
    push_padded(&mut out, now.minute as usize, 2);
    push_padded(&mut out, now.second as usize, 2);
    out.push('_');
    push_padded(&mut out, (now.nanosecond / 1_000_000 % 1000) as usize, 3);
    push_str(&mut out, ".png");
    assert(out@ =~= capture_filename_spec(now));
    string_from_chars(out.as_slice())
}

/// The name of the folder a day's captures go in.
pub fn day_folder_name(date: CalendarDate) -> (r: String)
    requires
        date.wf(),
    ensures
        r@ == day_folder_spec(date),
        is_plain_component(r@),
        0 <= date.year <= 9999 ==> day_folder_layout(r@, date),
{
    proof {
        if 0 <= date.year <= 9999 {
            lemma_day_folder_layout(date);
        }
    }
    let mut out: Vec<char> = Vec::new();
    push_year(&mut out, date.year);
    out.push('-');
    push_padded(&mut out, date.month as usize, 2);
    out.push('-');
    push_padded(&mut out, date.day as usize, 2);
    assert(out@ =~= day_folder_spec(date));
    proof {
        let y = date.year as int;
        let ys = year_spec(y);
        if 0 <= y <= 9999 {
            lemma_padded_digits(y as nat, 4);
        } else if y < 0 {
            lemma_padded_digits((-y) as nat, 4);
        } else {
            lemma_padded_digits(y as nat, 4);
        }
        assert forall|i: int| 0 <= i < ys.len() implies ys[i] != '/' && ys[i] != '\\' && ys[i] != ':' by {
            if 0 <= y <= 9999 {
            } else if y < 0 {
                if i > 0 {
                    assert(ys[i] == padded_spec((-y) as nat, 4)[i - 1]);
                }
            } else {
                if i > 0 {
                    assert(ys[i] == padded_spec(y as nat, 4)[i - 1]);
                }
            }
        }
        lemma_padded_digits(date.month as nat, 2);
        lemma_padded_digits(date.day as nat, 2);
        let ms = padded_spec(date.month as nat, 2);
        let ds = padded_spec(date.day as nat, 2);
        let name = day_folder_spec(date);
        assert forall|i: int| 0 <= i < name.len() implies name[i] != '/' && name[i] != '\\' && name[i] != ':' by {
            if i < ys.len() {
                assert(name[i] == ys[i]);
            } else if i == ys.len() {
            } else if i < ys.len() + 1 + ms.len() {
                assert(name[i] == ms[i - ys.len() - 1]);
            } else if i == ys.len() + 1 + ms.len() {
            } else {
                assert(name[i] == ds[i - ys.len() - 2 - ms.len()]);
            }
        }
    }
    string_from_chars(out.as_slice())
}

/// The folder under `base_dir` that the captures of `date` go in.
pub fn dated_output_dir(base_dir: &str, date: CalendarDate) -> (r: String)
    requires
        date.wf(),
    ensures
        ends_with_spec(r@, day_folder_spec(date)),
        !is_verbatim(base_dir@) ==> joined_path(r@, base_dir@, day_folder_spec(date)),
{
    let name = day_folder_name(date);
    proof {
        reveal_strlit(".");
        reveal_strlit("..");
    }
    join_path(base_dir, name.as_str())
}

} // verus!
