use crate::text::{chars_of, trim_chars, trim_spec};
use vstd::prelude::*;

verus! {

/// The non-modifier key of a global hotkey.
#[derive(Debug, Clone, Copy, PartialEq, Eq, Structural)]
pub enum HotkeyKey {
    /// `A`..`Z`, by offset from `A`.
    Letter(u8),
    /// `0`..`9`.
    Digit(u8),
    /// `F1`..`F24`.
    Function(u8),
    Space,
    Escape,
    Enter,
    Tab,
    Backspace,
    Delete,
    Insert,
    Home,
    End,
    PageUp,
    PageDown,
    ArrowUp,
    ArrowDown,
    ArrowLeft,
    ArrowRight,
    PrintScreen,
}

/// A parsed hotkey: the modifiers held and the one key pressed.
#[derive(Debug, Clone, Copy, PartialEq, Eq, Structural)]
pub struct HotkeySpec {
    pub control: bool,
    pub shift: bool,
    pub alt: bool,
    pub super_key: bool,
    pub key: HotkeyKey,
}

/// Why a hotkey text was rejected.
#[derive(Debug, Clone, Copy, PartialEq, Eq, Structural)]
pub enum HotkeyError {
    /// More than one non-modifier key was named.
    MultipleKeys,
    /// Only modifiers were named.
    MissingKey,
    /// The `+`-separated part with this index names no known key.
    UnsupportedKey { part_index: usize },
}

pub open spec fn ascii_lower_spec(c: char) -> char {
    if 'A' <= c && c <= 'Z' {
        ((c as u32) + 32) as char
    } else {
        c
    }
}

/// `a` equals the lower-case keyword `kw`, ignoring ASCII case.
pub open spec fn eq_ignore_case_spec(a: Seq<char>, kw: Seq<char>) -> bool {
    a.len() == kw.len() && forall|i: int| 0 <= i < a.len() ==> ascii_lower_spec(#[trigger] a[i]) == kw[i]
}

/// The `+`-separated parts of `s`, as `str::split('+')` yields them.
pub open spec fn split_plus_spec(s: Seq<char>) -> Seq<Seq<char>>
    decreases s.len(),
{
    if s.len() == 0 {
        seq![Seq::<char>::empty()]
    } else {
        let rest = split_plus_spec(s.drop_last());
        if s.last() == '+' {
            rest.push(Seq::<char>::empty())
        } else {
            rest.update(rest.len() - 1, rest.last().push(s.last()))
        }
    }
}

pub open spec fn is_control_word(p: Seq<char>) -> bool {
    eq_ignore_case_spec(p, "ctrl"@) || eq_ignore_case_spec(p, "control"@)
}

pub open spec fn is_shift_word(p: Seq<char>) -> bool {
    eq_ignore_case_spec(p, "shift"@)
}

pub open spec fn is_alt_word(p: Seq<char>) -> bool {
    eq_ignore_case_spec(p, "alt"@)
}

pub open spec fn is_super_word(p: Seq<char>) -> bool {
    eq_ignore_case_spec(p, "win"@) || eq_ignore_case_spec(p, "super"@) || eq_ignore_case_spec(p, "meta"@)
        || eq_ignore_case_spec(p, "cmd"@) || eq_ignore_case_spec(p, "command"@)
}

pub open spec fn is_modifier_word(p: Seq<char>) -> bool {
    is_control_word(p) || is_shift_word(p) || is_alt_word(p) || is_super_word(p)
}

pub open spec fn digit_value(c: char) -> int {
    (c as u32) - ('0' as u32)
}

pub open spec fn is_digit_char(c: char) -> bool {
    '0' <= c && c <= '9'
}

/// The function key number named by `p` (`F1`..`F24`, no leading zero).
pub open spec fn function_key_number(p: Seq<char>) -> Option<int> {
    if (p.len() == 2 || p.len() == 3) && ascii_lower_spec(p[0]) == 'f' && '1' <= p[1] && p[1] <= '9' {
        if p.len() == 2 {
            Some(digit_value(p[1]))
        } else if is_digit_char(p[2]) && 10 * digit_value(p[1]) + digit_value(p[2]) <= 24 {
            Some(10 * digit_value(p[1]) + digit_value(p[2]))
        } else {
            None
        }
    } else {
        None
    }
}

/// The key named by a (trimmed, non-modifier) part, ignoring ASCII case.
pub open spec fn key_of_spec(p: Seq<char>) -> Option<HotkeyKey> {
    if p.len() == 1 && 'a' <= ascii_lower_spec(p[0]) && ascii_lower_spec(p[0]) <= 'z' {
        Some(HotkeyKey::Letter(((ascii_lower_spec(p[0]) as u32) - ('a' as u32)) as u8))
    } else if p.len() == 1 && is_digit_char(p[0]) {
        Some(HotkeyKey::Digit(digit_value(p[0]) as u8))
    } else if function_key_number(p) is Some {
        Some(HotkeyKey::Function(function_key_number(p).unwrap() as u8))
    } else if eq_ignore_case_spec(p, "space"@) {
        Some(HotkeyKey::Space)
    } else if eq_ignore_case_spec(p, "esc"@) || eq_ignore_case_spec(p, "escape"@) {
        Some(HotkeyKey::Escape)
    } else if eq_ignore_case_spec(p, "enter"@) {
        Some(HotkeyKey::Enter)
    } else if eq_ignore_case_spec(p, "tab"@) {
        Some(HotkeyKey::Tab)
    } else if eq_ignore_case_spec(p, "backspace"@) {
        Some(HotkeyKey::Backspace)
    } else if eq_ignore_case_spec(p, "delete"@) {
        Some(HotkeyKey::Delete)
    } else if eq_ignore_case_spec(p, "insert"@) {
        Some(HotkeyKey::Insert)
    } else if eq_ignore_case_spec(p, "home"@) {
        Some(HotkeyKey::Home)
    } else if eq_ignore_case_spec(p, "end"@) {
        Some(HotkeyKey::End)
    } else if eq_ignore_case_spec(p, "pageup"@) {
        Some(HotkeyKey::PageUp)
    } else if eq_ignore_case_spec(p, "pagedown"@) {
        Some(HotkeyKey::PageDown)
    } else if eq_ignore_case_spec(p, "up"@) {
        Some(HotkeyKey::ArrowUp)
    } else if eq_ignore_case_spec(p, "down"@) {
        Some(HotkeyKey::ArrowDown)
    } else if eq_ignore_case_spec(p, "left"@) {
        Some(HotkeyKey::ArrowLeft)
    } else if eq_ignore_case_spec(p, "right"@) {
        Some(HotkeyKey::ArrowRight)
    } else if eq_ignore_case_spec(p, "printscreen"@) {
        Some(HotkeyKey::PrintScreen)
    } else {
        None
    }
}

/// `p` (in any ASCII case) names key `k`: the letter or digit itself, `F`
/// and the number for a function key, or one of the key's words.
pub open spec fn key_named(k: HotkeyKey, p: Seq<char>) -> bool {
    match k {
        HotkeyKey::Letter(i) => i < 26 && p.len() == 1 && ascii_lower_spec(p[0]) as u32 == ('a' as u32) + i,
        HotkeyKey::Digit(d) => d < 10 && p.len() == 1 && p[0] as u32 == ('0' as u32) + d,
        HotkeyKey::Function(n) => {
            &&& 1 <= n <= 24
            &&& (p.len() == 2 || p.len() == 3)
            &&& ascii_lower_spec(p[0]) == 'f'
            &&& p[1] != '0'
            &&& crate::numparse::all_digits(p.skip(1))
            &&& crate::numparse::digits_value(p.skip(1)) == n
        },
        HotkeyKey::Space => eq_ignore_case_spec(p, "space"@),
        HotkeyKey::Escape => eq_ignore_case_spec(p, "esc"@) || eq_ignore_case_spec(p, "escape"@),
        HotkeyKey::Enter => eq_ignore_case_spec(p, "enter"@),
        HotkeyKey::Tab => eq_ignore_case_spec(p, "tab"@),
        HotkeyKey::Backspace => eq_ignore_case_spec(p, "backspace"@),
        HotkeyKey::Delete => eq_ignore_case_spec(p, "delete"@),
        HotkeyKey::Insert => eq_ignore_case_spec(p, "insert"@),
        HotkeyKey::Home => eq_ignore_case_spec(p, "home"@),
        HotkeyKey::End => eq_ignore_case_spec(p, "end"@),
        HotkeyKey::PageUp => eq_ignore_case_spec(p, "pageup"@),
        HotkeyKey::PageDown => eq_ignore_case_spec(p, "pagedown"@),
        HotkeyKey::ArrowUp => eq_ignore_case_spec(p, "up"@),
        HotkeyKey::ArrowDown => eq_ignore_case_spec(p, "down"@),
        HotkeyKey::ArrowLeft => eq_ignore_case_spec(p, "left"@),
        HotkeyKey::ArrowRight => eq_ignore_case_spec(p, "right"@),
        HotkeyKey::PrintScreen => eq_ignore_case_spec(p, "printscreen"@),
    }
}

/// A part names a key exactly when it spells one of that key's names, so
/// no part names two keys and each key's names lead to it alone.
pub proof fn lemma_key_names(p: Seq<char>, k: HotkeyKey)
    ensures
        key_of_spec(p) == Some(k) <==> key_named(k, p),
{
    reveal_strlit("space");
    reveal_strlit("esc");
    reveal_strlit("escape");
    reveal_strlit("enter");
    reveal_strlit("tab");
    reveal_strlit("backspace");
    reveal_strlit("delete");
    reveal_strlit("insert");
    reveal_strlit("home");
    reveal_strlit("end");
    reveal_strlit("pageup");
    reveal_strlit("pagedown");
    reveal_strlit("up");
    reveal_strlit("down");
    reveal_strlit("left");
    reveal_strlit("right");
    reveal_strlit("printscreen");
    lemma_function_key_digits(p);
    if p.len() >= 1 {
        assert(ascii_lower_spec(p[0]) == ascii_lower_spec(p[0]));
    }
    if p.len() >= 2 {
        assert(ascii_lower_spec(p[1]) == ascii_lower_spec(p[1]));
    }
    if p.len() >= 3 {
        assert(ascii_lower_spec(p[2]) == ascii_lower_spec(p[2]));
    }
    match k {
        HotkeyKey::Letter(i) => {
            assert(key_of_spec(p) == Some(k) ==> key_named(k, p));
            assert(key_named(k, p) ==> key_of_spec(p) == Some(k));
        },
        HotkeyKey::Digit(d) => {
            assert(key_of_spec(p) == Some(k) ==> key_named(k, p));
            assert(key_named(k, p) ==> key_of_spec(p) == Some(k));
        },
        HotkeyKey::Function(n) => {
            assert(key_of_spec(p) == Some(k) ==> key_named(k, p));
            assert(key_named(k, p) ==> key_of_spec(p) == Some(k));
        },
        _ => {
            lemma_eq_lowered(p, "space"@);
            lemma_eq_lowered(p, "esc"@);
            lemma_eq_lowered(p, "escape"@);
            lemma_eq_lowered(p, "enter"@);
            lemma_eq_lowered(p, "tab"@);
            lemma_eq_lowered(p, "backspace"@);
            lemma_eq_lowered(p, "delete"@);
            lemma_eq_lowered(p, "insert"@);
            lemma_eq_lowered(p, "home"@);
            lemma_eq_lowered(p, "end"@);
            lemma_eq_lowered(p, "pageup"@);
            lemma_eq_lowered(p, "pagedown"@);
            lemma_eq_lowered(p, "up"@);
            lemma_eq_lowered(p, "down"@);
            lemma_eq_lowered(p, "left"@);
            lemma_eq_lowered(p, "right"@);
            lemma_eq_lowered(p, "printscreen"@);
            if p.len() >= 1 {
                assert(lowered(p)[0] == ascii_lower_spec(p[0]));
            }
            match k {
                HotkeyKey::Space => {
                    assert(key_of_spec(p) == Some(k) ==> key_named(k, p));
                    assert(key_named(k, p) ==> key_of_spec(p) == Some(k));
                },
                HotkeyKey::Escape => {
                    assert(key_of_spec(p) == Some(k) ==> key_named(k, p));
                    assert(key_named(k, p) ==> key_of_spec(p) == Some(k));
                },
                HotkeyKey::Enter => {
                    assert(key_of_spec(p) == Some(k) ==> key_named(k, p));
                    assert(key_named(k, p) ==> key_of_spec(p) == Some(k));
                },
                HotkeyKey::Tab => {
                    assert(key_of_spec(p) == Some(k) ==> key_named(k, p));
                    assert(key_named(k, p) ==> key_of_spec(p) == Some(k));
                },
                HotkeyKey::Backspace => {
                    assert(key_of_spec(p) == Some(k) ==> key_named(k, p));
                    assert(key_named(k, p) ==> key_of_spec(p) == Some(k));
                },
                HotkeyKey::Delete => {
                    assert(key_of_spec(p) == Some(k) ==> key_named(k, p));
                    assert(key_named(k, p) ==> key_of_spec(p) == Some(k));
                },
                HotkeyKey::Insert => {
                    assert(key_of_spec(p) == Some(k) ==> key_named(k, p));
                    assert(key_named(k, p) ==> key_of_spec(p) == Some(k));
                },
                HotkeyKey::Home => {
                    assert(key_of_spec(p) == Some(k) ==> key_named(k, p));
                    assert(key_named(k, p) ==> key_of_spec(p) == Some(k));
                },
                HotkeyKey::End => {
                    assert("end"@[1] != "esc"@[1]);
                    assert("end"@ != "esc"@);
                    assert(key_of_spec(p) == Some(k) ==> key_named(k, p));
                    assert(key_named(k, p) ==> key_of_spec(p) == Some(k));
                },
                HotkeyKey::PageUp => {
                    assert(key_of_spec(p) == Some(k) ==> key_named(k, p));
                    assert(key_named(k, p) ==> key_of_spec(p) == Some(k));
                },
                HotkeyKey::PageDown => {
                    assert(key_of_spec(p) == Some(k) ==> key_named(k, p));
                    assert(key_named(k, p) ==> key_of_spec(p) == Some(k));
                },
                HotkeyKey::ArrowUp => {
                    assert(key_of_spec(p) == Some(k) ==> key_named(k, p));
                    assert(key_named(k, p) ==> key_of_spec(p) == Some(k));
                },
                HotkeyKey::ArrowDown => {
                    assert(key_of_spec(p) == Some(k) ==> key_named(k, p));
                    assert(key_named(k, p) ==> key_of_spec(p) == Some(k));
                },
                HotkeyKey::ArrowLeft => {
                    assert(key_of_spec(p) == Some(k) ==> key_named(k, p));
                    assert(key_named(k, p) ==> key_of_spec(p) == Some(k));
                },
                HotkeyKey::ArrowRight => {
                    assert(key_of_spec(p) == Some(k) ==> key_named(k, p));
                    assert(key_named(k, p) ==> key_of_spec(p) == Some(k));
                },
                HotkeyKey::PrintScreen => {
                    assert(key_of_spec(p) == Some(k) ==> key_named(k, p));
                    assert(key_named(k, p) ==> key_of_spec(p) == Some(k));
                },
                _ => {},
            }
        },
    }
}

/// `p` with its ASCII letters in lower case.
pub open spec fn lowered(p: Seq<char>) -> Seq<char> {
    p.map_values(|c: char| ascii_lower_spec(c))
}

proof fn lemma_eq_lowered(p: Seq<char>, w: Seq<char>)
    ensures
        eq_ignore_case_spec(p, w) <==> lowered(p) == w,
{
    if eq_ignore_case_spec(p, w) {
        assert(lowered(p) =~= w);
    }
    if lowered(p) == w {
        assert forall|i: int| 0 <= i < p.len() implies ascii_lower_spec(#[trigger] p[i]) == w[i] by {
            assert(lowered(p)[i] == ascii_lower_spec(p[i]));
        }
    }
}

/// A function key's number read from its digits.
proof fn lemma_function_key_digits(p: Seq<char>)
    ensures
        function_key_number(p) is Some <==> ((p.len() == 2 || p.len() == 3) && ascii_lower_spec(p[0]) == 'f'
            && p[1] != '0' && crate::numparse::all_digits(p.skip(1)) && 1 <= crate::numparse::digits_value(p.skip(1)) <= 24),
        function_key_number(p) is Some ==> function_key_number(p).unwrap() == crate::numparse::digits_value(p.skip(1)),
{
    if p.len() == 2 || p.len() == 3 {
        let t = p.skip(1);
        assert(t[0] == p[1]);
        assert(crate::numparse::digits_value(Seq::<char>::empty()) == 0);
        if p.len() == 2 {
            assert(t.drop_last() =~= Seq::<char>::empty());
            assert(t.last() == p[1]);
            assert(crate::numparse::digits_value(t) == ((p[1] as u32) - ('0' as u32)) as nat);
            assert(crate::numparse::all_digits(t) <==> is_digit_char(p[1]));
        } else {
            assert(t[1] == p[2]);
            let h = seq![p[1]];
            assert(t.drop_last() =~= h);
            assert(h.drop_last() =~= Seq::<char>::empty());
            assert(crate::numparse::digits_value(h) == ((p[1] as u32) - ('0' as u32)) as nat);
            assert(crate::numparse::digits_value(t) == crate::numparse::digits_value(h) * 10 + ((p[2] as u32) - ('0' as u32)) as nat);
            assert(crate::numparse::all_digits(t) <==> (is_digit_char(p[1]) && is_digit_char(p[2])));
        }
    }
}

/// What has been read of a hotkey after some of its parts.
pub struct HotkeyAcc {
    pub control: bool,
    pub shift: bool,
    pub alt: bool,
    pub super_key: bool,
    pub key: Option<HotkeyKey>,
}

pub open spec fn empty_acc() -> HotkeyAcc {
    HotkeyAcc { control: false, shift: false, alt: false, super_key: false, key: None }
}

/// Reading one trimmed part at position `index`.
pub open spec fn hotkey_step(acc: HotkeyAcc, part: Seq<char>, index: int) -> Result<HotkeyAcc, HotkeyError> {
    if part.len() == 0 {
        Ok(acc)
    } else if is_control_word(part) {
        Ok(HotkeyAcc { control: true, ..acc })
    } else if is_shift_word(part) {
        Ok(HotkeyAcc { shift: true, ..acc })
    } else if is_alt_word(part) {
        Ok(HotkeyAcc { alt: true, ..acc })
    } else if is_super_word(part) {
        Ok(HotkeyAcc { super_key: true, ..acc })
    } else if acc.key is Some {
        Err(HotkeyError::MultipleKeys)
    } else {
        match key_of_spec(part) {
            Some(k) => Ok(HotkeyAcc { key: Some(k), ..acc }),
            None => Err(HotkeyError::UnsupportedKey { part_index: index as usize }),
        }
    }
}

/// Reading the first `n` parts, stopping at the first error.
pub open spec fn hotkey_fold(parts: Seq<Seq<char>>, n: int) -> Result<HotkeyAcc, HotkeyError>
    decreases n,
{
    if n <= 0 {
        Ok(empty_acc())
    } else {
        match hotkey_fold(parts, n - 1) {
            Err(e) => Err(e),
            Ok(acc) => hotkey_step(acc, trim_spec(parts[n - 1]), n - 1),
        }
    }
}

/// The hotkey that a text such as `Ctrl+Shift+A` names.
pub open spec fn parse_hotkey_spec(s: Seq<char>) -> Result<HotkeySpec, HotkeyError> {
    let parts = split_plus_spec(s);
    match hotkey_fold(parts, parts.len() as int) {
        Err(e) => Err(e),
        Ok(acc) => match acc.key {
            None => Err(HotkeyError::MissingKey),
            Some(k) => Ok(HotkeySpec {
                control: acc.control,
                shift: acc.shift,
                alt: acc.alt,
                super_key: acc.super_key,
                key: k,
            }),
        },
    }
}

/// The modifier words.
#[derive(Debug, Clone, Copy, PartialEq, Eq, Structural)]
pub enum ModifierWord {
    Control,
    Shift,
    Alt,
    Super,
}

pub open spec fn is_modifier_named(m: ModifierWord, p: Seq<char>) -> bool {
    match m {
        ModifierWord::Control => is_control_word(p),
        ModifierWord::Shift => is_shift_word(p),
        ModifierWord::Alt => is_alt_word(p),
        ModifierWord::Super => is_super_word(p),
    }
}

/// One of the first `n` parts, trimmed, names modifier `m`.
pub open spec fn some_part_names_modifier(parts: Seq<Seq<char>>, n: int, m: ModifierWord) -> bool {
    exists|i: int| 0 <= i < n && #[trigger] is_modifier_named(m, trim_spec(parts[i]))
}

/// One of the first `n` parts, trimmed, names key `k`.
pub open spec fn some_part_names_key(parts: Seq<Seq<char>>, n: int, k: HotkeyKey) -> bool {
    exists|i: int| 0 <= i < n && #[trigger] key_named(k, trim_spec(parts[i]))
}

/// What the parts read so far say: each modifier is held exactly when one
/// of the parts names it, and the key is one that a part names.
pub open spec fn acc_matches_parts(acc: HotkeyAcc, parts: Seq<Seq<char>>, n: int) -> bool {
    &&& acc.control == some_part_names_modifier(parts, n, ModifierWord::Control)
    &&& acc.shift == some_part_names_modifier(parts, n, ModifierWord::Shift)
    &&& acc.alt == some_part_names_modifier(parts, n, ModifierWord::Alt)
    &&& acc.super_key == some_part_names_modifier(parts, n, ModifierWord::Super)
    &&& acc.key matches Some(k) ==> some_part_names_key(parts, n, k)
}

proof fn lemma_modifier_words_apart(p: Seq<char>)
    ensures
        is_control_word(p) ==> !is_shift_word(p) && !is_alt_word(p) && !is_super_word(p),
        is_shift_word(p) ==> !is_alt_word(p) && !is_super_word(p),
        is_alt_word(p) ==> !is_super_word(p),
        p.len() == 0 ==> !is_control_word(p) && !is_shift_word(p) && !is_alt_word(p) && !is_super_word(p),
{
    reveal_strlit("ctrl");
    reveal_strlit("control");
    reveal_strlit("shift");
    reveal_strlit("alt");
    reveal_strlit("win");
    reveal_strlit("super");
    reveal_strlit("meta");
    reveal_strlit("cmd");
    reveal_strlit("command");
    lemma_eq_lowered(p, "ctrl"@);
    lemma_eq_lowered(p, "control"@);
    lemma_eq_lowered(p, "shift"@);
    lemma_eq_lowered(p, "alt"@);
    lemma_eq_lowered(p, "win"@);
    lemma_eq_lowered(p, "super"@);
    lemma_eq_lowered(p, "meta"@);
    lemma_eq_lowered(p, "cmd"@);
    lemma_eq_lowered(p, "command"@);
    assert("ctrl"@[0] != "meta"@[0]);
    assert("ctrl"@ != "meta"@);
    assert("alt"@[0] != "win"@[0] && "alt"@[0] != "cmd"@[0]);
    assert("alt"@ != "win"@ && "alt"@ != "cmd"@);
    assert("control"@[0] != "command"@[0] || "control"@[2] != "command"@[2]);
    assert("control"@ != "command"@);
    assert("shift"@[0] != "super"@[1]);
    assert("shift"@ != "super"@);
}

proof fn lemma_fold_matches_parts(parts: Seq<Seq<char>>, n: int)
    requires
        0 <= n <= parts.len(),
    ensures
        hotkey_fold(parts, n) matches Ok(acc) ==> acc_matches_parts(acc, parts, n),
    decreases n,
{
    if n > 0 {
        lemma_fold_matches_parts(parts, n - 1);
        if hotkey_fold(parts, n - 1) is Ok {
            let acc = hotkey_fold(parts, n - 1).unwrap();
            let part = trim_spec(parts[n - 1]);
            lemma_modifier_words_apart(part);
            assert forall|m: ModifierWord| #![trigger some_part_names_modifier(parts, n, m)]
                some_part_names_modifier(parts, n, m) == (some_part_names_modifier(parts, n - 1, m)
                    || is_modifier_named(m, part)) by {
                if some_part_names_modifier(parts, n, m) {
                    let i = choose|i: int| 0 <= i < n && #[trigger] is_modifier_named(m, trim_spec(parts[i]));
                    if i < n - 1 {
                        assert(is_modifier_named(m, trim_spec(parts[i])));
                    }
                }
                if is_modifier_named(m, part) {
                    assert(is_modifier_named(m, trim_spec(parts[n - 1])));
                }
            }
            assert(is_modifier_named(ModifierWord::Control, part) == is_control_word(part));
            assert(is_modifier_named(ModifierWord::Shift, part) == is_shift_word(part));
            assert(is_modifier_named(ModifierWord::Alt, part) == is_alt_word(part));
            assert(is_modifier_named(ModifierWord::Super, part) == is_super_word(part));
            assert(some_part_names_modifier(parts, n, ModifierWord::Control) == (some_part_names_modifier(parts, n - 1, ModifierWord::Control) || is_control_word(part)));
            assert(some_part_names_modifier(parts, n, ModifierWord::Shift) == (some_part_names_modifier(parts, n - 1, ModifierWord::Shift) || is_shift_word(part)));
            assert(some_part_names_modifier(parts, n, ModifierWord::Alt) == (some_part_names_modifier(parts, n - 1, ModifierWord::Alt) || is_alt_word(part)));
            assert(some_part_names_modifier(parts, n, ModifierWord::Super) == (some_part_names_modifier(parts, n - 1, ModifierWord::Super) || is_super_word(part)));
            assert(hotkey_fold(parts, n) == hotkey_step(acc, part, n - 1));
            if hotkey_fold(parts, n) is Ok {
                let next = hotkey_fold(parts, n).unwrap();
                assert(next.control == some_part_names_modifier(parts, n, ModifierWord::Control));
                assert(next.shift == some_part_names_modifier(parts, n, ModifierWord::Shift));
                assert(next.alt == some_part_names_modifier(parts, n, ModifierWord::Alt));
                assert(next.super_key == some_part_names_modifier(parts, n, ModifierWord::Super));
            }
            if hotkey_fold(parts, n) is Ok && hotkey_fold(parts, n).unwrap().key is Some {
                let k = hotkey_fold(parts, n).unwrap().key.unwrap();
                if acc.key is Some {
                    let i = choose|i: int| 0 <= i < n - 1 && #[trigger] key_named(k, trim_spec(parts[i]));
                    assert(key_named(k, trim_spec(parts[i])));
                } else {
                    lemma_key_names(part, k);
                    assert(key_named(k, trim_spec(parts[n - 1])));
                }
            }
        }
    }
}

/// A parsed hotkey holds a modifier exactly when one of its `+`-separated
/// parts names that modifier, and its key is the key one of the parts names.
pub proof fn lemma_hotkey_reflects_parts(s: Seq<char>)
    ensures
        parse_hotkey_spec(s) matches Ok(h) ==> {
            let parts = split_plus_spec(s);
            let n = parts.len() as int;
            &&& h.control == some_part_names_modifier(parts, n, ModifierWord::Control)
            &&& h.shift == some_part_names_modifier(parts, n, ModifierWord::Shift)
            &&& h.alt == some_part_names_modifier(parts, n, ModifierWord::Alt)
            &&& h.super_key == some_part_names_modifier(parts, n, ModifierWord::Super)
            &&& some_part_names_key(parts, n, h.key)
        },
{
    let parts = split_plus_spec(s);
    lemma_fold_matches_parts(parts, parts.len() as int);
}

proof fn lemma_fold_error_sticks(parts: Seq<Seq<char>>, k: int, m: int)
    requires
        0 <= k <= m,
        hotkey_fold(parts, k) is Err,
    ensures
        hotkey_fold(parts, m) == hotkey_fold(parts, k),
    decreases m - k,
{
    if m > k {
        lemma_fold_error_sticks(parts, k, m - 1);
    }
}

pub(crate) fn ascii_lower(c: char) -> (r: char)
    ensures
        r == ascii_lower_spec(c),
{
    if 'A' <= c && c <= 'Z' {
        let v: u32 = (c as u32) + 32;
        let b: u8 = v as u8;
        b as char
    } else {
        c
    }
}

/// Whether `part` spells the lower-case keyword `kw`, ignoring ASCII case.
fn eq_ignore_case(part: &[char], kw: &str) -> (r: bool)
    ensures
        r == eq_ignore_case_spec(part@, kw@),
{
    let k = chars_of(kw);
    if part.len() != k.len() {
        return false;
    }
    let mut i: usize = 0;
    while i < part.len()
        invariant
            i <= part@.len(),
            part@.len() == k@.len(),
            k@ == kw@,
            forall|j: int| 0 <= j < i ==> ascii_lower_spec(#[trigger] part@[j]) == k@[j],
        decreases part@.len() - i,
    {
        if ascii_lower(part[i]) != k[i] {
            return false;
        }
        i = i + 1;
    }
    true
}

/// Splits on `+`, keeping empty parts.
fn split_plus(s: &[char]) -> (r: Vec<Vec<char>>)
    ensures
        r@.len() == split_plus_spec(s@).len(),
        forall|i: int| 0 <= i < r@.len() ==> (#[trigger] r@[i])@ == split_plus_spec(s@)[i],
{
    let mut parts: Vec<Vec<char>> = Vec::new();
    let mut current: Vec<char> = Vec::new();
    let mut i: usize = 0;
    while i < s.len()
        invariant
            i <= s@.len(),
            parts@.len() + 1 == split_plus_spec(s@.subrange(0, i as int)).len(),
            forall|j: int| 0 <= j < parts@.len() ==> (#[trigger] parts@[j])@ == split_plus_spec(s@.subrange(0, i as int))[j],
            current@ == split_plus_spec(s@.subrange(0, i as int)).last(),
        decreases s@.len() - i,
    {
        proof {
            let pre = s@.subrange(0, i + 1);
            assert(pre.drop_last() =~= s@.subrange(0, i as int));
            assert(pre.last() == s@[i as int]);
        }
        if s[i] == '+' {
            parts.push(current);
            current = Vec::new();
        } else {
            current.push(s[i]);
        }
        i = i + 1;
    }
    proof {
        assert(s@.subrange(0, s@.len() as int) =~= s@);
    }
    parts.push(current);
    parts
}

fn function_key(p: &[char]) -> (r: Option<u8>)
    ensures
        match function_key_number(p@) {
            None => r.is_none(),
            Some(n) => r == Some(n as u8),
        },
{
    if (p.len() == 2 || p.len() == 3) && ascii_lower(p[0]) == 'f' && '1' <= p[1] && p[1] <= '9' {
        let d1: u32 = (p[1] as u32) - ('0' as u32);
        if p.len() == 2 {
            Some(d1 as u8)
        } else if '0' <= p[2] && p[2] <= '9' && 10 * d1 + ((p[2] as u32) - ('0' as u32)) <= 24 {
            Some((10 * d1 + ((p[2] as u32) - ('0' as u32))) as u8)
        } else {
            None
        }
    } else {
        None
    }
}

fn key_of(p: &[char]) -> (r: Option<HotkeyKey>)
    ensures
        r == key_of_spec(p@),
        r matches Some(k) ==> key_named(k, p@),
        r is None ==> forall|k: HotkeyKey| !#[trigger] key_named(k, p@),
{
    proof {
        assert forall|k: HotkeyKey| #[trigger] key_named(k, p@) implies key_of_spec(p@) == Some(k) by {
            lemma_key_names(p@, k);
        }
        if key_of_spec(p@) is Some {
            lemma_key_names(p@, key_of_spec(p@).unwrap());
        }
    }
    if p.len() == 1 && 'a' <= ascii_lower(p[0]) && ascii_lower(p[0]) <= 'z' {
        return Some(HotkeyKey::Letter(((ascii_lower(p[0]) as u32) - ('a' as u32)) as u8));
    }
    if p.len() == 1 && '0' <= p[0] && p[0] <= '9' {
        return Some(HotkeyKey::Digit(((p[0] as u32) - ('0' as u32)) as u8));
    }
    if let Some(n) = function_key(p) {
        return Some(HotkeyKey::Function(n));
    }
    if eq_ignore_case(p, "space") {
        Some(HotkeyKey::Space)
    } else if eq_ignore_case(p, "esc") || eq_ignore_case(p, "escape") {
        Some(HotkeyKey::Escape)
    } else if eq_ignore_case(p, "enter") {
        Some(HotkeyKey::Enter)
    } else if eq_ignore_case(p, "tab") {
        Some(HotkeyKey::Tab)
    } else if eq_ignore_case(p, "backspace") {
        Some(HotkeyKey::Backspace)
    } else if eq_ignore_case(p, "delete") {
        Some(HotkeyKey::Delete)
    } else if eq_ignore_case(p, "insert") {
        Some(HotkeyKey::Insert)
    } else if eq_ignore_case(p, "home") {
        Some(HotkeyKey::Home)
    } else if eq_ignore_case(p, "end") {
        Some(HotkeyKey::End)
    } else if eq_ignore_case(p, "pageup") {
        Some(HotkeyKey::PageUp)
    } else if eq_ignore_case(p, "pagedown") {
        Some(HotkeyKey::PageDown)
    } else if eq_ignore_case(p, "up") {
        Some(HotkeyKey::ArrowUp)
    } else if eq_ignore_case(p, "down") {
        Some(HotkeyKey::ArrowDown)
    } else if eq_ignore_case(p, "left") {
        Some(HotkeyKey::ArrowLeft)
    } else if eq_ignore_case(p, "right") {
        Some(HotkeyKey::ArrowRight)
    } else if eq_ignore_case(p, "printscreen") {
        Some(HotkeyKey::PrintScreen)
    } else {
        None
    }
}

/// Parses a hotkey such as `Ctrl+Shift+A`: `+`-separated parts, trimmed,
/// empty parts skipped, modifiers named case-insensitively, exactly one key.
pub fn parse_hotkey(spec: &str) -> (r: Result<HotkeySpec, HotkeyError>)
    ensures
        r == parse_hotkey_spec(spec@),
{
    let chars = chars_of(spec);
    let parts = split_plus(chars.as_slice());
    let ghost sparts = split_plus_spec(spec@);
    let mut control = false;
    let mut shift = false;
    let mut alt = false;
    let mut super_key = false;
    let mut key: Option<HotkeyKey> = None;
    let mut i: usize = 0;
    while i < parts.len()
        invariant
            i <= parts@.len(),
            parts@.len() == sparts.len(),
            sparts == split_plus_spec(spec@),
            forall|j: int| 0 <= j < parts@.len() ==> (#[trigger] parts@[j])@ == sparts[j],
            hotkey_fold(sparts, i as int) == Ok::<HotkeyAcc, HotkeyError>(
                HotkeyAcc { control, shift, alt, super_key, key },
            ),
        decreases parts@.len() - i,
    {
        let part = trim_chars(parts[i].as_slice());
        proof {
            assert(part@ == trim_spec(sparts[i as int]));
        }
        if part.len() == 0 {
        } else if eq_ignore_case(part.as_slice(), "ctrl") || eq_ignore_case(part.as_slice(), "control") {
            control = true;
        } else if eq_ignore_case(part.as_slice(), "shift") {
            shift = true;
        } else if eq_ignore_case(part.as_slice(), "alt") {
            alt = true;
        } else if eq_ignore_case(part.as_slice(), "win") || eq_ignore_case(part.as_slice(), "super")
            || eq_ignore_case(part.as_slice(), "meta") || eq_ignore_case(part.as_slice(), "cmd")
            || eq_ignore_case(part.as_slice(), "command") {
            super_key = true;
        } else if key.is_some() {
            proof {
                lemma_fold_error_sticks(sparts, i + 1, sparts.len() as int);
            }
            return Err(HotkeyError::MultipleKeys);
        } else {
            match key_of(part.as_slice()) {
                Some(k) => {
                    key = Some(k);
                },
                None => {
                    proof {
                        lemma_fold_error_sticks(sparts, i + 1, sparts.len() as int);
                    }
                    return Err(HotkeyError::UnsupportedKey { part_index: i });
                },
            }
        }
        i = i + 1;
    }
    match key {
        None => Err(HotkeyError::MissingKey),
        Some(k) => Ok(HotkeySpec { control, shift, alt, super_key, key: k }),
    }
}

} // verus!
