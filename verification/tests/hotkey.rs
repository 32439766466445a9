use opencapt::hotkey::{parse_hotkey, HotkeyError, HotkeyKey};

#[test]
fn parses_default_hotkey() {
    let hotkey = parse_hotkey("Ctrl+Shift+A").expect("parse hotkey");
    assert_eq!(hotkey.key, HotkeyKey::Letter(0));
    assert!(hotkey.control);
    assert!(hotkey.shift);
}

#[test]
fn rejects_multiple_keys() {
    assert!(parse_hotkey("Ctrl+A+B").is_err());
}

#[test]
fn hotkey_parts_are_trimmed_and_case_insensitive() {
    let hotkey = parse_hotkey(" alt + f12 ").expect("parse hotkey");
    assert!(hotkey.alt);
    assert!(!hotkey.control);
    assert_eq!(hotkey.key, HotkeyKey::Function(12));
}

#[test]
fn hotkey_errors_name_the_problem() {
    assert_eq!(parse_hotkey("Ctrl+A+B"), Err(HotkeyError::MultipleKeys));
    assert_eq!(parse_hotkey("Ctrl+Shift"), Err(HotkeyError::MissingKey));
    assert_eq!(
        parse_hotkey("Ctrl+Bogus"),
        Err(HotkeyError::UnsupportedKey { part_index: 1 })
    );
}
