use crate::text::{chars_of, str_eq};
use vstd::prelude::*;

verus! {

/// How the program was asked to start.
#[derive(Debug, Clone, Copy, PartialEq, Eq, Structural)]
pub enum StartupMode {
    Run,
    CaptureTest,
    OverlayTest,
    Settings,
}

/// The mode named by the first argument after the program name: `capture-test`,
/// `overlay-test` or `settings`; anything else (or nothing) runs normally.
pub open spec fn startup_mode_spec(args: Seq<Seq<char>>) -> StartupMode {
    if args.len() < 2 {
        StartupMode::Run
    } else if args[1] == "capture-test"@ {
        StartupMode::CaptureTest
    } else if args[1] == "overlay-test"@ {
        StartupMode::OverlayTest
    } else if args[1] == "settings"@ {
        StartupMode::Settings
    } else {
        StartupMode::Run
    }
}

pub fn parse_startup_mode(args: &Vec<String>) -> (r: StartupMode)
    ensures
        r == startup_mode_spec(args@.map_values(|a: String| a@)),
{
    let ghost views = args@.map_values(|a: String| a@);
    if args.len() < 2 {
        return StartupMode::Run;
    }
    let a = args[1].as_str();
    assert(views[1] == a@);
    if str_eq(a, "capture-test") {
        StartupMode::CaptureTest
    } else if str_eq(a, "overlay-test") {
        StartupMode::OverlayTest
    } else if str_eq(a, "settings") {
        StartupMode::Settings
    } else {
        StartupMode::Run
    }
}

/// The registry key under the current user that lists programs run at sign-in.
pub const RUN_KEY_PATH: &'static str = "Software\\Microsoft\\Windows\\CurrentVersion\\Run";
/// The value name the program is listed under.
pub const RUN_VALUE_NAME: &'static str = "OpenCapt";

/// What to do to the sign-in list.
#[derive(Debug, Clone)]
pub enum StartupChange {
    /// Set the value to this command line.
    Register { command: String },
    /// Delete the value.
    Unregister,
}

/// Brings the sign-in list in line with the setting: when enabled, the value
/// is the executable's path in double quotes; when disabled, it is removed.
pub fn sync_launch_at_startup(enabled: bool, exe_path: &str) -> (r: StartupChange)
    ensures
        enabled ==> (r matches StartupChange::Register { command } && command@ == seq!['"'] + exe_path@ + seq!['"']),
        !enabled ==> r is Unregister,
{
    if enabled {
        let mut command = String::from_str("\"");
        command.append(exe_path);
        command.append("\"");
        proof {
            reveal_strlit("\"");
        }
        StartupChange::Register { command }
    } else {
        StartupChange::Unregister
    }
}

/// A registry call's status counts as success when it is zero, and, when
/// removing the value, also when the value was not there (error 2).
pub fn registry_status_ok(status: u32, removing: bool) -> (r: bool)
    ensures
        r == (status == 0 || (removing && status == 2)),
{
    status == 0 || (removing && status == 2)
}

/// The UTF-16 code units of one character.
pub open spec fn utf16_of(c: char) -> Seq<u16> {
    let v = c as u32;
    if v < 0x10000 {
        seq![v as u16]
    } else {
        let w = (v - 0x10000) as int;
        seq![(0xD800 + w / 0x400) as u16, (0xDC00 + w % 0x400) as u16]
    }
}

/// The UTF-16 encoding of a text.
pub open spec fn utf16_spec(s: Seq<char>) -> Seq<u16>
    decreases s.len(),
{
    if s.len() == 0 {
        Seq::empty()
    } else {
        utf16_spec(s.drop_last()) + utf16_of(s.last())
    }
}

/// `value` in UTF-16 with a terminating zero, as Windows takes wide strings.
pub fn to_wide(value: &str) -> (r: Vec<u16>)
    ensures
        r@ == utf16_spec(value@).push(0u16),
{
    let chars = chars_of(value);
    let mut out: Vec<u16> = Vec::new();
    let mut i: usize = 0;
    while i < chars.len()
        invariant
            i <= chars@.len(),
            out@ == utf16_spec(chars@.take(i as int)),
        decreases chars@.len() - i,
    {
        let c = chars[i];
        let v = c as u32;
        assert(chars@.take(i + 1).drop_last() =~= chars@.take(i as int));
        if v < 0x10000 {
            out.push(v as u16);
        } else {
            let w = v - 0x10000;
            out.push((0xD800 + w / 0x400) as u16);
            out.push((0xDC00 + w % 0x400) as u16);
        }
        assert(out@ =~= utf16_spec(chars@.take(i + 1)));
        i = i + 1;
    }
    assert(chars@.take(chars@.len() as int) =~= chars@);
    out.push(0);
    out
}

} // verus!
