use crate::numparse::{
    lemma_parse_i32_of_decimal, lemma_parse_u32_of_decimal, parse_i32, parse_i32_spec, parse_u32, parse_u32_spec,
};
use crate::remote::{signed_decimal, signed_decimal_spec};
use crate::text::{chars_of, concat, decimal_spec, push_decimal, str_eq, string_from_chars};
use vstd::prelude::*;

verus! {

/// The arguments of the annotation editor process.
#[derive(Debug, Clone, PartialEq, Eq)]
pub struct AnnotateCli {
    pub input: String,
    pub output: String,
    pub placement: Option<EditorPlacement>,
}

/// Where the inline editor sits: the selection's screen origin, the monitor's
/// bounds, and the monitor scale in thousandths.
#[derive(Debug, Clone, Copy, PartialEq, Eq, Structural)]
pub struct EditorPlacement {
    pub screen_x: i32,
    pub screen_y: i32,
    pub monitor_x: i32,
    pub monitor_y: i32,
    pub monitor_width: u32,
    pub monitor_height: u32,
    pub scale_milli: u32,
}

/// The numeric placement options.
#[derive(Debug, Clone, Copy, PartialEq, Eq, Structural)]
pub enum PlacementFlag {
    ScreenX,
    ScreenY,
    MonitorX,
    MonitorY,
    MonitorWidth,
    MonitorHeight,
    ScaleMilli,
}

/// Why the editor's arguments were rejected.
#[derive(Debug, Clone, Copy, PartialEq, Eq, Structural)]
pub enum AnnotateCliError {
    /// The argument at this index is no known option.
    UnexpectedArgument { index: usize },
    /// The option came last, without its value.
    MissingValue(PlacementFlag),
    /// The option's value is not a number of its type.
    InvalidValue(PlacementFlag),
    /// Some placement options were given but not all seven.
    IncompletePlacement,
    MissingInput,
    MissingOutput,
}

/// What has been read of the arguments so far.
pub struct CliScan {
    pub input: Option<Seq<char>>,
    pub output: Option<Seq<char>>,
    pub screen_x: Option<i32>,
    pub screen_y: Option<i32>,
    pub monitor_x: Option<i32>,
    pub monitor_y: Option<i32>,
    pub monitor_width: Option<u32>,
    pub monitor_height: Option<u32>,
    pub scale_milli: Option<u32>,
}

pub open spec fn empty_scan() -> CliScan {
    CliScan {
        input: None,
        output: None,
        screen_x: None,
        screen_y: None,
        monitor_x: None,
        monitor_y: None,
        monitor_width: None,
        monitor_height: None,
        scale_milli: None,
    }
}

pub open spec fn flag_name(flag: PlacementFlag) -> Seq<char> {
    match flag {
        PlacementFlag::ScreenX => "--screen-x"@,
        PlacementFlag::ScreenY => "--screen-y"@,
        PlacementFlag::MonitorX => "--monitor-x"@,
        PlacementFlag::MonitorY => "--monitor-y"@,
        PlacementFlag::MonitorWidth => "--monitor-width"@,
        PlacementFlag::MonitorHeight => "--monitor-height"@,
        PlacementFlag::ScaleMilli => "--scale-milli"@,
    }
}

pub open spec fn is_signed_flag(flag: PlacementFlag) -> bool {
    flag == PlacementFlag::ScreenX || flag == PlacementFlag::ScreenY || flag == PlacementFlag::MonitorX
        || flag == PlacementFlag::MonitorY
}

/// Records a parsed placement value.
pub open spec fn scan_set(st: CliScan, flag: PlacementFlag, signed: i32, unsigned: u32) -> CliScan {
    match flag {
        PlacementFlag::ScreenX => CliScan { screen_x: Some(signed), ..st },
        PlacementFlag::ScreenY => CliScan { screen_y: Some(signed), ..st },
        PlacementFlag::MonitorX => CliScan { monitor_x: Some(signed), ..st },
        PlacementFlag::MonitorY => CliScan { monitor_y: Some(signed), ..st },
        PlacementFlag::MonitorWidth => CliScan { monitor_width: Some(unsigned), ..st },
        PlacementFlag::MonitorHeight => CliScan { monitor_height: Some(unsigned), ..st },
        PlacementFlag::ScaleMilli => CliScan { scale_milli: Some(unsigned), ..st },
    }
}

/// The placement option that `a` names, if any.
pub open spec fn placement_flag_of(a: Seq<char>) -> Option<PlacementFlag> {
    if a == "--screen-x"@ {
        Some(PlacementFlag::ScreenX)
    } else if a == "--screen-y"@ {
        Some(PlacementFlag::ScreenY)
    } else if a == "--monitor-x"@ {
        Some(PlacementFlag::MonitorX)
    } else if a == "--monitor-y"@ {
        Some(PlacementFlag::MonitorY)
    } else if a == "--monitor-width"@ {
        Some(PlacementFlag::MonitorWidth)
    } else if a == "--monitor-height"@ {
        Some(PlacementFlag::MonitorHeight)
    } else if a == "--scale-milli"@ {
        Some(PlacementFlag::ScaleMilli)
    } else {
        None
    }
}

/// Reading the arguments from `pos` on. `--input`/`--output` take the next
/// argument if there is one (and are unset otherwise); placement options need a
/// value that parses; anything else is rejected.
pub open spec fn cli_scan(args: Seq<Seq<char>>, pos: int, st: CliScan) -> Result<CliScan, AnnotateCliError>
    decreases args.len() - pos,
{
    if pos < 0 || pos >= args.len() {
        Ok(st)
    } else {
        let a = args[pos];
        let next: Option<Seq<char>> = if pos + 1 < args.len() { Some(args[pos + 1]) } else { None };
        let np: int = if pos + 1 < args.len() { pos + 2 } else { args.len() as int };
        if a == "--input"@ {
            cli_scan(args, np, CliScan { input: next, ..st })
        } else if a == "--output"@ {
            cli_scan(args, np, CliScan { output: next, ..st })
        } else {
            match placement_flag_of(a) {
                None => Err(AnnotateCliError::UnexpectedArgument { index: pos as usize }),
                Some(flag) => match next {
                    None => Err(AnnotateCliError::MissingValue(flag)),
                    Some(v) => if is_signed_flag(flag) {
                        match parse_i32_spec(v) {
                            None => Err(AnnotateCliError::InvalidValue(flag)),
                            Some(n) => cli_scan(args, np, scan_set(st, flag, n, 0)),
                        }
                    } else {
                        match parse_u32_spec(v) {
                            None => Err(AnnotateCliError::InvalidValue(flag)),
                            Some(n) => cli_scan(args, np, scan_set(st, flag, 0, n)),
                        }
                    },
                },
            }
        }
    }
}

/// The placement that the scanned options describe: none, all seven, or an error.
pub open spec fn scan_placement(st: CliScan) -> Result<Option<EditorPlacement>, AnnotateCliError> {
    if st.screen_x is None && st.screen_y is None && st.monitor_x is None && st.monitor_y is None
        && st.monitor_width is None && st.monitor_height is None && st.scale_milli is None {
        Ok(None)
    } else if st.screen_x is Some && st.screen_y is Some && st.monitor_x is Some && st.monitor_y is Some
        && st.monitor_width is Some && st.monitor_height is Some && st.scale_milli is Some {
        Ok(Some(EditorPlacement {
            screen_x: st.screen_x.unwrap(),
            screen_y: st.screen_y.unwrap(),
            monitor_x: st.monitor_x.unwrap(),
            monitor_y: st.monitor_y.unwrap(),
            monitor_width: st.monitor_width.unwrap(),
            monitor_height: st.monitor_height.unwrap(),
            scale_milli: st.scale_milli.unwrap(),
        }))
    } else {
        Err(AnnotateCliError::IncompletePlacement)
    }
}

/// The outcome of parsing `args`: the error, or input, output and placement.
pub open spec fn parse_cli_spec(args: Seq<Seq<char>>) -> Result<(Seq<char>, Seq<char>, Option<EditorPlacement>), AnnotateCliError> {
    match cli_scan(args, 0, empty_scan()) {
        Err(e) => Err(e),
        Ok(st) => match scan_placement(st) {
            Err(e) => Err(e),
            Ok(placement) => match st.input {
                None => Err(AnnotateCliError::MissingInput),
                Some(input) => match st.output {
                    None => Err(AnnotateCliError::MissingOutput),
                    Some(output) => Ok((input, output, placement)),
                },
            },
        },
    }
}

pub open spec fn string_views(args: Seq<String>) -> Seq<Seq<char>> {
    args.map_values(|s: String| s@)
}

fn placement_flag(a: &str) -> (r: Option<PlacementFlag>)
    ensures
        r == placement_flag_of(a@),
{
    if str_eq(a, "--screen-x") {
        Some(PlacementFlag::ScreenX)
    } else if str_eq(a, "--screen-y") {
        Some(PlacementFlag::ScreenY)
    } else if str_eq(a, "--monitor-x") {
        Some(PlacementFlag::MonitorX)
    } else if str_eq(a, "--monitor-y") {
        Some(PlacementFlag::MonitorY)
    } else if str_eq(a, "--monitor-width") {
        Some(PlacementFlag::MonitorWidth)
    } else if str_eq(a, "--monitor-height") {
        Some(PlacementFlag::MonitorHeight)
    } else if str_eq(a, "--scale-milli") {
        Some(PlacementFlag::ScaleMilli)
    } else {
        None
    }
}

impl AnnotateCli {
    /// Parses `--input <path> --output <path>` and, for inline editing, all
    /// seven placement options (`--screen-x`, `--screen-y`, `--monitor-x`,
    /// `--monitor-y`, `--monitor-width`, `--monitor-height`, `--scale-milli`).
    pub fn parse(args: Vec<String>) -> (r: Result<Self, AnnotateCliError>)
        ensures
            match parse_cli_spec(string_views(args@)) {
                Err(e) => r == Err::<Self, AnnotateCliError>(e),
                Ok((input, output, placement)) => r matches Ok(cli) && cli.input@ == input
                    && cli.output@ == output && cli.placement == placement,
            },
    {
        let ghost views = string_views(args@);
        let mut input: Option<String> = None;
        let mut output: Option<String> = None;
        let mut screen_x: Option<i32> = None;
        let mut screen_y: Option<i32> = None;
        let mut monitor_x: Option<i32> = None;
        let mut monitor_y: Option<i32> = None;
        let mut monitor_width: Option<u32> = None;
        let mut monitor_height: Option<u32> = None;
        let mut scale_milli: Option<u32> = None;
        let mut pos: usize = 0;
        while pos < args.len()
            invariant
                views == string_views(args@),
                views.len() == args@.len(),
                cli_scan(views, 0, empty_scan()) == cli_scan(
                    views,
                    pos as int,
                    CliScan {
                        input: match input { Some(s) => Some(s@), None => None },
                        output: match output { Some(s) => Some(s@), None => None },
                        screen_x,
                        screen_y,
                        monitor_x,
                        monitor_y,
                        monitor_width,
                        monitor_height,
                        scale_milli,
                    },
                ),
            decreases args@.len() - pos,
        {
            let a = args[pos].as_str();
            assert(a@ == views[pos as int]);
            let next: Option<&String> = if pos + 1 < args.len() { Some(&args[pos + 1]) } else { None };
            if str_eq(a, "--input") {
                input = match next { Some(s) => Some(s.clone()), None => None };
            } else if str_eq(a, "--output") {
                output = match next { Some(s) => Some(s.clone()), None => None };
            } else {
                match placement_flag(a) {
                    None => {
                        return Err(AnnotateCliError::UnexpectedArgument { index: pos });
                    },
                    Some(flag) => {
                        let value = match next {
                            None => {
                                return Err(AnnotateCliError::MissingValue(flag));
                            },
                            Some(s) => chars_of(s.as_str()),
                        };
                        assert(value@ == views[pos + 1]);
                        match flag {
                            PlacementFlag::ScreenX | PlacementFlag::ScreenY | PlacementFlag::MonitorX | PlacementFlag::MonitorY => {
                                match parse_i32(value.as_slice()) {
                                    None => {
                                        return Err(AnnotateCliError::InvalidValue(flag));
                                    },
                                    Some(n) => match flag {
                                        PlacementFlag::ScreenX => screen_x = Some(n),
                                        PlacementFlag::ScreenY => screen_y = Some(n),
                                        PlacementFlag::MonitorX => monitor_x = Some(n),
                                        _ => monitor_y = Some(n),
                                    },
                                }
                            },
                            _ => {
                                match parse_u32(value.as_slice()) {
                                    None => {
                                        return Err(AnnotateCliError::InvalidValue(flag));
                                    },
                                    Some(n) => match flag {
                                        PlacementFlag::MonitorWidth => monitor_width = Some(n),
                                        PlacementFlag::MonitorHeight => monitor_height = Some(n),
                                        _ => scale_milli = Some(n),
                                    },
                                }
                            },
                        }
                    },
                }
            }
            pos = if pos + 1 < args.len() { pos + 2 } else { args.len() };
        }
        let placement = if screen_x.is_none() && screen_y.is_none() && monitor_x.is_none() && monitor_y.is_none()
            && monitor_width.is_none() && monitor_height.is_none() && scale_milli.is_none() {
            None
        } else {
            match (screen_x, screen_y, monitor_x, monitor_y, monitor_width, monitor_height, scale_milli) {
                (Some(screen_x), Some(screen_y), Some(monitor_x), Some(monitor_y), Some(monitor_width), Some(monitor_height), Some(scale_milli)) => {
                    Some(EditorPlacement { screen_x, screen_y, monitor_x, monitor_y, monitor_width, monitor_height, scale_milli })
                },
                _ => {
                    return Err(AnnotateCliError::IncompletePlacement);
                },
            }
        };
        let input = match input {
            None => {
                return Err(AnnotateCliError::MissingInput);
            },
            Some(s) => s,
        };
        let output = match output {
            None => {
                return Err(AnnotateCliError::MissingOutput);
            },
            Some(s) => s,
        };
        Ok(AnnotateCli { input, output, placement })
    }
}

/// How an editor session ended.
#[derive(Debug, Clone)]
pub enum EditorOutcome {
    Confirmed { output_path: String, temp_dir: String },
    Cancelled { temp_dir: String },
    Failed { message: String, temp_dir: Option<String> },
}

/// The outcome of an editor process that has exited: confirmed when it exited
/// cleanly and wrote its output, cancelled when it exited cleanly without one,
/// failed otherwise.
pub fn editor_outcome(
    exit_success: bool,
    exit_status_text: &str,
    output_exists: bool,
    temp_dir: String,
    output_path: String,
) -> (r: EditorOutcome)
    ensures
        exit_success && output_exists ==> r == (EditorOutcome::Confirmed { output_path, temp_dir }),
        exit_success && !output_exists ==> r == (EditorOutcome::Cancelled { temp_dir }),
        !exit_success ==> (r matches EditorOutcome::Failed { message, temp_dir: Some(t) } && t == temp_dir
            && message@ == "annotation editor exited with status "@ + exit_status_text@),
{
    if exit_success {
        if output_exists {
            EditorOutcome::Confirmed { output_path, temp_dir }
        } else {
            EditorOutcome::Cancelled { temp_dir }
        }
    } else {
        EditorOutcome::Failed {
            message: concat("annotation editor exited with status ", exit_status_text),
            temp_dir: Some(temp_dir),
        }
    }
}

/// The arguments that start the editor on `input`, writing to `output`,
/// placed at `p`: each option followed by its value, numbers in decimal.
pub open spec fn editor_args_spec(input: Seq<char>, output: Seq<char>, p: EditorPlacement) -> Seq<Seq<char>> {
    seq![
        "--input"@, input,
        "--output"@, output,
        "--screen-x"@, signed_decimal_spec(p.screen_x as int),
        "--screen-y"@, signed_decimal_spec(p.screen_y as int),
        "--monitor-x"@, signed_decimal_spec(p.monitor_x as int),
        "--monitor-y"@, signed_decimal_spec(p.monitor_y as int),
        "--monitor-width"@, decimal_spec(p.monitor_width as nat),
        "--monitor-height"@, decimal_spec(p.monitor_height as nat),
        "--scale-milli"@, decimal_spec(p.scale_milli as nat),
    ]
}

fn signed_text(v: i32) -> (r: String)
    ensures
        r@ == signed_decimal_spec(v as int),
{
    let digits = signed_decimal(v as i64);
    string_from_chars(digits.as_slice())
}

fn unsigned_text(n: u32) -> (r: String)
    ensures
        r@ == decimal_spec(n as nat),
{
    let mut digits: Vec<char> = Vec::new();
    push_decimal(&mut digits, n as usize);
    assert(digits@ =~= decimal_spec(n as nat));
    string_from_chars(digits.as_slice())
}

/// The arguments, after the `annotate` command word, with which the capture
/// process starts the editor.
pub fn editor_args(input: &str, output: &str, placement: EditorPlacement) -> (r: Vec<String>)
    ensures
        string_views(r@) == editor_args_spec(input@, output@, placement),
{
    let mut r: Vec<String> = Vec::new();
    r.push(String::from_str("--input"));
    r.push(String::from_str(input));
    r.push(String::from_str("--output"));
    r.push(String::from_str(output));
    r.push(String::from_str("--screen-x"));
    r.push(signed_text(placement.screen_x));
    r.push(String::from_str("--screen-y"));
    r.push(signed_text(placement.screen_y));
    r.push(String::from_str("--monitor-x"));
    r.push(signed_text(placement.monitor_x));
    r.push(String::from_str("--monitor-y"));
    r.push(signed_text(placement.monitor_y));
    r.push(String::from_str("--monitor-width"));
    r.push(unsigned_text(placement.monitor_width));
    r.push(String::from_str("--monitor-height"));
    r.push(unsigned_text(placement.monitor_height));
    r.push(String::from_str("--scale-milli"));
    r.push(unsigned_text(placement.scale_milli));
    assert(string_views(r@) =~= editor_args_spec(input@, output@, placement));
    r
}

proof fn lemma_flag_name_reads_back(flag: PlacementFlag)
    ensures
        placement_flag_of(flag_name(flag)) == Some(flag),
        flag_name(flag) != "--input"@,
        flag_name(flag) != "--output"@,
{
    reveal_strlit("--input");
    reveal_strlit("--output");
    reveal_strlit("--screen-x");
    reveal_strlit("--screen-y");
    reveal_strlit("--monitor-x");
    reveal_strlit("--monitor-y");
    reveal_strlit("--monitor-width");
    reveal_strlit("--monitor-height");
    reveal_strlit("--scale-milli");
    assert("--input"@.len() == 7);
    assert("--output"@.len() == 8);
    match flag {
        PlacementFlag::ScreenX => {
            assert("--screen-x"@.len() == 10);
        },
        PlacementFlag::ScreenY => {
            assert("--screen-y"@.len() == 10);
            assert("--screen-y"@[9] != "--screen-x"@[9]);
        },
        PlacementFlag::MonitorX => {
            assert("--monitor-x"@.len() == 11);
        },
        PlacementFlag::MonitorY => {
            assert("--monitor-y"@.len() == 11);
            assert("--monitor-y"@[10] != "--monitor-x"@[10]);
        },
        PlacementFlag::MonitorWidth => {
            assert("--monitor-width"@.len() == 15);
        },
        PlacementFlag::MonitorHeight => {
            assert("--monitor-height"@.len() == 16);
        },
        PlacementFlag::ScaleMilli => {
            assert("--scale-milli"@.len() == 13);
        },
    }
}

proof fn lemma_scan_option(args: Seq<Seq<char>>, pos: int, st: CliScan, flag: PlacementFlag, signed: i32, unsigned: u32)
    requires
        0 <= pos,
        pos + 1 < args.len(),
        args[pos] == flag_name(flag),
        is_signed_flag(flag) ==> parse_i32_spec(args[pos + 1]) == Some(signed),
        !is_signed_flag(flag) ==> parse_u32_spec(args[pos + 1]) == Some(unsigned),
    ensures
        cli_scan(args, pos, st) == cli_scan(args, pos + 2, scan_set(st, flag, signed, unsigned)),
{
    lemma_flag_name_reads_back(flag);
    if is_signed_flag(flag) {
        assert(scan_set(st, flag, signed, 0) == scan_set(st, flag, signed, unsigned));
    } else {
        assert(scan_set(st, flag, 0, unsigned) == scan_set(st, flag, signed, unsigned));
    }
}

/// What the capture process passes to the editor, the editor reads back:
/// the input and output paths and the whole placement.
pub proof fn lemma_editor_args_round_trip(input: Seq<char>, output: Seq<char>, p: EditorPlacement)
    ensures
        parse_cli_spec(editor_args_spec(input, output, p)) == Ok::<_, AnnotateCliError>((input, output, Some(p))),
{
    reveal_strlit("--input");
    reveal_strlit("--output");
    lemma_parse_i32_of_decimal(p.screen_x);
    lemma_parse_i32_of_decimal(p.screen_y);
    lemma_parse_i32_of_decimal(p.monitor_x);
    lemma_parse_i32_of_decimal(p.monitor_y);
    lemma_parse_u32_of_decimal(p.monitor_width);
    lemma_parse_u32_of_decimal(p.monitor_height);
    lemma_parse_u32_of_decimal(p.scale_milli);
    let args = editor_args_spec(input, output, p);
    let s0 = empty_scan();
    let s1 = CliScan { input: Some(input), ..s0 };
    let s2 = CliScan { output: Some(output), ..s1 };
    let s3 = scan_set(s2, PlacementFlag::ScreenX, p.screen_x, 0);
    let s4 = scan_set(s3, PlacementFlag::ScreenY, p.screen_y, 0);
    let s5 = scan_set(s4, PlacementFlag::MonitorX, p.monitor_x, 0);
    let s6 = scan_set(s5, PlacementFlag::MonitorY, p.monitor_y, 0);
    let s7 = scan_set(s6, PlacementFlag::MonitorWidth, 0, p.monitor_width);
    let s8 = scan_set(s7, PlacementFlag::MonitorHeight, 0, p.monitor_height);
    let s9 = scan_set(s8, PlacementFlag::ScaleMilli, 0, p.scale_milli);
    assert(args.len() == 18);
    lemma_scan_option(args, 16, s8, PlacementFlag::ScaleMilli, 0, p.scale_milli);
    lemma_scan_option(args, 14, s7, PlacementFlag::MonitorHeight, 0, p.monitor_height);
    lemma_scan_option(args, 12, s6, PlacementFlag::MonitorWidth, 0, p.monitor_width);
    lemma_scan_option(args, 10, s5, PlacementFlag::MonitorY, p.monitor_y, 0);
    lemma_scan_option(args, 8, s4, PlacementFlag::MonitorX, p.monitor_x, 0);
    lemma_scan_option(args, 6, s3, PlacementFlag::ScreenY, p.screen_y, 0);
    lemma_scan_option(args, 4, s2, PlacementFlag::ScreenX, p.screen_x, 0);
    assert(cli_scan(args, 18, s9) == Ok::<_, AnnotateCliError>(s9));
    assert("--output"@ != "--input"@) by {
        assert("--input"@.len() == 7);
        assert("--output"@.len() == 8);
    }
    assert(cli_scan(args, 2, s1) == cli_scan(args, 4, s2));
    assert(cli_scan(args, 0, s0) == cli_scan(args, 2, s1));
}

/// The option/value pairs that start the editor on `input`, writing to
/// `output`, placed at `p`, in the order `editor_args` writes them.
pub open spec fn editor_pairs(input: Seq<char>, output: Seq<char>, p: EditorPlacement) -> Seq<(Seq<char>, Seq<char>)> {
    seq![
        ("--input"@, input),
        ("--output"@, output),
        (flag_name(PlacementFlag::ScreenX), signed_decimal_spec(p.screen_x as int)),
        (flag_name(PlacementFlag::ScreenY), signed_decimal_spec(p.screen_y as int)),
        (flag_name(PlacementFlag::MonitorX), signed_decimal_spec(p.monitor_x as int)),
        (flag_name(PlacementFlag::MonitorY), signed_decimal_spec(p.monitor_y as int)),
        (flag_name(PlacementFlag::MonitorWidth), decimal_spec(p.monitor_width as nat)),
        (flag_name(PlacementFlag::MonitorHeight), decimal_spec(p.monitor_height as nat)),
        (flag_name(PlacementFlag::ScaleMilli), decimal_spec(p.scale_milli as nat)),
    ]
}

/// Option/value pairs laid out as arguments, each option before its value.
pub open spec fn flatten_pairs(ps: Seq<(Seq<char>, Seq<char>)>) -> Seq<Seq<char>> {
    Seq::new(2 * ps.len(), |k: int| if k % 2 == 0 { ps[k / 2].0 } else { ps[k / 2].1 })
}

/// The options among the first `k` pairs.
pub open spec fn names_seen(ps: Seq<(Seq<char>, Seq<char>)>, k: int) -> Set<Seq<char>>
    decreases k,
{
    if k <= 0 {
        Set::empty()
    } else {
        names_seen(ps, k - 1).insert(ps[k - 1].0)
    }
}

/// What reading the options in `seen` (each with the value `editor_pairs`
/// gives it) leaves.
pub open spec fn scan_of_seen(input: Seq<char>, output: Seq<char>, p: EditorPlacement, seen: Set<Seq<char>>) -> CliScan {
    CliScan {
        input: if seen.contains("--input"@) { Some(input) } else { None },
        output: if seen.contains("--output"@) { Some(output) } else { None },
        screen_x: if seen.contains(flag_name(PlacementFlag::ScreenX)) { Some(p.screen_x) } else { None },
        screen_y: if seen.contains(flag_name(PlacementFlag::ScreenY)) { Some(p.screen_y) } else { None },
        monitor_x: if seen.contains(flag_name(PlacementFlag::MonitorX)) { Some(p.monitor_x) } else { None },
        monitor_y: if seen.contains(flag_name(PlacementFlag::MonitorY)) { Some(p.monitor_y) } else { None },
        monitor_width: if seen.contains(flag_name(PlacementFlag::MonitorWidth)) { Some(p.monitor_width) } else { None },
        monitor_height: if seen.contains(flag_name(PlacementFlag::MonitorHeight)) { Some(p.monitor_height) } else { None },
        scale_milli: if seen.contains(flag_name(PlacementFlag::ScaleMilli)) { Some(p.scale_milli) } else { None },
    }
}

proof fn lemma_flag_names_distinct(f: PlacementFlag, g: PlacementFlag)
    ensures
        flag_name(f) == flag_name(g) ==> f == g,
        flag_name(f) != "--input"@,
        flag_name(f) != "--output"@,
        "--input"@ != "--output"@,
{
    lemma_flag_name_reads_back(f);
    lemma_flag_name_reads_back(g);
    reveal_strlit("--input");
    reveal_strlit("--output");
    assert("--input"@.len() == 7);
    assert("--output"@.len() == 8);
}

/// Reading one of the editor's pairs records its option with its value.
proof fn lemma_scan_pair(args: Seq<Seq<char>>, k: int, input: Seq<char>, output: Seq<char>, p: EditorPlacement,
    seen: Set<Seq<char>>, j: int)
    requires
        0 <= k,
        2 * k + 1 < args.len(),
        0 <= j < 9,
        args[2 * k] == editor_pairs(input, output, p)[j].0,
        args[2 * k + 1] == editor_pairs(input, output, p)[j].1,
    ensures
        cli_scan(args, 2 * k, scan_of_seen(input, output, p, seen)) == cli_scan(args, 2 * k + 2,
            scan_of_seen(input, output, p, seen.insert(editor_pairs(input, output, p)[j].0))),
{
    let pairs = editor_pairs(input, output, p);
    let st = scan_of_seen(input, output, p, seen);
    let after = scan_of_seen(input, output, p, seen.insert(pairs[j].0));
    lemma_flag_names_distinct(PlacementFlag::ScreenX, PlacementFlag::ScreenX);
    let flags = seq![PlacementFlag::ScreenX, PlacementFlag::ScreenY, PlacementFlag::MonitorX, PlacementFlag::MonitorY,
        PlacementFlag::MonitorWidth, PlacementFlag::MonitorHeight, PlacementFlag::ScaleMilli];
    assert forall|a: int, b: int| #![trigger flags[a], flags[b]] 0 <= a < 7 && 0 <= b < 7 implies
        (flag_name(flags[a]) == flag_name(flags[b]) ==> a == b) && flag_name(flags[a]) != "--input"@
            && flag_name(flags[a]) != "--output"@ by {
        lemma_flag_names_distinct(flags[a], flags[b]);
    }
    if j == 0 {
        assert(CliScan { input: Some(input), ..st } == after);
    } else if j == 1 {
        assert(CliScan { output: Some(output), ..st } == after);
    } else {
        let f = flags[j - 2];
        assert(pairs[j].0 == flag_name(f));
        lemma_flag_name_reads_back(f);
        lemma_parse_i32_of_decimal(p.screen_x);
        lemma_parse_i32_of_decimal(p.screen_y);
        lemma_parse_i32_of_decimal(p.monitor_x);
        lemma_parse_i32_of_decimal(p.monitor_y);
        lemma_parse_u32_of_decimal(p.monitor_width);
        lemma_parse_u32_of_decimal(p.monitor_height);
        lemma_parse_u32_of_decimal(p.scale_milli);
        let signed: i32 = match f {
            PlacementFlag::ScreenX => p.screen_x,
            PlacementFlag::ScreenY => p.screen_y,
            PlacementFlag::MonitorX => p.monitor_x,
            PlacementFlag::MonitorY => p.monitor_y,
            _ => 0,
        };
        let unsigned: u32 = match f {
            PlacementFlag::MonitorWidth => p.monitor_width,
            PlacementFlag::MonitorHeight => p.monitor_height,
            PlacementFlag::ScaleMilli => p.scale_milli,
            _ => 0,
        };
        lemma_scan_option(args, 2 * k, st, f, signed, unsigned);
        assert(scan_set(st, f, signed, unsigned) == after);
    }
}

proof fn lemma_scan_pairs_from(args: Seq<Seq<char>>, ps: Seq<(Seq<char>, Seq<char>)>, k: int, input: Seq<char>,
    output: Seq<char>, p: EditorPlacement)
    requires
        args == flatten_pairs(ps),
        0 <= k <= ps.len(),
        forall|m: int| 0 <= m < ps.len() ==> editor_pairs(input, output, p).contains(#[trigger] ps[m]),
    ensures
        cli_scan(args, 2 * k, scan_of_seen(input, output, p, names_seen(ps, k)))
            == Ok::<_, AnnotateCliError>(scan_of_seen(input, output, p, names_seen(ps, ps.len() as int))),
    decreases ps.len() - k,
{
    if k < ps.len() {
        let pairs = editor_pairs(input, output, p);
        assert(pairs.contains(ps[k]));
        let j = choose|j: int| 0 <= j < pairs.len() && pairs[j] == ps[k];
        assert(args[2 * k] == ps[k].0);
        assert(args[2 * k + 1] == ps[k].1);
        lemma_scan_pair(args, k, input, output, p, names_seen(ps, k), j);
        assert(names_seen(ps, k + 1) == names_seen(ps, k).insert(ps[k].0));
        lemma_scan_pairs_from(args, ps, k + 1, input, output, p);
        assert(2 * k + 2 == 2 * (k + 1));
    }
}

proof fn lemma_names_seen_has(ps: Seq<(Seq<char>, Seq<char>)>, k: int, m: int)
    requires
        0 <= m < k,
    ensures
        names_seen(ps, k).contains(ps[m].0),
    decreases k,
{
    if m < k - 1 {
        lemma_names_seen_has(ps, k - 1, m);
    }
}

/// Whatever order the capture process put the editor's option/value pairs
/// in, the editor reads back the input and output paths and the whole
/// placement.
pub proof fn lemma_editor_pairs_any_order(input: Seq<char>, output: Seq<char>, p: EditorPlacement,
    ps: Seq<(Seq<char>, Seq<char>)>)
    requires
        ps.len() == 9,
        forall|m: int| 0 <= m < ps.len() ==> editor_pairs(input, output, p).contains(#[trigger] ps[m]),
        forall|j: int| 0 <= j < 9 ==> ps.contains(#[trigger] editor_pairs(input, output, p)[j]),
    ensures
        parse_cli_spec(flatten_pairs(ps)) == Ok::<_, AnnotateCliError>((input, output, Some(p))),
{
    let args = flatten_pairs(ps);
    let pairs = editor_pairs(input, output, p);
    assert(names_seen(ps, 0) == Set::<Seq<char>>::empty());
    assert(scan_of_seen(input, output, p, Set::<Seq<char>>::empty()) == empty_scan());
    lemma_scan_pairs_from(args, ps, 0, input, output, p);
    assert forall|j: int| 0 <= j < 9 implies names_seen(ps, 9).contains(#[trigger] pairs[j].0) by {
        assert(ps.contains(pairs[j]));
        let m = choose|m: int| 0 <= m < ps.len() && ps[m] == pairs[j];
        lemma_names_seen_has(ps, 9, m);
    }
    assert(names_seen(ps, 9).contains(pairs[0].0));
    assert(names_seen(ps, 9).contains(pairs[1].0));
    assert(names_seen(ps, 9).contains(pairs[2].0));
    assert(names_seen(ps, 9).contains(pairs[3].0));
    assert(names_seen(ps, 9).contains(pairs[4].0));
    assert(names_seen(ps, 9).contains(pairs[5].0));
    assert(names_seen(ps, 9).contains(pairs[6].0));
    assert(names_seen(ps, 9).contains(pairs[7].0));
    assert(names_seen(ps, 9).contains(pairs[8].0));
}

} // verus!
