//! The immutable run configuration: thresholds, delays and the two paths
//! handed through to the managed process.

use vstd::prelude::*;

use crate::numbers::spec_parse_i32;
use crate::numbers::spec_parse_u64;
use crate::numbers::parse_i32;
use crate::numbers::parse_u64;
use crate::text::str_eq;

verus! {

/// Options recognized at startup. Built once by `parse_args` and never
/// mutated afterwards.
pub struct Config {
    /// Path passed through to the managed process (`-c` / `--config`).
    pub config_path: String,
    /// Path passed through to the managed process (`-s` / `--style`).
    pub style_path: String,
    /// Hide boundary: while shown, a sample with Y above this value may
    /// trigger a hide (`-y` / `--y-threshold`, default 7).
    pub y_threshold: i32,
    /// Poll cadence in milliseconds (`-p` / `--poll-ms`, default 75).
    pub poll_ms: u64,
    /// Hide confirmation delay in milliseconds; 0 disables it
    /// (`-d` / `--hide-delay-ms`, default 250).
    pub hide_delay_ms: u64,
    /// Show confirmation delay in milliseconds; 0 disables it
    /// (`-e` / `--show-delay-ms`, default 0).
    pub show_delay_ms: u64,
}

/// The mathematical model of a configuration: the same fields, with the
/// paths as character sequences.
pub ghost struct ConfigModel {
    pub config_path: Seq<char>,
    pub style_path: Seq<char>,
    pub y_threshold: i32,
    pub poll_ms: u64,
    pub hide_delay_ms: u64,
    pub show_delay_ms: u64,
}

impl View for Config {
    type V = ConfigModel;

    open spec fn view(&self) -> ConfigModel {
        ConfigModel {
            config_path: self.config_path@,
            style_path: self.style_path@,
            y_threshold: self.y_threshold,
            poll_ms: self.poll_ms,
            hide_delay_ms: self.hide_delay_ms,
            show_delay_ms: self.show_delay_ms,
        }
    }
}

/// The option parser's running state: the two paths seen so far (if any)
/// and the current numeric values.
pub ghost struct ArgScan {
    pub config_path: Option<Seq<char>>,
    pub style_path: Option<Seq<char>>,
    pub y_threshold: i32,
    pub poll_ms: u64,
    pub hide_delay_ms: u64,
    pub show_delay_ms: u64,
}

/// The state before any argument is read: no paths, defaults everywhere.
pub open spec fn initial_scan() -> ArgScan {
    ArgScan {
        config_path: None,
        style_path: None,
        y_threshold: 7,
        poll_ms: 75,
        hide_delay_ms: 250,
        show_delay_ms: 0,
    }
}

/// One pass over the arguments from position `i` on. A recognized flag
/// consumes the following argument as its value; a path flag with no value
/// left clears that path and ends the scan; a numeric flag with no value
/// left, or with a value that does not parse, fails the whole scan; anything
/// unrecognized is skipped. A later occurrence of a flag overwrites an
/// earlier one.
pub open spec fn scan_args(args: Seq<Seq<char>>, i: int, st: ArgScan) -> Option<ArgScan>
    decreases args.len() - i + 1,
{
    if i < 0 || i >= args.len() {
        Some(st)
    } else {
        let a = args[i];
        if a == "-c"@ || a == "--config"@ {
            if i + 1 < args.len() {
                scan_args(args, i + 2, ArgScan { config_path: Some(args[i + 1]), ..st })
            } else {
                Some(ArgScan { config_path: None, ..st })
            }
        } else if a == "-s"@ || a == "--style"@ {
            if i + 1 < args.len() {
                scan_args(args, i + 2, ArgScan { style_path: Some(args[i + 1]), ..st })
            } else {
                Some(ArgScan { style_path: None, ..st })
            }
        } else if a == "-y"@ || a == "--y-threshold"@ {
            if i + 1 >= args.len() {
                None
            } else {
                match spec_parse_i32(args[i + 1]) {
                    None => None,
                    Some(v) => scan_args(args, i + 2, ArgScan { y_threshold: v, ..st }),
                }
            }
        } else if a == "-p"@ || a == "--poll-ms"@ {
            if i + 1 >= args.len() {
                None
            } else {
                match spec_parse_u64(args[i + 1]) {
                    None => None,
                    Some(v) => scan_args(args, i + 2, ArgScan { poll_ms: v, ..st }),
                }
            }
        } else if a == "-d"@ || a == "--hide-delay-ms"@ {
            if i + 1 >= args.len() {
                None
            } else {
                match spec_parse_u64(args[i + 1]) {
                    None => None,
                    Some(v) => scan_args(args, i + 2, ArgScan { hide_delay_ms: v, ..st }),
                }
            }
        } else if a == "-e"@ || a == "--show-delay-ms"@ {
            if i + 1 >= args.len() {
                None
            } else {
                match spec_parse_u64(args[i + 1]) {
                    None => None,
                    Some(v) => scan_args(args, i + 2, ArgScan { show_delay_ms: v, ..st }),
                }
            }
        } else {
            scan_args(args, i + 1, st)
        }
    }
}

/// The views of a list of argument strings.
pub open spec fn views_of(args: Seq<String>) -> Seq<Seq<char>> {
    args.map_values(|a: String| a@)
}

/// What parsing an argument list yields: the scanned configuration when the
/// scan succeeds and both required paths were given, and nothing otherwise.
pub open spec fn spec_parse_args(args: Seq<Seq<char>>) -> Option<ConfigModel> {
    match scan_args(args, 0, initial_scan()) {
        None => None,
        Some(st) => match (st.config_path, st.style_path) {
            (Some(c), Some(s)) => Some(
                ConfigModel {
                    config_path: c,
                    style_path: s,
                    y_threshold: st.y_threshold,
                    poll_ms: st.poll_ms,
                    hide_delay_ms: st.hide_delay_ms,
                    show_delay_ms: st.show_delay_ms,
                },
            ),
            _ => None,
        },
    }
}

/// The view of an optionally-present string.
pub open spec fn opt_view(o: Option<String>) -> Option<Seq<char>> {
    match o {
        Some(s) => Some(s@),
        None => None,
    }
}

/// Parse the command-line arguments (the program name already removed),
/// exactly as `spec_parse_args` describes: recognized options overwrite
/// their defaults, unknown arguments are ignored, a missing required path or
/// an unparseable numeric value yields nothing.
pub fn parse_args(args: &Vec<String>) -> (r: Option<Config>)
    ensures
        match r {
            Some(cfg) => spec_parse_args(views_of(args@)) == Some(cfg@),
            None => spec_parse_args(views_of(args@)) is None,
        },
{
    let ghost vs = views_of(args@);
    let mut config_path: Option<String> = None;
    let mut style_path: Option<String> = None;
    let mut y_threshold: i32 = 7;
    let mut poll_ms: u64 = 75;
    let mut hide_delay_ms: u64 = 250;
    let mut show_delay_ms: u64 = 0;
    let mut i: usize = 0;
    while i < args.len()
        invariant
            i <= args.len(),
            vs == views_of(args@),
            vs.len() == args@.len(),
            scan_args(vs, 0, initial_scan()) == scan_args(
                vs,
                i as int,
                (ArgScan {
                    config_path: opt_view(config_path),
                    style_path: opt_view(style_path),
                    y_threshold: y_threshold,
                    poll_ms: poll_ms,
                    hide_delay_ms: hide_delay_ms,
                    show_delay_ms: show_delay_ms,
                }),
            ),
        decreases args.len() - i,
    {
        let a: &String = &args[i];
        if str_eq(a.as_str(), "-c") || str_eq(a.as_str(), "--config") {
            if i + 1 < args.len() {
                config_path = Some(args[i + 1].clone());
                i += 2;
            } else {
                config_path = None;
                i += 1;
            }
        } else if str_eq(a.as_str(), "-s") || str_eq(a.as_str(), "--style") {
            if i + 1 < args.len() {
                style_path = Some(args[i + 1].clone());
                i += 2;
            } else {
                style_path = None;
                i += 1;
            }
        } else if str_eq(a.as_str(), "-y") || str_eq(a.as_str(), "--y-threshold") {
            if i + 1 >= args.len() {
                return None;
            }
            match parse_i32(args[i + 1].as_str()) {
                None => {
                    return None;
                },
                Some(v) => {
                    y_threshold = v;
                    i += 2;
                },
            }
        } else if str_eq(a.as_str(), "-p") || str_eq(a.as_str(), "--poll-ms") {
            if i + 1 >= args.len() {
                return None;
            }
            match parse_u64(args[i + 1].as_str()) {
                None => {
                    return None;
                },
                Some(v) => {
                    poll_ms = v;
                    i += 2;
                },
            }
        } else if str_eq(a.as_str(), "-d") || str_eq(a.as_str(), "--hide-delay-ms") {
            if i + 1 >= args.len() {
                return None;
            }
            match parse_u64(args[i + 1].as_str()) {
                None => {
                    return None;
                },
                Some(v) => {
                    hide_delay_ms = v;
                    i += 2;
                },
            }
        } else if str_eq(a.as_str(), "-e") || str_eq(a.as_str(), "--show-delay-ms") {
            if i + 1 >= args.len() {
                return None;
            }
            match parse_u64(args[i + 1].as_str()) {
                None => {
                    return None;
                },
                Some(v) => {
                    show_delay_ms = v;
                    i += 2;
                },
            }
        } else {
            i += 1;
        }
    }
    match (config_path, style_path) {
        (Some(c), Some(s)) => Some(
            Config {
                config_path: c,
                style_path: s,
                y_threshold: y_threshold,
                poll_ms: poll_ms,
                hide_delay_ms: hide_delay_ms,
                show_delay_ms: show_delay_ms,
            },
        ),
        _ => None,
    }
}

} // verus!
