//! The configuration of a run and the disk tool's command line.
use vstd::prelude::*;
use vstd::string::*;

use crate::error::{ErrorKind, RunError};

verus! {

/// The configuration of one run: built once at startup, read only after.
#[derive(Clone, Debug)]
pub struct Config {
    /// Device path patterns, in the order in which they are processed.
    pub devices: Vec<String>,
    /// Path of the disk tool.
    pub hdparm_path: String,
    /// Loudness level: `quiet`, `loud` or `show`.
    pub command_arg: String,
}

/// The view of a configuration: its three fields as character sequences.
pub struct ConfigView {
    pub devices: Seq<Seq<char>>,
    pub hdparm_path: Seq<char>,
    pub command_arg: Seq<char>,
}

impl View for Config {
    type V = ConfigView;

    open spec fn view(&self) -> ConfigView {
        ConfigView {
            devices: self.devices@.map_values(|s: String| s@),
            hdparm_path: self.hdparm_path@,
            command_arg: self.command_arg@,
        }
    }
}

pub open spec fn show_level() -> Seq<char> {
    seq!['s', 'h', 'o', 'w']
}

pub open spec fn quiet_level() -> Seq<char> {
    seq!['q', 'u', 'i', 'e', 't']
}

pub open spec fn loud_level() -> Seq<char> {
    seq!['l', 'o', 'u', 'd']
}

/// The acoustic-management value of a level: none for `show` (a query),
/// 128 for `quiet`, 254 for `loud`; any other level has no translation.
pub open spec fn level_value(level: Seq<char>) -> Option<Option<Seq<char>>> {
    if level == show_level() {
        Some(None)
    } else if level == quiet_level() {
        Some(Some(seq!['1', '2', '8']))
    } else if level == loud_level() {
        Some(Some(seq!['2', '5', '4']))
    } else {
        None
    }
}

/// The disk tool's arguments for one device: `-M`, the value if the level
/// has one, then the device path.
pub open spec fn tool_args(level: Seq<char>, device: Seq<char>) -> Option<Seq<Seq<char>>> {
    match level_value(level) {
        Some(Some(v)) => Some(seq![seq!['-', 'M'], v, device]),
        Some(None) => Some(seq![seq!['-', 'M'], device]),
        None => None,
    }
}

/// The disk tool's path used when the configuration names none.
pub open spec fn default_tool_path() -> Seq<char> {
    seq!['/', 's', 'b', 'i', 'n', '/', 'h', 'd', 'p', 'a', 'r', 'm']
}

/// The disk tool's path used when the configuration names none.
pub fn default_hdparm_path() -> (r: String)
    ensures
        r@ == default_tool_path(),
{
    proof {
        reveal_strlit("/sbin/hdparm");
    }
    String::from_str("/sbin/hdparm")
}

impl Config {
    /// A configuration from its parts: the tool path falls back to
    /// `/sbin/hdparm` when none is given.
    pub fn new(devices: Vec<String>, hdparm_path: Option<String>, command_arg: String) -> (r: Config)
        ensures
            r.devices == devices,
            r.command_arg == command_arg,
            hdparm_path matches Some(p) ==> r.hdparm_path == p,
            hdparm_path is None ==> r.hdparm_path@ == default_tool_path(),
    {
        let path = match hdparm_path {
            Some(p) => p,
            None => default_hdparm_path(),
        };
        Config { devices, hdparm_path: path, command_arg }
    }
}

fn text_is(s: &String, lit: &str) -> (r: bool)
    ensures
        r == (s@ == lit@),
{
    let t = String::from_str(lit);
    *s == t
}

/// Translates a loudness level into the tool's numeric value: `Ok(None)`
/// for `show`, `"128"` for `quiet`, `"254"` for `loud`, and an
/// invalid-argument error for anything else.
pub fn translate_arg(level: &String) -> (r: Result<Option<String>, RunError>)
    ensures
        level_value(level@) is None <==> r is Err,
        r matches Err(e) ==> e.kind == ErrorKind::InvalidArg && e.cause is None,
        r matches Ok(v) ==> level_value(level@) == Some(match v {
            Some(s) => Some(s@),
            None => None::<Seq<char>>,
        }),
{
    proof {
        reveal_strlit("show");
        reveal_strlit("quiet");
        reveal_strlit("loud");
        reveal_strlit("128");
        reveal_strlit("254");
        assert("show"@ =~= show_level());
        assert("quiet"@ =~= quiet_level());
        assert("loud"@ =~= loud_level());
        assert("128"@ =~= seq!['1', '2', '8']);
        assert("254"@ =~= seq!['2', '5', '4']);
    }
    if text_is(level, "show") {
        assert(level@ == show_level());
        Ok(None)
    } else if text_is(level, "quiet") {
        assert(level@ == quiet_level());
        Ok(Some(String::from_str("128")))
    } else if text_is(level, "loud") {
        assert(level@ == loud_level());
        Ok(Some(String::from_str("254")))
    } else {
        Err(RunError::new(ErrorKind::InvalidArg))
    }
}

/// One call of the disk tool: the program and its arguments.
#[derive(Clone, Debug)]
pub struct Invocation {
    pub program: String,
    pub args: Vec<String>,
}

impl Invocation {
    pub open spec fn args_view(&self) -> Seq<Seq<char>> {
        self.args@.map_values(|s: String| s@)
    }
}

/// The tool call for one device: the configured tool with `-M`, the
/// level's value if it has one, and the device path. Fails with an
/// invalid-argument error exactly when the level has no translation.
pub fn process_devfile(config: &Config, dev_filename: &String) -> (r: Result<Invocation, RunError>)
    ensures
        tool_args(config.command_arg@, dev_filename@) is None <==> r is Err,
        r matches Err(e) ==> e.kind == ErrorKind::InvalidArg && e.cause is None,
        r matches Ok(inv) ==> inv.program@ == config.hdparm_path@
            && Some(inv.args_view()) == tool_args(config.command_arg@, dev_filename@),
{
    proof {
        reveal_strlit("-M");
        assert("-M"@ =~= seq!['-', 'M']);
    }
    let value = translate_arg(&config.command_arg);
    match value {
        Err(e) => Err(e),
        Ok(v) => {
            let mut args: Vec<String> = Vec::new();
            args.push(String::from_str("-M"));
            match v {
                Some(n) => {
                    args.push(n);
                    args.push(dev_filename.clone());
                    assert(args@.map_values(|s: String| s@) =~= seq![seq!['-', 'M'], n@, dev_filename@]);
                },
                None => {
                    args.push(dev_filename.clone());
                    assert(args@.map_values(|s: String| s@) =~= seq![seq!['-', 'M'], dev_filename@]);
                },
            }
            let inv = Invocation { program: config.hdparm_path.clone(), args };
            Ok(inv)
        },
    }
}

} // verus!
