//! The run as a state machine: the program around the library performs each
//! action and reports what came of it as the next event.
//!
//! A run raises two capabilities in seven steps, then expands each device
//! pattern in configuration order and calls the disk tool once per matched
//! device, waiting for each call before the next. A failed match is skipped
//! with a warning; every other failure ends the run.
use vstd::prelude::*;

use crate::config::{Config, ConfigView, process_devfile, tool_args};
use crate::error::{ErrorKind, RunError, option_view};

verus! {

/// A capability that the run raises.
#[derive(Clone, Copy, Debug, PartialEq, Eq, Structural)]
pub enum Capability {
    /// Bypass of discretionary file-permission checks.
    DacOverride,
    /// Raw I/O access.
    SysRawio,
}

impl Capability {
    /// The kernel's number of the capability.
    pub open spec fn spec_number(self) -> u8 {
        match self {
            Capability::DacOverride => 1,
            Capability::SysRawio => 17,
        }
    }

    /// The kernel's number of the capability.
    pub fn number(&self) -> (r: u8)
        ensures
            r == self.spec_number(),
    {
        match self {
            Capability::DacOverride => 1,
            Capability::SysRawio => 17,
        }
    }
}

/// A capability set of the process, besides the ambient one.
#[derive(Clone, Copy, Debug, PartialEq, Eq, Structural)]
pub enum CapFlag {
    Effective,
    Inheritable,
    Permitted,
}

/// How device patterns are matched against paths.
#[derive(Clone, Copy, Debug, PartialEq, Eq, Structural)]
pub struct MatchPolicy {
    pub case_sensitive: bool,
    /// Wildcards never match a path separator.
    pub require_literal_separator: bool,
    /// Wildcards never match a leading dot of a path segment.
    pub require_literal_leading_dot: bool,
}

pub open spec fn device_policy() -> MatchPolicy {
    MatchPolicy {
        case_sensitive: true,
        require_literal_separator: true,
        require_literal_leading_dot: true,
    }
}

/// The policy for device patterns: case-sensitive, with separators and
/// leading dots matched only literally.
pub fn device_match_policy() -> (r: MatchPolicy)
    ensures
        r == device_policy(),
{
    MatchPolicy {
        case_sensitive: true,
        require_literal_separator: true,
        require_literal_leading_dot: true,
    }
}

/// Number of steps that raise the capabilities.
pub const ELEVATION_STEPS: usize = 7;

/// Where a run stands.
#[derive(Clone, Copy, Debug, PartialEq, Eq, Structural)]
pub enum Phase {
    /// Not started.
    Idle,
    /// Waiting for the outcome of elevation step `step`.
    Elevating { step: usize },
    /// Waiting for the expansion of pattern `pattern`.
    Expanding { pattern: usize },
    /// Waiting for the next match of pattern `pattern`.
    Matching { pattern: usize },
    /// Waiting for the disk tool called on a match of pattern `pattern`.
    Running { pattern: usize },
    /// Finished; every device was handled.
    Done,
    /// Stopped by a fatal error.
    Failed,
}

/// What came of the last action.
#[derive(Clone, Debug)]
pub enum Event {
    /// The run is to begin.
    Start,
    /// The elevation step succeeded.
    StepDone,
    /// The elevation step was refused, with the OS error text if any.
    StepFailed { cause: Option<String> },
    /// The pattern was accepted; its matches can be read.
    Expanded,
    /// The pattern could not be expanded.
    ExpandFailed { cause: String },
    /// The next match is this path.
    Matched { path: String },
    /// Reading the next match failed.
    MatchFailed { cause: String },
    /// The pattern has no more matches.
    Exhausted,
    /// The disk tool exited, whatever its status.
    Exited,
    /// The disk tool could not be started.
    SpawnFailed { cause: String },
    /// Waiting for the disk tool failed.
    WaitFailed { cause: String },
}

/// What the program is to do next.
#[derive(Clone, Debug)]
pub enum Action {
    /// Initialise the process's capability state.
    InitCapabilities,
    /// Raise `caps` in the set `flag`.
    UpdateCapabilities { flag: CapFlag, caps: Vec<Capability> },
    /// Apply the updated capability state to the process.
    ApplyCapabilities,
    /// Raise `cap` in the ambient set.
    RaiseAmbient { cap: Capability },
    /// Expand `pattern` under `policy`, then report `Expanded` or `ExpandFailed`.
    ExpandPattern { pattern: String, policy: MatchPolicy },
    /// Read the next match of the current pattern.
    NextMatch,
    /// Print the warning, then read the next match of the current pattern.
    SkipMatch { warning: String },
    /// Run the disk tool and wait for it to exit.
    Spawn { program: String, args: Vec<String> },
    /// The run succeeded.
    Finish,
    /// The run failed with this error.
    Abort { error: RunError },
    /// The event did not fit the phase and was ignored.
    Ignore,
}

/// The view of an action, with text as character sequences.
pub enum ActionView {
    InitCapabilities,
    UpdateCapabilities { flag: CapFlag, caps: Seq<Capability> },
    ApplyCapabilities,
    RaiseAmbient { cap: Capability },
    ExpandPattern { pattern: Seq<char>, policy: MatchPolicy },
    NextMatch,
    SkipMatch { warning: Seq<char> },
    Spawn { program: Seq<char>, args: Seq<Seq<char>> },
    Finish,
    Abort { kind: ErrorKind, cause: Option<Seq<char>> },
    Ignore,
}

impl View for Action {
    type V = ActionView;

    open spec fn view(&self) -> ActionView {
        match self {
            Action::InitCapabilities => ActionView::InitCapabilities,
            Action::UpdateCapabilities { flag, caps } => ActionView::UpdateCapabilities {
                flag: *flag,
                caps: caps@,
            },
            Action::ApplyCapabilities => ActionView::ApplyCapabilities,
            Action::RaiseAmbient { cap } => ActionView::RaiseAmbient { cap: *cap },
            Action::ExpandPattern { pattern, policy } => ActionView::ExpandPattern {
                pattern: pattern@,
                policy: *policy,
            },
            Action::NextMatch => ActionView::NextMatch,
            Action::SkipMatch { warning } => ActionView::SkipMatch { warning: warning@ },
            Action::Spawn { program, args } => ActionView::Spawn {
                program: program@,
                args: args@.map_values(|s: String| s@),
            },
            Action::Finish => ActionView::Finish,
            Action::Abort { error } => ActionView::Abort {
                kind: error.kind,
                cause: option_view(error.cause),
            },
            Action::Ignore => ActionView::Ignore,
        }
    }
}

/// The two capabilities, in the order in which they are raised.
pub open spec fn required_caps() -> Seq<Capability> {
    seq![Capability::DacOverride, Capability::SysRawio]
}

/// Elevation step `k`: initialise; raise both capabilities in the
/// effective, inheritable and permitted sets; apply; raise each in the
/// ambient set.
pub open spec fn elevation_action(k: int) -> ActionView {
    if k == 0 {
        ActionView::InitCapabilities
    } else if k == 1 {
        ActionView::UpdateCapabilities { flag: CapFlag::Effective, caps: required_caps() }
    } else if k == 2 {
        ActionView::UpdateCapabilities { flag: CapFlag::Inheritable, caps: required_caps() }
    } else if k == 3 {
        ActionView::UpdateCapabilities { flag: CapFlag::Permitted, caps: required_caps() }
    } else if k == 4 {
        ActionView::ApplyCapabilities
    } else if k == 5 {
        ActionView::RaiseAmbient { cap: Capability::DacOverride }
    } else {
        ActionView::RaiseAmbient { cap: Capability::SysRawio }
    }
}

/// The error of a refused elevation step.
pub open spec fn elevation_error(k: int) -> ErrorKind {
    if k == 0 {
        ErrorKind::CapabilityInit
    } else if k <= 4 {
        ErrorKind::CapabilityUpdate
    } else {
        ErrorKind::AmbientCap
    }
}

/// Start on pattern `i`, or finish if there is none.
pub open spec fn pattern_from(c: ConfigView, i: int) -> (Phase, ActionView) {
    if 0 <= i < c.devices.len() {
        (
            Phase::Expanding { pattern: i as usize },
            ActionView::ExpandPattern { pattern: c.devices[i], policy: device_policy() },
        )
    } else {
        (Phase::Done, ActionView::Finish)
    }
}

/// One transition: the next phase and the action, for an event in a phase.
pub open spec fn next(c: ConfigView, p: Phase, e: Event) -> (Phase, ActionView) {
    match (p, e) {
        (Phase::Idle, Event::Start) => (Phase::Elevating { step: 0 }, elevation_action(0)),
        (Phase::Elevating { step }, Event::StepDone) => {
            if step + 1 < ELEVATION_STEPS {
                (Phase::Elevating { step: (step + 1) as usize }, elevation_action(step + 1))
            } else {
                pattern_from(c, 0)
            }
        },
        (Phase::Elevating { step }, Event::StepFailed { cause }) => (
            Phase::Failed,
            ActionView::Abort { kind: elevation_error(step as int), cause: option_view(cause) },
        ),
        (Phase::Expanding { pattern }, Event::Expanded) => (
            Phase::Matching { pattern },
            ActionView::NextMatch,
        ),
        (Phase::Expanding { pattern }, Event::ExpandFailed { cause }) => (
            Phase::Failed,
            ActionView::Abort { kind: ErrorKind::Pattern, cause: Some(cause@) },
        ),
        (Phase::Matching { pattern }, Event::Matched { path }) => {
            match tool_args(c.command_arg, path@) {
                Some(args) => (
                    Phase::Running { pattern },
                    ActionView::Spawn { program: c.hdparm_path, args },
                ),
                None => (
                    Phase::Failed,
                    ActionView::Abort { kind: ErrorKind::InvalidArg, cause: None },
                ),
            }
        },
        (Phase::Matching { pattern }, Event::MatchFailed { cause }) => (
            Phase::Matching { pattern },
            ActionView::SkipMatch { warning: cause@ },
        ),
        (Phase::Matching { pattern }, Event::Exhausted) => pattern_from(c, pattern + 1),
        (Phase::Running { pattern }, Event::Exited) => (
            Phase::Matching { pattern },
            ActionView::NextMatch,
        ),
        (Phase::Running { pattern }, Event::SpawnFailed { cause }) => (
            Phase::Failed,
            ActionView::Abort { kind: ErrorKind::Spawn, cause: Some(cause@) },
        ),
        (Phase::Running { pattern }, Event::WaitFailed { cause }) => (
            Phase::Failed,
            ActionView::Abort { kind: ErrorKind::Wait, cause: Some(cause@) },
        ),
        _ => (p, ActionView::Ignore),
    }
}

/// The actions of a run that meets `evs` from phase `p`, one per event.
pub open spec fn trace(c: ConfigView, p: Phase, evs: Seq<Event>) -> Seq<ActionView>
    decreases evs.len(),
{
    if evs.len() == 0 {
        Seq::empty()
    } else {
        let (p2, a) = next(c, p, evs[0]);
        seq![a] + trace(c, p2, evs.drop_first())
    }
}

fn elevation_step(k: usize) -> (a: Action)
    requires
        k < ELEVATION_STEPS,
    ensures
        a@ == elevation_action(k as int),
{
    if k == 0 {
        Action::InitCapabilities
    } else if k <= 3 {
        let flag = if k == 1 {
            CapFlag::Effective
        } else if k == 2 {
            CapFlag::Inheritable
        } else {
            CapFlag::Permitted
        };
        let caps = vec![Capability::DacOverride, Capability::SysRawio];
        assert(caps@ =~= required_caps());
        Action::UpdateCapabilities { flag, caps }
    } else if k == 4 {
        Action::ApplyCapabilities
    } else if k == 5 {
        Action::RaiseAmbient { cap: Capability::DacOverride }
    } else {
        Action::RaiseAmbient { cap: Capability::SysRawio }
    }
}

fn elevation_failure(k: usize) -> (kind: ErrorKind)
    ensures
        kind == elevation_error(k as int),
{
    if k == 0 {
        ErrorKind::CapabilityInit
    } else if k <= 4 {
        ErrorKind::CapabilityUpdate
    } else {
        ErrorKind::AmbientCap
    }
}

/// A run of the disk tool over a configuration.
pub struct Runner {
    pub config: Config,
    pub phase: Phase,
}

impl Runner {
    /// A run over `config` that has not started.
    pub fn new(config: Config) -> (r: Runner)
        ensures
            r.config == config,
            r.phase == Phase::Idle,
    {
        Runner { config, phase: Phase::Idle }
    }

    fn start_pattern(&mut self, i: usize) -> (a: Action)
        ensures
            final(self).config == old(self).config,
            (final(self).phase, a@) == pattern_from(old(self).config@, i as int),
    {
        if i < self.config.devices.len() {
            self.phase = Phase::Expanding { pattern: i };
            Action::ExpandPattern {
                pattern: self.config.devices[i].clone(),
                policy: device_match_policy(),
            }
        } else {
            self.phase = Phase::Done;
            Action::Finish
        }
    }

    /// Takes the outcome of the last action and returns the next action.
    pub fn step(&mut self, event: Event) -> (a: Action)
        ensures
            final(self).config == old(self).config,
            (final(self).phase, a@) == next(old(self).config@, old(self).phase, event),
    {
        match (self.phase, event) {
            (Phase::Idle, Event::Start) => {
                self.phase = Phase::Elevating { step: 0 };
                elevation_step(0)
            },
            (Phase::Elevating { step }, Event::StepDone) => {
                if step < ELEVATION_STEPS - 1 {
                    self.phase = Phase::Elevating { step: step + 1 };
                    elevation_step(step + 1)
                } else {
                    self.start_pattern(0)
                }
            },
            (Phase::Elevating { step }, Event::StepFailed { cause }) => {
                self.phase = Phase::Failed;
                Action::Abort { error: RunError { kind: elevation_failure(step), cause } }
            },
            (Phase::Expanding { pattern }, Event::Expanded) => {
                self.phase = Phase::Matching { pattern };
                Action::NextMatch
            },
            (Phase::Expanding { pattern }, Event::ExpandFailed { cause }) => {
                self.phase = Phase::Failed;
                Action::Abort { error: RunError::caused_by(ErrorKind::Pattern, cause) }
            },
            (Phase::Matching { pattern }, Event::Matched { path }) => {
                match process_devfile(&self.config, &path) {
                    Ok(inv) => {
                        self.phase = Phase::Running { pattern };
                        Action::Spawn { program: inv.program, args: inv.args }
                    },
                    Err(error) => {
                        self.phase = Phase::Failed;
                        Action::Abort { error }
                    },
                }
            },
            (Phase::Matching { pattern }, Event::MatchFailed { cause }) => {
                Action::SkipMatch { warning: cause }
            },
            (Phase::Matching { pattern }, Event::Exhausted) => {
                if pattern < self.config.devices.len() {
                    self.start_pattern(pattern + 1)
                } else {
                    self.phase = Phase::Done;
                    Action::Finish
                }
            },
            (Phase::Running { pattern }, Event::Exited) => {
                self.phase = Phase::Matching { pattern };
                Action::NextMatch
            },
            (Phase::Running { pattern }, Event::SpawnFailed { cause }) => {
                self.phase = Phase::Failed;
                Action::Abort { error: RunError::caused_by(ErrorKind::Spawn, cause) }
            },
            (Phase::Running { pattern }, Event::WaitFailed { cause }) => {
                self.phase = Phase::Failed;
                Action::Abort { error: RunError::caused_by(ErrorKind::Wait, cause) }
            },
            _ => Action::Ignore,
        }
    }
}

} // verus!
