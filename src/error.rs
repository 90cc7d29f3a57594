//! Errors of a run, each with its chain of causes.
use vstd::prelude::*;
use vstd::string::*;

verus! {

/// What went wrong, one kind per stage of the run.
#[derive(Clone, Copy, Debug, PartialEq, Eq, Structural)]
pub enum ErrorKind {
    ConfigOpen,
    ConfigRead,
    ConfigParse,
    CapabilityInit,
    CapabilityUpdate,
    AmbientCap,
    Pattern,
    InvalidArg,
    Spawn,
    Wait,
}

/// A fatal error: its kind and, where there is one, the text of the
/// underlying cause (an OS error, a pattern error).
#[derive(Clone, Debug)]
pub struct RunError {
    pub kind: ErrorKind,
    pub cause: Option<String>,
}

/// The messages that a kind puts in front of its cause, outermost first.
pub open spec fn kind_messages(kind: ErrorKind) -> Seq<Seq<char>> {
    match kind {
        ErrorKind::ConfigOpen => seq!["error opening the configuration file"@],
        ErrorKind::ConfigRead => seq!["error reading from the configuration file"@],
        ErrorKind::ConfigParse => seq!["error parsing the configuration"@],
        ErrorKind::CapabilityInit => seq!["error initializing capabilities"@],
        ErrorKind::CapabilityUpdate => seq!["error setting capabilities"@],
        ErrorKind::AmbientCap => seq![
            "error setting ambient capabilities"@,
            "unable to set ambient capabilities"@,
        ],
        ErrorKind::Pattern => seq!["error listing device files"@],
        ErrorKind::InvalidArg => seq!["wrong command argument"@],
        ErrorKind::Spawn => seq!["error calling hdparm"@],
        ErrorKind::Wait => seq!["error waiting for hdparm to complete"@],
    }
}

/// The whole chain of an error: the kind's messages, then the cause.
pub open spec fn error_chain(kind: ErrorKind, cause: Option<Seq<char>>) -> Seq<Seq<char>> {
    match cause {
        Some(c) => kind_messages(kind).push(c),
        None => kind_messages(kind),
    }
}

/// The chain rendered on one line, its parts joined by `": "`.
pub open spec fn joined(parts: Seq<Seq<char>>) -> Seq<char>
    decreases parts.len(),
{
    if parts.len() == 0 {
        Seq::empty()
    } else if parts.len() == 1 {
        parts[0]
    } else {
        joined(parts.drop_last()) + ": "@ + parts.last()
    }
}

pub open spec fn option_view(o: Option<String>) -> Option<Seq<char>> {
    match o {
        Some(s) => Some(s@),
        None => None,
    }
}

impl RunError {
    pub open spec fn chain(&self) -> Seq<Seq<char>> {
        error_chain(self.kind, option_view(self.cause))
    }

    /// An error of the given kind with no underlying cause.
    pub fn new(kind: ErrorKind) -> (r: RunError)
        ensures
            r.kind == kind,
            r.cause == None::<String>,
    {
        RunError { kind, cause: None }
    }

    /// An error of the given kind caused by `cause`.
    pub fn caused_by(kind: ErrorKind, cause: String) -> (r: RunError)
        ensures
            r.kind == kind,
            r.cause == Some(cause),
    {
        RunError { kind, cause: Some(cause) }
    }

    /// The chain of causes, outermost first.
    pub fn causes(&self) -> (r: Vec<String>)
        ensures
            r@.map_values(|s: String| s@) == self.chain(),
    {
        let mut r: Vec<String> = Vec::new();
        match self.kind {
            ErrorKind::ConfigOpen => {
                r.push(String::from_str("error opening the configuration file"));
            },
            ErrorKind::ConfigRead => {
                r.push(String::from_str("error reading from the configuration file"));
            },
            ErrorKind::ConfigParse => {
                r.push(String::from_str("error parsing the configuration"));
            },
            ErrorKind::CapabilityInit => {
                r.push(String::from_str("error initializing capabilities"));
            },
            ErrorKind::CapabilityUpdate => {
                r.push(String::from_str("error setting capabilities"));
            },
            ErrorKind::AmbientCap => {
                r.push(String::from_str("error setting ambient capabilities"));
                r.push(String::from_str("unable to set ambient capabilities"));
            },
            ErrorKind::Pattern => {
                r.push(String::from_str("error listing device files"));
            },
            ErrorKind::InvalidArg => {
                r.push(String::from_str("wrong command argument"));
            },
            ErrorKind::Spawn => {
                r.push(String::from_str("error calling hdparm"));
            },
            ErrorKind::Wait => {
                r.push(String::from_str("error waiting for hdparm to complete"));
            },
        }
        match &self.cause {
            Some(c) => {
                r.push(c.clone());
            },
            None => {},
        }
        assert(r@.map_values(|s: String| s@) =~= self.chain());
        r
    }

    /// The chain of causes on one line, as it is reported.
    pub fn render(&self) -> (r: String)
        ensures
            r@ == joined(self.chain()),
    {
        let parts = self.causes();
        render_chain(&parts)
    }
}

/// Joins the parts of a chain with `": "`, outermost first.
pub fn render_chain(parts: &Vec<String>) -> (r: String)
    ensures
        r@ == joined(parts@.map_values(|s: String| s@)),
{
    let ghost views = parts@.map_values(|s: String| s@);
    let mut r = String::new();
    let mut i: usize = 0;
    while i < parts.len()
        invariant
            i <= parts@.len(),
            views == parts@.map_values(|s: String| s@),
            r@ == joined(views.subrange(0, i as int)),
        decreases parts@.len() - i,
    {
        if i > 0 {
            r.append(": ");
        }
        r.append(parts[i].as_str());
        proof {
            let next = views.subrange(0, i as int + 1);
            assert(next.drop_last() =~= views.subrange(0, i as int));
            if i == 0 {
                assert(joined(views.subrange(0, 0)) =~= Seq::<char>::empty());
            }
        }
        i = i + 1;
    }
    assert(views.subrange(0, parts@.len() as int) =~= views);
    r
}

} // verus!
