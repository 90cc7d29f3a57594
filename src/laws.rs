//! Properties of whole runs, proved over the transition function.
use vstd::prelude::*;

use crate::config::{ConfigView, tool_args};
use crate::error::{ErrorKind, option_view};
use crate::run::{
    ActionView, ELEVATION_STEPS, Event, Phase, elevation_error, next, trace,
};

verus! {

/// A phase from which nothing more happens.
pub open spec fn halted(p: Phase) -> bool {
    p == Phase::Done || p == Phase::Failed
}

/// The patterns expanded by a sequence of actions, in order.
pub open spec fn expanded(t: Seq<ActionView>) -> Seq<Seq<char>>
    decreases t.len(),
{
    if t.len() == 0 {
        Seq::empty()
    } else {
        match t[0] {
            ActionView::ExpandPattern { pattern, policy } => seq![pattern] + expanded(t.drop_first()),
            _ => expanded(t.drop_first()),
        }
    }
}

/// No action of `t` runs the disk tool.
pub open spec fn spawns_nothing(t: Seq<ActionView>) -> bool {
    forall|j: int| 0 <= j < t.len() ==> !(#[trigger] t[j] is Spawn)
}

/// `a` is, element by element, `b` from position `n` on.
pub open spec fn runs_along(a: Seq<Seq<char>>, b: Seq<Seq<char>>, n: int) -> bool {
    &&& (a.len() == 0 || 0 <= n && n + a.len() <= b.len())
    &&& forall|j: int| 0 <= j < a.len() ==> #[trigger] a[j] == b[n + j]
}

/// The position of the next pattern to be expanded from phase `p`.
pub open spec fn pattern_cursor(c: ConfigView, p: Phase) -> int {
    match p {
        Phase::Idle => 0,
        Phase::Elevating { .. } => 0,
        Phase::Expanding { pattern } => pattern + 1,
        Phase::Matching { pattern } => pattern + 1,
        Phase::Running { pattern } => pattern + 1,
        Phase::Done => c.devices.len() as int,
        Phase::Failed => c.devices.len() as int,
    }
}

/// A run yields exactly one action per event.
pub proof fn lemma_trace_len(c: ConfigView, p: Phase, evs: Seq<Event>)
    ensures
        trace(c, p, evs).len() == evs.len(),
    decreases evs.len(),
{
    if evs.len() > 0 {
        lemma_trace_len(c, next(c, p, evs[0]).0, evs.drop_first());
    }
}

/// Once a run has finished or failed, every further event is ignored.
pub proof fn lemma_halted_run_is_inert(c: ConfigView, p: Phase, evs: Seq<Event>)
    requires
        halted(p),
    ensures
        trace(c, p, evs).len() == evs.len(),
        forall|j: int| 0 <= j < evs.len() ==> #[trigger] trace(c, p, evs)[j] == ActionView::Ignore,
    decreases evs.len(),
{
    if evs.len() > 0 {
        lemma_halted_run_is_inert(c, p, evs.drop_first());
        let t = trace(c, p, evs);
        let rest = trace(c, p, evs.drop_first());
        assert forall|j: int| 0 <= j < evs.len() implies #[trigger] t[j] == ActionView::Ignore by {
            if j > 0 {
                assert(t[j] == rest[j - 1]);
            }
        }
    }
}

/// After a fatal event, the disk tool is never run: neither by that event
/// nor by any event that follows it.
pub proof fn lemma_fatal_event_ends_dispatch(c: ConfigView, p: Phase, e: Event, rest: Seq<Event>)
    requires
        next(c, p, e).0 == Phase::Failed,
    ensures
        spawns_nothing(trace(c, p, seq![e] + rest)),
{
    let evs = seq![e] + rest;
    assert(evs[0] == e);
    assert(evs.drop_first() =~= rest);
    lemma_halted_run_is_inert(c, Phase::Failed, rest);
    let t = trace(c, p, evs);
    let tail = trace(c, Phase::Failed, rest);
    assert forall|j: int| 0 <= j < t.len() implies !(#[trigger] t[j] is Spawn) by {
        if j > 0 {
            assert(t[j] == tail[j - 1]);
        }
    }
}

/// A refused elevation step, whichever of the seven it is, aborts the run
/// with that step's capability error, and no device is ever dispatched.
pub proof fn lemma_elevation_failure_dispatches_nothing(
    c: ConfigView,
    k: usize,
    cause: Option<String>,
    rest: Seq<Event>,
)
    requires
        k < ELEVATION_STEPS,
    ensures
        trace(c, Phase::Elevating { step: k }, seq![Event::StepFailed { cause }] + rest)[0]
            == (ActionView::Abort { kind: elevation_error(k as int), cause: option_view(cause) }),
        elevation_error(k as int) == ErrorKind::CapabilityInit
            || elevation_error(k as int) == ErrorKind::CapabilityUpdate
            || elevation_error(k as int) == ErrorKind::AmbientCap,
        spawns_nothing(trace(c, Phase::Elevating { step: k }, seq![Event::StepFailed { cause }] + rest)),
{
    lemma_fatal_event_ends_dispatch(c, Phase::Elevating { step: k }, Event::StepFailed { cause }, rest);
}

/// A disk tool that cannot be started aborts the run: no later device is
/// attempted.
pub proof fn lemma_spawn_failure_stops_the_run(c: ConfigView, i: usize, cause: String, rest: Seq<Event>)
    ensures
        trace(c, Phase::Running { pattern: i }, seq![Event::SpawnFailed { cause }] + rest)[0]
            == (ActionView::Abort { kind: ErrorKind::Spawn, cause: Some(cause@) }),
        spawns_nothing(trace(c, Phase::Running { pattern: i }, seq![Event::SpawnFailed { cause }] + rest)),
{
    lemma_fatal_event_ends_dispatch(c, Phase::Running { pattern: i }, Event::SpawnFailed { cause }, rest);
}

/// A match that cannot be read is skipped with a warning, and the run goes
/// on exactly as if that match had never been reported: later matches of
/// the same pattern and later patterns are handled as before.
pub proof fn lemma_failed_match_is_skipped(c: ConfigView, i: usize, cause: String, rest: Seq<Event>)
    ensures
        trace(c, Phase::Matching { pattern: i }, seq![Event::MatchFailed { cause }] + rest)
            == seq![ActionView::SkipMatch { warning: cause@ }]
                + trace(c, Phase::Matching { pattern: i }, rest),
{
    let evs = seq![Event::MatchFailed { cause }] + rest;
    assert(evs[0] == Event::MatchFailed { cause });
    assert(evs.drop_first() =~= rest);
}

proof fn lemma_expanded_along(c: ConfigView, p: Phase, evs: Seq<Event>)
    requires
        c.devices.len() <= usize::MAX,
    ensures
        runs_along(expanded(trace(c, p, evs)), c.devices, pattern_cursor(c, p)),
    decreases evs.len(),
{
    if evs.len() > 0 {
        let (p2, a) = next(c, p, evs[0]);
        let rest = trace(c, p2, evs.drop_first());
        let t = trace(c, p, evs);
        lemma_expanded_along(c, p2, evs.drop_first());
        assert(t =~= seq![a] + rest);
        assert(t.drop_first() =~= rest);
        assert(t[0] == a);
        if halted(p2) {
            lemma_halted_run_is_inert(c, p2, evs.drop_first());
            lemma_nothing_expanded(rest);
        }
        let n = pattern_cursor(c, p);
        let x = expanded(t);
        let y = expanded(rest);
        match a {
            ActionView::ExpandPattern { pattern, policy } => {
                assert(x == seq![pattern] + y);
                assert(n < c.devices.len() && pattern == c.devices[n]);
                assert(pattern_cursor(c, p2) == n + 1);
                lemma_along_cons(pattern, y, c.devices, n);
                assert(runs_along(x, c.devices, n));
            },
            _ => {
                assert(x == y);
                assert(halted(p2) || pattern_cursor(c, p2) == n);
            },
        }
    } else {
        assert(expanded(trace(c, p, evs)) =~= Seq::<Seq<char>>::empty());
    }
}

proof fn lemma_along_cons(head: Seq<char>, tail: Seq<Seq<char>>, b: Seq<Seq<char>>, n: int)
    requires
        0 <= n < b.len(),
        head == b[n],
        runs_along(tail, b, n + 1),
    ensures
        runs_along(seq![head] + tail, b, n),
{
    let x = seq![head] + tail;
    assert forall|j: int| 0 <= j < x.len() implies #[trigger] x[j] == b[n + j] by {
        if j > 0 {
            assert(x[j] == tail[j - 1]);
            assert(tail[j - 1] == b[n + 1 + (j - 1)]);
        }
    }
}

proof fn lemma_nothing_expanded(t: Seq<ActionView>)
    requires
        forall|j: int| 0 <= j < t.len() ==> #[trigger] t[j] == ActionView::Ignore,
    ensures
        expanded(t) == Seq::<Seq<char>>::empty(),
    decreases t.len(),
{
    if t.len() > 0 {
        assert forall|j: int| 0 <= j < t.drop_first().len() implies #[trigger] t.drop_first()[j]
            == ActionView::Ignore by {
            assert(t.drop_first()[j] == t[j + 1]);
        }
        lemma_nothing_expanded(t.drop_first());
    }
}

/// Patterns are expanded in the order in which the configuration lists
/// them, each at most once: whatever happens, the patterns expanded by a
/// run are a prefix of the configured list.
pub proof fn lemma_patterns_in_config_order(c: ConfigView, evs: Seq<Event>)
    requires
        c.devices.len() <= usize::MAX,
    ensures
        expanded(trace(c, Phase::Idle, evs)).len() <= c.devices.len(),
        expanded(trace(c, Phase::Idle, evs))
            == c.devices.subrange(0, expanded(trace(c, Phase::Idle, evs)).len() as int),
{
    lemma_expanded_along(c, Phase::Idle, evs);
    let x = expanded(trace(c, Phase::Idle, evs));
    assert(x =~= c.devices.subrange(0, x.len() as int));
}

/// Devices are dispatched in the order in which their matches arrive: an
/// event that runs the disk tool is the match of a device, and the call is
/// the configured tool on exactly that device.
pub proof fn lemma_dispatch_follows_matches(c: ConfigView, p: Phase, evs: Seq<Event>, j: int)
    requires
        0 <= j < evs.len(),
        trace(c, p, evs)[j] is Spawn,
    ensures
        evs[j] is Matched,
        evs[j] matches Event::Matched { path } && tool_args(c.command_arg, path@) matches Some(args)
            && trace(c, p, evs)[j] == (ActionView::Spawn { program: c.hdparm_path, args }),
    decreases j,
{
    lemma_trace_len(c, p, evs);
    let p2 = next(c, p, evs[0]).0;
    let rest = trace(c, p2, evs.drop_first());
    if j > 0 {
        assert(trace(c, p, evs)[j] == rest[j - 1]);
        lemma_dispatch_follows_matches(c, p2, evs.drop_first(), j - 1);
        assert(evs.drop_first()[j - 1] == evs[j]);
    }
}

/// The number of successful elevation outcomes among `evs`.
pub open spec fn steps_done(evs: Seq<Event>) -> nat
    decreases evs.len(),
{
    if evs.len() == 0 {
        0
    } else {
        (if evs[0] is StepDone { 1nat } else { 0nat }) + steps_done(evs.drop_first())
    }
}

/// How many elevation steps have succeeded on reaching phase `p`.
pub open spec fn elevation_progress(p: Phase) -> int {
    match p {
        Phase::Idle => 0,
        Phase::Elevating { step } => step as int,
        Phase::Failed => 0,
        _ => ELEVATION_STEPS as int,
    }
}

proof fn lemma_dispatch_needs_elevation(c: ConfigView, p: Phase, evs: Seq<Event>, j: int)
    requires
        0 <= j < evs.len(),
        trace(c, p, evs)[j] is Spawn,
    ensures
        elevation_progress(p) + steps_done(evs.subrange(0, j)) >= ELEVATION_STEPS,
    decreases j,
{
    lemma_trace_len(c, p, evs);
    let p2 = next(c, p, evs[0]).0;
    let rest = trace(c, p2, evs.drop_first());
    if j > 0 {
        assert(trace(c, p, evs)[j] == rest[j - 1]);
        if p2 == Phase::Failed {
            lemma_halted_run_is_inert(c, p2, evs.drop_first());
        } else {
            lemma_dispatch_needs_elevation(c, p2, evs.drop_first(), j - 1);
            let pre = evs.subrange(0, j);
            assert(pre[0] == evs[0]);
            assert(pre.drop_first() =~= evs.drop_first().subrange(0, j - 1));
        }
    }
}

/// A run dispatches no device before all seven elevation steps have
/// succeeded: whatever events a fresh run meets, an action that runs the
/// disk tool comes after seven successful elevation outcomes.
pub proof fn lemma_no_dispatch_before_elevation(c: ConfigView, evs: Seq<Event>, j: int)
    requires
        0 <= j < evs.len(),
        trace(c, Phase::Idle, evs)[j] is Spawn,
    ensures
        steps_done(evs.subrange(0, j)) >= ELEVATION_STEPS,
{
    lemma_dispatch_needs_elevation(c, Phase::Idle, evs, j);
}

} // verus!
