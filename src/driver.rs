//! The lifecycle driver as a state machine. The runtime that hosts a task asks
//! `step` what to do next, does it (bind the mailbox, run the routine under
//! panic containment, run the termination hook under a second containment),
//! and reports back what happened.

use crate::lifecycle::{shutdown_report, ShutdownError, TerminateReason};
use vstd::prelude::*;
use vstd::string::StringExecFns;

verus! {

/// How a contained piece of user code (the run routine or the hook) ended.
#[derive(Debug, Clone, PartialEq, Eq)]
pub enum Outcome {
    /// It returned.
    Returned,
    /// It panicked; the text of its payload.
    Panicked(String),
}

/// Where a task stands in its lifecycle.
#[derive(Debug, Clone, PartialEq, Eq)]
pub enum Phase {
    /// Spawned; its receive endpoint is not bound to the mailbox yet.
    Spawned,
    /// The run routine is executing.
    Running,
    /// The run routine is over with this reason; the termination hook runs.
    Completing(TerminateReason),
    /// Done; the reason is what `join` and `shutdown` report.
    Terminated(TerminateReason),
    /// Cancelled from outside: no hook, nothing further.
    Aborted,
}

/// What the host runtime observed.
#[derive(Debug, Clone, PartialEq, Eq)]
pub enum Event {
    /// The receive endpoint is now in the mailbox.
    Bound,
    /// The run routine ended.
    StartEnded(Outcome),
    /// The termination hook ended.
    HookEnded(Outcome),
    /// The task was killed. This models tokio's abort, which `TaskHandle::kill`
    /// requests: the runtime stops polling the driver, so no step after this
    /// one is ever taken, and the machine records that none may act.
    Killed,
}

/// What the host runtime must do next.
#[derive(Debug, Clone, PartialEq, Eq)]
pub enum Action {
    /// Run the task's run routine under panic containment.
    RunStart,
    /// Run the termination hook with this reason, under a second containment.
    RunHook(TerminateReason),
    /// Hand this reason to the joiner; when the hook panicked, the second
    /// component is its payload's text, to be reported as a warning.
    Finish(TerminateReason, Option<String>),
    /// Nothing.
    Idle,
}

/// The reason a run routine's outcome gives.
pub open spec fn reason_for(o: Outcome) -> TerminateReason {
    match o {
        Outcome::Returned => TerminateReason::Normal,
        Outcome::Panicked(m) => TerminateReason::Panic(m),
    }
}

/// The transition function: the next phase and the action that goes with it.
pub open spec fn next(p: Phase, e: Event) -> (Phase, Action) {
    match (p, e) {
        (Phase::Terminated(r), _) => (Phase::Terminated(r), Action::Idle),
        (Phase::Aborted, _) => (Phase::Aborted, Action::Idle),
        (_, Event::Killed) => (Phase::Aborted, Action::Idle),
        (Phase::Spawned, Event::Bound) => (Phase::Running, Action::RunStart),
        (Phase::Running, Event::StartEnded(o)) => (
            Phase::Completing(reason_for(o)),
            Action::RunHook(reason_for(o)),
        ),
        (Phase::Completing(r), Event::HookEnded(Outcome::Returned)) => (
            Phase::Terminated(r),
            Action::Finish(r, None),
        ),
        (Phase::Completing(r), Event::HookEnded(Outcome::Panicked(m))) => (
            Phase::Terminated(r),
            Action::Finish(r, Some(m)),
        ),
        (p, _) => (p, Action::Idle),
    }
}

/// The actions that a run of events from phase `p` calls for, in order.
pub open spec fn actions(p: Phase, es: Seq<Event>) -> Seq<Action>
    decreases es.len(),
{
    if es.len() == 0 {
        Seq::empty()
    } else {
        let (q, a) = next(p, es[0]);
        seq![a] + actions(q, es.drop_first())
    }
}

/// What the joiner is told when the hook ended with outcome `h`: the warning
/// that accompanies the reason.
pub open spec fn hook_warning(h: Outcome) -> Option<String> {
    match h {
        Outcome::Returned => None,
        Outcome::Panicked(m) => Some(m),
    }
}

/// Once aborted, a task stays aborted and no event calls for any action.
pub proof fn lemma_aborted_is_silent(es: Seq<Event>)
    ensures
        actions(Phase::Aborted, es) == Seq::new(es.len(), |_i: int| Action::Idle),
    decreases es.len(),
{
    if es.len() > 0 {
        lemma_aborted_is_silent(es.drop_first());
    }
    assert(actions(Phase::Aborted, es) =~= Seq::new(es.len(), |_i: int| Action::Idle));
}

/// Killing a task that has not terminated aborts it, and whatever is observed
/// afterwards, its termination hook is never run and no reason is handed on.
pub proof fn lemma_kill_skips_terminate_hook(p: Phase, later: Seq<Event>)
    requires
        !(p is Terminated),
    ensures
        next(p, Event::Killed) == (Phase::Aborted, Action::Idle),
        forall|i: int|
            0 <= i < later.len() ==> !(#[trigger] actions(Phase::Aborted, later)[i] is RunHook)
                && !(actions(Phase::Aborted, later)[i] is Finish),
{
    lemma_aborted_is_silent(later);
}

/// A task whose run routine panics with message `m` has its hook called with
/// `Panic(m)`, finishes with `Panic(m)` whatever the hook does, and a graceful
/// shutdown that sees it finish reports `Ok(Panic(m))`.
pub proof fn lemma_shutdown_returns_panic_reason(m: String, hook: Outcome)
    ensures
        actions(
            Phase::Spawned,
            seq![Event::Bound, Event::StartEnded(Outcome::Panicked(m)), Event::HookEnded(hook)],
        ) == seq![
            Action::RunStart,
            Action::RunHook(TerminateReason::Panic(m)),
            Action::Finish(TerminateReason::Panic(m), hook_warning(hook)),
        ],
        shutdown_report(Some(Ok(TerminateReason::Panic(m))))
            == Ok::<TerminateReason, ShutdownError>(TerminateReason::Panic(m)),
{
    let es = seq![Event::Bound, Event::StartEnded(Outcome::Panicked(m)), Event::HookEnded(hook)];
    assert(es.drop_first() =~= seq![Event::StartEnded(Outcome::Panicked(m)), Event::HookEnded(hook)]);
    assert(es.drop_first().drop_first() =~= seq![Event::HookEnded(hook)]);
    assert(es.drop_first().drop_first().drop_first() =~= Seq::<Event>::empty());
    reveal_with_fuel(actions, 4);
    assert(actions(Phase::Spawned, es) =~= seq![
        Action::RunStart,
        Action::RunHook(TerminateReason::Panic(m)),
        Action::Finish(TerminateReason::Panic(m), hook_warning(hook)),
    ]);
}

/// The termination hook cannot change how a task ended: whether it returns or
/// panics, the task finishes with the reason computed before the hook ran, and
/// a panic in the hook only adds a warning.
pub proof fn lemma_hook_panic_is_swallowed(r: TerminateReason, hook: Outcome)
    ensures
        next(Phase::Completing(r), Event::HookEnded(hook)) == (
            Phase::Terminated(r),
            Action::Finish(r, hook_warning(hook)),
        ),
{
}

/// The events of a whole execution, in the order the driver asks for them: the
/// endpoint is bound, the run routine ends with `start`, the hook with `hook`.
pub open spec fn full_run(start: Outcome, hook: Outcome) -> Seq<Event> {
    seq![Event::Bound, Event::StartEnded(start), Event::HookEnded(hook)]
}

/// The events that a host runtime reports, in the order the driver asks for
/// them, always call for work: binding leads to the run routine, its end to
/// the hook with the routine's reason, the hook's end to handing that same
/// reason to the joiner. The driver is never left with nothing to do.
pub proof fn lemma_full_run_never_idles(start: Outcome, hook: Outcome)
    ensures
        actions(Phase::Spawned, full_run(start, hook)) == seq![
            Action::RunStart,
            Action::RunHook(reason_for(start)),
            Action::Finish(reason_for(start), hook_warning(hook)),
        ],
        forall|i: int|
            0 <= i < 3 ==> !(#[trigger] actions(Phase::Spawned, full_run(start, hook))[i] is Idle),
{
    let es = full_run(start, hook);
    assert(es.drop_first() =~= seq![Event::StartEnded(start), Event::HookEnded(hook)]);
    assert(es.drop_first().drop_first() =~= seq![Event::HookEnded(hook)]);
    assert(es.drop_first().drop_first().drop_first() =~= Seq::<Event>::empty());
    reveal_with_fuel(actions, 4);
    assert(actions(Phase::Spawned, es) =~= seq![
        Action::RunStart,
        Action::RunHook(reason_for(start)),
        Action::Finish(reason_for(start), hook_warning(hook)),
    ]);
}

/// The outcome of a contained piece of code that panicked, from the payload's
/// text when the payload was a string, else a fixed stand-in.
pub fn panic_outcome(payload: Option<String>) -> (r: Outcome)
    ensures
        payload matches Some(m) ==> r == Outcome::Panicked(m),
        payload is None ==> (r matches Outcome::Panicked(m) && m@ == "unknown panic"@),
{
    match payload {
        Some(m) => Outcome::Panicked(m),
        None => Outcome::Panicked(String::from_str("unknown panic")),
    }
}

/// Advances the lifecycle by one observed event.
pub fn step(p: Phase, e: Event) -> (r: (Phase, Action))
    ensures
        r == next(p, e),
{
    match p {
        Phase::Terminated(r) => (Phase::Terminated(r), Action::Idle),
        Phase::Aborted => (Phase::Aborted, Action::Idle),
        Phase::Spawned => match e {
            Event::Killed => (Phase::Aborted, Action::Idle),
            Event::Bound => (Phase::Running, Action::RunStart),
            _ => (Phase::Spawned, Action::Idle),
        },
        Phase::Running => match e {
            Event::Killed => (Phase::Aborted, Action::Idle),
            Event::StartEnded(o) => {
                let reason = match o {
                    Outcome::Returned => TerminateReason::Normal,
                    Outcome::Panicked(m) => TerminateReason::Panic(m),
                };
                let for_hook = reason.duplicate();
                (Phase::Completing(reason), Action::RunHook(for_hook))
            },
            _ => (Phase::Running, Action::Idle),
        },
        Phase::Completing(reason) => match e {
            Event::Killed => (Phase::Aborted, Action::Idle),
            Event::HookEnded(o) => {
                let for_joiner = reason.duplicate();
                let warning = match o {
                    Outcome::Returned => None,
                    Outcome::Panicked(m) => Some(m),
                };
                (Phase::Terminated(reason), Action::Finish(for_joiner, warning))
            },
            _ => (Phase::Completing(reason), Action::Idle),
        },
    }
}

} // verus!
