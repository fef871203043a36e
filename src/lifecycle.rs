use vstd::prelude::*;

verus! {

/// Where the application process stands in its life.
#[derive(Clone, Copy, Debug, PartialEq, Eq, Structural)]
pub enum Lifecycle {
    /// The builder has been assembled; the run loop has not come up yet.
    NotRunning,
    /// The run loop is up and dispatches invocations.
    Running,
    /// The run loop failed after it was up; the process ends with a fatal diagnostic.
    Terminated,
}

/// What the host toolkit reports about its run loop.
#[derive(Clone, Copy, Debug, PartialEq, Eq, Structural)]
pub enum HostEvent {
    /// The run loop came up and the setup hook ran.
    Started,
    /// The run loop could not start or failed (no window surface, for example).
    Failed,
}

/// What the entry point does after an event.
#[derive(Clone, Copy, Debug, PartialEq, Eq, Structural)]
pub enum Action {
    /// Keep handing control to the run loop.
    Continue,
    /// End the process with the fatal diagnostic.
    Abort,
}

/// The state that follows `s` on event `e`. The only changes of state are
/// `NotRunning` to `Running` and `Running` to `Terminated`: a failed start
/// leaves the state as it is (the process is aborted instead), and
/// `Terminated` is never left.
pub open spec fn next_state(s: Lifecycle, e: HostEvent) -> Lifecycle {
    match (s, e) {
        (Lifecycle::NotRunning, HostEvent::Started) => Lifecycle::Running,
        (Lifecycle::Running, HostEvent::Failed) => Lifecycle::Terminated,
        _ => s,
    }
}

/// The action owed after event `e` in state `s`: abort on any failure, and on
/// any event once terminated; otherwise continue.
pub open spec fn next_action(s: Lifecycle, e: HostEvent) -> Action {
    if e == HostEvent::Failed || s == Lifecycle::Terminated {
        Action::Abort
    } else {
        Action::Continue
    }
}

/// The states of the process over its lifetime, starting with `s`, one more
/// after each event. The trace ends with the event whose action is `Abort`:
/// the process does not outlive it.
pub open spec fn trace(s: Lifecycle, events: Seq<HostEvent>) -> Seq<Lifecycle>
    decreases events.len(),
{
    if events.len() == 0 {
        seq![s]
    } else {
        let t = next_state(s, events[0]);
        if next_action(s, events[0]) == Action::Abort {
            seq![s, t]
        } else {
            seq![s] + trace(t, events.drop_first())
        }
    }
}

/// How many times a trace moves into `Running` from another state.
pub open spec fn entries_into_running(tr: Seq<Lifecycle>) -> nat
    decreases tr.len(),
{
    if tr.len() < 2 {
        0
    } else {
        let here: nat = if tr[0] != Lifecycle::Running && tr[1] == Lifecycle::Running {
            1
        } else {
            0
        };
        here + entries_into_running(tr.drop_first())
    }
}

/// One transition: the next state and the action for the entry point.
pub fn step(s: Lifecycle, e: HostEvent) -> (r: (Lifecycle, Action))
    ensures
        r.0 == next_state(s, e),
        r.1 == next_action(s, e),
{
    match (s, e) {
        (Lifecycle::NotRunning, HostEvent::Started) => (Lifecycle::Running, Action::Continue),
        (Lifecycle::NotRunning, HostEvent::Failed) => (Lifecycle::NotRunning, Action::Abort),
        (Lifecycle::Running, HostEvent::Started) => (Lifecycle::Running, Action::Continue),
        (Lifecycle::Running, HostEvent::Failed) => (Lifecycle::Terminated, Action::Abort),
        (Lifecycle::Terminated, _) => (Lifecycle::Terminated, Action::Abort),
    }
}

/// A trace starts with its initial state and has at least one state.
pub proof fn lemma_trace_starts(s: Lifecycle, events: Seq<HostEvent>)
    ensures
        trace(s, events).len() >= 1,
        trace(s, events)[0] == s,
    decreases events.len(),
{
    if events.len() > 0 {
        lemma_trace_starts(next_state(s, events[0]), events.drop_first());
    }
}

/// Whether the process may go from `a` to `b`: staying put, `NotRunning` to
/// `Running`, or `Running` to `Terminated`.
pub open spec fn allowed_change(a: Lifecycle, b: Lifecycle) -> bool {
    ||| a == b
    ||| a == Lifecycle::NotRunning && b == Lifecycle::Running
    ||| a == Lifecycle::Running && b == Lifecycle::Terminated
}

/// Whether every change between neighbours in `tr` is allowed.
pub open spec fn changes_allowed(tr: Seq<Lifecycle>) -> bool {
    forall|i: int| 0 <= i < tr.len() - 1 ==> #[trigger] allowed_change(tr[i], tr[i + 1])
}

/// Every change of state in a trace is `NotRunning` to `Running` or `Running`
/// to `Terminated`; in particular nothing follows `Terminated` but itself.
pub proof fn lemma_transitions_allowed(s: Lifecycle, events: Seq<HostEvent>)
    ensures
        changes_allowed(trace(s, events)),
    decreases events.len(),
{
    if events.len() > 0 && next_action(s, events[0]) == Action::Continue {
        let t = next_state(s, events[0]);
        let rest = events.drop_first();
        let tr = trace(s, events);
        let sub = trace(t, rest);
        lemma_transitions_allowed(t, rest);
        lemma_trace_starts(t, rest);
        assert(tr == seq![s] + sub);
        assert forall|i: int| 0 <= i < tr.len() - 1 implies #[trigger] allowed_change(
            tr[i],
            tr[i + 1],
        ) by {
            if i > 0 {
                assert(tr[i] == sub[i - 1]);
                assert(tr[i + 1] == sub[i]);
                assert(allowed_change(sub[i - 1], sub[(i - 1) + 1]));
            }
        }
    }
}

/// From a state other than `NotRunning`, no trace moves into `Running` from
/// elsewhere.
pub proof fn lemma_no_reentry(s: Lifecycle, events: Seq<HostEvent>)
    requires
        s != Lifecycle::NotRunning,
    ensures
        entries_into_running(trace(s, events)) == 0,
    decreases events.len(),
{
    if events.len() > 0 {
        let t = next_state(s, events[0]);
        let rest = events.drop_first();
        if next_action(s, events[0]) == Action::Abort {
            assert(seq![s, t].drop_first() =~= seq![t]);
            assert(entries_into_running(seq![t]) == 0);
        } else {
            let sub = trace(t, rest);
            lemma_no_reentry(t, rest);
            lemma_trace_starts(t, rest);
            assert(trace(s, events) == seq![s] + sub);
            assert((seq![s] + sub)[1] == sub[0]);
            assert((seq![s] + sub).drop_first() =~= sub);
        }
    }
}

/// From a state other than `NotRunning`, no state of the trace is `NotRunning`.
pub proof fn lemma_never_not_running(s: Lifecycle, events: Seq<HostEvent>)
    requires
        s != Lifecycle::NotRunning,
    ensures
        forall|i: int|
            0 <= i < trace(s, events).len() ==> #[trigger] trace(s, events)[i]
                != Lifecycle::NotRunning,
    decreases events.len(),
{
    if events.len() > 0 && next_action(s, events[0]) == Action::Continue {
        let t = next_state(s, events[0]);
        let rest = events.drop_first();
        lemma_never_not_running(t, rest);
        assert forall|i: int| 0 <= i < trace(s, events).len() implies #[trigger] trace(
            s,
            events,
        )[i] != Lifecycle::NotRunning by {
            if i > 0 {
                assert(trace(s, events)[i] == trace(t, rest)[i - 1]);
            }
        }
    }
}

/// With a host whose run loop comes up, the process enters `Running` exactly
/// once over its lifetime, whatever the host reports later, and never returns
/// to `NotRunning`.
pub proof fn lemma_running_entered_once(events: Seq<HostEvent>)
    requires
        events.len() > 0,
        events[0] == HostEvent::Started,
    ensures
        trace(Lifecycle::NotRunning, events)[1] == Lifecycle::Running,
        entries_into_running(trace(Lifecycle::NotRunning, events)) == 1,
        forall|i: int|
            1 <= i < trace(Lifecycle::NotRunning, events).len() ==> #[trigger] trace(
                Lifecycle::NotRunning,
                events,
            )[i] != Lifecycle::NotRunning,
{
    let rest = events.drop_first();
    let tr = trace(Lifecycle::Running, rest);
    lemma_trace_starts(Lifecycle::Running, rest);
    lemma_no_reentry(Lifecycle::Running, rest);
    lemma_never_not_running(Lifecycle::Running, rest);
    assert(trace(Lifecycle::NotRunning, events) == seq![Lifecycle::NotRunning] + tr);
    assert((seq![Lifecycle::NotRunning] + tr).drop_first() =~= tr);
    assert forall|i: int|
        1 <= i < trace(Lifecycle::NotRunning, events).len() implies #[trigger] trace(
        Lifecycle::NotRunning,
        events,
    )[i] != Lifecycle::NotRunning by {
        assert(trace(Lifecycle::NotRunning, events)[i] == tr[i - 1]);
    }
}

} // verus!
