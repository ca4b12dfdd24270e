use vstd::prelude::*;
use crate::protocol::{Event, HostCall};
use crate::session::{
    delta_tail, event_breaks, event_calls, step_state, Mode, SessionState,
};

verus! {

/// The outcome of one tick-interceptor invocation over a given sequence of
/// events, as the drain loop observes them.
///
/// Each loop iteration receives one event: without blocking while the mode
/// is `Running` (an empty queue returns control to the host, after writing
/// any pending delta override), and blocking while the mode is `Stopping`
/// (after announcing `Response::Stopped` to the controller). A received
/// event updates the state, makes its host call, and either lets the loop
/// drain on or ends the invocation (`Step`, `Continue`).
#[verifier::ext_equal]
pub ghost struct Drain {
    /// The session state when the invocation ends or blocks.
    pub state: SessionState,
    /// Every call made into the host, in order: the dispatched input events
    /// and, when control returns with an override pending, the final
    /// delta-time write.
    pub calls: Seq<HostCall>,
    /// How many `Response::Stopped` announcements were sent, one before each
    /// blocking wait.
    pub stopped: nat,
    /// How many events were consumed.
    pub consumed: nat,
    /// True when the events ran out while the mode was `Stopping`: the loop
    /// has announced `Stopped` and now blocks awaiting the next event, and no
    /// delta write is made.
    pub blocked: bool,
}

/// The drain loop's behaviour on a session state and the sequence of events
/// it will observe.
///
/// With `resuming`, the loop is re-entered at the blocking wait of a
/// previously [`Drain::blocked`] invocation: the first event is consumed
/// without announcing `Stopped` again, since that announcement preceded the
/// wait.
pub open spec fn drain_spec(s: SessionState, evs: Seq<Event>, resuming: bool) -> Drain
    decreases evs.len(),
{
    let announced: nat = if s.mode == Mode::Stopping && !resuming {
        1
    } else {
        0
    };
    if evs.len() == 0 {
        if s.mode == Mode::Stopping {
            Drain { state: s, calls: seq![], stopped: announced, consumed: 0, blocked: true }
        } else {
            Drain { state: s, calls: delta_tail(s), stopped: 0, consumed: 0, blocked: false }
        }
    } else {
        let e = evs[0];
        let s2 = step_state(s, e);
        if event_breaks(e) {
            Drain {
                state: s2,
                calls: event_calls(e) + delta_tail(s2),
                stopped: announced,
                consumed: 1,
                blocked: false,
            }
        } else {
            let rest = drain_spec(s2, evs.drop_first(), false);
            Drain {
                state: rest.state,
                calls: event_calls(e) + rest.calls,
                stopped: announced + rest.stopped,
                consumed: 1 + rest.consumed,
                blocked: rest.blocked,
            }
        }
    }
}

/// The drain consumes no more events than it was given, and announces
/// `Stopped` at most once more than the number of events it consumed.
pub proof fn lemma_drain_bounds(s: SessionState, evs: Seq<Event>, resuming: bool)
    ensures
        drain_spec(s, evs, resuming).consumed <= evs.len(),
        drain_spec(s, evs, resuming).stopped <= drain_spec(s, evs, resuming).consumed + 1,
    decreases evs.len(),
{
    if evs.len() > 0 && !event_breaks(evs[0]) {
        lemma_drain_bounds(step_state(s, evs[0]), evs.drop_first(), false);
    }
}

/// The result of draining a given vector of events: the executable image of
/// [`Drain`], which its view yields.
#[derive(Clone, Debug)]
pub struct DrainResult {
    /// The session state when the invocation ends or blocks.
    pub state: SessionState,
    /// Every call made into the host, in order.
    pub calls: Vec<HostCall>,
    /// How many `Response::Stopped` announcements were sent.
    pub stopped: usize,
    /// How many events were consumed.
    pub consumed: usize,
    /// True when the invocation would now block awaiting the next event.
    pub blocked: bool,
}

impl View for DrainResult {
    type V = Drain;

    open spec fn view(&self) -> Drain {
        Drain {
            state: self.state,
            calls: self.calls@,
            stopped: self.stopped as nat,
            consumed: self.consumed as nat,
            blocked: self.blocked,
        }
    }
}

fn drain_from(s: SessionState, events: &Vec<Event>, i: usize, resuming: bool) -> (r: DrainResult)
    requires
        i <= events.len(),
        events.len() < usize::MAX,
    ensures
        r@ == drain_spec(s, events@.skip(i as int), resuming),
    decreases events.len() - i,
{
    let ghost evs = events@.skip(i as int);
    let announced: usize = if matches!(s.mode, Mode::Stopping) && !resuming {
        1
    } else {
        0
    };
    if i == events.len() {
        match s.mode {
            Mode::Stopping => {
                let r = DrainResult {
                    state: s,
                    calls: Vec::new(),
                    stopped: announced,
                    consumed: 0,
                    blocked: true,
                };
                proof {
                    assert(r@ =~= drain_spec(s, evs, resuming));
                }
                r
            },
            Mode::Running => {
                let r = DrainResult {
                    state: s,
                    calls: delta_tail_vec(s),
                    stopped: 0,
                    consumed: 0,
                    blocked: false,
                };
                proof {
                    assert(r@ =~= drain_spec(s, evs, resuming));
                }
                r
            },
        }
    } else {
        let e = events[i];
        let mut s2 = s;
        let out = s2.apply_event(e);
        proof {
            assert(evs[0] == e);
            assert(evs.drop_first() =~= events@.skip(i as int + 1));
        }
        if out.ends_drain {
            let mut calls: Vec<HostCall> = Vec::new();
            if let Some(c) = out.call {
                calls.push(c);
            }
            let mut tail = delta_tail_vec(s2);
            calls.append(&mut tail);
            let r = DrainResult { state: s2, calls, stopped: announced, consumed: 1, blocked: false };
            proof {
                assert(r@.calls =~= event_calls(e) + delta_tail(s2));
                assert(r@ =~= drain_spec(s, evs, resuming));
            }
            r
        } else {
            let mut rest = drain_from(s2, events, i + 1, false);
            proof {
                lemma_drain_bounds(s2, events@.skip(i as int + 1), false);
            }
            if let Some(c) = out.call {
                rest.calls.insert(0, c);
            }
            let r = DrainResult {
                state: rest.state,
                calls: rest.calls,
                stopped: announced + rest.stopped,
                consumed: 1 + rest.consumed,
                blocked: rest.blocked,
            };
            proof {
                assert(r@.calls =~= event_calls(e) + drain_spec(s2, evs.drop_first(), false).calls);
                assert(r@ =~= drain_spec(s, evs, resuming));
            }
            r
        }
    }
}

/// Builds the delta-write tail owed on returning control: the pending
/// override as a one-element vector, or an empty one.
fn delta_tail_vec(s: SessionState) -> (r: Vec<HostCall>)
    ensures
        r@ == delta_tail(s),
{
    let mut r: Vec<HostCall> = Vec::new();
    if let Some(bits) = s.delta_override {
        r.push(HostCall::DeltaWrite(bits));
    }
    proof {
        assert(r@ =~= delta_tail(s));
    }
    r
}

/// Runs one tick-interceptor invocation over the given events: the
/// deterministic replay of the drain loop, for a controller or a test that
/// knows the whole event sequence in advance.
///
/// The result is exactly [`drain_spec`] of the inputs.
pub fn drain_events(s: SessionState, events: &Vec<Event>) -> (r: DrainResult)
    requires
        events.len() < usize::MAX,
    ensures
        r@ == drain_spec(s, events@, false),
{
    let r = drain_from(s, events, 0, false);
    proof {
        assert(events@.skip(0) =~= events@);
    }
    r
}

/// Resumes a [`DrainResult::blocked`] invocation with the events that arrive
/// next: the first one is consumed by the pending blocking wait, whose
/// `Stopped` announcement was already counted by the invocation that
/// blocked.
pub fn resume_events(s: SessionState, events: &Vec<Event>) -> (r: DrainResult)
    requires
        s.mode == Mode::Stopping,
        events.len() < usize::MAX,
    ensures
        r@ == drain_spec(s, events@, true),
{
    let r = drain_from(s, events, 0, true);
    proof {
        assert(events@.skip(0) =~= events@);
    }
    r
}

} // verus!
