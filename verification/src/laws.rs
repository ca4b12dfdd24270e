use vstd::prelude::*;
use crate::drain::{drain_spec, lemma_drain_bounds};
use crate::interceptor::{
    input_calls, lemma_replay_cons, lemma_replay_one, replay_state, stopped_log,
};
use crate::protocol::{delta_clears, Event, HostCall};
use crate::session::{delta_tail, event_breaks, passive_event, step_state, Mode, SessionState};

verus! {

/// Law: while running, a batch of passive events (input and delta commands,
/// with no `Stop`, `Step` or `Continue` among them) drains to empty within
/// one invocation, control returns to the host without blocking, no
/// `Stopped` is announced, and the input dispatcher sees the events' calls
/// in exactly the order they were sent, followed only by the pending delta
/// write, if one is then set.
pub proof fn law_running_drains_in_order(s: SessionState, evs: Seq<Event>)
    requires
        s.mode == Mode::Running,
        forall|i: int| 0 <= i < evs.len() ==> passive_event(#[trigger] evs[i]),
    ensures
        ({
            let d = drain_spec(s, evs, false);
            &&& !d.blocked
            &&& d.consumed == evs.len()
            &&& d.stopped == 0
            &&& d.state.mode == Mode::Running
            &&& d.calls == input_calls(evs) + delta_tail(d.state)
        }),
    decreases evs.len(),
{
    let d = drain_spec(s, evs, false);
    if evs.len() == 0 {
        assert(d.calls =~= input_calls(evs) + delta_tail(d.state));
    } else {
        let e = evs[0];
        let s2 = step_state(s, e);
        assert(s2.mode == Mode::Running);
        law_running_drains_in_order(s2, evs.drop_first());
        assert(d.calls =~= input_calls(evs) + delta_tail(d.state));
    }
}

/// While frozen, a batch of passive events is consumed entirely without
/// unfreezing: each is applied and dispatched in order, `Stopped` is
/// announced anew before every blocking wait — once on entering the frozen
/// mode and once more after each consumed event — and the loop ends blocked,
/// still `Stopping`, with no delta write.
pub proof fn law_stopping_consumes_passive(s: SessionState, evs: Seq<Event>)
    requires
        s.mode == Mode::Stopping,
        forall|i: int| 0 <= i < evs.len() ==> passive_event(#[trigger] evs[i]),
    ensures
        ({
            let d = drain_spec(s, evs, false);
            &&& d.blocked
            &&& d.consumed == evs.len()
            &&& d.stopped == evs.len() + 1
            &&& d.state.mode == Mode::Stopping
            &&& d.calls == input_calls(evs)
        }),
    decreases evs.len(),
{
    let d = drain_spec(s, evs, false);
    if evs.len() == 0 {
        assert(d.calls =~= input_calls(evs));
    } else {
        let e = evs[0];
        let s2 = step_state(s, e);
        assert(s2.mode == Mode::Stopping);
        law_stopping_consumes_passive(s2, evs.drop_first());
        assert(d.calls =~= input_calls(evs));
    }
}

/// While frozen, a batch of passive events followed by `Continue` resumes
/// the running mode: everything is consumed, control returns unblocked, and
/// `Stopped` was announced exactly once per blocking wait — once on entering
/// the frozen mode and once more after each passive event.
pub proof fn law_stopping_resumes_on_continue(s: SessionState, evs: Seq<Event>)
    requires
        s.mode == Mode::Stopping,
        forall|i: int| 0 <= i < evs.len() ==> passive_event(#[trigger] evs[i]),
    ensures
        ({
            let d = drain_spec(s, evs + seq![Event::Continue], false);
            &&& !d.blocked
            &&& d.consumed == evs.len() + 1
            &&& d.stopped == evs.len() + 1
            &&& d.state.mode == Mode::Running
        }),
    decreases evs.len(),
{
    if evs.len() == 0 {
        assert((evs + seq![Event::Continue])[0] == Event::Continue);
    } else {
        let whole = evs + seq![Event::Continue];
        let e = evs[0];
        assert(whole[0] == e);
        let s2 = step_state(s, e);
        assert(s2.mode == Mode::Stopping);
        law_stopping_resumes_on_continue(s2, evs.drop_first());
        assert(whole.drop_first() =~= evs.drop_first() + seq![Event::Continue]);
    }
}

/// Law: sending `Stop` and then `Continue`, with nothing in between, yields
/// exactly one `Stopped` announcement, and the host resumes running only
/// once the `Continue` is processed: with the `Stop` alone, the invocation
/// ends frozen and blocked.
///
/// With passive events between the two, the interceptor re-announces
/// `Stopped` before each further blocking wait;
/// [`law_stopping_resumes_on_continue`] gives that exact count.
pub proof fn law_stop_then_continue_one_stopped(s: SessionState)
    requires
        s.mode == Mode::Running,
    ensures
        ({
            let frozen = drain_spec(s, seq![Event::Stop], false);
            let d = drain_spec(s, seq![Event::Stop, Event::Continue], false);
            &&& frozen.blocked
            &&& frozen.state.mode == Mode::Stopping
            &&& frozen.stopped == 1
            &&& !d.blocked
            &&& d.stopped == 1
            &&& d.consumed == 2
            &&& d.state.mode == Mode::Running
        }),
{
    reveal_with_fuel(drain_spec, 3);
    assert(seq![Event::Stop].drop_first() =~= Seq::<Event>::empty());
    assert(seq![Event::Stop, Event::Continue].drop_first() =~= seq![Event::Continue]);
    assert(seq![Event::Continue].drop_first() =~= Seq::<Event>::empty());
}

/// Law: a non-zero delta override followed by a zero one leaves the
/// delta-time cell untouched by the override on the invocation that returns:
/// the override is cleared, no host call is made at all, and the mode is
/// unchanged — as if the override had never been set.
pub proof fn law_delta_override_cancels(s: SessionState, on_bits: u64, off_bits: u64)
    requires
        s.mode == Mode::Running,
        !delta_clears(on_bits),
        delta_clears(off_bits),
    ensures
        ({
            let d = drain_spec(s, seq![Event::SetDelta(on_bits), Event::SetDelta(off_bits)], false);
            &&& !d.blocked
            &&& d.consumed == 2
            &&& d.stopped == 0
            &&& d.state == (SessionState { mode: s.mode, delta_override: None })
            &&& d.calls == Seq::<HostCall>::empty()
        }),
{
    reveal_with_fuel(drain_spec, 3);
    let evs = seq![Event::SetDelta(on_bits), Event::SetDelta(off_bits)];
    assert(evs.drop_first() =~= seq![Event::SetDelta(off_bits)]);
    assert(seq![Event::SetDelta(off_bits)].drop_first() =~= Seq::<Event>::empty());
    assert(drain_spec(s, evs, false).calls =~= Seq::<HostCall>::empty());
}

/// Law: `Step` while frozen lets exactly one frame elapse — the invocation
/// returns control, with the state unchanged and still `Stopping` — and the
/// very next tick, given no further event, announces `Stopped` and blocks
/// again.
pub proof fn law_step_runs_one_frame(s: SessionState)
    requires
        s.mode == Mode::Stopping,
    ensures
        ({
            let d = drain_spec(s, seq![Event::Step], false);
            &&& !d.blocked
            &&& d.consumed == 1
            &&& d.stopped == 1
            &&& d.state == s
            &&& drain_spec(d.state, Seq::<Event>::empty(), false).blocked
            &&& drain_spec(d.state, Seq::<Event>::empty(), false).stopped == 1
        }),
{
    reveal_with_fuel(drain_spec, 2);
}

/// Law: `Continue` while already running is a no-op transition: the state —
/// mode and override alike — is unchanged, no `Stopped` is announced, and
/// control returns to the host.
pub proof fn law_continue_while_running_is_noop(s: SessionState)
    requires
        s.mode == Mode::Running,
    ensures
        ({
            let d = drain_spec(s, seq![Event::Continue], false);
            &&& !d.blocked
            &&& d.consumed == 1
            &&& d.stopped == 0
            &&& d.state == s
        }),
{
    reveal_with_fuel(drain_spec, 2);
}

/// The two pure entry points agree: resuming a blocked invocation differs
/// from a fresh one on the same state and events only in the `Stopped`
/// announcement that the blocked invocation already made.
pub proof fn law_resume_differs_only_in_announcement(s: SessionState, evs: Seq<Event>)
    requires
        s.mode == Mode::Stopping,
    ensures
        ({
            let fresh = drain_spec(s, evs, false);
            let resumed = drain_spec(s, evs, true);
            &&& fresh.state == resumed.state
            &&& fresh.calls == resumed.calls
            &&& fresh.consumed == resumed.consumed
            &&& fresh.blocked == resumed.blocked
            &&& fresh.stopped == resumed.stopped + 1
        }),
{
}

/// The drain model and the channel-driven interceptor's replay fold agree:
/// a drain invocation's final state is the per-event transitions folded over
/// the prefix it consumed, and its host calls are exactly that prefix's
/// input dispatches — followed by the pending delta write when control
/// returned rather than blocking.
pub proof fn law_drain_agrees_with_replay(s: SessionState, evs: Seq<Event>, resuming: bool)
    ensures
        ({
            let d = drain_spec(s, evs, resuming);
            let taken = evs.take(d.consumed as int);
            &&& d.consumed <= evs.len()
            &&& d.state == replay_state(s, taken)
            &&& (d.blocked ==> d.calls == input_calls(taken))
            &&& (!d.blocked ==> d.calls == input_calls(taken) + delta_tail(d.state))
        }),
    decreases evs.len(),
{
    lemma_drain_bounds(s, evs, resuming);
    let d = drain_spec(s, evs, resuming);
    if evs.len() == 0 {
        assert(evs.take(0) =~= Seq::<Event>::empty());
        if s.mode != Mode::Stopping {
            assert(d.calls =~= input_calls(evs.take(0)) + delta_tail(d.state));
        } else {
            assert(d.calls =~= input_calls(evs.take(0)));
        }
    } else {
        let e = evs[0];
        let s2 = step_state(s, e);
        if event_breaks(e) {
            assert(evs.take(1) =~= seq![e]);
            lemma_replay_one(s, e);
            assert(d.calls =~= input_calls(evs.take(1)) + delta_tail(d.state));
        } else {
            law_drain_agrees_with_replay(s2, evs.drop_first(), false);
            let rest = drain_spec(s2, evs.drop_first(), false);
            lemma_drain_bounds(s2, evs.drop_first(), false);
            let k = rest.consumed as int;
            let prefix = evs.drop_first().take(k);
            assert(evs.take(1 + k) =~= seq![e] + prefix);
            lemma_replay_cons(s, e, prefix);
            if rest.blocked {
                assert(d.calls =~= input_calls(seq![e] + prefix));
            } else {
                assert(d.calls =~= input_calls(seq![e] + prefix) + delta_tail(d.state));
            }
        }
    }
}

/// Law: the controller may rely on receiving `Stopped` only after every
/// event sent before the triggering `Stop` has been applied. Draining a
/// passive batch, then `Stop`, then anything at all, dispatches the whole
/// batch, in order, before any other host call; and every `Stopped`
/// announcement of the invocation belongs to the frozen phase, which begins
/// only once the batch and the `Stop` are consumed.
pub proof fn law_stopped_follows_prior_events(s: SessionState, before: Seq<Event>, rest: Seq<Event>)
    requires
        s.mode == Mode::Running,
        forall|i: int| 0 <= i < before.len() ==> passive_event(#[trigger] before[i]),
    ensures
        ({
            let d = drain_spec(s, before + seq![Event::Stop] + rest, false);
            let frozen = step_state(replay_state(s, before), Event::Stop);
            let after = drain_spec(frozen, rest, false);
            &&& frozen.mode == Mode::Stopping
            &&& d.calls == input_calls(before) + after.calls
            &&& d.stopped == after.stopped
            &&& d.state == after.state
            &&& d.consumed == before.len() + 1 + after.consumed
            &&& d.blocked == after.blocked
        }),
    decreases before.len(),
{
    let whole = before + seq![Event::Stop] + rest;
    if before.len() == 0 {
        assert(whole =~= seq![Event::Stop] + rest);
        assert((seq![Event::Stop] + rest)[0] == Event::Stop);
        assert((seq![Event::Stop] + rest).drop_first() =~= rest);
        let frozen = step_state(replay_state(s, before), Event::Stop);
        let after = drain_spec(frozen, rest, false);
        assert(drain_spec(s, whole, false).calls =~= input_calls(before) + after.calls);
    } else {
        let e = before[0];
        let s2 = step_state(s, e);
        assert(s2.mode == Mode::Running);
        law_stopped_follows_prior_events(s2, before.drop_first(), rest);
        assert(whole[0] == e);
        assert(whole.drop_first() =~= before.drop_first() + seq![Event::Stop] + rest);
        assert(seq![e] + before.drop_first() =~= before);
        lemma_replay_cons(s, e, before.drop_first());
        let frozen = step_state(replay_state(s, before), Event::Stop);
        let after = drain_spec(frozen, rest, false);
        assert(drain_spec(s, whole, false).calls =~= input_calls(before) + after.calls);
    }
}

/// Law: the pure model's `Stopped` count is exactly the announcement log of
/// the consumed events, plus the one announcement that precedes the blocking
/// wait when the invocation ends blocked — so the responses a drain sends
/// are a function of the starting state and the drained events alone.
pub proof fn law_stopped_count_matches_log(s: SessionState, evs: Seq<Event>)
    ensures
        ({
            let d = drain_spec(s, evs, false);
            let announced = stopped_log(s, evs.take(d.consumed as int));
            &&& (d.blocked ==> d.stopped == announced.len() + 1)
            &&& (!d.blocked ==> d.stopped == announced.len())
        }),
    decreases evs.len(),
{
    lemma_drain_bounds(s, evs, false);
    let d = drain_spec(s, evs, false);
    if evs.len() == 0 {
        assert(evs.take(0) =~= Seq::<Event>::empty());
    } else {
        let e = evs[0];
        let s2 = step_state(s, e);
        if event_breaks(e) {
            assert(evs.take(1) =~= seq![e]);
            lemma_replay_one(s, e);
        } else {
            law_stopped_count_matches_log(s2, evs.drop_first());
            let rest = drain_spec(s2, evs.drop_first(), false);
            lemma_drain_bounds(s2, evs.drop_first(), false);
            let k = rest.consumed as int;
            let prefix = evs.drop_first().take(k);
            assert(evs.take(1 + k) =~= seq![e] + prefix);
            lemma_replay_cons(s, e, prefix);
        }
    }
}

} // verus!
