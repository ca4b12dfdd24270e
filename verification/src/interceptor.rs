use vstd::prelude::*;
use crate::channel::{channel_recv, channel_try_recv, Recv};
use crate::port::{HostPort, ResponseLink};
use crate::protocol::{clears_override, Event, HostCall, Response};
use crate::session::{delta_tail, event_breaks, event_calls, step_state, Mode, SessionState};

verus! {

/// A channel failure met during a tick: fatal for that invocation's drain
/// loop, but not for the host process, which keeps ticking un-intercepted.
#[derive(Clone, Copy, Debug, PartialEq, Eq)]
pub enum ChannelError {
    /// The controller's sending end is gone: no event can ever arrive again.
    EventsDisconnected,
    /// The controller's receiving end is gone: no response can be delivered.
    ResponsesDisconnected,
}

/// What one iteration of the drain loop did.
#[derive(Clone, Copy, Debug, PartialEq, Eq)]
pub enum TickOutcome {
    /// Consumed and applied the given event; the loop drains on.
    Proceed(Event),
    /// The queue was empty while running: any pending delta override was
    /// written and control returns to the host for this frame.
    Idle,
    /// Consumed the given loop-ending event (`Step` or `Continue`): any
    /// pending delta override was written and control returns to the host.
    Yield(Event),
    /// A channel failure: nothing was changed by this iteration, and the
    /// invocation gives up, fail-open, so the host's frame proceeds.
    ChannelDown(ChannelError),
}

/// How a whole tick-interceptor invocation ended.
#[derive(Clone, Copy, Debug, PartialEq, Eq)]
pub enum TickResult {
    /// Control returned to the host normally: the queue emptied while
    /// running, or a `Step` or `Continue` ended the drain.
    Returned,
    /// The iteration budget ran out before the drain ended; calling again
    /// continues it. No delta write was made.
    Interrupted,
    /// A channel failure ended the invocation early, fail-open. No delta
    /// write was made; the diagnostic is the caller's to log.
    ChannelDown(ChannelError),
}

/// Applies one received event: updates the session state, makes the event's
/// host call, and, when the event ends the drain, writes any pending delta
/// override before control returns.
fn consume_event<P: HostPort>(state: &mut SessionState, port: &mut P, e: Event) -> (r: TickOutcome)
    ensures
        *final(state) == step_state(*old(state), e),
        !event_breaks(e) ==> r == TickOutcome::Proceed(e) && final(port).calls() == old(port).calls()
            + event_calls(e),
        event_breaks(e) ==> r == TickOutcome::Yield(e) && final(port).calls() == old(port).calls()
            + delta_tail(*final(state)),
{
    let ghost calls0 = port.calls();
    match e {
        Event::Stop => {
            state.mode = Mode::Stopping;
            proof {
                assert(port.calls() =~= calls0 + event_calls(e));
            }
            TickOutcome::Proceed(e)
        },
        Event::Step => {
            write_delta_tail(state, port);
            TickOutcome::Yield(e)
        },
        Event::Continue => {
            state.mode = Mode::Running;
            write_delta_tail(state, port);
            TickOutcome::Yield(e)
        },
        Event::Press(key_code) => {
            port.on_key_down(key_code);
            proof {
                assert(port.calls() =~= calls0 + event_calls(e));
            }
            TickOutcome::Proceed(e)
        },
        Event::Release(key_code) => {
            port.on_key_up(key_code);
            proof {
                assert(port.calls() =~= calls0 + event_calls(e));
            }
            TickOutcome::Proceed(e)
        },
        Event::Mouse(x, y) => {
            port.on_raw_mouse_move(x, y);
            proof {
                assert(port.calls() =~= calls0 + event_calls(e));
            }
            TickOutcome::Proceed(e)
        },
        Event::SetDelta(bits) => {
            if clears_override(bits) {
                state.delta_override = None;
            } else {
                state.delta_override = Some(bits);
            }
            proof {
                assert(port.calls() =~= calls0 + event_calls(e));
            }
            TickOutcome::Proceed(e)
        },
    }
}

/// Writes the pending delta override, if any, through the port: the write
/// owed to the host when control returns.
fn write_delta_tail<P: HostPort>(state: &SessionState, port: &mut P)
    ensures
        final(port).calls() == old(port).calls() + delta_tail(*state),
{
    let ghost calls0 = port.calls();
    if let Some(bits) = state.delta_override {
        port.write_delta(bits);
    }
    proof {
        assert(port.calls() =~= calls0 + delta_tail(*state));
    }
}

/// One iteration of the tick interceptor's drain loop.
///
/// While the mode is `Running` it polls the event queue without blocking: an
/// empty queue returns control to the host for this frame, after writing any
/// pending delta override. While the mode is `Stopping` it announces
/// `Response::Stopped` to the controller and blocks until the next event
/// arrives, freezing the host. A received event is applied as
/// [`consume_event`] says. Any channel failure changes nothing and is
/// reported, fail-open.
pub fn tick_step<P: HostPort>(
    state: &mut SessionState,
    events: &std::sync::mpsc::Receiver<Event>,
    responses: &mut ResponseLink,
    port: &mut P,
) -> (r: TickOutcome)
    ensures
        (match r {
            TickOutcome::Proceed(e) => !event_breaks(e) && *final(state) == step_state(*old(state), e)
                && final(port).calls() == old(port).calls() + event_calls(e),
            TickOutcome::Idle => old(state).mode == Mode::Running && *final(state) == *old(state)
                && final(port).calls() == old(port).calls() + delta_tail(*old(state)),
            TickOutcome::Yield(e) => event_breaks(e) && *final(state) == step_state(*old(state), e)
                && final(port).calls() == old(port).calls() + delta_tail(*final(state)),
            TickOutcome::ChannelDown(err) => *final(state) == *old(state) && final(port).calls()
                == old(port).calls() && (err == ChannelError::ResponsesDisconnected ==> old(
                state,
            ).mode == Mode::Stopping),
        }),
        old(state).mode == Mode::Running ==> final(responses).sent() == old(responses).sent(),
        old(state).mode == Mode::Stopping ==> final(responses).sent() == old(
            responses,
        ).sent().push(Response::Stopped),
{
    match state.mode {
        Mode::Running => match channel_try_recv(events) {
            Recv::Got(e) => consume_event(state, port, e),
            Recv::Empty => {
                write_delta_tail(state, port);
                TickOutcome::Idle
            },
            Recv::Disconnected => TickOutcome::ChannelDown(ChannelError::EventsDisconnected),
        },
        Mode::Stopping => {
            if responses.send(Response::Stopped) {
                match channel_recv(events) {
                    Some(e) => consume_event(state, port, e),
                    None => TickOutcome::ChannelDown(ChannelError::EventsDisconnected),
                }
            } else {
                TickOutcome::ChannelDown(ChannelError::ResponsesDisconnected)
            }
        },
    }
}

/// The session state after draining a sequence of events, one by one.
pub open spec fn replay_state(s: SessionState, evs: Seq<Event>) -> SessionState
    decreases evs.len(),
{
    if evs.len() == 0 {
        s
    } else {
        replay_state(step_state(s, evs[0]), evs.drop_first())
    }
}

/// The input-dispatch calls a sequence of drained events makes, in order.
pub open spec fn input_calls(evs: Seq<Event>) -> Seq<HostCall>
    decreases evs.len(),
{
    if evs.len() == 0 {
        seq![]
    } else {
        event_calls(evs[0]) + input_calls(evs.drop_first())
    }
}

/// The `Stopped` announcement one loop iteration makes before receiving,
/// decided by the mode it is entered in: one per blocking wait, none while
/// running.
pub open spec fn announce_of(s: SessionState) -> Seq<Response> {
    if s.mode == Mode::Stopping {
        seq![Response::Stopped]
    } else {
        seq![]
    }
}

/// The responses announced to the controller while draining a sequence of
/// events, in order: before each event's receive, one `Stopped` exactly when
/// the mode of that moment is `Stopping`. A deterministic function of the
/// starting state and the drained events alone.
pub open spec fn stopped_log(s: SessionState, evs: Seq<Event>) -> Seq<Response>
    decreases evs.len(),
{
    if evs.len() == 0 {
        seq![]
    } else {
        announce_of(s) + stopped_log(step_state(s, evs[0]), evs.drop_first())
    }
}

/// No event of the sequence ends the drain loop: what a drain consumes
/// before its last received event, or entirely when the loop never broke.
pub open spec fn no_break(evs: Seq<Event>) -> bool
    decreases evs.len(),
{
    evs.len() == 0 || (!event_breaks(evs[0]) && no_break(evs.drop_first()))
}

/// Only the last event of the sequence, if any, may end the drain loop: the
/// shape of everything one invocation consumes.
pub open spec fn breaks_only_last(evs: Seq<Event>) -> bool
    decreases evs.len(),
{
    evs.len() <= 1 || (!event_breaks(evs[0]) && breaks_only_last(evs.drop_first()))
}

/// Draining one event and then a sequence is draining the combined
/// sequence.
pub proof fn lemma_replay_cons(s: SessionState, e: Event, evs: Seq<Event>)
    ensures
        replay_state(s, seq![e] + evs) == replay_state(step_state(s, e), evs),
        input_calls(seq![e] + evs) == event_calls(e) + input_calls(evs),
        stopped_log(s, seq![e] + evs) == announce_of(s) + stopped_log(step_state(s, e), evs),
        no_break(seq![e] + evs) == (!event_breaks(e) && no_break(evs)),
        breaks_only_last(seq![e] + evs) == (evs.len() == 0 || (!event_breaks(e)
            && breaks_only_last(evs))),
{
    assert((seq![e] + evs)[0] == e);
    assert((seq![e] + evs).drop_first() =~= evs);
}

/// Draining a single event is one transition, its dispatch calls, and the
/// announcement owed by the mode it was received in.
pub proof fn lemma_replay_one(s: SessionState, e: Event)
    ensures
        replay_state(s, seq![e]) == step_state(s, e),
        input_calls(seq![e]) == event_calls(e),
        stopped_log(s, seq![e]) == announce_of(s),
{
    lemma_replay_cons(s, e, Seq::<Event>::empty());
    assert(seq![e] + Seq::<Event>::empty() =~= seq![e]);
    assert(replay_state(step_state(s, e), Seq::<Event>::empty()) == step_state(s, e));
    assert(input_calls(Seq::<Event>::empty()) =~= Seq::<HostCall>::empty());
    assert(event_calls(e) + Seq::<HostCall>::empty() =~= event_calls(e));
    assert(stopped_log(step_state(s, e), Seq::<Event>::empty()) =~= Seq::<Response>::empty());
    assert(announce_of(s) + Seq::<Response>::empty() =~= announce_of(s));
}

/// A loop-ending event makes no input-dispatch call of its own.
pub proof fn lemma_breaks_no_call(e: Event)
    requires
        event_breaks(e),
    ensures
        event_calls(e) == Seq::<HostCall>::empty(),
{
    assert(event_calls(e) =~= Seq::<HostCall>::empty()) by {
        match e {
            Event::Step => {},
            Event::Continue => {},
            _ => {},
        }
    }
}

/// What a whole [`tick_intercept`] invocation did, witnessed by the sequence
/// of events it took from the channel: the final state is the fold of the
/// transitions over them; the host saw exactly their dispatches — followed by
/// the pending delta write when control returned normally; the controller
/// was handed exactly [`stopped_log`] of them — followed, on a channel
/// failure met in the frozen mode, by the one announcement that preceded the
/// failing wait; the budget was exhausted exactly when the result says so;
/// a refused announcement can only have happened frozen; and the witness has
/// the shape of a real drain — only its last event may end the loop, and
/// only when control returned.
pub open spec fn tick_replay(
    s0: SessionState,
    s1: SessionState,
    calls0: Seq<HostCall>,
    calls1: Seq<HostCall>,
    resp0: Seq<Response>,
    resp1: Seq<Response>,
    r: TickResult,
    budget: nat,
    evs: Seq<Event>,
) -> bool {
    &&& evs.len() <= budget
    &&& s1 == replay_state(s0, evs)
    &&& (match r {
        TickResult::Returned => calls1 == calls0 + input_calls(evs) + delta_tail(s1),
        TickResult::Interrupted => calls1 == calls0 + input_calls(evs) && evs.len() == budget,
        TickResult::ChannelDown(_) => calls1 == calls0 + input_calls(evs),
    })
    &&& (match r {
        TickResult::ChannelDown(_) => resp1 == resp0 + stopped_log(s0, evs) + announce_of(s1),
        _ => resp1 == resp0 + stopped_log(s0, evs),
    })
    &&& (r == TickResult::ChannelDown(ChannelError::ResponsesDisconnected) ==> s1.mode
        == Mode::Stopping)
    &&& (match r {
        TickResult::Returned => breaks_only_last(evs),
        _ => no_break(evs),
    })
}

/// One whole tick-interceptor invocation: drains and applies events until
/// the queue empties while running, a `Step` or `Continue` returns control,
/// a channel failure ends it fail-open, or the iteration budget runs out.
///
/// The budget only bounds the verifier-checked loop; a caller that wants the
/// unbounded drain of a live session passes `usize::MAX` and treats
/// `Interrupted` as an invitation to call again.
pub fn tick_intercept<P: HostPort>(
    state: &mut SessionState,
    events: &std::sync::mpsc::Receiver<Event>,
    responses: &mut ResponseLink,
    port: &mut P,
    budget: usize,
) -> (r: TickResult)
    ensures
        exists|evs: Seq<Event>|
            #[trigger] tick_replay(
                *old(state),
                *final(state),
                old(port).calls(),
                final(port).calls(),
                old(responses).sent(),
                final(responses).sent(),
                r,
                budget as nat,
                evs,
            ),
    decreases budget,
{
    let ghost s0 = *state;
    let ghost calls0 = port.calls();
    let ghost resp0 = responses.sent();
    if budget == 0 {
        proof {
            assert(replay_state(s0, seq![]) == s0);
            assert(calls0 =~= calls0 + input_calls(seq![]));
            assert(resp0 =~= resp0 + stopped_log(s0, seq![]));
            assert(tick_replay(
                s0,
                s0,
                calls0,
                calls0,
                resp0,
                resp0,
                TickResult::Interrupted,
                budget as nat,
                seq![],
            ));
        }
        return TickResult::Interrupted;
    }
    match tick_step(state, events, responses, port) {
        TickOutcome::Proceed(e) => {
            let ghost s_mid = *state;
            let ghost calls_mid = port.calls();
            let ghost resp_mid = responses.sent();
            let r = tick_intercept(state, events, responses, port, budget - 1);
            proof {
                let evs_rest = choose|evs_rest: Seq<Event>|
                    #[trigger] tick_replay(
                        s_mid,
                        *state,
                        calls_mid,
                        port.calls(),
                        resp_mid,
                        responses.sent(),
                        r,
                        (budget - 1) as nat,
                        evs_rest,
                    );
                lemma_replay_cons(s0, e, evs_rest);
                assert(resp_mid =~= resp0 + announce_of(s0));
                assert(calls0 + input_calls(seq![e] + evs_rest) =~= (calls0 + event_calls(e))
                    + input_calls(evs_rest));
                assert((calls0 + input_calls(seq![e] + evs_rest)) + delta_tail(*state) =~= ((calls0
                    + event_calls(e)) + input_calls(evs_rest)) + delta_tail(*state));
                assert(resp0 + stopped_log(s0, seq![e] + evs_rest) =~= (resp0 + announce_of(s0))
                    + stopped_log(s_mid, evs_rest));
                assert((resp0 + stopped_log(s0, seq![e] + evs_rest)) + announce_of(*state) =~= ((
                resp0 + announce_of(s0)) + stopped_log(s_mid, evs_rest)) + announce_of(*state));
                assert(tick_replay(
                    s0,
                    *state,
                    calls0,
                    port.calls(),
                    resp0,
                    responses.sent(),
                    r,
                    budget as nat,
                    seq![e] + evs_rest,
                ));
            }
            r
        },
        TickOutcome::Idle => {
            proof {
                assert(calls0 + input_calls(seq![]) + delta_tail(*state) =~= calls0 + delta_tail(
                    *state,
                ));
                assert(resp0 =~= resp0 + stopped_log(s0, seq![]));
                assert(tick_replay(
                    s0,
                    *state,
                    calls0,
                    port.calls(),
                    resp0,
                    responses.sent(),
                    TickResult::Returned,
                    budget as nat,
                    seq![],
                ));
            }
            TickResult::Returned
        },
        TickOutcome::Yield(e) => {
            proof {
                lemma_replay_one(s0, e);
                lemma_breaks_no_call(e);
                assert(calls0 + input_calls(seq![e]) + delta_tail(*state) =~= calls0 + delta_tail(
                    *state,
                ));
                assert(responses.sent() =~= resp0 + stopped_log(s0, seq![e]));
                assert(tick_replay(
                    s0,
                    *state,
                    calls0,
                    port.calls(),
                    resp0,
                    responses.sent(),
                    TickResult::Returned,
                    budget as nat,
                    seq![e],
                ));
            }
            TickResult::Returned
        },
        TickOutcome::ChannelDown(err) => {
            proof {
                assert(calls0 =~= calls0 + input_calls(seq![]));
                assert(stopped_log(s0, seq![]) =~= Seq::<Response>::empty());
                assert(replay_state(s0, seq![]) == s0);
                assert(responses.sent() =~= resp0 + stopped_log(s0, seq![]) + announce_of(s0));
                assert(tick_replay(
                    s0,
                    *state,
                    calls0,
                    port.calls(),
                    resp0,
                    responses.sent(),
                    TickResult::ChannelDown(err),
                    budget as nat,
                    seq![],
                ));
            }
            TickResult::ChannelDown(err)
        },
    }
}

/// The new-session notifier: announces exactly one `Response::NewGame` to
/// the controller and does nothing else — no state, no loop. Fire-and-forget:
/// the result reports whether the controller's receiving end still existed,
/// and a failure is the caller's to log and otherwise ignore.
pub fn new_game(responses: &mut ResponseLink) -> (r: bool)
    ensures
        final(responses).sent() == old(responses).sent().push(Response::NewGame),
{
    responses.send(Response::NewGame)
}

} // verus!
