use vstd::prelude::*;
use crate::protocol::{clears_override, delta_clears, Event, HostCall};

verus! {

/// The run mode of the intercepted host.
#[derive(Clone, Copy, Debug, PartialEq, Eq)]
pub enum Mode {
    /// The host ticks normally; the interceptor drains pending events
    /// without blocking and returns control each frame.
    Running,
    /// The host is frozen: on each tick the interceptor announces
    /// `Response::Stopped` and blocks awaiting the next event.
    Stopping,
}

/// The session state owned by the tick interceptor: the current run mode
/// and the pending delta-time override, if any.
///
/// It is mutated only on the host's own thread, inside the interceptor, so
/// no synchronization guards it.
#[derive(Clone, Copy, Debug, PartialEq, Eq)]
pub struct SessionState {
    /// Current run mode.
    pub mode: Mode,
    /// Bit pattern of the last non-zero `SetDelta` value, or `None` when the
    /// host's natural timing is in effect.
    pub delta_override: Option<u64>,
}

/// How one drained event changes the session state.
pub open spec fn step_state(s: SessionState, e: Event) -> SessionState {
    match e {
        Event::Stop => SessionState { mode: Mode::Stopping, ..s },
        Event::Continue => SessionState { mode: Mode::Running, ..s },
        Event::Step => s,
        Event::Press(_) => s,
        Event::Release(_) => s,
        Event::Mouse(_, _) => s,
        Event::SetDelta(bits) => if delta_clears(bits) {
            SessionState { delta_override: None, ..s }
        } else {
            SessionState { delta_override: Some(bits), ..s }
        },
    }
}

/// The host call that draining one event makes, if any: input events are
/// forwarded to the host's input dispatcher, all others make no call.
pub open spec fn event_call(e: Event) -> Option<HostCall> {
    match e {
        Event::Press(key_code) => Some(HostCall::KeyDown(key_code)),
        Event::Release(key_code) => Some(HostCall::KeyUp(key_code)),
        Event::Mouse(x, y) => Some(HostCall::MouseMove(x, y)),
        _ => None,
    }
}

/// [`event_call`] as a sequence of zero or one calls.
pub open spec fn event_calls(e: Event) -> Seq<HostCall> {
    match event_call(e) {
        Some(c) => seq![c],
        None => seq![],
    }
}

/// Whether draining this event ends the drain loop, returning control to the
/// host for one frame (`Step`) or for good (`Continue`).
pub open spec fn event_breaks(e: Event) -> bool {
    match e {
        Event::Step => true,
        Event::Continue => true,
        _ => false,
    }
}

/// An event that is applied and drained past: it neither ends the drain
/// loop nor requests the paused mode.
pub open spec fn passive_event(e: Event) -> bool {
    !event_breaks(e) && e != Event::Stop
}

/// The write owed to the host's delta-time cell when an invocation returns
/// control: the pending override, if one is set.
pub open spec fn delta_tail(s: SessionState) -> Seq<HostCall> {
    match s.delta_override {
        Some(bits) => seq![HostCall::DeltaWrite(bits)],
        None => seq![],
    }
}

/// What draining one event did, besides updating the session state.
pub struct EventOutcome {
    /// The host call the event asks for, if any.
    pub call: Option<HostCall>,
    /// Whether the event ends the drain loop for this invocation.
    pub ends_drain: bool,
}

impl SessionState {
    /// The state at process start: running, with no override pending.
    pub fn new() -> (r: SessionState)
        ensures
            r == (SessionState { mode: Mode::Running, delta_override: None }),
    {
        SessionState { mode: Mode::Running, delta_override: None }
    }

    /// Applies one drained event to the session state and reports the host
    /// call it asks for and whether it ends the drain loop.
    pub fn apply_event(&mut self, e: Event) -> (r: EventOutcome)
        ensures
            *final(self) == step_state(*old(self), e),
            r.call == event_call(e),
            r.ends_drain == event_breaks(e),
    {
        match e {
            Event::Stop => {
                self.mode = Mode::Stopping;
                EventOutcome { call: None, ends_drain: false }
            },
            Event::Step => EventOutcome { call: None, ends_drain: true },
            Event::Continue => {
                self.mode = Mode::Running;
                EventOutcome { call: None, ends_drain: true }
            },
            Event::Press(key_code) => EventOutcome {
                call: Some(HostCall::KeyDown(key_code)),
                ends_drain: false,
            },
            Event::Release(key_code) => EventOutcome {
                call: Some(HostCall::KeyUp(key_code)),
                ends_drain: false,
            },
            Event::Mouse(x, y) => EventOutcome {
                call: Some(HostCall::MouseMove(x, y)),
                ends_drain: false,
            },
            Event::SetDelta(bits) => {
                if clears_override(bits) {
                    self.delta_override = None;
                } else {
                    self.delta_override = Some(bits);
                }
                EventOutcome { call: None, ends_drain: false }
            },
        }
    }
}

} // verus!
