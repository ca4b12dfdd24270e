//! Tests of the channel-driven tick interceptor: the drain loop running
//! against real command-channel endpoints, observed through a recording
//! port and the response link's log.

use tick_control::channel::{channel_recv, channel_send, channel_try_recv, open_channel, Recv};
use tick_control::interceptor::{
    new_game, tick_intercept, tick_step, ChannelError, TickOutcome, TickResult,
};
use tick_control::port::{RecordingPort, ResponseLink};
use tick_control::protocol::{Event, HostCall, Response};
use tick_control::session::{Mode, SessionState};

#[test]
fn channel_delivers_in_send_order() {
    let (tx, rx) = open_channel::<Event>();
    assert!(channel_send(&tx, Event::Press(1)));
    assert!(channel_send(&tx, Event::Press(2)));
    assert_eq!(channel_try_recv(&rx), Recv::Got(Event::Press(1)));
    assert_eq!(channel_recv(&rx), Some(Event::Press(2)));
    assert_eq!(channel_try_recv(&rx), Recv::Empty);
    drop(tx);
    assert_eq!(channel_try_recv(&rx), Recv::Disconnected);
    assert_eq!(channel_recv(&rx), None);
}

#[test]
fn tick_dispatches_queued_input_in_order() {
    let (tx, rx) = open_channel::<Event>();
    let (resp_tx, _resp_rx) = open_channel::<Response>();
    let mut responses = ResponseLink::new(resp_tx);
    let mut state = SessionState::new();
    let mut port = RecordingPort::new();

    assert!(channel_send(&tx, Event::Press(65)));
    assert!(channel_send(&tx, Event::Release(65)));

    let r = tick_intercept(&mut state, &rx, &mut responses, &mut port, 16);
    assert_eq!(r, TickResult::Returned);
    assert_eq!(port.log, vec![HostCall::KeyDown(65), HostCall::KeyUp(65)]);
    assert_eq!(state.mode, Mode::Running);
}

#[test]
fn tick_writes_pending_override_on_return() {
    let (tx, rx) = open_channel::<Event>();
    let (resp_tx, _resp_rx) = open_channel::<Response>();
    let mut responses = ResponseLink::new(resp_tx);
    let mut state = SessionState::new();
    let mut port = RecordingPort::new();
    let bits = 0.125f64.to_bits();

    assert!(channel_send(&tx, Event::SetDelta(bits)));
    let r = tick_intercept(&mut state, &rx, &mut responses, &mut port, 16);
    assert_eq!(r, TickResult::Returned);
    assert_eq!(port.log, vec![HostCall::DeltaWrite(bits)]);
    assert_eq!(state.delta_override, Some(bits));
}

#[test]
fn stop_then_continue_announces_stopped_once() {
    let (tx, rx) = open_channel::<Event>();
    let (resp_tx, resp_rx) = open_channel::<Response>();
    let mut responses = ResponseLink::new(resp_tx);
    let mut state = SessionState::new();
    let mut port = RecordingPort::new();

    assert!(channel_send(&tx, Event::Stop));
    assert!(channel_send(&tx, Event::Continue));

    let r = tick_intercept(&mut state, &rx, &mut responses, &mut port, 16);
    assert_eq!(r, TickResult::Returned);
    assert_eq!(state.mode, Mode::Running);
    assert_eq!(channel_try_recv(&resp_rx), Recv::Got(Response::Stopped));
    assert_eq!(channel_try_recv(&resp_rx), Recv::Empty);
}

#[test]
fn input_while_frozen_is_dispatched_before_unfreezing() {
    let (tx, rx) = open_channel::<Event>();
    let (resp_tx, resp_rx) = open_channel::<Response>();
    let mut responses = ResponseLink::new(resp_tx);
    let mut state = SessionState::new();
    let mut port = RecordingPort::new();

    // Queue the whole exchange up front so the blocking waits always find
    // their next event: freeze, move the mouse while frozen, unfreeze.
    assert!(channel_send(&tx, Event::Stop));
    assert!(channel_send(&tx, Event::Mouse(10, 20)));
    assert!(channel_send(&tx, Event::Continue));

    let r = tick_intercept(&mut state, &rx, &mut responses, &mut port, 16);
    assert_eq!(r, TickResult::Returned);
    assert_eq!(port.log, vec![HostCall::MouseMove(10, 20)]);
    assert_eq!(state.mode, Mode::Running);

    // One `Stopped` preceded each of the two blocking waits.
    assert_eq!(channel_try_recv(&resp_rx), Recv::Got(Response::Stopped));
    assert_eq!(channel_try_recv(&resp_rx), Recv::Got(Response::Stopped));
    assert_eq!(channel_try_recv(&resp_rx), Recv::Empty);
}

#[test]
fn interrupted_tick_leaves_the_rest_queued() {
    let (tx, rx) = open_channel::<Event>();
    let (resp_tx, _resp_rx) = open_channel::<Response>();
    let mut responses = ResponseLink::new(resp_tx);
    let mut state = SessionState::new();
    let mut port = RecordingPort::new();

    assert!(channel_send(&tx, Event::Press(1)));
    assert!(channel_send(&tx, Event::Press(2)));
    assert!(channel_send(&tx, Event::Press(3)));

    let r = tick_intercept(&mut state, &rx, &mut responses, &mut port, 2);
    assert_eq!(r, TickResult::Interrupted);
    assert_eq!(port.log, vec![HostCall::KeyDown(1), HostCall::KeyDown(2)]);

    let r = tick_intercept(&mut state, &rx, &mut responses, &mut port, 16);
    assert_eq!(r, TickResult::Returned);
    assert_eq!(
        port.log,
        vec![HostCall::KeyDown(1), HostCall::KeyDown(2), HostCall::KeyDown(3)]
    );
}

#[test]
fn disconnected_producer_fails_open_without_blocking() {
    let (tx, rx) = open_channel::<Event>();
    let (resp_tx, _resp_rx) = open_channel::<Response>();
    let mut responses = ResponseLink::new(resp_tx);
    let mut state = SessionState::new();
    let mut port = RecordingPort::new();

    drop(tx);

    // The tick must neither block nor panic, and must report exactly one
    // fatal-for-this-tick diagnostic, leaving everything unchanged.
    let r = tick_intercept(&mut state, &rx, &mut responses, &mut port, 16);
    assert_eq!(r, TickResult::ChannelDown(ChannelError::EventsDisconnected));
    assert_eq!(state, SessionState::new());
    assert_eq!(port.log, Vec::new());

    let step = tick_step(&mut state, &rx, &mut responses, &mut port);
    assert_eq!(step, TickOutcome::ChannelDown(ChannelError::EventsDisconnected));
}

#[test]
fn disconnected_controller_receiver_fails_open_while_frozen() {
    let (tx, rx) = open_channel::<Event>();
    let (resp_tx, resp_rx) = open_channel::<Response>();
    let mut responses = ResponseLink::new(resp_tx);
    let mut state = SessionState { mode: Mode::Stopping, delta_override: None };
    let mut port = RecordingPort::new();

    assert!(channel_send(&tx, Event::Continue));
    drop(resp_rx);

    // Announcing `Stopped` fails before the blocking wait is ever reached,
    // so the frozen tick gives up fail-open with the state unchanged.
    let r = tick_intercept(&mut state, &rx, &mut responses, &mut port, 16);
    assert_eq!(r, TickResult::ChannelDown(ChannelError::ResponsesDisconnected));
    assert_eq!(state.mode, Mode::Stopping);
}

#[test]
fn tick_step_reports_each_consumed_event() {
    let (tx, rx) = open_channel::<Event>();
    let (resp_tx, resp_rx) = open_channel::<Response>();
    let mut responses = ResponseLink::new(resp_tx);
    let mut state = SessionState::new();
    let mut port = RecordingPort::new();

    assert!(channel_send(&tx, Event::Press(9)));
    assert_eq!(
        tick_step(&mut state, &rx, &mut responses, &mut port),
        TickOutcome::Proceed(Event::Press(9))
    );
    assert_eq!(tick_step(&mut state, &rx, &mut responses, &mut port), TickOutcome::Idle);
    assert_eq!(port.log, vec![HostCall::KeyDown(9)]);
    // No announcement is ever made while running.
    assert_eq!(channel_try_recv(&resp_rx), Recv::Empty);

    assert!(channel_send(&tx, Event::Stop));
    assert_eq!(
        tick_step(&mut state, &rx, &mut responses, &mut port),
        TickOutcome::Proceed(Event::Stop)
    );
    assert_eq!(state.mode, Mode::Stopping);
    assert_eq!(channel_try_recv(&resp_rx), Recv::Empty);

    // The frozen step announces `Stopped` before its blocking wait, which
    // here finds the queued `Step`.
    assert!(channel_send(&tx, Event::Step));
    assert_eq!(
        tick_step(&mut state, &rx, &mut responses, &mut port),
        TickOutcome::Yield(Event::Step)
    );
    assert_eq!(channel_try_recv(&resp_rx), Recv::Got(Response::Stopped));
    assert_eq!(channel_try_recv(&resp_rx), Recv::Empty);
}

#[test]
fn new_game_notifies_the_controller() {
    let (resp_tx, resp_rx) = open_channel::<Response>();
    let mut responses = ResponseLink::new(resp_tx);
    assert!(new_game(&mut responses));
    assert_eq!(channel_try_recv(&resp_rx), Recv::Got(Response::NewGame));
    assert_eq!(channel_try_recv(&resp_rx), Recv::Empty);
}

#[test]
fn new_game_without_a_controller_is_fire_and_forget() {
    let (resp_tx, resp_rx) = open_channel::<Response>();
    let mut responses = ResponseLink::new(resp_tx);
    drop(resp_rx);
    assert!(!new_game(&mut responses));
}
