//! Unit tests of the session-state transition applied by one drained event.

use tick_control::protocol::{Event, HostCall};
use tick_control::session::{Mode, SessionState};

#[test]
fn initial_state_runs_with_no_override() {
    let s = SessionState::new();
    assert_eq!(s.mode, Mode::Running);
    assert_eq!(s.delta_override, None);
}

#[test]
fn stop_enters_stopping_and_keeps_draining() {
    let mut s = SessionState::new();
    let out = s.apply_event(Event::Stop);
    assert_eq!(s.mode, Mode::Stopping);
    assert_eq!(out.call, None);
    assert!(!out.ends_drain);
}

#[test]
fn step_changes_nothing_and_ends_the_drain() {
    let mut s = SessionState { mode: Mode::Stopping, delta_override: Some(1) };
    let before = s;
    let out = s.apply_event(Event::Step);
    assert_eq!(s, before);
    assert_eq!(out.call, None);
    assert!(out.ends_drain);
}

#[test]
fn continue_resumes_and_ends_the_drain() {
    let mut s = SessionState { mode: Mode::Stopping, delta_override: None };
    let out = s.apply_event(Event::Continue);
    assert_eq!(s.mode, Mode::Running);
    assert_eq!(out.call, None);
    assert!(out.ends_drain);
}

#[test]
fn press_and_release_dispatch_without_mode_change() {
    let mut s = SessionState::new();
    let down = s.apply_event(Event::Press(32));
    let up = s.apply_event(Event::Release(32));
    assert_eq!(down.call, Some(HostCall::KeyDown(32)));
    assert_eq!(up.call, Some(HostCall::KeyUp(32)));
    assert!(!down.ends_drain);
    assert!(!up.ends_drain);
    assert_eq!(s, SessionState::new());
}

#[test]
fn mouse_dispatches_coordinates() {
    let mut s = SessionState::new();
    let out = s.apply_event(Event::Mouse(-3, 9));
    assert_eq!(out.call, Some(HostCall::MouseMove(-3, 9)));
    assert!(!out.ends_drain);
}

#[test]
fn set_delta_sets_and_zero_clears() {
    let mut s = SessionState::new();
    let bits = 5.0f64.to_bits();
    s.apply_event(Event::SetDelta(bits));
    assert_eq!(s.delta_override, Some(bits));
    s.apply_event(Event::SetDelta(0.0f64.to_bits()));
    assert_eq!(s.delta_override, None);
}
