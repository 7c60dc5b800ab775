//! Tests of the playback lifecycle state machine and the termination
//! signal slot.

use make_noise::lifecycle::{
    LifecycleController, LifecycleState, StreamAction, TerminationSignal,
};

#[test]
fn start_opens_a_stream_once() {
    let mut ctl = LifecycleController::new();
    assert_eq!(ctl.state, LifecycleState::Idle);
    assert_eq!(ctl.request_start(), StreamAction::OpenStream);
    assert_eq!(ctl.state, LifecycleState::Streaming);
    // A re-entrant start request never opens a second stream.
    assert_eq!(ctl.request_start(), StreamAction::NoAction);
    assert_eq!(ctl.state, LifecycleState::Streaming);
}

#[test]
fn stopping_when_not_running_is_a_no_op() {
    let mut ctl = LifecycleController::new();
    assert_eq!(ctl.handle_termination(), StreamAction::NoAction);
    assert_eq!(ctl.state, LifecycleState::Idle);
}

#[test]
fn start_then_immediate_termination_ends_cleanly() {
    let mut ctl = LifecycleController::new();
    assert_eq!(ctl.request_start(), StreamAction::OpenStream);
    assert_eq!(ctl.handle_termination(), StreamAction::ReleaseStream);
    assert_eq!(ctl.state, LifecycleState::Stopped);
}

#[test]
fn stopped_is_terminal() {
    let mut ctl = LifecycleController::new();
    ctl.request_start();
    ctl.handle_termination();
    assert_eq!(ctl.request_start(), StreamAction::NoAction);
    assert_eq!(ctl.state, LifecycleState::Stopped);
    assert_eq!(ctl.handle_termination(), StreamAction::NoAction);
    assert_eq!(ctl.state, LifecycleState::Stopped);
}

#[test]
fn termination_signal_is_consumed_exactly_once() {
    let mut sig = TerminationSignal::new();
    assert!(!sig.take());
    sig.fire();
    sig.fire();  // firing twice is still one signal
    assert!(sig.take());
    assert!(!sig.take());
}
