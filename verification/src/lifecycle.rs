//! The playback lifecycle: a single-shot state machine from idle through
//! streaming to stopped, and the single-slot termination signal that
//! drives its teardown.

use vstd::prelude::*;

verus! {

/// The lifecycle states of one playback run.
#[derive(Clone, Copy, PartialEq, Eq, Structural, Debug)]
pub enum LifecycleState {
    Idle,
    Streaming,
    Stopped,
}

/// What the caller must do to the platform stream after a transition.
#[derive(Clone, Copy, PartialEq, Eq, Structural, Debug)]
pub enum StreamAction {
    OpenStream,
    ReleaseStream,
    NoAction,
}

/// The state after a start request, and the action it demands: only an
/// idle controller opens a stream; repeated or late start requests are
/// ignored, keeping at most one active stream per run.
pub open spec fn start_transition(s: LifecycleState) -> (LifecycleState, StreamAction) {
    match s {
        LifecycleState::Idle => (LifecycleState::Streaming, StreamAction::OpenStream),
        LifecycleState::Streaming => (LifecycleState::Streaming, StreamAction::NoAction),
        LifecycleState::Stopped => (LifecycleState::Stopped, StreamAction::NoAction),
    }
}

/// The state after a termination signal: a streaming controller releases
/// its stream; stopping in any other state is a no-op.
pub open spec fn stop_transition(s: LifecycleState) -> (LifecycleState, StreamAction) {
    match s {
        LifecycleState::Streaming => (LifecycleState::Stopped, StreamAction::ReleaseStream),
        _ => (s, StreamAction::NoAction),
    }
}

/// Stopping when no stream is running changes nothing and demands nothing.
pub proof fn lemma_stop_is_no_op(s: LifecycleState)
    requires
        s != LifecycleState::Streaming,
    ensures
        stop_transition(s) == (s, StreamAction::NoAction),
{
}

/// A run that starts and is immediately told to terminate ends cleanly in
/// the terminal state, releasing exactly the stream it opened.
pub proof fn lemma_immediate_termination()
    ensures
        start_transition(LifecycleState::Idle) == (
            LifecycleState::Streaming,
            StreamAction::OpenStream,
        ),
        stop_transition(LifecycleState::Streaming) == (
            LifecycleState::Stopped,
            StreamAction::ReleaseStream,
        ),
{
}

/// The run is single-shot: once stopped, no request ever leaves the
/// terminal state or touches a stream again.
pub proof fn lemma_stopped_is_terminal()
    ensures
        start_transition(LifecycleState::Stopped) == (
            LifecycleState::Stopped,
            StreamAction::NoAction,
        ),
        stop_transition(LifecycleState::Stopped) == (
            LifecycleState::Stopped,
            StreamAction::NoAction,
        ),
{
}

/// Owns the lifecycle of one playback run.
pub struct LifecycleController {
    pub state: LifecycleState,
}

impl LifecycleController {
    /// A controller for a fresh run, not yet streaming.
    pub fn new() -> (c: LifecycleController)
        ensures
            c.state == LifecycleState::Idle,
    {
        LifecycleController { state: LifecycleState::Idle }
    }

    /// Handles a start request, returning the stream action to perform.
    pub fn request_start(&mut self) -> (a: StreamAction)
        ensures
            (final(self).state, a) == start_transition(old(self).state),
    {
        match self.state {
            LifecycleState::Idle => {
                self.state = LifecycleState::Streaming;
                StreamAction::OpenStream
            },
            _ => StreamAction::NoAction,
        }
    }

    /// Handles a termination signal, returning the stream action to
    /// perform; if no stream is running this is a no-op.
    pub fn handle_termination(&mut self) -> (a: StreamAction)
        ensures
            (final(self).state, a) == stop_transition(old(self).state),
    {
        match self.state {
            LifecycleState::Streaming => {
                self.state = LifecycleState::Stopped;
                StreamAction::ReleaseStream
            },
            _ => StreamAction::NoAction,
        }
    }
}

/// A single-slot termination signal: fired at most once per run by the
/// interrupt or UI handler, consumed exactly once by the control thread.
pub struct TerminationSignal {
    pub fired: bool,
}

impl TerminationSignal {
    /// A fresh, unfired slot.
    pub fn new() -> (s: TerminationSignal)
        ensures
            !s.fired,
    {
        TerminationSignal { fired: false }
    }

    /// Records that termination was requested; firing again changes
    /// nothing.
    pub fn fire(&mut self)
        ensures
            final(self).fired,
    {
        self.fired = true;
    }

    /// Consumes the signal: reports whether it had fired and clears it, so
    /// a fired signal is observed exactly once.
    pub fn take(&mut self) -> (was: bool)
        ensures
            was == old(self).fired,
            !final(self).fired,
    {
        let was = self.fired;
        self.fired = false;
        was
    }
}

} // verus!
