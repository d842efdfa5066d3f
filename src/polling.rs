//! The poll-sleep-check loop shared by the listeners and the control
//! channel: a listener checks its running flag before every accept attempt
//! and leaves the loop as soon as the flag reads false.
use vstd::prelude::*;

verus! {

/// Lifecycle of a polling loop.
#[derive(Clone, Copy, PartialEq, Eq, Debug)]
pub enum LoopState {
    Created,
    Running,
    Stopping,
    Stopped,
}

/// What one non-blocking accept attempt gave.
#[derive(Clone, Copy, PartialEq, Eq, Debug)]
pub enum AcceptOutcome {
    /// A connection was accepted.
    Connection,
    /// No connection was waiting.
    WouldBlock,
    /// Accepting failed for another reason.
    Failed,
}

/// What the loop does with an accept outcome before it sleeps.
#[derive(Clone, Copy, PartialEq, Eq, Debug)]
pub enum PollAction {
    /// Hand the connection to the worker pool.
    Dispatch,
    /// Nothing to do this round.
    Idle,
    /// Log the error and go on polling.
    Report,
}

pub open spec fn action_for(outcome: AcceptOutcome) -> PollAction {
    match outcome {
        AcceptOutcome::Connection => PollAction::Dispatch,
        AcceptOutcome::WouldBlock => PollAction::Idle,
        AcceptOutcome::Failed => PollAction::Report,
    }
}

/// State of one polling loop.
#[derive(Debug)]
pub struct PollLoop {
    state: LoopState,
}

impl PollLoop {
    pub closed spec fn state(&self) -> LoopState {
        self.state
    }

    pub fn new() -> (r: PollLoop)
        ensures
            r.state() == LoopState::Created,
    {
        PollLoop { state: LoopState::Created }
    }

    /// The loop's thread has started.
    pub fn start(&mut self)
        requires
            old(self).state() == LoopState::Created,
        ensures
            final(self).state() == LoopState::Running,
    {
        self.state = LoopState::Running;
    }

    /// Reads the running flag at the top of an iteration. Returns whether to
    /// attempt an accept; when the flag is false the loop moves to
    /// `Stopping` without accepting anything.
    pub fn poll(&mut self, running: bool) -> (accept: bool)
        requires
            old(self).state() == LoopState::Running,
        ensures
            accept == running,
            final(self).state() == (if running {
                LoopState::Running
            } else {
                LoopState::Stopping
            }),
    {
        if !running {
            self.state = LoopState::Stopping;
        }
        running
    }

    /// The loop's thread has returned.
    pub fn finish(&mut self)
        requires
            old(self).state() == LoopState::Stopping,
        ensures
            final(self).state() == LoopState::Stopped,
    {
        self.state = LoopState::Stopped;
    }

    pub fn current(&self) -> (r: LoopState)
        ensures
            r == self.state(),
    {
        self.state
    }
}

/// What to do with an accept outcome: a connection is dispatched, an empty
/// poll does nothing, any other error is reported and the loop goes on.
pub fn accept_action(outcome: AcceptOutcome) -> (r: PollAction)
    ensures
        r == action_for(outcome),
{
    match outcome {
        AcceptOutcome::Connection => PollAction::Dispatch,
        AcceptOutcome::WouldBlock => PollAction::Idle,
        AcceptOutcome::Failed => PollAction::Report,
    }
}

} // verus!
