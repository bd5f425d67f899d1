//! The controller that issues the one-shot shutdown of the counting
//! pipeline.
//!
//! The controller runs on its own thread, precisely so that the blocking
//! `set_state(Null)` call never happens inside the engine-owned callback
//! context that produced the count. It receives count values over a
//! one-directional channel and walks `Waiting -> Stopping -> Done` exactly
//! once; it has no retry or resume behavior.

use vstd::prelude::*;
use crate::errors::ControllerError;

verus! {

/// Phase of the controller's state machine.
#[derive(Clone, Copy, PartialEq, Eq, Structural, Debug)]
pub enum ControllerPhase {
    /// Waiting for the next count value.
    Waiting,
    /// The target was reached; the blocking stop command is under way.
    Stopping,
    /// The stop command completed; the controller never acts again.
    Done,
}

/// One observation on the signal channel.
#[derive(Clone, Copy, PartialEq, Eq, Structural, Debug)]
pub enum ControllerEvent {
    /// A count value arrived from the extractor's callback context.
    Count(u64),
    /// The channel closed: the sending side is gone.
    Closed,
}

/// What the controller asks its thread to do after one event.
#[derive(Clone, Copy, PartialEq, Eq, Structural, Debug)]
pub enum ControllerAction {
    /// Keep blocking on the next count.
    KeepWaiting,
    /// Issue the blocking stop — `set_state(Null)` on the counting
    /// pipeline — on the controller's own thread, then confirm it.
    IssueStop,
}

/// The controller: compares each received count to a fixed target and, at
/// the target, asks for the one-shot stop of the counting pipeline.
#[derive(Clone, Copy, PartialEq, Eq, Structural, Debug)]
pub struct Controller {
    /// The configured target count.
    pub target: u64,
    pub phase: ControllerPhase,
}

impl Controller {
    /// A fresh controller for the given target.
    pub fn new(target: u64) -> (c: Controller)
        ensures
            c == (Controller { target, phase: ControllerPhase::Waiting }),
    {
        Controller { target, phase: ControllerPhase::Waiting }
    }

    /// Digest one channel event. A count equal to the target — and no
    /// other — moves the controller to Stopping and asks for the stop; a
    /// channel closed before the target is a fatal logic defect.
    pub fn on_event(&mut self, event: ControllerEvent) -> (r: Result<
        ControllerAction,
        ControllerError,
    >)
        requires
            old(self).phase is Waiting,
        ensures
            final(self).target == old(self).target,
            match event {
                ControllerEvent::Count(v) => {
                    if v == old(self).target {
                        &&& r == Ok::<ControllerAction, ControllerError>(ControllerAction::IssueStop)
                        &&& final(self).phase is Stopping
                    } else {
                        &&& r == Ok::<ControllerAction, ControllerError>(ControllerAction::KeepWaiting)
                        &&& final(self).phase is Waiting
                    }
                },
                ControllerEvent::Closed => {
                    &&& r == Err::<ControllerAction, ControllerError>(ControllerError::ChannelClosed)
                    &&& final(self).phase is Waiting
                },
            },
    {
        match event {
            ControllerEvent::Count(v) => {
                if v == self.target {
                    self.phase = ControllerPhase::Stopping;
                    Ok(ControllerAction::IssueStop)
                } else {
                    Ok(ControllerAction::KeepWaiting)
                }
            },
            ControllerEvent::Closed => Err(ControllerError::ChannelClosed),
        }
    }

    /// Record that the blocking stop command completed. The controller is
    /// done: no phase ever leads back to Waiting, so the stop is issued at
    /// most once in its lifetime.
    pub fn confirm_stopped(&mut self)
        requires
            old(self).phase is Stopping,
        ensures
            *final(self) == (Controller { target: old(self).target, phase: ControllerPhase::Done }),
    {
        self.phase = ControllerPhase::Done;
    }
}

} // verus!
