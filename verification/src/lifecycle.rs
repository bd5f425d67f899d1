//! Pipeline lifecycle states and the pipeline wrapper.
//!
//! A pipeline wraps one opaque processing graph with an explicit lifecycle
//! state. The engine performs intermediate transitions itself: the wrapper
//! only issues the final target and treats the call as blocking until the
//! engine reports completion. Stopping is one-shot and irreversible — a
//! pipeline that has come back down to Null is never revived, and the model
//! rejects any later attempt to raise it.

use vstd::prelude::*;
use crate::errors::LifecycleError;

verus! {

/// Lifecycle state of a pipeline. The states form a strict linear order
/// `Null < Ready < Paused < Playing`; resources are acquired on the way up
/// and released on the way down.
#[derive(Clone, Copy, PartialEq, Eq, Structural, Debug)]
pub enum State {
    Null,
    Ready,
    Paused,
    Playing,
}

impl State {
    /// Position of a state in the linear order `Null < Ready < Paused < Playing`.
    pub open spec fn rank(self) -> int {
        match self {
            State::Null => 0,
            State::Ready => 1,
            State::Paused => 2,
            State::Playing => 3,
        }
    }
}

/// Which of the three pipelines of the harness a value belongs to.
#[derive(Clone, Copy, PartialEq, Eq, Structural, Debug)]
pub enum Role {
    Producer,
    Display,
    Counting,
}

/// A pipeline: one opaque processing graph with an explicit lifecycle state
/// and, for a consumer pipeline, the slot of its endpoint on the shared
/// segment. A pipeline is owned exclusively by the driver or controller that
/// created it; lifecycle transitions are its only observable mutation.
#[derive(Clone, Copy, PartialEq, Eq, Structural, Debug)]
pub struct Pipeline {
    pub role: Role,
    pub state: State,
    /// Slot of this pipeline's consumer endpoint on the shared segment, for
    /// as long as the pipeline holds one.
    pub consumer_slot: Option<usize>,
    /// Whether the pipeline has completed its one-shot transition back to
    /// Null; it is then never revived.
    pub retired: bool,
}

impl Pipeline {
    /// Wrap a freshly constructed graph: the pipeline starts at Null,
    /// unattached and not retired.
    pub fn new(role: Role) -> (p: Pipeline)
        ensures
            p == (Pipeline {
                role,
                state: State::Null,
                consumer_slot: None::<usize>,
                retired: false,
            }),
    {
        Pipeline { role, state: State::Null, consumer_slot: None, retired: false }
    }

    /// Record the slot of the consumer endpoint the pipeline was attached to
    /// on the shared segment.
    pub fn attach_endpoint(&mut self, slot: usize)
        requires
            old(self).consumer_slot is None,
        ensures
            *final(self) == (Pipeline { consumer_slot: Some(slot), ..*old(self) }),
    {
        self.consumer_slot = Some(slot);
    }

    /// Request a transition to `target`. The engine walks any intermediate
    /// states itself and the call blocks until it reports completion, so the
    /// pipeline lands exactly on the target. Coming down to Null retires the
    /// pipeline and releases its endpoint reference; a retired pipeline
    /// rejects every request to leave Null.
    pub fn set_state(&mut self, target: State) -> (r: Result<(), LifecycleError>)
        ensures
            match r {
                Ok(()) => {
                    &&& !(old(self).retired && target !is Null)
                    &&& final(self).role == old(self).role
                    &&& final(self).state == target
                    &&& final(self).retired == (old(self).retired || (target is Null
                        && old(self).state.rank() > State::Null.rank()))
                    &&& final(self).consumer_slot == (if target is Null {
                        None::<usize>
                    } else {
                        old(self).consumer_slot
                    })
                },
                Err(e) => {
                    &&& old(self).retired && target !is Null
                    &&& e == LifecycleError::Retired
                    &&& *final(self) == *old(self)
                },
            },
    {
        if self.retired && !matches!(target, State::Null) {
            return Err(LifecycleError::Retired);
        }
        if matches!(target, State::Null) {
            if !matches!(self.state, State::Null) {
                self.retired = true;
            }
            self.consumer_slot = None;
        }
        self.state = target;
        Ok(())
    }
}

} // verus!
