//! Error taxonomy of the harness.
//!
//! Construction and lifecycle failures are fatal: the harness aborts rather
//! than recover, since pipeline state is assumed consistent only while every
//! transition succeeds. A closed signal channel before the target count is
//! reached indicates a logic defect and is fatal as well. Pull failures are
//! not errors of the harness: they are ordinary flow signals handled locally
//! by the extractor.

use vstd::prelude::*;

verus! {

/// A pipeline or transport segment could not be built.
#[derive(Clone, Copy, PartialEq, Eq, Structural, Debug)]
pub enum ConstructionError {
    /// The format descriptor is malformed: zero or oversized dimensions, an
    /// odd dimension (the planar layout halves each one), or a zero rate.
    MalformedFormat,
    /// The segment cannot hold even a single frame of the given format.
    CapacityBelowOneFrame,
    /// A consumer offered a format that does not match the segment's format
    /// bit for bit.
    FormatMismatch,
}

/// A lifecycle transition was rejected by the engine.
#[derive(Clone, Copy, PartialEq, Eq, Structural, Debug)]
pub enum LifecycleError {
    /// The pipeline has already completed its one-shot transition to Null;
    /// it is never revived.
    Retired,
}

/// The controller failed fatally.
#[derive(Clone, Copy, PartialEq, Eq, Structural, Debug)]
pub enum ControllerError {
    /// The count channel closed before the target was reached: the extractor
    /// terminated early, which indicates a logic or lifecycle defect.
    ChannelClosed,
}

} // verus!
