//! Diagnostic harness model for a lifecycle-propagation defect in a
//! shared-memory media transport.
//!
//! Three pipelines share one transport segment: a producer writes synthetic
//! frames, a display consumer renders them, and a counting consumer pulls
//! samples until a configured target is reached and then shuts itself down.
//! The modules below model the transport, the pipeline lifecycles, the
//! sample extractor, the controller that issues the one-shot shutdown, and
//! the driver that orchestrates a run, together with proofs of the isolation
//! and single-shutdown invariants and of the capacity-correlated halt delay
//! that the defect exhibits.

pub mod controller;
pub mod driver;
pub mod errors;
pub mod extractor;
pub mod lifecycle;
pub mod transport;
