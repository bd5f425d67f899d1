//! The harness driver: builds the three pipelines around one shared segment,
//! starts them, runs the counting loop to the configured target and issues
//! the one-shot shutdown.
//!
//! The driver models the orchestration exactly as it runs: per delivered
//! sample, one frame crosses the segment and both consumers keep pace with
//! the producer; the extractor digests the pull outcome in its callback
//! context; the controller digests the signalled count on its own thread and
//! issues the blocking stop there, never inside the callback.

use vstd::prelude::*;
use crate::controller::{Controller, ControllerAction, ControllerEvent, ControllerPhase};
use crate::errors::{ConstructionError, ControllerError};
use crate::extractor::{Extractor, ExtractorStep, SampleSource};
use crate::lifecycle::{Pipeline, Role, State};
use crate::transport::{
    same_segment, detached, ConsumerEndpoint, DetachBehavior, Format, PollOutcome, Transport,
};

verus! {

/// Slot of the display pipeline's consumer endpoint on the segment.
pub const DISPLAY_SLOT: usize = 0;

/// Slot of the counting pipeline's consumer endpoint on the segment.
pub const COUNTING_SLOT: usize = 1;

/// Startup-time configuration of one run.
#[derive(Clone, Copy, PartialEq, Eq, Structural, Debug)]
pub struct HarnessConfig {
    /// Rendezvous address all three pipelines share.
    pub address: u64,
    /// Byte capacity of the shared segment.
    pub capacity: u64,
    /// Frame format, identical across all three pipelines.
    pub format: Format,
    /// Count of pulled samples at which the counting pipeline stops itself.
    pub target: u64,
    /// Which detach behavior the segment under test exhibits.
    pub behavior: DetachBehavior,
}

/// What one run reports back.
#[derive(Debug)]
pub struct RunReport {
    /// The diagnostic records the extractor emitted, one per pulled sample:
    /// the count value before each increment.
    pub records: Vec<u64>,
    /// Samples pulled during the run.
    pub count: u64,
}

/// The harness: three pipelines sharing one segment, the extractor on the
/// counting pipeline, the controller that will stop it, and a record of how
/// many stop commands were ever issued.
pub struct Harness {
    pub transport: Transport,
    pub producer: Pipeline,
    pub display: Pipeline,
    pub counting: Pipeline,
    pub extractor: Extractor,
    pub controller: Controller,
    /// Stop commands issued on the counting pipeline over the harness's
    /// whole life.
    pub stops: u64,
}

impl Harness {
    /// A well-formed harness: a well-formed segment carrying exactly the
    /// display endpoint at its slot — attached for the whole life of the
    /// harness — and the counting endpoint at its own, with each pipeline in
    /// its role and only the consumer pipelines holding endpoint slots.
    pub open spec fn wf(self) -> bool {
        &&& self.transport.wf()
        &&& self.transport.consumers@.len() == 2
        &&& self.transport.consumers@[DISPLAY_SLOT as int].attached
        &&& self.producer.role is Producer
        &&& self.display.role is Display
        &&& self.counting.role is Counting
        &&& self.producer.consumer_slot is None
        &&& self.display.consumer_slot == Some(DISPLAY_SLOT)
    }

    /// The counting pipeline still holds its endpoint: true from build until
    /// its one-shot shutdown detaches it.
    pub open spec fn counting_attached(self) -> bool {
        &&& self.counting.consumer_slot == Some(COUNTING_SLOT)
        &&& self.transport.consumers@[COUNTING_SLOT as int].attached
    }

    /// Both consumer endpoints have pulled everything the producer has
    /// written, as live consumers of a live source do.
    pub open spec fn consumers_keeping_pace(self) -> bool {
        &&& self.transport.consumers@[DISPLAY_SLOT as int].next_frame == self.transport.written
        &&& self.transport.consumers@[COUNTING_SLOT as int].next_frame == self.transport.written
    }

    /// Build the three pipelines around a fresh segment at the configured
    /// address: the producer endpoint first, then the display and counting
    /// consumer endpoints, every pipeline at Null. Fails exactly when the
    /// format is malformed or the capacity cannot hold one frame.
    pub fn build(config: HarnessConfig) -> (r: Result<Harness, ConstructionError>)
        ensures
            match r {
                Ok(h) => {
                    &&& config.format.wf()
                    &&& config.format.spec_frame_bytes() <= config.capacity
                    &&& h.wf()
                    &&& h.counting_attached()
                    &&& h.consumers_keeping_pace()
                    &&& h.transport.address == config.address
                    &&& h.transport.capacity == config.capacity
                    &&& h.transport.format == config.format
                    &&& h.transport.behavior == config.behavior
                    &&& h.transport.written == 0
                    &&& h.transport.write_limit is None
                    &&& h.producer.state is Null && !h.producer.retired
                    &&& h.display.state is Null && !h.display.retired
                    &&& h.counting.state is Null && !h.counting.retired
                    &&& h.extractor == (Extractor { count: 0, terminal: None::<crate::extractor::TerminalKind> })
                    &&& h.controller == (Controller {
                        target: config.target,
                        phase: ControllerPhase::Waiting,
                    })
                    &&& h.stops == 0
                },
                Err(e) => {
                    &&& !(config.format.wf() && config.format.spec_frame_bytes()
                        <= config.capacity)
                    &&& e == (if !config.format.wf() {
                        ConstructionError::MalformedFormat
                    } else {
                        ConstructionError::CapacityBelowOneFrame
                    })
                },
            },
    {
        let mut transport = match Transport::attach_producer(
            config.address,
            config.capacity,
            config.format,
            config.behavior,
        ) {
            Ok(t) => t,
            Err(e) => {
                return Err(e);
            },
        };
        let display_slot = match transport.attach_consumer(config.format) {
            Ok(slot) => slot,
            Err(e) => {
                return Err(e);  // unreachable: the format is the segment's own
            },
        };
        let counting_slot = match transport.attach_consumer(config.format) {
            Ok(slot) => slot,
            Err(e) => {
                return Err(e);  // unreachable: the format is the segment's own
            },
        };
        let producer = Pipeline::new(Role::Producer);
        let mut display = Pipeline::new(Role::Display);
        display.attach_endpoint(display_slot);
        let mut counting = Pipeline::new(Role::Counting);
        counting.attach_endpoint(counting_slot);
        Ok(
            Harness {
                transport,
                producer,
                display,
                counting,
                extractor: Extractor::new(),
                controller: Controller::new(config.target),
                stops: 0,
            },
        )
    }

    /// Start the run: producer and display pipelines first, then the
    /// counting pipeline, each raised straight to Playing. Nothing else of
    /// the harness changes.
    pub fn start(&mut self)
        requires
            old(self).wf(),
            old(self).producer.state is Null && !old(self).producer.retired,
            old(self).display.state is Null && !old(self).display.retired,
            old(self).counting.state is Null && !old(self).counting.retired,
        ensures
            final(self).wf(),
            final(self).producer == (Pipeline { state: State::Playing, ..old(self).producer }),
            final(self).display == (Pipeline { state: State::Playing, ..old(self).display }),
            final(self).counting == (Pipeline { state: State::Playing, ..old(self).counting }),
            final(self).transport == old(self).transport,
            final(self).extractor == old(self).extractor,
            final(self).controller == old(self).controller,
            final(self).stops == old(self).stops,
    {
        let _ = self.producer.set_state(State::Playing);
        let _ = self.display.set_state(State::Playing);
        let _ = self.counting.set_state(State::Playing);
    }

    /// The one-shot shutdown of the counting pipeline, issued from the
    /// controller's thread: detach its consumer endpoint from the segment
    /// and bring the pipeline down to Null, which retires it for good. The
    /// segment reacts to the detach per its behavior; the producer and
    /// display pipelines are not touched.
    fn stop_counting(&mut self)
        requires
            old(self).wf(),
            old(self).counting_attached(),
            !old(self).counting.retired,
            old(self).counting.state.rank() > State::Null.rank(),
            old(self).stops < u64::MAX,
            old(self).transport.written + old(self).transport.spec_frame_capacity() <= u64::MAX,
        ensures
            final(self).wf(),
            detached(old(self).transport, final(self).transport, COUNTING_SLOT as int),
            final(self).counting.role == old(self).counting.role,
            final(self).counting.state is Null,
            final(self).counting.retired,
            final(self).counting.consumer_slot is None,
            final(self).producer == old(self).producer,
            final(self).display == old(self).display,
            final(self).extractor == old(self).extractor,
            final(self).controller == old(self).controller,
            final(self).stops == old(self).stops + 1,
    {
        self.transport.detach_consumer(COUNTING_SLOT);
        let _ = self.counting.set_state(State::Null);
        self.stops = self.stops + 1;
    }

    /// Run the counting loop: per delivered sample one frame crosses the
    /// segment with both consumers keeping pace, the extractor counts the
    /// sample and signals the count, and the controller stops the counting
    /// pipeline exactly at the target.
    ///
    /// The counting pipeline transitions to Null exactly once, and only
    /// after exactly `target` successful pulls: on a stage with at least
    /// `target` samples (and a nonzero target) the run returns the report of
    /// the records 0 through `target - 1` with exactly one stop issued;
    /// otherwise the stage turns terminal first, the channel closes with the
    /// target unreached, no stop is ever issued and the run fails fatally.
    pub fn run(&mut self, source: &mut SampleSource) -> (r: Result<RunReport, ControllerError>)
        requires
            old(self).wf(),
            old(self).counting_attached(),
            old(self).consumers_keeping_pace(),
            !old(self).counting.retired,
            old(self).counting.state is Playing,
            old(self).extractor.count == 0,
            old(self).extractor.terminal is None,
            old(self).controller.phase is Waiting,
            old(self).stops == 0,
            old(self).transport.write_limit is None,
            old(source).delivered == 0,
            old(self).transport.written + old(source).available
                + old(self).transport.spec_frame_capacity() <= u64::MAX,
        ensures
            final(self).wf(),
            same_segment(old(self).transport, final(self).transport),
            final(self).controller.target == old(self).controller.target,
            final(self).producer == old(self).producer,
            final(self).display == old(self).display,
            final(source).available == old(source).available,
            final(source).terminal == old(source).terminal,
            match r {
                Ok(report) => {
                    &&& 1 <= old(self).controller.target <= old(source).available
                    &&& report.count == old(self).controller.target
                    &&& report.records@.len() == report.count
                    &&& forall|i: int|
                        0 <= i < report.records@.len() ==> #[trigger] report.records@[i] == i
                    &&& final(self).extractor.count == old(self).controller.target
                    &&& final(self).extractor.terminal is None
                    &&& final(self).controller.phase is Done
                    &&& final(self).stops == 1
                    &&& final(self).counting.state is Null
                    &&& final(self).counting.retired
                    &&& final(self).counting.consumer_slot is None
                    &&& final(source).delivered == old(self).controller.target
                    &&& final(self).transport.written == old(self).transport.written + old(
                        self,
                    ).controller.target
                    &&& final(self).transport.consumers@[DISPLAY_SLOT as int]
                        == (ConsumerEndpoint {
                        attached: true,
                        next_frame: final(self).transport.written,
                    })
                    &&& final(self).transport.consumers@[COUNTING_SLOT as int]
                        == (ConsumerEndpoint {
                        attached: false,
                        next_frame: final(self).transport.written,
                    })
                    &&& final(self).transport.write_limit == (if old(
                        self,
                    ).transport.behavior is StallsProducer {
                        Some(
                            (final(self).transport.written
                                + old(self).transport.spec_frame_capacity()) as u64,
                        )
                    } else {
                        None::<u64>
                    })
                },
                Err(e) => {
                    &&& e == ControllerError::ChannelClosed
                    &&& !(1 <= old(self).controller.target <= old(source).available)
                    &&& final(self).extractor.count == old(source).available
                    &&& final(self).extractor.terminal == Some(old(source).terminal)
                    &&& final(self).controller.phase is Waiting
                    &&& final(self).stops == 0
                    &&& final(self).counting == old(self).counting
                    &&& final(self).counting_attached()
                    &&& final(self).consumers_keeping_pace()
                    &&& final(source).delivered == old(source).available
                    &&& final(self).transport.write_limit is None
                    &&& final(self).transport.written == old(self).transport.written + old(
                        source,
                    ).available
                },
            },
    {
        proof {
            self.transport.format.lemma_frame_bytes_bounds();
            vstd::arithmetic::div_mod::lemma_div_by_self(self.transport.format.spec_frame_bytes());
            vstd::arithmetic::div_mod::lemma_div_is_ordered(
                self.transport.format.spec_frame_bytes(),
                self.transport.capacity as int,
                self.transport.format.spec_frame_bytes(),
            );
        }
        let mut records: Vec<u64> = Vec::new();
        loop
            invariant
                self.wf(),
                self.counting_attached(),
                self.consumers_keeping_pace(),
                !self.counting.retired,
                self.counting == old(self).counting,
                self.counting.state is Playing,
                self.producer == old(self).producer,
                self.display == old(self).display,
                same_segment(old(self).transport, self.transport),
                self.transport.write_limit is None,
                self.controller == old(self).controller,
                self.controller.phase is Waiting,
                self.extractor.terminal is None,
                self.extractor.count == source.delivered,
                self.controller.target > 0 ==> self.extractor.count < self.controller.target,
                self.stops == 0,
                records@.len() == self.extractor.count,
                forall|i: int| 0 <= i < records@.len() ==> #[trigger] records@[i] == i,
                source.available == old(source).available,
                source.terminal == old(source).terminal,
                source.delivered <= source.available,
                self.transport.written == old(self).transport.written + source.delivered,
                old(self).transport.written + old(source).available + old(
                    self,
                ).transport.spec_frame_capacity() <= u64::MAX,
                1 <= old(self).transport.spec_frame_capacity(),
            decreases source.available - source.delivered,
        {
            let signal = source.pull();
            match self.extractor.on_pull(signal) {
                ExtractorStep::Counted { record, signal: v } => {
                    records.push(record);
                    // Engine side of the same sample: one frame crossed the
                    // segment, and both live consumers drain it at once.
                    self.transport.produce_frame();
                    let _ = self.transport.consumer_pull(DISPLAY_SLOT);
                    let _ = self.transport.consumer_pull(COUNTING_SLOT);
                    match self.controller.on_event(ControllerEvent::Count(v)) {
                        Ok(ControllerAction::KeepWaiting) => {},
                        Ok(ControllerAction::IssueStop) => {
                            self.stop_counting();
                            self.controller.confirm_stopped();
                            let count = self.extractor.count;
                            return Ok(RunReport { records, count });
                        },
                        Err(_) => {},  // a count event is never a channel error
                    }
                },
                ExtractorStep::Finished { kind: _ } => {
                    // One extra pull drains any buffered terminal signal;
                    // its result is discarded. The callback context then
                    // unwinds, which closes the signal channel with the
                    // target unreached: fatal for the controller.
                    let _ = source.pull();
                    match self.controller.on_event(ControllerEvent::Closed) {
                        Err(_) => {
                            return Err(ControllerError::ChannelClosed);
                        },
                        Ok(_) => {},  // a closed channel never yields an action
                    }
                },
            }
        }
    }

    /// Poll the display pipeline's output for up to `budget` further frames
    /// after the counting pipeline's shutdown, the producer running freely:
    /// continuous output on an isolated segment, and a halt after exactly
    /// the segment's frame capacity on a defective one.
    pub fn poll_display(&mut self, budget: u64) -> (r: PollOutcome)
        requires
            old(self).wf(),
            old(self).transport.written + budget <= u64::MAX,
        ensures
            final(self).wf(),
            same_segment(old(self).transport, final(self).transport),
            final(self).producer == old(self).producer,
            final(self).display == old(self).display,
            final(self).counting == old(self).counting,
            final(self).extractor == old(self).extractor,
            final(self).controller == old(self).controller,
            final(self).stops == old(self).stops,
            final(self).transport.write_limit == old(self).transport.write_limit,
            final(self).transport.consumers@[COUNTING_SLOT as int] == old(
                self,
            ).transport.consumers@[COUNTING_SLOT as int],
            r == (match old(self).transport.frames_before_halt(DISPLAY_SLOT as int) {
                Some(left) => if left < budget {
                    PollOutcome::Halted { frames: left as u64 }
                } else {
                    PollOutcome::Continuous { frames: budget }
                },
                None => PollOutcome::Continuous { frames: budget },
            }),
    {
        self.transport.poll_consumer(DISPLAY_SLOT, budget)
    }
}

} // verus!
