//! The sample extractor and the model of the pullable stage it drains.
//!
//! The extractor wraps the pull operation of the counting pipeline's
//! terminal stage. It is invoked once per available unit of data from an
//! engine-owned callback context; its count is exclusive to it and is
//! observed by the rest of the harness only through the channel messages the
//! caller sends on its behalf.

use vstd::prelude::*;

verus! {

/// One unit of transported data as the extractor sees it: an opaque handle
/// reduced to its sequence position. The payload is discarded right after
/// counting and never retained.
#[derive(Clone, Copy, PartialEq, Eq, Structural, Debug)]
pub struct Sample {
    pub seq: u64,
}

/// The class of a terminal flow signal.
#[derive(Clone, Copy, PartialEq, Eq, Structural, Debug)]
pub enum TerminalKind {
    EndOfStream,
    Error,
}

/// Tagged outcome of one pull attempt.
#[derive(Clone, Copy, PartialEq, Eq, Structural, Debug)]
pub enum FlowSignal {
    Success(Sample),
    EndOfStream,
    Error,
}

/// What the extractor asks of its caller — the engine-owned callback
/// context — after digesting one pull outcome.
#[derive(Clone, Copy, PartialEq, Eq, Structural, Debug)]
pub enum ExtractorStep {
    /// A sample was pulled: emit a diagnostic record of the count before the
    /// increment and send the incremented count over the signal channel,
    /// fire-and-forget, never blocking the callback.
    Counted { record: u64, signal: u64 },
    /// The pull failed: emit a record, make exactly one further pull to
    /// drain any buffered terminal signal (discarding its result), and
    /// report a terminal flow signal upward so the engine treats the stage
    /// as finished.
    Finished { kind: TerminalKind },
}

/// The pull-based sample extractor: a strictly increasing count of
/// successful pulls and, once a terminal signal has been seen, the class it
/// finished with.
#[derive(Clone, Copy, PartialEq, Eq, Structural, Debug)]
pub struct Extractor {
    /// Samples successfully pulled so far; starts at 0 and grows by exactly
    /// 1 per success.
    pub count: u64,
    /// Set once a terminal signal was seen; the extractor is then finished.
    pub terminal: Option<TerminalKind>,
}

impl Extractor {
    /// The extractor has seen a terminal signal and reported the stage as
    /// finished.
    pub open spec fn finished(self) -> bool {
        self.terminal is Some
    }

    /// A fresh extractor: nothing counted, nothing terminal.
    pub fn new() -> (e: Extractor)
        ensures
            e == (Extractor { count: 0, terminal: None::<TerminalKind> }),
    {
        Extractor { count: 0, terminal: None }
    }

    /// Digest the outcome of one pull attempt. A success increments the
    /// count and asks the caller to record the previous count and signal the
    /// new one; a failure marks the extractor finished with the signal's
    /// class and asks the caller to drain once and report the stage failed.
    pub fn on_pull(&mut self, outcome: FlowSignal) -> (step: ExtractorStep)
        requires
            !old(self).finished(),
            old(self).count < u64::MAX,
        ensures
            match outcome {
                FlowSignal::Success(_) => {
                    &&& step == (ExtractorStep::Counted {
                        record: old(self).count,
                        signal: (old(self).count + 1) as u64,
                    })
                    &&& final(self).count == old(self).count + 1
                    &&& final(self).terminal is None
                },
                FlowSignal::EndOfStream => {
                    &&& step == (ExtractorStep::Finished { kind: TerminalKind::EndOfStream })
                    &&& final(self).count == old(self).count
                    &&& final(self).terminal == Some(TerminalKind::EndOfStream)
                },
                FlowSignal::Error => {
                    &&& step == (ExtractorStep::Finished { kind: TerminalKind::Error })
                    &&& final(self).count == old(self).count
                    &&& final(self).terminal == Some(TerminalKind::Error)
                },
            },
    {
        match outcome {
            FlowSignal::Success(_) => {
                let record = self.count;
                self.count = self.count + 1;
                ExtractorStep::Counted { record, signal: self.count }
            },
            FlowSignal::EndOfStream => {
                self.terminal = Some(TerminalKind::EndOfStream);
                ExtractorStep::Finished { kind: TerminalKind::EndOfStream }
            },
            FlowSignal::Error => {
                self.terminal = Some(TerminalKind::Error);
                ExtractorStep::Finished { kind: TerminalKind::Error }
            },
        }
    }
}

/// Model of the pullable terminal stage the extractor drains: the stage
/// yields `available` samples in sequence order and from then on reports the
/// same terminal signal on every further attempt.
#[derive(Clone, Copy, PartialEq, Eq, Structural, Debug)]
pub struct SampleSource {
    /// Samples the stage delivers before turning terminal.
    pub available: u64,
    /// Samples delivered so far.
    pub delivered: u64,
    /// The terminal class reported once the samples are exhausted.
    pub terminal: TerminalKind,
}

impl SampleSource {
    /// No further sample will ever be delivered.
    pub open spec fn exhausted(self) -> bool {
        self.delivered >= self.available
    }

    /// The signal one pull attempt yields, and the stage as it is afterward.
    pub open spec fn spec_pull(self) -> (FlowSignal, SampleSource) {
        if self.delivered < self.available {
            (
                FlowSignal::Success(Sample { seq: self.delivered }),
                SampleSource {
                    available: self.available,
                    delivered: (self.delivered + 1) as u64,
                    terminal: self.terminal,
                },
            )
        } else {
            (
                match self.terminal {
                    TerminalKind::EndOfStream => FlowSignal::EndOfStream,
                    TerminalKind::Error => FlowSignal::Error,
                },
                self,
            )
        }
    }

    /// A fresh stage that will deliver `available` samples and then finish
    /// with `terminal`.
    pub fn new(available: u64, terminal: TerminalKind) -> (s: SampleSource)
        ensures
            s == (SampleSource { available, delivered: 0, terminal }),
    {
        SampleSource { available, delivered: 0, terminal }
    }

    /// One pull attempt: the next sample while any is left, and the stage's
    /// terminal signal — always the same one, with the stage unchanged — on
    /// every attempt after that.
    pub fn pull(&mut self) -> (signal: FlowSignal)
        ensures
            signal == old(self).spec_pull().0,
            *final(self) == old(self).spec_pull().1,
    {
        if self.delivered < self.available {
            let s = Sample { seq: self.delivered };
            self.delivered = self.delivered + 1;
            FlowSignal::Success(s)
        } else {
            match self.terminal {
                TerminalKind::EndOfStream => FlowSignal::EndOfStream,
                TerminalKind::Error => FlowSignal::Error,
            }
        }
    }
}

/// Idempotent drain: once the stage is exhausted, every further pull attempt
/// leaves it unchanged and yields the same class of terminal signal, never a
/// sample — so the extractor's extra drain pull, and any number of repeats,
/// are harmless.
pub proof fn lemma_drain_idempotent(s: SampleSource)
    requires
        s.exhausted(),
    ensures
        s.spec_pull().1 == s,
        s.spec_pull().1.spec_pull().0 == s.spec_pull().0,
        !(s.spec_pull().0 is Success),
{
}

} // verus!
