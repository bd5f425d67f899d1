//! Component-level behavior: the transport segment, the extractor, the
//! controller and the pipeline lifecycle.

use apsdbg::controller::{Controller, ControllerAction, ControllerEvent, ControllerPhase};
use apsdbg::errors::{ConstructionError, ControllerError, LifecycleError};
use apsdbg::extractor::{Extractor, ExtractorStep, FlowSignal, Sample, SampleSource, TerminalKind};
use apsdbg::lifecycle::{Pipeline, Role, State};
use apsdbg::transport::{DetachBehavior, Format, PollOutcome, Transport};

fn standard_format() -> Format {
    Format { width: 640, height: 480, rate: 60 }
}

#[test]
fn frame_bytes_of_standard_format() {
    assert_eq!(standard_format().frame_bytes(), 460800);
    assert!(standard_format().is_wf());
}

#[test]
fn malformed_formats_are_rejected() {
    let zero_width = Format { width: 0, height: 480, rate: 60 };
    assert!(!zero_width.is_wf());
    let odd_height = Format { width: 640, height: 481, rate: 60 };
    assert!(!odd_height.is_wf());
    let zero_rate = Format { width: 640, height: 480, rate: 0 };
    assert!(!zero_rate.is_wf());
    let r = Transport::attach_producer(1, 1 << 22, zero_width, DetachBehavior::Isolated);
    assert_eq!(r.unwrap_err(), ConstructionError::MalformedFormat);
}

#[test]
fn capacity_below_one_frame_is_rejected() {
    let r = Transport::attach_producer(1, 460799, standard_format(), DetachBehavior::Isolated);
    assert_eq!(r.unwrap_err(), ConstructionError::CapacityBelowOneFrame);
}

#[test]
fn consumer_format_must_match_bit_for_bit() {
    let mut t = Transport::attach_producer(1, 4 * 460800, standard_format(), DetachBehavior::Isolated)
        .expect("valid segment");
    let other_rate = Format { width: 640, height: 480, rate: 30 };
    assert_eq!(t.attach_consumer(other_rate).unwrap_err(), ConstructionError::FormatMismatch);
    assert_eq!(t.attach_consumer(standard_format()).unwrap(), 0);
}

#[test]
fn pulls_follow_writes_in_order() {
    let mut t = Transport::attach_producer(1, 4 * 460800, standard_format(), DetachBehavior::Isolated)
        .expect("valid segment");
    let slot = t.attach_consumer(standard_format()).unwrap();
    assert_eq!(t.consumer_pull(slot), None);
    t.produce_frame();
    t.produce_frame();
    assert_eq!(t.consumer_pull(slot), Some(0));
    assert_eq!(t.consumer_pull(slot), Some(1));
    assert_eq!(t.consumer_pull(slot), None);
}

/// Isolation invariant: on a conforming segment, detaching one consumer
/// leaves the sibling's endpoint and the producer exactly as they were, and
/// the sibling keeps pulling.
#[test]
fn detach_leaves_sibling_untouched_on_conforming_segment() {
    let mut t = Transport::attach_producer(1, 4 * 460800, standard_format(), DetachBehavior::Isolated)
        .expect("valid segment");
    let sibling = t.attach_consumer(standard_format()).unwrap();
    let leaving = t.attach_consumer(standard_format()).unwrap();
    t.produce_frame();
    assert_eq!(t.consumer_pull(sibling), Some(0));
    let written_before = t.written;
    let sibling_before = t.consumers[sibling];

    t.detach_consumer(leaving);

    assert_eq!(t.written, written_before);
    assert_eq!(t.consumers[sibling], sibling_before);
    assert!(!t.consumers[leaving].attached);
    assert!(!t.is_producer_stalled());
    t.produce_frame();
    assert_eq!(t.consumer_pull(sibling), Some(1));
    assert_eq!(t.poll_consumer(sibling, 50), PollOutcome::Continuous { frames: 50 });
}

/// On a defective segment the detach pins the producer: the sibling drains
/// one segment's worth of frames and then halts.
#[test]
fn detach_pins_producer_on_defective_segment() {
    let mut t =
        Transport::attach_producer(1, 4 * 460800, standard_format(), DetachBehavior::StallsProducer)
            .expect("valid segment");
    let sibling = t.attach_consumer(standard_format()).unwrap();
    let leaving = t.attach_consumer(standard_format()).unwrap();

    t.detach_consumer(leaving);

    assert_eq!(t.consumers[sibling].attached, true);
    assert_eq!(t.poll_consumer(sibling, 50), PollOutcome::Halted { frames: 4 });
}

/// Idempotent drain: after the stage turns terminal, every pull yields the
/// same terminal class and leaves the stage unchanged.
#[test]
fn drain_is_idempotent() {
    let mut s = SampleSource::new(2, TerminalKind::EndOfStream);
    assert_eq!(s.pull(), FlowSignal::Success(Sample { seq: 0 }));
    assert_eq!(s.pull(), FlowSignal::Success(Sample { seq: 1 }));
    assert_eq!(s.pull(), FlowSignal::EndOfStream);
    assert_eq!(s.pull(), FlowSignal::EndOfStream);
    assert_eq!(s.pull(), FlowSignal::EndOfStream);
    assert_eq!(s.delivered, 2);

    let mut failing = SampleSource::new(0, TerminalKind::Error);
    assert_eq!(failing.pull(), FlowSignal::Error);
    assert_eq!(failing.pull(), FlowSignal::Error);
    assert_eq!(failing.delivered, 0);
}

#[test]
fn extractor_counts_and_signals() {
    let mut e = Extractor::new();
    let step = e.on_pull(FlowSignal::Success(Sample { seq: 0 }));
    assert_eq!(step, ExtractorStep::Counted { record: 0, signal: 1 });
    let step = e.on_pull(FlowSignal::Success(Sample { seq: 1 }));
    assert_eq!(step, ExtractorStep::Counted { record: 1, signal: 2 });
    assert_eq!(e.count, 2);
    assert_eq!(e.terminal, None);
    let step = e.on_pull(FlowSignal::EndOfStream);
    assert_eq!(step, ExtractorStep::Finished { kind: TerminalKind::EndOfStream });
    assert_eq!(e.count, 2);
    assert_eq!(e.terminal, Some(TerminalKind::EndOfStream));
}

#[test]
fn extractor_reports_error_class() {
    let mut e = Extractor::new();
    let step = e.on_pull(FlowSignal::Error);
    assert_eq!(step, ExtractorStep::Finished { kind: TerminalKind::Error });
    assert_eq!(e.terminal, Some(TerminalKind::Error));
}

#[test]
fn controller_stops_exactly_at_target() {
    let mut c = Controller::new(3);
    assert_eq!(c.on_event(ControllerEvent::Count(1)), Ok(ControllerAction::KeepWaiting));
    assert_eq!(c.on_event(ControllerEvent::Count(2)), Ok(ControllerAction::KeepWaiting));
    assert_eq!(c.phase, ControllerPhase::Waiting);
    assert_eq!(c.on_event(ControllerEvent::Count(3)), Ok(ControllerAction::IssueStop));
    assert_eq!(c.phase, ControllerPhase::Stopping);
    c.confirm_stopped();
    assert_eq!(c.phase, ControllerPhase::Done);
}

#[test]
fn controller_fails_on_closed_channel() {
    let mut c = Controller::new(3);
    assert_eq!(c.on_event(ControllerEvent::Closed), Err(ControllerError::ChannelClosed));
    assert_eq!(c.phase, ControllerPhase::Waiting);
}

#[test]
fn pipeline_startup_and_one_shot_stop() {
    let mut p = Pipeline::new(Role::Counting);
    assert_eq!(p.state, State::Null);
    assert!(!p.retired);
    p.attach_endpoint(1);
    assert_eq!(p.consumer_slot, Some(1));

    assert_eq!(p.set_state(State::Playing), Ok(()));
    assert_eq!(p.state, State::Playing);
    assert_eq!(p.consumer_slot, Some(1));

    assert_eq!(p.set_state(State::Null), Ok(()));
    assert_eq!(p.state, State::Null);
    assert!(p.retired);
    assert_eq!(p.consumer_slot, None);

    // Once retired, the pipeline is never revived.
    assert_eq!(p.set_state(State::Playing), Err(LifecycleError::Retired));
    assert_eq!(p.set_state(State::Ready), Err(LifecycleError::Retired));
    assert_eq!(p.state, State::Null);
    assert_eq!(p.set_state(State::Null), Ok(()));
}
