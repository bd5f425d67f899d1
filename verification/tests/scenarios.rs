//! End-to-end scenarios of the harness: the counting run, the display's
//! behavior after the shutdown, and the capacity sweep.

use apsdbg::driver::{Harness, HarnessConfig};
use apsdbg::errors::ControllerError;
use apsdbg::extractor::{SampleSource, TerminalKind};
use apsdbg::lifecycle::State;
use apsdbg::transport::{DetachBehavior, Format, PollOutcome};

const FRAME_BYTES: u64 = 460800; // 640 * 480 * 3 / 2

fn standard_format() -> Format {
    Format { width: 640, height: 480, rate: 60 }
}

fn config(capacity: u64, target: u64, behavior: DetachBehavior) -> HarnessConfig {
    HarnessConfig { address: 1, capacity, format: standard_format(), target, behavior }
}

/// Target 100 at 640x480 planar YUV, 60 frames per second: exactly 100
/// records 0 through 99, then exactly one stop of the counting pipeline.
#[test]
fn scenario_a_hundred_counts_then_one_stop() {
    let mut h = Harness::build(config(4 * FRAME_BYTES, 100, DetachBehavior::StallsProducer))
        .expect("valid configuration");
    h.start();
    let mut source = SampleSource::new(100_000, TerminalKind::EndOfStream);
    let report = h.run(&mut source).expect("target is reachable");
    assert_eq!(report.count, 100);
    let expected: Vec<u64> = (0..100).collect();
    assert_eq!(report.records, expected);
    assert_eq!(h.stops, 1);
    assert_eq!(h.counting.state, State::Null);
    assert!(h.counting.retired);
    assert_eq!(source.delivered, 100);
}

/// After the shutdown on a defective segment, the display's output halts
/// after exactly one segment's worth of frames; on a conforming segment it
/// runs for the whole observation window.
#[test]
fn scenario_b_display_halts_after_capacity() {
    let budget = 18_000; // 300 seconds at 60 frames per second

    let mut defective = Harness::build(config(4 * FRAME_BYTES, 100, DetachBehavior::StallsProducer))
        .expect("valid configuration");
    defective.start();
    let mut source = SampleSource::new(100_000, TerminalKind::EndOfStream);
    defective.run(&mut source).expect("target is reachable");
    assert_eq!(defective.poll_display(budget), PollOutcome::Halted { frames: 4 });

    let mut conforming = Harness::build(config(4 * FRAME_BYTES, 100, DetachBehavior::Isolated))
        .expect("valid configuration");
    conforming.start();
    let mut source = SampleSource::new(100_000, TerminalKind::EndOfStream);
    conforming.run(&mut source).expect("target is reachable");
    assert_eq!(conforming.poll_display(budget), PollOutcome::Continuous { frames: budget });
}

fn halt_point(capacity: u64) -> u64 {
    let mut h = Harness::build(config(capacity, 10, DetachBehavior::StallsProducer))
        .expect("valid configuration");
    h.start();
    let mut source = SampleSource::new(1_000, TerminalKind::EndOfStream);
    h.run(&mut source).expect("target is reachable");
    match h.poll_display(1_000_000) {
        PollOutcome::Halted { frames } => frames,
        PollOutcome::Continuous { .. } => panic!("defective segment must halt"),
    }
}

/// Sweeping the capacity across small, medium and large shows the halt point
/// scaling monotonically — here exactly linearly — with the capacity.
#[test]
fn scenario_c_halt_point_scales_with_capacity() {
    let small = halt_point(2 * FRAME_BYTES);
    let medium = halt_point(5 * FRAME_BYTES);
    let large = halt_point(9 * FRAME_BYTES);
    assert_eq!(small, 2);
    assert_eq!(medium, 5);
    assert_eq!(large, 9);
    assert!(small <= medium && medium <= large);

    // A capacity that is no exact multiple still halts at the whole frames
    // the segment can hold.
    assert_eq!(halt_point(5 * FRAME_BYTES + FRAME_BYTES / 2), 5);
}

/// The halt point depends on the capacity and frame geometry alone, not on
/// the configured frame rate.
#[test]
fn halt_point_is_rate_independent() {
    let mut delays = Vec::new();
    for rate in [15, 30, 60] {
        let format = Format { width: 640, height: 480, rate };
        let cfg = HarnessConfig {
            address: 1,
            capacity: 3 * FRAME_BYTES,
            format,
            target: 10,
            behavior: DetachBehavior::StallsProducer,
        };
        let mut h = Harness::build(cfg).expect("valid configuration");
        h.start();
        let mut source = SampleSource::new(1_000, TerminalKind::EndOfStream);
        h.run(&mut source).expect("target is reachable");
        match h.poll_display(1_000_000) {
            PollOutcome::Halted { frames } => delays.push(frames),
            PollOutcome::Continuous { .. } => panic!("defective segment must halt"),
        }
    }
    assert_eq!(delays, vec![3, 3, 3]);
}

/// A stage that turns terminal before the target closes the channel: the run
/// fails fatally and no stop is ever issued.
#[test]
fn early_terminal_is_channel_closed() {
    let mut h = Harness::build(config(4 * FRAME_BYTES, 100, DetachBehavior::Isolated))
        .expect("valid configuration");
    h.start();
    let mut source = SampleSource::new(5, TerminalKind::Error);
    let r = h.run(&mut source);
    assert_eq!(r.unwrap_err(), ControllerError::ChannelClosed);
    assert_eq!(h.stops, 0);
    assert_eq!(h.counting.state, State::Playing);
    assert_eq!(h.extractor.count, 5);
    assert_eq!(h.extractor.terminal, Some(TerminalKind::Error));
    assert_eq!(source.delivered, 5);
}

/// A zero target is never signalled (counts start at 1), so the run drains
/// the stage and fails as a closed channel rather than stopping at once.
#[test]
fn zero_target_never_stops() {
    let mut h = Harness::build(config(4 * FRAME_BYTES, 0, DetachBehavior::Isolated))
        .expect("valid configuration");
    h.start();
    let mut source = SampleSource::new(3, TerminalKind::EndOfStream);
    let r = h.run(&mut source);
    assert_eq!(r.unwrap_err(), ControllerError::ChannelClosed);
    assert_eq!(h.stops, 0);
    assert_eq!(h.extractor.count, 3);
}
