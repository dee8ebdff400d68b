use std::time::{Duration, SystemTime, UNIX_EPOCH};

use vulkan_bridge::pacing::{
    queue_stamp, queued, Counter, QueueStamp, Record, Stage, SurfaceTiming,
};
use vulkan_bridge::time::{epoch_ms, nanos_between, unix_millis};

const EPOCH: u64 = 1;

fn ms(millis: u64) -> Duration {
    Duration::from_millis(millis)
}

fn stamp(millis: u64, epoch: u64) -> Option<QueueStamp> {
    Some(QueueStamp {
        at: ms(millis),
        epoch,
    })
}

fn count(records: &[Record], counter: Counter) -> u64 {
    records
        .iter()
        .map(|record| match record {
            Record::Count(c, n) if *c == counter => *n,
            _ => 0,
        })
        .sum()
}

fn spans(records: &[Record], stage: Stage) -> Vec<u128> {
    records
        .iter()
        .filter_map(|record| match record {
            Record::Observe(s, nanos) if *s == stage => Some(*nanos),
            _ => None,
        })
        .collect()
}

#[test]
fn sequence_distance_wraps_without_negative_gaps() {
    let previous = u32::MAX - 1;
    let current = 1u32;
    assert_eq!(current.wrapping_sub(previous).saturating_sub(1), 2);

    let mut surface = SurfaceTiming::default();
    surface.event(true, previous, ms(100), ms(101));
    surface.presented(true, EPOCH, previous, ms(100), stamp(98, EPOCH), None);
    surface.event(true, current, ms(121), ms(122));
    let records = surface.presented(true, EPOCH, current, ms(121), stamp(119, EPOCH), None);
    assert_eq!(count(&records, Counter::SequenceGaps), 2);
}

#[test]
fn hardware_events_and_throttled_delivery_keep_frame_identity() {
    let mut surface = SurfaceTiming::default();
    let mut records = Vec::new();
    surface.event(true, 10, ms(100), ms(101));
    records.extend(surface.presented(
        true,
        EPOCH,
        10,
        ms(100),
        stamp(98, EPOCH),
        Some(ms(7)),
    ));
    surface.event(true, 10, ms(100), ms(102));
    surface.event(true, 12, ms(114), ms(116));
    // Upstream may subsequently deliver a throttled callback with time zero.
    surface.event(true, 12, Duration::ZERO, ms(117));
    records.extend(surface.presented(
        true,
        EPOCH,
        12,
        ms(107),
        stamp(110, EPOCH),
        Some(ms(7)),
    ));
    assert_eq!(count(&records, Counter::PresentEvents), 2);
    assert_eq!(count(&records, Counter::SequenceGaps), 1);
    assert_eq!(count(&records, Counter::PresentLate), 1);
    let queued = spans(&records, Stage::QueueToPresentation);
    assert_eq!(queued.len(), 2);
    assert_eq!(queued.iter().max(), Some(&4_000_000));
}

#[test]
fn in_flight_and_recording_off_frames_do_not_cross_trial_epochs() {
    let mut surface = SurfaceTiming::default();
    let epoch = EPOCH;
    let mut records = Vec::new();
    surface.event(true, 1, ms(100), ms(101));
    records.extend(surface.presented(
        true,
        epoch,
        1,
        ms(90),
        stamp(90, epoch.wrapping_sub(1)),
        None,
    ));
    surface.event(true, 2, ms(107), ms(108));
    records.extend(surface.presented(true, epoch, 2, ms(100), None, None));
    surface.event(true, 3, ms(114), ms(115));
    records.extend(surface.presented(true, epoch, 3, ms(114), stamp(110, epoch), None));
    assert_eq!(count(&records, Counter::PresentEvents), 1);
    assert_eq!(count(&records, Counter::TransitionPresentationsIgnored), 2);
    assert_eq!(count(&records, Counter::SequenceGaps), 0);
}

#[test]
fn wrong_sequence_is_not_assigned_an_old_presentation_time() {
    let mut surface = SurfaceTiming::default();
    surface.event(true, 1, ms(100), ms(101));
    let records = surface.presented(true, EPOCH, 2, ms(107), stamp(100, EPOCH), None);
    assert_eq!(count(&records, Counter::UnknownClock), 1);
    assert!(spans(&records, Stage::PresentLateness).is_empty());
}

#[test]
fn a_counted_presentation_records_everything_once() {
    let mut surface = SurfaceTiming::default();
    surface.event(true, 5, ms(100), ms(103));
    let first = surface.presented(true, EPOCH, 5, ms(95), stamp(92, EPOCH), Some(ms(10)));
    assert_eq!(
        first,
        [
            Record::Count(Counter::PresentEvents, 1),
            Record::Observe(Stage::PresentCallbackDelay, 3_000_000),
            Record::Observe(Stage::PresentLateness, 5_000_000),
            Record::Observe(Stage::PresentEarliness, 0),
            Record::Count(Counter::PresentLate, 1),
            Record::Observe(Stage::QueueToPresentation, 8_000_000),
        ]
    );
    assert!(surface
        .presented(true, EPOCH, 5, ms(95), stamp(92, EPOCH), Some(ms(10)))
        .is_empty());

    surface.event(true, 7, ms(120), ms(119));
    let second = surface.presented(true, EPOCH, 7, ms(121), stamp(110, EPOCH), Some(ms(10)));
    assert_eq!(
        second,
        [
            Record::Count(Counter::SequenceGaps, 1),
            Record::Observe(Stage::PresentationInterval, 20_000_000),
            Record::Count(Counter::PresentEvents, 1),
            Record::Count(Counter::FuturePresentationTimestamp, 1),
            Record::Observe(Stage::PresentCallbackDelay, 0),
            Record::Observe(Stage::PresentLateness, 0),
            Record::Observe(Stage::PresentEarliness, 1_000_000),
            Record::Observe(Stage::QueueToPresentation, 10_000_000),
        ]
    );
}

#[test]
fn lateness_counts_from_half_a_refresh_period() {
    for (target, refresh, late) in [(96, 8, 1), (97, 8, 0), (100, 0, 1)] {
        let mut surface = SurfaceTiming::default();
        surface.event(true, 1, ms(100), ms(100));
        let records =
            surface.presented(true, EPOCH, 1, ms(target), stamp(90, EPOCH), Some(ms(refresh)));
        assert_eq!(count(&records, Counter::PresentLate), late);
    }
    let mut surface = SurfaceTiming::default();
    surface.event(true, 1, ms(100), ms(100));
    let odd = Some(Duration::from_nanos(5));
    let records = surface.presented(
        true,
        EPOCH,
        1,
        ms(100) - Duration::from_nanos(2),
        stamp(90, EPOCH),
        odd,
    );
    assert_eq!(count(&records, Counter::PresentLate), 1);
}

#[test]
fn a_sequence_that_goes_back_reports_no_gap() {
    let mut surface = SurfaceTiming::default();
    surface.event(true, 10, ms(100), ms(100));
    surface.presented(true, EPOCH, 10, ms(100), stamp(90, EPOCH), None);
    surface.event(true, 9, ms(90), ms(91));
    let records = surface.presented(true, EPOCH, 9, ms(90), stamp(80, EPOCH), None);
    assert!(!records
        .iter()
        .any(|record| matches!(record, Record::Count(Counter::SequenceGaps, _))));
    assert_eq!(spans(&records, Stage::PresentationInterval), [0]);
}

#[test]
fn recording_off_leaves_no_trace() {
    let mut surface = SurfaceTiming::default();
    surface.event(false, 1, ms(100), ms(101));
    assert!(surface.last_event.is_none());
    assert!(surface
        .presented(false, EPOCH, 1, ms(100), stamp(90, EPOCH), None)
        .is_empty());
    assert!(surface.render_start(None, ms(100)).is_empty());
    assert!(surface.last_render.is_none() && surface.last_counted.is_none());
    assert!(queue_stamp(None, EPOCH).is_none());
}

#[test]
fn render_starts_are_measured_against_each_other_and_the_target() {
    let mut surface = SurfaceTiming::default();
    assert_eq!(
        surface.render_start(Some(ms(10)), ms(16)),
        [Record::Observe(Stage::RenderLead, 6_000_000)]
    );
    assert_eq!(
        surface.render_start(Some(ms(27)), ms(20)),
        [
            Record::Observe(Stage::FrameInterval, 17_000_000),
            Record::Observe(Stage::RenderLead, 0),
        ]
    );
}

#[test]
fn queue_calls_are_measured_at_both_ends() {
    assert!(queued(ms(10), None, Some(ms(11))).is_empty());
    assert_eq!(
        queued(ms(10), stamp(8, EPOCH), Some(ms(13))),
        [
            Record::Observe(Stage::QueueLead, 2_000_000),
            Record::Observe(Stage::QueueLate, 0),
            Record::Observe(Stage::QueueReturnLead, 0),
            Record::Observe(Stage::QueueReturnLate, 3_000_000),
            Record::Count(Counter::QueueReturnedPastDeadline, 1),
        ]
    );
    assert_eq!(
        queued(ms(10), stamp(12, EPOCH), None),
        [
            Record::Observe(Stage::QueueLead, 0),
            Record::Observe(Stage::QueueLate, 2_000_000),
            Record::Count(Counter::QueuePastDeadline, 1),
        ]
    );
}

#[test]
fn stamps_carry_the_clock_and_the_trial() {
    let stamp = queue_stamp(Some(ms(42)), 7).unwrap();
    assert_eq!(stamp.at, ms(42));
    assert_eq!(stamp.epoch, 7);
}

#[test]
fn wall_clock_is_counted_in_milliseconds() {
    assert_eq!(unix_millis(&UNIX_EPOCH), 0);
    assert_eq!(unix_millis(&(UNIX_EPOCH + Duration::from_nanos(1_999_999))), 1);
    assert_eq!(unix_millis(&(UNIX_EPOCH + Duration::from_secs(3))), 3_000);
    assert_eq!(unix_millis(&(UNIX_EPOCH - Duration::from_secs(3))), 0);
    let before = unix_millis(&SystemTime::now());
    let now = epoch_ms();
    assert!(before <= now && now <= before + 60_000);
    assert!(now > 1_500_000_000_000);
}

#[test]
fn spans_saturate() {
    assert_eq!(nanos_between(&ms(5), &ms(3)), 2_000_000);
    assert_eq!(nanos_between(&ms(3), &ms(5)), 0);
    assert_eq!(
        nanos_between(&Duration::MAX, &Duration::ZERO),
        Duration::MAX.as_nanos()
    );
}
