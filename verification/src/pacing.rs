//! Frame pacing measurements of one output.
//!
//! A surface remembers the clocks of its last frame and turns each new event into records: spans
//! of time and counts, for whatever keeps the histograms. Timings are CPU wall time, stalls
//! included, not GPU execution time.

use std::time::Duration;

use vstd::prelude::*;

use crate::time::nanos_between;

verus! {

/// What a recorded span of time measures.
#[derive(Debug, Clone, Copy, PartialEq, Eq, Structural)]
pub enum Stage {
    /// From one render start to the next.
    FrameInterval,
    /// From the render start to the intended presentation.
    RenderLead,
    /// From the start of the queue call to the intended presentation.
    QueueLead,
    /// From the intended presentation to the start of the queue call.
    QueueLate,
    /// From the return of the queue call to the intended presentation.
    QueueReturnLead,
    /// From the intended presentation to the return of the queue call.
    QueueReturnLate,
    /// From one counted presentation to the next.
    PresentationInterval,
    /// From the hardware timestamp to the first handling of its event.
    PresentCallbackDelay,
    /// From the intended to the actual presentation.
    PresentLateness,
    /// From the actual to the intended presentation.
    PresentEarliness,
    /// From the start of the queue call to the actual presentation.
    QueueToPresentation,
}

/// What a recorded number counts.
#[derive(Debug, Clone, Copy, PartialEq, Eq, Structural)]
pub enum Counter {
    /// Queue calls that started after the intended presentation.
    QueuePastDeadline,
    /// Queue calls that returned after the intended presentation.
    QueueReturnedPastDeadline,
    /// Presentations attributed to a frame of the running trial.
    PresentEvents,
    /// Hardware frames between two counted presentations. They occur on an idle output too.
    SequenceGaps,
    /// Presentations at least half a refresh period after the intended time.
    PresentLate,
    /// Presentations without a hardware timestamp of the same sequence.
    UnknownClock,
    /// Hardware timestamps later than the handling of their own event.
    FuturePresentationTimestamp,
    /// Presentations of frames that were queued outside the running trial.
    TransitionPresentationsIgnored,
}

/// One measurement.
#[derive(Debug, Clone, Copy, PartialEq, Eq, Structural)]
pub enum Record {
    /// A span of time, in nanoseconds.
    Observe(Stage, u128),
    /// That many occurrences.
    Count(Counter, u64),
}

/// When a frame was handed to the kernel, and in which trial.
#[derive(Clone, Copy)]
pub struct QueueStamp {
    /// The monotonic clock at the start of the queue call.
    pub at: Duration,
    /// The trial that was running.
    pub epoch: u64,
}

/// Stamps a frame that is about to be queued. `now` is the monotonic clock, read only while
/// recording is on.
pub fn queue_stamp(now: Option<Duration>, epoch: u64) -> (stamp: Option<QueueStamp>)
    ensures
        stamp == (match now {
            Some(at) => Some(QueueStamp { at, epoch }),
            None => None,
        }),
{
    match now {
        Some(at) => Some(QueueStamp { at, epoch }),
        None => None,
    }
}

/// The clocks that a surface remembers between its frames.
pub struct SurfaceTiming {
    /// The last render start.
    pub last_render: Option<Duration>,
    /// The last hardware event: its sequence, its timestamp, and when it was handled.
    pub last_event: Option<(u32, Duration, Duration)>,
    /// The last counted presentation: its sequence and its timestamp.
    pub last_counted: Option<(u32, Duration)>,
}

impl Default for SurfaceTiming {
    /// A surface of which nothing was seen yet.
    fn default() -> (timing: Self)
        ensures
            timing == SurfaceTiming::unseen(),
    {
        SurfaceTiming { last_render: None, last_event: None, last_counted: None }
    }
}

/// How a presentation relates to what its surface remembers.
pub enum Attribution {
    /// Recording is off.
    Unrecorded,
    /// The frame was queued outside the running trial, or without a stamp.
    OtherTrial,
    /// No hardware timestamp of this sequence was seen.
    UnknownClock,
    /// This sequence was counted before.
    Repeated,
    /// A new frame of this trial, with its hardware timestamp and the time of its handling.
    Counted { at: Duration, presented: Duration, handled: Duration },
}

/// How many hardware frames lie strictly between two sequence numbers, which wrap at 32 bits;
/// `None` where the later number is no later than the earlier one.
pub open spec fn frames_between(earlier: u32, later: u32) -> Option<nat> {
    let distance = (later - earlier) % 0x1_0000_0000;
    if distance == 0 || distance >= 0x8000_0000 {
        None
    } else {
        Some((distance - 1) as nat)
    }
}

/// Whether a presentation missed its time by half a refresh period or more, in whole
/// nanoseconds.
pub open spec fn misses_refresh(presented: Duration, target: Duration, refresh: Option<Duration>) -> bool {
    match refresh {
        Some(period) => crate::time::span(presented, target) >= crate::time::duration_nanos(period) / 2,
        None => false,
    }
}

/// One record where `holds`, none otherwise.
pub open spec fn only_if(holds: bool, record: Record) -> Seq<Record> {
    if holds {
        seq![record]
    } else {
        seq![]
    }
}

/// What a counted presentation says of its own frame.
pub open spec fn presentation_records(
    at: Duration,
    presented: Duration,
    handled: Duration,
    target: Duration,
    refresh: Option<Duration>,
) -> Seq<Record> {
    seq![Record::Count(Counter::PresentEvents, 1)]
        + only_if(
            crate::time::duration_nanos(presented) > crate::time::duration_nanos(handled),
            Record::Count(Counter::FuturePresentationTimestamp, 1),
        )
        + seq![Record::Observe(Stage::PresentCallbackDelay, crate::time::span(handled, presented) as u128)]
        + seq![Record::Observe(Stage::PresentLateness, crate::time::span(presented, target) as u128)]
        + seq![Record::Observe(Stage::PresentEarliness, crate::time::span(target, presented) as u128)]
        + only_if(misses_refresh(presented, target, refresh), Record::Count(Counter::PresentLate, 1))
        + seq![Record::Observe(Stage::QueueToPresentation, crate::time::span(presented, at) as u128)]
}

impl SurfaceTiming {
    /// A surface of which nothing was seen yet.
    pub open spec fn unseen() -> SurfaceTiming {
        SurfaceTiming { last_render: None, last_event: None, last_counted: None }
    }

    /// The surface after a hardware event. An event without a timestamp says nothing, and the
    /// first event of a sequence stands.
    pub open spec fn after_event(
        self,
        enabled: bool,
        sequence: u32,
        presentation: Duration,
        callback: Duration,
    ) -> SurfaceTiming {
        if enabled && crate::time::duration_nanos(presentation) > 0
            && !(self.last_event matches Some(event) && event.0 == sequence) {
            SurfaceTiming { last_event: Some((sequence, presentation, callback)), ..self }
        } else {
            self
        }
    }

    /// The surface after a render start.
    pub open spec fn after_render(self, now: Option<Duration>) -> SurfaceTiming {
        SurfaceTiming { last_render: if now is Some { now } else { self.last_render }, ..self }
    }

    /// What a render start records.
    pub open spec fn render_records(self, now: Option<Duration>, target: Duration) -> Seq<Record> {
        match now {
            None => seq![],
            Some(now) => only_if(
                self.last_render is Some,
                Record::Observe(
                    Stage::FrameInterval,
                    crate::time::span(now, self.last_render->0) as u128,
                ),
            ) + seq![Record::Observe(Stage::RenderLead, crate::time::span(target, now) as u128)],
        }
    }

    /// How a presentation is attributed.
    pub open spec fn attribution(
        self,
        enabled: bool,
        epoch: u64,
        sequence: u32,
        queued: Option<QueueStamp>,
    ) -> Attribution {
        if !enabled {
            Attribution::Unrecorded
        } else if !(queued matches Some(stamp) && stamp.epoch == epoch) {
            Attribution::OtherTrial
        } else if !(self.last_event matches Some(event) && event.0 == sequence) {
            Attribution::UnknownClock
        } else if self.last_counted matches Some(counted) && counted.0 == sequence {
            Attribution::Repeated
        } else {
            Attribution::Counted {
                at: queued->0.at,
                presented: (self.last_event->0).1,
                handled: (self.last_event->0).2,
            }
        }
    }

    /// What a counted presentation says of the one before it.
    pub open spec fn continuity_records(self, sequence: u32, presented: Duration) -> Seq<Record> {
        match self.last_counted {
            None => seq![],
            Some((previous_sequence, previous)) => only_if(
                frames_between(previous_sequence, sequence) is Some,
                Record::Count(
                    Counter::SequenceGaps,
                    frames_between(previous_sequence, sequence)->0 as u64,
                ),
            ) + seq![
                Record::Observe(Stage::PresentationInterval, crate::time::span(presented, previous) as u128),
            ],
        }
    }

    /// Everything that a presentation records.
    pub open spec fn presented_records(
        self,
        enabled: bool,
        epoch: u64,
        sequence: u32,
        target: Duration,
        queued: Option<QueueStamp>,
        refresh: Option<Duration>,
    ) -> Seq<Record> {
        match self.attribution(enabled, epoch, sequence, queued) {
            Attribution::Unrecorded | Attribution::Repeated => seq![],
            Attribution::OtherTrial => seq![Record::Count(Counter::TransitionPresentationsIgnored, 1)],
            Attribution::UnknownClock => seq![Record::Count(Counter::UnknownClock, 1)],
            Attribution::Counted { at, presented, handled } => self.continuity_records(
                sequence,
                presented,
            ) + presentation_records(at, presented, handled, target, refresh),
        }
    }

    /// The surface after a presentation: only a counted one leaves a mark.
    pub open spec fn after_presented(
        self,
        enabled: bool,
        epoch: u64,
        sequence: u32,
        queued: Option<QueueStamp>,
    ) -> SurfaceTiming {
        match self.attribution(enabled, epoch, sequence, queued) {
            Attribution::Counted { presented, .. } => SurfaceTiming {
                last_counted: Some((sequence, presented)),
                ..self
            },
            _ => self,
        }
    }

    /// Records a render start. `now` is the monotonic clock, read only while recording is on.
    pub fn render_start(&mut self, now: Option<Duration>, target: Duration) -> (records: Vec<Record>)
        ensures
            *final(self) == old(self).after_render(now),
            records@ == old(self).render_records(now, target),
    {
        let mut records: Vec<Record> = Vec::new();
        let now = match now {
            Some(now) => now,
            None => {
                return records;
            },
        };
        if let Some(previous) = &self.last_render {
            records.push(Record::Observe(Stage::FrameInterval, nanos_between(&now, previous)));
        }
        self.last_render = Some(now);
        records.push(Record::Observe(Stage::RenderLead, nanos_between(&target, &now)));
        records
    }

    /// Remembers a hardware timestamp, before any throttling of the event. It is attributed only
    /// by `presented`, which knows the trial of its frame. Sequence gaps also occur when a client
    /// is idle; they are not dropped frames by themselves.
    pub fn event(&mut self, enabled: bool, sequence: u32, presentation: Duration, callback: Duration)
        ensures
            *final(self) == old(self).after_event(enabled, sequence, presentation, callback),
    {
        if !enabled || presentation.as_nanos() == 0 {
            return;
        }
        if let Some(event) = &self.last_event {
            if event.0 == sequence {
                return;
            }
        }
        self.last_event = Some((sequence, presentation, callback));
    }

    /// Attaches a queued frame's intended time to its actual presentation. A throttled callback
    /// can come without a timestamp: the one remembered for the same sequence is used.
    pub fn presented(
        &mut self,
        enabled: bool,
        epoch: u64,
        sequence: u32,
        target: Duration,
        queued: Option<QueueStamp>,
        refresh: Option<Duration>,
    ) -> (records: Vec<Record>)
        ensures
            *final(self) == old(self).after_presented(enabled, epoch, sequence, queued),
            records@ == old(self).presented_records(enabled, epoch, sequence, target, queued, refresh),
    {
        let mut records: Vec<Record> = Vec::new();
        if !enabled {
            return records;
        }
        let started = match queued {
            Some(stamp) => stamp,
            None => {
                records.push(Record::Count(Counter::TransitionPresentationsIgnored, 1));
                return records;
            },
        };
        if started.epoch != epoch {
            records.push(Record::Count(Counter::TransitionPresentationsIgnored, 1));
            return records;
        }
        let (seen, actual, callback) = match self.last_event {
            Some(event) => event,
            None => {
                records.push(Record::Count(Counter::UnknownClock, 1));
                return records;
            },
        };
        if seen != sequence {
            records.push(Record::Count(Counter::UnknownClock, 1));
            return records;
        }
        if let Some((previous_sequence, previous)) = self.last_counted {
            if previous_sequence == sequence {
                return records;
            }
            let distance: u32 = sequence.wrapping_sub(previous_sequence);
            if distance < 0x8000_0000 {
                records.push(Record::Count(Counter::SequenceGaps, distance.saturating_sub(1) as u64));
            }
            records.push(
                Record::Observe(Stage::PresentationInterval, nanos_between(&actual, &previous)),
            );
        }
        self.last_counted = Some((sequence, actual));
        records.push(Record::Count(Counter::PresentEvents, 1));
        if actual.as_nanos() > callback.as_nanos() {
            records.push(Record::Count(Counter::FuturePresentationTimestamp, 1));
        }
        records.push(Record::Observe(Stage::PresentCallbackDelay, nanos_between(&callback, &actual)));
        let lateness: u128 = nanos_between(&actual, &target);
        records.push(Record::Observe(Stage::PresentLateness, lateness));
        records.push(Record::Observe(Stage::PresentEarliness, nanos_between(&target, &actual)));
        if let Some(period) = refresh {
            if lateness >= period.as_nanos() / 2 {
                records.push(Record::Count(Counter::PresentLate, 1));
            }
        }
        records.push(Record::Observe(Stage::QueueToPresentation, nanos_between(&actual, &started.at)));
        records
    }
}

/// What one end of a queue call records: its lead or its delay against the intended time.
pub open spec fn deadline_records(
    at: Duration,
    target: Duration,
    lead: Stage,
    late: Stage,
    missed: Counter,
) -> Seq<Record> {
    seq![Record::Observe(lead, crate::time::span(target, at) as u128)] + seq![
        Record::Observe(late, crate::time::span(at, target) as u128),
    ] + only_if(
        crate::time::duration_nanos(at) > crate::time::duration_nanos(target),
        Record::Count(missed, 1),
    )
}

/// Records one end of a queue call against the intended time.
fn record_deadline(
    records: &mut Vec<Record>,
    at: &Duration,
    target: &Duration,
    lead: Stage,
    late: Stage,
    missed: Counter,
)
    ensures
        final(records)@ == old(records)@ + deadline_records(*at, *target, lead, late, missed),
{
    records.push(Record::Observe(lead, nanos_between(target, at)));
    records.push(Record::Observe(late, nanos_between(at, target)));
    if at.as_nanos() > target.as_nanos() {
        records.push(Record::Count(missed, 1));
    }
}

/// What a queue call records: its start, and its return where the clock was read again.
pub open spec fn queue_records(
    target: Duration,
    started: Option<QueueStamp>,
    returned: Option<Duration>,
) -> Seq<Record> {
    match started {
        None => seq![],
        Some(stamp) => deadline_records(
            stamp.at,
            target,
            Stage::QueueLead,
            Stage::QueueLate,
            Counter::QueuePastDeadline,
        ) + (match returned {
            None => seq![],
            Some(returned) => deadline_records(
                returned,
                target,
                Stage::QueueReturnLead,
                Stage::QueueReturnLate,
                Counter::QueueReturnedPastDeadline,
            ),
        }),
    }
}

/// Records a queue call: its start against the intended time, and its return where the clock
/// was read again. A frame without a stamp is not recorded.
pub fn queued(
    target: Duration,
    started: Option<QueueStamp>,
    returned: Option<Duration>,
) -> (records: Vec<Record>)
    ensures
        records@ == queue_records(target, started, returned),
{
    let mut records: Vec<Record> = Vec::new();
    if let Some(stamp) = started {
        record_deadline(
            &mut records,
            &stamp.at,
            &target,
            Stage::QueueLead,
            Stage::QueueLate,
            Counter::QueuePastDeadline,
        );
        if let Some(returned) = returned {
            record_deadline(
                &mut records,
                &returned,
                &target,
                Stage::QueueReturnLead,
                Stage::QueueReturnLate,
                Counter::QueueReturnedPastDeadline,
            );
        }
    }
    records
}

/// Sequence numbers wrap without negative gaps: a frame that comes `skipped` frames after the
/// counted one leaves exactly that gap, wherever the numbers wrap.
pub proof fn law_gaps_survive_the_wrap(previous: u32, skipped: nat)
    requires
        skipped < 0x7fff_ffff,
    ensures
        frames_between(previous, ((previous + skipped + 1) % 0x1_0000_0000) as u32) == Some(skipped),
{
}

/// The first timestamp of a sequence stands: whatever a later event of the same sequence
/// carries, a throttled one without a timestamp included, the surface is as before.
pub proof fn law_first_timestamp_of_a_sequence_stands(
    surface: SurfaceTiming,
    enabled: bool,
    sequence: u32,
    presentation: Duration,
    callback: Duration,
)
    requires
        surface.last_event matches Some(event) && event.0 == sequence,
    ensures
        surface.after_event(enabled, sequence, presentation, callback) == surface,
{
}

/// A hardware timestamp is used for its own sequence alone: a presentation of another sequence
/// records no span of time and leaves the surface as it was.
pub proof fn law_timestamp_serves_its_own_sequence(
    surface: SurfaceTiming,
    epoch: u64,
    sequence: u32,
    target: Duration,
    queued: QueueStamp,
    refresh: Option<Duration>,
)
    requires
        queued.epoch == epoch,
        !(surface.last_event matches Some(event) && event.0 == sequence),
    ensures
        surface.presented_records(true, epoch, sequence, target, Some(queued), refresh)
            == seq![Record::Count(Counter::UnknownClock, 1)],
        surface.after_presented(true, epoch, sequence, Some(queued)) == surface,
{
}

/// Frames do not cross trials: a presentation whose frame was queued in another trial, or while
/// recording was off, is only counted as ignored, and leaves no trace on the surface.
pub proof fn law_frames_do_not_cross_trials(
    surface: SurfaceTiming,
    epoch: u64,
    sequence: u32,
    target: Duration,
    queued: Option<QueueStamp>,
    refresh: Option<Duration>,
)
    requires
        !(queued matches Some(stamp) && stamp.epoch == epoch),
    ensures
        surface.presented_records(true, epoch, sequence, target, queued, refresh)
            == seq![Record::Count(Counter::TransitionPresentationsIgnored, 1)],
        surface.after_presented(true, epoch, sequence, queued) == surface,
{
}

/// A frame is counted once: after a counted presentation, neither further events nor further
/// presentations of the same sequence are counted or change the surface.
pub proof fn law_frame_is_counted_once(
    surface: SurfaceTiming,
    epoch: u64,
    sequence: u32,
    queued: Option<QueueStamp>,
    presentation: Duration,
    callback: Duration,
    later_epoch: u64,
    later_queued: Option<QueueStamp>,
)
    requires
        surface.attribution(true, epoch, sequence, queued) is Counted,
    ensures
        ({
            let counted = surface.after_presented(true, epoch, sequence, queued);
            &&& counted.after_event(true, sequence, presentation, callback) == counted
            &&& !(counted.attribution(true, later_epoch, sequence, later_queued) is Counted)
            &&& counted.after_presented(true, later_epoch, sequence, later_queued) == counted
        }),
{
}

/// While recording is off nothing is recorded and nothing is remembered.
pub proof fn law_recording_off_leaves_no_trace(
    surface: SurfaceTiming,
    epoch: u64,
    sequence: u32,
    presentation: Duration,
    callback: Duration,
    target: Duration,
    queued: Option<QueueStamp>,
    refresh: Option<Duration>,
)
    ensures
        surface.after_event(false, sequence, presentation, callback) == surface,
        surface.presented_records(false, epoch, sequence, target, queued, refresh) == Seq::<Record>::empty(),
        surface.after_presented(false, epoch, sequence, queued) == surface,
{
}

/// A surface of which nothing was counted yet reports neither a gap nor an interval for its
/// first presentation.
pub proof fn law_first_presentation_has_no_gap(surface: SurfaceTiming, sequence: u32, presented: Duration)
    requires
        surface.last_counted is None,
    ensures
        surface.continuity_records(sequence, presented) == Seq::<Record>::empty(),
{
}

/// Of lateness and earliness at most one is positive, and their difference is the distance
/// between the actual and the intended time.
pub proof fn law_late_or_early(actual: Duration, target: Duration)
    ensures
        crate::time::span(actual, target) == 0 || crate::time::span(target, actual) == 0,
        crate::time::span(actual, target) - crate::time::span(target, actual)
            == crate::time::duration_nanos(actual) - crate::time::duration_nanos(target),
{
}

/// The spans of time that records hold for a stage, in their order.
pub open spec fn spans_of(records: Seq<Record>, stage: Stage) -> Seq<u128>
    decreases records.len(),
{
    if records.len() == 0 {
        Seq::empty()
    } else {
        let before = spans_of(records.drop_last(), stage);
        match records.last() {
            Record::Observe(measured, nanos) => if measured == stage {
                before.push(nanos)
            } else {
                before
            },
            Record::Count(_, _) => before,
        }
    }
}

/// The numbers that records hold for a counter, in their order.
pub open spec fn counts_of(records: Seq<Record>, counter: Counter) -> Seq<u64>
    decreases records.len(),
{
    if records.len() == 0 {
        Seq::empty()
    } else {
        let before = counts_of(records.drop_last(), counter);
        match records.last() {
            Record::Count(counted, number) => if counted == counter {
                before.push(number)
            } else {
                before
            },
            Record::Observe(_, _) => before,
        }
    }
}

/// What two points of a clock are apart, in nanoseconds: nothing where the first is not the later.
pub open spec fn apart(later: Duration, earlier: Duration) -> Seq<u128> {
    let nanos = crate::time::duration_nanos(later) - crate::time::duration_nanos(earlier);
    seq![
        if nanos > 0 {
            (nanos as nat) as u128
        } else {
            0u128
        },
    ]
}

broadcast proof fn lemma_spans_add(first: Seq<Record>, second: Seq<Record>, stage: Stage)
    ensures
        #[trigger] spans_of(first + second, stage) == spans_of(first, stage) + spans_of(second, stage),
    decreases second.len(),
{
    if second.len() == 0 {
        assert(first + second =~= first);
    } else {
        assert((first + second).drop_last() =~= first + second.drop_last());
        lemma_spans_add(first, second.drop_last(), stage);
    }
}

broadcast proof fn lemma_spans_push(records: Seq<Record>, record: Record, stage: Stage)
    ensures
        #[trigger] spans_of(records.push(record), stage) == (match record {
            Record::Observe(measured, nanos) => if measured == stage {
                spans_of(records, stage).push(nanos)
            } else {
                spans_of(records, stage)
            },
            Record::Count(_, _) => spans_of(records, stage),
        }),
{
    assert(records.push(record).drop_last() =~= records);
}

broadcast proof fn lemma_counts_add(first: Seq<Record>, second: Seq<Record>, counter: Counter)
    ensures
        #[trigger] counts_of(first + second, counter) == counts_of(first, counter) + counts_of(
            second,
            counter,
        ),
    decreases second.len(),
{
    if second.len() == 0 {
        assert(first + second =~= first);
    } else {
        assert((first + second).drop_last() =~= first + second.drop_last());
        lemma_counts_add(first, second.drop_last(), counter);
    }
}

broadcast proof fn lemma_counts_push(records: Seq<Record>, record: Record, counter: Counter)
    ensures
        #[trigger] counts_of(records.push(record), counter) == (match record {
            Record::Count(counted, number) => if counted == counter {
                counts_of(records, counter).push(number)
            } else {
                counts_of(records, counter)
            },
            Record::Observe(_, _) => counts_of(records, counter),
        }),
{
    assert(records.push(record).drop_last() =~= records);
}

/// A counted presentation is measured completely, and nothing else is measured: how long its
/// event took to be handled, how late or early it was, how long it took from the queue call, and,
/// where one was counted before it, exactly one interval between the two hardware timestamps,
/// whatever the two sequence numbers are. The surface remembers it as the last counted one.
pub proof fn law_counted_frames_are_measured(
    surface: SurfaceTiming,
    epoch: u64,
    sequence: u32,
    target: Duration,
    at: Duration,
    refresh: Option<Duration>,
    presented: Duration,
    handled: Duration,
    stage: Stage,
)
    requires
        surface.last_event == Some((sequence, presented, handled)),
        surface.last_counted matches Some(counted) ==> counted.0 != sequence,
    ensures
        ({
            let stamp = QueueStamp { at, epoch };
            let records = surface.presented_records(
                true,
                epoch,
                sequence,
                target,
                Some(stamp),
                refresh,
            );
            let after = surface.after_presented(true, epoch, sequence, Some(stamp));
            &&& spans_of(records, stage) =~= (match stage {
                Stage::PresentationInterval => match surface.last_counted {
                    Some((_, previous)) => apart(presented, previous),
                    None => Seq::<u128>::empty(),
                },
                Stage::PresentCallbackDelay => apart(handled, presented),
                Stage::PresentLateness => apart(presented, target),
                Stage::PresentEarliness => apart(target, presented),
                Stage::QueueToPresentation => apart(presented, at),
                _ => Seq::<u128>::empty(),
            })
            &&& after.last_counted == Some((sequence, presented))
            &&& after.last_event == surface.last_event
            &&& after.last_render == surface.last_render
        }),
{
    broadcast use {lemma_spans_add, lemma_spans_push};

}

/// A counted presentation counts as one, counts the hardware frames that it skipped after the one
/// before it, in the numbers' own circle of 32 bits, and counts as late from half a refresh period
/// on. A timestamp later than its own handling is counted, and nothing else is.
pub proof fn law_counted_frames_are_counted(
    surface: SurfaceTiming,
    epoch: u64,
    sequence: u32,
    target: Duration,
    at: Duration,
    refresh: Option<Duration>,
    presented: Duration,
    handled: Duration,
    counter: Counter,
)
    requires
        surface.last_event == Some((sequence, presented, handled)),
        surface.last_counted matches Some(counted) ==> counted.0 != sequence,
    ensures
        ({
            let records = surface.presented_records(
                true,
                epoch,
                sequence,
                target,
                Some(QueueStamp { at, epoch }),
                refresh,
            );
            let late = crate::time::duration_nanos(presented) - crate::time::duration_nanos(target);
            counts_of(records, counter) =~= (match counter {
                Counter::PresentEvents => seq![1u64],
                Counter::SequenceGaps => match surface.last_counted {
                    Some((before, _)) => {
                        let steps = if sequence > before {
                            sequence - before
                        } else {
                            0x1_0000_0000 + sequence - before
                        };
                        if steps < 0x8000_0000 {
                            seq![(steps - 1) as u64]
                        } else {
                            Seq::<u64>::empty()
                        }
                    },
                    None => Seq::<u64>::empty(),
                },
                Counter::FuturePresentationTimestamp => if crate::time::duration_nanos(handled)
                    < crate::time::duration_nanos(presented) {
                    seq![1u64]
                } else {
                    Seq::<u64>::empty()
                },
                Counter::PresentLate => match refresh {
                    Some(period) => if late >= crate::time::duration_nanos(period) / 2
                        || crate::time::duration_nanos(period) < 2 {
                        seq![1u64]
                    } else {
                        Seq::<u64>::empty()
                    },
                    None => Seq::<u64>::empty(),
                },
                _ => Seq::<u64>::empty(),
            })
        }),
{
    broadcast use {lemma_counts_add, lemma_counts_push};

}

/// A sequence that was counted before is not counted again: it records nothing, and the surface
/// stays as it was.
pub proof fn law_repeated_sequences_are_silent(
    surface: SurfaceTiming,
    epoch: u64,
    sequence: u32,
    target: Duration,
    at: Duration,
    refresh: Option<Duration>,
)
    requires
        surface.last_event matches Some(event) && event.0 == sequence,
        surface.last_counted matches Some(counted) && counted.0 == sequence,
    ensures
        ({
            let stamp = Some(QueueStamp { at, epoch });
            &&& surface.presented_records(true, epoch, sequence, target, stamp, refresh)
                == Seq::<Record>::empty()
            &&& surface.after_presented(true, epoch, sequence, stamp) == surface
        }),
{
}

/// While recording is on, the first event of a sequence is remembered whole as soon as it carries
/// a timestamp, and one without a timestamp is not.
pub proof fn law_new_timestamps_are_remembered(
    surface: SurfaceTiming,
    sequence: u32,
    presentation: Duration,
    callback: Duration,
)
    requires
        !(surface.last_event matches Some(event) && event.0 == sequence),
    ensures
        ({
            let after = surface.after_event(true, sequence, presentation, callback);
            &&& after.last_event == (if crate::time::duration_nanos(presentation) == 0 {
                surface.last_event
            } else {
                Some((sequence, presentation, callback))
            })
            &&& after.last_counted == surface.last_counted
            &&& after.last_render == surface.last_render
        }),
{
}

/// A render start is measured against the one before it, if there was one, and against the
/// intended presentation; it counts nothing, and becomes the last one. Without a clock nothing is
/// measured or remembered.
pub proof fn law_render_starts_are_measured(
    surface: SurfaceTiming,
    now: Duration,
    target: Duration,
    stage: Stage,
    counter: Counter,
)
    ensures
        ({
            let records = surface.render_records(Some(now), target);
            let after = surface.after_render(Some(now));
            &&& spans_of(records, stage) =~= (match stage {
                Stage::RenderLead => apart(target, now),
                Stage::FrameInterval => match surface.last_render {
                    Some(previous) => apart(now, previous),
                    None => Seq::<u128>::empty(),
                },
                _ => Seq::<u128>::empty(),
            })
            &&& counts_of(records, counter) =~= Seq::<u64>::empty()
            &&& after.last_render == Some(now)
            &&& after.last_event == surface.last_event
            &&& after.last_counted == surface.last_counted
        }),
        surface.render_records(None, target) == Seq::<Record>::empty(),
        surface.after_render(None) == surface,
{
    broadcast use {lemma_spans_add, lemma_spans_push, lemma_counts_add, lemma_counts_push};

}

/// A queue call is measured at its start and, where the clock was read again, at its return: each
/// end by its lead before the intended presentation and by its delay after it, and as past the
/// deadline where it came after. A frame without a stamp is not measured.
pub proof fn law_queue_calls_are_measured(
    target: Duration,
    started: QueueStamp,
    returned: Option<Duration>,
    stage: Stage,
    counter: Counter,
)
    ensures
        ({
            let records = queue_records(target, Some(started), returned);
            let deadline = crate::time::duration_nanos(target);
            &&& spans_of(records, stage) =~= (match (stage, returned) {
                (Stage::QueueLead, _) => apart(target, started.at),
                (Stage::QueueLate, _) => apart(started.at, target),
                (Stage::QueueReturnLead, Some(returned)) => apart(target, returned),
                (Stage::QueueReturnLate, Some(returned)) => apart(returned, target),
                _ => Seq::<u128>::empty(),
            })
            &&& counts_of(records, counter) =~= (match (counter, returned) {
                (Counter::QueuePastDeadline, _) => if deadline < crate::time::duration_nanos(
                    started.at,
                ) {
                    seq![1u64]
                } else {
                    Seq::<u64>::empty()
                },
                (Counter::QueueReturnedPastDeadline, Some(returned)) => if deadline
                    < crate::time::duration_nanos(returned) {
                    seq![1u64]
                } else {
                    Seq::<u64>::empty()
                },
                _ => Seq::<u64>::empty(),
            })
        }),
        queue_records(target, None, returned) == Seq::<Record>::empty(),
{
    broadcast use {
        lemma_spans_add,
        lemma_spans_push,
        lemma_counts_add,
        lemma_counts_push,
    };

}

} // verus!
