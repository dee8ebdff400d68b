//! The pacing report: what a session and its windows say, and the lines that say it.
//!
//! A report is a file of JSON lines. The first one describes the session; after that each
//! window of measurements writes one line per stream, and each accepted control command one.

use std::time::Duration;

use vstd::prelude::*;

use crate::bridge_config::VulkanCopyDevice;
use crate::json::{line, new_object, put, Json, JsonModel, JsonObject};
use crate::time::{epoch_ms, nanos_between};

verus! {

/// The length of a window in milliseconds.
pub const WINDOW_MS: u64 = 5_000;

/// After how long a window is reported and the next one begins.
pub fn window_length() -> (length: Duration)
    ensures
        crate::time::duration_nanos(length) == 5_000_000_000,
{
    Duration::from_millis(WINDOW_MS)
}

/// What a session says of itself. Where the path of the executable is unknown, it is left open.
pub struct SessionHeader {
    pub pid: u32,
    pub version: String,
    pub started_ms: u128,
    pub direct_target: bool,
    pub render_device: u64,
    pub copy_device: VulkanCopyDevice,
    pub executable: Option<String>,
}

/// What a histogram of durations comes to. The quantiles are upper bounds.
#[derive(Clone, Copy, Debug, PartialEq, Eq, Structural)]
pub struct HistogramSummary {
    pub count: u64,
    pub total_ns: u64,
    pub min_ns: u64,
    pub max_ns: u64,
    pub p01_ns: u64,
    pub p05_ns: u64,
    pub p50_ns: u64,
    pub p95_ns: u64,
    pub p99_ns: u64,
}

/// The durations of one stage.
pub struct Metric {
    pub stage: String,
    pub summary: HistogramSummary,
}

/// The value of one counter.
pub struct CounterValue {
    pub counter: String,
    pub count: u64,
}

/// What one stream (a CRTC of a device) measured in a window.
pub struct StreamSnapshot {
    pub device: u64,
    pub crtc: u32,
    pub label: String,
    pub metrics: Vec<Metric>,
    pub counters: Vec<CounterValue>,
}

/// What was measured between two ticks of the reporter.
pub struct Window {
    pub epoch: u64,
    pub timestamp_ms: u128,
    pub elapsed_ns: u128,
    pub dropped_windows: u64,
    pub phase: String,
    pub direct_target: bool,
    pub recording: bool,
    pub streams: Vec<StreamSnapshot>,
}

/// How a copy device is written in the report.
pub open spec fn role_text(device: VulkanCopyDevice) -> Seq<char> {
    match device {
        VulkanCopyDevice::Render => "Render"@,
        VulkanCopyDevice::Target => "Target"@,
    }
}

/// A text, or nothing.
pub open spec fn optional_text(text: Option<Seq<char>>) -> JsonModel {
    match text {
        Some(text) => JsonModel::Text(text),
        None => JsonModel::Null,
    }
}

/// The members of the line that opens a report.
pub open spec fn session_members(header: SessionHeader) -> Map<Seq<char>, JsonModel> {
    map![
        "type"@ => JsonModel::Text("session"@),
        "pid"@ => JsonModel::Number(header.pid as nat),
        "version"@ => JsonModel::Text(header.version@),
        "started_ms"@ => JsonModel::Number(header.started_ms as nat),
        "direct_target"@ => JsonModel::Bool(header.direct_target),
        "render_device"@ => JsonModel::Number(header.render_device as nat),
        "copy_device_role"@ => JsonModel::Text(role_text(header.copy_device)),
        "executable"@ => optional_text(match header.executable {
            Some(path) => Some(path@),
            None => None,
        }),
        "window_ms"@ => JsonModel::Number(5_000),
        "clock"@ => JsonModel::Text("CPU wall / CLOCK_MONOTONIC presentation"@),
        "notes"@ => JsonModel::Text(
            "nested durations overlap; histogram quantiles are upper bounds; sequence gaps may be idle"@,
        ),
    ]
}

/// The members of a histogram's summary.
pub open spec fn summary_members(summary: HistogramSummary) -> Map<Seq<char>, JsonModel> {
    map![
        "count"@ => JsonModel::Number(summary.count as nat),
        "total_ns"@ => JsonModel::Number(summary.total_ns as nat),
        "min_ns"@ => JsonModel::Number(summary.min_ns as nat),
        "max_ns"@ => JsonModel::Number(summary.max_ns as nat),
        "p01_ns"@ => JsonModel::Number(summary.p01_ns as nat),
        "p05_ns"@ => JsonModel::Number(summary.p05_ns as nat),
        "p50_ns"@ => JsonModel::Number(summary.p50_ns as nat),
        "p95_ns"@ => JsonModel::Number(summary.p95_ns as nat),
        "p99_ns"@ => JsonModel::Number(summary.p99_ns as nat),
    ]
}

/// The members of a stream's metrics: each stage with its summary.
pub open spec fn metric_members(metrics: Seq<Metric>) -> Map<Seq<char>, JsonModel>
    decreases metrics.len(),
{
    if metrics.len() == 0 {
        crate::json::no_members()
    } else {
        metric_members(metrics.drop_last()).insert(
            metrics.last().stage@,
            JsonModel::Object(summary_members(metrics.last().summary)),
        )
    }
}

/// The members of a stream's counters: each counter with its value.
pub open spec fn counter_members(counters: Seq<CounterValue>) -> Map<Seq<char>, JsonModel>
    decreases counters.len(),
{
    if counters.len() == 0 {
        crate::json::no_members()
    } else {
        counter_members(counters.drop_last()).insert(
            counters.last().counter@,
            JsonModel::Number(counters.last().count as nat),
        )
    }
}

/// The members of the line that a window writes for one of its streams.
pub open spec fn row_members(pid: u32, window: Window, stream: StreamSnapshot) -> Map<
    Seq<char>,
    JsonModel,
> {
    map![
        "type"@ => JsonModel::Text("window"@),
        "pid"@ => JsonModel::Number(pid as nat),
        "epoch"@ => JsonModel::Number(window.epoch as nat),
        "timestamp_ms"@ => JsonModel::Number(window.timestamp_ms as nat),
        "elapsed_ns"@ => JsonModel::Number(window.elapsed_ns as nat),
        "dropped_windows"@ => JsonModel::Number(window.dropped_windows as nat),
        "phase"@ => JsonModel::Text(window.phase@),
        "direct_target"@ => JsonModel::Bool(window.direct_target),
        "recording"@ => JsonModel::Bool(window.recording),
        "output"@ => JsonModel::Text(stream.label@),
        "device"@ => JsonModel::Number(stream.device as nat),
        "crtc"@ => JsonModel::Number(stream.crtc as nat),
        "metrics"@ => JsonModel::Object(metric_members(stream.metrics@)),
        "counters"@ => JsonModel::Object(counter_members(stream.counters@)),
    ]
}

/// The lines that a window writes for the first `count` of its streams.
pub open spec fn window_text(pid: u32, window: Window, count: nat) -> Seq<u8>
    decreases count,
{
    if count == 0 {
        Seq::empty()
    } else {
        window_text(pid, window, (count - 1) as nat) + crate::json::object_line(
            row_members(pid, window, window.streams@[count - 1]),
        )
    }
}

/// How many lines bytes hold: their line feeds.
pub open spec fn lines(bytes: Seq<u8>) -> nat {
    bytes.to_multiset().count(10u8)
}

fn copy_text(text: &String) -> (copy: Json)
    ensures
        copy.model() == JsonModel::Text(text@),
{
    Json::Text(text.as_str().to_owned())
}

fn literal(text: &str) -> (value: Json)
    ensures
        value.model() == JsonModel::Text(text@),
{
    Json::Text(text.to_owned())
}

/// The object that opens a report.
pub fn session_object(header: &SessionHeader) -> (object: JsonObject)
    requires
        header.started_ms <= u64::MAX,
    ensures
        crate::json::object_members(object) == session_members(*header),
{
    let mut object = new_object();
    put(&mut object, "type", literal("session"));
    put(&mut object, "pid", Json::Number(header.pid as u64));
    put(&mut object, "version", copy_text(&header.version));
    put(&mut object, "started_ms", Json::Number(header.started_ms as u64));
    put(&mut object, "direct_target", Json::Bool(header.direct_target));
    put(&mut object, "render_device", Json::Number(header.render_device));
    let role = match header.copy_device {
        VulkanCopyDevice::Render => literal("Render"),
        VulkanCopyDevice::Target => literal("Target"),
    };
    put(&mut object, "copy_device_role", role);
    let executable = match &header.executable {
        Some(path) => copy_text(path),
        None => Json::Null,
    };
    put(&mut object, "executable", executable);
    put(&mut object, "window_ms", Json::Number(WINDOW_MS));
    put(&mut object, "clock", literal("CPU wall / CLOCK_MONOTONIC presentation"));
    put(
        &mut object,
        "notes",
        literal(
            "nested durations overlap; histogram quantiles are upper bounds; sequence gaps may be idle",
        ),
    );
    object
}

/// The line that opens a report.
pub fn session_line(header: &SessionHeader) -> (bytes: Vec<u8>)
    requires
        header.started_ms <= u64::MAX,
    ensures
        bytes@ == crate::json::object_line(session_members(*header)),
        crate::json::is_line(bytes@),
{
    line(&session_object(header))
}

fn summary_object(summary: &HistogramSummary) -> (object: JsonObject)
    ensures
        crate::json::object_members(object) == summary_members(*summary),
{
    let mut object = new_object();
    put(&mut object, "count", Json::Number(summary.count));
    put(&mut object, "total_ns", Json::Number(summary.total_ns));
    put(&mut object, "min_ns", Json::Number(summary.min_ns));
    put(&mut object, "max_ns", Json::Number(summary.max_ns));
    put(&mut object, "p01_ns", Json::Number(summary.p01_ns));
    put(&mut object, "p05_ns", Json::Number(summary.p05_ns));
    put(&mut object, "p50_ns", Json::Number(summary.p50_ns));
    put(&mut object, "p95_ns", Json::Number(summary.p95_ns));
    put(&mut object, "p99_ns", Json::Number(summary.p99_ns));
    object
}

fn metrics_object(metrics: &Vec<Metric>) -> (object: JsonObject)
    ensures
        crate::json::object_members(object) == metric_members(metrics@),
{
    let mut object = new_object();
    let mut i: usize = 0;
    while i < metrics.len()
        invariant
            i <= metrics@.len(),
            crate::json::object_members(object) == metric_members(metrics@.take(i as int)),
        decreases metrics@.len() - i,
    {
        proof {
            assert(metrics@.take(i + 1).drop_last() == metrics@.take(i as int));
        }
        let metric = &metrics[i];
        put(&mut object, metric.stage.as_str(), Json::Object(summary_object(&metric.summary)));
        i = i + 1;
    }
    assert(metrics@.take(i as int) == metrics@);
    object
}

fn counters_object(counters: &Vec<CounterValue>) -> (object: JsonObject)
    ensures
        crate::json::object_members(object) == counter_members(counters@),
{
    let mut object = new_object();
    let mut i: usize = 0;
    while i < counters.len()
        invariant
            i <= counters@.len(),
            crate::json::object_members(object) == counter_members(counters@.take(i as int)),
        decreases counters@.len() - i,
    {
        proof {
            assert(counters@.take(i + 1).drop_last() == counters@.take(i as int));
        }
        let counter = &counters[i];
        put(&mut object, counter.counter.as_str(), Json::Number(counter.count));
        i = i + 1;
    }
    assert(counters@.take(i as int) == counters@);
    object
}

/// The object that a window writes for one of its streams.
pub fn row_object(pid: u32, window: &Window, stream: &StreamSnapshot) -> (object: JsonObject)
    requires
        window.timestamp_ms <= u64::MAX,
        window.elapsed_ns <= u64::MAX,
    ensures
        crate::json::object_members(object) == row_members(pid, *window, *stream),
{
    let mut object = new_object();
    put(&mut object, "type", literal("window"));
    put(&mut object, "pid", Json::Number(pid as u64));
    put(&mut object, "epoch", Json::Number(window.epoch));
    put(&mut object, "timestamp_ms", Json::Number(window.timestamp_ms as u64));
    put(&mut object, "elapsed_ns", Json::Number(window.elapsed_ns as u64));
    put(&mut object, "dropped_windows", Json::Number(window.dropped_windows));
    put(&mut object, "phase", copy_text(&window.phase));
    put(&mut object, "direct_target", Json::Bool(window.direct_target));
    put(&mut object, "recording", Json::Bool(window.recording));
    put(&mut object, "output", copy_text(&stream.label));
    put(&mut object, "device", Json::Number(stream.device));
    put(&mut object, "crtc", Json::Number(stream.crtc as u64));
    put(&mut object, "metrics", Json::Object(metrics_object(&stream.metrics)));
    put(&mut object, "counters", Json::Object(counters_object(&stream.counters)));
    object
}

proof fn lemma_lines_grow(before: Seq<u8>, row: Seq<u8>)
    requires
        crate::json::is_line(row),
    ensures
        lines(before + row) == lines(before) + 1,
{
    broadcast use vstd::seq_lib::group_to_multiset_ensures;

    let body = row.drop_last();
    assert(row == body.push(10u8));
    assert(before + row == (before + body).push(10u8));
    vstd::seq_lib::lemma_multiset_commutative(before, body);
    assert(body.to_multiset().count(10u8) == 0);
}

/// The lines of a window, one for each of its streams.
pub fn window_lines(pid: u32, window: &Window) -> (bytes: Vec<u8>)
    requires
        window.timestamp_ms <= u64::MAX,
        window.elapsed_ns <= u64::MAX,
    ensures
        bytes@ == window_text(pid, *window, window.streams@.len()),
        lines(bytes@) == window.streams@.len(),
{
    let mut bytes: Vec<u8> = Vec::new();
    let mut i: usize = 0;
    proof {
        broadcast use vstd::seq_lib::group_to_multiset_ensures;

        assert(lines(bytes@) == 0);
    }
    while i < window.streams.len()
        invariant
            window.timestamp_ms <= u64::MAX,
            window.elapsed_ns <= u64::MAX,
            i <= window.streams@.len(),
            bytes@ == window_text(pid, *window, i as nat),
            lines(bytes@) == i,
        decreases window.streams@.len() - i,
    {
        let mut row = line(&row_object(pid, window, &window.streams[i]));
        proof {
            lemma_lines_grow(bytes@, row@);
        }
        bytes.append(&mut row);
        i = i + 1;
    }
    bytes
}

/// What became of a window that was handed to the writer.
#[derive(Clone, Copy, Debug, PartialEq, Eq, Structural)]
pub enum Delivery {
    /// The writer has it.
    Sent,
    /// The writer is behind: the window is lost.
    Full,
    /// The writer is gone.
    Disconnected,
}

/// What the reporter's timer does next.
#[derive(Clone, Copy, Debug, PartialEq, Eq, Structural)]
pub enum TimerStep {
    /// Fire again after the length of a window.
    Again,
    /// Never fire again.
    Drop,
}

/// What the timer does once it is known what became of a window.
pub open spec fn step_after(delivery: Delivery) -> TimerStep {
    match delivery {
        Delivery::Disconnected => TimerStep::Drop,
        _ => TimerStep::Again,
    }
}

/// The state of a running report. The epoch numbers the trials: each accepted control command
/// that changes something begins a new one.
pub struct ReportState {
    pub epoch: u64,
    pub recording: bool,
    pub previous: Duration,
    pub dropped: u64,
    pub phase: String,
    pub direct_target: bool,
    pub startup_direct: bool,
}

/// What a report's state is, with its texts as characters.
#[verifier::ext_equal]
pub struct ReportStateView {
    pub epoch: u64,
    pub recording: bool,
    pub previous: Duration,
    pub dropped: u64,
    pub phase: Seq<char>,
    pub direct_target: bool,
    pub startup_direct: bool,
}

impl View for ReportState {
    type V = ReportStateView;

    open spec fn view(&self) -> ReportStateView {
        ReportStateView {
            epoch: self.epoch,
            recording: self.recording,
            previous: self.previous,
            dropped: self.dropped,
            phase: self.phase@,
            direct_target: self.direct_target,
            startup_direct: self.startup_direct,
        }
    }
}

impl ReportStateView {
    /// A report that begins now.
    pub open spec fn initial(startup_direct: bool, now: Duration) -> ReportStateView {
        ReportStateView {
            epoch: 1,
            recording: true,
            previous: now,
            dropped: 0,
            phase: "startup"@,
            direct_target: startup_direct,
            startup_direct,
        }
    }

    /// Direct writes are on only where the session started with them.
    pub open spec fn consistent(self) -> bool {
        self.direct_target ==> self.startup_direct
    }

    /// Whether a window is the one that ends now: it bears this state, and lasted since the
    /// previous one ended.
    pub open spec fn ends_window(
        self,
        now: Duration,
        streams: Seq<StreamSnapshot>,
        window: Window,
    ) -> bool {
        &&& window.epoch == self.epoch
        &&& window.elapsed_ns == crate::time::span(now, self.previous)
        &&& window.dropped_windows == self.dropped
        &&& window.phase@ == self.phase
        &&& window.direct_target == self.direct_target
        &&& window.recording == self.recording
        &&& window.streams@ == streams
    }

    /// The state with a window that begins now, where the one before ended or was discarded.
    pub open spec fn after_window(self, now: Duration) -> ReportStateView {
        ReportStateView { previous: now, ..self }
    }

    /// The state once it is known what became of a window.
    pub open spec fn after_delivery(self, delivery: Delivery) -> ReportStateView {
        ReportStateView {
            dropped: match delivery {
                Delivery::Sent => 0,
                Delivery::Full => if self.dropped < u64::MAX {
                    (self.dropped + 1) as u64
                } else {
                    self.dropped
                },
                Delivery::Disconnected => self.dropped,
            },
            ..self
        }
    }

    /// The state after windows that ended at these times, each of which found the writer behind.
    pub open spec fn after_losses(self, ends: Seq<Duration>) -> ReportStateView
        decreases ends.len(),
    {
        if ends.len() == 0 {
            self
        } else {
            self.after_losses(ends.drop_last()).after_window(ends.last()).after_delivery(
                Delivery::Full,
            )
        }
    }
}

impl ReportState {
    /// A report that begins now, in the first trial and in the phase called startup.
    pub fn new(startup_direct: bool, now: Duration) -> (state: ReportState)
        ensures
            state@ == ReportStateView::initial(startup_direct, now),
            state@.consistent(),
    {
        ReportState {
            epoch: 1,
            recording: true,
            previous: now,
            dropped: 0,
            phase: "startup".to_owned(),
            direct_target: startup_direct,
            startup_direct,
        }
    }

    /// Ends a window now, with the wall clock at `timestamp_ms` and with what the streams
    /// measured.
    pub fn window_at(
        &mut self,
        now: Duration,
        timestamp_ms: u128,
        streams: Vec<StreamSnapshot>,
    ) -> (window: Window)
        ensures
            old(self)@.ends_window(now, streams@, window),
            window.timestamp_ms == timestamp_ms,
            final(self)@ == old(self)@.after_window(now),
    {
        let elapsed_ns: u128 = nanos_between(&now, &self.previous);
        self.previous = now;
        Window {
            epoch: self.epoch,
            timestamp_ms,
            elapsed_ns,
            dropped_windows: self.dropped,
            phase: self.phase.as_str().to_owned(),
            direct_target: self.direct_target,
            recording: self.recording,
            streams,
        }
    }

    /// Ends a window now, stamped with the wall clock.
    pub fn window(&mut self, now: Duration, streams: Vec<StreamSnapshot>) -> (window: Window)
        ensures
            old(self)@.ends_window(now, streams@, window),
            exists|at: std::time::SystemTime|
                window.timestamp_ms == #[trigger] crate::time::millis_at(at),
            final(self)@ == old(self)@.after_window(now),
    {
        let timestamp_ms: u128 = epoch_ms();
        self.window_at(now, timestamp_ms, streams)
    }

    /// Begins the running window anew, once what was measured before is discarded.
    pub fn begin_window(&mut self, now: Duration)
        ensures
            final(self)@ == old(self)@.after_window(now),
    {
        self.previous = now;
    }

    /// Takes note of what became of a window: a lost one is counted, one that arrived ends the
    /// count, and without a writer there is nothing left to report to.
    pub fn delivered(&mut self, delivery: Delivery) -> (next: TimerStep)
        ensures
            final(self)@ == old(self)@.after_delivery(delivery),
            next == (if delivery == Delivery::Disconnected {
                TimerStep::Drop
            } else {
                TimerStep::Again
            }),
            next == step_after(delivery),
    {
        match delivery {
            Delivery::Sent => {
                self.dropped = 0;
                TimerStep::Again
            },
            Delivery::Full => {
                self.dropped = self.dropped.saturating_add(1);
                TimerStep::Again
            },
            Delivery::Disconnected => TimerStep::Drop,
        }
    }
}

/// The window that ends after some windows were lost in a row says how many they were, on top of
/// those that were lost before and up to the largest number it can hold; once it has arrived, the
/// next one says none.
pub proof fn law_lost_windows_are_reported(
    state: ReportStateView,
    ends: Seq<Duration>,
    now: Duration,
    streams: Seq<StreamSnapshot>,
    window: Window,
    later: Duration,
    later_streams: Seq<StreamSnapshot>,
    later_window: Window,
)
    requires
        state.after_losses(ends).ends_window(now, streams, window),
        state.after_losses(ends).after_window(now).after_delivery(Delivery::Sent).ends_window(
            later,
            later_streams,
            later_window,
        ),
    ensures
        window.dropped_windows == (if state.dropped + ends.len() <= u64::MAX {
            state.dropped + ends.len()
        } else {
            u64::MAX as int
        }),
        later_window.dropped_windows == 0,
{
    lemma_losses_add_up(state, ends);
}

proof fn lemma_losses_add_up(state: ReportStateView, ends: Seq<Duration>)
    ensures
        state.after_losses(ends).dropped == (if state.dropped + ends.len() <= u64::MAX {
            state.dropped + ends.len()
        } else {
            u64::MAX as int
        }),
    decreases ends.len(),
{
    if ends.len() > 0 {
        lemma_losses_add_up(state, ends.drop_last());
    }
}

/// Windows follow one another without a gap: one that ends now was measured from the end of
/// the one before.
pub proof fn law_windows_are_contiguous(
    state: ReportStateView,
    first: Duration,
    second: Duration,
    delivery: Delivery,
    streams: Seq<StreamSnapshot>,
    window: Window,
)
    requires
        state.after_window(first).after_delivery(delivery).ends_window(second, streams, window),
        crate::time::duration_nanos(first) <= crate::time::duration_nanos(second),
    ensures
        crate::time::duration_nanos(first) + window.elapsed_ns == crate::time::duration_nanos(second),
{
}

/// The names of the members of a session's line are all different.
proof fn lemma_session_names()
    ensures
        "type"@ != "pid"@,
        "type"@ != "version"@,
        "type"@ != "started_ms"@,
        "type"@ != "direct_target"@,
        "type"@ != "render_device"@,
        "type"@ != "copy_device_role"@,
        "type"@ != "executable"@,
        "type"@ != "window_ms"@,
        "type"@ != "clock"@,
        "type"@ != "notes"@,
        "pid"@ != "version"@,
        "pid"@ != "started_ms"@,
        "pid"@ != "direct_target"@,
        "pid"@ != "render_device"@,
        "pid"@ != "copy_device_role"@,
        "pid"@ != "executable"@,
        "pid"@ != "window_ms"@,
        "pid"@ != "clock"@,
        "pid"@ != "notes"@,
        "version"@ != "started_ms"@,
        "version"@ != "direct_target"@,
        "version"@ != "render_device"@,
        "version"@ != "copy_device_role"@,
        "version"@ != "executable"@,
        "version"@ != "window_ms"@,
        "version"@ != "clock"@,
        "version"@ != "notes"@,
        "started_ms"@ != "direct_target"@,
        "started_ms"@ != "render_device"@,
        "started_ms"@ != "copy_device_role"@,
        "started_ms"@ != "executable"@,
        "started_ms"@ != "window_ms"@,
        "started_ms"@ != "clock"@,
        "started_ms"@ != "notes"@,
        "direct_target"@ != "render_device"@,
        "direct_target"@ != "copy_device_role"@,
        "direct_target"@ != "executable"@,
        "direct_target"@ != "window_ms"@,
        "direct_target"@ != "clock"@,
        "direct_target"@ != "notes"@,
        "render_device"@ != "copy_device_role"@,
        "render_device"@ != "executable"@,
        "render_device"@ != "window_ms"@,
        "render_device"@ != "clock"@,
        "render_device"@ != "notes"@,
        "copy_device_role"@ != "executable"@,
        "copy_device_role"@ != "window_ms"@,
        "copy_device_role"@ != "clock"@,
        "copy_device_role"@ != "notes"@,
        "executable"@ != "window_ms"@,
        "executable"@ != "clock"@,
        "executable"@ != "notes"@,
        "window_ms"@ != "clock"@,
        "window_ms"@ != "notes"@,
        "clock"@ != "notes"@,
{
    reveal_strlit("type");
    reveal_strlit("pid");
    reveal_strlit("version");
    reveal_strlit("started_ms");
    reveal_strlit("direct_target");
    reveal_strlit("render_device");
    reveal_strlit("copy_device_role");
    reveal_strlit("executable");
    reveal_strlit("window_ms");
    reveal_strlit("clock");
    reveal_strlit("notes");
    assert("type"@.len() == 4);
    assert("pid"@.len() == 3);
    assert("version"@.len() == 7);
    assert("started_ms"@.len() == 10);
    assert("direct_target"@.len() == 13);
    assert("render_device"@.len() == 13);
    assert("copy_device_role"@.len() == 16);
    assert("executable"@.len() == 10);
    assert("window_ms"@.len() == 9);
    assert("clock"@.len() == 5);
    assert("notes"@.len() == 5);
    assert("started_ms"@[0] != "executable"@[0]);
    assert("direct_target"@[0] != "render_device"@[0]);
    assert("clock"@[0] != "notes"@[0]);
}

/// The names of the members of a window's line are all different.
proof fn lemma_row_names()
    ensures
        "type"@ != "pid"@,
        "type"@ != "epoch"@,
        "type"@ != "timestamp_ms"@,
        "type"@ != "elapsed_ns"@,
        "type"@ != "dropped_windows"@,
        "type"@ != "phase"@,
        "type"@ != "direct_target"@,
        "type"@ != "recording"@,
        "type"@ != "output"@,
        "type"@ != "device"@,
        "type"@ != "crtc"@,
        "type"@ != "metrics"@,
        "type"@ != "counters"@,
        "pid"@ != "epoch"@,
        "pid"@ != "timestamp_ms"@,
        "pid"@ != "elapsed_ns"@,
        "pid"@ != "dropped_windows"@,
        "pid"@ != "phase"@,
        "pid"@ != "direct_target"@,
        "pid"@ != "recording"@,
        "pid"@ != "output"@,
        "pid"@ != "device"@,
        "pid"@ != "crtc"@,
        "pid"@ != "metrics"@,
        "pid"@ != "counters"@,
        "epoch"@ != "timestamp_ms"@,
        "epoch"@ != "elapsed_ns"@,
        "epoch"@ != "dropped_windows"@,
        "epoch"@ != "phase"@,
        "epoch"@ != "direct_target"@,
        "epoch"@ != "recording"@,
        "epoch"@ != "output"@,
        "epoch"@ != "device"@,
        "epoch"@ != "crtc"@,
        "epoch"@ != "metrics"@,
        "epoch"@ != "counters"@,
        "timestamp_ms"@ != "elapsed_ns"@,
        "timestamp_ms"@ != "dropped_windows"@,
        "timestamp_ms"@ != "phase"@,
        "timestamp_ms"@ != "direct_target"@,
        "timestamp_ms"@ != "recording"@,
        "timestamp_ms"@ != "output"@,
        "timestamp_ms"@ != "device"@,
        "timestamp_ms"@ != "crtc"@,
        "timestamp_ms"@ != "metrics"@,
        "timestamp_ms"@ != "counters"@,
        "elapsed_ns"@ != "dropped_windows"@,
        "elapsed_ns"@ != "phase"@,
        "elapsed_ns"@ != "direct_target"@,
        "elapsed_ns"@ != "recording"@,
        "elapsed_ns"@ != "output"@,
        "elapsed_ns"@ != "device"@,
        "elapsed_ns"@ != "crtc"@,
        "elapsed_ns"@ != "metrics"@,
        "elapsed_ns"@ != "counters"@,
        "dropped_windows"@ != "phase"@,
        "dropped_windows"@ != "direct_target"@,
        "dropped_windows"@ != "recording"@,
        "dropped_windows"@ != "output"@,
        "dropped_windows"@ != "device"@,
        "dropped_windows"@ != "crtc"@,
        "dropped_windows"@ != "metrics"@,
        "dropped_windows"@ != "counters"@,
        "phase"@ != "direct_target"@,
        "phase"@ != "recording"@,
        "phase"@ != "output"@,
        "phase"@ != "device"@,
        "phase"@ != "crtc"@,
        "phase"@ != "metrics"@,
        "phase"@ != "counters"@,
        "direct_target"@ != "recording"@,
        "direct_target"@ != "output"@,
        "direct_target"@ != "device"@,
        "direct_target"@ != "crtc"@,
        "direct_target"@ != "metrics"@,
        "direct_target"@ != "counters"@,
        "recording"@ != "output"@,
        "recording"@ != "device"@,
        "recording"@ != "crtc"@,
        "recording"@ != "metrics"@,
        "recording"@ != "counters"@,
        "output"@ != "device"@,
        "output"@ != "crtc"@,
        "output"@ != "metrics"@,
        "output"@ != "counters"@,
        "device"@ != "crtc"@,
        "device"@ != "metrics"@,
        "device"@ != "counters"@,
        "crtc"@ != "metrics"@,
        "crtc"@ != "counters"@,
        "metrics"@ != "counters"@,
{
    reveal_strlit("type");
    reveal_strlit("pid");
    reveal_strlit("epoch");
    reveal_strlit("timestamp_ms");
    reveal_strlit("elapsed_ns");
    reveal_strlit("dropped_windows");
    reveal_strlit("phase");
    reveal_strlit("direct_target");
    reveal_strlit("recording");
    reveal_strlit("output");
    reveal_strlit("device");
    reveal_strlit("crtc");
    reveal_strlit("metrics");
    reveal_strlit("counters");
    assert("type"@.len() == 4);
    assert("pid"@.len() == 3);
    assert("epoch"@.len() == 5);
    assert("timestamp_ms"@.len() == 12);
    assert("elapsed_ns"@.len() == 10);
    assert("dropped_windows"@.len() == 15);
    assert("phase"@.len() == 5);
    assert("direct_target"@.len() == 13);
    assert("recording"@.len() == 9);
    assert("output"@.len() == 6);
    assert("device"@.len() == 6);
    assert("crtc"@.len() == 4);
    assert("metrics"@.len() == 7);
    assert("counters"@.len() == 8);
    assert("type"@[0] != "crtc"@[0]);
    assert("epoch"@[0] != "phase"@[0]);
    assert("output"@[0] != "device"@[0]);
}

/// The names of the members of a summary are all different.
proof fn lemma_summary_names()
    ensures
        "count"@ != "total_ns"@,
        "count"@ != "min_ns"@,
        "count"@ != "max_ns"@,
        "count"@ != "p01_ns"@,
        "count"@ != "p05_ns"@,
        "count"@ != "p50_ns"@,
        "count"@ != "p95_ns"@,
        "count"@ != "p99_ns"@,
        "total_ns"@ != "min_ns"@,
        "total_ns"@ != "max_ns"@,
        "total_ns"@ != "p01_ns"@,
        "total_ns"@ != "p05_ns"@,
        "total_ns"@ != "p50_ns"@,
        "total_ns"@ != "p95_ns"@,
        "total_ns"@ != "p99_ns"@,
        "min_ns"@ != "max_ns"@,
        "min_ns"@ != "p01_ns"@,
        "min_ns"@ != "p05_ns"@,
        "min_ns"@ != "p50_ns"@,
        "min_ns"@ != "p95_ns"@,
        "min_ns"@ != "p99_ns"@,
        "max_ns"@ != "p01_ns"@,
        "max_ns"@ != "p05_ns"@,
        "max_ns"@ != "p50_ns"@,
        "max_ns"@ != "p95_ns"@,
        "max_ns"@ != "p99_ns"@,
        "p01_ns"@ != "p05_ns"@,
        "p01_ns"@ != "p50_ns"@,
        "p01_ns"@ != "p95_ns"@,
        "p01_ns"@ != "p99_ns"@,
        "p05_ns"@ != "p50_ns"@,
        "p05_ns"@ != "p95_ns"@,
        "p05_ns"@ != "p99_ns"@,
        "p50_ns"@ != "p95_ns"@,
        "p50_ns"@ != "p99_ns"@,
        "p95_ns"@ != "p99_ns"@,
{
    reveal_strlit("count");
    reveal_strlit("total_ns");
    reveal_strlit("min_ns");
    reveal_strlit("max_ns");
    reveal_strlit("p01_ns");
    reveal_strlit("p05_ns");
    reveal_strlit("p50_ns");
    reveal_strlit("p95_ns");
    reveal_strlit("p99_ns");
    assert("count"@.len() == 5);
    assert("total_ns"@.len() == 8);
    assert("min_ns"@.len() == 6);
    assert("max_ns"@.len() == 6);
    assert("p01_ns"@.len() == 6);
    assert("p05_ns"@.len() == 6);
    assert("p50_ns"@.len() == 6);
    assert("p95_ns"@.len() == 6);
    assert("p99_ns"@.len() == 6);
    assert("min_ns"@[1] != "max_ns"@[1]);
    assert("min_ns"@[0] != "p01_ns"@[0]);
    assert("min_ns"@[0] != "p05_ns"@[0]);
    assert("min_ns"@[0] != "p50_ns"@[0]);
    assert("min_ns"@[0] != "p95_ns"@[0]);
    assert("min_ns"@[0] != "p99_ns"@[0]);
    assert("max_ns"@[0] != "p01_ns"@[0]);
    assert("max_ns"@[0] != "p05_ns"@[0]);
    assert("max_ns"@[0] != "p50_ns"@[0]);
    assert("max_ns"@[0] != "p95_ns"@[0]);
    assert("max_ns"@[0] != "p99_ns"@[0]);
    assert("p01_ns"@[2] != "p05_ns"@[2]);
    assert("p01_ns"@[1] != "p50_ns"@[1]);
    assert("p01_ns"@[1] != "p95_ns"@[1]);
    assert("p01_ns"@[1] != "p99_ns"@[1]);
    assert("p05_ns"@[1] != "p50_ns"@[1]);
    assert("p05_ns"@[1] != "p95_ns"@[1]);
    assert("p05_ns"@[1] != "p99_ns"@[1]);
    assert("p50_ns"@[1] != "p95_ns"@[1]);
    assert("p50_ns"@[1] != "p99_ns"@[1]);
    assert("p95_ns"@[2] != "p99_ns"@[2]);
}

/// The line of a session says under each name what the session is, and nothing under any other.
pub proof fn law_session_lines_say_everything(header: SessionHeader, name: Seq<char>)
    ensures
        ({
            let members = session_members(header);
            &&& members.dom().contains(name) <==> {
                ||| name == "type"@
                ||| name == "pid"@
                ||| name == "version"@
                ||| name == "started_ms"@
                ||| name == "direct_target"@
                ||| name == "render_device"@
                ||| name == "copy_device_role"@
                ||| name == "executable"@
                ||| name == "window_ms"@
                ||| name == "clock"@
                ||| name == "notes"@
            }
            &&& members["type"@] == JsonModel::Text("session"@)
            &&& members["pid"@] == JsonModel::Number(header.pid as nat)
            &&& members["version"@] == JsonModel::Text(header.version@)
            &&& members["started_ms"@] == JsonModel::Number(header.started_ms as nat)
            &&& members["direct_target"@] == JsonModel::Bool(header.direct_target)
            &&& members["render_device"@] == JsonModel::Number(header.render_device as nat)
            &&& header.copy_device == VulkanCopyDevice::Render ==> members["copy_device_role"@]
                == JsonModel::Text("Render"@)
            &&& header.copy_device == VulkanCopyDevice::Target ==> members["copy_device_role"@]
                == JsonModel::Text("Target"@)
            &&& header.executable matches Some(path) ==> members["executable"@] == JsonModel::Text(path@)
            &&& header.executable is None ==> members["executable"@] == JsonModel::Null
            &&& members["window_ms"@] == JsonModel::Number(WINDOW_MS as nat)
        }),
{
    lemma_session_names();
}

/// A summary says under each name what its histogram comes to, and nothing under any other.
pub proof fn law_summaries_say_everything(summary: HistogramSummary, name: Seq<char>)
    ensures
        ({
            let members = summary_members(summary);
            &&& members.dom().contains(name) <==> {
                ||| name == "count"@
                ||| name == "total_ns"@
                ||| name == "min_ns"@
                ||| name == "max_ns"@
                ||| name == "p01_ns"@
                ||| name == "p05_ns"@
                ||| name == "p50_ns"@
                ||| name == "p95_ns"@
                ||| name == "p99_ns"@
            }
            &&& members["count"@] == JsonModel::Number(summary.count as nat)
            &&& members["total_ns"@] == JsonModel::Number(summary.total_ns as nat)
            &&& members["min_ns"@] == JsonModel::Number(summary.min_ns as nat)
            &&& members["max_ns"@] == JsonModel::Number(summary.max_ns as nat)
            &&& members["p01_ns"@] == JsonModel::Number(summary.p01_ns as nat)
            &&& members["p05_ns"@] == JsonModel::Number(summary.p05_ns as nat)
            &&& members["p50_ns"@] == JsonModel::Number(summary.p50_ns as nat)
            &&& members["p95_ns"@] == JsonModel::Number(summary.p95_ns as nat)
            &&& members["p99_ns"@] == JsonModel::Number(summary.p99_ns as nat)
        }),
{
    lemma_summary_names();
}

/// The metrics of a stream hold every stage that it measured, with the summary of its last metric
/// of that stage, and no other name.
pub proof fn law_metrics_are_complete(metrics: Seq<Metric>, i: int, name: Seq<char>)
    ensures
        0 <= i < metrics.len() ==> metric_members(metrics).dom().contains(metrics[i].stage@),
        0 <= i < metrics.len() && (forall|j: int|
            i < j < metrics.len() ==> (#[trigger] metrics[j]).stage@ != metrics[i].stage@)
            ==> metric_members(metrics)[metrics[i].stage@] == JsonModel::Object(
            summary_members(metrics[i].summary),
        ),
        metric_members(metrics).dom().contains(name) ==> exists|j: int|
            0 <= j < metrics.len() && (#[trigger] metrics[j]).stage@ == name,
    decreases metrics.len(),
{
    if metrics.len() > 0 {
        let before = metrics.drop_last();
        law_metrics_are_complete(before, i, name);
        if i == metrics.len() - 1 {
        } else if 0 <= i < before.len() {
            assert(before[i] == metrics[i]);
            if forall|j: int|
                i < j < metrics.len() ==> (#[trigger] metrics[j]).stage@ != metrics[i].stage@ {
                assert(metrics[metrics.len() - 1].stage@ != metrics[i].stage@);
                assert forall|j: int| i < j < before.len() implies (#[trigger] before[j]).stage@
                    != before[i].stage@ by {
                    assert(before[j] == metrics[j]);
                }
            }
        }
        if metric_members(before).dom().contains(name) {
            let j = choose|j: int| 0 <= j < before.len() && (#[trigger] before[j]).stage@ == name;
            assert(metrics[j].stage@ == name);
        } else if metric_members(metrics).dom().contains(name) {
            assert(metrics[metrics.len() - 1].stage@ == name);
        }
    }
}

/// The counters of a stream hold every counter that it has, with the last value of it, and no
/// other name.
pub proof fn law_counters_are_complete(counters: Seq<CounterValue>, i: int, name: Seq<char>)
    ensures
        0 <= i < counters.len() ==> counter_members(counters).dom().contains(counters[i].counter@),
        0 <= i < counters.len() && (forall|j: int|
            i < j < counters.len() ==> (#[trigger] counters[j]).counter@ != counters[i].counter@)
            ==> counter_members(counters)[counters[i].counter@] == JsonModel::Number(
            counters[i].count as nat,
        ),
        counter_members(counters).dom().contains(name) ==> exists|j: int|
            0 <= j < counters.len() && (#[trigger] counters[j]).counter@ == name,
    decreases counters.len(),
{
    if counters.len() > 0 {
        let before = counters.drop_last();
        law_counters_are_complete(before, i, name);
        if i == counters.len() - 1 {
        } else if 0 <= i < before.len() {
            assert(before[i] == counters[i]);
            if forall|j: int|
                i < j < counters.len() ==> (#[trigger] counters[j]).counter@ != counters[i].counter@ {
                assert(counters[counters.len() - 1].counter@ != counters[i].counter@);
                assert forall|j: int| i < j < before.len() implies (#[trigger] before[j]).counter@
                    != before[i].counter@ by {
                    assert(before[j] == counters[j]);
                }
            }
        }
        if counter_members(before).dom().contains(name) {
            let j = choose|j: int| 0 <= j < before.len() && (#[trigger] before[j]).counter@ == name;
            assert(counters[j].counter@ == name);
        } else if counter_members(counters).dom().contains(name) {
            assert(counters[counters.len() - 1].counter@ == name);
        }
    }
}

/// The line of a stream says under each name what the window and the stream hold, and nothing
/// under any other.
pub proof fn law_window_lines_say_everything(
    pid: u32,
    window: Window,
    stream: StreamSnapshot,
    name: Seq<char>,
)
    ensures
        ({
            let members = row_members(pid, window, stream);
            &&& members.dom().contains(name) <==> {
                ||| name == "type"@
                ||| name == "pid"@
                ||| name == "epoch"@
                ||| name == "timestamp_ms"@
                ||| name == "elapsed_ns"@
                ||| name == "dropped_windows"@
                ||| name == "phase"@
                ||| name == "direct_target"@
                ||| name == "recording"@
                ||| name == "output"@
                ||| name == "device"@
                ||| name == "crtc"@
                ||| name == "metrics"@
                ||| name == "counters"@
            }
            &&& members["type"@] == JsonModel::Text("window"@)
            &&& members["pid"@] == JsonModel::Number(pid as nat)
            &&& members["epoch"@] == JsonModel::Number(window.epoch as nat)
            &&& members["timestamp_ms"@] == JsonModel::Number(window.timestamp_ms as nat)
            &&& members["elapsed_ns"@] == JsonModel::Number(window.elapsed_ns as nat)
            &&& members["dropped_windows"@] == JsonModel::Number(window.dropped_windows as nat)
            &&& members["phase"@] == JsonModel::Text(window.phase@)
            &&& members["direct_target"@] == JsonModel::Bool(window.direct_target)
            &&& members["recording"@] == JsonModel::Bool(window.recording)
            &&& members["output"@] == JsonModel::Text(stream.label@)
            &&& members["device"@] == JsonModel::Number(stream.device as nat)
            &&& members["crtc"@] == JsonModel::Number(stream.crtc as nat)
            &&& members["metrics"@] == JsonModel::Object(metric_members(stream.metrics@))
            &&& members["counters"@] == JsonModel::Object(counter_members(stream.counters@))
        }),
{
    lemma_row_names();
}

/// A window writes the lines of all its streams, one behind the other in their order, and nothing
/// else.
pub proof fn law_windows_write_every_stream(pid: u32, window: Window, count: nat)
    ensures
        window_text(pid, window, count) == Seq::new(
            count,
            |i: int| crate::json::object_line(row_members(pid, window, window.streams@[i])),
        ).flatten(),
    decreases count,
{
    let rows = Seq::new(
        count,
        |i: int| crate::json::object_line(row_members(pid, window, window.streams@[i])),
    );
    rows.lemma_flatten_and_flatten_alt_are_equivalent();
    if count == 0 {
        assert(rows =~= Seq::<Seq<u8>>::empty());
        assert(rows.flatten_alt() =~= Seq::<u8>::empty());
    } else {
        law_windows_write_every_stream(pid, window, (count - 1) as nat);
        let before = Seq::new(
            (count - 1) as nat,
            |i: int| crate::json::object_line(row_members(pid, window, window.streams@[i])),
        );
        before.lemma_flatten_and_flatten_alt_are_equivalent();
        assert(rows.drop_last() =~= before);
    }
}

/// A window bears the state of the report when it ends, and what its streams measured; it changes
/// nothing but where the next one begins. What became of it changes nothing but the count of lost
/// windows.
pub proof fn law_windows_bear_the_state(
    state: ReportStateView,
    now: Duration,
    streams: Seq<StreamSnapshot>,
    window: Window,
    delivery: Delivery,
)
    requires
        state.ends_window(now, streams, window),
    ensures
        window.epoch == state.epoch,
        window.phase@ == state.phase,
        window.direct_target == state.direct_target,
        window.recording == state.recording,
        window.dropped_windows == state.dropped,
        window.streams@ == streams,
        ({
            let after = state.after_window(now).after_delivery(delivery);
            &&& after.previous == now
            &&& after.epoch == state.epoch
            &&& after.phase == state.phase
            &&& after.direct_target == state.direct_target
            &&& after.recording == state.recording
            &&& after.startup_direct == state.startup_direct
            &&& delivery == Delivery::Disconnected ==> after.dropped == state.dropped
        }),
{
}

/// A report begins in its first trial, in the phase called startup, with recording on, with direct
/// writes as the session starts them, and with a window that begins at that moment.
pub proof fn law_reports_begin_fresh(startup_direct: bool, now: Duration)
    ensures
        ({
            let state = ReportStateView::initial(startup_direct, now);
            &&& state.epoch == 1
            &&& state.recording
            &&& state.previous == now
            &&& state.dropped == 0
            &&& state.phase == seq!['s', 't', 'a', 'r', 't', 'u', 'p']
            &&& state.direct_target == startup_direct
            &&& state.startup_direct == startup_direct
        }),
{
    reveal_strlit("startup");
    assert("startup"@ =~= seq!['s', 't', 'a', 'r', 't', 'u', 'p']);
}

/// The lines of bytes are counted by their line feeds alone.
pub proof fn law_lines_are_line_feeds(first: Seq<u8>, second: Seq<u8>, byte: u8)
    ensures
        lines(first + second) == lines(first) + lines(second),
        lines(seq![byte]) == (if byte == 10 {
            1nat
        } else {
            0
        }),
        lines(Seq::empty()) == 0,
{
    broadcast use vstd::seq_lib::group_to_multiset_ensures;

    vstd::seq_lib::lemma_multiset_commutative(first, second);
    assert(Seq::<u8>::empty().push(byte).to_multiset() =~= Seq::<u8>::empty().to_multiset().insert(
        byte,
    ));
}

/// Reporting ends only where the writer is gone: a lost window does not end it.
pub proof fn law_reporting_ends_with_its_writer(delivery: Delivery)
    ensures
        step_after(delivery) == TimerStep::Drop <==> delivery == Delivery::Disconnected,
{
}

} // verus!
