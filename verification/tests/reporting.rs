use std::time::Duration;

use vulkan_bridge::bridge_config::VulkanCopyDevice;
use vulkan_bridge::control::{
    control_status, control_status_at, is_private, is_recorded, parse_command, reply, socket_name,
    status_line, Batch, BatchStep, Command, ControlError, DirectoryFacts, Effect, Outcome, Received,
    BATCH_LIMIT, DATAGRAM_LIMIT, LABEL_LIMIT,
};
use vulkan_bridge::pacing::{queue_stamp, Counter, Record, SurfaceTiming};
use vulkan_bridge::report::{
    session_line, window_length, window_lines, CounterValue, Delivery, HistogramSummary, Metric,
    ReportState, SessionHeader, StreamSnapshot, TimerStep, Window,
};
use vulkan_bridge::text::{decimal_text, first_of, same_bytes, same_text, strip_prefix, trim};

fn at(seconds: u64) -> Duration {
    Duration::from_secs(seconds)
}

fn stream(crtc: u32) -> StreamSnapshot {
    StreamSnapshot {
        device: 57_984,
        crtc,
        label: "eDP-1".to_owned(),
        metrics: vec![Metric {
            stage: "QueueLead".to_owned(),
            summary: HistogramSummary {
                count: 2,
                total_ns: 30,
                min_ns: 10,
                max_ns: 20,
                p01_ns: 11,
                p05_ns: 12,
                p50_ns: 13,
                p95_ns: 14,
                p99_ns: 15,
            },
        }],
        counters: vec![
            CounterValue {
                counter: "PresentLate".to_owned(),
                count: 1,
            },
            CounterValue {
                counter: "PresentEvents".to_owned(),
                count: 9,
            },
        ],
    }
}

fn text(bytes: Vec<u8>) -> String {
    String::from_utf8(bytes).unwrap()
}

#[test]
fn session_line_is_exact() {
    let mut header = SessionHeader {
        pid: 42,
        version: "25.11 \"dev\"".to_owned(),
        started_ms: 1_700_000_000_123,
        direct_target: true,
        render_device: 57_984,
        copy_device: VulkanCopyDevice::Target,
        executable: Some("/usr/bin/niri".to_owned()),
    };
    assert_eq!(
        text(session_line(&header)),
        concat_lines(&[
            r#"{"clock":"CPU wall / CLOCK_MONOTONIC presentation","#,
            r#""copy_device_role":"Target","direct_target":true,"executable":"/usr/bin/niri","#,
            r#""notes":"nested durations overlap; histogram quantiles are upper bounds; sequence gaps may be idle","#,
            r#""pid":42,"render_device":57984,"started_ms":1700000000123,"type":"session","#,
            r#""version":"25.11 \"dev\"","window_ms":5000}"#,
        ])
    );
    header.executable = None;
    header.copy_device = VulkanCopyDevice::Render;
    let line = text(session_line(&header));
    assert!(line.contains(r#""executable":null"#));
    assert!(line.contains(r#""copy_device_role":"Render""#));
}

fn concat_lines(parts: &[&str]) -> String {
    let mut line = parts.concat();
    line.push('\n');
    line
}

#[test]
fn window_lines_are_exact() {
    let window = Window {
        epoch: 3,
        timestamp_ms: 1_700_000_000_456,
        elapsed_ns: 5_000_000_001,
        dropped_windows: 2,
        phase: "direct on".to_owned(),
        direct_target: false,
        recording: true,
        streams: vec![stream(55), stream(56)],
    };
    let row = |crtc: &str| {
        concat_lines(&[
            r#"{"counters":{"PresentEvents":9,"PresentLate":1},"crtc":"#,
            crtc,
            r#","device":57984,"direct_target":false,"dropped_windows":2,"elapsed_ns":5000000001,"epoch":3,"#,
            r#""metrics":{"QueueLead":{"count":2,"max_ns":20,"min_ns":10,"p01_ns":11,"p05_ns":12,"p50_ns":13,"#,
            r#""p95_ns":14,"p99_ns":15,"total_ns":30}},"output":"eDP-1","phase":"direct on","pid":42,"#,
            r#""recording":true,"timestamp_ms":1700000000456,"type":"window"}"#,
        ])
    };
    let lines = text(window_lines(42, &window));
    assert_eq!(lines, row("55") + &row("56"));
    let quiet = Window {
        streams: vec![],
        ..window
    };
    assert!(window_lines(42, &quiet).is_empty());
}

#[test]
fn texts_cannot_break_a_line() {
    let window = Window {
        epoch: 1,
        timestamp_ms: 0,
        elapsed_ns: 0,
        dropped_windows: 0,
        phase: "startup".to_owned(),
        direct_target: false,
        recording: true,
        streams: vec![StreamSnapshot {
            label: "a\nb\u{e4}".to_owned(),
            metrics: vec![],
            counters: vec![],
            ..stream(1)
        }],
    };
    let line = text(window_lines(1, &window));
    assert!(line.contains(r#""output":"a\nbä""#));
    assert!(line.contains(r#""counters":{}"#) && line.contains(r#""metrics":{}"#));
    assert_eq!(line.matches('\n').count(), 1);
}

#[test]
fn repeated_names_keep_the_last_value() {
    let mut snapshot = stream(1);
    snapshot.counters[1].counter = "PresentLate".to_owned();
    let window = Window {
        epoch: 1,
        timestamp_ms: 0,
        elapsed_ns: 0,
        dropped_windows: 0,
        phase: String::new(),
        direct_target: false,
        recording: true,
        streams: vec![snapshot],
    };
    let line = text(window_lines(1, &window));
    assert!(line.contains(r#""counters":{"PresentLate":9}"#));
}

#[test]
fn windows_follow_one_another() {
    assert_eq!(window_length(), Duration::from_secs(5));
    let mut state = ReportState::new(true, at(10));
    let window = state.window_at(at(15), 77, vec![stream(1)]);
    assert_eq!(window.epoch, 1);
    assert_eq!(window.timestamp_ms, 77);
    assert_eq!(window.elapsed_ns, 5_000_000_000);
    assert_eq!(window.dropped_windows, 0);
    assert_eq!(window.phase, "startup");
    assert!(window.direct_target && window.recording);
    assert_eq!(window.streams.len(), 1);
    assert_eq!(state.delivered(Delivery::Full), TimerStep::Again);
    assert_eq!(state.window_at(at(15), 78, vec![]).dropped_windows, 1);
    assert_eq!(state.delivered(Delivery::Full), TimerStep::Again);
    let window = state.window(at(21), vec![]);
    assert_eq!(window.elapsed_ns, 6_000_000_000);
    assert_eq!(window.dropped_windows, 2);
    assert!(window.timestamp_ms > 1_500_000_000_000);
    assert_eq!(state.delivered(Delivery::Sent), TimerStep::Again);
    assert_eq!(state.window_at(at(20), 0, vec![]).elapsed_ns, 0);
    assert_eq!(state.dropped, 0);
    assert_eq!(state.delivered(Delivery::Disconnected), TimerStep::Drop);
    state.begin_window(at(30));
    assert_eq!(state.window_at(at(31), 0, vec![]).elapsed_ns, 1_000_000_000);
    state.dropped = u64::MAX;
    state.delivered(Delivery::Full);
    assert_eq!(state.dropped, u64::MAX);
}

#[test]
fn commands_are_told_apart() {
    assert!(matches!(parse_command("status"), Ok(Command::Status)));
    assert!(matches!(parse_command("record on"), Ok(Command::Record(true))));
    assert!(matches!(parse_command("record off"), Ok(Command::Record(false))));
    assert!(matches!(parse_command("direct on"), Ok(Command::Direct(true))));
    assert!(matches!(parse_command("direct off"), Ok(Command::Direct(false))));
    assert!(
        matches!(parse_command("mark direct_on-btop closed.2"), Ok(Command::Mark(label)) if label == "direct_on-btop closed.2")
    );
    for bad in ["mark ", "mark a/b", "mark \u{e4}", "mark a\tb"] {
        assert_eq!(parse_command(bad).unwrap_err(), ControlError::Label);
    }
    let longest = "x".repeat(LABEL_LIMIT);
    assert!(parse_command(&format!("mark {longest}")).is_ok());
    assert_eq!(
        parse_command(&format!("mark {longest}x")).unwrap_err(),
        ControlError::Label
    );
    for unknown in ["", "Status", "status ", "mark", "record", "record  on", "direct maybe"] {
        assert_eq!(parse_command(unknown).unwrap_err(), ControlError::Unrecognized);
    }
}

#[test]
fn status_changes_nothing() {
    let mut state = ReportState::new(false, at(1));
    let outcome = state.control(b" status\n", at(2));
    assert_eq!(outcome.command, "status");
    assert_eq!(outcome.error, None);
    assert_eq!(outcome.effect, Effect::Nothing);
    assert!(!is_recorded(&outcome));
    assert_eq!(state.epoch, 1);
    assert_eq!(state.previous, at(1));
}

#[test]
fn accepted_changes_begin_a_trial() {
    let mut state = ReportState::new(true, at(1));
    let outcome = state.control(b"mark btop open", at(2));
    assert_eq!(outcome.effect, Effect::Restart);
    assert!(is_recorded(&outcome));
    assert_eq!((state.epoch, state.phase.as_str()), (2, "btop open"));
    assert_eq!(state.previous, at(2));
    assert_eq!(state.control(b"record off", at(3)).effect, Effect::Record(false));
    assert!(!state.recording);
    assert_eq!(state.epoch, 3);
    assert_eq!(state.control(b"record off", at(4)).effect, Effect::Record(false));
    assert_eq!(state.epoch, 4);
    assert_eq!(state.control(b"direct off", at(5)).effect, Effect::Direct(false));
    assert!(!state.direct_target && state.startup_direct);
    assert_eq!(state.control(b"direct on", at(6)).effect, Effect::Direct(true));
    assert!(state.direct_target);
    assert_eq!(state.epoch, 6);
    state.epoch = u64::MAX;
    state.control(b"record on", at(7));
    assert_eq!(state.epoch, 0);
}

#[test]
fn refused_datagrams_change_nothing() {
    let mut state = ReportState::new(false, at(1));
    let cases: [(&[u8], &str, ControlError); 5] = [
        (b"direct on", "direct on", ControlError::DirectUnavailable),
        (b"reboot", "reboot", ControlError::Unrecognized),
        (b"mark /", "mark /", ControlError::Label),
        (b"\xff\xfe", "invalid", ControlError::Invalid),
        (&[b' '; DATAGRAM_LIMIT], "invalid", ControlError::Invalid),
    ];
    for (datagram, command, error) in cases {
        let outcome = state.control(datagram, at(2));
        assert_eq!(outcome.command, command);
        assert_eq!(outcome.error, Some(error));
        assert_eq!(outcome.effect, Effect::Nothing);
        assert!(!is_recorded(&outcome));
        assert_eq!((state.epoch, state.previous), (1, at(1)));
        assert!(!state.direct_target && state.recording);
        assert_eq!(state.phase, "startup");
    }
    // One byte less is read to its end.
    let mut almost = vec![b' '; DATAGRAM_LIMIT - 1];
    almost[..6].copy_from_slice(b"status");
    assert_eq!(state.control(&almost, at(2)).error, None);
}

#[test]
fn refusals_are_worded() {
    assert_eq!(ControlError::Invalid.message(), "invalid or oversized command");
    assert_eq!(ControlError::Label.message(), "invalid phase label");
    assert_eq!(
        ControlError::DirectUnavailable.message(),
        "restart with NIRI_VK_DIRECT_TARGET=1 to enable transfer-policy comparisons"
    );
    assert_eq!(ControlError::Unrecognized.message(), "unrecognized command");
}

#[test]
fn answers_are_exact() {
    let mut state = ReportState::new(false, at(1));
    let outcome = state.control(b"mark a", at(2));
    let status = control_status_at(&state, &outcome, 42, true, 99);
    let expected = concat_lines(&[
        r#"{"accepted":true,"allocation_policy":"preserved; capabilities may renegotiate buffers","#,
        r#""command":"mark a","direct_target":false,"epoch":2,"error":null,"phase":"a","pid":42,"#,
        r#""recording":true,"timestamp_ms":99,"type":"control","writer_ready":true}"#,
    ]);
    assert_eq!(text(status_line(&status)), expected);
    assert_eq!(text(reply(true, &status).unwrap()), expected.trim_end());
    assert_eq!(reply(false, &status), None);

    let refused = Outcome {
        command: "x".to_owned(),
        error: Some(ControlError::Unrecognized),
        effect: Effect::Nothing,
    };
    let status = control_status(&state, &refused, 42, false);
    let line = text(status_line(&status));
    assert!(line.contains(r#""accepted":false"#));
    assert!(line.contains(r#""error":"unrecognized command""#));
    assert!(line.contains(r#""writer_ready":false"#));
    assert!(status.timestamp_ms > 1_500_000_000_000);
}

#[test]
fn frames_of_an_earlier_trial_are_ignored() {
    let mut state = ReportState::new(false, at(1));
    let stamp = queue_stamp(Some(at(1)), state.epoch);
    state.control(b"mark next", at(2));
    let mut surface = SurfaceTiming::default();
    surface.event(true, 1, at(3), at(3));
    assert_eq!(
        surface.presented(true, state.epoch, 1, at(3), stamp, None),
        [Record::Count(Counter::TransitionPresentationsIgnored, 1)]
    );
}

#[test]
fn a_wake_up_handles_a_bounded_batch() {
    let mut batch = Batch::new();
    for _ in 1..BATCH_LIMIT {
        assert_eq!(batch.step(Received::Datagram), BatchStep::Read);
    }
    assert_eq!(batch.step(Received::Datagram), BatchStep::Wait);
    let mut batch = Batch::new();
    assert_eq!(batch.step(Received::Datagram), BatchStep::Read);
    assert_eq!(batch.step(Received::Nothing), BatchStep::Wait);
    assert_eq!(Batch::new().step(Received::Failed), BatchStep::Remove);
}

#[test]
fn the_socket_needs_a_private_directory() {
    let private = DirectoryFacts {
        is_directory: true,
        owner: 1000,
        mode: 0o40700,
    };
    assert!(is_private(&private, 1000));
    assert!(!is_private(&private, 0));
    for mode in [0o40710, 0o40701, 0o40770, 0o41777] {
        assert!(!is_private(&DirectoryFacts { mode, ..private }, 1000));
    }
    assert!(!is_private(
        &DirectoryFacts {
            is_directory: false,
            ..private
        },
        1000
    ));
    assert_eq!(socket_name(0), "niri-pacing-0.sock");
    assert_eq!(socket_name(2_749_454), "niri-pacing-2749454.sock");
    assert_eq!(socket_name(u32::MAX), "niri-pacing-4294967295.sock");
}

#[test]
fn white_space_is_that_of_unicode() {
    for code in 0..=0x10_ffff_u32 {
        if let Some(c) = char::from_u32(code) {
            let spaced = format!("{c}x{c}");
            assert_eq!(trim(&spaced), spaced.trim());
        }
    }
    assert_eq!(trim(""), "");
    assert_eq!(trim(" \t\n "), "");
    assert_eq!(trim(" a b "), "a b");
}

#[test]
fn texts_and_bytes_are_compared() {
    assert!(same_text("\u{e4}", "\u{e4}") && !same_text("a", "A") && same_text("", ""));
    assert!(same_bytes(b"ab", b"ab") && !same_bytes(b"ab", b"abc") && !same_bytes(b"ab", b"ac"));
    assert_eq!(strip_prefix("mark x", "mark "), Some("x"));
    assert_eq!(strip_prefix("mark", "mark "), None);
    assert_eq!(strip_prefix("\u{e4}b", "\u{e4}"), Some("b"));
}

#[test]
fn decimal_digits_are_those_of_std() {
    for number in [0, 9, 10, 11, 99, 100, 1_000, 1_234_567_890, u32::MAX] {
        assert_eq!(decimal_text(number), number.to_string());
    }
}

#[test]
fn the_first_place_of_a_name_is_found() {
    let names = vec!["a".to_owned(), "b".to_owned(), "a".to_owned()];
    assert_eq!(first_of(&names, "a"), Some(0));
    assert_eq!(first_of(&names, "b"), Some(1));
    assert_eq!(first_of(&names, "c"), None);
    assert_eq!(first_of(&Vec::new(), "a"), None);
}
