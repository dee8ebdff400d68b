use std::time::Duration;

use vulkan_bridge::bridge_config::VulkanCopyDevice;
use vulkan_bridge::control::{control_status_at, status_line};
use vulkan_bridge::report::{
    session_line, window_lines, HistogramSummary, Metric, ReportState, SessionHeader,
    StreamSnapshot, Window,
};
use vulkan_bridge::writer::{OpenMode, Report, Writer, WriterAction, WriterEvent, BACKLOG};

fn header() -> SessionHeader {
    SessionHeader {
        pid: 7,
        version: "25.11".to_owned(),
        started_ms: 1,
        direct_target: false,
        render_device: 2,
        copy_device: VulkanCopyDevice::Render,
        executable: None,
    }
}

fn window(epoch: u64) -> Window {
    Window {
        epoch,
        timestamp_ms: 3,
        elapsed_ns: 4,
        dropped_windows: 0,
        phase: "startup".to_owned(),
        direct_target: false,
        recording: true,
        streams: vec![StreamSnapshot {
            device: 5,
            crtc: 6,
            label: "eDP-1".to_owned(),
            metrics: vec![Metric {
                stage: "QueueLead".to_owned(),
                summary: HistogramSummary {
                    count: 1,
                    total_ns: 1,
                    min_ns: 1,
                    max_ns: 1,
                    p01_ns: 1,
                    p05_ns: 1,
                    p50_ns: 1,
                    p95_ns: 1,
                    p99_ns: 1,
                },
            }],
            counters: vec![],
        }],
    }
}

fn bytes(action: WriterAction) -> Vec<u8> {
    match action {
        WriterAction::Write(bytes) => bytes,
        action => panic!("unexpected {action:?}"),
    }
}

#[test]
fn reports_follow_the_header() {
    assert_eq!(BACKLOG, 2);
    let (mut writer, action) = Writer::new(header());
    let mode = OpenMode {
        create: true,
        append: true,
        permissions: 0o600,
    };
    assert!(matches!(action, WriterAction::Open(asked) if asked == mode));
    assert!(!writer.ready());
    let head = bytes(writer.step(WriterEvent::Opened(true)));
    assert_eq!(head, session_line(&header()));
    assert!(!writer.ready());
    assert!(matches!(writer.step(WriterEvent::Written(true)), WriterAction::Receive));
    assert!(writer.ready());

    let lines = bytes(writer.step(WriterEvent::Received(Report::Window(window(3)))));
    assert_eq!(lines, window_lines(7, &window(3)));
    assert!(writer.ready());
    assert!(matches!(writer.step(WriterEvent::Written(true)), WriterAction::Receive));

    let mut state = ReportState::new(false, Duration::ZERO);
    let outcome = state.control(b"mark a", Duration::ZERO);
    let line = bytes(writer.step(WriterEvent::Received(Report::Control(control_status_at(
        &state, &outcome, 7, true, 9,
    )))));
    assert_eq!(line, status_line(&control_status_at(&state, &outcome, 7, true, 9)));
    writer.step(WriterEvent::Written(true));
    assert!(matches!(writer.step(WriterEvent::Closed), WriterAction::Stop(false)));
    assert!(!writer.ready());
}

#[test]
fn the_first_failure_ends_the_writer() {
    let (mut writer, _) = Writer::new(header());
    assert!(matches!(writer.step(WriterEvent::Opened(false)), WriterAction::Stop(true)));
    assert!(!writer.ready());
    assert!(matches!(writer.step(WriterEvent::Opened(true)), WriterAction::Stop(true)));

    let (mut writer, _) = Writer::new(header());
    writer.step(WriterEvent::Opened(true));
    assert!(matches!(writer.step(WriterEvent::Written(false)), WriterAction::Stop(true)));
    assert!(!writer.ready());

    let (mut writer, _) = Writer::new(header());
    writer.step(WriterEvent::Opened(true));
    writer.step(WriterEvent::Written(true));
    writer.step(WriterEvent::Received(Report::Window(window(1))));
    assert!(matches!(writer.step(WriterEvent::Written(false)), WriterAction::Stop(true)));
    assert!(!writer.ready());
}
