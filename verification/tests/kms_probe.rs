use vulkan_bridge::kms_probe::{
    check_preflight, negotiate_source, opt_in, probe_formats, setup_delay, source_pattern, BufferFacts,
    ConnectorFacts, OptIn, PreflightFacts, Probe, ProbeAction, ProbeAnswer, ProbeError,
    ProbeFailure, ProbeStage, ProbeTrigger, Round, SetupEvent, SourceFacts, SourcePattern,
    Submission, TriggerAction, LINEAR,
};
use vulkan_bridge::transfer_formats::{FormatModifier, Fourcc, Size, ABGR2101010, ABGR8888};

const FORMAT: Fourcc = Fourcc { code: ABGR8888 };
const MODE: Size = Size { w: 1920, h: 1080 };

fn facts() -> PreflightFacts {
    PreflightFacts {
        session_active: true,
        known_output: true,
        device_present: true,
        atomic: true,
        surface_present: true,
        legacy: false,
        commit_pending: false,
        connector_active: true,
        connector: ConnectorFacts::Connected,
        same_descriptor: true,
        width: 1920,
        height: 1080,
    }
}

fn drawable(modifiers: &[u64]) -> Option<Vec<FormatModifier>> {
    Some(
        modifiers
            .iter()
            .map(|modifier| FormatModifier {
                format: FORMAT,
                modifier: *modifier,
            })
            .collect(),
    )
}

fn source() -> SourceFacts {
    SourceFacts {
        modifiers: Some(vec![9, 5, 2]),
        devices_listed: true,
        primary_present: true,
        formats: drawable(&[2, 5]),
    }
}

fn buffer(modifier: u64) -> BufferFacts {
    BufferFacts {
        format: FORMAT,
        modifier,
        planes: 1,
        size: MODE,
    }
}

/// What a probe reports where everything succeeds.
fn success(action: &ProbeAction) -> ProbeAnswer {
    match action {
        ProbeAction::ReadPreflight => ProbeAnswer::Preflight(facts()),
        ProbeAction::QuerySource(..) => ProbeAnswer::Source(source()),
        ProbeAction::AllocateSource(..) => ProbeAnswer::SourceAllocated(Some(buffer(5))),
        ProbeAction::AllocateScanout(..) => ProbeAnswer::ScanoutAllocated(Some(LINEAR)),
        ProbeAction::ExportScanout => ProbeAnswer::ScanoutExported(Some(buffer(LINEAR))),
        ProbeAction::CreateFramebuffer => ProbeAnswer::FramebufferCreated(true),
        ProbeAction::RenderSource(_) => ProbeAnswer::Rendered(true),
        ProbeAction::Copy => ProbeAnswer::Copied(true),
        ProbeAction::Retire(_) => ProbeAnswer::Retired,
        ProbeAction::InspectSurface => ProbeAnswer::Surface(false, false),
        ProbeAction::Test(_) => ProbeAnswer::Tested(true),
        ProbeAction::ExportFence => ProbeAnswer::FenceExported(true),
        ProbeAction::ReadCompletion => ProbeAnswer::Completion(false),
        ProbeAction::Finish(_) => panic!("nothing to report"),
    }
}

/// Runs a probe to its end, with `replace` in place of the answers to some actions. Returns the
/// actions and the failure.
fn run(
    mut replace: impl FnMut(usize, &ProbeAction) -> Option<ProbeAnswer>,
) -> (Probe, Vec<String>, Option<ProbeFailure>) {
    let mut probe = Probe::new(FORMAT);
    let mut log = Vec::new();
    for step in 0..40 {
        let action = probe.action();
        log.push(format!("{action:?}"));
        if let ProbeAction::Finish(failure) = action {
            return (probe, log, failure);
        }
        let answer = replace(step, &action).unwrap_or_else(|| success(&action));
        probe.step(answer);
    }
    panic!("the probe did not end");
}

fn failure(stage: ProbeStage, error: ProbeError) -> Option<ProbeFailure> {
    Some(ProbeFailure { stage, error })
}

#[test]
fn a_probe_that_succeeds_runs_both_rounds() {
    let (probe, log, failure) = run(|_, _| None);
    assert_eq!(failure, None);
    assert_eq!(
        log,
        [
            "ReadPreflight",
            "QuerySource(Fourcc { code: 875708993 }, 1920, 1080)",
            "AllocateSource(Fourcc { code: 875708993 }, 1920, 1080, [5, 2])",
            "AllocateScanout(Fourcc { code: 875708993 }, 1920, 1080)",
            "ExportScanout",
            "CreateFramebuffer",
            "RenderSource(First)",
            "Copy",
            "Retire(Copy(First))",
            "InspectSurface",
            "Test(false)",
            "RenderSource(Second)",
            "Copy",
            "ExportFence",
            "ReadCompletion",
            "InspectSurface",
            "Test(true)",
            "Retire(Copy(Second))",
            "Retire(Render(Second))",
            "Retire(Render(First))",
            "Finish(None)",
        ]
    );
    assert!(probe.accepted_without_fence && probe.native_fence);
    assert_eq!(probe.complete_at_test, Some(false));
    assert_eq!(probe.actual_modifier, Some(LINEAR));
    assert!(probe.outstanding.is_empty());
}

#[test]
fn preflight_names_the_first_obstacle() {
    assert_eq!(check_preflight(&facts()), Ok(()));
    let cases = [
        (PreflightFacts { session_active: false, legacy: true, ..facts() }, ProbeError::SessionInactive),
        (PreflightFacts { known_output: false, ..facts() }, ProbeError::UnknownOutput),
        (PreflightFacts { device_present: false, ..facts() }, ProbeError::DeviceGone),
        (PreflightFacts { atomic: false, ..facts() }, ProbeError::NotAtomic),
        (PreflightFacts { surface_present: false, ..facts() }, ProbeError::SurfaceGone),
        (PreflightFacts { legacy: true, ..facts() }, ProbeError::LegacySurface),
        (PreflightFacts { commit_pending: true, ..facts() }, ProbeError::ChangesPending),
        (PreflightFacts { connector_active: false, ..facts() }, ProbeError::ConnectorInactive),
        (
            PreflightFacts { connector: ConnectorFacts::Unreadable, ..facts() },
            ProbeError::ConnectorUnreadable,
        ),
        (
            PreflightFacts { connector: ConnectorFacts::Disconnected, ..facts() },
            ProbeError::ConnectorDisconnected,
        ),
        (PreflightFacts { same_descriptor: false, ..facts() }, ProbeError::DescriptorsDiffer),
        (PreflightFacts { width: 0, ..facts() }, ProbeError::EmptyMode),
        (PreflightFacts { height: 0, ..facts() }, ProbeError::EmptyMode),
    ];
    for (facts, error) in cases {
        assert_eq!(check_preflight(&facts), Err(error));
        let (_, log, failed) = run(|_, action| match action {
            ProbeAction::ReadPreflight => Some(ProbeAnswer::Preflight(facts)),
            _ => None,
        });
        assert_eq!(failed, failure(ProbeStage::Preflight, error));
        assert_eq!(log.len(), 2);
    }
}

#[test]
fn sources_need_a_shared_modifier() {
    assert_eq!(negotiate_source(FORMAT, &source()), Ok(vec![5, 2]));
    let cases = [
        (SourceFacts { modifiers: None, ..source() }, ProbeError::SourceQueryFailed),
        (SourceFacts { devices_listed: false, ..source() }, ProbeError::DevicesUnavailable),
        (SourceFacts { primary_present: false, ..source() }, ProbeError::PrimaryUnavailable),
        (SourceFacts { formats: None, ..source() }, ProbeError::NoRenderFormats),
        (SourceFacts { formats: drawable(&[1]), ..source() }, ProbeError::NoSharedModifiers),
    ];
    for (facts, error) in cases {
        assert_eq!(negotiate_source(FORMAT, &facts), Err(error));
    }
    let other = Fourcc { code: ABGR2101010 };
    assert_eq!(negotiate_source(other, &source()), Err(ProbeError::NoSharedModifiers));
}

#[test]
fn failures_before_any_work_end_at_once() {
    let cases: [(fn(&ProbeAction) -> Option<ProbeAnswer>, ProbeStage, ProbeError); 9] = [
        (
            |action| match action {
                ProbeAction::QuerySource(..) => Some(ProbeAnswer::Source(SourceFacts {
                    modifiers: None,
                    ..source()
                })),
                _ => None,
            },
            ProbeStage::SourceAllocation,
            ProbeError::SourceQueryFailed,
        ),
        (
            |action| match action {
                ProbeAction::AllocateSource(..) => Some(ProbeAnswer::SourceAllocated(None)),
                _ => None,
            },
            ProbeStage::SourceAllocation,
            ProbeError::SourceAllocationFailed,
        ),
        (
            |action| match action {
                ProbeAction::AllocateSource(..) => {
                    Some(ProbeAnswer::SourceAllocated(Some(buffer(9))))
                }
                _ => None,
            },
            ProbeStage::SourceAllocation,
            ProbeError::SourceMismatch,
        ),
        (
            |action| match action {
                ProbeAction::AllocateScanout(..) => Some(ProbeAnswer::ScanoutAllocated(None)),
                _ => None,
            },
            ProbeStage::ScanoutAllocation,
            ProbeError::ScanoutAllocationFailed,
        ),
        (
            |action| match action {
                ProbeAction::ExportScanout => Some(ProbeAnswer::ScanoutExported(None)),
                _ => None,
            },
            ProbeStage::ScanoutAllocation,
            ProbeError::ScanoutExportFailed,
        ),
        (
            |action| match action {
                ProbeAction::ExportScanout => Some(ProbeAnswer::ScanoutExported(Some(buffer(5)))),
                _ => None,
            },
            ProbeStage::ScanoutAllocation,
            ProbeError::ScanoutMismatch,
        ),
        (
            |action| match action {
                ProbeAction::ExportScanout => Some(ProbeAnswer::ScanoutExported(Some(BufferFacts {
                    planes: 2,
                    ..buffer(LINEAR)
                }))),
                _ => None,
            },
            ProbeStage::ScanoutAllocation,
            ProbeError::ScanoutMismatch,
        ),
        (
            |action| match action {
                ProbeAction::ExportScanout => Some(ProbeAnswer::ScanoutExported(Some(BufferFacts {
                    size: Size { w: 1920, h: 1088 },
                    ..buffer(LINEAR)
                }))),
                _ => None,
            },
            ProbeStage::ScanoutAllocation,
            ProbeError::SizeMismatch,
        ),
        (
            |action| match action {
                ProbeAction::CreateFramebuffer => Some(ProbeAnswer::FramebufferCreated(false)),
                _ => None,
            },
            ProbeStage::FramebufferCreation,
            ProbeError::FramebufferFailed,
        ),
    ];
    for (replace, stage, error) in cases {
        let (_, log, failed) = run(|_, action| replace(action));
        assert_eq!(failed, failure(stage, error));
        assert!(!log.iter().any(|action| action.starts_with("Retire")));
    }
}

#[test]
fn submitted_work_is_retired_after_a_failure() {
    // The place of each action in a run that succeeds.
    let cases = [
        (6, ProbeAnswer::Rendered(false), ProbeStage::FirstSourceRender, ProbeError::RenderFailed, 0),
        (7, ProbeAnswer::Copied(false), ProbeStage::FirstCopy, ProbeError::CopyFailed, 1),
        (9, ProbeAnswer::Surface(true, false), ProbeStage::CompletedCopyNoFence, ProbeError::LegacySurface, 1),
        (9, ProbeAnswer::Surface(false, true), ProbeStage::CompletedCopyNoFence, ProbeError::ChangesPending, 1),
        (10, ProbeAnswer::Tested(false), ProbeStage::CompletedCopyNoFence, ProbeError::TestRefused, 1),
        (11, ProbeAnswer::Rendered(false), ProbeStage::SecondSourceRender, ProbeError::RenderFailed, 1),
        (12, ProbeAnswer::Copied(false), ProbeStage::SecondCopy, ProbeError::CopyFailed, 2),
        (13, ProbeAnswer::FenceExported(false), ProbeStage::NativeCopyFenceExport, ProbeError::NoNativeFence, 3),
        (15, ProbeAnswer::Surface(true, false), ProbeStage::NativeCopyFenceTest, ProbeError::LegacySurface, 3),
        (16, ProbeAnswer::Tested(false), ProbeStage::NativeCopyFenceTest, ProbeError::TestRefused, 3),
    ];
    for (place, answer, stage, error, retired) in cases {
        let mut answer = Some(answer);
        let (probe, log, failed) = run(|step, _| if step == place { answer.take() } else { None });
        assert_eq!(failed, failure(stage, error));
        assert_eq!(
            log[place + 1..].iter().filter(|action| action.starts_with("Retire")).count(),
            retired
        );
        assert!(probe.outstanding.is_empty());
    }
}

#[test]
fn a_refused_fence_still_retires_its_copy_first() {
    let mut probe = Probe::new(FORMAT);
    loop {
        let action = probe.action();
        if let ProbeAction::Test(true) = action {
            probe.step(ProbeAnswer::Tested(false));
            break;
        }
        probe.step(success(&action));
    }
    assert!(matches!(
        probe.action(),
        ProbeAction::Retire(Submission::Copy(Round::Second))
    ));
}

#[test]
fn an_interrupted_wait_is_no_completion() {
    let mut interruptions = 0;
    let (probe, log, failed) = run(|step, action| match action {
        ProbeAction::Retire(_) if step % 2 == 0 => {
            interruptions += 1;
            Some(ProbeAnswer::Interrupted)
        }
        _ => None,
    });
    assert_eq!(failed, None);
    assert!(interruptions > 0 && probe.outstanding.is_empty());
    assert_eq!(log.len(), 21 + interruptions);
    for submission in ["Copy(First)", "Copy(Second)", "Render(Second)", "Render(First)"] {
        assert!(log.contains(&format!("Retire({submission})")));
    }
}

#[test]
fn answers_that_were_not_asked_for_are_ignored() {
    let mut probe = Probe::new(FORMAT);
    probe.step(ProbeAnswer::Tested(true));
    probe.step(ProbeAnswer::Retired);
    assert!(matches!(probe.action(), ProbeAction::ReadPreflight));
    assert_eq!(probe.stage(), ProbeStage::Preflight);
}

#[test]
fn both_formats_are_probed() {
    assert_eq!(
        probe_formats(),
        [Fourcc { code: ABGR8888 }, Fourcc { code: ABGR2101010 }]
    );
    assert_eq!(setup_delay(), std::time::Duration::from_secs(2));
}

#[test]
fn rounds_swap_the_colours() {
    assert_eq!(
        source_pattern(MODE, Round::First),
        SourcePattern {
            background: 0,
            foreground: 1,
            corner: Size { w: 640, h: 432 },
        }
    );
    assert_eq!(
        source_pattern(Size { w: 5, h: 7 }, Round::Second),
        SourcePattern {
            background: 1,
            foreground: 0,
            corner: Size { w: 1, h: 2 },
        }
    );
}

#[test]
fn the_opt_in_names_an_output() {
    assert_eq!(opt_in(None), OptIn::Off);
    assert_eq!(opt_in(Some(vec![])), OptIn::Empty);
    assert_eq!(opt_in(Some(vec![0xc3])), OptIn::NotText);
    assert_eq!(
        opt_in(Some(b"eDP-1".to_vec())),
        OptIn::Armed("eDP-1".to_owned())
    );
}

#[test]
fn a_trigger_fires_once() {
    let outputs = vec!["DP-1".to_owned(), "eDP-1".to_owned(), "eDP-1".to_owned()];
    let mut trigger = ProbeTrigger::new("eDP-1".to_owned());
    assert_eq!(
        trigger.receive(SetupEvent::Ready, &outputs),
        TriggerAction::Probe(1)
    );
    assert_eq!(
        trigger.receive(SetupEvent::Ready, &outputs),
        TriggerAction::Ignore
    );
    let cases = [
        (SetupEvent::Closed, TriggerAction::ReportClosed),
        (SetupEvent::Failed, TriggerAction::ReportFailed),
        (SetupEvent::Ready, TriggerAction::ReportMissing),
    ];
    for (event, action) in cases {
        let mut trigger = ProbeTrigger::new("HDMI-A-1".to_owned());
        assert_eq!(trigger.receive(event, &outputs), action);
        assert_eq!(
            trigger.receive(SetupEvent::Ready, &outputs),
            TriggerAction::Ignore
        );
    }
}

#[test]
fn reports_name_the_stages() {
    let names = [
        (ProbeStage::Preflight, "preflight"),
        (ProbeStage::SourceAllocation, "source_allocation"),
        (ProbeStage::ScanoutAllocation, "scanout_allocation"),
        (ProbeStage::FramebufferCreation, "framebuffer_creation"),
        (ProbeStage::FirstSourceRender, "first_source_render"),
        (ProbeStage::FirstCopy, "first_copy"),
        (ProbeStage::CompletedCopyNoFence, "completed_copy_no_fence"),
        (ProbeStage::SecondSourceRender, "second_source_render"),
        (ProbeStage::SecondCopy, "second_copy"),
        (ProbeStage::NativeCopyFenceExport, "native_copy_fence_export"),
        (ProbeStage::NativeCopyFenceTest, "native_copy_fence_test"),
    ];
    for (stage, name) in names {
        assert_eq!(stage.name(), name);
    }
    let setup = [
        (TriggerAction::Ignore, None),
        (TriggerAction::ReportClosed, Some("init_channel_closed")),
        (TriggerAction::ReportFailed, Some("vulkan_init")),
        (TriggerAction::ReportMissing, Some("output_lookup")),
        (TriggerAction::Probe(0), None),
    ];
    for (action, name) in setup {
        assert_eq!(action.failed_stage(), name);
    }
}
