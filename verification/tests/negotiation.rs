use std::time::Duration;

use vulkan_bridge::bridge_config::VulkanCopyDevice;
use vulkan_bridge::negotiation::{
    usable_modifiers, DeviceFacts, RendererFacts, TransferPolicy, Update, UpdateAction,
    UpdateAnswer, UpdateError,
};
use vulkan_bridge::transfer_formats::{
    recovery_redraw, Decision, FormatModifier, Fourcc, RestoreStep, RollbackStep, Size,
    SurfaceFacts, TransferFormats, ABGR2101010, ABGR8888,
};

const FORMAT: Fourcc = Fourcc { code: ABGR8888 };
const OTHER: Fourcc = Fourcc { code: ABGR2101010 };
const MODE: Size = Size { w: 1920, h: 1080 };

fn policy() -> TransferPolicy {
    TransferPolicy {
        direct_target: true,
        copy_device: VulkanCopyDevice::Target,
        primary_render_node: 128,
    }
}

fn surface() -> SurfaceFacts {
    SurfaceFacts {
        format: FORMAT,
        legacy: false,
        commit_pending: false,
    }
}

fn device() -> DeviceFacts {
    DeviceFacts {
        render_node: Some(129),
        active: true,
        atomic: true,
        surface: Some(surface()),
    }
}

fn renderer(generation: u64, drawable: &[u64], compressed: &[u64], current: &[u64]) -> UpdateAnswer {
    UpdateAnswer::Renderer(RendererFacts {
        generation,
        formats: drawable
            .iter()
            .map(|modifier| FormatModifier {
                format: FORMAT,
                modifier: *modifier,
            })
            .collect(),
        compressed: compressed.to_vec(),
        current: current.to_vec(),
    })
}

/// Runs a round up to the renderer, with one generation of the engine.
fn up_to_renderer(formats: &mut TransferFormats, generation: u64, offered: &[u64]) -> Update {
    let mut update = Update::new();
    assert!(matches!(
        update.step(formats, UpdateAnswer::Facts(policy(), Some(device()))),
        UpdateAction::ReadMode
    ));
    assert!(matches!(
        update.step(formats, UpdateAnswer::Mode(generation, FORMAT, 1920, 1080)),
        UpdateAction::QueryModifiers(FORMAT, MODE)
    ));
    assert!(matches!(
        update.step(formats, UpdateAnswer::Modifiers(generation, offered.to_vec())),
        UpdateAction::AcquireRenderer
    ));
    update
}

fn finished(action: UpdateAction) -> Result<(), UpdateError> {
    match action {
        UpdateAction::Finish(result) => result,
        action => panic!("unexpected {action:?}"),
    }
}

fn set_format(action: UpdateAction) -> (Fourcc, Vec<u64>) {
    match action {
        UpdateAction::SetFormat(format, modifiers) => (format, modifiers),
        action => panic!("unexpected {action:?}"),
    }
}

/// An output on which modifiers 7 were replaced by modifier 3.
fn negotiated() -> TransferFormats {
    let mut formats = TransferFormats::default();
    let mut update = up_to_renderer(&mut formats, 1, &[3]);
    let action = update.step(&mut formats, renderer(1, &[3], &[], &[7]));
    assert_eq!(set_format(action), (FORMAT, vec![3]));
    let action = update.step(&mut formats, UpdateAnswer::FormatSet(true));
    assert_eq!(finished(action), Ok(()));
    formats
}

#[test]
fn negotiation_decision_is_scoped_to_epoch_format_and_extent() {
    let epoch = 1;
    let state = TransferFormats {
        decision: Some(Decision {
            generation: epoch,
            format: Fourcc { code: ABGR8888 },
            size: Size { w: 1920, h: 1080 },
        }),
        ..Default::default()
    };
    assert!(state.matches(epoch, Fourcc { code: ABGR8888 }, Size { w: 1920, h: 1080 }));
    assert!(!state.matches(2, Fourcc { code: ABGR8888 }, Size { w: 1920, h: 1080 }));
    assert!(!state.matches(epoch, Fourcc { code: ABGR2101010 }, Size { w: 1920, h: 1080 }));
    assert!(!state.matches(epoch, Fourcc { code: ABGR8888 }, Size { w: 1280, h: 720 }));
    assert!(!TransferFormats::default().matches(
        epoch,
        Fourcc { code: ABGR8888 },
        Size { w: 1920, h: 1080 }
    ));
}

#[test]
fn format_codes_are_those_of_the_kernel() {
    assert_eq!(ABGR8888.to_le_bytes(), *b"AB24");
    assert_eq!(ABGR2101010.to_le_bytes(), *b"AB30");
}

#[test]
fn outputs_that_take_no_part_are_left_alone() {
    let policies = [
        TransferPolicy {
            direct_target: false,
            ..policy()
        },
        TransferPolicy {
            copy_device: VulkanCopyDevice::Render,
            ..policy()
        },
        TransferPolicy {
            primary_render_node: 129,
            ..policy()
        },
    ];
    for policy in policies {
        let mut formats = TransferFormats::default();
        let action = Update::new().step(&mut formats, UpdateAnswer::Facts(policy, Some(device())));
        assert_eq!(finished(action), Ok(()));
        assert!(formats.decision.is_none());
    }
    let devices = [
        None,
        Some(DeviceFacts {
            render_node: None,
            ..device()
        }),
        Some(DeviceFacts {
            active: false,
            ..device()
        }),
        Some(DeviceFacts {
            atomic: false,
            ..device()
        }),
        Some(DeviceFacts {
            surface: None,
            ..device()
        }),
        Some(DeviceFacts {
            surface: Some(SurfaceFacts {
                legacy: true,
                ..surface()
            }),
            ..device()
        }),
        Some(DeviceFacts {
            surface: Some(SurfaceFacts {
                commit_pending: true,
                ..surface()
            }),
            ..device()
        }),
    ];
    for device in devices {
        let mut formats = TransferFormats::default();
        let action = Update::new().step(&mut formats, UpdateAnswer::Facts(policy(), device));
        assert_eq!(finished(action), Ok(()));
        assert!(formats.decision.is_none());
    }
}

#[test]
fn a_native_swapchain_is_negotiated_once() {
    let mut formats = negotiated();
    assert_eq!(formats.fallback, Some((FORMAT, vec![7])));
    assert!(formats.matches(1, FORMAT, MODE));

    let mut update = Update::new();
    update.step(&mut formats, UpdateAnswer::Facts(policy(), Some(device())));
    let action = update.step(&mut formats, UpdateAnswer::Mode(1, FORMAT, 1920, 1080));
    assert_eq!(finished(action), Ok(()));
}

#[test]
fn an_unready_engine_decides_nothing() {
    let mut formats = TransferFormats::default();
    let mut update = Update::new();
    update.step(&mut formats, UpdateAnswer::Facts(policy(), Some(device())));
    update.step(&mut formats, UpdateAnswer::Mode(1, FORMAT, 1920, 1080));
    let action = update.step(&mut formats, UpdateAnswer::QueryPending);
    assert_eq!(finished(action), Ok(()));
    assert!(formats.decision.is_none());

    let mut update = Update::new();
    update.step(&mut formats, UpdateAnswer::Facts(policy(), Some(device())));
    update.step(&mut formats, UpdateAnswer::Mode(1, FORMAT, 1920, 1080));
    let action = update.step(&mut formats, UpdateAnswer::QueryFailed);
    assert_eq!(finished(action), Err(UpdateError::QueryFailed));
    assert!(formats.decision.is_none());
}

#[test]
fn an_empty_offer_is_a_decision() {
    let mut formats = TransferFormats::default();
    let mut update = Update::new();
    update.step(&mut formats, UpdateAnswer::Facts(policy(), Some(device())));
    update.step(&mut formats, UpdateAnswer::Mode(1, FORMAT, 1920, 1080));
    let action = update.step(&mut formats, UpdateAnswer::Modifiers(2, Vec::new()));
    assert_eq!(finished(action), Ok(()));
    assert!(formats.matches(2, FORMAT, MODE));
}

#[test]
fn only_drawable_uncompressed_modifiers_are_set() {
    let mut formats = TransferFormats::default();
    let mut update = up_to_renderer(&mut formats, 1, &[4, 3, 2, 1]);
    let action = update.step(&mut formats, renderer(1, &[1, 2, 3], &[2], &[7]));
    assert_eq!(set_format(action), (FORMAT, vec![3, 1]));

    let facts = RendererFacts {
        generation: 1,
        formats: vec![FormatModifier {
            format: OTHER,
            modifier: 1,
        }],
        compressed: vec![],
        current: vec![],
    };
    assert!(usable_modifiers(&facts, FORMAT, &vec![1]).is_empty());
    assert_eq!(usable_modifiers(&facts, OTHER, &vec![1, 1]), [1, 1]);
}

#[test]
fn nothing_usable_or_already_native_changes_nothing() {
    for (drawable, current) in [(vec![9], vec![7]), (vec![3, 4], vec![3, 4, 3])] {
        let mut formats = TransferFormats::default();
        let mut update = up_to_renderer(&mut formats, 1, &[3, 4]);
        let action = update.step(&mut formats, renderer(1, &drawable, &[], &current));
        assert_eq!(finished(action), Ok(()));
        assert!(formats.matches(1, FORMAT, MODE));
        assert!(formats.fallback.is_none());
    }
    // A swapchain without modifiers is not native.
    let mut formats = TransferFormats::default();
    let mut update = up_to_renderer(&mut formats, 1, &[3]);
    let action = update.step(&mut formats, renderer(1, &[3], &[], &[]));
    assert_eq!(set_format(action), (FORMAT, vec![3]));
}

#[test]
fn a_changed_engine_or_a_failed_renderer_decides_nothing() {
    let mut formats = TransferFormats::default();
    let mut update = up_to_renderer(&mut formats, 1, &[3]);
    let action = update.step(&mut formats, renderer(2, &[3], &[], &[7]));
    assert_eq!(finished(action), Ok(()));
    assert!(formats.decision.is_none());

    let mut update = up_to_renderer(&mut formats, 1, &[3]);
    let action = update.step(&mut formats, UpdateAnswer::RendererFailed);
    assert_eq!(finished(action), Err(UpdateError::RendererFailed));
    assert!(formats.decision.is_none());
}

#[test]
fn a_refused_change_keeps_the_normal_swapchain() {
    let mut formats = TransferFormats::default();
    let mut update = up_to_renderer(&mut formats, 1, &[3]);
    update.step(&mut formats, renderer(1, &[3], &[], &[7]));
    let action = update.step(&mut formats, UpdateAnswer::FormatSet(false));
    assert_eq!(finished(action), Ok(()));
    assert!(formats.fallback.is_none());
    assert!(formats.matches(1, FORMAT, MODE));
}

#[test]
fn answers_that_were_not_asked_for_end_the_round() {
    let mut formats = TransferFormats::default();
    let action = Update::new().step(&mut formats, UpdateAnswer::FormatSet(true));
    assert_eq!(finished(action), Ok(()));
    assert!(formats.decision.is_none() && formats.fallback.is_none());
}

#[test]
fn a_rollback_restores_the_first_modifiers() {
    let mut formats = negotiated();
    // A second change of the same format keeps the first fallback.
    let mut update = up_to_renderer(&mut formats, 2, &[4]);
    update.step(&mut formats, renderer(2, &[4], &[], &[3]));
    update.step(&mut formats, UpdateAnswer::FormatSet(true));
    assert_eq!(formats.fallback, Some((FORMAT, vec![7])));

    match formats.rollback(&surface()) {
        RollbackStep::SetFormat(format, modifiers) => {
            assert_eq!((format, modifiers), (FORMAT, vec![7]));
        }
        step => panic!("unexpected {step:?}"),
    }
    assert_eq!(formats.finish_rollback(true), Some(Duration::from_millis(1)));
    assert!(formats.fallback.is_none() && !formats.restore_pending);
    // The decision stays, so that the change is not tried again.
    assert!(formats.matches(2, FORMAT, MODE));
    assert!(matches!(formats.rollback(&surface()), RollbackStep::Done(None)));
}

#[test]
fn a_rollback_that_cannot_be_done_retries_once() {
    let mut formats = negotiated();
    let pending = SurfaceFacts {
        commit_pending: true,
        ..surface()
    };
    match formats.rollback(&pending) {
        RollbackStep::Done(delay) => assert_eq!(delay, Some(Duration::from_millis(100))),
        step => panic!("unexpected {step:?}"),
    }
    assert!(matches!(formats.rollback(&pending), RollbackStep::Done(None)));
    assert!(formats.restore_pending && formats.retry_scheduled);
    assert_eq!(formats.fallback, Some((FORMAT, vec![7])));

    assert!(matches!(formats.rollback(&surface()), RollbackStep::SetFormat(FORMAT, _)));
    assert_eq!(formats.finish_rollback(false), None);

    // The next round restores before it negotiates.
    let mut update = Update::new();
    let action = update.step(&mut formats, UpdateAnswer::Facts(policy(), Some(device())));
    assert_eq!(set_format(action), (FORMAT, vec![7]));
    let action = update.step(&mut formats, UpdateAnswer::FormatSet(false));
    assert_eq!(finished(action), Err(UpdateError::RestoreRefused));
    let mut update = Update::new();
    update.step(&mut formats, UpdateAnswer::Facts(policy(), Some(device())));
    let action = update.step(&mut formats, UpdateAnswer::FormatSet(true));
    assert!(matches!(action, UpdateAction::ReadMode));
    assert!(formats.fallback.is_none() && !formats.restore_pending);
}

#[test]
fn another_format_supersedes_the_recovery() {
    let mut formats = negotiated();
    let changed = SurfaceFacts {
        format: OTHER,
        ..surface()
    };
    match formats.rollback(&changed) {
        RollbackStep::Done(delay) => assert_eq!(delay, Some(Duration::from_millis(1))),
        step => panic!("unexpected {step:?}"),
    }
    assert!(formats.decision.is_none() && formats.fallback.is_none() && !formats.restore_pending);
    assert!(matches!(formats.rollback(&changed), RollbackStep::Done(None)));
    assert!(matches!(formats.rollback(&surface()), RollbackStep::Done(None)));
}

#[test]
fn restorations_wait_for_a_stable_surface() {
    let mut formats = negotiated();
    assert!(matches!(formats.try_restore(&surface()), RestoreStep::Settled));
    formats.restore_pending = true;
    let legacy = SurfaceFacts {
        legacy: true,
        ..surface()
    };
    assert!(matches!(formats.try_restore(&legacy), RestoreStep::Unstable));
    assert!(formats.restore_pending);
    assert!(matches!(formats.try_restore(&surface()), RestoreStep::SetFormat(FORMAT, _)));
    formats.finish_restore(false);
    assert!(formats.restore_pending);
    formats.finish_restore(true);
    assert!(formats.fallback.is_none() && !formats.restore_pending);

    let mut formats = TransferFormats {
        restore_pending: true,
        ..Default::default()
    };
    assert!(matches!(formats.try_restore(&surface()), RestoreStep::Settled));
    assert!(!formats.restore_pending);
}

#[test]
fn a_late_redraw_needs_its_output() {
    let outputs = vec!["DP-1".to_owned(), "eDP-1".to_owned()];
    assert!(recovery_redraw(&outputs, "eDP-1"));
    assert!(!recovery_redraw(&outputs, "HDMI-A-1"));
    assert!(!recovery_redraw(&Vec::new(), "eDP-1"));
}

#[test]
fn a_refused_rollback_uses_up_the_late_retry() {
    let mut formats = negotiated();
    assert!(matches!(formats.rollback(&surface()), RollbackStep::SetFormat(FORMAT, _)));
    assert_eq!(formats.finish_rollback(false), Some(Duration::from_millis(100)));
    let pending = SurfaceFacts {
        commit_pending: true,
        ..surface()
    };
    assert!(matches!(formats.rollback(&pending), RollbackStep::Done(None)));

    // A negotiated change makes way for another one.
    let mut update = Update::new();
    update.step(&mut formats, UpdateAnswer::Facts(policy(), Some(device())));
    update.step(&mut formats, UpdateAnswer::FormatSet(true));
    update.step(&mut formats, UpdateAnswer::Mode(2, FORMAT, 1920, 1080));
    update.step(&mut formats, UpdateAnswer::Modifiers(2, vec![4]));
    update.step(&mut formats, renderer(2, &[4], &[], &[7]));
    update.step(&mut formats, UpdateAnswer::FormatSet(true));
    match formats.rollback(&pending) {
        RollbackStep::Done(delay) => assert_eq!(delay, Some(Duration::from_millis(100))),
        step => panic!("unexpected {step:?}"),
    }
}
