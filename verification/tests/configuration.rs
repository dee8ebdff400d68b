use vulkan_bridge::bridge_config::{
    requested_copy_device, resolve, resolve_block, timing_start, CopyDeviceRequest, Settings,
    TimingStart, VulkanCopyDevice,
};
use vulkan_bridge::config::{
    decode_bridge, decode_timing, BridgeCopyDevice, BridgeTiming, BridgeTimingPart, FilePath,
    VulkanBridge, VulkanBridgePart,
};
use vulkan_bridge::document::{decode_items, Config, ConfigError, ConfigItem};
use vulkan_bridge::kdl::{parse_document, Literal};

fn bytes(text: &str) -> Vec<u8> {
    text.as_bytes().to_vec()
}

fn path(text: &str) -> FilePath {
    FilePath::from_text(text)
}

#[test]
fn absent_and_empty() {
    assert_eq!(Config::default().vulkan_bridge, None);
    assert_eq!(Config::parse_mem("").unwrap().vulkan_bridge, None);
    for text in ["vulkan-bridge {}", "vulkan-bridge { timing {}; }"] {
        assert_eq!(
            Config::parse_mem(text).unwrap().vulkan_bridge,
            Some(VulkanBridge {
                enabled: true,
                direct_target: true,
                copy_device: BridgeCopyDevice::Render,
                timing: BridgeTiming {
                    enabled: false,
                    output: None,
                },
            }),
        );
    }
}

#[test]
fn explicit_values() {
    let config = Config::parse_mem(
        r#"
            vulkan-bridge {
                enabled false
                direct-target false
                copy-device "target"
                timing {
                    enabled false
                    output "/path/log.jsonl"
                }
            }
            "#,
    )
    .unwrap();
    assert_eq!(
        config.vulkan_bridge,
        Some(VulkanBridge {
            enabled: false,
            direct_target: false,
            copy_device: BridgeCopyDevice::Target,
            timing: BridgeTiming {
                enabled: false,
                output: Some(path("/path/log.jsonl")),
            },
        }),
    );

    let bridge = Config::parse_mem(
        r#"vulkan-bridge { enabled true; direct-target true; copy-device "render"; timing { enabled true; }; }"#,
    )
    .unwrap()
    .vulkan_bridge
    .unwrap();
    assert_eq!(bridge.copy_device, BridgeCopyDevice::Render);
    assert!(bridge.enabled && bridge.direct_target && bridge.timing.enabled);
    assert_eq!(bridge.timing.output, None);
}

#[test]
fn invalid_values_and_duplicate_sections() {
    for text in [
        r#"vulkan-bridge { copy-device "other"; }"#,
        r#"vulkan-bridge { copy-device "Target"; }"#,
        "vulkan-bridge { copy-device true; }",
        "vulkan-bridge { unknown true; }",
        "vulkan-bridge { enabled; }",
        r#"vulkan-bridge { enabled "false"; }"#,
        "vulkan-bridge { direct-target 1; }",
        "vulkan-bridge { timing { enabled; }; }",
        r#"vulkan-bridge { timing { enabled "true"; }; }"#,
        "vulkan-bridge { timing { unknown false; }; }",
        "vulkan-bridge { timing { output false; }; }",
        "vulkan-bridge { enabled true; enabled false; }",
        "vulkan-bridge { timing {}; timing {}; }",
        "vulkan-bridge {}\nvulkan-bridge {}",
    ] {
        assert!(Config::parse_mem(text).is_err(), "accepted {text}");
    }
}

/// The items of a text, with those of each included file in the place of its include.
fn items(files: &[(&str, &str)], text: &str) -> Vec<ConfigItem> {
    let nodes = parse_document(text).unwrap();
    let mut all = Vec::new();
    for item in decode_items(&nodes).unwrap() {
        match item {
            ConfigItem::Include(path) => {
                let file = files
                    .iter()
                    .find(|(name, _)| name.as_bytes() == path.bytes.as_slice())
                    .unwrap();
                all.extend(items(files, file.1));
            }
            item => all.push(item),
        }
    }
    all
}

fn parse_with(files: &[(&str, &str)], text: &str) -> VulkanBridge {
    Config::from_items(&items(files, text)).vulkan_bridge.unwrap()
}

#[test]
fn positional_include_merge() {
    let base = r#"vulkan-bridge {
                enabled false
                direct-target false
                copy-device "target"
                timing { enabled true; output "/path/base.jsonl"; }
            }"#;
    let files = [
        ("base.kdl", base),
        ("empty.kdl", "vulkan-bridge { timing {}; }"),
        (
            "output.kdl",
            r#"vulkan-bridge { timing { output "/path/override.jsonl"; }; }"#,
        ),
    ];
    let override_section = r#"vulkan-bridge {
            enabled true
            timing { enabled false; }
        }"#;
    let after = parse_with(
        &files,
        &format!("include \"base.kdl\"\n{override_section}\ninclude \"empty.kdl\""),
    );
    assert_eq!(
        after,
        VulkanBridge {
            enabled: true,
            direct_target: false,
            copy_device: BridgeCopyDevice::Target,
            timing: BridgeTiming {
                enabled: false,
                output: Some(path("/path/base.jsonl")),
            },
        },
    );
    let before = parse_with(
        &files,
        &format!("{override_section}\ninclude \"base.kdl\""),
    );
    assert!(!before.enabled && !before.direct_target);
    assert_eq!(before.copy_device, BridgeCopyDevice::Target);
    assert!(before.timing.enabled);
    assert_eq!(before.timing.output, after.timing.output);

    let output = parse_with(&files, "include \"base.kdl\"\ninclude \"output.kdl\"");
    assert!(output.timing.enabled);
    assert!(!output.enabled && !output.direct_target);
    assert_eq!(output.copy_device, BridgeCopyDevice::Target);
    assert_eq!(output.timing.output, Some(path("/path/override.jsonl")));
    assert_eq!(
        parse_with(&files, "include \"empty.kdl\""),
        VulkanBridge::default()
    );

    let render = parse_with(
        &files,
        r#"include "base.kdl"
            vulkan-bridge { direct-target true; copy-device "render"; }"#,
    );
    assert!(render.direct_target);
    assert_eq!(render.copy_device, BridgeCopyDevice::Render);
    assert!(!render.enabled);
    assert!(render.timing.enabled);
}

#[test]
fn errors_name_their_cause() {
    assert_eq!(
        Config::parse_mem("vulkan-bridge {").unwrap_err(),
        ConfigError::Syntax
    );
    assert_eq!(
        Config::parse_mem("vulkan-bridge { unknown 1; }").unwrap_err(),
        ConfigError::Section
    );
    assert_eq!(
        Config::parse_mem("debug {}\ndebug {}").unwrap_err(),
        ConfigError::Section
    );
    assert_eq!(
        Config::parse_mem("include \"other.kdl\"").unwrap_err(),
        ConfigError::Include
    );
    assert_eq!(
        Config::parse_mem("include").unwrap_err(),
        ConfigError::Section
    );
}

#[test]
fn other_sections_are_left_alone() {
    let config = Config::parse_mem(
        "input { keyboard { repeat-rate 30; }; }\ndebug { preview-render \"screencast\"; }",
    )
    .unwrap();
    assert_eq!(config, Config::default());
}

#[test]
fn debug_selects_the_rendering_device_once() {
    let config = Config::parse_mem(r#"debug { render-drm-device "/dev/dri/renderD128"; }"#).unwrap();
    assert_eq!(
        config.debug.render_drm_device,
        Some(path("/dev/dri/renderD128"))
    );
    assert!(Config::parse_mem("debug { render-drm-device 1; }").is_err());
    assert!(Config::parse_mem(
        r#"debug { render-drm-device "a"; render-drm-device "b"; }"#
    )
    .is_err());
}

#[test]
fn type_annotations_are_refused_on_sections_and_values() {
    assert!(Config::parse_mem("(policy)vulkan-bridge {}").is_err());
    assert!(Config::parse_mem("vulkan-bridge { enabled (flag)true; }").is_err());
    let bridge = Config::parse_mem("vulkan-bridge { (flag)enabled false; }")
        .unwrap()
        .vulkan_bridge
        .unwrap();
    assert!(!bridge.enabled);
}

#[test]
fn properties_and_extra_arguments_are_refused() {
    for text in [
        "vulkan-bridge true {}",
        "vulkan-bridge a=1 {}",
        "vulkan-bridge { enabled true false; }",
        "vulkan-bridge { enabled true a=1; }",
        "vulkan-bridge { enabled true { x; }; }",
        "vulkan-bridge { timing true {}; }",
    ] {
        assert!(Config::parse_mem(text).is_err(), "accepted {text}");
    }
}

#[test]
fn documents_become_plain_trees() {
    let nodes =
        parse_document("a 1 2.5 null true (t)\"text\" key=1 { (t)b; c \"\u{e4}\"; }").unwrap();
    assert_eq!(nodes.len(), 1);
    let node = &nodes[0];
    assert_eq!(node.name, "a");
    assert!(!node.typed);
    assert_eq!(node.properties, 1);
    assert_eq!(node.arguments.len(), 5);
    assert!(matches!(node.arguments[0].literal, Literal::Integer));
    assert!(matches!(node.arguments[1].literal, Literal::Decimal));
    assert!(matches!(node.arguments[2].literal, Literal::Null));
    assert!(matches!(node.arguments[3].literal, Literal::Bool(true)));
    assert!(matches!(&node.arguments[4].literal, Literal::Text(text) if text == "text"));
    let typed: Vec<bool> = node.arguments.iter().map(|argument| argument.typed).collect();
    assert_eq!(typed, [false, false, false, false, true]);
    assert_eq!(node.children.len(), 2);
    assert_eq!(node.children[0].name, "b");
    assert!(node.children[0].typed);
    assert!(
        matches!(&node.children[1].arguments[0].literal, Literal::Text(text) if text == "\u{e4}")
    );
    assert!(parse_document("a {").is_none());
    assert!(parse_document("").unwrap().is_empty());

    let nodes = parse_document("a \"\u{e4}\u{20ac})\" (t)\"x\" /* ) */\"y\"; (t)b true").unwrap();
    let typed: Vec<bool> = nodes[0].arguments.iter().map(|argument| argument.typed).collect();
    assert_eq!(typed, [false, true, false]);
    assert!(!nodes[0].typed && nodes[1].typed && !nodes[1].arguments[0].typed);
}

#[test]
fn decoders_take_single_blocks() {
    let nodes = parse_document("vulkan-bridge { timing { output \"x\"; }; }").unwrap();
    let part = decode_bridge(&nodes[0]).unwrap();
    assert_eq!(
        part,
        VulkanBridgePart {
            timing: Some(BridgeTimingPart {
                enabled: None,
                output: Some(path("x")),
            }),
            ..Default::default()
        }
    );
    let timing = decode_timing(&nodes[0].children[0]).unwrap();
    assert_eq!(Some(timing), part.timing);
    assert!(decode_timing(&nodes[0]).is_none());
}

#[test]
fn merging_touches_only_filled_fields() {
    let mut bridge = VulkanBridge::default();
    bridge.merge_with(&VulkanBridgePart::default());
    assert_eq!(bridge, VulkanBridge::default());
    bridge.merge_with(&VulkanBridgePart {
        enabled: Some(false),
        direct_target: None,
        copy_device: Some(BridgeCopyDevice::Target),
        timing: Some(BridgeTimingPart {
            enabled: Some(true),
            output: None,
        }),
    });
    assert_eq!(
        bridge,
        VulkanBridge {
            enabled: false,
            direct_target: true,
            copy_device: BridgeCopyDevice::Target,
            timing: BridgeTiming {
                enabled: true,
                output: None,
            },
        }
    );
    bridge.timing.merge_with(&BridgeTimingPart {
        enabled: None,
        output: Some(path("/log")),
    });
    assert!(bridge.timing.enabled);
    assert_eq!(bridge.timing.output, Some(path("/log")));
}

#[test]
fn kdl_policy_does_not_consult_legacy_environment() {
    let config = VulkanBridge {
        enabled: true,
        direct_target: true,
        copy_device: BridgeCopyDevice::Target,
        timing: BridgeTiming {
            enabled: false,
            output: None,
        },
    };
    let resolved = resolve(Some(&config), |_: &str| {
        panic!("KDL must not read legacy environment")
    });
    assert!(resolved.enabled && resolved.direct_target);
    assert_eq!(resolved.copy_device, VulkanCopyDevice::Target);
    assert!(!resolved.timing_enabled);
    assert_eq!(resolved.timing_output, None);
}

#[test]
fn explicit_disable_also_disables_direct_writes() {
    let config = VulkanBridge {
        enabled: false,
        ..Default::default()
    };
    let resolved = resolve(Some(&config), |_: &str| Some(bytes("1")));
    assert!(!resolved.enabled && !resolved.direct_target);
    assert!(!resolved.timing_enabled);
}

#[test]
fn absent_block_preserves_existing_environment_contract() {
    let resolved = resolve(None, |key: &str| match key {
        "NIRI_VK_COPY_DEVICE" => Some(bytes("target")),
        "NIRI_VK_DIRECT_TARGET" | "SMITHAY_FRAME_TIMING" => Some(bytes("1")),
        "NIRI_FRAME_TIMING_FILE" => Some(bytes("/tmp/bridge-timing.jsonl")),
        _ => None,
    });
    assert!(resolved.enabled && resolved.direct_target && resolved.timing_enabled);
    assert_eq!(resolved.copy_device, VulkanCopyDevice::Target);
    assert_eq!(
        resolved.timing_output,
        Some(path("/tmp/bridge-timing.jsonl"))
    );
    let defaults = resolve(None, |_: &str| None);
    assert!(defaults.enabled);
    assert!(!defaults.direct_target && !defaults.timing_enabled);
    assert_eq!(defaults.copy_device, VulkanCopyDevice::Render);
}

#[test]
fn both_documented_kdl_profiles_resolve_without_environment() {
    for (node, role, expected) in [
        ("/dev/dri/renderD129", "render", VulkanCopyDevice::Render),
        ("/dev/dri/renderD128", "target", VulkanCopyDevice::Target),
    ] {
        let text = format!(
            r#"
                debug {{ render-drm-device "{node}"; }}
                vulkan-bridge {{ enabled true; direct-target true; copy-device "{role}"; }}
            "#
        );
        let config = Config::parse_mem(&text).unwrap();
        assert_eq!(config.debug.render_drm_device, Some(path(node)));
        let resolved = resolve(config.vulkan_bridge.as_ref(), |_: &str| {
            panic!("unexpected env lookup")
        });
        assert!(resolved.enabled && resolved.direct_target);
        assert_eq!(resolved.copy_device, expected);
        assert!(!resolved.timing_enabled);
    }
}

#[test]
fn kdl_timing_output_replaces_the_legacy_path() {
    let config = Config::parse_mem(
        r#"
            vulkan-bridge { timing { enabled true; output "/private/kdl.jsonl"; }; }
        "#,
    )
    .unwrap();
    let resolved = resolve(config.vulkan_bridge.as_ref(), |_: &str| {
        panic!("unexpected env lookup")
    });
    assert!(resolved.timing_enabled);
    assert_eq!(resolved.timing_output, Some(path("/private/kdl.jsonl")));
}

#[test]
fn legacy_disabled_bridge_cannot_enable_direct_writes() {
    let resolved = resolve(None, |key: &str| match key {
        "NIRI_VKBRIDGE" => Some(bytes("0")),
        "NIRI_VK_DIRECT_TARGET" => Some(bytes("1")),
        _ => None,
    });
    assert!(!resolved.enabled && !resolved.direct_target);
}

#[test]
fn only_exact_words_switch_the_environment() {
    let resolved = resolve(None, |key: &str| match key {
        "NIRI_VKBRIDGE" => Some(bytes("00")),
        "NIRI_VK_DIRECT_TARGET" => Some(bytes("true")),
        "SMITHAY_FRAME_TIMING" => Some(bytes("0")),
        "NIRI_VK_COPY_DEVICE" => Some(bytes("Target")),
        "NIRI_FRAME_TIMING_FILE" => Some(vec![0xff, 0x2f]),
        _ => None,
    });
    assert_eq!(
        resolved,
        Settings {
            enabled: true,
            direct_target: false,
            copy_device: VulkanCopyDevice::Render,
            timing_enabled: false,
            timing_output: Some(FilePath {
                bytes: vec![0xff, 0x2f]
            }),
        }
    );
}

/// The variables that are read, where that of the bridge has a value.
fn asked_with(bridge: Option<&str>) -> Vec<String> {
    let asked = std::cell::RefCell::new(Vec::new());
    resolve(None, |key: &str| {
        asked.borrow_mut().push(key.to_owned());
        if key == "NIRI_VKBRIDGE" {
            bridge.map(bytes)
        } else {
            None
        }
    });
    asked.into_inner()
}

#[test]
fn only_five_variables_are_read() {
    let all = [
        "NIRI_VKBRIDGE",
        "NIRI_VK_COPY_DEVICE",
        "NIRI_VK_DIRECT_TARGET",
        "SMITHAY_FRAME_TIMING",
        "NIRI_FRAME_TIMING_FILE",
    ];
    assert_eq!(asked_with(None), all);
    assert_eq!(asked_with(Some("1")), all);
}

#[test]
fn a_disabled_bridge_does_not_read_the_direct_writes() {
    assert_eq!(
        asked_with(Some("0")),
        [
            "NIRI_VKBRIDGE",
            "NIRI_VK_COPY_DEVICE",
            "SMITHAY_FRAME_TIMING",
            "NIRI_FRAME_TIMING_FILE",
        ]
    );
}

#[test]
fn unknown_copy_devices_are_noticed() {
    assert_eq!(requested_copy_device(&None), CopyDeviceRequest::Render);
    assert_eq!(
        requested_copy_device(&Some(bytes("render"))),
        CopyDeviceRequest::Render
    );
    assert_eq!(
        requested_copy_device(&Some(bytes("target"))),
        CopyDeviceRequest::Target
    );
    assert_eq!(
        requested_copy_device(&Some(bytes("gpu0"))),
        CopyDeviceRequest::Unknown
    );
    assert_eq!(
        requested_copy_device(&Some(Vec::new())),
        CopyDeviceRequest::Unknown
    );
}

#[test]
fn timing_starts_only_with_an_output() {
    let mut settings = resolve_block(&VulkanBridge::default());
    assert_eq!(timing_start(&settings), TimingStart::Off);
    settings.timing_output = Some(path("/log"));
    assert_eq!(timing_start(&settings), TimingStart::Off);
    settings.timing_enabled = true;
    assert_eq!(timing_start(&settings), TimingStart::Report(path("/log")));
    settings.timing_output = None;
    assert_eq!(timing_start(&settings), TimingStart::NoOutput);
}
