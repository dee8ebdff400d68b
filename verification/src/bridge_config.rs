//! The startup policy of the bridge. An explicit block of the configuration owns the entire
//! policy; the environment is consulted only where there is none.

use vstd::prelude::*;
use vstd::string::*;

use crate::config::{BridgeCopyDevice, FilePath, VulkanBridge};
use crate::text::same_bytes;

verus! {

/// The GPU that runs the copy.
#[derive(Debug, Clone, Copy, PartialEq, Eq, Structural)]
pub enum VulkanCopyDevice {
    /// The GPU that renders the scene.
    Render,
    /// The GPU that drives the output.
    Target,
}

/// The policy that startup follows.
#[derive(Debug, PartialEq, Eq)]
pub struct Settings {
    pub enabled: bool,
    pub direct_target: bool,
    pub copy_device: VulkanCopyDevice,
    pub timing_enabled: bool,
    pub timing_output: Option<FilePath>,
}

/// The content of `Settings`.
pub struct SettingsView {
    pub enabled: bool,
    pub direct_target: bool,
    pub copy_device: VulkanCopyDevice,
    pub timing_enabled: bool,
    pub timing_output: Option<Seq<u8>>,
}

impl View for Settings {
    type V = SettingsView;

    open spec fn view(&self) -> SettingsView {
        SettingsView {
            enabled: self.enabled,
            direct_target: self.direct_target,
            copy_device: self.copy_device,
            timing_enabled: self.timing_enabled,
            timing_output: crate::config::path_view(self.timing_output),
        }
    }
}

/// The variables of the environment that set a policy, as far as they are set. Values are the
/// bytes that the system holds.
#[derive(Debug)]
pub struct Environment {
    /// `NIRI_VKBRIDGE`
    pub bridge: Option<Vec<u8>>,
    /// `NIRI_VK_COPY_DEVICE`
    pub copy_device: Option<Vec<u8>>,
    /// `NIRI_VK_DIRECT_TARGET`
    pub direct_target: Option<Vec<u8>>,
    /// `SMITHAY_FRAME_TIMING`
    pub timing: Option<Vec<u8>>,
    /// `NIRI_FRAME_TIMING_FILE`
    pub timing_file: Option<Vec<u8>>,
}

/// The content of `Environment`.
pub struct EnvironmentView {
    pub bridge: Option<Seq<u8>>,
    pub copy_device: Option<Seq<u8>>,
    pub direct_target: Option<Seq<u8>>,
    pub timing: Option<Seq<u8>>,
    pub timing_file: Option<Seq<u8>>,
}

/// The content of an optional value.
pub open spec fn value_view(value: Option<Vec<u8>>) -> Option<Seq<u8>> {
    match value {
        Some(value) => Some(value@),
        None => None,
    }
}

impl View for Environment {
    type V = EnvironmentView;

    open spec fn view(&self) -> EnvironmentView {
        EnvironmentView {
            bridge: value_view(self.bridge),
            copy_device: value_view(self.copy_device),
            direct_target: value_view(self.direct_target),
            timing: value_view(self.timing),
            timing_file: value_view(self.timing_file),
        }
    }
}

/// What a copy-device variable asks for.
#[derive(Debug, Clone, Copy, PartialEq, Eq, Structural)]
pub enum CopyDeviceRequest {
    /// Nothing, or the rendering GPU.
    Render,
    /// The GPU of the output.
    Target,
    /// A word without a meaning, which is worth a warning. The rendering GPU is used.
    Unknown,
}

/// Whether a variable is set to a text.
pub open spec fn is_set_to(value: Option<Seq<u8>>, text: &str) -> bool {
    value == Some(text.spec_bytes())
}

/// What a copy-device variable asks for.
pub open spec fn copy_device_request(value: Option<Seq<u8>>) -> CopyDeviceRequest {
    if is_set_to(value, "target") {
        CopyDeviceRequest::Target
    } else if value is None || is_set_to(value, "render") {
        CopyDeviceRequest::Render
    } else {
        CopyDeviceRequest::Unknown
    }
}

/// The policy of an explicit block. A disabled bridge does not write directly either.
pub open spec fn block_settings(config: crate::config::VulkanBridgeView) -> SettingsView {
    SettingsView {
        enabled: config.enabled,
        direct_target: config.enabled && config.direct_target,
        copy_device: match config.copy_device {
            BridgeCopyDevice::Render => VulkanCopyDevice::Render,
            BridgeCopyDevice::Target => VulkanCopyDevice::Target,
        },
        timing_enabled: config.timing.enabled,
        timing_output: config.timing.output,
    }
}

/// The policy of the environment: the bridge is on unless it is switched off; direct writes and
/// timing are off unless they are switched on.
pub open spec fn environment_settings(environment: EnvironmentView) -> SettingsView {
    let enabled = !is_set_to(environment.bridge, "0");
    SettingsView {
        enabled,
        direct_target: enabled && is_set_to(environment.direct_target, "1"),
        copy_device: match copy_device_request(environment.copy_device) {
            CopyDeviceRequest::Target => VulkanCopyDevice::Target,
            _ => VulkanCopyDevice::Render,
        },
        timing_enabled: is_set_to(environment.timing, "1"),
        timing_output: environment.timing_file,
    }
}

fn set_to(value: &Option<Vec<u8>>, text: &str) -> (is: bool)
    ensures
        is == is_set_to(value_view(*value), text),
{
    match value {
        Some(value) => same_bytes(value.as_slice(), text.as_bytes()),
        None => false,
    }
}

/// Reads a copy-device variable.
pub fn requested_copy_device(value: &Option<Vec<u8>>) -> (request: CopyDeviceRequest)
    ensures
        request == copy_device_request(value_view(*value)),
{
    if set_to(value, "target") {
        CopyDeviceRequest::Target
    } else if value.is_none() || set_to(value, "render") {
        CopyDeviceRequest::Render
    } else {
        CopyDeviceRequest::Unknown
    }
}

/// The policy of an explicit block.
pub fn resolve_block(config: &VulkanBridge) -> (settings: Settings)
    ensures
        settings@ == block_settings(config@),
{
    Settings {
        enabled: config.enabled,
        direct_target: config.enabled && config.direct_target,
        copy_device: match config.copy_device {
            BridgeCopyDevice::Render => VulkanCopyDevice::Render,
            BridgeCopyDevice::Target => VulkanCopyDevice::Target,
        },
        timing_enabled: config.timing.enabled,
        timing_output: match &config.timing.output {
            Some(output) => Some(output.clone()),
            None => None,
        },
    }
}

/// The policy of the environment.
pub fn resolve_environment(environment: Environment) -> (settings: Settings)
    ensures
        settings@ == environment_settings(environment@),
{
    let enabled = !set_to(&environment.bridge, "0");
    Settings {
        enabled,
        direct_target: enabled && set_to(&environment.direct_target, "1"),
        copy_device: match requested_copy_device(&environment.copy_device) {
            CopyDeviceRequest::Target => VulkanCopyDevice::Target,
            _ => VulkanCopyDevice::Render,
        },
        timing_enabled: set_to(&environment.timing, "1"),
        timing_output: match environment.timing_file {
            Some(bytes) => Some(FilePath { bytes }),
            None => None,
        },
    }
}

/// Whether an environment is made of what a lookup can answer. The variable for direct writes is
/// not read where the bridge is switched off.
pub open spec fn is_answer<F: Fn(&str) -> Option<Vec<u8>>>(env: F, environment: Environment) -> bool {
    &&& call_ensures(env, ("NIRI_VKBRIDGE",), environment.bridge)
    &&& call_ensures(env, ("NIRI_VK_COPY_DEVICE",), environment.copy_device)
    &&& if switches_off(environment.bridge) {
        environment.direct_target is None
    } else {
        call_ensures(env, ("NIRI_VK_DIRECT_TARGET",), environment.direct_target)
    }
    &&& call_ensures(env, ("SMITHAY_FRAME_TIMING",), environment.timing)
    &&& call_ensures(env, ("NIRI_FRAME_TIMING_FILE",), environment.timing_file)
}

/// Whether the variable of the bridge switches it off.
pub open spec fn switches_off(bridge: Option<Vec<u8>>) -> bool {
    is_set_to(value_view(bridge), "0")
}

/// Whether a lookup can answer a key with these bytes, or with nothing.
pub open spec fn may_answer<F: Fn(&str) -> Option<Vec<u8>>>(
    env: F,
    key: &str,
    value: Option<Seq<u8>>,
) -> bool {
    exists|answer: Option<Vec<u8>>|
        #[trigger] call_ensures(env, (key,), answer) && value_view(answer) == value
}

/// The bytes of the two words that switch something.
proof fn lemma_digit_bytes()
    ensures
        "0".spec_bytes() == seq![0x30u8],
        "1".spec_bytes() == seq![0x31u8],
{
    reveal_strlit("0");
    reveal_strlit("1");
    vstd::utf8::is_ascii_chars_encode_utf8("0"@);
    vstd::utf8::is_ascii_chars_encode_utf8("1"@);
    assert("0"@[0] as u8 == 0x30u8);
    assert("1"@[0] as u8 == 0x31u8);
    assert("0".spec_bytes() =~= seq![0x30u8]);
    assert("1".spec_bytes() =~= seq![0x31u8]);
}

/// The policy of a configuration and an environment.
pub open spec fn policy(
    config: Option<crate::config::VulkanBridgeView>,
    environment: EnvironmentView,
) -> SettingsView {
    match config {
        Some(config) => block_settings(config),
        None => environment_settings(environment),
    }
}

/// The policy that startup follows. Without a block the lookup is asked for five keys, for the one
/// of direct writes only where the bridge is not switched off, and need not be callable for any
/// other; with a block it need not be callable at all: the environment is not read.
pub fn resolve<F: Fn(&str) -> Option<Vec<u8>>>(config: Option<&VulkanBridge>, env: F) -> (settings: Settings)
    requires
        config is None ==> call_requires(env, ("NIRI_VKBRIDGE",)),
        config is None ==> call_requires(env, ("NIRI_VK_COPY_DEVICE",)),
        config is None ==> forall|bridge: Option<Vec<u8>>|
            #[trigger] call_ensures(env, ("NIRI_VKBRIDGE",), bridge) && !switches_off(bridge)
                ==> call_requires(env, ("NIRI_VK_DIRECT_TARGET",)),
        config is None ==> call_requires(env, ("SMITHAY_FRAME_TIMING",)),
        config is None ==> call_requires(env, ("NIRI_FRAME_TIMING_FILE",)),
    ensures
        match config {
            Some(config) => settings@ == block_settings(config@),
            None => exists|environment: Environment|
                #[trigger] is_answer(env, environment) && settings@ == policy(None, environment@),
        },
        config is None ==> exists|value: Option<Seq<u8>>|
            #[trigger] may_answer(env, "NIRI_VKBRIDGE", value) && settings.enabled == (value != Some(
                seq![0x30u8],
            )),
        config is None && settings.enabled ==> exists|value: Option<Seq<u8>>|
            #[trigger] may_answer(env, "NIRI_VK_DIRECT_TARGET", value) && settings.direct_target == (
            value == Some(seq![0x31u8])),
        config is None ==> exists|value: Option<Seq<u8>>|
            #[trigger] may_answer(env, "SMITHAY_FRAME_TIMING", value) && settings.timing_enabled == (
            value == Some(seq![0x31u8])),
        config is None ==> may_answer(env, "NIRI_FRAME_TIMING_FILE", settings@.timing_output),
{
    if let Some(config) = config {
        return resolve_block(config);
    }
    let bridge = env("NIRI_VKBRIDGE");
    let copy_device = env("NIRI_VK_COPY_DEVICE");
    let direct_target = if set_to(&bridge, "0") {
        None
    } else {
        env("NIRI_VK_DIRECT_TARGET")
    };
    let timing = env("SMITHAY_FRAME_TIMING");
    let timing_file = env("NIRI_FRAME_TIMING_FILE");
    let environment = Environment { bridge, copy_device, direct_target, timing, timing_file };
    assert(is_answer(env, environment));
    proof {
        lemma_digit_bytes();
        assert(may_answer(env, "NIRI_VKBRIDGE", value_view(environment.bridge)));
        assert(!switches_off(environment.bridge) ==> may_answer(
            env,
            "NIRI_VK_DIRECT_TARGET",
            value_view(environment.direct_target),
        ));
        assert(may_answer(env, "SMITHAY_FRAME_TIMING", value_view(environment.timing)));
        assert(may_answer(env, "NIRI_FRAME_TIMING_FILE", value_view(environment.timing_file)));
    }
    resolve_environment(environment)
}

/// How timing starts.
#[derive(Debug, PartialEq, Eq)]
pub enum TimingStart {
    /// Timing is off: no timer, thread, file or socket is created.
    Off,
    /// Timing is asked for without an output. Recording is switched off, with a warning, rather
    /// than collecting data that cannot be reported.
    NoOutput,
    /// Records are kept, and appended to a file.
    Report(FilePath),
}

/// Whether timing does not start at all.
pub open spec fn starts_off(settings: SettingsView) -> bool {
    !settings.timing_enabled
}

/// The file to which a policy reports.
pub open spec fn reports_to(settings: SettingsView) -> Option<Seq<u8>> {
    if settings.timing_enabled {
        settings.timing_output
    } else {
        None
    }
}

/// How timing starts under a policy.
pub fn timing_start(settings: &Settings) -> (start: TimingStart)
    ensures
        match start {
            TimingStart::Off => !settings@.timing_enabled,
            TimingStart::NoOutput => settings@.timing_enabled && settings@.timing_output is None,
            TimingStart::Report(path) => settings@.timing_enabled && settings@.timing_output == Some(
                path@,
            ),
        },
        start is Off <==> starts_off(settings@),
        start is Report <==> reports_to(settings@) is Some,
        start matches TimingStart::Report(path) ==> reports_to(settings@) == Some(path@),
{
    if !settings.timing_enabled {
        return TimingStart::Off;
    }
    match &settings.timing_output {
        Some(output) => TimingStart::Report(output.clone()),
        None => TimingStart::NoOutput,
    }
}

/// Direct writes need the bridge: no policy, of a block or of the environment, has them without
/// it.
pub proof fn law_direct_writes_need_the_bridge(
    config: crate::config::VulkanBridgeView,
    environment: EnvironmentView,
)
    ensures
        block_settings(config).direct_target ==> block_settings(config).enabled,
        environment_settings(environment).direct_target ==> environment_settings(environment).enabled,
{
}

/// An unknown word for the copy device is as good as none: the policy is the one without it.
pub proof fn law_unknown_copy_device_is_ignored(environment: EnvironmentView)
    requires
        copy_device_request(environment.copy_device) == CopyDeviceRequest::Unknown,
    ensures
        environment_settings(environment) == environment_settings(
            EnvironmentView { copy_device: None, ..environment },
        ),
{
}

/// A block owns the entire policy: where some item of the configuration is one, even one that
/// leaves every field out, the environment changes nothing.
pub proof fn law_block_owns_the_policy(
    items: Seq<crate::document::ConfigItemView>,
    one: EnvironmentView,
    other: EnvironmentView,
)
    requires
        exists|i: int| 0 <= i < items.len() && #[trigger] items[i] is Bridge,
    ensures
        ({
            let config = crate::document::ConfigView::unset().after(items).vulkan_bridge;
            policy(config, one) == policy(config, other)
        }),
{
    crate::document::law_policy_needs_a_block(items);
}

/// Without a block each setting follows its own variable. The bridge is off exactly where its
/// variable is the single byte of a zero. Timing is on exactly where its variable is the single
/// byte of a one, whatever the others hold, and its output is the file that is named, whether
/// timing is on or not. Direct writes are on exactly where their variable is that byte and the
/// bridge is not off. The copy runs on the output's GPU exactly where that is asked for by its
/// word, in lower case.
pub proof fn law_each_setting_follows_its_variable(environment: EnvironmentView)
    ensures
        ({
            let settings = policy(None, environment);
            let zero = seq![0x30u8];
            let one = seq![0x31u8];
            &&& settings.enabled <==> environment.bridge != Some(zero)
            &&& settings.timing_enabled <==> environment.timing == Some(one)
            &&& settings.timing_output == environment.timing_file
            &&& settings.direct_target <==> environment.direct_target == Some(one)
                && environment.bridge != Some(zero)
            &&& settings.copy_device == VulkanCopyDevice::Target <==> environment.copy_device == Some(
                vstd::utf8::encode_utf8(seq!['t', 'a', 'r', 'g', 'e', 't']),
            )
        }),
{
    lemma_digit_bytes();
    reveal_strlit("target");
    assert("target"@ =~= seq!['t', 'a', 'r', 'g', 'e', 't']);
}

/// Timing does not depend on the bridge: two environments that agree on the two variables of
/// timing have the same timing and the same output, whatever else they hold.
pub proof fn law_timing_is_independent_of_the_bridge(one: EnvironmentView, other: EnvironmentView)
    requires
        one.timing == other.timing,
        one.timing_file == other.timing_file,
    ensures
        policy(None, one).timing_enabled == policy(None, other).timing_enabled,
        policy(None, one).timing_output == policy(None, other).timing_output,
{
}

/// A word for the copy device is worth a warning exactly where there is one and it is neither of
/// the two that are known.
pub proof fn law_known_copy_devices(value: Option<Seq<u8>>)
    ensures
        ({
            let render = vstd::utf8::encode_utf8(seq!['r', 'e', 'n', 'd', 'e', 'r']);
            let target = vstd::utf8::encode_utf8(seq!['t', 'a', 'r', 'g', 'e', 't']);
            &&& copy_device_request(value) == CopyDeviceRequest::Unknown <==> (value matches Some(word)
                && word != render && word != target)
            &&& copy_device_request(value) == CopyDeviceRequest::Target <==> value == Some(target)
        }),
{
    reveal_strlit("render");
    reveal_strlit("target");
    assert("render"@ =~= seq!['r', 'e', 'n', 'd', 'e', 'r']);
    assert("target"@ =~= seq!['t', 'a', 'r', 'g', 'e', 't']);
    vstd::utf8::encode_utf8_decode_utf8("render"@);
    vstd::utf8::encode_utf8_decode_utf8("target"@);
    assert("render"@[0] != "target"@[0]);
}

/// A block sets the policy by its own values alone, each by the value of its name: direct writes
/// need the bridge too, and timing needs nothing but its own switch.
pub proof fn law_each_setting_follows_its_field(
    config: crate::config::VulkanBridgeView,
    environment: EnvironmentView,
)
    ensures
        ({
            let settings = policy(Some(config), environment);
            &&& settings.enabled <==> config.enabled
            &&& settings.direct_target <==> config.direct_target && config.enabled
            &&& settings.copy_device == VulkanCopyDevice::Target <==> config.copy_device
                == BridgeCopyDevice::Target
            &&& settings.timing_enabled <==> config.timing.enabled
            &&& settings.timing_output == config.timing.output
        }),
{
}

/// A report is written exactly where timing is switched on and has an output, and to that very
/// output. The bridge, its direct writes and its copy device have no say in it.
pub proof fn law_reports_need_a_switch_and_an_output(settings: SettingsView, path: Seq<u8>)
    ensures
        reports_to(settings) == Some(path) <==> settings.timing_enabled && settings.timing_output == Some(
            path,
        ),
        starts_off(settings) <==> !settings.timing_enabled,
{
}

} // verus!
