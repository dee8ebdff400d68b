//! The `vulkan-bridge` section of the configuration: its values, its schema, and how blocks
//! merge.

use vstd::prelude::*;
use vstd::string::*;

use crate::kdl::{KdlNode, Literal};
use crate::text::same_text;

verus! {

/// A file path as the bytes that the system takes. It need not be UTF-8, and nothing in it is
/// expanded.
#[derive(Debug, PartialEq, Eq)]
pub struct FilePath {
    pub bytes: Vec<u8>,
}

impl View for FilePath {
    type V = Seq<u8>;

    open spec fn view(&self) -> Seq<u8> {
        self.bytes@
    }
}

impl Clone for FilePath {
    fn clone(&self) -> (copy: Self)
        ensures
            copy@ == self@,
    {
        let bytes = self.bytes.clone();
        assert(bytes@ =~= self.bytes@);
        FilePath { bytes }
    }
}

impl FilePath {
    /// The path that a text spells.
    pub fn from_text(text: &str) -> (path: FilePath)
        ensures
            path@ == text.spec_bytes(),
    {
        FilePath { bytes: text.as_bytes_vec() }
    }
}

/// The content of an optional path.
pub open spec fn path_view(path: Option<FilePath>) -> Option<Seq<u8>> {
    match path {
        Some(path) => Some(path@),
        None => None,
    }
}

/// The GPU that runs the copy.
#[derive(Debug, Clone, Copy, PartialEq, Eq, Structural)]
pub enum BridgeCopyDevice {
    /// The GPU that renders the scene.
    Render,
    /// The GPU that drives the output.
    Target,
}

impl Default for BridgeCopyDevice {
    fn default() -> (device: Self)
        ensures
            device == BridgeCopyDevice::Render,
    {
        BridgeCopyDevice::Render
    }
}

/// Timing diagnostics.
#[derive(Debug, Clone, PartialEq, Eq)]
pub struct BridgeTiming {
    pub enabled: bool,
    /// Optional here: enabled timing without an output is handled at startup.
    pub output: Option<FilePath>,
}

/// Policy of the cross-GPU Vulkan bridge.
///
/// Presence of its section selects the whole policy instead of the environment. The primary
/// renderer is still selected by the `debug` section.
#[derive(Debug, Clone, PartialEq, Eq)]
pub struct VulkanBridge {
    pub enabled: bool,
    pub direct_target: bool,
    pub copy_device: BridgeCopyDevice,
    pub timing: BridgeTiming,
}

/// One `timing` block, as far as it is filled in.
#[derive(Debug, Clone, PartialEq, Eq)]
pub struct BridgeTimingPart {
    pub enabled: Option<bool>,
    pub output: Option<FilePath>,
}

/// One `vulkan-bridge` block, as far as it is filled in.
#[derive(Debug, Clone, PartialEq, Eq)]
pub struct VulkanBridgePart {
    pub enabled: Option<bool>,
    pub direct_target: Option<bool>,
    pub copy_device: Option<BridgeCopyDevice>,
    pub timing: Option<BridgeTimingPart>,
}

/// The content of `BridgeTiming`.
pub struct BridgeTimingView {
    pub enabled: bool,
    pub output: Option<Seq<u8>>,
}

/// The content of `VulkanBridge`.
pub struct VulkanBridgeView {
    pub enabled: bool,
    pub direct_target: bool,
    pub copy_device: BridgeCopyDevice,
    pub timing: BridgeTimingView,
}

/// The content of `BridgeTimingPart`.
pub struct BridgeTimingPartView {
    pub enabled: Option<bool>,
    pub output: Option<Seq<u8>>,
}

/// The content of `VulkanBridgePart`.
pub struct VulkanBridgePartView {
    pub enabled: Option<bool>,
    pub direct_target: Option<bool>,
    pub copy_device: Option<BridgeCopyDevice>,
    pub timing: Option<BridgeTimingPartView>,
}

/// The later of two settings of one field: `set` where it is filled in, else what was there.
pub open spec fn later<T>(set: Option<T>, before: T) -> T {
    match set {
        Some(value) => value,
        None => before,
    }
}

impl BridgeTimingView {
    /// The values of an absent or empty block.
    pub open spec fn default_values() -> Self {
        BridgeTimingView { enabled: false, output: None }
    }

    /// These values with those of a block over them. An output, once set, can be replaced but
    /// not unset.
    pub open spec fn merged(self, part: BridgeTimingPartView) -> Self {
        BridgeTimingView {
            enabled: later(part.enabled, self.enabled),
            output: if part.output is Some { part.output } else { self.output },
        }
    }
}

impl VulkanBridgeView {
    /// The values of an empty block.
    pub open spec fn default_values() -> Self {
        VulkanBridgeView {
            enabled: true,
            direct_target: true,
            copy_device: BridgeCopyDevice::Render,
            timing: BridgeTimingView::default_values(),
        }
    }

    /// These values with those of a block over them.
    pub open spec fn merged(self, part: VulkanBridgePartView) -> Self {
        VulkanBridgeView {
            enabled: later(part.enabled, self.enabled),
            direct_target: later(part.direct_target, self.direct_target),
            copy_device: later(part.copy_device, self.copy_device),
            timing: match part.timing {
                Some(timing) => self.timing.merged(timing),
                None => self.timing,
            },
        }
    }
}

impl View for BridgeTiming {
    type V = BridgeTimingView;

    open spec fn view(&self) -> BridgeTimingView {
        BridgeTimingView { enabled: self.enabled, output: path_view(self.output) }
    }
}

impl View for VulkanBridge {
    type V = VulkanBridgeView;

    open spec fn view(&self) -> VulkanBridgeView {
        VulkanBridgeView {
            enabled: self.enabled,
            direct_target: self.direct_target,
            copy_device: self.copy_device,
            timing: self.timing@,
        }
    }
}

impl View for BridgeTimingPart {
    type V = BridgeTimingPartView;

    open spec fn view(&self) -> BridgeTimingPartView {
        BridgeTimingPartView { enabled: self.enabled, output: path_view(self.output) }
    }
}

impl View for VulkanBridgePart {
    type V = VulkanBridgePartView;

    open spec fn view(&self) -> VulkanBridgePartView {
        VulkanBridgePartView {
            enabled: self.enabled,
            direct_target: self.direct_target,
            copy_device: self.copy_device,
            timing: match self.timing {
                Some(timing) => Some(timing@),
                None => None,
            },
        }
    }
}

impl Default for BridgeTiming {
    /// Timing is off, with no output.
    fn default() -> (timing: Self)
        ensures
            timing@ == BridgeTimingView::default_values(),
    {
        BridgeTiming { enabled: false, output: None }
    }
}

impl Default for VulkanBridge {
    /// The bridge is on, writes directly, and copies on the rendering GPU.
    fn default() -> (bridge: Self)
        ensures
            bridge@ == VulkanBridgeView::default_values(),
    {
        VulkanBridge {
            enabled: true,
            direct_target: true,
            copy_device: BridgeCopyDevice::Render,
            timing: BridgeTiming { enabled: false, output: None },
        }
    }
}

impl BridgeTiming {
    /// Puts the values of a block over these.
    pub fn merge_with(&mut self, part: &BridgeTimingPart)
        ensures
            final(self)@ == old(self)@.merged(part@),
    {
        if let Some(enabled) = part.enabled {
            self.enabled = enabled;
        }
        if let Some(output) = &part.output {
            self.output = Some(output.clone());
        }
    }
}

impl VulkanBridge {
    /// Puts the values of a block over these.
    pub fn merge_with(&mut self, part: &VulkanBridgePart)
        ensures
            final(self)@ == old(self)@.merged(part@),
    {
        if let Some(enabled) = part.enabled {
            self.enabled = enabled;
        }
        if let Some(direct_target) = part.direct_target {
            self.direct_target = direct_target;
        }
        if let Some(copy_device) = part.copy_device {
            self.copy_device = copy_device;
        }
        if let Some(timing) = &part.timing {
            self.timing.merge_with(timing);
        }
    }
}

impl Default for BridgeTimingPart {
    /// An empty block.
    fn default() -> (part: Self)
        ensures
            part@ == (BridgeTimingPartView { enabled: None, output: None }),
    {
        BridgeTimingPart { enabled: None, output: None }
    }
}

impl Default for VulkanBridgePart {
    /// An empty block.
    fn default() -> (part: Self)
        ensures
            part@ == VulkanBridgePartView::empty(),
    {
        VulkanBridgePart { enabled: None, direct_target: None, copy_device: None, timing: None }
    }
}

impl VulkanBridgePartView {
    /// A block with nothing filled in.
    pub open spec fn empty() -> Self {
        VulkanBridgePartView { enabled: None, direct_target: None, copy_device: None, timing: None }
    }
}

/// The single scalar of a node that holds nothing else; `None` for any other node. A type
/// annotation is allowed before the name, but not before the value.
pub open spec fn scalar_of(node: crate::kdl::KdlTree) -> Option<crate::kdl::LiteralView> {
    if node.arguments.len() == 1 && !node.arguments[0].typed && node.properties == 0
        && node.children.len() == 0 {
        Some(node.arguments[0].literal)
    } else {
        None
    }
}

/// The boolean that a node sets.
pub open spec fn bool_of(node: crate::kdl::KdlTree) -> Option<bool> {
    match scalar_of(node) {
        Some(crate::kdl::LiteralView::Bool(value)) => Some(value),
        _ => None,
    }
}

/// The text that a node sets.
pub open spec fn text_of(node: crate::kdl::KdlTree) -> Option<Seq<char>> {
    match scalar_of(node) {
        Some(crate::kdl::LiteralView::Text(text)) => Some(text),
        _ => None,
    }
}

/// The path that a node sets.
pub open spec fn path_of(node: crate::kdl::KdlTree) -> Option<Seq<u8>> {
    match text_of(node) {
        Some(text) => Some(vstd::utf8::encode_utf8(text)),
        None => None,
    }
}

/// The copy device that a node sets: one of two words, in lower case.
pub open spec fn copy_device_of(node: crate::kdl::KdlTree) -> Option<BridgeCopyDevice> {
    match text_of(node) {
        Some(text) => if text == "render"@ {
            Some(BridgeCopyDevice::Render)
        } else if text == "target"@ {
            Some(BridgeCopyDevice::Target)
        } else {
            None
        },
        None => None,
    }
}

/// Whether a node is a section: children and nothing else.
pub open spec fn is_section(node: crate::kdl::KdlTree) -> bool {
    !node.typed && node.arguments.len() == 0 && node.properties == 0
}

/// Whether no two nodes share a name.
pub open spec fn distinct_names(nodes: Seq<crate::kdl::KdlTree>) -> bool {
    forall|i: int, j: int|
        0 <= i < j < nodes.len() ==> (#[trigger] nodes[i]).name != (#[trigger] nodes[j]).name
}

/// The node of a name, if there is one. Of several it is the last.
pub open spec fn named(
    nodes: Seq<crate::kdl::KdlTree>,
    name: Seq<char>,
) -> Option<crate::kdl::KdlTree>
    decreases nodes.len(),
{
    if nodes.len() == 0 {
        None
    } else if nodes.last().name == name {
        Some(nodes.last())
    } else {
        named(nodes.drop_last(), name)
    }
}

/// Whether a node may stand in a `timing` block.
pub open spec fn timing_child(node: crate::kdl::KdlTree) -> bool {
    ||| node.name == "enabled"@ && bool_of(node) is Some
    ||| node.name == "output"@ && path_of(node) is Some
}

/// Whether a node is a well-formed `timing` block.
pub open spec fn is_timing(node: crate::kdl::KdlTree) -> bool {
    &&& is_section(node)
    &&& distinct_names(node.children)
    &&& forall|i: int| 0 <= i < node.children.len() ==> timing_child(#[trigger] node.children[i])
}

/// What the children of a well-formed `timing` block fill in.
pub open spec fn timing_values(children: Seq<crate::kdl::KdlTree>) -> BridgeTimingPartView {
    BridgeTimingPartView {
        enabled: match named(children, "enabled"@) {
            Some(node) => bool_of(node),
            None => None,
        },
        output: match named(children, "output"@) {
            Some(node) => path_of(node),
            None => None,
        },
    }
}

/// Whether a node may stand in a `vulkan-bridge` block.
pub open spec fn bridge_child(node: crate::kdl::KdlTree) -> bool {
    ||| node.name == "enabled"@ && bool_of(node) is Some
    ||| node.name == "direct-target"@ && bool_of(node) is Some
    ||| node.name == "copy-device"@ && copy_device_of(node) is Some
    ||| node.name == "timing"@ && is_timing(node)
}

/// Whether a node is a well-formed `vulkan-bridge` block: no unknown child, none twice, each
/// with a value of its kind.
pub open spec fn is_bridge(node: crate::kdl::KdlTree) -> bool {
    &&& is_section(node)
    &&& distinct_names(node.children)
    &&& forall|i: int| 0 <= i < node.children.len() ==> bridge_child(#[trigger] node.children[i])
}

/// What the children of a well-formed `vulkan-bridge` block fill in.
pub open spec fn bridge_values(children: Seq<crate::kdl::KdlTree>) -> VulkanBridgePartView {
    VulkanBridgePartView {
        enabled: match named(children, "enabled"@) {
            Some(node) => bool_of(node),
            None => None,
        },
        direct_target: match named(children, "direct-target"@) {
            Some(node) => bool_of(node),
            None => None,
        },
        copy_device: match named(children, "copy-device"@) {
            Some(node) => copy_device_of(node),
            None => None,
        },
        timing: match named(children, "timing"@) {
            Some(node) => Some(timing_values(node.children)),
            None => None,
        },
    }
}

/// A name is found exactly where some node has it.
pub(crate) proof fn lemma_named(nodes: Seq<crate::kdl::KdlTree>, name: Seq<char>)
    ensures
        named(nodes, name) is Some <==> exists|i: int|
            0 <= i < nodes.len() && (#[trigger] nodes[i]).name == name,
        named(nodes, name) matches Some(node) ==> node.name == name && nodes.contains(node),
    decreases nodes.len(),
{
    if nodes.len() > 0 && nodes.last().name != name {
        lemma_named(nodes.drop_last(), name);
        if named(nodes, name) is Some {
            let node = named(nodes, name)->0;
            let i = choose|i: int| 0 <= i < nodes.drop_last().len() && nodes.drop_last()[i] == node;
            assert(nodes[i] == node);
        }
        assert forall|i: int| 0 <= i < nodes.len() && (#[trigger] nodes[i]).name == name implies named(
            nodes,
            name,
        ) is Some by {
            assert(nodes.drop_last()[i].name == name);
        }
    } else if nodes.len() > 0 {
        assert(nodes[nodes.len() - 1].name == name);
    }
}

/// What one more node does to a list without a repeated name.
proof fn lemma_one_more(nodes: Seq<crate::kdl::KdlTree>, i: int)
    requires
        0 <= i < nodes.len(),
        distinct_names(nodes.take(i)),
    ensures
        nodes.take(i + 1).drop_last() == nodes.take(i),
        nodes.take(i + 1).last() == nodes[i],
        distinct_names(nodes.take(i + 1)) <==> named(nodes.take(i), nodes[i].name) is None,
        !distinct_names(nodes.take(i + 1)) ==> !distinct_names(nodes),
{
    let before = nodes.take(i);
    let after = nodes.take(i + 1);
    assert(after.drop_last() =~= before);
    lemma_named(before, nodes[i].name);
    if named(before, nodes[i].name) is Some {
        let k = choose|k: int| 0 <= k < before.len() && (#[trigger] before[k]).name == nodes[i].name;
        assert(after[k].name == after[i].name);
        assert(nodes[k].name == nodes[i].name);
    } else {
        assert forall|a: int, b: int| 0 <= a < b < after.len() implies (#[trigger] after[a]).name != (
        #[trigger] after[b]).name by {
            assert(before[a] == after[a]);
            if b < i {
                assert(before[b] == after[b]);
            }
        }
    }
}

/// The names that the sections know are all different.
proof fn lemma_known_names()
    ensures
        "enabled"@ != "output"@,
        "enabled"@ != "direct-target"@,
        "enabled"@ != "copy-device"@,
        "enabled"@ != "timing"@,
        "direct-target"@ != "copy-device"@,
        "direct-target"@ != "timing"@,
        "copy-device"@ != "timing"@,
{
    reveal_strlit("enabled");
    reveal_strlit("output");
    reveal_strlit("direct-target");
    reveal_strlit("copy-device");
    reveal_strlit("timing");
    assert("enabled"@.len() == 7);
    assert("output"@.len() == 6);
    assert("direct-target"@.len() == 13);
    assert("copy-device"@.len() == 11);
    assert("timing"@.len() == 6);
}

fn scalar(node: &KdlNode) -> (value: Option<&Literal>)
    ensures
        match value {
            Some(value) => scalar_of(node.tree()) == Some(value@),
            None => scalar_of(node.tree()) is None,
        },
{
    if node.arguments.len() == 1 && !node.arguments[0].typed && node.properties == 0
        && node.children.len() == 0 {
        Some(&node.arguments[0].literal)
    } else {
        None
    }
}

fn bool_value(node: &KdlNode) -> (value: Option<bool>)
    ensures
        value == bool_of(node.tree()),
{
    match scalar(node) {
        Some(Literal::Bool(value)) => Some(*value),
        _ => None,
    }
}

fn text_value(node: &KdlNode) -> (value: Option<&String>)
    ensures
        match value {
            Some(value) => text_of(node.tree()) == Some(value@),
            None => text_of(node.tree()) is None,
        },
{
    match scalar(node) {
        Some(Literal::Text(text)) => Some(text),
        _ => None,
    }
}

pub(crate) fn path_value(node: &KdlNode) -> (value: Option<FilePath>)
    ensures
        path_view(value) == path_of(node.tree()),
{
    match text_value(node) {
        Some(text) => Some(FilePath::from_text(text.as_str())),
        None => None,
    }
}

fn copy_device_value(node: &KdlNode) -> (value: Option<BridgeCopyDevice>)
    ensures
        value == copy_device_of(node.tree()),
{
    match text_value(node) {
        Some(text) => if same_text(text.as_str(), "render") {
            Some(BridgeCopyDevice::Render)
        } else if same_text(text.as_str(), "target") {
            Some(BridgeCopyDevice::Target)
        } else {
            None
        },
        None => None,
    }
}

pub(crate) fn section(node: &KdlNode) -> (is: bool)
    ensures
        is == is_section(node.tree()),
{
    !node.typed && node.arguments.len() == 0 && node.properties == 0
}

/// Reads a `timing` block; `None` where it is not well formed.
pub fn decode_timing(node: &KdlNode) -> (part: Option<BridgeTimingPart>)
    ensures
        part is Some <==> is_timing(node.tree()),
        part matches Some(part) ==> part@ == timing_values(node.tree().children),
{
    if !section(node) {
        return None;
    }
    let ghost children = node.tree().children;
    let mut part = BridgeTimingPart { enabled: None, output: None };
    let mut i: usize = 0;
    proof {
        lemma_known_names();
        assert(children.take(0) =~= Seq::<crate::kdl::KdlTree>::empty());
    }
    while i < node.children.len()
        invariant
            i <= node.children@.len(),
            children == node.tree().children,
            children.len() == node.children@.len(),
            forall|j: int| 0 <= j < children.len() ==> #[trigger] children[j] == node.children@[j].tree(),
            distinct_names(children.take(i as int)),
            forall|j: int| 0 <= j < i ==> timing_child(#[trigger] children[j]),
            part@ == timing_values(children.take(i as int)),
            part.enabled is Some <==> named(children.take(i as int), "enabled"@) is Some,
            part.output is Some <==> named(children.take(i as int), "output"@) is Some,
            "enabled"@ != "output"@,
        decreases node.children@.len() - i,
    {
        let child = &node.children[i];
        proof {
            assert(children[i as int] == child.tree());
            lemma_one_more(children, i as int);
        }
        if same_text(child.name.as_str(), "enabled") && part.enabled.is_none() {
            part.enabled = bool_value(child);
            if part.enabled.is_none() {
                return None;
            }
        } else if same_text(child.name.as_str(), "output") && part.output.is_none() {
            part.output = path_value(child);
            if part.output.is_none() {
                return None;
            }
        } else {
            return None;
        }
        i = i + 1;
    }
    assert(children.take(i as int) =~= children);
    Some(part)
}

/// Reads a `vulkan-bridge` block; `None` where it is not well formed.
pub fn decode_bridge(node: &KdlNode) -> (part: Option<VulkanBridgePart>)
    ensures
        part is Some <==> is_bridge(node.tree()),
        part matches Some(part) ==> part@ == bridge_values(node.tree().children),
{
    if !section(node) {
        return None;
    }
    let ghost children = node.tree().children;
    let mut part = VulkanBridgePart {
        enabled: None,
        direct_target: None,
        copy_device: None,
        timing: None,
    };
    let mut i: usize = 0;
    proof {
        lemma_known_names();
        assert(children.take(0) =~= Seq::<crate::kdl::KdlTree>::empty());
    }
    while i < node.children.len()
        invariant
            i <= node.children@.len(),
            children == node.tree().children,
            children.len() == node.children@.len(),
            forall|j: int| 0 <= j < children.len() ==> #[trigger] children[j] == node.children@[j].tree(),
            distinct_names(children.take(i as int)),
            forall|j: int| 0 <= j < i ==> bridge_child(#[trigger] children[j]),
            part@ == bridge_values(children.take(i as int)),
            part.enabled is Some <==> named(children.take(i as int), "enabled"@) is Some,
            part.direct_target is Some <==> named(children.take(i as int), "direct-target"@) is Some,
            part.copy_device is Some <==> named(children.take(i as int), "copy-device"@) is Some,
            part.timing is Some <==> named(children.take(i as int), "timing"@) is Some,
        decreases node.children@.len() - i,
    {
        let child = &node.children[i];
        proof {
            lemma_known_names();
            assert(children[i as int] == child.tree());
            lemma_one_more(children, i as int);
        }
        if same_text(child.name.as_str(), "enabled") && part.enabled.is_none() {
            part.enabled = bool_value(child);
            if part.enabled.is_none() {
                return None;
            }
        } else if same_text(child.name.as_str(), "direct-target") && part.direct_target.is_none() {
            part.direct_target = bool_value(child);
            if part.direct_target.is_none() {
                return None;
            }
        } else if same_text(child.name.as_str(), "copy-device") && part.copy_device.is_none() {
            part.copy_device = copy_device_value(child);
            if part.copy_device.is_none() {
                return None;
            }
        } else if same_text(child.name.as_str(), "timing") && part.timing.is_none() {
            part.timing = decode_timing(child);
            if part.timing.is_none() {
                return None;
            }
        } else {
            return None;
        }
        i = i + 1;
    }
    assert(children.take(i as int) =~= children);
    Some(part)
}

impl VulkanBridgePartView {
    /// Two blocks, one after the other, as one: field by field, the second where it is filled in.
    pub open spec fn then_part(self, second: Self) -> Self {
        VulkanBridgePartView {
            enabled: if second.enabled is Some { second.enabled } else { self.enabled },
            direct_target: if second.direct_target is Some {
                second.direct_target
            } else {
                self.direct_target
            },
            copy_device: if second.copy_device is Some {
                second.copy_device
            } else {
                self.copy_device
            },
            timing: match (self.timing, second.timing) {
                (Some(one), Some(two)) => Some(
                    BridgeTimingPartView {
                        enabled: if two.enabled is Some { two.enabled } else { one.enabled },
                        output: if two.output is Some { two.output } else { one.output },
                    },
                ),
                (one, None) => one,
                (None, two) => two,
            },
        }
    }
}

/// Blocks merge by field: two blocks act like one that holds, for each field, the later setting.
pub proof fn law_blocks_merge_by_field(
    bridge: VulkanBridgeView,
    first: VulkanBridgePartView,
    second: VulkanBridgePartView,
)
    ensures
        bridge.merged(first).merged(second) == bridge.merged(first.then_part(second)),
{
}

/// A field that a block leaves out keeps its value: an empty block, with or without an empty
/// `timing` block, changes nothing.
pub proof fn law_omitted_fields_keep_their_values(bridge: VulkanBridgeView)
    ensures
        bridge.merged(VulkanBridgePartView::empty()) == bridge,
        bridge.merged(
            VulkanBridgePartView {
                timing: Some(BridgeTimingPartView { enabled: None, output: None }),
                ..VulkanBridgePartView::empty()
            },
        ) == bridge,
{
}

/// A field that a block fills in takes its value, whatever it was before.
pub proof fn law_filled_fields_take_their_values(
    bridge: VulkanBridgeView,
    part: VulkanBridgePartView,
)
    ensures
        ({
            let merged = bridge.merged(part);
            &&& part.enabled matches Some(enabled) ==> merged.enabled == enabled
            &&& part.direct_target matches Some(direct) ==> merged.direct_target == direct
            &&& part.copy_device matches Some(device) ==> merged.copy_device == device
            &&& part.timing matches Some(timing) ==> {
                &&& timing.enabled matches Some(enabled) ==> merged.timing.enabled == enabled
                &&& timing.output is Some ==> merged.timing.output == timing.output
            }
        }),
        bridge.merged(part).merged(part) == bridge.merged(part),
{
}

/// A field that a block leaves out keeps its value whatever else the block fills in.
pub proof fn law_each_omitted_field_keeps_its_value(
    bridge: VulkanBridgeView,
    part: VulkanBridgePartView,
)
    ensures
        ({
            let merged = bridge.merged(part);
            &&& part.enabled is None ==> merged.enabled == bridge.enabled
            &&& part.direct_target is None ==> merged.direct_target == bridge.direct_target
            &&& part.copy_device is None ==> merged.copy_device == bridge.copy_device
            &&& part.timing is None ==> merged.timing == bridge.timing
            &&& part.timing matches Some(timing) ==> {
                &&& timing.enabled is None ==> merged.timing.enabled == bridge.timing.enabled
                &&& timing.output is None ==> merged.timing.output == bridge.timing.output
            }
        }),
{
}

/// Whether a node holds one scalar, without a type annotation, and nothing else.
pub open spec fn holds_only(node: crate::kdl::KdlTree, literal: crate::kdl::LiteralView) -> bool {
    &&& node.arguments == seq![crate::kdl::ArgumentView { typed: false, literal }]
    &&& node.properties == 0
    &&& node.children == Seq::<crate::kdl::KdlTree>::empty()
}

proof fn lemma_scalar(node: crate::kdl::KdlTree, literal: crate::kdl::LiteralView)
    ensures
        scalar_of(node) == Some(literal) <==> holds_only(node, literal),
{
    if scalar_of(node) == Some(literal) {
        assert(node.arguments =~= seq![crate::kdl::ArgumentView { typed: false, literal }]);
        assert(node.children =~= Seq::<crate::kdl::KdlTree>::empty());
    }
}

/// A value is read from a node exactly where the node holds that scalar, without a type
/// annotation, and nothing else: booleans as such, texts as paths byte for byte, and the copy
/// device by its two words in lower case.
pub proof fn law_values_are_single_scalars(
    node: crate::kdl::KdlTree,
    flag: bool,
    text: Seq<char>,
)
    ensures
        bool_of(node) == Some(flag) <==> holds_only(node, crate::kdl::LiteralView::Bool(flag)),
        text_of(node) == Some(text) <==> holds_only(node, crate::kdl::LiteralView::Text(text)),
        holds_only(node, crate::kdl::LiteralView::Text(text)) ==> path_of(node) == Some(
            vstd::utf8::encode_utf8(text),
        ),
        path_of(node) is Some <==> text_of(node) is Some,
        copy_device_of(node) == Some(BridgeCopyDevice::Render) <==> holds_only(
            node,
            crate::kdl::LiteralView::Text(seq!['r', 'e', 'n', 'd', 'e', 'r']),
        ),
        copy_device_of(node) == Some(BridgeCopyDevice::Target) <==> holds_only(
            node,
            crate::kdl::LiteralView::Text(seq!['t', 'a', 'r', 'g', 'e', 't']),
        ),
{
    reveal_strlit("render");
    reveal_strlit("target");
    assert("render"@ =~= seq!['r', 'e', 'n', 'd', 'e', 'r']);
    assert("target"@ =~= seq!['t', 'a', 'r', 'g', 'e', 't']);
    assert("render"@[0] != "target"@[0]);
    lemma_scalar(node, crate::kdl::LiteralView::Bool(flag));
    lemma_scalar(node, crate::kdl::LiteralView::Text(text));
    lemma_scalar(node, crate::kdl::LiteralView::Text("render"@));
    lemma_scalar(node, crate::kdl::LiteralView::Text("target"@));
}

proof fn lemma_named_at(nodes: Seq<crate::kdl::KdlTree>, i: int)
    requires
        distinct_names(nodes),
        0 <= i < nodes.len(),
    ensures
        named(nodes, nodes[i].name) == Some(nodes[i]),
{
    lemma_named(nodes, nodes[i].name);
    let node = named(nodes, nodes[i].name)->0;
    let k = choose|k: int| 0 <= k < nodes.len() && nodes[k] == node;
    assert(k == i);
}

/// A well-formed `timing` block is a bare section in which no name stands twice and every child
/// is one of the two known ones, with a value of its kind. It fills in exactly what its children
/// set.
pub proof fn law_timing_blocks(node: crate::kdl::KdlTree, i: int)
    requires
        is_timing(node),
        0 <= i < node.children.len(),
    ensures
        ({
            let child = node.children[i];
            let values = timing_values(node.children);
            &&& !node.typed
            &&& node.arguments.len() == 0
            &&& node.properties == 0
            &&& forall|j: int|
                0 <= j < node.children.len() && j != i ==> (#[trigger] node.children[j]).name
                    != child.name
            &&& child.name == "enabled"@ || child.name == "output"@
            &&& child.name == "enabled"@ ==> values.enabled is Some && holds_only(
                child,
                crate::kdl::LiteralView::Bool(values.enabled->0),
            )
            &&& child.name == "output"@ ==> exists|text: Seq<char>|
                #[trigger] holds_only(child, crate::kdl::LiteralView::Text(text)) && values.output
                    == Some(vstd::utf8::encode_utf8(text))
        }),
{
    let child = node.children[i];
    lemma_known_names();
    lemma_named_at(node.children, i);
    assert(timing_child(child));
    assert forall|j: int| 0 <= j < node.children.len() && j != i implies (
    #[trigger] node.children[j]).name != child.name by {
        if j < i {
            assert(node.children[j].name != node.children[i].name);
        } else {
            assert(node.children[i].name != node.children[j].name);
        }
    }
    if child.name == "enabled"@ {
        law_values_are_single_scalars(child, bool_of(child)->0, Seq::empty());
    } else {
        law_values_are_single_scalars(child, false, text_of(child)->0);
    }
}

/// What no child of a `timing` block sets, the block leaves out; and every block that keeps to
/// the rules is well formed.
pub proof fn law_timing_blocks_are_accepted(node: crate::kdl::KdlTree)
    ensures
        (forall|i: int| 0 <= i < node.children.len() ==> (#[trigger] node.children[i]).name
            != "enabled"@) ==> timing_values(node.children).enabled is None,
        (forall|i: int| 0 <= i < node.children.len() ==> (#[trigger] node.children[i]).name
            != "output"@) ==> timing_values(node.children).output is None,
        !node.typed && node.arguments.len() == 0 && node.properties == 0 && (forall|i: int, j: int|
            0 <= i < j < node.children.len() ==> (#[trigger] node.children[i]).name != (
            #[trigger] node.children[j]).name) && (forall|i: int|
            0 <= i < node.children.len() ==> {
                let child = #[trigger] node.children[i];
                ||| child.name == "enabled"@ && (exists|flag: bool|
                    holds_only(child, crate::kdl::LiteralView::Bool(flag)))
                ||| child.name == "output"@ && (exists|text: Seq<char>|
                    holds_only(child, crate::kdl::LiteralView::Text(text)))
            }) ==> is_timing(node),
{
    lemma_named(node.children, "enabled"@);
    lemma_named(node.children, "output"@);
    assert forall|child: crate::kdl::KdlTree, flag: bool|
        holds_only(child, crate::kdl::LiteralView::Bool(flag)) implies bool_of(child) is Some by {
        law_values_are_single_scalars(child, flag, Seq::empty());
    }
    assert forall|child: crate::kdl::KdlTree, text: Seq<char>|
        holds_only(child, crate::kdl::LiteralView::Text(text)) implies path_of(child) is Some by {
        law_values_are_single_scalars(child, false, text);
    }
}

/// A well-formed `vulkan-bridge` block is a bare section in which no name stands twice and every
/// child is one of the four known ones, with a value of its kind. It fills in exactly what its
/// children set.
pub proof fn law_bridge_blocks(node: crate::kdl::KdlTree, i: int)
    requires
        is_bridge(node),
        0 <= i < node.children.len(),
    ensures
        ({
            let child = node.children[i];
            let values = bridge_values(node.children);
            &&& !node.typed
            &&& node.arguments.len() == 0
            &&& node.properties == 0
            &&& forall|j: int|
                0 <= j < node.children.len() && j != i ==> (#[trigger] node.children[j]).name
                    != child.name
            &&& child.name == "enabled"@ || child.name == "direct-target"@ || child.name
                == "copy-device"@ || child.name == "timing"@
            &&& child.name == "enabled"@ ==> values.enabled is Some && holds_only(
                child,
                crate::kdl::LiteralView::Bool(values.enabled->0),
            )
            &&& child.name == "direct-target"@ ==> values.direct_target is Some && holds_only(
                child,
                crate::kdl::LiteralView::Bool(values.direct_target->0),
            )
            &&& child.name == "copy-device"@ ==> values.copy_device is Some && holds_only(
                child,
                crate::kdl::LiteralView::Text(
                    if values.copy_device == Some(BridgeCopyDevice::Target) {
                        seq!['t', 'a', 'r', 'g', 'e', 't']
                    } else {
                        seq!['r', 'e', 'n', 'd', 'e', 'r']
                    },
                ),
            )
            &&& child.name == "timing"@ ==> is_timing(child) && values.timing == Some(
                timing_values(child.children),
            )
        }),
{
    let child = node.children[i];
    lemma_known_names();
    lemma_named_at(node.children, i);
    assert(bridge_child(child));
    assert forall|j: int| 0 <= j < node.children.len() && j != i implies (
    #[trigger] node.children[j]).name != child.name by {
        if j < i {
            assert(node.children[j].name != node.children[i].name);
        } else {
            assert(node.children[i].name != node.children[j].name);
        }
    }
    if child.name == "enabled"@ || child.name == "direct-target"@ {
        law_values_are_single_scalars(child, bool_of(child)->0, Seq::empty());
    } else if child.name == "copy-device"@ {
        law_values_are_single_scalars(child, false, text_of(child)->0);
    }
}

/// What no child of a `vulkan-bridge` block sets, the block leaves out; and every block that keeps
/// to the rules is well formed.
pub proof fn law_bridge_blocks_are_accepted(node: crate::kdl::KdlTree)
    ensures
        (forall|i: int| 0 <= i < node.children.len() ==> (#[trigger] node.children[i]).name
            != "enabled"@) ==> bridge_values(node.children).enabled is None,
        (forall|i: int| 0 <= i < node.children.len() ==> (#[trigger] node.children[i]).name
            != "direct-target"@) ==> bridge_values(node.children).direct_target is None,
        (forall|i: int| 0 <= i < node.children.len() ==> (#[trigger] node.children[i]).name
            != "copy-device"@) ==> bridge_values(node.children).copy_device is None,
        (forall|i: int| 0 <= i < node.children.len() ==> (#[trigger] node.children[i]).name
            != "timing"@) ==> bridge_values(node.children).timing is None,
        !node.typed && node.arguments.len() == 0 && node.properties == 0 && (forall|i: int, j: int|
            0 <= i < j < node.children.len() ==> (#[trigger] node.children[i]).name != (
            #[trigger] node.children[j]).name) && (forall|i: int|
            0 <= i < node.children.len() ==> {
                let child = #[trigger] node.children[i];
                ||| (child.name == "enabled"@ || child.name == "direct-target"@) && (exists|flag: bool|
                    holds_only(child, crate::kdl::LiteralView::Bool(flag)))
                ||| child.name == "copy-device"@ && holds_only(
                    child,
                    crate::kdl::LiteralView::Text(seq!['r', 'e', 'n', 'd', 'e', 'r']),
                )
                ||| child.name == "copy-device"@ && holds_only(
                    child,
                    crate::kdl::LiteralView::Text(seq!['t', 'a', 'r', 'g', 'e', 't']),
                )
                ||| child.name == "timing"@ && is_timing(child)
            }) ==> is_bridge(node),
{
    lemma_named(node.children, "enabled"@);
    lemma_named(node.children, "direct-target"@);
    lemma_named(node.children, "copy-device"@);
    lemma_named(node.children, "timing"@);
    assert forall|child: crate::kdl::KdlTree, flag: bool|
        holds_only(child, crate::kdl::LiteralView::Bool(flag)) implies bool_of(child) is Some by {
        law_values_are_single_scalars(child, flag, Seq::empty());
    }
    assert forall|child: crate::kdl::KdlTree|
        #![trigger copy_device_of(child)]
        holds_only(child, crate::kdl::LiteralView::Text(seq!['r', 'e', 'n', 'd', 'e', 'r']))
            || holds_only(
            child,
            crate::kdl::LiteralView::Text(seq!['t', 'a', 'r', 'g', 'e', 't']),
        ) implies copy_device_of(child) is Some by {
        law_values_are_single_scalars(child, false, Seq::empty());
    }
}

} // verus!
