//! The configuration as a whole: the sections that concern the bridge, in the order in which
//! they stand, and the includes between them.

use vstd::prelude::*;
use vstd::string::*;

use crate::config::{decode_bridge, path_value, section, FilePath, VulkanBridge, VulkanBridgePart};
use crate::kdl::{parse_document, KdlNode};
use crate::text::same_text;

verus! {

/// One step of the configuration.
#[derive(Debug, PartialEq, Eq)]
pub enum ConfigItem {
    /// A `vulkan-bridge` block.
    Bridge(VulkanBridgePart),
    /// A `debug` block: the device that it selects for rendering, if it does.
    Debug(Option<FilePath>),
    /// Another file, whose items stand here.
    Include(FilePath),
}

/// The content of an item.
pub enum ConfigItemView {
    Bridge(crate::config::VulkanBridgePartView),
    Debug(Option<Seq<u8>>),
    Include(Seq<u8>),
}

impl View for ConfigItem {
    type V = ConfigItemView;

    open spec fn view(&self) -> ConfigItemView {
        match self {
            ConfigItem::Bridge(part) => ConfigItemView::Bridge(part@),
            ConfigItem::Debug(device) => ConfigItemView::Debug(crate::config::path_view(*device)),
            ConfigItem::Include(path) => ConfigItemView::Include(path@),
        }
    }
}

/// The contents of several items.
pub open spec fn item_views(items: Seq<ConfigItem>) -> Seq<ConfigItemView> {
    items.map_values(|item: ConfigItem| item@)
}

/// Why a text is no configuration.
#[derive(Debug, Clone, Copy, PartialEq, Eq, Structural)]
pub enum ConfigError {
    /// The text is no KDL document.
    Syntax,
    /// A section is malformed or stands twice.
    Section,
    /// The text names another file, which is not at hand.
    Include,
}

/// Options of the `debug` section.
#[derive(Debug, PartialEq, Eq)]
pub struct DebugOptions {
    /// The device that renders, where it is selected by hand.
    pub render_drm_device: Option<FilePath>,
}

/// The configuration, as far as it concerns the bridge.
#[derive(Debug, PartialEq, Eq)]
pub struct Config {
    /// The policy of the bridge; `None` where no section sets one.
    pub vulkan_bridge: Option<VulkanBridge>,
    pub debug: DebugOptions,
}

/// The content of `Config`.
pub struct ConfigView {
    pub vulkan_bridge: Option<crate::config::VulkanBridgeView>,
    pub render_drm_device: Option<Seq<u8>>,
}

impl View for Config {
    type V = ConfigView;

    open spec fn view(&self) -> ConfigView {
        ConfigView {
            vulkan_bridge: match self.vulkan_bridge {
                Some(bridge) => Some(bridge@),
                None => None,
            },
            render_drm_device: crate::config::path_view(self.debug.render_drm_device),
        }
    }
}

impl ConfigView {
    /// A configuration in which nothing is set.
    pub open spec fn unset() -> Self {
        ConfigView { vulkan_bridge: None, render_drm_device: None }
    }

    /// The configuration after one more item. The first block of the bridge starts from its
    /// defaults; each later one goes over what is there.
    pub open spec fn applied(self, item: ConfigItemView) -> Self {
        match item {
            ConfigItemView::Bridge(part) => ConfigView {
                vulkan_bridge: Some(
                    (match self.vulkan_bridge {
                        Some(bridge) => bridge,
                        None => crate::config::VulkanBridgeView::default_values(),
                    }).merged(part),
                ),
                ..self
            },
            ConfigItemView::Debug(Some(device)) => ConfigView {
                render_drm_device: Some(device),
                ..self
            },
            ConfigItemView::Debug(None) => self,
            ConfigItemView::Include(_) => self,
        }
    }

    /// The configuration after several items, in their order.
    pub open spec fn after(self, items: Seq<ConfigItemView>) -> Self
        decreases items.len(),
    {
        if items.len() == 0 {
            self
        } else {
            self.after(items.drop_last()).applied(items.last())
        }
    }
}

/// Whether a node is a well-formed `debug` block, as far as this library reads it: the rendering
/// device is set at most once, by a text. Other options of the block are not looked at.
pub open spec fn is_debug(node: crate::kdl::KdlTree) -> bool {
    &&& crate::config::is_section(node)
    &&& once(node.children, "render-drm-device"@)
    &&& forall|i: int|
        0 <= i < node.children.len() && (#[trigger] node.children[i]).name == "render-drm-device"@
            ==> crate::config::path_of(node.children[i]) is Some
}

/// Whether at most one node has a name.
pub open spec fn once(nodes: Seq<crate::kdl::KdlTree>, name: Seq<char>) -> bool {
    forall|i: int, j: int|
        0 <= i < j < nodes.len() ==> !((#[trigger] nodes[i]).name == name && (#[trigger] nodes[j]).name
            == name)
}

/// The device that the children of a `debug` block select.
pub open spec fn debug_device(children: Seq<crate::kdl::KdlTree>) -> Option<Seq<u8>> {
    match crate::config::named(children, "render-drm-device"@) {
        Some(node) => crate::config::path_of(node),
        None => None,
    }
}

/// Whether a top-level node is well formed. Sections of other parts of the compositor are not
/// looked at.
pub open spec fn is_well_formed(node: crate::kdl::KdlTree) -> bool {
    &&& node.name == "vulkan-bridge"@ ==> crate::config::is_bridge(node)
    &&& node.name == "debug"@ ==> is_debug(node)
    &&& node.name == "include"@ ==> crate::config::path_of(node) is Some
}

/// Whether the top-level nodes of one file are accepted: each is well formed, and neither
/// section is split.
pub open spec fn is_accepted(nodes: Seq<crate::kdl::KdlTree>) -> bool {
    &&& forall|i: int| 0 <= i < nodes.len() ==> is_well_formed(#[trigger] nodes[i])
    &&& once(nodes, "vulkan-bridge"@)
    &&& once(nodes, "debug"@)
}

/// The item that a well-formed node stands for; none for a section of another part.
pub open spec fn item_of(node: crate::kdl::KdlTree) -> Seq<ConfigItemView> {
    if node.name == "vulkan-bridge"@ {
        seq![ConfigItemView::Bridge(crate::config::bridge_values(node.children))]
    } else if node.name == "debug"@ {
        seq![ConfigItemView::Debug(debug_device(node.children))]
    } else if node.name == "include"@ {
        seq![ConfigItemView::Include(crate::config::path_of(node)->0)]
    } else {
        seq![]
    }
}

/// The items of several nodes, in their order.
pub open spec fn items_of(nodes: Seq<crate::kdl::KdlTree>) -> Seq<ConfigItemView>
    decreases nodes.len(),
{
    if nodes.len() == 0 {
        seq![]
    } else {
        items_of(nodes.drop_last()) + item_of(nodes.last())
    }
}

/// What one more node does to the nodes of a name.
proof fn lemma_once_more(nodes: Seq<crate::kdl::KdlTree>, i: int, name: Seq<char>)
    requires
        0 <= i < nodes.len(),
        once(nodes.take(i), name),
    ensures
        nodes.take(i + 1).drop_last() == nodes.take(i),
        nodes.take(i + 1).last() == nodes[i],
        once(nodes.take(i + 1), name) <==> !(nodes[i].name == name && crate::config::named(
            nodes.take(i),
            name,
        ) is Some),
        !once(nodes.take(i + 1), name) ==> !once(nodes, name),
{
    let before = nodes.take(i);
    let after = nodes.take(i + 1);
    assert(after.drop_last() =~= before);
    crate::config::lemma_named(before, name);
    if nodes[i].name == name && crate::config::named(before, name) is Some {
        let k = choose|k: int| 0 <= k < before.len() && (#[trigger] before[k]).name == name;
        assert(after[k].name == name && after[i].name == name);
        assert(nodes[k].name == name && nodes[i].name == name);
    } else {
        assert forall|a: int, b: int| 0 <= a < b < after.len() implies !((#[trigger] after[a]).name
            == name && (#[trigger] after[b]).name == name) by {
            assert(before[a] == after[a]);
            if b < i {
                assert(before[b] == after[b]);
            }
        }
    }
}

/// Reads a `debug` block; `None` where it is not well formed.
fn decode_debug(node: &KdlNode) -> (device: Option<Option<FilePath>>)
    ensures
        device is Some <==> is_debug(node.tree()),
        device matches Some(device) ==> crate::config::path_view(device) == debug_device(
            node.tree().children,
        ),
{
    if !section(node) {
        return None;
    }
    let ghost children = node.tree().children;
    let mut device: Option<FilePath> = None;
    let mut i: usize = 0;
    assert(children.take(0) =~= Seq::<crate::kdl::KdlTree>::empty());
    while i < node.children.len()
        invariant
            i <= node.children@.len(),
            children == node.tree().children,
            children.len() == node.children@.len(),
            forall|j: int| 0 <= j < children.len() ==> #[trigger] children[j] == node.children@[j].tree(),
            once(children.take(i as int), "render-drm-device"@),
            forall|j: int|
                0 <= j < i && (#[trigger] children[j]).name == "render-drm-device"@
                    ==> crate::config::path_of(children[j]) is Some,
            crate::config::path_view(device) == debug_device(children.take(i as int)),
            device is Some <==> crate::config::named(
                children.take(i as int),
                "render-drm-device"@,
            ) is Some,
        decreases node.children@.len() - i,
    {
        let child = &node.children[i];
        proof {
            assert(children[i as int] == child.tree());
            lemma_once_more(children, i as int, "render-drm-device"@);
        }
        if same_text(child.name.as_str(), "render-drm-device") {
            if device.is_some() {
                return None;
            }
            device = path_value(child);
            if device.is_none() {
                return None;
            }
        }
        i = i + 1;
    }
    assert(children.take(i as int) =~= children);
    Some(device)
}

/// Reads the top-level nodes of one file into items, in their order.
pub fn decode_items(nodes: &Vec<KdlNode>) -> (items: Result<Vec<ConfigItem>, ConfigError>)
    ensures
        match items {
            Ok(items) => is_accepted(crate::kdl::trees(nodes@)) && item_views(items@) == items_of(
                crate::kdl::trees(nodes@),
            ),
            Err(error) => !is_accepted(crate::kdl::trees(nodes@)) && error == ConfigError::Section,
        },
{
    let ghost trees = crate::kdl::trees(nodes@);
    let mut items: Vec<ConfigItem> = Vec::new();
    let mut bridge_seen = false;
    let mut debug_seen = false;
    let mut i: usize = 0;
    assert(trees.take(0) =~= Seq::<crate::kdl::KdlTree>::empty());
    assert(item_views(items@) =~= items_of(trees.take(0)));
    proof {
        lemma_section_names();
    }
    while i < nodes.len()
        invariant
            i <= nodes@.len(),
            trees == crate::kdl::trees(nodes@),
            trees.len() == nodes@.len(),
            forall|j: int| 0 <= j < i ==> is_well_formed(#[trigger] trees[j]),
            once(trees.take(i as int), "vulkan-bridge"@),
            once(trees.take(i as int), "debug"@),
            bridge_seen <==> crate::config::named(trees.take(i as int), "vulkan-bridge"@) is Some,
            debug_seen <==> crate::config::named(trees.take(i as int), "debug"@) is Some,
            item_views(items@) == items_of(trees.take(i as int)),
            "vulkan-bridge"@ != "debug"@,
            "vulkan-bridge"@ != "include"@,
            "debug"@ != "include"@,
        decreases nodes@.len() - i,
    {
        let node = &nodes[i];
        proof {
            assert(trees[i as int] == node.tree());
            lemma_once_more(trees, i as int, "vulkan-bridge"@);
            lemma_once_more(trees, i as int, "debug"@);
        }
        let ghost before = items@;
        if same_text(node.name.as_str(), "vulkan-bridge") {
            if bridge_seen {
                return Err(ConfigError::Section);
            }
            match decode_bridge(node) {
                Some(part) => {
                    items.push(ConfigItem::Bridge(part));
                },
                None => {
                    return Err(ConfigError::Section);
                },
            }
            bridge_seen = true;
        } else if same_text(node.name.as_str(), "debug") {
            if debug_seen {
                return Err(ConfigError::Section);
            }
            match decode_debug(node) {
                Some(device) => {
                    items.push(ConfigItem::Debug(device));
                },
                None => {
                    return Err(ConfigError::Section);
                },
            }
            debug_seen = true;
        } else if same_text(node.name.as_str(), "include") {
            match path_value(node) {
                Some(path) => {
                    items.push(ConfigItem::Include(path));
                },
                None => {
                    return Err(ConfigError::Section);
                },
            }
        }
        assert(item_views(items@) =~= item_views(before) + item_of(trees[i as int]));
        i = i + 1;
    }
    assert(trees.take(i as int) =~= trees);
    Ok(items)
}

/// The names of the top-level nodes that are read are all different.
proof fn lemma_section_names()
    ensures
        "vulkan-bridge"@ != "debug"@,
        "vulkan-bridge"@ != "include"@,
        "debug"@ != "include"@,
{
    reveal_strlit("vulkan-bridge");
    reveal_strlit("debug");
    reveal_strlit("include");
    assert("vulkan-bridge"@.len() == 13);
    assert("debug"@.len() == 5);
    assert("include"@.len() == 7);
}

impl Default for Config {
    /// A configuration in which nothing is set.
    fn default() -> (config: Self)
        ensures
            config@ == ConfigView::unset(),
    {
        Config { vulkan_bridge: None, debug: DebugOptions { render_drm_device: None } }
    }
}

impl Config {
    /// Applies one item. An include is not applied by itself: the items of its file are.
    pub fn apply(&mut self, item: &ConfigItem)
        ensures
            final(self)@ == old(self)@.applied(item@),
    {
        match item {
            ConfigItem::Bridge(part) => {
                let mut bridge = match self.vulkan_bridge.take() {
                    Some(bridge) => bridge,
                    None => VulkanBridge::default(),
                };
                bridge.merge_with(part);
                self.vulkan_bridge = Some(bridge);
            },
            ConfigItem::Debug(Some(device)) => {
                self.debug.render_drm_device = Some(device.clone());
            },
            ConfigItem::Debug(None) => {},
            ConfigItem::Include(_) => {},
        }
    }

    /// The configuration that items set, in their order.
    pub fn from_items(items: &Vec<ConfigItem>) -> (config: Config)
        ensures
            config@ == ConfigView::unset().after(item_views(items@)),
    {
        let mut config = Config::default();
        let ghost views = item_views(items@);
        let mut i: usize = 0;
        assert(views.take(0) =~= Seq::<ConfigItemView>::empty());
        while i < items.len()
            invariant
                i <= items@.len(),
                views == item_views(items@),
                config@ == ConfigView::unset().after(views.take(i as int)),
            decreases items@.len() - i,
        {
            config.apply(&items[i]);
            assert(views.take(i + 1).drop_last() =~= views.take(i as int));
            assert(views.take(i + 1).last() == items@[i as int]@);
            i = i + 1;
        }
        assert(views.take(i as int) =~= views);
        config
    }

    /// Reads a configuration from a text that stands for itself: it may not include other files.
    pub fn parse_mem(text: &str) -> (config: Result<Config, ConfigError>)
        ensures
            config == Err::<Config, ConfigError>(ConfigError::Syntax) <==> crate::kdl::kdl_document(
                text@,
            ) is None,
            crate::kdl::kdl_document(text@) matches Some(nodes) ==> match config {
                Ok(config) => is_accepted(nodes) && !includes(items_of(nodes)) && config@
                    == ConfigView::unset().after(items_of(nodes)),
                Err(ConfigError::Include) => is_accepted(nodes) && includes(items_of(nodes)),
                Err(error) => !is_accepted(nodes) && error == ConfigError::Section,
            },
    {
        let nodes = match parse_document(text) {
            Some(nodes) => nodes,
            None => {
                return Err(ConfigError::Syntax);
            },
        };
        let items = match decode_items(&nodes) {
            Ok(items) => items,
            Err(error) => {
                return Err(error);
            },
        };
        if has_include(&items) {
            return Err(ConfigError::Include);
        }
        Ok(Config::from_items(&items))
    }
}

/// Whether an item names another file.
pub open spec fn includes(items: Seq<ConfigItemView>) -> bool {
    exists|i: int| 0 <= i < items.len() && #[trigger] items[i] is Include
}

fn has_include(items: &Vec<ConfigItem>) -> (has: bool)
    ensures
        has == includes(item_views(items@)),
{
    let ghost views = item_views(items@);
    let mut i: usize = 0;
    while i < items.len()
        invariant
            i <= items@.len(),
            views == item_views(items@),
            forall|j: int| 0 <= j < i ==> !(#[trigger] views[j] is Include),
        decreases items@.len() - i,
    {
        assert(views[i as int] == items@[i as int]@);
        if let ConfigItem::Include(_) = &items[i] {
            return true;
        }
        i = i + 1;
    }
    false
}

/// Includes are positional: the items of a file take effect where its include stands, after what
/// came before it and before what follows.
pub proof fn law_items_take_effect_in_order(
    config: ConfigView,
    first: Seq<ConfigItemView>,
    second: Seq<ConfigItemView>,
)
    ensures
        config.after(first + second) == config.after(first).after(second),
    decreases second.len(),
{
    if second.len() == 0 {
        assert(first + second =~= first);
    } else {
        assert((first + second).drop_last() =~= first + second.drop_last());
        law_items_take_effect_in_order(config, first, second.drop_last());
    }
}

/// The policy of the bridge is set exactly where some block sets it, even an empty one.
pub proof fn law_policy_needs_a_block(items: Seq<ConfigItemView>)
    ensures
        ConfigView::unset().after(items).vulkan_bridge is Some <==> exists|i: int|
            0 <= i < items.len() && #[trigger] items[i] is Bridge,
    decreases items.len(),
{
    if items.len() > 0 {
        let before = items.drop_last();
        law_policy_needs_a_block(before);
        if items.last() is Bridge {
            assert(items[items.len() - 1] is Bridge);
        } else {
            assert forall|i: int| 0 <= i < items.len() && #[trigger] items[i] is Bridge implies exists|
                j: int,
            |
                0 <= j < before.len() && #[trigger] before[j] is Bridge by {
                assert(before[i] is Bridge);
            }
            if exists|j: int| 0 <= j < before.len() && #[trigger] before[j] is Bridge {
                let j = choose|j: int| 0 <= j < before.len() && #[trigger] before[j] is Bridge;
                assert(items[j] is Bridge);
            }
        }
    }
}

/// Whether an item switches timing on.
pub open spec fn enables_timing(item: ConfigItemView) -> bool {
    item matches ConfigItemView::Bridge(part) && (part.timing matches Some(timing) && timing.enabled
        == Some(true))
}

/// Timing is off unless some block switches it on.
pub proof fn law_timing_is_explicit(items: Seq<ConfigItemView>)
    ensures
        ConfigView::unset().after(items).vulkan_bridge matches Some(bridge) ==> bridge.timing.enabled
            ==> exists|i: int| 0 <= i < items.len() && enables_timing(#[trigger] items[i]),
    decreases items.len(),
{
    if items.len() > 0 {
        let before = items.drop_last();
        law_timing_is_explicit(before);
        if enables_timing(items.last()) {
            assert(enables_timing(items[items.len() - 1]));
        } else if exists|j: int| 0 <= j < before.len() && enables_timing(#[trigger] before[j]) {
            let j = choose|j: int| 0 <= j < before.len() && enables_timing(#[trigger] before[j]);
            assert(enables_timing(items[j]));
        }
    }
}

/// An item touches its own part alone. A block goes over the policy that is there, or over the
/// defaults where there is none; a device that is named replaces the one before; an include and a
/// `debug` block without a device change nothing.
pub proof fn law_items_touch_their_own_part(config: ConfigView, item: ConfigItemView)
    ensures
        ({
            let after = config.applied(item);
            match item {
                ConfigItemView::Bridge(part) => {
                    &&& after.render_drm_device == config.render_drm_device
                    &&& config.vulkan_bridge matches Some(bridge) ==> after.vulkan_bridge == Some(
                        bridge.merged(part),
                    )
                    &&& config.vulkan_bridge is None ==> after.vulkan_bridge == Some(
                        (crate::config::VulkanBridgeView {
                            enabled: true,
                            direct_target: true,
                            copy_device: crate::config::BridgeCopyDevice::Render,
                            timing: crate::config::BridgeTimingView { enabled: false, output: None },
                        }).merged(part),
                    )
                },
                ConfigItemView::Debug(device) => {
                    &&& after.vulkan_bridge == config.vulkan_bridge
                    &&& device is Some ==> after.render_drm_device == device
                    &&& device is None ==> after.render_drm_device == config.render_drm_device
                },
                ConfigItemView::Include(_) => after == config,
            }
        }),
{
}

/// The device that is named last renders.
pub proof fn law_last_device_renders(config: ConfigView, items: Seq<ConfigItemView>, last: int)
    requires
        0 <= last < items.len(),
        items[last] matches ConfigItemView::Debug(device) && device is Some,
        forall|i: int|
            last < i < items.len() ==> !(#[trigger] items[i] matches ConfigItemView::Debug(device)
                && device is Some),
    ensures
        config.after(items).render_drm_device == items[last]->Debug_0,
    decreases items.len(),
{
    if last < items.len() - 1 {
        let before = items.drop_last();
        assert forall|i: int| last < i < before.len() implies !(
        #[trigger] before[i] matches ConfigItemView::Debug(device) && device is Some) by {
            assert(before[i] == items[i]);
        }
        law_last_device_renders(config, before, last);
        assert(!(items[items.len() - 1] matches ConfigItemView::Debug(device) && device is Some));
    }
}

/// Nodes give their items one by one: those of a whole document are those of its parts, in order.
pub proof fn law_items_concatenate(
    first: Seq<crate::kdl::KdlTree>,
    second: Seq<crate::kdl::KdlTree>,
)
    ensures
        items_of(first + second) == items_of(first) + items_of(second),
        items_of(Seq::empty()) == Seq::<ConfigItemView>::empty(),
    decreases second.len(),
{
    if second.len() == 0 {
        assert(first + second =~= first);
        assert(items_of(first) + items_of(second) =~= items_of(first));
    } else {
        assert((first + second).drop_last() =~= first + second.drop_last());
        law_items_concatenate(first, second.drop_last());
        assert(items_of(first + second) =~= items_of(first) + items_of(second));
    }
}

/// A node gives one item where it is one of the three kinds that are read, with what it holds, and
/// none otherwise.
pub proof fn law_nodes_give_their_items(node: crate::kdl::KdlTree)
    ensures
        ({
            let items = items_of(seq![node]);
            &&& node.name == "vulkan-bridge"@ ==> items == seq![
                ConfigItemView::Bridge(crate::config::bridge_values(node.children)),
            ]
            &&& node.name == "debug"@ ==> items == seq![
                ConfigItemView::Debug(debug_device(node.children)),
            ]
            &&& node.name == "include"@ && crate::config::path_of(node) is Some ==> items == seq![
                ConfigItemView::Include(crate::config::path_of(node)->0),
            ]
            &&& node.name != "vulkan-bridge"@ && node.name != "debug"@ && node.name != "include"@
                ==> items.len() == 0
        }),
{
    lemma_section_names();
    assert(seq![node].drop_last() =~= Seq::<crate::kdl::KdlTree>::empty());
    assert(items_of(Seq::<crate::kdl::KdlTree>::empty()) =~= Seq::<ConfigItemView>::empty());
    assert(items_of(seq![node]) =~= item_of(node));
}

/// A `debug` block selects the device that its child of that name holds as a text, and none
/// without such a child.
pub proof fn law_debug_selects_its_device(node: crate::kdl::KdlTree, i: int)
    requires
        is_debug(node),
    ensures
        0 <= i < node.children.len() && node.children[i].name == "render-drm-device"@ ==> exists|
            text: Seq<char>,
        |
            #[trigger] crate::config::holds_only(
                node.children[i],
                crate::kdl::LiteralView::Text(text),
            ) && debug_device(node.children) == Some(vstd::utf8::encode_utf8(text)),
        (forall|j: int|
            0 <= j < node.children.len() ==> (#[trigger] node.children[j]).name
                != "render-drm-device"@) ==> debug_device(node.children) is None,
{
    let children = node.children;
    crate::config::lemma_named(children, "render-drm-device"@);
    if 0 <= i < children.len() && children[i].name == "render-drm-device"@ {
        let found = crate::config::named(children, "render-drm-device"@)->0;
        let k = choose|k: int| 0 <= k < children.len() && children[k] == found;
        if k < i {
            assert(!(children[k].name == "render-drm-device"@ && children[i].name
                == "render-drm-device"@));
        } else if i < k {
            assert(!(children[i].name == "render-drm-device"@ && children[k].name
                == "render-drm-device"@));
        }
        crate::config::law_values_are_single_scalars(
            children[i],
            false,
            crate::config::text_of(children[i])->0,
        );
    }
}

/// The nodes of a file are accepted exactly where every block of the bridge is well formed, every
/// `debug` block is a bare section that names its device at most once, by a path, every include
/// names a path, and neither of the two sections stands twice.
pub proof fn law_accepted_files(nodes: Seq<crate::kdl::KdlTree>)
    ensures
        is_accepted(nodes) <==> {
            &&& forall|i: int, j: int|
                0 <= i < j < nodes.len() && (#[trigger] nodes[i]).name == (#[trigger] nodes[j]).name
                    ==> nodes[i].name != "vulkan-bridge"@ && nodes[i].name != "debug"@
            &&& forall|i: int|
                0 <= i < nodes.len() && (#[trigger] nodes[i]).name == "vulkan-bridge"@
                    ==> crate::config::is_bridge(nodes[i])
            &&& forall|i: int|
                0 <= i < nodes.len() && (#[trigger] nodes[i]).name == "include"@
                    ==> crate::config::path_of(nodes[i]) is Some
            &&& forall|i: int|
                0 <= i < nodes.len() && (#[trigger] nodes[i]).name == "debug"@ ==> {
                    &&& !nodes[i].typed
                    &&& nodes[i].arguments.len() == 0
                    &&& nodes[i].properties == 0
                    &&& forall|k: int, l: int|
                        0 <= k < l < nodes[i].children.len() && (#[trigger] nodes[i].children[k]).name
                            == (#[trigger] nodes[i].children[l]).name ==> nodes[i].children[k].name
                            != "render-drm-device"@
                    &&& forall|k: int|
                        0 <= k < nodes[i].children.len() && (#[trigger] nodes[i].children[k]).name
                            == "render-drm-device"@ ==> crate::config::path_of(
                            nodes[i].children[k],
                        ) is Some
                }
        },
{
    if is_accepted(nodes) {
        assert forall|i: int, j: int|
            0 <= i < j < nodes.len() && (#[trigger] nodes[i]).name == (
            #[trigger] nodes[j]).name implies nodes[i].name != "vulkan-bridge"@ && nodes[i].name
            != "debug"@ by {
            assert(!(nodes[i].name == "debug"@ && nodes[j].name == "debug"@));
        }
        assert forall|i: int|
            0 <= i < nodes.len() && (#[trigger] nodes[i]).name == "debug"@ implies is_debug(
            nodes[i],
        ) by {
            assert(is_well_formed(nodes[i]));
        }
        assert forall|i: int| 0 <= i < nodes.len() implies is_well_formed(#[trigger] nodes[i]) by {}
    }
}

} // verus!
