//! Reading the appearance settings from the `layout` block.
//!
//! Every setting is read on its own: the last node of the block that gives
//! a readable value for it decides, and a setting for which no node does
//! keeps its default. For the colour of a slot, a gradient node takes
//! precedence over a solid-colour node, wherever the two stand.

use vstd::prelude::*;
use kdl::KdlNode;
use crate::model::appearance::{
    AppearanceSettings, AppearanceView, BorderSettings, BorderView, CenterFocusedColumn,
    ColorValue, ColorView, FocusRingSettings, FocusRingView, ShadowSettings, ShadowView,
    StrutsSettings,
};
use crate::model::config::{
    argument, argument_bool, argument_integer, argument_text, bool_of, find_named, integer_of,
    named, property, property_integer, property_text, text_of, ConfigDocument,
};
use crate::model::tree::{node_name, node_tree, trees, NodeTree};
use crate::search::{
    first_where, last_where, lemma_first_where, lemma_last_where, lemma_last_where_is,
};
use crate::text::text_eq;

verus! {

/// What a node must hold, besides its name, to give a setting.
#[derive(Debug, Clone, Copy)]
pub enum Probe<'a> {
    /// Nothing more.
    Any,
    /// An integer as its first argument.
    IntegerArgument,
    /// A text as its first argument.
    TextArgument,
    /// The keyword of a `CenterFocusedColumn` as its first argument.
    KeywordArgument,
    /// A gradient: the properties `from` and `to`, both texts.
    Gradient,
    /// An integer as the property with this name.
    IntegerProperty(&'a str),
}

/// The nodes of a block, or none where there is no block.
pub open spec fn block_of(n: NodeTree) -> Seq<NodeTree> {
    match n.children {
        Some(c) => c,
        None => Seq::empty(),
    }
}

/// The gradient that the properties of a node give: `from` and `to` are
/// required; `angle`, `relative-to` and `in` are read where they have the
/// right type.
pub open spec fn gradient_of(n: NodeTree) -> Option<ColorView> {
    match (text_of(property(n.entries, "from"@)), text_of(property(n.entries, "to"@))) {
        (Some(from), Some(to)) => Some(
            ColorView::Gradient {
                from,
                to,
                angle: match integer_of(property(n.entries, "angle"@)) {
                    Some(a) => Some(a as i32),
                    None => None,
                },
                relative_to: text_of(property(n.entries, "relative-to"@)),
                color_space: text_of(property(n.entries, "in"@)),
            },
        ),
        _ => None,
    }
}

/// The solid colour that the first argument of a node gives.
pub open spec fn solid_of(n: NodeTree) -> Option<ColorView> {
    match text_of(argument(n.entries, 0)) {
        Some(c) => Some(ColorView::Solid(c)),
        None => None,
    }
}

/// Whether a node holds what a probe asks for.
pub open spec fn accepts(probe: Probe, n: NodeTree) -> bool {
    match probe {
        Probe::Any => true,
        Probe::IntegerArgument => integer_of(argument(n.entries, 0)) is Some,
        Probe::TextArgument => text_of(argument(n.entries, 0)) is Some,
        Probe::KeywordArgument => match text_of(argument(n.entries, 0)) {
            Some(t) => CenterFocusedColumn::of_keyword(t) is Some,
            None => false,
        },
        Probe::Gradient => gradient_of(n) is Some,
        Probe::IntegerProperty(key) => integer_of(property(n.entries, key@)) is Some,
    }
}

/// Whether a node has this name and holds what the probe asks for.
pub open spec fn wanted(name: Seq<char>, probe: Probe) -> spec_fn(NodeTree) -> bool {
    |n: NodeTree| n.name == name && accepts(probe, n)
}

/// Whether a node has one of two names.
pub open spec fn either(a: Seq<char>, b: Seq<char>) -> spec_fn(NodeTree) -> bool {
    |n: NodeTree| n.name == a || n.name == b
}

/// The last node of a block that has this name and holds what the probe
/// asks for.
pub open spec fn giving(children: Seq<NodeTree>, name: Seq<char>, probe: Probe) -> Option<
    NodeTree,
> {
    match last_where(children, wanted(name, probe)) {
        Some(i) => Some(children[i]),
        None => None,
    }
}

/// The number that a block gives for a setting, cut to 32 bits.
pub open spec fn number_setting(children: Seq<NodeTree>, name: Seq<char>) -> Option<i32> {
    match giving(children, name, Probe::IntegerArgument) {
        Some(n) => Some(integer_of(argument(n.entries, 0))->0 as i32),
        None => None,
    }
}

/// The number that a block gives as a property of a node, cut to 32 bits.
pub open spec fn property_setting(children: Seq<NodeTree>, name: Seq<char>, key: &str) -> Option<
    i32,
> {
    match giving(children, name, Probe::IntegerProperty(key)) {
        Some(n) => Some(integer_of(property(n.entries, key@))->0 as i32),
        None => None,
    }
}

/// The text that a block gives for a setting.
pub open spec fn text_setting(children: Seq<NodeTree>, name: Seq<char>) -> Option<Seq<char>> {
    match giving(children, name, Probe::TextArgument) {
        Some(n) => text_of(argument(n.entries, 0)),
        None => None,
    }
}

/// The colour of a slot: the gradient that the block gives for it, else
/// the solid colour that it gives, else the default.
pub open spec fn slot_color(
    children: Seq<NodeTree>,
    color_name: Seq<char>,
    gradient_name: Seq<char>,
    default: ColorView,
) -> ColorView {
    match giving(children, gradient_name, Probe::Gradient) {
        Some(n) => gradient_of(n)->0,
        None => match text_setting(children, color_name) {
            Some(c) => ColorView::Solid(c),
            None => default,
        },
    }
}

/// The gradient that the block gives for a slot.
pub open spec fn slot_gradient(children: Seq<NodeTree>, gradient_name: Seq<char>) -> Option<
    ColorView,
> {
    match giving(children, gradient_name, Probe::Gradient) {
        Some(n) => gradient_of(n),
        None => None,
    }
}

/// The strut that a block gives: what the last node with this name holds
/// as its first argument, if that is an integer.
pub open spec fn strut(children: Seq<NodeTree>, name: Seq<char>) -> Option<i32> {
    match giving(children, name, Probe::Any) {
        Some(n) => match integer_of(argument(n.entries, 0)) {
            Some(v) => Some(v as i32),
            None => None,
        },
        None => None,
    }
}

/// The focus ring that a block gives.
pub open spec fn focus_ring_of(children: Seq<NodeTree>) -> FocusRingView {
    let initial = FocusRingView::initial();
    FocusRingView {
        off: giving(children, "off"@, Probe::Any) is Some,
        width: match number_setting(children, "width"@) {
            Some(w) => w,
            None => initial.width,
        },
        active_color: slot_color(
            children,
            "active-color"@,
            "active-gradient"@,
            initial.active_color,
        ),
        inactive_color: slot_color(
            children,
            "inactive-color"@,
            "inactive-gradient"@,
            initial.inactive_color,
        ),
        active_gradient: slot_gradient(children, "active-gradient"@),
        inactive_gradient: slot_gradient(children, "inactive-gradient"@),
    }
}

/// The urgent colour that a block gives: the gradient if there is one; else
/// what the last `urgent-color` node holds, which may be nothing; else the
/// default.
pub open spec fn urgent_of(children: Seq<NodeTree>, default: Option<ColorView>) -> Option<
    ColorView,
> {
    match giving(children, "urgent-gradient"@, Probe::Gradient) {
        Some(n) => gradient_of(n),
        None => match giving(children, "urgent-color"@, Probe::Any) {
            Some(n) => solid_of(n),
            None => default,
        },
    }
}

/// The border that a block gives. Of the nodes `off` and `on`, the last
/// decides.
pub open spec fn border_of(children: Seq<NodeTree>) -> BorderView {
    let initial = BorderView::initial();
    BorderView {
        off: match last_where(children, either("off"@, "on"@)) {
            Some(i) => children[i].name == "off"@,
            None => initial.off,
        },
        width: match number_setting(children, "width"@) {
            Some(w) => w,
            None => initial.width,
        },
        active_color: slot_color(
            children,
            "active-color"@,
            "active-gradient"@,
            initial.active_color,
        ),
        inactive_color: slot_color(
            children,
            "inactive-color"@,
            "inactive-gradient"@,
            initial.inactive_color,
        ),
        urgent_color: urgent_of(children, initial.urgent_color),
        active_gradient: slot_gradient(children, "active-gradient"@),
        inactive_gradient: slot_gradient(children, "inactive-gradient"@),
    }
}

/// The shadow that a block gives. A `draw-behind-window` node without a
/// boolean counts as `true`.
pub open spec fn shadow_of(children: Seq<NodeTree>) -> ShadowView {
    let initial = ShadowView::initial();
    ShadowView {
        on: giving(children, "on"@, Probe::Any) is Some,
        draw_behind_window: match giving(children, "draw-behind-window"@, Probe::Any) {
            Some(n) => match bool_of(argument(n.entries, 0)) {
                Some(b) => b,
                None => true,
            },
            None => initial.draw_behind_window,
        },
        softness: match number_setting(children, "softness"@) {
            Some(v) => v,
            None => initial.softness,
        },
        spread: match number_setting(children, "spread"@) {
            Some(v) => v,
            None => initial.spread,
        },
        offset_x: match property_setting(children, "offset"@, "x") {
            Some(v) => v,
            None => initial.offset_x,
        },
        offset_y: match property_setting(children, "offset"@, "y") {
            Some(v) => v,
            None => initial.offset_y,
        },
        color: match text_setting(children, "color"@) {
            Some(c) => ColorView::Solid(c),
            None => initial.color,
        },
    }
}

/// The struts that a block gives.
pub open spec fn struts_of(children: Seq<NodeTree>) -> StrutsSettings {
    StrutsSettings {
        left: strut(children, "left"@),
        right: strut(children, "right"@),
        top: strut(children, "top"@),
        bottom: strut(children, "bottom"@),
    }
}

/// The settings that the `layout` block gives.
pub open spec fn layout_of(children: Seq<NodeTree>) -> AppearanceView {
    let initial = AppearanceView::initial();
    AppearanceView {
        gaps: match number_setting(children, "gaps"@) {
            Some(g) => g,
            None => initial.gaps,
        },
        center_focused_column: match giving(
            children,
            "center-focused-column"@,
            Probe::KeywordArgument,
        ) {
            Some(n) => CenterFocusedColumn::of_keyword(text_of(argument(n.entries, 0))->0)->0,
            None => initial.center_focused_column,
        },
        focus_ring: match giving(children, "focus-ring"@, Probe::Any) {
            Some(n) => focus_ring_of(block_of(n)),
            None => initial.focus_ring,
        },
        border: match giving(children, "border"@, Probe::Any) {
            Some(n) => border_of(block_of(n)),
            None => initial.border,
        },
        shadow: match giving(children, "shadow"@, Probe::Any) {
            Some(n) => shadow_of(block_of(n)),
            None => initial.shadow,
        },
        struts: match giving(children, "struts"@, Probe::Any) {
            Some(n) => struts_of(block_of(n)),
            None => initial.struts,
        },
    }
}

/// The appearance settings of a document: those of the block of the first
/// top-level node called `layout`, or the defaults where there is none.
pub open spec fn appearance_of(nodes: Seq<NodeTree>) -> AppearanceView {
    match first_where(nodes, named("layout"@)) {
        Some(i) => layout_of(block_of(nodes[i])),
        None => AppearanceView::initial(),
    }
}

/// The node that gives a setting has the name and holds what the probe
/// asks for.
pub proof fn lemma_giving(children: Seq<NodeTree>, name: Seq<char>, probe: Probe)
    ensures
        match giving(children, name, probe) {
            Some(n) => n.name == name && accepts(probe, n),
            None => true,
        },
{
    lemma_last_where(children, wanted(name, probe));
}

/// Whether a node holds what a probe asks for.
fn holds(probe: &Probe, node: &KdlNode) -> (r: bool)
    ensures
        r == accepts(*probe, node_tree(*node)),
{
    match probe {
        Probe::Any => true,
        Probe::IntegerArgument => argument_integer(node, 0).is_some(),
        Probe::TextArgument => argument_text(node, 0).is_some(),
        Probe::KeywordArgument => match argument_text(node, 0) {
            Some(t) => CenterFocusedColumn::from_str(t).is_some(),
            None => false,
        },
        Probe::Gradient => property_text(node, "from").is_some() && property_text(
            node,
            "to",
        ).is_some(),
        Probe::IntegerProperty(key) => property_integer(node, key).is_some(),
    }
}

/// The last of the nodes that has this name and holds what the probe asks
/// for.
pub fn find_last<'a>(nodes: &'a [KdlNode], name: &str, probe: &Probe) -> (r: Option<&'a KdlNode>)
    ensures
        match r {
            Some(n) => giving(trees(nodes@), name@, *probe) == Some(node_tree(*n)) && node_tree(
                *n,
            ).name == name@ && accepts(*probe, node_tree(*n)),
            None => giving(trees(nodes@), name@, *probe) is None,
        },
{
    let mut i: usize = nodes.len();
    while i > 0
        invariant
            i <= nodes.len(),
            forall|j: int|
                i <= j < nodes.len() ==> !wanted(name@, *probe)(#[trigger] trees(nodes@)[j]),
        decreases i,
    {
        if text_eq(node_name(&nodes[i - 1]), name) && holds(probe, &nodes[i - 1]) {
            proof {
                assert(trees(nodes@)[i as int - 1] == node_tree(nodes@[i as int - 1]));
                lemma_last_where_is(trees(nodes@), wanted(name@, *probe), i as int);
            }
            return Some(&nodes[i - 1]);
        }
        i -= 1;
    }
    proof {
        lemma_last_where_is(trees(nodes@), wanted(name@, *probe), 0);
    }
    None
}

/// The last of the nodes that has one of two names.
fn find_last_of<'a>(nodes: &'a [KdlNode], a: &str, b: &str) -> (r: Option<&'a KdlNode>)
    ensures
        match r {
            Some(n) => last_where(trees(nodes@), either(a@, b@)) matches Some(i) && trees(nodes@)[i]
                == node_tree(*n),
            None => last_where(trees(nodes@), either(a@, b@)) is None,
        },
{
    let mut i: usize = nodes.len();
    while i > 0
        invariant
            i <= nodes.len(),
            forall|j: int| i <= j < nodes.len() ==> !either(a@, b@)(#[trigger] trees(nodes@)[j]),
        decreases i,
    {
        let name = node_name(&nodes[i - 1]);
        if text_eq(name, a) || text_eq(name, b) {
            proof {
                assert(trees(nodes@)[i as int - 1] == node_tree(nodes@[i as int - 1]));
                lemma_last_where_is(trees(nodes@), either(a@, b@), i as int);
            }
            return Some(&nodes[i - 1]);
        }
        i -= 1;
    }
    proof {
        lemma_last_where_is(trees(nodes@), either(a@, b@), 0);
    }
    None
}

/// The nodes of the block of a node; none where it has no block.
pub fn block_nodes(node: &KdlNode) -> (r: &[KdlNode])
    ensures
        trees(r@) == block_of(node_tree(*node)),
{
    match node.children() {
        Some(block) => block.nodes(),
        None => {
            let empty: &[KdlNode] = &[];
            assert(trees(empty@) =~= Seq::<NodeTree>::empty());
            empty
        },
    }
}

fn read_number(nodes: &[KdlNode], name: &str) -> (r: Option<i32>)
    ensures
        r == number_setting(trees(nodes@), name@),
{
    match find_last(nodes, name, &Probe::IntegerArgument) {
        Some(n) => match argument_integer(n, 0) {
            Some(v) => Some(
                #[verifier::truncate]
                (v as i32),
            ),
            None => None,
        },
        None => None,
    }
}

fn read_property(nodes: &[KdlNode], name: &str, key: &str) -> (r: Option<i32>)
    ensures
        r == property_setting(trees(nodes@), name@, key),
{
    match find_last(nodes, name, &Probe::IntegerProperty(key)) {
        Some(n) => match property_integer(n, key) {
            Some(v) => Some(
                #[verifier::truncate]
                (v as i32),
            ),
            None => None,
        },
        None => None,
    }
}

fn read_text<'a>(nodes: &'a [KdlNode], name: &str) -> (r: Option<&'a str>)
    ensures
        match r {
            Some(t) => text_setting(trees(nodes@), name@) == Some(t@),
            None => text_setting(trees(nodes@), name@) is None,
        },
{
    match find_last(nodes, name, &Probe::TextArgument) {
        Some(n) => argument_text(n, 0),
        None => None,
    }
}

fn read_strut(nodes: &[KdlNode], name: &str) -> (r: Option<i32>)
    ensures
        r == strut(trees(nodes@), name@),
{
    match find_last(nodes, name, &Probe::Any) {
        Some(n) => match argument_integer(n, 0) {
            Some(v) => Some(
                #[verifier::truncate]
                (v as i32),
            ),
            None => None,
        },
        None => None,
    }
}

fn read_gradient(nodes: &[KdlNode], name: &str) -> (r: Option<ColorValue>)
    ensures
        match r {
            Some(g) => slot_gradient(trees(nodes@), name@) == Some(g@),
            None => slot_gradient(trees(nodes@), name@) is None,
        },
{
    match find_last(nodes, name, &Probe::Gradient) {
        Some(n) => parse_gradient(n),
        None => None,
    }
}

fn read_slot(nodes: &[KdlNode], color_name: &str, gradient_name: &str, default: ColorValue) -> (r:
    ColorValue)
    ensures
        r@ == slot_color(trees(nodes@), color_name@, gradient_name@, default@),
{
    proof {
        lemma_giving(trees(nodes@), gradient_name@, Probe::Gradient);
    }
    match read_gradient(nodes, gradient_name) {
        Some(g) => g,
        None => match read_text(nodes, color_name) {
            Some(c) => ColorValue::Solid(c.to_owned()),
            None => default,
        },
    }
}

/// Reads the appearance settings from the `layout` block of the document.
/// A setting that the document does not give, or gives with a value that
/// cannot be read, keeps its default.
pub fn parse_appearance(config: &ConfigDocument) -> (r: AppearanceSettings)
    ensures
        r@ == appearance_of(config.tree()),
{
    let nodes = config.doc.nodes();
    proof {
        lemma_first_where(config.tree(), named("layout"@));
    }
    match find_named(nodes, "layout") {
        Some(i) => {
            assert(config.tree()[i as int] == node_tree(nodes@[i as int]));
            parse_layout_block(&nodes[i])
        },
        None => AppearanceSettings::default(),
    }
}

/// Reads the settings from a `layout` node.
pub fn parse_layout_block(node: &KdlNode) -> (r: AppearanceSettings)
    ensures
        r@ == layout_of(block_of(node_tree(*node))),
{
    let children = block_nodes(node);
    let gaps = match read_number(children, "gaps") {
        Some(g) => g,
        None => 16,
    };
    let center_focused_column = match find_last(
        children,
        "center-focused-column",
        &Probe::KeywordArgument,
    ) {
        Some(n) => match argument_text(n, 0) {
            Some(t) => match CenterFocusedColumn::from_str(t) {
                Some(c) => c,
                None => CenterFocusedColumn::Never,
            },
            None => CenterFocusedColumn::Never,
        },
        None => CenterFocusedColumn::Never,
    };
    let focus_ring = match find_last(children, "focus-ring", &Probe::Any) {
        Some(n) => parse_focus_ring(n),
        None => FocusRingSettings::default(),
    };
    let border = match find_last(children, "border", &Probe::Any) {
        Some(n) => parse_border(n),
        None => BorderSettings::default(),
    };
    let shadow = match find_last(children, "shadow", &Probe::Any) {
        Some(n) => parse_shadow(n),
        None => ShadowSettings::default(),
    };
    let struts = match find_last(children, "struts", &Probe::Any) {
        Some(n) => parse_struts(n),
        None => StrutsSettings::default(),
    };
    AppearanceSettings { gaps, center_focused_column, focus_ring, border, shadow, struts }
}

/// Reads the focus ring from a `focus-ring` node.
pub fn parse_focus_ring(node: &KdlNode) -> (r: FocusRingSettings)
    ensures
        r@ == focus_ring_of(block_of(node_tree(*node))),
{
    let children = block_nodes(node);
    FocusRingSettings {
        off: find_last(children, "off", &Probe::Any).is_some(),
        width: match read_number(children, "width") {
            Some(w) => w,
            None => 4,
        },
        active_color: read_slot(
            children,
            "active-color",
            "active-gradient",
            ColorValue::Solid("#7fc8ff".to_owned()),
        ),
        inactive_color: read_slot(
            children,
            "inactive-color",
            "inactive-gradient",
            ColorValue::Solid("#505050".to_owned()),
        ),
        active_gradient: read_gradient(children, "active-gradient"),
        inactive_gradient: read_gradient(children, "inactive-gradient"),
    }
}

/// Reads the border from a `border` node.
pub fn parse_border(node: &KdlNode) -> (r: BorderSettings)
    ensures
        r@ == border_of(block_of(node_tree(*node))),
{
    let children = block_nodes(node);
    proof {
        lemma_giving(trees(children@), "urgent-gradient"@, Probe::Gradient);
    }
    let off = match find_last_of(children, "off", "on") {
        Some(n) => text_eq(node_name(n), "off"),
        None => true,
    };
    let urgent_color = match read_gradient(children, "urgent-gradient") {
        Some(g) => Some(g),
        None => match find_last(children, "urgent-color", &Probe::Any) {
            Some(n) => parse_color_value(n),
            None => Some(ColorValue::Solid("#9b0000".to_owned())),
        },
    };
    BorderSettings {
        off,
        width: match read_number(children, "width") {
            Some(w) => w,
            None => 4,
        },
        active_color: read_slot(
            children,
            "active-color",
            "active-gradient",
            ColorValue::Solid("#ffc87f".to_owned()),
        ),
        inactive_color: read_slot(
            children,
            "inactive-color",
            "inactive-gradient",
            ColorValue::Solid("#505050".to_owned()),
        ),
        urgent_color,
        active_gradient: read_gradient(children, "active-gradient"),
        inactive_gradient: read_gradient(children, "inactive-gradient"),
    }
}

/// Reads the shadow from a `shadow` node.
pub fn parse_shadow(node: &KdlNode) -> (r: ShadowSettings)
    ensures
        r@ == shadow_of(block_of(node_tree(*node))),
{
    let children = block_nodes(node);
    ShadowSettings {
        on: find_last(children, "on", &Probe::Any).is_some(),
        draw_behind_window: match find_last(children, "draw-behind-window", &Probe::Any) {
            Some(n) => match argument_bool(n, 0) {
                Some(b) => b,
                None => true,
            },
            None => false,
        },
        softness: match read_number(children, "softness") {
            Some(v) => v,
            None => 30,
        },
        spread: match read_number(children, "spread") {
            Some(v) => v,
            None => 5,
        },
        offset_x: match read_property(children, "offset", "x") {
            Some(v) => v,
            None => 0,
        },
        offset_y: match read_property(children, "offset", "y") {
            Some(v) => v,
            None => 5,
        },
        color: match read_text(children, "color") {
            Some(c) => ColorValue::Solid(c.to_owned()),
            None => ColorValue::Solid("#0007".to_owned()),
        },
    }
}

/// Reads the struts from a `struts` node.
pub fn parse_struts(node: &KdlNode) -> (r: StrutsSettings)
    ensures
        r == struts_of(block_of(node_tree(*node))),
{
    let children = block_nodes(node);
    StrutsSettings {
        left: read_strut(children, "left"),
        right: read_strut(children, "right"),
        top: read_strut(children, "top"),
        bottom: read_strut(children, "bottom"),
    }
}

/// Reads a solid colour from the first argument of a node.
pub fn parse_color_value(node: &KdlNode) -> (r: Option<ColorValue>)
    ensures
        match r {
            Some(c) => solid_of(node_tree(*node)) == Some(c@),
            None => solid_of(node_tree(*node)) is None,
        },
{
    match argument_text(node, 0) {
        Some(c) => Some(ColorValue::Solid(c.to_owned())),
        None => None,
    }
}

/// Reads a gradient from the properties of a node.
pub fn parse_gradient(node: &KdlNode) -> (r: Option<ColorValue>)
    ensures
        match r {
            Some(g) => gradient_of(node_tree(*node)) == Some(g@),
            None => gradient_of(node_tree(*node)) is None,
        },
{
    let from = match property_text(node, "from") {
        Some(t) => t.to_owned(),
        None => {
            return None;
        },
    };
    let to = match property_text(node, "to") {
        Some(t) => t.to_owned(),
        None => {
            return None;
        },
    };
    let angle = match property_integer(node, "angle") {
        Some(a) => Some(
            #[verifier::truncate]
            (a as i32),
        ),
        None => None,
    };
    let relative_to = match property_text(node, "relative-to") {
        Some(t) => Some(t.to_owned()),
        None => None,
    };
    let color_space = match property_text(node, "in") {
        Some(t) => Some(t.to_owned()),
        None => None,
    };
    Some(ColorValue::Gradient { from, to, angle, relative_to, color_space })
}

} // verus!
