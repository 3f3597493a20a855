//! Writing the appearance settings into the `layout` block.
//!
//! Every setting is written into the node that gives it: the last node of
//! its name is updated in place, and where there is none, one is appended.
//! The colour of a slot is stored either as a solid colour or as a
//! gradient, never as both: writing one removes the other.

use vstd::prelude::*;
use kdl::KdlDocument;
use kdl::KdlNode;
use kdl::KdlValue;
use crate::config::appearance_parser::{block_of, either};
use crate::error::ConfigError;
use crate::model::appearance::{
    AppearanceSettings, AppearanceView, BorderSettings, BorderView, ColorValue, ColorView,
    FocusRingSettings, FocusRingView, ShadowSettings, ShadowView, StrutsSettings,
};
use crate::model::config::{find_named, named, ConfigDocument};
use crate::model::tree::{
    argument_entry, bool_value, document_nodes, document_tree, integer_value, new_node,
    node_name, node_tree, property_entry, push_entry, text_value, trees, value_scalar, EntryItem,
    NodeTree, Scalar,
};
use crate::search::{first_where, last_where, lemma_first_where, lemma_last_where, lemma_last_where_is};
use crate::text::text_eq;

verus! {

/// A node that holds one value as its only argument.
pub open spec fn value_node(name: Seq<char>, value: Scalar) -> NodeTree {
    NodeTree { name, entries: seq![EntryItem { name: None, value }], children: None }
}

/// A node that holds nothing but its name.
pub open spec fn bare_node(name: Seq<char>) -> NodeTree {
    NodeTree { name, entries: Seq::empty(), children: None }
}

/// The block after a setting was given a value: the last node of this name
/// holds the value as its only entry; where there was none, one is
/// appended.
pub open spec fn set_value(children: Seq<NodeTree>, name: Seq<char>, value: Scalar) -> Seq<
    NodeTree,
> {
    match last_where(children, named(name)) {
        Some(i) => children.update(
            i,
            NodeTree { entries: seq![EntryItem { name: None, value }], ..children[i] },
        ),
        None => children.push(value_node(name, value)),
    }
}

/// The block without the nodes of this name.
pub open spec fn without(children: Seq<NodeTree>, name: Seq<char>) -> Seq<NodeTree>
    decreases children.len(),
{
    if children.len() == 0 {
        Seq::empty()
    } else if children.last().name == name {
        without(children.drop_last(), name)
    } else {
        without(children.drop_last(), name).push(children.last())
    }
}

/// The block after a flag was set: a node of this name is there if and only
/// if the flag is on.
pub open spec fn set_toggle(children: Seq<NodeTree>, name: Seq<char>, enabled: bool) -> Seq<
    NodeTree,
> {
    if enabled {
        if last_where(children, named(name)) is Some {
            children
        } else {
            children.push(bare_node(name))
        }
    } else {
        without(children, name)
    }
}

/// The properties that spell a gradient.
pub open spec fn gradient_items(g: ColorView) -> Seq<EntryItem> {
    match g {
        ColorView::Gradient { from, to, angle, relative_to, color_space } => seq![
            EntryItem { name: Some("from"@), value: Scalar::Text(from) },
            EntryItem { name: Some("to"@), value: Scalar::Text(to) },
        ] + (match angle {
            Some(a) => seq![EntryItem { name: Some("angle"@), value: Scalar::Integer(a as i128) }],
            None => seq![],
        }) + (match relative_to {
            Some(r) => seq![EntryItem { name: Some("relative-to"@), value: Scalar::Text(r) }],
            None => seq![],
        }) + (match color_space {
            Some(c) => seq![EntryItem { name: Some("in"@), value: Scalar::Text(c) }],
            None => seq![],
        }),
        ColorView::Solid(_) => Seq::empty(),
    }
}

/// The node that spells a gradient.
pub open spec fn gradient_node(name: Seq<char>, g: ColorView) -> NodeTree {
    NodeTree { name, entries: gradient_items(g), children: None }
}

/// The block after a gradient was written under this name: the nodes of
/// the name are replaced by one new node at the end. A solid colour writes
/// nothing.
pub open spec fn set_gradient(children: Seq<NodeTree>, name: Seq<char>, g: ColorView) -> Seq<
    NodeTree,
> {
    match g {
        ColorView::Gradient { .. } => without(children, name).push(gradient_node(name, g)),
        ColorView::Solid(_) => children,
    }
}

/// The block after a colour was written under one name, whatever its form.
pub open spec fn set_color(children: Seq<NodeTree>, name: Seq<char>, c: ColorView) -> Seq<
    NodeTree,
> {
    match c {
        ColorView::Solid(t) => set_value(children, name, Scalar::Text(t)),
        ColorView::Gradient { .. } => set_gradient(children, name, c),
    }
}

/// The block after the colour of a slot was written. A solid colour goes
/// into the node of the colour's name, and the nodes of the gradient's
/// name are removed; a gradient goes into a node of the gradient's name,
/// and the nodes of the colour's name are removed.
pub open spec fn set_slot(
    children: Seq<NodeTree>,
    color_name: Seq<char>,
    gradient_name: Seq<char>,
    c: ColorView,
) -> Seq<NodeTree> {
    match c {
        ColorView::Solid(t) => without(
            set_value(children, color_name, Scalar::Text(t)),
            gradient_name,
        ),
        ColorView::Gradient { .. } => set_gradient(without(children, color_name), gradient_name, c),
    }
}

/// The node that holds the offset of the shadow.
pub open spec fn offset_node(x: i32, y: i32) -> NodeTree {
    NodeTree {
        name: "offset"@,
        entries: seq![
            EntryItem { name: Some("x"@), value: Scalar::Integer(x as i128) },
            EntryItem { name: Some("y"@), value: Scalar::Integer(y as i128) },
        ],
        children: None,
    }
}

/// The block after the offset was written.
pub open spec fn set_offset(children: Seq<NodeTree>, x: i32, y: i32) -> Seq<NodeTree> {
    without(children, "offset"@).push(offset_node(x, y))
}

/// The block after an optional number was written: set, or its nodes
/// removed.
pub open spec fn set_optional(children: Seq<NodeTree>, name: Seq<char>, v: Option<i32>) -> Seq<
    NodeTree,
> {
    match v {
        Some(n) => set_value(children, name, Scalar::Integer(n as i128)),
        None => without(children, name),
    }
}

/// The index of the node of this name that holds its block: the last one
/// if `last`, else the first. A block is written where it is read: the
/// document is read from its first `layout` node, and within it every
/// section is read from its last node.
pub open spec fn block_index(parent: Seq<NodeTree>, name: Seq<char>, last: bool) -> Option<int> {
    if last {
        last_where(parent, named(name))
    } else {
        first_where(parent, named(name))
    }
}

/// The nodes of the block of the node of this name; none where there is no
/// such node or it has no block.
pub open spec fn current_block(parent: Seq<NodeTree>, name: Seq<char>, last: bool) -> Seq<
    NodeTree,
> {
    match block_index(parent, name, last) {
        Some(i) => block_of(parent[i]),
        None => Seq::empty(),
    }
}

/// The nodes after the node of this name was given a block; where there
/// was no such node, one is appended.
pub open spec fn with_block(
    parent: Seq<NodeTree>,
    name: Seq<char>,
    block: Seq<NodeTree>,
    last: bool,
) -> Seq<NodeTree> {
    match block_index(parent, name, last) {
        Some(i) => parent.update(i, NodeTree { children: Some(block), ..parent[i] }),
        None => parent.push(NodeTree { name, entries: Seq::empty(), children: Some(block) }),
    }
}

/// The block of the focus ring after it was written.
pub open spec fn focus_ring_block(children: Seq<NodeTree>, s: FocusRingView) -> Seq<NodeTree> {
    let a = set_toggle(children, "off"@, s.off);
    let b = set_value(a, "width"@, Scalar::Integer(s.width as i128));
    let c = set_slot(b, "active-color"@, "active-gradient"@, s.active_color);
    set_slot(c, "inactive-color"@, "inactive-gradient"@, s.inactive_color)
}

/// The block of the border after it was written. Of `off` and `on`, the one
/// that holds is there and the other is not.
pub open spec fn border_block(children: Seq<NodeTree>, s: BorderView) -> Seq<NodeTree> {
    let a = if s.off {
        without(set_toggle(children, "off"@, true), "on"@)
    } else {
        without(set_toggle(children, "on"@, true), "off"@)
    };
    let b = set_value(a, "width"@, Scalar::Integer(s.width as i128));
    let c = set_slot(b, "active-color"@, "active-gradient"@, s.active_color);
    let d = set_slot(c, "inactive-color"@, "inactive-gradient"@, s.inactive_color);
    match s.urgent_color {
        Some(u) => set_slot(d, "urgent-color"@, "urgent-gradient"@, u),
        None => without(without(d, "urgent-color"@), "urgent-gradient"@),
    }
}

/// The block of the shadow after it was written.
pub open spec fn shadow_block(children: Seq<NodeTree>, s: ShadowView) -> Seq<NodeTree> {
    let a = set_toggle(children, "on"@, s.on);
    let b = if s.draw_behind_window {
        set_value(a, "draw-behind-window"@, Scalar::Boolean(true))
    } else {
        without(a, "draw-behind-window"@)
    };
    let c = set_value(b, "softness"@, Scalar::Integer(s.softness as i128));
    let d = set_value(c, "spread"@, Scalar::Integer(s.spread as i128));
    let e = set_offset(d, s.offset_x, s.offset_y);
    set_color(e, "color"@, s.color)
}

/// The block of the struts after it was written.
pub open spec fn struts_block(children: Seq<NodeTree>, s: StrutsSettings) -> Seq<NodeTree> {
    let a = set_optional(children, "left"@, s.left);
    let b = set_optional(a, "right"@, s.right);
    let c = set_optional(b, "top"@, s.top);
    set_optional(c, "bottom"@, s.bottom)
}

/// The `layout` block after the settings were written.
pub open spec fn layout_block(children: Seq<NodeTree>, s: AppearanceView) -> Seq<NodeTree> {
    let a = set_value(children, "gaps"@, Scalar::Integer(s.gaps as i128));
    let b = set_value(a, "center-focused-column"@, Scalar::Text(s.center_focused_column.keyword()));
    let c = with_block(
        b,
        "focus-ring"@,
        focus_ring_block(current_block(b, "focus-ring"@, true), s.focus_ring),
        true,
    );
    let d = with_block(
        c,
        "border"@,
        border_block(current_block(c, "border"@, true), s.border),
        true,
    );
    let e = with_block(
        d,
        "shadow"@,
        shadow_block(current_block(d, "shadow"@, true), s.shadow),
        true,
    );
    with_block(e, "struts"@, struts_block(current_block(e, "struts"@, true), s.struts), true)
}

/// The document after the settings were written: into the block of the
/// first top-level node called `layout`, or into a new one at the end.
pub open spec fn with_appearance(nodes: Seq<NodeTree>, s: AppearanceView) -> Seq<NodeTree> {
    with_block(nodes, "layout"@, layout_block(current_block(nodes, "layout"@, false), s), false)
}

/// The index of the last of the nodes that has this name.
fn find_last_named(nodes: &[KdlNode], name: &str) -> (r: Option<usize>)
    ensures
        match r {
            Some(k) => last_where(trees(nodes@), named(name@)) == Some(k as int) && k < nodes@.len(),
            None => last_where(trees(nodes@), named(name@)) is None,
        },
{
    let mut i: usize = nodes.len();
    while i > 0
        invariant
            i <= nodes.len(),
            forall|j: int| i <= j < nodes.len() ==> !named(name@)(#[trigger] trees(nodes@)[j]),
        decreases i,
    {
        if text_eq(node_name(&nodes[i - 1]), name) {
            proof {
                assert(trees(nodes@)[i as int - 1] == node_tree(nodes@[i as int - 1]));
                lemma_last_where_is(trees(nodes@), named(name@), i as int);
            }
            return Some(i - 1);
        }
        i -= 1;
    }
    proof {
        lemma_last_where_is(trees(nodes@), named(name@), 0);
    }
    None
}

/// Writes a value as the only argument of the last node of this name, or
/// of a new node at the end.
pub fn update_or_add_simple_value(children: &mut KdlDocument, name: &str, value: KdlValue)
    ensures
        document_tree(*final(children)) == set_value(
            document_tree(*old(children)),
            name@,
            value_scalar(value),
        ),
{
    let found = find_last_named(children.nodes(), name);
    let ghost before = document_nodes(*children);
    match found {
        Some(k) => {
            let nodes = children.nodes_mut();
            let node = &mut nodes[k];
            node.clear();
            push_entry(node, argument_entry(value));
            proof {
                assert(node_tree(*node).entries =~= seq![
                    EntryItem { name: None, value: value_scalar(value) },
                ]);
            }
            assert(document_tree(*children) =~= set_value(
                trees(before),
                name@,
                value_scalar(value),
            ));
        },
        None => {
            let mut node = new_node(name);
            push_entry(&mut node, argument_entry(value));
            proof {
                assert(node_tree(node).entries =~= seq![
                    EntryItem { name: None, value: value_scalar(value) },
                ]);
            }
            children.nodes_mut().push(node);
            assert(document_tree(*children) =~= set_value(
                trees(before),
                name@,
                value_scalar(value),
            ));
        },
    }
}

/// Removes every node of this name.
pub fn remove_node(children: &mut KdlDocument, name: &str)
    ensures
        document_tree(*final(children)) == without(document_tree(*old(children)), name@),
{
    let ghost orig = document_tree(*children);
    let nodes = children.nodes_mut();
    let ghost k: int = 0;
    let mut i: usize = 0;
    assert(orig.take(0).len() == 0);
    assert(orig.skip(0) =~= orig);
    while i < nodes.len()
        invariant
            0 <= k <= orig.len(),
            i <= nodes.len(),
            i == without(orig.take(k), name@).len(),
            trees(nodes@) == without(orig.take(k), name@) + orig.skip(k),
        decreases nodes.len() - i,
    {
        proof {
            assert(trees(nodes@).len() == nodes@.len());
            assert(k < orig.len());
            assert(trees(nodes@)[i as int] == orig.skip(k)[0]);
            assert(orig.take(k + 1).drop_last() =~= orig.take(k));
            assert(orig.take(k + 1).last() == orig[k]);
            assert(trees(nodes@)[i as int] == node_tree(nodes@[i as int]));
        }
        let ghost before = trees(nodes@);
        if text_eq(node_name(&nodes[i]), name) {
            nodes.remove(i);
            proof {
                assert(trees(nodes@) =~= before.remove(i as int));
                assert(trees(nodes@) =~= without(orig.take(k + 1), name@) + orig.skip(k + 1));
                k = k + 1;
            }
        } else {
            proof {
                assert(before =~= without(orig.take(k + 1), name@) + orig.skip(k + 1));
                k = k + 1;
            }
            i += 1;
        }
    }
    proof {
        assert(trees(nodes@).len() == nodes@.len());
        assert(k == orig.len());
        assert(orig.take(k) =~= orig);
        assert(trees(nodes@) =~= without(orig, name@));
    }
}

/// Makes a node of this name be there if and only if the flag is on.
pub fn update_toggle_node(children: &mut KdlDocument, name: &str, enabled: bool)
    ensures
        document_tree(*final(children)) == set_toggle(
            document_tree(*old(children)),
            name@,
            enabled,
        ),
{
    if enabled {
        let exists = find_last_named(children.nodes(), name).is_some();
        if !exists {
            let ghost before = document_tree(*children);
            let node = new_node(name);
            children.nodes_mut().push(node);
            assert(document_tree(*children) =~= before.push(bare_node(name@)));
        }
    } else {
        remove_node(children, name);
    }
}

/// Writes a gradient as a new node of this name, in place of the nodes of
/// the name. A solid colour writes nothing.
pub fn update_gradient(children: &mut KdlDocument, name: &str, gradient: &ColorValue)
    ensures
        document_tree(*final(children)) == set_gradient(
            document_tree(*old(children)),
            name@,
            gradient@,
        ),
{
    match gradient {
        ColorValue::Gradient { from, to, angle, relative_to, color_space } => {
            remove_node(children, name);
            let mut node = new_node(name);
            push_entry(&mut node, property_entry("from", text_value(from.clone())));
            push_entry(&mut node, property_entry("to", text_value(to.clone())));
            match angle {
                Some(a) => {
                    push_entry(&mut node, property_entry("angle", integer_value(*a as i128)));
                },
                None => {},
            }
            match relative_to {
                Some(r) => {
                    push_entry(&mut node, property_entry("relative-to", text_value(r.clone())));
                },
                None => {},
            }
            match color_space {
                Some(c) => {
                    push_entry(&mut node, property_entry("in", text_value(c.clone())));
                },
                None => {},
            }
            assert(node_tree(node).entries =~= gradient_items(gradient@));
            let ghost before = document_tree(*children);
            children.nodes_mut().push(node);
            assert(document_tree(*children) =~= before.push(gradient_node(name@, gradient@)));
        },
        ColorValue::Solid(_) => {},
    }
}

/// Writes a colour under one name, whatever its form.
pub fn update_color(children: &mut KdlDocument, name: &str, color: &ColorValue)
    ensures
        document_tree(*final(children)) == set_color(document_tree(*old(children)), name@, color@),
{
    match color {
        ColorValue::Solid(c) => {
            update_or_add_simple_value(children, name, text_value(c.clone()));
        },
        ColorValue::Gradient { .. } => {
            update_gradient(children, name, color);
        },
    }
}

/// Writes the colour of a slot: a solid colour under the colour's name, a
/// gradient under the gradient's name, and removes the other form.
pub fn update_slot(
    children: &mut KdlDocument,
    color_name: &str,
    gradient_name: &str,
    color: &ColorValue,
)
    ensures
        document_tree(*final(children)) == set_slot(
            document_tree(*old(children)),
            color_name@,
            gradient_name@,
            color@,
        ),
{
    match color {
        ColorValue::Solid(c) => {
            update_or_add_simple_value(children, color_name, text_value(c.clone()));
            remove_node(children, gradient_name);
        },
        ColorValue::Gradient { .. } => {
            remove_node(children, color_name);
            update_gradient(children, gradient_name, color);
        },
    }
}

/// Writes the offset of the shadow as a new `offset` node.
pub fn update_offset(children: &mut KdlDocument, x: i32, y: i32)
    ensures
        document_tree(*final(children)) == set_offset(document_tree(*old(children)), x, y),
{
    remove_node(children, "offset");
    let mut node = new_node("offset");
    push_entry(&mut node, property_entry("x", integer_value(x as i128)));
    push_entry(&mut node, property_entry("y", integer_value(y as i128)));
    assert(node_tree(node).entries =~= offset_node(x, y).entries);
    let ghost before = document_tree(*children);
    children.nodes_mut().push(node);
    assert(document_tree(*children) =~= before.push(offset_node(x, y)));
}

/// Writes an optional number: sets it, or removes its nodes.
pub fn update_optional_value(children: &mut KdlDocument, name: &str, value: Option<i32>)
    ensures
        document_tree(*final(children)) == set_optional(
            document_tree(*old(children)),
            name@,
            value,
        ),
{
    match value {
        Some(v) => {
            update_or_add_simple_value(children, name, integer_value(v as i128));
        },
        None => {
            remove_node(children, name);
        },
    }
}

/// Writing a block in two steps, first making sure that it is there and
/// then replacing its nodes, gives the block written at once.
proof fn lemma_block_written(
    parent: Seq<NodeTree>,
    name: Seq<char>,
    block: Seq<NodeTree>,
    last: bool,
)
    ensures
        ({
            let made = with_block(parent, name, current_block(parent, name, last), last);
            let at = match block_index(parent, name, last) {
                Some(i) => i,
                None => parent.len() as int,
            };
            &&& 0 <= at < made.len()
            &&& made[at].children == Some(current_block(parent, name, last))
            &&& made.update(at, NodeTree { children: Some(block), ..made[at] }) == with_block(
                parent,
                name,
                block,
                last,
            )
        }),
{
    lemma_first_where(parent, named(name));
    lemma_last_where(parent, named(name));
    let made = with_block(parent, name, current_block(parent, name, last), last);
    let at = match block_index(parent, name, last) {
        Some(i) => i,
        None => parent.len() as int,
    };
    assert(made.update(at, NodeTree { children: Some(block), ..made[at] }) =~= with_block(
        parent,
        name,
        block,
        last,
    ));
}

/// Makes sure that there is a node of this name with a block: the node
/// that holds the block gets an empty one if it has none, and where there
/// is no such node, one with an empty block is appended. Gives its index.
fn ensure_block(parent: &mut KdlDocument, name: &str, last: bool) -> (r: usize)
    ensures
        document_tree(*final(parent)) == with_block(
            document_tree(*old(parent)),
            name@,
            current_block(document_tree(*old(parent)), name@, last),
            last,
        ),
        r < document_nodes(*final(parent)).len(),
        r == match block_index(document_tree(*old(parent)), name@, last) {
            Some(i) => i,
            None => document_tree(*old(parent)).len() as int,
        },
        document_nodes(*final(parent)).len() == document_nodes(*old(parent)).len() + (
        if block_index(document_tree(*old(parent)), name@, last) is Some {
            0int
        } else {
            1int
        }),
        forall|j: int|
            0 <= j < document_nodes(*old(parent)).len() && j != r ==> document_nodes(
                *final(parent),
            )[j] == document_nodes(*old(parent))[j],
{
    let ghost before = document_nodes(*parent);
    proof {
        lemma_first_where(trees(before), named(name@));
        lemma_last_where(trees(before), named(name@));
    }
    let found = if last {
        find_last_named(parent.nodes(), name)
    } else {
        find_named(parent.nodes(), name)
    };
    match found {
        Some(i) => {
            let nodes = parent.nodes_mut();
            let node = &mut nodes[i];
            let block = node.children_mut();
            if block.is_none() {
                let empty = KdlDocument::new();
                assert(document_tree(empty) =~= Seq::<NodeTree>::empty());
                *block = Some(empty);
            }
            assert(document_tree(*parent) =~= with_block(
                trees(before),
                name@,
                current_block(trees(before), name@, last),
                last,
            ));
            i
        },
        None => {
            let mut node = new_node(name);
            let empty = KdlDocument::new();
            assert(document_tree(empty) =~= Seq::<NodeTree>::empty());
            node.set_children(empty);
            let nodes = parent.nodes_mut();
            nodes.push(node);
            let n = nodes.len();
            assert(document_tree(*parent) =~= with_block(
                trees(before),
                name@,
                current_block(trees(before), name@, last),
                last,
            ));
            n - 1
        },
    }
}

/// Writes the focus ring into the block of the `focus-ring` node.
pub fn update_focus_ring(parent: &mut KdlDocument, settings: &FocusRingSettings)
    ensures
        document_tree(*final(parent)) == with_block(
            document_tree(*old(parent)),
            "focus-ring"@,
            focus_ring_block(current_block(document_tree(*old(parent)), "focus-ring"@, true), settings@),
            true,
        ),
{
    let ghost before = document_tree(*parent);
    let idx = ensure_block(parent, "focus-ring", true);
    let ghost between = document_tree(*parent);
    proof {
        lemma_last_where(before, named("focus-ring"@));
    }
    let ghost made = document_nodes(*parent);
    let ghost inner = current_block(before, "focus-ring"@, true);
    proof {
        lemma_block_written(before, "focus-ring"@, focus_ring_block(inner, settings@), true);
    }
    let nodes = parent.nodes_mut();
    let node = &mut nodes[idx];
    assert(node_tree(*node) == trees(made)[idx as int]);
    let block = node.children_mut();
    match block {
        Some(children) => {
            assert(document_tree(*children) == inner);
            update_toggle_node(children, "off", settings.off);
            update_or_add_simple_value(children, "width", integer_value(settings.width as i128));
            update_slot(children, "active-color", "active-gradient", &settings.active_color);
            update_slot(children, "inactive-color", "inactive-gradient", &settings.inactive_color);
            children.autoformat();
            assert(document_tree(*children) == focus_ring_block(inner, settings@));
        },
        None => {},
    }
    node.autoformat();
    proof {
        let after = document_nodes(*parent);
        let written = focus_ring_block(inner, settings@);
        assert(after.len() == made.len());
        assert(node_tree(after[idx as int]) == (NodeTree {
            children: Some(written),
            ..trees(made)[idx as int]
        }));
        assert(trees(after) =~= trees(made).update(
            idx as int,
            NodeTree { children: Some(written), ..trees(made)[idx as int] },
        ));
    }
    assert(document_tree(*parent) =~= with_block(
        before,
        "focus-ring"@,
        focus_ring_block(current_block(before, "focus-ring"@, true), settings@),
        true,
    ));
}

/// Writes the border into the block of the `border` node.
pub fn update_border(parent: &mut KdlDocument, settings: &BorderSettings)
    ensures
        document_tree(*final(parent)) == with_block(
            document_tree(*old(parent)),
            "border"@,
            border_block(current_block(document_tree(*old(parent)), "border"@, true), settings@),
            true,
        ),
{
    let ghost before = document_tree(*parent);
    let idx = ensure_block(parent, "border", true);
    proof {
        lemma_last_where(before, named("border"@));
    }
    let ghost made = document_nodes(*parent);
    let ghost inner = current_block(before, "border"@, true);
    proof {
        lemma_block_written(before, "border"@, border_block(inner, settings@), true);
    }
    let nodes = parent.nodes_mut();
    let node = &mut nodes[idx];
    assert(node_tree(*node) == trees(made)[idx as int]);
    let block = node.children_mut();
    match block {
        Some(children) => {
            assert(document_tree(*children) == inner);
            if settings.off {
                update_toggle_node(children, "off", true);
                remove_node(children, "on");
            } else {
                update_toggle_node(children, "on", true);
                remove_node(children, "off");
            }
            update_or_add_simple_value(children, "width", integer_value(settings.width as i128));
            update_slot(children, "active-color", "active-gradient", &settings.active_color);
            update_slot(children, "inactive-color", "inactive-gradient", &settings.inactive_color);
            match &settings.urgent_color {
                Some(color) => {
                    update_slot(children, "urgent-color", "urgent-gradient", color);
                },
                None => {
                    remove_node(children, "urgent-color");
                    remove_node(children, "urgent-gradient");
                },
            }
            children.autoformat();
            assert(document_tree(*children) == border_block(inner, settings@));
        },
        None => {},
    }
    node.autoformat();
    proof {
        let after = document_nodes(*parent);
        let written = border_block(inner, settings@);
        assert(after.len() == made.len());
        assert(node_tree(after[idx as int]) == (NodeTree {
            children: Some(written),
            ..trees(made)[idx as int]
        }));
        assert(trees(after) =~= trees(made).update(
            idx as int,
            NodeTree { children: Some(written), ..trees(made)[idx as int] },
        ));
    }
    assert(document_tree(*parent) =~= with_block(
        before,
        "border"@,
        border_block(current_block(before, "border"@, true), settings@),
        true,
    ));
}

/// Writes the shadow into the block of the `shadow` node.
pub fn update_shadow(parent: &mut KdlDocument, settings: &ShadowSettings)
    ensures
        document_tree(*final(parent)) == with_block(
            document_tree(*old(parent)),
            "shadow"@,
            shadow_block(current_block(document_tree(*old(parent)), "shadow"@, true), settings@),
            true,
        ),
{
    let ghost before = document_tree(*parent);
    let idx = ensure_block(parent, "shadow", true);
    proof {
        lemma_last_where(before, named("shadow"@));
    }
    let ghost made = document_nodes(*parent);
    let ghost inner = current_block(before, "shadow"@, true);
    proof {
        lemma_block_written(before, "shadow"@, shadow_block(inner, settings@), true);
    }
    let nodes = parent.nodes_mut();
    let node = &mut nodes[idx];
    assert(node_tree(*node) == trees(made)[idx as int]);
    let block = node.children_mut();
    match block {
        Some(children) => {
            assert(document_tree(*children) == inner);
            update_toggle_node(children, "on", settings.on);
            if settings.draw_behind_window {
                update_or_add_simple_value(children, "draw-behind-window", bool_value(true));
            } else {
                remove_node(children, "draw-behind-window");
            }
            update_or_add_simple_value(
                children,
                "softness",
                integer_value(settings.softness as i128),
            );
            update_or_add_simple_value(children, "spread", integer_value(settings.spread as i128));
            update_offset(children, settings.offset_x, settings.offset_y);
            update_color(children, "color", &settings.color);
            children.autoformat();
            assert(document_tree(*children) == shadow_block(inner, settings@));
        },
        None => {},
    }
    node.autoformat();
    proof {
        let after = document_nodes(*parent);
        let written = shadow_block(inner, settings@);
        assert(after.len() == made.len());
        assert(node_tree(after[idx as int]) == (NodeTree {
            children: Some(written),
            ..trees(made)[idx as int]
        }));
        assert(trees(after) =~= trees(made).update(
            idx as int,
            NodeTree { children: Some(written), ..trees(made)[idx as int] },
        ));
    }
    assert(document_tree(*parent) =~= with_block(
        before,
        "shadow"@,
        shadow_block(current_block(before, "shadow"@, true), settings@),
        true,
    ));
}

/// Writes the struts into the block of the `struts` node.
pub fn update_struts(parent: &mut KdlDocument, settings: &StrutsSettings)
    ensures
        document_tree(*final(parent)) == with_block(
            document_tree(*old(parent)),
            "struts"@,
            struts_block(current_block(document_tree(*old(parent)), "struts"@, true), *settings),
            true,
        ),
{
    let ghost before = document_tree(*parent);
    let idx = ensure_block(parent, "struts", true);
    proof {
        lemma_last_where(before, named("struts"@));
    }
    let ghost made = document_nodes(*parent);
    let ghost inner = current_block(before, "struts"@, true);
    proof {
        lemma_block_written(before, "struts"@, struts_block(inner, *settings), true);
    }
    let nodes = parent.nodes_mut();
    let node = &mut nodes[idx];
    assert(node_tree(*node) == trees(made)[idx as int]);
    let block = node.children_mut();
    match block {
        Some(children) => {
            assert(document_tree(*children) == inner);
            update_optional_value(children, "left", settings.left);
            update_optional_value(children, "right", settings.right);
            update_optional_value(children, "top", settings.top);
            update_optional_value(children, "bottom", settings.bottom);
            children.autoformat();
            assert(document_tree(*children) == struts_block(inner, *settings));
        },
        None => {},
    }
    node.autoformat();
    proof {
        let after = document_nodes(*parent);
        let written = struts_block(inner, *settings);
        assert(after.len() == made.len());
        assert(node_tree(after[idx as int]) == (NodeTree {
            children: Some(written),
            ..trees(made)[idx as int]
        }));
        assert(trees(after) =~= trees(made).update(
            idx as int,
            NodeTree { children: Some(written), ..trees(made)[idx as int] },
        ));
    }
    assert(document_tree(*parent) =~= with_block(
        before,
        "struts"@,
        struts_block(current_block(before, "struts"@, true), *settings),
        true,
    ));
}

/// Writes the appearance settings into the `layout` block, which is made
/// if there is none. Every top-level node but `layout` is left as it is,
/// comments and layout included.
pub fn write_appearance(config: &mut ConfigDocument, settings: &AppearanceSettings) -> (r: Result<
    (),
    ConfigError,
>)
    ensures
        r is Ok,
        final(config).path == old(config).path,
        final(config).tree() == with_appearance(old(config).tree(), settings@),
        forall|j: int|
            0 <= j < document_nodes(old(config).doc).len() && first_where(
                old(config).tree(),
                named("layout"@),
            ) != Some(j) ==> document_nodes(final(config).doc)[j] == document_nodes(
                old(config).doc,
            )[j],
{
    let ghost before = config.tree();
    let idx = ensure_block(&mut config.doc, "layout", false);
    proof {
        lemma_first_where(before, named("layout"@));
    }
    let ghost old_nodes = document_nodes(old(config).doc);
    let ghost made = document_nodes(config.doc);
    let ghost inner = current_block(before, "layout"@, false);
    proof {
        lemma_block_written(before, "layout"@, layout_block(inner, settings@), false);
    }
    let nodes = config.doc.nodes_mut();
    let node = &mut nodes[idx];
    assert(node_tree(*node) == trees(made)[idx as int]);
    let block = node.children_mut();
    match block {
        Some(children) => {
            assert(document_tree(*children) == inner);
            update_or_add_simple_value(children, "gaps", integer_value(settings.gaps as i128));
            update_or_add_simple_value(
                children,
                "center-focused-column",
                text_value(settings.center_focused_column.to_string()),
            );
            update_focus_ring(children, &settings.focus_ring);
            update_border(children, &settings.border);
            update_shadow(children, &settings.shadow);
            update_struts(children, &settings.struts);
            children.autoformat();
            assert(document_tree(*children) == layout_block(inner, settings@));
        },
        None => {},
    }
    node.autoformat();
    proof {
        let after = document_nodes(config.doc);
        let written = layout_block(inner, settings@);
        assert(after.len() == made.len());
        assert(node_tree(after[idx as int]) == (NodeTree {
            children: Some(written),
            ..trees(made)[idx as int]
        }));
        assert(trees(after) =~= trees(made).update(
            idx as int,
            NodeTree { children: Some(written), ..trees(made)[idx as int] },
        ));
    }
    assert(config.tree() =~= with_appearance(before, settings@));
    Ok(())
}

} // verus!
