//! Reading the key bindings from the `binds` block of the document.

use vstd::prelude::*;
use kdl::KdlNode;
use crate::model::config::{
    argument, argument_at, argument_text, find_named, named, text_of, ConfigDocument,
};
use crate::model::keybindings::{
    ActionView, ArgView, BindingAction, BindingArg, BindingProperties, Keybinding, KeybindingView,
    Modifiers,
};
use crate::model::tree::{
    document_nodes, document_tree, entry_item, entry_name, items, node_name, node_tree, EntryItem,
    NodeTree, Scalar,
};
use crate::search::{first_where, lemma_first_where};
use crate::text::{starts_with, text_eq, texts};

verus! {

/// The boolean that the last property called `key` with a boolean value
/// gives.
pub open spec fn flag(entries: Seq<EntryItem>, key: Seq<char>) -> Option<bool>
    decreases entries.len(),
{
    if entries.len() == 0 {
        None
    } else {
        match entries.last().value {
            Scalar::Boolean(b) => if entries.last().name == Some(key) {
                Some(b)
            } else {
                flag(entries.drop_last(), key)
            },
            _ => flag(entries.drop_last(), key),
        }
    }
}

/// The number that the last property called `key` with an integer value
/// gives.
pub open spec fn number(entries: Seq<EntryItem>, key: Seq<char>) -> Option<i128>
    decreases entries.len(),
{
    if entries.len() == 0 {
        None
    } else {
        match entries.last().value {
            Scalar::Integer(i) => if entries.last().name == Some(key) {
                Some(i)
            } else {
                number(entries.drop_last(), key)
            },
            _ => number(entries.drop_last(), key),
        }
    }
}

/// The properties that the entries of a binding's node give. A property
/// whose value has the wrong type is skipped.
pub open spec fn properties_of(entries: Seq<EntryItem>) -> BindingProperties {
    BindingProperties {
        repeat: flag(entries, "repeat"@),
        cooldown_ms: match number(entries, "cooldown-ms"@) {
            Some(i) => Some(i as u32),
            None => None,
        },
        allow_when_locked: flag(entries, "allow-when-locked"@),
    }
}

/// The positional arguments that are texts, in order.
pub open spec fn text_arguments(entries: Seq<EntryItem>) -> Seq<Seq<char>>
    decreases entries.len(),
{
    if entries.len() == 0 {
        Seq::empty()
    } else {
        match (entries.last().name, entries.last().value) {
            (None, Scalar::Text(t)) => text_arguments(entries.drop_last()).push(t),
            _ => text_arguments(entries.drop_last()),
        }
    }
}

/// The action that an action node stands for. A `spawn` node gives a
/// command from its text arguments, and nothing where it has none; a
/// `spawn-shell` node gives a shell command from its first argument, and
/// nothing where that is no text; any other node gives the built-in action
/// of its name, with its first argument where that is an integer, a text
/// or a boolean.
pub open spec fn action_in(n: NodeTree) -> Option<ActionView> {
    if n.name == "spawn"@ {
        if text_arguments(n.entries).len() == 0 {
            None
        } else {
            Some(ActionView::Spawn(text_arguments(n.entries)))
        }
    } else if n.name == "spawn-shell"@ {
        match text_of(argument(n.entries, 0)) {
            Some(cmd) => Some(ActionView::SpawnSh(cmd)),
            None => None,
        }
    } else {
        match argument(n.entries, 0) {
            Some(Scalar::Integer(i)) => Some(ActionView::WithArg(n.name, ArgView::Number(i as i64))),
            Some(Scalar::Text(t)) => Some(ActionView::WithArg(n.name, ArgView::Text(t))),
            Some(Scalar::Boolean(b)) => Some(ActionView::WithArg(n.name, ArgView::Bool(b))),
            _ => Some(ActionView::Simple(n.name)),
        }
    }
}

/// The action of a binding's node: that of the first node of its block.
pub open spec fn action_of_binding(n: NodeTree) -> Option<ActionView> {
    match n.children {
        Some(c) => if c.len() > 0 {
            action_in(c[0])
        } else {
            None
        },
        None => None,
    }
}

/// The binding that the node at position `index` of the block stands for.
/// A node whose name begins with the disable marker, or that has no action,
/// stands for none.
pub open spec fn binding_of(n: NodeTree, index: int) -> Option<KeybindingView> {
    if "/-"@.is_prefix_of(n.name) {
        None
    } else {
        match action_of_binding(n) {
            Some(action) => Some(
                KeybindingView {
                    modifiers: Modifiers::of_combo(n.name),
                    key: Modifiers::key_of_combo(n.name),
                    properties: properties_of(n.entries),
                    action,
                    kdl_index: Some(index as usize),
                },
            ),
            None => None,
        }
    }
}

/// The bindings that the first `k` nodes of the block stand for.
pub open spec fn bindings_in(children: Seq<NodeTree>, k: int) -> Seq<KeybindingView>
    decreases k,
{
    if k <= 0 || k > children.len() {
        Seq::empty()
    } else {
        match binding_of(children[k - 1], k - 1) {
            Some(b) => bindings_in(children, k - 1).push(b),
            None => bindings_in(children, k - 1),
        }
    }
}

/// The bindings of a document: those of the block of the first top-level
/// node called `binds`; none where there is no such node or it has no
/// block.
pub open spec fn keybindings_of(nodes: Seq<NodeTree>) -> Seq<KeybindingView> {
    match first_where(nodes, named("binds"@)) {
        Some(i) => match nodes[i].children {
            Some(c) => bindings_in(c, c.len() as int),
            None => Seq::empty(),
        },
        None => Seq::empty(),
    }
}

/// The views of a list of bindings.
pub open spec fn views(v: Seq<Keybinding>) -> Seq<KeybindingView> {
    v.map_values(|b: Keybinding| b@)
}

/// Reads the key bindings of the document, in document order. An entry
/// that is disabled or has no action is skipped; the others still parse.
pub fn parse_keybindings(config: &ConfigDocument) -> (r: Vec<Keybinding>)
    ensures
        views(r@) == keybindings_of(config.tree()),
{
    let mut bindings: Vec<Keybinding> = Vec::new();
    let nodes = config.doc.nodes();
    proof {
        lemma_first_where(config.tree(), named("binds"@));
    }
    match find_named(nodes, "binds") {
        Some(i) => {
            match nodes[i].children() {
                Some(children) => {
                    let inner = children.nodes();
                    let ghost block = document_tree(*children);
                    let mut k: usize = 0;
                    while k < inner.len()
                        invariant
                            k <= inner.len(),
                            inner@ == document_nodes(*children),
                            block == document_tree(*children),
                            views(bindings@) == bindings_in(block, k as int),
                        decreases inner.len() - k,
                    {
                        assert(block[k as int] == node_tree(inner@[k as int]));
                        match parse_single_binding(&inner[k], k) {
                            Some(b) => {
                                let ghost before = views(bindings@);
                                let ghost bv = b@;
                                bindings.push(b);
                                assert(views(bindings@) =~= before.push(bv));
                            },
                            None => {},
                        }
                        k += 1;
                    }
                },
                None => {},
            }
        },
        None => {},
    }
    bindings
}

/// Reads the binding that one node of the `binds` block stands for.
pub fn parse_single_binding(node: &KdlNode, index: usize) -> (r: Option<Keybinding>)
    ensures
        match r {
            Some(b) => binding_of(node_tree(*node), index as int) == Some(b@),
            None => binding_of(node_tree(*node), index as int) is None,
        },
{
    let combo = node_name(node);
    if starts_with(combo, "/-") {
        return None;
    }
    let (modifiers, key) = Modifiers::parse(combo);
    let properties = parse_binding_properties(node);
    let action = match parse_binding_action(node) {
        Some(a) => a,
        None => {
            return None;
        },
    };
    Some(Keybinding { modifiers, key, properties, action, kdl_index: Some(index) })
}

/// Reads `repeat`, `cooldown-ms` and `allow-when-locked` from the
/// properties of a binding's node.
pub fn parse_binding_properties(node: &KdlNode) -> (r: BindingProperties)
    ensures
        r == properties_of(node_tree(*node).entries),
{
    let entries = node.entries();
    let ghost all = node_tree(*node).entries;
    let mut repeat: Option<bool> = None;
    let mut cooldown: Option<i128> = None;
    let mut allow: Option<bool> = None;
    let mut i: usize = 0;
    assert(all.take(0).len() == 0);
    while i < entries.len()
        invariant
            i <= entries.len(),
            items(entries@) == all,
            repeat == flag(all.take(i as int), "repeat"@),
            cooldown == number(all.take(i as int), "cooldown-ms"@),
            allow == flag(all.take(i as int), "allow-when-locked"@),
        decreases entries.len() - i,
    {
        proof {
            assert(all.len() == entries@.len());
            assert(all[i as int] == entry_item(entries@[i as int]));
            assert(all.take(i as int + 1).drop_last() =~= all.take(i as int));
            assert(all.take(i as int + 1).last() == all[i as int]);
        }
        match entry_name(&entries[i]) {
            Some(name) => {
                let value = entries[i].value();
                if text_eq(name, "repeat") {
                    match value.as_bool() {
                        Some(b) => {
                            repeat = Some(b);
                        },
                        None => {},
                    }
                }
                if text_eq(name, "cooldown-ms") {
                    match value.as_integer() {
                        Some(v) => {
                            cooldown = Some(v);
                        },
                        None => {},
                    }
                }
                if text_eq(name, "allow-when-locked") {
                    match value.as_bool() {
                        Some(b) => {
                            allow = Some(b);
                        },
                        None => {},
                    }
                }
            },
            None => {},
        }
        i += 1;
    }
    assert(all.take(all.len() as int) =~= all);
    BindingProperties {
        repeat,
        cooldown_ms: match cooldown {
            Some(v) => Some(
                #[verifier::truncate]
                (v as u32),
            ),
            None => None,
        },
        allow_when_locked: allow,
    }
}

/// The positional arguments of a node that are texts.
fn text_arguments_of(node: &KdlNode) -> (r: Vec<String>)
    ensures
        texts(r@) == text_arguments(node_tree(*node).entries),
{
    let entries = node.entries();
    let ghost all = node_tree(*node).entries;
    let mut args: Vec<String> = Vec::new();
    let mut i: usize = 0;
    assert(all.take(0).len() == 0);
    while i < entries.len()
        invariant
            i <= entries.len(),
            items(entries@) == all,
            texts(args@) == text_arguments(all.take(i as int)),
        decreases entries.len() - i,
    {
        proof {
            assert(all.len() == entries@.len());
            assert(all[i as int] == entry_item(entries@[i as int]));
            assert(all.take(i as int + 1).drop_last() =~= all.take(i as int));
            assert(all.take(i as int + 1).last() == all[i as int]);
        }
        if entry_name(&entries[i]).is_none() {
            match entries[i].value().as_string() {
                Some(s) => {
                    let ghost before = texts(args@);
                    args.push(s.to_owned());
                    assert(texts(args@) =~= before.push(s@));
                },
                None => {},
            }
        }
        i += 1;
    }
    assert(all.take(all.len() as int) =~= all);
    args
}

/// Reads the action of a binding's node from the first node of its block.
pub fn parse_binding_action(node: &KdlNode) -> (r: Option<BindingAction>)
    ensures
        match r {
            Some(a) => action_of_binding(node_tree(*node)) == Some(a@),
            None => action_of_binding(node_tree(*node)) is None,
        },
{
    let children = match node.children() {
        Some(c) => c,
        None => {
            return None;
        },
    };
    let inner = children.nodes();
    if inner.len() == 0 {
        return None;
    }
    let action_node = &inner[0];
    assert(document_tree(*children)[0] == node_tree(*action_node));
    let action_name = node_name(action_node);
    if text_eq(action_name, "spawn") {
        let args = text_arguments_of(action_node);
        if args.len() == 0 {
            None
        } else {
            Some(BindingAction::Spawn(args))
        }
    } else if text_eq(action_name, "spawn-shell") {
        match argument_text(action_node, 0) {
            Some(cmd) => Some(BindingAction::SpawnSh(cmd.to_owned())),
            None => None,
        }
    } else {
        match argument_at(action_node, 0) {
            None => Some(BindingAction::Simple(action_name.to_owned())),
            Some(value) => {
                match value.as_integer() {
                    Some(n) => Some(
                        BindingAction::WithArg(
                            action_name.to_owned(),
                            BindingArg::Number(
                                #[verifier::truncate]
                                (n as i64),
                            ),
                        ),
                    ),
                    None => match value.as_string() {
                        Some(s) => Some(
                            BindingAction::WithArg(
                                action_name.to_owned(),
                                BindingArg::String(s.to_owned()),
                            ),
                        ),
                        None => match value.as_bool() {
                            Some(b) => Some(
                                BindingAction::WithArg(action_name.to_owned(), BindingArg::Bool(b)),
                            ),
                            None => Some(BindingAction::Simple(action_name.to_owned())),
                        },
                    },
                }
            },
        }
    }
}

} // verus!
