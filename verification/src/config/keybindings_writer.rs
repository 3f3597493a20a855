//! Writing the pending changes of key bindings into the `binds` block.
//!
//! Changes name positions in the block as it stands before the write.
//! Replacements are made first, at those positions; then the deleted
//! positions are removed, highest first, so that no removal moves a
//! position that is still to be removed; added bindings are appended last.

use vstd::prelude::*;
use kdl::KdlDocument;
use kdl::KdlNode;
use crate::error::ConfigError;
use crate::model::config::{find_named, named, ConfigDocument};
use crate::model::keybindings::{
    change_views, ActionView, ArgView, BindingAction, BindingArg, BindingProperties, ChangeView,
    Keybinding, KeybindingChange, KeybindingView,
};
use crate::model::keybindings_view::{is_deleted, replacement, resolve, resolved};
use crate::model::tree::{
    argument_entry, bool_value, document_nodes, document_tree, integer_value, new_node, node_tree,
    property_entry, push_entry, text_value, trees, EntryItem, NodeTree, Scalar,
};
use crate::search::{first_where, lemma_first_where};

verus! {

broadcast use vstd::std_specs::hash::group_hash_axioms;

/// What an argument is in the document.
pub open spec fn argument_scalar(arg: ArgView) -> Scalar {
    match arg {
        ArgView::Number(n) => Scalar::Integer(n as i128),
        ArgView::Text(s) => Scalar::Text(s),
        ArgView::Bool(b) => Scalar::Boolean(b),
    }
}

/// The positional arguments that hold these texts.
pub open spec fn text_items(args: Seq<Seq<char>>) -> Seq<EntryItem> {
    args.map_values(|t: Seq<char>| EntryItem { name: None, value: Scalar::Text(t) })
}

/// The node that encodes an action.
pub open spec fn action_tree(a: ActionView) -> NodeTree {
    match a {
        ActionView::Spawn(args) => NodeTree {
            name: "spawn"@,
            entries: text_items(args),
            children: None,
        },
        ActionView::SpawnSh(cmd) => NodeTree {
            name: "spawn-shell"@,
            entries: seq![EntryItem { name: None, value: Scalar::Text(cmd) }],
            children: None,
        },
        ActionView::Simple(name) => NodeTree { name, entries: Seq::empty(), children: None },
        ActionView::WithArg(name, arg) => NodeTree {
            name,
            entries: seq![EntryItem { name: None, value: argument_scalar(arg) }],
            children: None,
        },
    }
}

/// The properties of a binding's node: those that are set explicitly.
pub open spec fn property_items(p: BindingProperties) -> Seq<EntryItem> {
    (match p.repeat {
        Some(b) => seq![EntryItem { name: Some("repeat"@), value: Scalar::Boolean(b) }],
        None => seq![],
    }) + (match p.cooldown_ms {
        Some(ms) => seq![
            EntryItem { name: Some("cooldown-ms"@), value: Scalar::Integer(ms as i128) },
        ],
        None => seq![],
    }) + (match p.allow_when_locked {
        Some(b) => seq![EntryItem { name: Some("allow-when-locked"@), value: Scalar::Boolean(b) }],
        None => seq![],
    })
}

/// The node that encodes a binding: its name is the combo, its properties
/// are the explicit ones, and its block holds the action.
pub open spec fn binding_tree(b: KeybindingView) -> NodeTree {
    NodeTree {
        name: b.combo(),
        entries: property_items(b.properties),
        children: Some(seq![action_tree(b.action)]),
    }
}

/// What stands at position `i` of the block after the replacements.
pub open spec fn node_after(children: Seq<NodeTree>, changes: Seq<ChangeView>, i: int) -> NodeTree {
    match replacement(changes, i) {
        Some(b) => binding_tree(b),
        None => children[i],
    }
}

/// The nodes from position `i` on that are kept, replacements made.
pub open spec fn kept_from(children: Seq<NodeTree>, changes: Seq<ChangeView>, i: int) -> Seq<
    NodeTree,
>
    decreases children.len() - i,
{
    if i < 0 || i >= children.len() {
        Seq::empty()
    } else if is_deleted(changes, i) {
        kept_from(children, changes, i + 1)
    } else {
        seq![node_after(children, changes, i)] + kept_from(children, changes, i + 1)
    }
}

/// The nodes of the added bindings, in the order in which they were added.
pub open spec fn added_nodes(changes: Seq<ChangeView>) -> Seq<NodeTree>
    decreases changes.len(),
{
    if changes.len() == 0 {
        Seq::empty()
    } else {
        match changes.last() {
            ChangeView::Add(b) => added_nodes(changes.drop_last()).push(binding_tree(b)),
            _ => added_nodes(changes.drop_last()),
        }
    }
}

/// The block after the changes: every position of the old block that is
/// not deleted, with its replacement where it has one, then the added
/// bindings.
pub open spec fn binds_after(children: Seq<NodeTree>, changes: Seq<ChangeView>) -> Seq<NodeTree> {
    kept_from(children, changes, 0) + added_nodes(changes)
}

/// The nodes of a block, or none where there is no block.
pub open spec fn block_or_empty(n: NodeTree) -> Seq<NodeTree> {
    match n.children {
        Some(c) => c,
        None => Seq::empty(),
    }
}

/// The document after the changes were written into the block of the first
/// top-level node called `binds`; none where there is no such node.
pub open spec fn with_keybindings(nodes: Seq<NodeTree>, changes: Seq<ChangeView>) -> Option<
    Seq<NodeTree>,
> {
    match first_where(nodes, named("binds"@)) {
        Some(i) => Some(
            nodes.update(
                i,
                NodeTree {
                    children: Some(binds_after(block_or_empty(nodes[i]), changes)),
                    ..nodes[i]
                },
            ),
        ),
        None => None,
    }
}

/// Writes the changes into the `binds` block. The block must exist: where
/// it does not, the write fails with a lookup error and the document is
/// not touched. Every top-level node but `binds` is left as it is,
/// comments and layout included.
pub fn write_keybindings(config: &mut ConfigDocument, changes: &[KeybindingChange]) -> (r: Result<
    (),
    ConfigError,
>)
    ensures
        final(config).path == old(config).path,
        match with_keybindings(old(config).tree(), change_views(changes@)) {
            Some(after) => r is Ok && final(config).tree() == after && document_nodes(
                final(config).doc,
            ).len() == document_nodes(old(config).doc).len() && forall|j: int|
                0 <= j < document_nodes(old(config).doc).len() && first_where(
                    old(config).tree(),
                    named("binds"@),
                ) != Some(j) ==> document_nodes(final(config).doc)[j] == document_nodes(
                    old(config).doc,
                )[j],
            None => r matches Err(ConfigError::Lookup(m)) && m@
                == "No binds block found in config"@ && final(config).doc == old(config).doc,
        },
{
    proof {
        lemma_first_where(config.tree(), named("binds"@));
    }
    let idx = match find_named(config.doc.nodes(), "binds") {
        Some(i) => i,
        None => {
            return Err(ConfigError::Lookup("No binds block found in config".to_owned()));
        },
    };
    let ghost before = document_nodes(config.doc);
    let ghost old_tree = node_tree(before[idx as int]);
    assert(config.tree()[idx as int] == old_tree);
    let nodes = config.doc.nodes_mut();
    let binds = &mut nodes[idx];
    let block = binds.children_mut();
    if block.is_none() {
        *block = Some(KdlDocument::new());
    }
    match block {
        Some(children) => {
            assert(document_tree(*children) =~= block_or_empty(old_tree));
            apply_changes(children, changes);
            children.autoformat();
        },
        None => {},
    }
    binds.autoformat();
    proof {
        let after = document_nodes(config.doc);
        assert(trees(after) =~= trees(before).update(idx as int, node_tree(after[idx as int])));
    }
    Ok(())
}

/// Applies the changes to the nodes of the `binds` block.
fn apply_changes(children: &mut KdlDocument, changes: &[KeybindingChange])
    ensures
        document_tree(*final(children)) == binds_after(
            document_tree(*old(children)),
            change_views(changes@),
        ),
{
    let ghost orig = document_tree(*children);
    let ghost cv = change_views(changes@);
    let n = children.nodes().len();
    let (deleted, modified) = resolve(changes);
    let nodes = children.nodes_mut();
    // Replacements, at the positions as they stand.
    let mut i: usize = 0;
    while i < n
        invariant
            i <= n,
            n == orig.len(),
            cv == change_views(changes@),
            resolved(cv, deleted@, modified@),
            nodes@.len() == n,
            forall|j: int| 0 <= j < i ==> #[trigger] trees(nodes@)[j] == node_after(orig, cv, j),
            forall|j: int| i <= j < n ==> #[trigger] trees(nodes@)[j] == orig[j],
        decreases n - i,
    {
        let ghost prev = nodes@;
        assert(trees(prev)[i as int] == orig[i as int]);
        assert(modified@.dom().contains(i) || !modified@.dom().contains(i));
        match modified.get(&i) {
            Some(new) => {
                let node = create_keybinding_node(*new);
                nodes.set(i, node);
                assert(trees(nodes@)[i as int] == node_tree(node));
            },
            None => {},
        }
        assert forall|j: int| 0 <= j < n && j != i implies #[trigger] trees(nodes@)[j] == trees(
            prev,
        )[j] by {
            assert(nodes@[j] == prev[j]);
        }
        i += 1;
    }
    // Removals, highest position first.
    let mut i: usize = n;
    while i > 0
        invariant
            i <= n,
            n == orig.len(),
            resolved(cv, deleted@, modified@),
            trees(nodes@) == Seq::new(i as nat, |j: int| node_after(orig, cv, j)) + kept_from(
                orig,
                cv,
                i as int,
            ),
        decreases i,
    {
        assert(trees(nodes@).len() == nodes@.len());
        i -= 1;
        let ghost before = trees(nodes@);
        assert(deleted@.contains(i) <==> is_deleted(cv, i as int));
        if deleted.contains(&i) {
            nodes.remove(i);
            assert(trees(nodes@) =~= before.remove(i as int));
        }
        assert(trees(nodes@) =~= Seq::new(i as nat, |j: int| node_after(orig, cv, j)) + kept_from(
            orig,
            cv,
            i as int,
        ));
    }
    // Additions, in the order in which they were made.
    let m = changes.len();
    let mut c: usize = 0;
    assert(cv.take(0).len() == 0);
    assert(trees(nodes@) =~= kept_from(orig, cv, 0) + added_nodes(cv.take(0)));
    while c < m
        invariant
            c <= m,
            m == changes@.len(),
            cv == change_views(changes@),
            trees(nodes@) == kept_from(orig, cv, 0) + added_nodes(cv.take(c as int)),
        decreases m - c,
    {
        proof {
            assert(cv.take(c as int + 1).drop_last() =~= cv.take(c as int));
            assert(cv.take(c as int + 1).last() == cv[c as int]);
            assert(cv[c as int] == changes@[c as int]@);
        }
        match &changes[c] {
            KeybindingChange::Add(binding) => {
                let ghost before = trees(nodes@);
                let node = create_keybinding_node(binding);
                nodes.push(node);
                assert(trees(nodes@) =~= before.push(node_tree(node)));
                assert(trees(nodes@) =~= kept_from(orig, cv, 0) + added_nodes(
                    cv.take(c as int + 1),
                ));
            },
            _ => {},
        }
        c += 1;
    }
    assert(cv.take(m as int) =~= cv);
}

/// The node that encodes a binding.
pub fn create_keybinding_node(binding: &Keybinding) -> (r: KdlNode)
    ensures
        node_tree(r) == binding_tree(binding@),
{
    let combo = binding.combo();
    let mut node = new_node(combo.as_str());
    match binding.properties.repeat {
        Some(b) => {
            push_entry(&mut node, property_entry("repeat", bool_value(b)));
        },
        None => {},
    }
    match binding.properties.cooldown_ms {
        Some(ms) => {
            push_entry(&mut node, property_entry("cooldown-ms", integer_value(ms as i128)));
        },
        None => {},
    }
    match binding.properties.allow_when_locked {
        Some(b) => {
            push_entry(&mut node, property_entry("allow-when-locked", bool_value(b)));
        },
        None => {},
    }
    assert(node_tree(node).entries =~= property_items(binding@.properties));
    let mut children = KdlDocument::new();
    let action_node = create_action_node(&binding.action);
    children.nodes_mut().push(action_node);
    children.autoformat();
    assert(document_tree(children) =~= seq![action_tree(binding@.action)]);
    node.set_children(children);
    node.autoformat();
    node
}

/// The node that encodes an action.
pub fn create_action_node(action: &BindingAction) -> (r: KdlNode)
    ensures
        node_tree(r) == action_tree(action@),
{
    match action {
        BindingAction::Spawn(args) => {
            let mut node = new_node("spawn");
            let mut i: usize = 0;
            while i < args.len()
                invariant
                    i <= args.len(),
                    node_tree(node).name == "spawn"@,
                    node_tree(node).children is None,
                    node_tree(node).entries == text_items(crate::text::texts(args@).take(i as int)),
                decreases args.len() - i,
            {
                let ghost before = node_tree(node).entries;
                push_entry(&mut node, argument_entry(text_value(args[i].clone())));
                assert(node_tree(node).entries =~= text_items(
                    crate::text::texts(args@).take(i as int + 1),
                ));
                i += 1;
            }
            assert(crate::text::texts(args@).take(args@.len() as int) =~= crate::text::texts(args@));
            node.autoformat();
            node
        },
        BindingAction::SpawnSh(cmd) => {
            let mut node = new_node("spawn-shell");
            push_entry(&mut node, argument_entry(text_value(cmd.clone())));
            assert(node_tree(node).entries =~= seq![
                EntryItem { name: None, value: Scalar::Text(cmd@) },
            ]);
            node.autoformat();
            node
        },
        BindingAction::Simple(name) => {
            let mut node = new_node(name.as_str());
            node.autoformat();
            node
        },
        BindingAction::WithArg(name, arg) => {
            let mut node = new_node(name.as_str());
            let value = match arg {
                BindingArg::Number(n) => integer_value(*n as i128),
                BindingArg::String(s) => text_value(s.clone()),
                BindingArg::Bool(b) => bool_value(*b),
            };
            push_entry(&mut node, argument_entry(value));
            assert(node_tree(node).entries =~= seq![
                EntryItem { name: None, value: argument_scalar(arg@) },
            ]);
            node.autoformat();
            node
        },
    }
}

} // verus!
