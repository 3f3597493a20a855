//! The configuration document and the entries of outputs in it.

use vstd::prelude::*;
use kdl::KdlDocument;
use kdl::KdlNode;
use kdl::KdlValue;
use crate::error::ConfigError;
use crate::model::output::Position;
use crate::model::tree::{
    describe, document_nodes, document_tree, entry_item, entry_name,
    integer_value, items, new_node, node_name, node_tree, parsed_v1, property_entry, push_entry,
    argument_entry, text_value, rename, render, rendered, trees, value_scalar, EntryItem, NodeTree,
    Scalar,
};
use crate::search::{first_where, lemma_first_where, lemma_first_where_is};
use crate::text::text_eq;

verus! {

/// The `index`-th positional argument among entries.
pub open spec fn argument(entries: Seq<EntryItem>, index: int) -> Option<Scalar>
    decreases entries.len(),
{
    if entries.len() == 0 || index < 0 {
        None
    } else if entries[0].name is None {
        if index == 0 {
            Some(entries[0].value)
        } else {
            argument(entries.drop_first(), index - 1)
        }
    } else {
        argument(entries.drop_first(), index)
    }
}

/// The value of the property called `key` among entries: that of the last
/// entry with this name.
pub open spec fn property(entries: Seq<EntryItem>, key: Seq<char>) -> Option<Scalar>
    decreases entries.len(),
{
    if entries.len() == 0 {
        None
    } else if entries.last().name == Some(key) {
        Some(entries.last().value)
    } else {
        property(entries.drop_last(), key)
    }
}

/// The text of a value, if it is a text.
pub open spec fn text_of(s: Option<Scalar>) -> Option<Seq<char>> {
    match s {
        Some(Scalar::Text(t)) => Some(t),
        _ => None,
    }
}

/// The number of a value, if it is an integer.
pub open spec fn integer_of(s: Option<Scalar>) -> Option<i128> {
    match s {
        Some(Scalar::Integer(i)) => Some(i),
        _ => None,
    }
}

/// The boolean of a value, if it is one.
pub open spec fn bool_of(s: Option<Scalar>) -> Option<bool> {
    match s {
        Some(Scalar::Boolean(b)) => Some(b),
        _ => None,
    }
}

/// The value of the `index`-th positional argument of a node.
pub fn argument_at(node: &KdlNode, index: usize) -> (r: Option<&KdlValue>)
    ensures
        match r {
            Some(v) => argument(node_tree(*node).entries, index as int) == Some(value_scalar(*v)),
            None => argument(node_tree(*node).entries, index as int) is None,
        },
{
    let entries = node.entries();
    let ghost all = node_tree(*node).entries;
    let mut left: usize = index;
    let mut i: usize = 0;
    assert(all.skip(0) =~= all);
    while i < entries.len()
        invariant
            i <= entries.len(),
            items(entries@) == all,
            all == node_tree(*node).entries,
            left <= index,
            argument(all, index as int) == argument(all.skip(i as int), left as int),
        decreases entries.len() - i,
    {
        proof {
            assert(all.len() == entries@.len());
            assert(all[i as int] == entry_item(entries@[i as int]));
            assert(all.skip(i as int).len() > 0);
            assert(all.skip(i as int).drop_first() =~= all.skip(i as int + 1));
            assert(all.skip(i as int)[0] == entry_item(entries@[i as int]));
        }
        if entry_name(&entries[i]).is_none() {
            if left == 0 {
                return Some(entries[i].value());
            }
            left -= 1;
        }
        i += 1;
    }
    None
}

/// The value of the property of a node that is called `key`: that of the
/// last entry with this name.
pub fn property_of<'a>(node: &'a KdlNode, key: &str) -> (r: Option<&'a KdlValue>)
    ensures
        match r {
            Some(v) => property(node_tree(*node).entries, key@) == Some(value_scalar(*v)),
            None => property(node_tree(*node).entries, key@) is None,
        },
{
    let entries = node.entries();
    let ghost all = node_tree(*node).entries;
    let mut i: usize = entries.len();
    assert(all.take(all.len() as int) =~= all);
    while i > 0
        invariant
            i <= entries.len(),
            items(entries@) == all,
            all == node_tree(*node).entries,
            property(all, key@) == property(all.take(i as int), key@),
        decreases i,
    {
        proof {
            assert(all.len() == entries@.len());
            assert(all[i as int - 1] == entry_item(entries@[i as int - 1]));
            assert(all.take(i as int).len() > 0);
            assert(all.take(i as int).drop_last() =~= all.take(i as int - 1));
            assert(all.take(i as int).last() == entry_item(entries@[i as int - 1]));
        }
        let named = match entry_name(&entries[i - 1]) {
            Some(n) => text_eq(n, key),
            None => false,
        };
        if named {
            return Some(entries[i - 1].value());
        }
        i -= 1;
    }
    None
}

/// The `index`-th positional argument of a node, if it is a text.
pub fn argument_text(node: &KdlNode, index: usize) -> (r: Option<&str>)
    ensures
        match r {
            Some(s) => text_of(argument(node_tree(*node).entries, index as int)) == Some(s@),
            None => text_of(argument(node_tree(*node).entries, index as int)) is None,
        },
{
    match argument_at(node, index) {
        Some(v) => v.as_string(),
        None => None,
    }
}

/// The `index`-th positional argument of a node, if it is an integer.
pub fn argument_integer(node: &KdlNode, index: usize) -> (r: Option<i128>)
    ensures
        r == integer_of(argument(node_tree(*node).entries, index as int)),
{
    match argument_at(node, index) {
        Some(v) => v.as_integer(),
        None => None,
    }
}

/// The `index`-th positional argument of a node, if it is a boolean.
pub fn argument_bool(node: &KdlNode, index: usize) -> (r: Option<bool>)
    ensures
        r == bool_of(argument(node_tree(*node).entries, index as int)),
{
    match argument_at(node, index) {
        Some(v) => v.as_bool(),
        None => None,
    }
}

/// The property `key` of a node, if it is a text.
pub fn property_text<'a>(node: &'a KdlNode, key: &str) -> (r: Option<&'a str>)
    ensures
        match r {
            Some(s) => text_of(property(node_tree(*node).entries, key@)) == Some(s@),
            None => text_of(property(node_tree(*node).entries, key@)) is None,
        },
{
    match property_of(node, key) {
        Some(v) => v.as_string(),
        None => None,
    }
}

/// The property `key` of a node, if it is an integer.
pub fn property_integer(node: &KdlNode, key: &str) -> (r: Option<i128>)
    ensures
        r == integer_of(property(node_tree(*node).entries, key@)),
{
    match property_of(node, key) {
        Some(v) => v.as_integer(),
        None => None,
    }
}

/// Whether a node has this name.
pub open spec fn named(name: Seq<char>) -> spec_fn(NodeTree) -> bool {
    |n: NodeTree| n.name == name
}

/// The index of the first of the nodes that has this name.
pub fn find_named(nodes: &[KdlNode], name: &str) -> (r: Option<usize>)
    ensures
        match r {
            Some(k) => first_where(trees(nodes@), named(name@)) == Some(k as int),
            None => first_where(trees(nodes@), named(name@)) is None,
        },
{
    let mut i: usize = 0;
    while i < nodes.len()
        invariant
            i <= nodes.len(),
            forall|j: int| 0 <= j < i ==> !named(name@)(#[trigger] trees(nodes@)[j]),
        decreases nodes.len() - i,
    {
        if text_eq(node_name(&nodes[i]), name) {
            proof {
                lemma_first_where_is(trees(nodes@), named(name@), i as int);
            }
            return Some(i);
        }
        i += 1;
    }
    proof {
        lemma_first_where_is(trees(nodes@), named(name@), nodes@.len() as int);
    }
    None
}

/// Whether a node is the entry of the output called `name`, and if so,
/// whether it is disabled: an entry is a node called `output`, or
/// `/-output` where it is disabled, whose first argument is the name.
pub open spec fn names_output(n: NodeTree, name: Seq<char>) -> Option<bool> {
    if text_of(argument(n.entries, 0)) == Some(name) {
        if n.name == "output"@ {
            Some(false)
        } else if n.name == "/-output"@ {
            Some(true)
        } else {
            None
        }
    } else {
        None
    }
}

/// Whether a node is the entry of the output called `name`.
pub open spec fn is_output_of(name: Seq<char>) -> spec_fn(NodeTree) -> bool {
    |n: NodeTree| names_output(n, name) is Some
}

/// The first entry of the output called `name` among nodes: its index, and
/// whether it is disabled.
pub open spec fn find_output(nodes: Seq<NodeTree>, name: Seq<char>) -> Option<(int, bool)> {
    match first_where(nodes, is_output_of(name)) {
        Some(i) => Some((i, names_output(nodes[i], name)->0)),
        None => None,
    }
}

/// A coordinate as the property `key` gives it: the number cut to 32
/// bits. There is none where the property is absent or not an integer.
pub open spec fn coordinate(entries: Seq<EntryItem>, key: Seq<char>) -> Option<i32> {
    match integer_of(property(entries, key)) {
        Some(i) => Some(i as i32),
        None => None,
    }
}

/// The position that the nodes of an output's block give: that of the first
/// node called `position`, where both of its properties `x` and `y` can be
/// read. A block without such a node, or whose position node lacks a
/// readable coordinate, gives none.
pub open spec fn position_in(children: Seq<NodeTree>) -> Option<Position> {
    match first_where(children, named("position"@)) {
        Some(k) => match (
            coordinate(children[k].entries, "x"@),
            coordinate(children[k].entries, "y"@),
        ) {
            (Some(x), Some(y)) => Some(Position { x, y }),
            _ => None,
        },
        None => None,
    }
}

/// The position that a document stores for the output called `name`.
pub open spec fn output_position(nodes: Seq<NodeTree>, name: Seq<char>) -> Option<Position> {
    match find_output(nodes, name) {
        Some((i, _)) => match nodes[i].children {
            Some(children) => position_in(children),
            None => None,
        },
        None => None,
    }
}

/// The entries of a position node.
pub open spec fn position_entries(p: Position) -> Seq<EntryItem> {
    seq![
        EntryItem { name: Some("x"@), value: Scalar::Integer(p.x as i128) },
        EntryItem { name: Some("y"@), value: Scalar::Integer(p.y as i128) },
    ]
}

/// A new position node.
pub open spec fn position_node(p: Position) -> NodeTree {
    NodeTree { name: "position"@, entries: position_entries(p), children: None }
}

/// The nodes of an output's block after its position was set: the first
/// node called `position` holds the new coordinates and nothing else; where
/// there was none, one is appended.
pub open spec fn with_position_child(children: Seq<NodeTree>, p: Position) -> Seq<NodeTree> {
    match first_where(children, named("position"@)) {
        Some(k) => children.update(k, NodeTree { entries: position_entries(p), ..children[k] }),
        None => children.push(position_node(p)),
    }
}

/// A new entry for the output called `name`.
pub open spec fn output_node(name: Seq<char>, p: Position) -> NodeTree {
    NodeTree {
        name: "output"@,
        entries: seq![EntryItem { name: None, value: Scalar::Text(name) }],
        children: Some(seq![position_node(p)]),
    }
}

/// The nodes of a document after the position of the output called `name`
/// was set: the output's first entry is enabled and holds the position;
/// where there was no entry, one is appended at the end.
pub open spec fn with_position(nodes: Seq<NodeTree>, name: Seq<char>, p: Position) -> Seq<
    NodeTree,
> {
    match find_output(nodes, name) {
        Some((i, _)) => nodes.update(
            i,
            NodeTree {
                name: "output"@,
                entries: nodes[i].entries,
                children: Some(
                    with_position_child(
                        match nodes[i].children {
                            Some(c) => c,
                            None => Seq::empty(),
                        },
                        p,
                    ),
                ),
            },
        ),
        None => nodes.push(output_node(name, p)),
    }
}

/// What is to be done next to save the document. Saving alternates between
/// work on files, which is not the library's, and these decisions.
pub enum SaveStep {
    /// Copy the file as it is on disk to the backup path, then report with
    /// `after_backup`.
    Backup,
    /// Overwrite the file with this text, then report with `after_write`.
    Write(String),
    /// The document is saved.
    Done,
    /// The save is given up; nothing more is to be written.
    Failed(ConfigError),
}

/// The configuration document together with the path it was loaded from.
/// The document keeps the comments and the layout of the file.
pub struct ConfigDocument {
    pub doc: KdlDocument,
    pub path: String,
}

impl ConfigDocument {
    /// The trees of the top-level nodes.
    pub open spec fn tree(self) -> Seq<NodeTree> {
        document_tree(self.doc)
    }

    /// Makes a document of the content of the file at `path`. Fails with a
    /// parse error that carries the path and the cause where the content is
    /// malformed.
    pub fn load(path: String, content: &str) -> (r: Result<ConfigDocument, ConfigError>)
        ensures
            match parsed_v1(content@) {
                Ok(d) => r matches Ok(c) && c.doc == d && c.path == path,
                Err(e) => r matches Err(ConfigError::Parse { path: p, cause }) && p == path
                    && cause@ == "Failed to parse KDL document"@,
            },
    {
        match KdlDocument::parse_v1(content) {
            Ok(doc) => Ok(ConfigDocument { doc, path }),
            Err(e) => Err(ConfigError::Parse { path, cause: describe(&e) }),
        }
    }

    /// The text to write to the file: the document spelled in version-1
    /// syntax. Spelling it so changes no node's tree.
    pub fn to_text(&mut self) -> (r: String)
        ensures
            final(self).path == old(self).path,
            final(self).tree() == old(self).tree(),
            r@ == rendered(final(self).doc),
    {
        self.doc.ensure_v1();
        render(&self.doc)
    }

    /// Begins a save. Where the file exists, the first step is the backup,
    /// and the document is not touched; a file that does not exist yet is
    /// written at once.
    pub fn save(&mut self, file_exists: bool) -> (r: SaveStep)
        ensures
            final(self).path == old(self).path,
            final(self).tree() == old(self).tree(),
            file_exists ==> r is Backup && final(self).doc == old(self).doc,
            !file_exists ==> (r matches SaveStep::Write(text) && text@ == rendered(
                final(self).doc,
            )),
    {
        if file_exists {
            SaveStep::Backup
        } else {
            SaveStep::Write(self.to_text())
        }
    }

    /// Goes on after the backup. Only after a backup that succeeded is the
    /// file written; after one that failed the save is given up with an
    /// I/O error, and neither the document nor the file is touched.
    pub fn after_backup(&mut self, backup_succeeded: bool) -> (r: SaveStep)
        ensures
            final(self).path == old(self).path,
            final(self).tree() == old(self).tree(),
            backup_succeeded ==> (r matches SaveStep::Write(text) && text@ == rendered(
                final(self).doc,
            )),
            !backup_succeeded ==> (r matches SaveStep::Failed(ConfigError::Io(m)) && m@
                == "Failed to create config backup"@ && final(self).doc == old(self).doc),
    {
        if backup_succeeded {
            SaveStep::Write(self.to_text())
        } else {
            SaveStep::Failed(ConfigError::Io("Failed to create config backup".to_owned()))
        }
    }

    /// Ends the save after the file was written, or could not be.
    pub fn after_write(&self, write_succeeded: bool) -> (r: SaveStep)
        ensures
            write_succeeded ==> r is Done,
            !write_succeeded ==> (r matches SaveStep::Failed(ConfigError::Io(m)) && m@
                == "Failed to write config file"@),
    {
        if write_succeeded {
            SaveStep::Done
        } else {
            SaveStep::Failed(ConfigError::Io("Failed to write config file".to_owned()))
        }
    }

    /// Finds the entry of the output called `name`, disabled entries
    /// included: its index among the top-level nodes, and whether it is
    /// disabled.
    pub fn find_output_node(&self, name: &str) -> (r: Option<(usize, bool)>)
        ensures
            match r {
                Some((i, disabled)) => find_output(self.tree(), name@) == Some((i as int, disabled)),
                None => find_output(self.tree(), name@) is None,
            },
    {
        let nodes = self.doc.nodes();
        let mut i: usize = 0;
        while i < nodes.len()
            invariant
                i <= nodes.len(),
                nodes@ == document_nodes(self.doc),
                forall|j: int| 0 <= j < i ==> !is_output_of(name@)(#[trigger] trees(nodes@)[j]),
            decreases nodes.len() - i,
        {
            let is_name = match argument_text(&nodes[i], 0) {
                Some(s) => text_eq(s, name),
                None => false,
            };
            if is_name {
                if text_eq(node_name(&nodes[i]), "output") {
                    proof {
                        lemma_first_where_is(trees(nodes@), is_output_of(name@), i as int);
                    }
                    return Some((i, false));
                }
                if text_eq(node_name(&nodes[i]), "/-output") {
                    proof {
                        reveal_strlit("output");
                        reveal_strlit("/-output");
                        assert("output"@.len() != "/-output"@.len());
                        lemma_first_where_is(trees(nodes@), is_output_of(name@), i as int);
                    }
                    return Some((i, true));
                }
            }
            i += 1;
        }
        proof {
            lemma_first_where_is(trees(nodes@), is_output_of(name@), nodes@.len() as int);
        }
        None
    }

    /// The position that the document stores for the output called `name`:
    /// that of the position node of the output's entry. There is none where
    /// the output has no entry, the entry has no position node, or the
    /// position node lacks a readable `x` or `y`.
    pub fn get_output_position(&self, name: &str) -> (r: Option<Position>)
        ensures
            r == output_position(self.tree(), name@),
    {
        let (idx, _disabled) = match self.find_output_node(name) {
            Some(found) => found,
            None => {
                return None;
            },
        };
        let nodes = self.doc.nodes();
        proof {
            lemma_first_where(self.tree(), is_output_of(name@));
        }
        let children = match nodes[idx].children() {
            Some(c) => c,
            None => {
                return None;
            },
        };
        let inner = children.nodes();
        proof {
            lemma_first_where(trees(inner@), named("position"@));
        }
        match find_named(inner, "position") {
            Some(k) => {
                match (property_integer(&inner[k], "x"), property_integer(&inner[k], "y")) {
                    (Some(x), Some(y)) => Some(
                        Position::new(
                            #[verifier::truncate]
                            (x as i32),
                            #[verifier::truncate]
                            (y as i32),
                        ),
                    ),
                    _ => None,
                }
            },
            None => None,
        }
    }

    /// Sets the position of the output called `name`. The output's entry is
    /// enabled in place if it was disabled, never duplicated; an output
    /// without an entry gets a new one at the end of the document. Every
    /// other top-level node is left as it is, comments and layout included.
    pub fn set_output_position(&mut self, name: &str, position: Position) -> (r: Result<
        (),
        ConfigError,
    >)
        ensures
            r is Ok,
            final(self).path == old(self).path,
            final(self).tree() == with_position(old(self).tree(), name@, position),
            match find_output(old(self).tree(), name@) {
                Some((i, _)) => document_nodes(final(self).doc).len() == document_nodes(
                    old(self).doc,
                ).len() && forall|j: int|
                    0 <= j < document_nodes(old(self).doc).len() && j != i ==> document_nodes(
                        final(self).doc,
                    )[j] == document_nodes(old(self).doc)[j],
                None => document_nodes(final(self).doc).drop_last() == document_nodes(
                    old(self).doc,
                ),
            },
    {
        match self.find_output_node(name) {
            Some((idx, disabled)) => {
                let ghost before = document_nodes(self.doc);
                proof {
                    lemma_first_where(trees(before), is_output_of(name@));
                }
                let nodes = self.doc.nodes_mut();
                let node = &mut nodes[idx];
                if disabled {
                    rename(node, "output");
                }
                let block = node.children_mut();
                if block.is_none() {
                    *block = Some(KdlDocument::new());
                }
                match block {
                    Some(children) => {
                        place_position(children, position);
                    },
                    None => {},
                }
                proof {
                    let after = document_nodes(self.doc);
                    assert(after.len() == before.len());
                    assert(forall|j: int| 0 <= j < before.len() && j != idx ==> after[j] == before[j]);
                    let t = node_tree(after[idx as int]);
                    let old_t = node_tree(before[idx as int]);
                    assert(trees(before)[idx as int] == old_t);
                    assert(names_output(old_t, name@) == Some(disabled));
                    assert(t.name == "output"@);
                    assert(t.entries == old_t.entries);
                    assert(t.children == Some(
                        with_position_child(
                            match old_t.children {
                                Some(c) => c,
                                None => Seq::empty(),
                            },
                            position,
                        ),
                    ));
                    assert(trees(after) =~= trees(before).update(idx as int, t));
                    assert(self.tree() =~= with_position(old(self).tree(), name@, position));
                }
            },
            None => {
                let mut pos_node = new_node("position");
                push_entry(&mut pos_node, property_entry("x", integer_value(position.x as i128)));
                push_entry(&mut pos_node, property_entry("y", integer_value(position.y as i128)));
                pos_node.autoformat();
                let mut children = KdlDocument::new();
                children.nodes_mut().push(pos_node);
                children.autoformat();
                let mut output = new_node("output");
                push_entry(&mut output, argument_entry(text_value(name.to_owned())));
                output.set_children(children);
                output.autoformat();
                let ghost before = document_nodes(self.doc);
                self.doc.nodes_mut().push(output);
                proof {
                    assert(node_tree(pos_node).entries =~= position_entries(position));
                    assert(node_tree(output).entries =~= seq![
                        EntryItem { name: None, value: Scalar::Text(name@) },
                    ]);
                    assert(document_tree(children) =~= seq![position_node(position)]);
                    assert(node_tree(output) == output_node(name@, position));
                    assert(document_nodes(self.doc).drop_last() =~= before);
                    assert(self.tree() =~= with_position(old(self).tree(), name@, position));
                }
            },
        }
        Ok(())
    }
}

/// Sets the coordinates in the block of an output: in its first node
/// called `position`, or in a new one at the end.
fn place_position(children: &mut KdlDocument, position: Position)
    ensures
        document_tree(*final(children)) == with_position_child(
            document_tree(*old(children)),
            position,
        ),
{
    let found = find_named(children.nodes(), "position");
    match found {
        Some(k) => {
            proof {
                lemma_first_where(document_tree(*children), named("position"@));
            }
            let nodes = children.nodes_mut();
            let pos_node = &mut nodes[k];
            pos_node.clear();
            push_entry(pos_node, property_entry("x", integer_value(position.x as i128)));
            push_entry(pos_node, property_entry("y", integer_value(position.y as i128)));
            pos_node.autoformat();
            proof {
                assert(node_tree(*pos_node).entries =~= position_entries(position));
            }
            assert(document_tree(*children) =~= with_position_child(
                document_tree(*old(children)),
                position,
            ));
        },
        None => {
            let mut pos_node = new_node("position");
            push_entry(&mut pos_node, property_entry("x", integer_value(position.x as i128)));
            push_entry(&mut pos_node, property_entry("y", integer_value(position.y as i128)));
            pos_node.autoformat();
            proof {
                assert(node_tree(pos_node).entries =~= position_entries(position));
            }
            children.nodes_mut().push(pos_node);
            assert(document_tree(*children) =~= with_position_child(
                document_tree(*old(children)),
                position,
            ));
        },
    }
}

} // verus!
