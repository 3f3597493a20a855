//! Reading the positions of outputs from the document.

use vstd::prelude::*;
use crate::model::config::{
    argument, argument_text, coordinate, find_output, is_output_of, named, names_output,
    output_node, output_position, position_entries, position_in, position_node, property,
    text_of, with_position, with_position_child, ConfigDocument,
};
use crate::model::output::Position;
use crate::model::tree::{document_nodes, node_name, node_tree, EntryItem, NodeTree, Scalar};
use crate::search::{first_where, lemma_first_where, lemma_first_where_is};
use crate::text::text_eq;

verus! {

/// The output that a top-level node is an entry of: the first argument of
/// a node called `output` or, where it is disabled, `/-output`.
pub open spec fn listed_output(n: NodeTree) -> Option<Seq<char>> {
    if n.name == "output"@ || n.name == "/-output"@ {
        text_of(argument(n.entries, 0))
    } else {
        None
    }
}

/// The pairs of name and position that the first `k` nodes give: one for
/// every entry of an output for which the document stores a position.
pub open spec fn positions(nodes: Seq<NodeTree>, k: int) -> Seq<(Seq<char>, Position)>
    decreases k,
{
    if k <= 0 || k > nodes.len() {
        Seq::empty()
    } else {
        match listed_output(nodes[k - 1]) {
            Some(name) => match output_position(nodes, name) {
                Some(p) => positions(nodes, k - 1).push((name, p)),
                None => positions(nodes, k - 1),
            },
            None => positions(nodes, k - 1),
        }
    }
}

/// The pairs of name and position that a document gives.
pub open spec fn configured_positions(nodes: Seq<NodeTree>) -> Seq<(Seq<char>, Position)> {
    positions(nodes, nodes.len() as int)
}

/// What a list of named positions holds.
pub open spec fn pairs(v: Seq<(String, Position)>) -> Seq<(Seq<char>, Position)> {
    v.map_values(|e: (String, Position)| (e.0@, e.1))
}

/// The positions of the outputs that the document has an entry for,
/// disabled entries included, in document order: one pair for every entry
/// whose output has a position node with readable `x` and `y`. An entry
/// without a position node, or whose position node lacks a readable
/// coordinate, gives nothing.
pub fn get_configured_positions(config: &ConfigDocument) -> (r: Vec<(String, Position)>)
    ensures
        pairs(r@) == configured_positions(config.tree()),
{
    let mut result: Vec<(String, Position)> = Vec::new();
    let nodes = config.doc.nodes();
    let mut i: usize = 0;
    while i < nodes.len()
        invariant
            i <= nodes.len(),
            nodes@ == document_nodes(config.doc),
            pairs(result@) == positions(config.tree(), i as int),
        decreases nodes.len() - i,
    {
        assert(config.tree()[i as int] == node_tree(nodes@[i as int]));
        let name = node_name(&nodes[i]);
        if text_eq(name, "output") || text_eq(name, "/-output") {
            match argument_text(&nodes[i], 0) {
                Some(output_name) => {
                    match config.get_output_position(output_name) {
                        Some(p) => {
                            let ghost before = pairs(result@);
                            result.push((output_name.to_owned(), p));
                            assert(pairs(result@) =~= before.push((output_name@, p)));
                        },
                        None => {},
                    }
                },
                None => {},
            }
        }
        i += 1;
    }
    result
}

proof fn lemma_coordinates(p: Position)
    ensures
        coordinate(position_entries(p), "x"@) == Some(p.x),
        coordinate(position_entries(p), "y"@) == Some(p.y),
{
    reveal_strlit("x");
    reveal_strlit("y");
    let e = position_entries(p);
    assert("x"@ != "y"@) by {
        assert("x"@[0] != "y"@[0]);
    }
    assert(e.last().name == Some("y"@));
    assert(e.drop_last() =~= seq![
        EntryItem { name: Some("x"@), value: Scalar::Integer(p.x as i128) },
    ]);
    assert(e.drop_last().last().name == Some("x"@));
    assert(property(e, "y"@) == Some(Scalar::Integer(p.y as i128)));
    assert(property(e.drop_last(), "x"@) == Some(Scalar::Integer(p.x as i128)));
    assert(property(e, "x"@) == Some(Scalar::Integer(p.x as i128)));
}

proof fn lemma_position_child(children: Seq<NodeTree>, p: Position)
    ensures
        position_in(with_position_child(children, p)) == Some(p),
{
    lemma_coordinates(p);
    lemma_first_where(children, named("position"@));
    let after = with_position_child(children, p);
    match first_where(children, named("position"@)) {
        Some(k) => {
            assert forall|j: int| 0 <= j < k implies !named("position"@)(after[j]) by {
                assert(after[j] == children[j]);
            }
            lemma_first_where_is(after, named("position"@), k);
        },
        None => {
            let k = children.len() as int;
            assert forall|j: int| 0 <= j < k implies !named("position"@)(after[j]) by {
                assert(after[j] == children[j]);
            }
            lemma_first_where_is(after, named("position"@), k);
        },
    }
}

/// Where the entry of the output called `name` stands after its position
/// was set.
pub open spec fn entry_index(nodes: Seq<NodeTree>, name: Seq<char>) -> int {
    match find_output(nodes, name) {
        Some((i, _)) => i,
        None => nodes.len() as int,
    }
}

proof fn lemma_entry_after_write(nodes: Seq<NodeTree>, name: Seq<char>, p: Position)
    ensures
        ({
            let after = with_position(nodes, name, p);
            let i = entry_index(nodes, name);
            &&& 0 <= i < after.len()
            &&& find_output(after, name) == Some((i, false))
            &&& listed_output(after[i]) == Some(name)
            &&& output_position(after, name) == Some(p)
        }),
{
    let after = with_position(nodes, name, p);
    let i = entry_index(nodes, name);
    lemma_first_where(nodes, is_output_of(name));
    assert forall|j: int| 0 <= j < i implies !is_output_of(name)(after[j]) by {
        assert(after[j] == nodes[j]);
    }
    match find_output(nodes, name) {
        Some((k, _)) => {
            let block = match nodes[k].children {
                Some(c) => c,
                None => Seq::empty(),
            };
            lemma_position_child(block, p);
            assert(names_output(after[i], name) == Some(false));
        },
        None => {
            let block = seq![position_node(p)];
            assert(after[i] == output_node(name, p));
            let entries = seq![EntryItem { name: None, value: Scalar::Text(name) }];
            assert(argument(entries, 0) == Some(Scalar::Text(name)));
            lemma_coordinates(p);
            assert(named("position"@)(block[0]));
            lemma_first_where_is(block, named("position"@), 0);
            assert(names_output(after[i], name) == Some(false));
        },
    }
    lemma_first_where_is(after, is_output_of(name), i);
}

proof fn lemma_positions_keep(nodes: Seq<NodeTree>, k: int, upto: int, at: int)
    requires
        0 <= k <= upto <= nodes.len(),
        0 <= at < positions(nodes, k).len(),
    ensures
        at < positions(nodes, upto).len(),
        positions(nodes, upto)[at] == positions(nodes, k)[at],
    decreases upto - k,
{
    if k < upto {
        lemma_positions_keep(nodes, k, upto - 1, at);
    }
}

/// What is written is read: after the position of the output called `name`
/// was set to `p`, the document stores `p` for it, and the pairs read from
/// the document hold `(name, p)`.
pub proof fn lemma_written_position_is_read(nodes: Seq<NodeTree>, name: Seq<char>, p: Position)
    ensures
        output_position(with_position(nodes, name, p), name) == Some(p),
        configured_positions(with_position(nodes, name, p)).contains((name, p)),
{
    let after = with_position(nodes, name, p);
    let i = entry_index(nodes, name);
    lemma_entry_after_write(nodes, name, p);
    let upto = positions(after, i + 1);
    assert(upto == positions(after, i).push((name, p)));
    let at = upto.len() - 1;
    assert(upto[at] == (name, p));
    lemma_positions_keep(after, i + 1, after.len() as int, at);
    assert(configured_positions(after)[at] == (name, p));
}

} // verus!
