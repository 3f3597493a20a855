//! The structured document as the library sees it.
//!
//! The document is a `kdl::KdlDocument`: parsing, printing and formatting
//! are the `kdl` crate's work and are not proved here. This module says
//! what is assumed of the calls that the library makes into it. What is
//! assumed is stated over a plain tree, `NodeTree`: a node has a name, a
//! list of entries (positional arguments and named properties) and, if it
//! has a block, a list of child nodes. Comments and layout are part of a
//! `KdlNode` value but not of its tree, so a contract that says that a node
//! *value* is unchanged says that its comments and layout are unchanged
//! too.

use vstd::prelude::*;
use kdl::KdlDocument;
use kdl::KdlEntry;
use kdl::KdlError;
use kdl::KdlNode;
use kdl::KdlValue;

verus! {

/// What a value in the document holds. Floating-point numbers and the null
/// value are not told apart: no setting reads them.
pub enum Scalar {
    Text(Seq<char>),
    Integer(i128),
    Boolean(bool),
    Other,
}

/// An entry of a node: a positional argument, or a property with a name.
pub struct EntryItem {
    pub name: Option<Seq<char>>,
    pub value: Scalar,
}

/// A node: its name, its entries in order, and the nodes of its block, if
/// it has one.
pub struct NodeTree {
    pub name: Seq<char>,
    pub entries: Seq<EntryItem>,
    pub children: Option<Seq<NodeTree>>,
}

/// `kdl::KdlDocument`: a document, or the block of a node. Nothing is seen of
/// what it holds but through the functions below.
#[verifier::external_type_specification]
#[verifier::external_body]
pub struct ExKdlDocument(KdlDocument);

/// `kdl::KdlNode`: a node with its comments and layout.
#[verifier::external_type_specification]
#[verifier::external_body]
pub struct ExKdlNode(KdlNode);

/// `kdl::KdlEntry`: an argument or a property of a node.
#[verifier::external_type_specification]
#[verifier::external_body]
pub struct ExKdlEntry(KdlEntry);

/// `kdl::KdlValue`: a string, a number, a boolean or null.
#[verifier::external_type_specification]
#[verifier::external_body]
pub struct ExKdlValue(KdlValue);

/// `kdl::KdlError`: why a text is no document.
#[verifier::external_type_specification]
#[verifier::external_body]
pub struct ExKdlError(KdlError);

/// The nodes that a document holds, in order.
pub uninterp spec fn document_nodes(d: KdlDocument) -> Seq<KdlNode>;

/// The tree of a node.
pub uninterp spec fn node_tree(n: KdlNode) -> NodeTree;

/// What an entry holds.
pub uninterp spec fn entry_item(e: KdlEntry) -> EntryItem;

/// What a value holds.
pub uninterp spec fn value_scalar(v: KdlValue) -> Scalar;

/// What parsing a text as a version-1 document gives.
pub uninterp spec fn parsed_v1(text: Seq<char>) -> Result<KdlDocument, KdlError>;

/// The text that a document is printed as.
pub uninterp spec fn rendered(d: KdlDocument) -> Seq<char>;

/// The trees of a sequence of nodes.
pub open spec fn trees(nodes: Seq<KdlNode>) -> Seq<NodeTree> {
    nodes.map_values(|n: KdlNode| node_tree(n))
}

/// The trees of the nodes of a document.
pub open spec fn document_tree(d: KdlDocument) -> Seq<NodeTree> {
    trees(document_nodes(d))
}

/// The trees of the nodes of a block, if there is a block.
pub open spec fn block_tree(block: Option<KdlDocument>) -> Option<Seq<NodeTree>> {
    match block {
        Some(d) => Some(document_tree(d)),
        None => None,
    }
}

/// What a sequence of entries holds.
pub open spec fn items(entries: Seq<KdlEntry>) -> Seq<EntryItem> {
    entries.map_values(|e: KdlEntry| entry_item(e))
}

/// `KdlDocument::new`: a document without nodes.
pub assume_specification[ KdlDocument::new ]() -> (r: KdlDocument)
    ensures
        document_nodes(r).len() == 0,
;

/// `KdlDocument::nodes`: the nodes of the document.
pub assume_specification[ KdlDocument::nodes ](doc: &KdlDocument) -> (r: &[KdlNode])
    ensures
        r@ == document_nodes(*doc),
;

/// `KdlDocument::nodes_mut`: the nodes of the document, to be changed in
/// place; the document then holds what the list holds.
pub assume_specification[ KdlDocument::nodes_mut ](doc: &mut KdlDocument) -> (r: &mut Vec<KdlNode>)
    ensures
        r@ == document_nodes(*old(doc)),
        document_nodes(*final(doc)) == final(r)@,
;

/// `KdlDocument::autoformat`: changes layout only; every node keeps its
/// tree.
pub assume_specification[ KdlDocument::autoformat ](doc: &mut KdlDocument)
    ensures
        document_tree(*final(doc)) == document_tree(*old(doc)),
;

/// `KdlDocument::ensure_v1`: changes how the document is spelled only;
/// every node keeps its tree.
pub assume_specification[ KdlDocument::ensure_v1 ](doc: &mut KdlDocument)
    ensures
        document_tree(*final(doc)) == document_tree(*old(doc)),
;

/// `KdlDocument::parse_v1`; its outcome is named `parsed_v1`.
pub assume_specification[ KdlDocument::parse_v1 ](s: &str) -> (r: Result<KdlDocument, KdlError>)
    ensures
        r == parsed_v1(s@),
;

/// `KdlNode::children`: the block of the node, if it has one.
pub assume_specification[ KdlNode::children ](node: &KdlNode) -> (r: Option<&KdlDocument>)
    ensures
        match r {
            Some(block) => node_tree(*node).children == Some(document_tree(*block)),
            None => node_tree(*node).children is None,
        },
;

/// `KdlNode::children_mut`: the block of the node, to be changed in place;
/// name and entries stay.
pub assume_specification[ KdlNode::children_mut ](node: &mut KdlNode) -> (r: &mut Option<
    KdlDocument,
>)
    ensures
        block_tree(*r) == node_tree(*old(node)).children,
        node_tree(*final(node)) == (NodeTree {
            children: block_tree(*final(r)),
            ..node_tree(*old(node))
        }),
;

/// `KdlNode::set_children`: gives the node this block; name and entries
/// stay.
pub assume_specification[ KdlNode::set_children ](node: &mut KdlNode, children: KdlDocument)
    ensures
        node_tree(*final(node)) == (NodeTree {
            children: Some(document_tree(children)),
            ..node_tree(*old(node))
        }),
;

/// `KdlNode::entries`: the entries of the node, in order.
pub assume_specification[ KdlNode::entries ](node: &KdlNode) -> (r: &[KdlEntry])
    ensures
        items(r@) == node_tree(*node).entries,
;

/// `KdlNode::clear`: removes every entry; name and block stay.
pub assume_specification[ KdlNode::clear ](node: &mut KdlNode)
    ensures
        node_tree(*final(node)) == (NodeTree {
            entries: Seq::<EntryItem>::empty(),
            ..node_tree(*old(node))
        }),
;

/// `KdlNode::autoformat`: changes layout only; the tree stays.
pub assume_specification[ KdlNode::autoformat ](node: &mut KdlNode)
    ensures
        node_tree(*final(node)) == node_tree(*old(node)),
;

/// `KdlEntry::value`: the value of the entry.
pub assume_specification[ KdlEntry::value ](entry: &KdlEntry) -> (r: &KdlValue)
    ensures
        value_scalar(*r) == entry_item(*entry).value,
;

/// `KdlValue::as_string`: the text, if the value is a string.
pub assume_specification[ KdlValue::as_string ](value: &KdlValue) -> (r: Option<&str>)
    ensures
        match r {
            Some(s) => value_scalar(*value) == Scalar::Text(s@),
            None => !(value_scalar(*value) is Text),
        },
;

/// `KdlValue::as_integer`: the number, if the value is an integer.
pub assume_specification[ KdlValue::as_integer ](value: &KdlValue) -> (r: Option<i128>)
    ensures
        match r {
            Some(i) => value_scalar(*value) == Scalar::Integer(i),
            None => !(value_scalar(*value) is Integer),
        },
;

/// `KdlValue::as_bool`: the boolean, if the value is one.
pub assume_specification[ KdlValue::as_bool ](value: &KdlValue) -> (r: Option<bool>)
    ensures
        match r {
            Some(b) => value_scalar(*value) == Scalar::Boolean(b),
            None => !(value_scalar(*value) is Boolean),
        },
;

/// `KdlNode::new`: a node with this name, without entries and without a
/// block.
#[verifier::external_body]
pub(crate) fn new_node(name: &str) -> (r: KdlNode)
    ensures
        node_tree(r) == (NodeTree {
            name: name@,
            entries: Seq::<EntryItem>::empty(),
            children: None,
        }),
{
    KdlNode::new(name)
}

/// `KdlNode::set_name`: gives the node this name; entries and block stay.
#[verifier::external_body]
pub(crate) fn rename(node: &mut KdlNode, name: &str)
    ensures
        node_tree(*final(node)) == (NodeTree { name: name@, ..node_tree(*old(node)) }),
{
    node.set_name(name)
}

/// `KdlNode::name` and `KdlIdentifier::value`: the name of the node.
#[verifier::external_body]
pub(crate) fn node_name(node: &KdlNode) -> (r: &str)
    ensures
        r@ == node_tree(*node).name,
{
    node.name().value()
}

/// `KdlEntry::name` and `KdlIdentifier::value`: the name of the entry, if
/// it is a property.
#[verifier::external_body]
pub(crate) fn entry_name(entry: &KdlEntry) -> (r: Option<&str>)
    ensures
        match r {
            Some(s) => entry_item(*entry).name == Some(s@),
            None => entry_item(*entry).name is None,
        },
{
    entry.name().map(|i| i.value())
}

/// `KdlNode::push`: appends the entry; name and block stay.
#[verifier::external_body]
pub(crate) fn push_entry(node: &mut KdlNode, entry: KdlEntry)
    ensures
        node_tree(*final(node)) == (NodeTree {
            entries: node_tree(*old(node)).entries.push(entry_item(entry)),
            ..node_tree(*old(node))
        }),
{
    node.push(entry)
}

/// `KdlEntry::new`: a positional argument with this value.
#[verifier::external_body]
pub(crate) fn argument_entry(value: KdlValue) -> (r: KdlEntry)
    ensures
        entry_item(r) == (EntryItem { name: None, value: value_scalar(value) }),
{
    KdlEntry::new(value)
}

/// `KdlEntry::new_prop`: a property with this name and value.
#[verifier::external_body]
pub(crate) fn property_entry(key: &str, value: KdlValue) -> (r: KdlEntry)
    ensures
        entry_item(r) == (EntryItem { name: Some(key@), value: value_scalar(value) }),
{
    KdlEntry::new_prop(key, value)
}

/// `KdlValue::String`: the value that holds this text.
#[verifier::external_body]
pub(crate) fn text_value(s: String) -> (r: KdlValue)
    ensures
        value_scalar(r) == Scalar::Text(s@),
{
    KdlValue::String(s)
}

/// `KdlValue::Integer`: the value that holds this number.
#[verifier::external_body]
pub(crate) fn integer_value(i: i128) -> (r: KdlValue)
    ensures
        value_scalar(r) == Scalar::Integer(i),
{
    KdlValue::Integer(i)
}

/// `KdlValue::Bool`: the value that holds this boolean.
#[verifier::external_body]
pub(crate) fn bool_value(b: bool) -> (r: KdlValue)
    ensures
        value_scalar(r) == Scalar::Boolean(b),
{
    KdlValue::Bool(b)
}

/// `KdlDocument`'s `to_string`; its result is named `rendered`.
#[verifier::external_body]
pub(crate) fn render(doc: &KdlDocument) -> (r: String)
    ensures
        r@ == rendered(*doc),
{
    doc.to_string()
}

/// `KdlError`'s `to_string`: one fixed sentence, whatever the error; the
/// details are in the error's diagnostics, which are not shown.
#[verifier::external_body]
pub(crate) fn describe(e: &KdlError) -> (r: String)
    ensures
        r@ == "Failed to parse KDL document"@,
{
    e.to_string()
}

} // verus!
