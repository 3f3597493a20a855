//! What holds of writing and reading the colour of a slot: a gradient that
//! was written is read back, and no solid colour is left beside it.

use vstd::prelude::*;
use crate::config::appearance_parser::{
    appearance_of, block_of, border_of, focus_ring_of, giving, gradient_of, layout_of,
    slot_color, wanted, Probe,
};
use crate::config::appearance_writer::{
    border_block, current_block, focus_ring_block, gradient_items, gradient_node, layout_block,
    set_slot, set_toggle, set_value, shadow_block, struts_block, value_node, with_appearance,
    with_block, without,
};
use crate::model::appearance::{AppearanceView, BorderView, ColorView, FocusRingView};
use crate::model::config::{named, property};
use crate::model::tree::{EntryItem, NodeTree, Scalar};
use crate::search::{
    first_where, last_where, lemma_first_where, lemma_first_where_is, lemma_last_where,
    lemma_last_where_is,
};

verus! {

/// No node of the block has this name.
pub open spec fn absent(children: Seq<NodeTree>, name: Seq<char>) -> bool {
    forall|j: int| 0 <= j < children.len() ==> (#[trigger] children[j]).name != name
}

/// The block holds the gradient `g` for a slot: it gives `g` under the
/// gradient's name, and has no node of the colour's name.
pub open spec fn holds_gradient(
    children: Seq<NodeTree>,
    color_name: Seq<char>,
    gradient_name: Seq<char>,
    g: ColorView,
) -> bool {
    &&& absent(children, color_name)
    &&& giving(children, gradient_name, Probe::Gradient) matches Some(n) && gradient_of(n) == Some(
        g,
    )
}

proof fn lemma_names_differ()
    ensures
        "from"@ != "to"@,
        "from"@ != "angle"@,
        "from"@ != "relative-to"@,
        "from"@ != "in"@,
        "to"@ != "angle"@,
        "to"@ != "relative-to"@,
        "to"@ != "in"@,
        "angle"@ != "relative-to"@,
        "angle"@ != "in"@,
        "relative-to"@ != "in"@,
{
    reveal_strlit("from");
    reveal_strlit("to");
    reveal_strlit("angle");
    reveal_strlit("relative-to");
    reveal_strlit("in");
    assert("from"@.len() == 4);
    assert("to"@.len() == 2);
    assert("angle"@.len() == 5);
    assert("relative-to"@.len() == 11);
    assert("in"@.len() == 2);
    assert("to"@[0] != "in"@[0]);
}

proof fn lemma_property_pushed(entries: Seq<EntryItem>, e: EntryItem, key: Seq<char>)
    ensures
        property(entries.push(e), key) == if e.name == Some(key) {
            Some(e.value)
        } else {
            property(entries, key)
        },
{
    assert(entries.push(e).drop_last() =~= entries);
}

/// The node that spells a gradient is read as that gradient.
pub proof fn lemma_gradient_node(name: Seq<char>, g: ColorView)
    requires
        g is Gradient,
    ensures
        gradient_of(gradient_node(name, g)) == Some(g),
{
    lemma_names_differ();
    let from = g->from;
    let to = g->to;
    let e0 = Seq::<EntryItem>::empty();
    let first = EntryItem { name: Some("from"@), value: Scalar::Text(from) };
    let second = EntryItem { name: Some("to"@), value: Scalar::Text(to) };
    let e1 = e0.push(first);
    let e2 = e1.push(second);
    let e3 = match g->angle {
        Some(a) => e2.push(EntryItem { name: Some("angle"@), value: Scalar::Integer(a as i128) }),
        None => e2,
    };
    let e4 = match g->relative_to {
        Some(r) => e3.push(EntryItem { name: Some("relative-to"@), value: Scalar::Text(r) }),
        None => e3,
    };
    let e5 = match g->color_space {
        Some(c) => e4.push(EntryItem { name: Some("in"@), value: Scalar::Text(c) }),
        None => e4,
    };
    assert(gradient_items(g) =~= e5);
    assert forall|key: Seq<char>| #[trigger] property(e0, key) is None by {}
    assert forall|key: Seq<char>| #[trigger]
        property(e1, key) == if key == "from"@ {
            Some(Scalar::Text(from))
        } else {
            None
        } by {
        lemma_property_pushed(e0, first, key);
    }
    assert forall|key: Seq<char>| #[trigger]
        property(e2, key) == if key == "to"@ {
            Some(Scalar::Text(to))
        } else {
            property(e1, key)
        } by {
        lemma_property_pushed(e1, second, key);
    }
    assert forall|key: Seq<char>| #[trigger]
        property(e3, key) == if key == "angle"@ && g->angle is Some {
            Some(Scalar::Integer(g->angle->0 as i128))
        } else {
            property(e2, key)
        } by {
        if g->angle is Some {
            lemma_property_pushed(
                e2,
                EntryItem { name: Some("angle"@), value: Scalar::Integer(g->angle->0 as i128) },
                key,
            );
        }
    }
    assert forall|key: Seq<char>| #[trigger]
        property(e4, key) == if key == "relative-to"@ && g->relative_to is Some {
            Some(Scalar::Text(g->relative_to->0))
        } else {
            property(e3, key)
        } by {
        if g->relative_to is Some {
            lemma_property_pushed(
                e3,
                EntryItem { name: Some("relative-to"@), value: Scalar::Text(g->relative_to->0) },
                key,
            );
        }
    }
    assert forall|key: Seq<char>| #[trigger]
        property(e5, key) == if key == "in"@ && g->color_space is Some {
            Some(Scalar::Text(g->color_space->0))
        } else {
            property(e4, key)
        } by {
        if g->color_space is Some {
            lemma_property_pushed(
                e4,
                EntryItem { name: Some("in"@), value: Scalar::Text(g->color_space->0) },
                key,
            );
        }
    }
    assert(property(e5, "from"@) == Some(Scalar::Text(from)));
    assert(property(e5, "to"@) == Some(Scalar::Text(to)));
    assert(property(e5, "angle"@) == match g->angle {
        Some(a) => Some(Scalar::Integer(a as i128)),
        None => None,
    });
    assert(property(e5, "relative-to"@) == match g->relative_to {
        Some(r) => Some(Scalar::Text(r)),
        None => None,
    });
    assert(property(e5, "in"@) == match g->color_space {
        Some(c) => Some(Scalar::Text(c)),
        None => None,
    });
}

proof fn lemma_without(children: Seq<NodeTree>, name: Seq<char>)
    ensures
        absent(without(children, name), name),
        forall|other: Seq<char>|
            absent(children, other) ==> #[trigger] absent(without(children, name), other),
        forall|p: spec_fn(NodeTree) -> bool|
            (forall|n: NodeTree| #[trigger] p(n) ==> n.name != name) ==> #[trigger] node_at(
                without(children, name),
                last_where(without(children, name), p),
            ) == node_at(children, last_where(children, p)),
    decreases children.len(),
{
    if children.len() > 0 {
        let rest = children.drop_last();
        lemma_without(rest, name);
        let kept = without(rest, name);
        let all = without(children, name);
        assert forall|other: Seq<char>| absent(children, other) implies #[trigger] absent(
            all,
            other,
        ) by {
            assert forall|j: int| 0 <= j < rest.len() implies (#[trigger] rest[j]).name != other by {
                assert(rest[j] == children[j]);
            }
            assert(absent(kept, other));
            assert forall|j: int| 0 <= j < all.len() implies (#[trigger] all[j]).name != other by {
                if j < kept.len() {
                    assert(all[j] == kept[j]);
                } else {
                    assert(all[j] == children[children.len() - 1]);
                }
            }
        }
        assert forall|j: int| 0 <= j < all.len() implies (#[trigger] all[j]).name != name by {
            if j < kept.len() {
                assert(all[j] == kept[j]);
            }
        }
        assert forall|p: spec_fn(NodeTree) -> bool|
            (forall|n: NodeTree| #[trigger] p(n) ==> n.name != name) implies #[trigger] node_at(
                all,
                last_where(all, p),
            ) == node_at(children, last_where(children, p)) by {
            assert(node_at(kept, last_where(kept, p)) == node_at(rest, last_where(rest, p)));
            lemma_last_where(rest, p);
            lemma_last_where(kept, p);
            if children.last().name == name {
                assert(!p(children.last()));
                match last_where(rest, p) {
                    Some(i) => {
                        assert(rest[i] == children[i]);
                    },
                    None => {},
                }
            } else {
                assert(all.drop_last() =~= kept);
                assert(all.last() == children.last());
                if p(children.last()) {
                } else {
                    match last_where(rest, p) {
                        Some(i) => {
                            assert(rest[i] == children[i]);
                        },
                        None => {},
                    }
                    match last_where(kept, p) {
                        Some(i) => {
                            assert(kept[i] == all[i]);
                        },
                        None => {},
                    }
                }
            }
        }
    }
}

/// The node at an index, if there is an index.
pub open spec fn node_at(children: Seq<NodeTree>, at: Option<int>) -> Option<NodeTree> {
    match at {
        Some(i) => Some(children[i]),
        None => None,
    }
}

proof fn lemma_pushed(children: Seq<NodeTree>, n: NodeTree, p: spec_fn(NodeTree) -> bool)
    ensures
        node_at(children.push(n), last_where(children.push(n), p)) == if p(n) {
            Some(n)
        } else {
            node_at(children, last_where(children, p))
        },
{
    let all = children.push(n);
    assert(all.drop_last() =~= children);
    lemma_last_where(children, p);
    match last_where(children, p) {
        Some(i) => {
            assert(all[i] == children[i]);
        },
        None => {},
    }
}

proof fn lemma_set_value(
    children: Seq<NodeTree>,
    name: Seq<char>,
    value: Scalar,
    p: spec_fn(NodeTree) -> bool,
)
    requires
        forall|n: NodeTree| #[trigger] p(n) ==> n.name != name,
    ensures
        node_at(set_value(children, name, value), last_where(set_value(children, name, value), p))
            == node_at(children, last_where(children, p)),
        forall|other: Seq<char>|
            other != name && absent(children, other) ==> #[trigger] absent(
                set_value(children, name, value),
                other,
            ),
{
    let after = set_value(children, name, value);
    lemma_last_where(children, named(name));
    lemma_last_where(children, p);
    match last_where(children, named(name)) {
        Some(i) => {
            assert(after.len() == children.len());
            assert(after[i].name == name);
            match last_where(children, p) {
                Some(k) => {
                    assert(k != i);
                    assert(after[k] == children[k]);
                    assert forall|j: int| k < j < after.len() implies !p(after[j]) by {
                        if j != i {
                            assert(after[j] == children[j]);
                        }
                    }
                    lemma_last_where_is(after, p, k + 1);
                },
                None => {
                    assert forall|j: int| 0 <= j < after.len() implies !p(after[j]) by {
                        if j != i {
                            assert(after[j] == children[j]);
                        }
                    }
                    lemma_last_where_is(after, p, 0);
                },
            }
            assert forall|other: Seq<char>| other != name && absent(children, other) implies #[trigger] absent(
                after,
                other,
            ) by {
                assert forall|j: int| 0 <= j < after.len() implies (#[trigger] after[j]).name
                    != other by {
                    if j != i {
                        assert(after[j] == children[j]);
                    }
                }
            }
        },
        None => {
            lemma_pushed(children, value_node(name, value), p);
            assert forall|other: Seq<char>| other != name && absent(children, other) implies #[trigger] absent(
                after,
                other,
            ) by {
                assert forall|j: int| 0 <= j < after.len() implies (#[trigger] after[j]).name
                    != other by {
                    if j < children.len() {
                        assert(after[j] == children[j]);
                    }
                }
            }
        },
    }
}

proof fn lemma_absent_pushed(children: Seq<NodeTree>, n: NodeTree, other: Seq<char>)
    requires
        absent(children, other),
        n.name != other,
    ensures
        absent(children.push(n), other),
{
    let after = children.push(n);
    assert forall|j: int| 0 <= j < after.len() implies (#[trigger] after[j]).name != other by {
        if j < children.len() {
            assert(after[j] == children[j]);
        }
    }
}

/// Writing a gradient into a slot leaves the block holding that gradient
/// for the slot: it is read back, and no node of the colour's name is left.
pub proof fn lemma_slot_written(
    children: Seq<NodeTree>,
    color_name: Seq<char>,
    gradient_name: Seq<char>,
    g: ColorView,
)
    requires
        g is Gradient,
        color_name != gradient_name,
    ensures
        holds_gradient(set_slot(children, color_name, gradient_name, g), color_name, gradient_name, g),
{
    let a = without(children, color_name);
    let b = without(a, gradient_name);
    let node = gradient_node(gradient_name, g);
    let after = b.push(node);
    assert(set_slot(children, color_name, gradient_name, g) == after);
    lemma_without(children, color_name);
    lemma_without(a, gradient_name);
    assert(absent(b, color_name));
    lemma_absent_pushed(b, node, color_name);
    lemma_gradient_node(gradient_name, g);
    lemma_pushed(b, node, wanted(gradient_name, Probe::Gradient));
}

/// A slot that holds a gradient reads as that gradient, whatever the
/// default.
pub proof fn lemma_gradient_read(
    children: Seq<NodeTree>,
    color_name: Seq<char>,
    gradient_name: Seq<char>,
    g: ColorView,
    default: ColorView,
)
    requires
        holds_gradient(children, color_name, gradient_name, g),
    ensures
        slot_color(children, color_name, gradient_name, default) == g,
{
}

/// Writing the colour of another slot does not touch a slot that holds a
/// gradient.
pub proof fn lemma_other_slot_written(
    children: Seq<NodeTree>,
    color_name: Seq<char>,
    gradient_name: Seq<char>,
    g: ColorView,
    other_color: Seq<char>,
    other_gradient: Seq<char>,
    c: ColorView,
)
    requires
        holds_gradient(children, color_name, gradient_name, g),
        other_color != color_name,
        other_color != gradient_name,
        other_gradient != color_name,
        other_gradient != gradient_name,
    ensures
        holds_gradient(
            set_slot(children, other_color, other_gradient, c),
            color_name,
            gradient_name,
            g,
        ),
{
    let p = wanted(gradient_name, Probe::Gradient);
    match c {
        ColorView::Solid(t) => {
            let a = set_value(children, other_color, Scalar::Text(t));
            lemma_set_value(children, other_color, Scalar::Text(t), p);
            lemma_without(a, other_gradient);
            assert(absent(a, color_name));
            assert(node_at(without(a, other_gradient), last_where(without(a, other_gradient), p))
                == node_at(a, last_where(a, p)));
        },
        ColorView::Gradient { .. } => {
            let a = without(children, other_color);
            lemma_without(children, other_color);
            let b = without(a, other_gradient);
            lemma_without(a, other_gradient);
            let node = gradient_node(other_gradient, c);
            assert(node_at(a, last_where(a, p)) == node_at(children, last_where(children, p)));
            assert(node_at(b, last_where(b, p)) == node_at(a, last_where(a, p)));
            lemma_pushed(b, node, p);
            assert(absent(a, color_name));
            assert(absent(b, color_name));
            lemma_absent_pushed(b, node, color_name);
        },
    }
}

proof fn lemma_slot_names()
    ensures
        "active-color"@ != "active-gradient"@,
        "inactive-color"@ != "inactive-gradient"@,
        "urgent-color"@ != "urgent-gradient"@,
        "inactive-color"@ != "active-color"@,
        "inactive-color"@ != "active-gradient"@,
        "inactive-gradient"@ != "active-color"@,
        "inactive-gradient"@ != "active-gradient"@,
        "urgent-color"@ != "active-color"@,
        "urgent-color"@ != "active-gradient"@,
        "urgent-gradient"@ != "active-color"@,
        "urgent-gradient"@ != "active-gradient"@,
        "urgent-color"@ != "inactive-color"@,
        "urgent-color"@ != "inactive-gradient"@,
        "urgent-gradient"@ != "inactive-color"@,
        "urgent-gradient"@ != "inactive-gradient"@,
{
    reveal_strlit("active-color");
    reveal_strlit("active-gradient");
    reveal_strlit("inactive-color");
    reveal_strlit("inactive-gradient");
    reveal_strlit("urgent-color");
    reveal_strlit("urgent-gradient");
    assert("active-color"@.len() == 12);
    assert("active-gradient"@.len() == 15);
    assert("inactive-color"@.len() == 14);
    assert("inactive-gradient"@.len() == 17);
    assert("urgent-color"@.len() == 12);
    assert("urgent-gradient"@.len() == 15);
    assert("urgent-color"@[0] != "active-color"@[0]);
    assert("urgent-gradient"@[0] != "active-gradient"@[0]);
}

/// Writing a gradient as the active colour of the focus ring, whatever the
/// slot held before, and reading the block back yields that gradient; the
/// block then holds no `active-color` node. The same holds of the inactive
/// colour.
pub proof fn lemma_focus_ring_gradient(children: Seq<NodeTree>, s: FocusRingView)
    ensures
        s.active_color is Gradient ==> focus_ring_of(focus_ring_block(children, s)).active_color
            == s.active_color && absent(focus_ring_block(children, s), "active-color"@),
        s.inactive_color is Gradient ==> focus_ring_of(
            focus_ring_block(children, s),
        ).inactive_color == s.inactive_color && absent(
            focus_ring_block(children, s),
            "inactive-color"@,
        ),
{
    lemma_slot_names();
    let a = set_toggle(children, "off"@, s.off);
    let b = set_value(a, "width"@, Scalar::Integer(s.width as i128));
    let c = set_slot(b, "active-color"@, "active-gradient"@, s.active_color);
    let d = set_slot(c, "inactive-color"@, "inactive-gradient"@, s.inactive_color);
    assert(focus_ring_block(children, s) == d);
    if s.active_color is Gradient {
        lemma_slot_written(b, "active-color"@, "active-gradient"@, s.active_color);
        lemma_other_slot_written(
            c,
            "active-color"@,
            "active-gradient"@,
            s.active_color,
            "inactive-color"@,
            "inactive-gradient"@,
            s.inactive_color,
        );
    }
    if s.inactive_color is Gradient {
        lemma_slot_written(c, "inactive-color"@, "inactive-gradient"@, s.inactive_color);
    }
}

/// Writing a gradient as the active, the inactive or the urgent colour of
/// the border and reading the block back yields that gradient; the block
/// then holds no solid-colour node for that slot.
pub proof fn lemma_border_gradient(children: Seq<NodeTree>, s: BorderView)
    ensures
        s.active_color is Gradient ==> border_of(border_block(children, s)).active_color
            == s.active_color && absent(border_block(children, s), "active-color"@),
        s.inactive_color is Gradient ==> border_of(border_block(children, s)).inactive_color
            == s.inactive_color && absent(border_block(children, s), "inactive-color"@),
        s.urgent_color is Some && s.urgent_color->0 is Gradient ==> border_of(
            border_block(children, s),
        ).urgent_color == s.urgent_color && absent(border_block(children, s), "urgent-color"@),
{
    lemma_slot_names();
    let a = if s.off {
        without(set_toggle(children, "off"@, true), "on"@)
    } else {
        without(set_toggle(children, "on"@, true), "off"@)
    };
    let b = set_value(a, "width"@, Scalar::Integer(s.width as i128));
    let c = set_slot(b, "active-color"@, "active-gradient"@, s.active_color);
    let d = set_slot(c, "inactive-color"@, "inactive-gradient"@, s.inactive_color);
    let e = border_block(children, s);
    let pa = wanted("active-gradient"@, Probe::Gradient);
    let pi = wanted("inactive-gradient"@, Probe::Gradient);
    match s.urgent_color {
        Some(u) => {
            assert(e == set_slot(d, "urgent-color"@, "urgent-gradient"@, u));
            if s.active_color is Gradient {
                lemma_slot_written(b, "active-color"@, "active-gradient"@, s.active_color);
                lemma_other_slot_written(
                    c,
                    "active-color"@,
                    "active-gradient"@,
                    s.active_color,
                    "inactive-color"@,
                    "inactive-gradient"@,
                    s.inactive_color,
                );
                lemma_other_slot_written(
                    d,
                    "active-color"@,
                    "active-gradient"@,
                    s.active_color,
                    "urgent-color"@,
                    "urgent-gradient"@,
                    u,
                );
            }
            if s.inactive_color is Gradient {
                lemma_slot_written(c, "inactive-color"@, "inactive-gradient"@, s.inactive_color);
                lemma_other_slot_written(
                    d,
                    "inactive-color"@,
                    "inactive-gradient"@,
                    s.inactive_color,
                    "urgent-color"@,
                    "urgent-gradient"@,
                    u,
                );
            }
            if u is Gradient {
                lemma_slot_written(d, "urgent-color"@, "urgent-gradient"@, u);
            }
        },
        None => {
            let f = without(d, "urgent-color"@);
            assert(e == without(f, "urgent-gradient"@));
            lemma_without(d, "urgent-color"@);
            lemma_without(f, "urgent-gradient"@);
            if s.active_color is Gradient {
                lemma_slot_written(b, "active-color"@, "active-gradient"@, s.active_color);
                lemma_other_slot_written(
                    c,
                    "active-color"@,
                    "active-gradient"@,
                    s.active_color,
                    "inactive-color"@,
                    "inactive-gradient"@,
                    s.inactive_color,
                );
                assert(node_at(f, last_where(f, pa)) == node_at(d, last_where(d, pa)));
                assert(node_at(e, last_where(e, pa)) == node_at(f, last_where(f, pa)));
                assert(absent(f, "active-color"@));
                assert(absent(e, "active-color"@));
            }
            if s.inactive_color is Gradient {
                lemma_slot_written(c, "inactive-color"@, "inactive-gradient"@, s.inactive_color);
                assert(node_at(f, last_where(f, pi)) == node_at(d, last_where(d, pi)));
                assert(node_at(e, last_where(e, pi)) == node_at(f, last_where(f, pi)));
                assert(absent(f, "inactive-color"@));
                assert(absent(e, "inactive-color"@));
            }
        },
    }
}

/// The nodes of the block from which the settings are read: those of the
/// first top-level node called `layout`.
pub open spec fn layout_children(nodes: Seq<NodeTree>) -> Seq<NodeTree> {
    match first_where(nodes, named("layout"@)) {
        Some(i) => block_of(nodes[i]),
        None => Seq::empty(),
    }
}

/// The nodes of the block from which a section is read: those of the last
/// node of the section's name in the `layout` block.
pub open spec fn section_block(nodes: Seq<NodeTree>, section: Seq<char>) -> Seq<NodeTree> {
    match giving(layout_children(nodes), section, Probe::Any) {
        Some(n) => block_of(n),
        None => Seq::empty(),
    }
}

proof fn lemma_section_written(children: Seq<NodeTree>, name: Seq<char>, block: Seq<NodeTree>)
    ensures
        giving(with_block(children, name, block, true), name, Probe::Any) is Some,
        block_of(giving(with_block(children, name, block, true), name, Probe::Any)->0) == block,
{
    let after = with_block(children, name, block, true);
    let p = wanted(name, Probe::Any);
    lemma_last_where(children, named(name));
    match last_where(children, named(name)) {
        Some(i) => {
            assert forall|j: int| i < j < after.len() implies !p(after[j]) by {
                assert(after[j] == children[j]);
            }
            lemma_last_where_is(after, p, i + 1);
        },
        None => {
            lemma_last_where_is(after, p, after.len() as int);
        },
    }
}

proof fn lemma_other_section_written(
    children: Seq<NodeTree>,
    name: Seq<char>,
    other: Seq<char>,
    block: Seq<NodeTree>,
)
    requires
        name != other,
    ensures
        giving(with_block(children, other, block, true), name, Probe::Any) == giving(
            children,
            name,
            Probe::Any,
        ),
{
    let after = with_block(children, other, block, true);
    let p = wanted(name, Probe::Any);
    lemma_last_where(children, named(other));
    lemma_last_where(children, p);
    match last_where(children, named(other)) {
        Some(i) => {
            match last_where(children, p) {
                Some(k) => {
                    assert(after[k] == children[k]);
                    assert forall|j: int| k < j < after.len() implies !p(after[j]) by {
                        if j != i {
                            assert(after[j] == children[j]);
                        }
                    }
                    lemma_last_where_is(after, p, k + 1);
                },
                None => {
                    assert forall|j: int| 0 <= j < after.len() implies !p(after[j]) by {
                        if j != i {
                            assert(after[j] == children[j]);
                        }
                    }
                    lemma_last_where_is(after, p, 0);
                },
            }
        },
        None => {
            lemma_pushed(
                children,
                NodeTree { name: other, entries: Seq::empty(), children: Some(block) },
                p,
            );
        },
    }
}

proof fn lemma_layout_written(nodes: Seq<NodeTree>, block: Seq<NodeTree>)
    ensures
        layout_children(with_block(nodes, "layout"@, block, false)) == block,
{
    let after = with_block(nodes, "layout"@, block, false);
    let p = named("layout"@);
    lemma_first_where(nodes, p);
    match first_where(nodes, p) {
        Some(i) => {
            assert forall|j: int| 0 <= j < i implies !p(after[j]) by {
                assert(after[j] == nodes[j]);
            }
            lemma_first_where_is(after, p, i);
        },
        None => {
            assert forall|j: int| 0 <= j < nodes.len() implies !p(after[j]) by {
                assert(after[j] == nodes[j]);
            }
            lemma_first_where_is(after, p, nodes.len() as int);
        },
    }
}

proof fn lemma_section_names()
    ensures
        "focus-ring"@ != "border"@,
        "focus-ring"@ != "shadow"@,
        "focus-ring"@ != "struts"@,
        "border"@ != "shadow"@,
        "border"@ != "struts"@,
        "shadow"@ != "struts"@,
{
    reveal_strlit("focus-ring");
    reveal_strlit("border");
    reveal_strlit("shadow");
    reveal_strlit("struts");
    assert("focus-ring"@.len() == 10);
    assert("border"@.len() == 6);
    assert("shadow"@.len() == 6);
    assert("struts"@.len() == 6);
    assert("border"@[0] != "shadow"@[0]);
    assert("border"@[0] != "struts"@[0]);
    assert("shadow"@[1] != "struts"@[1]);
}

/// The blocks of the focus ring and of the border are read back as they
/// were written: the block from which a section is read after a write is
/// the block that the write made of the section's former block.
pub proof fn lemma_sections_read_back(nodes: Seq<NodeTree>, s: AppearanceView)
    ensures
        exists|former: Seq<NodeTree>| #[trigger]
            focus_ring_block(former, s.focus_ring) == section_block(
                with_appearance(nodes, s),
                "focus-ring"@,
            ),
        exists|former: Seq<NodeTree>| #[trigger]
            border_block(former, s.border) == section_block(with_appearance(nodes, s), "border"@),
        giving(layout_children(with_appearance(nodes, s)), "focus-ring"@, Probe::Any) is Some,
        giving(layout_children(with_appearance(nodes, s)), "border"@, Probe::Any) is Some,
{
    lemma_section_names();
    let outer = current_block(nodes, "layout"@, false);
    let a = set_value(outer, "gaps"@, Scalar::Integer(s.gaps as i128));
    let b = set_value(a, "center-focused-column"@, Scalar::Text(s.center_focused_column.keyword()));
    let ring = focus_ring_block(current_block(b, "focus-ring"@, true), s.focus_ring);
    let c = with_block(b, "focus-ring"@, ring, true);
    let border = border_block(current_block(c, "border"@, true), s.border);
    let d = with_block(c, "border"@, border, true);
    let shadow = shadow_block(current_block(d, "shadow"@, true), s.shadow);
    let e = with_block(d, "shadow"@, shadow, true);
    let struts = struts_block(current_block(e, "struts"@, true), s.struts);
    let f = with_block(e, "struts"@, struts, true);
    assert(layout_block(outer, s) == f);
    lemma_layout_written(nodes, f);
    lemma_section_written(b, "focus-ring"@, ring);
    lemma_other_section_written(c, "focus-ring"@, "border"@, border);
    lemma_other_section_written(d, "focus-ring"@, "shadow"@, shadow);
    lemma_other_section_written(e, "focus-ring"@, "struts"@, struts);
    lemma_section_written(c, "border"@, border);
    lemma_other_section_written(d, "border"@, "shadow"@, shadow);
    lemma_other_section_written(e, "border"@, "struts"@, struts);
    assert(focus_ring_block(current_block(b, "focus-ring"@, true), s.focus_ring) == section_block(
        with_appearance(nodes, s),
        "focus-ring"@,
    ));
    assert(border_block(current_block(c, "border"@, true), s.border) == section_block(
        with_appearance(nodes, s),
        "border"@,
    ));
}

/// Writing a gradient to a slot of the focus ring or of the border,
/// whatever the slot held before, and reading the document back yields
/// that gradient; and the block of the section then holds no solid-colour
/// node for that slot.
pub proof fn lemma_gradient_written_is_read(nodes: Seq<NodeTree>, s: AppearanceView)
    ensures
        s.focus_ring.active_color is Gradient ==> appearance_of(
            with_appearance(nodes, s),
        ).focus_ring.active_color == s.focus_ring.active_color && absent(
            section_block(with_appearance(nodes, s), "focus-ring"@),
            "active-color"@,
        ),
        s.focus_ring.inactive_color is Gradient ==> appearance_of(
            with_appearance(nodes, s),
        ).focus_ring.inactive_color == s.focus_ring.inactive_color && absent(
            section_block(with_appearance(nodes, s), "focus-ring"@),
            "inactive-color"@,
        ),
        s.border.active_color is Gradient ==> appearance_of(
            with_appearance(nodes, s),
        ).border.active_color == s.border.active_color && absent(
            section_block(with_appearance(nodes, s), "border"@),
            "active-color"@,
        ),
        s.border.inactive_color is Gradient ==> appearance_of(
            with_appearance(nodes, s),
        ).border.inactive_color == s.border.inactive_color && absent(
            section_block(with_appearance(nodes, s), "border"@),
            "inactive-color"@,
        ),
        s.border.urgent_color is Some && s.border.urgent_color->0 is Gradient ==> appearance_of(
            with_appearance(nodes, s),
        ).border.urgent_color == s.border.urgent_color && absent(
            section_block(with_appearance(nodes, s), "border"@),
            "urgent-color"@,
        ),
{
    let after = with_appearance(nodes, s);
    lemma_sections_read_back(nodes, s);
    let ring = choose|former: Seq<NodeTree>| #[trigger]
        focus_ring_block(former, s.focus_ring) == section_block(after, "focus-ring"@);
    let border = choose|former: Seq<NodeTree>| #[trigger]
        border_block(former, s.border) == section_block(after, "border"@);
    lemma_focus_ring_gradient(ring, s.focus_ring);
    lemma_border_gradient(border, s.border);
    let outer = current_block(nodes, "layout"@, false);
    lemma_layout_written(nodes, layout_block(outer, s));
    let children = layout_children(after);
    lemma_first_where(after, named("layout"@));
    assert(appearance_of(after) == layout_of(children));
}

} // verus!
