//! The list of key bindings with its overlay of pending changes, and the
//! effective list that results from them.
//!
//! Changes name positions in the list as it was loaded. The effective list
//! is resolved through the set of deleted positions and the map of replaced
//! ones, so that the order in which deletions were declared does not matter.

use vstd::prelude::*;
use std::collections::HashMap;
use std::collections::HashSet;
use crate::error::ConfigError;
use crate::model::keybinding_edit::EditMode;
use crate::model::keybindings::{
    binding_views, change_views, ChangeView, Keybinding, KeybindingChange, KeybindingView,
};
use crate::text::{lowercase_of, text_eq, to_lowercase};

verus! {

broadcast use vstd::std_specs::hash::group_hash_axioms;

/// How an entry of the effective list relates to the loaded list.
#[derive(Debug, Clone, Copy, PartialEq, Eq, Structural)]
pub enum BindingStatus {
    Unchanged,
    Modified,
    Added,
}

/// A binding as it would be saved, with where it came from.
#[derive(Debug, PartialEq, Eq)]
pub struct EffectiveBinding {
    pub binding: Keybinding,
    /// The position in the loaded list; absent for an added binding.
    pub original_index: Option<usize>,
    pub status: BindingStatus,
}

/// What an `EffectiveBinding` holds.
pub struct EffectiveView {
    pub binding: KeybindingView,
    pub original_index: Option<usize>,
    pub status: BindingStatus,
}

impl View for EffectiveBinding {
    type V = EffectiveView;

    open spec fn view(&self) -> EffectiveView {
        EffectiveView {
            binding: self.binding@,
            original_index: self.original_index,
            status: self.status,
        }
    }
}

impl Clone for EffectiveBinding {
    fn clone(&self) -> (r: Self)
        ensures
            r@ == self@,
    {
        EffectiveBinding {
            binding: self.binding.clone(),
            original_index: self.original_index,
            status: self.status,
        }
    }
}

/// The views of a sequence of effective bindings.
pub open spec fn effective_views(v: Seq<EffectiveBinding>) -> Seq<EffectiveView> {
    v.map_values(|e: EffectiveBinding| e@)
}

/// Whether some change deletes position `index`.
pub open spec fn is_deleted(changes: Seq<ChangeView>, index: int) -> bool
    decreases changes.len(),
{
    changes.len() > 0 && (changes.last() == ChangeView::Delete(index as usize) && 0 <= index
        <= usize::MAX || is_deleted(changes.drop_last(), index))
}

/// The binding that replaces position `index`: that of the last change that
/// modifies it.
pub open spec fn replacement(changes: Seq<ChangeView>, index: int) -> Option<KeybindingView>
    decreases changes.len(),
{
    if changes.len() == 0 {
        None
    } else {
        match changes.last() {
            ChangeView::Modify { index: i, new } => if i == index {
                Some(new)
            } else {
                replacement(changes.drop_last(), index)
            },
            _ => replacement(changes.drop_last(), index),
        }
    }
}

/// What position `index` of the loaded list shows, if it is not deleted.
pub open spec fn survivor(base: Seq<KeybindingView>, changes: Seq<ChangeView>, index: int)
    -> EffectiveView {
    match replacement(changes, index) {
        Some(new) => EffectiveView {
            binding: new,
            original_index: Some(index as usize),
            status: BindingStatus::Modified,
        },
        None => EffectiveView {
            binding: base[index],
            original_index: Some(index as usize),
            status: BindingStatus::Unchanged,
        },
    }
}

/// What the first `k` positions of the loaded list show: in order, without
/// the deleted ones.
pub open spec fn survivors(base: Seq<KeybindingView>, changes: Seq<ChangeView>, k: int) -> Seq<
    EffectiveView,
>
    decreases k,
{
    if k <= 0 || k > base.len() {
        Seq::empty()
    } else if is_deleted(changes, k - 1) {
        survivors(base, changes, k - 1)
    } else {
        survivors(base, changes, k - 1).push(survivor(base, changes, k - 1))
    }
}

/// The added bindings, in the order in which they were added.
pub open spec fn additions(changes: Seq<ChangeView>) -> Seq<EffectiveView>
    decreases changes.len(),
{
    if changes.len() == 0 {
        Seq::empty()
    } else {
        match changes.last() {
            ChangeView::Add(b) => additions(changes.drop_last()).push(
                EffectiveView { binding: b, original_index: None, status: BindingStatus::Added },
            ),
            _ => additions(changes.drop_last()),
        }
    }
}

/// The effective list: the loaded list without the deleted positions and
/// with the replaced ones substituted, then every added binding.
pub open spec fn effective(base: Seq<KeybindingView>, changes: Seq<ChangeView>) -> Seq<
    EffectiveView,
> {
    survivors(base, changes, base.len() as int) + additions(changes)
}

/// The entries of a list that match a search query; all of them where the
/// query is empty.
pub open spec fn filtered(list: Seq<EffectiveView>, query: Seq<char>) -> Seq<EffectiveView> {
    if query.len() == 0 {
        list
    } else {
        list.filter(|e: EffectiveView| e.binding.matches(query))
    }
}

/// What a change list says of the positions of the loaded list: the set of
/// those that it deletes, and the map from those that it replaces to the
/// binding of the last change that replaces them.
pub open spec fn resolved(
    changes: Seq<ChangeView>,
    deleted: Set<usize>,
    modified: Map<usize, &Keybinding>,
) -> bool {
    &&& forall|j: usize| #[trigger] deleted.contains(j) <==> is_deleted(changes, j as int)
    &&& forall|j: usize|
        #![trigger modified.dom().contains(j)]
        match replacement(changes, j as int) {
            Some(b) => modified.dom().contains(j) && modified[j]@ == b,
            None => !modified.dom().contains(j),
        }
}

/// Goes through a change list once and builds the set of deleted positions
/// and the map of replaced positions; a later replacement of a position
/// overwrites an earlier one.
pub fn resolve<'a>(changes: &'a [KeybindingChange]) -> (r: (
    HashSet<usize>,
    HashMap<usize, &'a Keybinding>,
))
    ensures
        resolved(change_views(changes@), r.0@, r.1@),
{
    let ghost cv = change_views(changes@);
    let mut deleted: HashSet<usize> = HashSet::new();
    let mut modified: HashMap<usize, &'a Keybinding> = HashMap::new();
    let m = changes.len();
    let mut c: usize = 0;
    assert(cv.take(0).len() == 0);
    while c < m
        invariant
            c <= m,
            m == changes@.len(),
            cv == change_views(changes@),
            resolved(cv.take(c as int), deleted@, modified@),
        decreases m - c,
    {
        proof {
            assert(cv.take(c as int + 1).drop_last() =~= cv.take(c as int));
            assert(cv.take(c as int + 1).last() == cv[c as int]);
            assert(cv[c as int] == changes@[c as int]@);
        }
        let ghost before = cv.take(c as int);
        let ghost now = cv.take(c as int + 1);
        let ghost was_deleted = deleted@;
        let ghost was_modified = modified@;
        match &changes[c] {
            KeybindingChange::Delete(index) => {
                deleted.insert(*index);
            },
            KeybindingChange::Modify { index, new } => {
                modified.insert(*index, new);
            },
            KeybindingChange::Add(_) => {},
        }
        proof {
            assert forall|j: usize| #[trigger]
                deleted@.contains(j) <==> is_deleted(now, j as int) by {
                assert(was_deleted.contains(j) <==> is_deleted(before, j as int));
            }
            assert forall|j: usize|
                #![trigger modified@.dom().contains(j)]
                match replacement(now, j as int) {
                    Some(b) => modified@.dom().contains(j) && modified@[j]@ == b,
                    None => !modified@.dom().contains(j),
                } by {
                assert(was_modified.dom().contains(j) || !was_modified.dom().contains(j));
            }
        }
        c += 1;
    }
    assert(cv.take(m as int) =~= cv);
    (deleted, modified)
}

/// The key bindings with their pending changes.
#[derive(Debug)]
pub struct KeybindingsViewModel {
    /// The bindings as they were loaded.
    pub bindings: Vec<Keybinding>,
    pub selected_index: usize,
    pub scroll_offset: usize,
    pub search_query: String,
    /// The changes that are pending, in the order in which they were made.
    pub pending_changes: Vec<KeybindingChange>,
    pub search_mode: bool,
    pub edit_mode: Option<EditMode>,
}

impl Default for KeybindingsViewModel {
    fn default() -> (r: Self)
        ensures
            r.bindings@.len() == 0,
            r.selected_index == 0,
            r.scroll_offset == 0,
            r.search_query@.len() == 0,
            r.pending_changes@.len() == 0,
            !r.search_mode,
            r.edit_mode is None,
    {
        KeybindingsViewModel {
            bindings: Vec::new(),
            selected_index: 0,
            scroll_offset: 0,
            search_query: String::new(),
            pending_changes: Vec::new(),
            search_mode: false,
            edit_mode: None,
        }
    }
}

/// The scroll offset that keeps `selected` within a window of `height`
/// lines that began at `offset`.
pub open spec fn scrolled(selected: usize, offset: usize, height: usize) -> int {
    if height == 0 {
        offset as int
    } else if selected < offset {
        selected as int
    } else if selected >= offset + height {
        selected - height + 1
    } else {
        offset as int
    }
}

/// The scroll offset that keeps the selection in view.
pub fn scroll_to(selected: usize, offset: usize, height: usize) -> (r: usize)
    ensures
        r == scrolled(selected, offset, height),
{
    if height == 0 {
        offset
    } else if selected < offset {
        selected
    } else if selected - offset >= height {
        selected - height + 1
    } else {
        offset
    }
}

impl KeybindingsViewModel {
    /// The effective list of this model.
    pub open spec fn effective(self) -> Seq<EffectiveView> {
        effective(binding_views(self.bindings@), change_views(self.pending_changes@))
    }

    /// The effective entries that the search query lets through.
    pub open spec fn visible(self) -> Seq<EffectiveView> {
        filtered(self.effective(), self.search_query@)
    }

    /// The bindings as they would be saved: base with the overlay applied.
    /// Deleted positions are left out, whatever the order in which they were
    /// deleted; where several changes replace one position, the last one
    /// shows; added bindings follow at the end.
    pub fn effective_bindings(&self) -> (r: Vec<EffectiveBinding>)
        ensures
            effective_views(r@) == self.effective(),
    {
        let n = self.bindings.len();
        let ghost bv = binding_views(self.bindings@);
        let ghost cv = change_views(self.pending_changes@);
        let m = self.pending_changes.len();
        let (deleted, modified) = resolve(self.pending_changes.as_slice());
        let mut result: Vec<EffectiveBinding> = Vec::new();
        let mut idx: usize = 0;
        while idx < n
            invariant
                idx <= n,
                n == self.bindings@.len(),
                m == self.pending_changes@.len(),
                bv == binding_views(self.bindings@),
                cv == change_views(self.pending_changes@),
                resolved(cv, deleted@, modified@),
                effective_views(result@) == survivors(bv, cv, idx as int),
            decreases n - idx,
        {
            assert(deleted@.contains(idx) <==> is_deleted(cv, idx as int));
            assert(modified@.dom().contains(idx) || !modified@.dom().contains(idx));
            if !deleted.contains(&idx) {
                let ghost before = effective_views(result@);
                let entry = match modified.get(&idx) {
                    Some(new) => EffectiveBinding {
                        binding: (*new).clone(),
                        original_index: Some(idx),
                        status: BindingStatus::Modified,
                    },
                    None => EffectiveBinding {
                        binding: self.bindings[idx].clone(),
                        original_index: Some(idx),
                        status: BindingStatus::Unchanged,
                    },
                };
                assert(bv[idx as int] == self.bindings@[idx as int]@);
                assert(entry@ == survivor(bv, cv, idx as int));
                result.push(entry);
                assert(effective_views(result@) =~= before.push(survivor(bv, cv, idx as int)));
            }
            idx += 1;
        }
        let mut c: usize = 0;
        assert(cv.take(0).len() == 0);
        assert(effective_views(result@) =~= survivors(bv, cv, n as int) + additions(cv.take(0)));
        while c < m
            invariant
                c <= m,
                m == self.pending_changes@.len(),
                n == self.bindings@.len(),
                cv == change_views(self.pending_changes@),
                effective_views(result@) == survivors(bv, cv, n as int) + additions(
                    cv.take(c as int),
                ),
            decreases m - c,
        {
            proof {
                assert(cv.take(c as int + 1).drop_last() =~= cv.take(c as int));
                assert(cv.take(c as int + 1).last() == cv[c as int]);
                assert(cv[c as int] == self.pending_changes@[c as int]@);
            }
            match &self.pending_changes[c] {
                KeybindingChange::Add(binding) => {
                    let ghost before = effective_views(result@);
                    let entry = EffectiveBinding {
                        binding: binding.clone(),
                        original_index: None,
                        status: BindingStatus::Added,
                    };
                    result.push(entry);
                    assert(effective_views(result@) =~= before.push(entry@));
                    assert(effective_views(result@) =~= survivors(bv, cv, n as int) + additions(
                        cv.take(c as int + 1),
                    ));
                },
                _ => {},
            }
            c += 1;
        }
        assert(cv.take(m as int) =~= cv);
        result
    }

    /// The effective bindings that match the search query, case ignored;
    /// all of them where the query is empty.
    pub fn filtered_bindings(&self) -> (r: Vec<EffectiveBinding>)
        ensures
            effective_views(r@) == self.visible(),
    {
        let all = self.effective_bindings();
        if self.search_query.as_str().is_empty() {
            return all;
        }
        let lowered = to_lowercase(self.search_query.as_str());
        let ghost query = self.search_query@;
        let ghost pred = |e: EffectiveView| e.binding.matches(query);
        let ghost list = effective_views(all@);
        let mut result: Vec<EffectiveBinding> = Vec::new();
        let mut i: usize = 0;
        assert(list.take(0).filter(pred) =~= Seq::empty()) by {
            reveal(Seq::filter);
        }
        while i < all.len()
            invariant
                i <= all.len(),
                list == effective_views(all@),
                lowered@ == lowercase_of(query),
                pred == |e: EffectiveView| e.binding.matches(query),
                effective_views(result@) == list.take(i as int).filter(pred),
            decreases all.len() - i,
        {
            proof {
                reveal(Seq::filter);
                assert(list.take(i as int + 1).drop_last() =~= list.take(i as int));
                assert(list.take(i as int + 1).last() == all@[i as int]@);
            }
            if all[i].binding.matches_lowered(lowered.as_str()) {
                let ghost before = effective_views(result@);
                result.push(all[i].clone());
                assert(effective_views(result@) =~= before.push(all@[i as int]@));
            }
            i += 1;
        }
        assert(list.take(all@.len() as int) =~= list);
        result
    }

    /// The selected binding among the visible ones.
    pub fn selected_binding(&self) -> (r: Option<Keybinding>)
        ensures
            match r {
                Some(b) => self.selected_index < self.visible().len() && b@
                    == self.visible()[self.selected_index as int].binding,
                None => self.selected_index >= self.visible().len(),
            },
    {
        match self.selected_effective_binding() {
            Some(e) => Some(e.binding),
            None => None,
        }
    }

    /// The selected entry among the visible ones, with its status.
    pub fn selected_effective_binding(&self) -> (r: Option<EffectiveBinding>)
        ensures
            match r {
                Some(e) => self.selected_index < self.visible().len() && e@
                    == self.visible()[self.selected_index as int],
                None => self.selected_index >= self.visible().len(),
            },
    {
        let visible = self.filtered_bindings();
        if self.selected_index < visible.len() {
            assert(effective_views(visible@)[self.selected_index as int]
                == visible@[self.selected_index as int]@);
            Some(visible[self.selected_index].clone())
        } else {
            None
        }
    }

    /// The number of visible bindings.
    pub fn visible_count(&self) -> (r: usize)
        ensures
            r == self.visible().len(),
    {
        self.filtered_bindings().len()
    }

    /// Selects the next visible binding, wrapping around.
    pub fn select_next(&mut self)
        ensures
            *final(self) == (KeybindingsViewModel {
                selected_index: final(self).selected_index,
                ..*old(self)
            }),
            final(self).selected_index == if old(self).visible().len() == 0 {
                old(self).selected_index as int
            } else {
                (old(self).selected_index + 1) % (old(self).visible().len() as int)
            },
    {
        let count = self.visible_count();
        if count > 0 {
            proof {
                vstd::arithmetic::div_mod::lemma_add_mod_noop(
                    self.selected_index as int,
                    1,
                    count as int,
                );
                if count > 1 {
                    vstd::arithmetic::div_mod::lemma_small_mod(1, count as nat);
                }
            }
            self.selected_index = (self.selected_index % count + 1 % count) % count;
        }
    }

    /// Selects the previous visible binding, wrapping around.
    pub fn select_prev(&mut self)
        ensures
            *final(self) == (KeybindingsViewModel {
                selected_index: final(self).selected_index,
                ..*old(self)
            }),
            final(self).selected_index == if old(self).visible().len() == 0 {
                old(self).selected_index as int
            } else if old(self).selected_index == 0 {
                old(self).visible().len() - 1
            } else {
                old(self).selected_index - 1
            },
    {
        let count = self.visible_count();
        if count > 0 {
            if self.selected_index == 0 {
                self.selected_index = count - 1;
            } else {
                self.selected_index -= 1;
            }
        }
    }

    /// Sets the search query and puts the selection back to the top.
    pub fn set_search(&mut self, query: String)
        ensures
            *final(self) == (KeybindingsViewModel {
                search_query: query,
                selected_index: 0,
                scroll_offset: 0,
                ..*old(self)
            }),
    {
        self.search_query = query;
        self.selected_index = 0;
        self.scroll_offset = 0;
    }

    /// Ends the search: empties the query and puts the selection back to
    /// the top.
    pub fn clear_search(&mut self)
        ensures
            final(self).search_query@.len() == 0,
            *final(self) == (KeybindingsViewModel {
                search_query: final(self).search_query,
                selected_index: 0,
                scroll_offset: 0,
                search_mode: false,
                ..*old(self)
            }),
    {
        self.search_query = String::new();
        self.selected_index = 0;
        self.scroll_offset = 0;
        self.search_mode = false;
    }

    /// Whether any change is pending.
    pub fn has_pending_changes(&self) -> (r: bool)
        ensures
            r == (self.pending_changes@.len() > 0),
    {
        self.pending_changes.len() > 0
    }

    /// Scrolls, if need be, so that the selection is within the window.
    pub fn update_scroll(&mut self, visible_height: usize)
        ensures
            *final(self) == (KeybindingsViewModel {
                scroll_offset: scrolled(
                    old(self).selected_index,
                    old(self).scroll_offset,
                    visible_height,
                ) as usize,
                ..*old(self)
            }),
    {
        self.scroll_offset = scroll_to(self.selected_index, self.scroll_offset, visible_height);
    }
}

proof fn lemma_survivors_same(
    base: Seq<KeybindingView>,
    a: Seq<ChangeView>,
    b: Seq<ChangeView>,
    k: int,
)
    requires
        forall|x: int| 0 <= x < base.len() ==> is_deleted(a, x) == is_deleted(b, x),
        forall|x: int| 0 <= x < base.len() ==> replacement(a, x) == replacement(b, x),
    ensures
        survivors(base, a, k) == survivors(base, b, k),
    decreases k,
{
    if k <= 0 || k > base.len() {
    } else {
        lemma_survivors_same(base, a, b, k - 1);
    }
}

/// Two change lists that delete the same positions, replace the same
/// positions by the same bindings and add the same bindings give the same
/// effective list.
pub proof fn lemma_same_effect(base: Seq<KeybindingView>, a: Seq<ChangeView>, b: Seq<ChangeView>)
    requires
        forall|x: int| 0 <= x < base.len() ==> is_deleted(a, x) == is_deleted(b, x),
        forall|x: int| 0 <= x < base.len() ==> replacement(a, x) == replacement(b, x),
        additions(a) == additions(b),
    ensures
        effective(base, a) == effective(base, b),
{
    lemma_survivors_same(base, a, b, base.len() as int);
}

proof fn lemma_two_changes(first: ChangeView, second: ChangeView)
    ensures
        seq![first, second].drop_last() == seq![first],
        seq![first, second].last() == second,
        seq![first].drop_last() == Seq::<ChangeView>::empty(),
        seq![first].last() == first,
{
    assert(seq![first, second].drop_last() =~= seq![first]);
    assert(seq![first].drop_last() =~= Seq::<ChangeView>::empty());
}

proof fn lemma_two_deletes(both: Seq<ChangeView>, i: usize, j: usize)
    requires
        both == seq![ChangeView::Delete(i), ChangeView::Delete(j)],
    ensures
        forall|x: int| 0 <= x <= usize::MAX ==> (#[trigger] is_deleted(both, x) <==> x == i || x == j),
        forall|x: int| #[trigger] replacement(both, x) is None,
        additions(both).len() == 0,
{
    let one = seq![ChangeView::Delete(i)];
    lemma_two_changes(ChangeView::Delete(i), ChangeView::Delete(j));
    assert forall|x: int| 0 <= x <= usize::MAX implies (#[trigger] is_deleted(both, x) <==> x == i
        || x == j) by {
        assert(!is_deleted(Seq::<ChangeView>::empty(), x));
        assert(is_deleted(one, x) <==> x == i);
    }
    assert forall|x: int| #[trigger] replacement(both, x) is None by {
        assert(replacement(Seq::<ChangeView>::empty(), x) is None);
        assert(replacement(one, x) is None);
    }
    assert(additions(Seq::<ChangeView>::empty()).len() == 0);
    assert(additions(one).len() == 0);
}

/// Deletions do not depend on the order in which they were declared:
/// deleting position `i` and then `j` gives the same effective list as
/// deleting `j` and then `i`.
pub proof fn lemma_delete_order(base: Seq<KeybindingView>, i: usize, j: usize)
    ensures
        effective(base, seq![ChangeView::Delete(i), ChangeView::Delete(j)]) == effective(
            base,
            seq![ChangeView::Delete(j), ChangeView::Delete(i)],
        ),
{
    let a = seq![ChangeView::Delete(i), ChangeView::Delete(j)];
    let b = seq![ChangeView::Delete(j), ChangeView::Delete(i)];
    lemma_two_deletes(a, i, j);
    lemma_two_deletes(b, j, i);
    assert(additions(a) =~= additions(b));
    assert forall|x: int| 0 <= x < base.len() implies is_deleted(a, x) == is_deleted(b, x) by {
        if x <= usize::MAX {
        } else {
            lemma_beyond(a, x);
            lemma_beyond(b, x);
        }
    }
    lemma_same_effect(base, a, b);
}

proof fn lemma_beyond(changes: Seq<ChangeView>, x: int)
    requires
        x > usize::MAX,
    ensures
        !is_deleted(changes, x),
    decreases changes.len(),
{
    if changes.len() > 0 {
        lemma_beyond(changes.drop_last(), x);
    }
}

proof fn lemma_one_deleted(
    base: Seq<KeybindingView>,
    changes: Seq<ChangeView>,
    d: int,
    k: int,
)
    requires
        0 <= d < base.len(),
        0 <= k <= base.len(),
        forall|x: int| 0 <= x < base.len() ==> (is_deleted(changes, x) <==> x == d),
    ensures
        survivors(base, changes, k).len() == if k <= d {
            k
        } else {
            k - 1
        },
        forall|p: int|
            0 <= p < survivors(base, changes, k).len() ==> #[trigger] survivors(base, changes, k)[p]
                == survivor(
                base,
                changes,
                if p < d {
                    p
                } else {
                    p + 1
                },
            ),
    decreases k,
{
    if k > 0 {
        lemma_one_deleted(base, changes, d, k - 1);
    }
}

/// For a loaded list that a machine can hold: deleting position `d` and
/// replacing another position `m` by `b` gives an effective list that is
/// one shorter than the loaded list, shows `b`
/// with status `Modified` for what was at position `m`, and has no entry
/// that came from position `d`.
pub proof fn lemma_delete_and_modify(
    base: Seq<KeybindingView>,
    d: usize,
    m: usize,
    b: KeybindingView,
)
    requires
        base.len() <= usize::MAX,
        d < base.len(),
        m < base.len(),
        d != m,
    ensures
        ({
            let e = effective(
                base,
                seq![ChangeView::Delete(d), ChangeView::Modify { index: m, new: b }],
            );
            let at = if m < d {
                m as int
            } else {
                m - 1
            };
            &&& e.len() == base.len() - 1
            &&& e[at] == (EffectiveView {
                binding: b,
                original_index: Some(m),
                status: BindingStatus::Modified,
            })
            &&& forall|p: int| 0 <= p < e.len() ==> (#[trigger] e[p]).original_index != Some(d)
        }),
{
    let first = ChangeView::Delete(d);
    let second = ChangeView::Modify { index: m, new: b };
    let changes = seq![first, second];
    let one = seq![first];
    lemma_two_changes(first, second);
    assert forall|x: int| 0 <= x < base.len() implies (is_deleted(changes, x) <==> x == d) by {
        assert(!is_deleted(Seq::<ChangeView>::empty(), x));
        assert(is_deleted(one, x) <==> x == d);
    }
    assert(replacement(changes, m as int) == Some(b));
    assert(additions(Seq::<ChangeView>::empty()).len() == 0);
    assert(additions(one).len() == 0);
    assert(additions(changes).len() == 0);
    lemma_one_deleted(base, changes, d as int, base.len() as int);
    let e = effective(base, changes);
    let s = survivors(base, changes, base.len() as int);
    assert(e =~= s);
    let at = if m < d {
        m as int
    } else {
        m - 1
    };
    assert(s[at] == survivor(base, changes, m as int));
    assert forall|p: int| 0 <= p < e.len() implies (#[trigger] e[p]).original_index != Some(d) by {
        assert(s[p] == survivor(
            base,
            changes,
            if p < d {
                p
            } else {
                p + 1
            },
        ));
    }
}

/// The changes without the additions of bindings with this combo.
pub open spec fn without_added(changes: Seq<ChangeView>, combo: Seq<char>) -> Seq<ChangeView>
    decreases changes.len(),
{
    if changes.len() == 0 {
        Seq::empty()
    } else {
        match changes.last() {
            ChangeView::Add(b) => if b.combo() == combo {
                without_added(changes.drop_last(), combo)
            } else {
                without_added(changes.drop_last(), combo).push(changes.last())
            },
            _ => without_added(changes.drop_last(), combo).push(changes.last()),
        }
    }
}

/// The changes after the entry `e` of the effective list was deleted: an
/// entry that came from the loaded list is deleted by its position; an
/// added one is withdrawn, together with every addition of the same combo.
pub open spec fn changes_after_delete(changes: Seq<ChangeView>, e: EffectiveView) -> Seq<
    ChangeView,
> {
    match e.original_index {
        Some(i) => changes.push(ChangeView::Delete(i)),
        None => without_added(changes, e.binding.combo()),
    }
}

/// The selection after a deletion left `count` entries visible.
pub open spec fn selection_after_delete(selected: usize, count: nat) -> int {
    let last = if count >= 1 {
        count - 1
    } else {
        0
    };
    if selected >= last {
        if count >= 2 {
            count - 2
        } else {
            0
        }
    } else {
        selected as int
    }
}

impl KeybindingsViewModel {
    /// Whether `after` is this model after the selected entry was deleted.
    pub open spec fn deleted_selected(self, after: KeybindingsViewModel) -> bool {
        if self.selected_index < self.visible().len() {
            let e = self.visible()[self.selected_index as int];
            let changes = changes_after_delete(change_views(self.pending_changes@), e);
            let count = filtered(
                effective(binding_views(self.bindings@), changes),
                self.search_query@,
            ).len();
            &&& change_views(after.pending_changes@) == changes
            &&& after.selected_index == selection_after_delete(self.selected_index, count)
            &&& after == (KeybindingsViewModel {
                pending_changes: after.pending_changes,
                selected_index: after.selected_index,
                ..self
            })
        } else {
            after == self
        }
    }

    /// Deletes the selected entry of the visible list: a binding of the
    /// loaded list gets a pending deletion of its position; an added
    /// binding is withdrawn. The selection is moved up where it stood at or
    /// behind the end.
    pub fn delete_selected(&mut self)
        ensures
            old(self).deleted_selected(*final(self)),
    {
        let visible = self.filtered_bindings();
        if self.selected_index < visible.len() {
            let ghost before = change_views(self.pending_changes@);
            assert(effective_views(visible@)[self.selected_index as int]
                == visible@[self.selected_index as int]@);
            match visible[self.selected_index].original_index {
                Some(original_index) => {
                    self.pending_changes.push(KeybindingChange::Delete(original_index));
                    assert(change_views(self.pending_changes@) =~= before.push(
                        ChangeView::Delete(original_index),
                    ));
                },
                None => {
                    let combo = visible[self.selected_index].binding.combo();
                    let mut kept: Vec<KeybindingChange> = Vec::new();
                    let mut i: usize = 0;
                    assert(before.take(0).len() == 0);
                    while i < self.pending_changes.len()
                        invariant
                            i <= self.pending_changes.len(),
                            before == change_views(self.pending_changes@),
                            change_views(kept@) == without_added(before.take(i as int), combo@),
                        decreases self.pending_changes.len() - i,
                    {
                        proof {
                            assert(before.take(i as int + 1).drop_last() =~= before.take(i as int));
                            assert(before.take(i as int + 1).last()
                                == self.pending_changes@[i as int]@);
                        }
                        let withdrawn = match &self.pending_changes[i] {
                            KeybindingChange::Add(b) => {
                                let c = b.combo();
                                text_eq(c.as_str(), combo.as_str())
                            },
                            _ => false,
                        };
                        if !withdrawn {
                            let ghost so_far = change_views(kept@);
                            kept.push(self.pending_changes[i].clone());
                            assert(change_views(kept@) =~= so_far.push(
                                self.pending_changes@[i as int]@,
                            ));
                        }
                        i += 1;
                    }
                    assert(before.take(before.len() as int) =~= before);
                    self.pending_changes = kept;
                },
            }
            let count = self.visible_count();
            let last = if count >= 1 {
                count - 1
            } else {
                0
            };
            if self.selected_index >= last {
                self.selected_index = if count >= 2 {
                    count - 2
                } else {
                    0
                };
            }
        }
    }

    /// Whether `after` is this model with the edit dialog opened for the
    /// selected entry. An added binding, which has no position, is edited
    /// under position 0.
    pub open spec fn started_edit(self, after: KeybindingsViewModel) -> bool {
        if self.selected_index < self.visible().len() {
            let e = self.visible()[self.selected_index as int];
            &&& after.edit_mode matches Some(edit) && edit.edits(
                match e.original_index {
                    Some(i) => i,
                    None => 0,
                },
                e.binding,
            )
            &&& after == (KeybindingsViewModel { edit_mode: after.edit_mode, ..self })
        } else {
            after == self
        }
    }

    /// Opens the edit dialog for the selected entry, if there is one. Tells
    /// whether it did.
    pub fn start_edit(&mut self) -> (r: bool)
        ensures
            old(self).started_edit(*final(self)),
            r == (old(self).selected_index < old(self).visible().len()),
    {
        let visible = self.filtered_bindings();
        if self.selected_index < visible.len() {
            assert(effective_views(visible@)[self.selected_index as int]
                == visible@[self.selected_index as int]@);
            let entry = &visible[self.selected_index];
            let index = match entry.original_index {
                Some(i) => i,
                None => 0,
            };
            self.edit_mode = Some(EditMode::from_binding(index, &entry.binding));
            true
        } else {
            false
        }
    }

    /// The change that confirming a dialog makes pending.
    pub open spec fn change_of(edit: EditMode, binding: KeybindingView) -> ChangeView {
        if edit.is_new {
            ChangeView::Add(binding)
        } else {
            ChangeView::Modify { index: edit.original_index, new: binding }
        }
    }

    /// Whether `after` is this model after the edit dialog was confirmed.
    /// A dialog that stands for no binding stays open.
    pub open spec fn confirmed_edit(self, after: KeybindingsViewModel) -> bool {
        match self.edit_mode {
            Some(edit) => match edit.binding() {
                Some(b) => change_views(after.pending_changes@) == change_views(
                    self.pending_changes@,
                ).push(Self::change_of(edit, b)) && after == (KeybindingsViewModel {
                    pending_changes: after.pending_changes,
                    edit_mode: None,
                    ..self
                }),
                None => after == self,
            },
            None => after == self,
        }
    }

    /// Confirms the edit dialog: the binding that it stands for becomes a
    /// pending addition or replacement, and the dialog closes. Gives the
    /// validation error where the dialog stands for no binding.
    pub fn confirm_edit(&mut self) -> (r: Result<(), ConfigError>)
        ensures
            old(self).confirmed_edit(*final(self)),
            match old(self).edit_mode {
                Some(edit) => match edit.binding() {
                    Some(_) => r is Ok,
                    None => r matches Err(ConfigError::Validation(m)) && m@
                        == "Invalid keybinding: key combo and action are required"@,
                },
                None => r is Ok,
            },
    {
        let (is_new, index, binding) = match &self.edit_mode {
            Some(edit) => (edit.is_new, edit.original_index, edit.to_keybinding()),
            None => {
                return Ok(());
            },
        };
        match binding {
            Some(b) => {
                let ghost before = change_views(self.pending_changes@);
                let change = if is_new {
                    KeybindingChange::Add(b)
                } else {
                    KeybindingChange::Modify { index, new: b }
                };
                let ghost cv = change@;
                self.pending_changes.push(change);
                assert(change_views(self.pending_changes@) =~= before.push(cv));
                self.edit_mode = None;
                Ok(())
            },
            None => Err(
                ConfigError::Validation(
                    "Invalid keybinding: key combo and action are required".to_owned(),
                ),
            ),
        }
    }
}

} // verus!
