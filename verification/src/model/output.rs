//! Outputs as the compositor reports them, and the overlay of positions that
//! are pending but not yet saved.

use vstd::prelude::*;
use crate::search::{first_where, lemma_first_where_is};
use crate::text::text_eq;
use vstd::arithmetic::div_mod::lemma_add_mod_noop;
use vstd::arithmetic::div_mod::lemma_small_mod;

verus! {

/// A position in logical pixels.
#[derive(Debug, Clone, Copy, PartialEq, Eq, Structural)]
pub struct Position {
    pub x: i32,
    pub y: i32,
}

impl Position {
    pub fn new(x: i32, y: i32) -> (r: Self)
        ensures
            r.x == x,
            r.y == y,
    {
        Position { x, y }
    }
}

impl Default for Position {
    fn default() -> (r: Self)
        ensures
            r.x == 0,
            r.y == 0,
    {
        Position { x: 0, y: 0 }
    }
}

/// A size in logical pixels.
#[derive(Debug, Clone, Copy, PartialEq, Eq, Structural)]
pub struct Size {
    pub width: u32,
    pub height: u32,
}

impl Size {
    pub fn new(width: u32, height: u32) -> (r: Self)
        ensures
            r.width == width,
            r.height == height,
    {
        Size { width, height }
    }
}

impl Default for Size {
    fn default() -> (r: Self)
        ensures
            r.width == 0,
            r.height == 0,
    {
        Size { width: 0, height: 0 }
    }
}

/// A display mode: resolution, and refresh rate in thousandths of a hertz.
#[derive(Debug, Clone, Copy, PartialEq, Eq, Structural)]
pub struct OutputMode {
    pub width: u32,
    pub height: u32,
    pub refresh_millihertz: u32,
    pub is_preferred: bool,
}

/// Rotation and flip of an output.
#[derive(Debug, Clone, Copy, PartialEq, Eq, Structural)]
pub enum OutputTransform {
    Normal,
    Rotate90,
    Rotate180,
    Rotate270,
    Flipped,
    Flipped90,
    Flipped180,
    Flipped270,
}

impl Default for OutputTransform {
    fn default() -> (r: Self)
        ensures
            r == OutputTransform::Normal,
    {
        OutputTransform::Normal
    }
}

impl OutputTransform {
    /// The configuration keyword of a transform.
    pub open spec fn keyword(self) -> Seq<char> {
        match self {
            OutputTransform::Normal => "normal"@,
            OutputTransform::Rotate90 => "90"@,
            OutputTransform::Rotate180 => "180"@,
            OutputTransform::Rotate270 => "270"@,
            OutputTransform::Flipped => "flipped"@,
            OutputTransform::Flipped90 => "flipped-90"@,
            OutputTransform::Flipped180 => "flipped-180"@,
            OutputTransform::Flipped270 => "flipped-270"@,
        }
    }

    pub fn as_str(&self) -> (r: &'static str)
        ensures
            r@ == self.keyword(),
    {
        match self {
            OutputTransform::Normal => "normal",
            OutputTransform::Rotate90 => "90",
            OutputTransform::Rotate180 => "180",
            OutputTransform::Rotate270 => "270",
            OutputTransform::Flipped => "flipped",
            OutputTransform::Flipped90 => "flipped-90",
            OutputTransform::Flipped180 => "flipped-180",
            OutputTransform::Flipped270 => "flipped-270",
        }
    }
}

/// Everything known about one output. Rebuilt from the compositor on every
/// query; only the position is ever written back.
#[derive(Debug, Clone)]
pub struct OutputState {
    pub name: String,
    pub modes: Vec<OutputMode>,
    pub current_mode_index: Option<usize>,
    /// The scale factor in thousandths.
    pub scale_thousandths: u32,
    pub transform: OutputTransform,
    pub position: Position,
    pub logical_size: Size,
    pub physical_size: Size,
    pub enabled: bool,
    pub connected: bool,
    pub configured: bool,
    pub make: String,
    pub model: String,
}

impl OutputState {
    /// The mode that is active, if the index names one.
    pub fn current_mode(&self) -> (r: Option<&OutputMode>)
        ensures
            r == match self.current_mode_index {
                Some(i) if i < self.modes.len() => Some(&self.modes[i as int]),
                _ => None,
            },
    {
        match self.current_mode_index {
            Some(i) => if i < self.modes.len() {
                Some(&self.modes[i])
            } else {
                None
            },
            None => None,
        }
    }
}

/// What a list of named positions says of `name`: the position of the first
/// entry with that name.
pub open spec fn lookup(entries: Seq<(String, Position)>, name: Seq<char>) -> Option<Position>
    decreases entries.len(),
{
    if entries.len() == 0 {
        None
    } else if entries[0].0@ == name {
        Some(entries[0].1)
    } else {
        lookup(entries.drop_first(), name)
    }
}

/// No name occurs twice in a list of named positions.
pub open spec fn distinct_names(entries: Seq<(String, Position)>) -> bool {
    forall|i: int, j: int|
        0 <= i < j < entries.len() ==> (#[trigger] entries[i]).0@ != (#[trigger] entries[j]).0@
}

proof fn lemma_lookup_at(entries: Seq<(String, Position)>, name: Seq<char>, k: int)
    requires
        0 <= k < entries.len(),
        entries[k].0@ == name,
        forall|j: int| 0 <= j < k ==> entries[j].0@ != name,
    ensures
        lookup(entries, name) == Some(entries[k].1),
    decreases k,
{
    if k > 0 {
        lemma_lookup_at(entries.drop_first(), name, k - 1);
    }
}

proof fn lemma_lookup_none(entries: Seq<(String, Position)>, name: Seq<char>)
    requires
        forall|j: int| 0 <= j < entries.len() ==> entries[j].0@ != name,
    ensures
        lookup(entries, name) is None,
    decreases entries.len(),
{
    if entries.len() > 0 {
        lemma_lookup_none(entries.drop_first(), name);
    }
}

/// The pending positions of outputs, by output name: the overlay that is
/// shown in place of the stored positions until it is saved or reverted.
/// No name occurs twice.
#[derive(Debug)]
pub struct PositionOverlay {
    entries: Vec<(String, Position)>,
}

impl View for PositionOverlay {
    type V = Map<Seq<char>, Position>;

    closed spec fn view(&self) -> Map<Seq<char>, Position> {
        Map::new(
            |name: Seq<char>| lookup(self.entries@, name) is Some,
            |name: Seq<char>| lookup(self.entries@, name)->0,
        )
    }
}

impl PositionOverlay {
    #[verifier::type_invariant]
    spec fn well_formed(self) -> bool {
        distinct_names(self.entries@)
    }

    /// The pending entries in the order in which their names were first set.
    pub closed spec fn listed(self) -> Seq<(String, Position)> {
        self.entries@
    }

    /// The overlay is the map that its listing spells out.
    pub proof fn lemma_listed(self)
        ensures
            forall|name: Seq<char>| #[trigger]
                self@.dom().contains(name) <==> lookup(self.listed(), name) is Some,
            forall|name: Seq<char>| #[trigger]
                self@.dom().contains(name) ==> self@[name] == lookup(self.listed(), name)->0,
    {
    }

    /// An overlay with nothing pending.
    pub fn new() -> (r: Self)
        ensures
            r@ == Map::<Seq<char>, Position>::empty(),
            r.listed().len() == 0,
    {
        let r = PositionOverlay { entries: Vec::new() };
        assert(r@ =~= Map::<Seq<char>, Position>::empty());
        r
    }

    /// The pending position of `name`, if there is one.
    pub fn get(&self, name: &str) -> (r: Option<Position>)
        ensures
            r == if self@.dom().contains(name@) {
                Some(self@[name@])
            } else {
                None
            },
    {
        let mut i: usize = 0;
        while i < self.entries.len()
            invariant
                i <= self.entries.len(),
                forall|j: int| 0 <= j < i ==> self.entries@[j].0@ != name@,
            decreases self.entries.len() - i,
        {
            if text_eq(self.entries[i].0.as_str(), name) {
                proof {
                    lemma_lookup_at(self.entries@, name@, i as int);
                }
                return Some(self.entries[i].1);
            }
            i += 1;
        }
        proof {
            lemma_lookup_none(self.entries@, name@);
        }
        None
    }

    /// Whether nothing is pending.
    pub fn is_empty(&self) -> (r: bool)
        ensures
            r == (self@ == Map::<Seq<char>, Position>::empty()),
            r == (self.listed().len() == 0),
    {
        let r = self.entries.len() == 0;
        proof {
            if r {
                assert(self@ =~= Map::<Seq<char>, Position>::empty());
            } else {
                assert(self.entries@[0].0@ == self.entries@[0].0@);
                assert(lookup(self.entries@, self.entries@[0].0@) is Some);
                assert(self@.dom().contains(self.entries@[0].0@));
            }
        }
        r
    }

    /// The number of outputs with a pending position.
    pub fn len(&self) -> (r: usize)
        ensures
            r == self.listed().len(),
            distinct_names(self.listed()),
    {
        proof {
            use_type_invariant(self);
        }
        self.entries.len()
    }

    /// The `i`-th pending entry.
    pub fn entry(&self, i: usize) -> (r: (&str, Position))
        requires
            i < self.listed().len(),
        ensures
            r.0@ == self.listed()[i as int].0@,
            r.1 == self.listed()[i as int].1,
    {
        (self.entries[i].0.as_str(), self.entries[i].1)
    }

    /// Makes `position` the pending position of `name`, in place of an
    /// earlier one.
    pub fn insert(&mut self, name: &str, position: Position)
        ensures
            final(self)@ == old(self)@.insert(name@, position),
    {
        proof {
            use_type_invariant(&*self);
        }
        let ghost before = self.entries@;
        let mut fresh: Vec<(String, Position)> = Vec::new();
        let mut found: Option<usize> = None;
        let mut i: usize = 0;
        while i < self.entries.len()
            invariant
                i <= self.entries.len(),
                self.entries@ == before,
                distinct_names(before),
                fresh@.len() == i,
                match found {
                    Some(k) => k < i && before[k as int].0@ == name@ && fresh@[k as int].0@ == name@
                        && fresh@[k as int].1 == position,
                    None => true,
                },
                forall|j: int| 0 <= j < i && found != Some(j as usize) ==> fresh@[j] == before[j],
                forall|j: int| 0 <= j < i && found != Some(j as usize) ==> before[j].0@ != name@,
            decreases self.entries.len() - i,
        {
            if text_eq(self.entries[i].0.as_str(), name) {
                fresh.push((name.to_owned(), position));
                found = Some(i);
            } else {
                fresh.push((self.entries[i].0.clone(), self.entries[i].1));
            }
            i += 1;
        }
        match found {
            Some(k) => {
                proof {
                    let after = fresh@;
                    assert forall|a: int, b: int| 0 <= a < b < after.len() implies (
                    #[trigger] after[a]).0@ != (#[trigger] after[b]).0@ by {
                        assert(after[a].0@ == before[a].0@);
                        assert(after[b].0@ == before[b].0@);
                    }
                    lemma_insert_replaced(before, after, name@, position, k as int);
                }
            },
            None => {
                fresh.push((name.to_owned(), position));
                proof {
                    let after = fresh@;
                    assert forall|a: int, b: int| 0 <= a < b < after.len() implies (
                    #[trigger] after[a]).0@ != (#[trigger] after[b]).0@ by {
                        if b < before.len() {
                            assert(after[a] == before[a]);
                            assert(after[b] == before[b]);
                        } else {
                            assert(after[a] == before[a]);
                        }
                    }
                    lemma_insert_pushed(before, after, name@, position);
                }
            },
        }
        self.entries = fresh;
        assert(self@ =~= old(self)@.insert(name@, position));
    }

    /// Discards every pending position.
    pub fn clear(&mut self)
        ensures
            final(self)@ == Map::<Seq<char>, Position>::empty(),
            final(self).listed().len() == 0,
    {
        self.entries = Vec::new();
        assert(self@ =~= Map::<Seq<char>, Position>::empty());
    }
}

proof fn lemma_insert_replaced(
    before: Seq<(String, Position)>,
    after: Seq<(String, Position)>,
    name: Seq<char>,
    position: Position,
    k: int,
)
    requires
        0 <= k < before.len(),
        after.len() == before.len(),
        before[k].0@ == name,
        after[k].0@ == name,
        after[k].1 == position,
        forall|j: int| 0 <= j < before.len() && j != k ==> after[j] == before[j],
        forall|j: int| 0 <= j < k ==> before[j].0@ != name,
    ensures
        forall|other: Seq<char>| #[trigger]
            lookup(after, other) == if other == name {
                Some(position)
            } else {
                lookup(before, other)
            },
    decreases k,
{
    assert forall|other: Seq<char>| #[trigger]
        lookup(after, other) == if other == name {
            Some(position)
        } else {
            lookup(before, other)
        } by {
        lemma_lookup_replaced_one(before, after, name, position, k, other);
    }
}

proof fn lemma_lookup_replaced_one(
    before: Seq<(String, Position)>,
    after: Seq<(String, Position)>,
    name: Seq<char>,
    position: Position,
    k: int,
    other: Seq<char>,
)
    requires
        0 <= k < before.len(),
        after.len() == before.len(),
        before[k].0@ == name,
        after[k].0@ == name,
        after[k].1 == position,
        forall|j: int| 0 <= j < before.len() && j != k ==> after[j] == before[j],
        forall|j: int| 0 <= j < k ==> before[j].0@ != name,
    ensures
        lookup(after, other) == if other == name {
            Some(position)
        } else {
            lookup(before, other)
        },
    decreases k,
{
    if k == 0 {
        assert(after.drop_first() =~= before.drop_first());
    } else {
        assert(after[0] == before[0]);
        let b = before.drop_first();
        let a = after.drop_first();
        assert forall|j: int| 0 <= j < b.len() && j != k - 1 implies a[j] == b[j] by {
            assert(a[j] == after[j + 1]);
            assert(b[j] == before[j + 1]);
        }
        assert forall|j: int| 0 <= j < k - 1 implies b[j].0@ != name by {
            assert(b[j] == before[j + 1]);
        }
        lemma_lookup_replaced_one(b, a, name, position, k - 1, other);
    }
}

proof fn lemma_insert_pushed(
    before: Seq<(String, Position)>,
    after: Seq<(String, Position)>,
    name: Seq<char>,
    position: Position,
)
    requires
        after.len() == before.len() + 1,
        forall|j: int| 0 <= j < before.len() ==> after[j] == before[j],
        after[before.len() as int].0@ == name,
        after[before.len() as int].1 == position,
        forall|j: int| 0 <= j < before.len() ==> before[j].0@ != name,
    ensures
        forall|other: Seq<char>| #[trigger]
            lookup(after, other) == if other == name {
                Some(position)
            } else {
                lookup(before, other)
            },
{
    assert forall|other: Seq<char>| #[trigger]
        lookup(after, other) == if other == name {
            Some(position)
        } else {
            lookup(before, other)
        } by {
        lemma_lookup_pushed_one(before, after, name, position, other);
    }
}

proof fn lemma_lookup_pushed_one(
    before: Seq<(String, Position)>,
    after: Seq<(String, Position)>,
    name: Seq<char>,
    position: Position,
    other: Seq<char>,
)
    requires
        after.len() == before.len() + 1,
        forall|j: int| 0 <= j < before.len() ==> after[j] == before[j],
        after[before.len() as int].0@ == name,
        after[before.len() as int].1 == position,
        forall|j: int| 0 <= j < before.len() ==> before[j].0@ != name,
    ensures
        lookup(after, other) == if other == name {
            Some(position)
        } else {
            lookup(before, other)
        },
    decreases before.len(),
{
    if before.len() == 0 {
        assert(after.drop_first().len() == 0);
    } else {
        assert(after[0] == before[0]);
        let b = before.drop_first();
        let a = after.drop_first();
        assert forall|j: int| 0 <= j < b.len() implies a[j] == b[j] by {
            assert(a[j] == after[j + 1]);
            assert(b[j] == before[j + 1]);
        }
        assert(a[b.len() as int] == after[before.len() as int]);
        assert forall|j: int| 0 <= j < b.len() implies b[j].0@ != name by {
            assert(b[j] == before[j + 1]);
        }
        lemma_lookup_pushed_one(b, a, name, position, other);
    }
}

/// The stored position of the first output called `name`.
pub open spec fn stored_position(outputs: Seq<OutputState>, name: Seq<char>) -> Option<Position>
    decreases outputs.len(),
{
    if outputs.len() == 0 {
        None
    } else if outputs[0].name@ == name {
        Some(outputs[0].position)
    } else {
        stored_position(outputs.drop_first(), name)
    }
}

/// The position shown for `name`: the pending one if there is one, else the
/// stored one.
pub open spec fn display_position(
    outputs: Seq<OutputState>,
    pending: Map<Seq<char>, Position>,
    name: Seq<char>,
) -> Option<Position> {
    if pending.dom().contains(name) {
        Some(pending[name])
    } else {
        stored_position(outputs, name)
    }
}

/// The effective position of an output: what is shown for its name.
pub open spec fn effective_position(
    outputs: Seq<OutputState>,
    pending: Map<Seq<char>, Position>,
    output: OutputState,
) -> Position {
    match display_position(outputs, pending, output.name@) {
        Some(p) => p,
        None => output.position,
    }
}

proof fn lemma_stored_at(outputs: Seq<OutputState>, name: Seq<char>, k: int)
    requires
        0 <= k < outputs.len(),
        outputs[k].name@ == name,
        forall|j: int| 0 <= j < k ==> outputs[j].name@ != name,
    ensures
        stored_position(outputs, name) == Some(outputs[k].position),
    decreases k,
{
    if k > 0 {
        lemma_stored_at(outputs.drop_first(), name, k - 1);
    }
}

proof fn lemma_stored_none(outputs: Seq<OutputState>, name: Seq<char>)
    requires
        forall|j: int| 0 <= j < outputs.len() ==> outputs[j].name@ != name,
    ensures
        stored_position(outputs, name) is None,
    decreases outputs.len(),
{
    if outputs.len() > 0 {
        lemma_stored_none(outputs.drop_first(), name);
    }
}

/// Whether an output has this name.
pub open spec fn called(name: Seq<char>) -> spec_fn(OutputState) -> bool {
    |o: OutputState| o.name@ == name
}

/// The outputs after the position of the first output called `name` was
/// saved: it is stored, and the output counts as configured.
pub open spec fn with_saved(outputs: Seq<OutputState>, name: Seq<char>, p: Position) -> Seq<
    OutputState,
> {
    match first_where(outputs, called(name)) {
        Some(i) => outputs.update(i, OutputState { position: p, configured: true, ..outputs[i] }),
        None => outputs,
    }
}

/// The outputs after the first `k` of the listed positions were saved.
pub open spec fn committed(outputs: Seq<OutputState>, listed: Seq<(String, Position)>, k: int)
    -> Seq<OutputState>
    decreases k,
{
    if k <= 0 || k > listed.len() {
        outputs
    } else {
        with_saved(committed(outputs, listed, k - 1), listed[k - 1].0@, listed[k - 1].1)
    }
}

/// The outputs after the first output called `name` was marked as
/// configured.
pub open spec fn with_configured(outputs: Seq<OutputState>, name: Seq<char>) -> Seq<OutputState> {
    match first_where(outputs, called(name)) {
        Some(i) => outputs.update(i, OutputState { configured: true, ..outputs[i] }),
        None => outputs,
    }
}

/// The outputs after the outputs of the first `k` names were marked as
/// configured.
pub open spec fn marked(outputs: Seq<OutputState>, names: Seq<(Seq<char>, Position)>, k: int)
    -> Seq<OutputState>
    decreases k,
{
    if k <= 0 || k > names.len() {
        outputs
    } else {
        with_configured(marked(outputs, names, k - 1), names[k - 1].0)
    }
}

/// The outputs with the overlay of their pending positions.
#[derive(Debug)]
pub struct OutputViewModel {
    pub outputs: Vec<OutputState>,
    pub selected_index: usize,
    pub pending_changes: PositionOverlay,
}

impl Default for OutputViewModel {
    fn default() -> (r: Self)
        ensures
            r.outputs@.len() == 0,
            r.selected_index == 0,
            r.pending_changes@ == Map::<Seq<char>, Position>::empty(),
    {
        OutputViewModel { outputs: Vec::new(), selected_index: 0, pending_changes: PositionOverlay::new() }
    }
}

impl OutputViewModel {
    /// The selected output, if the selection names one.
    pub open spec fn selected(self) -> Option<OutputState> {
        if self.selected_index < self.outputs@.len() {
            Some(self.outputs@[self.selected_index as int])
        } else {
            None
        }
    }

    /// The position shown for `name`.
    pub open spec fn shown(self, name: Seq<char>) -> Option<Position> {
        display_position(self.outputs@, self.pending_changes@, name)
    }

    /// The effective position of one of the outputs.
    pub open spec fn effective(self, output: OutputState) -> Position {
        effective_position(self.outputs@, self.pending_changes@, output)
    }

    pub fn selected_output(&self) -> (r: Option<&OutputState>)
        ensures
            r == match self.selected() {
                Some(o) => Some(&o),
                None => None,
            },
    {
        if self.selected_index < self.outputs.len() {
            Some(&self.outputs[self.selected_index])
        } else {
            None
        }
    }

    /// The index of the first output called `name`.
    pub fn find_output(&self, name: &str) -> (r: Option<usize>)
        ensures
            match r {
                Some(i) => first_where(self.outputs@, called(name@)) == Some(i as int) && i
                    < self.outputs@.len(),
                None => first_where(self.outputs@, called(name@)) is None,
            },
    {
        let mut i: usize = 0;
        while i < self.outputs.len()
            invariant
                i <= self.outputs.len(),
                forall|j: int| 0 <= j < i ==> !called(name@)(self.outputs@[j]),
            decreases self.outputs.len() - i,
        {
            if text_eq(self.outputs[i].name.as_str(), name) {
                proof {
                    lemma_first_where_is(self.outputs@, called(name@), i as int);
                }
                return Some(i);
            }
            i += 1;
        }
        proof {
            lemma_first_where_is(self.outputs@, called(name@), self.outputs@.len() as int);
        }
        None
    }

    /// The position to show for `name`: pending if there is one, else stored.
    pub fn get_display_position(&self, name: &str) -> (r: Option<Position>)
        ensures
            r == self.shown(name@),
    {
        match self.pending_changes.get(name) {
            Some(p) => Some(p),
            None => {
                let mut i: usize = 0;
                while i < self.outputs.len()
                    invariant
                        i <= self.outputs.len(),
                        !self.pending_changes@.dom().contains(name@),
                        forall|j: int| 0 <= j < i ==> self.outputs@[j].name@ != name@,
                    decreases self.outputs.len() - i,
                {
                    if text_eq(self.outputs[i].name.as_str(), name) {
                        proof {
                            lemma_stored_at(self.outputs@, name@, i as int);
                        }
                        return Some(self.outputs[i].position);
                    }
                    i += 1;
                }
                proof {
                    lemma_stored_none(self.outputs@, name@);
                }
                None
            },
        }
    }

    pub fn has_pending_changes(&self) -> (r: bool)
        ensures
            r == (self.pending_changes@ != Map::<Seq<char>, Position>::empty()),
    {
        !self.pending_changes.is_empty()
    }

    /// Records `position` as the pending position of `name`.
    pub fn apply_pending_change(&mut self, name: &str, position: Position)
        ensures
            final(self).pending_changes@ == old(self).pending_changes@.insert(name@, position),
            final(self).outputs == old(self).outputs,
            final(self).selected_index == old(self).selected_index,
    {
        self.pending_changes.insert(name, position);
    }

    /// Reverts: discards the overlay and leaves everything else.
    pub fn clear_pending_changes(&mut self)
        ensures
            final(self).pending_changes@ == Map::<Seq<char>, Position>::empty(),
            final(self).outputs == old(self).outputs,
            final(self).selected_index == old(self).selected_index,
    {
        self.pending_changes.clear();
    }

    /// Selects the next output, wrapping around.
    pub fn select_next(&mut self)
        ensures
            final(self).outputs == old(self).outputs,
            final(self).pending_changes == old(self).pending_changes,
            final(self).selected_index == if old(self).outputs@.len() == 0 {
                old(self).selected_index as int
            } else {
                (old(self).selected_index + 1) % (old(self).outputs@.len() as int)
            },
    {
        let n = self.outputs.len();
        if n > 0 {
            proof {
                lemma_add_mod_noop(self.selected_index as int, 1, n as int);
                if n > 1 {
                    lemma_small_mod(1, n as nat);
                }
            }
            self.selected_index = (self.selected_index % n + 1 % n) % n;
        }
    }

    /// Selects the previous output, wrapping around.
    pub fn select_prev(&mut self)
        ensures
            final(self).outputs == old(self).outputs,
            final(self).pending_changes == old(self).pending_changes,
            final(self).selected_index == if old(self).outputs@.len() == 0 {
                old(self).selected_index as int
            } else if old(self).selected_index == 0 {
                old(self).outputs@.len() - 1
            } else {
                old(self).selected_index - 1
            },
    {
        if self.outputs.len() > 0 {
            self.selected_index = if self.selected_index == 0 {
                self.outputs.len() - 1
            } else {
                self.selected_index - 1
            };
        }
    }
}

impl OutputViewModel {
    /// Commits the overlay after a save: every pending position becomes
    /// the stored position of its output, which then counts as configured,
    /// and the overlay is cleared.
    pub fn commit_pending(&mut self)
        ensures
            final(self).outputs@ == committed(
                old(self).outputs@,
                old(self).pending_changes.listed(),
                old(self).pending_changes.listed().len() as int,
            ),
            final(self).pending_changes@ == Map::<Seq<char>, Position>::empty(),
            final(self).selected_index == old(self).selected_index,
    {
        let n = self.pending_changes.len();
        let mut i: usize = 0;
        while i < n
            invariant
                i <= n,
                n == self.pending_changes.listed().len(),
                self.pending_changes == old(self).pending_changes,
                self.selected_index == old(self).selected_index,
                self.outputs@ == committed(
                    old(self).outputs@,
                    old(self).pending_changes.listed(),
                    i as int,
                ),
            decreases n - i,
        {
            let (name, position) = self.pending_changes.entry(i);
            match self.find_output(name) {
                Some(k) => {
                    let ghost before = self.outputs@;
                    let output = &mut self.outputs[k];
                    output.position = position;
                    output.configured = true;
                    assert(self.outputs@ =~= before.update(
                        k as int,
                        OutputState { position, configured: true, ..before[k as int] },
                    ));
                },
                None => {},
            }
            i += 1;
        }
        self.pending_changes.clear();
    }

    /// Marks the outputs that the document has a position for as
    /// configured.
    pub fn mark_configured(&mut self, positions: &Vec<(String, Position)>)
        ensures
            final(self).outputs@ == marked(
                old(self).outputs@,
                crate::config::parser::pairs(positions@),
                positions@.len() as int,
            ),
            final(self).pending_changes == old(self).pending_changes,
            final(self).selected_index == old(self).selected_index,
    {
        let ghost names = crate::config::parser::pairs(positions@);
        let mut i: usize = 0;
        while i < positions.len()
            invariant
                i <= positions.len(),
                names == crate::config::parser::pairs(positions@),
                self.pending_changes == old(self).pending_changes,
                self.selected_index == old(self).selected_index,
                self.outputs@ == marked(old(self).outputs@, names, i as int),
            decreases positions.len() - i,
        {
            assert(names[i as int].0 == positions@[i as int].0@);
            match self.find_output(positions[i].0.as_str()) {
                Some(k) => {
                    let ghost before = self.outputs@;
                    let output = &mut self.outputs[k];
                    output.configured = true;
                    assert(self.outputs@ =~= before.update(
                        k as int,
                        OutputState { configured: true, ..before[k as int] },
                    ));
                },
                None => {},
            }
            i += 1;
        }
    }
}

} // verus!
