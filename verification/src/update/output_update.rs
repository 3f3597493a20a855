//! Layout geometry: moving, snapping and normalizing outputs. Everything is
//! computed over effective positions, so that snaps can be chained before
//! anything is saved, and every result goes into the overlay of pending
//! positions, never into the stored ones.

use vstd::prelude::*;
use crate::message::Message;
use crate::model::output::{stored_position, OutputState, OutputViewModel, Position, Size};
use crate::text::text_eq;

verus! {

/// The edge of the reference output against which an output is placed.
#[derive(Debug, Clone, Copy, PartialEq, Eq, Structural)]
pub enum SnapEdge {
    Left,
    Right,
    Above,
    Below,
}

/// Whether a coordinate can be stored in a position.
pub open spec fn fits(v: int) -> bool {
    i32::MIN <= v <= i32::MAX
}

/// Half of `d`, rounded toward zero.
pub open spec fn half(d: int) -> int {
    if d >= 0 {
        d / 2
    } else {
        -((-d) / 2)
    }
}

/// The horizontal coordinate of an output of size `mine` snapped to `edge`
/// of a reference output at `at` of size `size`.
pub open spec fn snap_x(edge: SnapEdge, at: Position, size: Size, mine: Size) -> int {
    match edge {
        SnapEdge::Left => at.x - mine.width,
        SnapEdge::Right => at.x + size.width,
        SnapEdge::Above | SnapEdge::Below => at.x + half(size.width - mine.width),
    }
}

/// The vertical coordinate of an output of size `mine` snapped to `edge` of
/// a reference output at `at` of size `size`.
pub open spec fn snap_y(edge: SnapEdge, at: Position, size: Size, mine: Size) -> int {
    match edge {
        SnapEdge::Left | SnapEdge::Right => at.y as int,
        SnapEdge::Above => at.y - mine.height,
        SnapEdge::Below => at.y + size.height,
    }
}

/// The position that a snap gives, where both coordinates can be stored.
pub open spec fn snap_target(edge: SnapEdge, at: Position, size: Size, mine: Size) -> Option<
    Position,
> {
    if fits(snap_x(edge, at, size, mine)) && fits(snap_y(edge, at, size, mine)) {
        Some(
            Position {
                x: snap_x(edge, at, size, mine) as i32,
                y: snap_y(edge, at, size, mine) as i32,
            },
        )
    } else {
        None
    }
}

fn position_from(x: i64, y: i64) -> (r: Option<Position>)
    ensures
        r == if fits(x as int) && fits(y as int) {
            Some(Position { x: x as i32, y: y as i32 })
        } else {
            None
        },
{
    if x < -2147483648 || x > 2147483647 || y < -2147483648 || y > 2147483647 {
        None
    } else {
        Some(Position { x: x as i32, y: y as i32 })
    }
}

/// Where an output of size `mine` lands when it is snapped to `edge` of a
/// reference output at `at` of size `size`: flush against that edge, with
/// top edges aligned for left and right, and centred horizontally for above
/// and below. `None` where a coordinate would not fit in a position.
pub fn snap_position(edge: SnapEdge, at: Position, size: Size, mine: Size) -> (r: Option<Position>)
    ensures
        r == snap_target(edge, at, size, mine),
{
    let d: i64 = size.width as i64 - mine.width as i64;
    let centred: i64 = if d >= 0 {
        d / 2
    } else {
        -((-d) / 2)
    };
    match edge {
        SnapEdge::Left => position_from(at.x as i64 - mine.width as i64, at.y as i64),
        SnapEdge::Right => position_from(at.x as i64 + size.width as i64, at.y as i64),
        SnapEdge::Above => position_from(at.x as i64 + centred, at.y as i64 - mine.height as i64),
        SnapEdge::Below => position_from(at.x as i64 + centred, at.y as i64 + size.height as i64),
    }
}

/// The index of the first output at or after `from` that is enabled and is
/// not called `moved`.
pub open spec fn reference_from(outputs: Seq<OutputState>, moved: Seq<char>, from: int) -> Option<
    int,
>
    decreases outputs.len() - from,
{
    if from < 0 || from >= outputs.len() {
        None
    } else if outputs[from].name@ != moved && outputs[from].enabled {
        Some(from)
    } else {
        reference_from(outputs, moved, from + 1)
    }
}

/// The reference output for a snap: effective position and size of the first
/// other enabled output. `None` where nothing is selected or no other output
/// is enabled.
pub open spec fn reference_monitor(vm: OutputViewModel) -> Option<(Position, Size)> {
    match vm.selected() {
        None => None,
        Some(moved) => match reference_from(vm.outputs@, moved.name@, 0) {
            Some(j) => Some((vm.effective(vm.outputs@[j]), vm.outputs@[j].logical_size)),
            None => None,
        },
    }
}

/// The smallest effective coordinate (horizontal if `horizontal`, else
/// vertical) among the enabled outputs before index `k`.
pub open spec fn enabled_min(vm: OutputViewModel, horizontal: bool, k: int) -> Option<int>
    decreases k,
{
    if k <= 0 || k > vm.outputs@.len() {
        None
    } else {
        let rest = enabled_min(vm, horizontal, k - 1);
        let o = vm.outputs@[k - 1];
        let p = vm.effective(o);
        let c: int = if horizontal {
            p.x as int
        } else {
            p.y as int
        };
        if !o.enabled {
            rest
        } else {
            match rest {
                Some(m) => Some(
                    if c < m {
                        c
                    } else {
                        m
                    },
                ),
                None => Some(c),
            }
        }
    }
}

/// Whether every enabled output before index `k` can be shifted by
/// `(-min_x, -min_y)`.
pub open spec fn shift_fits(vm: OutputViewModel, min_x: int, min_y: int, k: int) -> bool {
    forall|j: int|
        0 <= j < k && j < vm.outputs@.len() && (#[trigger] vm.outputs@[j]).enabled ==> fits(
            vm.effective(vm.outputs@[j]).x - min_x,
        ) && fits(vm.effective(vm.outputs@[j]).y - min_y)
}

/// The overlay after the enabled outputs before index `k` were given their
/// effective position shifted by `(-min_x, -min_y)`.
pub open spec fn shifted_overlay(vm: OutputViewModel, min_x: int, min_y: int, k: int) -> Map<
    Seq<char>,
    Position,
>
    decreases k,
{
    if k <= 0 || k > vm.outputs@.len() {
        vm.pending_changes@
    } else {
        let rest = shifted_overlay(vm, min_x, min_y, k - 1);
        let o = vm.outputs@[k - 1];
        let p = vm.effective(o);
        if o.enabled {
            rest.insert(o.name@, Position { x: (p.x - min_x) as i32, y: (p.y - min_y) as i32 })
        } else {
            rest
        }
    }
}

/// The overlay after normalizing: every enabled output shifted so that the
/// smallest effective coordinates among them become `(0, 0)`. Unchanged where
/// no output is enabled or a shifted coordinate would not fit.
pub open spec fn normalized(vm: OutputViewModel) -> Map<Seq<char>, Position> {
    let n = vm.outputs@.len() as int;
    match (enabled_min(vm, true, n), enabled_min(vm, false, n)) {
        (Some(min_x), Some(min_y)) => if shift_fits(vm, min_x, min_y, n) {
            shifted_overlay(vm, min_x, min_y, n)
        } else {
            vm.pending_changes@
        },
        _ => vm.pending_changes@,
    }
}

/// The overlay after the selected output was given `target`, if there is
/// both a selected output and a target.
pub open spec fn placed(vm: OutputViewModel, target: Option<Position>) -> Map<Seq<char>, Position> {
    match (vm.selected(), target) {
        (Some(o), Some(p)) => vm.pending_changes@.insert(o.name@, p),
        _ => vm.pending_changes@,
    }
}

/// The overlay after snapping the selected output to `edge` of the
/// reference output.
pub open spec fn snapped(vm: OutputViewModel, edge: SnapEdge) -> Map<Seq<char>, Position> {
    match (vm.selected(), reference_monitor(vm)) {
        (Some(o), Some((at, size))) => placed(vm, snap_target(edge, at, size, o.logical_size)),
        _ => vm.pending_changes@,
    }
}

/// The overlay after moving the selected output by `(dx, dy)` from its
/// pending position, or from its stored one where nothing is pending for it.
pub open spec fn moved(vm: OutputViewModel, dx: i32, dy: i32) -> Map<Seq<char>, Position> {
    match vm.selected() {
        Some(o) => {
            let from = if vm.pending_changes@.dom().contains(o.name@) {
                vm.pending_changes@[o.name@]
            } else {
                o.position
            };
            if fits(from.x + dx) && fits(from.y + dy) {
                vm.pending_changes@.insert(
                    o.name@,
                    Position { x: (from.x + dx) as i32, y: (from.y + dy) as i32 },
                )
            } else {
                vm.pending_changes@
            }
        },
        None => vm.pending_changes@,
    }
}

/// The overlay of pending positions after a message.
pub open spec fn pending_after(vm: OutputViewModel, message: Message) -> Map<Seq<char>, Position> {
    match message {
        Message::MoveOutput { dx, dy } => moved(vm, dx, dy),
        Message::SetPosition { x, y } => placed(vm, Some(Position { x, y })),
        Message::SnapLeft => snapped(vm, SnapEdge::Left),
        Message::SnapRight => snapped(vm, SnapEdge::Right),
        Message::SnapAbove => snapped(vm, SnapEdge::Above),
        Message::SnapBelow => snapped(vm, SnapEdge::Below),
        Message::Normalize => normalized(vm),
        _ => vm.pending_changes@,
    }
}

/// The selected index after a message.
pub open spec fn selected_after(vm: OutputViewModel, message: Message) -> int {
    let n = vm.outputs@.len() as int;
    let at = vm.selected_index as int;
    match message {
        Message::SelectNextOutput => if n == 0 {
            at
        } else {
            (at + 1) % n
        },
        Message::SelectPrevOutput => if n == 0 {
            at
        } else if at == 0 {
            n - 1
        } else {
            at - 1
        },
        Message::SelectOutput(i) => if i < n {
            i as int
        } else {
            at
        },
        _ => at,
    }
}

proof fn lemma_reference_from(outputs: Seq<OutputState>, moved: Seq<char>, from: int, k: int)
    requires
        0 <= from <= k <= outputs.len(),
        forall|j: int| from <= j < k ==> outputs[j].name@ == moved || !outputs[j].enabled,
        k == outputs.len() || (outputs[k].name@ != moved && outputs[k].enabled),
    ensures
        reference_from(outputs, moved, from) == if k == outputs.len() {
            None
        } else {
            Some(k)
        },
    decreases k - from,
{
    if from < k {
        lemma_reference_from(outputs, moved, from + 1, k);
    }
}

/// The effective position of the output at index `i`.
fn effective_at(view_model: &OutputViewModel, i: usize) -> (r: Position)
    requires
        i < view_model.outputs@.len(),
    ensures
        r == view_model.effective(view_model.outputs@[i as int]),
{
    match view_model.get_display_position(view_model.outputs[i].name.as_str()) {
        Some(p) => p,
        None => view_model.outputs[i].position,
    }
}

/// The reference output for snap operations: effective position and size of
/// the first other enabled output.
pub fn get_reference_monitor(view_model: &OutputViewModel) -> (r: Option<(Position, Size)>)
    ensures
        r == reference_monitor(*view_model),
{
    if view_model.selected_index >= view_model.outputs.len() {
        return None;
    }
    let sel = view_model.selected_index;
    let mut i: usize = 0;
    while i < view_model.outputs.len()
        invariant
            i <= view_model.outputs.len(),
            sel == view_model.selected_index,
            sel < view_model.outputs.len(),
            forall|j: int|
                0 <= j < i ==> view_model.outputs@[j].name@ == view_model.outputs@[sel as int].name@
                    || !view_model.outputs@[j].enabled,
        decreases view_model.outputs.len() - i,
    {
        if view_model.outputs[i].enabled && !text_eq(
            view_model.outputs[i].name.as_str(),
            view_model.outputs[sel].name.as_str(),
        ) {
            proof {
                lemma_reference_from(
                    view_model.outputs@,
                    view_model.outputs@[sel as int].name@,
                    0,
                    i as int,
                );
            }
            return Some((effective_at(view_model, i), view_model.outputs[i].logical_size));
        }
        i += 1;
    }
    proof {
        lemma_reference_from(
            view_model.outputs@,
            view_model.outputs@[sel as int].name@,
            0,
            view_model.outputs@.len() as int,
        );
    }
    None
}

/// Gives the selected output the pending position `target`, where there is
/// a selected output and a target.
fn place(view_model: &mut OutputViewModel, target: Option<Position>)
    ensures
        final(view_model).pending_changes@ == placed(*old(view_model), target),
        final(view_model).outputs == old(view_model).outputs,
        final(view_model).selected_index == old(view_model).selected_index,
{
    if view_model.selected_index < view_model.outputs.len() {
        match target {
            Some(p) => {
                let name = view_model.outputs[view_model.selected_index].name.clone();
                view_model.apply_pending_change(name.as_str(), p);
            },
            None => {},
        }
    }
}

fn snap(view_model: &mut OutputViewModel, edge: SnapEdge)
    ensures
        final(view_model).pending_changes@ == snapped(*old(view_model), edge),
        final(view_model).outputs == old(view_model).outputs,
        final(view_model).selected_index == old(view_model).selected_index,
{
    if view_model.selected_index < view_model.outputs.len() {
        match get_reference_monitor(view_model) {
            Some((at, size)) => {
                let mine = view_model.outputs[view_model.selected_index].logical_size;
                place(view_model, snap_position(edge, at, size, mine));
            },
            None => {},
        }
    }
}

fn smallest(view_model: &OutputViewModel, horizontal: bool) -> (r: Option<i32>)
    ensures
        match r {
            Some(m) => enabled_min(*view_model, horizontal, view_model.outputs@.len() as int)
                == Some(m as int),
            None => enabled_min(*view_model, horizontal, view_model.outputs@.len() as int) is None,
        },
{
    let mut min: Option<i32> = None;
    let mut i: usize = 0;
    while i < view_model.outputs.len()
        invariant
            i <= view_model.outputs.len(),
            match min {
                Some(m) => enabled_min(*view_model, horizontal, i as int) == Some(m as int),
                None => enabled_min(*view_model, horizontal, i as int) is None,
            },
        decreases view_model.outputs.len() - i,
    {
        if view_model.outputs[i].enabled {
            let p = effective_at(view_model, i);
            let c = if horizontal {
                p.x
            } else {
                p.y
            };
            min = match min {
                Some(m) => Some(
                    if c < m {
                        c
                    } else {
                        m
                    },
                ),
                None => Some(c),
            };
        }
        i += 1;
    }
    min
}

fn normalize(view_model: &mut OutputViewModel)
    ensures
        final(view_model).pending_changes@ == normalized(*old(view_model)),
        final(view_model).outputs == old(view_model).outputs,
        final(view_model).selected_index == old(view_model).selected_index,
{
    let (min_x, min_y) = match (smallest(view_model, true), smallest(view_model, false)) {
        (Some(x), Some(y)) => (x, y),
        _ => {
            return ;
        },
    };
    let n = view_model.outputs.len();
    // Collect the targets first: they are all computed over the overlay as it
    // stands now, and nothing is changed unless every one of them fits.
    let mut targets: Vec<Option<Position>> = Vec::new();
    let mut i: usize = 0;
    while i < n
        invariant
            i <= n,
            n == view_model.outputs@.len(),
            *view_model == *old(view_model),
            enabled_min(*view_model, true, n as int) == Some(min_x as int),
            enabled_min(*view_model, false, n as int) == Some(min_y as int),
            targets@.len() == i,
            shift_fits(*view_model, min_x as int, min_y as int, i as int),
            forall|j: int|
                0 <= j < i ==> #[trigger] targets@[j] == if view_model.outputs@[j].enabled {
                    Some(
                        Position {
                            x: (view_model.effective(view_model.outputs@[j]).x - min_x) as i32,
                            y: (view_model.effective(view_model.outputs@[j]).y - min_y) as i32,
                        },
                    )
                } else {
                    None
                },
        decreases n - i,
    {
        if view_model.outputs[i].enabled {
            let p = effective_at(view_model, i);
            match position_from(p.x as i64 - min_x as i64, p.y as i64 - min_y as i64) {
                Some(t) => {
                    targets.push(Some(t));
                },
                None => {
                    assert(!shift_fits(*view_model, min_x as int, min_y as int, n as int)) by {
                        assert(view_model.outputs@[i as int].enabled);
                    }
                    return ;
                },
            }
        } else {
            targets.push(None);
        }
        i += 1;
    }
    let ghost before = *view_model;
    let mut k: usize = 0;
    while k < n
        invariant
            k <= n,
            n == before.outputs@.len(),
            targets@.len() == n,
            view_model.outputs == before.outputs,
            view_model.selected_index == before.selected_index,
            view_model.pending_changes@ == shifted_overlay(before, min_x as int, min_y as int, k as int),
            forall|j: int|
                0 <= j < n ==> #[trigger] targets@[j] == if before.outputs@[j].enabled {
                    Some(
                        Position {
                            x: (before.effective(before.outputs@[j]).x - min_x) as i32,
                            y: (before.effective(before.outputs@[j]).y - min_y) as i32,
                        },
                    )
                } else {
                    None
                },
        decreases n - k,
    {
        match targets[k] {
            Some(t) => {
                let name = view_model.outputs[k].name.clone();
                view_model.apply_pending_change(name.as_str(), t);
            },
            None => {},
        }
        k += 1;
    }
}

fn move_by(view_model: &mut OutputViewModel, dx: i32, dy: i32)
    ensures
        final(view_model).pending_changes@ == moved(*old(view_model), dx, dy),
        final(view_model).outputs == old(view_model).outputs,
        final(view_model).selected_index == old(view_model).selected_index,
{
    if view_model.selected_index < view_model.outputs.len() {
        let name = view_model.outputs[view_model.selected_index].name.clone();
        let from = match view_model.pending_changes.get(name.as_str()) {
            Some(p) => p,
            None => view_model.outputs[view_model.selected_index].position,
        };
        match position_from(from.x as i64 + dx as i64, from.y as i64 + dy as i64) {
            Some(p) => {
                view_model.apply_pending_change(name.as_str(), p);
            },
            None => {},
        }
    }
}

/// Handles the messages that concern outputs: selection, moving, snapping
/// and normalizing. Stored positions are never touched; every new position
/// goes into the overlay. A position that would not fit in 32 bits is not
/// recorded. No message asks for a follow-up.
pub fn update_output(view_model: &mut OutputViewModel, message: &Message) -> (r: Option<Message>)
    ensures
        r is None,
        final(view_model).outputs == old(view_model).outputs,
        final(view_model).pending_changes@ == pending_after(*old(view_model), *message),
        final(view_model).selected_index == selected_after(*old(view_model), *message),
{
    match message {
        Message::SelectNextOutput => {
            view_model.select_next();
        },
        Message::SelectPrevOutput => {
            view_model.select_prev();
        },
        Message::SelectOutput(idx) => {
            if *idx < view_model.outputs.len() {
                view_model.selected_index = *idx;
            }
        },
        Message::MoveOutput { dx, dy } => {
            move_by(view_model, *dx, *dy);
        },
        Message::SetPosition { x, y } => {
            place(view_model, Some(Position::new(*x, *y)));
        },
        Message::SnapLeft => {
            snap(view_model, SnapEdge::Left);
        },
        Message::SnapRight => {
            snap(view_model, SnapEdge::Right);
        },
        Message::SnapAbove => {
            snap(view_model, SnapEdge::Above);
        },
        Message::SnapBelow => {
            snap(view_model, SnapEdge::Below);
        },
        Message::Normalize => {
            normalize(view_model);
        },
        _ => {},
    }
    None
}

/// The largest far edge (right if `horizontal`, else bottom) among the
/// enabled outputs before index `k`, over effective positions.
pub open spec fn enabled_max(vm: OutputViewModel, horizontal: bool, k: int) -> Option<int>
    decreases k,
{
    if k <= 0 || k > vm.outputs@.len() {
        None
    } else {
        let rest = enabled_max(vm, horizontal, k - 1);
        let o = vm.outputs@[k - 1];
        let p = vm.effective(o);
        let c: int = if horizontal {
            p.x + o.logical_size.width
        } else {
            p.y + o.logical_size.height
        };
        if !o.enabled {
            rest
        } else {
            match rest {
                Some(m) => Some(
                    if c > m {
                        c
                    } else {
                        m
                    },
                ),
                None => Some(c),
            }
        }
    }
}

/// The bounding box of the enabled outputs over their effective positions:
/// left, top, right and bottom. There is none where no output is enabled.
pub fn bounding_box(view_model: &OutputViewModel) -> (r: Option<(i64, i64, i64, i64)>)
    ensures
        match r {
            Some((left, top, right, bottom)) => {
                let n = view_model.outputs@.len() as int;
                &&& enabled_min(*view_model, true, n) == Some(left as int)
                &&& enabled_min(*view_model, false, n) == Some(top as int)
                &&& enabled_max(*view_model, true, n) == Some(right as int)
                &&& enabled_max(*view_model, false, n) == Some(bottom as int)
            },
            None => enabled_min(*view_model, true, view_model.outputs@.len() as int) is None,
        },
{
    let mut bounds: Option<(i64, i64, i64, i64)> = None;
    let mut i: usize = 0;
    while i < view_model.outputs.len()
        invariant
            i <= view_model.outputs.len(),
            match bounds {
                Some((left, top, right, bottom)) => {
                    &&& enabled_min(*view_model, true, i as int) == Some(left as int)
                    &&& enabled_min(*view_model, false, i as int) == Some(top as int)
                    &&& enabled_max(*view_model, true, i as int) == Some(right as int)
                    &&& enabled_max(*view_model, false, i as int) == Some(bottom as int)
                    &&& i32::MIN <= left <= i32::MAX
                    &&& i32::MIN <= top <= i32::MAX
                    &&& i32::MIN <= right <= i32::MAX + u32::MAX
                    &&& i32::MIN <= bottom <= i32::MAX + u32::MAX
                },
                None => {
                    &&& enabled_min(*view_model, true, i as int) is None
                    &&& enabled_min(*view_model, false, i as int) is None
                    &&& enabled_max(*view_model, true, i as int) is None
                    &&& enabled_max(*view_model, false, i as int) is None
                },
            },
        decreases view_model.outputs.len() - i,
    {
        if view_model.outputs[i].enabled {
            let p = effective_at(view_model, i);
            let size = view_model.outputs[i].logical_size;
            let x = p.x as i64;
            let y = p.y as i64;
            let far_x = p.x as i64 + size.width as i64;
            let far_y = p.y as i64 + size.height as i64;
            bounds = match bounds {
                Some((left, top, right, bottom)) => Some(
                    (
                        if x < left {
                            x
                        } else {
                            left
                        },
                        if y < top {
                            y
                        } else {
                            top
                        },
                        if far_x > right {
                            far_x
                        } else {
                            right
                        },
                        if far_y > bottom {
                            far_y
                        } else {
                            bottom
                        },
                    ),
                ),
                None => Some((x, y, far_x, far_y)),
            };
        }
        i += 1;
    }
    bounds
}

/// An enabled output before index `k` has this name.
pub open spec fn enabled_named(vm: OutputViewModel, name: Seq<char>, k: int) -> bool {
    exists|j: int|
        0 <= j < k && j < vm.outputs@.len() && (#[trigger] vm.outputs@[j]).enabled
            && vm.outputs@[j].name@ == name
}

/// A position shifted by `(-min_x, -min_y)`.
pub open spec fn shifted(p: Position, min_x: int, min_y: int) -> Position {
    Position { x: (p.x - min_x) as i32, y: (p.y - min_y) as i32 }
}

proof fn lemma_stored_some(outputs: Seq<OutputState>, name: Seq<char>, j: int)
    requires
        0 <= j < outputs.len(),
        outputs[j].name@ == name,
    ensures
        stored_position(outputs, name) is Some,
    decreases outputs.len(),
{
    if outputs[0].name@ != name {
        let rest = outputs.drop_first();
        assert(rest[j - 1] == outputs[j]);
        lemma_stored_some(rest, name, j - 1);
    }
}

/// The effective position of an output of the list depends on its name
/// alone.
proof fn lemma_effective_by_name(vm: OutputViewModel, i: int, j: int)
    requires
        0 <= i < vm.outputs@.len(),
        0 <= j < vm.outputs@.len(),
        vm.outputs@[i].name@ == vm.outputs@[j].name@,
    ensures
        vm.effective(vm.outputs@[i]) == vm.effective(vm.outputs@[j]),
{
    lemma_stored_some(vm.outputs@, vm.outputs@[i].name@, i);
}

proof fn lemma_shifted_overlay(vm: OutputViewModel, min_x: int, min_y: int, k: int)
    requires
        0 <= k <= vm.outputs@.len(),
    ensures
        forall|name: Seq<char>| #[trigger]
            shifted_overlay(vm, min_x, min_y, k).dom().contains(name) <==> enabled_named(
                vm,
                name,
                k,
            ) || vm.pending_changes@.dom().contains(name),
        forall|name: Seq<char>|
            !enabled_named(vm, name, k) && vm.pending_changes@.dom().contains(name)
                ==> #[trigger] shifted_overlay(vm, min_x, min_y, k)[name]
                == vm.pending_changes@[name],
        forall|j: int|
            0 <= j < k && (#[trigger] vm.outputs@[j]).enabled ==> shifted_overlay(
                vm,
                min_x,
                min_y,
                k,
            )[vm.outputs@[j].name@] == shifted(vm.effective(vm.outputs@[j]), min_x, min_y),
    decreases k,
{
    if k > 0 {
        lemma_shifted_overlay(vm, min_x, min_y, k - 1);
        let before = shifted_overlay(vm, min_x, min_y, k - 1);
        let after = shifted_overlay(vm, min_x, min_y, k);
        let o = vm.outputs@[k - 1];
        assert forall|name: Seq<char>| #[trigger]
            after.dom().contains(name) <==> enabled_named(vm, name, k)
                || vm.pending_changes@.dom().contains(name) by {
            if enabled_named(vm, name, k - 1) {
                let j = choose|j: int|
                    0 <= j < k - 1 && j < vm.outputs@.len() && (#[trigger] vm.outputs@[j]).enabled
                        && vm.outputs@[j].name@ == name;
                assert(vm.outputs@[j].enabled);
            }
            if o.enabled && o.name@ == name {
                assert(vm.outputs@[k - 1].enabled);
            }
            if enabled_named(vm, name, k) {
                let j = choose|j: int|
                    0 <= j < k && j < vm.outputs@.len() && (#[trigger] vm.outputs@[j]).enabled
                        && vm.outputs@[j].name@ == name;
                if j < k - 1 {
                    assert(vm.outputs@[j].enabled);
                    assert(enabled_named(vm, name, k - 1));
                }
            }
        }
        assert forall|name: Seq<char>|
            !enabled_named(vm, name, k) && vm.pending_changes@.dom().contains(
                name,
            ) implies #[trigger] after[name] == vm.pending_changes@[name] by {
            if enabled_named(vm, name, k - 1) {
                let j = choose|j: int|
                    0 <= j < k - 1 && j < vm.outputs@.len() && (#[trigger] vm.outputs@[j]).enabled
                        && vm.outputs@[j].name@ == name;
                assert(vm.outputs@[j].enabled);
            }
            if o.enabled && o.name@ == name {
                assert(vm.outputs@[k - 1].enabled);
            }
        }
        assert forall|j: int| 0 <= j < k && (#[trigger] vm.outputs@[j]).enabled implies after[vm.outputs@[j].name@]
            == shifted(vm.effective(vm.outputs@[j]), min_x, min_y) by {
            if o.enabled && o.name@ == vm.outputs@[j].name@ {
                lemma_effective_by_name(vm, j, k - 1);
            }
        }
    }
}

proof fn lemma_enabled_min(vm: OutputViewModel, horizontal: bool, k: int)
    requires
        0 <= k <= vm.outputs@.len(),
    ensures
        match enabled_min(vm, horizontal, k) {
            Some(m) => (exists|j: int|
                0 <= j < k && (#[trigger] vm.outputs@[j]).enabled && coordinate_of(
                    vm.effective(vm.outputs@[j]),
                    horizontal,
                ) == m) && forall|j: int|
                0 <= j < k && (#[trigger] vm.outputs@[j]).enabled ==> coordinate_of(
                    vm.effective(vm.outputs@[j]),
                    horizontal,
                ) >= m,
            None => forall|j: int| 0 <= j < k ==> !(#[trigger] vm.outputs@[j]).enabled,
        },
    decreases k,
{
    if k > 0 {
        lemma_enabled_min(vm, horizontal, k - 1);
        let o = vm.outputs@[k - 1];
        if o.enabled {
            let c = coordinate_of(vm.effective(o), horizontal);
            match enabled_min(vm, horizontal, k - 1) {
                Some(m) => {
                    if c < m {
                        assert(vm.outputs@[k - 1].enabled);
                    } else {
                        let j = choose|j: int|
                            0 <= j < k - 1 && (#[trigger] vm.outputs@[j]).enabled && coordinate_of(
                                vm.effective(vm.outputs@[j]),
                                horizontal,
                            ) == m;
                        assert(vm.outputs@[j].enabled);
                    }
                },
                None => {
                    assert(vm.outputs@[k - 1].enabled);
                },
            }
        } else {
            match enabled_min(vm, horizontal, k - 1) {
                Some(m) => {
                    let j = choose|j: int|
                        0 <= j < k - 1 && (#[trigger] vm.outputs@[j]).enabled && coordinate_of(
                            vm.effective(vm.outputs@[j]),
                            horizontal,
                        ) == m;
                    assert(vm.outputs@[j].enabled);
                },
                None => {},
            }
        }
    }
}

/// One coordinate of a position.
pub open spec fn coordinate_of(p: Position, horizontal: bool) -> int {
    if horizontal {
        p.x as int
    } else {
        p.y as int
    }
}

/// What normalizing does, where some output is enabled and every shifted
/// coordinate fits: every enabled output is shown at its former effective
/// position shifted by the smallest effective coordinates among the enabled
/// outputs, so that none of them is shown left of or above the origin and
/// the corner of their bounding box is at `(0, 0)`; a disabled output that
/// shares its name with no enabled one is shown where it was.
pub proof fn lemma_normalize(vm: OutputViewModel, after: OutputViewModel, min_x: int, min_y: int)
    requires
        after.outputs == vm.outputs,
        after.pending_changes@ == normalized(vm),
        enabled_min(vm, true, vm.outputs@.len() as int) == Some(min_x),
        enabled_min(vm, false, vm.outputs@.len() as int) == Some(min_y),
        shift_fits(vm, min_x, min_y, vm.outputs@.len() as int),
    ensures
        forall|j: int|
            0 <= j < vm.outputs@.len() && (#[trigger] vm.outputs@[j]).enabled ==> after.effective(
                vm.outputs@[j],
            ) == shifted(vm.effective(vm.outputs@[j]), min_x, min_y) && after.effective(
                vm.outputs@[j],
            ).x == vm.effective(vm.outputs@[j]).x - min_x >= 0 && after.effective(
                vm.outputs@[j],
            ).y == vm.effective(vm.outputs@[j]).y - min_y >= 0,
        exists|j: int|
            0 <= j < vm.outputs@.len() && (#[trigger] vm.outputs@[j]).enabled && after.effective(
                vm.outputs@[j],
            ).x == 0,
        exists|j: int|
            0 <= j < vm.outputs@.len() && (#[trigger] vm.outputs@[j]).enabled && after.effective(
                vm.outputs@[j],
            ).y == 0,
        forall|j: int|
            0 <= j < vm.outputs@.len() && !(#[trigger] vm.outputs@[j]).enabled && !enabled_named(
                vm,
                vm.outputs@[j].name@,
                vm.outputs@.len() as int,
            ) ==> after.effective(vm.outputs@[j]) == vm.effective(vm.outputs@[j]),
{
    let n = vm.outputs@.len() as int;
    lemma_shifted_overlay(vm, min_x, min_y, n);
    lemma_enabled_min(vm, true, n);
    lemma_enabled_min(vm, false, n);
    assert forall|j: int| 0 <= j < n && (#[trigger] vm.outputs@[j]).enabled implies after.effective(
        vm.outputs@[j],
    ) == shifted(vm.effective(vm.outputs@[j]), min_x, min_y) && after.effective(vm.outputs@[j]).x
        == vm.effective(vm.outputs@[j]).x - min_x >= 0 && after.effective(vm.outputs@[j]).y
        == vm.effective(vm.outputs@[j]).y - min_y >= 0 by {
        assert(enabled_named(vm, vm.outputs@[j].name@, n));
        assert(coordinate_of(vm.effective(vm.outputs@[j]), true) >= min_x);
        assert(coordinate_of(vm.effective(vm.outputs@[j]), false) >= min_y);
    }
    let jx = choose|j: int|
        0 <= j < n && (#[trigger] vm.outputs@[j]).enabled && coordinate_of(
            vm.effective(vm.outputs@[j]),
            true,
        ) == min_x;
    assert(vm.outputs@[jx].enabled && after.effective(vm.outputs@[jx]).x == 0);
    let jy = choose|j: int|
        0 <= j < n && (#[trigger] vm.outputs@[j]).enabled && coordinate_of(
            vm.effective(vm.outputs@[j]),
            false,
        ) == min_y;
    assert(vm.outputs@[jy].enabled && after.effective(vm.outputs@[jy]).y == 0);
    assert forall|j: int|
        0 <= j < n && !(#[trigger] vm.outputs@[j]).enabled && !enabled_named(
            vm,
            vm.outputs@[j].name@,
            n,
        ) implies after.effective(vm.outputs@[j]) == vm.effective(vm.outputs@[j]) by {
        let name = vm.outputs@[j].name@;
        if vm.pending_changes@.dom().contains(name) {
            assert(after.pending_changes@[name] == vm.pending_changes@[name]);
        }
    }
}

} // verus!
