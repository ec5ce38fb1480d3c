//! The mathematics of the gallery cursor: where a cursor at `pos` in a list
//! of `len` entries lands after a move. Everything here is specification; the
//! navigator's methods are proved against it.

use vstd::prelude::*;

verus! {

/// A request to move the cursor one way or the other.
#[derive(Clone, Copy, Debug, PartialEq, Eq, Structural)]
pub enum Trigger {
    Advance,
    Retreat,
}

/// The cursor sits on neither the first nor the last entry.
pub open spec fn interior(len: nat, pos: nat) -> bool {
    0 < pos && pos + 1 < len
}

/// Moving forward by `step` from `pos` stays inside the list.
pub open spec fn within(len: nat, pos: nat, step: nat) -> bool {
    pos + step < len
}

/// Where a forward boundary jump lands: the second entry, or the only entry
/// of a list that has no second one.
pub open spec fn forward_jump(len: nat) -> nat {
    if len >= 2 {
        1
    } else {
        0
    }
}

/// Where a backward boundary jump lands: the last entry.
pub open spec fn backward_jump(len: nat) -> nat {
    if len >= 1 {
        (len - 1) as nat
    } else {
        0
    }
}

/// The cursor after one step forward: an interior cursor moves on by one, a
/// cursor on the first or the last entry jumps.
pub open spec fn forward(len: nat, pos: nat) -> nat {
    if interior(len, pos) {
        pos + 1
    } else {
        forward_jump(len)
    }
}

/// The cursor after one step backward: an interior cursor moves back by one,
/// a cursor on the first or the last entry jumps.
pub open spec fn backward(len: nat, pos: nat) -> nat {
    if interior(len, pos) {
        (pos - 1) as nat
    } else {
        backward_jump(len)
    }
}

/// The cursor after a forward move of `step` entries: an interior cursor
/// whose move stays inside the list moves by `step`; any other jumps as a
/// single step at a boundary does. A move that would leave the list does not
/// wrap through its end.
pub open spec fn forward_by(len: nat, pos: nat, step: nat) -> nat {
    if interior(len, pos) && within(len, pos, step) {
        pos + step
    } else {
        forward_jump(len)
    }
}

/// The cursor after a backward move of `step` entries, the mirror image of
/// [`forward_by`].
pub open spec fn backward_by(len: nat, pos: nat, step: nat) -> nat {
    if interior(len, pos) && step <= pos {
        (pos - step) as nat
    } else {
        backward_jump(len)
    }
}

/// The cursor after one single-step move in the direction of `trigger`.
pub open spec fn moved(len: nat, pos: nat, trigger: Trigger) -> nat {
    match trigger {
        Trigger::Advance => forward(len, pos),
        Trigger::Retreat => backward(len, pos),
    }
}

/// The cursor after `count` single-step moves, all in the direction of
/// `trigger`.
pub open spec fn moved_times(len: nat, pos: nat, trigger: Trigger, count: nat) -> nat
    decreases count,
{
    if count == 0 {
        pos
    } else {
        moved(len, moved_times(len, pos, trigger, (count - 1) as nat), trigger)
    }
}

/// The cursor after the single-step moves `triggers`, taken in order.
pub open spec fn moved_along(len: nat, pos: nat, triggers: Seq<Trigger>) -> nat
    decreases triggers.len(),
{
    if triggers.len() == 0 {
        pos
    } else {
        moved(len, moved_along(len, pos, triggers.drop_last()), triggers.last())
    }
}

/// From the first entry of a list of two or more, a step forward lands on
/// the second entry: the first entry is a boundary, and the step is a jump.
pub proof fn forward_from_first_is_second(len: nat)
    requires
        len >= 2,
    ensures
        forward(len, 0) == 1,
{
}

/// From an interior entry a step forward moves on by exactly one, and a step
/// backward moves back by exactly one.
pub proof fn interior_steps_move_by_one(len: nat, pos: nat)
    requires
        0 < pos,
        pos + 1 < len,
    ensures
        forward(len, pos) == pos + 1,
        backward(len, pos) == pos - 1,
{
}

/// From the last entry of a list of two or more, a step forward lands on the
/// second entry, not on the first.
pub proof fn forward_from_last_is_second(len: nat)
    requires
        len >= 2,
    ensures
        forward(len, (len - 1) as nat) == 1,
        forward(len, (len - 1) as nat) != 0,
{
}

/// From the first entry a step backward lands on the last entry.
pub proof fn backward_from_first_is_last(len: nat)
    requires
        len >= 1,
    ensures
        backward(len, 0) == len - 1,
{
}

/// From the last entry a step backward stays on the last entry.
pub proof fn backward_from_last_is_last(len: nat)
    requires
        len >= 1,
    ensures
        backward(len, (len - 1) as nat) == len - 1,
{
}

/// A single move, whatever its direction, leaves a cursor that was inside a
/// non-empty list inside it.
pub proof fn move_stays_inside(len: nat, pos: nat, trigger: Trigger)
    requires
        pos < len,
    ensures
        moved(len, pos, trigger) < len,
{
}

/// A paged move, whatever its direction and its step, leaves a cursor that
/// was inside a non-empty list inside it.
pub proof fn paged_move_stays_inside(len: nat, pos: nat, step: nat)
    requires
        pos < len,
    ensures
        forward_by(len, pos, step) < len,
        backward_by(len, pos, step) < len,
{
}

/// A paged move of one entry is the single step.
pub proof fn paged_move_of_one_is_step(len: nat, pos: nat)
    requires
        pos < len,
    ensures
        forward_by(len, pos, 1) == forward(len, pos),
        backward_by(len, pos, 1) == backward(len, pos),
{
}

/// A forward move that would pass the last entry lands where a forward jump
/// does, and a backward move that would pass the first entry lands on the
/// last entry: paged moves never wrap through an end of the list.
pub proof fn paged_move_past_end_jumps(len: nat, pos: nat, step: nat)
    requires
        pos < len,
    ensures
        pos + step >= len ==> forward_by(len, pos, step) == forward_jump(len),
        step > pos ==> backward_by(len, pos, step) == len - 1,
{
}

/// After any finite sequence of single-step moves, the cursor of a non-empty
/// list is still an index into the list.
pub proof fn moves_stay_inside(len: nat, pos: nat, triggers: Seq<Trigger>)
    requires
        pos < len,
    ensures
        moved_along(len, pos, triggers) < len,
    decreases triggers.len(),
{
    if triggers.len() > 0 {
        moves_stay_inside(len, pos, triggers.drop_last());
    }
}

/// After any number of single-step moves in one direction, the cursor of a
/// non-empty list is still an index into the list.
pub proof fn repeated_moves_stay_inside(len: nat, pos: nat, trigger: Trigger, count: nat)
    requires
        pos < len,
    ensures
        moved_times(len, pos, trigger, count) < len,
    decreases count,
{
    if count > 0 {
        repeated_moves_stay_inside(len, pos, trigger, (count - 1) as nat);
    }
}

/// Repeating one move `count` times is moving along `count` copies of it.
pub proof fn repeated_moves_are_a_sequence(len: nat, pos: nat, trigger: Trigger, count: nat)
    ensures
        moved_times(len, pos, trigger, count) == moved_along(
            len,
            pos,
            Seq::new(count, |i: int| trigger),
        ),
    decreases count,
{
    let all = Seq::new(count, |i: int| trigger);
    if count > 0 {
        let fewer = Seq::new((count - 1) as nat, |i: int| trigger);
        repeated_moves_are_a_sequence(len, pos, trigger, (count - 1) as nat);
        assert(all.drop_last() =~= fewer);
        assert(all.last() == trigger);
    }
}

/// In a list of one entry every sequence of single-step moves leaves the
/// cursor on that entry.
pub proof fn single_entry_never_moves(triggers: Seq<Trigger>)
    ensures
        moved_along(1, 0, triggers) == 0,
    decreases triggers.len(),
{
    if triggers.len() > 0 {
        single_entry_never_moves(triggers.drop_last());
    }
}

/// In a list of one entry paged moves, too, leave the cursor on that entry.
pub proof fn single_entry_never_pages(step: nat)
    ensures
        forward_by(1, 0, step) == 0,
        backward_by(1, 0, step) == 0,
{
}

} // verus!
