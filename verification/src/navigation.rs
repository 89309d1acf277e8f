//! Moving a cursor over a row of cells numbered from 0 to `last`.
//!
//! A single step moves one cell. A halving jump covers half of what is left
//! to one end of the row: towards the start the new position is rounded
//! down, towards the end the distance covered is rounded up, so that
//! repeated jumps arrive at the end itself.

use vstd::prelude::*;
use crate::gamepad::GamepadMessage;

verus! {

/// Index of the last cell of the letter row.
pub const LAST_LETTER: usize = 25;

/// Jumps that bring the cursor from any cell of the letter row to either end.
pub const MAX_JUMPS: usize = 5;

pub open spec fn min_int(a: int, b: int) -> int {
    if a <= b { a } else { b }
}

pub open spec fn max_int(a: int, b: int) -> int {
    if a >= b { a } else { b }
}

/// `v` brought into the row: no less than 0 and no more than `last`.
pub open spec fn clamp_spec(v: int, last: int) -> int {
    max_int(0, min_int(last, v))
}

/// Half of the distance `d`, rounded up.
pub open spec fn half_up(d: int) -> int {
    (d + 1) / 2
}

pub open spec fn step_left_spec(p: int, last: int) -> int {
    clamp_spec(p - 1, last)
}

pub open spec fn step_right_spec(p: int, last: int) -> int {
    clamp_spec(p + 1, last)
}

pub open spec fn halve_left_spec(p: int, last: int) -> int {
    clamp_spec(p / 2, last)
}

pub open spec fn halve_right_spec(p: int, last: int) -> int {
    clamp_spec(p + half_up(last - p), last)
}

/// The position after `action`, from position `p` on a row that ends at
/// `last`. Actions that do not move the cursor leave `p` as it is.
pub open spec fn apply_spec(p: int, action: GamepadMessage, last: int) -> int {
    match action {
        GamepadMessage::OneLeft => step_left_spec(p, last),
        GamepadMessage::OneRight => step_right_spec(p, last),
        GamepadMessage::HalvingLeft => halve_left_spec(p, last),
        GamepadMessage::HalvingRight => halve_right_spec(p, last),
        _ => p,
    }
}

/// The position after `action` was applied `n` times in a row.
pub open spec fn apply_times(p: int, action: GamepadMessage, last: int, n: nat) -> int
    decreases n,
{
    if n == 0 {
        p
    } else {
        apply_times(apply_spec(p, action, last), action, last, (n - 1) as nat)
    }
}

/// The cell one jump to the left of `position`.
pub fn halve_left(position: usize, last: usize) -> (r: usize)
    ensures
        r == halve_left_spec(position as int, last as int),
{
    let half: usize = position / 2;
    if half > last { last } else { half }
}

/// The cell one jump to the right of `position`.
pub fn halve_right(position: usize, last: usize) -> (r: usize)
    ensures
        r == halve_right_spec(position as int, last as int),
{
    if position >= last {
        last
    } else {
        let rest: usize = last - position;
        let jump: usize = rest / 2 + rest % 2;
        position + jump
    }
}

/// Moves the cursor. A position beyond the row does not fail: the moves
/// bring their result back into the row.
pub fn apply(position: usize, action: GamepadMessage, last: usize) -> (r: usize)
    ensures
        r == apply_spec(position as int, action, last as int),
        action.moves_cursor() || position <= last ==> r <= last,
{
    match action {
        GamepadMessage::OneLeft => {
            if position == 0 {
                0
            } else if position - 1 > last {
                last
            } else {
                position - 1
            }
        },
        GamepadMessage::OneRight => {
            if position >= last { last } else { position + 1 }
        },
        GamepadMessage::HalvingLeft => halve_left(position, last),
        GamepadMessage::HalvingRight => halve_right(position, last),
        _ => position,
    }
}

/// The two cells that a halving jump from `position` would reach: the left
/// one first. They are the cells that `apply` moves to.
pub fn next_halving_targets(position: usize, last: usize) -> (r: (usize, usize))
    ensures
        r.0 == apply_spec(position as int, GamepadMessage::HalvingLeft, last as int),
        r.1 == apply_spec(position as int, GamepadMessage::HalvingRight, last as int),
{
    (halve_left(position, last), halve_right(position, last))
}

/// A step to the left and then a step to the right ends where it began,
/// from every cell of the row but the first.
pub proof fn lemma_step_left_then_right(p: int, last: int)
    requires
        0 < p <= last,
    ensures
        apply_spec(apply_spec(p, GamepadMessage::OneLeft, last), GamepadMessage::OneRight, last)
            == p,
{
}

/// A step to the right and then a step to the left ends where it began,
/// from every cell of the row but the last.
pub proof fn lemma_step_right_then_left(p: int, last: int)
    requires
        0 <= p < last,
    ensures
        apply_spec(apply_spec(p, GamepadMessage::OneRight, last), GamepadMessage::OneLeft, last)
            == p,
{
}

/// Every move from a cell of the row ends on a cell of the row.
pub proof fn lemma_apply_stays_in_row(p: int, action: GamepadMessage, last: int)
    requires
        0 <= p <= last,
    ensures
        0 <= apply_spec(p, action, last) <= last,
{
}

/// A jump to the left from any cell but the first ends strictly nearer to
/// the start, at half the position, and the first cell stays where it is.
pub proof fn lemma_halve_left_descends(p: int, last: int)
    requires
        0 <= p <= last,
    ensures
        apply_spec(p, GamepadMessage::HalvingLeft, last) == p / 2,
        p > 0 ==> apply_spec(p, GamepadMessage::HalvingLeft, last) < p,
        p == 0 ==> apply_spec(p, GamepadMessage::HalvingLeft, last) == 0,
{
}

/// A jump to the right from any cell but the last ends strictly nearer to
/// the end, and halves the distance that is left, rounded down. The last
/// cell stays where it is.
pub proof fn lemma_halve_right_ascends(p: int, last: int)
    requires
        0 <= p <= last,
    ensures
        last - apply_spec(p, GamepadMessage::HalvingRight, last) == (last - p) / 2,
        p < last ==> apply_spec(p, GamepadMessage::HalvingRight, last) > p,
        p == last ==> apply_spec(p, GamepadMessage::HalvingRight, last) == last,
{
}

/// Two to the power `n`.
pub open spec fn pow2(n: nat) -> int
    decreases n,
{
    if n == 0 { 1 } else { 2 * pow2((n - 1) as nat) }
}

/// On a row of any length, `n` jumps to the left reach the first cell from
/// every cell below two to the power `n`.
pub proof fn lemma_halve_left_reaches_start(p: int, last: int, n: nat)
    requires
        0 <= p <= last,
        p < pow2(n),
    ensures
        apply_times(p, GamepadMessage::HalvingLeft, last, n) == 0,
    decreases n,
{
    if n > 0 {
        lemma_halve_left_descends(p, last);
        lemma_halve_left_reaches_start(p / 2, last, (n - 1) as nat);
    }
}

/// On a row of any length, `n` jumps to the right reach the last cell from
/// every cell less than two to the power `n` away from it.
pub proof fn lemma_halve_right_reaches_end(p: int, last: int, n: nat)
    requires
        0 <= p <= last,
        last - p < pow2(n),
    ensures
        apply_times(p, GamepadMessage::HalvingRight, last, n) == last,
    decreases n,
{
    if n > 0 {
        lemma_halve_right_ascends(p, last);
        lemma_halve_right_reaches_end(
            apply_spec(p, GamepadMessage::HalvingRight, last),
            last,
            (n - 1) as nat,
        );
    }
}

/// On the letter row, five jumps to the left reach the first letter from
/// every letter.
pub proof fn lemma_letters_halve_left(p: int)
    requires
        0 <= p <= LAST_LETTER,
    ensures
        apply_times(p, GamepadMessage::HalvingLeft, LAST_LETTER as int, MAX_JUMPS as nat) == 0,
{
    assert(pow2(5) == 32) by {
        reveal_with_fuel(pow2, 6);
    }
    lemma_halve_left_reaches_start(p, LAST_LETTER as int, 5);
}

/// On the letter row, five jumps to the right reach the last letter from
/// every letter.
pub proof fn lemma_letters_halve_right(p: int)
    requires
        0 <= p <= LAST_LETTER,
    ensures
        apply_times(p, GamepadMessage::HalvingRight, LAST_LETTER as int, MAX_JUMPS as nat)
            == LAST_LETTER,
{
    assert(pow2(5) == 32) by {
        reveal_with_fuel(pow2, 6);
    }
    lemma_halve_right_reaches_end(p, LAST_LETTER as int, 5);
}

} // verus!
