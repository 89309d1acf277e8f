//! The list of recent strokes that the keyboard shows.

use vstd::prelude::*;
use crate::gamepad::GamepadMessage;

verus! {

/// How long a stroke stays on display, in milliseconds.
pub const KEPT_MILLIS: u64 = 1000;

/// How many strokes stay on display at most.
pub const KEPT_STROKES: usize = 5;

/// An action and the time at which it arrived, in milliseconds.
#[derive(Debug, Clone, Copy, PartialEq, Eq, Structural)]
pub struct Stroke {
    pub message: GamepadMessage,
    pub at: u64,
}

/// Whether a stroke that arrived at `at` is still shown at `now`: it is no
/// older than `KEPT_MILLIS`.
pub open spec fn is_fresh(at: u64, now: u64) -> bool {
    now - at <= KEPT_MILLIS
}

/// The test that `is_fresh` makes at `now`, as a predicate on strokes.
pub open spec fn fresh_at(now: u64) -> spec_fn(Stroke) -> bool {
    |s: Stroke| is_fresh(s.at, now)
}

/// The last `n` of `strokes`, or all of them where they are fewer.
pub open spec fn newest(strokes: Seq<Stroke>, n: nat) -> Seq<Stroke> {
    if strokes.len() <= n {
        strokes
    } else {
        strokes.skip(strokes.len() - n)
    }
}

/// The strokes shown at `now`: those that are still fresh, in their order,
/// and of these the last `KEPT_STROKES`.
pub open spec fn pruned(strokes: Seq<Stroke>, now: u64) -> Seq<Stroke> {
    newest(strokes.filter(fresh_at(now)), KEPT_STROKES as nat)
}

fn fresh(at: u64, now: u64) -> (r: bool)
    ensures
        r == is_fresh(at, now),
{
    at >= now || now - at <= KEPT_MILLIS
}

/// Drops the strokes that are no longer shown at `now`.
pub fn prune(strokes: &mut Vec<Stroke>, now: u64)
    ensures
        final(strokes)@ == pruned(old(strokes)@, now),
        final(strokes)@.len() <= KEPT_STROKES,
{
    let ghost before = strokes@;
    let mut kept: Vec<Stroke> = Vec::new();
    let mut i: usize = 0;
    while i < strokes.len()
        invariant
            i <= strokes.len(),
            strokes@ == before,
            kept@ == before.take(i as int).filter(fresh_at(now)),
        decreases strokes.len() - i,
    {
        let stroke = strokes[i];
        proof {
            reveal(Seq::filter);
            assert(before.take(i + 1).drop_last() =~= before.take(i as int));
        }
        if fresh(stroke.at, now) {
            kept.push(stroke);
        }
        i += 1;
    }
    proof {
        assert(before.take(i as int) =~= before);
    }
    if kept.len() > KEPT_STROKES {
        let from: usize = kept.len() - KEPT_STROKES;
        let tail = kept.split_off(from);
        proof {
            assert(tail@ =~= newest(before.filter(fresh_at(now)), KEPT_STROKES as nat));
        }
        *strokes = tail;
    } else {
        *strokes = kept;
    }
}

proof fn lemma_filter_keeps_all(strokes: Seq<Stroke>, now: u64)
    requires
        forall|i: int| 0 <= i < strokes.len() ==> is_fresh(#[trigger] strokes[i].at, now),
    ensures
        strokes.filter(fresh_at(now)) == strokes,
    decreases strokes.len(),
{
    reveal(Seq::filter);
    if strokes.len() > 0 {
        lemma_filter_keeps_all(strokes.drop_last(), now);
        assert(strokes.drop_last().push(strokes.last()) =~= strokes);
    }
}

/// What is shown holds fresh strokes only, and no more than `KEPT_STROKES`.
/// Pruning it again at the same time changes nothing.
pub proof fn lemma_prune_idempotent(strokes: Seq<Stroke>, now: u64)
    ensures
        pruned(strokes, now).len() <= KEPT_STROKES,
        forall|i: int|
            0 <= i < pruned(strokes, now).len() ==> is_fresh(
                #[trigger] pruned(strokes, now)[i].at,
                now,
            ),
        pruned(pruned(strokes, now), now) == pruned(strokes, now),
{
    let kept = strokes.filter(fresh_at(now));
    let shown = pruned(strokes, now);
    assert forall|i: int| 0 <= i < shown.len() implies is_fresh(#[trigger] shown[i].at, now) by {
        let j = if kept.len() <= KEPT_STROKES { i } else { i + kept.len() - KEPT_STROKES };
        assert(shown[i] == kept[j]);
        strokes.lemma_filter_pred(fresh_at(now), j);
    }
    lemma_filter_keeps_all(shown, now);
}

} // verus!
