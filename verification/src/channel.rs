//! The queue that carries actions from the button tracker to the keyboard.

use vstd::prelude::*;
use std::collections::VecDeque;
use crate::gamepad::GamepadMessage;

verus! {

/// An unbounded queue of actions. What was sent first is received first, and
/// nothing that was sent is lost.
pub struct GamepadChannel {
    queue: VecDeque<GamepadMessage>,
}

impl View for GamepadChannel {
    type V = Seq<GamepadMessage>;

    /// The actions that wait in the queue, the oldest first.
    closed spec fn view(&self) -> Seq<GamepadMessage> {
        self.queue@
    }
}

/// What the receipt numbered `k`, counted from 0, hands out of the queue `q`
/// when nothing is sent in between.
pub open spec fn nth_received(q: Seq<GamepadMessage>, k: nat) -> Option<GamepadMessage>
    decreases k,
{
    if q.len() == 0 {
        None
    } else if k == 0 {
        Some(q[0])
    } else {
        nth_received(q.skip(1), (k - 1) as nat)
    }
}

impl GamepadChannel {
    /// A queue in which nothing waits.
    pub fn new() -> (r: GamepadChannel)
        ensures
            r@ == Seq::<GamepadMessage>::empty(),
    {
        GamepadChannel { queue: VecDeque::new() }
    }

    /// The number of actions that wait.
    pub fn len(&self) -> (n: usize)
        ensures
            n == self@.len(),
    {
        self.queue.len()
    }

    pub fn is_empty(&self) -> (r: bool)
        ensures
            r == (self@.len() == 0),
    {
        self.queue.len() == 0
    }

    /// Puts `message` behind all that wait. This never fails and never waits.
    pub fn send(&mut self, message: GamepadMessage)
        ensures
            final(self)@ == old(self)@.push(message),
    {
        self.queue.push_back(message);
    }

    /// Takes the oldest action out, or reports that none waits.
    pub fn try_recv(&mut self) -> (r: Option<GamepadMessage>)
        ensures
            r == nth_received(old(self)@, 0),
            old(self)@.len() == 0 ==> r.is_none() && final(self)@ == old(self)@,
            old(self)@.len() > 0 ==> r == Some(old(self)@[0]) && final(self)@ == old(self)@.skip(1),
    {
        let r = self.queue.pop_front();
        proof {
            if old(self)@.len() > 0 {
                assert(self@ =~= old(self)@.skip(1));
            }
        }
        r
    }
}

/// The receipt numbered `k` hands out the action that was sent as number `k`,
/// and none once the queue has run empty.
pub proof fn lemma_received_in_order(q: Seq<GamepadMessage>, k: nat)
    ensures
        nth_received(q, k) == (if k < q.len() { Some(q[k as int]) } else { None }),
    decreases k,
{
    if q.len() > 0 && k > 0 {
        lemma_received_in_order(q.skip(1), (k - 1) as nat);
    }
}

/// Of two actions sent one after the other, the first is received before the
/// second, directly after all that waited before them.
pub proof fn lemma_sent_first_received_first(
    q: Seq<GamepadMessage>,
    first: GamepadMessage,
    second: GamepadMessage,
)
    ensures
        nth_received(q.push(first).push(second), q.len()) == Some(first),
        nth_received(q.push(first).push(second), q.len() + 1) == Some(second),
        forall|k: nat| k < q.len() ==> nth_received(q.push(first).push(second), k) == Some(q[k as int]),
{
    let sent = q.push(first).push(second);
    lemma_received_in_order(sent, q.len());
    lemma_received_in_order(sent, q.len() + 1);
    assert forall|k: nat| k < q.len() implies nth_received(sent, k) == Some(q[k as int]) by {
        lemma_received_in_order(sent, k);
    }
}

} // verus!
