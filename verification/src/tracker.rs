//! From held buttons to actions.
//!
//! The tracker keeps two sets: the buttons that are held, and those of them
//! whose action has been reported since they went down. Once per cycle it
//! takes in what the device reported, then fires the action of every held
//! button that has not been reported yet. A button fires once per hold: only
//! letting it go makes it fire again.
//!
//! A direction fires a single step, or a halving jump while the halving
//! trigger is held. The halving trigger itself fires `HalvingOn` once per
//! hold and `HalvingOff` when it is let go. Where a jump and `HalvingOn` fire
//! in one cycle, `HalvingOn` comes first; otherwise it comes last, after the
//! actions of the other buttons, which fire in the order Left, Right,
//! Confirm, Delete, Space, CaseTrigger. This holds for both directions alike.

use vstd::prelude::*;
use crate::buttons::{ButtonId, ButtonSet, PadEvent};
use crate::channel::GamepadChannel;
use crate::gamepad::GamepadMessage;

verus! {

/// The tracker as two sets of buttons.
pub struct TrackerState {
    pub held: Set<ButtonId>,
    pub reported: Set<ButtonId>,
}

/// The sequence of `message` alone where `fires` holds, and of nothing
/// where it does not.
pub open spec fn fired_if(fires: bool, message: GamepadMessage) -> Seq<GamepadMessage> {
    if fires { seq![message] } else { Seq::empty() }
}

/// What a direction button fires: a jump in halving mode, else a step.
pub open spec fn direction_action(button: ButtonId, halving: bool) -> GamepadMessage {
    if button == ButtonId::Left {
        if halving { GamepadMessage::HalvingLeft } else { GamepadMessage::OneLeft }
    } else {
        if halving { GamepadMessage::HalvingRight } else { GamepadMessage::OneRight }
    }
}

/// Whether `message` is a step or a jump of the direction `button`.
pub open spec fn is_action_of(message: GamepadMessage, button: ButtonId) -> bool {
    message == direction_action(button, false) || message == direction_action(button, true)
}

/// What letting `button` go sends at once.
pub open spec fn release_actions(button: ButtonId) -> Seq<GamepadMessage> {
    match button {
        ButtonId::HalvingTrigger => seq![GamepadMessage::HalvingOff],
        ButtonId::CaseTrigger => seq![GamepadMessage::Lowercase],
        _ => Seq::empty(),
    }
}

/// What one event of the device sends at once.
pub open spec fn event_actions(event: PadEvent) -> Seq<GamepadMessage> {
    match event {
        PadEvent::Released(pad) => match ButtonId::of_pad_spec(pad) {
            Some(button) => release_actions(button),
            None => Seq::empty(),
        },
        _ => Seq::empty(),
    }
}

/// Whether `event` reports that `button` was let go.
pub open spec fn is_release_of(event: PadEvent, button: ButtonId) -> bool {
    match event {
        PadEvent::Released(pad) => ButtonId::of_pad_spec(pad) == Some(button),
        _ => false,
    }
}

impl TrackerState {
    /// Only held buttons count as reported.
    pub open spec fn wf(self) -> bool {
        self.reported.subset_of(self.held)
    }

    /// Halving mode is on while the halving trigger is held.
    pub open spec fn halving(self) -> bool {
        self.held.contains(ButtonId::HalvingTrigger)
    }

    /// Whether `button` is held and its action is still to be reported.
    pub open spec fn fires(self, button: ButtonId) -> bool {
        self.held.contains(button) && !self.reported.contains(button)
    }

    /// Whether a halving jump fires at the next poll.
    pub open spec fn jumps(self) -> bool {
        self.halving() && (self.fires(ButtonId::Left) || self.fires(ButtonId::Right))
    }

    pub open spec fn press(self, button: ButtonId) -> TrackerState {
        TrackerState { held: self.held.insert(button), reported: self.reported }
    }

    pub open spec fn release(self, button: ButtonId) -> TrackerState {
        TrackerState { held: self.held.remove(button), reported: self.reported.remove(button) }
    }

    /// The state after one event of the device. Buttons that the keyboard
    /// does not listen to change nothing.
    pub open spec fn handle(self, event: PadEvent) -> TrackerState {
        match event {
            PadEvent::Pressed(pad) => match ButtonId::of_pad_spec(pad) {
                Some(button) => self.press(button),
                None => self,
            },
            PadEvent::Released(pad) => match ButtonId::of_pad_spec(pad) {
                Some(button) => self.release(button),
                None => self,
            },
            PadEvent::Other => self,
        }
    }

    /// The state after a poll: every held button is reported.
    pub open spec fn poll(self) -> TrackerState {
        TrackerState { held: self.held, reported: self.reported.union(self.held) }
    }

    /// The actions that a poll fires, in their order.
    pub open spec fn poll_actions(self) -> Seq<GamepadMessage> {
        fired_if(self.fires(ButtonId::HalvingTrigger) && self.jumps(), GamepadMessage::HalvingOn)
            + fired_if(self.fires(ButtonId::Left), direction_action(ButtonId::Left, self.halving()))
            + fired_if(self.fires(ButtonId::Right), direction_action(ButtonId::Right, self.halving()))
            + fired_if(self.fires(ButtonId::Confirm), GamepadMessage::Enter)
            + fired_if(self.fires(ButtonId::Delete), GamepadMessage::Delete)
            + fired_if(self.fires(ButtonId::Space), GamepadMessage::Space)
            + fired_if(self.fires(ButtonId::CaseTrigger), GamepadMessage::Uppercase)
            + fired_if(self.fires(ButtonId::HalvingTrigger) && !self.jumps(), GamepadMessage::HalvingOn)
    }

    /// The state after the events of one cycle, taken in their order.
    pub open spec fn drain(self, events: Seq<PadEvent>) -> TrackerState
        decreases events.len(),
    {
        if events.len() == 0 {
            self
        } else {
            self.drain(events.drop_last()).handle(events.last())
        }
    }

    /// The state after a whole cycle: the events, then the poll.
    pub open spec fn cycle(self, events: Seq<PadEvent>) -> TrackerState {
        self.drain(events).poll()
    }

    /// The actions of a whole cycle: those of the events, then those of the
    /// poll.
    pub open spec fn cycle_actions(self, events: Seq<PadEvent>) -> Seq<GamepadMessage> {
        drain_actions(events) + self.drain(events).poll_actions()
    }
}

/// The state after several cycles, one after the other. Each item of
/// `rounds` holds the events of one cycle.
pub open spec fn run(s: TrackerState, rounds: Seq<Seq<PadEvent>>) -> TrackerState
    decreases rounds.len(),
{
    if rounds.len() == 0 {
        s
    } else {
        run(s, rounds.drop_last()).cycle(rounds.last())
    }
}

/// The actions of several cycles, in the order in which they are sent.
pub open spec fn run_actions(s: TrackerState, rounds: Seq<Seq<PadEvent>>) -> Seq<GamepadMessage>
    decreases rounds.len(),
{
    if rounds.len() == 0 {
        Seq::empty()
    } else {
        run_actions(s, rounds.drop_last()) + run(s, rounds.drop_last()).cycle_actions(
            rounds.last(),
        )
    }
}

/// What the events of one cycle send at once, in their order.
pub open spec fn drain_actions(events: Seq<PadEvent>) -> Seq<GamepadMessage>
    decreases events.len(),
{
    if events.len() == 0 {
        Seq::empty()
    } else {
        drain_actions(events.drop_last()) + event_actions(events.last())
    }
}

/// Tracks which buttons are held and which of them have fired.
pub struct Tracker {
    held: ButtonSet,
    reported: ButtonSet,
}

impl View for Tracker {
    type V = TrackerState;

    closed spec fn view(&self) -> TrackerState {
        TrackerState { held: self.held@, reported: self.reported@ }
    }
}

proof fn lemma_concat_assoc(
    a: Seq<GamepadMessage>,
    b: Seq<GamepadMessage>,
    c: Seq<GamepadMessage>,
)
    ensures
        (a + b) + c == a + (b + c),
{
    assert((a + b) + c =~= a + (b + c));
}

fn send_when(out: &mut GamepadChannel, fires: bool, message: GamepadMessage)
    ensures
        final(out)@ == old(out)@ + fired_if(fires, message),
{
    if fires {
        out.send(message);
    }
    assert(out@ =~= old(out)@ + fired_if(fires, message));
}

impl Tracker {
    /// A tracker with no button held.
    pub fn new() -> (r: Tracker)
        ensures
            r@.held == Set::<ButtonId>::empty(),
            r@.reported == Set::<ButtonId>::empty(),
            r@.wf(),
    {
        Tracker { held: ButtonSet::new(), reported: ButtonSet::new() }
    }

    pub fn is_held(&self, button: ButtonId) -> (r: bool)
        ensures
            r == self@.held.contains(button),
    {
        self.held.contains(button)
    }

    pub fn is_reported(&self, button: ButtonId) -> (r: bool)
        ensures
            r == self@.reported.contains(button),
    {
        self.reported.contains(button)
    }

    /// Whether halving mode is on.
    pub fn halving(&self) -> (r: bool)
        ensures
            r == self@.halving(),
    {
        self.held.contains(ButtonId::HalvingTrigger)
    }

    fn fires(&self, button: ButtonId) -> (r: bool)
        ensures
            r == self@.fires(button),
    {
        self.held.contains(button) && !self.reported.contains(button)
    }

    /// Notes that `button` went down. Nothing is sent before the next poll.
    pub fn on_press(&mut self, button: ButtonId)
        ensures
            final(self)@ == old(self)@.press(button),
    {
        self.held.insert(button);
    }

    /// Notes that `button` was let go, so that it can fire again, and sends
    /// at once what the release of a trigger stands for.
    pub fn on_release(&mut self, button: ButtonId, out: &mut GamepadChannel)
        ensures
            final(self)@ == old(self)@.release(button),
            final(out)@ == old(out)@ + release_actions(button),
    {
        self.held.remove(button);
        self.reported.remove(button);
        match button {
            ButtonId::HalvingTrigger => out.send(GamepadMessage::HalvingOff),
            ButtonId::CaseTrigger => out.send(GamepadMessage::Lowercase),
            _ => {},
        }
        assert(out@ =~= old(out)@ + release_actions(button));
    }

    /// Takes in one event of the device.
    pub fn handle_event(&mut self, event: PadEvent, out: &mut GamepadChannel)
        ensures
            final(self)@ == old(self)@.handle(event),
            final(out)@ == old(out)@ + event_actions(event),
    {
        match event {
            PadEvent::Pressed(pad) => {
                if let Some(button) = ButtonId::of_pad(pad) {
                    self.on_press(button);
                }
            },
            PadEvent::Released(pad) => {
                if let Some(button) = ButtonId::of_pad(pad) {
                    self.on_release(button, out);
                }
            },
            PadEvent::Other => {},
        }
        assert(out@ =~= old(out)@ + event_actions(event));
    }

    /// Fires the action of every held button that has not fired during this
    /// hold, and marks them all as reported.
    pub fn poll(&mut self, out: &mut GamepadChannel)
        ensures
            final(self)@ == old(self)@.poll(),
            final(out)@ == old(out)@ + old(self)@.poll_actions(),
    {
        let halving = self.halving();
        let left = self.fires(ButtonId::Left);
        let right = self.fires(ButtonId::Right);
        let mode_edge = self.fires(ButtonId::HalvingTrigger);
        let jumps = halving && (left || right);
        let left_action = if halving {
            GamepadMessage::HalvingLeft
        } else {
            GamepadMessage::OneLeft
        };
        let right_action = if halving {
            GamepadMessage::HalvingRight
        } else {
            GamepadMessage::OneRight
        };
        let ghost sent = out@;
        let ghost state = self@;
        send_when(out, mode_edge && jumps, GamepadMessage::HalvingOn);
        let ghost fired = fired_if(mode_edge && jumps, GamepadMessage::HalvingOn);
        send_when(out, left, left_action);
        proof {
            let next = fired_if(left, left_action);
            lemma_concat_assoc(sent, fired, next);
            fired = fired + next;
        }
        send_when(out, right, right_action);
        proof {
            let next = fired_if(right, right_action);
            lemma_concat_assoc(sent, fired, next);
            fired = fired + next;
        }
        send_when(out, self.fires(ButtonId::Confirm), GamepadMessage::Enter);
        proof {
            let next = fired_if(state.fires(ButtonId::Confirm), GamepadMessage::Enter);
            lemma_concat_assoc(sent, fired, next);
            fired = fired + next;
        }
        send_when(out, self.fires(ButtonId::Delete), GamepadMessage::Delete);
        proof {
            let next = fired_if(state.fires(ButtonId::Delete), GamepadMessage::Delete);
            lemma_concat_assoc(sent, fired, next);
            fired = fired + next;
        }
        send_when(out, self.fires(ButtonId::Space), GamepadMessage::Space);
        proof {
            let next = fired_if(state.fires(ButtonId::Space), GamepadMessage::Space);
            lemma_concat_assoc(sent, fired, next);
            fired = fired + next;
        }
        send_when(out, self.fires(ButtonId::CaseTrigger), GamepadMessage::Uppercase);
        proof {
            let next = fired_if(state.fires(ButtonId::CaseTrigger), GamepadMessage::Uppercase);
            lemma_concat_assoc(sent, fired, next);
            fired = fired + next;
        }
        send_when(out, mode_edge && !jumps, GamepadMessage::HalvingOn);
        proof {
            let next = fired_if(mode_edge && !jumps, GamepadMessage::HalvingOn);
            lemma_concat_assoc(sent, fired, next);
            fired = fired + next;
            assert(fired == state.poll_actions());
        }
        self.reported.absorb(&self.held);
    }

    /// One whole cycle: takes in the events that the device reported since
    /// the last cycle, in their order, then polls.
    pub fn run_cycle(&mut self, events: &Vec<PadEvent>, out: &mut GamepadChannel)
        ensures
            final(self)@ == old(self)@.cycle(events@),
            final(out)@ == old(out)@ + old(self)@.cycle_actions(events@),
    {
        let ghost start = self@;
        let ghost sent = out@;
        let mut i: usize = 0;
        while i < events.len()
            invariant
                i <= events.len(),
                self@ == start.drain(events@.take(i as int)),
                out@ == sent + drain_actions(events@.take(i as int)),
            decreases events.len() - i,
        {
            self.handle_event(events[i], out);
            proof {
                let upto = events@.take(i + 1);
                assert(upto.drop_last() =~= events@.take(i as int));
                assert(upto.last() == events@[i as int]);
                assert(out@ =~= sent + drain_actions(upto));
            }
            i += 1;
        }
        proof {
            assert(events@.take(i as int) =~= events@);
        }
        self.poll(out);
        proof {
            lemma_concat_assoc(sent, drain_actions(events@), start.drain(events@).poll_actions());
        }
    }
}

proof fn lemma_concat_contains(a: Seq<GamepadMessage>, b: Seq<GamepadMessage>, x: GamepadMessage)
    ensures
        (a + b).contains(x) <==> a.contains(x) || b.contains(x),
{
    if a.contains(x) {
        let i = choose|i: int| 0 <= i < a.len() && a[i] == x;
        assert((a + b)[i] == x);
    }
    if b.contains(x) {
        let j = choose|j: int| 0 <= j < b.len() && b[j] == x;
        assert((a + b)[a.len() + j] == x);
    }
    if (a + b).contains(x) {
        let k = choose|k: int| 0 <= k < (a + b).len() && (a + b)[k] == x;
        if k < a.len() {
            assert(a[k] == x);
        } else {
            assert(b[k - a.len()] == x);
        }
    }
}

proof fn lemma_fired_if_contains(fires: bool, message: GamepadMessage, x: GamepadMessage)
    ensures
        fired_if(fires, message).contains(x) <==> fires && message == x,
{
    if fires && message == x {
        assert(fired_if(fires, message)[0] == x);
    }
}

/// A poll fires the action of each button that is held and not yet
/// reported, and no other action.
pub proof fn lemma_poll_fires_unreported(s: TrackerState, x: GamepadMessage)
    ensures
        s.poll_actions().contains(x) <==> {
            ||| s.fires(ButtonId::HalvingTrigger) && x == GamepadMessage::HalvingOn
            ||| s.fires(ButtonId::Left) && x == direction_action(ButtonId::Left, s.halving())
            ||| s.fires(ButtonId::Right) && x == direction_action(ButtonId::Right, s.halving())
            ||| s.fires(ButtonId::Confirm) && x == GamepadMessage::Enter
            ||| s.fires(ButtonId::Delete) && x == GamepadMessage::Delete
            ||| s.fires(ButtonId::Space) && x == GamepadMessage::Space
            ||| s.fires(ButtonId::CaseTrigger) && x == GamepadMessage::Uppercase
        },
{
    let edge = s.fires(ButtonId::HalvingTrigger);
    let w0 = fired_if(edge && s.jumps(), GamepadMessage::HalvingOn);
    let w1 = fired_if(s.fires(ButtonId::Left), direction_action(ButtonId::Left, s.halving()));
    let w2 = fired_if(s.fires(ButtonId::Right), direction_action(ButtonId::Right, s.halving()));
    let w3 = fired_if(s.fires(ButtonId::Confirm), GamepadMessage::Enter);
    let w4 = fired_if(s.fires(ButtonId::Delete), GamepadMessage::Delete);
    let w5 = fired_if(s.fires(ButtonId::Space), GamepadMessage::Space);
    let w6 = fired_if(s.fires(ButtonId::CaseTrigger), GamepadMessage::Uppercase);
    let w7 = fired_if(edge && !s.jumps(), GamepadMessage::HalvingOn);
    lemma_fired_if_contains(edge && s.jumps(), GamepadMessage::HalvingOn, x);
    lemma_fired_if_contains(s.fires(ButtonId::Left), direction_action(ButtonId::Left, s.halving()), x);
    lemma_fired_if_contains(s.fires(ButtonId::Right), direction_action(ButtonId::Right, s.halving()), x);
    lemma_fired_if_contains(s.fires(ButtonId::Confirm), GamepadMessage::Enter, x);
    lemma_fired_if_contains(s.fires(ButtonId::Delete), GamepadMessage::Delete, x);
    lemma_fired_if_contains(s.fires(ButtonId::Space), GamepadMessage::Space, x);
    lemma_fired_if_contains(s.fires(ButtonId::CaseTrigger), GamepadMessage::Uppercase, x);
    lemma_fired_if_contains(edge && !s.jumps(), GamepadMessage::HalvingOn, x);
    lemma_concat_contains(w0, w1, x);
    lemma_concat_contains(w0 + w1, w2, x);
    lemma_concat_contains(w0 + w1 + w2, w3, x);
    lemma_concat_contains(w0 + w1 + w2 + w3, w4, x);
    lemma_concat_contains(w0 + w1 + w2 + w3 + w4, w5, x);
    lemma_concat_contains(w0 + w1 + w2 + w3 + w4 + w5, w6, x);
    lemma_concat_contains(w0 + w1 + w2 + w3 + w4 + w5 + w6, w7, x);
}

/// The events of a cycle send nothing but `HalvingOff` and `Lowercase`.
pub proof fn lemma_events_send_releases_only(events: Seq<PadEvent>, x: GamepadMessage)
    requires
        drain_actions(events).contains(x),
    ensures
        x == GamepadMessage::HalvingOff || x == GamepadMessage::Lowercase,
    decreases events.len(),
{
    if events.len() > 0 {
        let before = drain_actions(events.drop_last());
        let last = event_actions(events.last());
        lemma_concat_contains(before, last, x);
        if before.contains(x) {
            lemma_events_send_releases_only(events.drop_last(), x);
        } else {
            let j = choose|j: int| 0 <= j < last.len() && last[j] == x;
            assert(last[j] == x);
        }
    }
}

/// Only held buttons count as reported: an event keeps it so.
pub proof fn lemma_event_keeps_wf(s: TrackerState, event: PadEvent)
    requires
        s.wf(),
    ensures
        s.handle(event).wf(),
{
}

/// After a poll the reported buttons are the held ones.
pub proof fn lemma_poll_reports_held(s: TrackerState)
    requires
        s.wf(),
    ensures
        s.poll().wf(),
        s.poll().reported == s.held,
        s.poll().held == s.held,
{
    assert(s.poll().reported =~= s.held);
}

/// A whole cycle keeps the reported buttons among the held ones, and ends
/// with every held button reported.
pub proof fn lemma_cycle_keeps_wf(s: TrackerState, events: Seq<PadEvent>)
    requires
        s.wf(),
    ensures
        s.drain(events).wf(),
        s.cycle(events).wf(),
        s.cycle(events).reported == s.cycle(events).held,
    decreases events.len(),
{
    if events.len() > 0 {
        lemma_cycle_keeps_wf(s, events.drop_last());
        lemma_event_keeps_wf(s.drain(events.drop_last()), events.last());
    }
    lemma_poll_reports_held(s.drain(events));
}

/// A button whose press was reported stays reported through every event
/// but its own release.
pub proof fn lemma_reported_until_released(s: TrackerState, events: Seq<PadEvent>, button: ButtonId)
    requires
        s.reported.contains(button),
        forall|i: int| 0 <= i < events.len() ==> !is_release_of(#[trigger] events[i], button),
    ensures
        s.drain(events).reported.contains(button),
    decreases events.len(),
{
    if events.len() > 0 {
        let front = events.drop_last();
        assert forall|i: int| 0 <= i < front.len() implies !is_release_of(
            #[trigger] front[i],
            button,
        ) by {
            assert(front[i] == events[i]);
        }
        lemma_reported_until_released(s, front, button);
        assert(!is_release_of(events[events.len() - 1], button));
    }
}

/// A direction that has fired does not fire again while it stays held:
/// through a cycle in which it is not let go, whatever else is pressed or
/// let go, the halving trigger included, it stays reported, and neither its
/// step nor its jump is sent.
pub proof fn lemma_held_direction_fires_once(
    s: TrackerState,
    events: Seq<PadEvent>,
    button: ButtonId,
    x: GamepadMessage,
)
    requires
        button == ButtonId::Left || button == ButtonId::Right,
        s.reported.contains(button),
        forall|i: int| 0 <= i < events.len() ==> !is_release_of(#[trigger] events[i], button),
        is_action_of(x, button),
    ensures
        s.cycle(events).reported.contains(button),
        !s.cycle_actions(events).contains(x),
{
    lemma_reported_until_released(s, events, button);
    let polled = s.drain(events);
    lemma_poll_fires_unreported(polled, x);
    lemma_concat_contains(drain_actions(events), polled.poll_actions(), x);
    if drain_actions(events).contains(x) {
        lemma_events_send_releases_only(events, x);
    }
}

/// The same over any number of cycles: as long as a direction that has
/// fired is not let go, none of the cycles sends its step or its jump.
pub proof fn lemma_hold_fires_once(
    s: TrackerState,
    rounds: Seq<Seq<PadEvent>>,
    button: ButtonId,
    x: GamepadMessage,
)
    requires
        button == ButtonId::Left || button == ButtonId::Right,
        s.reported.contains(button),
        forall|r: int, i: int|
            0 <= r < rounds.len() && 0 <= i < rounds[r].len() ==> !is_release_of(
                #[trigger] rounds[r][i],
                button,
            ),
        is_action_of(x, button),
    ensures
        run(s, rounds).reported.contains(button),
        !run_actions(s, rounds).contains(x),
    decreases rounds.len(),
{
    if rounds.len() > 0 {
        let before = rounds.drop_last();
        let last = rounds.last();
        assert forall|r: int, i: int|
            0 <= r < before.len() && 0 <= i < before[r].len() implies !is_release_of(
            #[trigger] before[r][i],
            button,
        ) by {
            assert(before[r] == rounds[r]);
            assert(!is_release_of(rounds[r][i], button));
        }
        lemma_hold_fires_once(s, before, button, x);
        assert forall|i: int| 0 <= i < last.len() implies !is_release_of(
            #[trigger] last[i],
            button,
        ) by {
            assert(last == rounds[rounds.len() - 1]);
            assert(!is_release_of(rounds[rounds.len() - 1][i], button));
        }
        lemma_held_direction_fires_once(run(s, before), last, button, x);
        lemma_concat_contains(
            run_actions(s, before),
            run(s, before).cycle_actions(last),
            x,
        );
    }
}

proof fn lemma_append_fresh(a: Seq<GamepadMessage>, fires: bool, message: GamepadMessage)
    requires
        a.no_duplicates(),
        fires ==> !a.contains(message),
    ensures
        (a + fired_if(fires, message)).no_duplicates(),
        forall|x: GamepadMessage|
            #[trigger] (a + fired_if(fires, message)).contains(x) <==> a.contains(x) || (fires && x
                == message),
{
    let b = a + fired_if(fires, message);
    assert forall|x: GamepadMessage| #[trigger] b.contains(x) <==> a.contains(x) || (fires && x
        == message) by {
        lemma_concat_contains(a, fired_if(fires, message), x);
        lemma_fired_if_contains(fires, message, x);
    }
    assert forall|i: int, j: int| 0 <= i < b.len() && 0 <= j < b.len() && i != j implies b[i]
        != b[j] by {
        if i < a.len() && j < a.len() {
            assert(b[i] == a[i] && b[j] == a[j]);
        } else if i < a.len() {
            assert(a[i] == b[i]);
            assert(a.contains(b[i]));
        } else if j < a.len() {
            assert(a[j] == b[j]);
            assert(a.contains(b[j]));
        }
    }
}

/// No action is sent twice by one poll.
pub proof fn lemma_poll_fires_each_once(s: TrackerState)
    ensures
        s.poll_actions().no_duplicates(),
{
    let edge = s.fires(ButtonId::HalvingTrigger);
    let h = s.halving();
    let a0 = Seq::<GamepadMessage>::empty();
    lemma_append_fresh(a0, edge && s.jumps(), GamepadMessage::HalvingOn);
    let a1 = a0 + fired_if(edge && s.jumps(), GamepadMessage::HalvingOn);
    assert(a1 =~= fired_if(edge && s.jumps(), GamepadMessage::HalvingOn));
    lemma_append_fresh(a1, s.fires(ButtonId::Left), direction_action(ButtonId::Left, h));
    let a2 = a1 + fired_if(s.fires(ButtonId::Left), direction_action(ButtonId::Left, h));
    lemma_append_fresh(a2, s.fires(ButtonId::Right), direction_action(ButtonId::Right, h));
    let a3 = a2 + fired_if(s.fires(ButtonId::Right), direction_action(ButtonId::Right, h));
    lemma_append_fresh(a3, s.fires(ButtonId::Confirm), GamepadMessage::Enter);
    let a4 = a3 + fired_if(s.fires(ButtonId::Confirm), GamepadMessage::Enter);
    lemma_append_fresh(a4, s.fires(ButtonId::Delete), GamepadMessage::Delete);
    let a5 = a4 + fired_if(s.fires(ButtonId::Delete), GamepadMessage::Delete);
    lemma_append_fresh(a5, s.fires(ButtonId::Space), GamepadMessage::Space);
    let a6 = a5 + fired_if(s.fires(ButtonId::Space), GamepadMessage::Space);
    lemma_append_fresh(a6, s.fires(ButtonId::CaseTrigger), GamepadMessage::Uppercase);
    let a7 = a6 + fired_if(s.fires(ButtonId::CaseTrigger), GamepadMessage::Uppercase);
    lemma_append_fresh(a7, edge && !s.jumps(), GamepadMessage::HalvingOn);
}

/// A direction that is held and not yet reported fires at the next poll:
/// its jump in halving mode, its step otherwise, and not the other of the
/// two. After the poll it is reported.
pub proof fn lemma_direction_fires_on_press(s: TrackerState, button: ButtonId)
    requires
        button == ButtonId::Left || button == ButtonId::Right,
        s.fires(button),
    ensures
        s.poll_actions().contains(direction_action(button, s.halving())),
        !s.poll_actions().contains(direction_action(button, !s.halving())),
        s.poll().reported.contains(button),
        !s.poll().fires(button),
{
    lemma_poll_fires_unreported(s, direction_action(button, s.halving()));
    lemma_poll_fires_unreported(s, direction_action(button, !s.halving()));
}

/// Letting a button go clears its report, whatever the state was: once it
/// is pressed again it fires again, be it at the very next poll.
pub proof fn lemma_release_rearms(s: TrackerState, button: ButtonId)
    ensures
        !s.release(button).reported.contains(button),
        !s.release(button).held.contains(button),
        s.release(button).press(button).fires(button),
        button == ButtonId::Left || button == ButtonId::Right ==> s.release(button).press(
            button,
        ).poll_actions().contains(
            direction_action(button, s.release(button).press(button).halving()),
        ),
{
    if button == ButtonId::Left || button == ButtonId::Right {
        lemma_direction_fires_on_press(s.release(button).press(button), button);
    }
}

/// Where the halving trigger and a direction fire in one poll, `HalvingOn`
/// is sent first and the jump follows it directly.
pub proof fn lemma_mode_on_before_jump(s: TrackerState)
    requires
        s.fires(ButtonId::HalvingTrigger),
        s.fires(ButtonId::Left) || s.fires(ButtonId::Right),
    ensures
        s.poll_actions().len() >= 2,
        s.poll_actions()[0] == GamepadMessage::HalvingOn,
        s.poll_actions()[1] == (if s.fires(ButtonId::Left) {
            GamepadMessage::HalvingLeft
        } else {
            GamepadMessage::HalvingRight
        }),
{
}

/// Halving mode follows the trigger: it is on from the press and off from
/// the release, which sends `HalvingOff`. A poll sends `HalvingOn` where the
/// trigger is held and not yet reported, and nowhere else.
pub proof fn lemma_halving_follows_trigger(s: TrackerState)
    ensures
        s.press(ButtonId::HalvingTrigger).halving(),
        !s.release(ButtonId::HalvingTrigger).halving(),
        release_actions(ButtonId::HalvingTrigger) == seq![GamepadMessage::HalvingOff],
        s.poll_actions().contains(GamepadMessage::HalvingOn) <==> s.fires(ButtonId::HalvingTrigger),
{
    lemma_poll_fires_unreported(s, GamepadMessage::HalvingOn);
}

/// While nothing is pressed or let go, a poll that follows a poll sends
/// nothing and changes nothing.
pub proof fn lemma_idle_poll_is_silent(s: TrackerState)
    ensures
        s.poll().poll_actions() == Seq::<GamepadMessage>::empty(),
        s.poll().poll() == s.poll(),
{
    assert(s.poll().poll_actions() =~= Seq::<GamepadMessage>::empty());
    assert(s.poll().poll().reported =~= s.poll().reported);
}

} // verus!
