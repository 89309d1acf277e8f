//! The keyboard: a cursor on the row of letters, and the line of text that
//! is being written.

use vstd::prelude::*;
use crate::gamepad::GamepadMessage;
use crate::history::{prune, pruned, Stroke, KEPT_STROKES};
use crate::navigation::{
    apply,
    apply_spec,
    halve_left,
    halve_left_spec,
    halve_right,
    halve_right_spec,
    LAST_LETTER,
};

verus! {

/// The cell on which the cursor starts.
pub const START_INDEX: usize = 12;

/// What the keyboard is told.
#[derive(Debug, Clone, Copy, PartialEq, Eq, Structural)]
pub enum HalvingKeyboardMessage {
    /// Something happened in the window. The keyboard takes no notice.
    EventOccurred,
    /// An action arrived from the controller.
    Gamepad(GamepadMessage),
    /// Time has passed.
    Tick,
}

/// How a cell of the row is drawn.
#[derive(Debug, Clone, Copy, PartialEq, Eq, Structural)]
pub enum Highlight {
    /// The cursor is on the cell.
    Selected,
    /// A halving jump would land on the cell, and halving mode is on.
    JumpTarget,
    Plain,
}

/// The keyboard as plain values.
pub struct KeyboardState {
    pub selected_index: int,
    pub text: Seq<char>,
    pub gamepad_message: Option<GamepadMessage>,
    pub uppercase: bool,
    pub event_history: Seq<Stroke>,
    pub halving_on: bool,
}

/// The letter on cell `index` of the row, in the given case.
pub open spec fn letter_spec(index: int, uppercase: bool) -> char {
    if uppercase {
        (('A' as u8 + index) as u8) as char
    } else {
        (('a' as u8 + index) as u8) as char
    }
}

impl KeyboardState {
    /// The cursor is on the row.
    pub open spec fn wf(self) -> bool {
        0 <= self.selected_index <= LAST_LETTER
    }

    pub open spec fn left_jump(self) -> int {
        halve_left_spec(self.selected_index, LAST_LETTER as int)
    }

    pub open spec fn right_jump(self) -> int {
        halve_right_spec(self.selected_index, LAST_LETTER as int)
    }

    /// Whether a halving jump from the cursor lands on `position`, and
    /// `position` is not the cursor's own cell.
    pub open spec fn is_jump_target(self, position: int) -> bool {
        position != self.selected_index && (position == self.left_jump() || position
            == self.right_jump())
    }

    pub open spec fn highlight(self, position: int) -> Highlight {
        if position == self.selected_index {
            Highlight::Selected
        } else if self.halving_on && self.is_jump_target(position) {
            Highlight::JumpTarget
        } else {
            Highlight::Plain
        }
    }

    /// The keyboard after the letter under the cursor was written.
    pub open spec fn with_letter(self) -> KeyboardState {
        KeyboardState {
            text: self.text.push(letter_spec(self.selected_index, self.uppercase)),
            ..self
        }
    }

    pub open spec fn with_space(self) -> KeyboardState {
        KeyboardState { text: self.text.push(' '), ..self }
    }

    /// The keyboard after `message` was carried out: a move of the cursor,
    /// a change of the text, or a change of mode.
    pub open spec fn act(self, message: GamepadMessage) -> KeyboardState {
        match message {
            GamepadMessage::Enter => self.with_letter(),
            GamepadMessage::Space => self.with_space(),
            GamepadMessage::Delete => KeyboardState {
                text: if self.text.len() > 0 { self.text.drop_last() } else { self.text },
                ..self
            },
            GamepadMessage::Uppercase => KeyboardState { uppercase: true, ..self },
            GamepadMessage::Lowercase => KeyboardState { uppercase: false, ..self },
            GamepadMessage::HalvingOn => KeyboardState { halving_on: true, ..self },
            GamepadMessage::HalvingOff => KeyboardState { halving_on: false, ..self },
            _ => KeyboardState {
                selected_index: apply_spec(self.selected_index, message, LAST_LETTER as int),
                ..self
            },
        }
    }

    /// The keyboard with `message` noted as the latest stroke, at `now`.
    pub open spec fn noted(self, message: GamepadMessage, now: u64) -> KeyboardState {
        KeyboardState {
            gamepad_message: Some(message),
            event_history: self.event_history.push(Stroke { message, at: now }),
            ..self
        }
    }

    /// The keyboard showing only the strokes that are shown at `now`.
    pub open spec fn tidied(self, now: u64) -> KeyboardState {
        KeyboardState { event_history: pruned(self.event_history, now), ..self }
    }

    /// The keyboard after it was told `message` at `now`.
    pub open spec fn update(self, message: HalvingKeyboardMessage, now: u64) -> KeyboardState {
        match message {
            HalvingKeyboardMessage::Gamepad(action) => self.noted(action, now).act(action).tidied(
                now,
            ),
            _ => self.tidied(now),
        }
    }
}

/// The letter on cell `index` of the row, in the given case.
pub fn letter(index: usize, uppercase: bool) -> (c: char)
    requires
        index <= LAST_LETTER,
    ensures
        c == letter_spec(index as int, uppercase),
{
    let first: u8 = if uppercase { 65 } else { 97 };
    let code: u8 = first + index as u8;
    code as char
}

/// A position of the cursor: a cell of the row of letters.
#[derive(Debug, Clone, Copy)]
pub struct CursorPosition {
    index: usize,
}

impl View for CursorPosition {
    type V = int;

    closed spec fn view(&self) -> int {
        self.index as int
    }
}

impl CursorPosition {
    #[verifier::type_invariant]
    spec fn on_row(self) -> bool {
        self.index <= LAST_LETTER
    }

    /// The cell on which the cursor starts.
    pub fn start() -> (r: CursorPosition)
        ensures
            r@ == START_INDEX,
    {
        CursorPosition { index: START_INDEX }
    }

    /// The cell's number, counted from 0.
    pub fn index(&self) -> (r: usize)
        ensures
            r == self@,
            r <= LAST_LETTER,
    {
        proof {
            use_type_invariant(self);
        }
        self.index
    }

    /// The position after `action`.
    pub fn moved(self, action: GamepadMessage) -> (r: CursorPosition)
        ensures
            r@ == apply_spec(self@, action, LAST_LETTER as int),
    {
        proof {
            use_type_invariant(self);
        }
        CursorPosition { index: apply(self.index, action, LAST_LETTER) }
    }
}

pub struct KeyboardApp {
    selected_index: CursorPosition,
    text: String,
    gamepad_message: Option<GamepadMessage>,
    uppercase: bool,
    event_history: Vec<Stroke>,
    halving_on: bool,
}

impl View for KeyboardApp {
    type V = KeyboardState;

    closed spec fn view(&self) -> KeyboardState {
        KeyboardState {
            selected_index: self.selected_index@,
            text: self.text@,
            gamepad_message: self.gamepad_message,
            uppercase: self.uppercase,
            event_history: self.event_history@,
            halving_on: self.halving_on,
        }
    }
}

impl KeyboardApp {
    /// A keyboard with the cursor in the middle of the row, in lower case,
    /// with nothing written.
    pub fn new() -> (r: KeyboardApp)
        ensures
            r@ == (KeyboardState {
                selected_index: START_INDEX as int,
                text: Seq::empty(),
                gamepad_message: None,
                uppercase: false,
                event_history: Seq::empty(),
                halving_on: false,
            }),
            r@.wf(),
    {
        KeyboardApp {
            selected_index: CursorPosition::start(),
            text: String::new(),
            gamepad_message: None,
            uppercase: false,
            event_history: Vec::new(),
            halving_on: false,
        }
    }

    pub fn selected_index(&self) -> (r: usize)
        ensures
            r == self@.selected_index,
            r <= LAST_LETTER,
            self@.wf(),
    {
        self.selected_index.index()
    }

    pub fn text(&self) -> (r: &str)
        ensures
            r@ == self@.text,
    {
        self.text.as_str()
    }

    /// The latest action that arrived, if any has.
    pub fn gamepad_message(&self) -> (r: Option<GamepadMessage>)
        ensures
            r == self@.gamepad_message,
    {
        self.gamepad_message
    }

    pub fn uppercase(&self) -> (r: bool)
        ensures
            r == self@.uppercase,
    {
        self.uppercase
    }

    pub fn halving_on(&self) -> (r: bool)
        ensures
            r == self@.halving_on,
    {
        self.halving_on
    }

    /// The strokes on display, the oldest first.
    pub fn event_history(&self) -> (r: &Vec<Stroke>)
        ensures
            r@ == self@.event_history,
    {
        &self.event_history
    }

    /// Takes in one message, at the time `now` in milliseconds: carries out
    /// an action of the controller and notes it as a stroke, then drops the
    /// strokes that are no longer shown.
    pub fn update(&mut self, message: HalvingKeyboardMessage, now: u64)
        ensures
            final(self)@ == old(self)@.update(message, now),
            final(self)@.event_history.len() <= KEPT_STROKES,
    {
        match message {
            HalvingKeyboardMessage::Gamepad(action) => {
                self.gamepad_message = Some(action);
                self.event_history.push(Stroke { message: action, at: now });
                match action {
                    GamepadMessage::Enter => self.enter_letter(),
                    GamepadMessage::Space => self.enter_space(),
                    GamepadMessage::Delete => {
                        self.text.pop();
                    },
                    GamepadMessage::Uppercase => {
                        self.uppercase = true;
                    },
                    GamepadMessage::Lowercase => {
                        self.uppercase = false;
                    },
                    GamepadMessage::HalvingOn => {
                        self.halving_on = true;
                    },
                    GamepadMessage::HalvingOff => {
                        self.halving_on = false;
                    },
                    _ => {
                        self.selected_index = self.selected_index.moved(action);
                    },
                }
            },
            _ => {},
        }
        prune(&mut self.event_history, now);
    }

    /// Writes the letter under the cursor, in the case that is on.
    pub fn enter_letter(&mut self)
        ensures
            final(self)@ == old(self)@.with_letter(),
    {
        let c = letter(self.selected_index.index(), self.uppercase);
        self.text.push(c);
    }

    pub fn enter_space(&mut self)
        ensures
            final(self)@ == old(self)@.with_space(),
    {
        self.text.push(' ');
    }

    /// Whether a halving jump from the cursor would land on `position`.
    pub fn is_next_jump_position(&self, position: usize) -> (r: bool)
        ensures
            r == self@.is_jump_target(position as int),
    {
        let at: usize = self.selected_index.index();
        if at > position {
            self.get_left_jump_position() == position
        } else if at < position {
            self.get_right_jump_position() == position
        } else {
            false
        }
    }

    /// The cell that a halving jump to the left would reach.
    pub fn get_left_jump_position(&self) -> (r: usize)
        ensures
            r == self@.left_jump(),
            r == apply_spec(self@.selected_index, GamepadMessage::HalvingLeft, LAST_LETTER as int),
    {
        halve_left(self.selected_index.index(), LAST_LETTER)
    }

    /// The cell that a halving jump to the right would reach.
    pub fn get_right_jump_position(&self) -> (r: usize)
        ensures
            r == self@.right_jump(),
            r == apply_spec(self@.selected_index, GamepadMessage::HalvingRight, LAST_LETTER as int),
    {
        halve_right(self.selected_index.index(), LAST_LETTER)
    }

    /// How the cell `position` is drawn.
    pub fn highlight(&self, position: usize) -> (r: Highlight)
        ensures
            r == self@.highlight(position as int),
    {
        if position == self.selected_index.index() {
            Highlight::Selected
        } else if self.halving_on && self.is_next_jump_position(position) {
            Highlight::JumpTarget
        } else {
            Highlight::Plain
        }
    }
}

/// Whatever the keyboard is told, the cursor stays on the row, and no more
/// than `KEPT_STROKES` strokes are shown.
pub proof fn lemma_update_keeps_row(s: KeyboardState, message: HalvingKeyboardMessage, now: u64)
    requires
        s.wf(),
    ensures
        s.update(message, now).wf(),
        s.update(message, now).event_history.len() <= KEPT_STROKES,
{
}

/// The cells that are marked as targets of a jump are the cells to which
/// the jumps move the cursor, the cursor's own cell left out.
pub proof fn lemma_targets_match_jumps(s: KeyboardState, position: int)
    requires
        s.wf(),
    ensures
        s.is_jump_target(position) <==> position != s.selected_index && (position == s.act(
            GamepadMessage::HalvingLeft,
        ).selected_index || position == s.act(GamepadMessage::HalvingRight).selected_index),
{
}

} // verus!
