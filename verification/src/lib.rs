//! A letter row driven by a game controller.
//!
//! The [`tracker`] turns the level state of the controller's buttons into
//! discrete actions, each fired once per hold. The actions travel through a
//! [`channel::GamepadChannel`] in the order in which they were produced. The
//! [`navigation`] functions move a cursor over the row by single steps or by
//! halving the distance to either end, and [`keyboard::KeyboardApp`] is the
//! consumer that applies the actions to a cursor and a line of text.

pub mod buttons;
pub mod channel;
pub mod gamepad;
pub mod history;
pub mod keyboard;
pub mod navigation;
pub mod text;
pub mod tracker;
