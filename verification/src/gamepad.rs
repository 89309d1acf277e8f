//! The discrete actions that the controller produces.

use vstd::prelude::*;

verus! {

/// One action, produced when a button or a combination is first seen held,
/// or when a trigger is let go.
#[derive(Debug, Clone, Copy, PartialEq, Eq, Structural)]
pub enum GamepadMessage {
    OneLeft,
    OneRight,
    HalvingOn,
    HalvingOff,
    HalvingLeft,
    HalvingRight,
    Enter,
    Delete,
    Lowercase,
    Uppercase,
    Space,
}

impl GamepadMessage {
    /// The symbol that stands for the action in the list of recent strokes.
    pub open spec fn icon_spec(self) -> Seq<char> {
        match self {
            GamepadMessage::OneLeft => "←"@,
            GamepadMessage::OneRight => "→"@,
            GamepadMessage::HalvingOn => "½"@,
            GamepadMessage::HalvingOff => "1"@,
            GamepadMessage::HalvingLeft => "↶"@,
            GamepadMessage::HalvingRight => "↷"@,
            GamepadMessage::Enter => "⏎"@,
            GamepadMessage::Delete => "⌫"@,
            GamepadMessage::Lowercase => "a/z"@,
            GamepadMessage::Uppercase => "A/Z"@,
            GamepadMessage::Space => "␣"@,
        }
    }

    /// The action's name in plain letters.
    pub open spec fn name_spec(self) -> Seq<char> {
        match self {
            GamepadMessage::OneLeft => "OneLeft"@,
            GamepadMessage::OneRight => "OneRight"@,
            GamepadMessage::HalvingOn => "HalvingOn"@,
            GamepadMessage::HalvingOff => "HalvingOff"@,
            GamepadMessage::HalvingLeft => "HalvingLeft"@,
            GamepadMessage::HalvingRight => "HalvingRight"@,
            GamepadMessage::Enter => "Enter"@,
            GamepadMessage::Delete => "Delete"@,
            GamepadMessage::Lowercase => "Lowercase"@,
            GamepadMessage::Uppercase => "Uppercase"@,
            GamepadMessage::Space => "Space"@,
        }
    }

    /// Whether the action moves the cursor.
    pub open spec fn moves_cursor(self) -> bool {
        self == GamepadMessage::OneLeft || self == GamepadMessage::OneRight
            || self == GamepadMessage::HalvingLeft || self == GamepadMessage::HalvingRight
    }

    pub fn icon(&self) -> (s: &'static str)
        ensures
            s@ == self.icon_spec(),
    {
        match self {
            GamepadMessage::OneLeft => "←",
            GamepadMessage::OneRight => "→",
            GamepadMessage::HalvingOn => "½",
            GamepadMessage::HalvingOff => "1",
            GamepadMessage::HalvingLeft => "↶",
            GamepadMessage::HalvingRight => "↷",
            GamepadMessage::Enter => "⏎",
            GamepadMessage::Delete => "⌫",
            GamepadMessage::Lowercase => "a/z",
            GamepadMessage::Uppercase => "A/Z",
            GamepadMessage::Space => "␣",
        }
    }

    /// The action's name, as it is printed.
    pub fn name(&self) -> (s: &'static str)
        ensures
            s@ == self.name_spec(),
    {
        match self {
            GamepadMessage::OneLeft => "OneLeft",
            GamepadMessage::OneRight => "OneRight",
            GamepadMessage::HalvingOn => "HalvingOn",
            GamepadMessage::HalvingOff => "HalvingOff",
            GamepadMessage::HalvingLeft => "HalvingLeft",
            GamepadMessage::HalvingRight => "HalvingRight",
            GamepadMessage::Enter => "Enter",
            GamepadMessage::Delete => "Delete",
            GamepadMessage::Lowercase => "Lowercase",
            GamepadMessage::Uppercase => "Uppercase",
            GamepadMessage::Space => "Space",
        }
    }
}

} // verus!
