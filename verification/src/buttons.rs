//! The controller's buttons, and sets of them.

use vstd::prelude::*;

verus! {

/// A physical button of the controller, as the device reports it.
#[derive(Debug, Clone, Copy, PartialEq, Eq, Structural)]
pub enum PadButton {
    South,
    East,
    North,
    West,
    C,
    Z,
    LeftTrigger,
    LeftTrigger2,
    RightTrigger,
    RightTrigger2,
    Select,
    Start,
    Mode,
    LeftThumb,
    RightThumb,
    DPadUp,
    DPadDown,
    DPadLeft,
    DPadRight,
    Unknown,
}

/// What the device reports between two polls.
#[derive(Debug, Clone, Copy, PartialEq, Eq, Structural)]
pub enum PadEvent {
    Pressed(PadButton),
    Released(PadButton),
    /// Anything that is neither a press nor a release.
    Other,
}

/// A button that the keyboard listens to.
#[derive(Debug, Clone, Copy, PartialEq, Eq, Structural)]
pub enum ButtonId {
    Left,
    Right,
    Confirm,
    Delete,
    Space,
    /// Held for upper case, let go for lower case.
    CaseTrigger,
    /// Held for halving jumps.
    HalvingTrigger,
}

impl ButtonId {
    /// The button that a physical button stands for, if the keyboard listens
    /// to it.
    pub open spec fn of_pad_spec(button: PadButton) -> Option<ButtonId> {
        match button {
            PadButton::DPadLeft => Some(ButtonId::Left),
            PadButton::DPadRight => Some(ButtonId::Right),
            PadButton::South => Some(ButtonId::Confirm),
            PadButton::West => Some(ButtonId::Delete),
            PadButton::North => Some(ButtonId::Space),
            PadButton::LeftTrigger => Some(ButtonId::CaseTrigger),
            PadButton::RightTrigger => Some(ButtonId::HalvingTrigger),
            _ => None,
        }
    }

    pub fn of_pad(button: PadButton) -> (r: Option<ButtonId>)
        ensures
            r == Self::of_pad_spec(button),
    {
        match button {
            PadButton::DPadLeft => Some(ButtonId::Left),
            PadButton::DPadRight => Some(ButtonId::Right),
            PadButton::South => Some(ButtonId::Confirm),
            PadButton::West => Some(ButtonId::Delete),
            PadButton::North => Some(ButtonId::Space),
            PadButton::LeftTrigger => Some(ButtonId::CaseTrigger),
            PadButton::RightTrigger => Some(ButtonId::HalvingTrigger),
            _ => None,
        }
    }
}

/// A set of buttons, one flag for each.
#[derive(Debug, Clone, Copy)]
pub struct ButtonSet {
    left: bool,
    right: bool,
    confirm: bool,
    delete: bool,
    space: bool,
    case_trigger: bool,
    halving_trigger: bool,
}

impl View for ButtonSet {
    type V = Set<ButtonId>;

    closed spec fn view(&self) -> Set<ButtonId> {
        Set::new(|b: ButtonId| self.flag(b))
    }
}

impl ButtonSet {
    spec fn flag(self, button: ButtonId) -> bool {
        match button {
            ButtonId::Left => self.left,
            ButtonId::Right => self.right,
            ButtonId::Confirm => self.confirm,
            ButtonId::Delete => self.delete,
            ButtonId::Space => self.space,
            ButtonId::CaseTrigger => self.case_trigger,
            ButtonId::HalvingTrigger => self.halving_trigger,
        }
    }

    /// The empty set.
    pub fn new() -> (r: ButtonSet)
        ensures
            r@ == Set::<ButtonId>::empty(),
    {
        let r = ButtonSet {
            left: false,
            right: false,
            confirm: false,
            delete: false,
            space: false,
            case_trigger: false,
            halving_trigger: false,
        };
        assert(r@ =~= Set::<ButtonId>::empty());
        r
    }

    pub fn contains(&self, button: ButtonId) -> (r: bool)
        ensures
            r == self@.contains(button),
    {
        match button {
            ButtonId::Left => self.left,
            ButtonId::Right => self.right,
            ButtonId::Confirm => self.confirm,
            ButtonId::Delete => self.delete,
            ButtonId::Space => self.space,
            ButtonId::CaseTrigger => self.case_trigger,
            ButtonId::HalvingTrigger => self.halving_trigger,
        }
    }

    fn put(&mut self, button: ButtonId, value: bool)
        ensures
            forall|b: ButtonId|
                final(self).flag(b) == (if b == button { value } else { old(self).flag(b) }),
    {
        match button {
            ButtonId::Left => self.left = value,
            ButtonId::Right => self.right = value,
            ButtonId::Confirm => self.confirm = value,
            ButtonId::Delete => self.delete = value,
            ButtonId::Space => self.space = value,
            ButtonId::CaseTrigger => self.case_trigger = value,
            ButtonId::HalvingTrigger => self.halving_trigger = value,
        }
    }

    pub fn insert(&mut self, button: ButtonId)
        ensures
            final(self)@ == old(self)@.insert(button),
    {
        self.put(button, true);
        assert(self@ =~= old(self)@.insert(button));
    }

    pub fn remove(&mut self, button: ButtonId)
        ensures
            final(self)@ == old(self)@.remove(button),
    {
        self.put(button, false);
        assert(self@ =~= old(self)@.remove(button));
    }

    /// Adds every button of `other`.
    pub fn absorb(&mut self, other: &ButtonSet)
        ensures
            final(self)@ == old(self)@.union(other@),
    {
        self.left = self.left || other.left;
        self.right = self.right || other.right;
        self.confirm = self.confirm || other.confirm;
        self.delete = self.delete || other.delete;
        self.space = self.space || other.space;
        self.case_trigger = self.case_trigger || other.case_trigger;
        self.halving_trigger = self.halving_trigger || other.halving_trigger;
        assert(self@ =~= old(self)@.union(other@));
    }
}

} // verus!
