use halving_keyboard::gamepad::GamepadMessage;

#[test]
fn icons_of_the_actions() {
    assert_eq!(GamepadMessage::OneLeft.icon(), "←");
    assert_eq!(GamepadMessage::OneRight.icon(), "→");
    assert_eq!(GamepadMessage::HalvingOn.icon(), "½");
    assert_eq!(GamepadMessage::HalvingOff.icon(), "1");
    assert_eq!(GamepadMessage::HalvingLeft.icon(), "↶");
    assert_eq!(GamepadMessage::HalvingRight.icon(), "↷");
    assert_eq!(GamepadMessage::Enter.icon(), "⏎");
    assert_eq!(GamepadMessage::Delete.icon(), "⌫");
    assert_eq!(GamepadMessage::Lowercase.icon(), "a/z");
    assert_eq!(GamepadMessage::Uppercase.icon(), "A/Z");
    assert_eq!(GamepadMessage::Space.icon(), "␣");
}

#[test]
fn names_of_the_actions() {
    assert_eq!(GamepadMessage::OneLeft.name(), "OneLeft");
    assert_eq!(GamepadMessage::OneRight.name(), "OneRight");
    assert_eq!(GamepadMessage::HalvingOn.name(), "HalvingOn");
    assert_eq!(GamepadMessage::HalvingOff.name(), "HalvingOff");
    assert_eq!(GamepadMessage::HalvingLeft.name(), "HalvingLeft");
    assert_eq!(GamepadMessage::HalvingRight.name(), "HalvingRight");
    assert_eq!(GamepadMessage::Enter.name(), "Enter");
    assert_eq!(GamepadMessage::Delete.name(), "Delete");
    assert_eq!(GamepadMessage::Lowercase.name(), "Lowercase");
    assert_eq!(GamepadMessage::Uppercase.name(), "Uppercase");
    assert_eq!(GamepadMessage::Space.name(), "Space");
}
