use halving_keyboard::channel::GamepadChannel;
use halving_keyboard::gamepad::GamepadMessage;

#[test]
fn a_new_channel_is_empty() {
    let mut ch = GamepadChannel::new();
    assert!(ch.is_empty());
    assert_eq!(ch.len(), 0);
    assert_eq!(ch.try_recv(), None);
    assert!(ch.is_empty());
}

#[test]
fn sent_first_is_received_first() {
    let mut ch = GamepadChannel::new();
    ch.send(GamepadMessage::OneLeft);
    ch.send(GamepadMessage::Enter);
    assert_eq!(ch.len(), 2);
    assert_eq!(ch.try_recv(), Some(GamepadMessage::OneLeft));
    assert_eq!(ch.try_recv(), Some(GamepadMessage::Enter));
    assert_eq!(ch.try_recv(), None);
}

#[test]
fn order_holds_when_sends_and_receipts_alternate() {
    let mut ch = GamepadChannel::new();
    ch.send(GamepadMessage::HalvingOn);
    ch.send(GamepadMessage::HalvingLeft);
    assert_eq!(ch.try_recv(), Some(GamepadMessage::HalvingOn));
    ch.send(GamepadMessage::HalvingOff);
    assert_eq!(ch.try_recv(), Some(GamepadMessage::HalvingLeft));
    assert_eq!(ch.try_recv(), Some(GamepadMessage::HalvingOff));
    assert_eq!(ch.try_recv(), None);
}

#[test]
fn nothing_is_lost_of_many() {
    let mut ch = GamepadChannel::new();
    for i in 0..1000 {
        ch.send(if i % 2 == 0 { GamepadMessage::OneLeft } else { GamepadMessage::OneRight });
    }
    assert_eq!(ch.len(), 1000);
    for i in 0..1000 {
        let expected = if i % 2 == 0 { GamepadMessage::OneLeft } else { GamepadMessage::OneRight };
        assert_eq!(ch.try_recv(), Some(expected));
    }
    assert!(ch.is_empty());
}
