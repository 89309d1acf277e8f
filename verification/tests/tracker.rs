use halving_keyboard::buttons::{ButtonId, ButtonSet, PadButton, PadEvent};
use halving_keyboard::channel::GamepadChannel;
use halving_keyboard::gamepad::GamepadMessage;
use halving_keyboard::keyboard::{HalvingKeyboardMessage, KeyboardApp};
use halving_keyboard::navigation::apply;
use halving_keyboard::tracker::Tracker;

fn received(ch: &mut GamepadChannel) -> Vec<GamepadMessage> {
    let mut all = Vec::new();
    while let Some(m) = ch.try_recv() {
        all.push(m);
    }
    all
}

fn cycle(t: &mut Tracker, events: Vec<PadEvent>) -> Vec<GamepadMessage> {
    let mut ch = GamepadChannel::new();
    t.run_cycle(&events, &mut ch);
    received(&mut ch)
}

#[test]
fn pad_buttons_map_to_the_buttons_listened_to() {
    assert_eq!(ButtonId::of_pad(PadButton::DPadLeft), Some(ButtonId::Left));
    assert_eq!(ButtonId::of_pad(PadButton::DPadRight), Some(ButtonId::Right));
    assert_eq!(ButtonId::of_pad(PadButton::South), Some(ButtonId::Confirm));
    assert_eq!(ButtonId::of_pad(PadButton::West), Some(ButtonId::Delete));
    assert_eq!(ButtonId::of_pad(PadButton::North), Some(ButtonId::Space));
    assert_eq!(ButtonId::of_pad(PadButton::LeftTrigger), Some(ButtonId::CaseTrigger));
    assert_eq!(ButtonId::of_pad(PadButton::RightTrigger), Some(ButtonId::HalvingTrigger));
    let ignored = [
        PadButton::East,
        PadButton::C,
        PadButton::Z,
        PadButton::LeftTrigger2,
        PadButton::RightTrigger2,
        PadButton::Select,
        PadButton::Start,
        PadButton::Mode,
        PadButton::LeftThumb,
        PadButton::RightThumb,
        PadButton::DPadUp,
        PadButton::DPadDown,
        PadButton::Unknown,
    ];
    for b in ignored {
        assert_eq!(ButtonId::of_pad(b), None);
    }
}

#[test]
fn button_set_inserts_and_removes() {
    let mut s = ButtonSet::new();
    assert!(!s.contains(ButtonId::Left));
    s.insert(ButtonId::Left);
    s.insert(ButtonId::Space);
    assert!(s.contains(ButtonId::Left));
    assert!(s.contains(ButtonId::Space));
    assert!(!s.contains(ButtonId::Right));
    s.remove(ButtonId::Left);
    assert!(!s.contains(ButtonId::Left));
    assert!(s.contains(ButtonId::Space));
    let mut other = ButtonSet::new();
    other.insert(ButtonId::HalvingTrigger);
    other.absorb(&s);
    assert!(other.contains(ButtonId::HalvingTrigger));
    assert!(other.contains(ButtonId::Space));
    assert!(!other.contains(ButtonId::Left));
}

#[test]
fn a_new_tracker_fires_nothing() {
    let mut t = Tracker::new();
    assert_eq!(cycle(&mut t, vec![]), vec![]);
    assert!(!t.halving());
    assert!(!t.is_held(ButtonId::Left));
    assert!(!t.is_reported(ButtonId::Left));
}

#[test]
fn a_press_fires_once_while_held() {
    let mut t = Tracker::new();
    assert_eq!(
        cycle(&mut t, vec![PadEvent::Pressed(PadButton::DPadLeft)]),
        vec![GamepadMessage::OneLeft]
    );
    assert!(t.is_held(ButtonId::Left));
    assert!(t.is_reported(ButtonId::Left));
    for _ in 0..10 {
        assert_eq!(cycle(&mut t, vec![]), vec![]);
    }
}

#[test]
fn a_press_is_not_sent_before_the_poll() {
    let mut t = Tracker::new();
    let mut ch = GamepadChannel::new();
    t.on_press(ButtonId::Confirm);
    t.handle_event(PadEvent::Pressed(PadButton::North), &mut ch);
    assert!(ch.is_empty());
    assert!(t.is_held(ButtonId::Confirm));
    assert!(!t.is_reported(ButtonId::Confirm));
    t.poll(&mut ch);
    assert_eq!(received(&mut ch), vec![GamepadMessage::Enter, GamepadMessage::Space]);
    assert!(t.is_reported(ButtonId::Confirm));
}

#[test]
fn each_button_fires_its_action() {
    let cases = [
        (PadButton::DPadLeft, GamepadMessage::OneLeft),
        (PadButton::DPadRight, GamepadMessage::OneRight),
        (PadButton::South, GamepadMessage::Enter),
        (PadButton::West, GamepadMessage::Delete),
        (PadButton::North, GamepadMessage::Space),
        (PadButton::LeftTrigger, GamepadMessage::Uppercase),
        (PadButton::RightTrigger, GamepadMessage::HalvingOn),
    ];
    for (button, action) in cases {
        let mut t = Tracker::new();
        assert_eq!(cycle(&mut t, vec![PadEvent::Pressed(button)]), vec![action]);
    }
}

#[test]
fn releasing_a_trigger_sends_at_once() {
    let mut t = Tracker::new();
    assert_eq!(
        cycle(&mut t, vec![PadEvent::Pressed(PadButton::RightTrigger)]),
        vec![GamepadMessage::HalvingOn]
    );
    assert!(t.halving());
    assert_eq!(
        cycle(&mut t, vec![PadEvent::Released(PadButton::RightTrigger)]),
        vec![GamepadMessage::HalvingOff]
    );
    assert!(!t.halving());
    assert_eq!(
        cycle(&mut t, vec![PadEvent::Pressed(PadButton::LeftTrigger)]),
        vec![GamepadMessage::Uppercase]
    );
    assert_eq!(
        cycle(&mut t, vec![PadEvent::Released(PadButton::LeftTrigger)]),
        vec![GamepadMessage::Lowercase]
    );
    let mut ch = GamepadChannel::new();
    t.on_release(ButtonId::Left, &mut ch);
    t.on_release(ButtonId::Confirm, &mut ch);
    assert!(ch.is_empty());
}

#[test]
fn a_trigger_tapped_within_one_cycle_only_reports_its_release() {
    let mut t = Tracker::new();
    assert_eq!(
        cycle(
            &mut t,
            vec![
                PadEvent::Pressed(PadButton::RightTrigger),
                PadEvent::Released(PadButton::RightTrigger)
            ]
        ),
        vec![GamepadMessage::HalvingOff]
    );
}

#[test]
fn unknown_buttons_and_other_events_are_ignored() {
    let mut t = Tracker::new();
    assert_eq!(
        cycle(
            &mut t,
            vec![
                PadEvent::Pressed(PadButton::East),
                PadEvent::Other,
                PadEvent::Pressed(PadButton::Start),
                PadEvent::Released(PadButton::DPadUp),
                PadEvent::Released(PadButton::Unknown),
            ]
        ),
        vec![]
    );
}

#[test]
fn direction_with_the_trigger_held_jumps() {
    let mut t = Tracker::new();
    assert_eq!(
        cycle(&mut t, vec![PadEvent::Pressed(PadButton::RightTrigger)]),
        vec![GamepadMessage::HalvingOn]
    );
    assert_eq!(
        cycle(&mut t, vec![PadEvent::Pressed(PadButton::DPadLeft)]),
        vec![GamepadMessage::HalvingLeft]
    );
    assert_eq!(
        cycle(&mut t, vec![PadEvent::Pressed(PadButton::DPadRight)]),
        vec![GamepadMessage::HalvingRight]
    );
    assert_eq!(cycle(&mut t, vec![]), vec![]);
}

#[test]
fn mode_on_comes_before_a_jump_of_the_same_cycle() {
    let mut t = Tracker::new();
    assert_eq!(
        cycle(
            &mut t,
            vec![
                PadEvent::Pressed(PadButton::DPadLeft),
                PadEvent::Pressed(PadButton::RightTrigger)
            ]
        ),
        vec![GamepadMessage::HalvingOn, GamepadMessage::HalvingLeft]
    );
    let mut t = Tracker::new();
    assert_eq!(
        cycle(
            &mut t,
            vec![
                PadEvent::Pressed(PadButton::RightTrigger),
                PadEvent::Pressed(PadButton::DPadRight)
            ]
        ),
        vec![GamepadMessage::HalvingOn, GamepadMessage::HalvingRight]
    );
    assert_eq!(cycle(&mut t, vec![]), vec![]);
}

#[test]
fn buttons_of_one_cycle_fire_in_a_fixed_order() {
    let mut t = Tracker::new();
    let fired = cycle(
        &mut t,
        vec![
            PadEvent::Pressed(PadButton::LeftTrigger),
            PadEvent::Pressed(PadButton::North),
            PadEvent::Pressed(PadButton::West),
            PadEvent::Pressed(PadButton::South),
            PadEvent::Pressed(PadButton::DPadRight),
            PadEvent::Pressed(PadButton::DPadLeft),
        ],
    );
    assert_eq!(
        fired,
        vec![
            GamepadMessage::OneLeft,
            GamepadMessage::OneRight,
            GamepadMessage::Enter,
            GamepadMessage::Delete,
            GamepadMessage::Space,
            GamepadMessage::Uppercase,
        ]
    );
    let mut t = Tracker::new();
    let fired = cycle(
        &mut t,
        vec![
            PadEvent::Pressed(PadButton::RightTrigger),
            PadEvent::Pressed(PadButton::LeftTrigger),
            PadEvent::Pressed(PadButton::South),
        ],
    );
    assert_eq!(
        fired,
        vec![GamepadMessage::Enter, GamepadMessage::Uppercase, GamepadMessage::HalvingOn]
    );
}

#[test]
fn a_held_direction_does_not_fire_again_across_a_mode_toggle() {
    let mut t = Tracker::new();
    assert_eq!(
        cycle(&mut t, vec![PadEvent::Pressed(PadButton::DPadLeft)]),
        vec![GamepadMessage::OneLeft]
    );
    assert_eq!(
        cycle(&mut t, vec![PadEvent::Pressed(PadButton::RightTrigger)]),
        vec![GamepadMessage::HalvingOn]
    );
    assert_eq!(cycle(&mut t, vec![]), vec![]);
    assert_eq!(
        cycle(&mut t, vec![PadEvent::Released(PadButton::RightTrigger)]),
        vec![GamepadMessage::HalvingOff]
    );
    assert_eq!(cycle(&mut t, vec![]), vec![]);
    assert!(t.is_reported(ButtonId::Left));

    let mut t = Tracker::new();
    assert_eq!(
        cycle(&mut t, vec![PadEvent::Pressed(PadButton::DPadRight)]),
        vec![GamepadMessage::OneRight]
    );
    assert_eq!(
        cycle(&mut t, vec![PadEvent::Pressed(PadButton::RightTrigger)]),
        vec![GamepadMessage::HalvingOn]
    );
    assert_eq!(
        cycle(&mut t, vec![PadEvent::Released(PadButton::RightTrigger)]),
        vec![GamepadMessage::HalvingOff]
    );
    assert_eq!(cycle(&mut t, vec![]), vec![]);
}

#[test]
fn a_release_lets_the_button_fire_again() {
    let mut t = Tracker::new();
    assert_eq!(
        cycle(&mut t, vec![PadEvent::Pressed(PadButton::DPadLeft)]),
        vec![GamepadMessage::OneLeft]
    );
    assert_eq!(cycle(&mut t, vec![PadEvent::Released(PadButton::DPadLeft)]), vec![]);
    assert!(!t.is_reported(ButtonId::Left));
    assert_eq!(
        cycle(&mut t, vec![PadEvent::Pressed(PadButton::DPadLeft)]),
        vec![GamepadMessage::OneLeft]
    );
    assert_eq!(
        cycle(
            &mut t,
            vec![
                PadEvent::Released(PadButton::DPadLeft),
                PadEvent::Pressed(PadButton::DPadLeft)
            ]
        ),
        vec![GamepadMessage::OneLeft]
    );
}

#[test]
fn actions_of_several_cycles_queue_in_order() {
    let mut t = Tracker::new();
    let mut ch = GamepadChannel::new();
    t.run_cycle(&vec![PadEvent::Pressed(PadButton::DPadLeft)], &mut ch);
    t.run_cycle(&vec![PadEvent::Pressed(PadButton::South)], &mut ch);
    t.run_cycle(
        &vec![
            PadEvent::Released(PadButton::DPadLeft),
            PadEvent::Pressed(PadButton::RightTrigger),
        ],
        &mut ch,
    );
    assert_eq!(
        received(&mut ch),
        vec![GamepadMessage::OneLeft, GamepadMessage::Enter, GamepadMessage::HalvingOn]
    );
}

fn play(app: &mut KeyboardApp, actions: Vec<GamepadMessage>) {
    for a in actions {
        app.update(HalvingKeyboardMessage::Gamepad(a), 0);
    }
}

#[test]
fn scenario_press_left_from_the_middle() {
    let mut t = Tracker::new();
    let mut app = KeyboardApp::new();
    assert_eq!(app.selected_index(), 12);
    let fired = cycle(&mut t, vec![PadEvent::Pressed(PadButton::DPadLeft)]);
    assert_eq!(fired, vec![GamepadMessage::OneLeft]);
    play(&mut app, fired);
    assert_eq!(app.selected_index(), 11);
}

#[test]
fn scenario_hold_trigger_press_left_from_the_middle() {
    let mut t = Tracker::new();
    let mut app = KeyboardApp::new();
    let fired = cycle(&mut t, vec![PadEvent::Pressed(PadButton::RightTrigger)]);
    play(&mut app, fired);
    let fired = cycle(&mut t, vec![PadEvent::Pressed(PadButton::DPadLeft)]);
    assert_eq!(fired, vec![GamepadMessage::HalvingLeft]);
    play(&mut app, fired);
    assert_eq!(app.selected_index(), 6);
}

#[test]
fn scenario_trigger_then_right_from_the_start() {
    let mut t = Tracker::new();
    let fired = cycle(
        &mut t,
        vec![PadEvent::Pressed(PadButton::RightTrigger), PadEvent::Pressed(PadButton::DPadRight)],
    );
    assert_eq!(fired, vec![GamepadMessage::HalvingOn, GamepadMessage::HalvingRight]);
    let mut p = 0usize;
    for a in fired {
        p = apply(p, a, 25);
    }
    assert_eq!(p, 13);
}

#[test]
fn scenario_trigger_then_right_from_the_end() {
    let mut t = Tracker::new();
    let first = cycle(&mut t, vec![PadEvent::Pressed(PadButton::RightTrigger)]);
    let second = cycle(&mut t, vec![PadEvent::Pressed(PadButton::DPadRight)]);
    assert_eq!(second, vec![GamepadMessage::HalvingRight]);
    let mut p = 25usize;
    for a in first.into_iter().chain(second) {
        p = apply(p, a, 25);
    }
    assert_eq!(p, 25);
}
