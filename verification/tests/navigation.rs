use halving_keyboard::gamepad::GamepadMessage;
use halving_keyboard::navigation::{
    apply, halve_left, halve_right, next_halving_targets, LAST_LETTER, MAX_JUMPS,
};

#[test]
fn step_left_moves_one_cell() {
    assert_eq!(apply(12, GamepadMessage::OneLeft, 25), 11);
    assert_eq!(apply(1, GamepadMessage::OneLeft, 25), 0);
}

#[test]
fn step_left_stops_at_the_first_cell() {
    assert_eq!(apply(0, GamepadMessage::OneLeft, 25), 0);
}

#[test]
fn step_right_moves_one_cell() {
    assert_eq!(apply(12, GamepadMessage::OneRight, 25), 13);
    assert_eq!(apply(24, GamepadMessage::OneRight, 25), 25);
}

#[test]
fn step_right_stops_at_the_last_cell() {
    assert_eq!(apply(25, GamepadMessage::OneRight, 25), 25);
}

#[test]
fn halve_left_rounds_down() {
    assert_eq!(apply(12, GamepadMessage::HalvingLeft, 25), 6);
    assert_eq!(apply(13, GamepadMessage::HalvingLeft, 25), 6);
    assert_eq!(apply(1, GamepadMessage::HalvingLeft, 25), 0);
    assert_eq!(apply(0, GamepadMessage::HalvingLeft, 25), 0);
    assert_eq!(apply(25, GamepadMessage::HalvingLeft, 25), 12);
}

#[test]
fn halve_right_rounds_the_jump_up() {
    assert_eq!(apply(0, GamepadMessage::HalvingRight, 25), 13);
    assert_eq!(apply(12, GamepadMessage::HalvingRight, 25), 19);
    assert_eq!(apply(13, GamepadMessage::HalvingRight, 25), 19);
    assert_eq!(apply(24, GamepadMessage::HalvingRight, 25), 25);
    assert_eq!(apply(25, GamepadMessage::HalvingRight, 25), 25);
}

#[test]
fn other_actions_leave_the_cursor() {
    let others = [
        GamepadMessage::HalvingOn,
        GamepadMessage::HalvingOff,
        GamepadMessage::Enter,
        GamepadMessage::Delete,
        GamepadMessage::Lowercase,
        GamepadMessage::Uppercase,
        GamepadMessage::Space,
    ];
    for action in others {
        for p in 0..=25usize {
            assert_eq!(apply(p, action, 25), p);
        }
    }
}

#[test]
fn positions_beyond_the_row_are_brought_back() {
    assert_eq!(apply(30, GamepadMessage::OneLeft, 25), 25);
    assert_eq!(apply(26, GamepadMessage::OneLeft, 25), 25);
    assert_eq!(apply(30, GamepadMessage::OneRight, 25), 25);
    assert_eq!(apply(usize::MAX, GamepadMessage::OneRight, 25), 25);
    assert_eq!(apply(40, GamepadMessage::HalvingLeft, 25), 20);
    assert_eq!(apply(100, GamepadMessage::HalvingLeft, 25), 25);
    assert_eq!(apply(30, GamepadMessage::HalvingRight, 25), 25);
    assert_eq!(apply(usize::MAX, GamepadMessage::HalvingRight, 25), 25);
}

#[test]
fn left_then_right_returns() {
    for last in 0..40usize {
        for p in 1..=last {
            let there = apply(p, GamepadMessage::OneLeft, last);
            assert_eq!(apply(there, GamepadMessage::OneRight, last), p);
        }
    }
}

#[test]
fn halve_left_descends_to_the_start() {
    for p in 1..=LAST_LETTER {
        let next = apply(p, GamepadMessage::HalvingLeft, LAST_LETTER);
        assert!(next < p);
    }
    for start in 0..=LAST_LETTER {
        let mut p = start;
        for _ in 0..MAX_JUMPS {
            p = apply(p, GamepadMessage::HalvingLeft, LAST_LETTER);
        }
        assert_eq!(p, 0);
    }
}

#[test]
fn halve_right_ascends_to_the_end() {
    for p in 0..LAST_LETTER {
        let next = apply(p, GamepadMessage::HalvingRight, LAST_LETTER);
        assert!(next > p);
    }
    for start in 0..=LAST_LETTER {
        let mut p = start;
        for _ in 0..MAX_JUMPS {
            p = apply(p, GamepadMessage::HalvingRight, LAST_LETTER);
        }
        assert_eq!(p, 25);
    }
}

#[test]
fn halve_right_path_from_the_start() {
    let mut p = 0usize;
    let mut path = Vec::new();
    while p < 25 {
        p = apply(p, GamepadMessage::HalvingRight, 25);
        path.push(p);
    }
    assert_eq!(path, vec![13, 19, 22, 24, 25]);
}

#[test]
fn halve_left_path_from_the_end() {
    let mut p = 25usize;
    let mut path = Vec::new();
    while p > 0 {
        p = apply(p, GamepadMessage::HalvingLeft, 25);
        path.push(p);
    }
    assert_eq!(path, vec![12, 6, 3, 1, 0]);
}

#[test]
fn targets_are_where_the_jumps_land() {
    for p in 0..=25usize {
        let (left, right) = next_halving_targets(p, 25);
        assert_eq!(left, apply(p, GamepadMessage::HalvingLeft, 25));
        assert_eq!(right, apply(p, GamepadMessage::HalvingRight, 25));
        assert_eq!(left, halve_left(p, 25));
        assert_eq!(right, halve_right(p, 25));
    }
    assert_eq!(next_halving_targets(12, 25), (6, 19));
    assert_eq!(next_halving_targets(0, 25), (0, 13));
    assert_eq!(next_halving_targets(25, 25), (12, 25));
}

#[test]
fn a_row_of_one_cell_never_moves() {
    assert_eq!(apply(0, GamepadMessage::OneLeft, 0), 0);
    assert_eq!(apply(0, GamepadMessage::OneRight, 0), 0);
    assert_eq!(apply(0, GamepadMessage::HalvingLeft, 0), 0);
    assert_eq!(apply(0, GamepadMessage::HalvingRight, 0), 0);
}
