use handheld::keypad::{button_to_char, next_char, Button};

#[test]
fn first_candidates() {
    assert_eq!(button_to_char(Button::One), '1');
    assert_eq!(button_to_char(Button::Two), 'A');
    assert_eq!(button_to_char(Button::Seven), 'P');
    assert_eq!(button_to_char(Button::Nine), 'W');
    assert_eq!(button_to_char(Button::Asterisk), '*');
    assert_eq!(button_to_char(Button::Zero), ' ');
    assert_eq!(button_to_char(Button::Hash), '#');
}

#[test]
fn letter_cycles_wrap() {
    // A three-letter key wraps after three taps.
    assert_eq!(next_char('A'), 'B');
    assert_eq!(next_char('B'), 'C');
    assert_eq!(next_char('C'), 'A');
    // A four-letter key wraps after four.
    assert_eq!(next_char('P'), 'Q');
    assert_eq!(next_char('Q'), 'R');
    assert_eq!(next_char('R'), 'S');
    assert_eq!(next_char('S'), 'P');
}

#[test]
fn digit_cycle_wraps_after_ten() {
    let mut c = button_to_char(Button::One);
    for _ in 0..10 {
        c = next_char(c);
    }
    assert_eq!(c, '1');
}

#[test]
fn single_candidate_keys_are_fixed() {
    assert_eq!(next_char('*'), '*');
    assert_eq!(next_char(' '), ' ');
    assert_eq!(next_char('#'), '#');
}
