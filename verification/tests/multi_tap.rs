use handheld::keypad::{Button, Event as KeypadEvent};
use handheld::multi_tap::{Event, MultiTap, Race};

fn down(b: Button) -> Race<Button> {
    Race::Key(KeypadEvent::Down(b))
}

#[test]
fn test_one() {
    let mut multi_tap: MultiTap<Button> = MultiTap::new();
    assert_eq!(multi_tap.event(down(Button::One)), Some(Event::Tentative('1')));
}

#[test]
fn test_one_two() {
    let mut multi_tap: MultiTap<Button> = MultiTap::new();

    assert_eq!(multi_tap.event(down(Button::One)), Some(Event::Tentative('1')));
    assert_eq!(multi_tap.event(down(Button::Two)), Some(Event::Decided('1')));
    assert_eq!(multi_tap.take_pending(), Some(Event::Tentative('A')));
}

#[test]
fn test_one_one() {
    let mut multi_tap: MultiTap<Button> = MultiTap::new();

    assert_eq!(multi_tap.event(down(Button::One)), Some(Event::Tentative('1')));
    assert_eq!(multi_tap.take_pending(), None);
    assert_eq!(multi_tap.event(down(Button::One)), Some(Event::Tentative('2')));
}

#[test]
fn test_one_timeout() {
    let mut multi_tap: MultiTap<Button> = MultiTap::new();
    assert_eq!(multi_tap.event(down(Button::One)), Some(Event::Tentative('1')));
    assert_eq!(multi_tap.event(Race::Timeout), Some(Event::Decided('1')));
}

#[test]
fn test_one_two_timeout() {
    let mut multi_tap: MultiTap<Button> = MultiTap::new();

    assert_eq!(multi_tap.event(down(Button::One)), Some(Event::Tentative('1')));
    assert_eq!(multi_tap.event(down(Button::Two)), Some(Event::Decided('1')));
    assert_eq!(multi_tap.take_pending(), Some(Event::Tentative('A')));
    assert_eq!(multi_tap.event(Race::Timeout), Some(Event::Decided('A')));
}

#[test]
fn test_one_one_timeout() {
    let mut multi_tap: MultiTap<Button> = MultiTap::new();

    assert_eq!(multi_tap.event(down(Button::One)), Some(Event::Tentative('1')));
    assert_eq!(multi_tap.event(down(Button::One)), Some(Event::Tentative('2')));
    assert_eq!(multi_tap.event(Race::Timeout), Some(Event::Decided('2')));
}

#[test]
fn timeout_while_idle_is_a_quiet_tick() {
    let mut multi_tap: MultiTap<Button> = MultiTap::new();
    assert_eq!(multi_tap.event(Race::Timeout), None);
    assert!(multi_tap.last_press.is_none());
    assert!(multi_tap.last_emitted.is_none());
    assert!(multi_tap.pending.is_none());
}

#[test]
fn no_double_decide_after_timeout() {
    let mut multi_tap: MultiTap<Button> = MultiTap::new();
    assert_eq!(multi_tap.event(down(Button::Five)), Some(Event::Tentative('J')));
    assert_eq!(multi_tap.event(Race::Timeout), Some(Event::Decided('J')));
    // The engine is idle again: a second timeout reports nothing and moves
    // nothing.
    assert!(multi_tap.last_press.is_none());
    assert!(multi_tap.last_emitted.is_none());
    assert_eq!(multi_tap.event(Race::Timeout), None);
    assert!(multi_tap.last_press.is_none());
    assert!(multi_tap.last_emitted.is_none());
}

#[test]
fn key_up_is_ignored() {
    let mut multi_tap: MultiTap<Button> = MultiTap::new();
    assert_eq!(multi_tap.event(down(Button::Two)), Some(Event::Tentative('A')));
    assert_eq!(multi_tap.event(Race::Key(KeypadEvent::Up(Button::Two))), None);
    assert_eq!(multi_tap.event(down(Button::Two)), Some(Event::Tentative('B')));
}

#[test]
fn switching_updates_state_and_queues() {
    let mut multi_tap: MultiTap<Button> = MultiTap::new();
    assert_eq!(multi_tap.event(down(Button::Seven)), Some(Event::Tentative('P')));
    assert_eq!(multi_tap.event(down(Button::Nine)), Some(Event::Decided('P')));
    assert_eq!(multi_tap.pending, Some(Event::Tentative('W')));
    assert_eq!(multi_tap.last_press, Some(Button::Nine));
    assert_eq!(multi_tap.take_pending(), Some(Event::Tentative('W')));
    assert_eq!(multi_tap.pending, None);
}
