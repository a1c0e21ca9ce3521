use handheld::clock::{clock_text, to_char, Clock};
use handheld::keyboard::Keyboard;
use handheld::menu::{AppMenu, Menu};
use handheld::shared::{Key, KeyEvent, UsbTx};

#[test]
fn clock_text_formats_the_time_of_day() {
    assert_eq!(clock_text(0), "00:00:00");
    assert_eq!(clock_text(3661), "01:01:01");
    assert_eq!(clock_text(86399), "23:59:59");
    // A timestamp later than a day keeps only the time of day.
    assert_eq!(clock_text(86400 + 7 * 3600 + 30 * 60 + 9), "07:30:09");
    let _ = Clock::new();
}

#[test]
fn to_char_covers_the_digits() {
    assert_eq!(to_char(0), '0');
    assert_eq!(to_char(9), '9');
    assert_eq!(to_char(12), '?');
}

#[test]
fn keyboard_types_one_character_per_key_down() {
    let keyboard = Keyboard::new();
    assert_eq!(keyboard.respond(KeyEvent::Down(Key::One)), Some(UsbTx::HidChar('1')));
    assert_eq!(keyboard.respond(KeyEvent::Down(Key::Select)), Some(UsbTx::HidChar('s')));
    assert_eq!(keyboard.respond(KeyEvent::Down(Key::Hash)), Some(UsbTx::HidChar('#')));
    assert_eq!(keyboard.respond(KeyEvent::Up(Key::One)), None);
}

#[test]
fn menu_moves_and_selects() {
    let items = vec![String::from("first"), String::from("second"), String::from("third")];
    let mut menu = Menu::new(items);
    assert_eq!(menu.process(KeyEvent::Down(Key::Down)), None);
    assert_eq!(menu.index, 1);
    assert_eq!(menu.process(KeyEvent::Down(Key::Select)), Some(1));
    assert_eq!(menu.process(KeyEvent::Down(Key::Up)), None);
    assert_eq!(menu.index, 0);
    // Wrap both ways.
    assert_eq!(menu.process(KeyEvent::Down(Key::Up)), None);
    assert_eq!(menu.index, 2);
    assert_eq!(menu.process(KeyEvent::Down(Key::Down)), None);
    assert_eq!(menu.index, 0);
    // Other keys do nothing.
    assert_eq!(menu.process(KeyEvent::Down(Key::Five)), None);
    assert_eq!(menu.process(KeyEvent::Up(Key::Down)), None);
    assert_eq!(menu.index, 0);
}

#[test]
fn app_menu_starts_on_the_first_item() {
    let app = AppMenu::default();
    assert_eq!(app.0.items, vec!["Apple", "Banana", "Carrot"]);
    assert_eq!(app.0.index, 0);
}
