//! The keyboard-emulator application's decision logic: each key down
//! becomes one character typed over the USB keyboard interface; key ups
//! produce nothing. The USB endpoint itself lives with the surrounding
//! application.

use vstd::prelude::*;

use crate::shared::{Key, KeyEvent, UsbTx};

verus! {

/// The keyboard-emulator application.
#[derive(Debug, Clone, Copy, PartialEq, Eq, Structural)]
pub struct Keyboard;

/// The character the emulator types for one key event, if any: every key
/// down maps to one character, every key up to nothing.
pub open spec fn spec_keyboard_response(event: KeyEvent) -> Option<UsbTx> {
    match event {
        KeyEvent::Down(Key::Down) => Some(UsbTx::HidChar('d')),
        KeyEvent::Down(Key::Up) => Some(UsbTx::HidChar('u')),
        KeyEvent::Down(Key::Select) => Some(UsbTx::HidChar('s')),
        KeyEvent::Down(Key::Cancel) => Some(UsbTx::HidChar('c')),
        KeyEvent::Down(Key::One) => Some(UsbTx::HidChar('1')),
        KeyEvent::Down(Key::Two) => Some(UsbTx::HidChar('2')),
        KeyEvent::Down(Key::Three) => Some(UsbTx::HidChar('3')),
        KeyEvent::Down(Key::Four) => Some(UsbTx::HidChar('4')),
        KeyEvent::Down(Key::Five) => Some(UsbTx::HidChar('5')),
        KeyEvent::Down(Key::Six) => Some(UsbTx::HidChar('6')),
        KeyEvent::Down(Key::Seven) => Some(UsbTx::HidChar('7')),
        KeyEvent::Down(Key::Eight) => Some(UsbTx::HidChar('8')),
        KeyEvent::Down(Key::Nine) => Some(UsbTx::HidChar('9')),
        KeyEvent::Down(Key::Asterisk) => Some(UsbTx::HidChar('*')),
        KeyEvent::Down(Key::Zero) => Some(UsbTx::HidChar('0')),
        KeyEvent::Down(Key::Hash) => Some(UsbTx::HidChar('#')),
        KeyEvent::Up(_) => None,
    }
}

impl Keyboard {
    pub fn new() -> (k: Keyboard)
        ensures
            k == (Keyboard),
    {
        Keyboard
    }

    /// Decide what one key event types.
    pub fn respond(&self, event: KeyEvent) -> (r: Option<UsbTx>)
        ensures
            r == spec_keyboard_response(event),
    {
        match event {
            KeyEvent::Down(Key::Down) => Some(UsbTx::HidChar('d')),
            KeyEvent::Down(Key::Up) => Some(UsbTx::HidChar('u')),
            KeyEvent::Down(Key::Select) => Some(UsbTx::HidChar('s')),
            KeyEvent::Down(Key::Cancel) => Some(UsbTx::HidChar('c')),
            KeyEvent::Down(Key::One) => Some(UsbTx::HidChar('1')),
            KeyEvent::Down(Key::Two) => Some(UsbTx::HidChar('2')),
            KeyEvent::Down(Key::Three) => Some(UsbTx::HidChar('3')),
            KeyEvent::Down(Key::Four) => Some(UsbTx::HidChar('4')),
            KeyEvent::Down(Key::Five) => Some(UsbTx::HidChar('5')),
            KeyEvent::Down(Key::Six) => Some(UsbTx::HidChar('6')),
            KeyEvent::Down(Key::Seven) => Some(UsbTx::HidChar('7')),
            KeyEvent::Down(Key::Eight) => Some(UsbTx::HidChar('8')),
            KeyEvent::Down(Key::Nine) => Some(UsbTx::HidChar('9')),
            KeyEvent::Down(Key::Asterisk) => Some(UsbTx::HidChar('*')),
            KeyEvent::Down(Key::Zero) => Some(UsbTx::HidChar('0')),
            KeyEvent::Down(Key::Hash) => Some(UsbTx::HidChar('#')),
            KeyEvent::Up(_) => None,
        }
    }
}

impl Default for Keyboard {
    fn default() -> (k: Keyboard)
        ensures
            k == (Keyboard),
    {
        Keyboard
    }
}

} // verus!
