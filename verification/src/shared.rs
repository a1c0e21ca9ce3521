//! The vocabulary shared between the applications and the hardware around
//! them: the device's key set, its actuator capabilities, and what an
//! application can hand back to the USB layer. The concrete drivers live
//! with the surrounding application; only their shapes are fixed here.

use vstd::prelude::*;

verus! {

/// Turns the display backlight on and off.
pub trait Backlight {
    fn on(&mut self);

    fn off(&mut self);
}

/// Starts and stops the vibration motor.
pub trait VibrationMotor {
    fn start(&mut self);

    fn stop(&mut self);
}

/// Drives the buzzer's tone and loudness.
pub trait Buzzer {
    fn set_frequency(&mut self, frequency: u16);

    fn set_volume(&mut self, volume: u8);

    fn mute(&mut self);

    fn unmute(&mut self);
}

/// An edge of the power button.
#[derive(Debug, Clone, Copy, PartialEq, Eq)]
pub enum ButtonEvent {
    Up,
    Down,
}

/// A real-time clock: seconds since the Unix epoch.
pub trait Rtc {
    fn timestamp(&mut self) -> i64;
}

/// Every key of the device: the four navigation keys and the twelve
/// character keys.
#[derive(Debug, Clone, Copy, PartialEq, Eq, Structural)]
pub enum Key {
    Select,
    Cancel,
    Up,
    Down,
    One,
    Two,
    Three,
    Four,
    Five,
    Six,
    Seven,
    Eight,
    Nine,
    Asterisk,
    Zero,
    Hash,
}

/// A key going up or down.
#[derive(Debug, Clone, Copy, PartialEq, Eq, Structural)]
pub enum KeyEvent {
    Up(Key),
    Down(Key),
}

/// A frame received over USB.
pub type UsbRx = [u8; 64];

/// What an application hands the USB layer: a raw frame for the serial
/// channel, or one character to type through the keyboard interface.
#[derive(Debug, Clone, Copy, PartialEq, Eq)]
pub enum UsbTx {
    CdcBuffer([u8; 64]),
    HidChar(char),
}

} // verus!
