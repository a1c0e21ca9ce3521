//! Core logic of a small handheld device: a phone-style keypad drives a
//! multi-tap text-entry engine whose character decisions fill a text buffer.
//! The modules here hold the device's decision logic — key tables, the
//! multi-tap state machine, the text buffer, menu and game models, clock
//! formatting, one-time-password codes and the ringtone parser — while
//! all hardware access, drawing and asynchronous plumbing stay with the
//! surrounding application.

pub mod clock;
pub mod keyboard;
pub mod keypad;
pub mod menu;
pub mod multi_tap;
pub mod otp;
pub mod rtttl;
pub mod shared;
pub mod snake;
pub mod text_input;
