//! The physical keypad's vocabulary: raw key events, the twelve character
//! keys, and the static tables that map each key to its cycle of candidate
//! characters.

use vstd::prelude::*;

use crate::multi_tap::CandidateKey;

verus! {

/// A raw event from a keypad: a key of type `B` going down or coming up.
#[derive(Debug, Clone, Copy, PartialEq, Eq)]
pub enum Event<B> {
    Down(B),
    Up(B),
}

/// The twelve character-cycling keys of a phone-style keypad.
///
/// Navigation keys (cancel, select, up, down) are deliberately not part of
/// this enumeration: they never reach the multi-tap engine, and keeping them
/// out of the type makes that boundary static rather than a runtime check.
#[derive(Debug, Clone, Copy, PartialEq, Eq, Structural)]
pub enum Button {
    One,
    Two,
    Three,
    Four,
    Five,
    Six,
    Seven,
    Eight,
    Nine,
    Asterisk,
    Zero,
    Hash,
}

/// The character produced by a single tap of `b`: the first entry of the
/// key's candidate cycle.
pub open spec fn spec_button_char(b: Button) -> char {
    match b {
        Button::One => '1',
        Button::Two => 'A',
        Button::Three => 'D',
        Button::Four => 'G',
        Button::Five => 'J',
        Button::Six => 'M',
        Button::Seven => 'P',
        Button::Eight => 'T',
        Button::Nine => 'W',
        Button::Asterisk => '*',
        Button::Zero => ' ',
        Button::Hash => '#',
    }
}

/// The cyclic successor of a candidate character within its key's cycle:
/// letters advance within their key's group and wrap to the group's first
/// letter, digits advance 1…9,0 and wrap, and characters outside every cycle
/// are their own successor.
pub open spec fn spec_next_char(c: char) -> char {
    match c {
        'A' => 'B',
        'B' => 'C',
        'C' => 'A',
        'D' => 'E',
        'E' => 'F',
        'F' => 'D',
        'G' => 'H',
        'H' => 'I',
        'I' => 'G',
        'J' => 'K',
        'K' => 'L',
        'L' => 'J',
        'M' => 'N',
        'N' => 'O',
        'O' => 'M',
        'P' => 'Q',
        'Q' => 'R',
        'R' => 'S',
        'S' => 'P',
        'T' => 'U',
        'U' => 'V',
        'V' => 'T',
        'W' => 'X',
        'X' => 'Y',
        'Y' => 'Z',
        'Z' => 'W',
        '1' => '2',
        '2' => '3',
        '3' => '4',
        '4' => '5',
        '5' => '6',
        '6' => '7',
        '7' => '8',
        '8' => '9',
        '9' => '0',
        '0' => '1',
        _ => c,
    }
}

/// The first candidate character of `button` (the static lookup table).
pub fn button_to_char(button: Button) -> (c: char)
    ensures
        c == spec_button_char(button),
{
    match button {
        Button::One => '1',
        Button::Two => 'A',
        Button::Three => 'D',
        Button::Four => 'G',
        Button::Five => 'J',
        Button::Six => 'M',
        Button::Seven => 'P',
        Button::Eight => 'T',
        Button::Nine => 'W',
        Button::Asterisk => '*',
        Button::Zero => ' ',
        Button::Hash => '#',
    }
}

/// The next candidate after `c` in its key's cycle (the static lookup table).
pub fn next_char(c: char) -> (r: char)
    ensures
        r == spec_next_char(c),
{
    match c {
        'A' => 'B',
        'B' => 'C',
        'C' => 'A',
        'D' => 'E',
        'E' => 'F',
        'F' => 'D',
        'G' => 'H',
        'H' => 'I',
        'I' => 'G',
        'J' => 'K',
        'K' => 'L',
        'L' => 'J',
        'M' => 'N',
        'N' => 'O',
        'O' => 'M',
        'P' => 'Q',
        'Q' => 'R',
        'R' => 'S',
        'S' => 'P',
        'T' => 'U',
        'U' => 'V',
        'V' => 'T',
        'W' => 'X',
        'X' => 'Y',
        'Y' => 'Z',
        'Z' => 'W',
        '1' => '2',
        '2' => '3',
        '3' => '4',
        '4' => '5',
        '5' => '6',
        '6' => '7',
        '7' => '8',
        '8' => '9',
        '9' => '0',
        '0' => '1',
        _ => c,
    }
}

impl CandidateKey for Button {
    open spec fn spec_first_candidate(self) -> char {
        spec_button_char(self)
    }

    open spec fn spec_next_candidate(self, c: char) -> char {
        spec_next_char(c)
    }

    fn first_candidate(self) -> (c: char) {
        button_to_char(self)
    }

    fn next_candidate(self, c: char) -> (r: char) {
        next_char(c)
    }

    fn same_button(self, other: Self) -> (r: bool) {
        self == other
    }
}

/// How many candidate characters `b` cycles through before wrapping.
pub open spec fn spec_cycle_len(b: Button) -> nat {
    match b {
        Button::One => 10,
        Button::Two => 3,
        Button::Three => 3,
        Button::Four => 3,
        Button::Five => 3,
        Button::Six => 3,
        Button::Seven => 4,
        Button::Eight => 3,
        Button::Nine => 4,
        Button::Asterisk => 1,
        Button::Zero => 1,
        Button::Hash => 1,
    }
}

/// `c` advanced `k` times through the successor table.
pub open spec fn spec_iterated_next(c: char, k: nat) -> char
    decreases k,
{
    if k == 0 {
        c
    } else {
        spec_next_char(spec_iterated_next(c, (k - 1) as nat))
    }
}

/// Wrap-around law: advancing a key's first candidate once per entry of the
/// key's cycle returns to the first candidate.
pub proof fn lemma_cycle_wraps(b: Button)
    ensures
        spec_iterated_next(spec_button_char(b), spec_cycle_len(b)) == spec_button_char(b),
{
    reveal_with_fuel(spec_iterated_next, 11);
}

} // verus!
