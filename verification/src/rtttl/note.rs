//! A single ringtone note: an optional duration numeral, a note letter, an
//! optional octave numeral, and an optional dot that lengthens the note by
//! half.

use vstd::prelude::*;

use crate::rtttl::text::{
    is_digit_char, parse_u32, spec_parse_u32, spec_trim, trimmed,
};

verus! {

/// The twelve pitch names of an octave, plus a rest.
#[derive(Debug, Clone, Copy, PartialEq, Eq, Structural)]
pub enum NoteName {
    A,
    ASharp,
    B,
    C,
    CSharp,
    D,
    DSharp,
    E,
    F,
    FSharp,
    G,
    GSharp,
    Pause,
}

/// The text did not name a note.
#[derive(Debug, Clone, Copy, PartialEq, Eq, Structural)]
pub struct ParseNoteNameError;

/// The note name a single letter denotes, if any.
pub open spec fn spec_name_of_char(c: char) -> Option<NoteName> {
    match c {
        'A' => Some(NoteName::A),
        'a' => Some(NoteName::A),
        'B' => Some(NoteName::B),
        'b' => Some(NoteName::B),
        'C' => Some(NoteName::C),
        'c' => Some(NoteName::C),
        'D' => Some(NoteName::D),
        'd' => Some(NoteName::D),
        'E' => Some(NoteName::E),
        'e' => Some(NoteName::E),
        'F' => Some(NoteName::F),
        'f' => Some(NoteName::F),
        'G' => Some(NoteName::G),
        'g' => Some(NoteName::G),
        'P' => Some(NoteName::Pause),
        'p' => Some(NoteName::Pause),
        _ => None,
    }
}

/// The sharpened note name a letter denotes, if any.
pub open spec fn spec_sharp_of_char(c: char) -> Option<NoteName> {
    match c {
        'A' => Some(NoteName::ASharp),
        'a' => Some(NoteName::ASharp),
        'C' => Some(NoteName::CSharp),
        'c' => Some(NoteName::CSharp),
        'D' => Some(NoteName::DSharp),
        'd' => Some(NoteName::DSharp),
        'F' => Some(NoteName::FSharp),
        'f' => Some(NoteName::FSharp),
        'G' => Some(NoteName::GSharp),
        'g' => Some(NoteName::GSharp),
        _ => None,
    }
}

/// What parsing a note name accepts: after trimming, a single note letter,
/// or a letter that has a sharp followed by `#`.
pub open spec fn spec_parse_note_name(s: Seq<char>) -> Option<NoteName> {
    let t = spec_trim(s);
    if t.len() == 1 {
        spec_name_of_char(t[0])
    } else if t.len() == 2 && t[1] == '#' {
        spec_sharp_of_char(t[0])
    } else {
        None
    }
}

/// The note name a single letter denotes, if any.
pub fn name_of_char(c: char) -> (r: Option<NoteName>)
    ensures
        r == spec_name_of_char(c),
{
    match c {
        'A' => Some(NoteName::A),
        'a' => Some(NoteName::A),
        'B' => Some(NoteName::B),
        'b' => Some(NoteName::B),
        'C' => Some(NoteName::C),
        'c' => Some(NoteName::C),
        'D' => Some(NoteName::D),
        'd' => Some(NoteName::D),
        'E' => Some(NoteName::E),
        'e' => Some(NoteName::E),
        'F' => Some(NoteName::F),
        'f' => Some(NoteName::F),
        'G' => Some(NoteName::G),
        'g' => Some(NoteName::G),
        'P' => Some(NoteName::Pause),
        'p' => Some(NoteName::Pause),
        _ => None,
    }
}

impl NoteName {
    /// Parse a note name from text, accepting surrounding whitespace and a
    /// trailing `#` for the sharps, exactly when [`spec_parse_note_name`]
    /// names one.
    pub fn parse(s: &str) -> (r: Result<NoteName, ParseNoteNameError>)
        ensures
            r matches Ok(name) ==> spec_parse_note_name(s@) == Some(name),
            r is Err <==> spec_parse_note_name(s@) is None,
    {
        let t = trimmed(s);
        let n = t.unicode_len();
        if n == 1 {
            match name_of_char(t.get_char(0)) {
                Some(name) => Ok(name),
                None => Err(ParseNoteNameError),
            }
        } else if n == 2 && t.get_char(1) == '#' {
            let r = match t.get_char(0) {
                'A' => Some(NoteName::ASharp),
                'a' => Some(NoteName::ASharp),
                'C' => Some(NoteName::CSharp),
                'c' => Some(NoteName::CSharp),
                'D' => Some(NoteName::DSharp),
                'd' => Some(NoteName::DSharp),
                'F' => Some(NoteName::FSharp),
                'f' => Some(NoteName::FSharp),
                'G' => Some(NoteName::GSharp),
                'g' => Some(NoteName::GSharp),
                _ => None,
            };
            match r {
                Some(name) => Ok(name),
                None => Err(ParseNoteNameError),
            }
        } else {
            Err(ParseNoteNameError)
        }
    }
}

/// The index of the first character of `s` that is not a decimal digit, or
/// `s.len()` if all are digits.
pub open spec fn spec_first_non_digit(s: Seq<char>) -> int
    decreases s.len(),
{
    if s.len() == 0 {
        0
    } else if !is_digit_char(s[0]) {
        0
    } else {
        1 + spec_first_non_digit(s.subrange(1, s.len() as int))
    }
}

/// An index with the first-non-digit properties is `spec_first_non_digit`.
proof fn lemma_first_non_digit_is(s: Seq<char>, i: int)
    requires
        0 <= i <= s.len(),
        forall|j: int| 0 <= j < i ==> is_digit_char(#[trigger] s[j]),
        i < s.len() ==> !is_digit_char(s[i]),
    ensures
        spec_first_non_digit(s) == i,
    decreases s.len(),
{
    if s.len() > 0 && is_digit_char(s[0]) {
        let t = s.subrange(1, s.len() as int);
        lemma_first_non_digit_is(t, i - 1);
    }
}

/// A note, as parsed from ringtone text: its duration value (the fraction
/// of a whole note, e.g. 4 for a quarter note), its name, its octave, and
/// whether it is dotted.
#[derive(Debug, Clone, Copy, PartialEq, Eq, Structural)]
pub struct Note(pub u32, pub NoteName, pub u32, pub bool);

/// A note text is parsable when, after trimming, it still holds a character
/// beyond its leading digits and that character names a note.
pub open spec fn spec_note_wf(s: Seq<char>) -> bool {
    let t = spec_trim(s);
    let i = spec_first_non_digit(t);
    i < t.len() && spec_name_of_char(t[i]) is Some
}

/// The note that parsing `s` yields: the digits before the note letter are
/// the duration value, the text after it the octave — each falling back to
/// the given default when absent or unparsable — and a trailing dot marks
/// the note dotted.
pub open spec fn spec_note(s: Seq<char>, default_octave: u32, default_duration: u32) -> Note {
    let t = spec_trim(s);
    let i = spec_first_non_digit(t);
    let duration = match spec_parse_u32(t.subrange(0, i)) {
        Some(v) => v,
        None => default_duration,
    };
    let name = spec_name_of_char(t[i]).unwrap();
    let octave = match spec_parse_u32(t.subrange(i + 1, t.len() as int)) {
        Some(v) => v,
        None => default_octave,
    };
    let dotted = t.len() > 0 && t.last() == '.';
    Note(duration, name, octave, dotted)
}

/// The length of a note in milliseconds: a whole note lasts `240000 / bpm`
/// milliseconds, the duration value divides it, and a dot lengthens the
/// note by half.
pub open spec fn spec_duration_ms(note: Note, beats_per_minute: u32) -> int {
    if note.3 {
        (2 * 240 * 1000) as int / (3 * (beats_per_minute as int) * (note.0 as int))
    } else {
        (240 * 1000) as int / ((beats_per_minute as int) * (note.0 as int))
    }
}

/// The tone frequency table, in hertz: octaves 3 through 6, `None` for a
/// rest, and an error for any octave outside the table.
pub open spec fn spec_frequency(note: Note) -> Option<Result<u32, ()>> {
    if note.1 is Pause {
        None
    } else if note.2 == 3 {
        Some(
            Ok(
                match note.1 {
                    NoteName::C => 130,
                    NoteName::CSharp => 138,
                    NoteName::D => 146,
                    NoteName::DSharp => 155,
                    NoteName::E => 164,
                    NoteName::F => 174,
                    NoteName::FSharp => 184,
                    NoteName::G => 195,
                    NoteName::GSharp => 207,
                    NoteName::A => 220,
                    NoteName::ASharp => 233,
                    NoteName::B => 246,
                    NoteName::Pause => 0,
                },
            ),
        )
    } else if note.2 == 4 {
        Some(
            Ok(
                match note.1 {
                    NoteName::C => 261,
                    NoteName::CSharp => 277,
                    NoteName::D => 293,
                    NoteName::DSharp => 311,
                    NoteName::E => 329,
                    NoteName::F => 349,
                    NoteName::FSharp => 369,
                    NoteName::G => 391,
                    NoteName::GSharp => 415,
                    NoteName::A => 440,
                    NoteName::ASharp => 466,
                    NoteName::B => 493,
                    NoteName::Pause => 0,
                },
            ),
        )
    } else if note.2 == 5 {
        Some(
            Ok(
                match note.1 {
                    NoteName::C => 523,
                    NoteName::CSharp => 554,
                    NoteName::D => 587,
                    NoteName::DSharp => 622,
                    NoteName::E => 659,
                    NoteName::F => 698,
                    NoteName::FSharp => 739,
                    NoteName::G => 783,
                    NoteName::GSharp => 830,
                    NoteName::A => 880,
                    NoteName::ASharp => 932,
                    NoteName::B => 987,
                    NoteName::Pause => 0,
                },
            ),
        )
    } else if note.2 == 6 {
        Some(
            Ok(
                match note.1 {
                    NoteName::C => 1046,
                    NoteName::CSharp => 1108,
                    NoteName::D => 1174,
                    NoteName::DSharp => 1244,
                    NoteName::E => 1318,
                    NoteName::F => 1396,
                    NoteName::FSharp => 1479,
                    NoteName::G => 1567,
                    NoteName::GSharp => 1661,
                    NoteName::A => 1760,
                    NoteName::ASharp => 1864,
                    NoteName::B => 1975,
                    NoteName::Pause => 0,
                },
            ),
        )
    } else {
        Some(Err(()))
    }
}

impl Note {
    /// Parse one note from ringtone text, with the song's default octave
    /// and default duration for the parts the text leaves out.
    pub fn new(text: &str, default_octave: u32, default_duration: u32) -> (r: Note)
        requires
            spec_note_wf(text@),
        ensures
            r == spec_note(text@, default_octave, default_duration),
    {
        let t = trimmed(text);
        let n = t.unicode_len();
        let mut i: usize = 0;
        while i < n
            invariant
                n == t@.len(),
                0 <= i <= n,
                forall|j: int| 0 <= j < i ==> is_digit_char(#[trigger] t@[j]),
            ensures
                0 <= i <= n,
                forall|j: int| 0 <= j < i ==> is_digit_char(#[trigger] t@[j]),
                i < n ==> !is_digit_char(t@[i as int]),
            decreases n - i,
        {
            let c = t.get_char(i);
            let u = c as u32;
            if !(('0' as u32) <= u && u <= ('9' as u32)) {
                break ;
            }
            i = i + 1;
        }
        proof {
            lemma_first_non_digit_is(t@, i as int);
        }
        let name_opt = name_of_char(t.get_char(i));
        let name = name_opt.unwrap();
        let duration = match parse_u32(t.substring_char(0, i)) {
            Some(v) => v,
            None => default_duration,
        };
        let octave = match parse_u32(t.substring_char(i + 1, n)) {
            Some(v) => v,
            None => default_octave,
        };
        let dotted = t.get_char(n - 1) == '.';
        Note(duration, name, octave, dotted)
    }

    /// How long this note lasts at the given tempo, in milliseconds.
    pub fn duration(&self, beats_per_minute: u32) -> (r: u32)
        requires
            self.0 >= 1,
            beats_per_minute >= 1,
            3 * (beats_per_minute as int) * (self.0 as int) <= u32::MAX,
        ensures
            r == spec_duration_ms(*self, beats_per_minute),
    {
        proof {
            assert((beats_per_minute as int) * (self.0 as int) >= 1 && (beats_per_minute as int)
                * (self.0 as int) <= 3 * (beats_per_minute as int) * (self.0 as int) && 3 * (
            beats_per_minute as int) <= 3 * (beats_per_minute as int) * (self.0 as int))
                by (nonlinear_arith)
                requires
                    beats_per_minute >= 1,
                    self.0 >= 1,
            ;
        }
        if self.3 {
            2 * 240 * 1000 / (3 * beats_per_minute * self.0)
        } else {
            240 * 1000 / (beats_per_minute * self.0)
        }
    }

    /// The tone frequency of this note in hertz: `None` for a rest, an
    /// error for an octave outside the table.
    pub fn frequency(&self) -> (r: Option<Result<u32, ()>>)
        ensures
            r == spec_frequency(*self),
    {
        match (self.2, self.1) {
            (_, NoteName::Pause) => None,
            (3, NoteName::C) => Some(Ok(130)),
            (3, NoteName::CSharp) => Some(Ok(138)),
            (3, NoteName::D) => Some(Ok(146)),
            (3, NoteName::DSharp) => Some(Ok(155)),
            (3, NoteName::E) => Some(Ok(164)),
            (3, NoteName::F) => Some(Ok(174)),
            (3, NoteName::FSharp) => Some(Ok(184)),
            (3, NoteName::G) => Some(Ok(195)),
            (3, NoteName::GSharp) => Some(Ok(207)),
            (3, NoteName::A) => Some(Ok(220)),
            (3, NoteName::ASharp) => Some(Ok(233)),
            (3, NoteName::B) => Some(Ok(246)),
            (4, NoteName::C) => Some(Ok(261)),
            (4, NoteName::CSharp) => Some(Ok(277)),
            (4, NoteName::D) => Some(Ok(293)),
            (4, NoteName::DSharp) => Some(Ok(311)),
            (4, NoteName::E) => Some(Ok(329)),
            (4, NoteName::F) => Some(Ok(349)),
            (4, NoteName::FSharp) => Some(Ok(369)),
            (4, NoteName::G) => Some(Ok(391)),
            (4, NoteName::GSharp) => Some(Ok(415)),
            (4, NoteName::A) => Some(Ok(440)),
            (4, NoteName::ASharp) => Some(Ok(466)),
            (4, NoteName::B) => Some(Ok(493)),
            (5, NoteName::C) => Some(Ok(523)),
            (5, NoteName::CSharp) => Some(Ok(554)),
            (5, NoteName::D) => Some(Ok(587)),
            (5, NoteName::DSharp) => Some(Ok(622)),
            (5, NoteName::E) => Some(Ok(659)),
            (5, NoteName::F) => Some(Ok(698)),
            (5, NoteName::FSharp) => Some(Ok(739)),
            (5, NoteName::G) => Some(Ok(783)),
            (5, NoteName::GSharp) => Some(Ok(830)),
            (5, NoteName::A) => Some(Ok(880)),
            (5, NoteName::ASharp) => Some(Ok(932)),
            (5, NoteName::B) => Some(Ok(987)),
            (6, NoteName::C) => Some(Ok(1046)),
            (6, NoteName::CSharp) => Some(Ok(1108)),
            (6, NoteName::D) => Some(Ok(1174)),
            (6, NoteName::DSharp) => Some(Ok(1244)),
            (6, NoteName::E) => Some(Ok(1318)),
            (6, NoteName::F) => Some(Ok(1396)),
            (6, NoteName::FSharp) => Some(Ok(1479)),
            (6, NoteName::G) => Some(Ok(1567)),
            (6, NoteName::GSharp) => Some(Ok(1661)),
            (6, NoteName::A) => Some(Ok(1760)),
            (6, NoteName::ASharp) => Some(Ok(1864)),
            (6, NoteName::B) => Some(Ok(1975)),
            (_, _) => Some(Err(())),
        }
    }
}

} // verus!
