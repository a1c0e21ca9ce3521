//! A parser and player model for ringtones in RTTTL form: a title, a block
//! of defaults (`d` for duration, `o` for octave, `b` for tempo), and a
//! comma-separated list of notes, the three sections separated by colons.

use vstd::prelude::*;

pub mod note;
pub mod text;

use crate::rtttl::text::{
    find_char, parse_u32, spec_find, spec_parse_u32, spec_split, spec_trim, trimmed,
};

verus! {

/// The settings a song starts from: duration 4, octave 5, 108 beats per
/// minute.
pub open spec fn spec_default_settings() -> (u32, u32, u32) {
    (4, 5, 108)
}

/// One `key=value` piece of the settings section applied to the
/// accumulated `(duration, octave, beats_per_minute)` triple: `d`, `o` and
/// `b` (either case) replace their slot; a missing `=`, an unknown key or
/// an unparsable value refuses the whole piece.
pub open spec fn spec_apply_setting(acc: (u32, u32, u32), piece: Seq<char>) -> Option<
    (u32, u32, u32),
> {
    let eq = spec_find(piece, '=');
    if eq == piece.len() {
        None
    } else {
        let k = spec_trim(piece.subrange(0, eq));
        let v = spec_parse_u32(spec_trim(piece.subrange(eq + 1, piece.len() as int)));
        if k.len() != 1 || v is None {
            None
        } else if k[0] == 'd' || k[0] == 'D' {
            Some((v.unwrap(), acc.1, acc.2))
        } else if k[0] == 'o' || k[0] == 'O' {
            Some((acc.0, v.unwrap(), acc.2))
        } else if k[0] == 'b' || k[0] == 'B' {
            Some((acc.0, acc.1, v.unwrap()))
        } else {
            None
        }
    }
}

/// The whole settings section: at most three comma-separated pieces (the
/// third keeps any further commas), applied left to right over the
/// defaults.
pub open spec fn spec_settings(t: Seq<char>) -> Option<(u32, u32, u32)> {
    let f1 = spec_find(t, ',');
    if f1 == t.len() {
        spec_apply_setting(spec_default_settings(), t)
    } else {
        let p1 = t.subrange(0, f1);
        let rest = t.subrange(f1 + 1, t.len() as int);
        let f2 = spec_find(rest, ',');
        match spec_apply_setting(spec_default_settings(), p1) {
            None => None,
            Some(a1) => if f2 == rest.len() {
                spec_apply_setting(a1, rest)
            } else {
                match spec_apply_setting(a1, rest.subrange(0, f2)) {
                    None => None,
                    Some(a2) => spec_apply_setting(a2, rest.subrange(f2 + 1, rest.len() as int)),
                }
            },
        }
    }
}

/// The song's title: what stands before the first colon, trimmed.
pub open spec fn spec_title(s: Seq<char>) -> Seq<char> {
    spec_trim(s.subrange(0, spec_find(s, ':')))
}

/// The settings section: between the first and second colons, trimmed.
pub open spec fn spec_settings_region(s: Seq<char>) -> Seq<char> {
    let rest = s.subrange(spec_find(s, ':') + 1, s.len() as int);
    spec_trim(rest.subrange(0, spec_find(rest, ':')))
}

/// The notes section: after the second colon (further colons stay in it),
/// trimmed.
pub open spec fn spec_notes_region(s: Seq<char>) -> Seq<char> {
    let rest = s.subrange(spec_find(s, ':') + 1, s.len() as int);
    spec_trim(rest.subrange(spec_find(rest, ':') + 1, rest.len() as int))
}

/// A song text is parsable when it has its two colons and its settings
/// section is well formed.
pub open spec fn spec_song_wf(s: Seq<char>) -> bool {
    &&& spec_find(s, ':') < s.len()
    &&& spec_find(s.subrange(spec_find(s, ':') + 1, s.len() as int), ':') < s.len() - spec_find(
        s,
        ':',
    ) - 1
    &&& spec_settings(spec_settings_region(s)) is Some
}

/// A ringtone: its title, the default duration and octave its notes fall
/// back to, its tempo, its notes still in textual form, and the elapsed
/// time the player model has accounted for so far.
pub struct Song {
    pub title: String,
    pub duration: u32,
    pub octave: u32,
    pub beats_per_minute: u32,
    pub notes: Vec<String>,
    pub time: u32,
}

/// Apply one `key=value` settings piece.
fn apply_setting(acc: (u32, u32, u32), piece: &str) -> (r: Option<(u32, u32, u32)>)
    ensures
        r == spec_apply_setting(acc, piece@),
{
    let n = piece.unicode_len();
    let eq = find_char(piece, '=');
    if eq == n {
        return None;
    }
    let k = trimmed(piece.substring_char(0, eq));
    let vs = trimmed(piece.substring_char(eq + 1, n));
    let v = match parse_u32(vs) {
        Some(v) => v,
        None => {
            return None;
        },
    };
    if k.unicode_len() != 1 {
        return None;
    }
    let kc = k.get_char(0);
    if kc == 'd' || kc == 'D' {
        Some((v, acc.1, acc.2))
    } else if kc == 'o' || kc == 'O' {
        Some((acc.0, v, acc.2))
    } else if kc == 'b' || kc == 'B' {
        Some((acc.0, acc.1, v))
    } else {
        None
    }
}

/// Parse the settings section into `(duration, octave, beats_per_minute)`.
fn parse_settings(t: &str) -> (r: Option<(u32, u32, u32)>)
    ensures
        r == spec_settings(t@),
{
    let n = t.unicode_len();
    let f1 = find_char(t, ',');
    if f1 == n {
        return apply_setting((4, 5, 108), t);
    }
    let p1 = t.substring_char(0, f1);
    let rest = t.substring_char(f1 + 1, n);
    let m = rest.unicode_len();
    let f2 = find_char(rest, ',');
    let a1 = match apply_setting((4, 5, 108), p1) {
        Some(a) => a,
        None => {
            return None;
        },
    };
    if f2 == m {
        apply_setting(a1, rest)
    } else {
        let a2 = match apply_setting(a1, rest.substring_char(0, f2)) {
            Some(a) => a,
            None => {
                return None;
            },
        };
        apply_setting(a2, rest.substring_char(f2 + 1, m))
    }
}

/// Split `s` at every `c`, keeping empty pieces, as `str::split` does.
fn split_char(s: &str, c: char) -> (r: Vec<String>)
    ensures
        r.deep_view() == spec_split(s@, c),
    decreases s@.len(),
{
    let n = s.unicode_len();
    let f = find_char(s, c);
    if f == n {
        let mut v: Vec<String> = Vec::new();
        v.push(s.to_owned());
        proof {
            assert(v.deep_view() =~= seq![s@]);
        }
        v
    } else {
        let head = s.substring_char(0, f).to_owned();
        let tail = s.substring_char(f + 1, n);
        let mut rest = split_char(tail, c);
        rest.insert(0, head);
        proof {
            assert(rest.deep_view() =~= seq![s@.subrange(0, f as int)] + spec_split(
                s@.subrange(f as int + 1, n as int),
                c,
            ));
        }
        rest
    }
}

impl Song {
    /// Parse a whole ringtone text: title, settings over the defaults, and
    /// the notes kept in textual form for the player to read one at a time.
    /// The elapsed-time account starts at zero.
    pub fn new(text: &str) -> (song: Song)
        requires
            spec_song_wf(text@),
        ensures
            song.title@ == spec_title(text@),
            Some((song.duration, song.octave, song.beats_per_minute)) == spec_settings(
                spec_settings_region(text@),
            ),
            song.notes.deep_view() == spec_split(spec_notes_region(text@), ','),
            song.time == 0,
    {
        let n = text.unicode_len();
        let c1 = find_char(text, ':');
        let title = trimmed(text.substring_char(0, c1)).to_owned();
        let rest = text.substring_char(c1 + 1, n);
        let m = rest.unicode_len();
        let c2 = find_char(rest, ':');
        let settings_str = trimmed(rest.substring_char(0, c2));
        let settings = parse_settings(settings_str);
        let (duration, octave, beats_per_minute) = settings.unwrap();
        let notes_str = trimmed(rest.substring_char(c2 + 1, m));
        let notes = split_char(notes_str, ',');
        Song { title, duration, octave, beats_per_minute, notes, time: 0 }
    }

    /// Advance the elapsed-time account by the first pending note's length
    /// and answer that note once the account passes `time_ms` — the moment
    /// the caller's clock falls inside the note being played.
    pub fn note_at(&mut self, time_ms: u32) -> (r: Option<note::Note>)
        requires
            old(self).notes@.len() > 0,
            note::spec_note_wf(old(self).notes@[0]@),
            ({
                let head = note::spec_note(
                    old(self).notes@[0]@,
                    old(self).octave,
                    old(self).duration,
                );
                &&& head.0 >= 1
                &&& old(self).beats_per_minute >= 1
                &&& 3 * (old(self).beats_per_minute as int) * (head.0 as int) <= u32::MAX
                &&& old(self).time + note::spec_duration_ms(head, old(self).beats_per_minute)
                    <= u32::MAX
            }),
        ensures
            ({
                let head = note::spec_note(
                    old(self).notes@[0]@,
                    old(self).octave,
                    old(self).duration,
                );
                &&& final(self).time == old(self).time + note::spec_duration_ms(
                    head,
                    old(self).beats_per_minute,
                )
                &&& final(self).title == old(self).title
                &&& final(self).duration == old(self).duration
                &&& final(self).octave == old(self).octave
                &&& final(self).beats_per_minute == old(self).beats_per_minute
                &&& final(self).notes == old(self).notes
                &&& r == if final(self).time > time_ms {
                    Some(head)
                } else {
                    None::<note::Note>
                }
            }),
    {
        let head = note::Note::new(self.notes[0].as_str(), self.octave, self.duration);
        let d = head.duration(self.beats_per_minute);
        self.time = self.time + d;
        if self.time > time_ms {
            Some(head)
        } else {
            None
        }
    }
}

} // verus!
