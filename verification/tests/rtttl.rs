use handheld::rtttl::note::{Note, NoteName, ParseNoteNameError};
use handheld::rtttl::Song;

const HAUNTED_HOUSE: &'static str = "HauntHouse: d=4,o=5,b=108: 2a4, 2e, 2d#, 2b4, 2a4, 2c, 2d, 2a#4, 2e., e, 1f4, 1a4, 1d#, 2e., d, 2c., b4, 1a4, 1p, 2a4, 2e, 2d#, 2b4, 2a4, 2c, 2d, 2a#4, 2e., e, 1f4, 1a4, 1d#, 2e., d, 2c., b4, 1a4";
const COUNTDOWN: &'static str = "countdown:d=4, o=5, b=125:p, 8p, 16b, 16a, b, e, p, 8p, 16c6, 16b, 8c6, 8b, a, p, 8p, 16c6, 16b, c6, e, p, 8p, 16a, 16g, 8a, 8g, 8f#, 8a, g., 16f#, 16g, a., 16g, 16a, 8b, 8a, 8g, 8f#, e, c6, 2b., 16b, 16c6, 16b, 16a, 1b";
const MISSION: &'static str = "Mission:d=4, o=6, b=100:32d, 32d#, 32d, 32d#, 32d, 32d#, 32d, 32d#, 32d, 32d, 32d#, 32e, 32f, 32f#, 32g, 16g, 8p, 16g, 8p, 16a#, 16p, 16c, 16p, 16g, 8p, 16g, 8p, 16f, 16p, 16f#, 16p, 16g, 8p, 16g, 8p, 16a#, 16p, 16c, 16p, 16g, 8p, 16g, 8p, 16f, 16p, 16f#, 16p, 16a#, 16g, 2d, 32p, 16a#, 16g, 2c#, 32p, 16a#, 16g, 2c, 16p, 16a#5, 16c";

#[test]
fn test_countdown() {
    let song = Song::new(COUNTDOWN);

    assert_eq!(song.title, "countdown");
    assert_eq!(song.duration, 4);
    assert_eq!(song.octave, 5);
    assert_eq!(song.beats_per_minute, 125);
}

#[test]
fn test_song() {
    let song = Song::new(HAUNTED_HOUSE);

    assert_eq!(song.title, "HauntHouse");
    assert_eq!(song.duration, 4);
    assert_eq!(song.octave, 5);
    assert_eq!(song.beats_per_minute, 108);
}

#[test]
fn test_mission() {
    let song = Song::new(MISSION);

    assert_eq!(song.title, "Mission");
    assert_eq!(song.duration, 4);
    assert_eq!(song.octave, 6);
    assert_eq!(song.beats_per_minute, 100);
}

#[test]
fn test_note() {
    assert_eq!(Note::new("2a4", 5, 4), Note(2, NoteName::A, 4, false));
}

#[test]
fn countdown_notes_are_split_raw() {
    let song = Song::new(COUNTDOWN);
    assert_eq!(song.notes[0], "p");
    assert_eq!(song.notes[1], " 8p");
    assert_eq!(song.notes[2], " 16b");
    assert_eq!(song.notes.len(), 45);
}

#[test]
fn note_at_accounts_first_note() {
    let mut song = Song::new(COUNTDOWN);
    // The first pending note is the quarter rest "p": 240000 / (125 * 4)
    // milliseconds long.
    let note = song.note_at(0);
    assert_eq!(song.time, 480);
    assert_eq!(note, Some(Note(4, NoteName::Pause, 5, false)));
    // A clock already past the note answers nothing but still advances the
    // account.
    let mut late = Song::new(COUNTDOWN);
    assert_eq!(late.note_at(480), None);
    assert_eq!(late.time, 480);
}

#[test]
fn note_defaults_fill_missing_parts() {
    // No duration digits and no octave digits: both fall back.
    assert_eq!(Note::new(" e ", 5, 4), Note(4, NoteName::E, 5, false));
    // A dotted note keeps its dot and loses no digits.
    assert_eq!(Note::new("2e.", 5, 4), Note(2, NoteName::E, 5, true));
    // A sharp after the letter is not an octave numeral: the default holds.
    assert_eq!(Note::new("16c#6", 5, 4), Note(16, NoteName::C, 5, false));
}

#[test]
fn note_duration_follows_tempo() {
    let plain = Note(2, NoteName::A, 4, false);
    assert_eq!(plain.duration(125), 960);
    let dotted = Note(2, NoteName::E, 5, true);
    assert_eq!(dotted.duration(100), 800);
}

#[test]
fn note_frequency_table() {
    assert_eq!(Note(2, NoteName::A, 4, false).frequency(), Some(Ok(440)));
    assert_eq!(Note(8, NoteName::C, 5, false).frequency(), Some(Ok(523)));
    assert_eq!(Note(4, NoteName::Pause, 5, false).frequency(), None);
    assert_eq!(Note(4, NoteName::B, 7, false).frequency(), Some(Err(())));
}

#[test]
fn note_name_parsing() {
    assert_eq!(NoteName::parse("a"), Ok(NoteName::A));
    assert_eq!(NoteName::parse(" G# "), Ok(NoteName::GSharp));
    assert_eq!(NoteName::parse("p"), Ok(NoteName::Pause));
    assert_eq!(NoteName::parse("x"), Err(ParseNoteNameError));
    assert_eq!(NoteName::parse("b#"), Err(ParseNoteNameError));
    assert_eq!(NoteName::parse(""), Err(ParseNoteNameError));
}
