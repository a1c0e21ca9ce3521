use handheld::multi_tap::Event;
use handheld::text_input::{CapacityError, Model};

#[test]
fn round_trip_through_the_buffer() {
    let mut model = Model::with_capacity(10);
    assert_eq!(model.update(Event::Tentative('1')), Ok(()));
    assert_eq!(model.update(Event::Tentative('2')), Ok(()));
    assert_eq!(model.update(Event::Decided('2')), Ok(()));
    assert_eq!(model.update(Event::Tentative('A')), Ok(()));

    // The tentative '1' was overwritten by '2' and then promoted; the 'A'
    // is still being composed.
    assert_eq!(model.slot(0), Some(('2', true)));
    assert_eq!(model.slot(1), Some(('A', false)));
    assert_eq!(model.slot(2), None);
    assert_eq!(model.index, 1);
}

#[test]
fn decided_into_an_empty_slot_is_written_directly() {
    let mut model = Model::with_capacity(4);
    assert_eq!(model.update(Event::Decided('x')), Ok(()));
    assert_eq!(model.slot(0), Some(('x', true)));
    assert_eq!(model.index, 1);
}

#[test]
fn a_promotion_writes_the_decided_character() {
    let mut model = Model::with_capacity(4);
    assert_eq!(model.update(Event::Tentative('q')), Ok(()));
    // The decision overwrites the tentative slot with its own character.
    assert_eq!(model.update(Event::Decided('q')), Ok(()));
    assert_eq!(model.slot(0), Some(('q', true)));
    // Also when the decision differs from what the slot showed: the
    // decided character wins.
    let mut other = Model::with_capacity(4);
    assert_eq!(other.update(Event::Tentative('q')), Ok(()));
    assert_eq!(other.update(Event::Decided('r')), Ok(()));
    assert_eq!(other.slot(0), Some(('r', true)));
}

#[test]
fn a_full_buffer_refuses_more_text() {
    let mut model = Model::with_capacity(1);
    assert_eq!(model.update(Event::Decided('a')), Ok(()));
    assert_eq!(model.update(Event::Tentative('b')), Err(CapacityError));
    assert_eq!(model.update(Event::Decided('b')), Err(CapacityError));
    assert_eq!(model.slot(0), Some(('a', true)));
    assert_eq!(model.index, 1);
}

#[test]
fn caller_chosen_storage_starts_at_the_first_slot() {
    let storage: Vec<Option<Event>> = vec![None, None, None];
    let mut model = Model::new(storage);
    assert_eq!(model.capacity(), 3);
    assert_eq!(model.index, 0);
    assert_eq!(model.update(Event::Tentative('z')), Ok(()));
    assert_eq!(model.slot(0), Some(('z', false)));
    assert_eq!(model.index, 0);
}
