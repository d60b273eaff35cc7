use entity_store::clinic::doctor::DoctorPayload;
use entity_store::clinic::service::Clinic;
use entity_store::durable::Regions;
use entity_store::ids::{settle, IdAllocator};
use entity_store::message::Message;
use ic_stable_structures::cell::{InitError, ValueError};

fn doctor(name: &str) -> DoctorPayload {
    DoctorPayload { name: name.to_string(), speciality: "s".to_string() }
}

#[test]
fn a_written_counter_hands_out_the_successor() {
    assert_eq!(settle(0, Ok(0)), Ok(1));
    assert_eq!(settle(41, Ok(41)), Ok(42));
    assert_eq!(settle(u64::MAX - 1, Ok(7)), Ok(u64::MAX));
}

#[test]
fn an_unwritten_counter_is_fatal() {
    assert_eq!(
        settle(41, Err(ValueError::ValueTooLarge { value_size: 8 })),
        Err(Message::Fatal("Cannot increment ID counter".to_string()))
    );
}

#[test]
fn a_cell_that_does_not_open_gives_no_counter() {
    let refused = InitError::IncompatibleVersion { last_supported_version: 1, decoded_version: 2 };
    assert!(IdAllocator::adopt(Err(refused)).is_none());
    assert!(IdAllocator::adopt(Err(InitError::ValueTooLarge { value_size: 9 })).is_none());
}

#[test]
fn the_counter_starts_at_zero_and_counts_creations() {
    let mut c = Clinic::open(Regions::open()).unwrap();
    assert_eq!(c.last_id(), 0);
    for expected in 1..=3u64 {
        let d = c.create_doctor(doctor("n"), 0).unwrap();
        assert_eq!(d.id, expected);
        assert_eq!(c.last_id(), expected);
    }
}

#[test]
fn the_counter_survives_reopening() {
    let mut c = Clinic::open(Regions::open()).unwrap();
    c.create_doctor(doctor("n"), 0).unwrap();
    c.create_doctor(doctor("m"), 0).unwrap();
    let mut c = Clinic::open(c.close()).unwrap();
    let d = c.create_doctor(doctor("o"), 0).unwrap();
    assert_eq!(d.id, 3);
}
