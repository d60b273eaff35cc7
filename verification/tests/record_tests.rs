use entity_store::clinic::appointment::Appointment;
use entity_store::clinic::doctor::{Doctor, DoctorPayload};
use entity_store::clinic::medication::Medication;
use entity_store::clinic::patient::Patient;
use entity_store::clinic::patient_record::PatientRecord;
use entity_store::logistics::assignment::{Assignment, AssignmentPayload};
use entity_store::logistics::donor::{
    put_donor_type, read_donor_type, DonorProfile, DonorType,
};
use entity_store::logistics::driver::DriverProfile;
use entity_store::logistics::receiver::ReceiverProfile;
use entity_store::logistics::surplus_post::{SurplusPost, SurplusPostPayload};
use entity_store::logistics::surplus_record::{SurplusRecord, SurplusRecordPayload};
use entity_store::message::Message;
use entity_store::record::Record;
use entity_store::store::Store;
use entity_store::validation::{has_at_sign, has_length};

fn doctor() -> Doctor {
    Doctor { id: 2, name: "Al".to_string(), speciality: "x".to_string(), created_at: 5 }
}

#[test]
fn a_doctor_is_encoded_field_after_field() {
    let expected: Vec<u8> = vec![
        2, 0, 0, 0, 0, 0, 0, 0, // id
        2, 0, 0, 0, 0, 0, 0, 0, b'A', b'l', // name
        1, 0, 0, 0, 0, 0, 0, 0, b'x', // speciality
        5, 0, 0, 0, 0, 0, 0, 0, // created_at
    ];
    assert_eq!(doctor().encode(), expected);
    assert_eq!(Doctor::decode(&expected), Some(doctor()));
    assert_eq!(doctor().id(), 2);
}

#[test]
fn bytes_cut_short_or_drawn_out_decode_to_nothing() {
    let bytes = doctor().encode();
    assert_eq!(Doctor::decode(&bytes[..bytes.len() - 1]), None);
    let mut longer = bytes.clone();
    longer.push(0);
    assert_eq!(Doctor::decode(&longer), None);
    assert_eq!(Doctor::decode(&[]), None);
}

#[test]
fn bytes_of_one_type_do_not_decode_as_another() {
    let bytes = doctor().encode();
    assert_eq!(Patient::decode(&bytes), None);
    assert_eq!(DonorProfile::decode(&bytes), None);
}

#[test]
fn every_clinic_record_decodes_to_what_was_encoded() {
    let p =
        Patient { id: 1, name: "P".to_string(), age: 33, gender: "f".to_string(), created_at: 9 };
    assert_eq!(Patient::decode(&p.encode()), Some(p.clone()));
    let a = Appointment {
        id: 3,
        patient_id: 1,
        doctor_id: 2,
        date_time: 1000,
        duration: 30,
        description: "check".to_string(),
        created_at: 9,
        updated_at: Some(12),
    };
    assert_eq!(Appointment::decode(&a.encode()), Some(a.clone()));
    let never = Appointment { updated_at: None, ..a.clone() };
    assert_eq!(Appointment::decode(&never.encode()), Some(never));
    let r = PatientRecord {
        id: 4,
        patient_id: 1,
        doctor_id: 2,
        diagnosis: "d".to_string(),
        treatment: "t".to_string(),
        medications: vec!["m1".to_string(), "m2".to_string()],
        created_at: 9,
    };
    assert_eq!(PatientRecord::decode(&r.encode()), Some(r.clone()));
    let m = Medication {
        id: 5,
        name: "n".to_string(),
        dosage: "1".to_string(),
        frequency: "daily".to_string(),
        patient_id: 1,
        created_at: 9,
    };
    assert_eq!(Medication::decode(&m.encode()), Some(m.clone()));
}

#[test]
fn every_logistics_record_decodes_to_what_was_encoded() {
    let d = DonorProfile {
        id: 1,
        name: "A".to_string(),
        phone_number: "1234567890".to_string(),
        email: "a@x.com".to_string(),
        address: "addr".to_string(),
        donor_type: DonorType::GroceryStore,
        created_at: 2,
    };
    assert_eq!(DonorProfile::decode(&d.encode()), Some(d.clone()));
    assert_eq!(d.encode().len(), 8 + (8 + 1) + (8 + 10) + (8 + 7) + (8 + 4) + 1 + 8);
    let r = ReceiverProfile {
        id: 2,
        name: "R".to_string(),
        phone_number: "1234567890".to_string(),
        email: "r@x.com".to_string(),
        address: "addr".to_string(),
        created_at: 2,
    };
    assert_eq!(ReceiverProfile::decode(&r.encode()), Some(r.clone()));
    let v = DriverProfile {
        id: 3,
        name: "D".to_string(),
        phone_number: "1234567890".to_string(),
        email: "d@x.com".to_string(),
        created_at: 2,
    };
    assert_eq!(DriverProfile::decode(&v.encode()), Some(v.clone()));
    let p = SurplusPost {
        id: 4,
        donor_id: 1,
        food_type: "bread".to_string(),
        quantity: 3,
        expiry_date: "soon".to_string(),
        assigned: true,
    };
    assert_eq!(SurplusPost::decode(&p.encode()), Some(p.clone()));
    let a = Assignment {
        id: 5,
        receiver_id: 2,
        surplus_post_id: 4,
        driver_id: 3,
        status: "Pending".to_string(),
        created_at: 2,
    };
    assert_eq!(Assignment::decode(&a.encode()), Some(a.clone()));
    let s =
        SurplusRecord { id: 6, surplus_post_id: 4, driver_id: 3, delivered_at: 8, rating: Some(4) };
    assert_eq!(SurplusRecord::decode(&s.encode()), Some(s.clone()));
    assert_eq!(s.encode().len(), 41);
}

#[test]
fn a_donor_type_is_one_byte() {
    let kinds = [
        (DonorType::Restaurant, 0u8),
        (DonorType::GroceryStore, 1),
        (DonorType::Farm, 2),
        (DonorType::Individual, 3),
    ];
    for (kind, code) in kinds {
        let mut out = Vec::new();
        put_donor_type(&mut out, kind);
        assert_eq!(out, vec![code]);
        assert_eq!(read_donor_type(&out, 0), Some((kind, 1)));
    }
    assert_eq!(read_donor_type(&[4], 0), None);
    assert_eq!(read_donor_type(&[], 0), None);
}

#[test]
fn a_post_that_is_taken_keeps_its_other_fields() {
    let p = SurplusPostPayload {
        donor_id: 1,
        food_type: "bread".to_string(),
        quantity: 3,
        expiry_date: "soon".to_string(),
    }
    .into_record(7);
    assert!(!p.assigned);
    let before = p.encode().len();
    let t = p.taken();
    assert!(t.assigned);
    assert_eq!((t.id, t.donor_id, t.quantity), (7, 1, 3));
    assert_eq!(t.food_type, "bread");
    assert_eq!(t.expiry_date, "soon");
    assert_eq!(t.encode().len(), before);
}

#[test]
fn payloads_become_records_under_the_id_given() {
    let d = DoctorPayload { name: "n".to_string(), speciality: "s".to_string() }.into_record(8, 99);
    assert_eq!(
        d,
        Doctor { id: 8, name: "n".to_string(), speciality: "s".to_string(), created_at: 99 }
    );
    let a =
        AssignmentPayload { receiver_id: 1, surplus_post_id: 2, driver_id: 3 }.into_record(4, 5);
    assert_eq!(a.status, "Pending");
    let a = AssignmentPayload { receiver_id: 1, surplus_post_id: 2, driver_id: 3 }
        .into_revision(4, 5, "Done".to_string());
    assert_eq!(a.status, "Done");
    let r = SurplusRecordPayload { surplus_post_id: 2, driver_id: 3 }.into_record(9, 5);
    assert_eq!(r.rating, None);
    let r = SurplusRecordPayload { surplus_post_id: 2, driver_id: 3 }.into_revision(9, 5, Some(1));
    assert_eq!(r.rating, Some(1));
}

#[test]
fn payload_checks_name_the_fields_that_fail() {
    let ok = DoctorPayload { name: "n".to_string(), speciality: "s".to_string() };
    assert_eq!(ok.check(), Ok(()));
    let bad = DoctorPayload { name: "n".to_string(), speciality: String::new() };
    assert_eq!(
        bad.check(),
        Err(Message::InvalidPayload("Ensure 'name' and 'speciality' are provided.".to_string()))
    );
}

#[test]
fn a_record_fits_up_to_the_bound() {
    let fixed = 8 + 8 + 8 + 8;
    let name = "n".repeat(1024 - fixed);
    let d = Doctor { id: 1, name, speciality: String::new(), created_at: 0 };
    assert_eq!(d.encode().len(), 1024);
    assert!(Store::<Doctor>::fits(&d));
    let name = "n".repeat(1025 - fixed);
    let d = Doctor { id: 1, name, speciality: String::new(), created_at: 0 };
    assert!(!Store::<Doctor>::fits(&d));
}

#[test]
fn at_sign_is_found_among_other_characters() {
    assert!(has_at_sign("a@b"));
    assert!(has_at_sign("@"));
    assert!(has_at_sign("é€@"));
    assert!(!has_at_sign(""));
    assert!(!has_at_sign("ab"));
    // Characters whose UTF-8 forms hold bytes near 0x40, none equal to it.
    assert!(!has_at_sign("ŀ\u{1040}\u{10040}"));
}

#[test]
fn length_counts_characters() {
    assert!(has_length("1234567890", 10));
    assert!(!has_length("123456789", 10));
    assert!(has_length("éééééééééé", 10));
    assert!(has_length("", 0));
}
