use entity_store::clinic::appointment::{Appointment, AppointmentPayload};
use entity_store::clinic::doctor::{Doctor, DoctorPayload};
use entity_store::clinic::medication::{Medication, MedicationPayload};
use entity_store::clinic::patient::{Patient, PatientPayload};
use entity_store::clinic::patient_record::PatientRecordPayload;
use entity_store::clinic::service::Clinic;
use entity_store::durable::Regions;
use entity_store::logistics::donor::{DonorProfilePayload, DonorType};
use entity_store::logistics::service::Logistics;
use entity_store::message::Message;

fn clinic() -> Clinic {
    Clinic::open(Regions::open()).expect("a fresh memory opens")
}

fn doctor(name: &str, speciality: &str) -> DoctorPayload {
    DoctorPayload { name: name.to_string(), speciality: speciality.to_string() }
}

fn patient(name: &str, age: u32, gender: &str) -> PatientPayload {
    PatientPayload { name: name.to_string(), age, gender: gender.to_string() }
}

fn appointment(description: &str) -> AppointmentPayload {
    AppointmentPayload {
        patient_id: 11,
        doctor_id: 12,
        date_time: 1700,
        duration: 45,
        description: description.to_string(),
    }
}

fn not_found(text: &str) -> Message {
    Message::NotFound(text.to_string())
}

fn invalid(text: &str) -> Message {
    Message::InvalidPayload(text.to_string())
}

#[test]
fn create_doctor_then_get_returns_the_same_record() {
    let mut c = clinic();
    let d = c.create_doctor(doctor("Ada", "Cardiology"), 77).unwrap();
    assert_eq!(
        d,
        Doctor {
            id: 1,
            name: "Ada".to_string(),
            speciality: "Cardiology".to_string(),
            created_at: 77,
        }
    );
    assert_eq!(c.get_doctor_id(1), Ok(d));
}

#[test]
fn create_doctor_with_empty_name_is_refused_and_stores_nothing() {
    let mut c = clinic();
    let r = c.create_doctor(doctor("", "Cardiology"), 1);
    assert_eq!(r, Err(invalid("Ensure 'name' and 'speciality' are provided.")));
    assert_eq!(c.get_doctors(), Err(not_found("No doctors found")));
    assert_eq!(c.last_id(), 0);
}

#[test]
fn each_payload_names_the_fields_it_needs() {
    let mut c = clinic();
    assert_eq!(
        c.create_doctor(doctor("n", ""), 1),
        Err(invalid("Ensure 'name' and 'speciality' are provided."))
    );
    assert_eq!(
        c.create_patient(patient("n", 3, ""), 1),
        Err(invalid("Ensure 'name' and 'gender' are provided."))
    );
    assert_eq!(
        c.create_appointment(appointment(""), 1),
        Err(invalid("Ensure 'description' is provided."))
    );
    assert_eq!(
        c.create_patient_record(
            PatientRecordPayload {
                patient_id: 1,
                doctor_id: 2,
                diagnosis: String::new(),
                treatment: "t".to_string(),
                medications: Vec::new(),
            },
            1,
        ),
        Err(invalid("Ensure 'diagnosis' and 'treatment' are provided."))
    );
    assert_eq!(
        c.create_medication(
            MedicationPayload {
                name: "n".to_string(),
                dosage: "d".to_string(),
                frequency: String::new(),
                patient_id: 1,
            },
            1,
        ),
        Err(invalid("Ensure 'name', 'dosage', and 'frequency' are provided."))
    );
    assert_eq!(c.last_id(), 0);
    assert_eq!(c.get_patients(), Err(not_found("No patients found")));
    assert_eq!(c.get_appointments(), Err(not_found("No appointments found")));
    assert_eq!(c.get_patient_records(), Err(not_found("No patient records found")));
    assert_eq!(c.get_medications(), Err(not_found("No medications found")));
}

#[test]
fn a_patient_keeps_the_fields_supplied() {
    let mut c = clinic();
    let p = c
        .create_patient(patient("Bo", 41, "m"), 8)
        .unwrap();
    assert_eq!(
        p,
        Patient { id: 1, name: "Bo".to_string(), age: 41, gender: "m".to_string(), created_at: 8 }
    );
    assert_eq!(c.get_patient_by_id(1), Ok(p.clone()));
    assert_eq!(c.get_patients(), Ok(vec![p]));
}

#[test]
fn a_new_appointment_has_not_been_updated_and_an_updated_one_says_when() {
    let mut c = clinic();
    let a = c.create_appointment(appointment("first visit"), 20).unwrap();
    assert_eq!(
        a,
        Appointment {
            id: 1,
            patient_id: 11,
            doctor_id: 12,
            date_time: 1700,
            duration: 45,
            description: "first visit".to_string(),
            created_at: 20,
            updated_at: None,
        }
    );
    let u = c.update_appointment(1, 13, 14, 1800, 30, "moved".to_string(), 25).unwrap();
    assert_eq!(
        u,
        Appointment {
            id: 1,
            patient_id: 13,
            doctor_id: 14,
            date_time: 1800,
            duration: 30,
            description: "moved".to_string(),
            created_at: 25,
            updated_at: Some(25),
        }
    );
    assert_eq!(c.get_appointment_id(1), Ok(u));
}

#[test]
fn patient_record_keeps_its_medications() {
    let mut c = clinic();
    let p = PatientRecordPayload {
        patient_id: 4,
        doctor_id: 9,
        diagnosis: "flu".to_string(),
        treatment: "rest".to_string(),
        medications: vec!["a".to_string(), "bé".to_string()],
    };
    let r = c.create_patient_record(p, 5).unwrap();
    let back = c.get_patient_record(r.id).unwrap();
    assert_eq!(back.medications, vec!["a".to_string(), "bé".to_string()]);
    assert_eq!(back, r);
    let u = c
        .update_patient_record(r.id, 4, 9, "cold".to_string(), "tea".to_string(), Vec::new(), 6)
        .unwrap();
    assert_eq!(u.medications, Vec::<String>::new());
    assert_eq!(c.get_patient_records(), Ok(vec![u]));
}

#[test]
fn a_medication_is_replaced_whole() {
    let mut c = clinic();
    let m = c
        .create_medication(
            MedicationPayload {
                name: "n".to_string(),
                dosage: "1".to_string(),
                frequency: "daily".to_string(),
                patient_id: 3,
            },
            1,
        )
        .unwrap();
    let u = c.update_medication(m.id, "o".to_string(), "2".to_string(), "weekly".to_string(), 4, 2);
    assert_eq!(
        u,
        Ok(Medication {
            id: m.id,
            name: "o".to_string(),
            dosage: "2".to_string(),
            frequency: "weekly".to_string(),
            patient_id: 4,
            created_at: 2,
        })
    );
    assert_eq!(c.get_medication_by_id(m.id), u);
}

#[test]
fn update_doctor_stamps_the_record_anew() {
    let mut c = clinic();
    c.create_doctor(doctor("A", "x"), 1).unwrap();
    let u = c.update_doctor(1, "B".to_string(), "y".to_string(), 9).unwrap();
    assert_eq!(
        u,
        Doctor { id: 1, name: "B".to_string(), speciality: "y".to_string(), created_at: 9 }
    );
    assert_eq!(c.get_doctors(), Ok(vec![u]));
    assert_eq!(c.last_id(), 1);
}

#[test]
fn update_of_a_missing_id_is_not_found_whatever_the_fields() {
    let mut c = clinic();
    let d = c.create_doctor(doctor("A", "x"), 1).unwrap();
    assert_eq!(
        c.update_doctor(2, "B".to_string(), "y".to_string(), 9),
        Err(not_found("Doctor not found"))
    );
    assert_eq!(
        c.update_doctor(2, String::new(), String::new(), 9),
        Err(not_found("Doctor not found"))
    );
    assert_eq!(
        c.update_patient(1, "B".to_string(), 3, "f".to_string(), 9),
        Err(not_found("Patient not found"))
    );
    assert_eq!(
        c.update_appointment(1, 1, 1, 1, 1, "d".to_string(), 9),
        Err(not_found("Appointment not found"))
    );
    assert_eq!(
        c.update_patient_record(1, 1, 1, "d".to_string(), "t".to_string(), Vec::new(), 9),
        Err(not_found("Patient record not found"))
    );
    assert_eq!(
        c.update_medication(1, "n".to_string(), "d".to_string(), "f".to_string(), 1, 9),
        Err(not_found("Medication not found"))
    );
    assert_eq!(c.get_doctors(), Ok(vec![d]));
    assert_eq!(c.get_patients(), Err(not_found("No patients found")));
}

#[test]
fn delete_doctor_removes_only_that_doctor() {
    let mut c = clinic();
    let a = c.create_doctor(doctor("A", "x"), 1).unwrap();
    let b = c.create_doctor(doctor("B", "y"), 2).unwrap();
    assert_eq!(c.delete_doctor(a.id), Ok(()));
    assert_eq!(c.get_doctor_id(a.id), Err(not_found("Doctor not found")));
    assert_eq!(c.get_doctors(), Ok(vec![b]));
    assert_eq!(c.delete_doctor(a.id), Err(not_found("Doctor not found")));
}

#[test]
fn delete_of_a_missing_id_is_not_found_in_every_store() {
    let mut c = clinic();
    assert_eq!(c.delete_doctor(1), Err(not_found("Doctor not found")));
    assert_eq!(c.delete_patient(1), Err(not_found("Patient not found")));
    assert_eq!(c.delete_appointment(1), Err(not_found("Appointment not found")));
    assert_eq!(c.delete_patient_record(1), Err(not_found("Patient record not found")));
    assert_eq!(c.delete_medication(1), Err(not_found("Medication not found")));
    assert_eq!(c.get_patient_by_id(1), Err(not_found("Patient not found")));
    assert_eq!(c.get_appointment_id(1), Err(not_found("Appointment not found")));
    assert_eq!(c.get_patient_record(1), Err(not_found("Patient record not found")));
    assert_eq!(c.get_medication_by_id(1), Err(not_found("Medication not found")));
}

#[test]
fn listing_is_in_order_of_creation_across_many_records() {
    let mut c = clinic();
    let mut made = Vec::new();
    for i in 0..40u64 {
        if i % 3 == 0 {
            c.create_appointment(appointment("between"), i).unwrap();
        }
        made.push(c.create_doctor(doctor("n", "s"), i).unwrap());
    }
    let listed = c.get_doctors().unwrap();
    assert_eq!(listed, made);
    assert!(listed.windows(2).all(|w| w[0].id < w[1].id));
    assert_eq!(c.get_appointments().unwrap().len(), 14);
    for d in &made {
        assert_eq!(c.get_doctor_id(d.id).as_ref(), Ok(d));
    }
    assert_eq!(c.delete_doctor(made[20].id), Ok(()));
    assert_eq!(c.get_doctors().unwrap().len(), 39);
}

#[test]
fn a_description_too_long_to_store_is_refused() {
    let mut c = clinic();
    let long = "d".repeat(1000);
    assert_eq!(
        c.create_appointment(appointment(&long), 1),
        Err(invalid("Record exceeds the maximum stored size"))
    );
    let fits = "d".repeat(1024 - 8 * 5 - 4 - 8 - 1);
    let a = c.create_appointment(appointment(&fits), 1).unwrap();
    assert_eq!(a.id, 1);
    // Updated, the record holds its time of update and is eight bytes longer.
    assert_eq!(
        c.update_appointment(1, 11, 12, 1700, 45, fits, 2),
        Err(invalid("Record exceeds the maximum stored size"))
    );
    assert_eq!(c.get_appointment_id(1), Ok(a));
}

#[test]
fn reopening_the_regions_finds_what_was_stored() {
    let mut c = clinic();
    let a = c.create_doctor(doctor("A", "x"), 1).unwrap();
    let p = c
        .create_patient(patient("Bo", 41, "m"), 8)
        .unwrap();
    let regions = c.close();
    let c = Clinic::open(regions).expect("sound regions open");
    assert_eq!(c.get_doctors(), Ok(vec![a]));
    assert_eq!(c.get_patients(), Ok(vec![p]));
    assert_eq!(c.last_id(), 2);
}

#[test]
fn regions_that_hold_records_of_another_kind_do_not_open() {
    let mut l = Logistics::open(Regions::open()).unwrap();
    l.create_donor_profile(
        DonorProfilePayload {
            name: "A".to_string(),
            phone_number: "1234567890".to_string(),
            email: "a@x.com".to_string(),
            address: "addr".to_string(),
            donor_type: DonorType::Restaurant,
        },
        1,
    )
    .unwrap();
    assert!(Clinic::open(l.close()).is_none());

    let mut c = clinic();
    c.create_doctor(doctor("A", "x"), 1).unwrap();
    assert!(Logistics::open(c.close()).is_none());
}

#[test]
fn regions_that_hold_no_records_open_as_either() {
    let l = Logistics::open(Regions::open()).unwrap();
    let c = Clinic::open(l.close()).unwrap();
    assert_eq!(c.last_id(), 0);
    assert!(Logistics::open(c.close()).is_some());
}
