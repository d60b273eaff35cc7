use entity_store::durable::Regions;
use entity_store::logistics::assignment::{Assignment, AssignmentPayload};
use entity_store::logistics::donor::{DonorProfile, DonorProfilePayload, DonorType};
use entity_store::logistics::driver::{DriverProfile, DriverProfilePayload};
use entity_store::logistics::matching::PostState;
use entity_store::logistics::receiver::ReceiverProfilePayload;
use entity_store::logistics::service::Logistics;
use entity_store::logistics::surplus_post::{SurplusPost, SurplusPostPayload};
use entity_store::logistics::surplus_record::{SurplusRecord, SurplusRecordPayload};
use entity_store::message::{ErrorKind, Message};

fn fresh() -> Logistics {
    Logistics::open(Regions::open()).expect("a fresh memory opens")
}

fn donor(email: &str) -> DonorProfilePayload {
    DonorProfilePayload {
        name: "A".to_string(),
        phone_number: "1234567890".to_string(),
        email: email.to_string(),
        address: "addr".to_string(),
        donor_type: DonorType::Restaurant,
    }
}

fn receiver(email: &str) -> ReceiverProfilePayload {
    ReceiverProfilePayload {
        name: "R".to_string(),
        phone_number: "0987654321".to_string(),
        email: email.to_string(),
        address: "street".to_string(),
    }
}

fn driver(email: &str) -> DriverProfilePayload {
    DriverProfilePayload {
        name: "D".to_string(),
        phone_number: "5555555555".to_string(),
        email: email.to_string(),
    }
}

fn post(donor_id: u64) -> SurplusPostPayload {
    SurplusPostPayload {
        donor_id,
        food_type: "bread".to_string(),
        quantity: 12,
        expiry_date: "tomorrow".to_string(),
    }
}

fn assignment(receiver_id: u64, surplus_post_id: u64, driver_id: u64) -> AssignmentPayload {
    AssignmentPayload { receiver_id, surplus_post_id, driver_id }
}

fn delivery(surplus_post_id: u64, driver_id: u64) -> SurplusRecordPayload {
    SurplusRecordPayload { surplus_post_id, driver_id }
}

/// Donor 1, post 2, receiver 3, driver 4.
fn stocked() -> Logistics {
    let mut l = fresh();
    assert_eq!(l.create_donor_profile(donor("a@x.com"), 10).unwrap().id, 1);
    assert_eq!(l.create_surplus_post(post(1)).unwrap().id, 2);
    assert_eq!(l.create_receiver_profile(receiver("r@x.com"), 11).unwrap().id, 3);
    assert_eq!(l.create_driver_profile(driver("d@x.com"), 12).unwrap().id, 4);
    l
}

fn conflict(text: &str) -> Message {
    Message::Conflict(text.to_string())
}

fn not_found(text: &str) -> Message {
    Message::NotFound(text.to_string())
}

fn invalid(text: &str) -> Message {
    Message::InvalidPayload(text.to_string())
}

#[test]
fn first_donor_gets_id_one_and_a_second_with_the_same_email_conflicts() {
    let mut l = fresh();
    let d = l.create_donor_profile(donor("a@x.com"), 42).unwrap();
    assert_eq!(
        d,
        DonorProfile {
            id: 1,
            name: "A".to_string(),
            phone_number: "1234567890".to_string(),
            email: "a@x.com".to_string(),
            address: "addr".to_string(),
            donor_type: DonorType::Restaurant,
            created_at: 42,
        }
    );
    let again = l.create_donor_profile(donor("a@x.com"), 43);
    assert_eq!(again, Err(conflict("Email already exists")));
    assert_eq!(l.get_all_donors().unwrap().len(), 1);
    assert_eq!(l.last_id(), 1);
}

#[test]
fn surplus_post_of_an_existing_donor_gets_id_two_and_is_unassigned() {
    let mut l = fresh();
    l.create_donor_profile(donor("a@x.com"), 1).unwrap();
    let p = l.create_surplus_post(post(1)).unwrap();
    assert_eq!(
        p,
        SurplusPost {
            id: 2,
            donor_id: 1,
            food_type: "bread".to_string(),
            quantity: 12,
            expiry_date: "tomorrow".to_string(),
            assigned: false,
        }
    );
    assert_eq!(l.create_surplus_post(post(999)), Err(not_found("Donor ID does not exist")));
    assert_eq!(l.get_all_surplus_posts().unwrap(), vec![p]);
}

#[test]
fn a_post_is_assigned_once() {
    let mut l = stocked();
    let a = l
        .create_assignment(assignment(3, 2, 4), 50)
        .unwrap();
    assert_eq!(
        a,
        Assignment {
            id: 5,
            receiver_id: 3,
            surplus_post_id: 2,
            driver_id: 4,
            status: "Pending".to_string(),
            created_at: 50,
        }
    );
    assert!(l.get_surplus_post(2).unwrap().assigned);
    let other_driver = l.create_driver_profile(driver("e@x.com"), 13).unwrap();
    let again = l.create_assignment(
        assignment(3, 2, other_driver.id),
        51,
    );
    assert_eq!(again, Err(conflict("already assigned")));
    assert_eq!(l.get_all_assignments().unwrap(), vec![a]);
}

#[test]
fn a_delivery_is_recorded_only_for_the_assigned_driver() {
    let mut l = stocked();
    l.create_assignment(assignment(3, 2, 4), 50)
        .unwrap();
    let r = l.create_surplus_record(delivery(2, 4), 60);
    assert_eq!(
        r,
        Ok(SurplusRecord {
            id: 6,
            surplus_post_id: 2,
            driver_id: 4,
            delivered_at: 60,
            rating: None,
        })
    );
    let wrong = l.create_surplus_record(delivery(2, 3), 61);
    assert_eq!(wrong, Err(conflict("not assigned to the driver ID")));
    assert_eq!(l.get_all_surplus_records().unwrap().len(), 1);
}

#[test]
fn listing_drivers_reports_an_empty_store_as_not_found() {
    let mut l = fresh();
    assert_eq!(l.get_all_drivers(), Err(not_found("No drivers found")));
    let d = l.create_driver_profile(driver("d@x.com"), 7).unwrap();
    assert_eq!(
        d,
        DriverProfile {
            id: 1,
            name: "D".to_string(),
            phone_number: "5555555555".to_string(),
            email: "d@x.com".to_string(),
            created_at: 7,
        }
    );
    assert_eq!(l.get_all_drivers(), Ok(vec![d]));
}

#[test]
fn ids_increase_by_one_across_entity_types() {
    let mut l = fresh();
    let mut seen = Vec::new();
    seen.push(l.create_donor_profile(donor("a@x.com"), 1).unwrap().id);
    seen.push(l.create_receiver_profile(receiver("a@x.com"), 1).unwrap().id);
    seen.push(l.create_driver_profile(driver("a@x.com"), 1).unwrap().id);
    seen.push(l.create_surplus_post(post(1)).unwrap().id);
    seen.push(l.create_donor_profile(donor("b@x.com"), 1).unwrap().id);
    assert_eq!(seen, vec![1, 2, 3, 4, 5]);
    assert_eq!(l.last_id(), 5);
}

#[test]
fn a_refused_payload_changes_no_count_and_uses_no_id() {
    let mut l = stocked();
    let mut bad = donor("b@x.com");
    bad.name = String::new();
    assert_eq!(
        l.create_donor_profile(bad, 1),
        Err(invalid("Ensure 'name', 'phone_number', 'email' and 'address' are provided."))
    );
    let mut bad = post(1);
    bad.quantity = 0;
    assert_eq!(l.create_surplus_post(bad), Err(invalid("Ensure 'quantity' is not zero.")));
    assert_eq!(l.get_all_donors().unwrap().len(), 1);
    assert_eq!(l.get_all_receivers().unwrap().len(), 1);
    assert_eq!(l.get_all_drivers().unwrap().len(), 1);
    assert_eq!(l.get_all_surplus_posts().unwrap().len(), 1);
    assert_eq!(l.get_all_assignments(), Err(not_found("No assignments found")));
    assert_eq!(l.get_all_surplus_records(), Err(not_found("No surplus records found")));
    assert_eq!(l.last_id(), 4);
}

#[test]
fn phone_number_must_have_ten_characters() {
    let mut l = fresh();
    let mut p = receiver("r@x.com");
    p.phone_number = "123456789".to_string();
    assert_eq!(
        l.create_receiver_profile(p, 1),
        Err(invalid("Ensure 'phone_number' has exactly 10 characters."))
    );
    let mut p = receiver("r@x.com");
    p.phone_number = "12345678901".to_string();
    assert_eq!(
        l.create_receiver_profile(p, 1),
        Err(invalid("Ensure 'phone_number' has exactly 10 characters."))
    );
    let mut p = receiver("r@x.com");
    p.phone_number = "١٢٣٤٥٦٧٨٩٠".to_string();
    assert_eq!(l.create_receiver_profile(p, 1).unwrap().id, 1);
}

#[test]
fn email_must_hold_an_at_sign() {
    let mut l = fresh();
    assert_eq!(
        l.create_driver_profile(driver("d.x.com"), 1),
        Err(invalid("Ensure 'email' contains '@'."))
    );
    assert_eq!(
        l.create_driver_profile(driver("dé€x.com"), 1),
        Err(invalid("Ensure 'email' contains '@'."))
    );
    assert_eq!(l.create_driver_profile(driver("é@"), 1).unwrap().id, 1);
}

#[test]
fn the_same_email_may_serve_a_donor_and_a_driver() {
    let mut l = fresh();
    l.create_donor_profile(donor("same@x.com"), 1).unwrap();
    assert_eq!(l.create_driver_profile(driver("same@x.com"), 1).unwrap().id, 2);
    assert_eq!(
        l.create_driver_profile(driver("same@x.com"), 1),
        Err(conflict("Email already exists"))
    );
}

#[test]
fn an_assignment_needs_its_receiver_post_and_driver() {
    let mut l = stocked();
    assert_eq!(
        l.create_assignment(assignment(9, 2, 4), 1),
        Err(not_found("Receiver ID does not exist"))
    );
    assert_eq!(
        l.create_assignment(assignment(3, 9, 4), 1),
        Err(not_found("Surplus post ID does not exist"))
    );
    assert_eq!(
        l.create_assignment(assignment(3, 2, 9), 1),
        Err(not_found("Driver ID does not exist"))
    );
    assert!(!l.get_surplus_post(2).unwrap().assigned);
    assert_eq!(l.last_id(), 4);
}

#[test]
fn a_driver_holds_one_assignment() {
    let mut l = stocked();
    l.create_assignment(assignment(3, 2, 4), 1)
        .unwrap();
    let second_post = l.create_surplus_post(post(1)).unwrap();
    assert_eq!(
        l.create_assignment(
            assignment(3, second_post.id, 4),
            2,
        ),
        Err(conflict("Driver already assigned"))
    );
    assert!(!l.get_surplus_post(second_post.id).unwrap().assigned);
    assert_eq!(l.get_all_assignments().unwrap().len(), 1);
}

fn shares(all: &[Assignment]) -> bool {
    all.iter().enumerate().any(|(i, a)| {
        all[i + 1..]
            .iter()
            .any(|b| a.surplus_post_id == b.surplus_post_id || a.driver_id == b.driver_id)
    })
}

#[test]
fn assignments_share_no_post_and_no_driver_whatever_is_asked() {
    let mut l = fresh();
    let donor_id = l.create_donor_profile(donor("a@x.com"), 1).unwrap().id;
    let receiver_id = l.create_receiver_profile(receiver("r@x.com"), 1).unwrap().id;
    let mut posts = Vec::new();
    let mut drivers = Vec::new();
    for i in 0..4 {
        posts.push(l.create_surplus_post(post(donor_id)).unwrap().id);
        drivers.push(l.create_driver_profile(driver(&format!("d{}@x.com", i)), 1).unwrap().id);
    }
    let mut made = 0;
    for &surplus_post_id in &posts {
        for &driver_id in &drivers {
            let asked = assignment(receiver_id, surplus_post_id, driver_id);
            if l.create_assignment(asked, 2).is_ok() {
                made += 1;
            }
            if let Ok(all) = l.get_all_assignments() {
                assert!(!shares(&all));
            }
        }
    }
    assert_eq!(made, 4);
    let all = l.get_all_assignments().unwrap();
    assert_eq!(l.delete_assignment(all[1].id), Ok(()));
    assert!(!shares(&l.get_all_assignments().unwrap()));
    assert_eq!(l.get_all_assignments().unwrap().len(), 3);
}

#[test]
fn update_of_an_assignment_does_not_check_its_references() {
    let mut l = stocked();
    let first = l
        .create_assignment(assignment(3, 2, 4), 1)
        .unwrap();
    let other_post = l.create_surplus_post(post(1)).unwrap().id;
    let other_driver = l.create_driver_profile(driver("e@x.com"), 1).unwrap().id;
    let second = l
        .create_assignment(
            assignment(3, other_post, other_driver),
            2,
        )
        .unwrap();
    // A post and a driver that no other assignment holds: still exclusive.
    let moved = l
        .update_assignment(
            second.id,
            assignment(77, 88, 99),
            "Pending".to_string(),
            3,
        )
        .unwrap();
    assert_eq!((moved.receiver_id, moved.surplus_post_id, moved.driver_id), (77, 88, 99));
    assert!(!shares(&l.get_all_assignments().unwrap()));
    // The post of the first assignment: the update goes through all the same.
    let clash = l.update_assignment(
        second.id,
        assignment(3, first.surplus_post_id, 99),
        "Pending".to_string(),
        4,
    );
    assert!(clash.is_ok());
    assert!(shares(&l.get_all_assignments().unwrap()));
}

#[test]
fn a_post_goes_from_unassigned_to_assigned_to_delivered() {
    let mut l = stocked();
    assert_eq!(l.get_post_state(2), Ok(PostState::Unassigned));
    assert_eq!(
        l.create_surplus_record(delivery(2, 4), 1),
        Err(conflict("not assigned to the driver ID"))
    );
    assert_eq!(l.get_post_state(2), Ok(PostState::Unassigned));
    l.create_assignment(assignment(3, 2, 4), 2).unwrap();
    assert_eq!(l.get_post_state(2), Ok(PostState::Assigned));
    l.create_surplus_record(delivery(2, 4), 3).unwrap();
    assert_eq!(l.get_post_state(2), Ok(PostState::Delivered));
    l.create_surplus_record(delivery(2, 4), 4).unwrap();
    assert_eq!(l.get_post_state(2), Ok(PostState::Delivered));
    assert_eq!(l.get_post_state(9), Err(not_found("Surplus post not found")));
    let other = l.create_surplus_post(post(1)).unwrap().id;
    assert_eq!(l.get_post_state(other), Ok(PostState::Unassigned));
}

#[test]
fn a_post_stays_assigned_after_its_assignment_is_deleted() {
    let mut l = stocked();
    let a = l
        .create_assignment(assignment(3, 2, 4), 1)
        .unwrap();
    assert_eq!(l.delete_assignment(a.id), Ok(()));
    assert!(l.get_surplus_post(2).unwrap().assigned);
    assert_eq!(
        l.create_assignment(assignment(3, 2, 4), 2),
        Err(conflict("already assigned"))
    );
    assert_eq!(
        l.create_surplus_record(delivery(2, 4), 3),
        Err(conflict("not assigned to the driver ID"))
    );
}

#[test]
fn update_of_a_missing_id_is_not_found_and_stores_nothing() {
    let mut l = stocked();
    assert_eq!(l.update_donor_profile(9, donor("z@x.com"), 1), Err(not_found("Donor not found")));
    assert_eq!(
        l.update_receiver_profile(9, receiver("z@x.com"), 1),
        Err(not_found("Receiver not found"))
    );
    assert_eq!(
        l.update_driver_profile(9, driver("z@x.com"), 1),
        Err(not_found("Driver not found"))
    );
    assert_eq!(l.update_surplus_post(9, post(1)), Err(not_found("Surplus post not found")));
    assert_eq!(
        l.update_assignment(
            9,
            assignment(3, 2, 4),
            "Done".to_string(),
            1,
        ),
        Err(not_found("Assignment not found"))
    );
    assert_eq!(
        l.update_surplus_record(9, delivery(2, 4), Some(5), 1),
        Err(not_found("Surplus record not found"))
    );
    assert_eq!(l.get_donor_profile(9), Err(not_found("Donor not found")));
    assert_eq!(l.get_all_donors().unwrap().len(), 1);
    assert_eq!(l.get_all_assignments(), Err(not_found("No assignments found")));
}

#[test]
fn update_replaces_every_field_but_the_id() {
    let mut l = stocked();
    let mut p = donor("new@x.com");
    p.name = "B".to_string();
    p.donor_type = DonorType::Farm;
    let d = l.update_donor_profile(1, p, 99).unwrap();
    assert_eq!(d.id, 1);
    assert_eq!(d.name, "B");
    assert_eq!(d.donor_type, DonorType::Farm);
    assert_eq!(d.created_at, 99);
    assert_eq!(l.get_donor_profile(1), Ok(d));
}

#[test]
fn update_of_a_post_keeps_whether_it_is_assigned() {
    let mut l = stocked();
    l.create_assignment(assignment(3, 2, 4), 1)
        .unwrap();
    let mut p = post(1);
    p.quantity = 3;
    let updated = l.update_surplus_post(2, p).unwrap();
    assert!(updated.assigned);
    assert_eq!(updated.quantity, 3);
}

#[test]
fn update_of_an_assignment_sets_its_status() {
    let mut l = stocked();
    let a = l
        .create_assignment(assignment(3, 2, 4), 1)
        .unwrap();
    let u = l
        .update_assignment(
            a.id,
            assignment(3, 2, 4),
            "Delivered".to_string(),
            8,
        )
        .unwrap();
    assert_eq!(u.status, "Delivered");
    assert_eq!(u.created_at, 8);
    assert_eq!(l.get_assignment(a.id), Ok(u));
}

#[test]
fn update_of_a_surplus_record_sets_its_rating() {
    let mut l = stocked();
    l.create_assignment(assignment(3, 2, 4), 1)
        .unwrap();
    let r = l.create_surplus_record(delivery(2, 4), 2).unwrap();
    let u = l
        .update_surplus_record(r.id, delivery(2, 4), Some(5), 3)
        .unwrap();
    assert_eq!(u.rating, Some(5));
    assert_eq!(u.delivered_at, 3);
    assert_eq!(l.get_surplus_record(r.id), Ok(u));
}

#[test]
fn delete_removes_exactly_the_record_named() {
    let mut l = fresh();
    let a = l.create_driver_profile(driver("a@x.com"), 1).unwrap();
    let b = l.create_driver_profile(driver("b@x.com"), 2).unwrap();
    let c = l.create_driver_profile(driver("c@x.com"), 3).unwrap();
    assert_eq!(l.get_all_drivers().unwrap().len(), 3);
    assert_eq!(l.delete_driver_profile(b.id), Ok(()));
    assert_eq!(l.get_driver_profile(b.id), Err(not_found("Driver not found")));
    assert_eq!(l.get_all_drivers(), Ok(vec![a, c]));
    assert_eq!(l.delete_driver_profile(b.id), Err(not_found("Driver not found")));
    assert_eq!(l.get_all_drivers().unwrap().len(), 2);
}

#[test]
fn delete_of_a_donor_leaves_its_posts() {
    let mut l = stocked();
    assert_eq!(l.delete_donor_profile(1), Ok(()));
    assert_eq!(l.get_surplus_post(2).unwrap().donor_id, 1);
    assert_eq!(l.delete_surplus_post(2), Ok(()));
    assert_eq!(l.delete_receiver_profile(3), Ok(()));
    assert_eq!(l.delete_surplus_record(1), Err(not_found("Surplus record not found")));
}

#[test]
fn created_records_are_found_with_the_fields_supplied() {
    let mut l = fresh();
    let d = l.create_donor_profile(donor("a@x.com"), 5).unwrap();
    let got = l.get_donor_profile(d.id).unwrap();
    assert_eq!(got, d);
    assert_eq!(got.name, "A");
    assert_eq!(got.phone_number, "1234567890");
    assert_eq!(got.email, "a@x.com");
    assert_eq!(got.address, "addr");
    assert_eq!(got.donor_type, DonorType::Restaurant);
    let r = l.create_receiver_profile(receiver("r@x.com"), 6).unwrap();
    assert_eq!(l.get_receiver_profile(r.id), Ok(r));
}

#[test]
fn a_record_too_large_to_store_is_refused() {
    let mut l = fresh();
    let mut p = donor("a@x.com");
    p.address = "x".repeat(2000);
    let r = l.create_donor_profile(p, 1);
    assert_eq!(r, Err(invalid("Record exceeds the maximum stored size")));
    assert_eq!(l.last_id(), 0);
    assert_eq!(l.get_all_donors(), Err(not_found("No donors found")));
}

#[test]
fn the_largest_record_that_fits_is_stored() {
    let mut l = fresh();
    // id, four length-prefixed texts, one byte of kind, timestamp: 49 bytes
    // besides the texts.
    let mut p = donor("a@x.com");
    let fixed = 8 + 4 * 8 + 1 + 8;
    let others = p.name.len() + p.phone_number.len() + p.email.len();
    p.address = "x".repeat(1024 - fixed - others);
    let d = l.create_donor_profile(p, 1).unwrap();
    assert_eq!(l.get_donor_profile(d.id), Ok(d));
    let mut p = donor("b@x.com");
    p.address = "x".repeat(1024 - fixed - others + 1);
    assert_eq!(
        l.create_donor_profile(p, 1),
        Err(invalid("Record exceeds the maximum stored size"))
    );
}

#[test]
fn update_refuses_a_record_too_large_and_keeps_the_old_one() {
    let mut l = stocked();
    let before = l.get_donor_profile(1).unwrap();
    let mut p = donor("a@x.com");
    p.name = "n".repeat(1100);
    assert_eq!(
        l.update_donor_profile(1, p, 2),
        Err(invalid("Record exceeds the maximum stored size"))
    );
    assert_eq!(l.get_donor_profile(1), Ok(before));
}

#[test]
fn messages_have_a_kind_and_a_text() {
    let m = Message::new(ErrorKind::Conflict, "Email already exists");
    assert_eq!(m, conflict("Email already exists"));
    assert_eq!(m.kind(), ErrorKind::Conflict);
    assert_eq!(m.text(), "Email already exists");
    assert_eq!(Message::new(ErrorKind::Fatal, "x"), Message::Fatal("x".to_string()));
    assert_eq!(Message::new(ErrorKind::NotFound, "y").kind(), ErrorKind::NotFound);
    assert_eq!(Message::new(ErrorKind::InvalidPayload, "z").kind(), ErrorKind::InvalidPayload);
}
