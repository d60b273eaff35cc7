//! Assignments of a surplus post to a receiver and a driver.

use vstd::prelude::*;
use crate::record::Record;
use crate::wire::{
    lemma_no_rest, lemma_regroup, lemma_take_text, lemma_take_u64, lemma_taken_text,
    lemma_taken_u64, lemma_text_len, put_text, put_u64, read_text, read_u64, take_text, take_u64,
    text_bytes, u64_bytes,
};

verus! {

/// An assignment.
#[derive(Debug, PartialEq, Eq)]
pub struct Assignment {
    pub id: u64,
    pub receiver_id: u64,
    pub surplus_post_id: u64,
    pub driver_id: u64,
    pub status: String,
    pub created_at: u64,
}

/// An assignment, as contracts see it.
pub struct AssignmentView {
    pub id: u64,
    pub receiver_id: u64,
    pub surplus_post_id: u64,
    pub driver_id: u64,
    pub status: Seq<char>,
    pub created_at: u64,
}

impl View for Assignment {
    type V = AssignmentView;

    open spec fn view(&self) -> AssignmentView {
        AssignmentView {
            id: self.id,
            receiver_id: self.receiver_id,
            surplus_post_id: self.surplus_post_id,
            driver_id: self.driver_id,
            status: self.status@,
            created_at: self.created_at,
        }
    }
}

impl Clone for Assignment {
    fn clone(&self) -> (r: Self)
        ensures
            r@ == self@,
    {
        Assignment {
            id: self.id,
            receiver_id: self.receiver_id,
            surplus_post_id: self.surplus_post_id,
            driver_id: self.driver_id,
            status: self.status.clone(),
            created_at: self.created_at,
        }
    }
}

/// What a caller supplies of an assignment.
#[derive(Debug, PartialEq, Eq)]
pub struct AssignmentPayload {
    pub receiver_id: u64,
    pub surplus_post_id: u64,
    pub driver_id: u64,
}

impl AssignmentPayload {
    /// The assignment that the payload describes, under `id` and stamped `now`,
    /// with the status "Pending".
    pub open spec fn record(&self, id: u64, now: u64) -> AssignmentView {
        AssignmentView {
            id,
            receiver_id: self.receiver_id,
            surplus_post_id: self.surplus_post_id,
            driver_id: self.driver_id,
            status: "Pending"@,
            created_at: now,
        }
    }

    /// The assignment that the payload describes, under `id` and stamped `now`,
    /// with the status "Pending".
    pub fn into_record(self, id: u64, now: u64) -> (r: Assignment)
        ensures
            r@ == self.record(id, now),
    {
        Assignment {
            id,
            receiver_id: self.receiver_id,
            surplus_post_id: self.surplus_post_id,
            driver_id: self.driver_id,
            status: String::from_str("Pending"),
            created_at: now,
        }
    }

    /// The assignment that the payload describes, under `id` and stamped `now`,
    /// with the status given.
    pub open spec fn revision(&self, id: u64, now: u64, status: String) -> AssignmentView {
        AssignmentView {
            id,
            receiver_id: self.receiver_id,
            surplus_post_id: self.surplus_post_id,
            driver_id: self.driver_id,
            status: status@,
            created_at: now,
        }
    }

    /// The assignment that the payload describes, under `id` and stamped `now`,
    /// with the status given.
    pub fn into_revision(self, id: u64, now: u64, status: String) -> (r: Assignment)
        ensures
            r@ == self.revision(id, now, status),
    {
        Assignment {
            id,
            receiver_id: self.receiver_id,
            surplus_post_id: self.surplus_post_id,
            driver_id: self.driver_id,
            status,
            created_at: now,
        }
    }
}

impl Record for Assignment {
    open spec fn key_of(v: AssignmentView) -> u64 {
        v.id
    }

    open spec fn encoding(v: AssignmentView) -> Seq<u8> {
        u64_bytes(v.id)
            + u64_bytes(v.receiver_id)
            + u64_bytes(v.surplus_post_id)
            + u64_bytes(v.driver_id)
            + text_bytes(v.status)
            + u64_bytes(v.created_at)
    }

    open spec fn decoding(bytes: Seq<u8>) -> Option<AssignmentView> {
        let id = take_u64(bytes);
        let receiver_id = take_u64(id.unwrap().1);
        let surplus_post_id = take_u64(receiver_id.unwrap().1);
        let driver_id = take_u64(surplus_post_id.unwrap().1);
        let status = take_text(driver_id.unwrap().1);
        let created_at = take_u64(status.unwrap().1);
        if id is Some
            && receiver_id is Some
            && surplus_post_id is Some
            && driver_id is Some
            && status is Some
            && created_at is Some
            && created_at.unwrap().1.len() == 0 {
            Some(
                AssignmentView {
                    id: id.unwrap().0,
                    receiver_id: receiver_id.unwrap().0,
                    surplus_post_id: surplus_post_id.unwrap().0,
                    driver_id: driver_id.unwrap().0,
                    status: status.unwrap().0,
                    created_at: created_at.unwrap().0,
                },
            )
        } else {
            None
        }
    }

    proof fn lemma_round_trip(v: AssignmentView) {
        let t5 = u64_bytes(v.created_at);
        let t4 = text_bytes(v.status) + t5;
        let t3 = u64_bytes(v.driver_id) + t4;
        let t2 = u64_bytes(v.surplus_post_id) + t3;
        let t1 = u64_bytes(v.receiver_id) + t2;
        let t0 = u64_bytes(v.id) + t1;
        let done = u64_bytes(v.id);
        lemma_regroup(done, u64_bytes(v.receiver_id), t2);
        let done = done + u64_bytes(v.receiver_id);
        lemma_regroup(done, u64_bytes(v.surplus_post_id), t3);
        let done = done + u64_bytes(v.surplus_post_id);
        lemma_regroup(done, u64_bytes(v.driver_id), t4);
        let done = done + u64_bytes(v.driver_id);
        lemma_regroup(done, text_bytes(v.status), t5);
        let done = done + text_bytes(v.status);
        assert(Self::encoding(v) == t0);
        lemma_text_len(v.status);
        lemma_take_u64(v.id, t1);
        lemma_take_u64(v.receiver_id, t2);
        lemma_take_u64(v.surplus_post_id, t3);
        lemma_take_u64(v.driver_id, t4);
        lemma_take_text(v.status, t5);
        lemma_take_u64(v.created_at, Seq::empty());
        lemma_no_rest(t5, Seq::empty());
    }

    proof fn lemma_canonical(bytes: Seq<u8>) {
        lemma_taken_u64(bytes);
        let id = take_u64(bytes).unwrap();
        let done = u64_bytes(id.0);
        lemma_taken_u64(id.1);
        let receiver_id = take_u64(id.1).unwrap();
        lemma_regroup(done, u64_bytes(receiver_id.0), receiver_id.1);
        let done = done + u64_bytes(receiver_id.0);
        lemma_taken_u64(receiver_id.1);
        let surplus_post_id = take_u64(receiver_id.1).unwrap();
        lemma_regroup(done, u64_bytes(surplus_post_id.0), surplus_post_id.1);
        let done = done + u64_bytes(surplus_post_id.0);
        lemma_taken_u64(surplus_post_id.1);
        let driver_id = take_u64(surplus_post_id.1).unwrap();
        lemma_regroup(done, u64_bytes(driver_id.0), driver_id.1);
        let done = done + u64_bytes(driver_id.0);
        lemma_taken_text(driver_id.1);
        let status = take_text(driver_id.1).unwrap();
        lemma_regroup(done, text_bytes(status.0), status.1);
        let done = done + text_bytes(status.0);
        lemma_taken_u64(status.1);
        let created_at = take_u64(status.1).unwrap();
        lemma_regroup(done, u64_bytes(created_at.0), created_at.1);
        let done = done + u64_bytes(created_at.0);
        lemma_no_rest(done, created_at.1);
    }

    fn id(&self) -> u64 {
        self.id
    }

    fn encode(&self) -> Vec<u8> {
        let mut out: Vec<u8> = Vec::new();
        put_u64(&mut out, self.id);
        put_u64(&mut out, self.receiver_id);
        put_u64(&mut out, self.surplus_post_id);
        put_u64(&mut out, self.driver_id);
        put_text(&mut out, self.status.as_str());
        put_u64(&mut out, self.created_at);
        assert(out@ =~= Self::encoding(self@));
        out
    }

    fn decode(bytes: &[u8]) -> Option<Self> {
        assert(bytes@.skip(0) =~= bytes@);
        let (id, at) = match read_u64(bytes, 0) {
            Some(p) => p,
            None => { return None; },
        };
        let (receiver_id, at) = match read_u64(bytes, at) {
            Some(p) => p,
            None => { return None; },
        };
        let (surplus_post_id, at) = match read_u64(bytes, at) {
            Some(p) => p,
            None => { return None; },
        };
        let (driver_id, at) = match read_u64(bytes, at) {
            Some(p) => p,
            None => { return None; },
        };
        let (status, at) = match read_text(bytes, at) {
            Some(p) => p,
            None => { return None; },
        };
        let (created_at, at) = match read_u64(bytes, at) {
            Some(p) => p,
            None => { return None; },
        };
        if at != bytes.len() {
            return None;
        }
        Some(Assignment { id, receiver_id, surplus_post_id, driver_id, status, created_at })
    }
}

} // verus!
