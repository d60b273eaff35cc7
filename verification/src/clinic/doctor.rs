//! Doctors.

use vstd::prelude::*;
use crate::message::{ErrorKind, Fault, Message};
use crate::record::Record;
use crate::wire::{
    lemma_no_rest, lemma_regroup, lemma_take_text, lemma_take_u64, lemma_taken_text,
    lemma_taken_u64, lemma_text_len, put_text, put_u64, read_text, read_u64, take_text, take_u64,
    text_bytes, u64_bytes,
};

verus! {

/// A doctor.
#[derive(Debug, PartialEq, Eq)]
pub struct Doctor {
    pub id: u64,
    pub name: String,
    pub speciality: String,
    pub created_at: u64,
}

/// A doctor, as contracts see it.
pub struct DoctorView {
    pub id: u64,
    pub name: Seq<char>,
    pub speciality: Seq<char>,
    pub created_at: u64,
}

impl View for Doctor {
    type V = DoctorView;

    open spec fn view(&self) -> DoctorView {
        DoctorView {
            id: self.id,
            name: self.name@,
            speciality: self.speciality@,
            created_at: self.created_at,
        }
    }
}

impl Clone for Doctor {
    fn clone(&self) -> (r: Self)
        ensures
            r@ == self@,
    {
        Doctor {
            id: self.id,
            name: self.name.clone(),
            speciality: self.speciality.clone(),
            created_at: self.created_at,
        }
    }
}

/// What a caller supplies of a doctor.
#[derive(Debug, PartialEq, Eq)]
pub struct DoctorPayload {
    pub name: String,
    pub speciality: String,
}

impl DoctorPayload {
    /// Why the payload is refused, if it is.
    pub open spec fn fault(&self) -> Option<Fault> {
        if self.name@.len() == 0 || self.speciality@.len() == 0 {
            Some((ErrorKind::InvalidPayload, "Ensure 'name' and 'speciality' are provided."@))
        } else {
            None
        }
    }

    /// Holds the payload to the field checks.
    pub fn check(&self) -> (r: Result<(), Message>)
        ensures
            r is Ok ==> self.fault() is None,
            r matches Err(e) ==> self.fault() == Some(e@),
    {
        if self.name.as_str().is_empty() || self.speciality.as_str().is_empty() {
            return Err(
                Message::new(
                    ErrorKind::InvalidPayload,
                    "Ensure 'name' and 'speciality' are provided.",
                ),
            );
        }
        Ok(())
    }

    /// The doctor that the payload describes, under `id` and stamped `now`.
    pub open spec fn record(&self, id: u64, now: u64) -> DoctorView {
        DoctorView {
            id,
            name: self.name@,
            speciality: self.speciality@,
            created_at: now,
        }
    }

    /// The doctor that the payload describes, under `id` and stamped `now`.
    pub fn into_record(self, id: u64, now: u64) -> (r: Doctor)
        ensures
            r@ == self.record(id, now),
    {
        Doctor {
            id,
            name: self.name,
            speciality: self.speciality,
            created_at: now,
        }
    }
}

impl Record for Doctor {
    open spec fn key_of(v: DoctorView) -> u64 {
        v.id
    }

    open spec fn encoding(v: DoctorView) -> Seq<u8> {
        u64_bytes(v.id) + text_bytes(v.name) + text_bytes(v.speciality) + u64_bytes(v.created_at)
    }

    open spec fn decoding(bytes: Seq<u8>) -> Option<DoctorView> {
        let id = take_u64(bytes);
        let name = take_text(id.unwrap().1);
        let speciality = take_text(name.unwrap().1);
        let created_at = take_u64(speciality.unwrap().1);
        if id is Some
            && name is Some
            && speciality is Some
            && created_at is Some
            && created_at.unwrap().1.len() == 0 {
            Some(
                DoctorView {
                    id: id.unwrap().0,
                    name: name.unwrap().0,
                    speciality: speciality.unwrap().0,
                    created_at: created_at.unwrap().0,
                },
            )
        } else {
            None
        }
    }

    proof fn lemma_round_trip(v: DoctorView) {
        let t3 = u64_bytes(v.created_at);
        let t2 = text_bytes(v.speciality) + t3;
        let t1 = text_bytes(v.name) + t2;
        let t0 = u64_bytes(v.id) + t1;
        let done = u64_bytes(v.id);
        lemma_regroup(done, text_bytes(v.name), t2);
        let done = done + text_bytes(v.name);
        lemma_regroup(done, text_bytes(v.speciality), t3);
        let done = done + text_bytes(v.speciality);
        assert(Self::encoding(v) == t0);
        lemma_text_len(v.name);
        lemma_text_len(v.speciality);
        lemma_take_u64(v.id, t1);
        lemma_take_text(v.name, t2);
        lemma_take_text(v.speciality, t3);
        lemma_take_u64(v.created_at, Seq::empty());
        lemma_no_rest(t3, Seq::empty());
    }

    proof fn lemma_canonical(bytes: Seq<u8>) {
        lemma_taken_u64(bytes);
        let id = take_u64(bytes).unwrap();
        let done = u64_bytes(id.0);
        lemma_taken_text(id.1);
        let name = take_text(id.1).unwrap();
        lemma_regroup(done, text_bytes(name.0), name.1);
        let done = done + text_bytes(name.0);
        lemma_taken_text(name.1);
        let speciality = take_text(name.1).unwrap();
        lemma_regroup(done, text_bytes(speciality.0), speciality.1);
        let done = done + text_bytes(speciality.0);
        lemma_taken_u64(speciality.1);
        let created_at = take_u64(speciality.1).unwrap();
        lemma_regroup(done, u64_bytes(created_at.0), created_at.1);
        let done = done + u64_bytes(created_at.0);
        lemma_no_rest(done, created_at.1);
    }

    fn id(&self) -> u64 {
        self.id
    }

    fn encode(&self) -> Vec<u8> {
        let mut out: Vec<u8> = Vec::new();
        put_u64(&mut out, self.id);
        put_text(&mut out, self.name.as_str());
        put_text(&mut out, self.speciality.as_str());
        put_u64(&mut out, self.created_at);
        assert(out@ =~= Self::encoding(self@));
        out
    }

    fn decode(bytes: &[u8]) -> Option<Self> {
        assert(bytes@.skip(0) =~= bytes@);
        let (id, at) = match read_u64(bytes, 0) {
            Some(p) => p,
            None => { return None; },
        };
        let (name, at) = match read_text(bytes, at) {
            Some(p) => p,
            None => { return None; },
        };
        let (speciality, at) = match read_text(bytes, at) {
            Some(p) => p,
            None => { return None; },
        };
        let (created_at, at) = match read_u64(bytes, at) {
            Some(p) => p,
            None => { return None; },
        };
        if at != bytes.len() {
            return None;
        }
        Some(Doctor { id, name, speciality, created_at })
    }
}

} // verus!
