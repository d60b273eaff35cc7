//! Patients.

use vstd::prelude::*;
use crate::message::{ErrorKind, Fault, Message};
use crate::record::Record;
use crate::wire::{
    lemma_no_rest, lemma_regroup, lemma_take_text, lemma_take_u32, lemma_take_u64,
    lemma_taken_text, lemma_taken_u32, lemma_taken_u64, lemma_text_len, put_text, put_u32,
    put_u64, read_text, read_u32, read_u64, take_text, take_u32, take_u64, text_bytes, u32_bytes,
    u64_bytes,
};

verus! {

/// A patient.
#[derive(Debug, PartialEq, Eq)]
pub struct Patient {
    pub id: u64,
    pub name: String,
    pub age: u32,
    pub gender: String,
    pub created_at: u64,
}

/// A patient, as contracts see it.
pub struct PatientView {
    pub id: u64,
    pub name: Seq<char>,
    pub age: u32,
    pub gender: Seq<char>,
    pub created_at: u64,
}

impl View for Patient {
    type V = PatientView;

    open spec fn view(&self) -> PatientView {
        PatientView {
            id: self.id,
            name: self.name@,
            age: self.age,
            gender: self.gender@,
            created_at: self.created_at,
        }
    }
}

impl Clone for Patient {
    fn clone(&self) -> (r: Self)
        ensures
            r@ == self@,
    {
        Patient {
            id: self.id,
            name: self.name.clone(),
            age: self.age,
            gender: self.gender.clone(),
            created_at: self.created_at,
        }
    }
}

/// What a caller supplies of a patient.
#[derive(Debug, PartialEq, Eq)]
pub struct PatientPayload {
    pub name: String,
    pub age: u32,
    pub gender: String,
}

impl PatientPayload {
    /// Why the payload is refused, if it is.
    pub open spec fn fault(&self) -> Option<Fault> {
        if self.name@.len() == 0 || self.gender@.len() == 0 {
            Some((ErrorKind::InvalidPayload, "Ensure 'name' and 'gender' are provided."@))
        } else {
            None
        }
    }

    /// Holds the payload to the field checks.
    pub fn check(&self) -> (r: Result<(), Message>)
        ensures
            r is Ok ==> self.fault() is None,
            r matches Err(e) ==> self.fault() == Some(e@),
    {
        if self.name.as_str().is_empty() || self.gender.as_str().is_empty() {
            return Err(
                Message::new(ErrorKind::InvalidPayload, "Ensure 'name' and 'gender' are provided."),
            );
        }
        Ok(())
    }

    /// The patient that the payload describes, under `id` and stamped `now`.
    pub open spec fn record(&self, id: u64, now: u64) -> PatientView {
        PatientView {
            id,
            name: self.name@,
            age: self.age,
            gender: self.gender@,
            created_at: now,
        }
    }

    /// The patient that the payload describes, under `id` and stamped `now`.
    pub fn into_record(self, id: u64, now: u64) -> (r: Patient)
        ensures
            r@ == self.record(id, now),
    {
        Patient {
            id,
            name: self.name,
            age: self.age,
            gender: self.gender,
            created_at: now,
        }
    }
}

impl Record for Patient {
    open spec fn key_of(v: PatientView) -> u64 {
        v.id
    }

    open spec fn encoding(v: PatientView) -> Seq<u8> {
        u64_bytes(v.id)
            + text_bytes(v.name)
            + u32_bytes(v.age)
            + text_bytes(v.gender)
            + u64_bytes(v.created_at)
    }

    open spec fn decoding(bytes: Seq<u8>) -> Option<PatientView> {
        let id = take_u64(bytes);
        let name = take_text(id.unwrap().1);
        let age = take_u32(name.unwrap().1);
        let gender = take_text(age.unwrap().1);
        let created_at = take_u64(gender.unwrap().1);
        if id is Some
            && name is Some
            && age is Some
            && gender is Some
            && created_at is Some
            && created_at.unwrap().1.len() == 0 {
            Some(
                PatientView {
                    id: id.unwrap().0,
                    name: name.unwrap().0,
                    age: age.unwrap().0,
                    gender: gender.unwrap().0,
                    created_at: created_at.unwrap().0,
                },
            )
        } else {
            None
        }
    }

    proof fn lemma_round_trip(v: PatientView) {
        let t4 = u64_bytes(v.created_at);
        let t3 = text_bytes(v.gender) + t4;
        let t2 = u32_bytes(v.age) + t3;
        let t1 = text_bytes(v.name) + t2;
        let t0 = u64_bytes(v.id) + t1;
        let done = u64_bytes(v.id);
        lemma_regroup(done, text_bytes(v.name), t2);
        let done = done + text_bytes(v.name);
        lemma_regroup(done, u32_bytes(v.age), t3);
        let done = done + u32_bytes(v.age);
        lemma_regroup(done, text_bytes(v.gender), t4);
        let done = done + text_bytes(v.gender);
        assert(Self::encoding(v) == t0);
        lemma_text_len(v.name);
        lemma_text_len(v.gender);
        lemma_take_u64(v.id, t1);
        lemma_take_text(v.name, t2);
        lemma_take_u32(v.age, t3);
        lemma_take_text(v.gender, t4);
        lemma_take_u64(v.created_at, Seq::empty());
        lemma_no_rest(t4, Seq::empty());
    }

    proof fn lemma_canonical(bytes: Seq<u8>) {
        lemma_taken_u64(bytes);
        let id = take_u64(bytes).unwrap();
        let done = u64_bytes(id.0);
        lemma_taken_text(id.1);
        let name = take_text(id.1).unwrap();
        lemma_regroup(done, text_bytes(name.0), name.1);
        let done = done + text_bytes(name.0);
        lemma_taken_u32(name.1);
        let age = take_u32(name.1).unwrap();
        lemma_regroup(done, u32_bytes(age.0), age.1);
        let done = done + u32_bytes(age.0);
        lemma_taken_text(age.1);
        let gender = take_text(age.1).unwrap();
        lemma_regroup(done, text_bytes(gender.0), gender.1);
        let done = done + text_bytes(gender.0);
        lemma_taken_u64(gender.1);
        let created_at = take_u64(gender.1).unwrap();
        lemma_regroup(done, u64_bytes(created_at.0), created_at.1);
        let done = done + u64_bytes(created_at.0);
        lemma_no_rest(done, created_at.1);
    }

    fn id(&self) -> u64 {
        self.id
    }

    fn encode(&self) -> Vec<u8> {
        let mut out: Vec<u8> = Vec::new();
        put_u64(&mut out, self.id);
        put_text(&mut out, self.name.as_str());
        put_u32(&mut out, self.age);
        put_text(&mut out, self.gender.as_str());
        put_u64(&mut out, self.created_at);
        assert(out@ =~= Self::encoding(self@));
        out
    }

    fn decode(bytes: &[u8]) -> Option<Self> {
        assert(bytes@.skip(0) =~= bytes@);
        let (id, at) = match read_u64(bytes, 0) {
            Some(p) => p,
            None => { return None; },
        };
        let (name, at) = match read_text(bytes, at) {
            Some(p) => p,
            None => { return None; },
        };
        let (age, at) = match read_u32(bytes, at) {
            Some(p) => p,
            None => { return None; },
        };
        let (gender, at) = match read_text(bytes, at) {
            Some(p) => p,
            None => { return None; },
        };
        let (created_at, at) = match read_u64(bytes, at) {
            Some(p) => p,
            None => { return None; },
        };
        if at != bytes.len() {
            return None;
        }
        Some(Patient { id, name, age, gender, created_at })
    }
}

} // verus!
