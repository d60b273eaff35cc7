//! Medications prescribed to a patient.

use vstd::prelude::*;
use crate::message::{ErrorKind, Fault, Message};
use crate::record::Record;
use crate::wire::{
    lemma_no_rest, lemma_regroup, lemma_take_text, lemma_take_u64, lemma_taken_text,
    lemma_taken_u64, lemma_text_len, put_text, put_u64, read_text, read_u64, take_text, take_u64,
    text_bytes, u64_bytes,
};

verus! {

/// A medication.
#[derive(Debug, PartialEq, Eq)]
pub struct Medication {
    pub id: u64,
    pub name: String,
    pub dosage: String,
    pub frequency: String,
    pub patient_id: u64,
    pub created_at: u64,
}

/// A medication, as contracts see it.
pub struct MedicationView {
    pub id: u64,
    pub name: Seq<char>,
    pub dosage: Seq<char>,
    pub frequency: Seq<char>,
    pub patient_id: u64,
    pub created_at: u64,
}

impl View for Medication {
    type V = MedicationView;

    open spec fn view(&self) -> MedicationView {
        MedicationView {
            id: self.id,
            name: self.name@,
            dosage: self.dosage@,
            frequency: self.frequency@,
            patient_id: self.patient_id,
            created_at: self.created_at,
        }
    }
}

impl Clone for Medication {
    fn clone(&self) -> (r: Self)
        ensures
            r@ == self@,
    {
        Medication {
            id: self.id,
            name: self.name.clone(),
            dosage: self.dosage.clone(),
            frequency: self.frequency.clone(),
            patient_id: self.patient_id,
            created_at: self.created_at,
        }
    }
}

/// What a caller supplies of a medication.
#[derive(Debug, PartialEq, Eq)]
pub struct MedicationPayload {
    pub name: String,
    pub dosage: String,
    pub frequency: String,
    pub patient_id: u64,
}

impl MedicationPayload {
    /// Why the payload is refused, if it is.
    pub open spec fn fault(&self) -> Option<Fault> {
        if self.name@.len() == 0 || self.dosage@.len() == 0 || self.frequency@.len() == 0 {
            Some(
                (
                    ErrorKind::InvalidPayload,
                    "Ensure 'name', 'dosage', and 'frequency' are provided."@,
                ),
            )
        } else {
            None
        }
    }

    /// Holds the payload to the field checks.
    pub fn check(&self) -> (r: Result<(), Message>)
        ensures
            r is Ok ==> self.fault() is None,
            r matches Err(e) ==> self.fault() == Some(e@),
    {
        if self.name.as_str().is_empty()
            || self.dosage.as_str().is_empty()
            || self.frequency.as_str().is_empty() {
            return Err(
                Message::new(
                    ErrorKind::InvalidPayload,
                    "Ensure 'name', 'dosage', and 'frequency' are provided.",
                ),
            );
        }
        Ok(())
    }

    /// The medication that the payload describes, under `id` and stamped `now`.
    pub open spec fn record(&self, id: u64, now: u64) -> MedicationView {
        MedicationView {
            id,
            name: self.name@,
            dosage: self.dosage@,
            frequency: self.frequency@,
            patient_id: self.patient_id,
            created_at: now,
        }
    }

    /// The medication that the payload describes, under `id` and stamped `now`.
    pub fn into_record(self, id: u64, now: u64) -> (r: Medication)
        ensures
            r@ == self.record(id, now),
    {
        Medication {
            id,
            name: self.name,
            dosage: self.dosage,
            frequency: self.frequency,
            patient_id: self.patient_id,
            created_at: now,
        }
    }
}

impl Record for Medication {
    open spec fn key_of(v: MedicationView) -> u64 {
        v.id
    }

    open spec fn encoding(v: MedicationView) -> Seq<u8> {
        u64_bytes(v.id)
            + text_bytes(v.name)
            + text_bytes(v.dosage)
            + text_bytes(v.frequency)
            + u64_bytes(v.patient_id)
            + u64_bytes(v.created_at)
    }

    open spec fn decoding(bytes: Seq<u8>) -> Option<MedicationView> {
        let id = take_u64(bytes);
        let name = take_text(id.unwrap().1);
        let dosage = take_text(name.unwrap().1);
        let frequency = take_text(dosage.unwrap().1);
        let patient_id = take_u64(frequency.unwrap().1);
        let created_at = take_u64(patient_id.unwrap().1);
        if id is Some
            && name is Some
            && dosage is Some
            && frequency is Some
            && patient_id is Some
            && created_at is Some
            && created_at.unwrap().1.len() == 0 {
            Some(
                MedicationView {
                    id: id.unwrap().0,
                    name: name.unwrap().0,
                    dosage: dosage.unwrap().0,
                    frequency: frequency.unwrap().0,
                    patient_id: patient_id.unwrap().0,
                    created_at: created_at.unwrap().0,
                },
            )
        } else {
            None
        }
    }

    proof fn lemma_round_trip(v: MedicationView) {
        let t5 = u64_bytes(v.created_at);
        let t4 = u64_bytes(v.patient_id) + t5;
        let t3 = text_bytes(v.frequency) + t4;
        let t2 = text_bytes(v.dosage) + t3;
        let t1 = text_bytes(v.name) + t2;
        let t0 = u64_bytes(v.id) + t1;
        let done = u64_bytes(v.id);
        lemma_regroup(done, text_bytes(v.name), t2);
        let done = done + text_bytes(v.name);
        lemma_regroup(done, text_bytes(v.dosage), t3);
        let done = done + text_bytes(v.dosage);
        lemma_regroup(done, text_bytes(v.frequency), t4);
        let done = done + text_bytes(v.frequency);
        lemma_regroup(done, u64_bytes(v.patient_id), t5);
        let done = done + u64_bytes(v.patient_id);
        assert(Self::encoding(v) == t0);
        lemma_text_len(v.name);
        lemma_text_len(v.dosage);
        lemma_text_len(v.frequency);
        lemma_take_u64(v.id, t1);
        lemma_take_text(v.name, t2);
        lemma_take_text(v.dosage, t3);
        lemma_take_text(v.frequency, t4);
        lemma_take_u64(v.patient_id, t5);
        lemma_take_u64(v.created_at, Seq::empty());
        lemma_no_rest(t5, Seq::empty());
    }

    proof fn lemma_canonical(bytes: Seq<u8>) {
        lemma_taken_u64(bytes);
        let id = take_u64(bytes).unwrap();
        let done = u64_bytes(id.0);
        lemma_taken_text(id.1);
        let name = take_text(id.1).unwrap();
        lemma_regroup(done, text_bytes(name.0), name.1);
        let done = done + text_bytes(name.0);
        lemma_taken_text(name.1);
        let dosage = take_text(name.1).unwrap();
        lemma_regroup(done, text_bytes(dosage.0), dosage.1);
        let done = done + text_bytes(dosage.0);
        lemma_taken_text(dosage.1);
        let frequency = take_text(dosage.1).unwrap();
        lemma_regroup(done, text_bytes(frequency.0), frequency.1);
        let done = done + text_bytes(frequency.0);
        lemma_taken_u64(frequency.1);
        let patient_id = take_u64(frequency.1).unwrap();
        lemma_regroup(done, u64_bytes(patient_id.0), patient_id.1);
        let done = done + u64_bytes(patient_id.0);
        lemma_taken_u64(patient_id.1);
        let created_at = take_u64(patient_id.1).unwrap();
        lemma_regroup(done, u64_bytes(created_at.0), created_at.1);
        let done = done + u64_bytes(created_at.0);
        lemma_no_rest(done, created_at.1);
    }

    fn id(&self) -> u64 {
        self.id
    }

    fn encode(&self) -> Vec<u8> {
        let mut out: Vec<u8> = Vec::new();
        put_u64(&mut out, self.id);
        put_text(&mut out, self.name.as_str());
        put_text(&mut out, self.dosage.as_str());
        put_text(&mut out, self.frequency.as_str());
        put_u64(&mut out, self.patient_id);
        put_u64(&mut out, self.created_at);
        assert(out@ =~= Self::encoding(self@));
        out
    }

    fn decode(bytes: &[u8]) -> Option<Self> {
        assert(bytes@.skip(0) =~= bytes@);
        let (id, at) = match read_u64(bytes, 0) {
            Some(p) => p,
            None => { return None; },
        };
        let (name, at) = match read_text(bytes, at) {
            Some(p) => p,
            None => { return None; },
        };
        let (dosage, at) = match read_text(bytes, at) {
            Some(p) => p,
            None => { return None; },
        };
        let (frequency, at) = match read_text(bytes, at) {
            Some(p) => p,
            None => { return None; },
        };
        let (patient_id, at) = match read_u64(bytes, at) {
            Some(p) => p,
            None => { return None; },
        };
        let (created_at, at) = match read_u64(bytes, at) {
            Some(p) => p,
            None => { return None; },
        };
        if at != bytes.len() {
            return None;
        }
        Some(Medication { id, name, dosage, frequency, patient_id, created_at })
    }
}

} // verus!
