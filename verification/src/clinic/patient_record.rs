//! Records of a diagnosis and its treatment.

use vstd::prelude::*;
use crate::message::{ErrorKind, Fault, Message};
use crate::record::Record;
use crate::wire::{
    copy_texts, lemma_no_rest, lemma_regroup, lemma_take_text, lemma_take_texts, lemma_take_u64,
    lemma_taken_text, lemma_taken_texts, lemma_taken_u64, lemma_text_len, lemma_texts_len,
    put_text, put_texts, put_u64, read_text, read_texts, read_u64, take_text, take_texts,
    take_u64, text_bytes, texts_bytes, texts_view, u64_bytes,
};

verus! {

/// A patient record.
#[derive(Debug, PartialEq, Eq)]
pub struct PatientRecord {
    pub id: u64,
    pub patient_id: u64,
    pub doctor_id: u64,
    pub diagnosis: String,
    pub treatment: String,
    pub medications: Vec<String>,
    pub created_at: u64,
}

/// A patient record, as contracts see it.
pub struct PatientRecordView {
    pub id: u64,
    pub patient_id: u64,
    pub doctor_id: u64,
    pub diagnosis: Seq<char>,
    pub treatment: Seq<char>,
    pub medications: Seq<Seq<char>>,
    pub created_at: u64,
}

impl View for PatientRecord {
    type V = PatientRecordView;

    open spec fn view(&self) -> PatientRecordView {
        PatientRecordView {
            id: self.id,
            patient_id: self.patient_id,
            doctor_id: self.doctor_id,
            diagnosis: self.diagnosis@,
            treatment: self.treatment@,
            medications: texts_view(self.medications@),
            created_at: self.created_at,
        }
    }
}

impl Clone for PatientRecord {
    fn clone(&self) -> (r: Self)
        ensures
            r@ == self@,
    {
        PatientRecord {
            id: self.id,
            patient_id: self.patient_id,
            doctor_id: self.doctor_id,
            diagnosis: self.diagnosis.clone(),
            treatment: self.treatment.clone(),
            medications: copy_texts(&self.medications),
            created_at: self.created_at,
        }
    }
}

/// What a caller supplies of a patient record.
#[derive(Debug, PartialEq, Eq)]
pub struct PatientRecordPayload {
    pub patient_id: u64,
    pub doctor_id: u64,
    pub diagnosis: String,
    pub treatment: String,
    pub medications: Vec<String>,
}

impl PatientRecordPayload {
    /// Why the payload is refused, if it is.
    pub open spec fn fault(&self) -> Option<Fault> {
        if self.diagnosis@.len() == 0 || self.treatment@.len() == 0 {
            Some((ErrorKind::InvalidPayload, "Ensure 'diagnosis' and 'treatment' are provided."@))
        } else {
            None
        }
    }

    /// Holds the payload to the field checks.
    pub fn check(&self) -> (r: Result<(), Message>)
        ensures
            r is Ok ==> self.fault() is None,
            r matches Err(e) ==> self.fault() == Some(e@),
    {
        if self.diagnosis.as_str().is_empty() || self.treatment.as_str().is_empty() {
            return Err(
                Message::new(
                    ErrorKind::InvalidPayload,
                    "Ensure 'diagnosis' and 'treatment' are provided.",
                ),
            );
        }
        Ok(())
    }

    /// The patient record that the payload describes, under `id` and stamped
    /// `now`.
    pub open spec fn record(&self, id: u64, now: u64) -> PatientRecordView {
        PatientRecordView {
            id,
            patient_id: self.patient_id,
            doctor_id: self.doctor_id,
            diagnosis: self.diagnosis@,
            treatment: self.treatment@,
            medications: texts_view(self.medications@),
            created_at: now,
        }
    }

    /// The patient record that the payload describes, under `id` and stamped
    /// `now`.
    pub fn into_record(self, id: u64, now: u64) -> (r: PatientRecord)
        ensures
            r@ == self.record(id, now),
    {
        PatientRecord {
            id,
            patient_id: self.patient_id,
            doctor_id: self.doctor_id,
            diagnosis: self.diagnosis,
            treatment: self.treatment,
            medications: self.medications,
            created_at: now,
        }
    }
}

impl Record for PatientRecord {
    open spec fn key_of(v: PatientRecordView) -> u64 {
        v.id
    }

    open spec fn encoding(v: PatientRecordView) -> Seq<u8> {
        u64_bytes(v.id)
            + u64_bytes(v.patient_id)
            + u64_bytes(v.doctor_id)
            + text_bytes(v.diagnosis)
            + text_bytes(v.treatment)
            + texts_bytes(v.medications)
            + u64_bytes(v.created_at)
    }

    open spec fn decoding(bytes: Seq<u8>) -> Option<PatientRecordView> {
        let id = take_u64(bytes);
        let patient_id = take_u64(id.unwrap().1);
        let doctor_id = take_u64(patient_id.unwrap().1);
        let diagnosis = take_text(doctor_id.unwrap().1);
        let treatment = take_text(diagnosis.unwrap().1);
        let medications = take_texts(treatment.unwrap().1);
        let created_at = take_u64(medications.unwrap().1);
        if id is Some
            && patient_id is Some
            && doctor_id is Some
            && diagnosis is Some
            && treatment is Some
            && medications is Some
            && created_at is Some
            && created_at.unwrap().1.len() == 0 {
            Some(
                PatientRecordView {
                    id: id.unwrap().0,
                    patient_id: patient_id.unwrap().0,
                    doctor_id: doctor_id.unwrap().0,
                    diagnosis: diagnosis.unwrap().0,
                    treatment: treatment.unwrap().0,
                    medications: medications.unwrap().0,
                    created_at: created_at.unwrap().0,
                },
            )
        } else {
            None
        }
    }

    proof fn lemma_round_trip(v: PatientRecordView) {
        let t6 = u64_bytes(v.created_at);
        let t5 = texts_bytes(v.medications) + t6;
        let t4 = text_bytes(v.treatment) + t5;
        let t3 = text_bytes(v.diagnosis) + t4;
        let t2 = u64_bytes(v.doctor_id) + t3;
        let t1 = u64_bytes(v.patient_id) + t2;
        let t0 = u64_bytes(v.id) + t1;
        let done = u64_bytes(v.id);
        lemma_regroup(done, u64_bytes(v.patient_id), t2);
        let done = done + u64_bytes(v.patient_id);
        lemma_regroup(done, u64_bytes(v.doctor_id), t3);
        let done = done + u64_bytes(v.doctor_id);
        lemma_regroup(done, text_bytes(v.diagnosis), t4);
        let done = done + text_bytes(v.diagnosis);
        lemma_regroup(done, text_bytes(v.treatment), t5);
        let done = done + text_bytes(v.treatment);
        lemma_regroup(done, texts_bytes(v.medications), t6);
        let done = done + texts_bytes(v.medications);
        assert(Self::encoding(v) == t0);
        lemma_text_len(v.diagnosis);
        lemma_text_len(v.treatment);
        lemma_texts_len(v.medications);
        lemma_take_u64(v.id, t1);
        lemma_take_u64(v.patient_id, t2);
        lemma_take_u64(v.doctor_id, t3);
        lemma_take_text(v.diagnosis, t4);
        lemma_take_text(v.treatment, t5);
        lemma_take_texts(v.medications, t6);
        lemma_take_u64(v.created_at, Seq::empty());
        lemma_no_rest(t6, Seq::empty());
    }

    proof fn lemma_canonical(bytes: Seq<u8>) {
        lemma_taken_u64(bytes);
        let id = take_u64(bytes).unwrap();
        let done = u64_bytes(id.0);
        lemma_taken_u64(id.1);
        let patient_id = take_u64(id.1).unwrap();
        lemma_regroup(done, u64_bytes(patient_id.0), patient_id.1);
        let done = done + u64_bytes(patient_id.0);
        lemma_taken_u64(patient_id.1);
        let doctor_id = take_u64(patient_id.1).unwrap();
        lemma_regroup(done, u64_bytes(doctor_id.0), doctor_id.1);
        let done = done + u64_bytes(doctor_id.0);
        lemma_taken_text(doctor_id.1);
        let diagnosis = take_text(doctor_id.1).unwrap();
        lemma_regroup(done, text_bytes(diagnosis.0), diagnosis.1);
        let done = done + text_bytes(diagnosis.0);
        lemma_taken_text(diagnosis.1);
        let treatment = take_text(diagnosis.1).unwrap();
        lemma_regroup(done, text_bytes(treatment.0), treatment.1);
        let done = done + text_bytes(treatment.0);
        lemma_taken_texts(treatment.1);
        let medications = take_texts(treatment.1).unwrap();
        lemma_regroup(done, texts_bytes(medications.0), medications.1);
        let done = done + texts_bytes(medications.0);
        lemma_taken_u64(medications.1);
        let created_at = take_u64(medications.1).unwrap();
        lemma_regroup(done, u64_bytes(created_at.0), created_at.1);
        let done = done + u64_bytes(created_at.0);
        lemma_no_rest(done, created_at.1);
    }

    fn id(&self) -> u64 {
        self.id
    }

    fn encode(&self) -> Vec<u8> {
        let mut out: Vec<u8> = Vec::new();
        put_u64(&mut out, self.id);
        put_u64(&mut out, self.patient_id);
        put_u64(&mut out, self.doctor_id);
        put_text(&mut out, self.diagnosis.as_str());
        put_text(&mut out, self.treatment.as_str());
        put_texts(&mut out, &self.medications);
        put_u64(&mut out, self.created_at);
        assert(out@ =~= Self::encoding(self@));
        out
    }

    fn decode(bytes: &[u8]) -> Option<Self> {
        assert(bytes@.skip(0) =~= bytes@);
        let (id, at) = match read_u64(bytes, 0) {
            Some(p) => p,
            None => { return None; },
        };
        let (patient_id, at) = match read_u64(bytes, at) {
            Some(p) => p,
            None => { return None; },
        };
        let (doctor_id, at) = match read_u64(bytes, at) {
            Some(p) => p,
            None => { return None; },
        };
        let (diagnosis, at) = match read_text(bytes, at) {
            Some(p) => p,
            None => { return None; },
        };
        let (treatment, at) = match read_text(bytes, at) {
            Some(p) => p,
            None => { return None; },
        };
        let (medications, at) = match read_texts(bytes, at) {
            Some(p) => p,
            None => { return None; },
        };
        let (created_at, at) = match read_u64(bytes, at) {
            Some(p) => p,
            None => { return None; },
        };
        if at != bytes.len() {
            return None;
        }
        Some(
            PatientRecord {
                id,
                patient_id,
                doctor_id,
                diagnosis,
                treatment,
                medications,
                created_at,
            },
        )
    }
}

} // verus!
