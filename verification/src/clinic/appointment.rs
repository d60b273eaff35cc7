//! Appointments of a patient with a doctor.

use vstd::prelude::*;
use crate::message::{ErrorKind, Fault, Message};
use crate::record::Record;
use crate::wire::{
    lemma_no_rest, lemma_regroup, lemma_take_opt_u64, lemma_take_text, lemma_take_u32,
    lemma_take_u64, lemma_taken_opt_u64, lemma_taken_text, lemma_taken_u32, lemma_taken_u64,
    lemma_text_len, opt_u64_bytes, put_opt_u64, put_text, put_u32, put_u64, read_opt_u64,
    read_text, read_u32, read_u64, take_opt_u64, take_text, take_u32, take_u64, text_bytes,
    u32_bytes, u64_bytes,
};

verus! {

/// An appointment.
#[derive(Debug, PartialEq, Eq)]
pub struct Appointment {
    pub id: u64,
    pub patient_id: u64,
    pub doctor_id: u64,
    pub date_time: u64,
    pub duration: u32,
    pub description: String,
    pub created_at: u64,
    pub updated_at: Option<u64>,
}

/// An appointment, as contracts see it.
pub struct AppointmentView {
    pub id: u64,
    pub patient_id: u64,
    pub doctor_id: u64,
    pub date_time: u64,
    pub duration: u32,
    pub description: Seq<char>,
    pub created_at: u64,
    pub updated_at: Option<u64>,
}

impl View for Appointment {
    type V = AppointmentView;

    open spec fn view(&self) -> AppointmentView {
        AppointmentView {
            id: self.id,
            patient_id: self.patient_id,
            doctor_id: self.doctor_id,
            date_time: self.date_time,
            duration: self.duration,
            description: self.description@,
            created_at: self.created_at,
            updated_at: self.updated_at,
        }
    }
}

impl Clone for Appointment {
    fn clone(&self) -> (r: Self)
        ensures
            r@ == self@,
    {
        Appointment {
            id: self.id,
            patient_id: self.patient_id,
            doctor_id: self.doctor_id,
            date_time: self.date_time,
            duration: self.duration,
            description: self.description.clone(),
            created_at: self.created_at,
            updated_at: self.updated_at,
        }
    }
}

/// What a caller supplies of an appointment.
#[derive(Debug, PartialEq, Eq)]
pub struct AppointmentPayload {
    pub patient_id: u64,
    pub doctor_id: u64,
    pub date_time: u64,
    pub duration: u32,
    pub description: String,
}

impl AppointmentPayload {
    /// Why the payload is refused, if it is.
    pub open spec fn fault(&self) -> Option<Fault> {
        if self.description@.len() == 0 {
            Some((ErrorKind::InvalidPayload, "Ensure 'description' is provided."@))
        } else {
            None
        }
    }

    /// Holds the payload to the field checks.
    pub fn check(&self) -> (r: Result<(), Message>)
        ensures
            r is Ok ==> self.fault() is None,
            r matches Err(e) ==> self.fault() == Some(e@),
    {
        if self.description.as_str().is_empty() {
            return Err(
                Message::new(ErrorKind::InvalidPayload, "Ensure 'description' is provided."),
            );
        }
        Ok(())
    }

    /// The appointment that the payload describes, under `id` and stamped `now`;
    /// it has not been updated.
    pub open spec fn record(&self, id: u64, now: u64) -> AppointmentView {
        AppointmentView {
            id,
            patient_id: self.patient_id,
            doctor_id: self.doctor_id,
            date_time: self.date_time,
            duration: self.duration,
            description: self.description@,
            created_at: now,
            updated_at: None,
        }
    }

    /// The appointment that the payload describes, under `id` and stamped `now`;
    /// it has not been updated.
    pub fn into_record(self, id: u64, now: u64) -> (r: Appointment)
        ensures
            r@ == self.record(id, now),
    {
        Appointment {
            id,
            patient_id: self.patient_id,
            doctor_id: self.doctor_id,
            date_time: self.date_time,
            duration: self.duration,
            description: self.description,
            created_at: now,
            updated_at: None,
        }
    }

    /// The appointment that the payload describes, under `id`, updated at `now`.
    pub open spec fn revision(&self, id: u64, now: u64) -> AppointmentView {
        AppointmentView {
            id,
            patient_id: self.patient_id,
            doctor_id: self.doctor_id,
            date_time: self.date_time,
            duration: self.duration,
            description: self.description@,
            created_at: now,
            updated_at: Some(now),
        }
    }

    /// The appointment that the payload describes, under `id`, updated at `now`.
    pub fn into_revision(self, id: u64, now: u64) -> (r: Appointment)
        ensures
            r@ == self.revision(id, now),
    {
        Appointment {
            id,
            patient_id: self.patient_id,
            doctor_id: self.doctor_id,
            date_time: self.date_time,
            duration: self.duration,
            description: self.description,
            created_at: now,
            updated_at: Some(now),
        }
    }
}

impl Record for Appointment {
    open spec fn key_of(v: AppointmentView) -> u64 {
        v.id
    }

    open spec fn encoding(v: AppointmentView) -> Seq<u8> {
        u64_bytes(v.id)
            + u64_bytes(v.patient_id)
            + u64_bytes(v.doctor_id)
            + u64_bytes(v.date_time)
            + u32_bytes(v.duration)
            + text_bytes(v.description)
            + u64_bytes(v.created_at)
            + opt_u64_bytes(v.updated_at)
    }

    open spec fn decoding(bytes: Seq<u8>) -> Option<AppointmentView> {
        let id = take_u64(bytes);
        let patient_id = take_u64(id.unwrap().1);
        let doctor_id = take_u64(patient_id.unwrap().1);
        let date_time = take_u64(doctor_id.unwrap().1);
        let duration = take_u32(date_time.unwrap().1);
        let description = take_text(duration.unwrap().1);
        let created_at = take_u64(description.unwrap().1);
        let updated_at = take_opt_u64(created_at.unwrap().1);
        if id is Some
            && patient_id is Some
            && doctor_id is Some
            && date_time is Some
            && duration is Some
            && description is Some
            && created_at is Some
            && updated_at is Some
            && updated_at.unwrap().1.len() == 0 {
            Some(
                AppointmentView {
                    id: id.unwrap().0,
                    patient_id: patient_id.unwrap().0,
                    doctor_id: doctor_id.unwrap().0,
                    date_time: date_time.unwrap().0,
                    duration: duration.unwrap().0,
                    description: description.unwrap().0,
                    created_at: created_at.unwrap().0,
                    updated_at: updated_at.unwrap().0,
                },
            )
        } else {
            None
        }
    }

    proof fn lemma_round_trip(v: AppointmentView) {
        let t7 = opt_u64_bytes(v.updated_at);
        let t6 = u64_bytes(v.created_at) + t7;
        let t5 = text_bytes(v.description) + t6;
        let t4 = u32_bytes(v.duration) + t5;
        let t3 = u64_bytes(v.date_time) + t4;
        let t2 = u64_bytes(v.doctor_id) + t3;
        let t1 = u64_bytes(v.patient_id) + t2;
        let t0 = u64_bytes(v.id) + t1;
        let done = u64_bytes(v.id);
        lemma_regroup(done, u64_bytes(v.patient_id), t2);
        let done = done + u64_bytes(v.patient_id);
        lemma_regroup(done, u64_bytes(v.doctor_id), t3);
        let done = done + u64_bytes(v.doctor_id);
        lemma_regroup(done, u64_bytes(v.date_time), t4);
        let done = done + u64_bytes(v.date_time);
        lemma_regroup(done, u32_bytes(v.duration), t5);
        let done = done + u32_bytes(v.duration);
        lemma_regroup(done, text_bytes(v.description), t6);
        let done = done + text_bytes(v.description);
        lemma_regroup(done, u64_bytes(v.created_at), t7);
        let done = done + u64_bytes(v.created_at);
        assert(Self::encoding(v) == t0);
        lemma_text_len(v.description);
        lemma_take_u64(v.id, t1);
        lemma_take_u64(v.patient_id, t2);
        lemma_take_u64(v.doctor_id, t3);
        lemma_take_u64(v.date_time, t4);
        lemma_take_u32(v.duration, t5);
        lemma_take_text(v.description, t6);
        lemma_take_u64(v.created_at, t7);
        lemma_take_opt_u64(v.updated_at, Seq::empty());
        lemma_no_rest(t7, Seq::empty());
    }

    proof fn lemma_canonical(bytes: Seq<u8>) {
        lemma_taken_u64(bytes);
        let id = take_u64(bytes).unwrap();
        let done = u64_bytes(id.0);
        lemma_taken_u64(id.1);
        let patient_id = take_u64(id.1).unwrap();
        lemma_regroup(done, u64_bytes(patient_id.0), patient_id.1);
        let done = done + u64_bytes(patient_id.0);
        lemma_taken_u64(patient_id.1);
        let doctor_id = take_u64(patient_id.1).unwrap();
        lemma_regroup(done, u64_bytes(doctor_id.0), doctor_id.1);
        let done = done + u64_bytes(doctor_id.0);
        lemma_taken_u64(doctor_id.1);
        let date_time = take_u64(doctor_id.1).unwrap();
        lemma_regroup(done, u64_bytes(date_time.0), date_time.1);
        let done = done + u64_bytes(date_time.0);
        lemma_taken_u32(date_time.1);
        let duration = take_u32(date_time.1).unwrap();
        lemma_regroup(done, u32_bytes(duration.0), duration.1);
        let done = done + u32_bytes(duration.0);
        lemma_taken_text(duration.1);
        let description = take_text(duration.1).unwrap();
        lemma_regroup(done, text_bytes(description.0), description.1);
        let done = done + text_bytes(description.0);
        lemma_taken_u64(description.1);
        let created_at = take_u64(description.1).unwrap();
        lemma_regroup(done, u64_bytes(created_at.0), created_at.1);
        let done = done + u64_bytes(created_at.0);
        lemma_taken_opt_u64(created_at.1);
        let updated_at = take_opt_u64(created_at.1).unwrap();
        lemma_regroup(done, opt_u64_bytes(updated_at.0), updated_at.1);
        let done = done + opt_u64_bytes(updated_at.0);
        lemma_no_rest(done, updated_at.1);
    }

    fn id(&self) -> u64 {
        self.id
    }

    fn encode(&self) -> Vec<u8> {
        let mut out: Vec<u8> = Vec::new();
        put_u64(&mut out, self.id);
        put_u64(&mut out, self.patient_id);
        put_u64(&mut out, self.doctor_id);
        put_u64(&mut out, self.date_time);
        put_u32(&mut out, self.duration);
        put_text(&mut out, self.description.as_str());
        put_u64(&mut out, self.created_at);
        put_opt_u64(&mut out, self.updated_at);
        assert(out@ =~= Self::encoding(self@));
        out
    }

    fn decode(bytes: &[u8]) -> Option<Self> {
        assert(bytes@.skip(0) =~= bytes@);
        let (id, at) = match read_u64(bytes, 0) {
            Some(p) => p,
            None => { return None; },
        };
        let (patient_id, at) = match read_u64(bytes, at) {
            Some(p) => p,
            None => { return None; },
        };
        let (doctor_id, at) = match read_u64(bytes, at) {
            Some(p) => p,
            None => { return None; },
        };
        let (date_time, at) = match read_u64(bytes, at) {
            Some(p) => p,
            None => { return None; },
        };
        let (duration, at) = match read_u32(bytes, at) {
            Some(p) => p,
            None => { return None; },
        };
        let (description, at) = match read_text(bytes, at) {
            Some(p) => p,
            None => { return None; },
        };
        let (created_at, at) = match read_u64(bytes, at) {
            Some(p) => p,
            None => { return None; },
        };
        let (updated_at, at) = match read_opt_u64(bytes, at) {
            Some(p) => p,
            None => { return None; },
        };
        if at != bytes.len() {
            return None;
        }
        Some(
            Appointment {
                id,
                patient_id,
                doctor_id,
                date_time,
                duration,
                description,
                created_at,
                updated_at,
            },
        )
    }
}

} // verus!
