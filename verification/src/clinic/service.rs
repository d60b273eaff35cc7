//! The clinic's state and the operations on it.

use vstd::prelude::*;
use crate::clinic::appointment::{Appointment, AppointmentPayload, AppointmentView};
use crate::clinic::doctor::{Doctor, DoctorPayload, DoctorView};
use crate::clinic::medication::{Medication, MedicationPayload, MedicationView};
use crate::clinic::patient::{Patient, PatientPayload, PatientView};
use crate::clinic::patient_record::{PatientRecord, PatientRecordPayload, PatientRecordView};
use crate::crud::{
    bounded, commit, discard, entered, fetch, fetch_all, found, listed, removed, replace, replaced,
    reserve, sane, successor, take_in,
};
use crate::durable::{manager_get, map_contents, map_init, DurableMap, Regions};
use crate::ids::IdAllocator;
use crate::message::Message;
use crate::store::{decoded, sound, Store};

verus! {

/// The id counter and the five stores of a clinic.
///
/// An operation that changes anything takes the state by exclusive
/// reference: its checks and its writes are one step, which no other
/// operation comes between.
pub struct Clinic {
    regions: Regions,
    ids: IdAllocator,
    doctors: Store<Doctor>,
    patients: Store<Patient>,
    appointments: Store<Appointment>,
    patient_records: Store<PatientRecord>,
    medications: Store<Medication>,
}

/// The contents of a clinic.
pub struct ClinicView {
    /// The last id handed out; 0 before the first.
    pub last_id: u64,
    pub doctors: Map<u64, DoctorView>,
    pub patients: Map<u64, PatientView>,
    pub appointments: Map<u64, AppointmentView>,
    pub patient_records: Map<u64, PatientRecordView>,
    pub medications: Map<u64, MedicationView>,
}

impl ClinicView {
    /// Every collection is finite and holds each record under its own id, none
    /// too large to store, and no id is above the last one handed out.
    pub open spec fn wf(self) -> bool {
        &&& sane::<Doctor>(self.doctors, self.last_id)
        &&& sane::<Patient>(self.patients, self.last_id)
        &&& sane::<Appointment>(self.appointments, self.last_id)
        &&& sane::<PatientRecord>(self.patient_records, self.last_id)
        &&& sane::<Medication>(self.medications, self.last_id)
    }
}

impl View for Clinic {
    type V = ClinicView;

    closed spec fn view(&self) -> ClinicView {
        ClinicView {
            last_id: self.ids.last(),
            doctors: self.doctors@,
            patients: self.patients@,
            appointments: self.appointments@,
            patient_records: self.patient_records@,
            medications: self.medications@,
        }
    }
}

impl Clinic {
    /// The stores are well-formed, and no stored id is above the last one
    /// handed out.
    pub closed spec fn wf(&self) -> bool {
        &&& self.doctors.wf()
        &&& self.patients.wf()
        &&& self.appointments.wf()
        &&& self.patient_records.wf()
        &&& self.medications.wf()
        &&& bounded(self.doctors@, self.ids.last())
        &&& bounded(self.patients@, self.ids.last())
        &&& bounded(self.appointments@, self.ids.last())
        &&& bounded(self.patient_records@, self.ids.last())
        &&& bounded(self.medications@, self.ids.last())
    }

    /// What well-formedness means for the contents.
    pub proof fn lemma_wf(&self)
        requires
            self.wf(),
        ensures
            self@.wf(),
    {
        self.doctors.lemma_wf();
        self.patients.lemma_wf();
        self.appointments.lemma_wf();
        self.patient_records.lemma_wf();
        self.medications.lemma_wf();
    }

    /// Puts a counter and five maps together, if each map is sound as the
    /// store it is taken for and holds no id above the counter. The contents
    /// are what the maps decode to.
    pub fn assemble(
        regions: Regions,
        ids: IdAllocator,
        doctors: DurableMap,
        patients: DurableMap,
        appointments: DurableMap,
        patient_records: DurableMap,
        medications: DurableMap,
    ) -> (r: Option<Clinic>)
        ensures
            r is Some <==> {
                &&& sound::<Doctor>(map_contents(doctors))
                &&& sound::<Patient>(map_contents(patients))
                &&& sound::<Appointment>(map_contents(appointments))
                &&& sound::<PatientRecord>(map_contents(patient_records))
                &&& sound::<Medication>(map_contents(medications))
                &&& bounded(decoded::<Doctor>(map_contents(doctors)), ids.last())
                &&& bounded(decoded::<Patient>(map_contents(patients)), ids.last())
                &&& bounded(decoded::<Appointment>(map_contents(appointments)), ids.last())
                &&& bounded(decoded::<PatientRecord>(map_contents(patient_records)), ids.last())
                &&& bounded(decoded::<Medication>(map_contents(medications)), ids.last())
            },
            r matches Some(c) ==> c.wf() && c.regions() == regions && c@ == (ClinicView {
                last_id: ids.last(),
                doctors: decoded::<Doctor>(map_contents(doctors)),
                patients: decoded::<Patient>(map_contents(patients)),
                appointments: decoded::<Appointment>(map_contents(appointments)),
                patient_records: decoded::<PatientRecord>(map_contents(patient_records)),
                medications: decoded::<Medication>(map_contents(medications)),
            }),
    {
        let last = ids.last_id();
        let doctors = take_in::<Doctor>(doctors, last);
        let patients = take_in::<Patient>(patients, last);
        let appointments = take_in::<Appointment>(appointments, last);
        let patient_records = take_in::<PatientRecord>(patient_records, last);
        let medications = take_in::<Medication>(medications, last);
        let doctors = match doctors {
            Some(store) => store,
            None => { return None; },
        };
        let patients = match patients {
            Some(store) => store,
            None => { return None; },
        };
        let appointments = match appointments {
            Some(store) => store,
            None => { return None; },
        };
        let patient_records = match patient_records {
            Some(store) => store,
            None => { return None; },
        };
        let medications = match medications {
            Some(store) => store,
            None => { return None; },
        };
        Some(Clinic { regions, ids, doctors, patients, appointments, patient_records, medications })
    }

    /// Opens the clinic that the regions hold: the counter in region 0, the
    /// stores in regions 1 to 5. It is refused where a stored value does not
    /// decode to a record of its store with the id it is stored under, or a
    /// stored id is above the counter.
    pub fn open(regions: Regions) -> (r: Option<Clinic>)
        ensures
            r matches Some(c) ==> c.wf(),
    {
        let ids = match IdAllocator::open(manager_get(&regions, 0)) {
            Some(ids) => ids,
            None => { return None; },
        };
        let doctors = map_init(manager_get(&regions, 1));
        let patients = map_init(manager_get(&regions, 2));
        let appointments = map_init(manager_get(&regions, 3));
        let patient_records = map_init(manager_get(&regions, 4));
        let medications = map_init(manager_get(&regions, 5));
        Clinic::assemble(
            regions,
            ids,
            doctors,
            patients,
            appointments,
            patient_records,
            medications,
        )
    }

    /// Gives up the stores and hands the regions back.
    pub fn close(self) -> (r: Regions)
        ensures
            r == self.regions(),
    {
        self.regions
    }

    /// The regions that the stores and the counter live in: those that the
    /// state was put together over. No operation changes them.
    pub closed spec fn regions(&self) -> Regions {
        self.regions
    }

    /// The last id handed out.
    pub fn last_id(&self) -> (v: u64)
        ensures
            v == self@.last_id,
    {
        self.ids.last_id()
    }

    /// Stores a new doctor under the next id.
    pub fn create_doctor(
        &mut self,
        payload: DoctorPayload,
        now: u64,
    ) -> (r: Result<Doctor, Message>)
        requires
            old(self).wf(),
        ensures
            final(self).wf(),
            final(self).regions() == old(self).regions(),
            entered(
                r,
                payload.fault(),
                payload.record(successor(old(self)@.last_id), now),
                old(self)@.last_id,
                final(self)@.last_id,
                old(self)@.doctors,
                final(self)@.doctors,
            ),
            final(self)@.patients == old(self)@.patients,
            final(self)@.appointments == old(self)@.appointments,
            final(self)@.patient_records == old(self)@.patient_records,
            final(self)@.medications == old(self)@.medications,
    {
        match payload.check() {
            Ok(_) => {},
            Err(e) => {
                return Err(e);
            },
        }
        let id = match reserve(&self.ids) {
            Ok(id) => id,
            Err(e) => {
                return Err(e);
            },
        };
        let record = payload.into_record(id, now);
        commit(&mut self.ids, &mut self.doctors, record)
    }

    /// Every doctor, in ascending order of the ids; `NotFound` where there is none.
    pub fn get_doctors(&self) -> (r: Result<Vec<Doctor>, Message>)
        requires
            self.wf(),
        ensures
            listed(r, "No doctors found"@, self@.doctors),
    {
        fetch_all(&self.doctors, "No doctors found")
    }

    /// The doctor stored under `id`.
    pub fn get_doctor_id(&self, id: u64) -> (r: Result<Doctor, Message>)
        requires
            self.wf(),
        ensures
            found(r, id, "Doctor not found"@, self@.doctors),
    {
        fetch(&self.doctors, id, "Doctor not found")
    }

    /// Puts the fields given, stamped `now`, in place of the doctor stored under `id`.
    pub fn update_doctor(
        &mut self,
        id: u64,
        name: String,
        speciality: String,
        now: u64,
    ) -> (r: Result<Doctor, Message>)
        requires
            old(self).wf(),
        ensures
            final(self).wf(),
            final(self).regions() == old(self).regions(),
            replaced(
                r,
                id,
                (DoctorPayload { name, speciality }).record(id, now),
                "Doctor not found"@,
                old(self)@.doctors,
                final(self)@.doctors,
            ),
            final(self)@.last_id == old(self)@.last_id,
            final(self)@.patients == old(self)@.patients,
            final(self)@.appointments == old(self)@.appointments,
            final(self)@.patient_records == old(self)@.patient_records,
            final(self)@.medications == old(self)@.medications,
    {
        let payload = DoctorPayload { name, speciality };
        let record = payload.into_record(id, now);
        replace(&mut self.doctors, record, "Doctor not found")
    }

    /// Removes the doctor stored under `id`.
    pub fn delete_doctor(&mut self, id: u64) -> (r: Result<(), Message>)
        requires
            old(self).wf(),
        ensures
            final(self).wf(),
            final(self).regions() == old(self).regions(),
            removed(
                r,
                id,
                "Doctor not found"@,
                old(self)@.doctors,
                final(self)@.doctors,
            ),
            final(self)@.last_id == old(self)@.last_id,
            final(self)@.patients == old(self)@.patients,
            final(self)@.appointments == old(self)@.appointments,
            final(self)@.patient_records == old(self)@.patient_records,
            final(self)@.medications == old(self)@.medications,
    {
        discard(&mut self.doctors, id, "Doctor not found")
    }

    /// Stores a new patient under the next id.
    pub fn create_patient(
        &mut self,
        payload: PatientPayload,
        now: u64,
    ) -> (r: Result<Patient, Message>)
        requires
            old(self).wf(),
        ensures
            final(self).wf(),
            final(self).regions() == old(self).regions(),
            entered(
                r,
                payload.fault(),
                payload.record(successor(old(self)@.last_id), now),
                old(self)@.last_id,
                final(self)@.last_id,
                old(self)@.patients,
                final(self)@.patients,
            ),
            final(self)@.doctors == old(self)@.doctors,
            final(self)@.appointments == old(self)@.appointments,
            final(self)@.patient_records == old(self)@.patient_records,
            final(self)@.medications == old(self)@.medications,
    {
        match payload.check() {
            Ok(_) => {},
            Err(e) => {
                return Err(e);
            },
        }
        let id = match reserve(&self.ids) {
            Ok(id) => id,
            Err(e) => {
                return Err(e);
            },
        };
        let record = payload.into_record(id, now);
        commit(&mut self.ids, &mut self.patients, record)
    }

    /// Every patient, in ascending order of the ids; `NotFound` where there is none.
    pub fn get_patients(&self) -> (r: Result<Vec<Patient>, Message>)
        requires
            self.wf(),
        ensures
            listed(r, "No patients found"@, self@.patients),
    {
        fetch_all(&self.patients, "No patients found")
    }

    /// The patient stored under `id`.
    pub fn get_patient_by_id(&self, id: u64) -> (r: Result<Patient, Message>)
        requires
            self.wf(),
        ensures
            found(r, id, "Patient not found"@, self@.patients),
    {
        fetch(&self.patients, id, "Patient not found")
    }

    /// Puts the fields given, stamped `now`, in place of the patient stored under `id`.
    pub fn update_patient(
        &mut self,
        id: u64,
        name: String,
        age: u32,
        gender: String,
        now: u64,
    ) -> (r: Result<Patient, Message>)
        requires
            old(self).wf(),
        ensures
            final(self).wf(),
            final(self).regions() == old(self).regions(),
            replaced(
                r,
                id,
                (PatientPayload { name, age, gender }).record(id, now),
                "Patient not found"@,
                old(self)@.patients,
                final(self)@.patients,
            ),
            final(self)@.last_id == old(self)@.last_id,
            final(self)@.doctors == old(self)@.doctors,
            final(self)@.appointments == old(self)@.appointments,
            final(self)@.patient_records == old(self)@.patient_records,
            final(self)@.medications == old(self)@.medications,
    {
        let payload = PatientPayload { name, age, gender };
        let record = payload.into_record(id, now);
        replace(&mut self.patients, record, "Patient not found")
    }

    /// Removes the patient stored under `id`.
    pub fn delete_patient(&mut self, id: u64) -> (r: Result<(), Message>)
        requires
            old(self).wf(),
        ensures
            final(self).wf(),
            final(self).regions() == old(self).regions(),
            removed(
                r,
                id,
                "Patient not found"@,
                old(self)@.patients,
                final(self)@.patients,
            ),
            final(self)@.last_id == old(self)@.last_id,
            final(self)@.doctors == old(self)@.doctors,
            final(self)@.appointments == old(self)@.appointments,
            final(self)@.patient_records == old(self)@.patient_records,
            final(self)@.medications == old(self)@.medications,
    {
        discard(&mut self.patients, id, "Patient not found")
    }

    /// Stores a new appointment under the next id.
    pub fn create_appointment(
        &mut self,
        payload: AppointmentPayload,
        now: u64,
    ) -> (r: Result<Appointment, Message>)
        requires
            old(self).wf(),
        ensures
            final(self).wf(),
            final(self).regions() == old(self).regions(),
            entered(
                r,
                payload.fault(),
                payload.record(successor(old(self)@.last_id), now),
                old(self)@.last_id,
                final(self)@.last_id,
                old(self)@.appointments,
                final(self)@.appointments,
            ),
            final(self)@.doctors == old(self)@.doctors,
            final(self)@.patients == old(self)@.patients,
            final(self)@.patient_records == old(self)@.patient_records,
            final(self)@.medications == old(self)@.medications,
    {
        match payload.check() {
            Ok(_) => {},
            Err(e) => {
                return Err(e);
            },
        }
        let id = match reserve(&self.ids) {
            Ok(id) => id,
            Err(e) => {
                return Err(e);
            },
        };
        let record = payload.into_record(id, now);
        commit(&mut self.ids, &mut self.appointments, record)
    }

    /// Every appointment, in ascending order of the ids; `NotFound` where there is none.
    pub fn get_appointments(&self) -> (r: Result<Vec<Appointment>, Message>)
        requires
            self.wf(),
        ensures
            listed(r, "No appointments found"@, self@.appointments),
    {
        fetch_all(&self.appointments, "No appointments found")
    }

    /// The appointment stored under `id`.
    pub fn get_appointment_id(&self, id: u64) -> (r: Result<Appointment, Message>)
        requires
            self.wf(),
        ensures
            found(r, id, "Appointment not found"@, self@.appointments),
    {
        fetch(&self.appointments, id, "Appointment not found")
    }

    /// Puts the fields given, stamped `now`, in place of the appointment stored under `id`.
    pub fn update_appointment(
        &mut self,
        id: u64,
        patient_id: u64,
        doctor_id: u64,
        date_time: u64,
        duration: u32,
        description: String,
        now: u64,
    ) -> (r: Result<Appointment, Message>)
        requires
            old(self).wf(),
        ensures
            final(self).wf(),
            final(self).regions() == old(self).regions(),
            replaced(
                r,
                id,
                (AppointmentPayload {
                    patient_id,
                    doctor_id,
                    date_time,
                    duration,
                    description,
                }).revision(id, now),
                "Appointment not found"@,
                old(self)@.appointments,
                final(self)@.appointments,
            ),
            final(self)@.last_id == old(self)@.last_id,
            final(self)@.doctors == old(self)@.doctors,
            final(self)@.patients == old(self)@.patients,
            final(self)@.patient_records == old(self)@.patient_records,
            final(self)@.medications == old(self)@.medications,
    {
        let payload = AppointmentPayload {
            patient_id,
            doctor_id,
            date_time,
            duration,
            description,
        };
        let record = payload.into_revision(id, now);
        replace(&mut self.appointments, record, "Appointment not found")
    }

    /// Removes the appointment stored under `id`.
    pub fn delete_appointment(&mut self, id: u64) -> (r: Result<(), Message>)
        requires
            old(self).wf(),
        ensures
            final(self).wf(),
            final(self).regions() == old(self).regions(),
            removed(
                r,
                id,
                "Appointment not found"@,
                old(self)@.appointments,
                final(self)@.appointments,
            ),
            final(self)@.last_id == old(self)@.last_id,
            final(self)@.doctors == old(self)@.doctors,
            final(self)@.patients == old(self)@.patients,
            final(self)@.patient_records == old(self)@.patient_records,
            final(self)@.medications == old(self)@.medications,
    {
        discard(&mut self.appointments, id, "Appointment not found")
    }

    /// Stores a new patient record under the next id.
    pub fn create_patient_record(
        &mut self,
        payload: PatientRecordPayload,
        now: u64,
    ) -> (r: Result<PatientRecord, Message>)
        requires
            old(self).wf(),
        ensures
            final(self).wf(),
            final(self).regions() == old(self).regions(),
            entered(
                r,
                payload.fault(),
                payload.record(successor(old(self)@.last_id), now),
                old(self)@.last_id,
                final(self)@.last_id,
                old(self)@.patient_records,
                final(self)@.patient_records,
            ),
            final(self)@.doctors == old(self)@.doctors,
            final(self)@.patients == old(self)@.patients,
            final(self)@.appointments == old(self)@.appointments,
            final(self)@.medications == old(self)@.medications,
    {
        match payload.check() {
            Ok(_) => {},
            Err(e) => {
                return Err(e);
            },
        }
        let id = match reserve(&self.ids) {
            Ok(id) => id,
            Err(e) => {
                return Err(e);
            },
        };
        let record = payload.into_record(id, now);
        commit(&mut self.ids, &mut self.patient_records, record)
    }

    /// Every patient record, in ascending order of the ids; `NotFound` where there is none.
    pub fn get_patient_records(&self) -> (r: Result<Vec<PatientRecord>, Message>)
        requires
            self.wf(),
        ensures
            listed(r, "No patient records found"@, self@.patient_records),
    {
        fetch_all(&self.patient_records, "No patient records found")
    }

    /// The patient record stored under `id`.
    pub fn get_patient_record(&self, id: u64) -> (r: Result<PatientRecord, Message>)
        requires
            self.wf(),
        ensures
            found(r, id, "Patient record not found"@, self@.patient_records),
    {
        fetch(&self.patient_records, id, "Patient record not found")
    }

    /// Puts the fields given, stamped `now`, in place of the patient record stored under `id`.
    pub fn update_patient_record(
        &mut self,
        id: u64,
        patient_id: u64,
        doctor_id: u64,
        diagnosis: String,
        treatment: String,
        medications: Vec<String>,
        now: u64,
    ) -> (r: Result<PatientRecord, Message>)
        requires
            old(self).wf(),
        ensures
            final(self).wf(),
            final(self).regions() == old(self).regions(),
            replaced(
                r,
                id,
                (PatientRecordPayload {
                    patient_id,
                    doctor_id,
                    diagnosis,
                    treatment,
                    medications,
                }).record(id, now),
                "Patient record not found"@,
                old(self)@.patient_records,
                final(self)@.patient_records,
            ),
            final(self)@.last_id == old(self)@.last_id,
            final(self)@.doctors == old(self)@.doctors,
            final(self)@.patients == old(self)@.patients,
            final(self)@.appointments == old(self)@.appointments,
            final(self)@.medications == old(self)@.medications,
    {
        let payload = PatientRecordPayload {
            patient_id,
            doctor_id,
            diagnosis,
            treatment,
            medications,
        };
        let record = payload.into_record(id, now);
        replace(&mut self.patient_records, record, "Patient record not found")
    }

    /// Removes the patient record stored under `id`.
    pub fn delete_patient_record(&mut self, id: u64) -> (r: Result<(), Message>)
        requires
            old(self).wf(),
        ensures
            final(self).wf(),
            final(self).regions() == old(self).regions(),
            removed(
                r,
                id,
                "Patient record not found"@,
                old(self)@.patient_records,
                final(self)@.patient_records,
            ),
            final(self)@.last_id == old(self)@.last_id,
            final(self)@.doctors == old(self)@.doctors,
            final(self)@.patients == old(self)@.patients,
            final(self)@.appointments == old(self)@.appointments,
            final(self)@.medications == old(self)@.medications,
    {
        discard(&mut self.patient_records, id, "Patient record not found")
    }

    /// Stores a new medication under the next id.
    pub fn create_medication(
        &mut self,
        payload: MedicationPayload,
        now: u64,
    ) -> (r: Result<Medication, Message>)
        requires
            old(self).wf(),
        ensures
            final(self).wf(),
            final(self).regions() == old(self).regions(),
            entered(
                r,
                payload.fault(),
                payload.record(successor(old(self)@.last_id), now),
                old(self)@.last_id,
                final(self)@.last_id,
                old(self)@.medications,
                final(self)@.medications,
            ),
            final(self)@.doctors == old(self)@.doctors,
            final(self)@.patients == old(self)@.patients,
            final(self)@.appointments == old(self)@.appointments,
            final(self)@.patient_records == old(self)@.patient_records,
    {
        match payload.check() {
            Ok(_) => {},
            Err(e) => {
                return Err(e);
            },
        }
        let id = match reserve(&self.ids) {
            Ok(id) => id,
            Err(e) => {
                return Err(e);
            },
        };
        let record = payload.into_record(id, now);
        commit(&mut self.ids, &mut self.medications, record)
    }

    /// Every medication, in ascending order of the ids; `NotFound` where there is none.
    pub fn get_medications(&self) -> (r: Result<Vec<Medication>, Message>)
        requires
            self.wf(),
        ensures
            listed(r, "No medications found"@, self@.medications),
    {
        fetch_all(&self.medications, "No medications found")
    }

    /// The medication stored under `id`.
    pub fn get_medication_by_id(&self, id: u64) -> (r: Result<Medication, Message>)
        requires
            self.wf(),
        ensures
            found(r, id, "Medication not found"@, self@.medications),
    {
        fetch(&self.medications, id, "Medication not found")
    }

    /// Puts the fields given, stamped `now`, in place of the medication stored under `id`.
    pub fn update_medication(
        &mut self,
        id: u64,
        name: String,
        dosage: String,
        frequency: String,
        patient_id: u64,
        now: u64,
    ) -> (r: Result<Medication, Message>)
        requires
            old(self).wf(),
        ensures
            final(self).wf(),
            final(self).regions() == old(self).regions(),
            replaced(
                r,
                id,
                (MedicationPayload { name, dosage, frequency, patient_id }).record(id, now),
                "Medication not found"@,
                old(self)@.medications,
                final(self)@.medications,
            ),
            final(self)@.last_id == old(self)@.last_id,
            final(self)@.doctors == old(self)@.doctors,
            final(self)@.patients == old(self)@.patients,
            final(self)@.appointments == old(self)@.appointments,
            final(self)@.patient_records == old(self)@.patient_records,
    {
        let payload = MedicationPayload { name, dosage, frequency, patient_id };
        let record = payload.into_record(id, now);
        replace(&mut self.medications, record, "Medication not found")
    }

    /// Removes the medication stored under `id`.
    pub fn delete_medication(&mut self, id: u64) -> (r: Result<(), Message>)
        requires
            old(self).wf(),
        ensures
            final(self).wf(),
            final(self).regions() == old(self).regions(),
            removed(
                r,
                id,
                "Medication not found"@,
                old(self)@.medications,
                final(self)@.medications,
            ),
            final(self)@.last_id == old(self)@.last_id,
            final(self)@.doctors == old(self)@.doctors,
            final(self)@.patients == old(self)@.patients,
            final(self)@.appointments == old(self)@.appointments,
            final(self)@.patient_records == old(self)@.patient_records,
    {
        discard(&mut self.medications, id, "Medication not found")
    }
}

} // verus!
