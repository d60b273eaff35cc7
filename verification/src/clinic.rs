//! The clinic: doctors, patients, appointments, patient records and
//! medications.

pub mod appointment;
pub mod doctor;
pub mod medication;
pub mod patient;
pub mod patient_record;
pub mod service;
