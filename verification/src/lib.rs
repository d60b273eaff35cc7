//! Durable entity stores with validation, referential integrity and
//! exclusive assignment matching.
//!
//! Records live in regions of stable memory, one map per entity type and
//! one cell for the id counter that all entity types share. Every
//! operation is stated over the decoded contents of those regions, and
//! leaves them unchanged where it returns an error.
//!
//! - [`durable`] is the stable memory: what is taken on trust of it.
//! - [`wire`] and [`record`] are the byte layout of stored records.
//! - [`store`] is the store of one entity type, [`ids`] the id counter.
//! - [`crud`] says what creating, reading, replacing and removing a record
//!   do, for any entity type; [`validation`] holds the field checks and
//!   [`message`] the errors.
//! - [`clinic`] and [`logistics`] are the two sets of entity types with
//!   their operations; [`laws`] is what holds of the operations together.
//!
//! A caller opens the regions once and hands them to a service:
//! `Logistics::open(Regions::open())`. The clock is the caller's: operations
//! that stamp a record take the time as an argument.

pub mod clinic;
pub mod crud;
pub mod durable;
pub mod ids;
pub mod laws;
pub mod logistics;
pub mod message;
pub mod record;
pub mod store;
pub mod validation;
pub mod wire;
