//! Surplus-food logistics: donors, receivers, drivers, surplus posts,
//! assignments and surplus records.

pub mod assignment;
pub mod contact;
pub mod donor;
pub mod driver;
pub mod matching;
pub mod receiver;
pub mod service;
pub mod surplus_post;
pub mod surplus_record;
