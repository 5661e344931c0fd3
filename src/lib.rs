//! A small clinical-records backend: a verified in-memory record store for
//! patients, encounters and the observations made during them, and a login
//! gateway that issues signed, time-bounded bearer tokens.

pub mod auth;
pub mod error;
pub mod guarantees;
pub mod models;
pub mod store;
pub mod table;
pub mod time;
