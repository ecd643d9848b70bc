//! A file sharing service: user accounts, password and bearer-token
//! authentication, owner-controlled sharing and public links.
//!
//! The library holds the service's rules. Each endpoint is a small state
//! machine (`protocol`) that asks for one database, disk or token operation
//! at a time and decides what to do with the answer; the server around it
//! performs the operations. `tables` models what each operation reads and
//! writes, and `laws` proves what the endpoints do to that model.

pub mod models;
pub mod headers;
pub mod password;
pub mod tokens;
pub mod protocol;
pub mod endpoints;
pub mod sql;
pub mod tables;
pub mod laws;
