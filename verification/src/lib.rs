//! A verified model of a file-sharing backend: files, users, share
//! permissions, and print-job reports, with permission-aware visibility
//! rules as the core logic.
//!
//! The store is an in-memory relational model. Every operation carries a
//! contract that pins down its result and its effect on the store; the
//! surrounding process (HTTP parsing, response envelopes) stays outside.

pub mod ambient;
pub mod laws;
pub mod model;
pub mod mutation;
pub mod pagination;
pub mod prints;
pub mod users;
pub mod visibility;
pub mod store;
