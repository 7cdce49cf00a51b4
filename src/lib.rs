//! Cleo: the verified core of a small publishing backend.
//!
//! The library holds the data model, a model of the relational store
//! (`db::Database`), the authorization guard that gates every mutation,
//! and the repository operations built on top of it. HTTP, mail delivery,
//! file storage and process configuration live outside the library.
pub mod err;
pub mod models;
pub mod utils;
pub mod config;
pub mod db;
pub mod laws;
pub mod payloads;
pub mod responses;
pub mod services;

pub use err::CleoErr;
pub use err::ErrorKind;
