//! Per-account record stores with length-capped text fields.
//!
//! Two schemas, users and profiles, keep at most one record per account.
//! A record is made of text fields with a byte capacity, categories and
//! numbers. It is created, written over, updated field by field, removed and
//! fetched; every operation validates before it writes, and a refused
//! operation writes nothing.
//!
//! - [`bounded`]: encoding of texts into capacity-limited fields and back.
//! - [`date`]: the syntax of a date.
//! - [`store`]: the map of records that both schemas are built on.
//! - [`user`], [`profile`]: the two schemas.
//! - [`flipper`]: a flag that is set once and flipped afterwards.
//! - [`weights`]: the name of the weight table of the user operations.
//!
//! Accounts are opaque keys that arrive authenticated; the library compares
//! them and never makes one.

pub mod bounded;
pub mod date;
pub mod flipper;
pub mod profile;
pub mod store;
pub mod user;
pub mod weights;
