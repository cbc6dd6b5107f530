//! Persistence-access layer for player profiles and match-history records.
//!
//! The library maps `User` and `Match` entities onto storage documents,
//! and offers create/read/update/delete and query operations over two
//! collections (users and match history). Document identifiers are
//! twelve-byte values written as 24 hexadecimal characters on the call
//! surface; malformed identifier strings are reported as recoverable
//! errors, never as a panic.

mod driver;
pub mod laws;
pub mod model;
pub mod oid;
pub mod results;
pub mod service;
