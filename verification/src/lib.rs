//! Verified core of a personal expense-tracking service.
//!
//! The library holds the logic of the service — credential hashing, the
//! signed-token codec, request authentication, request validation, and the
//! per-entity decision rules — each with a contract checked by Verus.
//! Process plumbing (HTTP, the relational store, the clock) lives outside and
//! hands the library plain values.

pub mod accounts;
pub mod auth;
pub mod categories;
pub mod errors;
pub mod expenses;
pub mod hashing;
pub mod ids;
pub mod records;
pub mod summaries;
pub mod time;
pub mod token;
pub mod validate;

