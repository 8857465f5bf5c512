//! Producer registration and emission pipeline for a time-series store.
//!
//! Producers declare a typed schema once and then append timestamped records
//! matching that schema. This crate holds the core of that pipeline: schema
//! validation, identity assignment, DDL/DML generation, coercion of untyped
//! values into typed parameters, and the catalog that records which producer
//! is registered under which identity and with what shape.

pub mod error;
pub mod schema;
pub mod value;
pub mod catalog;
pub mod producer;
pub mod reactor;
