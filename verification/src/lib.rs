//! A verified mapping and validation layer for recipe documents.
//!
//! The library converts between a structured, typed `Recipe` and the loosely
//! typed key/value document shape used by the storage layer, validating every
//! field and reporting the first field that fails. The surrounding HTTP and
//! database plumbing is ordinary unverified code that hands plain values in
//! and out of this crate.

pub mod dao;
pub mod document;
pub mod model;
pub mod pagination;
pub mod result_ext;
