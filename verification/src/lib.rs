//! A verified core for a repository-materializing service.
//!
//! The library classifies file paths as text or binary, renders byte counts
//! in human-readable binary units, sanitizes path strings, and materializes
//! a fetched repository tree into one flat textual document in either a
//! markdown or a plain-text flavor.

pub mod classify;
pub mod document;
pub mod errors;
pub mod fmt_size;
pub mod listing;
pub mod response;
pub mod sanitize;
pub mod strutil;

