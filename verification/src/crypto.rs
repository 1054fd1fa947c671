//! Content-derived identifiers.

pub mod hash;
