//! Extraction of a binding-oriented item model from a compiler-emitted
//! debug-information tree.
//!
//! The library interprets a generic tree of debug-info entries and attributes
//! and turns it into a typed, queryable representation (functions, base types,
//! pointer types, structures) with correct scoping, reference resolution and
//! compiler-artifact filtering.

use vstd::prelude::*;

pub mod classify;
pub mod dwarf;
pub mod entry;
pub mod example;
pub mod json;
pub mod item;
pub mod laws;

verus! {

/// The quotient and remainder of a truncating integer division.
pub struct DivModResult {
    pub d: i32,
    pub m: i32,
}

} // verus!
