//! The debug-info tree walker and the entry interpreters it dispatches to.

pub mod base_type;
pub mod function;
pub mod pointer_type;
pub mod structure;
pub mod walk;
