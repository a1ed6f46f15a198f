//! A minimal pluggable command-execution harness.
//!
//! The crate wires together an input source, an output sink and a unit of
//! business logic, runs one fixed interaction sequence (prompt, read,
//! compute, report) and folds the failures of each participant into one
//! unified error value. All capability binding happens at compile time
//! through a single type-parameter bundle.

pub mod bundle;
pub mod capability;
pub mod collaborators;
pub mod errors;
pub mod harness;
pub mod stdio;
