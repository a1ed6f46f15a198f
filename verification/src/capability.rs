//! The three capability contracts the harness binds against.
//!
//! Each contract models its implementer by the history of every attempt
//! made on it: an input source by each read's outcome, an output sink by
//! each text handed in and whether it was accepted, a unit of work by
//! each computed outcome. The method contracts relate one call's result
//! to the step that history takes — a failed call leaves its failure in
//! the history, so a caller's contract can name the very failure a
//! collaborator produced — and say nothing else: whether a call succeeds
//! is the implementer's own affair.

use vstd::prelude::*;
use crate::errors::{Diagnostic, IoError};

verus! {

/// An input source: produces one text line per call, or fails with a
/// platform failure.
pub trait Input {
    /// Every read attempt so far, oldest first: the line produced, or
    /// the failure returned.
    spec fn reads(&self) -> Seq<Result<Seq<char>, IoError>>;

    /// Produce the next line. The outcome, success or failure, is
    /// appended to the history exactly as returned.
    fn read(&mut self) -> (r: Result<String, IoError>)
        ensures
            match r {
                Ok(line) => final(self).reads() == old(self).reads().push(Ok(line@)),
                Err(e) => final(self).reads() == old(self).reads().push(Err(e)),
            },
    ;
}

/// An output sink: accepts text verbatim, or fails with a platform
/// failure.
pub trait Output {
    /// Every write attempt so far, oldest first: the text handed in,
    /// paired with `None` where the sink accepted it and with the
    /// failure returned where it refused.
    spec fn attempts(&self) -> Seq<(Seq<char>, Option<IoError>)>;

    /// Emit `s`, byte for byte, with no implicit newline. The attempt,
    /// accepted or refused, is appended to the history exactly as made.
    fn write(&mut self, s: &str) -> (r: Result<(), IoError>)
        ensures
            match r {
                Ok(_) => final(self).attempts() == old(self).attempts().push((s@, None)),
                Err(e) => final(self).attempts() == old(self).attempts().push((s@, Some(e))),
            },
    ;
}

/// A unit of business logic: performs one computation per call, producing
/// a result of its own choosing or failing with its own domain failure
/// type. The failure type must describe itself, so that it can be chained
/// into the unified failure.
pub trait Logic {
    /// The type of a successful computation's value.
    type ReturnType;

    /// The implementer's domain failure type.
    type Error: Diagnostic;

    /// Every outcome this unit has computed so far, oldest first.
    spec fn outcomes(&self) -> Seq<Result<Self::ReturnType, Self::Error>>;

    /// Perform one computation. Its outcome, success or failure, is
    /// appended to the history exactly as returned.
    fn do_work(&mut self) -> (r: Result<Self::ReturnType, Self::Error>)
        ensures
            final(self).outcomes() == old(self).outcomes().push(r),
    ;
}

} // verus!
