//! Failure types of the harness and the conversions between them.
//!
//! A run can fail in exactly three ways: the unit of work reports a domain
//! failure, reading from the input collaborator fails, or writing to the
//! output collaborator fails. [`FrameworkError`] is the closed union over
//! those three cases; it fixes a category text per case and keeps the
//! original failure retrievable as the cause.

use vstd::prelude::*;
use vstd::std_specs::convert::FromSpec;

verus! {

/// Capability shared by every failure type the harness can carry: the
/// failure describes itself as text. It stands in for the platform's
/// standard error interface, whose one obligation is a human-readable
/// description.
pub trait Diagnostic {
    /// The descriptive text of this failure.
    spec fn description(&self) -> Seq<char>;

    /// Produce the descriptive text.
    fn message(&self) -> (s: String)
        ensures
            s@ == self.description(),
    ;
}

/// A platform input/output failure, reduced to the data the harness ever
/// inspects: its descriptive text. It carries no information about which
/// side (input or output) produced it; the harness tags the side at the
/// point of conversion into [`FrameworkError`].
#[derive(Debug)]
pub struct IoError {
    pub detail: String,
}

impl IoError {
    /// Build a platform failure from its descriptive text.
    pub fn new(detail: String) -> (e: IoError)
        ensures
            e.detail@ == detail@,
    {
        IoError { detail }
    }
}

impl Diagnostic for IoError {
    open spec fn description(&self) -> Seq<char> {
        self.detail@
    }

    fn message(&self) -> (s: String)
        ensures
            s@ == self.description(),
    {
        self.detail.clone()
    }
}

/// A domain (business-rule) failure: a descriptive message, immutable once
/// constructed.
#[derive(Debug)]
pub struct LogicError(pub String);

impl Diagnostic for LogicError {
    open spec fn description(&self) -> Seq<char> {
        self.0@
    }

    fn message(&self) -> (s: String)
        ensures
            s@ == self.description(),
    {
        self.0.clone()
    }
}

/// The unified failure of a run: a closed union over exactly three cases.
/// The case fixes the category text; the wrapped value is the cause.
#[derive(Debug)]
pub enum FrameworkError {
    /// The unit of work failed with a domain failure.
    Logic(LogicError),
    /// Reading from the input collaborator failed.
    Input(IoError),
    /// Writing to the output collaborator failed.
    Output(IoError),
}

/// The cause wrapped inside a [`FrameworkError`], borrowed from it.
pub enum ErrorSource<'a> {
    /// The wrapped domain failure.
    Logic(&'a LogicError),
    /// The wrapped platform failure, of either side.
    Io(&'a IoError),
}

impl FrameworkError {
    /// The fixed category text of this failure's case.
    pub open spec fn category_text(&self) -> Seq<char> {
        match *self {
            FrameworkError::Logic(_) => "Logic error"@,
            FrameworkError::Input(_) => "Input error"@,
            FrameworkError::Output(_) => "Output error"@,
        }
    }

    /// Produce the category text: the top-level message of this failure.
    pub fn category(&self) -> (s: String)
        ensures
            s@ == self.category_text(),
    {
        match self {
            FrameworkError::Logic(_) => "Logic error".to_owned(),
            FrameworkError::Input(_) => "Input error".to_owned(),
            FrameworkError::Output(_) => "Output error".to_owned(),
        }
    }

    /// The wrapped failure, retrievable as the cause whatever the case.
    pub fn source(&self) -> (c: ErrorSource<'_>)
        ensures
            match *self {
                FrameworkError::Logic(d) => c matches ErrorSource::Logic(x) && *x == d,
                FrameworkError::Input(e) => c matches ErrorSource::Io(x) && *x == e,
                FrameworkError::Output(e) => c matches ErrorSource::Io(x) && *x == e,
            },
    {
        match self {
            FrameworkError::Logic(error) => ErrorSource::Logic(error),
            FrameworkError::Input(error) => ErrorSource::Io(error),
            FrameworkError::Output(error) => ErrorSource::Io(error),
        }
    }

    /// The wrapped failure, under the cause's older name.
    pub fn cause(&self) -> (c: ErrorSource<'_>)
        ensures
            match *self {
                FrameworkError::Logic(d) => c matches ErrorSource::Logic(x) && *x == d,
                FrameworkError::Input(e) => c matches ErrorSource::Io(x) && *x == e,
                FrameworkError::Output(e) => c matches ErrorSource::Io(x) && *x == e,
            },
    {
        self.source()
    }
}

impl Diagnostic for FrameworkError {
    open spec fn description(&self) -> Seq<char> {
        self.category_text()
    }

    fn message(&self) -> (s: String)
        ensures
            s@ == self.description(),
    {
        self.category()
    }
}

impl From<LogicError> for FrameworkError {
    /// The implicit, lossless conversion of a domain failure: always
    /// succeeds and tags the failure as the domain case.
    fn from(error: LogicError) -> (r: Self)
        ensures
            r == FrameworkError::Logic(error),
    {
        FrameworkError::Logic(error)
    }
}

impl vstd::std_specs::convert::FromSpecImpl<LogicError> for FrameworkError {
    open spec fn obeys_from_spec() -> bool {
        true
    }

    open spec fn from_spec(v: LogicError) -> FrameworkError {
        FrameworkError::Logic(v)
    }
}

/// Capability of a bundle's unified error type: it can absorb the
/// harness's own failure, and [`Absorb::absorb_spec`] says exactly what
/// the absorption yields. The standard conversion trait cannot serve
/// here: for a bundle whose error type is [`FrameworkError`] itself the
/// conversion is the standard library's reflexive one, of which nothing
/// is specified.
pub trait Absorb: Sized {
    /// What absorbing `f` yields.
    spec fn absorb_spec(f: FrameworkError) -> Self;

    /// Absorb the harness failure `f`, exactly as specified.
    fn absorb(f: FrameworkError) -> (r: Self)
        ensures
            r == Self::absorb_spec(f),
    ;
}

impl Absorb for FrameworkError {
    /// The unified failure absorbs its own kind unchanged.
    open spec fn absorb_spec(f: FrameworkError) -> FrameworkError {
        f
    }

    fn absorb(f: FrameworkError) -> (r: FrameworkError)
        ensures
            r == f,
    {
        f
    }
}

/// Law: converting a domain failure into the unified failure is an
/// identity-preserving wrap. The result holds the very failure that went
/// in, its category text is exactly "Logic error", and its description is
/// that category text.
pub proof fn lemma_domain_wrap_identity(d: LogicError)
    ensures
        <FrameworkError as FromSpec<LogicError>>::obeys_from_spec(),
        <FrameworkError as FromSpec<LogicError>>::from_spec(d) == FrameworkError::Logic(d),
        <FrameworkError as FromSpec<LogicError>>::from_spec(d).category_text() == "Logic error"@,
{
}

/// Law: tagging a platform failure with the side that produced it fixes
/// the category text of that side, and the wrap keeps the failure itself
/// as the cause.
pub proof fn lemma_io_tag_category(e: IoError)
    ensures
        FrameworkError::Input(e).category_text() == "Input error"@,
        FrameworkError::Output(e).category_text() == "Output error"@,
{
}

} // verus!
