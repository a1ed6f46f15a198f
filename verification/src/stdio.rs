//! The concrete bindings to the process's standard streams.
//!
//! [`StdinInput`] and [`StdoutOutput`] adapt standard input and standard
//! output to the capability contracts; [`StdioEndpoint`] bundles them.
//! Only the raw platform calls are trusted; each adapter pairs its stream
//! handle with a ghost history that the verified methods maintain.

use std::io::Write;

use vstd::prelude::*;
use crate::bundle::TypeParamsT;
use crate::capability::{Input, Output};
use crate::errors::{FrameworkError, IoError};

verus! {

#[verifier::external_type_specification]
#[verifier::external_body]
pub struct ExStdin(std::io::Stdin);

#[verifier::external_type_specification]
#[verifier::external_body]
pub struct ExStdout(std::io::Stdout);

/// Relies on std::io::stdin: yields a handle to the process's standard
/// input stream.
#[verifier::external_body]
fn acquire_stdin() -> (h: std::io::Stdin) {
    std::io::stdin()
}

/// Relies on std::io::Stdin::read_line: on success the buffer holds the
/// line read, including its trailing newline if one was reached; on
/// failure the platform error describes itself. What line comes back
/// depends on the process's environment, so nothing is promised of it.
#[verifier::external_body]
fn read_line_raw(handle: &std::io::Stdin) -> (r: Result<String, IoError>) {
    let mut buffer = String::with_capacity(256);
    match handle.read_line(&mut buffer) {
        Ok(_n) => Ok(buffer),
        Err(e) => Err(IoError::new(e.to_string())),
    }
}

/// Relies on std::io::stdout: yields a handle to the process's standard
/// output stream.
#[verifier::external_body]
fn acquire_stdout() -> (h: std::io::Stdout) {
    std::io::stdout()
}

/// Relies on std::io::Write::write_all on the locked standard output: on
/// success the whole byte slice was handed to the stream, in order; on
/// failure the platform error describes itself. Whether the stream
/// accepts the bytes depends on the process's environment, so nothing is
/// promised of the outcome.
#[verifier::external_body]
fn write_all_raw(handle: &std::io::Stdout, s: &str) -> (r: Result<(), IoError>) {
    match handle.lock().write_all(s.as_bytes()) {
        Ok(_) => Ok(()),
        Err(e) => Err(IoError::new(e.to_string())),
    }
}

/// The standard-input adapter: produces one text line per read.
pub struct StdinInput {
    /// The process's standard input handle.
    pub handle: std::io::Stdin,
    /// Every read attempt so far (erased at run time).
    pub taken: Ghost<Seq<Result<Seq<char>, IoError>>>,
}

impl StdinInput {
    /// Bind a fresh adapter, with an empty history, to the process's
    /// standard input.
    pub fn new() -> (s: StdinInput)
        ensures
            s.reads() == Seq::<Result<Seq<char>, IoError>>::empty(),
    {
        StdinInput { handle: acquire_stdin(), taken: Ghost(Seq::empty()) }
    }
}

impl Input for StdinInput {
    open spec fn reads(&self) -> Seq<Result<Seq<char>, IoError>> {
        self.taken@
    }

    fn read(&mut self) -> (r: Result<String, IoError>)
        ensures
            match r {
                Ok(line) => final(self).reads() == old(self).reads().push(Ok(line@)),
                Err(e) => final(self).reads() == old(self).reads().push(Err(e)),
            },
    {
        match read_line_raw(&self.handle) {
            Ok(line) => {
                proof {
                    self.taken@ = self.taken@.push(Ok(line@));
                }
                Ok(line)
            },
            Err(e) => {
                proof {
                    self.taken@ = self.taken@.push(Err(e));
                }
                Err(e)
            },
        }
    }
}

/// The standard-output adapter: emits raw bytes, unbuffered at this
/// boundary.
pub struct StdoutOutput {
    /// The process's standard output handle.
    pub handle: std::io::Stdout,
    /// Every write attempt so far (erased at run time).
    pub emitted: Ghost<Seq<(Seq<char>, Option<IoError>)>>,
}

impl StdoutOutput {
    /// Bind a fresh adapter, with an empty history, to the process's
    /// standard output.
    pub fn new() -> (s: StdoutOutput)
        ensures
            s.attempts() == Seq::<(Seq<char>, Option<IoError>)>::empty(),
    {
        StdoutOutput { handle: acquire_stdout(), emitted: Ghost(Seq::empty()) }
    }
}

impl Output for StdoutOutput {
    open spec fn attempts(&self) -> Seq<(Seq<char>, Option<IoError>)> {
        self.emitted@
    }

    fn write(&mut self, s: &str) -> (r: Result<(), IoError>)
        ensures
            match r {
                Ok(_) => final(self).attempts() == old(self).attempts().push((s@, None)),
                Err(e) => final(self).attempts() == old(self).attempts().push((s@, Some(e))),
            },
    {
        match write_all_raw(&self.handle, s) {
            Ok(_) => {
                proof {
                    self.emitted@ = self.emitted@.push((s@, None));
                }
                Ok(())
            },
            Err(e) => {
                proof {
                    self.emitted@ = self.emitted@.push((s@, Some(e)));
                }
                Err(e)
            },
        }
    }
}

/// The bundle that wires the standard streams together: failures surface
/// as [`FrameworkError`], input comes from standard input, output goes to
/// standard output.
pub struct StdioEndpoint;

impl TypeParamsT for StdioEndpoint {
    type AppError = FrameworkError;

    type Input = StdinInput;

    type Output = StdoutOutput;
}

} // verus!
