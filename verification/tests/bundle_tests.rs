//! The bundle's error slot is generic: any type that can absorb both the
//! unit of work's failure and the harness's own failure qualifies. These
//! tests drive a run through a custom unified error type.

use cmd_harness::bundle::{CmdCtx, TypeParamsT};
use cmd_harness::capability::Logic;
use cmd_harness::collaborators::{BufferOutput, QueuedInput, WorkLogic};
use cmd_harness::errors::{Absorb, Diagnostic, FrameworkError, LogicError};
use cmd_harness::harness::run;
use vstd::seq::Seq;

/// A caller-chosen unified failure: flattens every cause to its text.
#[derive(Debug)]
enum AppFailure {
    Domain(String),
    Platform(String),
}

impl Diagnostic for AppFailure {
    // The model of the failure is ghost state; it has no run-time value.
    fn description(&self) -> Seq<char> {
        unreachable!()
    }

    fn message(&self) -> String {
        match self {
            AppFailure::Domain(text) => text.clone(),
            AppFailure::Platform(text) => text.clone(),
        }
    }
}

impl From<LogicError> for AppFailure {
    fn from(error: LogicError) -> AppFailure {
        AppFailure::Domain(error.0)
    }
}

impl Absorb for AppFailure {
    // The model of the absorption is ghost state; it has no run-time value.
    fn absorb_spec(_f: FrameworkError) -> AppFailure {
        unreachable!()
    }

    fn absorb(f: FrameworkError) -> AppFailure {
        AppFailure::Platform(f.category())
    }
}

/// A unit of work that always refuses.
struct RefusingLogic;

impl Logic for RefusingLogic {
    type ReturnType = u8;
    type Error = LogicError;

    // The model of the unit of work is ghost state; it has no run-time value.
    fn outcomes(&self) -> Seq<Result<u8, LogicError>> {
        unreachable!()
    }

    fn do_work(&mut self) -> Result<u8, LogicError> {
        Err(LogicError("no work today".to_owned()))
    }
}

struct CustomEndpoint;

impl TypeParamsT for CustomEndpoint {
    type AppError = AppFailure;
    type Input = QueuedInput;
    type Output = BufferOutput;
}

#[test]
fn custom_error_bundle_still_runs_to_success() {
    let mut ctx = CmdCtx::<CustomEndpoint> {
        input: QueuedInput::new(vec!["line\n".to_owned()]),
        output: BufferOutput::new(),
    };
    let mut logic = WorkLogic::new();
    let r = run(&mut ctx, &mut logic);
    assert!(matches!(r, Ok(123)));
}

#[test]
fn custom_error_type_absorbs_a_read_failure() {
    let mut ctx = CmdCtx::<CustomEndpoint> {
        input: QueuedInput::new(Vec::new()),
        output: BufferOutput::new(),
    };
    let mut logic = WorkLogic::new();
    let r = run(&mut ctx, &mut logic);
    match r {
        Err(AppFailure::Platform(text)) => assert_eq!(text, "Input error"),
        _ => panic!("an exhausted input must be absorbed as a platform failure"),
    }
}

#[test]
fn custom_error_type_absorbs_a_domain_failure() {
    let mut ctx = CmdCtx::<CustomEndpoint> {
        input: QueuedInput::new(vec!["line\n".to_owned()]),
        output: BufferOutput::new(),
    };
    let mut logic = RefusingLogic;
    let r = run(&mut ctx, &mut logic);
    match r {
        Err(AppFailure::Domain(text)) => assert_eq!(text, "no work today"),
        _ => panic!("a domain failure must be absorbed as the domain case"),
    }
    assert_eq!(ctx.output.accepted, vec!["Enter some input:\n".to_owned()]);
}
