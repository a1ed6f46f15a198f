use cmd_harness::bundle::{CmdCtx, TypeParamsT};
use cmd_harness::capability::{Input, Logic, Output};
use cmd_harness::collaborators::{BufferOutput, MemoryEndpoint, QueuedInput, WorkLogic};
use cmd_harness::errors::{FrameworkError, IoError, LogicError};
use cmd_harness::harness::run;
use vstd::seq::Seq;

/// A sink that accepts writes until a chosen call index, then fails that
/// call and every later one.
struct BrittleOutput {
    accepted: Vec<String>,
    calls: usize,
    fail_from: usize,
}

impl BrittleOutput {
    fn new(fail_from: usize) -> BrittleOutput {
        BrittleOutput { accepted: Vec::new(), calls: 0, fail_from }
    }
}

impl Output for BrittleOutput {
    // The model of the sink is ghost state; it has no run-time value.
    fn attempts(&self) -> Seq<(Seq<char>, Option<cmd_harness::errors::IoError>)> {
        unreachable!()
    }

    fn write(&mut self, s: &str) -> Result<(), IoError> {
        let call = self.calls;
        self.calls += 1;
        if call >= self.fail_from {
            Err(IoError::new("sink refused the write".to_owned()))
        } else {
            self.accepted.push(s.to_owned());
            Ok(())
        }
    }
}

/// A unit of work that counts invocations and always fails.
struct FailingLogic {
    invocations: usize,
}

impl Logic for FailingLogic {
    type ReturnType = u8;
    type Error = LogicError;

    // The model of the unit of work is ghost state; it has no run-time value.
    fn outcomes(&self) -> Seq<Result<u8, LogicError>> {
        unreachable!()
    }

    fn do_work(&mut self) -> Result<u8, LogicError> {
        self.invocations += 1;
        Err(LogicError("work refused".to_owned()))
    }
}

/// A unit of work that counts invocations and always succeeds.
struct CountingLogic {
    invocations: usize,
}

impl Logic for CountingLogic {
    type ReturnType = u8;
    type Error = LogicError;

    // The model of the unit of work is ghost state; it has no run-time value.
    fn outcomes(&self) -> Seq<Result<u8, LogicError>> {
        unreachable!()
    }

    fn do_work(&mut self) -> Result<u8, LogicError> {
        self.invocations += 1;
        Ok(7)
    }
}

struct BrittleEndpoint;

impl TypeParamsT for BrittleEndpoint {
    type AppError = FrameworkError;
    type Input = QueuedInput;
    type Output = BrittleOutput;
}

fn script(lines: &[&str]) -> QueuedInput {
    let mut v: Vec<String> = Vec::new();
    for line in lines {
        v.push((*line).to_owned());
    }
    QueuedInput::new(v)
}

#[test]
fn successful_run_returns_value_and_exact_transcript() {
    let mut ctx = CmdCtx::<MemoryEndpoint> {
        input: script(&["hello\n"]),
        output: BufferOutput::new(),
    };
    let mut logic = WorkLogic::new();
    let r = run(&mut ctx, &mut logic);
    assert!(matches!(r, Ok(123)));
    assert_eq!(ctx.output.accepted, vec![
        "Enter some input:\n".to_owned(),
        "You entered: ".to_owned(),
        "hello\n".to_owned(),
    ]);
    assert_eq!(ctx.input.remaining(), 0);
}

#[test]
fn line_is_echoed_verbatim_with_trailing_newline() {
    let mut ctx = CmdCtx::<MemoryEndpoint> {
        input: script(&["  spaced line \n"]),
        output: BufferOutput::new(),
    };
    let mut logic = WorkLogic::new();
    let r = run(&mut ctx, &mut logic);
    assert!(matches!(r, Ok(123)));
    assert_eq!(ctx.output.accepted[2], "  spaced line \n");
}

#[test]
fn first_write_failure_skips_the_read() {
    let mut ctx = CmdCtx::<BrittleEndpoint> {
        input: script(&["hello\n"]),
        output: BrittleOutput::new(0),
    };
    let mut logic = CountingLogic { invocations: 0 };
    let r = run(&mut ctx, &mut logic);
    match r {
        Err(FrameworkError::Output(_)) => {},
        _ => panic!("a refused prompt write must surface as an output-side failure"),
    }
    assert_eq!(r.unwrap_err().category(), "Output error");
    assert_eq!(ctx.output.accepted.len(), 0);
    // The read was never invoked: the script still holds its line.
    assert_eq!(ctx.input.remaining(), 1);
    assert_eq!(logic.invocations, 0);
}

#[test]
fn read_failure_skips_the_computation() {
    let mut ctx = CmdCtx::<MemoryEndpoint> {
        input: script(&[]),
        output: BufferOutput::new(),
    };
    let mut logic = WorkLogic::new();
    let r = run(&mut ctx, &mut logic);
    match &r {
        Err(FrameworkError::Input(_)) => {},
        _ => panic!("an exhausted input must surface as an input-side failure"),
    }
    assert_eq!(r.unwrap_err().category(), "Input error");
    assert_eq!(ctx.output.accepted, vec!["Enter some input:\n".to_owned()]);
}

struct CountingEndpoint;

impl TypeParamsT for CountingEndpoint {
    type AppError = FrameworkError;
    type Input = QueuedInput;
    type Output = BufferOutput;
}

#[test]
fn read_failure_leaves_counting_logic_untouched() {
    let mut ctx = CmdCtx::<CountingEndpoint> {
        input: script(&[]),
        output: BufferOutput::new(),
    };
    let mut logic = CountingLogic { invocations: 0 };
    let r = run(&mut ctx, &mut logic);
    assert!(r.is_err());
    assert_eq!(logic.invocations, 0);
}

#[test]
fn work_failure_stops_output_at_the_prompt() {
    let mut ctx = CmdCtx::<MemoryEndpoint> {
        input: script(&["hello\n"]),
        output: BufferOutput::new(),
    };
    let mut logic = FailingLogic { invocations: 0 };
    let r = run(&mut ctx, &mut logic);
    match &r {
        Err(FrameworkError::Logic(inner)) => assert_eq!(inner.0, "work refused"),
        _ => panic!("a domain failure must surface as the domain case"),
    }
    assert_eq!(r.unwrap_err().category(), "Logic error");
    // No write after the failure point: only the prompt was accepted.
    assert_eq!(ctx.output.accepted, vec!["Enter some input:\n".to_owned()]);
    assert_eq!(logic.invocations, 1);
}

#[test]
fn echo_prefix_failure_keeps_earlier_output() {
    let mut ctx = CmdCtx::<BrittleEndpoint> {
        input: script(&["hello\n"]),
        output: BrittleOutput::new(1),
    };
    let mut logic = CountingLogic { invocations: 0 };
    let r = run(&mut ctx, &mut logic);
    match r {
        Err(FrameworkError::Output(_)) => {},
        _ => panic!("a refused echo write must surface as an output-side failure"),
    }
    // Text accepted before the failure stays accepted; nothing follows it.
    assert_eq!(ctx.output.accepted, vec!["Enter some input:\n".to_owned()]);
    assert_eq!(ctx.input.remaining(), 0);
    assert_eq!(logic.invocations, 1);
}

#[test]
fn echoed_line_failure_keeps_prompt_and_prefix() {
    let mut ctx = CmdCtx::<BrittleEndpoint> {
        input: script(&["hello\n"]),
        output: BrittleOutput::new(2),
    };
    let mut logic = CountingLogic { invocations: 0 };
    let r = run(&mut ctx, &mut logic);
    assert!(matches!(r, Err(FrameworkError::Output(_))));
    assert_eq!(ctx.output.accepted, vec![
        "Enter some input:\n".to_owned(),
        "You entered: ".to_owned(),
    ]);
}

#[test]
fn queued_input_hands_out_script_in_order_then_fails() {
    let mut input = script(&["a\n", "b\n"]);
    assert_eq!(input.read().unwrap(), "a\n");
    assert_eq!(input.read().unwrap(), "b\n");
    assert!(input.read().is_err());
}

#[test]
fn buffer_output_accepts_everything_in_order() {
    let mut output = BufferOutput::new();
    assert!(output.write("x").is_ok());
    assert!(output.write("y").is_ok());
    assert_eq!(output.accepted, vec!["x".to_owned(), "y".to_owned()]);
}

#[test]
fn work_logic_always_returns_the_fixed_value() {
    let mut logic = WorkLogic::new();
    assert!(matches!(logic.do_work(), Ok(123)));
    assert!(matches!(logic.do_work(), Ok(123)));
    assert_eq!(WorkLogic::VALUE, 123);
}

#[test]
fn fixed_line_run_is_statically_accounted() {
    let (r, ctx) = cmd_harness::collaborators::run_fixed_line("hello\n".to_owned());
    assert!(matches!(r, Ok(123)));
    assert_eq!(ctx.output.accepted, vec![
        "Enter some input:\n".to_owned(),
        "You entered: ".to_owned(),
        "hello\n".to_owned(),
    ]);
}

#[test]
fn sealed_sink_run_is_statically_accounted() {
    let (r, _ctx) = cmd_harness::collaborators::run_against_sealed_sink("hello\n".to_owned());
    match r {
        Err(FrameworkError::Output(e)) => assert_eq!(e.detail, "sink sealed"),
        _ => panic!("a sealed sink must surface as an output-side failure"),
    }
}

#[test]
fn fixed_input_always_serves_its_line() {
    let mut input = cmd_harness::collaborators::FixedInput::new("again\n".to_owned());
    assert_eq!(input.read().unwrap(), "again\n");
    assert_eq!(input.read().unwrap(), "again\n");
}

#[test]
fn sealed_output_refuses_everything() {
    let mut output = cmd_harness::collaborators::SealedOutput::new();
    assert!(output.write("x").is_err());
    assert!(output.write("y").is_err());
}

#[test]
fn dry_source_run_is_statically_accounted() {
    let (r, ctx) = cmd_harness::collaborators::run_dry_source();
    match r {
        Err(FrameworkError::Input(e)) => assert_eq!(e.detail, "no input available"),
        _ => panic!("a dry source must surface as an input-side failure"),
    }
    assert_eq!(ctx.output.accepted, vec!["Enter some input:\n".to_owned()]);
}

#[test]
fn faulty_work_run_is_statically_accounted() {
    let (r, ctx) =
        cmd_harness::collaborators::run_faulty_work("hi\n".to_owned(), "work refused".to_owned());
    match r {
        Err(FrameworkError::Logic(d)) => assert_eq!(d.0, "work refused"),
        _ => panic!("a faulty unit of work must surface as the domain case"),
    }
    assert_eq!(ctx.output.accepted, vec!["Enter some input:\n".to_owned()]);
}

#[test]
fn successful_run_consumes_exactly_one_line() {
    let mut ctx = CmdCtx::<MemoryEndpoint> {
        input: script(&["a\n", "b\n"]),
        output: BufferOutput::new(),
    };
    let mut logic = WorkLogic::new();
    let r = run(&mut ctx, &mut logic);
    assert!(matches!(r, Ok(123)));
    assert_eq!(ctx.input.remaining(), 1);
}
