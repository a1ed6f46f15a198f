//! The orchestration routine: one fixed interaction sequence.
//!
//! [`run`] binds one execution context to one unit of work and executes
//! prompt, read, compute, report, short-circuiting on the first failure.
//! Its contract pins down, for every outcome, exactly what each
//! collaborator did: which texts were handed to the sink and which it
//! accepted, in what order, what was read, whether the computation ran,
//! and that the failure returned is the conversion of the very failure
//! the collaborator produced, tagged with its side. Text accepted before
//! a later failure stays accepted — there is no rollback.

use vstd::prelude::*;
use vstd::std_specs::convert::FromSpec;
use crate::bundle::{CmdCtx, TypeParamsConstrained};
use crate::capability::{Input, Logic, Output};
use crate::errors::{Absorb, FrameworkError, IoError};

verus! {

/// The fixed prompt the routine writes before reading.
pub open spec fn prompt_text() -> Seq<char> {
    "Enter some input:\n"@
}

/// The fixed text the routine writes before echoing the line read.
pub open spec fn echo_text() -> Seq<char> {
    "You entered: "@
}

/// Whether `err` is what converting `f` into `E` yields, as far as the
/// conversion's own specification pins that down: wherever the `From`
/// implementation obeys its specification, `err` is exactly the converted
/// value.
pub open spec fn absorbs<E: From<F>, F>(err: E, f: F) -> bool {
    <E as FromSpec<F>>::obeys_from_spec() ==> err == <E as FromSpec<F>>::from_spec(f)
}

/// How a failed run accounts for itself: the returned failure and the
/// three collaborator histories (read attempts, write attempts, outcomes
/// computed; `0` before the run, `1` after) fit exactly one point of the
/// interaction sequence, and the failure returned converts the very
/// failure the collaborator left in its history, tagged with its side.
/// A prompt refusal leaves nothing else attempted; a read failure leaves
/// the accepted prompt only; a computation failure adds no write attempt
/// after the failure point; an echo refusal keeps the computation and
/// every text accepted before the refused write.
pub open spec fn run_err_account<E: Absorb + From<LE>, R, LE>(
    err: E,
    reads0: Seq<Result<Seq<char>, IoError>>,
    reads1: Seq<Result<Seq<char>, IoError>>,
    att0: Seq<(Seq<char>, Option<IoError>)>,
    att1: Seq<(Seq<char>, Option<IoError>)>,
    done0: Seq<Result<R, LE>>,
    done1: Seq<Result<R, LE>>,
) -> bool {
    ||| {
        // The sink refused the prompt: nothing read, nothing computed.
        &&& att1.len() == att0.len() + 1
        &&& (att1.last().1 matches Some(e) && {
            &&& att1 == att0.push((prompt_text(), Some(e)))
            &&& err == E::absorb_spec(FrameworkError::Output(e))
        })
        &&& reads1 == reads0
        &&& done1 == done0
    }
    ||| {
        // The read failed: the accepted prompt stands, nothing computed.
        &&& att1 == att0.push((prompt_text(), None))
        &&& reads1.len() == reads0.len() + 1
        &&& (reads1.last() matches Err(e) && {
            &&& reads1 == reads0.push(Err(e))
            &&& err == E::absorb_spec(FrameworkError::Input(e))
        })
        &&& done1 == done0
    }
    ||| {
        // The computation failed: no write attempt after the failure
        // point, and the domain failure itself is converted.
        &&& att1 == att0.push((prompt_text(), None))
        &&& reads1.len() == reads0.len() + 1
        &&& reads1 == reads0.push(reads1.last())
        &&& reads1.last() is Ok
        &&& done1.len() == done0.len() + 1
        &&& done1 == done0.push(done1.last())
        &&& (done1.last() matches Err(d) && absorbs(err, d))
    }
    ||| {
        // The sink refused an echo write: the computation stands, and
        // everything accepted before the refused write stays accepted.
        &&& reads1.len() == reads0.len() + 1
        &&& reads1 == reads0.push(reads1.last())
        &&& done1.len() == done0.len() + 1
        &&& done1 == done0.push(done1.last())
        &&& done1.last() is Ok
        &&& att1.len() > att0.len()
        &&& (att1.last().1 matches Some(e) && {
            &&& err == E::absorb_spec(FrameworkError::Output(e))
            &&& (reads1.last() matches Ok(line) && {
                ||| att1 == att0.push((prompt_text(), None)).push((echo_text(), Some(e)))
                ||| att1 == att0.push((prompt_text(), None)).push((echo_text(), None)).push(
                    (line, Some(e)),
                )
            })
        })
    }
}

/// Law: if the sink's very first write attempt was refused with failure
/// `e`, the input collaborator's read was never invoked, the computation
/// never ran, and the failure returned is exactly `e` absorbed
/// output-side.
pub proof fn lemma_first_write_failure_short_circuit<E: Absorb + From<LE>, R, LE>(
    err: E,
    reads0: Seq<Result<Seq<char>, IoError>>,
    reads1: Seq<Result<Seq<char>, IoError>>,
    att0: Seq<(Seq<char>, Option<IoError>)>,
    att1: Seq<(Seq<char>, Option<IoError>)>,
    done0: Seq<Result<R, LE>>,
    done1: Seq<Result<R, LE>>,
    e: IoError,
)
    requires
        run_err_account(err, reads0, reads1, att0, att1, done0, done1),
        att1 == att0.push((prompt_text(), Some(e))),
    ensures
        reads1 == reads0,
        done1 == done0,
        err == E::absorb_spec(FrameworkError::Output(e)),
{
    assert(att1.last() == (prompt_text(), Some(e)));
    assert(att0.push((prompt_text(), None)).last() == (prompt_text(), None::<IoError>));
}

/// Law: a failed run that read no line never invoked the unit of work's
/// computation, and its failure is the sink's own refusal of the prompt,
/// absorbed output-side.
pub proof fn lemma_no_read_no_work<E: Absorb + From<LE>, R, LE>(
    err: E,
    reads0: Seq<Result<Seq<char>, IoError>>,
    reads1: Seq<Result<Seq<char>, IoError>>,
    att0: Seq<(Seq<char>, Option<IoError>)>,
    att1: Seq<(Seq<char>, Option<IoError>)>,
    done0: Seq<Result<R, LE>>,
    done1: Seq<Result<R, LE>>,
)
    requires
        run_err_account(err, reads0, reads1, att0, att1, done0, done1),
        reads1 == reads0,
    ensures
        done1 == done0,
        att1.last().1 matches Some(e) && err == E::absorb_spec(FrameworkError::Output(e)),
{
    assert(reads0.push(reads1.last()).len() == reads0.len() + 1);
}

/// Law: a run whose computation failed made no write attempt after the
/// failure point — the sink holds exactly the accepted prompt it had
/// before — and the failure returned is the conversion of that very
/// domain failure.
pub proof fn lemma_work_failure_stops_output<E: Absorb + From<LE>, R, LE>(
    err: E,
    reads0: Seq<Result<Seq<char>, IoError>>,
    reads1: Seq<Result<Seq<char>, IoError>>,
    att0: Seq<(Seq<char>, Option<IoError>)>,
    att1: Seq<(Seq<char>, Option<IoError>)>,
    done0: Seq<Result<R, LE>>,
    done1: Seq<Result<R, LE>>,
)
    requires
        run_err_account(err, reads0, reads1, att0, att1, done0, done1),
        done1.len() == done0.len() + 1,
        done1.last() is Err,
    ensures
        att1 == att0.push((prompt_text(), None)),
        done1 == done0.push(done1.last()),
        done1.last() matches Err(d) && absorbs(err, d),
{
}

/// Run the fixed interaction sequence once: write the prompt, read one
/// line, perform the computation, write the echo text and then the line,
/// verbatim. The first failure ends the run: a platform failure is tagged
/// with the side that produced it and absorbed into the bundle's error
/// type, a domain failure is converted directly.
///
/// The contract covers every outcome. On success the sink was handed
/// exactly the prompt, the echo text and the line read, in that order,
/// accepted all three, and the value returned is the one the computation
/// produced. On failure [`run_err_account`] pins the failure point, every
/// attempt made up to it, and the identity of the failure returned.
pub fn run<Types, L>(cmd_ctx: &mut CmdCtx<Types>, logic: &mut L) -> (r: Result<
    L::ReturnType,
    <Types as TypeParamsConstrained>::AppError,
>) where
    Types: TypeParamsConstrained,
    L: Logic,
    <Types as TypeParamsConstrained>::AppError: Absorb + From<L::Error>,

    ensures
        r matches Ok(v) ==> ({
            let reads0 = old(cmd_ctx).input.reads();
            let reads1 = final(cmd_ctx).input.reads();
            &&& reads1.len() == reads0.len() + 1
            &&& reads1 == reads0.push(reads1.last())
            &&& (reads1.last() matches Ok(line) && final(cmd_ctx).output.attempts() == old(
                cmd_ctx,
            ).output.attempts() + seq![
                (prompt_text(), None),
                (echo_text(), None),
                (line, None),
            ])
            &&& final(logic).outcomes() == old(logic).outcomes().push(Ok(v))
        }),
        r matches Err(err) ==> run_err_account(
            err,
            old(cmd_ctx).input.reads(),
            final(cmd_ctx).input.reads(),
            old(cmd_ctx).output.attempts(),
            final(cmd_ctx).output.attempts(),
            old(logic).outcomes(),
            final(logic).outcomes(),
        ),
{
    match cmd_ctx.output.write("Enter some input:\n") {
        Ok(_) => {},
        Err(e) => {
            let app_err = <Types as TypeParamsConstrained>::AppError::absorb(
                FrameworkError::Output(e),
            );
            return Err(app_err);
        },
    }
    proof {
        assert(cmd_ctx.output.attempts() =~= old(cmd_ctx).output.attempts().push(
            (prompt_text(), None),
        ));
    }
    let line = match cmd_ctx.input.read() {
        Ok(line) => line,
        Err(e) => {
            let app_err = <Types as TypeParamsConstrained>::AppError::absorb(
                FrameworkError::Input(e),
            );
            return Err(app_err);
        },
    };
    proof {
        assert(cmd_ctx.input.reads() =~= old(cmd_ctx).input.reads().push(
            cmd_ctx.input.reads().last(),
        ));
    }
    let t = match logic.do_work() {
        Ok(t) => t,
        Err(d) => {
            let app_err: <Types as TypeParamsConstrained>::AppError = From::from(d);
            proof {
                assert(logic.outcomes() =~= old(logic).outcomes().push(logic.outcomes().last()));
                assert(logic.outcomes().last() matches Err(x) && absorbs(app_err, x)) by {
                    assert(absorbs(app_err, d));
                }
            }
            return Err(app_err);
        },
    };
    proof {
        assert(logic.outcomes() =~= old(logic).outcomes().push(logic.outcomes().last()));
    }
    match cmd_ctx.output.write("You entered: ") {
        Ok(_) => {},
        Err(e) => {
            let app_err = <Types as TypeParamsConstrained>::AppError::absorb(
                FrameworkError::Output(e),
            );
            proof {
                assert(cmd_ctx.output.attempts() =~= old(cmd_ctx).output.attempts().push(
                    (prompt_text(), None),
                ).push((echo_text(), Some(e))));
            }
            return Err(app_err);
        },
    }
    match cmd_ctx.output.write(line.as_str()) {
        Ok(_) => {},
        Err(e) => {
            let app_err = <Types as TypeParamsConstrained>::AppError::absorb(
                FrameworkError::Output(e),
            );
            proof {
                assert(cmd_ctx.output.attempts() =~= old(cmd_ctx).output.attempts().push(
                    (prompt_text(), None),
                ).push((echo_text(), None)).push((line@, Some(e))));
            }
            return Err(app_err);
        },
    }
    proof {
        assert(cmd_ctx.output.attempts() =~= old(cmd_ctx).output.attempts() + seq![
            (prompt_text(), None),
            (echo_text(), None),
            (line@, None),
        ]);
    }
    Ok(t)
}

} // verus!
