//! Concrete collaborators that live entirely in memory.
//!
//! [`QueuedInput`] produces the lines of a fixed script, [`FixedInput`]
//! produces one line forever and can never fail, [`BufferOutput`] accepts
//! every text, [`SealedOutput`] refuses every text, and [`WorkLogic`] is
//! the sample unit of work that always computes the same value. Their
//! models are structural: what each history can hold is fixed by the
//! type's own state, so a caller of the harness can rule whole failure
//! cases out. [`run_fixed_line`] and [`run_against_sealed_sink`] do
//! exactly that: one whole interaction each, its outcome forced by the
//! contracts alone.

use vstd::prelude::*;
use crate::bundle::{CmdCtx, TypeParamsT};
use crate::capability::{Input, Logic, Output};
use crate::errors::{FrameworkError, IoError, LogicError};
use crate::harness::{echo_text, prompt_text, run};

verus! {

/// The lines among the read attempts `h`, in order: what the failed
/// attempts left out.
pub open spec fn produced_lines(h: Seq<Result<Seq<char>, IoError>>) -> Seq<Seq<char>>
    decreases h.len(),
{
    if h.len() == 0 {
        Seq::empty()
    } else {
        let rest = produced_lines(h.drop_last());
        match h.last() {
            Ok(line) => rest.push(line),
            Err(_) => rest,
        }
    }
}

proof fn lemma_produced_push(h: Seq<Result<Seq<char>, IoError>>, x: Result<Seq<char>, IoError>)
    ensures
        produced_lines(h.push(x)) == (match x {
            Ok(line) => produced_lines(h).push(line),
            Err(_) => produced_lines(h),
        }),
{
    assert(h.push(x).drop_last() =~= h);
    assert(h.push(x).last() == x);
}

/// An input source that hands out the lines of a fixed script, front
/// first, and fails once the script is exhausted. Its type invariant ties
/// the read history to the script: the lines produced are exactly the
/// script's consumed prefix. A caller can therefore recover, from the
/// history alone, which lines were served and how many remain — see
/// [`QueuedInput::lemma_reads_follow_script`].
pub struct QueuedInput {
    script: Vec<String>,
    cursor: usize,
    history: Ghost<Seq<Result<Seq<char>, IoError>>>,
}

impl QueuedInput {
    /// The whole script this source serves, in order.
    pub closed spec fn script_lines(&self) -> Seq<Seq<char>> {
        self.script@.map_values(|t: String| t@)
    }

    /// How many script lines have not been produced yet.
    pub closed spec fn remaining_count(&self) -> nat {
        (self.script@.len() - self.cursor) as nat
    }

    #[verifier::type_invariant]
    spec fn wf(self) -> bool {
        &&& self.cursor <= self.script@.len()
        &&& produced_lines(self.history@) == self.script_lines().take(self.cursor as int)
    }

    /// Build a source that will produce exactly `script`, in order.
    pub fn new(script: Vec<String>) -> (q: QueuedInput)
        ensures
            q.script_lines() == script@.map_values(|t: String| t@),
            q.remaining_count() == script@.len(),
            q.reads() == Seq::<Result<Seq<char>, IoError>>::empty(),
    {
        proof {
            assert(produced_lines(Seq::<Result<Seq<char>, IoError>>::empty())
                == Seq::<Seq<char>>::empty());
            assert forall|s: Seq<Seq<char>>| #[trigger] s.take(0) == Seq::<Seq<char>>::empty() by {
                assert(s.take(0) =~= Seq::<Seq<char>>::empty());
            }
        }
        QueuedInput { script, cursor: 0, history: Ghost(Seq::empty()) }
    }

    /// How many lines are still to come.
    pub fn remaining(&self) -> (n: usize)
        ensures
            n == self.remaining_count(),
    {
        proof {
            use_type_invariant(&*self);
        }
        self.script.len() - self.cursor
    }

    /// Law: the lines a source has produced are exactly the consumed
    /// prefix of its script, and what remains of the script is the rest.
    /// The type invariant guarantees it of every live source — in
    /// particular after a run mutated one: the harness can consume lines,
    /// never change the script. The body does nothing; calling this on a
    /// source recovers the invariant for it.
    pub fn lemma_reads_follow_script(&self)
        ensures
            produced_lines(self.reads()).len() + self.remaining_count()
                == self.script_lines().len(),
            produced_lines(self.reads()) == self.script_lines().take(
                produced_lines(self.reads()).len() as int,
            ),
    {
        proof {
            use_type_invariant(&*self);
        }
    }
}

impl Input for QueuedInput {
    closed spec fn reads(&self) -> Seq<Result<Seq<char>, IoError>> {
        self.history@
    }

    fn read(&mut self) -> (r: Result<String, IoError>)
        ensures
            match r {
                Ok(line) => final(self).reads() == old(self).reads().push(Ok(line@)),
                Err(e) => final(self).reads() == old(self).reads().push(Err(e)),
            },
            r is Ok <==> old(self).remaining_count() > 0,
            final(self).script_lines() == old(self).script_lines(),
            final(self).remaining_count() == if r is Ok {
                (old(self).remaining_count() - 1) as nat
            } else {
                old(self).remaining_count()
            },
    {
        proof {
            use_type_invariant(&*self);
        }
        let mut taken = QueuedInput::new(Vec::new());
        core::mem::swap(self, &mut taken);
        let QueuedInput { script, cursor, history } = taken;
        let ghost sl = script@.map_values(|t: String| t@);
        if cursor == script.len() {
            let e = IoError::new("scripted input exhausted".to_owned());
            proof {
                lemma_produced_push(history@, Err(e));
            }
            let ghost h1 = history@.push(Err(e));
            *self = QueuedInput { script, cursor, history: Ghost(h1) };
            Err(e)
        } else {
            let line = script[cursor].clone();
            proof {
                lemma_produced_push(history@, Ok(line@));
                assert(old(self).script_lines() == sl);
                assert(line@ == sl[cursor as int]);
                assert(sl.take(cursor as int + 1) =~= sl.take(cursor as int).push(
                    sl[cursor as int],
                ));
            }
            let ghost h1 = history@.push(Ok(line@));
            let next = cursor + 1;
            *self = QueuedInput { script, cursor: next, history: Ghost(h1) };
            Ok(line)
        }
    }
}

/// An input source that produces the same line on every read and can
/// never fail: its history can hold nothing but that line.
pub struct FixedInput {
    /// The line every read produces.
    pub line: String,
    /// How many reads have been served (erased at run time).
    pub served: Ghost<nat>,
}

impl FixedInput {
    /// Build a source that always produces `line`.
    pub fn new(line: String) -> (q: FixedInput)
        ensures
            q.line == line,
            q.reads() == Seq::<Result<Seq<char>, IoError>>::empty(),
    {
        let q = FixedInput { line, served: Ghost(0) };
        proof {
            assert(q.reads() =~= Seq::<Result<Seq<char>, IoError>>::empty());
        }
        q
    }
}

impl Input for FixedInput {
    open spec fn reads(&self) -> Seq<Result<Seq<char>, IoError>> {
        Seq::new(self.served@, |i: int| Ok(self.line@))
    }

    fn read(&mut self) -> (r: Result<String, IoError>)
        ensures
            match r {
                Ok(line) => final(self).reads() == old(self).reads().push(Ok(line@)),
                Err(e) => final(self).reads() == old(self).reads().push(Err(e)),
            },
            r matches Ok(line) && line == old(self).line,
            final(self).line == old(self).line,
    {
        let line = self.line.clone();
        proof {
            self.served@ = self.served@ + 1;
            assert(self.reads() =~= old(self).reads().push(Ok(line@)));
        }
        Ok(line)
    }
}

/// An input source with nothing to give: every read fails, so its history
/// can hold produced lines nowhere.
pub struct DryInput {
    /// The failures returned so far (erased at run time).
    pub refused: Ghost<Seq<IoError>>,
}

impl DryInput {
    /// Build a source that will refuse every read.
    pub fn new() -> (q: DryInput)
        ensures
            q.reads() == Seq::<Result<Seq<char>, IoError>>::empty(),
    {
        let q = DryInput { refused: Ghost(Seq::empty()) };
        proof {
            assert(q.reads() =~= Seq::<Result<Seq<char>, IoError>>::empty());
        }
        q
    }
}

impl Input for DryInput {
    open spec fn reads(&self) -> Seq<Result<Seq<char>, IoError>> {
        self.refused@.map_values(|e: IoError| Err(e))
    }

    fn read(&mut self) -> (r: Result<String, IoError>)
        ensures
            match r {
                Ok(line) => final(self).reads() == old(self).reads().push(Ok(line@)),
                Err(e) => final(self).reads() == old(self).reads().push(Err(e)),
            },
            r matches Err(e) && e.detail@ == "no input available"@,
    {
        let e = IoError::new("no input available".to_owned());
        proof {
            self.refused@ = self.refused@.push(e);
            assert(self.reads() =~= old(self).reads().push(Err(e)));
        }
        Err(e)
    }
}

/// An output sink that accepts every text, in order: its history can hold
/// refused attempts nowhere.
pub struct BufferOutput {
    /// The accepted texts, oldest first.
    pub accepted: Vec<String>,
}

impl BufferOutput {
    /// Build an empty sink.
    pub fn new() -> (b: BufferOutput)
        ensures
            b.attempts() == Seq::<(Seq<char>, Option<IoError>)>::empty(),
    {
        let b = BufferOutput { accepted: Vec::new() };
        proof {
            assert(b.attempts() =~= Seq::<(Seq<char>, Option<IoError>)>::empty());
        }
        b
    }
}

impl Output for BufferOutput {
    open spec fn attempts(&self) -> Seq<(Seq<char>, Option<IoError>)> {
        self.accepted@.map_values(|t: String| (t@, None::<IoError>))
    }

    fn write(&mut self, s: &str) -> (r: Result<(), IoError>)
        ensures
            match r {
                Ok(_) => final(self).attempts() == old(self).attempts().push((s@, None)),
                Err(e) => final(self).attempts() == old(self).attempts().push((s@, Some(e))),
            },
            r is Ok,
    {
        self.accepted.push(s.to_owned());
        proof {
            assert(self.attempts() =~= old(self).attempts().push((s@, None::<IoError>)));
        }
        Ok(())
    }
}

/// An output sink that refuses every text: its history can hold accepted
/// attempts nowhere.
pub struct SealedOutput {
    /// Every refused attempt: the text and the failure returned for it
    /// (erased at run time).
    pub refused: Ghost<Seq<(Seq<char>, IoError)>>,
}

impl SealedOutput {
    /// Build a sink that will refuse everything.
    pub fn new() -> (b: SealedOutput)
        ensures
            b.attempts() == Seq::<(Seq<char>, Option<IoError>)>::empty(),
    {
        let b = SealedOutput { refused: Ghost(Seq::empty()) };
        proof {
            assert(b.attempts() =~= Seq::<(Seq<char>, Option<IoError>)>::empty());
        }
        b
    }
}

impl Output for SealedOutput {
    open spec fn attempts(&self) -> Seq<(Seq<char>, Option<IoError>)> {
        self.refused@.map_values(|p: (Seq<char>, IoError)| (p.0, Some(p.1)))
    }

    fn write(&mut self, s: &str) -> (r: Result<(), IoError>)
        ensures
            match r {
                Ok(_) => final(self).attempts() == old(self).attempts().push((s@, None)),
                Err(e) => final(self).attempts() == old(self).attempts().push((s@, Some(e))),
            },
            r matches Err(e) && e.detail@ == "sink sealed"@,
    {
        let e = IoError::new("sink sealed".to_owned());
        proof {
            self.refused@ = self.refused@.push((s@, e));
            assert(self.attempts() =~= old(self).attempts().push((s@, Some(e))));
        }
        Err(e)
    }
}

/// The sample unit of work: every computation succeeds with the same
/// value, [`WorkLogic::VALUE`] — its history can hold nothing else.
pub struct WorkLogic {
    /// How many computations have run (erased at run time).
    pub performed: Ghost<nat>,
}

impl WorkLogic {
    /// The value every computation produces.
    pub const VALUE: u8 = 123;

    /// Build the sample unit of work.
    pub fn new() -> (w: WorkLogic)
        ensures
            w.outcomes() == Seq::<Result<u8, LogicError>>::empty(),
    {
        let w = WorkLogic { performed: Ghost(0) };
        proof {
            assert(w.outcomes() =~= Seq::<Result<u8, LogicError>>::empty());
        }
        w
    }
}

impl Logic for WorkLogic {
    type ReturnType = u8;

    type Error = LogicError;

    open spec fn outcomes(&self) -> Seq<Result<u8, LogicError>> {
        Seq::new(self.performed@, |i: int| Ok(WorkLogic::VALUE))
    }

    fn do_work(&mut self) -> (r: Result<u8, LogicError>)
        ensures
            final(self).outcomes() == old(self).outcomes().push(r),
            r == Ok::<u8, LogicError>(WorkLogic::VALUE),
    {
        proof {
            self.performed@ = self.performed@ + 1;
            assert(self.outcomes() =~= old(self).outcomes().push(Ok(WorkLogic::VALUE)));
        }
        Ok(WorkLogic::VALUE)
    }
}

/// A unit of work that always refuses with the same note: its history can
/// hold successes nowhere.
pub struct FaultyLogic {
    /// The note every domain failure carries.
    pub note: String,
    /// How many computations have run (erased at run time).
    pub tried: Ghost<nat>,
}

impl FaultyLogic {
    /// Build a unit of work that always fails with `note`.
    pub fn new(note: String) -> (w: FaultyLogic)
        ensures
            w.note == note,
            w.outcomes() == Seq::<Result<u8, LogicError>>::empty(),
    {
        let w = FaultyLogic { note, tried: Ghost(0) };
        proof {
            assert(w.outcomes() =~= Seq::<Result<u8, LogicError>>::empty());
        }
        w
    }
}

impl Logic for FaultyLogic {
    type ReturnType = u8;

    type Error = LogicError;

    open spec fn outcomes(&self) -> Seq<Result<u8, LogicError>> {
        Seq::new(self.tried@, |i: int| Err(LogicError(self.note)))
    }

    fn do_work(&mut self) -> (r: Result<u8, LogicError>)
        ensures
            final(self).outcomes() == old(self).outcomes().push(r),
            r matches Err(d) && d == LogicError(old(self).note),
            final(self).note == old(self).note,
    {
        let note = self.note.clone();
        proof {
            self.tried@ = self.tried@ + 1;
            assert(self.outcomes() =~= old(self).outcomes().push(Err(LogicError(note))));
        }
        Err(LogicError(note))
    }
}

/// The bundle that wires the in-memory collaborators together: failures
/// surface as [`FrameworkError`], input comes from a [`QueuedInput`],
/// output goes to a [`BufferOutput`].
pub struct MemoryEndpoint;

impl TypeParamsT for MemoryEndpoint {
    type AppError = FrameworkError;

    type Input = QueuedInput;

    type Output = BufferOutput;
}

/// The bundle of the collaborators that cannot fail: a [`FixedInput`]
/// and a [`BufferOutput`].
pub struct FixedEndpoint;

impl TypeParamsT for FixedEndpoint {
    type AppError = FrameworkError;

    type Input = FixedInput;

    type Output = BufferOutput;
}

/// The bundle whose sink refuses everything: a [`FixedInput`] and a
/// [`SealedOutput`].
pub struct SealedEndpoint;

impl TypeParamsT for SealedEndpoint {
    type AppError = FrameworkError;

    type Input = FixedInput;

    type Output = SealedOutput;
}

proof fn lemma_dry_all_refused(q: &DryInput)
    ensures
        forall|i: int| 0 <= i < q.reads().len() ==> (#[trigger] q.reads()[i]) is Err,
{
}

proof fn lemma_faulty_all_refused(w: &FaultyLogic)
    ensures
        forall|i: int|
            0 <= i < w.outcomes().len() ==> (#[trigger] w.outcomes()[i]) == Err::<u8, LogicError>(
                LogicError(w.note),
            ),
{
}

proof fn lemma_buffer_all_accepted(b: &BufferOutput)
    ensures
        forall|i: int| 0 <= i < b.attempts().len() ==> (#[trigger] b.attempts()[i]).1 is None,
{
}

proof fn lemma_sealed_all_refused(b: &SealedOutput)
    ensures
        forall|i: int| 0 <= i < b.attempts().len() ==> (#[trigger] b.attempts()[i]).1 is Some,
{
}

proof fn lemma_fixed_all_lines(q: &FixedInput)
    ensures
        forall|i: int|
            0 <= i < q.reads().len() ==> (#[trigger] q.reads()[i]) == Ok::<Seq<char>, IoError>(
                q.line@,
            ),
{
}

proof fn lemma_work_all_value(w: &WorkLogic)
    ensures
        forall|i: int|
            0 <= i < w.outcomes().len() ==> (#[trigger] w.outcomes()[i]) == Ok::<u8, LogicError>(
                WorkLogic::VALUE,
            ),
{
}

/// One whole interaction on collaborators that cannot fail. The harness
/// contracts alone force the outcome: the run succeeds with
/// [`WorkLogic::VALUE`], exactly one line is read, and the sink accepted
/// exactly the prompt, the echo text and that very line, in order.
pub fn run_fixed_line(line: String) -> (outcome: (Result<u8, FrameworkError>, CmdCtx<
    FixedEndpoint,
>))
    ensures
        outcome.0 == Ok::<u8, FrameworkError>(WorkLogic::VALUE),
        outcome.1.input.reads().len() == 1,
        outcome.1.input.reads().last() matches Ok(l) && outcome.1.output.attempts() == seq![
            (prompt_text(), None::<IoError>),
            (echo_text(), None::<IoError>),
            (l, None::<IoError>),
        ],
{
    let mut ctx = CmdCtx::<FixedEndpoint> {
        input: FixedInput::new(line),
        output: BufferOutput::new(),
    };
    let mut logic = WorkLogic::new();
    let r = run(&mut ctx, &mut logic);
    proof {
        lemma_buffer_all_accepted(&ctx.output);
        lemma_fixed_all_lines(&ctx.input);
        lemma_work_all_value(&logic);
        match r {
            Ok(v) => {
                assert(logic.outcomes() == Seq::<Result<u8, LogicError>>::empty().push(
                    Ok::<u8, LogicError>(v),
                ));
                assert(logic.outcomes().last() == Ok::<u8, LogicError>(v));
                assert(v == WorkLogic::VALUE);
                assert(ctx.output.attempts() =~= Seq::<(Seq<char>, Option<IoError>)>::empty()
                    + seq![
                    (prompt_text(), None::<IoError>),
                    (echo_text(), None::<IoError>),
                    (ctx.input.reads().last()->Ok_0, None::<IoError>),
                ]);
            },
            Err(_) => {
                assert(false);
            },
        }
    }
    (r, ctx)
}

/// The bundle of the source with nothing to give: a [`DryInput`] and a
/// [`BufferOutput`].
pub struct DryEndpoint;

impl TypeParamsT for DryEndpoint {
    type AppError = FrameworkError;

    type Input = DryInput;

    type Output = BufferOutput;
}

/// The bundle whose unit of work always refuses is assembled at the call
/// site: [`run_faulty_work`] pairs a [`FixedInput`] and a
/// [`BufferOutput`] with a [`FaultyLogic`].
pub struct FaultyEndpoint;

impl TypeParamsT for FaultyEndpoint {
    type AppError = FrameworkError;

    type Input = FixedInput;

    type Output = BufferOutput;
}

/// One whole interaction on a source with nothing to give. The harness
/// contracts alone force the outcome: the read must fail, its failure
/// comes back tagged input-side — category "Input error" — the sink
/// accepted exactly the prompt, and the computation is never invoked.
pub fn run_dry_source() -> (outcome: (Result<u8, FrameworkError>, CmdCtx<DryEndpoint>))
    ensures
        outcome.0 matches Err(f) && {
            &&& f matches FrameworkError::Input(e) && outcome.1.input.reads() == Seq::<Result<
                Seq<char>,
                IoError,
            >>::empty().push(Err(e))
            &&& f.category_text() == "Input error"@
        },
        outcome.1.output.attempts() == seq![(prompt_text(), None::<IoError>)],
{
    let mut ctx = CmdCtx::<DryEndpoint> {
        input: DryInput::new(),
        output: BufferOutput::new(),
    };
    let mut logic = WorkLogic::new();
    let r = run(&mut ctx, &mut logic);
    proof {
        lemma_buffer_all_accepted(&ctx.output);
        lemma_dry_all_refused(&ctx.input);
        lemma_work_all_value(&logic);
        match r {
            Ok(_) => {
                assert(false);
            },
            Err(_) => {
                assert(ctx.output.attempts() =~= seq![(prompt_text(), None::<IoError>)]);
            },
        }
    }
    (r, ctx)
}

/// One whole interaction whose unit of work refuses. The harness
/// contracts alone force the outcome: the run fails with that very domain
/// failure — category "Logic error" — and no write follows the failure
/// point: the sink accepted exactly the prompt.
pub fn run_faulty_work(line: String, note: String) -> (outcome: (Result<u8, FrameworkError>, CmdCtx<
    FaultyEndpoint,
>))
    ensures
        outcome.0 matches Err(f) && {
            &&& f matches FrameworkError::Logic(d)
            &&& f.category_text() == "Logic error"@
        },
        outcome.1.output.attempts() == seq![(prompt_text(), None::<IoError>)],
{
    let mut ctx = CmdCtx::<FaultyEndpoint> {
        input: FixedInput::new(line),
        output: BufferOutput::new(),
    };
    let mut logic = FaultyLogic::new(note);
    let r = run(&mut ctx, &mut logic);
    proof {
        lemma_buffer_all_accepted(&ctx.output);
        lemma_fixed_all_lines(&ctx.input);
        lemma_faulty_all_refused(&logic);
        match r {
            Ok(_) => {
                assert(false);
            },
            Err(_) => {
                assert(ctx.output.attempts() =~= seq![(prompt_text(), None::<IoError>)]);
            },
        }
    }
    (r, ctx)
}

/// One whole interaction against the sink that refuses everything. The
/// harness contracts alone force the outcome: the run fails with the
/// sink's own refusal tagged output-side — category "Output error" — the
/// only attempt is the refused prompt, and the read is never attempted.
pub fn run_against_sealed_sink(line: String) -> (outcome: (Result<u8, FrameworkError>, CmdCtx<
    SealedEndpoint,
>))
    ensures
        outcome.0 matches Err(f) && {
            &&& f matches FrameworkError::Output(e) && outcome.1.output.attempts() == seq![
                (prompt_text(), Some(e)),
            ]
            &&& f.category_text() == "Output error"@
        },
        outcome.1.input.reads() == Seq::<Result<Seq<char>, IoError>>::empty(),
{
    let mut ctx = CmdCtx::<SealedEndpoint> {
        input: FixedInput::new(line),
        output: SealedOutput::new(),
    };
    let mut logic = WorkLogic::new();
    let r = run(&mut ctx, &mut logic);
    proof {
        lemma_sealed_all_refused(&ctx.output);
        lemma_fixed_all_lines(&ctx.input);
        lemma_work_all_value(&logic);
        let att1 = ctx.output.attempts();
        let none_prompt = Seq::<(Seq<char>, Option<IoError>)>::empty().push(
            (prompt_text(), None::<IoError>),
        );
        match r {
            Ok(_) => {
                assert(false);
            },
            Err(_) => {
                // Every disjunct but the refused prompt would have the
                // sealed sink accept a text: impossible.
                assert(att1.len() >= 1);
                assert(att1[0].1 is Some);
                assert(none_prompt[0].1 is None);
                assert(none_prompt.push((echo_text(), None::<IoError>))[0].1 is None);
                assert(att1.last().1 matches Some(e) && {
                    &&& att1 =~= seq![(prompt_text(), Some(e))]
                    &&& r->Err_0 == FrameworkError::Output(e)
                });
            },
        }
    }
    (r, ctx)
}

} // verus!
