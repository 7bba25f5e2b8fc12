//! The archive-composition protocol as a state machine.
//!
//! The driver performs each `Step` the machine hands out (create the file,
//! take the lock, write an entry, ...), reports whether it succeeded, and
//! receives the next step, until a terminal step (`Exit` or `Fail`) ends the
//! job. The machine decides; it never touches a file itself.

use vstd::prelude::*;

verus! {

/// Process exit code of a successful composition.
pub const EXIT_SUCCESS: i32 = 0;

/// Process exit code of an unrecoverable setup or I/O failure.
pub const EXIT_FAILURE: i32 = 1;

/// A failure that is handed back to the supervisor instead of exiting.
#[derive(Debug, Clone, Copy, PartialEq, Eq, Structural)]
pub enum Failure {
    Lock,
    Flush,
    Event,
    Finish,
    Unlock,
}

/// One action for the driver to perform.
#[derive(Debug, Clone, Copy, PartialEq, Eq, Structural)]
pub enum Step {
    /// Create the destination file.
    CreateFile,
    /// Take the exclusive advisory lock on the destination file.
    Lock,
    /// Start the metadata entry of the archive.
    StartMetadataEntry,
    /// Write the metadata document into the open entry.
    WriteMetadata,
    /// Start the core-payload entry of the archive.
    StartPayloadEntry,
    /// Copy the whole input stream into the open entry.
    CopyInput,
    /// Flush the archive writer.
    Flush,
    /// Write the crash event record.
    WriteEvent,
    /// Write the archive's trailer.
    Finish,
    /// Release the lock on the destination file.
    Unlock,
    /// Terminal: end the process with this code.
    Exit(i32),
    /// Terminal: hand this failure back to the supervisor.
    Fail(Failure),
}

/// Where the machine stands: which step's outcome it is waiting for.
#[derive(Debug, Clone, Copy, PartialEq, Eq, Structural)]
pub enum Phase {
    Creating,
    Locking,
    StartingMetadata,
    WritingMetadata,
    StartingPayload,
    Copying,
    Flushing,
    WritingEvent,
    /// Writing the trailer; the step to end with afterwards.
    Finishing(Step),
    /// Releasing the lock; the step to end with afterwards.
    Unlocking(Step),
    /// A terminal step has been handed out.
    Done,
}

pub open spec fn is_terminal(s: Step) -> bool {
    s is Exit || s is Fail
}

/// The next phase and step, given the phase and whether its step succeeded.
pub open spec fn transition(ignore_runtime: bool, emit_events: bool, p: Phase, ok: bool) -> (
    Phase,
    Step,
) {
    match p {
        Phase::Creating => if ok {
            (Phase::Locking, Step::Lock)
        } else {
            (Phase::Done, Step::Exit(EXIT_FAILURE))
        },
        Phase::Locking => if ok {
            (Phase::StartingMetadata, Step::StartMetadataEntry)
        } else {
            (Phase::Done, Step::Fail(Failure::Lock))
        },
        Phase::StartingMetadata => if ok {
            (Phase::WritingMetadata, Step::WriteMetadata)
        } else {
            (Phase::Finishing(Step::Exit(EXIT_FAILURE)), Step::Finish)
        },
        Phase::WritingMetadata => if ok {
            (Phase::StartingPayload, Step::StartPayloadEntry)
        } else {
            (Phase::Finishing(Step::Exit(EXIT_FAILURE)), Step::Finish)
        },
        Phase::StartingPayload => (Phase::Copying, Step::CopyInput),
        Phase::Copying => if ok {
            (Phase::Flushing, Step::Flush)
        } else {
            (Phase::Unlocking(Step::Exit(EXIT_FAILURE)), Step::Unlock)
        },
        Phase::Flushing => if !ok {
            (Phase::Unlocking(Step::Fail(Failure::Flush)), Step::Unlock)
        } else if ignore_runtime && emit_events {
            (Phase::WritingEvent, Step::WriteEvent)
        } else {
            (Phase::Finishing(Step::Exit(EXIT_SUCCESS)), Step::Finish)
        },
        Phase::WritingEvent => if ok {
            (Phase::Finishing(Step::Exit(EXIT_SUCCESS)), Step::Finish)
        } else {
            (Phase::Finishing(Step::Fail(Failure::Event)), Step::Finish)
        },
        Phase::Finishing(t) => if ok {
            (Phase::Unlocking(t), Step::Unlock)
        } else {
            (Phase::Unlocking(Step::Fail(Failure::Finish)), Step::Unlock)
        },
        Phase::Unlocking(t) => if ok {
            (Phase::Done, t)
        } else {
            (Phase::Done, Step::Fail(Failure::Unlock))
        },
        Phase::Done => (Phase::Done, Step::Fail(Failure::Unlock)),
    }
}

/// The phase reached and the steps handed out, when the outcomes of the
/// steps are reported in order. Outcomes after a terminal step are ignored.
pub open spec fn run(ignore_runtime: bool, emit_events: bool, outcomes: Seq<bool>) -> (
    Phase,
    Seq<Step>,
)
    decreases outcomes.len(),
{
    if outcomes.len() == 0 {
        (Phase::Creating, seq![Step::CreateFile])
    } else {
        let (p, steps) = run(ignore_runtime, emit_events, outcomes.drop_last());
        if p is Done {
            (p, steps)
        } else {
            let (q, s) = transition(ignore_runtime, emit_events, p, outcomes.last());
            (q, steps.push(s))
        }
    }
}

/// The steps of a job that runs without a failure, up to the flush.
pub open spec fn happy_path() -> Seq<Step> {
    seq![
        Step::CreateFile,
        Step::Lock,
        Step::StartMetadataEntry,
        Step::WriteMetadata,
        Step::StartPayloadEntry,
        Step::CopyInput,
        Step::Flush,
    ]
}

/// The steps of a job that ends with `EXIT_SUCCESS`.
pub open spec fn success_steps(ignore_runtime: bool, emit_events: bool) -> Seq<Step> {
    happy_path() + (if ignore_runtime && emit_events {
        seq![Step::WriteEvent]
    } else {
        Seq::empty()
    }) + seq![Step::Finish, Step::Unlock, Step::Exit(EXIT_SUCCESS)]
}

/// Every outcome succeeded, except perhaps that of starting the payload
/// entry, which the protocol does not treat as fatal.
pub open spec fn all_ok_but_payload_start(outcomes: Seq<bool>) -> bool {
    forall|i: int| 0 <= i < outcomes.len() && i != 4 ==> outcomes[i]
}

/// The lock step was handed out and reported as successful.
pub open spec fn lock_taken(steps: Seq<Step>, outcomes: Seq<bool>) -> bool {
    steps.len() > 2 && steps[1] == Step::Lock && outcomes.len() > 1 && outcomes[1]
}

spec fn run_invariant(
    ignore_runtime: bool,
    emit_events: bool,
    outcomes: Seq<bool>,
    p: Phase,
    steps: Seq<Step>,
) -> bool {
    let ok = all_ok_but_payload_start(outcomes);
    &&& steps.len() >= 1
    &&& steps[0] == Step::CreateFile
    &&& (!(p is Done) ==> steps.len() == outcomes.len() + 1 && steps.len() <= 10)
    &&& steps.len() <= 11
    &&& (p is Done ==> steps.len() <= outcomes.len() + 1 && is_terminal(steps.last()))
    &&& forall|j: int|
        0 <= j < steps.len() && #[trigger] steps[j] == Step::StartPayloadEntry ==> j == 4 && steps.take(4)
            == happy_path().take(4) && outcomes[2] && outcomes[3]
    &&& forall|j: int|
        0 <= j < steps.len() && #[trigger] steps[j] == Step::CopyInput ==> j == 5 && steps[4]
            == Step::StartPayloadEntry
    &&& forall|j: int|
        0 <= j < steps.len() && #[trigger] steps[j] == Step::WriteEvent ==> j == 7 && ignore_runtime
            && emit_events
    &&& match p {
        Phase::Creating => steps == happy_path().take(1) && ok,
        Phase::Locking => steps == happy_path().take(2) && ok,
        Phase::StartingMetadata => steps == happy_path().take(3) && ok,
        Phase::WritingMetadata => steps == happy_path().take(4) && ok,
        Phase::StartingPayload => steps == happy_path().take(5) && ok,
        Phase::Copying => steps == happy_path().take(6) && ok,
        Phase::Flushing => steps == happy_path() && ok,
        Phase::WritingEvent => steps == happy_path().push(Step::WriteEvent) && ok
            && ignore_runtime && emit_events,
        Phase::Finishing(t) => {
            &&& is_terminal(t)
            &&& steps.len() <= 9
            &&& steps.last() == Step::Finish
            &&& lock_taken(steps, outcomes)
            &&& t == Step::Exit(EXIT_SUCCESS) ==> steps == success_steps(
                ignore_runtime,
                emit_events,
            ).drop_last().drop_last() && ok
        },
        Phase::Unlocking(t) => {
            &&& is_terminal(t)
            &&& steps.last() == Step::Unlock
            &&& lock_taken(steps, outcomes)
            &&& t == Step::Exit(EXIT_SUCCESS) ==> steps == success_steps(
                ignore_runtime,
                emit_events,
            ).drop_last() && ok
        },
        Phase::Done => {
            &&& lock_taken(steps, outcomes) ==> steps[steps.len() - 2] == Step::Unlock
            &&& steps.last() == Step::Exit(EXIT_SUCCESS) ==> steps == success_steps(
                ignore_runtime,
                emit_events,
            ) && all_ok_but_payload_start(outcomes.take(steps.len() - 1))
        },
    }
}

proof fn lemma_run_invariant(ignore_runtime: bool, emit_events: bool, outcomes: Seq<bool>)
    ensures
        run_invariant(
            ignore_runtime,
            emit_events,
            outcomes,
            run(ignore_runtime, emit_events, outcomes).0,
            run(ignore_runtime, emit_events, outcomes).1,
        ),
    decreases outcomes.len(),
{
    let ig = ignore_runtime;
    let em = emit_events;
    if outcomes.len() == 0 {
        assert(happy_path().take(1) =~= seq![Step::CreateFile]);
    } else {
        let prev = outcomes.drop_last();
        lemma_run_invariant(ig, em, prev);
        let (p, steps) = run(ig, em, prev);
        let ok = outcomes.last();
        assert(outcomes =~= prev.push(ok));
        if !(p is Done) {
            lemma_invariant_step(ig, em, prev, ok, p, steps);
        } else {
            assert forall|i: int| 0 <= i < prev.len() implies outcomes[i] == prev[i] by {}
            assert(outcomes.take(steps.len() - 1) =~= prev.take(steps.len() - 1));
        }
    }
}

#[verifier::spinoff_prover]
#[verifier::rlimit(60)]
proof fn lemma_invariant_step(
    ig: bool,
    em: bool,
    prev: Seq<bool>,
    ok: bool,
    p: Phase,
    steps: Seq<Step>,
)
    requires
        run_invariant(ig, em, prev, p, steps),
        !(p is Done),
    ensures
        run_invariant(
            ig,
            em,
            prev.push(ok),
            transition(ig, em, p, ok).0,
            steps.push(transition(ig, em, p, ok).1),
        ),
{
    let outcomes = prev.push(ok);
    let (q, s) = transition(ig, em, p, ok);
    let next = steps.push(s);
    assert forall|i: int| 0 <= i < prev.len() implies outcomes[i] == prev[i] by {}
    assert(forall|j: int| 0 <= j < steps.len() ==> next[j] == steps[j]);
    assert(next.last() == s);
    if steps.len() >= 4 {
        assert(next.take(4) =~= steps.take(4));
    }
    match p {
        Phase::Creating => {
            if ok {
                assert(next =~= happy_path().take(2));
            }
        },
        Phase::Locking => {
            if ok {
                assert(next =~= happy_path().take(3));
            }
        },
        Phase::StartingMetadata => {
            if ok {
                assert(next =~= happy_path().take(4));
            }
        },
        Phase::WritingMetadata => {
            if ok {
                assert(next =~= happy_path().take(5));
                assert(next.take(4) =~= happy_path().take(4));
            }
        },
        Phase::StartingPayload => {
            assert(next =~= happy_path().take(6));
        },
        Phase::Copying => {
            if ok {
                assert(next =~= happy_path().take(7));
                assert(happy_path().take(7) =~= happy_path());
            }
        },
        Phase::Flushing => {
            if ok && !(ig && em) {
                assert(success_steps(ig, em).drop_last().drop_last() =~= happy_path().push(
                    Step::Finish,
                ));
            }
        },
        Phase::WritingEvent => {
            assert(success_steps(ig, em).drop_last().drop_last() =~= happy_path().push(
                Step::WriteEvent,
            ).push(Step::Finish));
        },
        Phase::Finishing(t) => {
            assert(success_steps(ig, em).drop_last() =~= success_steps(
                ig,
                em,
            ).drop_last().drop_last().push(Step::Unlock));
        },
        Phase::Unlocking(t) => {
            assert(success_steps(ig, em) =~= success_steps(ig, em).drop_last().push(
                Step::Exit(EXIT_SUCCESS),
            ));
            assert(outcomes.take(next.len() - 1) =~= outcomes);
        },
        Phase::Done => {},
    }
}

/// Computes `transition`.
pub fn next_step(ignore_runtime: bool, emit_events: bool, p: Phase, ok: bool) -> (r: (Phase, Step))
    requires
        !(p is Done),
    ensures
        r == transition(ignore_runtime, emit_events, p, ok),
{
    match p {
        Phase::Creating => if ok {
            (Phase::Locking, Step::Lock)
        } else {
            (Phase::Done, Step::Exit(EXIT_FAILURE))
        },
        Phase::Locking => if ok {
            (Phase::StartingMetadata, Step::StartMetadataEntry)
        } else {
            (Phase::Done, Step::Fail(Failure::Lock))
        },
        Phase::StartingMetadata => if ok {
            (Phase::WritingMetadata, Step::WriteMetadata)
        } else {
            (Phase::Finishing(Step::Exit(EXIT_FAILURE)), Step::Finish)
        },
        Phase::WritingMetadata => if ok {
            (Phase::StartingPayload, Step::StartPayloadEntry)
        } else {
            (Phase::Finishing(Step::Exit(EXIT_FAILURE)), Step::Finish)
        },
        Phase::StartingPayload => (Phase::Copying, Step::CopyInput),
        Phase::Copying => if ok {
            (Phase::Flushing, Step::Flush)
        } else {
            (Phase::Unlocking(Step::Exit(EXIT_FAILURE)), Step::Unlock)
        },
        Phase::Flushing => if !ok {
            (Phase::Unlocking(Step::Fail(Failure::Flush)), Step::Unlock)
        } else if ignore_runtime && emit_events {
            (Phase::WritingEvent, Step::WriteEvent)
        } else {
            (Phase::Finishing(Step::Exit(EXIT_SUCCESS)), Step::Finish)
        },
        Phase::WritingEvent => if ok {
            (Phase::Finishing(Step::Exit(EXIT_SUCCESS)), Step::Finish)
        } else {
            (Phase::Finishing(Step::Fail(Failure::Event)), Step::Finish)
        },
        Phase::Finishing(t) => if ok {
            (Phase::Unlocking(t), Step::Unlock)
        } else {
            (Phase::Unlocking(Step::Fail(Failure::Finish)), Step::Unlock)
        },
        Phase::Unlocking(t) => if ok {
            (Phase::Done, t)
        } else {
            (Phase::Done, Step::Fail(Failure::Unlock))
        },
        Phase::Done => (Phase::Done, Step::Fail(Failure::Unlock)),
    }
}

/// One composition job: the machine, with the outcomes reported so far.
pub struct Composer {
    ignore_runtime: bool,
    emit_events: bool,
    phase: Phase,
    reported: Ghost<Seq<bool>>,
}

impl Composer {
    /// Whether the container-runtime lookup is skipped.
    pub closed spec fn ignores_runtime(&self) -> bool {
        self.ignore_runtime
    }

    /// Whether a crash event record is wanted.
    pub closed spec fn emits_events(&self) -> bool {
        self.emit_events
    }

    /// The outcomes reported so far, one per step handed out and finished.
    pub closed spec fn outcomes(&self) -> Seq<bool> {
        self.reported@
    }

    pub closed spec fn wf(&self) -> bool {
        self.phase == run(self.ignore_runtime, self.emit_events, self.reported@).0
    }

    /// Every step handed out so far, the first included.
    pub open spec fn issued(&self) -> Seq<Step> {
        run(self.ignores_runtime(), self.emits_events(), self.outcomes()).1
    }

    /// Whether a terminal step has been handed out.
    pub open spec fn is_done(&self) -> bool {
        run(self.ignores_runtime(), self.emits_events(), self.outcomes()).0 is Done
    }

    /// Starts a job; the first step is always to create the destination file.
    pub fn new(ignore_runtime: bool, emit_events: bool) -> (r: (Composer, Step))
        ensures
            r.0.wf(),
            r.0.ignores_runtime() == ignore_runtime,
            r.0.emits_events() == emit_events,
            r.0.outcomes() == Seq::<bool>::empty(),
            r.0.issued() == seq![r.1],
            r.1 == Step::CreateFile,
            !r.0.is_done(),
    {
        let c = Composer {
            ignore_runtime,
            emit_events,
            phase: Phase::Creating,
            reported: Ghost(Seq::empty()),
        };
        (c, Step::CreateFile)
    }

    /// Whether the job has ended.
    pub fn finished(&self) -> (r: bool)
        requires
            self.wf(),
        ensures
            r == self.is_done(),
    {
        match self.phase {
            Phase::Done => true,
            _ => false,
        }
    }

    /// Reports whether the last step handed out succeeded, and returns the
    /// next step.
    pub fn advance(&mut self, ok: bool) -> (s: Step)
        requires
            old(self).wf(),
            !old(self).is_done(),
        ensures
            final(self).wf(),
            final(self).ignores_runtime() == old(self).ignores_runtime(),
            final(self).emits_events() == old(self).emits_events(),
            final(self).outcomes() == old(self).outcomes().push(ok),
            final(self).issued() == old(self).issued().push(s),
            final(self).is_done() == is_terminal(s),
    {
        let (q, s) = next_step(self.ignore_runtime, self.emit_events, self.phase, ok);
        let ghost before = self.reported@;
        self.reported = Ghost(before.push(ok));
        self.phase = q;
        proof {
            assert(self.reported@.drop_last() =~= before);
            lemma_run_invariant(self.ignore_runtime, self.emit_events, before);
        }
        s
    }
}

/// The steps handed out for the given outcomes.
pub open spec fn steps_of(ignore_runtime: bool, emit_events: bool, outcomes: Seq<bool>) -> Seq<
    Step,
> {
    run(ignore_runtime, emit_events, outcomes).1
}

/// The job has handed out its terminal step.
pub open spec fn ended(ignore_runtime: bool, emit_events: bool, outcomes: Seq<bool>) -> bool {
    run(ignore_runtime, emit_events, outcomes).0 is Done
}

/// The job has ended with `EXIT_SUCCESS`.
pub open spec fn succeeded(ignore_runtime: bool, emit_events: bool, outcomes: Seq<bool>) -> bool {
    ended(ignore_runtime, emit_events, outcomes) && steps_of(
        ignore_runtime,
        emit_events,
        outcomes,
    ).last() == Step::Exit(EXIT_SUCCESS)
}

/// Every job ends within eleven steps: at most ten are handed out before
/// the terminal one.
pub proof fn lemma_job_is_short(ignore_runtime: bool, emit_events: bool, outcomes: Seq<bool>)
    ensures
        steps_of(ignore_runtime, emit_events, outcomes).len() <= 11,
        !ended(ignore_runtime, emit_events, outcomes) ==> steps_of(
            ignore_runtime,
            emit_events,
            outcomes,
        ).len() <= 10,
{
    lemma_run_invariant(ignore_runtime, emit_events, outcomes);
}

/// A job that ends with `EXIT_SUCCESS` has handed out exactly the success
/// sequence: create, lock, the metadata entry and its bytes, the payload
/// entry, the copy of the input, the flush, the event record when wanted,
/// the trailer, the unlock and the exit; and every one of those steps
/// succeeded, except perhaps the start of the payload entry.
pub proof fn lemma_success_sequence(ignore_runtime: bool, emit_events: bool, outcomes: Seq<bool>)
    requires
        succeeded(ignore_runtime, emit_events, outcomes),
    ensures
        steps_of(ignore_runtime, emit_events, outcomes) == success_steps(
            ignore_runtime,
            emit_events,
        ),
        forall|i: int|
            0 <= i < success_steps(ignore_runtime, emit_events).len() - 1 && i != 4 ==> outcomes[i],
{
    lemma_run_invariant(ignore_runtime, emit_events, outcomes);
    let n = success_steps(ignore_runtime, emit_events).len() - 1;
    assert forall|i: int| 0 <= i < n && i != 4 implies outcomes[i] by {
        assert(outcomes.take(n)[i] == outcomes[i]);
    }
}

/// A successful job whose payload entry was started writes exactly two
/// entries into the archive: the metadata entry, filled with the metadata
/// document, and then the payload entry, filled with the whole input; the
/// archive's trailer is written afterwards.
pub proof fn lemma_success_writes_two_entries(
    ignore_runtime: bool,
    emit_events: bool,
    outcomes: Seq<bool>,
)
    requires
        succeeded(ignore_runtime, emit_events, outcomes),
        outcomes.len() > 4 && outcomes[4],
    ensures
        ({
            let steps = steps_of(ignore_runtime, emit_events, outcomes);
            &&& forall|j: int|
                0 <= j < steps.len() && (#[trigger] steps[j] == Step::StartMetadataEntry
                    || steps[j] == Step::StartPayloadEntry) ==> j == 2 || j == 4
            &&& steps[2] == Step::StartMetadataEntry && outcomes[2]
            &&& steps[3] == Step::WriteMetadata && outcomes[3]
            &&& steps[4] == Step::StartPayloadEntry && outcomes[4]
            &&& steps[5] == Step::CopyInput && outcomes[5]
            &&& forall|j: int| 0 <= j < steps.len() && #[trigger] steps[j] == Step::CopyInput ==> j == 5
            &&& exists|j: int| 5 < j < steps.len() - 1 && steps[j] == Step::Finish && outcomes[j]
        }),
{
    lemma_success_sequence(ignore_runtime, emit_events, outcomes);
    let steps = steps_of(ignore_runtime, emit_events, outcomes);
    let j = steps.len() - 3;
    assert(steps[j] == Step::Finish);
}

/// In every job, whatever the outcomes, the payload entry is only ever
/// started as the fifth step, after the metadata entry was started and its
/// document written, both successfully.
pub proof fn lemma_metadata_precedes_payload(
    ignore_runtime: bool,
    emit_events: bool,
    outcomes: Seq<bool>,
)
    ensures
        ({
            let steps = steps_of(ignore_runtime, emit_events, outcomes);
            forall|j: int|
                0 <= j < steps.len() && #[trigger] steps[j] == Step::StartPayloadEntry ==> {
                    &&& j == 4
                    &&& steps[2] == Step::StartMetadataEntry && outcomes[2]
                    &&& steps[3] == Step::WriteMetadata && outcomes[3]
                }
        }),
{
    lemma_run_invariant(ignore_runtime, emit_events, outcomes);
    let steps = steps_of(ignore_runtime, emit_events, outcomes);
    assert forall|j: int|
        0 <= j < steps.len() && #[trigger] steps[j] == Step::StartPayloadEntry implies steps[2]
        == Step::StartMetadataEntry && steps[3] == Step::WriteMetadata by {
        assert(steps.take(4)[2] == steps[2]);
        assert(steps.take(4)[3] == steps[3]);
    }
}

/// In every job, whatever the outcomes, the input stream is only ever
/// copied as the sixth step, right after the payload entry was started, and
/// so only after the metadata entry was started and its document written,
/// both successfully.
pub proof fn lemma_input_read_after_metadata(
    ignore_runtime: bool,
    emit_events: bool,
    outcomes: Seq<bool>,
)
    ensures
        ({
            let steps = steps_of(ignore_runtime, emit_events, outcomes);
            forall|j: int|
                0 <= j < steps.len() && #[trigger] steps[j] == Step::CopyInput ==> {
                    &&& j == 5
                    &&& steps[4] == Step::StartPayloadEntry
                    &&& steps[2] == Step::StartMetadataEntry && outcomes[2]
                    &&& steps[3] == Step::WriteMetadata && outcomes[3]
                }
        }),
{
    lemma_run_invariant(ignore_runtime, emit_events, outcomes);
    let steps = steps_of(ignore_runtime, emit_events, outcomes);
    assert forall|j: int|
        0 <= j < steps.len() && #[trigger] steps[j] == Step::CopyInput implies steps[2]
        == Step::StartMetadataEntry && steps[3] == Step::WriteMetadata && outcomes[2]
        && outcomes[3] by {
        assert(steps[4] == Step::StartPayloadEntry);
        assert(steps.take(4)[2] == steps[2]);
        assert(steps.take(4)[3] == steps[3]);
    }
}

/// Once the lock has been taken, every way a job ends releases it first:
/// the step just before the terminal step is the unlock.
pub proof fn lemma_lock_released_at_end(ignore_runtime: bool, emit_events: bool, outcomes: Seq<bool>)
    requires
        ended(ignore_runtime, emit_events, outcomes),
        lock_taken(steps_of(ignore_runtime, emit_events, outcomes), outcomes),
    ensures
        ({
            let steps = steps_of(ignore_runtime, emit_events, outcomes);
            steps[steps.len() - 2] == Step::Unlock && is_terminal(steps.last())
        }),
{
    lemma_run_invariant(ignore_runtime, emit_events, outcomes);
}

/// With the runtime lookup skipped and event emission on, a successful job
/// writes the event record exactly once.
pub proof fn lemma_event_written_once(outcomes: Seq<bool>)
    requires
        succeeded(true, true, outcomes),
    ensures
        ({
            let steps = steps_of(true, true, outcomes);
            &&& exists|j: int| 0 <= j < steps.len() && steps[j] == Step::WriteEvent
            &&& forall|j: int, k: int|
                0 <= j < steps.len() && 0 <= k < steps.len() && #[trigger] steps[j]
                    == Step::WriteEvent && #[trigger] steps[k] == Step::WriteEvent ==> j == k
        }),
{
    lemma_run_invariant(true, true, outcomes);
    lemma_success_sequence(true, true, outcomes);
    assert(steps_of(true, true, outcomes)[7] == Step::WriteEvent);
}

/// In every job, whatever the outcomes, the event record is written at most
/// once, and only when the runtime lookup is skipped and emission is on.
pub proof fn lemma_event_at_most_once(ignore_runtime: bool, emit_events: bool, outcomes: Seq<bool>)
    ensures
        ({
            let steps = steps_of(ignore_runtime, emit_events, outcomes);
            forall|j: int, k: int|
                0 <= j < steps.len() && 0 <= k < steps.len() && #[trigger] steps[j]
                    == Step::WriteEvent && #[trigger] steps[k] == Step::WriteEvent ==> j == k
                    && ignore_runtime && emit_events
        }),
{
    lemma_run_invariant(ignore_runtime, emit_events, outcomes);
}

/// With event emission off, no job writes an event record, whatever the
/// outcomes.
pub proof fn lemma_no_event_without_emission(ignore_runtime: bool, outcomes: Seq<bool>)
    ensures
        forall|j: int|
            0 <= j < steps_of(ignore_runtime, false, outcomes).len() ==> #[trigger] steps_of(
                ignore_runtime,
                false,
                outcomes,
            )[j] != Step::WriteEvent,
{
    lemma_run_invariant(ignore_runtime, false, outcomes);
}

} // verus!
