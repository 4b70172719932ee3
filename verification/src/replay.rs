//! The replay engine's decision core: the per-item state machine, the
//! mapping from execution results to outcomes, and the end-of-batch
//! accounting.
//!
//! The unverified driver owns the shared queue, the worker tasks and the
//! database round-trips; for every statement it executes it hands the
//! target's verdict back into this module, which decides the item's
//! terminal state and the batch summary for every possible verdict.

use vstd::prelude::*;

verus! {

/// One unit of replay work: an informational label (the source file
/// path) and the statement text to execute, passed through verbatim.
pub struct WorkItem {
    pub label: String,
    pub statement: String,
}

/// The terminal verdict for one work item. Outcomes of different items
/// are independent: no outcome constrains any other.
pub enum ExecutionOutcome {
    Succeeded,
    Failed(String),
}

/// The lifecycle of one work item inside the engine:
/// `Queued -> Executing -> {Succeeded | Failed}`. The terminal states
/// are final; there is no retry transition.
pub enum ItemState {
    Queued,
    Executing,
    Succeeded,
    Failed(String),
}

impl ItemState {
    /// A state from which no further transition exists.
    pub open spec fn is_terminal(self) -> bool {
        self is Succeeded || self is Failed
    }

    /// A worker dequeued the item and is about to execute it. Only a
    /// queued item can start; in particular a terminal state never
    /// transitions again.
    pub fn start(&mut self)
        requires
            *old(self) is Queued,
        ensures
            *final(self) is Executing,
    {
        *self = ItemState::Executing;
    }

    /// The target database answered for the item; the item reaches the
    /// terminal state matching the outcome. Only an executing item can
    /// finish.
    pub fn finish(&mut self, outcome: ExecutionOutcome)
        requires
            *old(self) is Executing,
        ensures
            final(self).is_terminal(),
            outcome is Succeeded ==> *final(self) is Succeeded,
            outcome matches ExecutionOutcome::Failed(m) ==> (*final(self) matches ItemState::Failed(
                e,
            ) && e@ == m@),
    {
        match outcome {
            ExecutionOutcome::Succeeded => {
                *self = ItemState::Succeeded;
            },
            ExecutionOutcome::Failed(m) => {
                *self = ItemState::Failed(m);
            },
        }
    }
}

/// Translates the target database's verdict for one statement into the
/// item's outcome: no error means success, an error message means that
/// one item failed — and nothing more.
pub fn outcome_of(error: Option<String>) -> (o: ExecutionOutcome)
    ensures
        error is None ==> o is Succeeded,
        error matches Some(m) ==> (o matches ExecutionOutcome::Failed(e) && e@ == m@),
{
    match error {
        None => ExecutionOutcome::Succeeded,
        Some(m) => ExecutionOutcome::Failed(m),
    }
}

/// Runs every item of a batch through the state machine, given the
/// target's verdict for each (`None` for success, `Some(message)` for a
/// rejected statement): all items reach a terminal state, each matching
/// its own verdict, and one item's failure never affects another.
pub fn run_batch(items: &Vec<WorkItem>, verdicts: &Vec<Option<String>>) -> (r: Vec<ItemState>)
    requires
        items@.len() == verdicts@.len(),
    ensures
        r@.len() == items@.len(),
        forall|i: int| 0 <= i < r@.len() ==> (#[trigger] r@[i]).is_terminal(),
        forall|i: int| 0 <= i < r@.len() ==> (verdicts@[i] is None ==> #[trigger] r@[i]
            is Succeeded),
        forall|i: int|
            0 <= i < r@.len() ==> (verdicts@[i] matches Some(m) ==> (#[trigger] r@[i]
                matches ItemState::Failed(e) && e@ == m@)),
{
    let mut states: Vec<ItemState> = Vec::new();
    let mut i: usize = 0;
    while i < items.len()
        invariant
            i <= items@.len(),
            items@.len() == verdicts@.len(),
            states@.len() == i,
            forall|j: int| 0 <= j < i ==> (#[trigger] states@[j]).is_terminal(),
            forall|j: int| 0 <= j < i ==> (verdicts@[j] is None ==> #[trigger] states@[j]
                is Succeeded),
            forall|j: int|
                0 <= j < i ==> (verdicts@[j] matches Some(m) ==> (#[trigger] states@[j]
                    matches ItemState::Failed(e) && e@ == m@)),
        decreases items@.len() - i,
    {
        let mut state = ItemState::Queued;
        state.start();
        let verdict = match &verdicts[i] {
            None => None,
            Some(m) => Some(m.clone()),
        };
        state.finish(outcome_of(verdict));
        states.push(state);
        i = i + 1;
    }
    states
}

/// How many outcomes of a batch are `Succeeded`.
pub open spec fn count_succeeded(s: Seq<ExecutionOutcome>) -> nat
    decreases s.len(),
{
    if s.len() == 0 {
        0
    } else {
        count_succeeded(s.drop_last()) + if s.last() is Succeeded {
            1nat
        } else {
            0nat
        }
    }
}

/// How many outcomes of a batch are `Failed`.
pub open spec fn count_failed(s: Seq<ExecutionOutcome>) -> nat
    decreases s.len(),
{
    if s.len() == 0 {
        0
    } else {
        count_failed(s.drop_last()) + if s.last() is Failed {
            1nat
        } else {
            0nat
        }
    }
}

/// Every outcome is either a success or a failure, so the two counts
/// partition the batch.
pub proof fn lemma_outcome_counts_partition(s: Seq<ExecutionOutcome>)
    ensures
        count_succeeded(s) + count_failed(s) == s.len(),
    decreases s.len(),
{
    if s.len() > 0 {
        lemma_outcome_counts_partition(s.drop_last());
    }
}

/// Partial-failure isolation law: in a batch of K statements of which
/// exactly one failed, exactly K - 1 succeeded — a single failure costs
/// one item and nothing else.
pub proof fn lemma_partial_failure_isolation(s: Seq<ExecutionOutcome>)
    requires
        count_failed(s) == 1,
    ensures
        count_succeeded(s) == s.len() - 1,
{
    lemma_outcome_counts_partition(s);
}

/// The end-of-batch accounting visible to the operator.
pub struct BatchSummary {
    pub succeeded: usize,
    pub failed: usize,
}

/// Aggregates the outcomes of a finished batch into exact success and
/// failure counts.
pub fn summarize(outcomes: &Vec<ExecutionOutcome>) -> (r: BatchSummary)
    ensures
        r.succeeded == count_succeeded(outcomes@),
        r.failed == count_failed(outcomes@),
        r.succeeded + r.failed == outcomes@.len(),
{
    let mut succeeded: usize = 0;
    let mut failed: usize = 0;
    let mut i: usize = 0;
    while i < outcomes.len()
        invariant
            i <= outcomes@.len(),
            succeeded == count_succeeded(outcomes@.subrange(0, i as int)),
            failed == count_failed(outcomes@.subrange(0, i as int)),
            succeeded + failed == i,
        decreases outcomes@.len() - i,
    {
        proof {
            assert(outcomes@.subrange(0, i + 1 as int).drop_last() =~= outcomes@.subrange(
                0,
                i as int,
            ));
            assert(outcomes@.subrange(0, i + 1 as int).last() == outcomes@[i as int]);
            lemma_outcome_counts_partition(outcomes@.subrange(0, i + 1 as int));
        }
        match &outcomes[i] {
            ExecutionOutcome::Succeeded => {
                succeeded = succeeded + 1;
            },
            ExecutionOutcome::Failed(_) => {
                failed = failed + 1;
            },
        }
        i = i + 1;
    }
    proof {
        assert(outcomes@.subrange(0, outcomes@.len() as int) =~= outcomes@);
    }
    BatchSummary { succeeded, failed }
}

/// How one worker task ended: it drained the queue and exited normally,
/// or it failed at the worker level (it could not obtain a pooled
/// connection before the acquisition timeout).
pub enum WorkerOutcome {
    Completed,
    AcquireTimeout(String),
}

/// What a worker observed at one turn of its loop: the shared queue is
/// closed and drained, the pool refused a connection before the
/// acquisition timeout, or a statement was executed with the target's
/// verdict (`None` for success).
pub enum WorkerEvent {
    QueueClosed,
    AcquireFailed(String),
    StatementDone(Option<String>),
}

/// What the worker does next: stop with the given outcome, or record
/// the item's outcome and move on to the next item.
pub enum WorkerStep {
    Exit(WorkerOutcome),
    Record(ExecutionOutcome),
}

/// One turn of the worker loop. A drained queue ends the worker
/// normally; a failed acquisition is a worker-level failure and ends
/// it; a statement verdict — success or failure alike — is recorded and
/// the worker continues: no single statement failure ever terminates a
/// worker.
pub fn worker_step(event: WorkerEvent) -> (s: WorkerStep)
    ensures
        event is QueueClosed ==> s == WorkerStep::Exit(WorkerOutcome::Completed),
        event matches WorkerEvent::AcquireFailed(m) ==> (s matches WorkerStep::Exit(
            WorkerOutcome::AcquireTimeout(e),
        ) && e@ == m@),
        event is StatementDone ==> s is Record,
        event matches WorkerEvent::StatementDone(v) ==> (s matches WorkerStep::Record(o) && (v
            is None ==> o is Succeeded) && (v matches Some(m) ==> o matches ExecutionOutcome::Failed(
            e,
        ) && e@ == m@)),
{
    match event {
        WorkerEvent::QueueClosed => WorkerStep::Exit(WorkerOutcome::Completed),
        WorkerEvent::AcquireFailed(m) => WorkerStep::Exit(WorkerOutcome::AcquireTimeout(m)),
        WorkerEvent::StatementDone(v) => WorkerStep::Record(outcome_of(v)),
    }
}

/// Whether the run as a whole must be reported as failed: exactly when
/// some worker failed at the worker level. Statement-level failures are
/// reported in the summary but never change this verdict.
pub fn run_failed(workers: &Vec<WorkerOutcome>) -> (b: bool)
    ensures
        b <==> exists|i: int|
            0 <= i < workers@.len() && (#[trigger] workers@[i]) is AcquireTimeout,
{
    let mut i: usize = 0;
    while i < workers.len()
        invariant
            i <= workers@.len(),
            forall|j: int| 0 <= j < i ==> !((#[trigger] workers@[j]) is AcquireTimeout),
        decreases workers@.len() - i,
    {
        match &workers[i] {
            WorkerOutcome::AcquireTimeout(_) => {
                return true;
            },
            WorkerOutcome::Completed => {},
        }
        i = i + 1;
    }
    false
}

} // verus!
