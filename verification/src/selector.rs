//! The assignment selector: finds an idle worker and claims it for a task.
//!
//! An assignment is two registry operations with a decision after each: a
//! scan for idle workers, then a conditional write that turns the chosen
//! worker from `Idle` to `Busy`. The write is conditional on the worker
//! still being idle, so of several requests that chose the same worker only
//! one can claim it; the others are told of the conflict and may start over.
//! Nothing is retried or queued here, and a failed write is not rolled back.

use vstd::prelude::*;
use crate::registry::{
    answer_to_write, has_idle_worker, is_idle_in, is_idle_row, registry_error_text, scan_lists,
    table_after_write, write_applies, MemoryRegistry, NameAttribute, RegistryError, ScanOutcome,
    StatusWrite, WriteOutcome,
};
use crate::status::WorkerStatus;

verus! {

/// A task as the caller submits it. Both fields are opaque to this library.
#[derive(Debug)]
pub struct TaskRequest {
    /// What is to be made, e.g. the name of a smoothie.
    pub payload: String,
    /// The token under which the workflow engine waits for the task.
    pub continuation_token: String,
}

/// A task together with the worker that was claimed for it.
#[derive(Debug)]
pub struct Assignment {
    pub worker: String,
    pub payload: String,
    pub continuation_token: String,
}

/// Why no worker was assigned.
#[derive(Clone, Copy, Debug, PartialEq, Eq, Structural)]
pub enum AssignError {
    /// No worker is idle. The caller decides whether to try again later.
    NoWorkerAvailable,
    /// The chosen worker was no longer idle when the claim reached the
    /// registry. The caller should run the whole assignment again.
    AssignmentConflict,
    /// The registry could not be read or written.
    Registry(RegistryError),
}

/// What the caller is told when an assignment fails.
pub open spec fn assign_error_text(error: AssignError) -> Seq<char> {
    match error {
        AssignError::NoWorkerAvailable => "No available robot"@,
        AssignError::AssignmentConflict => "The robot was claimed by another request"@,
        AssignError::Registry(inner) => registry_error_text(inner),
    }
}

impl AssignError {
    /// The message reported to the caller for this error.
    pub fn message(&self) -> (text: String)
        ensures
            text@ == assign_error_text(*self),
    {
        match self {
            AssignError::NoWorkerAvailable => String::from_str("No available robot"),
            AssignError::AssignmentConflict => String::from_str(
                "The robot was claimed by another request",
            ),
            AssignError::Registry(inner) => inner.message(),
        }
    }
}

/// The worker that a scan's answer selects: the one named by the first row.
pub open spec fn selection(scan: ScanOutcome) -> Result<Seq<char>, AssignError> {
    match scan {
        ScanOutcome::Failed => Err(AssignError::Registry(RegistryError::ScanFailed)),
        ScanOutcome::Rows(rows) => if rows@.len() == 0 {
            Err(AssignError::NoWorkerAvailable)
        } else {
            match rows@[0].name {
                NameAttribute::Missing => Err(
                    AssignError::Registry(RegistryError::NameMissing),
                ),
                NameAttribute::NotText => Err(
                    AssignError::Registry(RegistryError::NameNotText),
                ),
                NameAttribute::Text(name) => Ok(name@),
            }
        },
    }
}

/// What an assignment comes to once the registry has answered the claim.
pub open spec fn claim_verdict(outcome: WriteOutcome) -> Option<AssignError> {
    match outcome {
        WriteOutcome::Applied => None,
        WriteOutcome::ConflictOrMissing => Some(AssignError::AssignmentConflict),
        WriteOutcome::StoreFailed => Some(AssignError::Registry(RegistryError::WriteFailed)),
    }
}

/// Decides on the answer to the scan: the worker to claim, or the error
/// that ends the assignment before any write is made.
pub fn select_worker(scan: &ScanOutcome) -> (chosen: Result<String, AssignError>)
    ensures
        match chosen {
            Ok(worker) => selection(*scan) == Ok::<Seq<char>, AssignError>(worker@),
            Err(error) => selection(*scan) == Err::<Seq<char>, AssignError>(error),
        },
{
    match scan {
        ScanOutcome::Failed => Err(AssignError::Registry(RegistryError::ScanFailed)),
        ScanOutcome::Rows(rows) => {
            if rows.len() == 0 {
                return Err(AssignError::NoWorkerAvailable);
            }
            match &rows[0].name {
                NameAttribute::Missing => Err(
                    AssignError::Registry(RegistryError::NameMissing),
                ),
                NameAttribute::NotText => Err(
                    AssignError::Registry(RegistryError::NameNotText),
                ),
                NameAttribute::Text(name) => Ok(name.clone()),
            }
        },
    }
}

/// The write that claims `worker`: to `Busy`, on condition that the row
/// still reads `Idle`.
pub fn claim_write(worker: &str) -> (write: StatusWrite)
    ensures
        write.worker@ == worker@,
        write.expected == Some(WorkerStatus::Idle),
        write.status == WorkerStatus::Busy,
{
    StatusWrite {
        worker: String::from_str(worker),
        expected: Some(WorkerStatus::Idle),
        status: WorkerStatus::Busy,
    }
}

/// Decides on the registry's answer to the claim. An applied claim yields
/// the assignment, with payload and token exactly as submitted.
pub fn conclude_claim(request: &TaskRequest, worker: &str, outcome: WriteOutcome) -> (result:
    Result<Assignment, AssignError>)
    ensures
        match result {
            Ok(assignment) => {
                &&& claim_verdict(outcome) is None
                &&& assignment.worker@ == worker@
                &&& assignment.payload@ == request.payload@
                &&& assignment.continuation_token@ == request.continuation_token@
            },
            Err(error) => claim_verdict(outcome) == Some(error),
        },
{
    match outcome {
        WriteOutcome::Applied => Ok(
            Assignment {
                worker: String::from_str(worker),
                payload: request.payload.clone(),
                continuation_token: request.continuation_token.clone(),
            },
        ),
        WriteOutcome::ConflictOrMissing => Err(AssignError::AssignmentConflict),
        WriteOutcome::StoreFailed => Err(AssignError::Registry(RegistryError::WriteFailed)),
    }
}

/// Assigns `request` to an idle worker of `registry`.
///
/// Succeeds exactly when some worker is idle: that worker then reads
/// `Busy`, and no other row has changed. With no idle worker the result is
/// `NoWorkerAvailable` and the registry is untouched.
pub fn assign(registry: &mut MemoryRegistry, request: &TaskRequest) -> (result: Result<
    Assignment,
    AssignError,
>)
    ensures
        match result {
            Ok(assignment) => {
                &&& is_idle_in(old(registry)@, assignment.worker@)
                &&& final(registry)@ == old(registry)@.insert(
                    assignment.worker@,
                    WorkerStatus::Busy,
                )
                &&& assignment.payload@ == request.payload@
                &&& assignment.continuation_token@ == request.continuation_token@
            },
            Err(error) => {
                &&& error == AssignError::NoWorkerAvailable
                &&& !has_idle_worker(old(registry)@)
                &&& final(registry)@ == old(registry)@
            },
        },
{
    let scan = registry.scan_idle();
    match select_worker(&scan) {
        Err(error) => {
            proof {
                let rows = scan->Rows_0;
                if rows@.len() > 0 {
                    assert(is_idle_row(rows@[0], registry@));
                }
                assert forall|worker: Seq<char>| !is_idle_in(registry@, worker) by {
                    if is_idle_in(registry@, worker) {
                        assert(scan_lists(rows@, worker));
                    }
                }
            }
            Err(error)
        },
        Ok(worker) => {
            proof {
                let rows = scan->Rows_0;
                assert(is_idle_row(rows@[0], registry@));
            }
            let write = claim_write(worker.as_str());
            let outcome = registry.try_set_status(write.worker.as_str(), write.expected, write.status);
            conclude_claim(request, worker.as_str(), outcome)
        },
    }
}

/// The table after the registry has taken one claim for each entry of
/// `workers`, in that order.
pub open spec fn table_after_claims(
    table: Map<Seq<char>, WorkerStatus>,
    workers: Seq<Seq<char>>,
) -> Map<Seq<char>, WorkerStatus>
    decreases workers.len(),
{
    if workers.len() == 0 {
        table
    } else {
        table_after_write(
            table_after_claims(table, workers.drop_last()),
            workers.last(),
            Some(WorkerStatus::Idle),
            WorkerStatus::Busy,
        )
    }
}

/// How the registry answers the claim at position `at` of such a run.
pub open spec fn answer_to_claim(
    table: Map<Seq<char>, WorkerStatus>,
    workers: Seq<Seq<char>>,
    at: int,
) -> WriteOutcome {
    answer_to_write(
        table_after_claims(table, workers.take(at)),
        workers[at],
        Some(WorkerStatus::Idle),
    )
}

proof fn lemma_claims_in_two_runs(
    table: Map<Seq<char>, WorkerStatus>,
    head: Seq<Seq<char>>,
    tail: Seq<Seq<char>>,
)
    ensures
        table_after_claims(table, head + tail) == table_after_claims(
            table_after_claims(table, head),
            tail,
        ),
    decreases tail.len(),
{
    if tail.len() == 0 {
        assert(head + tail =~= head);
    } else {
        assert((head + tail).drop_last() =~= head + tail.drop_last());
        lemma_claims_in_two_runs(table, head, tail.drop_last());
    }
}

proof fn lemma_claims_free_no_worker(
    table: Map<Seq<char>, WorkerStatus>,
    workers: Seq<Seq<char>>,
    worker: Seq<char>,
)
    requires
        !is_idle_in(table, worker),
    ensures
        !is_idle_in(table_after_claims(table, workers), worker),
    decreases workers.len(),
{
    if workers.len() > 0 {
        lemma_claims_free_no_worker(table, workers.drop_last(), worker);
    }
}

/// However many requests race, and in whatever order the registry takes
/// their claims, no worker is claimed twice: of two claims for the same
/// worker in one run, at most one is applied.
pub proof fn law_no_worker_is_claimed_twice(
    table: Map<Seq<char>, WorkerStatus>,
    workers: Seq<Seq<char>>,
    earlier: int,
    later: int,
)
    requires
        0 <= earlier < later < workers.len(),
        workers[earlier] == workers[later],
    ensures
        !(claim_verdict(answer_to_claim(table, workers, earlier)) is None && claim_verdict(
            answer_to_claim(table, workers, later),
        ) is None),
{
    let worker = workers[earlier];
    if answer_to_claim(table, workers, earlier) == WriteOutcome::Applied {
        let through = workers.take(earlier + 1);
        assert(through.drop_last() =~= workers.take(earlier));
        assert(through.last() == worker);
        assert(!is_idle_in(table_after_claims(table, through), worker));
        let between = workers.subrange(earlier + 1, later);
        assert(workers.take(later) =~= through + between);
        lemma_claims_in_two_runs(table, through, between);
        lemma_claims_free_no_worker(table_after_claims(table, through), between, worker);
    }
}

/// Two requests chose the same worker and race to claim it. Whichever claim
/// the registry takes first decides: if the worker was idle that claim is
/// applied and the other is refused as a conflict, so the two assignments
/// never both succeed.
pub proof fn law_conditional_claim_is_exclusive(
    table: Map<Seq<char>, WorkerStatus>,
    worker: Seq<char>,
)
    ensures
        ({
            let expected = Some(WorkerStatus::Idle);
            let first = answer_to_write(table, worker, expected);
            let between = table_after_write(table, worker, expected, WorkerStatus::Busy);
            let second = answer_to_write(between, worker, expected);
            &&& !(claim_verdict(first) is None && claim_verdict(second) is None)
            &&& is_idle_in(table, worker) ==> claim_verdict(first) is None && claim_verdict(second)
                == Some(AssignError::AssignmentConflict)
        }),
{
}

/// Without the condition the race is open: two unconditional writes of
/// `Busy` to a worker that has a row are both applied.
pub proof fn law_unconditional_write_admits_double_claim(
    table: Map<Seq<char>, WorkerStatus>,
    worker: Seq<char>,
)
    requires
        table.contains_key(worker),
    ensures
        ({
            let first = answer_to_write(table, worker, None);
            let between = table_after_write(table, worker, None, WorkerStatus::Busy);
            let second = answer_to_write(between, worker, None);
            first == WriteOutcome::Applied && second == WriteOutcome::Applied
        }),
{
}

/// A claim that the registry applies moves the worker along its lifecycle,
/// from `Idle` to `Busy`, and touches no other row.
pub proof fn law_claim_follows_lifecycle(table: Map<Seq<char>, WorkerStatus>, worker: Seq<char>)
    requires
        write_applies(table, worker, Some(WorkerStatus::Idle)),
    ensures
        ({
            let after = table_after_write(
                table,
                worker,
                Some(WorkerStatus::Idle),
                WorkerStatus::Busy,
            );
            &&& table[worker].may_become(after[worker])
            &&& after[worker] == WorkerStatus::Busy
            &&& forall|other: Seq<char>|
                other != worker ==> after.contains_key(other) == table.contains_key(other) && (
                table.contains_key(other) ==> after[other] == table[other])
        }),
{
}

} // verus!
