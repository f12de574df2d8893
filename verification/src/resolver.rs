//! The completion resolver: resumes the waiting workflow and records what
//! became of the worker.
//!
//! Completion arrives as two separate events, and each has its own
//! operation here. [`resolve_workflow`] forwards a completion signal to the
//! workflow engine under the signal's token. [`mark_worker_status`]
//! overwrites a worker's status, whatever it was. Nothing ties the two
//! together: the status of any worker can be set at any time, which also
//! serves an operator who returns a faulted worker to service.

use vstd::prelude::*;
use crate::dispatcher::{is_dispatch_of, Publication};
use crate::registry::{
    answer_to_write, is_idle_in, table_after_write, MemoryRegistry, RegistryError, StatusWrite,
    WriteOutcome,
};
use crate::status::WorkerStatus;

verus! {

/// How a task ended.
#[derive(Clone, Copy, Debug, PartialEq, Eq, Structural)]
pub enum Outcome {
    Success,
    Failure,
}

/// The event that reports the end of a task.
#[derive(Debug)]
pub struct CompletionSignal {
    pub continuation_token: String,
    pub outcome: Outcome,
}

/// The call that tells the workflow engine of a success.
#[derive(Debug)]
pub struct TaskSuccess {
    pub task_token: String,
    /// The JSON document handed to the workflow as the task's output.
    pub output: String,
}

/// How the workflow engine answered a [`TaskSuccess`].
#[derive(Clone, Copy, Debug, PartialEq, Eq, Structural)]
pub enum EngineReply {
    Accepted,
    /// The engine does not know the token, or no longer waits on it.
    Rejected,
}

/// Why a completion did not resume its workflow as a success.
#[derive(Clone, Copy, Debug, PartialEq, Eq, Structural)]
pub enum ResolveError {
    /// The signal reports a failed task. The engine has no call for that:
    /// the caller learns of the failure through this error.
    TaskFailed,
    /// The engine rejected the token.
    Rejected,
}

/// The output handed to the workflow for every successful task.
pub open spec fn success_output() -> Seq<char> {
    "{\"info\":\"Successfully made smoothie!\"}"@
}

/// What a completion under `token` with `outcome` asks of the engine: the
/// token and output of the success call, or the error that stands for a
/// failed task.
pub open spec fn resolution_of(token: Seq<char>, outcome: Outcome) -> Result<
    (Seq<char>, Seq<char>),
    ResolveError,
> {
    match outcome {
        Outcome::Success => Ok((token, success_output())),
        Outcome::Failure => Err(ResolveError::TaskFailed),
    }
}

/// What a resolution comes to once the engine has answered.
pub open spec fn engine_verdict(reply: EngineReply) -> Result<(), ResolveError> {
    match reply {
        EngineReply::Accepted => Ok(()),
        EngineReply::Rejected => Err(ResolveError::Rejected),
    }
}

/// What marking a worker comes to once the registry has answered.
pub open spec fn status_write_verdict(outcome: WriteOutcome) -> Result<(), RegistryError> {
    match outcome {
        WriteOutcome::Applied => Ok(()),
        WriteOutcome::ConflictOrMissing => Err(RegistryError::WriteRefused),
        WriteOutcome::StoreFailed => Err(RegistryError::WriteFailed),
    }
}

/// Turns a completion signal into the call to the workflow engine. The
/// token is passed on untouched. A signal is forwarded every time it
/// arrives: telling duplicates apart is the engine's business.
pub fn resolve_workflow(signal: &CompletionSignal) -> (call: Result<TaskSuccess, ResolveError>)
    ensures
        match call {
            Ok(success) => resolution_of(signal.continuation_token@, signal.outcome) == Ok::<
                (Seq<char>, Seq<char>),
                ResolveError,
            >((success.task_token@, success.output@)),
            Err(error) => resolution_of(signal.continuation_token@, signal.outcome) == Err::<
                (Seq<char>, Seq<char>),
                ResolveError,
            >(error),
        },
{
    match signal.outcome {
        Outcome::Success => Ok(
            TaskSuccess {
                task_token: signal.continuation_token.clone(),
                output: String::from_str("{\"info\":\"Successfully made smoothie!\"}"),
            },
        ),
        Outcome::Failure => Err(ResolveError::TaskFailed),
    }
}

/// Decides on the engine's answer. A rejection is reported and the call is
/// not made again.
pub fn conclude_resolve(reply: EngineReply) -> (result: Result<(), ResolveError>)
    ensures
        result == engine_verdict(reply),
{
    match reply {
        EngineReply::Accepted => Ok(()),
        EngineReply::Rejected => Err(ResolveError::Rejected),
    }
}

/// The write that sets `worker` to `status` whatever its status is now.
pub fn status_write(worker: &str, status: WorkerStatus) -> (write: StatusWrite)
    ensures
        write.worker@ == worker@,
        write.expected is None,
        write.status == status,
{
    StatusWrite { worker: String::from_str(worker), expected: None, status }
}

/// Decides on the registry's answer to a status write.
pub fn conclude_status_write(outcome: WriteOutcome) -> (result: Result<(), RegistryError>)
    ensures
        result == status_write_verdict(outcome),
{
    match outcome {
        WriteOutcome::Applied => Ok(()),
        WriteOutcome::ConflictOrMissing => Err(RegistryError::WriteRefused),
        WriteOutcome::StoreFailed => Err(RegistryError::WriteFailed),
    }
}

/// Sets the status of `worker` in `registry`.
///
/// A worker that has a row reads `status` afterwards and no other row has
/// changed. A worker without a row is refused and the registry is
/// untouched: this operation creates no workers.
pub fn mark_worker_status(registry: &mut MemoryRegistry, worker: &str, status: WorkerStatus) -> (result:
    Result<(), RegistryError>)
    ensures
        match result {
            Ok(()) => {
                &&& old(registry)@.contains_key(worker@)
                &&& final(registry)@ == old(registry)@.insert(worker@, status)
            },
            Err(error) => {
                &&& error == RegistryError::WriteRefused
                &&& !old(registry)@.contains_key(worker@)
                &&& final(registry)@ == old(registry)@
            },
        },
{
    let write = status_write(worker, status);
    let outcome = registry.try_set_status(write.worker.as_str(), write.expected, write.status);
    conclude_status_write(outcome)
}

/// A token makes the round trip unaltered. The message that a dispatch
/// publishes carries the token it was given, and a completion signal that
/// brings this token back resolves under the very same token: as a success
/// call with the fixed output if the signal reports success, and as
/// `TaskFailed`, without any call, if it reports failure.
pub proof fn law_token_round_trip(
    publication: Publication,
    worker: Seq<char>,
    token: Seq<char>,
    payload: Seq<char>,
    signal: CompletionSignal,
)
    requires
        is_dispatch_of(publication, worker, token, payload),
        signal.continuation_token@ == publication.envelope.continuation_token@,
    ensures
        signal.outcome == Outcome::Success ==> resolution_of(
            signal.continuation_token@,
            signal.outcome,
        ) == Ok::<(Seq<char>, Seq<char>), ResolveError>((token, success_output())),
        signal.outcome == Outcome::Failure ==> resolution_of(
            signal.continuation_token@,
            signal.outcome,
        ) == Err::<(Seq<char>, Seq<char>), ResolveError>(ResolveError::TaskFailed),
{
}

/// An unconditional status write reaches every worker that has a row,
/// whatever it read before, and changes that row alone.
pub proof fn law_status_write_overwrites(
    table: Map<Seq<char>, WorkerStatus>,
    worker: Seq<char>,
    status: WorkerStatus,
)
    requires
        table.contains_key(worker),
    ensures
        answer_to_write(table, worker, None) == WriteOutcome::Applied,
        table_after_write(table, worker, None, status)[worker] == status,
        forall|other: Seq<char>|
            other != worker && table.contains_key(other) ==> (#[trigger] table_after_write(
                table,
                worker,
                None,
                status,
            )[other]) == table[other],
        table_after_write(table, worker, None, status).dom() == table.dom(),
{
    assert(table.insert(worker, status).dom() =~= table.dom());
}

/// A worker that was marked `Faulted` is not chosen by any later scan: a
/// scan lists idle workers only, and the worker stays out of them until it
/// is marked `Idle` again.
pub proof fn law_faulted_worker_is_not_idle(
    table: Map<Seq<char>, WorkerStatus>,
    worker: Seq<char>,
)
    ensures
        !is_idle_in(
            table_after_write(table, worker, None, WorkerStatus::Faulted),
            worker,
        ),
{
}

} // verus!
