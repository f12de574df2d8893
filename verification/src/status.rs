//! The lifecycle states of a worker and their names in the registry table.

use vstd::prelude::*;

verus! {

/// Availability of one worker, as recorded in the registry.
#[derive(Clone, Copy, Debug, PartialEq, Eq, Structural)]
pub enum WorkerStatus {
    /// Ready to take a task.
    Idle,
    /// Claimed for a task that has not completed yet.
    Busy,
    /// Out of service until an operator returns it.
    Faulted,
}

/// The status that a registry column text stands for, if any.
pub open spec fn status_named(text: Seq<char>) -> Option<WorkerStatus> {
    if text == "IDLE"@ {
        Some(WorkerStatus::Idle)
    } else if text == "WORKING"@ {
        Some(WorkerStatus::Busy)
    } else if text == "BROKEN"@ {
        Some(WorkerStatus::Faulted)
    } else {
        None
    }
}

impl WorkerStatus {
    /// The text stored in the registry's `status` column for this status.
    pub open spec fn wire_text(self) -> Seq<char> {
        match self {
            WorkerStatus::Idle => "IDLE"@,
            WorkerStatus::Busy => "WORKING"@,
            WorkerStatus::Faulted => "BROKEN"@,
        }
    }

    /// Whether the protocol itself ever moves a worker from `self` to `next`:
    /// an assignment claims an idle worker, a completion frees a busy one,
    /// and a diagnosis may fault an idle or busy one. Nothing leaves
    /// `Faulted` without an operator.
    pub open spec fn may_become(self, next: WorkerStatus) -> bool {
        match (self, next) {
            (WorkerStatus::Idle, WorkerStatus::Busy) => true,
            (WorkerStatus::Busy, WorkerStatus::Idle) => true,
            (WorkerStatus::Busy, WorkerStatus::Faulted) => true,
            (WorkerStatus::Idle, WorkerStatus::Faulted) => true,
            _ => false,
        }
    }

    /// Renders the status as its registry column text.
    pub fn wire_name(&self) -> (name: String)
        ensures
            name@ == self.wire_text(),
    {
        match self {
            WorkerStatus::Idle => String::from_str("IDLE"),
            WorkerStatus::Busy => String::from_str("WORKING"),
            WorkerStatus::Faulted => String::from_str("BROKEN"),
        }
    }

    /// Reads a registry column text; anything but the three names is `None`.
    pub fn from_wire_name(text: &str) -> (status: Option<WorkerStatus>)
        ensures
            status == status_named(text@),
    {
        let given = String::from_str(text);
        if given == String::from_str("IDLE") {
            Some(WorkerStatus::Idle)
        } else if given == String::from_str("WORKING") {
            Some(WorkerStatus::Busy)
        } else if given == String::from_str("BROKEN") {
            Some(WorkerStatus::Faulted)
        } else {
            None
        }
    }

    /// The exec counterpart of [`WorkerStatus::may_become`].
    pub fn allows_transition_to(&self, next: WorkerStatus) -> (allowed: bool)
        ensures
            allowed == self.may_become(next),
    {
        match (*self, next) {
            (WorkerStatus::Idle, WorkerStatus::Busy) => true,
            (WorkerStatus::Busy, WorkerStatus::Idle) => true,
            (WorkerStatus::Busy, WorkerStatus::Faulted) => true,
            (WorkerStatus::Idle, WorkerStatus::Faulted) => true,
            _ => false,
        }
    }
}

/// Every status is read back from its own column text.
pub proof fn law_wire_name_round_trip(status: WorkerStatus)
    ensures
        status_named(status.wire_text()) == Some(status),
{
    reveal_strlit("IDLE");
    reveal_strlit("WORKING");
    reveal_strlit("BROKEN");
    assert("IDLE"@.len() == 4);
    assert("WORKING"@.len() == 7);
    assert("BROKEN"@.len() == 6);
}

} // verus!
