//! The registry of workers: a table from worker name to status.
//!
//! The production registry is a remote key-value store, reached by the
//! caller. What crosses that boundary is described here as plain values: the
//! rows a scan returned, the single-row write to perform, and how the store
//! answered it. [`MemoryRegistry`] is the same table held in memory, with
//! the store's conditional-write semantics, for single-process use.

use vstd::prelude::*;
use crate::status::WorkerStatus;

verus! {

/// What a scanned row holds under its `name` attribute.
#[derive(Debug)]
pub enum NameAttribute {
    /// The row has no `name` attribute.
    Missing,
    /// The attribute is a string: the worker's name.
    Text(String),
    /// The attribute is present but is not a string.
    NotText,
}

/// One row returned by a scan for idle workers.
#[derive(Debug)]
pub struct ScanRow {
    pub name: NameAttribute,
}

/// How the registry answered a scan for rows whose status is `IDLE`.
#[derive(Debug)]
pub enum ScanOutcome {
    /// The scan itself failed.
    Failed,
    /// The matching rows, in the order the store returned them. That order
    /// is arbitrary: it is not first-come-first-served.
    Rows(Vec<ScanRow>),
}

/// A single-row write of a worker's status.
#[derive(Debug)]
pub struct StatusWrite {
    pub worker: String,
    /// `Some(s)`: write only if the row's status is `s` now. `None`:
    /// overwrite whatever is there.
    pub expected: Option<WorkerStatus>,
    pub status: WorkerStatus,
}

/// How the registry answered a [`StatusWrite`].
#[derive(Clone, Copy, Debug, PartialEq, Eq, Structural)]
pub enum WriteOutcome {
    /// The row now holds the new status.
    Applied,
    /// Nothing was written: the worker has no row, or its status was not
    /// the expected one.
    ConflictOrMissing,
    /// The store could not be reached or reported a fault of its own.
    StoreFailed,
}

/// Why a registry operation could not be completed.
#[derive(Clone, Copy, Debug, PartialEq, Eq, Structural)]
pub enum RegistryError {
    /// The scan for idle workers failed.
    ScanFailed,
    /// The selected row has no `name` attribute.
    NameMissing,
    /// The selected row's `name` attribute is not a string.
    NameNotText,
    /// The write was refused: the worker has no row, or the row did not
    /// hold the expected status.
    WriteRefused,
    /// The store failed while writing.
    WriteFailed,
}

/// What the caller is told when a registry operation fails.
pub open spec fn registry_error_text(error: RegistryError) -> Seq<char> {
    match error {
        RegistryError::ScanFailed => "Failed to get result from table!"@,
        RegistryError::NameMissing => "No status field in row"@,
        RegistryError::NameNotText => "Could not render name as string"@,
        RegistryError::WriteRefused => "No such robot, or its status has changed; nothing was updated"@,
        RegistryError::WriteFailed =>
            "The Lambda function encountered an error and your status was not updated"@,
    }
}

impl RegistryError {
    /// The message reported to the caller for this error.
    pub fn message(&self) -> (text: String)
        ensures
            text@ == registry_error_text(*self),
    {
        match self {
            RegistryError::ScanFailed => String::from_str("Failed to get result from table!"),
            RegistryError::NameMissing => String::from_str("No status field in row"),
            RegistryError::NameNotText => String::from_str("Could not render name as string"),
            RegistryError::WriteRefused => String::from_str(
                "No such robot, or its status has changed; nothing was updated",
            ),
            RegistryError::WriteFailed => String::from_str(
                "The Lambda function encountered an error and your status was not updated",
            ),
        }
    }
}

/// Whether a write to `worker` takes effect on the table `table`.
pub open spec fn write_applies(
    table: Map<Seq<char>, WorkerStatus>,
    worker: Seq<char>,
    expected: Option<WorkerStatus>,
) -> bool {
    &&& table.contains_key(worker)
    &&& expected matches Some(status) ==> table[worker] == status
}

/// How a table that can always be reached answers a write.
pub open spec fn answer_to_write(
    table: Map<Seq<char>, WorkerStatus>,
    worker: Seq<char>,
    expected: Option<WorkerStatus>,
) -> WriteOutcome {
    if write_applies(table, worker, expected) {
        WriteOutcome::Applied
    } else {
        WriteOutcome::ConflictOrMissing
    }
}

/// The table after a write was attempted on it.
pub open spec fn table_after_write(
    table: Map<Seq<char>, WorkerStatus>,
    worker: Seq<char>,
    expected: Option<WorkerStatus>,
    status: WorkerStatus,
) -> Map<Seq<char>, WorkerStatus> {
    if write_applies(table, worker, expected) {
        table.insert(worker, status)
    } else {
        table
    }
}

/// Whether `worker` has a row in `table` that reads `Idle`.
pub open spec fn is_idle_in(table: Map<Seq<char>, WorkerStatus>, worker: Seq<char>) -> bool {
    table.contains_key(worker) && table[worker] == WorkerStatus::Idle
}

impl ScanRow {
    /// The worker that the row names, where its `name` attribute is a
    /// string.
    pub open spec fn worker(self) -> Option<Seq<char>> {
        match self.name {
            NameAttribute::Text(name) => Some(name@),
            _ => None,
        }
    }
}

/// Whether `row` names a worker that is idle in `table`.
pub open spec fn is_idle_row(row: ScanRow, table: Map<Seq<char>, WorkerStatus>) -> bool {
    row.worker() matches Some(worker) && is_idle_in(table, worker)
}

/// Whether some row of `rows` names `worker`.
pub open spec fn scan_lists(rows: Seq<ScanRow>, worker: Seq<char>) -> bool {
    exists|k: int| 0 <= k < rows.len() && (#[trigger] rows[k]).worker() == Some(worker)
}

/// Whether `rows` is what a scan for idle workers returns on `table`: every
/// row names an idle worker, every idle worker has a row, and no worker has
/// two.
pub open spec fn lists_idle_workers(
    rows: Seq<ScanRow>,
    table: Map<Seq<char>, WorkerStatus>,
) -> bool {
    &&& forall|k: int| 0 <= k < rows.len() ==> is_idle_row(#[trigger] rows[k], table)
    &&& forall|worker: Seq<char>| #[trigger]
        is_idle_in(table, worker) ==> scan_lists(rows, worker)
    &&& forall|i: int, j: int|
        0 <= i < j < rows.len() ==> (#[trigger] rows[i]).worker() != (#[trigger] rows[j]).worker()
}

/// Whether any worker of `table` is idle.
pub open spec fn has_idle_worker(table: Map<Seq<char>, WorkerStatus>) -> bool {
    exists|worker: Seq<char>| is_idle_in(table, worker)
}

struct WorkerRecord {
    name: String,
    status: WorkerStatus,
}

spec fn names_distinct(rows: Seq<WorkerRecord>) -> bool {
    forall|i: int, j: int|
        0 <= i < j < rows.len() ==> (#[trigger] rows[i]).name@ != (#[trigger] rows[j]).name@
}

spec fn has_row(rows: Seq<WorkerRecord>, name: Seq<char>) -> bool {
    exists|i: int| 0 <= i < rows.len() && (#[trigger] rows[i]).name@ == name
}

spec fn row_of(rows: Seq<WorkerRecord>, name: Seq<char>) -> int {
    choose|i: int| 0 <= i < rows.len() && (#[trigger] rows[i]).name@ == name
}

spec fn seen_before(source: Seq<WorkerRecord>, end: int, row: ScanRow) -> bool {
    exists|j: int| 0 <= j < end && row.worker() == Some((#[trigger] source[j]).name@)
}

spec fn table_of(rows: Seq<WorkerRecord>) -> Map<Seq<char>, WorkerStatus> {
    Map::new(|name: Seq<char>| has_row(rows, name), |name: Seq<char>| rows[row_of(rows, name)].status)
}

proof fn lemma_row_found(rows: Seq<WorkerRecord>, i: int)
    requires
        names_distinct(rows),
        0 <= i < rows.len(),
    ensures
        has_row(rows, rows[i].name@),
        row_of(rows, rows[i].name@) == i,
        table_of(rows).contains_key(rows[i].name@),
        table_of(rows)[rows[i].name@] == rows[i].status,
{
    let j = row_of(rows, rows[i].name@);
    assert(rows[j].name@ == rows[i].name@);
}

/// The registry table held in memory. No two rows share a name.
pub struct MemoryRegistry {
    rows: Vec<WorkerRecord>,
}

impl View for MemoryRegistry {
    type V = Map<Seq<char>, WorkerStatus>;

    closed spec fn view(&self) -> Map<Seq<char>, WorkerStatus> {
        table_of(self.rows@)
    }
}

impl MemoryRegistry {
    #[verifier::type_invariant]
    spec fn well_formed(self) -> bool {
        names_distinct(self.rows@)
    }

    /// A registry without workers.
    pub fn new() -> (registry: MemoryRegistry)
        ensures
            registry@ == Map::<Seq<char>, WorkerStatus>::empty(),
    {
        let registry = MemoryRegistry { rows: Vec::new() };
        assert(registry@ =~= Map::<Seq<char>, WorkerStatus>::empty());
        registry
    }

    fn position(&self, name: &str) -> (found: Option<usize>)
        ensures
            match found {
                Some(i) => i < self.rows@.len() && self.rows@[i as int].name@ == name@,
                None => !has_row(self.rows@, name@),
            },
    {
        let wanted = String::from_str(name);
        let mut i: usize = 0;
        while i < self.rows.len()
            invariant
                i <= self.rows@.len(),
                wanted@ == name@,
                forall|k: int| 0 <= k < i ==> (#[trigger] self.rows@[k]).name@ != name@,
            decreases self.rows@.len() - i,
        {
            if self.rows[i].name == wanted {
                return Some(i);
            }
            i += 1;
        }
        None
    }

    /// The status recorded for `name`, or `None` if it has no row.
    pub fn status_of(&self, name: &str) -> (status: Option<WorkerStatus>)
        ensures
            status == if self@.contains_key(name@) {
                Some(self@[name@])
            } else {
                None
            },
    {
        proof {
            use_type_invariant(self);
        }
        match self.position(name) {
            Some(i) => {
                proof {
                    lemma_row_found(self.rows@, i as int);
                }
                Some(self.rows[i].status)
            },
            None => None,
        }
    }

    /// Adds a worker with the given status. A name that already has a row
    /// is left as it is, and `false` is returned.
    pub fn provision(&mut self, name: &str, status: WorkerStatus) -> (added: bool)
        ensures
            added == !old(self)@.contains_key(name@),
            final(self)@ == if added {
                old(self)@.insert(name@, status)
            } else {
                old(self)@
            },
    {
        proof {
            use_type_invariant(&*self);
        }
        match self.position(name) {
            Some(_) => false,
            None => {
                let ghost before = self.rows@;
                let mut rows: Vec<WorkerRecord> = Vec::new();
                std::mem::swap(&mut rows, &mut self.rows);
                rows.push(WorkerRecord { name: String::from_str(name), status });
                proof {
                    let after = rows@;
                    assert(names_distinct(after));
                    assert forall|n: Seq<char>| has_row(after, n) <==> (n == name@ || has_row(
                        before,
                        n,
                    )) by {
                        if has_row(before, n) {
                            let k = row_of(before, n);
                            assert(after[k].name@ == n);
                        }
                        if n == name@ {
                            assert(after[before.len() as int].name@ == n);
                        }
                        if has_row(after, n) && n != name@ {
                            let k = row_of(after, n);
                            assert(before[k].name@ == n);
                        }
                    }
                    assert forall|n: Seq<char>| has_row(after, n) implies table_of(after)[n] == (
                    if n == name@ {
                        status
                    } else {
                        table_of(before)[n]
                    }) by {
                        let k = row_of(after, n);
                        if n != name@ {
                            assert(before[k].name@ == n);
                            lemma_row_found(before, k);
                        }
                    }
                    assert(table_of(after) =~= table_of(before).insert(name@, status));
                }
                self.rows = rows;
                true
            },
        }
    }

    /// Any one worker whose status reads `Idle`, or `None` if there is
    /// none. Which of several idle workers is returned is arbitrary.
    pub fn find_one_idle_worker(&self) -> (found: Option<String>)
        ensures
            found matches Some(name) ==> is_idle_in(self@, name@),
            found is None <==> !has_idle_worker(self@),
    {
        proof {
            use_type_invariant(self);
        }
        let mut i: usize = 0;
        while i < self.rows.len()
            invariant
                i <= self.rows@.len(),
                names_distinct(self.rows@),
                forall|k: int| 0 <= k < i ==> (#[trigger] self.rows@[k]).status != WorkerStatus::Idle,
            decreases self.rows@.len() - i,
        {
            if self.rows[i].status == WorkerStatus::Idle {
                proof {
                    lemma_row_found(self.rows@, i as int);
                    assert(is_idle_in(self@, self.rows@[i as int].name@));
                }
                return Some(self.rows[i].name.clone());
            }
            i += 1;
        }
        proof {
            assert forall|n: Seq<char>| !is_idle_in(self@, n) by {
                if has_row(self.rows@, n) {
                    let k = row_of(self.rows@, n);
                    assert(self.rows@[k].status != WorkerStatus::Idle);
                }
            }
        }
        None
    }

    /// The rows whose status reads `Idle`, as a scan of the table returns
    /// them: one row for each idle worker, and no other row.
    pub fn scan_idle(&self) -> (scan: ScanOutcome)
        ensures
            scan matches ScanOutcome::Rows(rows) && lists_idle_workers(rows@, self@),
    {
        proof {
            use_type_invariant(self);
        }
        let mut rows: Vec<ScanRow> = Vec::new();
        let mut i: usize = 0;
        while i < self.rows.len()
            invariant
                i <= self.rows@.len(),
                names_distinct(self.rows@),
                forall|k: int|
                    0 <= k < rows@.len() ==> is_idle_row(#[trigger] rows@[k], self@),
                forall|k: int|
                    0 <= k < rows@.len() ==> seen_before(
                        self.rows@,
                        i as int,
                        #[trigger] rows@[k],
                    ),
                forall|j: int|
                    0 <= j < i && (#[trigger] self.rows@[j]).status == WorkerStatus::Idle
                        ==> scan_lists(rows@, self.rows@[j].name@),
                forall|a: int, b: int|
                    0 <= a < b < rows@.len() ==> (#[trigger] rows@[a]).worker() != (
                    #[trigger] rows@[b]).worker(),
            decreases self.rows@.len() - i,
        {
            if self.rows[i].status == WorkerStatus::Idle {
                proof {
                    lemma_row_found(self.rows@, i as int);
                }
                let ghost earlier = rows@;
                rows.push(ScanRow { name: NameAttribute::Text(self.rows[i].name.clone()) });
                proof {
                    let last = earlier.len() as int;
                    assert(rows@[last].worker() == Some(self.rows@[i as int].name@));
                    assert forall|k: int| 0 <= k < rows@.len() implies seen_before(
                        self.rows@,
                        i + 1,
                        #[trigger] rows@[k],
                    ) by {
                        if k < last {
                            assert(rows@[k] == earlier[k]);
                            assert(seen_before(self.rows@, i as int, earlier[k]));
                            let j = choose|j: int|
                                0 <= j < i && earlier[k].worker() == Some(
                                    (#[trigger] self.rows@[j]).name@,
                                );
                            assert(self.rows@[j].name@ != self.rows@[i as int].name@);
                        }
                    }
                    assert forall|a: int, b: int| 0 <= a < b < rows@.len() implies (
                    #[trigger] rows@[a]).worker() != (#[trigger] rows@[b]).worker() by {
                        assert(rows@[a] == earlier[a]);
                        if b < last {
                            assert(rows@[b] == earlier[b]);
                        } else {
                            assert(seen_before(self.rows@, i as int, earlier[a]));
                            let j = choose|j: int|
                                0 <= j < i && earlier[a].worker() == Some(
                                    (#[trigger] self.rows@[j]).name@,
                                );
                            assert(self.rows@[j].name@ != self.rows@[i as int].name@);
                        }
                    }
                    assert forall|j: int|
                        0 <= j < i + 1 && (#[trigger] self.rows@[j]).status
                            == WorkerStatus::Idle implies scan_lists(
                        rows@,
                        self.rows@[j].name@,
                    ) by {
                        if j < i {
                            let k = choose|k: int|
                                0 <= k < earlier.len() && (#[trigger] earlier[k]).worker() == Some(
                                    self.rows@[j].name@,
                                );
                            assert(rows@[k] == earlier[k]);
                        }
                    }
                }
            } else {
                proof {
                    assert forall|k: int| 0 <= k < rows@.len() implies seen_before(
                        self.rows@,
                        i + 1,
                        #[trigger] rows@[k],
                    ) by {
                        assert(seen_before(self.rows@, i as int, rows@[k]));
                        let j = choose|j: int|
                            0 <= j < i && rows@[k].worker() == Some(
                                (#[trigger] self.rows@[j]).name@,
                            );
                        assert(0 <= j < i + 1);
                    }
                }
            }
            i += 1;
        }
        proof {
            assert forall|worker: Seq<char>| #[trigger]
                is_idle_in(self@, worker) implies scan_lists(rows@, worker) by {
                let j = row_of(self.rows@, worker);
                lemma_row_found(self.rows@, j);
            }
        }
        ScanOutcome::Rows(rows)
    }

    /// Writes `status` to the row of `name`. With `expected` given, the
    /// write takes effect only if the row holds that status now. A worker
    /// without a row is never created.
    pub fn try_set_status(
        &mut self,
        name: &str,
        expected: Option<WorkerStatus>,
        status: WorkerStatus,
    ) -> (outcome: WriteOutcome)
        ensures
            outcome == answer_to_write(old(self)@, name@, expected),
            final(self)@ == table_after_write(old(self)@, name@, expected, status),
    {
        proof {
            use_type_invariant(&*self);
        }
        match self.position(name) {
            None => WriteOutcome::ConflictOrMissing,
            Some(i) => {
                proof {
                    lemma_row_found(self.rows@, i as int);
                }
                let current = self.rows[i].status;
                let admitted = match expected {
                    Some(wanted) => current == wanted,
                    None => true,
                };
                if !admitted {
                    return WriteOutcome::ConflictOrMissing;
                }
                let ghost before = self.rows@;
                let mut rows: Vec<WorkerRecord> = Vec::new();
                std::mem::swap(&mut rows, &mut self.rows);
                rows[i].status = status;
                proof {
                    let after = rows@;
                    assert(after.len() == before.len());
                    assert forall|k: int| 0 <= k < after.len() implies (#[trigger] after[k]).name@
                        == before[k].name@ by {}
                    assert(names_distinct(after));
                    assert forall|n: Seq<char>| has_row(after, n) <==> has_row(before, n) by {
                        if has_row(before, n) {
                            let k = row_of(before, n);
                            assert(after[k].name@ == n);
                        }
                        if has_row(after, n) {
                            let k = row_of(after, n);
                            assert(before[k].name@ == n);
                        }
                    }
                    assert forall|n: Seq<char>| has_row(after, n) implies table_of(after)[n] == (
                    if n == name@ {
                        status
                    } else {
                        table_of(before)[n]
                    }) by {
                        let k = row_of(after, n);
                        lemma_row_found(after, k);
                        lemma_row_found(before, k);
                    }
                    assert(table_of(after) =~= table_of(before).insert(name@, status));
                }
                self.rows = rows;
                WriteOutcome::Applied
            },
        }
    }
}

} // verus!
