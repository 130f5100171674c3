//! An operation log in memory.

use vstd::prelude::*;
use crate::time::unix_time_now;
use vstd::string::*;
use dashmap::DashMap;
use crate::error::app_error::AppError;
use crate::repository::log::OperationRepository;
use crate::repository::model::{
    ascending,
    kept,
    lists_id,
    lists_kept,
    lists_some,
    well_keyed,
    LogEntries,
};
use crate::repository::rows::{make_record_id, new_record};
use crate::repository::table::{
    lists_rows,
    table_contains,
    table_entries,
    table_insert,
    table_new,
    table_rows,
};
use crate::sync::operation::{CrdtOperation, StoredOperation};
use crate::text::same_text;

verus! {

/// The text of an optional string slice.
spec fn opt_str(value: Option<&str>) -> Option<Seq<char>> {
    match value {
        Some(s) => Some(s@),
        None => None,
    }
}

/// Whether no two records of a run have the same id.
spec fn distinct_ids(records: Seq<StoredOperation>) -> bool {
    forall|i: int, j: int|
        0 <= i < j < records.len() ==> (#[trigger] records[i]).id@ != (#[trigger] records[j]).id@
}

/// Whether `record` is among the first `count` records of a run.
spec fn holds(records: Seq<StoredOperation>, count: int, record: StoredOperation) -> bool {
    exists|i: int| 0 <= i < count && i < records.len() && #[trigger] records[i] == record
}

/// Whether two runs hold the same records, in whatever order.
spec fn same_records(a: Seq<StoredOperation>, b: Seq<StoredOperation>) -> bool {
    &&& a.len() == b.len()
    &&& forall|i: int| 0 <= i < a.len() ==> holds(b, b.len() as int, #[trigger] a[i])
    &&& forall|j: int| 0 <= j < b.len() ==> holds(a, a.len() as int, #[trigger] b[j])
}

/// Whether `id` is the key of one of the first `count` rows.
spec fn among_rows(rows: Seq<(String, StoredOperation)>, count: int, id: Seq<char>)
    -> bool {
    exists|m: int| 0 <= m < count && m < rows.len() && (#[trigger] rows[m]).0@ == id
}

fn keeps(record: &StoredOperation, device: Option<&str>, since: Option<u64>) -> (r: bool)
    ensures
        r == kept(*record, opt_str(device), since),
{
    let foreign = match device {
        Some(d) => !same_text(record.device_id.as_str(), d),
        None => true,
    };
    let later = match since {
        Some(c) => record.clock > c,
        None => true,
    };
    foreign && later
}

/// Picks the rows that a read keeps.
fn select(
    rows: &Vec<(String, StoredOperation)>,
    device: Option<&str>,
    since: Option<u64>,
    Ghost(log): Ghost<LogEntries>,
) -> (out: Vec<StoredOperation>)
    requires
        lists_rows(log, rows@),
        well_keyed(log),
    ensures
        lists_kept(log, out@, opt_str(device), since),
{
    let mut out: Vec<StoredOperation> = Vec::new();
    let mut i: usize = 0;
    while i < rows.len()
        invariant
            i <= rows@.len(),
            lists_rows(log, rows@),
            well_keyed(log),
            lists_some(log, out@),
            forall|j: int| 0 <= j < out@.len() ==> kept(#[trigger] out@[j], opt_str(device), since),
            forall|j: int|
                0 <= j < out@.len() ==> among_rows(rows@, i as int, (#[trigger] out@[j]).id@),
            forall|m: int|
                0 <= m < i && kept((#[trigger] rows@[m]).1, opt_str(device), since) ==> lists_id(
                    out@,
                    rows@[m].0@,
                ),
        decreases rows@.len() - i,
    {
        if keeps(&rows[i].1, device, since) {
            let record = rows[i].1.clone();
            let ghost before = out@;
            out.push(record);
            proof {
                assert(record == rows@[i as int].1);
                assert(record.id@ == rows@[i as int].0@);
                assert forall|a: int, b: int| 0 <= a < b < out@.len() implies (#[trigger] out@[a]).id@
                    != (#[trigger] out@[b]).id@ by {
                    if b < before.len() {
                        assert(out@[a] == before[a] && out@[b] == before[b]);
                    } else {
                        assert(out@[a] == before[a]);
                        assert(among_rows(rows@, i as int, before[a].id@));
                        let m = choose|m: int|
                            0 <= m < i && m < rows@.len() && (#[trigger] rows@[m]).0@
                                == before[a].id@;
                        assert(rows@[m].0@ != rows@[i as int].0@);
                    }
                }
                assert forall|j: int| 0 <= j < out@.len() implies among_rows(
                    rows@,
                    i + 1,
                    (#[trigger] out@[j]).id@,
                ) by {
                    if j < before.len() {
                        assert(out@[j] == before[j]);
                        assert(among_rows(rows@, i as int, before[j].id@));
                        let m = choose|m: int|
                            0 <= m < i && m < rows@.len() && (#[trigger] rows@[m]).0@
                                == before[j].id@;
                        assert(rows@[m].0@ == out@[j].id@);
                    } else {
                        assert(rows@[i as int].0@ == out@[j].id@);
                    }
                }
                assert forall|m: int|
                    0 <= m < i + 1 && kept(
                        (#[trigger] rows@[m]).1,
                        opt_str(device),
                        since,
                    ) implies lists_id(out@, rows@[m].0@) by {
                    if m < i {
                        let j = choose|j: int|
                            0 <= j < before.len() && (#[trigger] before[j]).id@ == rows@[m].0@;
                        assert(out@[j] == before[j]);
                    } else {
                        assert(out@[before.len() as int].id@ == rows@[m].0@);
                    }
                }
            }
        }
        i += 1;
    }
    proof {
        assert forall|id: Seq<char>| #[trigger]
            log.contains_key(id) && kept(log[id], opt_str(device), since) implies lists_id(
            out@,
            id,
        ) by {
            let m = choose|m: int| 0 <= m < rows@.len() && (#[trigger] rows@[m]).0@ == id;
            assert(rows@[m].1 == log[id]);
        }
    }
    out
}

/// Orders records by clock, oldest first.
fn sort_by_clock(input: Vec<StoredOperation>) -> (out: Vec<StoredOperation>)
    requires
        distinct_ids(input@),
    ensures
        ascending(out@),
        distinct_ids(out@),
        same_records(input@, out@),
{
    let mut out: Vec<StoredOperation> = Vec::new();
    let mut i: usize = 0;
    while i < input.len()
        invariant
            i <= input@.len(),
            distinct_ids(input@),
            out@.len() == i,
            ascending(out@),
            distinct_ids(out@),
            forall|j: int| 0 <= j < out@.len() ==> holds(input@, i as int, #[trigger] out@[j]),
            forall|m: int| 0 <= m < i ==> holds(out@, out@.len() as int, #[trigger] input@[m]),
        decreases input@.len() - i,
    {
        let record = input[i].clone();
        let mut p: usize = 0;
        while p < out.len() && out[p].clock <= record.clock
            invariant
                p <= out@.len(),
                forall|q: int| 0 <= q < p ==> (#[trigger] out@[q]).clock <= record.clock,
            decreases out@.len() - p,
        {
            p += 1;
        }
        let ghost before = out@;
        out.insert(p, record);
        proof {
            before.insert_ensures(p as int, record);
            assert(record == input@[i as int]);
            assert forall|q: int| 0 <= q < out@.len() implies #[trigger] out@[q] == (if q < p {
                before[q]
            } else if q == p {
                record
            } else {
                before[q - 1]
            }) by {}
            assert forall|a: int, b: int| 0 <= a < b < out@.len() implies (#[trigger] out@[a]).clock
                <= (#[trigger] out@[b]).clock by {
                if b < p {
                    assert(before[a].clock <= before[b].clock);
                } else if b == p {
                } else if a < p {
                    assert(before[a].clock <= before[b - 1].clock);
                } else if a == p {
                    assert(before[p as int].clock <= before[b - 1].clock);
                } else {
                    assert(before[a - 1].clock <= before[b - 1].clock);
                }
            }
            assert forall|j: int| 0 <= j < out@.len() implies holds(
                input@,
                i + 1,
                #[trigger] out@[j],
            ) by {
                if j == p {
                    assert(input@[i as int] == out@[j]);
                } else {
                    let old_j = if j < p {
                        j
                    } else {
                        j - 1
                    };
                    assert(holds(input@, i as int, before[old_j]));
                    let m = choose|m: int|
                        0 <= m < i && m < input@.len() && #[trigger] input@[m] == before[old_j];
                    assert(input@[m] == out@[j]);
                }
            }
            assert forall|m: int| 0 <= m < i + 1 implies holds(
                out@,
                out@.len() as int,
                #[trigger] input@[m],
            ) by {
                if m == i {
                    assert(out@[p as int] == input@[m]);
                } else {
                    assert(holds(before, before.len() as int, input@[m]));
                    let old_j = choose|j: int|
                        0 <= j < before.len() && j < before.len() && #[trigger] before[j]
                            == input@[m];
                    if old_j < p {
                        assert(out@[old_j] == input@[m]);
                    } else {
                        assert(out@[old_j + 1] == input@[m]);
                    }
                }
            }
            assert forall|a: int, b: int| 0 <= a < b < out@.len() implies (#[trigger] out@[a]).id@
                != (#[trigger] out@[b]).id@ by {
                let old_a = if a < p {
                    a
                } else {
                    a - 1
                };
                let old_b = if b < p {
                    b
                } else {
                    b - 1
                };
                if a == p {
                    assert(holds(input@, i as int, before[old_b]));
                    let m = choose|m: int|
                        0 <= m < i && m < input@.len() && #[trigger] input@[m] == before[old_b];
                    assert(input@[m].id@ != input@[i as int].id@);
                } else if b == p {
                    assert(holds(input@, i as int, before[old_a]));
                    let m = choose|m: int|
                        0 <= m < i && m < input@.len() && #[trigger] input@[m] == before[old_a];
                    assert(input@[m].id@ != input@[i as int].id@);
                } else {
                    assert(before[old_a].id@ != before[old_b].id@);
                }
            }
        }
        i += 1;
    }
    out
}

/// A reordering of a listing is a listing of the same records.
proof fn lemma_reordered_listing(
    log: LogEntries,
    input: Seq<StoredOperation>,
    out: Seq<StoredOperation>,
    device: Option<Seq<char>>,
    since: Option<u64>,
)
    requires
        lists_kept(log, input, device, since),
        same_records(input, out),
        distinct_ids(out),
    ensures
        lists_kept(log, out, device, since),
{
    assert forall|j: int| 0 <= j < out.len() implies log.contains_key((#[trigger] out[j]).id@)
        && log[out[j].id@] == out[j] && kept(out[j], device, since) by {
        assert(holds(input, input.len() as int, out[j]));
        let m = choose|m: int|
            0 <= m < input.len() && m < input.len() && #[trigger] input[m] == out[j];
    }
    assert forall|id: Seq<char>| #[trigger]
        log.contains_key(id) && kept(log[id], device, since) implies lists_id(out, id) by {
        let m = choose|m: int| 0 <= m < input.len() && (#[trigger] input[m]).id@ == id;
        assert(holds(out, out.len() as int, input[m]));
        let j = choose|j: int| 0 <= j < out.len() && j < out.len() && #[trigger] out[j] == input[m];
        assert(out[j].id@ == id);
    }
}

/// An operation log held in memory.
pub struct MockOperationRepository {
    operations: DashMap<String, StoredOperation>,
}

impl MockOperationRepository {
    /// An empty log.
    pub fn new() -> (repository: MockOperationRepository)
        ensures
            repository.entries() == LogEntries::empty(),
            well_keyed(repository.entries()),
    {
        MockOperationRepository { operations: table_new() }
    }

    fn listing(&self, device: Option<&str>, since: Option<u64>) -> (out: Vec<StoredOperation>)
        requires
            well_keyed(self.entries()),
        ensures
            ascending(out@),
            lists_kept(self.entries(), out@, opt_str(device), since),
    {
        let rows = table_rows(&self.operations);
        let picked = select(&rows, device, since, Ghost(self.entries()));
        let out = sort_by_clock(picked);
        proof {
            lemma_reordered_listing(self.entries(), picked@, out@, opt_str(device), since);
        }
        out
    }
}

impl Default for MockOperationRepository {
    fn default() -> (repository: MockOperationRepository)
        ensures
            repository.entries() == LogEntries::empty(),
    {
        MockOperationRepository::new()
    }
}

impl OperationRepository for MockOperationRepository {
    closed spec fn entries(&self) -> LogEntries {
        table_entries(self.operations)
    }

    open spec fn dependable(&self) -> bool {
        true
    }

    fn store(&mut self, operation: &CrdtOperation, clock: u64, device_id: &str) -> (r: Result<
        (),
        AppError,
    >)
    {
        let id = make_record_id(clock, device_id, operation.target_id());
        if table_contains(&self.operations, id.as_str()) {
            return Err(
                AppError::database(
                    "Failed to store CRDT operation",
                    "an operation with this id is already stored",
                ),
            );
        }
        let record = new_record(operation, clock, device_id, unix_time_now());
        table_insert(&mut self.operations, id, record);
        Ok(())
    }

    fn get_since(&self, device_id: &str, since_clock: u64) -> (r: Result<
        Vec<StoredOperation>,
        AppError,
    >)
    {
        Ok(self.listing(Some(device_id), Some(since_clock)))
    }

    fn get_recent(&self, device_id: &str, limit: i64) -> (r: Result<Vec<StoredOperation>, AppError>)
    {
        let mut sorted = self.listing(Some(device_id), None);
        let ghost all = sorted@;
        let count = sorted.len();
        if limit < 0 || limit as u64 >= count as u64 {
            return Ok(sorted);
        }
        let start = count - limit as usize;
        let recent = sorted.split_off(start);
        proof {
            let log = self.entries();
            assert forall|i: int| 0 <= i < recent@.len() implies #[trigger] recent@[i] == all[start
                + i] by {}
            assert forall|id: Seq<char>| #[trigger]
                log.contains_key(id) && kept(log[id], Some(device_id@), None) && !lists_id(
                    recent@,
                    id,
                ) implies limit >= 0 && recent@.len() == limit && forall|i: int|
                0 <= i < recent@.len() ==> log[id].clock <= (#[trigger] recent@[i]).clock by {
                let m = choose|m: int| 0 <= m < all.len() && (#[trigger] all[m]).id@ == id;
                if m >= start {
                    assert(recent@[m - start].id@ == id);
                }
                assert forall|i: int| 0 <= i < recent@.len() implies log[id].clock <= (
                #[trigger] recent@[i]).clock by {
                    assert(all[m].clock <= all[start + i].clock);
                }
            }
        }
        Ok(recent)
    }

    fn get_max_clock(&self) -> (r: Result<u64, AppError>)
    {
        let rows = table_rows(&self.operations);
        let ghost log = self.entries();
        let mut max: u64 = 0;
        let mut i: usize = 0;
        while i < rows.len()
            invariant
                i <= rows@.len(),
                lists_rows(log, rows@),
                forall|m: int| 0 <= m < i ==> (#[trigger] rows@[m]).1.clock <= max,
                max == 0 || exists|m: int| 0 <= m < i && (#[trigger] rows@[m]).1.clock == max,
            decreases rows@.len() - i,
        {
            if rows[i].1.clock > max {
                max = rows[i].1.clock;
            }
            i += 1;
        }
        proof {
            assert forall|id: Seq<char>| #[trigger] log.contains_key(id) implies log[id].clock
                <= max by {
                let m = choose|m: int| 0 <= m < rows@.len() && (#[trigger] rows@[m]).0@ == id;
            }
            if max != 0 {
                let m = choose|m: int| 0 <= m < rows@.len() && (#[trigger] rows@[m]).1.clock == max;
                assert(log.contains_key(rows@[m].0@) && log[rows@[m].0@].clock == max);
            }
        }
        Ok(max)
    }

    fn get_all(&self) -> (r: Result<Vec<StoredOperation>, AppError>)
    {
        Ok(self.listing(None, None))
    }
}

} // verus!
