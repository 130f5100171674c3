//! What holds of the sync protocol over any run of accepted requests.

use vstd::prelude::*;
use crate::crdt::clock::merged;
use crate::repository::model::{
    is_max_clock,
    lists_envelope,
    lists_id,
    lists_since,
    LogEntries,
};
use crate::services::sync::{appended, batch_id, clock_ahead};
use crate::sync::operation::{CrdtOperation, StoredOperation};

verus! {

/// An accepted request, as far as the clock and the log are concerned.
pub struct Round {
    pub client_clock: u64,
    pub device: Seq<char>,
    pub operations: Seq<CrdtOperation>,
}

/// The server clock after a run of accepted requests that began at `start`:
/// each request moves the clock past the client's and then by one for each
/// of its operations.
pub open spec fn clock_after(start: u64, rounds: Seq<Round>) -> int
    decreases rounds.len(),
{
    if rounds.len() == 0 {
        start as int
    } else {
        merged(clock_after(start, rounds.drop_last()) as u64, rounds.last().client_clock)
            + rounds.last().operations.len()
    }
}

/// Whether the counter has room for the whole run.
pub open spec fn run_fits(start: u64, rounds: Seq<Round>) -> bool
    decreases rounds.len(),
{
    rounds.len() > 0 ==> run_fits(start, rounds.drop_last()) && clock_after(start, rounds)
        <= u64::MAX
}

/// The number of operations that a run has accepted.
pub open spec fn operations_accepted(rounds: Seq<Round>) -> int
    decreases rounds.len(),
{
    if rounds.len() == 0 {
        0
    } else {
        operations_accepted(rounds.drop_last()) + rounds.last().operations.len()
    }
}

/// The sum of the steps by which the clock moved past the clients' clocks
/// on receiving the requests of a run; each such step is at least one.
pub open spec fn clock_advances(start: u64, rounds: Seq<Round>) -> int
    decreases rounds.len(),
{
    if rounds.len() == 0 {
        0
    } else {
        clock_advances(start, rounds.drop_last()) + merged(
            clock_after(start, rounds.drop_last()) as u64,
            rounds.last().client_clock,
        ) - clock_after(start, rounds.drop_last())
    }
}

/// Whether `logs` are the logs before and after each request of a run:
/// every request appends its batch, stamped from the clock that the server
/// moved to on receiving it.
pub open spec fn logs_of_run(logs: Seq<LogEntries>, start: u64, rounds: Seq<Round>) -> bool {
    &&& logs.len() == rounds.len() + 1
    &&& forall|i: int|
        0 <= i < rounds.len() ==> appended(
            logs[i],
            #[trigger] logs[i + 1],
            rounds[i].operations,
            merged(clock_after(start, rounds.take(i)) as u64, rounds[i].client_clock) as u64,
            rounds[i].device,
        )
}

/// The clock after a run is where it began, plus the advances, plus the
/// number of operations accepted.
pub proof fn lemma_clock_after_run(start: u64, rounds: Seq<Round>)
    requires
        run_fits(start, rounds),
    ensures
        clock_after(start, rounds) == start + clock_advances(start, rounds) + operations_accepted(
            rounds,
        ),
        clock_after(start, rounds) >= start + rounds.len(),
    decreases rounds.len(),
{
    if rounds.len() > 0 {
        lemma_clock_after_run(start, rounds.drop_last());
    }
}

/// After a batch of at least one operation, the largest clock of the log is
/// the clock of the batch's last operation, and the clock that follows it
/// is ahead of the log.
pub proof fn lemma_max_clock_after_batch(
    before: LogEntries,
    after: LogEntries,
    operations: Seq<CrdtOperation>,
    first_clock: u64,
    device: Seq<char>,
)
    requires
        appended(before, after, operations, first_clock, device),
        clock_ahead(before, first_clock),
        first_clock + operations.len() <= u64::MAX,
    ensures
        clock_ahead(after, (first_clock + operations.len()) as u64),
        operations.len() > 0 ==> is_max_clock(after, (first_clock + operations.len() - 1) as u64),
{
    assert forall|id: Seq<char>| #[trigger] after.contains_key(id) implies after[id].clock
        < first_clock + operations.len() by {
        if !before.contains_key(id) {
            let i = choose|i: int|
                0 <= i < operations.len() && #[trigger] batch_id(operations, first_clock, device, i)
                    == id;
        }
    }
    if operations.len() > 0 {
        let last = operations.len() - 1;
        let id = batch_id(operations, first_clock, device, last);
        assert(after.contains_key(id) && after[id].clock == first_clock + last);
    }
}

/// Every operation of an accepted batch is returned to every other device
/// that reads from the start, and to the device that sent it none of its own
/// records is returned.
pub proof fn lemma_batch_is_seen_by_others_only(
    before: LogEntries,
    after: LogEntries,
    operations: Seq<CrdtOperation>,
    first_clock: u64,
    device: Seq<char>,
    other: Seq<char>,
    read_by_other: Seq<StoredOperation>,
    read_by_device: Seq<StoredOperation>,
)
    requires
        appended(before, after, operations, first_clock, device),
        first_clock > 0,
        first_clock + operations.len() <= u64::MAX,
        other != device,
        lists_since(after, read_by_other, other, 0),
        lists_since(after, read_by_device, device, 0),
    ensures
        forall|i: int|
            0 <= i < operations.len() ==> lists_envelope(
                read_by_other,
                #[trigger] operations[i],
                (first_clock + i) as u64,
                device,
            ),
        forall|i: int|
            0 <= i < operations.len() ==> !lists_id(
                read_by_device,
                #[trigger] batch_id(operations, first_clock, device, i),
            ),
{
    assert forall|i: int| 0 <= i < operations.len() implies lists_envelope(
        read_by_other,
        #[trigger] operations[i],
        (first_clock + i) as u64,
        device,
    ) by {
        let id = batch_id(operations, first_clock, device, i);
        assert(after.contains_key(id));
        assert(lists_id(read_by_other, id));
        let j = choose|j: int|
            0 <= j < read_by_other.len() && (#[trigger] read_by_other[j]).id@ == id;
        assert(read_by_other[j] == after[id]);
    }
    assert forall|i: int| 0 <= i < operations.len() implies !lists_id(
        read_by_device,
        #[trigger] batch_id(operations, first_clock, device, i),
    ) by {
        let id = batch_id(operations, first_clock, device, i);
        if lists_id(read_by_device, id) {
            let j = choose|j: int|
                0 <= j < read_by_device.len() && (#[trigger] read_by_device[j]).id@ == id;
            assert(read_by_device[j] == after[id]);
        }
    }
}

/// Over any run of accepted requests the clock stays ahead of the log, and
/// after a request that carried operations the largest clock of the log is
/// one below the server clock: where the run began, plus the advances, plus
/// the number of operations accepted, less one.
pub proof fn lemma_max_clock_of_run(logs: Seq<LogEntries>, start: u64, rounds: Seq<Round>)
    requires
        logs_of_run(logs, start, rounds),
        clock_ahead(logs[0], start),
        run_fits(start, rounds),
    ensures
        clock_ahead(logs.last(), clock_after(start, rounds) as u64),
        rounds.len() > 0 && rounds.last().operations.len() > 0 ==> is_max_clock(
            logs.last(),
            (start + clock_advances(start, rounds) + operations_accepted(rounds) - 1) as u64,
        ),
    decreases rounds.len(),
{
    lemma_clock_after_run(start, rounds);
    if rounds.len() > 0 {
        let earlier = rounds.drop_last();
        let logs_earlier = logs.drop_last();
        assert forall|i: int| 0 <= i < earlier.len() implies appended(
            logs_earlier[i],
            #[trigger] logs_earlier[i + 1],
            earlier[i].operations,
            merged(clock_after(start, earlier.take(i)) as u64, earlier[i].client_clock) as u64,
            earlier[i].device,
        ) by {
            assert(earlier.take(i) =~= rounds.take(i));
            assert(logs_earlier[i + 1] == logs[i + 1]);
        }
        lemma_max_clock_of_run(logs_earlier, start, earlier);
        lemma_clock_after_run(start, earlier);
        let n = rounds.len() - 1;
        assert(rounds.take(n) =~= earlier);
        assert(logs_earlier.last() == logs[n]);
        assert(logs.last() == logs[n + 1]);
        let before_clock = clock_after(start, earlier) as u64;
        let first = merged(before_clock, rounds[n].client_clock) as u64;
        assert forall|id: Seq<char>| #[trigger] logs[n].contains_key(id) implies logs[n][id].clock
            < first by {}
        lemma_max_clock_after_batch(
            logs[n],
            logs[n + 1],
            rounds[n].operations,
            first,
            rounds[n].device,
        );
    }
}

/// On a server that starts without history, after a request that carried
/// operations, the largest clock of the log is the number of operations
/// accepted plus the clock's advances.
pub proof fn lemma_max_clock_of_fresh_run(logs: Seq<LogEntries>, rounds: Seq<Round>)
    requires
        logs_of_run(logs, 1, rounds),
        logs[0] == LogEntries::empty(),
        run_fits(1, rounds),
        rounds.len() > 0,
        rounds.last().operations.len() > 0,
    ensures
        is_max_clock(
            logs.last(),
            (operations_accepted(rounds) + clock_advances(1, rounds)) as u64,
        ),
{
    lemma_max_clock_of_run(logs, 1, rounds);
}

} // verus!
