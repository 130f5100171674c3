//! What holds of every operation log.

use vstd::prelude::*;
use crate::repository::model::{
    lists_envelope,
    is_max_clock,
    lists_id,
    lists_since,
    record_id,
    stored,
    LogEntries,
};
use crate::sync::operation::{CrdtOperation, StoredOperation};

verus! {

/// A record that one device has committed at a clock above zero is returned
/// to every other device that reads from the start, and it is not returned
/// to the device that it came from.
pub proof fn lemma_committed_record_is_seen_by_others_only(
    before: LogEntries,
    after: LogEntries,
    operation: CrdtOperation,
    clock: u64,
    device: Seq<char>,
    other: Seq<char>,
    read_by_other: Seq<StoredOperation>,
    read_by_device: Seq<StoredOperation>,
)
    requires
        stored(before, after, operation, clock, device),
        clock > 0,
        other != device,
        lists_since(after, read_by_other, other, 0),
        lists_since(after, read_by_device, device, 0),
    ensures
        lists_envelope(read_by_other, operation, clock, device),
        !lists_id(read_by_device, record_id(clock, device, operation.target())),
        forall|i: int|
            0 <= i < read_by_device.len() ==> (#[trigger] read_by_device[i]).device_id@ != device,
{
    let id = record_id(clock, device, operation.target());
    assert(after.contains_key(id));
    assert(lists_id(read_by_other, id));
    let i = choose|i: int| 0 <= i < read_by_other.len() && (#[trigger] read_by_other[i]).id@ == id;
    assert(read_by_other[i] == after[id]);
    if lists_id(read_by_device, id) {
        let j = choose|j: int|
            0 <= j < read_by_device.len() && (#[trigger] read_by_device[j]).id@ == id;
        assert(read_by_device[j] == after[id]);
    }
}

/// A write changes no record that was in the log: the log only grows.
pub proof fn lemma_store_keeps_records(
    before: LogEntries,
    after: LogEntries,
    operation: CrdtOperation,
    clock: u64,
    device: Seq<char>,
)
    requires
        stored(before, after, operation, clock, device),
    ensures
        forall|id: Seq<char>| #[trigger]
            before.contains_key(id) ==> after.contains_key(id) && after[id] == before[id],
{
}

/// A log has one largest clock.
pub proof fn lemma_max_clock_is_unique(log: LogEntries, a: u64, b: u64)
    requires
        is_max_clock(log, a),
        is_max_clock(log, b),
    ensures
        a == b,
{
}

} // verus!
