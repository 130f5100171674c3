//! The operation log as mathematics: its records by id, and what its
//! queries select.

use vstd::prelude::*;
use crate::sync::operation::{CrdtOperation, StoredOperation};
use crate::text::{
    decimal_digits,
    is_digit,
    lemma_decimal_digits_injective,
    lemma_decimal_digits_shape,
};

verus! {

/// The records of a log, by record id.
pub type LogEntries = Map<Seq<char>, StoredOperation>;

/// The id of a record: the clock in decimal, the device and the target,
/// joined by underscores.
pub open spec fn record_id(clock: u64, device: Seq<char>, target: Seq<char>) -> Seq<char> {
    decimal_digits(clock as nat) + "_"@ + device + "_"@ + target
}

/// Whether a record carries the id that its clock, its device and its
/// operation's target make.
pub open spec fn own_id(record: StoredOperation) -> bool {
    record.id@ == record_id(record.clock, record.device_id@, record.operation.target())
}

/// Whether every record carries its own id and is filed under it.
pub open spec fn well_keyed(log: LogEntries) -> bool {
    forall|id: Seq<char>| #[trigger] log.contains_key(id) ==> log[id].id@ == id && own_id(log[id])
}

/// Records with the same id have the same clock: the id begins with the
/// clock's digits, and the underscore that follows them is no digit.
pub proof fn lemma_record_id_fixes_clock(
    clock_a: u64,
    device_a: Seq<char>,
    target_a: Seq<char>,
    clock_b: u64,
    device_b: Seq<char>,
    target_b: Seq<char>,
)
    requires
        record_id(clock_a, device_a, target_a) == record_id(clock_b, device_b, target_b),
    ensures
        clock_a == clock_b,
{
    reveal_strlit("_");
    let digits_a = decimal_digits(clock_a as nat);
    let digits_b = decimal_digits(clock_b as nat);
    let id_a = record_id(clock_a, device_a, target_a);
    let id_b = record_id(clock_b, device_b, target_b);
    lemma_decimal_digits_shape(clock_a as nat);
    lemma_decimal_digits_shape(clock_b as nat);
    assert("_"@.len() == 1);
    assert("_"@[0] == '_');
    assert(id_a[digits_a.len() as int] == '_');
    assert(id_b[digits_b.len() as int] == '_');
    assert forall|i: int| 0 <= i < digits_a.len() implies id_a[i] == digits_a[i] by {}
    assert forall|i: int| 0 <= i < digits_b.len() implies id_b[i] == digits_b[i] by {}
    if digits_a.len() < digits_b.len() {
        assert(id_b[digits_a.len() as int] == digits_b[digits_a.len() as int]);
        assert(is_digit(digits_b[digits_a.len() as int]));
    } else if digits_b.len() < digits_a.len() {
        assert(id_a[digits_b.len() as int] == digits_a[digits_b.len() as int]);
        assert(is_digit(digits_a[digits_b.len() as int]));
    } else {
        assert forall|i: int| 0 <= i < digits_a.len() implies digits_a[i] == digits_b[i] by {
            assert(id_a[i] == id_b[i]);
        }
        assert(digits_a =~= digits_b);
        lemma_decimal_digits_injective(clock_a as nat, clock_b as nat);
    }
}

/// Whether `record` is the envelope of `operation`, accepted from `device`
/// at `clock`. When the record was written is left open.
pub open spec fn envelope_of(
    record: StoredOperation,
    operation: CrdtOperation,
    clock: u64,
    device: Seq<char>,
) -> bool {
    &&& record.id@ == record_id(clock, device, operation.target())
    &&& record.clock == clock
    &&& record.device_id@ == device
    &&& record.operation == operation
}

/// Whether the envelope of `operation`, accepted from `device` at `clock`,
/// is among `listed`.
pub open spec fn lists_envelope(
    listed: Seq<StoredOperation>,
    operation: CrdtOperation,
    clock: u64,
    device: Seq<char>,
) -> bool {
    exists|i: int| 0 <= i < listed.len() && envelope_of(#[trigger] listed[i], operation, clock, device)
}

/// Whether `after` is `before` with one more record: the envelope of
/// `operation`, under an id that was free.
pub open spec fn stored(
    before: LogEntries,
    after: LogEntries,
    operation: CrdtOperation,
    clock: u64,
    device: Seq<char>,
) -> bool {
    let id = record_id(clock, device, operation.target());
    &&& !before.contains_key(id)
    &&& after.contains_key(id)
    &&& envelope_of(after[id], operation, clock, device)
    &&& after == before.insert(id, after[id])
}

/// Whether a read keeps a record: a read on behalf of a device keeps the
/// records of other devices only, and a read after a clock keeps later
/// records only.
pub open spec fn kept(record: StoredOperation, device: Option<Seq<char>>, since: Option<u64>)
    -> bool {
    &&& device matches Some(d) ==> record.device_id@ != d
    &&& since matches Some(c) ==> record.clock > c
}

/// Whether a record is one that `device` has yet to see after `since`: a
/// later record of another device.
pub open spec fn visible_to(record: StoredOperation, device: Seq<char>, since: u64) -> bool {
    kept(record, Some(device), Some(since))
}

/// Whether a record comes from a device other than `device`.
pub open spec fn foreign_to(record: StoredOperation, device: Seq<char>) -> bool {
    kept(record, Some(device), None)
}

/// Whether the clocks of a run of records never decrease.
pub open spec fn ascending(records: Seq<StoredOperation>) -> bool {
    forall|i: int, j: int|
        0 <= i < j < records.len() ==> (#[trigger] records[i]).clock <= (#[trigger] records[j]).clock
}

/// Whether `listed` holds records of the log only, and none twice.
pub open spec fn lists_some(log: LogEntries, listed: Seq<StoredOperation>) -> bool {
    &&& forall|i: int, j: int|
        0 <= i < j < listed.len() ==> (#[trigger] listed[i]).id@ != (#[trigger] listed[j]).id@
    &&& forall|i: int|
        0 <= i < listed.len() ==> log.contains_key((#[trigger] listed[i]).id@) && log[listed[i].id@]
            == listed[i]
}

/// Whether the record under `id` is among `listed`.
pub open spec fn lists_id(listed: Seq<StoredOperation>, id: Seq<char>) -> bool {
    exists|i: int| 0 <= i < listed.len() && (#[trigger] listed[i]).id@ == id
}

/// Whether `listed` holds every record of the log that the read keeps,
/// once, and no other.
pub open spec fn lists_kept(
    log: LogEntries,
    listed: Seq<StoredOperation>,
    device: Option<Seq<char>>,
    since: Option<u64>,
) -> bool {
    &&& lists_some(log, listed)
    &&& forall|i: int| 0 <= i < listed.len() ==> kept(#[trigger] listed[i], device, since)
    &&& forall|id: Seq<char>| #[trigger]
        log.contains_key(id) && kept(log[id], device, since) ==> lists_id(listed, id)
}

/// Whether `listed` is what a read after `since` owes `device`: every
/// later record of another device, once, and no other.
pub open spec fn lists_since(
    log: LogEntries,
    listed: Seq<StoredOperation>,
    device: Seq<char>,
    since: u64,
) -> bool {
    lists_kept(log, listed, Some(device), Some(since))
}

/// Whether `listed` holds every record of the log once.
pub open spec fn lists_all(log: LogEntries, listed: Seq<StoredOperation>) -> bool {
    lists_kept(log, listed, None, None)
}

/// Whether `listed` holds every record of the log that does not come from
/// `device`, once, and no other.
pub open spec fn lists_foreign(log: LogEntries, listed: Seq<StoredOperation>, device: Seq<char>)
    -> bool {
    lists_kept(log, listed, Some(device), None)
}

/// Whether `listed` holds the most recent records of other devices: at most
/// `limit` of them where `limit` is not negative, all of them otherwise;
/// and a record of another device is left out only where `limit` records
/// that are no older are listed.
pub open spec fn lists_recent(
    log: LogEntries,
    listed: Seq<StoredOperation>,
    device: Seq<char>,
    limit: i64,
) -> bool {
    &&& lists_some(log, listed)
    &&& forall|i: int| 0 <= i < listed.len() ==> foreign_to(#[trigger] listed[i], device)
    &&& limit >= 0 ==> listed.len() <= limit
    &&& forall|id: Seq<char>| #[trigger]
        log.contains_key(id) && foreign_to(log[id], device) && !lists_id(listed, id) ==> limit
            >= 0 && listed.len() == limit && forall|i: int|
            0 <= i < listed.len() ==> log[id].clock <= (#[trigger] listed[i]).clock
}

/// Whether `max` is the largest clock of the log, or zero for an empty log.
pub open spec fn is_max_clock(log: LogEntries, max: u64) -> bool {
    &&& forall|id: Seq<char>| #[trigger] log.contains_key(id) ==> log[id].clock <= max
    &&& max == 0 || exists|id: Seq<char>| #[trigger] log.contains_key(id) && log[id].clock == max
}

/// The operations of a run of records, in the order of the run.
pub open spec fn operations_of(records: Seq<StoredOperation>) -> Seq<CrdtOperation> {
    records.map(|i: int, r: StoredOperation| r.operation)
}

} // verus!
