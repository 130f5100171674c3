//! Conversions between records and the columns of the durable log.
//!
//! The table keeps clocks in signed 64-bit columns. A record whose clock
//! does not fit is not written. In a query, a clock that does not fit
//! stands as the largest value of the column, and a negative column reads
//! as zero.

use vstd::prelude::*;
use vstd::string::*;
use crate::repository::model::{envelope_of, record_id};
use crate::text::decimal_string;
use crate::sync::operation::{CrdtOperation, StoredOperation};

verus! {

/// Builds the id of a record.
pub fn make_record_id(clock: u64, device_id: &str, target_id: &str) -> (id: String)
    ensures
        id@ == record_id(clock, device_id@, target_id@),
{
    let mut id = decimal_string(clock);
    id.append("_");
    id.append(device_id);
    id.append("_");
    id.append(target_id);
    id
}

/// The column value that a clock stands as in a query.
pub open spec fn column_of(clock: u64) -> i64 {
    if clock <= i64::MAX {
        clock as i64
    } else {
        i64::MAX
    }
}

/// The clock that a column value reads as.
pub open spec fn clock_of(column: i64) -> u64 {
    if column >= 0 {
        column as u64
    } else {
        0
    }
}

/// Converts a clock to the column value that it stands as in a query.
pub fn clock_to_column(clock: u64) -> (column: i64)
    ensures
        column == column_of(clock),
{
    if clock <= 9223372036854775807 {
        clock as i64
    } else {
        9223372036854775807
    }
}

/// Converts the clock of a record that is to be written: `None` where the
/// clock does not fit the column, so that the write can be refused.
pub fn clock_for_write(clock: u64) -> (column: Option<i64>)
    ensures
        clock <= i64::MAX ==> column == Some(clock as i64),
        clock > i64::MAX ==> column is None,
        column matches Some(c) ==> clock_of(c) == clock,
{
    if clock <= 9223372036854775807 {
        Some(clock as i64)
    } else {
        None
    }
}

/// Converts a column value to a clock.
pub fn clock_from_column(column: i64) -> (clock: u64)
    ensures
        clock == clock_of(column),
{
    if column >= 0 {
        column as u64
    } else {
        0
    }
}

/// A clock that fits the column is read back as it was written.
pub proof fn lemma_column_round_trip(clock: u64)
    requires
        clock <= i64::MAX,
    ensures
        clock_of(column_of(clock)) == clock,
{
}

/// Columns keep the order of clocks.
pub proof fn lemma_column_order(a: u64, b: u64)
    requires
        a <= b,
    ensures
        column_of(a) <= column_of(b),
{
}

/// Builds the record that a write stores: the envelope of `operation`,
/// accepted from `device_id` at `clock` and written at `created_at`.
pub fn new_record(operation: &CrdtOperation, clock: u64, device_id: &str, created_at: i64) -> (record:
    StoredOperation)
    ensures
        envelope_of(record, *operation, clock, device_id@),
        record.created_at == created_at,
{
    StoredOperation {
        id: make_record_id(clock, device_id, operation.target_id()),
        clock,
        device_id: device_id.to_owned(),
        operation: operation.clone(),
        created_at,
    }
}

/// Builds a record from the columns of a row.
pub fn record_from_row(
    id: String,
    clock: i64,
    device_id: String,
    operation: CrdtOperation,
    created_at: i64,
) -> (record: StoredOperation)
    ensures
        record.id == id,
        record.clock == clock_of(clock),
        record.device_id == device_id,
        record.operation == operation,
        record.created_at == created_at,
{
    StoredOperation { id, clock: clock_from_column(clock), device_id, operation, created_at }
}

/// Turns rows that were read newest first into the oldest-first order that
/// callers are owed.
pub fn oldest_first(newest_first: Vec<StoredOperation>) -> (records: Vec<StoredOperation>)
    ensures
        records@ == newest_first@.reverse(),
{
    let mut source = newest_first;
    let ghost all = source@;
    let mut records: Vec<StoredOperation> = Vec::new();
    while source.len() > 0
        invariant
            source@.len() <= all.len(),
            source@ == all.take(source@.len() as int),
            records@.len() == all.len() - source@.len(),
            forall|i: int|
                0 <= i < records@.len() ==> #[trigger] records@[i] == all[all.len() - 1 - i],
        decreases source@.len(),
    {
        let ghost before = records@;
        let last = source.pop();
        match last {
            Some(record) => {
                records.push(record);
                assert forall|i: int| 0 <= i < records@.len() implies #[trigger] records@[i]
                    == all[all.len() - 1 - i] by {
                    if i < before.len() {
                        assert(records@[i] == before[i]);
                    }
                }
            },
            None => {},
        }
    }
    assert(records@ =~= all.reverse());
    records
}

} // verus!
