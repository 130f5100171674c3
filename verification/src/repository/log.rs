//! What every operation log offers.

use vstd::prelude::*;
use crate::error::app_error::AppError;
use crate::repository::model::{
    ascending,
    is_max_clock,
    lists_all,
    lists_recent,
    lists_since,
    record_id,
    stored,
    well_keyed,
    LogEntries,
};
use crate::sync::operation::{CrdtOperation, StoredOperation};

verus! {

/// An append-only log of accepted operations.
///
/// A log may fail on any call, as a database may; what the contracts state
/// is what a successful call has done or found, and that a failed write has
/// written nothing.
pub trait OperationRepository {
    /// The records of the log, by record id.
    spec fn entries(&self) -> LogEntries;

    /// Whether the log never fails for a reason of its own: it refuses a
    /// write only where the id is taken, and it refuses no read. A log in
    /// memory is dependable; one that talks to a database is not.
    spec fn dependable(&self) -> bool;

    /// Writes one record: the envelope of `operation` under the id made of
    /// `clock`, `device_id` and the operation's target. An id that is taken
    /// is an error.
    fn store(&mut self, operation: &CrdtOperation, clock: u64, device_id: &str) -> (r: Result<
        (),
        AppError,
    >)
        requires
            well_keyed(old(self).entries()),
        ensures
            well_keyed(final(self).entries()),
            final(self).dependable() == old(self).dependable(),
            old(self).dependable() ==> (r is Ok <==> !old(self).entries().contains_key(
                record_id(clock, device_id@, operation.target()),
            )),
            r is Ok ==> stored(
                old(self).entries(),
                final(self).entries(),
                *operation,
                clock,
                device_id@,
            ),
            r is Err ==> final(self).entries() == old(self).entries(),
    ;

    /// The records after `since_clock` that do not come from `device_id`,
    /// by ascending clock.
    fn get_since(&self, device_id: &str, since_clock: u64) -> (r: Result<
        Vec<StoredOperation>,
        AppError,
    >)
        requires
            well_keyed(self.entries()),
        ensures
            self.dependable() ==> r is Ok,
            r matches Ok(listed) ==> ascending(listed@) && lists_since(
                self.entries(),
                listed@,
                device_id@,
                since_clock,
            ),
    ;

    /// The most recent `limit` records that do not come from `device_id`,
    /// oldest first. A negative `limit` is no limit.
    fn get_recent(&self, device_id: &str, limit: i64) -> (r: Result<Vec<StoredOperation>, AppError>)
        requires
            well_keyed(self.entries()),
        ensures
            self.dependable() ==> r is Ok,
            r matches Ok(listed) ==> ascending(listed@) && lists_recent(
                self.entries(),
                listed@,
                device_id@,
                limit,
            ),
    ;

    /// The largest clock in the log, or zero for an empty log.
    fn get_max_clock(&self) -> (r: Result<u64, AppError>)
        requires
            well_keyed(self.entries()),
        ensures
            self.dependable() ==> r is Ok,
            r matches Ok(max) ==> is_max_clock(self.entries(), max),
    ;

    /// Every record, by ascending clock.
    fn get_all(&self) -> (r: Result<Vec<StoredOperation>, AppError>)
        requires
            well_keyed(self.entries()),
        ensures
            self.dependable() ==> r is Ok,
            r matches Ok(listed) ==> ascending(listed@) && lists_all(self.entries(), listed@),
    ;
}

} // verus!
