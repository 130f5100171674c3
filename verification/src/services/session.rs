//! The sync protocol as steps, for a server whose log is a database: the
//! server performs each write and read itself and asks the session, between
//! them, what to do next.
//!
//! The order of the steps is the order of the protocol: `start`, then
//! `next_write` and `written` in turns until there is nothing left to
//! write, then `query`, then `finish` with what the query returned.

use vstd::prelude::*;
use vstd::string::*;
use crate::config::SyncConfig;
use crate::crdt::clock::{merged, ticked};
use crate::crdt::manager::CrdtManager;
use crate::error::app_error::{AppError, AppResult};
use crate::repository::model::{foreign_to, operations_of};
use crate::services::AuthContext;
use crate::sync::operation::{CrdtOperation, StoredOperation, SyncRequest, SyncResponse};
use crate::sync::validate::{lemma_first_failure, validate_operations, validate_sync_request};
use crate::text::same_text;

verus! {

/// A write that the server owes the log.
#[derive(Debug)]
pub struct PendingWrite {
    pub operation: CrdtOperation,
    pub clock: u64,
    pub device_id: String,
}

/// The read that answers a request.
#[derive(Debug)]
pub enum LogQuery {
    /// The records after `since_clock` that do not come from `device_id`.
    Since { device_id: String, since_clock: u64 },
    /// Every record. The session drops those of the caller itself.
    All,
}

/// One sync request on its way through the protocol.
pub struct SyncSession {
    request: SyncRequest,
    position: usize,
    pending: Option<u64>,
}

/// The records of a run that do not come from `device`, in the order of the
/// run.
pub open spec fn foreign_records(records: Seq<StoredOperation>, device: Seq<char>) -> Seq<
    StoredOperation,
> {
    records.filter(|r: StoredOperation| foreign_to(r, device))
}

impl SyncRequest {
    /// Whether the clock has room for the request: for the step past the
    /// client's clock and for one tick for each operation.
    pub open spec fn has_room(self, server_clock: u64) -> bool {
        merged(server_clock, self.clock) + self.operations@.len() <= u64::MAX
    }
}

impl SyncSession {
    /// The request that the session serves.
    pub closed spec fn request(&self) -> SyncRequest {
        self.request
    }

    /// The number of operations that have been written and applied.
    pub closed spec fn written_count(&self) -> int {
        self.position as int
    }

    /// The clock of the write that the server has been handed and has not
    /// yet confirmed, if there is one.
    pub closed spec fn pending_clock(&self) -> Option<u64> {
        self.pending
    }

    /// What holds of every session: it never counts more writes than the
    /// request has operations, and a pending write is the next operation.
    #[verifier::type_invariant]
    spec fn in_bounds(self) -> bool {
        self.position <= self.request.operations@.len() && (self.pending is Some ==> self.position
            < self.request.operations@.len())
    }

    /// Whether every operation has been written and applied.
    pub open spec fn complete(&self) -> bool {
        self.written_count() == self.request().operations@.len() && self.pending_clock() is None
    }

    /// Opens a session: checks the request and each of its operations, and
    /// moves the clock past the client's.
    ///
    /// A request that breaks a rule is refused and nothing changes. So is a
    /// request for which the clock has no room: one that would move the
    /// clock, by the step past the client's clock and one tick for each
    /// operation, past its largest value.
    pub fn start(
        manager: &mut CrdtManager,
        config: &SyncConfig,
        request: SyncRequest,
        auth: &AuthContext,
    ) -> (r: AppResult<SyncSession>)
        ensures
            final(manager).state() == old(manager).state(),
            final(manager).node() == old(manager).node(),
            r is Ok <==> request.admissible(*config) && request.has_room(
                old(manager).clock_value(),
            ),
            r matches Ok(session) ==> {
                &&& session.request() == request
                &&& session.written_count() == 0
                &&& session.pending_clock() is None
                &&& final(manager).clock_value() == merged(
                    old(manager).clock_value(),
                    request.clock,
                )
            },
            r matches Err(e) ==> {
                &&& final(manager).clock_value() == old(manager).clock_value()
                &&& request.failure(*config) matches Some(f) ==> e.is_validation(f.0, f.1)
                &&& request.admissible(*config) ==> e.is_internal(
                    "The server clock has no room for the request"@,
                )
            },
    {
        match validate_sync_request(&request, auth) {
            Ok(()) => {},
            Err(e) => {
                return Err(e);
            },
        }
        proof {
            lemma_first_failure(request.operations@, *config);
        }
        match validate_operations(&request.operations, config) {
            Ok(()) => {},
            Err(e) => {
                return Err(e);
            },
        }
        let current = manager.current_clock();
        let base = if request.clock > current {
            request.clock
        } else {
            current
        };
        if base == u64::MAX || u64::MAX - (base + 1) < request.operations.len() as u64 {
            return Err(AppError::internal("The server clock has no room for the request"));
        }
        let _ = manager.update_clock(request.clock);
        Ok(SyncSession { request, position: 0, pending: None })
    }

    /// Hands out the next write, stamped with the next clock value, or
    /// `None` where every operation has been written. A write that has been
    /// handed out and not confirmed is handed out again, with its stamp.
    pub fn next_write(&mut self, manager: &mut CrdtManager) -> (write: Option<PendingWrite>)
        ensures
            final(self).request() == old(self).request(),
            write is Some ==> old(self).written_count() < old(self).request().operations@.len(),
            final(self).written_count() == old(self).written_count(),
            final(manager).state() == old(manager).state(),
            final(manager).node() == old(manager).node(),
            old(self).complete() ==> write is None && final(self).pending_clock() is None && final(manager).clock_value() == old(manager).clock_value(),
            !old(self).complete() ==> {
                &&& write matches Some(w)
                &&& w.operation == old(self).request().operations@[old(self).written_count()]
                &&& w.device_id@ == old(self).request().device_id@
                &&& final(self).pending_clock() == Some(w.clock)
                &&& match old(self).pending_clock() {
                    Some(clock) => w.clock == clock && final(manager).clock_value() == old(manager).clock_value(),
                    None => w.clock == old(manager).clock_value() && final(manager).clock_value()
                        == ticked(old(manager).clock_value()),
                }
            },
    {
        proof {
            use_type_invariant(&*self);
        }
        if self.position >= self.request.operations.len() {
            return None;
        }
        let clock = match self.pending {
            Some(clock) => clock,
            None => {
                let clock = manager.tick_clock();
                self.pending = Some(clock);
                clock
            },
        };
        Some(
            PendingWrite {
                operation: self.request.operations[self.position].clone(),
                clock,
                device_id: self.request.device_id.clone(),
            },
        )
    }

    /// Confirms that the pending write is in the log: the operation is
    /// applied to the document at the clock it was stamped with. Without a
    /// pending write this is an error and nothing changes.
    pub fn written(&mut self, manager: &mut CrdtManager) -> (r: AppResult<()>)
        ensures
            final(self).request() == old(self).request(),
            final(manager).clock_value() == old(manager).clock_value(),
            final(manager).node() == old(manager).node(),
            final(self).pending_clock() is None,
            r is Ok <==> old(self).pending_clock() is Some,
            r is Ok ==> {
                &&& final(self).written_count() == old(self).written_count() + 1
                &&& final(manager).state() == old(manager).state().apply(
                    old(self).request().operations@[old(self).written_count()],
                    old(self).pending_clock()->0,
                )
            },
            r matches Err(e) ==> {
                &&& final(self).written_count() == old(self).written_count()
                &&& final(manager).state() == old(manager).state()
                &&& e.is_internal("No write is pending"@)
            },
    {
        proof {
            use_type_invariant(&*self);
        }
        let clock = match self.pending {
            Some(clock) => clock,
            None => {
                return Err(AppError::internal("No write is pending"));
            },
        };
        match manager.apply_operation(&self.request.operations[self.position], clock) {
            Ok(()) => {},
            Err(e) => {
                return Err(e.into_app_error());
            },
        }
        let count = self.request.operations.len();
        assert(self.position < count);
        self.pending = None;
        self.position = self.position + 1;
        Ok(())
    }

    /// The read that answers the request: with a `since_clock`, the later
    /// records of other devices; without one, every record.
    pub fn query(&self) -> (query: LogQuery)
        ensures
            match self.request().since_clock {
                Some(since) => query matches LogQuery::Since { device_id, since_clock }
                    && device_id@ == self.request().device_id@ && since_clock == since,
                None => query is All,
            },
    {
        match self.request.since_clock {
            Some(since_clock) => LogQuery::Since {
                device_id: self.request.device_id.clone(),
                since_clock,
            },
            None => LogQuery::All,
        }
    }

    /// Closes the session with what the query returned: the response
    /// carries the clock as it stands and the operations of the returned
    /// records that do not come from the caller, in the order returned.
    /// A session with operations left to write cannot be closed.
    pub fn finish(self, manager: &CrdtManager, records: Vec<StoredOperation>) -> (r: AppResult<
        SyncResponse,
    >)
        ensures
            r is Ok <==> self.complete(),
            r matches Ok(response) ==> {
                &&& response.clock == manager.clock_value()
                &&& response.operations@ == operations_of(
                    foreign_records(records@, self.request().device_id@),
                )
            },
            r matches Err(e) ==> e.is_internal("Operations are left to write"@),
    {
        proof {
            use_type_invariant(&self);
        }
        if self.position < self.request.operations.len() || self.pending.is_some() {
            return Err(AppError::internal("Operations are left to write"));
        }
        let mut operations: Vec<CrdtOperation> = Vec::new();
        let ghost device = self.request.device_id@;
        let mut i: usize = 0;
        while i < records.len()
            invariant
                i <= records@.len(),
                device == self.request.device_id@,
                operations@ == operations_of(foreign_records(records@.take(i as int), device)),
            decreases records@.len() - i,
        {
            proof {
                let head = records@.take(i as int);
                let next = records@.take(i + 1);
                assert(next =~= head.push(records@[i as int]));
                lemma_filter_push(head, records@[i as int], device);
            }
            if !same_text(records[i].device_id.as_str(), self.request.device_id.as_str()) {
                let ghost before = operations@;
                operations.push(records[i].operation.clone());
                assert(operations@ =~= operations_of(
                    foreign_records(records@.take(i as int), device).push(records@[i as int]),
                ));
            }
            i += 1;
        }
        assert(records@.take(i as int) =~= records@);
        Ok(SyncResponse { clock: manager.current_clock(), operations })
    }
}

/// Filtering a run that grows by one record keeps the record where it is
/// foreign and drops it where it is not.
proof fn lemma_filter_push(records: Seq<StoredOperation>, record: StoredOperation, device: Seq<char>)
    ensures
        foreign_records(records.push(record), device) == if foreign_to(record, device) {
            foreign_records(records, device).push(record)
        } else {
            foreign_records(records, device)
        },
{
    let keep = |r: StoredOperation| foreign_to(r, device);
    let whole = records.push(record);
    assert(whole.drop_last() =~= records);
    assert(whole.last() == record);
    reveal(Seq::filter);
    assert(whole.filter(keep) == if keep(record) {
        records.filter(keep).push(record)
    } else {
        records.filter(keep)
    });
}

} // verus!
