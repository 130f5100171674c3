//! The sync protocol: one request in, one response out.

use vstd::prelude::*;
use crate::time::unix_time_now;
use vstd::string::*;
use crate::config::SyncConfig;
use crate::crdt::clock::merged;
use crate::crdt::manager::CrdtManager;
use crate::crdt::model::DocState;
use crate::error::app_error::{AppError, AppResult};
use crate::repository::log::OperationRepository;
use crate::repository::model::{
    ascending,
    envelope_of,
    foreign_to,
    kept,
    lists_all,
    lists_id,
    lists_kept,
    lists_recent,
    lemma_record_id_fixes_clock,
    operations_of,
    record_id,
    well_keyed,
    LogEntries,
};
use crate::services::consistency::{folded, lemma_fold_step, lemma_stamp_step, stamped_apart};
use crate::services::session::{foreign_records, LogQuery, SyncSession};
use crate::services::{AuthContext, SyncState};
use crate::sync::operation::{CrdtOperation, StoredOperation, SyncRequest, SyncResponse};
use crate::sync::validate::{
    all_acceptable,
    first_failure,
    lemma_first_failure,
    validate_operations,
};

verus! {

/// Whether every record of the log has a clock below `clock`.
pub open spec fn clock_ahead(log: LogEntries, clock: u64) -> bool {
    forall|id: Seq<char>| #[trigger] log.contains_key(id) ==> log[id].clock < clock
}

/// The id of the record of the `i`-th operation of a batch that is stamped
/// from `first_clock` on.
pub open spec fn batch_id(
    operations: Seq<CrdtOperation>,
    first_clock: u64,
    device: Seq<char>,
    i: int,
) -> Seq<char> {
    record_id((first_clock + i) as u64, device, operations[i].target())
}

/// Whether `id` is the id of one of the records of a batch.
pub open spec fn in_batch(
    operations: Seq<CrdtOperation>,
    first_clock: u64,
    device: Seq<char>,
    id: Seq<char>,
) -> bool {
    exists|i: int|
        0 <= i < operations.len() && #[trigger] batch_id(operations, first_clock, device, i) == id
}

/// Whether `after` is `before` with the batch appended: one record for each
/// operation, in request order, stamped with consecutive clocks from
/// `first_clock` on, each under an id that was free; and nothing else.
pub open spec fn appended(
    before: LogEntries,
    after: LogEntries,
    operations: Seq<CrdtOperation>,
    first_clock: u64,
    device: Seq<char>,
) -> bool {
    &&& forall|id: Seq<char>| #[trigger]
        before.contains_key(id) ==> after.contains_key(id) && after[id] == before[id]
    &&& forall|i: int|
        0 <= i < operations.len() ==> {
            let id = #[trigger] batch_id(operations, first_clock, device, i);
            &&& !before.contains_key(id)
            &&& after.contains_key(id)
            &&& envelope_of(after[id], operations[i], (first_clock + i) as u64, device)
        }
    &&& forall|id: Seq<char>| #[trigger]
        after.contains_key(id) ==> before.contains_key(id) || in_batch(
            operations,
            first_clock,
            device,
            id,
        )
}

/// The state after a batch, applied in request order at consecutive clocks
/// from `first_clock` on.
pub open spec fn applied(state: DocState, operations: Seq<CrdtOperation>, first_clock: u64)
    -> DocState
    decreases operations.len(),
{
    if operations.len() == 0 {
        state
    } else {
        applied(state, operations.drop_last(), first_clock).apply(
            operations.last(),
            (first_clock + operations.len() - 1) as u64,
        )
    }
}

impl SyncRequest {
    /// Whether the request passes every rule on its shape and on each of its
    /// operations.
    pub open spec fn admissible(self, config: SyncConfig) -> bool {
        self.shape_failure() is None && all_acceptable(self.operations@, config)
    }

    /// A request is admissible exactly where nothing in it fails.
    pub proof fn lemma_admissible(self, config: SyncConfig)
        ensures
            self.admissible(config) <==> self.failure(config) is None,
    {
        lemma_first_failure(self.operations@, config);
    }

    /// The clock that the server moves to on receiving the request, which is
    /// also the clock of the request's first operation.
    pub open spec fn first_clock(self, server_clock: u64) -> int {
        merged(server_clock, self.clock)
    }
}

/// Whether `operations` is what the log owes the caller of `request`: the
/// operations of the records that the caller has yet to see, by ascending
/// clock. With a `since_clock` these are the later records of other
/// devices; without one, every record of other devices.
pub open spec fn owed(log: LogEntries, request: SyncRequest, operations: Seq<CrdtOperation>)
    -> bool {
    exists|listed: Seq<StoredOperation>|
        {
            &&& ascending(listed)
            &&& lists_kept(log, listed, Some(request.device_id@), request.since_clock)
            &&& #[trigger] operations_of(listed) == operations
        }
}

/// The sync service: the log, the clock with the document, and the limits.
pub struct CrdtSyncService<R: OperationRepository> {
    repositories: R,
    crdt_manager: CrdtManager,
    config: SyncConfig,
}

impl<R: OperationRepository> CrdtSyncService<R> {
    /// The records of the service's log.
    pub closed spec fn log(&self) -> LogEntries {
        self.repositories.entries()
    }

    /// The value of the service's clock.
    pub closed spec fn clock(&self) -> u64 {
        self.crdt_manager.clock_value()
    }

    /// The state of the service's document.
    pub closed spec fn state(&self) -> DocState {
        self.crdt_manager.state()
    }

    /// Whether the service's log never fails for a reason of its own.
    pub closed spec fn dependable(&self) -> bool {
        self.repositories.dependable()
    }

    /// The limits that the service checks operations against.
    pub closed spec fn limits(&self) -> SyncConfig {
        self.config
    }

    /// What holds of the service between requests: every record is filed
    /// under its id, and the clock is ahead of every record.
    pub open spec fn wf(&self) -> bool {
        well_keyed(self.log()) && clock_ahead(self.log(), self.clock())
    }

    /// Whether the document is in step with the log: the clocks of the log
    /// are apart and the document is the fold of the log.
    pub open spec fn in_step(&self) -> bool {
        stamped_apart(self.log()) && folded(self.log(), self.state())
    }

    /// A service over a log and a manager whose clock is ahead of the log.
    pub fn new(repositories: R, crdt_manager: CrdtManager, config: SyncConfig) -> (service: Self)
        requires
            well_keyed(repositories.entries()),
            clock_ahead(repositories.entries(), crdt_manager.clock_value()),
        ensures
            service.wf(),
            service.log() == repositories.entries(),
            service.dependable() == repositories.dependable(),
            service.clock() == crdt_manager.clock_value(),
            service.state() == crdt_manager.state(),
            service.limits() == config,
    {
        CrdtSyncService { repositories, crdt_manager, config }
    }

    /// The log, for reading.
    pub fn repositories(&self) -> (log: &R)
        ensures
            log.entries() == self.log(),
            log.dependable() == self.dependable(),
    {
        &self.repositories
    }

    /// Gives the log back, as a server does when it stops.
    pub fn into_repositories(self) -> (log: R)
        ensures
            log.entries() == self.log(),
            log.dependable() == self.dependable(),
    {
        self.repositories
    }

    /// The manager, for reading.
    pub fn crdt_manager(&self) -> (manager: &CrdtManager)
        ensures
            manager.clock_value() == self.clock(),
            manager.state() == self.state(),
    {
        &self.crdt_manager
    }

    /// Checks a batch against the service's limits.
    pub fn validate_operations(&self, operations: &Vec<CrdtOperation>) -> (r: AppResult<()>)
        ensures
            r is Ok <==> all_acceptable(operations@, self.limits()),
            r matches Err(e) ==> first_failure(operations@, self.limits()) matches Some(f)
                && e.is_validation(f.0, f.1),
    {
        validate_operations(operations, &self.config)
    }

    /// Processes one sync request.
    ///
    /// A request that breaks a rule is rejected before anything changes, and
    /// so is one for which the clock has no room. An accepted request moves
    /// the clock past the client's, then stamps, stores and applies its
    /// operations one by one, and is answered with the clock after the batch
    /// and the operations that the caller has yet to see. A failure of the
    /// log aborts the batch at the failing operation: the records written
    /// before it stay in the log. Over a dependable log every request that
    /// is admissible and has room is accepted.
    pub fn sync(&mut self, request: SyncRequest, auth: &AuthContext) -> (r: Result<
        SyncResponse,
        AppError,
    >)
        requires
            old(self).wf(),
        ensures
            final(self).wf(),
            final(self).limits() == old(self).limits(),
            final(self).dependable() == old(self).dependable(),
            old(self).in_step() ==> final(self).in_step(),
            old(self).dependable() ==> (r is Ok <==> request.admissible(old(self).limits())
                && request.has_room(old(self).clock())),
            !(request.admissible(old(self).limits()) && request.has_room(old(self).clock())) ==> {
                &&& r is Err
                &&& final(self).log() == old(self).log()
                &&& final(self).clock() == old(self).clock()
                &&& final(self).state() == old(self).state()
            },
            request.failure(old(self).limits()) matches Some(f) ==> r matches Err(e)
                && e.is_validation(f.0, f.1),
            request.admissible(old(self).limits()) && !request.has_room(old(self).clock())
                ==> (r matches Err(e) && e.is_internal(
                "The server clock has no room for the request"@,
            )),
            request.admissible(old(self).limits()) && request.has_room(old(self).clock())
                ==> exists|done: int|
                {
                    &&& 0 <= done <= request.operations@.len()
                    &&& #[trigger] appended(
                        old(self).log(),
                        final(self).log(),
                        request.operations@.take(done),
                        request.first_clock(old(self).clock()) as u64,
                        request.device_id@,
                    )
                    &&& final(self).state() == applied(
                        old(self).state(),
                        request.operations@.take(done),
                        request.first_clock(old(self).clock()) as u64,
                    )
                    &&& request.first_clock(old(self).clock()) + done <= final(self).clock()
                        <= request.first_clock(old(self).clock()) + done + 1
                    &&& r matches Ok(response) ==> {
                        &&& done == request.operations@.len()
                        &&& final(self).clock() == request.first_clock(old(self).clock()) + done
                        &&& response.clock == final(self).clock()
                        &&& owed(final(self).log(), request, response.operations@)
                    }
                },
    {
        let ghost log0 = self.log();
        let ghost state0 = self.state();
        let ghost clock0 = self.clock();
        let ghost operations = request.operations@;
        let ghost device = request.device_id@;
        let mut session = match SyncSession::start(
            &mut self.crdt_manager,
            &self.config,
            request,
            auth,
        ) {
            Ok(session) => session,
            Err(e) => {
                return Err(e);
            },
        };
        let ghost first = self.clock();
        proof {
            request.lemma_admissible(self.limits());
            assert(operations.take(0).len() == 0);
            assert forall|id: Seq<char>| #[trigger] log0.contains_key(id) implies log0[id].clock
                < first by {}
        }
        loop
            invariant
                session.request() == request,
                session.pending_clock() is None,
                0 <= session.written_count() <= operations.len(),
                operations == request.operations@,
                device == request.device_id@,
                first == request.first_clock(clock0),
                first + operations.len() <= u64::MAX,
                request.admissible(old(self).limits()),
                request.failure(old(self).limits()) is None,
                request.has_room(clock0),
                log0 == old(self).log(),
                state0 == old(self).state(),
                clock0 == old(self).clock(),
                self.limits() == old(self).limits(),
                self.dependable() == old(self).dependable(),
                old(self).in_step() ==> self.in_step(),
                first >= 1,
                well_keyed(self.log()),
                clock_ahead(log0, first),
                self.clock() == first + session.written_count(),
                appended(log0, self.log(), operations.take(session.written_count()), first, device),
                self.state() == applied(state0, operations.take(session.written_count()), first),
            ensures
                session.complete(),
            decreases operations.len() - session.written_count(),
        {
            let ghost count = session.written_count();
            let ghost before = self.log();
            let ghost state_before = self.state();
            let ghost done = operations.take(count);
            let ghost next = operations.take(count + 1);
            let write = match session.next_write(&mut self.crdt_manager) {
                Some(write) => write,
                None => {
                    break ;
                },
            };
            proof {
                let id_new = record_id(write.clock, device, write.operation.target());
                if before.contains_key(id_new) {
                    let taken = before[id_new];
                    lemma_record_id_fixes_clock(
                        taken.clock,
                        taken.device_id@,
                        taken.operation.target(),
                        write.clock,
                        device,
                        write.operation.target(),
                    );
                    if !log0.contains_key(id_new) {
                        let k = choose|k: int|
                            0 <= k < done.len() && #[trigger] batch_id(done, first, device, k)
                                == id_new;
                    }
                }
            }
            match self.repositories.store(
                &write.operation,
                write.clock,
                write.device_id.as_str(),
            ) {
                Ok(()) => {},
                Err(e) => {
                    proof {
                        assert forall|id: Seq<char>| #[trigger]
                            self.log().contains_key(id) implies self.log()[id].clock
                            < self.clock() by {
                            if !log0.contains_key(id) {
                                let k = choose|k: int|
                                    0 <= k < done.len() && #[trigger] batch_id(
                                        done,
                                        first,
                                        device,
                                        k,
                                    ) == id;
                            }
                        }
                        assert(appended(
                            old(self).log(),
                            self.log(),
                            request.operations@.take(count),
                            request.first_clock(old(self).clock()) as u64,
                            request.device_id@,
                        ));
                    }
                    return Err(e);
                },
            }
            let confirmed = session.written(&mut self.crdt_manager);
            proof {
                let after = self.log();
                let id_new = record_id(write.clock, device, write.operation.target());
                assert forall|id: Seq<char>| #[trigger] before.contains_key(id) implies before[id].clock
                    < write.clock by {
                    if !log0.contains_key(id) {
                        let k = choose|k: int|
                            0 <= k < done.len() && #[trigger] batch_id(done, first, device, k)
                                == id;
                    }
                }
                if old(self).in_step() {
                    lemma_fold_step(
                        before,
                        after,
                        state_before,
                        write.operation,
                        write.clock,
                        device,
                    );
                    lemma_stamp_step(before, after, write.operation, write.clock, device);
                }
                assert(next.drop_last() =~= done);
                assert(next.last() == write.operation);
                assert(batch_id(next, first, device, count) == id_new);
                assert forall|k: int| 0 <= k < next.len() implies {
                    let id = #[trigger] batch_id(next, first, device, k);
                    &&& !log0.contains_key(id)
                    &&& after.contains_key(id)
                    &&& envelope_of(after[id], next[k], (first + k) as u64, device)
                } by {
                    if k < count {
                        assert(batch_id(done, first, device, k) == batch_id(next, first, device, k));
                        assert(done[k] == next[k]);
                    } else {
                        if log0.contains_key(id_new) {
                            assert(before.contains_key(id_new));
                        }
                    }
                }
                assert forall|id: Seq<char>| #[trigger] after.contains_key(id) implies (
                log0.contains_key(id) || in_batch(next, first, device, id)) by {
                    if id == id_new {
                        assert(batch_id(next, first, device, count) == id);
                    } else if !log0.contains_key(id) {
                        assert(before.contains_key(id));
                        let k = choose|k: int|
                            0 <= k < done.len() && #[trigger] batch_id(done, first, device, k)
                                == id;
                        assert(batch_id(next, first, device, k) == id);
                    }
                }
            }
            match confirmed {
                Ok(()) => {},
                Err(e) => {
                    return Err(e);
                },
            }
        }
        proof {
            assert(operations.take(operations.len() as int) =~= operations);
            assert forall|id: Seq<char>| #[trigger] self.log().contains_key(id) implies self.log()[id].clock
                < self.clock() by {
                if !log0.contains_key(id) {
                    let k = choose|k: int|
                        0 <= k < operations.len() && #[trigger] batch_id(
                            operations,
                            first,
                            device,
                            k,
                        ) == id;
                }
            }
        }
        assert(appended(
            old(self).log(),
            self.log(),
            request.operations@.take(operations.len() as int),
            request.first_clock(old(self).clock()) as u64,
            request.device_id@,
        ));
        let records = match session.query() {
            LogQuery::Since { device_id, since_clock } => {
                match self.repositories.get_since(device_id.as_str(), since_clock) {
                    Ok(records) => records,
                    Err(e) => {
                        return Err(e);
                    },
                }
            },
            LogQuery::All => {
                match self.repositories.get_all() {
                    Ok(records) => records,
                    Err(e) => {
                        return Err(e);
                    },
                }
            },
        };
        proof {
            lemma_foreign_listing(self.log(), records@, device, request.since_clock);
        }
        session.finish(&self.crdt_manager, records)
    }

    /// The sync position of a device: the clock of the most recent record
    /// of another device, or zero where there is none; the number of such
    /// records, counted up to a thousand; and the host's time.
    pub fn get_state(&self, device_id: &str) -> (r: Result<SyncState, AppError>)
        requires
            self.wf(),
        ensures
            self.dependable() ==> r is Ok,
            r matches Ok(state) ==> {
                &&& state.device_id@ == device_id@
                &&& newest_foreign_clock(self.log(), device_id@, state.last_clock)
                &&& counts_recent(self.log(), device_id@, state.operation_count as int)
            },
    {
        let recent = self.repositories.get_recent(device_id, 1)?;
        let last_clock = if recent.len() > 0 {
            recent[0].clock
        } else {
            0
        };
        proof {
            let log = self.log();
            assert forall|id: Seq<char>| #[trigger]
                log.contains_key(id) && foreign_to(log[id], device_id@) implies log[id].clock
                <= last_clock && recent@.len() == 1 by {
                if lists_id(recent@, id) {
                    let i = choose|i: int| 0 <= i < recent@.len() && (#[trigger] recent@[i]).id@ == id;
                    assert(recent@[i] == log[id]);
                } else {
                    assert(recent@[0].clock >= log[id].clock);
                }
            }
            if recent@.len() > 0 {
                assert(log.contains_key(recent@[0].id@));
            }
        }
        let all = self.repositories.get_recent(device_id, 1000)?;
        Ok(
            SyncState {
                device_id: device_id.to_owned(),
                last_clock,
                operation_count: all.len(),
                last_sync_at: unix_time_now(),
            },
        )
    }
}

/// Whether `clock` is the largest clock among the records that do not come
/// from `device`, or zero where there is no such record.
pub open spec fn newest_foreign_clock(log: LogEntries, device: Seq<char>, clock: u64) -> bool {
    &&& forall|id: Seq<char>| #[trigger]
        log.contains_key(id) && foreign_to(log[id], device) ==> log[id].clock <= clock
    &&& (exists|id: Seq<char>| #[trigger]
        log.contains_key(id) && foreign_to(log[id], device) && log[id].clock == clock) || (clock
        == 0 && forall|id: Seq<char>| #[trigger]
        log.contains_key(id) ==> !foreign_to(log[id], device))
}

/// Whether `count` is the number of records that a read of the most recent
/// thousand records of other devices returns.
pub open spec fn counts_recent(log: LogEntries, device: Seq<char>, count: int) -> bool {
    exists|listed: Seq<StoredOperation>| #[trigger]
        lists_recent(log, listed, device, 1000) && listed.len() == count
}

/// The records of a listing that do not come from `device` are a listing of
/// the records that a read on behalf of `device` keeps, in the same order.
pub proof fn lemma_foreign_listing(
    log: LogEntries,
    records: Seq<StoredOperation>,
    device: Seq<char>,
    since: Option<u64>,
)
    requires
        ascending(records),
        lists_kept(log, records, Some(device), since) || (since is None && lists_all(log, records)),
    ensures
        ascending(foreign_records(records, device)),
        lists_kept(log, foreign_records(records, device), Some(device), since),
{
    let kept_records = foreign_records(records, device);
    lemma_foreign_members(records, device);
    assert forall|i: int, j: int| 0 <= i < j < kept_records.len() implies (
    #[trigger] kept_records[i]).clock <= (#[trigger] kept_records[j]).clock && kept_records[i].id@
        != kept_records[j].id@ by {
        let a = source_index(records, device, i);
        let b = source_index(records, device, j);
        assert(records[a].clock <= records[b].clock);
        assert(records[a].id@ != records[b].id@);
    }
    assert forall|i: int| 0 <= i < kept_records.len() implies log.contains_key(
        (#[trigger] kept_records[i]).id@,
    ) && log[kept_records[i].id@] == kept_records[i] && kept(
        kept_records[i],
        Some(device),
        since,
    ) by {
        let a = source_index(records, device, i);
        assert(records[a] == kept_records[i]);
    }
    assert forall|id: Seq<char>| #[trigger]
        log.contains_key(id) && kept(log[id], Some(device), since) implies lists_id(
        kept_records,
        id,
    ) by {
        assert(lists_id(records, id));
        let a = choose|a: int| 0 <= a < records.len() && (#[trigger] records[a]).id@ == id;
        assert(records[a] == log[id]);
        let j = choose|j: int|
            0 <= j < kept_records.len() && source_index(records, device, j) == a;
        assert(kept_records[j].id@ == id);
    }
}

/// The place in `records` of the `i`-th record that does not come from
/// `device`.
pub open spec fn source_index(records: Seq<StoredOperation>, device: Seq<char>, i: int) -> int
    decreases records.len(),
{
    if records.len() == 0 {
        0
    } else if i == foreign_records(records.drop_last(), device).len() {
        records.len() - 1
    } else {
        source_index(records.drop_last(), device, i)
    }
}

/// Filtering keeps the records of other devices in their places relative
/// to one another: the `i`-th record kept is the record at its source index,
/// source indices increase with `i`, and every record of another device is
/// the source of one that is kept.
pub proof fn lemma_foreign_members(records: Seq<StoredOperation>, device: Seq<char>)
    ensures
        forall|i: int|
            0 <= i < foreign_records(records, device).len() ==> {
                let a = #[trigger] source_index(records, device, i);
                &&& 0 <= a < records.len()
                &&& records[a] == foreign_records(records, device)[i]
                &&& foreign_to(records[a], device)
            },
        forall|i: int, j: int|
            0 <= i < j < foreign_records(records, device).len() ==> #[trigger] source_index(
                records,
                device,
                i,
            ) < #[trigger] source_index(records, device, j),
        forall|a: int|
            0 <= a < records.len() && foreign_to(#[trigger] records[a], device) ==> exists|j: int|
                0 <= j < foreign_records(records, device).len() && #[trigger] source_index(
                    records,
                    device,
                    j,
                ) == a,
    decreases records.len(),
{
    reveal(Seq::filter);
    if records.len() > 0 {
        let front = records.drop_last();
        let last = records.last();
        let kept_front = foreign_records(front, device);
        let kept_all = foreign_records(records, device);
        lemma_foreign_members(front, device);
        assert(kept_all == if foreign_to(last, device) {
            kept_front.push(last)
        } else {
            kept_front
        });
        assert forall|i: int| 0 <= i < kept_all.len() implies {
            let a = #[trigger] source_index(records, device, i);
            &&& 0 <= a < records.len()
            &&& records[a] == kept_all[i]
            &&& foreign_to(records[a], device)
        } by {
            if i < kept_front.len() {
                let a = source_index(front, device, i);
                assert(front[a] == records[a]);
            }
        }
        assert forall|i: int, j: int| 0 <= i < j < kept_all.len() implies #[trigger] source_index(
            records,
            device,
            i,
        ) < #[trigger] source_index(records, device, j) by {
            if j < kept_front.len() {
                assert(source_index(front, device, i) < source_index(front, device, j));
            } else {
                let a = source_index(front, device, i);
                assert(0 <= a < front.len());
            }
        }
        assert forall|a: int|
            0 <= a < records.len() && foreign_to(#[trigger] records[a], device) implies exists|
            j: int,
        |
            0 <= j < kept_all.len() && #[trigger] source_index(records, device, j) == a by {
            if a < front.len() {
                assert(front[a] == records[a]);
                let j = choose|j: int|
                    0 <= j < kept_front.len() && #[trigger] source_index(front, device, j) == a;
                assert(source_index(records, device, j) == a);
            } else {
                assert(source_index(records, device, kept_front.len() as int) == a);
            }
        }
    }
}

} // verus!
