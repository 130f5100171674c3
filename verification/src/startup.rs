//! Bootstrap and recovery: the node id, and the clock and document of a
//! server rebuilt from its log before it serves a request.

use vstd::prelude::*;
use std::collections::hash_map::DefaultHasher;
use std::hash::{Hash, Hasher};
use vstd::std_specs::hash::DefaultHasherAdditionalSpecFns;
use crate::crdt::manager::CrdtManager;
use crate::crdt::model::DocState;
use crate::error::app_error::{AppError, AppResult};
use crate::repository::log::OperationRepository;
use crate::repository::model::{ascending, is_max_clock, lists_all, well_keyed, LogEntries};
use crate::services::consistency::{
    folded,
    lemma_fold_of_empty_log,
    lemma_replay_is_the_fold,
    lemma_zero_means_empty,
    stamped_apart,
};
use crate::services::sync::clock_ahead;
use crate::sync::operation::StoredOperation;

verus! {

/// The writes that hashing a text makes to a hasher, one sequence of bytes
/// for each write.
pub uninterp spec fn text_writes(text: Seq<char>) -> Seq<Seq<u8>>;

/// `Hash::hash` for `str`: the text is written to the hasher, after
/// whatever was written before. What is written depends on the text alone.
#[verifier::external_body]
fn hash_str(text: &str, hasher: &mut DefaultHasher)
    ensures
        final(hasher)@ == old(hasher)@ + text_writes(text@),
{
    text.hash(hasher);
}

/// The hash that the standard library's default hasher gives a text: what
/// a new hasher finishes with once the text is written to it.
pub open spec fn text_hash(text: Seq<char>) -> u64 {
    DefaultHasher::spec_finish(text_writes(text))
}

/// Hashes a text with a new default hasher.
fn hash_text(text: &str) -> (hash: u64)
    ensures
        hash == text_hash(text@),
{
    let mut hasher = DefaultHasher::new();
    hash_str(text, &mut hasher);
    assert(hasher@ =~= text_writes(text@));
    hasher.finish()
}

/// The node id of a bind address: the lower 32 bits of the address's hash.
pub open spec fn node_id_of(bind_addr: Seq<char>) -> u32 {
    (text_hash(bind_addr) & 0xFFFF_FFFF) as u32
}

/// Computes the node id of a bind address. The same address gives the same
/// id on every start of a server built with the same standard library.
pub fn calculate_node_id(bind_addr: &str) -> (id: u32)
    ensures
        id == node_id_of(bind_addr@),
{
    let hash = hash_text(bind_addr);
    let low = hash & 0xFFFF_FFFF;
    assert(low <= 0xFFFF_FFFF) by (bit_vector)
        requires
            low == hash & 0xFFFF_FFFF,
    ;
    low as u32
}

/// What recovery does once it knows the largest stored clock.
#[derive(Debug, Clone, Copy, PartialEq, Eq, Structural)]
pub enum RecoveryPlan {
    /// Nothing is stored: start with clock 1 and an empty document.
    Fresh,
    /// Read every record and replay it; the clock resumes one past the
    /// largest stored clock.
    Replay,
    /// The largest stored clock leaves the counter no room: do not serve.
    Refuse,
}

/// Decides what recovery does for a largest stored clock.
pub fn plan_recovery(max_clock: u64) -> (plan: RecoveryPlan)
    ensures
        max_clock == 0 <==> plan == RecoveryPlan::Fresh,
        max_clock == u64::MAX <==> plan == RecoveryPlan::Refuse,
        0 < max_clock < u64::MAX <==> plan == RecoveryPlan::Replay,
{
    if max_clock == 0 {
        RecoveryPlan::Fresh
    } else if max_clock == u64::MAX {
        RecoveryPlan::Refuse
    } else {
        RecoveryPlan::Replay
    }
}

/// What a server needs to know of itself before it restores its state.
pub struct ServerBootstrap {
    node_id: u32,
}

impl ServerBootstrap {
    /// The node id that the bootstrap holds.
    pub closed spec fn node(&self) -> u32 {
        self.node_id
    }

    /// A bootstrap for the server that listens on `bind_addr`.
    pub fn new(bind_addr: &str) -> (bootstrap: ServerBootstrap)
        ensures
            bootstrap.node() == node_id_of(bind_addr@),
    {
        ServerBootstrap { node_id: calculate_node_id(bind_addr) }
    }

    /// The node id of this server.
    pub fn node_id(&self) -> (id: u32)
        ensures
            id == self.node(),
    {
        self.node_id
    }

    /// A manager for a server without history: clock 1 and an empty
    /// document.
    pub fn fresh_crdt_manager(&self) -> (manager: CrdtManager)
        ensures
            manager.node() == self.node(),
            manager.clock_value() == 1,
            manager.state() == DocState::empty(),
    {
        CrdtManager::new(self.node_id)
    }

    /// Rebuilds a manager from what the log returned: the clock resumes one
    /// past the largest stored clock, and the document is the replay of the
    /// stored operations in the order given. A largest clock that leaves
    /// the counter no room is an error.
    pub fn restore_crdt_manager(&self, operations: &Vec<StoredOperation>, max_clock: u64) -> (r:
        AppResult<CrdtManager>)
        ensures
            r is Ok <==> max_clock < u64::MAX,
            r matches Ok(manager) ==> manager.node() == self.node() && manager.clock_value()
                == max_clock + 1 && manager.state() == DocState::empty().replay(operations@),
            r matches Err(e) ==> e.is_internal("Stored clock leaves the counter no room"@),
    {
        if max_clock == u64::MAX {
            return Err(AppError::internal("Stored clock leaves the counter no room"));
        }
        let mut manager = CrdtManager::with_initial_clock(self.node_id, max_clock + 1);
        match manager.restore_from_operations(operations) {
            Ok(()) => Ok(manager),
            Err(e) => {
                let reason = e.to_string();
                let mut message = String::from_str("Failed to restore CRDT state: ");
                message.append(reason.as_str());
                Err(AppError::internal(message.as_str()))
            },
        }
    }

    /// Builds the manager of a starting server from its log.
    ///
    /// Over an empty log, or one whose largest clock is zero, the manager is
    /// fresh: clock 1 and an empty document. Otherwise the clock resumes one
    /// past the largest stored clock and the document is the replay of every
    /// stored operation by ascending clock. A largest clock that leaves the
    /// counter no room is an error, as is any failure of the log.
    pub fn initialize_crdt_manager<R: OperationRepository>(&self, operation_repo: &R) -> (r:
        AppResult<CrdtManager>)
        requires
            well_keyed(operation_repo.entries()),
        ensures
            operation_repo.dependable() ==> (r is Ok <==> !is_max_clock(
                operation_repo.entries(),
                u64::MAX,
            )),
            r matches Ok(manager) ==> {
                &&& manager.node() == self.node()
                &&& clock_ahead(operation_repo.entries(), manager.clock_value())
                &&& restored(operation_repo.entries(), manager.clock_value(), manager.state())
                &&& stamped_apart(operation_repo.entries()) ==> folded(
                    operation_repo.entries(),
                    manager.state(),
                )
            },
    {
        let max_clock = operation_repo.get_max_clock()?;
        match plan_recovery(max_clock) {
            RecoveryPlan::Fresh => {
                proof {
                    if stamped_apart(operation_repo.entries()) {
                        lemma_zero_means_empty(operation_repo.entries());
                        lemma_fold_of_empty_log();
                    }
                }
                return Ok(self.fresh_crdt_manager());
            },
            RecoveryPlan::Refuse => {
                return Err(AppError::internal("Stored clock leaves the counter no room"));
            },
            RecoveryPlan::Replay => {},
        }
        let operations = operation_repo.get_all()?;
        let restored = self.restore_crdt_manager(&operations, max_clock);
        proof {
            let log = operation_repo.entries();
            assert forall|id: Seq<char>| #[trigger] log.contains_key(id) implies log[id].clock
                < max_clock + 1 by {}
            if stamped_apart(log) {
                lemma_replay_is_the_fold(log, operations@);
            }
        }
        restored
    }
}

/// Whether a clock and a document are what recovery owes a log: over a log
/// whose largest clock is zero, clock 1 and an empty document; over any
/// other, the clock one past the largest stored clock and the replay of
/// every record by ascending clock.
pub open spec fn restored(log: LogEntries, clock: u64, state: DocState) -> bool {
    if is_max_clock(log, 0) {
        clock == 1 && state == DocState::empty()
    } else {
        &&& is_max_clock(log, (clock - 1) as u64)
        &&& clock >= 2
        &&& exists|listed: Seq<StoredOperation>|
            ascending(listed) && lists_all(log, listed) && #[trigger] DocState::empty().replay(
                listed,
            ) == state
    }
}

/// A restart loses nothing: where the document was in step with the log,
/// recovery from that log rebuilds the same document, and the clock that it
/// resumes at is ahead of every record.
pub proof fn lemma_restart_resumes(
    log: LogEntries,
    state: DocState,
    restored_clock: u64,
    restored_state: DocState,
)
    requires
        stamped_apart(log),
        folded(log, state),
        restored(log, restored_clock, restored_state),
    ensures
        restored_state == state,
        clock_ahead(log, restored_clock),
{
    if is_max_clock(log, 0) {
        lemma_zero_means_empty(log);
        lemma_fold_of_empty_log();
        assert(lists_all(log, Seq::<StoredOperation>::empty()));
        assert(DocState::empty().replay(Seq::<StoredOperation>::empty()) == state);
    } else {
        let listed = choose|listed: Seq<StoredOperation>|
            ascending(listed) && lists_all(log, listed) && #[trigger] DocState::empty().replay(
                listed,
            ) == restored_state;
        assert(lists_all(log, listed));
    }
}

} // verus!
