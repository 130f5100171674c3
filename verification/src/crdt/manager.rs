//! The manager that owns the clock and the document of a server.

use vstd::prelude::*;
use dashmap::DashMap;
use crate::crdt::clock::{merged, ticked, LamportClock};
use crate::crdt::document::CrdtDocument;
use crate::crdt::documents::{documents_new, documents_put, documents_take, table_documents};
use crate::crdt::model::DocState;
use crate::crdt::records::CrdtError;
use crate::error::app_error::AppResult;
use crate::text::same_text;
use crate::sync::operation::{CrdtOperation, StoredOperation};

verus! {

/// The id of the document that the sync protocol applies operations to.
pub open spec fn default_document_id() -> Seq<char> {
    "default"@
}

/// The clock and the documents of one server.
///
/// Every operation of the sync protocol is applied to the document with the
/// id `default`, which the manager holds at hand so that it can be read
/// without leaving its place. Documents with other ids are made on first
/// use and kept in a table by id.
pub struct CrdtManager {
    document: CrdtDocument,
    documents: DashMap<String, CrdtDocument>,
    clock: LamportClock,
}

impl CrdtManager {
    /// The state of the document.
    pub closed spec fn state(&self) -> DocState {
        self.document.state()
    }

    /// The state of the document with this id, if the manager has one. The
    /// default document is always there.
    pub closed spec fn document_state(&self, doc_id: Seq<char>) -> Option<DocState> {
        if doc_id == default_document_id() {
            Some(self.document.state())
        } else if table_documents(self.documents).contains_key(doc_id) {
            Some(table_documents(self.documents)[doc_id].state())
        } else {
            None
        }
    }

    /// The state of the document with this id, or the empty state where the
    /// manager has no such document yet.
    pub open spec fn state_or_empty(&self, doc_id: Seq<char>) -> DocState {
        match self.document_state(doc_id) {
            Some(state) => state,
            None => DocState::empty(),
        }
    }

    /// Whether every document but the one with this id is in `after` as it
    /// is here, and the clock and the node with it.
    pub open spec fn same_but(&self, after: CrdtManager, doc_id: Seq<char>) -> bool {
        &&& forall|other: Seq<char>|
            other != doc_id ==> #[trigger] after.document_state(other) == self.document_state(
                other,
            )
        &&& after.clock_value() == self.clock_value()
        &&& after.node() == self.node()
    }

    /// The value of the clock.
    pub closed spec fn clock_value(&self) -> u64 {
        self.clock.value()
    }

    /// The id of the node.
    pub closed spec fn node(&self) -> u32 {
        self.clock.node()
    }

    /// A manager for a server without history: the clock starts at 1 and
    /// the document is empty.
    pub fn new(node_id: u32) -> (manager: CrdtManager)
        ensures
            manager.clock_value() == 1,
            manager.node() == node_id,
            manager.state() == DocState::empty(),
            forall|doc_id: Seq<char>|
                doc_id != default_document_id() ==> #[trigger] manager.document_state(doc_id)
                    is None,
    {
        CrdtManager {
            document: CrdtDocument::new(),
            documents: documents_new(),
            clock: LamportClock::new(node_id),
        }
    }

    /// A manager whose clock resumes at `initial_clock`, with an empty
    /// document.
    pub fn with_initial_clock(node_id: u32, initial_clock: u64) -> (manager: CrdtManager)
        ensures
            manager.clock_value() == initial_clock,
            manager.node() == node_id,
            manager.state() == DocState::empty(),
            forall|doc_id: Seq<char>|
                doc_id != default_document_id() ==> #[trigger] manager.document_state(doc_id)
                    is None,
    {
        CrdtManager {
            document: CrdtDocument::new(),
            documents: documents_new(),
            clock: LamportClock::with_initial_value(node_id, initial_clock),
        }
    }

    /// The document, for reading.
    pub fn document(&self) -> (document: &CrdtDocument)
        ensures
            document.state() == self.state(),
    {
        &self.document
    }

    /// Reads the clock.
    pub fn current_clock(&self) -> (now: u64)
        ensures
            now == self.clock_value(),
    {
        self.clock.current()
    }

    /// Shows the clock a client's value; see [`LamportClock::update`].
    pub fn update_clock(&mut self, received_clock: u64) -> (now: u64)
        requires
            merged(old(self).clock_value(), received_clock) <= u64::MAX,
        ensures
            now == merged(old(self).clock_value(), received_clock),
            final(self).clock_value() == now,
            final(self).node() == old(self).node(),
            final(self).state() == old(self).state(),
    {
        self.clock.update(received_clock)
    }

    /// Takes the next clock value; see [`LamportClock::tick`].
    pub fn tick_clock(&mut self) -> (t: u64)
        ensures
            t == old(self).clock_value(),
            final(self).clock_value() == ticked(old(self).clock_value()),
            final(self).node() == old(self).node(),
            final(self).state() == old(self).state(),
            forall|doc_id: Seq<char>| #[trigger]
                final(self).document_state(doc_id) == old(self).document_state(doc_id),
    {
        self.clock.tick()
    }

    /// The id of the node.
    pub fn node_id(&self) -> (id: u32)
        ensures
            id == self.node(),
    {
        self.clock.node_id()
    }

    /// Takes the document with this id out of the table, or makes a new one
    /// where the table has none.
    fn checkout(&mut self, doc_id: &str) -> (document: CrdtDocument)
        requires
            doc_id@ != default_document_id(),
        ensures
            document.state() == old(self).state_or_empty(doc_id@),
            old(self).same_but(*final(self), doc_id@),
            final(self).state() == old(self).state(),
            table_documents(final(self).documents) == table_documents(old(self).documents).remove(
                doc_id@,
            ),
            final(self).document == old(self).document,
            final(self).clock == old(self).clock,
    {
        match documents_take(&mut self.documents, doc_id) {
            Some(document) => document,
            None => CrdtDocument::new(),
        }
    }

    /// Puts a document into the table under this id.
    fn checkin(&mut self, doc_id: &str, document: CrdtDocument)
        requires
            doc_id@ != default_document_id(),
        ensures
            final(self).document_state(doc_id@) == Some(document.state()),
            old(self).same_but(*final(self), doc_id@),
            final(self).state() == old(self).state(),
    {
        documents_put(&mut self.documents, doc_id.to_owned(), document);
    }

    /// Makes sure that the manager has a document with this id: a document
    /// that is there stays as it is, and one that is not is made empty.
    pub fn get_or_create_document(&mut self, doc_id: &str)
        ensures
            final(self).document_state(doc_id@) == Some(old(self).state_or_empty(doc_id@)),
            old(self).same_but(*final(self), doc_id@),
            final(self).state() == old(self).state(),
    {
        if !same_text(doc_id, "default") {
            let document = self.checkout(doc_id);
            self.checkin(doc_id, document);
        }
    }

    /// Puts the document that the bytes of an encoded state stand for under
    /// this id, in place of any document that was there. Bytes that stand
    /// for no document are an error and change nothing.
    pub fn load_document(&mut self, doc_id: &str, state: &[u8]) -> (r: Result<(), CrdtError>)
        ensures
            old(self).same_but(*final(self), doc_id@),
            r is Ok ==> final(self).document_state(doc_id@) is Some,
            r matches Err(e) ==> (e is DecodeError || e is ApplyError) && final(self).document_state(doc_id@) == old(self).document_state(doc_id@) && final(self).state()
                == old(self).state(),
    {
        let document = match CrdtDocument::from_state(state) {
            Ok(document) => document,
            Err(e) => {
                return Err(e);
            },
        };
        if same_text(doc_id, "default") {
            self.document = document;
        } else {
            self.checkin(doc_id, document);
        }
        Ok(())
    }

    /// Merges the bytes of an encoded update into the document with this
    /// id, which is made where it is missing, ticks the clock, and returns
    /// the whole document as the bytes of one update. An update that cannot
    /// be decoded or merged is a sync error: the clock does not tick, and
    /// bytes that encode no update leave the document as it was.
    pub fn apply_update(&mut self, doc_id: &str, update: &[u8]) -> (r: AppResult<Vec<u8>>)
        ensures
            final(self).document_state(doc_id@) is Some,
            forall|other: Seq<char>|
                other != doc_id@ ==> #[trigger] final(self).document_state(other) == old(self).document_state(other),
            final(self).node() == old(self).node(),
            r is Ok ==> final(self).clock_value() == ticked(old(self).clock_value()),
            r matches Err(e) ==> e is Sync && final(self).clock_value() == old(self).clock_value(),
    {
        let merged = if same_text(doc_id, "default") {
            let merged = self.document.apply_update(update);
            match merged {
                Ok(()) => Ok(self.document.encode_state()),
                Err(e) => Err(e),
            }
        } else {
            let mut document = self.checkout(doc_id);
            let merged = document.apply_update(update);
            let bytes = document.encode_state();
            self.checkin(doc_id, document);
            match merged {
                Ok(()) => Ok(bytes),
                Err(e) => Err(e),
            }
        };
        let ghost merged_in = *self;
        assert forall|other: Seq<char>| other != doc_id@ implies #[trigger] merged_in.document_state(
            other,
        ) == old(self).document_state(other) by {}
        match merged {
            Ok(bytes) => {
                let _ = self.tick_clock();
                assert forall|other: Seq<char>| other != doc_id@ implies #[trigger] self.document_state(
                    other,
                ) == old(self).document_state(other) by {
                    assert(self.document_state(other) == merged_in.document_state(other));
                }
                Ok(bytes)
            },
            Err(e) => Err(e.into_app_error()),
        }
    }

    /// What the document with this id holds beyond a state vector, as the
    /// bytes of one update. The document is made where it is missing.
    pub fn get_updates_since(&mut self, doc_id: &str, state_vector: &yrs::StateVector) -> (r:
        AppResult<Vec<u8>>)
        ensures
            r is Ok,
            final(self).document_state(doc_id@) == Some(old(self).state_or_empty(doc_id@)),
            old(self).same_but(*final(self), doc_id@),
            final(self).state() == old(self).state(),
    {
        if same_text(doc_id, "default") {
            Ok(self.document.encode_diff_since(state_vector))
        } else {
            let document = self.checkout(doc_id);
            let bytes = document.encode_diff_since(state_vector);
            self.checkin(doc_id, document);
            Ok(bytes)
        }
    }

    /// The whole document with this id as the bytes of one update. The
    /// document is made where it is missing.
    pub fn get_full_state(&mut self, doc_id: &str) -> (r: AppResult<Vec<u8>>)
        ensures
            r is Ok,
            final(self).document_state(doc_id@) == Some(old(self).state_or_empty(doc_id@)),
            old(self).same_but(*final(self), doc_id@),
            final(self).state() == old(self).state(),
    {
        if same_text(doc_id, "default") {
            Ok(self.document.encode_state())
        } else {
            let document = self.checkout(doc_id);
            let bytes = document.encode_state();
            self.checkin(doc_id, document);
            Ok(bytes)
        }
    }

    /// Applies one operation to the document at the server clock `clock`.
    /// The manager's own clock does not move.
    pub fn apply_operation(&mut self, operation: &CrdtOperation, clock: u64) -> (r: Result<
        (),
        CrdtError,
    >)
        ensures
            r is Ok,
            final(self).state() == old(self).state().apply(*operation, clock),
            final(self).clock_value() == old(self).clock_value(),
            final(self).node() == old(self).node(),
    {
        self.document.apply_operation(operation, clock)
    }

    /// Rebuilds the document from stored operations: each is applied at its
    /// own clock, in the order given. The manager's clock does not move.
    pub fn restore_from_operations(&mut self, operations: &Vec<StoredOperation>) -> (r: Result<
        (),
        CrdtError,
    >)
        ensures
            r is Ok,
            final(self).state() == old(self).state().replay(operations@),
            final(self).clock_value() == old(self).clock_value(),
            final(self).node() == old(self).node(),
    {
        self.document.replay(operations)
    }
}

/// Applies one operation to the manager's document and reports a failure
/// of the document as a sync error.
pub fn apply_operation_to_state(
    crdt_manager: &mut CrdtManager,
    operation: &CrdtOperation,
    clock: u64,
) -> (r: AppResult<()>)
    ensures
        r is Ok,
        final(crdt_manager).state() == old(crdt_manager).state().apply(*operation, clock),
        final(crdt_manager).clock_value() == old(crdt_manager).clock_value(),
        final(crdt_manager).node() == old(crdt_manager).node(),
{
    match crdt_manager.apply_operation(operation, clock) {
        Ok(()) => Ok(()),
        Err(e) => Err(e.into_app_error()),
    }
}

} // verus!
