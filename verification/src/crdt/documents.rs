//! The concurrent map of the `dashmap` crate as the table of the documents
//! that a manager keeps by id.
//!
//! Nothing in this file is proved: it states what the calls into `dashmap`
//! do, and the manager is proved against these statements.

use vstd::prelude::*;
use dashmap::DashMap;
use crate::crdt::document::CrdtDocument;

verus! {

/// The documents of a table, by id.
pub type Documents = Map<Seq<char>, CrdtDocument>;

/// The documents that a table holds, by id.
pub uninterp spec fn table_documents(table: DashMap<String, CrdtDocument>) -> Documents;

/// The document under an id, if the table holds one.
pub open spec fn document_of(documents: Documents, doc_id: Seq<char>) -> Option<CrdtDocument> {
    if documents.contains_key(doc_id) {
        Some(documents[doc_id])
    } else {
        None
    }
}

/// `DashMap::new`: a new table is empty.
#[verifier::external_body]
pub(crate) fn documents_new() -> (table: DashMap<String, CrdtDocument>)
    ensures
        table_documents(table) == Documents::empty(),
{
    DashMap::new()
}

/// `DashMap::remove`: the document under `doc_id` leaves the table and is
/// handed out, if there is one; no other entry changes.
#[verifier::external_body]
pub(crate) fn documents_take(table: &mut DashMap<String, CrdtDocument>, doc_id: &str) -> (taken:
    Option<CrdtDocument>)
    ensures
        taken == document_of(table_documents(*old(table)), doc_id@),
        table_documents(*final(table)) == table_documents(*old(table)).remove(doc_id@),
{
    table.remove(doc_id).map(|entry| entry.1)
}

/// `DashMap::insert`: the document becomes the entry under `doc_id`, in
/// place of any earlier one; no other entry changes.
#[verifier::external_body]
pub(crate) fn documents_put(
    table: &mut DashMap<String, CrdtDocument>,
    doc_id: String,
    document: CrdtDocument,
)
    ensures
        table_documents(*final(table)) == table_documents(*old(table)).insert(doc_id@, document),
{
    table.insert(doc_id, document);
}

} // verus!
