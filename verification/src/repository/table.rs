//! The concurrent map of the `dashmap` crate as the table of an in-memory
//! log.
//!
//! Nothing in this file is proved: it states what the calls into `dashmap`
//! do, and the rest of the crate is proved against these statements.

use vstd::prelude::*;
use dashmap::DashMap;
use crate::repository::model::LogEntries;
use crate::sync::operation::StoredOperation;

verus! {

#[verifier::external_type_specification]
#[verifier::external_body]
#[verifier::reject_recursive_types(K)]
#[verifier::reject_recursive_types(V)]
#[verifier::reject_recursive_types(S)]
pub struct ExDashMap<K, V, S>(DashMap<K, V, S>);

/// The records that a table holds, by key.
pub uninterp spec fn table_entries(table: DashMap<String, StoredOperation>) -> LogEntries;

/// Whether `rows` holds every entry of the table once, each key with its
/// record, in no particular order.
pub open spec fn lists_rows(entries: LogEntries, rows: Seq<(String, StoredOperation)>) -> bool {
    &&& forall|i: int, j: int|
        0 <= i < j < rows.len() ==> (#[trigger] rows[i]).0@ != (#[trigger] rows[j]).0@
    &&& forall|i: int|
        0 <= i < rows.len() ==> entries.contains_key((#[trigger] rows[i]).0@) && entries[rows[i].0@]
            == rows[i].1
    &&& forall|key: Seq<char>| #[trigger]
        entries.contains_key(key) ==> exists|i: int|
            0 <= i < rows.len() && (#[trigger] rows[i]).0@ == key
}

/// `DashMap::new`: a new table is empty.
#[verifier::external_body]
pub(crate) fn table_new() -> (table: DashMap<String, StoredOperation>)
    ensures
        table_entries(table) == LogEntries::empty(),
{
    DashMap::new()
}

/// `DashMap::contains_key`: whether the table holds an entry under `key`.
#[verifier::external_body]
pub(crate) fn table_contains(table: &DashMap<String, StoredOperation>, key: &str) -> (found: bool)
    ensures
        found == table_entries(*table).contains_key(key@),
{
    table.contains_key(key)
}

/// `DashMap::insert`: the record becomes the entry under `key`, in place of
/// any earlier one; no other entry changes.
#[verifier::external_body]
pub(crate) fn table_insert(
    table: &mut DashMap<String, StoredOperation>,
    key: String,
    record: StoredOperation,
)
    ensures
        table_entries(*final(table)) == table_entries(*old(table)).insert(key@, record),
{
    table.insert(key, record);
}

/// `DashMap::iter`: the iterator yields every entry once, in no particular
/// order. Each entry is handed out as a copy of its key and of its record.
#[verifier::external_body]
pub(crate) fn table_rows(table: &DashMap<String, StoredOperation>) -> (rows: Vec<
    (String, StoredOperation),
>)
    ensures
        lists_rows(table_entries(*table), rows@),
{
    table.iter().map(|entry| (entry.key().clone(), entry.value().clone())).collect()
}

} // verus!
