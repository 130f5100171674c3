//! The shared document of the `yrs` crate as a store of records.
//!
//! A `yrs::Doc` holds named root maps. Each root map holds entries under
//! string keys, and the entries written here are records: maps from field
//! names to texts, flags and integers. Nothing in this file is proved: it
//! states what the calls into `yrs` do, and the rest of the crate is proved
//! against these statements.

use vstd::prelude::*;
use std::collections::HashMap;

verus! {

#[verifier::external_type_specification]
#[verifier::external_body]
pub struct ExDoc(yrs::Doc);

#[verifier::external_type_specification]
#[verifier::external_body]
pub struct ExUpdate(yrs::Update);

#[verifier::external_type_specification]
#[verifier::external_body]
pub struct ExStateVector(yrs::StateVector);

#[verifier::external_type_specification]
#[verifier::external_body]
pub struct ExReadError(yrs::encoding::read::Error);

#[verifier::external_type_specification]
#[verifier::external_body]
pub struct ExUpdateError(yrs::error::UpdateError);

/// A value that a record holds under a field name.
#[derive(Debug)]
pub enum FieldValue {
    Text(String),
    Flag(bool),
    Number(i64),
}

/// The mathematical content of a [`FieldValue`].
pub enum FieldView {
    Text(Seq<char>),
    Flag(bool),
    Number(i64),
}

impl View for FieldValue {
    type V = FieldView;

    open spec fn view(&self) -> FieldView {
        match self {
            FieldValue::Text(s) => FieldView::Text(s@),
            FieldValue::Flag(b) => FieldView::Flag(*b),
            FieldValue::Number(n) => FieldView::Number(*n),
        }
    }
}

/// A record: its fields by name.
pub type Record = Map<Seq<char>, FieldView>;

/// The live entries of a document, by root map name and key. An entry that
/// is a record maps to its fields that hold a text, a flag or an integer;
/// an entry of any other shape maps to `None`.
pub type Entries = Map<(Seq<char>, Seq<char>), Option<Record>>;

/// The live entries of a `yrs` document.
pub uninterp spec fn doc_entries(doc: yrs::Doc) -> Entries;

/// The record that a list of named values makes; where a name occurs twice
/// the later value stands.
pub open spec fn record_of(fields: Seq<(String, FieldValue)>) -> Record
    decreases fields.len(),
{
    if fields.len() == 0 {
        Map::empty()
    } else {
        record_of(fields.drop_last()).insert(fields.last().0@, fields.last().1@)
    }
}

/// The value of a field of an entry: `None` where the entry is missing or no
/// record, or the record has no such field.
pub open spec fn field_of(entries: Entries, root: Seq<char>, key: Seq<char>, field: Seq<char>)
    -> Option<FieldView> {
    if entries.contains_key((root, key)) && entries[(root, key)] is Some && entries[(
        root,
        key,
    )]->0.contains_key(field) {
        Some(entries[(root, key)]->0[field])
    } else {
        None
    }
}

/// The view of an optional field value.
pub open spec fn opt_field(value: Option<FieldValue>) -> Option<FieldView> {
    match value {
        Some(v) => Some(v@),
        None => None,
    }
}

/// Whether `keys` lists the keys of the live entries of a root map, each
/// once and in no particular order, with a flag that says whether the entry
/// is a record.
pub open spec fn lists_keys(entries: Entries, root: Seq<char>, keys: Seq<(String, bool)>) -> bool {
    &&& forall|i: int, j: int|
        0 <= i < j < keys.len() ==> (#[trigger] keys[i]).0@ != (#[trigger] keys[j]).0@
    &&& forall|i: int|
        0 <= i < keys.len() ==> entries.contains_key((root, (#[trigger] keys[i]).0@))
            && keys[i].1 == (entries[(root, keys[i].0@)] is Some)
    &&& forall|key: Seq<char>| #[trigger]
        entries.contains_key((root, key)) ==> exists|i: int|
            0 <= i < keys.len() && (#[trigger] keys[i]).0@ == key
}

/// `yrs::Doc::new`: a new document has no entries.
#[verifier::external_body]
pub(crate) fn doc_new() -> (doc: yrs::Doc)
    ensures
        doc_entries(doc) == Entries::empty(),
{
    yrs::Doc::new()
}

/// `yrs::Map::iter` on the root map `root`: the iterator yields every live
/// entry once, in no particular order. Each key comes with whether the
/// entry's value is an embedded map.
#[verifier::external_body]
pub(crate) fn doc_keys(doc: &yrs::Doc, root: &str) -> (keys: Vec<(String, bool)>)
    ensures
        lists_keys(doc_entries(*doc), root@, keys@),
{
    let map = doc.get_or_insert_map(root);
    let txn = yrs::Transact::transact(doc);
    yrs::Map::iter(&map, &txn).map(
        |(k, v)| (k.to_string(), matches!(v, yrs::Out::Any(yrs::Any::Map(_)))),
    ).collect()
}

/// `yrs::Map::get` on the root map `root`: the live entry under `key`. Of an
/// embedded map the value under `field` is handed out where it is a string,
/// a boolean or an integer.
#[verifier::external_body]
pub(crate) fn doc_field(doc: &yrs::Doc, root: &str, key: &str, field: &str) -> (value: Option<
    FieldValue,
>)
    ensures
        opt_field(value) == field_of(doc_entries(*doc), root@, key@, field@),
{
    let map = doc.get_or_insert_map(root);
    let txn = yrs::Transact::transact(doc);
    match yrs::Map::get(&map, &txn, key) {
        Some(yrs::Out::Any(yrs::Any::Map(fields))) => match fields.get(field) {
            Some(yrs::Any::String(s)) => Some(FieldValue::Text(s.to_string())),
            Some(yrs::Any::Bool(b)) => Some(FieldValue::Flag(*b)),
            Some(yrs::Any::Number(yrs::Number::Int(n))) => Some(FieldValue::Number(*n)),
            _ => None,
        },
        _ => None,
    }
}

/// `yrs::Map::insert` on the root map `root`: the record becomes the live
/// entry under `key`, in place of any earlier one; no other entry changes.
#[verifier::external_body]
pub(crate) fn doc_put(doc: &mut yrs::Doc, root: &str, key: &str, fields: Vec<(String, FieldValue)>)
    ensures
        doc_entries(*final(doc)) == doc_entries(*old(doc)).insert(
            (root@, key@),
            Some(record_of(fields@)),
        ),
{
    let record: HashMap<String, yrs::Any> = fields.into_iter().map(
        |(name, value)| match value {
            FieldValue::Text(s) => (name, yrs::Any::from(s)),
            FieldValue::Flag(b) => (name, yrs::Any::from(b)),
            FieldValue::Number(n) => (name, yrs::Any::from(n)),
        },
    ).collect();
    let map = doc.get_or_insert_map(root);
    yrs::Map::insert(&map, &mut yrs::Transact::transact_mut(doc), key, yrs::Any::from(record));
}

/// `yrs::Map::remove` on the root map `root`: the entry under `key` is no
/// longer live; no other entry changes.
#[verifier::external_body]
pub(crate) fn doc_remove(doc: &mut yrs::Doc, root: &str, key: &str)
    ensures
        doc_entries(*final(doc)) == doc_entries(*old(doc)).remove((root@, key@)),
{
    let map = doc.get_or_insert_map(root);
    yrs::Map::remove(&map, &mut yrs::Transact::transact_mut(doc), key);
}

/// `yrs::updates::decoder::Decode::decode_v1` for `yrs::Update`: the update
/// that the bytes encode, or why they encode none. Nothing is promised of
/// the outcome.
#[verifier::external_body]
pub(crate) fn update_decode(bytes: &[u8]) -> (decoded: Result<
    yrs::Update,
    yrs::encoding::read::Error,
>) {
    yrs::updates::decoder::Decode::decode_v1(bytes)
}

/// The `Display` of `yrs::encoding::read::Error`: the error in words.
/// Nothing is promised of the text.
#[verifier::external_body]
pub(crate) fn read_error_text(error: &yrs::encoding::read::Error) -> (text: String) {
    error.to_string()
}

/// The `Display` of `yrs::error::UpdateError`: the error in words. Nothing
/// is promised of the text.
#[verifier::external_body]
pub(crate) fn update_error_text(error: &yrs::error::UpdateError) -> (text: String) {
    error.to_string()
}

/// `yrs::TransactionMut::apply_update`: merges an update into the document.
/// What the document holds afterwards is the business of the merge:
/// nothing is promised of it.
#[verifier::external_body]
pub(crate) fn doc_apply_update(doc: &mut yrs::Doc, update: yrs::Update) -> (applied: Result<
    (),
    yrs::error::UpdateError,
>) {
    yrs::Transact::transact_mut(doc).apply_update(update)
}

/// `yrs::ReadTxn::encode_state_as_update_v1` against an empty state vector:
/// the whole document as one update. Nothing is promised of the bytes.
#[verifier::external_body]
pub(crate) fn doc_encode_state(doc: &yrs::Doc) -> (bytes: Vec<u8>) {
    yrs::ReadTxn::encode_state_as_update_v1(
        &yrs::Transact::transact(doc),
        &yrs::StateVector::default(),
    )
}

/// `yrs::ReadTxn::encode_diff_v1`: what the document holds beyond a state
/// vector, as one update. Nothing is promised of the bytes.
#[verifier::external_body]
pub(crate) fn doc_encode_diff(doc: &yrs::Doc, state_vector: &yrs::StateVector) -> (bytes: Vec<u8>) {
    yrs::ReadTxn::encode_diff_v1(&yrs::Transact::transact(doc), state_vector)
}

/// `yrs::ReadTxn::state_vector`: the state vector of the document. Nothing
/// is promised of the value.
#[verifier::external_body]
pub(crate) fn doc_state_vector(doc: &yrs::Doc) -> (state_vector: yrs::StateVector) {
    yrs::ReadTxn::state_vector(&yrs::Transact::transact(doc))
}

} // verus!
