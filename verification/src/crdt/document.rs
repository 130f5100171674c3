//! The merge document: the current tabs and windows, held in a `yrs`
//! document and changed only by applying operations.

use vstd::prelude::*;
use vstd::string::*;
use crate::crdt::model::DocState;
use crate::crdt::records::{CrdtError, CrdtTab, CrdtWindow, TabView, WindowView};
use crate::crdt::store::{
    doc_apply_update,
    doc_encode_diff,
    doc_encode_state,
    doc_state_vector,
    read_error_text,
    update_decode,
    update_error_text,
    doc_entries,
    doc_field,
    doc_keys,
    doc_new,
    doc_put,
    doc_remove,
    field_of,
    lists_keys,
    record_of,
    Entries,
    FieldValue,
    FieldView,
    Record,
};
use crate::text::{join2, same_text};

verus! {

/// The name of the root map that holds the tabs.
pub open spec fn tabs_root() -> Seq<char> {
    "tabs"@
}

/// The name of the root map that holds the windows.
pub open spec fn windows_root() -> Seq<char> {
    "windows"@
}

/// The text under a field of an entry, or the empty text where the entry
/// has no text there.
pub open spec fn entry_text(entries: Entries, root: Seq<char>, key: Seq<char>, field: Seq<char>)
    -> Seq<char> {
    match field_of(entries, root, key, field) {
        Some(FieldView::Text(s)) => s,
        _ => Seq::empty(),
    }
}

/// The flag under a field of an entry, or `false` where the entry has no
/// flag there.
pub open spec fn entry_flag(entries: Entries, root: Seq<char>, key: Seq<char>, field: Seq<char>)
    -> bool {
    match field_of(entries, root, key, field) {
        Some(FieldView::Flag(b)) => b,
        _ => false,
    }
}

/// The integer under a field of an entry, or zero where the entry has no
/// integer there.
pub open spec fn entry_number(entries: Entries, root: Seq<char>, key: Seq<char>, field: Seq<char>)
    -> i64 {
    match field_of(entries, root, key, field) {
        Some(FieldView::Number(n)) => n,
        _ => 0,
    }
}

/// The tab that the entry under `id` stands for. A field that the entry
/// lacks reads as empty, false or zero. A server clock is kept in the 64
/// bits of the stored integer.
pub open spec fn decode_tab(entries: Entries, id: Seq<char>) -> TabView {
    TabView {
        id,
        window_id: entry_text(entries, tabs_root(), id, "window_id"@),
        url: entry_text(entries, tabs_root(), id, "url"@),
        title: entry_text(entries, tabs_root(), id, "title"@),
        active: entry_flag(entries, tabs_root(), id, "active"@),
        index: entry_number(entries, tabs_root(), id, "index"@) as i32,
        updated_at: entry_number(entries, tabs_root(), id, "updated_at"@) as u64,
    }
}

/// The window that the entry under `id` stands for.
pub open spec fn decode_window(entries: Entries, id: Seq<char>) -> WindowView {
    WindowView {
        id,
        is_tracked: entry_flag(entries, windows_root(), id, "is_tracked"@),
        tab_count: entry_number(entries, windows_root(), id, "tab_count"@) as u32,
        updated_at: entry_number(entries, windows_root(), id, "updated_at"@) as u64,
    }
}

/// Whether the entry under `key` of the root map `root` is a record.
pub open spec fn is_record(entries: Entries, root: Seq<char>, key: Seq<char>) -> bool {
    entries.contains_key((root, key)) && entries[(root, key)] is Some
}

/// The state that a document's entries stand for: the records of the two
/// root maps, decoded.
pub open spec fn decode_state(entries: Entries) -> DocState {
    DocState {
        tabs: Map::new(
            |id: Seq<char>| is_record(entries, tabs_root(), id),
            |id: Seq<char>| decode_tab(entries, id),
        ),
        windows: Map::new(
            |id: Seq<char>| is_record(entries, windows_root(), id),
            |id: Seq<char>| decode_window(entries, id),
        ),
    }
}

/// The record that a tab is stored as.
pub open spec fn tab_record(tab: TabView) -> Record {
    Map::<Seq<char>, FieldView>::empty().insert("id"@, FieldView::Text(tab.id)).insert(
        "window_id"@,
        FieldView::Text(tab.window_id),
    ).insert("url"@, FieldView::Text(tab.url)).insert("title"@, FieldView::Text(tab.title)).insert(
        "active"@,
        FieldView::Flag(tab.active),
    ).insert("index"@, FieldView::Number(tab.index as i64)).insert(
        "updated_at"@,
        FieldView::Number(tab.updated_at as i64),
    )
}

/// The record that a window is stored as.
pub open spec fn window_record(window: WindowView) -> Record {
    Map::<Seq<char>, FieldView>::empty().insert("id"@, FieldView::Text(window.id)).insert(
        "is_tracked"@,
        FieldView::Flag(window.is_tracked),
    ).insert("tab_count"@, FieldView::Number(window.tab_count as i64)).insert(
        "updated_at"@,
        FieldView::Number(window.updated_at as i64),
    )
}

/// Whether `listed` names every tab of `tabs` once, in no particular order.
pub open spec fn lists_tabs(tabs: Map<Seq<char>, TabView>, listed: Seq<CrdtTab>) -> bool {
    &&& forall|i: int, j: int|
        0 <= i < j < listed.len() ==> (#[trigger] listed[i]).id@ != (#[trigger] listed[j]).id@
    &&& forall|i: int|
        0 <= i < listed.len() ==> tabs.contains_key((#[trigger] listed[i]).id@) && tabs[listed[i].id@]
            == listed[i]@
    &&& forall|id: Seq<char>| #[trigger]
        tabs.contains_key(id) ==> exists|i: int|
            0 <= i < listed.len() && (#[trigger] listed[i]).id@ == id
}

/// Whether `listed` names every window of `windows` once, in no particular
/// order.
pub open spec fn lists_windows(windows: Map<Seq<char>, WindowView>, listed: Seq<CrdtWindow>)
    -> bool {
    &&& forall|i: int, j: int|
        0 <= i < j < listed.len() ==> (#[trigger] listed[i]).id@ != (#[trigger] listed[j]).id@
    &&& forall|i: int|
        0 <= i < listed.len() ==> windows.contains_key((#[trigger] listed[i]).id@)
            && windows[listed[i].id@] == listed[i]@
    &&& forall|id: Seq<char>| #[trigger]
        windows.contains_key(id) ==> exists|i: int|
            0 <= i < listed.len() && (#[trigger] listed[i]).id@ == id
}

proof fn lemma_record_push(fields: Seq<(String, FieldValue)>, name: String, value: FieldValue)
    ensures
        record_of(fields.push((name, value))) == record_of(fields).insert(name@, value@),
{
    let extended = fields.push((name, value));
    assert(extended.drop_last() =~= fields);
    assert(extended.last() == (name, value));
}

proof fn lemma_field_names_differ()
    ensures
        "id"@ != "window_id"@,
        "id"@ != "url"@,
        "id"@ != "title"@,
        "id"@ != "active"@,
        "id"@ != "index"@,
        "id"@ != "updated_at"@,
        "id"@ != "is_tracked"@,
        "id"@ != "tab_count"@,
        "window_id"@ != "url"@,
        "window_id"@ != "title"@,
        "window_id"@ != "active"@,
        "window_id"@ != "index"@,
        "window_id"@ != "updated_at"@,
        "url"@ != "title"@,
        "url"@ != "active"@,
        "url"@ != "index"@,
        "url"@ != "updated_at"@,
        "title"@ != "active"@,
        "title"@ != "index"@,
        "title"@ != "updated_at"@,
        "active"@ != "index"@,
        "active"@ != "updated_at"@,
        "index"@ != "updated_at"@,
        "is_tracked"@ != "tab_count"@,
        "is_tracked"@ != "updated_at"@,
        "tab_count"@ != "updated_at"@,
        "tabs"@ != "windows"@,
{
    reveal_strlit("id");
    reveal_strlit("window_id");
    reveal_strlit("url");
    reveal_strlit("title");
    reveal_strlit("active");
    reveal_strlit("index");
    reveal_strlit("updated_at");
    reveal_strlit("is_tracked");
    reveal_strlit("tab_count");
    reveal_strlit("tabs");
    reveal_strlit("windows");
    assert("id"@.len() == 2);
    assert("window_id"@.len() == 9);
    assert("url"@.len() == 3);
    assert("title"@.len() == 5);
    assert("active"@.len() == 6);
    assert("index"@.len() == 5);
    assert("updated_at"@.len() == 10);
    assert("is_tracked"@.len() == 10);
    assert("tab_count"@.len() == 9);
    assert("tabs"@.len() == 4);
    assert("windows"@.len() == 7);
    assert("title"@[0] != "index"@[0]);
    assert("is_tracked"@[0] != "updated_at"@[0]);
}

proof fn lemma_clock_bits(clock: u64)
    ensures
        ((clock as i64) as u64) == clock,
{
    assert(((clock as i64) as u64) == clock) by (bit_vector);
}

/// Writing a tab's record and decoding the entry gives the tab back, and
/// touches no other tab and no window.
proof fn lemma_put_tab(entries: Entries, tab: TabView)
    ensures
        decode_state(entries.insert((tabs_root(), tab.id), Some(tab_record(tab)))) == decode_state(
            entries,
        ).with_tab(tab),
{
    lemma_field_names_differ();
    lemma_clock_bits(tab.updated_at);
    let after = entries.insert((tabs_root(), tab.id), Some(tab_record(tab)));
    let left = decode_state(after);
    let right = decode_state(entries).with_tab(tab);
    assert(decode_tab(after, tab.id) == tab);
    assert forall|id: Seq<char>| #[trigger] left.tabs.contains_key(id) implies left.tabs[id]
        == right.tabs[id] by {
        if id != tab.id {
            assert(after[(tabs_root(), id)] == entries[(tabs_root(), id)]);
        }
    }
    assert(left.tabs =~= right.tabs);
    assert forall|id: Seq<char>| #[trigger] left.windows.contains_key(id) implies left.windows[id]
        == right.windows[id] by {
        assert(after[(windows_root(), id)] == entries[(windows_root(), id)]);
    }
    assert(left.windows =~= right.windows);
}

/// Writing a window's record and decoding the entry gives the window back,
/// and touches no other window and no tab.
proof fn lemma_put_window(entries: Entries, window: WindowView)
    ensures
        decode_state(entries.insert((windows_root(), window.id), Some(window_record(window))))
            == decode_state(entries).with_window(window),
{
    lemma_field_names_differ();
    lemma_clock_bits(window.updated_at);
    let after = entries.insert((windows_root(), window.id), Some(window_record(window)));
    let left = decode_state(after);
    let right = decode_state(entries).with_window(window);
    assert(decode_window(after, window.id) == window);
    assert forall|id: Seq<char>| #[trigger] left.windows.contains_key(id) implies left.windows[id]
        == right.windows[id] by {
        if id != window.id {
            assert(after[(windows_root(), id)] == entries[(windows_root(), id)]);
        }
    }
    assert(left.windows =~= right.windows);
    assert forall|id: Seq<char>| #[trigger] left.tabs.contains_key(id) implies left.tabs[id]
        == right.tabs[id] by {
        assert(after[(tabs_root(), id)] == entries[(tabs_root(), id)]);
    }
    assert(left.tabs =~= right.tabs);
}

/// Removing a tab's entry removes the tab and touches nothing else.
proof fn lemma_remove_tab(entries: Entries, id: Seq<char>)
    ensures
        decode_state(entries.remove((tabs_root(), id))) == decode_state(entries).without_tab(id),
{
    lemma_field_names_differ();
    let after = entries.remove((tabs_root(), id));
    let left = decode_state(after);
    let right = decode_state(entries).without_tab(id);
    assert forall|other: Seq<char>| #[trigger] left.tabs.contains_key(other) implies left.tabs[other]
        == right.tabs[other] by {
        assert(after[(tabs_root(), other)] == entries[(tabs_root(), other)]);
    }
    assert(left.tabs =~= right.tabs);
    assert forall|other: Seq<char>| #[trigger]
        left.windows.contains_key(other) implies left.windows[other] == right.windows[other] by {
        assert(after[(windows_root(), other)] == entries[(windows_root(), other)]);
    }
    assert(left.windows =~= right.windows);
}

fn read_text(doc: &yrs::Doc, root: &str, key: &str, field: &str) -> (text: String)
    ensures
        text@ == entry_text(doc_entries(*doc), root@, key@, field@),
{
    match doc_field(doc, root, key, field) {
        Some(FieldValue::Text(s)) => s,
        _ => String::new(),
    }
}

fn read_flag(doc: &yrs::Doc, root: &str, key: &str, field: &str) -> (flag: bool)
    ensures
        flag == entry_flag(doc_entries(*doc), root@, key@, field@),
{
    match doc_field(doc, root, key, field) {
        Some(FieldValue::Flag(b)) => b,
        _ => false,
    }
}

fn read_number(doc: &yrs::Doc, root: &str, key: &str, field: &str) -> (number: i64)
    ensures
        number == entry_number(doc_entries(*doc), root@, key@, field@),
{
    match doc_field(doc, root, key, field) {
        Some(FieldValue::Number(n)) => n,
        _ => 0,
    }
}

fn push_field(fields: &mut Vec<(String, FieldValue)>, name: &str, value: FieldValue)
    ensures
        record_of(final(fields)@) == record_of(old(fields)@).insert(name@, value@),
{
    let name = String::from_str(name);
    proof {
        lemma_record_push(fields@, name, value);
    }
    fields.push((name, value));
}

fn tab_fields(tab: &CrdtTab) -> (fields: Vec<(String, FieldValue)>)
    ensures
        record_of(fields@) == tab_record(tab@),
{
    let mut fields: Vec<(String, FieldValue)> = Vec::new();
    assert(record_of(fields@) =~= Map::<Seq<char>, FieldView>::empty());
    push_field(&mut fields, "id", FieldValue::Text(tab.id.clone()));
    push_field(&mut fields, "window_id", FieldValue::Text(tab.window_id.clone()));
    push_field(&mut fields, "url", FieldValue::Text(tab.url.clone()));
    push_field(&mut fields, "title", FieldValue::Text(tab.title.clone()));
    push_field(&mut fields, "active", FieldValue::Flag(tab.active));
    push_field(&mut fields, "index", FieldValue::Number(tab.index as i64));
    push_field(&mut fields, "updated_at", FieldValue::Number(tab.updated_at as i64));
    fields
}

fn window_fields(window: &CrdtWindow) -> (fields: Vec<(String, FieldValue)>)
    ensures
        record_of(fields@) == window_record(window@),
{
    let mut fields: Vec<(String, FieldValue)> = Vec::new();
    assert(record_of(fields@) =~= Map::<Seq<char>, FieldView>::empty());
    push_field(&mut fields, "id", FieldValue::Text(window.id.clone()));
    push_field(&mut fields, "is_tracked", FieldValue::Flag(window.is_tracked));
    push_field(&mut fields, "tab_count", FieldValue::Number(window.tab_count as i64));
    push_field(&mut fields, "updated_at", FieldValue::Number(window.updated_at as i64));
    fields
}

/// Whether `ids` names every record of a root map once, in no particular
/// order.
pub open spec fn lists_records(entries: Entries, root: Seq<char>, ids: Seq<String>) -> bool {
    &&& forall|i: int, j: int| 0 <= i < j < ids.len() ==> (#[trigger] ids[i])@ != (#[trigger] ids[j])@
    &&& forall|i: int| 0 <= i < ids.len() ==> is_record(entries, root, (#[trigger] ids[i])@)
    &&& forall|key: Seq<char>| #[trigger]
        is_record(entries, root, key) ==> names_id(ids, ids.len() as int, key)
}

/// Whether `key` is among the first `count` ids.
pub open spec fn names_id(ids: Seq<String>, count: int, key: Seq<char>) -> bool {
    exists|i: int| 0 <= i < count && i < ids.len() && (#[trigger] ids[i])@ == key
}

/// Whether `key` is among the first `count` keys.
spec fn among_keys(keys: Seq<(String, bool)>, count: int, key: Seq<char>) -> bool {
    exists|m: int| 0 <= m < count && m < keys.len() && (#[trigger] keys[m]).0@ == key
}

/// The ids of the records of a root map: the keys of its entries that are
/// records, each once.
fn record_ids(doc: &yrs::Doc, root: &str) -> (ids: Vec<String>)
    ensures
        lists_records(doc_entries(*doc), root@, ids@),
{
    let keys = doc_keys(doc, root);
    let ghost entries = doc_entries(*doc);
    let mut ids: Vec<String> = Vec::new();
    let mut i: usize = 0;
    while i < keys.len()
        invariant
            i <= keys@.len(),
            lists_keys(entries, root@, keys@),
            forall|j: int|
                0 <= j < ids@.len() ==> is_record(entries, root@, (#[trigger] ids@[j])@)
                    && among_keys(keys@, i as int, ids@[j]@),
            forall|m: int|
                0 <= m < i && (#[trigger] keys@[m]).1 ==> names_id(
                    ids@,
                    ids@.len() as int,
                    keys@[m].0@,
                ),
            forall|j: int, k: int|
                0 <= j < k < ids@.len() ==> (#[trigger] ids@[j])@ != (#[trigger] ids@[k])@,
        decreases keys@.len() - i,
    {
        if keys[i].1 {
            let ghost before = ids@;
            ids.push(keys[i].0.clone());
            proof {
                let last = before.len() as int;
                assert(ids@[last]@ == keys@[i as int].0@);
                assert forall|j: int| 0 <= j < ids@.len() implies is_record(
                    entries,
                    root@,
                    (#[trigger] ids@[j])@,
                ) && among_keys(keys@, i + 1, ids@[j]@) by {
                    if j < last {
                        assert(ids@[j] == before[j]);
                        assert(among_keys(keys@, i as int, before[j]@));
                        let m = choose|m: int|
                            0 <= m < i && m < keys@.len() && (#[trigger] keys@[m]).0@
                                == before[j]@;
                        assert(keys@[m].0@ == ids@[j]@);
                    } else {
                        assert(keys@[i as int].0@ == ids@[j]@);
                    }
                }
                assert forall|m: int| 0 <= m < i + 1 && (#[trigger] keys@[m]).1 implies names_id(
                    ids@,
                    ids@.len() as int,
                    keys@[m].0@,
                ) by {
                    if m < i {
                        assert(names_id(before, before.len() as int, keys@[m].0@));
                        let j = choose|j: int|
                            0 <= j < before.len() && j < before.len() && (#[trigger] before[j])@
                                == keys@[m].0@;
                        assert(ids@[j] == before[j]);
                    } else {
                        assert(ids@[last]@ == keys@[m].0@);
                    }
                }
                assert forall|j: int, k: int| 0 <= j < k < ids@.len() implies (#[trigger] ids@[j])@
                    != (#[trigger] ids@[k])@ by {
                    assert(ids@[j] == before[j]);
                    if k < last {
                        assert(ids@[k] == before[k]);
                    } else {
                        assert(among_keys(keys@, i as int, before[j]@));
                        let m = choose|m: int|
                            0 <= m < i && m < keys@.len() && (#[trigger] keys@[m]).0@
                                == before[j]@;
                        assert(keys@[m].0@ != keys@[i as int].0@);
                    }
                }
            }
        }
        i += 1;
    }
    proof {
        assert forall|key: Seq<char>| #[trigger] is_record(entries, root@, key) implies names_id(
            ids@,
            ids@.len() as int,
            key,
        ) by {
            assert(entries.contains_key((root@, key)));
            let m = choose|m: int| 0 <= m < keys@.len() && (#[trigger] keys@[m]).0@ == key;
            assert(keys@[m].1);
        }
    }
    ids
}

fn read_tab(doc: &yrs::Doc, id: String) -> (tab: CrdtTab)
    ensures
        tab@ == decode_tab(doc_entries(*doc), id@),
        tab.id == id,
{
    let window_id = read_text(doc, "tabs", id.as_str(), "window_id");
    let url = read_text(doc, "tabs", id.as_str(), "url");
    let title = read_text(doc, "tabs", id.as_str(), "title");
    let active = read_flag(doc, "tabs", id.as_str(), "active");
    let index = read_number(doc, "tabs", id.as_str(), "index");
    let updated_at = read_number(doc, "tabs", id.as_str(), "updated_at");
    CrdtTab {
        id,
        window_id,
        url,
        title,
        active,
        index: #[verifier::truncate]
        (index as i32),
        updated_at: #[verifier::truncate]
        (updated_at as u64),
    }
}

fn read_window(doc: &yrs::Doc, id: String) -> (window: CrdtWindow)
    ensures
        window@ == decode_window(doc_entries(*doc), id@),
        window.id == id,
{
    let is_tracked = read_flag(doc, "windows", id.as_str(), "is_tracked");
    let tab_count = read_number(doc, "windows", id.as_str(), "tab_count");
    let updated_at = read_number(doc, "windows", id.as_str(), "updated_at");
    CrdtWindow {
        id,
        is_tracked,
        tab_count: #[verifier::truncate]
        (tab_count as u32),
        updated_at: #[verifier::truncate]
        (updated_at as u64),
    }
}

/// The current tabs and windows of the service.
pub struct CrdtDocument {
    doc: yrs::Doc,
}

impl CrdtDocument {
    /// The state that the document holds.
    pub closed spec fn state(&self) -> DocState {
        decode_state(doc_entries(self.doc))
    }

    /// A document without tabs and windows.
    pub fn new() -> (document: CrdtDocument)
        ensures
            document.state() == DocState::empty(),
    {
        let doc = doc_new();
        let document = CrdtDocument { doc };
        assert(document.state().tabs =~= DocState::empty().tabs);
        assert(document.state().windows =~= DocState::empty().windows);
        document
    }

    /// Writes a tab under its id, in place of any earlier tab with that id.
    pub fn upsert_tab(&mut self, tab: &CrdtTab) -> (r: Result<(), CrdtError>)
        ensures
            r is Ok,
            final(self).state() == old(self).state().with_tab(tab@),
    {
        let fields = tab_fields(tab);
        proof {
            lemma_put_tab(doc_entries(self.doc), tab@);
        }
        doc_put(&mut self.doc, "tabs", tab.id.as_str(), fields);
        Ok(())
    }

    /// Removes the tab with this id; a tab that is not there is no error.
    pub fn remove_tab(&mut self, tab_id: &str) -> (r: Result<(), CrdtError>)
        ensures
            r is Ok,
            final(self).state() == old(self).state().without_tab(tab_id@),
    {
        proof {
            lemma_remove_tab(doc_entries(self.doc), tab_id@);
        }
        doc_remove(&mut self.doc, "tabs", tab_id);
        Ok(())
    }

    /// Writes a window under its id, in place of any earlier window with
    /// that id.
    pub fn upsert_window(&mut self, window: &CrdtWindow) -> (r: Result<(), CrdtError>)
        ensures
            r is Ok,
            final(self).state() == old(self).state().with_window(window@),
    {
        let fields = window_fields(window);
        proof {
            lemma_put_window(doc_entries(self.doc), window@);
        }
        doc_put(&mut self.doc, "windows", window.id.as_str(), fields);
        Ok(())
    }

    /// A snapshot of the tabs: every tab once, in no particular order.
    pub fn get_tabs(&self) -> (r: Result<Vec<CrdtTab>, CrdtError>)
        ensures
            r matches Ok(listed) && lists_tabs(self.state().tabs, listed@),
    {
        let ids = record_ids(&self.doc, "tabs");
        let mut tabs: Vec<CrdtTab> = Vec::new();
        let ghost entries = doc_entries(self.doc);
        let mut i: usize = 0;
        while i < ids.len()
            invariant
                i <= ids@.len(),
                tabs@.len() == i,
                entries == doc_entries(self.doc),
                forall|j: int|
                    0 <= j < i ==> (#[trigger] tabs@[j]).id@ == ids@[j]@ && tabs@[j]@ == decode_tab(
                        entries,
                        ids@[j]@,
                    ),
            decreases ids@.len() - i,
        {
            let tab = read_tab(&self.doc, ids[i].clone());
            tabs.push(tab);
            i += 1;
        }
        proof {
            let state = self.state();
            assert forall|key: Seq<char>| #[trigger] state.tabs.contains_key(key) implies exists|
                j: int,
            |
                0 <= j < tabs@.len() && (#[trigger] tabs@[j]).id@ == key by {
                assert(is_record(entries, tabs_root(), key));
                let j = choose|j: int|
                    0 <= j < ids@.len() && j < ids@.len() && (#[trigger] ids@[j])@ == key;
                assert(tabs@[j].id@ == key);
            }
        }
        Ok(tabs)
    }

    /// A snapshot of the windows: every window once, in no particular order.
    pub fn get_windows(&self) -> (r: Result<Vec<CrdtWindow>, CrdtError>)
        ensures
            r matches Ok(listed) && lists_windows(self.state().windows, listed@),
    {
        let ids = record_ids(&self.doc, "windows");
        let mut windows: Vec<CrdtWindow> = Vec::new();
        let ghost entries = doc_entries(self.doc);
        let mut i: usize = 0;
        while i < ids.len()
            invariant
                i <= ids@.len(),
                windows@.len() == i,
                entries == doc_entries(self.doc),
                forall|j: int|
                    0 <= j < i ==> (#[trigger] windows@[j]).id@ == ids@[j]@ && windows@[j]@
                        == decode_window(entries, ids@[j]@),
            decreases ids@.len() - i,
        {
            let window = read_window(&self.doc, ids[i].clone());
            windows.push(window);
            i += 1;
        }
        proof {
            let state = self.state();
            assert forall|key: Seq<char>| #[trigger] state.windows.contains_key(key) implies exists|
                j: int,
            |
                0 <= j < windows@.len() && (#[trigger] windows@[j]).id@ == key by {
                assert(is_record(entries, windows_root(), key));
                let j = choose|j: int|
                    0 <= j < ids@.len() && j < ids@.len() && (#[trigger] ids@[j])@ == key;
                assert(windows@[j].id@ == key);
            }
        }
        Ok(windows)
    }
}

impl CrdtDocument {
    /// The document's error for bytes that encode no update.
    fn decode_error(error: &yrs::encoding::read::Error) -> (e: CrdtError)
        ensures
            e matches CrdtError::DecodeError(detail) && "Invalid update format: "@.is_prefix_of(
                detail@,
            ),
    {
        let reason = read_error_text(error);
        let detail = join2("Invalid update format: ", reason.as_str());
        assert(detail@.subrange(0, "Invalid update format: "@.len() as int)
            =~= "Invalid update format: "@);
        CrdtError::DecodeError(detail)
    }

    /// Merges into the document what the decoding of an update gave.
    ///
    /// Where the bytes encoded no update, the document stays as it is and
    /// the error says so. Where they did, the update is merged; a merge
    /// that the document refuses is an error of its own. What a merge
    /// leaves in the document is decided by the merge.
    pub fn apply_decoded(
        &mut self,
        decoded: Result<yrs::Update, yrs::encoding::read::Error>,
    ) -> (r: Result<(), CrdtError>)
        ensures
            decoded is Err ==> final(self).state() == old(self).state(),
            decoded is Err ==> (r matches Err(CrdtError::DecodeError(detail))
                && "Invalid update format: "@.is_prefix_of(detail@)),
            decoded is Ok ==> (r is Ok || (r matches Err(CrdtError::ApplyError(detail))
                && "Failed to apply update: "@.is_prefix_of(detail@))),
    {
        let update = match decoded {
            Ok(update) => update,
            Err(error) => {
                return Err(CrdtDocument::decode_error(&error));
            },
        };
        match doc_apply_update(&mut self.doc, update) {
            Ok(()) => Ok(()),
            Err(error) => {
                let reason = update_error_text(&error);
                let detail = join2("Failed to apply update: ", reason.as_str());
                assert(detail@.subrange(0, "Failed to apply update: "@.len() as int)
                    =~= "Failed to apply update: "@);
                Err(CrdtError::ApplyError(detail))
            },
        }
    }

    /// Builds a document from the bytes of an encoded state: decodes them
    /// and merges the update into a new document.
    pub fn from_state(state: &[u8]) -> (r: Result<CrdtDocument, CrdtError>)
        ensures
            r matches Err(e) ==> e is DecodeError || e is ApplyError,
    {
        let mut document = CrdtDocument::new();
        match document.apply_update(state) {
            Ok(()) => Ok(document),
            Err(e) => Err(e),
        }
    }

    /// Merges the bytes of an encoded update into the document. Bytes that
    /// encode no update leave the document as it is.
    pub fn apply_update(&mut self, update: &[u8]) -> (r: Result<(), CrdtError>)
        ensures
            r matches Err(e) ==> e is DecodeError || e is ApplyError,
            r matches Err(CrdtError::DecodeError(_)) ==> final(self).state() == old(self).state(),
    {
        let decoded = update_decode(update);
        self.apply_decoded(decoded)
    }

    /// The whole document as the bytes of one update.
    pub fn encode_state(&self) -> (bytes: Vec<u8>) {
        doc_encode_state(&self.doc)
    }

    /// What the document holds beyond a state vector, as the bytes of one
    /// update.
    pub fn encode_diff_since(&self, state_vector: &yrs::StateVector) -> (bytes: Vec<u8>) {
        doc_encode_diff(&self.doc, state_vector)
    }

    /// The state vector of the document.
    pub fn state_vector(&self) -> (state_vector: yrs::StateVector) {
        doc_state_vector(&self.doc)
    }
}

impl Default for CrdtDocument {
    fn default() -> (document: CrdtDocument)
        ensures
            document.state() == DocState::empty(),
    {
        CrdtDocument::new()
    }
}

/// Picks the tab with this id out of a snapshot.
pub fn find_tab(tabs: &Vec<CrdtTab>, id: &str) -> (found: Option<CrdtTab>)
    ensures
        found is Some <==> exists|i: int| 0 <= i < tabs@.len() && (#[trigger] tabs@[i]).id@ == id@,
        found matches Some(tab) ==> exists|i: int|
            0 <= i < tabs@.len() && #[trigger] tabs@[i] == tab && tab.id@ == id@,
{
    let mut i: usize = 0;
    while i < tabs.len()
        invariant
            i <= tabs@.len(),
            forall|j: int| 0 <= j < i ==> (#[trigger] tabs@[j]).id@ != id@,
        decreases tabs@.len() - i,
    {
        if same_text(tabs[i].id.as_str(), id) {
            let tab = tabs[i].clone();
            assert(tabs@[i as int] == tab);
            return Some(tab);
        }
        i += 1;
    }
    None
}

/// Picks the window with this id out of a snapshot.
pub fn find_window(windows: &Vec<CrdtWindow>, id: &str) -> (found: Option<CrdtWindow>)
    ensures
        found is Some <==> exists|i: int|
            0 <= i < windows@.len() && (#[trigger] windows@[i]).id@ == id@,
        found matches Some(window) ==> exists|i: int|
            0 <= i < windows@.len() && #[trigger] windows@[i] == window && window.id@ == id@,
{
    let mut i: usize = 0;
    while i < windows.len()
        invariant
            i <= windows@.len(),
            forall|j: int| 0 <= j < i ==> (#[trigger] windows@[j]).id@ != id@,
        decreases windows@.len() - i,
    {
        if same_text(windows[i].id.as_str(), id) {
            let window = windows[i].clone();
            assert(windows@[i as int] == window);
            return Some(window);
        }
        i += 1;
    }
    None
}

} // verus!
