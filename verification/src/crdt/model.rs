//! The merge function as mathematics: the state of a document and what
//! each operation does to it.

use vstd::prelude::*;
use crate::crdt::records::{TabView, WindowView};
use crate::sync::operation::{CrdtOperation, StoredOperation};

verus! {

/// The state of a document: its tabs and its windows, by id.
pub struct DocState {
    pub tabs: Map<Seq<char>, TabView>,
    pub windows: Map<Seq<char>, WindowView>,
}

/// The text of an optional string, or `fallback` where there is none.
pub open spec fn text_or(value: Option<String>, fallback: Seq<char>) -> Seq<char> {
    match value {
        Some(s) => s@,
        None => fallback,
    }
}

impl DocState {
    /// The state of a document that no operation has touched.
    pub open spec fn empty() -> DocState {
        DocState { tabs: Map::empty(), windows: Map::empty() }
    }

    /// The state with `tab` written under its id.
    pub open spec fn with_tab(self, tab: TabView) -> DocState {
        DocState { tabs: self.tabs.insert(tab.id, tab), windows: self.windows }
    }

    /// The state without the tab `id`.
    pub open spec fn without_tab(self, id: Seq<char>) -> DocState {
        DocState { tabs: self.tabs.remove(id), windows: self.windows }
    }

    /// The state with `window` written under its id.
    pub open spec fn with_window(self, window: WindowView) -> DocState {
        DocState { tabs: self.tabs, windows: self.windows.insert(window.id, window) }
    }

    /// The state after one operation, applied at the server clock `clock`.
    ///
    /// An upsert writes the whole tab; a close removes it. The three patches
    /// of a tab change the named fields of a tab that exists and do nothing
    /// to one that does not. Tracking writes a window that is tracked and
    /// counts no tabs; untracking clears the flag of a window that exists
    /// and writes an untracked one otherwise; a focus signal only restamps a
    /// window that exists. Whatever is written is stamped with `clock`.
    pub open spec fn apply(self, operation: CrdtOperation, clock: u64) -> DocState {
        match operation {
            CrdtOperation::UpsertTab { id, data } => self.with_tab(
                TabView {
                    id: id@,
                    window_id: data.window_id@,
                    url: data.url@,
                    title: data.title@,
                    active: data.active,
                    index: data.index,
                    updated_at: clock,
                },
            ),
            CrdtOperation::CloseTab { id, .. } => self.without_tab(id@),
            CrdtOperation::SetActive { id, active, .. } => if self.tabs.contains_key(id@) {
                self.with_tab(TabView { active: active, updated_at: clock, ..self.tabs[id@] })
            } else {
                self
            },
            CrdtOperation::MoveTab { id, window_id, index, .. } => if self.tabs.contains_key(id@) {
                self.with_tab(
                    TabView {
                        window_id: window_id@,
                        index: index,
                        updated_at: clock,
                        ..self.tabs[id@]
                    },
                )
            } else {
                self
            },
            CrdtOperation::ChangeUrl { id, url, title, .. } => if self.tabs.contains_key(id@) {
                self.with_tab(
                    TabView {
                        url: url@,
                        title: text_or(title, self.tabs[id@].title),
                        updated_at: clock,
                        ..self.tabs[id@]
                    },
                )
            } else {
                self
            },
            CrdtOperation::TrackWindow { id, .. } => self.with_window(
                WindowView { id: id@, is_tracked: true, tab_count: 0, updated_at: clock },
            ),
            CrdtOperation::UntrackWindow { id, .. } => if self.windows.contains_key(id@) {
                self.with_window(
                    WindowView { is_tracked: false, updated_at: clock, ..self.windows[id@] },
                )
            } else {
                self.with_window(
                    WindowView { id: id@, is_tracked: false, tab_count: 0, updated_at: clock },
                )
            },
            CrdtOperation::SetWindowFocus { id, .. } => if self.windows.contains_key(id@) {
                self.with_window(WindowView { updated_at: clock, ..self.windows[id@] })
            } else {
                self
            },
        }
    }

    /// The state after a run of stored operations, each applied at its own
    /// clock, in the order of the run.
    pub open spec fn replay(self, log: Seq<StoredOperation>) -> DocState
        decreases log.len(),
    {
        if log.len() == 0 {
            self
        } else {
            self.replay(log.drop_last()).apply(log.last().operation, log.last().clock)
        }
    }

    /// Whether every record is filed under its own id.
    pub open spec fn keyed_by_id(self) -> bool {
        &&& forall|id: Seq<char>| #[trigger] self.tabs.contains_key(id) ==> self.tabs[id].id == id
        &&& forall|id: Seq<char>| #[trigger]
            self.windows.contains_key(id) ==> self.windows[id].id == id
    }
}

} // verus!
