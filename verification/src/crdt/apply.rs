//! Applying operations to the merge document.

use vstd::prelude::*;
use crate::crdt::document::{find_tab, find_window, CrdtDocument};
use crate::crdt::records::{CrdtError, CrdtTab, CrdtWindow};
use crate::sync::operation::{CrdtOperation, StoredOperation};

verus! {

impl CrdtDocument {
    /// Looks a tab up by id.
    pub fn get_tab(&self, id: &str) -> (found: Option<CrdtTab>)
        ensures
            found is Some <==> self.state().tabs.contains_key(id@),
            found matches Some(tab) ==> tab@ == self.state().tabs[id@] && tab.id@ == id@,
    {
        let tabs = match self.get_tabs() {
            Ok(tabs) => tabs,
            Err(_) => Vec::new(),
        };
        let found = find_tab(&tabs, id);
        proof {
            if self.state().tabs.contains_key(id@) {
                let i = choose|i: int| 0 <= i < tabs@.len() && (#[trigger] tabs@[i]).id@ == id@;
                assert(tabs@[i].id@ == id@);
            }
        }
        found
    }

    /// Looks a window up by id.
    pub fn get_window(&self, id: &str) -> (found: Option<CrdtWindow>)
        ensures
            found is Some <==> self.state().windows.contains_key(id@),
            found matches Some(window) ==> window@ == self.state().windows[id@] && window.id@
                == id@,
    {
        let windows = match self.get_windows() {
            Ok(windows) => windows,
            Err(_) => Vec::new(),
        };
        let found = find_window(&windows, id);
        proof {
            if self.state().windows.contains_key(id@) {
                let i = choose|i: int|
                    0 <= i < windows@.len() && (#[trigger] windows@[i]).id@ == id@;
                assert(windows@[i].id@ == id@);
            }
        }
        found
    }

    /// Applies one operation at the server clock `clock`.
    pub fn apply_operation(&mut self, operation: &CrdtOperation, clock: u64) -> (r: Result<
        (),
        CrdtError,
    >)
        ensures
            r is Ok,
            final(self).state() == old(self).state().apply(*operation, clock),
    {
        match operation {
            CrdtOperation::UpsertTab { id, data } => {
                let tab = CrdtTab {
                    id: id.clone(),
                    window_id: data.window_id.clone(),
                    url: data.url.clone(),
                    title: data.title.clone(),
                    active: data.active,
                    index: data.index,
                    updated_at: clock,
                };
                self.upsert_tab(&tab)
            },
            CrdtOperation::CloseTab { id, .. } => self.remove_tab(id.as_str()),
            CrdtOperation::SetActive { id, active, .. } => {
                match self.get_tab(id.as_str()) {
                    Some(tab) => {
                        let mut tab = tab;
                        tab.active = *active;
                        tab.updated_at = clock;
                        self.upsert_tab(&tab)
                    },
                    None => Ok(()),
                }
            },
            CrdtOperation::MoveTab { id, window_id, index, .. } => {
                match self.get_tab(id.as_str()) {
                    Some(tab) => {
                        let mut tab = tab;
                        tab.window_id = window_id.clone();
                        tab.index = *index;
                        tab.updated_at = clock;
                        self.upsert_tab(&tab)
                    },
                    None => Ok(()),
                }
            },
            CrdtOperation::ChangeUrl { id, url, title, .. } => {
                match self.get_tab(id.as_str()) {
                    Some(tab) => {
                        let mut tab = tab;
                        tab.url = url.clone();
                        match title {
                            Some(new_title) => {
                                tab.title = new_title.clone();
                            },
                            None => {},
                        }
                        tab.updated_at = clock;
                        self.upsert_tab(&tab)
                    },
                    None => Ok(()),
                }
            },
            CrdtOperation::TrackWindow { id, .. } => {
                let window = CrdtWindow {
                    id: id.clone(),
                    is_tracked: true,
                    tab_count: 0,
                    updated_at: clock,
                };
                self.upsert_window(&window)
            },
            CrdtOperation::UntrackWindow { id, .. } => {
                match self.get_window(id.as_str()) {
                    Some(window) => {
                        let mut window = window;
                        window.is_tracked = false;
                        window.updated_at = clock;
                        self.upsert_window(&window)
                    },
                    None => {
                        let window = CrdtWindow {
                            id: id.clone(),
                            is_tracked: false,
                            tab_count: 0,
                            updated_at: clock,
                        };
                        self.upsert_window(&window)
                    },
                }
            },
            CrdtOperation::SetWindowFocus { id, .. } => {
                match self.get_window(id.as_str()) {
                    Some(window) => {
                        let mut window = window;
                        window.updated_at = clock;
                        self.upsert_window(&window)
                    },
                    None => Ok(()),
                }
            },
        }
    }

    /// Replays a run of stored operations, each at its own clock, in the
    /// order of the run.
    pub fn replay(&mut self, operations: &Vec<StoredOperation>) -> (r: Result<(), CrdtError>)
        ensures
            r is Ok,
            final(self).state() == old(self).state().replay(operations@),
    {
        let mut i: usize = 0;
        while i < operations.len()
            invariant
                i <= operations@.len(),
                self.state() == old(self).state().replay(operations@.take(i as int)),
            decreases operations@.len() - i,
        {
            let stored = &operations[i];
            match self.apply_operation(&stored.operation, stored.clock) {
                Ok(()) => {},
                Err(e) => {
                    return Err(e);
                },
            }
            proof {
                let next = operations@.take(i + 1);
                assert(next.drop_last() =~= operations@.take(i as int));
                assert(next.last() == operations@[i as int]);
            }
            i += 1;
        }
        assert(operations@.take(i as int) =~= operations@);
        Ok(())
    }
}

} // verus!
