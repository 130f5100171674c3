//! Operations on tabs and windows and the messages that carry them.

use vstd::prelude::*;
use vstd::string::*;

verus! {

/// The full state of a tab as a client reports it.
#[derive(Debug)]
pub struct TabData {
    pub window_id: String,
    pub url: String,
    pub title: String,
    pub active: bool,
    pub index: i32,
    pub updated_at: u64,
}

impl Clone for TabData {
    fn clone(&self) -> (r: Self)
        ensures
            r == *self,
    {
        TabData {
            window_id: self.window_id.clone(),
            url: self.url.clone(),
            title: self.title.clone(),
            active: self.active,
            index: self.index,
            updated_at: self.updated_at,
        }
    }
}

/// One logical mutation of the shared tab set.
#[derive(Debug)]
pub enum CrdtOperation {
    /// Create a tab or overwrite it in full.
    UpsertTab { id: String, data: TabData },
    /// Remove a tab.
    CloseTab { id: String, closed_at: u64 },
    /// Flip a tab's active flag.
    SetActive { id: String, active: bool, updated_at: u64 },
    /// Reassign a tab to a window and position.
    MoveTab { id: String, window_id: String, index: i32, updated_at: u64 },
    /// Navigate a tab.
    ChangeUrl { id: String, url: String, title: Option<String>, updated_at: u64 },
    /// Begin or continue tracking a window.
    TrackWindow { id: String, is_tracked: bool, updated_at: u64 },
    /// Stop tracking a window.
    UntrackWindow { id: String, updated_at: u64 },
    /// Signal that a window gained or lost focus.
    SetWindowFocus { id: String, focused: bool, updated_at: u64 },
}

impl Clone for CrdtOperation {
    fn clone(&self) -> (r: Self)
        ensures
            r == *self,
    {
        match self {
            CrdtOperation::UpsertTab { id, data } => CrdtOperation::UpsertTab {
                id: id.clone(),
                data: data.clone(),
            },
            CrdtOperation::CloseTab { id, closed_at } => CrdtOperation::CloseTab {
                id: id.clone(),
                closed_at: *closed_at,
            },
            CrdtOperation::SetActive { id, active, updated_at } => CrdtOperation::SetActive {
                id: id.clone(),
                active: *active,
                updated_at: *updated_at,
            },
            CrdtOperation::MoveTab { id, window_id, index, updated_at } => CrdtOperation::MoveTab {
                id: id.clone(),
                window_id: window_id.clone(),
                index: *index,
                updated_at: *updated_at,
            },
            CrdtOperation::ChangeUrl { id, url, title, updated_at } => {
                let title = match title {
                    Some(t) => Some(t.clone()),
                    None => None,
                };
                CrdtOperation::ChangeUrl {
                    id: id.clone(),
                    url: url.clone(),
                    title,
                    updated_at: *updated_at,
                }
            },
            CrdtOperation::TrackWindow { id, is_tracked, updated_at } => CrdtOperation::TrackWindow {
                id: id.clone(),
                is_tracked: *is_tracked,
                updated_at: *updated_at,
            },
            CrdtOperation::UntrackWindow { id, updated_at } => CrdtOperation::UntrackWindow {
                id: id.clone(),
                updated_at: *updated_at,
            },
            CrdtOperation::SetWindowFocus { id, focused, updated_at } => {
                CrdtOperation::SetWindowFocus {
                    id: id.clone(),
                    focused: *focused,
                    updated_at: *updated_at,
                }
            },
        }
    }
}

impl CrdtOperation {
    /// The id of the tab or window that the operation is about.
    pub open spec fn target(self) -> Seq<char> {
        match self {
            CrdtOperation::UpsertTab { id, .. } => id@,
            CrdtOperation::CloseTab { id, .. } => id@,
            CrdtOperation::SetActive { id, .. } => id@,
            CrdtOperation::MoveTab { id, .. } => id@,
            CrdtOperation::ChangeUrl { id, .. } => id@,
            CrdtOperation::TrackWindow { id, .. } => id@,
            CrdtOperation::UntrackWindow { id, .. } => id@,
            CrdtOperation::SetWindowFocus { id, .. } => id@,
        }
    }

    /// The operation's tag on the wire, in snake case.
    pub open spec fn type_tag(self) -> Seq<char> {
        match self {
            CrdtOperation::UpsertTab { .. } => "upsert_tab"@,
            CrdtOperation::CloseTab { .. } => "close_tab"@,
            CrdtOperation::SetActive { .. } => "set_active"@,
            CrdtOperation::MoveTab { .. } => "move_tab"@,
            CrdtOperation::ChangeUrl { .. } => "change_url"@,
            CrdtOperation::TrackWindow { .. } => "track_window"@,
            CrdtOperation::UntrackWindow { .. } => "untrack_window"@,
            CrdtOperation::SetWindowFocus { .. } => "set_window_focus"@,
        }
    }

    /// The client's timestamp of the operation. It is kept with the
    /// operation and plays no part in the merge.
    pub open spec fn client_time(self) -> u64 {
        match self {
            CrdtOperation::UpsertTab { data, .. } => data.updated_at,
            CrdtOperation::CloseTab { closed_at, .. } => closed_at,
            CrdtOperation::SetActive { updated_at, .. } => updated_at,
            CrdtOperation::MoveTab { updated_at, .. } => updated_at,
            CrdtOperation::ChangeUrl { updated_at, .. } => updated_at,
            CrdtOperation::TrackWindow { updated_at, .. } => updated_at,
            CrdtOperation::UntrackWindow { updated_at, .. } => updated_at,
            CrdtOperation::SetWindowFocus { updated_at, .. } => updated_at,
        }
    }

    /// Whether the operation is about a tab rather than a window.
    pub open spec fn on_tab(self) -> bool {
        self is UpsertTab || self is CloseTab || self is SetActive || self is MoveTab
            || self is ChangeUrl
    }

    /// Returns the id of the tab or window that the operation is about.
    pub fn target_id(&self) -> (id: &str)
        ensures
            id@ == self.target(),
    {
        match self {
            CrdtOperation::UpsertTab { id, .. }
            | CrdtOperation::CloseTab { id, .. }
            | CrdtOperation::SetActive { id, .. }
            | CrdtOperation::MoveTab { id, .. }
            | CrdtOperation::ChangeUrl { id, .. }
            | CrdtOperation::TrackWindow { id, .. }
            | CrdtOperation::UntrackWindow { id, .. }
            | CrdtOperation::SetWindowFocus { id, .. } => id.as_str(),
        }
    }

    /// Returns the operation's tag on the wire.
    pub fn operation_type(&self) -> (tag: &'static str)
        ensures
            tag@ == self.type_tag(),
    {
        match self {
            CrdtOperation::UpsertTab { .. } => "upsert_tab",
            CrdtOperation::CloseTab { .. } => "close_tab",
            CrdtOperation::SetActive { .. } => "set_active",
            CrdtOperation::MoveTab { .. } => "move_tab",
            CrdtOperation::ChangeUrl { .. } => "change_url",
            CrdtOperation::TrackWindow { .. } => "track_window",
            CrdtOperation::UntrackWindow { .. } => "untrack_window",
            CrdtOperation::SetWindowFocus { .. } => "set_window_focus",
        }
    }

    /// Returns the client's timestamp of the operation.
    pub fn updated_at(&self) -> (t: u64)
        ensures
            t == self.client_time(),
    {
        match self {
            CrdtOperation::UpsertTab { data, .. } => data.updated_at,
            CrdtOperation::CloseTab { closed_at, .. } => *closed_at,
            CrdtOperation::SetActive { updated_at, .. }
            | CrdtOperation::MoveTab { updated_at, .. }
            | CrdtOperation::ChangeUrl { updated_at, .. }
            | CrdtOperation::TrackWindow { updated_at, .. }
            | CrdtOperation::UntrackWindow { updated_at, .. }
            | CrdtOperation::SetWindowFocus { updated_at, .. } => *updated_at,
        }
    }
}

/// A batch of operations from one device, with the device's logical clock
/// and, after the first call, the last server clock that it has seen.
#[derive(Debug)]
pub struct SyncRequest {
    pub clock: u64,
    pub device_id: String,
    pub since_clock: Option<u64>,
    pub operations: Vec<CrdtOperation>,
}

/// The server's answer: its clock after the batch and the operations of
/// other devices that the caller has yet to apply.
#[derive(Debug)]
pub struct SyncResponse {
    pub clock: u64,
    pub operations: Vec<CrdtOperation>,
}

/// An accepted operation with its envelope: the record's id, the server
/// clock assigned to it, the device it came from and when it was written.
#[derive(Debug)]
pub struct StoredOperation {
    pub id: String,
    pub clock: u64,
    pub device_id: String,
    pub operation: CrdtOperation,
    pub created_at: i64,
}

impl Clone for StoredOperation {
    fn clone(&self) -> (r: Self)
        ensures
            r == *self,
    {
        StoredOperation {
            id: self.id.clone(),
            clock: self.clock,
            device_id: self.device_id.clone(),
            operation: self.operation.clone(),
            created_at: self.created_at,
        }
    }
}

} // verus!
