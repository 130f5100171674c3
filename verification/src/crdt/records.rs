//! The records of the merge document and the document's own errors.

use vstd::prelude::*;
use vstd::string::*;
use crate::error::app_error::AppError;
use crate::text::join2;

verus! {

/// A failure inside the merge document.
#[derive(Debug)]
pub enum CrdtError {
    DecodeError(String),
    ApplyError(String),
    DocumentNotFound(String),
    InvalidState,
}

impl CrdtError {
    /// The error as displayed.
    pub open spec fn display_text(self) -> Seq<char> {
        match self {
            CrdtError::DecodeError(detail) => "Failed to decode CRDT update: "@ + detail@,
            CrdtError::ApplyError(detail) => "Failed to apply CRDT update: "@ + detail@,
            CrdtError::DocumentNotFound(name) => "Document not found: "@ + name@,
            CrdtError::InvalidState => "Invalid document state"@,
        }
    }

    /// Renders the error for people.
    pub fn to_string(&self) -> (s: String)
        ensures
            s@ == self.display_text(),
    {
        match self {
            CrdtError::DecodeError(detail) => join2(
                "Failed to decode CRDT update: ",
                detail.as_str(),
            ),
            CrdtError::ApplyError(detail) => join2("Failed to apply CRDT update: ", detail.as_str()),
            CrdtError::DocumentNotFound(name) => join2("Document not found: ", name.as_str()),
            CrdtError::InvalidState => String::from_str("Invalid document state"),
        }
    }

    /// The service error that reports this failure: a sync error with the
    /// failure's text as its message.
    pub fn into_app_error(self) -> (e: AppError)
        ensures
            e.is_sync(self.display_text()),
    {
        let message = self.to_string();
        AppError::sync(message.as_str())
    }
}

/// A tab as the document holds it. `updated_at` is the server clock of the
/// last operation that touched the tab.
#[derive(Debug)]
pub struct CrdtTab {
    pub id: String,
    pub window_id: String,
    pub url: String,
    pub title: String,
    pub active: bool,
    pub index: i32,
    pub updated_at: u64,
}

/// The mathematical content of a [`CrdtTab`].
pub struct TabView {
    pub id: Seq<char>,
    pub window_id: Seq<char>,
    pub url: Seq<char>,
    pub title: Seq<char>,
    pub active: bool,
    pub index: i32,
    pub updated_at: u64,
}

impl View for CrdtTab {
    type V = TabView;

    open spec fn view(&self) -> TabView {
        TabView {
            id: self.id@,
            window_id: self.window_id@,
            url: self.url@,
            title: self.title@,
            active: self.active,
            index: self.index,
            updated_at: self.updated_at,
        }
    }
}

impl Clone for CrdtTab {
    fn clone(&self) -> (r: Self)
        ensures
            r == *self,
    {
        CrdtTab {
            id: self.id.clone(),
            window_id: self.window_id.clone(),
            url: self.url.clone(),
            title: self.title.clone(),
            active: self.active,
            index: self.index,
            updated_at: self.updated_at,
        }
    }
}

/// A window as the document holds it. `updated_at` is the server clock of
/// the last operation that touched the window.
#[derive(Debug)]
pub struct CrdtWindow {
    pub id: String,
    pub is_tracked: bool,
    pub tab_count: u32,
    pub updated_at: u64,
}

/// The mathematical content of a [`CrdtWindow`].
pub struct WindowView {
    pub id: Seq<char>,
    pub is_tracked: bool,
    pub tab_count: u32,
    pub updated_at: u64,
}

impl View for CrdtWindow {
    type V = WindowView;

    open spec fn view(&self) -> WindowView {
        WindowView {
            id: self.id@,
            is_tracked: self.is_tracked,
            tab_count: self.tab_count,
            updated_at: self.updated_at,
        }
    }
}

impl Clone for CrdtWindow {
    fn clone(&self) -> (r: Self)
        ensures
            r == *self,
    {
        CrdtWindow {
            id: self.id.clone(),
            is_tracked: self.is_tracked,
            tab_count: self.tab_count,
            updated_at: self.updated_at,
        }
    }
}

} // verus!
