//! The rows of the projected tables that administrative queries read.

use vstd::prelude::*;

verus! {

/// A row of the projected table of tabs.
#[derive(Debug)]
pub struct Tab {
    pub id: String,
    pub window_id: String,
    pub url: String,
    pub title: String,
    pub active: bool,
    pub index: i64,
    pub updated_at: i64,
}

/// A row of the projected table of windows.
#[derive(Debug)]
pub struct Window {
    pub id: String,
    pub is_tracked: bool,
    pub tab_count: i64,
    pub updated_at: i64,
}

/// A request that reports tabs in full.
#[derive(Debug)]
pub struct SyncRequest {
    pub tabs: Vec<Tab>,
}

/// A response that returns tabs in full.
#[derive(Debug)]
pub struct SyncResponse {
    pub tabs: Vec<Tab>,
}

} // verus!
