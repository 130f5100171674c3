//! The concurrent map of the `dashmap` crate as the table of the rate
//! limiter, and the host's monotonic clock.
//!
//! The functions marked as outside calls state what the calls into
//! `dashmap` and into the standard library's clock do; the rest is proved.

use vstd::prelude::*;
use dashmap::DashMap;
use std::time::{Duration, Instant};

verus! {

#[verifier::external_type_specification]
#[verifier::external_body]
pub struct ExInstant(Instant);

/// The request window of one device: how many requests it has recorded
/// since the window began. Times are milliseconds on the service's clock.
#[derive(Debug, Clone, Copy, PartialEq, Eq, Structural)]
pub struct RateLimitInfo {
    pub request_count: u32,
    pub window_start: u64,
}

/// The windows of the rate limiter, by device.
pub type Windows = Map<Seq<char>, RateLimitInfo>;

/// Milliseconds beyond which a window that saw no new start is swept.
pub const SWEEP_AFTER_MS: u64 = 300000;

/// The windows that a table holds, by device.
pub uninterp spec fn table_windows(table: DashMap<String, RateLimitInfo>) -> Windows;

/// The time from `earlier` to `now`, or zero where `earlier` is the later.
pub open spec fn elapsed(now: u64, earlier: u64) -> u64 {
    if now >= earlier {
        (now - earlier) as u64
    } else {
        0
    }
}

/// Whether a window began no more than five minutes before `now`.
pub open spec fn live(info: RateLimitInfo, now: u64) -> bool {
    elapsed(now, info.window_start) <= SWEEP_AFTER_MS
}

/// The windows that a sweep at `now` keeps.
pub open spec fn only_live(windows: Windows, now: u64) -> Windows {
    Map::new(
        |device: Seq<char>| windows.contains_key(device) && live(windows[device], now),
        |device: Seq<char>| windows[device],
    )
}

/// The view of an optional window.
pub open spec fn window_of(windows: Windows, device: Seq<char>) -> Option<RateLimitInfo> {
    if windows.contains_key(device) {
        Some(windows[device])
    } else {
        None
    }
}

/// Returns the time from `earlier` to `now`, or zero where `earlier` is the
/// later.
pub fn time_between(now: u64, earlier: u64) -> (r: u64)
    ensures
        r == elapsed(now, earlier),
{
    if now >= earlier {
        now - earlier
    } else {
        0
    }
}

/// Returns whether a window began no more than five minutes before `now`.
pub fn is_live(info: &RateLimitInfo, now: u64) -> (r: bool)
    ensures
        r == live(*info, now),
{
    time_between(now, info.window_start) <= SWEEP_AFTER_MS
}

/// `DashMap::new`: a new table is empty.
#[verifier::external_body]
pub(crate) fn windows_new() -> (table: DashMap<String, RateLimitInfo>)
    ensures
        table_windows(table) == Windows::empty(),
{
    DashMap::new()
}

/// `DashMap::get`: a copy of the window under `device`, if there is one.
#[verifier::external_body]
pub(crate) fn windows_get(table: &DashMap<String, RateLimitInfo>, device: &str) -> (found: Option<
    RateLimitInfo,
>)
    ensures
        found == window_of(table_windows(*table), device@),
{
    table.get(device).map(|entry| *entry.value())
}

/// `DashMap::insert`: the window becomes the entry under `device`, in place
/// of any earlier one; no other entry changes.
#[verifier::external_body]
pub(crate) fn windows_insert(
    table: &mut DashMap<String, RateLimitInfo>,
    device: String,
    info: RateLimitInfo,
)
    ensures
        table_windows(*final(table)) == table_windows(*old(table)).insert(device@, info),
{
    table.insert(device, info);
}

/// `DashMap::retain` with [`is_live`]: the entries whose window is live at
/// `now` stay as they are, the others leave.
#[verifier::external_body]
pub(crate) fn windows_sweep(table: &mut DashMap<String, RateLimitInfo>, now: u64)
    ensures
        table_windows(*final(table)) == only_live(table_windows(*old(table)), now),
{
    table.retain(|_, info| is_live(info, now));
}

/// `Instant::now`: a point on the host's monotonic clock. Nothing is
/// promised of the value.
#[verifier::external_body]
pub(crate) fn instant_now() -> (now: Instant) {
    Instant::now()
}

/// `Instant::elapsed`: the time since `origin` on the host's monotonic
/// clock. Nothing is promised of the value.
#[verifier::external_body]
pub(crate) fn instant_elapsed(origin: &Instant) -> (elapsed: Duration) {
    origin.elapsed()
}

/// `Duration::as_millis`: a duration in whole milliseconds. Nothing is
/// promised of the value.
#[verifier::external_body]
pub(crate) fn duration_millis(duration: &Duration) -> (millis: u128) {
    duration.as_millis()
}

/// The milliseconds since `origin`, or the largest value where they do not
/// fit.
pub(crate) fn millis_since(origin: &Instant) -> (millis: u64) {
    let elapsed = instant_elapsed(origin);
    let millis = duration_millis(&elapsed);
    if millis > 18446744073709551615 {
        18446744073709551615
    } else {
        millis as u64
    }
}

} // verus!
