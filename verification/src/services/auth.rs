//! Authentication by a shared token and the per-device rate limit.

use vstd::prelude::*;
use vstd::string::*;
use dashmap::DashMap;
use std::collections::HashMap;
use std::time::Instant;
use crate::auth::bearer_prefix;
use crate::config::AuthConfig;
use crate::error::app_error::AppError;
use crate::error::code::ErrorCode;
use crate::services::limiter::{
    elapsed,
    instant_now,
    millis_since,
    only_live,
    table_windows,
    time_between,
    windows_get,
    windows_insert,
    windows_new,
    windows_sweep,
    RateLimitInfo,
    Windows,
    SWEEP_AFTER_MS,
};
use crate::services::AuthContext;
use crate::text::{decimal_digits, decimal_string, has_prefix, same_text, text_after};

verus! {

/// Length of a request window, in milliseconds.
pub const WINDOW_MS: u64 = 60000;

/// The token that a caller presents, without the scheme where it has one.
pub open spec fn bare_token(presented: Seq<char>) -> Seq<char> {
    if bearer_prefix().is_prefix_of(presented) {
        presented.skip(bearer_prefix().len() as int)
    } else {
        presented
    }
}

/// Whether `context` is what a valid token earns: the placeholder device,
/// the token, the permissions to sync, read and write, and no metadata.
pub open spec fn full_context(context: AuthContext, token: Seq<char>) -> bool {
    &&& context.device_id@ == "auth-validated"@
    &&& context.token@ == token
    &&& context.permissions@.len() == 3
    &&& context.permissions@[0]@ == "sync"@
    &&& context.permissions@[1]@ == "read"@
    &&& context.permissions@[2]@ == "write"@
    &&& context.metadata@ == Map::<String, String>::empty()
}

/// The windows and the time of the last sweep after the sweep that a check
/// at `now` may make: five minutes after the last one, the windows that
/// began more than five minutes ago leave.
pub open spec fn swept(windows: Windows, last_cleanup: u64, now: u64) -> (Windows, u64) {
    if elapsed(now, last_cleanup) >= SWEEP_AFTER_MS {
        (only_live(windows, now), now)
    } else {
        (windows, last_cleanup)
    }
}

/// The window of a device as a check at `now` finds or makes it: a window
/// that began a minute ago or earlier starts over, and a device without a
/// window gets an empty one.
pub open spec fn window_checked(windows: Windows, device: Seq<char>, now: u64) -> RateLimitInfo {
    if windows.contains_key(device) && elapsed(now, windows[device].window_start) < WINDOW_MS {
        windows[device]
    } else {
        RateLimitInfo { request_count: 0, window_start: now }
    }
}

/// The window of a device after a request at `now` is recorded: one more
/// request in a running window, the first request of a new one otherwise.
/// The count stops at the largest value it can hold.
pub open spec fn window_recorded(windows: Windows, device: Seq<char>, now: u64) -> RateLimitInfo {
    if windows.contains_key(device) && elapsed(now, windows[device].window_start) < WINDOW_MS {
        RateLimitInfo {
            request_count: if windows[device].request_count == u32::MAX {
                u32::MAX
            } else {
                (windows[device].request_count + 1) as u32
            },
            window_start: windows[device].window_start,
        }
    } else {
        RateLimitInfo { request_count: 1, window_start: now }
    }
}

/// Authentication by the one token that all devices of a user share.
pub struct SharedTokenAuthService {
    config: AuthConfig,
    rate_limiter: DashMap<String, RateLimitInfo>,
    last_cleanup: u64,
    started: Instant,
}

impl SharedTokenAuthService {
    /// The windows of the rate limiter.
    pub closed spec fn windows(&self) -> Windows {
        table_windows(self.rate_limiter)
    }

    /// When the limiter was last swept, in milliseconds on the service's
    /// clock.
    pub closed spec fn swept_at(&self) -> u64 {
        self.last_cleanup
    }

    /// The service's settings.
    pub closed spec fn settings(&self) -> AuthConfig {
        self.config
    }

    /// A service with no window yet; its clock starts now.
    pub fn new(config: AuthConfig) -> (service: SharedTokenAuthService)
        ensures
            service.settings() == config,
            service.windows() == Windows::empty(),
            service.swept_at() == 0,
    {
        SharedTokenAuthService {
            config,
            rate_limiter: windows_new(),
            last_cleanup: 0,
            started: instant_now(),
        }
    }

    /// Checks a token, with or without the `Bearer ` scheme in front: the
    /// token is valid where it is the shared token, letter for letter.
    pub fn validate_token(&self, token: &str) -> (r: Result<AuthContext, AppError>)
        ensures
            bare_token(token@) == self.settings().shared_token@ ==> (r matches Ok(context)
                && full_context(context, self.settings().shared_token@)),
            bare_token(token@) != self.settings().shared_token@ ==> (r matches Err(e) && e.is_auth(
                "Invalid token"@,
                ErrorCode::AuthTokenInvalid,
            )),
    {
        proof {
            reveal_strlit("Bearer ");
        }
        let bare = if has_prefix(token, "Bearer ") {
            text_after(token, 7)
        } else {
            token.to_owned()
        };
        if !same_text(bare.as_str(), self.config.shared_token.as_str()) {
            return Err(AppError::auth_token_invalid("Invalid token"));
        }
        let mut permissions: Vec<String> = Vec::new();
        permissions.push(String::from_str("sync"));
        permissions.push(String::from_str("read"));
        permissions.push(String::from_str("write"));
        Ok(
            AuthContext {
                device_id: String::from_str("auth-validated"),
                token: bare,
                permissions,
                metadata: HashMap::new(),
            },
        )
    }

    /// Whether the limiter holds a window for the device.
    pub fn has_window(&self, device_id: &str) -> (r: bool)
        ensures
            r == self.windows().contains_key(device_id@),
    {
        windows_get(&self.rate_limiter, device_id).is_some()
    }

    /// Whether `after` and `r` are what a check of `device` at the time `now`
    /// makes of this service.
    ///
    /// With rate limiting off every request may pass and nothing changes.
    /// With it on, the limiter is swept where the last sweep is five
    /// minutes old; then the device's window is found, started over where
    /// it is a minute old, or made; and the request may pass where the
    /// window has recorded fewer requests than the limit.
    pub open spec fn check_outcome(
        self,
        after: SharedTokenAuthService,
        device: Seq<char>,
        now: u64,
        r: Result<bool, AppError>,
    ) -> bool {
        let kept = swept(self.windows(), self.swept_at(), now);
        let window = window_checked(kept.0, device, now);
        &&& after.settings() == self.settings()
        &&& !self.settings().rate_limiting ==> {
            &&& r == Ok::<bool, AppError>(true)
            &&& after.windows() == self.windows()
            &&& after.swept_at() == self.swept_at()
        }
        &&& self.settings().rate_limiting ==> {
            &&& r == Ok::<bool, AppError>(
                window.request_count < self.settings().max_requests_per_minute,
            )
            &&& after.windows() == kept.0.insert(device, window)
            &&& after.swept_at() == kept.1
        }
    }

    /// Whether `after` is what recording a request of `device` at the time
    /// `now` makes of this service: with rate limiting off nothing changes;
    /// with it on, the device's running window counts one more request, or a
    /// new window begins with this request as its first. No sweep is made.
    pub open spec fn record_outcome(
        self,
        after: SharedTokenAuthService,
        device: Seq<char>,
        now: u64,
    ) -> bool {
        &&& after.settings() == self.settings()
        &&& after.swept_at() == self.swept_at()
        &&& !self.settings().rate_limiting ==> after.windows() == self.windows()
        &&& self.settings().rate_limiting ==> after.windows() == self.windows().insert(
            device,
            window_recorded(self.windows(), device, now),
        )
    }

    /// Decides at the time `now` whether a device may make a request; see
    /// [`Self::check_outcome`].
    pub fn check_rate_limit_at(&mut self, device_id: &str, now: u64) -> (r: Result<bool, AppError>)
        ensures
            old(self).check_outcome(*final(self), device_id@, now, r),
    {
        if !self.config.rate_limiting {
            return Ok(true);
        }
        if time_between(now, self.last_cleanup) >= SWEEP_AFTER_MS {
            self.cleanup_old_rate_limit_entries(now);
            self.last_cleanup = now;
        }
        let window = match windows_get(&self.rate_limiter, device_id) {
            Some(info) => {
                if time_between(now, info.window_start) >= WINDOW_MS {
                    RateLimitInfo { request_count: 0, window_start: now }
                } else {
                    info
                }
            },
            None => RateLimitInfo { request_count: 0, window_start: now },
        };
        windows_insert(&mut self.rate_limiter, device_id.to_owned(), window);
        Ok(window.request_count < self.config.max_requests_per_minute)
    }

    /// Records at the time `now` that a device has made a request; see
    /// [`Self::record_outcome`].
    pub fn record_request_at(&mut self, device_id: &str, now: u64) -> (r: Result<(), AppError>)
        ensures
            r is Ok,
            old(self).record_outcome(*final(self), device_id@, now),
    {
        if !self.config.rate_limiting {
            return Ok(());
        }
        let window = match windows_get(&self.rate_limiter, device_id) {
            Some(info) => {
                if time_between(now, info.window_start) >= WINDOW_MS {
                    RateLimitInfo { request_count: 1, window_start: now }
                } else {
                    let request_count = if info.request_count == u32::MAX {
                        u32::MAX
                    } else {
                        info.request_count + 1
                    };
                    RateLimitInfo { request_count, window_start: info.window_start }
                }
            },
            None => RateLimitInfo { request_count: 1, window_start: now },
        };
        windows_insert(&mut self.rate_limiter, device_id.to_owned(), window);
        Ok(())
    }

    /// Whether `after` and `r` are what checking and then recording a
    /// request of `device` at the time `now` makes of this service.
    ///
    /// With rate limiting off the request passes and nothing changes. With
    /// it on, the limiter is swept where a sweep is due and the device's
    /// window is found, started over or made; the request passes where that
    /// window has recorded fewer requests than the limit, and is then
    /// recorded in it; a request over the limit is refused as an overload
    /// and is not recorded.
    pub open spec fn request_outcome(
        self,
        after: SharedTokenAuthService,
        device: Seq<char>,
        now: u64,
        r: Result<(), AppError>,
    ) -> bool {
        let kept = swept(self.windows(), self.swept_at(), now);
        let window = window_checked(kept.0, device, now);
        let checked = kept.0.insert(device, window);
        &&& after.settings() == self.settings()
        &&& !self.settings().rate_limiting ==> {
            &&& r is Ok
            &&& after.windows() == self.windows()
            &&& after.swept_at() == self.swept_at()
        }
        &&& self.settings().rate_limiting ==> {
            &&& after.swept_at() == kept.1
            &&& r is Ok <==> window.request_count < self.settings().max_requests_per_minute
            &&& r is Ok ==> after.windows() == checked.insert(
                device,
                window_recorded(checked, device, now),
            )
            &&& r matches Err(e) ==> after.windows() == checked && e.is_auth(
                "Rate limit exceeded"@,
                ErrorCode::ServerOverloaded,
            )
        }
    }

    /// Checks and then records a request of a device at the time `now`. A
    /// request over the limit is refused as an overload, which clients may
    /// retry later, and is not recorded.
    pub fn allow_request_at(&mut self, device_id: &str, now: u64) -> (r: Result<(), AppError>)
        ensures
            old(self).request_outcome(*final(self), device_id@, now, r),
    {
        let within = match self.check_rate_limit_at(device_id, now) {
            Ok(within) => within,
            Err(e) => {
                return Err(e);
            },
        };
        if !within {
            return Err(
                AppError::Auth {
                    message: String::from_str("Rate limit exceeded"),
                    code: ErrorCode::ServerOverloaded,
                },
            );
        }
        self.record_request_at(device_id, now)
    }

    /// Checks and then records a request of a device now, by the service's
    /// clock: the outcome is that of [`Self::allow_request_at`] at the time
    /// that the clock shows, whatever that time is. With rate limiting off
    /// the request passes and nothing changes. With it on, a request that
    /// passes leaves the device a window that has recorded it, and a request
    /// that is refused leaves the device the window that was over the limit.
    pub fn allow_request(&mut self, device_id: &str) -> (r: Result<(), AppError>)
        ensures
            exists|now: u64| #[trigger]
                old(self).request_outcome(*final(self), device_id@, now, r),
            final(self).settings() == old(self).settings(),
            !old(self).settings().rate_limiting ==> {
                &&& r is Ok
                &&& final(self).windows() == old(self).windows()
                &&& final(self).swept_at() == old(self).swept_at()
            },
            old(self).settings().rate_limiting ==> {
                &&& final(self).windows().contains_key(device_id@)
                &&& r is Ok ==> 1 <= final(self).windows()[device_id@].request_count
                &&& r is Err ==> final(self).windows()[device_id@].request_count >= old(
                    self
                ).settings().max_requests_per_minute
            },
            r matches Err(e) ==> e.is_auth("Rate limit exceeded"@, ErrorCode::ServerOverloaded),
    {
        let now = millis_since(&self.started);
        self.allow_request_at(device_id, now)
    }

    /// Decides whether a device may make a request now, by the service's
    /// clock: the outcome is that of [`Self::check_rate_limit_at`] at the
    /// time that the clock shows, whatever that time is.
    pub fn check_rate_limit(&mut self, device_id: &str) -> (r: Result<bool, AppError>)
        ensures
            exists|now: u64| #[trigger] old(self).check_outcome(*final(self), device_id@, now, r),
            r is Ok,
            final(self).settings() == old(self).settings(),
            old(self).settings().rate_limiting ==> final(self).windows().contains_key(device_id@),
    {
        let now = millis_since(&self.started);
        self.check_rate_limit_at(device_id, now)
    }

    /// Records that a device has made a request now, by the service's
    /// clock: the outcome is that of [`Self::record_request_at`] at the time
    /// that the clock shows, whatever that time is.
    pub fn record_request(&mut self, device_id: &str) -> (r: Result<(), AppError>)
        ensures
            exists|now: u64| #[trigger] old(self).record_outcome(*final(self), device_id@, now),
            r is Ok,
            final(self).settings() == old(self).settings(),
            final(self).swept_at() == old(self).swept_at(),
            old(self).settings().rate_limiting ==> final(self).windows().contains_key(device_id@)
                && final(self).windows()[device_id@].request_count >= 1,
    {
        let now = millis_since(&self.started);
        self.record_request_at(device_id, now)
    }

    /// Sweeps the limiter at the time `now`: the windows that began more
    /// than five minutes ago leave.
    pub fn cleanup_old_rate_limit_entries(&mut self, now: u64)
        ensures
            final(self).windows() == only_live(old(self).windows(), now),
            final(self).settings() == old(self).settings(),
            final(self).swept_at() == old(self).swept_at(),
    {
        windows_sweep(&mut self.rate_limiter, now);
    }
}

/// A device that has recorded as many requests as the limit allows in a
/// running window is refused, and is let through again once the window is
/// a minute old.
pub proof fn lemma_limit_holds_for_a_minute(
    windows: Windows,
    device: Seq<char>,
    now: u64,
    limit: u32,
)
    requires
        windows.contains_key(device),
        windows[device].request_count >= limit,
        limit > 0,
    ensures
        elapsed(now, windows[device].window_start) < WINDOW_MS ==> window_checked(
            windows,
            device,
            now,
        ).request_count >= limit,
        elapsed(now, windows[device].window_start) >= WINDOW_MS ==> window_checked(
            windows,
            device,
            now,
        ).request_count < limit,
{
}

/// An authentication service for tests: it lets every token through unless
/// it is told to fail, and it limits no one unless it is told to.
pub struct MockAuthService {
    should_fail: bool,
    rate_limit_enabled: bool,
}

impl MockAuthService {
    /// Whether the service refuses every token.
    pub closed spec fn fails(&self) -> bool {
        self.should_fail
    }

    /// Whether the service refuses every request for its rate.
    pub closed spec fn limits(&self) -> bool {
        self.rate_limit_enabled
    }

    /// A service that lets everything through.
    pub fn new() -> (service: MockAuthService)
        ensures
            !service.fails(),
            !service.limits(),
    {
        MockAuthService { should_fail: false, rate_limit_enabled: false }
    }

    /// The same service, refusing every token.
    pub fn with_auth_failure(self) -> (service: MockAuthService)
        ensures
            service.fails(),
            service.limits() == self.limits(),
    {
        MockAuthService { should_fail: true, rate_limit_enabled: self.rate_limit_enabled }
    }

    /// The same service, refusing every request for its rate.
    pub fn with_rate_limiting(self) -> (service: MockAuthService)
        ensures
            service.limits(),
            service.fails() == self.fails(),
    {
        MockAuthService { should_fail: self.should_fail, rate_limit_enabled: true }
    }

    /// Lets the token through as the device `mock-device-N`, where `N` is
    /// the token's length in bytes; or refuses it where the service fails.
    pub fn validate_token(&self, token: &str) -> (r: Result<AuthContext, AppError>)
        ensures
            self.fails() ==> (r matches Err(e) && e.is_auth(
                "Mock auth failure"@,
                ErrorCode::AuthTokenInvalid,
            )),
            !self.fails() ==> (r matches Ok(context) && context.token@ == token@
                && context.device_id@ == "mock-device-"@ + decimal_digits(
                token.len() as nat,
            ) && context.permissions@.len() == 1 && context.permissions@[0]@ == "sync"@
                && context.metadata@ == Map::<String, String>::empty()),
    {
        if self.should_fail {
            return Err(AppError::auth_token_invalid("Mock auth failure"));
        }
        let mut device_id = String::from_str("mock-device-");
        let length = decimal_string(token.len() as u64);
        device_id.append(length.as_str());
        let mut permissions: Vec<String> = Vec::new();
        permissions.push(String::from_str("sync"));
        Ok(
            AuthContext {
                device_id,
                token: token.to_owned(),
                permissions,
                metadata: HashMap::new(),
            },
        )
    }

    /// Whether a request may pass: always, unless the service limits.
    pub fn check_rate_limit(&self, _device_id: &str) -> (r: Result<bool, AppError>)
        ensures
            r == Ok::<bool, AppError>(!self.limits()),
    {
        Ok(!self.rate_limit_enabled)
    }

    /// Records nothing.
    pub fn record_request(&self, _device_id: &str) -> (r: Result<(), AppError>)
        ensures
            r is Ok,
    {
        Ok(())
    }
}

impl Default for MockAuthService {
    fn default() -> (service: MockAuthService)
        ensures
            !service.fails(),
            !service.limits(),
    {
        MockAuthService::new()
    }
}

} // verus!
