//! The rules that gate a sync request and each operation in it.
//!
//! Lengths are counted in characters. Every rule names the field it checks;
//! the first rule that fails, in the order given here, decides the error.

use vstd::prelude::*;
use vstd::string::*;
use crate::config::SyncConfig;
use crate::error::app_error::{AppError, AppResult};
use crate::services::AuthContext;
use crate::sync::operation::{CrdtOperation, SyncRequest};
use crate::text::{decimal_digits, decimal_string, same_text};

verus! {

/// Longest accepted tab or window id, in characters.
pub const MAX_TARGET_ID_LENGTH: usize = 256;

/// Longest accepted device id, in characters.
pub const MAX_DEVICE_ID_LENGTH: usize = 128;

/// Largest accepted number of operations in one request.
pub const MAX_OPERATIONS_PER_REQUEST: usize = 1000;

/// The device id that the authentication layer puts into its context. It
/// stands for "some device with a valid token" and is never a real device.
pub open spec fn reserved_device_id() -> Seq<char> {
    "auth-validated"@
}

/// A rule's failure: the error's message and the field it names.
pub type Failure = (Seq<char>, Seq<char>);

/// The message that reports a value longer than `max` characters.
pub open spec fn too_long(what: Seq<char>, max: nat) -> Seq<char> {
    what + " too long (max "@ + decimal_digits(max) + " characters)"@
}

fn too_long_message(what: &str, max: usize) -> (m: String)
    ensures
        m@ == too_long(what@, max as nat),
{
    let mut m = what.to_owned();
    m.append(" too long (max ");
    let digits = decimal_string(max as u64);
    m.append(digits.as_str());
    m.append(" characters)");
    m
}

/// The rule common to every operation: the target id is not empty and no
/// longer than 256 characters. `what` names the kind of id in messages.
pub open spec fn target_failure(id: Seq<char>, what: Seq<char>) -> Option<Failure> {
    if id.len() == 0 {
        Some((what + " cannot be empty"@, "id"@))
    } else if id.len() > MAX_TARGET_ID_LENGTH {
        Some((too_long(what, MAX_TARGET_ID_LENGTH as nat), "id"@))
    } else {
        None
    }
}

impl CrdtOperation {
    /// The first rule that the operation fails among those that need no
    /// configured limit, or `None` where it meets them all. Fields of a
    /// tab's data are named with the prefix `data.`.
    pub open spec fn shape_failure(self) -> Option<Failure> {
        match self {
            CrdtOperation::UpsertTab { id, data } => {
                if target_failure(id@, "Tab ID"@) is Some {
                    target_failure(id@, "Tab ID"@)
                } else if data.url@.len() == 0 {
                    Some(("Tab URL cannot be empty"@, "data.url"@))
                } else if data.window_id@.len() == 0 {
                    Some(("Window ID cannot be empty"@, "data.window_id"@))
                } else if data.index < 0 {
                    Some(("Tab index cannot be negative"@, "data.index"@))
                } else {
                    None
                }
            },
            CrdtOperation::CloseTab { id, .. } => target_failure(id@, "Tab ID"@),
            CrdtOperation::SetActive { id, .. } => target_failure(id@, "Tab ID"@),
            CrdtOperation::MoveTab { id, window_id, index, .. } => {
                if target_failure(id@, "Tab ID"@) is Some {
                    target_failure(id@, "Tab ID"@)
                } else if window_id@.len() == 0 {
                    Some(("Window ID cannot be empty"@, "window_id"@))
                } else if index < 0 {
                    Some(("Tab index cannot be negative"@, "index"@))
                } else {
                    None
                }
            },
            CrdtOperation::ChangeUrl { id, url, .. } => {
                if target_failure(id@, "Tab ID"@) is Some {
                    target_failure(id@, "Tab ID"@)
                } else if url@.len() == 0 {
                    Some(("URL cannot be empty"@, "url"@))
                } else {
                    None
                }
            },
            CrdtOperation::TrackWindow { id, .. } => target_failure(id@, "Window ID"@),
            CrdtOperation::UntrackWindow { id, .. } => target_failure(id@, "Window ID"@),
            CrdtOperation::SetWindowFocus { id, .. } => target_failure(id@, "Window ID"@),
        }
    }

    /// The first rule that the operation fails under the configured limits,
    /// or `None` where it meets them all.
    pub open spec fn failure(self, max_url: nat, max_title: nat) -> Option<Failure> {
        match self {
            CrdtOperation::UpsertTab { id, data } => {
                if target_failure(id@, "Tab ID"@) is Some {
                    target_failure(id@, "Tab ID"@)
                } else if data.url@.len() == 0 {
                    Some(("Tab URL cannot be empty"@, "url"@))
                } else if data.url@.len() > max_url {
                    Some((too_long("URL"@, max_url), "url"@))
                } else if data.title@.len() > max_title {
                    Some((too_long("Title"@, max_title), "title"@))
                } else if data.window_id@.len() == 0 {
                    Some(("Window ID cannot be empty"@, "window_id"@))
                } else if data.index < 0 {
                    Some(("Tab index cannot be negative"@, "index"@))
                } else {
                    None
                }
            },
            CrdtOperation::CloseTab { id, .. } => target_failure(id@, "Tab ID"@),
            CrdtOperation::SetActive { id, .. } => target_failure(id@, "Tab ID"@),
            CrdtOperation::ChangeUrl { id, url, .. } => {
                if target_failure(id@, "Tab ID"@) is Some {
                    target_failure(id@, "Tab ID"@)
                } else if url@.len() == 0 {
                    Some(("URL cannot be empty"@, "url"@))
                } else if url@.len() > max_url {
                    Some((too_long("URL"@, max_url), "url"@))
                } else {
                    None
                }
            },
            CrdtOperation::MoveTab { id, window_id, index, .. } => {
                if target_failure(id@, "Tab ID"@) is Some {
                    target_failure(id@, "Tab ID"@)
                } else if window_id@.len() == 0 {
                    Some(("Window ID cannot be empty"@, "window_id"@))
                } else if index < 0 {
                    Some(("Tab index cannot be negative"@, "index"@))
                } else {
                    None
                }
            },
            CrdtOperation::TrackWindow { id, .. } => target_failure(id@, "Window ID"@),
            CrdtOperation::UntrackWindow { id, .. } => target_failure(id@, "Window ID"@),
            CrdtOperation::SetWindowFocus { id, .. } => target_failure(id@, "Window ID"@),
        }
    }

    /// Whether the operation meets every rule under the configured limits.
    pub open spec fn acceptable(self, config: SyncConfig) -> bool {
        self.failure(config.max_url_length as nat, config.max_title_length as nat) is None
    }

    /// Checks the rules that need no configured limit.
    pub fn validate(&self) -> (r: AppResult<()>)
        ensures
            r is Ok <==> self.shape_failure() is None,
            r matches Err(e) ==> self.shape_failure() matches Some(f) && e.is_validation(f.0, f.1),
    {
        match self {
            CrdtOperation::UpsertTab { id, data } => {
                check_target(id.as_str(), "Tab ID")?;
                if data.url.as_str().is_empty() {
                    return Err(AppError::validation("Tab URL cannot be empty", Some("data.url")));
                }
                if data.window_id.as_str().is_empty() {
                    return Err(
                        AppError::validation("Window ID cannot be empty", Some("data.window_id")),
                    );
                }
                if data.index < 0 {
                    return Err(
                        AppError::validation("Tab index cannot be negative", Some("data.index")),
                    );
                }
                Ok(())
            },
            CrdtOperation::CloseTab { id, .. } | CrdtOperation::SetActive { id, .. } => {
                check_target(id.as_str(), "Tab ID")
            },
            CrdtOperation::MoveTab { id, window_id, index, .. } => {
                check_target(id.as_str(), "Tab ID")?;
                if window_id.as_str().is_empty() {
                    return Err(AppError::validation("Window ID cannot be empty", Some("window_id")));
                }
                if *index < 0 {
                    return Err(AppError::validation("Tab index cannot be negative", Some("index")));
                }
                Ok(())
            },
            CrdtOperation::ChangeUrl { id, url, .. } => {
                check_target(id.as_str(), "Tab ID")?;
                if url.as_str().is_empty() {
                    return Err(AppError::validation("URL cannot be empty", Some("url")));
                }
                Ok(())
            },
            CrdtOperation::TrackWindow { id, .. }
            | CrdtOperation::UntrackWindow { id, .. }
            | CrdtOperation::SetWindowFocus { id, .. } => check_target(id.as_str(), "Window ID"),
        }
    }
}

fn check_target(id: &str, what: &str) -> (r: AppResult<()>)
    ensures
        r is Ok <==> target_failure(id@, what@) is None,
        r matches Err(e) ==> target_failure(id@, what@) matches Some(f) && e.is_validation(
            f.0,
            f.1,
        ),
{
    if id.is_empty() {
        let mut message = what.to_owned();
        message.append(" cannot be empty");
        return Err(AppError::validation(message.as_str(), Some("id")));
    }
    if id.unicode_len() > MAX_TARGET_ID_LENGTH {
        let message = too_long_message(what, MAX_TARGET_ID_LENGTH);
        return Err(AppError::validation(message.as_str(), Some("id")));
    }
    Ok(())
}

fn check_url_length(url: &str, max_url: usize) -> (r: AppResult<()>)
    ensures
        r is Ok <==> url@.len() <= max_url,
        r matches Err(e) ==> e.is_validation(too_long("URL"@, max_url as nat), "url"@),
{
    if url.unicode_len() > max_url {
        let message = too_long_message("URL", max_url);
        return Err(AppError::validation(message.as_str(), Some("url")));
    }
    Ok(())
}

/// Checks one operation against every rule.
pub fn validate_operation(operation: &CrdtOperation, config: &SyncConfig) -> (r: AppResult<()>)
    ensures
        r is Ok <==> operation.acceptable(*config),
        r matches Err(e) ==> operation.failure(
            config.max_url_length as nat,
            config.max_title_length as nat,
        ) matches Some(f) && e.is_validation(f.0, f.1),
{
    match operation {
        CrdtOperation::UpsertTab { id, data } => {
            check_target(id.as_str(), "Tab ID")?;
            if data.url.as_str().is_empty() {
                return Err(AppError::validation("Tab URL cannot be empty", Some("url")));
            }
            check_url_length(data.url.as_str(), config.max_url_length)?;
            if data.title.as_str().unicode_len() > config.max_title_length {
                let message = too_long_message("Title", config.max_title_length);
                return Err(AppError::validation(message.as_str(), Some("title")));
            }
            if data.window_id.as_str().is_empty() {
                return Err(AppError::validation("Window ID cannot be empty", Some("window_id")));
            }
            if data.index < 0 {
                return Err(AppError::validation("Tab index cannot be negative", Some("index")));
            }
            Ok(())
        },
        CrdtOperation::CloseTab { id, .. } | CrdtOperation::SetActive { id, .. } => {
            check_target(id.as_str(), "Tab ID")
        },
        CrdtOperation::ChangeUrl { id, url, .. } => {
            check_target(id.as_str(), "Tab ID")?;
            if url.as_str().is_empty() {
                return Err(AppError::validation("URL cannot be empty", Some("url")));
            }
            check_url_length(url.as_str(), config.max_url_length)
        },
        CrdtOperation::MoveTab { id, window_id, index, .. } => {
            check_target(id.as_str(), "Tab ID")?;
            if window_id.as_str().is_empty() {
                return Err(AppError::validation("Window ID cannot be empty", Some("window_id")));
            }
            if *index < 0 {
                return Err(AppError::validation("Tab index cannot be negative", Some("index")));
            }
            Ok(())
        },
        CrdtOperation::TrackWindow { id, .. }
        | CrdtOperation::UntrackWindow { id, .. }
        | CrdtOperation::SetWindowFocus { id, .. } => check_target(id.as_str(), "Window ID"),
    }
}

/// Whether every operation of a batch meets every rule.
pub open spec fn all_acceptable(operations: Seq<CrdtOperation>, config: SyncConfig) -> bool {
    forall|i: int| 0 <= i < operations.len() ==> (#[trigger] operations[i]).acceptable(config)
}

/// The failure of the first operation of a batch that fails a rule, or
/// `None` where every operation meets every rule.
pub open spec fn first_failure(operations: Seq<CrdtOperation>, config: SyncConfig) -> Option<
    Failure,
>
    decreases operations.len(),
{
    if operations.len() == 0 {
        None
    } else if !operations[0].acceptable(config) {
        operations[0].failure(config.max_url_length as nat, config.max_title_length as nat)
    } else {
        first_failure(operations.drop_first(), config)
    }
}

/// A batch has a first failure exactly where not all of its operations are
/// acceptable.
pub proof fn lemma_first_failure(operations: Seq<CrdtOperation>, config: SyncConfig)
    ensures
        first_failure(operations, config) is None <==> all_acceptable(operations, config),
    decreases operations.len(),
{
    if operations.len() > 0 {
        let rest = operations.drop_first();
        lemma_first_failure(rest, config);
        if operations[0].acceptable(config) {
            if all_acceptable(rest, config) {
                assert forall|i: int| 0 <= i < operations.len() implies (
                #[trigger] operations[i]).acceptable(config) by {
                    if i > 0 {
                        assert(rest[i - 1] == operations[i]);
                    }
                }
            }
            if all_acceptable(operations, config) {
                assert forall|i: int| 0 <= i < rest.len() implies (#[trigger] rest[i]).acceptable(
                    config,
                ) by {
                    assert(rest[i] == operations[i + 1]);
                }
            }
        }
    }
}

/// Checks a batch in request order and reports the first operation that
/// fails a rule.
pub fn validate_operations(operations: &Vec<CrdtOperation>, config: &SyncConfig) -> (r: AppResult<
    (),
>)
    ensures
        r is Ok <==> all_acceptable(operations@, *config),
        r matches Err(e) ==> first_failure(operations@, *config) matches Some(f)
            && e.is_validation(f.0, f.1),
{
    let mut i: usize = 0;
    assert(operations@.skip(0) =~= operations@);
    while i < operations.len()
        invariant
            0 <= i <= operations@.len(),
            all_acceptable(operations@.take(i as int), *config),
            first_failure(operations@, *config) == first_failure(
                operations@.skip(i as int),
                *config,
            ),
        decreases operations@.len() - i,
    {
        proof {
            let rest = operations@.skip(i as int);
            assert(rest[0] == operations@[i as int]);
            assert(rest.drop_first() =~= operations@.skip(i + 1));
        }
        match validate_operation(&operations[i], config) {
            Ok(()) => {},
            Err(e) => {
                proof {
                    lemma_first_failure(operations@, *config);
                }
                return Err(e);
            },
        }
        proof {
            let next = operations@.take(i + 1);
            assert forall|j: int| 0 <= j < next.len() implies (#[trigger] next[j]).acceptable(
                *config,
            ) by {
                if j < i {
                    assert(operations@.take(i as int)[j] == next[j]);
                }
            }
        }
        i += 1;
    }
    assert(operations@.take(i as int) =~= operations@);
    Ok(())
}

impl SyncRequest {
    /// The failure that decides the request's fate: the first rule on its
    /// shape that it fails or, where it meets those, the failure of its
    /// first operation that fails a rule; `None` where nothing fails.
    pub open spec fn failure(self, config: SyncConfig) -> Option<Failure> {
        if self.shape_failure() is Some {
            self.shape_failure()
        } else {
            first_failure(self.operations@, config)
        }
    }

    /// The first rule on the request's shape that the request fails, or
    /// `None` where it meets them all.
    pub open spec fn shape_failure(self) -> Option<Failure> {
        if self.device_id@.len() == 0 {
            Some(("Device ID cannot be empty"@, "device_id"@))
        } else if self.device_id@.len() > MAX_DEVICE_ID_LENGTH {
            Some((too_long("Device ID"@, MAX_DEVICE_ID_LENGTH as nat), "device_id"@))
        } else if self.device_id@ == reserved_device_id() {
            Some(("Invalid device ID format"@, "device_id"@))
        } else if self.since_clock is Some && self.since_clock->0 > self.clock {
            Some(("since_clock cannot be greater than current clock"@, "since_clock"@))
        } else if self.operations@.len() > MAX_OPERATIONS_PER_REQUEST {
            Some(("Too many operations in single request (max 1000)"@, "operations"@))
        } else {
            None
        }
    }
}

/// A request passes the rules on its shape exactly where its device id has
/// between 1 and 128 characters and is not the reserved one, its
/// `since_clock`, if it has one, is not after its clock, and it carries no
/// more than 1000 operations.
pub proof fn lemma_request_rules(request: SyncRequest)
    ensures
        request.shape_failure() is None <==> {
            &&& 1 <= request.device_id@.len() <= 128
            &&& request.device_id@ != reserved_device_id()
            &&& request.since_clock matches Some(since) ==> since <= request.clock
            &&& request.operations@.len() <= 1000
        },
{
}

/// An operation passes the rules exactly where its target id has between 1
/// and 256 characters and, by its kind: a written tab has a window, a URL of
/// between 1 and the configured number of characters, a title of no more
/// than the configured number, and an index that is not negative; a moved
/// tab has a window and an index that is not negative; a navigated tab has a
/// URL of between 1 and the configured number of characters.
pub proof fn lemma_operation_rules(operation: CrdtOperation, config: SyncConfig)
    ensures
        operation.acceptable(config) <==> {
            &&& 1 <= operation.target().len() <= 256
            &&& operation matches CrdtOperation::UpsertTab { data, .. } ==> {
                &&& data.window_id@.len() > 0
                &&& 1 <= data.url@.len() <= config.max_url_length
                &&& data.title@.len() <= config.max_title_length
                &&& data.index >= 0
            }
            &&& operation matches CrdtOperation::MoveTab { window_id, index, .. } ==> {
                &&& window_id@.len() > 0
                &&& index >= 0
            }
            &&& operation matches CrdtOperation::ChangeUrl { url, .. } ==> 1 <= url@.len()
                <= config.max_url_length
        },
{
}

/// Checks the shape of a request: its device id, the order of its clocks
/// and the size of its batch. The device id is the one in the request; the
/// authentication context only shows that the token was valid.
pub fn validate_sync_request(request: &SyncRequest, _auth: &AuthContext) -> (r: AppResult<()>)
    ensures
        r is Ok <==> request.shape_failure() is None,
        r matches Err(e) ==> request.shape_failure() matches Some(f) && e.is_validation(f.0, f.1),
{
    if request.device_id.as_str().is_empty() {
        return Err(AppError::validation("Device ID cannot be empty", Some("device_id")));
    }
    if request.device_id.as_str().unicode_len() > MAX_DEVICE_ID_LENGTH {
        let message = too_long_message("Device ID", MAX_DEVICE_ID_LENGTH);
        return Err(AppError::validation(message.as_str(), Some("device_id")));
    }
    if same_text(request.device_id.as_str(), "auth-validated") {
        return Err(AppError::validation("Invalid device ID format", Some("device_id")));
    }
    match request.since_clock {
        Some(since_clock) => {
            if since_clock > request.clock {
                return Err(
                    AppError::validation(
                        "since_clock cannot be greater than current clock",
                        Some("since_clock"),
                    ),
                );
            }
        },
        None => {},
    }
    if request.operations.len() > MAX_OPERATIONS_PER_REQUEST {
        return Err(
            AppError::validation(
                "Too many operations in single request (max 1000)",
                Some("operations"),
            ),
        );
    }
    Ok(())
}

} // verus!
