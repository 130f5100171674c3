//! The envelope that reports a failed request to the client.

use vstd::prelude::*;
use vstd::string::*;
use crate::error::app_error::{pairs_text, AppError};
use crate::error::code::ErrorCode;
use crate::text::opt_text;
use crate::time::timestamp_now;

verus! {

/// Whether and how a client should retry.
#[derive(Debug)]
pub struct RetryInfo {
    pub retryable: bool,
    /// Suggested delay before the next attempt, in milliseconds.
    pub retry_after: Option<u64>,
    pub max_retries: Option<u32>,
}

/// The error itself: a fresh id, the code, the displayed message, when it
/// happened, and the context and source where the error has them.
#[derive(Debug)]
pub struct ErrorDetail {
    pub id: String,
    pub code: ErrorCode,
    pub message: String,
    pub timestamp: String,
    pub context: Option<Vec<(String, String)>>,
    pub source: Option<String>,
}

/// The body of every error response.
#[derive(Debug)]
pub struct ErrorResponse {
    pub status: String,
    pub error: ErrorDetail,
    pub retry: Option<RetryInfo>,
}

/// The delay suggested before a retry, in milliseconds: five seconds after
/// an overload, one after a database failure, two otherwise.
pub open spec fn retry_delay(code: ErrorCode) -> u64 {
    if code == ErrorCode::ServerOverloaded {
        5000
    } else if code == ErrorCode::DatabaseError {
        1000
    } else {
        2000
    }
}

/// The texts of optional context pairs.
pub open spec fn opt_pairs(context: Option<Vec<(String, String)>>) -> Option<
    Seq<(Seq<char>, Seq<char>)>,
> {
    match context {
        Some(pairs) => Some(pairs_text(pairs@)),
        None => None,
    }
}

/// Whether `response` reports `error`: everything in the envelope but the
/// id and the timestamp, which are made anew for each report.
pub open spec fn reports(response: ErrorResponse, error: AppError) -> bool {
    &&& response.status@ == "error"@
    &&& response.error.code == error.code_of()
    &&& response.error.message@ == error.display_text()
    &&& opt_pairs(response.error.context) == (if error.context_of().len() == 0 {
        None
    } else {
        Some(error.context_of())
    })
    &&& opt_text(response.error.source) == error.source_of()
    &&& response.retry matches Some(retry)
    &&& retry.retryable == error.retryable()
    &&& retry.retry_after == (if error.retryable() {
        Some(retry_delay(error.code_of()))
    } else {
        None
    })
    &&& retry.max_retries == (if error.retryable() {
        Some(3u32)
    } else {
        None
    })
}

fn copy_pairs(pairs: &Vec<(String, String)>) -> (copy: Vec<(String, String)>)
    ensures
        pairs_text(copy@) == pairs_text(pairs@),
{
    let mut copy: Vec<(String, String)> = Vec::new();
    let mut i: usize = 0;
    while i < pairs.len()
        invariant
            i <= pairs@.len(),
            copy@.len() == i,
            pairs_text(copy@) == pairs_text(pairs@.take(i as int)),
        decreases pairs@.len() - i,
    {
        let ghost before = copy@;
        copy.push((pairs[i].0.clone(), pairs[i].1.clone()));
        proof {
            let left = pairs_text(copy@);
            let right = pairs_text(pairs@.take(i + 1));
            assert forall|k: int| 0 <= k < left.len() implies left[k] == right[k] by {
                if k < i {
                    assert(copy@[k] == before[k]);
                    assert(pairs_text(before)[k] == pairs_text(pairs@.take(i as int))[k]);
                    assert(pairs@.take(i as int)[k] == pairs@.take(i + 1)[k]);
                }
            }
            assert(left =~= right);
        }
        i += 1;
    }
    assert(pairs@.take(i as int) =~= pairs@);
    copy
}

#[verifier::external_type_specification]
#[verifier::external_body]
pub struct ExUuid(uuid::Uuid);

/// `uuid::Uuid::new_v4`: a random id. Nothing is promised of the value.
/// Where the operating system gives no random bytes the call does not
/// return.
#[verifier::external_body]
fn uuid_new() -> (id: uuid::Uuid) {
    uuid::Uuid::new_v4()
}

/// The `Display` of `uuid::Uuid`: the id in the hyphenated rendering,
/// which has 36 characters.
#[verifier::external_body]
fn uuid_text(id: &uuid::Uuid) -> (text: String)
    ensures
        text@.len() == 36,
{
    id.to_string()
}

/// A fresh id for an error envelope.
fn new_error_id() -> (id: String)
    ensures
        id@.len() == 36,
{
    let id = uuid_new();
    uuid_text(&id)
}

impl AppError {
    /// The retry hint for the error.
    pub fn retry_info(&self) -> (retry: RetryInfo)
        ensures
            retry.retryable == self.retryable(),
            retry.retry_after == (if self.retryable() {
                Some(retry_delay(self.code_of()))
            } else {
                None
            }),
            retry.max_retries == (if self.retryable() {
                Some(3u32)
            } else {
                None
            }),
    {
        if self.is_retryable() {
            let delay: u64 = match self.error_code() {
                ErrorCode::ServerOverloaded => 5000,
                ErrorCode::DatabaseError => 1000,
                _ => 2000,
            };
            RetryInfo { retryable: true, retry_after: Some(delay), max_retries: Some(3) }
        } else {
            RetryInfo { retryable: false, retry_after: None, max_retries: None }
        }
    }

    /// The envelope that reports the error under a given id and timestamp.
    pub fn to_response(&self, error_id: String, timestamp: String) -> (response: ErrorResponse)
        ensures
            reports(response, *self),
            response.error.id == error_id,
            response.error.timestamp == timestamp,
    {
        let context = match self {
            AppError::Internal { context, .. } | AppError::Sync { context, .. } => {
                if context.len() == 0 {
                    None
                } else {
                    Some(copy_pairs(context))
                }
            },
            _ => None,
        };
        let source = match self {
            AppError::Database { source, .. } => Some(source.clone()),
            AppError::Json { source, .. } => Some(source.clone()),
            AppError::Io { source, .. } => Some(source.clone()),
            _ => None,
        };
        ErrorResponse {
            status: String::from_str("error"),
            error: ErrorDetail {
                id: error_id,
                code: self.error_code(),
                message: self.to_string(),
                timestamp,
                context,
                source,
            },
            retry: Some(self.retry_info()),
        }
    }

    /// The envelope that reports the error, under a fresh id and with the
    /// host's time.
    pub fn response(&self) -> (response: ErrorResponse)
        ensures
            reports(response, *self),
            response.error.id@.len() == 36,
    {
        let error_id = new_error_id();
        let timestamp = timestamp_now();
        self.to_response(error_id, timestamp)
    }
}

} // verus!
