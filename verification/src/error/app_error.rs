//! The error type that every fallible operation of the service returns.

use vstd::prelude::*;
use vstd::string::*;
use crate::error::code::ErrorCode;
use crate::text::join2;

verus! {

/// A failure of the service. Failures that come from a collaborator (the
/// database, a JSON codec, the operating system) keep the collaborator's
/// description as text in `source`.
#[derive(Debug)]
pub enum AppError {
    Database { message: String, source: String },
    Auth { message: String, code: ErrorCode },
    Validation { message: String, field: Option<String> },
    Sync { message: String, context: Vec<(String, String)> },
    Config { message: String, key: Option<String> },
    Json { message: String, source: String },
    Http { message: String, status: u16 },
    Internal { message: String, context: Vec<(String, String)> },
    Io { message: String, source: String },
}

/// Result alias for operations that fail with [`AppError`].
pub type AppResult<T> = Result<T, AppError>;

/// The texts of a list of key-value pairs.
pub open spec fn pairs_text(pairs: Seq<(String, String)>) -> Seq<(Seq<char>, Seq<char>)> {
    pairs.map(|i: int, p: (String, String)| (p.0@, p.1@))
}

impl AppError {
    /// The message that the error was made with.
    pub open spec fn message_text(self) -> Seq<char> {
        match self {
            AppError::Database { message, .. } => message@,
            AppError::Auth { message, .. } => message@,
            AppError::Validation { message, .. } => message@,
            AppError::Sync { message, .. } => message@,
            AppError::Config { message, .. } => message@,
            AppError::Json { message, .. } => message@,
            AppError::Http { message, .. } => message@,
            AppError::Internal { message, .. } => message@,
            AppError::Io { message, .. } => message@,
        }
    }

    /// The label that precedes the message when the error is displayed.
    pub open spec fn label_text(self) -> Seq<char> {
        match self {
            AppError::Database { .. } => "Database error: "@,
            AppError::Auth { .. } => "Authentication error: "@,
            AppError::Validation { .. } => "Validation error: "@,
            AppError::Sync { .. } => "Sync error: "@,
            AppError::Config { .. } => "Configuration error: "@,
            AppError::Json { .. } => "JSON parsing error: "@,
            AppError::Http { .. } => "HTTP error: "@,
            AppError::Internal { .. } => "Internal error: "@,
            AppError::Io { .. } => "IO error: "@,
        }
    }

    /// The error as displayed: its label followed by its message.
    pub open spec fn display_text(self) -> Seq<char> {
        self.label_text() + self.message_text()
    }

    /// The wire code reported for the error.
    pub open spec fn code_of(self) -> ErrorCode {
        match self {
            AppError::Database { .. } => ErrorCode::DatabaseError,
            AppError::Auth { code, .. } => code,
            AppError::Validation { .. } | AppError::Json { .. } => ErrorCode::InvalidData,
            AppError::Sync { .. } => ErrorCode::SyncConflict,
            AppError::Config { .. } => ErrorCode::InvalidConfiguration,
            AppError::Http { status, .. } => if status == 401 {
                ErrorCode::AuthTokenInvalid
            } else if status == 403 {
                ErrorCode::PermissionDenied
            } else if status == 400 {
                ErrorCode::InvalidData
            } else {
                ErrorCode::ServerError
            },
            AppError::Internal { .. } | AppError::Io { .. } => ErrorCode::ServerError,
        }
    }

    /// The HTTP status that the error is answered with.
    pub open spec fn status_of(self) -> u16 {
        match self {
            AppError::Database { .. } | AppError::Internal { .. } | AppError::Io { .. } => 500,
            AppError::Auth { code, .. } => code.status_of(),
            AppError::Validation { .. } | AppError::Config { .. } | AppError::Json { .. } => 400,
            AppError::Sync { .. } => 409,
            AppError::Http { status, .. } => status,
        }
    }

    /// Whether the failed request may be retried unchanged.
    pub open spec fn retryable(self) -> bool {
        match self {
            AppError::Database { .. } | AppError::Internal { .. } | AppError::Io { .. } => true,
            AppError::Auth { code, .. } => code.retryable(),
            AppError::Validation { .. }
            | AppError::Sync { .. }
            | AppError::Config { .. }
            | AppError::Json { .. } => false,
            AppError::Http { status, .. } => status == 500 || status == 502 || status == 503
                || status == 504,
        }
    }

    /// Whether the error is a validation failure with this message that
    /// names this field.
    pub open spec fn is_validation(self, message: Seq<char>, field: Seq<char>) -> bool {
        match self {
            AppError::Validation { message: m, field: Some(f) } => m@ == message && f@ == field,
            _ => false,
        }
    }

    /// Whether the error is a configuration failure with this message that
    /// names this key.
    pub open spec fn is_config(self, message: Seq<char>, key: Seq<char>) -> bool {
        match self {
            AppError::Config { message: m, key: Some(k) } => m@ == message && k@ == key,
            _ => false,
        }
    }

    /// Whether the error is an authentication failure with this message and
    /// code.
    pub open spec fn is_auth(self, message: Seq<char>, code: ErrorCode) -> bool {
        match self {
            AppError::Auth { message: m, code: c } => m@ == message && c == code,
            _ => false,
        }
    }

    /// Whether the error is an internal failure with this message and no
    /// context.
    pub open spec fn is_internal(self, message: Seq<char>) -> bool {
        match self {
            AppError::Internal { message: m, context } => m@ == message && context@.len() == 0,
            _ => false,
        }
    }

    /// Whether the error is a sync failure with this message and no context.
    pub open spec fn is_sync(self, message: Seq<char>) -> bool {
        match self {
            AppError::Sync { message: m, context } => m@ == message && context@.len() == 0,
            _ => false,
        }
    }

    /// The context pairs attached to the error, oldest first; empty for the
    /// kinds that carry none.
    pub open spec fn context_of(self) -> Seq<(Seq<char>, Seq<char>)> {
        match self {
            AppError::Internal { context, .. } | AppError::Sync { context, .. } => pairs_text(
                context@,
            ),
            _ => Seq::empty(),
        }
    }

    /// The collaborator's description of the failure, where there is one.
    pub open spec fn source_of(self) -> Option<Seq<char>> {
        match self {
            AppError::Database { source, .. } => Some(source@),
            AppError::Json { source, .. } => Some(source@),
            AppError::Io { source, .. } => Some(source@),
            _ => None,
        }
    }

    /// Returns the wire code of the error.
    pub fn error_code(&self) -> (code: ErrorCode)
        ensures
            code == self.code_of(),
    {
        match self {
            AppError::Database { .. } => ErrorCode::DatabaseError,
            AppError::Auth { code, .. } => *code,
            AppError::Validation { .. } | AppError::Json { .. } => ErrorCode::InvalidData,
            AppError::Sync { .. } => ErrorCode::SyncConflict,
            AppError::Config { .. } => ErrorCode::InvalidConfiguration,
            AppError::Http { status, .. } => {
                if *status == 401 {
                    ErrorCode::AuthTokenInvalid
                } else if *status == 403 {
                    ErrorCode::PermissionDenied
                } else if *status == 400 {
                    ErrorCode::InvalidData
                } else {
                    ErrorCode::ServerError
                }
            },
            AppError::Internal { .. } | AppError::Io { .. } => ErrorCode::ServerError,
        }
    }

    /// Returns the HTTP status of the error.
    pub fn status_code(&self) -> (status: u16)
        ensures
            status == self.status_of(),
    {
        match self {
            AppError::Database { .. } | AppError::Internal { .. } | AppError::Io { .. } => 500,
            AppError::Auth { code, .. } => code.http_status(),
            AppError::Validation { .. } | AppError::Config { .. } | AppError::Json { .. } => 400,
            AppError::Sync { .. } => 409,
            AppError::Http { status, .. } => *status,
        }
    }

    /// Returns whether the failed request may be retried unchanged.
    pub fn is_retryable(&self) -> (r: bool)
        ensures
            r == self.retryable(),
    {
        match self {
            AppError::Database { .. } | AppError::Internal { .. } | AppError::Io { .. } => true,
            AppError::Auth { code, .. } => code.is_retryable(),
            AppError::Validation { .. }
            | AppError::Sync { .. }
            | AppError::Config { .. }
            | AppError::Json { .. } => false,
            AppError::Http { status, .. } => *status == 500 || *status == 502 || *status == 503
                || *status == 504,
        }
    }

    /// The failure of a request that carries no token.
    pub fn auth_token_missing() -> (e: AppError)
        ensures
            e.is_auth("Authentication token is missing"@, ErrorCode::AuthTokenMissing),
    {
        AppError::Auth {
            message: String::from_str("Authentication token is missing"),
            code: ErrorCode::AuthTokenMissing,
        }
    }

    /// The failure of a request whose token is malformed or wrong.
    pub fn auth_token_invalid(message: &str) -> (e: AppError)
        ensures
            e.is_auth(message@, ErrorCode::AuthTokenInvalid),
    {
        AppError::Auth { message: String::from_str(message), code: ErrorCode::AuthTokenInvalid }
    }

    /// A validation failure, optionally naming the offending field.
    pub fn validation(message: &str, field: Option<&str>) -> (e: AppError)
        ensures
            e matches AppError::Validation { message: m, field: f } && m@ == message@ && (match (
                f,
                field,
            ) {
                (Some(a), Some(b)) => a@ == b@,
                (None, None) => true,
                _ => false,
            }),
            field matches Some(name) ==> e.is_validation(message@, name@),
    {
        let field = match field {
            Some(name) => Some(String::from_str(name)),
            None => None,
        };
        AppError::Validation { message: String::from_str(message), field }
    }

    /// A configuration failure that names the offending key.
    pub fn config(message: &str, key: &str) -> (e: AppError)
        ensures
            e.is_config(message@, key@),
    {
        AppError::Config { message: String::from_str(message), key: Some(String::from_str(key)) }
    }

    /// A database failure with the store's own description of it.
    pub fn database(message: &str, source: &str) -> (e: AppError)
        ensures
            e matches AppError::Database { message: m, source: s } && m@ == message@ && s@
                == source@,
    {
        AppError::Database { message: String::from_str(message), source: String::from_str(source) }
    }

    /// An internal failure without context.
    pub fn internal(message: &str) -> (e: AppError)
        ensures
            e.is_internal(message@),
    {
        AppError::Internal { message: String::from_str(message), context: Vec::new() }
    }

    /// A sync failure without context.
    pub fn sync(message: &str) -> (e: AppError)
        ensures
            e.is_sync(message@),
    {
        AppError::Sync { message: String::from_str(message), context: Vec::new() }
    }

    /// Attaches a context pair to an internal or sync failure; the other
    /// kinds carry no context and are returned as they are.
    pub fn with_context(self, key: &str, value: &str) -> (e: AppError)
        ensures
            (self is Internal || self is Sync) ==> e.context_of() == self.context_of().push(
                (key@, value@),
            ),
            !(self is Internal || self is Sync) ==> e == self,
            e.message_text() == self.message_text(),
            e.code_of() == self.code_of(),
            e.status_of() == self.status_of(),
    {
        match self {
            AppError::Internal { message, context } => {
                let mut context = context;
                let ghost before = context@;
                context.push((String::from_str(key), String::from_str(value)));
                assert(pairs_text(context@) =~= pairs_text(before).push((key@, value@)));
                AppError::Internal { message, context }
            },
            AppError::Sync { message, context } => {
                let mut context = context;
                let ghost before = context@;
                context.push((String::from_str(key), String::from_str(value)));
                assert(pairs_text(context@) =~= pairs_text(before).push((key@, value@)));
                AppError::Sync { message, context }
            },
            other => other,
        }
    }

    /// Renders the error for people: the kind's label, then the message.
    pub fn to_string(&self) -> (s: String)
        ensures
            s@ == self.display_text(),
    {
        match self {
            AppError::Database { message, .. } => join2("Database error: ", message.as_str()),
            AppError::Auth { message, .. } => join2("Authentication error: ", message.as_str()),
            AppError::Validation { message, .. } => join2("Validation error: ", message.as_str()),
            AppError::Sync { message, .. } => join2("Sync error: ", message.as_str()),
            AppError::Config { message, .. } => join2("Configuration error: ", message.as_str()),
            AppError::Json { message, .. } => join2("JSON parsing error: ", message.as_str()),
            AppError::Http { message, .. } => join2("HTTP error: ", message.as_str()),
            AppError::Internal { message, .. } => join2("Internal error: ", message.as_str()),
            AppError::Io { message, .. } => join2("IO error: ", message.as_str()),
        }
    }
}

/// Validation failures and authentication failures are never retryable;
/// database failures always are.
pub proof fn lemma_retry_policy(e: AppError)
    ensures
        e is Validation ==> !e.retryable() && e.status_of() == 400,
        e is Database ==> e.retryable() && e.status_of() == 500,
        (e matches AppError::Auth { code, .. } && (code == ErrorCode::AuthTokenMissing || code
            == ErrorCode::AuthTokenInvalid)) ==> !e.retryable() && e.status_of() == 401,
{
}

} // verus!
