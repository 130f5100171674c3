//! The closed set of error codes that the service reports to clients.

use vstd::prelude::*;

verus! {

/// Machine-readable error code carried in every error envelope.
#[derive(Debug, Clone, Copy, PartialEq, Eq, Hash, Structural)]
pub enum ErrorCode {
    NetworkFailure,
    ConnectionTimeout,
    DnsResolutionFailed,
    TlsCertificateError,
    AuthTokenMissing,
    AuthTokenInvalid,
    AuthTokenExpired,
    PermissionDenied,
    ServerUnavailable,
    ServerError,
    ServerOverloaded,
    MaintenanceMode,
    InvalidData,
    SyncConflict,
    DataCorruption,
    StorageQuotaExceeded,
    DatabaseError,
    InvalidServerUrl,
    MissingConfiguration,
    InvalidConfiguration,
    ExtensionPermissionDenied,
    BrowserApiUnavailable,
    TabAccessDenied,
    WindowAccessDenied,
}

impl ErrorCode {
    /// The HTTP status that a response carrying this code is sent with.
    pub open spec fn status_of(self) -> u16 {
        match self {
            ErrorCode::NetworkFailure
            | ErrorCode::DnsResolutionFailed
            | ErrorCode::TlsCertificateError
            | ErrorCode::ServerUnavailable
            | ErrorCode::ServerOverloaded
            | ErrorCode::MaintenanceMode => 503,
            ErrorCode::ConnectionTimeout => 504,
            ErrorCode::AuthTokenMissing
            | ErrorCode::AuthTokenInvalid
            | ErrorCode::AuthTokenExpired => 401,
            ErrorCode::PermissionDenied
            | ErrorCode::ExtensionPermissionDenied
            | ErrorCode::TabAccessDenied
            | ErrorCode::WindowAccessDenied => 403,
            ErrorCode::ServerError | ErrorCode::DatabaseError => 500,
            ErrorCode::InvalidData
            | ErrorCode::InvalidServerUrl
            | ErrorCode::MissingConfiguration
            | ErrorCode::InvalidConfiguration => 400,
            ErrorCode::SyncConflict => 409,
            ErrorCode::DataCorruption => 422,
            ErrorCode::StorageQuotaExceeded => 507,
            ErrorCode::BrowserApiUnavailable => 501,
        }
    }

    /// Whether a client may retry a request that failed with this code
    /// without changing it: the transient kinds only.
    pub open spec fn retryable(self) -> bool {
        self == ErrorCode::NetworkFailure || self == ErrorCode::ConnectionTimeout || self
            == ErrorCode::DnsResolutionFailed || self == ErrorCode::ServerUnavailable || self
            == ErrorCode::ServerOverloaded || self == ErrorCode::DatabaseError
    }

    /// The human-readable default message of this code.
    pub open spec fn message_of(self) -> Seq<char> {
        match self {
            ErrorCode::NetworkFailure => "Unable to connect to the server. Please check your network connection."@,
            ErrorCode::ConnectionTimeout => "The connection to the server timed out. Please try again."@,
            ErrorCode::DnsResolutionFailed => "Cannot resolve server address. Please check the server URL."@,
            ErrorCode::TlsCertificateError => "SSL certificate error. The server certificate may be invalid."@,
            ErrorCode::AuthTokenMissing => "Authentication token is missing. Please configure your token."@,
            ErrorCode::AuthTokenInvalid => "Authentication token is invalid. Please check your token."@,
            ErrorCode::AuthTokenExpired => "Authentication token has expired. Please refresh your token."@,
            ErrorCode::PermissionDenied => "Permission denied. You do not have access to this resource."@,
            ErrorCode::ServerUnavailable => "Server is currently unavailable. Please try again later."@,
            ErrorCode::ServerError => "An internal server error occurred. Please try again later."@,
            ErrorCode::ServerOverloaded => "Server is overloaded. Please try again in a few moments."@,
            ErrorCode::MaintenanceMode => "Server is under maintenance. Please try again later."@,
            ErrorCode::InvalidData => "The data format is invalid. Please check your input."@,
            ErrorCode::SyncConflict => "A sync conflict occurred. Your changes may have been overridden."@,
            ErrorCode::DataCorruption => "Data corruption detected. Some data may be lost."@,
            ErrorCode::StorageQuotaExceeded => "Storage quota exceeded. Please free up some space."@,
            ErrorCode::DatabaseError => "Database error occurred. Please try again later."@,
            ErrorCode::InvalidServerUrl => "Server URL is invalid. Please check the URL format."@,
            ErrorCode::MissingConfiguration => "Required configuration is missing. Please complete setup."@,
            ErrorCode::InvalidConfiguration => "Configuration is invalid. Please check your settings."@,
            ErrorCode::ExtensionPermissionDenied => "Extension permissions required. Please grant access in browser settings."@,
            ErrorCode::BrowserApiUnavailable => "Required browser API is not available in this environment."@,
            ErrorCode::TabAccessDenied => "Cannot access tab data. Please check extension permissions."@,
            ErrorCode::WindowAccessDenied => "Cannot access window data. Please check extension permissions."@,
        }
    }

    /// The code's name on the wire, in upper case with underscores.
    pub open spec fn wire_name_of(self) -> Seq<char> {
        match self {
            ErrorCode::NetworkFailure => "NETWORK_FAILURE"@,
            ErrorCode::ConnectionTimeout => "CONNECTION_TIMEOUT"@,
            ErrorCode::DnsResolutionFailed => "DNS_RESOLUTION_FAILED"@,
            ErrorCode::TlsCertificateError => "TLS_CERTIFICATE_ERROR"@,
            ErrorCode::AuthTokenMissing => "AUTH_TOKEN_MISSING"@,
            ErrorCode::AuthTokenInvalid => "AUTH_TOKEN_INVALID"@,
            ErrorCode::AuthTokenExpired => "AUTH_TOKEN_EXPIRED"@,
            ErrorCode::PermissionDenied => "PERMISSION_DENIED"@,
            ErrorCode::ServerUnavailable => "SERVER_UNAVAILABLE"@,
            ErrorCode::ServerError => "SERVER_ERROR"@,
            ErrorCode::ServerOverloaded => "SERVER_OVERLOADED"@,
            ErrorCode::MaintenanceMode => "MAINTENANCE_MODE"@,
            ErrorCode::InvalidData => "INVALID_DATA"@,
            ErrorCode::SyncConflict => "SYNC_CONFLICT"@,
            ErrorCode::DataCorruption => "DATA_CORRUPTION"@,
            ErrorCode::StorageQuotaExceeded => "STORAGE_QUOTA_EXCEEDED"@,
            ErrorCode::DatabaseError => "DATABASE_ERROR"@,
            ErrorCode::InvalidServerUrl => "INVALID_SERVER_URL"@,
            ErrorCode::MissingConfiguration => "MISSING_CONFIGURATION"@,
            ErrorCode::InvalidConfiguration => "INVALID_CONFIGURATION"@,
            ErrorCode::ExtensionPermissionDenied => "EXTENSION_PERMISSION_DENIED"@,
            ErrorCode::BrowserApiUnavailable => "BROWSER_API_UNAVAILABLE"@,
            ErrorCode::TabAccessDenied => "TAB_ACCESS_DENIED"@,
            ErrorCode::WindowAccessDenied => "WINDOW_ACCESS_DENIED"@,
        }
    }

    /// Returns the HTTP status for this code.
    pub fn http_status(&self) -> (status: u16)
        ensures
            status == self.status_of(),
            400 <= status < 600,
    {
        match self {
            ErrorCode::NetworkFailure
            | ErrorCode::DnsResolutionFailed
            | ErrorCode::TlsCertificateError
            | ErrorCode::ServerUnavailable
            | ErrorCode::ServerOverloaded
            | ErrorCode::MaintenanceMode => 503,
            ErrorCode::ConnectionTimeout => 504,
            ErrorCode::AuthTokenMissing
            | ErrorCode::AuthTokenInvalid
            | ErrorCode::AuthTokenExpired => 401,
            ErrorCode::PermissionDenied
            | ErrorCode::ExtensionPermissionDenied
            | ErrorCode::TabAccessDenied
            | ErrorCode::WindowAccessDenied => 403,
            ErrorCode::ServerError | ErrorCode::DatabaseError => 500,
            ErrorCode::InvalidData
            | ErrorCode::InvalidServerUrl
            | ErrorCode::MissingConfiguration
            | ErrorCode::InvalidConfiguration => 400,
            ErrorCode::SyncConflict => 409,
            ErrorCode::DataCorruption => 422,
            ErrorCode::StorageQuotaExceeded => 507,
            ErrorCode::BrowserApiUnavailable => 501,
        }
    }

    /// Returns the default message for this code.
    pub fn default_message(&self) -> (message: &'static str)
        ensures
            message@ == self.message_of(),
    {
        match self {
            ErrorCode::NetworkFailure => "Unable to connect to the server. Please check your network connection.",
            ErrorCode::ConnectionTimeout => "The connection to the server timed out. Please try again.",
            ErrorCode::DnsResolutionFailed => "Cannot resolve server address. Please check the server URL.",
            ErrorCode::TlsCertificateError => "SSL certificate error. The server certificate may be invalid.",
            ErrorCode::AuthTokenMissing => "Authentication token is missing. Please configure your token.",
            ErrorCode::AuthTokenInvalid => "Authentication token is invalid. Please check your token.",
            ErrorCode::AuthTokenExpired => "Authentication token has expired. Please refresh your token.",
            ErrorCode::PermissionDenied => "Permission denied. You do not have access to this resource.",
            ErrorCode::ServerUnavailable => "Server is currently unavailable. Please try again later.",
            ErrorCode::ServerError => "An internal server error occurred. Please try again later.",
            ErrorCode::ServerOverloaded => "Server is overloaded. Please try again in a few moments.",
            ErrorCode::MaintenanceMode => "Server is under maintenance. Please try again later.",
            ErrorCode::InvalidData => "The data format is invalid. Please check your input.",
            ErrorCode::SyncConflict => "A sync conflict occurred. Your changes may have been overridden.",
            ErrorCode::DataCorruption => "Data corruption detected. Some data may be lost.",
            ErrorCode::StorageQuotaExceeded => "Storage quota exceeded. Please free up some space.",
            ErrorCode::DatabaseError => "Database error occurred. Please try again later.",
            ErrorCode::InvalidServerUrl => "Server URL is invalid. Please check the URL format.",
            ErrorCode::MissingConfiguration => "Required configuration is missing. Please complete setup.",
            ErrorCode::InvalidConfiguration => "Configuration is invalid. Please check your settings.",
            ErrorCode::ExtensionPermissionDenied => "Extension permissions required. Please grant access in browser settings.",
            ErrorCode::BrowserApiUnavailable => "Required browser API is not available in this environment.",
            ErrorCode::TabAccessDenied => "Cannot access tab data. Please check extension permissions.",
            ErrorCode::WindowAccessDenied => "Cannot access window data. Please check extension permissions.",
        }
    }

    /// Returns the code's name as it is written on the wire.
    pub fn wire_name(&self) -> (name: &'static str)
        ensures
            name@ == self.wire_name_of(),
    {
        match self {
            ErrorCode::NetworkFailure => "NETWORK_FAILURE",
            ErrorCode::ConnectionTimeout => "CONNECTION_TIMEOUT",
            ErrorCode::DnsResolutionFailed => "DNS_RESOLUTION_FAILED",
            ErrorCode::TlsCertificateError => "TLS_CERTIFICATE_ERROR",
            ErrorCode::AuthTokenMissing => "AUTH_TOKEN_MISSING",
            ErrorCode::AuthTokenInvalid => "AUTH_TOKEN_INVALID",
            ErrorCode::AuthTokenExpired => "AUTH_TOKEN_EXPIRED",
            ErrorCode::PermissionDenied => "PERMISSION_DENIED",
            ErrorCode::ServerUnavailable => "SERVER_UNAVAILABLE",
            ErrorCode::ServerError => "SERVER_ERROR",
            ErrorCode::ServerOverloaded => "SERVER_OVERLOADED",
            ErrorCode::MaintenanceMode => "MAINTENANCE_MODE",
            ErrorCode::InvalidData => "INVALID_DATA",
            ErrorCode::SyncConflict => "SYNC_CONFLICT",
            ErrorCode::DataCorruption => "DATA_CORRUPTION",
            ErrorCode::StorageQuotaExceeded => "STORAGE_QUOTA_EXCEEDED",
            ErrorCode::DatabaseError => "DATABASE_ERROR",
            ErrorCode::InvalidServerUrl => "INVALID_SERVER_URL",
            ErrorCode::MissingConfiguration => "MISSING_CONFIGURATION",
            ErrorCode::InvalidConfiguration => "INVALID_CONFIGURATION",
            ErrorCode::ExtensionPermissionDenied => "EXTENSION_PERMISSION_DENIED",
            ErrorCode::BrowserApiUnavailable => "BROWSER_API_UNAVAILABLE",
            ErrorCode::TabAccessDenied => "TAB_ACCESS_DENIED",
            ErrorCode::WindowAccessDenied => "WINDOW_ACCESS_DENIED",
        }
    }

    /// Returns whether the code names a transient failure.
    pub fn is_retryable(&self) -> (r: bool)
        ensures
            r == self.retryable(),
    {
        match self {
            ErrorCode::NetworkFailure
            | ErrorCode::ConnectionTimeout
            | ErrorCode::DnsResolutionFailed
            | ErrorCode::ServerUnavailable
            | ErrorCode::ServerOverloaded
            | ErrorCode::DatabaseError => true,
            _ => false,
        }
    }
}

/// Authentication codes map to 401, permission codes to 403, validation
/// codes to 400, conflicts to 409, database and internal failures to 500,
/// overload and unavailability to 503 and timeouts to 504.
pub proof fn lemma_status_classes(code: ErrorCode)
    ensures
        (code == ErrorCode::AuthTokenMissing || code == ErrorCode::AuthTokenInvalid || code
            == ErrorCode::AuthTokenExpired) ==> code.status_of() == 401,
        code == ErrorCode::PermissionDenied ==> code.status_of() == 403,
        code == ErrorCode::InvalidData ==> code.status_of() == 400,
        code == ErrorCode::SyncConflict ==> code.status_of() == 409,
        (code == ErrorCode::DatabaseError || code == ErrorCode::ServerError) ==> code.status_of()
            == 500,
        (code == ErrorCode::ServerOverloaded || code == ErrorCode::ServerUnavailable)
            ==> code.status_of() == 503,
        code == ErrorCode::ConnectionTimeout ==> code.status_of() == 504,
        code.retryable() ==> code.status_of() >= 500,
{
}

} // verus!
