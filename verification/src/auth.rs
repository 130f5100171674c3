//! The bearer-token check that guards the sync endpoint.

use vstd::prelude::*;
use vstd::string::*;
use std::collections::HashMap;
use crate::config::AuthConfig;
use crate::error::app_error::AppError;
use crate::error::code::ErrorCode;
use crate::services::AuthContext;
use crate::text::{has_prefix, same_text, text_after};

verus! {

/// The scheme that must precede the token, with its single space.
pub open spec fn bearer_prefix() -> Seq<char> {
    "Bearer "@
}

/// What the check decides of a header value, absent or present.
pub enum AuthDecision {
    /// The header is absent.
    Missing,
    /// The header does not begin with the scheme.
    Malformed,
    /// The token after the scheme is not the shared token.
    WrongToken,
    /// The token after the scheme is the shared token.
    Granted,
}

/// The decision on a header value. The comparison is exact: the scheme and
/// the token are both case-sensitive.
pub open spec fn decide(shared_token: Seq<char>, header: Option<Seq<char>>) -> AuthDecision {
    match header {
        None => AuthDecision::Missing,
        Some(value) => if !bearer_prefix().is_prefix_of(value) {
            AuthDecision::Malformed
        } else if value.skip(bearer_prefix().len() as int) == shared_token {
            AuthDecision::Granted
        } else {
            AuthDecision::WrongToken
        },
    }
}

/// The text of an optional string slice.
pub open spec fn header_text(header: Option<&str>) -> Option<Seq<char>> {
    match header {
        Some(value) => Some(value@),
        None => None,
    }
}

/// Whether `context` is what a granted request carries on: the placeholder
/// device, the token, the permission to sync, and no metadata.
pub open spec fn granted_context(context: AuthContext, token: Seq<char>) -> bool {
    &&& context.device_id@ == "auth-validated"@
    &&& context.token@ == token
    &&& context.permissions@.len() == 1
    &&& context.permissions@[0]@ == "sync"@
    &&& context.metadata@ == Map::<String, String>::empty()
}

/// Checks the value of the configured token header.
///
/// A request without the header is refused for a missing token; one whose
/// header does not begin with `Bearer ` for an invalid format; one whose
/// token differs from the shared token for an invalid token. Any other
/// request is let through with its authentication context.
pub fn auth_middleware(auth_config: &AuthConfig, auth_header: Option<&str>) -> (r: Result<
    AuthContext,
    AppError,
>)
    ensures
        match decide(auth_config.shared_token@, header_text(auth_header)) {
            AuthDecision::Missing => r matches Err(e) && e.is_auth(
                "Authentication token is missing"@,
                ErrorCode::AuthTokenMissing,
            ),
            AuthDecision::Malformed => r matches Err(e) && e.is_auth(
                "Invalid authorization format. Use: Bearer <token>"@,
                ErrorCode::AuthTokenInvalid,
            ),
            AuthDecision::WrongToken => r matches Err(e) && e.is_auth(
                "Invalid authentication token"@,
                ErrorCode::AuthTokenInvalid,
            ),
            AuthDecision::Granted => r matches Ok(context) && granted_context(
                context,
                auth_config.shared_token@,
            ),
        },
{
    let value = match auth_header {
        Some(value) => value,
        None => {
            return Err(AppError::auth_token_missing());
        },
    };
    proof {
        reveal_strlit("Bearer ");
    }
    if !has_prefix(value, "Bearer ") {
        return Err(AppError::auth_token_invalid("Invalid authorization format. Use: Bearer <token>"));
    }
    let token = text_after(value, 7);
    if !same_text(token.as_str(), auth_config.shared_token.as_str()) {
        return Err(AppError::auth_token_invalid("Invalid authentication token"));
    }
    let mut permissions: Vec<String> = Vec::new();
    permissions.push(String::from_str("sync"));
    Ok(
        AuthContext {
            device_id: String::from_str("auth-validated"),
            token,
            permissions,
            metadata: HashMap::new(),
        },
    )
}

/// A header with another scheme, or with the scheme in another case, is
/// never let through, whatever follows it.
pub proof fn lemma_scheme_is_exact(shared_token: Seq<char>, header: Seq<char>)
    requires
        header.len() < 7 || header[0] != 'B' || header[1] != 'e' || header[2] != 'a' || header[3]
            != 'r' || header[4] != 'e' || header[5] != 'r' || header[6] != ' ',
    ensures
        decide(shared_token, Some(header)) is Malformed,
{
    reveal_strlit("Bearer ");
    if bearer_prefix().is_prefix_of(header) {
        assert(header.subrange(0, 7) =~= bearer_prefix());
        assert(header[0] == header.subrange(0, 7)[0]);
        assert(header[1] == header.subrange(0, 7)[1]);
        assert(header[2] == header.subrange(0, 7)[2]);
        assert(header[3] == header.subrange(0, 7)[3]);
        assert(header[4] == header.subrange(0, 7)[4]);
        assert(header[5] == header.subrange(0, 7)[5]);
        assert(header[6] == header.subrange(0, 7)[6]);
    }
}

} // verus!
