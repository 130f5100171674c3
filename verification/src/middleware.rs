//! The media-type check in front of the JSON endpoints.

use vstd::prelude::*;
use crate::auth::header_text;
use crate::text::{has_prefix, same_text};

verus! {

/// The status that answers a request with an unsupported media type.
pub const UNSUPPORTED_MEDIA_TYPE: u16 = 415;

/// Whether requests with this method carry a body that must be JSON.
pub open spec fn writes_body(method: Seq<char>) -> bool {
    method == "POST"@ || method == "PUT"@ || method == "PATCH"@
}

/// Whether a request passes the check: a method that carries no body always
/// does; one that carries a body does where its `Content-Type` is present
/// and begins with `application/json`, so that a charset may follow.
pub open spec fn media_type_accepted(method: Seq<char>, content_type: Option<Seq<char>>) -> bool {
    !writes_body(method) || (content_type matches Some(value) && "application/json"@.is_prefix_of(
        value,
    ))
}

/// Checks the `Content-Type` of a request. `content_type` is the header's
/// value, or `None` where the header is absent or is no text.
pub fn validate_content_type(method: &str, content_type: Option<&str>) -> (r: Result<(), u16>)
    ensures
        r is Ok <==> media_type_accepted(method@, header_text(content_type)),
        r matches Err(status) ==> status == UNSUPPORTED_MEDIA_TYPE,
{
    if same_text(method, "POST") || same_text(method, "PUT") || same_text(method, "PATCH") {
        match content_type {
            Some(value) => {
                if !has_prefix(value, "application/json") {
                    return Err(UNSUPPORTED_MEDIA_TYPE);
                }
            },
            None => {
                return Err(UNSUPPORTED_MEDIA_TYPE);
            },
        }
    }
    Ok(())
}

} // verus!
