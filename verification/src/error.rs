//! Error kinds of the service, their wire codes, HTTP statuses and retry
//! hints, and the envelope that reports a failed request.

pub mod code;
pub mod app_error;
pub mod response;
