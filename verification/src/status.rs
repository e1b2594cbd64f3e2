//! Answers, and the HTTP status codes that the library answers with or looks
//! for.

use vstd::prelude::*;

verus! {

/// An answer: its status code and its body.
pub type Reply = (u16, String);

/// An answer as the contracts see it.
pub type ReplyView = (u16, Seq<char>);

/// The request was served.
pub const OK: u16 = 200;

/// The request is malformed.
pub const BAD_REQUEST: u16 = 400;

/// The request does not say who is asking.
pub const UNAUTHORIZED: u16 = 401;

/// The one who asks may not do this.
pub const FORBIDDEN: u16 = 403;

/// Nothing is served at this path.
pub const NOT_FOUND: u16 = 404;

/// The path is served, but not with this method.
pub const METHOD_NOT_ALLOWED: u16 = 405;

/// The server failed while it served the request.
pub const INTERNAL_SERVER_ERROR: u16 = 500;

/// The server behind this one could not be reached.
pub const BAD_GATEWAY: u16 = 502;

/// The subprocess cannot answer for now.
pub const SERVICE_UNAVAILABLE: u16 = 503;

/// The server behind this one did not answer in time.
pub const GATEWAY_TIMEOUT: u16 = 504;

} // verus!
