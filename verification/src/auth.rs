//! What the gateway in front of the proxy vouches for, read from two request
//! headers: who may change things, and under which outer path the proxy is
//! reached.

use crate::status::{Reply, ReplyView, BAD_REQUEST, FORBIDDEN, UNAUTHORIZED};
use vstd::prelude::*;
use vstd::string::*;
use vstd::utf8::{decode_utf8, valid_utf8};

verus! {

/// The name of the header that carries the user data, a JSON document.
pub const USER_DATA_HEADER: &'static str = "x-verified-user-data";

/// The name of the header that carries the outer base path.
pub const VERIFIED_PATH_HEADER: &'static str = "x-verified-path";

/// The user data that the gateway attaches to a request.
#[derive(Debug, Clone, Copy, PartialEq, Eq, Structural)]
pub struct UserData {
    /// Set to `true` for a user who may look but not change.
    pub read_only: Option<bool>,
}

/// Proof that a request may change things.
#[derive(Debug, Clone, Copy, PartialEq, Eq, Structural)]
pub struct WriteUser;

/// The outer base path under which the proxy is reached.
#[derive(Debug, Clone, PartialEq, Eq)]
pub struct VerifiedPath(pub String);

/// The values of the two headers as they arrived, each absent or raw bytes.
#[derive(Debug, Clone, PartialEq, Eq)]
pub struct RequestParts {
    /// The value of `x-verified-user-data`.
    pub user_data: Option<Vec<u8>>,
    /// The value of `x-verified-path`.
    pub verified_path: Option<Vec<u8>>,
}

/// A header value as the contracts see it.
pub open spec fn header_bytes(value: Option<Vec<u8>>) -> Option<Seq<u8>> {
    match value {
        Some(bytes) => Some(bytes@),
        None => None,
    }
}

/// The text of a header value: its bytes read as UTF-8, where there is a
/// value and it is UTF-8.
pub open spec fn header_text(value: Option<Seq<u8>>) -> Option<Seq<char>> {
    match value {
        Some(bytes) if valid_utf8(bytes) => Some(decode_utf8(bytes)),
        _ => None,
    }
}

/// Whether a request may change things, and the refusal if it may not.
/// `user_data` is what a JSON reader made of the header's text, `None` where
/// the text is no JSON document of user data.
pub open spec fn write_decision(header: Option<Seq<u8>>, user_data: Option<UserData>) -> Result<
    (),
    ReplyView,
> {
    match header {
        None => Err((UNAUTHORIZED, "Missing x-verified-user-data header"@)),
        Some(bytes) => if !valid_utf8(bytes) {
            Err((BAD_REQUEST, "Invalid x-verified-user-data header"@))
        } else {
            match user_data {
                None => Err((BAD_REQUEST, "Invalid JSON in x-verified-user-data header"@)),
                Some(data) => if data.read_only == Some(true) {
                    Err((FORBIDDEN, "Read-only access: Cannot modify artifacts"@))
                } else {
                    Ok(())
                },
            }
        },
    }
}

/// The outer base path of a request: the header's text, or `"/"` where the
/// header is absent or not UTF-8.
pub open spec fn verified_path_text(header: Option<Seq<u8>>) -> Seq<char> {
    match header_text(header) {
        Some(text) => text,
        None => "/"@,
    }
}

/// Whether `result` admits or refuses as `expected` says.
pub open spec fn decided_as<T>(result: Result<T, Reply>, expected: Result<(), ReplyView>) -> bool {
    match result {
        Ok(_) => expected is Ok,
        Err((status, message)) => expected == Err::<(), ReplyView>((status, message@)),
    }
}

/// `core::str::from_utf8`: the bytes as text when they are well-formed UTF-8,
/// nothing otherwise.
#[verifier::external_body]
fn utf8_str<'a>(bytes: &'a [u8]) -> (text: Option<&'a str>)
    ensures
        text is Some <==> valid_utf8(bytes@),
        text matches Some(s) ==> s@ == decode_utf8(bytes@),
{
    core::str::from_utf8(bytes).ok()
}

/// Reads a header value as text.
pub fn text_of_header(value: &Option<Vec<u8>>) -> (text: Option<String>)
    ensures
        text.deep_view() == header_text(header_bytes(*value)),
{
    match value {
        Some(bytes) => match utf8_str(bytes.as_slice()) {
            Some(s) => Some(s.to_owned()),
            None => None,
        },
        None => None,
    }
}

impl WriteUser {
    /// Decides whether a request may change things. `user_data` is what the
    /// JSON reader made of `text_of_header(&parts.user_data)`; it is looked
    /// at only where that text exists.
    pub fn from_parts_sync(parts: &RequestParts, user_data: Option<UserData>) -> (result: Result<
        WriteUser,
        Reply,
    >)
        ensures
            decided_as(result, write_decision(header_bytes(parts.user_data), user_data)),
    {
        match &parts.user_data {
            None => Err((UNAUTHORIZED, "Missing x-verified-user-data header".to_owned())),
            Some(bytes) => match utf8_str(bytes.as_slice()) {
                None => Err((BAD_REQUEST, "Invalid x-verified-user-data header".to_owned())),
                Some(_) => match user_data {
                    None => Err(
                        (BAD_REQUEST, "Invalid JSON in x-verified-user-data header".to_owned()),
                    ),
                    Some(data) => match data.read_only {
                        Some(true) => Err(
                            (FORBIDDEN, "Read-only access: Cannot modify artifacts".to_owned()),
                        ),
                        _ => Ok(WriteUser),
                    },
                },
            },
        }
    }
}

impl VerifiedPath {
    /// Reads the outer base path of a request. It never refuses: without a
    /// usable header the path is `"/"`.
    pub fn from_request_parts(parts: &RequestParts) -> (result: Result<VerifiedPath, Reply>)
        ensures
            result matches Ok(path) && path.0@ == verified_path_text(
                header_bytes(parts.verified_path),
            ),
    {
        match text_of_header(&parts.verified_path) {
            Some(text) => Ok(VerifiedPath(text)),
            None => Ok(VerifiedPath("/".to_owned())),
        }
    }
}

} // verus!
