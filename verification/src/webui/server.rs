//! Decisions of the web interface's handlers.
use vstd::prelude::*;
use crate::text::{chars_of, ends_with, has_prefix, has_suffix, starts_with, string_of, strip_leading, stripped_leading};

verus! {

/// Real-time event broadcast to WebSocket clients
#[derive(Clone, Debug)]
pub enum WebuiEvent {
    NoteUpdate { date: String, content: String },
}

/// A request may pass: no token is configured, or the `Authorization`
/// header is `Bearer <token>` (every leading `Bearer ` removed) with the
/// configured token.
pub open spec fn authorized(expected: Option<Seq<char>>, header: Option<Seq<char>>) -> bool {
    match expected {
        None => true,
        Some(t) => match header {
            None => false,
            Some(h) => starts_with(h, "Bearer "@) && strip_leading(h, "Bearer "@) == t,
        },
    }
}

/// Whether a request with the given `Authorization` header may pass.
pub fn check_auth(expected_token: Option<&str>, auth_header: Option<&str>) -> (r: bool)
    ensures
        r == authorized(crate::text::opt_str_view(expected_token), crate::text::opt_str_view(auth_header)),
{
    let expected = match expected_token {
        Some(t) => t,
        None => return true,
    };
    let header = match auth_header {
        Some(h) => h,
        None => return false,
    };
    let h = chars_of(header);
    let bearer = chars_of("Bearer ");
    if !has_prefix(&h, &bearer) {
        return false;
    }
    let token = stripped_leading(&h, &bearer);
    crate::url::detect::same_chars(&token, &chars_of(expected))
}

/// A WebSocket connection may open: no token is configured, or the
/// `token` query parameter is the configured token.
pub fn ws_authorized(expected_token: Option<&str>, given: &str) -> (r: bool)
    ensures
        r == match expected_token {
            None => true,
            Some(t) => given@ == t@,
        },
{
    match expected_token {
        None => true,
        Some(t) => crate::url::detect::same_chars(&chars_of(given), &chars_of(t)),
    }
}

/// The content type an asset is served with, by its extension.
pub open spec fn asset_mime_type(name: Seq<char>) -> Seq<char> {
    if ends_with(name, ".png"@) {
        "image/png"@
    } else if ends_with(name, ".gif"@) {
        "image/gif"@
    } else if ends_with(name, ".webp"@) {
        "image/webp"@
    } else {
        "image/jpeg"@
    }
}

/// The content type an asset is served with.
pub fn asset_mime(filename: &str) -> (r: &'static str)
    ensures
        r@ == asset_mime_type(filename@),
{
    let f = chars_of(filename);
    if has_suffix(&f, &chars_of(".png")) {
        "image/png"
    } else if has_suffix(&f, &chars_of(".gif")) {
        "image/gif"
    } else if has_suffix(&f, &chars_of(".webp")) {
        "image/webp"
    } else {
        "image/jpeg"
    }
}

} // verus!
