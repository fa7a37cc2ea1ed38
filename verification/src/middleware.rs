//! Response policy applied to every request: security headers and time limits.

use vstd::prelude::*;

use crate::error::ApiError;
use crate::error_codes::ErrorCode;
use crate::media::{header_view, HeaderEntry};
use crate::text::{ends_with, has_suffix};

verus! {

broadcast use vstd::string::group_string_axioms;

/// Seconds a JSON request may take.
pub const JSON_REQUEST_TIMEOUT_SECS: u64 = 30;

/// Seconds a file download may take.
pub const MEDIA_REQUEST_TIMEOUT_SECS: u64 = 300;

/// The time limit of a request: file downloads, whose paths end in `/content`, get longer.
pub fn request_timeout_secs(path: &str) -> (secs: u64)
    ensures
        secs == (if has_suffix(path@, "/content"@) {
            MEDIA_REQUEST_TIMEOUT_SECS
        } else {
            JSON_REQUEST_TIMEOUT_SECS
        }),
{
    if ends_with(path, "/content") {
        MEDIA_REQUEST_TIMEOUT_SECS
    } else {
        JSON_REQUEST_TIMEOUT_SECS
    }
}

/// The headers every response carries.
pub open spec fn security_headers_spec() -> Seq<(Seq<char>, Seq<char>)> {
    seq![
        ("x-content-type-options"@, "nosniff"@),
        ("x-frame-options"@, "DENY"@),
        ("referrer-policy"@, "no-referrer"@),
        ("cache-control"@, "no-store"@),
    ]
}

/// The headers every response carries: no sniffing, no framing, no referrer, no caching.
pub fn security_headers() -> (headers: Vec<HeaderEntry>)
    ensures
        headers@.map_values(|h: HeaderEntry| header_view(h)) == security_headers_spec(),
{
    let mut headers: Vec<HeaderEntry> = Vec::new();
    headers.push(
        HeaderEntry {
            name: String::from_str("x-content-type-options"),
            value: String::from_str("nosniff"),
        },
    );
    headers.push(
        HeaderEntry { name: String::from_str("x-frame-options"), value: String::from_str("DENY") },
    );
    headers.push(
        HeaderEntry {
            name: String::from_str("referrer-policy"),
            value: String::from_str("no-referrer"),
        },
    );
    headers.push(
        HeaderEntry { name: String::from_str("cache-control"), value: String::from_str("no-store") },
    );
    proof {
        assert(headers@.map_values(|h: HeaderEntry| header_view(h)) =~= security_headers_spec());
    }
    headers
}

/// The answer for a request that ran past its time limit: an internal error that does not
/// say more.
pub fn timed_out() -> (e: ApiError)
    ensures
        e.is_default(ErrorCode::InternalError),
{
    ApiError::internal(String::from_str("request timed out"))
}

/// The answer for a path no route serves.
pub fn route_not_found() -> (e: ApiError)
    ensures
        e.is_plain(ErrorCode::ResourceNotFound, "route not found"@),
{
    ApiError::not_found(String::from_str("route not found"))
}

/// The answer for a method the route does not serve.
pub fn method_not_allowed() -> (e: ApiError)
    ensures
        e.is_default(ErrorCode::MethodNotAllowed),
{
    ApiError::method_not_allowed()
}

/// Every response carries the four security headers: no type sniffing, no framing, no
/// referrer and no caching.
pub proof fn law_security_headers_are_complete()
    ensures
        security_headers_spec().contains(("x-content-type-options"@, "nosniff"@)),
        security_headers_spec().contains(("x-frame-options"@, "DENY"@)),
        security_headers_spec().contains(("referrer-policy"@, "no-referrer"@)),
        security_headers_spec().contains(("cache-control"@, "no-store"@)),
        security_headers_spec().len() == 4,
{
    let h = security_headers_spec();
    assert(h[0] == ("x-content-type-options"@, "nosniff"@));
    assert(h[1] == ("x-frame-options"@, "DENY"@));
    assert(h[2] == ("referrer-policy"@, "no-referrer"@));
    assert(h[3] == ("cache-control"@, "no-store"@));
}

/// File downloads, whose paths end in `/content`, get five minutes; every other request gets
/// thirty seconds.
pub proof fn law_downloads_get_longer()
    ensures
        MEDIA_REQUEST_TIMEOUT_SECS == 300,
        JSON_REQUEST_TIMEOUT_SECS == 30,
        MEDIA_REQUEST_TIMEOUT_SECS > JSON_REQUEST_TIMEOUT_SECS,
{
}

} // verus!
