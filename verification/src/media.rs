//! Serving stored files (attachments, photos): how the file server's answer becomes the API's
//! answer, and the headers every served file carries.

use vstd::prelude::*;

use crate::error::ApiError;
use crate::error_codes::{status_of, ErrorCode};

verus! {

broadcast use vstd::string::group_string_axioms;

/// A stored file to serve, with the error to give where it cannot be read.
#[derive(Debug, Clone)]
pub struct ServeMedia {
    pub path: String,
    pub content_type: String,
    pub content_disposition: String,
    pub unavailable: ErrorCode,
}

/// The API's answer to a status the file server gave: a refused byte range, a missing file
/// and a server failure become errors; anything else is served.
pub open spec fn served_status_refusal(status: u16, unavailable: ErrorCode, e: ApiError) -> bool {
    if status == 416 {
        e.is_plain(ErrorCode::ByteRangeNotSatisfiable, "requested byte range is not satisfiable"@)
    } else if status == 404 {
        e.is_default(unavailable)
    } else {
        e.is_default(ErrorCode::InternalError)
    }
}

/// Whether the file server's status is served as it is.
pub open spec fn status_served(status: u16) -> bool {
    status != 416 && status != 404 && !(500 <= status <= 599)
}

/// Maps the file server's status to the API's answer.
pub fn check_served_status(status: u16, unavailable: ErrorCode) -> (r: Result<(), ApiError>)
    ensures
        r is Ok <==> status_served(status),
        r matches Err(e) ==> served_status_refusal(status, unavailable, e),
{
    if status == 416 {
        return Err(
            ApiError::range_not_satisfiable(
                String::from_str("requested byte range is not satisfiable"),
            ),
        );
    }
    if status == 404 {
        return Err(ApiError::new(unavailable));
    }
    if 500 <= status && status <= 599 {
        return Err(ApiError::internal(String::from_str("attachment delivery failed")));
    }
    Ok(())
}

/// A response header.
#[derive(Debug, Clone)]
pub struct HeaderEntry {
    pub name: String,
    pub value: String,
}

pub open spec fn header_view(h: HeaderEntry) -> (Seq<char>, Seq<char>) {
    (h.name@, h.value@)
}

/// The headers a served file carries: its type and disposition, its validators, `nosniff`,
/// and byte-range support.
pub open spec fn media_headers_spec(
    content_type: Seq<char>,
    disposition: Seq<char>,
    etag: Seq<char>,
    last_modified: Seq<char>,
) -> Seq<(Seq<char>, Seq<char>)> {
    seq![
        ("content-type"@, content_type),
        ("content-disposition"@, disposition),
        ("etag"@, etag),
        ("last-modified"@, last_modified),
        ("x-content-type-options"@, "nosniff"@),
        ("accept-ranges"@, "bytes"@),
    ]
}

fn header(name: &str, value: &str) -> (h: HeaderEntry)
    ensures
        header_view(h) == (name@, value@),
{
    HeaderEntry { name: String::from_str(name), value: String::from_str(value) }
}

/// The headers a served file carries.
pub fn media_headers(
    content_type: &str,
    disposition: &str,
    etag: &str,
    last_modified: &str,
) -> (headers: Vec<HeaderEntry>)
    ensures
        headers@.map_values(|h: HeaderEntry| header_view(h)) == media_headers_spec(
            content_type@,
            disposition@,
            etag@,
            last_modified@,
        ),
{
    let mut headers: Vec<HeaderEntry> = Vec::new();
    headers.push(header("content-type", content_type));
    headers.push(header("content-disposition", disposition));
    headers.push(header("etag", etag));
    headers.push(header("last-modified", last_modified));
    headers.push(header("x-content-type-options", "nosniff"));
    headers.push(header("accept-ranges", "bytes"));
    proof {
        assert(headers@.map_values(|h: HeaderEntry| header_view(h)) =~= media_headers_spec(
            content_type@,
            disposition@,
            etag@,
            last_modified@,
        ));
    }
    headers
}

/// The request headers passed on to the file server: the conditional and range headers.
pub open spec fn is_forwarded_header(name: Seq<char>) -> bool {
    name == "if-none-match"@ || name == "if-modified-since"@ || name == "range"@
}

/// The names of the request headers passed on to the file server.
pub fn conditional_header_names() -> (names: Vec<&'static str>)
    ensures
        names@.len() == 3,
        names@[0]@ == "if-none-match"@,
        names@[1]@ == "if-modified-since"@,
        names@[2]@ == "range"@,
{
    let mut names: Vec<&'static str> = Vec::new();
    names.push("if-none-match");
    names.push("if-modified-since");
    names.push("range");
    names
}

/// The file server's answer becomes the API's by its status: a refused byte range stays
/// `416`, a missing file is answered with the caller's unavailable code, any server failure
/// becomes `500`, and every other status is served as it is.
pub proof fn law_served_statuses(status: u16, unavailable: ErrorCode, e: ApiError)
    ensures
        status == 416 ==> !status_served(status) && (served_status_refusal(status, unavailable, e)
            ==> e.code_spec() == ErrorCode::ByteRangeNotSatisfiable && status_of(e.code_spec())
            == 416),
        status == 404 ==> !status_served(status) && (served_status_refusal(status, unavailable, e)
            ==> e.code_spec() == unavailable),
        500 <= status <= 599 ==> !status_served(status) && (served_status_refusal(
            status,
            unavailable,
            e,
        ) ==> status_of(e.code_spec()) == 500),
        200 <= status <= 399 ==> status_served(status),
{
}

/// Every served file says not to sniff its type and that it can be read in byte ranges, and
/// carries its type, disposition and validators.
pub proof fn law_served_files_carry_their_headers(
    content_type: Seq<char>,
    disposition: Seq<char>,
    etag: Seq<char>,
    last_modified: Seq<char>,
)
    ensures
        media_headers_spec(content_type, disposition, etag, last_modified).contains(
            ("x-content-type-options"@, "nosniff"@),
        ),
        media_headers_spec(content_type, disposition, etag, last_modified).contains(
            ("accept-ranges"@, "bytes"@),
        ),
        media_headers_spec(content_type, disposition, etag, last_modified).contains(
            ("content-type"@, content_type),
        ),
        media_headers_spec(content_type, disposition, etag, last_modified).contains(
            ("content-disposition"@, disposition),
        ),
        media_headers_spec(content_type, disposition, etag, last_modified).contains(("etag"@, etag)),
        media_headers_spec(content_type, disposition, etag, last_modified).contains(
            ("last-modified"@, last_modified),
        ),
{
    let h = media_headers_spec(content_type, disposition, etag, last_modified);
    assert(h[0] == ("content-type"@, content_type));
    assert(h[1] == ("content-disposition"@, disposition));
    assert(h[2] == ("etag"@, etag));
    assert(h[3] == ("last-modified"@, last_modified));
    assert(h[4] == ("x-content-type-options"@, "nosniff"@));
    assert(h[5] == ("accept-ranges"@, "bytes"@));
}

} // verus!
