//! Content negotiation: which representation a request asks for, from the `format` query
//! parameter, the `Accept` header or the `Content-Type` header.

use vstd::prelude::*;

use crate::error::{field_details, ApiError};
use crate::error_codes::ErrorCode;
use crate::text::{
    ascii_lower_seq, contains, eq_ignore_ascii_case, eq_ignoring_ascii_case, occurs_in, split,
    split_on, str_eq, strings_view, to_ascii_lowercase, trim, trim_spec,
};

verus! {

broadcast use vstd::string::group_string_axioms;

/// The representation of a calendar response.
#[derive(Debug, Clone, Copy, PartialEq, Eq, Structural)]
pub enum ResponseFormat {
    Json,
    Ics,
    CalDav,
}

impl ResponseFormat {
    pub open spec fn content_type_spec(self) -> Seq<char> {
        match self {
            ResponseFormat::Json => "application/json"@,
            ResponseFormat::Ics => "text/calendar; charset=utf-8"@,
            ResponseFormat::CalDav => "application/caldav+xml; charset=utf-8"@,
        }
    }

    /// The `Content-Type` of a response in this representation.
    pub fn content_type(self) -> (t: &'static str)
        ensures
            t@ == self.content_type_spec(),
    {
        match self {
            ResponseFormat::Json => "application/json",
            ResponseFormat::Ics => "text/calendar; charset=utf-8",
            ResponseFormat::CalDav => "application/caldav+xml; charset=utf-8",
        }
    }
}

/// The representation a `format` query value names, in any ASCII case.
pub open spec fn format_named(value: Seq<char>) -> Option<ResponseFormat> {
    let l = ascii_lower_seq(value);
    if l == "json"@ {
        Some(ResponseFormat::Json)
    } else if l == "ics"@ || l == "icalendar"@ {
        Some(ResponseFormat::Ics)
    } else if l == "caldav"@ || l == "xml"@ {
        Some(ResponseFormat::CalDav)
    } else {
        None
    }
}

/// The media types an `Accept` header lists, in order: each comma-separated entry up to its
/// first `;`, trimmed.
pub open spec fn accept_media_types(accept: Seq<char>) -> Seq<Seq<char>> {
    split_on(accept, ',').map_values(|entry: Seq<char>| trim_spec(split_on(entry, ';')[0]))
}

/// The representation one media type asks for, if any.
pub open spec fn media_format(media: Seq<char>) -> Option<ResponseFormat> {
    if eq_ignoring_ascii_case(media, "application/caldav+xml"@) {
        Some(ResponseFormat::CalDav)
    } else if eq_ignoring_ascii_case(media, "text/calendar"@) {
        Some(ResponseFormat::Ics)
    } else if eq_ignoring_ascii_case(media, "application/json"@) || media == "*/*"@ {
        Some(ResponseFormat::Json)
    } else {
        None
    }
}

/// The representation the first recognised media type asks for.
pub open spec fn first_format(media: Seq<Seq<char>>) -> Option<ResponseFormat>
    decreases media.len(),
{
    if media.len() == 0 {
        None
    } else {
        match media_format(media[0]) {
            Some(f) => Some(f),
            None => first_format(media.drop_first()),
        }
    }
}

/// The representation a request asks for: the `format` parameter when given, else the first
/// recognised `Accept` entry, else JSON. `None` where the `format` parameter is unknown.
pub open spec fn negotiated_format(accept: Option<Seq<char>>, format: Option<Seq<char>>) -> Option<
    ResponseFormat,
> {
    match format {
        Some(f) => format_named(f),
        None => match accept {
            Some(a) => match first_format(accept_media_types(a)) {
                Some(f) => Some(f),
                None => Some(ResponseFormat::Json),
            },
            None => Some(ResponseFormat::Json),
        },
    }
}

/// The error for an unknown `format` value.
pub open spec fn is_format_error(e: ApiError) -> bool {
    e.is_detailed(
        ErrorCode::ValidationError,
        "format must be one of json, ics, or caldav"@,
        field_details("format"@),
    )
}

/// The optional text, viewed.
pub open spec fn opt_str_view(s: Option<&str>) -> Option<Seq<char>> {
    match s {
        Some(t) => Some(t@),
        None => None,
    }
}

/// The media types an `Accept` header lists, in order, trimmed and without parameters.
pub fn accept_media(accept: &str) -> (media: Vec<String>)
    ensures
        strings_view(media@) == accept_media_types(accept@),
{
    let entries = split(accept, ',');
    let ghost entries_view = split_on(accept@, ',');
    let mut media: Vec<String> = Vec::new();
    let mut i: usize = 0;
    while i < entries.len()
        invariant
            i <= entries.len(),
            strings_view(entries@) == entries_view,
            entries_view == split_on(accept@, ','),
            strings_view(media@) == entries_view.take(i as int).map_values(
                |entry: Seq<char>| trim_spec(split_on(entry, ';')[0]),
            ),
        decreases entries.len() - i,
    {
        let pieces = split(entries[i].as_str(), ';');
        let m = String::from_str(trim(pieces[0].as_str()));
        proof {
            assert(entries_view[i as int] == entries@[i as int]@);
            assert(pieces@[0]@ == strings_view(pieces@)[0]);
            assert(m@ == trim_spec(split_on(entries_view[i as int], ';')[0]));
        }
        let ghost before = media@;
        media.push(m);
        proof {
            assert(strings_view(media@) =~= strings_view(before).push(m@));
            assert(entries_view.take(i + 1) =~= entries_view.take(i as int).push(
                entries_view[i as int],
            ));
            assert(strings_view(media@) =~= entries_view.take(i + 1).map_values(
                |entry: Seq<char>| trim_spec(split_on(entry, ';')[0]),
            ));
        }
        i = i + 1;
    }
    proof {
        assert(entries_view.take(i as int) =~= entries_view);
    }
    media
}

fn media_format_of(media: &str) -> (f: Option<ResponseFormat>)
    ensures
        f == media_format(media@),
{
    if eq_ignore_ascii_case(media, "application/caldav+xml") {
        Some(ResponseFormat::CalDav)
    } else if eq_ignore_ascii_case(media, "text/calendar") {
        Some(ResponseFormat::Ics)
    } else if eq_ignore_ascii_case(media, "application/json") || str_eq(media, "*/*") {
        Some(ResponseFormat::Json)
    } else {
        None
    }
}

fn format_named_exec(value: &str) -> (f: Option<ResponseFormat>)
    ensures
        f == format_named(value@),
{
    let lower = to_ascii_lowercase(value);
    let l = lower.as_str();
    if str_eq(l, "json") {
        Some(ResponseFormat::Json)
    } else if str_eq(l, "ics") || str_eq(l, "icalendar") {
        Some(ResponseFormat::Ics)
    } else if str_eq(l, "caldav") || str_eq(l, "xml") {
        Some(ResponseFormat::CalDav)
    } else {
        None
    }
}

/// The representation a response should take: an explicit `format` parameter wins and must
/// be known; otherwise the first `Accept` entry that names CalDAV, iCalendar, JSON or `*/*`;
/// otherwise JSON.
pub fn resolve_format(accept: Option<&str>, format_query: Option<&str>) -> (r: Result<
    ResponseFormat,
    ApiError,
>)
    ensures
        r is Ok <==> negotiated_format(opt_str_view(accept), opt_str_view(format_query)) is Some,
        r matches Ok(f) ==> negotiated_format(opt_str_view(accept), opt_str_view(format_query))
            == Some(f),
        r matches Err(e) ==> is_format_error(e),
{
    if let Some(format) = format_query {
        return match format_named_exec(format) {
            Some(f) => Ok(f),
            None => Err(
                ApiError::validation_with_details(
                    String::from_str("format must be one of json, ics, or caldav"),
                    crate::error::field_detail("format"),
                ),
            ),
        };
    }
    if let Some(a) = accept {
        let media = accept_media(a);
        let ghost all = strings_view(media@);
        let mut i: usize = 0;
        proof {
            assert(all.skip(0) =~= all);
        }
        while i < media.len()
            invariant
                i <= media.len(),
                all == strings_view(media@),
                all == accept_media_types(a@),
                first_format(all) == first_format(all.skip(i as int)),
                format_query is None,
                accept == Some(a),
            decreases media.len() - i,
        {
            proof {
                assert(all.skip(i as int).drop_first() =~= all.skip(i + 1));
                assert(all.skip(i as int)[0] == media@[i as int]@);
                assert(all.skip(i as int).len() > 0);
            }
            match media_format_of(media[i].as_str()) {
                Some(f) => return Ok(f),
                None => {},
            }
            i = i + 1;
        }
        proof {
            assert(all.skip(i as int).len() == 0);
        }
    }
    Ok(ResponseFormat::Json)
}

/// The representation a request body declares by its `Content-Type`.
pub open spec fn declared_format(content_type: Option<Seq<char>>) -> Option<ResponseFormat> {
    let ct = match content_type {
        Some(c) => c,
        None => Seq::<char>::empty(),
    };
    if occurs_in(ct, "caldav"@) {
        Some(ResponseFormat::CalDav)
    } else if occurs_in(ct, "text/calendar"@) {
        Some(ResponseFormat::Ics)
    } else {
        None
    }
}

/// The error for a body that is neither iCalendar nor CalDAV.
pub open spec fn is_content_type_error(e: ApiError) -> bool {
    e.is_detailed(
        ErrorCode::ValidationError,
        "Content-Type must be text/calendar or application/caldav+xml"@,
        field_details("content-type"@),
    )
}

/// The representation of a calendar request body: CalDAV where the `Content-Type` mentions
/// `caldav`, iCalendar where it mentions `text/calendar`; anything else is refused.
pub fn parse_request_format(content_type: Option<&str>) -> (r: Result<ResponseFormat, ApiError>)
    ensures
        r is Ok <==> declared_format(opt_str_view(content_type)) is Some,
        r matches Ok(f) ==> declared_format(opt_str_view(content_type)) == Some(f),
        r matches Err(e) ==> is_content_type_error(e),
{
    let ct = match content_type {
        Some(c) => c,
        None => "",
    };
    proof {
        reveal_strlit("");
        assert(ct@ =~= match opt_str_view(content_type) {
            Some(c) => c,
            None => Seq::<char>::empty(),
        });
    }
    if contains(ct, "caldav") {
        return Ok(ResponseFormat::CalDav);
    }
    if contains(ct, "text/calendar") {
        return Ok(ResponseFormat::Ics);
    }
    Err(
        ApiError::validation_with_details(
            String::from_str("Content-Type must be text/calendar or application/caldav+xml"),
            crate::error::field_detail("content-type"),
        ),
    )
}

/// The representation of a contacts response.
#[derive(Debug, Clone, Copy, PartialEq, Eq, Structural)]
pub enum ContactFormat {
    Json,
    VCard,
    CardDav,
}

/// One of the media types is `mime`, in any ASCII case.
pub open spec fn lists_media(media: Seq<Seq<char>>, mime: Seq<char>) -> bool {
    exists|i: int| 0 <= i < media.len() && eq_ignoring_ascii_case(#[trigger] media[i], mime)
}

/// The `Accept` header lists `mime`, in any ASCII case.
pub open spec fn accepts_media(accept: Option<Seq<char>>, mime: Seq<char>) -> bool {
    match accept {
        Some(a) => lists_media(accept_media_types(a), mime),
        None => false,
    }
}

/// Whether the `Accept` header lists `mime`, in any ASCII case.
pub fn header_accepts(accept: Option<&str>, mime: &str) -> (r: bool)
    ensures
        r == accepts_media(opt_str_view(accept), mime@),
{
    match accept {
        None => false,
        Some(a) => {
            let media = accept_media(a);
            let mut i: usize = 0;
            while i < media.len()
                invariant
                    i <= media.len(),
                    strings_view(media@) == accept_media_types(a@),
                    accept == Some(a),
                    forall|k: int|
                        0 <= k < i ==> !eq_ignoring_ascii_case(
                            #[trigger] accept_media_types(a@)[k],
                            mime@,
                        ),
                decreases media.len() - i,
            {
                proof {
                    assert(accept_media_types(a@)[i as int] == media@[i as int]@);
                }
                if eq_ignore_ascii_case(media[i].as_str(), mime) {
                    assert(accept_media_types(a@).len() == media@.len());
                    assert(eq_ignoring_ascii_case(accept_media_types(a@)[i as int], mime@));
                    assert(opt_str_view(accept) == Some(a@));
                    return true;
                }
                i = i + 1;
            }
            false
        },
    }
}

/// The contacts representation a request asks for: CardDAV, then vCard, then JSON.
pub open spec fn preferred_contact_format(accept: Option<Seq<char>>) -> ContactFormat {
    if accepts_media(accept, "application/carddav+xml"@) {
        ContactFormat::CardDav
    } else if accepts_media(accept, "text/vcard"@) || accepts_media(accept, "text/x-vcard"@) {
        ContactFormat::VCard
    } else {
        ContactFormat::Json
    }
}

/// The contacts representation a request asks for by its `Accept` header.
pub fn preferred_format(accept: Option<&str>) -> (f: ContactFormat)
    ensures
        f == preferred_contact_format(opt_str_view(accept)),
{
    if header_accepts(accept, "application/carddav+xml") {
        ContactFormat::CardDav
    } else if header_accepts(accept, "text/vcard") || header_accepts(accept, "text/x-vcard") {
        ContactFormat::VCard
    } else {
        ContactFormat::Json
    }
}

/// The media type of a contact photo, by its image type in any ASCII case.
pub open spec fn image_mime(image_type: Seq<char>) -> Seq<char> {
    let l = ascii_lower_seq(image_type);
    if l == "jpeg"@ || l == "jpg"@ {
        "image/jpeg"@
    } else if l == "png"@ {
        "image/png"@
    } else if l == "gif"@ {
        "image/gif"@
    } else if l == "heic"@ {
        "image/heic"@
    } else {
        "application/octet-stream"@
    }
}

/// The media type of a contact photo.
pub fn mime_from_image_type(image_type: &str) -> (mime: &'static str)
    ensures
        mime@ == image_mime(image_type@),
{
    let lower = to_ascii_lowercase(image_type);
    let l = lower.as_str();
    if str_eq(l, "jpeg") || str_eq(l, "jpg") {
        "image/jpeg"
    } else if str_eq(l, "png") {
        "image/png"
    } else if str_eq(l, "gif") {
        "image/gif"
    } else if str_eq(l, "heic") {
        "image/heic"
    } else {
        "application/octet-stream"
    }
}

/// The media type of an event attachment, by its uniform type identifier.
pub open spec fn attachment_mime(format: Seq<char>) -> Seq<char> {
    if format == "com.adobe.pdf"@ || format == "public.pdf"@ {
        "application/pdf"@
    } else if format == "public.png"@ {
        "image/png"@
    } else if format == "public.jpeg"@ {
        "image/jpeg"@
    } else {
        "application/octet-stream"@
    }
}

/// The media type of an event attachment.
pub fn mime_from_format(format: &str) -> (mime: String)
    ensures
        mime@ == attachment_mime(format@),
{
    if str_eq(format, "com.adobe.pdf") || str_eq(format, "public.pdf") {
        String::from_str("application/pdf")
    } else if str_eq(format, "public.png") {
        String::from_str("image/png")
    } else if str_eq(format, "public.jpeg") {
        String::from_str("image/jpeg")
    } else {
        String::from_str("application/octet-stream")
    }
}

// ---------------------------------------------------------------------------------------------
// Laws
// ---------------------------------------------------------------------------------------------

/// The `format` parameter alone decides the representation, whatever the `Accept` header
/// says, and in any ASCII case: `json` gives JSON, `ics` and `icalendar` give iCalendar,
/// `caldav` and `xml` give CalDAV, and any other value is refused.
pub proof fn law_format_parameter_decides(accept: Option<Seq<char>>, format: Seq<char>)
    ensures
        ascii_lower_seq(format) == "json"@ ==> negotiated_format(accept, Some(format)) == Some(
            ResponseFormat::Json,
        ),
        ascii_lower_seq(format) == "ics"@ ==> negotiated_format(accept, Some(format)) == Some(
            ResponseFormat::Ics,
        ),
        ascii_lower_seq(format) == "icalendar"@ ==> negotiated_format(accept, Some(format))
            == Some(ResponseFormat::Ics),
        ascii_lower_seq(format) == "caldav"@ ==> negotiated_format(accept, Some(format)) == Some(
            ResponseFormat::CalDav,
        ),
        ascii_lower_seq(format) == "xml"@ ==> negotiated_format(accept, Some(format)) == Some(
            ResponseFormat::CalDav,
        ),
        ascii_lower_seq(format) != "json"@ && ascii_lower_seq(format) != "ics"@ && ascii_lower_seq(
            format,
        ) != "icalendar"@ && ascii_lower_seq(format) != "caldav"@ && ascii_lower_seq(format)
            != "xml"@ ==> negotiated_format(accept, Some(format)) is None,
{
    reveal_strlit("json");
    reveal_strlit("ics");
    reveal_strlit("icalendar");
    reveal_strlit("caldav");
    reveal_strlit("xml");
    let l = ascii_lower_seq(format);
    assert("json"@.len() == 4 && "ics"@.len() == 3 && "icalendar"@.len() == 9);
    assert("caldav"@.len() == 6 && "xml"@.len() == 3);
    assert("xml"@[0] == 'x' && "ics"@[0] == 'i');
}

/// Two `format` values that differ only in ASCII case ask for the same representation.
pub proof fn law_format_parameter_ignores_case(
    accept: Option<Seq<char>>,
    first: Seq<char>,
    second: Seq<char>,
)
    requires
        eq_ignoring_ascii_case(first, second),
    ensures
        negotiated_format(accept, Some(first)) == negotiated_format(accept, Some(second)),
{
}

/// The three representations are told apart: each of `json`, `ics` and `caldav` gives a
/// representation the others do not.
pub proof fn law_format_names_are_distinct(accept: Option<Seq<char>>)
    ensures
        negotiated_format(accept, Some("json"@)) != negotiated_format(accept, Some("ics"@)),
        negotiated_format(accept, Some("json"@)) != negotiated_format(accept, Some("caldav"@)),
        negotiated_format(accept, Some("ics"@)) != negotiated_format(accept, Some("caldav"@)),
        negotiated_format(accept, Some("caldav"@)) is Some,
        negotiated_format(accept, Some("ics"@)) is Some,
        negotiated_format(accept, Some("json"@)) is Some,
{
    reveal_strlit("json");
    reveal_strlit("ics");
    reveal_strlit("caldav");
    law_format_parameter_decides(accept, "json"@);
    law_format_parameter_decides(accept, "ics"@);
    law_format_parameter_decides(accept, "caldav"@);
    assert(ascii_lower_seq("json"@) =~= "json"@);
    assert(ascii_lower_seq("ics"@) =~= "ics"@);
    assert(ascii_lower_seq("caldav"@) =~= "caldav"@);
}

} // verus!
