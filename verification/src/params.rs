//! Query and path parameters of the API, and their validation.

use vstd::prelude::*;
use vstd::utf8::encode_utf8;

use crate::error::{
    details_view, field_details, number_entry, text_entry, ApiError,
    DetailEntry, DetailValueView,
};
use crate::error_codes::{status_of, ErrorCode};
use crate::floats::{double_value, double_value_of};
use crate::filters::{
    opt_view, ContentTypeFilter, DirectionFilter, EventFilters, FolderIdFilter, ListIdFilter,
    MessageFilters, NoteFilters, ReminderFilters, TransportFilter,
};
use crate::text::{
    ascii_lower_seq, chars_of, has_prefix, is_hex_digit, parse_i64, parse_i64_spec, starts_with,
    to_ascii_lowercase, trim, trim_spec, utf8_len_exceeds,
};

verus! {

broadcast use vstd::string::group_string_axioms;

/// Version tag that every pagination cursor carries.
pub const CURSOR_VERSION: &'static str = "v1";

/// Longest accepted search query, in characters.
pub const MAX_SEARCH_QUERY_LEN: usize = 256;

/// Page size used when a request names none.
pub const DEFAULT_PAGE_LIMIT: u32 = 50;

/// Largest page size a request may ask for.
pub const MAX_PAGE_LIMIT: u32 = 200;

/// Seconds between the Unix epoch and the Apple (Core Data) epoch, 2001-01-01T00:00:00Z.
pub const APPLE_EPOCH_OFFSET_SECS: i64 = 978_307_200;

// ---------------------------------------------------------------------------------------------
// Limits
// ---------------------------------------------------------------------------------------------

/// The page size a request asks for.
pub open spec fn effective_limit(limit: Option<u32>) -> u32 {
    match limit {
        Some(l) => l,
        None => DEFAULT_PAGE_LIMIT,
    }
}

/// The requested page size lies in `1..=200`.
pub open spec fn limit_in_range(limit: Option<u32>) -> bool {
    1 <= effective_limit(limit) <= MAX_PAGE_LIMIT
}

pub open spec fn limit_details() -> Seq<(Seq<char>, DetailValueView)> {
    seq![
        ("field"@, DetailValueView::Text("limit"@)),
        ("minimum"@, DetailValueView::Number(1)),
        ("maximum"@, DetailValueView::Number(200)),
        ("default"@, DetailValueView::Number(50)),
    ]
}

/// The error a request with an out-of-range limit gets.
pub open spec fn is_limit_error(e: ApiError) -> bool {
    e.is_detailed(
        ErrorCode::ValidationError,
        "limit must be between 1 and 200"@,
        limit_details(),
    )
}

/// Checks a requested page size, defaulting to 50.
pub fn validate_limit(limit: Option<u32>) -> (r: Result<u32, ApiError>)
    ensures
        r is Ok <==> limit_in_range(limit),
        r matches Ok(l) ==> l == effective_limit(limit),
        r matches Err(e) ==> is_limit_error(e),
{
    let l = match limit {
        Some(l) => l,
        None => DEFAULT_PAGE_LIMIT,
    };
    if l < 1 || l > MAX_PAGE_LIMIT {
        let mut details: Vec<DetailEntry> = Vec::new();
        details.push(text_entry("field", "limit"));
        details.push(number_entry("minimum", 1));
        details.push(number_entry("maximum", 200));
        details.push(number_entry("default", 50));
        assert(details_view(details@) =~= limit_details());
        return Err(
            ApiError::validation_with_details(
                String::from_str("limit must be between 1 and 200"),
                details,
            ),
        );
    }
    Ok(l)
}

// ---------------------------------------------------------------------------------------------
// Cursors
// ---------------------------------------------------------------------------------------------

/// The cursor, when present, carries the `v1.` version prefix.
pub open spec fn cursor_well_prefixed(cursor: Option<String>) -> bool {
    match cursor {
        Some(c) => has_prefix(c@, "v1."@),
        None => true,
    }
}

pub open spec fn cursor_prefix_details() -> Seq<(Seq<char>, DetailValueView)> {
    seq![
        ("field"@, DetailValueView::Text("cursor"@)),
        ("expected_prefix"@, DetailValueView::Text("v1."@)),
    ]
}

/// The error a request with an unversioned cursor gets.
pub open spec fn is_cursor_prefix_error(e: ApiError) -> bool {
    e.is_detailed(
        ErrorCode::ValidationError,
        "cursor must start with `v1.`"@,
        cursor_prefix_details(),
    )
}

/// The details `{"field": "cursor", "expected_prefix": "v1."}`.
pub fn cursor_prefix_detail() -> (details: Vec<DetailEntry>)
    ensures
        details_view(details@) == cursor_prefix_details(),
{
    let mut details: Vec<DetailEntry> = Vec::new();
    details.push(text_entry("field", "cursor"));
    details.push(text_entry("expected_prefix", "v1."));
    assert(details_view(details@) =~= cursor_prefix_details());
    details
}

/// Checks that a cursor, when given, carries the version prefix.
pub fn validate_cursor(cursor: &Option<String>) -> (r: Result<Option<&str>, ApiError>)
    ensures
        r is Ok <==> cursor_well_prefixed(*cursor),
        r matches Ok(c) ==> (c is None <==> cursor is None),
        r matches Ok(Some(c)) ==> cursor matches Some(given) && c@ == given@,
        r matches Err(e) ==> is_cursor_prefix_error(e),
{
    match cursor {
        None => Ok(None),
        Some(c) => {
            if starts_with(c.as_str(), "v1.") {
                Ok(Some(c.as_str()))
            } else {
                Err(
                    ApiError::validation_with_details(
                        String::from_str("cursor must start with `v1.`"),
                        cursor_prefix_detail(),
                    ),
                )
            }
        },
    }
}

// ---------------------------------------------------------------------------------------------
// Text parameters
// ---------------------------------------------------------------------------------------------

/// The trimmed text of an optional parameter; `None` when absent or blank.
pub open spec fn present_trimmed(s: Option<String>) -> Option<Seq<char>> {
    match s {
        Some(t) => if trim_spec(t@).len() == 0 {
            None
        } else {
            Some(trim_spec(t@))
        },
        None => None,
    }
}

/// The trimmed text of an optional parameter; `None` when absent or blank.
pub fn trimmed_nonempty(s: &Option<String>) -> (r: Option<&str>)
    ensures
        r is Some <==> present_trimmed(*s) is Some,
        r matches Some(t) ==> present_trimmed(*s) == Some(t@),
{
    match s {
        None => None,
        Some(t) => {
            let trimmed = trim(t.as_str());
            if trimmed.unicode_len() == 0 {
                None
            } else {
                Some(trimmed)
            }
        },
    }
}

/// The search query, trimmed, is longer than 256 characters.
pub open spec fn query_too_long(q: Option<String>) -> bool {
    present_trimmed(q) matches Some(t) && t.len() > MAX_SEARCH_QUERY_LEN
}

pub open spec fn query_details() -> Seq<(Seq<char>, DetailValueView)> {
    seq![("field"@, DetailValueView::Text("q"@)), ("maximum"@, DetailValueView::Number(256))]
}

/// The error a request with an overlong search query gets.
pub open spec fn is_query_error(e: ApiError) -> bool {
    e.is_detailed(ErrorCode::ValidationError, "q must be at most 256 characters"@, query_details())
}

/// Normalizes a search query: blank becomes absent; over 256 characters is refused.
pub fn validate_query(q: &Option<String>) -> (r: Result<Option<String>, ApiError>)
    ensures
        r is Err <==> query_too_long(*q),
        r matches Ok(v) ==> opt_view(v) == present_trimmed(*q),
        r matches Err(e) ==> is_query_error(e),
{
    match trimmed_nonempty(q) {
        None => Ok(None),
        Some(t) => {
            if t.unicode_len() > MAX_SEARCH_QUERY_LEN {
                let mut details: Vec<DetailEntry> = Vec::new();
                details.push(text_entry("field", "q"));
                details.push(number_entry("maximum", 256));
                assert(details_view(details@) =~= query_details());
                Err(
                    ApiError::validation_with_details(
                        String::from_str("q must be at most 256 characters"),
                        details,
                    ),
                )
            } else {
                Ok(Some(String::from_str(t)))
            }
        },
    }
}

/// An owned copy of the trimmed text of an optional parameter; `None` when absent or blank.
pub fn owned_trimmed(s: &Option<String>) -> (r: Option<String>)
    ensures
        opt_view(r) == present_trimmed(*s),
{
    match trimmed_nonempty(s) {
        None => None,
        Some(t) => Some(String::from_str(t)),
    }
}

/// A 36-character string of ASCII hex digits and hyphens.
pub open spec fn is_uuid_spec(s: Seq<char>) -> bool {
    &&& encode_utf8(s).len() == 36
    &&& forall|i: int| 0 <= i < s.len() ==> is_hex_digit(#[trigger] s[i]) || s[i] == '-'
}

/// Tests the loose UUID shape the API accepts for list identifiers.
pub fn is_uuid(value: &str) -> (r: bool)
    ensures
        r == is_uuid_spec(value@),
{
    if utf8_len_exceeds(value, 36) || !utf8_len_exceeds(value, 35) {
        return false;
    }
    let chars = chars_of(value);
    let mut i: usize = 0;
    while i < chars.len()
        invariant
            i <= chars.len(),
            chars@ == value@,
            forall|k: int| 0 <= k < i ==> is_hex_digit(#[trigger] value@[k]) || value@[k] == '-',
        decreases chars.len() - i,
    {
        let c = chars[i];
        if !(('0' <= c && c <= '9') || ('a' <= c && c <= 'f') || ('A' <= c && c <= 'F') || c
            == '-') {
            return false;
        }
        i = i + 1;
    }
    true
}

// ---------------------------------------------------------------------------------------------
// Timestamps
// ---------------------------------------------------------------------------------------------

/// The instant an RFC 3339 timestamp denotes, as chrono's `DateTime::parse_from_rfc3339`
/// reads it: Unix seconds and the nanoseconds past that second. `None` when chrono refuses
/// the text.
pub uninterp spec fn rfc3339_instant(text: Seq<char>) -> Option<(i64, u32)>;

/// Calls chrono's `DateTime::parse_from_rfc3339` and reads `timestamp()` and
/// `timestamp_subsec_nanos()` of the result. The contract claims only that the result is the
/// one `rfc3339_instant` names for the text; nothing is claimed of which texts chrono accepts.
#[verifier::external_body]
fn parse_rfc3339(text: &str) -> (r: Option<(i64, u32)>)
    ensures
        r == rfc3339_instant(text@),
{
    match chrono::DateTime::parse_from_rfc3339(text) {
        Ok(parsed) => Some((parsed.timestamp(), parsed.timestamp_subsec_nanos())),
        Err(_) => None,
    }
}

/// Nanoseconds since the Apple epoch of a Unix instant.
pub open spec fn apple_nanos(secs: i64, nanos: u32) -> int {
    (secs - APPLE_EPOCH_OFFSET_SECS) * 1_000_000_000 + nanos
}

/// Apple epoch nanoseconds of the instant, and every step of computing them, fit in an `i64`.
pub open spec fn apple_nanos_fit(secs: i64, nanos: u32) -> bool {
    &&& i64::MIN <= (secs - APPLE_EPOCH_OFFSET_SECS) * 1_000_000_000
    &&& apple_nanos(secs, nanos) <= i64::MAX
}

/// The optional timestamp text, when it parses, denotes an instant whose Apple epoch
/// nanoseconds fit in an `i64`.
pub open spec fn nanos_representable(text: Option<String>) -> bool {
    match text {
        Some(t) => match rfc3339_instant(t@) {
            Some((secs, nanos)) => apple_nanos_fit(secs, nanos),
            None => true,
        },
        None => true,
    }
}

/// The optional timestamp text is present and chrono refuses it.
pub open spec fn rfc3339_refused(text: Option<String>) -> bool {
    text matches Some(t) && rfc3339_instant(t@) is None
}

/// Apple epoch nanoseconds of an optional timestamp that parses.
pub open spec fn opt_apple_nanos(text: Option<String>) -> Option<int> {
    match text {
        Some(t) => match rfc3339_instant(t@) {
            Some((secs, nanos)) => Some(apple_nanos(secs, nanos)),
            None => None,
        },
        None => None,
    }
}

/// The error for a timestamp parameter that is not RFC 3339.
pub open spec fn is_rfc3339_error(e: ApiError, field: Seq<char>) -> bool {
    e.is_detailed(ErrorCode::ValidationError, "timestamp must be RFC 3339"@, field_details(field))
}

fn parse_rfc3339_to_apple_nanos(value: &str, field: &str) -> (r: Result<i64, ApiError>)
    requires
        match rfc3339_instant(value@) {
            Some((secs, nanos)) => apple_nanos_fit(secs, nanos),
            None => true,
        },
    ensures
        r is Ok <==> rfc3339_instant(value@) is Some,
        r matches Ok(v) ==> rfc3339_instant(value@) matches Some((secs, nanos)) && v
            == apple_nanos(secs, nanos),
        r matches Err(e) ==> is_rfc3339_error(e, field@),
{
    match parse_rfc3339(value) {
        None => Err(
            ApiError::validation_with_details(
                String::from_str("timestamp must be RFC 3339"),
                crate::error::field_detail(field),
            ),
        ),
        Some((secs, nanos)) => Ok((secs - APPLE_EPOCH_OFFSET_SECS) * 1_000_000_000 + nanos as i64),
    }
}

/// Core Data epoch seconds of a timestamp given as Unix seconds or RFC 3339.
pub open spec fn core_data_secs_of(text: Seq<char>) -> Option<int> {
    match parse_i64_spec(text) {
        Some(unix) => Some(unix - APPLE_EPOCH_OFFSET_SECS),
        None => match rfc3339_instant(text) {
            Some((secs, _)) => Some(secs - APPLE_EPOCH_OFFSET_SECS),
            None => None,
        },
    }
}

/// The optional timestamp text, when it parses, gives Core Data seconds that fit in an `i64`.
pub open spec fn core_secs_representable(text: Option<String>) -> bool {
    match text {
        Some(t) => match core_data_secs_of(t@) {
            Some(v) => i64::MIN <= v,
            None => true,
        },
        None => true,
    }
}

/// The optional timestamp text is present and is neither Unix seconds nor RFC 3339.
pub open spec fn core_secs_refused(text: Option<String>) -> bool {
    text matches Some(t) && core_data_secs_of(t@) is None
}

/// Core Data seconds of an optional timestamp that parses.
pub open spec fn opt_core_secs(text: Option<String>) -> Option<int> {
    match text {
        Some(t) => core_data_secs_of(t@),
        None => None,
    }
}

/// Core Data seconds of an optional timestamp that parses, as the nearest double holds them.
pub open spec fn opt_double_core_secs(text: Option<String>) -> Option<int> {
    match opt_core_secs(text) {
        Some(v) => Some(double_value(v)),
        None => None,
    }
}

/// The error for a timestamp parameter that is neither Unix seconds nor RFC 3339.
pub open spec fn is_core_timestamp_error(e: ApiError, field: Seq<char>) -> bool {
    e.is_detailed(
        ErrorCode::ValidationError,
        "timestamp must be RFC 3339 or Unix seconds"@,
        field_details(field),
    )
}

/// Converts a Unix-seconds or RFC 3339 timestamp to Core Data epoch seconds.
fn parse_rfc3339_to_core_data_secs(value: &str, field: &str) -> (r: Result<i64, ApiError>)
    requires
        core_data_secs_of(value@) matches Some(v) ==> i64::MIN <= v,
    ensures
        r is Ok <==> core_data_secs_of(value@) is Some,
        r matches Ok(v) ==> core_data_secs_of(value@) == Some(v as int),
        r matches Err(e) ==> is_core_timestamp_error(e, field@),
{
    if let Some(unix) = parse_i64(value) {
        return Ok(unix - APPLE_EPOCH_OFFSET_SECS);
    }
    match parse_rfc3339(value) {
        None => Err(
            ApiError::validation_with_details(
                String::from_str("timestamp must be RFC 3339 or Unix seconds"),
                crate::error::field_detail(field),
            ),
        ),
        Some((secs, _)) => Ok(secs - APPLE_EPOCH_OFFSET_SECS),
    }
}

/// Core Data seconds of an optional timestamp parameter.
fn optional_core_secs(value: &Option<String>, field: &str) -> (r: Result<Option<i64>, ApiError>)
    requires
        core_secs_representable(*value),
    ensures
        r is Err <==> core_secs_refused(*value),
        r matches Ok(v) ==> (v matches Some(x) ==> opt_core_secs(*value) == Some(x as int)) && (
        v is None <==> value is None),
        r matches Err(e) ==> is_core_timestamp_error(e, field@),
{
    match value {
        None => Ok(None),
        Some(t) => match parse_rfc3339_to_core_data_secs(t.as_str(), field) {
            Ok(v) => Ok(Some(v)),
            Err(e) => Err(e),
        },
    }
}

/// Core Data seconds of an optional timestamp, held as the nearest double holds them.
fn optional_double_core_secs(value: &Option<String>, field: &str) -> (r: Result<
    Option<i64>,
    ApiError,
>)
    requires
        core_secs_representable(*value),
    ensures
        r is Err <==> core_secs_refused(*value),
        r matches Ok(v) ==> opt_int(v) == opt_double_core_secs(*value),
        r matches Err(e) ==> is_core_timestamp_error(e, field@),
{
    match optional_core_secs(value, field) {
        Ok(Some(secs)) => {
            proof {
                match value {
                    Some(t) => match parse_i64_spec(t@) {
                        Some(unix) => assert(secs <= i64::MAX - APPLE_EPOCH_OFFSET_SECS),
                        None => {},
                    },
                    None => {},
                }
            }
            Ok(Some(double_value_of(secs)))
        },
        Ok(None) => Ok(None),
        Err(e) => Err(e),
    }
}

/// The details `{"field": field, "related_field": related}`.
pub open spec fn related_details(field: Seq<char>, related: Seq<char>) -> Seq<
    (Seq<char>, DetailValueView),
> {
    seq![("field"@, DetailValueView::Text(field)), ("related_field"@, DetailValueView::Text(related))]
}

fn related_detail(field: &str, related: &str) -> (details: Vec<DetailEntry>)
    ensures
        details_view(details@) == related_details(field@, related@),
{
    let mut details: Vec<DetailEntry> = Vec::new();
    details.push(text_entry("field", field));
    details.push(text_entry("related_field", related));
    assert(details_view(details@) =~= related_details(field@, related@));
    details
}


/// Apple epoch nanoseconds of an optional timestamp parameter.
fn optional_apple_nanos(value: &Option<String>, field: &str) -> (r: Result<Option<i64>, ApiError>)
    requires
        nanos_representable(*value),
    ensures
        r is Err <==> rfc3339_refused(*value),
        r matches Ok(v) ==> opt_int(v) == opt_apple_nanos(*value),
        r matches Err(e) ==> is_rfc3339_error(e, field@),
{
    match value {
        None => Ok(None),
        Some(t) => match parse_rfc3339_to_apple_nanos(t.as_str(), field) {
            Ok(v) => Ok(Some(v)),
            Err(e) => Err(e),
        },
    }
}

/// Whether an optional timestamp parameter, when it parses, fits in Apple epoch nanoseconds.
fn nanos_fit(value: &Option<String>) -> (b: bool)
    ensures
        b == nanos_representable(*value),
{
    match value {
        None => true,
        Some(t) => match parse_rfc3339(t.as_str()) {
            None => true,
            Some((secs, nanos)) => match secs.checked_sub(APPLE_EPOCH_OFFSET_SECS) {
                None => false,
                Some(shifted) => match shifted.checked_mul(1_000_000_000) {
                    None => false,
                    Some(scaled) => scaled.checked_add(nanos as i64).is_some(),
                },
            },
        },
    }
}

/// Whether an optional timestamp parameter, when it parses, fits in Core Data seconds.
fn core_secs_fit(value: &Option<String>) -> (b: bool)
    ensures
        b == core_secs_representable(*value),
{
    match value {
        None => true,
        Some(t) => match parse_i64(t.as_str()) {
            Some(unix) => unix.checked_sub(APPLE_EPOCH_OFFSET_SECS).is_some(),
            None => match parse_rfc3339(t.as_str()) {
                None => true,
                Some((secs, _)) => secs.checked_sub(APPLE_EPOCH_OFFSET_SECS).is_some(),
            },
        },
    }
}

/// An optional machine integer, as a mathematical one.
pub open spec fn opt_int(v: Option<i64>) -> Option<int> {
    match v {
        Some(x) => Some(x as int),
        None => None,
    }
}

/// Both bounds are present and the first is not later than the second.
pub open spec fn not_later(first: Option<int>, second: Option<int>) -> bool {
    first matches Some(f) && second matches Some(s) && f <= s
}

/// The error for two related fields given in the wrong order.
pub open spec fn is_order_error(
    e: ApiError,
    message: Seq<char>,
    field: Seq<char>,
    related: Seq<char>,
) -> bool {
    e.is_detailed(ErrorCode::ValidationError, message, related_details(field, related))
}

/// An owned copy of an optional string.
fn clone_opt_string(s: &Option<String>) -> (r: Option<String>)
    ensures
        opt_view(r) == opt_view(*s),
{
    match s {
        Some(t) => Some(t.clone()),
        None => None,
    }
}

// ---------------------------------------------------------------------------------------------
// Plain pages
// ---------------------------------------------------------------------------------------------

/// Keyset pagination parameters.
pub struct PageParams {
    pub limit: Option<u32>,
    pub cursor: Option<String>,
}

/// What a limit check gives back for a requested limit.
pub open spec fn limit_outcome(limit: Option<u32>, r: Result<u32, ApiError>) -> bool {
    &&& r is Ok <==> limit_in_range(limit)
    &&& r matches Ok(l) ==> l == effective_limit(limit)
    &&& r matches Err(e) ==> is_limit_error(e)
}

/// What a cursor check gives back for a requested cursor.
pub open spec fn cursor_outcome<'a>(
    cursor: Option<String>,
    r: Result<Option<&'a str>, ApiError>,
) -> bool {
    &&& r is Ok <==> cursor_well_prefixed(cursor)
    &&& r matches Ok(c) ==> (c is None <==> cursor is None)
    &&& r matches Ok(Some(c)) ==> cursor matches Some(given) && c@ == given@
    &&& r matches Err(e) ==> is_cursor_prefix_error(e)
}

impl PageParams {
    /// The page size, 50 by default; refused outside `1..=200`.
    pub fn validated_limit(&self) -> (r: Result<u32, ApiError>)
        ensures
            limit_outcome(self.limit, r),
    {
        validate_limit(self.limit)
    }

    /// The cursor, which must carry the `v1.` prefix when given.
    pub fn validated_cursor(&self) -> (r: Result<Option<&str>, ApiError>)
        ensures
            cursor_outcome(self.cursor, r),
    {
        validate_cursor(&self.cursor)
    }
}

// ---------------------------------------------------------------------------------------------
// Messages
// ---------------------------------------------------------------------------------------------

/// Message direction as a request names it.
#[derive(Debug, Clone, Copy, PartialEq, Eq, Structural)]
pub enum DirectionFilterDto {
    Sent,
    Received,
}

/// Message transport as a request names it.
#[derive(Debug, Clone, Copy, PartialEq, Eq, Structural)]
pub enum TransportFilterDto {
    Imessage,
    Sms,
    Rcs,
    Unknown,
}

/// Message content category as a request names it.
#[derive(Debug, Clone, Copy, PartialEq, Eq, Structural)]
pub enum ContentTypeFilterDto {
    Text,
    Audio,
    Attachment,
    Reaction,
    GroupEvent,
    AppBalloon,
    SharePlay,
    ShareMyLocation,
    System,
    Unknown,
}

pub open spec fn direction_filter_of(v: DirectionFilterDto) -> DirectionFilter {
    match v {
        DirectionFilterDto::Sent => DirectionFilter::Sent,
        DirectionFilterDto::Received => DirectionFilter::Received,
    }
}

pub open spec fn transport_filter_of(v: TransportFilterDto) -> TransportFilter {
    match v {
        TransportFilterDto::Imessage => TransportFilter::Imessage,
        TransportFilterDto::Sms => TransportFilter::Sms,
        TransportFilterDto::Rcs => TransportFilter::Rcs,
        TransportFilterDto::Unknown => TransportFilter::Unknown,
    }
}

pub open spec fn content_type_filter_of(v: ContentTypeFilterDto) -> ContentTypeFilter {
    match v {
        ContentTypeFilterDto::Text => ContentTypeFilter::Text,
        ContentTypeFilterDto::Audio => ContentTypeFilter::Audio,
        ContentTypeFilterDto::Attachment => ContentTypeFilter::Attachment,
        ContentTypeFilterDto::Reaction => ContentTypeFilter::Reaction,
        ContentTypeFilterDto::GroupEvent => ContentTypeFilter::GroupEvent,
        ContentTypeFilterDto::AppBalloon => ContentTypeFilter::AppBalloon,
        ContentTypeFilterDto::SharePlay => ContentTypeFilter::SharePlay,
        ContentTypeFilterDto::ShareMyLocation => ContentTypeFilter::ShareMyLocation,
        ContentTypeFilterDto::System => ContentTypeFilter::System,
        ContentTypeFilterDto::Unknown => ContentTypeFilter::Unknown,
    }
}

impl From<DirectionFilterDto> for DirectionFilter {
    fn from(value: DirectionFilterDto) -> (r: Self) {
        match value {
            DirectionFilterDto::Sent => DirectionFilter::Sent,
            DirectionFilterDto::Received => DirectionFilter::Received,
        }
    }
}

impl vstd::std_specs::convert::FromSpecImpl<DirectionFilterDto> for DirectionFilter {
    open spec fn obeys_from_spec() -> bool {
        true
    }

    open spec fn from_spec(v: DirectionFilterDto) -> Self {
        direction_filter_of(v)
    }
}

impl From<TransportFilterDto> for TransportFilter {
    fn from(value: TransportFilterDto) -> (r: Self) {
        match value {
            TransportFilterDto::Imessage => TransportFilter::Imessage,
            TransportFilterDto::Sms => TransportFilter::Sms,
            TransportFilterDto::Rcs => TransportFilter::Rcs,
            TransportFilterDto::Unknown => TransportFilter::Unknown,
        }
    }
}

impl vstd::std_specs::convert::FromSpecImpl<TransportFilterDto> for TransportFilter {
    open spec fn obeys_from_spec() -> bool {
        true
    }

    open spec fn from_spec(v: TransportFilterDto) -> Self {
        transport_filter_of(v)
    }
}

impl From<ContentTypeFilterDto> for ContentTypeFilter {
    fn from(value: ContentTypeFilterDto) -> (r: Self) {
        match value {
            ContentTypeFilterDto::Text => ContentTypeFilter::Text,
            ContentTypeFilterDto::Audio => ContentTypeFilter::Audio,
            ContentTypeFilterDto::Attachment => ContentTypeFilter::Attachment,
            ContentTypeFilterDto::Reaction => ContentTypeFilter::Reaction,
            ContentTypeFilterDto::GroupEvent => ContentTypeFilter::GroupEvent,
            ContentTypeFilterDto::AppBalloon => ContentTypeFilter::AppBalloon,
            ContentTypeFilterDto::SharePlay => ContentTypeFilter::SharePlay,
            ContentTypeFilterDto::ShareMyLocation => ContentTypeFilter::ShareMyLocation,
            ContentTypeFilterDto::System => ContentTypeFilter::System,
            ContentTypeFilterDto::Unknown => ContentTypeFilter::Unknown,
        }
    }
}

impl vstd::std_specs::convert::FromSpecImpl<ContentTypeFilterDto> for ContentTypeFilter {
    open spec fn obeys_from_spec() -> bool {
        true
    }

    open spec fn from_spec(v: ContentTypeFilterDto) -> Self {
        content_type_filter_of(v)
    }
}

/// Query parameters of the message listing and search.
pub struct MessageListParams {
    pub limit: Option<u32>,
    pub cursor: Option<String>,
    pub q: Option<String>,
    pub chat_id: Option<i64>,
    pub sender: Option<String>,
    pub before: Option<String>,
    pub after: Option<String>,
    pub direction: Option<DirectionFilterDto>,
    pub transport: Option<TransportFilterDto>,
    pub content_type: Option<ContentTypeFilterDto>,
    pub has_attachments: Option<bool>,
}

impl MessageListParams {
    /// Both timestamps, where they parse, fit in Apple epoch nanoseconds.
    pub open spec fn timestamps_representable(self) -> bool {
        nanos_representable(self.before) && nanos_representable(self.after)
    }

    /// The parameters are refused.
    pub open spec fn refused(self) -> bool {
        ||| query_too_long(self.q)
        ||| rfc3339_refused(self.before)
        ||| rfc3339_refused(self.after)
        ||| not_later(opt_apple_nanos(self.before), opt_apple_nanos(self.after))
    }

    /// The error refused parameters get: the first failing check, in the order
    /// query, `before`, `after`, then their order.
    pub open spec fn refusal(self, e: ApiError) -> bool {
        if query_too_long(self.q) {
            is_query_error(e)
        } else if rfc3339_refused(self.before) {
            is_rfc3339_error(e, "before"@)
        } else if rfc3339_refused(self.after) {
            is_rfc3339_error(e, "after"@)
        } else {
            is_order_error(e, "before must be later than after"@, "before"@, "after"@)
        }
    }

    /// The filters accepted parameters give.
    pub open spec fn filters_of(self, f: MessageFilters) -> bool {
        &&& opt_view(f.q) == present_trimmed(self.q)
        &&& f.chat_id == self.chat_id
        &&& opt_view(f.sender) == present_trimmed(self.sender)
        &&& opt_int(f.before) == opt_apple_nanos(self.before)
        &&& opt_int(f.after) == opt_apple_nanos(self.after)
        &&& f.direction == (match self.direction {
            Some(d) => Some(direction_filter_of(d)),
            None => None,
        })
        &&& f.transport == (match self.transport {
            Some(t) => Some(transport_filter_of(t)),
            None => None,
        })
        &&& f.content_type == (match self.content_type {
            Some(c) => Some(content_type_filter_of(c)),
            None => None,
        })
        &&& f.has_attachments == self.has_attachments
    }

    /// What validation gives back for these parameters.
    pub open spec fn outcome(self, r: Result<MessageFilters, ApiError>) -> bool {
        &&& r is Err <==> self.refused()
        &&& r matches Err(e) ==> self.refusal(e)
        &&& r matches Ok(f) ==> self.filters_of(f)
    }

    /// The page size, 50 by default; refused outside `1..=200`.
    pub fn validated_limit(&self) -> (r: Result<u32, ApiError>)
        ensures
            limit_outcome(self.limit, r),
    {
        validate_limit(self.limit)
    }

    /// The cursor, which must carry the `v1.` prefix when given.
    pub fn validated_cursor(&self) -> (r: Result<Option<&str>, ApiError>)
        ensures
            cursor_outcome(self.cursor, r),
    {
        validate_cursor(&self.cursor)
    }

    /// The search filters: trimmed query and sender, timestamps as Apple epoch nanoseconds,
    /// `before` strictly later than `after`.
    pub fn validated_filters(&self) -> (r: Result<MessageFilters, ApiError>)
        requires
            self.timestamps_representable(),
        ensures
            self.outcome(r),
    {
        let q = match validate_query(&self.q) {
            Ok(q) => q,
            Err(e) => return Err(e),
        };
        let sender = owned_trimmed(&self.sender);
        let before = match optional_apple_nanos(&self.before, "before") {
            Ok(v) => v,
            Err(e) => return Err(e),
        };
        let after = match optional_apple_nanos(&self.after, "after") {
            Ok(v) => v,
            Err(e) => return Err(e),
        };
        if let (Some(b), Some(a)) = (before, after) {
            if b <= a {
                return Err(
                    ApiError::validation_with_details(
                        String::from_str("before must be later than after"),
                        related_detail("before", "after"),
                    ),
                );
            }
        }
        let direction = match self.direction {
            Some(d) => Some(DirectionFilter::from(d)),
            None => None,
        };
        let transport = match self.transport {
            Some(t) => Some(TransportFilter::from(t)),
            None => None,
        };
        let content_type = match self.content_type {
            Some(c) => Some(ContentTypeFilter::from(c)),
            None => None,
        };
        Ok(
            MessageFilters {
                q,
                chat_id: self.chat_id,
                sender,
                before,
                after,
                direction,
                transport,
                content_type,
                has_attachments: self.has_attachments,
            },
        )
    }

    /// Validates the filters where both timestamps fit in Apple epoch nanoseconds;
    /// `None` where one parses to an instant that does not.
    pub fn validated_filters_checked(&self) -> (r: Option<Result<MessageFilters, ApiError>>)
        ensures
            r is None <==> !self.timestamps_representable(),
            r matches Some(res) ==> self.outcome(res),
    {
        if !nanos_fit(&self.before) || !nanos_fit(&self.after) {
            return None;
        }
        Some(self.validated_filters())
    }
}


// ---------------------------------------------------------------------------------------------
// Path parameters and headers
// ---------------------------------------------------------------------------------------------

/// `/chats/{chat_id}`.
pub struct ChatIdPath {
    pub chat_id: i64,
}

/// `/messages/{guid}`.
pub struct MessageGuidPath {
    pub guid: String,
}

/// `/attachments/{guid}`.
pub struct AttachmentGuidPath {
    pub guid: String,
}

/// `If-None-Match` and `If-Modified-Since`.
pub struct ConditionalRequestHeaders {
    pub if_none_match: Option<String>,
    pub if_modified_since: Option<String>,
}

/// `Range`.
pub struct RangeRequestHeader {
    pub range: Option<String>,
}

/// `/reminder-lists/{list_id}`.
pub struct ReminderListIdPath {
    pub list_id: String,
}

/// `/reminders/{reminder_id}`.
pub struct ReminderIdPath {
    pub reminder_id: String,
}

/// `/reminder-attachments/{id}`.
pub struct ReminderAttachmentIdPath {
    pub id: String,
}

/// `/note-folders/{folder_id}`.
pub struct NoteFolderIdPath {
    pub folder_id: String,
}

/// `/notes/{note_id}`.
pub struct NoteIdPath {
    pub note_id: String,
}

/// `/note-attachments/{id}`.
pub struct NoteAttachmentIdPath {
    pub id: String,
}

/// `/calendars/{calendar_id}`.
pub struct CalendarIdPath {
    pub calendar_id: String,
}

/// `/events/{event_id}`.
pub struct EventIdPath {
    pub event_id: String,
}

/// `/events/{event_id}/attachments/{attachment_id}`.
pub struct EventAttachmentIdPath {
    pub event_id: String,
    pub attachment_id: String,
}

// ---------------------------------------------------------------------------------------------
// Reminder lists
// ---------------------------------------------------------------------------------------------

/// A reminder list named in a path: a positive row id, or a UUID (kept lowercase).
#[derive(Debug, Clone)]
pub enum ReminderListKey {
    Row(i64),
    Id(String),
}

/// The error for a list identifier that is neither a positive integer nor a UUID.
pub open spec fn is_list_id_error(e: ApiError) -> bool {
    e.is_detailed(
        ErrorCode::ValidationError,
        "list_id must be a positive integer or UUID"@,
        field_details("list_id"@),
    )
}

fn list_id_error() -> (e: ApiError)
    ensures
        is_list_id_error(e),
{
    ApiError::validation_with_details(
        String::from_str("list_id must be a positive integer or UUID"),
        crate::error::field_detail("list_id"),
    )
}

impl ReminderListKey {
    /// The path text is accepted as a list key.
    pub open spec fn accepts(raw: Seq<char>) -> bool {
        match parse_i64_spec(raw) {
            Some(v) => v > 0,
            None => is_uuid_spec(raw),
        }
    }

    /// Reads a list key: an integer must be positive; otherwise a UUID, lowercased.
    pub fn parse(raw: &str) -> (r: Result<ReminderListKey, ApiError>)
        ensures
            r is Ok <==> Self::accepts(raw@),
            r matches Ok(k) ==> match parse_i64_spec(raw@) {
                Some(v) => k == ReminderListKey::Row(v),
                None => k matches ReminderListKey::Id(id) && id@ == ascii_lower_seq(raw@),
            },
            r matches Err(e) ==> is_list_id_error(e),
    {
        if let Some(row_id) = parse_i64(raw) {
            if row_id <= 0 {
                return Err(list_id_error());
            }
            return Ok(ReminderListKey::Row(row_id));
        }
        if is_uuid(raw) {
            return Ok(ReminderListKey::Id(to_ascii_lowercase(raw)));
        }
        Err(list_id_error())
    }
}

/// The list filter text is present and is neither an integer nor a UUID.
pub open spec fn list_id_refused(raw: Option<String>) -> bool {
    present_trimmed(raw) matches Some(t) && parse_i64_spec(t) is None && !is_uuid_spec(t)
}

/// The list filter that accepted text gives.
pub open spec fn list_filter_of(raw: Option<String>, f: Option<ListIdFilter>) -> bool {
    match present_trimmed(raw) {
        None => f is None,
        Some(t) => match parse_i64_spec(t) {
            Some(v) => f == Some(ListIdFilter::RowId(v)),
            None => f matches Some(ListIdFilter::Uuid(u)) && u@ == ascii_lower_seq(t),
        },
    }
}

fn list_filter(raw: &Option<String>) -> (r: Result<Option<ListIdFilter>, ApiError>)
    ensures
        r is Err <==> list_id_refused(*raw),
        r matches Ok(f) ==> list_filter_of(*raw, f),
        r matches Err(e) ==> is_list_id_error(e),
{
    match trimmed_nonempty(raw) {
        None => Ok(None),
        Some(t) => match parse_i64(t) {
            Some(v) => Ok(Some(ListIdFilter::RowId(v))),
            None => {
                if is_uuid(t) {
                    Ok(Some(ListIdFilter::Uuid(to_ascii_lowercase(t))))
                } else {
                    Err(list_id_error())
                }
            },
        },
    }
}

/// Query parameters of the reminder listing.
pub struct ReminderListParams {
    pub limit: Option<u32>,
    pub cursor: Option<String>,
    pub completed: Option<bool>,
    pub flagged: Option<bool>,
    pub has_due_date: Option<bool>,
    pub due_before: Option<String>,
    pub due_after: Option<String>,
    pub priority_min: Option<i32>,
    pub has_notes: Option<bool>,
    pub top_level_only: Option<bool>,
    pub include_subtasks: Option<bool>,
    pub include_tags: Option<bool>,
    pub section_id: Option<String>,
    pub q: Option<String>,
    pub list_id: Option<String>,
}

impl ReminderListParams {
    /// Both due bounds, where they parse, fit in Core Data seconds.
    pub open spec fn timestamps_representable(self) -> bool {
        core_secs_representable(self.due_before) && core_secs_representable(self.due_after)
    }

    /// The parameters are refused.
    pub open spec fn refused(self) -> bool {
        ||| query_too_long(self.q)
        ||| list_id_refused(self.list_id)
        ||| core_secs_refused(self.due_before)
        ||| core_secs_refused(self.due_after)
    }

    /// The error refused parameters get: the first failing check, in the order query,
    /// list, `due_before`, `due_after`.
    pub open spec fn refusal(self, e: ApiError) -> bool {
        if query_too_long(self.q) {
            is_query_error(e)
        } else if list_id_refused(self.list_id) {
            is_list_id_error(e)
        } else if core_secs_refused(self.due_before) {
            is_core_timestamp_error(e, "due_before"@)
        } else {
            is_core_timestamp_error(e, "due_after"@)
        }
    }

    /// The filters accepted parameters give.
    pub open spec fn filters_of(self, f: ReminderFilters) -> bool {
        &&& opt_view(f.q) == present_trimmed(self.q)
        &&& f.completed == self.completed
        &&& f.flagged == self.flagged
        &&& list_filter_of(self.list_id, f.list_id)
        &&& opt_view(f.section_id) == opt_view(self.section_id)
        &&& f.has_due_date == self.has_due_date
        &&& opt_int(f.due_before) == opt_core_secs(self.due_before)
        &&& opt_int(f.due_after) == opt_core_secs(self.due_after)
        &&& f.priority_min == self.priority_min
        &&& f.has_notes == self.has_notes
        &&& f.top_level_only == self.top_level_only
    }

    /// What validation gives back for these parameters.
    pub open spec fn outcome(self, r: Result<ReminderFilters, ApiError>) -> bool {
        &&& r is Err <==> self.refused()
        &&& r matches Err(e) ==> self.refusal(e)
        &&& r matches Ok(f) ==> self.filters_of(f)
    }

    /// The page size, 50 by default; refused outside `1..=200`.
    pub fn validated_limit(&self) -> (r: Result<u32, ApiError>)
        ensures
            limit_outcome(self.limit, r),
    {
        validate_limit(self.limit)
    }

    /// The cursor, which must carry the `v1.` prefix when given.
    pub fn validated_cursor(&self) -> (r: Result<Option<&str>, ApiError>)
        ensures
            cursor_outcome(self.cursor, r),
    {
        validate_cursor(&self.cursor)
    }

    /// The reminder filters: trimmed query, list by row id or lowercased UUID, due bounds
    /// as Core Data seconds.
    pub fn validated_filters(&self) -> (r: Result<ReminderFilters, ApiError>)
        requires
            self.timestamps_representable(),
        ensures
            self.outcome(r),
    {
        let q = match validate_query(&self.q) {
            Ok(q) => q,
            Err(e) => return Err(e),
        };
        let list_id = match list_filter(&self.list_id) {
            Ok(f) => f,
            Err(e) => return Err(e),
        };
        let due_before = match optional_core_secs(&self.due_before, "due_before") {
            Ok(v) => v,
            Err(e) => return Err(e),
        };
        let due_after = match optional_core_secs(&self.due_after, "due_after") {
            Ok(v) => v,
            Err(e) => return Err(e),
        };
        Ok(
            ReminderFilters {
                q,
                completed: self.completed,
                flagged: self.flagged,
                list_id,
                section_id: clone_opt_string(&self.section_id),
                has_due_date: self.has_due_date,
                due_before,
                due_after,
                priority_min: self.priority_min,
                has_notes: self.has_notes,
                top_level_only: self.top_level_only,
            },
        )
    }

    /// Validates the filters where both due bounds fit in Core Data seconds;
    /// `None` where one parses to an instant that does not.
    pub fn validated_filters_checked(&self) -> (r: Option<Result<ReminderFilters, ApiError>>)
        ensures
            r is None <==> !self.timestamps_representable(),
            r matches Some(res) ==> self.outcome(res),
    {
        if !core_secs_fit(&self.due_before) || !core_secs_fit(&self.due_after) {
            return None;
        }
        Some(self.validated_filters())
    }
}


// ---------------------------------------------------------------------------------------------
// Notes
// ---------------------------------------------------------------------------------------------

/// A note folder named in a path: a positive row id, or a Notes folder identifier.
#[derive(Debug, Clone)]
pub enum NoteFolderKey {
    Row(i64),
    Id(String),
}

/// The error for a folder identifier that is blank or a non-positive integer.
pub open spec fn is_folder_id_error(e: ApiError) -> bool {
    e.is_detailed(
        ErrorCode::ValidationError,
        "folder_id must be a positive integer or Notes folder identifier"@,
        field_details("folder_id"@),
    )
}

fn folder_id_error() -> (e: ApiError)
    ensures
        is_folder_id_error(e),
{
    ApiError::validation_with_details(
        String::from_str("folder_id must be a positive integer or Notes folder identifier"),
        crate::error::field_detail("folder_id"),
    )
}

impl NoteFolderKey {
    /// The path text is accepted as a folder key.
    pub open spec fn accepts(raw: Seq<char>) -> bool {
        let t = trim_spec(raw);
        t.len() > 0 && match parse_i64_spec(t) {
            Some(v) => v > 0,
            None => true,
        }
    }

    /// Reads a folder key from trimmed text: an integer must be positive; any other
    /// non-blank text is a folder identifier.
    pub fn parse(raw: &str) -> (r: Result<NoteFolderKey, ApiError>)
        ensures
            r is Ok <==> Self::accepts(raw@),
            r matches Ok(k) ==> match parse_i64_spec(trim_spec(raw@)) {
                Some(v) => k == NoteFolderKey::Row(v),
                None => k matches NoteFolderKey::Id(id) && id@ == trim_spec(raw@),
            },
            r matches Err(e) ==> is_folder_id_error(e),
    {
        let raw = trim(raw);
        if raw.unicode_len() == 0 {
            return Err(folder_id_error());
        }
        if let Some(row_id) = parse_i64(raw) {
            if row_id <= 0 {
                return Err(folder_id_error());
            }
            return Ok(NoteFolderKey::Row(row_id));
        }
        Ok(NoteFolderKey::Id(String::from_str(raw)))
    }
}

/// The folder filter that the optional text gives.
pub open spec fn folder_filter_of(raw: Option<String>, f: Option<FolderIdFilter>) -> bool {
    match present_trimmed(raw) {
        None => f is None,
        Some(t) => match parse_i64_spec(t) {
            Some(v) => f == Some(FolderIdFilter::RowId(v)),
            None => f matches Some(FolderIdFilter::Identifier(id)) && id@ == t,
        },
    }
}

fn folder_filter(raw: &Option<String>) -> (f: Option<FolderIdFilter>)
    ensures
        folder_filter_of(*raw, f),
{
    match trimmed_nonempty(raw) {
        None => None,
        Some(t) => match parse_i64(t) {
            Some(v) => Some(FolderIdFilter::RowId(v)),
            None => Some(FolderIdFilter::Identifier(String::from_str(t))),
        },
    }
}

/// Query parameters of the note listing.
pub struct NoteListParams {
    pub limit: Option<u32>,
    pub cursor: Option<String>,
    pub q: Option<String>,
    pub folder_id: Option<String>,
    pub is_pinned: Option<bool>,
    pub is_locked: Option<bool>,
    pub has_checklist: Option<bool>,
    pub has_attachments: Option<bool>,
    pub include_deleted: Option<bool>,
    pub modified_before: Option<String>,
    pub modified_after: Option<String>,
}

impl NoteListParams {
    /// Both modification bounds, where they parse, fit in Core Data seconds.
    pub open spec fn timestamps_representable(self) -> bool {
        core_secs_representable(self.modified_before) && core_secs_representable(
            self.modified_after,
        )
    }

    /// The parameters are refused.
    pub open spec fn refused(self) -> bool {
        ||| query_too_long(self.q)
        ||| core_secs_refused(self.modified_before)
        ||| core_secs_refused(self.modified_after)
        ||| not_later(
            opt_double_core_secs(self.modified_before),
            opt_double_core_secs(self.modified_after),
        )
    }

    /// The error refused parameters get: the first failing check, in the order query,
    /// `modified_before`, `modified_after`, then their order.
    pub open spec fn refusal(self, e: ApiError) -> bool {
        if query_too_long(self.q) {
            is_query_error(e)
        } else if core_secs_refused(self.modified_before) {
            is_core_timestamp_error(e, "modified_before"@)
        } else if core_secs_refused(self.modified_after) {
            is_core_timestamp_error(e, "modified_after"@)
        } else {
            is_order_error(
                e,
                "modified_before must be later than modified_after"@,
                "modified_before"@,
                "modified_after"@,
            )
        }
    }

    /// The filters accepted parameters give.
    pub open spec fn filters_of(self, f: NoteFilters) -> bool {
        &&& opt_view(f.q) == present_trimmed(self.q)
        &&& folder_filter_of(self.folder_id, f.folder_id)
        &&& f.is_pinned == self.is_pinned
        &&& f.is_locked == self.is_locked
        &&& f.has_checklist == self.has_checklist
        &&& f.has_attachments == self.has_attachments
        &&& f.include_deleted == self.include_deleted
        &&& opt_int(f.modified_before) == opt_double_core_secs(self.modified_before)
        &&& opt_int(f.modified_after) == opt_double_core_secs(self.modified_after)
    }

    /// What validation gives back for these parameters.
    pub open spec fn outcome(self, r: Result<NoteFilters, ApiError>) -> bool {
        &&& r is Err <==> self.refused()
        &&& r matches Err(e) ==> self.refusal(e)
        &&& r matches Ok(f) ==> self.filters_of(f)
    }

    /// The page size, 50 by default; refused outside `1..=200`.
    pub fn validated_limit(&self) -> (r: Result<u32, ApiError>)
        ensures
            limit_outcome(self.limit, r),
    {
        validate_limit(self.limit)
    }

    /// The cursor, which must carry the `v1.` prefix when given.
    pub fn validated_cursor(&self) -> (r: Result<Option<&str>, ApiError>)
        ensures
            cursor_outcome(self.cursor, r),
    {
        validate_cursor(&self.cursor)
    }

    /// The note filters: trimmed query, folder by row id or identifier, modification
    /// bounds as Core Data seconds rounded to the nearest double, with `modified_before`
    /// strictly later once rounded.
    pub fn validated_filters(&self) -> (r: Result<NoteFilters, ApiError>)
        requires
            self.timestamps_representable(),
        ensures
            self.outcome(r),
    {
        let q = match validate_query(&self.q) {
            Ok(q) => q,
            Err(e) => return Err(e),
        };
        let folder_id = folder_filter(&self.folder_id);
        let modified_before = match optional_double_core_secs(
            &self.modified_before,
            "modified_before",
        ) {
            Ok(v) => v,
            Err(e) => return Err(e),
        };
        let modified_after = match optional_double_core_secs(
            &self.modified_after,
            "modified_after",
        ) {
            Ok(v) => v,
            Err(e) => return Err(e),
        };
        if let (Some(b), Some(a)) = (modified_before, modified_after) {
            if b <= a {
                return Err(
                    ApiError::validation_with_details(
                        String::from_str("modified_before must be later than modified_after"),
                        related_detail("modified_before", "modified_after"),
                    ),
                );
            }
        }
        Ok(
            NoteFilters {
                q,
                folder_id,
                is_pinned: self.is_pinned,
                is_locked: self.is_locked,
                has_checklist: self.has_checklist,
                has_attachments: self.has_attachments,
                include_deleted: self.include_deleted,
                modified_before,
                modified_after,
            },
        )
    }

    /// Validates the filters where both modification bounds fit in Core Data seconds;
    /// `None` where one parses to an instant that does not.
    pub fn validated_filters_checked(&self) -> (r: Option<Result<NoteFilters, ApiError>>)
        ensures
            r is None <==> !self.timestamps_representable(),
            r matches Some(res) ==> self.outcome(res),
    {
        if !core_secs_fit(&self.modified_before) || !core_secs_fit(&self.modified_after) {
            return None;
        }
        Some(self.validated_filters())
    }
}

// ---------------------------------------------------------------------------------------------
// Events
// ---------------------------------------------------------------------------------------------

/// Core Data epoch seconds of Unix seconds.
pub fn unix_to_core_data_secs(unix: i64) -> (secs: i64)
    requires
        i64::MIN + APPLE_EPOCH_OFFSET_SECS <= unix,
    ensures
        secs == unix - APPLE_EPOCH_OFFSET_SECS,
{
    unix - APPLE_EPOCH_OFFSET_SECS
}

/// Query parameters of the event listing.
pub struct EventListParams {
    pub limit: Option<u32>,
    pub cursor: Option<String>,
    pub q: Option<String>,
    pub calendar_id: Option<String>,
    pub account_id: Option<String>,
    pub start: Option<i64>,
    pub end: Option<i64>,
    pub include_hidden: Option<bool>,
    pub include_cancelled: Option<bool>,
    pub format: Option<String>,
}

/// Core Data seconds of optional Unix seconds.
pub open spec fn opt_core_of_unix(v: Option<i64>) -> Option<int> {
    match v {
        Some(u) => Some(u - APPLE_EPOCH_OFFSET_SECS),
        None => None,
    }
}

impl EventListParams {
    /// Both bounds convert to Core Data seconds without overflow.
    pub open spec fn bounds_representable(self) -> bool {
        &&& self.start matches Some(s) ==> i64::MIN + APPLE_EPOCH_OFFSET_SECS <= s
        &&& self.end matches Some(e) ==> i64::MIN + APPLE_EPOCH_OFFSET_SECS <= e
    }

    /// The parameters are refused.
    pub open spec fn refused(self) -> bool {
        ||| query_too_long(self.q)
        ||| (self.start matches Some(s) && self.end matches Some(e) && s > e)
    }

    /// The error refused parameters get: the query check comes first.
    pub open spec fn refusal(self, e: ApiError) -> bool {
        if query_too_long(self.q) {
            is_query_error(e)
        } else {
            is_order_error(e, "start must be before or equal to end"@, "start"@, "end"@)
        }
    }

    /// The filters accepted parameters give.
    pub open spec fn filters_of(self, f: EventFilters) -> bool {
        &&& opt_view(f.q) == present_trimmed(self.q)
        &&& opt_view(f.calendar_id) == opt_view(self.calendar_id)
        &&& opt_view(f.account_id) == opt_view(self.account_id)
        &&& opt_int(f.start_after) == opt_core_of_unix(self.start)
        &&& opt_int(f.start_before) == opt_core_of_unix(self.end)
        &&& f.include_hidden == (self.include_hidden == Some(true))
        &&& f.include_cancelled == (self.include_cancelled == Some(true))
    }

    /// What validation gives back for these parameters.
    pub open spec fn outcome(self, r: Result<EventFilters, ApiError>) -> bool {
        &&& r is Err <==> self.refused()
        &&& r matches Err(e) ==> self.refusal(e)
        &&& r matches Ok(f) ==> self.filters_of(f)
    }

    /// The page size, 50 by default; refused outside `1..=200`.
    pub fn validated_limit(&self) -> (r: Result<u32, ApiError>)
        ensures
            limit_outcome(self.limit, r),
    {
        validate_limit(self.limit)
    }

    /// The cursor, which must carry the `v1.` prefix when given.
    pub fn validated_cursor(&self) -> (r: Result<Option<&str>, ApiError>)
        ensures
            cursor_outcome(self.cursor, r),
    {
        validate_cursor(&self.cursor)
    }

    /// The event filters: trimmed query, `start <= end`, both as Core Data seconds.
    pub fn validated_filters(&self) -> (r: Result<EventFilters, ApiError>)
        requires
            self.bounds_representable(),
        ensures
            self.outcome(r),
    {
        let q = match validate_query(&self.q) {
            Ok(q) => q,
            Err(e) => return Err(e),
        };
        if let (Some(start), Some(end)) = (self.start, self.end) {
            if start > end {
                return Err(
                    ApiError::validation_with_details(
                        String::from_str("start must be before or equal to end"),
                        related_detail("start", "end"),
                    ),
                );
            }
        }
        let start_after = match self.start {
            Some(s) => Some(unix_to_core_data_secs(s)),
            None => None,
        };
        let start_before = match self.end {
            Some(e) => Some(unix_to_core_data_secs(e)),
            None => None,
        };
        let include_hidden = match self.include_hidden {
            Some(b) => b,
            None => false,
        };
        let include_cancelled = match self.include_cancelled {
            Some(b) => b,
            None => false,
        };
        Ok(
            EventFilters {
                q,
                calendar_id: clone_opt_string(&self.calendar_id),
                account_id: clone_opt_string(&self.account_id),
                start_after,
                start_before,
                include_hidden,
                include_cancelled,
            },
        )
    }
}


impl ReminderListIdPath {
    /// The list the path names: a positive row id or a UUID.
    pub fn validated_key(&self) -> (r: Result<ReminderListKey, ApiError>)
        ensures
            r is Ok <==> ReminderListKey::accepts(self.list_id@),
            r matches Ok(k) ==> match parse_i64_spec(self.list_id@) {
                Some(v) => k == ReminderListKey::Row(v),
                None => k matches ReminderListKey::Id(id) && id@ == ascii_lower_seq(self.list_id@),
            },
            r matches Err(e) ==> is_list_id_error(e),
    {
        ReminderListKey::parse(self.list_id.as_str())
    }
}

impl NoteFolderIdPath {
    /// The folder the path names: a positive row id or a folder identifier.
    pub fn validated_key(&self) -> (r: Result<NoteFolderKey, ApiError>)
        ensures
            r is Ok <==> NoteFolderKey::accepts(self.folder_id@),
            r matches Ok(k) ==> match parse_i64_spec(trim_spec(self.folder_id@)) {
                Some(v) => k == NoteFolderKey::Row(v),
                None => k matches NoteFolderKey::Id(id) && id@ == trim_spec(self.folder_id@),
            },
            r matches Err(e) ==> is_folder_id_error(e),
    {
        NoteFolderKey::parse(self.folder_id.as_str())
    }
}


// ---------------------------------------------------------------------------------------------
// Laws
// ---------------------------------------------------------------------------------------------

/// A request that names no page size gets 50, which lies inside the accepted `1..=200`.
pub proof fn law_default_limit_is_accepted()
    ensures
        limit_in_range(None),
        effective_limit(None) == 50,
        limit_in_range(Some(MAX_PAGE_LIMIT)),
        !limit_in_range(Some((MAX_PAGE_LIMIT + 1) as u32)),
        !limit_in_range(Some(0)),
{
}

/// Refused page sizes and cursors, and refused message, reminder, note and event filters,
/// are all answered with HTTP 400.
pub proof fn law_refused_parameters_are_bad_requests(
    messages: MessageListParams,
    reminders: ReminderListParams,
    notes: NoteListParams,
    events: EventListParams,
    e: ApiError,
)
    ensures
        is_limit_error(e) ==> status_of(e.code_spec()) == 400,
        is_cursor_prefix_error(e) ==> status_of(e.code_spec()) == 400,
        messages.refused() && messages.refusal(e) ==> status_of(e.code_spec()) == 400,
        reminders.refused() && reminders.refusal(e) ==> status_of(e.code_spec()) == 400,
        notes.refused() && notes.refusal(e) ==> status_of(e.code_spec()) == 400,
        events.refused() && events.refusal(e) ==> status_of(e.code_spec()) == 400,
{
}

/// A requested direction kept under its own name.
pub open spec fn direction_kept(requested: Option<DirectionFilterDto>, kept: Option<DirectionFilter>) -> bool {
    ||| requested is None && kept is None
    ||| requested == Some(DirectionFilterDto::Sent) && kept == Some(DirectionFilter::Sent)
    ||| requested == Some(DirectionFilterDto::Received) && kept == Some(DirectionFilter::Received)
}

/// A requested transport kept under its own name.
pub open spec fn transport_kept(requested: Option<TransportFilterDto>, kept: Option<TransportFilter>) -> bool {
    ||| requested is None && kept is None
    ||| requested == Some(TransportFilterDto::Imessage) && kept == Some(TransportFilter::Imessage)
    ||| requested == Some(TransportFilterDto::Sms) && kept == Some(TransportFilter::Sms)
    ||| requested == Some(TransportFilterDto::Rcs) && kept == Some(TransportFilter::Rcs)
    ||| requested == Some(TransportFilterDto::Unknown) && kept == Some(TransportFilter::Unknown)
}

/// A requested content category kept under its own name.
pub open spec fn content_type_kept(
    requested: Option<ContentTypeFilterDto>,
    kept: Option<ContentTypeFilter>,
) -> bool {
    ||| requested is None && kept is None
    ||| requested == Some(ContentTypeFilterDto::Text) && kept == Some(ContentTypeFilter::Text)
    ||| requested == Some(ContentTypeFilterDto::Audio) && kept == Some(ContentTypeFilter::Audio)
    ||| requested == Some(ContentTypeFilterDto::Attachment) && kept == Some(
        ContentTypeFilter::Attachment,
    )
    ||| requested == Some(ContentTypeFilterDto::Reaction) && kept == Some(
        ContentTypeFilter::Reaction,
    )
    ||| requested == Some(ContentTypeFilterDto::GroupEvent) && kept == Some(
        ContentTypeFilter::GroupEvent,
    )
    ||| requested == Some(ContentTypeFilterDto::AppBalloon) && kept == Some(
        ContentTypeFilter::AppBalloon,
    )
    ||| requested == Some(ContentTypeFilterDto::SharePlay) && kept == Some(
        ContentTypeFilter::SharePlay,
    )
    ||| requested == Some(ContentTypeFilterDto::ShareMyLocation) && kept == Some(
        ContentTypeFilter::ShareMyLocation,
    )
    ||| requested == Some(ContentTypeFilterDto::System) && kept == Some(ContentTypeFilter::System)
    ||| requested == Some(ContentTypeFilterDto::Unknown) && kept == Some(
        ContentTypeFilter::Unknown,
    )
}

/// Accepted message parameters give filters that keep every requested value: the chat, the
/// direction, the transport and the content category each under its own name, and the
/// attachment flag.
pub proof fn law_message_filters_keep_requests(params: MessageListParams, filters: MessageFilters)
    requires
        params.filters_of(filters),
    ensures
        filters.chat_id == params.chat_id,
        direction_kept(params.direction, filters.direction),
        transport_kept(params.transport, filters.transport),
        content_type_kept(params.content_type, filters.content_type),
        filters.has_attachments == params.has_attachments,
{
}

/// Distinct requested directions, transports and content categories give distinct filters.
pub proof fn law_message_filter_conversions_are_injective(
    d1: DirectionFilterDto,
    d2: DirectionFilterDto,
    t1: TransportFilterDto,
    t2: TransportFilterDto,
    c1: ContentTypeFilterDto,
    c2: ContentTypeFilterDto,
)
    ensures
        d1 != d2 ==> direction_filter_of(d1) != direction_filter_of(d2),
        t1 != t2 ==> transport_filter_of(t1) != transport_filter_of(t2),
        c1 != c2 ==> content_type_filter_of(c1) != content_type_filter_of(c2),
{
}

} // verus!
