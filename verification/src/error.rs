//! Structured API errors. The HTTP status of an error is always derived from its code.

use vstd::prelude::*;

use crate::error_codes::{message_of, status_of, ErrorCode};

verus! {

/// A value in the `details` object of an error body.
#[derive(Debug, Clone, PartialEq, Eq)]
pub enum DetailValue {
    Text(String),
    Number(i64),
}

/// One `key: value` member of the `details` object of an error body.
#[derive(Debug, Clone, PartialEq, Eq)]
pub struct DetailEntry {
    pub key: String,
    pub value: DetailValue,
}

/// The mathematical form of a detail value.
pub enum DetailValueView {
    Text(Seq<char>),
    Number(int),
}

pub open spec fn detail_value_view(value: DetailValue) -> DetailValueView {
    match value {
        DetailValue::Text(text) => DetailValueView::Text(text@),
        DetailValue::Number(n) => DetailValueView::Number(n as int),
    }
}

/// The members of a `details` object, in order, as key and value views.
pub open spec fn details_view(details: Seq<DetailEntry>) -> Seq<(Seq<char>, DetailValueView)> {
    details.map_values(|entry: DetailEntry| (entry.key@, detail_value_view(entry.value)))
}

/// `details` holding the single member `field`.
pub open spec fn field_details(field: Seq<char>) -> Seq<(Seq<char>, DetailValueView)> {
    seq![("field"@, DetailValueView::Text(field))]
}

/// The body of an error response: `{"code": .., "message": .., "details": ..}`.
#[derive(Debug, Clone)]
pub struct ErrorBody {
    pub code: ErrorCode,
    pub message: String,
    pub details: Option<Vec<DetailEntry>>,
}

/// The envelope of an error response: `{"error": {..}}`.
#[derive(Debug, Clone)]
pub struct ErrorResponse {
    pub error: ErrorBody,
}

/// What a database driver reported when a query failed.
#[derive(Debug, Clone, Copy, PartialEq, Eq, Structural)]
pub enum DbErrorKind {
    /// No pooled connection became free within the acquire timeout.
    PoolTimedOut,
    /// Any other driver failure.
    Other,
}

/// A structured API error.
#[derive(Debug, Clone)]
pub struct ApiError {
    pub body: ErrorBody,
}

impl ErrorBody {
    /// The details of the body, by view; `None` when the body has none.
    pub open spec fn details_spec(&self) -> Option<Seq<(Seq<char>, DetailValueView)>> {
        match self.details {
            Some(d) => Some(details_view(d@)),
            None => None,
        }
    }
}

impl ApiError {
    /// The error code.
    pub open spec fn code_spec(&self) -> ErrorCode {
        self.body.code
    }

    /// The error message.
    pub open spec fn message_spec(&self) -> Seq<char> {
        self.body.message@
    }

    /// The error details.
    pub open spec fn details_spec(&self) -> Option<Seq<(Seq<char>, DetailValueView)>> {
        self.body.details_spec()
    }

    /// `self` is an error of `code` with `message` and no details.
    pub open spec fn is_plain(&self, code: ErrorCode, message: Seq<char>) -> bool {
        &&& self.code_spec() == code
        &&& self.message_spec() == message
        &&& self.details_spec() is None
    }

    /// `self` is an error of `code` with `message` and `details`.
    pub open spec fn is_detailed(
        &self,
        code: ErrorCode,
        message: Seq<char>,
        details: Seq<(Seq<char>, DetailValueView)>,
    ) -> bool {
        &&& self.code_spec() == code
        &&& self.message_spec() == message
        &&& self.details_spec() == Some(details)
    }

    /// An error of `code` with the code's default message.
    pub open spec fn is_default(&self, code: ErrorCode) -> bool {
        self.is_plain(code, message_of(code)@)
    }

    pub fn new(code: ErrorCode) -> (err: ApiError)
        ensures
            err.is_default(code),
    {
        ApiError {
            body: ErrorBody {
                code,
                message: String::from_str(code.default_message()),
                details: None,
            },
        }
    }

    pub fn with_message(code: ErrorCode, message: String) -> (err: ApiError)
        ensures
            err.is_plain(code, message@),
    {
        ApiError { body: ErrorBody { code, message, details: None } }
    }

    pub fn with_details(code: ErrorCode, message: String, details: Vec<DetailEntry>) -> (err:
        ApiError)
        ensures
            err.is_detailed(code, message@, details_view(details@)),
    {
        ApiError { body: ErrorBody { code, message, details: Some(details) } }
    }

    /// A `validation_error` with details.
    pub fn validation_with_details(message: String, details: Vec<DetailEntry>) -> (err: ApiError)
        ensures
            err.is_detailed(ErrorCode::ValidationError, message@, details_view(details@)),
    {
        Self::with_details(ErrorCode::ValidationError, message, details)
    }

    pub fn range_not_satisfiable(message: String) -> (err: ApiError)
        ensures
            err.is_plain(ErrorCode::ByteRangeNotSatisfiable, message@),
    {
        Self::with_message(ErrorCode::ByteRangeNotSatisfiable, message)
    }

    pub fn eventkit_unavailable() -> (err: ApiError)
        ensures
            err.is_default(ErrorCode::EventkitUnavailable),
    {
        Self::new(ErrorCode::EventkitUnavailable)
    }

    pub fn contacts_unavailable() -> (err: ApiError)
        ensures
            err.is_default(ErrorCode::ContactsUnavailable),
    {
        Self::new(ErrorCode::ContactsUnavailable)
    }

    /// An internal error. The cause is not echoed to the client.
    pub fn internal(_message: String) -> (err: ApiError)
        ensures
            err.is_default(ErrorCode::InternalError),
    {
        Self::new(ErrorCode::InternalError)
    }

    pub fn forbidden(message: String) -> (err: ApiError)
        ensures
            err.is_plain(ErrorCode::Forbidden, message@),
    {
        Self::with_message(ErrorCode::Forbidden, message)
    }

    pub fn service_unavailable(message: String) -> (err: ApiError)
        ensures
            err.is_plain(ErrorCode::ServiceUnavailable, message@),
    {
        Self::with_message(ErrorCode::ServiceUnavailable, message)
    }

    pub fn not_found(message: String) -> (err: ApiError)
        ensures
            err.is_plain(ErrorCode::ResourceNotFound, message@),
    {
        Self::with_message(ErrorCode::ResourceNotFound, message)
    }

    /// Maps a database failure without leaking driver details; an exhausted pool surfaces as a
    /// query timeout.
    pub fn from_sqlx(error: DbErrorKind) -> (err: ApiError)
        ensures
            error == DbErrorKind::PoolTimedOut ==> err.is_default(ErrorCode::QueryTimeout),
            error == DbErrorKind::Other ==> err.is_default(ErrorCode::InternalError),
    {
        match error {
            DbErrorKind::PoolTimedOut => Self::new(ErrorCode::QueryTimeout),
            DbErrorKind::Other => Self::new(ErrorCode::InternalError),
        }
    }

    pub fn method_not_allowed() -> (err: ApiError)
        ensures
            err.is_default(ErrorCode::MethodNotAllowed),
    {
        Self::new(ErrorCode::MethodNotAllowed)
    }

    pub fn request_timeout() -> (err: ApiError)
        ensures
            err.is_default(ErrorCode::RequestTimeout),
    {
        Self::new(ErrorCode::RequestTimeout)
    }

    /// The HTTP status of the error, derived from its code.
    pub fn status(&self) -> (status: u16)
        ensures
            status == status_of(self.code_spec()),
    {
        self.body.code.http_status()
    }

    pub fn body(&self) -> (body: &ErrorBody)
        ensures
            body == &self.body,
    {
        &self.body
    }
}

/// A text member of a `details` object.
pub fn text_entry(key: &str, value: &str) -> (entry: DetailEntry)
    ensures
        entry.key@ == key@,
        detail_value_view(entry.value) == DetailValueView::Text(value@),
{
    DetailEntry { key: String::from_str(key), value: DetailValue::Text(String::from_str(value)) }
}

/// A number member of a `details` object.
pub fn number_entry(key: &str, value: i64) -> (entry: DetailEntry)
    ensures
        entry.key@ == key@,
        detail_value_view(entry.value) == DetailValueView::Number(value as int),
{
    DetailEntry { key: String::from_str(key), value: DetailValue::Number(value) }
}

/// The `details` object `{"field": field}`.
pub fn field_detail(field: &str) -> (details: Vec<DetailEntry>)
    ensures
        details_view(details@) == field_details(field@),
{
    let mut details: Vec<DetailEntry> = Vec::new();
    details.push(text_entry("field", field));
    proof {
        assert(details_view(details@) =~= field_details(field@));
    }
    details
}

/// `details` holding the single text member `key`.
pub open spec fn key_details(key: Seq<char>, value: Seq<char>) -> Seq<(Seq<char>, DetailValueView)> {
    seq![(key, DetailValueView::Text(value))]
}

/// The `details` object `{key: value}`.
pub fn key_detail(key: &str, value: &str) -> (details: Vec<DetailEntry>)
    ensures
        details_view(details@) == key_details(key@, value@),
{
    let mut details: Vec<DetailEntry> = Vec::new();
    details.push(text_entry(key, value));
    proof {
        assert(details_view(details@) =~= key_details(key@, value@));
    }
    details
}

} // verus!
