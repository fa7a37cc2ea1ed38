//! Opaque pagination cursors: `v1.` followed by the URL-safe, unpadded base64 of a JSON
//! payload, and the checks each decoded payload must pass.

use vstd::prelude::*;

use base64::Engine;

use crate::error::{field_details, ApiError};
use crate::error_codes::{status_of, ErrorCode};
use crate::filters::{
    law_same_message_filters_means_equal_filters, message_filters_match, opt_view,
    same_message_filters, MessageFilters,
};
use crate::params::{cursor_prefix_detail, cursor_prefix_details};
use crate::text::{has_prefix, starts_with};

verus! {

broadcast use vstd::string::group_string_axioms;

/// The text that base64's `URL_SAFE_NO_PAD` engine encodes `bytes` to.
pub uninterp spec fn base64url_encoding(bytes: Seq<u8>) -> Seq<char>;

/// The bytes that base64's `URL_SAFE_NO_PAD` engine decodes `text` to; `None` where it
/// refuses the text.
pub uninterp spec fn base64url_decoding(text: Seq<char>) -> Option<Seq<u8>>;

/// A character of the URL-safe base64 alphabet: `A-Z`, `a-z`, `0-9`, `-` and `_`.
pub open spec fn is_base64url_char(c: char) -> bool {
    ||| ('A' <= c && c <= 'Z')
    ||| ('a' <= c && c <= 'z')
    ||| ('0' <= c && c <= '9')
    ||| c == '-'
    ||| c == '_'
}

/// The length of the unpadded base64 text of `n` bytes: four characters per three bytes, and
/// two or three for a last group of one or two bytes.
pub open spec fn base64url_len(n: nat) -> nat {
    n / 3 * 4 + if n % 3 == 0 {
        0nat
    } else if n % 3 == 1 {
        2nat
    } else {
        3nat
    }
}

/// Calls `Engine::encode` of base64's `URL_SAFE_NO_PAD` engine. The contract names the
/// result, states the crate's round trip (decoding the result gives the input back), and
/// states what the engine's alphabet and `encoded_len` without padding give: the text uses
/// only the URL-safe alphabet and has the unpadded length. `encode` panics where the output
/// length overflows `usize`; `requires` leaves that out.
#[verifier::external_body]
fn base64url_encode(bytes: &[u8]) -> (text: String)
    requires
        bytes@.len() / 3 * 4 + 3 <= usize::MAX,
    ensures
        text@ == base64url_encoding(bytes@),
        base64url_decoding(text@) == Some(bytes@),
        text@.len() == base64url_len(bytes@.len()),
        forall|i: int| 0 <= i < text@.len() ==> is_base64url_char(#[trigger] text@[i]),
{
    base64::engine::general_purpose::URL_SAFE_NO_PAD.encode(bytes)
}

/// Calls `Engine::decode` of base64's `URL_SAFE_NO_PAD` engine; any `DecodeError` becomes
/// `None`. The contract only names the result.
#[verifier::external_body]
fn base64url_decode(text: &str) -> (bytes: Option<Vec<u8>>)
    ensures
        base64url_decoding(text@) == match bytes {
            Some(b) => Some(b@),
            None => None,
        },
{
    base64::engine::general_purpose::URL_SAFE_NO_PAD.decode(text).ok()
}

/// The text of the cursor whose payload is `payload`.
pub open spec fn cursor_text(payload: Seq<u8>) -> Seq<char> {
    "v1."@ + base64url_encoding(payload)
}

/// The payload a cursor text carries: the base64 after the `v1.` prefix, decoded.
pub open spec fn cursor_payload(text: Seq<char>) -> Option<Seq<u8>> {
    if has_prefix(text, "v1."@) {
        base64url_decoding(text.skip(3))
    } else {
        None
    }
}

/// The error of a cursor without the version prefix.
pub open spec fn is_unversioned_cursor_error(e: ApiError) -> bool {
    e.is_detailed(ErrorCode::InvalidCursor, "cursor must start with `v1.`"@, cursor_prefix_details())
}

/// The error of a cursor whose body is not base64url.
pub open spec fn is_cursor_base64_error(e: ApiError) -> bool {
    e.is_detailed(ErrorCode::InvalidCursor, "cursor is not valid base64url"@, field_details("cursor"@))
}

/// The error of a cursor whose payload does not parse as the expected cursor.
pub open spec fn is_cursor_payload_error(e: ApiError) -> bool {
    e.is_detailed(ErrorCode::InvalidCursor, "cursor payload is invalid"@, field_details("cursor"@))
}

/// The error of a cursor made for other filters than the active ones: a validation error.
pub open spec fn is_cursor_filters_error(e: ApiError) -> bool {
    e.is_detailed(
        ErrorCode::ValidationError,
        "cursor does not match the active filters"@,
        field_details("cursor"@),
    )
}

/// The error of a payload whose key field `field` is out of range.
pub open spec fn is_cursor_key_error(e: ApiError, field: Seq<char>) -> bool {
    e.is_detailed(ErrorCode::InvalidCursor, "cursor pagination key is invalid"@, field_details(field))
}

/// The cursor text for a serialized payload: `v1.` and the payload in base64url.
pub fn encode_cursor_bytes(payload: &[u8]) -> (cursor: String)
    requires
        payload@.len() / 3 * 4 + 3 <= usize::MAX,
    ensures
        cursor@ == cursor_text(payload@),
        cursor_payload(cursor@) == Some(payload@),
        cursor@.len() == 3 + base64url_len(payload@.len()),
        forall|i: int| 3 <= i < cursor@.len() ==> is_base64url_char(#[trigger] cursor@[i]),
{
    let encoded = base64url_encode(payload);
    proof {
        reveal_strlit("v1.");
    }
    let mut cursor = String::from_str("v1.");
    cursor.append(encoded.as_str());
    proof {
        assert(cursor@.skip(3) =~= encoded@);
        assert(cursor@.take(3) =~= "v1."@);
        assert forall|i: int| 3 <= i < cursor@.len() implies is_base64url_char(
            #[trigger] cursor@[i],
        ) by {
            assert(cursor@[i] == encoded@[i - 3]);
        }
    }
    cursor
}

/// The serialized payload of a cursor: refused without the `v1.` prefix, or where the rest
/// is not unpadded base64url.
pub fn decode_cursor_bytes(cursor: &str) -> (r: Result<Vec<u8>, ApiError>)
    ensures
        r is Ok <==> cursor_payload(cursor@) is Some,
        r matches Ok(b) ==> cursor_payload(cursor@) == Some(b@),
        r matches Err(e) ==> if has_prefix(cursor@, "v1."@) {
            is_cursor_base64_error(e)
        } else {
            is_unversioned_cursor_error(e)
        },
{
    proof {
        reveal_strlit("v1.");
    }
    if !starts_with(cursor, "v1.") {
        return Err(
            ApiError::with_details(
                ErrorCode::InvalidCursor,
                String::from_str("cursor must start with `v1.`"),
                cursor_prefix_detail(),
            ),
        );
    }
    let rest = cursor.substring_char(3, cursor.unicode_len());
    proof {
        assert(rest@ =~= cursor@.skip(3));
    }
    match base64url_decode(rest) {
        Some(bytes) => Ok(bytes),
        None => Err(
            ApiError::with_details(
                ErrorCode::InvalidCursor,
                String::from_str("cursor is not valid base64url"),
                crate::error::field_detail("cursor"),
            ),
        ),
    }
}

/// The error for a payload that does not parse as the expected cursor.
pub fn invalid_cursor_payload() -> (e: ApiError)
    ensures
        is_cursor_payload_error(e),
{
    ApiError::with_details(
        ErrorCode::InvalidCursor,
        String::from_str("cursor payload is invalid"),
        crate::error::field_detail("cursor"),
    )
}

/// The error for a cursor made for other filters than the active ones.
pub fn cursor_filters_mismatch() -> (e: ApiError)
    ensures
        is_cursor_filters_error(e),
{
    ApiError::with_details(
        ErrorCode::ValidationError,
        String::from_str("cursor does not match the active filters"),
        crate::error::field_detail("cursor"),
    )
}

/// The error for a payload whose key field `field` is out of range.
pub fn invalid_cursor_key(field: &str) -> (e: ApiError)
    ensures
        is_cursor_key_error(e, field@),
{
    ApiError::with_details(
        ErrorCode::InvalidCursor,
        String::from_str("cursor pagination key is invalid"),
        crate::error::field_detail(field),
    )
}


/// Position in a listing ordered by row id.
#[derive(Debug, Clone, Copy, PartialEq, Eq, Structural)]
pub struct ListCursor {
    pub row_id: i64,
}

impl ListCursor {
    /// The keys are in range: a positive row id.
    pub open spec fn valid(self) -> bool {
        self.row_id > 0
    }

    /// Checks the keys of a decoded payload.
    pub fn validate(&self) -> (r: Result<(), ApiError>)
        ensures
            r is Ok <==> self.valid(),
            r matches Err(e) ==> is_cursor_key_error(e, "row_id"@),
    {
        if self.row_id <= 0 {
            return Err(invalid_cursor_key("row_id"));
        }
        Ok(())
    }

    /// The cursor a parsed payload gives: refused where the payload did not parse as this
    /// cursor or its keys are out of range.
    pub fn from_payload(payload: Option<ListCursor>) -> (r: Result<ListCursor, ApiError>)
        ensures
            r is Ok <==> (payload matches Some(c) && c.valid()),
            r matches Ok(c) ==> payload == Some(c),
            r matches Err(e) ==> match payload {
                None => is_cursor_payload_error(e),
                Some(_) => is_cursor_key_error(e, "row_id"@),
            },
    {
        match payload {
            None => Err(invalid_cursor_payload()),
            Some(c) => match c.validate() {
                Ok(()) => Ok(c),
                Err(e) => Err(e),
            },
        }
    }
}

/// Position in the note folder listing.
#[derive(Debug, Clone, Copy, PartialEq, Eq, Structural)]
pub struct FolderListCursor {
    pub row_id: i64,
}

impl FolderListCursor {
    /// The keys are in range: a positive row id.
    pub open spec fn valid(self) -> bool {
        self.row_id > 0
    }

    /// Checks the keys of a decoded payload.
    pub fn validate(&self) -> (r: Result<(), ApiError>)
        ensures
            r is Ok <==> self.valid(),
            r matches Err(e) ==> is_cursor_key_error(e, "row_id"@),
    {
        if self.row_id <= 0 {
            return Err(invalid_cursor_key("row_id"));
        }
        Ok(())
    }

    /// The cursor a parsed payload gives: refused where the payload did not parse as this
    /// cursor or its keys are out of range.
    pub fn from_payload(payload: Option<FolderListCursor>) -> (r: Result<FolderListCursor, ApiError>)
        ensures
            r is Ok <==> (payload matches Some(c) && c.valid()),
            r matches Ok(c) ==> payload == Some(c),
            r matches Err(e) ==> match payload {
                None => is_cursor_payload_error(e),
                Some(_) => is_cursor_key_error(e, "row_id"@),
            },
    {
        match payload {
            None => Err(invalid_cursor_payload()),
            Some(c) => match c.validate() {
                Ok(()) => Ok(c),
                Err(e) => Err(e),
            },
        }
    }
}

/// Position in the calendar listing.
#[derive(Debug, Clone, Copy, PartialEq, Eq, Structural)]
pub struct CalendarListCursor {
    pub row_id: i64,
}

impl CalendarListCursor {
    /// The keys are in range: a positive row id.
    pub open spec fn valid(self) -> bool {
        self.row_id > 0
    }

    /// Checks the keys of a decoded payload.
    pub fn validate(&self) -> (r: Result<(), ApiError>)
        ensures
            r is Ok <==> self.valid(),
            r matches Err(e) ==> is_cursor_key_error(e, "row_id"@),
    {
        if self.row_id <= 0 {
            return Err(invalid_cursor_key("row_id"));
        }
        Ok(())
    }

    /// The cursor a parsed payload gives: refused where the payload did not parse as this
    /// cursor or its keys are out of range.
    pub fn from_payload(payload: Option<CalendarListCursor>) -> (r: Result<CalendarListCursor, ApiError>)
        ensures
            r is Ok <==> (payload matches Some(c) && c.valid()),
            r matches Ok(c) ==> payload == Some(c),
            r matches Err(e) ==> match payload {
                None => is_cursor_payload_error(e),
                Some(_) => is_cursor_key_error(e, "row_id"@),
            },
    {
        match payload {
            None => Err(invalid_cursor_payload()),
            Some(c) => match c.validate() {
                Ok(()) => Ok(c),
                Err(e) => Err(e),
            },
        }
    }
}

/// Position in the contacts of a group.
#[derive(Debug, Clone, Copy, PartialEq, Eq, Structural)]
pub struct GroupContactCursor {
    pub row_id: i64,
}

impl GroupContactCursor {
    /// The keys are in range: a positive row id.
    pub open spec fn valid(self) -> bool {
        self.row_id > 0
    }

    /// Checks the keys of a decoded payload.
    pub fn validate(&self) -> (r: Result<(), ApiError>)
        ensures
            r is Ok <==> self.valid(),
            r matches Err(e) ==> is_cursor_key_error(e, "row_id"@),
    {
        if self.row_id <= 0 {
            return Err(invalid_cursor_key("row_id"));
        }
        Ok(())
    }

    /// The cursor a parsed payload gives: refused where the payload did not parse as this
    /// cursor or its keys are out of range.
    pub fn from_payload(payload: Option<GroupContactCursor>) -> (r: Result<GroupContactCursor, ApiError>)
        ensures
            r is Ok <==> (payload matches Some(c) && c.valid()),
            r matches Ok(c) ==> payload == Some(c),
            r matches Err(e) ==> match payload {
                None => is_cursor_payload_error(e),
                Some(_) => is_cursor_key_error(e, "row_id"@),
            },
    {
        match payload {
            None => Err(invalid_cursor_payload()),
            Some(c) => match c.validate() {
                Ok(()) => Ok(c),
                Err(e) => Err(e),
            },
        }
    }
}

/// Position in the global message listing, newest first.
#[derive(Debug, Clone, Copy, PartialEq, Eq, Structural)]
pub struct GlobalMessageCursor {
    pub date: i64,
    pub row_id: i64,
}

impl GlobalMessageCursor {
    /// The keys are in range: positive row id and date.
    pub open spec fn valid(self) -> bool {
        self.row_id > 0 && self.date > 0
    }

    /// The error for keys out of range: the row id is checked first.
    pub open spec fn refusal(self, e: ApiError) -> bool {
        if self.row_id <= 0 {
            is_cursor_key_error(e, "row_id"@)
        } else {
            is_cursor_key_error(e, "date"@)
        }
    }

    /// Checks the keys of a decoded payload.
    pub fn validate(&self) -> (r: Result<(), ApiError>)
        ensures
            r is Ok <==> self.valid(),
            r matches Err(e) ==> self.refusal(e),
    {
        if self.row_id <= 0 {
            return Err(invalid_cursor_key("row_id"));
        }
        if self.date <= 0 {
            return Err(invalid_cursor_key("date"));
        }
        Ok(())
    }

    /// The cursor a parsed payload gives: refused where the payload did not parse as this
    /// cursor or its keys are out of range.
    pub fn from_payload(payload: Option<GlobalMessageCursor>) -> (r: Result<
        GlobalMessageCursor,
        ApiError,
    >)
        ensures
            r is Ok <==> (payload matches Some(c) && c.valid()),
            r matches Ok(c) ==> payload == Some(c),
            r matches Err(e) ==> match payload {
                None => is_cursor_payload_error(e),
                Some(c) => c.refusal(e),
            },
    {
        match payload {
            None => Err(invalid_cursor_payload()),
            Some(c) => match c.validate() {
                Ok(()) => Ok(c),
                Err(e) => Err(e),
            },
        }
    }

    /// The global cursor a payload gives where no search filters are active: a payload that
    /// also parses as a search cursor was made under filters and is refused.
    pub fn from_unfiltered_payload(
        parses_as_search: bool,
        payload: Option<GlobalMessageCursor>,
    ) -> (r: Result<GlobalMessageCursor, ApiError>)
        ensures
            parses_as_search ==> (r matches Err(e) && is_cursor_filters_error(e)),
            !parses_as_search ==> (r is Ok <==> (payload matches Some(c) && c.valid())),
            !parses_as_search ==> (r matches Ok(c) ==> payload == Some(c)),
            !parses_as_search ==> (r matches Err(e) ==> match payload {
                None => is_cursor_payload_error(e),
                Some(c) => c.refusal(e),
            }),
    {
        if parses_as_search {
            return Err(cursor_filters_mismatch());
        }
        Self::from_payload(payload)
    }
}

/// Position in a message search, with the filters the search ran under.
#[derive(Debug, Clone)]
pub struct MessageSearchCursor {
    pub date: i64,
    pub row_id: i64,
    pub filters: MessageFilters,
}

impl MessageSearchCursor {
    /// The keys are in range: positive row id and date.
    pub open spec fn valid(self) -> bool {
        self.row_id > 0 && self.date > 0
    }

    /// The error for keys out of range: the row id is checked first.
    pub open spec fn refusal(self, e: ApiError) -> bool {
        if self.row_id <= 0 {
            is_cursor_key_error(e, "row_id"@)
        } else {
            is_cursor_key_error(e, "date"@)
        }
    }

    /// Checks the keys of a decoded payload.
    pub fn validate(&self) -> (r: Result<(), ApiError>)
        ensures
            r is Ok <==> self.valid(),
            r matches Err(e) ==> self.refusal(e),
    {
        if self.row_id <= 0 {
            return Err(invalid_cursor_key("row_id"));
        }
        if self.date <= 0 {
            return Err(invalid_cursor_key("date"));
        }
        Ok(())
    }

    /// The search cursor a parsed payload gives under the active filters `expected`: refused
    /// where the payload did not parse, its keys are out of range, or it was made under other
    /// filters.
    pub fn from_payload_for_filters(
        payload: Option<MessageSearchCursor>,
        expected: &MessageFilters,
    ) -> (r: Result<MessageSearchCursor, ApiError>)
        ensures
            r is Ok <==> (payload matches Some(c) && c.valid() && same_message_filters(
                c.filters,
                *expected,
            )),
            r matches Ok(c) ==> payload == Some(c),
            r matches Ok(c) ==> opt_view(c.filters.q) == opt_view(expected.q) && c.filters.chat_id
                == expected.chat_id && opt_view(c.filters.sender) == opt_view(expected.sender)
                && c.filters.before == expected.before && c.filters.after == expected.after
                && c.filters.direction == expected.direction && c.filters.transport
                == expected.transport && c.filters.content_type == expected.content_type
                && c.filters.has_attachments == expected.has_attachments,
            r matches Err(e) ==> match payload {
                None => is_cursor_payload_error(e),
                Some(c) => if !c.valid() {
                    c.refusal(e)
                } else {
                    is_cursor_filters_error(e)
                },
            },
    {
        match payload {
            None => Err(invalid_cursor_payload()),
            Some(c) => match c.validate() {
                Ok(()) => {
                    if message_filters_match(&c.filters, expected) {
                        proof {
                            law_same_message_filters_means_equal_filters(c.filters, *expected);
                        }
                        Ok(c)
                    } else {
                        Err(cursor_filters_mismatch())
                    }
                },
                Err(e) => Err(e),
            },
        }
    }
}

/// Position in the messages of one chat.
#[derive(Debug, Clone, Copy, PartialEq, Eq, Structural)]
pub struct ChatMessageCursor {
    pub message_date: i64,
    pub message_id: i64,
}

impl ChatMessageCursor {
    /// The keys are in range: positive message id and date.
    pub open spec fn valid(self) -> bool {
        self.message_id > 0 && self.message_date > 0
    }

    /// The error for keys out of range: the message id is checked first.
    pub open spec fn refusal(self, e: ApiError) -> bool {
        if self.message_id <= 0 {
            is_cursor_key_error(e, "message_id"@)
        } else {
            is_cursor_key_error(e, "message_date"@)
        }
    }

    /// Checks the keys of a decoded payload.
    pub fn validate(&self) -> (r: Result<(), ApiError>)
        ensures
            r is Ok <==> self.valid(),
            r matches Err(e) ==> self.refusal(e),
    {
        if self.message_id <= 0 {
            return Err(invalid_cursor_key("message_id"));
        }
        if self.message_date <= 0 {
            return Err(invalid_cursor_key("message_date"));
        }
        Ok(())
    }

    /// The cursor a parsed payload gives: refused where the payload did not parse as this
    /// cursor or its keys are out of range.
    pub fn from_payload(payload: Option<ChatMessageCursor>) -> (r: Result<
        ChatMessageCursor,
        ApiError,
    >)
        ensures
            r is Ok <==> (payload matches Some(c) && c.valid()),
            r matches Ok(c) ==> payload == Some(c),
            r matches Err(e) ==> match payload {
                None => is_cursor_payload_error(e),
                Some(c) => c.refusal(e),
            },
    {
        match payload {
            None => Err(invalid_cursor_payload()),
            Some(c) => match c.validate() {
                Ok(()) => Ok(c),
                Err(e) => Err(e),
            },
        }
    }
}

/// Position in the chat listing, ordered by last message.
#[derive(Debug, Clone, Copy, PartialEq, Eq, Structural)]
pub struct ChatListCursor {
    pub message_date: i64,
    pub message_id: i64,
    pub chat_id: i64,
}

impl ChatListCursor {
    /// The keys are in range: positive message id, date and chat id.
    pub open spec fn valid(self) -> bool {
        self.message_id > 0 && self.message_date > 0 && self.chat_id > 0
    }

    /// The error for keys out of range, checked in the order message id, date, chat id.
    pub open spec fn refusal(self, e: ApiError) -> bool {
        if self.message_id <= 0 {
            is_cursor_key_error(e, "message_id"@)
        } else if self.message_date <= 0 {
            is_cursor_key_error(e, "message_date"@)
        } else {
            is_cursor_key_error(e, "chat_id"@)
        }
    }

    /// Checks the keys of a decoded payload.
    pub fn validate(&self) -> (r: Result<(), ApiError>)
        ensures
            r is Ok <==> self.valid(),
            r matches Err(e) ==> self.refusal(e),
    {
        if self.message_id <= 0 {
            return Err(invalid_cursor_key("message_id"));
        }
        if self.message_date <= 0 {
            return Err(invalid_cursor_key("message_date"));
        }
        if self.chat_id <= 0 {
            return Err(invalid_cursor_key("chat_id"));
        }
        Ok(())
    }

    /// The cursor a parsed payload gives: refused where the payload did not parse as this
    /// cursor or its keys are out of range.
    pub fn from_payload(payload: Option<ChatListCursor>) -> (r: Result<ChatListCursor, ApiError>)
        ensures
            r is Ok <==> (payload matches Some(c) && c.valid()),
            r matches Ok(c) ==> payload == Some(c),
            r matches Err(e) ==> match payload {
                None => is_cursor_payload_error(e),
                Some(c) => c.refusal(e),
            },
    {
        match payload {
            None => Err(invalid_cursor_payload()),
            Some(c) => match c.validate() {
                Ok(()) => Ok(c),
                Err(e) => Err(e),
            },
        }
    }
}

/// Position in the contact listing of one source.
#[derive(Debug, Clone)]
pub struct ContactListCursor {
    pub source_id: String,
    pub row_id: i64,
}

impl ContactListCursor {
    /// The keys are in range: a non-empty source and a positive row id.
    pub open spec fn valid(self) -> bool {
        self.source_id@.len() > 0 && self.row_id > 0
    }

    /// The error for keys out of range: the source is checked first.
    pub open spec fn refusal(self, e: ApiError) -> bool {
        if self.source_id@.len() == 0 {
            is_cursor_key_error(e, "source_id"@)
        } else {
            is_cursor_key_error(e, "row_id"@)
        }
    }

    /// Checks the keys of a decoded payload.
    pub fn validate(&self) -> (r: Result<(), ApiError>)
        ensures
            r is Ok <==> self.valid(),
            r matches Err(e) ==> self.refusal(e),
    {
        if self.source_id.as_str().unicode_len() == 0 {
            return Err(invalid_cursor_key("source_id"));
        }
        if self.row_id <= 0 {
            return Err(invalid_cursor_key("row_id"));
        }
        Ok(())
    }

    /// The cursor a parsed payload gives: refused where the payload did not parse as this
    /// cursor or its keys are out of range.
    pub fn from_payload(payload: Option<ContactListCursor>) -> (r: Result<
        ContactListCursor,
        ApiError,
    >)
        ensures
            r is Ok <==> (payload matches Some(c) && c.valid()),
            r matches Ok(c) ==> payload == Some(c),
            r matches Err(e) ==> match payload {
                None => is_cursor_payload_error(e),
                Some(c) => c.refusal(e),
            },
    {
        match payload {
            None => Err(invalid_cursor_payload()),
            Some(c) => match c.validate() {
                Ok(()) => Ok(c),
                Err(e) => Err(e),
            },
        }
    }
}


/// Every cursor the API hands out carries the version prefix that cursor validation asks for.
pub proof fn law_issued_cursors_are_versioned(payload: Seq<u8>)
    ensures
        has_prefix(cursor_text(payload), "v1."@),
{
    reveal_strlit("v1.");
    assert(cursor_text(payload).take(3) =~= "v1."@);
}

/// Every refused cursor is answered with HTTP 400, whatever the reason.
pub proof fn law_refused_cursors_are_bad_requests(e: ApiError)
    requires
        is_unversioned_cursor_error(e) || is_cursor_base64_error(e) || is_cursor_payload_error(e)
            || is_cursor_filters_error(e) || exists|f: Seq<char>| is_cursor_key_error(e, f),
    ensures
        status_of(e.code_spec()) == 400,
{
}

} // verus!
