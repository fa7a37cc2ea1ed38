//! Which stored file an attachment request serves, and the answers where there is none.

use vstd::prelude::*;

use crate::error::{key_detail, key_details, ApiError};
use crate::error_codes::ErrorCode;
use crate::format::{attachment_mime, mime_from_format};
use crate::model::calendar::EventAttachment;
use crate::model::messages::Attachment;
use crate::model::notes::NoteAttachment;
use crate::text::clone_opt;

verus! {

broadcast use vstd::string::group_string_axioms;

/// The answer for a message attachment that no record names.
pub open spec fn is_attachment_not_found(e: ApiError, guid: Seq<char>) -> bool {
    e.is_detailed(
        ErrorCode::MessageAttachmentNotFound,
        "attachment "@ + guid + " not found"@,
        key_details("guid"@, guid),
    )
}

/// The answer for a message attachment whose bytes cannot be served.
pub open spec fn is_attachment_unavailable(e: ApiError, guid: Seq<char>) -> bool {
    e.is_detailed(
        ErrorCode::MessageAttachmentUnavailable,
        "attachment "@ + guid + " is not available"@,
        key_details("guid"@, guid),
    )
}

/// The answer for a note attachment that cannot be found or served.
pub open spec fn is_note_attachment_not_found(e: ApiError, id: Seq<char>) -> bool {
    e.is_detailed(
        ErrorCode::NoteAttachmentNotFound,
        "note attachment "@ + id + " not found"@,
        key_details("id"@, id),
    )
}

/// `attachment {guid} not found`.
pub fn attachment_not_found(guid: &str) -> (e: ApiError)
    ensures
        is_attachment_not_found(e, guid@),
{
    let mut message = String::from_str("attachment ");
    message.append(guid);
    message.append(" not found");
    ApiError::with_details(ErrorCode::MessageAttachmentNotFound, message, key_detail("guid", guid))
}

/// `attachment {guid} is not available`.
pub fn attachment_unavailable(guid: &str) -> (e: ApiError)
    ensures
        is_attachment_unavailable(e, guid@),
{
    let mut message = String::from_str("attachment ");
    message.append(guid);
    message.append(" is not available");
    ApiError::with_details(ErrorCode::MessageAttachmentUnavailable, message, key_detail("guid", guid))
}

/// `note attachment {id} not found`.
pub fn note_attachment_not_found(id: &str) -> (e: ApiError)
    ensures
        is_note_attachment_not_found(e, id@),
{
    let mut message = String::from_str("note attachment ");
    message.append(id);
    message.append(" not found");
    ApiError::with_details(ErrorCode::NoteAttachmentNotFound, message, key_detail("id", id))
}

/// The stored file name of the message attachment `guid`, as the attachments root is to be
/// searched for it: refused as not found where no record names the attachment, and as
/// unavailable where its transfer has not completed or it names no file.
pub fn attachment_file_to_serve(guid: &str, attachment: Option<&Attachment>) -> (r: Result<
    String,
    ApiError,
>)
    ensures
        match attachment {
            None => r matches Err(e) && is_attachment_not_found(e, guid@),
            Some(a) => if a.transfer_complete && a.filename is Some {
                r matches Ok(file) && file@ == a.filename->0@
            } else {
                r matches Err(e) && is_attachment_unavailable(e, guid@)
            },
        },
{
    match attachment {
        None => Err(attachment_not_found(guid)),
        Some(a) => {
            if !a.transfer_complete {
                return Err(attachment_unavailable(guid));
            }
            match &a.filename {
                Some(file) => Ok(file.clone()),
                None => Err(attachment_unavailable(guid)),
            }
        },
    }
}

/// The checked path of the message attachment `guid`: `validated` is the path under the
/// attachments root that the file resolved to, if it resolved inside the root.
pub fn attachment_path_to_serve(guid: &str, validated: Option<String>) -> (r: Result<
    String,
    ApiError,
>)
    ensures
        match validated {
            Some(path) => r == Ok::<String, ApiError>(path),
            None => r matches Err(e) && is_attachment_unavailable(e, guid@),
        },
{
    match validated {
        Some(path) => Ok(path),
        None => Err(attachment_unavailable(guid)),
    }
}

/// Where the file of the note attachment `id` is stored: its account and file name. Refused
/// as not found where no record names it or it lacks either.
pub fn note_attachment_location(id: &str, attachment: Option<&NoteAttachment>) -> (r: Result<
    (String, String),
    ApiError,
>)
    ensures
        match attachment {
            Some(a) if a.account_id is Some && a.filename is Some => r matches Ok((account, file))
                && account@ == a.account_id->0@ && file@ == a.filename->0@,
            _ => r matches Err(e) && is_note_attachment_not_found(e, id@),
        },
{
    match attachment {
        None => Err(note_attachment_not_found(id)),
        Some(a) => {
            let account = clone_opt(&a.account_id);
            let file = clone_opt(&a.filename);
            match (account, file) {
                (Some(account), Some(file)) => Ok((account, file)),
                _ => Err(note_attachment_not_found(id)),
            }
        },
    }
}

/// The checked path of the note attachment `id`: `validated` is the path under the notes
/// attachments root that the file resolved to, if it resolved inside the root.
pub fn note_attachment_path_to_serve(id: &str, validated: Option<String>) -> (r: Result<
    String,
    ApiError,
>)
    ensures
        match validated {
            Some(path) => r == Ok::<String, ApiError>(path),
            None => r matches Err(e) && is_note_attachment_not_found(e, id@),
        },
{
    match validated {
        Some(path) => Ok(path),
        None => Err(note_attachment_not_found(id)),
    }
}

/// The stored path of an event attachment: refused as not found where the event has no such
/// attachment, and as unavailable where it has no local copy.
pub fn event_attachment_file(attachment: Option<&EventAttachment>) -> (r: Result<String, ApiError>)
    ensures
        match attachment {
            None => r matches Err(e) && e.is_default(ErrorCode::EventAttachmentNotFound),
            Some(a) => match a.local_path {
                Some(path) => r matches Ok(p) && p@ == path@,
                None => r matches Err(e) && e.is_default(ErrorCode::EventAttachmentUnavailable),
            },
        },
{
    match attachment {
        None => Err(ApiError::new(ErrorCode::EventAttachmentNotFound)),
        Some(a) => match &a.local_path {
            Some(path) => Ok(path.clone()),
            None => Err(ApiError::new(ErrorCode::EventAttachmentUnavailable)),
        },
    }
}

/// The media type an event attachment is served with: from its format where it has one,
/// else `application/octet-stream`.
pub fn event_attachment_content_type(format: Option<&str>) -> (mime: String)
    ensures
        mime@ == match format {
            Some(f) => attachment_mime(f@),
            None => "application/octet-stream"@,
        },
{
    match format {
        Some(f) => mime_from_format(f),
        None => String::from_str("application/octet-stream"),
    }
}

} // verus!
