//! Granular API error codes. The HTTP status of an error is derived from its code.

use vstd::prelude::*;

use crate::text::{has_prefix, has_suffix};

verus! {

/// Stable, unique snake_case error identifiers returned in `error.code`.
#[derive(Debug, Clone, Copy, PartialEq, Eq, Structural, Hash)]
pub enum ErrorCode {
    RouteNotFound,
    MethodNotAllowed,
    InvalidCursor,
    InvalidLimit,
    InvalidTimestamp,
    InvalidParameter,
    UnsupportedQueryParameter,
    RequestTimeout,
    QueryTimeout,
    GatewayTimeout,
    InternalError,
    ByteRangeNotSatisfiable,
    MessagesDatabaseUnavailable,
    RemindersDatabaseUnavailable,
    NotesDatabaseUnavailable,
    CalendarDatabaseUnavailable,
    ContactsDatabaseUnavailable,
    MessageNotFound,
    ChatNotFound,
    MessageAttachmentNotFound,
    MessageAttachmentUnavailable,
    NoteNotFound,
    NoteFolderNotFound,
    NoteAttachmentNotFound,
    NoteAttachmentUnavailable,
    ReminderNotFound,
    ReminderListNotFound,
    ReminderAttachmentNotFound,
    ReminderAttachmentUnavailable,
    SmartListReadOnly,
    UnsupportedReminderField,
    CalendarNotFound,
    CalendarAccountNotFound,
    EventNotFound,
    EventAttachmentNotFound,
    EventAttachmentUnavailable,
    EventEndBeforeStart,
    UnsupportedAlarmKind,
    ImmutableEventField,
    AmbiguousEventKitMatch,
    ContactNotFound,
    GroupNotFound,
    ContainerNotFound,
    ContactPhotoNotFound,
    ReadOnlyContainer,
    EventkitAccessDenied,
    ContactsAccessDenied,
    EventkitUnavailable,
    ContactsUnavailable,
    CalendarReadOnly,
    SqliteSyncPending,
    ValidationError,
    ResourceNotFound,
    ServiceUnavailable,
    Forbidden,
    Conflict,
    UnprocessableEntity,
}

/// Number of registered error codes.
pub const ERROR_CODE_COUNT: usize = 57;

/// The HTTP status that an error code maps to.
pub open spec fn status_of(code: ErrorCode) -> u16 {
    match code {
        ErrorCode::RouteNotFound => 404,
        ErrorCode::MethodNotAllowed => 405,
        ErrorCode::InvalidCursor => 400,
        ErrorCode::InvalidLimit => 400,
        ErrorCode::InvalidTimestamp => 400,
        ErrorCode::InvalidParameter => 400,
        ErrorCode::UnsupportedQueryParameter => 400,
        ErrorCode::RequestTimeout => 504,
        ErrorCode::QueryTimeout => 504,
        ErrorCode::GatewayTimeout => 504,
        ErrorCode::InternalError => 500,
        ErrorCode::ByteRangeNotSatisfiable => 416,
        ErrorCode::MessagesDatabaseUnavailable => 503,
        ErrorCode::RemindersDatabaseUnavailable => 503,
        ErrorCode::NotesDatabaseUnavailable => 503,
        ErrorCode::CalendarDatabaseUnavailable => 503,
        ErrorCode::ContactsDatabaseUnavailable => 503,
        ErrorCode::MessageNotFound => 404,
        ErrorCode::ChatNotFound => 404,
        ErrorCode::MessageAttachmentNotFound => 404,
        ErrorCode::MessageAttachmentUnavailable => 404,
        ErrorCode::NoteNotFound => 404,
        ErrorCode::NoteFolderNotFound => 404,
        ErrorCode::NoteAttachmentNotFound => 404,
        ErrorCode::NoteAttachmentUnavailable => 404,
        ErrorCode::ReminderNotFound => 404,
        ErrorCode::ReminderListNotFound => 404,
        ErrorCode::ReminderAttachmentNotFound => 404,
        ErrorCode::ReminderAttachmentUnavailable => 404,
        ErrorCode::SmartListReadOnly => 403,
        ErrorCode::UnsupportedReminderField => 422,
        ErrorCode::CalendarNotFound => 404,
        ErrorCode::CalendarAccountNotFound => 404,
        ErrorCode::EventNotFound => 404,
        ErrorCode::EventAttachmentNotFound => 404,
        ErrorCode::EventAttachmentUnavailable => 404,
        ErrorCode::EventEndBeforeStart => 422,
        ErrorCode::UnsupportedAlarmKind => 422,
        ErrorCode::ImmutableEventField => 422,
        ErrorCode::AmbiguousEventKitMatch => 409,
        ErrorCode::ContactNotFound => 404,
        ErrorCode::GroupNotFound => 404,
        ErrorCode::ContainerNotFound => 404,
        ErrorCode::ContactPhotoNotFound => 404,
        ErrorCode::ReadOnlyContainer => 403,
        ErrorCode::EventkitAccessDenied => 403,
        ErrorCode::ContactsAccessDenied => 403,
        ErrorCode::EventkitUnavailable => 503,
        ErrorCode::ContactsUnavailable => 503,
        ErrorCode::CalendarReadOnly => 403,
        ErrorCode::SqliteSyncPending => 503,
        ErrorCode::ValidationError => 400,
        ErrorCode::ResourceNotFound => 404,
        ErrorCode::ServiceUnavailable => 503,
        ErrorCode::Forbidden => 403,
        ErrorCode::Conflict => 409,
        ErrorCode::UnprocessableEntity => 422,
    }
}

/// The human-readable default message of an error code.
pub open spec fn message_of(code: ErrorCode) -> &'static str {
    match code {
        ErrorCode::RouteNotFound => "route not found",
        ErrorCode::MethodNotAllowed => "method not allowed",
        ErrorCode::InvalidCursor => "invalid cursor",
        ErrorCode::InvalidLimit => "invalid limit",
        ErrorCode::InvalidTimestamp => "invalid timestamp",
        ErrorCode::InvalidParameter => "invalid parameter",
        ErrorCode::UnsupportedQueryParameter => "unsupported query parameter",
        ErrorCode::RequestTimeout => "request timed out",
        ErrorCode::QueryTimeout => "database query timed out",
        ErrorCode::GatewayTimeout => "upstream operation timed out",
        ErrorCode::InternalError => "internal server error",
        ErrorCode::ByteRangeNotSatisfiable => "requested byte range is not satisfiable",
        ErrorCode::MessagesDatabaseUnavailable => "Messages database is unavailable",
        ErrorCode::RemindersDatabaseUnavailable => "Reminders database is unavailable",
        ErrorCode::NotesDatabaseUnavailable => "Notes database is unavailable",
        ErrorCode::CalendarDatabaseUnavailable => "Calendar database is unavailable",
        ErrorCode::ContactsDatabaseUnavailable => "Contacts databases are unavailable",
        ErrorCode::MessageNotFound => "message not found",
        ErrorCode::ChatNotFound => "chat not found",
        ErrorCode::MessageAttachmentNotFound => "message attachment not found",
        ErrorCode::MessageAttachmentUnavailable => "message attachment is not available",
        ErrorCode::NoteNotFound => "note not found",
        ErrorCode::NoteFolderNotFound => "note folder not found",
        ErrorCode::NoteAttachmentNotFound => "note attachment not found",
        ErrorCode::NoteAttachmentUnavailable => "note attachment is not available",
        ErrorCode::ReminderNotFound => "reminder not found",
        ErrorCode::ReminderListNotFound => "reminder list not found",
        ErrorCode::ReminderAttachmentNotFound => "reminder attachment not found",
        ErrorCode::ReminderAttachmentUnavailable => "reminder attachment is not available",
        ErrorCode::SmartListReadOnly => "cannot write to smart reminder lists",
        ErrorCode::UnsupportedReminderField => "unsupported reminder field",
        ErrorCode::CalendarNotFound => "calendar not found",
        ErrorCode::CalendarAccountNotFound => "calendar account not found",
        ErrorCode::EventNotFound => "event not found",
        ErrorCode::EventAttachmentNotFound => "event attachment not found",
        ErrorCode::EventAttachmentUnavailable => "event attachment is not available",
        ErrorCode::EventEndBeforeStart => "end must be greater than or equal to start",
        ErrorCode::UnsupportedAlarmKind => "unsupported alarm kind",
        ErrorCode::ImmutableEventField => "event field cannot be written",
        ErrorCode::AmbiguousEventKitMatch => "ambiguous EventKit match",
        ErrorCode::ContactNotFound => "contact not found",
        ErrorCode::GroupNotFound => "group not found",
        ErrorCode::ContainerNotFound => "container not found",
        ErrorCode::ContactPhotoNotFound => "contact photo not found",
        ErrorCode::ReadOnlyContainer => "target container is read-only",
        ErrorCode::EventkitAccessDenied => "EventKit access denied",
        ErrorCode::ContactsAccessDenied => "Contacts access denied",
        ErrorCode::EventkitUnavailable => "EventKit is unavailable on this platform or could not be initialized",
        ErrorCode::ContactsUnavailable => "Contacts framework is unavailable on this platform or could not be initialized",
        ErrorCode::CalendarReadOnly => "target calendar or list is read-only",
        ErrorCode::SqliteSyncPending => "write succeeded but SQLite read path has not caught up yet",
        ErrorCode::ValidationError => "validation error",
        ErrorCode::ResourceNotFound => "resource not found",
        ErrorCode::ServiceUnavailable => "service unavailable",
        ErrorCode::Forbidden => "forbidden",
        ErrorCode::Conflict => "conflict",
        ErrorCode::UnprocessableEntity => "unprocessable entity",
    }
}

/// The serialized snake_case identifier of an error code.
pub open spec fn name_of(code: ErrorCode) -> &'static str {
    match code {
        ErrorCode::RouteNotFound => "route_not_found",
        ErrorCode::MethodNotAllowed => "method_not_allowed",
        ErrorCode::InvalidCursor => "invalid_cursor",
        ErrorCode::InvalidLimit => "invalid_limit",
        ErrorCode::InvalidTimestamp => "invalid_timestamp",
        ErrorCode::InvalidParameter => "invalid_parameter",
        ErrorCode::UnsupportedQueryParameter => "unsupported_query_parameter",
        ErrorCode::RequestTimeout => "request_timeout",
        ErrorCode::QueryTimeout => "query_timeout",
        ErrorCode::GatewayTimeout => "gateway_timeout",
        ErrorCode::InternalError => "internal_error",
        ErrorCode::ByteRangeNotSatisfiable => "byte_range_not_satisfiable",
        ErrorCode::MessagesDatabaseUnavailable => "messages_database_unavailable",
        ErrorCode::RemindersDatabaseUnavailable => "reminders_database_unavailable",
        ErrorCode::NotesDatabaseUnavailable => "notes_database_unavailable",
        ErrorCode::CalendarDatabaseUnavailable => "calendar_database_unavailable",
        ErrorCode::ContactsDatabaseUnavailable => "contacts_database_unavailable",
        ErrorCode::MessageNotFound => "message_not_found",
        ErrorCode::ChatNotFound => "chat_not_found",
        ErrorCode::MessageAttachmentNotFound => "message_attachment_not_found",
        ErrorCode::MessageAttachmentUnavailable => "message_attachment_unavailable",
        ErrorCode::NoteNotFound => "note_not_found",
        ErrorCode::NoteFolderNotFound => "note_folder_not_found",
        ErrorCode::NoteAttachmentNotFound => "note_attachment_not_found",
        ErrorCode::NoteAttachmentUnavailable => "note_attachment_unavailable",
        ErrorCode::ReminderNotFound => "reminder_not_found",
        ErrorCode::ReminderListNotFound => "reminder_list_not_found",
        ErrorCode::ReminderAttachmentNotFound => "reminder_attachment_not_found",
        ErrorCode::ReminderAttachmentUnavailable => "reminder_attachment_unavailable",
        ErrorCode::SmartListReadOnly => "smart_list_read_only",
        ErrorCode::UnsupportedReminderField => "unsupported_reminder_field",
        ErrorCode::CalendarNotFound => "calendar_not_found",
        ErrorCode::CalendarAccountNotFound => "calendar_account_not_found",
        ErrorCode::EventNotFound => "event_not_found",
        ErrorCode::EventAttachmentNotFound => "event_attachment_not_found",
        ErrorCode::EventAttachmentUnavailable => "event_attachment_unavailable",
        ErrorCode::EventEndBeforeStart => "event_end_before_start",
        ErrorCode::UnsupportedAlarmKind => "unsupported_alarm_kind",
        ErrorCode::ImmutableEventField => "immutable_event_field",
        ErrorCode::AmbiguousEventKitMatch => "ambiguous_event_kit_match",
        ErrorCode::ContactNotFound => "contact_not_found",
        ErrorCode::GroupNotFound => "group_not_found",
        ErrorCode::ContainerNotFound => "container_not_found",
        ErrorCode::ContactPhotoNotFound => "contact_photo_not_found",
        ErrorCode::ReadOnlyContainer => "read_only_container",
        ErrorCode::EventkitAccessDenied => "eventkit_access_denied",
        ErrorCode::ContactsAccessDenied => "contacts_access_denied",
        ErrorCode::EventkitUnavailable => "eventkit_unavailable",
        ErrorCode::ContactsUnavailable => "contacts_unavailable",
        ErrorCode::CalendarReadOnly => "calendar_read_only",
        ErrorCode::SqliteSyncPending => "sqlite_sync_pending",
        ErrorCode::ValidationError => "validation_error",
        ErrorCode::ResourceNotFound => "resource_not_found",
        ErrorCode::ServiceUnavailable => "service_unavailable",
        ErrorCode::Forbidden => "forbidden",
        ErrorCode::Conflict => "conflict",
        ErrorCode::UnprocessableEntity => "unprocessable_entity",
    }
}

/// The position of a code in the registry of all codes.
pub open spec fn index_of(code: ErrorCode) -> int {
    match code {
        ErrorCode::RouteNotFound => 0,
        ErrorCode::MethodNotAllowed => 1,
        ErrorCode::InvalidCursor => 2,
        ErrorCode::InvalidLimit => 3,
        ErrorCode::InvalidTimestamp => 4,
        ErrorCode::InvalidParameter => 5,
        ErrorCode::UnsupportedQueryParameter => 6,
        ErrorCode::RequestTimeout => 7,
        ErrorCode::QueryTimeout => 8,
        ErrorCode::GatewayTimeout => 9,
        ErrorCode::InternalError => 10,
        ErrorCode::ByteRangeNotSatisfiable => 11,
        ErrorCode::MessagesDatabaseUnavailable => 12,
        ErrorCode::RemindersDatabaseUnavailable => 13,
        ErrorCode::NotesDatabaseUnavailable => 14,
        ErrorCode::CalendarDatabaseUnavailable => 15,
        ErrorCode::ContactsDatabaseUnavailable => 16,
        ErrorCode::MessageNotFound => 17,
        ErrorCode::ChatNotFound => 18,
        ErrorCode::MessageAttachmentNotFound => 19,
        ErrorCode::MessageAttachmentUnavailable => 20,
        ErrorCode::NoteNotFound => 21,
        ErrorCode::NoteFolderNotFound => 22,
        ErrorCode::NoteAttachmentNotFound => 23,
        ErrorCode::NoteAttachmentUnavailable => 24,
        ErrorCode::ReminderNotFound => 25,
        ErrorCode::ReminderListNotFound => 26,
        ErrorCode::ReminderAttachmentNotFound => 27,
        ErrorCode::ReminderAttachmentUnavailable => 28,
        ErrorCode::SmartListReadOnly => 29,
        ErrorCode::UnsupportedReminderField => 30,
        ErrorCode::CalendarNotFound => 31,
        ErrorCode::CalendarAccountNotFound => 32,
        ErrorCode::EventNotFound => 33,
        ErrorCode::EventAttachmentNotFound => 34,
        ErrorCode::EventAttachmentUnavailable => 35,
        ErrorCode::EventEndBeforeStart => 36,
        ErrorCode::UnsupportedAlarmKind => 37,
        ErrorCode::ImmutableEventField => 38,
        ErrorCode::AmbiguousEventKitMatch => 39,
        ErrorCode::ContactNotFound => 40,
        ErrorCode::GroupNotFound => 41,
        ErrorCode::ContainerNotFound => 42,
        ErrorCode::ContactPhotoNotFound => 43,
        ErrorCode::ReadOnlyContainer => 44,
        ErrorCode::EventkitAccessDenied => 45,
        ErrorCode::ContactsAccessDenied => 46,
        ErrorCode::EventkitUnavailable => 47,
        ErrorCode::ContactsUnavailable => 48,
        ErrorCode::CalendarReadOnly => 49,
        ErrorCode::SqliteSyncPending => 50,
        ErrorCode::ValidationError => 51,
        ErrorCode::ResourceNotFound => 52,
        ErrorCode::ServiceUnavailable => 53,
        ErrorCode::Forbidden => 54,
        ErrorCode::Conflict => 55,
        ErrorCode::UnprocessableEntity => 56,
    }
}

/// The code registered at a position of the registry.
pub open spec fn code_at(i: int) -> ErrorCode {
    if i == 0 {
        ErrorCode::RouteNotFound
    } else if i == 1 {
        ErrorCode::MethodNotAllowed
    } else if i == 2 {
        ErrorCode::InvalidCursor
    } else if i == 3 {
        ErrorCode::InvalidLimit
    } else if i == 4 {
        ErrorCode::InvalidTimestamp
    } else if i == 5 {
        ErrorCode::InvalidParameter
    } else if i == 6 {
        ErrorCode::UnsupportedQueryParameter
    } else if i == 7 {
        ErrorCode::RequestTimeout
    } else if i == 8 {
        ErrorCode::QueryTimeout
    } else if i == 9 {
        ErrorCode::GatewayTimeout
    } else if i == 10 {
        ErrorCode::InternalError
    } else if i == 11 {
        ErrorCode::ByteRangeNotSatisfiable
    } else if i == 12 {
        ErrorCode::MessagesDatabaseUnavailable
    } else if i == 13 {
        ErrorCode::RemindersDatabaseUnavailable
    } else if i == 14 {
        ErrorCode::NotesDatabaseUnavailable
    } else if i == 15 {
        ErrorCode::CalendarDatabaseUnavailable
    } else if i == 16 {
        ErrorCode::ContactsDatabaseUnavailable
    } else if i == 17 {
        ErrorCode::MessageNotFound
    } else if i == 18 {
        ErrorCode::ChatNotFound
    } else if i == 19 {
        ErrorCode::MessageAttachmentNotFound
    } else if i == 20 {
        ErrorCode::MessageAttachmentUnavailable
    } else if i == 21 {
        ErrorCode::NoteNotFound
    } else if i == 22 {
        ErrorCode::NoteFolderNotFound
    } else if i == 23 {
        ErrorCode::NoteAttachmentNotFound
    } else if i == 24 {
        ErrorCode::NoteAttachmentUnavailable
    } else if i == 25 {
        ErrorCode::ReminderNotFound
    } else if i == 26 {
        ErrorCode::ReminderListNotFound
    } else if i == 27 {
        ErrorCode::ReminderAttachmentNotFound
    } else if i == 28 {
        ErrorCode::ReminderAttachmentUnavailable
    } else if i == 29 {
        ErrorCode::SmartListReadOnly
    } else if i == 30 {
        ErrorCode::UnsupportedReminderField
    } else if i == 31 {
        ErrorCode::CalendarNotFound
    } else if i == 32 {
        ErrorCode::CalendarAccountNotFound
    } else if i == 33 {
        ErrorCode::EventNotFound
    } else if i == 34 {
        ErrorCode::EventAttachmentNotFound
    } else if i == 35 {
        ErrorCode::EventAttachmentUnavailable
    } else if i == 36 {
        ErrorCode::EventEndBeforeStart
    } else if i == 37 {
        ErrorCode::UnsupportedAlarmKind
    } else if i == 38 {
        ErrorCode::ImmutableEventField
    } else if i == 39 {
        ErrorCode::AmbiguousEventKitMatch
    } else if i == 40 {
        ErrorCode::ContactNotFound
    } else if i == 41 {
        ErrorCode::GroupNotFound
    } else if i == 42 {
        ErrorCode::ContainerNotFound
    } else if i == 43 {
        ErrorCode::ContactPhotoNotFound
    } else if i == 44 {
        ErrorCode::ReadOnlyContainer
    } else if i == 45 {
        ErrorCode::EventkitAccessDenied
    } else if i == 46 {
        ErrorCode::ContactsAccessDenied
    } else if i == 47 {
        ErrorCode::EventkitUnavailable
    } else if i == 48 {
        ErrorCode::ContactsUnavailable
    } else if i == 49 {
        ErrorCode::CalendarReadOnly
    } else if i == 50 {
        ErrorCode::SqliteSyncPending
    } else if i == 51 {
        ErrorCode::ValidationError
    } else if i == 52 {
        ErrorCode::ResourceNotFound
    } else if i == 53 {
        ErrorCode::ServiceUnavailable
    } else if i == 54 {
        ErrorCode::Forbidden
    } else if i == 55 {
        ErrorCode::Conflict
    } else {
        ErrorCode::UnprocessableEntity
    }
}

impl ErrorCode {
    pub fn http_status(self) -> (status: u16)
        ensures
            status == status_of(self),
    {
        match self {
            ErrorCode::RouteNotFound => 404,
            ErrorCode::MethodNotAllowed => 405,
            ErrorCode::InvalidCursor => 400,
            ErrorCode::InvalidLimit => 400,
            ErrorCode::InvalidTimestamp => 400,
            ErrorCode::InvalidParameter => 400,
            ErrorCode::UnsupportedQueryParameter => 400,
            ErrorCode::RequestTimeout => 504,
            ErrorCode::QueryTimeout => 504,
            ErrorCode::GatewayTimeout => 504,
            ErrorCode::InternalError => 500,
            ErrorCode::ByteRangeNotSatisfiable => 416,
            ErrorCode::MessagesDatabaseUnavailable => 503,
            ErrorCode::RemindersDatabaseUnavailable => 503,
            ErrorCode::NotesDatabaseUnavailable => 503,
            ErrorCode::CalendarDatabaseUnavailable => 503,
            ErrorCode::ContactsDatabaseUnavailable => 503,
            ErrorCode::MessageNotFound => 404,
            ErrorCode::ChatNotFound => 404,
            ErrorCode::MessageAttachmentNotFound => 404,
            ErrorCode::MessageAttachmentUnavailable => 404,
            ErrorCode::NoteNotFound => 404,
            ErrorCode::NoteFolderNotFound => 404,
            ErrorCode::NoteAttachmentNotFound => 404,
            ErrorCode::NoteAttachmentUnavailable => 404,
            ErrorCode::ReminderNotFound => 404,
            ErrorCode::ReminderListNotFound => 404,
            ErrorCode::ReminderAttachmentNotFound => 404,
            ErrorCode::ReminderAttachmentUnavailable => 404,
            ErrorCode::SmartListReadOnly => 403,
            ErrorCode::UnsupportedReminderField => 422,
            ErrorCode::CalendarNotFound => 404,
            ErrorCode::CalendarAccountNotFound => 404,
            ErrorCode::EventNotFound => 404,
            ErrorCode::EventAttachmentNotFound => 404,
            ErrorCode::EventAttachmentUnavailable => 404,
            ErrorCode::EventEndBeforeStart => 422,
            ErrorCode::UnsupportedAlarmKind => 422,
            ErrorCode::ImmutableEventField => 422,
            ErrorCode::AmbiguousEventKitMatch => 409,
            ErrorCode::ContactNotFound => 404,
            ErrorCode::GroupNotFound => 404,
            ErrorCode::ContainerNotFound => 404,
            ErrorCode::ContactPhotoNotFound => 404,
            ErrorCode::ReadOnlyContainer => 403,
            ErrorCode::EventkitAccessDenied => 403,
            ErrorCode::ContactsAccessDenied => 403,
            ErrorCode::EventkitUnavailable => 503,
            ErrorCode::ContactsUnavailable => 503,
            ErrorCode::CalendarReadOnly => 403,
            ErrorCode::SqliteSyncPending => 503,
            ErrorCode::ValidationError => 400,
            ErrorCode::ResourceNotFound => 404,
            ErrorCode::ServiceUnavailable => 503,
            ErrorCode::Forbidden => 403,
            ErrorCode::Conflict => 409,
            ErrorCode::UnprocessableEntity => 422,
        }
    }

    pub fn default_message(self) -> (message: &'static str)
        ensures
            message == message_of(self),
    {
        match self {
            ErrorCode::RouteNotFound => "route not found",
            ErrorCode::MethodNotAllowed => "method not allowed",
            ErrorCode::InvalidCursor => "invalid cursor",
            ErrorCode::InvalidLimit => "invalid limit",
            ErrorCode::InvalidTimestamp => "invalid timestamp",
            ErrorCode::InvalidParameter => "invalid parameter",
            ErrorCode::UnsupportedQueryParameter => "unsupported query parameter",
            ErrorCode::RequestTimeout => "request timed out",
            ErrorCode::QueryTimeout => "database query timed out",
            ErrorCode::GatewayTimeout => "upstream operation timed out",
            ErrorCode::InternalError => "internal server error",
            ErrorCode::ByteRangeNotSatisfiable => "requested byte range is not satisfiable",
            ErrorCode::MessagesDatabaseUnavailable => "Messages database is unavailable",
            ErrorCode::RemindersDatabaseUnavailable => "Reminders database is unavailable",
            ErrorCode::NotesDatabaseUnavailable => "Notes database is unavailable",
            ErrorCode::CalendarDatabaseUnavailable => "Calendar database is unavailable",
            ErrorCode::ContactsDatabaseUnavailable => "Contacts databases are unavailable",
            ErrorCode::MessageNotFound => "message not found",
            ErrorCode::ChatNotFound => "chat not found",
            ErrorCode::MessageAttachmentNotFound => "message attachment not found",
            ErrorCode::MessageAttachmentUnavailable => "message attachment is not available",
            ErrorCode::NoteNotFound => "note not found",
            ErrorCode::NoteFolderNotFound => "note folder not found",
            ErrorCode::NoteAttachmentNotFound => "note attachment not found",
            ErrorCode::NoteAttachmentUnavailable => "note attachment is not available",
            ErrorCode::ReminderNotFound => "reminder not found",
            ErrorCode::ReminderListNotFound => "reminder list not found",
            ErrorCode::ReminderAttachmentNotFound => "reminder attachment not found",
            ErrorCode::ReminderAttachmentUnavailable => "reminder attachment is not available",
            ErrorCode::SmartListReadOnly => "cannot write to smart reminder lists",
            ErrorCode::UnsupportedReminderField => "unsupported reminder field",
            ErrorCode::CalendarNotFound => "calendar not found",
            ErrorCode::CalendarAccountNotFound => "calendar account not found",
            ErrorCode::EventNotFound => "event not found",
            ErrorCode::EventAttachmentNotFound => "event attachment not found",
            ErrorCode::EventAttachmentUnavailable => "event attachment is not available",
            ErrorCode::EventEndBeforeStart => "end must be greater than or equal to start",
            ErrorCode::UnsupportedAlarmKind => "unsupported alarm kind",
            ErrorCode::ImmutableEventField => "event field cannot be written",
            ErrorCode::AmbiguousEventKitMatch => "ambiguous EventKit match",
            ErrorCode::ContactNotFound => "contact not found",
            ErrorCode::GroupNotFound => "group not found",
            ErrorCode::ContainerNotFound => "container not found",
            ErrorCode::ContactPhotoNotFound => "contact photo not found",
            ErrorCode::ReadOnlyContainer => "target container is read-only",
            ErrorCode::EventkitAccessDenied => "EventKit access denied",
            ErrorCode::ContactsAccessDenied => "Contacts access denied",
            ErrorCode::EventkitUnavailable => "EventKit is unavailable on this platform or could not be initialized",
            ErrorCode::ContactsUnavailable => "Contacts framework is unavailable on this platform or could not be initialized",
            ErrorCode::CalendarReadOnly => "target calendar or list is read-only",
            ErrorCode::SqliteSyncPending => "write succeeded but SQLite read path has not caught up yet",
            ErrorCode::ValidationError => "validation error",
            ErrorCode::ResourceNotFound => "resource not found",
            ErrorCode::ServiceUnavailable => "service unavailable",
            ErrorCode::Forbidden => "forbidden",
            ErrorCode::Conflict => "conflict",
            ErrorCode::UnprocessableEntity => "unprocessable entity",
        }
    }

    pub fn as_str(self) -> (name: &'static str)
        ensures
            name == name_of(self),
    {
        match self {
            ErrorCode::RouteNotFound => "route_not_found",
            ErrorCode::MethodNotAllowed => "method_not_allowed",
            ErrorCode::InvalidCursor => "invalid_cursor",
            ErrorCode::InvalidLimit => "invalid_limit",
            ErrorCode::InvalidTimestamp => "invalid_timestamp",
            ErrorCode::InvalidParameter => "invalid_parameter",
            ErrorCode::UnsupportedQueryParameter => "unsupported_query_parameter",
            ErrorCode::RequestTimeout => "request_timeout",
            ErrorCode::QueryTimeout => "query_timeout",
            ErrorCode::GatewayTimeout => "gateway_timeout",
            ErrorCode::InternalError => "internal_error",
            ErrorCode::ByteRangeNotSatisfiable => "byte_range_not_satisfiable",
            ErrorCode::MessagesDatabaseUnavailable => "messages_database_unavailable",
            ErrorCode::RemindersDatabaseUnavailable => "reminders_database_unavailable",
            ErrorCode::NotesDatabaseUnavailable => "notes_database_unavailable",
            ErrorCode::CalendarDatabaseUnavailable => "calendar_database_unavailable",
            ErrorCode::ContactsDatabaseUnavailable => "contacts_database_unavailable",
            ErrorCode::MessageNotFound => "message_not_found",
            ErrorCode::ChatNotFound => "chat_not_found",
            ErrorCode::MessageAttachmentNotFound => "message_attachment_not_found",
            ErrorCode::MessageAttachmentUnavailable => "message_attachment_unavailable",
            ErrorCode::NoteNotFound => "note_not_found",
            ErrorCode::NoteFolderNotFound => "note_folder_not_found",
            ErrorCode::NoteAttachmentNotFound => "note_attachment_not_found",
            ErrorCode::NoteAttachmentUnavailable => "note_attachment_unavailable",
            ErrorCode::ReminderNotFound => "reminder_not_found",
            ErrorCode::ReminderListNotFound => "reminder_list_not_found",
            ErrorCode::ReminderAttachmentNotFound => "reminder_attachment_not_found",
            ErrorCode::ReminderAttachmentUnavailable => "reminder_attachment_unavailable",
            ErrorCode::SmartListReadOnly => "smart_list_read_only",
            ErrorCode::UnsupportedReminderField => "unsupported_reminder_field",
            ErrorCode::CalendarNotFound => "calendar_not_found",
            ErrorCode::CalendarAccountNotFound => "calendar_account_not_found",
            ErrorCode::EventNotFound => "event_not_found",
            ErrorCode::EventAttachmentNotFound => "event_attachment_not_found",
            ErrorCode::EventAttachmentUnavailable => "event_attachment_unavailable",
            ErrorCode::EventEndBeforeStart => "event_end_before_start",
            ErrorCode::UnsupportedAlarmKind => "unsupported_alarm_kind",
            ErrorCode::ImmutableEventField => "immutable_event_field",
            ErrorCode::AmbiguousEventKitMatch => "ambiguous_event_kit_match",
            ErrorCode::ContactNotFound => "contact_not_found",
            ErrorCode::GroupNotFound => "group_not_found",
            ErrorCode::ContainerNotFound => "container_not_found",
            ErrorCode::ContactPhotoNotFound => "contact_photo_not_found",
            ErrorCode::ReadOnlyContainer => "read_only_container",
            ErrorCode::EventkitAccessDenied => "eventkit_access_denied",
            ErrorCode::ContactsAccessDenied => "contacts_access_denied",
            ErrorCode::EventkitUnavailable => "eventkit_unavailable",
            ErrorCode::ContactsUnavailable => "contacts_unavailable",
            ErrorCode::CalendarReadOnly => "calendar_read_only",
            ErrorCode::SqliteSyncPending => "sqlite_sync_pending",
            ErrorCode::ValidationError => "validation_error",
            ErrorCode::ResourceNotFound => "resource_not_found",
            ErrorCode::ServiceUnavailable => "service_unavailable",
            ErrorCode::Forbidden => "forbidden",
            ErrorCode::Conflict => "conflict",
            ErrorCode::UnprocessableEntity => "unprocessable_entity",
        }
    }

    /// Every registered error code, in registry order.
    pub fn all() -> (codes: Vec<ErrorCode>)
        ensures
            codes.len() == ERROR_CODE_COUNT,
            forall|i: int| 0 <= i < ERROR_CODE_COUNT ==> #[trigger] codes@[i] == code_at(i),
    {
        let mut codes: Vec<ErrorCode> = Vec::new();
        codes.push(ErrorCode::RouteNotFound);
        codes.push(ErrorCode::MethodNotAllowed);
        codes.push(ErrorCode::InvalidCursor);
        codes.push(ErrorCode::InvalidLimit);
        codes.push(ErrorCode::InvalidTimestamp);
        codes.push(ErrorCode::InvalidParameter);
        codes.push(ErrorCode::UnsupportedQueryParameter);
        codes.push(ErrorCode::RequestTimeout);
        codes.push(ErrorCode::QueryTimeout);
        codes.push(ErrorCode::GatewayTimeout);
        codes.push(ErrorCode::InternalError);
        codes.push(ErrorCode::ByteRangeNotSatisfiable);
        codes.push(ErrorCode::MessagesDatabaseUnavailable);
        codes.push(ErrorCode::RemindersDatabaseUnavailable);
        codes.push(ErrorCode::NotesDatabaseUnavailable);
        codes.push(ErrorCode::CalendarDatabaseUnavailable);
        codes.push(ErrorCode::ContactsDatabaseUnavailable);
        codes.push(ErrorCode::MessageNotFound);
        codes.push(ErrorCode::ChatNotFound);
        codes.push(ErrorCode::MessageAttachmentNotFound);
        codes.push(ErrorCode::MessageAttachmentUnavailable);
        codes.push(ErrorCode::NoteNotFound);
        codes.push(ErrorCode::NoteFolderNotFound);
        codes.push(ErrorCode::NoteAttachmentNotFound);
        codes.push(ErrorCode::NoteAttachmentUnavailable);
        codes.push(ErrorCode::ReminderNotFound);
        codes.push(ErrorCode::ReminderListNotFound);
        codes.push(ErrorCode::ReminderAttachmentNotFound);
        codes.push(ErrorCode::ReminderAttachmentUnavailable);
        codes.push(ErrorCode::SmartListReadOnly);
        codes.push(ErrorCode::UnsupportedReminderField);
        codes.push(ErrorCode::CalendarNotFound);
        codes.push(ErrorCode::CalendarAccountNotFound);
        codes.push(ErrorCode::EventNotFound);
        codes.push(ErrorCode::EventAttachmentNotFound);
        codes.push(ErrorCode::EventAttachmentUnavailable);
        codes.push(ErrorCode::EventEndBeforeStart);
        codes.push(ErrorCode::UnsupportedAlarmKind);
        codes.push(ErrorCode::ImmutableEventField);
        codes.push(ErrorCode::AmbiguousEventKitMatch);
        codes.push(ErrorCode::ContactNotFound);
        codes.push(ErrorCode::GroupNotFound);
        codes.push(ErrorCode::ContainerNotFound);
        codes.push(ErrorCode::ContactPhotoNotFound);
        codes.push(ErrorCode::ReadOnlyContainer);
        codes.push(ErrorCode::EventkitAccessDenied);
        codes.push(ErrorCode::ContactsAccessDenied);
        codes.push(ErrorCode::EventkitUnavailable);
        codes.push(ErrorCode::ContactsUnavailable);
        codes.push(ErrorCode::CalendarReadOnly);
        codes.push(ErrorCode::SqliteSyncPending);
        codes.push(ErrorCode::ValidationError);
        codes.push(ErrorCode::ResourceNotFound);
        codes.push(ErrorCode::ServiceUnavailable);
        codes.push(ErrorCode::Forbidden);
        codes.push(ErrorCode::Conflict);
        codes.push(ErrorCode::UnprocessableEntity);
        codes
    }
}

/// The registry of codes lists every code, each at the position that `index_of` gives it.
pub proof fn law_registry_is_complete(code: ErrorCode)
    ensures
        0 <= index_of(code) < ERROR_CODE_COUNT,
        code_at(index_of(code)) == code,
{
}

/// No code occurs twice in the registry: distinct positions hold distinct codes.
pub proof fn law_registry_has_no_duplicates(i: int, j: int)
    requires
        0 <= i < ERROR_CODE_COUNT,
        0 <= j < ERROR_CODE_COUNT,
        i != j,
    ensures
        code_at(i) != code_at(j),
{
    assert(index_of(code_at(i)) == i);
    assert(index_of(code_at(j)) == j);
}

/// Every code maps to an HTTP client or server error status, and only to the statuses the
/// API documents.
pub proof fn law_status_is_an_error_status(code: ErrorCode)
    ensures
        400 <= status_of(code) <= 599,
        status_of(code) == 400 || status_of(code) == 403 || status_of(code) == 404
            || status_of(code) == 405 || status_of(code) == 409 || status_of(code) == 416
            || status_of(code) == 422 || status_of(code) == 500 || status_of(code) == 503
            || status_of(code) == 504,
{
}


/// Every code has a non-empty default message and a non-empty name.
#[verifier::rlimit(50)]
pub proof fn law_every_code_is_described(code: ErrorCode)
    ensures
        message_of(code)@.len() > 0,
        name_of(code)@.len() > 0,
{
    reveal_strlit("Calendar database is unavailable");
    reveal_strlit("Contacts access denied");
    reveal_strlit("Contacts databases are unavailable");
    reveal_strlit("Contacts framework is unavailable on this platform or could not be initialized");
    reveal_strlit("EventKit access denied");
    reveal_strlit("EventKit is unavailable on this platform or could not be initialized");
    reveal_strlit("Messages database is unavailable");
    reveal_strlit("Notes database is unavailable");
    reveal_strlit("Reminders database is unavailable");
    reveal_strlit("ambiguous EventKit match");
    reveal_strlit("ambiguous_event_kit_match");
    reveal_strlit("byte_range_not_satisfiable");
    reveal_strlit("calendar account not found");
    reveal_strlit("calendar not found");
    reveal_strlit("calendar_account_not_found");
    reveal_strlit("calendar_database_unavailable");
    reveal_strlit("calendar_not_found");
    reveal_strlit("calendar_read_only");
    reveal_strlit("cannot write to smart reminder lists");
    reveal_strlit("chat not found");
    reveal_strlit("chat_not_found");
    reveal_strlit("conflict");
    reveal_strlit("contact not found");
    reveal_strlit("contact photo not found");
    reveal_strlit("contact_not_found");
    reveal_strlit("contact_photo_not_found");
    reveal_strlit("contacts_access_denied");
    reveal_strlit("contacts_database_unavailable");
    reveal_strlit("contacts_unavailable");
    reveal_strlit("container not found");
    reveal_strlit("container_not_found");
    reveal_strlit("database query timed out");
    reveal_strlit("end must be greater than or equal to start");
    reveal_strlit("event attachment is not available");
    reveal_strlit("event attachment not found");
    reveal_strlit("event field cannot be written");
    reveal_strlit("event not found");
    reveal_strlit("event_attachment_not_found");
    reveal_strlit("event_attachment_unavailable");
    reveal_strlit("event_end_before_start");
    reveal_strlit("event_not_found");
    reveal_strlit("eventkit_access_denied");
    reveal_strlit("eventkit_unavailable");
    reveal_strlit("forbidden");
    reveal_strlit("gateway_timeout");
    reveal_strlit("group not found");
    reveal_strlit("group_not_found");
    reveal_strlit("immutable_event_field");
    reveal_strlit("internal server error");
    reveal_strlit("internal_error");
    reveal_strlit("invalid cursor");
    reveal_strlit("invalid limit");
    reveal_strlit("invalid parameter");
    reveal_strlit("invalid timestamp");
    reveal_strlit("invalid_cursor");
    reveal_strlit("invalid_limit");
    reveal_strlit("invalid_parameter");
    reveal_strlit("invalid_timestamp");
    reveal_strlit("message attachment is not available");
    reveal_strlit("message attachment not found");
    reveal_strlit("message not found");
    reveal_strlit("message_attachment_not_found");
    reveal_strlit("message_attachment_unavailable");
    reveal_strlit("message_not_found");
    reveal_strlit("messages_database_unavailable");
    reveal_strlit("method not allowed");
    reveal_strlit("method_not_allowed");
    reveal_strlit("note attachment is not available");
    reveal_strlit("note attachment not found");
    reveal_strlit("note folder not found");
    reveal_strlit("note not found");
    reveal_strlit("note_attachment_not_found");
    reveal_strlit("note_attachment_unavailable");
    reveal_strlit("note_folder_not_found");
    reveal_strlit("note_not_found");
    reveal_strlit("notes_database_unavailable");
    reveal_strlit("query_timeout");
    reveal_strlit("read_only_container");
    reveal_strlit("reminder attachment is not available");
    reveal_strlit("reminder attachment not found");
    reveal_strlit("reminder list not found");
    reveal_strlit("reminder not found");
    reveal_strlit("reminder_attachment_not_found");
    reveal_strlit("reminder_attachment_unavailable");
    reveal_strlit("reminder_list_not_found");
    reveal_strlit("reminder_not_found");
    reveal_strlit("reminders_database_unavailable");
    reveal_strlit("request timed out");
    reveal_strlit("request_timeout");
    reveal_strlit("requested byte range is not satisfiable");
    reveal_strlit("resource not found");
    reveal_strlit("resource_not_found");
    reveal_strlit("route not found");
    reveal_strlit("route_not_found");
    reveal_strlit("service unavailable");
    reveal_strlit("service_unavailable");
    reveal_strlit("smart_list_read_only");
    reveal_strlit("sqlite_sync_pending");
    reveal_strlit("target calendar or list is read-only");
    reveal_strlit("target container is read-only");
    reveal_strlit("unprocessable entity");
    reveal_strlit("unprocessable_entity");
    reveal_strlit("unsupported alarm kind");
    reveal_strlit("unsupported query parameter");
    reveal_strlit("unsupported reminder field");
    reveal_strlit("unsupported_alarm_kind");
    reveal_strlit("unsupported_query_parameter");
    reveal_strlit("unsupported_reminder_field");
    reveal_strlit("upstream operation timed out");
    reveal_strlit("validation error");
    reveal_strlit("validation_error");
    reveal_strlit("write succeeded but SQLite read path has not caught up yet");
}

/// Three features of a code name that tell every registered name apart: its length, its
/// third character and its fifth character from the end.
pub open spec fn name_features(name: Seq<char>) -> (int, char, char) {
    (name.len() as int, name[2], name[name.len() - 5])
}

/// The code whose name has the features `f`, if any.
pub open spec fn code_with_name_features(f: (int, char, char)) -> Option<ErrorCode> {
    if f == (15int, 'u', 'f') {
        Some(ErrorCode::RouteNotFound)
    } else if f == (18int, 't', 'l') {
        Some(ErrorCode::MethodNotAllowed)
    } else if f == (14int, 'v', 'u') {
        Some(ErrorCode::InvalidCursor)
    } else if f == (13int, 'v', 'l') {
        Some(ErrorCode::InvalidLimit)
    } else if f == (17int, 'v', 's') {
        Some(ErrorCode::InvalidTimestamp)
    } else if f == (17int, 'v', 'm') {
        Some(ErrorCode::InvalidParameter)
    } else if f == (27int, 's', 'm') {
        Some(ErrorCode::UnsupportedQueryParameter)
    } else if f == (15int, 'q', 'm') {
        Some(ErrorCode::RequestTimeout)
    } else if f == (13int, 'e', 'm') {
        Some(ErrorCode::QueryTimeout)
    } else if f == (15int, 't', 'm') {
        Some(ErrorCode::GatewayTimeout)
    } else if f == (14int, 't', 'e') {
        Some(ErrorCode::InternalError)
    } else if f == (26int, 't', 'i') {
        Some(ErrorCode::ByteRangeNotSatisfiable)
    } else if f == (29int, 's', 'l') {
        Some(ErrorCode::MessagesDatabaseUnavailable)
    } else if f == (30int, 'm', 'l') {
        Some(ErrorCode::RemindersDatabaseUnavailable)
    } else if f == (26int, 't', 'l') {
        Some(ErrorCode::NotesDatabaseUnavailable)
    } else if f == (29int, 'l', 'l') {
        Some(ErrorCode::CalendarDatabaseUnavailable)
    } else if f == (29int, 'n', 'l') {
        Some(ErrorCode::ContactsDatabaseUnavailable)
    } else if f == (17int, 's', 'f') {
        Some(ErrorCode::MessageNotFound)
    } else if f == (14int, 'a', 'f') {
        Some(ErrorCode::ChatNotFound)
    } else if f == (28int, 's', 'f') {
        Some(ErrorCode::MessageAttachmentNotFound)
    } else if f == (30int, 's', 'l') {
        Some(ErrorCode::MessageAttachmentUnavailable)
    } else if f == (14int, 't', 'f') {
        Some(ErrorCode::NoteNotFound)
    } else if f == (21int, 't', 'f') {
        Some(ErrorCode::NoteFolderNotFound)
    } else if f == (25int, 't', 'f') {
        Some(ErrorCode::NoteAttachmentNotFound)
    } else if f == (27int, 't', 'l') {
        Some(ErrorCode::NoteAttachmentUnavailable)
    } else if f == (18int, 'm', 'f') {
        Some(ErrorCode::ReminderNotFound)
    } else if f == (23int, 'm', 'f') {
        Some(ErrorCode::ReminderListNotFound)
    } else if f == (29int, 'm', 'f') {
        Some(ErrorCode::ReminderAttachmentNotFound)
    } else if f == (31int, 'm', 'l') {
        Some(ErrorCode::ReminderAttachmentUnavailable)
    } else if f == (20int, 'a', '_') {
        Some(ErrorCode::SmartListReadOnly)
    } else if f == (26int, 's', 'f') {
        Some(ErrorCode::UnsupportedReminderField)
    } else if f == (18int, 'l', 'f') {
        Some(ErrorCode::CalendarNotFound)
    } else if f == (26int, 'l', 'f') {
        Some(ErrorCode::CalendarAccountNotFound)
    } else if f == (15int, 'e', 'f') {
        Some(ErrorCode::EventNotFound)
    } else if f == (26int, 'e', 'f') {
        Some(ErrorCode::EventAttachmentNotFound)
    } else if f == (28int, 'e', 'l') {
        Some(ErrorCode::EventAttachmentUnavailable)
    } else if f == (22int, 'e', 's') {
        Some(ErrorCode::EventEndBeforeStart)
    } else if f == (22int, 's', '_') {
        Some(ErrorCode::UnsupportedAlarmKind)
    } else if f == (21int, 'm', 'f') {
        Some(ErrorCode::ImmutableEventField)
    } else if f == (25int, 'b', 'm') {
        Some(ErrorCode::AmbiguousEventKitMatch)
    } else if f == (17int, 'n', 'f') {
        Some(ErrorCode::ContactNotFound)
    } else if f == (15int, 'o', 'f') {
        Some(ErrorCode::GroupNotFound)
    } else if f == (19int, 'n', 'f') {
        Some(ErrorCode::ContainerNotFound)
    } else if f == (23int, 'n', 'f') {
        Some(ErrorCode::ContactPhotoNotFound)
    } else if f == (19int, 'a', 'a') {
        Some(ErrorCode::ReadOnlyContainer)
    } else if f == (22int, 'e', 'e') {
        Some(ErrorCode::EventkitAccessDenied)
    } else if f == (22int, 'n', 'e') {
        Some(ErrorCode::ContactsAccessDenied)
    } else if f == (20int, 'e', 'l') {
        Some(ErrorCode::EventkitUnavailable)
    } else if f == (20int, 'n', 'l') {
        Some(ErrorCode::ContactsUnavailable)
    } else if f == (18int, 'l', '_') {
        Some(ErrorCode::CalendarReadOnly)
    } else if f == (19int, 'l', 'n') {
        Some(ErrorCode::SqliteSyncPending)
    } else if f == (16int, 'l', 'e') {
        Some(ErrorCode::ValidationError)
    } else if f == (18int, 's', 'f') {
        Some(ErrorCode::ResourceNotFound)
    } else if f == (19int, 'r', 'l') {
        Some(ErrorCode::ServiceUnavailable)
    } else if f == (9int, 'r', 'i') {
        Some(ErrorCode::Forbidden)
    } else if f == (8int, 'n', 'f') {
        Some(ErrorCode::Conflict)
    } else if f == (20int, 'p', 'n') {
        Some(ErrorCode::UnprocessableEntity)
    } else {
        None
    }
}

/// The features of a code's name lead back to the code.
proof fn lemma_name_features_identify_code(code: ErrorCode)
    ensures
        code_with_name_features(name_features(name_of(code)@)) == Some(code),
{
    match code {
        ErrorCode::RouteNotFound => reveal_strlit("route_not_found"),
        ErrorCode::MethodNotAllowed => reveal_strlit("method_not_allowed"),
        ErrorCode::InvalidCursor => reveal_strlit("invalid_cursor"),
        ErrorCode::InvalidLimit => reveal_strlit("invalid_limit"),
        ErrorCode::InvalidTimestamp => reveal_strlit("invalid_timestamp"),
        ErrorCode::InvalidParameter => reveal_strlit("invalid_parameter"),
        ErrorCode::UnsupportedQueryParameter => reveal_strlit("unsupported_query_parameter"),
        ErrorCode::RequestTimeout => reveal_strlit("request_timeout"),
        ErrorCode::QueryTimeout => reveal_strlit("query_timeout"),
        ErrorCode::GatewayTimeout => reveal_strlit("gateway_timeout"),
        ErrorCode::InternalError => reveal_strlit("internal_error"),
        ErrorCode::ByteRangeNotSatisfiable => reveal_strlit("byte_range_not_satisfiable"),
        ErrorCode::MessagesDatabaseUnavailable => reveal_strlit("messages_database_unavailable"),
        ErrorCode::RemindersDatabaseUnavailable => reveal_strlit("reminders_database_unavailable"),
        ErrorCode::NotesDatabaseUnavailable => reveal_strlit("notes_database_unavailable"),
        ErrorCode::CalendarDatabaseUnavailable => reveal_strlit("calendar_database_unavailable"),
        ErrorCode::ContactsDatabaseUnavailable => reveal_strlit("contacts_database_unavailable"),
        ErrorCode::MessageNotFound => reveal_strlit("message_not_found"),
        ErrorCode::ChatNotFound => reveal_strlit("chat_not_found"),
        ErrorCode::MessageAttachmentNotFound => reveal_strlit("message_attachment_not_found"),
        ErrorCode::MessageAttachmentUnavailable => reveal_strlit("message_attachment_unavailable"),
        ErrorCode::NoteNotFound => reveal_strlit("note_not_found"),
        ErrorCode::NoteFolderNotFound => reveal_strlit("note_folder_not_found"),
        ErrorCode::NoteAttachmentNotFound => reveal_strlit("note_attachment_not_found"),
        ErrorCode::NoteAttachmentUnavailable => reveal_strlit("note_attachment_unavailable"),
        ErrorCode::ReminderNotFound => reveal_strlit("reminder_not_found"),
        ErrorCode::ReminderListNotFound => reveal_strlit("reminder_list_not_found"),
        ErrorCode::ReminderAttachmentNotFound => reveal_strlit("reminder_attachment_not_found"),
        ErrorCode::ReminderAttachmentUnavailable => reveal_strlit("reminder_attachment_unavailable"),
        ErrorCode::SmartListReadOnly => reveal_strlit("smart_list_read_only"),
        ErrorCode::UnsupportedReminderField => reveal_strlit("unsupported_reminder_field"),
        ErrorCode::CalendarNotFound => reveal_strlit("calendar_not_found"),
        ErrorCode::CalendarAccountNotFound => reveal_strlit("calendar_account_not_found"),
        ErrorCode::EventNotFound => reveal_strlit("event_not_found"),
        ErrorCode::EventAttachmentNotFound => reveal_strlit("event_attachment_not_found"),
        ErrorCode::EventAttachmentUnavailable => reveal_strlit("event_attachment_unavailable"),
        ErrorCode::EventEndBeforeStart => reveal_strlit("event_end_before_start"),
        ErrorCode::UnsupportedAlarmKind => reveal_strlit("unsupported_alarm_kind"),
        ErrorCode::ImmutableEventField => reveal_strlit("immutable_event_field"),
        ErrorCode::AmbiguousEventKitMatch => reveal_strlit("ambiguous_event_kit_match"),
        ErrorCode::ContactNotFound => reveal_strlit("contact_not_found"),
        ErrorCode::GroupNotFound => reveal_strlit("group_not_found"),
        ErrorCode::ContainerNotFound => reveal_strlit("container_not_found"),
        ErrorCode::ContactPhotoNotFound => reveal_strlit("contact_photo_not_found"),
        ErrorCode::ReadOnlyContainer => reveal_strlit("read_only_container"),
        ErrorCode::EventkitAccessDenied => reveal_strlit("eventkit_access_denied"),
        ErrorCode::ContactsAccessDenied => reveal_strlit("contacts_access_denied"),
        ErrorCode::EventkitUnavailable => reveal_strlit("eventkit_unavailable"),
        ErrorCode::ContactsUnavailable => reveal_strlit("contacts_unavailable"),
        ErrorCode::CalendarReadOnly => reveal_strlit("calendar_read_only"),
        ErrorCode::SqliteSyncPending => reveal_strlit("sqlite_sync_pending"),
        ErrorCode::ValidationError => reveal_strlit("validation_error"),
        ErrorCode::ResourceNotFound => reveal_strlit("resource_not_found"),
        ErrorCode::ServiceUnavailable => reveal_strlit("service_unavailable"),
        ErrorCode::Forbidden => reveal_strlit("forbidden"),
        ErrorCode::Conflict => reveal_strlit("conflict"),
        ErrorCode::UnprocessableEntity => reveal_strlit("unprocessable_entity"),
    }
}

/// Distinct codes have distinct names, so a client can tell every error apart by its `code`.
pub proof fn law_code_names_are_distinct(a: ErrorCode, b: ErrorCode)
    requires
        a != b,
    ensures
        name_of(a)@ != name_of(b)@,
{
    lemma_name_features_identify_code(a);
    lemma_name_features_identify_code(b);
}

/// A character of a snake_case code name: a lowercase ASCII letter or `_`.
pub open spec fn is_snake_char(c: char) -> bool {
    ('a' <= c && c <= 'z') || c == '_'
}

/// Every code name is snake_case: lowercase ASCII letters and underscores only.
#[verifier::rlimit(100)]
pub proof fn law_code_names_are_snake_case(code: ErrorCode)
    ensures
        forall|i: int| 0 <= i < name_of(code)@.len() ==> is_snake_char(#[trigger] name_of(code)@[i]),
{
    match code {
        ErrorCode::RouteNotFound => reveal_strlit("route_not_found"),
        ErrorCode::MethodNotAllowed => reveal_strlit("method_not_allowed"),
        ErrorCode::InvalidCursor => reveal_strlit("invalid_cursor"),
        ErrorCode::InvalidLimit => reveal_strlit("invalid_limit"),
        ErrorCode::InvalidTimestamp => reveal_strlit("invalid_timestamp"),
        ErrorCode::InvalidParameter => reveal_strlit("invalid_parameter"),
        ErrorCode::UnsupportedQueryParameter => reveal_strlit("unsupported_query_parameter"),
        ErrorCode::RequestTimeout => reveal_strlit("request_timeout"),
        ErrorCode::QueryTimeout => reveal_strlit("query_timeout"),
        ErrorCode::GatewayTimeout => reveal_strlit("gateway_timeout"),
        ErrorCode::InternalError => reveal_strlit("internal_error"),
        ErrorCode::ByteRangeNotSatisfiable => reveal_strlit("byte_range_not_satisfiable"),
        ErrorCode::MessagesDatabaseUnavailable => reveal_strlit("messages_database_unavailable"),
        ErrorCode::RemindersDatabaseUnavailable => reveal_strlit("reminders_database_unavailable"),
        ErrorCode::NotesDatabaseUnavailable => reveal_strlit("notes_database_unavailable"),
        ErrorCode::CalendarDatabaseUnavailable => reveal_strlit("calendar_database_unavailable"),
        ErrorCode::ContactsDatabaseUnavailable => reveal_strlit("contacts_database_unavailable"),
        ErrorCode::MessageNotFound => reveal_strlit("message_not_found"),
        ErrorCode::ChatNotFound => reveal_strlit("chat_not_found"),
        ErrorCode::MessageAttachmentNotFound => reveal_strlit("message_attachment_not_found"),
        ErrorCode::MessageAttachmentUnavailable => reveal_strlit("message_attachment_unavailable"),
        ErrorCode::NoteNotFound => reveal_strlit("note_not_found"),
        ErrorCode::NoteFolderNotFound => reveal_strlit("note_folder_not_found"),
        ErrorCode::NoteAttachmentNotFound => reveal_strlit("note_attachment_not_found"),
        ErrorCode::NoteAttachmentUnavailable => reveal_strlit("note_attachment_unavailable"),
        ErrorCode::ReminderNotFound => reveal_strlit("reminder_not_found"),
        ErrorCode::ReminderListNotFound => reveal_strlit("reminder_list_not_found"),
        ErrorCode::ReminderAttachmentNotFound => reveal_strlit("reminder_attachment_not_found"),
        ErrorCode::ReminderAttachmentUnavailable => reveal_strlit("reminder_attachment_unavailable"),
        ErrorCode::SmartListReadOnly => reveal_strlit("smart_list_read_only"),
        ErrorCode::UnsupportedReminderField => reveal_strlit("unsupported_reminder_field"),
        ErrorCode::CalendarNotFound => reveal_strlit("calendar_not_found"),
        ErrorCode::CalendarAccountNotFound => reveal_strlit("calendar_account_not_found"),
        ErrorCode::EventNotFound => reveal_strlit("event_not_found"),
        ErrorCode::EventAttachmentNotFound => reveal_strlit("event_attachment_not_found"),
        ErrorCode::EventAttachmentUnavailable => reveal_strlit("event_attachment_unavailable"),
        ErrorCode::EventEndBeforeStart => reveal_strlit("event_end_before_start"),
        ErrorCode::UnsupportedAlarmKind => reveal_strlit("unsupported_alarm_kind"),
        ErrorCode::ImmutableEventField => reveal_strlit("immutable_event_field"),
        ErrorCode::AmbiguousEventKitMatch => reveal_strlit("ambiguous_event_kit_match"),
        ErrorCode::ContactNotFound => reveal_strlit("contact_not_found"),
        ErrorCode::GroupNotFound => reveal_strlit("group_not_found"),
        ErrorCode::ContainerNotFound => reveal_strlit("container_not_found"),
        ErrorCode::ContactPhotoNotFound => reveal_strlit("contact_photo_not_found"),
        ErrorCode::ReadOnlyContainer => reveal_strlit("read_only_container"),
        ErrorCode::EventkitAccessDenied => reveal_strlit("eventkit_access_denied"),
        ErrorCode::ContactsAccessDenied => reveal_strlit("contacts_access_denied"),
        ErrorCode::EventkitUnavailable => reveal_strlit("eventkit_unavailable"),
        ErrorCode::ContactsUnavailable => reveal_strlit("contacts_unavailable"),
        ErrorCode::CalendarReadOnly => reveal_strlit("calendar_read_only"),
        ErrorCode::SqliteSyncPending => reveal_strlit("sqlite_sync_pending"),
        ErrorCode::ValidationError => reveal_strlit("validation_error"),
        ErrorCode::ResourceNotFound => reveal_strlit("resource_not_found"),
        ErrorCode::ServiceUnavailable => reveal_strlit("service_unavailable"),
        ErrorCode::Forbidden => reveal_strlit("forbidden"),
        ErrorCode::Conflict => reveal_strlit("conflict"),
        ErrorCode::UnprocessableEntity => reveal_strlit("unprocessable_entity"),
    }
}

/// Every code named `..._not_found` answers `404 Not Found`.
pub proof fn law_not_found_codes_are_404(code: ErrorCode)
    ensures
        has_suffix(name_of(code)@, "_not_found"@) ==> status_of(code) == 404,
{
    reveal_strlit("_not_found");
    match code {
        ErrorCode::RouteNotFound => reveal_strlit("route_not_found"),
        ErrorCode::MethodNotAllowed => {
            reveal_strlit("method_not_allowed");
            assert("method_not_allowed"@.skip(8)[0] != "_not_found"@[0]);
        },
        ErrorCode::InvalidCursor => {
            reveal_strlit("invalid_cursor");
            assert("invalid_cursor"@.skip(4)[0] != "_not_found"@[0]);
        },
        ErrorCode::InvalidLimit => {
            reveal_strlit("invalid_limit");
            assert("invalid_limit"@.skip(3)[0] != "_not_found"@[0]);
        },
        ErrorCode::InvalidTimestamp => {
            reveal_strlit("invalid_timestamp");
            assert("invalid_timestamp"@.skip(7)[1] != "_not_found"@[1]);
        },
        ErrorCode::InvalidParameter => {
            reveal_strlit("invalid_parameter");
            assert("invalid_parameter"@.skip(7)[1] != "_not_found"@[1]);
        },
        ErrorCode::UnsupportedQueryParameter => {
            reveal_strlit("unsupported_query_parameter");
            assert("unsupported_query_parameter"@.skip(17)[1] != "_not_found"@[1]);
        },
        ErrorCode::RequestTimeout => {
            reveal_strlit("request_timeout");
            assert("request_timeout"@.skip(5)[0] != "_not_found"@[0]);
        },
        ErrorCode::QueryTimeout => {
            reveal_strlit("query_timeout");
            assert("query_timeout"@.skip(3)[0] != "_not_found"@[0]);
        },
        ErrorCode::GatewayTimeout => {
            reveal_strlit("gateway_timeout");
            assert("gateway_timeout"@.skip(5)[0] != "_not_found"@[0]);
        },
        ErrorCode::InternalError => {
            reveal_strlit("internal_error");
            assert("internal_error"@.skip(4)[0] != "_not_found"@[0]);
        },
        ErrorCode::ByteRangeNotSatisfiable => {
            reveal_strlit("byte_range_not_satisfiable");
            assert("byte_range_not_satisfiable"@.skip(16)[0] != "_not_found"@[0]);
        },
        ErrorCode::MessagesDatabaseUnavailable => {
            reveal_strlit("messages_database_unavailable");
            assert("messages_database_unavailable"@.skip(19)[0] != "_not_found"@[0]);
        },
        ErrorCode::RemindersDatabaseUnavailable => {
            reveal_strlit("reminders_database_unavailable");
            assert("reminders_database_unavailable"@.skip(20)[0] != "_not_found"@[0]);
        },
        ErrorCode::NotesDatabaseUnavailable => {
            reveal_strlit("notes_database_unavailable");
            assert("notes_database_unavailable"@.skip(16)[0] != "_not_found"@[0]);
        },
        ErrorCode::CalendarDatabaseUnavailable => {
            reveal_strlit("calendar_database_unavailable");
            assert("calendar_database_unavailable"@.skip(19)[0] != "_not_found"@[0]);
        },
        ErrorCode::ContactsDatabaseUnavailable => {
            reveal_strlit("contacts_database_unavailable");
            assert("contacts_database_unavailable"@.skip(19)[0] != "_not_found"@[0]);
        },
        ErrorCode::MessageNotFound => reveal_strlit("message_not_found"),
        ErrorCode::ChatNotFound => reveal_strlit("chat_not_found"),
        ErrorCode::MessageAttachmentNotFound => reveal_strlit("message_attachment_not_found"),
        ErrorCode::MessageAttachmentUnavailable => {},
        ErrorCode::NoteNotFound => reveal_strlit("note_not_found"),
        ErrorCode::NoteFolderNotFound => reveal_strlit("note_folder_not_found"),
        ErrorCode::NoteAttachmentNotFound => reveal_strlit("note_attachment_not_found"),
        ErrorCode::NoteAttachmentUnavailable => {},
        ErrorCode::ReminderNotFound => reveal_strlit("reminder_not_found"),
        ErrorCode::ReminderListNotFound => reveal_strlit("reminder_list_not_found"),
        ErrorCode::ReminderAttachmentNotFound => reveal_strlit("reminder_attachment_not_found"),
        ErrorCode::ReminderAttachmentUnavailable => {},
        ErrorCode::SmartListReadOnly => {
            reveal_strlit("smart_list_read_only");
            assert("smart_list_read_only"@.skip(10)[1] != "_not_found"@[1]);
        },
        ErrorCode::UnsupportedReminderField => {
            reveal_strlit("unsupported_reminder_field");
            assert("unsupported_reminder_field"@.skip(16)[0] != "_not_found"@[0]);
        },
        ErrorCode::CalendarNotFound => reveal_strlit("calendar_not_found"),
        ErrorCode::CalendarAccountNotFound => reveal_strlit("calendar_account_not_found"),
        ErrorCode::EventNotFound => reveal_strlit("event_not_found"),
        ErrorCode::EventAttachmentNotFound => reveal_strlit("event_attachment_not_found"),
        ErrorCode::EventAttachmentUnavailable => {},
        ErrorCode::EventEndBeforeStart => {
            reveal_strlit("event_end_before_start");
            assert("event_end_before_start"@.skip(12)[0] != "_not_found"@[0]);
        },
        ErrorCode::UnsupportedAlarmKind => {
            reveal_strlit("unsupported_alarm_kind");
            assert("unsupported_alarm_kind"@.skip(12)[0] != "_not_found"@[0]);
        },
        ErrorCode::ImmutableEventField => {
            reveal_strlit("immutable_event_field");
            assert("immutable_event_field"@.skip(11)[0] != "_not_found"@[0]);
        },
        ErrorCode::AmbiguousEventKitMatch => {
            reveal_strlit("ambiguous_event_kit_match");
            assert("ambiguous_event_kit_match"@.skip(15)[1] != "_not_found"@[1]);
        },
        ErrorCode::ContactNotFound => reveal_strlit("contact_not_found"),
        ErrorCode::GroupNotFound => reveal_strlit("group_not_found"),
        ErrorCode::ContainerNotFound => reveal_strlit("container_not_found"),
        ErrorCode::ContactPhotoNotFound => reveal_strlit("contact_photo_not_found"),
        ErrorCode::ReadOnlyContainer => {
            reveal_strlit("read_only_container");
            assert("read_only_container"@.skip(9)[1] != "_not_found"@[1]);
        },
        ErrorCode::EventkitAccessDenied => {
            reveal_strlit("eventkit_access_denied");
            assert("eventkit_access_denied"@.skip(12)[0] != "_not_found"@[0]);
        },
        ErrorCode::ContactsAccessDenied => {
            reveal_strlit("contacts_access_denied");
            assert("contacts_access_denied"@.skip(12)[0] != "_not_found"@[0]);
        },
        ErrorCode::EventkitUnavailable => {
            reveal_strlit("eventkit_unavailable");
            assert("eventkit_unavailable"@.skip(10)[0] != "_not_found"@[0]);
        },
        ErrorCode::ContactsUnavailable => {
            reveal_strlit("contacts_unavailable");
            assert("contacts_unavailable"@.skip(10)[0] != "_not_found"@[0]);
        },
        ErrorCode::CalendarReadOnly => {
            reveal_strlit("calendar_read_only");
            assert("calendar_read_only"@.skip(8)[1] != "_not_found"@[1]);
        },
        ErrorCode::SqliteSyncPending => {
            reveal_strlit("sqlite_sync_pending");
            assert("sqlite_sync_pending"@.skip(9)[0] != "_not_found"@[0]);
        },
        ErrorCode::ValidationError => {
            reveal_strlit("validation_error");
            assert("validation_error"@.skip(6)[0] != "_not_found"@[0]);
        },
        ErrorCode::ResourceNotFound => reveal_strlit("resource_not_found"),
        ErrorCode::ServiceUnavailable => {
            reveal_strlit("service_unavailable");
            assert("service_unavailable"@.skip(9)[0] != "_not_found"@[0]);
        },
        ErrorCode::Forbidden => {
            reveal_strlit("forbidden");
            assert("forbidden"@.len() == 9);
        },
        ErrorCode::Conflict => {
            reveal_strlit("conflict");
            assert("conflict"@.len() == 8);
        },
        ErrorCode::UnprocessableEntity => {
            reveal_strlit("unprocessable_entity");
            assert("unprocessable_entity"@.skip(10)[0] != "_not_found"@[0]);
        },
    }
}

/// Every code named `invalid_...` answers `400 Bad Request`.
pub proof fn law_invalid_codes_are_400(code: ErrorCode)
    ensures
        has_prefix(name_of(code)@, "invalid_"@) ==> status_of(code) == 400,
{
    reveal_strlit("invalid_");
    match code {
        ErrorCode::RouteNotFound => {
            reveal_strlit("route_not_found");
            assert("route_not_found"@.take(8)[0] != "invalid_"@[0]);
        },
        ErrorCode::MethodNotAllowed => {
            reveal_strlit("method_not_allowed");
            assert("method_not_allowed"@.take(8)[0] != "invalid_"@[0]);
        },
        ErrorCode::InvalidCursor => reveal_strlit("invalid_cursor"),
        ErrorCode::InvalidLimit => reveal_strlit("invalid_limit"),
        ErrorCode::InvalidTimestamp => reveal_strlit("invalid_timestamp"),
        ErrorCode::InvalidParameter => reveal_strlit("invalid_parameter"),
        ErrorCode::UnsupportedQueryParameter => {},
        ErrorCode::RequestTimeout => {
            reveal_strlit("request_timeout");
            assert("request_timeout"@.take(8)[0] != "invalid_"@[0]);
        },
        ErrorCode::QueryTimeout => {
            reveal_strlit("query_timeout");
            assert("query_timeout"@.take(8)[0] != "invalid_"@[0]);
        },
        ErrorCode::GatewayTimeout => {
            reveal_strlit("gateway_timeout");
            assert("gateway_timeout"@.take(8)[0] != "invalid_"@[0]);
        },
        ErrorCode::InternalError => {
            reveal_strlit("internal_error");
            assert("internal_error"@.take(8)[2] != "invalid_"@[2]);
        },
        ErrorCode::ByteRangeNotSatisfiable => {
            reveal_strlit("byte_range_not_satisfiable");
            assert("byte_range_not_satisfiable"@.take(8)[0] != "invalid_"@[0]);
        },
        ErrorCode::MessagesDatabaseUnavailable => {
            reveal_strlit("messages_database_unavailable");
            assert("messages_database_unavailable"@.take(8)[0] != "invalid_"@[0]);
        },
        ErrorCode::RemindersDatabaseUnavailable => {
            reveal_strlit("reminders_database_unavailable");
            assert("reminders_database_unavailable"@.take(8)[0] != "invalid_"@[0]);
        },
        ErrorCode::NotesDatabaseUnavailable => {
            reveal_strlit("notes_database_unavailable");
            assert("notes_database_unavailable"@.take(8)[0] != "invalid_"@[0]);
        },
        ErrorCode::CalendarDatabaseUnavailable => {
            reveal_strlit("calendar_database_unavailable");
            assert("calendar_database_unavailable"@.take(8)[0] != "invalid_"@[0]);
        },
        ErrorCode::ContactsDatabaseUnavailable => {
            reveal_strlit("contacts_database_unavailable");
            assert("contacts_database_unavailable"@.take(8)[0] != "invalid_"@[0]);
        },
        ErrorCode::MessageNotFound => {
            reveal_strlit("message_not_found");
            assert("message_not_found"@.take(8)[0] != "invalid_"@[0]);
        },
        ErrorCode::ChatNotFound => {
            reveal_strlit("chat_not_found");
            assert("chat_not_found"@.take(8)[0] != "invalid_"@[0]);
        },
        ErrorCode::MessageAttachmentNotFound => {
            reveal_strlit("message_attachment_not_found");
            assert("message_attachment_not_found"@.take(8)[0] != "invalid_"@[0]);
        },
        ErrorCode::MessageAttachmentUnavailable => {
            reveal_strlit("message_attachment_unavailable");
            assert("message_attachment_unavailable"@.take(8)[0] != "invalid_"@[0]);
        },
        ErrorCode::NoteNotFound => {
            reveal_strlit("note_not_found");
            assert("note_not_found"@.take(8)[0] != "invalid_"@[0]);
        },
        ErrorCode::NoteFolderNotFound => {
            reveal_strlit("note_folder_not_found");
            assert("note_folder_not_found"@.take(8)[0] != "invalid_"@[0]);
        },
        ErrorCode::NoteAttachmentNotFound => {
            reveal_strlit("note_attachment_not_found");
            assert("note_attachment_not_found"@.take(8)[0] != "invalid_"@[0]);
        },
        ErrorCode::NoteAttachmentUnavailable => {
            reveal_strlit("note_attachment_unavailable");
            assert("note_attachment_unavailable"@.take(8)[0] != "invalid_"@[0]);
        },
        ErrorCode::ReminderNotFound => {
            reveal_strlit("reminder_not_found");
            assert("reminder_not_found"@.take(8)[0] != "invalid_"@[0]);
        },
        ErrorCode::ReminderListNotFound => {
            reveal_strlit("reminder_list_not_found");
            assert("reminder_list_not_found"@.take(8)[0] != "invalid_"@[0]);
        },
        ErrorCode::ReminderAttachmentNotFound => {
            reveal_strlit("reminder_attachment_not_found");
            assert("reminder_attachment_not_found"@.take(8)[0] != "invalid_"@[0]);
        },
        ErrorCode::ReminderAttachmentUnavailable => {
            reveal_strlit("reminder_attachment_unavailable");
            assert("reminder_attachment_unavailable"@.take(8)[0] != "invalid_"@[0]);
        },
        ErrorCode::SmartListReadOnly => {
            reveal_strlit("smart_list_read_only");
            assert("smart_list_read_only"@.take(8)[0] != "invalid_"@[0]);
        },
        ErrorCode::UnsupportedReminderField => {
            reveal_strlit("unsupported_reminder_field");
            assert("unsupported_reminder_field"@.take(8)[0] != "invalid_"@[0]);
        },
        ErrorCode::CalendarNotFound => {
            reveal_strlit("calendar_not_found");
            assert("calendar_not_found"@.take(8)[0] != "invalid_"@[0]);
        },
        ErrorCode::CalendarAccountNotFound => {
            reveal_strlit("calendar_account_not_found");
            assert("calendar_account_not_found"@.take(8)[0] != "invalid_"@[0]);
        },
        ErrorCode::EventNotFound => {
            reveal_strlit("event_not_found");
            assert("event_not_found"@.take(8)[0] != "invalid_"@[0]);
        },
        ErrorCode::EventAttachmentNotFound => {
            reveal_strlit("event_attachment_not_found");
            assert("event_attachment_not_found"@.take(8)[0] != "invalid_"@[0]);
        },
        ErrorCode::EventAttachmentUnavailable => {
            reveal_strlit("event_attachment_unavailable");
            assert("event_attachment_unavailable"@.take(8)[0] != "invalid_"@[0]);
        },
        ErrorCode::EventEndBeforeStart => {
            reveal_strlit("event_end_before_start");
            assert("event_end_before_start"@.take(8)[0] != "invalid_"@[0]);
        },
        ErrorCode::UnsupportedAlarmKind => {
            reveal_strlit("unsupported_alarm_kind");
            assert("unsupported_alarm_kind"@.take(8)[0] != "invalid_"@[0]);
        },
        ErrorCode::ImmutableEventField => {
            reveal_strlit("immutable_event_field");
            assert("immutable_event_field"@.take(8)[1] != "invalid_"@[1]);
        },
        ErrorCode::AmbiguousEventKitMatch => {
            reveal_strlit("ambiguous_event_kit_match");
            assert("ambiguous_event_kit_match"@.take(8)[0] != "invalid_"@[0]);
        },
        ErrorCode::ContactNotFound => {
            reveal_strlit("contact_not_found");
            assert("contact_not_found"@.take(8)[0] != "invalid_"@[0]);
        },
        ErrorCode::GroupNotFound => {
            reveal_strlit("group_not_found");
            assert("group_not_found"@.take(8)[0] != "invalid_"@[0]);
        },
        ErrorCode::ContainerNotFound => {
            reveal_strlit("container_not_found");
            assert("container_not_found"@.take(8)[0] != "invalid_"@[0]);
        },
        ErrorCode::ContactPhotoNotFound => {
            reveal_strlit("contact_photo_not_found");
            assert("contact_photo_not_found"@.take(8)[0] != "invalid_"@[0]);
        },
        ErrorCode::ReadOnlyContainer => {
            reveal_strlit("read_only_container");
            assert("read_only_container"@.take(8)[0] != "invalid_"@[0]);
        },
        ErrorCode::EventkitAccessDenied => {
            reveal_strlit("eventkit_access_denied");
            assert("eventkit_access_denied"@.take(8)[0] != "invalid_"@[0]);
        },
        ErrorCode::ContactsAccessDenied => {
            reveal_strlit("contacts_access_denied");
            assert("contacts_access_denied"@.take(8)[0] != "invalid_"@[0]);
        },
        ErrorCode::EventkitUnavailable => {
            reveal_strlit("eventkit_unavailable");
            assert("eventkit_unavailable"@.take(8)[0] != "invalid_"@[0]);
        },
        ErrorCode::ContactsUnavailable => {
            reveal_strlit("contacts_unavailable");
            assert("contacts_unavailable"@.take(8)[0] != "invalid_"@[0]);
        },
        ErrorCode::CalendarReadOnly => {
            reveal_strlit("calendar_read_only");
            assert("calendar_read_only"@.take(8)[0] != "invalid_"@[0]);
        },
        ErrorCode::SqliteSyncPending => {
            reveal_strlit("sqlite_sync_pending");
            assert("sqlite_sync_pending"@.take(8)[0] != "invalid_"@[0]);
        },
        ErrorCode::ValidationError => {},
        ErrorCode::ResourceNotFound => {
            reveal_strlit("resource_not_found");
            assert("resource_not_found"@.take(8)[0] != "invalid_"@[0]);
        },
        ErrorCode::ServiceUnavailable => {
            reveal_strlit("service_unavailable");
            assert("service_unavailable"@.take(8)[0] != "invalid_"@[0]);
        },
        ErrorCode::Forbidden => {
            reveal_strlit("forbidden");
            assert("forbidden"@.take(8)[0] != "invalid_"@[0]);
        },
        ErrorCode::Conflict => {
            reveal_strlit("conflict");
            assert("conflict"@.take(8)[0] != "invalid_"@[0]);
        },
        ErrorCode::UnprocessableEntity => {
            reveal_strlit("unprocessable_entity");
            assert("unprocessable_entity"@.take(8)[0] != "invalid_"@[0]);
        },
    }
}

/// Every code named `..._timeout` answers `504 Gateway Timeout`.
pub proof fn law_timeout_codes_are_504(code: ErrorCode)
    ensures
        has_suffix(name_of(code)@, "_timeout"@) ==> status_of(code) == 504,
{
    reveal_strlit("_timeout");
    match code {
        ErrorCode::RouteNotFound => {
            reveal_strlit("route_not_found");
            assert("route_not_found"@.skip(7)[0] != "_timeout"@[0]);
        },
        ErrorCode::MethodNotAllowed => {
            reveal_strlit("method_not_allowed");
            assert("method_not_allowed"@.skip(10)[1] != "_timeout"@[1]);
        },
        ErrorCode::InvalidCursor => {
            reveal_strlit("invalid_cursor");
            assert("invalid_cursor"@.skip(6)[0] != "_timeout"@[0]);
        },
        ErrorCode::InvalidLimit => {
            reveal_strlit("invalid_limit");
            assert("invalid_limit"@.skip(5)[0] != "_timeout"@[0]);
        },
        ErrorCode::InvalidTimestamp => {
            reveal_strlit("invalid_timestamp");
            assert("invalid_timestamp"@.skip(9)[0] != "_timeout"@[0]);
        },
        ErrorCode::InvalidParameter => {
            reveal_strlit("invalid_parameter");
            assert("invalid_parameter"@.skip(9)[0] != "_timeout"@[0]);
        },
        ErrorCode::UnsupportedQueryParameter => {
            reveal_strlit("unsupported_query_parameter");
            assert("unsupported_query_parameter"@.skip(19)[0] != "_timeout"@[0]);
        },
        ErrorCode::RequestTimeout => reveal_strlit("request_timeout"),
        ErrorCode::QueryTimeout => reveal_strlit("query_timeout"),
        ErrorCode::GatewayTimeout => reveal_strlit("gateway_timeout"),
        ErrorCode::InternalError => {
            reveal_strlit("internal_error");
            assert("internal_error"@.skip(6)[0] != "_timeout"@[0]);
        },
        ErrorCode::ByteRangeNotSatisfiable => {
            reveal_strlit("byte_range_not_satisfiable");
            assert("byte_range_not_satisfiable"@.skip(18)[0] != "_timeout"@[0]);
        },
        ErrorCode::MessagesDatabaseUnavailable => {
            reveal_strlit("messages_database_unavailable");
            assert("messages_database_unavailable"@.skip(21)[0] != "_timeout"@[0]);
        },
        ErrorCode::RemindersDatabaseUnavailable => {
            reveal_strlit("reminders_database_unavailable");
            assert("reminders_database_unavailable"@.skip(22)[0] != "_timeout"@[0]);
        },
        ErrorCode::NotesDatabaseUnavailable => {
            reveal_strlit("notes_database_unavailable");
            assert("notes_database_unavailable"@.skip(18)[0] != "_timeout"@[0]);
        },
        ErrorCode::CalendarDatabaseUnavailable => {
            reveal_strlit("calendar_database_unavailable");
            assert("calendar_database_unavailable"@.skip(21)[0] != "_timeout"@[0]);
        },
        ErrorCode::ContactsDatabaseUnavailable => {
            reveal_strlit("contacts_database_unavailable");
            assert("contacts_database_unavailable"@.skip(21)[0] != "_timeout"@[0]);
        },
        ErrorCode::MessageNotFound => {
            reveal_strlit("message_not_found");
            assert("message_not_found"@.skip(9)[0] != "_timeout"@[0]);
        },
        ErrorCode::ChatNotFound => {
            reveal_strlit("chat_not_found");
            assert("chat_not_found"@.skip(6)[0] != "_timeout"@[0]);
        },
        ErrorCode::MessageAttachmentNotFound => {
            reveal_strlit("message_attachment_not_found");
            assert("message_attachment_not_found"@.skip(20)[0] != "_timeout"@[0]);
        },
        ErrorCode::MessageAttachmentUnavailable => {
            reveal_strlit("message_attachment_unavailable");
            assert("message_attachment_unavailable"@.skip(22)[0] != "_timeout"@[0]);
        },
        ErrorCode::NoteNotFound => {
            reveal_strlit("note_not_found");
            assert("note_not_found"@.skip(6)[0] != "_timeout"@[0]);
        },
        ErrorCode::NoteFolderNotFound => {
            reveal_strlit("note_folder_not_found");
            assert("note_folder_not_found"@.skip(13)[0] != "_timeout"@[0]);
        },
        ErrorCode::NoteAttachmentNotFound => {
            reveal_strlit("note_attachment_not_found");
            assert("note_attachment_not_found"@.skip(17)[0] != "_timeout"@[0]);
        },
        ErrorCode::NoteAttachmentUnavailable => {
            reveal_strlit("note_attachment_unavailable");
            assert("note_attachment_unavailable"@.skip(19)[0] != "_timeout"@[0]);
        },
        ErrorCode::ReminderNotFound => {
            reveal_strlit("reminder_not_found");
            assert("reminder_not_found"@.skip(10)[0] != "_timeout"@[0]);
        },
        ErrorCode::ReminderListNotFound => {
            reveal_strlit("reminder_list_not_found");
            assert("reminder_list_not_found"@.skip(15)[0] != "_timeout"@[0]);
        },
        ErrorCode::ReminderAttachmentNotFound => {
            reveal_strlit("reminder_attachment_not_found");
            assert("reminder_attachment_not_found"@.skip(21)[0] != "_timeout"@[0]);
        },
        ErrorCode::ReminderAttachmentUnavailable => {
            reveal_strlit("reminder_attachment_unavailable");
            assert("reminder_attachment_unavailable"@.skip(23)[0] != "_timeout"@[0]);
        },
        ErrorCode::SmartListReadOnly => {
            reveal_strlit("smart_list_read_only");
            assert("smart_list_read_only"@.skip(12)[0] != "_timeout"@[0]);
        },
        ErrorCode::UnsupportedReminderField => {
            reveal_strlit("unsupported_reminder_field");
            assert("unsupported_reminder_field"@.skip(18)[0] != "_timeout"@[0]);
        },
        ErrorCode::CalendarNotFound => {
            reveal_strlit("calendar_not_found");
            assert("calendar_not_found"@.skip(10)[0] != "_timeout"@[0]);
        },
        ErrorCode::CalendarAccountNotFound => {
            reveal_strlit("calendar_account_not_found");
            assert("calendar_account_not_found"@.skip(18)[0] != "_timeout"@[0]);
        },
        ErrorCode::EventNotFound => {
            reveal_strlit("event_not_found");
            assert("event_not_found"@.skip(7)[0] != "_timeout"@[0]);
        },
        ErrorCode::EventAttachmentNotFound => {
            reveal_strlit("event_attachment_not_found");
            assert("event_attachment_not_found"@.skip(18)[0] != "_timeout"@[0]);
        },
        ErrorCode::EventAttachmentUnavailable => {
            reveal_strlit("event_attachment_unavailable");
            assert("event_attachment_unavailable"@.skip(20)[0] != "_timeout"@[0]);
        },
        ErrorCode::EventEndBeforeStart => {
            reveal_strlit("event_end_before_start");
            assert("event_end_before_start"@.skip(14)[0] != "_timeout"@[0]);
        },
        ErrorCode::UnsupportedAlarmKind => {
            reveal_strlit("unsupported_alarm_kind");
            assert("unsupported_alarm_kind"@.skip(14)[0] != "_timeout"@[0]);
        },
        ErrorCode::ImmutableEventField => {
            reveal_strlit("immutable_event_field");
            assert("immutable_event_field"@.skip(13)[0] != "_timeout"@[0]);
        },
        ErrorCode::AmbiguousEventKitMatch => {
            reveal_strlit("ambiguous_event_kit_match");
            assert("ambiguous_event_kit_match"@.skip(17)[0] != "_timeout"@[0]);
        },
        ErrorCode::ContactNotFound => {
            reveal_strlit("contact_not_found");
            assert("contact_not_found"@.skip(9)[0] != "_timeout"@[0]);
        },
        ErrorCode::GroupNotFound => {
            reveal_strlit("group_not_found");
            assert("group_not_found"@.skip(7)[0] != "_timeout"@[0]);
        },
        ErrorCode::ContainerNotFound => {
            reveal_strlit("container_not_found");
            assert("container_not_found"@.skip(11)[0] != "_timeout"@[0]);
        },
        ErrorCode::ContactPhotoNotFound => {
            reveal_strlit("contact_photo_not_found");
            assert("contact_photo_not_found"@.skip(15)[0] != "_timeout"@[0]);
        },
        ErrorCode::ReadOnlyContainer => {
            reveal_strlit("read_only_container");
            assert("read_only_container"@.skip(11)[0] != "_timeout"@[0]);
        },
        ErrorCode::EventkitAccessDenied => {
            reveal_strlit("eventkit_access_denied");
            assert("eventkit_access_denied"@.skip(14)[0] != "_timeout"@[0]);
        },
        ErrorCode::ContactsAccessDenied => {
            reveal_strlit("contacts_access_denied");
            assert("contacts_access_denied"@.skip(14)[0] != "_timeout"@[0]);
        },
        ErrorCode::EventkitUnavailable => {
            reveal_strlit("eventkit_unavailable");
            assert("eventkit_unavailable"@.skip(12)[0] != "_timeout"@[0]);
        },
        ErrorCode::ContactsUnavailable => {
            reveal_strlit("contacts_unavailable");
            assert("contacts_unavailable"@.skip(12)[0] != "_timeout"@[0]);
        },
        ErrorCode::CalendarReadOnly => {
            reveal_strlit("calendar_read_only");
            assert("calendar_read_only"@.skip(10)[0] != "_timeout"@[0]);
        },
        ErrorCode::SqliteSyncPending => {
            reveal_strlit("sqlite_sync_pending");
            assert("sqlite_sync_pending"@.skip(11)[1] != "_timeout"@[1]);
        },
        ErrorCode::ValidationError => {
            reveal_strlit("validation_error");
            assert("validation_error"@.skip(8)[0] != "_timeout"@[0]);
        },
        ErrorCode::ResourceNotFound => {
            reveal_strlit("resource_not_found");
            assert("resource_not_found"@.skip(10)[0] != "_timeout"@[0]);
        },
        ErrorCode::ServiceUnavailable => {
            reveal_strlit("service_unavailable");
            assert("service_unavailable"@.skip(11)[0] != "_timeout"@[0]);
        },
        ErrorCode::Forbidden => {
            reveal_strlit("forbidden");
            assert("forbidden"@.skip(1)[0] != "_timeout"@[0]);
        },
        ErrorCode::Conflict => {
            reveal_strlit("conflict");
            assert("conflict"@.skip(0)[0] != "_timeout"@[0]);
        },
        ErrorCode::UnprocessableEntity => {
            reveal_strlit("unprocessable_entity");
            assert("unprocessable_entity"@.skip(12)[0] != "_timeout"@[0]);
        },
    }
}

/// Every code named `..._denied` answers `403 Forbidden`.
pub proof fn law_denied_codes_are_403(code: ErrorCode)
    ensures
        has_suffix(name_of(code)@, "_denied"@) ==> status_of(code) == 403,
{
    reveal_strlit("_denied");
    match code {
        ErrorCode::RouteNotFound => {
            reveal_strlit("route_not_found");
            assert("route_not_found"@.skip(8)[0] != "_denied"@[0]);
        },
        ErrorCode::MethodNotAllowed => {
            reveal_strlit("method_not_allowed");
            assert("method_not_allowed"@.skip(11)[0] != "_denied"@[0]);
        },
        ErrorCode::InvalidCursor => {
            reveal_strlit("invalid_cursor");
            assert("invalid_cursor"@.skip(7)[1] != "_denied"@[1]);
        },
        ErrorCode::InvalidLimit => {
            reveal_strlit("invalid_limit");
            assert("invalid_limit"@.skip(6)[0] != "_denied"@[0]);
        },
        ErrorCode::InvalidTimestamp => {
            reveal_strlit("invalid_timestamp");
            assert("invalid_timestamp"@.skip(10)[0] != "_denied"@[0]);
        },
        ErrorCode::InvalidParameter => {
            reveal_strlit("invalid_parameter");
            assert("invalid_parameter"@.skip(10)[0] != "_denied"@[0]);
        },
        ErrorCode::UnsupportedQueryParameter => {
            reveal_strlit("unsupported_query_parameter");
            assert("unsupported_query_parameter"@.skip(20)[0] != "_denied"@[0]);
        },
        ErrorCode::RequestTimeout => {
            reveal_strlit("request_timeout");
            assert("request_timeout"@.skip(8)[0] != "_denied"@[0]);
        },
        ErrorCode::QueryTimeout => {
            reveal_strlit("query_timeout");
            assert("query_timeout"@.skip(6)[0] != "_denied"@[0]);
        },
        ErrorCode::GatewayTimeout => {
            reveal_strlit("gateway_timeout");
            assert("gateway_timeout"@.skip(8)[0] != "_denied"@[0]);
        },
        ErrorCode::InternalError => {
            reveal_strlit("internal_error");
            assert("internal_error"@.skip(7)[0] != "_denied"@[0]);
        },
        ErrorCode::ByteRangeNotSatisfiable => {
            reveal_strlit("byte_range_not_satisfiable");
            assert("byte_range_not_satisfiable"@.skip(19)[0] != "_denied"@[0]);
        },
        ErrorCode::MessagesDatabaseUnavailable => {
            reveal_strlit("messages_database_unavailable");
            assert("messages_database_unavailable"@.skip(22)[0] != "_denied"@[0]);
        },
        ErrorCode::RemindersDatabaseUnavailable => {
            reveal_strlit("reminders_database_unavailable");
            assert("reminders_database_unavailable"@.skip(23)[0] != "_denied"@[0]);
        },
        ErrorCode::NotesDatabaseUnavailable => {
            reveal_strlit("notes_database_unavailable");
            assert("notes_database_unavailable"@.skip(19)[0] != "_denied"@[0]);
        },
        ErrorCode::CalendarDatabaseUnavailable => {
            reveal_strlit("calendar_database_unavailable");
            assert("calendar_database_unavailable"@.skip(22)[0] != "_denied"@[0]);
        },
        ErrorCode::ContactsDatabaseUnavailable => {
            reveal_strlit("contacts_database_unavailable");
            assert("contacts_database_unavailable"@.skip(22)[0] != "_denied"@[0]);
        },
        ErrorCode::MessageNotFound => {
            reveal_strlit("message_not_found");
            assert("message_not_found"@.skip(10)[0] != "_denied"@[0]);
        },
        ErrorCode::ChatNotFound => {
            reveal_strlit("chat_not_found");
            assert("chat_not_found"@.skip(7)[0] != "_denied"@[0]);
        },
        ErrorCode::MessageAttachmentNotFound => {
            reveal_strlit("message_attachment_not_found");
            assert("message_attachment_not_found"@.skip(21)[0] != "_denied"@[0]);
        },
        ErrorCode::MessageAttachmentUnavailable => {
            reveal_strlit("message_attachment_unavailable");
            assert("message_attachment_unavailable"@.skip(23)[0] != "_denied"@[0]);
        },
        ErrorCode::NoteNotFound => {
            reveal_strlit("note_not_found");
            assert("note_not_found"@.skip(7)[0] != "_denied"@[0]);
        },
        ErrorCode::NoteFolderNotFound => {
            reveal_strlit("note_folder_not_found");
            assert("note_folder_not_found"@.skip(14)[0] != "_denied"@[0]);
        },
        ErrorCode::NoteAttachmentNotFound => {
            reveal_strlit("note_attachment_not_found");
            assert("note_attachment_not_found"@.skip(18)[0] != "_denied"@[0]);
        },
        ErrorCode::NoteAttachmentUnavailable => {
            reveal_strlit("note_attachment_unavailable");
            assert("note_attachment_unavailable"@.skip(20)[0] != "_denied"@[0]);
        },
        ErrorCode::ReminderNotFound => {
            reveal_strlit("reminder_not_found");
            assert("reminder_not_found"@.skip(11)[0] != "_denied"@[0]);
        },
        ErrorCode::ReminderListNotFound => {
            reveal_strlit("reminder_list_not_found");
            assert("reminder_list_not_found"@.skip(16)[0] != "_denied"@[0]);
        },
        ErrorCode::ReminderAttachmentNotFound => {
            reveal_strlit("reminder_attachment_not_found");
            assert("reminder_attachment_not_found"@.skip(22)[0] != "_denied"@[0]);
        },
        ErrorCode::ReminderAttachmentUnavailable => {
            reveal_strlit("reminder_attachment_unavailable");
            assert("reminder_attachment_unavailable"@.skip(24)[0] != "_denied"@[0]);
        },
        ErrorCode::SmartListReadOnly => {},
        ErrorCode::UnsupportedReminderField => {
            reveal_strlit("unsupported_reminder_field");
            assert("unsupported_reminder_field"@.skip(19)[0] != "_denied"@[0]);
        },
        ErrorCode::CalendarNotFound => {
            reveal_strlit("calendar_not_found");
            assert("calendar_not_found"@.skip(11)[0] != "_denied"@[0]);
        },
        ErrorCode::CalendarAccountNotFound => {
            reveal_strlit("calendar_account_not_found");
            assert("calendar_account_not_found"@.skip(19)[0] != "_denied"@[0]);
        },
        ErrorCode::EventNotFound => {
            reveal_strlit("event_not_found");
            assert("event_not_found"@.skip(8)[0] != "_denied"@[0]);
        },
        ErrorCode::EventAttachmentNotFound => {
            reveal_strlit("event_attachment_not_found");
            assert("event_attachment_not_found"@.skip(19)[0] != "_denied"@[0]);
        },
        ErrorCode::EventAttachmentUnavailable => {
            reveal_strlit("event_attachment_unavailable");
            assert("event_attachment_unavailable"@.skip(21)[0] != "_denied"@[0]);
        },
        ErrorCode::EventEndBeforeStart => {
            reveal_strlit("event_end_before_start");
            assert("event_end_before_start"@.skip(15)[0] != "_denied"@[0]);
        },
        ErrorCode::UnsupportedAlarmKind => {
            reveal_strlit("unsupported_alarm_kind");
            assert("unsupported_alarm_kind"@.skip(15)[0] != "_denied"@[0]);
        },
        ErrorCode::ImmutableEventField => {
            reveal_strlit("immutable_event_field");
            assert("immutable_event_field"@.skip(14)[0] != "_denied"@[0]);
        },
        ErrorCode::AmbiguousEventKitMatch => {
            reveal_strlit("ambiguous_event_kit_match");
            assert("ambiguous_event_kit_match"@.skip(18)[0] != "_denied"@[0]);
        },
        ErrorCode::ContactNotFound => {
            reveal_strlit("contact_not_found");
            assert("contact_not_found"@.skip(10)[0] != "_denied"@[0]);
        },
        ErrorCode::GroupNotFound => {
            reveal_strlit("group_not_found");
            assert("group_not_found"@.skip(8)[0] != "_denied"@[0]);
        },
        ErrorCode::ContainerNotFound => {
            reveal_strlit("container_not_found");
            assert("container_not_found"@.skip(12)[0] != "_denied"@[0]);
        },
        ErrorCode::ContactPhotoNotFound => {
            reveal_strlit("contact_photo_not_found");
            assert("contact_photo_not_found"@.skip(16)[0] != "_denied"@[0]);
        },
        ErrorCode::ReadOnlyContainer => {},
        ErrorCode::EventkitAccessDenied => reveal_strlit("eventkit_access_denied"),
        ErrorCode::ContactsAccessDenied => reveal_strlit("contacts_access_denied"),
        ErrorCode::EventkitUnavailable => {
            reveal_strlit("eventkit_unavailable");
            assert("eventkit_unavailable"@.skip(13)[0] != "_denied"@[0]);
        },
        ErrorCode::ContactsUnavailable => {
            reveal_strlit("contacts_unavailable");
            assert("contacts_unavailable"@.skip(13)[0] != "_denied"@[0]);
        },
        ErrorCode::CalendarReadOnly => {},
        ErrorCode::SqliteSyncPending => {
            reveal_strlit("sqlite_sync_pending");
            assert("sqlite_sync_pending"@.skip(12)[0] != "_denied"@[0]);
        },
        ErrorCode::ValidationError => {
            reveal_strlit("validation_error");
            assert("validation_error"@.skip(9)[0] != "_denied"@[0]);
        },
        ErrorCode::ResourceNotFound => {
            reveal_strlit("resource_not_found");
            assert("resource_not_found"@.skip(11)[0] != "_denied"@[0]);
        },
        ErrorCode::ServiceUnavailable => {
            reveal_strlit("service_unavailable");
            assert("service_unavailable"@.skip(12)[0] != "_denied"@[0]);
        },
        ErrorCode::Forbidden => {},
        ErrorCode::Conflict => {
            reveal_strlit("conflict");
            assert("conflict"@.skip(1)[0] != "_denied"@[0]);
        },
        ErrorCode::UnprocessableEntity => {
            reveal_strlit("unprocessable_entity");
            assert("unprocessable_entity"@.skip(13)[1] != "_denied"@[1]);
        },
    }
}

/// Every code named `..._read_only` answers `403 Forbidden`.
pub proof fn law_read_only_codes_are_403(code: ErrorCode)
    ensures
        has_suffix(name_of(code)@, "_read_only"@) ==> status_of(code) == 403,
{
    reveal_strlit("_read_only");
    match code {
        ErrorCode::RouteNotFound => {
            reveal_strlit("route_not_found");
            assert("route_not_found"@.skip(5)[1] != "_read_only"@[1]);
        },
        ErrorCode::MethodNotAllowed => {
            reveal_strlit("method_not_allowed");
            assert("method_not_allowed"@.skip(8)[0] != "_read_only"@[0]);
        },
        ErrorCode::InvalidCursor => {
            reveal_strlit("invalid_cursor");
            assert("invalid_cursor"@.skip(4)[0] != "_read_only"@[0]);
        },
        ErrorCode::InvalidLimit => {
            reveal_strlit("invalid_limit");
            assert("invalid_limit"@.skip(3)[0] != "_read_only"@[0]);
        },
        ErrorCode::InvalidTimestamp => {
            reveal_strlit("invalid_timestamp");
            assert("invalid_timestamp"@.skip(7)[1] != "_read_only"@[1]);
        },
        ErrorCode::InvalidParameter => {
            reveal_strlit("invalid_parameter");
            assert("invalid_parameter"@.skip(7)[1] != "_read_only"@[1]);
        },
        ErrorCode::UnsupportedQueryParameter => {
            reveal_strlit("unsupported_query_parameter");
            assert("unsupported_query_parameter"@.skip(17)[1] != "_read_only"@[1]);
        },
        ErrorCode::RequestTimeout => {
            reveal_strlit("request_timeout");
            assert("request_timeout"@.skip(5)[0] != "_read_only"@[0]);
        },
        ErrorCode::QueryTimeout => {
            reveal_strlit("query_timeout");
            assert("query_timeout"@.skip(3)[0] != "_read_only"@[0]);
        },
        ErrorCode::GatewayTimeout => {
            reveal_strlit("gateway_timeout");
            assert("gateway_timeout"@.skip(5)[0] != "_read_only"@[0]);
        },
        ErrorCode::InternalError => {
            reveal_strlit("internal_error");
            assert("internal_error"@.skip(4)[0] != "_read_only"@[0]);
        },
        ErrorCode::ByteRangeNotSatisfiable => {
            reveal_strlit("byte_range_not_satisfiable");
            assert("byte_range_not_satisfiable"@.skip(16)[0] != "_read_only"@[0]);
        },
        ErrorCode::MessagesDatabaseUnavailable => {
            reveal_strlit("messages_database_unavailable");
            assert("messages_database_unavailable"@.skip(19)[0] != "_read_only"@[0]);
        },
        ErrorCode::RemindersDatabaseUnavailable => {
            reveal_strlit("reminders_database_unavailable");
            assert("reminders_database_unavailable"@.skip(20)[0] != "_read_only"@[0]);
        },
        ErrorCode::NotesDatabaseUnavailable => {
            reveal_strlit("notes_database_unavailable");
            assert("notes_database_unavailable"@.skip(16)[0] != "_read_only"@[0]);
        },
        ErrorCode::CalendarDatabaseUnavailable => {
            reveal_strlit("calendar_database_unavailable");
            assert("calendar_database_unavailable"@.skip(19)[0] != "_read_only"@[0]);
        },
        ErrorCode::ContactsDatabaseUnavailable => {
            reveal_strlit("contacts_database_unavailable");
            assert("contacts_database_unavailable"@.skip(19)[0] != "_read_only"@[0]);
        },
        ErrorCode::MessageNotFound => {
            reveal_strlit("message_not_found");
            assert("message_not_found"@.skip(7)[1] != "_read_only"@[1]);
        },
        ErrorCode::ChatNotFound => {
            reveal_strlit("chat_not_found");
            assert("chat_not_found"@.skip(4)[1] != "_read_only"@[1]);
        },
        ErrorCode::MessageAttachmentNotFound => {
            reveal_strlit("message_attachment_not_found");
            assert("message_attachment_not_found"@.skip(18)[1] != "_read_only"@[1]);
        },
        ErrorCode::MessageAttachmentUnavailable => {
            reveal_strlit("message_attachment_unavailable");
            assert("message_attachment_unavailable"@.skip(20)[0] != "_read_only"@[0]);
        },
        ErrorCode::NoteNotFound => {
            reveal_strlit("note_not_found");
            assert("note_not_found"@.skip(4)[1] != "_read_only"@[1]);
        },
        ErrorCode::NoteFolderNotFound => {
            reveal_strlit("note_folder_not_found");
            assert("note_folder_not_found"@.skip(11)[1] != "_read_only"@[1]);
        },
        ErrorCode::NoteAttachmentNotFound => {
            reveal_strlit("note_attachment_not_found");
            assert("note_attachment_not_found"@.skip(15)[1] != "_read_only"@[1]);
        },
        ErrorCode::NoteAttachmentUnavailable => {
            reveal_strlit("note_attachment_unavailable");
            assert("note_attachment_unavailable"@.skip(17)[0] != "_read_only"@[0]);
        },
        ErrorCode::ReminderNotFound => {
            reveal_strlit("reminder_not_found");
            assert("reminder_not_found"@.skip(8)[1] != "_read_only"@[1]);
        },
        ErrorCode::ReminderListNotFound => {
            reveal_strlit("reminder_list_not_found");
            assert("reminder_list_not_found"@.skip(13)[1] != "_read_only"@[1]);
        },
        ErrorCode::ReminderAttachmentNotFound => {
            reveal_strlit("reminder_attachment_not_found");
            assert("reminder_attachment_not_found"@.skip(19)[1] != "_read_only"@[1]);
        },
        ErrorCode::ReminderAttachmentUnavailable => {
            reveal_strlit("reminder_attachment_unavailable");
            assert("reminder_attachment_unavailable"@.skip(21)[0] != "_read_only"@[0]);
        },
        ErrorCode::SmartListReadOnly => reveal_strlit("smart_list_read_only"),
        ErrorCode::UnsupportedReminderField => {
            reveal_strlit("unsupported_reminder_field");
            assert("unsupported_reminder_field"@.skip(16)[0] != "_read_only"@[0]);
        },
        ErrorCode::CalendarNotFound => {
            reveal_strlit("calendar_not_found");
            assert("calendar_not_found"@.skip(8)[1] != "_read_only"@[1]);
        },
        ErrorCode::CalendarAccountNotFound => {
            reveal_strlit("calendar_account_not_found");
            assert("calendar_account_not_found"@.skip(16)[1] != "_read_only"@[1]);
        },
        ErrorCode::EventNotFound => {
            reveal_strlit("event_not_found");
            assert("event_not_found"@.skip(5)[1] != "_read_only"@[1]);
        },
        ErrorCode::EventAttachmentNotFound => {
            reveal_strlit("event_attachment_not_found");
            assert("event_attachment_not_found"@.skip(16)[1] != "_read_only"@[1]);
        },
        ErrorCode::EventAttachmentUnavailable => {
            reveal_strlit("event_attachment_unavailable");
            assert("event_attachment_unavailable"@.skip(18)[0] != "_read_only"@[0]);
        },
        ErrorCode::EventEndBeforeStart => {
            reveal_strlit("event_end_before_start");
            assert("event_end_before_start"@.skip(12)[0] != "_read_only"@[0]);
        },
        ErrorCode::UnsupportedAlarmKind => {
            reveal_strlit("unsupported_alarm_kind");
            assert("unsupported_alarm_kind"@.skip(12)[0] != "_read_only"@[0]);
        },
        ErrorCode::ImmutableEventField => {
            reveal_strlit("immutable_event_field");
            assert("immutable_event_field"@.skip(11)[0] != "_read_only"@[0]);
        },
        ErrorCode::AmbiguousEventKitMatch => {
            reveal_strlit("ambiguous_event_kit_match");
            assert("ambiguous_event_kit_match"@.skip(15)[1] != "_read_only"@[1]);
        },
        ErrorCode::ContactNotFound => {
            reveal_strlit("contact_not_found");
            assert("contact_not_found"@.skip(7)[1] != "_read_only"@[1]);
        },
        ErrorCode::GroupNotFound => {
            reveal_strlit("group_not_found");
            assert("group_not_found"@.skip(5)[1] != "_read_only"@[1]);
        },
        ErrorCode::ContainerNotFound => {
            reveal_strlit("container_not_found");
            assert("container_not_found"@.skip(9)[1] != "_read_only"@[1]);
        },
        ErrorCode::ContactPhotoNotFound => {
            reveal_strlit("contact_photo_not_found");
            assert("contact_photo_not_found"@.skip(13)[1] != "_read_only"@[1]);
        },
        ErrorCode::ReadOnlyContainer => {},
        ErrorCode::EventkitAccessDenied => {},
        ErrorCode::ContactsAccessDenied => {},
        ErrorCode::EventkitUnavailable => {
            reveal_strlit("eventkit_unavailable");
            assert("eventkit_unavailable"@.skip(10)[0] != "_read_only"@[0]);
        },
        ErrorCode::ContactsUnavailable => {
            reveal_strlit("contacts_unavailable");
            assert("contacts_unavailable"@.skip(10)[0] != "_read_only"@[0]);
        },
        ErrorCode::CalendarReadOnly => reveal_strlit("calendar_read_only"),
        ErrorCode::SqliteSyncPending => {
            reveal_strlit("sqlite_sync_pending");
            assert("sqlite_sync_pending"@.skip(9)[0] != "_read_only"@[0]);
        },
        ErrorCode::ValidationError => {
            reveal_strlit("validation_error");
            assert("validation_error"@.skip(6)[0] != "_read_only"@[0]);
        },
        ErrorCode::ResourceNotFound => {
            reveal_strlit("resource_not_found");
            assert("resource_not_found"@.skip(8)[1] != "_read_only"@[1]);
        },
        ErrorCode::ServiceUnavailable => {
            reveal_strlit("service_unavailable");
            assert("service_unavailable"@.skip(9)[0] != "_read_only"@[0]);
        },
        ErrorCode::Forbidden => {},
        ErrorCode::Conflict => {
            reveal_strlit("conflict");
            assert("conflict"@.len() == 8);
        },
        ErrorCode::UnprocessableEntity => {
            reveal_strlit("unprocessable_entity");
            assert("unprocessable_entity"@.skip(10)[0] != "_read_only"@[0]);
        },
    }
}

/// Every code named `..._database_unavailable` answers `503 Service Unavailable`.
pub proof fn law_database_unavailable_codes_are_503(code: ErrorCode)
    ensures
        has_suffix(name_of(code)@, "_database_unavailable"@) ==> status_of(code) == 503,
{
    reveal_strlit("_database_unavailable");
    match code {
        ErrorCode::RouteNotFound => {
            reveal_strlit("route_not_found");
            assert("route_not_found"@.len() == 15);
        },
        ErrorCode::MethodNotAllowed => {
            reveal_strlit("method_not_allowed");
            assert("method_not_allowed"@.len() == 18);
        },
        ErrorCode::InvalidCursor => {
            reveal_strlit("invalid_cursor");
            assert("invalid_cursor"@.len() == 14);
        },
        ErrorCode::InvalidLimit => {
            reveal_strlit("invalid_limit");
            assert("invalid_limit"@.len() == 13);
        },
        ErrorCode::InvalidTimestamp => {
            reveal_strlit("invalid_timestamp");
            assert("invalid_timestamp"@.len() == 17);
        },
        ErrorCode::InvalidParameter => {
            reveal_strlit("invalid_parameter");
            assert("invalid_parameter"@.len() == 17);
        },
        ErrorCode::UnsupportedQueryParameter => {
            reveal_strlit("unsupported_query_parameter");
            assert("unsupported_query_parameter"@.skip(6)[0] != "_database_unavailable"@[0]);
        },
        ErrorCode::RequestTimeout => {
            reveal_strlit("request_timeout");
            assert("request_timeout"@.len() == 15);
        },
        ErrorCode::QueryTimeout => {
            reveal_strlit("query_timeout");
            assert("query_timeout"@.len() == 13);
        },
        ErrorCode::GatewayTimeout => {
            reveal_strlit("gateway_timeout");
            assert("gateway_timeout"@.len() == 15);
        },
        ErrorCode::InternalError => {
            reveal_strlit("internal_error");
            assert("internal_error"@.len() == 14);
        },
        ErrorCode::ByteRangeNotSatisfiable => {
            reveal_strlit("byte_range_not_satisfiable");
            assert("byte_range_not_satisfiable"@.skip(5)[0] != "_database_unavailable"@[0]);
        },
        ErrorCode::MessagesDatabaseUnavailable => reveal_strlit("messages_database_unavailable"),
        ErrorCode::RemindersDatabaseUnavailable => reveal_strlit("reminders_database_unavailable"),
        ErrorCode::NotesDatabaseUnavailable => reveal_strlit("notes_database_unavailable"),
        ErrorCode::CalendarDatabaseUnavailable => reveal_strlit("calendar_database_unavailable"),
        ErrorCode::ContactsDatabaseUnavailable => reveal_strlit("contacts_database_unavailable"),
        ErrorCode::MessageNotFound => {
            reveal_strlit("message_not_found");
            assert("message_not_found"@.len() == 17);
        },
        ErrorCode::ChatNotFound => {
            reveal_strlit("chat_not_found");
            assert("chat_not_found"@.len() == 14);
        },
        ErrorCode::MessageAttachmentNotFound => {
            reveal_strlit("message_attachment_not_found");
            assert("message_attachment_not_found"@.skip(7)[1] != "_database_unavailable"@[1]);
        },
        ErrorCode::MessageAttachmentUnavailable => {
            reveal_strlit("message_attachment_unavailable");
            assert("message_attachment_unavailable"@.skip(9)[0] != "_database_unavailable"@[0]);
        },
        ErrorCode::NoteNotFound => {
            reveal_strlit("note_not_found");
            assert("note_not_found"@.len() == 14);
        },
        ErrorCode::NoteFolderNotFound => {
            reveal_strlit("note_folder_not_found");
            assert("note_folder_not_found"@.skip(0)[0] != "_database_unavailable"@[0]);
        },
        ErrorCode::NoteAttachmentNotFound => {
            reveal_strlit("note_attachment_not_found");
            assert("note_attachment_not_found"@.skip(4)[1] != "_database_unavailable"@[1]);
        },
        ErrorCode::NoteAttachmentUnavailable => {
            reveal_strlit("note_attachment_unavailable");
            assert("note_attachment_unavailable"@.skip(6)[0] != "_database_unavailable"@[0]);
        },
        ErrorCode::ReminderNotFound => {
            reveal_strlit("reminder_not_found");
            assert("reminder_not_found"@.len() == 18);
        },
        ErrorCode::ReminderListNotFound => {
            reveal_strlit("reminder_list_not_found");
            assert("reminder_list_not_found"@.skip(2)[0] != "_database_unavailable"@[0]);
        },
        ErrorCode::ReminderAttachmentNotFound => {
            reveal_strlit("reminder_attachment_not_found");
            assert("reminder_attachment_not_found"@.skip(8)[1] != "_database_unavailable"@[1]);
        },
        ErrorCode::ReminderAttachmentUnavailable => {
            reveal_strlit("reminder_attachment_unavailable");
            assert("reminder_attachment_unavailable"@.skip(10)[0] != "_database_unavailable"@[0]);
        },
        ErrorCode::SmartListReadOnly => {
            reveal_strlit("smart_list_read_only");
            assert("smart_list_read_only"@.len() == 20);
        },
        ErrorCode::UnsupportedReminderField => {
            reveal_strlit("unsupported_reminder_field");
            assert("unsupported_reminder_field"@.skip(5)[0] != "_database_unavailable"@[0]);
        },
        ErrorCode::CalendarNotFound => {
            reveal_strlit("calendar_not_found");
            assert("calendar_not_found"@.len() == 18);
        },
        ErrorCode::CalendarAccountNotFound => {
            reveal_strlit("calendar_account_not_found");
            assert("calendar_account_not_found"@.skip(5)[0] != "_database_unavailable"@[0]);
        },
        ErrorCode::EventNotFound => {
            reveal_strlit("event_not_found");
            assert("event_not_found"@.len() == 15);
        },
        ErrorCode::EventAttachmentNotFound => {
            reveal_strlit("event_attachment_not_found");
            assert("event_attachment_not_found"@.skip(5)[1] != "_database_unavailable"@[1]);
        },
        ErrorCode::EventAttachmentUnavailable => {
            reveal_strlit("event_attachment_unavailable");
            assert("event_attachment_unavailable"@.skip(7)[0] != "_database_unavailable"@[0]);
        },
        ErrorCode::EventEndBeforeStart => {
            reveal_strlit("event_end_before_start");
            assert("event_end_before_start"@.skip(1)[0] != "_database_unavailable"@[0]);
        },
        ErrorCode::UnsupportedAlarmKind => {
            reveal_strlit("unsupported_alarm_kind");
            assert("unsupported_alarm_kind"@.skip(1)[0] != "_database_unavailable"@[0]);
        },
        ErrorCode::ImmutableEventField => {
            reveal_strlit("immutable_event_field");
            assert("immutable_event_field"@.skip(0)[0] != "_database_unavailable"@[0]);
        },
        ErrorCode::AmbiguousEventKitMatch => {
            reveal_strlit("ambiguous_event_kit_match");
            assert("ambiguous_event_kit_match"@.skip(4)[0] != "_database_unavailable"@[0]);
        },
        ErrorCode::ContactNotFound => {
            reveal_strlit("contact_not_found");
            assert("contact_not_found"@.len() == 17);
        },
        ErrorCode::GroupNotFound => {
            reveal_strlit("group_not_found");
            assert("group_not_found"@.len() == 15);
        },
        ErrorCode::ContainerNotFound => {
            reveal_strlit("container_not_found");
            assert("container_not_found"@.len() == 19);
        },
        ErrorCode::ContactPhotoNotFound => {
            reveal_strlit("contact_photo_not_found");
            assert("contact_photo_not_found"@.skip(2)[0] != "_database_unavailable"@[0]);
        },
        ErrorCode::ReadOnlyContainer => {
            reveal_strlit("read_only_container");
            assert("read_only_container"@.len() == 19);
        },
        ErrorCode::EventkitAccessDenied => {
            reveal_strlit("eventkit_access_denied");
            assert("eventkit_access_denied"@.skip(1)[0] != "_database_unavailable"@[0]);
        },
        ErrorCode::ContactsAccessDenied => {
            reveal_strlit("contacts_access_denied");
            assert("contacts_access_denied"@.skip(1)[0] != "_database_unavailable"@[0]);
        },
        ErrorCode::EventkitUnavailable => {},
        ErrorCode::ContactsUnavailable => {},
        ErrorCode::CalendarReadOnly => {
            reveal_strlit("calendar_read_only");
            assert("calendar_read_only"@.len() == 18);
        },
        ErrorCode::SqliteSyncPending => {},
        ErrorCode::ValidationError => {
            reveal_strlit("validation_error");
            assert("validation_error"@.len() == 16);
        },
        ErrorCode::ResourceNotFound => {
            reveal_strlit("resource_not_found");
            assert("resource_not_found"@.len() == 18);
        },
        ErrorCode::ServiceUnavailable => {},
        ErrorCode::Forbidden => {
            reveal_strlit("forbidden");
            assert("forbidden"@.len() == 9);
        },
        ErrorCode::Conflict => {
            reveal_strlit("conflict");
            assert("conflict"@.len() == 8);
        },
        ErrorCode::UnprocessableEntity => {
            reveal_strlit("unprocessable_entity");
            assert("unprocessable_entity"@.len() == 20);
        },
    }
}

/// Every code named `..._attachment_unavailable` answers `404 Not Found`: the attachment
/// is missing from the disk, not the service.
pub proof fn law_unavailable_attachments_are_404(code: ErrorCode)
    ensures
        has_suffix(name_of(code)@, "_attachment_unavailable"@) ==> status_of(code) == 404,
{
    reveal_strlit("_attachment_unavailable");
    match code {
        ErrorCode::RouteNotFound => {},
        ErrorCode::MethodNotAllowed => {
            reveal_strlit("method_not_allowed");
            assert("method_not_allowed"@.len() == 18);
        },
        ErrorCode::InvalidCursor => {
            reveal_strlit("invalid_cursor");
            assert("invalid_cursor"@.len() == 14);
        },
        ErrorCode::InvalidLimit => {
            reveal_strlit("invalid_limit");
            assert("invalid_limit"@.len() == 13);
        },
        ErrorCode::InvalidTimestamp => {
            reveal_strlit("invalid_timestamp");
            assert("invalid_timestamp"@.len() == 17);
        },
        ErrorCode::InvalidParameter => {
            reveal_strlit("invalid_parameter");
            assert("invalid_parameter"@.len() == 17);
        },
        ErrorCode::UnsupportedQueryParameter => {
            reveal_strlit("unsupported_query_parameter");
            assert("unsupported_query_parameter"@.skip(4)[0] != "_attachment_unavailable"@[0]);
        },
        ErrorCode::RequestTimeout => {
            reveal_strlit("request_timeout");
            assert("request_timeout"@.len() == 15);
        },
        ErrorCode::QueryTimeout => {
            reveal_strlit("query_timeout");
            assert("query_timeout"@.len() == 13);
        },
        ErrorCode::GatewayTimeout => {
            reveal_strlit("gateway_timeout");
            assert("gateway_timeout"@.len() == 15);
        },
        ErrorCode::InternalError => {
            reveal_strlit("internal_error");
            assert("internal_error"@.len() == 14);
        },
        ErrorCode::ByteRangeNotSatisfiable => {
            reveal_strlit("byte_range_not_satisfiable");
            assert("byte_range_not_satisfiable"@.skip(3)[0] != "_attachment_unavailable"@[0]);
        },
        ErrorCode::MessagesDatabaseUnavailable => {
            reveal_strlit("messages_database_unavailable");
            assert("messages_database_unavailable"@.skip(6)[0] != "_attachment_unavailable"@[0]);
        },
        ErrorCode::RemindersDatabaseUnavailable => {
            reveal_strlit("reminders_database_unavailable");
            assert("reminders_database_unavailable"@.skip(7)[0] != "_attachment_unavailable"@[0]);
        },
        ErrorCode::NotesDatabaseUnavailable => {
            reveal_strlit("notes_database_unavailable");
            assert("notes_database_unavailable"@.skip(3)[0] != "_attachment_unavailable"@[0]);
        },
        ErrorCode::CalendarDatabaseUnavailable => {
            reveal_strlit("calendar_database_unavailable");
            assert("calendar_database_unavailable"@.skip(6)[0] != "_attachment_unavailable"@[0]);
        },
        ErrorCode::ContactsDatabaseUnavailable => {
            reveal_strlit("contacts_database_unavailable");
            assert("contacts_database_unavailable"@.skip(6)[0] != "_attachment_unavailable"@[0]);
        },
        ErrorCode::MessageNotFound => {},
        ErrorCode::ChatNotFound => {},
        ErrorCode::MessageAttachmentNotFound => {},
        ErrorCode::MessageAttachmentUnavailable => reveal_strlit("message_attachment_unavailable"),
        ErrorCode::NoteNotFound => {},
        ErrorCode::NoteFolderNotFound => {},
        ErrorCode::NoteAttachmentNotFound => {},
        ErrorCode::NoteAttachmentUnavailable => reveal_strlit("note_attachment_unavailable"),
        ErrorCode::ReminderNotFound => {},
        ErrorCode::ReminderListNotFound => {},
        ErrorCode::ReminderAttachmentNotFound => {},
        ErrorCode::ReminderAttachmentUnavailable => reveal_strlit("reminder_attachment_unavailable"),
        ErrorCode::SmartListReadOnly => {
            reveal_strlit("smart_list_read_only");
            assert("smart_list_read_only"@.len() == 20);
        },
        ErrorCode::UnsupportedReminderField => {
            reveal_strlit("unsupported_reminder_field");
            assert("unsupported_reminder_field"@.skip(3)[0] != "_attachment_unavailable"@[0]);
        },
        ErrorCode::CalendarNotFound => {},
        ErrorCode::CalendarAccountNotFound => {},
        ErrorCode::EventNotFound => {},
        ErrorCode::EventAttachmentNotFound => {},
        ErrorCode::EventAttachmentUnavailable => reveal_strlit("event_attachment_unavailable"),
        ErrorCode::EventEndBeforeStart => {
            reveal_strlit("event_end_before_start");
            assert("event_end_before_start"@.len() == 22);
        },
        ErrorCode::UnsupportedAlarmKind => {
            reveal_strlit("unsupported_alarm_kind");
            assert("unsupported_alarm_kind"@.len() == 22);
        },
        ErrorCode::ImmutableEventField => {
            reveal_strlit("immutable_event_field");
            assert("immutable_event_field"@.len() == 21);
        },
        ErrorCode::AmbiguousEventKitMatch => {
            reveal_strlit("ambiguous_event_kit_match");
            assert("ambiguous_event_kit_match"@.skip(2)[0] != "_attachment_unavailable"@[0]);
        },
        ErrorCode::ContactNotFound => {},
        ErrorCode::GroupNotFound => {},
        ErrorCode::ContainerNotFound => {},
        ErrorCode::ContactPhotoNotFound => {},
        ErrorCode::ReadOnlyContainer => {
            reveal_strlit("read_only_container");
            assert("read_only_container"@.len() == 19);
        },
        ErrorCode::EventkitAccessDenied => {
            reveal_strlit("eventkit_access_denied");
            assert("eventkit_access_denied"@.len() == 22);
        },
        ErrorCode::ContactsAccessDenied => {
            reveal_strlit("contacts_access_denied");
            assert("contacts_access_denied"@.len() == 22);
        },
        ErrorCode::EventkitUnavailable => {
            reveal_strlit("eventkit_unavailable");
            assert("eventkit_unavailable"@.len() == 20);
        },
        ErrorCode::ContactsUnavailable => {
            reveal_strlit("contacts_unavailable");
            assert("contacts_unavailable"@.len() == 20);
        },
        ErrorCode::CalendarReadOnly => {
            reveal_strlit("calendar_read_only");
            assert("calendar_read_only"@.len() == 18);
        },
        ErrorCode::SqliteSyncPending => {
            reveal_strlit("sqlite_sync_pending");
            assert("sqlite_sync_pending"@.len() == 19);
        },
        ErrorCode::ValidationError => {
            reveal_strlit("validation_error");
            assert("validation_error"@.len() == 16);
        },
        ErrorCode::ResourceNotFound => {},
        ErrorCode::ServiceUnavailable => {
            reveal_strlit("service_unavailable");
            assert("service_unavailable"@.len() == 19);
        },
        ErrorCode::Forbidden => {
            reveal_strlit("forbidden");
            assert("forbidden"@.len() == 9);
        },
        ErrorCode::Conflict => {
            reveal_strlit("conflict");
            assert("conflict"@.len() == 8);
        },
        ErrorCode::UnprocessableEntity => {
            reveal_strlit("unprocessable_entity");
            assert("unprocessable_entity"@.len() == 20);
        },
    }
}

} // verus!
