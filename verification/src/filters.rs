//! Validated search filters handed to the Messages, Reminders, Notes and Calendar readers.

use vstd::prelude::*;

verus! {

/// Restrict messages to sent or received ones.
#[derive(Debug, Clone, Copy, PartialEq, Eq, Structural)]
pub enum DirectionFilter {
    Sent,
    Received,
}

/// Restrict messages to one transport.
#[derive(Debug, Clone, Copy, PartialEq, Eq, Structural)]
pub enum TransportFilter {
    Imessage,
    Sms,
    Rcs,
    Unknown,
}

/// Restrict messages to one coarse content category.
#[derive(Debug, Clone, Copy, PartialEq, Eq, Structural)]
pub enum ContentTypeFilter {
    Text,
    Audio,
    Attachment,
    Reaction,
    GroupEvent,
    AppBalloon,
    SharePlay,
    ShareMyLocation,
    System,
    Unknown,
}

/// Filters of the global message search. Timestamps are Apple epoch nanoseconds.
#[derive(Debug, Clone)]
pub struct MessageFilters {
    pub q: Option<String>,
    pub chat_id: Option<i64>,
    pub sender: Option<String>,
    pub before: Option<i64>,
    pub after: Option<i64>,
    pub direction: Option<DirectionFilter>,
    pub transport: Option<TransportFilter>,
    pub content_type: Option<ContentTypeFilter>,
    pub has_attachments: Option<bool>,
}

/// A reminder list named by row id or by UUID.
#[derive(Debug, Clone)]
pub enum ListIdFilter {
    RowId(i64),
    Uuid(String),
}

/// Filters of the reminder listing. Due bounds are Core Data epoch seconds.
#[derive(Debug, Clone)]
pub struct ReminderFilters {
    pub q: Option<String>,
    pub completed: Option<bool>,
    pub flagged: Option<bool>,
    pub list_id: Option<ListIdFilter>,
    pub section_id: Option<String>,
    pub has_due_date: Option<bool>,
    pub due_before: Option<i64>,
    pub due_after: Option<i64>,
    pub priority_min: Option<i32>,
    pub has_notes: Option<bool>,
    pub top_level_only: Option<bool>,
}

/// A note folder named by row id or by Notes identifier.
#[derive(Debug, Clone)]
pub enum FolderIdFilter {
    RowId(i64),
    Identifier(String),
}

/// Filters of the note listing. Modification bounds are Core Data epoch seconds as the
/// nearest double holds them (exact below 2^53 seconds).
#[derive(Debug, Clone)]
pub struct NoteFilters {
    pub q: Option<String>,
    pub folder_id: Option<FolderIdFilter>,
    pub is_pinned: Option<bool>,
    pub is_locked: Option<bool>,
    pub has_checklist: Option<bool>,
    pub has_attachments: Option<bool>,
    pub include_deleted: Option<bool>,
    pub modified_before: Option<i64>,
    pub modified_after: Option<i64>,
}

/// Filters of the event listing. Start bounds are Core Data epoch seconds.
#[derive(Debug, Clone)]
pub struct EventFilters {
    pub q: Option<String>,
    pub calendar_id: Option<String>,
    pub account_id: Option<String>,
    pub start_after: Option<i64>,
    pub start_before: Option<i64>,
    pub include_hidden: bool,
    pub include_cancelled: bool,
}

/// The view of an optional string.
pub open spec fn opt_view(s: Option<String>) -> Option<Seq<char>> {
    match s {
        Some(t) => Some(t@),
        None => None,
    }
}

/// Two optional strings hold the same text, or are both absent.
pub fn same_opt_text(a: &Option<String>, b: &Option<String>) -> (r: bool)
    ensures
        r == (opt_view(*a) == opt_view(*b)),
{
    match (a, b) {
        (Some(x), Some(y)) => crate::text::str_eq(x.as_str(), y.as_str()),
        (None, None) => true,
        _ => false,
    }
}

/// Two optional integers are equal, or both absent.
fn same_opt_i64(a: Option<i64>, b: Option<i64>) -> (r: bool)
    ensures
        r == (a == b),
{
    match (a, b) {
        (Some(x), Some(y)) => x == y,
        (None, None) => true,
        _ => false,
    }
}

/// Two message filter sets select the same messages: they agree field by field.
pub open spec fn same_message_filters(a: MessageFilters, b: MessageFilters) -> bool {
    &&& opt_view(a.q) == opt_view(b.q)
    &&& a.chat_id == b.chat_id
    &&& opt_view(a.sender) == opt_view(b.sender)
    &&& a.before == b.before
    &&& a.after == b.after
    &&& a.direction == b.direction
    &&& a.transport == b.transport
    &&& a.content_type == b.content_type
    &&& a.has_attachments == b.has_attachments
}

/// Compares two message filter sets field by field.
pub fn message_filters_match(a: &MessageFilters, b: &MessageFilters) -> (r: bool)
    ensures
        r == same_message_filters(*a, *b),
{
    let same_direction = match (a.direction, b.direction) {
        (Some(x), Some(y)) => x == y,
        (None, None) => true,
        _ => false,
    };
    let same_transport = match (a.transport, b.transport) {
        (Some(x), Some(y)) => x == y,
        (None, None) => true,
        _ => false,
    };
    let same_content = match (a.content_type, b.content_type) {
        (Some(x), Some(y)) => x == y,
        (None, None) => true,
        _ => false,
    };
    let same_attachments = match (a.has_attachments, b.has_attachments) {
        (Some(x), Some(y)) => x == y,
        (None, None) => true,
        _ => false,
    };
    same_opt_text(&a.q, &b.q) && same_opt_i64(a.chat_id, b.chat_id) && same_opt_text(
        &a.sender,
        &b.sender,
    ) && same_opt_i64(a.before, b.before) && same_opt_i64(a.after, b.after) && same_direction
        && same_transport && same_content && same_attachments
}

/// Two reminder list filters name the same list the same way.
pub open spec fn same_list_filter(a: Option<ListIdFilter>, b: Option<ListIdFilter>) -> bool {
    match (a, b) {
        (None, None) => true,
        (Some(ListIdFilter::RowId(x)), Some(ListIdFilter::RowId(y))) => x == y,
        (Some(ListIdFilter::Uuid(x)), Some(ListIdFilter::Uuid(y))) => x@ == y@,
        _ => false,
    }
}

/// Two note folder filters name the same folder the same way.
pub open spec fn same_folder_filter(a: Option<FolderIdFilter>, b: Option<FolderIdFilter>) -> bool {
    match (a, b) {
        (None, None) => true,
        (Some(FolderIdFilter::RowId(x)), Some(FolderIdFilter::RowId(y))) => x == y,
        (Some(FolderIdFilter::Identifier(x)), Some(FolderIdFilter::Identifier(y))) => x@ == y@,
        _ => false,
    }
}

fn same_opt_bool(a: Option<bool>, b: Option<bool>) -> (r: bool)
    ensures
        r == (a == b),
{
    match (a, b) {
        (Some(x), Some(y)) => x == y,
        (None, None) => true,
        _ => false,
    }
}

fn same_opt_i32(a: Option<i32>, b: Option<i32>) -> (r: bool)
    ensures
        r == (a == b),
{
    match (a, b) {
        (Some(x), Some(y)) => x == y,
        (None, None) => true,
        _ => false,
    }
}

/// Two reminder filter sets select the same reminders: they agree field by field.
pub open spec fn same_reminder_filters(a: ReminderFilters, b: ReminderFilters) -> bool {
    &&& opt_view(a.q) == opt_view(b.q)
    &&& a.completed == b.completed
    &&& a.flagged == b.flagged
    &&& same_list_filter(a.list_id, b.list_id)
    &&& opt_view(a.section_id) == opt_view(b.section_id)
    &&& a.has_due_date == b.has_due_date
    &&& a.due_before == b.due_before
    &&& a.due_after == b.due_after
    &&& a.priority_min == b.priority_min
    &&& a.has_notes == b.has_notes
    &&& a.top_level_only == b.top_level_only
}

/// Compares two reminder filter sets field by field.
pub fn reminder_filters_match(a: &ReminderFilters, b: &ReminderFilters) -> (r: bool)
    ensures
        r == same_reminder_filters(*a, *b),
{
    let same_list = match (&a.list_id, &b.list_id) {
        (None, None) => true,
        (Some(ListIdFilter::RowId(x)), Some(ListIdFilter::RowId(y))) => *x == *y,
        (Some(ListIdFilter::Uuid(x)), Some(ListIdFilter::Uuid(y))) => crate::text::str_eq(
            x.as_str(),
            y.as_str(),
        ),
        _ => false,
    };
    same_opt_text(&a.q, &b.q) && same_opt_bool(a.completed, b.completed) && same_opt_bool(
        a.flagged,
        b.flagged,
    ) && same_list && same_opt_text(&a.section_id, &b.section_id) && same_opt_bool(
        a.has_due_date,
        b.has_due_date,
    ) && same_opt_i64(a.due_before, b.due_before) && same_opt_i64(a.due_after, b.due_after)
        && same_opt_i32(a.priority_min, b.priority_min) && same_opt_bool(a.has_notes, b.has_notes)
        && same_opt_bool(a.top_level_only, b.top_level_only)
}

/// Two note filter sets select the same notes: they agree field by field.
pub open spec fn same_note_filters(a: NoteFilters, b: NoteFilters) -> bool {
    &&& opt_view(a.q) == opt_view(b.q)
    &&& same_folder_filter(a.folder_id, b.folder_id)
    &&& a.is_pinned == b.is_pinned
    &&& a.is_locked == b.is_locked
    &&& a.has_checklist == b.has_checklist
    &&& a.has_attachments == b.has_attachments
    &&& a.include_deleted == b.include_deleted
    &&& a.modified_before == b.modified_before
    &&& a.modified_after == b.modified_after
}

/// Compares two note filter sets field by field.
pub fn note_filters_match(a: &NoteFilters, b: &NoteFilters) -> (r: bool)
    ensures
        r == same_note_filters(*a, *b),
{
    let same_folder = match (&a.folder_id, &b.folder_id) {
        (None, None) => true,
        (Some(FolderIdFilter::RowId(x)), Some(FolderIdFilter::RowId(y))) => *x == *y,
        (Some(FolderIdFilter::Identifier(x)), Some(FolderIdFilter::Identifier(y))) => {
            crate::text::str_eq(x.as_str(), y.as_str())
        },
        _ => false,
    };
    same_opt_text(&a.q, &b.q) && same_folder && same_opt_bool(a.is_pinned, b.is_pinned)
        && same_opt_bool(a.is_locked, b.is_locked) && same_opt_bool(
        a.has_checklist,
        b.has_checklist,
    ) && same_opt_bool(a.has_attachments, b.has_attachments) && same_opt_bool(
        a.include_deleted,
        b.include_deleted,
    ) && same_opt_i64(a.modified_before, b.modified_before) && same_opt_i64(
        a.modified_after,
        b.modified_after,
    )
}

/// Two event filter sets select the same events: they agree field by field.
pub open spec fn same_event_filters(a: EventFilters, b: EventFilters) -> bool {
    &&& opt_view(a.q) == opt_view(b.q)
    &&& opt_view(a.calendar_id) == opt_view(b.calendar_id)
    &&& opt_view(a.account_id) == opt_view(b.account_id)
    &&& a.start_after == b.start_after
    &&& a.start_before == b.start_before
    &&& a.include_hidden == b.include_hidden
    &&& a.include_cancelled == b.include_cancelled
}

/// Compares two event filter sets field by field.
pub fn event_filters_match(a: &EventFilters, b: &EventFilters) -> (r: bool)
    ensures
        r == same_event_filters(*a, *b),
{
    same_opt_text(&a.q, &b.q) && same_opt_text(&a.calendar_id, &b.calendar_id) && same_opt_text(
        &a.account_id,
        &b.account_id,
    ) && same_opt_i64(a.start_after, b.start_after) && same_opt_i64(a.start_before, b.start_before)
        && a.include_hidden == b.include_hidden && a.include_cancelled == b.include_cancelled
}

// ---------------------------------------------------------------------------------------------
// Laws
// ---------------------------------------------------------------------------------------------

/// Two message filter sets count as the same exactly when every filter is equal: the query
/// and sender as text, the chat, both time bounds, the direction, the transport, the content
/// category and the attachment flag.
pub proof fn law_same_message_filters_means_equal_filters(a: MessageFilters, b: MessageFilters)
    ensures
        same_message_filters(a, b) <==> (opt_view(a.q) == opt_view(b.q) && a.chat_id == b.chat_id
            && opt_view(a.sender) == opt_view(b.sender) && a.before == b.before && a.after
            == b.after && a.direction == b.direction && a.transport == b.transport && a.content_type
            == b.content_type && a.has_attachments == b.has_attachments),
{
}

/// Two reminder filter sets count as the same exactly when every filter is equal.
pub proof fn law_same_reminder_filters_means_equal_filters(a: ReminderFilters, b: ReminderFilters)
    ensures
        same_reminder_filters(a, b) <==> (opt_view(a.q) == opt_view(b.q) && a.completed
            == b.completed && a.flagged == b.flagged && match (a.list_id, b.list_id) {
            (None, None) => true,
            (Some(ListIdFilter::RowId(x)), Some(ListIdFilter::RowId(y))) => x == y,
            (Some(ListIdFilter::Uuid(x)), Some(ListIdFilter::Uuid(y))) => x@ == y@,
            _ => false,
        } && opt_view(a.section_id) == opt_view(b.section_id) && a.has_due_date == b.has_due_date
            && a.due_before == b.due_before && a.due_after == b.due_after && a.priority_min
            == b.priority_min && a.has_notes == b.has_notes && a.top_level_only == b.top_level_only),
{
}

/// Two note filter sets count as the same exactly when every filter is equal.
pub proof fn law_same_note_filters_means_equal_filters(a: NoteFilters, b: NoteFilters)
    ensures
        same_note_filters(a, b) <==> (opt_view(a.q) == opt_view(b.q) && match (
            a.folder_id,
            b.folder_id,
        ) {
            (None, None) => true,
            (Some(FolderIdFilter::RowId(x)), Some(FolderIdFilter::RowId(y))) => x == y,
            (Some(FolderIdFilter::Identifier(x)), Some(FolderIdFilter::Identifier(y))) => x@ == y@,
            _ => false,
        } && a.is_pinned == b.is_pinned && a.is_locked == b.is_locked && a.has_checklist
            == b.has_checklist && a.has_attachments == b.has_attachments && a.include_deleted
            == b.include_deleted && a.modified_before == b.modified_before && a.modified_after
            == b.modified_after),
{
}

/// Two event filter sets count as the same exactly when every filter is equal.
pub proof fn law_same_event_filters_means_equal_filters(a: EventFilters, b: EventFilters)
    ensures
        same_event_filters(a, b) <==> (opt_view(a.q) == opt_view(b.q) && opt_view(a.calendar_id)
            == opt_view(b.calendar_id) && opt_view(a.account_id) == opt_view(b.account_id)
            && a.start_after == b.start_after && a.start_before == b.start_before
            && a.include_hidden == b.include_hidden && a.include_cancelled == b.include_cancelled),
{
}

} // verus!
