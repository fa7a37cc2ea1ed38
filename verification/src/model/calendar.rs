//! Calendar records.

use vstd::prelude::*;

use crate::floats::FloatBits;

verus! {

/// The kind of store a calendar account lives in.
#[derive(Debug, Clone, Copy, PartialEq, Eq, Structural)]
pub enum StoreType {
    Local,
    CalDav,
    Exchange,
    Subscription,
    Birthday,
}

/// The status of an event.
#[derive(Debug, Clone, Copy, PartialEq, Eq, Structural)]
pub enum EventStatus {
    Confirmed,
    Tentative,
    Cancelled,
}

/// A participant's answer to an invitation.
#[derive(Debug, Clone, Copy, PartialEq, Eq, Structural)]
pub enum InvitationStatus {
    Unknown,
    Accepted,
    Declined,
    Tentative,
    NeedsAction,
}

/// How an event shows the owner's time.
#[derive(Debug, Clone, Copy, PartialEq, Eq, Structural)]
pub enum Availability {
    Busy,
    Free,
    Tentative,
    Unavailable,
}

/// Who may see an event's details.
#[derive(Debug, Clone, Copy, PartialEq, Eq, Structural)]
pub enum PrivacyLevel {
    Default,
    Public,
    Private,
}

/// The class of an event.
#[derive(Debug, Clone, Copy, PartialEq, Eq, Structural)]
pub enum EventClass {
    Standard,
    Birthday,
    SpecialDay,
}

/// A calendar account.
#[derive(Debug, Clone)]
pub struct CalendarAccount {
    pub id: String,
    pub row_id: i64,
    pub name: Option<String>,
    pub store_type: StoreType,
    pub disabled: bool,
}

/// The listing fields of a calendar.
#[derive(Debug, Clone)]
pub struct CalendarSummary {
    pub id: String,
    pub row_id: i64,
    pub title: Option<String>,
    pub color: Option<String>,
    pub account_id: String,
    pub account_row_id: i64,
}

/// Every field of a calendar.
#[derive(Debug, Clone)]
pub struct CalendarDetail {
    pub summary: CalendarSummary,
    pub notes: Option<String>,
    pub sharing_status: Option<i64>,
}

/// The listing fields of an event.
#[derive(Debug, Clone)]
pub struct EventSummary {
    pub id: String,
    pub row_id: i64,
    pub calendar_id: String,
    pub calendar_row_id: i64,
    pub summary: Option<String>,
    pub start: Option<i64>,
    pub end: Option<i64>,
    pub all_day: bool,
    pub status: EventStatus,
    pub hidden: bool,
    pub is_recurring: bool,
    pub occurrence_start: Option<i64>,
    pub occurrence_end: Option<i64>,
    pub event_class: EventClass,
}

/// Where an event takes place.
#[derive(Debug, Clone)]
pub struct EventLocation {
    pub title: Option<String>,
    pub address: Option<String>,
    pub latitude: Option<FloatBits>,
    pub longitude: Option<FloatBits>,
}

/// An organizer or attendee.
#[derive(Debug, Clone)]
pub struct EventParticipant {
    pub id: String,
    pub email: Option<String>,
    pub phone_number: Option<String>,
    pub name: Option<String>,
    pub is_self: bool,
    pub status: InvitationStatus,
    pub role: Option<i64>,
    pub comment: Option<String>,
}

/// How an event repeats.
#[derive(Debug, Clone)]
pub struct RecurrenceRule {
    pub frequency: i64,
    pub interval: i64,
    pub count: Option<i64>,
    pub end_date: Option<i64>,
    pub specifier: Option<String>,
    pub raw_specifier: String,
}

/// An alarm of an event.
#[derive(Debug, Clone)]
pub struct EventAlarm {
    pub id: String,
    pub trigger_interval_seconds: Option<i64>,
    pub trigger_date: Option<i64>,
    pub alarm_type: i64,
    pub disabled: bool,
}

/// A file attached to an event.
#[derive(Debug, Clone)]
pub struct EventAttachment {
    pub id: String,
    pub row_id: i64,
    pub filename: Option<String>,
    pub format: Option<String>,
    pub file_size: Option<i64>,
    pub local_path: Option<String>,
}

/// Every field of an event.
#[derive(Debug, Clone)]
pub struct EventDetail {
    pub summary: EventSummary,
    pub description: Option<String>,
    pub url: Option<String>,
    pub location: Option<EventLocation>,
    pub organizer: Option<EventParticipant>,
    pub attendees: Vec<EventParticipant>,
    pub recurrence: Option<RecurrenceRule>,
    pub exception_dates: Vec<i64>,
    pub alarms: Vec<EventAlarm>,
    pub attachments: Vec<EventAttachment>,
    pub conference_url: Option<String>,
    pub travel_time_seconds: Option<i64>,
    pub invitation_status: InvitationStatus,
    pub availability: Availability,
    pub privacy_level: PrivacyLevel,
    pub series_id: Option<String>,
    pub series_row_id: Option<i64>,
    pub original_start: Option<i64>,
    pub last_modified: Option<i64>,
    pub creation_date: Option<i64>,
    pub structured_data: Option<Vec<u8>>,
    pub app_link: Option<String>,
}

/// The detail of an event known only by its summary: nothing beyond the summary is known,
/// the invitation status is unknown, the time shows busy and the privacy is the default.
pub fn empty_event_detail(summary: EventSummary) -> (detail: EventDetail)
    ensures
        detail.summary == summary,
        detail.description is None,
        detail.url is None,
        detail.location is None,
        detail.organizer is None,
        detail.attendees@.len() == 0,
        detail.recurrence is None,
        detail.exception_dates@.len() == 0,
        detail.alarms@.len() == 0,
        detail.attachments@.len() == 0,
        detail.conference_url is None,
        detail.travel_time_seconds is None,
        detail.invitation_status == InvitationStatus::Unknown,
        detail.availability == Availability::Busy,
        detail.privacy_level == PrivacyLevel::Default,
        detail.series_id is None,
        detail.series_row_id is None,
        detail.original_start is None,
        detail.last_modified is None,
        detail.creation_date is None,
        detail.structured_data is None,
        detail.app_link is None,
{
    EventDetail {
        summary,
        description: None,
        url: None,
        location: None,
        organizer: None,
        attendees: Vec::new(),
        recurrence: None,
        exception_dates: Vec::new(),
        alarms: Vec::new(),
        attachments: Vec::new(),
        conference_url: None,
        travel_time_seconds: None,
        invitation_status: InvitationStatus::Unknown,
        availability: Availability::Busy,
        privacy_level: PrivacyLevel::Default,
        series_id: None,
        series_row_id: None,
        original_start: None,
        last_modified: None,
        creation_date: None,
        structured_data: None,
        app_link: None,
    }
}

} // verus!
