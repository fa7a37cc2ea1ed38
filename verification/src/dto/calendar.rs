//! Calendar responses.

use vstd::prelude::*;

use crate::dto::pagination::PageMetaDto;
use crate::floats::FloatBits;

verus! {

/// The status of an event.
#[derive(Debug, Clone, Copy, PartialEq, Eq, Structural)]
pub enum EventStatusDto {
    Confirmed,
    Tentative,
    Cancelled,
}

/// A participant's answer to an invitation.
#[derive(Debug, Clone, Copy, PartialEq, Eq, Structural)]
pub enum InvitationStatusDto {
    Unknown,
    Accepted,
    Declined,
    Tentative,
    NeedsAction,
}

/// How an event shows the owner's time.
#[derive(Debug, Clone, Copy, PartialEq, Eq, Structural)]
pub enum AvailabilityDto {
    Busy,
    Free,
    Tentative,
    Unavailable,
}

/// Who may see an event's details.
#[derive(Debug, Clone, Copy, PartialEq, Eq, Structural)]
pub enum PrivacyLevelDto {
    Default,
    Public,
    Private,
}

/// The kind of store a calendar account lives in.
#[derive(Debug, Clone, Copy, PartialEq, Eq, Structural)]
pub enum StoreTypeDto {
    Local,
    CalDav,
    Exchange,
    Subscription,
    Birthday,
}

/// The class of an event.
#[derive(Debug, Clone, Copy, PartialEq, Eq, Structural)]
pub enum EventClassDto {
    Standard,
    Birthday,
    SpecialDay,
}

/// A calendar account.
#[derive(Debug, Clone)]
pub struct CalendarAccountDto {
    pub id: String,
    pub row_id: i64,
    pub name: Option<String>,
    pub store_type: StoreTypeDto,
    pub disabled: bool,
}

/// The calendar account listing.
#[derive(Debug, Clone)]
pub struct CalendarAccountPageDto {
    pub items: Vec<CalendarAccountDto>,
}

/// A calendar as the listing shows it.
#[derive(Debug, Clone)]
pub struct CalendarSummaryDto {
    pub id: String,
    pub row_id: i64,
    pub title: Option<String>,
    pub color: Option<String>,
    pub account_id: String,
    pub account_row_id: i64,
}

/// Every field of a calendar; the summary fields are flattened into it when serialized.
#[derive(Debug, Clone)]
pub struct CalendarDetailDto {
    pub summary: CalendarSummaryDto,
    pub notes: Option<String>,
    pub sharing_status: Option<i64>,
}

/// One page of calendars.
#[derive(Debug, Clone)]
pub struct CalendarPageDto {
    pub items: Vec<CalendarSummaryDto>,
    pub page: PageMetaDto,
}

/// An event as the listing shows it.
#[derive(Debug, Clone)]
pub struct EventSummaryDto {
    pub id: String,
    pub row_id: i64,
    pub calendar_id: String,
    pub calendar_row_id: i64,
    pub summary: Option<String>,
    pub start: Option<i64>,
    pub end: Option<i64>,
    pub all_day: bool,
    pub status: EventStatusDto,
    pub hidden: bool,
    pub is_recurring: bool,
    pub occurrence_start: Option<i64>,
    pub occurrence_end: Option<i64>,
    pub event_class: EventClassDto,
}

/// Where an event takes place.
#[derive(Debug, Clone)]
pub struct EventLocationDto {
    pub title: Option<String>,
    pub address: Option<String>,
    pub latitude: Option<FloatBits>,
    pub longitude: Option<FloatBits>,
}

/// An organizer or attendee.
#[derive(Debug, Clone)]
pub struct EventParticipantDto {
    pub id: String,
    pub email: Option<String>,
    pub phone_number: Option<String>,
    pub name: Option<String>,
    pub is_self: bool,
    pub status: InvitationStatusDto,
    pub role: Option<i64>,
    pub comment: Option<String>,
}

/// How an event repeats.
#[derive(Debug, Clone)]
pub struct RecurrenceRuleDto {
    pub frequency: i64,
    pub interval: i64,
    pub count: Option<i64>,
    pub end_date: Option<i64>,
    pub specifier: Option<String>,
    pub raw_specifier: String,
}

/// An alarm of an event.
#[derive(Debug, Clone)]
pub struct EventAlarmDto {
    pub id: String,
    pub trigger_interval_seconds: Option<i64>,
    pub trigger_date: Option<i64>,
    pub alarm_type: i64,
    pub disabled: bool,
}

/// A file attached to an event.
#[derive(Debug, Clone)]
pub struct EventAttachmentSummaryDto {
    pub id: String,
    pub row_id: i64,
    pub filename: Option<String>,
    pub format: Option<String>,
    pub file_size: Option<i64>,
}

/// Every field of an event attachment.
#[derive(Debug, Clone)]
pub struct EventAttachmentDetailDto {
    pub summary: EventAttachmentSummaryDto,
    pub local_path: Option<String>,
}

/// Every field of an event; the summary fields are flattened into it when serialized.
#[derive(Debug, Clone)]
pub struct EventDetailDto {
    pub summary: EventSummaryDto,
    pub description: Option<String>,
    pub url: Option<String>,
    pub location: Option<EventLocationDto>,
    pub organizer: Option<EventParticipantDto>,
    pub attendees: Vec<EventParticipantDto>,
    pub recurrence: Option<RecurrenceRuleDto>,
    pub exception_dates: Vec<i64>,
    pub alarms: Vec<EventAlarmDto>,
    pub attachments: Vec<EventAttachmentSummaryDto>,
    pub conference_url: Option<String>,
    pub travel_time_seconds: Option<i64>,
    pub invitation_status: InvitationStatusDto,
    pub availability: AvailabilityDto,
    pub privacy_level: PrivacyLevelDto,
    pub series_id: Option<String>,
    pub series_row_id: Option<i64>,
    pub original_start: Option<i64>,
    pub last_modified: Option<i64>,
    pub creation_date: Option<i64>,
    pub has_structured_data: bool,
    pub has_app_link: bool,
}

/// One page of events.
#[derive(Debug, Clone)]
pub struct EventPageDto {
    pub items: Vec<EventSummaryDto>,
    pub page: PageMetaDto,
}

} // verus!
