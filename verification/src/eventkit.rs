//! Calendar and reminder writes: request checks, the conversion of requests into store
//! inputs, store authorisation decisions and store error mapping.

use vstd::prelude::*;

use crate::error::{details_view, field_details, ApiError, DetailEntry, DetailValueView};
use crate::error_codes::{message_of, status_of, ErrorCode};
use crate::floats::FloatBits;

verus! {

broadcast use vstd::string::group_string_axioms;

// ---------------------------------------------------------------------------------------------
// Store errors and authorisation
// ---------------------------------------------------------------------------------------------

/// An error the calendar and reminder store reports.
#[derive(Debug, Clone)]
pub enum EventKitError {
    NotFound,
    AccessDenied,
    ReadOnlyCalendar,
    ValidationFailed(String),
    EndBeforeStart,
    AmbiguousMatch(String),
    UnsupportedPlatform,
    Framework(String),
    Timeout,
}

/// The API error a store error becomes.
pub open spec fn eventkit_error_maps_to(error: EventKitError, e: ApiError) -> bool {
    match error {
        EventKitError::NotFound => e.is_default(ErrorCode::ResourceNotFound),
        EventKitError::AccessDenied => e.is_default(ErrorCode::EventkitAccessDenied),
        EventKitError::ReadOnlyCalendar => e.is_default(ErrorCode::CalendarReadOnly),
        EventKitError::ValidationFailed(m) => e.is_plain(ErrorCode::UnprocessableEntity, m@),
        EventKitError::EndBeforeStart => e.is_default(ErrorCode::EventEndBeforeStart),
        EventKitError::AmbiguousMatch(m) => e.is_plain(ErrorCode::AmbiguousEventKitMatch, m@),
        EventKitError::UnsupportedPlatform => e.is_default(ErrorCode::EventkitUnavailable),
        EventKitError::Framework(_) => e.is_default(ErrorCode::InternalError),
        EventKitError::Timeout => e.is_default(ErrorCode::GatewayTimeout),
    }
}

/// Maps a store error to the API error a client sees; framework messages are not passed on.
pub fn map_eventkit_error(error: EventKitError) -> (e: ApiError)
    ensures
        eventkit_error_maps_to(error, e),
{
    match error {
        EventKitError::NotFound => ApiError::new(ErrorCode::ResourceNotFound),
        EventKitError::AccessDenied => ApiError::new(ErrorCode::EventkitAccessDenied),
        EventKitError::ReadOnlyCalendar => ApiError::new(ErrorCode::CalendarReadOnly),
        EventKitError::ValidationFailed(message) => ApiError::with_message(
            ErrorCode::UnprocessableEntity,
            message,
        ),
        EventKitError::EndBeforeStart => ApiError::new(ErrorCode::EventEndBeforeStart),
        EventKitError::AmbiguousMatch(message) => ApiError::with_message(
            ErrorCode::AmbiguousEventKitMatch,
            message,
        ),
        EventKitError::UnsupportedPlatform => ApiError::eventkit_unavailable(),
        EventKitError::Framework(_message) => ApiError::new(ErrorCode::InternalError),
        EventKitError::Timeout => ApiError::new(ErrorCode::GatewayTimeout),
    }
}

/// The store's authorisation for one kind of data.
#[derive(Debug, Clone, Copy, PartialEq, Eq, Structural)]
pub enum AuthStatus {
    NotDetermined,
    Restricted,
    Denied,
    Authorized,
    WriteOnly,
    Unavailable,
}

/// Authorisation as the health report shows it.
#[derive(Debug, Clone, Copy, PartialEq, Eq, Structural)]
pub enum EventKitAuthStatusDto {
    NotDetermined,
    Restricted,
    Denied,
    Authorized,
    WriteOnly,
    Unavailable,
}

pub open spec fn auth_status_dto_of(status: AuthStatus) -> EventKitAuthStatusDto {
    match status {
        AuthStatus::NotDetermined => EventKitAuthStatusDto::NotDetermined,
        AuthStatus::Restricted => EventKitAuthStatusDto::Restricted,
        AuthStatus::Denied => EventKitAuthStatusDto::Denied,
        AuthStatus::Authorized => EventKitAuthStatusDto::Authorized,
        AuthStatus::WriteOnly => EventKitAuthStatusDto::WriteOnly,
        AuthStatus::Unavailable => EventKitAuthStatusDto::Unavailable,
    }
}

/// Authorisation as the health report shows it.
pub fn auth_status_to_dto(status: AuthStatus) -> (dto: EventKitAuthStatusDto)
    ensures
        dto == auth_status_dto_of(status),
{
    match status {
        AuthStatus::NotDetermined => EventKitAuthStatusDto::NotDetermined,
        AuthStatus::Restricted => EventKitAuthStatusDto::Restricted,
        AuthStatus::Denied => EventKitAuthStatusDto::Denied,
        AuthStatus::Authorized => EventKitAuthStatusDto::Authorized,
        AuthStatus::WriteOnly => EventKitAuthStatusDto::WriteOnly,
        AuthStatus::Unavailable => EventKitAuthStatusDto::Unavailable,
    }
}

/// The authorisation a health report shows for a store that may be absent.
pub fn store_status_to_dto(status: Option<AuthStatus>) -> (dto: EventKitAuthStatusDto)
    ensures
        dto == match status {
            Some(s) => auth_status_dto_of(s),
            None => EventKitAuthStatusDto::Unavailable,
        },
{
    match status {
        Some(s) => auth_status_to_dto(s),
        None => EventKitAuthStatusDto::Unavailable,
    }
}

/// The kind of store data a request needs.
#[derive(Debug, Clone, Copy, PartialEq, Eq, Structural)]
pub enum EventKitDomain {
    Reminders,
    Events,
}

/// What to do next when a request needs store access.
#[derive(Debug, Clone)]
pub enum AccessStep {
    /// Go on with the request.
    Proceed,
    /// Ask the user for access, then decide again on the new status.
    RequestAccess,
    /// Answer with this error.
    Refuse(ApiError),
}

/// The error for access the user refused.
pub open spec fn is_access_denied_error(e: ApiError, domain: EventKitDomain) -> bool {
    match domain {
        EventKitDomain::Reminders => e.is_plain(
            ErrorCode::Forbidden,
            "Reminders access denied; grant Reminders permission in System Settings"@,
        ),
        EventKitDomain::Events => e.is_plain(
            ErrorCode::Forbidden,
            "Calendar access denied; grant Calendars permission in System Settings"@,
        ),
    }
}

/// The error for access still undecided after asking.
pub open spec fn is_access_pending_error(e: ApiError, domain: EventKitDomain) -> bool {
    match domain {
        EventKitDomain::Reminders => e.is_plain(
            ErrorCode::ServiceUnavailable,
            "Reminders access not granted"@,
        ),
        EventKitDomain::Events => e.is_plain(
            ErrorCode::ServiceUnavailable,
            "Calendar access not granted"@,
        ),
    }
}

/// Decides how a request that needs store access goes on, given the store's current status
/// and whether access was already asked for: full or write-only access proceeds; refused or
/// restricted access is forbidden; an undecided status is asked about once; an unavailable
/// store is reported as such.
pub fn access_step(status: AuthStatus, asked: bool, domain: EventKitDomain) -> (step: AccessStep)
    ensures
        step is Proceed <==> (status == AuthStatus::Authorized || status == AuthStatus::WriteOnly),
        step is RequestAccess <==> (status == AuthStatus::NotDetermined && !asked),
        step matches AccessStep::Refuse(e) ==> match status {
            AuthStatus::Denied | AuthStatus::Restricted => is_access_denied_error(e, domain),
            AuthStatus::NotDetermined => is_access_pending_error(e, domain),
            _ => e.is_default(ErrorCode::EventkitUnavailable),
        },
{
    match status {
        AuthStatus::Authorized | AuthStatus::WriteOnly => AccessStep::Proceed,
        AuthStatus::Denied | AuthStatus::Restricted => {
            let message = match domain {
                EventKitDomain::Reminders => String::from_str(
                    "Reminders access denied; grant Reminders permission in System Settings",
                ),
                EventKitDomain::Events => String::from_str(
                    "Calendar access denied; grant Calendars permission in System Settings",
                ),
            };
            AccessStep::Refuse(ApiError::forbidden(message))
        },
        AuthStatus::NotDetermined => {
            if asked {
                let message = match domain {
                    EventKitDomain::Reminders => String::from_str("Reminders access not granted"),
                    EventKitDomain::Events => String::from_str("Calendar access not granted"),
                };
                AccessStep::Refuse(ApiError::service_unavailable(message))
            } else {
                AccessStep::RequestAccess
            }
        },
        AuthStatus::Unavailable => AccessStep::Refuse(ApiError::eventkit_unavailable()),
    }
}


// ---------------------------------------------------------------------------------------------
// Write requests
// ---------------------------------------------------------------------------------------------

/// A location in a write request.
#[derive(Debug, Clone)]
pub struct LocationInputDto {
    pub title: Option<String>,
    pub latitude: Option<FloatBits>,
    pub longitude: Option<FloatBits>,
}

/// The kind of an alarm, as requests and responses name it.
#[derive(Debug, Clone, Copy, PartialEq, Eq, Structural)]
pub enum AlarmKindDto {
    Absolute,
    Relative,
    Location,
    Unknown,
}

/// An alarm in a write request; `at` is Unix seconds.
#[derive(Debug, Clone, Copy, PartialEq, Eq, Structural)]
pub struct AlarmInputDto {
    pub kind: AlarmKindDto,
    pub at: Option<i64>,
    pub offset_seconds: Option<i64>,
}

/// A due date in a write request; `at` is Unix seconds.
#[derive(Debug, Clone, Copy, PartialEq, Eq, Structural)]
pub struct DueInputDto {
    pub at: i64,
    pub all_day: bool,
}

/// How often a recurrence repeats.
#[derive(Debug, Clone, Copy, PartialEq, Eq, Structural)]
pub enum RecurrenceFrequencyDto {
    Daily,
    Weekly,
    Monthly,
    Yearly,
}

/// A recurrence in a write request; `end_date` is Unix seconds.
#[derive(Debug, Clone, Copy, PartialEq, Eq, Structural)]
pub struct RecurrenceInputDto {
    pub frequency: RecurrenceFrequencyDto,
    pub interval: i64,
    pub count: Option<i64>,
    pub end_date: Option<i64>,
}

/// An event status a client may try to set.
#[derive(Debug, Clone, Copy, PartialEq, Eq, Structural)]
pub enum EventStatusInputDto {
    Confirmed,
    Tentative,
    Cancelled,
}

/// Which occurrences of a recurring event a change applies to.
#[derive(Debug, Clone, Copy, PartialEq, Eq, Structural)]
pub enum EventSpanDto {
    This,
    Future,
}

/// A new event; times are Unix seconds.
#[derive(Debug, Clone)]
pub struct CreateEventRequest {
    pub summary: String,
    pub description: Option<String>,
    pub start: i64,
    pub end: i64,
    pub all_day: bool,
    pub url: Option<String>,
    pub status: Option<EventStatusInputDto>,
    pub location: Option<LocationInputDto>,
    pub alarms: Vec<AlarmInputDto>,
    pub recurrence: Option<RecurrenceInputDto>,
}

/// A partial event update; an absent field is left as it is, an inner `None` clears it.
#[derive(Debug, Clone)]
pub struct UpdateEventRequest {
    pub summary: Option<String>,
    pub description: Option<Option<String>>,
    pub start: Option<i64>,
    pub end: Option<i64>,
    pub all_day: Option<bool>,
    pub url: Option<Option<String>>,
    pub status: Option<EventStatusInputDto>,
    pub location: Option<Option<LocationInputDto>>,
    pub alarms: Option<Vec<AlarmInputDto>>,
    pub recurrence: Option<Option<RecurrenceInputDto>>,
}

impl UpdateEventRequest {
    /// The update that changes nothing.
    pub open spec fn is_empty(self) -> bool {
        &&& self.summary is None
        &&& self.description is None
        &&& self.start is None
        &&& self.end is None
        &&& self.all_day is None
        &&& self.url is None
        &&& self.status is None
        &&& self.location is None
        &&& self.alarms is None
        &&& self.recurrence is None
    }
}

impl Default for UpdateEventRequest {
    fn default() -> (r: Self)
        ensures
            r.is_empty(),
    {
        UpdateEventRequest {
            summary: None,
            description: None,
            start: None,
            end: None,
            all_day: None,
            url: None,
            status: None,
            location: None,
            alarms: None,
            recurrence: None,
        }
    }
}

/// A new reminder; the section, parent, tags, attachments and flag cannot be written.
#[derive(Debug, Clone)]
pub struct CreateReminderRequest {
    pub title: String,
    pub notes: Option<String>,
    pub due: Option<DueInputDto>,
    pub completed: Option<bool>,
    pub priority: Option<i64>,
    pub url: Option<String>,
    pub location: Option<LocationInputDto>,
    pub alarms: Vec<AlarmInputDto>,
    pub recurrence: Option<RecurrenceInputDto>,
    pub section_id: Option<String>,
    pub parent_id: Option<String>,
    pub tags: Vec<String>,
    pub attachments: Vec<String>,
    pub flagged: Option<bool>,
}

/// A partial reminder update; an absent field is left as it is, an inner `None` clears it.
#[derive(Debug, Clone)]
pub struct UpdateReminderRequest {
    pub title: Option<String>,
    pub notes: Option<Option<String>>,
    pub due: Option<Option<DueInputDto>>,
    pub completed: Option<bool>,
    pub priority: Option<i64>,
    pub url: Option<Option<String>>,
    pub list_id: Option<String>,
    pub location: Option<Option<LocationInputDto>>,
    pub alarms: Option<Vec<AlarmInputDto>>,
    pub recurrence: Option<Option<RecurrenceInputDto>>,
    pub section_id: Option<String>,
    pub parent_id: Option<String>,
    pub tags: Vec<String>,
    pub attachments: Vec<String>,
    pub flagged: Option<bool>,
}

impl UpdateReminderRequest {
    /// The update that changes nothing.
    pub open spec fn is_empty(self) -> bool {
        &&& self.title is None
        &&& self.notes is None
        &&& self.due is None
        &&& self.completed is None
        &&& self.priority is None
        &&& self.url is None
        &&& self.list_id is None
        &&& self.location is None
        &&& self.alarms is None
        &&& self.recurrence is None
        &&& self.section_id is None
        &&& self.parent_id is None
        &&& self.tags@.len() == 0
        &&& self.attachments@.len() == 0
        &&& self.flagged is None
    }
}

impl Default for UpdateReminderRequest {
    fn default() -> (r: Self)
        ensures
            r.is_empty(),
    {
        UpdateReminderRequest {
            title: None,
            notes: None,
            due: None,
            completed: None,
            priority: None,
            url: None,
            list_id: None,
            location: None,
            alarms: None,
            recurrence: None,
            section_id: None,
            parent_id: None,
            tags: Vec::new(),
            attachments: Vec::new(),
            flagged: None,
        }
    }
}

// ---------------------------------------------------------------------------------------------
// Store inputs
// ---------------------------------------------------------------------------------------------

/// Which occurrences of a recurring event a store change applies to.
#[derive(Debug, Clone, Copy, PartialEq, Eq, Structural)]
pub enum EventSpan {
    This,
    Future,
}

/// The kind of a stored alarm.
#[derive(Debug, Clone, Copy, PartialEq, Eq, Structural)]
pub enum AlarmKind {
    Absolute,
    Relative,
}

/// An alarm to store.
#[derive(Debug, Clone, Copy, PartialEq, Eq, Structural)]
pub struct AlarmInput {
    pub kind: AlarmKind,
    pub at: Option<i64>,
    pub offset_seconds: Option<i64>,
}

/// A due date to store.
#[derive(Debug, Clone, Copy, PartialEq, Eq, Structural)]
pub struct DueInput {
    pub at: i64,
    pub all_day: bool,
}

/// How often a stored recurrence repeats.
#[derive(Debug, Clone, Copy, PartialEq, Eq, Structural)]
pub enum RecurrenceFrequency {
    Daily,
    Weekly,
    Monthly,
    Yearly,
}

/// A recurrence to store.
#[derive(Debug, Clone, Copy, PartialEq, Eq, Structural)]
pub struct RecurrenceInput {
    pub frequency: RecurrenceFrequency,
    pub interval: i64,
    pub count: Option<i64>,
    pub end_date: Option<i64>,
}

/// An event location to store, coordinates included.
#[derive(Debug, Clone)]
pub struct LocationInput {
    pub title: Option<String>,
    pub latitude: Option<FloatBits>,
    pub longitude: Option<FloatBits>,
}

/// A reminder location to store: its text only.
#[derive(Debug, Clone)]
pub struct ReminderLocationInput {
    pub title: Option<String>,
}

/// The kind of store an event calendar lives in.
#[derive(Debug, Clone, Copy, PartialEq, Eq, Structural)]
pub enum CalendarStoreType {
    Local,
    CalDav,
    Exchange,
    Subscription,
    Birthday,
}

/// What the database knows of a calendar, to find it in the store.
#[derive(Debug, Clone)]
pub struct CalendarResolveMetadata {
    pub api_id: String,
    pub external_id: Option<String>,
    pub title: String,
    pub store_type: i64,
}

/// How the store finds a calendar.
#[derive(Debug, Clone)]
pub struct CalendarResolveHint {
    pub api_id: String,
    pub external_id: Option<String>,
    pub title: String,
    pub store_type: CalendarStoreType,
}

/// What the database knows of a reminder list, to find it in the store.
#[derive(Debug, Clone)]
pub struct ReminderListResolveMetadata {
    pub api_id: String,
    pub external_id: Option<String>,
    pub title: String,
    pub is_smart_list: bool,
}

/// How the store finds a reminder list.
#[derive(Debug, Clone)]
pub struct ReminderListResolveHint {
    pub api_id: String,
    pub external_id: Option<String>,
    pub title: String,
    pub is_smart_list: bool,
}

/// A new event for the store.
#[derive(Debug, Clone)]
pub struct CreateEventInput {
    pub summary: String,
    pub description: Option<String>,
    pub start: i64,
    pub end: i64,
    pub all_day: bool,
    pub url: Option<String>,
    pub location: Option<LocationInput>,
    pub alarms: Vec<AlarmInput>,
    pub recurrence: Option<RecurrenceInput>,
}

/// An event change for the store.
#[derive(Debug, Clone)]
pub struct UpdateEventInput {
    pub summary: Option<String>,
    pub description: Option<Option<String>>,
    pub start: Option<i64>,
    pub end: Option<i64>,
    pub all_day: Option<bool>,
    pub url: Option<Option<String>>,
    pub calendar_hint: Option<CalendarResolveHint>,
    pub location: Option<Option<LocationInput>>,
    pub alarms: Option<Vec<AlarmInput>>,
    pub recurrence: Option<Option<RecurrenceInput>>,
    pub span: EventSpan,
}

/// An event deletion for the store.
#[derive(Debug, Clone, Copy, PartialEq, Eq, Structural)]
pub struct DeleteEventInput {
    pub span: EventSpan,
    pub occurrence_start: Option<i64>,
}

/// A new reminder for the store.
#[derive(Debug, Clone)]
pub struct CreateReminderInput {
    pub title: String,
    pub notes: Option<String>,
    pub due: Option<DueInput>,
    pub completed: Option<bool>,
    pub priority: Option<i64>,
    pub url: Option<String>,
    pub location: Option<ReminderLocationInput>,
    pub alarms: Vec<AlarmInput>,
    pub recurrence: Option<RecurrenceInput>,
}

/// A reminder change for the store.
#[derive(Debug, Clone)]
pub struct UpdateReminderInput {
    pub title: Option<String>,
    pub notes: Option<Option<String>>,
    pub due: Option<Option<DueInput>>,
    pub completed: Option<bool>,
    pub priority: Option<i64>,
    pub url: Option<Option<String>>,
    pub list_hint: Option<ReminderListResolveHint>,
    pub location: Option<Option<ReminderLocationInput>>,
    pub alarms: Option<Vec<AlarmInput>>,
    pub recurrence: Option<Option<RecurrenceInput>>,
}


// ---------------------------------------------------------------------------------------------
// Request checks
// ---------------------------------------------------------------------------------------------

/// The error for a request that tries to set an event's status.
pub open spec fn is_status_error(e: ApiError) -> bool {
    e.is_detailed(
        ErrorCode::ImmutableEventField,
        "EventKit does not allow event status to be written; delete the event to cancel it"@,
        field_details("status"@),
    )
}

/// Refuses a request that sets an event's status, which the store keeps read-only.
fn reject_event_status(present: bool) -> (r: Result<(), ApiError>)
    ensures
        r is Ok <==> !present,
        r matches Err(e) ==> is_status_error(e),
{
    if present {
        return Err(
            ApiError::with_details(
                ErrorCode::ImmutableEventField,
                String::from_str(
                    "EventKit does not allow event status to be written; delete the event to cancel it",
                ),
                crate::error::field_detail("status"),
            ),
        );
    }
    Ok(())
}

impl CreateEventRequest {
    /// The request is refused before any store is consulted.
    pub open spec fn refused(self) -> bool {
        self.status is Some || self.end < self.start
    }

    /// The error a refused request gets: a status comes before the date range.
    pub open spec fn refusal(self, e: ApiError) -> bool {
        if self.status is Some {
            is_status_error(e)
        } else {
            e.is_default(ErrorCode::EventEndBeforeStart)
        }
    }
}

/// Request-level checks for event creation: no status, and the end not before the start.
pub fn validate_create_event(request: &CreateEventRequest) -> (r: Result<(), ApiError>)
    ensures
        r is Err <==> request.refused(),
        r matches Err(e) ==> request.refusal(e),
{
    match reject_event_status(request.status.is_some()) {
        Ok(()) => {},
        Err(e) => return Err(e),
    }
    if request.end < request.start {
        return Err(ApiError::new(ErrorCode::EventEndBeforeStart));
    }
    Ok(())
}

/// Request-level checks for an event update: no status. The date range is checked against the
/// stored event by the store.
pub fn validate_update_event(request: &UpdateEventRequest) -> (r: Result<(), ApiError>)
    ensures
        r is Err <==> request.status is Some,
        r matches Err(e) ==> is_status_error(e),
{
    reject_event_status(request.status.is_some())
}

/// A reminder priority the store accepts.
pub open spec fn priority_valid(priority: Option<i64>) -> bool {
    match priority {
        Some(p) => 0 <= p <= 9,
        None => true,
    }
}

/// The error for a priority out of range.
pub open spec fn is_priority_error(e: ApiError) -> bool {
    e.is_plain(ErrorCode::UnprocessableEntity, "priority must be between 0 and 9"@)
}

fn validate_reminder_priority(priority: Option<i64>) -> (r: Result<(), ApiError>)
    ensures
        r is Ok <==> priority_valid(priority),
        r matches Err(e) ==> is_priority_error(e),
{
    if let Some(value) = priority {
        if value < 0 || value > 9 {
            return Err(
                ApiError::with_message(
                    ErrorCode::UnprocessableEntity,
                    String::from_str("priority must be between 0 and 9"),
                ),
            );
        }
    }
    Ok(())
}

/// The location carries a latitude or a longitude.
pub open spec fn coordinates_given(location: Option<LocationInputDto>) -> bool {
    location matches Some(l) && (l.latitude is Some || l.longitude is Some)
}

/// The error for a reminder location with coordinates: the latitude is named first.
pub open spec fn is_coordinate_error(location: Option<LocationInputDto>, e: ApiError) -> bool {
    let field = match location {
        Some(l) => if l.latitude is Some {
            "location.latitude"@
        } else {
            "location.longitude"@
        },
        None => "location.longitude"@,
    };
    e.is_detailed(
        ErrorCode::UnsupportedReminderField,
        "EventKit cannot store coordinates on a reminder; only the location text is kept"@,
        field_details(field),
    )
}

fn coordinate_error(field: &str) -> (e: ApiError)
    ensures
        e.is_detailed(
            ErrorCode::UnsupportedReminderField,
            "EventKit cannot store coordinates on a reminder; only the location text is kept"@,
            field_details(field@),
        ),
{
    ApiError::with_details(
        ErrorCode::UnsupportedReminderField,
        String::from_str(
            "EventKit cannot store coordinates on a reminder; only the location text is kept",
        ),
        crate::error::field_detail(field),
    )
}

/// Refuses a reminder location with coordinates: the store keeps only the text of a
/// reminder's location.
fn reject_reminder_coordinates(location: Option<&LocationInputDto>) -> (r: Result<(), ApiError>)
    ensures
        r is Err <==> coordinates_given(
            match location {
                Some(l) => Some(*l),
                None => None,
            },
        ),
        r matches Err(e) ==> is_coordinate_error(
            match location {
                Some(l) => Some(*l),
                None => None,
            },
            e,
        ),
{
    match location {
        None => Ok(()),
        Some(l) => {
            if l.latitude.is_some() {
                return Err(coordinate_error("location.latitude"));
            }
            if l.longitude.is_some() {
                return Err(coordinate_error("location.longitude"));
            }
            Ok(())
        },
    }
}

/// The first reminder field given that the store cannot write.
pub open spec fn unsupported_field(
    section: bool,
    parent: bool,
    tags: bool,
    attachments: bool,
    flagged: bool,
) -> Option<Seq<char>> {
    if section {
        Some("section_id"@)
    } else if parent {
        Some("parent_id"@)
    } else if tags {
        Some("tags"@)
    } else if attachments {
        Some("attachments"@)
    } else if flagged {
        Some("flagged"@)
    } else {
        None
    }
}

/// The error for a reminder field the store cannot write.
pub open spec fn is_unsupported_field_error(e: ApiError, field: Seq<char>) -> bool {
    e.is_detailed(
        ErrorCode::UnsupportedReminderField,
        "unsupported reminder field"@,
        field_details(field),
    )
}

fn unsupported_field_error(field: &str) -> (e: ApiError)
    ensures
        is_unsupported_field_error(e, field@),
{
    ApiError::with_details(
        ErrorCode::UnsupportedReminderField,
        String::from_str("unsupported reminder field"),
        crate::error::field_detail(field),
    )
}

fn reject_unsupported_reminder_fields(
    section: bool,
    parent: bool,
    tags: bool,
    attachments: bool,
    flagged: bool,
) -> (r: Result<(), ApiError>)
    ensures
        r is Ok <==> unsupported_field(section, parent, tags, attachments, flagged) is None,
        r matches Err(e) ==> unsupported_field(section, parent, tags, attachments, flagged)
            matches Some(f) && is_unsupported_field_error(e, f),
{
    if section {
        return Err(unsupported_field_error("section_id"));
    }
    if parent {
        return Err(unsupported_field_error("parent_id"));
    }
    if tags {
        return Err(unsupported_field_error("tags"));
    }
    if attachments {
        return Err(unsupported_field_error("attachments"));
    }
    if flagged {
        return Err(unsupported_field_error("flagged"));
    }
    Ok(())
}

/// The error for reminder fields, in the order priority, coordinates, unwritable fields.
pub open spec fn reminder_refusal(
    priority: Option<i64>,
    location: Option<LocationInputDto>,
    unsupported: Option<Seq<char>>,
    e: ApiError,
) -> bool {
    if !priority_valid(priority) {
        is_priority_error(e)
    } else if coordinates_given(location) {
        is_coordinate_error(location, e)
    } else {
        unsupported matches Some(f) && is_unsupported_field_error(e, f)
    }
}

impl CreateReminderRequest {
    /// The first field given that the store cannot write.
    pub open spec fn unsupported(self) -> Option<Seq<char>> {
        unsupported_field(
            self.section_id is Some,
            self.parent_id is Some,
            self.tags@.len() > 0,
            self.attachments@.len() > 0,
            self.flagged is Some,
        )
    }

    /// The request is refused before any store is consulted.
    pub open spec fn refused(self) -> bool {
        !priority_valid(self.priority) || coordinates_given(self.location)
            || self.unsupported() is Some
    }
}

impl UpdateReminderRequest {
    /// The new location, where the update sets one.
    pub open spec fn new_location(self) -> Option<LocationInputDto> {
        match self.location {
            Some(Some(l)) => Some(l),
            _ => None,
        }
    }

    /// The first field given that the store cannot write.
    pub open spec fn unsupported(self) -> Option<Seq<char>> {
        unsupported_field(
            self.section_id is Some,
            self.parent_id is Some,
            self.tags@.len() > 0,
            self.attachments@.len() > 0,
            self.flagged is Some,
        )
    }

    /// The request is refused before any store is consulted.
    pub open spec fn refused(self) -> bool {
        !priority_valid(self.priority) || coordinates_given(self.new_location())
            || self.unsupported() is Some
    }
}

/// Request-level checks for reminder creation: a priority in `0..=9`, no coordinates, and
/// none of the fields the store cannot write.
pub fn validate_create_reminder(request: &CreateReminderRequest) -> (r: Result<(), ApiError>)
    ensures
        r is Err <==> request.refused(),
        r matches Err(e) ==> reminder_refusal(
            request.priority,
            request.location,
            request.unsupported(),
            e,
        ),
{
    match validate_reminder_priority(request.priority) {
        Ok(()) => {},
        Err(e) => return Err(e),
    }
    match reject_reminder_coordinates(request.location.as_ref()) {
        Ok(()) => {},
        Err(e) => return Err(e),
    }
    reject_unsupported_reminder_fields(
        request.section_id.is_some(),
        request.parent_id.is_some(),
        request.tags.len() > 0,
        request.attachments.len() > 0,
        request.flagged.is_some(),
    )
}

/// Request-level checks for a reminder update: as for creation, on the fields given.
pub fn validate_update_reminder(request: &UpdateReminderRequest) -> (r: Result<(), ApiError>)
    ensures
        r is Err <==> request.refused(),
        r matches Err(e) ==> reminder_refusal(
            request.priority,
            request.new_location(),
            request.unsupported(),
            e,
        ),
{
    match validate_reminder_priority(request.priority) {
        Ok(()) => {},
        Err(e) => return Err(e),
    }
    let location = match &request.location {
        Some(Some(l)) => Some(l),
        _ => None,
    };
    match reject_reminder_coordinates(location) {
        Ok(()) => {},
        Err(e) => return Err(e),
    }
    reject_unsupported_reminder_fields(
        request.section_id.is_some(),
        request.parent_id.is_some(),
        request.tags.len() > 0,
        request.attachments.len() > 0,
        request.flagged.is_some(),
    )
}


// ---------------------------------------------------------------------------------------------
// Conversions into store inputs
// ---------------------------------------------------------------------------------------------

pub open spec fn span_of(span: EventSpanDto) -> EventSpan {
    match span {
        EventSpanDto::This => EventSpan::This,
        EventSpanDto::Future => EventSpan::Future,
    }
}

impl From<EventSpanDto> for EventSpan {
    fn from(value: EventSpanDto) -> (r: Self) {
        match value {
            EventSpanDto::This => EventSpan::This,
            EventSpanDto::Future => EventSpan::Future,
        }
    }
}

impl vstd::std_specs::convert::FromSpecImpl<EventSpanDto> for EventSpan {
    open spec fn obeys_from_spec() -> bool {
        true
    }

    open spec fn from_spec(v: EventSpanDto) -> Self {
        span_of(v)
    }
}

pub open spec fn due_of(due: DueInputDto) -> DueInput {
    DueInput { at: due.at, all_day: due.all_day }
}

fn due_input(due: DueInputDto) -> (r: DueInput)
    ensures
        r == due_of(due),
{
    DueInput { at: due.at, all_day: due.all_day }
}

pub open spec fn opt_due_of(due: Option<DueInputDto>) -> Option<DueInput> {
    match due {
        Some(d) => Some(due_of(d)),
        None => None,
    }
}

fn opt_due_input(due: Option<DueInputDto>) -> (r: Option<DueInput>)
    ensures
        r == opt_due_of(due),
{
    match due {
        Some(d) => Some(due_input(d)),
        None => None,
    }
}

pub open spec fn reminder_location_of(location: LocationInputDto) -> ReminderLocationInput {
    ReminderLocationInput { title: location.title }
}

fn reminder_location_input(location: LocationInputDto) -> (r: ReminderLocationInput)
    ensures
        r == reminder_location_of(location),
{
    ReminderLocationInput { title: location.title }
}

pub open spec fn opt_reminder_location_of(location: Option<LocationInputDto>) -> Option<
    ReminderLocationInput,
> {
    match location {
        Some(l) => Some(reminder_location_of(l)),
        None => None,
    }
}

fn opt_reminder_location_input(location: Option<LocationInputDto>) -> (r: Option<
    ReminderLocationInput,
>)
    ensures
        r == opt_reminder_location_of(location),
{
    match location {
        Some(l) => Some(reminder_location_input(l)),
        None => None,
    }
}

pub open spec fn location_of(location: LocationInputDto) -> LocationInput {
    LocationInput {
        title: location.title,
        latitude: location.latitude,
        longitude: location.longitude,
    }
}

fn location_input(location: LocationInputDto) -> (r: LocationInput)
    ensures
        r == location_of(location),
{
    LocationInput {
        title: location.title,
        latitude: location.latitude,
        longitude: location.longitude,
    }
}

pub open spec fn opt_location_of(location: Option<LocationInputDto>) -> Option<LocationInput> {
    match location {
        Some(l) => Some(location_of(l)),
        None => None,
    }
}

fn opt_location_input(location: Option<LocationInputDto>) -> (r: Option<LocationInput>)
    ensures
        r == opt_location_of(location),
{
    match location {
        Some(l) => Some(location_input(l)),
        None => None,
    }
}

pub open spec fn frequency_of(frequency: RecurrenceFrequencyDto) -> RecurrenceFrequency {
    match frequency {
        RecurrenceFrequencyDto::Daily => RecurrenceFrequency::Daily,
        RecurrenceFrequencyDto::Weekly => RecurrenceFrequency::Weekly,
        RecurrenceFrequencyDto::Monthly => RecurrenceFrequency::Monthly,
        RecurrenceFrequencyDto::Yearly => RecurrenceFrequency::Yearly,
    }
}

pub open spec fn recurrence_of(recurrence: RecurrenceInputDto) -> RecurrenceInput {
    RecurrenceInput {
        frequency: frequency_of(recurrence.frequency),
        interval: recurrence.interval,
        count: recurrence.count,
        end_date: recurrence.end_date,
    }
}

fn recurrence_input(recurrence: RecurrenceInputDto) -> (r: RecurrenceInput)
    ensures
        r == recurrence_of(recurrence),
{
    RecurrenceInput {
        frequency: match recurrence.frequency {
            RecurrenceFrequencyDto::Daily => RecurrenceFrequency::Daily,
            RecurrenceFrequencyDto::Weekly => RecurrenceFrequency::Weekly,
            RecurrenceFrequencyDto::Monthly => RecurrenceFrequency::Monthly,
            RecurrenceFrequencyDto::Yearly => RecurrenceFrequency::Yearly,
        },
        interval: recurrence.interval,
        count: recurrence.count,
        end_date: recurrence.end_date,
    }
}

pub open spec fn opt_recurrence_of(recurrence: Option<RecurrenceInputDto>) -> Option<
    RecurrenceInput,
> {
    match recurrence {
        Some(r) => Some(recurrence_of(r)),
        None => None,
    }
}

fn opt_recurrence_input(recurrence: Option<RecurrenceInputDto>) -> (r: Option<RecurrenceInput>)
    ensures
        r == opt_recurrence_of(recurrence),
{
    match recurrence {
        Some(x) => Some(recurrence_input(x)),
        None => None,
    }
}

/// The stored alarm an alarm request gives; location and unknown alarms have none.
pub open spec fn alarm_of(alarm: AlarmInputDto) -> Option<AlarmInput> {
    match alarm.kind {
        AlarmKindDto::Absolute => Some(
            AlarmInput { kind: AlarmKind::Absolute, at: alarm.at, offset_seconds: alarm.offset_seconds },
        ),
        AlarmKindDto::Relative => Some(
            AlarmInput { kind: AlarmKind::Relative, at: alarm.at, offset_seconds: alarm.offset_seconds },
        ),
        _ => None,
    }
}

/// The error for an alarm kind the store cannot write.
pub open spec fn is_alarm_kind_error(e: ApiError, kind: AlarmKindDto) -> bool {
    let name = if kind == AlarmKindDto::Location {
        "location"@
    } else {
        "unknown"@
    };
    e.is_detailed(
        ErrorCode::UnsupportedAlarmKind,
        "unsupported alarm kind"@,
        seq![("field"@, DetailValueView::Text("alarms.kind"@)), ("kind"@, DetailValueView::Text(name))],
    )
}

fn alarm_kind_error(kind: &str) -> (e: ApiError)
    ensures
        e.is_detailed(
            ErrorCode::UnsupportedAlarmKind,
            "unsupported alarm kind"@,
            seq![("field"@, DetailValueView::Text("alarms.kind"@)), ("kind"@, DetailValueView::Text(kind@))],
        ),
{
    let mut details: Vec<DetailEntry> = Vec::new();
    details.push(crate::error::text_entry("field", "alarms.kind"));
    details.push(crate::error::text_entry("kind", kind));
    proof {
        assert(details_view(details@) =~= seq![
            ("field"@, DetailValueView::Text("alarms.kind"@)),
            ("kind"@, DetailValueView::Text(kind@)),
        ]);
    }
    ApiError::with_details(
        ErrorCode::UnsupportedAlarmKind,
        String::from_str("unsupported alarm kind"),
        details,
    )
}

/// Converts one requested alarm; location and unknown alarms are refused.
pub fn alarm_input(alarm: AlarmInputDto) -> (r: Result<AlarmInput, ApiError>)
    ensures
        r is Ok <==> alarm_of(alarm) is Some,
        r matches Ok(a) ==> alarm_of(alarm) == Some(a),
        r matches Err(e) ==> is_alarm_kind_error(e, alarm.kind),
{
    let kind = match alarm.kind {
        AlarmKindDto::Absolute => AlarmKind::Absolute,
        AlarmKindDto::Relative => AlarmKind::Relative,
        AlarmKindDto::Location => {
            return Err(alarm_kind_error("location"));
        },
        AlarmKindDto::Unknown => {
            return Err(alarm_kind_error("unknown"));
        },
    };
    Ok(AlarmInput { kind, at: alarm.at, offset_seconds: alarm.offset_seconds })
}

/// The kind of the first requested alarm the store cannot write.
pub open spec fn first_unsupported_alarm(alarms: Seq<AlarmInputDto>) -> Option<AlarmKindDto>
    decreases alarms.len(),
{
    if alarms.len() == 0 {
        None
    } else if alarm_of(alarms[0]) is None {
        Some(alarms[0].kind)
    } else {
        first_unsupported_alarm(alarms.drop_first())
    }
}

/// `stored` holds the stored alarm of each requested one, in order.
pub open spec fn alarms_converted(requested: Seq<AlarmInputDto>, stored: Seq<AlarmInput>) -> bool {
    &&& stored.len() == requested.len()
    &&& forall|i: int| 0 <= i < requested.len() ==> alarm_of(#[trigger] requested[i]) == Some(stored[i])
}

/// Converts every requested alarm, refusing at the first kind the store cannot write.
fn alarm_inputs(alarms: &Vec<AlarmInputDto>) -> (r: Result<Vec<AlarmInput>, ApiError>)
    ensures
        r is Ok <==> first_unsupported_alarm(alarms@) is None,
        r matches Ok(v) ==> alarms_converted(alarms@, v@),
        r matches Err(e) ==> first_unsupported_alarm(alarms@) matches Some(k) && is_alarm_kind_error(e, k),
{
    let mut out: Vec<AlarmInput> = Vec::new();
    let mut i: usize = 0;
    proof {
        assert(alarms@.skip(0) =~= alarms@);
    }
    while i < alarms.len()
        invariant
            i <= alarms.len(),
            first_unsupported_alarm(alarms@) == first_unsupported_alarm(alarms@.skip(i as int)),
            alarms_converted(alarms@.take(i as int), out@),
        decreases alarms.len() - i,
    {
        let a = alarms[i];
        proof {
            assert(alarms@.skip(i as int)[0] == a);
            assert(alarms@.skip(i as int).drop_first() =~= alarms@.skip(i + 1));
        }
        match alarm_input(a) {
            Ok(converted) => {
                out.push(converted);
                proof {
                    assert(alarms_converted(alarms@.take(i + 1), out@)) by {
                        assert forall|k: int| 0 <= k < i + 1 implies alarm_of(
                            #[trigger] alarms@.take(i + 1)[k],
                        ) == Some(out@[k]) by {
                            if k < i {
                                assert(alarms@.take(i + 1)[k] == alarms@.take(i as int)[k]);
                            }
                        }
                    }
                }
            },
            Err(e) => return Err(e),
        }
        i = i + 1;
    }
    proof {
        assert(alarms@.take(i as int) =~= alarms@);
    }
    Ok(out)
}

/// Converts an optional list of requested alarms.
fn opt_alarm_inputs(alarms: &Option<Vec<AlarmInputDto>>) -> (r: Result<
    Option<Vec<AlarmInput>>,
    ApiError,
>)
    ensures
        r is Ok <==> (alarms matches Some(v) ==> first_unsupported_alarm(v@) is None),
        r matches Ok(o) ==> match alarms {
            Some(v) => o matches Some(w) && alarms_converted(v@, w@),
            None => o is None,
        },
        r matches Err(e) ==> alarms matches Some(v) && first_unsupported_alarm(v@) matches Some(k)
            && is_alarm_kind_error(e, k),
{
    match alarms {
        None => Ok(None),
        Some(v) => match alarm_inputs(v) {
            Ok(w) => Ok(Some(w)),
            Err(e) => Err(e),
        },
    }
}

impl CreateReminderRequest {
    /// The store input an accepted request gives.
    pub open spec fn input_matches(self, input: CreateReminderInput) -> bool {
        &&& input.title == self.title
        &&& input.notes == self.notes
        &&& input.due == opt_due_of(self.due)
        &&& input.completed == self.completed
        &&& input.priority == self.priority
        &&& input.url == self.url
        &&& input.location == opt_reminder_location_of(self.location)
        &&& alarms_converted(self.alarms@, input.alarms@)
        &&& input.recurrence == opt_recurrence_of(self.recurrence)
    }
}

/// A new reminder's request converts into a store input: it carries no coordinates and only
/// alarm kinds the store can write.
pub open spec fn reminder_input_accepted(request: CreateReminderRequest) -> bool {
    !coordinates_given(request.location) && first_unsupported_alarm(request.alarms@) is None
}

/// The store input for a new reminder: coordinates and unwritable alarm kinds are refused.
pub fn create_reminder_input(request: CreateReminderRequest) -> (r: Result<
    CreateReminderInput,
    ApiError,
>)
    ensures
        r is Ok <==> reminder_input_accepted(request),
        r matches Ok(input) ==> request.input_matches(input),
        r matches Err(e) ==> if coordinates_given(request.location) {
            is_coordinate_error(request.location, e)
        } else {
            first_unsupported_alarm(request.alarms@) matches Some(k) && is_alarm_kind_error(e, k)
        },
{
    match reject_reminder_coordinates(request.location.as_ref()) {
        Ok(()) => {},
        Err(e) => return Err(e),
    }
    let alarms = match alarm_inputs(&request.alarms) {
        Ok(a) => a,
        Err(e) => return Err(e),
    };
    Ok(
        CreateReminderInput {
            title: request.title,
            notes: request.notes,
            due: opt_due_input(request.due),
            completed: request.completed,
            priority: request.priority,
            url: request.url,
            location: opt_reminder_location_input(request.location),
            alarms,
            recurrence: opt_recurrence_input(request.recurrence),
        },
    )
}

impl UpdateReminderRequest {
    /// The store input an accepted update gives.
    pub open spec fn input_matches(
        self,
        list_hint: Option<ReminderListResolveHint>,
        input: UpdateReminderInput,
    ) -> bool {
        &&& input.title == self.title
        &&& input.notes == self.notes
        &&& input.due == match self.due {
            Some(d) => Some(opt_due_of(d)),
            None => None,
        }
        &&& input.completed == self.completed
        &&& input.priority == self.priority
        &&& input.url == self.url
        &&& input.list_hint == list_hint
        &&& input.location == match self.location {
            Some(l) => Some(opt_reminder_location_of(l)),
            None => None,
        }
        &&& match self.alarms {
            Some(v) => input.alarms matches Some(w) && alarms_converted(v@, w@),
            None => input.alarms is None,
        }
        &&& input.recurrence == match self.recurrence {
            Some(x) => Some(opt_recurrence_of(x)),
            None => None,
        }
    }

    /// No requested alarm has a kind the store cannot write.
    pub open spec fn alarms_supported(self) -> bool {
        self.alarms matches Some(v) ==> first_unsupported_alarm(v@) is None
    }
}

/// The store input for a reminder update: coordinates and unwritable alarm kinds are refused.
pub fn update_reminder_input(
    request: UpdateReminderRequest,
    list_hint: Option<ReminderListResolveHint>,
) -> (r: Result<UpdateReminderInput, ApiError>)
    ensures
        r is Ok <==> !coordinates_given(request.new_location()) && request.alarms_supported(),
        r matches Ok(input) ==> request.input_matches(list_hint, input),
        r matches Err(e) ==> if coordinates_given(request.new_location()) {
            is_coordinate_error(request.new_location(), e)
        } else {
            request.alarms matches Some(v) && first_unsupported_alarm(v@) matches Some(k)
                && is_alarm_kind_error(e, k)
        },
{
    let location_ref = match &request.location {
        Some(Some(l)) => Some(l),
        _ => None,
    };
    match reject_reminder_coordinates(location_ref) {
        Ok(()) => {},
        Err(e) => return Err(e),
    }
    let alarms = match opt_alarm_inputs(&request.alarms) {
        Ok(a) => a,
        Err(e) => return Err(e),
    };
    let due = match request.due {
        Some(d) => Some(opt_due_input(d)),
        None => None,
    };
    let location = match request.location {
        Some(l) => Some(opt_reminder_location_input(l)),
        None => None,
    };
    let recurrence = match request.recurrence {
        Some(x) => Some(opt_recurrence_input(x)),
        None => None,
    };
    Ok(
        UpdateReminderInput {
            title: request.title,
            notes: request.notes,
            due,
            completed: request.completed,
            priority: request.priority,
            url: request.url,
            list_hint,
            location,
            alarms,
            recurrence,
        },
    )
}

impl CreateEventRequest {
    /// The store input an accepted request gives.
    pub open spec fn input_matches(self, input: CreateEventInput) -> bool {
        &&& input.summary == self.summary
        &&& input.description == self.description
        &&& input.start == self.start
        &&& input.end == self.end
        &&& input.all_day == self.all_day
        &&& input.url == self.url
        &&& input.location == opt_location_of(self.location)
        &&& alarms_converted(self.alarms@, input.alarms@)
        &&& input.recurrence == opt_recurrence_of(self.recurrence)
    }
}

/// The store input for a new event: a status and unwritable alarm kinds are refused;
/// locations keep their coordinates.
pub fn create_event_input(request: CreateEventRequest) -> (r: Result<CreateEventInput, ApiError>)
    ensures
        r is Ok <==> request.status is None && first_unsupported_alarm(request.alarms@) is None,
        r matches Ok(input) ==> request.input_matches(input),
        r matches Err(e) ==> if request.status is Some {
            is_status_error(e)
        } else {
            first_unsupported_alarm(request.alarms@) matches Some(k) && is_alarm_kind_error(e, k)
        },
{
    match reject_event_status(request.status.is_some()) {
        Ok(()) => {},
        Err(e) => return Err(e),
    }
    let alarms = match alarm_inputs(&request.alarms) {
        Ok(a) => a,
        Err(e) => return Err(e),
    };
    Ok(
        CreateEventInput {
            summary: request.summary,
            description: request.description,
            start: request.start,
            end: request.end,
            all_day: request.all_day,
            url: request.url,
            location: opt_location_input(request.location),
            alarms,
            recurrence: opt_recurrence_input(request.recurrence),
        },
    )
}

impl UpdateEventRequest {
    /// The store input an accepted update gives.
    pub open spec fn input_matches(
        self,
        calendar_hint: Option<CalendarResolveHint>,
        span: EventSpanDto,
        input: UpdateEventInput,
    ) -> bool {
        &&& input.summary == self.summary
        &&& input.description == self.description
        &&& input.start == self.start
        &&& input.end == self.end
        &&& input.all_day == self.all_day
        &&& input.url == self.url
        &&& input.calendar_hint == calendar_hint
        &&& input.location == match self.location {
            Some(l) => Some(opt_location_of(l)),
            None => None,
        }
        &&& match self.alarms {
            Some(v) => input.alarms matches Some(w) && alarms_converted(v@, w@),
            None => input.alarms is None,
        }
        &&& input.recurrence == match self.recurrence {
            Some(x) => Some(opt_recurrence_of(x)),
            None => None,
        }
        &&& input.span == span_of(span)
    }

    /// No requested alarm has a kind the store cannot write.
    pub open spec fn alarms_supported(self) -> bool {
        self.alarms matches Some(v) ==> first_unsupported_alarm(v@) is None
    }
}

/// The store input for an event update: a status and unwritable alarm kinds are refused;
/// locations keep their coordinates.
pub fn update_event_input(
    request: UpdateEventRequest,
    calendar_hint: Option<CalendarResolveHint>,
    span: EventSpanDto,
) -> (r: Result<UpdateEventInput, ApiError>)
    ensures
        r is Ok <==> request.status is None && request.alarms_supported(),
        r matches Ok(input) ==> request.input_matches(calendar_hint, span, input),
        r matches Err(e) ==> if request.status is Some {
            is_status_error(e)
        } else {
            request.alarms matches Some(v) && first_unsupported_alarm(v@) matches Some(k)
                && is_alarm_kind_error(e, k)
        },
{
    match reject_event_status(request.status.is_some()) {
        Ok(()) => {},
        Err(e) => return Err(e),
    }
    let alarms = match opt_alarm_inputs(&request.alarms) {
        Ok(a) => a,
        Err(e) => return Err(e),
    };
    let location = match request.location {
        Some(l) => Some(opt_location_input(l)),
        None => None,
    };
    let recurrence = match request.recurrence {
        Some(x) => Some(opt_recurrence_input(x)),
        None => None,
    };
    Ok(
        UpdateEventInput {
            summary: request.summary,
            description: request.description,
            start: request.start,
            end: request.end,
            all_day: request.all_day,
            url: request.url,
            calendar_hint,
            location,
            alarms,
            recurrence,
            span: EventSpan::from(span),
        },
    )
}

/// The store input for an event deletion.
pub fn delete_event_input(span: EventSpanDto, occurrence_start: Option<i64>) -> (r: DeleteEventInput)
    ensures
        r == (DeleteEventInput { span: span_of(span), occurrence_start }),
{
    DeleteEventInput { span: EventSpan::from(span), occurrence_start }
}

pub open spec fn store_type_of(raw: i64) -> CalendarStoreType {
    if raw == 1 {
        CalendarStoreType::CalDav
    } else if raw == 2 {
        CalendarStoreType::Exchange
    } else if raw == 3 {
        CalendarStoreType::Subscription
    } else if raw == 4 {
        CalendarStoreType::Birthday
    } else {
        CalendarStoreType::Local
    }
}

/// How the store finds a calendar the database describes; unknown store types are local.
pub fn calendar_hint(metadata: CalendarResolveMetadata) -> (hint: CalendarResolveHint)
    ensures
        hint.api_id == metadata.api_id,
        hint.external_id == metadata.external_id,
        hint.title == metadata.title,
        hint.store_type == store_type_of(metadata.store_type),
{
    CalendarResolveHint {
        api_id: metadata.api_id,
        external_id: metadata.external_id,
        title: metadata.title,
        store_type: if metadata.store_type == 1 {
            CalendarStoreType::CalDav
        } else if metadata.store_type == 2 {
            CalendarStoreType::Exchange
        } else if metadata.store_type == 3 {
            CalendarStoreType::Subscription
        } else if metadata.store_type == 4 {
            CalendarStoreType::Birthday
        } else {
            CalendarStoreType::Local
        },
    }
}

/// How the store finds a reminder list the database describes.
pub fn reminder_list_hint(metadata: ReminderListResolveMetadata) -> (hint: ReminderListResolveHint)
    ensures
        hint.api_id == metadata.api_id,
        hint.external_id == metadata.external_id,
        hint.title == metadata.title,
        hint.is_smart_list == metadata.is_smart_list,
{
    ReminderListResolveHint {
        api_id: metadata.api_id,
        external_id: metadata.external_id,
        title: metadata.title,
        is_smart_list: metadata.is_smart_list,
    }
}


/// The list a reminder is written to: refused where the database knows no such list, and
/// where it is a smart list, whose reminders are gathered by a filter.
pub fn reminder_target_list(metadata: Option<ReminderListResolveMetadata>) -> (r: Result<
    ReminderListResolveHint,
    ApiError,
>)
    ensures
        match metadata {
            None => r matches Err(e) && e.is_default(ErrorCode::ReminderListNotFound),
            Some(m) => if m.is_smart_list {
                r matches Err(e) && e.is_default(ErrorCode::SmartListReadOnly)
            } else {
                r matches Ok(hint) && hint.api_id == m.api_id && hint.external_id == m.external_id
                    && hint.title == m.title && !hint.is_smart_list
            },
        },
{
    match metadata {
        None => Err(ApiError::new(ErrorCode::ReminderListNotFound)),
        Some(m) => {
            if m.is_smart_list {
                Err(ApiError::new(ErrorCode::SmartListReadOnly))
            } else {
                Ok(reminder_list_hint(m))
            }
        },
    }
}

/// The list a reminder update moves the reminder to: none where the update names no list;
/// otherwise the named list, refused as `reminder_target_list` refuses it.
pub fn reminder_write_list(
    requested: Option<&str>,
    metadata: Option<ReminderListResolveMetadata>,
) -> (r: Result<Option<ReminderListResolveHint>, ApiError>)
    ensures
        requested is None ==> r == Ok::<Option<ReminderListResolveHint>, ApiError>(None),
        requested is Some ==> match metadata {
            None => r matches Err(e) && e.is_default(ErrorCode::ReminderListNotFound),
            Some(m) => if m.is_smart_list {
                r matches Err(e) && e.is_default(ErrorCode::SmartListReadOnly)
            } else {
                r matches Ok(Some(hint)) && hint.api_id == m.api_id && hint.external_id
                    == m.external_id && hint.title == m.title && !hint.is_smart_list
            },
        },
{
    match requested {
        None => Ok(None),
        Some(_) => match reminder_target_list(metadata) {
            Ok(hint) => Ok(Some(hint)),
            Err(e) => Err(e),
        },
    }
}

// ---------------------------------------------------------------------------------------------
// Laws
// ---------------------------------------------------------------------------------------------

/// A reminder location that carries a coordinate never reaches the store: the request check
/// refuses it, naming the coordinate unless the priority was refused first, and the
/// conversion into a store input does not accept it either.
pub proof fn law_reminder_coordinates_are_refused(request: CreateReminderRequest, e: ApiError)
    requires
        coordinates_given(request.location),
    ensures
        request.refused(),
        priority_valid(request.priority) ==> (reminder_refusal(
            request.priority,
            request.location,
            request.unsupported(),
            e,
        ) <==> is_coordinate_error(request.location, e)),
        !reminder_input_accepted(request),
{
}

/// An event whose end precedes its start gets one answer whichever side finds it: the request
/// check for a new event, and the store for an update, both answer `event_end_before_start`.
pub proof fn law_end_before_start_has_one_answer(
    request: CreateEventRequest,
    checked: ApiError,
    stored: ApiError,
)
    requires
        request.status is None,
        request.end < request.start,
        request.refusal(checked),
        eventkit_error_maps_to(EventKitError::EndBeforeStart, stored),
    ensures
        request.refused(),
        checked.code_spec() == stored.code_spec(),
        checked.message_spec() == stored.message_spec(),
        checked.code_spec() == ErrorCode::EventEndBeforeStart,
{
}

/// Event locations keep their coordinates on the way to the store, while reminder locations
/// keep only their text.
pub proof fn law_event_locations_keep_coordinates(location: LocationInputDto)
    ensures
        location_of(location).latitude == location.latitude,
        location_of(location).longitude == location.longitude,
        location_of(location).title == location.title,
        reminder_location_of(location).title == location.title,
{
}

/// The store frequency carries the name the request gave: daily, weekly, monthly, yearly.
pub open spec fn same_frequency_name(requested: RecurrenceFrequencyDto, stored: RecurrenceFrequency) -> bool {
    ||| requested == RecurrenceFrequencyDto::Daily && stored == RecurrenceFrequency::Daily
    ||| requested == RecurrenceFrequencyDto::Weekly && stored == RecurrenceFrequency::Weekly
    ||| requested == RecurrenceFrequencyDto::Monthly && stored == RecurrenceFrequency::Monthly
    ||| requested == RecurrenceFrequencyDto::Yearly && stored == RecurrenceFrequency::Yearly
}

/// A stored recurrence keeps the rule the request gave: the same frequency, interval, count
/// and end.
pub open spec fn recurrence_kept(requested: Option<RecurrenceInputDto>, stored: Option<RecurrenceInput>) -> bool {
    match (requested, stored) {
        (None, None) => true,
        (Some(r), Some(s)) => same_frequency_name(r.frequency, s.frequency) && s.interval
            == r.interval && s.count == r.count && s.end_date == r.end_date,
        _ => false,
    }
}

/// A stored alarm keeps the kind, time and offset the request gave.
pub open spec fn alarm_kept(requested: AlarmInputDto, stored: AlarmInput) -> bool {
    &&& (requested.kind == AlarmKindDto::Absolute && stored.kind == AlarmKind::Absolute) || (
    requested.kind == AlarmKindDto::Relative && stored.kind == AlarmKind::Relative)
    &&& stored.at == requested.at
    &&& stored.offset_seconds == requested.offset_seconds
}

/// Every recurrence the store is handed keeps the requested rule, frequency by name, and
/// distinct requested frequencies stay distinct.
pub proof fn law_recurrence_keeps_its_rule(
    recurrence: RecurrenceInputDto,
    other: RecurrenceFrequencyDto,
)
    ensures
        recurrence_kept(Some(recurrence), Some(recurrence_of(recurrence))),
        other != recurrence.frequency ==> frequency_of(other) != frequency_of(recurrence.frequency),
{
}

/// A new event's store input keeps the requested recurrence and each requested alarm's kind,
/// time and offset.
pub proof fn law_event_input_keeps_rules(request: CreateEventRequest, input: CreateEventInput)
    requires
        request.input_matches(input),
    ensures
        recurrence_kept(request.recurrence, input.recurrence),
        input.alarms@.len() == request.alarms@.len(),
        forall|i: int|
            0 <= i < request.alarms@.len() ==> alarm_kept(
                #[trigger] request.alarms@[i],
                input.alarms@[i],
            ),
{
    assert forall|i: int| 0 <= i < request.alarms@.len() implies alarm_kept(
        #[trigger] request.alarms@[i],
        input.alarms@[i],
    ) by {
        assert(alarm_of(request.alarms@[i]) == Some(input.alarms@[i]));
    }
}

/// A new reminder's store input keeps the requested recurrence and each requested alarm's
/// kind, time and offset.
pub proof fn law_reminder_input_keeps_rules(request: CreateReminderRequest, input: CreateReminderInput)
    requires
        request.input_matches(input),
    ensures
        recurrence_kept(request.recurrence, input.recurrence),
        input.alarms@.len() == request.alarms@.len(),
        forall|i: int|
            0 <= i < request.alarms@.len() ==> alarm_kept(
                #[trigger] request.alarms@[i],
                input.alarms@[i],
            ),
{
    assert forall|i: int| 0 <= i < request.alarms@.len() implies alarm_kept(
        #[trigger] request.alarms@[i],
        input.alarms@[i],
    ) by {
        assert(alarm_of(request.alarms@[i]) == Some(input.alarms@[i]));
    }
}

/// An update keeps the recurrence change it asked for: none where it names none, a removal
/// where it removes the rule, and otherwise the requested rule.
pub open spec fn recurrence_change_kept(
    requested: Option<Option<RecurrenceInputDto>>,
    stored: Option<Option<RecurrenceInput>>,
) -> bool {
    match (requested, stored) {
        (None, None) => true,
        (Some(r), Some(s)) => recurrence_kept(r, s),
        _ => false,
    }
}

/// An event update's store input keeps the requested recurrence change.
pub proof fn law_event_update_keeps_recurrence(
    request: UpdateEventRequest,
    calendar_hint: Option<CalendarResolveHint>,
    span: EventSpanDto,
    input: UpdateEventInput,
)
    requires
        request.input_matches(calendar_hint, span, input),
    ensures
        recurrence_change_kept(request.recurrence, input.recurrence),
{
}

/// A reminder update's store input keeps the requested recurrence change.
pub proof fn law_reminder_update_keeps_recurrence(
    request: UpdateReminderRequest,
    list_hint: Option<ReminderListResolveHint>,
    input: UpdateReminderInput,
)
    requires
        request.input_matches(list_hint, input),
    ensures
        recurrence_change_kept(request.recurrence, input.recurrence),
{
}

/// Each AuthStatus value is shown under its own name, and distinct values stay distinct.
pub proof fn law_auth_status_dto_of_keeps_names(x: AuthStatus, y: AuthStatus)
    ensures
        x == AuthStatus::NotDetermined ==> auth_status_dto_of(x) == EventKitAuthStatusDto::NotDetermined,
        x == AuthStatus::Restricted ==> auth_status_dto_of(x) == EventKitAuthStatusDto::Restricted,
        x == AuthStatus::Denied ==> auth_status_dto_of(x) == EventKitAuthStatusDto::Denied,
        x == AuthStatus::Authorized ==> auth_status_dto_of(x) == EventKitAuthStatusDto::Authorized,
        x == AuthStatus::WriteOnly ==> auth_status_dto_of(x) == EventKitAuthStatusDto::WriteOnly,
        x == AuthStatus::Unavailable ==> auth_status_dto_of(x) == EventKitAuthStatusDto::Unavailable,
        x != y ==> auth_status_dto_of(x) != auth_status_dto_of(y),
{
}

/// Each EventSpanDto value is shown under its own name, and distinct values stay distinct.
pub proof fn law_span_of_keeps_names(x: EventSpanDto, y: EventSpanDto)
    ensures
        x == EventSpanDto::This ==> span_of(x) == EventSpan::This,
        x == EventSpanDto::Future ==> span_of(x) == EventSpan::Future,
        x != y ==> span_of(x) != span_of(y),
{
}

/// A store error is answered by its kind: a missing record 404, refused access and a
/// read-only calendar 403, a rejected or inverted write 422, an ambiguous match 409, a
/// missing EventKit 503, a framework failure 500 without its message, a timeout 504; the
/// store's own text is passed on only for a rejected write and an ambiguous match.
pub proof fn law_eventkit_errors_answer_by_kind(error: EventKitError, e: ApiError)
    requires
        eventkit_error_maps_to(error, e),
    ensures
        error is NotFound ==> status_of(e.code_spec()) == 404,
        error is AccessDenied ==> status_of(e.code_spec()) == 403,
        error is ReadOnlyCalendar ==> status_of(e.code_spec()) == 403,
        error matches EventKitError::ValidationFailed(m) ==> status_of(e.code_spec()) == 422
            && e.message_spec() == m@,
        error is EndBeforeStart ==> status_of(e.code_spec()) == 422,
        error matches EventKitError::AmbiguousMatch(m) ==> status_of(e.code_spec()) == 409
            && e.message_spec() == m@,
        error is UnsupportedPlatform ==> status_of(e.code_spec()) == 503,
        error is Framework ==> status_of(e.code_spec()) == 500 && e.message_spec()
            == message_of(ErrorCode::InternalError)@,
        error is Timeout ==> status_of(e.code_spec()) == 504,
{
}

/// Store errors of different kinds are answered with different codes.
pub proof fn law_eventkit_error_kinds_stay_distinct(
    first: EventKitError,
    second: EventKitError,
    a: ApiError,
    b: ApiError,
)
    requires
        eventkit_error_maps_to(first, a),
        eventkit_error_maps_to(second, b),
        a.code_spec() == b.code_spec(),
    ensures
        (first is NotFound) == (second is NotFound),
        (first is AccessDenied) == (second is AccessDenied),
        (first is ReadOnlyCalendar) == (second is ReadOnlyCalendar),
        (first is ValidationFailed) == (second is ValidationFailed),
        (first is EndBeforeStart) == (second is EndBeforeStart),
        (first is AmbiguousMatch) == (second is AmbiguousMatch),
        (first is UnsupportedPlatform) == (second is UnsupportedPlatform),
        (first is Framework) == (second is Framework),
        (first is Timeout) == (second is Timeout),
{
}

} // verus!
