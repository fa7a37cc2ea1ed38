//! Calendar records as the API shows them.

use vstd::prelude::*;

use crate::dto::calendar::{
    AvailabilityDto, CalendarAccountDto, CalendarAccountPageDto, CalendarDetailDto,
    CalendarPageDto, CalendarSummaryDto, EventAlarmDto, EventAttachmentDetailDto,
    EventAttachmentSummaryDto, EventClassDto, EventDetailDto, EventLocationDto, EventPageDto,
    EventParticipantDto, EventStatusDto, InvitationStatusDto, PrivacyLevelDto, RecurrenceRuleDto,
    StoreTypeDto, EventSummaryDto,
};
use crate::dto::pagination::PageMetaDto;
use crate::model::calendar::{
    Availability, CalendarAccount, CalendarDetail, CalendarSummary, EventAlarm, EventAttachment,
    EventClass, EventDetail, EventLocation, EventParticipant, EventStatus, EventSummary,
    InvitationStatus, PrivacyLevel, RecurrenceRule, StoreType,
};
use crate::seqmap::map_vec;
use crate::text::clone_opt;

verus! {

pub open spec fn store_type_dto_of(t: StoreType) -> StoreTypeDto {
    match t {
        StoreType::Local => StoreTypeDto::Local,
        StoreType::CalDav => StoreTypeDto::CalDav,
        StoreType::Exchange => StoreTypeDto::Exchange,
        StoreType::Subscription => StoreTypeDto::Subscription,
        StoreType::Birthday => StoreTypeDto::Birthday,
    }
}

fn store_type_to_dto(t: StoreType) -> (dto: StoreTypeDto)
    ensures
        dto == store_type_dto_of(t),
{
    match t {
        StoreType::Local => StoreTypeDto::Local,
        StoreType::CalDav => StoreTypeDto::CalDav,
        StoreType::Exchange => StoreTypeDto::Exchange,
        StoreType::Subscription => StoreTypeDto::Subscription,
        StoreType::Birthday => StoreTypeDto::Birthday,
    }
}

pub open spec fn event_status_dto_of(s: EventStatus) -> EventStatusDto {
    match s {
        EventStatus::Confirmed => EventStatusDto::Confirmed,
        EventStatus::Tentative => EventStatusDto::Tentative,
        EventStatus::Cancelled => EventStatusDto::Cancelled,
    }
}

fn event_status_to_dto(s: EventStatus) -> (dto: EventStatusDto)
    ensures
        dto == event_status_dto_of(s),
{
    match s {
        EventStatus::Confirmed => EventStatusDto::Confirmed,
        EventStatus::Tentative => EventStatusDto::Tentative,
        EventStatus::Cancelled => EventStatusDto::Cancelled,
    }
}

pub open spec fn invitation_status_dto_of(s: InvitationStatus) -> InvitationStatusDto {
    match s {
        InvitationStatus::Unknown => InvitationStatusDto::Unknown,
        InvitationStatus::Accepted => InvitationStatusDto::Accepted,
        InvitationStatus::Declined => InvitationStatusDto::Declined,
        InvitationStatus::Tentative => InvitationStatusDto::Tentative,
        InvitationStatus::NeedsAction => InvitationStatusDto::NeedsAction,
    }
}

fn invitation_status_to_dto(s: InvitationStatus) -> (dto: InvitationStatusDto)
    ensures
        dto == invitation_status_dto_of(s),
{
    match s {
        InvitationStatus::Unknown => InvitationStatusDto::Unknown,
        InvitationStatus::Accepted => InvitationStatusDto::Accepted,
        InvitationStatus::Declined => InvitationStatusDto::Declined,
        InvitationStatus::Tentative => InvitationStatusDto::Tentative,
        InvitationStatus::NeedsAction => InvitationStatusDto::NeedsAction,
    }
}

pub open spec fn availability_dto_of(a: Availability) -> AvailabilityDto {
    match a {
        Availability::Busy => AvailabilityDto::Busy,
        Availability::Free => AvailabilityDto::Free,
        Availability::Tentative => AvailabilityDto::Tentative,
        Availability::Unavailable => AvailabilityDto::Unavailable,
    }
}

fn availability_to_dto(a: Availability) -> (dto: AvailabilityDto)
    ensures
        dto == availability_dto_of(a),
{
    match a {
        Availability::Busy => AvailabilityDto::Busy,
        Availability::Free => AvailabilityDto::Free,
        Availability::Tentative => AvailabilityDto::Tentative,
        Availability::Unavailable => AvailabilityDto::Unavailable,
    }
}

pub open spec fn privacy_level_dto_of(p: PrivacyLevel) -> PrivacyLevelDto {
    match p {
        PrivacyLevel::Default => PrivacyLevelDto::Default,
        PrivacyLevel::Public => PrivacyLevelDto::Public,
        PrivacyLevel::Private => PrivacyLevelDto::Private,
    }
}

fn privacy_level_to_dto(p: PrivacyLevel) -> (dto: PrivacyLevelDto)
    ensures
        dto == privacy_level_dto_of(p),
{
    match p {
        PrivacyLevel::Default => PrivacyLevelDto::Default,
        PrivacyLevel::Public => PrivacyLevelDto::Public,
        PrivacyLevel::Private => PrivacyLevelDto::Private,
    }
}

pub open spec fn event_class_dto_of(c: EventClass) -> EventClassDto {
    match c {
        EventClass::Standard => EventClassDto::Standard,
        EventClass::Birthday => EventClassDto::Birthday,
        EventClass::SpecialDay => EventClassDto::SpecialDay,
    }
}

fn event_class_to_dto(c: EventClass) -> (dto: EventClassDto)
    ensures
        dto == event_class_dto_of(c),
{
    match c {
        EventClass::Standard => EventClassDto::Standard,
        EventClass::Birthday => EventClassDto::Birthday,
        EventClass::SpecialDay => EventClassDto::SpecialDay,
    }
}

pub open spec fn account_dto_of(a: CalendarAccount) -> CalendarAccountDto {
    CalendarAccountDto {
        id: a.id,
        row_id: a.row_id,
        name: a.name,
        store_type: store_type_dto_of(a.store_type),
        disabled: a.disabled,
    }
}

/// A calendar account as the API shows it.
pub fn calendar_account_to_dto(account: &CalendarAccount) -> (dto: CalendarAccountDto)
    ensures
        dto == account_dto_of(*account),
{
    CalendarAccountDto {
        id: account.id.clone(),
        row_id: account.row_id,
        name: clone_opt(&account.name),
        store_type: store_type_to_dto(account.store_type),
        disabled: account.disabled,
    }
}

/// The calendar account listing.
pub fn calendar_account_page_to_dto(items: Vec<CalendarAccount>) -> (dto: CalendarAccountPageDto)
    ensures
        dto.items@ == items@.map_values(|a: CalendarAccount| account_dto_of(a)),
{
    let converted = map_vec(&items, calendar_account_to_dto, Ghost(|a: CalendarAccount| account_dto_of(a)));
    proof {
        assert(converted@ =~= items@.map_values(|a: CalendarAccount| account_dto_of(a)));
    }
    CalendarAccountPageDto { items: converted }
}

pub open spec fn calendar_summary_dto_of(c: CalendarSummary) -> CalendarSummaryDto {
    CalendarSummaryDto {
        id: c.id,
        row_id: c.row_id,
        title: c.title,
        color: c.color,
        account_id: c.account_id,
        account_row_id: c.account_row_id,
    }
}

/// A calendar as the listing shows it.
pub fn calendar_summary_to_dto(calendar: &CalendarSummary) -> (dto: CalendarSummaryDto)
    ensures
        dto == calendar_summary_dto_of(*calendar),
{
    CalendarSummaryDto {
        id: calendar.id.clone(),
        row_id: calendar.row_id,
        title: clone_opt(&calendar.title),
        color: clone_opt(&calendar.color),
        account_id: calendar.account_id.clone(),
        account_row_id: calendar.account_row_id,
    }
}

/// One page of calendars.
pub fn calendar_page_to_dto(
    items: Vec<CalendarSummary>,
    has_more: bool,
    next_cursor: Option<String>,
    limit: u32,
) -> (dto: CalendarPageDto)
    ensures
        dto.items@ == items@.map_values(|c: CalendarSummary| calendar_summary_dto_of(c)),
        dto.page == (PageMetaDto { limit, has_more, next_cursor }),
{
    let converted = map_vec(
        &items,
        calendar_summary_to_dto,
        Ghost(|c: CalendarSummary| calendar_summary_dto_of(c)),
    );
    proof {
        assert(converted@ =~= items@.map_values(|c: CalendarSummary| calendar_summary_dto_of(c)));
    }
    CalendarPageDto { items: converted, page: PageMetaDto { limit, has_more, next_cursor } }
}

/// Every field of a calendar.
pub fn calendar_detail_to_dto(calendar: &CalendarDetail) -> (dto: CalendarDetailDto)
    ensures
        dto == (CalendarDetailDto {
            summary: calendar_summary_dto_of(calendar.summary),
            notes: calendar.notes,
            sharing_status: calendar.sharing_status,
        }),
{
    CalendarDetailDto {
        summary: calendar_summary_to_dto(&calendar.summary),
        notes: clone_opt(&calendar.notes),
        sharing_status: calendar.sharing_status,
    }
}

pub open spec fn event_summary_dto_of(e: EventSummary) -> EventSummaryDto {
    EventSummaryDto {
        id: e.id,
        row_id: e.row_id,
        calendar_id: e.calendar_id,
        calendar_row_id: e.calendar_row_id,
        summary: e.summary,
        start: e.start,
        end: e.end,
        all_day: e.all_day,
        status: event_status_dto_of(e.status),
        hidden: e.hidden,
        is_recurring: e.is_recurring,
        occurrence_start: e.occurrence_start,
        occurrence_end: e.occurrence_end,
        event_class: event_class_dto_of(e.event_class),
    }
}

/// An event as the listing shows it.
pub fn event_summary_to_dto(event: &EventSummary) -> (dto: EventSummaryDto)
    ensures
        dto == event_summary_dto_of(*event),
{
    EventSummaryDto {
        id: event.id.clone(),
        row_id: event.row_id,
        calendar_id: event.calendar_id.clone(),
        calendar_row_id: event.calendar_row_id,
        summary: clone_opt(&event.summary),
        start: event.start,
        end: event.end,
        all_day: event.all_day,
        status: event_status_to_dto(event.status),
        hidden: event.hidden,
        is_recurring: event.is_recurring,
        occurrence_start: event.occurrence_start,
        occurrence_end: event.occurrence_end,
        event_class: event_class_to_dto(event.event_class),
    }
}

/// One page of events.
pub fn event_page_to_dto(
    items: Vec<EventSummary>,
    has_more: bool,
    next_cursor: Option<String>,
    limit: u32,
) -> (dto: EventPageDto)
    ensures
        dto.items@ == items@.map_values(|e: EventSummary| event_summary_dto_of(e)),
        dto.page == (PageMetaDto { limit, has_more, next_cursor }),
{
    let converted = map_vec(&items, event_summary_to_dto, Ghost(|e: EventSummary| event_summary_dto_of(e)));
    proof {
        assert(converted@ =~= items@.map_values(|e: EventSummary| event_summary_dto_of(e)));
    }
    EventPageDto { items: converted, page: PageMetaDto { limit, has_more, next_cursor } }
}

pub open spec fn event_attachment_summary_dto_of(a: EventAttachment) -> EventAttachmentSummaryDto {
    EventAttachmentSummaryDto {
        id: a.id,
        row_id: a.row_id,
        filename: a.filename,
        format: a.format,
        file_size: a.file_size,
    }
}

fn attachment_summary_to_dto(attachment: &EventAttachment) -> (dto: EventAttachmentSummaryDto)
    ensures
        dto == event_attachment_summary_dto_of(*attachment),
{
    EventAttachmentSummaryDto {
        id: attachment.id.clone(),
        row_id: attachment.row_id,
        filename: clone_opt(&attachment.filename),
        format: clone_opt(&attachment.format),
        file_size: attachment.file_size,
    }
}

/// Every field of an event attachment.
pub fn attachment_detail_to_dto(attachment: &EventAttachment) -> (dto: EventAttachmentDetailDto)
    ensures
        dto == (EventAttachmentDetailDto {
            summary: event_attachment_summary_dto_of(*attachment),
            local_path: attachment.local_path,
        }),
{
    EventAttachmentDetailDto {
        summary: attachment_summary_to_dto(attachment),
        local_path: clone_opt(&attachment.local_path),
    }
}

pub open spec fn location_dto_of(l: EventLocation) -> EventLocationDto {
    EventLocationDto {
        title: l.title,
        address: l.address,
        latitude: l.latitude,
        longitude: l.longitude,
    }
}

fn location_to_dto(location: &EventLocation) -> (dto: EventLocationDto)
    ensures
        dto == location_dto_of(*location),
{
    EventLocationDto {
        title: clone_opt(&location.title),
        address: clone_opt(&location.address),
        latitude: location.latitude,
        longitude: location.longitude,
    }
}

pub open spec fn participant_dto_of(p: EventParticipant) -> EventParticipantDto {
    EventParticipantDto {
        id: p.id,
        email: p.email,
        phone_number: p.phone_number,
        name: p.name,
        is_self: p.is_self,
        status: invitation_status_dto_of(p.status),
        role: p.role,
        comment: p.comment,
    }
}

fn participant_to_dto(participant: &EventParticipant) -> (dto: EventParticipantDto)
    ensures
        dto == participant_dto_of(*participant),
{
    EventParticipantDto {
        id: participant.id.clone(),
        email: clone_opt(&participant.email),
        phone_number: clone_opt(&participant.phone_number),
        name: clone_opt(&participant.name),
        is_self: participant.is_self,
        status: invitation_status_to_dto(participant.status),
        role: participant.role,
        comment: clone_opt(&participant.comment),
    }
}

pub open spec fn recurrence_dto_of(r: RecurrenceRule) -> RecurrenceRuleDto {
    RecurrenceRuleDto {
        frequency: r.frequency,
        interval: r.interval,
        count: r.count,
        end_date: r.end_date,
        specifier: r.specifier,
        raw_specifier: r.raw_specifier,
    }
}

fn recurrence_to_dto(recurrence: &RecurrenceRule) -> (dto: RecurrenceRuleDto)
    ensures
        dto == recurrence_dto_of(*recurrence),
{
    RecurrenceRuleDto {
        frequency: recurrence.frequency,
        interval: recurrence.interval,
        count: recurrence.count,
        end_date: recurrence.end_date,
        specifier: clone_opt(&recurrence.specifier),
        raw_specifier: recurrence.raw_specifier.clone(),
    }
}

pub open spec fn alarm_dto_of(a: EventAlarm) -> EventAlarmDto {
    EventAlarmDto {
        id: a.id,
        trigger_interval_seconds: a.trigger_interval_seconds,
        trigger_date: a.trigger_date,
        alarm_type: a.alarm_type,
        disabled: a.disabled,
    }
}

fn alarm_to_dto(alarm: &EventAlarm) -> (dto: EventAlarmDto)
    ensures
        dto == alarm_dto_of(*alarm),
{
    EventAlarmDto {
        id: alarm.id.clone(),
        trigger_interval_seconds: alarm.trigger_interval_seconds,
        trigger_date: alarm.trigger_date,
        alarm_type: alarm.alarm_type,
        disabled: alarm.disabled,
    }
}

fn copy_timestamps(v: &Vec<i64>) -> (out: Vec<i64>)
    ensures
        out@ == v@,
{
    let mut out: Vec<i64> = Vec::new();
    let mut i: usize = 0;
    while i < v.len()
        invariant
            i <= v.len(),
            out@ == v@.take(i as int),
        decreases v.len() - i,
    {
        out.push(v[i]);
        proof {
            assert(out@ =~= v@.take(i + 1));
        }
        i = i + 1;
    }
    proof {
        assert(v@.take(i as int) =~= v@);
    }
    out
}

/// Every field of an event as the API shows it; structured data and app links are only said
/// to be present.
pub open spec fn event_detail_matches(e: EventDetail, dto: EventDetailDto) -> bool {
    &&& dto.summary == event_summary_dto_of(e.summary)
    &&& dto.description == e.description
    &&& dto.url == e.url
    &&& dto.location == match e.location {
        Some(l) => Some(location_dto_of(l)),
        None => None,
    }
    &&& dto.organizer == match e.organizer {
        Some(p) => Some(participant_dto_of(p)),
        None => None,
    }
    &&& dto.attendees@ == e.attendees@.map_values(|p: EventParticipant| participant_dto_of(p))
    &&& dto.recurrence == match e.recurrence {
        Some(r) => Some(recurrence_dto_of(r)),
        None => None,
    }
    &&& dto.exception_dates@ == e.exception_dates@
    &&& dto.alarms@ == e.alarms@.map_values(|a: EventAlarm| alarm_dto_of(a))
    &&& dto.attachments@ == e.attachments@.map_values(
        |a: EventAttachment| event_attachment_summary_dto_of(a),
    )
    &&& dto.conference_url == e.conference_url
    &&& dto.travel_time_seconds == e.travel_time_seconds
    &&& dto.invitation_status == invitation_status_dto_of(e.invitation_status)
    &&& dto.availability == availability_dto_of(e.availability)
    &&& dto.privacy_level == privacy_level_dto_of(e.privacy_level)
    &&& dto.series_id == e.series_id
    &&& dto.series_row_id == e.series_row_id
    &&& dto.original_start == e.original_start
    &&& dto.last_modified == e.last_modified
    &&& dto.creation_date == e.creation_date
    &&& dto.has_structured_data == e.structured_data is Some
    &&& dto.has_app_link == e.app_link is Some
}

/// Every field of an event as the API shows it.
pub fn event_detail_to_dto(event: &EventDetail) -> (dto: EventDetailDto)
    ensures
        event_detail_matches(*event, dto),
{
    let attendees = map_vec(
        &event.attendees,
        participant_to_dto,
        Ghost(|p: EventParticipant| participant_dto_of(p)),
    );
    let alarms = map_vec(&event.alarms, alarm_to_dto, Ghost(|a: EventAlarm| alarm_dto_of(a)));
    let attachments = map_vec(
        &event.attachments,
        attachment_summary_to_dto,
        Ghost(|a: EventAttachment| event_attachment_summary_dto_of(a)),
    );
    proof {
        assert(attendees@ =~= event.attendees@.map_values(
            |p: EventParticipant| participant_dto_of(p),
        ));
        assert(alarms@ =~= event.alarms@.map_values(|a: EventAlarm| alarm_dto_of(a)));
        assert(attachments@ =~= event.attachments@.map_values(
            |a: EventAttachment| event_attachment_summary_dto_of(a),
        ));
    }
    EventDetailDto {
        summary: event_summary_to_dto(&event.summary),
        description: clone_opt(&event.description),
        url: clone_opt(&event.url),
        location: match &event.location {
            Some(l) => Some(location_to_dto(l)),
            None => None,
        },
        organizer: match &event.organizer {
            Some(p) => Some(participant_to_dto(p)),
            None => None,
        },
        attendees,
        recurrence: match &event.recurrence {
            Some(r) => Some(recurrence_to_dto(r)),
            None => None,
        },
        exception_dates: copy_timestamps(&event.exception_dates),
        alarms,
        attachments,
        conference_url: clone_opt(&event.conference_url),
        travel_time_seconds: event.travel_time_seconds,
        invitation_status: invitation_status_to_dto(event.invitation_status),
        availability: availability_to_dto(event.availability),
        privacy_level: privacy_level_to_dto(event.privacy_level),
        series_id: clone_opt(&event.series_id),
        series_row_id: event.series_row_id,
        original_start: event.original_start,
        last_modified: event.last_modified,
        creation_date: event.creation_date,
        has_structured_data: event.structured_data.is_some(),
        has_app_link: event.app_link.is_some(),
    }
}

/// Each StoreType value is shown under its own name, and distinct values stay distinct.
pub proof fn law_store_type_dto_of_keeps_names(x: StoreType, y: StoreType)
    ensures
        x == StoreType::Local ==> store_type_dto_of(x) == StoreTypeDto::Local,
        x == StoreType::CalDav ==> store_type_dto_of(x) == StoreTypeDto::CalDav,
        x == StoreType::Exchange ==> store_type_dto_of(x) == StoreTypeDto::Exchange,
        x == StoreType::Subscription ==> store_type_dto_of(x) == StoreTypeDto::Subscription,
        x == StoreType::Birthday ==> store_type_dto_of(x) == StoreTypeDto::Birthday,
        x != y ==> store_type_dto_of(x) != store_type_dto_of(y),
{
}

/// Each EventStatus value is shown under its own name, and distinct values stay distinct.
pub proof fn law_event_status_dto_of_keeps_names(x: EventStatus, y: EventStatus)
    ensures
        x == EventStatus::Confirmed ==> event_status_dto_of(x) == EventStatusDto::Confirmed,
        x == EventStatus::Tentative ==> event_status_dto_of(x) == EventStatusDto::Tentative,
        x == EventStatus::Cancelled ==> event_status_dto_of(x) == EventStatusDto::Cancelled,
        x != y ==> event_status_dto_of(x) != event_status_dto_of(y),
{
}

/// Each InvitationStatus value is shown under its own name, and distinct values stay distinct.
pub proof fn law_invitation_status_dto_of_keeps_names(x: InvitationStatus, y: InvitationStatus)
    ensures
        x == InvitationStatus::Unknown ==> invitation_status_dto_of(x) == InvitationStatusDto::Unknown,
        x == InvitationStatus::Accepted ==> invitation_status_dto_of(x) == InvitationStatusDto::Accepted,
        x == InvitationStatus::Declined ==> invitation_status_dto_of(x) == InvitationStatusDto::Declined,
        x == InvitationStatus::Tentative ==> invitation_status_dto_of(x) == InvitationStatusDto::Tentative,
        x == InvitationStatus::NeedsAction ==> invitation_status_dto_of(x) == InvitationStatusDto::NeedsAction,
        x != y ==> invitation_status_dto_of(x) != invitation_status_dto_of(y),
{
}

/// Each Availability value is shown under its own name, and distinct values stay distinct.
pub proof fn law_availability_dto_of_keeps_names(x: Availability, y: Availability)
    ensures
        x == Availability::Busy ==> availability_dto_of(x) == AvailabilityDto::Busy,
        x == Availability::Free ==> availability_dto_of(x) == AvailabilityDto::Free,
        x == Availability::Tentative ==> availability_dto_of(x) == AvailabilityDto::Tentative,
        x == Availability::Unavailable ==> availability_dto_of(x) == AvailabilityDto::Unavailable,
        x != y ==> availability_dto_of(x) != availability_dto_of(y),
{
}

/// Each PrivacyLevel value is shown under its own name, and distinct values stay distinct.
pub proof fn law_privacy_level_dto_of_keeps_names(x: PrivacyLevel, y: PrivacyLevel)
    ensures
        x == PrivacyLevel::Default ==> privacy_level_dto_of(x) == PrivacyLevelDto::Default,
        x == PrivacyLevel::Public ==> privacy_level_dto_of(x) == PrivacyLevelDto::Public,
        x == PrivacyLevel::Private ==> privacy_level_dto_of(x) == PrivacyLevelDto::Private,
        x != y ==> privacy_level_dto_of(x) != privacy_level_dto_of(y),
{
}

/// Each EventClass value is shown under its own name, and distinct values stay distinct.
pub proof fn law_event_class_dto_of_keeps_names(x: EventClass, y: EventClass)
    ensures
        x == EventClass::Standard ==> event_class_dto_of(x) == EventClassDto::Standard,
        x == EventClass::Birthday ==> event_class_dto_of(x) == EventClassDto::Birthday,
        x == EventClass::SpecialDay ==> event_class_dto_of(x) == EventClassDto::SpecialDay,
        x != y ==> event_class_dto_of(x) != event_class_dto_of(y),
{
}

} // verus!
