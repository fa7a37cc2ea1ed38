//! Reminders records as the API shows them.

use vstd::prelude::*;

use crate::dto::pagination::PageMetaDto;
use crate::dto::reminder::{
    due_to_dto, AlarmDto, AlarmKindDto, DueDto, RecurrenceDto, ReminderAttachmentDetailDto,
    ReminderAttachmentKindDto, ReminderAttachmentSummaryDto, ReminderDetailDto,
    ReminderListDetailDto, ReminderListKindDto, ReminderListPageDto, ReminderListSummaryDto,
    ReminderPageDto, ReminderSummaryDto, SectionSummaryDto, SmartFilterDto,
};
use crate::model::reminders::{
    Alarm, AlarmKind, AttachmentKind, Due, ListKind, Priority, RecurrenceRule, Reminder,
    ReminderAttachment, ReminderList, ReminderSummary, Section, SmartFilter,
};
use crate::seqmap::{map_vec, map_vec_rel, pairwise};
use crate::text::{clone_opt, clone_strings};

verus! {

/// EventKit's raw priority: 0 for none, 9 low, 5 medium, 1 high.
pub open spec fn priority_raw(priority: Priority) -> i64 {
    match priority {
        Priority::NoPriority => 0,
        Priority::Low => 9,
        Priority::Medium => 5,
        Priority::High => 1,
    }
}

/// EventKit's raw value of a priority.
pub fn priority_to_raw(priority: &Priority) -> (raw: i64)
    ensures
        raw == priority_raw(*priority),
{
    match priority {
        Priority::NoPriority => 0,
        Priority::Low => 9,
        Priority::Medium => 5,
        Priority::High => 1,
    }
}

pub open spec fn list_kind_dto_of(kind: ListKind) -> ReminderListKindDto {
    match kind {
        ListKind::Standard => ReminderListKindDto::Standard,
        ListKind::Smart => ReminderListKindDto::Smart,
    }
}

fn list_kind_to_dto(kind: ListKind) -> (dto: ReminderListKindDto)
    ensures
        dto == list_kind_dto_of(kind),
{
    match kind {
        ListKind::Standard => ReminderListKindDto::Standard,
        ListKind::Smart => ReminderListKindDto::Smart,
    }
}

pub open spec fn list_summary_dto_of(list: ReminderList) -> ReminderListSummaryDto {
    ReminderListSummaryDto {
        id: list.id,
        row_id: list.row_id,
        name: list.name,
        kind: list_kind_dto_of(list.kind),
        smart_list_type: list.smart_list_type,
    }
}

/// A list as the listing shows it.
pub fn reminder_list_summary_to_dto(list: &ReminderList) -> (dto: ReminderListSummaryDto)
    ensures
        dto == list_summary_dto_of(*list),
{
    ReminderListSummaryDto {
        id: list.id.clone(),
        row_id: list.row_id,
        name: list.name.clone(),
        kind: list_kind_to_dto(list.kind),
        smart_list_type: clone_opt(&list.smart_list_type),
    }
}

pub open spec fn section_dto_of(section: Section) -> SectionSummaryDto {
    SectionSummaryDto {
        id: section.id,
        display_name: section.display_name,
        canonical_name: section.canonical_name,
    }
}

fn section_to_dto(section: &Section) -> (dto: SectionSummaryDto)
    ensures
        dto == section_dto_of(*section),
{
    SectionSummaryDto {
        id: section.id.clone(),
        display_name: section.display_name.clone(),
        canonical_name: clone_opt(&section.canonical_name),
    }
}

pub open spec fn smart_filter_dto_of(filter: SmartFilter) -> SmartFilterDto {
    SmartFilterDto { decoded: filter.decoded, raw: filter.raw }
}

fn smart_filter_to_dto(filter: &SmartFilter) -> (dto: SmartFilterDto)
    ensures
        dto == smart_filter_dto_of(*filter),
{
    SmartFilterDto { decoded: filter.decoded, raw: clone_opt(&filter.raw) }
}

/// A list in full. `filter` is the list's stored filter data as the Reminders reader decoded
/// it.
pub fn reminder_list_detail_to_dto(list: &ReminderList, filter: &SmartFilter) -> (dto:
    ReminderListDetailDto)
    ensures
        dto.id == list.id,
        dto.row_id == list.row_id,
        dto.name == list.name,
        dto.kind == list_kind_dto_of(list.kind),
        dto.smart_list_type == list.smart_list_type,
        dto.sharing_status == list.sharing_status,
        dto.shared_owner_name == list.shared_owner_name,
        dto.shared_owner_address == list.shared_owner_address,
        dto.filter == smart_filter_dto_of(*filter),
        dto.sections@ == list.sections@.map_values(|s: Section| section_dto_of(s)),
{
    let sections = map_vec(&list.sections, section_to_dto, Ghost(|s: Section| section_dto_of(s)));
    proof {
        assert(sections@ =~= list.sections@.map_values(|s: Section| section_dto_of(s)));
    }
    ReminderListDetailDto {
        id: list.id.clone(),
        row_id: list.row_id,
        name: list.name.clone(),
        kind: list_kind_to_dto(list.kind),
        smart_list_type: clone_opt(&list.smart_list_type),
        sharing_status: list.sharing_status,
        shared_owner_name: clone_opt(&list.shared_owner_name),
        shared_owner_address: clone_opt(&list.shared_owner_address),
        filter: smart_filter_to_dto(filter),
        sections,
    }
}

/// One page of lists.
pub fn reminder_list_page_to_dto(
    items: Vec<ReminderList>,
    has_more: bool,
    next_cursor: Option<String>,
    limit: u32,
) -> (dto: ReminderListPageDto)
    ensures
        dto.items@ == items@.map_values(|l: ReminderList| list_summary_dto_of(l)),
        dto.page == (PageMetaDto { limit, has_more, next_cursor }),
{
    let converted = map_vec(
        &items,
        reminder_list_summary_to_dto,
        Ghost(|l: ReminderList| list_summary_dto_of(l)),
    );
    proof {
        assert(converted@ =~= items@.map_values(|l: ReminderList| list_summary_dto_of(l)));
    }
    ReminderListPageDto { items: converted, page: PageMetaDto { limit, has_more, next_cursor } }
}

pub open spec fn opt_due_dto_of(due: Option<Due>) -> Option<DueDto> {
    match due {
        Some(d) => Some(DueDto { at: d.at, all_day: d.all_day }),
        None => None,
    }
}

/// A reminder as the listing shows it.
pub open spec fn reminder_summary_matches(r: ReminderSummary, dto: ReminderSummaryDto) -> bool {
    &&& dto.id == r.id
    &&& dto.row_id == r.row_id
    &&& dto.title == r.title
    &&& dto.completed == r.completed
    &&& dto.flagged == r.flagged
    &&& dto.priority == priority_raw(r.priority)
    &&& dto.list_id == r.list_id
    &&& dto.list_row_id == r.list_row_id
    &&& dto.list_name == r.list_name
    &&& dto.parent_id == r.parent_id
    &&& dto.section_id == r.section_id
    &&& dto.due == opt_due_dto_of(r.due)
    &&& dto.last_modified_at == r.last_modified_at
    &&& dto.tags@ == r.tags@
}

/// A reminder as the listing shows it.
pub fn reminder_summary_to_dto(reminder: &ReminderSummary) -> (dto: ReminderSummaryDto)
    ensures
        reminder_summary_matches(*reminder, dto),
{
    ReminderSummaryDto {
        id: reminder.id.clone(),
        row_id: reminder.row_id,
        title: reminder.title.clone(),
        completed: reminder.completed,
        flagged: reminder.flagged,
        priority: priority_to_raw(&reminder.priority),
        list_id: reminder.list_id.clone(),
        list_row_id: reminder.list_row_id,
        list_name: reminder.list_name.clone(),
        parent_id: clone_opt(&reminder.parent_id),
        section_id: clone_opt(&reminder.section_id),
        due: match &reminder.due {
            Some(d) => Some(due_to_dto(d)),
            None => None,
        },
        last_modified_at: reminder.last_modified_at,
        tags: clone_strings(&reminder.tags),
    }
}

/// One page of reminders.
pub fn reminder_page_to_dto(
    items: Vec<ReminderSummary>,
    has_more: bool,
    next_cursor: Option<String>,
    limit: u32,
) -> (dto: ReminderPageDto)
    ensures
        pairwise(
            items@,
            dto.items@,
            |r: ReminderSummary, d: ReminderSummaryDto| reminder_summary_matches(r, d),
        ),
        dto.page == (PageMetaDto { limit, has_more, next_cursor }),
{
    let converted = map_vec_rel(
        &items,
        reminder_summary_to_dto,
        Ghost(|r: ReminderSummary, d: ReminderSummaryDto| reminder_summary_matches(r, d)),
    );
    ReminderPageDto { items: converted, page: PageMetaDto { limit, has_more, next_cursor } }
}

pub open spec fn alarm_kind_dto_of(kind: AlarmKind) -> AlarmKindDto {
    match kind {
        AlarmKind::Absolute => AlarmKindDto::Absolute,
        AlarmKind::Relative => AlarmKindDto::Relative,
        AlarmKind::Location => AlarmKindDto::Location,
        AlarmKind::Unknown => AlarmKindDto::Unknown,
    }
}

pub open spec fn alarm_dto_of(a: Alarm) -> AlarmDto {
    AlarmDto {
        kind: alarm_kind_dto_of(a.kind),
        title: a.title,
        latitude: a.latitude,
        longitude: a.longitude,
        radius: a.radius,
        time_interval: a.time_interval,
        decode_error: a.decode_error,
    }
}

fn alarm_to_dto(alarm: &Alarm) -> (dto: AlarmDto)
    ensures
        dto == alarm_dto_of(*alarm),
{
    AlarmDto {
        kind: match alarm.kind {
            AlarmKind::Absolute => AlarmKindDto::Absolute,
            AlarmKind::Relative => AlarmKindDto::Relative,
            AlarmKind::Location => AlarmKindDto::Location,
            AlarmKind::Unknown => AlarmKindDto::Unknown,
        },
        title: clone_opt(&alarm.title),
        latitude: alarm.latitude,
        longitude: alarm.longitude,
        radius: alarm.radius,
        time_interval: alarm.time_interval,
        decode_error: clone_opt(&alarm.decode_error),
    }
}

pub open spec fn recurrence_dto_of(r: RecurrenceRule) -> RecurrenceDto {
    RecurrenceDto {
        frequency: r.frequency,
        interval: r.interval,
        occurrence_count: r.occurrence_count,
        decode_error: r.decode_error,
    }
}

fn recurrence_to_dto(rule: &RecurrenceRule) -> (dto: RecurrenceDto)
    ensures
        dto == recurrence_dto_of(*rule),
{
    RecurrenceDto {
        frequency: rule.frequency,
        interval: rule.interval,
        occurrence_count: rule.occurrence_count,
        decode_error: clone_opt(&rule.decode_error),
    }
}

pub open spec fn attachment_kind_dto_of(kind: AttachmentKind) -> ReminderAttachmentKindDto {
    match kind {
        AttachmentKind::File => ReminderAttachmentKindDto::File,
        AttachmentKind::Image => ReminderAttachmentKindDto::Image,
        AttachmentKind::Audio => ReminderAttachmentKindDto::Audio,
        AttachmentKind::Unknown(_) => ReminderAttachmentKindDto::Unknown,
    }
}

fn attachment_kind_to_dto(kind: &AttachmentKind) -> (dto: ReminderAttachmentKindDto)
    ensures
        dto == attachment_kind_dto_of(*kind),
{
    match kind {
        AttachmentKind::File => ReminderAttachmentKindDto::File,
        AttachmentKind::Image => ReminderAttachmentKindDto::Image,
        AttachmentKind::Audio => ReminderAttachmentKindDto::Audio,
        AttachmentKind::Unknown(_) => ReminderAttachmentKindDto::Unknown,
    }
}

pub open spec fn attachment_summary_dto_of(a: ReminderAttachment) -> ReminderAttachmentSummaryDto {
    ReminderAttachmentSummaryDto {
        id: a.id,
        row_id: a.row_id,
        filename: a.filename,
        uti: a.uti,
        sha512: a.sha512,
        kind: attachment_kind_dto_of(a.kind),
    }
}

fn reminder_attachment_summary_to_dto(attachment: &ReminderAttachment) -> (dto:
    ReminderAttachmentSummaryDto)
    ensures
        dto == attachment_summary_dto_of(*attachment),
{
    ReminderAttachmentSummaryDto {
        id: attachment.id.clone(),
        row_id: attachment.row_id,
        filename: clone_opt(&attachment.filename),
        uti: clone_opt(&attachment.uti),
        sha512: clone_opt(&attachment.sha512),
        kind: attachment_kind_to_dto(&attachment.kind),
    }
}

/// Every field of a reminder as the API shows it.
pub open spec fn reminder_detail_matches(r: Reminder, dto: ReminderDetailDto) -> bool {
    &&& dto.id == r.id
    &&& dto.row_id == r.row_id
    &&& dto.title == r.title
    &&& dto.notes == r.notes
    &&& dto.completed == r.completed
    &&& dto.flagged == r.flagged
    &&& dto.priority == priority_raw(r.priority)
    &&& dto.list_id == r.list_id
    &&& dto.list_row_id == r.list_row_id
    &&& dto.list_name == r.list_name
    &&& dto.parent_id == r.parent_id
    &&& dto.section_id == r.section_id
    &&& dto.due == opt_due_dto_of(r.due)
    &&& dto.completion_at == r.completion_at
    &&& dto.created_at == r.created_at
    &&& dto.last_modified_at == r.last_modified_at
    &&& pairwise(
        r.subtasks@,
        dto.subtasks@,
        |s: ReminderSummary, d: ReminderSummaryDto| reminder_summary_matches(s, d),
    )
    &&& dto.tags@ == r.tags@
    &&& dto.alarms@ == r.alarms@.map_values(|a: Alarm| alarm_dto_of(a))
    &&& dto.recurrence == match r.recurrence {
        Some(x) => Some(recurrence_dto_of(x)),
        None => None,
    }
    &&& dto.attachments@ == r.attachments@.map_values(
        |a: ReminderAttachment| attachment_summary_dto_of(a),
    )
}

/// Every field of a reminder as the API shows it.
pub fn reminder_detail_to_dto(reminder: &Reminder) -> (dto: ReminderDetailDto)
    ensures
        reminder_detail_matches(*reminder, dto),
{
    let subtasks = map_vec_rel(
        &reminder.subtasks,
        reminder_summary_to_dto,
        Ghost(|s: ReminderSummary, d: ReminderSummaryDto| reminder_summary_matches(s, d)),
    );
    let alarms = map_vec(&reminder.alarms, alarm_to_dto, Ghost(|a: Alarm| alarm_dto_of(a)));
    let attachments = map_vec(
        &reminder.attachments,
        reminder_attachment_summary_to_dto,
        Ghost(|a: ReminderAttachment| attachment_summary_dto_of(a)),
    );
    proof {
        assert(alarms@ =~= reminder.alarms@.map_values(|a: Alarm| alarm_dto_of(a)));
        assert(attachments@ =~= reminder.attachments@.map_values(
            |a: ReminderAttachment| attachment_summary_dto_of(a),
        ));
    }
    ReminderDetailDto {
        id: reminder.id.clone(),
        row_id: reminder.row_id,
        title: reminder.title.clone(),
        notes: clone_opt(&reminder.notes),
        completed: reminder.completed,
        flagged: reminder.flagged,
        priority: priority_to_raw(&reminder.priority),
        list_id: reminder.list_id.clone(),
        list_row_id: reminder.list_row_id,
        list_name: reminder.list_name.clone(),
        parent_id: clone_opt(&reminder.parent_id),
        section_id: clone_opt(&reminder.section_id),
        due: match &reminder.due {
            Some(d) => Some(due_to_dto(d)),
            None => None,
        },
        completion_at: reminder.completion_at,
        created_at: reminder.created_at,
        last_modified_at: reminder.last_modified_at,
        subtasks,
        tags: clone_strings(&reminder.tags),
        alarms,
        recurrence: match &reminder.recurrence {
            Some(x) => Some(recurrence_to_dto(x)),
            None => None,
        },
        attachments,
    }
}

/// Every field of a reminder attachment, with the reminder it belongs to.
pub fn reminder_attachment_detail_to_dto(
    attachment: &ReminderAttachment,
    reminder_id: String,
) -> (dto: ReminderAttachmentDetailDto)
    ensures
        dto == (ReminderAttachmentDetailDto {
            id: attachment.id,
            row_id: attachment.row_id,
            filename: attachment.filename,
            uti: attachment.uti,
            sha512: attachment.sha512,
            kind: attachment_kind_dto_of(attachment.kind),
            reminder_id,
            modified_at: attachment.modified_at,
        }),
{
    ReminderAttachmentDetailDto {
        id: attachment.id.clone(),
        row_id: attachment.row_id,
        filename: clone_opt(&attachment.filename),
        uti: clone_opt(&attachment.uti),
        sha512: clone_opt(&attachment.sha512),
        kind: attachment_kind_to_dto(&attachment.kind),
        reminder_id,
        modified_at: attachment.modified_at,
    }
}

/// Each ListKind value is shown under its own name, and distinct values stay distinct.
pub proof fn law_list_kind_dto_of_keeps_names(x: ListKind, y: ListKind)
    ensures
        x == ListKind::Standard ==> list_kind_dto_of(x) == ReminderListKindDto::Standard,
        x == ListKind::Smart ==> list_kind_dto_of(x) == ReminderListKindDto::Smart,
        x != y ==> list_kind_dto_of(x) != list_kind_dto_of(y),
{
}

/// Each AlarmKind value is shown under its own name, and distinct values stay distinct.
pub proof fn law_alarm_kind_dto_of_keeps_names(x: AlarmKind, y: AlarmKind)
    ensures
        x == AlarmKind::Absolute ==> alarm_kind_dto_of(x) == AlarmKindDto::Absolute,
        x == AlarmKind::Relative ==> alarm_kind_dto_of(x) == AlarmKindDto::Relative,
        x == AlarmKind::Location ==> alarm_kind_dto_of(x) == AlarmKindDto::Location,
        x == AlarmKind::Unknown ==> alarm_kind_dto_of(x) == AlarmKindDto::Unknown,
        x != y ==> alarm_kind_dto_of(x) != alarm_kind_dto_of(y),
{
}

/// Each AttachmentKind value is shown under its own name.
pub proof fn law_attachment_kind_dto_of_keeps_names(x: AttachmentKind)
    ensures
        x == AttachmentKind::File ==> attachment_kind_dto_of(x) == ReminderAttachmentKindDto::File,
        x == AttachmentKind::Image ==> attachment_kind_dto_of(x) == ReminderAttachmentKindDto::Image,
        x == AttachmentKind::Audio ==> attachment_kind_dto_of(x) == ReminderAttachmentKindDto::Audio,
        x is Unknown ==> attachment_kind_dto_of(x) == ReminderAttachmentKindDto::Unknown,
{
}

/// EventKit's raw priority: 0 means no priority, and a higher priority has a smaller raw
/// value (high 1, medium 5, low 9); distinct priorities keep distinct raw values.
pub proof fn law_priority_raw_orders_priorities(p: Priority, q: Priority)
    ensures
        (priority_raw(p) == 0) == (p == Priority::NoPriority),
        p == Priority::High ==> priority_raw(p) == 1,
        p == Priority::Medium ==> priority_raw(p) == 5,
        p == Priority::Low ==> priority_raw(p) == 9,
        p != q ==> priority_raw(p) != priority_raw(q),
        p == Priority::High && q == Priority::Medium ==> priority_raw(p) < priority_raw(q),
        p == Priority::Medium && q == Priority::Low ==> priority_raw(p) < priority_raw(q),
{
}

} // verus!
