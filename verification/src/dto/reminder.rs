//! Reminders responses.

use vstd::prelude::*;

use crate::dto::pagination::PageMetaDto;
pub use crate::eventkit::AlarmKindDto;
use crate::floats::FloatBits;
use crate::model::reminders::Due;

verus! {

/// Whether a list holds its own reminders or gathers them by a filter.
#[derive(Debug, Clone, Copy, PartialEq, Eq, Structural)]
pub enum ReminderListKindDto {
    Standard,
    Smart,
}

/// When a reminder is due.
#[derive(Debug, Clone, Copy, PartialEq, Eq, Structural)]
pub struct DueDto {
    pub at: i64,
    pub all_day: bool,
}

/// A section of a list.
#[derive(Debug, Clone)]
pub struct SectionSummaryDto {
    pub id: String,
    pub display_name: String,
    pub canonical_name: Option<String>,
}

/// A smart list's filter: whether it decoded, and the decoded filter as JSON text.
#[derive(Debug, Clone)]
pub struct SmartFilterDto {
    pub decoded: bool,
    pub raw: Option<String>,
}

/// A list with its sharing state, filter and sections.
#[derive(Debug, Clone)]
pub struct ReminderListDetailDto {
    pub id: String,
    pub row_id: i64,
    pub name: String,
    pub kind: ReminderListKindDto,
    pub smart_list_type: Option<String>,
    pub sharing_status: Option<i64>,
    pub shared_owner_name: Option<String>,
    pub shared_owner_address: Option<String>,
    pub filter: SmartFilterDto,
    pub sections: Vec<SectionSummaryDto>,
}

/// A list as the listing shows it.
#[derive(Debug, Clone)]
pub struct ReminderListSummaryDto {
    pub id: String,
    pub row_id: i64,
    pub name: String,
    pub kind: ReminderListKindDto,
    pub smart_list_type: Option<String>,
}

/// A reminder as the listing shows it; its priority is EventKit's raw value.
#[derive(Debug, Clone)]
pub struct ReminderSummaryDto {
    pub id: String,
    pub row_id: i64,
    pub title: String,
    pub completed: bool,
    pub flagged: bool,
    pub priority: i64,
    pub list_id: String,
    pub list_row_id: i64,
    pub list_name: String,
    pub parent_id: Option<String>,
    pub section_id: Option<String>,
    pub due: Option<DueDto>,
    pub last_modified_at: Option<i64>,
    pub tags: Vec<String>,
}

/// An alarm of a reminder.
#[derive(Debug, Clone)]
pub struct AlarmDto {
    pub kind: AlarmKindDto,
    pub title: Option<String>,
    pub latitude: Option<FloatBits>,
    pub longitude: Option<FloatBits>,
    pub radius: Option<FloatBits>,
    pub time_interval: Option<FloatBits>,
    pub decode_error: Option<String>,
}

/// How a reminder repeats.
#[derive(Debug, Clone)]
pub struct RecurrenceDto {
    pub frequency: i64,
    pub interval: i64,
    pub occurrence_count: Option<i64>,
    pub decode_error: Option<String>,
}

/// The kind of a file attached to a reminder.
#[derive(Debug, Clone, Copy, PartialEq, Eq, Structural)]
pub enum ReminderAttachmentKindDto {
    File,
    Image,
    Audio,
    Unknown,
}

/// A file attached to a reminder, as the reminder lists it.
#[derive(Debug, Clone)]
pub struct ReminderAttachmentSummaryDto {
    pub id: String,
    pub row_id: i64,
    pub filename: Option<String>,
    pub uti: Option<String>,
    pub sha512: Option<String>,
    pub kind: ReminderAttachmentKindDto,
}

/// Every field of a reminder.
#[derive(Debug, Clone)]
pub struct ReminderDetailDto {
    pub id: String,
    pub row_id: i64,
    pub title: String,
    pub notes: Option<String>,
    pub completed: bool,
    pub flagged: bool,
    pub priority: i64,
    pub list_id: String,
    pub list_row_id: i64,
    pub list_name: String,
    pub parent_id: Option<String>,
    pub section_id: Option<String>,
    pub due: Option<DueDto>,
    pub completion_at: Option<i64>,
    pub created_at: Option<i64>,
    pub last_modified_at: Option<i64>,
    pub subtasks: Vec<ReminderSummaryDto>,
    pub tags: Vec<String>,
    pub alarms: Vec<AlarmDto>,
    pub recurrence: Option<RecurrenceDto>,
    pub attachments: Vec<ReminderAttachmentSummaryDto>,
}

/// One page of lists.
#[derive(Debug, Clone)]
pub struct ReminderListPageDto {
    pub items: Vec<ReminderListSummaryDto>,
    pub page: PageMetaDto,
}

/// One page of reminders.
#[derive(Debug, Clone)]
pub struct ReminderPageDto {
    pub items: Vec<ReminderSummaryDto>,
    pub page: PageMetaDto,
}

/// Every field of a reminder attachment.
#[derive(Debug, Clone)]
pub struct ReminderAttachmentDetailDto {
    pub id: String,
    pub row_id: i64,
    pub filename: Option<String>,
    pub uti: Option<String>,
    pub sha512: Option<String>,
    pub kind: ReminderAttachmentKindDto,
    pub reminder_id: String,
    pub modified_at: Option<i64>,
}

/// A due date as the API shows it.
pub fn due_to_dto(due: &Due) -> (dto: DueDto)
    ensures
        dto == (DueDto { at: due.at, all_day: due.all_day }),
{
    DueDto { at: due.at, all_day: due.all_day }
}

} // verus!
