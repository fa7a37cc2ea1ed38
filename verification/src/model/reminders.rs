//! Reminders records.

use vstd::prelude::*;

use crate::floats::FloatBits;

verus! {

/// Whether a list holds its own reminders or gathers them by a filter.
#[derive(Debug, Clone, Copy, PartialEq, Eq, Structural)]
pub enum ListKind {
    Standard,
    Smart,
}

/// A section of a list.
#[derive(Debug, Clone)]
pub struct Section {
    pub id: String,
    pub display_name: String,
    pub canonical_name: Option<String>,
}

/// A reminder list.
#[derive(Debug, Clone)]
pub struct ReminderList {
    pub id: String,
    pub row_id: i64,
    pub name: String,
    pub kind: ListKind,
    pub smart_list_type: Option<String>,
    pub sharing_status: Option<i64>,
    pub shared_owner_name: Option<String>,
    pub shared_owner_address: Option<String>,
    pub sections: Vec<Section>,
}

/// The decoded filter of a smart list: whether its stored filter data decoded, and the
/// decoded filter as JSON text.
#[derive(Debug, Clone)]
pub struct SmartFilter {
    pub decoded: bool,
    pub raw: Option<String>,
}

/// A reminder's priority.
#[derive(Debug, Clone, Copy, PartialEq, Eq, Structural)]
pub enum Priority {
    NoPriority,
    Low,
    Medium,
    High,
}

/// When a reminder is due.
#[derive(Debug, Clone, Copy, PartialEq, Eq, Structural)]
pub struct Due {
    pub at: i64,
    pub all_day: bool,
}

/// The listing fields of a reminder.
#[derive(Debug, Clone)]
pub struct ReminderSummary {
    pub id: String,
    pub row_id: i64,
    pub title: String,
    pub completed: bool,
    pub flagged: bool,
    pub priority: Priority,
    pub list_id: String,
    pub list_row_id: i64,
    pub list_name: String,
    pub parent_id: Option<String>,
    pub section_id: Option<String>,
    pub due: Option<Due>,
    pub last_modified_at: Option<i64>,
    pub tags: Vec<String>,
}

/// The kind of a reminder alarm.
#[derive(Debug, Clone, Copy, PartialEq, Eq, Structural)]
pub enum AlarmKind {
    Absolute,
    Relative,
    Location,
    Unknown,
}

/// An alarm of a reminder.
#[derive(Debug, Clone)]
pub struct Alarm {
    pub kind: AlarmKind,
    pub title: Option<String>,
    pub latitude: Option<FloatBits>,
    pub longitude: Option<FloatBits>,
    pub radius: Option<FloatBits>,
    pub time_interval: Option<FloatBits>,
    pub decode_error: Option<String>,
}

/// How a reminder repeats.
#[derive(Debug, Clone)]
pub struct RecurrenceRule {
    pub frequency: i64,
    pub interval: i64,
    pub occurrence_count: Option<i64>,
    pub decode_error: Option<String>,
}

/// The kind of a file attached to a reminder.
#[derive(Debug, Clone, Copy, PartialEq, Eq, Structural)]
pub enum AttachmentKind {
    File,
    Image,
    Audio,
    Unknown(i64),
}

/// A file attached to a reminder.
#[derive(Debug, Clone)]
pub struct ReminderAttachment {
    pub id: String,
    pub row_id: i64,
    pub filename: Option<String>,
    pub uti: Option<String>,
    pub sha512: Option<String>,
    pub kind: AttachmentKind,
    pub modified_at: Option<i64>,
}

/// Every field of a reminder.
#[derive(Debug, Clone)]
pub struct Reminder {
    pub id: String,
    pub row_id: i64,
    pub title: String,
    pub notes: Option<String>,
    pub completed: bool,
    pub flagged: bool,
    pub priority: Priority,
    pub list_id: String,
    pub list_row_id: i64,
    pub list_name: String,
    pub parent_id: Option<String>,
    pub section_id: Option<String>,
    pub due: Option<Due>,
    pub completion_at: Option<i64>,
    pub created_at: Option<i64>,
    pub last_modified_at: Option<i64>,
    pub subtasks: Vec<ReminderSummary>,
    pub tags: Vec<String>,
    pub alarms: Vec<Alarm>,
    pub recurrence: Option<RecurrenceRule>,
    pub attachments: Vec<ReminderAttachment>,
}

} // verus!
