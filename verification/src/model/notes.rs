//! Notes records.

use vstd::prelude::*;

verus! {

/// The kind of a notes folder.
#[derive(Debug, Clone, Copy, PartialEq, Eq, Structural)]
pub enum FolderKind {
    Standard,
    Smart,
    Deleted,
}

/// A notes folder.
#[derive(Debug, Clone)]
pub struct NoteFolder {
    pub id: String,
    pub row_id: i64,
    pub title: Option<String>,
    pub kind: FolderKind,
    pub parent_id: Option<String>,
    pub parent_row_id: Option<i64>,
    pub account_id: Option<String>,
    pub modified_at: Option<i64>,
}

/// The listing fields of a note.
#[derive(Debug, Clone)]
pub struct NoteSummary {
    pub id: String,
    pub row_id: i64,
    pub title: Option<String>,
    pub snippet: Option<String>,
    pub folder_id: Option<String>,
    pub folder_row_id: Option<i64>,
    pub folder_name: Option<String>,
    pub folder_kind: FolderKind,
    pub is_pinned: bool,
    pub has_checklist: bool,
    pub is_locked: bool,
    pub marked_for_deletion: bool,
    pub has_attachments: bool,
    pub created_at: Option<i64>,
    pub modified_at: Option<i64>,
}

/// The style of a paragraph.
#[derive(Debug, Clone, Copy, PartialEq, Eq, Structural)]
pub enum ParagraphStyleKind {
    Title,
    Heading,
    Monospace,
    BulletList,
    DashList,
    NumberedList,
    Checklist,
    Unknown(i64),
}

/// A paragraph's style, with its checklist state.
#[derive(Debug, Clone)]
pub struct ParagraphStyle {
    pub style: ParagraphStyleKind,
    pub todo_uuid: Option<String>,
    pub done: Option<bool>,
}

/// A run of text with one set of attributes.
#[derive(Debug, Clone)]
pub struct NoteRun {
    pub start: usize,
    pub length: u32,
    pub paragraph_style: Option<ParagraphStyle>,
    pub font_hints: Option<u32>,
    pub link: Option<String>,
}

/// A checklist line.
#[derive(Debug, Clone)]
pub struct ChecklistItem {
    pub id: String,
    pub text: String,
    pub done: bool,
}

/// An object embedded in a note.
#[derive(Debug, Clone)]
pub struct EmbeddedObject {
    pub attachment_identifier: Option<String>,
    pub type_uti: Option<String>,
}

/// The decoded body of a note.
#[derive(Debug, Clone)]
pub struct NoteBody {
    pub text: Option<String>,
    pub runs: Vec<NoteRun>,
    pub checklist_items: Vec<ChecklistItem>,
    pub embedded: Vec<EmbeddedObject>,
    pub decode_error: Option<String>,
}

/// Every field of a note.
#[derive(Debug, Clone)]
pub struct NoteDetail {
    pub summary: NoteSummary,
    pub body: NoteBody,
}

/// A file attached to a note.
#[derive(Debug, Clone)]
pub struct NoteAttachment {
    pub id: String,
    pub row_id: i64,
    pub filename: Option<String>,
    pub uti: Option<String>,
    pub file_size: Option<i64>,
    pub note_id: String,
    pub modified_at: Option<i64>,
    pub account_id: Option<String>,
}

} // verus!
