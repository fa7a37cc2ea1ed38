//! Notes responses.

use vstd::prelude::*;

use crate::dto::pagination::PageMetaDto;

verus! {

/// The kind of a notes folder.
#[derive(Debug, Clone, Copy, PartialEq, Eq, Structural)]
pub enum FolderKindDto {
    Standard,
    Smart,
    Deleted,
}

/// A notes folder as the listing shows it.
#[derive(Debug, Clone)]
pub struct NoteFolderSummaryDto {
    pub id: String,
    pub row_id: i64,
    pub title: String,
    pub kind: FolderKindDto,
    pub parent_id: Option<String>,
    pub modified_at: Option<i64>,
}

/// Every field of a notes folder.
#[derive(Debug, Clone)]
pub struct NoteFolderDetailDto {
    pub id: String,
    pub row_id: i64,
    pub title: String,
    pub kind: FolderKindDto,
    pub parent_id: Option<String>,
    pub parent_row_id: Option<i64>,
    pub account_id: Option<String>,
    pub modified_at: Option<i64>,
}

/// One page of notes folders.
#[derive(Debug, Clone)]
pub struct NoteFolderPageDto {
    pub items: Vec<NoteFolderSummaryDto>,
    pub page: PageMetaDto,
}

/// A note as the listing shows it.
#[derive(Debug, Clone)]
pub struct NoteSummaryDto {
    pub id: String,
    pub row_id: i64,
    pub title: String,
    pub snippet: Option<String>,
    pub folder_id: Option<String>,
    pub folder_row_id: Option<i64>,
    pub folder_name: Option<String>,
    pub folder_kind: FolderKindDto,
    pub is_pinned: bool,
    pub has_checklist: bool,
    pub is_locked: bool,
    pub marked_for_deletion: bool,
    pub has_attachments: bool,
    pub created_at: Option<i64>,
    pub modified_at: Option<i64>,
}

/// The style of a paragraph.
#[derive(Debug, Clone, Copy, PartialEq, Eq, Structural)]
pub enum ParagraphStyleKindDto {
    Title,
    Heading,
    Monospace,
    BulletList,
    DashList,
    NumberedList,
    Checklist,
    Unknown,
}

/// A paragraph's style, with its checklist state.
#[derive(Debug, Clone)]
pub struct ParagraphStyleDto {
    pub style: ParagraphStyleKindDto,
    pub todo_uuid: Option<String>,
    pub done: Option<bool>,
}

/// A run of text with one set of attributes.
#[derive(Debug, Clone)]
pub struct NoteRunDto {
    pub start: usize,
    pub length: u32,
    pub paragraph_style: Option<ParagraphStyleDto>,
    pub font_hints: Option<u32>,
    pub link: Option<String>,
}

/// A checklist line.
#[derive(Debug, Clone)]
pub struct ChecklistItemDto {
    pub id: String,
    pub text: String,
    pub done: bool,
}

/// An object embedded in a note.
#[derive(Debug, Clone)]
pub struct EmbeddedObjectDto {
    pub attachment_identifier: Option<String>,
    pub type_uti: Option<String>,
}

/// The decoded body of a note.
#[derive(Debug, Clone)]
pub struct NoteBodyDto {
    pub text: Option<String>,
    pub runs: Vec<NoteRunDto>,
    pub checklist_items: Vec<ChecklistItemDto>,
    pub embedded: Vec<EmbeddedObjectDto>,
    pub decode_error: Option<String>,
}

/// A file attached to a note, as the note lists it.
#[derive(Debug, Clone)]
pub struct NoteAttachmentSummaryDto {
    pub id: String,
    pub row_id: i64,
    pub filename: Option<String>,
    pub uti: Option<String>,
    pub file_size: Option<i64>,
}

/// Every field of a note.
#[derive(Debug, Clone)]
pub struct NoteDetailDto {
    pub id: String,
    pub row_id: i64,
    pub title: String,
    pub snippet: Option<String>,
    pub folder_id: Option<String>,
    pub folder_row_id: Option<i64>,
    pub folder_name: Option<String>,
    pub folder_kind: FolderKindDto,
    pub is_pinned: bool,
    pub has_checklist: bool,
    pub is_locked: bool,
    pub marked_for_deletion: bool,
    pub has_attachments: bool,
    pub created_at: Option<i64>,
    pub modified_at: Option<i64>,
    pub body: NoteBodyDto,
    pub attachments: Vec<NoteAttachmentSummaryDto>,
}

/// One page of notes.
#[derive(Debug, Clone)]
pub struct NotePageDto {
    pub items: Vec<NoteSummaryDto>,
    pub page: PageMetaDto,
}

/// Every field of a note attachment.
#[derive(Debug, Clone)]
pub struct NoteAttachmentDetailDto {
    pub id: String,
    pub row_id: i64,
    pub filename: Option<String>,
    pub uti: Option<String>,
    pub file_size: Option<i64>,
    pub note_id: String,
    pub modified_at: Option<i64>,
}

/// The folder named in a note's Markdown front matter.
#[derive(Debug, Clone)]
pub struct NoteContentsFolderDto {
    pub id: String,
    pub name: Option<String>,
    pub kind: FolderKindDto,
}

/// The front matter of a note's Markdown export.
#[derive(Debug, Clone)]
pub struct NoteContentsPreambleDto {
    pub schema_version: u32,
    pub id: String,
    pub title: String,
    pub folder: Option<NoteContentsFolderDto>,
    pub tags: Vec<String>,
    pub created_at: Option<i64>,
    pub modified_at: Option<i64>,
    pub is_pinned: bool,
    pub has_checklist: bool,
    pub is_locked: bool,
    pub marked_for_deletion: bool,
    pub has_attachments: bool,
}

} // verus!
