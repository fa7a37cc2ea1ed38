//! Notes records as the API shows them. A note or folder without a title is called
//! "Untitled".

use vstd::prelude::*;

use crate::dto::note::{
    ChecklistItemDto, EmbeddedObjectDto, FolderKindDto, NoteAttachmentDetailDto,
    NoteAttachmentSummaryDto, NoteBodyDto, NoteDetailDto, NoteFolderDetailDto, NoteFolderPageDto,
    NoteFolderSummaryDto, NotePageDto, NoteRunDto, NoteSummaryDto, ParagraphStyleDto,
    ParagraphStyleKindDto,
};
use crate::dto::pagination::PageMetaDto;
use crate::model::notes::{
    ChecklistItem, EmbeddedObject, FolderKind, NoteAttachment, NoteBody, NoteDetail, NoteFolder,
    NoteRun, NoteSummary, ParagraphStyle, ParagraphStyleKind,
};
use crate::seqmap::{map_vec, map_vec_rel, pairwise};
use crate::text::clone_opt;

verus! {

broadcast use vstd::string::group_string_axioms;

/// The title shown for a possibly untitled note or folder.
pub open spec fn display_title_of(title: Option<String>) -> Seq<char> {
    match title {
        Some(t) => t@,
        None => "Untitled"@,
    }
}

/// The title shown for a possibly untitled note or folder.
pub fn display_title(title: &Option<String>) -> (shown: String)
    ensures
        shown@ == display_title_of(*title),
{
    match title {
        Some(t) => t.clone(),
        None => String::from_str("Untitled"),
    }
}

pub open spec fn folder_kind_dto_of(kind: FolderKind) -> FolderKindDto {
    match kind {
        FolderKind::Standard => FolderKindDto::Standard,
        FolderKind::Smart => FolderKindDto::Smart,
        FolderKind::Deleted => FolderKindDto::Deleted,
    }
}

fn folder_kind_to_dto(kind: &FolderKind) -> (dto: FolderKindDto)
    ensures
        dto == folder_kind_dto_of(*kind),
{
    match kind {
        FolderKind::Standard => FolderKindDto::Standard,
        FolderKind::Smart => FolderKindDto::Smart,
        FolderKind::Deleted => FolderKindDto::Deleted,
    }
}

/// A folder as the listing shows it.
pub open spec fn folder_summary_matches(f: NoteFolder, dto: NoteFolderSummaryDto) -> bool {
    &&& dto.id == f.id
    &&& dto.row_id == f.row_id
    &&& dto.title@ == display_title_of(f.title)
    &&& dto.kind == folder_kind_dto_of(f.kind)
    &&& dto.parent_id == f.parent_id
    &&& dto.modified_at == f.modified_at
}

/// A folder as the listing shows it.
pub fn note_folder_summary_to_dto(folder: &NoteFolder) -> (dto: NoteFolderSummaryDto)
    ensures
        folder_summary_matches(*folder, dto),
{
    NoteFolderSummaryDto {
        id: folder.id.clone(),
        row_id: folder.row_id,
        title: display_title(&folder.title),
        kind: folder_kind_to_dto(&folder.kind),
        parent_id: clone_opt(&folder.parent_id),
        modified_at: folder.modified_at,
    }
}

/// Every field of a folder.
pub open spec fn folder_detail_matches(f: NoteFolder, dto: NoteFolderDetailDto) -> bool {
    &&& dto.id == f.id
    &&& dto.row_id == f.row_id
    &&& dto.title@ == display_title_of(f.title)
    &&& dto.kind == folder_kind_dto_of(f.kind)
    &&& dto.parent_id == f.parent_id
    &&& dto.parent_row_id == f.parent_row_id
    &&& dto.account_id == f.account_id
    &&& dto.modified_at == f.modified_at
}

/// Every field of a folder.
pub fn note_folder_detail_to_dto(folder: &NoteFolder) -> (dto: NoteFolderDetailDto)
    ensures
        folder_detail_matches(*folder, dto),
{
    NoteFolderDetailDto {
        id: folder.id.clone(),
        row_id: folder.row_id,
        title: display_title(&folder.title),
        kind: folder_kind_to_dto(&folder.kind),
        parent_id: clone_opt(&folder.parent_id),
        parent_row_id: folder.parent_row_id,
        account_id: clone_opt(&folder.account_id),
        modified_at: folder.modified_at,
    }
}

/// One page of folders.
pub fn note_folder_page_to_dto(
    items: Vec<NoteFolder>,
    has_more: bool,
    next_cursor: Option<String>,
    limit: u32,
) -> (dto: NoteFolderPageDto)
    ensures
        pairwise(
            items@,
            dto.items@,
            |f: NoteFolder, d: NoteFolderSummaryDto| folder_summary_matches(f, d),
        ),
        dto.page == (PageMetaDto { limit, has_more, next_cursor }),
{
    let converted = map_vec_rel(
        &items,
        note_folder_summary_to_dto,
        Ghost(|f: NoteFolder, d: NoteFolderSummaryDto| folder_summary_matches(f, d)),
    );
    NoteFolderPageDto { items: converted, page: PageMetaDto { limit, has_more, next_cursor } }
}

/// A note as the listing shows it.
pub open spec fn note_summary_matches(n: NoteSummary, dto: NoteSummaryDto) -> bool {
    &&& dto.id == n.id
    &&& dto.row_id == n.row_id
    &&& dto.title@ == display_title_of(n.title)
    &&& dto.snippet == n.snippet
    &&& dto.folder_id == n.folder_id
    &&& dto.folder_row_id == n.folder_row_id
    &&& dto.folder_name == n.folder_name
    &&& dto.folder_kind == folder_kind_dto_of(n.folder_kind)
    &&& dto.is_pinned == n.is_pinned
    &&& dto.has_checklist == n.has_checklist
    &&& dto.is_locked == n.is_locked
    &&& dto.marked_for_deletion == n.marked_for_deletion
    &&& dto.has_attachments == n.has_attachments
    &&& dto.created_at == n.created_at
    &&& dto.modified_at == n.modified_at
}

/// A note as the listing shows it.
pub fn note_summary_to_dto(note: &NoteSummary) -> (dto: NoteSummaryDto)
    ensures
        note_summary_matches(*note, dto),
{
    NoteSummaryDto {
        id: note.id.clone(),
        row_id: note.row_id,
        title: display_title(&note.title),
        snippet: clone_opt(&note.snippet),
        folder_id: clone_opt(&note.folder_id),
        folder_row_id: note.folder_row_id,
        folder_name: clone_opt(&note.folder_name),
        folder_kind: folder_kind_to_dto(&note.folder_kind),
        is_pinned: note.is_pinned,
        has_checklist: note.has_checklist,
        is_locked: note.is_locked,
        marked_for_deletion: note.marked_for_deletion,
        has_attachments: note.has_attachments,
        created_at: note.created_at,
        modified_at: note.modified_at,
    }
}

/// One page of notes.
pub fn note_page_to_dto(
    items: Vec<NoteSummary>,
    has_more: bool,
    next_cursor: Option<String>,
    limit: u32,
) -> (dto: NotePageDto)
    ensures
        pairwise(items@, dto.items@, |n: NoteSummary, d: NoteSummaryDto| note_summary_matches(n, d)),
        dto.page == (PageMetaDto { limit, has_more, next_cursor }),
{
    let converted = map_vec_rel(
        &items,
        note_summary_to_dto,
        Ghost(|n: NoteSummary, d: NoteSummaryDto| note_summary_matches(n, d)),
    );
    NotePageDto { items: converted, page: PageMetaDto { limit, has_more, next_cursor } }
}

pub open spec fn paragraph_kind_dto_of(kind: ParagraphStyleKind) -> ParagraphStyleKindDto {
    match kind {
        ParagraphStyleKind::Title => ParagraphStyleKindDto::Title,
        ParagraphStyleKind::Heading => ParagraphStyleKindDto::Heading,
        ParagraphStyleKind::Monospace => ParagraphStyleKindDto::Monospace,
        ParagraphStyleKind::BulletList => ParagraphStyleKindDto::BulletList,
        ParagraphStyleKind::DashList => ParagraphStyleKindDto::DashList,
        ParagraphStyleKind::NumberedList => ParagraphStyleKindDto::NumberedList,
        ParagraphStyleKind::Checklist => ParagraphStyleKindDto::Checklist,
        ParagraphStyleKind::Unknown(_) => ParagraphStyleKindDto::Unknown,
    }
}

fn paragraph_style_kind_to_dto(kind: &ParagraphStyleKind) -> (dto: ParagraphStyleKindDto)
    ensures
        dto == paragraph_kind_dto_of(*kind),
{
    match kind {
        ParagraphStyleKind::Title => ParagraphStyleKindDto::Title,
        ParagraphStyleKind::Heading => ParagraphStyleKindDto::Heading,
        ParagraphStyleKind::Monospace => ParagraphStyleKindDto::Monospace,
        ParagraphStyleKind::BulletList => ParagraphStyleKindDto::BulletList,
        ParagraphStyleKind::DashList => ParagraphStyleKindDto::DashList,
        ParagraphStyleKind::NumberedList => ParagraphStyleKindDto::NumberedList,
        ParagraphStyleKind::Checklist => ParagraphStyleKindDto::Checklist,
        ParagraphStyleKind::Unknown(_) => ParagraphStyleKindDto::Unknown,
    }
}

pub open spec fn paragraph_style_dto_of(s: ParagraphStyle) -> ParagraphStyleDto {
    ParagraphStyleDto { style: paragraph_kind_dto_of(s.style), todo_uuid: s.todo_uuid, done: s.done }
}

fn paragraph_style_to_dto(style: &ParagraphStyle) -> (dto: ParagraphStyleDto)
    ensures
        dto == paragraph_style_dto_of(*style),
{
    ParagraphStyleDto {
        style: paragraph_style_kind_to_dto(&style.style),
        todo_uuid: clone_opt(&style.todo_uuid),
        done: style.done,
    }
}

pub open spec fn run_dto_of(r: NoteRun) -> NoteRunDto {
    NoteRunDto {
        start: r.start,
        length: r.length,
        paragraph_style: match r.paragraph_style {
            Some(s) => Some(paragraph_style_dto_of(s)),
            None => None,
        },
        font_hints: r.font_hints,
        link: r.link,
    }
}

fn note_run_to_dto(run: &NoteRun) -> (dto: NoteRunDto)
    ensures
        dto == run_dto_of(*run),
{
    NoteRunDto {
        start: run.start,
        length: run.length,
        paragraph_style: match &run.paragraph_style {
            Some(s) => Some(paragraph_style_to_dto(s)),
            None => None,
        },
        font_hints: run.font_hints,
        link: clone_opt(&run.link),
    }
}

pub open spec fn checklist_item_dto_of(item: ChecklistItem) -> ChecklistItemDto {
    ChecklistItemDto { id: item.id, text: item.text, done: item.done }
}

fn checklist_item_to_dto(item: &ChecklistItem) -> (dto: ChecklistItemDto)
    ensures
        dto == checklist_item_dto_of(*item),
{
    ChecklistItemDto { id: item.id.clone(), text: item.text.clone(), done: item.done }
}

pub open spec fn embedded_dto_of(object: EmbeddedObject) -> EmbeddedObjectDto {
    EmbeddedObjectDto {
        attachment_identifier: object.attachment_identifier,
        type_uti: object.type_uti,
    }
}

fn embedded_object_to_dto(object: &EmbeddedObject) -> (dto: EmbeddedObjectDto)
    ensures
        dto == embedded_dto_of(*object),
{
    EmbeddedObjectDto {
        attachment_identifier: clone_opt(&object.attachment_identifier),
        type_uti: clone_opt(&object.type_uti),
    }
}

/// The body of a note as the API shows it.
pub open spec fn body_matches(b: NoteBody, dto: NoteBodyDto) -> bool {
    &&& dto.text == b.text
    &&& dto.runs@ == b.runs@.map_values(|r: NoteRun| run_dto_of(r))
    &&& dto.checklist_items@ == b.checklist_items@.map_values(
        |i: ChecklistItem| checklist_item_dto_of(i),
    )
    &&& dto.embedded@ == b.embedded@.map_values(|o: EmbeddedObject| embedded_dto_of(o))
    &&& dto.decode_error == b.decode_error
}

fn note_body_to_dto(body: &NoteBody) -> (dto: NoteBodyDto)
    ensures
        body_matches(*body, dto),
{
    let runs = map_vec(&body.runs, note_run_to_dto, Ghost(|r: NoteRun| run_dto_of(r)));
    let checklist_items = map_vec(
        &body.checklist_items,
        checklist_item_to_dto,
        Ghost(|i: ChecklistItem| checklist_item_dto_of(i)),
    );
    let embedded = map_vec(
        &body.embedded,
        embedded_object_to_dto,
        Ghost(|o: EmbeddedObject| embedded_dto_of(o)),
    );
    proof {
        assert(runs@ =~= body.runs@.map_values(|r: NoteRun| run_dto_of(r)));
        assert(checklist_items@ =~= body.checklist_items@.map_values(
            |i: ChecklistItem| checklist_item_dto_of(i),
        ));
        assert(embedded@ =~= body.embedded@.map_values(|o: EmbeddedObject| embedded_dto_of(o)));
    }
    NoteBodyDto {
        text: clone_opt(&body.text),
        runs,
        checklist_items,
        embedded,
        decode_error: clone_opt(&body.decode_error),
    }
}

pub open spec fn note_attachment_summary_dto_of(a: NoteAttachment) -> NoteAttachmentSummaryDto {
    NoteAttachmentSummaryDto {
        id: a.id,
        row_id: a.row_id,
        filename: a.filename,
        uti: a.uti,
        file_size: a.file_size,
    }
}

fn note_attachment_summary_to_dto(attachment: &NoteAttachment) -> (dto: NoteAttachmentSummaryDto)
    ensures
        dto == note_attachment_summary_dto_of(*attachment),
{
    NoteAttachmentSummaryDto {
        id: attachment.id.clone(),
        row_id: attachment.row_id,
        filename: clone_opt(&attachment.filename),
        uti: clone_opt(&attachment.uti),
        file_size: attachment.file_size,
    }
}

/// Every field of a note, with the attachments it lists.
pub open spec fn note_detail_matches(
    n: NoteDetail,
    attachments: Seq<NoteAttachment>,
    dto: NoteDetailDto,
) -> bool {
    let s = n.summary;
    &&& dto.id == s.id
    &&& dto.row_id == s.row_id
    &&& dto.title@ == display_title_of(s.title)
    &&& dto.snippet == s.snippet
    &&& dto.folder_id == s.folder_id
    &&& dto.folder_row_id == s.folder_row_id
    &&& dto.folder_name == s.folder_name
    &&& dto.folder_kind == folder_kind_dto_of(s.folder_kind)
    &&& dto.is_pinned == s.is_pinned
    &&& dto.has_checklist == s.has_checklist
    &&& dto.is_locked == s.is_locked
    &&& dto.marked_for_deletion == s.marked_for_deletion
    &&& dto.has_attachments == s.has_attachments
    &&& dto.created_at == s.created_at
    &&& dto.modified_at == s.modified_at
    &&& body_matches(n.body, dto.body)
    &&& dto.attachments@ == attachments.map_values(
        |a: NoteAttachment| note_attachment_summary_dto_of(a),
    )
}

/// Every field of a note, with the attachments it lists.
pub fn note_detail_to_dto(note: &NoteDetail, attachments: &Vec<NoteAttachment>) -> (dto: NoteDetailDto)
    ensures
        note_detail_matches(*note, attachments@, dto),
{
    let summary = &note.summary;
    let listed = map_vec(
        attachments,
        note_attachment_summary_to_dto,
        Ghost(|a: NoteAttachment| note_attachment_summary_dto_of(a)),
    );
    proof {
        assert(listed@ =~= attachments@.map_values(
            |a: NoteAttachment| note_attachment_summary_dto_of(a),
        ));
    }
    NoteDetailDto {
        id: summary.id.clone(),
        row_id: summary.row_id,
        title: display_title(&summary.title),
        snippet: clone_opt(&summary.snippet),
        folder_id: clone_opt(&summary.folder_id),
        folder_row_id: summary.folder_row_id,
        folder_name: clone_opt(&summary.folder_name),
        folder_kind: folder_kind_to_dto(&summary.folder_kind),
        is_pinned: summary.is_pinned,
        has_checklist: summary.has_checklist,
        is_locked: summary.is_locked,
        marked_for_deletion: summary.marked_for_deletion,
        has_attachments: summary.has_attachments,
        created_at: summary.created_at,
        modified_at: summary.modified_at,
        body: note_body_to_dto(&note.body),
        attachments: listed,
    }
}

/// Every field of a note attachment.
pub fn note_attachment_detail_to_dto(attachment: &NoteAttachment) -> (dto: NoteAttachmentDetailDto)
    ensures
        dto == (NoteAttachmentDetailDto {
            id: attachment.id,
            row_id: attachment.row_id,
            filename: attachment.filename,
            uti: attachment.uti,
            file_size: attachment.file_size,
            note_id: attachment.note_id,
            modified_at: attachment.modified_at,
        }),
{
    NoteAttachmentDetailDto {
        id: attachment.id.clone(),
        row_id: attachment.row_id,
        filename: clone_opt(&attachment.filename),
        uti: clone_opt(&attachment.uti),
        file_size: attachment.file_size,
        note_id: attachment.note_id.clone(),
        modified_at: attachment.modified_at,
    }
}

/// Each FolderKind value is shown under its own name, and distinct values stay distinct.
pub proof fn law_folder_kind_dto_of_keeps_names(x: FolderKind, y: FolderKind)
    ensures
        x == FolderKind::Standard ==> folder_kind_dto_of(x) == FolderKindDto::Standard,
        x == FolderKind::Smart ==> folder_kind_dto_of(x) == FolderKindDto::Smart,
        x == FolderKind::Deleted ==> folder_kind_dto_of(x) == FolderKindDto::Deleted,
        x != y ==> folder_kind_dto_of(x) != folder_kind_dto_of(y),
{
}

/// Each ParagraphStyleKind value is shown under its own name.
pub proof fn law_paragraph_kind_dto_of_keeps_names(x: ParagraphStyleKind)
    ensures
        x == ParagraphStyleKind::Title ==> paragraph_kind_dto_of(x) == ParagraphStyleKindDto::Title,
        x == ParagraphStyleKind::Heading ==> paragraph_kind_dto_of(x) == ParagraphStyleKindDto::Heading,
        x == ParagraphStyleKind::Monospace ==> paragraph_kind_dto_of(x) == ParagraphStyleKindDto::Monospace,
        x == ParagraphStyleKind::BulletList ==> paragraph_kind_dto_of(x) == ParagraphStyleKindDto::BulletList,
        x == ParagraphStyleKind::DashList ==> paragraph_kind_dto_of(x) == ParagraphStyleKindDto::DashList,
        x == ParagraphStyleKind::NumberedList ==> paragraph_kind_dto_of(x) == ParagraphStyleKindDto::NumberedList,
        x == ParagraphStyleKind::Checklist ==> paragraph_kind_dto_of(x) == ParagraphStyleKindDto::Checklist,
        x is Unknown ==> paragraph_kind_dto_of(x) == ParagraphStyleKindDto::Unknown,
{
}

} // verus!
