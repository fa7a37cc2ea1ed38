//! Message attachment responses. They name no local path.

use vstd::prelude::*;

verus! {

/// The kind of an attached file.
#[derive(Debug, Clone, Copy, PartialEq, Eq, Structural)]
pub enum AttachmentKindDto {
    Sticker { animated: bool },
    Image,
    Video,
    Audio,
    File,
    Unknown,
}

/// An attachment as a message lists it.
#[derive(Debug, Clone)]
pub struct AttachmentSummaryDto {
    pub guid: String,
    pub original_guid: String,
    pub mime_type: Option<String>,
    pub uti: Option<String>,
    pub transfer_name: Option<String>,
    pub total_bytes: i64,
    pub kind: AttachmentKindDto,
    pub transfer_complete: bool,
    pub present_on_disk: bool,
    pub hide_attachment: bool,
    pub metadata_url: String,
    pub content_url: String,
}

/// Every field of an attachment.
#[derive(Debug, Clone)]
pub struct AttachmentDetailDto {
    pub guid: String,
    pub original_guid: String,
    pub mime_type: Option<String>,
    pub uti: Option<String>,
    pub transfer_name: Option<String>,
    pub total_bytes: i64,
    pub kind: AttachmentKindDto,
    pub transfer_complete: bool,
    pub present_on_disk: bool,
    pub hide_attachment: bool,
    pub emoji_description: Option<String>,
    pub metadata_url: String,
    pub content_url: String,
}

} // verus!
