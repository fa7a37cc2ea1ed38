//! What a message holds, as the API shows it.

use vstd::prelude::*;

use crate::dto::attachment::AttachmentSummaryDto;

verus! {

/// Whether an opaque payload is there, and its size; never its bytes.
#[derive(Debug, Clone, Copy, PartialEq, Eq, Structural)]
pub struct OpaquePayloadDto {
    pub present: bool,
    pub size_bytes: Option<u64>,
}

/// Why the rich-text body of a message could not be read.
#[derive(Debug, Clone, Copy, PartialEq, Eq, Structural)]
pub enum AttributedBodyErrorDto {
    InvalidTypedStream,
    NotAttributedString,
    MissingText,
}

/// The text of a message.
#[derive(Debug, Clone)]
pub struct MessageBodyDto {
    pub text: Option<String>,
    pub attributed_body_error: Option<AttributedBodyErrorDto>,
}

/// A plain text message.
#[derive(Debug, Clone)]
pub struct TextContentDto {
    pub body: MessageBodyDto,
    pub is_forward: bool,
    pub is_auto_reply: bool,
}

/// An audio message.
#[derive(Debug, Clone)]
pub struct AudioContentDto {
    pub body: MessageBodyDto,
    pub attachments: Vec<AttachmentSummaryDto>,
}

/// A message with files.
#[derive(Debug, Clone)]
pub struct AttachmentContentDto {
    pub body: MessageBodyDto,
    pub attachments: Vec<AttachmentSummaryDto>,
}

/// A tapback.
#[derive(Debug, Clone, Copy, PartialEq, Eq, Structural)]
pub enum TapbackDto {
    Love,
    Like,
    Dislike,
    Laugh,
    Emphasize,
    Question,
    Unknown,
}

/// Whether a reaction was added or taken back.
#[derive(Debug, Clone, Copy, PartialEq, Eq, Structural)]
pub enum ReactionActionDto {
    Added,
    Removed,
}

/// The kind of a reaction.
#[derive(Debug, Clone, Copy, PartialEq, Eq, Structural)]
pub enum ReactionKindDto {
    Tapback { tapback: TapbackDto, action: ReactionActionDto },
    ApplePay,
    Unknown { code: i64 },
}

/// A reaction to another message.
#[derive(Debug, Clone)]
pub struct ReactionContentDto {
    pub target_guid: Option<String>,
    pub kind: ReactionKindDto,
}

/// A change to a group chat.
#[derive(Debug, Clone, Copy, PartialEq, Eq, Structural)]
pub enum GroupActionKindDto {
    ParticipantAdded,
    ParticipantRemoved,
    NameChange,
    ParticipantLeft,
    GroupIconChanged,
    GroupIconRemoved,
    ChatBackgroundChanged,
    ChatBackgroundRemoved,
    PhoneNumberChanged,
    Unknown,
}

/// A group chat event.
#[derive(Debug, Clone)]
pub struct GroupEventContentDto {
    pub action: GroupActionKindDto,
    pub title: Option<String>,
    pub actor: Option<String>,
}

/// A link preview.
#[derive(Debug, Clone)]
pub struct UrlBalloonDto {
    pub url: Option<String>,
    pub title: Option<String>,
    pub summary: Option<String>,
}

/// A shared photo collection.
#[derive(Debug, Clone)]
pub struct PhotosBalloonDto {
    pub url: Option<String>,
    pub caption: Option<String>,
}

/// One choice of a poll.
#[derive(Debug, Clone)]
pub struct PollOptionDto {
    pub text: String,
    pub option_id: String,
}

/// A poll.
#[derive(Debug, Clone)]
pub struct PollBalloonDto {
    pub title: Option<String>,
    pub options: Vec<PollOptionDto>,
}

/// What an app message holds.
#[derive(Debug, Clone)]
pub enum AppBalloonKindDto {
    Url(UrlBalloonDto),
    Photos(PhotosBalloonDto),
    Poll(PollBalloonDto),
    DigitalTouch,
    Unknown { payload: OpaquePayloadDto },
}

/// A message sent by an app.
#[derive(Debug, Clone)]
pub struct AppBalloonContentDto {
    pub bundle_id: String,
    pub text: Option<String>,
    pub kind: AppBalloonKindDto,
}

/// A SharePlay invitation.
#[derive(Debug, Clone)]
pub struct SharePlayContentDto {
    pub text: Option<String>,
    pub payload: OpaquePayloadDto,
}

/// Whether location sharing started or stopped.
#[derive(Debug, Clone, Copy, PartialEq, Eq, Structural)]
pub enum ShareMyLocationStatusDto {
    Started,
    Stopped,
}

/// A location sharing notice.
#[derive(Debug, Clone)]
pub struct ShareMyLocationContentDto {
    pub status: ShareMyLocationStatusDto,
    pub other_handle: Option<String>,
}

/// A system or service notice.
#[derive(Debug, Clone)]
pub struct SystemContentDto {
    pub is_system: bool,
    pub is_service: bool,
    pub text: Option<String>,
}

/// A message of a kind not otherwise recognised.
#[derive(Debug, Clone)]
pub struct UnknownContentDto {
    pub item_type: i64,
    pub associated_message_type: i64,
    pub text: Option<String>,
    pub attachments: Vec<AttachmentSummaryDto>,
}

/// What a message holds, tagged by its kind.
#[derive(Debug, Clone)]
pub enum MessageContentDto {
    Text(TextContentDto),
    Audio(AudioContentDto),
    Attachment(AttachmentContentDto),
    Reaction(ReactionContentDto),
    GroupEvent(GroupEventContentDto),
    AppBalloon(AppBalloonContentDto),
    SharePlay(SharePlayContentDto),
    ShareMyLocation(ShareMyLocationContentDto),
    System(SystemContentDto),
    Unknown(UnknownContentDto),
}

} // verus!
