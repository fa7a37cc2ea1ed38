//! Messages records.

use vstd::prelude::*;

verus! {

/// Whether the local user sent or received a message.
#[derive(Debug, Clone, Copy, PartialEq, Eq, Structural)]
pub enum Direction {
    Sent,
    Received,
}

/// The service a chat or message went over.
#[derive(Debug, Clone)]
pub enum Transport {
    IMessage,
    Sms,
    Rcs,
    Unknown(String),
}

/// A participant's address on a service.
#[derive(Debug, Clone)]
pub struct Handle {
    pub id: String,
    pub service: String,
}

/// A conversation.
#[derive(Debug, Clone)]
pub struct Chat {
    pub row_id: i64,
    pub guid: String,
    pub identifier: Option<String>,
    pub display_name: Option<String>,
    pub room_name: Option<String>,
    pub is_group: bool,
    pub transport: Transport,
    pub participants: Vec<Handle>,
}

/// Why the rich-text body of a message could not be read.
#[derive(Debug, Clone, Copy, PartialEq, Eq, Structural)]
pub enum AttributedBodyDecodeError {
    InvalidTypedStream,
    NotAttributedString,
    MissingText,
}

/// The text of a message.
#[derive(Debug, Clone)]
pub struct MessageBody {
    pub text: Option<String>,
    pub attributed_body_error: Option<AttributedBodyDecodeError>,
}

/// The kind of a file attached to a message.
#[derive(Debug, Clone, Copy, PartialEq, Eq, Structural)]
pub enum AttachmentKind {
    Sticker { animated: bool },
    Image,
    Video,
    Audio,
    File,
    Unknown,
}

/// A file attached to a message, with where it lies on disk.
#[derive(Debug, Clone)]
pub struct Attachment {
    pub guid: String,
    pub original_guid: String,
    pub filename: Option<String>,
    pub resolved_path: Option<String>,
    pub mime_type: Option<String>,
    pub uti: Option<String>,
    pub transfer_name: Option<String>,
    pub total_bytes: i64,
    pub kind: AttachmentKind,
    pub transfer_state: i64,
    pub transfer_complete: bool,
    pub present_on_disk: bool,
    pub hide_attachment: bool,
    pub emoji_description: Option<String>,
    pub body_reference: Option<String>,
}

/// A plain text message.
#[derive(Debug, Clone)]
pub struct TextMessage {
    pub body: MessageBody,
    pub is_forward: bool,
    pub is_auto_reply: bool,
}

/// A message that carries files: an audio message or an attachment message.
#[derive(Debug, Clone)]
pub struct FilesMessage {
    pub body: MessageBody,
    pub attachments: Vec<Attachment>,
}

/// A tapback.
#[derive(Debug, Clone, Copy, PartialEq, Eq, Structural)]
pub enum Tapback {
    Love,
    Like,
    Dislike,
    Laugh,
    Emphasize,
    Question,
    Unknown(i64),
}

/// Whether a reaction was added or taken back.
#[derive(Debug, Clone, Copy, PartialEq, Eq, Structural)]
pub enum ReactionAction {
    Added,
    Removed,
}

/// The kind of a reaction.
#[derive(Debug, Clone, Copy, PartialEq, Eq, Structural)]
pub enum ReactionKind {
    Tapback(Tapback, ReactionAction),
    ApplePay,
    Unknown(i64),
}

/// A reaction to another message.
#[derive(Debug, Clone)]
pub struct Reaction {
    pub target_guid: Option<String>,
    pub kind: ReactionKind,
}

/// A change to a group chat.
#[derive(Debug, Clone, Copy, PartialEq, Eq, Structural)]
pub enum GroupActionKind {
    ParticipantAdded,
    ParticipantRemoved,
    NameChange,
    ParticipantLeft,
    GroupIconChanged,
    GroupIconRemoved,
    ChatBackgroundChanged,
    ChatBackgroundRemoved,
    PhoneNumberChanged,
    Unknown { code: i64 },
}

/// A group chat event.
#[derive(Debug, Clone)]
pub struct GroupEvent {
    pub action: GroupActionKind,
    pub title: Option<String>,
    pub actor: Option<String>,
}

/// A link preview.
#[derive(Debug, Clone)]
pub struct UrlBalloon {
    pub url: Option<String>,
    pub title: Option<String>,
    pub summary: Option<String>,
}

/// A shared photo collection.
#[derive(Debug, Clone)]
pub struct PhotosBalloon {
    pub url: Option<String>,
    pub caption: Option<String>,
}

/// One choice of a poll.
#[derive(Debug, Clone)]
pub struct PollOption {
    pub text: String,
    pub option_id: String,
}

/// A poll.
#[derive(Debug, Clone)]
pub struct PollBalloon {
    pub title: Option<String>,
    pub options: Vec<PollOption>,
}

/// What an app message holds.
#[derive(Debug, Clone)]
pub enum AppBalloonKind {
    Url(UrlBalloon),
    Photos(PhotosBalloon),
    Poll(PollBalloon),
    DigitalTouch,
    Unknown { payload_data: Option<Vec<u8>> },
}

/// A message sent by an app.
#[derive(Debug, Clone)]
pub struct AppBalloon {
    pub bundle_id: String,
    pub text: Option<String>,
    pub kind: AppBalloonKind,
}

/// A SharePlay invitation.
#[derive(Debug, Clone)]
pub struct SharePlayMessage {
    pub text: Option<String>,
    pub payload_data: Option<Vec<u8>>,
}

/// Whether location sharing started or stopped.
#[derive(Debug, Clone, Copy, PartialEq, Eq, Structural)]
pub enum ShareMyLocationStatus {
    Started,
    Stopped,
}

/// A location sharing notice.
#[derive(Debug, Clone)]
pub struct ShareMyLocationMessage {
    pub status: ShareMyLocationStatus,
    pub other_handle: Option<String>,
}

/// A system or service notice.
#[derive(Debug, Clone)]
pub struct SystemMessage {
    pub is_system: bool,
    pub is_service: bool,
    pub text: Option<String>,
}

/// A message of a kind not otherwise recognised.
#[derive(Debug, Clone)]
pub struct UnknownMessage {
    pub item_type: i64,
    pub associated_message_type: i64,
    pub text: Option<String>,
    pub attachments: Vec<Attachment>,
}

/// What a message holds.
#[derive(Debug, Clone)]
pub enum MessageContent {
    Text(TextMessage),
    Audio(FilesMessage),
    Attachment(FilesMessage),
    Reaction(Reaction),
    GroupEvent(GroupEvent),
    AppBalloon(AppBalloon),
    SharePlay(SharePlayMessage),
    ShareMyLocation(ShareMyLocationMessage),
    System(SystemMessage),
    Unknown(UnknownMessage),
}

/// Who sent a message, when, and where it belongs.
#[derive(Debug, Clone)]
pub struct Envelope {
    pub guid: String,
    pub direction: Direction,
    pub transport: Transport,
    pub sent_at: Option<i64>,
    pub read_at: Option<i64>,
    pub edited_at: Option<i64>,
    pub retracted_at: Option<i64>,
    pub sender: Option<Handle>,
    pub reply_to_guid: Option<String>,
    pub thread_originator_guid: Option<String>,
    pub chat_ids: Vec<i64>,
}

/// A message.
#[derive(Debug, Clone)]
pub struct Message {
    pub envelope: Envelope,
    pub content: MessageContent,
}

} // verus!
