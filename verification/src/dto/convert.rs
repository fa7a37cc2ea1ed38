//! Messages records as the API shows them. Attachments name no local path: a client reaches
//! a file only through its metadata and content URLs.

use vstd::prelude::*;

use crate::dto::attachment::{AttachmentDetailDto, AttachmentKindDto, AttachmentSummaryDto};
use crate::dto::chat::{ChatDetailDto, ChatPageDto, ChatSummaryDto};
use crate::dto::common::{
    DirectionDto, TransportDto,
    direction_dto_of, direction_to_dto, handle_dto_of, handle_to_dto, opt_handle_dto_of,
    opt_handle_to_dto, transport_dto_of, transport_to_dto,
};
use crate::dto::content::{
    AppBalloonContentDto, AppBalloonKindDto, AttachmentContentDto, AttributedBodyErrorDto,
    AudioContentDto, GroupActionKindDto, GroupEventContentDto, MessageBodyDto, MessageContentDto,
    OpaquePayloadDto, PhotosBalloonDto, PollBalloonDto, PollOptionDto, ReactionActionDto,
    ReactionContentDto, ReactionKindDto, ShareMyLocationContentDto, ShareMyLocationStatusDto,
    SharePlayContentDto, SystemContentDto, TapbackDto, TextContentDto, UnknownContentDto,
    UrlBalloonDto,
};
use crate::dto::message::{MessageDetailDto, MessagePageDto, MessageSummaryDto};
use crate::dto::pagination::PageMetaDto;
use crate::model::messages::{
    AppBalloon, AppBalloonKind, Attachment, AttachmentKind, AttributedBodyDecodeError, Chat,
    Direction,
    GroupActionKind, GroupEvent, Handle, Message, MessageBody, MessageContent, PollOption,
    Reaction, ReactionAction, ReactionKind, ShareMyLocationMessage, ShareMyLocationStatus,
    SharePlayMessage, SystemMessage, Tapback, TextMessage, UnknownMessage,
};
use crate::model::page::Page;
use crate::seqmap::{map_vec, map_vec_rel, pairwise};
use crate::text::clone_opt;

verus! {

broadcast use vstd::string::group_string_axioms;

// ---------------------------------------------------------------------------------------------
// Chats
// ---------------------------------------------------------------------------------------------

/// A chat as the listing shows it.
pub open spec fn chat_summary_matches(chat: Chat, dto: ChatSummaryDto) -> bool {
    &&& dto.id == chat.row_id
    &&& dto.guid == chat.guid
    &&& dto.display_name == chat.display_name
    &&& dto.is_group == chat.is_group
    &&& dto.transport == transport_dto_of(chat.transport)
    &&& dto.participant_count == chat.participants@.len() as u32
}

/// A chat as the listing shows it; the participant count wraps as a `u32`.
pub fn chat_summary_to_dto(chat: &Chat) -> (dto: ChatSummaryDto)
    ensures
        chat_summary_matches(*chat, dto),
{
    ChatSummaryDto {
        id: chat.row_id,
        guid: chat.guid.clone(),
        display_name: clone_opt(&chat.display_name),
        is_group: chat.is_group,
        transport: transport_to_dto(&chat.transport),
        participant_count: chat.participants.len() as u32,
    }
}

/// Every field of a chat.
pub open spec fn chat_detail_matches(chat: Chat, dto: ChatDetailDto) -> bool {
    &&& dto.id == chat.row_id
    &&& dto.guid == chat.guid
    &&& dto.identifier == chat.identifier
    &&& dto.display_name == chat.display_name
    &&& dto.room_name == chat.room_name
    &&& dto.is_group == chat.is_group
    &&& dto.transport == transport_dto_of(chat.transport)
    &&& dto.participants@ == chat.participants@.map_values(|h: Handle| handle_dto_of(h))
}

/// Every field of a chat.
pub fn chat_detail_to_dto(chat: &Chat) -> (dto: ChatDetailDto)
    ensures
        chat_detail_matches(*chat, dto),
{
    let participants = map_vec(&chat.participants, handle_to_dto, Ghost(|h: Handle| handle_dto_of(h)));
    proof {
        assert(participants@ =~= chat.participants@.map_values(|h: Handle| handle_dto_of(h)));
    }
    ChatDetailDto {
        id: chat.row_id,
        guid: chat.guid.clone(),
        identifier: clone_opt(&chat.identifier),
        display_name: clone_opt(&chat.display_name),
        room_name: clone_opt(&chat.room_name),
        is_group: chat.is_group,
        transport: transport_to_dto(&chat.transport),
        participants,
    }
}

/// One page of chats.
pub fn chat_page_to_dto(page: Page<Chat>, limit: u32) -> (dto: ChatPageDto)
    ensures
        pairwise(page.items@, dto.items@, |c: Chat, d: ChatSummaryDto| chat_summary_matches(c, d)),
        dto.page == (PageMetaDto { limit, has_more: page.has_more, next_cursor: page.next_cursor }),
{
    let items = map_vec_rel(
        &page.items,
        chat_summary_to_dto,
        Ghost(|c: Chat, d: ChatSummaryDto| chat_summary_matches(c, d)),
    );
    ChatPageDto {
        items,
        page: PageMetaDto { limit, has_more: page.has_more, next_cursor: page.next_cursor },
    }
}

// ---------------------------------------------------------------------------------------------
// Attachments
// ---------------------------------------------------------------------------------------------

/// The path of an attachment's metadata.
pub open spec fn metadata_url_of(guid: Seq<char>) -> Seq<char> {
    "/v1/attachments/"@ + guid
}

/// The path of an attachment's bytes.
pub open spec fn content_url_of(guid: Seq<char>) -> Seq<char> {
    "/v1/attachments/"@ + guid + "/content"@
}

/// The path of an attachment's metadata: `/v1/attachments/{guid}`.
pub fn attachment_metadata_url(guid: &str) -> (url: String)
    ensures
        url@ == metadata_url_of(guid@),
{
    let mut url = String::from_str("/v1/attachments/");
    url.append(guid);
    url
}

/// The path of an attachment's bytes: `/v1/attachments/{guid}/content`.
pub fn attachment_content_url(guid: &str) -> (url: String)
    ensures
        url@ == content_url_of(guid@),
{
    let mut url = String::from_str("/v1/attachments/");
    url.append(guid);
    url.append("/content");
    url
}

pub open spec fn attachment_kind_dto_of(kind: AttachmentKind) -> AttachmentKindDto {
    match kind {
        AttachmentKind::Sticker { animated } => AttachmentKindDto::Sticker { animated },
        AttachmentKind::Image => AttachmentKindDto::Image,
        AttachmentKind::Video => AttachmentKindDto::Video,
        AttachmentKind::Audio => AttachmentKindDto::Audio,
        AttachmentKind::File => AttachmentKindDto::File,
        AttachmentKind::Unknown => AttachmentKindDto::Unknown,
    }
}

fn attachment_kind_to_dto(kind: &AttachmentKind) -> (dto: AttachmentKindDto)
    ensures
        dto == attachment_kind_dto_of(*kind),
{
    match kind {
        AttachmentKind::Sticker { animated } => AttachmentKindDto::Sticker { animated: *animated },
        AttachmentKind::Image => AttachmentKindDto::Image,
        AttachmentKind::Video => AttachmentKindDto::Video,
        AttachmentKind::Audio => AttachmentKindDto::Audio,
        AttachmentKind::File => AttachmentKindDto::File,
        AttachmentKind::Unknown => AttachmentKindDto::Unknown,
    }
}

/// An attachment as a message lists it.
pub open spec fn attachment_summary_matches(a: Attachment, dto: AttachmentSummaryDto) -> bool {
    &&& dto.guid == a.guid
    &&& dto.original_guid == a.original_guid
    &&& dto.mime_type == a.mime_type
    &&& dto.uti == a.uti
    &&& dto.transfer_name == a.transfer_name
    &&& dto.total_bytes == a.total_bytes
    &&& dto.kind == attachment_kind_dto_of(a.kind)
    &&& dto.transfer_complete == a.transfer_complete
    &&& dto.present_on_disk == a.present_on_disk
    &&& dto.hide_attachment == a.hide_attachment
    &&& dto.metadata_url@ == metadata_url_of(a.guid@)
    &&& dto.content_url@ == content_url_of(a.guid@)
}

/// An attachment as a message lists it.
pub fn attachment_summary_to_dto(attachment: &Attachment) -> (dto: AttachmentSummaryDto)
    ensures
        attachment_summary_matches(*attachment, dto),
{
    AttachmentSummaryDto {
        guid: attachment.guid.clone(),
        original_guid: attachment.original_guid.clone(),
        mime_type: clone_opt(&attachment.mime_type),
        uti: clone_opt(&attachment.uti),
        transfer_name: clone_opt(&attachment.transfer_name),
        total_bytes: attachment.total_bytes,
        kind: attachment_kind_to_dto(&attachment.kind),
        transfer_complete: attachment.transfer_complete,
        present_on_disk: attachment.present_on_disk,
        hide_attachment: attachment.hide_attachment,
        metadata_url: attachment_metadata_url(attachment.guid.as_str()),
        content_url: attachment_content_url(attachment.guid.as_str()),
    }
}

/// Every field of an attachment.
pub open spec fn attachment_detail_matches(a: Attachment, dto: AttachmentDetailDto) -> bool {
    &&& dto.guid == a.guid
    &&& dto.original_guid == a.original_guid
    &&& dto.mime_type == a.mime_type
    &&& dto.uti == a.uti
    &&& dto.transfer_name == a.transfer_name
    &&& dto.total_bytes == a.total_bytes
    &&& dto.kind == attachment_kind_dto_of(a.kind)
    &&& dto.transfer_complete == a.transfer_complete
    &&& dto.present_on_disk == a.present_on_disk
    &&& dto.hide_attachment == a.hide_attachment
    &&& dto.emoji_description == a.emoji_description
    &&& dto.metadata_url@ == metadata_url_of(a.guid@)
    &&& dto.content_url@ == content_url_of(a.guid@)
}

/// Every field of an attachment.
pub fn attachment_detail_to_dto(attachment: &Attachment) -> (dto: AttachmentDetailDto)
    ensures
        attachment_detail_matches(*attachment, dto),
{
    AttachmentDetailDto {
        guid: attachment.guid.clone(),
        original_guid: attachment.original_guid.clone(),
        mime_type: clone_opt(&attachment.mime_type),
        uti: clone_opt(&attachment.uti),
        transfer_name: clone_opt(&attachment.transfer_name),
        total_bytes: attachment.total_bytes,
        kind: attachment_kind_to_dto(&attachment.kind),
        transfer_complete: attachment.transfer_complete,
        present_on_disk: attachment.present_on_disk,
        hide_attachment: attachment.hide_attachment,
        emoji_description: clone_opt(&attachment.emoji_description),
        metadata_url: attachment_metadata_url(attachment.guid.as_str()),
        content_url: attachment_content_url(attachment.guid.as_str()),
    }
}

/// The attachments of a message, as it lists them.
pub open spec fn attachments_match(a: Seq<Attachment>, d: Seq<AttachmentSummaryDto>) -> bool {
    pairwise(a, d, |x: Attachment, y: AttachmentSummaryDto| attachment_summary_matches(x, y))
}

fn attachment_summaries(attachments: &Vec<Attachment>) -> (dtos: Vec<AttachmentSummaryDto>)
    ensures
        attachments_match(attachments@, dtos@),
{
    map_vec_rel(
        attachments,
        attachment_summary_to_dto,
        Ghost(|x: Attachment, y: AttachmentSummaryDto| attachment_summary_matches(x, y)),
    )
}

// ---------------------------------------------------------------------------------------------
// Content
// ---------------------------------------------------------------------------------------------

pub open spec fn body_error_dto_of(error: AttributedBodyDecodeError) -> AttributedBodyErrorDto {
    match error {
        AttributedBodyDecodeError::InvalidTypedStream => AttributedBodyErrorDto::InvalidTypedStream,
        AttributedBodyDecodeError::NotAttributedString => AttributedBodyErrorDto::NotAttributedString,
        AttributedBodyDecodeError::MissingText => AttributedBodyErrorDto::MissingText,
    }
}

pub open spec fn body_dto_of(body: MessageBody) -> MessageBodyDto {
    MessageBodyDto {
        text: body.text,
        attributed_body_error: match body.attributed_body_error {
            Some(e) => Some(body_error_dto_of(e)),
            None => None,
        },
    }
}

fn body_to_dto(body: &MessageBody) -> (dto: MessageBodyDto)
    ensures
        dto == body_dto_of(*body),
{
    MessageBodyDto {
        text: clone_opt(&body.text),
        attributed_body_error: match body.attributed_body_error {
            Some(e) => Some(
                match e {
                    AttributedBodyDecodeError::InvalidTypedStream => AttributedBodyErrorDto::InvalidTypedStream,
                    AttributedBodyDecodeError::NotAttributedString => AttributedBodyErrorDto::NotAttributedString,
                    AttributedBodyDecodeError::MissingText => AttributedBodyErrorDto::MissingText,
                },
            ),
            None => None,
        },
    }
}

pub open spec fn text_dto_of(text: TextMessage) -> TextContentDto {
    TextContentDto {
        body: body_dto_of(text.body),
        is_forward: text.is_forward,
        is_auto_reply: text.is_auto_reply,
    }
}

fn text_to_dto(text: &TextMessage) -> (dto: TextContentDto)
    ensures
        dto == text_dto_of(*text),
{
    TextContentDto {
        body: body_to_dto(&text.body),
        is_forward: text.is_forward,
        is_auto_reply: text.is_auto_reply,
    }
}

pub open spec fn tapback_dto_of(tapback: Tapback) -> TapbackDto {
    match tapback {
        Tapback::Love => TapbackDto::Love,
        Tapback::Like => TapbackDto::Like,
        Tapback::Dislike => TapbackDto::Dislike,
        Tapback::Laugh => TapbackDto::Laugh,
        Tapback::Emphasize => TapbackDto::Emphasize,
        Tapback::Question => TapbackDto::Question,
        Tapback::Unknown(_) => TapbackDto::Unknown,
    }
}

fn tapback_to_dto(tapback: Tapback) -> (dto: TapbackDto)
    ensures
        dto == tapback_dto_of(tapback),
{
    match tapback {
        Tapback::Love => TapbackDto::Love,
        Tapback::Like => TapbackDto::Like,
        Tapback::Dislike => TapbackDto::Dislike,
        Tapback::Laugh => TapbackDto::Laugh,
        Tapback::Emphasize => TapbackDto::Emphasize,
        Tapback::Question => TapbackDto::Question,
        Tapback::Unknown(_) => TapbackDto::Unknown,
    }
}

pub open spec fn reaction_action_dto_of(action: ReactionAction) -> ReactionActionDto {
    match action {
        ReactionAction::Added => ReactionActionDto::Added,
        ReactionAction::Removed => ReactionActionDto::Removed,
    }
}

fn reaction_action_to_dto(action: ReactionAction) -> (dto: ReactionActionDto)
    ensures
        dto == reaction_action_dto_of(action),
{
    match action {
        ReactionAction::Added => ReactionActionDto::Added,
        ReactionAction::Removed => ReactionActionDto::Removed,
    }
}

pub open spec fn reaction_kind_dto_of(kind: ReactionKind) -> ReactionKindDto {
    match kind {
        ReactionKind::Tapback(t, a) => ReactionKindDto::Tapback {
            tapback: tapback_dto_of(t),
            action: reaction_action_dto_of(a),
        },
        ReactionKind::ApplePay => ReactionKindDto::ApplePay,
        ReactionKind::Unknown(code) => ReactionKindDto::Unknown { code },
    }
}

pub open spec fn reaction_dto_of(reaction: Reaction) -> ReactionContentDto {
    ReactionContentDto {
        target_guid: reaction.target_guid,
        kind: reaction_kind_dto_of(reaction.kind),
    }
}

fn reaction_to_dto(reaction: &Reaction) -> (dto: ReactionContentDto)
    ensures
        dto == reaction_dto_of(*reaction),
{
    ReactionContentDto {
        target_guid: clone_opt(&reaction.target_guid),
        kind: match reaction.kind {
            ReactionKind::Tapback(tapback, action) => ReactionKindDto::Tapback {
                tapback: tapback_to_dto(tapback),
                action: reaction_action_to_dto(action),
            },
            ReactionKind::ApplePay => ReactionKindDto::ApplePay,
            ReactionKind::Unknown(code) => ReactionKindDto::Unknown { code },
        },
    }
}

pub open spec fn group_action_dto_of(action: GroupActionKind) -> GroupActionKindDto {
    match action {
        GroupActionKind::ParticipantAdded => GroupActionKindDto::ParticipantAdded,
        GroupActionKind::ParticipantRemoved => GroupActionKindDto::ParticipantRemoved,
        GroupActionKind::NameChange => GroupActionKindDto::NameChange,
        GroupActionKind::ParticipantLeft => GroupActionKindDto::ParticipantLeft,
        GroupActionKind::GroupIconChanged => GroupActionKindDto::GroupIconChanged,
        GroupActionKind::GroupIconRemoved => GroupActionKindDto::GroupIconRemoved,
        GroupActionKind::ChatBackgroundChanged => GroupActionKindDto::ChatBackgroundChanged,
        GroupActionKind::ChatBackgroundRemoved => GroupActionKindDto::ChatBackgroundRemoved,
        GroupActionKind::PhoneNumberChanged => GroupActionKindDto::PhoneNumberChanged,
        GroupActionKind::Unknown { .. } => GroupActionKindDto::Unknown,
    }
}

fn group_action_kind_to_dto(action: &GroupActionKind) -> (dto: GroupActionKindDto)
    ensures
        dto == group_action_dto_of(*action),
{
    match action {
        GroupActionKind::ParticipantAdded => GroupActionKindDto::ParticipantAdded,
        GroupActionKind::ParticipantRemoved => GroupActionKindDto::ParticipantRemoved,
        GroupActionKind::NameChange => GroupActionKindDto::NameChange,
        GroupActionKind::ParticipantLeft => GroupActionKindDto::ParticipantLeft,
        GroupActionKind::GroupIconChanged => GroupActionKindDto::GroupIconChanged,
        GroupActionKind::GroupIconRemoved => GroupActionKindDto::GroupIconRemoved,
        GroupActionKind::ChatBackgroundChanged => GroupActionKindDto::ChatBackgroundChanged,
        GroupActionKind::ChatBackgroundRemoved => GroupActionKindDto::ChatBackgroundRemoved,
        GroupActionKind::PhoneNumberChanged => GroupActionKindDto::PhoneNumberChanged,
        GroupActionKind::Unknown { .. } => GroupActionKindDto::Unknown,
    }
}

pub open spec fn group_event_dto_of(event: GroupEvent) -> GroupEventContentDto {
    GroupEventContentDto {
        action: group_action_dto_of(event.action),
        title: event.title,
        actor: event.actor,
    }
}

fn group_event_to_dto(event: &GroupEvent) -> (dto: GroupEventContentDto)
    ensures
        dto == group_event_dto_of(*event),
{
    GroupEventContentDto {
        action: group_action_kind_to_dto(&event.action),
        title: clone_opt(&event.title),
        actor: clone_opt(&event.actor),
    }
}

/// Whether an opaque payload is there, and its size; never its bytes.
pub open spec fn opaque_payload_of(payload: Option<Vec<u8>>) -> OpaquePayloadDto {
    match payload {
        Some(bytes) => OpaquePayloadDto { present: true, size_bytes: Some(bytes@.len() as u64) },
        None => OpaquePayloadDto { present: false, size_bytes: None },
    }
}

fn opaque_payload(payload: &Option<Vec<u8>>) -> (dto: OpaquePayloadDto)
    ensures
        dto == opaque_payload_of(*payload),
{
    match payload {
        Some(bytes) => OpaquePayloadDto { present: true, size_bytes: Some(bytes.len() as u64) },
        None => OpaquePayloadDto { present: false, size_bytes: None },
    }
}

pub open spec fn poll_option_dto_of(option: PollOption) -> PollOptionDto {
    PollOptionDto { text: option.text, option_id: option.option_id }
}

fn poll_option_to_dto(option: &PollOption) -> (dto: PollOptionDto)
    ensures
        dto == poll_option_dto_of(*option),
{
    PollOptionDto { text: option.text.clone(), option_id: option.option_id.clone() }
}

/// An app message as the API shows it.
pub open spec fn app_balloon_matches(balloon: AppBalloon, dto: AppBalloonContentDto) -> bool {
    &&& dto.bundle_id == balloon.bundle_id
    &&& dto.text == balloon.text
    &&& match (balloon.kind, dto.kind) {
        (AppBalloonKind::Url(u), AppBalloonKindDto::Url(d)) => d.url == u.url && d.title
            == u.title && d.summary == u.summary,
        (AppBalloonKind::Photos(p), AppBalloonKindDto::Photos(d)) => d.url == p.url && d.caption
            == p.caption,
        (AppBalloonKind::Poll(p), AppBalloonKindDto::Poll(d)) => d.title == p.title
            && d.options@ == p.options@.map_values(|o: PollOption| poll_option_dto_of(o)),
        (AppBalloonKind::DigitalTouch, AppBalloonKindDto::DigitalTouch) => true,
        (
            AppBalloonKind::Unknown { payload_data },
            AppBalloonKindDto::Unknown { payload },
        ) => payload == opaque_payload_of(payload_data),
        _ => false,
    }
}

fn app_balloon_to_dto(balloon: &AppBalloon) -> (dto: AppBalloonContentDto)
    ensures
        app_balloon_matches(*balloon, dto),
{
    let kind = match &balloon.kind {
        AppBalloonKind::Url(url) => AppBalloonKindDto::Url(
            UrlBalloonDto {
                url: clone_opt(&url.url),
                title: clone_opt(&url.title),
                summary: clone_opt(&url.summary),
            },
        ),
        AppBalloonKind::Photos(photos) => AppBalloonKindDto::Photos(
            PhotosBalloonDto { url: clone_opt(&photos.url), caption: clone_opt(&photos.caption) },
        ),
        AppBalloonKind::Poll(poll) => {
            let options = map_vec(
                &poll.options,
                poll_option_to_dto,
                Ghost(|o: PollOption| poll_option_dto_of(o)),
            );
            proof {
                assert(options@ =~= poll.options@.map_values(|o: PollOption| poll_option_dto_of(o)));
            }
            AppBalloonKindDto::Poll(PollBalloonDto { title: clone_opt(&poll.title), options })
        },
        AppBalloonKind::DigitalTouch => AppBalloonKindDto::DigitalTouch,
        AppBalloonKind::Unknown { payload_data } => AppBalloonKindDto::Unknown {
            payload: opaque_payload(payload_data),
        },
    };
    AppBalloonContentDto {
        bundle_id: balloon.bundle_id.clone(),
        text: clone_opt(&balloon.text),
        kind,
    }
}

pub open spec fn share_play_dto_of(share_play: SharePlayMessage) -> SharePlayContentDto {
    SharePlayContentDto {
        text: share_play.text,
        payload: opaque_payload_of(share_play.payload_data),
    }
}

fn share_play_to_dto(share_play: &SharePlayMessage) -> (dto: SharePlayContentDto)
    ensures
        dto == share_play_dto_of(*share_play),
{
    SharePlayContentDto {
        text: clone_opt(&share_play.text),
        payload: opaque_payload(&share_play.payload_data),
    }
}

pub open spec fn share_my_location_dto_of(location: ShareMyLocationMessage) -> ShareMyLocationContentDto {
    ShareMyLocationContentDto {
        status: match location.status {
            ShareMyLocationStatus::Started => ShareMyLocationStatusDto::Started,
            ShareMyLocationStatus::Stopped => ShareMyLocationStatusDto::Stopped,
        },
        other_handle: location.other_handle,
    }
}

fn share_my_location_to_dto(location: &ShareMyLocationMessage) -> (dto: ShareMyLocationContentDto)
    ensures
        dto == share_my_location_dto_of(*location),
{
    ShareMyLocationContentDto {
        status: match location.status {
            ShareMyLocationStatus::Started => ShareMyLocationStatusDto::Started,
            ShareMyLocationStatus::Stopped => ShareMyLocationStatusDto::Stopped,
        },
        other_handle: clone_opt(&location.other_handle),
    }
}

pub open spec fn system_dto_of(system: SystemMessage) -> SystemContentDto {
    SystemContentDto { is_system: system.is_system, is_service: system.is_service, text: system.text }
}

fn system_to_dto(system: &SystemMessage) -> (dto: SystemContentDto)
    ensures
        dto == system_dto_of(*system),
{
    SystemContentDto {
        is_system: system.is_system,
        is_service: system.is_service,
        text: clone_opt(&system.text),
    }
}

/// A message of an unrecognised kind as the API shows it.
pub open spec fn unknown_matches(unknown: UnknownMessage, dto: UnknownContentDto) -> bool {
    &&& dto.item_type == unknown.item_type
    &&& dto.associated_message_type == unknown.associated_message_type
    &&& dto.text == unknown.text
    &&& attachments_match(unknown.attachments@, dto.attachments@)
}

fn unknown_to_dto(unknown: &UnknownMessage) -> (dto: UnknownContentDto)
    ensures
        unknown_matches(*unknown, dto),
{
    UnknownContentDto {
        item_type: unknown.item_type,
        associated_message_type: unknown.associated_message_type,
        text: clone_opt(&unknown.text),
        attachments: attachment_summaries(&unknown.attachments),
    }
}

/// What a message holds, as the API shows it: the same kind, converted field by field.
pub open spec fn content_matches(content: MessageContent, dto: MessageContentDto) -> bool {
    match (content, dto) {
        (MessageContent::Text(t), MessageContentDto::Text(d)) => d == text_dto_of(t),
        (MessageContent::Audio(a), MessageContentDto::Audio(d)) => d.body == body_dto_of(a.body)
            && attachments_match(a.attachments@, d.attachments@),
        (MessageContent::Attachment(a), MessageContentDto::Attachment(d)) => d.body == body_dto_of(
            a.body,
        ) && attachments_match(a.attachments@, d.attachments@),
        (MessageContent::Reaction(r), MessageContentDto::Reaction(d)) => d == reaction_dto_of(r),
        (MessageContent::GroupEvent(g), MessageContentDto::GroupEvent(d)) => d
            == group_event_dto_of(g),
        (MessageContent::AppBalloon(b), MessageContentDto::AppBalloon(d)) => app_balloon_matches(
            b,
            d,
        ),
        (MessageContent::SharePlay(s), MessageContentDto::SharePlay(d)) => d == share_play_dto_of(
            s,
        ),
        (MessageContent::ShareMyLocation(l), MessageContentDto::ShareMyLocation(d)) => d
            == share_my_location_dto_of(l),
        (MessageContent::System(s), MessageContentDto::System(d)) => d == system_dto_of(s),
        (MessageContent::Unknown(u), MessageContentDto::Unknown(d)) => unknown_matches(u, d),
        _ => false,
    }
}

fn content_to_dto(content: &MessageContent) -> (dto: MessageContentDto)
    ensures
        content_matches(*content, dto),
{
    match content {
        MessageContent::Text(text) => MessageContentDto::Text(text_to_dto(text)),
        MessageContent::Audio(audio) => MessageContentDto::Audio(
            AudioContentDto {
                body: body_to_dto(&audio.body),
                attachments: attachment_summaries(&audio.attachments),
            },
        ),
        MessageContent::Attachment(attachment) => MessageContentDto::Attachment(
            AttachmentContentDto {
                body: body_to_dto(&attachment.body),
                attachments: attachment_summaries(&attachment.attachments),
            },
        ),
        MessageContent::Reaction(reaction) => MessageContentDto::Reaction(reaction_to_dto(reaction)),
        MessageContent::GroupEvent(event) => MessageContentDto::GroupEvent(group_event_to_dto(event)),
        MessageContent::AppBalloon(balloon) => MessageContentDto::AppBalloon(
            app_balloon_to_dto(balloon),
        ),
        MessageContent::SharePlay(share_play) => MessageContentDto::SharePlay(
            share_play_to_dto(share_play),
        ),
        MessageContent::ShareMyLocation(location) => MessageContentDto::ShareMyLocation(
            share_my_location_to_dto(location),
        ),
        MessageContent::System(system) => MessageContentDto::System(system_to_dto(system)),
        MessageContent::Unknown(unknown) => MessageContentDto::Unknown(unknown_to_dto(unknown)),
    }
}

// ---------------------------------------------------------------------------------------------
// Messages
// ---------------------------------------------------------------------------------------------

/// A message as the listing shows it.
pub open spec fn message_summary_matches(m: Message, dto: MessageSummaryDto) -> bool {
    &&& dto.guid == m.envelope.guid
    &&& dto.direction == direction_dto_of(m.envelope.direction)
    &&& dto.transport == transport_dto_of(m.envelope.transport)
    &&& dto.sent_at == m.envelope.sent_at
    &&& dto.sender == opt_handle_dto_of(m.envelope.sender)
    &&& content_matches(m.content, dto.content)
}

/// A message as the listing shows it.
pub fn message_summary_to_dto(message: &Message) -> (dto: MessageSummaryDto)
    ensures
        message_summary_matches(*message, dto),
{
    MessageSummaryDto {
        guid: message.envelope.guid.clone(),
        direction: direction_to_dto(message.envelope.direction),
        transport: transport_to_dto(&message.envelope.transport),
        sent_at: message.envelope.sent_at,
        sender: opt_handle_to_dto(&message.envelope.sender),
        content: content_to_dto(&message.content),
    }
}

/// Every field of a message.
pub open spec fn message_detail_matches(m: Message, dto: MessageDetailDto) -> bool {
    &&& dto.guid == m.envelope.guid
    &&& dto.direction == direction_dto_of(m.envelope.direction)
    &&& dto.transport == transport_dto_of(m.envelope.transport)
    &&& dto.sent_at == m.envelope.sent_at
    &&& dto.read_at == m.envelope.read_at
    &&& dto.edited_at == m.envelope.edited_at
    &&& dto.retracted_at == m.envelope.retracted_at
    &&& dto.sender == opt_handle_dto_of(m.envelope.sender)
    &&& dto.reply_to_guid == m.envelope.reply_to_guid
    &&& dto.thread_originator_guid == m.envelope.thread_originator_guid
    &&& dto.chat_ids@ == m.envelope.chat_ids@
    &&& content_matches(m.content, dto.content)
}

fn copy_ids(ids: &Vec<i64>) -> (out: Vec<i64>)
    ensures
        out@ == ids@,
{
    let mut out: Vec<i64> = Vec::new();
    let mut i: usize = 0;
    while i < ids.len()
        invariant
            i <= ids.len(),
            out@ == ids@.take(i as int),
        decreases ids.len() - i,
    {
        out.push(ids[i]);
        proof {
            assert(out@ =~= ids@.take(i + 1));
        }
        i = i + 1;
    }
    proof {
        assert(ids@.take(i as int) =~= ids@);
    }
    out
}

/// Every field of a message.
pub fn message_detail_to_dto(message: &Message) -> (dto: MessageDetailDto)
    ensures
        message_detail_matches(*message, dto),
{
    MessageDetailDto {
        guid: message.envelope.guid.clone(),
        direction: direction_to_dto(message.envelope.direction),
        transport: transport_to_dto(&message.envelope.transport),
        sent_at: message.envelope.sent_at,
        read_at: message.envelope.read_at,
        edited_at: message.envelope.edited_at,
        retracted_at: message.envelope.retracted_at,
        sender: opt_handle_to_dto(&message.envelope.sender),
        reply_to_guid: clone_opt(&message.envelope.reply_to_guid),
        thread_originator_guid: clone_opt(&message.envelope.thread_originator_guid),
        chat_ids: copy_ids(&message.envelope.chat_ids),
        content: content_to_dto(&message.content),
    }
}

/// One page of messages.
pub fn message_page_to_dto(page: Page<Message>, limit: u32) -> (dto: MessagePageDto)
    ensures
        pairwise(
            page.items@,
            dto.items@,
            |m: Message, d: MessageSummaryDto| message_summary_matches(m, d),
        ),
        dto.page == (PageMetaDto { limit, has_more: page.has_more, next_cursor: page.next_cursor }),
{
    let items = map_vec_rel(
        &page.items,
        message_summary_to_dto,
        Ghost(|m: Message, d: MessageSummaryDto| message_summary_matches(m, d)),
    );
    MessagePageDto {
        items,
        page: PageMetaDto { limit, has_more: page.has_more, next_cursor: page.next_cursor },
    }
}

/// An attachment's content URL is its metadata URL followed by `/content`.
pub proof fn law_content_url_extends_metadata_url(guid: Seq<char>)
    ensures
        content_url_of(guid) == metadata_url_of(guid) + "/content"@,
{
    assert(content_url_of(guid) =~= metadata_url_of(guid) + "/content"@);
}

/// Two attachment summaries show the same attachment: every field is equal, the URLs as text.
pub open spec fn attachment_summaries_agree(x: AttachmentSummaryDto, y: AttachmentSummaryDto) -> bool {
    &&& x.guid == y.guid
    &&& x.original_guid == y.original_guid
    &&& x.mime_type == y.mime_type
    &&& x.uti == y.uti
    &&& x.transfer_name == y.transfer_name
    &&& x.total_bytes == y.total_bytes
    &&& x.kind == y.kind
    &&& x.transfer_complete == y.transfer_complete
    &&& x.present_on_disk == y.present_on_disk
    &&& x.hide_attachment == y.hide_attachment
    &&& x.metadata_url@ == y.metadata_url@
    &&& x.content_url@ == y.content_url@
}

/// Two lists of attachment summaries show the same attachments in the same order.
pub open spec fn attachment_lists_agree(x: Seq<AttachmentSummaryDto>, y: Seq<AttachmentSummaryDto>) -> bool {
    &&& x.len() == y.len()
    &&& forall|i: int| 0 <= i < x.len() ==> attachment_summaries_agree(#[trigger] x[i], y[i])
}

/// Two balloon kinds show the same balloon: a poll's options as a sequence, any other kind
/// as a value.
pub open spec fn balloon_kinds_agree(x: AppBalloonKindDto, y: AppBalloonKindDto) -> bool {
    match (x, y) {
        (AppBalloonKindDto::Poll(a), AppBalloonKindDto::Poll(b)) => a.title == b.title
            && a.options@ == b.options@,
        _ => x == y,
    }
}

/// Two content DTOs show the same content: the same kind, with equal fields; lists are
/// compared element by element and URLs as text.
pub open spec fn content_dtos_agree(x: MessageContentDto, y: MessageContentDto) -> bool {
    match (x, y) {
        (MessageContentDto::Audio(a), MessageContentDto::Audio(b)) => a.body == b.body
            && attachment_lists_agree(a.attachments@, b.attachments@),
        (MessageContentDto::Attachment(a), MessageContentDto::Attachment(b)) => a.body == b.body
            && attachment_lists_agree(a.attachments@, b.attachments@),
        (MessageContentDto::AppBalloon(a), MessageContentDto::AppBalloon(b)) => a.bundle_id
            == b.bundle_id && a.text == b.text && balloon_kinds_agree(a.kind, b.kind),
        (MessageContentDto::Unknown(a), MessageContentDto::Unknown(b)) => a.item_type
            == b.item_type && a.associated_message_type == b.associated_message_type && a.text
            == b.text && attachment_lists_agree(a.attachments@, b.attachments@),
        _ => x == y,
    }
}

/// Two lists of summaries that both match one list of attachments agree.
proof fn lemma_attachment_lists_agree(
    attachments: Seq<Attachment>,
    a: Seq<AttachmentSummaryDto>,
    b: Seq<AttachmentSummaryDto>,
)
    requires
        attachments_match(attachments, a),
        attachments_match(attachments, b),
    ensures
        attachment_lists_agree(a, b),
{
    let rel = |x: Attachment, y: AttachmentSummaryDto| attachment_summary_matches(x, y);
    assert forall|i: int| 0 <= i < a.len() implies attachment_summaries_agree(#[trigger] a[i], b[i]) by {
        assert(rel(attachments[i], a[i]));
        assert(rel(attachments[i], b[i]));
    }
}

/// Converting one content twice shows it the same way both times.
pub proof fn law_content_conversion_is_determined(
    content: MessageContent,
    x: MessageContentDto,
    y: MessageContentDto,
)
    requires
        content_matches(content, x),
        content_matches(content, y),
    ensures
        content_dtos_agree(x, y),
{
    match (content, x, y) {
        (MessageContent::Audio(c), MessageContentDto::Audio(a), MessageContentDto::Audio(b)) => {
            lemma_attachment_lists_agree(c.attachments@, a.attachments@, b.attachments@);
        },
        (
            MessageContent::Attachment(c),
            MessageContentDto::Attachment(a),
            MessageContentDto::Attachment(b),
        ) => {
            lemma_attachment_lists_agree(c.attachments@, a.attachments@, b.attachments@);
        },
        (
            MessageContent::Unknown(c),
            MessageContentDto::Unknown(a),
            MessageContentDto::Unknown(b),
        ) => {
            lemma_attachment_lists_agree(c.attachments@, a.attachments@, b.attachments@);
        },
        _ => {},
    }
}

/// The listing and the detail of one message agree on everything the listing shows: the
/// guid, direction, transport, time, sender and content.
pub proof fn law_summary_and_detail_agree(
    message: Message,
    summary: MessageSummaryDto,
    detail: MessageDetailDto,
)
    requires
        message_summary_matches(message, summary),
        message_detail_matches(message, detail),
    ensures
        summary.guid == detail.guid,
        summary.direction == detail.direction,
        summary.transport == detail.transport,
        summary.sent_at == detail.sent_at,
        summary.sender == detail.sender,
        content_dtos_agree(summary.content, detail.content),
{
    law_content_conversion_is_determined(message.content, summary.content, detail.content);
}

/// A tapback shown under its own name.
pub open spec fn tapback_named(tapback: Tapback, dto: TapbackDto) -> bool {
    ||| tapback == Tapback::Love && dto == TapbackDto::Love
    ||| tapback == Tapback::Like && dto == TapbackDto::Like
    ||| tapback == Tapback::Dislike && dto == TapbackDto::Dislike
    ||| tapback == Tapback::Laugh && dto == TapbackDto::Laugh
    ||| tapback == Tapback::Emphasize && dto == TapbackDto::Emphasize
    ||| tapback == Tapback::Question && dto == TapbackDto::Question
    ||| tapback is Unknown && dto == TapbackDto::Unknown
}

/// A reaction's action shown under its own name.
pub open spec fn reaction_action_named(action: ReactionAction, dto: ReactionActionDto) -> bool {
    ||| action == ReactionAction::Added && dto == ReactionActionDto::Added
    ||| action == ReactionAction::Removed && dto == ReactionActionDto::Removed
}

/// A reaction's kind shown as it is: a tapback with its name and action, Apple Pay, or the
/// unknown code.
pub open spec fn reaction_kind_kept(kind: ReactionKind, dto: ReactionKindDto) -> bool {
    match (kind, dto) {
        (ReactionKind::Tapback(t, a), ReactionKindDto::Tapback { tapback, action }) => tapback_named(
            t,
            tapback,
        ) && reaction_action_named(a, action),
        (ReactionKind::ApplePay, ReactionKindDto::ApplePay) => true,
        (ReactionKind::Unknown(code), ReactionKindDto::Unknown { code: shown }) => shown == code,
        _ => false,
    }
}

/// A reaction message is shown as a reaction to the same message, of the same kind: each
/// tapback under its own name, with its action.
pub proof fn law_reactions_keep_their_kind(content: MessageContent, dto: MessageContentDto)
    requires
        content_matches(content, dto),
    ensures
        content matches MessageContent::Reaction(r) ==> (dto matches MessageContentDto::Reaction(d)
            && d.target_guid == r.target_guid && reaction_kind_kept(r.kind, d.kind)),
{
}

/// Distinct known tapbacks are shown as distinct tapbacks.
pub proof fn law_known_tapbacks_stay_distinct(a: Tapback, b: Tapback)
    requires
        a != b,
        !(a is Unknown),
        !(b is Unknown),
    ensures
        tapback_dto_of(a) != tapback_dto_of(b),
        tapback_dto_of(a) != TapbackDto::Unknown,
{
}

/// A message is shown with its own direction and transport, each under its own name.
pub proof fn law_messages_keep_direction_and_transport(message: Message, dto: MessageDetailDto)
    requires
        message_detail_matches(message, dto),
    ensures
        (message.envelope.direction == Direction::Sent) == (dto.direction == DirectionDto::Sent),
        (message.envelope.direction == Direction::Received) == (dto.direction
            == DirectionDto::Received),
        (message.envelope.transport is IMessage) == (dto.transport == TransportDto::Imessage),
        (message.envelope.transport is Sms) == (dto.transport == TransportDto::Sms),
        (message.envelope.transport is Rcs) == (dto.transport == TransportDto::Rcs),
        (message.envelope.transport is Unknown) == (dto.transport == TransportDto::Unknown),
{
}

/// Each AttributedBodyDecodeError value is shown under its own name, and distinct values stay distinct.
pub proof fn law_body_error_dto_of_keeps_names(x: AttributedBodyDecodeError, y: AttributedBodyDecodeError)
    ensures
        x == AttributedBodyDecodeError::InvalidTypedStream ==> body_error_dto_of(x) == AttributedBodyErrorDto::InvalidTypedStream,
        x == AttributedBodyDecodeError::NotAttributedString ==> body_error_dto_of(x) == AttributedBodyErrorDto::NotAttributedString,
        x == AttributedBodyDecodeError::MissingText ==> body_error_dto_of(x) == AttributedBodyErrorDto::MissingText,
        x != y ==> body_error_dto_of(x) != body_error_dto_of(y),
{
}

/// Each ReactionAction value is shown under its own name, and distinct values stay distinct.
pub proof fn law_reaction_action_dto_of_keeps_names(x: ReactionAction, y: ReactionAction)
    ensures
        x == ReactionAction::Added ==> reaction_action_dto_of(x) == ReactionActionDto::Added,
        x == ReactionAction::Removed ==> reaction_action_dto_of(x) == ReactionActionDto::Removed,
        x != y ==> reaction_action_dto_of(x) != reaction_action_dto_of(y),
{
}

/// Each GroupActionKind value is shown under its own name.
pub proof fn law_group_action_dto_of_keeps_names(x: GroupActionKind)
    ensures
        x == GroupActionKind::ParticipantAdded ==> group_action_dto_of(x) == GroupActionKindDto::ParticipantAdded,
        x == GroupActionKind::ParticipantRemoved ==> group_action_dto_of(x) == GroupActionKindDto::ParticipantRemoved,
        x == GroupActionKind::NameChange ==> group_action_dto_of(x) == GroupActionKindDto::NameChange,
        x == GroupActionKind::ParticipantLeft ==> group_action_dto_of(x) == GroupActionKindDto::ParticipantLeft,
        x == GroupActionKind::GroupIconChanged ==> group_action_dto_of(x) == GroupActionKindDto::GroupIconChanged,
        x == GroupActionKind::GroupIconRemoved ==> group_action_dto_of(x) == GroupActionKindDto::GroupIconRemoved,
        x == GroupActionKind::ChatBackgroundChanged ==> group_action_dto_of(x) == GroupActionKindDto::ChatBackgroundChanged,
        x == GroupActionKind::ChatBackgroundRemoved ==> group_action_dto_of(x) == GroupActionKindDto::ChatBackgroundRemoved,
        x == GroupActionKind::PhoneNumberChanged ==> group_action_dto_of(x) == GroupActionKindDto::PhoneNumberChanged,
        x is Unknown ==> group_action_dto_of(x) == GroupActionKindDto::Unknown,
{
}

/// Each attachment kind is shown under its own name, a sticker with its animation flag, and
/// distinct kinds stay distinct.
pub proof fn law_attachment_kind_dto_of_keeps_names(x: AttachmentKind, y: AttachmentKind)
    ensures
        x matches AttachmentKind::Sticker { animated } ==> (attachment_kind_dto_of(x)
            == (AttachmentKindDto::Sticker { animated })),
        x == AttachmentKind::Image ==> attachment_kind_dto_of(x) == AttachmentKindDto::Image,
        x == AttachmentKind::Video ==> attachment_kind_dto_of(x) == AttachmentKindDto::Video,
        x == AttachmentKind::Audio ==> attachment_kind_dto_of(x) == AttachmentKindDto::Audio,
        x == AttachmentKind::File ==> attachment_kind_dto_of(x) == AttachmentKindDto::File,
        x == AttachmentKind::Unknown ==> attachment_kind_dto_of(x) == AttachmentKindDto::Unknown,
        x != y ==> attachment_kind_dto_of(x) != attachment_kind_dto_of(y),
{
}

} // verus!
