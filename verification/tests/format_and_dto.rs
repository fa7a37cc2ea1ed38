use apple_connector::dto::attachment::AttachmentKindDto;
use apple_connector::dto::content::MessageContentDto;
use apple_connector::dto::convert::{
    attachment_content_url, attachment_detail_to_dto, attachment_metadata_url,
    chat_summary_to_dto, message_detail_to_dto,
};
use apple_connector::dto::note_convert::{display_title, note_summary_to_dto};
use apple_connector::dto::reminder::ReminderListKindDto;
use apple_connector::dto::reminder_convert::{priority_to_raw, reminder_list_detail_to_dto};
use apple_connector::extract::{body_rejection_error, query_rejection_error};
use apple_connector::error_codes::ErrorCode;
use apple_connector::format::{
    header_accepts, mime_from_format, mime_from_image_type, parse_request_format,
    preferred_format, resolve_format, ContactFormat, ResponseFormat,
};
use apple_connector::model::messages::{
    Attachment, AttachmentKind, Chat, Direction, Envelope, Handle, Message, MessageBody,
    MessageContent, TextMessage, Transport,
};
use apple_connector::model::calendar::{
    empty_event_detail, Availability, EventClass, EventStatus, EventSummary, InvitationStatus,
    PrivacyLevel,
};
use apple_connector::model::notes::{FolderKind, NoteSummary};
use apple_connector::model::reminders::{ListKind, Priority, ReminderList, Section, SmartFilter};

#[test]
fn attachment_dto_omits_local_paths() {
    let attachment = Attachment {
        guid: "at-guid".to_owned(),
        original_guid: "at-guid".to_owned(),
        filename: Some("~/Library/Messages/Attachments/at/file.jpg".to_owned()),
        resolved_path: Some("/Users/test/Library/Messages/Attachments/at/file.jpg".to_owned()),
        uti: Some("public.jpeg".to_owned()),
        mime_type: Some("image/jpeg".to_owned()),
        transfer_name: Some("photo.jpg".to_owned()),
        total_bytes: 1234,
        kind: AttachmentKind::Image,
        transfer_state: 5,
        transfer_complete: true,
        present_on_disk: true,
        hide_attachment: false,
        emoji_description: None,
        body_reference: None,
    };

    let dto = attachment_detail_to_dto(&attachment);
    let rendered = format!("{dto:?}");
    for forbidden in ["chat.db", "Library/Messages", "/Users/", "resolved_path", "payload_data"] {
        assert!(!rendered.contains(forbidden), "dto leaked `{forbidden}`: {rendered}");
    }
    assert_eq!(dto.kind, AttachmentKindDto::Image);
    assert_eq!(dto.metadata_url, "/v1/attachments/at-guid");
    assert_eq!(dto.content_url, "/v1/attachments/at-guid/content");
}

#[test]
fn attachment_urls() {
    assert_eq!(attachment_metadata_url("x"), "/v1/attachments/x");
    assert_eq!(attachment_content_url("x"), "/v1/attachments/x/content");
}

#[test]
fn chats_and_messages_convert() {
    let chat = Chat {
        row_id: 4,
        guid: "chat-guid".into(),
        identifier: None,
        display_name: Some("Team".into()),
        room_name: None,
        is_group: true,
        transport: Transport::Unknown("satellite".into()),
        participants: vec![
            Handle { id: "+1".into(), service: "iMessage".into() },
            Handle { id: "+2".into(), service: "SMS".into() },
        ],
    };
    let dto = chat_summary_to_dto(&chat);
    assert_eq!(dto.id, 4);
    assert_eq!(dto.participant_count, 2);
    assert!(!format!("{dto:?}").contains("satellite"));

    let message = Message {
        envelope: Envelope {
            guid: "m1".into(),
            direction: Direction::Received,
            transport: Transport::IMessage,
            sent_at: Some(1_700_000_000),
            read_at: None,
            edited_at: None,
            retracted_at: None,
            sender: Some(Handle { id: "+1".into(), service: "iMessage".into() }),
            reply_to_guid: Some("m0".into()),
            thread_originator_guid: None,
            chat_ids: vec![4, 5],
        },
        content: MessageContent::Text(TextMessage {
            body: MessageBody { text: Some("hi".into()), attributed_body_error: None },
            is_forward: false,
            is_auto_reply: false,
        }),
    };
    let summary = apple_connector::dto::convert::message_summary_to_dto(&message);
    let dto = message_detail_to_dto(&message);
    assert_eq!(summary.guid, dto.guid);
    assert_eq!(format!("{:?}", summary.content), format!("{:?}", dto.content));
    assert_eq!(format!("{:?}", summary.sender), format!("{:?}", dto.sender));
    assert_eq!(dto.guid, "m1");
    assert_eq!(dto.chat_ids, vec![4, 5]);
    assert_eq!(dto.reply_to_guid.as_deref(), Some("m0"));
    match dto.content {
        MessageContentDto::Text(text) => assert_eq!(text.body.text.as_deref(), Some("hi")),
        other => panic!("unexpected {other:?}"),
    }
}

#[test]
fn untitled_notes_and_priorities() {
    assert_eq!(display_title(&None), "Untitled");
    assert_eq!(display_title(&Some("Groceries".into())), "Groceries");
    let note = NoteSummary {
        id: "n1".into(),
        row_id: 1,
        title: None,
        snippet: None,
        folder_id: None,
        folder_row_id: None,
        folder_name: None,
        folder_kind: FolderKind::Deleted,
        is_pinned: false,
        has_checklist: false,
        is_locked: true,
        marked_for_deletion: true,
        has_attachments: false,
        created_at: None,
        modified_at: None,
    };
    assert_eq!(note_summary_to_dto(&note).title, "Untitled");
    assert_eq!(priority_to_raw(&Priority::NoPriority), 0);
    assert_eq!(priority_to_raw(&Priority::Low), 9);
    assert_eq!(priority_to_raw(&Priority::Medium), 5);
    assert_eq!(priority_to_raw(&Priority::High), 1);
}

#[test]
fn explicit_format_wins_over_accept() {
    assert_eq!(resolve_format(Some("text/calendar"), Some("JSON")).expect("json"), ResponseFormat::Json);
    assert_eq!(resolve_format(None, Some("iCalendar")).expect("ics"), ResponseFormat::Ics);
    assert_eq!(resolve_format(None, Some("xml")).expect("caldav"), ResponseFormat::CalDav);
    let error = resolve_format(None, Some("pdf")).expect_err("unknown");
    assert_eq!(error.body.message, "format must be one of json, ics, or caldav");
}

#[test]
fn accept_entries_are_read_in_order() {
    assert_eq!(
        resolve_format(Some("text/html, Text/Calendar;q=0.9, application/json"), None).expect("ics"),
        ResponseFormat::Ics
    );
    assert_eq!(resolve_format(Some("*/*"), None).expect("json"), ResponseFormat::Json);
    assert_eq!(resolve_format(Some(" application/caldav+xml "), None).expect("caldav"), ResponseFormat::CalDav);
    assert_eq!(resolve_format(Some("text/html"), None).expect("default"), ResponseFormat::Json);
    assert_eq!(resolve_format(None, None).expect("default"), ResponseFormat::Json);
    assert_eq!(ResponseFormat::Ics.content_type(), "text/calendar; charset=utf-8");
}

#[test]
fn request_bodies_declare_their_format() {
    assert_eq!(parse_request_format(Some("application/caldav+xml")).expect("caldav"), ResponseFormat::CalDav);
    assert_eq!(parse_request_format(Some("text/calendar; charset=utf-8")).expect("ics"), ResponseFormat::Ics);
    assert!(parse_request_format(Some("application/json")).is_err());
    assert!(parse_request_format(None).is_err());
}

#[test]
fn contact_formats_and_mime_types() {
    assert!(header_accepts(Some("text/plain, TEXT/VCARD;version=4"), "text/vcard"));
    assert!(!header_accepts(None, "text/vcard"));
    assert_eq!(preferred_format(Some("text/x-vcard")), ContactFormat::VCard);
    assert_eq!(preferred_format(Some("text/vcard, application/carddav+xml")), ContactFormat::CardDav);
    assert_eq!(preferred_format(Some("application/json")), ContactFormat::Json);
    assert_eq!(mime_from_image_type("JPG"), "image/jpeg");
    assert_eq!(mime_from_image_type("heic"), "image/heic");
    assert_eq!(mime_from_image_type("tiff"), "application/octet-stream");
    assert_eq!(mime_from_format("public.pdf"), "application/pdf");
    assert_eq!(mime_from_format("PUBLIC.PNG"), "application/octet-stream");
}

#[test]
fn unreadable_requests_stay_in_the_catalogue() {
    let error = body_rejection_error(true, "unknown variant `all`");
    assert_eq!(error.body.code, ErrorCode::UnprocessableEntity);
    assert_eq!(error.status(), 422);
    let error = body_rejection_error(false, "expected value");
    assert_eq!(error.body.code, ErrorCode::ValidationError);
    let error = query_rejection_error("unknown variant");
    assert_eq!(error.body.code, ErrorCode::InvalidParameter);
    assert_eq!(error.body.message, "query parameters could not be read");
}

#[test]
fn reminder_list_detail_keeps_sharing_filter_and_sections() {
    let list = ReminderList {
        id: "list-uuid".to_owned(),
        row_id: 12,
        name: "Groceries".to_owned(),
        kind: ListKind::Smart,
        smart_list_type: Some("com.apple.reminders.smartlist.today".to_owned()),
        sharing_status: Some(2),
        shared_owner_name: Some("Alex".to_owned()),
        shared_owner_address: None,
        sections: vec![
            Section { id: "s1".to_owned(), display_name: "Produce".to_owned(), canonical_name: None },
            Section {
                id: "s2".to_owned(),
                display_name: "Dairy".to_owned(),
                canonical_name: Some("dairy".to_owned()),
            },
        ],
    };
    let filter = SmartFilter { decoded: true, raw: Some("{\"flagged\":true}".to_owned()) };
    let dto = reminder_list_detail_to_dto(&list, &filter);
    assert_eq!(dto.id, "list-uuid");
    assert_eq!(dto.row_id, 12);
    assert_eq!(dto.kind, ReminderListKindDto::Smart);
    assert_eq!(dto.sharing_status, Some(2));
    assert_eq!(dto.shared_owner_name.as_deref(), Some("Alex"));
    assert!(dto.shared_owner_address.is_none());
    assert!(dto.filter.decoded);
    assert_eq!(dto.filter.raw.as_deref(), Some("{\"flagged\":true}"));
    assert_eq!(dto.sections.len(), 2);
    assert_eq!(dto.sections[1].display_name, "Dairy");
    assert_eq!(dto.sections[1].canonical_name.as_deref(), Some("dairy"));
}

#[test]
fn event_known_by_summary_has_default_detail() {
    let summary = EventSummary {
        id: "ev-1".to_owned(),
        row_id: 4,
        calendar_id: "cal-1".to_owned(),
        calendar_row_id: 2,
        summary: Some("Standup".to_owned()),
        start: Some(100),
        end: Some(200),
        all_day: false,
        status: EventStatus::Confirmed,
        hidden: false,
        is_recurring: false,
        occurrence_start: None,
        occurrence_end: None,
        event_class: EventClass::Standard,
    };
    let detail = empty_event_detail(summary);
    assert_eq!(detail.summary.id, "ev-1");
    assert_eq!(detail.summary.summary.as_deref(), Some("Standup"));
    assert!(detail.attendees.is_empty() && detail.alarms.is_empty());
    assert!(detail.description.is_none() && detail.location.is_none());
    assert_eq!(detail.invitation_status, InvitationStatus::Unknown);
    assert_eq!(detail.availability, Availability::Busy);
    assert_eq!(detail.privacy_level, PrivacyLevel::Default);
}
