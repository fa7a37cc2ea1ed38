use apple_connector::attachment_access::{
    attachment_file_to_serve, attachment_path_to_serve, event_attachment_content_type,
    event_attachment_file, note_attachment_location, note_attachment_path_to_serve,
};
use apple_connector::listing::note_not_found;
use apple_connector::model::calendar::EventAttachment;
use apple_connector::error::DetailValue;
use apple_connector::error_codes::ErrorCode;
use apple_connector::model::messages::{Attachment, AttachmentKind};
use apple_connector::model::notes::NoteAttachment;

fn message_attachment(transfer_complete: bool, filename: Option<&str>) -> Attachment {
    Attachment {
        guid: "at-1".to_owned(),
        original_guid: "at-1".to_owned(),
        filename: filename.map(str::to_owned),
        resolved_path: None,
        uti: None,
        mime_type: Some("image/png".to_owned()),
        transfer_name: Some("photo.png".to_owned()),
        total_bytes: 10,
        kind: AttachmentKind::Image,
        transfer_state: 5,
        transfer_complete,
        present_on_disk: true,
        hide_attachment: false,
        emoji_description: None,
        body_reference: None,
    }
}

fn note_attachment(account_id: Option<&str>, filename: Option<&str>) -> NoteAttachment {
    NoteAttachment {
        id: "na-1".to_owned(),
        row_id: 3,
        filename: filename.map(str::to_owned),
        uti: None,
        file_size: Some(20),
        note_id: "note-1".to_owned(),
        modified_at: None,
        account_id: account_id.map(str::to_owned),
    }
}

fn detail_text(error: &apple_connector::error::ApiError, key: &str) -> Option<String> {
    let details = error.body.details.as_ref()?;
    details.iter().find(|entry| entry.key == key).and_then(|entry| match &entry.value {
        DetailValue::Text(text) => Some(text.clone()),
        _ => None,
    })
}

#[test]
fn missing_message_attachment_is_not_found() {
    let error = attachment_file_to_serve("at-9", None).expect_err("no record");
    assert_eq!(error.body.code, ErrorCode::MessageAttachmentNotFound);
    assert_eq!(error.body.message, "attachment at-9 not found");
    assert_eq!(detail_text(&error, "guid").as_deref(), Some("at-9"));
    assert_eq!(error.status(), 404);
}

#[test]
fn incomplete_or_fileless_attachment_is_unavailable() {
    let pending = message_attachment(false, Some("~/Library/Messages/Attachments/a/b.png"));
    let error = attachment_file_to_serve("at-1", Some(&pending)).expect_err("transfer pending");
    assert_eq!(error.body.code, ErrorCode::MessageAttachmentUnavailable);
    assert_eq!(error.body.message, "attachment at-1 is not available");

    let fileless = message_attachment(true, None);
    let error = attachment_file_to_serve("at-1", Some(&fileless)).expect_err("no file");
    assert_eq!(error.body.code, ErrorCode::MessageAttachmentUnavailable);

    let error = attachment_path_to_serve("at-1", None).expect_err("outside the root");
    assert_eq!(error.body.message, "attachment at-1 is not available");
}

#[test]
fn complete_attachment_serves_its_file() {
    let ready = message_attachment(true, Some("~/Library/Messages/Attachments/a/b.png"));
    assert_eq!(
        attachment_file_to_serve("at-1", Some(&ready)).expect("servable"),
        "~/Library/Messages/Attachments/a/b.png"
    );
    assert_eq!(
        attachment_path_to_serve("at-1", Some("/root/a/b.png".to_owned())).expect("inside root"),
        "/root/a/b.png"
    );
}

#[test]
fn note_attachment_needs_account_and_file() {
    let found = note_attachment(Some("acct"), Some("image.jpeg"));
    assert_eq!(
        note_attachment_location("na-1", Some(&found)).expect("located"),
        ("acct".to_owned(), "image.jpeg".to_owned())
    );
    for attachment in [note_attachment(None, Some("image.jpeg")), note_attachment(Some("acct"), None)] {
        let error = note_attachment_location("na-1", Some(&attachment)).expect_err("incomplete");
        assert_eq!(error.body.code, ErrorCode::NoteAttachmentNotFound);
        assert_eq!(error.body.message, "note attachment na-1 not found");
        assert_eq!(detail_text(&error, "id").as_deref(), Some("na-1"));
    }
    assert!(note_attachment_location("na-1", None).is_err());
    assert!(note_attachment_path_to_serve("na-1", None).is_err());
    assert_eq!(note_attachment_path_to_serve("na-1", Some("/n/x".to_owned())).expect("ok"), "/n/x");
}

#[test]
fn event_attachment_needs_a_local_copy() {
    let error = event_attachment_file(None).expect_err("no attachment");
    assert_eq!(error.body.code, ErrorCode::EventAttachmentNotFound);
    let mut attachment = EventAttachment {
        id: "ea-1".to_owned(),
        row_id: 1,
        filename: Some("agenda.pdf".to_owned()),
        format: Some("com.adobe.pdf".to_owned()),
        file_size: Some(100),
        local_path: None,
    };
    let error = event_attachment_file(Some(&attachment)).expect_err("no local copy");
    assert_eq!(error.body.code, ErrorCode::EventAttachmentUnavailable);
    attachment.local_path = Some("Attachments/agenda.pdf".to_owned());
    assert_eq!(event_attachment_file(Some(&attachment)).expect("local"), "Attachments/agenda.pdf");
    assert_eq!(event_attachment_content_type(Some("com.adobe.pdf")), "application/pdf");
    assert_eq!(event_attachment_content_type(Some("public.png")), "image/png");
    assert_eq!(event_attachment_content_type(Some("public.heic")), "application/octet-stream");
    assert_eq!(event_attachment_content_type(None), "application/octet-stream");
}

#[test]
fn missing_note_names_the_note() {
    let error = note_not_found("n-42");
    assert_eq!(error.body.code, ErrorCode::NoteNotFound);
    assert_eq!(error.body.message, "note n-42 not found");
    assert_eq!(detail_text(&error, "note_id").as_deref(), Some("n-42"));
}
