use apple_connector::cursor::{
    decode_cursor_bytes, encode_cursor_bytes, ChatListCursor, ContactListCursor,
    GlobalMessageCursor, ListCursor, MessageSearchCursor,
};
use apple_connector::filters::{
    event_filters_match, note_filters_match, reminder_filters_match, DirectionFilter,
    EventFilters, FolderIdFilter, ListIdFilter, MessageFilters, NoteFilters, ReminderFilters,
};
use apple_connector::error_codes::ErrorCode;

fn global_json(cursor: &GlobalMessageCursor) -> String {
    format!("{{\"date\":{},\"row_id\":{}}}", cursor.date, cursor.row_id)
}

fn parse_global(bytes: &[u8]) -> Option<GlobalMessageCursor> {
    let value: serde_json::Value = serde_json::from_slice(bytes).ok()?;
    Some(GlobalMessageCursor { date: value.get("date")?.as_i64()?, row_id: value.get("row_id")?.as_i64()? })
}

fn parse_chat_list(bytes: &[u8]) -> Option<ChatListCursor> {
    let value: serde_json::Value = serde_json::from_slice(bytes).ok()?;
    Some(ChatListCursor {
        message_date: value.get("message_date")?.as_i64()?,
        message_id: value.get("message_id")?.as_i64()?,
        chat_id: value.get("chat_id")?.as_i64()?,
    })
}

#[test]
fn round_trips_global_message_cursor() -> Result<(), Box<dyn std::error::Error>> {
    let cursor = GlobalMessageCursor { date: 123, row_id: 456 };
    let encoded = encode_cursor_bytes(global_json(&cursor).as_bytes());
    assert!(encoded.starts_with("v1."));
    let bytes = decode_cursor_bytes(&encoded).map_err(|e| format!("{e:?}"))?;
    let decoded = GlobalMessageCursor::from_payload(parse_global(&bytes)).map_err(|e| format!("{e:?}"))?;
    assert_eq!(decoded, cursor);
    Ok(())
}

#[test]
fn round_trips_chat_list_cursor() -> Result<(), Box<dyn std::error::Error>> {
    let cursor = ChatListCursor { message_date: 100, message_id: 200, chat_id: 3 };
    let json = format!(
        "{{\"message_date\":{},\"message_id\":{},\"chat_id\":{}}}",
        cursor.message_date, cursor.message_id, cursor.chat_id
    );
    let encoded = encode_cursor_bytes(json.as_bytes());
    let bytes = decode_cursor_bytes(&encoded).map_err(|e| format!("{e:?}"))?;
    let decoded = ChatListCursor::from_payload(parse_chat_list(&bytes)).map_err(|e| format!("{e:?}"))?;
    assert_eq!(decoded, cursor);
    Ok(())
}

#[test]
fn rejects_cursor_with_zero_row_id() -> Result<(), Box<dyn std::error::Error>> {
    let cursor = GlobalMessageCursor { date: 123, row_id: 0 };
    let encoded = encode_cursor_bytes(global_json(&cursor).as_bytes());
    let bytes = decode_cursor_bytes(&encoded).map_err(|e| format!("{e:?}"))?;
    match GlobalMessageCursor::from_payload(parse_global(&bytes)) {
        Err(err) => assert!(format!("{err:?}").contains("row_id")),
        Ok(_) => return Err("zero row_id cursor should be rejected".into()),
    }
    Ok(())
}

#[test]
fn cursor_bytes_round_trip_exactly() {
    for payload in [&b""[..], &b"x"[..], &b"{\"row_id\":1}"[..], &[0u8, 255, 128, 7][..]] {
        let encoded = encode_cursor_bytes(payload);
        assert!(encoded.starts_with("v1."));
        assert_eq!(decode_cursor_bytes(&encoded).expect("decodes"), payload.to_vec());
    }
    assert_eq!(encode_cursor_bytes(b"{\"row_id\":1}"), "v1.eyJyb3dfaWQiOjF9");
}

#[test]
fn unversioned_and_malformed_cursors_are_refused() {
    let error = decode_cursor_bytes("v2.eyJ9").expect_err("wrong version");
    assert_eq!(error.body.code, ErrorCode::InvalidCursor);
    assert_eq!(error.body.message, "cursor must start with `v1.`");
    let error = decode_cursor_bytes("v1.@@@").expect_err("not base64url");
    assert_eq!(error.body.message, "cursor is not valid base64url");
    let error = decode_cursor_bytes("v1.eyJ9==").expect_err("padding is refused");
    assert_eq!(error.body.message, "cursor is not valid base64url");
}

#[test]
fn payload_keys_are_checked_in_order() {
    let error = GlobalMessageCursor::from_payload(None).expect_err("unparsed");
    assert_eq!(error.body.message, "cursor payload is invalid");
    let error = GlobalMessageCursor::from_payload(Some(GlobalMessageCursor { date: 0, row_id: 1 }))
        .expect_err("zero date");
    assert!(format!("{error:?}").contains("date"));
    let error = ChatListCursor::from_payload(Some(ChatListCursor {
        message_date: 1,
        message_id: 1,
        chat_id: 0,
    }))
    .expect_err("zero chat");
    assert!(format!("{error:?}").contains("chat_id"));
    assert!(ListCursor::from_payload(Some(ListCursor { row_id: 9 })).is_ok());
    let contact = ContactListCursor { source_id: String::new(), row_id: 4 };
    assert!(format!("{:?}", contact.validate().expect_err("empty source")).contains("source_id"));
    let error = GlobalMessageCursor::from_unfiltered_payload(
        true,
        Some(GlobalMessageCursor { date: 1, row_id: 1 }),
    )
    .expect_err("made under filters");
    assert_eq!(error.body.message, "cursor does not match the active filters");
}

fn search_filters(q: &str) -> MessageFilters {
    MessageFilters {
        q: Some(q.to_owned()),
        chat_id: None,
        sender: None,
        before: None,
        after: Some(10),
        direction: Some(DirectionFilter::Sent),
        transport: None,
        content_type: None,
        has_attachments: None,
    }
}

#[test]
fn search_cursor_must_match_active_filters() {
    let cursor = MessageSearchCursor { date: 5, row_id: 6, filters: search_filters("hello") };
    let accepted =
        MessageSearchCursor::from_payload_for_filters(Some(cursor.clone()), &search_filters("hello"))
            .expect("same filters");
    assert_eq!((accepted.date, accepted.row_id), (5, 6));

    let error =
        MessageSearchCursor::from_payload_for_filters(Some(cursor.clone()), &search_filters("bye"))
            .expect_err("other query");
    assert_eq!(error.body.code, ErrorCode::ValidationError);
    assert_eq!(error.body.message, "cursor does not match the active filters");

    let mut other = search_filters("hello");
    other.direction = Some(DirectionFilter::Received);
    assert!(MessageSearchCursor::from_payload_for_filters(Some(cursor), &other).is_err());

    let bad = MessageSearchCursor { date: 0, row_id: 6, filters: search_filters("hello") };
    let error = MessageSearchCursor::from_payload_for_filters(Some(bad), &search_filters("hello"))
        .expect_err("zero date");
    assert_eq!(error.body.code, ErrorCode::InvalidCursor);
    assert!(format!("{error:?}").contains("date"));

    let error = MessageSearchCursor::from_payload_for_filters(None, &search_filters("hello"))
        .expect_err("unparsed");
    assert_eq!(error.body.message, "cursor payload is invalid");
}

#[test]
fn issued_cursors_are_url_safe_and_unpadded() {
    for payload in [&b""[..], &b"a"[..], &b"ab"[..], &b"abc"[..], &[0xfbu8, 0xff, 0xfe, 0x3e][..]] {
        let cursor = encode_cursor_bytes(payload);
        let body = &cursor[3..];
        assert!(body.chars().all(|c| c.is_ascii_alphanumeric() || c == '-' || c == '_'), "{cursor}");
        let expected = payload.len() / 3 * 4 + [0, 2, 3][payload.len() % 3];
        assert_eq!(body.len(), expected);
    }
    assert_eq!(encode_cursor_bytes(&[0xfb, 0xff]), "v1.-_8");
}

#[test]
fn list_and_contact_cursors_round_trip_through_json() {
    for row_id in [1i64, 42, i64::MAX] {
        let bytes = decode_cursor_bytes(&encode_cursor_bytes(format!("{{\"row_id\":{row_id}}}").as_bytes()))
            .expect("decodes");
        let value: serde_json::Value = serde_json::from_slice(&bytes).expect("json");
        let parsed = value.get("row_id").and_then(|v| v.as_i64()).map(|row_id| ListCursor { row_id });
        assert_eq!(ListCursor::from_payload(parsed).expect("valid"), ListCursor { row_id });
    }
    let json = "{\"source_id\":\"src-1\",\"row_id\":7}";
    let bytes = decode_cursor_bytes(&encode_cursor_bytes(json.as_bytes())).expect("decodes");
    let value: serde_json::Value = serde_json::from_slice(&bytes).expect("json");
    let parsed = ContactListCursor {
        source_id: value["source_id"].as_str().expect("text").to_owned(),
        row_id: value["row_id"].as_i64().expect("number"),
    };
    let cursor = ContactListCursor::from_payload(Some(parsed)).expect("valid");
    assert_eq!((cursor.source_id.as_str(), cursor.row_id), ("src-1", 7));
    let error = ListCursor::from_payload(Some(ListCursor { row_id: 0 })).expect_err("zero");
    assert_eq!(error.status(), 400);
    assert_eq!(error.body.code, ErrorCode::InvalidCursor);
}

#[test]
fn reminder_note_and_event_filters_compare_field_by_field() {
    let reminders = ReminderFilters {
        q: Some("milk".to_owned()),
        completed: Some(false),
        flagged: None,
        list_id: Some(ListIdFilter::Uuid("L1".to_owned())),
        section_id: None,
        has_due_date: None,
        due_before: Some(10),
        due_after: None,
        priority_min: Some(1),
        has_notes: None,
        top_level_only: Some(true),
    };
    assert!(reminder_filters_match(&reminders, &reminders.clone()));
    let mut moved = reminders.clone();
    moved.list_id = Some(ListIdFilter::RowId(3));
    assert!(!reminder_filters_match(&reminders, &moved));

    let notes = NoteFilters {
        q: None,
        folder_id: Some(FolderIdFilter::Identifier("F".to_owned())),
        is_pinned: Some(true),
        is_locked: None,
        has_checklist: None,
        has_attachments: None,
        include_deleted: None,
        modified_before: Some(100),
        modified_after: None,
    };
    assert!(note_filters_match(&notes, &notes.clone()));
    let mut later = notes.clone();
    later.modified_before = Some(101);
    assert!(!note_filters_match(&notes, &later));

    let events = EventFilters {
        q: None,
        calendar_id: Some("cal".to_owned()),
        account_id: None,
        start_after: Some(1),
        start_before: None,
        include_hidden: false,
        include_cancelled: false,
    };
    assert!(event_filters_match(&events, &events.clone()));
    let mut hidden = events.clone();
    hidden.include_hidden = true;
    assert!(!event_filters_match(&events, &hidden));
}
