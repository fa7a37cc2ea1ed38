use apple_connector::floats::double_value_of;
use apple_connector::error_codes::ErrorCode;
use apple_connector::filters::{
    ContentTypeFilter, DirectionFilter, FolderIdFilter, ListIdFilter, TransportFilter,
};
use apple_connector::params::{
    ContentTypeFilterDto, DirectionFilterDto, EventListParams, MessageListParams, NoteFolderKey,
    NoteListParams, PageParams, ReminderListKey, ReminderListParams, TransportFilterDto,
    MAX_SEARCH_QUERY_LEN,
};

fn message_params() -> MessageListParams {
    MessageListParams {
        limit: None,
        cursor: None,
        q: None,
        chat_id: None,
        sender: None,
        before: None,
        after: None,
        direction: None,
        transport: None,
        content_type: None,
        has_attachments: None,
    }
}

fn reminder_params() -> ReminderListParams {
    ReminderListParams {
        limit: None,
        cursor: None,
        completed: None,
        flagged: None,
        has_due_date: None,
        due_before: None,
        due_after: None,
        priority_min: None,
        has_notes: None,
        top_level_only: None,
        include_subtasks: None,
        include_tags: None,
        section_id: None,
        q: None,
        list_id: None,
    }
}

fn note_params() -> NoteListParams {
    NoteListParams {
        limit: None,
        cursor: None,
        q: None,
        folder_id: None,
        is_pinned: None,
        is_locked: None,
        has_checklist: None,
        has_attachments: None,
        include_deleted: None,
        modified_before: None,
        modified_after: None,
    }
}

fn event_params() -> EventListParams {
    EventListParams {
        limit: None,
        cursor: None,
        q: None,
        calendar_id: None,
        account_id: None,
        start: None,
        end: None,
        include_hidden: None,
        include_cancelled: None,
        format: None,
    }
}

#[test]
fn default_limit_is_50_and_max_is_200() {
    let page = PageParams { limit: None, cursor: None };
    assert_eq!(page.validated_limit().expect("default limit"), 50);

    let invalid_high = PageParams { limit: Some(201), cursor: None };
    assert!(invalid_high.validated_limit().is_err());

    let invalid_zero = PageParams { limit: Some(0), cursor: None };
    assert!(invalid_zero.validated_limit().is_err());
}

#[test]
fn note_folder_key_accepts_row_id_and_identifier() {
    assert!(matches!(NoteFolderKey::parse("42").expect("row id"), NoteFolderKey::Row(42)));
    assert!(matches!(
        NoteFolderKey::parse("DefaultFolder-CloudKit").expect("identifier"),
        NoteFolderKey::Id(id) if id == "DefaultFolder-CloudKit"
    ));
    assert!(NoteFolderKey::parse("").is_err());
    assert!(NoteFolderKey::parse("0").is_err());
}

#[test]
fn cursor_must_be_versioned_and_url_safe_prefix() {
    let valid = PageParams { limit: None, cursor: Some("v1.c2afe".to_owned()) };
    assert_eq!(valid.validated_cursor().expect("cursor"), Some("v1.c2afe"));

    let invalid = PageParams { limit: None, cursor: Some("offset:10".to_owned()) };
    assert!(invalid.validated_cursor().is_err());
}

#[test]
fn search_query_length_is_bounded() {
    let params = MessageListParams {
        q: Some("a".repeat(MAX_SEARCH_QUERY_LEN + 1)),
        ..message_params()
    };
    assert!(params.validated_filters().is_err());
}

#[test]
fn before_must_be_after_after_timestamp() {
    let params = MessageListParams {
        before: Some("2024-01-01T00:00:00Z".to_owned()),
        after: Some("2024-02-01T00:00:00Z".to_owned()),
        ..message_params()
    };
    assert!(params.validated_filters().is_err());
}

#[test]
fn limit_error_names_the_bounds() {
    let page = PageParams { limit: Some(0), cursor: None };
    let error = page.validated_limit().expect_err("zero limit");
    assert_eq!(error.body.code, ErrorCode::ValidationError);
    assert_eq!(error.body.message, "limit must be between 1 and 200");
    assert_eq!(error.status(), 400);
    let page = PageParams { limit: Some(200), cursor: None };
    assert_eq!(page.validated_limit().expect("maximum"), 200);
    let page = PageParams { limit: Some(1), cursor: None };
    assert_eq!(page.validated_limit().expect("minimum"), 1);
}

#[test]
fn message_filters_are_trimmed_and_converted() {
    let params = MessageListParams {
        q: Some("  hello  ".to_owned()),
        sender: Some("   ".to_owned()),
        chat_id: Some(7),
        direction: Some(DirectionFilterDto::Sent),
        transport: Some(TransportFilterDto::Sms),
        content_type: Some(ContentTypeFilterDto::GroupEvent),
        has_attachments: Some(false),
        before: Some("2001-01-01T00:00:01Z".to_owned()),
        ..message_params()
    };
    let filters = params.validated_filters().expect("filters");
    assert_eq!(filters.q.as_deref(), Some("hello"));
    assert_eq!(filters.sender, None);
    assert_eq!(filters.chat_id, Some(7));
    assert_eq!(filters.direction, Some(DirectionFilter::Sent));
    assert_eq!(filters.transport, Some(TransportFilter::Sms));
    assert_eq!(filters.content_type, Some(ContentTypeFilter::GroupEvent));
    assert_eq!(filters.has_attachments, Some(false));
    assert_eq!(filters.before, Some(1_000_000_000));
    assert_eq!(filters.after, None);
}

#[test]
fn message_filters_refuse_bad_timestamps_and_count_characters() {
    let params = MessageListParams { before: Some("not-a-date".to_owned()), ..message_params() };
    let error = params.validated_filters().expect_err("bad timestamp");
    assert_eq!(error.body.message, "timestamp must be RFC 3339");

    let params = MessageListParams {
        q: Some("é".repeat(257)),
        ..message_params()
    };
    let error = params.validated_filters().expect_err("257 characters");
    assert_eq!(error.body.message, "q must be at most 256 characters");
    let params = MessageListParams { q: Some("é".repeat(256)), ..message_params() };
    let filters = params.validated_filters().expect("256 characters, 512 bytes");
    assert_eq!(filters.q, Some("é".repeat(256)));
    let params = MessageListParams { q: Some("é".repeat(200)), ..message_params() };
    assert_eq!(params.validated_filters().expect("200 characters").q, Some("é".repeat(200)));

    let params = MessageListParams {
        before: Some("2024-01-01T00:00:00Z".to_owned()),
        after: Some("2024-01-01T00:00:00Z".to_owned()),
        ..message_params()
    };
    let error = params.validated_filters().expect_err("equal bounds");
    assert_eq!(error.body.message, "before must be later than after");
}

#[test]
fn checked_message_filters_report_overflowing_instants() {
    let params = MessageListParams {
        before: Some("9999-01-01T00:00:00Z".to_owned()),
        ..message_params()
    };
    assert!(params.validated_filters_checked().is_none());
    let params = MessageListParams {
        before: Some("2024-01-01T00:00:00Z".to_owned()),
        ..message_params()
    };
    assert!(matches!(params.validated_filters_checked(), Some(Ok(_))));
}

#[test]
fn reminder_list_key_reads_row_ids_and_uuids() {
    assert!(matches!(ReminderListKey::parse("12"), Ok(ReminderListKey::Row(12))));
    assert!(ReminderListKey::parse("0").is_err());
    assert!(ReminderListKey::parse("-3").is_err());
    match ReminderListKey::parse("AAAAAAAA-BBBB-CCCC-DDDD-EEEEEEEEEEEE") {
        Ok(ReminderListKey::Id(id)) => assert_eq!(id, "aaaaaaaa-bbbb-cccc-dddd-eeeeeeeeeeee"),
        other => panic!("unexpected {other:?}"),
    }
    let error = ReminderListKey::parse("inbox").expect_err("not a key");
    assert_eq!(error.body.message, "list_id must be a positive integer or UUID");
}

#[test]
fn reminder_filters_read_lists_and_due_bounds() {
    let params = ReminderListParams {
        list_id: Some(" 5 ".to_owned()),
        due_before: Some("978307260".to_owned()),
        due_after: Some("2001-01-01T00:00:30Z".to_owned()),
        section_id: Some("section".to_owned()),
        priority_min: Some(3),
        ..reminder_params()
    };
    let filters = params.validated_filters().expect("filters");
    assert!(matches!(filters.list_id, Some(ListIdFilter::RowId(5))));
    assert_eq!(filters.due_before, Some(60));
    assert_eq!(filters.due_after, Some(30));
    assert_eq!(filters.section_id.as_deref(), Some("section"));
    assert_eq!(filters.priority_min, Some(3));

    let params = ReminderListParams {
        list_id: Some("ABCDEF00-0000-0000-0000-000000000001".to_owned()),
        ..reminder_params()
    };
    match params.validated_filters().expect("uuid").list_id {
        Some(ListIdFilter::Uuid(id)) => assert_eq!(id, "abcdef00-0000-0000-0000-000000000001"),
        other => panic!("unexpected {other:?}"),
    }

    let params = ReminderListParams { list_id: Some("inbox".to_owned()), ..reminder_params() };
    assert!(params.validated_filters().is_err());
    let params = ReminderListParams { due_before: Some("soon".to_owned()), ..reminder_params() };
    let error = params.validated_filters().expect_err("bad due");
    assert_eq!(error.body.message, "timestamp must be RFC 3339 or Unix seconds");
}

#[test]
fn note_filters_read_folders_and_order_bounds() {
    let params = NoteListParams {
        folder_id: Some("DefaultFolder".to_owned()),
        modified_before: Some("978307300".to_owned()),
        modified_after: Some("978307200".to_owned()),
        ..note_params()
    };
    let filters = params.validated_filters().expect("filters");
    assert!(matches!(filters.folder_id, Some(FolderIdFilter::Identifier(ref id)) if id == "DefaultFolder"));
    assert_eq!(filters.modified_before, Some(100));
    assert_eq!(filters.modified_after, Some(0));

    let params = NoteListParams {
        modified_before: Some("978307200".to_owned()),
        modified_after: Some("978307300".to_owned()),
        ..note_params()
    };
    let error = params.validated_filters().expect_err("inverted");
    assert_eq!(error.body.message, "modified_before must be later than modified_after");
}

#[test]
fn event_filters_need_ordered_bounds() {
    let params = EventListParams { start: Some(10), end: Some(5), ..event_params() };
    let error = params.validated_filters().expect_err("inverted");
    assert_eq!(error.body.message, "start must be before or equal to end");

    let params = EventListParams {
        start: Some(978_307_200),
        end: Some(978_307_200),
        include_hidden: Some(true),
        calendar_id: Some("cal".to_owned()),
        ..event_params()
    };
    let filters = params.validated_filters().expect("filters");
    assert_eq!(filters.start_after, Some(0));
    assert_eq!(filters.start_before, Some(0));
    assert!(filters.include_hidden);
    assert!(!filters.include_cancelled);
    assert_eq!(filters.calendar_id.as_deref(), Some("cal"));
}

#[test]
fn note_modification_bounds_compare_as_doubles() {
    let offset: i64 = 978_307_200;
    let big: i64 = 1 << 53;
    let params = NoteListParams {
        modified_before: Some((offset + big + 1).to_string()),
        modified_after: Some((offset + big).to_string()),
        ..note_params()
    };
    let error = params.validated_filters().expect_err("equal once rounded");
    assert_eq!(error.body.message, "modified_before must be later than modified_after");

    let params = NoteListParams {
        modified_before: Some((offset + big + 3).to_string()),
        modified_after: Some((offset + big).to_string()),
        ..note_params()
    };
    let filters = params.validated_filters().expect("distinct once rounded");
    assert_eq!(filters.modified_before, Some(((big + 3) as f64) as i64));
    assert_eq!(filters.modified_after, Some(big));

    let params = NoteListParams {
        modified_before: Some((offset + 100).to_string()),
        modified_after: Some(offset.to_string()),
        ..note_params()
    };
    let filters = params.validated_filters().expect("small bounds are exact");
    assert_eq!((filters.modified_before, filters.modified_after), (Some(100), Some(0)));
}

#[test]
fn double_value_matches_the_float_conversion() {
    let mut samples: Vec<i64> = vec![0, 1, -1, 12345, -987_654_321, i64::MIN, i64::MIN + 1];
    for shift in 52..63 {
        let base: i64 = 1i64 << shift;
        for delta in [-3i64, -2, -1, 0, 1, 2, 3, 511, 512, 513, 1023, 1024, 1025] {
            samples.push(base.wrapping_add(delta));
            samples.push(-base.wrapping_add(delta));
        }
    }
    samples.push(0x7fff_ffff_ffff_fbff);
    for x in samples {
        if x < 0x7fff_ffff_ffff_fc00 {
            assert_eq!(double_value_of(x), (x as f64) as i64, "{x}");
        }
    }
}
