use apple_connector::error::DetailValue;
use apple_connector::error_codes::ErrorCode;
use apple_connector::eventkit::{
    access_step, alarm_input, auth_status_to_dto, calendar_hint, create_event_input,
    create_reminder_input, delete_event_input, map_eventkit_error, reminder_target_list,
    reminder_write_list,
    update_event_input,
    update_reminder_input, validate_create_event, validate_create_reminder,
    validate_update_event, validate_update_reminder, AccessStep, AlarmInputDto, AlarmKind,
    AlarmKindDto, AuthStatus, CalendarResolveMetadata, CalendarStoreType, CreateEventRequest,
    CreateReminderRequest, EventKitAuthStatusDto, EventKitDomain, EventKitError, EventSpan,
    EventSpanDto, EventStatusInputDto, LocationInputDto, ReminderListResolveMetadata,
    UpdateEventRequest,
    UpdateReminderRequest,
};
use apple_connector::floats::FloatBits;
use apple_connector::reminder_write::{
    reminder_write_step, start_reminder_write, ReminderWriteAction, ReminderWriteEvent,
    ReminderWriteKind, ReminderWriteState,
};

fn detail_text(error: &apple_connector::error::ApiError, key: &str) -> Option<String> {
    error.body.details.as_ref()?.iter().find(|e| e.key == key).and_then(|e| match &e.value {
        DetailValue::Text(t) => Some(t.clone()),
        DetailValue::Number(_) => None,
    })
}

fn coordinate(value: f64) -> FloatBits {
    FloatBits { bits: value.to_bits() }
}

fn create_reminder() -> CreateReminderRequest {
    CreateReminderRequest {
        title: "Test".into(),
        notes: None,
        due: None,
        completed: None,
        priority: None,
        url: None,
        location: None,
        alarms: Vec::new(),
        recurrence: None,
        section_id: None,
        parent_id: None,
        tags: Vec::new(),
        attachments: Vec::new(),
        flagged: None,
    }
}

fn reminder_location(latitude: Option<f64>, longitude: Option<f64>) -> LocationInputDto {
    LocationInputDto {
        title: Some("Office".into()),
        latitude: latitude.map(coordinate),
        longitude: longitude.map(coordinate),
    }
}

fn create_reminder_with_location(location: LocationInputDto) -> CreateReminderRequest {
    CreateReminderRequest { location: Some(location), ..create_reminder() }
}

fn create_event(status: Option<EventStatusInputDto>) -> CreateEventRequest {
    CreateEventRequest {
        summary: "Test".into(),
        description: None,
        start: 1_700_000_000,
        end: 1_700_003_600,
        all_day: false,
        url: None,
        status,
        location: None,
        alarms: Vec::new(),
        recurrence: None,
    }
}

#[test]
fn validate_create_reminder_rejects_unsupported_section_id() -> Result<(), Box<dyn std::error::Error>> {
    let request = CreateReminderRequest {
        section_id: Some("00000000-0000-0000-0000-000000000001".to_owned()),
        ..create_reminder()
    };
    let error = validate_create_reminder(&request)
        .err()
        .ok_or("expected create reminder validation error")?;
    assert_eq!(error.status(), 422);
    Ok(())
}

#[test]
fn validate_update_reminder_rejects_unsupported_tags() -> Result<(), Box<dyn std::error::Error>> {
    let request = UpdateReminderRequest { tags: vec!["work".into()], ..UpdateReminderRequest::default() };
    let error = validate_update_reminder(&request)
        .err()
        .ok_or("expected update reminder validation error")?;
    assert_eq!(error.status(), 422);
    Ok(())
}

#[test]
fn create_rejects_event_status_as_immutable() -> Result<(), Box<dyn std::error::Error>> {
    let request = create_event(Some(EventStatusInputDto::Cancelled));
    let error = create_event_input(request).err().ok_or("expected event status to be rejected")?;
    assert_eq!(error.status(), 422);
    assert_eq!(error.body().code.as_str(), "immutable_event_field");
    assert_eq!(detail_text(&error, "field").as_deref(), Some("status"));
    Ok(())
}

#[test]
fn update_rejects_event_status_as_immutable() -> Result<(), Box<dyn std::error::Error>> {
    let request = UpdateEventRequest {
        status: Some(EventStatusInputDto::Confirmed),
        ..UpdateEventRequest::default()
    };
    let error = update_event_input(request, None, EventSpanDto::This)
        .err()
        .ok_or("expected event status to be rejected")?;
    assert_eq!(error.status(), 422);
    assert_eq!(error.body().code.as_str(), "immutable_event_field");
    Ok(())
}

#[test]
fn an_event_without_status_still_converts() -> Result<(), Box<dyn std::error::Error>> {
    let input = update_event_input(UpdateEventRequest::default(), None, EventSpanDto::This)
        .map_err(|e| format!("{e:?}"))?;
    assert_eq!(input.span, EventSpan::This);
    Ok(())
}

#[test]
fn a_text_only_reminder_location_is_accepted() -> Result<(), Box<dyn std::error::Error>> {
    let request = create_reminder_with_location(reminder_location(None, None));
    validate_create_reminder(&request).map_err(|e| format!("{e:?}"))?;
    let input = create_reminder_input(request).map_err(|e| format!("{e:?}"))?;
    assert_eq!(input.location.and_then(|location| location.title), Some("Office".into()));
    Ok(())
}

#[test]
fn reminder_location_coordinates_are_rejected() -> Result<(), Box<dyn std::error::Error>> {
    for location in [
        reminder_location(Some(51.5), None),
        reminder_location(None, Some(-0.12)),
        reminder_location(Some(51.5), Some(-0.12)),
    ] {
        let request = create_reminder_with_location(location);
        let error = validate_create_reminder(&request)
            .err()
            .ok_or("expected reminder coordinates to be rejected")?;
        assert_eq!(error.status(), 422);
        assert_eq!(error.body().code.as_str(), "unsupported_reminder_field");
        assert!(
            detail_text(&error, "field").is_some_and(|field| field.starts_with("location.")),
            "the rejected field should be named"
        );
        assert!(create_reminder_input(request).is_err());
    }
    Ok(())
}

#[test]
fn update_reminder_rejects_coordinates() -> Result<(), Box<dyn std::error::Error>> {
    let request = UpdateReminderRequest {
        location: Some(Some(reminder_location(Some(51.5), Some(-0.12)))),
        ..UpdateReminderRequest::default()
    };
    assert!(validate_update_reminder(&request).is_err());
    assert!(update_reminder_input(request, None).is_err());
    Ok(())
}

#[test]
fn event_locations_keep_their_coordinates() -> Result<(), Box<dyn std::error::Error>> {
    let request = UpdateEventRequest {
        location: Some(Some(reminder_location(Some(51.5), Some(-0.12)))),
        ..UpdateEventRequest::default()
    };
    let input = update_event_input(request, None, EventSpanDto::This).map_err(|e| format!("{e:?}"))?;
    let location = input.location.flatten().ok_or("expected the event location to survive conversion")?;
    assert_eq!(location.latitude.map(|c| f64::from_bits(c.bits)), Some(51.5));
    assert_eq!(location.longitude.map(|c| f64::from_bits(c.bits)), Some(-0.12));
    Ok(())
}

#[test]
fn map_eventkit_read_only_to_forbidden() {
    let error = map_eventkit_error(EventKitError::ReadOnlyCalendar);
    assert_eq!(error.status(), 403);
}

#[test]
fn map_eventkit_end_before_start_matches_the_create_path() {
    let error = map_eventkit_error(EventKitError::EndBeforeStart);
    assert_eq!(error.status(), 422);
    assert_eq!(error.body().code, ErrorCode::EventEndBeforeStart);
}

#[test]
fn map_eventkit_not_found() {
    let error = map_eventkit_error(EventKitError::NotFound);
    assert_eq!(error.status(), 404);
}

#[test]
fn alarm_input_rejects_location_and_unknown_kinds() -> Result<(), Box<dyn std::error::Error>> {
    for kind in [AlarmKindDto::Location, AlarmKindDto::Unknown] {
        let error = alarm_input(AlarmInputDto { kind, at: None, offset_seconds: Some(-600) })
            .err()
            .ok_or("expected unsupported alarm kind")?;
        assert_eq!(error.status(), 422);
        assert_eq!(error.body().code.as_str(), "unsupported_alarm_kind");
        assert_eq!(detail_text(&error, "field").as_deref(), Some("alarms.kind"));
    }
    Ok(())
}

#[test]
fn alarm_input_accepts_relative_and_absolute() -> Result<(), Box<dyn std::error::Error>> {
    let relative = alarm_input(AlarmInputDto {
        kind: AlarmKindDto::Relative,
        at: None,
        offset_seconds: Some(-600),
    })
    .map_err(|e| format!("{e:?}"))?;
    assert_eq!(relative.kind, AlarmKind::Relative);
    assert_eq!(relative.offset_seconds, Some(-600));

    let absolute = alarm_input(AlarmInputDto {
        kind: AlarmKindDto::Absolute,
        at: Some(1_700_000_000),
        offset_seconds: None,
    })
    .map_err(|e| format!("{e:?}"))?;
    assert_eq!(absolute.kind, AlarmKind::Absolute);
    assert_eq!(absolute.at, Some(1_700_000_000));
    Ok(())
}

#[test]
fn maps_denied_auth_status() {
    assert_eq!(auth_status_to_dto(AuthStatus::Denied), EventKitAuthStatusDto::Denied);
}

#[test]
fn create_event_checks_status_then_range() {
    assert!(validate_create_event(&create_event(None)).is_ok());
    let mut inverted = create_event(None);
    inverted.end = inverted.start - 1;
    let error = validate_create_event(&inverted).expect_err("end before start");
    assert_eq!(error.body().code, ErrorCode::EventEndBeforeStart);
    inverted.status = Some(EventStatusInputDto::Tentative);
    let error = validate_create_event(&inverted).expect_err("status first");
    assert_eq!(error.body().code, ErrorCode::ImmutableEventField);
    let update = UpdateEventRequest { start: Some(10), end: Some(5), ..UpdateEventRequest::default() };
    assert!(validate_update_event(&update).is_ok());
}

#[test]
fn reminder_checks_priority_first() {
    let request = CreateReminderRequest {
        priority: Some(10),
        location: Some(reminder_location(Some(1.0), None)),
        ..create_reminder()
    };
    let error = validate_create_reminder(&request).expect_err("priority");
    assert_eq!(error.body().code, ErrorCode::UnprocessableEntity);
    let request = CreateReminderRequest { priority: Some(9), flagged: Some(true), ..create_reminder() };
    let error = validate_create_reminder(&request).expect_err("flag");
    assert_eq!(detail_text(&error, "field").as_deref(), Some("flagged"));
}

#[test]
fn store_hints_and_deletions() {
    let hint = calendar_hint(CalendarResolveMetadata {
        api_id: "cal".into(),
        external_id: None,
        title: "Home".into(),
        store_type: 3,
    });
    assert_eq!(hint.store_type, CalendarStoreType::Subscription);
    let hint = calendar_hint(CalendarResolveMetadata {
        api_id: "cal".into(),
        external_id: None,
        title: "Home".into(),
        store_type: 42,
    });
    assert_eq!(hint.store_type, CalendarStoreType::Local);
    let delete = delete_event_input(EventSpanDto::Future, Some(5));
    assert_eq!(delete.span, EventSpan::Future);
    assert_eq!(delete.occurrence_start, Some(5));
}

#[test]
fn access_is_requested_once_then_decided() {
    assert!(matches!(access_step(AuthStatus::WriteOnly, false, EventKitDomain::Events), AccessStep::Proceed));
    assert!(matches!(access_step(AuthStatus::NotDetermined, false, EventKitDomain::Reminders), AccessStep::RequestAccess));
    match access_step(AuthStatus::NotDetermined, true, EventKitDomain::Reminders) {
        AccessStep::Refuse(error) => assert_eq!(error.status(), 503),
        other => panic!("unexpected {other:?}"),
    }
    match access_step(AuthStatus::Denied, false, EventKitDomain::Events) {
        AccessStep::Refuse(error) => {
            assert_eq!(error.status(), 403);
            assert!(error.body().message.starts_with("Calendar access denied"));
        },
        other => panic!("unexpected {other:?}"),
    }
}

#[test]
fn reminders_are_written_only_to_known_standard_lists() {
    let error = reminder_target_list(None).expect_err("unknown list");
    assert_eq!(error.body.code, ErrorCode::ReminderListNotFound);
    assert_eq!(error.status(), 404);

    let smart = ReminderListResolveMetadata {
        api_id: "smart-1".to_owned(),
        external_id: None,
        title: "Today".to_owned(),
        is_smart_list: true,
    };
    let error = reminder_target_list(Some(smart)).expect_err("smart list");
    assert_eq!(error.body.code, ErrorCode::SmartListReadOnly);

    let standard = ReminderListResolveMetadata {
        api_id: "list-1".to_owned(),
        external_id: Some("x-apple-list".to_owned()),
        title: "Groceries".to_owned(),
        is_smart_list: false,
    };
    let hint = reminder_target_list(Some(standard)).expect("standard list");
    assert_eq!(hint.api_id, "list-1");
    assert_eq!(hint.external_id.as_deref(), Some("x-apple-list"));
    assert_eq!(hint.title, "Groceries");
    assert!(!hint.is_smart_list);
}

#[test]
fn an_update_moves_a_reminder_only_to_a_known_standard_list() {
    let standard = ReminderListResolveMetadata {
        api_id: "list-2".to_owned(),
        external_id: None,
        title: "Errands".to_owned(),
        is_smart_list: false,
    };
    assert!(reminder_write_list(None, None).expect("no move").is_none());
    let hint = reminder_write_list(Some("list-2"), Some(standard)).expect("move").expect("hint");
    assert_eq!(hint.api_id, "list-2");
    let error = reminder_write_list(Some("list-9"), None).expect_err("unknown");
    assert_eq!(error.body.code, ErrorCode::ReminderListNotFound);
    let smart = ReminderListResolveMetadata {
        api_id: "smart".to_owned(),
        external_id: None,
        title: "Flagged".to_owned(),
        is_smart_list: true,
    };
    let error = reminder_write_list(Some("smart"), Some(smart)).expect_err("smart");
    assert_eq!(error.body.code, ErrorCode::SmartListReadOnly);
}

#[test]
fn reminder_writes_follow_their_steps_in_order() {
    let kind = ReminderWriteKind::Update { moves: true };
    let (mut state, first) = start_reminder_write();
    let mut actions = vec![format!("{first:?}")];
    let mut events = vec![ReminderWriteEvent::Passed; 8];
    events.push(ReminderWriteEvent::ReadBack { sync_pending: true });
    for event in events {
        let (next, action) = reminder_write_step(kind, state, event);
        actions.push(format!("{action:?}"));
        state = next;
    }
    assert_eq!(
        actions,
        vec![
            "ValidateRequest",
            "RequireDatabase",
            "LoadEntityIds",
            "RequireEventKit",
            "ValidatePath",
            "ResolveList",
            "LookUpExternalId",
            "Write",
            "ReadBack",
            "Respond { status: 202 }",
        ]
    );
    assert_eq!(state, ReminderWriteState::Finished);

    let (_, action) = reminder_write_step(
        ReminderWriteKind::Create,
        ReminderWriteState::ReadBack,
        ReminderWriteEvent::ReadBack { sync_pending: false },
    );
    assert!(matches!(action, ReminderWriteAction::Respond { status: 201 }));
    let (_, action) = reminder_write_step(
        ReminderWriteKind::Update { moves: false },
        ReminderWriteState::Path,
        ReminderWriteEvent::Passed,
    );
    assert!(matches!(action, ReminderWriteAction::LookUpExternalId));
    let refusal = reminder_target_list(None).expect_err("unknown list");
    let (state, action) = reminder_write_step(
        ReminderWriteKind::Create,
        ReminderWriteState::List,
        ReminderWriteEvent::Failed(refusal),
    );
    assert_eq!(state, ReminderWriteState::Finished);
    assert!(matches!(action, ReminderWriteAction::Refuse(_)));
}
