use apple_connector::contacts::{
    contacts_access_requested, contacts_access_step, contacts_status, create_contact_input,
    group_not_caught_up, map_contacts_error, require_contacts_sources, require_contacts_store,
    update_contact_input, writable_container,
    ContactsAccessStep, ContactsAuthStatus, ContactsError, GROUP_READBACK_ATTEMPTS,
};
use apple_connector::dto::contacts::{CreateContactRequest, LabeledStringDto, UpdateContactRequest};
use apple_connector::dto::contacts_convert::contact_detail_to_dto;
use apple_connector::error_codes::ErrorCode;
use apple_connector::health::HealthStatus;
use apple_connector::model::contacts::{ContactDetail, ContactPhone, Container};

#[test]
fn map_contacts_read_only_to_forbidden() {
    let error = map_contacts_error(ContactsError::ReadOnlyContainer);
    assert_eq!(error.status(), 403);
}

#[test]
fn map_contacts_not_found() {
    let error = map_contacts_error(ContactsError::NotFound);
    assert_eq!(error.status(), 404);
}

#[test]
fn map_contacts_validation_failed() {
    let error = map_contacts_error(ContactsError::ValidationFailed("invalid".into()));
    assert_eq!(error.status(), 422);
    assert_eq!(error.body().message, "invalid");
}

#[test]
fn framework_messages_are_not_passed_on() {
    let error = map_contacts_error(ContactsError::Framework("CNErrorDomain 200 at /Users/x".into()));
    assert_eq!(error.body().code, ErrorCode::InternalError);
    assert!(!error.body().message.contains("/Users"));
}

#[test]
fn contacts_need_sources_and_healthy_pools() {
    assert!(require_contacts_sources(0).is_err());
    assert!(require_contacts_sources(2).is_ok());
    assert_eq!(contacts_status(&vec![]), HealthStatus::Unavailable);
    assert_eq!(contacts_status(&vec![true, true]), HealthStatus::Healthy);
    assert_eq!(contacts_status(&vec![true, false]), HealthStatus::Unavailable);
}

#[test]
fn limited_contacts_access_proceeds() {
    assert!(matches!(contacts_access_step(ContactsAuthStatus::Limited, false), ContactsAccessStep::Proceed));
    match contacts_access_step(ContactsAuthStatus::Restricted, false) {
        ContactsAccessStep::Refuse(e) => assert_eq!(e.status(), 403),
        other => panic!("unexpected {other:?}"),
    }
}

#[test]
fn contact_requests_become_store_inputs() {
    let request = CreateContactRequest {
        given_name: Some("Ada".into()),
        family_name: Some("Lovelace".into()),
        middle_name: None,
        nickname: None,
        organization_name: None,
        job_title: None,
        department_name: None,
        note: None,
        phone_numbers: vec![LabeledStringDto { label: Some("home".into()), value: "+1 555".into() }],
        email_addresses: vec![],
        postal_addresses: vec![],
        url_addresses: vec![],
    };
    let input = create_contact_input(request);
    assert_eq!(input.given_name.as_deref(), Some("Ada"));
    assert_eq!(input.phone_numbers.len(), 1);
    assert_eq!(input.phone_numbers[0].value, "+1 555");
    let update = UpdateContactRequest {
        given_name: None,
        family_name: None,
        middle_name: None,
        nickname: None,
        organization_name: None,
        job_title: None,
        department_name: None,
        note: Some(None),
        phone_numbers: None,
        email_addresses: Some(vec![]),
        postal_addresses: None,
        url_addresses: None,
    };
    let input = update_contact_input(update);
    assert!(input.phone_numbers.is_none());
    assert_eq!(input.email_addresses.map(|v| v.len()), Some(0));
    assert_eq!(input.note, Some(None));
}

#[test]
fn contact_detail_keeps_every_field() {
    let contact = ContactDetail {
        id: "c1".into(),
        source_id: "s1".into(),
        container_id: "k1".into(),
        display_name: Some("Ada Lovelace".into()),
        first_name: Some("Ada".into()),
        last_name: Some("Lovelace".into()),
        organization: None,
        modification_date: Some(10),
        middle_name: None,
        nickname: None,
        job_title: None,
        department: None,
        note: None,
        birthday: None,
        creation_date: Some(5),
        phones: vec![ContactPhone { id: "p".into(), label: None, number: "1".into(), is_primary: true }],
        emails: vec![],
        addresses: vec![],
        urls: vec![],
        social_profiles: vec![],
        group_ids: vec!["g1".into()],
        has_photo: true,
    };
    let dto = contact_detail_to_dto(&contact);
    assert_eq!(dto.summary.id, "c1");
    assert_eq!(dto.summary.display_name.as_deref(), Some("Ada Lovelace"));
    assert_eq!(dto.phones[0].number, "1");
    assert_eq!(dto.group_ids, vec!["g1".to_owned()]);
    assert!(dto.has_photo);
}

#[test]
fn writes_need_a_known_writable_container() {
    let error = writable_container(None).expect_err("unknown container");
    assert_eq!(error.status(), 404);
    assert_eq!(error.body.message, "container not found");

    let mut container = Container {
        id: "c1".to_owned(),
        source_id: "s1".to_owned(),
        name: Some("iCloud".to_owned()),
        container_type: 1,
        read_only: true,
    };
    let error = writable_container(Some(&container)).expect_err("read-only");
    assert_eq!(error.body.code, ErrorCode::Forbidden);
    assert_eq!(error.body.message, "cannot write to read-only container");
    container.read_only = false;
    assert!(writable_container(Some(&container)).is_ok());
}

#[test]
fn group_readback_gives_up_with_service_unavailable() {
    assert_eq!(GROUP_READBACK_ATTEMPTS, 5);
    let error = group_not_caught_up();
    assert_eq!(error.status(), 503);
    assert_eq!(error.body.message, "group created but SQLite read path has not caught up yet");
}

#[test]
fn a_failed_access_request_answers_with_its_store_error() {
    let error = contacts_access_requested(Err(ContactsError::AccessDenied)).expect_err("refused");
    assert_eq!(error.body.code, ErrorCode::ContactsAccessDenied);
    let error = contacts_access_requested(Err(ContactsError::Timeout)).expect_err("timed out");
    assert_eq!(error.body.code, ErrorCode::GatewayTimeout);
    assert!(contacts_access_requested(Ok(())).is_ok());
    // After a successful request the status is decided again, never asked twice.
    assert!(matches!(
        contacts_access_step(ContactsAuthStatus::NotDetermined, true),
        ContactsAccessStep::Refuse(_)
    ));
    assert!(matches!(
        contacts_access_step(ContactsAuthStatus::Authorized, true),
        ContactsAccessStep::Proceed
    ));
    assert_eq!(require_contacts_store(false).expect_err("no store").body.code, ErrorCode::ContactsUnavailable);
    assert!(require_contacts_store(true).is_ok());
}
