use std::collections::BTreeSet;
use std::time::Duration;

use apple_connector::listing::{
    listing_step, named_not_found, start_listing, CursorPlan, ListingAction, ListingEvent,
    ListingShape, ListingState,
};

use apple_connector::health::{health_http_status, source_status, validate_page, HealthStatus, HealthStatusDto};
use apple_connector::hydrate::{
    hydrate_step, mutation_status, HydrateStep, HYDRATE_ATTEMPTS, HYDRATE_DELAY_MS,
};
use apple_connector::media::{check_served_status, media_headers};
use apple_connector::middleware::{
    method_not_allowed, request_timeout_secs, route_not_found, security_headers, timed_out,
};
use apple_connector::params::PageParams;
use apple_connector::routes::{operation_ids_unique, operations, HttpMethod};
use apple_connector::error_codes::ErrorCode;

#[test]
fn production_routes_expose_operation_ids() {
    let ops = operations();
    let operation_ids: BTreeSet<_> = ops.iter().map(|op| op.operation_id).collect();
    assert_eq!(operation_ids.len(), operations().len());
}

#[test]
fn operation_catalogue_is_unique_and_complete() {
    let ops = operations();
    assert!(operation_ids_unique(&ops));
    assert!(!ops.is_empty());
    assert!(ops.iter().any(|op| op.method == HttpMethod::Get && op.path == "/healthz" && op.operation_id == "getHealth"));
    assert!(ops.iter().any(|op| op.method == HttpMethod::Head && op.operation_id == "headAttachmentContent"));
    let mut duplicated = operations();
    duplicated.push(duplicated[0]);
    assert!(!operation_ids_unique(&duplicated));
}

#[test]
fn hydrate_retry_defaults_are_documented() {
    assert_eq!(HYDRATE_ATTEMPTS, 5);
    assert_eq!(Duration::from_millis(HYDRATE_DELAY_MS), Duration::from_millis(100));
}

#[test]
fn hydrate_gives_up_after_five_lookups() {
    let mut waits = 0;
    let mut attempt = 0;
    loop {
        match hydrate_step(attempt, false) {
            HydrateStep::Retry => {
                waits += 1;
                attempt += 1;
            },
            HydrateStep::Pending => break,
            HydrateStep::Found => unreachable!(),
        }
    }
    assert_eq!(attempt + 1, HYDRATE_ATTEMPTS);
    assert_eq!(waits, 4);
    assert_eq!(hydrate_step(2, true), HydrateStep::Found);
}

#[test]
fn health_is_ok_only_when_both_databases_are() {
    let all = HealthStatusDto { messages: HealthStatus::Healthy, reminders: HealthStatus::Healthy };
    assert_eq!(health_http_status(&all), 200);
    let messages_down = HealthStatusDto { messages: source_status(false, true), ..all };
    assert_eq!(messages_down.messages, HealthStatus::Unavailable);
    assert_eq!(health_http_status(&messages_down), 503);
    let degraded = HealthStatusDto { reminders: source_status(true, false), ..all };
    assert_eq!(health_http_status(&degraded), 503);
}

#[test]
fn page_validation_checks_limit_then_cursor() {
    let page = PageParams { limit: Some(0), cursor: Some("bad".into()) };
    assert_eq!(validate_page(&page).expect_err("limit").body.message, "limit must be between 1 and 200");
    let page = PageParams { limit: Some(10), cursor: Some("bad".into()) };
    assert_eq!(validate_page(&page).expect_err("cursor").body.message, "cursor must start with `v1.`");
    let page = PageParams { limit: None, cursor: Some("v1.x".into()) };
    assert_eq!(validate_page(&page).expect("ok"), 50);
}

#[test]
fn served_files_map_statuses_and_carry_headers() {
    assert!(check_served_status(200, ErrorCode::MessageAttachmentUnavailable).is_ok());
    assert!(check_served_status(206, ErrorCode::MessageAttachmentUnavailable).is_ok());
    let error = check_served_status(416, ErrorCode::MessageAttachmentUnavailable).expect_err("416");
    assert_eq!(error.body().code, ErrorCode::ByteRangeNotSatisfiable);
    let error = check_served_status(404, ErrorCode::NoteAttachmentUnavailable).expect_err("404");
    assert_eq!(error.body().code, ErrorCode::NoteAttachmentUnavailable);
    let error = check_served_status(503, ErrorCode::NoteAttachmentUnavailable).expect_err("5xx");
    assert_eq!(error.body().code, ErrorCode::InternalError);
    let headers = media_headers("image/jpeg", "inline", "\"abc\"", "Mon, 01 Jan 2024 12:00:00 GMT");
    assert_eq!(headers.len(), 6);
    assert_eq!(headers[4].name, "x-content-type-options");
    assert_eq!(headers[4].value, "nosniff");
    assert_eq!(headers[5].value, "bytes");
}

#[test]
fn timeouts_and_security_headers() {
    assert_eq!(request_timeout_secs("/v1/attachments/a/content"), 300);
    assert_eq!(request_timeout_secs("/v1/messages"), 30);
    assert_eq!(request_timeout_secs("/content/x"), 30);
    let headers = security_headers();
    let pairs: Vec<(String, String)> = headers.into_iter().map(|h| (h.name, h.value)).collect();
    assert!(pairs.contains(&("x-frame-options".to_owned(), "DENY".to_owned())));
    assert!(pairs.contains(&("cache-control".to_owned(), "no-store".to_owned())));
    assert_eq!(pairs.len(), 4);
}

#[test]
fn reminder_writes_answer_by_sync_state() {
    assert_eq!(mutation_status(false, true), 201);
    assert_eq!(mutation_status(false, false), 200);
    assert_eq!(mutation_status(true, true), 202);
    assert_eq!(mutation_status(true, false), 202);
}

#[test]
fn fallback_answers_are_json_errors() {
    let error = route_not_found();
    assert_eq!(error.status(), 404);
    assert_eq!(error.body.message, "route not found");
    assert_eq!(method_not_allowed().status(), 405);
    let error = timed_out();
    assert_eq!(error.body.code, ErrorCode::InternalError);
    assert_ne!(error.body.message, "request timed out");
}

#[test]
fn each_route_has_one_operation() {
    let ops = operations();
    let routes: BTreeSet<_> = ops.iter().map(|op| (op.method.name(), op.path)).collect();
    assert_eq!(routes.len(), ops.len());
    assert_eq!(ops.len(), 69);
}

#[test]
fn folder_listing_checks_in_order_and_stops_at_the_first_refusal() {
    let shape = ListingShape { entity_ids: true, scoped: true };
    let (mut state, first) = start_listing();
    let mut actions = vec![format!("{first:?}")];
    let events = vec![
        ListingEvent::Passed,
        ListingEvent::Passed,
        ListingEvent::KeyRead { needs_lookup: true },
        ListingEvent::Passed,
        ListingEvent::Passed,
        ListingEvent::Passed,
        ListingEvent::FiltersRead { text_search: false, filters_active: true },
        ListingEvent::Passed,
        ListingEvent::Passed,
    ];
    for event in events {
        let (next, action) = listing_step(shape, true, state, event);
        actions.push(format!("{action:?}"));
        state = next;
    }
    assert_eq!(
        actions,
        vec![
            "RequireDatabase",
            "LoadEntityIds",
            "ReadKey",
            "LookUpScope",
            "ValidateLimit",
            "ValidateCursor",
            "ValidateFilters",
            &format!("DecodeCursor({:?})", CursorPlan::FilteredListing),
            "RunQuery { text_search: false }",
            "Respond",
        ]
    );
    assert_eq!(state, ListingState::Finished);

    let (state, action) = listing_step(shape, false, ListingState::Limit, ListingEvent::Passed);
    assert_eq!(state, ListingState::Cursor);
    assert!(matches!(action, ListingAction::ValidateCursor));
    let refusal = named_not_found("note folder", "f1");
    let (state, action) =
        listing_step(shape, false, ListingState::Scope, ListingEvent::Failed(refusal));
    assert_eq!(state, ListingState::Finished);
    match action {
        ListingAction::Refuse(error) => assert_eq!(error.body.message, "note folder f1 not found"),
        other => panic!("unexpected {other:?}"),
    }
    let (_, action) = listing_step(
        ListingShape { entity_ids: false, scoped: false },
        false,
        ListingState::Filters,
        ListingEvent::FiltersRead { text_search: true, filters_active: true },
    );
    assert!(matches!(action, ListingAction::RunQuery { text_search: true }));
}
