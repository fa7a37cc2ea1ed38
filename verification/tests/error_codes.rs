use apple_connector::error::ApiError;
use apple_connector::error_codes::ErrorCode;

#[test]
fn every_code_has_status_and_default_message() {
    for code in ErrorCode::all() {
        assert!(!code.default_message().is_empty(), "{code:?}");
        assert!(!code.as_str().is_empty(), "{code:?}");
        let _ = code.http_status();
    }
}

#[test]
fn representative_status_mappings() {
    assert_eq!(ErrorCode::MethodNotAllowed.http_status(), 405);
    assert_eq!(ErrorCode::UnprocessableEntity.http_status(), 422);
    assert_eq!(ErrorCode::QueryTimeout.http_status(), 504);
    assert_eq!(ErrorCode::ByteRangeNotSatisfiable.http_status(), 416);
    assert_eq!(ErrorCode::NoteAttachmentNotFound.http_status(), 404);
    assert_eq!(ErrorCode::UnsupportedAlarmKind.http_status(), 422);
}

#[test]
fn serialized_codes_are_snake_case() {
    assert_eq!(ErrorCode::NoteAttachmentNotFound.as_str(), "note_attachment_not_found");
    assert_eq!(ErrorCode::MethodNotAllowed.as_str(), "method_not_allowed");
}

#[test]
fn code_names_are_distinct_and_registry_is_complete() {
    let codes = ErrorCode::all();
    assert_eq!(codes.len(), 57);
    let mut names: Vec<&str> = codes.iter().map(|c| c.as_str()).collect();
    names.sort();
    names.dedup();
    assert_eq!(names.len(), codes.len());
    for code in &codes {
        let status = code.http_status();
        assert!((400..600).contains(&status), "{code:?}");
    }
}

#[test]
fn errors_carry_their_code_status_and_message() {
    let error = ApiError::new(ErrorCode::ChatNotFound);
    assert_eq!(error.status(), ErrorCode::ChatNotFound.http_status());
    assert_eq!(error.body().message, ErrorCode::ChatNotFound.default_message());
    assert!(error.body().details.is_none());
    let error = ApiError::internal("disk on fire".to_owned());
    assert_eq!(error.body().code, ErrorCode::InternalError);
    assert!(!error.body().message.contains("disk"));
    assert_eq!(ApiError::method_not_allowed().status(), 405);
    assert_eq!(ErrorCode::ImmutableEventField.as_str(), "immutable_event_field");
}
