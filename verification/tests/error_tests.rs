use rusty_gemini::api::{GeminiGenericError, GeminiGenericErrorResponse};
use rusty_gemini::error::{resolve, GeminiError, GeminiErrorKind};

fn envelope(status: &str) -> GeminiGenericError {
    GeminiGenericError { code: 429, message: "quota".to_string(), status: status.to_string() }
}

#[test]
fn resource_exhausted_status_maps_to_its_kind() {
    let err = GeminiError::from(envelope("RESOURCE_EXHAUSTED"));
    assert_eq!(err.kind, GeminiErrorKind::ResourceExhausted);
    assert_eq!(err.message, "quota");
}

#[test]
fn unrecognized_status_maps_to_other() {
    let err = GeminiError::from(envelope("WEIRD"));
    assert_eq!(err.kind, GeminiErrorKind::Other);
    assert_eq!(err.message, "quota");
}

#[test]
fn every_status_of_the_table_maps_to_its_kind() {
    assert_eq!(GeminiErrorKind::from_status("INVALID_ARGUMENT"), GeminiErrorKind::InvalidArgument);
    assert_eq!(
        GeminiErrorKind::from_status("FAILED_PRECONDITION"),
        GeminiErrorKind::UnsupportedCountry
    );
    assert_eq!(
        GeminiErrorKind::from_status("PERMISSION_DENIED"),
        GeminiErrorKind::PermissionDenied
    );
    assert_eq!(
        GeminiErrorKind::from_status("RESOURCE_EXHAUSTED"),
        GeminiErrorKind::ResourceExhausted
    );
    assert_eq!(GeminiErrorKind::from_status("INTERNAL"), GeminiErrorKind::Internal);
    assert_eq!(GeminiErrorKind::from_status("UNAVAILABLE"), GeminiErrorKind::ServiceUnavailable);
}

#[test]
fn status_matching_is_exact() {
    assert_eq!(GeminiErrorKind::from_status(""), GeminiErrorKind::Other);
    assert_eq!(GeminiErrorKind::from_status("internal"), GeminiErrorKind::Other);
    assert_eq!(GeminiErrorKind::from_status("INTERNAL "), GeminiErrorKind::Other);
    assert_eq!(GeminiErrorKind::from_status("UNAVAILABLE_"), GeminiErrorKind::Other);
}

#[test]
fn local_failure_is_other_with_its_message() {
    let err = GeminiError::message("connection reset");
    assert_eq!(err.kind, GeminiErrorKind::Other);
    assert_eq!(err.message, "connection reset");
}

#[test]
fn resolve_prefers_the_payload() {
    let r = resolve(
        Some(7u32),
        Ok(GeminiGenericErrorResponse { error: envelope("INTERNAL") }),
    );
    assert_eq!(r, Ok(7u32));
}

#[test]
fn resolve_maps_the_envelope_when_there_is_no_payload() {
    let r = resolve::<u32>(None, Ok(GeminiGenericErrorResponse { error: envelope("INTERNAL") }));
    assert_eq!(
        r,
        Err(GeminiError { kind: GeminiErrorKind::Internal, message: "quota".to_string() })
    );
}

#[test]
fn resolve_carries_the_parse_message_when_nothing_parsed() {
    let r = resolve::<u32>(None, Err("expected value at line 1 column 1".to_string()));
    assert_eq!(
        r,
        Err(GeminiError {
            kind: GeminiErrorKind::Other,
            message: "expected value at line 1 column 1".to_string()
        })
    );
}
