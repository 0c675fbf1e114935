use oramacore_client::client::{credential_for, error_for_status, is_success, ApiKeyPosition, Credential};
use oramacore_client::error::OramaError;

#[test]
fn test_error_creation() {
    let auth_error = OramaError::auth("Invalid credentials");
    let api_error = OramaError::api(404, "Not found");
    let generic_error = OramaError::generic("Something went wrong");

    assert!(matches!(auth_error, OramaError::Auth { .. }));
    assert!(matches!(api_error, OramaError::Api { status: 404, .. }));
    assert!(matches!(generic_error, OramaError::Generic { .. }));
}

#[test]
fn test_error_display() {
    let auth_error = OramaError::auth("Invalid API key");
    let error_string = auth_error.display_text();

    assert!(error_string.contains("Invalid API key"));
}

#[test]
fn error_texts() {
    assert_eq!(OramaError::auth("bad").display_text(), "Authentication failed: bad");
    assert_eq!(OramaError::api(404, "Not found").display_text(), "API error (status 404): Not found");
    assert_eq!(OramaError::config("x").display_text(), "Configuration error: x");
    assert_eq!(OramaError::stream("s").display_text(), "Stream error: s");
    assert_eq!(OramaError::generic("g").display_text(), "Error: g");
}

#[test]
fn status_401_is_an_authentication_error() {
    match error_for_status(401, "denied") {
        OramaError::Auth { message } => {
            assert_eq!(message, "Unauthorized: are you using the correct API Key?")
        }
        other => panic!("unexpected {:?}", other),
    }
}

#[test]
fn status_400_and_others_are_api_errors() {
    assert_eq!(
        error_for_status(400, "missing field"),
        OramaError::Api { status: 400, message: "Bad Request: missing field".to_string() }
    );
    assert_eq!(
        error_for_status(503, "busy"),
        OramaError::Api { status: 503, message: "busy".to_string() }
    );
    assert!(is_success(200));
    assert!(is_success(299));
    assert!(!is_success(401));
}

#[test]
fn credential_placement() {
    assert_eq!(
        credential_for(ApiKeyPosition::Header, "tok"),
        Credential::Header("Bearer tok".to_string())
    );
    assert_eq!(
        credential_for(ApiKeyPosition::QueryParams, "tok"),
        Credential::QueryParam("tok".to_string())
    );
}
