use admin_auth::error::AuthError;

#[test]
fn credential_and_session_failures_are_plain_401() {
    assert_eq!(AuthError::InvalidCredentials.status_code(), 401);
    assert_eq!(AuthError::Unauthenticated.status_code(), 401);
    assert_eq!(AuthError::InvalidCredentials.message(), "Invalid credentials");
    assert_eq!(AuthError::Unauthenticated.message(), "Unauthorized");
}

#[test]
fn repeated_bootstrap_is_403_with_a_message() {
    assert_eq!(AuthError::AlreadyInitialized.status_code(), 403);
    assert_eq!(AuthError::AlreadyInitialized.message(), "Setup already completed");
}

#[test]
fn server_faults_are_500() {
    for e in [AuthError::StoreUnavailable, AuthError::HashingFailed, AuthError::SigningFailed] {
        assert_eq!(e.status_code(), 500);
        assert!(e.is_server_fault());
    }
    assert_eq!(AuthError::StoreUnavailable.message(), "Database error");
    assert_eq!(AuthError::HashingFailed.message(), "Password hashing failed");
    assert_eq!(AuthError::SigningFailed.message(), "Token generation failed");
}

#[test]
fn malformed_requests_are_400_and_415() {
    assert_eq!(AuthError::InvalidBody.status_code(), 400);
    assert_eq!(AuthError::InvalidJson.status_code(), 400);
    assert_eq!(AuthError::InvalidForm.status_code(), 400);
    assert_eq!(AuthError::UnsupportedMediaType.status_code(), 415);
    assert_eq!(AuthError::InvalidBody.message(), "Invalid request body");
    assert_eq!(AuthError::InvalidJson.message(), "Invalid JSON");
    assert_eq!(AuthError::InvalidForm.message(), "Invalid form data");
    assert_eq!(AuthError::UnsupportedMediaType.message(), "Unsupported content type");
    assert!(!AuthError::InvalidJson.is_server_fault());
}

#[test]
fn conflict_is_409() {
    assert_eq!(AuthError::Conflict.status_code(), 409);
    assert_eq!(AuthError::Conflict.message(), "Username already exists");
    assert!(!AuthError::Conflict.is_server_fault());
}
