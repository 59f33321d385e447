use auth_api::http::{error_response, Body, ErrorCode, StatusCode, StatusWord};

#[test]
fn status_numbers() {
    assert_eq!(StatusCode::Success.code(), 200);
    assert_eq!(StatusCode::Created.code(), 201);
    assert_eq!(StatusCode::BadRequest.code(), 400);
    assert_eq!(StatusCode::Unauthorized.code(), 401);
    assert_eq!(StatusCode::Forbidden.code(), 403);
    assert_eq!(StatusCode::NotFound.code(), 404);
    assert_eq!(StatusCode::InternalServerError.code(), 500);
}

#[test]
fn machine_codes_and_their_statuses() {
    let table = [
        (ErrorCode::InvalidRequestBody, "invalid_request_body", 400),
        (ErrorCode::InvalidServiceId, "invalid_service_id", 400),
        (ErrorCode::InvalidPersonId, "invalid_person_id", 400),
        (ErrorCode::PersonNotFound, "person_not_found", 400),
        (ErrorCode::MissingTokenHeader, "missing_token_header", 401),
        (ErrorCode::InvalidToken, "invalid_token", 401),
        (ErrorCode::ExpiredToken, "expired_token", 401),
        (ErrorCode::InvalidCredentials, "invalid_credentials", 401),
        (ErrorCode::InvalidServiceToken, "invalid_service_token", 401),
        (ErrorCode::ServiceInactive, "service_inactive", 403),
        (ErrorCode::ServiceNotFound, "service_not_found", 404),
        (ErrorCode::UserNotFound, "user_not_found", 404),
        (ErrorCode::RoleNotFound, "role_not_found", 404),
        (ErrorCode::PermissionNotFound, "permission_not_found", 404),
        (ErrorCode::LoginLookupFailed, "login_lookup_failed", 500),
        (ErrorCode::CreateUserFailed, "create_user_failed", 500),
        (ErrorCode::TokenValidationFailed, "token_validation_failed", 500),
        (ErrorCode::StoreAccessCacheFailed, "store_access_cache_failed", 500),
    ];
    for (code, text, status) in table {
        assert_eq!(code.as_str(), text);
        assert_eq!(code.status_code().code(), status, "status of {}", text);
        let response = error_response(code);
        assert_eq!(response.status.code(), status);
        assert!(matches!(response.body, Body::Error { code: found } if found == code));
    }
}

#[test]
fn refusals_for_want_of_a_token_are_explained() {
    assert!(ErrorCode::MissingTokenHeader.explain().unwrap().contains("user-token"));
    assert!(ErrorCode::InvalidToken.explain().is_some());
    assert!(ErrorCode::ExpiredToken.explain().is_some());
    assert!(ErrorCode::InvalidCredentials.explain().is_some());
    assert!(ErrorCode::InvalidRequestBody.explain().is_none());
    assert!(ErrorCode::CreateUserFailed.explain().is_none());
}

#[test]
fn status_words() {
    assert_eq!(StatusWord::Success.as_str(), "success");
    assert_eq!(StatusWord::LoggedOut.as_str(), "logged_out");
    assert_eq!(StatusWord::RoleRemovedFromService.as_str(), "role_removed_from_service");
    assert_eq!(StatusWord::RoleRemovedFromPerson.as_str(), "role_removed_from_person");
    assert_eq!(StatusWord::PermissionRemovedFromRole.as_str(), "permission_removed_from_role");
    assert_eq!(StatusWord::PermissionGranted.as_str(), "permission_granted");
    assert_eq!(StatusWord::UserDeleted.as_str(), "user_deleted");
    assert_eq!(StatusWord::ServiceDeleted.as_str(), "service_deleted");
    assert_eq!(StatusWord::RoleDeleted.as_str(), "role_deleted");
    assert_eq!(StatusWord::PermissionDeleted.as_str(), "permission_deleted");
}
