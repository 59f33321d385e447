use auth_api::entities::{DocumentType, Edge, Entity, NewPerson, PersonType};
use auth_api::flexible::FlexibleId;
use auth_api::http::{Body, ErrorCode, Response, StatusCode};
use auth_api::payloads::{
    CreatePermissionPayload, CreateRolePayload, LoginPayload, PersonServicePermissionPayload,
    PersonServiceRolePayload, RolePermissionPayload, ServiceRolePayload,
};
use auth_api::protocol::{StoreAnswer, StoreCall};
use auth_api::server::{
    assign_permission_to_role, assign_role_to_person_in_service, assign_role_to_service,
    check_permission, check_token, create_permission, create_role,
    grant_permission_to_person_in_service, issue_service_token, login, logout, profile,
    remove_role_from_service, CheckAccessPayload, Request, Server,
};
use auth_api::token::{TokenConfig, TokenPayload};

fn config(ttl: i64, threshold: i64) -> TokenConfig {
    TokenConfig { ttl_seconds: ttl, renew_threshold_seconds: threshold, service_ttl_seconds: 604_800 }
}

fn request(path: &str, headers: &[(&str, &str)], params: &[(&str, &str)]) -> Request {
    Request {
        path: path.to_string(),
        headers: headers.iter().map(|(k, v)| (k.to_string(), v.to_string())).collect(),
        params: params.iter().map(|(k, v)| (k.to_string(), v.to_string())).collect(),
    }
}

fn person(username: &str, password: &str) -> NewPerson {
    NewPerson {
        username: username.to_string(),
        password_hash: bcrypt::hash(password, 4).unwrap(),
        name: format!("Name of {}", username),
        person_type: PersonType::N,
        document_type: DocumentType::DNI,
        document_number: "00000001".to_string(),
    }
}

/// A service with two persons (ids 1 and 2) and two services (ids 1 and 2).
fn seeded(ttl: i64, threshold: i64) -> Server {
    let mut server = Server::new(config(ttl, threshold), "secret");
    assert!(matches!(server.store(StoreCall::CreatePerson { person: person("adm1", "adm1-hash") }), StoreAnswer::User(Some(_))));
    assert!(matches!(server.store(StoreCall::CreatePerson { person: person("usr1", "usr1-hash") }), StoreAnswer::User(Some(_))));
    assert!(matches!(
        server.store(StoreCall::CreateService { name: "Service A".to_string(), description: None }),
        StoreAnswer::Service(Some(_))
    ));
    assert!(matches!(
        server.store(StoreCall::CreateService { name: "Service B".to_string(), description: None }),
        StoreAnswer::Service(Some(_))
    ));
    server
}

fn code_of(response: &Response) -> Option<ErrorCode> {
    match &response.body {
        Body::Error { code } => Some(*code),
        _ => None,
    }
}

fn login_as(server: &mut Server, username: &str, password: &str, now: i64) -> String {
    let response = login(
        server,
        &request("/auth/login", &[], &[]),
        Some(LoginPayload { username: username.to_string(), password: password.to_string() }),
        now,
    );
    assert_eq!(response.status, StatusCode::Success);
    match response.body {
        Body::Login { token, .. } => token,
        _ => panic!("a login answers with a token"),
    }
}

fn has_permission(server: &mut Server, token: &str, service: i32, permission: &str, now: i64) -> bool {
    let response = check_permission(
        server,
        &request("/check-permission", &[("user-token", token)], &[]),
        Some(CheckAccessPayload {
            service_id: Some(FlexibleId::Int(service)),
            permission_name: Some(permission.to_string()),
        }),
        now,
    );
    assert_eq!(response.status, StatusCode::Success);
    match response.body {
        Body::HasPermission { has_permission } => has_permission,
        _ => panic!("a check of one permission answers yes or no"),
    }
}

fn last_line(server: &Server) -> String {
    server.log_lines().last().cloned().unwrap()
}

#[test]
fn happy_login_then_profile() {
    let mut server = seeded(300, 30);
    let response = login(
        &mut server,
        &request("/auth/login", &[], &[]),
        Some(LoginPayload { username: "adm1".to_string(), password: "adm1-hash".to_string() }),
        1_000,
    );
    assert_eq!(response.status.code(), 200);
    let token = match response.body {
        Body::Login { token, expires_at, payload } => {
            assert_eq!(expires_at, 1_300);
            assert_eq!(payload.user_id(), Some(1));
            token
        }
        _ => panic!("a login answers with a token"),
    };
    let response = profile(&mut server, &request("/auth/profile", &[("user-token", &token)], &[]), 1_001);
    assert_eq!(response.status.code(), 200);
    match response.body {
        Body::Profile { payload, renewed, expires_at } => {
            assert!(!renewed);
            assert_eq!(expires_at, 1_300);
            match payload {
                TokenPayload::User { user_id, username, name } => {
                    assert_eq!(user_id, 1);
                    assert_eq!(username, "adm1");
                    assert_eq!(name, "Name of adm1");
                }
                _ => panic!("a user token carries a user"),
            }
        }
        _ => panic!("a profile shows the payload"),
    }
}

#[test]
fn expired_token_is_refused_and_gone() {
    let mut server = seeded(1, 0);
    let token = login_as(&mut server, "adm1", "adm1-hash", 1_000);
    assert_eq!(server.tables().token_count(), 1);
    let response = profile(&mut server, &request("/auth/profile", &[("user-token", &token)], &[]), 1_002);
    assert_eq!(response.status.code(), 401);
    assert_eq!(code_of(&response), Some(ErrorCode::ExpiredToken));
    assert_eq!(ErrorCode::ExpiredToken.as_str(), "expired_token");
    assert_eq!(server.tables().token_count(), 0);
    assert!(last_line(&server).ends_with(" valid=false"));
}

#[test]
fn sliding_renewal_over_check_token() {
    let mut server = seeded(300, 250);
    let token = login_as(&mut server, "adm1", "adm1-hash", 1_000);
    let headers = [("user-token", token.as_str())];
    let first = check_token(&mut server, &request("/check-token", &headers, &[]), 1_050);
    match first.body {
        Body::TokenChecked { renewed, expires_at, .. } => {
            assert!(renewed);
            assert_eq!(expires_at, 1_350);
        }
        _ => panic!("a check of the token shows the token"),
    }
    let second = check_token(&mut server, &request("/check-token", &headers, &[]), 1_050);
    match second.body {
        Body::TokenChecked { renewed, expires_at, .. } => {
            assert!(!renewed);
            assert_eq!(expires_at, 1_350);
        }
        _ => panic!("a check of the token shows the token"),
    }
}

#[test]
fn permission_cache_roundtrip() {
    let mut server = seeded(300, 30);
    let admin = login_as(&mut server, "adm1", "adm1-hash", 1_000);
    let user = login_as(&mut server, "usr1", "usr1-hash", 1_000);
    let as_admin = [("user-token", admin.as_str())];

    let role = create_role(&mut server, &request("/roles", &as_admin, &[]), Some(CreateRolePayload { name: "editor".to_string() }), 1_000);
    let role_id = match role.body {
        Body::Role(role) => role.id,
        _ => panic!("the new role"),
    };
    let permission = create_permission(
        &mut server,
        &request("/permissions", &as_admin, &[]),
        Some(CreatePermissionPayload { name: "articles:write".to_string() }),
        1_000,
    );
    let permission_id = match permission.body {
        Body::Permission(permission) => permission.id,
        _ => panic!("the new permission"),
    };
    assert_eq!(
        assign_permission_to_role(&mut server, &request("/role-permissions", &as_admin, &[]), Some(RolePermissionPayload { role_id, permission_id }), 1_000).status,
        StatusCode::Success
    );
    assert_eq!(
        assign_role_to_service(
            &mut server,
            &request("/service-roles", &as_admin, &[]),
            Some(ServiceRolePayload { service_id: FlexibleId::Int(1), role_id }),
            1_000
        )
        .status,
        StatusCode::Success
    );
    assert_eq!(
        assign_role_to_person_in_service(
            &mut server,
            &request("/person-service-roles", &as_admin, &[]),
            Some(PersonServiceRolePayload { person_id: FlexibleId::Int(2), service_id: FlexibleId::Int(1), role_id }),
            1_000
        )
        .status,
        StatusCode::Success
    );

    assert!(has_permission(&mut server, &user, 1, "articles:write", 1_001));
    assert!(last_line(&server).ends_with(" used_cache=false"));
    assert_eq!(server.tables().cache_count(), 1);

    assert!(has_permission(&mut server, &user, 1, "articles:write", 1_001));
    assert!(last_line(&server).ends_with(" used_cache=true"));

    let removed = remove_role_from_service(
        &mut server,
        &request("/service-roles", &as_admin, &[]),
        Some(ServiceRolePayload { service_id: FlexibleId::Int(1), role_id }),
        1_002,
    );
    assert_eq!(removed.status, StatusCode::Success);
    assert_eq!(server.tables().cache_count(), 0);
    // The person still has the role, but the role is no longer visible in the service.
    assert!(server.tables().catalog().has_edge(Edge::PersonServiceRole { person_id: 2, service_id: 1, role_id }));

    assert!(!has_permission(&mut server, &user, 1, "articles:write", 1_003));
    assert!(last_line(&server).ends_with(" used_cache=false"));
}

#[test]
fn cached_access_expires_after_one_lifetime() {
    let mut server = seeded(300, 0);
    let user = login_as(&mut server, "usr1", "usr1-hash", 1_000);
    assert!(!has_permission(&mut server, &user, 1, "anything", 1_000));
    assert!(last_line(&server).ends_with(" used_cache=false"));
    assert!(!has_permission(&mut server, &user, 1, "anything", 1_299));
    assert!(last_line(&server).ends_with(" used_cache=true"));
    // The cache row and the token both expire at 1300; a new login then finds a stale row gone.
    let again = login_as(&mut server, "usr1", "usr1-hash", 1_300);
    assert!(!has_permission(&mut server, &again, 1, "anything", 1_300));
    assert!(last_line(&server).ends_with(" used_cache=false"));
}

#[test]
fn direct_grant_repeated_ten_times() {
    let mut server = seeded(300, 30);
    let admin = login_as(&mut server, "adm1", "adm1-hash", 1_000);
    let user = login_as(&mut server, "usr1", "usr1-hash", 1_000);
    let as_admin = [("user-token", admin.as_str())];
    let permission = create_permission(
        &mut server,
        &request("/permissions", &as_admin, &[]),
        Some(CreatePermissionPayload { name: "reports:read".to_string() }),
        1_000,
    );
    let permission_id = match permission.body {
        Body::Permission(permission) => permission.id,
        _ => panic!("the new permission"),
    };
    assert!(!has_permission(&mut server, &user, 1, "reports:read", 1_000));

    let mut role_ids = Vec::new();
    for _ in 0..10 {
        let response = grant_permission_to_person_in_service(
            &mut server,
            &request("/person-service-permissions", &as_admin, &[]),
            Some(PersonServicePermissionPayload {
                person_id: FlexibleId::Int(2),
                service_id: FlexibleId::Int(1),
                permission_id: Some(FlexibleId::Int(permission_id)),
                permission_name: None,
            }),
            1_001,
        );
        assert_eq!(response.status.code(), 200);
        match response.body {
            Body::Granted { person_id, service_id, permission_id: granted, role_id } => {
                assert_eq!((person_id, service_id, granted), (2, 1, permission_id));
                role_ids.push(role_id);
            }
            _ => panic!("a grant reports what it granted"),
        }
    }
    assert!(role_ids.iter().all(|id| *id == role_ids[0]));
    let role_id = role_ids[0];

    let catalog = server.tables().catalog();
    let roles = catalog.list_roles();
    assert_eq!(roles.iter().filter(|role| role.name == "direct:2:1").count(), 1);
    assert_eq!(roles.len(), 1);
    assert_eq!(catalog.find_id(Entity::Role, "direct:2:1"), Some(role_id));
    assert_eq!(catalog.roles_of_service(1).len(), 1);
    assert_eq!(catalog.permissions_of_role(role_id).len(), 1);
    assert_eq!(catalog.roles_of_person(2, 1).len(), 1);
    assert!(catalog.has_edge(Edge::ServiceRole { service_id: 1, role_id }));
    assert!(catalog.has_edge(Edge::RolePermission { role_id, permission_id }));
    assert!(catalog.has_edge(Edge::PersonServiceRole { person_id: 2, service_id: 1, role_id }));

    // The grant cleared the cache for the person in the service: the next check sees it.
    assert!(has_permission(&mut server, &user, 1, "reports:read", 1_002));
    assert!(last_line(&server).ends_with(" used_cache=false"));
    // It is a grant in one service only.
    assert!(!has_permission(&mut server, &user, 2, "reports:read", 1_002));
}

#[test]
fn direct_grant_by_names() {
    let mut server = seeded(300, 30);
    let admin = login_as(&mut server, "adm1", "adm1-hash", 1_000);
    let user = login_as(&mut server, "usr1", "usr1-hash", 1_000);
    let as_admin = [("user-token", admin.as_str())];
    create_permission(
        &mut server,
        &request("/permissions", &as_admin, &[]),
        Some(CreatePermissionPayload { name: "reports:read".to_string() }),
        1_000,
    );
    let response = grant_permission_to_person_in_service(
        &mut server,
        &request("/person-service-permissions", &as_admin, &[]),
        Some(PersonServicePermissionPayload {
            person_id: FlexibleId::Str("usr1".to_string()),
            service_id: FlexibleId::Str(" Service B ".to_string()),
            permission_id: None,
            permission_name: Some("reports:read".to_string()),
        }),
        1_001,
    );
    assert_eq!(response.status.code(), 200);
    assert!(has_permission(&mut server, &user, 2, "reports:read", 1_002));
    assert_eq!(server.tables().catalog().find_id(Entity::Role, "direct:2:2"), Some(1));
}

#[test]
fn two_principal_check() {
    let mut server = seeded(300, 30);
    let admin = login_as(&mut server, "adm1", "adm1-hash", 1_000);
    let user = login_as(&mut server, "usr1", "usr1-hash", 1_000);
    let issued = issue_service_token(&mut server, &request("/services/1/token", &[("user-token", &admin)], &[("id", "1")]), 1_000);
    assert_eq!(issued.status.code(), 200);
    let service_token = match issued.body {
        Body::ServiceToken { service_id, service_name, service_token, expires_at } => {
            assert_eq!(service_id, 1);
            assert_eq!(service_name, "Service A");
            assert_eq!(expires_at, 1_000 + 604_800);
            service_token
        }
        _ => panic!("the service token"),
    };

    let both_headers = [("user-token", user.as_str()), ("service-token", service_token.as_str())];
    let with_token = check_permission(&mut server, &request("/check-permission", &both_headers, &[]), None, 1_001);
    assert_eq!(with_token.status.code(), 200);
    match with_token.body {
        Body::AccessChecked { access, renewed, expires_at } => {
            assert_eq!(access.user_id, 2);
            assert_eq!(access.service_id, 1);
            assert!(access.roles.is_empty());
            assert!(access.permissions.is_empty());
            assert!(access.scopes.is_empty());
            assert_eq!(access.expires_at, 1_301);
            assert!(!renewed);
            assert_eq!(expires_at, 1_300);
        }
        _ => panic!("the access of the user in the service"),
    }

    let only_user = [("user-token", user.as_str())];
    let with_body = check_permission(
        &mut server,
        &request("/check-permission", &only_user, &[]),
        Some(CheckAccessPayload { service_id: Some(FlexibleId::Int(1)), permission_name: None }),
        1_001,
    );
    assert_eq!(with_body.status.code(), 200);
    assert!(matches!(with_body.body, Body::AccessChecked { .. }));

    let both = check_permission(
        &mut server,
        &request("/check-permission", &both_headers, &[]),
        Some(CheckAccessPayload { service_id: Some(FlexibleId::Int(1)), permission_name: None }),
        1_001,
    );
    assert_eq!(both.status.code(), 400);
    assert_eq!(code_of(&both), Some(ErrorCode::InvalidRequestBody));

    let neither = check_permission(&mut server, &request("/check-permission", &only_user, &[]), None, 1_001);
    assert_eq!(neither.status.code(), 400);
    assert_eq!(code_of(&neither), Some(ErrorCode::InvalidRequestBody));
}

#[test]
fn login_reuses_a_live_token() {
    let mut server = seeded(300, 30);
    let first = login_as(&mut server, "adm1", "adm1-hash", 1_000);
    let second = login_as(&mut server, "adm1", "adm1-hash", 1_100);
    assert_eq!(first, second);
    assert_eq!(server.tables().token_count(), 1);
    // Once the token has expired a new one is issued.
    let third = login_as(&mut server, "adm1", "adm1-hash", 1_300);
    assert_ne!(first, third);
    assert_eq!(server.tables().token_count(), 2);
}

#[test]
fn logout_revokes_the_token() {
    let mut server = seeded(300, 30);
    let token = login_as(&mut server, "adm1", "adm1-hash", 1_000);
    let headers = [("user-token", token.as_str())];
    let out = logout(&mut server, &request("/auth/logout", &headers, &[]), 1_001);
    assert_eq!(out.status.code(), 200);
    assert!(matches!(out.body, Body::Status { .. }));
    assert_eq!(server.tables().token_count(), 0);
    let after = profile(&mut server, &request("/auth/profile", &headers, &[]), 1_001);
    assert_eq!(after.status.code(), 401);
    assert_eq!(code_of(&after), Some(ErrorCode::InvalidToken));
}

#[test]
fn logout_does_not_renew_the_token() {
    let mut server = seeded(300, 299);
    let token = login_as(&mut server, "adm1", "adm1-hash", 1_000);
    // One second in, the token would be renewed by any other request.
    let out = logout(&mut server, &request("/auth/logout", &[("user-token", &token)], &[]), 1_001);
    assert_eq!(out.status.code(), 200);
    assert_eq!(server.tables().token_count(), 0);
}

#[test]
fn logout_clears_what_the_cache_held_under_the_token() {
    let mut server = seeded(300, 30);
    let first = login_as(&mut server, "adm1", "adm1-hash", 1_000);
    let second = login_as(&mut server, "usr1", "usr1-hash", 1_000);
    assert!(!has_permission(&mut server, &first, 1, "articles:write", 1_001));
    assert!(!has_permission(&mut server, &first, 2, "articles:write", 1_001));
    assert!(!has_permission(&mut server, &second, 1, "articles:write", 1_001));
    assert_eq!(server.tables().cache_count(), 3);
    let out = logout(&mut server, &request("/auth/logout", &[("user-token", &first)], &[]), 1_002);
    assert_eq!(out.status.code(), 200);
    assert_eq!(server.tables().token_count(), 1);
    // The rows of the other token stay.
    assert_eq!(server.tables().cache_count(), 1);
    assert!(!has_permission(&mut server, &second, 1, "articles:write", 1_003));
    assert!(last_line(&server).contains("used_cache=true"));
}

#[test]
fn an_expired_token_takes_its_cache_rows_along() {
    let mut server = seeded(10, 0);
    let token = login_as(&mut server, "adm1", "adm1-hash", 1_000);
    assert!(!has_permission(&mut server, &token, 1, "articles:write", 1_001));
    assert_eq!(server.tables().cache_count(), 1);
    let late = profile(&mut server, &request("/auth/profile", &[("user-token", &token)], &[]), 1_010);
    assert_eq!(code_of(&late), Some(ErrorCode::ExpiredToken));
    assert_eq!(server.tables().token_count(), 0);
    assert_eq!(server.tables().cache_count(), 0);
}

#[test]
fn a_direct_grant_shows_with_its_last_edge_only() {
    let mut server = seeded(300, 30);
    let admin = login_as(&mut server, "adm1", "adm1-hash", 1_000);
    let user = login_as(&mut server, "usr1", "usr1-hash", 1_000);
    let as_admin = [("user-token", admin.as_str())];
    let permission = create_permission(
        &mut server,
        &request("/permissions", &as_admin, &[]),
        Some(CreatePermissionPayload { name: "reports:read".to_string() }),
        1_000,
    );
    let permission_id = match permission.body {
        Body::Permission(permission) => permission.id,
        _ => panic!("the new permission"),
    };
    // The steps of a grant, one statement at a time, as a grant that is cut short leaves them.
    let role_id = match server.store(StoreCall::InsertRole { name: "direct:2:1".to_string() }) {
        StoreAnswer::Id(Some(id)) => id,
        _ => panic!("the new role"),
    };
    assert!(!server.tables().catalog().holds_permission(2, 1, "reports:read"));
    server.store(StoreCall::Link { edge: Edge::ServiceRole { service_id: 1, role_id } });
    assert!(!server.tables().catalog().holds_permission(2, 1, "reports:read"));
    server.store(StoreCall::Link { edge: Edge::RolePermission { role_id, permission_id } });
    assert!(!server.tables().catalog().holds_permission(2, 1, "reports:read"));
    assert!(!has_permission(&mut server, &user, 1, "reports:read", 1_001));
    server.store(StoreCall::Link {
        edge: Edge::PersonServiceRole { person_id: 2, service_id: 1, role_id },
    });
    assert!(server.tables().catalog().holds_permission(2, 1, "reports:read"));
}
