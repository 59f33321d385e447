use auth_api::entities::{DocumentType, Edge, NewPerson, PersonType};
use auth_api::flexible::FlexibleId;
use auth_api::http::{Body, ErrorCode, Response, StatusCode};
use auth_api::payloads::{
    CheckPermissionPayload, CreatePermissionPayload, CreateRolePayload, CreateServicePayload,
    CreateUserPayload, LoginPayload, PersonServicePermissionPayload, PersonServiceRolePayload,
    RolePermissionPayload, ServiceRolePayload, UpdatePermissionPayload, UpdateRolePayload,
    UpdateServicePayload, UpdateUserPayload,
};
use auth_api::protocol::{StoreAnswer, StoreCall};
use auth_api::server::{
    assign_permission_to_role, assign_role_to_person_in_service, assign_role_to_service,
    check_permission, check_person_permission_in_service, check_token, create_permission,
    create_role, create_service, create_user, delete_permission, delete_role, delete_service,
    delete_user, get_role, get_user, grant_permission_to_person_in_service, home,
    issue_service_token, list_people, list_permissions, list_person_roles_in_service,
    list_persons_with_role_in_service, list_role_permissions, list_roles, list_service_roles,
    list_services, list_services_of_person, login, logout, profile,
    remove_permission_from_role, remove_role_from_person_in_service, update_permission,
    update_role, update_service, update_user, CheckAccessPayload, Request, Server,
};
use auth_api::token::TokenConfig;

fn request(path: &str, headers: &[(&str, &str)], params: &[(&str, &str)]) -> Request {
    Request {
        path: path.to_string(),
        headers: headers.iter().map(|(k, v)| (k.to_string(), v.to_string())).collect(),
        params: params.iter().map(|(k, v)| (k.to_string(), v.to_string())).collect(),
    }
}

fn person(username: &str, password: &str) -> NewPerson {
    NewPerson {
        username: username.to_string(),
        password_hash: bcrypt::hash(password, 4).unwrap(),
        name: format!("Name of {}", username),
        person_type: PersonType::N,
        document_type: DocumentType::DNI,
        document_number: "00000001".to_string(),
    }
}

/// A service with the person `adm1` (id 1), the services `Service A` and
/// `Service B` (ids 1 and 2), and a token of `adm1` that expires at 100000.
fn seeded() -> (Server, String) {
    let config = TokenConfig { ttl_seconds: 99_000, renew_threshold_seconds: 30, service_ttl_seconds: 604_800 };
    let mut server = Server::new(config, "secret");
    server.store(StoreCall::CreatePerson { person: person("adm1", "adm1-hash") });
    server.store(StoreCall::CreateService { name: "Service A".to_string(), description: Some("first".to_string()) });
    server.store(StoreCall::CreateService { name: "Service B".to_string(), description: None });
    let response = login(
        &mut server,
        &request("/auth/login", &[], &[]),
        Some(LoginPayload { username: "adm1".to_string(), password: "adm1-hash".to_string() }),
        1_000,
    );
    let token = match response.body {
        Body::Login { token, .. } => token,
        _ => panic!("a login answers with a token"),
    };
    (server, token)
}

fn code_of(response: &Response) -> Option<ErrorCode> {
    match &response.body {
        Body::Error { code } => Some(*code),
        _ => None,
    }
}

fn refused(response: &Response, status: u16, code: ErrorCode) -> bool {
    response.status.code() == status && code_of(response) == Some(code)
}

#[test]
fn home_needs_no_token() {
    let response = home(&request("/", &[], &[]));
    assert_eq!(response.status, StatusCode::Success);
    assert!(matches!(response.body, Body::Home));
}

#[test]
fn login_without_a_body_is_a_bad_request() {
    let (mut server, _) = seeded();
    let response = login(&mut server, &request("/auth/login", &[], &[]), None, 1_000);
    assert!(refused(&response, 400, ErrorCode::InvalidRequestBody));
}

#[test]
fn login_with_a_wrong_password_is_refused() {
    let (mut server, _) = seeded();
    let response = login(
        &mut server,
        &request("/auth/login", &[], &[]),
        Some(LoginPayload { username: "adm1".to_string(), password: "wrong".to_string() }),
        1_000,
    );
    assert!(refused(&response, 401, ErrorCode::InvalidCredentials));
    assert_eq!(server.tables().token_count(), 1);
}

#[test]
fn login_of_an_unknown_user_is_refused() {
    let (mut server, _) = seeded();
    let response = login(
        &mut server,
        &request("/auth/login", &[], &[]),
        Some(LoginPayload { username: "nobody".to_string(), password: "adm1-hash".to_string() }),
        1_000,
    );
    assert!(refused(&response, 401, ErrorCode::InvalidCredentials));
}

#[test]
fn every_authenticated_endpoint_asks_for_the_token_header() {
    let (mut server, _) = seeded();
    let bare = request("/x", &[], &[("id", "1")]);
    let empty = request("/x", &[("user-token", "   ")], &[("id", "1")]);
    for req in [&bare, &empty] {
        assert!(refused(&logout(&mut server, req, 1_000), 401, ErrorCode::MissingTokenHeader));
        assert!(refused(&profile(&mut server, req, 1_000), 401, ErrorCode::MissingTokenHeader));
        assert!(refused(&check_token(&mut server, req, 1_000), 401, ErrorCode::MissingTokenHeader));
        assert!(refused(&check_permission(&mut server, req, None, 1_000), 401, ErrorCode::MissingTokenHeader));
        assert!(refused(&list_people(&mut server, req, 1_000), 401, ErrorCode::MissingTokenHeader));
        assert!(refused(&list_roles(&mut server, req, 1_000), 401, ErrorCode::MissingTokenHeader));
        assert!(refused(&delete_user(&mut server, req, 1_000), 401, ErrorCode::MissingTokenHeader));
        assert!(refused(&issue_service_token(&mut server, req, 1_000), 401, ErrorCode::MissingTokenHeader));
        assert!(refused(
            &grant_permission_to_person_in_service(&mut server, req, None, 1_000),
            401,
            ErrorCode::MissingTokenHeader
        ));
    }
    assert_eq!(server.tables().catalog().list_people().len(), 1);
}

#[test]
fn an_unknown_token_is_invalid() {
    let (mut server, _) = seeded();
    let req = request("/users", &[("user-token", "not-a-token")], &[]);
    assert!(refused(&list_people(&mut server, &req, 1_000), 401, ErrorCode::InvalidToken));
    assert!(refused(&check_token(&mut server, &req, 1_000), 401, ErrorCode::InvalidToken));
}

#[test]
fn the_token_is_checked_before_the_body() {
    let (mut server, _) = seeded();
    let req = request("/roles", &[("user-token", "not-a-token")], &[]);
    assert!(refused(&create_role(&mut server, &req, None, 1_000), 401, ErrorCode::InvalidToken));
    let (mut server, token) = seeded();
    let req = request("/roles", &[("user-token", &token)], &[]);
    assert!(refused(&create_role(&mut server, &req, None, 1_000), 400, ErrorCode::InvalidRequestBody));
}

#[test]
fn users_are_created_listed_read_changed_and_removed() {
    let (mut server, token) = seeded();
    let headers = [("user-token", token.as_str())];
    let created = create_user(
        &mut server,
        &request("/users", &headers, &[]),
        Some(CreateUserPayload {
            username: "new1".to_string(),
            password_hash: "new1-pass".to_string(),
            name: "New One".to_string(),
            person_type: " N ".to_string(),
            document_type: "RUC".to_string(),
            document_number: "20123456789".to_string(),
        }),
        1_000,
    );
    assert_eq!(created.status.code(), 201);
    let id = match created.body {
        Body::User(user) => {
            assert_eq!(user.username, "new1");
            assert_eq!(user.name, "New One");
            user.id
        }
        _ => panic!("the new person"),
    };
    assert_eq!(id, 2);

    // The password was stored as a digest and lets the person in.
    let stored = server.tables().catalog().find_auth_user("new1").unwrap();
    assert_ne!(stored.password_hash, "new1-pass");
    let logged = login(
        &mut server,
        &request("/auth/login", &[], &[]),
        Some(LoginPayload { username: "new1".to_string(), password: "new1-pass".to_string() }),
        1_000,
    );
    assert_eq!(logged.status.code(), 200);

    let listed = list_people(&mut server, &request("/users", &headers, &[]), 1_000);
    match listed.body {
        Body::Users(users) => assert_eq!(users.iter().map(|u| u.username.clone()).collect::<Vec<_>>(), vec!["adm1", "new1"]),
        _ => panic!("the persons"),
    }

    let read = get_user(&mut server, &request("/users/2", &headers, &[("id", "2")]), 1_000);
    assert!(matches!(read.body, Body::User(ref user) if user.id == 2 && user.username == "new1"));

    let changed = update_user(
        &mut server,
        &request("/users/2", &headers, &[("id", "2")]),
        Some(UpdateUserPayload { username: None, password_hash: None, name: Some("Renamed".to_string()) }),
        1_000,
    );
    assert_eq!(changed.status.code(), 200);
    let read = get_user(&mut server, &request("/users/2", &headers, &[("id", "2")]), 1_000);
    assert!(matches!(read.body, Body::User(ref user) if user.name == "Renamed" && user.username == "new1"));

    let removed = delete_user(&mut server, &request("/users/2", &headers, &[("id", "2")]), 1_000);
    assert_eq!(removed.status.code(), 200);
    assert!(matches!(removed.body, Body::UserDeleted { user_id: 2, revoked_tokens: 1 }));
    assert_eq!(server.tables().token_count(), 1);
    let gone = get_user(&mut server, &request("/users/2", &headers, &[("id", "2")]), 1_000);
    assert!(refused(&gone, 404, ErrorCode::UserNotFound));
    // A removed person cannot log in.
    let logged = login(
        &mut server,
        &request("/auth/login", &[], &[]),
        Some(LoginPayload { username: "new1".to_string(), password: "new1-pass".to_string() }),
        1_000,
    );
    assert!(refused(&logged, 401, ErrorCode::InvalidCredentials));
}

#[test]
fn a_user_with_a_blank_field_or_an_unknown_kind_is_a_bad_request() {
    let (mut server, token) = seeded();
    let headers = [("user-token", token.as_str())];
    let good = || CreateUserPayload {
        username: "new1".to_string(),
        password_hash: "pw".to_string(),
        name: "New".to_string(),
        person_type: "J".to_string(),
        document_type: "CE".to_string(),
        document_number: "1".to_string(),
    };
    let cases: Vec<CreateUserPayload> = vec![
        CreateUserPayload { username: " ".to_string(), ..good() },
        CreateUserPayload { password_hash: "".to_string(), ..good() },
        CreateUserPayload { name: "\t".to_string(), ..good() },
        CreateUserPayload { person_type: "".to_string(), ..good() },
        CreateUserPayload { document_type: " ".to_string(), ..good() },
        CreateUserPayload { document_number: "".to_string(), ..good() },
        CreateUserPayload { person_type: "X".to_string(), ..good() },
        CreateUserPayload { person_type: "n".to_string(), ..good() },
        CreateUserPayload { document_type: "PASSPORT".to_string(), ..good() },
    ];
    for payload in cases {
        let response = create_user(&mut server, &request("/users", &headers, &[]), Some(payload), 1_000);
        assert!(refused(&response, 400, ErrorCode::InvalidRequestBody));
    }
    assert!(refused(&create_user(&mut server, &request("/users", &headers, &[]), None, 1_000), 400, ErrorCode::InvalidRequestBody));
    assert_eq!(server.tables().catalog().list_people().len(), 1);
}

#[test]
fn a_user_name_that_is_taken_fails_the_creation() {
    let (mut server, token) = seeded();
    let headers = [("user-token", token.as_str())];
    let response = create_user(
        &mut server,
        &request("/users", &headers, &[]),
        Some(CreateUserPayload {
            username: "adm1".to_string(),
            password_hash: "pw".to_string(),
            name: "Twin".to_string(),
            person_type: "N".to_string(),
            document_type: "DNI".to_string(),
            document_number: "2".to_string(),
        }),
        1_000,
    );
    assert!(refused(&response, 500, ErrorCode::CreateUserFailed));
}

#[test]
fn path_ids_have_to_be_integers() {
    let (mut server, token) = seeded();
    let headers = [("user-token", token.as_str())];
    let bad = request("/x", &headers, &[("id", "abc")]);
    let missing = request("/x", &headers, &[]);
    for req in [&bad, &missing] {
        assert!(refused(&get_user(&mut server, req, 1_000), 400, ErrorCode::InvalidUserId));
        assert!(refused(&update_user(&mut server, req, None, 1_000), 400, ErrorCode::InvalidUserId));
        assert!(refused(&delete_user(&mut server, req, 1_000), 400, ErrorCode::InvalidUserId));
        assert!(refused(&update_service(&mut server, req, None, 1_000), 400, ErrorCode::InvalidServiceId));
        assert!(refused(&delete_service(&mut server, req, 1_000), 400, ErrorCode::InvalidServiceId));
        assert!(refused(&issue_service_token(&mut server, req, 1_000), 400, ErrorCode::InvalidServiceId));
        assert!(refused(&get_role(&mut server, req, 1_000), 400, ErrorCode::InvalidRoleId));
        assert!(refused(&update_role(&mut server, req, None, 1_000), 400, ErrorCode::InvalidRoleId));
        assert!(refused(&delete_role(&mut server, req, 1_000), 400, ErrorCode::InvalidRoleId));
        assert!(refused(&list_role_permissions(&mut server, req, 1_000), 400, ErrorCode::InvalidRoleId));
        assert!(refused(&update_permission(&mut server, req, None, 1_000), 400, ErrorCode::InvalidPermissionId));
        assert!(refused(&delete_permission(&mut server, req, 1_000), 400, ErrorCode::InvalidPermissionId));
    }
    assert!(refused(&list_services_of_person(&mut server, &missing, 1_000), 400, ErrorCode::InvalidPersonId));
    assert!(refused(&list_service_roles(&mut server, &missing, 1_000), 400, ErrorCode::InvalidServiceId));
    assert!(refused(&list_person_roles_in_service(&mut server, &missing, 1_000), 400, ErrorCode::InvalidPersonId));
    assert!(refused(
        &list_person_roles_in_service(&mut server, &request("/x", &headers, &[("person_id", "1")]), 1_000),
        400,
        ErrorCode::InvalidServiceId
    ));
    assert!(refused(&list_persons_with_role_in_service(&mut server, &missing, 1_000), 400, ErrorCode::InvalidServiceId));
    assert!(refused(
        &list_persons_with_role_in_service(&mut server, &request("/x", &headers, &[("service_id", "1"), ("role_id", "x")]), 1_000),
        400,
        ErrorCode::InvalidRoleId
    ));
    // A valid id of the path comes before a missing body.
    let good = request("/x", &headers, &[("id", "1")]);
    assert!(refused(&update_user(&mut server, &good, None, 1_000), 400, ErrorCode::InvalidRequestBody));
    assert!(refused(&update_role(&mut server, &good, None, 1_000), 400, ErrorCode::InvalidRequestBody));
}

#[test]
fn services_are_created_listed_changed_and_removed() {
    let (mut server, token) = seeded();
    let headers = [("user-token", token.as_str())];
    let created = create_service(
        &mut server,
        &request("/services", &headers, &[]),
        Some(CreateServicePayload { name: "Service C".to_string(), description: Some("third".to_string()) }),
        1_000,
    );
    assert_eq!(created.status.code(), 201);
    assert!(matches!(created.body, Body::Service(ref s) if s.id == 3 && s.name == "Service C" && s.description.as_deref() == Some("third")));

    let twin = create_service(
        &mut server,
        &request("/services", &headers, &[]),
        Some(CreateServicePayload { name: "Service C".to_string(), description: None }),
        1_000,
    );
    assert!(refused(&twin, 500, ErrorCode::CreateServiceFailed));

    let changed = update_service(
        &mut server,
        &request("/services/3", &headers, &[("id", "3")]),
        Some(UpdateServicePayload { name: Some("Service Z".to_string()), description: None }),
        1_000,
    );
    assert_eq!(changed.status.code(), 200);
    let clash = update_service(
        &mut server,
        &request("/services/3", &headers, &[("id", "3")]),
        Some(UpdateServicePayload { name: Some("Service A".to_string()), description: None }),
        1_000,
    );
    assert!(refused(&clash, 500, ErrorCode::UpdateServiceFailed));

    let listed = list_services(&mut server, &request("/services", &headers, &[]), 1_000);
    match listed.body {
        Body::Services(services) => {
            assert_eq!(services.iter().map(|s| s.name.clone()).collect::<Vec<_>>(), vec!["Service A", "Service B", "Service Z"]);
            assert_eq!(services[2].description.as_deref(), Some("third"));
        }
        _ => panic!("the services"),
    }

    let removed = delete_service(&mut server, &request("/services/3", &headers, &[("id", "3")]), 1_000);
    assert!(matches!(removed.body, Body::Changed { id: 3, .. }));
    assert_eq!(server.tables().catalog().list_services().len(), 2);
}

#[test]
fn roles_and_permissions_are_created_read_renamed_and_removed() {
    let (mut server, token) = seeded();
    let headers = [("user-token", token.as_str())];
    let role = create_role(&mut server, &request("/roles", &headers, &[]), Some(CreateRolePayload { name: "editor".to_string() }), 1_000);
    assert_eq!(role.status.code(), 201);
    assert!(matches!(role.body, Body::Role(ref r) if r.id == 1 && r.name == "editor"));
    let twin = create_role(&mut server, &request("/roles", &headers, &[]), Some(CreateRolePayload { name: "editor".to_string() }), 1_000);
    assert!(refused(&twin, 500, ErrorCode::CreateRoleFailed));
    create_role(&mut server, &request("/roles", &headers, &[]), Some(CreateRolePayload { name: "viewer".to_string() }), 1_000);

    let read = get_role(&mut server, &request("/roles/2", &headers, &[("id", "2")]), 1_000);
    assert!(matches!(read.body, Body::Role(ref r) if r.name == "viewer"));
    let missing = get_role(&mut server, &request("/roles/9", &headers, &[("id", "9")]), 1_000);
    assert!(refused(&missing, 404, ErrorCode::RoleNotFound));

    let renamed = update_role(
        &mut server,
        &request("/roles/2", &headers, &[("id", "2")]),
        Some(UpdateRolePayload { name: "reader".to_string() }),
        1_000,
    );
    assert_eq!(renamed.status.code(), 200);
    let clash = update_role(
        &mut server,
        &request("/roles/2", &headers, &[("id", "2")]),
        Some(UpdateRolePayload { name: "editor".to_string() }),
        1_000,
    );
    assert!(refused(&clash, 500, ErrorCode::UpdateRoleFailed));
    let listed = list_roles(&mut server, &request("/roles", &headers, &[]), 1_000);
    match listed.body {
        Body::Roles(roles) => assert_eq!(roles.iter().map(|r| r.name.clone()).collect::<Vec<_>>(), vec!["editor", "reader"]),
        _ => panic!("the roles"),
    }

    let permission = create_permission(
        &mut server,
        &request("/permissions", &headers, &[]),
        Some(CreatePermissionPayload { name: "read".to_string() }),
        1_000,
    );
    assert_eq!(permission.status.code(), 201);
    assert!(matches!(permission.body, Body::Permission(ref p) if p.id == 1 && p.name == "read"));
    let renamed = update_permission(
        &mut server,
        &request("/permissions/1", &headers, &[("id", "1")]),
        Some(UpdatePermissionPayload { name: "read:all".to_string() }),
        1_000,
    );
    assert_eq!(renamed.status.code(), 200);
    let listed = list_permissions(&mut server, &request("/permissions", &headers, &[]), 1_000);
    assert!(matches!(listed.body, Body::Permissions(ref p) if p.len() == 1 && p[0].name == "read:all"));

    let removed = delete_role(&mut server, &request("/roles/1", &headers, &[("id", "1")]), 1_000);
    assert!(matches!(removed.body, Body::Changed { id: 1, .. }));
    let removed = delete_permission(&mut server, &request("/permissions/1", &headers, &[("id", "1")]), 1_000);
    assert!(matches!(removed.body, Body::Changed { id: 1, .. }));
    assert_eq!(server.tables().catalog().list_roles().len(), 1);
    assert_eq!(server.tables().catalog().list_permissions().len(), 0);
}

fn with_grants() -> (Server, String, i32, i32) {
    let (mut server, token) = seeded();
    let headers = [("user-token", token.as_str())];
    create_role(&mut server, &request("/roles", &headers, &[]), Some(CreateRolePayload { name: "editor".to_string() }), 1_000);
    create_permission(&mut server, &request("/permissions", &headers, &[]), Some(CreatePermissionPayload { name: "write".to_string() }), 1_000);
    create_permission(&mut server, &request("/permissions", &headers, &[]), Some(CreatePermissionPayload { name: "read".to_string() }), 1_000);
    for permission_id in [1, 2] {
        assign_permission_to_role(
            &mut server,
            &request("/role-permissions", &headers, &[]),
            Some(RolePermissionPayload { role_id: 1, permission_id }),
            1_000,
        );
    }
    assign_role_to_service(
        &mut server,
        &request("/service-roles", &headers, &[]),
        Some(ServiceRolePayload { service_id: FlexibleId::Str("Service A".to_string()), role_id: 1 }),
        1_000,
    );
    assign_role_to_person_in_service(
        &mut server,
        &request("/person-service-roles", &headers, &[]),
        Some(PersonServiceRolePayload {
            person_id: FlexibleId::Str("adm1".to_string()),
            service_id: FlexibleId::Int(1),
            role_id: 1,
        }),
        1_000,
    );
    (server, token, 1, 1)
}

#[test]
fn listings_along_the_edges() {
    let (mut server, token, role_id, _) = with_grants();
    let headers = [("user-token", token.as_str())];
    let permissions = list_role_permissions(&mut server, &request("/roles/1/permissions", &headers, &[("id", "1")]), 1_000);
    match permissions.body {
        Body::Permissions(list) => assert_eq!(list.iter().map(|p| p.name.clone()).collect::<Vec<_>>(), vec!["write", "read"]),
        _ => panic!("the permissions of the role"),
    }
    let roles = list_service_roles(&mut server, &request("/services/1/roles", &headers, &[("id", "Service A")]), 1_000);
    assert!(matches!(roles.body, Body::Roles(ref list) if list.len() == 1 && list[0].id == role_id));
    let roles = list_service_roles(&mut server, &request("/services/2/roles", &headers, &[("id", "2")]), 1_000);
    assert!(matches!(roles.body, Body::Roles(ref list) if list.is_empty()));
    let roles = list_person_roles_in_service(
        &mut server,
        &request("/people/1/services/1/roles", &headers, &[("person_id", "person-1"), ("service_id", "1")]),
        1_000,
    );
    assert!(matches!(roles.body, Body::Roles(ref list) if list.len() == 1 && list[0].name == "editor"));
    let people = list_persons_with_role_in_service(
        &mut server,
        &request("/services/1/roles/1/people", &headers, &[("service_id", "1"), ("role_id", "1")]),
        1_000,
    );
    assert!(matches!(people.body, Body::Users(ref list) if list.len() == 1 && list[0].username == "adm1"));
    let services = list_services_of_person(&mut server, &request("/people/1/services", &headers, &[("person_id", "1")]), 1_000);
    assert!(matches!(services.body, Body::Services(ref list) if list.len() == 1 && list[0].name == "Service A"));
}

#[test]
fn access_lists_are_sorted_and_cached() {
    let (mut server, token, _, _) = with_grants();
    let headers = [("user-token", token.as_str())];
    let checked = check_permission(
        &mut server,
        &request("/check-permission", &headers, &[]),
        Some(CheckAccessPayload { service_id: Some(FlexibleId::Str("Service A".to_string())), permission_name: None }),
        1_000,
    );
    match checked.body {
        Body::AccessChecked { access, .. } => {
            assert_eq!(access.user_id, 1);
            assert_eq!(access.service_id, 1);
            assert_eq!(access.roles, vec!["editor".to_string()]);
            assert_eq!(access.permissions, vec!["read".to_string(), "write".to_string()]);
            assert_eq!(access.expires_at, 100_000);
        }
        _ => panic!("the access"),
    }
    let cached = server.tables().load_access_cache(&token, 1).unwrap();
    assert_eq!(cached.expires_at, 100_000);
    assert_eq!(cached.access_json.permissions, vec!["read".to_string(), "write".to_string()]);
}

#[test]
fn every_change_of_a_grant_clears_what_it_makes_stale() {
    let (mut server, token, _, _) = with_grants();
    let headers = [("user-token", token.as_str())];
    let mut check = |server: &mut Server, expected: bool, permission: &str| {
        let response = check_permission(
            server,
            &request("/check-permission", &headers, &[]),
            Some(CheckAccessPayload { service_id: Some(FlexibleId::Int(1)), permission_name: Some(permission.to_string()) }),
            1_000,
        );
        assert!(matches!(response.body, Body::HasPermission { has_permission } if has_permission == expected), "{}", permission);
    };
    check(&mut server, true, "write");
    assert_eq!(server.tables().cache_count(), 1);

    let response = remove_permission_from_role(
        &mut server,
        &request("/role-permissions", &headers, &[]),
        Some(RolePermissionPayload { role_id: 1, permission_id: 1 }),
        1_000,
    );
    assert!(matches!(response.body, Body::PermissionRemoved { role_id: 1, permission_id: 1 }));
    assert_eq!(server.tables().cache_count(), 0);
    check(&mut server, false, "write");
    check(&mut server, true, "read");

    let response = update_permission(
        &mut server,
        &request("/permissions/2", &headers, &[("id", "2")]),
        Some(UpdatePermissionPayload { name: "read:all".to_string() }),
        1_000,
    );
    assert_eq!(response.status.code(), 200);
    check(&mut server, false, "read");
    check(&mut server, true, "read:all");

    let response = remove_role_from_person_in_service(
        &mut server,
        &request("/person-service-roles", &headers, &[]),
        Some(PersonServiceRolePayload { person_id: FlexibleId::Int(1), service_id: FlexibleId::Int(1), role_id: 1 }),
        1_000,
    );
    assert_eq!(response.status.code(), 200);
    check(&mut server, false, "read:all");

    assign_role_to_person_in_service(
        &mut server,
        &request("/person-service-roles", &headers, &[]),
        Some(PersonServiceRolePayload { person_id: FlexibleId::Int(1), service_id: FlexibleId::Int(1), role_id: 1 }),
        1_000,
    );
    check(&mut server, true, "read:all");

    let response = delete_role(&mut server, &request("/roles/1", &headers, &[("id", "1")]), 1_000);
    assert_eq!(response.status.code(), 200);
    check(&mut server, false, "read:all");
    assert!(!server.tables().catalog().has_edge(Edge::PersonServiceRole { person_id: 1, service_id: 1, role_id: 1 }));
}

#[test]
fn the_stored_check_of_a_persons_permission() {
    let (mut server, token, _, _) = with_grants();
    let headers = [("user-token", token.as_str())];
    let yes = check_person_permission_in_service(
        &mut server,
        &request("/check", &headers, &[]),
        Some(CheckPermissionPayload {
            person_id: FlexibleId::Int(1),
            service_id: FlexibleId::Str("Service A".to_string()),
            permission_name: "write".to_string(),
        }),
        1_000,
    );
    assert!(matches!(yes.body, Body::HasPermission { has_permission: true }));
    let from_path = check_person_permission_in_service(
        &mut server,
        &request("/check", &headers, &[("person_id", "adm1"), ("service_id", "2"), ("permission_name", "write")]),
        None,
        1_000,
    );
    assert!(matches!(from_path.body, Body::HasPermission { has_permission: false }));
    let nothing = check_person_permission_in_service(&mut server, &request("/check", &headers, &[]), None, 1_000);
    assert!(refused(&nothing, 400, ErrorCode::InvalidRequestBody));
    let unknown = check_person_permission_in_service(
        &mut server,
        &request("/check", &headers, &[]),
        Some(CheckPermissionPayload {
            person_id: FlexibleId::Str("ghost".to_string()),
            service_id: FlexibleId::Int(1),
            permission_name: "write".to_string(),
        }),
        1_000,
    );
    assert!(refused(&unknown, 400, ErrorCode::PersonNotFound));
}

#[test]
fn assigning_a_role_to_a_service_by_name_creates_the_service() {
    let (mut server, token, _, _) = with_grants();
    let headers = [("user-token", token.as_str())];
    let response = assign_role_to_service(
        &mut server,
        &request("/service-roles", &headers, &[]),
        Some(ServiceRolePayload { service_id: FlexibleId::Str("Brand New".to_string()), role_id: 1 }),
        1_000,
    );
    assert_eq!(response.status.code(), 200);
    assert!(server.tables().catalog().has_edge(Edge::ServiceRole { service_id: 3, role_id: 1 }));
    assert_eq!(server.tables().catalog().list_services().len(), 3);
    // Any other use of a name that no service has is refused.
    let response = list_service_roles(&mut server, &request("/services/x/roles", &headers, &[("id", "Nowhere")]), 1_000);
    assert!(refused(&response, 400, ErrorCode::InvalidServiceId));
    assert_eq!(server.tables().catalog().list_services().len(), 3);
}

#[test]
fn service_tokens_need_an_active_service() {
    let (mut server, token) = seeded();
    let headers = [("user-token", token.as_str())];
    let missing = issue_service_token(&mut server, &request("/services/9/token", &headers, &[("id", "9")]), 1_000);
    assert!(refused(&missing, 404, ErrorCode::ServiceNotFound));
    let issued = issue_service_token(&mut server, &request("/services/2/token", &headers, &[("id", "2")]), 1_000);
    assert_eq!(issued.status.code(), 200);
    assert_eq!(server.tables().token_count(), 2);
}

#[test]
fn a_check_with_a_user_token_as_service_token_is_refused() {
    let (mut server, token) = seeded();
    let headers = [("user-token", token.as_str()), ("service-token", token.as_str())];
    let response = check_permission(&mut server, &request("/check-permission", &headers, &[]), None, 1_000);
    assert!(refused(&response, 401, ErrorCode::InvalidServiceToken));
    let headers = [("user-token", token.as_str()), ("service-token", "unknown")];
    let response = check_permission(&mut server, &request("/check-permission", &headers, &[]), None, 1_000);
    assert!(refused(&response, 401, ErrorCode::InvalidServiceToken));
}

#[test]
fn a_check_with_a_service_token_as_user_token_is_refused() {
    let (mut server, token) = seeded();
    let headers = [("user-token", token.as_str())];
    let issued = issue_service_token(&mut server, &request("/services/1/token", &headers, &[("id", "1")]), 1_000);
    let service_token = match issued.body {
        Body::ServiceToken { service_token, .. } => service_token,
        _ => panic!("the service token"),
    };
    let headers = [("user-token", service_token.as_str())];
    let response = check_permission(
        &mut server,
        &request("/check-permission", &headers, &[]),
        Some(CheckAccessPayload { service_id: Some(FlexibleId::Int(1)), permission_name: None }),
        1_000,
    );
    assert!(refused(&response, 401, ErrorCode::InvalidToken));
}

#[test]
fn a_check_names_the_service_by_id_or_by_name() {
    let (mut server, token) = seeded();
    let headers = [("user-token", token.as_str())];
    for service in [FlexibleId::Int(2), FlexibleId::Str("2".to_string()), FlexibleId::Str(" Service B ".to_string())] {
        let response = check_permission(
            &mut server,
            &request("/check-permission", &headers, &[]),
            Some(CheckAccessPayload { service_id: Some(service), permission_name: None }),
            1_000,
        );
        assert!(matches!(response.body, Body::AccessChecked { ref access, .. } if access.service_id == 2));
    }
    for service in [FlexibleId::Str("".to_string()), FlexibleId::Str("No Such".to_string()), FlexibleId::Int(77)] {
        let response = check_permission(
            &mut server,
            &request("/check-permission", &headers, &[]),
            Some(CheckAccessPayload { service_id: Some(service), permission_name: None }),
            1_000,
        );
        assert!(refused(&response, 400, ErrorCode::InvalidServiceId));
    }
}

#[test]
fn a_grant_needs_a_permission_that_exists_when_named() {
    let (mut server, token) = seeded();
    let headers = [("user-token", token.as_str())];
    let response = grant_permission_to_person_in_service(
        &mut server,
        &request("/person-service-permissions", &headers, &[]),
        Some(PersonServicePermissionPayload {
            person_id: FlexibleId::Int(1),
            service_id: FlexibleId::Int(1),
            permission_id: None,
            permission_name: Some("ghost".to_string()),
        }),
        1_000,
    );
    assert!(refused(&response, 404, ErrorCode::PermissionNotFound));
    let response = grant_permission_to_person_in_service(
        &mut server,
        &request("/person-service-permissions", &headers, &[]),
        Some(PersonServicePermissionPayload {
            person_id: FlexibleId::Int(1),
            service_id: FlexibleId::Int(1),
            permission_id: None,
            permission_name: None,
        }),
        1_000,
    );
    assert!(refused(&response, 400, ErrorCode::InvalidRequestBody));
    assert_eq!(server.tables().catalog().list_roles().len(), 0);
}

#[test]
fn every_request_with_a_token_is_logged_once() {
    let (mut server, token) = seeded();
    let before = server.log_lines().len();
    let req = request("/users", &[("user-token", &token), ("x-forwarded-for", "10.1.2.3, 10.0.0.1")], &[]);
    list_people(&mut server, &req, 1_234);
    assert_eq!(server.log_lines().len(), before + 1);
    let line = server.log_lines().last().unwrap().clone();
    assert_eq!(line, format!("[access] token={} endpoint=/users ts=1234 ip=10.1.2.3", &token[..8]));
    let req = request("/users", &[("user-token", "bad-token-value")], &[]);
    list_people(&mut server, &req, 1_235);
    assert_eq!(
        server.log_lines().last().unwrap(),
        "[access] token=bad-toke endpoint=/users ts=1235 ip=unknown valid=false"
    );
    assert!(matches!(server.store(StoreCall::ListRoles), StoreAnswer::Names(_)));
}
