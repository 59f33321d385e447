use auth_api::command::Command;
use auth_api::entities::ServiceTokenData;
use auth_api::exchange::{Exchange, Operation, Outcome};
use auth_api::flexible::FlexibleId;
use auth_api::http::{Body, ErrorCode, StatusCode};
use auth_api::login::LoginTask;
use auth_api::payloads::LoginPayload;
use auth_api::protocol::{AccessScope, Step, StoreAnswer, StoreCall};
use auth_api::entities::{AuthUser, DocumentType, NewPerson, PersonType};
use auth_api::server::{check_permission, issue_service_token, login, CheckAccessPayload, Request, Server};
use auth_api::token::{TokenConfig, TokenPayload, TokenRecord};

fn config() -> TokenConfig {
    TokenConfig { ttl_seconds: 300, renew_threshold_seconds: 30, service_ttl_seconds: 604_800 }
}

fn user_row() -> TokenRecord {
    TokenRecord {
        token: "user-token-value".to_string(),
        payload: TokenPayload::User { user_id: 5, username: "u5".to_string(), name: "U Five".to_string() },
        expires_at: 5_000,
    }
}

/// An exchange for `operation` whose user token was just accepted: the step
/// that follows the read of the token.
fn authenticated(operation: Operation) -> Step<Exchange, Outcome> {
    let first = Exchange::begin(
        Some("user-token-value".to_string()),
        operation,
        1_000,
        config(),
        "fresh".repeat(13),
        vec![3u8; 16],
    );
    match first {
        Step::Call(exchange, StoreCall::FetchToken { token }) => {
            assert_eq!(token, "user-token-value");
            exchange.advance(StoreAnswer::Token(Some(user_row())))
        }
        _ => panic!("an exchange begins with the read of the user token"),
    }
}

fn failure_of(step: Step<Exchange, Outcome>) -> (u16, ErrorCode, bool) {
    match step {
        Step::Finish(outcome) => match outcome.response.body {
            Body::Error { code } => (outcome.response.status.code(), code, outcome.valid),
            _ => panic!("the exchange was to fail"),
        },
        Step::Call(..) => panic!("the exchange was to end"),
    }
}

fn next(step: Step<Exchange, Outcome>, answer: StoreAnswer) -> Step<Exchange, Outcome> {
    match step {
        Step::Call(exchange, _) => exchange.advance(answer),
        Step::Finish(_) => panic!("the exchange has ended"),
    }
}

#[test]
fn a_store_that_fails_the_validation_is_a_500() {
    let first = Exchange::begin(Some("t".to_string()), Operation::Profile, 1_000, config(), String::new(), vec![]);
    assert_eq!(failure_of(next(first, StoreAnswer::Failed)), (500, ErrorCode::TokenValidationFailed, false));
}

#[test]
fn a_store_that_fails_the_logout_is_a_500() {
    let step = authenticated(Operation::Logout);
    match &step {
        Step::Call(_, StoreCall::DeleteToken { token }) => assert_eq!(token, "user-token-value"),
        _ => panic!("a logout removes the token"),
    }
    assert_eq!(failure_of(next(step, StoreAnswer::Failed)), (500, ErrorCode::LogoutFailed, true));
}

fn check() -> Operation {
    Operation::CheckAccess {
        service_token: None,
        named_service: Some(FlexibleId::Int(9)),
        permission_name: Some("read".to_string()),
    }
}

fn active_service() -> StoreAnswer {
    StoreAnswer::ServiceData(Some(ServiceTokenData { id: 9, name: "nine".to_string(), status: true }))
}

#[test]
fn a_check_reads_the_service_then_the_cache_then_the_catalog() {
    let step = authenticated(check());
    assert!(matches!(&step, Step::Call(_, StoreCall::FindService { id: 9 })));
    let step = next(step, active_service());
    match &step {
        Step::Call(_, StoreCall::LoadAccess { token, service_id }) => {
            assert_eq!(token, "user-token-value");
            assert_eq!(*service_id, 9);
        }
        _ => panic!("the cache is read"),
    }
    let step = next(step, StoreAnswer::Access(None));
    assert!(matches!(&step, Step::Call(_, StoreCall::Grants { user_id: 5, service_id: 9 })));
    let step = next(
        step,
        StoreAnswer::Grants {
            roles: vec!["b".to_string(), "a".to_string(), "b".to_string()],
            permissions: vec!["write".to_string(), "read".to_string(), "read".to_string()],
        },
    );
    match &step {
        Step::Call(_, StoreCall::StoreAccess { row }) => {
            assert_eq!(row.token, "user-token-value");
            assert_eq!(row.service_id, 9);
            assert_eq!(row.expires_at, 1_300);
            assert_eq!(row.access.user_id, 5);
            assert_eq!(row.access.roles, vec!["a".to_string(), "b".to_string()]);
            assert_eq!(row.access.permissions, vec!["read".to_string(), "write".to_string()]);
            assert!(row.access.scopes.is_empty());
            assert_eq!(row.access.expires_at, 1_300);
        }
        _ => panic!("the access is cached"),
    }
    match next(step, StoreAnswer::Done) {
        Step::Finish(outcome) => {
            assert_eq!(outcome.response.status, StatusCode::Success);
            assert!(matches!(outcome.response.body, Body::HasPermission { has_permission: true }));
            assert_eq!(outcome.used_cache, Some(false));
            assert!(outcome.valid);
            assert_eq!(outcome.token, "user-token-value");
        }
        _ => panic!("the check ends"),
    }
}

#[test]
fn each_failing_statement_of_a_check_has_its_code() {
    assert_eq!(failure_of(next(authenticated(check()), StoreAnswer::Failed)), (500, ErrorCode::LoadServiceFailed, true));
    assert_eq!(
        failure_of(next(authenticated(check()), StoreAnswer::ServiceData(None))),
        (400, ErrorCode::InvalidServiceId, true)
    );
    let inactive = StoreAnswer::ServiceData(Some(ServiceTokenData { id: 9, name: "nine".to_string(), status: false }));
    assert_eq!(failure_of(next(authenticated(check()), inactive)), (403, ErrorCode::ServiceInactive, true));
    let at_cache = next(authenticated(check()), active_service());
    assert_eq!(failure_of(next(at_cache, StoreAnswer::Failed)), (500, ErrorCode::LoadAccessCacheFailed, true));
    let at_grants = next(next(authenticated(check()), active_service()), StoreAnswer::Access(None));
    assert_eq!(failure_of(next(at_grants, StoreAnswer::Failed)), (500, ErrorCode::LoadRolesFailed, true));
    let at_store = next(
        next(next(authenticated(check()), active_service()), StoreAnswer::Access(None)),
        StoreAnswer::Grants { roles: vec![], permissions: vec![] },
    );
    assert_eq!(failure_of(next(at_store, StoreAnswer::Failed)), (500, ErrorCode::StoreAccessCacheFailed, true));
}

#[test]
fn a_failed_change_is_answered_without_touching_the_cache() {
    let command = Command::DeleteRole { id: 4 };
    let step = authenticated(Operation::Admin { command });
    assert!(matches!(&step, Step::Call(_, StoreCall::DeleteRole { id: 4 })));
    assert_eq!(failure_of(next(step, StoreAnswer::Failed)), (500, ErrorCode::DeleteRoleFailed, true));
}

#[test]
fn a_change_is_answered_after_the_cache_is_cleared() {
    let command = Command::DeleteRole { id: 4 };
    let step = next(authenticated(Operation::Admin { command }), StoreAnswer::Done);
    assert!(matches!(&step, Step::Call(_, StoreCall::DropAccess { scope: AccessScope::All })));
    match next(step, StoreAnswer::Rows(3)) {
        Step::Finish(outcome) => assert!(matches!(outcome.response.body, Body::Changed { id: 4, .. })),
        _ => panic!("the change is answered"),
    }
    let command = Command::DeleteRole { id: 4 };
    let step = next(authenticated(Operation::Admin { command }), StoreAnswer::Done);
    assert_eq!(failure_of(next(step, StoreAnswer::Failed)), (500, ErrorCode::CacheInvalidationFailed, true));
}

#[test]
fn a_removed_person_loses_cache_rows_then_tokens() {
    let step = authenticated(Operation::Admin { command: Command::DeleteUser { id: 8 } });
    assert!(matches!(&step, Step::Call(_, StoreCall::DeletePerson { id: 8, now: 1_000 })));
    let step = next(step, StoreAnswer::Done);
    assert!(matches!(&step, Step::Call(_, StoreCall::DropAccess { scope: AccessScope::User { user_id: 8 } })));
    let step = next(step, StoreAnswer::Rows(2));
    assert!(matches!(&step, Step::Call(_, StoreCall::DeleteTokensForUser { user_id: 8 })));
    match next(step, StoreAnswer::Rows(3)) {
        Step::Finish(outcome) => {
            assert!(matches!(outcome.response.body, Body::UserDeleted { user_id: 8, revoked_tokens: 3 }))
        }
        _ => panic!("the removal is answered"),
    }
    let step = authenticated(Operation::Admin { command: Command::DeleteUser { id: 8 } });
    let step = next(next(step, StoreAnswer::Done), StoreAnswer::Rows(0));
    assert_eq!(failure_of(next(step, StoreAnswer::Failed)), (500, ErrorCode::UserTokenCleanupFailed, true));
}

fn grant() -> Operation {
    Operation::Grant { person: FlexibleId::Int(2), service: FlexibleId::Int(3), permission: FlexibleId::Int(4) }
}

#[test]
fn a_grant_that_loses_the_race_for_the_role_looks_it_up_again() {
    let step = authenticated(grant());
    match &step {
        Step::Call(_, StoreCall::FindId { name, .. }) => assert_eq!(name, "direct:2:3"),
        _ => panic!("the role is looked up"),
    }
    let step = next(step, StoreAnswer::Id(None));
    match &step {
        Step::Call(_, StoreCall::InsertRole { name }) => assert_eq!(name, "direct:2:3"),
        _ => panic!("the role is created"),
    }
    // Another grant created the role first.
    let step = next(step, StoreAnswer::Id(None));
    assert!(matches!(&step, Step::Call(_, StoreCall::FindId { .. })));
    let step = next(step, StoreAnswer::Id(Some(11)));
    assert!(matches!(
        &step,
        Step::Call(_, StoreCall::Link { edge: auth_api::entities::Edge::ServiceRole { service_id: 3, role_id: 11 } })
    ));
    let step = next(step, StoreAnswer::Done);
    assert!(matches!(
        &step,
        Step::Call(_, StoreCall::Link { edge: auth_api::entities::Edge::RolePermission { role_id: 11, permission_id: 4 } })
    ));
    let step = next(step, StoreAnswer::Done);
    assert!(matches!(
        &step,
        Step::Call(
            _,
            StoreCall::Link { edge: auth_api::entities::Edge::PersonServiceRole { person_id: 2, service_id: 3, role_id: 11 } }
        )
    ));
    let step = next(step, StoreAnswer::Done);
    assert!(matches!(
        &step,
        Step::Call(_, StoreCall::DropAccess { scope: AccessScope::Pair { user_id: 2, service_id: 3 } })
    ));
    match next(step, StoreAnswer::Rows(0)) {
        Step::Finish(outcome) => assert!(matches!(
            outcome.response.body,
            Body::Granted { person_id: 2, service_id: 3, permission_id: 4, role_id: 11 }
        )),
        _ => panic!("the grant is answered"),
    }
}

#[test]
fn each_failing_statement_of_a_grant_has_its_code() {
    assert_eq!(failure_of(next(authenticated(grant()), StoreAnswer::Failed)), (500, ErrorCode::ResolveDirectRoleFailed, true));
    let inserting = next(authenticated(grant()), StoreAnswer::Id(None));
    assert_eq!(failure_of(next(inserting, StoreAnswer::Failed)), (500, ErrorCode::CreateDirectRoleFailed, true));
    let refinding = next(next(authenticated(grant()), StoreAnswer::Id(None)), StoreAnswer::Id(None));
    assert_eq!(failure_of(next(refinding, StoreAnswer::Id(None))), (500, ErrorCode::ResolveDirectRoleFailed, true));
    let linking = next(authenticated(grant()), StoreAnswer::Id(Some(1)));
    assert_eq!(failure_of(next(linking, StoreAnswer::Failed)), (500, ErrorCode::LinkRoleServiceFailed, true));
    let linking = next(next(authenticated(grant()), StoreAnswer::Id(Some(1))), StoreAnswer::Done);
    assert_eq!(failure_of(next(linking, StoreAnswer::Failed)), (500, ErrorCode::AssignPermissionFailed, true));
    let linking = next(next(next(authenticated(grant()), StoreAnswer::Id(Some(1))), StoreAnswer::Done), StoreAnswer::Done);
    assert_eq!(failure_of(next(linking, StoreAnswer::Failed)), (500, ErrorCode::AssignRolePersonFailed, true));
}

#[test]
fn a_login_against_a_failing_store() {
    let payload = || Some(LoginPayload { username: "u".to_string(), password: "p".to_string() });
    let first = LoginTask::begin(payload(), 1_000, config(), "fresh".to_string());
    let task = match first {
        Step::Call(task, StoreCall::FindAuthUser { username }) => {
            assert_eq!(username, "u");
            task
        }
        _ => panic!("a login looks the person up"),
    };
    match task.advance(StoreAnswer::Failed) {
        Step::Finish(outcome) => {
            assert!(matches!(outcome.response.body, Body::Error { code: ErrorCode::LoginLookupFailed }));
            assert_eq!(outcome.response.status.code(), 500);
        }
        _ => panic!("the login fails"),
    }
    let digest = bcrypt::hash("p", 4).unwrap();
    let user = || AuthUser { id: 3, username: "u".to_string(), password_hash: digest.clone(), name: "U".to_string() };
    let task = match LoginTask::begin(payload(), 1_000, config(), "fresh".to_string()) {
        Step::Call(task, _) => task,
        _ => panic!("first step"),
    };
    let task = match task.advance(StoreAnswer::AuthUser(Some(user()))) {
        Step::Call(task, StoreCall::LiveTokenForUser { user_id: 3, now: 1_000 }) => task,
        _ => panic!("a live token is asked for"),
    };
    let task = match task.advance(StoreAnswer::Token(None)) {
        Step::Call(task, StoreCall::InsertToken { record }) => {
            assert_eq!(record.token, "fresh");
            assert_eq!(record.expires_at, 1_300);
            assert_eq!(record.payload.user_id(), Some(3));
            task
        }
        _ => panic!("a token is issued"),
    };
    match task.advance(StoreAnswer::Failed) {
        Step::Finish(outcome) => {
            assert!(matches!(outcome.response.body, Body::Error { code: ErrorCode::LoginIssueFailed }))
        }
        _ => panic!("the login fails"),
    }
}

fn request(path: &str, headers: &[(&str, &str)], params: &[(&str, &str)]) -> Request {
    Request {
        path: path.to_string(),
        headers: headers.iter().map(|(k, v)| (k.to_string(), v.to_string())).collect(),
        params: params.iter().map(|(k, v)| (k.to_string(), v.to_string())).collect(),
    }
}

#[test]
fn a_service_that_is_switched_off_denies_tokens_and_checks() {
    let mut server = Server::new(config(), "secret");
    server.store(StoreCall::CreatePerson {
        person: NewPerson {
            username: "adm1".to_string(),
            password_hash: bcrypt::hash("pw", 4).unwrap(),
            name: "Admin".to_string(),
            person_type: PersonType::J,
            document_type: DocumentType::RUC,
            document_number: "1".to_string(),
        },
    });
    server.store(StoreCall::CreateService { name: "Service A".to_string(), description: None });
    let logged = login(
        &mut server,
        &request("/auth/login", &[], &[]),
        Some(LoginPayload { username: "adm1".to_string(), password: "pw".to_string() }),
        1_000,
    );
    let token = match logged.body {
        Body::Login { token, .. } => token,
        _ => panic!("a login answers with a token"),
    };
    let headers = [("user-token", token.as_str())];
    let issued = issue_service_token(&mut server, &request("/services/1/token", &headers, &[("id", "1")]), 1_000);
    let service_token = match issued.body {
        Body::ServiceToken { service_token, .. } => service_token,
        _ => panic!("the service token"),
    };
    assert!(matches!(server.store(StoreCall::SetServiceStatus { id: 1, status: false }), StoreAnswer::Done));

    let denied = issue_service_token(&mut server, &request("/services/1/token", &headers, &[("id", "1")]), 1_000);
    assert_eq!(denied.status.code(), 403);
    assert!(matches!(denied.body, Body::Error { code: ErrorCode::ServiceInactive }));

    let by_body = check_permission(
        &mut server,
        &request("/check-permission", &headers, &[]),
        Some(CheckAccessPayload { service_id: Some(FlexibleId::Int(1)), permission_name: None }),
        1_000,
    );
    assert!(matches!(by_body.body, Body::Error { code: ErrorCode::ServiceInactive }));
    let with_token = [("user-token", token.as_str()), ("service-token", service_token.as_str())];
    let by_token = check_permission(&mut server, &request("/check-permission", &with_token, &[]), None, 1_000);
    assert!(matches!(by_token.body, Body::Error { code: ErrorCode::ServiceInactive }));

    server.store(StoreCall::SetServiceStatus { id: 1, status: true });
    let by_token = check_permission(&mut server, &request("/check-permission", &with_token, &[]), None, 1_000);
    assert_eq!(by_token.status.code(), 200);
}

fn commands() -> Vec<(Command, ErrorCode)> {
    let text = |t: &str| t.to_string();
    let id = || FlexibleId::Int(1);
    vec![
        (
            Command::CreateUser {
                username: text("u"),
                password: text("p"),
                name: text("n"),
                person_type: PersonType::N,
                document_type: DocumentType::CE,
                document_number: text("1"),
            },
            ErrorCode::CreateUserFailed,
        ),
        (Command::ListPeople, ErrorCode::ListUsersFailed),
        (Command::GetUser { id: 1 }, ErrorCode::GetUserFailed),
        (
            Command::UpdateUser { id: 1, new_username: None, new_password: None, new_name: Some(text("n")) },
            ErrorCode::UpdateUserFailed,
        ),
        (Command::DeleteUser { id: 1 }, ErrorCode::DeleteUserFailed),
        (Command::CreateService { name: text("s"), description: None }, ErrorCode::CreateServiceFailed),
        (Command::ListServices, ErrorCode::ListServicesFailed),
        (Command::UpdateService { id: 1, new_name: None, new_description: None }, ErrorCode::UpdateServiceFailed),
        (Command::DeleteService { id: 1 }, ErrorCode::DeleteServiceFailed),
        (Command::CreateRole { name: text("r") }, ErrorCode::CreateRoleFailed),
        (Command::ListRoles, ErrorCode::ListRolesFailed),
        (Command::GetRole { id: 1 }, ErrorCode::GetRoleFailed),
        (Command::UpdateRole { id: 1, name: text("r") }, ErrorCode::UpdateRoleFailed),
        (Command::DeleteRole { id: 1 }, ErrorCode::DeleteRoleFailed),
        (Command::CreatePermission { name: text("p") }, ErrorCode::CreatePermissionFailed),
        (Command::ListPermissions, ErrorCode::ListPermissionsFailed),
        (Command::UpdatePermission { id: 1, name: text("p") }, ErrorCode::UpdatePermissionFailed),
        (Command::DeletePermission { id: 1 }, ErrorCode::DeletePermissionFailed),
        (Command::AssignPermissionToRole { role_id: 1, permission_id: 1 }, ErrorCode::AssignPermissionFailed),
        (Command::RemovePermissionFromRole { role_id: 1, permission_id: 1 }, ErrorCode::RemovePermissionFailed),
        (Command::ListRolePermissions { role_id: 1 }, ErrorCode::ListRolePermissionsFailed),
        (Command::AssignRoleToService { service: id(), role_id: 1 }, ErrorCode::AssignRoleServiceFailed),
        (Command::RemoveRoleFromService { service: id(), role_id: 1 }, ErrorCode::RemoveRoleServiceFailed),
        (Command::ListServiceRoles { service: id() }, ErrorCode::ListServiceRolesFailed),
        (Command::AssignRoleToPerson { person: id(), service: id(), role_id: 1 }, ErrorCode::AssignRolePersonFailed),
        (Command::RemoveRoleFromPerson { person: id(), service: id(), role_id: 1 }, ErrorCode::RemoveRolePersonFailed),
        (Command::ListPersonRoles { person: id(), service: id() }, ErrorCode::ListPersonRolesFailed),
        (Command::ListPersonsWithRole { service: id(), role_id: 1 }, ErrorCode::ListPersonsWithRoleFailed),
        (Command::ListServicesOfPerson { person_id: 1 }, ErrorCode::ListPersonServicesFailed),
        (
            Command::CheckPersonPermission { person: id(), service: id(), permission_name: text("p") },
            ErrorCode::CheckPermissionFailed,
        ),
    ]
}

#[test]
fn every_command_has_its_own_failure() {
    let mut seen = Vec::new();
    for (command, code) in commands() {
        assert_eq!(command.failure(), code);
        let step = authenticated(Operation::Admin { command });
        assert!(matches!(step, Step::Call(..)));
        assert_eq!(failure_of(next(step, StoreAnswer::Failed)), (500, code, true));
        seen.push(code);
    }
    // No two commands share a code.
    seen.sort_by_key(|code| code.as_str());
    seen.dedup();
    assert_eq!(seen.len(), 30);
}

#[test]
fn an_answer_of_the_wrong_kind_fails_a_command() {
    for (command, code) in commands() {
        let step = authenticated(Operation::Admin { command });
        assert_eq!(failure_of(next(step, StoreAnswer::Token(None))), (500, code, true));
    }
}

#[test]
fn a_password_is_hashed_on_its_way_to_the_store() {
    let command = Command::CreateUser {
        username: "u".to_string(),
        password: "secret-password".to_string(),
        name: "n".to_string(),
        person_type: PersonType::N,
        document_type: DocumentType::DNI,
        document_number: "1".to_string(),
    };
    match authenticated(Operation::Admin { command }) {
        Step::Call(_, StoreCall::CreatePerson { person }) => {
            assert_ne!(person.password_hash, "secret-password");
            assert!(bcrypt::verify("secret-password", &person.password_hash).unwrap());
            assert_eq!(person.username, "u");
        }
        _ => panic!("the person is sent to the store"),
    }
    let command =
        Command::UpdateUser { id: 4, new_username: None, new_password: Some("next".to_string()), new_name: None };
    match authenticated(Operation::Admin { command }) {
        Step::Call(_, StoreCall::UpdatePerson { id, new_username, new_password_hash, new_name }) => {
            assert_eq!(id, 4);
            assert!(new_username.is_none() && new_name.is_none());
            assert!(bcrypt::verify("next", &new_password_hash.unwrap()).unwrap());
        }
        _ => panic!("the change is sent to the store"),
    }
}
