//! What the service answers: a status and a body, and for a failure a stable
//! machine code that clients switch on.

use crate::access::{AccessFacts, AccessSnapshot};
use crate::entities::{
    Named, Permission, Role, Service, ServiceView, User, UserView,
};
use crate::token::{PayloadView, TokenPayload};
use vstd::prelude::*;

verus! {

/// The status of an answer.
#[derive(Clone, Copy, Debug, PartialEq, Eq, Structural)]
pub enum StatusCode {
    Success,
    Created,
    BadRequest,
    Unauthorized,
    Forbidden,
    NotFound,
    InternalServerError,
}

impl StatusCode {
    /// The number of the status.
    pub open spec fn number(self) -> u16 {
        match self {
            StatusCode::Success => 200,
            StatusCode::Created => 201,
            StatusCode::BadRequest => 400,
            StatusCode::Unauthorized => 401,
            StatusCode::Forbidden => 403,
            StatusCode::NotFound => 404,
            StatusCode::InternalServerError => 500,
        }
    }

    /// The number of the status.
    pub fn code(self) -> (r: u16)
        ensures
            r == self.number(),
    {
        match self {
            StatusCode::Success => 200,
            StatusCode::Created => 201,
            StatusCode::BadRequest => 400,
            StatusCode::Unauthorized => 401,
            StatusCode::Forbidden => 403,
            StatusCode::NotFound => 404,
            StatusCode::InternalServerError => 500,
        }
    }
}

/// Why a request failed.
#[derive(Clone, Copy, Debug, PartialEq, Eq, Structural)]
pub enum ErrorCode {
    InvalidRequestBody,
    InvalidServiceId,
    InvalidPersonId,
    InvalidUserId,
    InvalidRoleId,
    InvalidPermissionId,
    PersonNotFound,
    MissingTokenHeader,
    InvalidToken,
    ExpiredToken,
    InvalidCredentials,
    InvalidServiceToken,
    ServiceInactive,
    UserNotFound,
    RoleNotFound,
    ServiceNotFound,
    PermissionNotFound,
    TokenValidationFailed,
    LoginLookupFailed,
    LoginIssueFailed,
    LogoutFailed,
    LoadAccessCacheFailed,
    StoreAccessCacheFailed,
    LoadRolesFailed,
    HashPasswordFailed,
    CreateUserFailed,
    ListUsersFailed,
    GetUserFailed,
    UpdateUserFailed,
    DeleteUserFailed,
    UserTokenCleanupFailed,
    CreateServiceFailed,
    ListServicesFailed,
    UpdateServiceFailed,
    DeleteServiceFailed,
    LoadServiceFailed,
    IssueServiceTokenFailed,
    ListPersonServicesFailed,
    CreateRoleFailed,
    ListRolesFailed,
    GetRoleFailed,
    UpdateRoleFailed,
    DeleteRoleFailed,
    CreatePermissionFailed,
    ListPermissionsFailed,
    UpdatePermissionFailed,
    DeletePermissionFailed,
    AssignPermissionFailed,
    RemovePermissionFailed,
    ListRolePermissionsFailed,
    AssignRoleServiceFailed,
    RemoveRoleServiceFailed,
    ListServiceRolesFailed,
    AssignRolePersonFailed,
    RemoveRolePersonFailed,
    ListPersonRolesFailed,
    ListPersonsWithRoleFailed,
    CheckPermissionFailed,
    ResolveServiceFailed,
    ResolvePersonFailed,
    ResolvePermissionFailed,
    ResolveDirectRoleFailed,
    CreateDirectRoleFailed,
    LinkRoleServiceFailed,
    CacheInvalidationFailed,
}

impl ErrorCode {
    /// The machine code that the answer carries.
    pub open spec fn text(self) -> Seq<char> {
        match self {
            ErrorCode::InvalidRequestBody => "invalid_request_body"@,
            ErrorCode::InvalidServiceId => "invalid_service_id"@,
            ErrorCode::InvalidPersonId => "invalid_person_id"@,
            ErrorCode::InvalidUserId => "invalid_user_id"@,
            ErrorCode::InvalidRoleId => "invalid_role_id"@,
            ErrorCode::InvalidPermissionId => "invalid_permission_id"@,
            ErrorCode::PersonNotFound => "person_not_found"@,
            ErrorCode::MissingTokenHeader => "missing_token_header"@,
            ErrorCode::InvalidToken => "invalid_token"@,
            ErrorCode::ExpiredToken => "expired_token"@,
            ErrorCode::InvalidCredentials => "invalid_credentials"@,
            ErrorCode::InvalidServiceToken => "invalid_service_token"@,
            ErrorCode::ServiceInactive => "service_inactive"@,
            ErrorCode::UserNotFound => "user_not_found"@,
            ErrorCode::RoleNotFound => "role_not_found"@,
            ErrorCode::ServiceNotFound => "service_not_found"@,
            ErrorCode::PermissionNotFound => "permission_not_found"@,
            ErrorCode::TokenValidationFailed => "token_validation_failed"@,
            ErrorCode::LoginLookupFailed => "login_lookup_failed"@,
            ErrorCode::LoginIssueFailed => "login_issue_failed"@,
            ErrorCode::LogoutFailed => "logout_failed"@,
            ErrorCode::LoadAccessCacheFailed => "load_access_cache_failed"@,
            ErrorCode::StoreAccessCacheFailed => "store_access_cache_failed"@,
            ErrorCode::LoadRolesFailed => "load_roles_failed"@,
            ErrorCode::HashPasswordFailed => "hash_password_failed"@,
            ErrorCode::CreateUserFailed => "create_user_failed"@,
            ErrorCode::ListUsersFailed => "list_users_failed"@,
            ErrorCode::GetUserFailed => "get_user_failed"@,
            ErrorCode::UpdateUserFailed => "update_user_failed"@,
            ErrorCode::DeleteUserFailed => "delete_user_failed"@,
            ErrorCode::UserTokenCleanupFailed => "user_token_cleanup_failed"@,
            ErrorCode::CreateServiceFailed => "create_service_failed"@,
            ErrorCode::ListServicesFailed => "list_services_failed"@,
            ErrorCode::UpdateServiceFailed => "update_service_failed"@,
            ErrorCode::DeleteServiceFailed => "delete_service_failed"@,
            ErrorCode::LoadServiceFailed => "load_service_failed"@,
            ErrorCode::IssueServiceTokenFailed => "issue_service_token_failed"@,
            ErrorCode::ListPersonServicesFailed => "list_person_services_failed"@,
            ErrorCode::CreateRoleFailed => "create_role_failed"@,
            ErrorCode::ListRolesFailed => "list_roles_failed"@,
            ErrorCode::GetRoleFailed => "get_role_failed"@,
            ErrorCode::UpdateRoleFailed => "update_role_failed"@,
            ErrorCode::DeleteRoleFailed => "delete_role_failed"@,
            ErrorCode::CreatePermissionFailed => "create_permission_failed"@,
            ErrorCode::ListPermissionsFailed => "list_permissions_failed"@,
            ErrorCode::UpdatePermissionFailed => "update_permission_failed"@,
            ErrorCode::DeletePermissionFailed => "delete_permission_failed"@,
            ErrorCode::AssignPermissionFailed => "assign_permission_failed"@,
            ErrorCode::RemovePermissionFailed => "remove_permission_failed"@,
            ErrorCode::ListRolePermissionsFailed => "list_role_permissions_failed"@,
            ErrorCode::AssignRoleServiceFailed => "assign_role_service_failed"@,
            ErrorCode::RemoveRoleServiceFailed => "remove_role_service_failed"@,
            ErrorCode::ListServiceRolesFailed => "list_service_roles_failed"@,
            ErrorCode::AssignRolePersonFailed => "assign_role_person_failed"@,
            ErrorCode::RemoveRolePersonFailed => "remove_role_person_failed"@,
            ErrorCode::ListPersonRolesFailed => "list_person_roles_failed"@,
            ErrorCode::ListPersonsWithRoleFailed => "list_persons_with_role_failed"@,
            ErrorCode::CheckPermissionFailed => "check_permission_failed"@,
            ErrorCode::ResolveServiceFailed => "resolve_service_failed"@,
            ErrorCode::ResolvePersonFailed => "resolve_person_failed"@,
            ErrorCode::ResolvePermissionFailed => "resolve_permission_failed"@,
            ErrorCode::ResolveDirectRoleFailed => "resolve_direct_role_failed"@,
            ErrorCode::CreateDirectRoleFailed => "create_direct_role_failed"@,
            ErrorCode::LinkRoleServiceFailed => "link_role_service_failed"@,
            ErrorCode::CacheInvalidationFailed => "cache_invalidation_failed"@,
        }
    }

    /// The status that goes with the failure: what the request got wrong is
    /// 400, a token or a password that is not accepted is 401, a service that
    /// is switched off is 403, what is not there is 404, and a store that
    /// failed is 500.
    pub open spec fn status(self) -> StatusCode {
        match self {
            ErrorCode::InvalidRequestBody
            | ErrorCode::InvalidServiceId
            | ErrorCode::InvalidPersonId
            | ErrorCode::InvalidUserId
            | ErrorCode::InvalidRoleId
            | ErrorCode::InvalidPermissionId
            | ErrorCode::PersonNotFound => StatusCode::BadRequest,
            ErrorCode::MissingTokenHeader
            | ErrorCode::InvalidToken
            | ErrorCode::ExpiredToken
            | ErrorCode::InvalidCredentials
            | ErrorCode::InvalidServiceToken => StatusCode::Unauthorized,
            ErrorCode::ServiceInactive => StatusCode::Forbidden,
            ErrorCode::UserNotFound
            | ErrorCode::RoleNotFound
            | ErrorCode::ServiceNotFound
            | ErrorCode::PermissionNotFound => StatusCode::NotFound,
            _ => StatusCode::InternalServerError,
        }
    }

    /// The machine code that the answer carries.
    pub fn as_str(self) -> (r: &'static str)
        ensures
            r@ == self.text(),
    {
        match self {
            ErrorCode::InvalidRequestBody => "invalid_request_body",
            ErrorCode::InvalidServiceId => "invalid_service_id",
            ErrorCode::InvalidPersonId => "invalid_person_id",
            ErrorCode::InvalidUserId => "invalid_user_id",
            ErrorCode::InvalidRoleId => "invalid_role_id",
            ErrorCode::InvalidPermissionId => "invalid_permission_id",
            ErrorCode::PersonNotFound => "person_not_found",
            ErrorCode::MissingTokenHeader => "missing_token_header",
            ErrorCode::InvalidToken => "invalid_token",
            ErrorCode::ExpiredToken => "expired_token",
            ErrorCode::InvalidCredentials => "invalid_credentials",
            ErrorCode::InvalidServiceToken => "invalid_service_token",
            ErrorCode::ServiceInactive => "service_inactive",
            ErrorCode::UserNotFound => "user_not_found",
            ErrorCode::RoleNotFound => "role_not_found",
            ErrorCode::ServiceNotFound => "service_not_found",
            ErrorCode::PermissionNotFound => "permission_not_found",
            ErrorCode::TokenValidationFailed => "token_validation_failed",
            ErrorCode::LoginLookupFailed => "login_lookup_failed",
            ErrorCode::LoginIssueFailed => "login_issue_failed",
            ErrorCode::LogoutFailed => "logout_failed",
            ErrorCode::LoadAccessCacheFailed => "load_access_cache_failed",
            ErrorCode::StoreAccessCacheFailed => "store_access_cache_failed",
            ErrorCode::LoadRolesFailed => "load_roles_failed",
            ErrorCode::HashPasswordFailed => "hash_password_failed",
            ErrorCode::CreateUserFailed => "create_user_failed",
            ErrorCode::ListUsersFailed => "list_users_failed",
            ErrorCode::GetUserFailed => "get_user_failed",
            ErrorCode::UpdateUserFailed => "update_user_failed",
            ErrorCode::DeleteUserFailed => "delete_user_failed",
            ErrorCode::UserTokenCleanupFailed => "user_token_cleanup_failed",
            ErrorCode::CreateServiceFailed => "create_service_failed",
            ErrorCode::ListServicesFailed => "list_services_failed",
            ErrorCode::UpdateServiceFailed => "update_service_failed",
            ErrorCode::DeleteServiceFailed => "delete_service_failed",
            ErrorCode::LoadServiceFailed => "load_service_failed",
            ErrorCode::IssueServiceTokenFailed => "issue_service_token_failed",
            ErrorCode::ListPersonServicesFailed => "list_person_services_failed",
            ErrorCode::CreateRoleFailed => "create_role_failed",
            ErrorCode::ListRolesFailed => "list_roles_failed",
            ErrorCode::GetRoleFailed => "get_role_failed",
            ErrorCode::UpdateRoleFailed => "update_role_failed",
            ErrorCode::DeleteRoleFailed => "delete_role_failed",
            ErrorCode::CreatePermissionFailed => "create_permission_failed",
            ErrorCode::ListPermissionsFailed => "list_permissions_failed",
            ErrorCode::UpdatePermissionFailed => "update_permission_failed",
            ErrorCode::DeletePermissionFailed => "delete_permission_failed",
            ErrorCode::AssignPermissionFailed => "assign_permission_failed",
            ErrorCode::RemovePermissionFailed => "remove_permission_failed",
            ErrorCode::ListRolePermissionsFailed => "list_role_permissions_failed",
            ErrorCode::AssignRoleServiceFailed => "assign_role_service_failed",
            ErrorCode::RemoveRoleServiceFailed => "remove_role_service_failed",
            ErrorCode::ListServiceRolesFailed => "list_service_roles_failed",
            ErrorCode::AssignRolePersonFailed => "assign_role_person_failed",
            ErrorCode::RemoveRolePersonFailed => "remove_role_person_failed",
            ErrorCode::ListPersonRolesFailed => "list_person_roles_failed",
            ErrorCode::ListPersonsWithRoleFailed => "list_persons_with_role_failed",
            ErrorCode::CheckPermissionFailed => "check_permission_failed",
            ErrorCode::ResolveServiceFailed => "resolve_service_failed",
            ErrorCode::ResolvePersonFailed => "resolve_person_failed",
            ErrorCode::ResolvePermissionFailed => "resolve_permission_failed",
            ErrorCode::ResolveDirectRoleFailed => "resolve_direct_role_failed",
            ErrorCode::CreateDirectRoleFailed => "create_direct_role_failed",
            ErrorCode::LinkRoleServiceFailed => "link_role_service_failed",
            ErrorCode::CacheInvalidationFailed => "cache_invalidation_failed",
        }
    }

    /// The status that goes with the failure.
    pub fn status_code(self) -> (r: StatusCode)
        ensures
            r == self.status(),
    {
        match self {
            ErrorCode::InvalidRequestBody
            | ErrorCode::InvalidServiceId
            | ErrorCode::InvalidPersonId
            | ErrorCode::InvalidUserId
            | ErrorCode::InvalidRoleId
            | ErrorCode::InvalidPermissionId
            | ErrorCode::PersonNotFound => StatusCode::BadRequest,
            ErrorCode::MissingTokenHeader
            | ErrorCode::InvalidToken
            | ErrorCode::ExpiredToken
            | ErrorCode::InvalidCredentials
            | ErrorCode::InvalidServiceToken => StatusCode::Unauthorized,
            ErrorCode::ServiceInactive => StatusCode::Forbidden,
            ErrorCode::UserNotFound
            | ErrorCode::RoleNotFound
            | ErrorCode::ServiceNotFound
            | ErrorCode::PermissionNotFound => StatusCode::NotFound,
            _ => StatusCode::InternalServerError,
        }
    }

    /// The sentence that explains a refusal for want of a token or of the
    /// right password; other failures carry none.
    pub open spec fn detail(self) -> Option<Seq<char>> {
        match self {
            ErrorCode::MissingTokenHeader => Some(
                "header user-token missing or empty; send user-token: <value> with every request"@,
            ),
            ErrorCode::InvalidToken => Some(
                "token invalid or revoked; log in to get a new one"@,
            ),
            ErrorCode::ExpiredToken => Some("token expired; log in to get a new one"@),
            ErrorCode::InvalidCredentials => Some("wrong user name or password"@),
            _ => None,
        }
    }

    /// The sentence that explains the failure, if it has one.
    pub fn explain(self) -> (r: Option<&'static str>)
        ensures
            match r {
                Some(text) => self.detail() == Some(text@),
                None => self.detail() is None,
            },
    {
        match self {
            ErrorCode::MissingTokenHeader => Some(
                "header user-token missing or empty; send user-token: <value> with every request",
            ),
            ErrorCode::InvalidToken => Some("token invalid or revoked; log in to get a new one"),
            ErrorCode::ExpiredToken => Some("token expired; log in to get a new one"),
            ErrorCode::InvalidCredentials => Some("wrong user name or password"),
            _ => None,
        }
    }
}

/// The word by which an answer reports that a change was made.
#[derive(Clone, Copy, Debug, PartialEq, Eq, Structural)]
pub enum StatusWord {
    Success,
    LoggedOut,
    RoleRemovedFromService,
    RoleRemovedFromPerson,
    PermissionRemovedFromRole,
    PermissionGranted,
    UserDeleted,
    ServiceDeleted,
    RoleDeleted,
    PermissionDeleted,
}

impl StatusWord {
    /// The word as the answer carries it.
    pub open spec fn text(self) -> Seq<char> {
        match self {
            StatusWord::Success => "success"@,
            StatusWord::LoggedOut => "logged_out"@,
            StatusWord::RoleRemovedFromService => "role_removed_from_service"@,
            StatusWord::RoleRemovedFromPerson => "role_removed_from_person"@,
            StatusWord::PermissionRemovedFromRole => "permission_removed_from_role"@,
            StatusWord::PermissionGranted => "permission_granted"@,
            StatusWord::UserDeleted => "user_deleted"@,
            StatusWord::ServiceDeleted => "service_deleted"@,
            StatusWord::RoleDeleted => "role_deleted"@,
            StatusWord::PermissionDeleted => "permission_deleted"@,
        }
    }

    /// The word as the answer carries it.
    pub fn as_str(self) -> (r: &'static str)
        ensures
            r@ == self.text(),
    {
        match self {
            StatusWord::Success => "success",
            StatusWord::LoggedOut => "logged_out",
            StatusWord::RoleRemovedFromService => "role_removed_from_service",
            StatusWord::RoleRemovedFromPerson => "role_removed_from_person",
            StatusWord::PermissionRemovedFromRole => "permission_removed_from_role",
            StatusWord::PermissionGranted => "permission_granted",
            StatusWord::UserDeleted => "user_deleted",
            StatusWord::ServiceDeleted => "service_deleted",
            StatusWord::RoleDeleted => "role_deleted",
            StatusWord::PermissionDeleted => "permission_deleted",
        }
    }
}

/// The body of an answer.
pub enum Body {
    /// A failure.
    Error { code: ErrorCode },
    /// The page of welcome.
    Home,
    /// A change was made.
    Status { word: StatusWord },
    /// A change was made to the entity with an id.
    Changed { word: StatusWord, id: i32 },
    /// A person was removed and this many of their tokens were revoked.
    UserDeleted { user_id: i32, revoked_tokens: u64 },
    /// A permission was taken from a role.
    PermissionRemoved { role_id: i32, permission_id: i32 },
    /// A permission was granted to a person in a service through a role of their own.
    Granted { person_id: i32, service_id: i32, permission_id: i32, role_id: i32 },
    /// A login: the token, when it expires, and whom it stands for.
    Login { token: String, expires_at: i64, payload: TokenPayload },
    /// Whom a token stands for.
    Profile { payload: TokenPayload, renewed: bool, expires_at: i64 },
    /// A token was found valid.
    TokenChecked { payload: TokenPayload, renewed: bool, expires_at: i64 },
    /// What a person may do in a service.
    AccessChecked { access: AccessSnapshot, renewed: bool, expires_at: i64 },
    /// Whether a person holds a permission.
    HasPermission { has_permission: bool },
    /// A token for a service.
    ServiceToken { service_id: i32, service_name: String, service_token: String, expires_at: i64 },
    User(User),
    Users(Vec<User>),
    Service(Service),
    Services(Vec<Service>),
    Role(Role),
    Roles(Vec<Role>),
    Permission(Permission),
    Permissions(Vec<Permission>),
}

/// A body as plain values.
pub enum BodyView {
    Error { code: ErrorCode },
    Home,
    Status { word: StatusWord },
    Changed { word: StatusWord, id: i32 },
    UserDeleted { user_id: i32, revoked_tokens: u64 },
    PermissionRemoved { role_id: i32, permission_id: i32 },
    Granted { person_id: i32, service_id: i32, permission_id: i32, role_id: i32 },
    Login { token: Seq<char>, expires_at: i64, payload: PayloadView },
    Profile { payload: PayloadView, renewed: bool, expires_at: i64 },
    TokenChecked { payload: PayloadView, renewed: bool, expires_at: i64 },
    AccessChecked { access: AccessFacts, renewed: bool, expires_at: i64 },
    HasPermission { has_permission: bool },
    ServiceToken {
        service_id: i32,
        service_name: Seq<char>,
        service_token: Seq<char>,
        expires_at: i64,
    },
    User(UserView),
    Users(Seq<UserView>),
    Service(ServiceView),
    Services(Seq<ServiceView>),
    Role(Named),
    Roles(Seq<Named>),
    Permission(Named),
    Permissions(Seq<Named>),
}

impl View for Body {
    type V = BodyView;

    open spec fn view(&self) -> BodyView {
        match *self {
            Body::Error { code } => BodyView::Error { code },
            Body::Home => BodyView::Home,
            Body::Status { word } => BodyView::Status { word },
            Body::Changed { word, id } => BodyView::Changed { word, id },
            Body::UserDeleted { user_id, revoked_tokens } => BodyView::UserDeleted {
                user_id,
                revoked_tokens,
            },
            Body::PermissionRemoved { role_id, permission_id } => BodyView::PermissionRemoved {
                role_id,
                permission_id,
            },
            Body::Granted { person_id, service_id, permission_id, role_id } => BodyView::Granted {
                person_id,
                service_id,
                permission_id,
                role_id,
            },
            Body::Login { token, expires_at, payload } => BodyView::Login {
                token: token@,
                expires_at,
                payload: payload@,
            },
            Body::Profile { payload, renewed, expires_at } => BodyView::Profile {
                payload: payload@,
                renewed,
                expires_at,
            },
            Body::TokenChecked { payload, renewed, expires_at } => BodyView::TokenChecked {
                payload: payload@,
                renewed,
                expires_at,
            },
            Body::AccessChecked { access, renewed, expires_at } => BodyView::AccessChecked {
                access: access@,
                renewed,
                expires_at,
            },
            Body::HasPermission { has_permission } => BodyView::HasPermission { has_permission },
            Body::ServiceToken {
                service_id,
                service_name,
                service_token,
                expires_at,
            } => BodyView::ServiceToken {
                service_id,
                service_name: service_name@,
                service_token: service_token@,
                expires_at,
            },
            Body::User(user) => BodyView::User(user@),
            Body::Users(users) => BodyView::Users(users.deep_view()),
            Body::Service(service) => BodyView::Service(service@),
            Body::Services(services) => BodyView::Services(services.deep_view()),
            Body::Role(role) => BodyView::Role(role@),
            Body::Roles(roles) => BodyView::Roles(roles.deep_view()),
            Body::Permission(permission) => BodyView::Permission(permission@),
            Body::Permissions(permissions) => BodyView::Permissions(permissions.deep_view()),
        }
    }
}

/// An answer: a status and a body.
pub struct Response {
    pub status: StatusCode,
    pub body: Body,
}

/// An answer as plain values.
pub struct ResponseView {
    pub status: StatusCode,
    pub body: BodyView,
}

impl View for Response {
    type V = ResponseView;

    open spec fn view(&self) -> ResponseView {
        ResponseView { status: self.status, body: self.body@ }
    }
}

impl ResponseView {
    /// The answer to a request that failed.
    pub open spec fn failure(code: ErrorCode) -> ResponseView {
        ResponseView { status: code.status(), body: BodyView::Error { code } }
    }

    /// The answer to a request that was carried out.
    pub open spec fn success(body: BodyView) -> ResponseView {
        ResponseView { status: StatusCode::Success, body }
    }

    /// The answer to a request that created something.
    pub open spec fn created(body: BodyView) -> ResponseView {
        ResponseView { status: StatusCode::Created, body }
    }
}

/// The answer to a request that failed.
pub fn error_response(code: ErrorCode) -> (r: Response)
    ensures
        r@ == ResponseView::failure(code),
{
    Response { status: code.status_code(), body: Body::Error { code } }
}

/// The answer to a request that was carried out.
pub fn ok_response(body: Body) -> (r: Response)
    ensures
        r@ == ResponseView::success(body@),
{
    Response { status: StatusCode::Success, body }
}

/// The answer to a request that created something.
pub fn created_response(body: Body) -> (r: Response)
    ensures
        r@ == ResponseView::created(body@),
{
    Response { status: StatusCode::Created, body }
}

} // verus!
