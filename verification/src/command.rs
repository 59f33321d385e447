//! The commands of the administration: what each puts to the store, which
//! part of the cache it makes stale, and what it answers.

use crate::entities::{
    clone_text, text_of, DocumentType, Edge, LinkQuery, NameRow, Named, NewPerson, NewPersonView,
    Permission, PersonType, Role,
};
use crate::flexible::{FlexibleId, FlexibleIdView};
use crate::http::{
    created_response, error_response, ok_response, Body, BodyView, ErrorCode, Response,
    ResponseView, StatusWord,
};
use crate::password::{hash_password, stored_digest};
use crate::protocol::{AccessScope, AnswerView, CallView, StoreAnswer, StoreCall};
use vstd::prelude::*;

verus! {

/// A command of the administration, checked and ready to be carried out.
pub enum Command {
    /// Create a person.
    CreateUser {
        username: String,
        password: String,
        name: String,
        person_type: PersonType,
        document_type: DocumentType,
        document_number: String,
    },
    /// List the persons.
    ListPeople,
    /// Read a person.
    GetUser { id: i32 },
    /// Change a person.
    UpdateUser {
        id: i32,
        new_username: Option<String>,
        new_password: Option<String>,
        new_name: Option<String>,
    },
    /// Remove a person and revoke their tokens.
    DeleteUser { id: i32 },
    /// Create a service.
    CreateService { name: String, description: Option<String> },
    /// List the services.
    ListServices,
    /// Change a service.
    UpdateService { id: i32, new_name: Option<String>, new_description: Option<String> },
    /// Remove a service.
    DeleteService { id: i32 },
    /// Create a role.
    CreateRole { name: String },
    /// List the roles.
    ListRoles,
    /// Read a role.
    GetRole { id: i32 },
    /// Rename a role.
    UpdateRole { id: i32, name: String },
    /// Remove a role.
    DeleteRole { id: i32 },
    /// Create a permission.
    CreatePermission { name: String },
    /// List the permissions.
    ListPermissions,
    /// Rename a permission.
    UpdatePermission { id: i32, name: String },
    /// Remove a permission.
    DeletePermission { id: i32 },
    /// Let a role confer a permission.
    AssignPermissionToRole { role_id: i32, permission_id: i32 },
    /// Take a permission from a role.
    RemovePermissionFromRole { role_id: i32, permission_id: i32 },
    /// List the permissions of a role.
    ListRolePermissions { role_id: i32 },
    /// Make a role visible in a service, which is created where it is missing.
    AssignRoleToService { service: FlexibleId, role_id: i32 },
    /// Take a role out of a service.
    RemoveRoleFromService { service: FlexibleId, role_id: i32 },
    /// List the roles of a service.
    ListServiceRoles { service: FlexibleId },
    /// Give a person a role in a service.
    AssignRoleToPerson { person: FlexibleId, service: FlexibleId, role_id: i32 },
    /// Take a role in a service from a person.
    RemoveRoleFromPerson { person: FlexibleId, service: FlexibleId, role_id: i32 },
    /// List the roles of a person in a service.
    ListPersonRoles { person: FlexibleId, service: FlexibleId },
    /// List the persons that have a role in a service.
    ListPersonsWithRole { service: FlexibleId, role_id: i32 },
    /// List the services in which a person has a role.
    ListServicesOfPerson { person_id: i32 },
    /// Ask whether a person holds a permission in a service.
    CheckPersonPermission { person: FlexibleId, service: FlexibleId, permission_name: String },
}

/// A command as plain values.
pub enum CommandView {
    CreateUser {
        username: Seq<char>,
        password: Seq<char>,
        name: Seq<char>,
        person_type: PersonType,
        document_type: DocumentType,
        document_number: Seq<char>,
    },
    ListPeople,
    GetUser { id: i32 },
    UpdateUser {
        id: i32,
        new_username: Option<Seq<char>>,
        new_password: Option<Seq<char>>,
        new_name: Option<Seq<char>>,
    },
    DeleteUser { id: i32 },
    CreateService { name: Seq<char>, description: Option<Seq<char>> },
    ListServices,
    UpdateService { id: i32, new_name: Option<Seq<char>>, new_description: Option<Seq<char>> },
    DeleteService { id: i32 },
    CreateRole { name: Seq<char> },
    ListRoles,
    GetRole { id: i32 },
    UpdateRole { id: i32, name: Seq<char> },
    DeleteRole { id: i32 },
    CreatePermission { name: Seq<char> },
    ListPermissions,
    UpdatePermission { id: i32, name: Seq<char> },
    DeletePermission { id: i32 },
    AssignPermissionToRole { role_id: i32, permission_id: i32 },
    RemovePermissionFromRole { role_id: i32, permission_id: i32 },
    ListRolePermissions { role_id: i32 },
    AssignRoleToService { service: FlexibleIdView, role_id: i32 },
    RemoveRoleFromService { service: FlexibleIdView, role_id: i32 },
    ListServiceRoles { service: FlexibleIdView },
    AssignRoleToPerson { person: FlexibleIdView, service: FlexibleIdView, role_id: i32 },
    RemoveRoleFromPerson { person: FlexibleIdView, service: FlexibleIdView, role_id: i32 },
    ListPersonRoles { person: FlexibleIdView, service: FlexibleIdView },
    ListPersonsWithRole { service: FlexibleIdView, role_id: i32 },
    ListServicesOfPerson { person_id: i32 },
    CheckPersonPermission {
        person: FlexibleIdView,
        service: FlexibleIdView,
        permission_name: Seq<char>,
    },
}

impl View for Command {
    type V = CommandView;

    open spec fn view(&self) -> CommandView {
        match *self {
            Command::CreateUser {
                username,
                password,
                name,
                person_type,
                document_type,
                document_number,
            } => CommandView::CreateUser {
                username: username@,
                password: password@,
                name: name@,
                person_type,
                document_type,
                document_number: document_number@,
            },
            Command::ListPeople => CommandView::ListPeople,
            Command::GetUser { id } => CommandView::GetUser { id },
            Command::UpdateUser {
                id,
                new_username,
                new_password,
                new_name,
            } => CommandView::UpdateUser { id, new_username: text_of(
                new_username,
            ), new_password: text_of(new_password), new_name: text_of(new_name) },
            Command::DeleteUser { id } => CommandView::DeleteUser { id },
            Command::CreateService { name, description } => CommandView::CreateService {
                name: name@,
                description: text_of(description),
            },
            Command::ListServices => CommandView::ListServices,
            Command::UpdateService { id, new_name, new_description } => CommandView::UpdateService {
                id,
                new_name: text_of(new_name),
                new_description: text_of(new_description),
            },
            Command::DeleteService { id } => CommandView::DeleteService { id },
            Command::CreateRole { name } => CommandView::CreateRole { name: name@ },
            Command::ListRoles => CommandView::ListRoles,
            Command::GetRole { id } => CommandView::GetRole { id },
            Command::UpdateRole { id, name } => CommandView::UpdateRole { id, name: name@ },
            Command::DeleteRole { id } => CommandView::DeleteRole { id },
            Command::CreatePermission { name } => CommandView::CreatePermission { name: name@ },
            Command::ListPermissions => CommandView::ListPermissions,
            Command::UpdatePermission { id, name } => CommandView::UpdatePermission {
                id,
                name: name@,
            },
            Command::DeletePermission { id } => CommandView::DeletePermission { id },
            Command::AssignPermissionToRole {
                role_id,
                permission_id,
            } => CommandView::AssignPermissionToRole { role_id, permission_id },
            Command::RemovePermissionFromRole {
                role_id,
                permission_id,
            } => CommandView::RemovePermissionFromRole { role_id, permission_id },
            Command::ListRolePermissions { role_id } => CommandView::ListRolePermissions {
                role_id,
            },
            Command::AssignRoleToService { service, role_id } => CommandView::AssignRoleToService {
                service: service@,
                role_id,
            },
            Command::RemoveRoleFromService {
                service,
                role_id,
            } => CommandView::RemoveRoleFromService { service: service@, role_id },
            Command::ListServiceRoles { service } => CommandView::ListServiceRoles {
                service: service@,
            },
            Command::AssignRoleToPerson {
                person,
                service,
                role_id,
            } => CommandView::AssignRoleToPerson { person: person@, service: service@, role_id },
            Command::RemoveRoleFromPerson {
                person,
                service,
                role_id,
            } => CommandView::RemoveRoleFromPerson { person: person@, service: service@, role_id },
            Command::ListPersonRoles { person, service } => CommandView::ListPersonRoles {
                person: person@,
                service: service@,
            },
            Command::ListPersonsWithRole { service, role_id } => CommandView::ListPersonsWithRole {
                service: service@,
                role_id,
            },
            Command::ListServicesOfPerson { person_id } => CommandView::ListServicesOfPerson {
                person_id,
            },
            Command::CheckPersonPermission {
                person,
                service,
                permission_name,
            } => CommandView::CheckPersonPermission {
                person: person@,
                service: service@,
                permission_name: permission_name@,
            },
        }
    }
}

/// The rows of a listing as roles.
pub fn as_roles(rows: &Vec<NameRow>) -> (out: Vec<Role>)
    ensures
        out.deep_view() == rows.deep_view(),
{
    let mut out: Vec<Role> = Vec::new();
    let mut i: usize = 0;
    while i < rows.len()
        invariant
            i <= rows.len(),
            out.len() == i,
            forall|j: int| 0 <= j < i ==> (#[trigger] out@[j])@ == rows@[j]@,
        decreases rows.len() - i,
    {
        out.push(rows[i].role());
        i = i + 1;
    }
    assert(out.deep_view() =~= rows.deep_view());
    out
}

/// The rows of a listing as permissions.
pub fn as_permissions(rows: &Vec<NameRow>) -> (out: Vec<Permission>)
    ensures
        out.deep_view() == rows.deep_view(),
{
    let mut out: Vec<Permission> = Vec::new();
    let mut i: usize = 0;
    while i < rows.len()
        invariant
            i <= rows.len(),
            out.len() == i,
            forall|j: int| 0 <= j < i ==> (#[trigger] out@[j])@ == rows@[j]@,
        decreases rows.len() - i,
    {
        out.push(rows[i].permission());
        i = i + 1;
    }
    assert(out.deep_view() =~= rows.deep_view());
    out
}

/// A text that is hashed where it is given.
pub open spec fn hashed_option(password: Option<Seq<char>>, salt: Seq<u8>) -> Result<
    Option<Seq<char>>,
    ErrorCode,
> {
    match password {
        Some(text) => match stored_digest(text, salt) {
            Ok(digest) => Ok(Some(digest)),
            Err(code) => Err(code),
        },
        None => Ok(None),
    }
}

/// The statement of a command, where it has one, as plain values.
pub open spec fn planned_view(planned: Result<StoreCall, ErrorCode>) -> Result<
    CallView,
    ErrorCode,
> {
    match planned {
        Ok(call) => Ok(call@),
        Err(code) => Err(code),
    }
}

impl CommandView {
    /// The identifier of the person that the command names, where it names one
    /// that has to be resolved.
    pub open spec fn person_identifier(self) -> Option<FlexibleIdView> {
        match self {
            CommandView::AssignRoleToPerson { person, .. } => Some(person),
            CommandView::RemoveRoleFromPerson { person, .. } => Some(person),
            CommandView::ListPersonRoles { person, .. } => Some(person),
            CommandView::CheckPersonPermission { person, .. } => Some(person),
            _ => None,
        }
    }

    /// The identifier of the service that the command names, where it names one
    /// that has to be resolved.
    pub open spec fn service_identifier(self) -> Option<FlexibleIdView> {
        match self {
            CommandView::AssignRoleToService { service, .. } => Some(service),
            CommandView::RemoveRoleFromService { service, .. } => Some(service),
            CommandView::ListServiceRoles { service } => Some(service),
            CommandView::AssignRoleToPerson { service, .. } => Some(service),
            CommandView::RemoveRoleFromPerson { service, .. } => Some(service),
            CommandView::ListPersonRoles { service, .. } => Some(service),
            CommandView::ListPersonsWithRole { service, .. } => Some(service),
            CommandView::CheckPersonPermission { service, .. } => Some(service),
            _ => None,
        }
    }

    /// The service that the command names is created where it is missing.
    pub open spec fn creates_service(self) -> bool {
        self is AssignRoleToService
    }

    /// The failure that is reported where the store fails the command.
    pub open spec fn failure(self) -> ErrorCode {
        match self {
            CommandView::CreateUser { .. } => ErrorCode::CreateUserFailed,
            CommandView::ListPeople => ErrorCode::ListUsersFailed,
            CommandView::GetUser { .. } => ErrorCode::GetUserFailed,
            CommandView::UpdateUser { .. } => ErrorCode::UpdateUserFailed,
            CommandView::DeleteUser { .. } => ErrorCode::DeleteUserFailed,
            CommandView::CreateService { .. } => ErrorCode::CreateServiceFailed,
            CommandView::ListServices => ErrorCode::ListServicesFailed,
            CommandView::UpdateService { .. } => ErrorCode::UpdateServiceFailed,
            CommandView::DeleteService { .. } => ErrorCode::DeleteServiceFailed,
            CommandView::CreateRole { .. } => ErrorCode::CreateRoleFailed,
            CommandView::ListRoles => ErrorCode::ListRolesFailed,
            CommandView::GetRole { .. } => ErrorCode::GetRoleFailed,
            CommandView::UpdateRole { .. } => ErrorCode::UpdateRoleFailed,
            CommandView::DeleteRole { .. } => ErrorCode::DeleteRoleFailed,
            CommandView::CreatePermission { .. } => ErrorCode::CreatePermissionFailed,
            CommandView::ListPermissions => ErrorCode::ListPermissionsFailed,
            CommandView::UpdatePermission { .. } => ErrorCode::UpdatePermissionFailed,
            CommandView::DeletePermission { .. } => ErrorCode::DeletePermissionFailed,
            CommandView::AssignPermissionToRole { .. } => ErrorCode::AssignPermissionFailed,
            CommandView::RemovePermissionFromRole { .. } => ErrorCode::RemovePermissionFailed,
            CommandView::ListRolePermissions { .. } => ErrorCode::ListRolePermissionsFailed,
            CommandView::AssignRoleToService { .. } => ErrorCode::AssignRoleServiceFailed,
            CommandView::RemoveRoleFromService { .. } => ErrorCode::RemoveRoleServiceFailed,
            CommandView::ListServiceRoles { .. } => ErrorCode::ListServiceRolesFailed,
            CommandView::AssignRoleToPerson { .. } => ErrorCode::AssignRolePersonFailed,
            CommandView::RemoveRoleFromPerson { .. } => ErrorCode::RemoveRolePersonFailed,
            CommandView::ListPersonRoles { .. } => ErrorCode::ListPersonRolesFailed,
            CommandView::ListPersonsWithRole { .. } => ErrorCode::ListPersonsWithRoleFailed,
            CommandView::ListServicesOfPerson { .. } => ErrorCode::ListPersonServicesFailed,
            CommandView::CheckPersonPermission { .. } => ErrorCode::CheckPermissionFailed,
        }
    }

    /// The part of the cache that the command makes stale, if it changes what
    /// anyone may do: the rows of the person in the service for a change of one
    /// grant, the rows of the service for a change of what is visible in it,
    /// the rows of the person where the person goes, and all rows for a change
    /// to a role or a permission itself.
    pub open spec fn scope(self, person_id: i32, service_id: i32) -> Option<AccessScope> {
        match self {
            CommandView::DeleteUser { id } => Some(AccessScope::User { user_id: id }),
            CommandView::DeleteService { id } => Some(AccessScope::Service { service_id: id }),
            CommandView::UpdateRole { .. } => Some(AccessScope::All),
            CommandView::DeleteRole { .. } => Some(AccessScope::All),
            CommandView::UpdatePermission { .. } => Some(AccessScope::All),
            CommandView::DeletePermission { .. } => Some(AccessScope::All),
            CommandView::AssignPermissionToRole { .. } => Some(AccessScope::All),
            CommandView::RemovePermissionFromRole { .. } => Some(AccessScope::All),
            CommandView::AssignRoleToService { .. } => Some(AccessScope::Service { service_id }),
            CommandView::RemoveRoleFromService { .. } => Some(AccessScope::Service { service_id }),
            CommandView::AssignRoleToPerson { .. } => Some(
                AccessScope::Pair { user_id: person_id, service_id },
            ),
            CommandView::RemoveRoleFromPerson { .. } => Some(
                AccessScope::Pair { user_id: person_id, service_id },
            ),
            _ => None,
        }
    }

    /// The statement that carries the command out, for the person and the
    /// service it was resolved to, at the time `now`; a password is hashed under
    /// `salt` on the way. No statement where the hashing fails.
    pub open spec fn call(self, person_id: i32, service_id: i32, now: i64, salt: Seq<u8>) -> Result<
        CallView,
        ErrorCode,
    > {
        match self {
            CommandView::CreateUser {
                username,
                password,
                name,
                person_type,
                document_type,
                document_number,
            } => match stored_digest(password, salt) {
                Ok(digest) => Ok(
                    CallView::CreatePerson {
                        person: NewPersonView {
                            username,
                            password_hash: digest,
                            name,
                            person_type,
                            document_type,
                            document_number,
                        },
                    },
                ),
                Err(code) => Err(code),
            },
            CommandView::ListPeople => Ok(CallView::ListPeople),
            CommandView::GetUser { id } => Ok(CallView::GetPerson { id }),
            CommandView::UpdateUser {
                id,
                new_username,
                new_password,
                new_name,
            } => match hashed_option(new_password, salt) {
                Ok(digest) => Ok(
                    CallView::UpdatePerson {
                        id,
                        new_username,
                        new_password_hash: digest,
                        new_name,
                    },
                ),
                Err(code) => Err(code),
            },
            CommandView::DeleteUser { id } => Ok(CallView::DeletePerson { id, now }),
            CommandView::CreateService { name, description } => Ok(
                CallView::CreateService { name, description },
            ),
            CommandView::ListServices => Ok(CallView::ListServices),
            CommandView::UpdateService { id, new_name, new_description } => Ok(
                CallView::UpdateService { id, new_name, new_description },
            ),
            CommandView::DeleteService { id } => Ok(CallView::DeleteService { id }),
            CommandView::CreateRole { name } => Ok(CallView::CreateRole { name }),
            CommandView::ListRoles => Ok(CallView::ListRoles),
            CommandView::GetRole { id } => Ok(CallView::GetRole { id }),
            CommandView::UpdateRole { id, name } => Ok(CallView::UpdateRole { id, name }),
            CommandView::DeleteRole { id } => Ok(CallView::DeleteRole { id }),
            CommandView::CreatePermission { name } => Ok(CallView::CreatePermission { name }),
            CommandView::ListPermissions => Ok(CallView::ListPermissions),
            CommandView::UpdatePermission { id, name } => Ok(
                CallView::UpdatePermission { id, name },
            ),
            CommandView::DeletePermission { id } => Ok(CallView::DeletePermission { id }),
            CommandView::AssignPermissionToRole { role_id, permission_id } => Ok(
                CallView::Link { edge: Edge::RolePermission { role_id, permission_id } },
            ),
            CommandView::RemovePermissionFromRole { role_id, permission_id } => Ok(
                CallView::Unlink { edge: Edge::RolePermission { role_id, permission_id } },
            ),
            CommandView::ListRolePermissions { role_id } => Ok(
                CallView::ListLinked { query: LinkQuery::RolePermissions { role_id } },
            ),
            CommandView::AssignRoleToService { role_id, .. } => Ok(
                CallView::Link { edge: Edge::ServiceRole { service_id, role_id } },
            ),
            CommandView::RemoveRoleFromService { role_id, .. } => Ok(
                CallView::Unlink { edge: Edge::ServiceRole { service_id, role_id } },
            ),
            CommandView::ListServiceRoles { .. } => Ok(
                CallView::ListLinked { query: LinkQuery::ServiceRoles { service_id } },
            ),
            CommandView::AssignRoleToPerson { role_id, .. } => Ok(
                CallView::Link { edge: Edge::PersonServiceRole { person_id, service_id, role_id } },
            ),
            CommandView::RemoveRoleFromPerson { role_id, .. } => Ok(
                CallView::Unlink {
                    edge: Edge::PersonServiceRole { person_id, service_id, role_id },
                },
            ),
            CommandView::ListPersonRoles { .. } => Ok(
                CallView::ListLinked { query: LinkQuery::PersonRoles { person_id, service_id } },
            ),
            CommandView::ListPersonsWithRole { role_id, .. } => Ok(
                CallView::ListLinked { query: LinkQuery::PersonsWithRole { service_id, role_id } },
            ),
            CommandView::ListServicesOfPerson { person_id } => Ok(
                CallView::ListLinked { query: LinkQuery::ServicesOfPerson { person_id } },
            ),
            CommandView::CheckPersonPermission { permission_name, .. } => Ok(
                CallView::HoldsPermission { person_id, service_id, permission: permission_name },
            ),
        }
    }

    /// The answer to the request, from the store's answer to the statement:
    /// what the statement gave, under 200 or, for what was created, 201; 404
    /// where what was asked for by id is not there; and the command's own
    /// failure where the store failed.
    pub open spec fn finish(self, answer: AnswerView) -> ResponseView {
        match self {
            CommandView::CreateUser { .. } => match answer {
                AnswerView::User(Some(user)) => ResponseView::created(BodyView::User(user)),
                _ => ResponseView::failure(ErrorCode::CreateUserFailed),
            },
            CommandView::ListPeople => match answer {
                AnswerView::Users(users) => ResponseView::success(BodyView::Users(users)),
                _ => ResponseView::failure(ErrorCode::ListUsersFailed),
            },
            CommandView::GetUser { .. } => match answer {
                AnswerView::User(Some(user)) => ResponseView::success(BodyView::User(user)),
                AnswerView::User(None) => ResponseView::failure(ErrorCode::UserNotFound),
                _ => ResponseView::failure(ErrorCode::GetUserFailed),
            },
            CommandView::UpdateUser { .. } => match answer {
                AnswerView::Done => ResponseView::success(
                    BodyView::Status { word: StatusWord::Success },
                ),
                _ => ResponseView::failure(ErrorCode::UpdateUserFailed),
            },
            CommandView::DeleteUser { id } => match answer {
                AnswerView::Done => ResponseView::success(
                    BodyView::UserDeleted { user_id: id, revoked_tokens: 0 },
                ),
                _ => ResponseView::failure(ErrorCode::DeleteUserFailed),
            },
            CommandView::CreateService { .. } => match answer {
                AnswerView::Service(Some(service)) => ResponseView::created(
                    BodyView::Service(service),
                ),
                _ => ResponseView::failure(ErrorCode::CreateServiceFailed),
            },
            CommandView::ListServices => match answer {
                AnswerView::Services(services) => ResponseView::success(
                    BodyView::Services(services),
                ),
                _ => ResponseView::failure(ErrorCode::ListServicesFailed),
            },
            CommandView::UpdateService { .. } => match answer {
                AnswerView::Done => ResponseView::success(
                    BodyView::Status { word: StatusWord::Success },
                ),
                _ => ResponseView::failure(ErrorCode::UpdateServiceFailed),
            },
            CommandView::DeleteService { id } => match answer {
                AnswerView::Done => ResponseView::success(
                    BodyView::Changed { word: StatusWord::ServiceDeleted, id },
                ),
                _ => ResponseView::failure(ErrorCode::DeleteServiceFailed),
            },
            CommandView::CreateRole { .. } => match answer {
                AnswerView::Named(Some(row)) => ResponseView::created(BodyView::Role(row)),
                _ => ResponseView::failure(ErrorCode::CreateRoleFailed),
            },
            CommandView::ListRoles => match answer {
                AnswerView::Names(rows) => ResponseView::success(BodyView::Roles(rows)),
                _ => ResponseView::failure(ErrorCode::ListRolesFailed),
            },
            CommandView::GetRole { .. } => match answer {
                AnswerView::Named(Some(row)) => ResponseView::success(BodyView::Role(row)),
                AnswerView::Named(None) => ResponseView::failure(ErrorCode::RoleNotFound),
                _ => ResponseView::failure(ErrorCode::GetRoleFailed),
            },
            CommandView::UpdateRole { .. } => match answer {
                AnswerView::Done => ResponseView::success(
                    BodyView::Status { word: StatusWord::Success },
                ),
                _ => ResponseView::failure(ErrorCode::UpdateRoleFailed),
            },
            CommandView::DeleteRole { id } => match answer {
                AnswerView::Done => ResponseView::success(
                    BodyView::Changed { word: StatusWord::RoleDeleted, id },
                ),
                _ => ResponseView::failure(ErrorCode::DeleteRoleFailed),
            },
            CommandView::CreatePermission { .. } => match answer {
                AnswerView::Named(Some(row)) => ResponseView::created(BodyView::Permission(row)),
                _ => ResponseView::failure(ErrorCode::CreatePermissionFailed),
            },
            CommandView::ListPermissions => match answer {
                AnswerView::Names(rows) => ResponseView::success(BodyView::Permissions(rows)),
                _ => ResponseView::failure(ErrorCode::ListPermissionsFailed),
            },
            CommandView::UpdatePermission { .. } => match answer {
                AnswerView::Done => ResponseView::success(
                    BodyView::Status { word: StatusWord::Success },
                ),
                _ => ResponseView::failure(ErrorCode::UpdatePermissionFailed),
            },
            CommandView::DeletePermission { id } => match answer {
                AnswerView::Done => ResponseView::success(
                    BodyView::Changed { word: StatusWord::PermissionDeleted, id },
                ),
                _ => ResponseView::failure(ErrorCode::DeletePermissionFailed),
            },
            CommandView::AssignPermissionToRole { .. } => match answer {
                AnswerView::Done => ResponseView::success(
                    BodyView::Status { word: StatusWord::Success },
                ),
                _ => ResponseView::failure(ErrorCode::AssignPermissionFailed),
            },
            CommandView::RemovePermissionFromRole { role_id, permission_id } => match answer {
                AnswerView::Done => ResponseView::success(
                    BodyView::PermissionRemoved { role_id, permission_id },
                ),
                _ => ResponseView::failure(ErrorCode::RemovePermissionFailed),
            },
            CommandView::ListRolePermissions { .. } => match answer {
                AnswerView::Names(rows) => ResponseView::success(BodyView::Permissions(rows)),
                _ => ResponseView::failure(ErrorCode::ListRolePermissionsFailed),
            },
            CommandView::AssignRoleToService { .. } => match answer {
                AnswerView::Done => ResponseView::success(
                    BodyView::Status { word: StatusWord::Success },
                ),
                _ => ResponseView::failure(ErrorCode::AssignRoleServiceFailed),
            },
            CommandView::RemoveRoleFromService { .. } => match answer {
                AnswerView::Done => ResponseView::success(
                    BodyView::Status { word: StatusWord::RoleRemovedFromService },
                ),
                _ => ResponseView::failure(ErrorCode::RemoveRoleServiceFailed),
            },
            CommandView::ListServiceRoles { .. } => match answer {
                AnswerView::Names(rows) => ResponseView::success(BodyView::Roles(rows)),
                _ => ResponseView::failure(ErrorCode::ListServiceRolesFailed),
            },
            CommandView::AssignRoleToPerson { .. } => match answer {
                AnswerView::Done => ResponseView::success(
                    BodyView::Status { word: StatusWord::Success },
                ),
                _ => ResponseView::failure(ErrorCode::AssignRolePersonFailed),
            },
            CommandView::RemoveRoleFromPerson { .. } => match answer {
                AnswerView::Done => ResponseView::success(
                    BodyView::Status { word: StatusWord::RoleRemovedFromPerson },
                ),
                _ => ResponseView::failure(ErrorCode::RemoveRolePersonFailed),
            },
            CommandView::ListPersonRoles { .. } => match answer {
                AnswerView::Names(rows) => ResponseView::success(BodyView::Roles(rows)),
                _ => ResponseView::failure(ErrorCode::ListPersonRolesFailed),
            },
            CommandView::ListPersonsWithRole { .. } => match answer {
                AnswerView::Users(users) => ResponseView::success(BodyView::Users(users)),
                _ => ResponseView::failure(ErrorCode::ListPersonsWithRoleFailed),
            },
            CommandView::ListServicesOfPerson { .. } => match answer {
                AnswerView::Services(services) => ResponseView::success(
                    BodyView::Services(services),
                ),
                _ => ResponseView::failure(ErrorCode::ListPersonServicesFailed),
            },
            CommandView::CheckPersonPermission { .. } => match answer {
                AnswerView::Flag(flag) => ResponseView::success(
                    BodyView::HasPermission { has_permission: flag },
                ),
                _ => ResponseView::failure(ErrorCode::CheckPermissionFailed),
            },
        }
    }
}

impl Command {
    /// The identifier of the person that the command names, where it names one
    /// that has to be resolved.
    pub fn person_identifier(&self) -> (r: Option<&FlexibleId>)
        ensures
            match r {
                Some(identifier) => self@.person_identifier() == Some(identifier@),
                None => self@.person_identifier() is None,
            },
    {
        match self {
            Command::AssignRoleToPerson { person, .. } => Some(person),
            Command::RemoveRoleFromPerson { person, .. } => Some(person),
            Command::ListPersonRoles { person, .. } => Some(person),
            Command::CheckPersonPermission { person, .. } => Some(person),
            _ => None,
        }
    }

    /// The identifier of the service that the command names, where it names one
    /// that has to be resolved.
    pub fn service_identifier(&self) -> (r: Option<&FlexibleId>)
        ensures
            match r {
                Some(identifier) => self@.service_identifier() == Some(identifier@),
                None => self@.service_identifier() is None,
            },
    {
        match self {
            Command::AssignRoleToService { service, .. } => Some(service),
            Command::RemoveRoleFromService { service, .. } => Some(service),
            Command::ListServiceRoles { service } => Some(service),
            Command::AssignRoleToPerson { service, .. } => Some(service),
            Command::RemoveRoleFromPerson { service, .. } => Some(service),
            Command::ListPersonRoles { service, .. } => Some(service),
            Command::ListPersonsWithRole { service, .. } => Some(service),
            Command::CheckPersonPermission { service, .. } => Some(service),
            _ => None,
        }
    }

    /// Tells whether the service that the command names is created where it is missing.
    pub fn creates_service(&self) -> (r: bool)
        ensures
            r == self@.creates_service(),
    {
        match self {
            Command::AssignRoleToService { .. } => true,
            _ => false,
        }
    }

    /// The failure that is reported where the store fails the command.
    pub fn failure(&self) -> (r: ErrorCode)
        ensures
            r == self@.failure(),
    {
        match self {
            Command::CreateUser { .. } => ErrorCode::CreateUserFailed,
            Command::ListPeople => ErrorCode::ListUsersFailed,
            Command::GetUser { .. } => ErrorCode::GetUserFailed,
            Command::UpdateUser { .. } => ErrorCode::UpdateUserFailed,
            Command::DeleteUser { .. } => ErrorCode::DeleteUserFailed,
            Command::CreateService { .. } => ErrorCode::CreateServiceFailed,
            Command::ListServices => ErrorCode::ListServicesFailed,
            Command::UpdateService { .. } => ErrorCode::UpdateServiceFailed,
            Command::DeleteService { .. } => ErrorCode::DeleteServiceFailed,
            Command::CreateRole { .. } => ErrorCode::CreateRoleFailed,
            Command::ListRoles => ErrorCode::ListRolesFailed,
            Command::GetRole { .. } => ErrorCode::GetRoleFailed,
            Command::UpdateRole { .. } => ErrorCode::UpdateRoleFailed,
            Command::DeleteRole { .. } => ErrorCode::DeleteRoleFailed,
            Command::CreatePermission { .. } => ErrorCode::CreatePermissionFailed,
            Command::ListPermissions => ErrorCode::ListPermissionsFailed,
            Command::UpdatePermission { .. } => ErrorCode::UpdatePermissionFailed,
            Command::DeletePermission { .. } => ErrorCode::DeletePermissionFailed,
            Command::AssignPermissionToRole { .. } => ErrorCode::AssignPermissionFailed,
            Command::RemovePermissionFromRole { .. } => ErrorCode::RemovePermissionFailed,
            Command::ListRolePermissions { .. } => ErrorCode::ListRolePermissionsFailed,
            Command::AssignRoleToService { .. } => ErrorCode::AssignRoleServiceFailed,
            Command::RemoveRoleFromService { .. } => ErrorCode::RemoveRoleServiceFailed,
            Command::ListServiceRoles { .. } => ErrorCode::ListServiceRolesFailed,
            Command::AssignRoleToPerson { .. } => ErrorCode::AssignRolePersonFailed,
            Command::RemoveRoleFromPerson { .. } => ErrorCode::RemoveRolePersonFailed,
            Command::ListPersonRoles { .. } => ErrorCode::ListPersonRolesFailed,
            Command::ListPersonsWithRole { .. } => ErrorCode::ListPersonsWithRoleFailed,
            Command::ListServicesOfPerson { .. } => ErrorCode::ListPersonServicesFailed,
            Command::CheckPersonPermission { .. } => ErrorCode::CheckPermissionFailed,
        }
    }

    /// The part of the cache that the command makes stale.
    pub fn scope(&self, person_id: i32, service_id: i32) -> (r: Option<AccessScope>)
        ensures
            r == self@.scope(person_id, service_id),
    {
        match self {
            Command::DeleteUser { id } => Some(AccessScope::User { user_id: *id }),
            Command::DeleteService { id } => Some(AccessScope::Service { service_id: *id }),
            Command::UpdateRole { .. } => Some(AccessScope::All),
            Command::DeleteRole { .. } => Some(AccessScope::All),
            Command::UpdatePermission { .. } => Some(AccessScope::All),
            Command::DeletePermission { .. } => Some(AccessScope::All),
            Command::AssignPermissionToRole { .. } => Some(AccessScope::All),
            Command::RemovePermissionFromRole { .. } => Some(AccessScope::All),
            Command::AssignRoleToService { .. } => Some(AccessScope::Service { service_id }),
            Command::RemoveRoleFromService { .. } => Some(AccessScope::Service { service_id }),
            Command::AssignRoleToPerson { .. } => Some(
                AccessScope::Pair { user_id: person_id, service_id },
            ),
            Command::RemoveRoleFromPerson { .. } => Some(
                AccessScope::Pair { user_id: person_id, service_id },
            ),
            _ => None,
        }
    }

    /// The statement that carries the command out.
    pub fn call(&self, person_id: i32, service_id: i32, now: i64, salt: &Vec<u8>) -> (r: Result<
        StoreCall,
        ErrorCode,
    >)
        ensures
            planned_view(r) == self@.call(person_id, service_id, now, salt@),
    {
        match self {
            Command::CreateUser {
                username,
                password,
                name,
                person_type,
                document_type,
                document_number,
            } => match hash_password(password.as_str(), salt) {
                Ok(digest) => Ok(
                    StoreCall::CreatePerson {
                        person: NewPerson {
                            username: username.clone(),
                            password_hash: digest,
                            name: name.clone(),
                            person_type: *person_type,
                            document_type: *document_type,
                            document_number: document_number.clone(),
                        },
                    },
                ),
                Err(code) => Err(code),
            },
            Command::ListPeople => Ok(StoreCall::ListPeople),
            Command::GetUser { id } => Ok(StoreCall::GetPerson { id: *id }),
            Command::UpdateUser { id, new_username, new_password, new_name } => {
                let digest = match new_password {
                    Some(text) => match hash_password(text.as_str(), salt) {
                        Ok(digest) => Some(digest),
                        Err(code) => {
                            return Err(code);
                        },
                    },
                    None => None,
                };
                Ok(
                    StoreCall::UpdatePerson {
                        id: *id,
                        new_username: clone_text(new_username),
                        new_password_hash: digest,
                        new_name: clone_text(new_name),
                    },
                )
            },
            Command::DeleteUser { id } => Ok(StoreCall::DeletePerson { id: *id, now }),
            Command::CreateService { name, description } => Ok(
                StoreCall::CreateService {
                    name: name.clone(),
                    description: clone_text(description),
                },
            ),
            Command::ListServices => Ok(StoreCall::ListServices),
            Command::UpdateService { id, new_name, new_description } => Ok(
                StoreCall::UpdateService {
                    id: *id,
                    new_name: clone_text(new_name),
                    new_description: clone_text(new_description),
                },
            ),
            Command::DeleteService { id } => Ok(StoreCall::DeleteService { id: *id }),
            Command::CreateRole { name } => Ok(StoreCall::CreateRole { name: name.clone() }),
            Command::ListRoles => Ok(StoreCall::ListRoles),
            Command::GetRole { id } => Ok(StoreCall::GetRole { id: *id }),
            Command::UpdateRole { id, name } => Ok(
                StoreCall::UpdateRole { id: *id, name: name.clone() },
            ),
            Command::DeleteRole { id } => Ok(StoreCall::DeleteRole { id: *id }),
            Command::CreatePermission { name } => Ok(
                StoreCall::CreatePermission { name: name.clone() },
            ),
            Command::ListPermissions => Ok(StoreCall::ListPermissions),
            Command::UpdatePermission { id, name } => Ok(
                StoreCall::UpdatePermission { id: *id, name: name.clone() },
            ),
            Command::DeletePermission { id } => Ok(StoreCall::DeletePermission { id: *id }),
            Command::AssignPermissionToRole { role_id, permission_id } => Ok(
                StoreCall::Link {
                    edge: Edge::RolePermission { role_id: *role_id, permission_id: *permission_id },
                },
            ),
            Command::RemovePermissionFromRole { role_id, permission_id } => Ok(
                StoreCall::Unlink {
                    edge: Edge::RolePermission { role_id: *role_id, permission_id: *permission_id },
                },
            ),
            Command::ListRolePermissions { role_id } => Ok(
                StoreCall::ListLinked { query: LinkQuery::RolePermissions { role_id: *role_id } },
            ),
            Command::AssignRoleToService { role_id, .. } => Ok(
                StoreCall::Link { edge: Edge::ServiceRole { service_id, role_id: *role_id } },
            ),
            Command::RemoveRoleFromService { role_id, .. } => Ok(
                StoreCall::Unlink { edge: Edge::ServiceRole { service_id, role_id: *role_id } },
            ),
            Command::ListServiceRoles { .. } => Ok(
                StoreCall::ListLinked { query: LinkQuery::ServiceRoles { service_id } },
            ),
            Command::AssignRoleToPerson { role_id, .. } => Ok(
                StoreCall::Link {
                    edge: Edge::PersonServiceRole { person_id, service_id, role_id: *role_id },
                },
            ),
            Command::RemoveRoleFromPerson { role_id, .. } => Ok(
                StoreCall::Unlink {
                    edge: Edge::PersonServiceRole { person_id, service_id, role_id: *role_id },
                },
            ),
            Command::ListPersonRoles { .. } => Ok(
                StoreCall::ListLinked { query: LinkQuery::PersonRoles { person_id, service_id } },
            ),
            Command::ListPersonsWithRole { role_id, .. } => Ok(
                StoreCall::ListLinked {
                    query: LinkQuery::PersonsWithRole { service_id, role_id: *role_id },
                },
            ),
            Command::ListServicesOfPerson { person_id } => Ok(
                StoreCall::ListLinked {
                    query: LinkQuery::ServicesOfPerson { person_id: *person_id },
                },
            ),
            Command::CheckPersonPermission { permission_name, .. } => Ok(
                StoreCall::HoldsPermission {
                    person_id,
                    service_id,
                    permission: permission_name.clone(),
                },
            ),
        }
    }

    /// The answer to the request, from the store's answer to the statement.
    pub fn finish(&self, answer: StoreAnswer) -> (r: Response)
        ensures
            r@ == self@.finish(answer@),
    {
        match self {
            Command::CreateUser { .. } => match answer {
                StoreAnswer::User(Some(user)) => created_response(Body::User(user)),
                _ => error_response(ErrorCode::CreateUserFailed),
            },
            Command::ListPeople => match answer {
                StoreAnswer::Users(users) => ok_response(Body::Users(users)),
                _ => error_response(ErrorCode::ListUsersFailed),
            },
            Command::GetUser { .. } => match answer {
                StoreAnswer::User(Some(user)) => ok_response(Body::User(user)),
                StoreAnswer::User(None) => error_response(ErrorCode::UserNotFound),
                _ => error_response(ErrorCode::GetUserFailed),
            },
            Command::UpdateUser { .. } => match answer {
                StoreAnswer::Done => ok_response(Body::Status { word: StatusWord::Success }),
                _ => error_response(ErrorCode::UpdateUserFailed),
            },
            Command::DeleteUser { id } => match answer {
                StoreAnswer::Done => ok_response(
                    Body::UserDeleted { user_id: *id, revoked_tokens: 0 },
                ),
                _ => error_response(ErrorCode::DeleteUserFailed),
            },
            Command::CreateService { .. } => match answer {
                StoreAnswer::Service(Some(service)) => created_response(Body::Service(service)),
                _ => error_response(ErrorCode::CreateServiceFailed),
            },
            Command::ListServices => match answer {
                StoreAnswer::Services(services) => ok_response(Body::Services(services)),
                _ => error_response(ErrorCode::ListServicesFailed),
            },
            Command::UpdateService { .. } => match answer {
                StoreAnswer::Done => ok_response(Body::Status { word: StatusWord::Success }),
                _ => error_response(ErrorCode::UpdateServiceFailed),
            },
            Command::DeleteService { id } => match answer {
                StoreAnswer::Done => ok_response(
                    Body::Changed { word: StatusWord::ServiceDeleted, id: *id },
                ),
                _ => error_response(ErrorCode::DeleteServiceFailed),
            },
            Command::CreateRole { .. } => match answer {
                StoreAnswer::Named(Some(row)) => created_response(Body::Role(row.role())),
                _ => error_response(ErrorCode::CreateRoleFailed),
            },
            Command::ListRoles => match answer {
                StoreAnswer::Names(rows) => ok_response(Body::Roles(as_roles(&rows))),
                _ => error_response(ErrorCode::ListRolesFailed),
            },
            Command::GetRole { .. } => match answer {
                StoreAnswer::Named(Some(row)) => ok_response(Body::Role(row.role())),
                StoreAnswer::Named(None) => error_response(ErrorCode::RoleNotFound),
                _ => error_response(ErrorCode::GetRoleFailed),
            },
            Command::UpdateRole { .. } => match answer {
                StoreAnswer::Done => ok_response(Body::Status { word: StatusWord::Success }),
                _ => error_response(ErrorCode::UpdateRoleFailed),
            },
            Command::DeleteRole { id } => match answer {
                StoreAnswer::Done => ok_response(
                    Body::Changed { word: StatusWord::RoleDeleted, id: *id },
                ),
                _ => error_response(ErrorCode::DeleteRoleFailed),
            },
            Command::CreatePermission { .. } => match answer {
                StoreAnswer::Named(Some(row)) => created_response(
                    Body::Permission(row.permission()),
                ),
                _ => error_response(ErrorCode::CreatePermissionFailed),
            },
            Command::ListPermissions => match answer {
                StoreAnswer::Names(rows) => ok_response(Body::Permissions(as_permissions(&rows))),
                _ => error_response(ErrorCode::ListPermissionsFailed),
            },
            Command::UpdatePermission { .. } => match answer {
                StoreAnswer::Done => ok_response(Body::Status { word: StatusWord::Success }),
                _ => error_response(ErrorCode::UpdatePermissionFailed),
            },
            Command::DeletePermission { id } => match answer {
                StoreAnswer::Done => ok_response(
                    Body::Changed { word: StatusWord::PermissionDeleted, id: *id },
                ),
                _ => error_response(ErrorCode::DeletePermissionFailed),
            },
            Command::AssignPermissionToRole { .. } => match answer {
                StoreAnswer::Done => ok_response(Body::Status { word: StatusWord::Success }),
                _ => error_response(ErrorCode::AssignPermissionFailed),
            },
            Command::RemovePermissionFromRole { role_id, permission_id } => match answer {
                StoreAnswer::Done => ok_response(
                    Body::PermissionRemoved { role_id: *role_id, permission_id: *permission_id },
                ),
                _ => error_response(ErrorCode::RemovePermissionFailed),
            },
            Command::ListRolePermissions { .. } => match answer {
                StoreAnswer::Names(rows) => ok_response(Body::Permissions(as_permissions(&rows))),
                _ => error_response(ErrorCode::ListRolePermissionsFailed),
            },
            Command::AssignRoleToService { .. } => match answer {
                StoreAnswer::Done => ok_response(Body::Status { word: StatusWord::Success }),
                _ => error_response(ErrorCode::AssignRoleServiceFailed),
            },
            Command::RemoveRoleFromService { .. } => match answer {
                StoreAnswer::Done => ok_response(
                    Body::Status { word: StatusWord::RoleRemovedFromService },
                ),
                _ => error_response(ErrorCode::RemoveRoleServiceFailed),
            },
            Command::ListServiceRoles { .. } => match answer {
                StoreAnswer::Names(rows) => ok_response(Body::Roles(as_roles(&rows))),
                _ => error_response(ErrorCode::ListServiceRolesFailed),
            },
            Command::AssignRoleToPerson { .. } => match answer {
                StoreAnswer::Done => ok_response(Body::Status { word: StatusWord::Success }),
                _ => error_response(ErrorCode::AssignRolePersonFailed),
            },
            Command::RemoveRoleFromPerson { .. } => match answer {
                StoreAnswer::Done => ok_response(
                    Body::Status { word: StatusWord::RoleRemovedFromPerson },
                ),
                _ => error_response(ErrorCode::RemoveRolePersonFailed),
            },
            Command::ListPersonRoles { .. } => match answer {
                StoreAnswer::Names(rows) => ok_response(Body::Roles(as_roles(&rows))),
                _ => error_response(ErrorCode::ListPersonRolesFailed),
            },
            Command::ListPersonsWithRole { .. } => match answer {
                StoreAnswer::Users(users) => ok_response(Body::Users(users)),
                _ => error_response(ErrorCode::ListPersonsWithRoleFailed),
            },
            Command::ListServicesOfPerson { .. } => match answer {
                StoreAnswer::Services(services) => ok_response(Body::Services(services)),
                _ => error_response(ErrorCode::ListPersonServicesFailed),
            },
            Command::CheckPersonPermission { .. } => match answer {
                StoreAnswer::Flag(flag) => ok_response(
                    Body::HasPermission { has_permission: flag },
                ),
                _ => error_response(ErrorCode::CheckPermissionFailed),
            },
        }
    }
}

} // verus!
