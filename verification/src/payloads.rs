//! The bodies of the requests, and what each asks for once it is checked.

use crate::command::{Command, CommandView};
use crate::entities::{text_of, DocumentType, PersonType};
use crate::flexible::{FlexibleId, FlexibleIdView};
use crate::http::ErrorCode;
use crate::text::{
    chars_of, is_blank, option_text, parse_i32, parse_i32_spec, same_chars, trim_bounds, trimmed,
};
use crate::flexible::slice_chars;
use vstd::prelude::*;
use vstd::string::*;

verus! {

/// The body of a login.
pub struct LoginPayload {
    pub username: String,
    pub password: String,
}

/// The body of the creation of a person; the password arrives in
/// `password_hash` and is hashed before it is stored.
pub struct CreateUserPayload {
    pub username: String,
    pub password_hash: String,
    pub name: String,
    pub person_type: String,
    pub document_type: String,
    pub document_number: String,
}

/// The body of a change of a person: what is given is changed.
pub struct UpdateUserPayload {
    pub username: Option<String>,
    pub password_hash: Option<String>,
    pub name: Option<String>,
}

/// The body of the creation of a service.
pub struct CreateServicePayload {
    pub name: String,
    pub description: Option<String>,
}

/// The body of a change of a service: what is given is changed.
pub struct UpdateServicePayload {
    pub name: Option<String>,
    pub description: Option<String>,
}

/// The body of the creation of a role.
pub struct CreateRolePayload {
    pub name: String,
}

/// The body of the renaming of a role.
pub struct UpdateRolePayload {
    pub name: String,
}

/// The body of the creation of a permission.
pub struct CreatePermissionPayload {
    pub name: String,
}

/// The body of the renaming of a permission.
pub struct UpdatePermissionPayload {
    pub name: String,
}

/// A role and a permission that it is to confer, or to confer no longer.
pub struct RolePermissionPayload {
    pub role_id: i32,
    pub permission_id: i32,
}

/// A service and a role that is to be visible in it, or no longer.
pub struct ServiceRolePayload {
    pub service_id: FlexibleId,
    pub role_id: i32,
}

/// A person, a service and a role that the person is to have there, or no
/// longer.
pub struct PersonServiceRolePayload {
    pub person_id: FlexibleId,
    pub service_id: FlexibleId,
    pub role_id: i32,
}

/// The question whether a person holds a permission in a service.
pub struct CheckPermissionPayload {
    pub person_id: FlexibleId,
    pub service_id: FlexibleId,
    pub permission_name: String,
}

/// A person, a service and a permission that the person is to hold there
/// directly; the permission by its id or by its name.
pub struct PersonServicePermissionPayload {
    pub person_id: FlexibleId,
    pub service_id: FlexibleId,
    pub permission_id: Option<FlexibleId>,
    pub permission_name: Option<String>,
}

/// The kind of person that a text names: `N` or `J`, white space around it
/// aside.
pub open spec fn person_type_of(text: Seq<char>) -> Option<PersonType> {
    if trimmed(text) == "N"@ {
        Some(PersonType::N)
    } else if trimmed(text) == "J"@ {
        Some(PersonType::J)
    } else {
        None
    }
}

/// The kind of document that a text names: `DNI`, `CE` or `RUC`, white space
/// around it aside.
pub open spec fn document_type_of(text: Seq<char>) -> Option<DocumentType> {
    if trimmed(text) == "DNI"@ {
        Some(DocumentType::DNI)
    } else if trimmed(text) == "CE"@ {
        Some(DocumentType::CE)
    } else if trimmed(text) == "RUC"@ {
        Some(DocumentType::RUC)
    } else {
        None
    }
}

/// The trimmed characters of a text.
fn trimmed_chars(text: &str) -> (out: Vec<char>)
    ensures
        out@ == trimmed(text@),
{
    let chars = chars_of(text);
    let (a, b) = trim_bounds(&chars);
    slice_chars(&chars, a, b)
}

/// Reads the kind of a person.
pub fn parse_person_type(text: &str) -> (r: Option<PersonType>)
    ensures
        r == person_type_of(text@),
{
    let inner = trimmed_chars(text);
    if same_chars(&inner, &chars_of("N")) {
        Some(PersonType::N)
    } else if same_chars(&inner, &chars_of("J")) {
        Some(PersonType::J)
    } else {
        None
    }
}

/// Reads the kind of a document.
pub fn parse_document_type(text: &str) -> (r: Option<DocumentType>)
    ensures
        r == document_type_of(text@),
{
    let inner = trimmed_chars(text);
    if same_chars(&inner, &chars_of("DNI")) {
        Some(DocumentType::DNI)
    } else if same_chars(&inner, &chars_of("CE")) {
        Some(DocumentType::CE)
    } else if same_chars(&inner, &chars_of("RUC")) {
        Some(DocumentType::RUC)
    } else {
        None
    }
}

/// The id that a parameter of the path gives: what it reads as a decimal
/// integer of 32 bits, if it is there.
pub open spec fn path_number(raw: Option<Seq<char>>) -> Option<i32> {
    match raw {
        Some(text) => parse_i32_spec(text),
        None => None,
    }
}

/// Reads an id from a parameter of the path.
pub fn path_id(raw: Option<&str>) -> (r: Option<i32>)
    ensures
        r == path_number(option_text(raw)),
{
    match raw {
        Some(text) => parse_i32(text),
        None => None,
    }
}

/// The identifier that a parameter of the path gives, if it is there.
pub open spec fn path_identifier(raw: Option<Seq<char>>) -> Option<FlexibleIdView> {
    match raw {
        Some(text) => Some(FlexibleIdView::of_text(text)),
        None => None,
    }
}

/// A planned command as plain values.
pub open spec fn plan_view(plan: Result<Command, ErrorCode>) -> Result<CommandView, ErrorCode> {
    match plan {
        Ok(command) => Ok(command@),
        Err(code) => Err(code),
    }
}

/// What the creation of a person asks for: every field has to hold more than
/// white space, and the two kinds have to be ones that exist.
pub open spec fn create_user_plan(payload: Option<CreateUserPayload>) -> Result<
    CommandView,
    ErrorCode,
> {
    match payload {
        None => Err(ErrorCode::InvalidRequestBody),
        Some(body) => if is_blank(body.username@) || is_blank(body.password_hash@) || is_blank(
            body.name@,
        ) || is_blank(body.person_type@) || is_blank(body.document_type@) || is_blank(
            body.document_number@,
        ) {
            Err(ErrorCode::InvalidRequestBody)
        } else {
            match (person_type_of(body.person_type@), document_type_of(body.document_type@)) {
                (Some(person_type), Some(document_type)) => Ok(
                    CommandView::CreateUser {
                        username: body.username@,
                        password: body.password_hash@,
                        name: body.name@,
                        person_type,
                        document_type,
                        document_number: body.document_number@,
                    },
                ),
                _ => Err(ErrorCode::InvalidRequestBody),
            }
        },
    }
}

fn blank(text: &String) -> (r: bool)
    ensures
        r == is_blank(text@),
{
    crate::text::blank_text(text.as_str())
}

/// What the reading of a person asks for.
pub open spec fn get_user_plan(id: Option<Seq<char>>) -> Result<CommandView, ErrorCode> {
    match path_number(id) {
        Some(id) => Ok::<CommandView, ErrorCode>(CommandView::GetUser { id }),
        None => Err(ErrorCode::InvalidUserId),
    }
}

/// What the change of a person asks for.
pub open spec fn update_user_plan(
    id: Option<Seq<char>>,
    payload: Option<UpdateUserPayload>,
) -> Result<CommandView, ErrorCode> {
    match (path_number(id), payload) {
        (None, _) => Err::<CommandView, ErrorCode>(ErrorCode::InvalidUserId),
        (Some(_), None) => Err(ErrorCode::InvalidRequestBody),
        (Some(id), Some(body)) => Ok(
            CommandView::UpdateUser {
                id,
                new_username: text_of(body.username),
                new_password: text_of(body.password_hash),
                new_name: text_of(body.name),
            },
        ),
    }
}

/// What the removal of a person asks for.
pub open spec fn delete_user_plan(id: Option<Seq<char>>) -> Result<CommandView, ErrorCode> {
    match path_number(id) {
        Some(id) => Ok::<CommandView, ErrorCode>(CommandView::DeleteUser { id }),
        None => Err(ErrorCode::InvalidUserId),
    }
}

/// What the creation of a service asks for.
pub open spec fn create_service_plan(
    payload: Option<CreateServicePayload>,
) -> Result<CommandView, ErrorCode> {
    match payload {
        Some(body) => Ok::<CommandView, ErrorCode>(
            CommandView::CreateService {
                name: body.name@,
                description: text_of(body.description),
            },
        ),
        None => Err(ErrorCode::InvalidRequestBody),
    }
}

/// What the change of a service asks for.
pub open spec fn update_service_plan(
    id: Option<Seq<char>>,
    payload: Option<UpdateServicePayload>,
) -> Result<CommandView, ErrorCode> {
    match (path_number(id), payload) {
        (None, _) => Err::<CommandView, ErrorCode>(ErrorCode::InvalidServiceId),
        (Some(_), None) => Err(ErrorCode::InvalidRequestBody),
        (Some(id), Some(body)) => Ok(
            CommandView::UpdateService {
                id,
                new_name: text_of(body.name),
                new_description: text_of(body.description),
            },
        ),
    }
}

/// What the removal of a service asks for.
pub open spec fn delete_service_plan(id: Option<Seq<char>>) -> Result<CommandView, ErrorCode> {
    match path_number(id) {
        Some(id) => Ok::<CommandView, ErrorCode>(CommandView::DeleteService { id }),
        None => Err(ErrorCode::InvalidServiceId),
    }
}

/// What the creation of a role asks for.
pub open spec fn create_role_plan(
    payload: Option<CreateRolePayload>,
) -> Result<CommandView, ErrorCode> {
    match payload {
        Some(body) => Ok::<CommandView, ErrorCode>(
            CommandView::CreateRole { name: body.name@ },
        ),
        None => Err(ErrorCode::InvalidRequestBody),
    }
}

/// What the reading of a role asks for.
pub open spec fn get_role_plan(id: Option<Seq<char>>) -> Result<CommandView, ErrorCode> {
    match path_number(id) {
        Some(id) => Ok::<CommandView, ErrorCode>(CommandView::GetRole { id }),
        None => Err(ErrorCode::InvalidRoleId),
    }
}

/// What the renaming of a role asks for.
pub open spec fn update_role_plan(
    id: Option<Seq<char>>,
    payload: Option<UpdateRolePayload>,
) -> Result<CommandView, ErrorCode> {
    match (path_number(id), payload) {
        (None, _) => Err::<CommandView, ErrorCode>(ErrorCode::InvalidRoleId),
        (Some(_), None) => Err(ErrorCode::InvalidRequestBody),
        (Some(id), Some(body)) => Ok(CommandView::UpdateRole { id, name: body.name@ }),
    }
}

/// What the removal of a role asks for.
pub open spec fn delete_role_plan(id: Option<Seq<char>>) -> Result<CommandView, ErrorCode> {
    match path_number(id) {
        Some(id) => Ok::<CommandView, ErrorCode>(CommandView::DeleteRole { id }),
        None => Err(ErrorCode::InvalidRoleId),
    }
}

/// What the creation of a permission asks for.
pub open spec fn create_permission_plan(
    payload: Option<CreatePermissionPayload>,
) -> Result<CommandView, ErrorCode> {
    match payload {
        Some(body) => Ok::<CommandView, ErrorCode>(
            CommandView::CreatePermission { name: body.name@ },
        ),
        None => Err(ErrorCode::InvalidRequestBody),
    }
}

/// What the renaming of a permission asks for.
pub open spec fn update_permission_plan(
    id: Option<Seq<char>>,
    payload: Option<UpdatePermissionPayload>,
) -> Result<CommandView, ErrorCode> {
    match (path_number(id), payload) {
        (None, _) => Err::<CommandView, ErrorCode>(ErrorCode::InvalidPermissionId),
        (Some(_), None) => Err(ErrorCode::InvalidRequestBody),
        (Some(id), Some(body)) => Ok(
            CommandView::UpdatePermission { id, name: body.name@ },
        ),
    }
}

/// What the removal of a permission asks for.
pub open spec fn delete_permission_plan(id: Option<Seq<char>>) -> Result<CommandView, ErrorCode> {
    match path_number(id) {
        Some(id) => Ok::<CommandView, ErrorCode>(CommandView::DeletePermission { id }),
        None => Err(ErrorCode::InvalidPermissionId),
    }
}

/// What the gift of a permission to a role asks for.
pub open spec fn assign_permission_to_role_plan(
    payload: Option<RolePermissionPayload>,
) -> Result<CommandView, ErrorCode> {
    match payload {
        Some(body) => Ok::<CommandView, ErrorCode>(
            CommandView::AssignPermissionToRole {
                role_id: body.role_id,
                permission_id: body.permission_id,
            },
        ),
        None => Err(ErrorCode::InvalidRequestBody),
    }
}

/// What the taking of a permission from a role asks for.
pub open spec fn remove_permission_from_role_plan(
    payload: Option<RolePermissionPayload>,
) -> Result<CommandView, ErrorCode> {
    match payload {
        Some(body) => Ok::<CommandView, ErrorCode>(
            CommandView::RemovePermissionFromRole {
                role_id: body.role_id,
                permission_id: body.permission_id,
            },
        ),
        None => Err(ErrorCode::InvalidRequestBody),
    }
}

/// What the listing of the permissions of a role asks for.
pub open spec fn list_role_permissions_plan(
    id: Option<Seq<char>>,
) -> Result<CommandView, ErrorCode> {
    match path_number(id) {
        Some(role_id) => Ok::<CommandView, ErrorCode>(
            CommandView::ListRolePermissions { role_id },
        ),
        None => Err(ErrorCode::InvalidRoleId),
    }
}

/// What the placing of a role in a service asks for.
pub open spec fn assign_role_to_service_plan(
    payload: Option<ServiceRolePayload>,
) -> Result<CommandView, ErrorCode> {
    match payload {
        Some(body) => Ok::<CommandView, ErrorCode>(
            CommandView::AssignRoleToService {
                service: body.service_id@,
                role_id: body.role_id,
            },
        ),
        None => Err(ErrorCode::InvalidRequestBody),
    }
}

/// What the taking of a role out of a service asks for.
pub open spec fn remove_role_from_service_plan(
    payload: Option<ServiceRolePayload>,
) -> Result<CommandView, ErrorCode> {
    match payload {
        Some(body) => Ok::<CommandView, ErrorCode>(
            CommandView::RemoveRoleFromService {
                service: body.service_id@,
                role_id: body.role_id,
            },
        ),
        None => Err(ErrorCode::InvalidRequestBody),
    }
}

/// What the listing of the roles of a service asks for.
pub open spec fn list_service_roles_plan(id: Option<Seq<char>>) -> Result<CommandView, ErrorCode> {
    match path_identifier(id) {
        Some(service) => Ok::<CommandView, ErrorCode>(
            CommandView::ListServiceRoles { service },
        ),
        None => Err(ErrorCode::InvalidServiceId),
    }
}

/// What the gift of a role in a service to a person asks for.
pub open spec fn assign_role_to_person_in_service_plan(
    payload: Option<PersonServiceRolePayload>,
) -> Result<CommandView, ErrorCode> {
    match payload {
        Some(body) => Ok::<CommandView, ErrorCode>(
            CommandView::AssignRoleToPerson {
                person: body.person_id@,
                service: body.service_id@,
                role_id: body.role_id,
            },
        ),
        None => Err(ErrorCode::InvalidRequestBody),
    }
}

/// What the taking of a role in a service from a person asks for.
pub open spec fn remove_role_from_person_in_service_plan(
    payload: Option<PersonServiceRolePayload>,
) -> Result<CommandView, ErrorCode> {
    match payload {
        Some(body) => Ok::<CommandView, ErrorCode>(
            CommandView::RemoveRoleFromPerson {
                person: body.person_id@,
                service: body.service_id@,
                role_id: body.role_id,
            },
        ),
        None => Err(ErrorCode::InvalidRequestBody),
    }
}

/// What the listing of the roles of a person in a service asks for.
pub open spec fn list_person_roles_in_service_plan(
    person_id: Option<Seq<char>>,
    service_id: Option<Seq<char>>,
) -> Result<CommandView, ErrorCode> {
    match (path_identifier(person_id), path_identifier(service_id)) {
        (None, _) => Err::<CommandView, ErrorCode>(ErrorCode::InvalidPersonId),
        (Some(_), None) => Err(ErrorCode::InvalidServiceId),
        (Some(person), Some(service)) => Ok(
            CommandView::ListPersonRoles { person, service },
        ),
    }
}

/// What the listing of the persons that have a role in a service asks for.
pub open spec fn list_persons_with_role_in_service_plan(
    service_id: Option<Seq<char>>,
    role_id: Option<Seq<char>>,
) -> Result<CommandView, ErrorCode> {
    match (path_identifier(service_id), path_number(role_id)) {
        (None, _) => Err::<CommandView, ErrorCode>(ErrorCode::InvalidServiceId),
        (Some(_), None) => Err(ErrorCode::InvalidRoleId),
        (Some(service), Some(role_id)) => Ok(
            CommandView::ListPersonsWithRole { service, role_id },
        ),
    }
}

/// What the listing of the services in which a person has a role asks for.
pub open spec fn list_services_of_person_plan(
    person_id: Option<Seq<char>>,
) -> Result<CommandView, ErrorCode> {
    match path_number(person_id) {
        Some(person_id) => Ok::<CommandView, ErrorCode>(
            CommandView::ListServicesOfPerson { person_id },
        ),
        None => Err(ErrorCode::InvalidPersonId),
    }
}

/// What the question whether a person holds a permission in a service asks for.
pub open spec fn check_person_permission_in_service_plan(
    payload: Option<CheckPermissionPayload>,
) -> Result<CommandView, ErrorCode> {
    match payload {
        Some(body) => Ok::<CommandView, ErrorCode>(
            CommandView::CheckPersonPermission {
                person: body.person_id@,
                service: body.service_id@,
                permission_name: body.permission_name@,
            },
        ),
        None => Err(ErrorCode::InvalidRequestBody),
    }
}

impl Command {
    /// The creation of a person.
    pub fn create_user(payload: Option<CreateUserPayload>) -> (r: Result<Command, ErrorCode>)
        ensures
            plan_view(r) == create_user_plan(payload),
    {
        match payload {
            None => Err(ErrorCode::InvalidRequestBody),
            Some(body) => {
                if blank(&body.username) || blank(&body.password_hash) || blank(&body.name)
                    || blank(&body.person_type) || blank(&body.document_type) || blank(
                    &body.document_number,
                ) {
                    return Err(ErrorCode::InvalidRequestBody);
                }
                let person_type = parse_person_type(body.person_type.as_str());
                let document_type = parse_document_type(body.document_type.as_str());
                match (person_type, document_type) {
                    (Some(person_type), Some(document_type)) => Ok(
                        Command::CreateUser {
                            username: body.username,
                            password: body.password_hash,
                            name: body.name,
                            person_type,
                            document_type,
                            document_number: body.document_number,
                        },
                    ),
                    _ => Err(ErrorCode::InvalidRequestBody),
                }
            },
        }
    }

    /// The reading of a person.
    pub fn get_user(id: Option<&str>) -> (r: Result<Command, ErrorCode>)
        ensures
            plan_view(r) == get_user_plan(option_text(id)),
    {
        match path_id(id) {
            Some(id) => Ok(Command::GetUser { id }),
            None => Err(ErrorCode::InvalidUserId),
        }
    }

    /// The change of a person.
    pub fn update_user(
        id: Option<&str>,
        payload: Option<UpdateUserPayload>,
    ) -> (r: Result<Command, ErrorCode>)
        ensures
            plan_view(r) == update_user_plan(option_text(id), payload),
    {
        match path_id(id) {
            None => Err(ErrorCode::InvalidUserId),
            Some(id) => match payload {
                None => Err(ErrorCode::InvalidRequestBody),
                Some(body) => Ok(
                    Command::UpdateUser {
                        id,
                        new_username: body.username,
                        new_password: body.password_hash,
                        new_name: body.name,
                    },
                ),
            },
        }
    }

    /// The removal of a person.
    pub fn delete_user(id: Option<&str>) -> (r: Result<Command, ErrorCode>)
        ensures
            plan_view(r) == delete_user_plan(option_text(id)),
    {
        match path_id(id) {
            Some(id) => Ok(Command::DeleteUser { id }),
            None => Err(ErrorCode::InvalidUserId),
        }
    }

    /// The creation of a service.
    pub fn create_service(payload: Option<CreateServicePayload>) -> (r: Result<Command, ErrorCode>)
        ensures
            plan_view(r) == create_service_plan(payload),
    {
        match payload {
            Some(body) => Ok(
                Command::CreateService { name: body.name, description: body.description },
            ),
            None => Err(ErrorCode::InvalidRequestBody),
        }
    }

    /// The change of a service.
    pub fn update_service(
        id: Option<&str>,
        payload: Option<UpdateServicePayload>,
    ) -> (r: Result<Command, ErrorCode>)
        ensures
            plan_view(r) == update_service_plan(option_text(id), payload),
    {
        match path_id(id) {
            None => Err(ErrorCode::InvalidServiceId),
            Some(id) => match payload {
                None => Err(ErrorCode::InvalidRequestBody),
                Some(body) => Ok(
                    Command::UpdateService {
                        id,
                        new_name: body.name,
                        new_description: body.description,
                    },
                ),
            },
        }
    }

    /// The removal of a service.
    pub fn delete_service(id: Option<&str>) -> (r: Result<Command, ErrorCode>)
        ensures
            plan_view(r) == delete_service_plan(option_text(id)),
    {
        match path_id(id) {
            Some(id) => Ok(Command::DeleteService { id }),
            None => Err(ErrorCode::InvalidServiceId),
        }
    }

    /// The creation of a role.
    pub fn create_role(payload: Option<CreateRolePayload>) -> (r: Result<Command, ErrorCode>)
        ensures
            plan_view(r) == create_role_plan(payload),
    {
        match payload {
            Some(body) => Ok(Command::CreateRole { name: body.name }),
            None => Err(ErrorCode::InvalidRequestBody),
        }
    }

    /// The reading of a role.
    pub fn get_role(id: Option<&str>) -> (r: Result<Command, ErrorCode>)
        ensures
            plan_view(r) == get_role_plan(option_text(id)),
    {
        match path_id(id) {
            Some(id) => Ok(Command::GetRole { id }),
            None => Err(ErrorCode::InvalidRoleId),
        }
    }

    /// The renaming of a role.
    pub fn update_role(
        id: Option<&str>,
        payload: Option<UpdateRolePayload>,
    ) -> (r: Result<Command, ErrorCode>)
        ensures
            plan_view(r) == update_role_plan(option_text(id), payload),
    {
        match path_id(id) {
            None => Err(ErrorCode::InvalidRoleId),
            Some(id) => match payload {
                None => Err(ErrorCode::InvalidRequestBody),
                Some(body) => Ok(Command::UpdateRole { id, name: body.name }),
            },
        }
    }

    /// The removal of a role.
    pub fn delete_role(id: Option<&str>) -> (r: Result<Command, ErrorCode>)
        ensures
            plan_view(r) == delete_role_plan(option_text(id)),
    {
        match path_id(id) {
            Some(id) => Ok(Command::DeleteRole { id }),
            None => Err(ErrorCode::InvalidRoleId),
        }
    }

    /// The creation of a permission.
    pub fn create_permission(
        payload: Option<CreatePermissionPayload>,
    ) -> (r: Result<Command, ErrorCode>)
        ensures
            plan_view(r) == create_permission_plan(payload),
    {
        match payload {
            Some(body) => Ok(Command::CreatePermission { name: body.name }),
            None => Err(ErrorCode::InvalidRequestBody),
        }
    }

    /// The renaming of a permission.
    pub fn update_permission(
        id: Option<&str>,
        payload: Option<UpdatePermissionPayload>,
    ) -> (r: Result<Command, ErrorCode>)
        ensures
            plan_view(r) == update_permission_plan(option_text(id), payload),
    {
        match path_id(id) {
            None => Err(ErrorCode::InvalidPermissionId),
            Some(id) => match payload {
                None => Err(ErrorCode::InvalidRequestBody),
                Some(body) => Ok(Command::UpdatePermission { id, name: body.name }),
            },
        }
    }

    /// The removal of a permission.
    pub fn delete_permission(id: Option<&str>) -> (r: Result<Command, ErrorCode>)
        ensures
            plan_view(r) == delete_permission_plan(option_text(id)),
    {
        match path_id(id) {
            Some(id) => Ok(Command::DeletePermission { id }),
            None => Err(ErrorCode::InvalidPermissionId),
        }
    }

    /// The gift of a permission to a role.
    pub fn assign_permission_to_role(
        payload: Option<RolePermissionPayload>,
    ) -> (r: Result<Command, ErrorCode>)
        ensures
            plan_view(r) == assign_permission_to_role_plan(payload),
    {
        match payload {
            Some(body) => Ok(
                Command::AssignPermissionToRole {
                    role_id: body.role_id,
                    permission_id: body.permission_id,
                },
            ),
            None => Err(ErrorCode::InvalidRequestBody),
        }
    }

    /// The taking of a permission from a role.
    pub fn remove_permission_from_role(
        payload: Option<RolePermissionPayload>,
    ) -> (r: Result<Command, ErrorCode>)
        ensures
            plan_view(r) == remove_permission_from_role_plan(payload),
    {
        match payload {
            Some(body) => Ok(
                Command::RemovePermissionFromRole {
                    role_id: body.role_id,
                    permission_id: body.permission_id,
                },
            ),
            None => Err(ErrorCode::InvalidRequestBody),
        }
    }

    /// The listing of the permissions of a role.
    pub fn list_role_permissions(id: Option<&str>) -> (r: Result<Command, ErrorCode>)
        ensures
            plan_view(r) == list_role_permissions_plan(option_text(id)),
    {
        match path_id(id) {
            Some(role_id) => Ok(Command::ListRolePermissions { role_id }),
            None => Err(ErrorCode::InvalidRoleId),
        }
    }

    /// The placing of a role in a service.
    pub fn assign_role_to_service(
        payload: Option<ServiceRolePayload>,
    ) -> (r: Result<Command, ErrorCode>)
        ensures
            plan_view(r) == assign_role_to_service_plan(payload),
    {
        match payload {
            Some(body) => Ok(
                Command::AssignRoleToService { service: body.service_id, role_id: body.role_id },
            ),
            None => Err(ErrorCode::InvalidRequestBody),
        }
    }

    /// The taking of a role out of a service.
    pub fn remove_role_from_service(
        payload: Option<ServiceRolePayload>,
    ) -> (r: Result<Command, ErrorCode>)
        ensures
            plan_view(r) == remove_role_from_service_plan(payload),
    {
        match payload {
            Some(body) => Ok(
                Command::RemoveRoleFromService { service: body.service_id, role_id: body.role_id },
            ),
            None => Err(ErrorCode::InvalidRequestBody),
        }
    }

    /// The listing of the roles of a service.
    pub fn list_service_roles(id: Option<&str>) -> (r: Result<Command, ErrorCode>)
        ensures
            plan_view(r) == list_service_roles_plan(option_text(id)),
    {
        match id {
            Some(text) => Ok(Command::ListServiceRoles { service: FlexibleId::from_text(text) }),
            None => Err(ErrorCode::InvalidServiceId),
        }
    }

    /// The gift of a role in a service to a person.
    pub fn assign_role_to_person_in_service(
        payload: Option<PersonServiceRolePayload>,
    ) -> (r: Result<Command, ErrorCode>)
        ensures
            plan_view(r) == assign_role_to_person_in_service_plan(payload),
    {
        match payload {
            Some(body) => Ok(
                Command::AssignRoleToPerson {
                    person: body.person_id,
                    service: body.service_id,
                    role_id: body.role_id,
                },
            ),
            None => Err(ErrorCode::InvalidRequestBody),
        }
    }

    /// The taking of a role in a service from a person.
    pub fn remove_role_from_person_in_service(
        payload: Option<PersonServiceRolePayload>,
    ) -> (r: Result<Command, ErrorCode>)
        ensures
            plan_view(r) == remove_role_from_person_in_service_plan(payload),
    {
        match payload {
            Some(body) => Ok(
                Command::RemoveRoleFromPerson {
                    person: body.person_id,
                    service: body.service_id,
                    role_id: body.role_id,
                },
            ),
            None => Err(ErrorCode::InvalidRequestBody),
        }
    }

    /// The listing of the roles of a person in a service.
    pub fn list_person_roles_in_service(
        person_id: Option<&str>,
        service_id: Option<&str>,
    ) -> (r: Result<Command, ErrorCode>)
        ensures
            plan_view(r) == list_person_roles_in_service_plan(
                option_text(person_id),
                option_text(service_id),
            ),
    {
        match person_id {
            None => Err(ErrorCode::InvalidPersonId),
            Some(person) => match service_id {
                None => Err(ErrorCode::InvalidServiceId),
                Some(service) => Ok(
                    Command::ListPersonRoles {
                        person: FlexibleId::from_text(person),
                        service: FlexibleId::from_text(service),
                    },
                ),
            },
        }
    }

    /// The listing of the persons that have a role in a service.
    pub fn list_persons_with_role_in_service(
        service_id: Option<&str>,
        role_id: Option<&str>,
    ) -> (r: Result<Command, ErrorCode>)
        ensures
            plan_view(r) == list_persons_with_role_in_service_plan(
                option_text(service_id),
                option_text(role_id),
            ),
    {
        match service_id {
            None => Err(ErrorCode::InvalidServiceId),
            Some(service) => match path_id(role_id) {
                None => Err(ErrorCode::InvalidRoleId),
                Some(role_id) => Ok(
                    Command::ListPersonsWithRole {
                        service: FlexibleId::from_text(service),
                        role_id,
                    },
                ),
            },
        }
    }

    /// The listing of the services in which a person has a role.
    pub fn list_services_of_person(person_id: Option<&str>) -> (r: Result<Command, ErrorCode>)
        ensures
            plan_view(r) == list_services_of_person_plan(option_text(person_id)),
    {
        match path_id(person_id) {
            Some(person_id) => Ok(Command::ListServicesOfPerson { person_id }),
            None => Err(ErrorCode::InvalidPersonId),
        }
    }

    /// The question whether a person holds a permission in a service.
    pub fn check_person_permission_in_service(
        payload: Option<CheckPermissionPayload>,
    ) -> (r: Result<Command, ErrorCode>)
        ensures
            plan_view(r) == check_person_permission_in_service_plan(payload),
    {
        match payload {
            Some(body) => Ok(
                Command::CheckPersonPermission {
                    person: body.person_id,
                    service: body.service_id,
                    permission_name: body.permission_name,
                },
            ),
            None => Err(ErrorCode::InvalidRequestBody),
        }
    }
}

/// What the question for a person's permission asks for, from the body where
/// it is given and reads well, else from the three parameters of the path.
pub fn parse_check_permission_payload(
    body: Option<CheckPermissionPayload>,
    person_id: Option<&str>,
    service_id: Option<&str>,
    permission_name: Option<&str>,
) -> (r: Option<CheckPermissionPayload>)
    ensures
        match body {
            Some(given) => r == Some(given),
            None => match (person_id, service_id, permission_name) {
                (Some(person), Some(service), Some(permission)) => r matches Some(built)
                    && built.person_id@ == FlexibleIdView::of_text(person@) && built.service_id@
                    == FlexibleIdView::of_text(service@) && built.permission_name@
                    == permission@,
                _ => r is None,
            },
        },
{
    match body {
        Some(given) => Some(given),
        None => match (person_id, service_id, permission_name) {
            (Some(person), Some(service), Some(permission)) => Some(
                CheckPermissionPayload {
                    person_id: FlexibleId::from_text(person),
                    service_id: FlexibleId::from_text(service),
                    permission_name: permission.to_owned(),
                },
            ),
            _ => None,
        },
    }
}

} // verus!
