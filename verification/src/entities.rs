//! The entities of the catalog: persons, services, roles and permissions, and
//! the edges between them.

use vstd::prelude::*;

verus! {

/// Whether a person is a natural or a juridical one.
#[derive(Clone, Copy, Debug, PartialEq, Eq, Structural)]
pub enum PersonType {
    N,
    J,
}

/// The kind of document that identifies a person.
#[derive(Clone, Copy, Debug, PartialEq, Eq, Structural)]
pub enum DocumentType {
    DNI,
    CE,
    RUC,
}

/// A row with an id and a unique name: a role or a permission.
pub struct Named {
    pub id: i32,
    pub name: Seq<char>,
}

/// A row of the roles or of the permissions.
pub struct NameRow {
    pub id: i32,
    pub name: String,
}

impl View for NameRow {
    type V = Named;

    open spec fn view(&self) -> Named {
        Named { id: self.id, name: self.name@ }
    }
}

impl DeepView for NameRow {
    type V = Named;

    open spec fn deep_view(&self) -> Named {
        self@
    }
}

impl Clone for NameRow {
    fn clone(&self) -> (r: Self)
        ensures
            r@ == self@,
    {
        NameRow { id: self.id, name: self.name.clone() }
    }
}

impl NameRow {
    /// The row as a role.
    pub fn role(&self) -> (r: Role)
        ensures
            r@ == self@,
    {
        Role { id: self.id, name: self.name.clone() }
    }

    /// The row as a permission.
    pub fn permission(&self) -> (r: Permission)
        ensures
            r@ == self@,
    {
        Permission { id: self.id, name: self.name.clone() }
    }
}

/// A role.
pub struct Role {
    pub id: i32,
    pub name: String,
}

impl View for Role {
    type V = Named;

    open spec fn view(&self) -> Named {
        Named { id: self.id, name: self.name@ }
    }
}

impl DeepView for Role {
    type V = Named;

    open spec fn deep_view(&self) -> Named {
        self@
    }
}

impl Clone for Role {
    fn clone(&self) -> (r: Self)
        ensures
            r@ == self@,
    {
        Role { id: self.id, name: self.name.clone() }
    }
}

/// A permission.
pub struct Permission {
    pub id: i32,
    pub name: String,
}

impl View for Permission {
    type V = Named;

    open spec fn view(&self) -> Named {
        Named { id: self.id, name: self.name@ }
    }
}

impl DeepView for Permission {
    type V = Named;

    open spec fn deep_view(&self) -> Named {
        self@
    }
}

impl Clone for Permission {
    fn clone(&self) -> (r: Self)
        ensures
            r@ == self@,
    {
        Permission { id: self.id, name: self.name.clone() }
    }
}

/// The text of an optional string.
pub open spec fn text_of(value: Option<String>) -> Option<Seq<char>> {
    match value {
        Some(text) => Some(text@),
        None => None,
    }
}

/// A copy of an optional string.
pub fn clone_text(value: &Option<String>) -> (r: Option<String>)
    ensures
        text_of(r) == text_of(*value),
{
    match value {
        Some(text) => Some(text.clone()),
        None => None,
    }
}

/// A person as the listings show them.
pub struct User {
    pub id: i32,
    pub username: String,
    pub name: String,
}

/// A listed person as plain values.
pub struct UserView {
    pub id: i32,
    pub username: Seq<char>,
    pub name: Seq<char>,
}

impl View for User {
    type V = UserView;

    open spec fn view(&self) -> UserView {
        UserView { id: self.id, username: self.username@, name: self.name@ }
    }
}

impl DeepView for User {
    type V = UserView;

    open spec fn deep_view(&self) -> UserView {
        self@
    }
}

impl Clone for User {
    fn clone(&self) -> (r: Self)
        ensures
            r@ == self@,
    {
        User { id: self.id, username: self.username.clone(), name: self.name.clone() }
    }
}

/// A person as the login reads them.
pub struct AuthUser {
    pub id: i32,
    pub username: String,
    pub password_hash: String,
    pub name: String,
}

/// A person at login as plain values.
pub struct AuthUserView {
    pub id: i32,
    pub username: Seq<char>,
    pub password_hash: Seq<char>,
    pub name: Seq<char>,
}

impl View for AuthUser {
    type V = AuthUserView;

    open spec fn view(&self) -> AuthUserView {
        AuthUserView {
            id: self.id,
            username: self.username@,
            password_hash: self.password_hash@,
            name: self.name@,
        }
    }
}

impl DeepView for AuthUser {
    type V = AuthUserView;

    open spec fn deep_view(&self) -> AuthUserView {
        self@
    }
}

/// A service as the listings show it.
pub struct Service {
    pub id: i32,
    pub name: String,
    pub description: Option<String>,
}

/// A listed service as plain values.
pub struct ServiceView {
    pub id: i32,
    pub name: Seq<char>,
    pub description: Option<Seq<char>>,
}

impl View for Service {
    type V = ServiceView;

    open spec fn view(&self) -> ServiceView {
        ServiceView { id: self.id, name: self.name@, description: text_of(self.description) }
    }
}

impl DeepView for Service {
    type V = ServiceView;

    open spec fn deep_view(&self) -> ServiceView {
        self@
    }
}

impl Clone for Service {
    fn clone(&self) -> (r: Self)
        ensures
            r@ == self@,
    {
        Service {
            id: self.id,
            name: self.name.clone(),
            description: clone_text(&self.description),
        }
    }
}

/// What the issue of a service token reads of a service.
pub struct ServiceTokenData {
    pub id: i32,
    pub name: String,
    pub status: bool,
}

/// A service's state as plain values.
pub struct ServiceDataView {
    pub id: i32,
    pub name: Seq<char>,
    pub status: bool,
}

impl View for ServiceTokenData {
    type V = ServiceDataView;

    open spec fn view(&self) -> ServiceDataView {
        ServiceDataView { id: self.id, name: self.name@, status: self.status }
    }
}

impl DeepView for ServiceTokenData {
    type V = ServiceDataView;

    open spec fn deep_view(&self) -> ServiceDataView {
        self@
    }
}

/// A row of the persons.
pub struct PersonRecord {
    pub id: i32,
    pub username: String,
    pub password_hash: String,
    pub name: String,
    pub person_type: PersonType,
    pub document_type: DocumentType,
    pub document_number: String,
    pub removed_at: Option<i64>,
}

/// A row of the persons as plain values.
pub struct PersonRow {
    pub id: i32,
    pub username: Seq<char>,
    pub password_hash: Seq<char>,
    pub name: Seq<char>,
    pub person_type: PersonType,
    pub document_type: DocumentType,
    pub document_number: Seq<char>,
    pub removed_at: Option<i64>,
}

impl PersonRow {
    /// The person has not been removed.
    pub open spec fn live(self) -> bool {
        self.removed_at is None
    }

    /// The person as a listing shows them.
    pub open spec fn listed(self) -> UserView {
        UserView { id: self.id, username: self.username, name: self.name }
    }

    /// The person as the login reads them.
    pub open spec fn for_login(self) -> AuthUserView {
        AuthUserView {
            id: self.id,
            username: self.username,
            password_hash: self.password_hash,
            name: self.name,
        }
    }
}

impl View for PersonRecord {
    type V = PersonRow;

    open spec fn view(&self) -> PersonRow {
        PersonRow {
            id: self.id,
            username: self.username@,
            password_hash: self.password_hash@,
            name: self.name@,
            person_type: self.person_type,
            document_type: self.document_type,
            document_number: self.document_number@,
            removed_at: self.removed_at,
        }
    }
}

impl DeepView for PersonRecord {
    type V = PersonRow;

    open spec fn deep_view(&self) -> PersonRow {
        self@
    }
}

impl Clone for PersonRecord {
    fn clone(&self) -> (r: Self)
        ensures
            r@ == self@,
    {
        PersonRecord {
            id: self.id,
            username: self.username.clone(),
            password_hash: self.password_hash.clone(),
            name: self.name.clone(),
            person_type: self.person_type,
            document_type: self.document_type,
            document_number: self.document_number.clone(),
            removed_at: self.removed_at,
        }
    }
}

impl PersonRecord {
    /// The person as a listing shows them.
    pub fn listed(&self) -> (r: User)
        ensures
            r@ == self@.listed(),
    {
        User { id: self.id, username: self.username.clone(), name: self.name.clone() }
    }

    /// The person as the login reads them.
    pub fn for_login(&self) -> (r: AuthUser)
        ensures
            r@ == self@.for_login(),
    {
        AuthUser {
            id: self.id,
            username: self.username.clone(),
            password_hash: self.password_hash.clone(),
            name: self.name.clone(),
        }
    }
}

/// A row of the services.
pub struct ServiceRecord {
    pub id: i32,
    pub name: String,
    pub description: Option<String>,
    pub status: bool,
}

/// A row of the services as plain values.
pub struct ServiceRow {
    pub id: i32,
    pub name: Seq<char>,
    pub description: Option<Seq<char>>,
    pub status: bool,
}

impl ServiceRow {
    /// The service as a listing shows it.
    pub open spec fn listed(self) -> ServiceView {
        ServiceView { id: self.id, name: self.name, description: self.description }
    }

    /// What the issue of a service token reads of the service.
    pub open spec fn for_token(self) -> ServiceDataView {
        ServiceDataView { id: self.id, name: self.name, status: self.status }
    }
}

impl View for ServiceRecord {
    type V = ServiceRow;

    open spec fn view(&self) -> ServiceRow {
        ServiceRow {
            id: self.id,
            name: self.name@,
            description: text_of(self.description),
            status: self.status,
        }
    }
}

impl DeepView for ServiceRecord {
    type V = ServiceRow;

    open spec fn deep_view(&self) -> ServiceRow {
        self@
    }
}

impl Clone for ServiceRecord {
    fn clone(&self) -> (r: Self)
        ensures
            r@ == self@,
    {
        ServiceRecord {
            id: self.id,
            name: self.name.clone(),
            description: clone_text(&self.description),
            status: self.status,
        }
    }
}

impl ServiceRecord {
    /// The service as a listing shows it.
    pub fn listed(&self) -> (r: Service)
        ensures
            r@ == self@.listed(),
    {
        Service {
            id: self.id,
            name: self.name.clone(),
            description: clone_text(&self.description),
        }
    }

    /// What the issue of a service token reads of the service.
    pub fn for_token(&self) -> (r: ServiceTokenData)
        ensures
            r@ == self@.for_token(),
    {
        ServiceTokenData { id: self.id, name: self.name.clone(), status: self.status }
    }
}

/// The four kinds of entity.
#[derive(Clone, Copy, Debug, PartialEq, Eq, Structural)]
pub enum Entity {
    Person,
    Service,
    Role,
    Permission,
}

/// An edge of the catalog.
#[derive(Clone, Copy, Debug, PartialEq, Eq, Structural)]
pub enum Edge {
    /// The role is visible in the service.
    ServiceRole { service_id: i32, role_id: i32 },
    /// The role confers the permission.
    RolePermission { role_id: i32, permission_id: i32 },
    /// The person has the role in the service.
    PersonServiceRole { person_id: i32, service_id: i32, role_id: i32 },
}

/// A listing along the edges of the catalog.
#[derive(Clone, Copy, Debug, PartialEq, Eq, Structural)]
pub enum LinkQuery {
    /// The permissions that a role confers.
    RolePermissions { role_id: i32 },
    /// The roles that are visible in a service.
    ServiceRoles { service_id: i32 },
    /// The roles that a person has in a service.
    PersonRoles { person_id: i32, service_id: i32 },
    /// The persons that have a role in a service.
    PersonsWithRole { service_id: i32, role_id: i32 },
    /// The services in which a person has a role.
    ServicesOfPerson { person_id: i32 },
}

/// A person to be created.
pub struct NewPerson {
    pub username: String,
    pub password_hash: String,
    pub name: String,
    pub person_type: PersonType,
    pub document_type: DocumentType,
    pub document_number: String,
}

/// A person to be created, as plain values.
pub struct NewPersonView {
    pub username: Seq<char>,
    pub password_hash: Seq<char>,
    pub name: Seq<char>,
    pub person_type: PersonType,
    pub document_type: DocumentType,
    pub document_number: Seq<char>,
}

impl NewPersonView {
    /// The row of the person under the id `id`.
    pub open spec fn row(self, id: i32) -> PersonRow {
        PersonRow {
            id,
            username: self.username,
            password_hash: self.password_hash,
            name: self.name,
            person_type: self.person_type,
            document_type: self.document_type,
            document_number: self.document_number,
            removed_at: None,
        }
    }
}

impl View for NewPerson {
    type V = NewPersonView;

    open spec fn view(&self) -> NewPersonView {
        NewPersonView {
            username: self.username@,
            password_hash: self.password_hash@,
            name: self.name@,
            person_type: self.person_type,
            document_type: self.document_type,
            document_number: self.document_number@,
        }
    }
}

} // verus!
