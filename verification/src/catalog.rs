//! The catalog of persons, services, roles and permissions, and of the edges
//! that grant a person a permission in a service.

use crate::entities::{
    text_of, AuthUser, AuthUserView, Edge, Entity, NameRow, Named, NewPerson, NewPersonView,
    PersonRecord, PersonRow, Service, ServiceDataView, ServiceRecord, ServiceRow, ServiceTokenData,
    ServiceView, User, UserView,
};
use crate::table::{
    distinct_by, has_key, lemma_filter_all, lemma_filter_distinct, lemma_filter_members,
    lemma_filter_none, lemma_filter_step, lemma_push_distinct, lemma_row_found,
    lemma_select_members, lemma_select_none, lemma_select_step, lemma_update_distinct, row_of,
    slot_of,
};
use vstd::prelude::*;

verus! {

/// Persons by id.
pub open spec fn person_id() -> spec_fn(PersonRow) -> i32 {
    |row: PersonRow| row.id
}

/// Persons by user name.
pub open spec fn person_name() -> spec_fn(PersonRow) -> Seq<char> {
    |row: PersonRow| row.username
}

/// Services by id.
pub open spec fn service_id() -> spec_fn(ServiceRow) -> i32 {
    |row: ServiceRow| row.id
}

/// Services by name.
pub open spec fn service_name() -> spec_fn(ServiceRow) -> Seq<char> {
    |row: ServiceRow| row.name
}

/// Roles and permissions by id.
pub open spec fn named_id() -> spec_fn(Named) -> i32 {
    |row: Named| row.id
}

/// Roles and permissions by name.
pub open spec fn named_name() -> spec_fn(Named) -> Seq<char> {
    |row: Named| row.name
}

/// An edge between two entities is its own key.
pub open spec fn pair_key() -> spec_fn((i32, i32)) -> (i32, i32) {
    |edge: (i32, i32)| edge
}

/// An edge between three entities is its own key.
pub open spec fn triple_key() -> spec_fn((i32, i32, i32)) -> (i32, i32, i32) {
    |edge: (i32, i32, i32)| edge
}

/// The catalog as plain values.
pub struct CatalogState {
    pub persons: Seq<PersonRow>,
    pub services: Seq<ServiceRow>,
    pub roles: Seq<Named>,
    pub permissions: Seq<Named>,
    /// Pairs of a service and a role that is visible in it.
    pub service_roles: Seq<(i32, i32)>,
    /// Pairs of a role and a permission that it confers.
    pub role_permissions: Seq<(i32, i32)>,
    /// Triples of a person, a service and a role of the person in the service.
    pub person_service_roles: Seq<(i32, i32, i32)>,
    /// The ids that the next person, service, role and permission get.
    pub next_person: i32,
    pub next_service: i32,
    pub next_role: i32,
    pub next_permission: i32,
}

impl CatalogState {
    /// Ids and names are unique in each table, no edge occurs twice, and every
    /// id in use lies below the next one to be given out.
    pub open spec fn wf(self) -> bool {
        &&& distinct_by(self.persons, person_id())
        &&& distinct_by(self.persons, person_name())
        &&& distinct_by(self.services, service_id())
        &&& distinct_by(self.services, service_name())
        &&& distinct_by(self.roles, named_id())
        &&& distinct_by(self.roles, named_name())
        &&& distinct_by(self.permissions, named_id())
        &&& distinct_by(self.permissions, named_name())
        &&& distinct_by(self.service_roles, pair_key())
        &&& distinct_by(self.role_permissions, pair_key())
        &&& distinct_by(self.person_service_roles, triple_key())
        &&& forall|i: int| 0 <= i < self.persons.len() ==> (#[trigger] self.persons[i]).id
            < self.next_person
        &&& forall|i: int| 0 <= i < self.services.len() ==> (#[trigger] self.services[i]).id
            < self.next_service
        &&& forall|i: int| 0 <= i < self.roles.len() ==> (#[trigger] self.roles[i]).id
            < self.next_role
        &&& forall|i: int| 0 <= i < self.permissions.len() ==> (#[trigger] self.permissions[i]).id
            < self.next_permission
    }

    /// The catalog with nothing in it.
    pub open spec fn empty() -> CatalogState {
        CatalogState {
            persons: Seq::empty(),
            services: Seq::empty(),
            roles: Seq::empty(),
            permissions: Seq::empty(),
            service_roles: Seq::empty(),
            role_permissions: Seq::empty(),
            person_service_roles: Seq::empty(),
            next_person: 1,
            next_service: 1,
            next_role: 1,
            next_permission: 1,
        }
    }

    /// The edge is in the catalog.
    pub open spec fn has_edge(self, edge: Edge) -> bool {
        match edge {
            Edge::ServiceRole { service_id, role_id } => has_key(
                self.service_roles,
                pair_key(),
                (service_id, role_id),
            ),
            Edge::RolePermission { role_id, permission_id } => has_key(
                self.role_permissions,
                pair_key(),
                (role_id, permission_id),
            ),
            Edge::PersonServiceRole { person_id, service_id, role_id } => has_key(
                self.person_service_roles,
                triple_key(),
                (person_id, service_id, role_id),
            ),
        }
    }

    /// The person with a user name, unless removed.
    pub open spec fn live_person(self, username: Seq<char>) -> Option<PersonRow> {
        match row_of(self.persons, person_name(), username) {
            Some(row) => if row.live() {
                Some(row)
            } else {
                None
            },
            None => None,
        }
    }

    /// What the login reads for a user name.
    pub open spec fn find_auth_user(self, username: Seq<char>) -> Option<AuthUserView> {
        match self.live_person(username) {
            Some(row) => Some(row.for_login()),
            None => None,
        }
    }

    /// What the issue of a service token reads for a service.
    pub open spec fn find_service(self, id: i32) -> Option<ServiceDataView> {
        match row_of(self.services, service_id(), id) {
            Some(row) => Some(row.for_token()),
            None => None,
        }
    }

    /// The id of the entity with a name; of persons only those not removed.
    pub open spec fn find_id(self, entity: Entity, name: Seq<char>) -> Option<i32> {
        match entity {
            Entity::Person => match self.live_person(name) {
                Some(row) => Some(row.id),
                None => None,
            },
            Entity::Service => match row_of(self.services, service_name(), name) {
                Some(row) => Some(row.id),
                None => None,
            },
            Entity::Role => match row_of(self.roles, named_name(), name) {
                Some(row) => Some(row.id),
                None => None,
            },
            Entity::Permission => match row_of(self.permissions, named_name(), name) {
                Some(row) => Some(row.id),
                None => None,
            },
        }
    }

    /// The role is one that the person has in the service and that is visible
    /// in the service.
    pub open spec fn role_granted(self, person_id: i32, service_id: i32, role_id: i32) -> bool {
        &&& self.has_edge(Edge::PersonServiceRole { person_id, service_id, role_id })
        &&& self.has_edge(Edge::ServiceRole { service_id, role_id })
    }

    /// The person has in the service a role of the name `role`.
    pub open spec fn grants_role(self, person_id: i32, service_id: i32, role: Seq<char>) -> bool {
        exists|i: int|
            0 <= i < self.roles.len() && (#[trigger] self.roles[i]).name == role
                && self.role_granted(person_id, service_id, self.roles[i].id)
    }

    /// Some role that the person has in the service, and that is visible in
    /// the service, confers the permission.
    pub open spec fn confers(self, person_id: i32, service_id: i32, permission_id: i32) -> bool {
        exists|i: int|
            0 <= i < self.roles.len() && self.role_granted(
                person_id,
                service_id,
                (#[trigger] self.roles[i]).id,
            ) && self.has_edge(
                Edge::RolePermission { role_id: self.roles[i].id, permission_id },
            )
    }

    /// The person holds in the service the permission of the name
    /// `permission`: some role confers it that the person has in the service
    /// and that is visible in the service.
    pub open spec fn grants_permission(
        self,
        person_id: i32,
        service_id: i32,
        permission: Seq<char>,
    ) -> bool {
        exists|j: int|
            0 <= j < self.permissions.len() && (#[trigger] self.permissions[j]).name
                == permission && self.confers(person_id, service_id, self.permissions[j].id)
    }

    /// The roles that the person has in the service.
    pub open spec fn role_is_granted(self, person_id: i32, service_id: i32) -> spec_fn(
        Named,
    ) -> bool {
        |row: Named| self.role_granted(person_id, service_id, row.id)
    }

    /// The permissions that the person holds in the service.
    pub open spec fn permission_is_conferred(self, person_id: i32, service_id: i32) -> spec_fn(
        Named,
    ) -> bool {
        |row: Named| self.confers(person_id, service_id, row.id)
    }

    /// The names of the roles that the person has in the service, in the
    /// order of the table.
    pub open spec fn granted_role_names(self, person_id: i32, service_id: i32) -> Seq<Seq<char>> {
        self.roles.filter(self.role_is_granted(person_id, service_id)).map_values(name_of())
    }

    /// The names of the permissions that the person holds in the service, in
    /// the order of the table.
    pub open spec fn granted_permission_names(self, person_id: i32, service_id: i32) -> Seq<
        Seq<char>,
    > {
        self.permissions.filter(self.permission_is_conferred(person_id, service_id)).map_values(
            name_of(),
        )
    }

    /// `names` are the names of the roles that the person has in the service,
    /// in any order.
    pub open spec fn are_granted_roles(
        self,
        names: Seq<Seq<char>>,
        person_id: i32,
        service_id: i32,
    ) -> bool {
        forall|name: Seq<char>| #[trigger]
            names.contains(name) <==> self.grants_role(person_id, service_id, name)
    }

    /// `names` are the names of the permissions that the person holds in the
    /// service, in any order.
    pub open spec fn are_granted_permissions(
        self,
        names: Seq<Seq<char>>,
        person_id: i32,
        service_id: i32,
    ) -> bool {
        forall|name: Seq<char>| #[trigger]
            names.contains(name) <==> self.grants_permission(person_id, service_id, name)
    }
}

/// The name of a role or a permission.
pub open spec fn name_of() -> spec_fn(Named) -> Seq<char> {
    |row: Named| row.name
}

/// The names that the catalog lists for a person in a service are the names
/// of the roles they have there and of the permissions they hold there.
pub proof fn lemma_granted_names(catalog: CatalogState, person_id: i32, service_id: i32)
    ensures
        catalog.are_granted_roles(
            catalog.granted_role_names(person_id, service_id),
            person_id,
            service_id,
        ),
        catalog.are_granted_permissions(
            catalog.granted_permission_names(person_id, service_id),
            person_id,
            service_id,
        ),
{
    let roles = catalog.granted_role_names(person_id, service_id);
    assert forall|name: Seq<char>| #[trigger]
        roles.contains(name) <==> catalog.grants_role(person_id, service_id, name) by {
        lemma_select_members(
            catalog.roles,
            catalog.role_is_granted(person_id, service_id),
            name_of(),
            name,
        );
        if catalog.grants_role(person_id, service_id, name) {
            let i = choose|i: int|
                0 <= i < catalog.roles.len() && (#[trigger] catalog.roles[i]).name == name
                    && catalog.role_granted(person_id, service_id, catalog.roles[i].id);
            assert(catalog.role_is_granted(person_id, service_id)(catalog.roles[i]) && name_of()(
                catalog.roles[i],
            ) == name);
        }
    }
    let permissions = catalog.granted_permission_names(person_id, service_id);
    assert forall|name: Seq<char>| #[trigger]
        permissions.contains(name) <==> catalog.grants_permission(
            person_id,
            service_id,
            name,
        ) by {
        lemma_select_members(
            catalog.permissions,
            catalog.permission_is_conferred(person_id, service_id),
            name_of(),
            name,
        );
        if catalog.grants_permission(person_id, service_id, name) {
            let j = choose|j: int|
                0 <= j < catalog.permissions.len() && (#[trigger] catalog.permissions[j]).name
                    == name && catalog.confers(person_id, service_id, catalog.permissions[j].id);
            assert(catalog.permission_is_conferred(person_id, service_id)(
                catalog.permissions[j],
            ) && name_of()(catalog.permissions[j]) == name);
        }
    }
}

/// The pairs that are kept when those with the given first and second
/// component go; a component that is not given matches every pair.
pub open spec fn pair_outside(first: Option<i32>, second: Option<i32>) -> spec_fn(
    (i32, i32),
) -> bool {
    |edge: (i32, i32)|
        !((first is None || first == Some(edge.0)) && (second is None || second == Some(edge.1)))
}

/// The triples that are kept when those with the given components go; a
/// component that is not given matches every triple.
pub open spec fn triple_outside(
    first: Option<i32>,
    second: Option<i32>,
    third: Option<i32>,
) -> spec_fn((i32, i32, i32)) -> bool {
    |edge: (i32, i32, i32)|
        !((first is None || first == Some(edge.0)) && (second is None || second == Some(edge.1))
            && (third is None || third == Some(edge.2)))
}

/// The services other than the one with the id `id`.
pub open spec fn other_service(id: i32) -> spec_fn(ServiceRow) -> bool {
    |row: ServiceRow| row.id != id
}

/// The roles or permissions other than the one with the id `id`.
pub open spec fn other_named(id: i32) -> spec_fn(Named) -> bool {
    |row: Named| row.id != id
}

/// The persons that have not been removed.
pub open spec fn is_live() -> spec_fn(PersonRow) -> bool {
    |row: PersonRow| row.live()
}

/// A person as a listing shows them.
pub open spec fn listed_person() -> spec_fn(PersonRow) -> UserView {
    |row: PersonRow| row.listed()
}

/// A service as a listing shows it.
pub open spec fn listed_service() -> spec_fn(ServiceRow) -> ServiceView {
    |row: ServiceRow| row.listed()
}

/// The roles or permissions that stand second in a pair after `first`.
pub open spec fn paired_with(pairs: Seq<(i32, i32)>, first: i32) -> spec_fn(Named) -> bool {
    |row: Named| has_key(pairs, pair_key(), (first, row.id))
}

/// The roles that stand third in a triple after `first` and `second`.
pub open spec fn tripled_with(triples: Seq<(i32, i32, i32)>, first: i32, second: i32) -> spec_fn(
    Named,
) -> bool {
    |row: Named| has_key(triples, triple_key(), (first, second, row.id))
}

/// The persons, not removed, that have the role in the service.
pub open spec fn holds_role(triples: Seq<(i32, i32, i32)>, service_id: i32, role_id: i32)
    -> spec_fn(PersonRow) -> bool {
    |row: PersonRow| row.live() && has_key(triples, triple_key(), (row.id, service_id, role_id))
}

/// The person has some role in the service.
pub open spec fn has_role_in(triples: Seq<(i32, i32, i32)>, person_id: i32, service_id: i32)
    -> bool {
    exists|i: int|
        0 <= i < triples.len() && (#[trigger] triples[i]).0 == person_id && triples[i].1
            == service_id
}

/// The services in which the person has some role.
pub open spec fn serves(triples: Seq<(i32, i32, i32)>, person_id: i32) -> spec_fn(
    ServiceRow,
) -> bool {
    |row: ServiceRow| has_role_in(triples, person_id, row.id)
}

/// A field after an update that may leave it as it is.
pub open spec fn replaced(old: Seq<char>, new: Option<Seq<char>>) -> Seq<char> {
    match new {
        Some(text) => text,
        None => old,
    }
}

impl CatalogState {
    /// The catalog with the edge in it.
    pub open spec fn link(self, edge: Edge) -> CatalogState {
        if self.has_edge(edge) {
            self
        } else {
            match edge {
                Edge::ServiceRole { service_id, role_id } => CatalogState {
                    service_roles: self.service_roles.push((service_id, role_id)),
                    ..self
                },
                Edge::RolePermission { role_id, permission_id } => CatalogState {
                    role_permissions: self.role_permissions.push((role_id, permission_id)),
                    ..self
                },
                Edge::PersonServiceRole { person_id, service_id, role_id } => CatalogState {
                    person_service_roles: self.person_service_roles.push(
                        (person_id, service_id, role_id),
                    ),
                    ..self
                },
            }
        }
    }

    /// The catalog without the edge.
    pub open spec fn unlink(self, edge: Edge) -> CatalogState {
        match edge {
            Edge::ServiceRole { service_id, role_id } => CatalogState {
                service_roles: self.service_roles.filter(
                    pair_outside(Some(service_id), Some(role_id)),
                ),
                ..self
            },
            Edge::RolePermission { role_id, permission_id } => CatalogState {
                role_permissions: self.role_permissions.filter(
                    pair_outside(Some(role_id), Some(permission_id)),
                ),
                ..self
            },
            Edge::PersonServiceRole { person_id, service_id, role_id } => CatalogState {
                person_service_roles: self.person_service_roles.filter(
                    triple_outside(Some(person_id), Some(service_id), Some(role_id)),
                ),
                ..self
            },
        }
    }

    /// A person of this user name can be created: the name is free and an id
    /// is left.
    pub open spec fn can_create_person(self, username: Seq<char>) -> bool {
        !has_key(self.persons, person_name(), username) && self.next_person < i32::MAX
    }

    /// The catalog with the new person, under the next id.
    pub open spec fn create_person(self, person: NewPersonView) -> CatalogState {
        CatalogState {
            persons: self.persons.push(person.row(self.next_person)),
            next_person: (self.next_person + 1) as i32,
            ..self
        }
    }

    /// A service of this name can be created.
    pub open spec fn can_create_service(self, name: Seq<char>) -> bool {
        !has_key(self.services, service_name(), name) && self.next_service < i32::MAX
    }

    /// The row that a new service gets: the next id, and it is active.
    pub open spec fn new_service(self, name: Seq<char>, description: Option<Seq<char>>)
        -> ServiceRow {
        ServiceRow { id: self.next_service, name, description, status: true }
    }

    /// The catalog with the new service.
    pub open spec fn create_service(self, name: Seq<char>, description: Option<Seq<char>>)
        -> CatalogState {
        CatalogState {
            services: self.services.push(self.new_service(name, description)),
            next_service: (self.next_service + 1) as i32,
            ..self
        }
    }

    /// A role of this name can be created.
    pub open spec fn can_create_role(self, name: Seq<char>) -> bool {
        !has_key(self.roles, named_name(), name) && self.next_role < i32::MAX
    }

    /// The catalog with the new role, under the next id.
    pub open spec fn create_role(self, name: Seq<char>) -> CatalogState {
        CatalogState {
            roles: self.roles.push(Named { id: self.next_role, name }),
            next_role: (self.next_role + 1) as i32,
            ..self
        }
    }

    /// A permission of this name can be created.
    pub open spec fn can_create_permission(self, name: Seq<char>) -> bool {
        !has_key(self.permissions, named_name(), name) && self.next_permission < i32::MAX
    }

    /// The catalog with the new permission, under the next id.
    pub open spec fn create_permission(self, name: Seq<char>) -> CatalogState {
        CatalogState {
            permissions: self.permissions.push(Named { id: self.next_permission, name }),
            next_permission: (self.next_permission + 1) as i32,
            ..self
        }
    }

    /// The name `name` is free for the row with the id `id` of a table of roles
    /// or permissions: no other row has it.
    pub open spec fn name_free_for(rows: Seq<Named>, id: i32, name: Seq<char>) -> bool {
        match row_of(rows, named_name(), name) {
            Some(row) => row.id == id,
            None => true,
        }
    }

    /// A table of roles or permissions after the row with the id `id` got the
    /// name `name`; unchanged where there is no such row.
    pub open spec fn renamed(rows: Seq<Named>, id: i32, name: Seq<char>) -> Seq<Named> {
        if has_key(rows, named_id(), id) {
            rows.update(slot_of(rows, named_id(), id), Named { id, name })
        } else {
            rows
        }
    }

    /// The user name is free for the person with the id `id`.
    pub open spec fn can_update_person(self, id: i32, username: Option<Seq<char>>) -> bool {
        match username {
            Some(name) => match row_of(self.persons, person_name(), name) {
                Some(row) => row.id == id,
                None => true,
            },
            None => true,
        }
    }

    /// The catalog after the person with the id `id` got the values that are
    /// given; unchanged where there is no such person.
    pub open spec fn update_person(
        self,
        id: i32,
        username: Option<Seq<char>>,
        password_hash: Option<Seq<char>>,
        name: Option<Seq<char>>,
    ) -> CatalogState {
        match row_of(self.persons, person_id(), id) {
            Some(row) => CatalogState {
                persons: self.persons.update(
                    slot_of(self.persons, person_id(), id),
                    PersonRow {
                        username: replaced(row.username, username),
                        password_hash: replaced(row.password_hash, password_hash),
                        name: replaced(row.name, name),
                        ..row
                    },
                ),
                ..self
            },
            None => self,
        }
    }

    /// The name is free for the service with the id `id`.
    pub open spec fn can_update_service(self, id: i32, name: Option<Seq<char>>) -> bool {
        match name {
            Some(name) => match row_of(self.services, service_name(), name) {
                Some(row) => row.id == id,
                None => true,
            },
            None => true,
        }
    }

    /// The catalog after the service with the id `id` got the values that are
    /// given; unchanged where there is no such service.
    pub open spec fn update_service(
        self,
        id: i32,
        name: Option<Seq<char>>,
        description: Option<Seq<char>>,
    ) -> CatalogState {
        match row_of(self.services, service_id(), id) {
            Some(row) => CatalogState {
                services: self.services.update(
                    slot_of(self.services, service_id(), id),
                    ServiceRow {
                        name: replaced(row.name, name),
                        description: match description {
                            Some(text) => Some(text),
                            None => row.description,
                        },
                        ..row
                    },
                ),
                ..self
            },
            None => self,
        }
    }

    /// The catalog after the service with the id `id` was switched on or off;
    /// unchanged where there is no such service.
    pub open spec fn set_service_status(self, id: i32, status: bool) -> CatalogState {
        match row_of(self.services, service_id(), id) {
            Some(row) => CatalogState {
                services: self.services.update(
                    slot_of(self.services, service_id(), id),
                    ServiceRow { status, ..row },
                ),
                ..self
            },
            None => self,
        }
    }

    /// The catalog after the role with the id `id` got a new name.
    pub open spec fn rename_role(self, id: i32, name: Seq<char>) -> CatalogState {
        CatalogState { roles: Self::renamed(self.roles, id, name), ..self }
    }

    /// The catalog after the permission with the id `id` got a new name.
    pub open spec fn rename_permission(self, id: i32, name: Seq<char>) -> CatalogState {
        CatalogState { permissions: Self::renamed(self.permissions, id, name), ..self }
    }

    /// The catalog after the person with the id `id` was removed at `now`:
    /// the row stays and is marked; unchanged where there is no such person or
    /// they were removed before.
    pub open spec fn remove_person(self, id: i32, now: i64) -> CatalogState {
        match row_of(self.persons, person_id(), id) {
            Some(row) => if row.live() {
                CatalogState {
                    persons: self.persons.update(
                        slot_of(self.persons, person_id(), id),
                        PersonRow { removed_at: Some(now), ..row },
                    ),
                    ..self
                }
            } else {
                self
            },
            None => self,
        }
    }

    /// The catalog without the service and without the edges that name it.
    pub open spec fn remove_service(self, id: i32) -> CatalogState {
        CatalogState {
            services: self.services.filter(other_service(id)),
            service_roles: self.service_roles.filter(pair_outside(Some(id), None)),
            person_service_roles: self.person_service_roles.filter(
                triple_outside(None, Some(id), None),
            ),
            ..self
        }
    }

    /// The catalog without the role and without the edges that name it.
    pub open spec fn remove_role(self, id: i32) -> CatalogState {
        CatalogState {
            roles: self.roles.filter(other_named(id)),
            service_roles: self.service_roles.filter(pair_outside(None, Some(id))),
            role_permissions: self.role_permissions.filter(pair_outside(Some(id), None)),
            person_service_roles: self.person_service_roles.filter(
                triple_outside(None, None, Some(id)),
            ),
            ..self
        }
    }

    /// The catalog without the permission and without the edges that name it.
    pub open spec fn remove_permission(self, id: i32) -> CatalogState {
        CatalogState {
            permissions: self.permissions.filter(other_named(id)),
            role_permissions: self.role_permissions.filter(pair_outside(None, Some(id))),
            ..self
        }
    }

    /// The persons that have not been removed, as a listing shows them.
    pub open spec fn list_people(self) -> Seq<UserView> {
        self.persons.filter(is_live()).map_values(listed_person())
    }

    /// The person with the id `id`, unless removed.
    pub open spec fn get_person(self, id: i32) -> Option<UserView> {
        match row_of(self.persons, person_id(), id) {
            Some(row) => if row.live() {
                Some(row.listed())
            } else {
                None
            },
            None => None,
        }
    }

    /// The services, as a listing shows them.
    pub open spec fn list_services(self) -> Seq<ServiceView> {
        self.services.map_values(listed_service())
    }

    /// The service with the id `id`.
    pub open spec fn get_service(self, id: i32) -> Option<ServiceView> {
        match row_of(self.services, service_id(), id) {
            Some(row) => Some(row.listed()),
            None => None,
        }
    }

    /// The permissions that the role confers.
    pub open spec fn permissions_of_role(self, role_id: i32) -> Seq<Named> {
        self.permissions.filter(paired_with(self.role_permissions, role_id))
    }

    /// The roles that are visible in the service.
    pub open spec fn roles_of_service(self, service_id: i32) -> Seq<Named> {
        self.roles.filter(paired_with(self.service_roles, service_id))
    }

    /// The roles that the person has in the service.
    pub open spec fn roles_of_person(self, person_id: i32, service_id: i32) -> Seq<Named> {
        self.roles.filter(tripled_with(self.person_service_roles, person_id, service_id))
    }

    /// The persons, not removed, that have the role in the service.
    pub open spec fn persons_with_role(self, service_id: i32, role_id: i32) -> Seq<UserView> {
        self.persons.filter(
            holds_role(self.person_service_roles, service_id, role_id),
        ).map_values(listed_person())
    }

    /// The services in which the person has some role.
    pub open spec fn services_of_person(self, person_id: i32) -> Seq<ServiceView> {
        self.services.filter(serves(self.person_service_roles, person_id)).map_values(
            listed_service(),
        )
    }
}

/// The catalog, held in memory.
pub struct Catalog {
    persons: Vec<PersonRecord>,
    services: Vec<ServiceRecord>,
    roles: Vec<NameRow>,
    permissions: Vec<NameRow>,
    service_roles: Vec<(i32, i32)>,
    role_permissions: Vec<(i32, i32)>,
    person_service_roles: Vec<(i32, i32, i32)>,
    next_person: i32,
    next_service: i32,
    next_role: i32,
    next_permission: i32,
}

impl View for Catalog {
    type V = CatalogState;

    closed spec fn view(&self) -> CatalogState {
        CatalogState {
            persons: self.persons.deep_view(),
            services: self.services.deep_view(),
            roles: self.roles.deep_view(),
            permissions: self.permissions.deep_view(),
            service_roles: self.service_roles@,
            role_permissions: self.role_permissions@,
            person_service_roles: self.person_service_roles@,
            next_person: self.next_person,
            next_service: self.next_service,
            next_role: self.next_role,
            next_permission: self.next_permission,
        }
    }
}

impl Catalog {
    /// A catalog with nothing in it.
    pub fn new() -> (catalog: Catalog)
        ensures
            catalog@ == CatalogState::empty(),
            catalog@.wf(),
    {
        let catalog = Catalog {
            persons: Vec::new(),
            services: Vec::new(),
            roles: Vec::new(),
            permissions: Vec::new(),
            service_roles: Vec::new(),
            role_permissions: Vec::new(),
            person_service_roles: Vec::new(),
            next_person: 1,
            next_service: 1,
            next_role: 1,
            next_permission: 1,
        };
        assert(catalog.persons.deep_view() =~= Seq::empty());
        assert(catalog.services.deep_view() =~= Seq::empty());
        assert(catalog.roles.deep_view() =~= Seq::empty());
        assert(catalog.permissions.deep_view() =~= Seq::empty());
        catalog
    }

    fn person_slot_by_name(&self, username: &String) -> (r: Option<usize>)
        requires
            self@.wf(),
        ensures
            match r {
                Some(i) => i < self.persons.len() && self@.persons[i as int].username
                    == username@ && row_of(self@.persons, person_name(), username@) == Some(
                    self@.persons[i as int],
                ),
                None => !has_key(self@.persons, person_name(), username@),
            },
    {
        let mut i: usize = 0;
        while i < self.persons.len()
            invariant
                self@.wf(),
                i <= self.persons.len(),
                forall|j: int| 0 <= j < i ==> (#[trigger] self@.persons[j]).username != username@,
            decreases self.persons.len() - i,
        {
            assert(self@.persons[i as int] == self.persons[i as int]@);
            if self.persons[i].username == *username {
                proof {
                    lemma_row_found(self@.persons, person_name(), i as int);
                }
                return Some(i);
            }
            i = i + 1;
        }
        None
    }

    fn person_slot(&self, id: i32) -> (r: Option<usize>)
        requires
            self@.wf(),
        ensures
            match r {
                Some(i) => i < self.persons.len() && self@.persons[i as int].id == id && row_of(
                    self@.persons,
                    person_id(),
                    id,
                ) == Some(self@.persons[i as int]),
                None => !has_key(self@.persons, person_id(), id),
            },
    {
        let mut i: usize = 0;
        while i < self.persons.len()
            invariant
                self@.wf(),
                i <= self.persons.len(),
                forall|j: int| 0 <= j < i ==> (#[trigger] self@.persons[j]).id != id,
            decreases self.persons.len() - i,
        {
            assert(self@.persons[i as int] == self.persons[i as int]@);
            if self.persons[i].id == id {
                proof {
                    lemma_row_found(self@.persons, person_id(), i as int);
                }
                return Some(i);
            }
            i = i + 1;
        }
        None
    }

    fn service_slot_by_name(&self, name: &String) -> (r: Option<usize>)
        requires
            self@.wf(),
        ensures
            match r {
                Some(i) => i < self.services.len() && self@.services[i as int].name == name@
                    && row_of(self@.services, service_name(), name@) == Some(
                    self@.services[i as int],
                ),
                None => !has_key(self@.services, service_name(), name@),
            },
    {
        let mut i: usize = 0;
        while i < self.services.len()
            invariant
                self@.wf(),
                i <= self.services.len(),
                forall|j: int| 0 <= j < i ==> (#[trigger] self@.services[j]).name != name@,
            decreases self.services.len() - i,
        {
            assert(self@.services[i as int] == self.services[i as int]@);
            if self.services[i].name == *name {
                proof {
                    lemma_row_found(self@.services, service_name(), i as int);
                }
                return Some(i);
            }
            i = i + 1;
        }
        None
    }

    fn service_slot(&self, id: i32) -> (r: Option<usize>)
        requires
            self@.wf(),
        ensures
            match r {
                Some(i) => i < self.services.len() && self@.services[i as int].id == id
                    && row_of(self@.services, service_id(), id) == Some(self@.services[i as int]),
                None => !has_key(self@.services, service_id(), id),
            },
    {
        let mut i: usize = 0;
        while i < self.services.len()
            invariant
                self@.wf(),
                i <= self.services.len(),
                forall|j: int| 0 <= j < i ==> (#[trigger] self@.services[j]).id != id,
            decreases self.services.len() - i,
        {
            assert(self@.services[i as int] == self.services[i as int]@);
            if self.services[i].id == id {
                proof {
                    lemma_row_found(self@.services, service_id(), i as int);
                }
                return Some(i);
            }
            i = i + 1;
        }
        None
    }

    /// Tells whether an edge is in the catalog.
    pub fn has_edge(&self, edge: Edge) -> (r: bool)
        ensures
            r == self@.has_edge(edge),
    {
        match edge {
            Edge::ServiceRole { service_id, role_id } => holds_pair(
                &self.service_roles,
                service_id,
                role_id,
            ),
            Edge::RolePermission { role_id, permission_id } => holds_pair(
                &self.role_permissions,
                role_id,
                permission_id,
            ),
            Edge::PersonServiceRole { person_id, service_id, role_id } => holds_triple(
                &self.person_service_roles,
                person_id,
                service_id,
                role_id,
            ),
        }
    }

    /// What the login reads for a user name.
    pub fn find_auth_user(&self, username: &str) -> (r: Option<AuthUser>)
        requires
            self@.wf(),
        ensures
            r.deep_view() == self@.find_auth_user(username@),
    {
        let key = username.to_owned();
        match self.person_slot_by_name(&key) {
            Some(i) => {
                assert(self@.persons[i as int] == self.persons[i as int]@);
                if self.persons[i].removed_at.is_none() {
                    Some(self.persons[i].for_login())
                } else {
                    None
                }
            },
            None => None,
        }
    }

    /// What the issue of a service token reads for a service.
    pub fn find_service(&self, id: i32) -> (r: Option<ServiceTokenData>)
        requires
            self@.wf(),
        ensures
            r.deep_view() == self@.find_service(id),
    {
        match self.service_slot(id) {
            Some(i) => {
                assert(self@.services[i as int] == self.services[i as int]@);
                Some(self.services[i].for_token())
            },
            None => None,
        }
    }

    /// The id of the entity with a name; of persons only those not removed.
    pub fn find_id(&self, entity: Entity, name: &str) -> (r: Option<i32>)
        requires
            self@.wf(),
        ensures
            r == self@.find_id(entity, name@),
    {
        let key = name.to_owned();
        match entity {
            Entity::Person => match self.person_slot_by_name(&key) {
                Some(i) => {
                    assert(self@.persons[i as int] == self.persons[i as int]@);
                    if self.persons[i].removed_at.is_none() {
                        Some(self.persons[i].id)
                    } else {
                        None
                    }
                },
                None => None,
            },
            Entity::Service => match self.service_slot_by_name(&key) {
                Some(i) => {
                    assert(self@.services[i as int] == self.services[i as int]@);
                    Some(self.services[i].id)
                },
                None => None,
            },
            Entity::Role => match named_slot_by_name(&self.roles, &key) {
                Some(i) => {
                    assert(self@.roles[i as int] == self.roles[i as int]@);
                    Some(self.roles[i].id)
                },
                None => None,
            },
            Entity::Permission => match named_slot_by_name(&self.permissions, &key) {
                Some(i) => {
                    assert(self@.permissions[i as int] == self.permissions[i as int]@);
                    Some(self.permissions[i].id)
                },
                None => None,
            },
        }
    }
    /// Puts an edge into the catalog; one that is there already stays as it is.
    pub fn link(&mut self, edge: Edge)
        requires
            old(self)@.wf(),
        ensures
            final(self)@.wf(),
            final(self)@ == old(self)@.link(edge),
    {
        if self.has_edge(edge) {
            return ;
        }
        match edge {
            Edge::ServiceRole { service_id, role_id } => {
                proof {
                    lemma_push_distinct(self@.service_roles, pair_key(), (service_id, role_id));
                }
                self.service_roles.push((service_id, role_id));
            },
            Edge::RolePermission { role_id, permission_id } => {
                proof {
                    lemma_push_distinct(
                        self@.role_permissions,
                        pair_key(),
                        (role_id, permission_id),
                    );
                }
                self.role_permissions.push((role_id, permission_id));
            },
            Edge::PersonServiceRole { person_id, service_id, role_id } => {
                proof {
                    lemma_push_distinct(
                        self@.person_service_roles,
                        triple_key(),
                        (person_id, service_id, role_id),
                    );
                }
                self.person_service_roles.push((person_id, service_id, role_id));
            },
        }
    }

    /// Takes an edge out of the catalog.
    pub fn unlink(&mut self, edge: Edge)
        requires
            old(self)@.wf(),
        ensures
            final(self)@.wf(),
            final(self)@ == old(self)@.unlink(edge),
    {
        match edge {
            Edge::ServiceRole { service_id, role_id } => {
                proof {
                    lemma_filter_distinct(
                        self@.service_roles,
                        pair_key(),
                        pair_outside(Some(service_id), Some(role_id)),
                    );
                }
                self.service_roles = drop_pairs(
                    &self.service_roles,
                    Some(service_id),
                    Some(role_id),
                );
            },
            Edge::RolePermission { role_id, permission_id } => {
                proof {
                    lemma_filter_distinct(
                        self@.role_permissions,
                        pair_key(),
                        pair_outside(Some(role_id), Some(permission_id)),
                    );
                }
                self.role_permissions = drop_pairs(
                    &self.role_permissions,
                    Some(role_id),
                    Some(permission_id),
                );
            },
            Edge::PersonServiceRole { person_id, service_id, role_id } => {
                proof {
                    lemma_filter_distinct(
                        self@.person_service_roles,
                        triple_key(),
                        triple_outside(Some(person_id), Some(service_id), Some(role_id)),
                    );
                }
                self.person_service_roles = drop_triples(
                    &self.person_service_roles,
                    Some(person_id),
                    Some(service_id),
                    Some(role_id),
                );
            },
        }
    }

    /// Creates a person under the next id. Nothing is created where the user
    /// name is taken or no id is left.
    pub fn create_person(&mut self, person: NewPerson) -> (r: Option<User>)
        requires
            old(self)@.wf(),
        ensures
            final(self)@.wf(),
            old(self)@.can_create_person(person@.username) ==> final(self)@ == old(
                self,
            )@.create_person(person@) && r.deep_view() == Some(
                person@.row(old(self)@.next_person).listed(),
            ),
            !old(self)@.can_create_person(person@.username) ==> final(self)@ == old(self)@
                && r is None,
    {
        if self.next_person == i32::MAX {
            return None;
        }
        match self.person_slot_by_name(&person.username) {
            Some(_) => None,
            None => {
                let id = self.next_person;
                let ghost before = self.persons.deep_view();
                let ghost view = person@;
                let row = PersonRecord {
                    id,
                    username: person.username,
                    password_hash: person.password_hash,
                    name: person.name,
                    person_type: person.person_type,
                    document_type: person.document_type,
                    document_number: person.document_number,
                    removed_at: None,
                };
                assert(row@ == view.row(id));
                let out = row.listed();
                proof {
                    lemma_push_distinct(before, person_name(), row@);
                    assert(!has_key(before, person_id(), id)) by {
                        if has_key(before, person_id(), id) {
                            let m = slot_of(before, person_id(), id);
                            assert(before[m].id < id);
                        }
                    }
                    lemma_push_distinct(before, person_id(), row@);
                }
                self.persons.push(row);
                assert(self.persons.deep_view() =~= before.push(view.row(id)));
                self.next_person = id + 1;
                Some(out)
            },
        }
    }

    /// Creates a service under the next id. Nothing is created where the name
    /// is taken or no id is left.
    pub fn create_service(&mut self, name: String, description: Option<String>) -> (r: Option<
        Service,
    >)
        requires
            old(self)@.wf(),
        ensures
            final(self)@.wf(),
            old(self)@.can_create_service(name@) ==> final(self)@ == old(self)@.create_service(
                name@,
                text_of(description),
            ) && r.deep_view() == Some(
                old(self)@.new_service(name@, text_of(description)).listed(),
            ),
            !old(self)@.can_create_service(name@) ==> final(self)@ == old(self)@ && r is None,
    {
        if self.next_service == i32::MAX {
            return None;
        }
        match self.service_slot_by_name(&name) {
            Some(_) => None,
            None => {
                let id = self.next_service;
                let ghost before = self.services.deep_view();
                let row = ServiceRecord { id, name, description, status: true };
                let out = row.listed();
                proof {
                    lemma_push_distinct(before, service_name(), row@);
                    assert(!has_key(before, service_id(), id)) by {
                        if has_key(before, service_id(), id) {
                            let m = slot_of(before, service_id(), id);
                            assert(before[m].id < id);
                        }
                    }
                    lemma_push_distinct(before, service_id(), row@);
                }
                let ghost added = row@;
                self.services.push(row);
                assert(self.services.deep_view() =~= before.push(added));
                self.next_service = id + 1;
                Some(out)
            },
        }
    }

    /// Creates a role under the next id. Nothing is created where the name is
    /// taken or no id is left.
    pub fn create_role(&mut self, name: String) -> (r: Option<NameRow>)
        requires
            old(self)@.wf(),
        ensures
            final(self)@.wf(),
            old(self)@.can_create_role(name@) ==> final(self)@ == old(self)@.create_role(name@)
                && r.deep_view() == Some(Named { id: old(self)@.next_role, name: name@ }),
            !old(self)@.can_create_role(name@) ==> final(self)@ == old(self)@ && r is None,
    {
        if self.next_role == i32::MAX {
            return None;
        }
        match named_slot_by_name(&self.roles, &name) {
            Some(_) => None,
            None => {
                let id = self.next_role;
                let ghost before = self.roles.deep_view();
                let row = NameRow { id, name };
                let out = row.clone();
                proof {
                    lemma_push_distinct(before, named_name(), row@);
                    assert(!has_key(before, named_id(), id)) by {
                        if has_key(before, named_id(), id) {
                            let m = slot_of(before, named_id(), id);
                            assert(before[m].id < id);
                        }
                    }
                    lemma_push_distinct(before, named_id(), row@);
                }
                let ghost added = row@;
                self.roles.push(row);
                assert(self.roles.deep_view() =~= before.push(added));
                self.next_role = id + 1;
                Some(out)
            },
        }
    }

    /// Creates a permission under the next id. Nothing is created where the
    /// name is taken or no id is left.
    pub fn create_permission(&mut self, name: String) -> (r: Option<NameRow>)
        requires
            old(self)@.wf(),
        ensures
            final(self)@.wf(),
            old(self)@.can_create_permission(name@) ==> final(self)@ == old(
                self,
            )@.create_permission(name@) && r.deep_view() == Some(
                Named { id: old(self)@.next_permission, name: name@ },
            ),
            !old(self)@.can_create_permission(name@) ==> final(self)@ == old(self)@ && r is None,
    {
        if self.next_permission == i32::MAX {
            return None;
        }
        match named_slot_by_name(&self.permissions, &name) {
            Some(_) => None,
            None => {
                let id = self.next_permission;
                let ghost before = self.permissions.deep_view();
                let row = NameRow { id, name };
                let out = row.clone();
                proof {
                    lemma_push_distinct(before, named_name(), row@);
                    assert(!has_key(before, named_id(), id)) by {
                        if has_key(before, named_id(), id) {
                            let m = slot_of(before, named_id(), id);
                            assert(before[m].id < id);
                        }
                    }
                    lemma_push_distinct(before, named_id(), row@);
                }
                let ghost added = row@;
                self.permissions.push(row);
                assert(self.permissions.deep_view() =~= before.push(added));
                self.next_permission = id + 1;
                Some(out)
            },
        }
    }

    /// Gives the person with the id `id` the values that are given. Nothing
    /// changes, and the answer is `false`, where another person has the user
    /// name.
    pub fn update_person(
        &mut self,
        id: i32,
        username: Option<String>,
        password_hash: Option<String>,
        name: Option<String>,
    ) -> (done: bool)
        requires
            old(self)@.wf(),
        ensures
            final(self)@.wf(),
            done == old(self)@.can_update_person(id, text_of(username)),
            done ==> final(self)@ == old(self)@.update_person(
                id,
                text_of(username),
                text_of(password_hash),
                text_of(name),
            ),
            !done ==> final(self)@ == old(self)@,
    {
        let ghost before = self.persons.deep_view();
        match &username {
            Some(text) => match self.person_slot_by_name(text) {
                Some(j) => {
                    if self.persons[j].id != id {
                        return false;
                    }
                },
                None => {},
            },
            None => {},
        }
        match self.person_slot(id) {
            Some(i) => {
                assert(before[i as int] == self.persons[i as int]@);
                let current = self.persons[i].clone();
                let row = PersonRecord {
                    id: current.id,
                    username: match username {
                        Some(text) => text,
                        None => current.username,
                    },
                    password_hash: match password_hash {
                        Some(text) => text,
                        None => current.password_hash,
                    },
                    name: match name {
                        Some(text) => text,
                        None => current.name,
                    },
                    person_type: current.person_type,
                    document_type: current.document_type,
                    document_number: current.document_number,
                    removed_at: current.removed_at,
                };
                proof {
                    assert forall|j: int| 0 <= j < before.len() && j != i implies person_name()(
                        #[trigger] before[j],
                    ) != person_name()(row@) by {
                        if before[j].username == row@.username {
                            lemma_row_found(before, person_name(), j);
                            assert(person_id()(before[j]) != person_id()(before[i as int]));
                        }
                    }
                    lemma_update_distinct(before, person_name(), i as int, row@);
                    assert forall|j: int| 0 <= j < before.len() && j != i implies person_id()(
                        #[trigger] before[j],
                    ) != person_id()(row@) by {
                        assert(person_id()(before[j]) != person_id()(before[i as int]));
                    }
                    lemma_update_distinct(before, person_id(), i as int, row@);
                }
                let ghost updated = row@;
                self.persons.set(i, row);
                assert(self.persons.deep_view() =~= before.update(i as int, updated));
            },
            None => {},
        }
        true
    }

    /// Gives the service with the id `id` the values that are given. Nothing
    /// changes, and the answer is `false`, where another service has the name.
    pub fn update_service(&mut self, id: i32, name: Option<String>, description: Option<String>)
        -> (done: bool)
        requires
            old(self)@.wf(),
        ensures
            final(self)@.wf(),
            done == old(self)@.can_update_service(id, text_of(name)),
            done ==> final(self)@ == old(self)@.update_service(
                id,
                text_of(name),
                text_of(description),
            ),
            !done ==> final(self)@ == old(self)@,
    {
        let ghost before = self.services.deep_view();
        match &name {
            Some(text) => match self.service_slot_by_name(text) {
                Some(j) => {
                    if self.services[j].id != id {
                        return false;
                    }
                },
                None => {},
            },
            None => {},
        }
        match self.service_slot(id) {
            Some(i) => {
                assert(before[i as int] == self.services[i as int]@);
                let current = self.services[i].clone();
                let row = ServiceRecord {
                    id: current.id,
                    name: match name {
                        Some(text) => text,
                        None => current.name,
                    },
                    description: match description {
                        Some(text) => Some(text),
                        None => current.description,
                    },
                    status: current.status,
                };
                proof {
                    assert forall|j: int| 0 <= j < before.len() && j != i implies service_name()(
                        #[trigger] before[j],
                    ) != service_name()(row@) by {
                        if before[j].name == row@.name {
                            lemma_row_found(before, service_name(), j);
                            assert(service_id()(before[j]) != service_id()(before[i as int]));
                        }
                    }
                    lemma_update_distinct(before, service_name(), i as int, row@);
                    assert forall|j: int| 0 <= j < before.len() && j != i implies service_id()(
                        #[trigger] before[j],
                    ) != service_id()(row@) by {
                        assert(service_id()(before[j]) != service_id()(before[i as int]));
                    }
                    lemma_update_distinct(before, service_id(), i as int, row@);
                }
                let ghost updated = row@;
                self.services.set(i, row);
                assert(self.services.deep_view() =~= before.update(i as int, updated));
            },
            None => {},
        }
        true
    }

    /// Switches the service with the id `id` on or off.
    pub fn set_service_status(&mut self, id: i32, status: bool)
        requires
            old(self)@.wf(),
        ensures
            final(self)@.wf(),
            final(self)@ == old(self)@.set_service_status(id, status),
    {
        let ghost before = self.services.deep_view();
        match self.service_slot(id) {
            Some(i) => {
                assert(before[i as int] == self.services[i as int]@);
                let mut row = self.services[i].clone();
                row.status = status;
                proof {
                    assert forall|j: int| 0 <= j < before.len() && j != i implies service_name()(
                        #[trigger] before[j],
                    ) != service_name()(row@) by {
                        assert(service_name()(before[j]) != service_name()(before[i as int]));
                    }
                    lemma_update_distinct(before, service_name(), i as int, row@);
                    assert forall|j: int| 0 <= j < before.len() && j != i implies service_id()(
                        #[trigger] before[j],
                    ) != service_id()(row@) by {
                        assert(service_id()(before[j]) != service_id()(before[i as int]));
                    }
                    lemma_update_distinct(before, service_id(), i as int, row@);
                }
                let ghost updated = row@;
                self.services.set(i, row);
                assert(self.services.deep_view() =~= before.update(i as int, updated));
            },
            None => {},
        }
    }

    /// Gives the role with the id `id` a new name. Nothing changes, and the
    /// answer is `false`, where another role has the name.
    pub fn rename_role(&mut self, id: i32, name: String) -> (done: bool)
        requires
            old(self)@.wf(),
        ensures
            final(self)@.wf(),
            done == CatalogState::name_free_for(old(self)@.roles, id, name@),
            done ==> final(self)@ == old(self)@.rename_role(id, name@),
            !done ==> final(self)@ == old(self)@,
    {
        rename_in(&mut self.roles, id, name)
    }

    /// Gives the permission with the id `id` a new name. Nothing changes, and
    /// the answer is `false`, where another permission has the name.
    pub fn rename_permission(&mut self, id: i32, name: String) -> (done: bool)
        requires
            old(self)@.wf(),
        ensures
            final(self)@.wf(),
            done == CatalogState::name_free_for(old(self)@.permissions, id, name@),
            done ==> final(self)@ == old(self)@.rename_permission(id, name@),
            !done ==> final(self)@ == old(self)@,
    {
        rename_in(&mut self.permissions, id, name)
    }

    /// Marks the person with the id `id` as removed at `now`.
    pub fn remove_person(&mut self, id: i32, now: i64)
        requires
            old(self)@.wf(),
        ensures
            final(self)@.wf(),
            final(self)@ == old(self)@.remove_person(id, now),
    {
        let ghost before = self.persons.deep_view();
        match self.person_slot(id) {
            Some(i) => {
                assert(before[i as int] == self.persons[i as int]@);
                if self.persons[i].removed_at.is_none() {
                    let mut row = self.persons[i].clone();
                    row.removed_at = Some(now);
                    proof {
                        assert forall|j: int|
                            0 <= j < before.len() && j != i implies person_name()(
                            #[trigger] before[j],
                        ) != person_name()(row@) by {
                            assert(person_name()(before[j]) != person_name()(before[i as int]));
                        }
                        lemma_update_distinct(before, person_name(), i as int, row@);
                        assert forall|j: int| 0 <= j < before.len() && j != i implies person_id()(
                            #[trigger] before[j],
                        ) != person_id()(row@) by {
                            assert(person_id()(before[j]) != person_id()(before[i as int]));
                        }
                        lemma_update_distinct(before, person_id(), i as int, row@);
                    }
                    let ghost updated = row@;
                    self.persons.set(i, row);
                    assert(self.persons.deep_view() =~= before.update(i as int, updated));
                }
            },
            None => {},
        }
    }

    /// Removes the service with the id `id` and the edges that name it.
    pub fn remove_service(&mut self, id: i32)
        requires
            old(self)@.wf(),
        ensures
            final(self)@.wf(),
            final(self)@ == old(self)@.remove_service(id),
    {
        let ghost before = self.services.deep_view();
        let ghost pred = other_service(id);
        let mut kept: Vec<ServiceRecord> = Vec::new();
        let mut i: usize = 0;
        proof {
            lemma_filter_none(before, pred);
            assert(kept.deep_view() =~= Seq::<ServiceRow>::empty());
        }
        while i < self.services.len()
            invariant
                i <= self.services.len(),
                before == self.services.deep_view(),
                pred == other_service(id),
                kept.deep_view() == before.take(i as int).filter(pred),
            decreases self.services.len() - i,
        {
            proof {
                lemma_filter_step(before, i as int, pred);
            }
            let ghost so_far = kept.deep_view();
            if self.services[i].id != id {
                kept.push(self.services[i].clone());
                assert(kept.deep_view() =~= so_far.push(before[i as int]));
            }
            i = i + 1;
        }
        proof {
            lemma_filter_all(before, pred);
            lemma_filter_distinct(before, service_id(), pred);
            lemma_filter_distinct(before, service_name(), pred);
            lemma_filter_members(before, pred);
            lemma_filter_distinct(self@.service_roles, pair_key(), pair_outside(Some(id), None));
            lemma_filter_distinct(
                self@.person_service_roles,
                triple_key(),
                triple_outside(None, Some(id), None),
            );
            assert forall|k: int| 0 <= k < before.filter(pred).len() implies (
            #[trigger] before.filter(pred)[k]).id < self.next_service by {
                let row = before.filter(pred)[k];
                assert(before.contains(row));
                let m = choose|m: int| 0 <= m < before.len() && before[m] == row;
                assert(before[m].id < self.next_service);
            }
        }
        self.services = kept;
        self.service_roles = drop_pairs(&self.service_roles, Some(id), None);
        self.person_service_roles = drop_triples(&self.person_service_roles, None, Some(id), None);
    }

    /// Removes the role with the id `id` and the edges that name it.
    pub fn remove_role(&mut self, id: i32)
        requires
            old(self)@.wf(),
        ensures
            final(self)@.wf(),
            final(self)@ == old(self)@.remove_role(id),
    {
        let ghost before = self.roles.deep_view();
        let ghost pred = other_named(id);
        proof {
            lemma_filter_distinct(before, named_id(), pred);
            lemma_filter_distinct(before, named_name(), pred);
            lemma_filter_members(before, pred);
            lemma_filter_distinct(self@.service_roles, pair_key(), pair_outside(None, Some(id)));
            lemma_filter_distinct(
                self@.role_permissions,
                pair_key(),
                pair_outside(Some(id), None),
            );
            lemma_filter_distinct(
                self@.person_service_roles,
                triple_key(),
                triple_outside(None, None, Some(id)),
            );
            assert forall|k: int| 0 <= k < before.filter(pred).len() implies (
            #[trigger] before.filter(pred)[k]).id < self.next_role by {
                let row = before.filter(pred)[k];
                assert(before.contains(row));
                let m = choose|m: int| 0 <= m < before.len() && before[m] == row;
                assert(before[m].id < self.next_role);
            }
        }
        self.roles = drop_named(&self.roles, id);
        self.service_roles = drop_pairs(&self.service_roles, None, Some(id));
        self.role_permissions = drop_pairs(&self.role_permissions, Some(id), None);
        self.person_service_roles = drop_triples(&self.person_service_roles, None, None, Some(id));
    }

    /// Removes the permission with the id `id` and the edges that name it.
    pub fn remove_permission(&mut self, id: i32)
        requires
            old(self)@.wf(),
        ensures
            final(self)@.wf(),
            final(self)@ == old(self)@.remove_permission(id),
    {
        let ghost before = self.permissions.deep_view();
        let ghost pred = other_named(id);
        proof {
            lemma_filter_distinct(before, named_id(), pred);
            lemma_filter_distinct(before, named_name(), pred);
            lemma_filter_members(before, pred);
            lemma_filter_distinct(
                self@.role_permissions,
                pair_key(),
                pair_outside(None, Some(id)),
            );
            assert forall|k: int| 0 <= k < before.filter(pred).len() implies (
            #[trigger] before.filter(pred)[k]).id < self.next_permission by {
                let row = before.filter(pred)[k];
                assert(before.contains(row));
                let m = choose|m: int| 0 <= m < before.len() && before[m] == row;
                assert(before[m].id < self.next_permission);
            }
        }
        self.permissions = drop_named(&self.permissions, id);
        self.role_permissions = drop_pairs(&self.role_permissions, None, Some(id));
    }

    /// The persons that have not been removed.
    pub fn list_people(&self) -> (out: Vec<User>)
        ensures
            out.deep_view() == self@.list_people(),
    {
        self.select_people(None)
    }

    /// The persons, not removed, that have the role in the service.
    pub fn persons_with_role(&self, service_id: i32, role_id: i32) -> (out: Vec<User>)
        ensures
            out.deep_view() == self@.persons_with_role(service_id, role_id),
    {
        self.select_people(Some((service_id, role_id)))
    }

    /// The persons that have not been removed: all of them, or those that have
    /// a given role in a given service.
    fn select_people(&self, having: Option<(i32, i32)>) -> (out: Vec<User>)
        ensures
            out.deep_view() == match having {
                Some(pair) => self@.persons_with_role(pair.0, pair.1),
                None => self@.list_people(),
            },
    {
        let ghost before = self.persons.deep_view();
        let ghost pred = match having {
            Some(pair) => holds_role(self@.person_service_roles, pair.0, pair.1),
            None => is_live(),
        };
        let ghost show = listed_person();
        let mut out: Vec<User> = Vec::new();
        let mut i: usize = 0;
        proof {
            lemma_select_none(before, pred, show);
            assert(out.deep_view() =~= Seq::<UserView>::empty());
        }
        while i < self.persons.len()
            invariant
                i <= self.persons.len(),
                before == self.persons.deep_view(),
                show == listed_person(),
                pred == match having {
                    Some(pair) => holds_role(self@.person_service_roles, pair.0, pair.1),
                    None => is_live(),
                },
                out.deep_view() == before.take(i as int).filter(pred).map_values(show),
            decreases self.persons.len() - i,
        {
            proof {
                lemma_select_step(before, i as int, pred, show);
            }
            assert(before[i as int] == self.persons[i as int]@);
            let ghost so_far = out.deep_view();
            let live = self.persons[i].removed_at.is_none();
            let wanted = match having {
                Some(pair) => live && holds_triple(
                    &self.person_service_roles,
                    self.persons[i].id,
                    pair.0,
                    pair.1,
                ),
                None => live,
            };
            if wanted {
                out.push(self.persons[i].listed());
                assert(out.deep_view() =~= so_far.push(show(before[i as int])));
            }
            i = i + 1;
        }
        assert(before.take(self.persons.len() as int) == before);
        out
    }

    /// The person with the id `id`, unless removed.
    pub fn get_person(&self, id: i32) -> (r: Option<User>)
        requires
            self@.wf(),
        ensures
            r.deep_view() == self@.get_person(id),
    {
        match self.person_slot(id) {
            Some(i) => {
                assert(self@.persons[i as int] == self.persons[i as int]@);
                if self.persons[i].removed_at.is_none() {
                    Some(self.persons[i].listed())
                } else {
                    None
                }
            },
            None => None,
        }
    }

    /// The services.
    pub fn list_services(&self) -> (out: Vec<Service>)
        ensures
            out.deep_view() == self@.list_services(),
    {
        let ghost before = self.services.deep_view();
        let mut out: Vec<Service> = Vec::new();
        let mut i: usize = 0;
        while i < self.services.len()
            invariant
                i <= self.services.len(),
                before == self.services.deep_view(),
                out.len() == i,
                forall|j: int| 0 <= j < i ==> (#[trigger] out@[j])@ == before[j].listed(),
            decreases self.services.len() - i,
        {
            assert(before[i as int] == self.services[i as int]@);
            out.push(self.services[i].listed());
            i = i + 1;
        }
        assert(out.deep_view() =~= before.map_values(listed_service()));
        out
    }

    /// The service with the id `id`.
    pub fn get_service(&self, id: i32) -> (r: Option<Service>)
        requires
            self@.wf(),
        ensures
            r.deep_view() == self@.get_service(id),
    {
        match self.service_slot(id) {
            Some(i) => {
                assert(self@.services[i as int] == self.services[i as int]@);
                Some(self.services[i].listed())
            },
            None => None,
        }
    }

    /// The services in which the person has some role.
    pub fn services_of_person(&self, person_id: i32) -> (out: Vec<Service>)
        ensures
            out.deep_view() == self@.services_of_person(person_id),
    {
        let ghost before = self.services.deep_view();
        let ghost pred = serves(self@.person_service_roles, person_id);
        let ghost show = listed_service();
        let mut out: Vec<Service> = Vec::new();
        let mut i: usize = 0;
        proof {
            lemma_select_none(before, pred, show);
            assert(out.deep_view() =~= Seq::<ServiceView>::empty());
        }
        while i < self.services.len()
            invariant
                i <= self.services.len(),
                before == self.services.deep_view(),
                show == listed_service(),
                pred == serves(self@.person_service_roles, person_id),
                out.deep_view() == before.take(i as int).filter(pred).map_values(show),
            decreases self.services.len() - i,
        {
            proof {
                lemma_select_step(before, i as int, pred, show);
            }
            assert(before[i as int] == self.services[i as int]@);
            let ghost so_far = out.deep_view();
            if holds_some_role(&self.person_service_roles, person_id, self.services[i].id) {
                out.push(self.services[i].listed());
                assert(out.deep_view() =~= so_far.push(show(before[i as int])));
            }
            i = i + 1;
        }
        assert(before.take(self.services.len() as int) == before);
        out
    }

    /// The roles.
    pub fn list_roles(&self) -> (out: Vec<NameRow>)
        ensures
            out.deep_view() == self@.roles,
    {
        clone_named(&self.roles)
    }

    /// The permissions.
    pub fn list_permissions(&self) -> (out: Vec<NameRow>)
        ensures
            out.deep_view() == self@.permissions,
    {
        clone_named(&self.permissions)
    }

    /// The role with the id `id`.
    pub fn get_role(&self, id: i32) -> (r: Option<NameRow>)
        requires
            self@.wf(),
        ensures
            r.deep_view() == row_of(self@.roles, named_id(), id),
    {
        match named_slot(&self.roles, id) {
            Some(i) => Some(self.roles[i].clone()),
            None => None,
        }
    }

    /// The permission with the id `id`.
    pub fn get_permission(&self, id: i32) -> (r: Option<NameRow>)
        requires
            self@.wf(),
        ensures
            r.deep_view() == row_of(self@.permissions, named_id(), id),
    {
        match named_slot(&self.permissions, id) {
            Some(i) => Some(self.permissions[i].clone()),
            None => None,
        }
    }

    /// The permissions that the role confers.
    pub fn permissions_of_role(&self, role_id: i32) -> (out: Vec<NameRow>)
        ensures
            out.deep_view() == self@.permissions_of_role(role_id),
    {
        select_paired(&self.permissions, &self.role_permissions, role_id)
    }

    /// The roles that are visible in the service.
    pub fn roles_of_service(&self, service_id: i32) -> (out: Vec<NameRow>)
        ensures
            out.deep_view() == self@.roles_of_service(service_id),
    {
        select_paired(&self.roles, &self.service_roles, service_id)
    }

    /// The roles that the person has in the service.
    pub fn roles_of_person(&self, person_id: i32, service_id: i32) -> (out: Vec<NameRow>)
        ensures
            out.deep_view() == self@.roles_of_person(person_id, service_id),
    {
        select_tripled(&self.roles, &self.person_service_roles, person_id, service_id)
    }
    /// Tells whether the role is one that the person has in the service and
    /// that is visible in the service.
    pub fn role_granted(&self, person_id: i32, service_id: i32, role_id: i32) -> (r: bool)
        ensures
            r == self@.role_granted(person_id, service_id, role_id),
    {
        self.has_edge(Edge::PersonServiceRole { person_id, service_id, role_id })
            && self.has_edge(Edge::ServiceRole { service_id, role_id })
    }

    /// Tells whether some role of the person in the service confers the permission.
    pub fn confers(&self, person_id: i32, service_id: i32, permission_id: i32) -> (r: bool)
        ensures
            r == self@.confers(person_id, service_id, permission_id),
    {
        let ghost roles = self.roles.deep_view();
        let mut i: usize = 0;
        while i < self.roles.len()
            invariant
                i <= self.roles.len(),
                roles == self.roles.deep_view(),
                forall|k: int|
                    0 <= k < i ==> !(self@.role_granted(
                        person_id,
                        service_id,
                        (#[trigger] roles[k]).id,
                    ) && self@.has_edge(
                        Edge::RolePermission { role_id: roles[k].id, permission_id },
                    )),
            decreases self.roles.len() - i,
        {
            assert(roles[i as int] == self.roles[i as int]@);
            let role_id = self.roles[i].id;
            if self.role_granted(person_id, service_id, role_id) && self.has_edge(
                Edge::RolePermission { role_id, permission_id },
            ) {
                return true;
            }
            i = i + 1;
        }
        false
    }

    /// The names of the roles that the person has in the service.
    pub fn granted_roles(&self, person_id: i32, service_id: i32) -> (out: Vec<String>)
        ensures
            out.deep_view() == self@.granted_role_names(person_id, service_id),
    {
        let ghost rows = self.roles.deep_view();
        let ghost pred = self@.role_is_granted(person_id, service_id);
        let ghost show = name_of();
        let mut out: Vec<String> = Vec::new();
        let mut i: usize = 0;
        proof {
            lemma_select_none(rows, pred, show);
            assert(out.deep_view() =~= Seq::<Seq<char>>::empty());
        }
        while i < self.roles.len()
            invariant
                i <= self.roles.len(),
                rows == self.roles.deep_view(),
                pred == self@.role_is_granted(person_id, service_id),
                show == name_of(),
                out.deep_view() == rows.take(i as int).filter(pred).map_values(show),
            decreases self.roles.len() - i,
        {
            proof {
                lemma_select_step(rows, i as int, pred, show);
            }
            assert(rows[i as int] == self.roles[i as int]@);
            let ghost before = out.deep_view();
            if self.role_granted(person_id, service_id, self.roles[i].id) {
                out.push(self.roles[i].name.clone());
                assert(out.deep_view() =~= before.push(show(rows[i as int])));
            }
            i = i + 1;
        }
        assert(rows.take(self.roles.len() as int) == rows);
        out
    }

    /// The names of the permissions that the person holds in the service.
    pub fn granted_permissions(&self, person_id: i32, service_id: i32) -> (out: Vec<String>)
        ensures
            out.deep_view() == self@.granted_permission_names(person_id, service_id),
    {
        let ghost rows = self.permissions.deep_view();
        let ghost pred = self@.permission_is_conferred(person_id, service_id);
        let ghost show = name_of();
        let mut out: Vec<String> = Vec::new();
        let mut i: usize = 0;
        proof {
            lemma_select_none(rows, pred, show);
            assert(out.deep_view() =~= Seq::<Seq<char>>::empty());
        }
        while i < self.permissions.len()
            invariant
                i <= self.permissions.len(),
                rows == self.permissions.deep_view(),
                pred == self@.permission_is_conferred(person_id, service_id),
                show == name_of(),
                out.deep_view() == rows.take(i as int).filter(pred).map_values(show),
            decreases self.permissions.len() - i,
        {
            proof {
                lemma_select_step(rows, i as int, pred, show);
            }
            assert(rows[i as int] == self.permissions[i as int]@);
            let ghost before = out.deep_view();
            if self.confers(person_id, service_id, self.permissions[i].id) {
                out.push(self.permissions[i].name.clone());
                assert(out.deep_view() =~= before.push(show(rows[i as int])));
            }
            i = i + 1;
        }
        assert(rows.take(self.permissions.len() as int) == rows);
        out
    }

    /// Tells whether the person holds in the service the permission of the
    /// given name.
    pub fn holds_permission(&self, person_id: i32, service_id: i32, permission: &str) -> (r: bool)
        requires
            self@.wf(),
        ensures
            r == self@.grants_permission(person_id, service_id, permission@),
    {
        let key = permission.to_owned();
        match named_slot_by_name(&self.permissions, &key) {
            Some(i) => {
                let r = self.confers(person_id, service_id, self.permissions[i].id);
                proof {
                    let rows = self@.permissions;
                    assert(rows[i as int] == self.permissions[i as int]@);
                    if self@.grants_permission(person_id, service_id, permission@) {
                        let j = choose|j: int|
                            0 <= j < rows.len() && (#[trigger] rows[j]).name == permission@
                                && self@.confers(person_id, service_id, rows[j].id);
                        lemma_row_found(rows, named_name(), j);
                        lemma_row_found(rows, named_name(), i as int);
                    }
                }
                r
            },
            None => {
                proof {
                    let rows = self@.permissions;
                    if self@.grants_permission(person_id, service_id, permission@) {
                        let j = choose|j: int|
                            0 <= j < rows.len() && (#[trigger] rows[j]).name == permission@
                                && self@.confers(person_id, service_id, rows[j].id);
                        assert(named_name()(rows[j]) == permission@);
                    }
                }
                false
            },
        }
    }
}

/// A copy of a table of roles or permissions.
pub fn clone_named(rows: &Vec<NameRow>) -> (out: Vec<NameRow>)
    ensures
        out.deep_view() == rows.deep_view(),
{
    let mut out: Vec<NameRow> = Vec::new();
    let mut i: usize = 0;
    while i < rows.len()
        invariant
            i <= rows.len(),
            out.len() == i,
            forall|j: int| 0 <= j < i ==> out@[j]@ == rows@[j]@,
        decreases rows.len() - i,
    {
        out.push(rows[i].clone());
        i = i + 1;
    }
    assert(out.deep_view() =~= rows.deep_view());
    out
}

/// Where the row with a name stands in a table of roles or permissions.
pub fn named_slot_by_name(rows: &Vec<NameRow>, name: &String) -> (r: Option<usize>)
    requires
        distinct_by(rows.deep_view(), named_name()),
    ensures
        match r {
            Some(i) => i < rows.len() && rows.deep_view()[i as int].name == name@ && row_of(
                rows.deep_view(),
                named_name(),
                name@,
            ) == Some(rows.deep_view()[i as int]),
            None => !has_key(rows.deep_view(), named_name(), name@),
        },
{
    let mut i: usize = 0;
    while i < rows.len()
        invariant
            distinct_by(rows.deep_view(), named_name()),
            i <= rows.len(),
            forall|j: int| 0 <= j < i ==> (#[trigger] rows.deep_view()[j]).name != name@,
        decreases rows.len() - i,
    {
        assert(rows.deep_view()[i as int] == rows[i as int]@);
        if rows[i].name == *name {
            proof {
                lemma_row_found(rows.deep_view(), named_name(), i as int);
            }
            return Some(i);
        }
        i = i + 1;
    }
    None
}

/// Where the row with an id stands in a table of roles or permissions.
pub fn named_slot(rows: &Vec<NameRow>, id: i32) -> (r: Option<usize>)
    requires
        distinct_by(rows.deep_view(), named_id()),
    ensures
        match r {
            Some(i) => i < rows.len() && rows.deep_view()[i as int].id == id && row_of(
                rows.deep_view(),
                named_id(),
                id,
            ) == Some(rows.deep_view()[i as int]),
            None => !has_key(rows.deep_view(), named_id(), id),
        },
{
    let mut i: usize = 0;
    while i < rows.len()
        invariant
            distinct_by(rows.deep_view(), named_id()),
            i <= rows.len(),
            forall|j: int| 0 <= j < i ==> (#[trigger] rows.deep_view()[j]).id != id,
        decreases rows.len() - i,
    {
        assert(rows.deep_view()[i as int] == rows[i as int]@);
        if rows[i].id == id {
            proof {
                lemma_row_found(rows.deep_view(), named_id(), i as int);
            }
            return Some(i);
        }
        i = i + 1;
    }
    None

}

/// The pairs without those that have the given components.
pub fn drop_pairs(edges: &Vec<(i32, i32)>, first: Option<i32>, second: Option<i32>) -> (out: Vec<
    (i32, i32),
>)
    ensures
        out@ == edges@.filter(pair_outside(first, second)),
{
    let ghost pred = pair_outside(first, second);
    let mut out: Vec<(i32, i32)> = Vec::new();
    let mut i: usize = 0;
    proof {
        lemma_filter_none(edges@, pred);
    }
    while i < edges.len()
        invariant
            i <= edges.len(),
            pred == pair_outside(first, second),
            out@ == edges@.take(i as int).filter(pred),
        decreases edges.len() - i,
    {
        proof {
            lemma_filter_step(edges@, i as int, pred);
        }
        let edge = edges[i];
        let first_hit = match first {
            Some(a) => a == edge.0,
            None => true,
        };
        let second_hit = match second {
            Some(b) => b == edge.1,
            None => true,
        };
        if !(first_hit && second_hit) {
            out.push(edge);
        }
        i = i + 1;
    }
    proof {
        lemma_filter_all(edges@, pred);
    }
    out
}

/// The triples without those that have the given components.
pub fn drop_triples(
    edges: &Vec<(i32, i32, i32)>,
    first: Option<i32>,
    second: Option<i32>,
    third: Option<i32>,
) -> (out: Vec<(i32, i32, i32)>)
    ensures
        out@ == edges@.filter(triple_outside(first, second, third)),
{
    let ghost pred = triple_outside(first, second, third);
    let mut out: Vec<(i32, i32, i32)> = Vec::new();
    let mut i: usize = 0;
    proof {
        lemma_filter_none(edges@, pred);
    }
    while i < edges.len()
        invariant
            i <= edges.len(),
            pred == triple_outside(first, second, third),
            out@ == edges@.take(i as int).filter(pred),
        decreases edges.len() - i,
    {
        proof {
            lemma_filter_step(edges@, i as int, pred);
        }
        let edge = edges[i];
        let first_hit = match first {
            Some(a) => a == edge.0,
            None => true,
        };
        let second_hit = match second {
            Some(b) => b == edge.1,
            None => true,
        };
        let third_hit = match third {
            Some(c) => c == edge.2,
            None => true,
        };
        if !(first_hit && second_hit && third_hit) {
            out.push(edge);
        }
        i = i + 1;
    }
    proof {
        lemma_filter_all(edges@, pred);
    }
    out
}

/// Tells whether the person has some role in the service.
pub fn holds_some_role(edges: &Vec<(i32, i32, i32)>, person_id: i32, service_id: i32) -> (r: bool)
    ensures
        r == has_role_in(edges@, person_id, service_id),
{
    let mut i: usize = 0;
    while i < edges.len()
        invariant
            i <= edges.len(),
            forall|j: int|
                0 <= j < i ==> !((#[trigger] edges@[j]).0 == person_id && edges@[j].1
                    == service_id),
        decreases edges.len() - i,
    {
        if edges[i].0 == person_id && edges[i].1 == service_id {
            return true;
        }
        i = i + 1;
    }
    false
}

/// The rows of a table of roles or permissions other than the one with the id `id`.
pub fn drop_named(rows: &Vec<NameRow>, id: i32) -> (out: Vec<NameRow>)
    ensures
        out.deep_view() == rows.deep_view().filter(other_named(id)),
{
    let ghost pred = other_named(id);
    let ghost before = rows.deep_view();
    let mut out: Vec<NameRow> = Vec::new();
    let mut i: usize = 0;
    proof {
        lemma_filter_none(before, pred);
        assert(out.deep_view() =~= Seq::<Named>::empty());
    }
    while i < rows.len()
        invariant
            i <= rows.len(),
            before == rows.deep_view(),
            pred == other_named(id),
            out.deep_view() == before.take(i as int).filter(pred),
        decreases rows.len() - i,
    {
        proof {
            lemma_filter_step(before, i as int, pred);
        }
        let ghost kept = out.deep_view();
        if rows[i].id != id {
            out.push(rows[i].clone());
            assert(out.deep_view() =~= kept.push(before[i as int]));
        }
        i = i + 1;
    }
    proof {
        lemma_filter_all(before, pred);
    }
    out
}

/// The rows of a table of roles or permissions that stand second in a pair
/// after `first`.
pub fn select_paired(rows: &Vec<NameRow>, pairs: &Vec<(i32, i32)>, first: i32) -> (out: Vec<
    NameRow,
>)
    ensures
        out.deep_view() == rows.deep_view().filter(paired_with(pairs@, first)),
{
    let ghost pred = paired_with(pairs@, first);
    let ghost before = rows.deep_view();
    let mut out: Vec<NameRow> = Vec::new();
    let mut i: usize = 0;
    proof {
        lemma_filter_none(before, pred);
        assert(out.deep_view() =~= Seq::<Named>::empty());
    }
    while i < rows.len()
        invariant
            i <= rows.len(),
            before == rows.deep_view(),
            pred == paired_with(pairs@, first),
            out.deep_view() == before.take(i as int).filter(pred),
        decreases rows.len() - i,
    {
        proof {
            lemma_filter_step(before, i as int, pred);
        }
        let ghost kept = out.deep_view();
        if holds_pair(pairs, first, rows[i].id) {
            out.push(rows[i].clone());
            assert(out.deep_view() =~= kept.push(before[i as int]));
        }
        i = i + 1;
    }
    proof {
        lemma_filter_all(before, pred);
    }
    out
}

/// The rows of a table of roles that stand third in a triple after `first`
/// and `second`.
pub fn select_tripled(
    rows: &Vec<NameRow>,
    triples: &Vec<(i32, i32, i32)>,
    first: i32,
    second: i32,
) -> (out: Vec<NameRow>)
    ensures
        out.deep_view() == rows.deep_view().filter(tripled_with(triples@, first, second)),
{
    let ghost pred = tripled_with(triples@, first, second);
    let ghost before = rows.deep_view();
    let mut out: Vec<NameRow> = Vec::new();
    let mut i: usize = 0;
    proof {
        lemma_filter_none(before, pred);
        assert(out.deep_view() =~= Seq::<Named>::empty());
    }
    while i < rows.len()
        invariant
            i <= rows.len(),
            before == rows.deep_view(),
            pred == tripled_with(triples@, first, second),
            out.deep_view() == before.take(i as int).filter(pred),
        decreases rows.len() - i,
    {
        proof {
            lemma_filter_step(before, i as int, pred);
        }
        let ghost kept = out.deep_view();
        if holds_triple(triples, first, second, rows[i].id) {
            out.push(rows[i].clone());
            assert(out.deep_view() =~= kept.push(before[i as int]));
        }
        i = i + 1;
    }
    proof {
        lemma_filter_all(before, pred);
    }
    out
}

/// Gives the row with the id `id` the name `name`, unless another row has
/// that name; tells whether the name was free. Where no row has the id nothing
/// changes.
pub fn rename_in(rows: &mut Vec<NameRow>, id: i32, name: String) -> (free: bool)
    requires
        distinct_by(old(rows).deep_view(), named_id()),
        distinct_by(old(rows).deep_view(), named_name()),
    ensures
        free == CatalogState::name_free_for(old(rows).deep_view(), id, name@),
        free ==> final(rows).deep_view() == CatalogState::renamed(
            old(rows).deep_view(),
            id,
            name@,
        ),
        !free ==> final(rows).deep_view() == old(rows).deep_view(),
        distinct_by(final(rows).deep_view(), named_id()),
        distinct_by(final(rows).deep_view(), named_name()),
        final(rows).len() == old(rows).len(),
        forall|i: int|
            0 <= i < final(rows).len() ==> (#[trigger] final(rows).deep_view()[i]).id == old(
                rows,
            ).deep_view()[i].id,
{
    let ghost before = rows.deep_view();
    match named_slot_by_name(rows, &name) {
        Some(j) => {
            if rows[j].id != id {
                return false;
            }
        },
        None => {},
    }
    match named_slot(rows, id) {
        Some(i) => {
            let row = NameRow { id, name };
            proof {
                assert forall|j: int| 0 <= j < before.len() && j != i implies named_name()(
                    #[trigger] before[j],
                ) != named_name()(row@) by {
                    if before[j].name == row@.name {
                        lemma_row_found(before, named_name(), j);
                        assert(before[j].id == id);
                        assert(named_id()(before[j]) != named_id()(before[i as int]));
                    }
                }
                lemma_update_distinct(before, named_name(), i as int, row@);
                assert forall|j: int| 0 <= j < before.len() && j != i implies named_id()(
                    #[trigger] before[j],
                ) != named_id()(row@) by {
                    assert(named_id()(before[j]) != named_id()(before[i as int]));
                }
                lemma_update_distinct(before, named_id(), i as int, row@);
            }
            rows.set(i, row);
            assert(rows.deep_view() =~= before.update(i as int, row@));
        },
        None => {},
    }
    true
}

/// Tells whether a list of pairs holds the pair `(a, b)`.
pub fn holds_pair(edges: &Vec<(i32, i32)>, a: i32, b: i32) -> (r: bool)
    ensures
        r == has_key(edges@, pair_key(), (a, b)),
{
    let mut i: usize = 0;
    while i < edges.len()
        invariant
            i <= edges.len(),
            forall|j: int| 0 <= j < i ==> #[trigger] edges@[j] != (a, b),
        decreases edges.len() - i,
    {
        if edges[i].0 == a && edges[i].1 == b {
            assert(pair_key()(edges@[i as int]) == (a, b));
            return true;
        }
        i = i + 1;
    }
    false
}

/// Tells whether a list of triples holds the triple `(a, b, c)`.
pub fn holds_triple(edges: &Vec<(i32, i32, i32)>, a: i32, b: i32, c: i32) -> (r: bool)
    ensures
        r == has_key(edges@, triple_key(), (a, b, c)),
{
    let mut i: usize = 0;
    while i < edges.len()
        invariant
            i <= edges.len(),
            forall|j: int| 0 <= j < i ==> #[trigger] edges@[j] != (a, b, c),
        decreases edges.len() - i,
    {
        if edges[i].0 == a && edges[i].1 == b && edges[i].2 == c {
            assert(triple_key()(edges@[i as int]) == (a, b, c));
            return true;
        }
        i = i + 1;
    }
    false
}

} // verus!
