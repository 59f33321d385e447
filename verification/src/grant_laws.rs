//! What holds of the direct grant of a permission.

use crate::catalog::{named_id, named_name, pair_key, triple_key, CatalogState};
use crate::entities::{Edge, Entity, Named};
use crate::access_laws::lemma_edge_change_is_local;
use crate::exchange::{direct_role_name, Exchange, ExchangeState, OutcomeView, StageView};
use crate::http::{BodyView, ResponseView};
use crate::protocol::{
    lemma_run_done, lemma_run_more, lemma_run_step, run, AccessScope, AnswerView, CallView,
    StepView,
};
use crate::resolve::ResolveState;
use crate::store::DbState;
use crate::table::{has_key, lemma_push_distinct, lemma_push_rows, slot_of};
use vstd::prelude::*;

verus! {

impl CatalogState {
    /// The id of the role that carries the direct grants of a person in a
    /// service: that of the role of this name, or the id that the role gets
    /// when it is created.
    pub open spec fn direct_role_id(self, person_id: i32, service_id: i32) -> i32 {
        match self.find_id(Entity::Role, direct_role_name(person_id, service_id)) {
            Some(id) => id,
            None => self.next_role,
        }
    }

    /// The catalog with the role that carries the direct grants of a person in
    /// a service: as it is where the role is there, else with the role created.
    pub open spec fn with_direct_role(self, person_id: i32, service_id: i32) -> CatalogState {
        if self.find_id(Entity::Role, direct_role_name(person_id, service_id)) is Some {
            self
        } else {
            self.create_role(direct_role_name(person_id, service_id))
        }
    }

    /// The catalog after a permission was granted to a person in a service
    /// directly: the person's own role is there, it is visible in the service,
    /// it confers the permission, and the person has it in the service.
    pub open spec fn grant_direct(self, person_id: i32, service_id: i32, permission_id: i32)
        -> CatalogState {
        let role_id = self.direct_role_id(person_id, service_id);
        self.with_direct_role(person_id, service_id).link(
            Edge::ServiceRole { service_id, role_id },
        ).link(Edge::RolePermission { role_id, permission_id }).link(
            Edge::PersonServiceRole { person_id, service_id, role_id },
        )
    }
}

/// A role that is created keeps the catalog in order and is found under its name.
pub proof fn lemma_create_role(catalog: CatalogState, name: Seq<char>)
    requires
        catalog.wf(),
        catalog.can_create_role(name),
    ensures
        catalog.create_role(name).wf(),
        catalog.create_role(name).find_id(Entity::Role, name) == Some(catalog.next_role),
{
    let row = Named { id: catalog.next_role, name };
    lemma_push_rows(catalog.roles, named_name(), row, name);
    assert(!has_key(catalog.roles, named_id(), row.id)) by {
        if has_key(catalog.roles, named_id(), row.id) {
            let m = slot_of(catalog.roles, named_id(), row.id);
            assert(catalog.roles[m].id < catalog.next_role);
        }
    }
    lemma_push_distinct(catalog.roles, named_id(), row);
    let after = catalog.create_role(name);
    assert forall|i: int| 0 <= i < after.roles.len() implies (#[trigger] after.roles[i]).id
        < after.next_role by {
        if i < catalog.roles.len() {
            assert(after.roles[i] == catalog.roles[i]);
        }
    }
}

/// An edge that is put in keeps the catalog in order and is there afterwards;
/// the entities and the other edges stay as they are.
pub proof fn lemma_link(catalog: CatalogState, edge: Edge)
    requires
        catalog.wf(),
    ensures
        catalog.link(edge).wf(),
        catalog.link(edge).has_edge(edge),
        forall|other: Edge| catalog.has_edge(other) ==> #[trigger] catalog.link(edge).has_edge(
            other,
        ),
        catalog.link(edge).roles == catalog.roles,
        catalog.link(edge).permissions == catalog.permissions,
        catalog.link(edge).next_role == catalog.next_role,
        catalog.has_edge(edge) ==> catalog.link(edge) == catalog,
{
    let after = catalog.link(edge);
    if !catalog.has_edge(edge) {
        match edge {
            Edge::ServiceRole { service_id, role_id } => {
                lemma_push_rows(
                    catalog.service_roles,
                    pair_key(),
                    (service_id, role_id),
                    (service_id, role_id),
                );
            },
            Edge::RolePermission { role_id, permission_id } => {
                lemma_push_rows(
                    catalog.role_permissions,
                    pair_key(),
                    (role_id, permission_id),
                    (role_id, permission_id),
                );
            },
            Edge::PersonServiceRole { person_id, service_id, role_id } => {
                lemma_push_rows(
                    catalog.person_service_roles,
                    triple_key(),
                    (person_id, service_id, role_id),
                    (person_id, service_id, role_id),
                );
            },
        }
    }
    assert forall|other: Edge| catalog.has_edge(other) implies #[trigger] after.has_edge(
        other,
    ) by {
        if !catalog.has_edge(edge) {
            match other {
                Edge::ServiceRole { service_id, role_id } => {
                    let m = slot_of(catalog.service_roles, pair_key(), (service_id, role_id));
                    if edge is ServiceRole {
                        assert(after.service_roles[m] == catalog.service_roles[m]);
                    }
                    assert(pair_key()(after.service_roles[m]) == (service_id, role_id));
                },
                Edge::RolePermission { role_id, permission_id } => {
                    let m = slot_of(
                        catalog.role_permissions,
                        pair_key(),
                        (role_id, permission_id),
                    );
                    if edge is RolePermission {
                        assert(after.role_permissions[m] == catalog.role_permissions[m]);
                    }
                    assert(pair_key()(after.role_permissions[m]) == (role_id, permission_id));
                },
                Edge::PersonServiceRole { person_id, service_id, role_id } => {
                    let m = slot_of(
                        catalog.person_service_roles,
                        triple_key(),
                        (person_id, service_id, role_id),
                    );
                    if edge is PersonServiceRole {
                        assert(after.person_service_roles[m] == catalog.person_service_roles[m]);
                    }
                    assert(triple_key()(after.person_service_roles[m]) == (
                        person_id,
                        service_id,
                        role_id,
                    ));
                },
            }
        }
    }
}

/// A direct grant can be repeated without effect: granted once more, the
/// catalog stays as the first grant left it. After the grant the person's own
/// role is there under its name, once, and the three edges are in place.
pub proof fn lemma_grant_is_idempotent(
    catalog: CatalogState,
    person_id: i32,
    service_id: i32,
    permission_id: i32,
)
    requires
        catalog.wf(),
        catalog.find_id(Entity::Role, direct_role_name(person_id, service_id)) is None
            ==> catalog.next_role < i32::MAX,
    ensures
        ({
            let granted = catalog.grant_direct(person_id, service_id, permission_id);
            let role_id = catalog.direct_role_id(person_id, service_id);
            &&& granted.wf()
            &&& granted.grant_direct(person_id, service_id, permission_id) == granted
            &&& granted.find_id(Entity::Role, direct_role_name(person_id, service_id)) == Some(
                role_id,
            )
            &&& granted.has_edge(Edge::ServiceRole { service_id, role_id })
            &&& granted.has_edge(Edge::RolePermission { role_id, permission_id })
            &&& granted.has_edge(Edge::PersonServiceRole { person_id, service_id, role_id })
            &&& granted.role_granted(person_id, service_id, role_id)
        }),
{
    let name = direct_role_name(person_id, service_id);
    let role_id = catalog.direct_role_id(person_id, service_id);
    let first = catalog.with_direct_role(person_id, service_id);
    if catalog.find_id(Entity::Role, name) is None {
        lemma_create_role(catalog, name);
    }
    assert(first.wf());
    assert(first.find_id(Entity::Role, name) == Some(role_id));
    let second = first.link(Edge::ServiceRole { service_id, role_id });
    lemma_link(first, Edge::ServiceRole { service_id, role_id });
    let third = second.link(Edge::RolePermission { role_id, permission_id });
    lemma_link(second, Edge::RolePermission { role_id, permission_id });
    let granted = third.link(Edge::PersonServiceRole { person_id, service_id, role_id });
    lemma_link(third, Edge::PersonServiceRole { person_id, service_id, role_id });
    assert(granted == catalog.grant_direct(person_id, service_id, permission_id));
    assert(granted.roles == first.roles);
    assert(granted.find_id(Entity::Role, name) == Some(role_id));
    assert(granted.with_direct_role(person_id, service_id) == granted);
    assert(granted.direct_role_id(person_id, service_id) == role_id);
    assert(third.has_edge(Edge::ServiceRole { service_id, role_id }));
    assert(granted.has_edge(Edge::ServiceRole { service_id, role_id }));
    assert(granted.has_edge(Edge::RolePermission { role_id, permission_id }));
    lemma_link(granted, Edge::ServiceRole { service_id, role_id });
    lemma_link(granted, Edge::RolePermission { role_id, permission_id });
    lemma_link(granted, Edge::PersonServiceRole { person_id, service_id, role_id });
}

/// The catalog after a direct grant was made a number of times.
pub open spec fn granted_times(
    catalog: CatalogState,
    person_id: i32,
    service_id: i32,
    permission_id: i32,
    times: nat,
) -> CatalogState
    decreases times,
{
    if times == 0 {
        catalog
    } else {
        granted_times(
            catalog,
            person_id,
            service_id,
            permission_id,
            (times - 1) as nat,
        ).grant_direct(person_id, service_id, permission_id)
    }
}

/// A direct grant made any number of times, once at least, leaves the catalog
/// as making it once does.
pub proof fn lemma_grant_many_times(
    catalog: CatalogState,
    person_id: i32,
    service_id: i32,
    permission_id: i32,
    times: nat,
)
    requires
        catalog.wf(),
        catalog.find_id(Entity::Role, direct_role_name(person_id, service_id)) is None
            ==> catalog.next_role < i32::MAX,
        times >= 1,
    ensures
        granted_times(catalog, person_id, service_id, permission_id, times)
            == catalog.grant_direct(person_id, service_id, permission_id),
    decreases times,
{
    lemma_grant_is_idempotent(catalog, person_id, service_id, permission_id);
    if times > 1 {
        lemma_grant_many_times(
            catalog,
            person_id,
            service_id,
            permission_id,
            (times - 1) as nat,
        );
    } else {
        assert(granted_times(catalog, person_id, service_id, permission_id, 0) == catalog);
    }
}

/// Two catalogs confer the same on a person in a service where the second
/// has the roles of the first, and perhaps more roles of the id `role_id`,
/// where the person has that role in neither, and where the two agree on what
/// the person has in the service and, for every other role, on whether it is
/// visible there and on what it confers.
proof fn lemma_confers_alike(
    before: CatalogState,
    after: CatalogState,
    person_id: i32,
    service_id: i32,
    role_id: i32,
)
    requires
        before.roles.len() <= after.roles.len(),
        forall|i: int| 0 <= i < before.roles.len() ==> #[trigger] after.roles[i] == before.roles[i],
        forall|i: int|
            before.roles.len() <= i < after.roles.len() ==> (#[trigger] after.roles[i]).id
                == role_id,
        !after.has_edge(Edge::PersonServiceRole { person_id, service_id, role_id }),
        forall|r: i32|
            #[trigger] after.has_edge(Edge::PersonServiceRole { person_id, service_id, role_id: r })
                == before.has_edge(Edge::PersonServiceRole { person_id, service_id, role_id: r }),
        forall|r: i32|
            r != role_id ==> #[trigger] after.has_edge(Edge::ServiceRole { service_id, role_id: r })
                == before.has_edge(Edge::ServiceRole { service_id, role_id: r }),
        forall|r: i32, q: i32|
            r != role_id ==> #[trigger] after.has_edge(
                Edge::RolePermission { role_id: r, permission_id: q },
            ) == before.has_edge(Edge::RolePermission { role_id: r, permission_id: q }),
    ensures
        forall|q: i32|
            #[trigger] after.confers(person_id, service_id, q) == before.confers(
                person_id,
                service_id,
                q,
            ),
{
    assert forall|q: i32|
        #[trigger] after.confers(person_id, service_id, q) == before.confers(
            person_id,
            service_id,
            q,
        ) by {
        if after.confers(person_id, service_id, q) {
            let i = choose|i: int|
                0 <= i < after.roles.len() && after.role_granted(
                    person_id,
                    service_id,
                    (#[trigger] after.roles[i]).id,
                ) && after.has_edge(
                    Edge::RolePermission { role_id: after.roles[i].id, permission_id: q },
                );
            let r = after.roles[i].id;
            assert(after.has_edge(Edge::PersonServiceRole { person_id, service_id, role_id: r }));
            assert(r != role_id);
            assert(i < before.roles.len());
            assert(before.roles[i] == after.roles[i]);
            assert(before.has_edge(Edge::PersonServiceRole { person_id, service_id, role_id: r }));
            assert(after.has_edge(Edge::ServiceRole { service_id, role_id: r }));
            assert(before.has_edge(Edge::ServiceRole { service_id, role_id: r }));
            assert(before.has_edge(Edge::RolePermission { role_id: r, permission_id: q }));
            assert(before.role_granted(person_id, service_id, before.roles[i].id));
        }
        if before.confers(person_id, service_id, q) {
            let i = choose|i: int|
                0 <= i < before.roles.len() && before.role_granted(
                    person_id,
                    service_id,
                    (#[trigger] before.roles[i]).id,
                ) && before.has_edge(
                    Edge::RolePermission { role_id: before.roles[i].id, permission_id: q },
                );
            let r = before.roles[i].id;
            assert(after.roles[i] == before.roles[i]);
            assert(after.has_edge(Edge::PersonServiceRole { person_id, service_id, role_id: r }));
            assert(r != role_id);
            assert(after.has_edge(Edge::ServiceRole { service_id, role_id: r }));
            assert(after.has_edge(Edge::RolePermission { role_id: r, permission_id: q }));
            assert(after.role_granted(person_id, service_id, after.roles[i].id));
        }
    }
}

/// A direct grant shows with its last step only. While the person's own role
/// is made, made visible in the service and given the permission, a person
/// who does not have that role in the service yet is conferred there what
/// they were before; once the role is given to them, the permission is
/// conferred. A grant that stops halfway has granted nothing.
pub proof fn lemma_grant_shows_with_the_last_edge(
    catalog: CatalogState,
    person_id: i32,
    service_id: i32,
    permission_id: i32,
)
    requires
        catalog.wf(),
        catalog.find_id(Entity::Role, direct_role_name(person_id, service_id)) is None
            ==> catalog.next_role < i32::MAX,
        !catalog.has_edge(
            Edge::PersonServiceRole {
                person_id,
                service_id,
                role_id: catalog.direct_role_id(person_id, service_id),
            },
        ),
    ensures
        ({
            let role_id = catalog.direct_role_id(person_id, service_id);
            let first = catalog.with_direct_role(person_id, service_id);
            let second = first.link(Edge::ServiceRole { service_id, role_id });
            let third = second.link(Edge::RolePermission { role_id, permission_id });
            &&& forall|q: i32|
                #[trigger] first.confers(person_id, service_id, q) == catalog.confers(
                    person_id,
                    service_id,
                    q,
                )
            &&& forall|q: i32|
                #[trigger] second.confers(person_id, service_id, q) == catalog.confers(
                    person_id,
                    service_id,
                    q,
                )
            &&& forall|q: i32|
                #[trigger] third.confers(person_id, service_id, q) == catalog.confers(
                    person_id,
                    service_id,
                    q,
                )
            &&& catalog.grant_direct(person_id, service_id, permission_id) == third.link(
                Edge::PersonServiceRole { person_id, service_id, role_id },
            )
            &&& catalog.grant_direct(person_id, service_id, permission_id).confers(
                person_id,
                service_id,
                permission_id,
            )
        }),
{
    let name = direct_role_name(person_id, service_id);
    let role_id = catalog.direct_role_id(person_id, service_id);
    let first = catalog.with_direct_role(person_id, service_id);
    let visible = Edge::ServiceRole { service_id, role_id };
    let conferring = Edge::RolePermission { role_id, permission_id };
    let second = first.link(visible);
    let third = second.link(conferring);
    if catalog.find_id(Entity::Role, name) is None {
        lemma_create_role(catalog, name);
    }
    lemma_link(first, visible);
    lemma_link(second, conferring);
    assert forall|r: i32|
        #[trigger] third.has_edge(Edge::PersonServiceRole { person_id, service_id, role_id: r })
            == catalog.has_edge(
            Edge::PersonServiceRole { person_id, service_id, role_id: r },
        ) && second.has_edge(Edge::PersonServiceRole { person_id, service_id, role_id: r })
            == catalog.has_edge(Edge::PersonServiceRole { person_id, service_id, role_id: r })
            && first.has_edge(Edge::PersonServiceRole { person_id, service_id, role_id: r })
            == catalog.has_edge(Edge::PersonServiceRole { person_id, service_id, role_id: r }) by {
        let edge = Edge::PersonServiceRole { person_id, service_id, role_id: r };
        lemma_edge_change_is_local(first, visible, edge);
        lemma_edge_change_is_local(second, conferring, edge);
    }
    assert forall|r: i32| r != role_id implies #[trigger] third.has_edge(
        Edge::ServiceRole { service_id, role_id: r },
    ) == catalog.has_edge(Edge::ServiceRole { service_id, role_id: r }) && second.has_edge(
        Edge::ServiceRole { service_id, role_id: r },
    ) == catalog.has_edge(Edge::ServiceRole { service_id, role_id: r }) by {
        let edge = Edge::ServiceRole { service_id, role_id: r };
        lemma_edge_change_is_local(first, visible, edge);
        lemma_edge_change_is_local(second, conferring, edge);
    }
    assert forall|r: i32, q: i32| r != role_id implies #[trigger] third.has_edge(
        Edge::RolePermission { role_id: r, permission_id: q },
    ) == catalog.has_edge(Edge::RolePermission { role_id: r, permission_id: q })
        && second.has_edge(Edge::RolePermission { role_id: r, permission_id: q })
        == catalog.has_edge(Edge::RolePermission { role_id: r, permission_id: q }) by {
        let edge = Edge::RolePermission { role_id: r, permission_id: q };
        lemma_edge_change_is_local(first, visible, edge);
        lemma_edge_change_is_local(second, conferring, edge);
    }
    lemma_confers_alike(catalog, first, person_id, service_id, role_id);
    lemma_confers_alike(catalog, second, person_id, service_id, role_id);
    lemma_confers_alike(catalog, third, person_id, service_id, role_id);
    lemma_grant_is_idempotent(catalog, person_id, service_id, permission_id);
    let granted = catalog.grant_direct(person_id, service_id, permission_id);
    assert(has_key(granted.roles, named_name(), name));
    let i = slot_of(granted.roles, named_name(), name);
    assert(granted.roles[i].id == role_id);
    assert(granted.role_granted(person_id, service_id, granted.roles[i].id));
    assert(granted.has_edge(
        Edge::RolePermission { role_id: granted.roles[i].id, permission_id },
    ));
}

/// In a catalog that is in order, a name that a role has is the name of one
/// role only.
pub proof fn lemma_one_role_per_name(catalog: CatalogState, name: Seq<char>)
    requires
        catalog.wf(),
    ensures
        forall|i: int, j: int|
            0 <= i < catalog.roles.len() && 0 <= j < catalog.roles.len()
                && (#[trigger] catalog.roles[i]).name == name && (#[trigger] catalog.roles[j]).name
                == name ==> i == j,
{
    assert forall|i: int, j: int|
        0 <= i < catalog.roles.len() && 0 <= j < catalog.roles.len()
            && (#[trigger] catalog.roles[i]).name == name && (#[trigger] catalog.roles[j]).name
            == name implies i == j by {
        if i < j {
            assert(named_name()(catalog.roles[i]) != named_name()(catalog.roles[j]));
        }
        if j < i {
            assert(named_name()(catalog.roles[j]) != named_name()(catalog.roles[i]));
        }
    }
}

/// From the point where the person's own role is known, the exchange puts
/// in the three edges, drops what the cache holds for the person in the
/// service, and reports the four ids.
pub proof fn lemma_exchange_links(db: DbState, exchange: ExchangeState, role_id: i32)
    requires
        exchange.operation is Grant,
    ensures
        ({
            let person_id = exchange.person_id;
            let service_id = exchange.service_id;
            let permission_id = exchange.permission_id;
            let ended = run::<Exchange>(db, exchange.link_service(role_id), 4);
            &&& ended.0 == db.with_catalog(
                db.catalog.link(Edge::ServiceRole { service_id, role_id }).link(
                    Edge::RolePermission { role_id, permission_id },
                ).link(Edge::PersonServiceRole { person_id, service_id, role_id }),
            ).drop_access(AccessScope::Pair { user_id: person_id, service_id })
            &&& ended.1 == Some(
                OutcomeView {
                    response: ResponseView::success(
                        BodyView::Granted { person_id, service_id, permission_id, role_id },
                    ),
                    token: exchange.token,
                    valid: exchange.session is Some,
                    used_cache: None,
                },
            )
        }),
{
    let person_id = exchange.person_id;
    let service_id = exchange.service_id;
    let permission_id = exchange.permission_id;
    let first_edge = Edge::ServiceRole { service_id, role_id };
    let second_edge = Edge::RolePermission { role_id, permission_id };
    let third_edge = Edge::PersonServiceRole { person_id, service_id, role_id };
    let scope = AccessScope::Pair { user_id: person_id, service_id };
    let response = ResponseView::success(
        BodyView::Granted { person_id, service_id, permission_id, role_id },
    );

    let x1 = ExchangeState { role_id, ..exchange }.at(StageView::LinkingService);
    let c1 = CallView::Link { edge: first_edge };
    assert(exchange.link_service(role_id) == StepView::<ExchangeState, OutcomeView>::Call(x1, c1));
    let db1 = db.with_catalog(db.catalog.link(first_edge));
    assert(db.apply(c1) == (db1, AnswerView::Done));
    lemma_run_step::<Exchange>(db, x1, c1, 4);

    let x2 = x1.at(StageView::LinkingPermission);
    let c2 = CallView::Link { edge: second_edge };
    assert(x1.advance(AnswerView::Done) == StepView::<ExchangeState, OutcomeView>::Call(x2, c2));
    let db2 = db1.with_catalog(db1.catalog.link(second_edge));
    assert(db1.apply(c2) == (db2, AnswerView::Done));
    lemma_run_step::<Exchange>(db1, x2, c2, 3);

    let x3 = x2.at(StageView::LinkingPerson);
    let c3 = CallView::Link { edge: third_edge };
    assert(x2.advance(AnswerView::Done) == StepView::<ExchangeState, OutcomeView>::Call(x3, c3));
    let db3 = db2.with_catalog(db2.catalog.link(third_edge));
    assert(db2.apply(c3) == (db3, AnswerView::Done));
    lemma_run_step::<Exchange>(db2, x3, c3, 2);

    let x4 = ExchangeState { pending: Some(response), ..x3 }.at(StageView::Invalidating);
    let c4 = CallView::DropAccess { scope };
    assert(x3.advance(AnswerView::Done) == StepView::<ExchangeState, OutcomeView>::Call(x4, c4));
    let db4 = db3.drop_access(scope);
    let rows = (db3.cache.len() - db4.cache.len()) as u64;
    assert(db3.apply(c4) == (db4, AnswerView::Rows(rows)));
    lemma_run_step::<Exchange>(db3, x4, c4, 1);

    let outcome = OutcomeView {
        response,
        token: exchange.token,
        valid: exchange.session is Some,
        used_cache: None,
    };
    assert(x4.advance(AnswerView::Rows(rows)) == StepView::<ExchangeState, OutcomeView>::Finish(
        outcome,
    ));
    lemma_run_done::<Exchange>(db4, outcome, 0);
}

/// Once the person, the service and the permission of a direct grant are
/// known, the exchange leaves the catalog as the grant says, drops what the
/// cache holds for the person in the service, and reports the four ids.
pub proof fn lemma_exchange_grants(db: DbState, exchange: ExchangeState, permission_id: i32)
    requires
        db.wf(),
        exchange.operation is Grant,
        db.catalog.find_id(
            Entity::Role,
            direct_role_name(exchange.person_id, exchange.service_id),
        ) is None ==> db.catalog.next_role < i32::MAX,
    ensures
        ({
            let person_id = exchange.person_id;
            let service_id = exchange.service_id;
            let role_id = db.catalog.direct_role_id(person_id, service_id);
            let ended = run::<Exchange>(
                db,
                exchange.follow_permission(
                    StepView::<ResolveState, Result<i32, crate::http::ErrorCode>>::Finish(
                        Ok(permission_id),
                    ),
                ),
                6,
            );
            &&& ended.0 == db.with_catalog(
                db.catalog.grant_direct(person_id, service_id, permission_id),
            ).drop_access(AccessScope::Pair { user_id: person_id, service_id })
            &&& ended.1 == Some(
                OutcomeView {
                    response: ResponseView::success(
                        BodyView::Granted { person_id, service_id, permission_id, role_id },
                    ),
                    token: exchange.token,
                    valid: exchange.session is Some,
                    used_cache: None,
                },
            )
        }),
{
    let person_id = exchange.person_id;
    let service_id = exchange.service_id;
    let name = direct_role_name(person_id, service_id);
    let role_id = db.catalog.direct_role_id(person_id, service_id);
    let x0 = ExchangeState { permission_id, ..exchange }.at(StageView::FindingRole);
    let c0 = CallView::FindId { entity: Entity::Role, name };
    assert(exchange.follow_permission(
        StepView::<ResolveState, Result<i32, crate::http::ErrorCode>>::Finish(Ok(permission_id)),
    ) == StepView::<ExchangeState, OutcomeView>::Call(x0, c0));
    let found = db.catalog.find_id(Entity::Role, name);
    assert(db.apply(c0) == (db, AnswerView::Id(found)));
    lemma_run_step::<Exchange>(db, x0, c0, 6);
    match found {
        Some(id) => {
            assert(x0.advance(AnswerView::Id(found)) == x0.link_service(id));
            lemma_exchange_links(db, x0, id);
            lemma_run_more::<Exchange>(db, x0.link_service(id), 4, 5);
        },
        None => {
            lemma_create_role(db.catalog, name);
            let x1 = x0.at(StageView::InsertingRole);
            let c1 = CallView::InsertRole { name };
            assert(x0.advance(AnswerView::Id(found)) == StepView::<
                ExchangeState,
                OutcomeView,
            >::Call(x1, c1));
            let db1 = db.with_catalog(db.catalog.create_role(name));
            assert(db.apply(c1) == (db1, AnswerView::Id(Some(role_id))));
            lemma_run_step::<Exchange>(db, x1, c1, 5);
            assert(x1.advance(AnswerView::Id(Some(role_id))) == x1.link_service(role_id));
            lemma_exchange_links(db1, x1, role_id);
        },
    }
}

} // verus!
