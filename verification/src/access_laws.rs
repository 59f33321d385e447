//! What holds of the check of a permission and of the cache behind it.

use crate::access::{lemma_sorted_set, sorted_set};
use crate::catalog::{
    lemma_granted_names, pair_key, pair_outside, triple_key, triple_outside, CatalogState,
};
use crate::entities::Edge;
use crate::command::CommandView;
use crate::exchange::{
    succeeded, Exchange, ExchangeState, OperationView, OutcomeView, StageView,
};
use crate::http::{BodyView, ResponseView};
use crate::protocol::{
    lemma_run_done, lemma_run_step, run, AccessScope, AnswerView, CallView, StepView,
};
use crate::store::{
    cache_key, entry_of, not_cached_for_pair, not_cached_for_service, not_cached_for_user,
    owned_by, CacheRow, DbState,
};
use crate::table::{lemma_filter_distinct, lemma_filter_rows, lemma_push_rows};
use crate::table::{has_key, row_of, slot_of};
use vstd::prelude::*;

verus! {

/// The scope takes in the rows of a person's tokens in a service.
pub open spec fn covers(scope: AccessScope, user_id: i32, service_id: i32) -> bool {
    match scope {
        AccessScope::Pair { user_id: person, service_id: service } => person == user_id
            && service == service_id,
        AccessScope::User { user_id: person } => person == user_id,
        AccessScope::Service { service_id: service } => service == service_id,
        AccessScope::All => true,
    }
}

/// The exchange is a check of one permission by a caller who is known.
pub open spec fn checks_permission(exchange: ExchangeState, name: Seq<char>) -> bool {
    &&& exchange.session is Some
    &&& exchange.operation matches OperationView::CheckAccess { permission_name, .. }
    &&& permission_name == Some(name)
}

/// A check that finds nothing in the cache, or only what has expired, tells
/// the truth of the catalog: it answers that the caller holds the permission
/// exactly if some role confers it that the caller has in the service and that
/// is visible in the service. What it found it writes to the cache, to expire
/// one user lifetime from now, and it reports that the cache was not used.
pub proof fn lemma_fresh_check_tells_the_truth(
    db: DbState,
    exchange: ExchangeState,
    name: Seq<char>,
)
    requires
        db.wf(),
        checks_permission(exchange, name),
        match db.find_access(exchange.token, exchange.service_id) {
            Some(row) => row.expires_at <= exchange.now,
            None => true,
        },
    ensures
        ({
            let user_id = exchange.person_id;
            let service_id = exchange.service_id;
            let access = exchange.computed_access(
                db.catalog.granted_role_names(user_id, service_id),
                db.catalog.granted_permission_names(user_id, service_id),
            );
            let ended = run::<Exchange>(
                db,
                StepView::<ExchangeState, OutcomeView>::Call(
                    exchange.at(StageView::LoadingCache),
                    CallView::LoadAccess { token: exchange.token, service_id },
                ),
                3,
            );
            &&& ended.0 == db.store_access(
                CacheRow {
                    token: exchange.token,
                    service_id,
                    access,
                    expires_at: exchange.user_until,
                },
            )
            &&& ended.1 == Some(
                OutcomeView {
                    response: ResponseView::success(
                        BodyView::HasPermission {
                            has_permission: db.catalog.grants_permission(
                                user_id,
                                service_id,
                                name,
                            ),
                        },
                    ),
                    token: exchange.token,
                    valid: true,
                    used_cache: Some(false),
                },
            )
            &&& forall|role: Seq<char>| #[trigger]
                access.roles.contains(role) <==> db.catalog.grants_role(
                    user_id,
                    service_id,
                    role,
                )
            &&& forall|permission: Seq<char>| #[trigger]
                access.permissions.contains(permission) <==> db.catalog.grants_permission(
                    user_id,
                    service_id,
                    permission,
                )
        }),
{
    let user_id = exchange.person_id;
    let service_id = exchange.service_id;
    let roles = db.catalog.granted_role_names(user_id, service_id);
    let permissions = db.catalog.granted_permission_names(user_id, service_id);
    let access = exchange.computed_access(roles, permissions);
    lemma_granted_names(db.catalog, user_id, service_id);
    lemma_sorted_set(roles);
    lemma_sorted_set(permissions);
    assert forall|role: Seq<char>| #[trigger]
        access.roles.contains(role) <==> db.catalog.grants_role(user_id, service_id, role) by {
        assert(sorted_set(roles).contains(role) <==> roles.contains(role));
    }
    assert forall|permission: Seq<char>| #[trigger]
        access.permissions.contains(permission) <==> db.catalog.grants_permission(
            user_id,
            service_id,
            permission,
        ) by {
        assert(sorted_set(permissions).contains(permission) <==> permissions.contains(
            permission,
        ));
    }

    let x0 = exchange.at(StageView::LoadingCache);
    let c0 = CallView::LoadAccess { token: exchange.token, service_id };
    let a0 = AnswerView::Access(entry_of(db.find_access(exchange.token, service_id)));
    assert(db.apply(c0) == (db, a0));
    lemma_run_step::<Exchange>(db, x0, c0, 3);

    let x1 = x0.at(StageView::LoadingGrants);
    let c1 = CallView::Grants { user_id, service_id };
    assert(x0.advance(a0) == StepView::<ExchangeState, OutcomeView>::Call(x1, c1));
    let a1 = AnswerView::Grants { roles, permissions };
    assert(db.apply(c1) == (db, a1));
    lemma_run_step::<Exchange>(db, x1, c1, 2);

    let row = CacheRow {
        token: exchange.token,
        service_id,
        access,
        expires_at: exchange.user_until,
    };
    let x2 = ExchangeState { access: Some(access), ..x1 }.at(StageView::StoringCache);
    let c2 = CallView::StoreAccess { row };
    assert(x1.advance(a1) == StepView::<ExchangeState, OutcomeView>::Call(x2, c2));
    let db2 = db.store_access(row);
    assert(db.apply(c2) == (db2, AnswerView::Done));
    lemma_run_step::<Exchange>(db, x2, c2, 1);

    let outcome = OutcomeView {
        response: ResponseView::success(
            BodyView::HasPermission {
                has_permission: db.catalog.grants_permission(user_id, service_id, name),
            },
        ),
        token: exchange.token,
        valid: true,
        used_cache: Some(false),
    };
    assert(x2.advance(AnswerView::Done) == StepView::<ExchangeState, OutcomeView>::Finish(
        outcome,
    ));
    lemma_run_done::<Exchange>(db2, outcome, 0);
}

/// A check that finds in the cache what has not expired answers from it,
/// changes nothing, and reports that the cache was used.
pub proof fn lemma_cached_check_answers_from_the_cache(
    db: DbState,
    exchange: ExchangeState,
    name: Seq<char>,
)
    requires
        db.wf(),
        checks_permission(exchange, name),
        db.find_access(exchange.token, exchange.service_id) matches Some(row) && row.expires_at
            > exchange.now,
    ensures
        ({
            let row = db.find_access(exchange.token, exchange.service_id).unwrap();
            let ended = run::<Exchange>(
                db,
                StepView::<ExchangeState, OutcomeView>::Call(
                    exchange.at(StageView::LoadingCache),
                    CallView::LoadAccess {
                        token: exchange.token,
                        service_id: exchange.service_id,
                    },
                ),
                1,
            );
            &&& ended.0 == db
            &&& ended.1 == Some(
                OutcomeView {
                    response: ResponseView::success(
                        BodyView::HasPermission {
                            has_permission: row.access.permissions.contains(name),
                        },
                    ),
                    token: exchange.token,
                    valid: true,
                    used_cache: Some(true),
                },
            )
        }),
{
    let x0 = exchange.at(StageView::LoadingCache);
    let c0 = CallView::LoadAccess { token: exchange.token, service_id: exchange.service_id };
    let row = db.find_access(exchange.token, exchange.service_id).unwrap();
    let a0 = AnswerView::Access(entry_of(Some(row)));
    assert(db.apply(c0) == (db, a0));
    lemma_run_step::<Exchange>(db, x0, c0, 1);
    let outcome = OutcomeView {
        response: ResponseView::success(
            BodyView::HasPermission { has_permission: row.access.permissions.contains(name) },
        ),
        token: exchange.token,
        valid: true,
        used_cache: Some(true),
    };
    assert(x0.advance(a0) == StepView::<ExchangeState, OutcomeView>::Finish(outcome));
    lemma_run_done::<Exchange>(db, outcome, 0);
}

/// Every invalidator whose scope takes in a person and a service leaves the
/// cache without a row for any token of that person in that service; the
/// tokens and the catalog it leaves alone.
pub proof fn lemma_invalidation_closes_the_window(
    db: DbState,
    scope: AccessScope,
    token: Seq<char>,
    user_id: i32,
    service_id: i32,
)
    requires
        db.wf(),
        covers(scope, user_id, service_id),
        owned_by(db.tokens, token, user_id),
    ensures
        db.drop_access(scope).wf(),
        db.drop_access(scope).find_access(token, service_id) is None,
        db.drop_access(scope).tokens == db.tokens,
        db.drop_access(scope).catalog == db.catalog,
{
    let key = (token, service_id);
    match scope {
        AccessScope::Pair { user_id: person, service_id: service } => {
            let pred = not_cached_for_pair(db.tokens, person, service);
            lemma_filter_rows(db.cache, cache_key(), pred, key);
            lemma_filter_distinct(db.cache, cache_key(), pred);
            if has_key(db.cache, cache_key(), key) {
                let m = slot_of(db.cache, cache_key(), key);
                assert(cache_key()(db.cache[m]) == key);
            }
        },
        AccessScope::User { user_id: person } => {
            let pred = not_cached_for_user(db.tokens, person);
            lemma_filter_rows(db.cache, cache_key(), pred, key);
            lemma_filter_distinct(db.cache, cache_key(), pred);
            if has_key(db.cache, cache_key(), key) {
                let m = slot_of(db.cache, cache_key(), key);
                assert(cache_key()(db.cache[m]) == key);
            }
        },
        AccessScope::Service { service_id: service } => {
            let pred = not_cached_for_service(service);
            lemma_filter_rows(db.cache, cache_key(), pred, key);
            lemma_filter_distinct(db.cache, cache_key(), pred);
            if has_key(db.cache, cache_key(), key) {
                let m = slot_of(db.cache, cache_key(), key);
                assert(cache_key()(db.cache[m]) == key);
            }
        },
        AccessScope::All => {},
    }
}

/// After any invalidator whose scope takes in the caller and the service, the
/// next check of a permission by a token of the caller tells the truth of the
/// catalog as it then stands.
pub proof fn lemma_check_after_invalidation(
    db: DbState,
    scope: AccessScope,
    exchange: ExchangeState,
    name: Seq<char>,
)
    requires
        db.wf(),
        checks_permission(exchange, name),
        covers(scope, exchange.person_id, exchange.service_id),
        owned_by(db.tokens, exchange.token, exchange.person_id),
    ensures
        run::<Exchange>(
            db.drop_access(scope),
            StepView::<ExchangeState, OutcomeView>::Call(
                exchange.at(StageView::LoadingCache),
                CallView::LoadAccess { token: exchange.token, service_id: exchange.service_id },
            ),
            3,
        ).1 == Some(
            OutcomeView {
                response: ResponseView::success(
                    BodyView::HasPermission {
                        has_permission: db.catalog.grants_permission(
                            exchange.person_id,
                            exchange.service_id,
                            name,
                        ),
                    },
                ),
                token: exchange.token,
                valid: true,
                used_cache: Some(false),
            },
        ),
{
    lemma_invalidation_closes_the_window(
        db,
        scope,
        exchange.token,
        exchange.person_id,
        exchange.service_id,
    );
    lemma_fresh_check_tells_the_truth(db.drop_access(scope), exchange, name);
}

/// A command that changes what someone may do is never answered before the
/// stale part of the cache is removed: once its statement has succeeded, the
/// next statement of the exchange is the invalidation in the command's scope.
pub proof fn lemma_changes_clear_the_cache(
    exchange: ExchangeState,
    command: CommandView,
    answer: AnswerView,
)
    requires
        exchange.operation == (OperationView::Admin { command }),
        exchange.stage is Acting,
        command.scope(exchange.person_id, exchange.service_id) is Some,
        succeeded(command.finish(answer)),
    ensures
        exchange.advance(answer) matches StepView::Call(next, call) && call
            == (CallView::DropAccess {
            scope: command.scope(exchange.person_id, exchange.service_id).unwrap(),
        }) && next.pending == Some(command.finish(answer)),
{
}

/// The commands that change an edge, rename or remove a role or a permission,
/// or remove a person or a service, each have a scope that takes in everyone
/// whose access the change can touch.
pub proof fn lemma_scopes_of_changes(command: CommandView, person_id: i32, service_id: i32)
    ensures
        command matches CommandView::AssignRoleToPerson { .. } ==> command.scope(
            person_id,
            service_id,
        ) == Some(AccessScope::Pair { user_id: person_id, service_id }),
        command matches CommandView::RemoveRoleFromPerson { .. } ==> command.scope(
            person_id,
            service_id,
        ) == Some(AccessScope::Pair { user_id: person_id, service_id }),
        command matches CommandView::AssignRoleToService { .. } ==> command.scope(
            person_id,
            service_id,
        ) == Some(AccessScope::Service { service_id }),
        command matches CommandView::RemoveRoleFromService { .. } ==> command.scope(
            person_id,
            service_id,
        ) == Some(AccessScope::Service { service_id }),
        command matches CommandView::DeleteService { id } ==> command.scope(
            person_id,
            service_id,
        ) == Some(AccessScope::Service { service_id: id }),
        command matches CommandView::DeleteUser { id } ==> command.scope(person_id, service_id)
            == Some(AccessScope::User { user_id: id }),
        (command is AssignPermissionToRole || command is RemovePermissionFromRole
            || command is UpdateRole || command is DeleteRole || command is UpdatePermission
            || command is DeletePermission) ==> command.scope(person_id, service_id) == Some(
            AccessScope::All,
        ),
{
}

/// Putting an edge in or taking it out changes no other edge.
pub proof fn lemma_edge_change_is_local(catalog: CatalogState, change: Edge, other: Edge)
    requires
        catalog.wf(),
        other != change,
    ensures
        catalog.link(change).has_edge(other) == catalog.has_edge(other),
        catalog.unlink(change).has_edge(other) == catalog.has_edge(other),
        catalog.link(change).has_edge(change),
        !catalog.unlink(change).has_edge(change),
        catalog.link(change).roles == catalog.roles,
        catalog.unlink(change).roles == catalog.roles,
        catalog.link(change).permissions == catalog.permissions,
        catalog.unlink(change).permissions == catalog.permissions,
{
    match change {
        Edge::ServiceRole { service_id, role_id } => {
            let key = (service_id, role_id);
            let pred = pair_outside(Some(service_id), Some(role_id));
            lemma_filter_rows(catalog.service_roles, pair_key(), pred, key);
            if !catalog.has_edge(change) {
                lemma_push_rows(catalog.service_roles, pair_key(), key, key);
            }
            match other {
                Edge::ServiceRole { service_id: s, role_id: r } => {
                    lemma_filter_rows(catalog.service_roles, pair_key(), pred, (s, r));
                    lemma_edge_found(catalog.service_roles, (s, r));
                    lemma_edge_found(catalog.service_roles.filter(pred), (s, r));
                    if !catalog.has_edge(change) {
                        lemma_push_rows(catalog.service_roles, pair_key(), key, (s, r));
                        lemma_edge_found(catalog.service_roles.push(key), (s, r));
                    }
                },
                _ => {},
            }
            lemma_edge_found(catalog.service_roles, key);
            lemma_edge_found(catalog.service_roles.filter(pred), key);
            if !catalog.has_edge(change) {
                lemma_edge_found(catalog.service_roles.push(key), key);
            }
        },
        Edge::RolePermission { role_id, permission_id } => {
            let key = (role_id, permission_id);
            let pred = pair_outside(Some(role_id), Some(permission_id));
            lemma_filter_rows(catalog.role_permissions, pair_key(), pred, key);
            if !catalog.has_edge(change) {
                lemma_push_rows(catalog.role_permissions, pair_key(), key, key);
            }
            match other {
                Edge::RolePermission { role_id: r, permission_id: q } => {
                    lemma_filter_rows(catalog.role_permissions, pair_key(), pred, (r, q));
                    lemma_edge_found(catalog.role_permissions, (r, q));
                    lemma_edge_found(catalog.role_permissions.filter(pred), (r, q));
                    if !catalog.has_edge(change) {
                        lemma_push_rows(catalog.role_permissions, pair_key(), key, (r, q));
                        lemma_edge_found(catalog.role_permissions.push(key), (r, q));
                    }
                },
                _ => {},
            }
            lemma_edge_found(catalog.role_permissions, key);
            lemma_edge_found(catalog.role_permissions.filter(pred), key);
            if !catalog.has_edge(change) {
                lemma_edge_found(catalog.role_permissions.push(key), key);
            }
        },
        Edge::PersonServiceRole { person_id, service_id, role_id } => {
            let key = (person_id, service_id, role_id);
            let pred = triple_outside(Some(person_id), Some(service_id), Some(role_id));
            lemma_filter_rows(catalog.person_service_roles, triple_key(), pred, key);
            if !catalog.has_edge(change) {
                lemma_push_rows(catalog.person_service_roles, triple_key(), key, key);
            }
            match other {
                Edge::PersonServiceRole { person_id: p, service_id: s, role_id: r } => {
                    lemma_filter_rows(catalog.person_service_roles, triple_key(), pred, (p, s, r));
                    lemma_triple_found(catalog.person_service_roles, (p, s, r));
                    lemma_triple_found(catalog.person_service_roles.filter(pred), (p, s, r));
                    if !catalog.has_edge(change) {
                        lemma_push_rows(
                            catalog.person_service_roles,
                            triple_key(),
                            key,
                            (p, s, r),
                        );
                        lemma_triple_found(catalog.person_service_roles.push(key), (p, s, r));
                    }
                },
                _ => {},
            }
            lemma_triple_found(catalog.person_service_roles, key);
            lemma_triple_found(catalog.person_service_roles.filter(pred), key);
            if !catalog.has_edge(change) {
                lemma_triple_found(catalog.person_service_roles.push(key), key);
            }
        },
    }
}

/// An edge is in a list exactly if looking it up finds it.
proof fn lemma_edge_found(edges: Seq<(i32, i32)>, edge: (i32, i32))
    ensures
        has_key(edges, pair_key(), edge) == (row_of(edges, pair_key(), edge) == Some(edge)),
{
    if has_key(edges, pair_key(), edge) {
        let m = slot_of(edges, pair_key(), edge);
        assert(pair_key()(edges[m]) == edge);
    }
}

/// A triple is in a list exactly if looking it up finds it.
proof fn lemma_triple_found(edges: Seq<(i32, i32, i32)>, edge: (i32, i32, i32))
    ensures
        has_key(edges, triple_key(), edge) == (row_of(edges, triple_key(), edge) == Some(edge)),
{
    if has_key(edges, triple_key(), edge) {
        let m = slot_of(edges, triple_key(), edge);
        assert(triple_key()(edges[m]) == edge);
    }
}

/// Two catalogs that agree on the roles, on the permissions, and on every
/// edge that bears on a person in a service grant that person the same there.
pub proof fn lemma_same_edges_same_access(
    before: CatalogState,
    after: CatalogState,
    person_id: i32,
    service_id: i32,
    name: Seq<char>,
)
    requires
        before.roles == after.roles,
        before.permissions == after.permissions,
        forall|role_id: i32|
            #[trigger] before.has_edge(Edge::PersonServiceRole { person_id, service_id, role_id })
                == after.has_edge(Edge::PersonServiceRole { person_id, service_id, role_id }),
        forall|role_id: i32|
            #[trigger] before.has_edge(Edge::ServiceRole { service_id, role_id })
                == after.has_edge(Edge::ServiceRole { service_id, role_id }),
        forall|role_id: i32, permission_id: i32|
            #[trigger] before.has_edge(Edge::RolePermission { role_id, permission_id })
                == after.has_edge(Edge::RolePermission { role_id, permission_id }),
    ensures
        before.grants_role(person_id, service_id, name) == after.grants_role(
            person_id,
            service_id,
            name,
        ),
        before.grants_permission(person_id, service_id, name) == after.grants_permission(
            person_id,
            service_id,
            name,
        ),
{
    assert forall|role_id: i32|
        before.role_granted(person_id, service_id, role_id) == after.role_granted(
            person_id,
            service_id,
            role_id,
        ) by {
        assert(before.has_edge(Edge::PersonServiceRole { person_id, service_id, role_id })
            == after.has_edge(Edge::PersonServiceRole { person_id, service_id, role_id }));
        assert(before.has_edge(Edge::ServiceRole { service_id, role_id }) == after.has_edge(
            Edge::ServiceRole { service_id, role_id },
        ));
    }
    assert forall|permission_id: i32|
        before.confers(person_id, service_id, permission_id) == after.confers(
            person_id,
            service_id,
            permission_id,
        ) by {
        if before.confers(person_id, service_id, permission_id) {
            let i = choose|i: int|
                0 <= i < before.roles.len() && before.role_granted(
                    person_id,
                    service_id,
                    (#[trigger] before.roles[i]).id,
                ) && before.has_edge(
                    Edge::RolePermission { role_id: before.roles[i].id, permission_id },
                );
            assert(after.role_granted(person_id, service_id, after.roles[i].id));
            assert(after.has_edge(
                Edge::RolePermission { role_id: after.roles[i].id, permission_id },
            ));
        }
        if after.confers(person_id, service_id, permission_id) {
            let i = choose|i: int|
                0 <= i < after.roles.len() && after.role_granted(
                    person_id,
                    service_id,
                    (#[trigger] after.roles[i]).id,
                ) && after.has_edge(
                    Edge::RolePermission { role_id: after.roles[i].id, permission_id },
                );
            assert(before.role_granted(person_id, service_id, before.roles[i].id));
            assert(before.has_edge(
                Edge::RolePermission { role_id: before.roles[i].id, permission_id },
            ));
        }
    }
    if before.grants_role(person_id, service_id, name) {
        let i = choose|i: int|
            0 <= i < before.roles.len() && (#[trigger] before.roles[i]).name == name
                && before.role_granted(person_id, service_id, before.roles[i].id);
        assert(after.roles[i].name == name && after.role_granted(
            person_id,
            service_id,
            after.roles[i].id,
        ));
    }
    if after.grants_role(person_id, service_id, name) {
        let i = choose|i: int|
            0 <= i < after.roles.len() && (#[trigger] after.roles[i]).name == name
                && after.role_granted(person_id, service_id, after.roles[i].id);
        assert(before.roles[i].name == name && before.role_granted(
            person_id,
            service_id,
            before.roles[i].id,
        ));
    }
    if before.grants_permission(person_id, service_id, name) {
        let j = choose|j: int|
            0 <= j < before.permissions.len() && (#[trigger] before.permissions[j]).name == name
                && before.confers(person_id, service_id, before.permissions[j].id);
        assert(after.permissions[j].name == name && after.confers(
            person_id,
            service_id,
            after.permissions[j].id,
        ));
    }
    if after.grants_permission(person_id, service_id, name) {
        let j = choose|j: int|
            0 <= j < after.permissions.len() && (#[trigger] after.permissions[j]).name == name
                && after.confers(person_id, service_id, after.permissions[j].id);
        assert(before.permissions[j].name == name && before.confers(
            person_id,
            service_id,
            before.permissions[j].id,
        ));
    }
}

/// A role given to a person in a service, or taken from them there, changes
/// what that person may do in that service and nothing else: everyone else,
/// and the person in every other service, may do what they might before. So it
/// is enough to clear the cache for the person in the service.
pub proof fn lemma_person_grant_is_local(
    catalog: CatalogState,
    person_id: i32,
    service_id: i32,
    role_id: i32,
    other_person: i32,
    other_service: i32,
    name: Seq<char>,
)
    requires
        catalog.wf(),
        other_person != person_id || other_service != service_id,
    ensures
        ({
            let edge = Edge::PersonServiceRole { person_id, service_id, role_id };
            &&& catalog.link(edge).grants_permission(other_person, other_service, name)
                == catalog.grants_permission(other_person, other_service, name)
            &&& catalog.unlink(edge).grants_permission(other_person, other_service, name)
                == catalog.grants_permission(other_person, other_service, name)
            &&& catalog.link(edge).grants_role(other_person, other_service, name)
                == catalog.grants_role(other_person, other_service, name)
            &&& catalog.unlink(edge).grants_role(other_person, other_service, name)
                == catalog.grants_role(other_person, other_service, name)
        }),
{
    let edge = Edge::PersonServiceRole { person_id, service_id, role_id };
    assert forall|r: i32|
        #[trigger] catalog.has_edge(
            Edge::PersonServiceRole {
                person_id: other_person,
                service_id: other_service,
                role_id: r,
            },
        ) == catalog.link(edge).has_edge(
            Edge::PersonServiceRole {
                person_id: other_person,
                service_id: other_service,
                role_id: r,
            },
        ) && catalog.has_edge(
            Edge::PersonServiceRole {
                person_id: other_person,
                service_id: other_service,
                role_id: r,
            },
        ) == catalog.unlink(edge).has_edge(
            Edge::PersonServiceRole {
                person_id: other_person,
                service_id: other_service,
                role_id: r,
            },
        ) by {
        lemma_edge_change_is_local(
            catalog,
            edge,
            Edge::PersonServiceRole {
                person_id: other_person,
                service_id: other_service,
                role_id: r,
            },
        );
    }
    assert forall|r: i32|
        #[trigger] catalog.has_edge(Edge::ServiceRole { service_id: other_service, role_id: r })
            == catalog.link(edge).has_edge(
            Edge::ServiceRole { service_id: other_service, role_id: r },
        ) && catalog.has_edge(Edge::ServiceRole { service_id: other_service, role_id: r })
            == catalog.unlink(edge).has_edge(
            Edge::ServiceRole { service_id: other_service, role_id: r },
        ) by {
        lemma_edge_change_is_local(
            catalog,
            edge,
            Edge::ServiceRole { service_id: other_service, role_id: r },
        );
    }
    assert forall|r: i32, q: i32|
        #[trigger] catalog.has_edge(Edge::RolePermission { role_id: r, permission_id: q })
            == catalog.link(edge).has_edge(Edge::RolePermission { role_id: r, permission_id: q })
            && catalog.has_edge(Edge::RolePermission { role_id: r, permission_id: q })
            == catalog.unlink(edge).has_edge(
            Edge::RolePermission { role_id: r, permission_id: q },
        ) by {
        lemma_edge_change_is_local(
            catalog,
            edge,
            Edge::RolePermission { role_id: r, permission_id: q },
        );
    }
    lemma_edge_change_is_local(catalog, edge, Edge::ServiceRole { service_id: 0, role_id: 0 });
    lemma_same_edges_same_access(catalog, catalog.link(edge), other_person, other_service, name);
    lemma_same_edges_same_access(
        catalog,
        catalog.unlink(edge),
        other_person,
        other_service,
        name,
    );
}

/// A role made visible in a service, or taken out of it, changes what persons
/// may do in that service and nothing else. So it is enough to clear the cache
/// for the service.
pub proof fn lemma_service_role_is_local(
    catalog: CatalogState,
    service_id: i32,
    role_id: i32,
    person_id: i32,
    other_service: i32,
    name: Seq<char>,
)
    requires
        catalog.wf(),
        other_service != service_id,
    ensures
        ({
            let edge = Edge::ServiceRole { service_id, role_id };
            &&& catalog.link(edge).grants_permission(person_id, other_service, name)
                == catalog.grants_permission(person_id, other_service, name)
            &&& catalog.unlink(edge).grants_permission(person_id, other_service, name)
                == catalog.grants_permission(person_id, other_service, name)
            &&& catalog.link(edge).grants_role(person_id, other_service, name)
                == catalog.grants_role(person_id, other_service, name)
            &&& catalog.unlink(edge).grants_role(person_id, other_service, name)
                == catalog.grants_role(person_id, other_service, name)
        }),
{
    let edge = Edge::ServiceRole { service_id, role_id };
    assert forall|r: i32|
        #[trigger] catalog.has_edge(
            Edge::PersonServiceRole { person_id, service_id: other_service, role_id: r },
        ) == catalog.link(edge).has_edge(
            Edge::PersonServiceRole { person_id, service_id: other_service, role_id: r },
        ) && catalog.has_edge(
            Edge::PersonServiceRole { person_id, service_id: other_service, role_id: r },
        ) == catalog.unlink(edge).has_edge(
            Edge::PersonServiceRole { person_id, service_id: other_service, role_id: r },
        ) by {
        lemma_edge_change_is_local(
            catalog,
            edge,
            Edge::PersonServiceRole { person_id, service_id: other_service, role_id: r },
        );
    }
    assert forall|r: i32|
        #[trigger] catalog.has_edge(Edge::ServiceRole { service_id: other_service, role_id: r })
            == catalog.link(edge).has_edge(
            Edge::ServiceRole { service_id: other_service, role_id: r },
        ) && catalog.has_edge(Edge::ServiceRole { service_id: other_service, role_id: r })
            == catalog.unlink(edge).has_edge(
            Edge::ServiceRole { service_id: other_service, role_id: r },
        ) by {
        lemma_edge_change_is_local(
            catalog,
            edge,
            Edge::ServiceRole { service_id: other_service, role_id: r },
        );
    }
    assert forall|r: i32, q: i32|
        #[trigger] catalog.has_edge(Edge::RolePermission { role_id: r, permission_id: q })
            == catalog.link(edge).has_edge(Edge::RolePermission { role_id: r, permission_id: q })
            && catalog.has_edge(Edge::RolePermission { role_id: r, permission_id: q })
            == catalog.unlink(edge).has_edge(
            Edge::RolePermission { role_id: r, permission_id: q },
        ) by {
        lemma_edge_change_is_local(
            catalog,
            edge,
            Edge::RolePermission { role_id: r, permission_id: q },
        );
    }
    lemma_edge_change_is_local(
        catalog,
        edge,
        Edge::RolePermission { role_id: 0, permission_id: 0 },
    );
    lemma_same_edges_same_access(catalog, catalog.link(edge), person_id, other_service, name);
    lemma_same_edges_same_access(catalog, catalog.unlink(edge), person_id, other_service, name);
}

} // verus!
