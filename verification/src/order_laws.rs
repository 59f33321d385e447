//! The tables stay in order whatever statement is carried out, and so they
//! stay in order through every task.

use crate::catalog::{
    named_id, named_name, other_named, other_service, pair_key, pair_outside, person_id,
    person_name, replaced, service_id, service_name, triple_key, triple_outside, CatalogState,
};
use crate::entities::{Edge, Named, NewPersonView, PersonRow, ServiceRow};
use crate::grant_laws::{lemma_create_role, lemma_link};
use crate::protocol::{run, AccessScope, CallView, StepView, Task};
use crate::store::{
    cache_key, cache_stays, not_cached_for_pair, not_cached_for_service, not_cached_for_user,
    not_cached_under, not_of_user, other_token, token_key, token_stays, DbState,
};
use crate::table::{
    distinct_by, has_key, lemma_filter_distinct, lemma_filter_members, lemma_push_distinct,
    lemma_row_found, lemma_update_distinct, lemma_update_rows, slot_of,
};
use vstd::prelude::*;

verus! {

/// A filter of rows whose ids lie below a bound keeps them below it.
proof fn lemma_filter_bound<T>(
    rows: Seq<T>,
    pred: spec_fn(T) -> bool,
    id: spec_fn(T) -> i32,
    bound: i32,
)
    requires
        forall|i: int| 0 <= i < rows.len() ==> id(#[trigger] rows[i]) < bound,
    ensures
        forall|i: int| 0 <= i < rows.filter(pred).len() ==> id(#[trigger] rows.filter(pred)[i])
            < bound,
{
    lemma_filter_members(rows, pred);
    assert forall|i: int| 0 <= i < rows.filter(pred).len() implies id(
        #[trigger] rows.filter(pred)[i],
    ) < bound by {
        let row = rows.filter(pred)[i];
        assert(rows.contains(row));
        let m = choose|m: int| 0 <= m < rows.len() && rows[m] == row;
        assert(id(rows[m]) < bound);
    }
}

/// A row that replaces one of the same id and of a name that no other row has
/// keeps ids and names distinct.
proof fn lemma_replace_named(rows: Seq<Named>, id: i32, name: Seq<char>)
    requires
        distinct_by(rows, named_id()),
        distinct_by(rows, named_name()),
        CatalogState::name_free_for(rows, id, name),
    ensures
        distinct_by(CatalogState::renamed(rows, id, name), named_id()),
        distinct_by(CatalogState::renamed(rows, id, name), named_name()),
        CatalogState::renamed(rows, id, name).len() == rows.len(),
        forall|i: int|
            0 <= i < rows.len() ==> (#[trigger] CatalogState::renamed(rows, id, name)[i]).id
                == rows[i].id,
{
    if has_key(rows, named_id(), id) {
        let i = slot_of(rows, named_id(), id);
        let row = Named { id, name };
        assert(named_id()(rows[i]) == id);
        assert forall|j: int| 0 <= j < rows.len() && j != i implies named_name()(
            #[trigger] rows[j],
        ) != named_name()(row) by {
            if rows[j].name == name {
                lemma_row_found(rows, named_name(), j);
                assert(named_id()(rows[j]) != named_id()(rows[i]));
            }
        }
        lemma_update_distinct(rows, named_name(), i, row);
        assert forall|j: int| 0 <= j < rows.len() && j != i implies named_id()(
            #[trigger] rows[j],
        ) != named_id()(row) by {
            assert(named_id()(rows[j]) != named_id()(rows[i]));
        }
        lemma_update_distinct(rows, named_id(), i, row);
    }
}

/// Every change that the catalog's statements make leaves the catalog in order.
pub proof fn lemma_catalog_stays_in_order(catalog: CatalogState)
    requires
        catalog.wf(),
    ensures
        forall|edge: Edge| (#[trigger] catalog.link(edge)).wf(),
        forall|edge: Edge| (#[trigger] catalog.unlink(edge)).wf(),
        forall|person: NewPersonView|
            catalog.can_create_person(person.username) ==> (#[trigger] catalog.create_person(
                person,
            )).wf(),
        forall|name: Seq<char>, description: Option<Seq<char>>|
            catalog.can_create_service(name) ==> (#[trigger] catalog.create_service(
                name,
                description,
            )).wf(),
        forall|name: Seq<char>|
            catalog.can_create_role(name) ==> (#[trigger] catalog.create_role(name)).wf(),
        forall|name: Seq<char>|
            catalog.can_create_permission(name) ==> (#[trigger] catalog.create_permission(
                name,
            )).wf(),
        forall|
            id: i32,
            username: Option<Seq<char>>,
            password_hash: Option<Seq<char>>,
            name: Option<Seq<char>>,
        |
            catalog.can_update_person(id, username) ==> (#[trigger] catalog.update_person(
                id,
                username,
                password_hash,
                name,
            )).wf(),
        forall|id: i32, name: Option<Seq<char>>, description: Option<Seq<char>>|
            catalog.can_update_service(id, name) ==> (#[trigger] catalog.update_service(
                id,
                name,
                description,
            )).wf(),
        forall|id: i32, status: bool| (#[trigger] catalog.set_service_status(id, status)).wf(),
        forall|id: i32, name: Seq<char>|
            CatalogState::name_free_for(catalog.roles, id, name)
                ==> (#[trigger] catalog.rename_role(id, name)).wf(),
        forall|id: i32, name: Seq<char>|
            CatalogState::name_free_for(catalog.permissions, id, name)
                ==> (#[trigger] catalog.rename_permission(id, name)).wf(),
        forall|id: i32, now: i64| (#[trigger] catalog.remove_person(id, now)).wf(),
        forall|id: i32| (#[trigger] catalog.remove_service(id)).wf(),
        forall|id: i32| (#[trigger] catalog.remove_role(id)).wf(),
        forall|id: i32| (#[trigger] catalog.remove_permission(id)).wf(),
{
    assert forall|edge: Edge| (#[trigger] catalog.link(edge)).wf() by {
        lemma_link(catalog, edge);
    }
    assert forall|edge: Edge| (#[trigger] catalog.unlink(edge)).wf() by {
        lemma_unlink(catalog, edge);
    }
    assert forall|person: NewPersonView| catalog.can_create_person(person.username) implies (
    #[trigger] catalog.create_person(person)).wf() by {
        lemma_create_person(catalog, person);
    }
    assert forall|name: Seq<char>, description: Option<Seq<char>>|
        catalog.can_create_service(name) implies (#[trigger] catalog.create_service(
        name,
        description,
    )).wf() by {
        lemma_create_service(catalog, name, description);
    }
    assert forall|name: Seq<char>| catalog.can_create_role(name) implies (
    #[trigger] catalog.create_role(name)).wf() by {
        lemma_create_role(catalog, name);
    }
    assert forall|name: Seq<char>| catalog.can_create_permission(name) implies (
    #[trigger] catalog.create_permission(name)).wf() by {
        lemma_create_permission(catalog, name);
    }
    assert forall|
        id: i32,
        username: Option<Seq<char>>,
        password_hash: Option<Seq<char>>,
        name: Option<Seq<char>>,
    | catalog.can_update_person(id, username) implies (#[trigger] catalog.update_person(
        id,
        username,
        password_hash,
        name,
    )).wf() by {
        lemma_update_person(catalog, id, username, password_hash, name);
    }
    assert forall|id: i32, name: Option<Seq<char>>, description: Option<Seq<char>>|
        catalog.can_update_service(id, name) implies (#[trigger] catalog.update_service(
        id,
        name,
        description,
    )).wf() by {
        lemma_update_service(catalog, id, name, description);
    }
    assert forall|id: i32, status: bool| (#[trigger] catalog.set_service_status(
        id,
        status,
    )).wf() by {
        lemma_set_service_status(catalog, id, status);
    }
    assert forall|id: i32, name: Seq<char>|
        CatalogState::name_free_for(catalog.roles, id, name) implies (
    #[trigger] catalog.rename_role(id, name)).wf() by {
        lemma_replace_named(catalog.roles, id, name);
    }
    assert forall|id: i32, name: Seq<char>|
        CatalogState::name_free_for(catalog.permissions, id, name) implies (
    #[trigger] catalog.rename_permission(id, name)).wf() by {
        lemma_replace_named(catalog.permissions, id, name);
    }
    assert forall|id: i32, now: i64| (#[trigger] catalog.remove_person(id, now)).wf() by {
        lemma_remove_person(catalog, id, now);
    }
    assert forall|id: i32| (#[trigger] catalog.remove_service(id)).wf() by {
        lemma_remove_service(catalog, id);
    }
    assert forall|id: i32| (#[trigger] catalog.remove_role(id)).wf() by {
        lemma_remove_role(catalog, id);
    }
    assert forall|id: i32| (#[trigger] catalog.remove_permission(id)).wf() by {
        lemma_remove_permission(catalog, id);
    }
}

proof fn lemma_unlink(catalog: CatalogState, edge: Edge)
    requires
        catalog.wf(),
    ensures
        catalog.unlink(edge).wf(),
{
    match edge {
        Edge::ServiceRole { service_id, role_id } => {
            lemma_filter_distinct(
                catalog.service_roles,
                pair_key(),
                pair_outside(Some(service_id), Some(role_id)),
            );
        },
        Edge::RolePermission { role_id, permission_id } => {
            lemma_filter_distinct(
                catalog.role_permissions,
                pair_key(),
                pair_outside(Some(role_id), Some(permission_id)),
            );
        },
        Edge::PersonServiceRole { person_id, service_id, role_id } => {
            lemma_filter_distinct(
                catalog.person_service_roles,
                triple_key(),
                triple_outside(Some(person_id), Some(service_id), Some(role_id)),
            );
        },
    }
}

proof fn lemma_create_person(catalog: CatalogState, person: NewPersonView)
    requires
        catalog.wf(),
        catalog.can_create_person(person.username),
    ensures
        catalog.create_person(person).wf(),
{
    let row = person.row(catalog.next_person);
    lemma_push_distinct(catalog.persons, person_name(), row);
    assert(!has_key(catalog.persons, person_id(), row.id)) by {
        if has_key(catalog.persons, person_id(), row.id) {
            let m = slot_of(catalog.persons, person_id(), row.id);
            assert(catalog.persons[m].id < catalog.next_person);
        }
    }
    lemma_push_distinct(catalog.persons, person_id(), row);
    let after = catalog.create_person(person);
    assert forall|i: int| 0 <= i < after.persons.len() implies (#[trigger] after.persons[i]).id
        < after.next_person by {
        if i < catalog.persons.len() {
            assert(after.persons[i] == catalog.persons[i]);
        }
    }
}

proof fn lemma_create_service(
    catalog: CatalogState,
    name: Seq<char>,
    description: Option<Seq<char>>,
)
    requires
        catalog.wf(),
        catalog.can_create_service(name),
    ensures
        catalog.create_service(name, description).wf(),
{
    let row = catalog.new_service(name, description);
    lemma_push_distinct(catalog.services, service_name(), row);
    assert(!has_key(catalog.services, service_id(), row.id)) by {
        if has_key(catalog.services, service_id(), row.id) {
            let m = slot_of(catalog.services, service_id(), row.id);
            assert(catalog.services[m].id < catalog.next_service);
        }
    }
    lemma_push_distinct(catalog.services, service_id(), row);
    let after = catalog.create_service(name, description);
    assert forall|i: int| 0 <= i < after.services.len() implies (#[trigger] after.services[i]).id
        < after.next_service by {
        if i < catalog.services.len() {
            assert(after.services[i] == catalog.services[i]);
        }
    }
}

proof fn lemma_create_permission(catalog: CatalogState, name: Seq<char>)
    requires
        catalog.wf(),
        catalog.can_create_permission(name),
    ensures
        catalog.create_permission(name).wf(),
{
    let row = Named { id: catalog.next_permission, name };
    lemma_push_distinct(catalog.permissions, named_name(), row);
    assert(!has_key(catalog.permissions, named_id(), row.id)) by {
        if has_key(catalog.permissions, named_id(), row.id) {
            let m = slot_of(catalog.permissions, named_id(), row.id);
            assert(catalog.permissions[m].id < catalog.next_permission);
        }
    }
    lemma_push_distinct(catalog.permissions, named_id(), row);
    let after = catalog.create_permission(name);
    assert forall|i: int|
        0 <= i < after.permissions.len() implies (#[trigger] after.permissions[i]).id
        < after.next_permission by {
        if i < catalog.permissions.len() {
            assert(after.permissions[i] == catalog.permissions[i]);
        }
    }
}

proof fn lemma_replace_person(catalog: CatalogState, i: int, row: PersonRow)
    requires
        catalog.wf(),
        0 <= i < catalog.persons.len(),
        row.id == catalog.persons[i].id,
        forall|j: int|
            0 <= j < catalog.persons.len() && j != i ==> (#[trigger] catalog.persons[j]).username
                != row.username,
    ensures
        (CatalogState { persons: catalog.persons.update(i, row), ..catalog }).wf(),
{
    assert forall|j: int| 0 <= j < catalog.persons.len() && j != i implies person_name()(
        #[trigger] catalog.persons[j],
    ) != person_name()(row) by {}
    lemma_update_distinct(catalog.persons, person_name(), i, row);
    assert forall|j: int| 0 <= j < catalog.persons.len() && j != i implies person_id()(
        #[trigger] catalog.persons[j],
    ) != person_id()(row) by {
        assert(person_id()(catalog.persons[j]) != person_id()(catalog.persons[i]));
    }
    lemma_update_distinct(catalog.persons, person_id(), i, row);
    let after = catalog.persons.update(i, row);
    assert forall|j: int| 0 <= j < after.len() implies (#[trigger] after[j]).id
        < catalog.next_person by {
        if j != i {
            assert(after[j] == catalog.persons[j]);
        } else {
            assert(catalog.persons[i].id < catalog.next_person);
        }
    }
}

proof fn lemma_update_person(
    catalog: CatalogState,
    id: i32,
    username: Option<Seq<char>>,
    password_hash: Option<Seq<char>>,
    name: Option<Seq<char>>,
)
    requires
        catalog.wf(),
        catalog.can_update_person(id, username),
    ensures
        catalog.update_person(id, username, password_hash, name).wf(),
{
    if has_key(catalog.persons, person_id(), id) {
        let i = slot_of(catalog.persons, person_id(), id);
        let old = catalog.persons[i];
        assert(person_id()(old) == id);
        lemma_row_found(catalog.persons, person_id(), i);
        let row = PersonRow {
            username: replaced(old.username, username),
            password_hash: replaced(old.password_hash, password_hash),
            name: replaced(old.name, name),
            ..old
        };
        assert forall|j: int|
            0 <= j < catalog.persons.len() && j != i implies (
        #[trigger] catalog.persons[j]).username != row.username by {
            if catalog.persons[j].username == row.username {
                lemma_row_found(catalog.persons, person_name(), j);
                if username is Some {
                    assert(person_id()(catalog.persons[j]) != person_id()(catalog.persons[i]));
                } else {
                    assert(person_name()(catalog.persons[j]) != person_name()(
                        catalog.persons[i],
                    ));
                }
            }
        }
        lemma_replace_person(catalog, i, row);
    }
}

proof fn lemma_remove_person(catalog: CatalogState, id: i32, now: i64)
    requires
        catalog.wf(),
    ensures
        catalog.remove_person(id, now).wf(),
{
    if has_key(catalog.persons, person_id(), id) {
        let i = slot_of(catalog.persons, person_id(), id);
        let old = catalog.persons[i];
        assert(person_id()(old) == id);
        lemma_row_found(catalog.persons, person_id(), i);
        if old.live() {
            let row = PersonRow { removed_at: Some(now), ..old };
            assert forall|j: int|
                0 <= j < catalog.persons.len() && j != i implies (
            #[trigger] catalog.persons[j]).username != row.username by {
                assert(person_name()(catalog.persons[j]) != person_name()(catalog.persons[i]));
            }
            lemma_replace_person(catalog, i, row);
        }
    }
}

proof fn lemma_replace_service(catalog: CatalogState, i: int, row: ServiceRow)
    requires
        catalog.wf(),
        0 <= i < catalog.services.len(),
        row.id == catalog.services[i].id,
        forall|j: int|
            0 <= j < catalog.services.len() && j != i ==> (#[trigger] catalog.services[j]).name
                != row.name,
    ensures
        (CatalogState { services: catalog.services.update(i, row), ..catalog }).wf(),
{
    assert forall|j: int| 0 <= j < catalog.services.len() && j != i implies service_name()(
        #[trigger] catalog.services[j],
    ) != service_name()(row) by {}
    lemma_update_distinct(catalog.services, service_name(), i, row);
    assert forall|j: int| 0 <= j < catalog.services.len() && j != i implies service_id()(
        #[trigger] catalog.services[j],
    ) != service_id()(row) by {
        assert(service_id()(catalog.services[j]) != service_id()(catalog.services[i]));
    }
    lemma_update_distinct(catalog.services, service_id(), i, row);
    let after = catalog.services.update(i, row);
    assert forall|j: int| 0 <= j < after.len() implies (#[trigger] after[j]).id
        < catalog.next_service by {
        if j != i {
            assert(after[j] == catalog.services[j]);
        } else {
            assert(catalog.services[i].id < catalog.next_service);
        }
    }
}

proof fn lemma_update_service(
    catalog: CatalogState,
    id: i32,
    name: Option<Seq<char>>,
    description: Option<Seq<char>>,
)
    requires
        catalog.wf(),
        catalog.can_update_service(id, name),
    ensures
        catalog.update_service(id, name, description).wf(),
{
    if has_key(catalog.services, service_id(), id) {
        let i = slot_of(catalog.services, service_id(), id);
        let old = catalog.services[i];
        assert(service_id()(old) == id);
        lemma_row_found(catalog.services, service_id(), i);
        let row = ServiceRow {
            name: replaced(old.name, name),
            description: match description {
                Some(text) => Some(text),
                None => old.description,
            },
            ..old
        };
        assert forall|j: int|
            0 <= j < catalog.services.len() && j != i implies (#[trigger] catalog.services[j]).name
            != row.name by {
            if catalog.services[j].name == row.name {
                lemma_row_found(catalog.services, service_name(), j);
                if name is Some {
                    assert(service_id()(catalog.services[j]) != service_id()(
                        catalog.services[i],
                    ));
                } else {
                    assert(service_name()(catalog.services[j]) != service_name()(
                        catalog.services[i],
                    ));
                }
            }
        }
        lemma_replace_service(catalog, i, row);
    }
}

proof fn lemma_set_service_status(catalog: CatalogState, id: i32, status: bool)
    requires
        catalog.wf(),
    ensures
        catalog.set_service_status(id, status).wf(),
{
    if has_key(catalog.services, service_id(), id) {
        let i = slot_of(catalog.services, service_id(), id);
        let old = catalog.services[i];
        assert(service_id()(old) == id);
        lemma_row_found(catalog.services, service_id(), i);
        let row = ServiceRow { status, ..old };
        assert forall|j: int|
            0 <= j < catalog.services.len() && j != i implies (#[trigger] catalog.services[j]).name
            != row.name by {
            assert(service_name()(catalog.services[j]) != service_name()(catalog.services[i]));
        }
        lemma_replace_service(catalog, i, row);
    }
}

proof fn lemma_remove_service(catalog: CatalogState, id: i32)
    requires
        catalog.wf(),
    ensures
        catalog.remove_service(id).wf(),
{
    let pred = other_service(id);
    lemma_filter_distinct(catalog.services, service_id(), pred);
    lemma_filter_distinct(catalog.services, service_name(), pred);
    lemma_filter_distinct(catalog.service_roles, pair_key(), pair_outside(Some(id), None));
    lemma_filter_distinct(
        catalog.person_service_roles,
        triple_key(),
        triple_outside(None, Some(id), None),
    );
    lemma_filter_bound(catalog.services, pred, service_id(), catalog.next_service);
    let after = catalog.remove_service(id);
    assert forall|i: int| 0 <= i < after.services.len() implies (#[trigger] after.services[i]).id
        < after.next_service by {
        assert(service_id()(after.services[i]) < catalog.next_service);
    }
}

proof fn lemma_remove_role(catalog: CatalogState, id: i32)
    requires
        catalog.wf(),
    ensures
        catalog.remove_role(id).wf(),
{
    let pred = other_named(id);
    lemma_filter_distinct(catalog.roles, named_id(), pred);
    lemma_filter_distinct(catalog.roles, named_name(), pred);
    lemma_filter_distinct(catalog.service_roles, pair_key(), pair_outside(None, Some(id)));
    lemma_filter_distinct(catalog.role_permissions, pair_key(), pair_outside(Some(id), None));
    lemma_filter_distinct(
        catalog.person_service_roles,
        triple_key(),
        triple_outside(None, None, Some(id)),
    );
    lemma_filter_bound(catalog.roles, pred, named_id(), catalog.next_role);
    let after = catalog.remove_role(id);
    assert forall|i: int| 0 <= i < after.roles.len() implies (#[trigger] after.roles[i]).id
        < after.next_role by {
        assert(named_id()(after.roles[i]) < catalog.next_role);
    }
}

proof fn lemma_remove_permission(catalog: CatalogState, id: i32)
    requires
        catalog.wf(),
    ensures
        catalog.remove_permission(id).wf(),
{
    let pred = other_named(id);
    lemma_filter_distinct(catalog.permissions, named_id(), pred);
    lemma_filter_distinct(catalog.permissions, named_name(), pred);
    lemma_filter_distinct(catalog.role_permissions, pair_key(), pair_outside(None, Some(id)));
    lemma_filter_bound(catalog.permissions, pred, named_id(), catalog.next_permission);
    let after = catalog.remove_permission(id);
    assert forall|i: int|
        0 <= i < after.permissions.len() implies (#[trigger] after.permissions[i]).id
        < after.next_permission by {
        assert(named_id()(after.permissions[i]) < catalog.next_permission);
    }
}

/// Whatever statement the tables in memory carry out, they stay in order.
pub proof fn lemma_apply_keeps_order(db: DbState, call: CallView)
    requires
        db.wf(),
    ensures
        db.apply(call).0.wf(),
{
    lemma_catalog_stays_in_order(db.catalog);
    if !db.refuses(call) {
        match call {
            CallView::InsertToken { record } => {
                lemma_push_distinct(db.tokens, token_key(), record);
            },
            CallView::TouchToken { token, previous, next } => {
                if db.can_touch(token, previous) {
                    let i = slot_of(db.tokens, token_key(), token);
                    lemma_update_rows(
                        db.tokens,
                        token_key(),
                        i,
                        db.touched_row(token, next),
                        token,
                    );
                }
            },
            CallView::DeleteToken { token } => {
                lemma_filter_distinct(db.tokens, token_key(), other_token(token));
                lemma_filter_distinct(db.cache, cache_key(), not_cached_under(token));
            },
            CallView::DeleteTokensForUser { user_id } => {
                lemma_filter_distinct(db.tokens, token_key(), not_of_user(user_id));
                lemma_filter_distinct(
                    db.cache,
                    cache_key(),
                    not_cached_for_user(db.tokens, user_id),
                );
            },
            CallView::StoreAccess { row } => {
                let key = (row.token, row.service_id);
                if has_key(db.cache, cache_key(), key) {
                    let i = slot_of(db.cache, cache_key(), key);
                    lemma_update_rows(db.cache, cache_key(), i, row, key);
                } else {
                    lemma_push_distinct(db.cache, cache_key(), row);
                }
            },
            CallView::DropAccess { scope } => {
                match scope {
                    AccessScope::Pair { user_id, service_id } => {
                        lemma_filter_distinct(
                            db.cache,
                            cache_key(),
                            not_cached_for_pair(db.tokens, user_id, service_id),
                        );
                    },
                    AccessScope::User { user_id } => {
                        lemma_filter_distinct(
                            db.cache,
                            cache_key(),
                            not_cached_for_user(db.tokens, user_id),
                        );
                    },
                    AccessScope::Service { service_id } => {
                        lemma_filter_distinct(
                            db.cache,
                            cache_key(),
                            not_cached_for_service(service_id),
                        );
                    },
                    AccessScope::All => {},
                }
            },
            CallView::ReapTokens { now } => {
                lemma_filter_distinct(db.tokens, token_key(), token_stays(now));
            },
            CallView::ReapAccess { now } => {
                lemma_filter_distinct(db.cache, cache_key(), cache_stays(now));
            },
            _ => {},
        }
    }
}

/// Tables that are in order stay in order through every task.
pub proof fn lemma_run_keeps_order<T: Task>(
    db: DbState,
    step: StepView<T::State, T::OutcomeView>,
    fuel: nat,
)
    requires
        db.wf(),
    ensures
        run::<T>(db, step, fuel).0.wf(),
    decreases fuel,
{
    match step {
        StepView::Finish(_) => {},
        StepView::Call(state, call) => {
            if fuel > 0 {
                lemma_apply_keeps_order(db, call);
                lemma_run_keeps_order::<T>(
                    db.apply(call).0,
                    T::next(state, db.apply(call).1),
                    (fuel - 1) as nat,
                );
            }
        },
    }
}

} // verus!
