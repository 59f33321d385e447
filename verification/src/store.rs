//! The tables of tokens and of cached access, held in memory, and what each
//! statement on them does.

use crate::access::{AccessCacheRecord, AccessEntry, AccessFacts, AccessSnapshot};
use crate::catalog::{named_id, Catalog, CatalogState};
use crate::entities::{Entity, LinkQuery, Named};
use crate::protocol::{AccessScope, AnswerView, CallView, StoreAnswer, StoreCall};
use crate::table::{
    distinct_by, has_key, lemma_filter_distinct, lemma_filter_step, lemma_push_rows,
    lemma_row_found, lemma_update_rows, row_of, slot_of,
};
use crate::token::{TokenRecord, TokenRow};
use vstd::prelude::*;

verus! {

/// One row of the cache of access: what a token may do in one service.
pub struct AccessRow {
    pub token: String,
    pub service_id: i32,
    pub access: AccessSnapshot,
    pub expires_at: i64,
}

/// A row of the cache as plain values.
pub struct CacheRow {
    pub token: Seq<char>,
    pub service_id: i32,
    pub access: AccessFacts,
    pub expires_at: i64,
}

impl View for AccessRow {
    type V = CacheRow;

    open spec fn view(&self) -> CacheRow {
        CacheRow {
            token: self.token@,
            service_id: self.service_id,
            access: self.access@,
            expires_at: self.expires_at,
        }
    }
}

impl DeepView for AccessRow {
    type V = CacheRow;

    open spec fn deep_view(&self) -> CacheRow {
        self@
    }
}

impl Clone for AccessRow {
    fn clone(&self) -> (r: Self)
        ensures
            r@ == self@,
    {
        AccessRow {
            token: self.token.clone(),
            service_id: self.service_id,
            access: self.access.clone(),
            expires_at: self.expires_at,
        }
    }
}

/// The key of the token table.
pub open spec fn token_key() -> spec_fn(TokenRow) -> Seq<char> {
    |row: TokenRow| row.token
}

/// The key of the cache: a token and a service.
pub open spec fn cache_key() -> spec_fn(CacheRow) -> (Seq<char>, i32) {
    |row: CacheRow| (row.token, row.service_id)
}

/// The rows of tokens other than `token`.
pub open spec fn other_token(token: Seq<char>) -> spec_fn(TokenRow) -> bool {
    |row: TokenRow| row.token != token
}

/// The rows of tokens that were not issued to the person `user_id`.
pub open spec fn not_of_user(user_id: i32) -> spec_fn(TokenRow) -> bool {
    |row: TokenRow| row.payload.user_id() != Some(user_id)
}

/// The rows of tokens that a reaping at `now` leaves.
pub open spec fn token_stays(now: i64) -> spec_fn(TokenRow) -> bool {
    |row: TokenRow| row.expires_at >= now
}

/// The rows of the cache that a reaping at `now` leaves.
pub open spec fn cache_stays(now: i64) -> spec_fn(CacheRow) -> bool {
    |row: CacheRow| row.expires_at >= now
}

/// The token `token` is in the table and was issued to the person `user_id`.
pub open spec fn owned_by(tokens: Seq<TokenRow>, token: Seq<char>, user_id: i32) -> bool {
    match row_of(tokens, token_key(), token) {
        Some(row) => row.payload.user_id() == Some(user_id),
        None => false,
    }
}

/// The rows of the cache that do not belong to a token of the person `user_id`.
pub open spec fn not_cached_for_user(tokens: Seq<TokenRow>, user_id: i32) -> spec_fn(
    CacheRow,
) -> bool {
    |row: CacheRow| !owned_by(tokens, row.token, user_id)
}

/// The rows of the cache that were not stored under the token `token`.
pub open spec fn not_cached_under(token: Seq<char>) -> spec_fn(CacheRow) -> bool {
    |row: CacheRow| row.token != token
}

/// The rows of the cache that are not for the service `service_id`.
pub open spec fn not_cached_for_service(service_id: i32) -> spec_fn(CacheRow) -> bool {
    |row: CacheRow| row.service_id != service_id
}

/// The rows of the cache that are not both for the service `service_id` and of
/// a token of the person `user_id`.
pub open spec fn not_cached_for_pair(
    tokens: Seq<TokenRow>,
    user_id: i32,
    service_id: i32,
) -> spec_fn(CacheRow) -> bool {
    |row: CacheRow| !(row.service_id == service_id && owned_by(tokens, row.token, user_id))
}

/// The tables as plain values.
pub struct DbState {
    pub tokens: Seq<TokenRow>,
    pub cache: Seq<CacheRow>,
    pub catalog: CatalogState,
}

impl DbState {
    /// No token occurs twice, no pair of token and service occurs twice in
    /// the cache, and the catalog is in order.
    pub open spec fn wf(self) -> bool {
        &&& distinct_by(self.tokens, token_key())
        &&& distinct_by(self.cache, cache_key())
        &&& self.catalog.wf()
    }

    /// Tables with nothing in them.
    pub open spec fn empty() -> DbState {
        DbState { tokens: Seq::empty(), cache: Seq::empty(), catalog: CatalogState::empty() }
    }

    /// The row of a token.
    pub open spec fn find_token(self, token: Seq<char>) -> Option<TokenRow> {
        row_of(self.tokens, token_key(), token)
    }

    /// The tables after a row was added to the tokens.
    pub open spec fn insert_token(self, row: TokenRow) -> DbState {
        DbState { tokens: self.tokens.push(row), ..self }
    }

    /// A renewal takes effect when the token is there and still expires at `previous`.
    pub open spec fn can_touch(self, token: Seq<char>, previous: i64) -> bool {
        match self.find_token(token) {
            Some(row) => row.expires_at == previous,
            None => false,
        }
    }

    /// The row of `token` with its expiry moved to `next`.
    pub open spec fn touched_row(self, token: Seq<char>, next: i64) -> TokenRow {
        TokenRow { expires_at: next, ..self.find_token(token).unwrap() }
    }

    /// The tables after the conditional renewal of `token`: its expiry is moved
    /// from `previous` to `next`, or nothing changes.
    pub open spec fn touch_token(self, token: Seq<char>, previous: i64, next: i64) -> DbState {
        if self.can_touch(token, previous) {
            DbState {
                tokens: self.tokens.update(
                    slot_of(self.tokens, token_key(), token),
                    self.touched_row(token, next),
                ),
                ..self
            }
        } else {
            self
        }
    }

    /// The tables without the row of `token` and without what the cache held
    /// under it: a revocation reaches the cache.
    pub open spec fn delete_token(self, token: Seq<char>) -> DbState {
        DbState {
            tokens: self.tokens.filter(other_token(token)),
            cache: self.cache.filter(not_cached_under(token)),
            ..self
        }
    }

    /// The tables without the tokens of the person `user_id` and without what
    /// the cache held under them.
    pub open spec fn delete_tokens_of(self, user_id: i32) -> DbState {
        DbState {
            tokens: self.tokens.filter(not_of_user(user_id)),
            cache: self.cache.filter(not_cached_for_user(self.tokens, user_id)),
            ..self
        }
    }

    /// The tables without the tokens that expire before `now`.
    pub open spec fn reap_tokens(self, now: i64) -> DbState {
        DbState { tokens: self.tokens.filter(token_stays(now)), ..self }
    }

    /// The tables without the cache rows that expire before `now`.
    pub open spec fn reap_access(self, now: i64) -> DbState {
        DbState { cache: self.cache.filter(cache_stays(now)), ..self }
    }

    /// The tables without the rows, in either, that expire before `now`.
    pub open spec fn reap(self, now: i64) -> DbState {
        self.reap_tokens(now).reap_access(now)
    }

    /// What the cache holds for a token in a service.
    pub open spec fn find_access(self, token: Seq<char>, service_id: i32) -> Option<CacheRow> {
        row_of(self.cache, cache_key(), (token, service_id))
    }

    /// The tables after `row` was written to the cache, in place of the row
    /// with its key where there is one.
    pub open spec fn store_access(self, row: CacheRow) -> DbState {
        if has_key(self.cache, cache_key(), (row.token, row.service_id)) {
            DbState {
                cache: self.cache.update(
                    slot_of(self.cache, cache_key(), (row.token, row.service_id)),
                    row,
                ),
                ..self
            }
        } else {
            DbState { cache: self.cache.push(row), ..self }
        }
    }

    /// The tables without the cache rows of the person's tokens in one service.
    pub open spec fn drop_access_of_pair(self, user_id: i32, service_id: i32) -> DbState {
        DbState {
            cache: self.cache.filter(not_cached_for_pair(self.tokens, user_id, service_id)),
            ..self
        }
    }

    /// The tables without the cache rows of the person's tokens.
    pub open spec fn drop_access_of_user(self, user_id: i32) -> DbState {
        DbState { cache: self.cache.filter(not_cached_for_user(self.tokens, user_id)), ..self }
    }

    /// The tables without the cache rows of one service.
    pub open spec fn drop_access_of_service(self, service_id: i32) -> DbState {
        DbState { cache: self.cache.filter(not_cached_for_service(service_id)), ..self }
    }

    /// The tables with an empty cache.
    pub open spec fn clear_access(self) -> DbState {
        DbState { cache: Seq::empty(), ..self }
    }

    /// `row` is a token of the person `user_id` that is in the table and has
    /// not expired at `now`.
    pub open spec fn is_live_token_of(self, row: TokenRow, user_id: i32, now: i64) -> bool {
        &&& self.tokens.contains(row)
        &&& row.payload.user_id() == Some(user_id)
        &&& row.expires_at > now
    }

    /// `found` is what a search for the newest live token of a person may
    /// give: a live token of theirs that expires no earlier than any other, or
    /// nothing where they have none.
    pub open spec fn is_newest_live_token(
        self,
        found: Option<TokenRow>,
        user_id: i32,
        now: i64,
    ) -> bool {
        match found {
            Some(row) => {
                &&& self.is_live_token_of(row, user_id, now)
                &&& forall|other: TokenRow| #[trigger]
                    self.is_live_token_of(other, user_id, now) ==> other.expires_at
                        <= row.expires_at
            },
            None => forall|other: TokenRow| !#[trigger] self.is_live_token_of(other, user_id, now),
        }
    }
}

/// The newest token of a person among `tokens` that has not expired at
/// `now`: of those that expire last, the first in the table.
pub open spec fn newest_live(tokens: Seq<TokenRow>, user_id: i32, now: i64) -> Option<TokenRow>
    decreases tokens.len(),
{
    if tokens.len() == 0 {
        None
    } else {
        let front = newest_live(tokens.drop_last(), user_id, now);
        let last = tokens.last();
        if last.payload.user_id() == Some(user_id) && last.expires_at > now && (match front {
            Some(best) => best.expires_at < last.expires_at,
            None => true,
        }) {
            Some(last)
        } else {
            front
        }
    }
}

/// The newest live token is a live token of the person's, and none of theirs
/// expires later.
pub proof fn lemma_newest_live(db: DbState, user_id: i32, now: i64)
    ensures
        db.is_newest_live_token(newest_live(db.tokens, user_id, now), user_id, now),
    decreases db.tokens.len(),
{
    if db.tokens.len() > 0 {
        let front = DbState { tokens: db.tokens.drop_last(), ..db };
        lemma_newest_live(front, user_id, now);
        let found = newest_live(db.tokens, user_id, now);
        let last = db.tokens.last();
        let n = db.tokens.len() - 1;
        assert(db.tokens[n] == last);
        match found {
            Some(row) => {
                if row != last || newest_live(front.tokens, user_id, now) == Some(row) {
                    if newest_live(front.tokens, user_id, now) == Some(row) {
                        let j = choose|j: int|
                            0 <= j < front.tokens.len() && front.tokens[j] == row;
                        assert(db.tokens[j] == row);
                    }
                }
                assert(db.tokens.contains(row));
                assert forall|other: TokenRow| #[trigger]
                    db.is_live_token_of(other, user_id, now) implies other.expires_at
                    <= row.expires_at by {
                    let j = choose|j: int| 0 <= j < db.tokens.len() && db.tokens[j] == other;
                    if j < n {
                        assert(front.tokens[j] == other);
                        assert(front.tokens.contains(other));
                        assert(front.is_live_token_of(other, user_id, now));
                    }
                }
            },
            None => {
                assert forall|other: TokenRow| !#[trigger] db.is_live_token_of(
                    other,
                    user_id,
                    now,
                ) by {
                    if db.is_live_token_of(other, user_id, now) {
                        let j = choose|j: int| 0 <= j < db.tokens.len() && db.tokens[j] == other;
                        if j < n {
                            assert(front.tokens[j] == other);
                            assert(front.tokens.contains(other));
                            assert(front.is_live_token_of(other, user_id, now));
                        }
                    }
                }
            },
        }
    }
}

/// What the cache gives back for a row.
pub open spec fn entry_of(row: Option<CacheRow>) -> Option<AccessEntry> {
    match row {
        Some(row) => Some(AccessEntry { access_json: row.access, expires_at: row.expires_at }),
        None => None,
    }
}

impl DbState {
    /// The tables after the cache rows in `scope` were removed.
    pub open spec fn drop_access(self, scope: AccessScope) -> DbState {
        match scope {
            AccessScope::Pair { user_id, service_id } => self.drop_access_of_pair(
                user_id,
                service_id,
            ),
            AccessScope::User { user_id } => self.drop_access_of_user(user_id),
            AccessScope::Service { service_id } => self.drop_access_of_service(service_id),
            AccessScope::All => self.clear_access(),
        }
    }

    /// What a store in the state `self` may do with a statement that it
    /// carries out: the state `post` it is in afterwards, and its answer.
    pub open spec fn carries_out(self, call: CallView, post: DbState, answer: AnswerView) -> bool {
        match call {
            CallView::InsertToken { record } => {
                &&& self.find_token(record.token) is None
                &&& post == self.insert_token(record)
                &&& answer == AnswerView::Done
            },
            CallView::FetchToken { token } => {
                &&& post == self
                &&& answer == AnswerView::Token(self.find_token(token))
            },
            CallView::TouchToken { token, previous, next } => {
                &&& post == self.touch_token(token, previous, next)
                &&& answer == AnswerView::Token(
                    if self.can_touch(token, previous) {
                        Some(self.touched_row(token, next))
                    } else {
                        None
                    },
                )
            },
            CallView::DeleteToken { token } => {
                &&& post == self.delete_token(token)
                &&& answer == AnswerView::Rows((self.tokens.len() - post.tokens.len()) as u64)
            },
            CallView::DeleteTokensForUser { user_id } => {
                &&& post == self.delete_tokens_of(user_id)
                &&& answer == AnswerView::Rows((self.tokens.len() - post.tokens.len()) as u64)
            },
            CallView::LiveTokenForUser { user_id, now } => {
                &&& post == self
                &&& answer matches AnswerView::Token(found)
                &&& self.is_newest_live_token(found, user_id, now)
            },
            CallView::LoadAccess { token, service_id } => {
                &&& post == self
                &&& answer == AnswerView::Access(entry_of(self.find_access(token, service_id)))
            },
            CallView::StoreAccess { row } => {
                &&& post == self.store_access(row)
                &&& answer == AnswerView::Done
            },
            CallView::DropAccess { scope } => {
                &&& post == self.drop_access(scope)
                &&& answer == AnswerView::Rows((self.cache.len() - post.cache.len()) as u64)
            },
            CallView::ReapTokens { now } => {
                &&& post == self.reap_tokens(now)
                &&& answer == AnswerView::Rows((self.tokens.len() - post.tokens.len()) as u64)
            },
            CallView::ReapAccess { now } => {
                &&& post == self.reap_access(now)
                &&& answer == AnswerView::Rows((self.cache.len() - post.cache.len()) as u64)
            },
            CallView::FindAuthUser { username } => {
                &&& post == self
                &&& answer == AnswerView::AuthUser(self.catalog.find_auth_user(username))
            },
            CallView::FindService { id } => {
                &&& post == self
                &&& answer == AnswerView::ServiceData(self.catalog.find_service(id))
            },
            CallView::FindId { entity, name } => {
                &&& post == self
                &&& answer == AnswerView::Id(self.catalog.find_id(entity, name))
            },
            CallView::InsertService { name } => if self.catalog.find_id(Entity::Service, name)
                is Some {
                post == self && answer == AnswerView::Id(None)
            } else {
                &&& self.catalog.can_create_service(name)
                &&& post == self.with_catalog(self.catalog.create_service(name, None))
                &&& answer == AnswerView::Id(Some(self.catalog.next_service))
            },
            CallView::InsertRole { name } => if self.catalog.find_id(Entity::Role, name)
                is Some {
                post == self && answer == AnswerView::Id(None)
            } else {
                &&& self.catalog.can_create_role(name)
                &&& post == self.with_catalog(self.catalog.create_role(name))
                &&& answer == AnswerView::Id(Some(self.catalog.next_role))
            },
            CallView::Link { edge } => {
                &&& post == self.with_catalog(self.catalog.link(edge))
                &&& answer == AnswerView::Done
            },
            CallView::Unlink { edge } => {
                &&& post == self.with_catalog(self.catalog.unlink(edge))
                &&& answer == AnswerView::Done
            },
            CallView::Grants { user_id, service_id } => {
                &&& post == self
                &&& answer matches AnswerView::Grants { roles, permissions }
                &&& self.catalog.are_granted_roles(roles, user_id, service_id)
                &&& self.catalog.are_granted_permissions(permissions, user_id, service_id)
            },
            CallView::HoldsPermission { person_id, service_id, permission } => {
                &&& post == self
                &&& answer == AnswerView::Flag(
                    self.catalog.grants_permission(person_id, service_id, permission),
                )
            },
            CallView::CreatePerson { person } => {
                &&& self.catalog.can_create_person(person.username)
                &&& post == self.with_catalog(self.catalog.create_person(person))
                &&& answer == AnswerView::User(
                    Some(person.row(self.catalog.next_person).listed()),
                )
            },
            CallView::CreateService { name, description } => {
                &&& self.catalog.can_create_service(name)
                &&& post == self.with_catalog(self.catalog.create_service(name, description))
                &&& answer == AnswerView::Service(
                    Some(self.catalog.new_service(name, description).listed()),
                )
            },
            CallView::CreateRole { name } => {
                &&& self.catalog.can_create_role(name)
                &&& post == self.with_catalog(self.catalog.create_role(name))
                &&& answer == AnswerView::Named(
                    Some(Named { id: self.catalog.next_role, name }),
                )
            },
            CallView::CreatePermission { name } => {
                &&& self.catalog.can_create_permission(name)
                &&& post == self.with_catalog(self.catalog.create_permission(name))
                &&& answer == AnswerView::Named(
                    Some(Named { id: self.catalog.next_permission, name }),
                )
            },
            CallView::ListPeople => {
                &&& post == self
                &&& answer == AnswerView::Users(self.catalog.list_people())
            },
            CallView::GetPerson { id } => {
                &&& post == self
                &&& answer == AnswerView::User(self.catalog.get_person(id))
            },
            CallView::ListServices => {
                &&& post == self
                &&& answer == AnswerView::Services(self.catalog.list_services())
            },
            CallView::ListRoles => {
                &&& post == self
                &&& answer == AnswerView::Names(self.catalog.roles)
            },
            CallView::GetRole { id } => {
                &&& post == self
                &&& answer == AnswerView::Named(row_of(self.catalog.roles, named_id(), id))
            },
            CallView::ListPermissions => {
                &&& post == self
                &&& answer == AnswerView::Names(self.catalog.permissions)
            },
            CallView::UpdatePerson { id, new_username, new_password_hash, new_name } => {
                &&& self.catalog.can_update_person(id, new_username)
                &&& post == self.with_catalog(
                    self.catalog.update_person(id, new_username, new_password_hash, new_name),
                )
                &&& answer == AnswerView::Done
            },
            CallView::UpdateService { id, new_name, new_description } => {
                &&& self.catalog.can_update_service(id, new_name)
                &&& post == self.with_catalog(
                    self.catalog.update_service(id, new_name, new_description),
                )
                &&& answer == AnswerView::Done
            },
            CallView::SetServiceStatus { id, status } => {
                &&& post == self.with_catalog(self.catalog.set_service_status(id, status))
                &&& answer == AnswerView::Done
            },
            CallView::UpdateRole { id, name } => {
                &&& CatalogState::name_free_for(self.catalog.roles, id, name)
                &&& post == self.with_catalog(self.catalog.rename_role(id, name))
                &&& answer == AnswerView::Done
            },
            CallView::UpdatePermission { id, name } => {
                &&& CatalogState::name_free_for(self.catalog.permissions, id, name)
                &&& post == self.with_catalog(self.catalog.rename_permission(id, name))
                &&& answer == AnswerView::Done
            },
            CallView::DeletePerson { id, now } => {
                &&& post == self.with_catalog(self.catalog.remove_person(id, now))
                &&& answer == AnswerView::Done
            },
            CallView::DeleteService { id } => {
                &&& post == self.with_catalog(self.catalog.remove_service(id))
                &&& answer == AnswerView::Done
            },
            CallView::DeleteRole { id } => {
                &&& post == self.with_catalog(self.catalog.remove_role(id))
                &&& answer == AnswerView::Done
            },
            CallView::DeletePermission { id } => {
                &&& post == self.with_catalog(self.catalog.remove_permission(id))
                &&& answer == AnswerView::Done
            },
            CallView::ListLinked { query } => {
                &&& post == self
                &&& answer == match query {
                    LinkQuery::RolePermissions { role_id } => AnswerView::Names(
                        self.catalog.permissions_of_role(role_id),
                    ),
                    LinkQuery::ServiceRoles { service_id } => AnswerView::Names(
                        self.catalog.roles_of_service(service_id),
                    ),
                    LinkQuery::PersonRoles { person_id, service_id } => AnswerView::Names(
                        self.catalog.roles_of_person(person_id, service_id),
                    ),
                    LinkQuery::PersonsWithRole { service_id, role_id } => AnswerView::Users(
                        self.catalog.persons_with_role(service_id, role_id),
                    ),
                    LinkQuery::ServicesOfPerson { person_id } => AnswerView::Services(
                        self.catalog.services_of_person(person_id),
                    ),
                }
            },
        }
    }

    /// The tables with another catalog.
    pub open spec fn with_catalog(self, catalog: CatalogState) -> DbState {
        DbState { catalog, ..self }
    }

    /// What the store in memory does with a statement: the state it is in
    /// afterwards, and its answer. It fails where its rules refuse the
    /// statement, and nowhere else.
    pub open spec fn apply(self, call: CallView) -> (DbState, AnswerView) {
        if self.refuses(call) {
            (self, AnswerView::Failed)
        } else {
            match call {
                CallView::InsertToken { record } => (self.insert_token(record), AnswerView::Done),
                CallView::FetchToken { token } => (
                    self,
                    AnswerView::Token(self.find_token(token)),
                ),
                CallView::TouchToken { token, previous, next } => (
                    self.touch_token(token, previous, next),
                    AnswerView::Token(
                        if self.can_touch(token, previous) {
                            Some(self.touched_row(token, next))
                        } else {
                            None
                        },
                    ),
                ),
                CallView::DeleteToken { token } => (
                    self.delete_token(token),
                    AnswerView::Rows(
                        (self.tokens.len() - self.delete_token(token).tokens.len()) as u64,
                    ),
                ),
                CallView::DeleteTokensForUser { user_id } => (
                    self.delete_tokens_of(user_id),
                    AnswerView::Rows(
                        (self.tokens.len() - self.delete_tokens_of(user_id).tokens.len()) as u64,
                    ),
                ),
                CallView::LiveTokenForUser { user_id, now } => (
                    self,
                    AnswerView::Token(newest_live(self.tokens, user_id, now)),
                ),
                CallView::LoadAccess { token, service_id } => (
                    self,
                    AnswerView::Access(entry_of(self.find_access(token, service_id))),
                ),
                CallView::StoreAccess { row } => (self.store_access(row), AnswerView::Done),
                CallView::DropAccess { scope } => (
                    self.drop_access(scope),
                    AnswerView::Rows(
                        (self.cache.len() - self.drop_access(scope).cache.len()) as u64,
                    ),
                ),
                CallView::ReapTokens { now } => (
                    self.reap_tokens(now),
                    AnswerView::Rows(
                        (self.tokens.len() - self.reap_tokens(now).tokens.len()) as u64,
                    ),
                ),
                CallView::ReapAccess { now } => (
                    self.reap_access(now),
                    AnswerView::Rows(
                        (self.cache.len() - self.reap_access(now).cache.len()) as u64,
                    ),
                ),
                CallView::FindAuthUser { username } => (
                    self,
                    AnswerView::AuthUser(self.catalog.find_auth_user(username)),
                ),
                CallView::FindService { id } => (
                    self,
                    AnswerView::ServiceData(self.catalog.find_service(id)),
                ),
                CallView::FindId { entity, name } => (
                    self,
                    AnswerView::Id(self.catalog.find_id(entity, name)),
                ),
                CallView::InsertService { name } => if self.catalog.find_id(
                    Entity::Service,
                    name,
                ) is Some {
                    (self, AnswerView::Id(None))
                } else {
                    (
                        self.with_catalog(self.catalog.create_service(name, None)),
                        AnswerView::Id(Some(self.catalog.next_service)),
                    )
                },
                CallView::InsertRole { name } => if self.catalog.find_id(Entity::Role, name)
                    is Some {
                    (self, AnswerView::Id(None))
                } else {
                    (
                        self.with_catalog(self.catalog.create_role(name)),
                        AnswerView::Id(Some(self.catalog.next_role)),
                    )
                },
                CallView::Link { edge } => (
                    self.with_catalog(self.catalog.link(edge)),
                    AnswerView::Done,
                ),
                CallView::Unlink { edge } => (
                    self.with_catalog(self.catalog.unlink(edge)),
                    AnswerView::Done,
                ),
                CallView::Grants { user_id, service_id } => (
                    self,
                    AnswerView::Grants {
                        roles: self.catalog.granted_role_names(user_id, service_id),
                        permissions: self.catalog.granted_permission_names(user_id, service_id),
                    },
                ),
                CallView::HoldsPermission { person_id, service_id, permission } => (
                    self,
                    AnswerView::Flag(
                        self.catalog.grants_permission(person_id, service_id, permission),
                    ),
                ),
                CallView::CreatePerson { person } => (
                    self.with_catalog(self.catalog.create_person(person)),
                    AnswerView::User(Some(person.row(self.catalog.next_person).listed())),
                ),
                CallView::CreateService { name, description } => (
                    self.with_catalog(self.catalog.create_service(name, description)),
                    AnswerView::Service(
                        Some(self.catalog.new_service(name, description).listed()),
                    ),
                ),
                CallView::CreateRole { name } => (
                    self.with_catalog(self.catalog.create_role(name)),
                    AnswerView::Named(Some(Named { id: self.catalog.next_role, name })),
                ),
                CallView::CreatePermission { name } => (
                    self.with_catalog(self.catalog.create_permission(name)),
                    AnswerView::Named(Some(Named { id: self.catalog.next_permission, name })),
                ),
                CallView::ListPeople => (self, AnswerView::Users(self.catalog.list_people())),
                CallView::GetPerson { id } => (
                    self,
                    AnswerView::User(self.catalog.get_person(id)),
                ),
                CallView::ListServices => (
                    self,
                    AnswerView::Services(self.catalog.list_services()),
                ),
                CallView::ListRoles => (self, AnswerView::Names(self.catalog.roles)),
                CallView::GetRole { id } => (
                    self,
                    AnswerView::Named(row_of(self.catalog.roles, named_id(), id)),
                ),
                CallView::ListPermissions => (self, AnswerView::Names(self.catalog.permissions)),
                CallView::UpdatePerson { id, new_username, new_password_hash, new_name } => (
                    self.with_catalog(
                        self.catalog.update_person(id, new_username, new_password_hash, new_name),
                    ),
                    AnswerView::Done,
                ),
                CallView::UpdateService { id, new_name, new_description } => (
                    self.with_catalog(self.catalog.update_service(id, new_name, new_description)),
                    AnswerView::Done,
                ),
                CallView::SetServiceStatus { id, status } => (
                    self.with_catalog(self.catalog.set_service_status(id, status)),
                    AnswerView::Done,
                ),
                CallView::UpdateRole { id, name } => (
                    self.with_catalog(self.catalog.rename_role(id, name)),
                    AnswerView::Done,
                ),
                CallView::UpdatePermission { id, name } => (
                    self.with_catalog(self.catalog.rename_permission(id, name)),
                    AnswerView::Done,
                ),
                CallView::DeletePerson { id, now } => (
                    self.with_catalog(self.catalog.remove_person(id, now)),
                    AnswerView::Done,
                ),
                CallView::DeleteService { id } => (
                    self.with_catalog(self.catalog.remove_service(id)),
                    AnswerView::Done,
                ),
                CallView::DeleteRole { id } => (
                    self.with_catalog(self.catalog.remove_role(id)),
                    AnswerView::Done,
                ),
                CallView::DeletePermission { id } => (
                    self.with_catalog(self.catalog.remove_permission(id)),
                    AnswerView::Done,
                ),
                CallView::ListLinked { query } => (
                    self,
                    match query {
                        LinkQuery::RolePermissions { role_id } => AnswerView::Names(
                            self.catalog.permissions_of_role(role_id),
                        ),
                        LinkQuery::ServiceRoles { service_id } => AnswerView::Names(
                            self.catalog.roles_of_service(service_id),
                        ),
                        LinkQuery::PersonRoles { person_id, service_id } => AnswerView::Names(
                            self.catalog.roles_of_person(person_id, service_id),
                        ),
                        LinkQuery::PersonsWithRole { service_id, role_id } => AnswerView::Users(
                            self.catalog.persons_with_role(service_id, role_id),
                        ),
                        LinkQuery::ServicesOfPerson { person_id } => AnswerView::Services(
                            self.catalog.services_of_person(person_id),
                        ),
                    },
                ),
            }
        }
    }

    /// The store's own rules refuse the statement: a token, a user name or a
    /// name would occur twice, or no id is left for a new row.
    pub open spec fn refuses(self, call: CallView) -> bool {
        match call {
            CallView::InsertToken { record } => self.find_token(record.token) is Some,
            CallView::InsertService { name } => self.catalog.find_id(Entity::Service, name)
                is None && !self.catalog.can_create_service(name),
            CallView::InsertRole { name } => self.catalog.find_id(Entity::Role, name) is None
                && !self.catalog.can_create_role(name),
            CallView::CreatePerson { person } => !self.catalog.can_create_person(
                person.username,
            ),
            CallView::CreateService { name, description } => !self.catalog.can_create_service(
                name,
            ),
            CallView::CreateRole { name } => !self.catalog.can_create_role(name),
            CallView::CreatePermission { name } => !self.catalog.can_create_permission(name),
            CallView::UpdatePerson {
                id,
                new_username,
                new_password_hash,
                new_name,
            } => !self.catalog.can_update_person(id, new_username),
            CallView::UpdateService {
                id,
                new_name,
                new_description,
            } => !self.catalog.can_update_service(id, new_name),
            CallView::UpdateRole { id, name } => !CatalogState::name_free_for(
                self.catalog.roles,
                id,
                name,
            ),
            CallView::UpdatePermission { id, name } => !CatalogState::name_free_for(
                self.catalog.permissions,
                id,
                name,
            ),
            _ => false,
        }
    }

    /// What a store in the state `self` may do with a statement: carry it out,
    /// or fail and stay as it is.
    pub open spec fn answers(self, call: CallView, post: DbState, answer: AnswerView) -> bool {
        self.carries_out(call, post, answer) || (answer == AnswerView::Failed && post == self)
    }
}

/// The tables of the service, held in memory.
pub struct DB {
    tokens: Vec<TokenRecord>,
    cache: Vec<AccessRow>,
    catalog: Catalog,
}

impl View for DB {
    type V = DbState;

    closed spec fn view(&self) -> DbState {
        DbState {
            tokens: self.tokens.deep_view(),
            cache: self.cache.deep_view(),
            catalog: self.catalog@,
        }
    }
}

impl DB {
    /// Empty tables.
    pub fn new() -> (db: DB)
        ensures
            db@.wf(),
            db@ == DbState::empty(),
    {
        let db = DB { tokens: Vec::new(), cache: Vec::new(), catalog: Catalog::new() };
        assert(db.tokens.deep_view() =~= Seq::<TokenRow>::empty());
        assert(db.cache.deep_view() =~= Seq::<CacheRow>::empty());
        db
    }

    /// The number of tokens.
    pub fn token_count(&self) -> (count: usize)
        ensures
            count == self@.tokens.len(),
    {
        self.tokens.len()
    }

    /// The number of rows in the cache.
    pub fn cache_count(&self) -> (count: usize)
        ensures
            count == self@.cache.len(),
    {
        self.cache.len()
    }

    /// The catalog.
    pub fn catalog(&self) -> (catalog: &Catalog)
        ensures
            catalog@ == self@.catalog,
    {
        &self.catalog
    }

    /// Where the row of `token` stands.
    fn token_slot(&self, token: &String) -> (r: Option<usize>)
        requires
            self@.wf(),
        ensures
            match r {
                Some(i) => i < self.tokens.len() && self.tokens[i as int]@.token == token@
                    && has_key(self@.tokens, token_key(), token@) && slot_of(
                    self@.tokens,
                    token_key(),
                    token@,
                ) == i,
                None => !has_key(self@.tokens, token_key(), token@),
            },
    {
        let mut i: usize = 0;
        while i < self.tokens.len()
            invariant
                self@.wf(),
                i <= self.tokens.len(),
                forall|j: int| 0 <= j < i ==> (#[trigger] self@.tokens[j]).token != token@,
            decreases self.tokens.len() - i,
        {
            if self.tokens[i].token == *token {
                proof {
                    assert(self@.tokens[i as int] == self.tokens[i as int]@);
                    lemma_row_found(self@.tokens, token_key(), i as int);
                }
                return Some(i);
            }
            assert(self@.tokens[i as int] == self.tokens[i as int]@);
            i = i + 1;
        }
        None
    }

    /// The row of a token, if it is in the table.
    pub fn fetch_token(&self, token: &str) -> (r: Option<TokenRecord>)
        requires
            self@.wf(),
        ensures
            r.deep_view() == self@.find_token(token@),
    {
        let key = token.to_owned();
        match self.token_slot(&key) {
            Some(i) => {
                assert(self@.tokens[i as int] == self.tokens[i as int]@);
                Some(self.tokens[i].clone())
            },
            None => None,
        }
    }
    /// Adds a row to the tokens. Where the token is in the table already the
    /// row is refused and nothing changes.
    pub fn insert_token(&mut self, record: TokenRecord) -> (added: bool)
        requires
            old(self)@.wf(),
        ensures
            final(self)@.wf(),
            added == old(self)@.find_token(record@.token) is None,
            added ==> final(self)@ == old(self)@.insert_token(record@),
            !added ==> final(self)@ == old(self)@,
    {
        match self.token_slot(&record.token) {
            Some(_) => false,
            None => {
                proof {
                    lemma_push_rows(self@.tokens, token_key(), record@, record@.token);
                    assert(self.tokens.deep_view().push(record@) =~= self.tokens@.push(
                        record,
                    ).map_values(|r: TokenRecord| r@));
                }
                let ghost before = self.tokens.deep_view();
                self.tokens.push(record);
                assert(self.tokens.deep_view() =~= before.push(record@));
                true
            },
        }
    }

    /// Moves the expiry of `token` from `previous` to `next`. Gives the row as
    /// it then stands, or nothing where the token is gone or expires at another
    /// time than `previous`; then nothing changes.
    pub fn touch_token(&mut self, token: &str, previous: i64, next: i64) -> (r: Option<
        TokenRecord,
    >)
        requires
            old(self)@.wf(),
        ensures
            final(self)@.wf(),
            final(self)@ == old(self)@.touch_token(token@, previous, next),
            r.deep_view() == if old(self)@.can_touch(token@, previous) {
                Some(old(self)@.touched_row(token@, next))
            } else {
                None
            },
    {
        let key = token.to_owned();
        match self.token_slot(&key) {
            Some(i) => {
                assert(self@.tokens[i as int] == self.tokens[i as int]@);
                if self.tokens[i].expires_at == previous {
                    let mut row = self.tokens[i].clone();
                    row.expires_at = next;
                    let out = row.clone();
                    let ghost before = self.tokens.deep_view();
                    proof {
                        lemma_update_rows(before, token_key(), i as int, row@, token@);
                    }
                    self.tokens.set(i, row);
                    assert(self.tokens.deep_view() =~= before.update(i as int, out@));
                    Some(out)
                } else {
                    None
                }
            },
            None => None,
        }
    }

    /// Removes what the cache holds under `token`.
    fn drop_access_under(&mut self, token: &str)
        requires
            old(self)@.wf(),
        ensures
            final(self)@.wf(),
            final(self)@ == (DbState {
                cache: old(self)@.cache.filter(not_cached_under(token@)),
                ..old(self)@
            }),
    {
        let key = token.to_owned();
        let ghost rows_before = self.cache.deep_view();
        let ghost pred = not_cached_under(token@);
        let mut kept: Vec<AccessRow> = Vec::new();
        let mut i: usize = 0;
        assert(rows_before.take(0).filter(pred) =~= Seq::<CacheRow>::empty()) by {
            reveal(Seq::filter);
        }
        while i < self.cache.len()
            invariant
                i <= self.cache.len(),
                rows_before == self.cache.deep_view(),
                pred == not_cached_under(token@),
                key@ == token@,
                kept.deep_view() == rows_before.take(i as int).filter(pred),
            decreases self.cache.len() - i,
        {
            proof {
                lemma_filter_step(rows_before, i as int, pred);
            }
            let ghost before = kept.deep_view();
            if !(self.cache[i].token == key) {
                kept.push(self.cache[i].clone());
                assert(kept.deep_view() =~= before.push(rows_before[i as int]));
            }
            i = i + 1;
        }
        proof {
            assert(rows_before.take(self.cache.len() as int) == rows_before);
            lemma_filter_distinct(rows_before, cache_key(), pred);
        }
        self.cache = kept;
    }

    /// Removes the row of `token` and what the cache holds under it; gives the
    /// number of token rows removed.
    pub fn delete_token(&mut self, token: &str) -> (rows: u64)
        requires
            old(self)@.wf(),
        ensures
            final(self)@.wf(),
            final(self)@ == old(self)@.delete_token(token@),
            rows == old(self)@.tokens.len() - final(self)@.tokens.len(),
    {
        self.drop_access_under(token);
        let key = token.to_owned();
        let ghost rows_before = self.tokens.deep_view();
        let ghost pred = other_token(token@);
        let mut kept: Vec<TokenRecord> = Vec::new();
        let mut i: usize = 0;
        assert(rows_before.take(0).filter(pred) =~= Seq::<TokenRow>::empty()) by {
            reveal(Seq::filter);
        }
        while i < self.tokens.len()
            invariant
                i <= self.tokens.len(),
                rows_before == self.tokens.deep_view(),
                pred == other_token(token@),
                key@ == token@,
                kept.deep_view() == rows_before.take(i as int).filter(pred),
            decreases self.tokens.len() - i,
        {
            proof {
                lemma_filter_step(rows_before, i as int, pred);
            }
            let ghost before = kept.deep_view();
            if !(self.tokens[i].token == key) {
                kept.push(self.tokens[i].clone());
                assert(kept.deep_view() =~= before.push(rows_before[i as int]));
            }
            i = i + 1;
        }
        proof {
            assert(rows_before.take(self.tokens.len() as int) == rows_before);
            lemma_filter_distinct(rows_before, token_key(), pred);
            Seq::lemma_filter_len(rows_before, pred);
        }
        let rows = (self.tokens.len() - kept.len()) as u64;
        self.tokens = kept;
        rows
    }

    /// Removes the tokens of the person `user_id` and what the cache holds
    /// under them; gives the number of token rows removed.
    pub fn delete_tokens_for_user(&mut self, user_id: i32) -> (rows: u64)
        requires
            old(self)@.wf(),
        ensures
            final(self)@.wf(),
            final(self)@ == old(self)@.delete_tokens_of(user_id),
            rows == old(self)@.tokens.len() - final(self)@.tokens.len(),
    {
        let _ = self.delete_access_cache_for_user(user_id);
        let ghost rows_before = self.tokens.deep_view();
        let ghost pred = not_of_user(user_id);
        let mut kept: Vec<TokenRecord> = Vec::new();
        let mut i: usize = 0;
        assert(rows_before.take(0).filter(pred) =~= Seq::<TokenRow>::empty()) by {
            reveal(Seq::filter);
        }
        while i < self.tokens.len()
            invariant
                i <= self.tokens.len(),
                rows_before == self.tokens.deep_view(),
                pred == not_of_user(user_id),
                kept.deep_view() == rows_before.take(i as int).filter(pred),
            decreases self.tokens.len() - i,
        {
            proof {
                lemma_filter_step(rows_before, i as int, pred);
            }
            let ghost before = kept.deep_view();
            let owner = self.tokens[i].payload.user_id();
            let goes = match owner {
                Some(id) => id == user_id,
                None => false,
            };
            if !goes {
                kept.push(self.tokens[i].clone());
                assert(kept.deep_view() =~= before.push(rows_before[i as int]));
            }
            i = i + 1;
        }
        proof {
            assert(rows_before.take(self.tokens.len() as int) == rows_before);
            lemma_filter_distinct(rows_before, token_key(), pred);
            Seq::lemma_filter_len(rows_before, pred);
        }
        let rows = (self.tokens.len() - kept.len()) as u64;
        self.tokens = kept;
        rows
    }
    /// The newest token of the person `user_id` that has not expired at `now`.
    pub fn live_token_for_user(&self, user_id: i32, now: i64) -> (r: Option<TokenRecord>)
        requires
            self@.wf(),
        ensures
            r.deep_view() == newest_live(self@.tokens, user_id, now),
            self@.is_newest_live_token(r.deep_view(), user_id, now),
    {
        let mut best: Option<usize> = None;
        let mut i: usize = 0;
        let ghost rows = self.tokens.deep_view();
        assert(rows.take(0).len() == 0);
        while i < self.tokens.len()
            invariant
                i <= self.tokens.len(),
                rows == self.tokens.deep_view(),
                match best {
                    Some(b) => b < i && newest_live(rows.take(i as int), user_id, now) == Some(
                        rows[b as int],
                    ),
                    None => newest_live(rows.take(i as int), user_id, now) is None,
                },
            decreases self.tokens.len() - i,
        {
            assert(rows[i as int] == self.tokens[i as int]@);
            assert(rows.take(i as int + 1).drop_last() == rows.take(i as int));
            assert(rows.take(i as int + 1).last() == rows[i as int]);
            let owner = self.tokens[i].payload.user_id();
            let theirs = match owner {
                Some(id) => id == user_id,
                None => false,
            };
            if theirs && self.tokens[i].expires_at > now {
                let better = match best {
                    Some(b) => {
                        assert(rows[b as int] == self.tokens[b as int]@);
                        self.tokens[b].expires_at < self.tokens[i].expires_at
                    },
                    None => true,
                };
                if better {
                    best = Some(i);
                }
            }
            i = i + 1;
        }
        assert(rows.take(self.tokens.len() as int) == rows);
        proof {
            lemma_newest_live(self@, user_id, now);
        }
        match best {
            Some(b) => {
                assert(rows[b as int] == self.tokens[b as int]@);
                Some(self.tokens[b].clone())
            },
            None => None,
        }
    }

    /// Tells whether `token` is in the table as a token of the person `user_id`.
    fn token_owner_is(&self, token: &String, user_id: i32) -> (r: bool)
        requires
            self@.wf(),
        ensures
            r == owned_by(self@.tokens, token@, user_id),
    {
        match self.token_slot(token) {
            Some(i) => {
                assert(self@.tokens[i as int] == self.tokens[i as int]@);
                match self.tokens[i].payload.user_id() {
                    Some(id) => id == user_id,
                    None => false,
                }
            },
            None => false,
        }
    }

    /// Where the cache row of a token in a service stands.
    fn access_slot(&self, token: &String, service_id: i32) -> (r: Option<usize>)
        requires
            self@.wf(),
        ensures
            match r {
                Some(i) => i < self.cache.len() && has_key(
                    self@.cache,
                    cache_key(),
                    (token@, service_id),
                ) && slot_of(self@.cache, cache_key(), (token@, service_id)) == i,
                None => !has_key(self@.cache, cache_key(), (token@, service_id)),
            },
    {
        let mut i: usize = 0;
        while i < self.cache.len()
            invariant
                self@.wf(),
                i <= self.cache.len(),
                forall|j: int|
                    0 <= j < i ==> !((#[trigger] self@.cache[j]).token == token@
                        && self@.cache[j].service_id == service_id),
            decreases self.cache.len() - i,
        {
            assert(self@.cache[i as int] == self.cache[i as int]@);
            if self.cache[i].service_id == service_id && self.cache[i].token == *token {
                proof {
                    lemma_row_found(self@.cache, cache_key(), i as int);
                }
                return Some(i);
            }
            i = i + 1;
        }
        None
    }

    /// What the cache holds for a token in a service.
    pub fn load_access_cache(&self, token: &str, service_id: i32) -> (r: Option<
        AccessCacheRecord,
    >)
        requires
            self@.wf(),
        ensures
            r.deep_view() == entry_of(self@.find_access(token@, service_id)),
    {
        let key = token.to_owned();
        match self.access_slot(&key, service_id) {
            Some(i) => {
                assert(self@.cache[i as int] == self.cache[i as int]@);
                Some(
                    AccessCacheRecord {
                        access_json: self.cache[i].access.clone(),
                        expires_at: self.cache[i].expires_at,
                    },
                )
            },
            None => None,
        }
    }

    /// Writes the access of a token in a service to the cache. A row that is
    /// there for the pair is overwritten, snapshot and expiry both.
    pub fn store_access_cache(
        &mut self,
        token: &str,
        service_id: i32,
        access: &AccessSnapshot,
        expires_at: i64,
    )
        requires
            old(self)@.wf(),
        ensures
            final(self)@.wf(),
            final(self)@ == old(self)@.store_access(
                CacheRow { token: token@, service_id, access: access@, expires_at },
            ),
    {
        let key = token.to_owned();
        let row = AccessRow { token: key.clone(), service_id, access: access.clone(), expires_at };
        let ghost before = self.cache.deep_view();
        match self.access_slot(&key, service_id) {
            Some(i) => {
                proof {
                    lemma_row_found(before, cache_key(), i as int);
                    lemma_update_rows(before, cache_key(), i as int, row@, (token@, service_id));
                }
                self.cache.set(i, row);
                assert(self.cache.deep_view() =~= before.update(i as int, row@));
            },
            None => {
                proof {
                    lemma_push_rows(before, cache_key(), row@, (token@, service_id));
                }
                self.cache.push(row);
                assert(self.cache.deep_view() =~= before.push(row@));
            },
        }
    }

    /// Removes the cache rows of one service that belong to a token of the
    /// person `user_id`; gives the number of rows removed.
    pub fn delete_access_cache(&mut self, user_id: i32, service_id: i32) -> (rows: u64)
        requires
            old(self)@.wf(),
        ensures
            final(self)@.wf(),
            final(self)@ == old(self)@.drop_access_of_pair(user_id, service_id),
            rows == old(self)@.cache.len() - final(self)@.cache.len(),
    {
        let ghost rows_before = self.cache.deep_view();
        let ghost pred = not_cached_for_pair(self@.tokens, user_id, service_id);
        let mut kept: Vec<AccessRow> = Vec::new();
        let mut i: usize = 0;
        assert(rows_before.take(0).filter(pred) =~= Seq::<CacheRow>::empty()) by {
            reveal(Seq::filter);
        }
        while i < self.cache.len()
            invariant
                self@.wf(),
                i <= self.cache.len(),
                rows_before == self.cache.deep_view(),
                pred == not_cached_for_pair(self@.tokens, user_id, service_id),
                kept.deep_view() == rows_before.take(i as int).filter(pred),
            decreases self.cache.len() - i,
        {
            proof {
                lemma_filter_step(rows_before, i as int, pred);
            }
            let ghost before = kept.deep_view();
            let goes = self.cache[i].service_id == service_id && self.token_owner_is(
                &self.cache[i].token,
                user_id,
            );
            if !goes {
                kept.push(self.cache[i].clone());
                assert(kept.deep_view() =~= before.push(rows_before[i as int]));
            }
            i = i + 1;
        }
        proof {
            assert(rows_before.take(self.cache.len() as int) == rows_before);
            lemma_filter_distinct(rows_before, cache_key(), pred);
            Seq::lemma_filter_len(rows_before, pred);
        }
        let rows = (self.cache.len() - kept.len()) as u64;
        self.cache = kept;
        rows
    }

    /// Removes the cache rows that belong to a token of the person `user_id`;
    /// gives the number of rows removed.
    pub fn delete_access_cache_for_user(&mut self, user_id: i32) -> (rows: u64)
        requires
            old(self)@.wf(),
        ensures
            final(self)@.wf(),
            final(self)@ == old(self)@.drop_access_of_user(user_id),
            rows == old(self)@.cache.len() - final(self)@.cache.len(),
    {
        let ghost rows_before = self.cache.deep_view();
        let ghost pred = not_cached_for_user(self@.tokens, user_id);
        let mut kept: Vec<AccessRow> = Vec::new();
        let mut i: usize = 0;
        assert(rows_before.take(0).filter(pred) =~= Seq::<CacheRow>::empty()) by {
            reveal(Seq::filter);
        }
        while i < self.cache.len()
            invariant
                self@.wf(),
                i <= self.cache.len(),
                rows_before == self.cache.deep_view(),
                pred == not_cached_for_user(self@.tokens, user_id),
                kept.deep_view() == rows_before.take(i as int).filter(pred),
            decreases self.cache.len() - i,
        {
            proof {
                lemma_filter_step(rows_before, i as int, pred);
            }
            let ghost before = kept.deep_view();
            let goes = self.token_owner_is(&self.cache[i].token, user_id);
            if !goes {
                kept.push(self.cache[i].clone());
                assert(kept.deep_view() =~= before.push(rows_before[i as int]));
            }
            i = i + 1;
        }
        proof {
            assert(rows_before.take(self.cache.len() as int) == rows_before);
            lemma_filter_distinct(rows_before, cache_key(), pred);
            Seq::lemma_filter_len(rows_before, pred);
        }
        let rows = (self.cache.len() - kept.len()) as u64;
        self.cache = kept;
        rows
    }

    /// Removes the cache rows of one service; gives the number of rows removed.
    pub fn delete_access_cache_for_service(&mut self, service_id: i32) -> (rows: u64)
        requires
            old(self)@.wf(),
        ensures
            final(self)@.wf(),
            final(self)@ == old(self)@.drop_access_of_service(service_id),
            rows == old(self)@.cache.len() - final(self)@.cache.len(),
    {
        let ghost rows_before = self.cache.deep_view();
        let ghost pred = not_cached_for_service(service_id);
        let mut kept: Vec<AccessRow> = Vec::new();
        let mut i: usize = 0;
        assert(rows_before.take(0).filter(pred) =~= Seq::<CacheRow>::empty()) by {
            reveal(Seq::filter);
        }
        while i < self.cache.len()
            invariant
                i <= self.cache.len(),
                rows_before == self.cache.deep_view(),
                pred == not_cached_for_service(service_id),
                kept.deep_view() == rows_before.take(i as int).filter(pred),
            decreases self.cache.len() - i,
        {
            proof {
                lemma_filter_step(rows_before, i as int, pred);
            }
            let ghost before = kept.deep_view();
            if self.cache[i].service_id != service_id {
                kept.push(self.cache[i].clone());
                assert(kept.deep_view() =~= before.push(rows_before[i as int]));
            }
            i = i + 1;
        }
        proof {
            assert(rows_before.take(self.cache.len() as int) == rows_before);
            lemma_filter_distinct(rows_before, cache_key(), pred);
            Seq::lemma_filter_len(rows_before, pred);
        }
        let rows = (self.cache.len() - kept.len()) as u64;
        self.cache = kept;
        rows
    }

    /// Empties the cache; gives the number of rows removed.
    pub fn clear_access_cache(&mut self) -> (rows: u64)
        requires
            old(self)@.wf(),
        ensures
            final(self)@.wf(),
            final(self)@ == old(self)@.clear_access(),
            rows == old(self)@.cache.len(),
    {
        let rows = self.cache.len() as u64;
        self.cache = Vec::new();
        assert(self.cache.deep_view() =~= Seq::<CacheRow>::empty());
        rows
    }

    /// Removes the tokens that expire before `now`; gives the number of rows removed.
    pub fn reap_tokens(&mut self, now: i64) -> (rows: u64)
        requires
            old(self)@.wf(),
        ensures
            final(self)@.wf(),
            final(self)@ == old(self)@.reap_tokens(now),
            rows == old(self)@.tokens.len() - final(self)@.tokens.len(),
    {
        let ghost rows_before = self.tokens.deep_view();
        let ghost pred = token_stays(now);
        let mut kept: Vec<TokenRecord> = Vec::new();
        let mut i: usize = 0;
        assert(rows_before.take(0).filter(pred) =~= Seq::<TokenRow>::empty()) by {
            reveal(Seq::filter);
        }
        while i < self.tokens.len()
            invariant
                i <= self.tokens.len(),
                rows_before == self.tokens.deep_view(),
                pred == token_stays(now),
                kept.deep_view() == rows_before.take(i as int).filter(pred),
            decreases self.tokens.len() - i,
        {
            proof {
                lemma_filter_step(rows_before, i as int, pred);
            }
            let ghost before = kept.deep_view();
            if self.tokens[i].expires_at >= now {
                kept.push(self.tokens[i].clone());
                assert(kept.deep_view() =~= before.push(rows_before[i as int]));
            }
            i = i + 1;
        }
        proof {
            assert(rows_before.take(self.tokens.len() as int) == rows_before);
            lemma_filter_distinct(rows_before, token_key(), pred);
            Seq::lemma_filter_len(rows_before, pred);
        }
        let rows = (self.tokens.len() - kept.len()) as u64;
        self.tokens = kept;
        rows
    }

    /// Removes the cache rows that expire before `now`; gives the number of rows removed.
    pub fn reap_access(&mut self, now: i64) -> (rows: u64)
        requires
            old(self)@.wf(),
        ensures
            final(self)@.wf(),
            final(self)@ == old(self)@.reap_access(now),
            rows == old(self)@.cache.len() - final(self)@.cache.len(),
    {
        let ghost rows_before = self.cache.deep_view();
        let ghost pred = cache_stays(now);
        let mut kept: Vec<AccessRow> = Vec::new();
        let mut i: usize = 0;
        assert(rows_before.take(0).filter(pred) =~= Seq::<CacheRow>::empty()) by {
            reveal(Seq::filter);
        }
        while i < self.cache.len()
            invariant
                i <= self.cache.len(),
                rows_before == self.cache.deep_view(),
                pred == cache_stays(now),
                kept.deep_view() == rows_before.take(i as int).filter(pred),
            decreases self.cache.len() - i,
        {
            proof {
                lemma_filter_step(rows_before, i as int, pred);
            }
            let ghost before = kept.deep_view();
            if self.cache[i].expires_at >= now {
                kept.push(self.cache[i].clone());
                assert(kept.deep_view() =~= before.push(rows_before[i as int]));
            }
            i = i + 1;
        }
        proof {
            assert(rows_before.take(self.cache.len() as int) == rows_before);
            lemma_filter_distinct(rows_before, cache_key(), pred);
            Seq::lemma_filter_len(rows_before, pred);
        }
        let rows = (self.cache.len() - kept.len()) as u64;
        self.cache = kept;
        rows
    }
    /// Carries out one statement and gives the answer. In memory a statement
    /// fails only where the store's rules refuse it: a token that is there twice.
    pub fn apply(&mut self, call: StoreCall) -> (answer: StoreAnswer)
        requires
            old(self)@.wf(),
        ensures
            final(self)@.wf(),
            (final(self)@, answer@) == old(self)@.apply(call@),
            old(self)@.answers(call@, final(self)@, answer@),
            answer@ == AnswerView::Failed <==> old(self)@.refuses(call@),
    {
        proof {
            if let CallView::Grants { user_id, service_id } = call@ {
                crate::catalog::lemma_granted_names(self@.catalog, user_id, service_id);
            }
        }
        match call {
            StoreCall::InsertToken { record } => {
                if self.insert_token(record) {
                    StoreAnswer::Done
                } else {
                    StoreAnswer::Failed
                }
            },
            StoreCall::FetchToken { token } => StoreAnswer::Token(self.fetch_token(&token)),
            StoreCall::TouchToken { token, previous, next } => StoreAnswer::Token(
                self.touch_token(&token, previous, next),
            ),
            StoreCall::DeleteToken { token } => StoreAnswer::Rows(self.delete_token(&token)),
            StoreCall::DeleteTokensForUser { user_id } => StoreAnswer::Rows(
                self.delete_tokens_for_user(user_id),
            ),
            StoreCall::LiveTokenForUser { user_id, now } => StoreAnswer::Token(
                self.live_token_for_user(user_id, now),
            ),
            StoreCall::LoadAccess { token, service_id } => StoreAnswer::Access(
                self.load_access_cache(&token, service_id),
            ),
            StoreCall::StoreAccess { row } => {
                self.store_access_cache(&row.token, row.service_id, &row.access, row.expires_at);
                StoreAnswer::Done
            },
            StoreCall::DropAccess { scope } => match scope {
                AccessScope::Pair { user_id, service_id } => StoreAnswer::Rows(
                    self.delete_access_cache(user_id, service_id),
                ),
                AccessScope::User { user_id } => StoreAnswer::Rows(
                    self.delete_access_cache_for_user(user_id),
                ),
                AccessScope::Service { service_id } => StoreAnswer::Rows(
                    self.delete_access_cache_for_service(service_id),
                ),
                AccessScope::All => StoreAnswer::Rows(self.clear_access_cache()),
            },
            StoreCall::ReapTokens { now } => StoreAnswer::Rows(self.reap_tokens(now)),
            StoreCall::ReapAccess { now } => StoreAnswer::Rows(self.reap_access(now)),
            StoreCall::FindAuthUser { username } => StoreAnswer::AuthUser(
                self.catalog.find_auth_user(&username),
            ),
            StoreCall::FindService { id } => StoreAnswer::ServiceData(
                self.catalog.find_service(id),
            ),
            StoreCall::FindId { entity, name } => StoreAnswer::Id(
                self.catalog.find_id(entity, &name),
            ),
            StoreCall::InsertService { name } => {
                match self.catalog.find_id(Entity::Service, &name) {
                    Some(_) => StoreAnswer::Id(None),
                    None => match self.catalog.create_service(name, None) {
                        Some(service) => StoreAnswer::Id(Some(service.id)),
                        None => StoreAnswer::Failed,
                    },
                }
            },
            StoreCall::InsertRole { name } => {
                match self.catalog.find_id(Entity::Role, &name) {
                    Some(_) => StoreAnswer::Id(None),
                    None => match self.catalog.create_role(name) {
                        Some(role) => StoreAnswer::Id(Some(role.id)),
                        None => StoreAnswer::Failed,
                    },
                }
            },
            StoreCall::Link { edge } => {
                self.catalog.link(edge);
                StoreAnswer::Done
            },
            StoreCall::Unlink { edge } => {
                self.catalog.unlink(edge);
                StoreAnswer::Done
            },
            StoreCall::Grants { user_id, service_id } => StoreAnswer::Grants {
                roles: self.catalog.granted_roles(user_id, service_id),
                permissions: self.catalog.granted_permissions(user_id, service_id),
            },
            StoreCall::HoldsPermission { person_id, service_id, permission } => StoreAnswer::Flag(
                self.catalog.holds_permission(person_id, service_id, &permission),
            ),
            StoreCall::CreatePerson { person } => match self.catalog.create_person(person) {
                Some(user) => StoreAnswer::User(Some(user)),
                None => StoreAnswer::Failed,
            },
            StoreCall::CreateService { name, description } => match self.catalog.create_service(
                name,
                description,
            ) {
                Some(service) => StoreAnswer::Service(Some(service)),
                None => StoreAnswer::Failed,
            },
            StoreCall::CreateRole { name } => match self.catalog.create_role(name) {
                Some(role) => StoreAnswer::Named(Some(role)),
                None => StoreAnswer::Failed,
            },
            StoreCall::CreatePermission { name } => match self.catalog.create_permission(name) {
                Some(permission) => StoreAnswer::Named(Some(permission)),
                None => StoreAnswer::Failed,
            },
            StoreCall::ListPeople => StoreAnswer::Users(self.catalog.list_people()),
            StoreCall::GetPerson { id } => StoreAnswer::User(self.catalog.get_person(id)),
            StoreCall::ListServices => StoreAnswer::Services(self.catalog.list_services()),
            StoreCall::ListRoles => StoreAnswer::Names(self.catalog.list_roles()),
            StoreCall::GetRole { id } => StoreAnswer::Named(self.catalog.get_role(id)),
            StoreCall::ListPermissions => StoreAnswer::Names(self.catalog.list_permissions()),
            StoreCall::UpdatePerson { id, new_username, new_password_hash, new_name } => {
                if self.catalog.update_person(id, new_username, new_password_hash, new_name) {
                    StoreAnswer::Done
                } else {
                    StoreAnswer::Failed
                }
            },
            StoreCall::UpdateService { id, new_name, new_description } => {
                if self.catalog.update_service(id, new_name, new_description) {
                    StoreAnswer::Done
                } else {
                    StoreAnswer::Failed
                }
            },
            StoreCall::SetServiceStatus { id, status } => {
                self.catalog.set_service_status(id, status);
                StoreAnswer::Done
            },
            StoreCall::UpdateRole { id, name } => {
                if self.catalog.rename_role(id, name) {
                    StoreAnswer::Done
                } else {
                    StoreAnswer::Failed
                }
            },
            StoreCall::UpdatePermission { id, name } => {
                if self.catalog.rename_permission(id, name) {
                    StoreAnswer::Done
                } else {
                    StoreAnswer::Failed
                }
            },
            StoreCall::DeletePerson { id, now } => {
                self.catalog.remove_person(id, now);
                StoreAnswer::Done
            },
            StoreCall::DeleteService { id } => {
                self.catalog.remove_service(id);
                StoreAnswer::Done
            },
            StoreCall::DeleteRole { id } => {
                self.catalog.remove_role(id);
                StoreAnswer::Done
            },
            StoreCall::DeletePermission { id } => {
                self.catalog.remove_permission(id);
                StoreAnswer::Done
            },
            StoreCall::ListLinked { query } => match query {
                LinkQuery::RolePermissions { role_id } => StoreAnswer::Names(
                    self.catalog.permissions_of_role(role_id),
                ),
                LinkQuery::ServiceRoles { service_id } => StoreAnswer::Names(
                    self.catalog.roles_of_service(service_id),
                ),
                LinkQuery::PersonRoles { person_id, service_id } => StoreAnswer::Names(
                    self.catalog.roles_of_person(person_id, service_id),
                ),
                LinkQuery::PersonsWithRole { service_id, role_id } => StoreAnswer::Users(
                    self.catalog.persons_with_role(service_id, role_id),
                ),
                LinkQuery::ServicesOfPerson { person_id } => StoreAnswer::Services(
                    self.catalog.services_of_person(person_id),
                ),
            },
        }
    }
}

} // verus!
