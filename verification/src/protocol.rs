//! The statements that the service puts to its store, and the answers it gets.
//!
//! Every operation of the service is written as a task that hands out one
//! statement at a time and takes the answer to it. Whoever holds the store, in
//! memory or behind a connection, runs the statement and hands the answer back.

use crate::access::{AccessCacheRecord, AccessEntry};
use crate::entities::{
    text_of, AuthUser, AuthUserView, Edge, Entity, LinkQuery, NameRow, Named, NewPerson,
    NewPersonView, Service, ServiceDataView, ServiceTokenData, ServiceView, User, UserView,
};
use crate::store::{AccessRow, CacheRow, DbState, DB};
use crate::token::{TokenRecord, TokenRow};
use vstd::prelude::*;

verus! {

/// Which rows of the cache a statement removes.
#[derive(Clone, Copy, Debug, PartialEq, Eq, Structural)]
pub enum AccessScope {
    /// The rows of one service that belong to a token of one person.
    Pair { user_id: i32, service_id: i32 },
    /// The rows that belong to a token of one person.
    User { user_id: i32 },
    /// The rows of one service.
    Service { service_id: i32 },
    /// Every row.
    All,
}

/// One statement put to the store.
pub enum StoreCall {
    /// Add a row to the tokens; fails where the token is there already.
    InsertToken { record: TokenRecord },
    /// Read the row of a token.
    FetchToken { token: String },
    /// Move the expiry of a token from `previous` to `next`, and read the new
    /// row; no row where the token is gone or expires at another time.
    TouchToken { token: String, previous: i64, next: i64 },
    /// Remove the row of a token, and what the cache holds under the token.
    DeleteToken { token: String },
    /// Remove the tokens of a person, and what the cache holds under them.
    DeleteTokensForUser { user_id: i32 },
    /// Read the newest token of a person that has not expired at `now`.
    LiveTokenForUser { user_id: i32, now: i64 },
    /// Read what the cache holds for a token in a service.
    LoadAccess { token: String, service_id: i32 },
    /// Write a row to the cache, over the row with its key where there is one.
    StoreAccess { row: AccessRow },
    /// Remove rows of the cache.
    DropAccess { scope: AccessScope },
    /// Remove the tokens that expire before `now`.
    ReapTokens { now: i64 },
    /// Remove the cache rows that expire before `now`.
    ReapAccess { now: i64 },
    /// Read what a login needs of the person with a user name, unless removed.
    FindAuthUser { username: String },
    /// Read the id, the name and the state of a service.
    FindService { id: i32 },
    /// Read the id of the entity with a name; of persons only those not removed.
    FindId { entity: Entity, name: String },
    /// Create a service of a name unless there is one; the new id, or none
    /// where the name was taken.
    InsertService { name: String },
    /// Create a role of a name unless there is one; the new id, or none where
    /// the name was taken.
    InsertRole { name: String },
    /// Put an edge into the catalog unless it is there.
    Link { edge: Edge },
    /// Take an edge out of the catalog.
    Unlink { edge: Edge },
    /// Read the names of the roles that a person has in a service, and of the
    /// permissions that these confer, in any order.
    Grants { user_id: i32, service_id: i32 },
    /// Ask whether a person holds a permission in a service.
    HoldsPermission { person_id: i32, service_id: i32, permission: String },
    /// Create a person; fails where the user name is taken.
    CreatePerson { person: NewPerson },
    /// Create a service; fails where the name is taken.
    CreateService { name: String, description: Option<String> },
    /// Create a role; fails where the name is taken.
    CreateRole { name: String },
    /// Create a permission; fails where the name is taken.
    CreatePermission { name: String },
    /// List the persons that have not been removed.
    ListPeople,
    /// Read a person, unless removed.
    GetPerson { id: i32 },
    /// List the services.
    ListServices,
    /// List the roles.
    ListRoles,
    /// Read a role.
    GetRole { id: i32 },
    /// List the permissions.
    ListPermissions,
    /// Change what is given of a person; fails where the user name is taken.
    UpdatePerson {
        id: i32,
        new_username: Option<String>,
        new_password_hash: Option<String>,
        new_name: Option<String>,
    },
    /// Change what is given of a service; fails where the name is taken.
    UpdateService { id: i32, new_name: Option<String>, new_description: Option<String> },
    /// Switch a service on or off.
    SetServiceStatus { id: i32, status: bool },
    /// Rename a role; fails where the name is taken.
    UpdateRole { id: i32, name: String },
    /// Rename a permission; fails where the name is taken.
    UpdatePermission { id: i32, name: String },
    /// Mark a person as removed at `now`.
    DeletePerson { id: i32, now: i64 },
    /// Remove a service and the edges that name it.
    DeleteService { id: i32 },
    /// Remove a role and the edges that name it.
    DeleteRole { id: i32 },
    /// Remove a permission and the edges that name it.
    DeletePermission { id: i32 },
    /// List along the edges of the catalog.
    ListLinked { query: LinkQuery },
}

/// A statement as plain values.
pub enum CallView {
    InsertToken { record: TokenRow },
    FetchToken { token: Seq<char> },
    TouchToken { token: Seq<char>, previous: i64, next: i64 },
    DeleteToken { token: Seq<char> },
    DeleteTokensForUser { user_id: i32 },
    LiveTokenForUser { user_id: i32, now: i64 },
    LoadAccess { token: Seq<char>, service_id: i32 },
    StoreAccess { row: CacheRow },
    DropAccess { scope: AccessScope },
    ReapTokens { now: i64 },
    ReapAccess { now: i64 },
    FindAuthUser { username: Seq<char> },
    FindService { id: i32 },
    FindId { entity: Entity, name: Seq<char> },
    InsertService { name: Seq<char> },
    InsertRole { name: Seq<char> },
    Link { edge: Edge },
    Unlink { edge: Edge },
    Grants { user_id: i32, service_id: i32 },
    HoldsPermission { person_id: i32, service_id: i32, permission: Seq<char> },
    CreatePerson { person: NewPersonView },
    CreateService { name: Seq<char>, description: Option<Seq<char>> },
    CreateRole { name: Seq<char> },
    CreatePermission { name: Seq<char> },
    ListPeople,
    GetPerson { id: i32 },
    ListServices,
    ListRoles,
    GetRole { id: i32 },
    ListPermissions,
    UpdatePerson {
        id: i32,
        new_username: Option<Seq<char>>,
        new_password_hash: Option<Seq<char>>,
        new_name: Option<Seq<char>>,
    },
    UpdateService { id: i32, new_name: Option<Seq<char>>, new_description: Option<Seq<char>> },
    SetServiceStatus { id: i32, status: bool },
    UpdateRole { id: i32, name: Seq<char> },
    UpdatePermission { id: i32, name: Seq<char> },
    DeletePerson { id: i32, now: i64 },
    DeleteService { id: i32 },
    DeleteRole { id: i32 },
    DeletePermission { id: i32 },
    ListLinked { query: LinkQuery },
}

impl View for StoreCall {
    type V = CallView;

    open spec fn view(&self) -> CallView {
        match *self {
            StoreCall::InsertToken { record } => CallView::InsertToken { record: record@ },
            StoreCall::FetchToken { token } => CallView::FetchToken { token: token@ },
            StoreCall::TouchToken { token, previous, next } => CallView::TouchToken {
                token: token@,
                previous,
                next,
            },
            StoreCall::DeleteToken { token } => CallView::DeleteToken { token: token@ },
            StoreCall::DeleteTokensForUser { user_id } => CallView::DeleteTokensForUser {
                user_id,
            },
            StoreCall::LiveTokenForUser { user_id, now } => CallView::LiveTokenForUser {
                user_id,
                now,
            },
            StoreCall::LoadAccess { token, service_id } => CallView::LoadAccess {
                token: token@,
                service_id,
            },
            StoreCall::StoreAccess { row } => CallView::StoreAccess { row: row@ },
            StoreCall::DropAccess { scope } => CallView::DropAccess { scope },
            StoreCall::ReapTokens { now } => CallView::ReapTokens { now },
            StoreCall::ReapAccess { now } => CallView::ReapAccess { now },
            StoreCall::FindAuthUser { username } => CallView::FindAuthUser {
                username: username@,
            },
            StoreCall::FindService { id } => CallView::FindService { id },
            StoreCall::FindId { entity, name } => CallView::FindId { entity, name: name@ },
            StoreCall::InsertService { name } => CallView::InsertService { name: name@ },
            StoreCall::InsertRole { name } => CallView::InsertRole { name: name@ },
            StoreCall::Link { edge } => CallView::Link { edge },
            StoreCall::Unlink { edge } => CallView::Unlink { edge },
            StoreCall::Grants { user_id, service_id } => CallView::Grants { user_id, service_id },
            StoreCall::HoldsPermission {
                person_id,
                service_id,
                permission,
            } => CallView::HoldsPermission { person_id, service_id, permission: permission@ },
            StoreCall::CreatePerson { person } => CallView::CreatePerson { person: person@ },
            StoreCall::CreateService { name, description } => CallView::CreateService {
                name: name@,
                description: text_of(description),
            },
            StoreCall::CreateRole { name } => CallView::CreateRole { name: name@ },
            StoreCall::CreatePermission { name } => CallView::CreatePermission { name: name@ },
            StoreCall::ListPeople => CallView::ListPeople,
            StoreCall::GetPerson { id } => CallView::GetPerson { id },
            StoreCall::ListServices => CallView::ListServices,
            StoreCall::ListRoles => CallView::ListRoles,
            StoreCall::GetRole { id } => CallView::GetRole { id },
            StoreCall::ListPermissions => CallView::ListPermissions,
            StoreCall::UpdatePerson {
                id,
                new_username,
                new_password_hash,
                new_name,
            } => CallView::UpdatePerson {
                id,
                new_username: text_of(new_username),
                new_password_hash: text_of(new_password_hash),
                new_name: text_of(new_name),
            },
            StoreCall::UpdateService {
                id,
                new_name,
                new_description,
            } => CallView::UpdateService {
                id,
                new_name: text_of(new_name),
                new_description: text_of(new_description),
            },
            StoreCall::SetServiceStatus { id, status } => CallView::SetServiceStatus {
                id,
                status,
            },
            StoreCall::UpdateRole { id, name } => CallView::UpdateRole { id, name: name@ },
            StoreCall::UpdatePermission { id, name } => CallView::UpdatePermission {
                id,
                name: name@,
            },
            StoreCall::DeletePerson { id, now } => CallView::DeletePerson { id, now },
            StoreCall::DeleteService { id } => CallView::DeleteService { id },
            StoreCall::DeleteRole { id } => CallView::DeleteRole { id },
            StoreCall::DeletePermission { id } => CallView::DeletePermission { id },
            StoreCall::ListLinked { query } => CallView::ListLinked { query },
        }
    }
}

/// What the store answers to a statement.
pub enum StoreAnswer {
    /// The statement failed; nothing is known of the store's state.
    Failed,
    /// The statement was carried out.
    Done,
    /// The statement was carried out and changed this many rows.
    Rows(u64),
    /// A row of the tokens, or none.
    Token(Option<TokenRecord>),
    /// An entry of the cache, or none.
    Access(Option<AccessCacheRecord>),
    /// What a login reads of a person, or none.
    AuthUser(Option<AuthUser>),
    /// The state of a service, or none.
    ServiceData(Option<ServiceTokenData>),
    /// An id, or none.
    Id(Option<i32>),
    /// Names of roles and of permissions, in any order.
    Grants { roles: Vec<String>, permissions: Vec<String> },
    /// Yes or no.
    Flag(bool),
    /// A person, or none.
    User(Option<User>),
    /// Persons.
    Users(Vec<User>),
    /// A service, or none.
    Service(Option<Service>),
    /// Services.
    Services(Vec<Service>),
    /// A role or a permission, or none.
    Named(Option<NameRow>),
    /// Roles or permissions.
    Names(Vec<NameRow>),
}

/// An answer as plain values.
pub enum AnswerView {
    Failed,
    Done,
    Rows(u64),
    Token(Option<TokenRow>),
    Access(Option<AccessEntry>),
    AuthUser(Option<AuthUserView>),
    ServiceData(Option<ServiceDataView>),
    Id(Option<i32>),
    Grants { roles: Seq<Seq<char>>, permissions: Seq<Seq<char>> },
    Flag(bool),
    User(Option<UserView>),
    Users(Seq<UserView>),
    Service(Option<ServiceView>),
    Services(Seq<ServiceView>),
    Named(Option<Named>),
    Names(Seq<Named>),
}

impl View for StoreAnswer {
    type V = AnswerView;

    open spec fn view(&self) -> AnswerView {
        match *self {
            StoreAnswer::Failed => AnswerView::Failed,
            StoreAnswer::Done => AnswerView::Done,
            StoreAnswer::Rows(rows) => AnswerView::Rows(rows),
            StoreAnswer::Token(row) => AnswerView::Token(row.deep_view()),
            StoreAnswer::Access(entry) => AnswerView::Access(entry.deep_view()),
            StoreAnswer::AuthUser(user) => AnswerView::AuthUser(user.deep_view()),
            StoreAnswer::ServiceData(service) => AnswerView::ServiceData(service.deep_view()),
            StoreAnswer::Id(id) => AnswerView::Id(id),
            StoreAnswer::Grants { roles, permissions } => AnswerView::Grants {
                roles: roles.deep_view(),
                permissions: permissions.deep_view(),
            },
            StoreAnswer::Flag(flag) => AnswerView::Flag(flag),
            StoreAnswer::User(user) => AnswerView::User(user.deep_view()),
            StoreAnswer::Users(users) => AnswerView::Users(users.deep_view()),
            StoreAnswer::Service(service) => AnswerView::Service(service.deep_view()),
            StoreAnswer::Services(services) => AnswerView::Services(services.deep_view()),
            StoreAnswer::Named(row) => AnswerView::Named(row.deep_view()),
            StoreAnswer::Names(rows) => AnswerView::Names(rows.deep_view()),
        }
    }
}

/// What a task does next: put a statement to the store and go on from its
/// answer, or finish with a result.
pub enum Step<S, R> {
    Call(S, StoreCall),
    Finish(R),
}

/// A step as plain values.
pub enum StepView<S, R> {
    Call(S, CallView),
    Finish(R),
}

/// A task that runs against the store one statement at a time.
pub trait Task: Sized {
    /// The task as plain values.
    type State;

    /// What the task ends with.
    type Outcome;

    /// What the task ends with, as plain values.
    type OutcomeView;

    /// The task as plain values.
    spec fn state(&self) -> Self::State;

    /// An outcome as plain values.
    spec fn outcome_view(outcome: &Self::Outcome) -> Self::OutcomeView;

    /// The step that follows the store's answer.
    spec fn next(state: Self::State, answer: AnswerView) -> StepView<
        Self::State,
        Self::OutcomeView,
    >;

    /// Takes the store's answer to the statement last handed out and gives
    /// the next step.
    fn step(self, answer: StoreAnswer) -> (step: Step<Self, Self::Outcome>)
        ensures
            match step {
                Step::Call(task, call) => Self::next(self.state(), answer@) == StepView::<
                    Self::State,
                    Self::OutcomeView,
                >::Call(task.state(), call@),
                Step::Finish(outcome) => Self::next(self.state(), answer@) == StepView::<
                    Self::State,
                    Self::OutcomeView,
                >::Finish(Self::outcome_view(&outcome)),
            },
    ;
}

/// A step of a task as plain values.
pub open spec fn task_step_view<T: Task>(step: Step<T, T::Outcome>) -> StepView<
    T::State,
    T::OutcomeView,
> {
    match step {
        Step::Call(task, call) => StepView::Call(task.state(), call@),
        Step::Finish(outcome) => StepView::Finish(T::outcome_view(&outcome)),
    }
}

/// What a task that stands at `step` does to the tables in memory, and what
/// it ends with, when nothing else touches the tables meanwhile and it is
/// given `fuel` statements at most; no outcome where these do not suffice.
pub open spec fn run<T: Task>(
    db: DbState,
    step: StepView<T::State, T::OutcomeView>,
    fuel: nat,
) -> (DbState, Option<T::OutcomeView>)
    decreases fuel,
{
    match step {
        StepView::Finish(outcome) => (db, Some(outcome)),
        StepView::Call(state, call) => if fuel == 0 {
            (db, None)
        } else {
            run::<T>(db.apply(call).0, T::next(state, db.apply(call).1), (fuel - 1) as nat)
        },
    }
}

/// A task that hands out a statement goes on, with one statement less to
/// spend, from what the tables in memory make of it.
pub proof fn lemma_run_step<T: Task>(db: DbState, state: T::State, call: CallView, fuel: nat)
    requires
        fuel > 0,
    ensures
        run::<T>(db, StepView::Call(state, call), fuel) == run::<T>(
            db.apply(call).0,
            T::next(state, db.apply(call).1),
            (fuel - 1) as nat,
        ),
{
}

/// A task that has finished leaves the tables as they are.
pub proof fn lemma_run_done<T: Task>(db: DbState, outcome: T::OutcomeView, fuel: nat)
    ensures
        run::<T>(db, StepView::Finish(outcome), fuel) == (db, Some(outcome)),
{
}

/// A task that ends within some number of statements ends the same way when
/// it is given more.
pub proof fn lemma_run_more<T: Task>(
    db: DbState,
    step: StepView<T::State, T::OutcomeView>,
    fuel: nat,
    more: nat,
)
    requires
        fuel <= more,
        run::<T>(db, step, fuel).1 is Some,
    ensures
        run::<T>(db, step, more) == run::<T>(db, step, fuel),
    decreases fuel,
{
    match step {
        StepView::Finish(outcome) => {},
        StepView::Call(state, call) => {
            lemma_run_more::<T>(
                db.apply(call).0,
                T::next(state, db.apply(call).1),
                (fuel - 1) as nat,
                (more - 1) as nat,
            );
        },
    }
}

/// An optional outcome as plain values.
pub open spec fn ended_view<T: Task>(outcome: Option<T::Outcome>) -> Option<T::OutcomeView> {
    match outcome {
        Some(outcome) => Some(T::outcome_view(&outcome)),
        None => None,
    }
}

/// Runs a task against the tables in memory, for `fuel` statements at most.
pub fn drive<T: Task>(db: &mut DB, first: Step<T, T::Outcome>, fuel: usize) -> (r: Option<
    T::Outcome,
>)
    requires
        old(db)@.wf(),
    ensures
        final(db)@.wf(),
        (final(db)@, ended_view::<T>(r)) == run::<T>(
            old(db)@,
            task_step_view::<T>(first),
            fuel as nat,
        ),
{
    let mut step = first;
    let mut left = fuel;
    loop
        invariant
            db@.wf(),
            run::<T>(db@, task_step_view::<T>(step), left as nat) == run::<T>(
                old(db)@,
                task_step_view::<T>(first),
                fuel as nat,
            ),
        decreases left,
    {
        match step {
            Step::Finish(outcome) => {
                return Some(outcome);
            },
            Step::Call(task, call) => {
                if left == 0 {
                    return None;
                }
                let answer = db.apply(call);
                step = task.step(answer);
                left = left - 1;
            },
        }
    }
}

} // verus!
