//! Every exchange and every login comes to an end within the statements it is given.

use crate::exchange::{Exchange, ExchangeState, ExchangeStepView, OperationView, StageView};
use crate::login::{LoginStage, LoginState, LoginStepView, LoginTask};
use crate::protocol::{run, AnswerView, StepView};
use crate::resolve::{ResolveStage, ResolveState, ResolveStepView};
use crate::store::DbState;
use crate::token::TokenConfig;
use crate::validation::{ValidationStage, ValidationState, ValidationStepView};
use vstd::prelude::*;

verus! {

/// The statements that a validation may still put to the store.
pub open spec fn validation_rank(task: ValidationState) -> nat {
    match task.stage {
        ValidationStage::Fetching => 4,
        ValidationStage::Touching => 3,
        ValidationStage::Refetching => 2,
        ValidationStage::Purging => 1,
        ValidationStage::Clearing => 1,
    }
}

/// The statements that a resolution may still put to the store.
pub open spec fn resolve_rank(task: ResolveState) -> nat {
    match task.stage {
        ResolveStage::Looking => 3,
        ResolveStage::Inserting => 2,
        ResolveStage::Relooking => 1,
    }
}

/// A bound on the statements that an exchange may still put to the store,
/// the one in hand included.
pub open spec fn exchange_rank(exchange: ExchangeState) -> nat {
    match exchange.stage {
        StageView::Deciding => 1,
        StageView::Authenticating(task) => 18 + validation_rank(task),
        StageView::ServiceAuthenticating(task) => 4 + validation_rank(task),
        StageView::ResolvingPerson(task) => 15 + resolve_rank(task),
        StageView::ResolvingService(task) => 12 + resolve_rank(task),
        StageView::ResolvingPermission(task) => 8 + resolve_rank(task),
        StageView::LoadingService => 4,
        StageView::LoadingCache => 3,
        StageView::LoadingGrants => 2,
        StageView::StoringCache => 1,
        StageView::IssuingServiceToken => 1,
        StageView::LoggingOut => 1,
        StageView::FindingRole => 8,
        StageView::InsertingRole => 7,
        StageView::RefindingRole => 6,
        StageView::LinkingService => 5,
        StageView::LinkingPermission => 4,
        StageView::LinkingPerson => 3,
        StageView::Acting => 3,
        StageView::Invalidating => 2,
        StageView::Revoking => 1,
    }
}

/// The bound of a step: nothing for one that has finished.
pub open spec fn step_rank(step: ExchangeStepView) -> nat {
    match step {
        StepView::Call(exchange, _) => exchange_rank(exchange),
        StepView::Finish(_) => 0,
    }
}

/// The bound of a step of a validation.
pub open spec fn validation_step_rank(step: ValidationStepView) -> nat {
    match step {
        StepView::Call(task, _) => validation_rank(task),
        StepView::Finish(_) => 0,
    }
}

/// The bound of a step of a resolution.
pub open spec fn resolve_step_rank(step: ResolveStepView) -> nat {
    match step {
        StepView::Call(task, _) => resolve_rank(task),
        StepView::Finish(_) => 0,
    }
}

proof fn lemma_after_permission(exchange: ExchangeState, step: ResolveStepView)
    ensures
        step_rank(exchange.follow_permission(step)) <= 8 + resolve_step_rank(step),
{
}

proof fn lemma_after_service(exchange: ExchangeState)
    ensures
        step_rank(exchange.after_service()) <= 11,
{
    match exchange.operation {
        OperationView::Grant { person, service, permission } => {
            lemma_after_permission(
                exchange,
                ResolveState::begin(crate::resolve::ResolveKind::Permission, permission),
            );
        },
        _ => {},
    }
}

proof fn lemma_follow_service(exchange: ExchangeState, step: ResolveStepView)
    ensures
        step_rank(exchange.follow_service(step)) <= 12 + resolve_step_rank(step),
{
    match step {
        StepView::Finish(Ok(service_id)) => {
            lemma_after_service(ExchangeState { service_id, ..exchange });
        },
        _ => {},
    }
}

proof fn lemma_after_person(exchange: ExchangeState)
    ensures
        step_rank(exchange.after_person()) <= 15,
{
    match exchange.operation {
        OperationView::Grant { person, service, permission } => {
            lemma_follow_service(
                exchange,
                ResolveState::begin(crate::resolve::ResolveKind::Service, service),
            );
        },
        OperationView::Admin { command } => {
            match command.service_identifier() {
                Some(identifier) => {
                    lemma_follow_service(
                        exchange,
                        ResolveState::begin(
                            if command.creates_service() {
                                crate::resolve::ResolveKind::ServiceOrCreate
                            } else {
                                crate::resolve::ResolveKind::Service
                            },
                            identifier,
                        ),
                    );
                },
                None => {
                    lemma_after_service(exchange);
                },
            }
        },
        _ => {},
    }
}

proof fn lemma_follow_person(exchange: ExchangeState, step: ResolveStepView)
    ensures
        step_rank(exchange.follow_person(step)) <= 15 + resolve_step_rank(step),
{
    match step {
        StepView::Finish(Ok(person_id)) => {
            lemma_after_person(ExchangeState { person_id, ..exchange });
        },
        _ => {},
    }
}

proof fn lemma_follow_service_auth(exchange: ExchangeState, step: ValidationStepView)
    ensures
        step_rank(exchange.follow_service_auth(step)) <= 4 + validation_step_rank(step),
{
}

proof fn lemma_after_auth(exchange: ExchangeState)
    ensures
        step_rank(exchange.after_auth()) <= 18,
{
    match exchange.operation {
        OperationView::CheckAccess { service_token, named_service, permission_name } => {
            match (service_token, named_service) {
                (Some(token), None) => {
                    lemma_follow_service_auth(
                        exchange,
                        ValidationState::begin(
                            token,
                            false,
                            exchange.config.service_ttl_seconds,
                            exchange.now,
                            exchange.config,
                        ),
                    );
                },
                (None, Some(identifier)) => {
                    lemma_follow_service(
                        exchange,
                        ResolveState::begin(crate::resolve::ResolveKind::Service, identifier),
                    );
                },
                _ => {},
            }
        },
        OperationView::Grant { person, service, permission } => {
            lemma_follow_person(
                exchange,
                ResolveState::begin(crate::resolve::ResolveKind::Person, person),
            );
        },
        OperationView::Admin { command } => {
            match command.person_identifier() {
                Some(identifier) => {
                    lemma_follow_person(
                        exchange,
                        ResolveState::begin(crate::resolve::ResolveKind::Person, identifier),
                    );
                },
                None => {
                    lemma_after_person(exchange);
                },
            }
        },
        _ => {},
    }
}

proof fn lemma_follow_auth(exchange: ExchangeState, step: ValidationStepView)
    ensures
        step_rank(exchange.follow_auth(step)) <= 18 + validation_step_rank(step),
{
    match step {
        StepView::Finish(Ok(validation)) => {
            lemma_after_auth(ExchangeState { session: Some(validation), ..exchange });
        },
        _ => {},
    }
}

/// Every answer brings an exchange nearer to its end.
pub proof fn lemma_exchange_nears_its_end(exchange: ExchangeState, answer: AnswerView)
    ensures
        step_rank(exchange.advance(answer)) < exchange_rank(exchange),
{
    let idle = exchange.at(StageView::Deciding);
    match exchange.stage {
        StageView::Authenticating(task) => {
            lemma_follow_auth(idle, task.advance(answer));
        },
        StageView::ServiceAuthenticating(task) => {
            lemma_follow_service_auth(idle, task.advance(answer));
        },
        StageView::ResolvingPerson(task) => {
            lemma_follow_person(idle, task.advance(answer));
        },
        StageView::ResolvingService(task) => {
            lemma_follow_service(idle, task.advance(answer));
        },
        StageView::ResolvingPermission(task) => {
            lemma_after_permission(idle, task.advance(answer));
        },
        _ => {},
    }
}

/// An exchange that is given as many statements as its bound comes to an end.
pub proof fn lemma_exchange_ends(db: DbState, step: ExchangeStepView, fuel: nat)
    requires
        step_rank(step) <= fuel,
    ensures
        run::<Exchange>(db, step, fuel).1 is Some,
    decreases fuel,
{
    match step {
        StepView::Finish(_) => {},
        StepView::Call(exchange, call) => {
            let answer = db.apply(call).1;
            lemma_exchange_nears_its_end(exchange, answer);
            lemma_exchange_ends(db.apply(call).0, exchange.advance(answer), (fuel - 1) as nat);
        },
    }
}

/// Every exchange answers: forty statements are more than any exchange puts
/// to the store.
pub proof fn lemma_exchange_always_answers(
    db: DbState,
    user_token: Option<Seq<char>>,
    operation: OperationView,
    now: i64,
    config: TokenConfig,
    fresh_token: Seq<char>,
    salt: Seq<u8>,
)
    ensures
        run::<Exchange>(
            db,
            ExchangeState::begin(user_token, operation, now, config, fresh_token, salt),
            40,
        ).1 is Some,
{
    let step = ExchangeState::begin(user_token, operation, now, config, fresh_token, salt);
    match user_token {
        Some(token) => {
            let first = ValidationState::begin(
                token,
                !(operation is Logout),
                config.ttl_seconds,
                now,
                config,
            );
            let empty = ExchangeState {
                operation,
                token,
                now,
                config,
                user_until: (now + config.ttl_seconds) as i64,
                service_until: (now + config.service_ttl_seconds) as i64,
                fresh_token,
                salt,
                session: None,
                person_id: 0,
                service_id: 0,
                permission_id: 0,
                role_id: 0,
                via_service_token: false,
                service_name: Seq::empty(),
                access: None,
                pending: None,
                stage: StageView::Deciding,
            };
            lemma_follow_auth(empty, first);
        },
        None => {},
    }
    lemma_exchange_ends(db, step, 40);
}

/// The statements that a login may still put to the store.
pub open spec fn login_rank(step: LoginStepView) -> nat {
    match step {
        StepView::Call(task, _) => match task.stage {
            LoginStage::FindingUser => 3,
            LoginStage::FindingToken => 2,
            LoginStage::Issuing => 1,
        },
        StepView::Finish(_) => 0,
    }
}

/// A login that is given as many statements as its bound comes to an end.
pub proof fn lemma_login_ends(db: DbState, step: LoginStepView, fuel: nat)
    requires
        login_rank(step) <= fuel,
    ensures
        run::<LoginTask>(db, step, fuel).1 is Some,
    decreases fuel,
{
    match step {
        StepView::Finish(_) => {},
        StepView::Call(task, call) => {
            let answer = db.apply(call).1;
            lemma_login_ends(db.apply(call).0, task.advance(answer), (fuel - 1) as nat);
        },
    }
}

/// Every login answers within four statements.
pub proof fn lemma_login_always_answers(
    db: DbState,
    payload: Option<(Seq<char>, Seq<char>)>,
    now: i64,
    config: TokenConfig,
    fresh_token: Seq<char>,
)
    ensures
        run::<LoginTask>(db, LoginState::begin(payload, now, config, fresh_token), 4).1 is Some,
{
    lemma_login_ends(db, LoginState::begin(payload, now, config, fresh_token), 4);
}

} // verus!
