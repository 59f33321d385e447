//! From an identifier as it arrives to the id of a person, a service or a
//! permission.
//!
//! A number is the id. A text is looked up: a service or a permission by its
//! name, a person by their user name; a text of the form `person-` and digits
//! names the person with those digits for an id. A service may be created
//! where it is missing.

use crate::entities::Entity;
use crate::flexible::{slice_chars, FlexibleId, FlexibleIdView};
use crate::http::ErrorCode;
use crate::protocol::{AnswerView, CallView, Step, StepView, StoreAnswer, StoreCall};
use crate::text::{
    all_digits, chars_of, chars_start_with, only_digits, parse_i32_chars, parse_i32_spec,
    starts_with, string_of_range, trim_bounds, trimmed,
};
use vstd::prelude::*;
use vstd::string::*;

verus! {

/// What an identifier is to be resolved to.
#[derive(Clone, Copy, Debug, PartialEq, Eq, Structural)]
pub enum ResolveKind {
    Person,
    /// A service that must be there.
    Service,
    /// A service that is created where it is missing.
    ServiceOrCreate,
    Permission,
}

impl ResolveKind {
    /// The table that is searched.
    pub open spec fn entity(self) -> Entity {
        match self {
            ResolveKind::Person => Entity::Person,
            ResolveKind::Service | ResolveKind::ServiceOrCreate => Entity::Service,
            ResolveKind::Permission => Entity::Permission,
        }
    }

    /// The failure for an identifier that is empty.
    pub open spec fn invalid(self) -> ErrorCode {
        match self {
            ResolveKind::Person => ErrorCode::InvalidPersonId,
            ResolveKind::Service | ResolveKind::ServiceOrCreate => ErrorCode::InvalidServiceId,
            ResolveKind::Permission => ErrorCode::InvalidPermissionId,
        }
    }

    /// The failure for a name that nothing has.
    pub open spec fn missing(self) -> ErrorCode {
        match self {
            ResolveKind::Person => ErrorCode::PersonNotFound,
            ResolveKind::Service | ResolveKind::ServiceOrCreate => ErrorCode::InvalidServiceId,
            ResolveKind::Permission => ErrorCode::PermissionNotFound,
        }
    }

    /// The failure for a store that failed.
    pub open spec fn failed(self) -> ErrorCode {
        match self {
            ResolveKind::Person => ErrorCode::ResolvePersonFailed,
            ResolveKind::Service | ResolveKind::ServiceOrCreate => ErrorCode::ResolveServiceFailed,
            ResolveKind::Permission => ErrorCode::ResolvePermissionFailed,
        }
    }

    fn to_entity(self) -> (r: Entity)
        ensures
            r == self.entity(),
    {
        match self {
            ResolveKind::Person => Entity::Person,
            ResolveKind::Service | ResolveKind::ServiceOrCreate => Entity::Service,
            ResolveKind::Permission => Entity::Permission,
        }
    }

    fn invalid_code(self) -> (r: ErrorCode)
        ensures
            r == self.invalid(),
    {
        match self {
            ResolveKind::Person => ErrorCode::InvalidPersonId,
            ResolveKind::Service | ResolveKind::ServiceOrCreate => ErrorCode::InvalidServiceId,
            ResolveKind::Permission => ErrorCode::InvalidPermissionId,
        }
    }

    fn missing_code(self) -> (r: ErrorCode)
        ensures
            r == self.missing(),
    {
        match self {
            ResolveKind::Person => ErrorCode::PersonNotFound,
            ResolveKind::Service | ResolveKind::ServiceOrCreate => ErrorCode::InvalidServiceId,
            ResolveKind::Permission => ErrorCode::PermissionNotFound,
        }
    }

    fn failed_code(self) -> (r: ErrorCode)
        ensures
            r == self.failed(),
    {
        match self {
            ResolveKind::Person => ErrorCode::ResolvePersonFailed,
            ResolveKind::Service | ResolveKind::ServiceOrCreate => ErrorCode::ResolveServiceFailed,
            ResolveKind::Permission => ErrorCode::ResolvePermissionFailed,
        }
    }
}

/// Where a resolution stands.
#[derive(Clone, Copy, Debug, PartialEq, Eq, Structural)]
pub enum ResolveStage {
    /// The name was looked up.
    Looking,
    /// The name was missing and the service was sent for creation.
    Inserting,
    /// Another creation came first and the name was looked up again.
    Relooking,
}

/// A resolution under way.
pub struct ResolveTask {
    kind: ResolveKind,
    name: String,
    stage: ResolveStage,
}

/// A resolution under way, as plain values.
pub struct ResolveState {
    pub kind: ResolveKind,
    pub name: Seq<char>,
    pub stage: ResolveStage,
}

impl View for ResolveTask {
    type V = ResolveState;

    closed spec fn view(&self) -> ResolveState {
        ResolveState { kind: self.kind, name: self.name@, stage: self.stage }
    }
}

/// The next step of a resolution.
pub type ResolveStep = Step<ResolveTask, Result<i32, ErrorCode>>;

/// The next step of a resolution, as plain values.
pub type ResolveStepView = StepView<ResolveState, Result<i32, ErrorCode>>;

/// A step of a resolution as plain values.
pub open spec fn resolve_step_view(step: ResolveStep) -> ResolveStepView {
    match step {
        Step::Call(task, call) => StepView::Call(task@, call@),
        Step::Finish(outcome) => StepView::Finish(outcome),
    }
}

/// The id that a text of the form `person-` and digits names; nothing for a
/// text of another form, or for digits that do not fit in 32 bits.
pub open spec fn person_number(name: Seq<char>) -> Option<i32> {
    let digits = name.skip("person-"@.len() as int);
    if starts_with(name, "person-"@) && digits.len() > 0 && all_digits(digits) {
        parse_i32_spec(digits)
    } else {
        None
    }
}

/// Reads the id from a text of the form `person-` and digits.
pub fn parse_person_number(name: &Vec<char>) -> (r: Option<i32>)
    ensures
        r == person_number(name@),
{
    let prefix = chars_of("person-");
    if !chars_start_with(name, &prefix) {
        return None;
    }
    let digits = slice_chars(name, prefix.len(), name.len());
    assert(digits@ == name@.skip("person-"@.len() as int));
    if digits.len() > 0 && only_digits(&digits) {
        parse_i32_chars(&digits)
    } else {
        None
    }
}

impl ResolveState {
    /// The first step: the id where the identifier gives it, else the lookup
    /// of the trimmed name, else the failure for an empty identifier.
    pub open spec fn begin(kind: ResolveKind, identifier: FlexibleIdView) -> ResolveStepView {
        match identifier.parse_int() {
            Some(id) => StepView::Finish(Ok(id)),
            None => match identifier.as_text() {
                None => StepView::Finish(Err(kind.invalid())),
                Some(text) => {
                    let name = trimmed(text);
                    if kind == ResolveKind::Person && person_number(name) is Some {
                        StepView::Finish(Ok(person_number(name).unwrap()))
                    } else if name.len() == 0 {
                        StepView::Finish(Err(kind.invalid()))
                    } else {
                        StepView::Call(
                            ResolveState { kind, name, stage: ResolveStage::Looking },
                            CallView::FindId { entity: kind.entity(), name },
                        )
                    }
                },
            },
        }
    }

    /// The step that follows the store's answer.
    pub open spec fn advance(self, answer: AnswerView) -> ResolveStepView {
        match answer {
            AnswerView::Id(Some(id)) => StepView::Finish(Ok(id)),
            AnswerView::Id(None) => match self.stage {
                ResolveStage::Looking => if self.kind == ResolveKind::ServiceOrCreate {
                    StepView::Call(
                        ResolveState { stage: ResolveStage::Inserting, ..self },
                        CallView::InsertService { name: self.name },
                    )
                } else {
                    StepView::Finish(Err(self.kind.missing()))
                },
                ResolveStage::Inserting => StepView::Call(
                    ResolveState { stage: ResolveStage::Relooking, ..self },
                    CallView::FindId { entity: self.kind.entity(), name: self.name },
                ),
                ResolveStage::Relooking => StepView::Finish(Err(self.kind.failed())),
            },
            _ => StepView::Finish(Err(self.kind.failed())),
        }
    }
}

impl ResolveTask {
    /// Starts the resolution of an identifier.
    pub fn begin(kind: ResolveKind, identifier: &FlexibleId) -> (step: ResolveStep)
        ensures
            resolve_step_view(step) == ResolveState::begin(kind, identifier@),
    {
        match identifier.parse_int() {
            Some(id) => Step::Finish(Ok(id)),
            None => match identifier.as_str() {
                None => Step::Finish(Err(kind.invalid_code())),
                Some(text) => {
                    let chars = chars_of(text);
                    let (a, b) = trim_bounds(&chars);
                    let name = string_of_range(&chars, a, b);
                    let inner = chars_of(name.as_str());
                    let is_person = match kind {
                        ResolveKind::Person => true,
                        _ => false,
                    };
                    if is_person {
                        match parse_person_number(&inner) {
                            Some(id) => {
                                return Step::Finish(Ok(id));
                            },
                            None => {},
                        }
                    }
                    if a == b {
                        Step::Finish(Err(kind.invalid_code()))
                    } else {
                        Step::Call(
                            ResolveTask { kind, name: name.clone(), stage: ResolveStage::Looking },
                            StoreCall::FindId { entity: kind.to_entity(), name },
                        )
                    }
                },
            },
        }
    }

    /// Takes the store's answer and gives the next step.
    pub fn advance(self, answer: StoreAnswer) -> (step: ResolveStep)
        ensures
            resolve_step_view(step) == self@.advance(answer@),
    {
        match answer {
            StoreAnswer::Id(Some(id)) => Step::Finish(Ok(id)),
            StoreAnswer::Id(None) => match self.stage {
                ResolveStage::Looking => {
                    let create = match self.kind {
                        ResolveKind::ServiceOrCreate => true,
                        _ => false,
                    };
                    if create {
                        let name = self.name.clone();
                        Step::Call(
                            ResolveTask { stage: ResolveStage::Inserting, ..self },
                            StoreCall::InsertService { name },
                        )
                    } else {
                        Step::Finish(Err(self.kind.missing_code()))
                    }
                },
                ResolveStage::Inserting => {
                    let name = self.name.clone();
                    let entity = self.kind.to_entity();
                    Step::Call(
                        ResolveTask { stage: ResolveStage::Relooking, ..self },
                        StoreCall::FindId { entity, name },
                    )
                },
                ResolveStage::Relooking => Step::Finish(Err(self.kind.failed_code())),
            },
            _ => Step::Finish(Err(self.kind.failed_code())),
        }
    }
}

} // verus!
