use auth_api::flexible::{extract_digits, FlexibleId};
use auth_api::http::ErrorCode;
use auth_api::protocol::{Step, StoreAnswer, StoreCall};
use auth_api::entities::Entity;
use auth_api::resolve::{ResolveKind, ResolveTask};

#[test]
fn parse_int_of_numbers_and_texts() {
    assert_eq!(FlexibleId::Int(7).parse_int(), Some(7));
    assert_eq!(FlexibleId::Int(-7).parse_int(), Some(-7));
    assert_eq!(FlexibleId::Str("12".to_string()).parse_int(), Some(12));
    assert_eq!(FlexibleId::Str("  12 ".to_string()).parse_int(), Some(12));
    assert_eq!(FlexibleId::Str("twelve".to_string()).parse_int(), None);
    assert_eq!(FlexibleId::Str("".to_string()).parse_int(), None);
    assert_eq!(FlexibleId::Str("2147483648".to_string()).parse_int(), None);
}

#[test]
fn as_str_is_the_text_only() {
    assert_eq!(FlexibleId::Str(" billing ".to_string()).as_str(), Some(" billing "));
    assert_eq!(FlexibleId::Int(3).as_str(), None);
}

#[test]
fn from_text_prefers_the_number() {
    assert!(matches!(FlexibleId::from("17"), FlexibleId::Int(17)));
    assert!(matches!(FlexibleId::from(" 17 "), FlexibleId::Int(17)));
    match FlexibleId::from("  Service A ") {
        FlexibleId::Str(text) => assert_eq!(text, "Service A"),
        _ => panic!("a name stays a text"),
    }
    match FlexibleId::from(String::from("person-12")) {
        FlexibleId::Str(text) => assert_eq!(text, "person-12"),
        _ => panic!("a name stays a text"),
    }
    match FlexibleId::from_text("") {
        FlexibleId::Str(text) => assert_eq!(text, ""),
        _ => panic!("the empty text stays a text"),
    }
}

#[test]
fn digits_of_a_text() {
    assert_eq!(extract_digits("person-12"), Some(12));
    assert_eq!(extract_digits("p1e2r3"), Some(123));
    assert_eq!(extract_digits("person-"), None);
    assert_eq!(extract_digits(""), None);
    assert_eq!(extract_digits("person-99999999999"), None);
    assert_eq!(extract_digits("person-007"), Some(7));
}

fn finished(step: Step<ResolveTask, Result<i32, ErrorCode>>) -> Result<i32, ErrorCode> {
    match step {
        Step::Finish(outcome) => outcome,
        Step::Call(..) => panic!("the resolution was to end here"),
    }
}

#[test]
fn a_number_resolves_without_the_store() {
    assert_eq!(finished(ResolveTask::begin(ResolveKind::Service, &FlexibleId::Int(4))), Ok(4));
    assert_eq!(finished(ResolveTask::begin(ResolveKind::Person, &FlexibleId::Str("15".to_string()))), Ok(15));
    assert_eq!(finished(ResolveTask::begin(ResolveKind::Person, &FlexibleId::Str("person-15".to_string()))), Ok(15));
    assert_eq!(finished(ResolveTask::begin(ResolveKind::Person, &FlexibleId::Str(" person-15 ".to_string()))), Ok(15));
}

#[test]
fn an_empty_identifier_is_invalid() {
    assert_eq!(finished(ResolveTask::begin(ResolveKind::Service, &FlexibleId::Str("  ".to_string()))), Err(ErrorCode::InvalidServiceId));
    assert_eq!(finished(ResolveTask::begin(ResolveKind::Person, &FlexibleId::Str("".to_string()))), Err(ErrorCode::InvalidPersonId));
    assert_eq!(finished(ResolveTask::begin(ResolveKind::Permission, &FlexibleId::Str("".to_string()))), Err(ErrorCode::InvalidPermissionId));
}

#[test]
fn the_person_form_is_the_prefix_and_digits_only() {
    assert_eq!(finished(ResolveTask::begin(ResolveKind::Person, &FlexibleId::Str("person-007".to_string()))), Ok(7));
    assert_eq!(finished(ResolveTask::begin(ResolveKind::Person, &FlexibleId::Str("person-0".to_string()))), Ok(0));
    for text in ["person-1a2", "person--1", "person-+1", "person-", "Person-5", "person-99999999999", "xperson-5"] {
        match ResolveTask::begin(ResolveKind::Person, &FlexibleId::Str(text.to_string())) {
            Step::Call(_, StoreCall::FindId { entity, name }) => {
                assert_eq!(entity, Entity::Person);
                assert_eq!(name, text);
            }
            _ => panic!("{:?} is a user name", text),
        }
    }
}

#[test]
fn person_prefix_applies_to_persons_only() {
    match ResolveTask::begin(ResolveKind::Service, &FlexibleId::Str("person-15".to_string())) {
        Step::Call(_, StoreCall::FindId { entity, name }) => {
            assert_eq!(entity, Entity::Service);
            assert_eq!(name, "person-15");
        }
        _ => panic!("a service of that name is looked up"),
    }
}

#[test]
fn a_person_prefix_without_digits_is_a_user_name() {
    match ResolveTask::begin(ResolveKind::Person, &FlexibleId::Str("person-x".to_string())) {
        Step::Call(task, StoreCall::FindId { entity, name }) => {
            assert_eq!(entity, Entity::Person);
            assert_eq!(name, "person-x");
            assert_eq!(finished(task.advance(StoreAnswer::Id(None))), Err(ErrorCode::PersonNotFound));
        }
        _ => panic!("a person of that user name is looked up"),
    }
}

#[test]
fn a_name_is_looked_up_trimmed() {
    match ResolveTask::begin(ResolveKind::Service, &FlexibleId::Str("  billing ".to_string())) {
        Step::Call(task, StoreCall::FindId { entity, name }) => {
            assert_eq!(entity, Entity::Service);
            assert_eq!(name, "billing");
            assert_eq!(finished(task.advance(StoreAnswer::Id(Some(9)))), Ok(9));
        }
        _ => panic!("the name is looked up"),
    }
}

#[test]
fn a_missing_service_is_invalid_unless_it_may_be_created() {
    let task = match ResolveTask::begin(ResolveKind::Service, &FlexibleId::Str("billing".to_string())) {
        Step::Call(task, _) => task,
        _ => panic!("the name is looked up"),
    };
    assert_eq!(finished(task.advance(StoreAnswer::Id(None))), Err(ErrorCode::InvalidServiceId));

    let task = match ResolveTask::begin(ResolveKind::ServiceOrCreate, &FlexibleId::Str("billing".to_string())) {
        Step::Call(task, _) => task,
        _ => panic!("the name is looked up"),
    };
    let task = match task.advance(StoreAnswer::Id(None)) {
        Step::Call(task, StoreCall::InsertService { name }) => {
            assert_eq!(name, "billing");
            task
        }
        _ => panic!("the service is created"),
    };
    // Another request created it first: the insert gives no id and the name is looked up again.
    let task = match task.advance(StoreAnswer::Id(None)) {
        Step::Call(task, StoreCall::FindId { entity, name }) => {
            assert_eq!(entity, Entity::Service);
            assert_eq!(name, "billing");
            task
        }
        _ => panic!("the name is looked up again"),
    };
    assert_eq!(finished(task.advance(StoreAnswer::Id(Some(3)))), Ok(3));
}

#[test]
fn a_failing_store_gives_the_failure_of_the_kind() {
    for (kind, code) in [
        (ResolveKind::Person, ErrorCode::ResolvePersonFailed),
        (ResolveKind::Service, ErrorCode::ResolveServiceFailed),
        (ResolveKind::Permission, ErrorCode::ResolvePermissionFailed),
    ] {
        let task = match ResolveTask::begin(kind, &FlexibleId::Str("name".to_string())) {
            Step::Call(task, _) => task,
            _ => panic!("the name is looked up"),
        };
        assert_eq!(finished(task.advance(StoreAnswer::Failed)), Err(code));
    }
    let task = match ResolveTask::begin(ResolveKind::Permission, &FlexibleId::Str("name".to_string())) {
        Step::Call(task, _) => task,
        _ => panic!("the name is looked up"),
    };
    assert_eq!(finished(task.advance(StoreAnswer::Id(None))), Err(ErrorCode::PermissionNotFound));
}
