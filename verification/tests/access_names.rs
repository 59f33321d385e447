use auth_api::access::{holds_name, insert_name, sorted_names};

fn names(list: &[&str]) -> Vec<String> {
    list.iter().map(|n| n.to_string()).collect()
}

#[test]
fn names_are_sorted_ascending_and_each_kept_once() {
    assert_eq!(sorted_names(&names(&["write", "read", "write", "admin", "read"])), names(&["admin", "read", "write"]));
    assert_eq!(sorted_names(&names(&[])), names(&[]));
    assert_eq!(sorted_names(&names(&["one"])), names(&["one"]));
}

#[test]
fn names_are_compared_with_regard_to_case() {
    assert_eq!(sorted_names(&names(&["read", "Read", "READ", "read"])), names(&["READ", "Read", "read"]));
}

#[test]
fn sorting_agrees_with_sort_and_dedup() {
    let input = names(&["b", "a", "", "ab", "B", "a", "é", "z", "ab", "10", "9", "b"]);
    let mut expected = input.clone();
    expected.sort();
    expected.dedup();
    assert_eq!(sorted_names(&input), expected);
}

#[test]
fn a_name_goes_in_at_its_place() {
    let mut list = names(&["b", "d"]);
    insert_name(&mut list, "c".to_string());
    insert_name(&mut list, "a".to_string());
    insert_name(&mut list, "e".to_string());
    insert_name(&mut list, "c".to_string());
    assert_eq!(list, names(&["a", "b", "c", "d", "e"]));
}

#[test]
fn membership_in_a_list_of_names() {
    let list = names(&["read", "write"]);
    assert!(holds_name(&list, "read"));
    assert!(holds_name(&list, "write"));
    assert!(!holds_name(&list, "Read"));
    assert!(!holds_name(&list, "rea"));
    assert!(!holds_name(&names(&[]), "read"));
}
