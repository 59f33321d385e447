use auth_api::cors::{build_cors_headers, parse_names};

fn names(text: &str) -> Vec<String> {
    parse_names(text).into_iter().map(|name| name.into_iter().collect()).collect()
}

#[test]
fn a_list_is_split_trimmed_and_emptied_of_blanks() {
    assert_eq!(names("Content-Type, Authorization"), vec!["Content-Type", "Authorization"]);
    assert_eq!(names(" a ,, b,  ,c "), vec!["a", "b", "c"]);
    assert_eq!(names(""), Vec::<String>::new());
    assert_eq!(names(" , ,"), Vec::<String>::new());
    assert_eq!(names("one"), vec!["one"]);
    assert_eq!(names("x y , z"), vec!["x y", "z"]);
}

#[test]
fn splitting_agrees_with_the_standard_library() {
    for text in ["", ",", "a", "a,b", ",a,,b,", "  a  ,  ", "Content-Type, Authorization", ",,,"] {
        let expected: Vec<String> =
            text.split(',').map(|h| h.trim().to_string()).filter(|h| !h.is_empty()).collect();
        assert_eq!(names(text), expected, "names in {:?}", text);
    }
}

#[test]
fn the_own_headers_are_always_allowed() {
    assert_eq!(
        build_cors_headers("Content-Type, Authorization", None),
        "Content-Type, Authorization, token, user-token, service-token"
    );
    assert_eq!(build_cors_headers("", None), "token, user-token, service-token");
}

#[test]
fn a_header_is_listed_once_whatever_its_case() {
    assert_eq!(
        build_cors_headers("Content-Type, TOKEN, User-Token", Some("content-type, X-Trace , , service-TOKEN,x-trace")),
        "Content-Type, TOKEN, User-Token, service-token, X-Trace"
    );
}

#[test]
fn extra_headers_come_last() {
    assert_eq!(
        build_cors_headers("Accept", Some("X-One,X-Two")),
        "Accept, token, user-token, service-token, X-One, X-Two"
    );
    assert_eq!(build_cors_headers("Accept", Some("")), "Accept, token, user-token, service-token");
}
