//! What the service reads of a request: the token headers, the client's
//! address, and the line that is logged for it.

use crate::text::{
    chars_eq_ignore_case, chars_of, eq_ignore_case, int_text, push_int, string_of_range,
    trim_bounds, trimmed,
};
use vstd::prelude::*;
use vstd::string::*;

verus! {

/// The header that carries the token of the person who asks.
pub const USER_TOKEN_HEADER: &'static str = "user-token";

/// The header that carries the token of the service that asks.
pub const SERVICE_TOKEN_HEADER: &'static str = "service-token";

/// The value of the first header of a name, the name compared without regard to case.
pub open spec fn first_header(headers: Seq<(Seq<char>, Seq<char>)>, name: Seq<char>) -> Option<
    Seq<char>,
>
    decreases headers.len(),
{
    if headers.len() == 0 {
        None
    } else if eq_ignore_case(headers[0].0, name) {
        Some(headers[0].1)
    } else {
        first_header(headers.skip(1), name)
    }
}

/// The token that a header carries: the trimmed value of the first header of
/// the name, unless that is empty.
pub open spec fn header_token(headers: Seq<(Seq<char>, Seq<char>)>, name: Seq<char>) -> Option<
    Seq<char>,
> {
    match first_header(headers, name) {
        Some(value) => if trimmed(value).len() > 0 {
            Some(trimmed(value))
        } else {
            None
        },
        None => None,
    }
}

/// The part of a text before its first comma; all of it where it has none.
pub open spec fn before_comma(text: Seq<char>) -> Seq<char>
    decreases text.len(),
{
    if text.len() == 0 || text[0] == ',' {
        Seq::empty()
    } else {
        seq![text[0]] + before_comma(text.skip(1))
    }
}

/// The address that one header names: the first entry of its list, trimmed,
/// unless the header is missing or the entry is empty.
pub open spec fn header_address(headers: Seq<(Seq<char>, Seq<char>)>, name: Seq<char>) -> Option<
    Seq<char>,
> {
    match first_header(headers, name) {
        Some(value) => if trimmed(before_comma(value)).len() > 0 {
            Some(trimmed(before_comma(value)))
        } else {
            None
        },
        None => None,
    }
}

/// The address of the client: what `x-forwarded-for` names, else what
/// `x-real-ip` names, else what `remote-addr` names, else `unknown`.
pub open spec fn client_address(headers: Seq<(Seq<char>, Seq<char>)>) -> Seq<char> {
    match header_address(headers, "x-forwarded-for"@) {
        Some(address) => address,
        None => match header_address(headers, "x-real-ip"@) {
            Some(address) => address,
            None => match header_address(headers, "remote-addr"@) {
                Some(address) => address,
                None => "unknown"@,
            },
        },
    }
}

/// Where the first header of a name stands.
fn header_slot(headers: &Vec<(String, String)>, name: &str) -> (r: Option<usize>)
    ensures
        match r {
            Some(i) => i < headers.len() && first_header(headers.deep_view(), name@) == Some(
                headers.deep_view()[i as int].1,
            ),
            None => first_header(headers.deep_view(), name@) is None,
        },
{
    let wanted = chars_of(name);
    let ghost all = headers.deep_view();
    let mut i: usize = 0;
    assert(all.skip(0) == all);
    while i < headers.len()
        invariant
            i <= headers.len(),
            all == headers.deep_view(),
            wanted@ == name@,
            first_header(all, name@) == first_header(all.skip(i as int), name@),
        decreases headers.len() - i,
    {
        assert(all.skip(i as int)[0] == all[i as int]);
        assert(all.skip(i as int).skip(1) == all.skip(i as int + 1));
        assert(all[i as int].0 == headers[i as int].0@);
        let key = chars_of(headers[i].0.as_str());
        if chars_eq_ignore_case(&key, &wanted) {
            return Some(i);
        }
        i = i + 1;
    }
    None
}

/// The token that the header `name` carries.
pub fn extract_token(headers: &Vec<(String, String)>, name: &str) -> (r: Option<String>)
    ensures
        r.deep_view() == header_token(headers.deep_view(), name@),
{
    match header_slot(headers, name) {
        Some(i) => {
            assert(headers.deep_view()[i as int].1 == headers[i as int].1@);
            let chars = chars_of(headers[i].1.as_str());
            let (a, b) = trim_bounds(&chars);
            if a == b {
                None
            } else {
                Some(string_of_range(&chars, a, b))
            }
        },
        None => None,
    }
}

/// The part of a text before its first comma.
fn comma_prefix(chars: &Vec<char>) -> (out: Vec<char>)
    ensures
        out@ == before_comma(chars@),
{
    let mut out: Vec<char> = Vec::new();
    let mut i: usize = 0;
    assert(chars@.skip(0) == chars@);
    while i < chars.len() && chars[i] != ','
        invariant
            i <= chars.len(),
            before_comma(chars@) == out@ + before_comma(chars@.skip(i as int)),
        decreases chars.len() - i,
    {
        assert(chars@.skip(i as int)[0] == chars@[i as int]);
        assert(chars@.skip(i as int).skip(1) == chars@.skip(i as int + 1));
        let ghost before = out@;
        out.push(chars[i]);
        assert(before + (seq![chars@[i as int]] + before_comma(chars@.skip(i as int + 1)))
            =~= before.push(chars@[i as int]) + before_comma(chars@.skip(i as int + 1)));
        i = i + 1;
    }
    proof {
        if i < chars.len() {
            assert(chars@.skip(i as int)[0] == chars@[i as int]);
        }
        assert(out@ + Seq::<char>::empty() =~= out@);
    }
    out
}

/// The address that the header `name` names.
fn extract_address(headers: &Vec<(String, String)>, name: &str) -> (r: Option<String>)
    ensures
        r.deep_view() == header_address(headers.deep_view(), name@),
{
    match header_slot(headers, name) {
        Some(i) => {
            assert(headers.deep_view()[i as int].1 == headers[i as int].1@);
            let chars = chars_of(headers[i].1.as_str());
            let first = comma_prefix(&chars);
            let (a, b) = trim_bounds(&first);
            if a == b {
                None
            } else {
                Some(string_of_range(&first, a, b))
            }
        },
        None => None,
    }
}

/// The address of the client.
pub fn extract_ip(headers: &Vec<(String, String)>) -> (r: String)
    ensures
        r@ == client_address(headers.deep_view()),
{
    match extract_address(headers, "x-forwarded-for") {
        Some(address) => address,
        None => match extract_address(headers, "x-real-ip") {
            Some(address) => address,
            None => match extract_address(headers, "remote-addr") {
                Some(address) => address,
                None => "unknown".to_owned(),
            },
        },
    }
}

/// The first eight characters of a token; all of it where it is shorter.
pub open spec fn token_prefix(token: Seq<char>) -> Seq<char> {
    if token.len() <= 8 {
        token
    } else {
        token.take(8)
    }
}

/// The line that is logged for a request: the beginning of the token, the
/// endpoint, the time and the client's address; whether the cache was used,
/// where that is known; and a mark on a request that was refused.
pub open spec fn audit_text(
    token: Seq<char>,
    endpoint: Seq<char>,
    timestamp: i64,
    client_ip: Seq<char>,
    used_cache: Option<bool>,
    valid: bool,
) -> Seq<char> {
    "[access] token="@ + token_prefix(token) + " endpoint="@ + endpoint + " ts="@ + int_text(
        timestamp as int,
    ) + " ip="@ + client_ip + (match used_cache {
        Some(true) => " used_cache=true"@,
        Some(false) => " used_cache=false"@,
        None => Seq::empty(),
    }) + (if valid {
        Seq::empty()
    } else {
        " valid=false"@
    })
}

/// Writes the line that is logged for a request.
pub fn log_access(
    token: &str,
    endpoint: &str,
    timestamp: i64,
    client_ip: &str,
    used_cache: Option<bool>,
    valid: bool,
) -> (line: String)
    ensures
        line@ == audit_text(token@, endpoint@, timestamp, client_ip@, used_cache, valid),
{
    let chars = chars_of(token);
    let end: usize = if chars.len() <= 8 {
        chars.len()
    } else {
        8
    };
    let prefix = string_of_range(&chars, 0, end);
    assert(prefix@ == token_prefix(token@)) by {
        assert(chars@.subrange(0, chars@.len() as int) == chars@);
    }
    let mut line = "[access] token=".to_owned();
    line.append(prefix.as_str());
    line.append(" endpoint=");
    line.append(endpoint);
    line.append(" ts=");
    push_int(&mut line, timestamp);
    line.append(" ip=");
    line.append(client_ip);
    let ghost head = line@;
    match used_cache {
        Some(true) => {
            line.append(" used_cache=true");
        },
        Some(false) => {
            line.append(" used_cache=false");
        },
        None => {
            assert(head + Seq::<char>::empty() =~= head);
        },
    }
    let ghost middle = line@;
    if !valid {
        line.append(" valid=false");
    } else {
        assert(middle + Seq::<char>::empty() =~= middle);
    }
    line
}

} // verus!
