//! The list of headers that a browser may send across origins.
//!
//! The list starts from the one that is configured, takes in the headers of
//! the service's own, and then the extra ones, each once whatever its case.

use crate::request::before_comma;
use crate::text::{chars_eq_ignore_case, chars_of, eq_ignore_case, string_of, trim_bounds, trimmed};
use crate::flexible::slice_chars;
use vstd::prelude::*;
use vstd::string::*;

verus! {

/// The pieces of a text between its commas.
pub open spec fn split_at_commas(text: Seq<char>) -> Seq<Seq<char>>
    decreases text.len(),
{
    let first = before_comma(text);
    if first.len() >= text.len() {
        seq![text]
    } else {
        seq![first] + split_at_commas(text.skip(first.len() as int + 1))
    }
}

/// The piece is more than white space.
pub open spec fn nonblank() -> spec_fn(Seq<char>) -> bool {
    |piece: Seq<char>| piece.len() > 0
}

/// A piece without the white space at its ends.
pub open spec fn trimming() -> spec_fn(Seq<char>) -> Seq<char> {
    |piece: Seq<char>| trimmed(piece)
}

/// The names that a list written with commas holds: its pieces, trimmed, the
/// empty ones left out.
pub open spec fn names_in(text: Seq<char>) -> Seq<Seq<char>> {
    split_at_commas(text).map_values(trimming()).filter(nonblank())
}

/// The list holds the header, whatever its case.
pub open spec fn names_header(list: Seq<Seq<char>>, header: Seq<char>) -> bool {
    exists|i: int| 0 <= i < list.len() && eq_ignore_case(#[trigger] list[i], header)
}

/// The list with the header, at the end unless it is there already.
pub open spec fn with_header(list: Seq<Seq<char>>, header: Seq<char>) -> Seq<Seq<char>> {
    if names_header(list, header) {
        list
    } else {
        list.push(header)
    }
}

/// The list with the headers, taken in one after the other.
pub open spec fn with_headers(list: Seq<Seq<char>>, headers: Seq<Seq<char>>) -> Seq<Seq<char>>
    decreases headers.len(),
{
    if headers.len() == 0 {
        list
    } else {
        with_header(with_headers(list, headers.drop_last()), headers.last())
    }
}

/// The list written out, a comma and a space between its entries.
pub open spec fn joined(list: Seq<Seq<char>>) -> Seq<char>
    decreases list.len(),
{
    if list.len() == 0 {
        Seq::empty()
    } else if list.len() == 1 {
        list[0]
    } else {
        joined(list.drop_last()) + ", "@ + list.last()
    }
}

/// The headers of the service's own.
pub open spec fn own_headers() -> Seq<Seq<char>> {
    seq!["token"@, "user-token"@, "service-token"@]
}

/// The headers that are allowed: those of the configured list, the service's
/// own, and the extra ones.
pub open spec fn allowed_headers(base: Seq<char>, extra: Option<Seq<char>>) -> Seq<Seq<char>> {
    with_headers(
        with_headers(names_in(base), own_headers()),
        match extra {
            Some(text) => names_in(text),
            None => Seq::empty(),
        },
    )
}

/// A header that is taken in is in the list, and so is every header that was.
pub proof fn lemma_with_header(list: Seq<Seq<char>>, header: Seq<char>, other: Seq<char>)
    ensures
        names_header(with_header(list, header), header),
        names_header(list, other) ==> names_header(with_header(list, header), other),
{
    let out = with_header(list, header);
    if !names_header(list, header) {
        assert(out[list.len() as int] == header);
        assert(eq_ignore_case(out[list.len() as int], header));
    }
    if names_header(list, other) {
        let i = choose|i: int| 0 <= i < list.len() && eq_ignore_case(#[trigger] list[i], other);
        assert(out[i] == list[i]);
    }
}

/// Headers that are taken in leave every header in the list that was there.
pub proof fn lemma_with_headers_keeps(
    list: Seq<Seq<char>>,
    headers: Seq<Seq<char>>,
    other: Seq<char>,
)
    requires
        names_header(list, other),
    ensures
        names_header(with_headers(list, headers), other),
    decreases headers.len(),
{
    if headers.len() > 0 {
        lemma_with_headers_keeps(list, headers.drop_last(), other);
        lemma_with_header(with_headers(list, headers.drop_last()), headers.last(), other);
    }
}

/// Whatever is configured, the three headers of the service's own are allowed.
pub proof fn lemma_own_headers_are_allowed(base: Seq<char>, extra: Option<Seq<char>>)
    ensures
        names_header(allowed_headers(base, extra), "token"@),
        names_header(allowed_headers(base, extra), "user-token"@),
        names_header(allowed_headers(base, extra), "service-token"@),
{
    let start = names_in(base);
    let own = own_headers();
    let rest = match extra {
        Some(text) => names_in(text),
        None => Seq::empty(),
    };
    let one = own.drop_last().drop_last();
    let two = own.drop_last();
    assert(one.drop_last() =~= Seq::<Seq<char>>::empty());
    assert(with_headers(start, one.drop_last()) == start);
    let first = with_headers(start, one);
    assert(one.last() == "token"@);
    lemma_with_header(start, "token"@, "token"@);
    let second = with_headers(start, two);
    assert(two.drop_last() == one);
    assert(two.last() == "user-token"@);
    lemma_with_header(first, "user-token"@, "token"@);
    let third = with_headers(start, own);
    assert(own.last() == "service-token"@);
    lemma_with_header(second, "service-token"@, "token"@);
    lemma_with_header(second, "service-token"@, "user-token"@);
    lemma_with_headers_keeps(third, rest, "token"@);
    lemma_with_headers_keeps(third, rest, "user-token"@);
    lemma_with_headers_keeps(third, rest, "service-token"@);
}

/// The views of a list of texts.
pub open spec fn texts(list: Seq<Vec<char>>) -> Seq<Seq<char>> {
    list.map_values(|entry: Vec<char>| entry@)
}

/// The part of `chars` from `from` up to the next comma, and where that
/// comma stands.
fn piece_from(chars: &Vec<char>, from: usize) -> (r: (Vec<char>, usize))
    requires
        from <= chars.len(),
    ensures
        r.0@ == before_comma(chars@.skip(from as int)),
        r.1 == from + r.0@.len(),
        r.1 <= chars.len(),
{
    let mut out: Vec<char> = Vec::new();
    let mut i: usize = from;
    let ghost rest = chars@.skip(from as int);
    assert(rest.skip(0) == rest);
    while i < chars.len() && chars[i] != ','
        invariant
            from <= i <= chars.len(),
            rest == chars@.skip(from as int),
            out@.len() == i - from,
            before_comma(rest) == out@ + before_comma(rest.skip(i - from)),
        decreases chars.len() - i,
    {
        assert(rest.skip(i - from)[0] == chars@[i as int]);
        assert(rest.skip(i - from).skip(1) == rest.skip(i - from + 1));
        let ghost before = out@;
        out.push(chars[i]);
        assert(before + (seq![chars@[i as int]] + before_comma(rest.skip(i - from + 1)))
            =~= before.push(chars@[i as int]) + before_comma(rest.skip(i - from + 1)));
        i = i + 1;
    }
    proof {
        if i < chars.len() {
            assert(rest.skip(i - from)[0] == chars@[i as int]);
        }
        assert(out@ + Seq::<char>::empty() =~= out@);
    }
    (out, i)
}

/// The names that a list written with commas holds.
pub fn parse_names(text: &str) -> (out: Vec<Vec<char>>)
    ensures
        texts(out@) == names_in(text@),
{
    let chars = chars_of(text);
    let mut out: Vec<Vec<char>> = Vec::new();
    let mut from: usize = 0;
    let ghost all = chars@;
    let ghost mut done: Seq<Seq<char>> = Seq::empty();
    proof {
        assert(all.skip(0) == all);
        assert(texts(out@) =~= Seq::<Seq<char>>::empty());
        reveal(Seq::filter);
        assert(done.map_values(trimming()) =~= Seq::<Seq<char>>::empty());
        assert(Seq::<Seq<char>>::empty().filter(nonblank()) =~= Seq::<Seq<char>>::empty());
    }
    loop
        invariant
            from <= chars.len(),
            all == chars@,
            all == text@,
            split_at_commas(all) == done + split_at_commas(all.skip(from as int)),
            texts(out@) == done.map_values(trimming()).filter(nonblank()),
        decreases chars.len() - from,
    {
        let (piece, end) = piece_from(&chars, from);
        let (a, b) = trim_bounds(&piece);
        let ghost rest = all.skip(from as int);
        let ghost before = texts(out@);
        let ghost so_far = done;
        proof {
            done = done.push(piece@);
            assert(so_far.push(piece@).map_values(trimming()) =~= so_far.map_values(
                trimming(),
            ).push(trimmed(piece@)));
            Seq::lemma_filter_push(
                so_far.map_values(trimming()),
                trimmed(piece@),
                nonblank(),
            );
        }
        if a < b {
            let inner = slice_chars(&piece, a, b);
            out.push(inner);
            assert(texts(out@) =~= before.push(trimmed(piece@)));
        }
        assert(nonblank()(trimmed(piece@)) == (a < b));
        assert(texts(out@) == done.map_values(trimming()).filter(nonblank()));
        if end >= chars.len() {
            proof {
                lemma_before_comma_is_prefix(rest);
                assert(piece@.len() >= rest.len());
                assert(piece@ =~= rest);
                assert(split_at_commas(rest) == seq![rest]);
                assert(so_far + seq![rest] =~= so_far.push(rest));
                assert(split_at_commas(all) == done);
                assert(all == text@);
            }
            return out;
        }
        proof {
            assert(rest.skip(piece@.len() as int + 1) == all.skip(end as int + 1));
            assert(so_far + (seq![piece@] + split_at_commas(all.skip(end as int + 1)))
                =~= so_far.push(piece@) + split_at_commas(all.skip(end as int + 1)));
        }
        from = end + 1;
    }
}

/// The part of a text before its first comma is a beginning of the text.
pub proof fn lemma_before_comma_is_prefix(text: Seq<char>)
    ensures
        before_comma(text).len() <= text.len(),
        before_comma(text) == text.take(before_comma(text).len() as int),
    decreases text.len(),
{
    if text.len() == 0 || text[0] == ',' {
        assert(text.take(0) =~= Seq::<char>::empty());
    } else {
        lemma_before_comma_is_prefix(text.skip(1));
        let rest = before_comma(text.skip(1));
        assert(seq![text[0]] + text.skip(1).take(rest.len() as int) =~= text.take(
            rest.len() as int + 1,
        ));
    }
}

/// Tells whether a list holds a header, whatever its case.
fn holds_header(list: &Vec<Vec<char>>, header: &Vec<char>) -> (r: bool)
    ensures
        r == names_header(texts(list@), header@),
{
    let mut i: usize = 0;
    while i < list.len()
        invariant
            i <= list.len(),
            forall|j: int| 0 <= j < i ==> !eq_ignore_case(#[trigger] texts(list@)[j], header@),
        decreases list.len() - i,
    {
        assert(texts(list@)[i as int] == list@[i as int]@);
        if chars_eq_ignore_case(&list[i], header) {
            return true;
        }
        i = i + 1;
    }
    false
}

/// Takes headers into a list, each unless it is there already.
fn take_in(list: &mut Vec<Vec<char>>, headers: Vec<Vec<char>>)
    ensures
        texts(final(list)@) == with_headers(texts(old(list)@), texts(headers@)),
{
    let ghost start = texts(list@);
    let ghost all = texts(headers@);
    let mut i: usize = 0;
    assert(all.take(0) =~= Seq::<Seq<char>>::empty());
    while i < headers.len()
        invariant
            i <= headers.len(),
            all == texts(headers@),
            texts(list@) == with_headers(start, all.take(i as int)),
        decreases headers.len() - i,
    {
        assert(all.take(i as int + 1).drop_last() == all.take(i as int));
        assert(all.take(i as int + 1).last() == headers@[i as int]@);
        let ghost before = texts(list@);
        if !holds_header(list, &headers[i]) {
            list.push(headers[i].clone());
            assert(texts(list@) =~= before.push(headers@[i as int]@));
        }
        i = i + 1;
    }
    assert(all.take(headers.len() as int) == all);
}

/// Writes a list out, a comma and a space between its entries.
fn join(list: &Vec<Vec<char>>) -> (out: String)
    ensures
        out@ == joined(texts(list@)),
{
    let mut out = String::new();
    let mut i: usize = 0;
    let ghost all = texts(list@);
    assert(all.take(0) =~= Seq::<Seq<char>>::empty());
    while i < list.len()
        invariant
            i <= list.len(),
            all == texts(list@),
            out@ == joined(all.take(i as int)),
        decreases list.len() - i,
    {
        assert(all.take(i as int + 1).drop_last() == all.take(i as int));
        assert(all.take(i as int + 1).last() == list@[i as int]@);
        if i > 0 {
            out.append(", ");
        }
        let entry = string_of(&list[i]);
        let ghost before = out@;
        out.append(entry.as_str());
        proof {
            if i == 0 {
                assert(all.take(1)[0] == list@[0]@);
                assert(Seq::<char>::empty() + list@[0]@ =~= list@[0]@);
            }
        }
        i = i + 1;
    }
    assert(all.take(list.len() as int) == all);
    out
}

/// The headers that a browser may send across origins, written as a list:
/// those that `base` lists, the service's own `token`, `user-token` and
/// `service-token`, and those that `extra` lists, each once whatever its case.
pub fn build_cors_headers(base: &str, extra: Option<&str>) -> (out: String)
    ensures
        out@ == joined(allowed_headers(base@, crate::text::option_text(extra))),
{
    let mut list = parse_names(base);
    let own = vec![chars_of("token"), chars_of("user-token"), chars_of("service-token")];
    assert(texts(own@) =~= own_headers());
    take_in(&mut list, own);
    let more = match extra {
        Some(text) => parse_names(text),
        None => {
            let none: Vec<Vec<char>> = Vec::new();
            assert(texts(none@) =~= Seq::<Seq<char>>::empty());
            none
        },
    };
    take_in(&mut list, more);
    join(&list)
}

} // verus!
