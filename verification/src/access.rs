//! The effective access of a person in a service, as it is cached.

use crate::text::{
    chars_less, chars_of, lemma_lex_irreflexive, lemma_lex_total, lemma_lex_transitive, lex_lt,
};
use vstd::prelude::*;

verus! {

/// What a person may do in a service, as materialised at one moment.
pub struct AccessSnapshot {
    pub user_id: i32,
    pub service_id: i32,
    pub roles: Vec<String>,
    pub permissions: Vec<String>,
    pub scopes: Vec<String>,
    pub expires_at: i64,
}

/// A snapshot as plain values.
pub struct AccessFacts {
    pub user_id: i32,
    pub service_id: i32,
    pub roles: Seq<Seq<char>>,
    pub permissions: Seq<Seq<char>>,
    pub scopes: Seq<Seq<char>>,
    pub expires_at: i64,
}

impl View for AccessSnapshot {
    type V = AccessFacts;

    open spec fn view(&self) -> AccessFacts {
        AccessFacts {
            user_id: self.user_id,
            service_id: self.service_id,
            roles: self.roles.deep_view(),
            permissions: self.permissions.deep_view(),
            scopes: self.scopes.deep_view(),
            expires_at: self.expires_at,
        }
    }
}

impl DeepView for AccessSnapshot {
    type V = AccessFacts;

    open spec fn deep_view(&self) -> AccessFacts {
        self@
    }
}

/// A copy of a list of names.
pub fn clone_names(names: &Vec<String>) -> (out: Vec<String>)
    ensures
        out.deep_view() == names.deep_view(),
{
    let mut out: Vec<String> = Vec::new();
    let mut i: usize = 0;
    while i < names.len()
        invariant
            i <= names.len(),
            out.len() == i,
            forall|j: int| 0 <= j < i ==> out@[j]@ == names@[j]@,
        decreases names.len() - i,
    {
        out.push(names[i].clone());
        i = i + 1;
    }
    assert(out.deep_view() =~= names.deep_view());
    out
}

impl Clone for AccessSnapshot {
    fn clone(&self) -> (r: Self)
        ensures
            r@ == self@,
    {
        AccessSnapshot {
            user_id: self.user_id,
            service_id: self.service_id,
            roles: clone_names(&self.roles),
            permissions: clone_names(&self.permissions),
            scopes: clone_names(&self.scopes),
            expires_at: self.expires_at,
        }
    }
}

/// What the cache holds for one token in one service.
pub struct AccessCacheRecord {
    pub access_json: AccessSnapshot,
    pub expires_at: i64,
}

/// A cache entry as plain values.
pub struct AccessEntry {
    pub access_json: AccessFacts,
    pub expires_at: i64,
}

impl View for AccessCacheRecord {
    type V = AccessEntry;

    open spec fn view(&self) -> AccessEntry {
        AccessEntry { access_json: self.access_json@, expires_at: self.expires_at }
    }
}

impl DeepView for AccessCacheRecord {
    type V = AccessEntry;

    open spec fn deep_view(&self) -> AccessEntry {
        self@
    }
}

/// Each name comes before the next in the order of texts; so none occurs twice.
pub open spec fn strictly_sorted(names: Seq<Seq<char>>) -> bool {
    forall|i: int, j: int|
        0 <= i < j < names.len() ==> lex_lt(#[trigger] names[i], #[trigger] names[j])
}

/// Two lists hold the same names.
pub open spec fn same_names(a: Seq<Seq<char>>, b: Seq<Seq<char>>) -> bool {
    forall|name: Seq<char>| #[trigger] a.contains(name) <==> b.contains(name)
}

/// Two lists that hold the same names, each in strictly ascending order, are
/// the same list.
pub proof fn lemma_sorted_names_unique(a: Seq<Seq<char>>, b: Seq<Seq<char>>)
    requires
        strictly_sorted(a),
        strictly_sorted(b),
        same_names(a, b),
    ensures
        a == b,
    decreases a.len(),
{
    if a.len() == 0 {
        if b.len() > 0 {
            assert(b.contains(b[0]));
            assert(a.contains(b[0]));
        }
        assert(a =~= b);
    } else if b.len() == 0 {
        assert(a.contains(a[0]));
        assert(b.contains(a[0]));
    } else {
        // The two least names are the same.
        assert(a.contains(a[0]));
        assert(b.contains(a[0]));
        let j = choose|j: int| 0 <= j < b.len() && b[j] == a[0];
        assert(b.contains(b[0]));
        assert(a.contains(b[0]));
        let i = choose|i: int| 0 <= i < a.len() && a[i] == b[0];
        if j > 0 && i > 0 {
            assert(lex_lt(b[0], b[j]));
            assert(lex_lt(a[0], a[i]));
            lemma_lex_transitive(a[0], b[0], a[0]);
            lemma_lex_irreflexive(a[0]);
        }
        if j > 0 && i == 0 {
            assert(lex_lt(b[0], b[j]));
            lemma_lex_irreflexive(a[0]);
        }
        if j == 0 && i > 0 {
            assert(lex_lt(a[0], a[i]));
            lemma_lex_irreflexive(a[0]);
        }
        assert(a[0] == b[0]);
        let ta = a.skip(1);
        let tb = b.skip(1);
        assert(strictly_sorted(ta)) by {
            assert forall|x: int, y: int| 0 <= x < y < ta.len() implies lex_lt(
                #[trigger] ta[x],
                #[trigger] ta[y],
            ) by {
                assert(ta[x] == a[x + 1] && ta[y] == a[y + 1]);
            }
        }
        assert(strictly_sorted(tb)) by {
            assert forall|x: int, y: int| 0 <= x < y < tb.len() implies lex_lt(
                #[trigger] tb[x],
                #[trigger] tb[y],
            ) by {
                assert(tb[x] == b[x + 1] && tb[y] == b[y + 1]);
            }
        }
        assert forall|name: Seq<char>| #[trigger] ta.contains(name) <==> tb.contains(name) by {
            if ta.contains(name) {
                let x = choose|x: int| 0 <= x < ta.len() && ta[x] == name;
                assert(a[x + 1] == name);
                assert(lex_lt(a[0], a[x + 1]));
                assert(a.contains(name));
                assert(b.contains(name));
                let y = choose|y: int| 0 <= y < b.len() && b[y] == name;
                if y == 0 {
                    lemma_lex_irreflexive(a[0]);
                }
                assert(tb[y - 1] == name);
            }
            if tb.contains(name) {
                let x = choose|x: int| 0 <= x < tb.len() && tb[x] == name;
                assert(b[x + 1] == name);
                assert(lex_lt(b[0], b[x + 1]));
                assert(b.contains(name));
                assert(a.contains(name));
                let y = choose|y: int| 0 <= y < a.len() && a[y] == name;
                if y == 0 {
                    lemma_lex_irreflexive(b[0]);
                }
                assert(ta[y - 1] == name);
            }
        }
        lemma_sorted_names_unique(ta, tb);
        assert(a =~= seq![a[0]] + ta);
        assert(b =~= seq![b[0]] + tb);
    }
}

/// The names of a list in strictly ascending order, each once.
pub open spec fn sorted_set(names: Seq<Seq<char>>) -> Seq<Seq<char>> {
    choose|sorted: Seq<Seq<char>>| strictly_sorted(sorted) && same_names(sorted, names)
}

/// A sorted list with one name more, at its place; the list itself where it
/// holds the name already.
pub open spec fn with_name(sorted: Seq<Seq<char>>, name: Seq<char>) -> Seq<Seq<char>>
    decreases sorted.len(),
{
    if sorted.len() == 0 {
        seq![name]
    } else if sorted.last() == name {
        sorted
    } else if lex_lt(sorted.last(), name) {
        sorted.push(name)
    } else {
        with_name(sorted.drop_last(), name).push(sorted.last())
    }
}

/// A name put into a sorted list leaves it sorted, and adds that name and no other.
pub proof fn lemma_with_name(sorted: Seq<Seq<char>>, name: Seq<char>)
    requires
        strictly_sorted(sorted),
    ensures
        strictly_sorted(with_name(sorted, name)),
        forall|x: Seq<char>| #[trigger]
            with_name(sorted, name).contains(x) <==> (sorted.contains(x) || x == name),
    decreases sorted.len(),
{
    let out = with_name(sorted, name);
    if sorted.len() == 0 {
        assert(out[0] == name);
        assert forall|x: Seq<char>| #[trigger] out.contains(x) <==> (sorted.contains(x) || x
            == name) by {
            if out.contains(x) {
                let at = choose|at: int| 0 <= at < out.len() && out[at] == x;
            }
        }
    } else if sorted.last() == name {
        assert(sorted[sorted.len() - 1] == name);
    } else if lex_lt(sorted.last(), name) {
        let n = sorted.len() as int;
        assert forall|i: int, j: int| 0 <= i < j < out.len() implies lex_lt(
            #[trigger] out[i],
            #[trigger] out[j],
        ) by {
            if j < n {
                assert(out[i] == sorted[i] && out[j] == sorted[j]);
            } else {
                assert(out[i] == sorted[i]);
                if i < n - 1 {
                    assert(lex_lt(sorted[i], sorted[n - 1]));
                    lemma_lex_transitive(sorted[i], sorted[n - 1], name);
                }
            }
        }
        assert forall|x: Seq<char>| #[trigger] out.contains(x) <==> (sorted.contains(x) || x
            == name) by {
            if out.contains(x) {
                let at = choose|at: int| 0 <= at < out.len() && out[at] == x;
                if at < n {
                    assert(sorted[at] == x);
                }
            }
            if sorted.contains(x) {
                let at = choose|at: int| 0 <= at < sorted.len() && sorted[at] == x;
                assert(out[at] == x);
            }
            if x == name {
                assert(out[n] == x);
            }
        }
    } else {
        let front = sorted.drop_last();
        let last = sorted.last();
        let n = sorted.len() as int;
        assert(strictly_sorted(front)) by {
            assert forall|i: int, j: int| 0 <= i < j < front.len() implies lex_lt(
                #[trigger] front[i],
                #[trigger] front[j],
            ) by {
                assert(front[i] == sorted[i] && front[j] == sorted[j]);
            }
        }
        lemma_with_name(front, name);
        let inner = with_name(front, name);
        lemma_lex_total(last, name);
        assert forall|i: int, j: int| 0 <= i < j < out.len() implies lex_lt(
            #[trigger] out[i],
            #[trigger] out[j],
        ) by {
            if j < inner.len() {
                assert(out[i] == inner[i] && out[j] == inner[j]);
            } else {
                assert(out[i] == inner[i]);
                assert(inner.contains(inner[i]));
                if front.contains(inner[i]) {
                    let at = choose|at: int| 0 <= at < front.len() && front[at] == inner[i];
                    assert(sorted[at] == inner[i]);
                    assert(lex_lt(sorted[at], sorted[n - 1]));
                }
            }
        }
        assert forall|x: Seq<char>| #[trigger] out.contains(x) <==> (sorted.contains(x) || x
            == name) by {
            if out.contains(x) {
                let at = choose|at: int| 0 <= at < out.len() && out[at] == x;
                if at < inner.len() {
                    assert(inner[at] == x);
                    assert(inner.contains(x));
                    if front.contains(x) {
                        let k = choose|k: int| 0 <= k < front.len() && front[k] == x;
                        assert(sorted[k] == x);
                    }
                } else {
                    assert(sorted[n - 1] == x);
                }
            }
            if sorted.contains(x) {
                let at = choose|at: int| 0 <= at < sorted.len() && sorted[at] == x;
                if at < n - 1 {
                    assert(front[at] == x);
                    assert(front.contains(x));
                    assert(inner.contains(x));
                    let k = choose|k: int| 0 <= k < inner.len() && inner[k] == x;
                    assert(out[k] == x);
                } else {
                    assert(out[out.len() - 1] == x);
                }
            }
            if x == name {
                assert(inner.contains(x));
                let k = choose|k: int| 0 <= k < inner.len() && inner[k] == x;
                assert(out[k] == x);
            }
        }
    }
}

/// The names of a list put one by one into a sorted list.
pub open spec fn sorted_from(names: Seq<Seq<char>>) -> Seq<Seq<char>>
    decreases names.len(),
{
    if names.len() == 0 {
        Seq::empty()
    } else {
        with_name(sorted_from(names.drop_last()), names.last())
    }
}

/// Every list of names has its sorted set: a list of the same names in
/// strictly ascending order.
pub proof fn lemma_sorted_set(names: Seq<Seq<char>>)
    ensures
        strictly_sorted(sorted_set(names)),
        same_names(sorted_set(names), names),
        sorted_set(names) == sorted_from(names),
{
    lemma_sorted_from(names);
    lemma_sorted_names_unique(sorted_set(names), sorted_from(names));
}

proof fn lemma_sorted_from(names: Seq<Seq<char>>)
    ensures
        strictly_sorted(sorted_from(names)),
        same_names(sorted_from(names), names),
    decreases names.len(),
{
    if names.len() > 0 {
        let front = names.drop_last();
        lemma_sorted_from(front);
        lemma_with_name(sorted_from(front), names.last());
        let out = sorted_from(names);
        assert forall|x: Seq<char>| #[trigger] out.contains(x) <==> names.contains(x) by {
            if names.contains(x) {
                let at = choose|at: int| 0 <= at < names.len() && names[at] == x;
                if at < names.len() - 1 {
                    assert(front[at] == x);
                    assert(front.contains(x));
                }
            }
            if front.contains(x) {
                let at = choose|at: int| 0 <= at < front.len() && front[at] == x;
                assert(names[at] == x);
            }
            if x == names.last() {
                assert(names[names.len() - 1] == x);
            }
        }
    }
}

/// Puts a name into a sorted list at its place, unless it is there already.
pub fn insert_name(out: &mut Vec<String>, name: String)
    requires
        strictly_sorted(old(out).deep_view()),
    ensures
        strictly_sorted(final(out).deep_view()),
        forall|x: Seq<char>| #[trigger]
            final(out).deep_view().contains(x) <==> (old(out).deep_view().contains(x) || x
                == name@),
{
    let ghost before = out.deep_view();
    let chars = chars_of(name.as_str());
    let mut k: usize = 0;
    let mut found = false;
    while k < out.len() && !found
        invariant
            k <= out.len(),
            before == out.deep_view(),
            chars@ == name@,
            forall|j: int| 0 <= j < k ==> lex_lt(#[trigger] before[j], name@),
            found ==> k < out.len() && !lex_lt(before[k as int], name@),
        decreases out.len() - k + if found { 0int } else { 1int },
    {
        let here = chars_of(out[k].as_str());
        assert(before[k as int] == out[k as int]@);
        if chars_less(&here, &chars) {
            k = k + 1;
        } else {
            found = true;
        }
    }
    if k < out.len() {
        assert(before[k as int] == out[k as int]@);
        if out[k] == name {
            proof {
                assert(before.contains(name@));
            }
            return ;
        }
        proof {
            lemma_lex_total(before[k as int], name@);
        }
    }
    let ghost added = name@;
    out.insert(k, name);
    proof {
        let after = out.deep_view();
        before.insert_ensures(k as int, added);
        assert(after =~= before.insert(k as int, added)) by {
            let raw_before = old(out)@;
            raw_before.insert_ensures(k as int, out@[k as int]);
            assert forall|i: int| 0 <= i < after.len() implies after[i] == before.insert(
                k as int,
                added,
            )[i] by {
                if i < k {
                    assert(out@[i] == raw_before[i]);
                } else if i > k {
                    assert(out@[i] == raw_before[i - 1]);
                    assert(before.insert(k as int, added)[(i - 1) + 1] == before[i - 1]);
                }
            }
        }
        assert forall|i: int, j: int| 0 <= i < j < after.len() implies lex_lt(
            #[trigger] after[i],
            #[trigger] after[j],
        ) by {
            if j < k {
                assert(after[i] == before[i] && after[j] == before[j]);
            } else if j == k {
                assert(after[i] == before[i]);
            } else {
                assert(after[(j - 1) + 1] == before[j - 1]);
                if i < k {
                    assert(after[i] == before[i]);
                    if j - 1 > i {
                    }
                } else if i == k {
                    if j - 1 > k {
                        assert(lex_lt(before[k as int], before[j - 1]));
                        lemma_lex_transitive(added, before[k as int], before[j - 1]);
                    }
                } else {
                    assert(after[(i - 1) + 1] == before[i - 1]);
                }
            }
        }
        assert forall|x: Seq<char>| #[trigger]
            after.contains(x) <==> (before.contains(x) || x == added) by {
            if after.contains(x) {
                let at = choose|at: int| 0 <= at < after.len() && after[at] == x;
                if at < k {
                    assert(before[at] == x);
                } else if at > k {
                    assert(after[(at - 1) + 1] == before[at - 1]);
                    assert(before[at - 1] == x);
                }
            }
            if before.contains(x) {
                let at = choose|at: int| 0 <= at < before.len() && before[at] == x;
                if at < k {
                    assert(after[at] == x);
                } else {
                    assert(after[at + 1] == x);
                }
            }
            if x == added {
                assert(after[k as int] == x);
            }
        }
    }
}

/// The names of a list in ascending order, each once.
pub fn sorted_names(names: &Vec<String>) -> (out: Vec<String>)
    ensures
        strictly_sorted(out.deep_view()),
        same_names(out.deep_view(), names.deep_view()),
        out.deep_view() == sorted_set(names.deep_view()),
{
    let mut out: Vec<String> = Vec::new();
    let mut i: usize = 0;
    let ghost all = names.deep_view();
    assert(out.deep_view() =~= Seq::<Seq<char>>::empty());
    while i < names.len()
        invariant
            i <= names.len(),
            all == names.deep_view(),
            strictly_sorted(out.deep_view()),
            forall|x: Seq<char>| #[trigger]
                out.deep_view().contains(x) <==> all.take(i as int).contains(x),
        decreases names.len() - i,
    {
        let ghost before = out.deep_view();
        assert(all[i as int] == names[i as int]@);
        insert_name(&mut out, names[i].clone());
        proof {
            let after = out.deep_view();
            assert forall|x: Seq<char>| #[trigger]
                after.contains(x) <==> all.take(i as int + 1).contains(x) by {
                let shorter = all.take(i as int);
                let longer = all.take(i as int + 1);
                if longer.contains(x) {
                    let at = choose|at: int| 0 <= at < longer.len() && longer[at] == x;
                    if at < i {
                        assert(shorter[at] == x);
                    }
                }
                if shorter.contains(x) {
                    let at = choose|at: int| 0 <= at < shorter.len() && shorter[at] == x;
                    assert(longer[at] == x);
                }
                if x == all[i as int] {
                    assert(longer[i as int] == x);
                }
            }
        }
        i = i + 1;
    }
    assert(all.take(names.len() as int) == all);
    proof {
        let chosen = sorted_set(all);
        assert(strictly_sorted(out.deep_view()) && same_names(out.deep_view(), all));
        assert forall|name: Seq<char>| #[trigger]
            out.deep_view().contains(name) <==> chosen.contains(name) by {
            assert(chosen.contains(name) <==> all.contains(name));
        }
        lemma_sorted_names_unique(out.deep_view(), chosen);
    }
    out
}

/// Tells whether a list holds a name.
pub fn holds_name(names: &Vec<String>, name: &str) -> (r: bool)
    ensures
        r == names.deep_view().contains(name@),
{
    let wanted = name.to_owned();
    let mut i: usize = 0;
    while i < names.len()
        invariant
            i <= names.len(),
            wanted@ == name@,
            forall|j: int| 0 <= j < i ==> #[trigger] names.deep_view()[j] != name@,
        decreases names.len() - i,
    {
        assert(names.deep_view()[i as int] == names[i as int]@);
        if names[i] == wanted {
            return true;
        }
        i = i + 1;
    }
    false
}

} // verus!
