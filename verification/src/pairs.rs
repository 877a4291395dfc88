//! Maps from texts to texts, as lists of pairs in the order of their keys.

use vstd::prelude::*;
use crate::each::find_first;
use crate::list::{
    first_where, lemma_text_lt_irreflexive, lemma_text_lt_total, lemma_text_lt_transitive, less,
    text_lt,
};
use crate::text::{ends, same, step};

verus! {

broadcast use {vstd::seq::group_seq_axioms, vstd::string::group_string_axioms};

/// Whether every key is smaller than the ones after it.
pub open spec fn keys_increase(s: Seq<(Seq<char>, Seq<char>)>) -> bool {
    forall|i: int, j: int|
        0 <= i < j < s.len() ==> text_lt((#[trigger] s[i]).0, (#[trigger] s[j]).0)
}

/// The map with a value at a key.
pub open spec fn with_pair(
    s: Seq<(Seq<char>, Seq<char>)>,
    key: Seq<char>,
    value: Seq<char>,
) -> Seq<(Seq<char>, Seq<char>)>
    decreases s.len(),
{
    if s.len() == 0 {
        seq![(key, value)]
    } else if s.last().0 == key {
        s.drop_last().push((key, value))
    } else if text_lt(s.last().0, key) {
        s.push((key, value))
    } else {
        with_pair(s.drop_last(), key, value).push(s.last())
    }
}

/// The value at a key.
pub open spec fn value_at(s: Seq<(Seq<char>, Seq<char>)>, key: Seq<char>) -> Option<Seq<char>> {
    match first_where(s, |p: (Seq<char>, Seq<char>)| p.0 == key) {
        Some(p) => Some(p.1),
        None => None,
    }
}

/// The value at a key.
pub fn get_value<'a>(s: &'a Vec<(String, String)>, key: &str) -> (r: Option<&'a str>)
    ensures
        r.deep_view() == value_at(s.deep_view(), key@),
{
    match find_first(
        s,
        |p: &(String, String)| -> (b: bool)
            ensures
                b == (p.deep_view().0 == key@)
            { same(&p.0, key) },
        Ghost(|p: (Seq<char>, Seq<char>)| p.0 == key@),
    ) {
        Some(p) => Some(p.1.as_str()),
        None => None,
    }
}

/// A copy of a map.
pub fn clone_pairs(s: &Vec<(String, String)>) -> (r: Vec<(String, String)>)
    ensures
        r.deep_view() == s.deep_view(),
{
    let mut out: Vec<(String, String)> = Vec::new();
    let mut i: usize = 0;
    while i < s.len()
        invariant
            i <= s@.len(),
            out@.len() == i,
            forall|j: int| 0 <= j < i ==> #[trigger] out@[j].deep_view() == s@[j].deep_view(),
        decreases s@.len() - i,
    {
        out.push((s[i].0.clone(), s[i].1.clone()));
        i = i + 1;
    }
    proof {
        assert(out.deep_view() =~= s.deep_view());
    }
    out
}

proof fn lemma_passed_over(
    s: Seq<(Seq<char>, Seq<char>)>,
    key: Seq<char>,
    value: Seq<char>,
    p: int,
)
    requires
        0 <= p <= s.len(),
        forall|j: int|
            p <= j < s.len() ==> (#[trigger] s[j]).0 != key && !text_lt(s[j].0, key),
    ensures
        with_pair(s, key, value) == with_pair(s.take(p), key, value) + s.skip(p),
    decreases s.len() - p,
{
    if p == s.len() {
        ends(s);
        assert(s.skip(p) =~= Seq::empty());
        assert(with_pair(s, key, value) + s.skip(p) =~= with_pair(s, key, value));
    } else {
        let d = s.drop_last();
        assert forall|j: int| p <= j < d.len() implies (#[trigger] d[j]).0 != key && !text_lt(
            d[j].0,
            key,
        ) by {
            assert(s[j] == d[j]);
        }
        assert(s[s.len() - 1] == s.last());
        lemma_passed_over(d, key, value, p);
        assert(d.take(p) =~= s.take(p));
        assert(with_pair(s.take(p), key, value) + s.skip(p) =~= (with_pair(s.take(p), key, value)
            + d.skip(p)).push(s.last()));
    }
}

/// Puts a value at a key.
pub fn set_value(s: &mut Vec<(String, String)>, key: String, value: String)
    ensures
        final(s).deep_view() == with_pair(old(s).deep_view(), key@, value@),
{
    let ghost before = s.deep_view();
    let ghost k = key@;
    let ghost v = value@;
    let mut i: usize = s.len();
    while i > 0 && !same(&s[i - 1].0, &key) && !less(&s[i - 1].0, &key)
        invariant
            i <= s@.len(),
            k == key@,
            before == s.deep_view(),
            forall|j: int|
                i <= j < before.len() ==> (#[trigger] before[j]).0 != k && !text_lt(
                    before[j].0,
                    k,
                ),
        decreases i,
    {
        proof {
            assert(before[i as int - 1] == s@[i as int - 1].deep_view());
        }
        i = i - 1;
    }
    proof {
        lemma_passed_over(before, k, v, i as int);
        if i > 0 {
            step(before, i as int - 1);
            assert(before[i as int - 1] == s@[i as int - 1].deep_view());
        } else {
            assert(before.take(0) =~= Seq::empty());
        }
    }
    if i > 0 && same(&s[i - 1].0, &key) {
        s.set(i - 1, (key, value));
        proof {
            assert(s.deep_view() =~= before.take(i as int - 1).push((k, v)) + before.skip(
                i as int,
            ));
        }
    } else {
        s.insert(i, (key, value));
        proof {
            assert(s.deep_view() =~= before.take(i as int).push((k, v)) + before.skip(i as int));
            assert(before.take(i as int).push((k, v)) =~= with_pair(before.take(i as int), k, v));
        }
    }
}

// ---------------------------------------------------------------------------
// Laws
// ---------------------------------------------------------------------------

/// A value that was put at a key is read back, and every other key keeps its
/// value. The keys stay in order.
pub proof fn law_values_read_back(
    s: Seq<(Seq<char>, Seq<char>)>,
    key: Seq<char>,
    value: Seq<char>,
    other: Seq<char>,
)
    requires
        keys_increase(s),
    ensures
        keys_increase(with_pair(s, key, value)),
        value_at(with_pair(s, key, value), key) == Some(value),
        other != key ==> value_at(with_pair(s, key, value), other) == value_at(s, other),
    decreases s.len(),
{
    let r = with_pair(s, key, value);
    if s.len() == 0 {
        assert(r =~= Seq::empty().push((key, value)));
        lemma_pushed(Seq::empty(), (key, value), key);
        lemma_pushed(Seq::empty(), (key, value), other);
    } else {
        let d = s.drop_last();
        let x = s.last();
        assert forall|i: int, j: int| 0 <= i < j < d.len() implies text_lt(
            (#[trigger] d[i]).0,
            (#[trigger] d[j]).0,
        ) by {
            assert(s[i] == d[i] && s[j] == d[j]);
        }
        lemma_below_last(s);
        assert(s =~= d.push(x));
        lemma_pushed(d, x, key);
        lemma_pushed(d, x, other);
        if x.0 == key {
            lemma_no_key(d, key);
            lemma_pushed(d, (key, value), key);
            lemma_pushed(d, (key, value), other);
            assert forall|i: int, j: int| 0 <= i < j < r.len() implies text_lt(
                (#[trigger] r[i]).0,
                (#[trigger] r[j]).0,
            ) by {
                assert(s[i].0 == r[i].0 && s[j].0 == r[j].0);
            }
        } else if text_lt(x.0, key) {
            lemma_pushed(s, (key, value), key);
            lemma_pushed(s, (key, value), other);
            assert forall|i: int, j: int| 0 <= i < j < r.len() implies text_lt(
                (#[trigger] r[i]).0,
                (#[trigger] r[j]).0,
            ) by {
                if j == s.len() && i < s.len() - 1 {
                    assert(text_lt(s[i].0, s[s.len() - 1].0));
                    lemma_text_lt_transitive(s[i].0, x.0, key);
                } else if j < s.len() {
                    assert(s[i] == r[i] && s[j] == r[j]);
                }
            }
            assert forall|i: int| 0 <= i < s.len() implies (#[trigger] s[i]).0 != key by {
                assert(text_lt(r[i].0, r[s.len() as int].0));
                lemma_text_lt_irreflexive(key);
            }
            lemma_no_key(s, key);
        } else {
            lemma_text_lt_total(x.0, key);
            law_values_read_back(d, key, value, other);
            lemma_pushed(with_pair(d, key, value), x, key);
            lemma_pushed(with_pair(d, key, value), x, other);
            lemma_keys_of(d, key, value);
            assert forall|i: int, j: int| 0 <= i < j < r.len() implies text_lt(
                (#[trigger] r[i]).0,
                (#[trigger] r[j]).0,
            ) by {
                let w = with_pair(d, key, value);
                if j == w.len() {
                    assert(w[i] == r[i]);
                    if w[i].0 != key {
                        let m = choose|m: int| 0 <= m < d.len() && d[m].0 == w[i].0;
                        assert(s[m] == d[m]);
                        assert(text_lt(s[m].0, s[s.len() - 1].0));
                    }
                } else {
                    assert(w[i] == r[i] && w[j] == r[j]);
                }
            }
        }
    }
}

proof fn lemma_pushed(
    s: Seq<(Seq<char>, Seq<char>)>,
    x: (Seq<char>, Seq<char>),
    key: Seq<char>,
)
    ensures
        value_at(s.push(x), key) == (if value_at(s, key) is Some {
            value_at(s, key)
        } else if x.0 == key {
            Some(x.1)
        } else {
            None
        }),
{
    assert(s.push(x).drop_last() =~= s);
}

proof fn lemma_below_last(s: Seq<(Seq<char>, Seq<char>)>)
    requires
        keys_increase(s),
        s.len() > 0,
    ensures
        forall|i: int| 0 <= i < s.drop_last().len() ==> (#[trigger] s.drop_last()[i]).0 != s.last().0,
{
    assert forall|i: int| 0 <= i < s.drop_last().len() implies (#[trigger] s.drop_last()[i]).0
        != s.last().0 by {
        assert(text_lt(s[i].0, s[s.len() - 1].0));
        lemma_text_lt_irreflexive(s.last().0);
    }
}

proof fn lemma_no_key(s: Seq<(Seq<char>, Seq<char>)>, key: Seq<char>)
    requires
        forall|i: int| 0 <= i < s.len() ==> (#[trigger] s[i]).0 != key,
    ensures
        value_at(s, key) is None,
    decreases s.len(),
{
    if s.len() > 0 {
        assert(s[s.len() - 1] == s.last());
        assert forall|i: int| 0 <= i < s.drop_last().len() implies (#[trigger] s.drop_last()[i]).0
            != key by {
            assert(s[i] == s.drop_last()[i]);
        }
        lemma_no_key(s.drop_last(), key);
    }
}

proof fn lemma_keys_of(s: Seq<(Seq<char>, Seq<char>)>, key: Seq<char>, value: Seq<char>)
    ensures
        forall|i: int|
            0 <= i < with_pair(s, key, value).len() ==> (#[trigger] with_pair(s, key, value)[i]).0
                == key || exists|m: int|
                0 <= m < s.len() && (#[trigger] s[m]).0 == with_pair(s, key, value)[i].0,
    decreases s.len(),
{
    let r = with_pair(s, key, value);
    if s.len() > 0 {
        let d = s.drop_last();
        lemma_keys_of(d, key, value);
        assert forall|i: int| 0 <= i < r.len() implies (#[trigger] r[i]).0 == key || exists|m: int|
            0 <= m < s.len() && (#[trigger] s[m]).0 == r[i].0 by {
            if s.last().0 == key || text_lt(s.last().0, key) {
                if r[i].0 != key {
                    assert(s[i] == r[i]);
                }
            } else if i == r.len() - 1 {
                assert(s[s.len() - 1] == r[i]);
            } else {
                let w = with_pair(d, key, value);
                assert(w[i] == r[i]);
                if r[i].0 != key {
                    let m = choose|m: int| 0 <= m < d.len() && (#[trigger] d[m]).0 == w[i].0;
                    assert(s[m] == d[m]);
                }
            }
        }
    }
}

} // verus!
