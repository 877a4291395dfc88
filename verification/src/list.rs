//! Lists of texts: conditional entries, sorted sets and stable sorting.

use vstd::prelude::*;
use crate::text::{cat2, chars_of, ends, same, step};

verus! {

broadcast use vstd::seq::group_seq_axioms;

// ---------------------------------------------------------------------------
// Building lists
// ---------------------------------------------------------------------------

/// The one-element list of `x` where `b` holds, else the empty list.
pub open spec fn noted(b: bool, x: Seq<char>) -> Seq<Seq<char>> {
    if b {
        seq![x]
    } else {
        Seq::empty()
    }
}

/// Appends `text` where `b` holds.
pub fn note(list: &mut Vec<String>, b: bool, text: &str)
    ensures
        final(list).deep_view() == old(list).deep_view() + noted(b, text@),
{
    if b {
        list.push(text.to_string());
        proof {
            assert(list.deep_view() =~= old(list).deep_view() + seq![text@]);
        }
    } else {
        proof {
            assert(list.deep_view() =~= old(list).deep_view() + noted(b, text@));
        }
    }
}

/// Appends copies of all texts of `more`.
pub fn extend(list: &mut Vec<String>, more: &Vec<String>)
    ensures
        final(list).deep_view() == old(list).deep_view() + more.deep_view(),
{
    let ghost before = list.deep_view();
    let mut i: usize = 0;
    proof {
        assert(list.deep_view() =~= before + more.deep_view().take(0));
    }
    while i < more.len()
        invariant
            i <= more@.len(),
            list.deep_view() == before + more.deep_view().take(i as int),
        decreases more@.len() - i,
    {
        let ghost held = list.deep_view();
        list.push(more[i].clone());
        proof {
            step(more.deep_view(), i as int);
            assert(list.deep_view() =~= held.push(more.deep_view()[i as int]));
            assert(list.deep_view() =~= before + more.deep_view().take(i + 1));
        }
        i = i + 1;
    }
    proof {
        ends(more.deep_view());
    }
}

/// Whether the text occurs in the list.
pub fn includes(list: &Vec<String>, text: &str) -> (r: bool)
    ensures
        r == list.deep_view().contains(text@),
{
    let mut i: usize = 0;
    while i < list.len()
        invariant
            i <= list@.len(),
            forall|j: int| 0 <= j < i ==> list.deep_view()[j] != text@,
        decreases list@.len() - i,
    {
        if same(&list[i], text) {
            proof {
                assert(list.deep_view()[i as int] == text@);
            }
            return true;
        }
        i = i + 1;
    }
    false
}

// ---------------------------------------------------------------------------
// Counting and collecting
// ---------------------------------------------------------------------------

/// How many elements satisfy `p`.
pub open spec fn tally<A>(s: Seq<A>, p: spec_fn(A) -> bool) -> nat
    decreases s.len(),
{
    if s.len() == 0 {
        0
    } else {
        tally(s.drop_last(), p) + if p(s.last()) {
            1nat
        } else {
            0nat
        }
    }
}

/// A count never exceeds the number of elements.
pub proof fn lemma_tally_bound<A>(s: Seq<A>, p: spec_fn(A) -> bool)
    ensures
        tally(s, p) <= s.len(),
    decreases s.len(),
{
    if s.len() > 0 {
        lemma_tally_bound(s.drop_last(), p);
    }
}

/// The elements that satisfy `p`, in their order.
pub open spec fn kept<A>(s: Seq<A>, p: spec_fn(A) -> bool) -> Seq<A>
    decreases s.len(),
{
    if s.len() == 0 {
        Seq::empty()
    } else {
        let rest = kept(s.drop_last(), p);
        if p(s.last()) {
            rest.push(s.last())
        } else {
            rest
        }
    }
}

/// The values that `f` gives for the elements, in their order, skipping `None`.
pub open spec fn chosen<A, B>(s: Seq<A>, f: spec_fn(A) -> Option<B>) -> Seq<B>
    decreases s.len(),
{
    if s.len() == 0 {
        Seq::empty()
    } else {
        let rest = chosen(s.drop_last(), f);
        match f(s.last()) {
            Some(b) => rest.push(b),
            None => rest,
        }
    }
}

/// The lists that `f` gives for the elements, one after the other.
pub open spec fn gathered<A, B>(s: Seq<A>, f: spec_fn(A) -> Seq<B>) -> Seq<B>
    decreases s.len(),
{
    if s.len() == 0 {
        Seq::empty()
    } else {
        gathered(s.drop_last(), f) + f(s.last())
    }
}

/// Where nothing is gathered, no element gives anything.
pub proof fn lemma_gathered_nothing<A, B>(s: Seq<A>, f: spec_fn(A) -> Seq<B>, i: int)
    requires
        gathered(s, f).len() == 0,
        0 <= i < s.len(),
    ensures
        f(s[i]).len() == 0,
    decreases s.len(),
{
    if i < s.len() - 1 {
        lemma_gathered_nothing(s.drop_last(), f, i);
        assert(s.drop_last()[i] == s[i]);
    }
}

/// Where no element satisfies `p`, none is counted.
pub proof fn lemma_tally_none<A>(s: Seq<A>, p: spec_fn(A) -> bool)
    requires
        forall|i: int| 0 <= i < s.len() ==> !p(#[trigger] s[i]),
    ensures
        tally(s, p) == 0,
    decreases s.len(),
{
    if s.len() > 0 {
        let d = s.drop_last();
        assert forall|i: int| 0 <= i < d.len() implies !p(#[trigger] d[i]) by {
            assert(d[i] == s[i]);
        }
        lemma_tally_none(d, p);
        assert(s[s.len() - 1] == s.last());
    }
}

/// Where each element satisfies one of two conditions and not the other, the two
/// counts give the number of elements.
pub proof fn lemma_tally_split<A>(s: Seq<A>, p: spec_fn(A) -> bool, q: spec_fn(A) -> bool)
    requires
        forall|i: int| 0 <= i < s.len() ==> p(#[trigger] s[i]) != q(s[i]),
    ensures
        tally(s, p) + tally(s, q) == s.len(),
    decreases s.len(),
{
    if s.len() > 0 {
        let d = s.drop_last();
        assert forall|i: int| 0 <= i < d.len() implies p(#[trigger] d[i]) != q(d[i]) by {
            assert(d[i] == s[i]);
        }
        lemma_tally_split(d, p, q);
        assert(s[s.len() - 1] == s.last());
    }
}

/// The first element that satisfies `p`.
pub open spec fn first_where<A>(s: Seq<A>, p: spec_fn(A) -> bool) -> Option<A>
    decreases s.len(),
{
    if s.len() == 0 {
        None
    } else {
        match first_where(s.drop_last(), p) {
            Some(a) => Some(a),
            None => if p(s.last()) {
                Some(s.last())
            } else {
                None
            },
        }
    }
}

/// Whether some element satisfies `p`.
pub open spec fn any<A>(s: Seq<A>, p: spec_fn(A) -> bool) -> bool
    decreases s.len(),
{
    s.len() > 0 && (any(s.drop_last(), p) || p(s.last()))
}

/// `any` is the existence of an element that satisfies `p`.
pub proof fn lemma_any<A>(s: Seq<A>, p: spec_fn(A) -> bool)
    ensures
        any(s, p) == exists|i: int| 0 <= i < s.len() && p(#[trigger] s[i]),
    decreases s.len(),
{
    if s.len() > 0 {
        lemma_any(s.drop_last(), p);
        if any(s.drop_last(), p) {
            let i = choose|i: int| 0 <= i < s.drop_last().len() && p(#[trigger] s.drop_last()[i]);
            assert(p(s[i]));
        }
        if exists|i: int| 0 <= i < s.len() && p(#[trigger] s[i]) {
            let i = choose|i: int| 0 <= i < s.len() && p(#[trigger] s[i]);
            if i < s.len() - 1 {
                assert(s.drop_last()[i] == s[i]);
            }
        }
    }
}

/// The first match in a prefix stays the first match in a longer one.
pub proof fn lemma_first_stays<A>(s: Seq<A>, p: spec_fn(A) -> bool, i: int, j: int)
    requires
        0 <= i <= j <= s.len(),
        first_where(s.take(i), p) is Some,
    ensures
        first_where(s.take(j), p) == first_where(s.take(i), p),
    decreases j,
{
    if i < j {
        lemma_first_stays(s, p, i, j - 1);
        assert(s.take(j).drop_last() =~= s.take(j - 1));
    }
}

// ---------------------------------------------------------------------------
// The order of texts
// ---------------------------------------------------------------------------

/// Whether `a` comes before `b`: character by character, a text before its
/// extensions. Code point order is also the order of the UTF-8 bytes.
pub open spec fn text_lt(a: Seq<char>, b: Seq<char>) -> bool
    decreases a.len(),
{
    if b.len() == 0 {
        false
    } else if a.len() == 0 {
        true
    } else if a[0] == b[0] {
        text_lt(a.drop_first(), b.drop_first())
    } else {
        a[0] < b[0]
    }
}

/// No text comes before itself.
pub proof fn lemma_text_lt_irreflexive(a: Seq<char>)
    ensures
        !text_lt(a, a),
    decreases a.len(),
{
    if a.len() > 0 {
        lemma_text_lt_irreflexive(a.drop_first());
    }
}

/// The order of texts is transitive.
pub proof fn lemma_text_lt_transitive(a: Seq<char>, b: Seq<char>, c: Seq<char>)
    requires
        text_lt(a, b),
        text_lt(b, c),
    ensures
        text_lt(a, c),
    decreases a.len(),
{
    if a.len() > 0 && a[0] == b[0] && b[0] == c[0] {
        lemma_text_lt_transitive(a.drop_first(), b.drop_first(), c.drop_first());
    }
}

/// Of two different texts one comes before the other.
pub proof fn lemma_text_lt_total(a: Seq<char>, b: Seq<char>)
    ensures
        text_lt(a, b) || text_lt(b, a) || a == b,
    decreases a.len(),
{
    if a.len() > 0 && b.len() > 0 && a[0] == b[0] {
        lemma_text_lt_total(a.drop_first(), b.drop_first());
        if a.drop_first() == b.drop_first() {
            assert(a =~= seq![a[0]] + a.drop_first());
            assert(b =~= seq![b[0]] + b.drop_first());
        }
    } else if a.len() == 0 && b.len() == 0 {
        assert(a =~= b);
    }
}

/// Whether `a` comes before `b`.
pub fn less(a: &str, b: &str) -> (r: bool)
    ensures
        r == text_lt(a@, b@),
{
    let x = chars_of(a);
    let y = chars_of(b);
    let mut i: usize = 0;
    proof {
        assert(a@.skip(0) =~= a@);
        assert(b@.skip(0) =~= b@);
    }
    while i < x.len() && i < y.len()
        invariant
            x@ == a@,
            y@ == b@,
            i <= x@.len(),
            i <= y@.len(),
            text_lt(a@, b@) == text_lt(a@.skip(i as int), b@.skip(i as int)),
        decreases x@.len() - i,
    {
        if x[i] != y[i] {
            return x[i] < y[i];
        }
        proof {
            assert(a@.skip(i as int).drop_first() =~= a@.skip(i + 1));
            assert(b@.skip(i as int).drop_first() =~= b@.skip(i + 1));
        }
        i = i + 1;
    }
    i < y.len()
}

// ---------------------------------------------------------------------------
// Sorted sets of texts
// ---------------------------------------------------------------------------

/// Whether each text comes before the next: sorted, and no text twice.
pub open spec fn increasing(s: Seq<Seq<char>>) -> bool {
    forall|i: int, j: int| 0 <= i < j < s.len() ==> text_lt(#[trigger] s[i], #[trigger] s[j])
}

/// An increasing list with `x` put in its place.
pub open spec fn with_text(s: Seq<Seq<char>>, x: Seq<char>) -> Seq<Seq<char>>
    decreases s.len(),
{
    if s.len() == 0 {
        seq![x]
    } else if s.last() == x {
        s
    } else if text_lt(s.last(), x) {
        s.push(x)
    } else {
        with_text(s.drop_last(), x).push(s.last())
    }
}

/// The distinct texts of a list in their order.
pub open spec fn sorted_set(s: Seq<Seq<char>>) -> Seq<Seq<char>>
    decreases s.len(),
{
    if s.len() == 0 {
        Seq::empty()
    } else {
        with_text(sorted_set(s.drop_last()), s.last())
    }
}

/// Putting a text in its place keeps the list increasing and adds that text only.
pub proof fn lemma_with_text(s: Seq<Seq<char>>, x: Seq<char>)
    requires
        increasing(s),
    ensures
        increasing(with_text(s, x)),
        forall|y: Seq<char>| #[trigger]
            with_text(s, x).contains(y) <==> s.contains(y) || y == x,
        with_text(s, x).len() <= s.len() + 1,
    decreases s.len(),
{
    if s.len() == 0 {
        assert(with_text(s, x)[0] == x);
    } else if s.last() == x {
        assert(s[s.len() - 1] == x);
    } else if text_lt(s.last(), x) {
        let r = s.push(x);
        assert forall|i: int, j: int| 0 <= i < j < r.len() implies text_lt(
            #[trigger] r[i],
            #[trigger] r[j],
        ) by {
            if j == s.len() && i < s.len() - 1 {
                lemma_text_lt_transitive(s[i], s[s.len() - 1], x);
            }
        }
        assert forall|y: Seq<char>| r.contains(y) <==> s.contains(y) || y == x by {
            if s.contains(y) {
                let k = choose|k: int| 0 <= k < s.len() && s[k] == y;
                assert(r[k] == y);
            }
            assert(r[s.len() as int] == x);
        }
    } else {
        lemma_text_lt_total(s.last(), x);
        let d = s.drop_last();
        let w = with_text(d, x);
        let r = w.push(s.last());
        lemma_with_text(d, x);
        assert forall|i: int, j: int| 0 <= i < j < r.len() implies text_lt(
            #[trigger] r[i],
            #[trigger] r[j],
        ) by {
            if j == w.len() {
                assert(w.contains(w[i]));
                if d.contains(w[i]) {
                    let k = choose|k: int| 0 <= k < d.len() && d[k] == w[i];
                    assert(text_lt(s[k], s[s.len() - 1]));
                }
            }
        }
        assert forall|y: Seq<char>| r.contains(y) <==> s.contains(y) || y == x by {
            if r.contains(y) {
                let k = choose|k: int| 0 <= k < r.len() && r[k] == y;
                if k < w.len() {
                    assert(w.contains(y));
                    if d.contains(y) {
                        let m = choose|m: int| 0 <= m < d.len() && d[m] == y;
                        assert(s[m] == y);
                    }
                } else {
                    assert(s[s.len() - 1] == y);
                }
            }
            if s.contains(y) {
                let k = choose|k: int| 0 <= k < s.len() && s[k] == y;
                if k < d.len() {
                    assert(d[k] == y);
                    assert(d.contains(y));
                    assert(w.contains(y));
                    let m = choose|m: int| 0 <= m < w.len() && w[m] == y;
                    assert(r[m] == y);
                } else {
                    assert(r[w.len() as int] == y);
                }
            }
            if y == x {
                assert(w.contains(x));
                let m = choose|m: int| 0 <= m < w.len() && w[m] == x;
                assert(r[m] == x);
            }
        }
    }
}

/// A sorted set is increasing and holds exactly the texts of the list.
pub proof fn law_sorted_set(s: Seq<Seq<char>>)
    ensures
        increasing(sorted_set(s)),
        forall|y: Seq<char>| sorted_set(s).contains(y) <==> s.contains(y),
        sorted_set(s).len() <= s.len(),
    decreases s.len(),
{
    if s.len() > 0 {
        let d = s.drop_last();
        law_sorted_set(d);
        lemma_with_text(sorted_set(d), s.last());
        assert forall|y: Seq<char>| sorted_set(s).contains(y) <==> s.contains(y) by {
            if s.contains(y) {
                let k = choose|k: int| 0 <= k < s.len() && s[k] == y;
                if k < d.len() {
                    assert(d[k] == y);
                }
            }
            if d.contains(y) {
                let k = choose|k: int| 0 <= k < d.len() && d[k] == y;
                assert(s[k] == y);
            }
            assert(s[s.len() - 1] == s.last());
        }
    }
}

/// There is one increasing list of given texts.
pub proof fn law_increasing_lists_with_equal_texts_are_equal(
    a: Seq<Seq<char>>,
    b: Seq<Seq<char>>,
)
    requires
        increasing(a),
        increasing(b),
        forall|y: Seq<char>| a.contains(y) <==> b.contains(y),
    ensures
        a == b,
    decreases a.len(),
{
    if a.len() == 0 {
        if b.len() > 0 {
            assert(b.contains(b[0]));
        }
        assert(a =~= b);
    } else if b.len() == 0 {
        assert(a.contains(a[0]));
    } else {
        let x = a.last();
        let y = b.last();
        assert(a.contains(x)) by {
            assert(a[a.len() - 1] == x);
        }
        assert(b.contains(y)) by {
            assert(b[b.len() - 1] == y);
        }
        assert(x == y) by {
            let i = choose|i: int| 0 <= i < b.len() && b[i] == x;
            let j = choose|j: int| 0 <= j < a.len() && a[j] == y;
            if x != y {
                assert(text_lt(x, y));
                assert(text_lt(y, x));
                lemma_text_lt_transitive(x, y, x);
                lemma_text_lt_irreflexive(x);
            }
        }
        assert forall|z: Seq<char>| a.drop_last().contains(z) <==> b.drop_last().contains(z) by {
            if a.drop_last().contains(z) {
                let k = choose|k: int| 0 <= k < a.drop_last().len() && a.drop_last()[k] == z;
                assert(a[k] == z);
                assert(text_lt(a[k], a[a.len() - 1]));
                lemma_text_lt_irreflexive(x);
                assert(b.contains(z));
                let m = choose|m: int| 0 <= m < b.len() && b[m] == z;
                assert(b.drop_last()[m] == z);
            }
            if b.drop_last().contains(z) {
                let k = choose|k: int| 0 <= k < b.drop_last().len() && b.drop_last()[k] == z;
                assert(b[k] == z);
                assert(text_lt(b[k], b[b.len() - 1]));
                lemma_text_lt_irreflexive(y);
                assert(a.contains(z));
                let m = choose|m: int| 0 <= m < a.len() && a[m] == z;
                assert(a.drop_last()[m] == z);
            }
        }
        law_increasing_lists_with_equal_texts_are_equal(a.drop_last(), b.drop_last());
        assert(a =~= a.drop_last().push(x));
        assert(b =~= b.drop_last().push(y));
    }
}

/// Where a text is put in an increasing list.
pub proof fn lemma_place(s: Seq<Seq<char>>, x: Seq<char>, p: int)
    requires
        0 <= p <= s.len(),
        forall|j: int| p <= j < s.len() ==> #[trigger] s[j] != x && !text_lt(s[j], x),
        p > 0 ==> s[p - 1] == x || text_lt(s[p - 1], x),
    ensures
        with_text(s, x) == if p > 0 && s[p - 1] == x {
            s
        } else {
            s.insert(p, x)
        },
    decreases s.len(),
{
    if s.len() == 0 {
        assert(s.insert(p, x) =~= seq![x]);
    } else if p == s.len() {
        assert(s.insert(p, x) =~= s.push(x));
    } else {
        assert(s[s.len() - 1] != x);
        lemma_place(s.drop_last(), x, p);
        if p > 0 && s[p - 1] == x {
            assert(s.drop_last().push(s.last()) =~= s);
        } else {
            assert(s.drop_last().insert(p, x).push(s.last()) =~= s.insert(p, x));
        }
    }
}

/// The distinct texts of a list in their order.
pub fn unique_sorted(values: Vec<String>) -> (r: Vec<String>)
    ensures
        r.deep_view() == sorted_set(values.deep_view()),
{
    let mut out: Vec<String> = Vec::new();
    let mut i: usize = 0;
    proof {
        ends(values.deep_view());
        assert(out.deep_view() =~= Seq::<Seq<char>>::empty());
    }
    while i < values.len()
        invariant
            i <= values@.len(),
            out.deep_view() == sorted_set(values.deep_view().take(i as int)),
        decreases values@.len() - i,
    {
        let ghost before = out.deep_view();
        let ghost x = values@[i as int]@;
        let mut p: usize = out.len();
        while p > 0 && !same(&out[p - 1], &values[i]) && !less(&out[p - 1], &values[i])
            invariant
                p <= out@.len(),
                i < values@.len(),
                out.deep_view() == before,
                x == values@[i as int]@,
                forall|j: int| p <= j < before.len() ==> #[trigger] before[j] != x && !text_lt(
                    before[j],
                    x,
                ),
            decreases p,
        {
            p = p - 1;
        }
        proof {
            step(values.deep_view(), i as int);
            lemma_place(before, x, p as int);
        }
        if p == 0 || !same(&out[p - 1], &values[i]) {
            out.insert(p, values[i].clone());
            proof {
                assert(out.deep_view() =~= before.insert(p as int, x));
            }
        }
        i = i + 1;
    }
    proof {
        ends(values.deep_view());
    }
    out
}

// ---------------------------------------------------------------------------
// Stable sorting
// ---------------------------------------------------------------------------

/// A list with `x` put before the trailing elements that it precedes.
pub open spec fn placed<A>(s: Seq<A>, x: A, before: spec_fn(A, A) -> bool) -> Seq<A>
    decreases s.len(),
{
    if s.len() > 0 && before(x, s.last()) {
        placed(s.drop_last(), x, before).push(s.last())
    } else {
        s.push(x)
    }
}

/// The list in the order of `before`; elements that neither precedes the other
/// keep their order.
pub open spec fn sorted_by<A>(s: Seq<A>, before: spec_fn(A, A) -> bool) -> Seq<A>
    decreases s.len(),
{
    if s.len() == 0 {
        Seq::empty()
    } else {
        placed(sorted_by(s.drop_last(), before), s.last(), before)
    }
}

/// Whether no element precedes one that stands before it.
pub open spec fn in_order<A>(s: Seq<A>, before: spec_fn(A, A) -> bool) -> bool {
    forall|i: int, j: int| 0 <= i < j < s.len() ==> !before(#[trigger] s[j], #[trigger] s[i])
}

/// A strict weak order: irreflexive, transitive, with transitive ties.
pub open spec fn strict_weak<A>(before: spec_fn(A, A) -> bool) -> bool {
    &&& forall|a: A| !#[trigger] before(a, a)
    &&& forall|a: A, b: A, c: A| #[trigger]
        before(a, b) && #[trigger] before(b, c) ==> before(a, c)
    &&& forall|a: A, b: A, c: A|
        !#[trigger] before(a, b) && !#[trigger] before(b, c) ==> !before(a, c)
}

proof fn lemma_placed<A>(s: Seq<A>, x: A, before: spec_fn(A, A) -> bool)
    requires
        strict_weak(before),
        in_order(s, before),
    ensures
        in_order(placed(s, x, before), before),
        placed(s, x, before).to_multiset() == s.to_multiset().insert(x),
        placed(s, x, before).len() == s.len() + 1,
        forall|i: int|
            0 <= i <= s.len() ==> (#[trigger] placed(s, x, before)[i] == x || exists|k: int|
                0 <= k < s.len() && s[k] == placed(s, x, before)[i]),
    decreases s.len(),
{
    broadcast use vstd::seq_lib::group_to_multiset_ensures;

    let r = placed(s, x, before);
    if s.len() > 0 && before(x, s.last()) {
        let d = s.drop_last();
        let w = placed(d, x, before);
        lemma_placed(d, x, before);
        assert(s =~= d.push(s.last()));
        assert(s.to_multiset() =~= d.to_multiset().insert(s.last()));
        assert(r.to_multiset() =~= w.to_multiset().insert(s.last()));
        assert(r.to_multiset() =~= s.to_multiset().insert(x));
        assert forall|i: int| 0 <= i <= s.len() implies (#[trigger] r[i] == x || exists|k: int|
            0 <= k < s.len() && s[k] == r[i]) by {
            if i < w.len() {
                assert(r[i] == w[i]);
                if w[i] != x {
                    let k = choose|k: int| 0 <= k < d.len() && d[k] == w[i];
                    assert(s[k] == r[i]);
                }
            } else {
                assert(s[s.len() - 1] == r[i]);
            }
        }
        assert forall|i: int, j: int| 0 <= i < j < r.len() implies !before(
            #[trigger] r[j],
            #[trigger] r[i],
        ) by {
            if j == w.len() {
                assert(r[i] == w[i]);
                if w[i] == x {
                    if before(s.last(), x) {
                        assert(before(x, x));
                    }
                } else {
                    let k = choose|k: int| 0 <= k < d.len() && d[k] == w[i];
                    assert(!before(s[s.len() - 1], s[k]));
                }
            }
        }
    } else {
        assert(r == s.push(x));
        assert forall|i: int, j: int| 0 <= i < j < r.len() implies !before(
            #[trigger] r[j],
            #[trigger] r[i],
        ) by {
            if j == s.len() {
                if i < s.len() - 1 {
                    assert(!before(s[s.len() - 1], s[i]));
                }
            }
        }
        assert forall|i: int| 0 <= i <= s.len() implies (#[trigger] r[i] == x || exists|k: int|
            0 <= k < s.len() && s[k] == r[i]) by {
            if i < s.len() {
                assert(s[i] == r[i]);
            }
        }
    }
}

proof fn lemma_placed_keeps<A>(s: Seq<A>, x: A, before: spec_fn(A, A) -> bool, p: spec_fn(A) -> bool)
    ensures
        placed(s, x, before).len() == s.len() + 1,
        p(x) && (forall|i: int| 0 <= i < s.len() ==> p(#[trigger] s[i])) ==> forall|i: int|
            0 <= i < s.len() + 1 ==> p(#[trigger] placed(s, x, before)[i]),
    decreases s.len(),
{
    if s.len() > 0 && before(x, s.last()) {
        let d = s.drop_last();
        lemma_placed_keeps(d, x, before, p);
        if p(x) && (forall|i: int| 0 <= i < s.len() ==> p(#[trigger] s[i])) {
            assert forall|i: int| 0 <= i < d.len() implies p(#[trigger] d[i]) by {
                assert(d[i] == s[i]);
            }
            assert(s[s.len() - 1] == s.last());
        }
    }
}

/// Sorting keeps the number of elements, and what holds of each.
pub proof fn lemma_sorted_by_keeps<A>(
    s: Seq<A>,
    before: spec_fn(A, A) -> bool,
    p: spec_fn(A) -> bool,
)
    ensures
        sorted_by(s, before).len() == s.len(),
        (forall|i: int| 0 <= i < s.len() ==> p(#[trigger] s[i])) ==> forall|i: int|
            0 <= i < s.len() ==> p(#[trigger] sorted_by(s, before)[i]),
    decreases s.len(),
{
    if s.len() > 0 {
        let d = s.drop_last();
        lemma_sorted_by_keeps(d, before, p);
        lemma_placed_keeps(sorted_by(d, before), s.last(), before, p);
        if forall|i: int| 0 <= i < s.len() ==> p(#[trigger] s[i]) {
            assert forall|i: int| 0 <= i < d.len() implies p(#[trigger] d[i]) by {
                assert(d[i] == s[i]);
            }
            assert(s[s.len() - 1] == s.last());
        }
    }
}

/// Sorting keeps the elements and puts them in order.
pub proof fn law_sorted_by<A>(s: Seq<A>, before: spec_fn(A, A) -> bool)
    requires
        strict_weak(before),
    ensures
        in_order(sorted_by(s, before), before),
        sorted_by(s, before).to_multiset() == s.to_multiset(),
        sorted_by(s, before).len() == s.len(),
    decreases s.len(),
{
    broadcast use vstd::seq_lib::group_to_multiset_ensures;

    if s.len() > 0 {
        let d = s.drop_last();
        law_sorted_by(d, before);
        lemma_placed(sorted_by(d, before), s.last(), before);
        assert(s =~= d.push(s.last()));
    }
}

/// A type whose values are sorted by a rank.
pub trait Ranked: DeepView + Sized {
    /// Whether `a` is sorted before `b`.
    spec fn before(a: Self::V, b: Self::V) -> bool;

    /// Whether this value is sorted before `other`.
    fn ranks_before(&self, other: &Self) -> (r: bool)
        ensures
            r == Self::before(self.deep_view(), other.deep_view()),
    ;
}

/// The order of a ranked type.
pub open spec fn rank<T: Ranked>() -> spec_fn(T::V, T::V) -> bool {
    |a: T::V, b: T::V| T::before(a, b)
}

proof fn lemma_insertion_point<A>(s: Seq<A>, x: A, before: spec_fn(A, A) -> bool, p: int)
    requires
        0 <= p <= s.len(),
        forall|j: int| p <= j < s.len() ==> before(x, #[trigger] s[j]),
        p > 0 ==> !before(x, s[p - 1]),
    ensures
        placed(s, x, before) == s.insert(p, x),
    decreases s.len(),
{
    if p < s.len() {
        assert(before(x, s[s.len() - 1]));
        lemma_insertion_point(s.drop_last(), x, before, p);
        assert(s.drop_last().insert(p, x).push(s.last()) =~= s.insert(p, x));
    } else {
        assert(s.insert(p, x) =~= s.push(x));
    }
}

/// The list sorted by rank; equal ranks keep their order.
pub fn sort_stable<T: Ranked>(values: Vec<T>) -> (r: Vec<T>)
    ensures
        r.deep_view() == sorted_by(values.deep_view(), rank::<T>()),
{
    let mut rest = values;
    let ghost all = rest.deep_view();
    let mut out: Vec<T> = Vec::new();
    let mut n: usize = 0;
    proof {
        ends(all);
        assert(out.deep_view() =~= Seq::<T::V>::empty());
        assert(all.skip(0) =~= all);
    }
    while rest.len() > 0
        invariant
            n + rest@.len() == all.len(),
            n <= usize::MAX - rest.len(),
            rest.deep_view() == all.skip(n as int),
            out.deep_view() == sorted_by(all.take(n as int), rank::<T>()),
        decreases rest@.len(),
    {
        let ghost held = rest.deep_view();
        let x = rest.remove(0);
        let ghost sorted = out.deep_view();
        proof {
            assert(held[0] == x.deep_view());
            assert(rest.deep_view() =~= held.drop_first());
            assert(held.drop_first() =~= all.skip(n + 1));
            step(all, n as int);
        }
        let mut p: usize = out.len();
        while p > 0 && x.ranks_before(&out[p - 1])
            invariant
                p <= out@.len(),
                out.deep_view() == sorted,
                forall|j: int| p <= j < sorted.len() ==> T::before(
                    x.deep_view(),
                    #[trigger] sorted[j],
                ),
            decreases p,
        {
            p = p - 1;
        }
        proof {
            lemma_insertion_point(sorted, x.deep_view(), rank::<T>(), p as int);
        }
        out.insert(p, x);
        proof {
            assert(out.deep_view() =~= sorted.insert(p as int, all[n as int]));
        }
        n = n + 1;
    }
    proof {
        ends(all);
    }
    out
}

// ---------------------------------------------------------------------------
// Sorted sets of ranked values
// ---------------------------------------------------------------------------

/// An increasing list with `x` put in its place, unless it is there already.
pub open spec fn with_value<A>(s: Seq<A>, x: A, before: spec_fn(A, A) -> bool) -> Seq<A>
    decreases s.len(),
{
    if s.len() == 0 || before(s.last(), x) {
        s.push(x)
    } else if before(x, s.last()) {
        with_value(s.drop_last(), x, before).push(s.last())
    } else {
        s
    }
}

/// The distinct values of a list in their order.
pub open spec fn sorted_values<A>(s: Seq<A>, before: spec_fn(A, A) -> bool) -> Seq<A>
    decreases s.len(),
{
    if s.len() == 0 {
        Seq::empty()
    } else {
        with_value(sorted_values(s.drop_last(), before), s.last(), before)
    }
}

proof fn lemma_value_place<A>(s: Seq<A>, x: A, before: spec_fn(A, A) -> bool, p: int)
    requires
        0 <= p <= s.len(),
        forall|j: int| p <= j < s.len() ==> !before(#[trigger] s[j], x) && before(x, s[j]),
    ensures
        p == 0 || before(s[p - 1], x) ==> with_value(s, x, before) == s.insert(p, x),
        p > 0 && !before(s[p - 1], x) && !before(x, s[p - 1]) ==> with_value(s, x, before) == s,
    decreases s.len(),
{
    if p < s.len() {
        assert(before(x, s[s.len() - 1]));
        lemma_value_place(s.drop_last(), x, before, p);
        if p == 0 || before(s[p - 1], x) {
            assert(s.drop_last().insert(p, x).push(s.last()) =~= s.insert(p, x));
        } else {
            assert(s.drop_last().push(s.last()) =~= s);
        }
    } else {
        assert(s.insert(p, x) =~= s.push(x));
    }
}

/// The distinct values of a list in their order.
pub fn unique_ranked<T: Ranked>(values: Vec<T>) -> (r: Vec<T>)
    ensures
        r.deep_view() == sorted_values(values.deep_view(), rank::<T>()),
{
    let mut rest = values;
    let ghost all = rest.deep_view();
    let mut out: Vec<T> = Vec::new();
    let mut n: usize = 0;
    proof {
        ends(all);
        assert(out.deep_view() =~= Seq::<T::V>::empty());
        assert(all.skip(0) =~= all);
    }
    while rest.len() > 0
        invariant
            n + rest@.len() == all.len(),
            n <= usize::MAX - rest.len(),
            rest.deep_view() == all.skip(n as int),
            out.deep_view() == sorted_values(all.take(n as int), rank::<T>()),
        decreases rest@.len(),
    {
        let ghost held = rest.deep_view();
        let x = rest.remove(0);
        let ghost sorted = out.deep_view();
        proof {
            assert(held[0] == x.deep_view());
            assert(rest.deep_view() =~= held.drop_first());
            assert(held.drop_first() =~= all.skip(n + 1));
            step(all, n as int);
        }
        let mut p: usize = out.len();
        while p > 0 && !out[p - 1].ranks_before(&x) && x.ranks_before(&out[p - 1])
            invariant
                p <= out@.len(),
                out.deep_view() == sorted,
                forall|j: int| p <= j < sorted.len() ==> !T::before(
                    #[trigger] sorted[j],
                    x.deep_view(),
                ) && T::before(x.deep_view(), sorted[j]),
            decreases p,
        {
            p = p - 1;
        }
        proof {
            lemma_value_place(sorted, x.deep_view(), rank::<T>(), p as int);
        }
        if p == 0 || out[p - 1].ranks_before(&x) {
            out.insert(p, x);
            proof {
                assert(out.deep_view() =~= sorted.insert(p as int, all[n as int]));
            }
        }
        n = n + 1;
    }
    proof {
        ends(all);
    }
    out
}

/// The order of pairs: by the first text, then by the second.
pub open spec fn pair_lt(a: (Seq<char>, Seq<char>), b: (Seq<char>, Seq<char>)) -> bool {
    text_lt(a.0, b.0) || a.0 == b.0 && text_lt(a.1, b.1)
}

impl Ranked for (String, String) {
    open spec fn before(a: (Seq<char>, Seq<char>), b: (Seq<char>, Seq<char>)) -> bool {
        pair_lt(a, b)
    }

    fn ranks_before(&self, other: &Self) -> (r: bool) {
        less(&self.0, &other.0) || (same(&self.0, &other.0) && less(&self.1, &other.1))
    }
}

/// The first value that `f` gives for an element.
pub open spec fn first_some<A, B>(s: Seq<A>, f: spec_fn(A) -> Option<B>) -> Option<B>
    decreases s.len(),
{
    if s.len() == 0 {
        None
    } else {
        match first_some(s.drop_last(), f) {
            Some(b) => Some(b),
            None => f(s.last()),
        }
    }
}

/// Whether two lists have a text in common.
pub open spec fn share(a: Seq<Seq<char>>, b: Seq<Seq<char>>) -> bool {
    any(a, |x: Seq<char>| b.contains(x))
}

/// Whether two lists have a text in common.
pub fn overlap(a: &Vec<String>, b: &Vec<String>) -> (r: bool)
    ensures
        r == share(a.deep_view(), b.deep_view()),
{
    let ghost all = a.deep_view();
    let mut found = false;
    let mut i: usize = 0;
    proof {
        ends(all);
    }
    while i < a.len()
        invariant
            i <= a@.len(),
            all == a.deep_view(),
            found == share(all.take(i as int), b.deep_view()),
        decreases a@.len() - i,
    {
        proof {
            step(all, i as int);
        }
        if includes(b, &a[i]) {
            found = true;
        }
        i = i + 1;
    }
    proof {
        ends(all);
    }
    found
}

/// Up to `n` texts from the front.
pub fn take_texts(list: &Vec<String>, n: usize) -> (r: Vec<String>)
    ensures
        r.deep_view() == front(list.deep_view(), n as nat),
{
    let mut out: Vec<String> = Vec::new();
    let mut i: usize = 0;
    while i < list.len() && i < n
        invariant
            i <= list@.len(),
            i <= n,
            out@.len() == i,
            forall|j: int| 0 <= j < i ==> (#[trigger] out@[j])@ == list.deep_view()[j],
        decreases list@.len() - i,
    {
        out.push(list[i].clone());
        i = i + 1;
    }
    proof {
        assert(out.deep_view() =~= front(list.deep_view(), n as nat));
    }
    out
}

/// Up to `n` elements from the front.
pub open spec fn front<A>(s: Seq<A>, n: nat) -> Seq<A> {
    if s.len() <= n {
        s
    } else {
        s.take(n as int)
    }
}

/// The list of `prefix` followed by the text, where there is one.
pub open spec fn labelled(prefix: Seq<char>, text: Option<Seq<char>>) -> Seq<Seq<char>> {
    match text {
        Some(text) => seq![prefix + text],
        None => Seq::empty(),
    }
}

/// Appends `prefix` followed by the text, where there is one.
pub fn note_some(list: &mut Vec<String>, prefix: &str, text: Option<&str>)
    ensures
        final(list).deep_view() == old(list).deep_view() + labelled(prefix@, text.deep_view()),
{
    match text {
        Some(text) => {
            list.push(cat2(prefix, text));
            proof {
                assert(list.deep_view() =~= old(list).deep_view() + seq![prefix@ + text@]);
            }
        },
        None => {
            proof {
                assert(list.deep_view() =~= old(list).deep_view() + Seq::<Seq<char>>::empty());
            }
        },
    }
}

/// Each text with `prefix` before it.
pub open spec fn all_labelled(prefix: Seq<char>, texts: Seq<Seq<char>>) -> Seq<Seq<char>> {
    texts.map_values(|t: Seq<char>| prefix + t)
}

/// Appends each text with `prefix` before it.
pub fn note_all(list: &mut Vec<String>, prefix: &str, texts: &Vec<String>)
    ensures
        final(list).deep_view() == old(list).deep_view() + all_labelled(
            prefix@,
            texts.deep_view(),
        ),
{
    let ghost start = list.deep_view();
    let ghost more = all_labelled(prefix@, texts.deep_view());
    let mut i: usize = 0;
    proof {
        assert(list.deep_view() =~= start + more.take(0));
    }
    while i < texts.len()
        invariant
            i <= texts@.len(),
            more == all_labelled(prefix@, texts.deep_view()),
            list.deep_view() == start + more.take(i as int),
        decreases texts@.len() - i,
    {
        let ghost held = list.deep_view();
        list.push(cat2(prefix, &texts[i]));
        proof {
            step(more, i as int);
            assert(list.deep_view() =~= held.push(more[i as int]));
            assert(list.deep_view() =~= start + more.take(i + 1));
        }
        i = i + 1;
    }
    proof {
        ends(more);
    }
}

/// The last element that satisfies `p`.
pub open spec fn last_where<A>(s: Seq<A>, p: spec_fn(A) -> bool) -> Option<A>
    decreases s.len(),
{
    if s.len() == 0 {
        None
    } else if p(s.last()) {
        Some(s.last())
    } else {
        last_where(s.drop_last(), p)
    }
}

/// Whether the text occurs in the slice.
pub fn has_in(list: &[String], text: &str) -> (r: bool)
    ensures
        r == list.deep_view().contains(text@),
{
    let mut i: usize = 0;
    while i < list.len()
        invariant
            i <= list@.len(),
            forall|j: int| 0 <= j < i ==> list.deep_view()[j] != text@,
        decreases list@.len() - i,
    {
        if same(&list[i], text) {
            proof {
                assert(list.deep_view()[i as int] == text@);
            }
            return true;
        }
        i = i + 1;
    }
    false
}

/// Appends a text.
pub fn put(list: &mut Vec<String>, text: &str)
    ensures
        final(list).deep_view() == old(list).deep_view().push(text@),
{
    let ghost before = list.deep_view();
    list.push(text.to_string());
    proof {
        assert(list.deep_view() =~= before.push(text@));
    }
}

impl Ranked for String {
    open spec fn before(a: Seq<char>, b: Seq<char>) -> bool {
        text_lt(a, b)
    }

    fn ranks_before(&self, other: &Self) -> (r: bool) {
        less(self, other)
    }
}

/// The place of the first element that satisfies `p`; the length where none does.
pub open spec fn first_index<A>(s: Seq<A>, p: spec_fn(A) -> bool) -> int
    decreases s.len(),
{
    if s.len() == 0 {
        0
    } else if first_index(s.drop_last(), p) < s.len() - 1 {
        first_index(s.drop_last(), p)
    } else if p(s.last()) {
        s.len() - 1
    } else {
        s.len() as int
    }
}

// ---------------------------------------------------------------------------
// Distinct values in order
// ---------------------------------------------------------------------------

/// Whether `before` orders any two different values, and only those.
pub open spec fn strict_total<A>(before: spec_fn(A, A) -> bool) -> bool {
    &&& forall|a: A| !#[trigger] before(a, a)
    &&& forall|a: A, b: A, c: A| #[trigger]
        before(a, b) && #[trigger] before(b, c) ==> before(a, c)
    &&& forall|a: A, b: A| #[trigger] before(a, b) || before(b, a) || a == b
}

/// Whether every element comes before those after it.
pub open spec fn strictly_ordered<A>(s: Seq<A>, before: spec_fn(A, A) -> bool) -> bool {
    forall|i: int, j: int| 0 <= i < j < s.len() ==> before(#[trigger] s[i], #[trigger] s[j])
}

proof fn lemma_with_value<A>(s: Seq<A>, x: A, before: spec_fn(A, A) -> bool)
    requires
        strict_total(before),
        strictly_ordered(s, before),
    ensures
        strictly_ordered(with_value(s, x, before), before),
        forall|i: int|
            0 <= i < with_value(s, x, before).len() ==> #[trigger] with_value(s, x, before)[i] == x
                || s.contains(with_value(s, x, before)[i]),
    decreases s.len(),
{
    let r = with_value(s, x, before);
    if s.len() == 0 || before(s.last(), x) {
        assert forall|i: int, j: int| 0 <= i < j < r.len() implies before(
            #[trigger] r[i],
            #[trigger] r[j],
        ) by {
            if j == s.len() && i < s.len() - 1 {
                assert(before(s[i], s[s.len() - 1]));
                assert(before(s.last(), x));
            }
        }
        assert forall|i: int| 0 <= i < r.len() implies #[trigger] r[i] == x || s.contains(r[i]) by {
            if i < s.len() {
                assert(s[i] == r[i]);
            }
        }
    } else if before(x, s.last()) {
        let d = s.drop_last();
        let w = with_value(d, x, before);
        lemma_with_value(d, x, before);
        assert(r == w.push(s.last()));
        assert forall|i: int, j: int| 0 <= i < j < r.len() implies before(
            #[trigger] r[i],
            #[trigger] r[j],
        ) by {
            if j == w.len() {
                if w[i] != x {
                    assert(d.contains(w[i]));
                    let k = choose|k: int| 0 <= k < d.len() && d[k] == w[i];
                    assert(before(s[k], s[s.len() - 1]));
                }
            }
        }
        assert forall|i: int| 0 <= i < r.len() implies #[trigger] r[i] == x || s.contains(r[i]) by {
            if i < w.len() {
                if w[i] != x {
                    assert(d.contains(w[i]));
                    let k = choose|k: int| 0 <= k < d.len() && d[k] == w[i];
                    assert(s[k] == r[i]);
                }
            } else {
                assert(s[s.len() - 1] == r[i]);
            }
        }
    } else {
        assert forall|i: int| 0 <= i < r.len() implies #[trigger] r[i] == x || s.contains(r[i]) by {
            assert(s[i] == r[i]);
        }
    }
}

/// Sorted values are in order, and none occurs twice.
pub proof fn law_sorted_values<A>(s: Seq<A>, before: spec_fn(A, A) -> bool)
    requires
        strict_total(before),
    ensures
        strictly_ordered(sorted_values(s, before), before),
        sorted_values(s, before).no_duplicates(),
    decreases s.len(),
{
    if s.len() > 0 {
        law_sorted_values(s.drop_last(), before);
        lemma_with_value(sorted_values(s.drop_last(), before), s.last(), before);
    }
    let r = sorted_values(s, before);
    assert forall|i: int, j: int| 0 <= i < r.len() && 0 <= j < r.len() && i != j implies r[i]
        != r[j] by {
        if i < j {
            assert(before(r[i], r[j]));
        } else {
            assert(before(r[j], r[i]));
        }
    }
}

proof fn lemma_value_is_kept<A>(s: Seq<A>, x: A, before: spec_fn(A, A) -> bool, y: A)
    requires
        strict_total(before),
        y == x || s.contains(y),
    ensures
        with_value(s, x, before).contains(y),
    decreases s.len(),
{
    let r = with_value(s, x, before);
    if s.len() == 0 || before(s.last(), x) {
        if y == x {
            assert(r[s.len() as int] == x);
        } else {
            let k = choose|k: int| 0 <= k < s.len() && s[k] == y;
            assert(r[k] == y);
        }
    } else if before(x, s.last()) {
        let d = s.drop_last();
        if y != x && y == s.last() {
            assert(r[r.len() - 1] == y);
        } else {
            if y != x {
                let k = choose|k: int| 0 <= k < s.len() && s[k] == y;
                assert(d[k] == y);
            }
            lemma_value_is_kept(d, x, before, y);
            let w = with_value(d, x, before);
            let k = choose|k: int| 0 <= k < w.len() && w[k] == y;
            assert(r[k] == y);
        }
    } else if y == x {
        assert(s[s.len() - 1] == x);
    }
}

/// The distinct values of a list are all of its values.
pub proof fn law_sorted_values_keep_all<A>(s: Seq<A>, before: spec_fn(A, A) -> bool, i: int)
    requires
        strict_total(before),
        0 <= i < s.len(),
    ensures
        sorted_values(s, before).contains(s[i]),
    decreases s.len(),
{
    let d = s.drop_last();
    if i < d.len() {
        law_sorted_values_keep_all(d, before, i);
        assert(d[i] == s[i]);
    }
    lemma_value_is_kept(sorted_values(d, before), s.last(), before, s[i]);
}

/// Pairs of texts are totally ordered.
pub proof fn law_pairs_are_ordered()
    ensures
        strict_total(rank::<(String, String)>()),
{
    let before = rank::<(String, String)>();
    assert forall|a: (Seq<char>, Seq<char>)| !#[trigger] before(a, a) by {
        lemma_text_lt_irreflexive(a.0);
        lemma_text_lt_irreflexive(a.1);
    }
    assert forall|
        a: (Seq<char>, Seq<char>),
        b: (Seq<char>, Seq<char>),
        c: (Seq<char>, Seq<char>),
    | #[trigger] before(a, b) && #[trigger] before(b, c) implies before(a, c) by {
        if text_lt(a.0, b.0) && text_lt(b.0, c.0) {
            lemma_text_lt_transitive(a.0, b.0, c.0);
        }
        if text_lt(a.1, b.1) && text_lt(b.1, c.1) {
            lemma_text_lt_transitive(a.1, b.1, c.1);
        }
    }
    assert forall|a: (Seq<char>, Seq<char>), b: (Seq<char>, Seq<char>)| #[trigger]
        before(a, b) || before(b, a) || a == b by {
        lemma_text_lt_total(a.0, b.0);
        lemma_text_lt_total(a.1, b.1);
    }
}

/// The sum of the sizes of the elements.
pub open spec fn total<A>(s: Seq<A>, size: spec_fn(A) -> nat) -> nat
    decreases s.len(),
{
    if s.len() == 0 {
        0
    } else {
        total(s.drop_last(), size) + size(s.last())
    }
}

/// How many elements have this key.
pub open spec fn with_key<A, K>(s: Seq<A>, key: spec_fn(A) -> K, k: K) -> nat {
    tally(s, |a: A| key(a) == k)
}

proof fn lemma_absent_key<A, K>(s: Seq<A>, x: A, keys: Seq<K>, key: spec_fn(A) -> K)
    requires
        !keys.contains(key(x)),
    ensures
        total(keys, |k: K| with_key(s.push(x), key, k)) == total(keys, |k: K| with_key(s, key, k)),
    decreases keys.len(),
{
    if keys.len() > 0 {
        let d = keys.drop_last();
        assert forall|k: K| d.contains(k) implies keys.contains(k) by {
            let i = choose|i: int| 0 <= i < d.len() && d[i] == k;
            assert(keys[i] == k);
        }
        lemma_absent_key(s, x, d, key);
        assert(keys[keys.len() - 1] == keys.last());
        assert(s.push(x).drop_last() =~= s);
    }
}

proof fn lemma_key_once<A, K>(s: Seq<A>, x: A, keys: Seq<K>, key: spec_fn(A) -> K)
    requires
        keys.no_duplicates(),
    ensures
        total(keys, |k: K| with_key(s.push(x), key, k)) <= total(
            keys,
            |k: K| with_key(s, key, k),
        ) + 1,
    decreases keys.len(),
{
    if keys.len() > 0 {
        let d = keys.drop_last();
        assert(s.push(x).drop_last() =~= s);
        if key(x) == keys.last() {
            assert forall|i: int| 0 <= i < d.len() implies d[i] != key(x) by {
                assert(keys[i] != keys[keys.len() - 1]);
            }
            lemma_absent_key(s, x, d, key);
        } else {
            lemma_key_once(s, x, d, key);
        }
    }
}

/// Parts of a list with different keys hold no more than the list.
pub proof fn lemma_parts_fit<A, K>(s: Seq<A>, keys: Seq<K>, key: spec_fn(A) -> K)
    requires
        keys.no_duplicates(),
    ensures
        total(keys, |k: K| with_key(s, key, k)) <= s.len(),
    decreases s.len(),
{
    if s.len() == 0 {
        lemma_empty_parts(s, keys, key);
    } else {
        let d = s.drop_last();
        lemma_parts_fit(d, keys, key);
        lemma_key_once(d, s.last(), keys, key);
        assert(d.push(s.last()) =~= s);
    }
}

proof fn lemma_key_counts<A, K>(s: Seq<A>, x: A, keys: Seq<K>, key: spec_fn(A) -> K)
    requires
        keys.no_duplicates(),
        keys.contains(key(x)),
    ensures
        total(keys, |k: K| with_key(s.push(x), key, k)) == total(
            keys,
            |k: K| with_key(s, key, k),
        ) + 1,
    decreases keys.len(),
{
    let d = keys.drop_last();
    assert(s.push(x).drop_last() =~= s);
    if key(x) == keys.last() {
        assert forall|i: int| 0 <= i < d.len() implies d[i] != key(x) by {
            assert(keys[i] != keys[keys.len() - 1]);
        }
        lemma_absent_key(s, x, d, key);
    } else {
        let k = choose|k: int| 0 <= k < keys.len() && keys[k] == key(x);
        assert(d[k] == key(x));
        lemma_key_counts(s, x, d, key);
    }
}

/// Parts of a list with different keys, which are the keys of all its elements, hold
/// the list.
pub proof fn lemma_parts_cover<A, K>(s: Seq<A>, keys: Seq<K>, key: spec_fn(A) -> K)
    requires
        keys.no_duplicates(),
        forall|i: int| 0 <= i < s.len() ==> keys.contains(key(#[trigger] s[i])),
    ensures
        total(keys, |k: K| with_key(s, key, k)) == s.len(),
    decreases s.len(),
{
    if s.len() == 0 {
        lemma_empty_parts(s, keys, key);
    } else {
        let d = s.drop_last();
        assert forall|i: int| 0 <= i < d.len() implies keys.contains(key(#[trigger] d[i])) by {
            assert(d[i] == s[i]);
        }
        lemma_parts_cover(d, keys, key);
        assert(s[s.len() - 1] == s.last());
        lemma_key_counts(d, s.last(), keys, key);
        assert(d.push(s.last()) =~= s);
    }
}

proof fn lemma_empty_parts<A, K>(s: Seq<A>, keys: Seq<K>, key: spec_fn(A) -> K)
    requires
        s.len() == 0,
    ensures
        total(keys, |k: K| with_key(s, key, k)) == 0,
    decreases keys.len(),
{
    if keys.len() > 0 {
        lemma_empty_parts(s, keys.drop_last(), key);
    }
}

/// Whether two lists hold the same texts in the same order.
pub fn same_texts(a: &Vec<String>, b: &Vec<String>) -> (r: bool)
    ensures
        r == (a.deep_view() == b.deep_view()),
{
    if a.len() != b.len() {
        proof {
            assert(a.deep_view().len() != b.deep_view().len());
        }
        return false;
    }
    let mut i: usize = 0;
    while i < a.len()
        invariant
            a@.len() == b@.len(),
            i <= a@.len(),
            forall|j: int| 0 <= j < i ==> a.deep_view()[j] == b.deep_view()[j],
        decreases a@.len() - i,
    {
        if !same(&a[i], &b[i]) {
            proof {
                assert(a.deep_view()[i as int] != b.deep_view()[i as int]);
            }
            return false;
        }
        i = i + 1;
    }
    proof {
        assert(a.deep_view() =~= b.deep_view());
    }
    true
}

// ---------------------------------------------------------------------------
// Laws
// ---------------------------------------------------------------------------

/// What two lists one after the other hold is what one of them holds.
pub proof fn law_either_list<A>(a: Seq<A>, b: Seq<A>, x: A)
    ensures
        (a + b).contains(x) <==> a.contains(x) || b.contains(x),
{
    if a.contains(x) {
        let i = choose|i: int| 0 <= i < a.len() && a[i] == x;
        assert((a + b)[i] == x);
    }
    if b.contains(x) {
        let i = choose|i: int| 0 <= i < b.len() && b[i] == x;
        assert((a + b)[a.len() + i] == x);
    }
    if (a + b).contains(x) {
        let i = choose|i: int| 0 <= i < (a + b).len() && (a + b)[i] == x;
        if i < a.len() {
            assert(a[i] == x);
        } else {
            assert(b[i - a.len()] == x);
        }
    }
}

/// A list with one more element holds that element and what it held.
pub proof fn law_one_more<A>(a: Seq<A>, last: A, x: A)
    ensures
        a.push(last).contains(x) <==> a.contains(x) || x == last,
{
    assert(a.push(last) =~= a + seq![last]);
    law_either_list(a, seq![last], x);
    assert(seq![last][0] == last);
}

/// A text is noted where the condition holds, and nothing else is.
pub proof fn law_noted(b: bool, text: Seq<char>, x: Seq<char>)
    ensures
        noted(b, text).contains(x) <==> b && x == text,
        noted(b, text).len() == 0 <==> !b,
{
    if b {
        assert(noted(b, text)[0] == text);
    }
}

/// The elements that are kept are those that pass.
pub proof fn law_kept<A>(s: Seq<A>, p: spec_fn(A) -> bool, x: A)
    ensures
        kept(s, p).contains(x) <==> s.contains(x) && p(x),
        kept(s, p).len() == tally(s, p),
    decreases s.len(),
{
    if s.len() > 0 {
        let d = s.drop_last();
        law_kept(d, p, x);
        assert(s =~= d.push(s.last()));
        law_one_more(d, s.last(), x);
        if p(s.last()) {
            law_one_more(kept(d, p), s.last(), x);
        }
    }
}

/// What is kept of two lists one after the other is what is kept of each.
pub proof fn law_kept_of_both<A>(a: Seq<A>, b: Seq<A>, p: spec_fn(A) -> bool)
    ensures
        kept(a + b, p) == kept(a, p) + kept(b, p),
    decreases b.len(),
{
    if b.len() == 0 {
        assert(a + b =~= a);
        assert(kept(a, p) + kept(b, p) =~= kept(a, p));
    } else {
        law_kept_of_both(a, b.drop_last(), p);
        assert((a + b).drop_last() =~= a + b.drop_last());
        assert(kept(a + b, p) =~= kept(a, p) + kept(b, p));
    }
}

/// Of a list in which all pass everything is kept, of one in which none does nothing.
pub proof fn law_all_or_none_is_kept<A>(s: Seq<A>, p: spec_fn(A) -> bool)
    ensures
        (forall|i: int| 0 <= i < s.len() ==> p(#[trigger] s[i])) ==> kept(s, p) == s,
        (forall|i: int| 0 <= i < s.len() ==> !p(#[trigger] s[i])) ==> kept(s, p).len() == 0,
    decreases s.len(),
{
    if s.len() > 0 {
        let d = s.drop_last();
        law_all_or_none_is_kept(d, p);
        assert forall|i: int| 0 <= i < d.len() implies #[trigger] d[i] == s[i] by {}
        assert(s[s.len() - 1] == s.last());
        assert(s =~= d.push(s.last()));
        if forall|i: int| 0 <= i < s.len() ==> p(#[trigger] s[i]) {
            assert forall|i: int| 0 <= i < d.len() implies p(#[trigger] d[i]) by {
                assert(p(s[i]));
            }
        }
        if forall|i: int| 0 <= i < s.len() ==> !p(#[trigger] s[i]) {
            assert forall|i: int| 0 <= i < d.len() implies !p(#[trigger] d[i]) by {
                assert(!p(s[i]));
            }
        }
    }
}

/// The values that are chosen are those that some element gives.
pub proof fn law_chosen<A, B>(s: Seq<A>, f: spec_fn(A) -> Option<B>, x: B)
    ensures
        chosen(s, f).contains(x) <==> exists|i: int|
            0 <= i < s.len() && f(#[trigger] s[i]) == Some(x),
    decreases s.len(),
{
    if s.len() > 0 {
        let d = s.drop_last();
        law_chosen(d, f, x);
        let last = s.len() - 1;
        assert(s[last] == s.last());
        if f(s.last()) is Some {
            law_one_more(chosen(d, f), f(s.last())->0, x);
        }
        if chosen(d, f).contains(x) {
            let i = choose|i: int| 0 <= i < d.len() && f(#[trigger] d[i]) == Some(x);
            assert(f(s[i]) == Some(x));
        }
        if exists|i: int| 0 <= i < s.len() && f(#[trigger] s[i]) == Some(x) {
            let i = choose|i: int| 0 <= i < s.len() && f(#[trigger] s[i]) == Some(x);
            if i < last {
                assert(f(d[i]) == Some(x));
            }
        }
    }
}

/// The values that are gathered are those in what some element gives.
pub proof fn law_gathered<A, B>(s: Seq<A>, f: spec_fn(A) -> Seq<B>, x: B)
    ensures
        gathered(s, f).contains(x) <==> exists|i: int|
            0 <= i < s.len() && f(#[trigger] s[i]).contains(x),
    decreases s.len(),
{
    if s.len() > 0 {
        let d = s.drop_last();
        law_gathered(d, f, x);
        let last = s.len() - 1;
        assert(s[last] == s.last());
        law_either_list(gathered(d, f), f(s.last()), x);
        if gathered(d, f).contains(x) {
            let i = choose|i: int| 0 <= i < d.len() && f(#[trigger] d[i]).contains(x);
            assert(f(s[i]).contains(x));
        }
        if exists|i: int| 0 <= i < s.len() && f(#[trigger] s[i]).contains(x) {
            let i = choose|i: int| 0 <= i < s.len() && f(#[trigger] s[i]).contains(x);
            if i < last {
                assert(f(d[i]).contains(x));
            }
        }
    }
}

/// The first match is an element that passes, and none before it does; there is
/// none where no element passes.
pub proof fn law_first_where<A>(s: Seq<A>, p: spec_fn(A) -> bool)
    ensures
        first_where(s, p) is None <==> forall|i: int| 0 <= i < s.len() ==> !p(#[trigger] s[i]),
        first_where(s, p) is Some ==> exists|i: int|
            0 <= i < s.len() && #[trigger] s[i] == first_where(s, p)->0 && p(s[i]) && forall|j: int|
                0 <= j < i ==> !p(#[trigger] s[j]),
    decreases s.len(),
{
    if s.len() > 0 {
        let d = s.drop_last();
        law_first_where(d, p);
        let last = s.len() - 1;
        assert(s[last] == s.last());
        assert forall|i: int| 0 <= i < d.len() implies #[trigger] d[i] == s[i] by {}
        if first_where(d, p) is Some {
            let i = choose|i: int|
                0 <= i < d.len() && #[trigger] d[i] == first_where(d, p)->0 && p(d[i]) && forall|
                    j: int,
                |
                    0 <= j < i ==> !p(#[trigger] d[j]);
            assert(s[i] == first_where(s, p)->0 && p(s[i]));
            assert forall|j: int| 0 <= j < i implies !p(#[trigger] s[j]) by {
                assert(!p(d[j]));
            }
        } else {
            assert forall|j: int| 0 <= j < last implies !p(#[trigger] s[j]) by {
                assert(!p(d[j]));
            }
        }
    }
}

/// The last match is an element that passes, and none behind it does; there is none
/// where no element passes.
pub proof fn law_last_where<A>(s: Seq<A>, p: spec_fn(A) -> bool)
    ensures
        last_where(s, p) is None <==> forall|i: int| 0 <= i < s.len() ==> !p(#[trigger] s[i]),
        last_where(s, p) is Some ==> exists|i: int|
            0 <= i < s.len() && #[trigger] s[i] == last_where(s, p)->0 && p(s[i]) && forall|j: int|
                i < j < s.len() ==> !p(#[trigger] s[j]),
    decreases s.len(),
{
    if s.len() > 0 {
        let d = s.drop_last();
        law_last_where(d, p);
        let last = s.len() - 1;
        assert(s[last] == s.last());
        assert forall|i: int| 0 <= i < d.len() implies #[trigger] d[i] == s[i] by {}
        if !p(s.last()) {
            if last_where(d, p) is Some {
                let i = choose|i: int|
                    0 <= i < d.len() && #[trigger] d[i] == last_where(d, p)->0 && p(d[i])
                        && forall|j: int| i < j < d.len() ==> !p(#[trigger] d[j]);
                assert(s[i] == last_where(s, p)->0 && p(s[i]));
                assert forall|j: int| i < j < s.len() implies !p(#[trigger] s[j]) by {
                    if j < last {
                        assert(!p(d[j]));
                    }
                }
            } else {
                assert forall|j: int| 0 <= j < s.len() implies !p(#[trigger] s[j]) by {
                    if j < last {
                        assert(!p(d[j]));
                    }
                }
            }
        }
    }
}

/// Something is counted where an element passes; the count of two lists is the sum.
pub proof fn law_tally<A>(a: Seq<A>, b: Seq<A>, p: spec_fn(A) -> bool)
    ensures
        tally(a, p) > 0 <==> exists|i: int| 0 <= i < a.len() && p(#[trigger] a[i]),
        tally(a + b, p) == tally(a, p) + tally(b, p),
{
    law_kept_of_both(a, b, p);
    if tally(a, p) > 0 {
        let x = kept(a, p)[0];
        law_kept(a, p, x);
        assert(kept(a, p).contains(x));
        let i = choose|i: int| 0 <= i < a.len() && a[i] == x;
        assert(p(a[i]));
    }
    if exists|i: int| 0 <= i < a.len() && p(#[trigger] a[i]) {
        let i = choose|i: int| 0 <= i < a.len() && p(#[trigger] a[i]);
        law_kept(a, p, a[i]);
        assert(a.contains(a[i]));
    }
    if a.len() + b.len() > 0 {
        let x = (a + b)[0];
        law_kept(a, p, x);
        law_kept(b, p, x);
        law_kept(a + b, p, x);
    }
}

/// Counting with conditions that agree on every element gives the same.
pub proof fn law_tally_agrees<A>(s: Seq<A>, p: spec_fn(A) -> bool, q: spec_fn(A) -> bool)
    requires
        forall|i: int| 0 <= i < s.len() ==> p(#[trigger] s[i]) == q(s[i]),
    ensures
        tally(s, p) == tally(s, q),
    decreases s.len(),
{
    if s.len() > 0 {
        let d = s.drop_last();
        assert forall|i: int| 0 <= i < d.len() implies p(#[trigger] d[i]) == q(d[i]) by {
            assert(d[i] == s[i]);
        }
        law_tally_agrees(d, p, q);
        assert(s[s.len() - 1] == s.last());
    }
}

/// What an element turns into is counted as the element is.
pub proof fn law_tally_of_images<A, B>(
    s: Seq<A>,
    f: spec_fn(A) -> B,
    p: spec_fn(B) -> bool,
    q: spec_fn(A) -> bool,
)
    requires
        forall|i: int| 0 <= i < s.len() ==> p(f(#[trigger] s[i])) == q(s[i]),
    ensures
        tally(s.map_values(f), p) == tally(s, q),
    decreases s.len(),
{
    if s.len() > 0 {
        let d = s.drop_last();
        assert forall|i: int| 0 <= i < d.len() implies p(f(#[trigger] d[i])) == q(d[i]) by {
            assert(d[i] == s[i]);
        }
        law_tally_of_images(d, f, p, q);
        assert(s.map_values(f).drop_last() =~= d.map_values(f));
        assert(s[s.len() - 1] == s.last());
    }
}

/// Two lists have a text in common where some text is in both.
pub proof fn law_share(a: Seq<Seq<char>>, b: Seq<Seq<char>>)
    ensures
        share(a, b) <==> exists|x: Seq<char>| #[trigger] a.contains(x) && b.contains(x),
{
    let p = |x: Seq<char>| b.contains(x);
    lemma_any(a, p);
    if share(a, b) {
        let i = choose|i: int| 0 <= i < a.len() && p(#[trigger] a[i]);
        assert(a.contains(a[i]));
    }
    if exists|x: Seq<char>| #[trigger] a.contains(x) && b.contains(x) {
        let x = choose|x: Seq<char>| #[trigger] a.contains(x) && b.contains(x);
        let i = choose|i: int| 0 <= i < a.len() && a[i] == x;
        assert(p(a[i]));
    }
}

/// The first value is one that some element gives, and the elements before it give
/// none; there is none where no element gives one.
pub proof fn law_first_some<A, B>(s: Seq<A>, f: spec_fn(A) -> Option<B>)
    ensures
        first_some(s, f) is None <==> forall|i: int| 0 <= i < s.len() ==> f(#[trigger] s[i]) is None,
        first_some(s, f) is Some ==> exists|i: int|
            0 <= i < s.len() && f(#[trigger] s[i]) == first_some(s, f) && forall|j: int|
                0 <= j < i ==> f(#[trigger] s[j]) is None,
    decreases s.len(),
{
    if s.len() > 0 {
        let d = s.drop_last();
        law_first_some(d, f);
        let last = s.len() - 1;
        assert(s[last] == s.last());
        assert forall|i: int| 0 <= i < d.len() implies #[trigger] d[i] == s[i] by {}
        if first_some(d, f) is Some {
            let i = choose|i: int|
                0 <= i < d.len() && f(#[trigger] d[i]) == first_some(d, f) && forall|j: int|
                    0 <= j < i ==> f(#[trigger] d[j]) is None;
            assert(f(s[i]) == first_some(s, f));
            assert forall|j: int| 0 <= j < i implies f(#[trigger] s[j]) is None by {
                assert(f(d[j]) is None);
            }
        } else {
            assert forall|j: int| 0 <= j < last implies f(#[trigger] s[j]) is None by {
                assert(f(d[j]) is None);
            }
        }
    }
}

/// The first place is that of an element that passes, with none before it that does;
/// it is the length where none does.
pub proof fn law_first_index<A>(s: Seq<A>, p: spec_fn(A) -> bool)
    ensures
        0 <= first_index(s, p) <= s.len(),
        first_index(s, p) < s.len() ==> p(s[first_index(s, p)]),
        forall|i: int| 0 <= i < first_index(s, p) ==> !p(#[trigger] s[i]),
    decreases s.len(),
{
    if s.len() > 0 {
        let d = s.drop_last();
        law_first_index(d, p);
        assert(s[s.len() - 1] == s.last());
        assert forall|i: int| 0 <= i < first_index(s, p) implies !p(#[trigger] s[i]) by {
            if i < d.len() {
                assert(d[i] == s[i]);
                if i < first_index(d, p) {
                    assert(!p(d[i]));
                }
            }
        }
        if first_index(d, p) < d.len() {
            assert(d[first_index(d, p)] == s[first_index(d, p)]);
        }
    }
}

/// What is sorted by a number and then by two texts comes in the order of the numbers, and
/// under the same number in that of the texts.
pub proof fn law_ranked<A>(
    s: Seq<A>,
    before: spec_fn(A, A) -> bool,
    key: spec_fn(A) -> int,
    texts: spec_fn(A) -> (Seq<char>, Seq<char>),
    i: int,
    j: int,
)
    requires
        forall|a: A, b: A| #[trigger]
            before(a, b) <==> key(a) < key(b) || key(a) == key(b) && pair_lt(texts(a), texts(b)),
        0 <= i < j < s.len(),
    ensures
        sorted_by(s, before).len() == s.len(),
        key(sorted_by(s, before)[i]) <= key(sorted_by(s, before)[j]),
        key(sorted_by(s, before)[i]) == key(sorted_by(s, before)[j]) ==> !pair_lt(
            texts(sorted_by(s, before)[j]),
            texts(sorted_by(s, before)[i]),
        ),
{
    law_pairs_are_ordered();
    let pairs = rank::<(String, String)>();
    assert forall|a: A| !#[trigger] before(a, a) by {
        assert(!pairs(texts(a), texts(a)));
    }
    assert forall|a: A, b: A, c: A| #[trigger] before(a, b) && #[trigger] before(
        b,
        c,
    ) implies before(a, c) by {
        if key(a) == key(b) && key(b) == key(c) {
            assert(pairs(texts(a), texts(b)) && pairs(texts(b), texts(c)));
            assert(pairs(texts(a), texts(c)));
        }
    }
    assert forall|a: A, b: A, c: A| !#[trigger] before(a, b) && !#[trigger] before(
        b,
        c,
    ) implies !before(a, c) by {
        if before(a, c) && key(a) == key(b) && key(b) == key(c) {
            assert(!pairs(texts(a), texts(b)) && !pairs(texts(b), texts(c)));
            assert(pairs(texts(a), texts(c)));
            assert(pairs(texts(a), texts(b)) || pairs(texts(b), texts(a)) || texts(a) == texts(b));
            if pairs(texts(b), texts(a)) {
                assert(pairs(texts(b), texts(c)));
            }
        }
    }
    law_sorted_by(s, before);
    let sorted = sorted_by(s, before);
    assert(!before(sorted[j], sorted[i]));
}

} // verus!
