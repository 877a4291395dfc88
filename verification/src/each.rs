//! Running a function over each element of a list.
//!
//! Each of these takes an executable function together with the mathematical
//! function that it computes on views.

use vstd::prelude::*;
use crate::list::{
    any, chosen, first_index, first_some, first_where, front, gathered, last_where, tally,
};
use crate::text::{ends, step};

verus! {

broadcast use {vstd::seq::group_seq_axioms, vstd::string::group_string_axioms};

/// Whether `f` decides `p` on views.
pub open spec fn decides<T: DeepView, F: Fn(&T) -> bool>(f: F, p: spec_fn(T::V) -> bool) -> bool {
    &&& forall|x: &T| #[trigger] f.requires((x,))
    &&& forall|x: &T, b: bool| #[trigger] f.ensures((x,), b) ==> b == p(x.deep_view())
}

/// Whether `f` computes `g` on views.
pub open spec fn computes<T: DeepView, U: DeepView, F: Fn(&T) -> U>(
    f: F,
    g: spec_fn(T::V) -> U::V,
) -> bool {
    &&& forall|x: &T| #[trigger] f.requires((x,))
    &&& forall|x: &T, y: U| #[trigger] f.ensures((x,), y) ==> y.deep_view() == g(x.deep_view())
}

/// How many elements satisfy `p`.
pub(crate) fn count_where<T: DeepView, F: Fn(&T) -> bool>(
    v: &Vec<T>,
    f: F,
    Ghost(p): Ghost<spec_fn(T::V) -> bool>,
) -> (r: usize)
    requires
        decides(f, p),
    ensures
        r == tally(v.deep_view(), p),
{
    let ghost all = v.deep_view();
    let mut n: usize = 0;
    let mut i: usize = 0;
    proof {
        ends(all);
    }
    while i < v.len()
        invariant
            decides(f, p),
            i <= v@.len(),
            n <= i,
            all == v.deep_view(),
            n == tally(all.take(i as int), p),
        decreases v@.len() - i,
    {
        proof {
            step(all, i as int);
            assert(all[i as int] == v@[i as int].deep_view());
        }
        if f(&v[i]) {
            n = n + 1;
        }
        i = i + 1;
    }
    proof {
        ends(all);
    }
    n
}

/// Whether some element satisfies `p`.
pub(crate) fn any_where<T: DeepView, F: Fn(&T) -> bool>(
    v: &Vec<T>,
    f: F,
    Ghost(p): Ghost<spec_fn(T::V) -> bool>,
) -> (r: bool)
    requires
        decides(f, p),
    ensures
        r == any(v.deep_view(), p),
{
    let ghost all = v.deep_view();
    let mut found = false;
    let mut i: usize = 0;
    proof {
        ends(all);
    }
    while i < v.len()
        invariant
            decides(f, p),
            i <= v@.len(),
            all == v.deep_view(),
            found == any(all.take(i as int), p),
        decreases v@.len() - i,
    {
        proof {
            step(all, i as int);
            assert(all[i as int] == v@[i as int].deep_view());
        }
        if f(&v[i]) {
            found = true;
        }
        i = i + 1;
    }
    proof {
        ends(all);
    }
    found
}

/// The first element that satisfies `p`.
pub(crate) fn find_first<'a, T: DeepView, F: Fn(&T) -> bool>(
    v: &'a Vec<T>,
    f: F,
    Ghost(p): Ghost<spec_fn(T::V) -> bool>,
) -> (r: Option<&'a T>)
    requires
        decides(f, p),
    ensures
        r.deep_view() == first_where(v.deep_view(), p),
{
    let ghost all = v.deep_view();
    let mut hit: Option<&'a T> = None;
    let mut i: usize = 0;
    proof {
        ends(all);
    }
    while i < v.len()
        invariant
            decides(f, p),
            i <= v@.len(),
            all == v.deep_view(),
            hit.deep_view() == first_where(all.take(i as int), p),
        decreases v@.len() - i,
    {
        proof {
            step(all, i as int);
            assert(all[i as int] == v@[i as int].deep_view());
        }
        if hit.is_none() {
            if f(&v[i]) {
                hit = Some(&v[i]);
            }
        }
        i = i + 1;
    }
    proof {
        ends(all);
    }
    hit
}

/// The place of the first element that satisfies `p`.
pub(crate) fn index_where<T: DeepView, F: Fn(&T) -> bool>(
    v: &Vec<T>,
    f: F,
    Ghost(p): Ghost<spec_fn(T::V) -> bool>,
) -> (r: usize)
    requires
        decides(f, p),
    ensures
        r == first_index(v.deep_view(), p),
        r <= v@.len(),
{
    let ghost all = v.deep_view();
    let mut place: usize = 0;
    let mut found = false;
    let mut i: usize = 0;
    proof {
        ends(all);
    }
    while i < v.len()
        invariant
            decides(f, p),
            i <= v@.len(),
            all == v.deep_view(),
            found ==> place < i,
            !found ==> place == i,
            place == first_index(all.take(i as int), p),
        decreases v@.len() - i,
    {
        proof {
            step(all, i as int);
            assert(all[i as int] == v@[i as int].deep_view());
        }
        if !found {
            if f(&v[i]) {
                found = true;
            } else {
                place = place + 1;
            }
        }
        i = i + 1;
    }
    proof {
        ends(all);
    }
    place
}

/// The last element that satisfies `p`.
pub(crate) fn find_last<'a, T: DeepView, F: Fn(&T) -> bool>(
    v: &'a Vec<T>,
    f: F,
    Ghost(p): Ghost<spec_fn(T::V) -> bool>,
) -> (r: Option<&'a T>)
    requires
        decides(f, p),
    ensures
        r.deep_view() == last_where(v.deep_view(), p),
{
    let ghost all = v.deep_view();
    let mut hit: Option<&'a T> = None;
    let mut i: usize = 0;
    proof {
        ends(all);
    }
    while i < v.len()
        invariant
            decides(f, p),
            i <= v@.len(),
            all == v.deep_view(),
            hit.deep_view() == last_where(all.take(i as int), p),
        decreases v@.len() - i,
    {
        proof {
            step(all, i as int);
            assert(all[i as int] == v@[i as int].deep_view());
        }
        if f(&v[i]) {
            hit = Some(&v[i]);
        }
        i = i + 1;
    }
    proof {
        ends(all);
    }
    hit
}

/// What `g` gives for each element.
pub(crate) fn map_each<T: DeepView, U: DeepView, F: Fn(&T) -> U>(
    v: &Vec<T>,
    f: F,
    Ghost(g): Ghost<spec_fn(T::V) -> U::V>,
) -> (r: Vec<U>)
    requires
        computes(f, g),
    ensures
        r.deep_view() == v.deep_view().map_values(g),
{
    let mut out: Vec<U> = Vec::new();
    let mut i: usize = 0;
    while i < v.len()
        invariant
            computes(f, g),
            i <= v@.len(),
            out@.len() == i,
            forall|j: int| 0 <= j < i ==> (#[trigger] out@[j]).deep_view() == g(v@[j].deep_view()),
        decreases v@.len() - i,
    {
        out.push(f(&v[i]));
        i = i + 1;
    }
    proof {
        assert(out.deep_view() =~= v.deep_view().map_values(g));
    }
    out
}

/// The values that `g` gives, without those elements for which it gives none.
pub(crate) fn choose_each<T: DeepView, U: DeepView, F: Fn(&T) -> Option<U>>(
    v: &Vec<T>,
    f: F,
    Ghost(g): Ghost<spec_fn(T::V) -> Option<U::V>>,
) -> (r: Vec<U>)
    requires
        computes(f, g),
    ensures
        r.deep_view() == chosen(v.deep_view(), g),
{
    let ghost all = v.deep_view();
    let mut out: Vec<U> = Vec::new();
    let mut i: usize = 0;
    proof {
        ends(all);
        assert(out.deep_view() =~= Seq::<U::V>::empty());
    }
    while i < v.len()
        invariant
            computes(f, g),
            i <= v@.len(),
            all == v.deep_view(),
            out.deep_view() == chosen(all.take(i as int), g),
        decreases v@.len() - i,
    {
        let ghost before = out.deep_view();
        proof {
            step(all, i as int);
            assert(all[i as int] == v@[i as int].deep_view());
        }
        if let Some(y) = f(&v[i]) {
            out.push(y);
            proof {
                assert(out.deep_view() =~= before.push(y.deep_view()));
            }
        }
        i = i + 1;
    }
    proof {
        ends(all);
    }
    out
}

/// The first value that `g` gives.
pub(crate) fn pick_first<T: DeepView, U: DeepView, F: Fn(&T) -> Option<U>>(
    v: &Vec<T>,
    f: F,
    Ghost(g): Ghost<spec_fn(T::V) -> Option<U::V>>,
) -> (r: Option<U>)
    requires
        computes(f, g),
    ensures
        r.deep_view() == first_some(v.deep_view(), g),
{
    let ghost all = v.deep_view();
    let mut hit: Option<U> = None;
    let mut i: usize = 0;
    proof {
        ends(all);
    }
    while i < v.len()
        invariant
            computes(f, g),
            i <= v@.len(),
            all == v.deep_view(),
            hit.deep_view() == first_some(all.take(i as int), g),
        decreases v@.len() - i,
    {
        proof {
            step(all, i as int);
            assert(all[i as int] == v@[i as int].deep_view());
        }
        if hit.is_none() {
            hit = f(&v[i]);
        }
        i = i + 1;
    }
    proof {
        ends(all);
    }
    hit
}

/// What `g` gives for each element, one list after the other.
pub(crate) fn gather_each<T: DeepView, U: DeepView, F: Fn(&T) -> Vec<U>>(
    v: &Vec<T>,
    f: F,
    Ghost(g): Ghost<spec_fn(T::V) -> Seq<U::V>>,
) -> (r: Vec<U>)
    requires
        computes(f, g),
    ensures
        r.deep_view() == gathered(v.deep_view(), g),
{
    let ghost all = v.deep_view();
    let mut out: Vec<U> = Vec::new();
    let mut i: usize = 0;
    proof {
        ends(all);
        assert(out.deep_view() =~= Seq::<U::V>::empty());
    }
    while i < v.len()
        invariant
            computes(f, g),
            i <= v@.len(),
            all == v.deep_view(),
            out.deep_view() == gathered(all.take(i as int), g),
        decreases v@.len() - i,
    {
        let ghost before = out.deep_view();
        proof {
            step(all, i as int);
            assert(all[i as int] == v@[i as int].deep_view());
        }
        let mut more = f(&v[i]);
        let ghost added = more.deep_view();
        out.append(&mut more);
        proof {
            assert(out.deep_view() =~= before + added);
        }
        i = i + 1;
    }
    proof {
        ends(all);
    }
    out
}

/// The first `n` elements.
pub(crate) fn keep_front<T: DeepView>(v: Vec<T>, n: usize) -> (r: Vec<T>)
    ensures
        r.deep_view() == front(v.deep_view(), n as nat),
{
    let mut v = v;
    let ghost before = v;
    v.truncate(n);
    proof {
        assert(v.deep_view() =~= front(before.deep_view(), n as nat));
    }
    v
}

} // verus!
