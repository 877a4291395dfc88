//! Routes and certificate policies that get in each other's way.

use vstd::prelude::*;
use crate::caddy::types::{
    CaddyNormalizedRoute, CaddyNormalizedRouteView, CaddyRouteConflict, CaddyRouteConflictView,
    CaddyTlsPolicy, CaddyTlsPolicyView,
};
use crate::each::{choose_each, gather_each, map_each};
use crate::list::{
    Ranked, chosen, gathered, includes, law_chosen, law_either_list, law_gathered,
    law_sorted_values_keep_all, lemma_text_lt_irreflexive, lemma_text_lt_total,
    lemma_text_lt_transitive, less, pair_lt, rank, same_texts, sorted_set, sorted_values,
    strict_total, text_lt, unique_ranked, unique_sorted,
};
use crate::number::{count_text, decimal};
use crate::text::{
    after_prefix, before_suffix, begins, cat2, cat3, cat4, cat6, cat7, cat8, ends_with, finishes,
    law_found_parts_are_there, law_parts_are_found, same, starts_with, strip_prefix, strip_suffix,
};

verus! {

broadcast use {vstd::seq::group_seq_axioms, vstd::string::group_string_axioms};

// ---------------------------------------------------------------------------
// Hosts and paths that overlap
// ---------------------------------------------------------------------------

/// Whether a host lies below a wildcard.
pub open spec fn wildcard_matches(pattern: Seq<char>, host: Seq<char>) -> bool {
    match after_prefix(pattern, "*."@) {
        Some(suffix) => finishes(host, "."@ + suffix),
        None => false,
    }
}

/// Whether a host lies below a wildcard.
pub fn wildcard_host_matches(pattern: &str, host: &str) -> (r: bool)
    ensures
        r == wildcard_matches(pattern@, host@),
{
    match strip_prefix(pattern, "*.") {
        Some(suffix) => ends_with(host, &cat2(".", &suffix)),
        None => false,
    }
}

/// Whether a path lies below a pattern.
pub open spec fn pattern_contains(pattern: Seq<char>, path: Seq<char>) -> bool {
    match before_suffix(pattern, "*"@) {
        Some(prefix) => begins(path, prefix),
        None => false,
    }
}

/// Whether a path lies below a pattern.
pub fn path_pattern_contains(pattern: &str, path: &str) -> (r: bool)
    ensures
        r == pattern_contains(pattern@, path@),
{
    match strip_suffix(pattern, "*") {
        Some(prefix) => starts_with(path, &prefix),
        None => false,
    }
}

/// Whether two hosts have something in common.
pub open spec fn hosts_meet(a: Seq<char>, b: Seq<char>) -> bool {
    a == b || a == "*"@ || b == "*"@ || wildcard_matches(a, b) || wildcard_matches(b, a)
}

/// Whether two hosts have something in common.
pub fn hosts_overlap(left: &str, right: &str) -> (r: bool)
    ensures
        r == hosts_meet(left@, right@),
{
    same(left, right) || same(left, "*") || same(right, "*") || wildcard_host_matches(left, right)
        || wildcard_host_matches(right, left)
}

/// Whether two paths have something in common.
pub open spec fn paths_meet(a: Seq<char>, b: Seq<char>) -> bool {
    a == b || a == "*"@ || b == "*"@ || pattern_contains(a, b) || pattern_contains(b, a)
}

/// Whether two paths have something in common.
pub fn paths_overlap(left: &str, right: &str) -> (r: bool)
    ensures
        r == paths_meet(left@, right@),
{
    same(left, right) || same(left, "*") || same(right, "*") || path_pattern_contains(left, right)
        || path_pattern_contains(right, left)
}

/// Whether a host is covered by another.
pub open spec fn host_covered(pattern: Seq<char>, host: Seq<char>) -> bool {
    pattern == "*"@ || pattern == host || wildcard_matches(pattern, host)
}

/// Whether a host is covered by another.
pub fn host_covers(pattern: &str, host: &str) -> (r: bool)
    ensures
        r == host_covered(pattern@, host@),
{
    same(pattern, "*") || same(pattern, host) || wildcard_host_matches(pattern, host)
}

/// Whether a path is covered by another.
pub open spec fn path_covered(pattern: Seq<char>, path: Seq<char>) -> bool {
    pattern == "*"@ || pattern == path || pattern_contains(pattern, path)
}

/// Whether a path is covered by another.
pub fn path_covers(pattern: &str, path: &str) -> (r: bool)
    ensures
        r == path_covered(pattern@, path@),
{
    same(pattern, "*") || same(pattern, path) || path_pattern_contains(pattern, path)
}

/// Whether something in one list is related to something in the other.
pub open spec fn related(
    a: Seq<Seq<char>>,
    b: Seq<Seq<char>>,
    relation: spec_fn(Seq<char>, Seq<char>) -> bool,
) -> bool {
    exists|i: int, j: int|
        0 <= i < a.len() && 0 <= j < b.len() && relation(#[trigger] a[i], #[trigger] b[j])
}

/// Whether something in a list is related to a text.
pub open spec fn has_related(
    a: Seq<Seq<char>>,
    text: Seq<char>,
    relation: spec_fn(Seq<char>, Seq<char>) -> bool,
) -> bool {
    exists|i: int| 0 <= i < a.len() && relation(#[trigger] a[i], text)
}

/// Whether everything in the second list is related to something in the first.
pub open spec fn all_related(
    a: Seq<Seq<char>>,
    b: Seq<Seq<char>>,
    relation: spec_fn(Seq<char>, Seq<char>) -> bool,
) -> bool {
    forall|j: int| 0 <= j < b.len() ==> has_related(a, #[trigger] b[j], relation)
}

/// Hosts that have something in common.
pub open spec fn meeting_hosts() -> spec_fn(Seq<char>, Seq<char>) -> bool {
    |a: Seq<char>, b: Seq<char>| hosts_meet(a, b)
}

/// Paths that have something in common.
pub open spec fn meeting_paths() -> spec_fn(Seq<char>, Seq<char>) -> bool {
    |a: Seq<char>, b: Seq<char>| paths_meet(a, b)
}

/// Hosts of which one covers the other.
pub open spec fn covering_hosts() -> spec_fn(Seq<char>, Seq<char>) -> bool {
    |a: Seq<char>, b: Seq<char>| host_covered(a, b)
}

/// Paths of which one covers the other.
pub open spec fn covering_paths() -> spec_fn(Seq<char>, Seq<char>) -> bool {
    |a: Seq<char>, b: Seq<char>| path_covered(a, b)
}

/// Whether something in the list is related to a text.
fn some_related<F: Fn(&String, &String) -> bool>(
    a: &Vec<String>,
    text: &String,
    f: F,
    Ghost(relation): Ghost<spec_fn(Seq<char>, Seq<char>) -> bool>,
) -> (r: bool)
    requires
        forall|x: &String, y: &String| #[trigger] call_requires(f, (x, y)),
        forall|x: &String, y: &String, b: bool| #[trigger]
            call_ensures(f, (x, y), b) ==> b == relation(x@, y@),
    ensures
        r == has_related(a.deep_view(), text@, relation),
{
    let mut i: usize = 0;
    while i < a.len()
        invariant
            i <= a@.len(),
            forall|x: &String, y: &String| #[trigger] call_requires(f, (x, y)),
            forall|x: &String, y: &String, b: bool| #[trigger]
                call_ensures(f, (x, y), b) ==> b == relation(x@, y@),
            forall|k: int| 0 <= k < i ==> !relation(#[trigger] a.deep_view()[k], text@),
        decreases a@.len() - i,
    {
        if f(&a[i], text) {
            proof {
                assert(relation(a.deep_view()[i as int], text@));
            }
            return true;
        }
        i = i + 1;
    }
    false
}

/// Whether something in one list is related to something in the other.
fn any_related<F: Fn(&String, &String) -> bool>(
    a: &Vec<String>,
    b: &Vec<String>,
    f: F,
    Ghost(relation): Ghost<spec_fn(Seq<char>, Seq<char>) -> bool>,
) -> (r: bool)
    requires
        forall|x: &String, y: &String| #[trigger] call_requires(f, (x, y)),
        forall|x: &String, y: &String, b: bool| #[trigger]
            call_ensures(f, (x, y), b) ==> b == relation(x@, y@),
    ensures
        r == related(a.deep_view(), b.deep_view(), relation),
{
    let mut i: usize = 0;
    while i < a.len()
        invariant
            i <= a@.len(),
            forall|x: &String, y: &String| #[trigger] call_requires(f, (x, y)),
            forall|x: &String, y: &String, b: bool| #[trigger]
                call_ensures(f, (x, y), b) ==> b == relation(x@, y@),
            forall|k: int, m: int|
                0 <= k < i && 0 <= m < b@.len() ==> !relation(
                    #[trigger] a.deep_view()[k],
                    #[trigger] b.deep_view()[m],
                ),
        decreases a@.len() - i,
    {
        let mut j: usize = 0;
        while j < b.len()
            invariant
                i < a@.len(),
                j <= b@.len(),
                forall|x: &String, y: &String| #[trigger] call_requires(f, (x, y)),
                forall|x: &String, y: &String, b: bool| #[trigger]
                    call_ensures(f, (x, y), b) ==> b == relation(x@, y@),
                forall|m: int|
                    0 <= m < j ==> !relation(
                        a.deep_view()[i as int],
                        #[trigger] b.deep_view()[m],
                    ),
            decreases b@.len() - j,
        {
            if f(&a[i], &b[j]) {
                proof {
                    assert(relation(a.deep_view()[i as int], b.deep_view()[j as int]));
                }
                return true;
            }
            j = j + 1;
        }
        i = i + 1;
    }
    false
}

/// Whether everything in the second list is related to something in the first.
fn every_related<F: Fn(&String, &String) -> bool>(
    a: &Vec<String>,
    b: &Vec<String>,
    f: F,
    Ghost(relation): Ghost<spec_fn(Seq<char>, Seq<char>) -> bool>,
) -> (r: bool)
    requires
        forall|x: &String, y: &String| #[trigger] call_requires(f, (x, y)),
        forall|x: &String, y: &String, b: bool| #[trigger]
            call_ensures(f, (x, y), b) ==> b == relation(x@, y@),
    ensures
        r == all_related(a.deep_view(), b.deep_view(), relation),
{
    let mut j: usize = 0;
    while j < b.len()
        invariant
            j <= b@.len(),
            forall|x: &String, y: &String| #[trigger] call_requires(f, (x, y)),
            forall|x: &String, y: &String, b: bool| #[trigger]
                call_ensures(f, (x, y), b) ==> b == relation(x@, y@),
            forall|m: int|
                0 <= m < j ==> has_related(a.deep_view(), #[trigger] b.deep_view()[m], relation),
        decreases b@.len() - j,
    {
        let found = some_related(
            a,
            &b[j],
            |x: &String, y: &String| -> (r: bool)
                ensures
                    r == relation(x@, y@)
                { f(x, y) },
            Ghost(relation),
        );
        if !found {
            proof {
                assert(!has_related(a.deep_view(), b.deep_view()[j as int], relation));
            }
            return false;
        }
        j = j + 1;
    }
    proof {
        assert(b.deep_view().len() == b@.len());
    }
    true
}

/// Whether two routes match some request alike.
pub open spec fn routes_meet(
    left: CaddyNormalizedRouteView,
    right: CaddyNormalizedRouteView,
) -> bool {
    related(left.hosts, right.hosts, meeting_hosts()) && related(
        left.paths,
        right.paths,
        meeting_paths(),
    )
}

/// Whether two routes match some request alike.
pub fn route_match_overlaps(left: &CaddyNormalizedRoute, right: &CaddyNormalizedRoute) -> (r: bool)
    ensures
        r == routes_meet(left.deep_view(), right.deep_view()),
{
    any_related(
        &left.hosts,
        &right.hosts,
        |a: &String, b: &String| -> (r: bool)
            ensures
                r == hosts_meet(a@, b@)
            { hosts_overlap(a, b) },
        Ghost(meeting_hosts()),
    ) && any_related(
        &left.paths,
        &right.paths,
        |a: &String, b: &String| -> (r: bool)
            ensures
                r == paths_meet(a@, b@)
            { paths_overlap(a, b) },
        Ghost(meeting_paths()),
    )
}

/// Whether a route matches every request that the other one does.
pub open spec fn route_covered(
    left: CaddyNormalizedRouteView,
    right: CaddyNormalizedRouteView,
) -> bool {
    all_related(left.hosts, right.hosts, covering_hosts()) && all_related(
        left.paths,
        right.paths,
        covering_paths(),
    )
}

/// Whether a route matches every request that the other one does.
pub fn route_match_covers(left: &CaddyNormalizedRoute, right: &CaddyNormalizedRoute) -> (r: bool)
    ensures
        r == route_covered(left.deep_view(), right.deep_view()),
{
    every_related(
        &left.hosts,
        &right.hosts,
        |a: &String, b: &String| -> (r: bool)
            ensures
                r == host_covered(a@, b@)
            { host_covers(a, b) },
        Ghost(covering_hosts()),
    ) && every_related(
        &left.paths,
        &right.paths,
        |a: &String, b: &String| -> (r: bool)
            ensures
                r == path_covered(a@, b@)
            { path_covers(a, b) },
        Ghost(covering_paths()),
    )
}

/// Whether the order of two routes matters.
pub open spec fn order_matters(
    left: CaddyNormalizedRouteView,
    right: CaddyNormalizedRouteView,
) -> bool {
    left.terminal || right.terminal || left.handle_chain != right.handle_chain
        || left.paths.contains("*"@) || right.paths.contains("*"@)
}

/// Whether the order of two routes matters.
pub fn route_priority_overlap_is_risky(
    left: &CaddyNormalizedRoute,
    right: &CaddyNormalizedRoute,
) -> (r: bool)
    ensures
        r == order_matters(left.deep_view(), right.deep_view()),
{
    left.terminal || right.terminal || !same_texts(&left.handle_chain, &right.handle_chain)
        || includes(&left.paths, "*") || includes(&right.paths, "*")
}

// ---------------------------------------------------------------------------
// Conflicts between routes
// ---------------------------------------------------------------------------

/// A conflict.
pub open spec fn conflict(code: Seq<char>, message: Seq<char>, routes: Seq<Seq<char>>) ->
    CaddyRouteConflictView {
    CaddyRouteConflictView { code, severity: "warn"@, message, routes }
}

/// A conflict.
pub fn make_conflict(code: &str, message: String, routes: Vec<String>) -> (r: CaddyRouteConflict)
    ensures
        r.deep_view() == conflict(code@, message@, routes.deep_view()),
{
    CaddyRouteConflict {
        code: code.to_string(),
        severity: "warn".to_string(),
        message,
        routes,
    }
}

/// Two texts.
fn two_texts(a: &str, b: &str) -> (r: Vec<String>)
    ensures
        r.deep_view() == seq![a@, b@],
{
    let v: Vec<String> = vec![a.to_string(), b.to_string()];
    proof {
        assert(v.deep_view() =~= seq![a@, b@]);
    }
    v
}

/// What a route matches on exactly.
#[derive(Debug)]
pub struct RouteKey {
    pub server: String,
    pub host: String,
    pub path: String,
}

/// View of [`RouteKey`].
#[verifier::ext_equal]
pub struct RouteKeyView {
    pub server: Seq<char>,
    pub host: Seq<char>,
    pub path: Seq<char>,
}

impl DeepView for RouteKey {
    type V = RouteKeyView;

    open spec fn deep_view(&self) -> RouteKeyView {
        RouteKeyView {
            server: self.server.deep_view(),
            host: self.host.deep_view(),
            path: self.path.deep_view(),
        }
    }
}

impl Clone for RouteKey {
    fn clone(&self) -> (r: Self)
        ensures
            r.deep_view() == self.deep_view(),
    {
        RouteKey {
            server: self.server.clone(),
            host: self.host.clone(),
            path: self.path.clone(),
        }
    }
}

impl Ranked for RouteKey {
    /// By server, then by host, then by path.
    open spec fn before(a: RouteKeyView, b: RouteKeyView) -> bool {
        text_lt(a.server, b.server) || a.server == b.server && pair_lt(
            (a.host, a.path),
            (b.host, b.path),
        )
    }

    fn ranks_before(&self, other: &Self) -> (r: bool) {
        less(&self.server, &other.server) || (same(&self.server, &other.server) && (less(
            &self.host,
            &other.host,
        ) || (same(&self.host, &other.host) && less(&self.path, &other.path))))
    }
}

/// What a route matches on exactly with one host.
pub open spec fn keys_with_host(route: CaddyNormalizedRouteView, host: Seq<char>) -> Seq<
    RouteKeyView,
> {
    route.paths.map_values(
        |path: Seq<char>| RouteKeyView { server: route.server, host, path },
    )
}

/// What a route matches on exactly.
pub open spec fn keys_of(route: CaddyNormalizedRouteView) -> Seq<RouteKeyView> {
    gathered(route.hosts, |host: Seq<char>| keys_with_host(route, host))
}

/// What a route matches on exactly.
fn list_keys(route: &CaddyNormalizedRoute) -> (r: Vec<RouteKey>)
    ensures
        r.deep_view() == keys_of(route.deep_view()),
{
    gather_each(
        &route.hosts,
        |host: &String| -> (r: Vec<RouteKey>)
            ensures
                r.deep_view() == keys_with_host(route.deep_view(), host@)
            {
                map_each(
                    &route.paths,
                    |path: &String| -> (k: RouteKey)
                        ensures
                            k.deep_view() == (RouteKeyView {
                                server: route.deep_view().server,
                                host: host@,
                                path: path@,
                            })
                        {
                            RouteKey {
                                server: route.server.clone(),
                                host: host.clone(),
                                path: path.clone(),
                            }
                        },
                    Ghost(
                        |path: Seq<char>|
                            RouteKeyView {
                                server: route.deep_view().server,
                                host: host@,
                                path,
                            },
                    ),
                )
            },
        Ghost(|host: Seq<char>| keys_with_host(route.deep_view(), host)),
    )
}

/// The id of a route for what it matches exactly, where that is this.
pub open spec fn id_at(route: CaddyNormalizedRouteView, key: RouteKeyView) -> spec_fn(
    RouteKeyView,
) -> Option<Seq<char>> {
    |k: RouteKeyView|
        if k == key {
            Some(route.id)
        } else {
            None
        }
}

/// The id of a route, as often as it matches exactly this.
pub open spec fn ids_with_key(route: CaddyNormalizedRouteView, key: RouteKeyView) -> Seq<
    Seq<char>,
> {
    chosen(keys_of(route), id_at(route, key))
}

/// The ids of the routes that match exactly this.
pub open spec fn route_ids(routes: Seq<CaddyNormalizedRouteView>, key: RouteKeyView) -> Seq<
    Seq<char>,
> {
    gathered(routes, |r: CaddyNormalizedRouteView| ids_with_key(r, key))
}

/// Whether two keys are the same.
fn same_key(a: &RouteKey, b: &RouteKey) -> (r: bool)
    ensures
        r == (a.deep_view() == b.deep_view()),
{
    same(&a.server, &b.server) && same(&a.host, &b.host) && same(&a.path, &b.path)
}

/// The ids of the routes that match exactly this.
fn list_route_ids(routes: &Vec<CaddyNormalizedRoute>, key: &RouteKey) -> (r: Vec<String>)
    ensures
        r.deep_view() == route_ids(routes.deep_view(), key.deep_view()),
{
    gather_each(
        routes,
        |route: &CaddyNormalizedRoute| -> (r: Vec<String>)
            ensures
                r.deep_view() == ids_with_key(route.deep_view(), key.deep_view())
            {
                choose_each(
                    &list_keys(route),
                    |k: &RouteKey| -> (t: Option<String>)
                        ensures
                            t.deep_view() == (if k.deep_view() == key.deep_view() {
                                Some(route.deep_view().id)
                            } else {
                                None
                            })
                        {
                            if same_key(k, key) {
                                Some(route.id.clone())
                            } else {
                                None
                            }
                        },
                    Ghost(id_at(route.deep_view(), key.deep_view())),
                )
            },
        Ghost(|r: CaddyNormalizedRouteView| ids_with_key(r, key.deep_view())),
    )
}

/// The conflict between routes that match exactly the same.
pub open spec fn duplicate_conflict(
    routes: Seq<CaddyNormalizedRouteView>,
    key: RouteKeyView,
) -> Option<CaddyRouteConflictView> {
    let ids = route_ids(routes, key);
    if ids.len() > 1 {
        Some(
            conflict(
                "duplicate_route_match"@,
                "server "@ + key.server + " has "@ + decimal(ids.len()) + " routes for host "@
                    + key.host + " and path "@ + key.path,
                ids,
            ),
        )
    } else {
        None
    }
}

/// The conflict between routes that match exactly the same.
fn find_duplicate(routes: &Vec<CaddyNormalizedRoute>, key: &RouteKey) -> (r: Option<
    CaddyRouteConflict,
>)
    ensures
        r.deep_view() == duplicate_conflict(routes.deep_view(), key.deep_view()),
{
    let ids = list_route_ids(routes, key);
    proof {
        assert(ids.deep_view().len() == ids@.len());
    }
    if ids.len() > 1 {
        let message = cat8(
            "server ",
            &key.server,
            " has ",
            &count_text(ids.len()),
            " routes for host ",
            &key.host,
            " and path ",
            &key.path,
        );
        Some(make_conflict("duplicate_route_match", message, ids))
    } else {
        None
    }
}

/// The conflicts between two routes, of which one comes first.
pub open spec fn conflicts_between(
    left: CaddyNormalizedRouteView,
    right: CaddyNormalizedRouteView,
) -> Seq<CaddyRouteConflictView> {
    if left.server != right.server || !routes_meet(left, right) {
        Seq::empty()
    } else {
        Seq::<CaddyRouteConflictView>::empty().push(
            conflict(
                "overlapping_route_match"@,
                "server "@ + left.server + " has overlapping route matchers between "@ + left.id
                    + " and "@ + right.id,
                seq![left.id, right.id],
            ),
        ) + (if order_matters(left, right) {
            seq![
                conflict(
                    "route_priority_overlap"@,
                    "server "@ + left.server + " has route priority overlap: "@ + left.id
                        + " order "@ + decimal(left.order) + " can affect "@ + right.id
                        + " order "@ + decimal(right.order),
                    seq![left.id, right.id],
                ),
            ]
        } else {
            Seq::empty()
        }) + (if left.terminal && route_covered(left, right) {
            seq![
                conflict(
                    "terminal_route_shadow"@,
                    "server "@ + left.server + " has terminal route "@ + left.id + " before "@
                        + right.id + ", which may shadow the later route"@,
                    seq![left.id, right.id],
                ),
            ]
        } else {
            Seq::empty()
        })
    }
}

/// The conflicts between two routes, of which one comes first.
pub fn find_conflicts_between(left: &CaddyNormalizedRoute, right: &CaddyNormalizedRoute) -> (r: Vec<
    CaddyRouteConflict,
>)
    ensures
        r.deep_view() == conflicts_between(left.deep_view(), right.deep_view()),
{
    let mut out: Vec<CaddyRouteConflict> = Vec::new();
    if !same(&left.server, &right.server) || !route_match_overlaps(left, right) {
        proof {
            assert(out.deep_view() =~= Seq::<CaddyRouteConflictView>::empty());
        }
        return out;
    }
    out.push(
        make_conflict(
            "overlapping_route_match",
            cat6(
                "server ",
                &left.server,
                " has overlapping route matchers between ",
                &left.id,
                " and ",
                &right.id,
            ),
            two_texts(&left.id, &right.id),
        ),
    );
    if route_priority_overlap_is_risky(left, right) {
        let head = cat8(
            "server ",
            &left.server,
            " has route priority overlap: ",
            &left.id,
            " order ",
            &count_text(left.order),
            " can affect ",
            &right.id,
        );
        out.push(
            make_conflict(
                "route_priority_overlap",
                cat3(&head, " order ", &count_text(right.order)),
                two_texts(&left.id, &right.id),
            ),
        );
    }
    if left.terminal && route_match_covers(left, right) {
        out.push(
            make_conflict(
                "terminal_route_shadow",
                cat7(
                    "server ",
                    &left.server,
                    " has terminal route ",
                    &left.id,
                    " before ",
                    &right.id,
                    ", which may shadow the later route",
                ),
                two_texts(&left.id, &right.id),
            ),
        );
    }
    proof {
        assert(out.deep_view() =~= conflicts_between(left.deep_view(), right.deep_view()));
    }
    out
}

/// The conflicts of a route with those behind it, up to one.
pub open spec fn later_conflicts(
    routes: Seq<CaddyNormalizedRouteView>,
    i: int,
    j: int,
) -> Seq<CaddyRouteConflictView>
    decreases j - i,
{
    if j <= i + 1 {
        Seq::empty()
    } else {
        later_conflicts(routes, i, j - 1) + conflicts_between(routes[i], routes[j - 1])
    }
}

/// The conflicts of the first `i` routes with those behind them.
pub open spec fn pair_conflicts(routes: Seq<CaddyNormalizedRouteView>, i: int) -> Seq<
    CaddyRouteConflictView,
>
    decreases i,
{
    if i <= 0 {
        Seq::empty()
    } else {
        pair_conflicts(routes, i - 1) + later_conflicts(routes, i - 1, routes.len() as int)
    }
}

/// Adds conflicts.
fn add_conflicts(list: &mut Vec<CaddyRouteConflict>, more: Vec<CaddyRouteConflict>)
    ensures
        final(list).deep_view() == old(list).deep_view() + more.deep_view(),
{
    let ghost before = list.deep_view();
    let ghost added = more.deep_view();
    let mut more = more;
    list.append(&mut more);
    proof {
        assert(list.deep_view() =~= before + added);
    }
}

/// The conflicts of a route with those behind it.
fn find_later_conflicts(routes: &Vec<CaddyNormalizedRoute>, i: usize) -> (r: Vec<
    CaddyRouteConflict,
>)
    requires
        i < routes@.len(),
    ensures
        r.deep_view() == later_conflicts(
            routes.deep_view(),
            i as int,
            routes.deep_view().len() as int,
        ),
{
    let size = routes.len();
    let mut out: Vec<CaddyRouteConflict> = Vec::new();
    let mut j: usize = i + 1;
    proof {
        assert(out.deep_view() =~= Seq::<CaddyRouteConflictView>::empty());
    }
    while j < size
        invariant
            i < j <= size,
            size == routes@.len(),
            out.deep_view() == later_conflicts(routes.deep_view(), i as int, j as int),
        decreases size - j,
    {
        proof {
            assert(routes.deep_view()[i as int] == routes@[i as int].deep_view());
            assert(routes.deep_view()[j as int] == routes@[j as int].deep_view());
        }
        add_conflicts(&mut out, find_conflicts_between(&routes[i], &routes[j]));
        j = j + 1;
    }
    out
}

/// The conflicts between routes: those that match exactly the same, then those of
/// each pair.
pub open spec fn route_conflicts(routes: Seq<CaddyNormalizedRouteView>) -> Seq<
    CaddyRouteConflictView,
> {
    chosen(
        sorted_values(
            gathered(routes, |r: CaddyNormalizedRouteView| keys_of(r)),
            rank::<RouteKey>(),
        ),
        |k: RouteKeyView| duplicate_conflict(routes, k),
    ) + pair_conflicts(routes, routes.len() as int)
}

/// The conflicts between routes.
pub fn caddy_route_conflicts(routes: &Vec<CaddyNormalizedRoute>) -> (r: Vec<CaddyRouteConflict>)
    ensures
        r.deep_view() == route_conflicts(routes.deep_view()),
{
    let keys = unique_ranked(
        gather_each(
            routes,
            |route: &CaddyNormalizedRoute| -> (r: Vec<RouteKey>)
                ensures
                    r.deep_view() == keys_of(route.deep_view())
                { list_keys(route) },
            Ghost(|r: CaddyNormalizedRouteView| keys_of(r)),
        ),
    );
    let mut conflicts = choose_each(
        &keys,
        |k: &RouteKey| -> (r: Option<CaddyRouteConflict>)
            ensures
                r.deep_view() == duplicate_conflict(routes.deep_view(), k.deep_view())
            { find_duplicate(routes, k) },
        Ghost(|k: RouteKeyView| duplicate_conflict(routes.deep_view(), k)),
    );
    let mut pairs: Vec<CaddyRouteConflict> = Vec::new();
    let mut i: usize = 0;
    proof {
        assert(pairs.deep_view() =~= Seq::<CaddyRouteConflictView>::empty());
        assert(routes.deep_view().len() == routes@.len());
    }
    while i < routes.len()
        invariant
            i <= routes@.len(),
            routes.deep_view().len() == routes@.len(),
            pairs.deep_view() == pair_conflicts(routes.deep_view(), i as int),
        decreases routes@.len() - i,
    {
        add_conflicts(&mut pairs, find_later_conflicts(routes, i));
        i = i + 1;
    }
    add_conflicts(&mut conflicts, pairs);
    conflicts
}

// ---------------------------------------------------------------------------
// Conflicts between certificate policies
// ---------------------------------------------------------------------------

/// The id of a policy, as often as it names a subject.
pub open spec fn ids_with_subject(policy: CaddyTlsPolicyView, subject: Seq<char>) -> Seq<
    Seq<char>,
> {
    chosen(
        policy.subjects,
        |s: Seq<char>|
            if s == subject {
                Some(policy.id)
            } else {
                None
            },
    )
}

/// The ids of the policies that name a subject.
pub open spec fn policy_ids(policies: Seq<CaddyTlsPolicyView>, subject: Seq<char>) -> Seq<
    Seq<char>,
> {
    gathered(policies, |p: CaddyTlsPolicyView| ids_with_subject(p, subject))
}

/// The ids of the policies that name a subject.
fn list_policy_ids(policies: &Vec<CaddyTlsPolicy>, subject: &str) -> (r: Vec<String>)
    ensures
        r.deep_view() == policy_ids(policies.deep_view(), subject@),
{
    gather_each(
        policies,
        |p: &CaddyTlsPolicy| -> (r: Vec<String>)
            ensures
                r.deep_view() == ids_with_subject(p.deep_view(), subject@)
            {
                choose_each(
                    &p.subjects,
                    |s: &String| -> (t: Option<String>)
                        ensures
                            t.deep_view() == (if s@ == subject@ {
                                Some(p.deep_view().id)
                            } else {
                                None
                            })
                        {
                            if same(s, subject) {
                                Some(p.id.clone())
                            } else {
                                None
                            }
                        },
                    Ghost(
                        |s: Seq<char>|
                            if s == subject@ {
                                Some(p.deep_view().id)
                            } else {
                                None
                            },
                    ),
                )
            },
        Ghost(|p: CaddyTlsPolicyView| ids_with_subject(p, subject@)),
    )
}

/// The conflict between policies for the same subject.
pub open spec fn subject_conflict(
    policies: Seq<CaddyTlsPolicyView>,
    subject: Seq<char>,
) -> Option<CaddyRouteConflictView> {
    let ids = policy_ids(policies, subject);
    if ids.len() > 1 {
        Some(
            conflict(
                "duplicate_tls_policy_subject"@,
                "Caddy TLS automation has "@ + decimal(ids.len()) + " policies for subject "@
                    + subject,
                ids,
            ),
        )
    } else {
        None
    }
}

/// The conflict between policies for the same subject.
fn find_subject_conflict(policies: &Vec<CaddyTlsPolicy>, subject: &str) -> (r: Option<
    CaddyRouteConflict,
>)
    ensures
        r.deep_view() == subject_conflict(policies.deep_view(), subject@),
{
    let ids = list_policy_ids(policies, subject);
    proof {
        assert(ids.deep_view().len() == ids@.len());
    }
    if ids.len() > 1 {
        let message = cat4(
            "Caddy TLS automation has ",
            &count_text(ids.len()),
            " policies for subject ",
            subject,
        );
        Some(make_conflict("duplicate_tls_policy_subject", message, ids))
    } else {
        None
    }
}

/// The conflict between two subjects of two policies.
pub open spec fn subjects_conflict(
    left: CaddyTlsPolicyView,
    right: CaddyTlsPolicyView,
    a: Seq<char>,
    b: Seq<char>,
) -> Option<CaddyRouteConflictView> {
    if a != b && hosts_meet(a, b) {
        Some(
            conflict(
                "overlapping_tls_policy_subject"@,
                "Caddy TLS automation policies overlap between "@ + a + " and "@ + b,
                seq![left.id, right.id],
            ),
        )
    } else {
        None
    }
}

/// The conflicts of a subject of one policy with those of another.
pub open spec fn subject_conflicts(
    left: CaddyTlsPolicyView,
    right: CaddyTlsPolicyView,
    a: Seq<char>,
) -> Seq<CaddyRouteConflictView> {
    chosen(right.subjects, |b: Seq<char>| subjects_conflict(left, right, a, b))
}

/// The conflicts between two policies.
pub open spec fn policy_conflicts_between(
    left: CaddyTlsPolicyView,
    right: CaddyTlsPolicyView,
) -> Seq<CaddyRouteConflictView> {
    gathered(left.subjects, |a: Seq<char>| subject_conflicts(left, right, a))
}

/// The conflicts between two policies.
pub fn find_policy_conflicts(left: &CaddyTlsPolicy, right: &CaddyTlsPolicy) -> (r: Vec<
    CaddyRouteConflict,
>)
    ensures
        r.deep_view() == policy_conflicts_between(left.deep_view(), right.deep_view()),
{
    gather_each(
        &left.subjects,
        |a: &String| -> (r: Vec<CaddyRouteConflict>)
            ensures
                r.deep_view() == subject_conflicts(left.deep_view(), right.deep_view(), a@)
            {
                choose_each(
                    &right.subjects,
                    |b: &String| -> (r: Option<CaddyRouteConflict>)
                        ensures
                            r.deep_view() == subjects_conflict(
                                left.deep_view(),
                                right.deep_view(),
                                a@,
                                b@,
                            )
                        {
                            if !same(a, b) && hosts_overlap(a, b) {
                                Some(
                                    make_conflict(
                                        "overlapping_tls_policy_subject",
                                        cat4(
                                            "Caddy TLS automation policies overlap between ",
                                            a,
                                            " and ",
                                            b,
                                        ),
                                        two_texts(&left.id, &right.id),
                                    ),
                                )
                            } else {
                                None
                            }
                        },
                    Ghost(
                        |b: Seq<char>|
                            subjects_conflict(left.deep_view(), right.deep_view(), a@, b),
                    ),
                )
            },
        Ghost(|a: Seq<char>| subject_conflicts(left.deep_view(), right.deep_view(), a)),
    )
}

/// The conflicts of a policy with those behind it, up to one.
pub open spec fn later_policy_conflicts(
    policies: Seq<CaddyTlsPolicyView>,
    i: int,
    j: int,
) -> Seq<CaddyRouteConflictView>
    decreases j - i,
{
    if j <= i + 1 {
        Seq::empty()
    } else {
        later_policy_conflicts(policies, i, j - 1) + policy_conflicts_between(
            policies[i],
            policies[j - 1],
        )
    }
}

/// The conflicts of the first `i` policies with those behind them.
pub open spec fn policy_pair_conflicts(policies: Seq<CaddyTlsPolicyView>, i: int) -> Seq<
    CaddyRouteConflictView,
>
    decreases i,
{
    if i <= 0 {
        Seq::empty()
    } else {
        policy_pair_conflicts(policies, i - 1) + later_policy_conflicts(
            policies,
            i - 1,
            policies.len() as int,
        )
    }
}

/// The conflicts of a policy with those behind it.
fn find_later_policy_conflicts(policies: &Vec<CaddyTlsPolicy>, i: usize) -> (r: Vec<
    CaddyRouteConflict,
>)
    requires
        i < policies@.len(),
    ensures
        r.deep_view() == later_policy_conflicts(
            policies.deep_view(),
            i as int,
            policies.deep_view().len() as int,
        ),
{
    let size = policies.len();
    let mut out: Vec<CaddyRouteConflict> = Vec::new();
    let mut j: usize = i + 1;
    proof {
        assert(out.deep_view() =~= Seq::<CaddyRouteConflictView>::empty());
    }
    while j < size
        invariant
            i < j <= size,
            size == policies@.len(),
            out.deep_view() == later_policy_conflicts(policies.deep_view(), i as int, j as int),
        decreases size - j,
    {
        proof {
            assert(policies.deep_view()[i as int] == policies@[i as int].deep_view());
            assert(policies.deep_view()[j as int] == policies@[j as int].deep_view());
        }
        add_conflicts(&mut out, find_policy_conflicts(&policies[i], &policies[j]));
        j = j + 1;
    }
    out
}

/// The conflicts between policies.
pub open spec fn policy_conflicts(policies: Seq<CaddyTlsPolicyView>) -> Seq<
    CaddyRouteConflictView,
> {
    chosen(
        sorted_set(gathered(policies, |p: CaddyTlsPolicyView| p.subjects)),
        |s: Seq<char>| subject_conflict(policies, s),
    ) + policy_pair_conflicts(policies, policies.len() as int)
}

/// The conflicts between policies.
pub fn caddy_tls_policy_conflicts(policies: &Vec<CaddyTlsPolicy>) -> (r: Vec<CaddyRouteConflict>)
    ensures
        r.deep_view() == policy_conflicts(policies.deep_view()),
{
    let subjects = unique_sorted(
        gather_each(
            policies,
            |p: &CaddyTlsPolicy| -> (r: Vec<String>)
                ensures
                    r.deep_view() == p.deep_view().subjects
                { p.subjects.clone() },
            Ghost(|p: CaddyTlsPolicyView| p.subjects),
        ),
    );
    let mut conflicts = choose_each(
        &subjects,
        |s: &String| -> (r: Option<CaddyRouteConflict>)
            ensures
                r.deep_view() == subject_conflict(policies.deep_view(), s@)
            { find_subject_conflict(policies, s) },
        Ghost(|s: Seq<char>| subject_conflict(policies.deep_view(), s)),
    );
    let mut pairs: Vec<CaddyRouteConflict> = Vec::new();
    let mut i: usize = 0;
    proof {
        assert(pairs.deep_view() =~= Seq::<CaddyRouteConflictView>::empty());
        assert(policies.deep_view().len() == policies@.len());
    }
    while i < policies.len()
        invariant
            i <= policies@.len(),
            policies.deep_view().len() == policies@.len(),
            pairs.deep_view() == policy_pair_conflicts(policies.deep_view(), i as int),
        decreases policies@.len() - i,
    {
        add_conflicts(&mut pairs, find_later_policy_conflicts(policies, i));
        i = i + 1;
    }
    add_conflicts(&mut conflicts, pairs);
    conflicts
}

// ---------------------------------------------------------------------------
// Laws
// ---------------------------------------------------------------------------

/// It does not matter which of two hosts, paths or routes comes first: they have
/// something in common either way, and each with itself.
pub proof fn law_overlap_is_symmetric(a: Seq<char>, b: Seq<char>)
    ensures
        hosts_meet(a, b) == hosts_meet(b, a),
        paths_meet(a, b) == paths_meet(b, a),
        hosts_meet(a, a),
        paths_meet(a, a),
{
}

/// It does not matter which of two routes comes first for whether they overlap.
pub proof fn law_route_overlap_is_symmetric(
    left: CaddyNormalizedRouteView,
    right: CaddyNormalizedRouteView,
)
    ensures
        routes_meet(left, right) == routes_meet(right, left),
        order_matters(left, right) == order_matters(right, left),
{
    lemma_turned(left.hosts, right.hosts, meeting_hosts());
    lemma_turned(right.hosts, left.hosts, meeting_hosts());
    lemma_turned(left.paths, right.paths, meeting_paths());
    lemma_turned(right.paths, left.paths, meeting_paths());
}

proof fn lemma_turned(
    a: Seq<Seq<char>>,
    b: Seq<Seq<char>>,
    relation: spec_fn(Seq<char>, Seq<char>) -> bool,
)
    requires
        forall|x: Seq<char>, y: Seq<char>| #[trigger] relation(x, y) == relation(y, x),
    ensures
        related(a, b, relation) ==> related(b, a, relation),
{
    if related(a, b, relation) {
        let (i, j) = choose|i: int, j: int|
            0 <= i < a.len() && 0 <= j < b.len() && relation(#[trigger] a[i], #[trigger] b[j]);
        assert(relation(b[j], a[i]));
    }
}

/// What covers a host or a path also has something in common with it.
pub proof fn law_cover_implies_overlap(a: Seq<char>, b: Seq<char>)
    ensures
        host_covered(a, b) ==> hosts_meet(a, b),
        path_covered(a, b) ==> paths_meet(a, b),
{
}

/// A pattern that ends in a star contains every path that goes on from what stands
/// before the star, so the two overlap and the pattern covers the path. It contains
/// no other path, and a pattern without a star at its end contains none.
pub proof fn law_path_patterns(prefix: Seq<char>, rest: Seq<char>, pattern: Seq<char>, path: Seq<char>)
    ensures
        pattern_contains(prefix + "*"@, prefix + rest),
        paths_meet(prefix + "*"@, prefix + rest),
        paths_meet(prefix + rest, prefix + "*"@),
        path_covered(prefix + "*"@, prefix + rest),
        pattern_contains(prefix + "*"@, path) ==> path.len() >= prefix.len() && path.take(
            prefix.len() as int,
        ) == prefix,
        pattern_contains(pattern, path) ==> pattern.len() > 0 && pattern.last() == '*'
            && path.len() >= pattern.len() - 1 && path.take(pattern.len() - 1)
            == pattern.drop_last(),
{
    reveal_strlit("*");
    law_parts_are_found(prefix, "*"@, Seq::empty());
    law_parts_are_found(Seq::empty(), prefix, rest);
    if pattern_contains(prefix + "*"@, path) {
        assert(path.take(prefix.len() as int) =~= path.subrange(0, prefix.len() as int));
    }
    if pattern_contains(pattern, path) {
        let n = pattern.len() - 1;
        law_found_parts_are_there(pattern, "*"@);
        assert(pattern == before_suffix(pattern, "*"@)->0 + "*"@);
        assert(pattern.drop_last() =~= before_suffix(pattern, "*"@)->0);
        assert(path.take(n) =~= path.subrange(0, n));
    }
}

/// A wildcard matches every host that has a name before its domain, so the two overlap
/// and the wildcard covers the host. It matches no other host, and what is no wildcard
/// matches none.
pub proof fn law_host_wildcards(domain: Seq<char>, name: Seq<char>, pattern: Seq<char>, host: Seq<char>)
    ensures
        wildcard_matches("*."@ + domain, name + "."@ + domain),
        hosts_meet("*."@ + domain, name + "."@ + domain),
        hosts_meet(name + "."@ + domain, "*."@ + domain),
        host_covered("*."@ + domain, name + "."@ + domain),
        wildcard_matches("*."@ + domain, host) ==> exists|front: Seq<char>|
            host == #[trigger] (front + ("."@ + domain)),
        wildcard_matches(pattern, host) ==> exists|end: Seq<char>|
            pattern == #[trigger] ("*."@ + end) && exists|front: Seq<char>|
                host == #[trigger] (front + ("."@ + end)),
{
    law_parts_are_found(Seq::empty(), "*."@, domain);
    law_parts_are_found(name, "."@ + domain, Seq::empty());
    assert(name + "."@ + domain =~= name + ("."@ + domain));
    law_found_parts_are_there(host, "."@ + domain);
    if wildcard_matches(pattern, host) {
        let end = after_prefix(pattern, "*."@)->0;
        law_found_parts_are_there(pattern, "*."@);
        law_found_parts_are_there(host, "."@ + end);
        assert(pattern == "*."@ + end);
    }
}

/// Two hosts overlap only where they are equal, one is a lone star, or one is a
/// wildcard that matches the other; two paths only where they are equal, one is a lone
/// star, or one is a pattern that contains the other. A lone star overlaps with all
/// and covers all. What covers something is equal to it, a lone star, or matches it.
pub proof fn law_overlaps(a: Seq<char>, b: Seq<char>)
    ensures
        hosts_meet("*"@, b) && hosts_meet(b, "*"@) && host_covered("*"@, b),
        paths_meet("*"@, b) && paths_meet(b, "*"@) && path_covered("*"@, b),
        host_covered(a, a) && path_covered(a, a),
        hosts_meet(a, b) ==> a == b || a == "*"@ || b == "*"@ || wildcard_matches(a, b)
            || wildcard_matches(b, a),
        paths_meet(a, b) ==> a == b || a == "*"@ || b == "*"@ || pattern_contains(a, b)
            || pattern_contains(b, a),
        host_covered(a, b) ==> a == b || a == "*"@ || wildcard_matches(a, b),
        path_covered(a, b) ==> a == b || a == "*"@ || pattern_contains(a, b),
{
}

/// Whether a conflict of this kind between these is reported.
pub open spec fn reported(
    conflicts: Seq<CaddyRouteConflictView>,
    code: Seq<char>,
    ids: Seq<Seq<char>>,
) -> bool {
    exists|k: int|
        0 <= k < conflicts.len() && (#[trigger] conflicts[k]).code == code && conflicts[k].routes
            == ids
}

/// Whether some host of one route overlaps with one of the other, and some path too.
pub open spec fn match_alike(left: CaddyNormalizedRouteView, right: CaddyNormalizedRouteView) -> bool {
    &&& exists|i: int, j: int|
        0 <= i < left.hosts.len() && 0 <= j < right.hosts.len() && #[trigger] hosts_meet(
            left.hosts[i],
            right.hosts[j],
        )
    &&& exists|i: int, j: int|
        0 <= i < left.paths.len() && 0 <= j < right.paths.len() && #[trigger] paths_meet(
            left.paths[i],
            right.paths[j],
        )
}

/// Whether one of the hosts covers this one.
pub open spec fn some_host_covers(hosts: Seq<Seq<char>>, host: Seq<char>) -> bool {
    exists|i: int| 0 <= i < hosts.len() && host_covered(#[trigger] hosts[i], host)
}

/// Whether one of the paths covers this one.
pub open spec fn some_path_covers(paths: Seq<Seq<char>>, path: Seq<char>) -> bool {
    exists|i: int| 0 <= i < paths.len() && path_covered(#[trigger] paths[i], path)
}

/// Whether every host and every path of the second route is covered by one of the
/// first.
pub open spec fn covers_wholly(
    left: CaddyNormalizedRouteView,
    right: CaddyNormalizedRouteView,
) -> bool {
    &&& forall|j: int|
        0 <= j < right.hosts.len() ==> some_host_covers(left.hosts, #[trigger] right.hosts[j])
    &&& forall|j: int|
        0 <= j < right.paths.len() ==> some_path_covers(left.paths, #[trigger] right.paths[j])
}

proof fn lemma_meaning_of_overlap(
    left: CaddyNormalizedRouteView,
    right: CaddyNormalizedRouteView,
)
    ensures
        routes_meet(left, right) == match_alike(left, right),
        route_covered(left, right) == covers_wholly(left, right),
{
    let h = meeting_hosts();
    let p = meeting_paths();
    if routes_meet(left, right) {
        let (i, j) = choose|i: int, j: int|
            0 <= i < left.hosts.len() && 0 <= j < right.hosts.len() && h(
                #[trigger] left.hosts[i],
                #[trigger] right.hosts[j],
            );
        assert(hosts_meet(left.hosts[i], right.hosts[j]));
        let (k, l) = choose|i: int, j: int|
            0 <= i < left.paths.len() && 0 <= j < right.paths.len() && p(
                #[trigger] left.paths[i],
                #[trigger] right.paths[j],
            );
        assert(paths_meet(left.paths[k], right.paths[l]));
    }
    if match_alike(left, right) {
        let (i, j) = choose|i: int, j: int|
            0 <= i < left.hosts.len() && 0 <= j < right.hosts.len() && #[trigger] hosts_meet(
                left.hosts[i],
                right.hosts[j],
            );
        assert(h(left.hosts[i], right.hosts[j]));
        let (k, l) = choose|i: int, j: int|
            0 <= i < left.paths.len() && 0 <= j < right.paths.len() && #[trigger] paths_meet(
                left.paths[i],
                right.paths[j],
            );
        assert(p(left.paths[k], right.paths[l]));
    }
    assert forall|j: int| 0 <= j < right.hosts.len() implies has_related(
        left.hosts,
        #[trigger] right.hosts[j],
        covering_hosts(),
    ) == some_host_covers(left.hosts, right.hosts[j]) by {
        lemma_meaning_of_cover(left.hosts, right.hosts[j]);
    }
    assert forall|j: int| 0 <= j < right.paths.len() implies has_related(
        left.paths,
        #[trigger] right.paths[j],
        covering_paths(),
    ) == some_path_covers(left.paths, right.paths[j]) by {
        lemma_meaning_of_cover(left.paths, right.paths[j]);
    }
}

proof fn lemma_meaning_of_cover(texts: Seq<Seq<char>>, text: Seq<char>)
    ensures
        has_related(texts, text, covering_hosts()) == some_host_covers(texts, text),
        has_related(texts, text, covering_paths()) == some_path_covers(texts, text),
{
    let h = covering_hosts();
    let p = covering_paths();
    if has_related(texts, text, h) {
        let i = choose|i: int| 0 <= i < texts.len() && h(#[trigger] texts[i], text);
        assert(host_covered(texts[i], text));
    }
    if some_host_covers(texts, text) {
        let i = choose|i: int| 0 <= i < texts.len() && host_covered(#[trigger] texts[i], text);
        assert(h(texts[i], text));
    }
    if has_related(texts, text, p) {
        let i = choose|i: int| 0 <= i < texts.len() && p(#[trigger] texts[i], text);
        assert(path_covered(texts[i], text));
    }
    if some_path_covers(texts, text) {
        let i = choose|i: int| 0 <= i < texts.len() && path_covered(#[trigger] texts[i], text);
        assert(p(texts[i], text));
    }
}

proof fn lemma_later_conflicts(
    routes: Seq<CaddyNormalizedRouteView>,
    i: int,
    n: int,
    x: CaddyRouteConflictView,
)
    ensures
        later_conflicts(routes, i, n).contains(x) <==> exists|j: int|
            i < j < n && conflicts_between(routes[i], #[trigger] routes[j]).contains(x),
    decreases n - i,
{
    if n > i + 1 {
        lemma_later_conflicts(routes, i, n - 1, x);
        law_either_list(
            later_conflicts(routes, i, n - 1),
            conflicts_between(routes[i], routes[n - 1]),
            x,
        );
    }
}

proof fn lemma_pair_conflicts(
    routes: Seq<CaddyNormalizedRouteView>,
    n: int,
    x: CaddyRouteConflictView,
)
    requires
        0 <= n <= routes.len(),
    ensures
        pair_conflicts(routes, n).contains(x) <==> exists|i: int, j: int|
            0 <= i < n && i < j < routes.len() && conflicts_between(
                #[trigger] routes[i],
                #[trigger] routes[j],
            ).contains(x),
    decreases n,
{
    if n > 0 {
        lemma_pair_conflicts(routes, n - 1, x);
        lemma_later_conflicts(routes, n - 1, routes.len() as int, x);
        law_either_list(
            pair_conflicts(routes, n - 1),
            later_conflicts(routes, n - 1, routes.len() as int),
            x,
        );
        if later_conflicts(routes, n - 1, routes.len() as int).contains(x) {
            let j = choose|j: int|
                n - 1 < j < routes.len() && conflicts_between(
                    routes[n - 1],
                    #[trigger] routes[j],
                ).contains(x);
            assert(conflicts_between(routes[n - 1], routes[j]).contains(x));
        }
        if exists|i: int, j: int|
            0 <= i < n && i < j < routes.len() && conflicts_between(
                #[trigger] routes[i],
                #[trigger] routes[j],
            ).contains(x) {
            let (i, j) = choose|i: int, j: int|
                0 <= i < n && i < j < routes.len() && conflicts_between(
                    #[trigger] routes[i],
                    #[trigger] routes[j],
                ).contains(x);
            if i == n - 1 {
                assert(conflicts_between(routes[n - 1], routes[j]).contains(x));
            } else {
                assert(conflicts_between(routes[i], routes[j]).contains(x));
            }
        }
    }
}

proof fn lemma_conflict_codes()
    ensures
        "overlapping_route_match"@ != "route_priority_overlap"@,
        "overlapping_route_match"@ != "terminal_route_shadow"@,
        "overlapping_route_match"@ != "duplicate_route_match"@,
        "route_priority_overlap"@ != "terminal_route_shadow"@,
        "route_priority_overlap"@ != "duplicate_route_match"@,
        "terminal_route_shadow"@ != "duplicate_route_match"@,
        "duplicate_tls_policy_subject"@ != "overlapping_tls_policy_subject"@,
{
    reveal_strlit("overlapping_route_match");
    reveal_strlit("route_priority_overlap");
    reveal_strlit("terminal_route_shadow");
    reveal_strlit("duplicate_route_match");
    reveal_strlit("duplicate_tls_policy_subject");
    reveal_strlit("overlapping_tls_policy_subject");
    assert("terminal_route_shadow"@[0] != "duplicate_route_match"@[0]);
    assert("overlapping_route_match"@.len() == 23);
    assert("route_priority_overlap"@.len() == 22);
    assert("terminal_route_shadow"@.len() == 21);
    assert("duplicate_route_match"@.len() == 21);
    assert("duplicate_tls_policy_subject"@[0] != "overlapping_tls_policy_subject"@[0]);
}

proof fn lemma_between(
    left: CaddyNormalizedRouteView,
    right: CaddyNormalizedRouteView,
    x: CaddyRouteConflictView,
)
    requires
        conflicts_between(left, right).contains(x),
    ensures
        x.routes == seq![left.id, right.id],
        left.server == right.server,
        match_alike(left, right),
        x.code == "overlapping_route_match"@ || x.code == "route_priority_overlap"@ || x.code
            == "terminal_route_shadow"@,
        x.code == "route_priority_overlap"@ ==> order_matters(left, right),
        x.code == "terminal_route_shadow"@ ==> left.terminal && covers_wholly(left, right),
{
    lemma_meaning_of_overlap(left, right);
    lemma_conflict_codes();
    let all = conflicts_between(left, right);
    let k = choose|k: int| 0 <= k < all.len() && all[k] == x;
    assert(all[k] == x);
}

proof fn lemma_reported_between(left: CaddyNormalizedRouteView, right: CaddyNormalizedRouteView)
    requires
        left.server == right.server,
        match_alike(left, right),
    ensures
        reported(
            conflicts_between(left, right),
            "overlapping_route_match"@,
            seq![left.id, right.id],
        ),
        order_matters(left, right) ==> reported(
            conflicts_between(left, right),
            "route_priority_overlap"@,
            seq![left.id, right.id],
        ),
        left.terminal && covers_wholly(left, right) ==> reported(
            conflicts_between(left, right),
            "terminal_route_shadow"@,
            seq![left.id, right.id],
        ),
{
    lemma_meaning_of_overlap(left, right);
    let all = conflicts_between(left, right);
    assert(all[0].code == "overlapping_route_match"@);
    assert(all[0].routes =~= seq![left.id, right.id]);
    if order_matters(left, right) {
        assert(all[1].code == "route_priority_overlap"@);
        assert(all[1].routes =~= seq![left.id, right.id]);
    }
    if left.terminal && covers_wholly(left, right) {
        let last = all.len() - 1;
        assert(all[last].code == "terminal_route_shadow"@);
        assert(all[last].routes =~= seq![left.id, right.id]);
    }
}

proof fn lemma_from_pairs(routes: Seq<CaddyNormalizedRouteView>, x: CaddyRouteConflictView)
    requires
        x.code != "duplicate_route_match"@,
    ensures
        route_conflicts(routes).contains(x) <==> exists|i: int, j: int|
            0 <= i < j < routes.len() && conflicts_between(
                #[trigger] routes[i],
                #[trigger] routes[j],
            ).contains(x),
{
    let keys = sorted_values(
        gathered(routes, |r: CaddyNormalizedRouteView| keys_of(r)),
        rank::<RouteKey>(),
    );
    let f = |k: RouteKeyView| duplicate_conflict(routes, k);
    law_chosen(keys, f, x);
    law_either_list(chosen(keys, f), pair_conflicts(routes, routes.len() as int), x);
    lemma_pair_conflicts(routes, routes.len() as int, x);
}

/// Two routes of one server that overlap are reported, the first of the two first, and
/// no other two routes are.
pub proof fn law_overlapping_routes_are_reported(
    routes: Seq<CaddyNormalizedRouteView>,
    first: Seq<char>,
    second: Seq<char>,
)
    ensures
        reported(route_conflicts(routes), "overlapping_route_match"@, seq![first, second])
            <==> exists|i: int, j: int|
            0 <= i < j < routes.len() && #[trigger] routes[i].id == first
                && #[trigger] routes[j].id == second && routes[i].server == routes[j].server
                && match_alike(routes[i], routes[j]),
{
    lemma_conflict_codes();
    lemma_pair_law(routes, "overlapping_route_match"@, first, second);
}

/// Two routes of one server that overlap are reported once more where one of them is
/// terminal, they are handled differently, or one matches every path.
pub proof fn law_priority_overlaps_are_reported(
    routes: Seq<CaddyNormalizedRouteView>,
    first: Seq<char>,
    second: Seq<char>,
)
    ensures
        reported(route_conflicts(routes), "route_priority_overlap"@, seq![first, second])
            <==> exists|i: int, j: int|
            0 <= i < j < routes.len() && #[trigger] routes[i].id == first
                && #[trigger] routes[j].id == second && routes[i].server == routes[j].server
                && match_alike(routes[i], routes[j]) && (routes[i].terminal || routes[j].terminal
                || routes[i].handle_chain != routes[j].handle_chain || routes[i].paths.contains(
                "*"@,
            ) || routes[j].paths.contains("*"@)),
{
    lemma_conflict_codes();
    lemma_pair_law(routes, "route_priority_overlap"@, first, second);
}

/// A terminal route that overlaps with a later one of its server and covers all its
/// hosts and paths is reported as shadowing it, and no other route is.
pub proof fn law_shadowed_routes_are_reported(
    routes: Seq<CaddyNormalizedRouteView>,
    first: Seq<char>,
    second: Seq<char>,
)
    ensures
        reported(route_conflicts(routes), "terminal_route_shadow"@, seq![first, second])
            <==> exists|i: int, j: int|
            0 <= i < j < routes.len() && #[trigger] routes[i].id == first
                && #[trigger] routes[j].id == second && routes[i].server == routes[j].server
                && match_alike(routes[i], routes[j]) && routes[i].terminal && covers_wholly(
                routes[i],
                routes[j],
            ),
{
    lemma_conflict_codes();
    lemma_pair_law(routes, "terminal_route_shadow"@, first, second);
}

/// What a pair of routes must be like to be reported in this way.
pub open spec fn cause(
    code: Seq<char>,
    left: CaddyNormalizedRouteView,
    right: CaddyNormalizedRouteView,
) -> bool {
    &&& left.server == right.server
    &&& match_alike(left, right)
    &&& code == "route_priority_overlap"@ ==> order_matters(left, right)
    &&& code == "terminal_route_shadow"@ ==> left.terminal && covers_wholly(left, right)
}

proof fn lemma_pair_law(
    routes: Seq<CaddyNormalizedRouteView>,
    code: Seq<char>,
    first: Seq<char>,
    second: Seq<char>,
)
    requires
        code == "overlapping_route_match"@ || code == "route_priority_overlap"@ || code
            == "terminal_route_shadow"@,
    ensures
        reported(route_conflicts(routes), code, seq![first, second]) <==> exists|i: int, j: int|
            0 <= i < j < routes.len() && #[trigger] routes[i].id == first
                && #[trigger] routes[j].id == second && cause(code, routes[i], routes[j]),
{
    lemma_conflict_codes();
    let all = route_conflicts(routes);
    let ids = seq![first, second];
    if reported(all, code, ids) {
        let k = choose|k: int|
            0 <= k < all.len() && (#[trigger] all[k]).code == code && all[k].routes == ids;
        let x = all[k];
        assert(all.contains(x));
        lemma_from_pairs(routes, x);
        let (i, j) = choose|i: int, j: int|
            0 <= i < j < routes.len() && conflicts_between(
                #[trigger] routes[i],
                #[trigger] routes[j],
            ).contains(x);
        lemma_between(routes[i], routes[j], x);
        assert(seq![routes[i].id, routes[j].id][0] == ids[0]);
        assert(seq![routes[i].id, routes[j].id][1] == ids[1]);
        assert(routes[i].id == first && routes[j].id == second);
    }
    if exists|i: int, j: int|
        0 <= i < j < routes.len() && #[trigger] routes[i].id == first && #[trigger] routes[j].id
            == second && cause(code, routes[i], routes[j]) {
        let (i, j) = choose|i: int, j: int|
            0 <= i < j < routes.len() && #[trigger] routes[i].id == first
                && #[trigger] routes[j].id == second && cause(code, routes[i], routes[j]);
        lemma_reported_between(routes[i], routes[j]);
        let between = conflicts_between(routes[i], routes[j]);
        let k = choose|k: int|
            0 <= k < between.len() && (#[trigger] between[k]).code == code && between[k].routes
                == ids;
        let x = between[k];
        assert(between.contains(x));
        lemma_from_pairs(routes, x);
        let m = choose|m: int| 0 <= m < all.len() && all[m] == x;
        assert(all[m].code == code);
    }
}

proof fn lemma_later_policies(
    policies: Seq<CaddyTlsPolicyView>,
    i: int,
    n: int,
    x: CaddyRouteConflictView,
)
    ensures
        later_policy_conflicts(policies, i, n).contains(x) <==> exists|j: int|
            i < j < n && policy_conflicts_between(policies[i], #[trigger] policies[j]).contains(x),
    decreases n - i,
{
    if n > i + 1 {
        lemma_later_policies(policies, i, n - 1, x);
        law_either_list(
            later_policy_conflicts(policies, i, n - 1),
            policy_conflicts_between(policies[i], policies[n - 1]),
            x,
        );
    }
}

proof fn lemma_policy_pairs(
    policies: Seq<CaddyTlsPolicyView>,
    n: int,
    x: CaddyRouteConflictView,
)
    requires
        0 <= n <= policies.len(),
    ensures
        policy_pair_conflicts(policies, n).contains(x) <==> exists|i: int, j: int|
            0 <= i < n && i < j < policies.len() && policy_conflicts_between(
                #[trigger] policies[i],
                #[trigger] policies[j],
            ).contains(x),
    decreases n,
{
    if n > 0 {
        lemma_policy_pairs(policies, n - 1, x);
        lemma_later_policies(policies, n - 1, policies.len() as int, x);
        law_either_list(
            policy_pair_conflicts(policies, n - 1),
            later_policy_conflicts(policies, n - 1, policies.len() as int),
            x,
        );
        if later_policy_conflicts(policies, n - 1, policies.len() as int).contains(x) {
            let j = choose|j: int|
                n - 1 < j < policies.len() && policy_conflicts_between(
                    policies[n - 1],
                    #[trigger] policies[j],
                ).contains(x);
            assert(policy_conflicts_between(policies[n - 1], policies[j]).contains(x));
        }
        if exists|i: int, j: int|
            0 <= i < n && i < j < policies.len() && policy_conflicts_between(
                #[trigger] policies[i],
                #[trigger] policies[j],
            ).contains(x) {
            let (i, j) = choose|i: int, j: int|
                0 <= i < n && i < j < policies.len() && policy_conflicts_between(
                    #[trigger] policies[i],
                    #[trigger] policies[j],
                ).contains(x);
            if i == n - 1 {
                assert(policy_conflicts_between(policies[n - 1], policies[j]).contains(x));
            } else {
                assert(policy_conflicts_between(policies[i], policies[j]).contains(x));
            }
        }
    }
}

/// Whether some subject of one policy and another one of the other overlap.
pub open spec fn subjects_overlap(left: CaddyTlsPolicyView, right: CaddyTlsPolicyView) -> bool {
    exists|a: int, b: int|
        0 <= a < left.subjects.len() && 0 <= b < right.subjects.len() && left.subjects[a]
            != right.subjects[b] && #[trigger] hosts_meet(left.subjects[a], right.subjects[b])
}

proof fn lemma_between_policies(left: CaddyTlsPolicyView, right: CaddyTlsPolicyView)
    ensures
        subjects_overlap(left, right) <==> policy_conflicts_between(left, right).len() > 0,
        forall|x: CaddyRouteConflictView| #[trigger]
            policy_conflicts_between(left, right).contains(x) ==> x.code
                == "overlapping_tls_policy_subject"@ && x.routes == seq![left.id, right.id],
{
    let f = |a: Seq<char>| subject_conflicts(left, right, a);
    let all = policy_conflicts_between(left, right);
    assert(all == gathered(left.subjects, f));
    assert forall|x: CaddyRouteConflictView| #[trigger] all.contains(x) implies x.code
        == "overlapping_tls_policy_subject"@ && x.routes == seq![left.id, right.id]
        && subjects_overlap(left, right) by {
        law_gathered(left.subjects, f, x);
        let a = choose|a: int|
            0 <= a < left.subjects.len() && f(#[trigger] left.subjects[a]).contains(x);
        let s = left.subjects[a];
        let g = |b: Seq<char>| subjects_conflict(left, right, s, b);
        law_chosen(right.subjects, g, x);
        assert(subject_conflicts(left, right, s) == chosen(right.subjects, g));
        let b = choose|b: int|
            0 <= b < right.subjects.len() && g(#[trigger] right.subjects[b]) == Some(x);
        assert(hosts_meet(left.subjects[a], right.subjects[b]));
    }
    if all.len() > 0 {
        assert(all.contains(all[0]));
    }
    if subjects_overlap(left, right) {
        let (a, b) = choose|a: int, b: int|
            0 <= a < left.subjects.len() && 0 <= b < right.subjects.len() && left.subjects[a]
                != right.subjects[b] && #[trigger] hosts_meet(left.subjects[a], right.subjects[b]);
        let s = left.subjects[a];
        let g = |t: Seq<char>| subjects_conflict(left, right, s, t);
        let x = g(right.subjects[b])->0;
        law_chosen(right.subjects, g, x);
        assert(g(right.subjects[b]) == Some(x));
        assert(subject_conflicts(left, right, s) == chosen(right.subjects, g));
        law_gathered(left.subjects, f, x);
        assert(f(left.subjects[a]).contains(x));
        assert(all.contains(x));
    }
}

/// Two policies with different subjects that overlap are reported, the first of the two
/// first, and no other two are.
pub proof fn law_overlapping_policies_are_reported(
    policies: Seq<CaddyTlsPolicyView>,
    first: Seq<char>,
    second: Seq<char>,
)
    ensures
        reported(policy_conflicts(policies), "overlapping_tls_policy_subject"@, seq![first, second])
            <==> exists|i: int, j: int|
            0 <= i < j < policies.len() && #[trigger] policies[i].id == first
                && #[trigger] policies[j].id == second && subjects_overlap(
                policies[i],
                policies[j],
            ),
{
    lemma_conflict_codes();
    let code = "overlapping_tls_policy_subject"@;
    let all = policy_conflicts(policies);
    let ids = seq![first, second];
    let subjects = sorted_set(gathered(policies, |p: CaddyTlsPolicyView| p.subjects));
    let f = |s: Seq<char>| subject_conflict(policies, s);
    let same = chosen(subjects, f);
    let pairs = policy_pair_conflicts(policies, policies.len() as int);
    if reported(all, code, ids) {
        let k = choose|k: int|
            0 <= k < all.len() && (#[trigger] all[k]).code == code && all[k].routes == ids;
        let x = all[k];
        assert(all.contains(x));
        law_either_list(same, pairs, x);
        law_chosen(subjects, f, x);
        lemma_policy_pairs(policies, policies.len() as int, x);
        let (i, j) = choose|i: int, j: int|
            0 <= i < policies.len() && i < j < policies.len() && policy_conflicts_between(
                #[trigger] policies[i],
                #[trigger] policies[j],
            ).contains(x);
        lemma_between_policies(policies[i], policies[j]);
        assert(seq![policies[i].id, policies[j].id][0] == ids[0]);
        assert(seq![policies[i].id, policies[j].id][1] == ids[1]);
        assert(policies[i].id == first && policies[j].id == second);
    }
    if exists|i: int, j: int|
        0 <= i < j < policies.len() && #[trigger] policies[i].id == first
            && #[trigger] policies[j].id == second && subjects_overlap(policies[i], policies[j]) {
        let (i, j) = choose|i: int, j: int|
            0 <= i < j < policies.len() && #[trigger] policies[i].id == first
                && #[trigger] policies[j].id == second && subjects_overlap(
                policies[i],
                policies[j],
            );
        lemma_between_policies(policies[i], policies[j]);
        let x = policy_conflicts_between(policies[i], policies[j])[0];
        assert(policy_conflicts_between(policies[i], policies[j]).contains(x));
        lemma_policy_pairs(policies, policies.len() as int, x);
        law_either_list(same, pairs, x);
        let k = choose|k: int| 0 <= k < all.len() && all[k] == x;
        assert(all[k].code == code && all[k].routes == ids);
    }
}

proof fn lemma_keys(route: CaddyNormalizedRouteView, key: RouteKeyView)
    ensures
        keys_of(route).contains(key) <==> key.server == route.server && route.hosts.contains(
            key.host,
        ) && route.paths.contains(key.path),
{
    let f = |host: Seq<char>| keys_with_host(route, host);
    law_gathered(route.hosts, f, key);
    if keys_of(route).contains(key) {
        let i = choose|i: int|
            0 <= i < route.hosts.len() && f(#[trigger] route.hosts[i]).contains(key);
        let some = keys_with_host(route, route.hosts[i]);
        let j = choose|j: int| 0 <= j < some.len() && some[j] == key;
        assert(route.paths[j] == key.path);
        assert(route.hosts.contains(route.hosts[i]));
        assert(route.paths.contains(route.paths[j]));
    }
    if key.server == route.server && route.hosts.contains(key.host) && route.paths.contains(
        key.path,
    ) {
        let i = choose|i: int| 0 <= i < route.hosts.len() && route.hosts[i] == key.host;
        let j = choose|j: int| 0 <= j < route.paths.len() && route.paths[j] == key.path;
        assert(keys_with_host(route, route.hosts[i])[j] == key);
        assert(f(route.hosts[i]).contains(key));
    }
}

proof fn lemma_id_of_route(route: CaddyNormalizedRouteView, key: RouteKeyView)
    requires
        keys_of(route).contains(key),
    ensures
        ids_with_key(route, key).contains(route.id),
{
    let g = id_at(route, key);
    law_chosen(keys_of(route), g, route.id);
    let m = choose|m: int| 0 <= m < keys_of(route).len() && keys_of(route)[m] == key;
    assert(g(keys_of(route)[m]) == Some(route.id));
    assert(chosen(keys_of(route), g).contains(route.id));
}

proof fn lemma_ids(routes: Seq<CaddyNormalizedRouteView>, key: RouteKeyView, i: int)
    requires
        0 <= i < routes.len(),
        keys_of(routes[i]).contains(key),
    ensures
        route_ids(routes, key).contains(routes[i].id),
{
    lemma_id_of_route(routes[i], key);
    let f = |r: CaddyNormalizedRouteView| ids_with_key(r, key);
    assert(f(routes[i]).contains(routes[i].id));
    law_gathered(routes, f, routes[i].id);
}

/// Two routes of one server with different ids that have a host and a path in common are
/// reported together.
pub proof fn law_equal_routes_are_reported(
    routes: Seq<CaddyNormalizedRouteView>,
    i: int,
    j: int,
    host: Seq<char>,
    path: Seq<char>,
)
    requires
        0 <= i < routes.len(),
        0 <= j < routes.len(),
        routes[i].id != routes[j].id,
        routes[i].server == routes[j].server,
        routes[i].hosts.contains(host) && routes[j].hosts.contains(host),
        routes[i].paths.contains(path) && routes[j].paths.contains(path),
    ensures
        exists|k: int|
            0 <= k < route_conflicts(routes).len() && (#[trigger] route_conflicts(routes)[k]).code
                == "duplicate_route_match"@ && route_conflicts(routes)[k].routes.contains(
                routes[i].id,
            ) && route_conflicts(routes)[k].routes.contains(routes[j].id),
{
    let key = RouteKeyView { server: routes[i].server, host, path };
    lemma_keys(routes[i], key);
    lemma_keys(routes[j], key);
    lemma_ids(routes, key, i);
    lemma_ids(routes, key, j);
    let ids = route_ids(routes, key);
    let a = choose|a: int| 0 <= a < ids.len() && ids[a] == routes[i].id;
    let b = choose|b: int| 0 <= b < ids.len() && ids[b] == routes[j].id;
    assert(a != b);
    let h = |r: CaddyNormalizedRouteView| keys_of(r);
    let all_keys = gathered(routes, h);
    law_gathered(routes, h, key);
    assert(h(routes[i]).contains(key));
    let m = choose|m: int| 0 <= m < all_keys.len() && all_keys[m] == key;
    lemma_key_order();
    law_sorted_values_keep_all(all_keys, rank::<RouteKey>(), m);
    let keys = sorted_values(all_keys, rank::<RouteKey>());
    let f = |k: RouteKeyView| duplicate_conflict(routes, k);
    let x = duplicate_conflict(routes, key)->0;
    law_chosen(keys, f, x);
    let n = choose|n: int| 0 <= n < keys.len() && keys[n] == key;
    assert(f(keys[n]) == Some(x));
    law_either_list(chosen(keys, f), pair_conflicts(routes, routes.len() as int), x);
    let all = route_conflicts(routes);
    let k = choose|k: int| 0 <= k < all.len() && all[k] == x;
    assert(all[k].code == "duplicate_route_match"@);
}

proof fn lemma_key_order()
    ensures
        strict_total(rank::<RouteKey>()),
{
    let r = rank::<RouteKey>();
    assert forall|a: RouteKeyView| !#[trigger] r(a, a) by {
        lemma_text_lt_irreflexive(a.server);
        lemma_text_lt_irreflexive(a.host);
        lemma_text_lt_irreflexive(a.path);
    }
    assert forall|a: RouteKeyView, b: RouteKeyView, c: RouteKeyView| #[trigger] r(a, b)
        && #[trigger] r(b, c) implies r(a, c) by {
        if text_lt(a.server, b.server) && text_lt(b.server, c.server) {
            lemma_text_lt_transitive(a.server, b.server, c.server);
        }
        if text_lt(a.host, b.host) && text_lt(b.host, c.host) {
            lemma_text_lt_transitive(a.host, b.host, c.host);
        }
        if text_lt(a.path, b.path) && text_lt(b.path, c.path) {
            lemma_text_lt_transitive(a.path, b.path, c.path);
        }
    }
    assert forall|a: RouteKeyView, b: RouteKeyView| #[trigger] r(a, b) || r(b, a) || a == b by {
        lemma_text_lt_total(a.server, b.server);
        lemma_text_lt_total(a.host, b.host);
        lemma_text_lt_total(a.path, b.path);
    }
}

} // verus!
