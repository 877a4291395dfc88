//! The adapted configuration of Caddy.

use vstd::prelude::*;
use crate::caddy::inspect::listed;
use crate::caddy::types::{
    CaddyNormalizedRoute, CaddyNormalizedRouteView, CaddyRouteMatcher, CaddyRouteMatcherView,
    CaddyRoutePriority, CaddyRoutePriorityView, CaddyTlsPolicy, CaddyTlsPolicyView,
};
use crate::each::{choose_each, gather_each, map_each};
use crate::json::{
    Json, JsonView, has_name, items_in, json_get, json_items, json_list_at, json_members,
    json_text, json_text_at, lemma_json_view, list_at, member_of, members_in, text_at, text_in,
};
use crate::list::{
    chosen, extend, first_where, gathered, increasing, law_chosen, law_gathered, law_one_more,
    law_sorted_set, lemma_first_stays, note, noted, put, sorted_set, unique_sorted,
};
use crate::number::{bool_text, bool_word, count_text, decimal};
use crate::text::{
    begins, byte_len, byte_size, cat2, cat3, ends, is_char, law_parts_are_found, lowered, own_opt,
    same, starts_with, step, to_lower, trim, trim_back, trimmed,
};
use crate::words::trim_end_char;

verus! {

broadcast use {vstd::seq::group_seq_axioms, vstd::string::group_string_axioms};

// ---------------------------------------------------------------------------
// Finding one's way in JSON
// ---------------------------------------------------------------------------

/// The member of a value with this name is a part of the value.
pub proof fn lemma_member_is_part(j: JsonView, name: Seq<char>)
    ensures
        member_of(j, name) is Some ==> decreases_to!(j => member_of(j, name)->0),
{
    if let JsonView::Object(members) = j {
        if member_of(j, name) is Some {
            let i = lemma_first_where_place(members, has_name(name));
            assert(decreases_to!(j => j->Object_0));
            assert(decreases_to!(members => members[i]));
            assert(decreases_to!(members[i] => members[i].1));
        }
    }
}

proof fn lemma_first_where_place<A>(s: Seq<A>, p: spec_fn(A) -> bool) -> (i: int)
    requires
        first_where(s, p) is Some,
    ensures
        0 <= i < s.len(),
        s[i] == first_where(s, p)->0,
    decreases s.len(),
{
    let d = s.drop_last();
    if first_where(d, p) is Some {
        let i = lemma_first_where_place(d, p);
        assert(s[i] == d[i]);
        i
    } else {
        s.len() - 1
    }
}

/// Where the member with this name is.
pub fn member_index(members: &Vec<(String, Json)>, name: &str) -> (r: Option<usize>)
    ensures
        match r {
            Some(i) => i < members@.len() && member_of(
                JsonView::Object(members.deep_view()),
                name@,
            ) == Some(members@[i as int].1.deep_view()),
            None => member_of(JsonView::Object(members.deep_view()), name@) is None,
        },
{
    let ghost all = members.deep_view();
    let ghost p = has_name(name@);
    let mut hit: Option<usize> = None;
    let mut i: usize = 0;
    proof {
        ends(all);
    }
    while i < members.len() && hit.is_none()
        invariant
            i <= members@.len(),
            all == members.deep_view(),
            p == has_name(name@),
            match hit {
                Some(k) => k < i && first_where(all.take(i as int), p) == Some(all[k as int]),
                None => first_where(all.take(i as int), p) is None,
            },
        decreases members@.len() - i,
    {
        proof {
            step(all, i as int);
            assert(all[i as int] == members@[i as int].deep_view());
        }
        if same(&members[i].0, name) {
            hit = Some(i);
        }
        i = i + 1;
    }
    proof {
        ends(all);
        if hit is Some {
            lemma_first_stays(all, p, i as int, all.len() as int);
        }
    }
    hit
}

/// The names of an object's members.
pub open spec fn names_in(j: Option<JsonView>) -> Seq<Seq<char>> {
    match j {
        Some(v) => match members_in(v) {
            Some(members) => members.map_values(|m: (Seq<char>, JsonView)| m.0),
            None => Seq::empty(),
        },
        None => Seq::empty(),
    }
}

/// The names of an object's members.
pub fn member_names(j: Option<&Json>) -> (r: Vec<String>)
    ensures
        r.deep_view() == names_in(j.deep_view()),
{
    if let Some(v) = j {
        if let Some(members) = json_members(v) {
            return map_each(
                members,
                |m: &(String, Json)| -> (t: String)
                    ensures
                        t.deep_view() == m.deep_view().0
                    { m.0.clone() },
                Ghost(|m: (Seq<char>, JsonView)| m.0),
            );
        }
    }
    let none: Vec<String> = Vec::new();
    proof {
        assert(none.deep_view() =~= Seq::<Seq<char>>::empty());
    }
    none
}

/// The member of a member, if there is one.
pub open spec fn deeper(j: Option<JsonView>, name: Seq<char>) -> Option<JsonView> {
    match j {
        Some(v) => member_of(v, name),
        None => None,
    }
}

/// The member of a member, if there is one.
pub fn go_deeper<'a>(j: Option<&'a Json>, name: &str) -> (r: Option<&'a Json>)
    ensures
        r.deep_view() == deeper(j.deep_view(), name@),
{
    match j {
        Some(v) => json_get(v, name),
        None => None,
    }
}

/// The servers of the configuration.
pub open spec fn servers_of(config: JsonView) -> Option<JsonView> {
    deeper(deeper(member_of(config, "apps"@), "http"@), "servers"@)
}

/// The servers of the configuration.
pub fn get_servers<'a>(config: &'a Json) -> (r: Option<&'a Json>)
    ensures
        r.deep_view() == servers_of(config.deep_view()),
{
    go_deeper(go_deeper(json_get(config, "apps"), "http"), "servers")
}

/// The texts in a list.
pub open spec fn texts_in(j: JsonView) -> Seq<Seq<char>> {
    match items_in(j) {
        Some(items) => chosen(items, |i: JsonView| text_in(i)),
        None => Seq::empty(),
    }
}

/// The texts in a list.
pub fn list_texts(j: &Json) -> (r: Vec<String>)
    ensures
        r.deep_view() == texts_in(j.deep_view()),
{
    if let Some(items) = json_items(j) {
        return choose_each(
            items,
            |i: &Json| -> (t: Option<String>)
                ensures
                    t.deep_view() == text_in(i.deep_view())
                { own_opt(json_text(i)) },
            Ghost(|i: JsonView| text_in(i)),
        );
    }
    let none: Vec<String> = Vec::new();
    proof {
        assert(none.deep_view() =~= Seq::<Seq<char>>::empty());
    }
    none
}

// ---------------------------------------------------------------------------
// Hosts and paths
// ---------------------------------------------------------------------------

/// A host in one form: lower case, without dots at its end.
pub open spec fn plain_host(host: Seq<char>) -> Seq<char> {
    lowered(trim_back(trimmed(host), is_char('.')))
}

/// A host in one form.
pub fn normalize_caddy_host(host: &str) -> (r: String)
    ensures
        r@ == plain_host(host@),
{
    to_lower(&trim_end_char(&trim(host), '.'))
}

/// A path in one form; an empty one matches everything.
pub open spec fn plain_path(path: Seq<char>) -> Seq<char> {
    if trimmed(path).len() == 0 {
        "*"@
    } else {
        trimmed(path)
    }
}

/// A path in one form.
pub fn normalize_caddy_path(path: &str) -> (r: String)
    ensures
        r@ == plain_path(path@),
{
    let bare = trim(path);
    if bare.as_str().is_empty() {
        "*".to_string()
    } else {
        bare
    }
}

/// The text, if it is not empty.
pub open spec fn if_any(text: Seq<char>) -> Option<Seq<char>> {
    if text.len() > 0 {
        Some(text)
    } else {
        None
    }
}

/// The hosts in a list, in one form.
pub open spec fn hosts_listed(j: JsonView) -> Seq<Seq<char>> {
    chosen(texts_in(j), |t: Seq<char>| if_any(plain_host(t)))
}

/// The hosts in a list, in one form.
pub fn list_hosts(j: &Json) -> (r: Vec<String>)
    ensures
        r.deep_view() == hosts_listed(j.deep_view()),
{
    choose_each(
        &list_texts(j),
        |t: &String| -> (h: Option<String>)
            ensures
                h.deep_view() == if_any(plain_host(t@))
            {
                let host = normalize_caddy_host(t);
                if !host.as_str().is_empty() {
                    Some(host)
                } else {
                    None
                }
            },
        Ghost(|t: Seq<char>| if_any(plain_host(t))),
    )
}

/// The paths in a list, in one form.
pub open spec fn paths_listed(j: JsonView) -> Seq<Seq<char>> {
    texts_in(j).map_values(|t: Seq<char>| plain_path(t))
}

/// The paths in a list, in one form.
pub fn list_paths(j: &Json) -> (r: Vec<String>)
    ensures
        r.deep_view() == paths_listed(j.deep_view()),
{
    map_each(
        &list_texts(j),
        |t: &String| -> (p: String)
            ensures
                p.deep_view() == plain_path(t@)
            { normalize_caddy_path(t) },
        Ghost(|t: Seq<char>| plain_path(t)),
    )
}

/// The hosts that a value names anywhere.
pub open spec fn hosts_in(j: JsonView) -> Seq<Seq<char>>
    decreases j,
{
    match j {
        JsonView::List(items) => hosts_in_items(items),
        JsonView::Object(members) => (match member_of(j, "host"@) {
            Some(v) => hosts_listed(v),
            None => Seq::empty(),
        }) + hosts_in_members(members),
        _ => Seq::empty(),
    }
}

/// The hosts that values name anywhere.
pub open spec fn hosts_in_items(items: Seq<JsonView>) -> Seq<Seq<char>>
    decreases items,
{
    if items.len() == 0 {
        Seq::empty()
    } else {
        hosts_in_items(items.drop_last()) + hosts_in(items.last())
    }
}

/// The hosts that members name anywhere.
pub open spec fn hosts_in_members(members: Seq<(Seq<char>, JsonView)>) -> Seq<Seq<char>>
    decreases members,
{
    if members.len() == 0 {
        Seq::empty()
    } else {
        hosts_in_members(members.drop_last()) + hosts_in(members.last().1)
    }
}

/// The hosts that a value names anywhere.
pub fn collect_caddy_hosts(j: &Json) -> (r: Vec<String>)
    ensures
        r.deep_view() == hosts_in(j.deep_view()),
    decreases *j,
{
    proof {
        lemma_json_view(*j);
    }
    let mut hosts: Vec<String> = Vec::new();
    proof {
        assert(hosts.deep_view() =~= Seq::<Seq<char>>::empty());
    }
    match j {
        Json::List(items) => {
            let ghost all = items.deep_view();
            let mut i: usize = 0;
            proof {
                ends(all);
            }
            while i < items.len()
                invariant
                    i <= items@.len(),
                    *j == Json::List(*items),
                    all == items.deep_view(),
                    hosts.deep_view() == hosts_in_items(all.take(i as int)),
                decreases items@.len() - i
            {
                proof {
                    step(all, i as int);
                    lemma_item_is_part(*j, *items, i as int);
                }
                extend(&mut hosts, &collect_caddy_hosts(&items[i]));
                i = i + 1;
            }
            proof {
                ends(all);
            }
        },
        Json::Object(members) => {
            let mut own: Vec<String> = Vec::new();
            proof {
                assert(own.deep_view() =~= Seq::<Seq<char>>::empty());
            }
            if let Some(v) = json_get(j, "host") {
                own = list_hosts(v);
            }
            let ghost all = members.deep_view();
            let mut i: usize = 0;
            proof {
                ends(all);
            }
            while i < members.len()
                invariant
                    i <= members@.len(),
                    *j == Json::Object(*members),
                    all == members.deep_view(),
                    hosts.deep_view() == hosts_in_members(all.take(i as int)),
                decreases members@.len() - i
            {
                proof {
                    step(all, i as int);
                    assert(all[i as int] == members@[i as int].deep_view());
                    lemma_value_is_part(*j, *members, i as int);
                }
                extend(&mut hosts, &collect_caddy_hosts(&members[i].1));
                i = i + 1;
            }
            proof {
                ends(all);
            }
            extend(&mut own, &hosts);
            return own;
        },
        _ => {},
    }
    hosts
}

/// An item of a list is a part of it.
pub proof fn lemma_item_is_part(j: Json, items: Vec<Json>, i: int)
    requires
        j == Json::List(items),
        0 <= i < items@.len(),
    ensures
        decreases_to!(j => items@[i]),
        decreases_to!(items => items@[i]),
{
    assert(decreases_to!(j => j->List_0));
    assert(decreases_to!(items => items@));
    assert(decreases_to!(items@ => items@[i]));
}

/// The value of a member is a part of the object.
pub proof fn lemma_value_is_part(j: Json, members: Vec<(String, Json)>, i: int)
    requires
        j == Json::Object(members),
        0 <= i < members@.len(),
    ensures
        decreases_to!(j => members@[i].1),
{
    assert(decreases_to!(j => j->Object_0));
    assert(decreases_to!(members => members@));
    assert(decreases_to!(members@ => members@[i]));
    assert(decreases_to!(members@[i] => members@[i].1));
}

// ---------------------------------------------------------------------------
// Counting routes
// ---------------------------------------------------------------------------

/// A count, or the largest one where it would be larger.
pub open spec fn capped(n: nat) -> nat {
    if n > usize::MAX {
        usize::MAX as nat
    } else {
        n
    }
}

/// How many routes a list of routes has.
pub open spec fn listed_routes(j: JsonView) -> nat {
    match list_at(j, "routes"@) {
        Some(items) => items.len(),
        None => 0,
    }
}

/// How many routes a value has anywhere.
pub open spec fn routes_count(j: JsonView) -> nat
    decreases j,
{
    match j {
        JsonView::List(items) => items_routes(items),
        JsonView::Object(members) => listed_routes(j) + members_routes(members),
        _ => 0,
    }
}

/// How many routes values have anywhere.
pub open spec fn items_routes(items: Seq<JsonView>) -> nat
    decreases items,
{
    if items.len() == 0 {
        0
    } else {
        items_routes(items.drop_last()) + routes_count(items.last())
    }
}

/// How many routes members have anywhere.
pub open spec fn members_routes(members: Seq<(Seq<char>, JsonView)>) -> nat
    decreases members,
{
    if members.len() == 0 {
        0
    } else {
        members_routes(members.drop_last()) + routes_count(members.last().1)
    }
}

/// How many routes a value has anywhere; the largest number where there are more.
pub fn count_caddy_routes(j: &Json) -> (r: usize)
    ensures
        r == capped(routes_count(j.deep_view())),
    decreases *j,
{
    proof {
        lemma_json_view(*j);
    }
    let mut n: usize = 0;
    match j {
        Json::List(items) => {
            let ghost all = items.deep_view();
            let mut i: usize = 0;
            proof {
                ends(all);
            }
            while i < items.len()
                invariant
                    i <= items@.len(),
                    *j == Json::List(*items),
                    all == items.deep_view(),
                    n == capped(items_routes(all.take(i as int))),
                decreases items@.len() - i
            {
                proof {
                    step(all, i as int);
                    lemma_item_is_part(*j, *items, i as int);
                }
                n = n.saturating_add(count_caddy_routes(&items[i]));
                i = i + 1;
            }
            proof {
                ends(all);
            }
            n
        },
        Json::Object(members) => {
            let here: usize = match json_list_at(j, "routes") {
                Some(routes) => routes.len(),
                None => 0,
            };
            let ghost all = members.deep_view();
            let mut i: usize = 0;
            proof {
                ends(all);
            }
            while i < members.len()
                invariant
                    i <= members@.len(),
                    *j == Json::Object(*members),
                    all == members.deep_view(),
                    n == capped(members_routes(all.take(i as int))),
                decreases members@.len() - i
            {
                proof {
                    step(all, i as int);
                    assert(all[i as int] == members@[i as int].deep_view());
                    lemma_value_is_part(*j, *members, i as int);
                }
                n = n.saturating_add(count_caddy_routes(&members[i].1));
                i = i + 1;
            }
            proof {
                ends(all);
            }
            here.saturating_add(n)
        },
        _ => 0,
    }
}

// ---------------------------------------------------------------------------
// Matchers
// ---------------------------------------------------------------------------

/// What a regular expression on the path says.
pub open spec fn regexp_values(matcher: JsonView) -> Seq<Seq<char>> {
    match member_of(matcher, "path_regexp"@) {
        None => Seq::empty(),
        Some(v) => match v {
            JsonView::List(_) => texts_in(v),
            JsonView::Object(members) => chosen(
                members,
                |m: (Seq<char>, JsonView)| text_in(m.1),
            ),
            JsonView::Text(t) => seq![t],
            _ => Seq::empty(),
        },
    }
}

/// What a regular expression on the path says.
pub fn path_regexp_values(matcher: &Json) -> (r: Vec<String>)
    ensures
        r.deep_view() == regexp_values(matcher.deep_view()),
{
    let mut values: Vec<String> = Vec::new();
    proof {
        assert(values.deep_view() =~= Seq::<Seq<char>>::empty());
    }
    if let Some(v) = json_get(matcher, "path_regexp") {
        proof {
            lemma_json_view(*v);
        }
        match v {
            Json::List(_) => {
                return list_texts(v);
            },
            Json::Object(members) => {
                return choose_each(
                    members,
                    |m: &(String, Json)| -> (t: Option<String>)
                        ensures
                            t.deep_view() == text_in(m.deep_view().1)
                        { own_opt(json_text(&m.1)) },
                    Ghost(|m: (Seq<char>, JsonView)| text_in(m.1)),
                );
            },
            Json::Text(t) => {
                values.push(t.clone());
                proof {
                    assert(values.deep_view() =~= seq![t@]);
                }
            },
            _ => {},
        }
    }
    values
}

/// The names of an object's members, without their values.
pub open spec fn configured_names(j: JsonView) -> Seq<Seq<char>> {
    names_in(Some(j)).map_values(|n: Seq<char>| n + "=<configured>"@)
}

/// The names of an object's members, without their values.
pub fn object_key_values(j: &Json) -> (r: Vec<String>)
    ensures
        r.deep_view() == configured_names(j.deep_view()),
{
    map_each(
        &member_names(Some(j)),
        |n: &String| -> (t: String)
            ensures
                t.deep_view() == n@ + "=<configured>"@
            { cat2(n, "=<configured>") },
        Ghost(|n: Seq<char>| n + "=<configured>"@),
    )
}

/// What a matcher of an unknown kind says.
pub open spec fn generic_values(j: JsonView) -> Seq<Seq<char>> {
    match j {
        JsonView::Text(t) => seq![t],
        JsonView::Bool(b) => seq![bool_word(b)],
        JsonView::Number(n) => seq![n],
        JsonView::List(_) => texts_in(j),
        JsonView::Object(_) => names_in(Some(j)),
        JsonView::Null => Seq::empty(),
    }
}

/// What a matcher of an unknown kind says.
pub fn generic_matcher_values(j: &Json) -> (r: Vec<String>)
    ensures
        r.deep_view() == generic_values(j.deep_view()),
{
    let mut values: Vec<String> = Vec::new();
    proof {
        lemma_json_view(*j);
    }
    match j {
        Json::Text(t) => {
            values.push(t.clone());
        },
        Json::Bool(b) => {
            values.push(bool_text(*b).to_string());
        },
        Json::Number(n) => {
            values.push(n.clone());
        },
        Json::List(_) => {
            return list_texts(j);
        },
        Json::Object(_) => {
            return member_names(Some(j));
        },
        Json::Null => {},
    }
    proof {
        assert(values.deep_view() =~= generic_values(j.deep_view()));
    }
    values
}

/// The texts in a list without white space around them, if anything is left.
pub open spec fn trimmed_texts(j: JsonView) -> Seq<Seq<char>> {
    chosen(texts_in(j), |t: Seq<char>| if_any(trimmed(t)))
}

/// The texts in a list without white space around them, if anything is left.
pub fn list_trimmed_texts(j: &Json) -> (r: Vec<String>)
    ensures
        r.deep_view() == trimmed_texts(j.deep_view()),
{
    choose_each(
        &list_texts(j),
        |t: &String| -> (h: Option<String>)
            ensures
                h.deep_view() == if_any(trimmed(t@))
            {
                let bare = trim(t);
                if !bare.as_str().is_empty() {
                    Some(bare)
                } else {
                    None
                }
            },
        Ghost(|t: Seq<char>| if_any(trimmed(t))),
    )
}

/// What a matcher says, by its kind.
pub open spec fn matcher_values(kind: Seq<char>, value: JsonView, matcher: JsonView) -> Seq<
    Seq<char>,
> {
    if kind == "host"@ {
        hosts_listed(value)
    } else if kind == "path"@ {
        paths_listed(value)
    } else if kind == "method"@ || kind == "protocol"@ || kind == "remote_ip"@ {
        trimmed_texts(value)
    } else if kind == "path_regexp"@ {
        regexp_values(matcher)
    } else if kind == "header"@ || kind == "query"@ || kind == "vars"@ {
        configured_names(value)
    } else if kind == "expression"@ {
        seq!["<expression>"@]
    } else {
        generic_values(value)
    }
}

/// What a matcher says, by its kind.
pub fn list_matcher_values(kind: &str, value: &Json, matcher: &Json) -> (r: Vec<String>)
    ensures
        r.deep_view() == matcher_values(kind@, value.deep_view(), matcher.deep_view()),
{
    if same(kind, "host") {
        list_hosts(value)
    } else if same(kind, "path") {
        list_paths(value)
    } else if same(kind, "method") || same(kind, "protocol") || same(kind, "remote_ip") {
        list_trimmed_texts(value)
    } else if same(kind, "path_regexp") {
        path_regexp_values(matcher)
    } else if same(kind, "header") || same(kind, "query") || same(kind, "vars") {
        object_key_values(value)
    } else if same(kind, "expression") {
        let values: Vec<String> = vec!["<expression>".to_string()];
        proof {
            assert(values.deep_view() =~= seq!["<expression>"@]);
        }
        values
    } else {
        generic_matcher_values(value)
    }
}

/// What a matcher object matches on.
pub open spec fn matcher_summary(matcher: JsonView) -> Seq<CaddyRouteMatcherView> {
    match members_in(matcher) {
        None => Seq::empty(),
        Some(members) => members.map_values(
            |m: (Seq<char>, JsonView)|
                CaddyRouteMatcherView { kind: m.0, values: matcher_values(m.0, m.1, matcher) },
        ) + (if member_of(matcher, "path_regexp"@) is Some && regexp_values(matcher).len() == 0 {
            seq![
                CaddyRouteMatcherView {
                    kind: "path_regexp"@,
                    values: seq!["<configured>"@],
                },
            ]
        } else {
            Seq::empty()
        }),
    }
}

/// What a matcher object matches on.
pub fn collect_caddy_matcher_summary(matcher: &Json) -> (r: Vec<CaddyRouteMatcher>)
    ensures
        r.deep_view() == matcher_summary(matcher.deep_view()),
{
    let members = match json_members(matcher) {
        Some(members) => members,
        None => {
            let none: Vec<CaddyRouteMatcher> = Vec::new();
            proof {
                assert(none.deep_view() =~= Seq::<CaddyRouteMatcherView>::empty());
            }
            return none;
        },
    };
    let mut out = map_each(
        members,
        |m: &(String, Json)| -> (r: CaddyRouteMatcher)
            ensures
                r.deep_view() == (CaddyRouteMatcherView {
                    kind: m.deep_view().0,
                    values: matcher_values(m.deep_view().0, m.deep_view().1, matcher.deep_view()),
                })
            {
                CaddyRouteMatcher {
                    kind: m.0.clone(),
                    values: list_matcher_values(&m.0, &m.1, matcher),
                }
            },
        Ghost(
            |m: (Seq<char>, JsonView)|
                CaddyRouteMatcherView {
                    kind: m.0,
                    values: matcher_values(m.0, m.1, matcher.deep_view()),
                },
        ),
    );
    let values = path_regexp_values(matcher);
    proof {
        assert(values.deep_view().len() == values@.len());
    }
    if json_get(matcher, "path_regexp").is_some() && values.len() == 0 {
        let configured: Vec<String> = vec!["<configured>".to_string()];
        proof {
            assert(configured.deep_view() =~= seq!["<configured>"@]);
        }
        out.push(CaddyRouteMatcher { kind: "path_regexp".to_string(), values: configured });
    }
    proof {
        assert(out.deep_view() =~= matcher_summary(matcher.deep_view()));
    }
    out
}

/// The hosts that a matcher object names.
pub open spec fn matcher_hosts(matcher: JsonView) -> Seq<Seq<char>> {
    match member_of(matcher, "host"@) {
        Some(v) => hosts_listed(v),
        None => Seq::empty(),
    }
}

/// The hosts that a matcher object names.
pub fn list_matcher_hosts(matcher: &Json) -> (r: Vec<String>)
    ensures
        r.deep_view() == matcher_hosts(matcher.deep_view()),
{
    if let Some(v) = json_get(matcher, "host") {
        return list_hosts(v);
    }
    let none: Vec<String> = Vec::new();
    proof {
        assert(none.deep_view() =~= Seq::<Seq<char>>::empty());
    }
    none
}

/// The paths that a matcher object names.
pub open spec fn matcher_paths(matcher: JsonView) -> Seq<Seq<char>> {
    (match member_of(matcher, "path"@) {
        Some(v) => paths_listed(v),
        None => Seq::empty(),
    }) + noted(member_of(matcher, "path_regexp"@) is Some, "<path_regexp>"@)
}

/// The paths that a matcher object names.
pub fn list_matcher_paths(matcher: &Json) -> (r: Vec<String>)
    ensures
        r.deep_view() == matcher_paths(matcher.deep_view()),
{
    let mut paths: Vec<String> = Vec::new();
    proof {
        assert(paths.deep_view() =~= Seq::<Seq<char>>::empty());
    }
    if let Some(v) = json_get(matcher, "path") {
        paths = list_paths(v);
    }
    note(&mut paths, json_get(matcher, "path_regexp").is_some(), "<path_regexp>");
    paths
}

// ---------------------------------------------------------------------------
// Handlers and priorities
// ---------------------------------------------------------------------------

/// The handlers of a value, in the order in which they are met.
pub open spec fn chain_of(j: JsonView) -> Seq<Seq<char>>
    decreases j,
{
    match j {
        JsonView::List(items) => chain_of_items(items),
        JsonView::Object(_) => {
            proof {
                lemma_member_is_part(j, "handle"@);
                lemma_member_is_part(j, "routes"@);
            }
            listed(text_at(j, "handler"@)) + (match member_of(j, "handle"@) {
                Some(v) => chain_of(v),
                None => Seq::empty(),
            }) + (match member_of(j, "routes"@) {
                Some(v) => chain_of(v),
                None => Seq::empty(),
            })
        },
        _ => Seq::empty(),
    }
}

/// The handlers of values, in the order in which they are met.
pub open spec fn chain_of_items(items: Seq<JsonView>) -> Seq<Seq<char>>
    decreases items,
{
    if items.len() == 0 {
        Seq::empty()
    } else {
        chain_of_items(items.drop_last()) + chain_of(items.last())
    }
}

/// The handlers of a value, in the order in which they are met.
pub fn collect_caddy_handle_chain(j: &Json) -> (r: Vec<String>)
    ensures
        r.deep_view() == chain_of(j.deep_view()),
    decreases *j,
{
    proof {
        lemma_json_view(*j);
    }
    let mut chain: Vec<String> = Vec::new();
    proof {
        assert(chain.deep_view() =~= Seq::<Seq<char>>::empty());
    }
    match j {
        Json::List(items) => {
            let ghost all = items.deep_view();
            let mut i: usize = 0;
            proof {
                ends(all);
            }
            while i < items.len()
                invariant
                    i <= items@.len(),
                    *j == Json::List(*items),
                    all == items.deep_view(),
                    chain.deep_view() == chain_of_items(all.take(i as int)),
                decreases items@.len() - i
            {
                proof {
                    step(all, i as int);
                    lemma_item_is_part(*j, *items, i as int);
                }
                extend(&mut chain, &collect_caddy_handle_chain(&items[i]));
                i = i + 1;
            }
            proof {
                ends(all);
            }
        },
        Json::Object(members) => {
            let ghost view = j.deep_view();
            if let Some(handler) = json_text_at(j, "handler") {
                put(&mut chain, handler);
            }
            proof {
                assert(chain.deep_view() =~= listed(text_at(view, "handler"@)));
            }
            let ghost first = chain.deep_view();
            if let Some(i) = member_index(members, "handle") {
                proof {
                    lemma_value_is_part(*j, *members, i as int);
                }
                extend(&mut chain, &collect_caddy_handle_chain(&members[i].1));
            }
            proof {
                assert(first + Seq::<Seq<char>>::empty() =~= first);
            }
            let ghost second = chain.deep_view();
            if let Some(i) = member_index(members, "routes") {
                proof {
                    lemma_value_is_part(*j, *members, i as int);
                }
                extend(&mut chain, &collect_caddy_handle_chain(&members[i].1));
            }
            proof {
                assert(second + Seq::<Seq<char>>::empty() =~= second);
            }
        },
        _ => {},
    }
    chain
}

/// How specific a host is.
pub open spec fn host_weight(host: Seq<char>) -> u32 {
    if host == "*"@ {
        0
    } else if begins(host, "*."@) {
        200
    } else {
        300
    }
}

/// How specific a host is.
pub fn host_specificity(host: &str) -> (r: u32)
    ensures
        r == host_weight(host@),
{
    if same(host, "*") {
        0
    } else if starts_with(host, "*.") {
        200
    } else {
        300
    }
}

/// How specific a path is.
pub open spec fn path_weight(path: Seq<char>) -> u32 {
    if path == "*"@ {
        0
    } else if path == "<path_regexp>"@ {
        50
    } else {
        let n = byte_len(trim_back(path, is_char('*')));
        if n > u32::MAX {
            u32::MAX
        } else {
            n as u32
        }
    }
}

/// How specific a path is.
pub fn path_specificity(path: &str) -> (r: u32)
    ensures
        r == path_weight(path@),
{
    if same(path, "*") {
        0
    } else if same(path, "<path_regexp>") {
        50
    } else {
        let n = byte_size(&trim_end_char(path, '*'));
        if n > u32::MAX as usize {
            u32::MAX
        } else {
            n as u32
        }
    }
}

/// The largest weight, or zero.
pub open spec fn largest(texts: Seq<Seq<char>>, weight: spec_fn(Seq<char>) -> u32) -> u32
    decreases texts.len(),
{
    if texts.len() == 0 {
        0
    } else {
        let rest = largest(texts.drop_last(), weight);
        if weight(texts.last()) > rest {
            weight(texts.last())
        } else {
            rest
        }
    }
}

/// The weight of the most specific host.
pub open spec fn hosts_weight(hosts: Seq<Seq<char>>) -> u32 {
    largest(hosts, |h: Seq<char>| host_weight(h))
}

/// The weight of the most specific path.
pub open spec fn paths_weight(paths: Seq<Seq<char>>) -> u32 {
    largest(paths, |p: Seq<char>| path_weight(p))
}

/// The weight of the most specific host.
fn weigh_hosts(hosts: &Vec<String>) -> (r: u32)
    ensures
        r == hosts_weight(hosts.deep_view()),
{
    let ghost all = hosts.deep_view();
    let ghost w = |h: Seq<char>| host_weight(h);
    let mut top: u32 = 0;
    let mut i: usize = 0;
    proof {
        ends(all);
    }
    while i < hosts.len()
        invariant
            i <= hosts@.len(),
            all == hosts.deep_view(),
            w == (|h: Seq<char>| host_weight(h)),
            top == largest(all.take(i as int), w),
        decreases hosts@.len() - i,
    {
        proof {
            step(all, i as int);
        }
        let n = host_specificity(&hosts[i]);
        if n > top {
            top = n;
        }
        i = i + 1;
    }
    proof {
        ends(all);
    }
    top
}

/// The weight of the most specific path.
fn weigh_paths(paths: &Vec<String>) -> (r: u32)
    ensures
        r == paths_weight(paths.deep_view()),
{
    let ghost all = paths.deep_view();
    let ghost w = |p: Seq<char>| path_weight(p);
    let mut top: u32 = 0;
    let mut i: usize = 0;
    proof {
        ends(all);
    }
    while i < paths.len()
        invariant
            i <= paths@.len(),
            all == paths.deep_view(),
            w == (|p: Seq<char>| path_weight(p)),
            top == largest(all.take(i as int), w),
        decreases paths@.len() - i,
    {
        proof {
            step(all, i as int);
        }
        let n = path_specificity(&paths[i]);
        if n > top {
            top = n;
        }
        i = i + 1;
    }
    proof {
        ends(all);
    }
    top
}

/// A number of at most thirty-two bits, or the largest one.
pub open spec fn fit32(n: int) -> u32 {
    if n > u32::MAX {
        u32::MAX
    } else {
        n as u32
    }
}

/// A number of at most thirty-two bits, or the largest one.
fn fit_number(n: u64) -> (r: u32)
    ensures
        r == fit32(n as int),
{
    if n > u32::MAX as u64 {
        u32::MAX
    } else {
        n as u32
    }
}

/// How specific a route is: its hosts count most, then its paths, then how much it
/// matches on.
pub open spec fn specificity(hosts: u32, paths: u32, matchers: nat) -> u32 {
    fit32(fit32(fit32(hosts * 1000) + fit32(paths * 10)) + (matchers as u32))
}

/// How specific a route is.
pub open spec fn priority_of(
    order: nat,
    hosts: Seq<Seq<char>>,
    paths: Seq<Seq<char>>,
    matchers: nat,
    handlers: nat,
    terminal: bool,
) -> CaddyRoutePriorityView {
    CaddyRoutePriorityView {
        effective_order: order,
        host_specificity: hosts_weight(hosts),
        path_specificity: paths_weight(paths),
        matcher_count: matchers,
        handler_count: handlers,
        specificity_score: specificity(hosts_weight(hosts), paths_weight(paths), matchers),
        terminal,
    }
}

/// How specific a route is.
pub fn caddy_route_priority(
    order: usize,
    hosts: &Vec<String>,
    paths: &Vec<String>,
    matchers: usize,
    handlers: usize,
    terminal: bool,
) -> (r: CaddyRoutePriority)
    ensures
        r.deep_view() == priority_of(
            order as nat,
            hosts.deep_view(),
            paths.deep_view(),
            matchers as nat,
            handlers as nat,
            terminal,
        ),
{
    let h = weigh_hosts(hosts);
    let p = weigh_paths(paths);
    let both = fit_number(
        fit_number(h as u64 * 1000) as u64 + fit_number(p as u64 * 10) as u64,
    );
    let extra = #[verifier::truncate]
    (matchers as u32);
    let score = fit_number(both as u64 + extra as u64);
    CaddyRoutePriority {
        effective_order: order,
        host_specificity: h,
        path_specificity: p,
        matcher_count: matchers,
        handler_count: handlers,
        specificity_score: score,
        terminal,
    }
}

// ---------------------------------------------------------------------------
// Routes
// ---------------------------------------------------------------------------

/// A set of texts, or everything where it is empty.
pub open spec fn or_all(texts: Seq<Seq<char>>) -> Seq<Seq<char>> {
    if sorted_set(texts).len() == 0 {
        seq!["*"@]
    } else {
        sorted_set(texts)
    }
}

/// A set of texts, or everything where it is empty.
pub fn set_or_all(texts: Vec<String>) -> (r: Vec<String>)
    ensures
        r.deep_view() == or_all(texts.deep_view()),
{
    let set = unique_sorted(texts);
    proof {
        assert(set.deep_view().len() == set@.len());
    }
    if set.len() == 0 {
        let all: Vec<String> = vec!["*".to_string()];
        proof {
            assert(all.deep_view() =~= seq!["*"@]);
        }
        all
    } else {
        set
    }
}

/// The matcher objects of a route.
pub open spec fn matchers_of(route: JsonView) -> Seq<JsonView> {
    match list_at(route, "match"@) {
        Some(items) => items,
        None => Seq::empty(),
    }
}

/// The hosts of a route.
pub open spec fn route_hosts(route: JsonView) -> Seq<Seq<char>> {
    or_all(gathered(matchers_of(route), |m: JsonView| matcher_hosts(m)))
}

/// The paths of a route.
pub open spec fn route_paths(route: JsonView) -> Seq<Seq<char>> {
    or_all(gathered(matchers_of(route), |m: JsonView| matcher_paths(m)))
}

/// What a route matches on.
pub open spec fn route_matchers(route: JsonView) -> Seq<CaddyRouteMatcherView> {
    gathered(matchers_of(route), |m: JsonView| matcher_summary(m))
}

/// The handlers of a route itself.
pub open spec fn route_handlers(route: JsonView) -> Seq<Seq<char>> {
    match list_at(route, "handle"@) {
        Some(items) => chosen(items, |i: JsonView| text_at(i, "handler"@)),
        None => Seq::empty(),
    }
}

/// The handlers of a route and of what is inside it.
pub open spec fn route_chain(route: JsonView) -> Seq<Seq<char>> {
    match member_of(route, "handle"@) {
        Some(v) => chain_of(v),
        None => Seq::empty(),
    }
}

/// Whether a route ends the handling.
pub open spec fn route_terminal(route: JsonView) -> bool {
    member_of(route, "terminal"@) == Some(JsonView::Bool(true))
}

/// A route in one form.
pub open spec fn plain_route(server: Seq<char>, index: nat, route: JsonView) ->
    CaddyNormalizedRouteView {
    CaddyNormalizedRouteView {
        id: server + ":route-"@ + decimal(index),
        server,
        order: index,
        hosts: route_hosts(route),
        paths: route_paths(route),
        matchers: route_matchers(route),
        handlers: route_handlers(route),
        handle_chain: route_chain(route),
        priority: priority_of(
            index,
            route_hosts(route),
            route_paths(route),
            route_matchers(route).len(),
            route_chain(route).len(),
            route_terminal(route),
        ),
        terminal: route_terminal(route),
    }
}

/// What a route matches on: hosts, paths, and the rest.
fn read_matchers(route: &Json) -> (r: (Vec<String>, Vec<String>, Vec<CaddyRouteMatcher>))
    ensures
        r.0.deep_view() == route_hosts(route.deep_view()),
        r.1.deep_view() == route_paths(route.deep_view()),
        r.2.deep_view() == route_matchers(route.deep_view()),
{
    let none: Vec<Json> = Vec::new();
    proof {
        assert(none.deep_view() =~= Seq::<JsonView>::empty());
    }
    let items = match json_list_at(route, "match") {
        Some(items) => items,
        None => &none,
    };
    let hosts = gather_each(
        items,
        |m: &Json| -> (r: Vec<String>)
            ensures
                r.deep_view() == matcher_hosts(m.deep_view())
            { list_matcher_hosts(m) },
        Ghost(|m: JsonView| matcher_hosts(m)),
    );
    let paths = gather_each(
        items,
        |m: &Json| -> (r: Vec<String>)
            ensures
                r.deep_view() == matcher_paths(m.deep_view())
            { list_matcher_paths(m) },
        Ghost(|m: JsonView| matcher_paths(m)),
    );
    let matchers = gather_each(
        items,
        |m: &Json| -> (r: Vec<CaddyRouteMatcher>)
            ensures
                r.deep_view() == matcher_summary(m.deep_view())
            { collect_caddy_matcher_summary(m) },
        Ghost(|m: JsonView| matcher_summary(m)),
    );
    (set_or_all(hosts), set_or_all(paths), matchers)
}

/// The handlers of a route, itself and with what is inside it.
fn read_handlers(route: &Json) -> (r: (Vec<String>, Vec<String>))
    ensures
        r.0.deep_view() == route_handlers(route.deep_view()),
        r.1.deep_view() == route_chain(route.deep_view()),
{
    let mut handlers: Vec<String> = Vec::new();
    let mut chain: Vec<String> = Vec::new();
    proof {
        assert(handlers.deep_view() =~= Seq::<Seq<char>>::empty());
        assert(chain.deep_view() =~= Seq::<Seq<char>>::empty());
    }
    if let Some(items) = json_list_at(route, "handle") {
        handlers = choose_each(
            items,
            |i: &Json| -> (t: Option<String>)
                ensures
                    t.deep_view() == text_at(i.deep_view(), "handler"@)
                { own_opt(json_text_at(i, "handler")) },
            Ghost(|i: JsonView| text_at(i, "handler"@)),
        );
    }
    if let Some(v) = json_get(route, "handle") {
        chain = collect_caddy_handle_chain(v);
    }
    (handlers, chain)
}

/// A route in one form.
pub fn normalize_caddy_route(server: &str, index: usize, route: &Json) -> (r: CaddyNormalizedRoute)
    ensures
        r.deep_view() == plain_route(server@, index as nat, route.deep_view()),
{
    let (hosts, paths, matchers) = read_matchers(route);
    let (handlers, handle_chain) = read_handlers(route);
    let terminal = match json_get(route, "terminal") {
        Some(v) => {
            proof {
                lemma_json_view(*v);
            }
            match v {
                Json::Bool(b) => *b,
                _ => false,
            }
        },
        None => false,
    };
    proof {
        assert(matchers.deep_view().len() == matchers@.len());
        assert(handle_chain.deep_view().len() == handle_chain@.len());
    }
    let priority = caddy_route_priority(
        index,
        &hosts,
        &paths,
        matchers.len(),
        handle_chain.len(),
        terminal,
    );
    CaddyNormalizedRoute {
        id: cat3(server, ":route-", &count_text(index)),
        server: server.to_string(),
        order: index,
        hosts,
        paths,
        matchers,
        handlers,
        handle_chain,
        priority,
        terminal,
    }
}

/// The routes so far, with those of a value behind them.
pub open spec fn with_routes(
    server: Seq<char>,
    j: JsonView,
    so_far: Seq<CaddyNormalizedRouteView>,
) -> Seq<CaddyNormalizedRouteView>
    decreases j,
{
    match j {
        JsonView::List(items) => with_item_routes(server, items, so_far),
        JsonView::Object(members) => {
            proof {
                lemma_member_is_part(j, "routes"@);
                if list_at(j, "routes"@) is Some {
                    let v = member_of(j, "routes"@)->0;
                    assert(decreases_to!(v => v->List_0));
                }
            }
            with_member_routes(
                server,
                members,
                match list_at(j, "routes"@) {
                    Some(routes) => with_listed_routes(server, routes, so_far),
                    None => so_far,
                },
            )
        },
        _ => so_far,
    }
}

/// The routes so far, with those of values behind them.
pub open spec fn with_item_routes(
    server: Seq<char>,
    items: Seq<JsonView>,
    so_far: Seq<CaddyNormalizedRouteView>,
) -> Seq<CaddyNormalizedRouteView>
    decreases items,
{
    if items.len() == 0 {
        so_far
    } else {
        with_routes(server, items.last(), with_item_routes(server, items.drop_last(), so_far))
    }
}

/// The routes so far, with those of members behind them, besides a list of routes.
pub open spec fn with_member_routes(
    server: Seq<char>,
    members: Seq<(Seq<char>, JsonView)>,
    so_far: Seq<CaddyNormalizedRouteView>,
) -> Seq<CaddyNormalizedRouteView>
    decreases members,
{
    if members.len() == 0 {
        so_far
    } else {
        let rest = with_member_routes(server, members.drop_last(), so_far);
        if members.last().0 == "routes"@ {
            rest
        } else {
            with_routes(server, members.last().1, rest)
        }
    }
}

/// The routes so far, with a list of routes behind them: each route, and then those
/// inside it.
pub open spec fn with_listed_routes(
    server: Seq<char>,
    routes: Seq<JsonView>,
    so_far: Seq<CaddyNormalizedRouteView>,
) -> Seq<CaddyNormalizedRouteView>
    decreases routes,
{
    if routes.len() == 0 {
        so_far
    } else {
        let rest = with_listed_routes(server, routes.drop_last(), so_far);
        let route = routes.last();
        with_routes(
            server,
            route,
            if route is Object {
                rest.push(plain_route(server, rest.len(), route))
            } else {
                rest
            },
        )
    }
}

/// Adds the routes of a value.
pub fn collect_normalized_caddy_routes(
    server: &str,
    j: &Json,
    routes: &mut Vec<CaddyNormalizedRoute>,
)
    ensures
        final(routes).deep_view() == with_routes(
            server@,
            j.deep_view(),
            old(routes).deep_view(),
        ),
    decreases *j,
{
    let ghost before = routes.deep_view();
    proof {
        lemma_json_view(*j);
    }
    match j {
        Json::List(items) => {
            let ghost all = items.deep_view();
            let mut i: usize = 0;
            proof {
                ends(all);
            }
            while i < items.len()
                invariant
                    i <= items@.len(),
                    *j == Json::List(*items),
                    all == items.deep_view(),
                    routes.deep_view() == with_item_routes(server@, all.take(i as int), before),
                decreases items@.len() - i
            {
                proof {
                    step(all, i as int);
                    lemma_item_is_part(*j, *items, i as int);
                }
                collect_normalized_caddy_routes(server, &items[i], routes);
                i = i + 1;
            }
            proof {
                ends(all);
            }
        },
        Json::Object(members) => {
            if let Some(k) = member_index(members, "routes") {
                proof {
                    lemma_value_is_part(*j, *members, k as int);
                    lemma_json_view(members@[k as int].1);
                }
                let list = &members[k].1;
                if let Json::List(items) = list {
                    proof {
                        assert(decreases_to!(*list => *items));
                    }
                    collect_listed_routes(server, items, routes);
                }
            }
            let ghost start = routes.deep_view();
            let ghost all = members.deep_view();
            let mut i: usize = 0;
            proof {
                ends(all);
            }
            while i < members.len()
                invariant
                    i <= members@.len(),
                    *j == Json::Object(*members),
                    all == members.deep_view(),
                    routes.deep_view() == with_member_routes(server@, all.take(i as int), start),
                decreases members@.len() - i
            {
                proof {
                    step(all, i as int);
                    assert(all[i as int] == members@[i as int].deep_view());
                    lemma_value_is_part(*j, *members, i as int);
                }
                if !same(&members[i].0, "routes") {
                    collect_normalized_caddy_routes(server, &members[i].1, routes);
                }
                i = i + 1;
            }
            proof {
                ends(all);
            }
        },
        _ => {},
    }
}

/// Adds a list of routes, and those inside them.
fn collect_listed_routes(server: &str, items: &Vec<Json>, routes: &mut Vec<CaddyNormalizedRoute>)
    ensures
        final(routes).deep_view() == with_listed_routes(
            server@,
            items.deep_view(),
            old(routes).deep_view(),
        ),
    decreases *items,
{
    let ghost before = routes.deep_view();
    let ghost all = items.deep_view();
    let mut i: usize = 0;
    proof {
        ends(all);
    }
    while i < items.len()
        invariant
            i <= items@.len(),
            all == items.deep_view(),
            routes.deep_view() == with_listed_routes(server@, all.take(i as int), before),
        decreases items@.len() - i,
    {
        let item = &items[i];
        proof {
            step(all, i as int);
            assert(decreases_to!(*items => items@));
            assert(decreases_to!(items@ => items@[i as int]));
            lemma_json_view(*item);
            assert(routes.deep_view().len() == routes@.len());
        }
        let ghost rest = routes.deep_view();
        if let Json::Object(_) = item {
            let route = normalize_caddy_route(server, routes.len(), item);
            routes.push(route);
            proof {
                assert(routes.deep_view() =~= rest.push(route.deep_view()));
            }
        }
        collect_normalized_caddy_routes(server, item, routes);
        i = i + 1;
    }
    proof {
        ends(all);
    }
}

/// The routes of the first servers.
pub open spec fn routes_of_servers(servers: Seq<(Seq<char>, JsonView)>) -> Seq<
    CaddyNormalizedRouteView,
>
    decreases servers.len(),
{
    if servers.len() == 0 {
        Seq::empty()
    } else {
        with_routes(
            servers.last().0,
            servers.last().1,
            routes_of_servers(servers.drop_last()),
        )
    }
}

/// The routes of a configuration.
pub open spec fn routes_of(config: JsonView) -> Seq<CaddyNormalizedRouteView> {
    match servers_of(config) {
        Some(v) => match members_in(v) {
            Some(servers) => routes_of_servers(servers),
            None => Seq::empty(),
        },
        None => Seq::empty(),
    }
}

/// The routes of a configuration, in one form.
pub fn normalize_caddy_routes(config: &Json) -> (r: Vec<CaddyNormalizedRoute>)
    ensures
        r.deep_view() == routes_of(config.deep_view()),
{
    let mut routes: Vec<CaddyNormalizedRoute> = Vec::new();
    proof {
        assert(routes.deep_view() =~= Seq::<CaddyNormalizedRouteView>::empty());
    }
    if let Some(v) = get_servers(config) {
        if let Some(servers) = json_members(v) {
            let ghost all = servers.deep_view();
            let mut i: usize = 0;
            proof {
                ends(all);
            }
            while i < servers.len()
                invariant
                    i <= servers@.len(),
                    all == servers.deep_view(),
                    routes.deep_view() == routes_of_servers(all.take(i as int)),
                decreases servers@.len() - i
            {
                proof {
                    step(all, i as int);
                    assert(all[i as int] == servers@[i as int].deep_view());
                }
                collect_normalized_caddy_routes(&servers[i].0, &servers[i].1, &mut routes);
                i = i + 1;
            }
            proof {
                ends(all);
            }
        }
    }
    routes
}

// ---------------------------------------------------------------------------
// Certificate policies
// ---------------------------------------------------------------------------

/// The subjects of a policy; everything where it names none.
pub open spec fn policy_subjects(policy: JsonView) -> Seq<Seq<char>> {
    match member_of(policy, "subjects"@) {
        Some(v) => if v is List {
            sorted_set(hosts_listed(v))
        } else {
            seq!["*"@]
        },
        None => seq!["*"@],
    }
}

/// The issuer in an item.
pub open spec fn issuer_of(item: JsonView) -> Option<Seq<char>> {
    match text_at(item, "module"@) {
        Some(t) => Some(t),
        None => text_at(item, "ca"@),
    }
}

/// The issuers of a policy.
pub open spec fn policy_issuers(policy: JsonView) -> Seq<Seq<char>> {
    match list_at(policy, "issuers"@) {
        Some(items) => chosen(items, |i: JsonView| issuer_of(i)),
        None => Seq::empty(),
    }
}

/// A policy in one form.
pub open spec fn plain_policy(index: nat, policy: JsonView) -> CaddyTlsPolicyView {
    CaddyTlsPolicyView {
        id: "tls-policy-"@ + decimal(index),
        subjects: policy_subjects(policy),
        issuers: policy_issuers(policy),
    }
}

/// The policies among the first values of a list; each is named by its place.
pub open spec fn policies_in(items: Seq<JsonView>) -> Seq<CaddyTlsPolicyView>
    decreases items.len(),
{
    if items.len() == 0 {
        Seq::empty()
    } else {
        let rest = policies_in(items.drop_last());
        if items.last() is Object {
            rest.push(plain_policy((items.len() - 1) as nat, items.last()))
        } else {
            rest
        }
    }
}

/// The list of policies of a configuration.
pub open spec fn policy_list(config: JsonView) -> Option<JsonView> {
    deeper(
        deeper(deeper(member_of(config, "apps"@), "tls"@), "automation"@),
        "policies"@,
    )
}

/// The policies of a configuration.
pub open spec fn policies_of(config: JsonView) -> Seq<CaddyTlsPolicyView> {
    match policy_list(config) {
        Some(v) => match items_in(v) {
            Some(items) => policies_in(items),
            None => Seq::empty(),
        },
        None => Seq::empty(),
    }
}

/// A policy in one form.
pub fn normalize_caddy_tls_policy(index: usize, policy: &Json) -> (r: CaddyTlsPolicy)
    ensures
        r.deep_view() == plain_policy(index as nat, policy.deep_view()),
{
    let mut subjects: Vec<String> = vec!["*".to_string()];
    proof {
        assert(subjects.deep_view() =~= seq!["*"@]);
    }
    if let Some(v) = json_get(policy, "subjects") {
        proof {
            lemma_json_view(*v);
        }
        if let Json::List(_) = v {
            subjects = unique_sorted(list_hosts(v));
        }
    }
    let mut issuers: Vec<String> = Vec::new();
    proof {
        assert(issuers.deep_view() =~= Seq::<Seq<char>>::empty());
    }
    if let Some(items) = json_list_at(policy, "issuers") {
        issuers = choose_each(
            items,
            |i: &Json| -> (t: Option<String>)
                ensures
                    t.deep_view() == issuer_of(i.deep_view())
                {
                    match json_text_at(i, "module") {
                        Some(t) => Some(t.to_string()),
                        None => own_opt(json_text_at(i, "ca")),
                    }
                },
            Ghost(|i: JsonView| issuer_of(i)),
        );
    }
    CaddyTlsPolicy { id: cat2("tls-policy-", &count_text(index)), subjects, issuers }
}

/// The policies of a configuration, in one form.
pub fn normalize_caddy_tls_policies(config: &Json) -> (r: Vec<CaddyTlsPolicy>)
    ensures
        r.deep_view() == policies_of(config.deep_view()),
{
    let mut policies: Vec<CaddyTlsPolicy> = Vec::new();
    proof {
        assert(policies.deep_view() =~= Seq::<CaddyTlsPolicyView>::empty());
    }
    let list = go_deeper(
        go_deeper(go_deeper(json_get(config, "apps"), "tls"), "automation"),
        "policies",
    );
    if let Some(v) = list {
        if let Some(items) = json_items(v) {
            let ghost all = items.deep_view();
            let mut i: usize = 0;
            proof {
                ends(all);
            }
            while i < items.len()
                invariant
                    i <= items@.len(),
                    all == items.deep_view(),
                    policies.deep_view() == policies_in(all.take(i as int)),
                decreases items@.len() - i
            {
                let item = &items[i];
                proof {
                    step(all, i as int);
                    lemma_json_view(*item);
                }
                let ghost before = policies.deep_view();
                if let Json::Object(_) = item {
                    let policy = normalize_caddy_tls_policy(i, item);
                    policies.push(policy);
                    proof {
                        assert(policies.deep_view() =~= before.push(policy.deep_view()));
                    }
                }
                i = i + 1;
            }
            proof {
                ends(all);
            }
        }
    }
    policies
}

// ---------------------------------------------------------------------------
// Laws
// ---------------------------------------------------------------------------

/// Each route has its place in the list as its number.
pub open spec fn numbered_by_place(routes: Seq<CaddyNormalizedRouteView>) -> bool {
    forall|i: int|
        0 <= i < routes.len() ==> (#[trigger] routes[i]).order == i
            && routes[i].priority.effective_order == i
}

/// Collecting the routes of a value keeps those before them and numbers the others
/// by their places.
pub proof fn law_routes_are_numbered_by_place(
    server: Seq<char>,
    j: JsonView,
    so_far: Seq<CaddyNormalizedRouteView>,
)
    requires
        numbered_by_place(so_far),
    ensures
        numbered_by_place(with_routes(server, j, so_far)),
        so_far.len() <= with_routes(server, j, so_far).len(),
        with_routes(server, j, so_far).take(so_far.len() as int) == so_far,
    decreases j,
{
    ends(so_far);
    match j {
        JsonView::List(items) => {
            lemma_item_routes(server, items, so_far);
        },
        JsonView::Object(members) => {
            lemma_member_is_part(j, "routes"@);
            match list_at(j, "routes"@) {
                Some(routes) => {
                    let v = member_of(j, "routes"@)->0;
                    assert(decreases_to!(v => v->List_0));
                    lemma_listed_routes(server, routes, so_far);
                    let a = with_listed_routes(server, routes, so_far);
                    lemma_member_routes(server, members, a);
                    let b = with_member_routes(server, members, a);
                    assert(b.take(so_far.len() as int) =~= b.take(a.len() as int).take(
                        so_far.len() as int,
                    ));
                },
                None => {
                    lemma_member_routes(server, members, so_far);
                },
            }
        },
        _ => {},
    }
}

proof fn lemma_item_routes(
    server: Seq<char>,
    items: Seq<JsonView>,
    so_far: Seq<CaddyNormalizedRouteView>,
)
    requires
        numbered_by_place(so_far),
    ensures
        numbered_by_place(with_item_routes(server, items, so_far)),
        so_far.len() <= with_item_routes(server, items, so_far).len(),
        with_item_routes(server, items, so_far).take(so_far.len() as int) == so_far,
    decreases items,
{
    ends(so_far);
    if items.len() > 0 {
        lemma_item_routes(server, items.drop_last(), so_far);
        let a = with_item_routes(server, items.drop_last(), so_far);
        law_routes_are_numbered_by_place(server, items.last(), a);
        let b = with_item_routes(server, items, so_far);
        assert(b.take(so_far.len() as int) =~= b.take(a.len() as int).take(so_far.len() as int));
    }
}

proof fn lemma_member_routes(
    server: Seq<char>,
    members: Seq<(Seq<char>, JsonView)>,
    so_far: Seq<CaddyNormalizedRouteView>,
)
    requires
        numbered_by_place(so_far),
    ensures
        numbered_by_place(with_member_routes(server, members, so_far)),
        so_far.len() <= with_member_routes(server, members, so_far).len(),
        with_member_routes(server, members, so_far).take(so_far.len() as int) == so_far,
    decreases members,
{
    ends(so_far);
    if members.len() > 0 {
        lemma_member_routes(server, members.drop_last(), so_far);
        let a = with_member_routes(server, members.drop_last(), so_far);
        if members.last().0 != "routes"@ {
            law_routes_are_numbered_by_place(server, members.last().1, a);
            let b = with_member_routes(server, members, so_far);
            assert(b.take(so_far.len() as int) =~= b.take(a.len() as int).take(
                so_far.len() as int,
            ));
        }
    }
}

proof fn lemma_listed_routes(
    server: Seq<char>,
    routes: Seq<JsonView>,
    so_far: Seq<CaddyNormalizedRouteView>,
)
    requires
        numbered_by_place(so_far),
    ensures
        numbered_by_place(with_listed_routes(server, routes, so_far)),
        so_far.len() <= with_listed_routes(server, routes, so_far).len(),
        with_listed_routes(server, routes, so_far).take(so_far.len() as int) == so_far,
    decreases routes,
{
    ends(so_far);
    if routes.len() > 0 {
        lemma_listed_routes(server, routes.drop_last(), so_far);
        let a = with_listed_routes(server, routes.drop_last(), so_far);
        let route = routes.last();
        let c = if route is Object {
            a.push(plain_route(server, a.len(), route))
        } else {
            a
        };
        assert forall|i: int| 0 <= i < c.len() implies (#[trigger] c[i]).order == i
            && c[i].priority.effective_order == i by {
            if i < a.len() {
                assert(c[i] == a[i]);
            }
        }
        law_routes_are_numbered_by_place(server, route, c);
        let b = with_listed_routes(server, routes, so_far);
        assert(b.take(so_far.len() as int) =~= b.take(c.len() as int).take(a.len() as int).take(
            so_far.len() as int,
        ));
        assert(c.take(a.len() as int) =~= a);
    }
}

/// An exact host weighs more than a wildcard, and that more than a lone star, which
/// weighs nothing.
pub proof fn law_host_weights(host: Seq<char>, domain: Seq<char>)
    ensures
        host_weight("*"@) == 0,
        host_weight("*."@ + domain) == 200,
        host != "*"@ && !begins(host, "*."@) ==> host_weight(host) == 300,
{
    reveal_strlit("*");
    reveal_strlit("*.");
    law_parts_are_found(Seq::empty(), "*."@, domain);
    assert(("*."@ + domain).len() >= 2);
    assert("*"@.len() == 1);
}

/// The weight of several texts is that of the heaviest.
pub proof fn law_largest(texts: Seq<Seq<char>>, weight: spec_fn(Seq<char>) -> u32)
    ensures
        forall|i: int|
            0 <= i < texts.len() ==> weight(#[trigger] texts[i]) <= largest(texts, weight),
        texts.len() == 0 ==> largest(texts, weight) == 0,
        largest(texts, weight) > 0 ==> exists|i: int|
            0 <= i < texts.len() && weight(#[trigger] texts[i]) == largest(texts, weight),
    decreases texts.len(),
{
    if texts.len() > 0 {
        let d = texts.drop_last();
        law_largest(d, weight);
        assert(texts[texts.len() - 1] == texts.last());
        assert forall|i: int| 0 <= i < texts.len() implies weight(#[trigger] texts[i]) <= largest(
            texts,
            weight,
        ) by {
            if i < d.len() {
                assert(d[i] == texts[i]);
            }
        }
        if largest(texts, weight) > 0 && largest(texts, weight) == largest(d, weight) {
            let i = choose|i: int|
                0 <= i < d.len() && weight(#[trigger] d[i]) == largest(d, weight);
            assert(weight(texts[i]) == largest(texts, weight));
        }
    }
}

/// A route matches the hosts and the paths that its matchers list, each once and in
/// order; where they list none, it matches all.
pub proof fn law_what_a_route_matches(route: JsonView, x: Seq<char>)
    ensures
        ({
            let matchers = matchers_of(route);
            let hosts = route_hosts(route);
            let some = exists|i: int|
                0 <= i < matchers.len() && matcher_hosts(#[trigger] matchers[i]).len() > 0;
            &&& increasing(hosts)
            &&& hosts.len() > 0
            &&& some ==> (hosts.contains(x) <==> exists|i: int|
                0 <= i < matchers.len() && matcher_hosts(#[trigger] matchers[i]).contains(x))
            &&& !some ==> hosts == seq!["*"@]
        }),
        ({
            let matchers = matchers_of(route);
            let paths = route_paths(route);
            let some = exists|i: int|
                0 <= i < matchers.len() && matcher_paths(#[trigger] matchers[i]).len() > 0;
            &&& increasing(paths)
            &&& paths.len() > 0
            &&& some ==> (paths.contains(x) <==> exists|i: int|
                0 <= i < matchers.len() && matcher_paths(#[trigger] matchers[i]).contains(x))
            &&& !some ==> paths == seq!["*"@]
        }),
{
    let matchers = matchers_of(route);
    lemma_or_all(matchers, |m: JsonView| matcher_hosts(m), x);
    lemma_or_all(matchers, |m: JsonView| matcher_paths(m), x);
}

proof fn lemma_or_all(s: Seq<JsonView>, f: spec_fn(JsonView) -> Seq<Seq<char>>, x: Seq<char>)
    ensures
        ({
            let r = or_all(gathered(s, f));
            let some = exists|i: int| 0 <= i < s.len() && f(#[trigger] s[i]).len() > 0;
            &&& increasing(r)
            &&& r.len() > 0
            &&& some ==> (r.contains(x) <==> exists|i: int|
                0 <= i < s.len() && f(#[trigger] s[i]).contains(x))
            &&& !some ==> r == seq!["*"@]
        }),
{
    let g = gathered(s, f);
    law_sorted_set(g);
    law_gathered(s, f, x);
    if exists|i: int| 0 <= i < s.len() && f(#[trigger] s[i]).len() > 0 {
        let i = choose|i: int| 0 <= i < s.len() && f(#[trigger] s[i]).len() > 0;
        let y = f(s[i])[0];
        law_gathered(s, f, y);
        assert(f(s[i]).contains(y));
        assert(g.contains(y));
        assert(sorted_set(g).contains(y));
    } else {
        if sorted_set(g).len() > 0 {
            let y = sorted_set(g)[0];
            assert(sorted_set(g).contains(y));
            law_gathered(s, f, y);
            let i = choose|i: int| 0 <= i < s.len() && f(#[trigger] s[i]).contains(y);
            assert(f(s[i]).len() > 0);
        }
    }
}

/// A host is listed without space around it and dots behind it, in small letters, unless
/// nothing is left of it.
pub proof fn law_listed_hosts(j: JsonView, x: Seq<char>)
    ensures
        hosts_listed(j).contains(x) <==> j is List && x.len() > 0 && exists|i: int|
            0 <= i < j->List_0.len() && (#[trigger] j->List_0[i]) is Text && x == lowered(
                trim_back(trimmed(j->List_0[i]->Text_0), is_char('.')),
            ),
{
    let f = |t: Seq<char>| if_any(plain_host(t));
    let texts = texts_in(j);
    law_chosen(texts, f, x);
    if j is List {
        let items = j->List_0;
        let g = |i: JsonView| text_in(i);
        assert(texts == chosen(items, g));
        if hosts_listed(j).contains(x) {
            let k = choose|k: int| 0 <= k < texts.len() && f(#[trigger] texts[k]) == Some(x);
            assert(texts.contains(texts[k]));
            law_chosen(items, g, texts[k]);
            let i = choose|i: int| 0 <= i < items.len() && g(#[trigger] items[i]) == Some(texts[k]);
            assert(items[i] is Text);
        }
        if x.len() > 0 && exists|i: int|
            0 <= i < items.len() && (#[trigger] items[i]) is Text && x == lowered(
                trim_back(trimmed(items[i]->Text_0), is_char('.')),
            ) {
            let i = choose|i: int|
                0 <= i < items.len() && (#[trigger] items[i]) is Text && x == lowered(
                    trim_back(trimmed(items[i]->Text_0), is_char('.')),
                );
            let t = items[i]->Text_0;
            law_chosen(items, g, t);
            assert(g(items[i]) == Some(t));
            let k = choose|k: int| 0 <= k < texts.len() && texts[k] == t;
            assert(f(texts[k]) == Some(x));
        }
    } else {
        assert(texts.len() == 0);
    }
}

/// A route is terminal where it says so, and its id tells its server and its place.
pub proof fn law_plain_routes(server: Seq<char>, index: nat, route: JsonView)
    ensures
        ({
            let r = plain_route(server, index, route);
            &&& r.id == server + ":route-"@ + decimal(index)
            &&& r.server == server
            &&& r.order == index
            &&& r.terminal <==> member_of(route, "terminal"@) == Some(JsonView::Bool(true))
            &&& r.priority.terminal == r.terminal
            &&& r.priority.effective_order == index
            &&& r.priority.matcher_count == r.matchers.len()
            &&& r.priority.handler_count == r.handle_chain.len()
            &&& r.hosts == route_hosts(route)
            &&& r.paths == route_paths(route)
            &&& forall|i: int|
                0 <= i < r.hosts.len() ==> r.priority.host_specificity >= host_weight(
                    #[trigger] r.hosts[i],
                )
            &&& forall|i: int|
                0 <= i < r.paths.len() ==> r.priority.path_specificity >= path_weight(
                    #[trigger] r.paths[i],
                )
        }),
{
    let r = plain_route(server, index, route);
    let h = |h: Seq<char>| host_weight(h);
    let p = |p: Seq<char>| path_weight(p);
    law_largest(r.hosts, h);
    law_largest(r.paths, p);
    assert forall|i: int| 0 <= i < r.hosts.len() implies r.priority.host_specificity >= host_weight(
        #[trigger] r.hosts[i],
    ) by {
        assert(h(r.hosts[i]) <= largest(r.hosts, h));
    }
    assert forall|i: int| 0 <= i < r.paths.len() implies r.priority.path_specificity >= path_weight(
        #[trigger] r.paths[i],
    ) by {
        assert(p(r.paths[i]) <= largest(r.paths, p));
    }
}

/// Each policy that is an object is listed, named after its place.
pub proof fn law_policies_are_listed(items: Seq<JsonView>, x: CaddyTlsPolicyView)
    ensures
        policies_in(items).contains(x) <==> exists|i: int|
            0 <= i < items.len() && (#[trigger] items[i]) is Object && x == plain_policy(
                i as nat,
                items[i],
            ),
    decreases items.len(),
{
    if items.len() > 0 {
        let d = items.drop_last();
        let last = items.len() - 1;
        law_policies_are_listed(d, x);
        assert(items[last] == items.last());
        assert forall|i: int| 0 <= i < d.len() implies #[trigger] d[i] == items[i] by {}
        if items.last() is Object {
            law_one_more(policies_in(d), plain_policy(last as nat, items.last()), x);
        }
        if policies_in(d).contains(x) {
            let i = choose|i: int|
                0 <= i < d.len() && (#[trigger] d[i]) is Object && x == plain_policy(
                    i as nat,
                    d[i],
                );
            assert(items[i] is Object);
        }
        if exists|i: int|
            0 <= i < items.len() && (#[trigger] items[i]) is Object && x == plain_policy(
                i as nat,
                items[i],
            ) {
            let i = choose|i: int|
                0 <= i < items.len() && (#[trigger] items[i]) is Object && x == plain_policy(
                    i as nat,
                    items[i],
                );
            if i < last {
                assert(d[i] is Object);
            }
        }
    }
}

/// A policy without a list of subjects is for all; otherwise it is for the hosts that it
/// lists.
pub proof fn law_policy_subjects(policy: JsonView, x: Seq<char>)
    ensures
        !(member_of(policy, "subjects"@) is Some && member_of(policy, "subjects"@)->0 is List)
            ==> policy_subjects(policy) == seq!["*"@],
        member_of(policy, "subjects"@) is Some && member_of(policy, "subjects"@)->0 is List ==> (
        policy_subjects(policy).contains(x) <==> hosts_listed(
            member_of(policy, "subjects"@)->0,
        ).contains(x)),
{
    if member_of(policy, "subjects"@) is Some {
        law_sorted_set(hosts_listed(member_of(policy, "subjects"@)->0));
    }
}

/// Each object in a list of routes becomes a route, with what it matches.
pub proof fn law_listed_routes_are_found(
    server: Seq<char>,
    routes: Seq<JsonView>,
    so_far: Seq<CaddyNormalizedRouteView>,
    i: int,
)
    requires
        numbered_by_place(so_far),
        0 <= i < routes.len(),
        routes[i] is Object,
    ensures
        exists|k: int|
            so_far.len() <= k < with_listed_routes(server, routes, so_far).len()
                && #[trigger] with_listed_routes(server, routes, so_far)[k] == plain_route(
                server,
                k as nat,
                routes[i],
            ),
    decreases routes.len(),
{
    let d = routes.drop_last();
    let rest = with_listed_routes(server, d, so_far);
    lemma_listed_routes(server, d, so_far);
    let here = if routes.last() is Object {
        rest.push(plain_route(server, rest.len(), routes.last()))
    } else {
        rest
    };
    let all = with_listed_routes(server, routes, so_far);
    assert(numbered_by_place(here)) by {
        assert forall|k: int| 0 <= k < here.len() implies (#[trigger] here[k]).order == k
            && here[k].priority.effective_order == k by {
            if k < rest.len() {
                assert(rest[k].order == k);
            }
        }
    }
    law_routes_are_numbered_by_place(server, routes.last(), here);
    assert forall|k: int| 0 <= k < here.len() implies #[trigger] all[k] == here[k] by {
        assert(all.take(here.len() as int)[k] == here[k]);
    }
    if i < d.len() {
        assert(d[i] == routes[i]);
        law_listed_routes_are_found(server, d, so_far, i);
        let k = choose|k: int|
            so_far.len() <= k < rest.len() && #[trigger] rest[k] == plain_route(
                server,
                k as nat,
                d[i],
            );
        assert(all[k] == plain_route(server, k as nat, routes[i]));
    } else {
        let k = rest.len() as int;
        assert(all[k] == plain_route(server, k as nat, routes[i]));
    }
}

} // verus!
