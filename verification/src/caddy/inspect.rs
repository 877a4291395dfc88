//! What is in the Caddy configuration file.

use vstd::prelude::*;
use crate::caddy::routes::{
    ByteBounds, begin_prefix, bounds_if_any, byte_bounds, covers, lemma_route_bounds, line_offset,
    managed_caddy_route_bounds, next_offset, offset_in_bounds, route_bounds,
};
use crate::caddy::types::{
    CaddyAdaptReport, CaddyAdaptReportView, CaddyAdminReport, CaddyAdminReportView,
    CaddyImportReference, CaddyImportReferenceView, CaddyManagedRoute, CaddyManagedRouteView,
    CaddyManagementReport, CaddyManagementReportView, CaddyRoutesReport, CaddyRoutesReportView,
};
use crate::each::{any_where, pick_first};
use crate::entries::{EntryKind, refuse, refused};
use crate::list::{
    any, chosen, first_some, includes, law_either_list, law_one_more, lemma_any, note, noted, put,
};
use crate::number::{count_text, decimal};
use crate::paths::{parent, parent_spec, path_join, path_joined};
use crate::text::{
    after_prefix, as_text, begins, byte_len, cat2, cat3, chars_of, contains_char, ends, ends_with,
    finishes, is_char, is_white, law_bare_texts_stay, law_found_parts_are_there,
    law_parts_are_found, law_trimmed_texts_are_bare, lemma_first_of, lines, or_text, same,
    split_lines, stands_at, starts_with, step, strip_prefix, text_between, text_or, trim,
    trim_back, trim_char, trimmed, trimmed_by,
};
use crate::words::{
    find_from, first_line, get_first_line, lemma_place_from, place_from, split_words,
    trim_end_char, words,
};

verus! {

broadcast use {vstd::seq::group_seq_axioms, vstd::string::group_string_axioms};

// ---------------------------------------------------------------------------
// Managed routes
// ---------------------------------------------------------------------------

/// Where a route leads to: the first line that names an upstream.
pub open spec fn proxied_to(line: Seq<char>) -> Option<Seq<char>> {
    match after_prefix(trimmed(line), "reverse_proxy "@) {
        Some(rest) => if trimmed(rest).len() > 0 {
            Some(trimmed(rest))
        } else {
            None
        },
        None => None,
    }
}

/// Where a route leads to.
pub open spec fn upstream_in(block: Seq<char>) -> Option<Seq<char>> {
    first_some(lines(block), |line: Seq<char>| proxied_to(line))
}

/// Where a route leads to.
pub fn parse_caddy_reverse_proxy(block: &str) -> (r: Option<String>)
    ensures
        r.deep_view() == upstream_in(block@),
{
    pick_first(
        &split_lines(block),
        |line: &String| -> (r: Option<String>)
            ensures
                r.deep_view() == proxied_to(line@)
            {
                match strip_prefix(&trim(line), "reverse_proxy ") {
                    Some(rest) => {
                        let bare = trim(&rest);
                        if !bare.as_str().is_empty() {
                            Some(bare)
                        } else {
                            None
                        }
                    },
                    None => None,
                }
            },
        Ghost(|line: Seq<char>| proxied_to(line)),
    )
}

/// What stands at a marker: a route, or what is wrong there; and where to look on.
pub struct MarkerView {
    pub route: Option<CaddyManagedRouteView>,
    pub finding: Option<Seq<char>>,
    pub next: int,
}

/// The host that a marker line names, or nothing.
pub open spec fn marked_host(line: Seq<char>) -> Seq<char> {
    match after_prefix(trimmed(line), begin_prefix()) {
        Some(host) => host,
        None => Seq::empty(),
    }
}

/// What stands at a marker.
pub open spec fn at_marker(text: Seq<char>, start: int) -> MarkerView {
    let rest = text.skip(start);
    let line = first_line(rest);
    let host = marked_host(line);
    let past = start + line.len();
    if host.len() == 0 {
        MarkerView {
            route: None,
            finding: Some("managed route has empty host marker"@),
            next: past,
        }
    } else {
        match route_bounds(rest, host) {
            Ok(Some(b)) => MarkerView {
                route: Some(
                    CaddyManagedRouteView { host, upstream: upstream_in(rest.take(b.1)) },
                ),
                finding: None,
                next: start + b.1,
            },
            Ok(None) => MarkerView {
                route: None,
                finding: Some("managed route for "@ + host + " could not be bounded"@),
                next: past,
            },
            Err(error) => MarkerView { route: None, finding: Some(error), next: past },
        }
    }
}

/// Looking on after a marker gets further in the text.
pub proof fn lemma_at_marker(text: Seq<char>, start: int)
    requires
        stands_at(text, begin_prefix(), start),
    ensures
        start < at_marker(text, start).next <= text.len(),
{
    let rest = text.skip(start);
    let line = first_line(rest);
    let host = marked_host(line);
    reveal_strlit("# opsctl route begin ");
    assert("# opsctl route begin "@.len() == 21);
    assert(text.subrange(start, start + 21)[0] == '#');
    assert(rest[0] == '#');
    lemma_first_of(rest, '\n');
    lemma_route_bounds(rest, host);
}

/// A list with the value, if there is one.
pub open spec fn listed<A>(value: Option<A>) -> Seq<A> {
    match value {
        Some(v) => seq![v],
        None => Seq::empty(),
    }
}

/// The managed routes from a place in the text on, and what is wrong with others.
pub open spec fn routes_from(text: Seq<char>, from: int) -> (
    Seq<CaddyManagedRouteView>,
    Seq<Seq<char>>,
)
    decreases text.len() - from,
{
    if from < 0 || from > text.len() {
        (Seq::empty(), Seq::empty())
    } else {
        match place_from(text, begin_prefix(), from) {
            None => (Seq::empty(), Seq::empty()),
            Some(start) => {
                proof {
                    lemma_place_from(text, begin_prefix(), from);
                    lemma_at_marker(text, start);
                }
                let here = at_marker(text, start);
                let rest = routes_from(text, here.next);
                (listed(here.route) + rest.0, listed(here.finding) + rest.1)
            },
        }
    }
}

/// What stands at a marker.
fn read_marker(text: &Vec<char>, start: usize) -> (r: (
    Option<CaddyManagedRoute>,
    Option<String>,
    usize,
))
    requires
        stands_at(text@, begin_prefix(), start as int),
    ensures
        r.0.deep_view() == at_marker(text@, start as int).route,
        r.1.deep_view() == at_marker(text@, start as int).finding,
        r.2 == at_marker(text@, start as int).next,
        start < r.2 <= text@.len(),
{
    let size = text.len();
    let rest = text_between(text, start, size);
    proof {
        assert(rest@ =~= text@.skip(start as int));
        lemma_at_marker(text@, start as int);
    }
    let line = get_first_line(&rest);
    let width = chars_of(&line).len();
    let host = match strip_prefix(&trim(&line), "# opsctl route begin ") {
        Some(host) => host,
        None => String::new(),
    };
    proof {
        lemma_first_of(rest@, '\n');
        assert(width <= rest@.len());
    }
    if host.as_str().is_empty() {
        return (None, Some("managed route has empty host marker".to_string()), start + width);
    }
    let chars = chars_of(&rest);
    match managed_caddy_route_bounds(&chars, &host) {
        Ok(Some((_, end))) => {
            let block = text_between(&chars, 0, end);
            proof {
                assert(block@ =~= rest@.take(end as int));
            }
            let upstream = parse_caddy_reverse_proxy(&block);
            (Some(CaddyManagedRoute { host, upstream }), None, start + end)
        },
        Ok(None) => (
            None,
            Some(cat3("managed route for ", &host, " could not be bounded")),
            start + width,
        ),
        Err(error) => (None, Some(error), start + width),
    }
}

/// The managed routes, and what is wrong with others.
pub fn managed_routes_in(raw: &str) -> (r: (Vec<CaddyManagedRoute>, Vec<String>))
    ensures
        (r.0.deep_view(), r.1.deep_view()) == routes_from(raw@, 0),
{
    let text = chars_of(raw);
    let prefix = chars_of("# opsctl route begin ");
    let mut routes: Vec<CaddyManagedRoute> = Vec::new();
    let mut findings: Vec<String> = Vec::new();
    let mut from: usize = 0;
    let ghost all = routes_from(raw@, 0);
    proof {
        assert(routes.deep_view() + all.0 =~= all.0);
        assert(findings.deep_view() + all.1 =~= all.1);
    }
    let mut next = find_from(&text, &prefix, 0);
    while next.is_some()
        invariant
            text@ == raw@,
            prefix@ == begin_prefix(),
            from <= text@.len(),
            next is Some <==> place_from(text@, begin_prefix(), from as int) is Some,
            next matches Some(p) ==> place_from(text@, begin_prefix(), from as int) == Some(
                p as int,
            ),
            routes.deep_view() + routes_from(raw@, from as int).0 == all.0,
            findings.deep_view() + routes_from(raw@, from as int).1 == all.1,
        decreases text@.len() - from,
    {
        let start = match next {
            Some(p) => p,
            None => 0,
        };
        proof {
            lemma_place_from(text@, begin_prefix(), from as int);
        }
        let (route, finding, past) = read_marker(&text, start);
        let ghost here = at_marker(text@, start as int);
        let ghost rest = routes_from(raw@, past as int);
        let ghost old_routes = routes.deep_view();
        let ghost old_findings = findings.deep_view();
        if let Some(route) = route {
            routes.push(route);
        }
        if let Some(finding) = finding {
            findings.push(finding);
        }
        proof {
            assert(routes.deep_view() =~= old_routes + listed(here.route));
            assert(findings.deep_view() =~= old_findings + listed(here.finding));
            assert(routes.deep_view() + rest.0 =~= old_routes + (listed(here.route) + rest.0));
            assert(findings.deep_view() + rest.1 =~= old_findings + (listed(here.finding)
                + rest.1));
        }
        from = past;
        next = find_from(&text, &prefix, from);
    }
    proof {
        assert(routes.deep_view() + Seq::empty() =~= routes.deep_view());
        assert(findings.deep_view() + Seq::empty() =~= findings.deep_view());
    }
    (routes, findings)
}

// ---------------------------------------------------------------------------
// Other sites
// ---------------------------------------------------------------------------

/// The bounds of the routes.
pub open spec fn all_bounds(text: Seq<char>, routes: Seq<CaddyManagedRouteView>) -> Seq<(int, int)> {
    chosen(routes, |r: CaddyManagedRouteView| bounds_if_any(text, r.host))
}

/// Whether a byte offset lies within some bounds.
pub open spec fn covered(text: Seq<char>, bounds: Seq<(int, int)>, offset: int) -> bool {
    exists|i: int| 0 <= i < bounds.len() && covers(text, #[trigger] bounds[i], offset)
}

/// The site that a line opens, unless it lies within a managed route.
pub open spec fn opened_site(
    text: Seq<char>,
    bounds: Seq<(int, int)>,
    line: Seq<char>,
    offset: int,
) -> Option<Seq<char>> {
    let bare = trimmed(line);
    let host = trimmed(trim_back(bare, is_char('{')));
    if begins(bare, "#"@) || !finishes(bare, "{"@) || host.len() == 0 || host.contains(' ')
        || covered(text, bounds, offset) {
        None
    } else {
        Some(host)
    }
}

/// The sites that the first `k` lines open, each once.
pub open spec fn sites_in(text: Seq<char>, bounds: Seq<(int, int)>, k: int) -> Seq<Seq<char>>
    decreases k,
{
    if k <= 0 {
        Seq::empty()
    } else {
        let rest = sites_in(text, bounds, k - 1);
        match opened_site(text, bounds, lines(text)[k - 1], line_offset(lines(text), k - 1)) {
            Some(host) => if rest.contains(host) {
                rest
            } else {
                rest.push(host)
            },
            None => rest,
        }
    }
}

/// The sites that are not managed.
pub open spec fn unmanaged_sites(text: Seq<char>, routes: Seq<CaddyManagedRouteView>) -> Seq<
    Seq<char>,
> {
    sites_in(text, all_bounds(text, routes), lines(text).len() as int)
}

/// Whether bounds in bytes are those of bounds in a text.
spec fn in_bytes(found: Seq<ByteBounds>, text: Seq<char>, bounds: Seq<(int, int)>) -> bool {
    found.len() == bounds.len() && forall|i: int|
        0 <= i < found.len() ==> (#[trigger] found[i]).start == byte_len(text.take(bounds[i].0))
            && found[i].end == byte_len(text.take(bounds[i].1))
}

/// The bounds of the routes, in bytes.
fn list_bounds(text: &Vec<char>, routes: &Vec<CaddyManagedRoute>) -> (r: Vec<ByteBounds>)
    ensures
        in_bytes(r@, text@, all_bounds(text@, routes.deep_view())),
{
    let ghost all = routes.deep_view();
    let ghost f = |r: CaddyManagedRouteView| bounds_if_any(text@, r.host);
    let mut out: Vec<ByteBounds> = Vec::new();
    let mut i: usize = 0;
    proof {
        ends(all);
    }
    while i < routes.len()
        invariant
            i <= routes@.len(),
            all == routes.deep_view(),
            f == (|r: CaddyManagedRouteView| bounds_if_any(text@, r.host)),
            in_bytes(out@, text@, chosen(all.take(i as int), f)),
        decreases routes@.len() - i,
    {
        let route = &routes[i];
        proof {
            step(all, i as int);
            assert(all[i as int] == route.deep_view());
            lemma_route_bounds(text@, route.host@);
        }
        if let Ok(Some(b)) = managed_caddy_route_bounds(text, &route.host) {
            out.push(byte_bounds(text, b));
        }
        i = i + 1;
    }
    proof {
        ends(all);
    }
    out
}

/// Whether a byte offset lies within some bounds.
fn in_any_bounds(offset: u128, bounds: &Vec<ByteBounds>) -> (r: bool)
    ensures
        r == exists|i: int|
            0 <= i < bounds@.len() && (#[trigger] bounds@[i]).start <= offset < bounds@[i].end,
{
    let mut i: usize = 0;
    while i < bounds.len()
        invariant
            i <= bounds@.len(),
            forall|j: int|
                0 <= j < i ==> !((#[trigger] bounds@[j]).start <= offset < bounds@[j].end),
        decreases bounds@.len() - i,
    {
        if offset_in_bounds(offset, &bounds[i]) {
            return true;
        }
        i = i + 1;
    }
    false
}

proof fn lemma_covered(
    found: Seq<ByteBounds>,
    text: Seq<char>,
    bounds: Seq<(int, int)>,
    offset: int,
)
    requires
        in_bytes(found, text, bounds),
    ensures
        covered(text, bounds, offset) == exists|i: int|
            0 <= i < found.len() && (#[trigger] found[i]).start <= offset < found[i].end,
{
    if covered(text, bounds, offset) {
        let i = choose|i: int| 0 <= i < bounds.len() && covers(text, #[trigger] bounds[i], offset);
        assert(found[i].start <= offset < found[i].end);
    }
    if exists|i: int| 0 <= i < found.len() && (#[trigger] found[i]).start <= offset < found[i].end {
        let i = choose|i: int|
            0 <= i < found.len() && (#[trigger] found[i]).start <= offset < found[i].end;
        assert(covers(text, bounds[i], offset));
    }
}

/// The sites that are not managed.
pub fn unmanaged_caddy_hosts(raw: &str, routes: &Vec<CaddyManagedRoute>) -> (r: Vec<String>)
    ensures
        r.deep_view() == unmanaged_sites(raw@, routes.deep_view()),
{
    let text = chars_of(raw);
    let found = list_bounds(&text, routes);
    let ghost bounds = all_bounds(raw@, routes.deep_view());
    let all = split_lines(raw);
    let ghost ls = lines(raw@);
    let mut hosts: Vec<String> = Vec::new();
    let mut offset: u128 = 0;
    let mut k: usize = 0;
    proof {
        assert(hosts.deep_view() =~= Seq::<Seq<char>>::empty());
    }
    while k < all.len()
        invariant
            k <= all@.len(),
            all.deep_view() == ls,
            ls == lines(raw@),
            in_bytes(found@, raw@, bounds),
            offset == line_offset(ls, k as int),
            offset <= k * 0x1_0000_0000_0000_0000,
            hosts.deep_view() == sites_in(raw@, bounds, k as int),
        decreases all@.len() - k,
    {
        let line = &all[k];
        proof {
            assert(ls[k as int] == line@);
            lemma_covered(found@, raw@, bounds, offset as int);
        }
        let bare = trim(line);
        let host = trim(&trim_end_char(&bare, '{'));
        if !starts_with(&bare, "#") && ends_with(&bare, "{") && !host.as_str().is_empty()
            && !contains_char(&host, ' ') && !in_any_bounds(offset, &found) {
            if !includes(&hosts, &host) {
                put(&mut hosts, &host);
            }
        }
        offset = next_offset(offset, line, k);
        k = k + 1;
    }
    proof {
        assert(all.deep_view().len() == all@.len());
    }
    hosts
}

// ---------------------------------------------------------------------------
// Imports
// ---------------------------------------------------------------------------

/// A word without quotes around it.
pub open spec fn bare_token(raw: Seq<char>) -> Seq<char> {
    trimmed_by(trimmed_by(raw, is_char('"')), is_char('\''))
}

/// A word without quotes around it.
pub fn unquote_caddy_token(raw: &str) -> (r: String)
    ensures
        r@ == bare_token(raw@),
{
    trim_char(&trim_char(raw, '"'), '\'')
}

/// What an import names.
pub open spec fn import_kind(target: Seq<char>) -> Seq<char> {
    if begins(target, "("@) && finishes(target, ")"@) {
        "snippet"@
    } else if target.contains('*') || target.contains('{') || target.contains('}') {
        "dynamic_or_glob"@
    } else {
        "exact"@
    }
}

/// What an import names.
pub fn caddy_import_kind(target: &str) -> (r: &'static str)
    ensures
        r@ == import_kind(target@),
{
    if starts_with(target, "(") && ends_with(target, ")") {
        "snippet"
    } else if contains_char(target, '*') || contains_char(target, '{') || contains_char(
        target,
        '}',
    ) {
        "dynamic_or_glob"
    } else {
        "exact"
    }
}

/// What a line imports.
pub open spec fn import_target(line: Seq<char>) -> Option<Seq<char>> {
    let bare = trimmed(line);
    if bare.len() == 0 || begins(bare, "#"@) {
        None
    } else {
        match after_prefix(bare, "import "@) {
            Some(rest) => {
                let parts = words(trimmed(rest));
                if parts.len() > 0 && bare_token(parts[0]).len() > 0 {
                    Some(bare_token(parts[0]))
                } else {
                    None
                }
            },
            None => None,
        }
    }
}

/// What a line imports.
pub fn parse_import_line(line: &str) -> (r: Option<String>)
    ensures
        r.deep_view() == import_target(line@),
{
    let bare = trim(line);
    if bare.as_str().is_empty() || starts_with(&bare, "#") {
        return None;
    }
    match strip_prefix(&bare, "import ") {
        Some(rest) => {
            let parts = split_words(&trim(&rest));
            proof {
                assert(parts.deep_view().len() == parts@.len());
            }
            if parts.len() == 0 {
                return None;
            }
            let target = unquote_caddy_token(&parts[0]);
            if target.as_str().is_empty() {
                None
            } else {
                Some(target)
            }
        },
        None => None,
    }
}

/// The directory that imports of a file are relative to.
pub open spec fn import_base(path: Seq<char>) -> Seq<char> {
    text_or(parent_spec(path), "."@)
}

/// An import. Only one that names a file exactly is resolved, and is looked up among
/// the files that are there.
pub open spec fn import_reference(
    path: Seq<char>,
    line: nat,
    target: Seq<char>,
    present: Seq<Seq<char>>,
) -> CaddyImportReferenceView {
    let exact = import_kind(target) == "exact"@;
    let resolved = path_joined(import_base(path), target);
    CaddyImportReferenceView {
        from: path,
        line,
        target,
        kind: import_kind(target),
        resolved_path: if exact {
            Some(resolved)
        } else {
            None
        },
        exists: if exact {
            Some(present.contains(resolved))
        } else {
            None
        },
    }
}

/// The imports in the first `k` lines.
pub open spec fn imports_in(
    path: Seq<char>,
    all: Seq<Seq<char>>,
    present: Seq<Seq<char>>,
    k: int,
) -> Seq<CaddyImportReferenceView>
    decreases k,
{
    if k <= 0 {
        Seq::empty()
    } else {
        imports_in(path, all, present, k - 1) + (match import_target(all[k - 1]) {
            Some(target) => seq![import_reference(path, k as nat, target, present)],
            None => Seq::empty(),
        })
    }
}

/// The imports of a file; `present` lists the imported files that are there.
pub fn parse_caddy_imports(path: &str, raw: &str, present: &Vec<String>) -> (r: Vec<
    CaddyImportReference,
>)
    ensures
        r.deep_view() == imports_in(
            path@,
            lines(raw@),
            present.deep_view(),
            lines(raw@).len() as int,
        ),
{
    let parent_dir = parent(path);
    let base = or_text(as_text(&parent_dir), ".");
    let all = split_lines(raw);
    let ghost ls = lines(raw@);
    let mut out: Vec<CaddyImportReference> = Vec::new();
    let mut k: usize = 0;
    proof {
        assert(out.deep_view() =~= Seq::<CaddyImportReferenceView>::empty());
    }
    while k < all.len()
        invariant
            k <= all@.len(),
            all.deep_view() == ls,
            base@ == import_base(path@),
            out.deep_view() == imports_in(path@, ls, present.deep_view(), k as int),
        decreases all@.len() - k,
    {
        proof {
            assert(ls[k as int] == all@[k as int]@);
        }
        let ghost before = out.deep_view();
        if let Some(target) = parse_import_line(&all[k]) {
            let kind = caddy_import_kind(&target);
            let (resolved_path, exists) = if same(kind, "exact") {
                let resolved = path_join(base, &target);
                let there = includes(present, &resolved);
                (Some(resolved), Some(there))
            } else {
                (None, None)
            };
            let ghost t = target@;
            let reference = CaddyImportReference {
                from: path.to_string(),
                line: k + 1,
                target,
                kind: kind.to_string(),
                resolved_path,
                exists,
            };
            proof {
                assert(reference.deep_view() == import_reference(
                    path@,
                    (k + 1) as nat,
                    t,
                    present.deep_view(),
                ));
            }
            out.push(reference);
            proof {
                assert(out.deep_view() =~= before + seq![reference.deep_view()]);
            }
        } else {
            proof {
                assert(before + Seq::empty() =~= before);
            }
        }
        k = k + 1;
    }
    proof {
        assert(all.deep_view().len() == all@.len());
    }
    out
}

// ---------------------------------------------------------------------------
// The report
// ---------------------------------------------------------------------------

/// What to do where there is no configuration file.
pub open spec fn first_actions() -> Seq<Seq<char>> {
    seq![
        "create or import a Caddyfile before planning managed route updates"@,
    ]
}

/// What to do where there is no configuration file.
pub fn list_first_actions() -> (r: Vec<String>)
    ensures
        r.deep_view() == first_actions(),
{
    let list: Vec<String> = vec![
        "create or import a Caddyfile before planning managed route updates".to_string(),
    ];
    proof {
        assert(list.deep_view() =~= first_actions());
    }
    list
}

/// How far a configuration that is not there can be managed.
pub open spec fn no_management() -> CaddyManagementReportView {
    CaddyManagementReportView {
        read_only: true,
        status: "missing_caddyfile"@,
        managed_route_count: 0,
        unmanaged_host_count: 0,
        import_count: 0,
        normalized_conflict_count: 0,
        admin_api_write_supported: false,
        typed_snippet_supported: true,
        recommended_next_actions: first_actions(),
    }
}

/// How far a configuration that is not there can be managed.
pub fn empty_caddy_management_report() -> (r: CaddyManagementReport)
    ensures
        r.deep_view() == no_management(),
{
    CaddyManagementReport {
        read_only: true,
        status: "missing_caddyfile".to_string(),
        managed_route_count: 0,
        unmanaged_host_count: 0,
        import_count: 0,
        normalized_conflict_count: 0,
        admin_api_write_supported: false,
        typed_snippet_supported: true,
        recommended_next_actions: list_first_actions(),
    }
}

/// What is in a configuration file.
pub open spec fn routes_report(path: Seq<char>, raw: Seq<char>, present: Seq<Seq<char>>) ->
    CaddyRoutesReportView {
    let found = routes_from(raw, 0);
    CaddyRoutesReportView {
        read_only: true,
        caddyfile: path,
        exists: true,
        managed_routes: found.0,
        unmanaged_hosts: unmanaged_sites(raw, found.0),
        imports: imports_in(path, lines(raw), present, lines(raw).len() as int),
        findings: found.1,
        adapt: None,
        admin: None,
        management: no_management(),
    }
}

/// What is in a configuration file; `present` lists the imported files that are
/// there.
pub fn parse_caddy_routes(path: &str, raw: &str, present: &Vec<String>) -> (r: CaddyRoutesReport)
    ensures
        r.deep_view() == routes_report(path@, raw@, present.deep_view()),
{
    let (managed_routes, findings) = managed_routes_in(raw);
    let unmanaged_hosts = unmanaged_caddy_hosts(raw, &managed_routes);
    CaddyRoutesReport {
        read_only: true,
        caddyfile: path.to_string(),
        exists: true,
        managed_routes,
        unmanaged_hosts,
        imports: parse_caddy_imports(path, raw, present),
        findings,
        adapt: None,
        admin: None,
        management: empty_caddy_management_report(),
    }
}

/// How many conflicts the adapted configuration has.
pub open spec fn conflict_count(adapt: Option<CaddyAdaptReportView>) -> nat {
    match adapt {
        Some(report) => report.conflicts.len(),
        None => 0,
    }
}

/// Whether some import does not name a file exactly.
pub open spec fn has_open_import(imports: Seq<CaddyImportReferenceView>) -> bool {
    any(imports, |i: CaddyImportReferenceView| i.kind != "exact"@)
}

/// What to do about a configuration.
pub open spec fn management_actions(
    unmanaged: bool,
    conflicts: bool,
    open_imports: bool,
    managed: bool,
) -> Seq<Seq<char>> {
    noted(
        unmanaged,
        "review unmanaged hosts before writing any opsctl-managed route for the same domain"@,
    ) + noted(
        conflicts,
        "resolve caddy adapt normalized route conflicts before reload"@,
    ) + noted(
        open_imports,
        "review dynamic/glob/snippet imports manually; opsctl does not expand them"@,
    ) + noted(
        !managed,
        "prefer typed caddy_route_snippet writes for new AI-managed routes"@,
    ) + noted(
        managed,
        "reuse existing opsctl managed route markers for route updates"@,
    ) + noted(true, "keep Caddy Admin API usage read-only; do not grant AI write access"@)
}

/// How far a configuration can be managed.
pub open spec fn management_of(report: CaddyRoutesReportView) -> CaddyManagementReportView {
    let conflicts = conflict_count(report.adapt);
    let unmanaged = report.unmanaged_hosts.len() > 0;
    let open_imports = has_open_import(report.imports);
    CaddyManagementReportView {
        read_only: true,
        status: if conflicts > 0 {
            "conflict_review_required"@
        } else if unmanaged || open_imports {
            "manual_review_required"@
        } else {
            "manageable_with_markers"@
        },
        managed_route_count: report.managed_routes.len(),
        unmanaged_host_count: report.unmanaged_hosts.len(),
        import_count: report.imports.len(),
        normalized_conflict_count: conflicts,
        admin_api_write_supported: false,
        typed_snippet_supported: true,
        recommended_next_actions: management_actions(
            unmanaged,
            conflicts > 0,
            open_imports,
            report.managed_routes.len() > 0,
        ),
    }
}

/// How far a configuration can be managed.
pub fn caddy_management_report(report: &CaddyRoutesReport) -> (r: CaddyManagementReport)
    ensures
        r.deep_view() == management_of(report.deep_view()),
{
    let conflicts = match &report.adapt {
        Some(adapt) => adapt.conflicts.len(),
        None => 0,
    };
    proof {
        if let Some(adapt) = &report.adapt {
            assert(adapt.conflicts.deep_view().len() == adapt.conflicts@.len());
        }
        assert(report.unmanaged_hosts.deep_view().len() == report.unmanaged_hosts@.len());
        assert(report.managed_routes.deep_view().len() == report.managed_routes@.len());
        assert(report.imports.deep_view().len() == report.imports@.len());
    }
    let open_imports = any_where(
        &report.imports,
        |i: &CaddyImportReference| -> (b: bool)
            ensures
                b == (i.deep_view().kind != "exact"@)
            { !same(&i.kind, "exact") },
        Ghost(|i: CaddyImportReferenceView| i.kind != "exact"@),
    );
    let unmanaged = report.unmanaged_hosts.len() > 0;
    let managed = report.managed_routes.len() > 0;
    let mut actions: Vec<String> = Vec::new();
    note(
        &mut actions,
        unmanaged,
        "review unmanaged hosts before writing any opsctl-managed route for the same domain",
    );
    note(
        &mut actions,
        conflicts > 0,
        "resolve caddy adapt normalized route conflicts before reload",
    );
    note(
        &mut actions,
        open_imports,
        "review dynamic/glob/snippet imports manually; opsctl does not expand them",
    );
    note(
        &mut actions,
        !managed,
        "prefer typed caddy_route_snippet writes for new AI-managed routes",
    );
    note(
        &mut actions,
        managed,
        "reuse existing opsctl managed route markers for route updates",
    );
    note(
        &mut actions,
        true,
        "keep Caddy Admin API usage read-only; do not grant AI write access",
    );
    proof {
        assert(actions.deep_view() =~= management_actions(
            unmanaged,
            conflicts > 0,
            open_imports,
            managed,
        ));
    }
    let status = if conflicts > 0 {
        "conflict_review_required"
    } else if unmanaged || open_imports {
        "manual_review_required"
    } else {
        "manageable_with_markers"
    };
    CaddyManagementReport {
        read_only: true,
        status: status.to_string(),
        managed_route_count: report.managed_routes.len(),
        unmanaged_host_count: report.unmanaged_hosts.len(),
        import_count: report.imports.len(),
        normalized_conflict_count: conflicts,
        admin_api_write_supported: false,
        typed_snippet_supported: true,
        recommended_next_actions: actions,
    }
}

/// What to add to the findings from the adapted configuration and from the admin
/// endpoint.
pub open spec fn further_findings(
    adapt: Option<CaddyAdaptReportView>,
    admin: Option<CaddyAdminReportView>,
) -> Seq<Seq<char>> {
    noted(
        conflict_count(adapt) > 0,
        "caddy adapt reported "@ + decimal(conflict_count(adapt))
            + " normalized route conflict(s)"@,
    ) + (match admin {
        Some(report) => noted(
            !report.ok,
            "caddy admin read-only check failed: "@ + text_or(
                report.error,
                "unknown admin API error"@,
            ),
        ),
        None => Seq::empty(),
    })
}

/// Why a configuration file cannot be inspected.
pub fn refuse_caddyfile(entry: EntryKind, path: &str) -> (r: Option<String>)
    ensures
        r.deep_view() == refused(
            Some(entry),
            EntryKind::File,
            "refusing to inspect Caddyfile symlink: "@ + path@,
            "Caddyfile is not a regular file: "@ + path@,
        ),
{
    refuse(
        Some(entry),
        EntryKind::File,
        cat2("refusing to inspect Caddyfile symlink: ", path),
        cat2("Caddyfile is not a regular file: ", path),
    )
}

/// The report on a configuration file, with what else was found out.
pub open spec fn full_report(
    path: Seq<char>,
    raw: Option<Seq<char>>,
    present: Seq<Seq<char>>,
    adapt: Option<CaddyAdaptReportView>,
    admin: Option<CaddyAdminReportView>,
) -> CaddyRoutesReportView {
    match raw {
        None => CaddyRoutesReportView {
            read_only: true,
            caddyfile: path,
            exists: false,
            managed_routes: Seq::empty(),
            unmanaged_hosts: Seq::empty(),
            imports: Seq::empty(),
            findings: Seq::empty(),
            adapt,
            admin,
            management: no_management(),
        },
        Some(text) => {
            let found = routes_report(path, text, present);
            let report = CaddyRoutesReportView {
                findings: found.findings + further_findings(adapt, admin),
                adapt,
                admin,
                ..found
            };
            CaddyRoutesReportView { management: management_of(report), ..report }
        },
    }
}

/// The report on a configuration file. Where there is none, `raw` is nothing;
/// `present` lists the imported files that are there; what `caddy adapt` and the
/// admin endpoint say is given where they were asked.
pub fn inspect_caddy_routes(
    path: &str,
    raw: Option<&str>,
    present: &Vec<String>,
    adapt: Option<CaddyAdaptReport>,
    admin: Option<CaddyAdminReport>,
) -> (r: CaddyRoutesReport)
    ensures
        r.deep_view() == full_report(
            path@,
            raw.deep_view(),
            present.deep_view(),
            adapt.deep_view(),
            admin.deep_view(),
        ),
{
    let text = match raw {
        Some(text) => text,
        None => {
            let report = CaddyRoutesReport {
                read_only: true,
                caddyfile: path.to_string(),
                exists: false,
                managed_routes: Vec::new(),
                unmanaged_hosts: Vec::new(),
                imports: Vec::new(),
                findings: Vec::new(),
                adapt,
                admin,
                management: empty_caddy_management_report(),
            };
            proof {
                assert(report.managed_routes.deep_view()
                    =~= Seq::<CaddyManagedRouteView>::empty());
                assert(report.unmanaged_hosts.deep_view() =~= Seq::<Seq<char>>::empty());
                assert(report.imports.deep_view() =~= Seq::<CaddyImportReferenceView>::empty());
                assert(report.findings.deep_view() =~= Seq::<Seq<char>>::empty());
            }
            return report;
        },
    };
    let mut report = parse_caddy_routes(path, text, present);
    let ghost found = report.deep_view();
    let conflicts = match &adapt {
        Some(a) => a.conflicts.len(),
        None => 0,
    };
    proof {
        if let Some(a) = &adapt {
            assert(a.conflicts.deep_view().len() == a.conflicts@.len());
        }
    }
    note(
        &mut report.findings,
        conflicts > 0,
        &cat3("caddy adapt reported ", &count_text(conflicts), " normalized route conflict(s)"),
    );
    if let Some(a) = &admin {
        note(
            &mut report.findings,
            !a.ok,
            &cat2(
                "caddy admin read-only check failed: ",
                or_text(as_text(&a.error), "unknown admin API error"),
            ),
        );
    }
    proof {
        assert(report.findings.deep_view() =~= found.findings + further_findings(
            adapt.deep_view(),
            admin.deep_view(),
        ));
    }
    report.adapt = adapt;
    report.admin = admin;
    report.management = caddy_management_report(&report);
    report
}

// ---------------------------------------------------------------------------
// Laws
// ---------------------------------------------------------------------------

/// No site is listed twice as not managed.
pub proof fn law_unmanaged_sites_are_listed_once(text: Seq<char>, bounds: Seq<(int, int)>, k: int)
    ensures
        sites_in(text, bounds, k).no_duplicates(),
    decreases k,
{
    if k > 0 {
        law_unmanaged_sites_are_listed_once(text, bounds, k - 1);
    }
}

/// The admin endpoint is never written to, and a configuration with conflicts is
/// never called manageable.
pub proof fn law_conflicts_need_review(report: CaddyRoutesReportView)
    ensures
        !management_of(report).admin_api_write_supported,
        management_of(report).status == "manageable_with_markers"@ ==> conflict_count(
            report.adapt,
        ) == 0 && report.unmanaged_hosts.len() == 0,
{
    reveal_strlit("manageable_with_markers");
    reveal_strlit("conflict_review_required");
    reveal_strlit("manual_review_required");
    assert("manageable_with_markers"@.len() == 23);
    assert("conflict_review_required"@.len() == 24);
    assert("manual_review_required"@.len() == 22);
}

/// A line that proxies says where to: what it names is read back.
pub proof fn law_upstreams_are_read(upstream: Seq<char>)
    requires
        upstream.len() > 0,
        trimmed(upstream) == upstream,
    ensures
        proxied_to("reverse_proxy "@ + upstream) == Some(upstream),
{
    let word = "reverse_proxy "@;
    let s = word + upstream;
    assert(s[0] == 'r') by {
        reveal_strlit("reverse_proxy ");
    }
    law_trimmed_texts_are_bare(upstream);
    assert(s.last() == upstream.last());
    assert(!is_white('r'));
    law_bare_texts_stay(s);
    law_parts_are_found(Seq::empty(), word, upstream);
}

/// A line proxies where it begins with the word for it and something follows that is
/// not blank; that is where it proxies to.
pub proof fn law_which_lines_proxy(line: Seq<char>)
    ensures
        proxied_to(line) is Some ==> exists|rest: Seq<char>|
            trimmed(line) == #[trigger] ("reverse_proxy "@ + rest) && proxied_to(line) == Some(
                trimmed(rest),
            ) && trimmed(rest).len() > 0,
        proxied_to(line) is None ==> forall|rest: Seq<char>|
            trimmed(line) == #[trigger] ("reverse_proxy "@ + rest) ==> trimmed(rest).len() == 0,
{
    let word = "reverse_proxy "@;
    law_found_parts_are_there(trimmed(line), word);
    if proxied_to(line) is Some {
        let rest = after_prefix(trimmed(line), word)->0;
        assert(trimmed(line) == word + rest);
    } else {
        assert forall|rest: Seq<char>| trimmed(line) == #[trigger] (word + rest) implies trimmed(
            rest,
        ).len() == 0 by {
            law_parts_are_found(Seq::empty(), word, rest);
        }
    }
}

/// An import is a snippet where it stands in round brackets, is open where it has a star
/// or a brace in it, and is exact otherwise. Only an exact one is looked for, next to the
/// file that imports it.
pub proof fn law_imports(
    path: Seq<char>,
    line: nat,
    target: Seq<char>,
    present: Seq<Seq<char>>,
)
    ensures
        import_kind(target) == "snippet"@ <==> begins(target, "("@) && finishes(target, ")"@),
        import_kind(target) == "exact"@ <==> !(begins(target, "("@) && finishes(target, ")"@))
            && !target.contains('*') && !target.contains('{') && !target.contains('}'),
        import_reference(path, line, target, present).exists is Some <==> import_kind(target)
            == "exact"@,
        import_reference(path, line, target, present).exists == Some(true) <==> import_kind(target)
            == "exact"@ && present.contains(
            path_joined(text_or(parent_spec(path), "."@), target),
        ),
        import_reference(path, line, target, present).resolved_path is Some ==> import_reference(
            path,
            line,
            target,
            present,
        ).resolved_path->0 == path_joined(text_or(parent_spec(path), "."@), target),
        import_reference(path, line, target, present).from == path,
        import_reference(path, line, target, present).line == line,
        import_reference(path, line, target, present).target == target,
{
    reveal_strlit("snippet");
    reveal_strlit("dynamic_or_glob");
    reveal_strlit("exact");
    assert("snippet"@.len() == 7 && "dynamic_or_glob"@.len() == 15 && "exact"@.len() == 5);
}

/// Every line that imports something is listed with its number, and no other line is.
pub proof fn law_imports_are_listed(
    path: Seq<char>,
    all: Seq<Seq<char>>,
    present: Seq<Seq<char>>,
    k: int,
    x: CaddyImportReferenceView,
)
    requires
        0 <= k <= all.len(),
    ensures
        imports_in(path, all, present, k).contains(x) <==> exists|i: int|
            0 <= i < k && import_target(#[trigger] all[i]) is Some && x == import_reference(
                path,
                (i + 1) as nat,
                import_target(all[i])->0,
                present,
            ),
    decreases k,
{
    if k > 0 {
        law_imports_are_listed(path, all, present, k - 1, x);
        let before = imports_in(path, all, present, k - 1);
        let here = match import_target(all[k - 1]) {
            Some(target) => seq![import_reference(path, k as nat, target, present)],
            None => Seq::empty(),
        };
        law_either_list(before, here, x);
        if import_target(all[k - 1]) is Some {
            assert(here[0] == import_reference(
                path,
                k as nat,
                import_target(all[k - 1])->0,
                present,
            ));
        }
        if exists|i: int|
            0 <= i < k && import_target(#[trigger] all[i]) is Some && x == import_reference(
                path,
                (i + 1) as nat,
                import_target(all[i])->0,
                present,
            ) {
            let i = choose|i: int|
                0 <= i < k && import_target(#[trigger] all[i]) is Some && x == import_reference(
                    path,
                    (i + 1) as nat,
                    import_target(all[i])->0,
                    present,
                );
            if i == k - 1 {
                assert(here.contains(x));
            }
        }
    }
}

/// A site that no managed route covers is listed, and no other one is.
pub proof fn law_which_sites_are_listed(
    text: Seq<char>,
    bounds: Seq<(int, int)>,
    k: int,
    host: Seq<char>,
)
    requires
        0 <= k <= lines(text).len(),
    ensures
        sites_in(text, bounds, k).contains(host) <==> exists|i: int|
            0 <= i < k && opened_site(
                text,
                bounds,
                #[trigger] lines(text)[i],
                line_offset(lines(text), i),
            ) == Some(host),
    decreases k,
{
    if k > 0 {
        law_which_sites_are_listed(text, bounds, k - 1, host);
        let before = sites_in(text, bounds, k - 1);
        let here = opened_site(text, bounds, lines(text)[k - 1], line_offset(lines(text), k - 1));
        if here is Some {
            law_one_more(before, here->0, host);
        }
    }
}

/// A line opens a site where it is no comment, ends in a brace, and has one word before
/// it; it counts where no managed route covers it.
pub proof fn law_what_opens_a_site(
    text: Seq<char>,
    bounds: Seq<(int, int)>,
    line: Seq<char>,
    offset: int,
    host: Seq<char>,
)
    ensures
        opened_site(text, bounds, line, offset) == Some(host) <==> {
            &&& !begins(trimmed(line), "#"@)
            &&& finishes(trimmed(line), "{"@)
            &&& host == trimmed(trim_back(trimmed(line), is_char('{')))
            &&& host.len() > 0
            &&& !host.contains(' ')
            &&& !exists|i: int|
                0 <= i < bounds.len() && covers(text, #[trigger] bounds[i], offset)
        },
{
}

/// A report says that conflicts have to be looked at where there are any, that a person
/// has to look where a site is not managed or an import is not exact, and that routes
/// can be managed otherwise. It counts what was found.
pub proof fn law_what_is_to_be_done(report: CaddyRoutesReportView)
    ensures
        ({
            let m = management_of(report);
            let conflicts: nat = if report.adapt is Some {
                report.adapt->0.conflicts.len()
            } else {
                0
            };
            let open = exists|i: int|
                0 <= i < report.imports.len() && (#[trigger] report.imports[i]).kind != "exact"@;
            &&& m.status == "conflict_review_required"@ <==> conflicts > 0
            &&& m.status == "manual_review_required"@ <==> conflicts == 0 && (
            report.unmanaged_hosts.len() > 0 || open)
            &&& m.status == "manageable_with_markers"@ <==> conflicts == 0
                && report.unmanaged_hosts.len() == 0 && !open
            &&& m.read_only
            &&& !m.admin_api_write_supported
            &&& m.managed_route_count == report.managed_routes.len()
            &&& m.unmanaged_host_count == report.unmanaged_hosts.len()
            &&& m.import_count == report.imports.len()
            &&& m.normalized_conflict_count == conflicts
        }),
{
    reveal_strlit("conflict_review_required");
    reveal_strlit("manual_review_required");
    reveal_strlit("manageable_with_markers");
    assert("conflict_review_required"@.len() == 24);
    assert("manual_review_required"@.len() == 22);
    assert("manageable_with_markers"@.len() == 23);
    let p = |i: CaddyImportReferenceView| i.kind != "exact"@;
    lemma_any(report.imports, p);
    if exists|i: int| 0 <= i < report.imports.len() && (#[trigger] report.imports[i]).kind
        != "exact"@ {
        let i = choose|i: int|
            0 <= i < report.imports.len() && (#[trigger] report.imports[i]).kind != "exact"@;
        assert(p(report.imports[i]));
    }
}

/// A marker without a host or without an end is a finding, and one with both is a route
/// of its host, with the upstream of its block; reading goes on behind it.
pub proof fn law_markers(text: Seq<char>, start: int)
    ensures
        ({
            let rest = text.skip(start);
            let host = marked_host(first_line(rest));
            let here = at_marker(text, start);
            &&& here.route is Some <==> host.len() > 0 && bounds_if_any(rest, host) is Some
            &&& here.route is Some <==> here.finding is None
            &&& here.route is Some ==> here.route->0.host == host && match bounds_if_any(
                rest,
                host,
            ) {
                Some(b) => here.route->0.upstream == upstream_in(rest.take(b.1)) && here.next
                    == start + b.1,
                None => false,
            }
            &&& here.route is None ==> here.next == start + first_line(rest).len()
        }),
{
}

/// The managed routes of a text are those of its markers: where there is none, there are no
/// routes; the first marker's route is found, and every route that is found has a marker.
pub proof fn law_managed_routes(text: Seq<char>, from: int, x: CaddyManagedRouteView)
    requires
        0 <= from <= text.len(),
    ensures
        place_from(text, begin_prefix(), from) is None ==> routes_from(text, from).0.len() == 0
            && routes_from(text, from).1.len() == 0,
        place_from(text, begin_prefix(), from) matches Some(p) ==> (at_marker(text, p).route == Some(
            x,
        ) ==> routes_from(text, from).0.contains(x)) && (at_marker(text, p).finding is Some
            ==> routes_from(text, from).1.contains(at_marker(text, p).finding->0)),
        routes_from(text, from).0.contains(x) ==> exists|p: int|
            from <= p && stands_at(text, begin_prefix(), p) && (#[trigger] at_marker(
                text,
                p,
            )).route == Some(x),
    decreases text.len() - from,
{
    lemma_place_from(text, begin_prefix(), from);
    match place_from(text, begin_prefix(), from) {
        None => {},
        Some(start) => {
            lemma_at_marker(text, start);
            let here = at_marker(text, start);
            law_managed_routes(text, here.next, x);
            let rest = routes_from(text, here.next);
            law_either_list(listed(here.route), rest.0, x);
            if here.route is Some {
                assert(listed(here.route)[0] == here.route->0);
            }
            if here.finding is Some {
                law_either_list(listed(here.finding), rest.1, here.finding->0);
                assert(listed(here.finding)[0] == here.finding->0);
            }
            if routes_from(text, from).0.contains(x) {
                if listed(here.route).contains(x) {
                    assert(here.route == Some(x));
                    assert(at_marker(text, start).route == Some(x));
                } else {
                    let p = choose|p: int|
                        here.next <= p && stands_at(text, begin_prefix(), p) && (
                        #[trigger] at_marker(text, p)).route == Some(x);
                    assert(from <= p);
                }
            }
        },
    }
}

/// A report on routes: of a file that is missing it tells that; else it tells the routes
/// and sites that were found, of conflicts, and of an interface that did not answer.
pub proof fn law_reports_on_routes(
    path: Seq<char>,
    raw: Option<Seq<char>>,
    present: Seq<Seq<char>>,
    adapt: Option<CaddyAdaptReportView>,
    admin: Option<CaddyAdminReportView>,
)
    ensures
        ({
            let r = full_report(path, raw, present, adapt, admin);
            &&& r.exists <==> raw is Some
            &&& r.caddyfile == path && r.adapt == adapt && r.admin == admin && r.read_only
            &&& raw is None ==> r.managed_routes.len() == 0 && r.unmanaged_hosts.len() == 0
                && r.imports.len() == 0 && r.findings.len() == 0 && r.management.status
                == "missing_caddyfile"@ && r.management.recommended_next_actions.len() == 1
                && !r.management.admin_api_write_supported
            &&& raw is Some ==> {
                let found = routes_from(raw->0, 0);
                &&& r.managed_routes == found.0
                &&& r.management.managed_route_count == found.0.len()
                &&& r.management.unmanaged_host_count == r.unmanaged_hosts.len()
                &&& r.findings.len() == found.1.len() + (if adapt is Some
                    && adapt->0.conflicts.len() > 0 {
                    1int
                } else {
                    0
                }) + (if admin is Some && !admin->0.ok {
                    1int
                } else {
                    0
                })
                &&& forall|i: int|
                    0 <= i < found.1.len() ==> #[trigger] r.findings[i] == found.1[i]
            }
        }),
{
}

} // verus!
