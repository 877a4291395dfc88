//! Managed routes in the Caddy configuration file. A managed route stands between
//! two marker lines.

use vstd::prelude::*;
use crate::deploy::files::{
    file_mode, has_char_of, operation_param_path, parse_file_mode, path_param, share_char,
};
use crate::deploy::run::{bare_result, success_result, unsupported_result};
use crate::deploy::types::{DeployOperation, DeployOperationResult};
use crate::entries::{EntryKind, refuse, refused};
use crate::pairs::{get_value, value_at};
use crate::paths::{climbs, extension, extension_spec, is_absolute_spec, parent, parent_spec};
use crate::text::{
    as_text, begins, byte_len, byte_size, cat2, cat3, cat4, cat5, chars_of, contains, finishes,
    holds, is_text, is_white, law_parts_are_found, law_trimmed, lines, same, split_lines,
    stands_at, text_between, trim, trimmed, white_space,
};
use crate::words::{find_from, lemma_first_place, lemma_place_from, lemma_this_place, place_from};

verus! {

broadcast use {vstd::seq::group_seq_axioms, vstd::string::group_string_axioms};

// ---------------------------------------------------------------------------
// Writing routes
// ---------------------------------------------------------------------------

/// Whether a text can be the host or the upstream of a route.
pub open spec fn route_value_is_valid(value: Seq<char>) -> bool {
    trimmed(value).len() > 0 && !share_char(value, "\n\r{};"@)
}

/// Refuses a text that cannot be the host or the upstream of a route.
pub fn validate_caddy_route_value(value: &str, label: &str) -> (r: Result<(), String>)
    ensures
        r is Ok <==> route_value_is_valid(value@),
        r is Err ==> r->Err_0@ == "invalid caddy route "@ + label@,
{
    if trim(value).as_str().is_empty() || has_char_of(value, "\n\r{};") {
        return Err(cat2("invalid caddy route ", label));
    }
    Ok(())
}

/// The start of the line before a managed route.
pub open spec fn begin_prefix() -> Seq<char> {
    "# opsctl route begin "@
}

/// The line before a managed route.
pub open spec fn begin_marker(host: Seq<char>) -> Seq<char> {
    begin_prefix() + host
}

/// The line after a managed route.
pub open spec fn end_marker(host: Seq<char>) -> Seq<char> {
    "# opsctl route end "@ + host
}

/// The lines of a route between its markers.
pub open spec fn route_body(host: Seq<char>, upstream: Seq<char>) -> Seq<char> {
    "\n"@ + host + " {\n    reverse_proxy "@ + upstream + "\n}\n"@
}

/// A managed route with its markers.
pub open spec fn route_block(host: Seq<char>, upstream: Seq<char>) -> Seq<char> {
    begin_marker(host) + route_body(host, upstream) + end_marker(host) + "\n"@
}

/// A managed route with its markers.
pub fn managed_caddy_route_block(host: &str, upstream: &str) -> (r: String)
    ensures
        r@ == route_block(host@, upstream@),
{
    let begin = cat2("# opsctl route begin ", host);
    let body = cat5("\n", host, " {\n    reverse_proxy ", upstream, "\n}\n");
    let end = cat2("# opsctl route end ", host);
    cat4(&begin, &body, &end, "\n")
}

/// A file with one managed route.
pub open spec fn snippet_file(host: Seq<char>, upstream: Seq<char>) -> Seq<char> {
    "# opsctl typed file caddy_route_snippet\n"@ + route_block(host, upstream)
}

/// A file with one managed route.
pub fn managed_caddy_snippet_file(host: &str, upstream: &str) -> (r: String)
    ensures
        r@ == snippet_file(host@, upstream@),
{
    cat2(
        "# opsctl typed file caddy_route_snippet\n",
        &managed_caddy_route_block(host, upstream),
    )
}

// ---------------------------------------------------------------------------
// Finding routes
// ---------------------------------------------------------------------------

/// Where what follows a marker begins: after the newline, if there is one.
pub open spec fn past_newline(text: Seq<char>, i: int) -> int {
    if i < text.len() && text[i] == '\n' {
        i + 1
    } else {
        i
    }
}

/// Where the managed route of a host lies, with its markers; an error if its end is
/// missing.
pub open spec fn route_bounds(text: Seq<char>, host: Seq<char>) -> Result<
    Option<(int, int)>,
    Seq<char>,
> {
    match place_from(text, begin_marker(host), 0) {
        None => Ok(None),
        Some(start) => match place_from(
            text,
            end_marker(host),
            start + begin_marker(host).len(),
        ) {
            None => Err("managed Caddy route for "@ + host + " is missing end marker"@),
            Some(end) => Ok(
                Some((start, past_newline(text, end + end_marker(host).len()))),
            ),
        },
    }
}

/// The bounds of a managed route lie within the text, in this order, with at least
/// the first marker between them.
pub proof fn lemma_route_bounds(text: Seq<char>, host: Seq<char>)
    ensures
        match route_bounds(text, host) {
            Ok(Some(b)) => 0 <= b.0 && b.0 + begin_marker(host).len() <= b.1 && b.1 <= text.len(),
            _ => true,
        },
{
    lemma_place_from(text, begin_marker(host), 0);
    if let Some(start) = place_from(text, begin_marker(host), 0) {
        lemma_place_from(text, end_marker(host), start + begin_marker(host).len());
    }
}

/// Where the managed route of a host lies; an error if its end is missing.
pub fn managed_caddy_route_bounds(text: &Vec<char>, host: &str) -> (r: Result<
    Option<(usize, usize)>,
    String,
>)
    ensures
        match route_bounds(text@, host@) {
            Ok(Some(b)) => r matches Ok(Some(found)) && found.0 == b.0 && found.1 == b.1,
            Ok(None) => r matches Ok(None),
            Err(error) => r is Err && r->Err_0@ == error,
        },
        r matches Ok(Some(found)) ==> found.0 < found.1 <= text@.len(),
{
    let begin = chars_of(&cat2("# opsctl route begin ", host));
    let end = chars_of(&cat2("# opsctl route end ", host));
    proof {
        lemma_route_bounds(text@, host@);
        reveal_strlit("# opsctl route begin ");
        assert("# opsctl route begin "@.len() == 21);
    }
    let size = text.len();
    match find_from(text, &begin, 0) {
        None => Ok(None),
        Some(start) => match find_from(text, &end, start + begin.len()) {
            None => Err(cat3("managed Caddy route for ", host, " is missing end marker")),
            Some(place) => {
                let stop = place + end.len();
                if stop < size && text[stop] == '\n' {
                    Ok(Some((start, stop + 1)))
                } else {
                    Ok(Some((start, stop)))
                }
            },
        },
    }
}

/// The bounds of a managed route, if it has both of them.
pub open spec fn bounds_if_any(text: Seq<char>, host: Seq<char>) -> Option<(int, int)> {
    match route_bounds(text, host) {
        Ok(b) => b,
        Err(_) => None,
    }
}

/// Where a line starts, in bytes, if every line ended with one newline.
pub open spec fn line_offset(all: Seq<Seq<char>>, k: int) -> int
    decreases k,
{
    if k <= 0 {
        0
    } else {
        line_offset(all, k - 1) + byte_len(all[k - 1]) + 1
    }
}

/// Whether a byte offset lies within bounds.
pub open spec fn covers(text: Seq<char>, bounds: (int, int), offset: int) -> bool {
    byte_len(text.take(bounds.0)) <= offset < byte_len(text.take(bounds.1))
}

/// Bounds in bytes.
pub struct ByteBounds {
    pub start: usize,
    pub end: usize,
}

/// Bounds in bytes.
pub(crate) fn byte_bounds(text: &Vec<char>, bounds: (usize, usize)) -> (r: ByteBounds)
    requires
        bounds.0 <= text@.len(),
        bounds.1 <= text@.len(),
    ensures
        r.start == byte_len(text@.take(bounds.0 as int)),
        r.end == byte_len(text@.take(bounds.1 as int)),
{
    proof {
        assert(text@.subrange(0, bounds.0 as int) =~= text@.take(bounds.0 as int));
        assert(text@.subrange(0, bounds.1 as int) =~= text@.take(bounds.1 as int));
    }
    ByteBounds {
        start: byte_size(&text_between(text, 0, bounds.0)),
        end: byte_size(&text_between(text, 0, bounds.1)),
    }
}

/// Whether a byte offset lies within bounds.
pub(crate) fn offset_in_bounds(offset: u128, bounds: &ByteBounds) -> (r: bool)
    ensures
        r == (bounds.start <= offset < bounds.end),
{
    bounds.start as u128 <= offset && offset < bounds.end as u128
}

/// The offset of the next line.
pub(crate) fn next_offset(offset: u128, line: &str, k: usize) -> (r: u128)
    requires
        k < usize::MAX,
        offset <= k * 0x1_0000_0000_0000_0000,
    ensures
        r == offset + byte_len(line@) + 1,
        r <= (k + 1) * 0x1_0000_0000_0000_0000,
{
    offset + byte_size(line) as u128 + 1
}

/// Whether some line opens the site of a host outside the managed route for it.
pub open spec fn has_unmanaged_site(text: Seq<char>, host: Seq<char>) -> bool {
    exists|k: int|
        0 <= k < lines(text).len() && trimmed(#[trigger] lines(text)[k]) == host + " {"@ && !(
        bounds_if_any(text, host) is Some && covers(
            text,
            bounds_if_any(text, host)->0,
            line_offset(lines(text), k),
        ))
}

/// Whether some line opens the site of a host outside the managed route for it.
pub fn caddyfile_has_unmanaged_site(existing: &str, host: &str) -> (r: bool)
    ensures
        r == has_unmanaged_site(existing@, host@),
{
    let text = chars_of(existing);
    let exact = cat2(host, " {");
    proof {
        lemma_route_bounds(text@, host@);
    }
    let bounds = match managed_caddy_route_bounds(&text, host) {
        Ok(Some(b)) => Some(byte_bounds(&text, b)),
        _ => None,
    };
    let all = split_lines(existing);
    let ghost ls = lines(existing@);
    let mut offset: u128 = 0;
    let mut k: usize = 0;
    while k < all.len()
        invariant
            k <= all@.len(),
            all.deep_view() == ls,
            ls == lines(existing@),
            exact@ == host@ + " {"@,
            match bounds_if_any(existing@, host@) {
                Some(b) => bounds matches Some(found) && found.start == byte_len(
                    existing@.take(b.0),
                ) && found.end == byte_len(existing@.take(b.1)),
                None => bounds is None,
            },
            offset == line_offset(ls, k as int),
            offset <= k * 0x1_0000_0000_0000_0000,
            forall|j: int|
                0 <= j < k ==> trimmed(#[trigger] ls[j]) != host@ + " {"@ || (bounds_if_any(
                    existing@,
                    host@,
                ) is Some && covers(
                    existing@,
                    bounds_if_any(existing@, host@)->0,
                    line_offset(ls, j),
                )),
        decreases all@.len() - k,
    {
        let line = &all[k];
        proof {
            assert(ls[k as int] == line@);
        }
        let inside = match &bounds {
            Some(b) => offset_in_bounds(offset, b),
            None => false,
        };
        if same(&trim(line), &exact) && !inside {
            return true;
        }
        offset = next_offset(offset, line, k);
        k = k + 1;
    }
    proof {
        assert(all.deep_view().len() == all@.len());
    }
    false
}

// ---------------------------------------------------------------------------
// Updating the configuration
// ---------------------------------------------------------------------------

/// The configuration with a managed route in it: in place of the one that is there,
/// or at the end.
pub open spec fn with_route(text: Seq<char>, host: Seq<char>, upstream: Seq<char>) -> Seq<char> {
    let block = route_block(host, upstream);
    match bounds_if_any(text, host) {
        Some(b) => text.take(b.0) + block + text.skip(b.1),
        None => text + (if text.len() > 0 && text.last() != '\n' {
            "\n"@
        } else {
            ""@
        }) + "\n"@ + block,
    }
}

/// What writing a route changes: the new configuration, nothing where the route is
/// already there, or why it is refused.
pub open spec fn route_update(text: Seq<char>, host: Seq<char>, upstream: Seq<char>) -> Result<
    Option<Seq<char>>,
    Seq<char>,
> {
    if has_unmanaged_site(text, host) {
        Err("refusing to modify unmanaged Caddy route for host "@ + host)
    } else {
        match route_bounds(text, host) {
            Err(error) => Err(error),
            Ok(Some(b)) => if text.subrange(b.0, b.1) == route_block(host, upstream) {
                Ok(None)
            } else {
                Ok(Some(with_route(text, host, upstream)))
            },
            Ok(None) => Ok(Some(with_route(text, host, upstream))),
        }
    }
}

/// What writing a route changes: the new configuration, or nothing where the route
/// is already there. An error says why it is refused.
pub fn update_caddy_route(existing: &str, host: &str, upstream: &str) -> (r: Result<
    Option<String>,
    String,
>)
    ensures
        match route_update(existing@, host@, upstream@) {
            Ok(text) => r is Ok && r->Ok_0.deep_view() == text,
            Err(error) => r is Err && r->Err_0@ == error,
        },
{
    if caddyfile_has_unmanaged_site(existing, host) {
        return Err(cat2("refusing to modify unmanaged Caddy route for host ", host));
    }
    let text = chars_of(existing);
    let block = managed_caddy_route_block(host, upstream);
    let size = text.len();
    match managed_caddy_route_bounds(&text, host) {
        Err(error) => Err(error),
        Ok(Some((start, end))) => {
            if same(&text_between(&text, start, end), &block) {
                return Ok(None);
            }
            let front = text_between(&text, 0, start);
            let back = text_between(&text, end, size);
            proof {
                assert(front@ =~= existing@.take(start as int));
                assert(back@ =~= existing@.skip(end as int));
            }
            Ok(Some(cat3(&front, &block, &back)))
        },
        Ok(None) => {
            let gap = if size > 0 && text[size - 1] != '\n' {
                "\n"
            } else {
                ""
            };
            Ok(Some(cat4(existing, gap, "\n", &block)))
        },
    }
}

/// A route that a step writes.
#[derive(Debug)]
pub struct CaddyRoutePlan {
    pub host: String,
    pub upstream: String,
}

/// View of [`CaddyRoutePlan`].
#[verifier::ext_equal]
pub struct CaddyRoutePlanView {
    pub host: Seq<char>,
    pub upstream: Seq<char>,
}

impl DeepView for CaddyRoutePlan {
    type V = CaddyRoutePlanView;

    open spec fn deep_view(&self) -> CaddyRoutePlanView {
        CaddyRoutePlanView {
            host: self.host.deep_view(),
            upstream: self.upstream.deep_view(),
        }
    }
}

/// A file with a route that a step writes.
#[derive(Debug)]
pub struct CaddySnippet {
    pub path: String,
    pub content: String,
}

/// View of [`CaddySnippet`].
#[verifier::ext_equal]
pub struct CaddySnippetView {
    pub path: Seq<char>,
    pub content: Seq<char>,
}

impl DeepView for CaddySnippet {
    type V = CaddySnippetView;

    open spec fn deep_view(&self) -> CaddySnippetView {
        CaddySnippetView {
            path: self.path.deep_view(),
            content: self.content.deep_view(),
        }
    }
}

/// The host and the upstream in a step's parameters, or what is wrong with them.
pub open spec fn route_plan(
    params: Seq<(Seq<char>, Seq<char>)>,
    host_key: Seq<char>,
    upstream_key: Seq<char>,
    what: Seq<char>,
) -> Result<CaddyRoutePlanView, Seq<char>> {
    match value_at(params, host_key) {
        None => Err("missing "@ + what + " host"@),
        Some(host) => match value_at(params, upstream_key) {
            None => Err("missing "@ + what + " upstream"@),
            Some(upstream) => if !route_value_is_valid(host) {
                Err("invalid caddy route "@ + "host"@)
            } else if !route_value_is_valid(upstream) {
                Err("invalid caddy route "@ + "upstream"@)
            } else {
                Ok(CaddyRoutePlanView { host, upstream })
            },
        },
    }
}

/// The host and the upstream in a step's parameters; an error says what is wrong
/// with them.
pub fn plan_caddy_route(
    operation: &DeployOperation,
    host_key: &str,
    upstream_key: &str,
    what: &str,
) -> (r: Result<CaddyRoutePlan, String>)
    ensures
        match route_plan(operation.deep_view().params, host_key@, upstream_key@, what@) {
            Ok(route) => r is Ok && r->Ok_0.deep_view() == route,
            Err(error) => r is Err && r->Err_0@ == error,
        },
{
    let host = match get_value(&operation.params, host_key) {
        Some(host) => host,
        None => {
            return Err(cat3("missing ", what, " host"));
        },
    };
    let upstream = match get_value(&operation.params, upstream_key) {
        Some(upstream) => upstream,
        None => {
            return Err(cat3("missing ", what, " upstream"));
        },
    };
    if let Err(error) = validate_caddy_route_value(host, "host") {
        return Err(error);
    }
    if let Err(error) = validate_caddy_route_value(upstream, "upstream") {
        return Err(error);
    }
    Ok(CaddyRoutePlan { host: host.to_string(), upstream: upstream.to_string() })
}

/// The route that a step writes into the configuration.
pub fn write_caddy_route(operation: &DeployOperation) -> (r: Result<CaddyRoutePlan, String>)
    ensures
        match route_plan(operation.deep_view().params, "host"@, "upstream"@, "caddy route"@) {
            Ok(route) => r is Ok && r->Ok_0.deep_view() == route,
            Err(error) => r is Err && r->Err_0@ == error,
        },
{
    plan_caddy_route(operation, "host", "upstream", "caddy route")
}

/// Why the configuration file cannot be written: it is a link, no file, or its
/// directory is missing.
pub open spec fn caddyfile_refused(
    path: Seq<char>,
    entry: Option<EntryKind>,
    parent_exists: bool,
) -> Option<Seq<char>> {
    match refused(
        entry,
        EntryKind::File,
        "refusing to write Caddyfile symlink: "@ + path,
        "Caddyfile is not a regular file: "@ + path,
    ) {
        Some(words) => Some(words),
        None => match parent_spec(path) {
            Some(parent) => if parent_exists {
                None
            } else {
                Some("Caddyfile parent directory does not exist: "@ + parent)
            },
            None => None,
        },
    }
}

/// Why the configuration file cannot be written, if it cannot.
pub fn refuse_caddyfile_write(path: &str, entry: Option<EntryKind>, parent_exists: bool) -> (r:
    Option<String>)
    ensures
        r.deep_view() == caddyfile_refused(path@, entry, parent_exists),
{
    let link = cat2("refusing to write Caddyfile symlink: ", path);
    let other = cat2("Caddyfile is not a regular file: ", path);
    match refuse(entry, EntryKind::File, link, other) {
        Some(words) => Some(words),
        None => match parent(path) {
            Some(directory) => if parent_exists {
                None
            } else {
                Some(cat2("Caddyfile parent directory does not exist: ", &directory))
            },
            None => None,
        },
    }
}

/// What came of writing a route.
pub fn caddy_route_result(operation: &DeployOperation, written: bool, path: &str) -> (r:
    DeployOperationResult)
    ensures
        r.deep_view() == bare_result(
            operation.deep_view(),
            "success"@,
            Some(0),
            Some(
                if written {
                    "wrote caddy route to "@ + path@
                } else {
                    "caddy route already present"@
                },
            ),
        ),
{
    if written {
        success_result(operation, cat2("wrote caddy route to ", path))
    } else {
        success_result(operation, "caddy route already present".to_string())
    }
}

/// The file with a route that a step writes, or what is wrong with it.
pub open spec fn snippet_plan(params: Seq<(Seq<char>, Seq<char>)>) -> Result<
    CaddySnippetView,
    Seq<char>,
> {
    match path_param(params, "path"@) {
        Err(error) => Err(error),
        Ok(path) => if extension_spec(path) != Some("caddy"@) {
            Err("caddy_route_snippet target must use .caddy extension"@)
        } else {
            match route_plan(
                params,
                "param.host"@,
                "param.upstream"@,
                "caddy_route_snippet"@,
            ) {
                Err(error) => Err(error),
                Ok(route) => Ok(
                    CaddySnippetView { path, content: snippet_file(route.host, route.upstream) },
                ),
            }
        },
    }
}

/// The file with a route that a step writes; an error says what is wrong with it.
pub fn write_caddy_route_snippet(operation: &DeployOperation) -> (r: Result<CaddySnippet, String>)
    ensures
        match snippet_plan(operation.deep_view().params) {
            Ok(snippet) => r is Ok && r->Ok_0.deep_view() == snippet,
            Err(error) => r is Err && r->Err_0@ == error,
        },
{
    let path = match operation_param_path(operation, "path") {
        Ok(path) => path,
        Err(error) => {
            return Err(error);
        },
    };
    if !is_text(as_text(&extension(&path)), "caddy") {
        return Err("caddy_route_snippet target must use .caddy extension".to_string());
    }
    match plan_caddy_route(operation, "param.host", "param.upstream", "caddy_route_snippet") {
        Ok(route) => Ok(
            CaddySnippet {
                path,
                content: managed_caddy_snippet_file(&route.host, &route.upstream),
            },
        ),
        Err(error) => Err(error),
    }
}

/// The mode to write a file with, nothing where it is already there, or why it is
/// refused.
pub open spec fn snippet_decision(
    snippet: CaddySnippetView,
    mode: Option<Seq<char>>,
    existing: Option<Seq<char>>,
) -> Result<Option<u32>, Seq<char>> {
    if existing is Some && !holds(existing->0, "# opsctl typed file caddy_route_snippet"@) {
        Err("refusing to overwrite unmanaged typed Caddy snippet: "@ + snippet.path)
    } else if existing == Some(snippet.content) {
        Ok(None)
    } else {
        match mode {
            None => Ok(Some(0o640)),
            Some(raw) => match file_mode(raw) {
                Ok(m) => Ok(Some(m)),
                Err(error) => Err(error),
            },
        }
    }
}

/// The mode to write a file with, or nothing where it is already there. An error
/// says why it is refused.
pub fn decide_caddy_snippet(
    operation: &DeployOperation,
    snippet: &CaddySnippet,
    existing: Option<&str>,
) -> (r: Result<Option<u32>, String>)
    ensures
        match snippet_decision(
            snippet.deep_view(),
            value_at(operation.deep_view().params, "mode"@),
            existing.deep_view(),
        ) {
            Ok(mode) => r == Ok::<Option<u32>, String>(mode),
            Err(error) => r is Err && r->Err_0@ == error,
        },
{
    if let Some(text) = existing {
        if !contains(text, "# opsctl typed file caddy_route_snippet") {
            return Err(
                cat2("refusing to overwrite unmanaged typed Caddy snippet: ", &snippet.path),
            );
        }
        if same(text, &snippet.content) {
            return Ok(None);
        }
    }
    match get_value(&operation.params, "mode") {
        None => Ok(Some(0o640)),
        Some(raw) => match parse_file_mode(raw) {
            Ok(mode) => Ok(Some(mode)),
            Err(error) => Err(error),
        },
    }
}

/// What came of writing a file with a route.
pub fn caddy_snippet_result(operation: &DeployOperation, written: bool, path: &str) -> (r:
    DeployOperationResult)
    ensures
        r.deep_view() == bare_result(
            operation.deep_view(),
            "success"@,
            Some(0),
            Some(
                if written {
                    "wrote typed Caddy snippet to "@ + path@
                } else {
                    "typed Caddy snippet already present"@
                },
            ),
        ),
{
    if written {
        success_result(operation, cat2("wrote typed Caddy snippet to ", path))
    } else {
        success_result(operation, "typed Caddy snippet already present".to_string())
    }
}

/// Why a file is not written: it has no template, or one that nobody knows.
pub open spec fn template_refusal(params: Seq<(Seq<char>, Seq<char>)>) -> Option<Seq<char>> {
    match value_at(params, "template_kind"@) {
        None => Some(
            "generic file writes are not executable without typed content and destination policy"@,
        ),
        Some(kind) => if kind == "caddy_route_snippet"@ {
            None
        } else {
            Some("unsupported typed file write kind: "@ + kind)
        },
    }
}

/// Why a file is not written. Nothing where it is a file with a route.
pub fn execute_typed_file_write(operation: &DeployOperation) -> (r: Option<DeployOperationResult>)
    ensures
        r.deep_view() == (match template_refusal(operation.deep_view().params) {
            Some(why) => Some(
                bare_result(operation.deep_view(), "unsupported"@, None, Some(why)),
            ),
            None => None,
        }),
{
    match get_value(&operation.params, "template_kind") {
        None => Some(
            unsupported_result(
                operation,
                "generic file writes are not executable without typed content and destination policy",
            ),
        ),
        Some(kind) => if same(kind, "caddy_route_snippet") {
            None
        } else {
            Some(
                unsupported_result(
                    operation,
                    &cat2("unsupported typed file write kind: ", kind),
                ),
            )
        },
    }
}

// ---------------------------------------------------------------------------
// Laws
// ---------------------------------------------------------------------------

proof fn lemma_markers(host: Seq<char>)
    requires
        !host.contains('\n'),
    ensures
        !begin_marker(host).contains('\n'),
        !end_marker(host).contains('\n'),
        begin_marker(host).len() > 0,
        begin_marker(host)[0] == '#',
{
    let b = "# opsctl route begin "@;
    let e = "# opsctl route end "@;
    reveal_strlit("# opsctl route begin ");
    reveal_strlit("# opsctl route end ");
    assert(b =~= seq![
        '#', ' ', 'o', 'p', 's', 'c', 't', 'l', ' ', 'r', 'o', 'u', 't', 'e', ' ', 'b', 'e', 'g',
        'i', 'n', ' ',
    ]);
    assert(e =~= seq![
        '#', ' ', 'o', 'p', 's', 'c', 't', 'l', ' ', 'r', 'o', 'u', 't', 'e', ' ', 'e', 'n', 'd',
        ' ',
    ]);
    assert forall|i: int| 0 <= i < begin_marker(host).len() implies begin_marker(host)[i]
        != '\n' by {
        if i >= b.len() {
            assert(begin_marker(host)[i] == host[i - b.len()]);
        }
    }
    assert forall|i: int| 0 <= i < end_marker(host).len() implies end_marker(host)[i] != '\n' by {
        if i >= e.len() {
            assert(end_marker(host)[i] == host[i - e.len()]);
        }
    }
}

proof fn lemma_body_ends(host: Seq<char>, upstream: Seq<char>)
    ensures
        route_body(host, upstream).len() > 0,
        route_body(host, upstream).last() == '\n',
{
    reveal_strlit("\n}\n");
    let tail = "\n}\n"@;
    assert(tail.len() == 3 && tail[2] == '\n');
    let body = route_body(host, upstream);
    assert(body.last() == tail[2]);
}

/// The start of the route that was written is found where it was written.
proof fn lemma_begin_is_found(text: Seq<char>, host: Seq<char>, upstream: Seq<char>) -> (s: int)
    requires
        !host.contains('\n'),
        route_bounds(text, host) is Ok,
    ensures
        ({
            let w = with_route(text, host, upstream);
            let block = route_block(host, upstream);
            &&& 0 <= s && s + block.len() <= w.len()
            &&& w.subrange(s, s + block.len()) == block
            &&& place_from(w, begin_marker(host), 0) == Some(s)
        }),
{
    let w = with_route(text, host, upstream);
    let block = route_block(host, upstream);
    let begin = begin_marker(host);
    let n = begin.len() as int;
    lemma_markers(host);
    lemma_route_bounds(text, host);
    lemma_place_from(text, begin, 0);
    lemma_first_place(text, begin, 0);
    assert(block.subrange(0, n) =~= begin);
    match bounds_if_any(text, host) {
        Some(b) => {
            let s = b.0;
            assert(w.subrange(s, s + block.len()) =~= block);
            assert(w.subrange(s, s + n) =~= begin);
            assert(text.subrange(s, s + n) == begin);
            assert forall|q: int| 0 <= q < s implies !#[trigger] stands_at(w, begin, q) by {
                if stands_at(w, begin, q) {
                    assert forall|k: int| 0 <= k < n implies text[q + k] == begin[k] by {
                        assert(w.subrange(q, q + n)[k] == w[q + k]);
                        if q + k >= s {
                            assert(w[q + k] == block[q + k - s]);
                            assert(block[q + k - s] == begin[q + k - s]);
                            assert(text.subrange(s, s + n)[q + k - s] == text[q + k]);
                        }
                    }
                    assert(text.subrange(q, q + n) =~= begin);
                    assert(stands_at(text, begin, q));
                }
            }
            lemma_this_place(w, begin, 0, s);
            s
        },
        None => {
            let s = w.len() - block.len();
            reveal_strlit("\n");
            assert("\n"@ =~= seq!['\n']);
            reveal_strlit("");
            assert(w.subrange(s, s + block.len()) =~= block);
            assert(w.subrange(s, s + n) =~= begin);
            assert forall|k: int| text.len() <= k < s implies w[k] == '\n' by {}
            assert forall|q: int| 0 <= q < s implies !#[trigger] stands_at(w, begin, q) by {
                if stands_at(w, begin, q) {
                    if q + n <= text.len() {
                        assert(text.subrange(q, q + n) =~= w.subrange(q, q + n));
                        assert(stands_at(text, begin, q));
                    } else {
                        let k = if q <= text.len() {
                            text.len() as int
                        } else {
                            q
                        };
                        assert(w.subrange(q, q + n)[k - q] == w[k]);
                        assert(begin[k - q] == '\n');
                        assert(begin.contains('\n'));
                    }
                }
            }
            lemma_this_place(w, begin, 0, s);
            s
        },
    }
}

/// The end of a block is found after its body.
proof fn lemma_end_is_found(
    w: Seq<char>,
    s: int,
    begin: Seq<char>,
    body: Seq<char>,
    end: Seq<char>,
    newline: Seq<char>,
)
    requires
        0 <= s,
        s + begin.len() + body.len() + end.len() + newline.len() <= w.len(),
        w.subrange(s, s + begin.len() + body.len() + end.len() + newline.len()) == begin + body
            + end + newline,
        newline == seq!['\n'],
        body.len() > 0,
        body.last() == '\n',
        !end.contains('\n'),
        !holds(body, end),
    ensures
        place_from(w, end, s + begin.len()) == Some(s + begin.len() + body.len()),
        w[s + begin.len() + body.len() + end.len()] == '\n',
{
    let block = begin + body + end + newline;
    let from = s + begin.len();
    let place = from + body.len();
    let all = w.subrange(s, s + block.len());
    assert forall|k: int| 0 <= k < block.len() implies w[s + k] == #[trigger] block[k] by {
        assert(all[k] == w[s + k]);
    }
    assert forall|k: int| 0 <= k < body.len() implies w[from + k] == #[trigger] body[k] by {
        assert(block[begin.len() + k] == body[k]);
    }
    assert forall|k: int| 0 <= k < end.len() implies w[place + k] == #[trigger] end[k] by {
        assert(block[begin.len() + body.len() + k] == end[k]);
    }
    assert(w.subrange(place, place + end.len()) =~= end);
    assert(block[block.len() - 1] == newline[0]);
    assert forall|q: int| from <= q < place implies !#[trigger] stands_at(w, end, q) by {
        if stands_at(w, end, q) {
            let there = w.subrange(q, q + end.len());
            if q + end.len() <= place {
                let inner = body.subrange(q - from, q - from + end.len());
                assert forall|k: int| 0 <= k < end.len() implies inner[k] == there[k] by {
                    assert(body[q - from + k] == w[q + k]);
                }
                assert(inner =~= there);
                assert(stands_at(body, end, q - from));
            } else {
                assert(w[from + (body.len() - 1)] == body[body.len() - 1]);
                assert(there[place - 1 - q] == w[place - 1]);
                assert(end[place - 1 - q] == '\n');
                assert(end.contains('\n'));
            }
        }
    }
    lemma_this_place(w, end, from, place);
}

/// A route that was written is found again, with its markers around it, unless its
/// own lines hold its end marker.
pub proof fn law_written_route_is_found(text: Seq<char>, host: Seq<char>, upstream: Seq<char>)
    requires
        !host.contains('\n'),
        route_bounds(text, host) is Ok,
        !holds(route_body(host, upstream), end_marker(host)),
    ensures
        match bounds_if_any(with_route(text, host, upstream), host) {
            Some(b) => with_route(text, host, upstream).subrange(b.0, b.1) == route_block(
                host,
                upstream,
            ),
            None => false,
        },
{
    let s = lemma_begin_is_found(text, host, upstream);
    lemma_markers(host);
    lemma_body_ends(host, upstream);
    reveal_strlit("\n");
    assert("\n"@ =~= seq!['\n']);
    lemma_end_is_found(
        with_route(text, host, upstream),
        s,
        begin_marker(host),
        route_body(host, upstream),
        end_marker(host),
        "\n"@,
    );
}

/// Writing a route that was just written changes nothing, unless it is refused or
/// its own lines hold its end marker.
pub proof fn law_writing_twice_changes_nothing(
    text: Seq<char>,
    host: Seq<char>,
    upstream: Seq<char>,
)
    requires
        !host.contains('\n'),
        route_bounds(text, host) is Ok,
        !holds(route_body(host, upstream), end_marker(host)),
    ensures
        route_update(with_route(text, host, upstream), host, upstream) is Ok ==> route_update(
            with_route(text, host, upstream),
            host,
            upstream,
        )->Ok_0 is None,
{
    law_written_route_is_found(text, host, upstream);
}

/// A host or an upstream can stand in a route where it is not blank and has no line
/// break, brace or semicolon in it.
pub proof fn law_route_values(value: Seq<char>)
    ensures
        route_value_is_valid(value) <==> {
            &&& exists|i: int| 0 <= i < value.len() && !is_white(#[trigger] value[i])
            &&& forall|i: int|
                0 <= i < value.len() ==> #[trigger] value[i] != '\n' && value[i] != '\r' && value[i]
                    != '{' && value[i] != '}' && value[i] != ';'
        },
{
    law_trimmed(value, white_space());
    reveal_strlit("\n\r{};");
    let bad = "\n\r{};"@;
    assert(bad[0] == '\n' && bad[1] == '\r' && bad[2] == '{' && bad[3] == '}' && bad[4] == ';');
    if trimmed(value).len() == 0 {
        assert forall|i: int| 0 <= i < value.len() implies is_white(#[trigger] value[i]) by {
            assert(white_space()(value[i]));
        }
    } else if forall|i: int| 0 <= i < value.len() ==> is_white(#[trigger] value[i]) {
        assert forall|i: int| 0 <= i < value.len() implies white_space()(#[trigger] value[i]) by {}
    }
    if !share_char(value, bad) {
        assert forall|i: int| 0 <= i < value.len() implies #[trigger] value[i] != '\n' && value[i]
            != '\r' && value[i] != '{' && value[i] != '}' && value[i] != ';' by {
            assert(!bad.contains(value[i]));
        }
    }
}

/// A route is planned exactly where its host and its upstream are given and can stand
/// in a route; it has them.
pub proof fn law_which_routes_are_planned(
    params: Seq<(Seq<char>, Seq<char>)>,
    host_key: Seq<char>,
    upstream_key: Seq<char>,
    what: Seq<char>,
)
    ensures
        route_plan(params, host_key, upstream_key, what) is Ok <==> {
            &&& value_at(params, host_key) is Some
            &&& value_at(params, upstream_key) is Some
            &&& route_value_is_valid(value_at(params, host_key)->0)
            &&& route_value_is_valid(value_at(params, upstream_key)->0)
        },
        route_plan(params, host_key, upstream_key, what) matches Ok(route) ==> route.host
            == value_at(params, host_key)->0 && route.upstream == value_at(params, upstream_key)->0,
{
}

/// A snippet is planned exactly where its path is absolute, does not climb and ends in
/// `.caddy`, and its route can be planned. Writing it again changes nothing, and a file
/// that is no snippet is never replaced.
pub proof fn law_snippets(
    params: Seq<(Seq<char>, Seq<char>)>,
    mode: Option<Seq<char>>,
    existing: Seq<char>,
)
    ensures
        snippet_plan(params) is Ok <==> {
            &&& value_at(params, "path"@) is Some
            &&& is_absolute_spec(value_at(params, "path"@)->0)
            &&& !climbs(value_at(params, "path"@)->0)
            &&& extension_spec(value_at(params, "path"@)->0) == Some("caddy"@)
            &&& value_at(params, "param.host"@) is Some && route_value_is_valid(
                value_at(params, "param.host"@)->0,
            )
            &&& value_at(params, "param.upstream"@) is Some && route_value_is_valid(
                value_at(params, "param.upstream"@)->0,
            )
        },
        snippet_plan(params) matches Ok(snippet) ==> {
            &&& snippet.path == value_at(params, "path"@)->0
            &&& begins(snippet.content, "# opsctl typed file caddy_route_snippet"@)
            &&& holds(
                snippet.content,
                "\n"@ + value_at(params, "param.host"@)->0 + " {\n    reverse_proxy "@ + value_at(
                    params,
                    "param.upstream"@,
                )->0 + "\n}\n"@,
            )
            &&& snippet_decision(snippet, mode, Some(snippet.content)) == Ok::<
                Option<u32>,
                Seq<char>,
            >(None)
            &&& snippet_decision(snippet, mode, Some(existing)) is Err <== !holds(
                existing,
                "# opsctl typed file caddy_route_snippet"@,
            )
            &&& snippet_decision(snippet, None, None) == Ok::<Option<u32>, Seq<char>>(Some(0o640))
            &&& snippet_decision(snippet, None, Some(existing)) == Ok::<Option<u32>, Seq<char>>(
                Some(0o640),
            ) <== holds(existing, "# opsctl typed file caddy_route_snippet"@) && existing
                != snippet.content
        },
{
    if let Ok(snippet) = snippet_plan(params) {
        let host = value_at(params, "param.host"@)->0;
        let upstream = value_at(params, "param.upstream"@)->0;
        let mark = "# opsctl typed file caddy_route_snippet"@;
        reveal_strlit("# opsctl typed file caddy_route_snippet");
        reveal_strlit("# opsctl typed file caddy_route_snippet\n");
        reveal_strlit("\n");
        assert("# opsctl typed file caddy_route_snippet\n"@ =~= mark + "\n"@);
        let rest = "\n"@ + route_block(host, upstream);
        assert(snippet.content =~= mark + rest);
        law_parts_are_found(Seq::empty(), mark, rest);
        assert(Seq::<char>::empty() + mark + rest =~= mark + rest);
        let front = "# opsctl typed file caddy_route_snippet\n"@ + begin_marker(host);
        let body = route_body(host, upstream);
        let back = end_marker(host) + "\n"@;
        assert(snippet.content =~= front + body + back);
        law_parts_are_found(front, body, back);
    }
}

/// Only a snippet can be written from a template.
pub proof fn law_templates(params: Seq<(Seq<char>, Seq<char>)>)
    ensures
        template_refusal(params) is None <==> value_at(params, "template_kind"@) == Some(
            "caddy_route_snippet"@,
        ),
{
}

/// The configuration is written exactly where it is a regular file or is not there, and
/// its directory is.
pub proof fn law_where_the_configuration_is_written(
    path: Seq<char>,
    entry: Option<EntryKind>,
    parent_exists: bool,
)
    ensures
        caddyfile_refused(path, entry, parent_exists) is None <==> (entry is None || entry == Some(
            EntryKind::File,
        )) && (parent_spec(path) is None || parent_exists),
{
}

/// Updating a route keeps everything around it: where the route is managed already, what
/// stands before and behind it stays; where it is not, it is put behind the text. It is
/// refused where the host has a site that is not managed, or the end of the route is
/// missing, and only there.
pub proof fn law_updates_keep_the_rest(text: Seq<char>, host: Seq<char>, upstream: Seq<char>)
    ensures
        route_update(text, host, upstream) is Err <==> has_unmanaged_site(text, host)
            || route_bounds(text, host) is Err,
        match route_update(text, host, upstream) {
            Err(_) => true,
            Ok(None) => match bounds_if_any(text, host) {
                Some(b) => text.subrange(b.0, b.1) == begin_marker(host) + route_body(
                    host,
                    upstream,
                ) + end_marker(host) + "\n"@,
                None => false,
            },
            Ok(Some(now)) => match bounds_if_any(text, host) {
                Some(b) => now == text.take(b.0) + route_block(host, upstream) + text.skip(b.1),
                None => begins(now, text) && finishes(now, route_block(host, upstream)),
            },
        },
{
    if let Ok(Some(now)) = route_update(text, host, upstream) {
        if bounds_if_any(text, host) is None {
            let block = route_block(host, upstream);
            let gap = (if text.len() > 0 && text.last() != '\n' {
                "\n"@
            } else {
                ""@
            });
            assert(now == text + gap + "\n"@ + block);
            law_parts_are_found(text + gap + "\n"@, block, Seq::empty());
            assert(now =~= text + (gap + "\n"@ + block));
            law_parts_are_found(Seq::empty(), text, gap + "\n"@ + block);
        }
    }
}

} // verus!
