//! Checks after a deploy.

use vstd::prelude::*;
use crate::command::{CommandOutput, CommandOutputView};
use crate::deploy::journal::completed;
use crate::deploy::operations::{category_enabled, health_category_enabled};
use crate::deploy::run::{bare_result, make_result};
use crate::deploy::types::{
    CaddyRouteChange, CaddyRouteChangeView, DeployHealthCheckResult, DeployHealthCheckResultView,
    DeployOperation, DeployOperationResult, DeployOperationResultView, DeployOperationView,
    DeployPlan, DeployPlanView, StaticSiteSync, StaticSiteSyncView,
};
use crate::each::{count_where, map_each};
use crate::entries::EntryKind;
use crate::list::{law_either_list, law_tally, lemma_tally_bound, tally};
use crate::number::{
    count_text, decimal, decimal_text, parse_unsigned, parsed_unsigned, signed_decimal,
    signed_text,
};
use crate::text::{
    as_text, begins, cat2, cat3, cat4, cat5, finishes, law_parts_are_found, or_text, same,
    starts_with, text_or,
};
use crate::words::{first_line, get_first_line, split_words, words};

verus! {

broadcast use {vstd::seq::group_seq_axioms, vstd::string::group_string_axioms};

/// What came of a check.
pub open spec fn health(
    kind: Seq<char>,
    target: Seq<char>,
    ok: bool,
    detail: Seq<char>,
) -> DeployHealthCheckResultView {
    DeployHealthCheckResultView {
        kind,
        target,
        status: if ok {
            "success"@
        } else {
            "failed"@
        },
        detail,
    }
}

/// What came of a check.
pub fn make_health(kind: &str, target: &str, ok: bool, detail: String) -> (r:
    DeployHealthCheckResult)
    ensures
        r.deep_view() == health(kind@, target@, ok, detail@),
{
    DeployHealthCheckResult {
        kind: kind.to_string(),
        target: target.to_string(),
        status: if ok {
            "success".to_string()
        } else {
            "failed".to_string()
        },
        detail,
    }
}

// ---------------------------------------------------------------------------
// What is checked
// ---------------------------------------------------------------------------

/// Something to check.
#[derive(Debug)]
pub enum HealthTarget {
    Container(String),
    Port(u16),
    Route(String),
    Site(String, String),
}

/// View of [`HealthTarget`].
pub enum HealthTargetView {
    Container(Seq<char>),
    Port(u16),
    Route(Seq<char>),
    Site(Seq<char>, Seq<char>),
}

impl DeepView for HealthTarget {
    type V = HealthTargetView;

    open spec fn deep_view(&self) -> HealthTargetView {
        match *self {
            HealthTarget::Container(name) => HealthTargetView::Container(name@),
            HealthTarget::Port(port) => HealthTargetView::Port(port),
            HealthTarget::Route(host) => HealthTargetView::Route(host@),
            HealthTarget::Site(source, destination) => HealthTargetView::Site(
                source@,
                destination@,
            ),
        }
    }
}

/// Everything if it is wanted, and nothing otherwise.
pub open spec fn if_wanted<A>(wanted: bool, s: Seq<A>) -> Seq<A> {
    if wanted {
        s
    } else {
        Seq::empty()
    }
}

/// What a plan wants checked: containers, ports, routes and sites.
pub open spec fn health_targets(plan: DeployPlanView) -> Seq<HealthTargetView> {
    let h = plan.changes.health;
    if_wanted(
        category_enabled(h.docker),
        plan.changes.docker.containers.map_values(
            |name: Seq<char>| HealthTargetView::Container(name),
        ),
    ) + if_wanted(
        category_enabled(h.ports),
        plan.changes.ports.reserve.map_values(|port: u16| HealthTargetView::Port(port)),
    ) + if_wanted(
        category_enabled(h.caddy),
        plan.changes.caddy.routes.map_values(
            |route: CaddyRouteChangeView| HealthTargetView::Route(route.host),
        ),
    ) + if_wanted(
        category_enabled(h.static_site),
        plan.changes.static_site.sync.map_values(
            |sync: StaticSiteSyncView| HealthTargetView::Site(sync.source, sync.destination),
        ),
    )
}

/// Adds targets if they are wanted.
fn add_targets(list: &mut Vec<HealthTarget>, wanted: bool, more: Vec<HealthTarget>)
    ensures
        final(list).deep_view() == old(list).deep_view() + if_wanted(wanted, more.deep_view()),
{
    let ghost before = list.deep_view();
    let ghost added = more.deep_view();
    if wanted {
        let mut more = more;
        list.append(&mut more);
    }
    proof {
        assert(list.deep_view() =~= before + if_wanted(wanted, added));
    }
}

/// What a plan wants checked.
pub fn list_health_targets(plan: &DeployPlan) -> (r: Vec<HealthTarget>)
    ensures
        r.deep_view() == health_targets(plan.deep_view()),
{
    let h = &plan.changes.health;
    let mut list: Vec<HealthTarget> = Vec::new();
    proof {
        assert(list.deep_view() =~= Seq::<HealthTargetView>::empty());
    }
    let containers = map_each(
        &plan.changes.docker.containers,
        |name: &String| -> (t: HealthTarget)
            ensures
                t.deep_view() == HealthTargetView::Container(name@)
            { HealthTarget::Container(name.clone()) },
        Ghost(|name: Seq<char>| HealthTargetView::Container(name)),
    );
    add_targets(&mut list, health_category_enabled(h.docker), containers);
    let ports = map_each(
        &plan.changes.ports.reserve,
        |port: &u16| -> (t: HealthTarget)
            ensures
                t.deep_view() == HealthTargetView::Port(*port)
            { HealthTarget::Port(*port) },
        Ghost(|port: u16| HealthTargetView::Port(port)),
    );
    add_targets(&mut list, health_category_enabled(h.ports), ports);
    let routes = map_each(
        &plan.changes.caddy.routes,
        |route: &CaddyRouteChange| -> (t: HealthTarget)
            ensures
                t.deep_view() == HealthTargetView::Route(route.deep_view().host)
            { HealthTarget::Route(route.host.clone()) },
        Ghost(|route: CaddyRouteChangeView| HealthTargetView::Route(route.host)),
    );
    add_targets(&mut list, health_category_enabled(h.caddy), routes);
    let sites = map_each(
        &plan.changes.static_site.sync,
        |sync: &StaticSiteSync| -> (t: HealthTarget)
            ensures
                t.deep_view() == HealthTargetView::Site(
                    sync.deep_view().source,
                    sync.deep_view().destination,
                )
            { HealthTarget::Site(sync.source.clone(), sync.destination.clone()) },
        Ghost(|sync: StaticSiteSyncView| HealthTargetView::Site(sync.source, sync.destination)),
    );
    add_targets(&mut list, health_category_enabled(h.static_site), sites);
    proof {
        assert(list.deep_view() =~= health_targets(plan.deep_view()));
    }
    list
}

// ---------------------------------------------------------------------------
// Containers
// ---------------------------------------------------------------------------

/// The arguments of `docker` that ask for the state of a container, whose name
/// follows.
pub open spec fn docker_health_query() -> Seq<Seq<char>> {
    seq![
        "inspect"@,
        "--format"@,
        "{{.State.Status}} {{if .State.Health}}{{.State.Health.Status}}{{else}}none{{end}}"@,
    ]
}

/// The arguments of `docker` that ask for the state of a container, whose name
/// follows.
pub fn docker_health_args() -> (r: Vec<String>)
    ensures
        r.deep_view() == docker_health_query(),
{
    let list: Vec<String> = vec![
        "inspect".to_string(),
        "--format".to_string(),
        "{{.State.Status}} {{if .State.Health}}{{.State.Health.Status}}{{else}}none{{end}}".to_string(),
    ];
    proof {
        assert(list.deep_view() =~= docker_health_query());
    }
    list
}

/// The word at a place, or `unknown`.
pub open spec fn word_or_unknown(list: Seq<Seq<char>>, i: int) -> Seq<char> {
    if i < list.len() {
        list[i]
    } else {
        "unknown"@
    }
}

/// The state and the health that Docker reports.
pub open spec fn container_state(stdout: Seq<char>) -> (Seq<char>, Seq<char>) {
    let parts = words(first_line(stdout));
    (word_or_unknown(parts, 0), word_or_unknown(parts, 1))
}

/// The state and the health that Docker reports.
pub fn parse_container_state(stdout: &str) -> (r: (String, String))
    ensures
        (r.0@, r.1@) == container_state(stdout@),
{
    let parts = split_words(&get_first_line(stdout));
    proof {
        assert(parts.deep_view().len() == parts@.len());
    }
    let state = if parts.len() > 0 {
        parts[0].clone()
    } else {
        "unknown".to_string()
    };
    let health = if parts.len() > 1 {
        parts[1].clone()
    } else {
        "unknown".to_string()
    };
    (state, health)
}

/// Whether a container is fine.
pub open spec fn container_is_fine(state: Seq<char>, health: Seq<char>) -> bool {
    state == "running"@ && (health == "healthy"@ || health == "none"@)
}

/// Whether an attempt shows that a container is fine, and what it shows.
pub open spec fn container_attempt(outcome: Result<CommandOutputView, Seq<char>>) -> (
    bool,
    Seq<char>,
) {
    match outcome {
        Ok(output) => if output.success {
            let found = container_state(output.stdout);
            (
                container_is_fine(found.0, found.1),
                "state="@ + found.0 + ", health="@ + found.1,
            )
        } else {
            (
                false,
                "docker inspect exited non-zero: "@ + (match output.status_code {
                    Some(code) => signed_decimal(code as int),
                    None => "-"@,
                }),
            )
        },
        Err(error) => (false, "docker inspect failed: "@ + error),
    }
}

/// Whether an attempt shows that a container is fine, and what it shows.
pub fn judge_container(outcome: &Result<CommandOutput, String>) -> (r: (bool, String))
    ensures
        (r.0, r.1@) == container_attempt(
            match *outcome {
                Ok(output) => Ok(output.deep_view()),
                Err(error) => Err(error@),
            },
        ),
{
    match outcome {
        Ok(output) => if output.success {
            let (state, health) = parse_container_state(&output.stdout);
            let fine = same(&state, "running") && (same(&health, "healthy") || same(
                &health,
                "none",
            ));
            (fine, cat4("state=", &state, ", health=", &health))
        } else {
            let code = match output.status_code {
                Some(code) => signed_text(code as i64),
                None => "-".to_string(),
            };
            (false, cat2("docker inspect exited non-zero: ", &code))
        },
        Err(error) => (false, cat2("docker inspect failed: ", error)),
    }
}

/// What came of checking a container: what its last attempt shows.
pub open spec fn container_health(container: Seq<char>, last: Option<(bool, Seq<char>)>) ->
    DeployHealthCheckResultView {
    match last {
        Some(attempt) => health("docker_container"@, container, attempt.0, attempt.1),
        None => health("docker_container"@, container, false, "docker inspect did not run"@),
    }
}

/// What came of checking a container. The attempts end with the first that shows
/// that it is fine; the last one is given.
pub fn check_docker_container_health(container: &str, last: Option<(bool, String)>) -> (r:
    DeployHealthCheckResult)
    ensures
        r.deep_view() == container_health(
            container@,
            match last {
                Some(attempt) => Some((attempt.0, attempt.1@)),
                None => None,
            },
        ),
{
    match last {
        Some((fine, detail)) => make_health("docker_container", container, fine, detail),
        None => make_health(
            "docker_container",
            container,
            false,
            "docker inspect did not run".to_string(),
        ),
    }
}

// ---------------------------------------------------------------------------
// Ports and routes
// ---------------------------------------------------------------------------

/// Where a port is tried.
pub open spec fn port_target(port: u16) -> Seq<char> {
    "127.0.0.1:"@ + decimal(port as nat)
}

/// What came of checking a port.
pub open spec fn port_health(port: u16, connected: bool, error: Option<Seq<char>>) ->
    DeployHealthCheckResultView {
    health(
        "port_listening"@,
        port_target(port),
        connected,
        if connected {
            "tcp connect succeeded"@
        } else {
            "tcp connect failed: "@ + text_or(error, "unknown"@)
        },
    )
}

/// What came of checking a port: whether a connection was made, and the last error.
pub fn check_port_listening(port: u16, connected: bool, error: Option<&str>) -> (r:
    DeployHealthCheckResult)
    ensures
        r.deep_view() == port_health(port, connected, error.deep_view()),
{
    let target = cat2("127.0.0.1:", &decimal_text(port as u64));
    let detail = if connected {
        "tcp connect succeeded".to_string()
    } else {
        cat2("tcp connect failed: ", or_text(error, "unknown"))
    };
    make_health("port_listening", &target, connected, detail)
}

/// The status code in the first line of an HTTP response.
pub open spec fn http_code(line: Seq<char>) -> Option<u16> {
    let parts = words(line);
    if parts.len() < 2 || !begins(parts[0], "HTTP/"@) {
        None
    } else {
        small_number(parts[1])
    }
}

/// A number of at most sixteen bits.
pub open spec fn small_number(text: Seq<char>) -> Option<u16> {
    match parsed_unsigned(text, u16::MAX as nat) {
        Some(n) => Some(n as u16),
        None => None,
    }
}

/// A number of at most sixteen bits.
pub fn parse_small_number(text: &str) -> (r: Option<u16>)
    ensures
        r == small_number(text@),
{
    match parse_unsigned(text, 65535) {
        Some(n) => Some(n as u16),
        None => None,
    }
}

/// The status code in the first line of an HTTP response.
pub fn parse_http_status_code(status_line: &str) -> (r: Option<u16>)
    ensures
        r == http_code(status_line@),
{
    let parts = split_words(status_line);
    proof {
        assert(parts.deep_view().len() == parts@.len());
        if parts@.len() >= 2 {
            assert(parts.deep_view()[0] == parts@[0]@);
            assert(parts.deep_view()[1] == parts@[1]@);
        }
    }
    if parts.len() < 2 || !starts_with(&parts[0], "HTTP/") {
        return None;
    }
    parse_small_number(&parts[1])
}

/// Where a route is tried.
pub open spec fn route_target(host: Seq<char>, address: Seq<char>, port: u16) -> Seq<char> {
    host + "@"@ + address + ":"@ + decimal(port as nat)
}

/// Where a route is tried.
pub fn route_probe_target(host: &str, address: &str, port: u16) -> (r: String)
    ensures
        r@ == route_target(host@, address@, port),
{
    cat5(host, "@", address, ":", &decimal_text(port as u64))
}

/// The request that tries a route.
pub open spec fn route_request(host: Seq<char>) -> Seq<char> {
    "GET / HTTP/1.1\r\nHost: "@ + host
        + "\r\nConnection: close\r\nUser-Agent: opsctl-health\r\n\r\n"@
}

/// The request that tries a route.
pub fn route_probe_request(host: &str) -> (r: String)
    ensures
        r@ == route_request(host@),
{
    cat3(
        "GET / HTTP/1.1\r\nHost: ",
        host,
        "\r\nConnection: close\r\nUser-Agent: opsctl-health\r\n\r\n",
    )
}

/// What came of trying a route.
#[derive(Debug)]
pub enum RouteProbe {
    /// The address cannot be used.
    BadAddress,
    /// There was an answer.
    Answer(String),
    /// There was none; the last error.
    Failed(Option<String>),
}

/// View of [`RouteProbe`].
pub enum RouteProbeView {
    BadAddress,
    Answer(Seq<char>),
    Failed(Option<Seq<char>>),
}

impl DeepView for RouteProbe {
    type V = RouteProbeView;

    open spec fn deep_view(&self) -> RouteProbeView {
        match *self {
            RouteProbe::BadAddress => RouteProbeView::BadAddress,
            RouteProbe::Answer(text) => RouteProbeView::Answer(text@),
            RouteProbe::Failed(error) => RouteProbeView::Failed(error.deep_view()),
        }
    }
}

/// What came of checking a route: any answer below 500 will do.
pub open spec fn route_health(target: Seq<char>, probe: RouteProbeView) ->
    DeployHealthCheckResultView {
    match probe {
        RouteProbeView::BadAddress => health(
            "caddy_http"@,
            target,
            false,
            "invalid Caddy probe socket address"@,
        ),
        RouteProbeView::Answer(text) => {
            let line = first_line(text);
            match http_code(line) {
                Some(code) => health(
                    "caddy_http"@,
                    target,
                    100 <= code < 500,
                    "http status "@ + decimal(code as nat),
                ),
                None => health(
                    "caddy_http"@,
                    target,
                    false,
                    "invalid HTTP response: "@ + line,
                ),
            }
        },
        RouteProbeView::Failed(error) => health(
            "caddy_http"@,
            target,
            false,
            "HTTP probe failed: "@ + text_or(error, "unknown"@),
        ),
    }
}

/// What came of checking a route.
pub fn check_caddy_route_http(target: &str, probe: &RouteProbe) -> (r: DeployHealthCheckResult)
    ensures
        r.deep_view() == route_health(target@, probe.deep_view()),
{
    match probe {
        RouteProbe::BadAddress => make_health(
            "caddy_http",
            target,
            false,
            "invalid Caddy probe socket address".to_string(),
        ),
        RouteProbe::Answer(text) => {
            let line = get_first_line(text);
            match parse_http_status_code(&line) {
                Some(code) => make_health(
                    "caddy_http",
                    target,
                    100 <= code && code < 500,
                    cat2("http status ", &decimal_text(code as u64)),
                ),
                None => make_health(
                    "caddy_http",
                    target,
                    false,
                    cat2("invalid HTTP response: ", &line),
                ),
            }
        },
        RouteProbe::Failed(error) => make_health(
            "caddy_http",
            target,
            false,
            cat2("HTTP probe failed: ", or_text(as_text(error), "unknown")),
        ),
    }
}

// ---------------------------------------------------------------------------
// Sites and settings
// ---------------------------------------------------------------------------

/// How many files of a site are looked at.
pub const SITE_FILES_CHECKED: usize = 64;

/// What counting the files of a site that are in place says.
pub open spec fn site_verdict(checked: nat) -> Result<Seq<char>, Seq<char>> {
    if checked >= SITE_FILES_CHECKED {
        Ok("static site marker and first 64 file(s) verified"@)
    } else if checked == 0 {
        Err("static site source contains no files to verify"@)
    } else {
        Ok("static site marker and "@ + decimal(checked) + " file(s) verified"@)
    }
}

/// What counting the files of a site that are in place says.
pub fn judge_site(checked: usize) -> (r: Result<String, String>)
    ensures
        match site_verdict(checked as nat) {
            Ok(detail) => r is Ok && r->Ok_0@ == detail,
            Err(error) => r is Err && r->Err_0@ == error,
        },
{
    if checked >= SITE_FILES_CHECKED {
        Ok("static site marker and first 64 file(s) verified".to_string())
    } else if checked == 0 {
        Err("static site source contains no files to verify".to_string())
    } else {
        Ok(cat3("static site marker and ", &count_text(checked), " file(s) verified"))
    }
}

/// What came of an entry of a site.
#[derive(Debug, Clone, Copy, PartialEq, Eq, Structural)]
pub enum SiteStep {
    /// It is a directory: look into it.
    Enter,
    /// It is in place.
    Verified,
    /// It is in place, and enough files were looked at.
    Enough,
}

/// Why a site is not checked at all.
pub fn refuse_site_check(destination: EntryKind, marker: EntryKind) -> (r: Option<String>)
    ensures
        r.deep_view() == (if destination != EntryKind::Dir {
            Some("static site destination is not a safe directory"@)
        } else if marker != EntryKind::File {
            Some("static site marker is missing or unsafe"@)
        } else {
            None
        }),
{
    if destination != EntryKind::Dir {
        Some("static site destination is not a safe directory".to_string())
    } else if marker != EntryKind::File {
        Some("static site marker is missing or unsafe".to_string())
    } else {
        None
    }
}

/// What is wrong with an entry of a site, or with its copy.
pub open spec fn site_entry_error(
    path: Seq<char>,
    kind: EntryKind,
    target: Seq<char>,
    copy: Option<EntryKind>,
) -> Option<Seq<char>> {
    if kind == EntryKind::Symlink {
        Some("static site source contains symlink: "@ + path)
    } else if kind == EntryKind::Dir {
        None
    } else if kind != EntryKind::File {
        Some("static site source contains non-regular file: "@ + path)
    } else if copy is None {
        Some("missing synced static site file "@ + target)
    } else if copy->0 != EntryKind::File {
        Some("synced static site target is not a regular file: "@ + target)
    } else {
        None
    }
}

/// Looks at one entry of a site and at its copy, after `checked` files.
pub fn check_site_entry(
    checked: &mut usize,
    path: &str,
    kind: EntryKind,
    target: &str,
    copy: Option<EntryKind>,
) -> (r: Result<SiteStep, String>)
    requires
        *old(checked) < SITE_FILES_CHECKED,
    ensures
        match site_entry_error(path@, kind, target@, copy) {
            Some(words) => r is Err && r->Err_0@ == words && *final(checked) == *old(checked),
            None => r == Ok::<SiteStep, String>(
                if kind == EntryKind::Dir {
                    SiteStep::Enter
                } else if *old(checked) + 1 >= SITE_FILES_CHECKED {
                    SiteStep::Enough
                } else {
                    SiteStep::Verified
                },
            ) && *final(checked) == *old(checked) + (if kind == EntryKind::Dir {
                0int
            } else {
                1int
            }),
        },
{
    if kind == EntryKind::Symlink {
        return Err(cat2("static site source contains symlink: ", path));
    }
    if kind == EntryKind::Dir {
        return Ok(SiteStep::Enter);
    }
    if kind != EntryKind::File {
        return Err(cat2("static site source contains non-regular file: ", path));
    }
    match copy {
        Some(copied) => if copied != EntryKind::File {
            return Err(cat2("synced static site target is not a regular file: ", target));
        },
        None => {
            return Err(cat2("missing synced static site file ", target));
        },
    }
    *checked = *checked + 1;
    if *checked >= SITE_FILES_CHECKED {
        Ok(SiteStep::Enough)
    } else {
        Ok(SiteStep::Verified)
    }
}

/// What came of checking a site: the details, or what is wrong.
pub fn check_static_site_sync_health(destination: &str, outcome: &Result<String, String>) -> (r:
    DeployHealthCheckResult)
    ensures
        r.deep_view() == health(
            "static_site_files"@,
            destination@,
            outcome is Ok,
            match *outcome {
                Ok(detail) => detail@,
                Err(error) => error@,
            },
        ),
{
    match outcome {
        Ok(detail) => make_health("static_site_files", destination, true, detail.clone()),
        Err(error) => make_health("static_site_files", destination, false, error.clone()),
    }
}

/// A setting that is a number, within bounds, or else the usual value.
pub open spec fn bounded_setting(raw: Option<Seq<char>>, low: u64, high: u64, usual: u64) -> u64 {
    match raw {
        Some(text) => match parsed_unsigned(text, u64::MAX as nat) {
            Some(n) => if low <= n <= high {
                n as u64
            } else {
                usual
            },
            None => usual,
        },
        None => usual,
    }
}

/// A setting that is a number, within bounds, or else the usual value.
pub fn read_setting(raw: Option<&str>, low: u64, high: u64, usual: u64) -> (r: u64)
    ensures
        r == bounded_setting(raw.deep_view(), low, high, usual),
{
    match raw {
        Some(text) => match parse_unsigned(text, u64::MAX) {
            Some(n) => if low <= n && n <= high {
                n
            } else {
                usual
            },
            None => usual,
        },
        None => usual,
    }
}

/// How long an attempt may take, in milliseconds.
pub fn health_timeout(raw: Option<&str>) -> (r: u64)
    ensures
        r == bounded_setting(raw.deep_view(), 0, u64::MAX, 750),
{
    read_setting(raw, 0, u64::MAX, 750)
}

/// How many attempts are made.
pub fn health_retries(raw: Option<&str>) -> (r: u64)
    ensures
        r == bounded_setting(raw.deep_view(), 1, 20, 3),
        1 <= r <= 20,
{
    read_setting(raw, 1, 20, 3)
}

/// How long to wait after an attempt, in milliseconds.
pub fn health_retry_delay_ms(raw: Option<&str>) -> (r: u64)
    ensures
        r == bounded_setting(raw.deep_view(), 0, 10000, 100),
        r <= 10000,
{
    read_setting(raw, 0, 10000, 100)
}

// ---------------------------------------------------------------------------
// All checks
// ---------------------------------------------------------------------------

/// Whether a check is tried once more: it did not turn out well, and was tried less
/// often than it may be.
pub fn goes_on(attempts: u64, tries: u64, fine: bool) -> (r: bool)
    ensures
        r == (!fine && attempts < tries),
{
    !fine && attempts < tries
}

/// How many checks failed.
pub open spec fn failed_checks(checks: Seq<DeployHealthCheckResultView>) -> nat {
    tally(checks, |c: DeployHealthCheckResultView| c.status == "failed"@)
}

/// What came of all checks.
pub open spec fn health_outcome(
    operation: DeployOperationView,
    checks: Seq<DeployHealthCheckResultView>,
) -> DeployOperationResultView {
    let failed = failed_checks(checks);
    DeployOperationResultView {
        health_checks: checks,
        rollback_suggestion: if failed > 0 {
            Some(
                "Inspect this deploy journal, keep registry write-back stopped, and run rollback --dry-run with the deployment snapshot if one was used."@,
            )
        } else {
            None
        },
        ..bare_result(
            operation,
            if failed > 0 {
                "failed"@
            } else {
                "success"@
            },
            if failed > 0 {
                Some(1)
            } else {
                Some(0)
            },
            Some(
                if checks.len() == 0 {
                    "post-deploy health checks had no declared targets"@
                } else if failed == 0 {
                    "post-deploy health checks passed: "@ + decimal(checks.len()) + " check(s)"@
                } else {
                    "post-deploy health checks failed: "@ + decimal(failed) + "/"@ + decimal(
                        checks.len(),
                    ) + " check(s)"@
                },
            ),
        )
    }
}

/// What came of all checks.
pub fn execute_post_deploy_health_check(
    operation: &DeployOperation,
    checks: Vec<DeployHealthCheckResult>,
) -> (r: DeployOperationResult)
    ensures
        r.deep_view() == health_outcome(operation.deep_view(), checks.deep_view()),
{
    let failed = count_where(
        &checks,
        |c: &DeployHealthCheckResult| -> (b: bool)
            ensures
                b == (c.deep_view().status == "failed"@)
            { same(&c.status, "failed") },
        Ghost(|c: DeployHealthCheckResultView| c.status == "failed"@),
    );
    proof {
        assert(checks.deep_view().len() == checks@.len());
        lemma_tally_bound(
            checks.deep_view(),
            |c: DeployHealthCheckResultView| c.status == "failed"@,
        );
    }
    let message = if checks.len() == 0 {
        "post-deploy health checks had no declared targets".to_string()
    } else if failed == 0 {
        cat3(
            "post-deploy health checks passed: ",
            &count_text(checks.len()),
            " check(s)",
        )
    } else {
        cat5(
            "post-deploy health checks failed: ",
            &count_text(failed),
            "/",
            &count_text(checks.len()),
            " check(s)",
        )
    };
    let mut r = if failed > 0 {
        make_result(operation, "failed", Some(1), Some(message))
    } else {
        make_result(operation, "success", Some(0), Some(message))
    };
    r.health_checks = checks;
    if failed > 0 {
        r.rollback_suggestion = Some(
            "Inspect this deploy journal, keep registry write-back stopped, and run rollback --dry-run with the deployment snapshot if one was used.".to_string(),
        );
    }
    r
}

// ---------------------------------------------------------------------------
// Laws
// ---------------------------------------------------------------------------

/// The checks fail the deploy if and only if one of them failed, and only then is a
/// rollback suggested.
pub proof fn law_one_failed_check_fails_the_deploy(
    operation: DeployOperationView,
    checks: Seq<DeployHealthCheckResultView>,
)
    ensures
        completed(health_outcome(operation, checks)) <==> forall|i: int|
            0 <= i < checks.len() ==> (#[trigger] checks[i]).status != "failed"@,
        health_outcome(operation, checks).rollback_suggestion is Some <==> !completed(
            health_outcome(operation, checks),
        ),
{
    reveal_strlit("success");
    reveal_strlit("failed");
    reveal_strlit("skipped");
    assert("success"@.len() == 7);
    assert("failed"@.len() == 6);
    assert("skipped"@.len() == 7);
    lemma_none_failed(checks);
}

proof fn lemma_none_failed(checks: Seq<DeployHealthCheckResultView>)
    ensures
        failed_checks(checks) == 0 <==> forall|i: int|
            0 <= i < checks.len() ==> (#[trigger] checks[i]).status != "failed"@,
    decreases checks.len(),
{
    if checks.len() > 0 {
        let d = checks.drop_last();
        lemma_none_failed(d);
        assert(checks[checks.len() - 1] == checks.last());
        if failed_checks(checks) == 0 {
            assert forall|i: int| 0 <= i < checks.len() implies (#[trigger] checks[i]).status
                != "failed"@ by {
                if i < d.len() {
                    assert(d[i] == checks[i]);
                }
            }
        } else if checks.last().status != "failed"@ {
            let i = choose|i: int| 0 <= i < d.len() && (#[trigger] d[i]).status == "failed"@;
            assert(checks[i] == d[i]);
        }
    }
}

/// What is checked after a deploy is every container, reserved port, host and site of
/// the plan whose kind of check the plan does not switch off, and nothing else.
pub proof fn law_what_is_checked(plan: DeployPlanView, t: HealthTargetView)
    ensures
        health_targets(plan).contains(t) <==> match t {
            HealthTargetView::Container(name) => plan.changes.health.docker != Some(false)
                && plan.changes.docker.containers.contains(name),
            HealthTargetView::Port(port) => plan.changes.health.ports != Some(false)
                && plan.changes.ports.reserve.contains(port),
            HealthTargetView::Route(host) => plan.changes.health.caddy != Some(false) && exists|
                i: int,
            |
                0 <= i < plan.changes.caddy.routes.len() && (
                #[trigger] plan.changes.caddy.routes[i]).host == host,
            HealthTargetView::Site(source, destination) => plan.changes.health.static_site != Some(
                false,
            ) && exists|i: int|
                0 <= i < plan.changes.static_site.sync.len() && (
                #[trigger] plan.changes.static_site.sync[i]).source == source
                    && plan.changes.static_site.sync[i].destination == destination,
        },
{
    let h = plan.changes.health;
    let containers = plan.changes.docker.containers;
    let ports = plan.changes.ports.reserve;
    let routes = plan.changes.caddy.routes;
    let sites = plan.changes.static_site.sync;
    let fa = |name: Seq<char>| HealthTargetView::Container(name);
    let fb = |port: u16| HealthTargetView::Port(port);
    let fc = |route: CaddyRouteChangeView| HealthTargetView::Route(route.host);
    let fd = |sync: StaticSiteSyncView| HealthTargetView::Site(sync.source, sync.destination);
    let a = if_wanted(category_enabled(h.docker), containers.map_values(fa));
    let b = if_wanted(category_enabled(h.ports), ports.map_values(fb));
    let c = if_wanted(category_enabled(h.caddy), routes.map_values(fc));
    let d = if_wanted(category_enabled(h.static_site), sites.map_values(fd));
    law_either_list(a, b, t);
    law_either_list(a + b, c, t);
    law_either_list(a + b + c, d, t);
    lemma_image(containers, fa, t);
    lemma_image(ports, fb, t);
    lemma_image(routes, fc, t);
    lemma_image(sites, fd, t);
    match t {
        HealthTargetView::Container(name) => {
            if containers.contains(name) {
                let i = choose|i: int| 0 <= i < containers.len() && containers[i] == name;
                assert(fa(containers[i]) == t);
            }
        },
        HealthTargetView::Port(port) => {
            if ports.contains(port) {
                let i = choose|i: int| 0 <= i < ports.len() && ports[i] == port;
                assert(fb(ports[i]) == t);
            }
        },
        HealthTargetView::Route(host) => {
            if exists|i: int| 0 <= i < routes.len() && (#[trigger] routes[i]).host == host {
                let i = choose|i: int| 0 <= i < routes.len() && (#[trigger] routes[i]).host == host;
                assert(fc(routes[i]) == t);
            }
        },
        HealthTargetView::Site(source, destination) => {
            if exists|i: int|
                0 <= i < sites.len() && (#[trigger] sites[i]).source == source
                    && sites[i].destination == destination {
                let i = choose|i: int|
                    0 <= i < sites.len() && (#[trigger] sites[i]).source == source
                        && sites[i].destination == destination;
                assert(fd(sites[i]) == t);
            }
        },
    }
}

proof fn lemma_image<A>(s: Seq<A>, f: spec_fn(A) -> HealthTargetView, t: HealthTargetView)
    ensures
        s.map_values(f).contains(t) <==> exists|i: int| 0 <= i < s.len() && f(#[trigger] s[i]) == t,
{
    if s.map_values(f).contains(t) {
        let i = choose|i: int| 0 <= i < s.map_values(f).len() && s.map_values(f)[i] == t;
        assert(f(s[i]) == t);
    }
    if exists|i: int| 0 <= i < s.len() && f(#[trigger] s[i]) == t {
        let i = choose|i: int| 0 <= i < s.len() && f(#[trigger] s[i]) == t;
        assert(s.map_values(f)[i] == t);
    }
}

/// A container is fine exactly where the command succeeded and said that it runs and
/// is healthy, or runs and has no health check.
pub proof fn law_fine_containers(container: Seq<char>, outcome: Result<CommandOutputView, Seq<char>>)
    ensures
        container_health(container, Some(container_attempt(outcome))).status == "success"@ <==> {
            &&& outcome is Ok
            &&& outcome->Ok_0.success
            &&& ({
                let said = words(first_line(outcome->Ok_0.stdout));
                said.len() >= 2 && said[0] == "running"@ && (said[1] == "healthy"@ || said[1]
                    == "none"@)
            })
        },
        container_health(container, None).status == "failed"@,
        container_health(container, Some(container_attempt(outcome))).target == container,
        container_health(container, Some(container_attempt(outcome))).status == "success"@
            || container_health(container, Some(container_attempt(outcome))).status == "failed"@,
{
    lemma_outcome_words();
}

proof fn lemma_outcome_words()
    ensures
        "success"@ != "failed"@,
        "unknown"@ != "running"@ && "unknown"@ != "healthy"@ && "unknown"@ != "none"@,
{
    reveal_strlit("success");
    reveal_strlit("failed");
    reveal_strlit("unknown");
    reveal_strlit("running");
    reveal_strlit("healthy");
    reveal_strlit("none");
    assert("success"@.len() == 7 && "failed"@.len() == 6);
    assert("unknown"@[0] == 'u' && "running"@[0] == 'r' && "healthy"@[0] == 'h' && "none"@[0]
        == 'n');
}

/// A port is fine exactly where a connection to it succeeds.
pub proof fn law_fine_ports(port: u16, connected: bool, error: Option<Seq<char>>)
    ensures
        port_health(port, connected, error).status == "success"@ <==> connected,
        port_health(port, connected, error).status == "failed"@ <==> !connected,
        port_health(port, connected, error).target == "127.0.0.1:"@ + decimal(port as nat),
{
    lemma_outcome_words();
}

/// A route is fine exactly where the first line of the answer has a word that begins
/// with `HTTP/` and then a number from 100 to 499.
pub proof fn law_fine_routes(target: Seq<char>, probe: RouteProbeView)
    ensures
        route_health(target, probe).status == "success"@ <==> (probe matches RouteProbeView::Answer(
            text,
        ) && {
            let said = words(first_line(text));
            said.len() >= 2 && begins(said[0], "HTTP/"@) && parsed_unsigned(
                said[1],
                u16::MAX as nat,
            ) is Some && 100 <= parsed_unsigned(said[1], u16::MAX as nat)->0 <= 499
        }),
        route_health(target, probe).status == "success"@ || route_health(target, probe).status
            == "failed"@,
        route_health(target, probe).target == target,
{
    lemma_outcome_words();
}

/// A site is fine where at least one file of it was checked; a file of it is missed
/// unless the copy is a regular file, and its source may hold only files and
/// directories.
pub proof fn law_fine_sites(
    checked: nat,
    path: Seq<char>,
    kind: EntryKind,
    target: Seq<char>,
    copy: Option<EntryKind>,
)
    ensures
        site_verdict(checked) is Ok <==> checked > 0,
        site_entry_error(path, kind, target, copy) is None <==> kind == EntryKind::Dir || kind
            == EntryKind::File && copy == Some(EntryKind::File),
{
}

/// A setting is the number that it writes where that is allowed, and the usual one
/// otherwise.
pub proof fn law_settings_are_bounded(raw: Option<Seq<char>>, low: u64, high: u64, usual: u64)
    requires
        low <= usual <= high,
    ensures
        low <= bounded_setting(raw, low, high, usual) <= high,
        raw is None ==> bounded_setting(raw, low, high, usual) == usual,
        raw is Some ==> match parsed_unsigned(raw->0, u64::MAX as nat) {
            Some(n) => low <= n <= high ==> bounded_setting(raw, low, high, usual) == n,
            None => bounded_setting(raw, low, high, usual) == usual,
        },
{
}

/// The step that checks what was deployed succeeds exactly where no check failed, and
/// fails otherwise; it keeps every check, and names its step.
pub proof fn law_what_the_checks_come_to(
    operation: DeployOperationView,
    checks: Seq<DeployHealthCheckResultView>,
)
    ensures
        ({
            let result = health_outcome(operation, checks);
            &&& result.status == "success"@ <==> forall|i: int|
                0 <= i < checks.len() ==> (#[trigger] checks[i]).status != "failed"@
            &&& result.status == "success"@ || result.status == "failed"@
            &&& result.status_code == (if result.status == "success"@ {
                Some(0i32)
            } else {
                Some(1i32)
            })
            &&& result.health_checks == checks
            &&& result.order == operation.order
            &&& result.kind == operation.kind
            &&& result.target == operation.target
        }),
{
    lemma_outcome_words();
    let p = |c: DeployHealthCheckResultView| c.status == "failed"@;
    law_tally(checks, Seq::empty(), p);
    if failed_checks(checks) == 0 {
        assert forall|i: int| 0 <= i < checks.len() implies (#[trigger] checks[i]).status
            != "failed"@ by {
            if p(checks[i]) {
                assert(tally(checks, p) > 0);
            }
        }
    }
}

/// What a check asks: a container for its state, and a host, under its own name, for its
/// root.
pub proof fn law_what_checks_ask(host: Seq<char>, address: Seq<char>, port: u16)
    ensures
        docker_health_query()[0] == "inspect"@,
        begins(route_request(host), "GET / HTTP/1.1\r\nHost: "@ + host + "\r\n"@),
        finishes(route_request(host), "\r\n\r\n"@),
        route_target(host, address, port) == host + "@"@ + address + ":"@ + decimal(port as nat),
{
    reveal_strlit("\r\n");
    reveal_strlit("\r\n\r\n");
    reveal_strlit("\r\nConnection: close\r\nUser-Agent: opsctl-health\r\n\r\n");
    let tail = "\r\nConnection: close\r\nUser-Agent: opsctl-health\r\n\r\n"@;
    let head = "GET / HTTP/1.1\r\nHost: "@ + host;
    let n = tail.len() as int;
    assert(tail =~= "\r\n"@ + tail.skip(2));
    assert(tail =~= tail.take(n - 4) + "\r\n\r\n"@);
    law_parts_are_found(Seq::empty(), head + "\r\n"@, tail.skip(2));
    assert(route_request(host) =~= (head + "\r\n"@) + tail.skip(2));
    law_parts_are_found(head + tail.take(n - 4), "\r\n\r\n"@, Seq::empty());
    assert(route_request(host) =~= (head + tail.take(n - 4)) + "\r\n\r\n"@);
}

} // verus!
