//! What `caddy adapt` and Caddy's admin endpoint say.

use vstd::prelude::*;
use crate::caddy::adapt::{
    capped, collect_caddy_hosts, count_caddy_routes, get_servers, hosts_in, member_names, names_in,
    normalize_caddy_routes, normalize_caddy_tls_policies, policies_of, routes_count, routes_of,
    servers_of,
};
use crate::caddy::conflicts::{
    caddy_route_conflicts, caddy_tls_policy_conflicts, policy_conflicts, route_conflicts,
};
use crate::caddy::types::{
    CaddyAdaptReport, CaddyAdaptReportView, CaddyAdminReport, CaddyAdminReportView,
    CaddyNormalizedRouteView, CaddyRouteConflict, CaddyRouteConflictView, CaddyTlsPolicyView,
};
use crate::command::{CommandOutput, CommandOutputView};
use crate::deploy::health::{parse_small_number, small_number};
use crate::each::map_each;
use crate::json::{Json, JsonView, json_get, json_read, member_of, parse_json};
use crate::list::{
    extend, includes, law_either_list, law_noted, law_sorted_set, note, noted, sorted_set,
    unique_sorted,
};
use crate::number::{decimal, decimal_text, parsed_unsigned};
use crate::outside::{lossy_text, utf8_lossy};
use crate::text::{
    after_prefix, begins, cat2, cat3, cat4, chars_of, finishes, holds, law_found_parts_are_there,
    law_parts_are_found, or_text, stands_at, starts_with, strip_prefix, text_between, text_or,
};
use crate::words::{
    find_from, first_line, get_first_line, lemma_first_place, lemma_place_from, place_from,
    split_words, words,
};

verus! {

broadcast use {vstd::seq::group_seq_axioms, vstd::string::group_string_axioms};

// ---------------------------------------------------------------------------
// caddy adapt
// ---------------------------------------------------------------------------

/// An attempt that failed.
pub open spec fn failed_adapt(
    program: Seq<char>,
    status_code: Option<i32>,
    error: Seq<char>,
) -> CaddyAdaptReportView {
    CaddyAdaptReportView {
        attempted: true,
        ok: false,
        program,
        status_code,
        json_valid: false,
        apps: Seq::empty(),
        http_servers: Seq::empty(),
        route_count: 0,
        normalized_hosts: Seq::empty(),
        normalized_routes: Seq::empty(),
        tls_policies: Seq::empty(),
        conflicts: Seq::empty(),
        warnings: Seq::empty(),
        error: Some(error),
    }
}

/// An attempt that failed.
pub fn caddy_adapt_failure(program: &str, status_code: Option<i32>, error: String) -> (r:
    CaddyAdaptReport)
    ensures
        r.deep_view() == failed_adapt(program@, status_code, error@),
{
    let report = CaddyAdaptReport {
        attempted: true,
        ok: false,
        program: program.to_string(),
        status_code,
        json_valid: false,
        apps: Vec::new(),
        http_servers: Vec::new(),
        route_count: 0,
        normalized_hosts: Vec::new(),
        normalized_routes: Vec::new(),
        tls_policies: Vec::new(),
        conflicts: Vec::new(),
        warnings: Vec::new(),
        error: Some(error),
    };
    proof {
        assert(report.apps.deep_view() =~= Seq::<Seq<char>>::empty());
        assert(report.http_servers.deep_view() =~= Seq::<Seq<char>>::empty());
        assert(report.normalized_hosts.deep_view() =~= Seq::<Seq<char>>::empty());
        assert(report.normalized_routes.deep_view() =~= Seq::<CaddyNormalizedRouteView>::empty());
        assert(report.tls_policies.deep_view() =~= Seq::<CaddyTlsPolicyView>::empty());
        assert(report.conflicts.deep_view() =~= Seq::<CaddyRouteConflictView>::empty());
        assert(report.warnings.deep_view() =~= Seq::<Seq<char>>::empty());
    }
    report
}

/// The report where there is no configuration file to adapt.
pub fn caddy_adapt_missing_report(program: &str) -> (r: CaddyAdaptReport)
    ensures
        r.deep_view() == failed_adapt(
            program@,
            None,
            "Caddyfile does not exist; caddy adapt was not executed"@,
        ),
{
    caddy_adapt_failure(
        program,
        None,
        "Caddyfile does not exist; caddy adapt was not executed".to_string(),
    )
}

/// The arguments of `caddy` that adapt a configuration file.
pub open spec fn adapt_args(path: Seq<char>) -> Seq<Seq<char>> {
    seq!["adapt"@, "--config"@, path, "--pretty"@]
}

/// The arguments of `caddy` that adapt a configuration file.
pub fn caddy_adapt_args(path: &str) -> (r: Vec<String>)
    ensures
        r.deep_view() == adapt_args(path@),
{
    let args: Vec<String> = vec![
        "adapt".to_string(),
        "--config".to_string(),
        path.to_string(),
        "--pretty".to_string(),
    ];
    proof {
        assert(args.deep_view() =~= adapt_args(path@));
    }
    args
}

/// The conflicts of a configuration.
pub open spec fn conflicts_of(config: JsonView) -> Seq<CaddyRouteConflictView> {
    route_conflicts(routes_of(config)) + policy_conflicts(policies_of(config))
}

/// What an adapted configuration says.
pub open spec fn adapted(program: Seq<char>, status_code: Option<i32>, config: JsonView) ->
    CaddyAdaptReportView {
    let apps = names_in(member_of(config, "apps"@));
    CaddyAdaptReportView {
        attempted: true,
        ok: true,
        program,
        status_code,
        json_valid: true,
        apps,
        http_servers: names_in(servers_of(config)),
        route_count: capped(routes_count(config)),
        normalized_hosts: sorted_set(hosts_in(config)),
        normalized_routes: routes_of(config),
        tls_policies: policies_of(config),
        conflicts: conflicts_of(config),
        warnings: noted(!apps.contains("http"@), "caddy adapt JSON has no http app"@) + noted(
            routes_count(config) == 0,
            "caddy adapt JSON has no routes"@,
        ) + conflicts_of(config).map_values(|c: CaddyRouteConflictView| c.message),
        error: None,
    }
}

/// What an adapted configuration says.
pub fn report_adapted(program: &str, status_code: Option<i32>, config: &Json) -> (r:
    CaddyAdaptReport)
    ensures
        r.deep_view() == adapted(program@, status_code, config.deep_view()),
{
    let apps = member_names(json_get(config, "apps"));
    let http_servers = member_names(get_servers(config));
    let route_count = count_caddy_routes(config);
    let normalized_hosts = unique_sorted(collect_caddy_hosts(config));
    let normalized_routes = normalize_caddy_routes(config);
    let tls_policies = normalize_caddy_tls_policies(config);
    let mut conflicts = caddy_route_conflicts(&normalized_routes);
    let ghost first = conflicts.deep_view();
    let mut more = caddy_tls_policy_conflicts(&tls_policies);
    let ghost second = more.deep_view();
    conflicts.append(&mut more);
    proof {
        assert(conflicts.deep_view() =~= first + second);
    }
    let mut warnings: Vec<String> = Vec::new();
    proof {
        assert(warnings.deep_view() =~= Seq::<Seq<char>>::empty());
    }
    note(&mut warnings, !includes(&apps, "http"), "caddy adapt JSON has no http app");
    note(&mut warnings, route_count == 0, "caddy adapt JSON has no routes");
    let messages = map_each(
        &conflicts,
        |c: &CaddyRouteConflict| -> (t: String)
            ensures
                t.deep_view() == c.deep_view().message
            { c.message.clone() },
        Ghost(|c: CaddyRouteConflictView| c.message),
    );
    extend(&mut warnings, &messages);
    proof {
        let view = config.deep_view();
        assert(warnings.deep_view() =~= noted(
            !apps.deep_view().contains("http"@),
            "caddy adapt JSON has no http app"@,
        ) + noted(routes_count(view) == 0, "caddy adapt JSON has no routes"@) + conflicts_of(
            view,
        ).map_values(|c: CaddyRouteConflictView| c.message));
    }
    CaddyAdaptReport {
        attempted: true,
        ok: true,
        program: program.to_string(),
        status_code,
        json_valid: true,
        apps,
        http_servers,
        route_count,
        normalized_hosts,
        normalized_routes,
        tls_policies,
        conflicts,
        warnings,
        error: None,
    }
}

/// What came of `caddy adapt`.
pub open spec fn adapt_report(
    program: Seq<char>,
    outcome: Result<CommandOutputView, Seq<char>>,
    stderr_preview: Option<Seq<char>>,
) -> CaddyAdaptReportView {
    match outcome {
        Err(error) => failed_adapt(program, None, "failed to execute caddy adapt: "@ + error),
        Ok(output) => if !output.success {
            failed_adapt(
                program,
                output.status_code,
                "caddy adapt exited non-zero: "@ + text_or(stderr_preview, "stderr empty"@),
            )
        } else {
            match json_read(output.stdout) {
                Ok(config) => adapted(program, output.status_code, config),
                Err(error) => failed_adapt(
                    program,
                    output.status_code,
                    "caddy adapt output was not valid JSON: "@ + error,
                ),
            }
        },
    }
}

/// What came of `caddy adapt`, with what is kept of its error output.
pub fn inspect_caddy_adapt(
    program: &str,
    outcome: &Result<CommandOutput, String>,
    stderr_preview: Option<&str>,
) -> (r: CaddyAdaptReport)
    ensures
        r.deep_view() == adapt_report(
            program@,
            match *outcome {
                Ok(output) => Ok(output.deep_view()),
                Err(error) => Err(error@),
            },
            stderr_preview.deep_view(),
        ),
{
    match outcome {
        Err(error) => caddy_adapt_failure(
            program,
            None,
            cat2("failed to execute caddy adapt: ", error),
        ),
        Ok(output) => if !output.success {
            caddy_adapt_failure(
                program,
                output.status_code,
                cat2("caddy adapt exited non-zero: ", or_text(stderr_preview, "stderr empty")),
            )
        } else {
            match parse_json(&output.stdout) {
                Ok(config) => report_adapted(program, output.status_code, &config),
                Err(error) => caddy_adapt_failure(
                    program,
                    output.status_code,
                    cat2("caddy adapt output was not valid JSON: ", &error),
                ),
            }
        },
    }
}

// ---------------------------------------------------------------------------
// The admin endpoint
// ---------------------------------------------------------------------------

/// Whether an endpoint is on this machine.
pub open spec fn is_local_endpoint(endpoint: Seq<char>) -> bool {
    begins(endpoint, "127.0.0.1:"@) || begins(endpoint, "localhost:"@) || begins(
        endpoint,
        "[::1]:"@,
    )
}

/// Whether an endpoint is on this machine.
pub fn is_loopback_admin_endpoint(endpoint: &str) -> (r: bool)
    ensures
        r == is_local_endpoint(endpoint@),
{
    starts_with(endpoint, "127.0.0.1:") || starts_with(endpoint, "localhost:") || starts_with(
        endpoint,
        "[::1]:",
    )
}

/// Whether a text is the port of a numeric address: digits only, without a sign, that
/// give a number of at most sixteen bits.
pub open spec fn is_port(text: Seq<char>) -> bool {
    !begins(text, "+"@) && small_number(text) is Some
}

/// An endpoint on this machine as an address, if a port follows its host: a name for
/// this machine becomes a number, and a numeric address stays as it is.
pub open spec fn endpoint_address(endpoint: Seq<char>) -> Option<Seq<char>>
    recommends
        is_local_endpoint(endpoint),
{
    match after_prefix(endpoint, "localhost:"@) {
        Some(port) => match small_number(port) {
            Some(n) => Some("127.0.0.1:"@ + decimal(n as nat)),
            None => None,
        },
        None => {
            let port = match after_prefix(endpoint, "127.0.0.1:"@) {
                Some(port) => Some(port),
                None => after_prefix(endpoint, "[::1]:"@),
            };
            if port is Some && is_port(port->0) {
                Some(endpoint)
            } else {
                None
            }
        },
    }
}

/// An endpoint on this machine as an address, if a port follows its host.
pub fn admin_socket_addr(endpoint: &str) -> (r: Option<String>)
    requires
        is_local_endpoint(endpoint@),
    ensures
        r.deep_view() == endpoint_address(endpoint@),
{
    match strip_prefix(endpoint, "localhost:") {
        Some(port) => match parse_small_number(&port) {
            Some(n) => Some(cat2("127.0.0.1:", &decimal_text(n as u64))),
            None => None,
        },
        None => {
            let port = match strip_prefix(endpoint, "127.0.0.1:") {
                Some(port) => Some(port),
                None => strip_prefix(endpoint, "[::1]:"),
            };
            match port {
                Some(port) => if !starts_with(&port, "+") && parse_small_number(&port).is_some() {
                    Some(endpoint.to_string())
                } else {
                    None
                },
                None => None,
            }
        },
    }
}

/// The request for the configuration.
pub open spec fn config_request(endpoint: Seq<char>) -> Seq<char> {
    "GET /config/ HTTP/1.1\r\nHost: "@ + endpoint
        + "\r\nAccept: application/json\r\nConnection: close\r\n\r\n"@
}

/// The request for the configuration.
pub fn admin_config_request(endpoint: &str) -> (r: String)
    ensures
        r@ == config_request(endpoint@),
{
    cat3(
        "GET /config/ HTTP/1.1\r\nHost: ",
        endpoint,
        "\r\nAccept: application/json\r\nConnection: close\r\n\r\n",
    )
}

/// An attempt that failed.
pub open spec fn failed_admin(
    endpoint: Seq<char>,
    status_code: Option<u16>,
    error: Seq<char>,
) -> CaddyAdminReportView {
    CaddyAdminReportView {
        attempted: true,
        ok: false,
        endpoint,
        status_code,
        json_valid: false,
        apps: Seq::empty(),
        http_servers: Seq::empty(),
        route_count: 0,
        tls_policy_count: 0,
        warnings: Seq::empty(),
        error: Some(error),
    }
}

/// An attempt that failed.
pub fn caddy_admin_error(endpoint: &str, status_code: Option<u16>, error: String) -> (r:
    CaddyAdminReport)
    ensures
        r.deep_view() == failed_admin(endpoint@, status_code, error@),
{
    let report = CaddyAdminReport {
        attempted: true,
        ok: false,
        endpoint: endpoint.to_string(),
        status_code,
        json_valid: false,
        apps: Vec::new(),
        http_servers: Vec::new(),
        route_count: 0,
        tls_policy_count: 0,
        warnings: Vec::new(),
        error: Some(error),
    };
    proof {
        assert(report.apps.deep_view() =~= Seq::<Seq<char>>::empty());
        assert(report.http_servers.deep_view() =~= Seq::<Seq<char>>::empty());
        assert(report.warnings.deep_view() =~= Seq::<Seq<char>>::empty());
    }
    report
}

/// Why an endpoint is not asked.
pub fn refuse_admin_endpoint(endpoint: &str) -> (r: Option<CaddyAdminReport>)
    ensures
        r.deep_view() == (if !is_local_endpoint(endpoint@) {
            Some(
                failed_admin(
                    endpoint@,
                    None,
                    "Caddy Admin API endpoint must be localhost, 127.0.0.1, or [::1]"@,
                ),
            )
        } else if endpoint_address(endpoint@) is None {
            Some(
                failed_admin(endpoint@, None, "failed to parse Caddy Admin API endpoint"@),
            )
        } else {
            None
        }),
{
    if !is_loopback_admin_endpoint(endpoint) {
        return Some(
            caddy_admin_error(
                endpoint,
                None,
                "Caddy Admin API endpoint must be localhost, 127.0.0.1, or [::1]".to_string(),
            ),
        );
    }
    if admin_socket_addr(endpoint).is_none() {
        return Some(
            caddy_admin_error(
                endpoint,
                None,
                "failed to parse Caddy Admin API endpoint".to_string(),
            ),
        );
    }
    None
}

/// A response in two parts: what comes before the empty line, and what follows it.
pub open spec fn response_parts(raw: Seq<char>) -> (Seq<char>, Seq<char>) {
    match place_from(raw, "\r\n\r\n"@, 0) {
        Some(p) => (raw.take(p), raw.skip(p + 4)),
        None => (raw, Seq::empty()),
    }
}

/// A response in two parts.
pub fn split_response(raw: &str) -> (r: (String, String))
    ensures
        (r.0@, r.1@) == response_parts(raw@),
{
    let text = chars_of(raw);
    let gap = chars_of("\r\n\r\n");
    let size = text.len();
    proof {
        reveal_strlit("\r\n\r\n");
        assert("\r\n\r\n"@.len() == 4);
    }
    match find_from(&text, &gap, 0) {
        Some(p) => {
            let head = text_between(&text, 0, p);
            let body = text_between(&text, p + 4, size);
            proof {
                assert(head@ =~= raw@.take(p as int));
                assert(body@ =~= raw@.skip(p + 4));
            }
            (head, body)
        },
        None => (raw.to_string(), String::new()),
    }
}

/// The status code of a response.
pub open spec fn response_code(head: Seq<char>) -> Option<u16> {
    let parts = words(first_line(head));
    if parts.len() < 2 {
        None
    } else {
        small_number(parts[1])
    }
}

/// The status code of a response.
pub fn parse_response_code(head: &str) -> (r: Option<u16>)
    ensures
        r == response_code(head@),
{
    let parts = split_words(&get_first_line(head));
    proof {
        assert(parts.deep_view().len() == parts@.len());
    }
    if parts.len() < 2 {
        None
    } else {
        parse_small_number(&parts[1])
    }
}

/// A status code as it is written for debugging.
pub open spec fn debug_status(code: Option<u16>) -> Seq<char> {
    match code {
        Some(n) => "Some("@ + decimal(n as nat) + ")"@,
        None => "None"@,
    }
}

/// What the running configuration says.
pub open spec fn running_config(endpoint: Seq<char>, status_code: Option<u16>, config: JsonView) ->
    CaddyAdminReportView {
    let apps = names_in(member_of(config, "apps"@));
    CaddyAdminReportView {
        attempted: true,
        ok: true,
        endpoint,
        status_code,
        json_valid: true,
        apps,
        http_servers: names_in(servers_of(config)),
        route_count: capped(routes_count(config)),
        tls_policy_count: policies_of(config).len(),
        warnings: noted(!apps.contains("http"@), "Caddy Admin API config has no http app"@),
        error: None,
    }
}

/// What the running configuration says.
pub fn report_running_config(endpoint: &str, status_code: Option<u16>, config: &Json) -> (r:
    CaddyAdminReport)
    ensures
        r.deep_view() == running_config(endpoint@, status_code, config.deep_view()),
{
    let apps = member_names(json_get(config, "apps"));
    let policies = normalize_caddy_tls_policies(config);
    let mut warnings: Vec<String> = Vec::new();
    note(&mut warnings, !includes(&apps, "http"), "Caddy Admin API config has no http app");
    proof {
        assert(policies.deep_view().len() == policies@.len());
        assert(warnings.deep_view() =~= noted(
            !apps.deep_view().contains("http"@),
            "Caddy Admin API config has no http app"@,
        ));
    }
    CaddyAdminReport {
        attempted: true,
        ok: true,
        endpoint: endpoint.to_string(),
        status_code,
        json_valid: true,
        apps,
        http_servers: member_names(get_servers(config)),
        route_count: count_caddy_routes(config),
        tls_policy_count: policies.len(),
        warnings,
        error: None,
    }
}

/// What the admin endpoint's answer says.
pub open spec fn admin_report(endpoint: Seq<char>, raw: Seq<char>) -> CaddyAdminReportView {
    let parts = response_parts(raw);
    let code = response_code(parts.0);
    if code != Some(200u16) {
        failed_admin(
            endpoint,
            code,
            "Caddy Admin API returned HTTP status "@ + debug_status(code),
        )
    } else {
        match json_read(parts.1) {
            Ok(config) => running_config(endpoint, code, config),
            Err(error) => failed_admin(
                endpoint,
                code,
                "Caddy Admin API response was not valid JSON: "@ + error,
            ),
        }
    }
}

/// What the admin endpoint's answer says.
pub fn parse_caddy_admin_text(endpoint: &str, raw: &str) -> (r: CaddyAdminReport)
    ensures
        r.deep_view() == admin_report(endpoint@, raw@),
{
    let (head, body) = split_response(raw);
    let code = parse_response_code(&head);
    match code {
        Some(200) => match parse_json(&body) {
            Ok(config) => report_running_config(endpoint, code, &config),
            Err(error) => caddy_admin_error(
                endpoint,
                code,
                cat2("Caddy Admin API response was not valid JSON: ", &error),
            ),
        },
        Some(n) => caddy_admin_error(
            endpoint,
            code,
            cat4(
                "Caddy Admin API returned HTTP status ",
                "Some(",
                &decimal_text(n as u64),
                ")",
            ),
        ),
        None => caddy_admin_error(
            endpoint,
            code,
            cat2("Caddy Admin API returned HTTP status ", "None"),
        ),
    }
}

/// What the admin endpoint's answer says, from its bytes.
pub fn parse_caddy_admin_response(endpoint: &str, response: &[u8]) -> (r: CaddyAdminReport)
    ensures
        r.deep_view() == admin_report(endpoint@, utf8_lossy(response@)),
{
    parse_caddy_admin_text(endpoint, &lossy_text(response))
}

/// A step of the exchange with Caddy's admin API that can fail.
#[derive(Debug, Clone, Copy, PartialEq, Eq, Structural)]
pub enum AdminStep {
    Connect,
    Send,
    Receive,
}

/// What is said of a step that failed.
pub open spec fn step_words(step: AdminStep) -> Seq<char> {
    match step {
        AdminStep::Connect => "failed to connect to Caddy Admin API: "@,
        AdminStep::Send => "failed to write Admin API request: "@,
        AdminStep::Receive => "failed to read Admin API response: "@,
    }
}

fn words_of_step(step: AdminStep) -> (r: &'static str)
    ensures
        r@ == step_words(step),
{
    match step {
        AdminStep::Connect => "failed to connect to Caddy Admin API: ",
        AdminStep::Send => "failed to write Admin API request: ",
        AdminStep::Receive => "failed to read Admin API response: ",
    }
}

/// Where Caddy's admin API is, unless it is set elsewhere.
pub fn admin_endpoint(setting: Option<&str>) -> (r: String)
    ensures
        r@ == text_or(setting.deep_view(), "127.0.0.1:2019"@),
{
    or_text(setting, "127.0.0.1:2019").to_string()
}

/// The report on the running configuration.
pub open spec fn admin_inspection(
    endpoint: Seq<char>,
    exchange: Result<Seq<u8>, (AdminStep, Seq<char>)>,
) -> CaddyAdminReportView {
    if !is_local_endpoint(endpoint) {
        failed_admin(
            endpoint,
            None,
            "Caddy Admin API endpoint must be localhost, 127.0.0.1, or [::1]"@,
        )
    } else if endpoint_address(endpoint) is None {
        failed_admin(endpoint, None, "failed to parse Caddy Admin API endpoint"@)
    } else {
        match exchange {
            Ok(response) => admin_report(endpoint, utf8_lossy(response)),
            Err((step, words)) => failed_admin(endpoint, None, step_words(step) + words),
        }
    }
}

/// The report on the running configuration, given the response of the admin API or the
/// step that failed. The exchange counts only for an endpoint on this machine.
pub fn inspect_caddy_admin(endpoint: &str, exchange: &Result<Vec<u8>, (AdminStep, String)>) -> (r:
    CaddyAdminReport)
    ensures
        r.deep_view() == admin_inspection(
            endpoint@,
            match *exchange {
                Ok(response) => Ok(response@),
                Err(failed) => Err((failed.0, failed.1@)),
            },
        ),
{
    match refuse_admin_endpoint(endpoint) {
        Some(report) => {
            return report;
        },
        None => {},
    }
    match exchange {
        Ok(response) => parse_caddy_admin_response(endpoint, response.as_slice()),
        Err(failed) => caddy_admin_error(
            endpoint,
            None,
            cat2(words_of_step(failed.0), &failed.1),
        ),
    }
}

// ---------------------------------------------------------------------------
// Laws
// ---------------------------------------------------------------------------

/// What an exchange brought counts only for an endpoint on this machine with a port;
/// for any other endpoint the report is the same whatever came back.
pub proof fn law_only_local_ports_are_asked(
    endpoint: Seq<char>,
    one: Result<Seq<u8>, (AdminStep, Seq<char>)>,
    other: Result<Seq<u8>, (AdminStep, Seq<char>)>,
)
    requires
        !is_local_endpoint(endpoint) || endpoint_address(endpoint) is None,
    ensures
        admin_inspection(endpoint, one) == admin_inspection(endpoint, other),
        !admin_inspection(endpoint, one).ok,
{
}

/// A report is fine if and only if there was a configuration to read, and it has an
/// error otherwise.
pub proof fn law_adapt_reports_errors(
    program: Seq<char>,
    outcome: Result<CommandOutputView, Seq<char>>,
    stderr_preview: Option<Seq<char>>,
)
    ensures
        ({
            let report = adapt_report(program, outcome, stderr_preview);
            &&& report.ok <==> outcome is Ok && outcome->Ok_0.success && json_read(
                outcome->Ok_0.stdout,
            ) is Ok
            &&& report.ok <==> report.error is None
            &&& report.ok <==> report.json_valid
        }),
{
}

/// The interface is asked on this machine only: the endpoint is a local name or address,
/// a colon and a port. A local name stands for the local address.
pub proof fn law_endpoints(port: Seq<char>, endpoint: Seq<char>)
    ensures
        is_local_endpoint(endpoint) <==> {
            ||| exists|rest: Seq<char>| endpoint == #[trigger] ("127.0.0.1:"@ + rest)
            ||| exists|rest: Seq<char>| endpoint == #[trigger] ("localhost:"@ + rest)
            ||| exists|rest: Seq<char>| endpoint == #[trigger] ("[::1]:"@ + rest)
        },
        endpoint_address("localhost:"@ + port) == (match parsed_unsigned(port, u16::MAX as nat) {
            Some(n) => Some("127.0.0.1:"@ + decimal(n)),
            None => None,
        }),
        endpoint_address("127.0.0.1:"@ + port) == (if !begins(port, "+"@) && parsed_unsigned(
            port,
            u16::MAX as nat,
        ) is Some {
            Some("127.0.0.1:"@ + port)
        } else {
            None
        }),
{
    law_found_parts_are_there(endpoint, "127.0.0.1:"@);
    law_found_parts_are_there(endpoint, "localhost:"@);
    law_found_parts_are_there(endpoint, "[::1]:"@);
    law_parts_are_found(Seq::empty(), "localhost:"@, port);
    law_parts_are_found(Seq::empty(), "127.0.0.1:"@, port);
    reveal_strlit("localhost:");
    reveal_strlit("127.0.0.1:");
    let a = "127.0.0.1:"@ + port;
    assert(a[0] == '1');
    if begins(a, "localhost:"@) {
        assert(a.subrange(0, 10)[0] == 'l');
        assert(false);
    }
}

/// An answer is read where its status is 200 and what follows the empty line is JSON; a
/// running configuration is reported with its apps, servers, routes and policies.
pub proof fn law_answers(endpoint: Seq<char>, raw: Seq<char>)
    ensures
        ({
            let parts = response_parts(raw);
            let report = admin_report(endpoint, raw);
            &&& report.ok <==> response_code(parts.0) == Some(200u16) && json_read(parts.1) is Ok
            &&& report.ok <==> report.error is None
            &&& report.ok <==> report.json_valid
            &&& report.endpoint == endpoint
            &&& report.status_code == response_code(parts.0)
            &&& report.ok ==> {
                let config = json_read(parts.1)->Ok_0;
                &&& report.apps == names_in(member_of(config, "apps"@))
                &&& report.tls_policy_count == policies_of(config).len()
                &&& report.warnings.len() == 0 <==> report.apps.contains("http"@)
            }
        }),
{
}

/// The head and the body of an answer, with the empty line between them, are the answer;
/// without such a line all of it is the head.
pub proof fn law_answer_parts(raw: Seq<char>)
    ensures
        match response_parts(raw) {
            (head, body) => raw == head + "\r\n\r\n"@ + body && !holds(head, "\r\n\r\n"@) || raw
                == head && body.len() == 0 && !holds(raw, "\r\n\r\n"@),
        },
{
    reveal_strlit("\r\n\r\n");
    let gap = "\r\n\r\n"@;
    lemma_place_from(raw, gap, 0);
    lemma_first_place(raw, gap, 0);
    match place_from(raw, gap, 0) {
        Some(p) => {
            assert(stands_at(raw, gap, p));
            assert(raw =~= raw.take(p) + gap + raw.skip(p + 4));
            let head = raw.take(p);
            if holds(head, gap) {
                let i = choose|i: int| #[trigger] stands_at(head, gap, i);
                assert(head.subrange(i, i + 4) =~= raw.subrange(i, i + 4));
                assert(stands_at(raw, gap, i));
            }
        },
        None => {
            if holds(raw, gap) {
                let i = choose|i: int| #[trigger] stands_at(raw, gap, i);
                assert(stands_at(raw, gap, i));
            }
        },
    }
}

/// A configuration that was read is reported with all conflicts between its routes and
/// all between its policies, and each of them is warned of; so are a missing app and
/// missing routes.
pub proof fn law_adapted_configurations(
    program: Seq<char>,
    status_code: Option<i32>,
    config: JsonView,
    c: CaddyRouteConflictView,
)
    ensures
        ({
            let report = adapted(program, status_code, config);
            &&& report.ok
            &&& report.conflicts.contains(c) <==> route_conflicts(routes_of(config)).contains(c)
                || policy_conflicts(policies_of(config)).contains(c)
            &&& report.conflicts.contains(c) ==> report.warnings.contains(c.message)
            &&& !report.apps.contains("http"@) ==> report.warnings.contains(
                "caddy adapt JSON has no http app"@,
            )
            &&& routes_count(config) == 0 ==> report.warnings.contains(
                "caddy adapt JSON has no routes"@,
            )
            &&& report.apps.contains("http"@) && routes_count(config) > 0
                ==> report.warnings.len() == report.conflicts.len()
            &&& report.normalized_routes == routes_of(config)
            &&& report.tls_policies == policies_of(config)
            &&& forall|h: Seq<char>| #[trigger]
                report.normalized_hosts.contains(h) <==> hosts_in(config).contains(h)
        }),
{
    let report = adapted(program, status_code, config);
    let all = conflicts_of(config);
    law_either_list(
        route_conflicts(routes_of(config)),
        policy_conflicts(policies_of(config)),
        c,
    );
    law_sorted_set(hosts_in(config));
    let a = noted(!report.apps.contains("http"@), "caddy adapt JSON has no http app"@);
    let b = noted(routes_count(config) == 0, "caddy adapt JSON has no routes"@);
    let m = all.map_values(|c: CaddyRouteConflictView| c.message);
    assert(report.warnings == a + b + m);
    if all.contains(c) {
        let k = choose|k: int| 0 <= k < all.len() && all[k] == c;
        assert(m[k] == c.message);
        law_either_list(a + b, m, c.message);
    }
    let x = "caddy adapt JSON has no http app"@;
    law_either_list(a, b, x);
    law_either_list(a + b, m, x);
    law_noted(!report.apps.contains("http"@), x, x);
    let y = "caddy adapt JSON has no routes"@;
    law_either_list(a, b, y);
    law_either_list(a + b, m, y);
    law_noted(routes_count(config) == 0, y, y);
}

/// How a configuration is adapted and asked for: the file at hand, and the endpoint at hand.
pub proof fn law_requests(path: Seq<char>, endpoint: Seq<char>)
    ensures
        adapt_args(path)[0] == "adapt"@,
        adapt_args(path).contains(path),
        begins(config_request(endpoint), "GET /config/ HTTP/1.1\r\nHost: "@ + endpoint + "\r\n"@),
        finishes(config_request(endpoint), "\r\n\r\n"@),
{
    assert(adapt_args(path)[2] == path);
    reveal_strlit("\r\n");
    reveal_strlit("\r\n\r\n");
    reveal_strlit("\r\nAccept: application/json\r\nConnection: close\r\n\r\n");
    let tail = "\r\nAccept: application/json\r\nConnection: close\r\n\r\n"@;
    let head = "GET /config/ HTTP/1.1\r\nHost: "@ + endpoint;
    let n = tail.len() as int;
    assert(tail =~= "\r\n"@ + tail.skip(2));
    assert(tail =~= tail.take(n - 4) + "\r\n\r\n"@);
    law_parts_are_found(Seq::empty(), head + "\r\n"@, tail.skip(2));
    assert(config_request(endpoint) =~= (head + "\r\n"@) + tail.skip(2));
    law_parts_are_found(head + tail.take(n - 4), "\r\n\r\n"@, Seq::empty());
    assert(config_request(endpoint) =~= (head + tail.take(n - 4)) + "\r\n\r\n"@);
}

} // verus!
