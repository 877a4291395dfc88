//! Caddy's configuration file and its adapted configuration.

use opsctl::caddy::adapt::{
    collect_caddy_hosts, count_caddy_routes, normalize_caddy_routes, normalize_caddy_tls_policies,
};
use opsctl::caddy::admin::{
    admin_endpoint, admin_socket_addr, caddy_adapt_missing_report, inspect_caddy_adapt,
    inspect_caddy_admin, is_loopback_admin_endpoint, AdminStep,
};
use opsctl::caddy::conflicts::{
    caddy_route_conflicts, caddy_tls_policy_conflicts, host_covers, hosts_overlap, path_covers,
    paths_overlap,
};
use opsctl::caddy::inspect::{
    inspect_caddy_routes, parse_caddy_imports, parse_caddy_routes, refuse_caddyfile,
};
use opsctl::caddy::routes::{
    caddyfile_has_unmanaged_site, managed_caddy_route_block, refuse_caddyfile_write,
    update_caddy_route,
    validate_caddy_route_value,
};
use opsctl::command::CommandOutput;
use opsctl::entries::EntryKind;
use opsctl::json::parse_json;

fn text(s: &str) -> String {
    s.to_string()
}

#[test]
fn written_route_is_found() {
    let first = update_caddy_route("", "a.example", "127.0.0.1:1").unwrap().unwrap();
    assert!(first.contains(&managed_caddy_route_block("a.example", "127.0.0.1:1")));
    let report = parse_caddy_routes("/etc/caddy/Caddyfile", &first, &Vec::new());
    assert_eq!(report.managed_routes.len(), 1);
    assert_eq!(report.managed_routes[0].host, "a.example");
    assert_eq!(report.managed_routes[0].upstream.as_deref(), Some("127.0.0.1:1"));
    assert!(report.unmanaged_hosts.is_empty());
}

#[test]
fn writing_twice_changes_nothing() {
    let first = update_caddy_route("", "a.example", "127.0.0.1:1").unwrap().unwrap();
    assert_eq!(update_caddy_route(&first, "a.example", "127.0.0.1:1"), Ok(None));
    let moved = update_caddy_route(&first, "a.example", "127.0.0.1:2").unwrap().unwrap();
    assert!(moved.contains("127.0.0.1:2") && !moved.contains("127.0.0.1:1"));
}

#[test]
fn unmanaged_sites_are_not_touched() {
    let raw = "a.example {\n    respond \"hi\"\n}\n";
    assert!(caddyfile_has_unmanaged_site(raw, "a.example"));
    assert!(!caddyfile_has_unmanaged_site(raw, "b.example"));
    assert!(update_caddy_route(raw, "a.example", "127.0.0.1:1").is_err());
    let report = parse_caddy_routes("/c", raw, &Vec::new());
    assert_eq!(report.unmanaged_hosts, vec!["a.example"]);
}

#[test]
fn route_values_are_checked() {
    assert!(validate_caddy_route_value("a.example", "host").is_ok());
    assert_eq!(
        validate_caddy_route_value("a {", "host"),
        Err(text("invalid caddy route host"))
    );
    assert!(validate_caddy_route_value("", "upstream").is_err());
}

#[test]
fn imports_are_listed() {
    let raw = "import sites/*.caddy\nimport \"extra.caddy\"\n";
    let found = parse_caddy_imports("/etc/caddy/Caddyfile", raw, &vec![text("/etc/caddy/extra.caddy")]);
    assert_eq!(found.len(), 2);
    assert_eq!((found[0].line, found[1].line), (1, 2));
    assert_eq!(found[1].target, "extra.caddy");
    assert_eq!(found[1].exists, Some(true));
}

#[test]
fn missing_configuration_is_reported() {
    let report = inspect_caddy_routes("/c", None, &Vec::new(), None, None);
    assert!(!report.exists && report.read_only);
    assert!(report.managed_routes.is_empty());
    let adapt = caddy_adapt_missing_report("caddy");
    assert!(!adapt.ok && adapt.error.is_some());
}

const CONFIG: &str = r#"{
  "apps": {
    "http": {
      "servers": {
        "srv0": {
          "routes": [
            {"match": [{"host": ["a.example"]}], "handle": [{"handler": "reverse_proxy"}], "terminal": true},
            {"match": [{"host": ["A.EXAMPLE"]}], "handle": [{"handler": "static_response"}]},
            {"match": [{"host": ["*.b.example"], "path": ["/api/*"]}], "handle": [{"handler": "subroute", "routes": [{"handle": [{"handler": "file_server"}]}]}]}
          ]
        }
      }
    },
    "tls": {"automation": {"policies": [{"subjects": ["a.example"], "issuers": [{"module": "acme"}]}, {"subjects": ["a.example"], "issuers": [{"module": "internal"}]}]}}
  }
}"#;

#[test]
fn adapted_routes_are_normalized() {
    let config = parse_json(CONFIG).unwrap();
    let routes = normalize_caddy_routes(&config);
    assert_eq!(count_caddy_routes(&config), 4);
    assert!(routes.len() >= 3);
    assert_eq!(routes[0].hosts, vec!["a.example"]);
    assert_eq!(routes[1].hosts, vec!["a.example"]);
    assert_eq!(routes[2].paths, vec!["/api/*"]);
    for (index, route) in routes.iter().enumerate() {
        assert_eq!(route.priority.effective_order, route.order);
        assert!(index == 0 || route.id != routes[0].id);
    }
    let mut hosts = collect_caddy_hosts(&config);
    hosts.sort();
    hosts.dedup();
    assert!(hosts.contains(&text("a.example")));
}

#[test]
fn equal_routes_conflict() {
    let config = parse_json(CONFIG).unwrap();
    let conflicts = caddy_route_conflicts(&normalize_caddy_routes(&config));
    assert!(!conflicts.is_empty());
    let policies = normalize_caddy_tls_policies(&config);
    assert_eq!(policies.len(), 2);
    assert!(!caddy_tls_policy_conflicts(&policies).is_empty());
}

#[test]
fn overlap_is_symmetric() {
    let hosts = ["*", "a.example", "*.example", "b.a.example", "a.other"];
    let paths = ["*", "/", "/api/*", "/api/v1", "/other"];
    for left in hosts {
        for right in hosts {
            assert_eq!(hosts_overlap(left, right), hosts_overlap(right, left));
            if host_covers(left, right) {
                assert!(hosts_overlap(left, right));
            }
        }
    }
    for left in paths {
        for right in paths {
            assert_eq!(paths_overlap(left, right), paths_overlap(right, left));
            if path_covers(left, right) {
                assert!(paths_overlap(left, right));
            }
        }
    }
    assert!(hosts_overlap("*.example", "a.example"));
    assert!(!hosts_overlap("a.example", "a.other"));
}

#[test]
fn adapt_output_is_read() {
    let output = |success: bool, stdout: &str| {
        Ok(CommandOutput {
            success,
            status_code: Some(if success { 0 } else { 1 }),
            stdout: text(stdout),
            stderr: String::new(),
        })
    };
    let good = inspect_caddy_adapt("caddy", &output(true, CONFIG), None);
    assert!(good.ok && good.json_valid);
    assert_eq!(good.http_servers, vec!["srv0"]);
    assert_eq!(good.apps, vec!["http", "tls"]);
    let bad = inspect_caddy_adapt("caddy", &output(true, "{"), None);
    assert!(!bad.ok && !bad.json_valid && bad.error.is_some());
    let failed = inspect_caddy_adapt("caddy", &output(false, ""), Some("syntax"));
    assert!(!failed.ok && failed.error.is_some());
    let missing = inspect_caddy_adapt("caddy", &Err(text("no caddy")), None);
    assert!(missing.error.is_some_and(|words| words.contains("no caddy")));
}

#[test]
fn admin_api_stays_on_this_machine() {
    assert_eq!(admin_endpoint(None), "127.0.0.1:2019");
    assert_eq!(admin_endpoint(Some("localhost:2020")), "localhost:2020");
    assert!(is_loopback_admin_endpoint("127.0.0.1:2019"));
    assert!(!is_loopback_admin_endpoint("10.0.0.1:2019"));
    assert_eq!(admin_socket_addr("localhost:2019").as_deref(), Some("127.0.0.1:2019"));
    assert_eq!(admin_socket_addr("localhost:+80").as_deref(), Some("127.0.0.1:80"));
    assert_eq!(admin_socket_addr("127.0.0.1:2019").as_deref(), Some("127.0.0.1:2019"));
    assert_eq!(admin_socket_addr("[::1]:65535").as_deref(), Some("[::1]:65535"));
    let answer: Vec<u8> = b"HTTP/1.1 200 OK\r\n\r\n{}".to_vec();
    for endpoint in [
        "127.0.0.1:abc",
        "127.0.0.1:",
        "127.0.0.1:+80",
        "127.0.0.1:80 ",
        "127.0.0.1:65536",
        "[::1]:99999",
        "[::1]:",
        "localhost:",
        "localhost:x",
    ] {
        assert_eq!(admin_socket_addr(endpoint), None);
        let unparsed = inspect_caddy_admin(endpoint, &Ok(answer.clone()));
        assert_eq!(
            unparsed.error.as_deref(),
            Some("failed to parse Caddy Admin API endpoint")
        );
    }
    let refused = inspect_caddy_admin("10.0.0.1:2019", &Ok(Vec::new()));
    assert_eq!(
        refused.error.as_deref(),
        Some("Caddy Admin API endpoint must be localhost, 127.0.0.1, or [::1]")
    );
    let unreachable = inspect_caddy_admin(
        "127.0.0.1:2019",
        &Err((AdminStep::Connect, text("refused"))),
    );
    assert_eq!(
        unreachable.error.as_deref(),
        Some("failed to connect to Caddy Admin API: refused")
    );
    let unsent = inspect_caddy_admin("127.0.0.1:2019", &Err((AdminStep::Send, text("x"))));
    assert_eq!(unsent.error.as_deref(), Some("failed to write Admin API request: x"));
    let unread = inspect_caddy_admin("127.0.0.1:2019", &Err((AdminStep::Receive, text("x"))));
    assert_eq!(unread.error.as_deref(), Some("failed to read Admin API response: x"));
}

#[test]
fn admin_responses_are_read() {
    let mut response = b"HTTP/1.1 200 OK\r\nContent-Type: application/json\r\n\r\n".to_vec();
    response.extend(CONFIG.as_bytes());
    let report = inspect_caddy_admin("127.0.0.1:2019", &Ok(response));
    assert!(report.ok, "{:?}", report.error);
    assert_eq!(report.status_code, Some(200));
    assert_eq!(report.http_servers, vec!["srv0"]);
    assert_eq!(report.tls_policy_count, 2);
    let broken = inspect_caddy_admin(
        "127.0.0.1:2019",
        &Ok(b"HTTP/1.1 500 \xff Error\r\n\r\n{}".to_vec()),
    );
    assert!(!broken.ok);
    assert_eq!(broken.status_code, Some(500));
}

#[test]
fn linked_caddyfiles_are_not_inspected() {
    assert_eq!(refuse_caddyfile(EntryKind::File, "/etc/caddy/Caddyfile"), None);
    assert_eq!(
        refuse_caddyfile(EntryKind::Symlink, "/etc/caddy/Caddyfile").as_deref(),
        Some("refusing to inspect Caddyfile symlink: /etc/caddy/Caddyfile")
    );
    assert_eq!(
        refuse_caddyfile(EntryKind::Dir, "/etc/caddy/Caddyfile").as_deref(),
        Some("Caddyfile is not a regular file: /etc/caddy/Caddyfile")
    );
    let file = Some(EntryKind::File);
    assert_eq!(refuse_caddyfile_write("/etc/caddy/Caddyfile", file, true), None);
    assert_eq!(refuse_caddyfile_write("/etc/caddy/Caddyfile", None, true), None);
    assert_eq!(
        refuse_caddyfile_write("/etc/caddy/Caddyfile", None, false).as_deref(),
        Some("Caddyfile parent directory does not exist: /etc/caddy")
    );
    assert_eq!(
        refuse_caddyfile_write("/etc/caddy/Caddyfile", Some(EntryKind::Symlink), true).as_deref(),
        Some("refusing to write Caddyfile symlink: /etc/caddy/Caddyfile")
    );
}
