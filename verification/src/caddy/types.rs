//! Reports about Caddy.

use vstd::prelude::*;

verus! {

broadcast use {vstd::seq::group_seq_axioms, vstd::string::group_string_axioms};

/// A route that is managed here.
#[derive(Debug)]
pub struct CaddyManagedRoute {
    pub host: String,
    pub upstream: Option<String>,
}

/// View of [`CaddyManagedRoute`].
#[verifier::ext_equal]
pub struct CaddyManagedRouteView {
    pub host: Seq<char>,
    pub upstream: Option<Seq<char>>,
}

impl DeepView for CaddyManagedRoute {
    type V = CaddyManagedRouteView;

    open spec fn deep_view(&self) -> CaddyManagedRouteView {
        CaddyManagedRouteView {
            host: self.host.deep_view(),
            upstream: self.upstream.deep_view(),
        }
    }
}

/// What a route matches on besides hosts and paths.
#[derive(Debug)]
pub struct CaddyRouteMatcher {
    pub kind: String,
    pub values: Vec<String>,
}

/// View of [`CaddyRouteMatcher`].
#[verifier::ext_equal]
pub struct CaddyRouteMatcherView {
    pub kind: Seq<char>,
    pub values: Seq<Seq<char>>,
}

impl DeepView for CaddyRouteMatcher {
    type V = CaddyRouteMatcherView;

    open spec fn deep_view(&self) -> CaddyRouteMatcherView {
        CaddyRouteMatcherView {
            kind: self.kind.deep_view(),
            values: self.values.deep_view(),
        }
    }
}

impl Clone for CaddyRouteMatcher {
    fn clone(&self) -> (r: Self)
        ensures
            r.deep_view() == self.deep_view(),
    {
        CaddyRouteMatcher {
            kind: self.kind.clone(),
            values: self.values.clone(),
        }
    }
}

/// How specific a route is.
#[derive(Debug)]
pub struct CaddyRoutePriority {
    pub effective_order: usize,
    pub host_specificity: u32,
    pub path_specificity: u32,
    pub matcher_count: usize,
    pub handler_count: usize,
    pub specificity_score: u32,
    pub terminal: bool,
}

/// View of [`CaddyRoutePriority`].
#[verifier::ext_equal]
pub struct CaddyRoutePriorityView {
    pub effective_order: nat,
    pub host_specificity: u32,
    pub path_specificity: u32,
    pub matcher_count: nat,
    pub handler_count: nat,
    pub specificity_score: u32,
    pub terminal: bool,
}

impl DeepView for CaddyRoutePriority {
    type V = CaddyRoutePriorityView;

    open spec fn deep_view(&self) -> CaddyRoutePriorityView {
        CaddyRoutePriorityView {
            effective_order: self.effective_order as nat,
            host_specificity: self.host_specificity,
            path_specificity: self.path_specificity,
            matcher_count: self.matcher_count as nat,
            handler_count: self.handler_count as nat,
            specificity_score: self.specificity_score,
            terminal: self.terminal,
        }
    }
}

/// A route of the adapted configuration.
#[derive(Debug)]
pub struct CaddyNormalizedRoute {
    pub id: String,
    pub server: String,
    pub order: usize,
    pub hosts: Vec<String>,
    pub paths: Vec<String>,
    pub matchers: Vec<CaddyRouteMatcher>,
    pub handlers: Vec<String>,
    pub handle_chain: Vec<String>,
    pub priority: CaddyRoutePriority,
    pub terminal: bool,
}

/// View of [`CaddyNormalizedRoute`].
#[verifier::ext_equal]
pub struct CaddyNormalizedRouteView {
    pub id: Seq<char>,
    pub server: Seq<char>,
    pub order: nat,
    pub hosts: Seq<Seq<char>>,
    pub paths: Seq<Seq<char>>,
    pub matchers: Seq<CaddyRouteMatcherView>,
    pub handlers: Seq<Seq<char>>,
    pub handle_chain: Seq<Seq<char>>,
    pub priority: CaddyRoutePriorityView,
    pub terminal: bool,
}

impl DeepView for CaddyNormalizedRoute {
    type V = CaddyNormalizedRouteView;

    open spec fn deep_view(&self) -> CaddyNormalizedRouteView {
        CaddyNormalizedRouteView {
            id: self.id.deep_view(),
            server: self.server.deep_view(),
            order: self.order as nat,
            hosts: self.hosts.deep_view(),
            paths: self.paths.deep_view(),
            matchers: self.matchers.deep_view(),
            handlers: self.handlers.deep_view(),
            handle_chain: self.handle_chain.deep_view(),
            priority: self.priority.deep_view(),
            terminal: self.terminal,
        }
    }
}

/// A certificate policy of the adapted configuration.
#[derive(Debug)]
pub struct CaddyTlsPolicy {
    pub id: String,
    pub subjects: Vec<String>,
    pub issuers: Vec<String>,
}

/// View of [`CaddyTlsPolicy`].
#[verifier::ext_equal]
pub struct CaddyTlsPolicyView {
    pub id: Seq<char>,
    pub subjects: Seq<Seq<char>>,
    pub issuers: Seq<Seq<char>>,
}

impl DeepView for CaddyTlsPolicy {
    type V = CaddyTlsPolicyView;

    open spec fn deep_view(&self) -> CaddyTlsPolicyView {
        CaddyTlsPolicyView {
            id: self.id.deep_view(),
            subjects: self.subjects.deep_view(),
            issuers: self.issuers.deep_view(),
        }
    }
}

/// Routes or policies that get in each other's way.
#[derive(Debug)]
pub struct CaddyRouteConflict {
    pub code: String,
    pub severity: String,
    pub message: String,
    pub routes: Vec<String>,
}

/// View of [`CaddyRouteConflict`].
#[verifier::ext_equal]
pub struct CaddyRouteConflictView {
    pub code: Seq<char>,
    pub severity: Seq<char>,
    pub message: Seq<char>,
    pub routes: Seq<Seq<char>>,
}

impl DeepView for CaddyRouteConflict {
    type V = CaddyRouteConflictView;

    open spec fn deep_view(&self) -> CaddyRouteConflictView {
        CaddyRouteConflictView {
            code: self.code.deep_view(),
            severity: self.severity.deep_view(),
            message: self.message.deep_view(),
            routes: self.routes.deep_view(),
        }
    }
}

/// What `caddy adapt` makes of the configuration.
#[derive(Debug)]
pub struct CaddyAdaptReport {
    pub attempted: bool,
    pub ok: bool,
    pub program: String,
    pub status_code: Option<i32>,
    pub json_valid: bool,
    pub apps: Vec<String>,
    pub http_servers: Vec<String>,
    pub route_count: usize,
    pub normalized_hosts: Vec<String>,
    pub normalized_routes: Vec<CaddyNormalizedRoute>,
    pub tls_policies: Vec<CaddyTlsPolicy>,
    pub conflicts: Vec<CaddyRouteConflict>,
    pub warnings: Vec<String>,
    pub error: Option<String>,
}

/// View of [`CaddyAdaptReport`].
#[verifier::ext_equal]
pub struct CaddyAdaptReportView {
    pub attempted: bool,
    pub ok: bool,
    pub program: Seq<char>,
    pub status_code: Option<i32>,
    pub json_valid: bool,
    pub apps: Seq<Seq<char>>,
    pub http_servers: Seq<Seq<char>>,
    pub route_count: nat,
    pub normalized_hosts: Seq<Seq<char>>,
    pub normalized_routes: Seq<CaddyNormalizedRouteView>,
    pub tls_policies: Seq<CaddyTlsPolicyView>,
    pub conflicts: Seq<CaddyRouteConflictView>,
    pub warnings: Seq<Seq<char>>,
    pub error: Option<Seq<char>>,
}

impl DeepView for CaddyAdaptReport {
    type V = CaddyAdaptReportView;

    open spec fn deep_view(&self) -> CaddyAdaptReportView {
        CaddyAdaptReportView {
            attempted: self.attempted,
            ok: self.ok,
            program: self.program.deep_view(),
            status_code: self.status_code.deep_view(),
            json_valid: self.json_valid,
            apps: self.apps.deep_view(),
            http_servers: self.http_servers.deep_view(),
            route_count: self.route_count as nat,
            normalized_hosts: self.normalized_hosts.deep_view(),
            normalized_routes: self.normalized_routes.deep_view(),
            tls_policies: self.tls_policies.deep_view(),
            conflicts: self.conflicts.deep_view(),
            warnings: self.warnings.deep_view(),
            error: self.error.deep_view(),
        }
    }
}

/// What Caddy's admin endpoint says.
#[derive(Debug)]
pub struct CaddyAdminReport {
    pub attempted: bool,
    pub ok: bool,
    pub endpoint: String,
    pub status_code: Option<u16>,
    pub json_valid: bool,
    pub apps: Vec<String>,
    pub http_servers: Vec<String>,
    pub route_count: usize,
    pub tls_policy_count: usize,
    pub warnings: Vec<String>,
    pub error: Option<String>,
}

/// View of [`CaddyAdminReport`].
#[verifier::ext_equal]
pub struct CaddyAdminReportView {
    pub attempted: bool,
    pub ok: bool,
    pub endpoint: Seq<char>,
    pub status_code: Option<u16>,
    pub json_valid: bool,
    pub apps: Seq<Seq<char>>,
    pub http_servers: Seq<Seq<char>>,
    pub route_count: nat,
    pub tls_policy_count: nat,
    pub warnings: Seq<Seq<char>>,
    pub error: Option<Seq<char>>,
}

impl DeepView for CaddyAdminReport {
    type V = CaddyAdminReportView;

    open spec fn deep_view(&self) -> CaddyAdminReportView {
        CaddyAdminReportView {
            attempted: self.attempted,
            ok: self.ok,
            endpoint: self.endpoint.deep_view(),
            status_code: self.status_code.deep_view(),
            json_valid: self.json_valid,
            apps: self.apps.deep_view(),
            http_servers: self.http_servers.deep_view(),
            route_count: self.route_count as nat,
            tls_policy_count: self.tls_policy_count as nat,
            warnings: self.warnings.deep_view(),
            error: self.error.deep_view(),
        }
    }
}

/// How far the configuration can be managed.
#[derive(Debug)]
pub struct CaddyManagementReport {
    pub read_only: bool,
    pub status: String,
    pub managed_route_count: usize,
    pub unmanaged_host_count: usize,
    pub import_count: usize,
    pub normalized_conflict_count: usize,
    pub admin_api_write_supported: bool,
    pub typed_snippet_supported: bool,
    pub recommended_next_actions: Vec<String>,
}

/// View of [`CaddyManagementReport`].
#[verifier::ext_equal]
pub struct CaddyManagementReportView {
    pub read_only: bool,
    pub status: Seq<char>,
    pub managed_route_count: nat,
    pub unmanaged_host_count: nat,
    pub import_count: nat,
    pub normalized_conflict_count: nat,
    pub admin_api_write_supported: bool,
    pub typed_snippet_supported: bool,
    pub recommended_next_actions: Seq<Seq<char>>,
}

impl DeepView for CaddyManagementReport {
    type V = CaddyManagementReportView;

    open spec fn deep_view(&self) -> CaddyManagementReportView {
        CaddyManagementReportView {
            read_only: self.read_only,
            status: self.status.deep_view(),
            managed_route_count: self.managed_route_count as nat,
            unmanaged_host_count: self.unmanaged_host_count as nat,
            import_count: self.import_count as nat,
            normalized_conflict_count: self.normalized_conflict_count as nat,
            admin_api_write_supported: self.admin_api_write_supported,
            typed_snippet_supported: self.typed_snippet_supported,
            recommended_next_actions: self.recommended_next_actions.deep_view(),
        }
    }
}

/// A line that imports another file.
#[derive(Debug)]
pub struct CaddyImportReference {
    pub from: String,
    pub line: usize,
    pub target: String,
    pub kind: String,
    pub resolved_path: Option<String>,
    pub exists: Option<bool>,
}

/// View of [`CaddyImportReference`].
#[verifier::ext_equal]
pub struct CaddyImportReferenceView {
    pub from: Seq<char>,
    pub line: nat,
    pub target: Seq<char>,
    pub kind: Seq<char>,
    pub resolved_path: Option<Seq<char>>,
    pub exists: Option<bool>,
}

impl DeepView for CaddyImportReference {
    type V = CaddyImportReferenceView;

    open spec fn deep_view(&self) -> CaddyImportReferenceView {
        CaddyImportReferenceView {
            from: self.from.deep_view(),
            line: self.line as nat,
            target: self.target.deep_view(),
            kind: self.kind.deep_view(),
            resolved_path: self.resolved_path.deep_view(),
            exists: self.exists.deep_view(),
        }
    }
}

/// What is in the configuration file.
#[derive(Debug)]
pub struct CaddyRoutesReport {
    pub read_only: bool,
    pub caddyfile: String,
    pub exists: bool,
    pub managed_routes: Vec<CaddyManagedRoute>,
    pub unmanaged_hosts: Vec<String>,
    pub imports: Vec<CaddyImportReference>,
    pub findings: Vec<String>,
    pub adapt: Option<CaddyAdaptReport>,
    pub admin: Option<CaddyAdminReport>,
    pub management: CaddyManagementReport,
}

/// View of [`CaddyRoutesReport`].
#[verifier::ext_equal]
pub struct CaddyRoutesReportView {
    pub read_only: bool,
    pub caddyfile: Seq<char>,
    pub exists: bool,
    pub managed_routes: Seq<CaddyManagedRouteView>,
    pub unmanaged_hosts: Seq<Seq<char>>,
    pub imports: Seq<CaddyImportReferenceView>,
    pub findings: Seq<Seq<char>>,
    pub adapt: Option<CaddyAdaptReportView>,
    pub admin: Option<CaddyAdminReportView>,
    pub management: CaddyManagementReportView,
}

impl DeepView for CaddyRoutesReport {
    type V = CaddyRoutesReportView;

    open spec fn deep_view(&self) -> CaddyRoutesReportView {
        CaddyRoutesReportView {
            read_only: self.read_only,
            caddyfile: self.caddyfile.deep_view(),
            exists: self.exists,
            managed_routes: self.managed_routes.deep_view(),
            unmanaged_hosts: self.unmanaged_hosts.deep_view(),
            imports: self.imports.deep_view(),
            findings: self.findings.deep_view(),
            adapt: self.adapt.deep_view(),
            admin: self.admin.deep_view(),
            management: self.management.deep_view(),
        }
    }
}

} // verus!
