//! The steps of a deploy.

use vstd::prelude::*;
use crate::deploy::types::{
    BuildStep, BuildStepView, CaddyRouteChange, CaddyRouteChangeView, DeployOperation,
    DeployOperationView, DeployPlan, DeployPlanView, StaticSiteSync, StaticSiteSyncView,
    SystemdUnitChange, SystemdUnitChangeView, TypedFileWrite, TypedFileWriteView,
};
use crate::each::{any_where, map_each};
use crate::list::{any, kept, law_all_or_none_is_kept, law_kept_of_both, lemma_any};
use crate::number::{bool_text, bool_word, decimal, decimal_text};
use crate::pairs::{keys_increase, law_values_read_back, set_value, value_at, with_pair};
use crate::paths::{same_path, same_path_spec};
use crate::text::{as_text, cat2, cat3, ends, or_text, same, step, text_or};

verus! {

broadcast use {vstd::seq::group_seq_axioms, vstd::string::group_string_axioms};

/// A step that does not yet have its place.
pub open spec fn planned_step(
    kind: Seq<char>,
    target: Seq<char>,
    reason: Seq<char>,
) -> DeployOperationView {
    DeployOperationView {
        order: 0,
        kind,
        target,
        requires_privilege: false,
        destructive: false,
        argv: Seq::empty(),
        working_dir: None,
        params: Seq::empty(),
        reason,
    }
}

impl DeployOperationView {
    /// The step, with privileges.
    pub open spec fn privileged(self) -> DeployOperationView {
        DeployOperationView { requires_privilege: true, ..self }
    }

    /// The step, as a command.
    pub open spec fn running(self, argv: Seq<Seq<char>>) -> DeployOperationView {
        DeployOperationView { argv, ..self }
    }

    /// The step, in a directory.
    pub open spec fn inside(self, dir: Seq<char>) -> DeployOperationView {
        DeployOperationView { working_dir: Some(dir), ..self }
    }

    /// The step, with a parameter.
    pub open spec fn given(self, key: Seq<char>, value: Seq<char>) -> DeployOperationView {
        DeployOperationView { params: with_pair(self.params, key, value), ..self }
    }
}

impl DeployOperation {
    /// A step that does not yet have its place.
    pub fn planned(kind: &str, target: &str, reason: &str) -> (r: DeployOperation)
        ensures
            r.deep_view() == planned_step(kind@, target@, reason@),
    {
        let argv: Vec<String> = Vec::new();
        let params: Vec<(String, String)> = Vec::new();
        proof {
            assert(argv.deep_view() =~= Seq::<Seq<char>>::empty());
            assert(params.deep_view() =~= Seq::<(Seq<char>, Seq<char>)>::empty());
        }
        DeployOperation {
            order: 0,
            kind: kind.to_string(),
            target: target.to_string(),
            requires_privilege: false,
            destructive: false,
            argv,
            working_dir: None,
            params,
            reason: reason.to_string(),
        }
    }

    /// The step, with privileges.
    pub fn with_privilege(self) -> (r: DeployOperation)
        ensures
            r.deep_view() == self.deep_view().privileged(),
    {
        let mut r = self;
        r.requires_privilege = true;
        r
    }

    /// The step, as a command.
    pub fn with_argv(self, argv: Vec<String>) -> (r: DeployOperation)
        ensures
            r.deep_view() == self.deep_view().running(argv.deep_view()),
    {
        let mut r = self;
        r.argv = argv;
        r
    }

    /// The step, in a directory.
    pub fn with_working_dir(self, working_dir: &str) -> (r: DeployOperation)
        ensures
            r.deep_view() == self.deep_view().inside(working_dir@),
    {
        let mut r = self;
        r.working_dir = Some(working_dir.to_string());
        r
    }

    /// The step, with a parameter.
    pub fn with_param(self, key: &str, value: &str) -> (r: DeployOperation)
        ensures
            r.deep_view() == self.deep_view().given(key@, value@),
    {
        let mut r = self;
        set_value(&mut r.params, key.to_string(), value.to_string());
        r
    }
}

/// Three words.
pub fn argv3(a: &str, b: &str, c: &str) -> (r: Vec<String>)
    ensures
        r.deep_view() == seq![a@, b@, c@],
{
    let v: Vec<String> = vec![a.to_string(), b.to_string(), c.to_string()];
    proof {
        assert(v.deep_view() =~= seq![a@, b@, c@]);
    }
    v
}

/// Adds steps.
pub fn add_steps(steps: &mut Vec<DeployOperation>, more: Vec<DeployOperation>)
    ensures
        final(steps).deep_view() == old(steps).deep_view() + more.deep_view(),
{
    let ghost before = steps.deep_view();
    let ghost added = more.deep_view();
    let mut more = more;
    steps.append(&mut more);
    proof {
        assert(steps.deep_view() =~= before + added);
    }
}

/// Adds a step.
pub fn add_step(steps: &mut Vec<DeployOperation>, step: DeployOperation)
    ensures
        final(steps).deep_view() == old(steps).deep_view().push(step.deep_view()),
{
    let ghost before = steps.deep_view();
    steps.push(step);
    proof {
        assert(steps.deep_view() =~= before.push(step.deep_view()));
    }
}

/// No steps.
pub fn no_steps() -> (r: Vec<DeployOperation>)
    ensures
        r.deep_view() == Seq::<DeployOperationView>::empty(),
{
    let steps: Vec<DeployOperation> = Vec::new();
    proof {
        assert(steps.deep_view() =~= Seq::<DeployOperationView>::empty());
    }
    steps
}

/// Whether a plan needs a snapshot.
pub open spec fn needs_snapshot(plan: DeployPlanView) -> bool {
    plan.snapshot_required == Some(true)
}

/// Whether a plan needs a snapshot.
pub fn snapshot_needed(plan: &DeployPlan) -> (r: bool)
    ensures
        r == needs_snapshot(plan.deep_view()),
{
    match plan.snapshot_required {
        Some(b) => b,
        None => false,
    }
}

// ---------------------------------------------------------------------------
// Gates and ports
// ---------------------------------------------------------------------------

/// The checks at the start.
pub open spec fn gate_steps(plan: DeployPlanView) -> Seq<DeployOperationView> {
    let first = Seq::<DeployOperationView>::empty().push(
        planned_step(
            "PreflightCheck"@,
            plan.id,
            "Recompute policy against the current registry before any deploy operation."@,
        ),
    );
    if needs_snapshot(plan) {
        first.push(
            planned_step(
                "VerifySnapshot"@,
                plan.id,
                "Require a matching snapshot before production execution."@,
            ),
        )
    } else {
        first
    }
}

/// The checks at the start.
pub fn list_gate_steps(plan: &DeployPlan) -> (r: Vec<DeployOperation>)
    ensures
        r.deep_view() == gate_steps(plan.deep_view()),
{
    let mut steps = no_steps();
    add_step(
        &mut steps,
        DeployOperation::planned(
            "PreflightCheck",
            &plan.id,
            "Recompute policy against the current registry before any deploy operation.",
        ),
    );
    if snapshot_needed(plan) {
        add_step(
            &mut steps,
            DeployOperation::planned(
                "VerifySnapshot",
                &plan.id,
                "Require a matching snapshot before production execution.",
            ),
        );
    }
    steps
}

/// The step that reserves a port.
pub open spec fn port_step(port: u16) -> DeployOperationView {
    planned_step(
        "ReservePort"@,
        decimal(port as nat),
        "Reserve the port in the registry after successful execution."@,
    ).given("port"@, decimal(port as nat))
}

/// The steps that reserve ports.
pub open spec fn port_steps(plan: DeployPlanView) -> Seq<DeployOperationView> {
    plan.changes.ports.reserve.map_values(|port: u16| port_step(port))
}

/// The steps that reserve ports.
pub fn list_port_steps(plan: &DeployPlan) -> (r: Vec<DeployOperation>)
    ensures
        r.deep_view() == port_steps(plan.deep_view()),
{
    map_each(
        &plan.changes.ports.reserve,
        |port: &u16| -> (r: DeployOperation)
            ensures
                r.deep_view() == port_step(*port)
            {
                let number = decimal_text(*port as u64);
                DeployOperation::planned(
                    "ReservePort",
                    &number,
                    "Reserve the port in the registry after successful execution.",
                ).with_param("port", &number)
            },
        Ghost(|port: u16| port_step(port)),
    )
}

// ---------------------------------------------------------------------------
// Caddy
// ---------------------------------------------------------------------------

/// The file that holds the Caddy configuration.
pub open spec fn caddyfile() -> Seq<char> {
    "/etc/caddy/Caddyfile"@
}

/// Whether a plan writes the Caddy configuration itself.
pub open spec fn config_written(plan: DeployPlanView) -> bool {
    any(plan.changes.files.write, |path: Seq<char>| same_path_spec(path, caddyfile()))
}

/// Whether a plan writes the Caddy configuration itself.
pub fn writes_caddy_config(plan: &DeployPlan) -> (r: bool)
    ensures
        r == config_written(plan.deep_view()),
{
    any_where(
        &plan.changes.files.write,
        |path: &String| -> (b: bool)
            ensures
                b == same_path_spec(path@, caddyfile())
            { same_path(path, "/etc/caddy/Caddyfile") },
        Ghost(|path: Seq<char>| same_path_spec(path, caddyfile())),
    )
}

/// Whether a plan changes anything in Caddy.
pub open spec fn changes_caddy(plan: DeployPlanView) -> bool {
    plan.changes.caddy.routes.len() > 0 || config_written(plan) || any(
        plan.changes.files.typed,
        |w: TypedFileWriteView| w.kind == "caddy_route_snippet"@,
    )
}

/// Whether a plan changes anything in Caddy.
pub fn caddy_changed(plan: &DeployPlan) -> (r: bool)
    ensures
        r == changes_caddy(plan.deep_view()),
{
    let typed = any_where(
        &plan.changes.files.typed,
        |w: &TypedFileWrite| -> (b: bool)
            ensures
                b == (w.deep_view().kind == "caddy_route_snippet"@)
            { same(&w.kind, "caddy_route_snippet") },
        Ghost(|w: TypedFileWriteView| w.kind == "caddy_route_snippet"@),
    );
    proof {
        assert(plan.changes.caddy.routes.deep_view().len() == plan.changes.caddy.routes@.len());
    }
    plan.changes.caddy.routes.len() > 0 || writes_caddy_config(plan) || typed
}

/// The step that writes a route.
pub open spec fn route_step(route: CaddyRouteChangeView) -> DeployOperationView {
    planned_step(
        "WriteCaddyRoute"@,
        route.host + " -> "@ + route.upstream,
        "Prepare a Caddy route update through the privileged helper."@,
    ).privileged().given("host"@, route.host).given("upstream"@, route.upstream)
}

/// The steps that check the Caddy configuration and put it into effect.
pub open spec fn caddy_tail() -> Seq<DeployOperationView> {
    Seq::<DeployOperationView>::empty().push(
        planned_step(
            "ValidateCaddy"@,
            caddyfile(),
            "Validate Caddy configuration before reload."@,
        ).privileged().running(
            seq!["caddy"@, "validate"@, "--config"@, caddyfile()],
        ).given("config"@, caddyfile()),
    ).push(
        planned_step(
            "ReloadCaddy"@,
            "caddy.service"@,
            "Reload Caddy only after validation succeeds."@,
        ).privileged().running(seq!["systemctl"@, "reload"@, "caddy"@]).given("unit"@, "caddy"@),
    )
}

/// The steps for Caddy.
pub open spec fn caddy_steps(plan: DeployPlanView) -> Seq<DeployOperationView> {
    plan.changes.caddy.routes.map_values(|route: CaddyRouteChangeView| route_step(route)) + (
    if changes_caddy(plan) {
        caddy_tail()
    } else {
        Seq::empty()
    })
}

/// The steps for Caddy.
pub fn list_caddy_steps(plan: &DeployPlan) -> (r: Vec<DeployOperation>)
    ensures
        r.deep_view() == caddy_steps(plan.deep_view()),
{
    let mut steps = map_each(
        &plan.changes.caddy.routes,
        |route: &CaddyRouteChange| -> (r: DeployOperation)
            ensures
                r.deep_view() == route_step(route.deep_view())
            {
                DeployOperation::planned(
                    "WriteCaddyRoute",
                    &cat3(&route.host, " -> ", &route.upstream),
                    "Prepare a Caddy route update through the privileged helper.",
                ).with_privilege().with_param("host", &route.host).with_param(
                    "upstream",
                    &route.upstream,
                )
            },
        Ghost(|route: CaddyRouteChangeView| route_step(route)),
    );
    let mut tail = no_steps();
    if caddy_changed(plan) {
        let argv: Vec<String> = vec![
            "caddy".to_string(),
            "validate".to_string(),
            "--config".to_string(),
            "/etc/caddy/Caddyfile".to_string(),
        ];
        proof {
            assert(argv.deep_view() =~= seq!["caddy"@, "validate"@, "--config"@, caddyfile()]);
        }
        add_step(
            &mut tail,
            DeployOperation::planned(
                "ValidateCaddy",
                "/etc/caddy/Caddyfile",
                "Validate Caddy configuration before reload.",
            ).with_privilege().with_argv(argv).with_param("config", "/etc/caddy/Caddyfile"),
        );
        add_step(
            &mut tail,
            DeployOperation::planned(
                "ReloadCaddy",
                "caddy.service",
                "Reload Caddy only after validation succeeds.",
            ).with_privilege().with_argv(argv3("systemctl", "reload", "caddy")).with_param(
                "unit",
                "caddy",
            ),
        );
    }
    add_steps(&mut steps, tail);
    steps
}

// ---------------------------------------------------------------------------
// Docker, static sites and builds
// ---------------------------------------------------------------------------

/// The step that starts the containers.
pub open spec fn compose_steps(plan: DeployPlanView) -> Seq<DeployOperationView> {
    match plan.changes.docker.compose_project {
        Some(project) => Seq::<DeployOperationView>::empty().push(
            planned_step(
                "ComposeUp"@,
                project,
                "Run Docker Compose through an explicit project name wrapper."@,
            ).privileged().running(
                seq!["docker"@, "compose"@, "--project-name"@, project, "up"@, "-d"@],
            ).inside(plan.project_root).given("compose_project"@, project),
        ),
        None => Seq::empty(),
    }
}

/// The step that starts the containers.
pub fn list_compose_steps(plan: &DeployPlan) -> (r: Vec<DeployOperation>)
    ensures
        r.deep_view() == compose_steps(plan.deep_view()),
{
    let mut steps = no_steps();
    if let Some(project) = &plan.changes.docker.compose_project {
        let argv: Vec<String> = vec![
            "docker".to_string(),
            "compose".to_string(),
            "--project-name".to_string(),
            project.clone(),
            "up".to_string(),
            "-d".to_string(),
        ];
        proof {
            assert(argv.deep_view() =~= seq![
                "docker"@,
                "compose"@,
                "--project-name"@,
                project@,
                "up"@,
                "-d"@,
            ]);
        }
        add_step(
            &mut steps,
            DeployOperation::planned(
                "ComposeUp",
                project,
                "Run Docker Compose through an explicit project name wrapper.",
            ).with_privilege().with_argv(argv).with_working_dir(&plan.project_root).with_param(
                "compose_project",
                project,
            ),
        );
    }
    steps
}

/// The step that publishes a directory.
pub open spec fn site_step(root: Seq<char>, sync: StaticSiteSyncView) -> DeployOperationView {
    planned_step(
        "StaticSiteSync"@,
        sync.destination,
        "Copy static site output through the managed no-delete static sync adapter."@,
    ).privileged().inside(root).given("source"@, sync.source).given(
        "destination"@,
        sync.destination,
    ).given("deployment_id"@, sync.deployment_id)
}

/// The steps that publish directories.
pub open spec fn site_steps(plan: DeployPlanView) -> Seq<DeployOperationView> {
    plan.changes.static_site.sync.map_values(
        |sync: StaticSiteSyncView| site_step(plan.project_root, sync),
    )
}

/// The steps that publish directories.
pub fn list_site_steps(plan: &DeployPlan) -> (r: Vec<DeployOperation>)
    ensures
        r.deep_view() == site_steps(plan.deep_view()),
{
    let root = &plan.project_root;
    map_each(
        &plan.changes.static_site.sync,
        |sync: &StaticSiteSync| -> (r: DeployOperation)
            ensures
                r.deep_view() == site_step(root@, sync.deep_view())
            {
                DeployOperation::planned(
                    "StaticSiteSync",
                    &sync.destination,
                    "Copy static site output through the managed no-delete static sync adapter.",
                ).with_privilege().with_working_dir(root).with_param(
                    "source",
                    &sync.source,
                ).with_param("destination", &sync.destination).with_param(
                    "deployment_id",
                    &sync.deployment_id,
                )
            },
        Ghost(|sync: StaticSiteSyncView| site_step(root@, sync)),
    )
}

/// The command of a build step.
pub open spec fn build_argv(adapter: Seq<char>, script: Seq<char>) -> Seq<Seq<char>> {
    seq![adapter, "run"@, script]
}

/// The command of a build step.
pub fn build_step_argv(adapter: &str, script: &str) -> (r: Vec<String>)
    ensures
        r.deep_view() == build_argv(adapter@, script@),
{
    argv3(adapter, "run", script)
}

/// The step that builds.
pub open spec fn build_step(root: Seq<char>, step: BuildStepView) -> DeployOperationView {
    let script = text_or(step.script, "build"@);
    planned_step(
        "RunBuild"@,
        step.adapter + " run "@ + script,
        "Run an allowlisted package-manager build step in the project root."@,
    ).running(build_argv(step.adapter, script)).inside(root).given("adapter"@, step.adapter).given(
        "script"@,
        script,
    )
}

/// The steps that build.
pub open spec fn build_steps(plan: DeployPlanView) -> Seq<DeployOperationView> {
    plan.changes.build.steps.map_values(|step: BuildStepView| build_step(plan.project_root, step))
}

/// The steps that build.
pub fn list_build_steps(plan: &DeployPlan) -> (r: Vec<DeployOperation>)
    ensures
        r.deep_view() == build_steps(plan.deep_view()),
{
    let root = &plan.project_root;
    map_each(
        &plan.changes.build.steps,
        |step: &BuildStep| -> (r: DeployOperation)
            ensures
                r.deep_view() == build_step(root@, step.deep_view())
            {
                let script = or_text(as_text(&step.script), "build");
                DeployOperation::planned(
                    "RunBuild",
                    &cat3(&step.adapter, " run ", script),
                    "Run an allowlisted package-manager build step in the project root.",
                ).with_argv(build_step_argv(&step.adapter, script)).with_working_dir(
                    root,
                ).with_param("adapter", &step.adapter).with_param("script", script)
            },
        Ghost(|step: BuildStepView| build_step(root@, step)),
    )
}

/// The step that runs an artisan command, if it is wanted.
pub open spec fn artisan_step(root: Seq<char>, action: Seq<char>, wanted: bool) -> Seq<
    DeployOperationView,
> {
    if wanted {
        Seq::<DeployOperationView>::empty().push(
            planned_step(
                "LaravelOptimize"@,
                action,
                "Run an allowlisted Laravel artisan cache/optimize command in the project root."@,
            ).running(seq!["php"@, "artisan"@, action]).inside(root).given(
                "artisan_action"@,
                action,
            ),
        )
    } else {
        Seq::empty()
    }
}

/// The step that runs an artisan command, if it is wanted.
pub fn list_artisan_step(root: &str, action: &str, wanted: bool) -> (r: Vec<DeployOperation>)
    ensures
        r.deep_view() == artisan_step(root@, action@, wanted),
{
    let mut steps = no_steps();
    if wanted {
        add_step(
            &mut steps,
            DeployOperation::planned(
                "LaravelOptimize",
                action,
                "Run an allowlisted Laravel artisan cache/optimize command in the project root.",
            ).with_argv(argv3("php", "artisan", action)).with_working_dir(root).with_param(
                "artisan_action",
                action,
            ),
        );
    }
    steps
}

/// The steps for Laravel.
pub open spec fn laravel_steps(plan: DeployPlanView) -> Seq<DeployOperationView> {
    let root = plan.project_root;
    let laravel = plan.changes.laravel;
    artisan_step(root, "optimize"@, laravel.optimize) + artisan_step(
        root,
        "config:cache"@,
        laravel.config_cache,
    ) + artisan_step(root, "route:cache"@, laravel.route_cache) + artisan_step(
        root,
        "view:cache"@,
        laravel.view_cache,
    )
}

/// The steps for Laravel.
pub fn list_laravel_steps(plan: &DeployPlan) -> (r: Vec<DeployOperation>)
    ensures
        r.deep_view() == laravel_steps(plan.deep_view()),
{
    let root = &plan.project_root;
    let laravel = &plan.changes.laravel;
    let mut steps = list_artisan_step(root, "optimize", laravel.optimize);
    add_steps(&mut steps, list_artisan_step(root, "config:cache", laravel.config_cache));
    add_steps(&mut steps, list_artisan_step(root, "route:cache", laravel.route_cache));
    add_steps(&mut steps, list_artisan_step(root, "view:cache", laravel.view_cache));
    steps
}

// ---------------------------------------------------------------------------
// Units, migrations and files
// ---------------------------------------------------------------------------

/// The step that reloads or restarts a unit.
pub open spec fn unit_step(unit: SystemdUnitChangeView) -> DeployOperationView {
    planned_step(
        "SystemdService"@,
        unit.action + " "@ + unit.unit,
        "Run an allowlisted systemd service reload/restart through the controlled command runner."@,
    ).privileged().running(seq!["systemctl"@, unit.action, unit.unit]).given(
        "action"@,
        unit.action,
    ).given("unit"@, unit.unit)
}

/// The steps that reload or restart units.
pub open spec fn unit_steps(plan: DeployPlanView) -> Seq<DeployOperationView> {
    plan.changes.systemd.units.map_values(|unit: SystemdUnitChangeView| unit_step(unit))
}

/// The steps that reload or restart units.
pub fn list_unit_steps(plan: &DeployPlan) -> (r: Vec<DeployOperation>)
    ensures
        r.deep_view() == unit_steps(plan.deep_view()),
{
    map_each(
        &plan.changes.systemd.units,
        |unit: &SystemdUnitChange| -> (r: DeployOperation)
            ensures
                r.deep_view() == unit_step(unit.deep_view())
            {
                DeployOperation::planned(
                    "SystemdService",
                    &cat3(&unit.action, " ", &unit.unit),
                    "Run an allowlisted systemd service reload/restart through the controlled command runner.",
                ).with_privilege().with_argv(
                    argv3("systemctl", &unit.action, &unit.unit),
                ).with_param("action", &unit.action).with_param("unit", &unit.unit)
            },
        Ghost(|unit: SystemdUnitChangeView| unit_step(unit)),
    )
}

/// The step that migrates. It does not repeat the command.
pub open spec fn migration_steps(plan: DeployPlanView) -> Seq<DeployOperationView> {
    if plan.changes.migrations.required {
        Seq::<DeployOperationView>::empty().push(
            planned_step(
                "RunMigration"@,
                "changes.migrations.command"@,
                "Migration command is intentionally not echoed; approval and redaction are required before execution."@,
            ).privileged().inside(plan.project_root),
        )
    } else {
        Seq::empty()
    }
}

/// The step that migrates.
pub fn list_migration_steps(plan: &DeployPlan) -> (r: Vec<DeployOperation>)
    ensures
        r.deep_view() == migration_steps(plan.deep_view()),
{
    let mut steps = no_steps();
    if plan.changes.migrations.required {
        add_step(
            &mut steps,
            DeployOperation::planned(
                "RunMigration",
                "changes.migrations.command",
                "Migration command is intentionally not echoed; approval and redaction are required before execution.",
            ).with_privilege().with_working_dir(&plan.project_root),
        );
    }
    steps
}

/// The step that writes a file without a template.
pub open spec fn write_step(path: Seq<char>) -> DeployOperationView {
    planned_step(
        "WriteFile"@,
        path,
        "File write must be performed through a typed helper operation."@,
    ).privileged()
}

/// A step with the template's parameters.
pub open spec fn with_template_params(
    step: DeployOperationView,
    params: Seq<(Seq<char>, Seq<char>)>,
) -> DeployOperationView
    decreases params.len(),
{
    if params.len() == 0 {
        step
    } else {
        with_template_params(step, params.drop_last()).given(
            "param."@ + params.last().0,
            params.last().1,
        )
    }
}

/// The step that writes a file from a template.
pub open spec fn typed_step(write: TypedFileWriteView) -> DeployOperationView {
    let step = planned_step(
        "WriteFile"@,
        write.path,
        "Write generated file content through a typed opsctl template."@,
    ).privileged().given("path"@, write.path).given("template_kind"@, write.kind);
    with_template_params(
        match write.mode {
            Some(mode) => step.given("mode"@, decimal(mode as nat)),
            None => step,
        },
        write.params,
    )
}

/// The step that writes a file from a template.
pub fn plan_typed_write(write: &TypedFileWrite) -> (r: DeployOperation)
    ensures
        r.deep_view() == typed_step(write.deep_view()),
{
    let mut op = DeployOperation::planned(
        "WriteFile",
        &write.path,
        "Write generated file content through a typed opsctl template.",
    ).with_privilege().with_param("path", &write.path).with_param("template_kind", &write.kind);
    if let Some(mode) = write.mode {
        op = op.with_param("mode", &decimal_text(mode as u64));
    }
    let ghost start = op.deep_view();
    let ghost all = write.params.deep_view();
    let mut i: usize = 0;
    proof {
        ends(all);
    }
    while i < write.params.len()
        invariant
            i <= write.params@.len(),
            all == write.params.deep_view(),
            op.deep_view() == with_template_params(start, all.take(i as int)),
        decreases write.params@.len() - i,
    {
        let p = &write.params[i];
        proof {
            step(all, i as int);
            assert(all[i as int] == p.deep_view());
        }
        op = op.with_param(&cat2("param.", &p.0), &p.1);
        i = i + 1;
    }
    proof {
        ends(all);
    }
    op
}

/// The steps that write files.
pub open spec fn file_steps(plan: DeployPlanView) -> Seq<DeployOperationView> {
    plan.changes.files.write.map_values(|path: Seq<char>| write_step(path))
        + plan.changes.files.typed.map_values(|write: TypedFileWriteView| typed_step(write))
}

/// The steps that write files.
pub fn list_file_steps(plan: &DeployPlan) -> (r: Vec<DeployOperation>)
    ensures
        r.deep_view() == file_steps(plan.deep_view()),
{
    let mut steps = map_each(
        &plan.changes.files.write,
        |path: &String| -> (r: DeployOperation)
            ensures
                r.deep_view() == write_step(path@)
            {
                DeployOperation::planned(
                    "WriteFile",
                    path,
                    "File write must be performed through a typed helper operation.",
                ).with_privilege()
            },
        Ghost(|path: Seq<char>| write_step(path)),
    );
    let typed = map_each(
        &plan.changes.files.typed,
        |write: &TypedFileWrite| -> (r: DeployOperation)
            ensures
                r.deep_view() == typed_step(write.deep_view())
            { plan_typed_write(write) },
        Ghost(|write: TypedFileWriteView| typed_step(write)),
    );
    add_steps(&mut steps, typed);
    steps
}

// ---------------------------------------------------------------------------
// The end
// ---------------------------------------------------------------------------

/// Whether a kind of check is made: unless the plan switches it off.
pub open spec fn category_enabled(value: Option<bool>) -> bool {
    value != Some(false)
}

/// Whether a kind of check is made.
pub fn health_category_enabled(value: Option<bool>) -> (r: bool)
    ensures
        r == category_enabled(value),
{
    match value {
        Some(b) => b,
        None => true,
    }
}

/// The step that checks what was deployed.
pub open spec fn health_steps(plan: DeployPlanView) -> Seq<DeployOperationView> {
    let health = plan.changes.health;
    if health.enabled {
        Seq::<DeployOperationView>::empty().push(
            planned_step(
                "PostDeployHealthCheck"@,
                plan.id,
                "Verify declared Docker containers, ports, Caddy routes, and static-site files after deployment."@,
            ).given("docker"@, bool_word(category_enabled(health.docker))).given(
                "ports"@,
                bool_word(category_enabled(health.ports)),
            ).given("caddy"@, bool_word(category_enabled(health.caddy))).given(
                "static_site"@,
                bool_word(category_enabled(health.static_site)),
            ),
        )
    } else {
        Seq::empty()
    }
}

/// The step that checks what was deployed.
pub fn list_health_steps(plan: &DeployPlan) -> (r: Vec<DeployOperation>)
    ensures
        r.deep_view() == health_steps(plan.deep_view()),
{
    let health = &plan.changes.health;
    let mut steps = no_steps();
    if health.enabled {
        add_step(
            &mut steps,
            DeployOperation::planned(
                "PostDeployHealthCheck",
                &plan.id,
                "Verify declared Docker containers, ports, Caddy routes, and static-site files after deployment.",
            ).with_param("docker", bool_text(health_category_enabled(health.docker))).with_param(
                "ports",
                bool_text(health_category_enabled(health.ports)),
            ).with_param("caddy", bool_text(health_category_enabled(health.caddy))).with_param(
                "static_site",
                bool_text(health_category_enabled(health.static_site)),
            ),
        );
    }
    steps
}

/// The step that writes the registry.
pub open spec fn registry_step() -> DeployOperationView {
    planned_step(
        "WriteRegistry"@,
        "server-registry"@,
        "Persist registry changes after deploy operations succeed."@,
    )
}

/// The steps of a plan, before they have their places.
pub open spec fn planned_steps(plan: DeployPlanView) -> Seq<DeployOperationView> {
    (gate_steps(plan) + port_steps(plan) + caddy_steps(plan) + compose_steps(plan) + site_steps(
        plan,
    ) + build_steps(plan) + laravel_steps(plan) + unit_steps(plan) + migration_steps(plan)
        + file_steps(plan) + health_steps(plan)).push(registry_step())
}

/// Steps with their places, from one on.
pub open spec fn in_places(steps: Seq<DeployOperationView>) -> Seq<DeployOperationView> {
    Seq::new(
        steps.len(),
        |i: int| DeployOperationView { order: (i + 1) as u32, ..steps[i] },
    )
}

/// The steps of a deploy.
pub open spec fn deploy_steps(plan: DeployPlanView) -> Seq<DeployOperationView> {
    in_places(planned_steps(plan))
}

/// Gives steps their places.
pub fn number_steps(steps: Vec<DeployOperation>) -> (r: Vec<DeployOperation>)
    requires
        steps@.len() <= u32::MAX,
    ensures
        r.deep_view() == in_places(steps.deep_view()),
{
    let ghost all = steps.deep_view();
    let mut steps = steps;
    let mut i: usize = 0;
    while i < steps.len()
        invariant
            i <= steps@.len() <= u32::MAX,
            steps@.len() == all.len(),
            forall|j: int| 0 <= j < i ==> #[trigger] steps.deep_view()[j] == in_places(all)[j],
            forall|j: int| i <= j < all.len() ==> #[trigger] steps.deep_view()[j] == all[j],
        decreases steps@.len() - i,
    {
        let ghost before = steps.deep_view();
        let mut step = steps[i].clone();
        proof {
            assert(before[i as int] == steps@[i as int].deep_view());
        }
        step.order = (i + 1) as u32;
        steps.set(i, step);
        proof {
            assert(steps.deep_view() =~= before.update(i as int, step.deep_view()));
            assert(step.deep_view() == in_places(all)[i as int]);
        }
        i = i + 1;
    }
    proof {
        assert(steps.deep_view() =~= in_places(all));
    }
    steps
}

/// The steps of a deploy, in the order in which they are taken. Each has its place
/// as a number, so there cannot be more of them than such numbers.
pub fn deploy_operations(plan: &DeployPlan) -> (r: Vec<DeployOperation>)
    requires
        planned_steps(plan.deep_view()).len() <= u32::MAX,
    ensures
        r.deep_view() == deploy_steps(plan.deep_view()),
{
    let mut steps = list_gate_steps(plan);
    add_steps(&mut steps, list_port_steps(plan));
    add_steps(&mut steps, list_caddy_steps(plan));
    add_steps(&mut steps, list_compose_steps(plan));
    add_steps(&mut steps, list_site_steps(plan));
    add_steps(&mut steps, list_build_steps(plan));
    add_steps(&mut steps, list_laravel_steps(plan));
    add_steps(&mut steps, list_unit_steps(plan));
    add_steps(&mut steps, list_migration_steps(plan));
    add_steps(&mut steps, list_file_steps(plan));
    add_steps(&mut steps, list_health_steps(plan));
    add_step(
        &mut steps,
        DeployOperation::planned(
            "WriteRegistry",
            "server-registry",
            "Persist registry changes after deploy operations succeed.",
        ),
    );
    proof {
        assert(steps.deep_view() == planned_steps(plan.deep_view()));
        assert(steps.deep_view().len() == steps@.len());
    }
    number_steps(steps)
}

// ---------------------------------------------------------------------------
// Laws
// ---------------------------------------------------------------------------

/// The steps have the numbers from one on.
pub proof fn law_steps_are_numbered(plan: DeployPlanView, i: int)
    requires
        planned_steps(plan).len() <= u32::MAX,
        0 <= i < deploy_steps(plan).len(),
    ensures
        deploy_steps(plan)[i].order == i + 1,
{
}

/// The check of the plan comes first, and writing the registry comes last.
pub proof fn law_registry_is_written_last(plan: DeployPlanView)
    ensures
        deploy_steps(plan).len() >= 2,
        deploy_steps(plan)[0].kind == "PreflightCheck"@,
        deploy_steps(plan).last().kind == "WriteRegistry"@,
{
    let all = planned_steps(plan);
    assert(all[0] == gate_steps(plan)[0]);
    assert(all.last() == registry_step());
}

/// Nothing is destructive, Caddy is reloaded only right after its configuration
/// was checked, and the migration step does not give the command away.
pub open spec fn orderly(s: Seq<DeployOperationView>) -> bool {
    forall|i: int|
        0 <= i < s.len() ==> {
            &&& !(#[trigger] s[i]).destructive
            &&& s[i].kind == "ReloadCaddy"@ ==> i > 0 && s[i - 1].kind == "ValidateCaddy"@
            &&& s[i].kind == "RunMigration"@ ==> s[i].argv.len() == 0 && s[i].params.len() == 0
        }
}

/// A harmless step: neither a reload of Caddy nor a migration.
pub open spec fn harmless(step: DeployOperationView) -> bool {
    !step.destructive && step.kind != "ReloadCaddy"@ && step.kind != "RunMigration"@
}

proof fn lemma_harmless(s: Seq<DeployOperationView>)
    requires
        forall|i: int| 0 <= i < s.len() ==> harmless(#[trigger] s[i]),
    ensures
        orderly(s),
{
}

proof fn lemma_orderly_parts(a: Seq<DeployOperationView>, b: Seq<DeployOperationView>)
    requires
        orderly(a),
        orderly(b),
    ensures
        orderly(a + b),
{
    let s = a + b;
    assert forall|i: int| 0 <= i < s.len() implies {
        &&& !(#[trigger] s[i]).destructive
        &&& s[i].kind == "ReloadCaddy"@ ==> i > 0 && s[i - 1].kind == "ValidateCaddy"@
        &&& s[i].kind == "RunMigration"@ ==> s[i].argv.len() == 0 && s[i].params.len() == 0
    } by {
        if i < a.len() {
            assert(s[i] == a[i]);
        } else {
            assert(s[i] == b[i - a.len()]);
            if i > a.len() {
                assert(s[i - 1] == b[i - a.len() - 1]);
            }
        }
    }
}

proof fn lemma_step_kinds()
    ensures
        "PreflightCheck"@ != "ReloadCaddy"@ && "PreflightCheck"@ != "RunMigration"@,
        "VerifySnapshot"@ != "ReloadCaddy"@ && "VerifySnapshot"@ != "RunMigration"@,
        "ReservePort"@ != "ReloadCaddy"@ && "ReservePort"@ != "RunMigration"@,
        "WriteCaddyRoute"@ != "ReloadCaddy"@ && "WriteCaddyRoute"@ != "RunMigration"@,
        "ValidateCaddy"@ != "ReloadCaddy"@ && "ValidateCaddy"@ != "RunMigration"@,
        "ComposeUp"@ != "ReloadCaddy"@ && "ComposeUp"@ != "RunMigration"@,
        "StaticSiteSync"@ != "ReloadCaddy"@ && "StaticSiteSync"@ != "RunMigration"@,
        "RunBuild"@ != "ReloadCaddy"@ && "RunBuild"@ != "RunMigration"@,
        "LaravelOptimize"@ != "ReloadCaddy"@ && "LaravelOptimize"@ != "RunMigration"@,
        "SystemdService"@ != "ReloadCaddy"@ && "SystemdService"@ != "RunMigration"@,
        "WriteFile"@ != "ReloadCaddy"@ && "WriteFile"@ != "RunMigration"@,
        "PostDeployHealthCheck"@ != "ReloadCaddy"@ && "PostDeployHealthCheck"@ != "RunMigration"@,
        "WriteRegistry"@ != "ReloadCaddy"@ && "WriteRegistry"@ != "RunMigration"@,
        "RunMigration"@ != "ReloadCaddy"@,
{
    reveal_strlit("ReloadCaddy");
    reveal_strlit("RunMigration");
    reveal_strlit("PreflightCheck");
    reveal_strlit("VerifySnapshot");
    reveal_strlit("ReservePort");
    reveal_strlit("WriteCaddyRoute");
    reveal_strlit("ValidateCaddy");
    reveal_strlit("ComposeUp");
    reveal_strlit("StaticSiteSync");
    reveal_strlit("RunBuild");
    reveal_strlit("LaravelOptimize");
    reveal_strlit("SystemdService");
    reveal_strlit("WriteFile");
    reveal_strlit("PostDeployHealthCheck");
    reveal_strlit("WriteRegistry");
    assert("ReloadCaddy"@.len() == 11);
    assert("RunMigration"@.len() == 12);
    assert("PreflightCheck"@.len() == 14);
    assert("VerifySnapshot"@.len() == 14);
    assert("WriteCaddyRoute"@.len() == 15);
    assert("ValidateCaddy"@.len() == 13);
    assert("ComposeUp"@.len() == 9);
    assert("StaticSiteSync"@.len() == 14);
    assert("RunBuild"@.len() == 8);
    assert("LaravelOptimize"@.len() == 15);
    assert("SystemdService"@.len() == 14);
    assert("WriteFile"@.len() == 9);
    assert("PostDeployHealthCheck"@.len() == 21);
    assert("WriteRegistry"@.len() == 13);
    assert("ReservePort"@.len() == 11);
    assert("ReservePort"@[2] == 's' && "ReloadCaddy"@[2] == 'l');
}

proof fn lemma_template_params(step: DeployOperationView, params: Seq<(Seq<char>, Seq<char>)>)
    ensures
        with_template_params(step, params).kind == step.kind,
        with_template_params(step, params).destructive == step.destructive,
    decreases params.len(),
{
    if params.len() > 0 {
        lemma_template_params(step, params.drop_last());
    }
}

proof fn lemma_caddy_orderly(plan: DeployPlanView)
    ensures
        orderly(caddy_steps(plan)),
{
    lemma_step_kinds();
    let routes = plan.changes.caddy.routes.map_values(
        |route: CaddyRouteChangeView| route_step(route),
    );
    lemma_harmless(routes);
    let tail = caddy_tail();
    assert(tail.len() == 2);
    assert(orderly(tail));
    lemma_harmless(Seq::empty());
    lemma_orderly_parts(
        routes,
        if changes_caddy(plan) {
            tail
        } else {
            Seq::empty()
        },
    );
}

proof fn lemma_file_steps_orderly(plan: DeployPlanView)
    ensures
        orderly(file_steps(plan)),
{
    lemma_step_kinds();
    let plain = plan.changes.files.write.map_values(|path: Seq<char>| write_step(path));
    let typed = plan.changes.files.typed.map_values(|write: TypedFileWriteView| typed_step(write));
    lemma_harmless(plain);
    assert forall|i: int| 0 <= i < typed.len() implies harmless(#[trigger] typed[i]) by {
        let write = plan.changes.files.typed[i];
        let op = planned_step(
            "WriteFile"@,
            write.path,
            "Write generated file content through a typed opsctl template."@,
        ).privileged().given("path"@, write.path).given("template_kind"@, write.kind);
        lemma_template_params(
            match write.mode {
                Some(mode) => op.given("mode"@, decimal(mode as nat)),
                None => op,
            },
            write.params,
        );
    }
    lemma_harmless(typed);
    lemma_orderly_parts(plain, typed);
}

/// Nothing that a deploy does is destructive, Caddy is reloaded only right after
/// its configuration was checked, and the migration command is not given away.
pub proof fn law_steps_are_orderly(plan: DeployPlanView)
    ensures
        orderly(deploy_steps(plan)),
{
    lemma_step_kinds();
    let a = gate_steps(plan);
    let b = port_steps(plan);
    let c = caddy_steps(plan);
    let d = compose_steps(plan);
    let e = site_steps(plan);
    let f = build_steps(plan);
    let g = laravel_steps(plan);
    let h = unit_steps(plan);
    let i = migration_steps(plan);
    let j = file_steps(plan);
    let k = health_steps(plan);
    let l = Seq::<DeployOperationView>::empty().push(registry_step());
    lemma_harmless(a);
    lemma_harmless(b);
    lemma_caddy_orderly(plan);
    lemma_harmless(d);
    lemma_harmless(e);
    lemma_harmless(f);
    lemma_harmless(g);
    lemma_harmless(h);
    assert(orderly(i));
    lemma_file_steps_orderly(plan);
    lemma_harmless(k);
    lemma_harmless(l);
    lemma_orderly_parts(a, b);
    lemma_orderly_parts(a + b, c);
    lemma_orderly_parts(a + b + c, d);
    lemma_orderly_parts(a + b + c + d, e);
    lemma_orderly_parts(a + b + c + d + e, f);
    lemma_orderly_parts(a + b + c + d + e + f, g);
    lemma_orderly_parts(a + b + c + d + e + f + g, h);
    lemma_orderly_parts(a + b + c + d + e + f + g + h, i);
    lemma_orderly_parts(a + b + c + d + e + f + g + h + i, j);
    lemma_orderly_parts(a + b + c + d + e + f + g + h + i + j, k);
    let all = a + b + c + d + e + f + g + h + i + j + k;
    lemma_orderly_parts(all, l);
    assert(planned_steps(plan) =~= all + l);
    let p = planned_steps(plan);
    let s = deploy_steps(plan);
    assert forall|i: int| 0 <= i < s.len() implies {
        &&& !(#[trigger] s[i]).destructive
        &&& s[i].kind == "ReloadCaddy"@ ==> i > 0 && s[i - 1].kind == "ValidateCaddy"@
        &&& s[i].kind == "RunMigration"@ ==> s[i].argv.len() == 0 && s[i].params.len() == 0
    } by {
        assert(!p[i].destructive);
    }
}

/// The place of a kind of step in the course of a deploy.
pub open spec fn phase(kind: Seq<char>) -> int {
    if kind == "PreflightCheck"@ {
        0
    } else if kind == "VerifySnapshot"@ {
        1
    } else if kind == "ReservePort"@ {
        2
    } else if kind == "WriteCaddyRoute"@ {
        3
    } else if kind == "ValidateCaddy"@ {
        4
    } else if kind == "ReloadCaddy"@ {
        5
    } else if kind == "ComposeUp"@ {
        6
    } else if kind == "StaticSiteSync"@ {
        7
    } else if kind == "RunBuild"@ {
        8
    } else if kind == "LaravelOptimize"@ {
        9
    } else if kind == "SystemdService"@ {
        10
    } else if kind == "RunMigration"@ {
        11
    } else if kind == "WriteFile"@ {
        12
    } else if kind == "PostDeployHealthCheck"@ {
        13
    } else if kind == "WriteRegistry"@ {
        14
    } else {
        15
    }
}

/// The steps of a deploy that are of one kind.
pub open spec fn steps_of(plan: DeployPlanView, kind: Seq<char>) -> Seq<DeployOperationView> {
    kept(deploy_steps(plan), of_kind(kind))
}

/// Whether a step is of a kind.
pub open spec fn of_kind(kind: Seq<char>) -> spec_fn(DeployOperationView) -> bool {
    |o: DeployOperationView| o.kind == kind
}

/// Each kind of step has its own phase.
pub proof fn lemma_phases()
    ensures
        phase("PreflightCheck"@) == 0,
        phase("VerifySnapshot"@) == 1,
        phase("ReservePort"@) == 2,
        phase("WriteCaddyRoute"@) == 3,
        phase("ValidateCaddy"@) == 4,
        phase("ReloadCaddy"@) == 5,
        phase("ComposeUp"@) == 6,
        phase("StaticSiteSync"@) == 7,
        phase("RunBuild"@) == 8,
        phase("LaravelOptimize"@) == 9,
        phase("SystemdService"@) == 10,
        phase("RunMigration"@) == 11,
        phase("WriteFile"@) == 12,
        phase("PostDeployHealthCheck"@) == 13,
        phase("WriteRegistry"@) == 14,
{
    reveal_strlit("PreflightCheck");
    reveal_strlit("VerifySnapshot");
    reveal_strlit("ReservePort");
    reveal_strlit("WriteCaddyRoute");
    reveal_strlit("ValidateCaddy");
    reveal_strlit("ReloadCaddy");
    reveal_strlit("ComposeUp");
    reveal_strlit("StaticSiteSync");
    reveal_strlit("RunBuild");
    reveal_strlit("LaravelOptimize");
    reveal_strlit("SystemdService");
    reveal_strlit("RunMigration");
    reveal_strlit("WriteFile");
    reveal_strlit("PostDeployHealthCheck");
    reveal_strlit("WriteRegistry");
    assert("PreflightCheck"@.len() == 14);
    assert("VerifySnapshot"@.len() == 14);
    assert("ReservePort"@.len() == 11);
    assert("WriteCaddyRoute"@.len() == 15);
    assert("ValidateCaddy"@.len() == 13);
    assert("ReloadCaddy"@.len() == 11);
    assert("ComposeUp"@.len() == 9);
    assert("StaticSiteSync"@.len() == 14);
    assert("RunBuild"@.len() == 8);
    assert("LaravelOptimize"@.len() == 15);
    assert("SystemdService"@.len() == 14);
    assert("RunMigration"@.len() == 12);
    assert("WriteFile"@.len() == 9);
    assert("PostDeployHealthCheck"@.len() == 21);
    assert("WriteRegistry"@.len() == 13);
    assert("VerifySnapshot"@[0] != "PreflightCheck"@[0]);
    assert("ReloadCaddy"@[2] != "ReservePort"@[2]);
    assert("StaticSiteSync"@[0] != "PreflightCheck"@[0]);
    assert("StaticSiteSync"@[0] != "VerifySnapshot"@[0]);
    assert("LaravelOptimize"@[0] != "WriteCaddyRoute"@[0]);
    assert("SystemdService"@[0] != "PreflightCheck"@[0]);
    assert("SystemdService"@[0] != "VerifySnapshot"@[0]);
    assert("SystemdService"@[1] != "StaticSiteSync"@[1]);
    assert("WriteFile"@[0] != "ComposeUp"@[0]);
    assert("WriteRegistry"@[0] != "ValidateCaddy"@[0]);
}

/// The parts of a plan's steps, each of one kind.
spec fn part(plan: DeployPlanView, n: int) -> Seq<DeployOperationView> {
    if n == 0 {
        gate_steps(plan).take(1)
    } else if n == 1 {
        gate_steps(plan).skip(1)
    } else if n == 2 {
        port_steps(plan)
    } else if n == 3 {
        plan.changes.caddy.routes.map_values(|route: CaddyRouteChangeView| route_step(route))
    } else if n == 4 {
        if changes_caddy(plan) {
            caddy_tail().take(1)
        } else {
            Seq::empty()
        }
    } else if n == 5 {
        if changes_caddy(plan) {
            caddy_tail().skip(1)
        } else {
            Seq::empty()
        }
    } else if n == 6 {
        compose_steps(plan)
    } else if n == 7 {
        site_steps(plan)
    } else if n == 8 {
        build_steps(plan)
    } else if n == 9 {
        laravel_steps(plan)
    } else if n == 10 {
        unit_steps(plan)
    } else if n == 11 {
        migration_steps(plan)
    } else if n == 12 {
        file_steps(plan)
    } else if n == 13 {
        health_steps(plan)
    } else {
        seq![registry_step()]
    }
}

/// The first parts of a plan's steps.
spec fn parts(plan: DeployPlanView, n: int) -> Seq<DeployOperationView>
    decreases n,
{
    if n <= 0 {
        Seq::empty()
    } else {
        parts(plan, n - 1) + part(plan, n - 1)
    }
}

#[verifier::spinoff_prover]
proof fn lemma_parts(plan: DeployPlanView)
    ensures
        planned_steps(plan) == parts(plan, 15),
{
    reveal_with_fuel(parts, 16);
    assert(gate_steps(plan) =~= part(plan, 0) + part(plan, 1));
    assert(caddy_steps(plan) =~= part(plan, 3) + part(plan, 4) + part(plan, 5));
    assert(planned_steps(plan) =~= parts(plan, 15));
}

proof fn lemma_part_is_of_one_kind(plan: DeployPlanView, n: int, i: int)
    requires
        0 <= n < 15,
        0 <= i < part(plan, n).len(),
    ensures
        phase(part(plan, n)[i].kind) == n,
{
    lemma_phases();
    if n == 12 {
        let plain = plan.changes.files.write;
        if i >= plain.len() {
            lemma_typed_step(plan.changes.files.typed[i - plain.len()]);
        }
    }
}

/// The steps in a phase.
spec fn in_phase(n: int) -> spec_fn(DeployOperationView) -> bool {
    |o: DeployOperationView| phase(o.kind) == n
}

proof fn lemma_phase_of_parts(plan: DeployPlanView, m: int, n: int)
    requires
        0 <= n < 15,
        0 <= m <= 15,
    ensures
        kept(parts(plan, m), in_phase(n)) == if n < m {
            part(plan, n)
        } else {
            Seq::empty()
        },
    decreases m,
{
    if m > 0 {
        lemma_phase_of_parts(plan, m - 1, n);
        let p = part(plan, m - 1);
        law_kept_of_both(parts(plan, m - 1), p, in_phase(n));
        law_all_or_none_is_kept(p, in_phase(n));
        assert forall|i: int| 0 <= i < p.len() implies phase((#[trigger] p[i]).kind) == m - 1 by {
            lemma_part_is_of_one_kind(plan, m - 1, i);
        }
        if n == m - 1 {
            assert(kept(p, in_phase(n)) == p);
        } else {
            assert(kept(p, in_phase(n)).len() == 0);
            assert(kept(p, in_phase(n)) =~= Seq::empty());
        }
        assert(kept(parts(plan, m), in_phase(n)) =~= if n < m {
            part(plan, n)
        } else {
            Seq::empty()
        });
    } else {
        assert(kept(parts(plan, m), in_phase(n)) =~= Seq::empty());
    }
}

proof fn lemma_same_are_kept(
    s: Seq<DeployOperationView>,
    p: spec_fn(DeployOperationView) -> bool,
    q: spec_fn(DeployOperationView) -> bool,
)
    requires
        forall|o: DeployOperationView| #[trigger] p(o) == q(o),
    ensures
        kept(s, p) == kept(s, q),
    decreases s.len(),
{
    if s.len() > 0 {
        lemma_same_are_kept(s.drop_last(), p, q);
    }
}

proof fn lemma_kept_in_places(s: Seq<DeployOperationView>, kind: Seq<char>)
    ensures
        kept(in_places(s), of_kind(kind)).len() == kept(s, of_kind(kind)).len(),
        forall|i: int|
            0 <= i < kept(s, of_kind(kind)).len() ==> #[trigger] kept(
                in_places(s),
                of_kind(kind),
            )[i] == (DeployOperationView {
                order: kept(in_places(s), of_kind(kind))[i].order,
                ..kept(s, of_kind(kind))[i]
            }),
    decreases s.len(),
{
    if s.len() > 0 {
        let d = s.drop_last();
        lemma_kept_in_places(d, kind);
        assert(in_places(s).drop_last() =~= in_places(d));
        let p = of_kind(kind);
        let a = kept(in_places(d), p);
        let b = kept(d, p);
        if p(s.last()) {
            assert forall|i: int| 0 <= i < b.len() + 1 implies #[trigger] a.push(
                in_places(s).last(),
            )[i] == (DeployOperationView {
                order: a.push(in_places(s).last())[i].order,
                ..b.push(s.last())[i]
            }) by {
                if i < b.len() {
                    assert(a[i] == (DeployOperationView { order: a[i].order, ..b[i] }));
                }
            }
        }
    }
}

/// What the steps of one kind are, but for their numbers.
proof fn lemma_steps_of(plan: DeployPlanView, kind: Seq<char>)
    requires
        phase(kind) < 15,
    ensures
        steps_of(plan, kind).len() == part(plan, phase(kind)).len(),
        forall|i: int|
            0 <= i < steps_of(plan, kind).len() ==> #[trigger] steps_of(plan, kind)[i] == (
            DeployOperationView {
                order: steps_of(plan, kind)[i].order,
                ..part(plan, phase(kind))[i]
            }),
{
    lemma_parts(plan);
    let n = phase(kind);
    lemma_phase_of_parts(plan, 15, n);
    let p = in_phase(n);
    let q = of_kind(kind);
    lemma_phases();
    assert forall|o: DeployOperationView| #[trigger] p(o) == q(o) by {}
    lemma_same_are_kept(planned_steps(plan), p, q);
    lemma_kept_in_places(planned_steps(plan), kind);
}

proof fn lemma_given(o: DeployOperationView, key: Seq<char>, value: Seq<char>, other: Seq<char>)
    requires
        keys_increase(o.params),
    ensures
        keys_increase(o.given(key, value).params),
        value_at(o.given(key, value).params, key) == Some(value),
        other != key ==> value_at(o.given(key, value).params, other) == value_at(o.params, other),
{
    law_values_read_back(o.params, key, value, other);
}

/// The steps come in the order of their phases: the checks, the ports, Caddy, the
/// containers, the sites, the builds, Laravel, the units, the migration, the files, the
/// health check and the registry.
pub proof fn law_steps_come_in_phases(plan: DeployPlanView, i: int, j: int)
    requires
        0 <= i <= j < deploy_steps(plan).len(),
    ensures
        0 <= phase(deploy_steps(plan)[i].kind) <= phase(deploy_steps(plan)[j].kind) < 15,
{
    lemma_parts(plan);
    lemma_parts_in_phases(plan, 15, i, j);
}

proof fn lemma_parts_in_phases(plan: DeployPlanView, n: int, i: int, j: int)
    requires
        0 <= n <= 15,
        0 <= i <= j < parts(plan, n).len(),
    ensures
        0 <= phase(parts(plan, n)[i].kind) <= phase(parts(plan, n)[j].kind) < n,
    decreases n,
{
    let before = parts(plan, n - 1);
    let p = part(plan, n - 1);
    if j < before.len() {
        lemma_parts_in_phases(plan, n - 1, i, j);
    } else {
        lemma_part_is_of_one_kind(plan, n - 1, j - before.len());
        if i < before.len() {
            lemma_parts_in_phases(plan, n - 1, i, i);
        } else {
            lemma_part_is_of_one_kind(plan, n - 1, i - before.len());
        }
    }
}

/// Every deploy checks the plan once, and the snapshot once where the plan requires
/// one; it writes the registry once, and checks what was deployed once where that is
/// enabled.
pub proof fn law_gates_are_steps(plan: DeployPlanView)
    ensures
        steps_of(plan, "PreflightCheck"@).len() == 1,
        steps_of(plan, "PreflightCheck"@)[0].target == plan.id,
        steps_of(plan, "VerifySnapshot"@).len() == (if plan.snapshot_required == Some(true) {
            1nat
        } else {
            0nat
        }),
        steps_of(plan, "WriteRegistry"@).len() == 1,
        steps_of(plan, "PostDeployHealthCheck"@).len() == (if plan.changes.health.enabled {
            1nat
        } else {
            0nat
        }),
        plan.changes.health.enabled ==> {
            let o = steps_of(plan, "PostDeployHealthCheck"@)[0];
            let health = plan.changes.health;
            &&& o.target == plan.id
            &&& value_at(o.params, "docker"@) == Some(
                if health.docker == Some(false) {
                    "false"@
                } else {
                    "true"@
                },
            )
            &&& value_at(o.params, "ports"@) == Some(
                if health.ports == Some(false) {
                    "false"@
                } else {
                    "true"@
                },
            )
            &&& value_at(o.params, "caddy"@) == Some(
                if health.caddy == Some(false) {
                    "false"@
                } else {
                    "true"@
                },
            )
            &&& value_at(o.params, "static_site"@) == Some(
                if health.static_site == Some(false) {
                    "false"@
                } else {
                    "true"@
                },
            )
        },
{
    lemma_phases();
    lemma_steps_of(plan, "PreflightCheck"@);
    lemma_steps_of(plan, "VerifySnapshot"@);
    lemma_steps_of(plan, "WriteRegistry"@);
    lemma_steps_of(plan, "PostDeployHealthCheck"@);
    if plan.changes.health.enabled {
        let health = plan.changes.health;
        let o = steps_of(plan, "PostDeployHealthCheck"@)[0];
        reveal_strlit("docker");
        reveal_strlit("ports");
        reveal_strlit("caddy");
        reveal_strlit("static_site");
        assert("ports"@[0] != "caddy"@[0]);
        assert("docker"@.len() == 6 && "ports"@.len() == 5 && "caddy"@.len() == 5
            && "static_site"@.len() == 11);
        let a = planned_step(
            "PostDeployHealthCheck"@,
            plan.id,
            "Verify declared Docker containers, ports, Caddy routes, and static-site files after deployment."@,
        );
        let b = a.given("docker"@, bool_word(category_enabled(health.docker)));
        let c = b.given("ports"@, bool_word(category_enabled(health.ports)));
        let d = c.given("caddy"@, bool_word(category_enabled(health.caddy)));
        let e = d.given("static_site"@, bool_word(category_enabled(health.static_site)));
        lemma_given(a, "docker"@, bool_word(category_enabled(health.docker)), "docker"@);
        lemma_given(b, "ports"@, bool_word(category_enabled(health.ports)), "docker"@);
        lemma_given(c, "caddy"@, bool_word(category_enabled(health.caddy)), "docker"@);
        lemma_given(d, "static_site"@, bool_word(category_enabled(health.static_site)), "docker"@);
        lemma_given(c, "caddy"@, bool_word(category_enabled(health.caddy)), "ports"@);
        lemma_given(d, "static_site"@, bool_word(category_enabled(health.static_site)), "ports"@);
        lemma_given(d, "static_site"@, bool_word(category_enabled(health.static_site)), "caddy"@);
        assert(o.params == e.params);
    }
}

/// Every port that a plan reserves has its step, in the plan's order, and nothing else
/// reserves one.
pub proof fn law_ports_are_steps(plan: DeployPlanView)
    ensures
        ({
            let ports = plan.changes.ports.reserve;
            let steps = steps_of(plan, "ReservePort"@);
            &&& steps.len() == ports.len()
            &&& forall|i: int|
                0 <= i < ports.len() ==> (#[trigger] steps[i]).target == decimal(ports[i] as nat)
                    && !steps[i].requires_privilege && value_at(steps[i].params, "port"@) == Some(
                    decimal(ports[i] as nat),
                )
        }),
{
    lemma_phases();
    lemma_steps_of(plan, "ReservePort"@);
    let ports = plan.changes.ports.reserve;
    let steps = steps_of(plan, "ReservePort"@);
    assert forall|i: int| 0 <= i < ports.len() implies (#[trigger] steps[i]).target == decimal(
        ports[i] as nat,
    ) && !steps[i].requires_privilege && value_at(steps[i].params, "port"@) == Some(
        decimal(ports[i] as nat),
    ) by {
        let a = planned_step(
            "ReservePort"@,
            decimal(ports[i] as nat),
            "Reserve the port in the registry after successful execution."@,
        );
        lemma_given(a, "port"@, decimal(ports[i] as nat), "port"@);
        assert(part(plan, 2)[i] == port_step(ports[i]));
    }
}

/// Every route of a plan has its step, with privilege, in the plan's order. Where there
/// is a route, or a file that is written is the Caddy configuration or a snippet of it,
/// that configuration is checked once and then put into effect once; otherwise neither
/// happens.
#[verifier::spinoff_prover]
pub proof fn law_routes_are_steps(plan: DeployPlanView)
    ensures
        ({
            let routes = plan.changes.caddy.routes;
            let steps = steps_of(plan, "WriteCaddyRoute"@);
            &&& steps.len() == routes.len()
            &&& forall|i: int|
                0 <= i < routes.len() ==> (#[trigger] steps[i]).target == routes[i].host + " -> "@
                    + routes[i].upstream && steps[i].requires_privilege && value_at(
                    steps[i].params,
                    "host"@,
                ) == Some(routes[i].host) && value_at(steps[i].params, "upstream"@) == Some(
                    routes[i].upstream,
                )
        }),
        ({
            let files = plan.changes.files;
            let changed = plan.changes.caddy.routes.len() > 0 || (exists|i: int|
                0 <= i < files.write.len() && same_path_spec(
                    #[trigger] files.write[i],
                    "/etc/caddy/Caddyfile"@,
                )) || (exists|i: int|
                0 <= i < files.typed.len() && (#[trigger] files.typed[i]).kind
                    == "caddy_route_snippet"@);
            let checks = steps_of(plan, "ValidateCaddy"@);
            let reloads = steps_of(plan, "ReloadCaddy"@);
            &&& checks.len() == (if changed {
                1nat
            } else {
                0nat
            })
            &&& reloads.len() == checks.len()
            &&& changed ==> {
                &&& checks[0].requires_privilege
                &&& checks[0].argv == seq![
                    "caddy"@,
                    "validate"@,
                    "--config"@,
                    "/etc/caddy/Caddyfile"@,
                ]
                &&& reloads[0].requires_privilege
                &&& reloads[0].argv == seq!["systemctl"@, "reload"@, "caddy"@]
            }
        }),
{
    lemma_phases();
    lemma_steps_of(plan, "WriteCaddyRoute"@);
    lemma_steps_of(plan, "ValidateCaddy"@);
    lemma_steps_of(plan, "ReloadCaddy"@);
    let routes = plan.changes.caddy.routes;
    let steps = steps_of(plan, "WriteCaddyRoute"@);
    reveal_strlit("host");
    reveal_strlit("upstream");
    assert("host"@.len() != "upstream"@.len());
    assert forall|i: int| 0 <= i < routes.len() implies (#[trigger] steps[i]).target
        == routes[i].host + " -> "@ + routes[i].upstream && steps[i].requires_privilege && value_at(
        steps[i].params,
        "host"@,
    ) == Some(routes[i].host) && value_at(steps[i].params, "upstream"@) == Some(
        routes[i].upstream,
    ) by {
        let a = planned_step(
            "WriteCaddyRoute"@,
            routes[i].host + " -> "@ + routes[i].upstream,
            "Prepare a Caddy route update through the privileged helper."@,
        ).privileged();
        let b = a.given("host"@, routes[i].host);
        lemma_given(a, "host"@, routes[i].host, "host"@);
        lemma_given(b, "upstream"@, routes[i].upstream, "host"@);
        assert(part(plan, 3)[i] == route_step(routes[i]));
    }
    let files = plan.changes.files;
    lemma_any(files.write, |path: Seq<char>| same_path_spec(path, caddyfile()));
    lemma_any(files.typed, |w: TypedFileWriteView| w.kind == "caddy_route_snippet"@);
    if exists|i: int|
        0 <= i < files.write.len() && same_path_spec(
            #[trigger] files.write[i],
            "/etc/caddy/Caddyfile"@,
        ) {
        let i = choose|i: int|
            0 <= i < files.write.len() && same_path_spec(
                #[trigger] files.write[i],
                "/etc/caddy/Caddyfile"@,
            );
        assert((|path: Seq<char>| same_path_spec(path, caddyfile()))(files.write[i]));
    }
    if exists|i: int|
        0 <= i < files.typed.len() && (#[trigger] files.typed[i]).kind == "caddy_route_snippet"@ {
        let i = choose|i: int|
            0 <= i < files.typed.len() && (#[trigger] files.typed[i]).kind
                == "caddy_route_snippet"@;
        assert((|w: TypedFileWriteView| w.kind == "caddy_route_snippet"@)(files.typed[i]));
    }
    if changes_caddy(plan) {
        assert(checks_and_reloads(plan));
    }
}

/// The commands that check the configuration and put it into effect.
spec fn checks_and_reloads(plan: DeployPlanView) -> bool {
    &&& steps_of(plan, "ValidateCaddy"@)[0].argv == caddy_tail()[0].argv
    &&& steps_of(plan, "ReloadCaddy"@)[0].argv == caddy_tail()[1].argv
}

/// The containers are started once, in the project's directory and with privilege,
/// where the plan names a project of theirs. Every directory that is published, every
/// build step, and every unit has its step, in the plan's order, and so has each wanted
/// artisan command.
#[verifier::spinoff_prover]
pub proof fn law_work_is_steps(plan: DeployPlanView)
    ensures
        ({
            let steps = steps_of(plan, "ComposeUp"@);
            &&& steps.len() == (if plan.changes.docker.compose_project is Some {
                1nat
            } else {
                0nat
            })
            &&& plan.changes.docker.compose_project matches Some(project) ==> {
                &&& steps[0].target == project
                &&& steps[0].requires_privilege
                &&& steps[0].working_dir == Some(plan.project_root)
                &&& steps[0].argv == seq![
                    "docker"@,
                    "compose"@,
                    "--project-name"@,
                    project,
                    "up"@,
                    "-d"@,
                ]
                &&& value_at(steps[0].params, "compose_project"@) == Some(project)
            }
        }),
        ({
            let syncs = plan.changes.static_site.sync;
            let steps = steps_of(plan, "StaticSiteSync"@);
            &&& steps.len() == syncs.len()
            &&& forall|i: int|
                0 <= i < syncs.len() ==> (#[trigger] steps[i]).target == syncs[i].destination
                    && steps[i].requires_privilege && steps[i].working_dir == Some(
                    plan.project_root,
                ) && value_at(steps[i].params, "source"@) == Some(syncs[i].source) && value_at(
                    steps[i].params,
                    "destination"@,
                ) == Some(syncs[i].destination) && value_at(steps[i].params, "deployment_id"@)
                    == Some(syncs[i].deployment_id)
        }),
        ({
            let builds = plan.changes.build.steps;
            let steps = steps_of(plan, "RunBuild"@);
            &&& steps.len() == builds.len()
            &&& forall|i: int|
                0 <= i < builds.len() ==> {
                    let script = if builds[i].script is Some {
                        builds[i].script->0
                    } else {
                        "build"@
                    };
                    &&& (#[trigger] steps[i]).target == builds[i].adapter + " run "@ + script
                    &&& !steps[i].requires_privilege
                    &&& steps[i].working_dir == Some(plan.project_root)
                    &&& steps[i].argv == seq![builds[i].adapter, "run"@, script]
                    &&& value_at(steps[i].params, "adapter"@) == Some(builds[i].adapter)
                    &&& value_at(steps[i].params, "script"@) == Some(script)
                }
        }),
        ({
            let units = plan.changes.systemd.units;
            let steps = steps_of(plan, "SystemdService"@);
            &&& steps.len() == units.len()
            &&& forall|i: int|
                0 <= i < units.len() ==> (#[trigger] steps[i]).target == units[i].action + " "@
                    + units[i].unit && steps[i].requires_privilege && steps[i].argv == seq![
                    "systemctl"@,
                    units[i].action,
                    units[i].unit,
                ] && value_at(steps[i].params, "action"@) == Some(units[i].action) && value_at(
                    steps[i].params,
                    "unit"@,
                ) == Some(units[i].unit)
        }),
{
    lemma_phases();
    lemma_steps_of(plan, "ComposeUp"@);
    lemma_steps_of(plan, "StaticSiteSync"@);
    lemma_steps_of(plan, "RunBuild"@);
    lemma_steps_of(plan, "SystemdService"@);
    lemma_step_keys();
    if let Some(project) = plan.changes.docker.compose_project {
        let a = planned_step(
            "ComposeUp"@,
            project,
            "Run Docker Compose through an explicit project name wrapper."@,
        ).privileged().running(
            seq!["docker"@, "compose"@, "--project-name"@, project, "up"@, "-d"@],
        ).inside(plan.project_root);
        lemma_given(a, "compose_project"@, project, "compose_project"@);
        assert(part(plan, 6)[0] == a.given("compose_project"@, project));
    }
    let syncs = plan.changes.static_site.sync;
    let s = steps_of(plan, "StaticSiteSync"@);
    assert forall|i: int| 0 <= i < syncs.len() implies (#[trigger] s[i]).target
        == syncs[i].destination && s[i].requires_privilege && s[i].working_dir == Some(
        plan.project_root,
    ) && value_at(s[i].params, "source"@) == Some(syncs[i].source) && value_at(
        s[i].params,
        "destination"@,
    ) == Some(syncs[i].destination) && value_at(s[i].params, "deployment_id"@) == Some(
        syncs[i].deployment_id,
    ) by {
        assert(part(plan, 7)[i] == site_step(plan.project_root, syncs[i]));
        lemma_site_step(plan.project_root, syncs[i]);
    }
    let builds = plan.changes.build.steps;
    let b = steps_of(plan, "RunBuild"@);
    assert forall|i: int| 0 <= i < builds.len() implies {
        let script = if builds[i].script is Some {
            builds[i].script->0
        } else {
            "build"@
        };
        &&& (#[trigger] b[i]).target == builds[i].adapter + " run "@ + script
        &&& !b[i].requires_privilege
        &&& b[i].working_dir == Some(plan.project_root)
        &&& b[i].argv == seq![builds[i].adapter, "run"@, script]
        &&& value_at(b[i].params, "adapter"@) == Some(builds[i].adapter)
        &&& value_at(b[i].params, "script"@) == Some(script)
    } by {
        assert(part(plan, 8)[i] == build_step(plan.project_root, builds[i]));
        lemma_build_step(plan.project_root, builds[i]);
    }
    let units = plan.changes.systemd.units;
    let u = steps_of(plan, "SystemdService"@);
    assert forall|i: int| 0 <= i < units.len() implies (#[trigger] u[i]).target == units[i].action
        + " "@ + units[i].unit && u[i].requires_privilege && u[i].argv == seq![
        "systemctl"@,
        units[i].action,
        units[i].unit,
    ] && value_at(u[i].params, "action"@) == Some(units[i].action) && value_at(
        u[i].params,
        "unit"@,
    ) == Some(units[i].unit) by {
        assert(part(plan, 10)[i] == unit_step(units[i]));
        lemma_unit_step(units[i]);
    }
}

proof fn lemma_step_keys()
    ensures
        "source"@ != "destination"@ && "source"@ != "deployment_id"@ && "destination"@
            != "deployment_id"@,
        "adapter"@ != "script"@,
        "action"@ != "unit"@,
{
    reveal_strlit("source");
    reveal_strlit("destination");
    reveal_strlit("deployment_id");
    reveal_strlit("adapter");
    reveal_strlit("script");
    reveal_strlit("action");
    reveal_strlit("unit");
    assert("source"@.len() == 6 && "destination"@.len() == 11 && "deployment_id"@.len() == 13);
    assert("adapter"@.len() == 7 && "script"@.len() == 6);
    assert("action"@.len() == 6 && "unit"@.len() == 4);
}

proof fn lemma_site_step(root: Seq<char>, sync: StaticSiteSyncView)
    ensures
        value_at(site_step(root, sync).params, "source"@) == Some(sync.source),
        value_at(site_step(root, sync).params, "destination"@) == Some(sync.destination),
        value_at(site_step(root, sync).params, "deployment_id"@) == Some(sync.deployment_id),
{
    lemma_step_keys();
    let a = planned_step(
        "StaticSiteSync"@,
        sync.destination,
        "Copy static site output through the managed no-delete static sync adapter."@,
    ).privileged().inside(root);
    let b = a.given("source"@, sync.source);
    let c = b.given("destination"@, sync.destination);
    lemma_given(a, "source"@, sync.source, "source"@);
    lemma_given(b, "destination"@, sync.destination, "source"@);
    lemma_given(c, "deployment_id"@, sync.deployment_id, "source"@);
    lemma_given(c, "deployment_id"@, sync.deployment_id, "destination"@);
}

proof fn lemma_build_step(root: Seq<char>, step: BuildStepView)
    ensures
        ({
            let script = text_or(step.script, "build"@);
            &&& value_at(build_step(root, step).params, "adapter"@) == Some(step.adapter)
            &&& value_at(build_step(root, step).params, "script"@) == Some(script)
        }),
{
    lemma_step_keys();
    let script = text_or(step.script, "build"@);
    let a = planned_step(
        "RunBuild"@,
        step.adapter + " run "@ + script,
        "Run an allowlisted package-manager build step in the project root."@,
    ).running(build_argv(step.adapter, script)).inside(root);
    let b = a.given("adapter"@, step.adapter);
    lemma_given(a, "adapter"@, step.adapter, "adapter"@);
    lemma_given(b, "script"@, script, "adapter"@);
}

proof fn lemma_unit_step(unit: SystemdUnitChangeView)
    ensures
        value_at(unit_step(unit).params, "action"@) == Some(unit.action),
        value_at(unit_step(unit).params, "unit"@) == Some(unit.unit),
{
    lemma_step_keys();
    let a = planned_step(
        "SystemdService"@,
        unit.action + " "@ + unit.unit,
        "Run an allowlisted systemd service reload/restart through the controlled command runner."@,
    ).privileged().running(seq!["systemctl"@, unit.action, unit.unit]);
    let b = a.given("action"@, unit.action);
    lemma_given(a, "action"@, unit.action, "action"@);
    lemma_given(b, "unit"@, unit.unit, "action"@);
}

/// Whether a step runs an artisan command in the project's directory.
pub open spec fn runs_artisan(
    step: DeployOperationView,
    root: Seq<char>,
    action: Seq<char>,
) -> bool {
    &&& step.target == action
    &&& !step.requires_privilege
    &&& step.working_dir == Some(root)
    &&& step.argv == seq!["php"@, "artisan"@, action]
}

/// Each artisan command that a plan wants is run once: optimizing first, then caching
/// the configuration, the routes and the views; no other is run.
pub proof fn law_artisan_commands_are_steps(plan: DeployPlanView)
    ensures
        ({
            let wanted = plan.changes.laravel;
            let root = plan.project_root;
            let steps = steps_of(plan, "LaravelOptimize"@);
            let a: int = if wanted.optimize {
                1
            } else {
                0
            };
            let b: int = a + if wanted.config_cache {
                1int
            } else {
                0
            };
            let c: int = b + if wanted.route_cache {
                1int
            } else {
                0
            };
            let d: int = c + if wanted.view_cache {
                1int
            } else {
                0
            };
            &&& steps.len() == d
            &&& wanted.optimize ==> runs_artisan(steps[0], root, "optimize"@)
            &&& wanted.config_cache ==> runs_artisan(steps[a], root, "config:cache"@)
            &&& wanted.route_cache ==> runs_artisan(steps[b], root, "route:cache"@)
            &&& wanted.view_cache ==> runs_artisan(steps[c], root, "view:cache"@)
        }),
{
    lemma_phases();
    lemma_steps_of(plan, "LaravelOptimize"@);
}

/// A deploy migrates once where the plan requires it, with privilege and in the
/// project's directory, and does not migrate otherwise.
pub proof fn law_migration_is_a_step(plan: DeployPlanView)
    ensures
        steps_of(plan, "RunMigration"@).len() == (if plan.changes.migrations.required {
            1nat
        } else {
            0nat
        }),
        plan.changes.migrations.required ==> {
            let o = steps_of(plan, "RunMigration"@)[0];
            &&& o.target == "changes.migrations.command"@
            &&& o.requires_privilege
            &&& o.working_dir == Some(plan.project_root)
        },
{
    lemma_phases();
    lemma_steps_of(plan, "RunMigration"@);
}

/// Every file that a plan writes has its step, with privilege: first those without a
/// template, then those from one, each in the plan's order.
pub proof fn law_files_are_steps(plan: DeployPlanView)
    ensures
        ({
            let plain = plan.changes.files.write;
            let typed = plan.changes.files.typed;
            let steps = steps_of(plan, "WriteFile"@);
            &&& steps.len() == plain.len() + typed.len()
            &&& forall|i: int|
                0 <= i < plain.len() ==> (#[trigger] steps[i]).target == plain[i]
                    && steps[i].requires_privilege && steps[i].params.len() == 0
            &&& forall|i: int|
                #![trigger typed[i]]
                0 <= i < typed.len() ==> {
                    let step = steps[plain.len() + i];
                    &&& step.target == typed[i].path
                    &&& step.requires_privilege
                    &&& value_at(step.params, "path"@) == Some(typed[i].path)
                    &&& value_at(step.params, "template_kind"@) == Some(typed[i].kind)
                    &&& value_at(step.params, "mode"@) == (match typed[i].mode {
                        Some(mode) => Some(decimal(mode as nat)),
                        None => None,
                    })
                }
        }),
{
    lemma_phases();
    lemma_steps_of(plan, "WriteFile"@);
    let plain = plan.changes.files.write;
    let typed = plan.changes.files.typed;
    let steps = steps_of(plan, "WriteFile"@);
    assert forall|i: int| 0 <= i < plain.len() implies (#[trigger] steps[i]).target == plain[i]
        && steps[i].requires_privilege && steps[i].params.len() == 0 by {
        assert(part(plan, 12)[i] == write_step(plain[i]));
    }
    assert forall|i: int|
        #![trigger typed[i]]
        0 <= i < typed.len() implies {
        let step = steps[plain.len() + i];
        &&& step.target == typed[i].path
        &&& step.requires_privilege
        &&& value_at(step.params, "path"@) == Some(typed[i].path)
        &&& value_at(step.params, "template_kind"@) == Some(typed[i].kind)
        &&& value_at(step.params, "mode"@) == (match typed[i].mode {
            Some(mode) => Some(decimal(mode as nat)),
            None => None,
        })
    } by {
        let step = steps[plain.len() + i];
        assert(part(plan, 12)[plain.len() + i] == typed_step(typed[i]));
        lemma_typed_step(typed[i]);
    }
}

proof fn lemma_template_param_values(
    step: DeployOperationView,
    params: Seq<(Seq<char>, Seq<char>)>,
    key: Seq<char>,
)
    requires
        keys_increase(step.params),
        key.len() >= 4,
        key[2] != 'r',
    ensures
        keys_increase(with_template_params(step, params).params),
        value_at(with_template_params(step, params).params, key) == value_at(step.params, key),
        with_template_params(step, params).target == step.target,
        with_template_params(step, params).requires_privilege == step.requires_privilege,
    decreases params.len(),
{
    if params.len() > 0 {
        let before = with_template_params(step, params.drop_last());
        lemma_template_param_values(step, params.drop_last(), key);
        reveal_strlit("param.");
        let k = "param."@ + params.last().0;
        assert(k[2] == 'r');
        lemma_given(before, k, params.last().1, key);
    }
}

proof fn lemma_typed_step(write: TypedFileWriteView)
    ensures
        typed_step(write).kind == "WriteFile"@,
        typed_step(write).target == write.path,
        typed_step(write).requires_privilege,
        value_at(typed_step(write).params, "path"@) == Some(write.path),
        value_at(typed_step(write).params, "template_kind"@) == Some(write.kind),
        value_at(typed_step(write).params, "mode"@) == (match write.mode {
            Some(mode) => Some(decimal(mode as nat)),
            None => None,
        }),
{
    reveal_strlit("path");
    reveal_strlit("template_kind");
    reveal_strlit("mode");
    assert("path"@[0] != "mode"@[0]);
    assert("path"@[2] == 't' && "mode"@[2] == 'd' && "template_kind"@[2] == 'm');
    assert("path"@.len() == 4 && "mode"@.len() == 4 && "template_kind"@.len() == 13);
    let a = planned_step(
        "WriteFile"@,
        write.path,
        "Write generated file content through a typed opsctl template."@,
    ).privileged();
    let b = a.given("path"@, write.path);
    let c = b.given("template_kind"@, write.kind);
    lemma_given(a, "path"@, write.path, "path"@);
    lemma_given(a, "path"@, write.path, "mode"@);
    lemma_given(b, "template_kind"@, write.kind, "path"@);
    lemma_given(b, "template_kind"@, write.kind, "mode"@);
    assert(value_at(a.params, "mode"@) is None);
    let d = match write.mode {
        Some(mode) => c.given("mode"@, decimal(mode as nat)),
        None => c,
    };
    if let Some(mode) = write.mode {
        lemma_given(c, "mode"@, decimal(mode as nat), "path"@);
        lemma_given(c, "mode"@, decimal(mode as nat), "template_kind"@);
    }
    lemma_template_params(d, write.params);
    lemma_template_param_values(d, write.params, "path"@);
    lemma_template_param_values(d, write.params, "template_kind"@);
    lemma_template_param_values(d, write.params, "mode"@);
}

proof fn lemma_part_argv(plan: DeployPlanView, n: int, i: int)
    requires
        0 <= n < 15,
        0 <= i < part(plan, n).len(),
    ensures
        part(plan, n)[i].argv.len() > 0 <==> 4 <= n <= 6 || 8 <= n <= 10,
{
    if n == 12 {
        let plain = plan.changes.files.write;
        if i >= plain.len() {
            let write = plan.changes.files.typed[i - plain.len()];
            let step = planned_step(
                "WriteFile"@,
                write.path,
                "Write generated file content through a typed opsctl template."@,
            ).privileged().given("path"@, write.path).given("template_kind"@, write.kind);
            lemma_template_argv(
                match write.mode {
                    Some(mode) => step.given("mode"@, decimal(mode as nat)),
                    None => step,
                },
                write.params,
            );
        }
    }
}

proof fn lemma_template_argv(step: DeployOperationView, params: Seq<(Seq<char>, Seq<char>)>)
    ensures
        with_template_params(step, params).argv == step.argv,
    decreases params.len(),
{
    if params.len() > 0 {
        lemma_template_argv(step, params.drop_last());
    }
}

proof fn lemma_parts_argv(plan: DeployPlanView, n: int, i: int)
    requires
        0 <= n <= 15,
        0 <= i < parts(plan, n).len(),
    ensures
        parts(plan, n)[i].argv.len() > 0 <==> 4 <= phase(parts(plan, n)[i].kind) <= 6 || 8 <= phase(
            parts(plan, n)[i].kind,
        ) <= 10,
    decreases n,
{
    let before = parts(plan, n - 1);
    if i < before.len() {
        lemma_parts_argv(plan, n - 1, i);
    } else {
        lemma_part_is_of_one_kind(plan, n - 1, i - before.len());
        lemma_part_argv(plan, n - 1, i - before.len());
    }
}

/// A step of a deploy has a command exactly where it checks Caddy's configuration or puts
/// it into effect, starts the containers, builds, runs an artisan command, or deals with
/// a unit.
pub proof fn lemma_argv(plan: DeployPlanView, i: int)
    requires
        0 <= i < deploy_steps(plan).len(),
    ensures
        deploy_steps(plan)[i].argv.len() > 0 <==> 4 <= phase(deploy_steps(plan)[i].kind) <= 6 || 8
            <= phase(deploy_steps(plan)[i].kind) <= 10,
{
    lemma_parts(plan);
    lemma_parts_argv(plan, 15, i);
}

} // verus!
