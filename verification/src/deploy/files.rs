//! Static sites, migrations and files from templates.

use vstd::prelude::*;
use crate::deploy::run::{CommandCall, CommandCallView, bare_result, success_result};
use crate::deploy::types::{DeployOperation, DeployOperationResult, DeployPlan};
use crate::doctor::{deployment_is_safe, safe_deployment_id};
use crate::each::{any_where, choose_each};
use crate::entries::{EntryKind, refuse, refused};
use crate::list::{any, chosen, extend, includes, law_chosen, lemma_any};
use crate::number::{count_text, decimal, decimal_text, parse_unsigned, parsed_unsigned};
use crate::pairs::{get_value, value_at};
use crate::paths::{
    climbs, extension, extension_spec, file_name, file_name_spec, full_components,
    has_parent_component, is_absolute, is_absolute_spec, path_is_within, path_join, path_joined,
    same_path, same_path_spec, within,
};
use crate::text::{
    begins, cat2, cat3, cat4, cat5, chars_of, contains_char, join, joined,
    law_found_parts_are_there, lowered, same, starts_with, to_lower, trim, trimmed,
};
use crate::words::{split_words, words};

verus! {

broadcast use {vstd::seq::group_seq_axioms, vstd::string::group_string_axioms};

// ---------------------------------------------------------------------------
// Parameters of steps
// ---------------------------------------------------------------------------

/// A parameter that is a safe path, or what is wrong with it.
pub open spec fn path_param(params: Seq<(Seq<char>, Seq<char>)>, key: Seq<char>) -> Result<
    Seq<char>,
    Seq<char>,
> {
    match value_at(params, key) {
        None => Err("missing typed file param "@ + key),
        Some(path) => if !is_absolute_spec(path) {
            Err("typed file path must be absolute: "@ + path)
        } else if climbs(path) {
            Err("typed file path must not contain parent traversal"@)
        } else {
            Ok(path)
        },
    }
}

/// A parameter that is a safe path; an error if it is missing or not one.
pub fn operation_param_path(operation: &DeployOperation, key: &str) -> (r: Result<String, String>)
    ensures
        match path_param(operation.deep_view().params, key@) {
            Ok(path) => r is Ok && r->Ok_0@ == path,
            Err(error) => r is Err && r->Err_0@ == error,
        },
{
    match get_value(&operation.params, key) {
        None => Err(cat2("missing typed file param ", key)),
        Some(path) => if !is_absolute(path) {
            Err(cat2("typed file path must be absolute: ", path))
        } else if has_parent_component(path) {
            Err("typed file path must not contain parent traversal".to_string())
        } else {
            Ok(path.to_string())
        },
    }
}

// ---------------------------------------------------------------------------
// Static sites
// ---------------------------------------------------------------------------

/// How many files a site may have.
pub const STATIC_SITE_MAX_FILES: usize = 20000;

/// How many bytes a site may have.
pub const STATIC_SITE_MAX_BYTES: u64 = 1073741824;

/// How many bytes a file of a site may have.
pub const STATIC_SITE_MAX_FILE_BYTES: u64 = 134217728;

/// The name of the file that marks a directory as managed.
pub open spec fn site_marker() -> Seq<char> {
    ".opsctl-static-site"@
}

/// The name of the file that marks a directory as managed.
pub fn static_site_marker() -> (r: &'static str)
    ensures
        r@ == site_marker(),
{
    ".opsctl-static-site"
}

/// Where a site comes from, or what is wrong with it.
pub open spec fn site_source(root: Seq<char>, params: Seq<(Seq<char>, Seq<char>)>) -> Result<
    Seq<char>,
    Seq<char>,
> {
    match value_at(params, "source"@) {
        None => Err("missing static site source"@),
        Some(source) => if climbs(source) {
            Err("static site source must not contain parent traversal"@)
        } else {
            Ok(path_joined(root, source))
        },
    }
}

/// Where a site comes from, before links are resolved.
pub fn static_site_source_path(plan: &DeployPlan, operation: &DeployOperation) -> (r: Result<
    String,
    String,
>)
    ensures
        match site_source(plan.deep_view().project_root, operation.deep_view().params) {
            Ok(path) => r is Ok && r->Ok_0@ == path,
            Err(error) => r is Err && r->Err_0@ == error,
        },
{
    match get_value(&operation.params, "source") {
        None => Err("missing static site source".to_string()),
        Some(source) => if has_parent_component(source) {
            Err("static site source must not contain parent traversal".to_string())
        } else {
            Ok(path_join(&plan.project_root, source))
        },
    }
}

/// Refuses a source that lies outside the project, once links are resolved.
pub fn check_source_inside(source: &str, project_root: &str) -> (r: Result<(), String>)
    ensures
        r is Ok <==> within(source@, project_root@),
        r is Err ==> r->Err_0@ == "static site source "@ + source@
            + " must stay within project root "@ + project_root@,
{
    if !path_is_within(source, project_root) {
        return Err(
            cat4("static site source ", source, " must stay within project root ", project_root),
        );
    }
    Ok(())
}

/// Why a directory cannot be published.
pub fn refuse_site_source(entry: EntryKind, path: &str) -> (r: Option<String>)
    ensures
        r.deep_view() == refused(
            Some(entry),
            EntryKind::Dir,
            "refusing static site source symlink: "@ + path@,
            "static site source must be a directory: "@ + path@,
        ),
{
    refuse(
        Some(entry),
        EntryKind::Dir,
        cat2("refusing static site source symlink: ", path),
        cat2("static site source must be a directory: ", path),
    )
}

/// Where sites are usually published.
pub open spec fn usual_roots() -> Seq<Seq<char>> {
    seq![
        "/srv/www"@,
        "/srv/static"@,
        "/var/www"@,
        "/opt/opsctl/static-sites"@,
    ]
}

/// Where sites are usually published.
pub fn usual_site_roots() -> (r: Vec<String>)
    ensures
        r.deep_view() == usual_roots(),
{
    let list: Vec<String> = vec![
        "/srv/www".to_string(),
        "/srv/static".to_string(),
        "/var/www".to_string(),
        "/opt/opsctl/static-sites".to_string(),
    ];
    proof {
        assert(list.deep_view() =~= usual_roots());
    }
    list
}

/// Where sites may be published: the usual places, and those of the others that are
/// absolute.
pub open spec fn site_roots(extra: Seq<Seq<char>>) -> Seq<Seq<char>> {
    usual_roots() + chosen(
        extra,
        |path: Seq<char>|
            if is_absolute_spec(path) {
                Some(path)
            } else {
                None
            },
    )
}

/// Where sites may be published.
pub fn static_site_allowed_roots(extra: &Vec<String>) -> (r: Vec<String>)
    ensures
        r.deep_view() == site_roots(extra.deep_view()),
{
    let mut roots = usual_site_roots();
    let more = choose_each(
        extra,
        |path: &String| -> (r: Option<String>)
            ensures
                r.deep_view() == (if is_absolute_spec(path@) {
                    Some(path@)
                } else {
                    None
                })
            {
                if is_absolute(path) {
                    Some(path.clone())
                } else {
                    None
                }
            },
        Ghost(
            |path: Seq<char>|
                if is_absolute_spec(path) {
                    Some(path)
                } else {
                    None
                },
        ),
    );
    extend(&mut roots, &more);
    roots
}

/// Whether a path lies below a place, and not at it.
pub open spec fn strictly_within(path: Seq<char>, root: Seq<char>) -> bool {
    within(path, root) && !same_path_spec(path, root)
}

/// Whether a site may be published at a path.
pub open spec fn destination_allowed(path: Seq<char>, extra: Seq<Seq<char>>) -> bool {
    is_absolute_spec(path) && any(
        site_roots(extra),
        |root: Seq<char>| strictly_within(path, root),
    )
}

/// Whether a site may be published at a path.
pub fn static_site_destination_allowed(path: &str, extra: &Vec<String>) -> (r: bool)
    ensures
        r == destination_allowed(path@, extra.deep_view()),
{
    if !is_absolute(path) {
        return false;
    }
    any_where(
        &static_site_allowed_roots(extra),
        |root: &String| -> (b: bool)
            ensures
                b == strictly_within(path@, root@)
            { path_is_within(path, root) && !same_path(path, root) },
        Ghost(|root: Seq<char>| strictly_within(path@, root)),
    )
}

/// What is wrong with the place where a site is to be published.
pub open spec fn destination_error(
    path: Seq<char>,
    extra: Seq<Seq<char>>,
    linked: bool,
) -> Option<Seq<char>> {
    if !is_absolute_spec(path) {
        Some("static site destination must be absolute: "@ + path)
    } else if climbs(path) {
        Some("static site destination must not contain parent traversal"@)
    } else if !destination_allowed(path, extra) {
        Some(
            "static site destination is outside OPSCTL_STATIC_SITE_ROOTS allowlist: "@ + path,
        )
    } else if linked {
        Some("refusing static site destination with symlink ancestor: "@ + path)
    } else {
        None
    }
}

/// What is wrong with the place where a site is to be published; `linked` says
/// whether a directory above it is a link.
pub fn validate_static_site_destination(path: &str, extra: &Vec<String>, linked: bool) -> (r:
    Option<String>)
    ensures
        r.deep_view() == destination_error(path@, extra.deep_view(), linked),
{
    if !is_absolute(path) {
        return Some(cat2("static site destination must be absolute: ", path));
    }
    if has_parent_component(path) {
        return Some("static site destination must not contain parent traversal".to_string());
    }
    if !static_site_destination_allowed(path, extra) {
        return Some(
            cat2("static site destination is outside OPSCTL_STATIC_SITE_ROOTS allowlist: ", path),
        );
    }
    if linked {
        return Some(cat2("refusing static site destination with symlink ancestor: ", path));
    }
    None
}

/// Refuses a text that cannot name a deployment.
pub fn validate_static_site_deployment_id(deployment_id: &str) -> (r: Result<(), String>)
    ensures
        r is Ok <==> deployment_is_safe(deployment_id@),
        r is Err ==> r->Err_0@ == "invalid static site deployment_id"@,
{
    if !safe_deployment_id(deployment_id) {
        return Err("invalid static site deployment_id".to_string());
    }
    Ok(())
}

/// A site that is to be published.
#[derive(Debug)]
pub struct StaticSitePlan {
    pub source: String,
    pub destination: String,
    pub deployment_id: String,
}

/// View of [`StaticSitePlan`].
#[verifier::ext_equal]
pub struct StaticSitePlanView {
    pub source: Seq<char>,
    pub destination: Seq<char>,
    pub deployment_id: Seq<char>,
}

impl DeepView for StaticSitePlan {
    type V = StaticSitePlanView;

    open spec fn deep_view(&self) -> StaticSitePlanView {
        StaticSitePlanView {
            source: self.source.deep_view(),
            destination: self.destination.deep_view(),
            deployment_id: self.deployment_id.deep_view(),
        }
    }
}

/// A site that is to be published, or what is wrong with it.
pub open spec fn site_plan(
    root: Seq<char>,
    params: Seq<(Seq<char>, Seq<char>)>,
    extra: Seq<Seq<char>>,
) -> Result<StaticSitePlanView, Seq<char>> {
    match site_source(root, params) {
        Err(error) => Err(error),
        Ok(source) => match path_param(params, "destination"@) {
            Err(error) => Err(error),
            Ok(destination) => match value_at(params, "deployment_id"@) {
                None => Err("missing static site deployment_id"@),
                Some(deployment_id) => if !deployment_is_safe(deployment_id) {
                    Err("invalid static site deployment_id"@)
                } else {
                    match destination_error(destination, extra, false) {
                        Some(error) => Err(error),
                        None => Ok(StaticSitePlanView { source, destination, deployment_id }),
                    }
                },
            },
        },
    }
}

/// A site that is to be published, before links are resolved; an error says what is
/// wrong with it.
pub fn execute_static_site_sync(
    plan: &DeployPlan,
    operation: &DeployOperation,
    extra_roots: &Vec<String>,
) -> (r: Result<StaticSitePlan, String>)
    ensures
        match site_plan(
            plan.deep_view().project_root,
            operation.deep_view().params,
            extra_roots.deep_view(),
        ) {
            Ok(site) => r is Ok && r->Ok_0.deep_view() == site,
            Err(error) => r is Err && r->Err_0@ == error,
        },
{
    let source = match static_site_source_path(plan, operation) {
        Ok(source) => source,
        Err(error) => {
            return Err(error);
        },
    };
    let destination = match operation_param_path(operation, "destination") {
        Ok(destination) => destination,
        Err(error) => {
            return Err(error);
        },
    };
    let deployment_id = match get_value(&operation.params, "deployment_id") {
        Some(id) => id.to_string(),
        None => {
            return Err("missing static site deployment_id".to_string());
        },
    };
    if let Err(error) = validate_static_site_deployment_id(&deployment_id) {
        return Err(error);
    }
    if let Some(error) = validate_static_site_destination(&destination, extra_roots, false) {
        return Err(error);
    }
    Ok(StaticSitePlan { source, destination, deployment_id })
}

/// Why a directory that is there cannot be published into. One without the marker
/// is managed only if it is empty.
pub open spec fn destination_refusal(
    path: Seq<char>,
    entry: Option<EntryKind>,
    marker: Option<EntryKind>,
    has_entries: bool,
) -> Option<Seq<char>> {
    match refused(
        entry,
        EntryKind::Dir,
        "refusing static site destination symlink: "@ + path,
        "static site destination is not a directory: "@ + path,
    ) {
        Some(why) => Some(why),
        None => if entry is None {
            None
        } else {
            match marker {
                Some(kind) => if kind != EntryKind::File {
                    Some(
                        "static site marker is not a regular file: "@ + path_joined(
                            path,
                            site_marker(),
                        ),
                    )
                } else {
                    None
                },
                None => if has_entries {
                    Some(
                        "refusing to sync into unmanaged non-empty static site destination: "@
                            + path,
                    )
                } else {
                    None
                },
            }
        },
    }
}

/// Why a directory cannot be published into: what is at the path, what is at its
/// marker, and whether it has entries.
pub fn ensure_static_site_destination(
    path: &str,
    entry: Option<EntryKind>,
    marker: Option<EntryKind>,
    has_entries: bool,
) -> (r: Option<String>)
    ensures
        r.deep_view() == destination_refusal(path@, entry, marker, has_entries),
{
    if let Some(why) = refuse(
        entry,
        EntryKind::Dir,
        cat2("refusing static site destination symlink: ", path),
        cat2("static site destination is not a directory: ", path),
    ) {
        return Some(why);
    }
    if entry.is_none() {
        return None;
    }
    match marker {
        Some(kind) => if kind != EntryKind::File {
            Some(
                cat2(
                    "static site marker is not a regular file: ",
                    &path_join(path, static_site_marker()),
                ),
            )
        } else {
            None
        },
        None => if has_entries {
            Some(
                cat2(
                    "refusing to sync into unmanaged non-empty static site destination: ",
                    path,
                ),
            )
        } else {
            None
        },
    }
}

/// Why a directory of a site cannot be used. One that is missing can be made.
pub fn ensure_static_site_target_dir(path: &str, entry: Option<EntryKind>, linked: bool) -> (r:
    Option<String>)
    ensures
        r.deep_view() == (if linked {
            Some("refusing static site target directory with symlink ancestor: "@ + path@)
        } else {
            refused(
                entry,
                EntryKind::Dir,
                "refusing static site target directory symlink: "@ + path@,
                "static site target path is not a directory: "@ + path@,
            )
        }),
{
    if linked {
        return Some(
            cat2("refusing static site target directory with symlink ancestor: ", path),
        );
    }
    refuse(
        entry,
        EntryKind::Dir,
        cat2("refusing static site target directory symlink: ", path),
        cat2("static site target path is not a directory: ", path),
    )
}

/// Why a file of a site cannot be written.
pub fn ensure_static_site_target_file(path: &str, entry: Option<EntryKind>) -> (r: Option<String>)
    ensures
        r.deep_view() == refused(
            entry,
            EntryKind::File,
            "refusing static site target file symlink: "@ + path@,
            "static site target path is not a regular file: "@ + path@,
        ),
{
    refuse(
        entry,
        EntryKind::File,
        cat2("refusing static site target file symlink: ", path),
        cat2("static site target path is not a regular file: ", path),
    )
}

/// Whether a file looks like it holds secrets.
pub open spec fn looks_secret(path: Seq<char>) -> bool {
    match file_name_spec(path) {
        None => true,
        Some(name) => {
            let lower = lowered(name);
            lower == ".env"@ || begins(lower, ".env."@) || match extension_spec(path) {
                Some(extension) => {
                    let e = lowered(extension);
                    e == "pem"@ || e == "key"@ || e == "p12"@ || e == "pfx"@
                },
                None => false,
            }
        },
    }
}

/// Whether a file looks like it holds secrets.
pub fn static_site_file_is_sensitive(path: &str) -> (r: bool)
    ensures
        r == looks_secret(path@),
{
    let name = match file_name(path) {
        Some(name) => name,
        None => {
            return true;
        },
    };
    let lower = to_lower(&name);
    if same(&lower, ".env") || starts_with(&lower, ".env.") {
        return true;
    }
    match extension(path) {
        Some(ext) => {
            let e = to_lower(&ext);
            same(&e, "pem") || same(&e, "key") || same(&e, "p12") || same(&e, "pfx")
        },
        None => false,
    }
}

/// How much of a site was copied.
#[derive(Debug)]
pub struct StaticSiteCopyResult {
    pub files: usize,
    pub bytes: u64,
}

/// View of [`StaticSiteCopyResult`].
#[verifier::ext_equal]
pub struct StaticSiteCopyResultView {
    pub files: nat,
    pub bytes: u64,
}

impl DeepView for StaticSiteCopyResult {
    type V = StaticSiteCopyResultView;

    open spec fn deep_view(&self) -> StaticSiteCopyResultView {
        StaticSiteCopyResultView {
            files: self.files as nat,
            bytes: self.bytes,
        }
    }
}

/// An entry of a site: where it is, where it is within the site, and how large.
#[derive(Debug)]
pub struct SiteEntry {
    pub path: String,
    pub relative: String,
    pub kind: EntryKind,
    pub size: u64,
}

/// View of [`SiteEntry`].
#[verifier::ext_equal]
pub struct SiteEntryView {
    pub path: Seq<char>,
    pub relative: Seq<char>,
    pub kind: EntryKind,
    pub size: u64,
}

impl DeepView for SiteEntry {
    type V = SiteEntryView;

    open spec fn deep_view(&self) -> SiteEntryView {
        SiteEntryView {
            path: self.path.deep_view(),
            relative: self.relative.deep_view(),
            kind: self.kind,
            size: self.size,
        }
    }
}

/// What to do with an entry of a site.
#[derive(Debug, Clone, Copy, PartialEq, Eq, Structural)]
pub enum SiteAction {
    /// Make the directory, and go into it.
    Enter,
    /// Copy the file.
    Copy,
}

/// The sum, or the largest number.
pub open spec fn capped_sum(a: u64, b: u64) -> u64 {
    if a + b > u64::MAX {
        u64::MAX
    } else {
        (a + b) as u64
    }
}

/// What is wrong with an entry of a site.
pub open spec fn entry_error(so_far: StaticSiteCopyResultView, entry: SiteEntryView) -> Option<
    Seq<char>,
> {
    if entry.kind == EntryKind::Symlink {
        Some("refusing static site symlink: "@ + entry.path)
    } else if climbs(entry.relative) {
        Some("static site path traversal detected"@)
    } else if entry.kind == EntryKind::Dir {
        None
    } else if entry.kind != EntryKind::File {
        Some("refusing non-regular static site file: "@ + entry.path)
    } else if looks_secret(entry.relative) {
        Some("refusing to publish sensitive-looking static site file: "@ + entry.relative)
    } else if entry.size > STATIC_SITE_MAX_FILE_BYTES {
        Some("static site file exceeds per-file limit: "@ + entry.path)
    } else if so_far.files + 1 > STATIC_SITE_MAX_FILES {
        Some("static site sync exceeds file count limit"@)
    } else if capped_sum(so_far.bytes, entry.size) > STATIC_SITE_MAX_BYTES {
        Some("static site sync exceeds total byte limit"@)
    } else {
        None
    }
}

/// Decides what to do with an entry of a site, and counts the files that are copied.
/// An error ends the copy.
pub fn copy_static_site_entry(so_far: &mut StaticSiteCopyResult, entry: &SiteEntry) -> (r: Result<
    SiteAction,
    String,
>)
    requires
        old(so_far).files <= STATIC_SITE_MAX_FILES,
    ensures
        match entry_error(old(so_far).deep_view(), entry.deep_view()) {
            Some(error) => r is Err && r->Err_0@ == error,
            None => r == Ok::<SiteAction, String>(
                if entry.kind == EntryKind::Dir {
                    SiteAction::Enter
                } else {
                    SiteAction::Copy
                },
            ),
        },
        r is Ok ==> final(so_far).deep_view() == (if entry.kind == EntryKind::Dir {
            old(so_far).deep_view()
        } else {
            StaticSiteCopyResultView {
                files: old(so_far).deep_view().files + 1,
                bytes: capped_sum(old(so_far).bytes, entry.size),
            }
        }),
        r is Err ==> final(so_far).deep_view() == old(so_far).deep_view(),
        r is Ok ==> final(so_far).files <= STATIC_SITE_MAX_FILES,
{
    if entry.kind == EntryKind::Symlink {
        return Err(cat2("refusing static site symlink: ", &entry.path));
    }
    if has_parent_component(&entry.relative) {
        return Err("static site path traversal detected".to_string());
    }
    if entry.kind == EntryKind::Dir {
        return Ok(SiteAction::Enter);
    }
    if entry.kind != EntryKind::File {
        return Err(cat2("refusing non-regular static site file: ", &entry.path));
    }
    if static_site_file_is_sensitive(&entry.relative) {
        return Err(
            cat2(
                "refusing to publish sensitive-looking static site file: ",
                &entry.relative,
            ),
        );
    }
    if entry.size > STATIC_SITE_MAX_FILE_BYTES {
        return Err(cat2("static site file exceeds per-file limit: ", &entry.path));
    }
    let files = so_far.files + 1;
    let bytes = so_far.bytes.saturating_add(entry.size);
    if files > STATIC_SITE_MAX_FILES {
        return Err("static site sync exceeds file count limit".to_string());
    }
    if bytes > STATIC_SITE_MAX_BYTES {
        return Err("static site sync exceeds total byte limit".to_string());
    }
    so_far.files = files;
    so_far.bytes = bytes;
    Ok(SiteAction::Copy)
}

/// The file that marks a directory as managed.
pub open spec fn marker_content(deployment_id: Seq<char>) -> Seq<char> {
    "# Managed by opsctl static_site_sync\n# deployment_id="@ + deployment_id + "\n"@
}

/// The file that marks a directory as managed.
pub fn static_site_marker_content(deployment_id: &str) -> (r: String)
    ensures
        r@ == marker_content(deployment_id@),
{
    cat3("# Managed by opsctl static_site_sync\n# deployment_id=", deployment_id, "\n")
}

/// What came of publishing a site.
pub fn static_site_result(operation: &DeployOperation, copied: &StaticSiteCopyResult) -> (r:
    DeployOperationResult)
    ensures
        r.deep_view() == bare_result(
            operation.deep_view(),
            "success"@,
            Some(0),
            Some(
                "static site synced "@ + decimal(copied.files as nat) + " file(s), "@ + decimal(
                    copied.bytes as nat,
                ) + " byte(s), no_delete=true"@,
            ),
        ),
{
    success_result(
        operation,
        cat5(
            "static site synced ",
            &count_text(copied.files),
            " file(s), ",
            &decimal_text(copied.bytes),
            " byte(s), no_delete=true",
        ),
    )
}

// ---------------------------------------------------------------------------
// Migrations
// ---------------------------------------------------------------------------

/// The migrations that may be run, word by word.
pub open spec fn allowed_migrations() -> Seq<Seq<char>> {
    seq![
        "npm run migrate"@,
        "npm run db:migrate"@,
        "pnpm run migrate"@,
        "pnpm run db:migrate"@,
        "pnpm exec prisma migrate deploy"@,
        "bun run migrate"@,
        "bun run db:migrate"@,
        "php artisan migrate --force"@,
        "php artisan migrate --force --no-interaction"@,
        "composer run migrate"@,
    ]
}

/// The migrations that may be run, word by word.
pub fn migration_commands() -> (r: Vec<String>)
    ensures
        r.deep_view() == allowed_migrations(),
{
    let list: Vec<String> = vec![
        "npm run migrate".to_string(),
        "npm run db:migrate".to_string(),
        "pnpm run migrate".to_string(),
        "pnpm run db:migrate".to_string(),
        "pnpm exec prisma migrate deploy".to_string(),
        "bun run migrate".to_string(),
        "bun run db:migrate".to_string(),
        "php artisan migrate --force".to_string(),
        "php artisan migrate --force --no-interaction".to_string(),
        "composer run migrate".to_string(),
    ];
    proof {
        assert(list.deep_view() =~= allowed_migrations());
    }
    list
}

/// Whether a text has a character that means something to a shell.
pub open spec fn has_shell_syntax(command: Seq<char>) -> bool {
    share_char(command, "|&;<>`$\n\r"@)
}

/// Whether a text has one of these characters.
pub open spec fn share_char(text: Seq<char>, of: Seq<char>) -> bool {
    exists|i: int| 0 <= i < text.len() && of.contains(#[trigger] text[i])
}

/// Whether a text has one of these characters.
pub fn has_char_of(text: &str, of: &str) -> (r: bool)
    ensures
        r == share_char(text@, of@),
{
    let a = chars_of(text);
    let mut i: usize = 0;
    while i < a.len()
        invariant
            i <= a@.len(),
            a@ == text@,
            forall|j: int| 0 <= j < i ==> !of@.contains(#[trigger] text@[j]),
        decreases a@.len() - i,
    {
        if contains_char(of, a[i]) {
            proof {
                assert(of@.contains(text@[i as int]));
            }
            return true;
        }
        i = i + 1;
    }
    false
}

/// A migration as a program and its arguments, or why it may not be run.
pub open spec fn migration_call(command: Seq<char>) -> Result<
    (Seq<char>, Seq<Seq<char>>),
    Seq<char>,
> {
    let parts = words(command);
    if trimmed(command) != command || command.len() == 0 {
        Err("unsupported migration command"@)
    } else if has_shell_syntax(command) {
        Err("migration command contains unsupported shell syntax"@)
    } else if parts.len() == 0 || !allowed_migrations().contains(joined(parts, " "@)) {
        Err("migration command is not in the opsctl allowlist"@)
    } else {
        Ok((parts[0], parts.drop_first()))
    }
}

/// A migration as a program and its arguments; an error if it may not be run.
pub fn allowed_migration_command(command: &str) -> (r: Result<(String, Vec<String>), String>)
    ensures
        match migration_call(command@) {
            Ok(call) => r is Ok && (r->Ok_0.0@, r->Ok_0.1.deep_view()) == call,
            Err(error) => r is Err && r->Err_0@ == error,
        },
{
    if !same(&trim(command), command) || command.is_empty() {
        return Err("unsupported migration command".to_string());
    }
    if has_char_of(command, "|&;<>`$\n\r") {
        return Err("migration command contains unsupported shell syntax".to_string());
    }
    let mut parts = split_words(command);
    proof {
        assert(parts.deep_view().len() == parts@.len());
    }
    if parts.len() == 0 || !includes(&migration_commands(), &join(&parts, " ")) {
        return Err("migration command is not in the opsctl allowlist".to_string());
    }
    let ghost all = parts.deep_view();
    let program = parts.remove(0);
    proof {
        assert(program@ == all[0]);
        assert(parts.deep_view() =~= all.drop_first());
    }
    Ok((program, parts))
}

/// The program that a plan's migration runs; an error if there is none that may be
/// run.
pub fn execute_migration_operation(plan: &DeployPlan) -> (r: Result<CommandCall, String>)
    ensures
        match plan.deep_view().changes.migrations.command {
            None => r is Err && r->Err_0@
                == "migration is required but no typed migration command is configured"@,
            Some(command) => match migration_call(command) {
                Ok(call) => r is Ok && r->Ok_0.deep_view() == (CommandCallView {
                    program: call.0,
                    args: call.1,
                    working_dir: Some(plan.deep_view().project_root),
                }),
                Err(error) => r is Err && r->Err_0@ == error,
            },
        },
{
    match &plan.changes.migrations.command {
        None => Err(
            "migration is required but no typed migration command is configured".to_string(),
        ),
        Some(command) => match allowed_migration_command(command) {
            Ok((program, args)) => Ok(
                CommandCall { program, args, working_dir: Some(plan.project_root.clone()) },
            ),
            Err(error) => Err(error),
        },
    }
}

/// Why a directory cannot be worked in.
pub fn safe_working_dir(path: &str, entry: EntryKind) -> (r: Option<String>)
    ensures
        r.deep_view() == refused(
            Some(entry),
            EntryKind::Dir,
            "refusing deploy working directory symlink: "@ + path@,
            "deploy working directory is not a directory: "@ + path@,
        ),
{
    refuse(
        Some(entry),
        EntryKind::Dir,
        cat2("refusing deploy working directory symlink: ", path),
        cat2("deploy working directory is not a directory: ", path),
    )
}

// ---------------------------------------------------------------------------
// Modes
// ---------------------------------------------------------------------------

/// Whether a file's mode lets everybody write it.
pub open spec fn world_writable(mode: u32) -> bool {
    (mode / 2) % 2 == 1
}

/// A file's mode, or what is wrong with it: the owner can read and write the file,
/// and not everybody can write it.
pub open spec fn file_mode(raw: Seq<char>) -> Result<u32, Seq<char>> {
    match parsed_unsigned(raw, u32::MAX as nat) {
        None => Err("invalid file mode: "@ + raw),
        Some(mode) => if !(0o600 <= mode <= 0o777) || world_writable(mode as u32) {
            Err("unsafe file mode for typed write: "@ + raw)
        } else {
            Ok(mode as u32)
        },
    }
}

/// A file's mode; an error says what is wrong with it.
pub fn parse_file_mode(raw: &str) -> (r: Result<u32, String>)
    ensures
        match file_mode(raw@) {
            Ok(mode) => r == Ok::<u32, String>(mode),
            Err(error) => r is Err && r->Err_0@ == error,
        },
{
    match parse_unsigned(raw, 4294967295) {
        None => Err(cat2("invalid file mode: ", raw)),
        Some(n) => {
            let mode = n as u32;
            if !(0o600 <= mode && mode <= 0o777) || (mode / 2) % 2 == 1 {
                Err(cat2("unsafe file mode for typed write: ", raw))
            } else {
                Ok(mode)
            }
        },
    }
}

// ---------------------------------------------------------------------------
// Laws
// ---------------------------------------------------------------------------

/// A site is only ever published strictly below an allowed place, by an absolute
/// path that does not go up.
pub proof fn law_sites_stay_in_allowed_places(
    root: Seq<char>,
    params: Seq<(Seq<char>, Seq<char>)>,
    extra: Seq<Seq<char>>,
)
    requires
        site_plan(root, params, extra) is Ok,
    ensures
        ({
            let site = site_plan(root, params, extra)->Ok_0;
            &&& is_absolute_spec(site.destination)
            &&& !climbs(site.destination)
            &&& exists|i: int|
                0 <= i < site_roots(extra).len() && strictly_within(
                    site.destination,
                    #[trigger] site_roots(extra)[i],
                )
            &&& deployment_is_safe(site.deployment_id)
        }),
{
    let site = site_plan(root, params, extra)->Ok_0;
    let p = |r: Seq<char>| strictly_within(site.destination, r);
    lemma_any(site_roots(extra), p);
    let i = choose|i: int| 0 <= i < site_roots(extra).len() && p(#[trigger] site_roots(extra)[i]);
    assert(strictly_within(site.destination, site_roots(extra)[i]));
}

/// A file that is copied is a regular file that looks harmless, and the limits on
/// the site's files and bytes hold after it.
pub proof fn law_copied_files_are_harmless(so_far: StaticSiteCopyResultView, entry: SiteEntryView)
    requires
        entry_error(so_far, entry) is None,
        entry.kind != EntryKind::Dir,
    ensures
        entry.kind == EntryKind::File,
        !looks_secret(entry.relative),
        !climbs(entry.relative),
        entry.size <= STATIC_SITE_MAX_FILE_BYTES,
        so_far.files + 1 <= STATIC_SITE_MAX_FILES,
        capped_sum(so_far.bytes, entry.size) <= STATIC_SITE_MAX_BYTES,
{
}

/// A file's mode that is accepted does not let everybody write.
pub proof fn law_accepted_modes_are_safe(raw: Seq<char>)
    requires
        file_mode(raw) is Ok,
    ensures
        file_mode(raw)->Ok_0 & 0o002 == 0,
        0o600 <= file_mode(raw)->Ok_0 <= 0o777,
{
    let mode = file_mode(raw)->Ok_0;
    assert(mode & 0o002 == 0) by (bit_vector)
        requires
            (mode / 2) % 2 != 1,
    ;
}

/// A site is published exactly where its source, its destination and its id are given,
/// neither path climbs, the destination is absolute and lies below one of the usual
/// places or one of those that are allowed besides, and the id is safe.
pub proof fn law_which_sites_are_published(
    root: Seq<char>,
    params: Seq<(Seq<char>, Seq<char>)>,
    extra: Seq<Seq<char>>,
)
    ensures
        site_plan(root, params, extra) is Ok <==> {
            &&& value_at(params, "source"@) is Some && !climbs(value_at(params, "source"@)->0)
            &&& value_at(params, "destination"@) is Some && is_absolute_spec(
                value_at(params, "destination"@)->0,
            ) && !climbs(value_at(params, "destination"@)->0) && lies_in_a_site_root(
                value_at(params, "destination"@)->0,
                extra,
            )
            &&& value_at(params, "deployment_id"@) is Some && deployment_is_safe(
                value_at(params, "deployment_id"@)->0,
            )
        },
        site_plan(root, params, extra) matches Ok(site) ==> {
            &&& site.source == path_joined(root, value_at(params, "source"@)->0)
            &&& site.destination == value_at(params, "destination"@)->0
            &&& site.deployment_id == value_at(params, "deployment_id"@)->0
        },
{
    if value_at(params, "destination"@) is Some {
        lemma_site_roots(value_at(params, "destination"@)->0, extra);
    }
}

/// Whether a path lies below, and is not, one of the usual places for sites or an
/// absolute one that is allowed besides.
pub open spec fn lies_in_a_site_root(path: Seq<char>, extra: Seq<Seq<char>>) -> bool {
    ||| lies_below(path, "/srv/www"@)
    ||| lies_below(path, "/srv/static"@)
    ||| lies_below(path, "/var/www"@)
    ||| lies_below(path, "/opt/opsctl/static-sites"@)
    ||| exists|i: int|
        0 <= i < extra.len() && is_absolute_spec(#[trigger] extra[i]) && lies_below(path, extra[i])
}

/// Whether a path lies below another and is not the same.
pub open spec fn lies_below(path: Seq<char>, root: Seq<char>) -> bool {
    let a = full_components(path);
    let b = full_components(root);
    b.len() < a.len() && forall|i: int| 0 <= i < b.len() ==> #[trigger] a[i] == b[i]
}

proof fn lemma_lies_below(path: Seq<char>, root: Seq<char>)
    ensures
        strictly_within(path, root) == lies_below(path, root),
{
    let a = full_components(path);
    let b = full_components(root);
    if strictly_within(path, root) {
        assert forall|i: int| 0 <= i < b.len() implies #[trigger] a[i] == b[i] by {
            assert(a.take(b.len() as int)[i] == b[i]);
        }
        if a.len() == b.len() {
            assert(a =~= b);
        }
    }
    if lies_below(path, root) {
        assert(a.take(b.len() as int) =~= b);
    }
}

proof fn lemma_site_roots(path: Seq<char>, extra: Seq<Seq<char>>)
    ensures
        destination_allowed(path, extra) <==> is_absolute_spec(path) && lies_in_a_site_root(
            path,
            extra,
        ),
{
    let p = |root: Seq<char>| strictly_within(path, root);
    let f = |path: Seq<char>|
        if is_absolute_spec(path) {
            Some(path)
        } else {
            None::<Seq<char>>
        };
    let roots = site_roots(extra);
    let more = chosen(extra, f);
    assert(roots == usual_roots() + more);
    lemma_any(roots, p);
    assert forall|root: Seq<char>| #[trigger] p(root) == lies_below(path, root) by {
        lemma_lies_below(path, root);
    }
    if any(roots, p) {
        let i = choose|i: int| 0 <= i < roots.len() && p(#[trigger] roots[i]);
        if i >= 4 {
            let x = more[i - 4];
            assert(more.contains(x));
            law_chosen(extra, f, x);
            let k = choose|k: int| 0 <= k < extra.len() && f(#[trigger] extra[k]) == Some(x);
            assert(extra[k] == x);
        }
    }
    if lies_in_a_site_root(path, extra) {
        if exists|i: int|
            0 <= i < extra.len() && is_absolute_spec(#[trigger] extra[i]) && lies_below(
                path,
                extra[i],
            ) {
            let k = choose|k: int|
                0 <= k < extra.len() && is_absolute_spec(#[trigger] extra[k]) && lies_below(
                    path,
                    extra[k],
                );
            law_chosen(extra, f, extra[k]);
            assert(f(extra[k]) == Some(extra[k]));
            let i = choose|i: int| 0 <= i < more.len() && more[i] == extra[k];
            assert(roots[i + 4] == extra[k]);
            assert(p(roots[i + 4]));
        } else {
            assert(roots[0] == "/srv/www"@ && roots[1] == "/srv/static"@ && roots[2]
                == "/var/www"@ && roots[3] == "/opt/opsctl/static-sites"@);
            assert(p(roots[0]) || p(roots[1]) || p(roots[2]) || p(roots[3]));
        }
    }
}

/// A file looks secret where it has no name, is called `.env` or something that begins
/// with `.env.`, or ends in `pem`, `key`, `p12` or `pfx`, whatever the case of letters.
pub proof fn law_what_looks_secret(path: Seq<char>)
    ensures
        looks_secret(path) <==> {
            ||| file_name_spec(path) is None
            ||| lowered(file_name_spec(path)->0) == ".env"@
            ||| exists|rest: Seq<char>|
                lowered(file_name_spec(path)->0) == #[trigger] (".env."@ + rest)
            ||| extension_spec(path) is Some && {
                let e = lowered(extension_spec(path)->0);
                e == "pem"@ || e == "key"@ || e == "p12"@ || e == "pfx"@
            }
        },
{
    if file_name_spec(path) is Some {
        law_found_parts_are_there(lowered(file_name_spec(path)->0), ".env."@);
    }
}

/// What is met in a site is copied exactly where it is no link, does not climb, and is a
/// directory, or a file that does not look secret, is not too large, and neither is one
/// too many nor makes the whole too large.
pub proof fn law_what_is_copied(so_far: StaticSiteCopyResultView, entry: SiteEntryView)
    ensures
        entry_error(so_far, entry) is None <==> {
            &&& !climbs(entry.relative)
            &&& entry.kind == EntryKind::Dir || {
                &&& entry.kind == EntryKind::File
                &&& !looks_secret(entry.relative)
                &&& entry.size <= STATIC_SITE_MAX_FILE_BYTES
                &&& so_far.files + 1 <= STATIC_SITE_MAX_FILES
                &&& so_far.bytes + entry.size <= STATIC_SITE_MAX_BYTES
            }
        },
{
}

/// A directory is written into exactly where there is none yet, or it is one that has
/// the marker as a file, or that is empty and has none.
pub proof fn law_where_sites_go(
    path: Seq<char>,
    entry: Option<EntryKind>,
    marker: Option<EntryKind>,
    has_entries: bool,
)
    ensures
        destination_refusal(path, entry, marker, has_entries) is None <==> {
            ||| entry is None
            ||| entry == Some(EntryKind::Dir) && (marker == Some(EntryKind::File) || marker is None
                && !has_entries)
        },
{
}

/// A mode of a file is accepted exactly where it writes a number from 0o600 to 0o777
/// that does not let everyone write.
pub proof fn law_which_modes_are_accepted(raw: Seq<char>)
    ensures
        file_mode(raw) is Ok <==> {
            let mode = parsed_unsigned(raw, u32::MAX as nat);
            mode is Some && 0o600 <= mode->0 <= 0o777 && (mode->0 / 2) % 2 == 0
        },
        file_mode(raw) is Ok ==> file_mode(raw)->Ok_0 == parsed_unsigned(raw, u32::MAX as nat)->0,
{
}

/// A path of a file that is written is the one that is given, where that is absolute and
/// does not climb.
pub proof fn law_path_params(params: Seq<(Seq<char>, Seq<char>)>, key: Seq<char>)
    ensures
        path_param(params, key) is Ok <==> value_at(params, key) is Some && is_absolute_spec(
            value_at(params, key)->0,
        ) && !climbs(value_at(params, key)->0),
        path_param(params, key) is Ok ==> path_param(params, key)->Ok_0 == value_at(params, key)->0,
{
}

/// A migration is run where its command has no space around it and none of the
/// characters that a shell reads, and its words are those of a known one. What is run
/// are these words.
pub proof fn law_which_migrations_are_run(command: Seq<char>)
    ensures
        migration_call(command) is Ok ==> {
            &&& trimmed(command) == command
            &&& command.len() > 0
            &&& forall|i: int|
                0 <= i < command.len() ==> #[trigger] command[i] != '|' && command[i] != '&'
                    && command[i] != ';' && command[i] != '<' && command[i] != '>' && command[i]
                    != '`' && command[i] != '$' && command[i] != '\n' && command[i] != '\r'
            &&& words(command).len() > 0
            &&& allowed_migrations().contains(joined(words(command), " "@))
        },
        match migration_call(command) {
            Ok((program, arguments)) => seq![program] + arguments == words(command),
            Err(_) => true,
        },
        trimmed(command) == command && command.len() > 0 && words(command).len() > 0
            && allowed_migrations().contains(joined(words(command), " "@)) && (forall|i: int|
            0 <= i < command.len() ==> !"|&;<>`$\n\r"@.contains(#[trigger] command[i]))
            ==> migration_call(command) is Ok,
{
    reveal_strlit("|&;<>`$\n\r");
    let bad = "|&;<>`$\n\r"@;
    assert(bad[0] == '|' && bad[1] == '&' && bad[2] == ';' && bad[3] == '<' && bad[4] == '>'
        && bad[5] == '`' && bad[6] == '$' && bad[7] == '\n' && bad[8] == '\r');
    if migration_call(command) is Ok {
        assert forall|i: int| 0 <= i < command.len() implies #[trigger] command[i] != '|'
            && command[i] != '&' && command[i] != ';' && command[i] != '<' && command[i] != '>'
            && command[i] != '`' && command[i] != '$' && command[i] != '\n' && command[i]
            != '\r' by {
            assert(!bad.contains(command[i]));
        }
        let parts = words(command);
        assert(seq![parts[0]] + parts.drop_first() =~= parts);
    }
}

} // verus!
