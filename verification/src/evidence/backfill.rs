//! What is left to do until every cleanup has its evidence.

use vstd::prelude::*;
use crate::each::{count_where, keep_front, map_each};
use crate::entries::EntryKind;
use crate::evidence::archive::{find_repository, repository_named};
use crate::evidence::files::{done_seen, failure, note_failure, seen};
use crate::evidence::lines::{accept, accepted};
use crate::evidence::types::{
    EvidenceBackfillAction, EvidenceBackfillActionView, EvidenceBackfillReport,
    EvidenceBackfillReportView, EvidenceBackfillStatusReport, EvidenceBackfillStatusReportView,
};
use crate::list::{
    Ranked, first_where, front, law_first_where, law_sorted_by, lemma_text_lt_irreflexive,
    lemma_text_lt_total, lemma_text_lt_transitive, less, note, noted, put, rank, sort_stable,
    sorted_by, strict_weak, tally, text_lt,
};
use crate::paths::{
    is_absolute, is_absolute_spec, path_join, path_joined, same_path, same_path_spec,
};
use crate::registry::{RecoveryProfile, RecoveryProfileView, Registry, RegistryView};
use crate::text::{cat2, cat3, same};

verus! {

broadcast use {vstd::seq::group_seq_axioms, vstd::string::group_string_axioms};

/// The version of the backfill journal's format.
pub open spec fn backfill_schema() -> Seq<char> {
    "opsctl.evidence_backfill.v1"@
}

/// The largest backfill journal, in bytes.
pub const MAX_BACKFILL_JOURNAL_BYTES: u64 = 33554432;

/// How many items had no evidence when the backfill began.
pub const BASELINE_MISSING: usize = 69;

/// How many of them looked like a database.
pub const BASELINE_DATABASE_LIKE: usize = 58;

/// What is asked of a backfill.
#[derive(Debug)]
pub struct EvidenceBackfillOptions<'a> {
    pub registry: &'a Registry,
    pub state_dir: &'a str,
    pub actor: &'a str,
    pub request_file: &'a str,
    pub repository_id: &'a str,
    pub restore_root: &'a str,
    pub max_age_hours: u32,
    pub record: bool,
}

/// View of [`EvidenceBackfillOptions`].
#[verifier::ext_equal]
pub struct EvidenceBackfillOptionsView {
    pub registry: RegistryView,
    pub state_dir: Seq<char>,
    pub actor: Seq<char>,
    pub request_file: Seq<char>,
    pub repository_id: Seq<char>,
    pub restore_root: Seq<char>,
    pub max_age_hours: u32,
    pub record: bool,
}

impl<'a> DeepView for EvidenceBackfillOptions<'a> {
    type V = EvidenceBackfillOptionsView;

    open spec fn deep_view(&self) -> EvidenceBackfillOptionsView {
        EvidenceBackfillOptionsView {
            registry: self.registry.deep_view(),
            state_dir: self.state_dir.deep_view(),
            actor: self.actor.deep_view(),
            request_file: self.request_file.deep_view(),
            repository_id: self.repository_id.deep_view(),
            restore_root: self.restore_root.deep_view(),
            max_age_hours: self.max_age_hours,
            record: self.record,
        }
    }
}

/// The evidence for one item of a cleanup request.
#[derive(Debug)]
pub struct EvidenceResolveEntry {
    pub request_id: String,
    pub target: String,
    pub status: String,
    pub blockers: Vec<String>,
}

/// View of [`EvidenceResolveEntry`].
#[verifier::ext_equal]
pub struct EvidenceResolveEntryView {
    pub request_id: Seq<char>,
    pub target: Seq<char>,
    pub status: Seq<char>,
    pub blockers: Seq<Seq<char>>,
}

impl DeepView for EvidenceResolveEntry {
    type V = EvidenceResolveEntryView;

    open spec fn deep_view(&self) -> EvidenceResolveEntryView {
        EvidenceResolveEntryView {
            request_id: self.request_id.deep_view(),
            target: self.target.deep_view(),
            status: self.status.deep_view(),
            blockers: self.blockers.deep_view(),
        }
    }
}

/// The evidence for a cleanup request.
#[derive(Debug)]
pub struct EvidenceResolveReport {
    pub selected_items: usize,
    pub matched: usize,
    pub ambiguous: usize,
    pub missing: usize,
    pub stale: usize,
    pub entries: Vec<EvidenceResolveEntry>,
    pub limitations: Vec<String>,
}

/// View of [`EvidenceResolveReport`].
#[verifier::ext_equal]
pub struct EvidenceResolveReportView {
    pub selected_items: nat,
    pub matched: nat,
    pub ambiguous: nat,
    pub missing: nat,
    pub stale: nat,
    pub entries: Seq<EvidenceResolveEntryView>,
    pub limitations: Seq<Seq<char>>,
}

impl DeepView for EvidenceResolveReport {
    type V = EvidenceResolveReportView;

    open spec fn deep_view(&self) -> EvidenceResolveReportView {
        EvidenceResolveReportView {
            selected_items: self.selected_items as nat,
            matched: self.matched as nat,
            ambiguous: self.ambiguous as nat,
            missing: self.missing as nat,
            stale: self.stale as nat,
            entries: self.entries.deep_view(),
            limitations: self.limitations.deep_view(),
        }
    }
}

/// Where the backfill journal is kept.
pub open spec fn backfill_path(state_dir: Seq<char>) -> Seq<char> {
    path_joined(state_dir, "evidence-backfill.jsonl"@)
}

/// Where the backfill journal is kept.
pub fn backfill_journal_path(state_dir: &str) -> (r: String)
    ensures
        r@ == backfill_path(state_dir@),
{
    path_join(state_dir, "evidence-backfill.jsonl")
}

/// Why the backfill journal is not used.
pub fn refuse_backfill_journal(kind: EntryKind, size: u64) -> (r: Option<String>)
    ensures
        r.deep_view() == (if kind != EntryKind::File || size > MAX_BACKFILL_JOURNAL_BYTES {
            Some("evidence backfill journal is unsafe or oversized"@)
        } else {
            None
        }),
{
    if kind != EntryKind::File || size > MAX_BACKFILL_JOURNAL_BYTES {
        Some("evidence backfill journal is unsafe or oversized".to_string())
    } else {
        None
    }
}

// ---------------------------------------------------------------------------
// Actions
// ---------------------------------------------------------------------------

/// Whether a profile is for a volume.
pub open spec fn profile_for(volume: Seq<char>) -> spec_fn(RecoveryProfileView) -> bool {
    |profile: RecoveryProfileView| profile.volume == volume
}

/// What to do for an item: its name and the command.
pub open spec fn item_action(
    status: Seq<char>,
    target: Seq<char>,
    profiles: nat,
    request_file: Seq<char>,
    repository_id: Seq<char>,
    restore_root: Seq<char>,
) -> (Seq<char>, Seq<Seq<char>>) {
    if status == "matched"@ {
        ("none"@, Seq::empty())
    } else if status == "ambiguous"@ || profiles > 1 {
        ("resolve_ambiguity"@, Seq::empty())
    } else if profiles == 0 {
        (
            "onboard_profile"@,
            seq![
                "opsctl"@,
                "backup"@,
                "volume-protect"@,
                "profile-detect"@,
                "--source-dir"@,
                "<mountpoint-for:"@ + target + ">"@,
                "--volume"@,
                target,
            ],
        )
    } else {
        (
            "protect_volume"@,
            seq![
                "opsctl"@,
                "backup"@,
                "volume-protect"@,
                "plan"@,
                request_file,
                "--target"@,
                target,
                "--repository-id"@,
                repository_id,
                "--restore-root"@,
                restore_root,
            ],
        )
    }
}

/// What to do for an item.
pub open spec fn backfill_action(options: EvidenceBackfillOptionsView) -> spec_fn(
    EvidenceResolveEntryView,
) -> EvidenceBackfillActionView {
    |entry: EvidenceResolveEntryView|
        {
            let profiles = tally(
                options.registry.backups.recovery_profiles,
                profile_for(entry.target),
            );
            let (action, argv) = item_action(
                entry.status,
                entry.target,
                profiles,
                options.request_file,
                options.repository_id,
                options.restore_root,
            );
            EvidenceBackfillActionView {
                request_id: entry.request_id,
                target: entry.target,
                evidence_status: entry.status,
                profile_matches: profiles,
                action,
                argv,
                blockers: entry.blockers,
            }
        }
}

fn choose_action(
    status: &str,
    target: &str,
    profiles: usize,
    request_file: &str,
    repository_id: &str,
    restore_root: &str,
) -> (r: (&'static str, Vec<String>))
    ensures
        (r.0@, r.1.deep_view()) == item_action(
            status@,
            target@,
            profiles as nat,
            request_file@,
            repository_id@,
            restore_root@,
        ),
{
    let ghost wanted = item_action(
        status@,
        target@,
        profiles as nat,
        request_file@,
        repository_id@,
        restore_root@,
    );
    let none: Vec<String> = Vec::new();
    proof {
        assert(none.deep_view() =~= Seq::<Seq<char>>::empty());
    }
    if same(status, "matched") {
        ("none", none)
    } else if same(status, "ambiguous") || profiles > 1 {
        ("resolve_ambiguity", none)
    } else if profiles == 0 {
        let argv: Vec<String> = vec![
            "opsctl".to_string(),
            "backup".to_string(),
            "volume-protect".to_string(),
            "profile-detect".to_string(),
            "--source-dir".to_string(),
            cat3("<mountpoint-for:", target, ">"),
            "--volume".to_string(),
            target.to_string(),
        ];
        proof {
            assert(argv.deep_view() =~= wanted.1);
        }
        ("onboard_profile", argv)
    } else {
        let argv: Vec<String> = vec![
            "opsctl".to_string(),
            "backup".to_string(),
            "volume-protect".to_string(),
            "plan".to_string(),
            request_file.to_string(),
            "--target".to_string(),
            target.to_string(),
            "--repository-id".to_string(),
            repository_id.to_string(),
            "--restore-root".to_string(),
            restore_root.to_string(),
        ];
        proof {
            assert(argv.deep_view() =~= wanted.1);
        }
        ("protect_volume", argv)
    }
}

fn plan_action(options: &EvidenceBackfillOptions<'_>, entry: &EvidenceResolveEntry) -> (r:
    EvidenceBackfillAction)
    ensures
        r.deep_view() == backfill_action(options.deep_view())(entry.deep_view()),
{
    let profile_matches = count_where(
        &options.registry.backups.recovery_profiles,
        |profile: &RecoveryProfile| -> (b: bool)
            ensures
                b == (profile.deep_view().volume == entry.deep_view().target)
            { same(&profile.volume, &entry.target) },
        Ghost(profile_for(entry.deep_view().target)),
    );
    let (action, argv) = choose_action(
        &entry.status,
        &entry.target,
        profile_matches,
        options.request_file,
        options.repository_id,
        options.restore_root,
    );
    EvidenceBackfillAction {
        request_id: entry.request_id.clone(),
        target: entry.target.clone(),
        evidence_status: entry.status.clone(),
        profile_matches,
        action: action.to_string(),
        argv,
        blockers: entry.blockers.clone(),
    }
}

/// What to do for each item.
pub fn backfill_actions(options: &EvidenceBackfillOptions<'_>, resolved: &EvidenceResolveReport) -> (r:
    Vec<EvidenceBackfillAction>)
    ensures
        r.deep_view() == resolved.deep_view().entries.map_values(
            backfill_action(options.deep_view()),
        ),
{
    map_each(
        &resolved.entries,
        |entry: &EvidenceResolveEntry| -> (action: EvidenceBackfillAction)
            ensures
                action.deep_view() == backfill_action(options.deep_view())(entry.deep_view())
            { plan_action(options, entry) },
        Ghost(backfill_action(options.deep_view())),
    )
}

// ---------------------------------------------------------------------------
// The backfill
// ---------------------------------------------------------------------------

/// Everything that speaks against a backfill.
pub open spec fn backfill_limitations(
    options: EvidenceBackfillOptionsView,
    resolved: EvidenceResolveReportView,
) -> Seq<Seq<char>> {
    let repository = first_where(
        options.registry.backups.repositories,
        repository_named(options.repository_id),
    );
    resolved.limitations + noted(
        !is_absolute_spec(options.restore_root) || same_path_spec(options.restore_root, "/"@),
        "restore_root must be an absolute non-root directory"@,
    ) + noted(
        repository is None || repository->0.status != "active"@,
        "repository_id must identify an active repository"@,
    )
}

/// How a backfill stands.
pub open spec fn backfill_word(
    limitations: Seq<Seq<char>>,
    ambiguous: nat,
    missing: nat,
    stale: nat,
) -> Seq<char> {
    if limitations.len() > 0 {
        "blocked"@
    } else if ambiguous > 0 {
        "review_required"@
    } else if missing + stale == 0 {
        "closed"@
    } else {
        "evidence_required"@
    }
}

/// Whether there is one profile for an item.
pub open spec fn has_one_profile() -> spec_fn(EvidenceBackfillActionView) -> bool {
    |action: EvidenceBackfillActionView| action.profile_matches == 1
}

/// The report of a backfill.
pub open spec fn backfill_report(
    options: EvidenceBackfillOptionsView,
    resolved: EvidenceResolveReportView,
    observed_at: Seq<char>,
) -> EvidenceBackfillReportView {
    let limitations = backfill_limitations(options, resolved);
    let actions = resolved.entries.map_values(backfill_action(options));
    let word = backfill_word(limitations, resolved.ambiguous, resolved.missing, resolved.stale);
    EvidenceBackfillReportView {
        schema_version: backfill_schema(),
        ok: limitations.len() == 0 && resolved.ambiguous == 0,
        read_only: !options.record,
        status: if options.record && limitations.len() == 0 {
            word + "_recorded"@
        } else {
            word
        },
        observed_at,
        request_file: options.request_file,
        repository_id: options.repository_id,
        selected_items: resolved.selected_items,
        matched: resolved.matched,
        ambiguous: resolved.ambiguous,
        missing: resolved.missing,
        stale: resolved.stale,
        exact_profile_matches: tally(actions, has_one_profile()),
        actions,
        historical_phase95_total_missing: BASELINE_MISSING as nat,
        historical_phase95_database_like: BASELINE_DATABASE_LIKE as nat,
        historical_baseline_only: true,
        journal_path: backfill_path(options.state_dir),
        limitations,
    }
}

/// The report of a backfill, as it is recorded if it is to be recorded.
pub fn evidence_backfill(
    options: &EvidenceBackfillOptions<'_>,
    resolved: &EvidenceResolveReport,
    observed_at: &str,
) -> (r: EvidenceBackfillReport)
    ensures
        r.deep_view() == backfill_report(
            options.deep_view(),
            resolved.deep_view(),
            observed_at@,
        ),
{
    let mut limitations = resolved.limitations.clone();
    note(
        &mut limitations,
        !is_absolute(options.restore_root) || same_path(options.restore_root, "/"),
        "restore_root must be an absolute non-root directory",
    );
    let inactive = match find_repository(options.registry, options.repository_id) {
        Some(found) => !same(&found.status, "active"),
        None => true,
    };
    note(&mut limitations, inactive, "repository_id must identify an active repository");
    proof {
        assert(limitations.deep_view() =~= backfill_limitations(
            options.deep_view(),
            resolved.deep_view(),
        ));
        assert(limitations.deep_view().len() == limitations@.len());
    }
    let actions = backfill_actions(options, resolved);
    let exact_profile_matches = count_where(
        &actions,
        |action: &EvidenceBackfillAction| -> (b: bool)
            ensures
                b == (action.deep_view().profile_matches == 1)
            { action.profile_matches == 1 },
        Ghost(has_one_profile()),
    );
    let free = limitations.len() == 0;
    let word = if !free {
        "blocked"
    } else if resolved.ambiguous > 0 {
        "review_required"
    } else if resolved.missing == 0 && resolved.stale == 0 {
        "closed"
    } else {
        "evidence_required"
    };
    EvidenceBackfillReport {
        schema_version: "opsctl.evidence_backfill.v1".to_string(),
        ok: free && resolved.ambiguous == 0,
        read_only: !options.record,
        status: if options.record && free {
            cat2(word, "_recorded")
        } else {
            word.to_string()
        },
        observed_at: observed_at.to_string(),
        request_file: options.request_file.to_string(),
        repository_id: options.repository_id.to_string(),
        selected_items: resolved.selected_items,
        matched: resolved.matched,
        ambiguous: resolved.ambiguous,
        missing: resolved.missing,
        stale: resolved.stale,
        exact_profile_matches,
        actions,
        historical_phase95_total_missing: BASELINE_MISSING,
        historical_phase95_database_like: BASELINE_DATABASE_LIKE,
        historical_baseline_only: true,
        journal_path: backfill_journal_path(options.state_dir),
        limitations,
    }
}

/// The report of a backfill after it was to be recorded.
pub fn finish_backfill(report: EvidenceBackfillReport, recorded: &Result<(), String>) -> (r:
    EvidenceBackfillReport)
    ensures
        r.deep_view() == (match done_seen(*recorded) {
            Ok(_) => report.deep_view(),
            Err(words) => EvidenceBackfillReportView {
                ok: false,
                status: "blocked"@,
                limitations: report.deep_view().limitations.push(words),
                ..report.deep_view()
            },
        }),
{
    let mut report = report;
    match recorded {
        Ok(_) => {},
        Err(words) => {
            report.ok = false;
            report.status = "blocked".to_string();
            put(&mut report.limitations, words);
        },
    }
    report
}

// ---------------------------------------------------------------------------
// How it has gone on
// ---------------------------------------------------------------------------

/// Whether a report is of another format.
pub open spec fn foreign_backfill() -> spec_fn(EvidenceBackfillReportView) -> bool {
    |r: EvidenceBackfillReportView| r.schema_version != backfill_schema()
}

/// The reports of a journal, given what each line holds. A line that cannot be read
/// as a report is `None`.
pub fn read_backfill_reports(lines: Vec<Option<EvidenceBackfillReport>>) -> (r: Result<
    Vec<EvidenceBackfillReport>,
    String,
>)
    ensures
        seen(r) == accepted(
            lines.deep_view(),
            foreign_backfill(),
            "invalid evidence backfill line "@,
            "unsupported evidence backfill schema on line "@,
        ),
{
    accept(
        lines,
        |r: &EvidenceBackfillReport| -> (b: bool)
            ensures
                b == (r.deep_view().schema_version != backfill_schema())
            { !same(&r.schema_version, "opsctl.evidence_backfill.v1") },
        Ghost(foreign_backfill()),
        "invalid evidence backfill line ",
        "unsupported evidence backfill schema on line ",
    )
}

impl Ranked for EvidenceBackfillReport {
    /// The latest first.
    open spec fn before(a: EvidenceBackfillReportView, b: EvidenceBackfillReportView) -> bool {
        text_lt(b.observed_at, a.observed_at)
    }

    fn ranks_before(&self, other: &Self) -> (r: bool) {
        less(&other.observed_at, &self.observed_at)
    }
}

/// A count, as far as it fits into 64 bits with a sign.
pub open spec fn signed_count(n: nat) -> int {
    if n > i64::MAX {
        i64::MAX as int
    } else {
        n as int
    }
}

fn cap(n: usize) -> (r: i64)
    ensures
        r == signed_count(n as nat),
        r >= 0,
{
    if n as u64 > 9223372036854775807 {
        i64::MAX
    } else {
        n as i64
    }
}

/// How many items have no good evidence.
pub open spec fn gap(report: EvidenceBackfillReportView) -> nat {
    if report.missing + report.stale > usize::MAX {
        usize::MAX as nat
    } else {
        report.missing + report.stale
    }
}

fn count_gap(report: &EvidenceBackfillReport) -> (r: usize)
    ensures
        r == gap(report.deep_view()),
{
    match report.missing.checked_add(report.stale) {
        Some(sum) => sum,
        None => usize::MAX,
    }
}

/// The reports that count, the latest first.
pub open spec fn backfill_history(
    reports: Result<Seq<EvidenceBackfillReportView>, Seq<char>>,
    limit: nat,
) -> Seq<EvidenceBackfillReportView> {
    match reports {
        Ok(all) => front(sorted_by(all, rank::<EvidenceBackfillReport>()), limit),
        Err(_) => Seq::empty(),
    }
}

/// How the backfill has gone on.
pub open spec fn backfill_status(
    state_dir: Seq<char>,
    reports: Result<Seq<EvidenceBackfillReportView>, Seq<char>>,
    limit: nat,
    present: bool,
) -> EvidenceBackfillStatusReportView {
    let history = backfill_history(reports, limit);
    let limitations = failure(reports) + noted(
        history.len() == 0 && present,
        "backfill journal contains no readable reports"@,
    );
    EvidenceBackfillStatusReportView {
        ok: limitations.len() == 0,
        read_only: true,
        status: if limitations.len() > 0 {
            "limited"@
        } else if history.len() == 0 {
            "empty"@
        } else {
            "ready"@
        },
        journal_path: backfill_path(state_dir),
        latest: if history.len() == 0 {
            None
        } else {
            Some(history[0])
        },
        history,
        matched_delta: if history.len() < 2 {
            None
        } else {
            Some((signed_count(history[0].matched) - signed_count(history[1].matched)) as i64)
        },
        evidence_gap_delta: if history.len() < 2 {
            None
        } else {
            Some((signed_count(gap(history[0])) - signed_count(gap(history[1]))) as i64)
        },
        limitations,
    }
}

/// How the backfill has gone on, given whether there is a journal.
pub fn evidence_backfill_status(
    state_dir: &str,
    reports: Result<Vec<EvidenceBackfillReport>, String>,
    limit: usize,
    present: bool,
) -> (r: EvidenceBackfillStatusReport)
    ensures
        r.deep_view() == backfill_status(state_dir@, seen(reports), limit as nat, present),
{
    let ghost given = seen(reports);
    let mut limitations: Vec<String> = Vec::new();
    proof {
        assert(limitations.deep_view() =~= Seq::<Seq<char>>::empty());
    }
    note_failure(&mut limitations, &reports);
    let history = match reports {
        Ok(all) => keep_front(sort_stable(all), limit),
        Err(_) => {
            let none: Vec<EvidenceBackfillReport> = Vec::new();
            proof {
                assert(none.deep_view() =~= Seq::<EvidenceBackfillReportView>::empty());
            }
            none
        },
    };
    let ghost kept = history.deep_view();
    proof {
        assert(kept == backfill_history(given, limit as nat));
        assert(kept.len() == history@.len());
    }
    note(
        &mut limitations,
        history.len() == 0 && present,
        "backfill journal contains no readable reports",
    );
    proof {
        assert(limitations.deep_view() =~= failure(given) + noted(
            kept.len() == 0 && present,
            "backfill journal contains no readable reports"@,
        ));
        assert(limitations.deep_view().len() == limitations@.len());
    }
    let latest = if history.len() > 0 {
        proof {
            assert(kept[0] == history@[0].deep_view());
        }
        Some(history[0].clone())
    } else {
        None
    };
    let (matched_delta, evidence_gap_delta): (Option<i64>, Option<i64>) = if history.len() > 1 {
        proof {
            assert(kept[0] == history@[0].deep_view());
            assert(kept[1] == history@[1].deep_view());
        }
        (
            Some(cap(history[0].matched) - cap(history[1].matched)),
            Some(cap(count_gap(&history[0])) - cap(count_gap(&history[1]))),
        )
    } else {
        (None, None)
    };
    let ok = limitations.len() == 0;
    EvidenceBackfillStatusReport {
        ok,
        read_only: true,
        status: if !ok {
            "limited".to_string()
        } else if history.len() == 0 {
            "empty".to_string()
        } else {
            "ready".to_string()
        },
        journal_path: backfill_journal_path(state_dir),
        latest,
        history,
        matched_delta,
        evidence_gap_delta,
        limitations,
    }
}

// ---------------------------------------------------------------------------
// Laws
// ---------------------------------------------------------------------------

/// A backfill is closed only when nothing speaks against it and no item is
/// ambiguous, missing or stale.
pub proof fn law_closed_means_nothing_is_left(
    options: EvidenceBackfillOptionsView,
    resolved: EvidenceResolveReportView,
    observed_at: Seq<char>,
)
    requires
        !options.record,
    ensures
        backfill_report(options, resolved, observed_at).status == "closed"@ <==> (
        backfill_limitations(options, resolved).len() == 0 && resolved.ambiguous == 0
            && resolved.missing == 0 && resolved.stale == 0),
{
    reveal_strlit("blocked");
    reveal_strlit("closed");
    reveal_strlit("review_required");
    reveal_strlit("evidence_required");
    assert("blocked"@.len() == 7);
    assert("closed"@.len() == 6);
    assert("review_required"@.len() == 15);
    assert("evidence_required"@.len() == 17);
}

/// Nothing is to be done for an item that has its evidence, and a command is offered
/// only where no choice is left: for an item that is not ambiguous and has at most
/// one profile.
pub proof fn law_commands_need_no_choice(
    status: Seq<char>,
    target: Seq<char>,
    profiles: nat,
    request_file: Seq<char>,
    repository_id: Seq<char>,
    restore_root: Seq<char>,
)
    ensures
        item_action(status, target, profiles, request_file, repository_id, restore_root).1.len() > 0
            <==> status != "matched"@ && status != "ambiguous"@ && profiles <= 1,
{
}

/// The history is from the latest report to the earliest.
pub proof fn law_history_is_newest_first(
    reports: Seq<EvidenceBackfillReportView>,
    limit: nat,
    i: int,
    j: int,
)
    requires
        0 <= i < j < backfill_history(Ok(reports), limit).len(),
    ensures
        !text_lt(
            backfill_history(Ok(reports), limit)[i].observed_at,
            backfill_history(Ok(reports), limit)[j].observed_at,
        ),
{
    let before = rank::<EvidenceBackfillReport>();
    assert(strict_weak(before)) by {
        assert forall|a: EvidenceBackfillReportView| !#[trigger] before(a, a) by {
            lemma_text_lt_irreflexive(a.observed_at);
        }
        assert forall|
            a: EvidenceBackfillReportView,
            b: EvidenceBackfillReportView,
            c: EvidenceBackfillReportView,
        | #[trigger]
            before(a, b) && #[trigger] before(b, c) implies before(a, c) by {
            lemma_text_lt_transitive(c.observed_at, b.observed_at, a.observed_at);
        }
        assert forall|
            a: EvidenceBackfillReportView,
            b: EvidenceBackfillReportView,
            c: EvidenceBackfillReportView,
        | !#[trigger] before(a, b) && !#[trigger] before(b, c) implies !before(a, c) by {
            lemma_text_lt_total(a.observed_at, b.observed_at);
            lemma_text_lt_total(b.observed_at, c.observed_at);
            if before(a, c) {
                if text_lt(a.observed_at, b.observed_at) {
                    lemma_text_lt_transitive(c.observed_at, a.observed_at, b.observed_at);
                }
            }
        }
    }
    law_sorted_by(reports, before);
    let sorted = sorted_by(reports, before);
    let history = backfill_history(Ok(reports), limit);
    assert(history[i] == sorted[i]);
    assert(history[j] == sorted[j]);
    assert(!before(sorted[j], sorted[i]));
}

/// What is to be done about an item: nothing where its evidence is matched; somebody has to
/// choose where it is ambiguous or has several profiles; a profile is made where it has
/// none; else the volume is protected, in the repository and under the root at hand.
pub proof fn law_what_is_to_be_backfilled(
    status: Seq<char>,
    target: Seq<char>,
    profiles: nat,
    request_file: Seq<char>,
    repository_id: Seq<char>,
    restore_root: Seq<char>,
)
    ensures
        ({
            let (action, argv) = item_action(
                status,
                target,
                profiles,
                request_file,
                repository_id,
                restore_root,
            );
            &&& action == "none"@ <==> status == "matched"@
            &&& action == "resolve_ambiguity"@ <==> status != "matched"@ && (status
                == "ambiguous"@ || profiles > 1)
            &&& action == "onboard_profile"@ <==> status != "matched"@ && status != "ambiguous"@
                && profiles == 0
            &&& action == "protect_volume"@ <==> status != "matched"@ && status != "ambiguous"@
                && profiles == 1
            &&& action == "onboard_profile"@ ==> argv.contains("profile-detect"@) && argv.contains(
                target,
            )
            &&& action == "protect_volume"@ ==> argv.contains("plan"@) && argv.contains(target)
                && argv.contains(request_file) && argv.contains(repository_id) && argv.contains(
                restore_root,
            )
        }),
{
    reveal_strlit("none");
    reveal_strlit("resolve_ambiguity");
    reveal_strlit("onboard_profile");
    reveal_strlit("protect_volume");
    assert("none"@[0] == 'n' && "resolve_ambiguity"@[0] == 'r' && "onboard_profile"@[0] == 'o'
        && "protect_volume"@[0] == 'p');
    let (action, argv) = item_action(
        status,
        target,
        profiles,
        request_file,
        repository_id,
        restore_root,
    );
    if action == "onboard_profile"@ {
        assert(argv[3] == "profile-detect"@);
        assert(argv[7] == target);
    }
    if action == "protect_volume"@ {
        assert(argv[3] == "plan"@);
        assert(argv[4] == request_file);
        assert(argv[6] == target);
        assert(argv[8] == repository_id);
        assert(argv[10] == restore_root);
    }
}

/// A backfill has an action for each item, in their order, and is blocked where the items
/// could not be resolved, the root is not an absolute directory, or the repository is not
/// registered and active.
pub proof fn law_what_a_backfill_comes_to(
    options: EvidenceBackfillOptionsView,
    resolved: EvidenceResolveReportView,
    observed_at: Seq<char>,
)
    ensures
        ({
            let r = backfill_report(options, resolved, observed_at);
            let repositories = options.registry.backups.repositories;
            let usable = exists|i: int|
                0 <= i < repositories.len() && (#[trigger] repositories[i]).id
                    == options.repository_id && repositories[i].status == "active"@ && forall|
                    j: int,
                |
                    0 <= j < i ==> (#[trigger] repositories[j]).id != options.repository_id;
            let fine = resolved.limitations.len() == 0 && is_absolute_spec(options.restore_root)
                && !same_path_spec(options.restore_root, "/"@) && usable;
            &&& r.limitations.len() == 0 <==> fine
            &&& r.ok <==> fine && resolved.ambiguous == 0
            &&& r.actions.len() == resolved.entries.len()
            &&& forall|i: int|
                0 <= i < resolved.entries.len() ==> (#[trigger] r.actions[i]).request_id
                    == resolved.entries[i].request_id && r.actions[i].target
                    == resolved.entries[i].target && r.actions[i].evidence_status
                    == resolved.entries[i].status && r.actions[i].blockers
                    == resolved.entries[i].blockers
            &&& r.matched == resolved.matched && r.missing == resolved.missing && r.stale
                == resolved.stale && r.ambiguous == resolved.ambiguous
            &&& !options.record ==> {
                &&& r.status == "blocked"@ <==> !fine
                &&& r.status == "review_required"@ <==> fine && resolved.ambiguous > 0
                &&& r.status == "closed"@ <==> r.ok && resolved.missing + resolved.stale == 0
                &&& r.status == "evidence_required"@ <==> r.ok && resolved.missing + resolved.stale
                    > 0
            }
            &&& r.read_only <==> !options.record
        }),
{
    let repositories = options.registry.backups.repositories;
    let p = repository_named(options.repository_id);
    law_first_where(repositories, p);
    if first_where(repositories, p) is Some {
        let k = choose|i: int|
            0 <= i < repositories.len() && #[trigger] repositories[i] == first_where(
                repositories,
                p,
            )->0 && p(repositories[i]) && forall|j: int|
                0 <= j < i ==> !p(#[trigger] repositories[j]);
        assert(repositories[k].id == options.repository_id);
        assert forall|j: int| 0 <= j < k implies (#[trigger] repositories[j]).id
            != options.repository_id by {
            assert(!p(repositories[j]));
        }
        assert forall|i: int|
            0 <= i < repositories.len() && (#[trigger] repositories[i]).id == options.repository_id
                && (forall|j: int|
                0 <= j < i ==> (#[trigger] repositories[j]).id != options.repository_id) implies i
            == k by {
            if i < k {
                assert(repositories[i].id != options.repository_id);
            } else if k < i {
                assert(repositories[k].id != options.repository_id);
            }
        }
    } else {
        assert forall|i: int| 0 <= i < repositories.len() implies (#[trigger] repositories[i]).id
            != options.repository_id by {
            assert(!p(repositories[i]));
        }
    }
    reveal_strlit("blocked");
    reveal_strlit("review_required");
    reveal_strlit("closed");
    reveal_strlit("evidence_required");
    assert("blocked"@[0] == 'b' && "review_required"@[0] == 'r' && "closed"@[0] == 'c'
        && "evidence_required"@[0] == 'e');
}

/// The status of the backfills: the newest of them, and how it differs from the one before
/// it.
pub proof fn law_backfill_status(
    state_dir: Seq<char>,
    reports: Result<Seq<EvidenceBackfillReportView>, Seq<char>>,
    limit: nat,
    present: bool,
)
    ensures
        ({
            let r = backfill_status(state_dir, reports, limit, present);
            &&& r.ok <==> reports is Ok && (r.history.len() > 0 || !present)
            &&& r.status == "limited"@ <==> !r.ok
            &&& r.status == "empty"@ <==> r.ok && r.history.len() == 0
            &&& r.status == "ready"@ <==> r.ok && r.history.len() > 0
            &&& r.latest is Some <==> r.history.len() > 0
            &&& r.history.len() > 0 ==> r.latest == Some(r.history[0])
            &&& r.matched_delta is Some <==> r.history.len() >= 2
            &&& r.history.len() >= 2 && r.history[0].matched <= i64::MAX && r.history[1].matched
                <= i64::MAX ==> r.matched_delta->0 == r.history[0].matched - r.history[1].matched
            &&& r.history.len() >= 2 && r.history[0].missing + r.history[0].stale <= usize::MAX
                && r.history[0].missing + r.history[0].stale <= i64::MAX && r.history[1].missing
                + r.history[1].stale <= usize::MAX && r.history[1].missing + r.history[1].stale
                <= i64::MAX ==> r.evidence_gap_delta->0 == (r.history[0].missing
                + r.history[0].stale) - (r.history[1].missing + r.history[1].stale)
        }),
{
    reveal_strlit("limited");
    reveal_strlit("empty");
    reveal_strlit("ready");
    assert("limited"@[0] == 'l' && "empty"@[0] == 'e' && "ready"@[0] == 'r');
}

} // verus!
