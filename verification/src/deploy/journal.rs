//! Deploy journals, and going on with a deploy that failed.

use vstd::prelude::*;
use crate::deploy::gates::{
    deploy_report, expected_deploy_resume_approval_scope, expected_deploy_resume_approval_token,
    plan_deploy, resume_scope, resume_token, status_text, status_word,
};
use crate::deploy::operations::{deploy_operations, deploy_steps, no_steps, planned_steps};
use crate::deploy::types::{
    DeployExecutionReport, DeployExecutionReportView, DeployJournalInspectReport,
    DeployJournalInspectReportView, DeployJournalListItem, DeployJournalListItemView,
    DeployJournalListReport, DeployJournalListReportView, DeployOperation, DeployOperationResult,
    DeployOperationResultView, DeployOperationView, DeployOptions, DeployOptionsView, DeployPlan,
    DeployPlanView, DeployResumeReport, DeployResumeReportView, DeployStatus, PreflightReport,
    PreflightReportView, SnapshotCheck, SnapshotCheckView,
};
use crate::each::{choose_each, find_first, map_each, pick_first};
use crate::edits::{id_part, sanitize_id_part};
use crate::entries::{EntryKind, refuse, refused};
use crate::list::{
    Ranked, chosen, extend, first_some, first_where, includes, law_chosen, law_first_where,
    law_pairs_are_ordered, law_sorted_by, less, note, noted, pair_lt, rank, sort_stable, sorted_by,
    strict_weak, text_lt,
};
use crate::number::{decimal, decimal_text};
use crate::paths::{extension, extension_spec};
use crate::text::{
    after_prefix, as_text, begins, byte_len, byte_size, cat2, cat3, cat4, cat8, contains, finishes,
    holds, is_char, join, joined, law_parts_are_found, same, stands_at, strip_prefix, trim_char,
    trimmed_by,
};
use crate::words::{only_plain_chars, plain_char};

verus! {

broadcast use {vstd::seq::group_seq_axioms, vstd::string::group_string_axioms};

/// The version of the journal's format.
pub open spec fn journal_schema() -> Seq<char> {
    "opsctl.deploy_journal.v1"@
}

/// The largest journal that is read, in bytes.
pub const MAX_DEPLOY_JOURNAL_BYTES: u64 = 2097152;

/// Why the directory of the journals cannot be used. One that is missing holds no
/// journals.
pub fn refuse_journals_directory(entry: Option<EntryKind>, path: &str) -> (r: Option<String>)
    ensures
        r.deep_view() == refused(
            entry,
            EntryKind::Dir,
            "refusing deploy journals symlink directory: "@ + path@,
            "deploy journals path is not a directory: "@ + path@,
        ),
{
    refuse(
        entry,
        EntryKind::Dir,
        cat2("refusing deploy journals symlink directory: ", path),
        cat2("deploy journals path is not a directory: ", path),
    )
}

/// Whether an entry of that directory is listed: a `.json` file that is no link and
/// not too large.
pub open spec fn journal_is_listed(path: Seq<char>, kind: EntryKind, size: u64) -> bool {
    extension_spec(path) == Some("json"@) && kind == EntryKind::File && size
        <= MAX_DEPLOY_JOURNAL_BYTES
}

/// Whether an entry of the directory of the journals is listed.
pub fn is_listed_journal(path: &str, kind: EntryKind, size: u64) -> (r: bool)
    ensures
        r == journal_is_listed(path@, kind, size),
{
    let json = match extension(path) {
        Some(name) => same(&name, "json"),
        None => false,
    };
    json && kind == EntryKind::File && size <= MAX_DEPLOY_JOURNAL_BYTES
}

/// Why a journal cannot be read: it is a link, no file, or too large.
pub open spec fn journal_refused(path: Seq<char>, kind: EntryKind, size: u64) -> Option<
    Seq<char>,
> {
    match refused(
        Some(kind),
        EntryKind::File,
        "refusing to read deploy journal symlink: "@ + path,
        "deploy journal is not a regular file: "@ + path,
    ) {
        Some(words) => Some(words),
        None => if size > MAX_DEPLOY_JOURNAL_BYTES {
            Some("deploy journal exceeds size limit: "@ + path)
        } else {
            None
        },
    }
}

/// Why a journal cannot be read, if it cannot.
pub fn refuse_deploy_journal(path: &str, kind: EntryKind, size: u64) -> (r: Option<String>)
    ensures
        r.deep_view() == journal_refused(path@, kind, size),
{
    let link = cat2("refusing to read deploy journal symlink: ", path);
    let other = cat2("deploy journal is not a regular file: ", path);
    match refuse(Some(kind), EntryKind::File, link, other) {
        Some(words) => Some(words),
        None => if size > MAX_DEPLOY_JOURNAL_BYTES {
            Some(cat2("deploy journal exceeds size limit: ", path))
        } else {
            None
        },
    }
}

/// Whether a text can be a journal's id.
pub open spec fn journal_id_is_valid(id: Seq<char>) -> bool {
    match after_prefix(id, "deploy-"@) {
        Some(suffix) => suffix.len() > 0 && byte_len(suffix) <= 180 && !holds(suffix, ".."@)
            && forall|i: int| 0 <= i < suffix.len() ==> plain_char(#[trigger] suffix[i]),
        None => false,
    }
}

/// Refuses a text that cannot be a journal's id.
pub fn validate_deploy_journal_id(journal_id: &str) -> (r: Result<(), String>)
    ensures
        r is Ok <==> journal_id_is_valid(journal_id@),
        r is Err ==> r->Err_0@ == "invalid deploy journal id: "@ + journal_id@,
{
    let valid = match strip_prefix(journal_id, "deploy-") {
        Some(suffix) => !suffix.as_str().is_empty() && byte_size(&suffix) <= 180 && !contains(
            &suffix,
            "..",
        ) && only_plain_chars(&suffix),
        None => false,
    };
    if valid {
        Ok(())
    } else {
        Err(cat2("invalid deploy journal id: ", journal_id))
    }
}

/// Why a journal cannot be used: it has another format, or no valid id.
pub open spec fn journal_unfit(journal: DeployExecutionReportView) -> Option<Seq<char>> {
    if journal.schema_version != journal_schema() {
        Some("unsupported deploy journal schema version: "@ + journal.schema_version)
    } else if !journal_id_is_valid(journal.journal_id) {
        Some("invalid deploy journal id: "@ + journal.journal_id)
    } else {
        None
    }
}

/// Refuses a journal of another format, or without a valid id.
pub fn check_deploy_journal(journal: &DeployExecutionReport) -> (r: Result<(), String>)
    ensures
        r is Ok <==> journal.deep_view().schema_version == journal_schema() && journal_id_is_valid(
            journal.deep_view().journal_id,
        ),
        r is Err ==> Some(r->Err_0@) == journal_unfit(journal.deep_view()),
{
    if !same(&journal.schema_version, "opsctl.deploy_journal.v1") {
        return Err(
            cat2("unsupported deploy journal schema version: ", &journal.schema_version),
        );
    }
    validate_deploy_journal_id(&journal.journal_id)
}

// ---------------------------------------------------------------------------
// Lists
// ---------------------------------------------------------------------------

/// A journal in a list.
pub open spec fn journal_item(
    journal: DeployExecutionReportView,
    path: Seq<char>,
) -> DeployJournalListItemView {
    DeployJournalListItemView {
        journal_id: journal.journal_id,
        plan_id: journal.plan_id,
        snapshot_id: journal.snapshot_id,
        status: journal.status,
        started_at: journal.started_at,
        completed_at: journal.completed_at,
        operations_total: journal.operations_total,
        operations_succeeded: journal.operations_succeeded,
        operations_failed: journal.operations_failed,
        registry_updated: journal.registry_updated,
        path,
    }
}

/// A journal that was read.
#[derive(Debug)]
pub struct LoadedJournal {
    pub path: String,
    pub journal: DeployExecutionReport,
}

/// View of [`LoadedJournal`].
#[verifier::ext_equal]
pub struct LoadedJournalView {
    pub path: Seq<char>,
    pub journal: DeployExecutionReportView,
}

impl DeepView for LoadedJournal {
    type V = LoadedJournalView;

    open spec fn deep_view(&self) -> LoadedJournalView {
        LoadedJournalView {
            path: self.path.deep_view(),
            journal: self.journal.deep_view(),
        }
    }
}

/// A journal in a list.
pub fn summarize_journal(loaded: &LoadedJournal) -> (r: DeployJournalListItem)
    ensures
        r.deep_view() == journal_item(loaded.deep_view().journal, loaded.deep_view().path),
{
    let journal = &loaded.journal;
    DeployJournalListItem {
        journal_id: journal.journal_id.clone(),
        plan_id: journal.plan_id.clone(),
        snapshot_id: journal.snapshot_id.clone(),
        status: journal.status.clone(),
        started_at: journal.started_at.clone(),
        completed_at: journal.completed_at.clone(),
        operations_total: journal.operations_total,
        operations_succeeded: journal.operations_succeeded,
        operations_failed: journal.operations_failed,
        registry_updated: journal.registry_updated,
        path: loaded.path.clone(),
    }
}

impl Ranked for DeployJournalListItem {
    /// The latest first; of those that started together, the larger id.
    open spec fn before(a: DeployJournalListItemView, b: DeployJournalListItemView) -> bool {
        pair_lt((b.started_at, b.journal_id), (a.started_at, a.journal_id))
    }

    fn ranks_before(&self, other: &Self) -> (r: bool) {
        less(&other.started_at, &self.started_at) || (same(&other.started_at, &self.started_at)
            && less(&other.journal_id, &self.journal_id))
    }
}

/// The journals, the latest first.
pub open spec fn journal_list(journals: Seq<LoadedJournalView>) -> Seq<DeployJournalListItemView> {
    sorted_by(
        journals.map_values(|l: LoadedJournalView| journal_item(l.journal, l.path)),
        rank::<DeployJournalListItem>(),
    )
}

/// Why a journal that was read cannot be used.
pub open spec fn loaded_unfit() -> spec_fn(LoadedJournalView) -> Option<Seq<char>> {
    |l: LoadedJournalView| journal_unfit(l.journal)
}

/// The journals, the latest first; an error if one of them cannot be used, that of
/// the first such one.
pub fn list_deploy_journals(journals_dir: &str, journals: &Vec<LoadedJournal>) -> (r: Result<
    DeployJournalListReport,
    String,
>)
    ensures
        match first_some(journals.deep_view(), loaded_unfit()) {
            Some(words) => r is Err && r->Err_0@ == words,
            None => r is Ok && r->Ok_0.deep_view() == (DeployJournalListReportView {
                read_only: true,
                journals_dir: journals_dir@,
                journals: journal_list(journals.deep_view()),
            }),
        },
{
    let unfit = pick_first(
        journals,
        |l: &LoadedJournal| -> (words: Option<String>)
            ensures
                words.deep_view() == loaded_unfit()(l.deep_view())
            {
                match check_deploy_journal(&l.journal) {
                    Ok(_) => None,
                    Err(words) => Some(words),
                }
            },
        Ghost(loaded_unfit()),
    );
    if let Some(words) = unfit {
        return Err(words);
    }
    let items = map_each(
        journals,
        |l: &LoadedJournal| -> (r: DeployJournalListItem)
            ensures
                r.deep_view() == journal_item(l.deep_view().journal, l.deep_view().path)
            { summarize_journal(l) },
        Ghost(|l: LoadedJournalView| journal_item(l.journal, l.path)),
    );
    Ok(
        DeployJournalListReport {
            read_only: true,
            journals_dir: journals_dir.to_string(),
            journals: sort_stable(items),
        },
    )
}

/// Why a journal is not handed out: what was asked for cannot be an id, the journal
/// cannot be used, or it is another one.
pub open spec fn inspection_refused(
    journal_id: Seq<char>,
    journal: DeployExecutionReportView,
) -> Option<Seq<char>> {
    if !journal_id_is_valid(journal_id) {
        Some("invalid deploy journal id: "@ + journal_id)
    } else {
        match journal_unfit(journal) {
            Some(words) => Some(words),
            None => if journal.journal_id != journal_id {
                Some(
                    "deploy journal id mismatch: requested "@ + journal_id + ", found "@
                        + journal.journal_id,
                )
            } else {
                None
            },
        }
    }
}

/// Refuses to hand a journal out.
fn check_inspection(journal_id: &str, journal: &DeployExecutionReport) -> (r: Result<(), String>)
    ensures
        match inspection_refused(journal_id@, journal.deep_view()) {
            Some(words) => r is Err && r->Err_0@ == words,
            None => r is Ok,
        },
{
    if let Err(words) = validate_deploy_journal_id(journal_id) {
        return Err(words);
    }
    if let Err(words) = check_deploy_journal(journal) {
        return Err(words);
    }
    if !same(&journal.journal_id, journal_id) {
        return Err(
            cat4(
                "deploy journal id mismatch: requested ",
                journal_id,
                ", found ",
                &journal.journal_id,
            ),
        );
    }
    Ok(())
}

/// A journal that was asked for. It is handed out only under a valid id, which is
/// its own, and in the format that is known.
pub fn inspect_deploy_journal(journal_id: &str, path: &str, journal: DeployExecutionReport) -> (r:
    Result<DeployJournalInspectReport, String>)
    ensures
        r is Ok <==> journal_id_is_valid(journal_id@) && journal.deep_view().schema_version
            == journal_schema() && journal.deep_view().journal_id == journal_id@,
        r is Ok ==> r->Ok_0.deep_view() == (DeployJournalInspectReportView {
            read_only: true,
            journal_id: journal_id@,
            path: path@,
            journal: journal.deep_view(),
        }),
        r is Err ==> Some(r->Err_0@) == inspection_refused(journal_id@, journal.deep_view()),
{
    if let Err(words) = check_inspection(journal_id, &journal) {
        return Err(words);
    }
    Ok(
        DeployJournalInspectReport {
            read_only: true,
            journal_id: journal.journal_id.clone(),
            path: path.to_string(),
            journal,
        },
    )
}

/// The id of a new journal. The moment is given as the digits of its year, month,
/// day, hour, minute and second.
pub open spec fn new_journal_id(plan_id: Seq<char>, moment: Seq<char>) -> Seq<char> {
    "deploy-"@ + deploy_id_part(plan_id) + "-"@ + moment
}

/// The id of a new journal.
pub fn deploy_journal_id(plan: &DeployPlan, moment: &str) -> (r: String)
    ensures
        r@ == new_journal_id(plan.deep_view().id, moment@),
{
    cat4("deploy-", &sanitize_deploy_id_part(&plan.id), "-", moment)
}

/// A text as part of an identifier of a deploy. An empty one becomes `service`.
pub open spec fn deploy_id_part(raw: Seq<char>) -> Seq<char> {
    let bare = trimmed_by(id_part(raw), is_char('_'));
    if bare.len() == 0 {
        "service"@
    } else {
        bare
    }
}

/// A text as part of an identifier of a deploy.
pub fn sanitize_deploy_id_part(raw: &str) -> (r: String)
    ensures
        r@ == deploy_id_part(raw@),
{
    let bare = trim_char(&sanitize_id_part(raw), '_');
    if bare.as_str().is_empty() {
        "service".to_string()
    } else {
        bare
    }
}

// ---------------------------------------------------------------------------
// Going on with a deploy
// ---------------------------------------------------------------------------

/// Whether a step was done.
pub open spec fn completed(result: DeployOperationResultView) -> bool {
    result.status == "success"@ || result.status == "skipped"@
}

/// Whether a step was done.
pub fn deploy_result_completed(result: &DeployOperationResult) -> (r: bool)
    ensures
        r == completed(result.deep_view()),
{
    same(&result.status, "success") || same(&result.status, "skipped")
}

/// The step with this number.
pub open spec fn step_at(operations: Seq<DeployOperationView>, order: u32) -> Option<
    DeployOperationView,
> {
    first_where(operations, |o: DeployOperationView| o.order == order)
}

/// Why a step of the journal does not fit the plan.
pub open spec fn result_blocker(
    operations: Seq<DeployOperationView>,
    result: DeployOperationResultView,
) -> Option<Seq<char>> {
    match step_at(operations, result.order) {
        Some(o) => if o.kind == result.kind && o.target == result.target {
            None
        } else {
            Some(
                "operation "@ + decimal(result.order as nat)
                    + " changed since journal was written: journal "@ + result.kind + " "@
                    + result.target + ", plan "@ + o.kind + " "@ + o.target,
            )
        },
        None => Some(
            "operation "@ + decimal(result.order as nat)
                + " from journal is missing in current plan"@,
        ),
    }
}

/// Why a step of the journal does not fit the plan.
pub fn check_result(operations: &Vec<DeployOperation>, result: &DeployOperationResult) -> (r:
    Option<String>)
    ensures
        r.deep_view() == result_blocker(operations.deep_view(), result.deep_view()),
{
    let order = result.order;
    match find_first(
        operations,
        |o: &DeployOperation| -> (b: bool)
            ensures
                b == (o.deep_view().order == order)
            { o.order == order },
        Ghost(|o: DeployOperationView| o.order == order),
    ) {
        Some(o) => if same(&o.kind, &result.kind) && same(&o.target, &result.target) {
            None
        } else {
            let head = cat8(
                "operation ",
                &decimal_text(order as u64),
                " changed since journal was written: journal ",
                &result.kind,
                " ",
                &result.target,
                ", plan ",
                &o.kind,
            );
            Some(cat3(&head, " ", &o.target))
        },
        None => Some(
            cat3(
                "operation ",
                &decimal_text(order as u64),
                " from journal is missing in current plan",
            ),
        ),
    }
}

/// The numbers of the steps that were done.
pub open spec fn done_orders(results: Seq<DeployOperationResultView>) -> Seq<u32> {
    chosen(
        results,
        |r: DeployOperationResultView|
            if completed(r) {
                Some(r.order)
            } else {
                None
            },
    )
}

/// The first step that was not done.
pub open spec fn first_failure(results: Seq<DeployOperationResultView>) -> Option<
    DeployOperationResultView,
> {
    first_where(results, |r: DeployOperationResultView| !completed(r))
}

/// Whether a list has a number.
pub fn has_order(list: &Vec<u32>, order: u32) -> (r: bool)
    ensures
        r == list.deep_view().contains(order),
{
    let mut i: usize = 0;
    while i < list.len()
        invariant
            i <= list@.len(),
            forall|j: int| 0 <= j < i ==> list@[j] != order,
        decreases list@.len() - i,
    {
        if list[i] == order {
            proof {
                assert(list.deep_view()[i as int] == order);
            }
            return true;
        }
        i = i + 1;
    }
    proof {
        assert forall|j: int| 0 <= j < list.deep_view().len() implies list.deep_view()[j]
            != order by {
            assert(list@[j] != order);
        }
    }
    false
}

/// Why a step before the one that failed stands in the way.
pub open spec fn gap_blocker(o: DeployOperationView, failed: u32, done: Seq<u32>) -> Option<
    Seq<char>,
> {
    if o.order < failed && !done.contains(o.order) {
        Some(
            "operation "@ + decimal(o.order as nat)
                + " before the failed step is not recorded as completed"@,
        )
    } else {
        None
    }
}

/// What is left to do from the step that failed on.
pub open spec fn left_to_do(
    operations: Seq<DeployOperationView>,
    failed: u32,
    done: Seq<u32>,
) -> Seq<DeployOperationView> {
    chosen(
        operations,
        |o: DeployOperationView|
            if o.order >= failed && !done.contains(o.order) {
                Some(o)
            } else {
                None
            },
    )
}

/// Why a deploy cannot go on.
pub open spec fn resume_blockers(
    journal: DeployExecutionReportView,
    plan_id: Seq<char>,
    operations: Seq<DeployOperationView>,
) -> Seq<Seq<char>> {
    let done = done_orders(journal.results);
    noted(
        journal.plan_id != plan_id,
        "journal plan_id "@ + journal.plan_id + " does not match current plan id "@ + plan_id,
    ) + noted(
        journal.status != "failed"@,
        "only failed journals can be resumed; journal status is "@ + journal.status,
    ) + noted(
        journal.registry_updated,
        "journal already updated the registry; inspect state manually before retrying"@,
    ) + chosen(
        journal.results,
        |r: DeployOperationResultView| result_blocker(operations, r),
    ) + noted(journal.results.len() == 0, "journal has no operation results to resume from"@) + (
    match first_failure(journal.results) {
        Some(failure) => chosen(
            operations,
            |o: DeployOperationView| gap_blocker(o, failure.order, done),
        ),
        None => noted(true, "journal does not contain a failed operation"@),
    })
}

/// Whether a deploy that failed can go on, and with which steps.
pub open spec fn resume_report(
    journal: DeployExecutionReportView,
    journal_id: Seq<char>,
    plan: DeployPlanView,
) -> DeployResumeReportView {
    let operations = deploy_steps(plan);
    let done = done_orders(journal.results);
    let failure = first_failure(journal.results);
    let blockers = resume_blockers(journal, plan.id, operations);
    let next = match failure {
        Some(f) => left_to_do(operations, f.order, done),
        None => Seq::empty(),
    };
    let can_resume = blockers.len() == 0 && next.len() > 0;
    DeployResumeReportView {
        read_only: true,
        dry_run: true,
        journal_id: journal.journal_id,
        plan_id: plan.id,
        original_snapshot_id: journal.snapshot_id,
        journal_status: journal.status,
        can_resume,
        resume_approval_token: if can_resume {
            Some(resume_token(plan.id, journal_id))
        } else {
            None
        },
        resume_approval_scope: if can_resume {
            Some(resume_scope(journal_id))
        } else {
            None
        },
        blockers,
        executed_orders: done,
        failed_operation: failure,
        next_operations: next,
        execution: None,
    }
}

/// Why a deploy cannot go on.
pub fn list_resume_blockers(
    journal: &DeployExecutionReport,
    plan_id: &str,
    operations: &Vec<DeployOperation>,
    failure: Option<&DeployOperationResult>,
    done: &Vec<u32>,
) -> (r: Vec<String>)
    requires
        failure.deep_view() == first_failure(journal.deep_view().results),
        done.deep_view() == done_orders(journal.deep_view().results),
    ensures
        r.deep_view() == resume_blockers(
            journal.deep_view(),
            plan_id@,
            operations.deep_view(),
        ),
{
    let mut blockers: Vec<String> = Vec::new();
    proof {
        assert(blockers.deep_view() =~= Seq::<Seq<char>>::empty());
        assert(journal.results.deep_view().len() == journal.results@.len());
    }
    note(
        &mut blockers,
        !same(&journal.plan_id, plan_id),
        &cat4(
            "journal plan_id ",
            &journal.plan_id,
            " does not match current plan id ",
            plan_id,
        ),
    );
    note(
        &mut blockers,
        !same(&journal.status, "failed"),
        &cat2("only failed journals can be resumed; journal status is ", &journal.status),
    );
    note(
        &mut blockers,
        journal.registry_updated,
        "journal already updated the registry; inspect state manually before retrying",
    );
    let changed = choose_each(
        &journal.results,
        |r: &DeployOperationResult| -> (t: Option<String>)
            ensures
                t.deep_view() == result_blocker(operations.deep_view(), r.deep_view())
            { check_result(operations, r) },
        Ghost(|r: DeployOperationResultView| result_blocker(operations.deep_view(), r)),
    );
    extend(&mut blockers, &changed);
    note(
        &mut blockers,
        journal.results.len() == 0,
        "journal has no operation results to resume from",
    );
    match failure {
        Some(f) => {
            let order = f.order;
            let gaps = choose_each(
                operations,
                |o: &DeployOperation| -> (t: Option<String>)
                    ensures
                        t.deep_view() == gap_blocker(o.deep_view(), order, done.deep_view())
                    {
                        if o.order < order && !has_order(done, o.order) {
                            Some(
                                cat3(
                                    "operation ",
                                    &decimal_text(o.order as u64),
                                    " before the failed step is not recorded as completed",
                                ),
                            )
                        } else {
                            None
                        }
                    },
                Ghost(|o: DeployOperationView| gap_blocker(o, order, done.deep_view())),
            );
            extend(&mut blockers, &gaps);
        },
        None => {
            note(&mut blockers, true, "journal does not contain a failed operation");
        },
    }
    proof {
        assert(blockers.deep_view() =~= resume_blockers(
            journal.deep_view(),
            plan_id@,
            operations.deep_view(),
        ));
    }
    blockers
}

/// What is left to do from the step that failed on.
pub fn select_next(operations: &Vec<DeployOperation>, failed: u32, done: &Vec<u32>) -> (r: Vec<
    DeployOperation,
>)
    ensures
        r.deep_view() == left_to_do(operations.deep_view(), failed, done.deep_view()),
{
    choose_each(
        operations,
        |o: &DeployOperation| -> (r: Option<DeployOperation>)
            ensures
                r.deep_view() == (if o.deep_view().order >= failed && !done.deep_view().contains(
                    o.deep_view().order,
                ) {
                    Some(o.deep_view())
                } else {
                    None
                })
            {
                if o.order >= failed && !has_order(done, o.order) {
                    Some(o.clone())
                } else {
                    None
                }
            },
        Ghost(
            |o: DeployOperationView|
                if o.order >= failed && !done.deep_view().contains(o.order) {
                    Some(o)
                } else {
                    None
                },
        ),
    )
}

/// How a deploy can go on, from the journal that was asked for. A journal that is not
/// handed out is not gone on with either.
pub fn resume_deploy_journal(journal: &DeployExecutionReport, journal_id: &str, plan: &DeployPlan)
    -> (r: Result<DeployResumeReport, String>)
    requires
        planned_steps(plan.deep_view()).len() <= u32::MAX,
    ensures
        r is Ok <==> journal_id_is_valid(journal_id@) && journal.deep_view().schema_version
            == journal_schema() && journal.deep_view().journal_id == journal_id@,
        r is Ok ==> r->Ok_0.deep_view() == resume_report(
            journal.deep_view(),
            journal_id@,
            plan.deep_view(),
        ),
        r is Err ==> Some(r->Err_0@) == inspection_refused(journal_id@, journal.deep_view()),
{
    if let Err(words) = check_inspection(journal_id, journal) {
        return Err(words);
    }
    Ok(report_resume(journal, journal_id, plan))
}

/// How a deploy can go on.
fn report_resume(journal: &DeployExecutionReport, journal_id: &str, plan: &DeployPlan) -> (r:
    DeployResumeReport)
    requires
        planned_steps(plan.deep_view()).len() <= u32::MAX,
    ensures
        r.deep_view() == resume_report(journal.deep_view(), journal_id@, plan.deep_view()),
{
    let operations = deploy_operations(plan);
    let done = choose_each(
        &journal.results,
        |r: &DeployOperationResult| -> (o: Option<u32>)
            ensures
                o.deep_view() == (if completed(r.deep_view()) {
                    Some(r.deep_view().order)
                } else {
                    None
                })
            {
                if deploy_result_completed(r) {
                    Some(r.order)
                } else {
                    None
                }
            },
        Ghost(
            |r: DeployOperationResultView|
                if completed(r) {
                    Some(r.order)
                } else {
                    None
                },
        ),
    );
    let failure = find_first(
        &journal.results,
        |r: &DeployOperationResult| -> (b: bool)
            ensures
                b == !completed(r.deep_view())
            { !deploy_result_completed(r) },
        Ghost(|r: DeployOperationResultView| !completed(r)),
    );
    let blockers = list_resume_blockers(journal, &plan.id, &operations, failure, &done);
    let next = match failure {
        Some(f) => select_next(&operations, f.order, &done),
        None => no_steps(),
    };
    proof {
        assert(blockers.deep_view().len() == blockers@.len());
        assert(next.deep_view().len() == next@.len());
    }
    let can_resume = blockers.len() == 0 && next.len() > 0;
    let token = if can_resume {
        Some(expected_deploy_resume_approval_token(plan, journal_id))
    } else {
        None
    };
    let scope = if can_resume {
        Some(expected_deploy_resume_approval_scope(journal_id))
    } else {
        None
    };
    let failed_operation = match failure {
        Some(f) => Some(f.clone()),
        None => None,
    };
    DeployResumeReport {
        read_only: true,
        dry_run: true,
        journal_id: journal.journal_id.clone(),
        plan_id: plan.id.clone(),
        original_snapshot_id: journal.snapshot_id.clone(),
        journal_status: journal.status.clone(),
        can_resume,
        resume_approval_token: token,
        resume_approval_scope: scope,
        blockers,
        executed_orders: done,
        failed_operation,
        next_operations: next,
        execution: None,
    }
}

/// What going on with a deploy is asked for.
#[derive(Debug)]
pub struct DeployResumeExecutionOptions<'a> {
    pub plan: &'a DeployPlan,
    pub journal_id: &'a str,
    /// The scopes that are approved for the plan.
    pub approved: &'a Vec<String>,
    pub approval_token: &'a str,
}

/// View of [`DeployResumeExecutionOptions`].
#[verifier::ext_equal]
pub struct DeployResumeExecutionOptionsView {
    pub plan: DeployPlanView,
    pub journal_id: Seq<char>,
    pub approved: Seq<Seq<char>>,
    pub approval_token: Seq<char>,
}

impl<'a> DeepView for DeployResumeExecutionOptions<'a> {
    type V = DeployResumeExecutionOptionsView;

    open spec fn deep_view(&self) -> DeployResumeExecutionOptionsView {
        DeployResumeExecutionOptionsView {
            plan: self.plan.deep_view(),
            journal_id: self.journal_id.deep_view(),
            approved: self.approved.deep_view(),
            approval_token: self.approval_token.deep_view(),
        }
    }
}

/// Why a deploy does not go on. The fresh status is that of the plan with the
/// journal's snapshot.
pub open spec fn resume_refusal(
    report: DeployResumeReportView,
    fresh: DeployStatus,
    options: DeployResumeExecutionOptionsView,
) -> Option<Seq<char>> {
    if !report.can_resume {
        Some("deploy resume is not safe: "@ + joined(report.blockers, "; "@))
    } else if fresh != DeployStatus::Ready {
        Some(
            "deploy resume requires a currently ready deploy plan; current status is "@
                + status_word(fresh),
        )
    } else if !options.approved.contains(resume_scope(options.journal_id)) {
        Some(
            "deploy resume requires an approved approval record with scope "@ + resume_scope(
                options.journal_id,
            ),
        )
    } else if options.approval_token != resume_token(options.plan.id, options.journal_id) {
        Some(
            "invalid deploy resume approval token; rerun deploy-resume --dry-run and use the printed resume_approval_token"@,
        )
    } else {
        None
    }
}

/// What going on with a deploy comes to: the report on its journal, or why it does
/// not go on.
pub open spec fn resume_decision(
    options: DeployResumeExecutionOptionsView,
    journal: DeployExecutionReportView,
    preflight: PreflightReportView,
    check: SnapshotCheckView,
) -> Result<DeployResumeReportView, Seq<char>> {
    match inspection_refused(options.journal_id, journal) {
        Some(words) => Err(words),
        None => {
            let report = resume_report(journal, options.journal_id, options.plan);
            let fresh = deploy_report(
                DeployOptionsView {
                    plan: options.plan,
                    dry_run: true,
                    snapshot_id: report.original_snapshot_id,
                    approved: options.approved,
                },
                preflight,
                check,
            );
            match resume_refusal(report, fresh.status, options) {
                Some(words) => Err(words),
                None => Ok(report),
            }
        },
    }
}

/// Decides whether to go on with a deploy, and with what: the operations that are
/// next in the report.
pub fn execute_deploy_resume(
    options: &DeployResumeExecutionOptions<'_>,
    journal: &DeployExecutionReport,
    preflight: &PreflightReport,
    check: &SnapshotCheck,
) -> (r: Result<DeployResumeReport, String>)
    requires
        planned_steps(options.deep_view().plan).len() <= u32::MAX,
    ensures
        match resume_decision(
            options.deep_view(),
            journal.deep_view(),
            preflight.deep_view(),
            check.deep_view(),
        ) {
            Ok(report) => r is Ok && r->Ok_0.deep_view() == report,
            Err(words) => r is Err && r->Err_0@ == words,
        },
{
    let report = match resume_deploy_journal(journal, options.journal_id, options.plan) {
        Ok(report) => report,
        Err(words) => {
            return Err(words);
        },
    };
    if !report.can_resume {
        return Err(cat2("deploy resume is not safe: ", &join(&report.blockers, "; ")));
    }
    let fresh = plan_deploy(
        &DeployOptions {
            plan: options.plan,
            dry_run: true,
            snapshot_id: as_text(&report.original_snapshot_id),
            approved: options.approved,
        },
        preflight,
        check,
    );
    if fresh.status != DeployStatus::Ready {
        return Err(
            cat2(
                "deploy resume requires a currently ready deploy plan; current status is ",
                status_text(fresh.status),
            ),
        );
    }
    let scope = expected_deploy_resume_approval_scope(options.journal_id);
    if !includes(options.approved, &scope) {
        return Err(
            cat2("deploy resume requires an approved approval record with scope ", &scope),
        );
    }
    let token = expected_deploy_resume_approval_token(options.plan, options.journal_id);
    if !same(options.approval_token, &token) {
        return Err(
            "invalid deploy resume approval token; rerun deploy-resume --dry-run and use the printed resume_approval_token".to_string(),
        );
    }
    Ok(report)
}

/// Adds what came of going on with a deploy to its report.
pub fn finish_deploy_resume(report: DeployResumeReport, execution: DeployExecutionReport) -> (r:
    DeployResumeReport)
    ensures
        r.deep_view() == (DeployResumeReportView {
            read_only: false,
            dry_run: false,
            execution: Some(execution.deep_view()),
            ..report.deep_view()
        }),
{
    let mut r = report;
    r.read_only = false;
    r.dry_run = false;
    r.execution = Some(execution);
    r
}

// ---------------------------------------------------------------------------
// Laws
// ---------------------------------------------------------------------------

/// A deploy that goes on takes no step again that was done, and none before the one
/// that failed; what it takes is part of the plan.
pub proof fn law_resume_repeats_nothing(
    journal: DeployExecutionReportView,
    journal_id: Seq<char>,
    plan: DeployPlanView,
    i: int,
)
    requires
        0 <= i < resume_report(journal, journal_id, plan).next_operations.len(),
    ensures
        ({
            let report = resume_report(journal, journal_id, plan);
            let o = report.next_operations[i];
            &&& !report.executed_orders.contains(o.order)
            &&& report.failed_operation is Some && o.order >= report.failed_operation->0.order
            &&& deploy_steps(plan).contains(o)
        }),
{
    let report = resume_report(journal, journal_id, plan);
    lemma_left_to_do(
        deploy_steps(plan),
        report.failed_operation->0.order,
        report.executed_orders,
        i,
    );
}

proof fn lemma_left_to_do(
    operations: Seq<DeployOperationView>,
    failed: u32,
    done: Seq<u32>,
    i: int,
)
    requires
        0 <= i < left_to_do(operations, failed, done).len(),
    ensures
        operations.contains(left_to_do(operations, failed, done)[i]),
        left_to_do(operations, failed, done)[i].order >= failed,
        !done.contains(left_to_do(operations, failed, done)[i].order),
    decreases operations.len(),
{
    let d = operations.drop_last();
    let rest = left_to_do(d, failed, done);
    if i < rest.len() {
        lemma_left_to_do(d, failed, done, i);
        let k = choose|k: int| 0 <= k < d.len() && d[k] == rest[i];
        assert(operations[k] == rest[i]);
    } else {
        assert(operations[operations.len() - 1] == operations.last());
    }
}

/// A deploy goes on only where its journal is that of a failed run of the same
/// plan, and has not written the registry.
pub proof fn law_only_failed_runs_resume(
    journal: DeployExecutionReportView,
    journal_id: Seq<char>,
    plan: DeployPlanView,
)
    requires
        resume_report(journal, journal_id, plan).can_resume,
    ensures
        journal.plan_id == plan.id,
        journal.status == "failed"@,
        !journal.registry_updated,
        journal.results.len() > 0,
        first_failure(journal.results) is Some,
{
    let operations = deploy_steps(plan);
    let a = noted(
        journal.plan_id != plan.id,
        "journal plan_id "@ + journal.plan_id + " does not match current plan id "@ + plan.id,
    );
    let b = noted(
        journal.status != "failed"@,
        "only failed journals can be resumed; journal status is "@ + journal.status,
    );
    let c = noted(
        journal.registry_updated,
        "journal already updated the registry; inspect state manually before retrying"@,
    );
    let d = chosen(
        journal.results,
        |r: DeployOperationResultView| result_blocker(operations, r),
    );
    let e = noted(
        journal.results.len() == 0,
        "journal has no operation results to resume from"@,
    );
    assert(resume_blockers(journal, plan.id, operations).len() >= a.len() + b.len() + c.len()
        + d.len() + e.len());
}

/// A deploy that goes on is approved for this journal, which is the one that was
/// asked for, has a valid id and the known format, and is that of a failed run.
pub proof fn law_resume_needs_its_own_approval(
    options: DeployResumeExecutionOptionsView,
    journal: DeployExecutionReportView,
    preflight: PreflightReportView,
    check: SnapshotCheckView,
)
    requires
        resume_decision(options, journal, preflight, check) is Ok,
    ensures
        journal_id_is_valid(options.journal_id),
        journal.journal_id == options.journal_id,
        journal.schema_version == journal_schema(),
        resume_decision(options, journal, preflight, check)->Ok_0.can_resume,
        journal.plan_id == options.plan.id,
        journal.status == "failed"@,
        options.approved.contains(resume_scope(options.journal_id)),
        options.approval_token == resume_token(options.plan.id, options.journal_id),
{
    law_only_failed_runs_resume(journal, options.journal_id, options.plan);
}

/// An id under which a journal is handed out names a file of the directory of the
/// journals: it leads nowhere else.
pub proof fn law_valid_ids_stay_in_their_directory(id: Seq<char>, i: int)
    requires
        journal_id_is_valid(id),
        0 <= i < id.len(),
    ensures
        plain_char(id[i]),
        id[i] != '/',
        id[i] != '.',
{
    reveal_strlit("deploy-");
    let prefix = "deploy-"@;
    assert(after_prefix(id, prefix) is Some);
    if i >= prefix.len() {
        assert(id[i] == after_prefix(id, prefix)->0[i - prefix.len()]);
    } else {
        assert(id[i] == prefix[i]);
    }
}

/// A journal that is listed is never refused when it is read.
pub proof fn law_listed_journals_can_be_read(path: Seq<char>, kind: EntryKind, size: u64)
    requires
        journal_is_listed(path, kind, size),
    ensures
        journal_refused(path, kind, size) is None,
{
}

/// Whether a result says that a step with this number was done or passed over.
pub open spec fn recorded_as_done(results: Seq<DeployOperationResultView>, order: u32) -> bool {
    exists|i: int|
        0 <= i < results.len() && (#[trigger] results[i]).order == order && (results[i].status
            == "success"@ || results[i].status == "skipped"@)
}

/// Whether the first step of the plan with the number of a result is that result's.
pub open spec fn fits_its_step(
    steps: Seq<DeployOperationView>,
    result: DeployOperationResultView,
) -> bool {
    exists|j: int|
        0 <= j < steps.len() && (#[trigger] steps[j]).order == result.order && steps[j].kind
            == result.kind && steps[j].target == result.target && forall|k: int|
            0 <= k < j ==> (#[trigger] steps[k]).order != result.order
}

/// Whether a result is the first of a step that was neither done nor passed over.
pub open spec fn first_undone(results: Seq<DeployOperationResultView>, f: int) -> bool {
    &&& 0 <= f < results.len()
    &&& results[f].status != "success"@
    &&& results[f].status != "skipped"@
    &&& forall|i: int|
        0 <= i < f ==> (#[trigger] results[i]).status == "success"@ || results[i].status
            == "skipped"@
}

proof fn lemma_result_fits(steps: Seq<DeployOperationView>, result: DeployOperationResultView)
    ensures
        result_blocker(steps, result) is None <==> fits_its_step(steps, result),
{
    let p = |o: DeployOperationView| o.order == result.order;
    law_first_where(steps, p);
    if first_where(steps, p) is Some {
        let j = choose|j: int|
            0 <= j < steps.len() && #[trigger] steps[j] == first_where(steps, p)->0 && p(steps[j])
                && forall|k: int| 0 <= k < j ==> !p(#[trigger] steps[k]);
        assert forall|k: int| 0 <= k < j implies (#[trigger] steps[k]).order != result.order by {
            assert(!p(steps[k]));
        }
        assert(steps[j].order == result.order);
        if fits_its_step(steps, result) {
            let i = choose|i: int|
                0 <= i < steps.len() && (#[trigger] steps[i]).order == result.order
                    && steps[i].kind == result.kind && steps[i].target == result.target && forall|
                    k: int,
                |
                    0 <= k < i ==> (#[trigger] steps[k]).order != result.order;
            assert(i == j);
        }
    } else if fits_its_step(steps, result) {
        let i = choose|i: int|
            0 <= i < steps.len() && (#[trigger] steps[i]).order == result.order && steps[i].kind
                == result.kind && steps[i].target == result.target && forall|k: int|
                0 <= k < i ==> (#[trigger] steps[k]).order != result.order;
        assert(!p(steps[i]));
    }
}

proof fn lemma_done(results: Seq<DeployOperationResultView>, order: u32)
    ensures
        done_orders(results).contains(order) <==> recorded_as_done(results, order),
{
    let f = |r: DeployOperationResultView|
        if completed(r) {
            Some(r.order)
        } else {
            None::<u32>
        };
    law_chosen(results, f, order);
    if done_orders(results).contains(order) {
        let i = choose|i: int| 0 <= i < results.len() && f(#[trigger] results[i]) == Some(order);
        assert(results[i].order == order);
    }
    if recorded_as_done(results, order) {
        let i = choose|i: int|
            0 <= i < results.len() && (#[trigger] results[i]).order == order && (results[i].status
                == "success"@ || results[i].status == "skipped"@);
        assert(f(results[i]) == Some(order));
    }
}

proof fn lemma_nothing_chosen<A, B>(s: Seq<A>, f: spec_fn(A) -> Option<B>)
    ensures
        chosen(s, f).len() == 0 <==> forall|i: int| 0 <= i < s.len() ==> f(#[trigger] s[i]) is None,
{
    if chosen(s, f).len() > 0 {
        let x = chosen(s, f)[0];
        assert(chosen(s, f).contains(x));
        law_chosen(s, f, x);
    }
    if exists|i: int| 0 <= i < s.len() && f(#[trigger] s[i]) is Some {
        let i = choose|i: int| 0 <= i < s.len() && f(#[trigger] s[i]) is Some;
        law_chosen(s, f, f(s[i])->0);
        assert(f(s[i]) == Some(f(s[i])->0));
    }
}

proof fn lemma_failure(results: Seq<DeployOperationResultView>)
    ensures
        first_failure(results) is Some <==> exists|f: int| first_undone(results, f),
        forall|f: int| #[trigger]
            first_undone(results, f) ==> first_failure(results) == Some(results[f]),
{
    let p = |r: DeployOperationResultView| !completed(r);
    law_first_where(results, p);
    assert forall|f: int| #[trigger] first_undone(results, f) implies first_failure(results)
        == Some(results[f]) by {
        assert(p(results[f]));
        let i = choose|i: int|
            0 <= i < results.len() && #[trigger] results[i] == first_where(results, p)->0 && p(
                results[i],
            ) && forall|j: int| 0 <= j < i ==> !p(#[trigger] results[j]);
        if i < f {
            assert(completed(results[i]));
        } else if f < i {
            assert(!p(results[f]));
        }
    }
    if first_failure(results) is Some {
        let i = choose|i: int|
            0 <= i < results.len() && #[trigger] results[i] == first_where(results, p)->0 && p(
                results[i],
            ) && forall|j: int| 0 <= j < i ==> !p(#[trigger] results[j]);
        assert forall|j: int| 0 <= j < i implies (#[trigger] results[j]).status == "success"@
            || results[j].status == "skipped"@ by {
            assert(!p(results[j]));
        }
        assert(first_undone(results, i));
    }
}

/// What is left to do from the first step that was not done on: the steps of the plan
/// with its number or a higher one that no result records as done, and no others.
pub proof fn law_resume_does_what_is_left(
    journal: DeployExecutionReportView,
    journal_id: Seq<char>,
    plan: DeployPlanView,
    f: int,
    step: DeployOperationView,
)
    requires
        first_undone(journal.results, f),
    ensures
        resume_report(journal, journal_id, plan).failed_operation == Some(journal.results[f]),
        resume_report(journal, journal_id, plan).next_operations.contains(step) <==> {
            &&& deploy_steps(plan).contains(step)
            &&& step.order >= journal.results[f].order
            &&& !recorded_as_done(journal.results, step.order)
        },
{
    let results = journal.results;
    let steps = deploy_steps(plan);
    let done = done_orders(results);
    lemma_failure(results);
    let failed = results[f].order;
    let g = |o: DeployOperationView|
        if o.order >= failed && !done.contains(o.order) {
            Some(o)
        } else {
            None::<DeployOperationView>
        };
    assert(resume_report(journal, journal_id, plan).next_operations == chosen(steps, g));
    law_chosen(steps, g, step);
    lemma_done(results, step.order);
    if deploy_steps(plan).contains(step) {
        let i = choose|i: int| 0 <= i < steps.len() && steps[i] == step;
        assert(steps[i] == step);
        if step.order >= failed && !recorded_as_done(results, step.order) {
            assert(g(steps[i]) == Some(step));
        }
    }
    if chosen(steps, g).contains(step) {
        let i = choose|i: int| 0 <= i < steps.len() && g(#[trigger] steps[i]) == Some(step);
        assert(steps[i] == step);
    }
}

/// A deploy can go on exactly where its journal is that of a failed run of the same
/// plan that has not written the registry, every result of it is that of a step of the
/// plan with the same number, kind and target, some step was not done, all steps
/// before that one are recorded as done, and something is left to do.
#[verifier::rlimit(40)]
#[verifier::spinoff_prover]
pub proof fn law_when_a_deploy_can_go_on(
    journal: DeployExecutionReportView,
    journal_id: Seq<char>,
    plan: DeployPlanView,
)
    ensures
        resume_report(journal, journal_id, plan).can_resume <==> {
            &&& journal.plan_id == plan.id
            &&& journal.status == "failed"@
            &&& !journal.registry_updated
            &&& forall|i: int|
                0 <= i < journal.results.len() ==> fits_its_step(
                    deploy_steps(plan),
                    #[trigger] journal.results[i],
                )
            &&& exists|f: int| #[trigger]
                first_undone(journal.results, f) && (forall|j: int|
                    0 <= j < deploy_steps(plan).len() && (#[trigger] deploy_steps(plan)[j]).order
                        < journal.results[f].order ==> recorded_as_done(
                        journal.results,
                        deploy_steps(plan)[j].order,
                    )) && exists|j: int|
                    0 <= j < deploy_steps(plan).len() && (#[trigger] deploy_steps(plan)[j]).order
                        >= journal.results[f].order && !recorded_as_done(
                        journal.results,
                        deploy_steps(plan)[j].order,
                    )
        },
        resume_report(journal, journal_id, plan).can_resume ==> forall|i: int|
            0 <= i < journal.results.len() ==> exists|j: int|
                0 <= j < deploy_steps(plan).len() && (#[trigger] deploy_steps(plan)[j]).order == (
                #[trigger] journal.results[i]).order && deploy_steps(plan)[j].kind
                    == journal.results[i].kind && deploy_steps(plan)[j].target
                    == journal.results[i].target,
{
    let results = journal.results;
    let steps = deploy_steps(plan);
    let done = done_orders(results);
    lemma_failure(results);
    let a = noted(
        journal.plan_id != plan.id,
        "journal plan_id "@ + journal.plan_id + " does not match current plan id "@ + plan.id,
    );
    let b = noted(
        journal.status != "failed"@,
        "only failed journals can be resumed; journal status is "@ + journal.status,
    );
    let c = noted(
        journal.registry_updated,
        "journal already updated the registry; inspect state manually before retrying"@,
    );
    let fd = |r: DeployOperationResultView| result_blocker(steps, r);
    let d = chosen(results, fd);
    let e = noted(results.len() == 0, "journal has no operation results to resume from"@);
    lemma_nothing_chosen(results, fd);
    assert(d.len() == 0 <==> forall|i: int|
        0 <= i < results.len() ==> fits_its_step(steps, #[trigger] results[i])) by {
        assert forall|i: int| 0 <= i < results.len() implies (fd(#[trigger] results[i]) is None)
            == fits_its_step(steps, results[i]) by {
            lemma_result_fits(steps, results[i]);
        }
        if d.len() == 0 {
            assert forall|i: int| 0 <= i < results.len() implies fits_its_step(
                steps,
                #[trigger] results[i],
            ) by {
                assert(fd(results[i]) is None);
            }
        }
        if forall|i: int| 0 <= i < results.len() ==> fits_its_step(steps, #[trigger] results[i]) {
            assert forall|i: int| 0 <= i < results.len() implies fd(
                #[trigger] results[i],
            ) is None by {
                assert(fits_its_step(steps, results[i]));
            }
        }
    }
    assert forall|order: u32| #[trigger] done.contains(order) == recorded_as_done(
        results,
        order,
    ) by {
        lemma_done(results, order);
    }
    if first_failure(results) is Some {
        let f = choose|f: int| first_undone(results, f);
        let failed = results[f].order;
        let fg = |o: DeployOperationView| gap_blocker(o, failed, done);
        let g = chosen(steps, fg);
        lemma_nothing_chosen(steps, fg);
        assert(resume_blockers(journal, plan.id, steps).len() == a.len() + b.len() + c.len()
            + d.len() + e.len() + g.len());
        assert(g.len() == 0 <==> forall|j: int|
            0 <= j < steps.len() && (#[trigger] steps[j]).order < failed ==> recorded_as_done(
                results,
                steps[j].order,
            )) by {
            if g.len() == 0 {
                assert forall|j: int|
                    0 <= j < steps.len() && (#[trigger] steps[j]).order
                        < failed implies recorded_as_done(results, steps[j].order) by {
                    assert(fg(steps[j]) is None);
                    assert(done.contains(steps[j].order));
                }
            }
            if forall|j: int|
                0 <= j < steps.len() && (#[trigger] steps[j]).order < failed ==> recorded_as_done(
                    results,
                    steps[j].order,
                ) {
                assert forall|j: int| 0 <= j < steps.len() implies fg(
                    #[trigger] steps[j],
                ) is None by {
                    if steps[j].order < failed {
                        assert(done.contains(steps[j].order));
                    }
                }
            }
        }
        let left = |o: DeployOperationView|
            if o.order >= failed && !done.contains(o.order) {
                Some(o)
            } else {
                None::<DeployOperationView>
            };
        let next = chosen(steps, left);
        assert(resume_report(journal, journal_id, plan).next_operations == next);
        lemma_nothing_chosen(steps, left);
        assert(next.len() > 0 <==> exists|j: int|
            0 <= j < steps.len() && (#[trigger] steps[j]).order >= failed && !recorded_as_done(
                results,
                steps[j].order,
            )) by {
            if next.len() > 0 {
                let j = choose|j: int| 0 <= j < steps.len() && left(#[trigger] steps[j]) is Some;
                assert(!done.contains(steps[j].order));
            }
            if exists|j: int|
                0 <= j < steps.len() && (#[trigger] steps[j]).order >= failed
                    && !recorded_as_done(results, steps[j].order) {
                let j = choose|j: int|
                    0 <= j < steps.len() && (#[trigger] steps[j]).order >= failed
                        && !recorded_as_done(results, steps[j].order);
                assert(!done.contains(steps[j].order));
                assert(left(steps[j]) is Some);
            }
        }
        assert forall|h: int| #[trigger] first_undone(results, h) implies results[h].order
            == failed by {}
    } else {
        assert(resume_blockers(journal, plan.id, steps).len() >= 1);
    }
}

/// Going on is allowed exactly where the journal is the one that was asked for, has a
/// valid id and the known format, the deploy can go on, the plan is ready, the scope of
/// this journal is approved, and the token is that of the plan and the journal.
pub proof fn law_when_going_on_is_allowed(
    options: DeployResumeExecutionOptionsView,
    journal: DeployExecutionReportView,
    preflight: PreflightReportView,
    check: SnapshotCheckView,
)
    ensures
        resume_decision(options, journal, preflight, check) is Ok <==> {
            &&& journal_id_is_valid(options.journal_id)
            &&& journal.schema_version == "opsctl.deploy_journal.v1"@
            &&& journal.journal_id == options.journal_id
            &&& resume_report(journal, options.journal_id, options.plan).can_resume
            &&& deploy_report(
                DeployOptionsView {
                    plan: options.plan,
                    dry_run: true,
                    snapshot_id: journal.snapshot_id,
                    approved: options.approved,
                },
                preflight,
                check,
            ).status == DeployStatus::Ready
            &&& options.approved.contains("deploy_resume."@ + options.journal_id)
            &&& options.approval_token == "deploy-resume:"@ + options.plan.id + ":"@
                + options.journal_id
        },
        resume_decision(options, journal, preflight, check) is Ok ==> resume_decision(
            options,
            journal,
            preflight,
            check,
        )->Ok_0 == resume_report(journal, options.journal_id, options.plan),
{
    reveal_strlit("deploy_resume");
    reveal_strlit(".");
    reveal_strlit("deploy_resume.");
    assert("deploy_resume"@ + "."@ =~= "deploy_resume."@);
    assert("deploy_resume"@ + "."@ + options.journal_id =~= "deploy_resume."@
        + options.journal_id);
}

/// A journal's id is `deploy-` and then one to as many as 180 bytes of small letters,
/// digits, hyphens and underscores; nothing else is one.
pub proof fn law_journal_ids(id: Seq<char>, suffix: Seq<char>)
    ensures
        journal_id_is_valid("deploy-"@ + suffix) <==> {
            &&& 0 < suffix.len()
            &&& byte_len(suffix) <= 180
            &&& forall|i: int|
                0 <= i < suffix.len() ==> 'a' <= #[trigger] suffix[i] <= 'z' || '0' <= suffix[i]
                    <= '9' || suffix[i] == '-' || suffix[i] == '_'
        },
        journal_id_is_valid(id) ==> begins(id, "deploy-"@),
{
    law_parts_are_found(Seq::empty(), "deploy-"@, suffix);
    reveal_strlit("..");
    if holds(suffix, ".."@) {
        let k = choose|k: int| #[trigger] stands_at(suffix, ".."@, k);
        assert(suffix.subrange(k, k + 2)[0] == suffix[k]);
        assert(suffix[k] == '.');
        assert(!plain_char(suffix[k]));
    }
    if forall|i: int|
        0 <= i < suffix.len() ==> 'a' <= #[trigger] suffix[i] <= 'z' || '0' <= suffix[i] <= '9'
            || suffix[i] == '-' || suffix[i] == '_' {
        assert forall|i: int| 0 <= i < suffix.len() implies plain_char(#[trigger] suffix[i]) by {}
    }
    if forall|i: int| 0 <= i < suffix.len() ==> plain_char(#[trigger] suffix[i]) {
        assert forall|i: int| 0 <= i < suffix.len() implies 'a' <= #[trigger] suffix[i] <= 'z'
            || '0' <= suffix[i] <= '9' || suffix[i] == '-' || suffix[i] == '_' by {
            assert(plain_char(suffix[i]));
        }
    }
}

/// The journals are listed with the latest first, each once.
pub proof fn law_latest_journals_come_first(journals: Seq<LoadedJournalView>, i: int, j: int)
    requires
        0 <= i < j < journals.len(),
    ensures
        journal_list(journals).len() == journals.len(),
        !text_lt(journal_list(journals)[i].started_at, journal_list(journals)[j].started_at),
{
    let s = journals.map_values(|l: LoadedJournalView| journal_item(l.journal, l.path));
    let before = rank::<DeployJournalListItem>();
    law_pairs_are_ordered();
    let pairs = rank::<(String, String)>();
    assert(strict_weak(before)) by {
        assert forall|a: DeployJournalListItemView| !#[trigger] before(a, a) by {
            assert(!pairs((a.started_at, a.journal_id), (a.started_at, a.journal_id)));
        }
        assert forall|
            a: DeployJournalListItemView,
            b: DeployJournalListItemView,
            c: DeployJournalListItemView,
        | #[trigger] before(a, b) && #[trigger] before(b, c) implies before(a, c) by {
            let x = (a.started_at, a.journal_id);
            let y = (b.started_at, b.journal_id);
            let z = (c.started_at, c.journal_id);
            assert(pairs(y, x) && pairs(z, y));
            assert(pairs(z, x));
        }
        assert forall|
            a: DeployJournalListItemView,
            b: DeployJournalListItemView,
            c: DeployJournalListItemView,
        | !#[trigger] before(a, b) && !#[trigger] before(b, c) implies !before(a, c) by {
            let x = (a.started_at, a.journal_id);
            let y = (b.started_at, b.journal_id);
            let z = (c.started_at, c.journal_id);
            if before(a, c) {
                assert(pairs(z, x) && !pairs(y, x) && !pairs(z, y));
                assert(pairs(x, y) || pairs(y, x) || x == y);
                if pairs(x, y) {
                    assert(pairs(z, y));
                }
            }
        }
    }
    law_sorted_by(s, before);
    let sorted = sorted_by(s, before);
    assert(!before(sorted[j], sorted[i]));
}

/// A new journal is named after its plan and the moment, and such that it can be told from
/// other files.
pub proof fn law_new_journal_ids(plan_id: Seq<char>, moment: Seq<char>)
    ensures
        begins(new_journal_id(plan_id, moment), "deploy-"@),
        finishes(new_journal_id(plan_id, moment), "-"@ + moment),
{
    let head = "deploy-"@ + deploy_id_part(plan_id);
    let tail = deploy_id_part(plan_id) + "-"@ + moment;
    law_parts_are_found(Seq::empty(), "deploy-"@, tail);
    law_parts_are_found(head, "-"@ + moment, Seq::empty());
    assert(new_journal_id(plan_id, moment) =~= "deploy-"@ + tail);
    assert(new_journal_id(plan_id, moment) =~= head + ("-"@ + moment));
}

/// A journal is shown exactly where its id can name one, it is fit to be read, and it has
/// that id.
pub proof fn law_which_journals_are_shown(
    journal_id: Seq<char>,
    journal: DeployExecutionReportView,
)
    ensures
        inspection_refused(journal_id, journal) is None <==> journal_id_is_valid(journal_id)
            && journal_unfit(journal) is None && journal.journal_id == journal_id,
{
}

} // verus!
