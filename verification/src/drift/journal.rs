//! The journals of what was decided about drift.

use vstd::prelude::*;
use crate::drift::types::{
    DriftAdoptReport, DriftAdoptReportView, DriftAdoptReviewReport, DriftAdoptReviewReportView,
    DriftCleanupExecuteReport, DriftCleanupExecuteReportView, DriftCleanupFinalizeReport,
    DriftCleanupFinalizeReportView, DriftIgnoreReport, DriftIgnoreReportView,
};
use crate::evidence::files::done_seen;
use crate::list::put;
use crate::paths::{path_join, path_joined};
use crate::text::cat4;

verus! {

broadcast use {
    vstd::seq::group_seq_axioms,
    vstd::seq_lib::group_seq_properties,
    vstd::string::group_string_axioms,
};

/// What a report says of the limits after an entry was appended to a journal, or
/// could not be.
pub open spec fn journal_limits(
    limitations: Seq<Seq<char>>,
    what: Seq<char>,
    written: Result<(), Seq<char>>,
) -> Seq<Seq<char>> {
    match written {
        Ok(_) => limitations,
        Err(words) => limitations.push("failed to write "@ + what + ": "@ + words),
    }
}

/// Notes that an entry could not be appended to a journal.
pub fn note_journal(limitations: &mut Vec<String>, what: &str, written: &Result<(), String>)
    ensures
        final(limitations).deep_view() == journal_limits(
            old(limitations).deep_view(),
            what@,
            done_seen(*written),
        ),
{
    match written {
        Ok(_) => {},
        Err(words) => put(limitations, &cat4("failed to write ", what, ": ", words)),
    }
}

/// Where the adoptions are journaled.
pub fn adoption_journal(state_dir: &str) -> (r: String)
    ensures
        r@ == path_joined(state_dir@, "drift-adoptions.jsonl"@),
{
    path_join(state_dir, "drift-adoptions.jsonl")
}

/// The report of an adoption after its entry was appended to the journal, or could not be.
pub open spec fn journaled_adoption(
    report: DriftAdoptReportView,
    state_dir: Seq<char>,
    written: Result<(), Seq<char>>,
) -> DriftAdoptReportView {
    DriftAdoptReportView {
        limitations: journal_limits(report.limitations, "drift adoption journal"@, written),
        journal_path: Some(path_joined(state_dir, "drift-adoptions.jsonl"@)),
        journal_written: report.journal_written || written is Ok,
        ..report
    }
}

/// The report of an adoption after its entry was appended to the journal, or could not be.
pub fn record_adoption(report: DriftAdoptReport, state_dir: &str, written: &Result<(), String>) -> (r: DriftAdoptReport)
    ensures
        r.deep_view() == journaled_adoption(report.deep_view(), state_dir@, done_seen(*written)),
{
    let mut report = report;
    let mut limitations = report.limitations;
    note_journal(&mut limitations, "drift adoption journal", written);
    report.limitations = limitations;
    report.journal_path = Some(adoption_journal(state_dir));
    report.journal_written = report.journal_written || written.is_ok();
    report
}

/// Where the ignore rules are journaled.
pub fn ignore_journal(state_dir: &str) -> (r: String)
    ensures
        r@ == path_joined(state_dir@, "drift-ignores.jsonl"@),
{
    path_join(state_dir, "drift-ignores.jsonl")
}

/// The report of an ignore rule after its entry was appended to the journal, or could not be.
pub open spec fn journaled_ignore(
    report: DriftIgnoreReportView,
    state_dir: Seq<char>,
    written: Result<(), Seq<char>>,
) -> DriftIgnoreReportView {
    DriftIgnoreReportView {
        limitations: journal_limits(report.limitations, "drift ignore journal"@, written),
        journal_path: Some(path_joined(state_dir, "drift-ignores.jsonl"@)),
        journal_written: report.journal_written || written is Ok,
        ..report
    }
}

/// The report of an ignore rule after its entry was appended to the journal, or could not be.
pub fn record_ignore(report: DriftIgnoreReport, state_dir: &str, written: &Result<(), String>) -> (r: DriftIgnoreReport)
    ensures
        r.deep_view() == journaled_ignore(report.deep_view(), state_dir@, done_seen(*written)),
{
    let mut report = report;
    let mut limitations = report.limitations;
    note_journal(&mut limitations, "drift ignore journal", written);
    report.limitations = limitations;
    report.journal_path = Some(ignore_journal(state_dir));
    report.journal_written = report.journal_written || written.is_ok();
    report
}

/// Where the reviews of adoptions are journaled.
pub fn adopt_review_journal(state_dir: &str) -> (r: String)
    ensures
        r@ == path_joined(state_dir@, "drift-adopt-reviews.jsonl"@),
{
    path_join(state_dir, "drift-adopt-reviews.jsonl")
}

/// The report of the review of an adoption after its entry was appended to the journal, or could not be.
pub open spec fn journaled_adopt_review(
    report: DriftAdoptReviewReportView,
    state_dir: Seq<char>,
    written: Result<(), Seq<char>>,
) -> DriftAdoptReviewReportView {
    DriftAdoptReviewReportView {
        limitations: journal_limits(report.limitations, "drift adopt review journal"@, written),
        journal_path: Some(path_joined(state_dir, "drift-adopt-reviews.jsonl"@)),
        journal_written: report.journal_written || written is Ok,
        ..report
    }
}

/// The report of the review of an adoption after its entry was appended to the journal, or could not be.
pub fn record_adopt_review(report: DriftAdoptReviewReport, state_dir: &str, written: &Result<(), String>) -> (r: DriftAdoptReviewReport)
    ensures
        r.deep_view() == journaled_adopt_review(report.deep_view(), state_dir@, done_seen(*written)),
{
    let mut report = report;
    let mut limitations = report.limitations;
    note_journal(&mut limitations, "drift adopt review journal", written);
    report.limitations = limitations;
    report.journal_path = Some(adopt_review_journal(state_dir));
    report.journal_written = report.journal_written || written.is_ok();
    report
}

/// Where the ends of cleanups are journaled.
pub fn finalize_journal(state_dir: &str) -> (r: String)
    ensures
        r@ == path_joined(state_dir@, "drift-cleanup-finalize.jsonl"@),
{
    path_join(state_dir, "drift-cleanup-finalize.jsonl")
}

/// The report of how a cleanup ended after its entry was appended to the journal, or could not be.
pub open spec fn journaled_finalize(
    report: DriftCleanupFinalizeReportView,
    state_dir: Seq<char>,
    written: Result<(), Seq<char>>,
) -> DriftCleanupFinalizeReportView {
    DriftCleanupFinalizeReportView {
        limitations: journal_limits(report.limitations, "drift cleanup finalize journal"@, written),
        journal_path: Some(path_joined(state_dir, "drift-cleanup-finalize.jsonl"@)),
        journal_written: report.journal_written || written is Ok,
        ..report
    }
}

/// The report of how a cleanup ended after its entry was appended to the journal, or could not be.
pub fn record_finalize(report: DriftCleanupFinalizeReport, state_dir: &str, written: &Result<(), String>) -> (r: DriftCleanupFinalizeReport)
    ensures
        r.deep_view() == journaled_finalize(report.deep_view(), state_dir@, done_seen(*written)),
{
    let mut report = report;
    let mut limitations = report.limitations;
    note_journal(&mut limitations, "drift cleanup finalize journal", written);
    report.limitations = limitations;
    report.journal_path = Some(finalize_journal(state_dir));
    report.journal_written = report.journal_written || written.is_ok();
    report
}

/// Where the handoffs are journaled.
pub fn execution_journal(state_dir: &str) -> (r: String)
    ensures
        r@ == path_joined(state_dir@, "drift-cleanup-executions.jsonl"@),
{
    path_join(state_dir, "drift-cleanup-executions.jsonl")
}

/// The report of a handoff after its entry was appended to the journal, or could not be.
pub open spec fn journaled_execution(
    report: DriftCleanupExecuteReportView,
    state_dir: Seq<char>,
    written: Result<(), Seq<char>>,
) -> DriftCleanupExecuteReportView {
    DriftCleanupExecuteReportView {
        limitations: journal_limits(report.limitations, "drift cleanup execution journal"@, written),
        journal_path: Some(path_joined(state_dir, "drift-cleanup-executions.jsonl"@)),
        journal_written: report.journal_written || written is Ok,
        ..report
    }
}

/// The report of a handoff after its entry was appended to the journal, or could not be.
pub fn record_execution(report: DriftCleanupExecuteReport, state_dir: &str, written: &Result<(), String>) -> (r: DriftCleanupExecuteReport)
    ensures
        r.deep_view() == journaled_execution(report.deep_view(), state_dir@, done_seen(*written)),
{
    let mut report = report;
    let mut limitations = report.limitations;
    note_journal(&mut limitations, "drift cleanup execution journal", written);
    report.limitations = limitations;
    report.journal_path = Some(execution_journal(state_dir));
    report.journal_written = report.journal_written || written.is_ok();
    report
}

// ---------------------------------------------------------------------------
// Laws
// ---------------------------------------------------------------------------

/// A journal that cannot be written never goes unsaid: a report that claims no
/// entry names the reason among its limits, and one that claims an entry says
/// where it is.
pub proof fn law_lost_entries_are_reported(
    report: DriftAdoptReportView,
    state_dir: Seq<char>,
    written: Result<(), Seq<char>>,
)
    requires
        !report.journal_written,
    ensures
        ({
            let after = journaled_adoption(report, state_dir, written);
            &&& after.journal_path is Some
            &&& after.journal_written == (written is Ok)
            &&& !after.journal_written ==> after.limitations.last()
                == "failed to write drift adoption journal: "@ + written->Err_0
        }),
{
    reveal_strlit("failed to write ");
    reveal_strlit("drift adoption journal");
    reveal_strlit(": ");
    reveal_strlit("failed to write drift adoption journal: ");
    assert("failed to write "@ + "drift adoption journal"@ + ": "@
        =~= "failed to write drift adoption journal: "@);
}

/// A report that was to be recorded says where, and that it was recorded exactly where the
/// entry was written; a failure is added to what stands against it, and nothing else
/// changes.
pub proof fn law_what_recording_adds(
    ignored: DriftIgnoreReportView,
    review: DriftAdoptReviewReportView,
    finalized: DriftCleanupFinalizeReportView,
    executed: DriftCleanupExecuteReportView,
    adopted: DriftAdoptReportView,
    state_dir: Seq<char>,
    written: Result<(), Seq<char>>,
)
    ensures
        ({
            let r = journaled_ignore(ignored, state_dir, written);
            &&& r.journal_written <==> ignored.journal_written || written is Ok
            &&& r.journal_path == Some(path_joined(state_dir, "drift-ignores.jsonl"@))
            &&& written is Ok ==> r.limitations == ignored.limitations
            &&& written is Err ==> r.limitations == ignored.limitations.push(
                "failed to write drift ignore journal: "@ + written->Err_0,
            )
            &&& r.ok == ignored.ok && r.status == ignored.status
        }),
        ({
            let r = journaled_adopt_review(review, state_dir, written);
            &&& r.journal_written <==> review.journal_written || written is Ok
            &&& r.journal_path == Some(path_joined(state_dir, "drift-adopt-reviews.jsonl"@))
            &&& written is Ok ==> r.limitations == review.limitations
            &&& written is Err ==> r.limitations == review.limitations.push(
                "failed to write drift adopt review journal: "@ + written->Err_0,
            )
            &&& r.ok == review.ok && r.status == review.status
        }),
        ({
            let r = journaled_finalize(finalized, state_dir, written);
            &&& r.journal_written <==> finalized.journal_written || written is Ok
            &&& r.journal_path == Some(path_joined(state_dir, "drift-cleanup-finalize.jsonl"@))
            &&& written is Ok ==> r.limitations == finalized.limitations
            &&& written is Err ==> r.limitations == finalized.limitations.push(
                "failed to write drift cleanup finalize journal: "@ + written->Err_0,
            )
            &&& r.ok == finalized.ok && r.status == finalized.status
        }),
        ({
            let r = journaled_execution(executed, state_dir, written);
            &&& r.journal_written <==> executed.journal_written || written is Ok
            &&& r.journal_path == Some(path_joined(state_dir, "drift-cleanup-executions.jsonl"@))
            &&& written is Ok ==> r.limitations == executed.limitations
            &&& written is Err ==> r.limitations == executed.limitations.push(
                "failed to write drift cleanup execution journal: "@ + written->Err_0,
            )
            &&& r.ok == executed.ok && r.status == executed.status
        }),
        ({
            let r = journaled_adoption(adopted, state_dir, written);
            &&& r.journal_written <==> adopted.journal_written || written is Ok
            &&& r.journal_path == Some(path_joined(state_dir, "drift-adoptions.jsonl"@))
            &&& written is Ok ==> r.limitations == adopted.limitations
            &&& r.ok == adopted.ok && r.status == adopted.status
        }),
{
    reveal_strlit("failed to write ");
    reveal_strlit(": ");
    reveal_strlit("drift ignore journal");
    reveal_strlit("failed to write drift ignore journal: ");
    reveal_strlit("drift adopt review journal");
    reveal_strlit("failed to write drift adopt review journal: ");
    reveal_strlit("drift cleanup finalize journal");
    reveal_strlit("failed to write drift cleanup finalize journal: ");
    reveal_strlit("drift cleanup execution journal");
    reveal_strlit("failed to write drift cleanup execution journal: ");
    assert("failed to write "@ + "drift ignore journal"@ + ": "@
        =~= "failed to write drift ignore journal: "@);
    assert("failed to write "@ + "drift adopt review journal"@ + ": "@
        =~= "failed to write drift adopt review journal: "@);
    assert("failed to write "@ + "drift cleanup finalize journal"@ + ": "@
        =~= "failed to write drift cleanup finalize journal: "@);
    assert("failed to write "@ + "drift cleanup execution journal"@ + ": "@
        =~= "failed to write drift cleanup execution journal: "@);
}

} // verus!
