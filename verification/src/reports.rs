//! What a finished deletion or cleaning run amounts to: how many of its outcomes went which
//! way, the one-line summary of the progress modal, and the space it gave back.

use vstd::prelude::*;

use crate::commands::{status_is, Session};
use crate::dialogs::{ConfirmDialog, Confirmation, MessageDialog, Overlay, PendingAction, Severity};
use crate::formatting::{decimal, decimal_string};
use crate::model::{
    ByteSize, CandidateId, CleaningOutcome, CleaningReport, CleaningStatus, DeletionItem,
    DeletionOutcome, DeletionReport, DeletionStatus,
};
use crate::text::texts_of;

verus! {

/// How one item of a run went.
#[derive(Clone, Copy, Debug, PartialEq, Eq, Structural)]
pub enum OutcomeKind {
    /// Removed, moved to the Trash, or cleaned.
    Succeeded,
    /// Left for a run with administrator privileges.
    NeedsPrivileges,
    Failed,
    Cancelled,
    /// Passed over by the cleaner.
    Skipped,
}

/// How a deletion item went: a refusal counts as a failure.
pub open spec fn deletion_kind(status: DeletionStatus) -> OutcomeKind {
    match status {
        DeletionStatus::Removed | DeletionStatus::MovedToTrash => OutcomeKind::Succeeded,
        DeletionStatus::NeedsPrivileges => OutcomeKind::NeedsPrivileges,
        DeletionStatus::Cancelled => OutcomeKind::Cancelled,
        DeletionStatus::Refused(_) | DeletionStatus::Failed(_) => OutcomeKind::Failed,
    }
}

/// How a cleaning target went.
pub open spec fn cleaning_kind(status: CleaningStatus) -> OutcomeKind {
    match status {
        CleaningStatus::Cleaned => OutcomeKind::Succeeded,
        CleaningStatus::NeedsPrivileges => OutcomeKind::NeedsPrivileges,
        CleaningStatus::Cancelled => OutcomeKind::Cancelled,
        CleaningStatus::Skipped(_) => OutcomeKind::Skipped,
        CleaningStatus::Failed(_) => OutcomeKind::Failed,
    }
}

/// How each item of a deletion run went, in order.
pub open spec fn deletion_kinds(outcomes: Seq<DeletionOutcome>) -> Seq<OutcomeKind> {
    outcomes.map_values(|outcome: DeletionOutcome| deletion_kind(outcome.status))
}

/// How each target of a cleaning run went, in order.
pub open spec fn cleaning_kinds(outcomes: Seq<CleaningOutcome>) -> Seq<OutcomeKind> {
    outcomes.map_values(|outcome: CleaningOutcome| cleaning_kind(outcome.status))
}

/// How many of `kinds` are `kind`.
pub open spec fn count_kind(kinds: Seq<OutcomeKind>, kind: OutcomeKind) -> nat
    decreases kinds.len(),
{
    if kinds.len() == 0 {
        0
    } else {
        count_kind(kinds.drop_last(), kind) + if kinds.last() == kind {
            1nat
        } else {
            0nat
        }
    }
}

/// How a deletion item went.
pub fn deletion_kind_of(status: &DeletionStatus) -> (kind: OutcomeKind)
    ensures
        kind == deletion_kind(*status),
{
    match status {
        DeletionStatus::Removed | DeletionStatus::MovedToTrash => OutcomeKind::Succeeded,
        DeletionStatus::NeedsPrivileges => OutcomeKind::NeedsPrivileges,
        DeletionStatus::Cancelled => OutcomeKind::Cancelled,
        DeletionStatus::Refused(_) | DeletionStatus::Failed(_) => OutcomeKind::Failed,
    }
}

/// How a cleaning target went.
pub fn cleaning_kind_of(status: &CleaningStatus) -> (kind: OutcomeKind)
    ensures
        kind == cleaning_kind(*status),
{
    match status {
        CleaningStatus::Cleaned => OutcomeKind::Succeeded,
        CleaningStatus::NeedsPrivileges => OutcomeKind::NeedsPrivileges,
        CleaningStatus::Cancelled => OutcomeKind::Cancelled,
        CleaningStatus::Skipped(_) => OutcomeKind::Skipped,
        CleaningStatus::Failed(_) => OutcomeKind::Failed,
    }
}

/// How each item of a deletion run went.
pub fn deletion_kinds_of(outcomes: &[DeletionOutcome]) -> (kinds: Vec<OutcomeKind>)
    ensures
        kinds@ == deletion_kinds(outcomes@),
{
    let mut kinds: Vec<OutcomeKind> = Vec::new();
    let mut i: usize = 0;
    while i < outcomes.len()
        invariant
            0 <= i <= outcomes@.len(),
            kinds@ == deletion_kinds(outcomes@.take(i as int)),
        decreases outcomes@.len() - i,
    {
        kinds.push(deletion_kind_of(&outcomes[i].status));
        assert(kinds@ =~= deletion_kinds(outcomes@.take(i + 1)));
        i += 1;
    }
    assert(outcomes@.take(outcomes@.len() as int) =~= outcomes@);
    kinds
}

/// How each target of a cleaning run went.
pub fn cleaning_kinds_of(outcomes: &[CleaningOutcome]) -> (kinds: Vec<OutcomeKind>)
    ensures
        kinds@ == cleaning_kinds(outcomes@),
{
    let mut kinds: Vec<OutcomeKind> = Vec::new();
    let mut i: usize = 0;
    while i < outcomes.len()
        invariant
            0 <= i <= outcomes@.len(),
            kinds@ == cleaning_kinds(outcomes@.take(i as int)),
        decreases outcomes@.len() - i,
    {
        kinds.push(cleaning_kind_of(&outcomes[i].status));
        assert(kinds@ =~= cleaning_kinds(outcomes@.take(i + 1)));
        i += 1;
    }
    assert(outcomes@.take(outcomes@.len() as int) =~= outcomes@);
    kinds
}

/// How many of `kinds` are `kind`.
pub fn count_of(kinds: &[OutcomeKind], kind: OutcomeKind) -> (count: usize)
    ensures
        count == count_kind(kinds@, kind),
{
    let mut count: usize = 0;
    let mut i: usize = 0;
    while i < kinds.len()
        invariant
            0 <= i <= kinds@.len(),
            count == count_kind(kinds@.take(i as int), kind),
            count <= i,
        decreases kinds@.len() - i,
    {
        assert(kinds@.take(i + 1).drop_last() =~= kinds@.take(i as int));
        if kinds[i] == kind {
            count += 1;
        }
        i += 1;
    }
    assert(kinds@.take(kinds@.len() as int) =~= kinds@);
    count
}

/// ` · ` and `count` followed by `words`, when there are any.
pub open spec fn summary_part(count: nat, words: Seq<char>) -> Seq<char> {
    if count > 0 {
        " \u{b7} "@ + decimal(count) + words
    } else {
        Seq::empty()
    }
}

/// The summary line of a finished run: how many items went through (`done` names how),
/// then, where there are any, how many need administrator privileges, failed, or were
/// cancelled.
pub open spec fn run_summary(kinds: Seq<OutcomeKind>, done: Seq<char>) -> Seq<char> {
    decimal(count_kind(kinds, OutcomeKind::Succeeded)) + done + summary_part(
        count_kind(kinds, OutcomeKind::NeedsPrivileges),
        " need sudo (asked next)"@,
    ) + summary_part(count_kind(kinds, OutcomeKind::Failed), " failed"@) + summary_part(
        count_kind(kinds, OutcomeKind::Cancelled),
        " cancelled"@,
    )
}

/// How each status counts: an item removed or moved to the Trash (or a target cleaned) went
/// through; one that needs administrator privileges is left for that; a cancelled one is
/// cancelled; a refused or failed one failed; a skipped target is skipped.
pub proof fn lemma_outcome_kinds(reason: String)
    ensures
        deletion_kind(DeletionStatus::Removed) == OutcomeKind::Succeeded,
        deletion_kind(DeletionStatus::MovedToTrash) == OutcomeKind::Succeeded,
        deletion_kind(DeletionStatus::NeedsPrivileges) == OutcomeKind::NeedsPrivileges,
        deletion_kind(DeletionStatus::Cancelled) == OutcomeKind::Cancelled,
        deletion_kind(DeletionStatus::Refused(reason)) == OutcomeKind::Failed,
        deletion_kind(DeletionStatus::Failed(reason)) == OutcomeKind::Failed,
        cleaning_kind(CleaningStatus::Cleaned) == OutcomeKind::Succeeded,
        cleaning_kind(CleaningStatus::NeedsPrivileges) == OutcomeKind::NeedsPrivileges,
        cleaning_kind(CleaningStatus::Cancelled) == OutcomeKind::Cancelled,
        cleaning_kind(CleaningStatus::Skipped(reason)) == OutcomeKind::Skipped,
        cleaning_kind(CleaningStatus::Failed(reason)) == OutcomeKind::Failed,
{
}

proof fn lemma_count_all_one_kind(kinds: Seq<OutcomeKind>, kind: OutcomeKind, other: OutcomeKind)
    requires
        forall|i: int| 0 <= i < kinds.len() ==> kinds[i] == kind,
        other != kind,
    ensures
        count_kind(kinds, kind) == kinds.len(),
        count_kind(kinds, other) == 0,
    decreases kinds.len(),
{
    if kinds.len() > 0 {
        lemma_count_all_one_kind(kinds.drop_last(), kind, other);
    }
}

/// A run in which every item went through is summed up by its count and how they went,
/// with nothing else: no sudo, failure or cancellation part.
pub proof fn lemma_clean_run_summary(kinds: Seq<OutcomeKind>, done: Seq<char>)
    requires
        forall|i: int| 0 <= i < kinds.len() ==> kinds[i] == OutcomeKind::Succeeded,
    ensures
        run_summary(kinds, done) == decimal(kinds.len()) + done,
{
    lemma_count_all_one_kind(kinds, OutcomeKind::Succeeded, OutcomeKind::NeedsPrivileges);
    lemma_count_all_one_kind(kinds, OutcomeKind::Succeeded, OutcomeKind::Failed);
    lemma_count_all_one_kind(kinds, OutcomeKind::Succeeded, OutcomeKind::Cancelled);
    assert(run_summary(kinds, done) =~= decimal(kinds.len()) + done);
}

/// A run in which every item failed says that none went through, then how many failed.
pub proof fn lemma_failed_run_summary(kinds: Seq<OutcomeKind>, done: Seq<char>)
    requires
        kinds.len() > 0,
        forall|i: int| 0 <= i < kinds.len() ==> kinds[i] == OutcomeKind::Failed,
    ensures
        run_summary(kinds, done) == decimal(0) + done + " \u{b7} "@ + decimal(kinds.len())
            + " failed"@,
{
    lemma_count_all_one_kind(kinds, OutcomeKind::Failed, OutcomeKind::Succeeded);
    lemma_count_all_one_kind(kinds, OutcomeKind::Failed, OutcomeKind::NeedsPrivileges);
    lemma_count_all_one_kind(kinds, OutcomeKind::Failed, OutcomeKind::Cancelled);
    assert(run_summary(kinds, done) =~= decimal(0) + done + " \u{b7} "@ + decimal(kinds.len())
        + " failed"@);
}

fn append_part(text: &mut String, count: usize, words: &str)
    ensures
        final(text)@ == old(text)@ + summary_part(count as nat, words@),
{
    if count > 0 {
        text.append(" \u{b7} ");
        text.append(decimal_string(count as u64).as_str());
        text.append(words);
    }
    proof {
        reveal_strlit("");
    }
    assert(final(text)@ =~= old(text)@ + summary_part(count as nat, words@));
}

fn summary_of(kinds: &[OutcomeKind], done: &str) -> (summary: String)
    ensures
        summary@ == run_summary(kinds@, done@),
{
    let mut summary = decimal_string(count_of(kinds, OutcomeKind::Succeeded) as u64);
    summary.append(done);
    append_part(&mut summary, count_of(kinds, OutcomeKind::NeedsPrivileges), " need sudo (asked next)");
    append_part(&mut summary, count_of(kinds, OutcomeKind::Failed), " failed");
    append_part(&mut summary, count_of(kinds, OutcomeKind::Cancelled), " cancelled");
    summary
}

/// The summary line of a finished deletion.
pub fn deletion_summary(report: &DeletionReport) -> (summary: String)
    ensures
        summary@ == run_summary(deletion_kinds(report.outcomes@), " removed"@),
{
    let kinds = deletion_kinds_of(report.outcomes.as_slice());
    summary_of(kinds.as_slice(), " removed")
}

/// The summary line of a finished cleaning run.
pub fn cleaning_summary(report: &CleaningReport) -> (summary: String)
    ensures
        summary@ == run_summary(cleaning_kinds(report.outcomes@), " cleaned"@),
{
    let kinds = cleaning_kinds_of(report.outcomes.as_slice());
    summary_of(kinds.as_slice(), " cleaned")
}

/// `total` held at `u64::MAX`.
pub open spec fn held(total: nat) -> u64 {
    if total > u64::MAX {
        u64::MAX
    } else {
        total as u64
    }
}

/// The bytes a deletion run gave back, over every outcome.
pub open spec fn reclaimed_sum(outcomes: Seq<DeletionOutcome>) -> nat
    decreases outcomes.len(),
{
    if outcomes.len() == 0 {
        0
    } else {
        reclaimed_sum(outcomes.drop_last()) + outcomes.last().reclaimed.0 as nat
    }
}

/// The bytes of `items` together.
pub open spec fn size_sum(items: Seq<DeletionItem>) -> nat
    decreases items.len(),
{
    if items.len() == 0 {
        0
    } else {
        size_sum(items.drop_last()) + items.last().size.0 as nat
    }
}

/// The bytes a deletion run gave back, held at `u64::MAX`.
pub fn reclaimed_total(report: &DeletionReport) -> (total: ByteSize)
    ensures
        total.0 == held(reclaimed_sum(report.outcomes@)),
{
    let mut total = ByteSize(0);
    let mut i: usize = 0;
    while i < report.outcomes.len()
        invariant
            0 <= i <= report.outcomes@.len(),
            total.0 == held(reclaimed_sum(report.outcomes@.take(i as int))),
        decreases report.outcomes@.len() - i,
    {
        assert(report.outcomes@.take(i + 1).drop_last() =~= report.outcomes@.take(i as int));
        total = total.saturating_add(report.outcomes[i].reclaimed);
        i += 1;
    }
    assert(report.outcomes@.take(report.outcomes@.len() as int) =~= report.outcomes@);
    total
}

/// The bytes of `items` together, held at `u64::MAX`.
pub fn size_total(items: &[DeletionItem]) -> (total: ByteSize)
    ensures
        total.0 == held(size_sum(items@)),
{
    let mut total = ByteSize(0);
    let mut i: usize = 0;
    while i < items.len()
        invariant
            0 <= i <= items@.len(),
            total.0 == held(size_sum(items@.take(i as int))),
        decreases items@.len() - i,
    {
        assert(items@.take(i + 1).drop_last() =~= items@.take(i as int));
        total = total.saturating_add(items[i].size);
        i += 1;
    }
    assert(items@.take(items@.len() as int) =~= items@);
    total
}

// ---------------------------------------------------------------------------------------
// What follows a finished run
// ---------------------------------------------------------------------------------------

/// The deletion outcomes that failed (or were refused), in order.
pub open spec fn failures_of(outcomes: Seq<DeletionOutcome>) -> Seq<DeletionOutcome>
    decreases outcomes.len(),
{
    if outcomes.len() == 0 {
        Seq::empty()
    } else {
        let rest = failures_of(outcomes.drop_last());
        if deletion_kind(outcomes.last().status) == OutcomeKind::Failed {
            rest.push(outcomes.last())
        } else {
            rest
        }
    }
}

/// The deletion items left for a run with administrator privileges, in order.
pub open spec fn needing_of(outcomes: Seq<DeletionOutcome>) -> Seq<DeletionItem>
    decreases outcomes.len(),
{
    if outcomes.len() == 0 {
        Seq::empty()
    } else {
        let rest = needing_of(outcomes.drop_last());
        if deletion_kind(outcomes.last().status) == OutcomeKind::NeedsPrivileges {
            rest.push(outcomes.last().item)
        } else {
            rest
        }
    }
}

/// The cleaning outcomes that failed, in order.
pub open spec fn cleaning_failures_of(outcomes: Seq<CleaningOutcome>) -> Seq<CleaningOutcome>
    decreases outcomes.len(),
{
    if outcomes.len() == 0 {
        Seq::empty()
    } else {
        let rest = cleaning_failures_of(outcomes.drop_last());
        if cleaning_kind(outcomes.last().status) == OutcomeKind::Failed {
            rest.push(outcomes.last())
        } else {
            rest
        }
    }
}

/// The cleaning targets left for a run with administrator privileges, in order.
pub open spec fn cleaning_needing_of(outcomes: Seq<CleaningOutcome>) -> Seq<CandidateId>
    decreases outcomes.len(),
{
    if outcomes.len() == 0 {
        Seq::empty()
    } else {
        let rest = cleaning_needing_of(outcomes.drop_last());
        if cleaning_kind(outcomes.last().status) == OutcomeKind::NeedsPrivileges {
            rest.push(outcomes.last().candidate)
        } else {
            rest
        }
    }
}

/// The deletion outcomes that failed, in order.
pub fn failures(report: &DeletionReport) -> (found: Vec<DeletionOutcome>)
    ensures
        found@ == failures_of(report.outcomes@),
{
    let outcomes = report.outcomes.as_slice();
    let mut found: Vec<DeletionOutcome> = Vec::new();
    let mut i: usize = 0;
    while i < outcomes.len()
        invariant
            0 <= i <= outcomes@.len(),
            outcomes@ == report.outcomes@,
            found@ == failures_of(outcomes@.take(i as int)),
        decreases outcomes@.len() - i,
    {
        assert(outcomes@.take(i + 1).drop_last() =~= outcomes@.take(i as int));
        if deletion_kind_of(&outcomes[i].status) == OutcomeKind::Failed {
            found.push(outcomes[i].duplicate());
        }
        i += 1;
    }
    assert(outcomes@.take(outcomes@.len() as int) =~= outcomes@);
    found
}

/// The deletion items left for a run with administrator privileges, in order.
pub fn needing_privileges(report: &DeletionReport) -> (found: Vec<DeletionItem>)
    ensures
        found@ == needing_of(report.outcomes@),
{
    let outcomes = report.outcomes.as_slice();
    let mut found: Vec<DeletionItem> = Vec::new();
    let mut i: usize = 0;
    while i < outcomes.len()
        invariant
            0 <= i <= outcomes@.len(),
            outcomes@ == report.outcomes@,
            found@ == needing_of(outcomes@.take(i as int)),
        decreases outcomes@.len() - i,
    {
        assert(outcomes@.take(i + 1).drop_last() =~= outcomes@.take(i as int));
        if deletion_kind_of(&outcomes[i].status) == OutcomeKind::NeedsPrivileges {
            found.push(outcomes[i].item.duplicate());
        }
        i += 1;
    }
    assert(outcomes@.take(outcomes@.len() as int) =~= outcomes@);
    found
}

/// The cleaning outcomes that failed, in order.
pub fn cleaning_failures(report: &CleaningReport) -> (found: Vec<CleaningOutcome>)
    ensures
        found@ == cleaning_failures_of(report.outcomes@),
{
    let outcomes = report.outcomes.as_slice();
    let mut found: Vec<CleaningOutcome> = Vec::new();
    let mut i: usize = 0;
    while i < outcomes.len()
        invariant
            0 <= i <= outcomes@.len(),
            outcomes@ == report.outcomes@,
            found@ == cleaning_failures_of(outcomes@.take(i as int)),
        decreases outcomes@.len() - i,
    {
        assert(outcomes@.take(i + 1).drop_last() =~= outcomes@.take(i as int));
        if cleaning_kind_of(&outcomes[i].status) == OutcomeKind::Failed {
            found.push(outcomes[i].duplicate());
        }
        i += 1;
    }
    assert(outcomes@.take(outcomes@.len() as int) =~= outcomes@);
    found
}

/// The cleaning targets left for a run with administrator privileges, in order.
pub fn cleaning_needing_privileges(report: &CleaningReport) -> (found: Vec<CandidateId>)
    ensures
        found@ == cleaning_needing_of(report.outcomes@),
{
    let outcomes = report.outcomes.as_slice();
    let mut found: Vec<CandidateId> = Vec::new();
    let mut i: usize = 0;
    while i < outcomes.len()
        invariant
            0 <= i <= outcomes@.len(),
            outcomes@ == report.outcomes@,
            found@ == cleaning_needing_of(outcomes@.take(i as int)),
        decreases outcomes@.len() - i,
    {
        assert(outcomes@.take(i + 1).drop_last() =~= outcomes@.take(i as int));
        if cleaning_kind_of(&outcomes[i].status) == OutcomeKind::NeedsPrivileges {
            found.push(outcomes[i].candidate);
        }
        i += 1;
    }
    assert(outcomes@.take(outcomes@.len() as int) =~= outcomes@);
    found
}

/// `count`, at most `cap`.
pub open spec fn capped(count: int, cap: int) -> int {
    if count > cap {
        cap
    } else {
        count
    }
}

/// Why a deletion item failed.
pub open spec fn failure_reason(status: DeletionStatus) -> Seq<char> {
    match status {
        DeletionStatus::Refused(reason) | DeletionStatus::Failed(reason) => reason@,
        _ => Seq::empty(),
    }
}

/// The line of a failed deletion item: its path and why.
pub open spec fn failure_line(outcome: DeletionOutcome) -> Seq<char> {
    outcome.item.path@ + ": "@ + failure_reason(outcome.status)
}

/// The lines of the first `n` failures.
pub open spec fn failure_lines(failures: Seq<DeletionOutcome>, n: nat) -> Seq<Seq<char>> {
    Seq::new(n, |i: int| failure_line(failures[i]))
}

/// Whether `dialog` lists the deletion `failures`: how many, then the first fifteen.
pub open spec fn is_failure_report(dialog: MessageDialog, failures: Seq<DeletionOutcome>) -> bool {
    &&& dialog.title@ == decimal(failures.len()) + " items could not be deleted"@
    &&& texts_of(dialog.lines@) == failure_lines(failures, capped(failures.len() as int, 15) as nat)
    &&& dialog.severity == Severity::Error
}

/// The line of a failed cleaning target: its label and what went wrong.
pub open spec fn cleaning_failure_line(outcome: CleaningOutcome) -> Seq<char> {
    outcome.label@ + ": "@ + outcome.detail@
}

/// The lines of the first `n` failed cleaning targets.
pub open spec fn cleaning_failure_lines(failures: Seq<CleaningOutcome>, n: nat) -> Seq<Seq<char>> {
    Seq::new(n, |i: int| cleaning_failure_line(failures[i]))
}

/// Whether `dialog` lists the failed cleaning targets: how many, then the first fifteen.
pub open spec fn is_cleaning_failure_report(
    dialog: MessageDialog,
    failures: Seq<CleaningOutcome>,
) -> bool {
    &&& dialog.title@ == decimal(failures.len()) + " items failed"@
    &&& texts_of(dialog.lines@) == cleaning_failure_lines(
        failures,
        capped(failures.len() as int, 15) as nat,
    )
    &&& dialog.severity == Severity::Error
}

/// How to run the privileged part: `escalator` names the command.
pub open spec fn escalation_hint(escalator: Seq<char>) -> Seq<char> {
    "Press y to run "@ + escalator
        + " in the terminal (you will be asked for your password), n to skip."@
}

/// The paths of the first `n` items.
pub open spec fn item_paths(items: Seq<DeletionItem>, n: nat) -> Seq<Seq<char>> {
    Seq::new(n, |i: int| items[i].path@)
}

/// The lines of the question before deleting `needing` with administrator privileges: the
/// first ten paths, a count of the others, how many and how much (`total`), and how to run
/// it.
pub open spec fn privileged_deletion_lines(
    needing: Seq<DeletionItem>,
    total: Seq<char>,
    escalator: Seq<char>,
) -> Seq<Seq<char>> {
    let n = needing.len() as int;
    item_paths(needing, capped(n, 10) as nat) + (if n > 10 {
        seq!["\u{2026} and "@ + decimal((n - 10) as nat) + " more"@]
    } else {
        Seq::empty()
    }) + seq![
        Seq::empty(),
        decimal(n as nat) + " items ("@ + total + ") need administrator privileges."@,
        escalation_hint(escalator),
    ]
}

/// Whether `dialog` asks to delete `needing` with administrator privileges.
pub open spec fn is_privileged_deletion_question(
    dialog: ConfirmDialog,
    needing: Seq<DeletionItem>,
    total: Seq<char>,
    escalator: Seq<char>,
) -> bool {
    &&& dialog.title@ == "Administrator privileges required"@
    &&& texts_of(dialog.lines@) == privileged_deletion_lines(needing, total, escalator)
    &&& dialog.confirmation == Confirmation::YesKey
    &&& dialog.action matches PendingAction::ElevateDelete(items) && items@ == needing
    &&& dialog.dangerous
}

/// Paths whose contents are cleaned, written as `path/*`.
pub open spec fn starred(paths: Seq<String>) -> Seq<Seq<char>> {
    paths.map_values(|path: String| path@ + "/*"@)
}

/// The lines of the question before cleaning with administrator privileges: the first ten
/// of the paths removed whole and the paths whose contents are removed, and how to run it.
pub open spec fn privileged_cleaning_lines(
    whole: Seq<String>,
    contents: Seq<String>,
    escalator: Seq<char>,
) -> Seq<Seq<char>> {
    let all = texts_of(whole) + starred(contents);
    all.take(capped(all.len() as int, 10)) + seq![Seq::empty(), escalation_hint(escalator)]
}

/// Whether `dialog` asks to clean `candidates` with administrator privileges.
pub open spec fn is_privileged_cleaning_question(
    dialog: ConfirmDialog,
    whole: Seq<String>,
    contents: Seq<String>,
    candidates: Seq<CandidateId>,
    escalator: Seq<char>,
) -> bool {
    &&& dialog.title@ == "Administrator privileges required"@
    &&& texts_of(dialog.lines@) == privileged_cleaning_lines(whole, contents, escalator)
    &&& dialog.confirmation == Confirmation::YesKey
    &&& dialog.action matches PendingAction::ElevateClean { whole: w, contents: c, candidates: ids }
        && w@ == whole && c@ == contents && ids@ == candidates
    &&& dialog.dangerous
}

/// The dialog listing the deletion `failures`.
pub fn failure_report(failures: &[DeletionOutcome]) -> (dialog: MessageDialog)
    ensures
        is_failure_report(dialog, failures@),
{
    let shown: usize = if failures.len() > 15 {
        15
    } else {
        failures.len()
    };
    let mut lines: Vec<String> = Vec::new();
    let mut i: usize = 0;
    while i < shown
        invariant
            shown == capped(failures@.len() as int, 15),
            0 <= i <= shown,
            lines@.len() == i,
            texts_of(lines@) == failure_lines(failures@, i as nat),
        decreases shown - i,
    {
        let outcome = &failures[i];
        let mut line = outcome.item.path.clone();
        line.append(": ");
        match &outcome.status {
            DeletionStatus::Refused(reason) | DeletionStatus::Failed(reason) => {
                line.append(reason.as_str())
            },
            _ => {},
        }
        proof {
            reveal_strlit("");
        }
        assert(line@ =~= failure_line(failures@[i as int]));
        let ghost earlier = lines@;
        lines.push(line);
        assert(texts_of(lines@) =~= failure_lines(failures@, (i + 1) as nat)) by {
            assert forall|k: int| 0 <= k <= i implies #[trigger] texts_of(lines@)[k]
                == failure_lines(failures@, (i + 1) as nat)[k] by {
                if k < i {
                    assert(lines@[k] == earlier[k]);
                    assert(texts_of(earlier)[k] == failure_lines(failures@, i as nat)[k]);
                }
            }
        }
        i += 1;
    }
    let mut title = decimal_string(failures.len() as u64);
    title.append(" items could not be deleted");
    MessageDialog { title, lines, severity: Severity::Error }
}

/// The dialog listing the failed cleaning targets.
pub fn cleaning_failure_report(failures: &[CleaningOutcome]) -> (dialog: MessageDialog)
    ensures
        is_cleaning_failure_report(dialog, failures@),
{
    let shown: usize = if failures.len() > 15 {
        15
    } else {
        failures.len()
    };
    let mut lines: Vec<String> = Vec::new();
    let mut i: usize = 0;
    while i < shown
        invariant
            shown == capped(failures@.len() as int, 15),
            0 <= i <= shown,
            lines@.len() == i,
            texts_of(lines@) == cleaning_failure_lines(failures@, i as nat),
        decreases shown - i,
    {
        let outcome = &failures[i];
        let mut line = outcome.label.clone();
        line.append(": ");
        line.append(outcome.detail.as_str());
        assert(line@ =~= cleaning_failure_line(failures@[i as int]));
        let ghost earlier = lines@;
        lines.push(line);
        assert(texts_of(lines@) =~= cleaning_failure_lines(failures@, (i + 1) as nat)) by {
            assert forall|k: int| 0 <= k <= i implies #[trigger] texts_of(lines@)[k]
                == cleaning_failure_lines(failures@, (i + 1) as nat)[k] by {
                if k < i {
                    assert(lines@[k] == earlier[k]);
                    assert(texts_of(earlier)[k] == cleaning_failure_lines(failures@, i as nat)[k]);
                }
            }
        }
        i += 1;
    }
    let mut title = decimal_string(failures.len() as u64);
    title.append(" items failed");
    MessageDialog { title, lines, severity: Severity::Error }
}

fn escalation_line(escalator: &str) -> (line: String)
    ensures
        line@ == escalation_hint(escalator@),
{
    let mut line = String::from_str("Press y to run ");
    line.append(escalator);
    line.append(" in the terminal (you will be asked for your password), n to skip.");
    line
}

/// The question before deleting `needing` with administrator privileges; `total_text` is
/// their size together and `escalator` the command that gains the privileges.
pub fn privileged_deletion_question(
    needing: Vec<DeletionItem>,
    total_text: &str,
    escalator: &str,
) -> (dialog: ConfirmDialog)
    ensures
        is_privileged_deletion_question(dialog, needing@, total_text@, escalator@),
{
    let count = needing.len();
    let shown: usize = if count > 10 {
        10
    } else {
        count
    };
    let mut lines: Vec<String> = Vec::new();
    let mut i: usize = 0;
    while i < shown
        invariant
            shown == capped(count as int, 10),
            count == needing@.len(),
            0 <= i <= shown,
            lines@.len() == i,
            texts_of(lines@) == item_paths(needing@, i as nat),
        decreases shown - i,
    {
        let line = needing[i].path.clone();
        let ghost earlier = lines@;
        lines.push(line);
        assert(texts_of(lines@) =~= item_paths(needing@, (i + 1) as nat)) by {
            assert forall|k: int| 0 <= k <= i implies #[trigger] texts_of(lines@)[k]
                == item_paths(needing@, (i + 1) as nat)[k] by {
                if k < i {
                    assert(lines@[k] == earlier[k]);
                    assert(texts_of(earlier)[k] == item_paths(needing@, i as nat)[k]);
                }
            }
        }
        i += 1;
    }
    let ghost listed = texts_of(lines@);
    if count > 10 {
        let mut more = String::from_str("\u{2026} and ");
        more.append(decimal_string((count - 10) as u64).as_str());
        more.append(" more");
        lines.push(more);
    }
    let ghost counted = texts_of(lines@);
    lines.push(String::new());
    let mut summary = decimal_string(count as u64);
    summary.append(" items (");
    summary.append(total_text);
    summary.append(") need administrator privileges.");
    lines.push(summary);
    lines.push(escalation_line(escalator));
    proof {
        reveal_strlit("");
        assert(counted =~= listed + (if count > 10 {
            seq!["\u{2026} and "@ + decimal((count - 10) as nat) + " more"@]
        } else {
            Seq::empty()
        }));
        assert(texts_of(lines@) =~= privileged_deletion_lines(needing@, total_text@, escalator@));
    }
    ConfirmDialog {
        title: String::from_str("Administrator privileges required"),
        lines,
        confirmation: Confirmation::YesKey,
        action: PendingAction::ElevateDelete(needing),
        dangerous: true,
    }
}

/// The question before cleaning `candidates` with administrator privileges: `whole` are
/// the paths removed entirely, `contents` those whose contents are removed, and `escalator`
/// the command that gains the privileges.
pub fn privileged_cleaning_question(
    whole: Vec<String>,
    contents: Vec<String>,
    candidates: Vec<CandidateId>,
    escalator: &str,
) -> (dialog: ConfirmDialog)
    ensures
        is_privileged_cleaning_question(dialog, whole@, contents@, candidates@, escalator@),
{
    let mut all: Vec<String> = Vec::new();
    let mut i: usize = 0;
    while i < whole.len()
        invariant
            0 <= i <= whole@.len(),
            all@.len() == i,
            texts_of(all@) == texts_of(whole@.take(i as int)),
        decreases whole@.len() - i,
    {
        let ghost earlier = all@;
        all.push(whole[i].clone());
        assert(texts_of(all@) =~= texts_of(whole@.take(i + 1))) by {
            assert forall|m: int| 0 <= m <= i implies #[trigger] texts_of(all@)[m]
                == texts_of(whole@.take(i + 1))[m] by {
                if m < i {
                    assert(all@[m] == earlier[m]);
                    assert(texts_of(earlier)[m] == texts_of(whole@.take(i as int))[m]);
                }
            }
        }
        i += 1;
    }
    assert(whole@.take(whole@.len() as int) =~= whole@);
    let mut j: usize = 0;
    while j < contents.len()
        invariant
            0 <= j <= contents@.len(),
            all@.len() == whole@.len() + j,
            texts_of(all@) == texts_of(whole@) + starred(contents@.take(j as int)),
        decreases contents@.len() - j,
    {
        let mut line = contents[j].clone();
        line.append("/*");
        let ghost earlier = all@;
        all.push(line);
        let ghost goal = texts_of(whole@) + starred(contents@.take(j + 1));
        assert(texts_of(all@) =~= goal) by {
            let before = texts_of(whole@) + starred(contents@.take(j as int));
            assert forall|m: int| 0 <= m < all@.len() implies #[trigger] texts_of(all@)[m]
                == goal[m] by {
                if m < earlier.len() {
                    assert(all@[m] == earlier[m]);
                    assert(texts_of(earlier)[m] == before[m]);
                    if m >= whole@.len() {
                        assert(starred(contents@.take(j + 1))[m - whole@.len()]
                            == starred(contents@.take(j as int))[m - whole@.len()]);
                    }
                }
            }
        }
        j += 1;
    }
    assert(contents@.take(contents@.len() as int) =~= contents@);
    let ghost every = texts_of(whole@) + starred(contents@);
    let shown: usize = if all.len() > 10 {
        10
    } else {
        all.len()
    };
    let mut lines: Vec<String> = Vec::new();
    let mut k: usize = 0;
    while k < shown
        invariant
            texts_of(all@) == every,
            shown == capped(every.len() as int, 10),
            0 <= k <= shown,
            lines@.len() == k,
            texts_of(lines@) == every.take(k as int),
        decreases shown - k,
    {
        let ghost earlier = lines@;
        lines.push(all[k].clone());
        assert(texts_of(lines@) =~= every.take(k + 1)) by {
            assert forall|m: int| 0 <= m <= k implies #[trigger] texts_of(lines@)[m]
                == every.take(k + 1)[m] by {
                if m < k {
                    assert(lines@[m] == earlier[m]);
                    assert(texts_of(earlier)[m] == every.take(k as int)[m]);
                } else {
                    assert(texts_of(all@)[m] == all@[m]@);
                }
            }
        }
        k += 1;
    }
    lines.push(String::new());
    lines.push(escalation_line(escalator));
    proof {
        reveal_strlit("");
        assert(texts_of(lines@) =~= privileged_cleaning_lines(whole@, contents@, escalator@));
    }
    ConfirmDialog {
        title: String::from_str("Administrator privileges required"),
        lines,
        confirmation: Confirmation::YesKey,
        action: PendingAction::ElevateClean { whole, contents, candidates },
        dangerous: true,
    }
}

/// The status line after a deletion run: how many items were removed, how much that gave
/// back (`reclaimed`), and how many were cancelled.
pub open spec fn deletion_follow_up_line(kinds: Seq<OutcomeKind>, reclaimed: Seq<char>) -> Seq<char> {
    decimal(count_kind(kinds, OutcomeKind::Succeeded)) + " items removed \u{b7} "@ + reclaimed
        + " reclaimed"@ + summary_part(count_kind(kinds, OutcomeKind::Cancelled), " cancelled"@)
}

/// The status line after a cleaning run: how many targets were cleaned, about how much that
/// gave back (`reclaimed`), and how many failed or were cancelled.
pub open spec fn cleaning_follow_up_line(kinds: Seq<OutcomeKind>, reclaimed: Seq<char>) -> Seq<char> {
    decimal(count_kind(kinds, OutcomeKind::Succeeded)) + " cleaned \u{b7} about "@ + reclaimed
        + " reclaimed"@ + summary_part(count_kind(kinds, OutcomeKind::Failed), " failed"@)
        + summary_part(count_kind(kinds, OutcomeKind::Cancelled), " cancelled"@)
}

/// A run that got something done reports a success; one that did not, a warning.
pub open spec fn follow_up_severity(kinds: Seq<OutcomeKind>) -> Severity {
    if count_kind(kinds, OutcomeKind::Succeeded) > 0 {
        Severity::Success
    } else {
        Severity::Warning
    }
}

impl Session {
    /// What follows once the progress modal of a deletion is closed: a question when items
    /// need administrator privileges, otherwise the list of failures when there are any,
    /// and a status line in any case. `reclaimed_text` is the space given back and
    /// `privileged_total_text` the size of the items that need privileges, as the interface
    /// writes sizes; `escalator` is the command that gains the privileges.
    pub fn follow_up_deletion(
        &mut self,
        report: &DeletionReport,
        reclaimed_text: &str,
        privileged_total_text: &str,
        escalator: &str,
    )
        ensures
            ({
                let needing = needing_of(report.outcomes@);
                let failed = failures_of(report.outcomes@);
                &&& needing.len() > 0 ==> (final(self).overlay matches Some(Overlay::Confirm(dialog))
                    && is_privileged_deletion_question(
                    dialog,
                    needing,
                    privileged_total_text@,
                    escalator@,
                ))
                &&& needing.len() == 0 && failed.len() > 0 ==> (final(self).overlay matches Some(
                    Overlay::Message(dialog),
                ) && is_failure_report(dialog, failed))
                &&& needing.len() == 0 && failed.len() == 0 ==> final(self).overlay == old(
                    self,
                ).overlay
            }),
            status_is(
                final(self).status,
                deletion_follow_up_line(deletion_kinds(report.outcomes@), reclaimed_text@),
                follow_up_severity(deletion_kinds(report.outcomes@)),
            ),
            *final(self) == (Session {
                overlay: final(self).overlay,
                status: final(self).status,
                ..*old(self)
            }),
    {
        let needing = needing_privileges(report);
        let failed = failures(report);
        let kinds = deletion_kinds_of(report.outcomes.as_slice());
        if needing.len() > 0 {
            let dialog = privileged_deletion_question(needing, privileged_total_text, escalator);
            self.overlay = Some(Overlay::Confirm(dialog));
        } else if failed.len() > 0 {
            let dialog = failure_report(failed.as_slice());
            self.overlay = Some(Overlay::Message(dialog));
        }
        let succeeded = count_of(kinds.as_slice(), OutcomeKind::Succeeded);
        let mut line = decimal_string(succeeded as u64);
        line.append(" items removed \u{b7} ");
        line.append(reclaimed_text);
        line.append(" reclaimed");
        append_part(&mut line, count_of(kinds.as_slice(), OutcomeKind::Cancelled), " cancelled");
        let severity = if succeeded > 0 {
            Severity::Success
        } else {
            Severity::Warning
        };
        self.show_status(line, severity);
    }

    /// What follows once the progress modal of a cleaning run is closed: a question when
    /// targets need administrator privileges (`whole` and `contents` are their paths, removed
    /// entirely or emptied), otherwise the list of failures when there are any, and a status
    /// line in any case. `reclaimed_text` is the space given back, as the interface writes
    /// sizes; `escalator` is the command that gains the privileges.
    pub fn follow_up_cleaning(
        &mut self,
        report: &CleaningReport,
        whole: Vec<String>,
        contents: Vec<String>,
        reclaimed_text: &str,
        escalator: &str,
    )
        ensures
            ({
                let needing = cleaning_needing_of(report.outcomes@);
                let failed = cleaning_failures_of(report.outcomes@);
                &&& needing.len() > 0 ==> (final(self).overlay matches Some(Overlay::Confirm(dialog))
                    && is_privileged_cleaning_question(
                    dialog,
                    whole@,
                    contents@,
                    needing,
                    escalator@,
                ))
                &&& needing.len() == 0 && failed.len() > 0 ==> (final(self).overlay matches Some(
                    Overlay::Message(dialog),
                ) && is_cleaning_failure_report(dialog, failed))
                &&& needing.len() == 0 && failed.len() == 0 ==> final(self).overlay == old(
                    self,
                ).overlay
            }),
            status_is(
                final(self).status,
                cleaning_follow_up_line(cleaning_kinds(report.outcomes@), reclaimed_text@),
                follow_up_severity(cleaning_kinds(report.outcomes@)),
            ),
            *final(self) == (Session {
                overlay: final(self).overlay,
                status: final(self).status,
                ..*old(self)
            }),
    {
        let needing = cleaning_needing_privileges(report);
        let failed = cleaning_failures(report);
        let kinds = cleaning_kinds_of(report.outcomes.as_slice());
        if needing.len() > 0 {
            let dialog = privileged_cleaning_question(whole, contents, needing, escalator);
            self.overlay = Some(Overlay::Confirm(dialog));
        } else if failed.len() > 0 {
            let dialog = cleaning_failure_report(failed.as_slice());
            self.overlay = Some(Overlay::Message(dialog));
        }
        let cleaned = count_of(kinds.as_slice(), OutcomeKind::Succeeded);
        let mut line = decimal_string(cleaned as u64);
        line.append(" cleaned \u{b7} about ");
        line.append(reclaimed_text);
        line.append(" reclaimed");
        append_part(&mut line, count_of(kinds.as_slice(), OutcomeKind::Failed), " failed");
        append_part(&mut line, count_of(kinds.as_slice(), OutcomeKind::Cancelled), " cancelled");
        let severity = if cleaned > 0 {
            Severity::Success
        } else {
            Severity::Warning
        };
        self.show_status(line, severity);
    }
}

proof fn lemma_deletion_kinds_drop_last(outcomes: Seq<DeletionOutcome>)
    requires
        outcomes.len() > 0,
    ensures
        deletion_kinds(outcomes).drop_last() == deletion_kinds(outcomes.drop_last()),
        deletion_kinds(outcomes).last() == deletion_kind(outcomes.last().status),
{
    assert(deletion_kinds(outcomes).drop_last() =~= deletion_kinds(outcomes.drop_last()));
}

proof fn lemma_cleaning_kinds_drop_last(outcomes: Seq<CleaningOutcome>)
    requires
        outcomes.len() > 0,
    ensures
        cleaning_kinds(outcomes).drop_last() == cleaning_kinds(outcomes.drop_last()),
        cleaning_kinds(outcomes).last() == cleaning_kind(outcomes.last().status),
{
    assert(cleaning_kinds(outcomes).drop_last() =~= cleaning_kinds(outcomes.drop_last()));
}

/// Every item of a deletion run is counted once in its summary: as removed, as needing
/// privileges, as failed or as cancelled.
pub proof fn lemma_deletion_counts_add_up(outcomes: Seq<DeletionOutcome>)
    ensures
        ({
            let kinds = deletion_kinds(outcomes);
            count_kind(kinds, OutcomeKind::Succeeded) + count_kind(kinds, OutcomeKind::NeedsPrivileges)
                + count_kind(kinds, OutcomeKind::Failed) + count_kind(kinds, OutcomeKind::Cancelled)
                == outcomes.len()
        }),
        count_kind(deletion_kinds(outcomes), OutcomeKind::Skipped) == 0,
    decreases outcomes.len(),
{
    if outcomes.len() > 0 {
        lemma_deletion_kinds_drop_last(outcomes);
        lemma_deletion_counts_add_up(outcomes.drop_last());
    }
}

/// Every target of a cleaning run is counted once: as cleaned, as needing privileges, as
/// failed, as cancelled or as skipped.
pub proof fn lemma_cleaning_counts_add_up(outcomes: Seq<CleaningOutcome>)
    ensures
        ({
            let kinds = cleaning_kinds(outcomes);
            count_kind(kinds, OutcomeKind::Succeeded) + count_kind(kinds, OutcomeKind::NeedsPrivileges)
                + count_kind(kinds, OutcomeKind::Failed) + count_kind(kinds, OutcomeKind::Cancelled)
                + count_kind(kinds, OutcomeKind::Skipped) == outcomes.len()
        }),
    decreases outcomes.len(),
{
    if outcomes.len() > 0 {
        lemma_cleaning_kinds_drop_last(outcomes);
        lemma_cleaning_counts_add_up(outcomes.drop_last());
    }
}

/// The lists that follow a deletion hold as many failures and as many items needing
/// privileges as its summary counts.
pub proof fn lemma_deletion_lists_match_counts(outcomes: Seq<DeletionOutcome>)
    ensures
        failures_of(outcomes).len() == count_kind(deletion_kinds(outcomes), OutcomeKind::Failed),
        needing_of(outcomes).len() == count_kind(
            deletion_kinds(outcomes),
            OutcomeKind::NeedsPrivileges,
        ),
    decreases outcomes.len(),
{
    if outcomes.len() > 0 {
        lemma_deletion_kinds_drop_last(outcomes);
        lemma_deletion_lists_match_counts(outcomes.drop_last());
    }
}

/// The lists that follow a cleaning run hold as many failures and as many targets needing
/// privileges as its summary counts.
pub proof fn lemma_cleaning_lists_match_counts(outcomes: Seq<CleaningOutcome>)
    ensures
        cleaning_failures_of(outcomes).len() == count_kind(
            cleaning_kinds(outcomes),
            OutcomeKind::Failed,
        ),
        cleaning_needing_of(outcomes).len() == count_kind(
            cleaning_kinds(outcomes),
            OutcomeKind::NeedsPrivileges,
        ),
    decreases outcomes.len(),
{
    if outcomes.len() > 0 {
        lemma_cleaning_kinds_drop_last(outcomes);
        lemma_cleaning_lists_match_counts(outcomes.drop_last());
    }
}

/// The status line after the privileged part of a run, `outcome` being what the command
/// that gains the privileges reported: how many items or locations it removed (for a
/// deletion, `size_text` is their size together, as the interface writes sizes), or why it
/// failed.
pub open spec fn elevation_status_spec(
    action: PendingAction,
    outcome: Result<(), String>,
    size_text: Seq<char>,
) -> (Seq<char>, Severity) {
    match action {
        PendingAction::ElevateDelete(items) => match outcome {
            Ok(_) => (
                decimal(items@.len()) + " items removed with privileges \u{b7} "@ + size_text,
                Severity::Success,
            ),
            Err(error) => ("privileged deletion failed: "@ + error@, Severity::Error),
        },
        PendingAction::ElevateClean { candidates, .. } => match outcome {
            Ok(_) => (
                decimal(candidates@.len()) + " locations cleaned with privileges"@,
                Severity::Success,
            ),
            Err(error) => ("privileged cleaning failed: "@ + error@, Severity::Error),
        },
        _ => ("nothing to do"@, Severity::Info),
    }
}

/// The status line after the privileged part of a run.
pub fn elevation_status(
    action: &PendingAction,
    outcome: Result<(), String>,
    size_text: &str,
) -> (status: (String, Severity))
    ensures
        (status.0@, status.1) == elevation_status_spec(*action, outcome, size_text@),
{
    match action {
        PendingAction::ElevateDelete(items) => match outcome {
            Ok(_) => {
                let mut text = decimal_string(items.len() as u64);
                text.append(" items removed with privileges \u{b7} ");
                text.append(size_text);
                (text, Severity::Success)
            },
            Err(error) => {
                let mut text = String::from_str("privileged deletion failed: ");
                text.append(error.as_str());
                (text, Severity::Error)
            },
        },
        PendingAction::ElevateClean { candidates, .. } => match outcome {
            Ok(_) => {
                let mut text = decimal_string(candidates.len() as u64);
                text.append(" locations cleaned with privileges");
                (text, Severity::Success)
            },
            Err(error) => {
                let mut text = String::from_str("privileged cleaning failed: ");
                text.append(error.as_str());
                (text, Severity::Error)
            },
        },
        _ => (String::from_str("nothing to do"), Severity::Info),
    }
}

/// The report of the locations cleaned with privileges: each of `candidates` cleaned, with
/// nothing measured.
pub fn privileged_cleaning_report(candidates: &[CandidateId]) -> (report: CleaningReport)
    ensures
        report.outcomes@.len() == candidates@.len(),
        report.reclaimed_estimate == ByteSize(0),
        forall|i: int|
            0 <= i < candidates@.len() ==> {
                let outcome = #[trigger] report.outcomes@[i];
                &&& outcome.candidate == candidates@[i]
                &&& outcome.label@ == Seq::<char>::empty()
                &&& outcome.status == CleaningStatus::Cleaned
                &&& outcome.detail@ == Seq::<char>::empty()
                &&& outcome.reclaimed == ByteSize(0)
                &&& outcome.entries_removed == 0
            },
{
    let mut outcomes: Vec<CleaningOutcome> = Vec::new();
    let mut i: usize = 0;
    while i < candidates.len()
        invariant
            0 <= i <= candidates@.len(),
            outcomes@.len() == i,
            forall|k: int|
                0 <= k < i ==> {
                    let outcome = #[trigger] outcomes@[k];
                    &&& outcome.candidate == candidates@[k]
                    &&& outcome.label@ == Seq::<char>::empty()
                    &&& outcome.status == CleaningStatus::Cleaned
                    &&& outcome.detail@ == Seq::<char>::empty()
                    &&& outcome.reclaimed == ByteSize(0)
                    &&& outcome.entries_removed == 0
                },
        decreases candidates@.len() - i,
    {
        outcomes.push(
            CleaningOutcome {
                candidate: candidates[i],
                label: String::new(),
                status: CleaningStatus::Cleaned,
                detail: String::new(),
                reclaimed: ByteSize(0),
                entries_removed: 0,
            },
        );
        i += 1;
    }
    CleaningReport { outcomes, reclaimed_estimate: ByteSize(0) }
}

} // verus!
