//! A deletion or cleaning run in progress: what the progress modal shows, and how the
//! progress messages of the run change it.

use std::collections::VecDeque;
use std::time::{Duration, Instant};

use vstd::prelude::*;

use crate::clock::{duration_since, now, span_between};
use crate::formatting::{
    count, decimal, decimal_string, fit, fit_spec, grouped, home_relative, home_relative_spec,
    spinner, spinner_frame,
};
use crate::display::{hint_parts, hint_parts_spec};
use crate::notice::{notice_view, Tone};
use crate::reports::{
    cleaning_kinds, cleaning_summary, deletion_kinds, deletion_summary, run_summary,
};
use crate::text::{byte_len, utf8_len};
use crate::keys::Key;
use crate::panels::CleanerState;
use crate::model::{
    CleaningOutcome, CleaningReport, CleaningStatus, DeletionOutcome, DeletionReport,
    DeletionStatus,
};

verus! {

/// Outcomes shown in the modal, latest last.
pub const RECENT_CAPACITY: usize = 6;

/// What kind of run.
#[derive(Clone, Copy, Debug, PartialEq, Eq, Structural)]
pub enum OperationKind {
    Deletion,
    Cleaning,
}

impl OperationKind {
    /// The verb of the title.
    pub fn verb(self) -> (verb: &'static str)
        ensures
            verb@ == (match self {
                OperationKind::Deletion => "Deleting"@,
                OperationKind::Cleaning => "Cleaning"@,
            }),
    {
        match self {
            OperationKind::Deletion => "Deleting",
            OperationKind::Cleaning => "Cleaning",
        }
    }

    /// `item` / `items`, `target` / `targets`.
    pub fn noun(self, count: usize) -> (noun: &'static str)
        ensures
            noun@ == noun_spec(self, count as nat),
    {
        match (self, count) {
            (OperationKind::Deletion, 1) => "item",
            (OperationKind::Deletion, _) => "items",
            (OperationKind::Cleaning, 1) => "target",
            (OperationKind::Cleaning, _) => "targets",
        }
    }
}

/// `item` / `items`, `target` / `targets`.
pub open spec fn noun_spec(kind: OperationKind, count: nat) -> Seq<char> {
    match kind {
        OperationKind::Deletion => if count == 1 {
            "item"@
        } else {
            "items"@
        },
        OperationKind::Cleaning => if count == 1 {
            "target"@
        } else {
            "targets"@
        },
    }
}

/// The verb of a title.
pub open spec fn verb_spec(kind: OperationKind) -> Seq<char> {
    match kind {
        OperationKind::Deletion => "Deleting"@,
        OperationKind::Cleaning => "Cleaning"@,
    }
}

/// A progress message of a deletion run.
#[derive(Debug)]
pub enum DeletionProgress {
    Started { total: usize },
    ItemStarted { index: usize, path: String },
    ItemProgress { entries_removed: u64, bytes_removed: u64, current: String },
    ItemFinished { outcome: DeletionOutcome },
    Finished(DeletionReport),
}

/// A progress message of a cleaning run.
#[derive(Debug)]
pub enum CleaningProgress {
    Started { total: usize },
    ItemStarted { index: usize, label: String },
    ItemProgress { entries_removed: u64, bytes_removed: u64, current: String },
    ItemFinished { outcome: CleaningOutcome },
    Finished(CleaningReport),
}

/// The messages a run has sent since they were last read, in order.
#[derive(Debug)]
pub enum OperationMessages {
    Deletion(Vec<DeletionProgress>),
    Cleaning(Vec<CleaningProgress>),
}

/// The final report of a run.
#[derive(Clone, Debug)]
pub enum OperationReport {
    Deletion(DeletionReport),
    Cleaning(CleaningReport),
}

/// A report seen as its outcomes.
pub enum ReportView {
    Deletion(Seq<DeletionOutcome>),
    Cleaning(Seq<CleaningOutcome>, u64),
}

impl View for OperationReport {
    type V = ReportView;

    open spec fn view(&self) -> ReportView {
        match self {
            OperationReport::Deletion(report) => ReportView::Deletion(report.outcomes@),
            OperationReport::Cleaning(report) => ReportView::Cleaning(
                report.outcomes@,
                report.reclaimed_estimate.0,
            ),
        }
    }
}

impl OperationReport {
    /// A copy with the same outcomes.
    pub fn duplicate(&self) -> (copy: OperationReport)
        ensures
            copy@ == self@,
    {
        match self {
            OperationReport::Deletion(report) => OperationReport::Deletion(report.duplicate()),
            OperationReport::Cleaning(report) => OperationReport::Cleaning(report.duplicate()),
        }
    }
}

/// How an item ended, for its glyph.
#[derive(Clone, Copy, Debug, PartialEq, Eq, Structural)]
pub enum EntryStatus {
    Success,
    Warning,
    Failure,
    Cancelled,
}

/// One finished item as the modal lists it.
#[derive(Clone, Debug)]
pub struct FinishedEntry {
    pub label: String,
    pub detail: String,
    pub status: EntryStatus,
}

/// A finished entry seen as its texts.
pub type EntryView = (Seq<char>, Seq<char>, EntryStatus);

/// Everything the progress modal shows, time aside.
pub struct RunView {
    pub kind: OperationKind,
    pub total: nat,
    pub finished_count: nat,
    pub current_index: Option<nat>,
    pub current_label: Seq<char>,
    pub current_detail: Seq<char>,
    pub current_entries: nat,
    pub current_bytes: nat,
    pub finished_entries: nat,
    pub finished_bytes: nat,
    pub recent: Seq<EntryView>,
    pub finished: bool,
    pub cancel_requested: bool,
    pub report: Option<ReportView>,
    pub home: Option<Seq<char>>,
}

/// `x` held at `max`.
pub open spec fn capped(x: nat, max: nat) -> nat {
    if x > max {
        max
    } else {
        x
    }
}

/// The latest outcomes after `entry`: at most `RECENT_CAPACITY`, the oldest dropped.
pub open spec fn with_recent(recent: Seq<EntryView>, entry: EntryView) -> Seq<EntryView> {
    if recent.len() >= RECENT_CAPACITY {
        recent.drop_first().push(entry)
    } else {
        recent.push(entry)
    }
}

/// The state once the current item is over, with `entries` removed and `bytes` freed.
pub open spec fn finish_current_spec(v: RunView, entries: nat, bytes: nat) -> RunView {
    RunView {
        finished_count: if capped(v.finished_count + 1, usize::MAX as nat) < (if v.total > 1 {
            v.total
        } else {
            1
        }) {
            capped(v.finished_count + 1, usize::MAX as nat)
        } else {
            if v.total > 1 {
                v.total
            } else {
                1
            }
        },
        finished_entries: capped(v.finished_entries + entries, u64::MAX as nat),
        finished_bytes: capped(v.finished_bytes + bytes, u64::MAX as nat),
        current_index: None,
        current_entries: 0,
        current_bytes: 0,
        current_detail: Seq::empty(),
        ..v
    }
}

/// The entry a finished deletion item gets in the list.
pub open spec fn deletion_entry(outcome: DeletionOutcome, home: Option<Seq<char>>) -> EntryView {
    let label = home_relative_spec(outcome.item.path@, home);
    match outcome.status {
        DeletionStatus::Removed => (label, "removed"@, EntryStatus::Success),
        DeletionStatus::MovedToTrash => (label, "moved to Trash"@, EntryStatus::Success),
        DeletionStatus::NeedsPrivileges => (label, "needs sudo"@, EntryStatus::Warning),
        DeletionStatus::Cancelled => (label, "cancelled"@, EntryStatus::Cancelled),
        DeletionStatus::Refused(reason) => (label, reason@, EntryStatus::Failure),
        DeletionStatus::Failed(reason) => (label, reason@, EntryStatus::Failure),
    }
}

/// The entry a finished cleaning target gets in the list.
pub open spec fn cleaning_entry(outcome: CleaningOutcome) -> EntryView {
    match outcome.status {
        CleaningStatus::Cleaned => (outcome.label@, outcome.detail@, EntryStatus::Success),
        CleaningStatus::NeedsPrivileges => (outcome.label@, "needs sudo"@, EntryStatus::Warning),
        CleaningStatus::Cancelled => (outcome.label@, "cancelled"@, EntryStatus::Cancelled),
        CleaningStatus::Skipped(reason) => (outcome.label@, reason@, EntryStatus::Warning),
        CleaningStatus::Failed(reason) => (outcome.label@, reason@, EntryStatus::Failure),
    }
}

/// The state after one deletion progress message.
pub open spec fn deletion_step(v: RunView, message: DeletionProgress) -> RunView {
    match message {
        DeletionProgress::Started { total } => RunView { total: total as nat, ..v },
        DeletionProgress::ItemStarted { index, path } => RunView {
            current_index: Some(index as nat),
            current_label: home_relative_spec(path@, v.home),
            current_detail: Seq::empty(),
            current_entries: 0,
            current_bytes: 0,
            ..v
        },
        DeletionProgress::ItemProgress { entries_removed, bytes_removed, current } => RunView {
            current_entries: entries_removed as nat,
            current_bytes: bytes_removed as nat,
            current_detail: home_relative_spec(current@, v.home),
            ..v
        },
        DeletionProgress::ItemFinished { outcome } => finish_current_spec(
            RunView { recent: with_recent(v.recent, deletion_entry(outcome, v.home)), ..v },
            outcome.entries_removed as nat,
            outcome.reclaimed.0 as nat,
        ),
        DeletionProgress::Finished(report) => RunView {
            finished: true,
            finished_count: v.total,
            report: Some(ReportView::Deletion(report.outcomes@)),
            ..v
        },
    }
}

/// The state after one cleaning progress message.
pub open spec fn cleaning_step(v: RunView, message: CleaningProgress) -> RunView {
    match message {
        CleaningProgress::Started { total } => RunView { total: total as nat, ..v },
        CleaningProgress::ItemStarted { index, label } => RunView {
            current_index: Some(index as nat),
            current_label: label@,
            current_detail: Seq::empty(),
            current_entries: 0,
            current_bytes: 0,
            ..v
        },
        CleaningProgress::ItemProgress { entries_removed, bytes_removed, current } => RunView {
            current_entries: entries_removed as nat,
            current_bytes: bytes_removed as nat,
            current_detail: home_relative_spec(current@, v.home),
            ..v
        },
        CleaningProgress::ItemFinished { outcome } => finish_current_spec(
            RunView { recent: with_recent(v.recent, cleaning_entry(outcome)), ..v },
            outcome.entries_removed as nat,
            outcome.reclaimed.0 as nat,
        ),
        CleaningProgress::Finished(report) => RunView {
            finished: true,
            finished_count: v.total,
            report: Some(ReportView::Cleaning(report.outcomes@, report.reclaimed_estimate.0)),
            ..v
        },
    }
}

/// The state after a batch of deletion messages, in order.
pub open spec fn deletion_steps(v: RunView, messages: Seq<DeletionProgress>) -> RunView
    decreases messages.len(),
{
    if messages.len() == 0 {
        v
    } else {
        deletion_step(deletion_steps(v, messages.drop_last()), messages.last())
    }
}

/// The state after a batch of cleaning messages, in order.
pub open spec fn cleaning_steps(v: RunView, messages: Seq<CleaningProgress>) -> RunView
    decreases messages.len(),
{
    if messages.len() == 0 {
        v
    } else {
        cleaning_step(cleaning_steps(v, messages.drop_last()), messages.last())
    }
}

/// Whether a batch holds the end of the run.
pub open spec fn deletion_finishes(messages: Seq<DeletionProgress>) -> bool {
    exists|i: int| 0 <= i < messages.len() && messages[i] is Finished
}

/// Whether a batch holds the end of the run.
pub open spec fn cleaning_finishes(messages: Seq<CleaningProgress>) -> bool {
    exists|i: int| 0 <= i < messages.len() && messages[i] is Finished
}

/// Everything the progress dialog needs, fed by the messages of the run.
pub struct OperationRun {
    pub kind: OperationKind,
    pub total: usize,
    pub finished_count: usize,
    pub current_index: Option<usize>,
    pub current_label: String,
    pub current_detail: String,
    pub current_entries: u64,
    pub current_bytes: u64,
    pub finished_entries: u64,
    pub finished_bytes: u64,
    pub recent: VecDeque<FinishedEntry>,
    pub started_at: Instant,
    pub finished_at: Option<Instant>,
    pub cancel_requested: bool,
    pub report: Option<OperationReport>,
    home: Option<String>,
}

impl View for OperationRun {
    type V = RunView;

    closed spec fn view(&self) -> RunView {
        RunView {
            kind: self.kind,
            total: self.total as nat,
            finished_count: self.finished_count as nat,
            current_index: match self.current_index {
                Some(i) => Some(i as nat),
                None => None,
            },
            current_label: self.current_label@,
            current_detail: self.current_detail@,
            current_entries: self.current_entries as nat,
            current_bytes: self.current_bytes as nat,
            finished_entries: self.finished_entries as nat,
            finished_bytes: self.finished_bytes as nat,
            recent: self.recent@.map_values(
                |entry: FinishedEntry| (entry.label@, entry.detail@, entry.status),
            ),
            finished: self.finished_at is Some,
            cancel_requested: self.cancel_requested,
            report: match self.report {
                Some(report) => Some(report@),
                None => None,
            },
            home: match self.home {
                Some(h) => Some(h@),
                None => None,
            },
        }
    }
}

impl OperationRun {
    /// A run of `total` items that has not started any of them. Paths shown in the modal are
    /// written relative to `home`.
    pub fn new(kind: OperationKind, total: usize, home: Option<String>) -> (run: OperationRun)
        ensures
            run@ == (RunView {
                kind: kind,
                total: total as nat,
                finished_count: 0,
                current_index: None,
                current_label: Seq::empty(),
                current_detail: Seq::empty(),
                current_entries: 0,
                current_bytes: 0,
                finished_entries: 0,
                finished_bytes: 0,
                recent: Seq::empty(),
                finished: false,
                cancel_requested: false,
                report: None,
                home: match home {
                    Some(h) => Some(h@),
                    None => None,
                },
            }),
    {
        let run = OperationRun {
            kind,
            total,
            finished_count: 0,
            current_index: None,
            current_label: String::new(),
            current_detail: String::new(),
            current_entries: 0,
            current_bytes: 0,
            finished_entries: 0,
            finished_bytes: 0,
            recent: VecDeque::with_capacity(RECENT_CAPACITY),
            started_at: now(),
            finished_at: None,
            cancel_requested: false,
            report: None,
            home,
        };
        assert(run@.recent =~= Seq::<EntryView>::empty());
        run
    }

    /// When the run started.
    pub closed spec fn start_instant(&self) -> Instant {
        self.started_at
    }

    /// When the final report arrived, once it has.
    pub closed spec fn end_instant(&self) -> Option<Instant> {
        self.finished_at
    }

    /// Whether the final report has arrived.
    pub fn is_finished(&self) -> (finished: bool)
        ensures
            finished == self@.finished,
    {
        self.finished_at.is_some()
    }

    /// Time since the start, up to the end when the run is over: for a finished run the
    /// time from its start to its end; for a running one the time from its start to the
    /// moment the clock is read.
    pub fn elapsed(&self) -> (span: Duration)
        ensures
            match self.end_instant() {
                Some(end) => span == span_between(end, self.start_instant()),
                None => exists|moment: Instant| span == #[trigger] span_between(
                    moment,
                    self.start_instant(),
                ),
            },
    {
        match self.finished_at {
            Some(end) => duration_since(end, self.started_at),
            None => self.elapsed_at(now()),
        }
    }

    /// Time since the start at `moment`, up to the end when the run is over.
    pub fn elapsed_at(&self, moment: Instant) -> (span: Duration)
        ensures
            span == span_between(
                match self.end_instant() {
                    Some(end) => end,
                    None => moment,
                },
                self.start_instant(),
            ),
    {
        let end = match self.finished_at {
            Some(at) => at,
            None => moment,
        };
        duration_since(end, self.started_at)
    }

    /// Bytes freed so far, the current item included.
    pub fn bytes_reclaimed(&self) -> (bytes: u64)
        ensures
            bytes == capped(self@.finished_bytes + self@.current_bytes, u64::MAX as nat),
    {
        self.finished_bytes.saturating_add(self.current_bytes)
    }

    /// Entries removed so far, the current item included.
    pub fn entries_removed(&self) -> (entries: u64)
        ensures
            entries == capped(self@.finished_entries + self@.current_entries, u64::MAX as nat),
    {
        self.finished_entries.saturating_add(self.current_entries)
    }

    /// Asks for a cancellation between items. Returns whether the run has to be told (it
    /// has not finished); a finished run is left as it is.
    pub fn request_cancel(&mut self) -> (forward: bool)
        ensures
            forward == !old(self)@.finished,
            final(self)@ == (if old(self)@.finished {
                old(self)@
            } else {
                RunView { cancel_requested: true, ..old(self)@ }
            }),
            final(self).start_instant() == old(self).start_instant(),
            final(self).end_instant() == old(self).end_instant(),
    {
        if self.is_finished() {
            return false;
        }
        self.cancel_requested = true;
        true
    }

    /// `Deleting 3 items` while running, `Deleting finished` afterwards.
    pub fn title(&self) -> (title: String)
        ensures
            title@ == (if self@.finished {
                verb_spec(self@.kind) + " finished"@
            } else {
                verb_spec(self@.kind) + " "@ + decimal(self@.total) + " "@ + noun_spec(
                    self@.kind,
                    self@.total,
                )
            }),
    {
        let mut title = String::from_str(self.kind.verb());
        if self.is_finished() {
            title.append(" finished");
        } else {
            title.append(" ");
            let count = decimal_string(self.total as u64);
            title.append(count.as_str());
            title.append(" ");
            title.append(self.kind.noun(self.total));
        }
        title
    }

    fn label_for(&self, path: &String) -> (label: String)
        ensures
            label@ == home_relative_spec(path@, self@.home),
    {
        match &self.home {
            Some(home) => home_relative(path.as_str(), Some(home.as_str())),
            None => home_relative(path.as_str(), None),
        }
    }

    fn push_recent(&mut self, entry: FinishedEntry)
        ensures
            final(self)@ == (RunView {
                recent: with_recent(old(self)@.recent, (entry.label@, entry.detail@, entry.status)),
                ..old(self)@
            }),
            final(self).started_at == old(self).started_at,
            final(self).finished_at == old(self).finished_at,
    {
        let ghost before = self@.recent;
        if self.recent.len() >= RECENT_CAPACITY {
            let _ = self.recent.pop_front();
        }
        self.recent.push_back(entry);
        proof {
            let e = (entry.label@, entry.detail@, entry.status);
            if before.len() >= RECENT_CAPACITY {
                assert(self@.recent =~= before.drop_first().push(e));
            } else {
                assert(self@.recent =~= before.push(e));
            }
        }
    }

    fn finish_current(&mut self, entries: u64, bytes: u64)
        ensures
            final(self)@ == finish_current_spec(old(self)@, entries as nat, bytes as nat),
            final(self).started_at == old(self).started_at,
            final(self).finished_at == old(self).finished_at,
    {
        let ceiling = if self.total > 1 {
            self.total
        } else {
            1
        };
        let next = self.finished_count.saturating_add(1);
        self.finished_count = if next < ceiling {
            next
        } else {
            ceiling
        };
        self.finished_entries = self.finished_entries.saturating_add(entries);
        self.finished_bytes = self.finished_bytes.saturating_add(bytes);
        self.current_index = None;
        self.current_entries = 0;
        self.current_bytes = 0;
        self.current_detail = String::new();
    }

    fn apply_deletion(&mut self, message: DeletionProgress) -> (report: Option<OperationReport>)
        ensures
            final(self)@ == deletion_step(old(self)@, message),
            final(self).start_instant() == old(self).start_instant(),
            message is Finished ==> final(self).end_instant() is Some,
            !(message is Finished) ==> final(self).end_instant() == old(self).end_instant(),
            match message {
                DeletionProgress::Finished(r) => report matches Some(out) && out@
                    == ReportView::Deletion(r.outcomes@),
                _ => report is None,
            },
    {
        match message {
            DeletionProgress::Started { total } => self.total = total,
            DeletionProgress::ItemStarted { index, path } => {
                self.current_index = Some(index);
                self.current_label = self.label_for(&path);
                self.current_detail = String::new();
                self.current_entries = 0;
                self.current_bytes = 0;
            },
            DeletionProgress::ItemProgress { entries_removed, bytes_removed, current } => {
                self.current_entries = entries_removed;
                self.current_bytes = bytes_removed;
                self.current_detail = self.label_for(&current);
            },
            DeletionProgress::ItemFinished { outcome } => {
                let label = self.label_for(&outcome.item.path);
                let (status, detail) = match &outcome.status {
                    DeletionStatus::Removed => (EntryStatus::Success, String::from_str("removed")),
                    DeletionStatus::MovedToTrash => (
                        EntryStatus::Success,
                        String::from_str("moved to Trash"),
                    ),
                    DeletionStatus::NeedsPrivileges => (
                        EntryStatus::Warning,
                        String::from_str("needs sudo"),
                    ),
                    DeletionStatus::Cancelled => (
                        EntryStatus::Cancelled,
                        String::from_str("cancelled"),
                    ),
                    DeletionStatus::Refused(reason) => (EntryStatus::Failure, reason.clone()),
                    DeletionStatus::Failed(reason) => (EntryStatus::Failure, reason.clone()),
                };
                self.push_recent(FinishedEntry { label, detail, status });
                self.finish_current(outcome.entries_removed, outcome.reclaimed.as_u64());
            },
            DeletionProgress::Finished(report) => {
                self.finished_at = Some(now());
                self.finished_count = self.total;
                let report = OperationReport::Deletion(report);
                self.report = Some(report.duplicate());
                return Some(report);
            },
        }
        None
    }

    fn apply_cleaning(&mut self, message: CleaningProgress) -> (report: Option<OperationReport>)
        ensures
            final(self)@ == cleaning_step(old(self)@, message),
            final(self).start_instant() == old(self).start_instant(),
            message is Finished ==> final(self).end_instant() is Some,
            !(message is Finished) ==> final(self).end_instant() == old(self).end_instant(),
            match message {
                CleaningProgress::Finished(r) => report matches Some(out) && out@
                    == ReportView::Cleaning(r.outcomes@, r.reclaimed_estimate.0),
                _ => report is None,
            },
    {
        match message {
            CleaningProgress::Started { total } => self.total = total,
            CleaningProgress::ItemStarted { index, label } => {
                self.current_index = Some(index);
                self.current_label = label;
                self.current_detail = String::new();
                self.current_entries = 0;
                self.current_bytes = 0;
            },
            CleaningProgress::ItemProgress { entries_removed, bytes_removed, current } => {
                self.current_entries = entries_removed;
                self.current_bytes = bytes_removed;
                self.current_detail = self.label_for(&current);
            },
            CleaningProgress::ItemFinished { outcome } => {
                let (status, detail) = match &outcome.status {
                    CleaningStatus::Cleaned => (EntryStatus::Success, outcome.detail.clone()),
                    CleaningStatus::NeedsPrivileges => (
                        EntryStatus::Warning,
                        String::from_str("needs sudo"),
                    ),
                    CleaningStatus::Cancelled => (
                        EntryStatus::Cancelled,
                        String::from_str("cancelled"),
                    ),
                    CleaningStatus::Skipped(reason) => (EntryStatus::Warning, reason.clone()),
                    CleaningStatus::Failed(reason) => (EntryStatus::Failure, reason.clone()),
                };
                self.push_recent(FinishedEntry { label: outcome.label.clone(), detail, status });
                self.finish_current(outcome.entries_removed, outcome.reclaimed.as_u64());
            },
            CleaningProgress::Finished(report) => {
                self.finished_at = Some(now());
                self.finished_count = self.total;
                let report = OperationReport::Cleaning(report);
                self.report = Some(report.duplicate());
                return Some(report);
            },
        }
        None
    }

    /// Applies every message the run sent, in order. Returns the final report when the
    /// batch holds it.
    pub fn drain(&mut self, messages: OperationMessages) -> (report: Option<OperationReport>)
        ensures
            match messages {
                OperationMessages::Deletion(batch) => {
                    &&& final(self)@ == deletion_steps(old(self)@, batch@)
                    &&& (report is Some <==> deletion_finishes(batch@))
                },
                OperationMessages::Cleaning(batch) => {
                    &&& final(self)@ == cleaning_steps(old(self)@, batch@)
                    &&& (report is Some <==> cleaning_finishes(batch@))
                },
            },
            report matches Some(r) ==> final(self)@.report == Some(r@),
            final(self).start_instant() == old(self).start_instant(),
            report is None ==> final(self).end_instant() == old(self).end_instant(),
            report is Some ==> final(self).end_instant() is Some,
    {
        let mut finished: Option<OperationReport> = None;
        match messages {
            OperationMessages::Deletion(batch) => {
                let ghost start = self@;
                let ghost all = batch@;
                for message in it: batch
                    invariant
                        it.seq() == all,
                        self@ == deletion_steps(start, all.take(it.index() as int)),
                        self.start_instant() == old(self).start_instant(),
                        finished is None ==> self.end_instant() == old(self).end_instant(),
                        finished is Some ==> self.end_instant() is Some,
                        finished is Some <==> deletion_finishes(all.take(it.index() as int)),
                        finished matches Some(r) ==> self@.report == Some(r@),
                {
                    let ghost i = it.index() as int;
                    proof {
                        assert(all.take(i + 1).drop_last() =~= all.take(i));
                        assert(all.take(i + 1).last() == all[i]);
                    }
                    let ghost before = self@;
                    let step = self.apply_deletion(message);
                    proof {
                        let prefix = all.take(i + 1);
                        if all[i] is Finished {
                            assert(prefix[i] is Finished);
                        } else {
                            if deletion_finishes(prefix) {
                                let j = choose|j: int| 0 <= j < prefix.len() && prefix[j] is Finished;
                                assert(all.take(i)[j] is Finished);
                            }
                            if deletion_finishes(all.take(i)) {
                                let j = choose|j: int| 0 <= j < i && all.take(i)[j] is Finished;
                                assert(prefix[j] is Finished);
                            }
                        }
                    }
                    if step.is_some() {
                        finished = step;
                    }
                }
                proof {
                    assert(all.take(all.len() as int) =~= all);
                }
                finished
            },
            OperationMessages::Cleaning(batch) => {
                let ghost start = self@;
                let ghost all = batch@;
                for message in it: batch
                    invariant
                        it.seq() == all,
                        self@ == cleaning_steps(start, all.take(it.index() as int)),
                        self.start_instant() == old(self).start_instant(),
                        finished is None ==> self.end_instant() == old(self).end_instant(),
                        finished is Some ==> self.end_instant() is Some,
                        finished is Some <==> cleaning_finishes(all.take(it.index() as int)),
                        finished matches Some(r) ==> self@.report == Some(r@),
                {
                    let ghost i = it.index() as int;
                    proof {
                        assert(all.take(i + 1).drop_last() =~= all.take(i));
                        assert(all.take(i + 1).last() == all[i]);
                    }
                    let step = self.apply_cleaning(message);
                    proof {
                        let prefix = all.take(i + 1);
                        if all[i] is Finished {
                            assert(prefix[i] is Finished);
                        } else {
                            if cleaning_finishes(prefix) {
                                let j = choose|j: int| 0 <= j < prefix.len() && prefix[j] is Finished;
                                assert(all.take(i)[j] is Finished);
                            }
                            if cleaning_finishes(all.take(i)) {
                                let j = choose|j: int| 0 <= j < i && all.take(i)[j] is Finished;
                                assert(prefix[j] is Finished);
                            }
                        }
                    }
                    if step.is_some() {
                        finished = step;
                    }
                }
                proof {
                    assert(all.take(all.len() as int) =~= all);
                }
                finished
            },
        }
    }
}

/// The list of recent outcomes never holds more than `RECENT_CAPACITY` entries, and a run
/// that has finished stays finished, whatever deletion messages arrive.
pub proof fn lemma_deletion_steps_keep_bounds(v: RunView, messages: Seq<DeletionProgress>)
    requires
        v.recent.len() <= RECENT_CAPACITY,
    ensures
        deletion_steps(v, messages).recent.len() <= RECENT_CAPACITY,
        v.finished ==> deletion_steps(v, messages).finished,
        deletion_finishes(messages) ==> deletion_steps(v, messages).finished,
    decreases messages.len(),
{
    if messages.len() > 0 {
        let rest = messages.drop_last();
        lemma_deletion_steps_keep_bounds(v, rest);
        if deletion_finishes(messages) && !(messages.last() is Finished) {
            let j = choose|j: int| 0 <= j < messages.len() && messages[j] is Finished;
            assert(rest[j] is Finished);
        }
    }
}

/// The list of recent outcomes never holds more than `RECENT_CAPACITY` entries, and a run
/// that has finished stays finished, whatever cleaning messages arrive.
pub proof fn lemma_cleaning_steps_keep_bounds(v: RunView, messages: Seq<CleaningProgress>)
    requires
        v.recent.len() <= RECENT_CAPACITY,
    ensures
        cleaning_steps(v, messages).recent.len() <= RECENT_CAPACITY,
        v.finished ==> cleaning_steps(v, messages).finished,
        cleaning_finishes(messages) ==> cleaning_steps(v, messages).finished,
    decreases messages.len(),
{
    if messages.len() > 0 {
        let rest = messages.drop_last();
        lemma_cleaning_steps_keep_bounds(v, rest);
        if cleaning_finishes(messages) && !(messages.last() is Finished) {
            let j = choose|j: int| 0 <= j < messages.len() && messages[j] is Finished;
            assert(rest[j] is Finished);
        }
    }
}

/// What a key does while the progress modal is up.
#[derive(Clone, Copy, Debug, PartialEq, Eq, Structural)]
pub enum OperationKeyEffect {
    /// The run is over: close the modal and follow up on its report.
    Dismiss,
    /// A cancellation between items was asked for; the run has to be told.
    CancelRequested,
    /// The key is swallowed.
    Nothing,
}

impl OperationRun {
    /// While a run is active every key is swallowed except Esc, which asks for a
    /// cancellation between items; once the run finished any key closes the modal.
    pub fn handle_key(&mut self, key: Key) -> (effect: OperationKeyEffect)
        ensures
            old(self)@.finished ==> effect == OperationKeyEffect::Dismiss && final(self)@ == old(
                self,
            )@,
            !old(self)@.finished && key == Key::Esc ==> effect == OperationKeyEffect::CancelRequested
                && final(self)@ == (RunView { cancel_requested: true, ..old(self)@ }),
            !old(self)@.finished && key != Key::Esc ==> effect == OperationKeyEffect::Nothing
                && final(self)@ == old(self)@,
            final(self).start_instant() == old(self).start_instant(),
            final(self).end_instant() == old(self).end_instant(),
    {
        if self.is_finished() {
            return OperationKeyEffect::Dismiss;
        }
        if key == Key::Esc {
            self.request_cancel();
            OperationKeyEffect::CancelRequested
        } else {
            OperationKeyEffect::Nothing
        }
    }
}

/// Answers a key while the progress modal is up; nothing else of the interface sees the
/// key. Once the run is over any key closes the modal: the run is handed back for its
/// follow-up and the cleaner stops showing a run in progress. Before that, Esc asks for a
/// cancellation between items and every other key is swallowed.
pub fn answer_run_key(
    operation: &mut Option<OperationRun>,
    cleaner: &mut CleanerState,
    key: Key,
) -> (closed: Option<OperationRun>)
    ensures
        match *old(operation) {
            None => closed is None && *final(operation) == *old(operation) && *final(cleaner)
                == *old(cleaner),
            Some(run) => if run@.finished {
                &&& closed == Some(run)
                &&& *final(operation) is None
                &&& *final(cleaner) == (CleanerState { running: false, ..*old(cleaner) })
            } else {
                &&& closed is None
                &&& *final(cleaner) == *old(cleaner)
                &&& *final(operation) matches Some(next) && next@ == (if key == Key::Esc {
                    RunView { cancel_requested: true, ..run@ }
                } else {
                    run@
                }) && next.start_instant() == run.start_instant() && next.end_instant()
                    == run.end_instant()
            },
        },
{
    match operation.take() {
        None => None,
        Some(mut run) => {
            if run.is_finished() {
                cleaner.running = false;
                Some(run)
            } else {
                run.handle_key(key);
                *operation = Some(run);
                None
            }
        },
    }
}

// ---------------------------------------------------------------------------------------
// What the modal says
// ---------------------------------------------------------------------------------------

/// The lines of the progress modal, as text and tone.
pub struct OperationLines {
    /// The label of the step bar.
    pub gauge: Vec<(String, Tone)>,
    /// What has been freed so far, and for how long the run has gone.
    pub stats: Vec<(String, Tone)>,
    /// The item being removed, or the summary of the finished run.
    pub current: Vec<(String, Tone)>,
    /// The file being removed, and how far the item got.
    pub detail: Vec<(String, Tone)>,
    /// The last items, oldest first.
    pub recent: Vec<Vec<(String, Tone)>>,
    pub hint: Vec<(String, Tone)>,
}

/// The glyph of a finished item.
pub open spec fn entry_glyph(status: EntryStatus) -> (Seq<char>, Tone) {
    match status {
        EntryStatus::Success => ("\u{2713}"@, Tone::Success),
        EntryStatus::Warning => ("\u{25b2}"@, Tone::Warning),
        EntryStatus::Failure => ("\u{2717}"@, Tone::Danger),
        EntryStatus::Cancelled => ("\u{25cb}"@, Tone::Muted),
    }
}

/// `room` less `used`, or nothing.
pub open spec fn room_left(room: nat, used: nat) -> nat {
    if room > used {
        (room - used) as nat
    } else {
        0
    }
}

/// The line of a finished item, in a line of `room` cells: its glyph, its label cut to what
/// its detail leaves (ten cells at least), and its detail.
pub open spec fn recent_line_spec(entry: EntryView, room: nat) -> Seq<(Seq<char>, Tone)> {
    let left = room_left(room, utf8_len(entry.1) + 6);
    let width = if left > 10 {
        left
    } else {
        10
    };
    let (glyph, tone) = entry_glyph(entry.2);
    seq![
        (glyph + " "@, tone),
        (fit_spec(entry.0, width, true), Tone::Text),
        ("  "@ + entry.1, Tone::Muted),
    ]
}

/// The summary of a finished run's report.
pub open spec fn report_summary(report: Option<ReportView>) -> Seq<char> {
    match report {
        Some(ReportView::Deletion(outcomes)) => run_summary(deletion_kinds(outcomes), " removed"@),
        Some(ReportView::Cleaning(outcomes, _)) => run_summary(cleaning_kinds(outcomes), " cleaned"@),
        None => Seq::empty(),
    }
}

/// How far the current item got: its size (`size`) and entries, once entries are removed.
pub open spec fn item_progress(v: RunView, size: Seq<char>) -> Seq<char> {
    if v.current_entries > 0 {
        "  "@ + size + " \u{b7} "@ + grouped(v.current_entries) + " entries"@
    } else {
        Seq::empty()
    }
}

/// Whether `lines` are what the modal says of the run `v`: `freed` and `elapsed` are the
/// space freed and the time gone, `item_size` the size removed of the current item, as the
/// interface writes them; `label_width`, `detail_room` and `recent_room` are the cells the
/// layout gives the current item, its detail line and each recent line; `tick` turns the
/// spinner.
pub open spec fn lines_spec(
    v: RunView,
    freed: Seq<char>,
    elapsed: Seq<char>,
    item_size: Seq<char>,
    label_width: nat,
    detail_room: nat,
    recent_room: nat,
    tick: int,
    lines: OperationLines,
) -> bool {
    &&& notice_view(lines.gauge@) == seq![
        (decimal(v.finished_count) + " / "@ + decimal(v.total) + " "@ + noun_spec(v.kind, v.total), Tone::Text),
    ]
    &&& notice_view(lines.stats@) == seq![
        if v.finished {
            ("\u{2713}"@, Tone::Success)
        } else {
            (spinner_frame(tick % 10), Tone::Key)
        },
        (
            "  "@ + freed + " freed \u{b7} "@ + grouped(
                capped(v.finished_entries + v.current_entries, u64::MAX as nat),
            ) + " entries removed \u{b7} "@ + elapsed,
            Tone::Text,
        ),
    ]
    &&& notice_view(lines.current@) == (if v.finished {
        seq![(report_summary(v.report), Tone::Text)]
    } else if v.current_index is Some {
        seq![("\u{25b6} "@, Tone::Key), (fit_spec(v.current_label, label_width, true), Tone::Directory)]
    } else {
        seq![("starting\u{2026}"@, Tone::Muted)]
    })
    &&& notice_view(lines.detail@) == (if !v.finished && v.current_index is Some {
        let progress = item_progress(v, item_size);
        seq![
            ("  "@, Tone::Faint),
            (fit_spec(v.current_detail, room_left(detail_room, utf8_len(progress) + 4), true), Tone::Muted),
            (progress, Tone::Muted),
        ]
    } else {
        Seq::empty()
    })
    &&& lines.recent@.len() == v.recent.len()
    &&& forall|i: int|
        0 <= i < v.recent.len() ==> notice_view(#[trigger] lines.recent@[i]@) == recent_line_spec(
            v.recent[i],
            recent_room,
        )
    &&& notice_view(lines.hint@) == (if v.finished {
        seq![("press any key to continue"@, Tone::Key)]
    } else if v.cancel_requested {
        seq![("cancelling after the current item\u{2026}"@, Tone::Warning)]
    } else {
        hint_parts_spec(
            seq![("esc"@, "cancel after the current item"@), ("ctrl+c"@, "abort the program"@)],
        )
    })
}

/// The list of recent items keeps the latest ones: after an item finishes, it is the last
/// of the list, and the list holds the last `RECENT_CAPACITY` items of what it held before
/// followed by the new one.
pub proof fn lemma_recent_keeps_the_latest(recent: Seq<EntryView>, entry: EntryView)
    requires
        recent.len() <= RECENT_CAPACITY,
    ensures
        ({
            let out = with_recent(recent, entry);
            let all = recent.push(entry);
            &&& out.len() <= RECENT_CAPACITY
            &&& out.last() == entry
            &&& out == all.subrange(
                if all.len() > RECENT_CAPACITY {
                    all.len() - RECENT_CAPACITY
                } else {
                    0
                },
                all.len() as int,
            )
        }),
{
    let out = with_recent(recent, entry);
    let all = recent.push(entry);
    if recent.len() >= RECENT_CAPACITY {
        assert(out =~= all.subrange(all.len() - RECENT_CAPACITY, all.len() as int));
    } else {
        assert(out =~= all.subrange(0, all.len() as int));
    }
}

/// The last `RECENT_CAPACITY` entries of `entries` (all of them when there are fewer).
pub open spec fn latest(entries: Seq<EntryView>) -> Seq<EntryView> {
    if entries.len() > RECENT_CAPACITY {
        entries.subrange(entries.len() - RECENT_CAPACITY, entries.len() as int)
    } else {
        entries
    }
}

/// The entries that the finished items of a batch of deletion messages add, in order.
pub open spec fn deletion_entries(messages: Seq<DeletionProgress>, home: Option<Seq<char>>) -> Seq<
    EntryView,
>
    decreases messages.len(),
{
    if messages.len() == 0 {
        Seq::empty()
    } else {
        let earlier = deletion_entries(messages.drop_last(), home);
        match messages.last() {
            DeletionProgress::ItemFinished { outcome } => earlier.push(deletion_entry(outcome, home)),
            _ => earlier,
        }
    }
}

/// The entries that the finished items of a batch of cleaning messages add, in order.
pub open spec fn cleaning_entries(messages: Seq<CleaningProgress>) -> Seq<EntryView>
    decreases messages.len(),
{
    if messages.len() == 0 {
        Seq::empty()
    } else {
        let earlier = cleaning_entries(messages.drop_last());
        match messages.last() {
            CleaningProgress::ItemFinished { outcome } => earlier.push(cleaning_entry(outcome)),
            _ => earlier,
        }
    }
}

/// Adding an entry to the latest entries of a list gives the latest entries of the longer
/// list.
proof fn lemma_latest_push(entries: Seq<EntryView>, entry: EntryView)
    ensures
        with_recent(latest(entries), entry) == latest(entries.push(entry)),
{
    let all = entries.push(entry);
    if entries.len() > RECENT_CAPACITY {
        assert(with_recent(latest(entries), entry) =~= all.subrange(
            all.len() - RECENT_CAPACITY,
            all.len() as int,
        ));
    } else if entries.len() == RECENT_CAPACITY {
        assert(with_recent(latest(entries), entry) =~= all.subrange(
            all.len() - RECENT_CAPACITY,
            all.len() as int,
        ));
    }
}

/// Over a whole batch of deletion messages, the list of recent items holds the latest of
/// what it held before followed by the items the batch finished, in the order they
/// finished; the file shown, the totals and the rest move as each message says.
pub proof fn lemma_deletion_batch_keeps_the_latest(v: RunView, messages: Seq<DeletionProgress>)
    requires
        v.recent.len() <= RECENT_CAPACITY,
    ensures
        deletion_steps(v, messages).recent == latest(v.recent + deletion_entries(messages, v.home)),
        deletion_steps(v, messages).home == v.home,
    decreases messages.len(),
{
    if messages.len() == 0 {
        assert(v.recent + deletion_entries(messages, v.home) =~= v.recent);
    } else {
        let earlier = messages.drop_last();
        lemma_deletion_batch_keeps_the_latest(v, earlier);
        let before = deletion_entries(earlier, v.home);
        match messages.last() {
            DeletionProgress::ItemFinished { outcome } => {
                let entry = deletion_entry(outcome, v.home);
                lemma_latest_push(v.recent + before, entry);
                assert((v.recent + before).push(entry) =~= v.recent + before.push(entry));
            },
            _ => {},
        }
    }
}

/// Over a whole batch of cleaning messages, the list of recent items holds the latest of
/// what it held before followed by the targets the batch finished, in the order they
/// finished.
pub proof fn lemma_cleaning_batch_keeps_the_latest(v: RunView, messages: Seq<CleaningProgress>)
    requires
        v.recent.len() <= RECENT_CAPACITY,
    ensures
        cleaning_steps(v, messages).recent == latest(v.recent + cleaning_entries(messages)),
    decreases messages.len(),
{
    if messages.len() == 0 {
        assert(v.recent + cleaning_entries(messages) =~= v.recent);
    } else {
        let earlier = messages.drop_last();
        lemma_cleaning_batch_keeps_the_latest(v, earlier);
        let before = cleaning_entries(earlier);
        match messages.last() {
            CleaningProgress::ItemFinished { outcome } => {
                let entry = cleaning_entry(outcome);
                lemma_latest_push(v.recent + before, entry);
                assert((v.recent + before).push(entry) =~= v.recent + before.push(entry));
            },
            _ => {},
        }
    }
}

impl OperationRun {
    /// What the progress modal says of the run; see `lines_spec` for the arguments.
    pub fn operation_lines(
        &self,
        freed_text: &str,
        elapsed_text: &str,
        item_size_text: &str,
        label_width: usize,
        detail_room: usize,
        recent_room: usize,
        tick: usize,
    ) -> (lines: OperationLines)
        ensures
            lines_spec(
                self@,
                freed_text@,
                elapsed_text@,
                item_size_text@,
                label_width as nat,
                detail_room as nat,
                recent_room as nat,
                tick as int,
                lines,
            ),
    {
        let finished = self.is_finished();
        let mut gauge_text = decimal_string(self.finished_count as u64);
        gauge_text.append(" / ");
        gauge_text.append(decimal_string(self.total as u64).as_str());
        gauge_text.append(" ");
        gauge_text.append(self.kind.noun(self.total));
        let mut gauge: Vec<(String, Tone)> = Vec::new();
        gauge.push((gauge_text, Tone::Text));
        assert(notice_view(gauge@) =~= seq![
            (decimal(self@.finished_count) + " / "@ + decimal(self@.total) + " "@ + noun_spec(self@.kind, self@.total), Tone::Text),
        ]);

        let mut stats: Vec<(String, Tone)> = Vec::new();
        if finished {
            stats.push((String::from_str("\u{2713}"), Tone::Success));
        } else {
            stats.push((String::from_str(spinner(tick)), Tone::Key));
        }
        let mut freed = String::from_str("  ");
        freed.append(freed_text);
        freed.append(" freed \u{b7} ");
        freed.append(count(self.entries_removed()).as_str());
        freed.append(" entries removed \u{b7} ");
        freed.append(elapsed_text);
        stats.push((freed, Tone::Text));

        let mut current: Vec<(String, Tone)> = Vec::new();
        let mut detail: Vec<(String, Tone)> = Vec::new();
        if finished {
            let summary = match &self.report {
                Some(OperationReport::Deletion(report)) => deletion_summary(report),
                Some(OperationReport::Cleaning(report)) => cleaning_summary(report),
                None => String::new(),
            };
            current.push((summary, Tone::Text));
        } else if self.current_index.is_some() {
            current.push((String::from_str("\u{25b6} "), Tone::Key));
            current.push((fit(self.current_label.as_str(), label_width, true), Tone::Directory));
            let progress = if self.current_entries > 0 {
                let mut t = String::from_str("  ");
                t.append(item_size_text);
                t.append(" \u{b7} ");
                t.append(count(self.current_entries).as_str());
                t.append(" entries");
                t
            } else {
                String::new()
            };
            let used = byte_len(&progress);
            let width = if detail_room > used && detail_room - used > 4 {
                detail_room - used - 4
            } else {
                0
            };
            detail.push((String::from_str("  "), Tone::Faint));
            detail.push((fit(self.current_detail.as_str(), width, true), Tone::Muted));
            detail.push((progress, Tone::Muted));
        } else {
            current.push((String::from_str("starting\u{2026}"), Tone::Muted));
        }
        proof {
            reveal_strlit("");
        }
        assert(notice_view(stats@) =~= seq![
            if self@.finished {
                ("\u{2713}"@, Tone::Success)
            } else {
                (spinner_frame((tick % 10) as int), Tone::Key)
            },
            (
                "  "@ + freed_text@ + " freed \u{b7} "@ + grouped(
                    capped(self@.finished_entries + self@.current_entries, u64::MAX as nat),
                ) + " entries removed \u{b7} "@ + elapsed_text@,
                Tone::Text,
            ),
        ]);
        assert(notice_view(current@) =~= (if self@.finished {
            seq![(report_summary(self@.report), Tone::Text)]
        } else if self@.current_index is Some {
            seq![("\u{25b6} "@, Tone::Key), (fit_spec(self@.current_label, label_width as nat, true), Tone::Directory)]
        } else {
            seq![("starting\u{2026}"@, Tone::Muted)]
        }));
        assert(notice_view(detail@) =~= (if !self@.finished && self@.current_index is Some {
            let progress = item_progress(self@, item_size_text@);
            seq![
                ("  "@, Tone::Faint),
                (fit_spec(self@.current_detail, room_left(detail_room as nat, utf8_len(progress) + 4), true), Tone::Muted),
                (progress, Tone::Muted),
            ]
        } else {
            Seq::empty()
        }));

        let mut recent: Vec<Vec<(String, Tone)>> = Vec::new();
        let mut i: usize = 0;
        while i < self.recent.len()
            invariant
                0 <= i <= self@.recent.len(),
                self@.recent.len() == self.recent@.len(),
                recent@.len() == i,
                forall|k: int|
                    0 <= k < i ==> notice_view(#[trigger] recent@[k]@) == recent_line_spec(
                        self@.recent[k],
                        recent_room as nat,
                    ),
            decreases self.recent@.len() - i,
        {
            let entry = &self.recent[i];
            let used = byte_len(&entry.detail);
            let left = if recent_room > used && recent_room - used > 6 {
                recent_room - used - 6
            } else {
                0
            };
            let width = if left > 10 {
                left
            } else {
                10
            };
            let (glyph, tone) = match entry.status {
                EntryStatus::Success => ("\u{2713}", Tone::Success),
                EntryStatus::Warning => ("\u{25b2}", Tone::Warning),
                EntryStatus::Failure => ("\u{2717}", Tone::Danger),
                EntryStatus::Cancelled => ("\u{25cb}", Tone::Muted),
            };
            let mut mark = String::from_str(glyph);
            mark.append(" ");
            let mut tail = String::from_str("  ");
            tail.append(entry.detail.as_str());
            let mut line: Vec<(String, Tone)> = Vec::new();
            line.push((mark, tone));
            line.push((fit(entry.label.as_str(), width, true), Tone::Text));
            line.push((tail, Tone::Muted));
            assert(self@.recent[i as int] == (entry.label@, entry.detail@, entry.status));
            assert(notice_view(line@) =~= recent_line_spec(self@.recent[i as int], recent_room as nat));
            let ghost earlier = recent@;
            recent.push(line);
            assert forall|k: int| 0 <= k <= i implies notice_view(#[trigger] recent@[k]@)
                == recent_line_spec(self@.recent[k], recent_room as nat) by {
                if k < i {
                    assert(recent@[k] == earlier[k]);
                }
            }
            i += 1;
        }

        let mut hint: Vec<(String, Tone)> = Vec::new();
        if finished {
            hint.push((String::from_str("press any key to continue"), Tone::Key));
        } else if self.cancel_requested {
            hint.push((String::from_str("cancelling after the current item\u{2026}"), Tone::Warning));
        } else {
            let hints: Vec<(&str, &str)> = vec![
                ("esc", "cancel after the current item"),
                ("ctrl+c", "abort the program"),
            ];
            hint = hint_parts(hints.as_slice());
            assert(crate::display::hint_texts(hints@) =~= seq![
                ("esc"@, "cancel after the current item"@),
                ("ctrl+c"@, "abort the program"@),
            ]);
        }
        assert(notice_view(hint@) =~= (if self@.finished {
            seq![("press any key to continue"@, Tone::Key)]
        } else if self@.cancel_requested {
            seq![("cancelling after the current item\u{2026}"@, Tone::Warning)]
        } else {
            hint_parts_spec(
                seq![("esc"@, "cancel after the current item"@), ("ctrl+c"@, "abort the program"@)],
            )
        }));
        OperationLines { gauge, stats, current, detail, recent, hint }
    }
}

} // verus!
