use tree_cleaner::keys::Key;
use tree_cleaner::operation::{answer_run_key, OperationKeyEffect};
use tree_cleaner::notice::Tone;
use tree_cleaner::panels::CleanerState;
use tree_cleaner::model::{
    ByteSize, CandidateId, CleaningOutcome, CleaningReport, CleaningStatus, DeletionItem, DeletionOutcome,
    DeletionReport, DeletionStatus,
};
use tree_cleaner::operation::{
    CleaningProgress, DeletionProgress, EntryStatus, OperationKind, OperationMessages, OperationReport,
    OperationRun, RECENT_CAPACITY,
};

fn deletion_item(path: &str) -> DeletionItem {
    DeletionItem { path: path.to_owned(), size: ByteSize(10), is_directory: false, node: None }
}

fn removed(path: &str, entries: u64, bytes: u64) -> DeletionOutcome {
    DeletionOutcome {
        item: deletion_item(path),
        status: DeletionStatus::Removed,
        entries_removed: entries,
        reclaimed: ByteSize(bytes),
    }
}

#[test]
fn titles() {
    let run = OperationRun::new(OperationKind::Deletion, 3, None);
    assert_eq!(run.title(), "Deleting 3 items");
    let run = OperationRun::new(OperationKind::Cleaning, 1, None);
    assert_eq!(run.title(), "Cleaning 1 target");
    assert_eq!(OperationKind::Deletion.noun(1), "item");
    assert_eq!(OperationKind::Cleaning.noun(0), "targets");
    assert_eq!(OperationKind::Cleaning.verb(), "Cleaning");
}

#[test]
fn deletion_progress_is_counted() {
    let mut run = OperationRun::new(OperationKind::Deletion, 2, Some("/Users/me".to_owned()));
    let report = run.drain(OperationMessages::Deletion(vec![
        DeletionProgress::Started { total: 2 },
        DeletionProgress::ItemStarted { index: 0, path: "/Users/me/a".to_owned() },
        DeletionProgress::ItemProgress { entries_removed: 4, bytes_removed: 400, current: "/Users/me/a/x".to_owned() },
    ]));
    assert!(report.is_none());
    assert_eq!(run.current_index, Some(0));
    assert_eq!(run.current_label, "~/a");
    assert_eq!(run.current_detail, "~/a/x");
    assert_eq!(run.bytes_reclaimed(), 400);
    assert_eq!(run.entries_removed(), 4);
    run.drain(OperationMessages::Deletion(vec![DeletionProgress::ItemFinished {
        outcome: removed("/Users/me/a", 5, 500),
    }]));
    assert_eq!(run.finished_count, 1);
    assert_eq!(run.current_index, None);
    assert_eq!(run.bytes_reclaimed(), 500);
    assert_eq!(run.entries_removed(), 5);
    assert_eq!(run.recent.len(), 1);
    assert_eq!(run.recent[0].label, "~/a");
    assert_eq!(run.recent[0].detail, "removed");
    assert_eq!(run.recent[0].status, EntryStatus::Success);
    assert!(!run.is_finished());
}

#[test]
fn finishing_returns_the_report_once() {
    let mut run = OperationRun::new(OperationKind::Deletion, 2, None);
    let report = DeletionReport { outcomes: vec![removed("/a", 1, 1)] };
    let first = run.drain(OperationMessages::Deletion(vec![DeletionProgress::Finished(report)]));
    assert!(matches!(first, Some(OperationReport::Deletion(ref r)) if r.outcomes.len() == 1));
    assert!(run.is_finished());
    assert_eq!(run.finished_count, 2);
    assert_eq!(run.title(), "Deleting finished");
    assert!(run.report.is_some());
    assert!(run.drain(OperationMessages::Deletion(Vec::new())).is_none());
}

#[test]
fn statuses_of_deleted_items() {
    let mut run = OperationRun::new(OperationKind::Deletion, 4, None);
    let statuses = vec![
        DeletionStatus::MovedToTrash,
        DeletionStatus::NeedsPrivileges,
        DeletionStatus::Cancelled,
        DeletionStatus::Refused("critical location".to_owned()),
    ];
    let messages = statuses
        .into_iter()
        .map(|status| DeletionProgress::ItemFinished {
            outcome: DeletionOutcome { item: deletion_item("/p"), status, entries_removed: 0, reclaimed: ByteSize(0) },
        })
        .collect();
    run.drain(OperationMessages::Deletion(messages));
    let shown: Vec<(&str, EntryStatus)> = run.recent.iter().map(|entry| (entry.detail.as_str(), entry.status)).collect();
    assert_eq!(
        shown,
        vec![
            ("moved to Trash", EntryStatus::Success),
            ("needs sudo", EntryStatus::Warning),
            ("cancelled", EntryStatus::Cancelled),
            ("critical location", EntryStatus::Failure),
        ]
    );
    assert_eq!(run.finished_count, 4);
}

#[test]
fn recent_keeps_the_last_six() {
    let mut run = OperationRun::new(OperationKind::Deletion, 10, None);
    let messages = (0..9)
        .map(|index| DeletionProgress::ItemFinished { outcome: removed(&format!("/f{index}"), 1, 1) })
        .collect();
    run.drain(OperationMessages::Deletion(messages));
    assert_eq!(run.recent.len(), RECENT_CAPACITY);
    assert_eq!(run.recent[0].label, "/f3");
    assert_eq!(run.recent[RECENT_CAPACITY - 1].label, "/f8");
    assert_eq!(run.finished_count, 9);
    assert_eq!(run.bytes_reclaimed(), 9);
}

#[test]
fn finished_count_never_passes_the_total() {
    let mut run = OperationRun::new(OperationKind::Deletion, 1, None);
    let messages = (0..3)
        .map(|index| DeletionProgress::ItemFinished { outcome: removed(&format!("/f{index}"), 1, 1) })
        .collect();
    run.drain(OperationMessages::Deletion(messages));
    assert_eq!(run.finished_count, 1);
}

#[test]
fn cleaning_progress() {
    let mut run = OperationRun::new(OperationKind::Cleaning, 2, None);
    run.drain(OperationMessages::Cleaning(vec![
        CleaningProgress::ItemStarted { index: 1, label: "npm cache".to_owned() },
        CleaningProgress::ItemFinished {
            outcome: CleaningOutcome {
                candidate: CandidateId(1),
                label: "npm cache".to_owned(),
                status: CleaningStatus::Cleaned,
                detail: "3 files".to_owned(),
                reclaimed: ByteSize(300),
                entries_removed: 3,
            },
        },
        CleaningProgress::ItemFinished {
            outcome: CleaningOutcome {
                candidate: CandidateId(2),
                label: "docker".to_owned(),
                status: CleaningStatus::Skipped("docker is not running".to_owned()),
                detail: String::new(),
                reclaimed: ByteSize(0),
                entries_removed: 0,
            },
        },
    ]));
    assert_eq!(run.recent[0].detail, "3 files");
    assert_eq!(run.recent[1].detail, "docker is not running");
    assert_eq!(run.recent[1].status, EntryStatus::Warning);
    assert_eq!(run.bytes_reclaimed(), 300);
    let report = CleaningReport { outcomes: Vec::new(), reclaimed_estimate: ByteSize(1) };
    let finished = run.drain(OperationMessages::Cleaning(vec![CleaningProgress::Finished(report)]));
    assert!(matches!(finished, Some(OperationReport::Cleaning(_))));
}

#[test]
fn cancel_only_while_running() {
    let mut run = OperationRun::new(OperationKind::Deletion, 1, None);
    assert!(run.request_cancel());
    assert!(run.cancel_requested);
    run.drain(OperationMessages::Deletion(vec![DeletionProgress::Finished(DeletionReport { outcomes: Vec::new() })]));
    assert!(!run.request_cancel());
}

#[test]
fn keys_while_running_and_after() {
    let mut run = OperationRun::new(OperationKind::Deletion, 1, None);
    assert_eq!(run.handle_key(Key::Char('q')), OperationKeyEffect::Nothing);
    assert!(!run.cancel_requested);
    assert_eq!(run.handle_key(Key::Esc), OperationKeyEffect::CancelRequested);
    assert!(run.cancel_requested);
    run.drain(OperationMessages::Deletion(vec![DeletionProgress::Finished(DeletionReport { outcomes: Vec::new() })]));
    assert_eq!(run.handle_key(Key::Char('x')), OperationKeyEffect::Dismiss);
}

#[test]
fn elapsed_counts_from_the_start() {
    let run = OperationRun::new(OperationKind::Deletion, 3, None);
    let later = run.started_at + std::time::Duration::from_secs(5);
    assert_eq!(run.elapsed_at(later), std::time::Duration::from_secs(5));
    assert_eq!(run.elapsed_at(run.started_at), std::time::Duration::ZERO);
    assert!(run.elapsed() < std::time::Duration::from_secs(60));
}

fn texts(parts: &[(String, Tone)]) -> Vec<(&str, Tone)> {
    parts.iter().map(|(text, tone)| (text.as_str(), *tone)).collect()
}

#[test]
fn the_modal_lines_of_a_run() {
    let mut run = OperationRun::new(OperationKind::Deletion, 2, Some("/Users/me".to_owned()));
    let lines = run.operation_lines("0 B", "0s", "0 B", 40, 60, 60, 0);
    assert_eq!(texts(&lines.gauge), vec![("0 / 2 items", Tone::Text)]);
    assert_eq!(texts(&lines.current), vec![("starting\u{2026}", Tone::Muted)]);
    assert!(lines.detail.is_empty());
    assert_eq!(lines.hint[0].0, "esc");
    run.drain(OperationMessages::Deletion(vec![
        DeletionProgress::ItemStarted { index: 0, path: "/Users/me/a".to_owned() },
        DeletionProgress::ItemProgress { entries_removed: 1500, bytes_removed: 10, current: "/Users/me/a/x".to_owned() },
    ]));
    let lines = run.operation_lines("10 B", "1s", "10 B", 40, 60, 60, 0);
    assert_eq!(texts(&lines.current), vec![("\u{25b6} ", Tone::Key), ("~/a", Tone::Directory)]);
    assert_eq!(lines.detail[1].0, "~/a/x");
    assert_eq!(lines.detail[2].0, "  10 B \u{b7} 1,500 entries");
    assert_eq!(lines.stats[1].0, "  10 B freed \u{b7} 1,500 entries removed \u{b7} 1s");
    run.drain(OperationMessages::Deletion(vec![
        DeletionProgress::ItemFinished { outcome: removed("/Users/me/a", 1500, 10) },
        DeletionProgress::Finished(DeletionReport { outcomes: vec![removed("/Users/me/a", 1500, 10)] }),
    ]));
    let lines = run.operation_lines("10 B", "2s", "0 B", 40, 60, 60, 0);
    assert_eq!(texts(&lines.stats)[0], ("\u{2713}", Tone::Success));
    assert_eq!(texts(&lines.current), vec![("1 removed", Tone::Text)]);
    assert_eq!(lines.recent.len(), 1);
    assert_eq!(texts(&lines.recent[0]), vec![("\u{2713} ", Tone::Success), ("~/a", Tone::Text), ("  removed", Tone::Muted)]);
    assert_eq!(texts(&lines.hint), vec![("press any key to continue", Tone::Key)]);
}

#[test]
fn keys_on_the_modal_close_it_once_the_run_is_over() {
    let mut cleaner = CleanerState::default();
    let mut none: Option<OperationRun> = None;
    assert!(answer_run_key(&mut none, &mut cleaner, Key::Esc).is_none());
    let mut operation = Some(OperationRun::new(OperationKind::Cleaning, 1, None));
    cleaner.running = true;
    assert!(answer_run_key(&mut operation, &mut cleaner, Key::Char('x')).is_none());
    assert!(!operation.as_ref().unwrap().cancel_requested);
    assert!(answer_run_key(&mut operation, &mut cleaner, Key::Esc).is_none());
    assert!(operation.as_ref().unwrap().cancel_requested);
    assert!(cleaner.running);
    operation.as_mut().unwrap().drain(OperationMessages::Cleaning(vec![CleaningProgress::Finished(
        CleaningReport { outcomes: Vec::new(), reclaimed_estimate: ByteSize(0) },
    )]));
    let closed = answer_run_key(&mut operation, &mut cleaner, Key::Char('x'));
    assert!(closed.is_some());
    assert!(operation.is_none());
    assert!(!cleaner.running);
}
