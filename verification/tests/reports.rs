use tree_cleaner::command_line::CommandLineState;
use tree_cleaner::commands::Session;
use tree_cleaner::dialogs::{Confirmation, Overlay, PendingAction, Severity};
use tree_cleaner::explorer::ExplorerState;
use tree_cleaner::marks::Marks;
use tree_cleaner::model::{
    ByteSize, CandidateId, CleaningOutcome, CleaningReport, CleaningStatus, DeletionItem,
    DeletionMode, DeletionOutcome, DeletionReport, DeletionStatus, SizeBase, SizeMode,
};
use tree_cleaner::preferences::Preferences;
use tree_cleaner::reports::{
    cleaning_summary, deletion_summary, elevation_status, failures, needing_privileges,
    privileged_cleaning_report, reclaimed_total, size_total,
};
use tree_cleaner::screen::Screen;
use tree_cleaner::settings::SettingsState;
use tree_cleaner::theme::Theme;

fn session() -> Session {
    Session {
        screen: Screen::Explorer,
        overlay: None,
        status: None,
        explorer: ExplorerState::new(200),
        marks: Marks::default(),
        preferences: Preferences {
            theme_name: "terracotta".to_owned(),
            size_mode: SizeMode::Allocated,
            size_base: SizeBase::Decimal,
            show_files: true,
            row_limit: 200,
            heaviest_limit: 100,
            worker_threads: 8,
            dense_threshold: 20_000,
            materialize_depth: 3,
            background_root_scan: true,
            background_paused: false,
            deletion_mode: DeletionMode::Permanent,
            docker_enabled: true,
            docker_prune_containers: false,
            docker_prune_volumes: false,
            docker_prune_build_cache: false,
            discovery_max_depth: 6,
        },
        settings: SettingsState::new(),
        theme: Theme::terracotta(),
        truecolor: true,
        theme_overrides: Vec::new(),
        pending_foreground: None,
        should_quit: false,
        command_line: CommandLineState::default(),
        command_mode: false,
    }
}

fn outcome(path: &str, size: u64, status: DeletionStatus, reclaimed: u64) -> DeletionOutcome {
    DeletionOutcome {
        item: DeletionItem { path: path.to_owned(), size: ByteSize(size), is_directory: true, node: None },
        status,
        entries_removed: 1,
        reclaimed: ByteSize(reclaimed),
    }
}

fn mixed_report() -> DeletionReport {
    DeletionReport {
        outcomes: vec![
            outcome("/a", 1000, DeletionStatus::Removed, 1000),
            outcome("/b", 2000, DeletionStatus::MovedToTrash, 2000),
            outcome("/root/c", 4000, DeletionStatus::NeedsPrivileges, 0),
            outcome("/d", 10, DeletionStatus::Failed("busy".to_owned()), 5),
            outcome("/e", 10, DeletionStatus::Refused("protected".to_owned()), 0),
            outcome("/f", 10, DeletionStatus::Cancelled, 0),
        ],
    }
}

fn status(session: &Session) -> (&str, Severity) {
    let message = session.status.as_ref().expect("a status line");
    (message.text.as_str(), message.severity)
}

#[test]
fn deletion_summary_counts_each_outcome() {
    assert_eq!(
        deletion_summary(&mixed_report()),
        "2 removed \u{b7} 1 need sudo (asked next) \u{b7} 2 failed \u{b7} 1 cancelled"
    );
    assert_eq!(deletion_summary(&DeletionReport { outcomes: Vec::new() }), "0 removed");
}

#[test]
fn sums_of_a_deletion_run() {
    let report = mixed_report();
    assert_eq!(reclaimed_total(&report), ByteSize(3005));
    let needing = needing_privileges(&report);
    assert_eq!(needing.len(), 1);
    assert_eq!(needing[0].path, "/root/c");
    assert_eq!(size_total(&needing), ByteSize(4000));
    assert_eq!(failures(&report).len(), 2);
    let huge = vec![
        DeletionItem { path: "/x".to_owned(), size: ByteSize(u64::MAX), is_directory: false, node: None },
        DeletionItem { path: "/y".to_owned(), size: ByteSize(7), is_directory: false, node: None },
    ];
    assert_eq!(size_total(&huge), ByteSize(u64::MAX));
}

#[test]
fn privileged_items_are_asked_about_after_a_deletion() {
    let mut s = session();
    s.follow_up_deletion(&mixed_report(), "3.0 kB", "4.0 kB", "sudo");
    match &s.overlay {
        Some(Overlay::Confirm(dialog)) => {
            assert_eq!(dialog.title, "Administrator privileges required");
            assert_eq!(
                dialog.lines,
                vec![
                    "/root/c".to_owned(),
                    String::new(),
                    "1 items (4.0 kB) need administrator privileges.".to_owned(),
                    "Press y to run sudo in the terminal (you will be asked for your password), n to skip."
                        .to_owned(),
                ]
            );
            assert!(matches!(dialog.confirmation, Confirmation::YesKey));
            assert!(matches!(&dialog.action, PendingAction::ElevateDelete(items) if items.len() == 1));
            assert!(dialog.dangerous);
        }
        _ => panic!("expected the privileges question"),
    }
    assert_eq!(
        status(&s),
        ("2 items removed \u{b7} 3.0 kB reclaimed \u{b7} 1 cancelled", Severity::Success)
    );
}

#[test]
fn failures_are_listed_when_nothing_needs_privileges() {
    let mut s = session();
    let report = DeletionReport {
        outcomes: vec![
            outcome("/d", 10, DeletionStatus::Failed("busy".to_owned()), 0),
            outcome("/e", 10, DeletionStatus::Refused("protected".to_owned()), 0),
        ],
    };
    s.follow_up_deletion(&report, "0 B", "0 B", "sudo");
    match &s.overlay {
        Some(Overlay::Message(dialog)) => {
            assert_eq!(dialog.title, "2 items could not be deleted");
            assert_eq!(dialog.lines, vec!["/d: busy".to_owned(), "/e: protected".to_owned()]);
            assert_eq!(dialog.severity, Severity::Error);
        }
        _ => panic!("expected the failure list"),
    }
    assert_eq!(status(&s), ("0 items removed \u{b7} 0 B reclaimed", Severity::Warning));
}

#[test]
fn many_privileged_items_are_counted_after_ten() {
    let mut s = session();
    let outcomes: Vec<DeletionOutcome> =
        (0..12).map(|i| outcome(&format!("/p{i}"), 1, DeletionStatus::NeedsPrivileges, 0)).collect();
    s.follow_up_deletion(&DeletionReport { outcomes }, "0 B", "12 B", "sudo");
    match &s.overlay {
        Some(Overlay::Confirm(dialog)) => {
            assert_eq!(dialog.lines.len(), 10 + 1 + 3);
            assert_eq!(dialog.lines[9], "/p9");
            assert_eq!(dialog.lines[10], "\u{2026} and 2 more");
            assert_eq!(dialog.lines[12], "12 items (12 B) need administrator privileges.");
        }
        _ => panic!("expected the privileges question"),
    }
}

fn cleaning(label: &str, status: CleaningStatus, id: u32) -> CleaningOutcome {
    CleaningOutcome {
        candidate: CandidateId(id),
        label: label.to_owned(),
        status,
        detail: "no space left".to_owned(),
        reclaimed: ByteSize(0),
        entries_removed: 0,
    }
}

#[test]
fn cleaning_summary_and_follow_up() {
    let report = CleaningReport {
        outcomes: vec![
            cleaning("npm cache", CleaningStatus::Cleaned, 1),
            cleaning("old logs", CleaningStatus::Skipped("in use".to_owned()), 2),
            cleaning("docker", CleaningStatus::Failed("daemon".to_owned()), 3),
            cleaning("system caches", CleaningStatus::NeedsPrivileges, 4),
        ],
        reclaimed_estimate: ByteSize(500),
    };
    assert_eq!(
        cleaning_summary(&report),
        "1 cleaned \u{b7} 1 need sudo (asked next) \u{b7} 1 failed"
    );
    let mut s = session();
    s.follow_up_cleaning(
        &report,
        vec!["/Library/Caches/x".to_owned()],
        vec!["/private/var/log".to_owned()],
        "500 B",
        "sudo",
    );
    match &s.overlay {
        Some(Overlay::Confirm(dialog)) => {
            assert_eq!(dialog.lines[0], "/Library/Caches/x");
            assert_eq!(dialog.lines[1], "/private/var/log/*");
            assert_eq!(dialog.lines[2], "");
            assert_eq!(dialog.lines.len(), 4);
            match &dialog.action {
                PendingAction::ElevateClean { candidates, .. } => {
                    assert_eq!(candidates, &vec![CandidateId(4)])
                }
                _ => panic!("expected a privileged cleaning"),
            }
        }
        _ => panic!("expected the privileges question"),
    }
    assert_eq!(
        status(&s),
        ("1 cleaned \u{b7} about 500 B reclaimed \u{b7} 1 failed", Severity::Success)
    );

    let failing = CleaningReport {
        outcomes: vec![cleaning("docker", CleaningStatus::Failed("daemon".to_owned()), 3)],
        reclaimed_estimate: ByteSize(0),
    };
    let mut t = session();
    t.follow_up_cleaning(&failing, Vec::new(), Vec::new(), "0 B", "sudo");
    match &t.overlay {
        Some(Overlay::Message(dialog)) => {
            assert_eq!(dialog.title, "1 items failed");
            assert_eq!(dialog.lines, vec!["docker: no space left".to_owned()]);
        }
        _ => panic!("expected the failure list"),
    }
    assert_eq!(status(&t), ("0 cleaned \u{b7} about 0 B reclaimed \u{b7} 1 failed", Severity::Warning));
}

#[test]
fn the_lists_after_a_run_hold_what_the_summary_counts() {
    let report = mixed_report();
    let summary = deletion_summary(&report);
    assert!(summary.contains(&format!("{} failed", failures(&report).len())));
    assert!(summary.contains(&format!("{} need sudo", needing_privileges(&report).len())));
    let counted: usize = summary
        .split(" \u{b7} ")
        .map(|part| part.split(' ').next().unwrap().parse::<usize>().unwrap())
        .sum();
    assert_eq!(counted, report.outcomes.len());
}

#[test]
fn status_after_the_privileged_part() {
    let items = needing_privileges(&mixed_report());
    let delete = PendingAction::ElevateDelete(items);
    assert_eq!(
        elevation_status(&delete, Ok(()), "4.0 kB"),
        ("1 items removed with privileges \u{b7} 4.0 kB".to_owned(), Severity::Success)
    );
    assert_eq!(
        elevation_status(&delete, Err("wrong password".to_owned()), ""),
        ("privileged deletion failed: wrong password".to_owned(), Severity::Error)
    );
    let clean = PendingAction::ElevateClean {
        whole: vec!["/a".to_owned()],
        contents: Vec::new(),
        candidates: vec![CandidateId(1), CandidateId(2)],
    };
    assert_eq!(
        elevation_status(&clean, Ok(()), ""),
        ("2 locations cleaned with privileges".to_owned(), Severity::Success)
    );
    assert_eq!(
        elevation_status(&clean, Err("denied".to_owned()), ""),
        ("privileged cleaning failed: denied".to_owned(), Severity::Error)
    );
    assert_eq!(
        elevation_status(&PendingAction::Quit, Ok(()), ""),
        ("nothing to do".to_owned(), Severity::Info)
    );
}

#[test]
fn locations_cleaned_with_privileges_are_reported_cleaned() {
    let report = privileged_cleaning_report(&[CandidateId(3), CandidateId(8)]);
    assert_eq!(report.outcomes.len(), 2);
    assert_eq!(report.outcomes[1].candidate, CandidateId(8));
    assert!(matches!(report.outcomes[0].status, CleaningStatus::Cleaned));
    assert_eq!(report.reclaimed_estimate, ByteSize(0));
    assert_eq!(cleaning_summary(&report), "2 cleaned");
}
