use tree_cleaner::command_line::CommandLineState;
use tree_cleaner::commands::Session;
use tree_cleaner::dialogs::{Confirmation, Overlay, PendingAction, Severity};
use tree_cleaner::explorer::{ExplorerRow, ExplorerState, RowBadge, RowKey};
use tree_cleaner::marks::{MarkedItem, Marks};
use tree_cleaner::model::{
    ByteSize, CandidateId, CleaningPlan, CleaningTarget, DeletionItem, DeletionMode, DeletionPlan,
    NodeId, SizeBase, SizeMode,
};
use tree_cleaner::preferences::Preferences;
use tree_cleaner::panels::HeaviestState;
use tree_cleaner::requests::{cleaning_question, deletion_question, estimated_reclaim, padded_left};
use tree_cleaner::screen::Screen;
use tree_cleaner::settings::SettingsState;
use tree_cleaner::theme::Theme;

fn session(screen: Screen) -> Session {
    Session {
        screen,
        overlay: None,
        status: None,
        explorer: ExplorerState::new(200),
        marks: Marks::default(),
        preferences: Preferences {
            theme_name: "terracotta".to_owned(),
            size_mode: SizeMode::Allocated,
            size_base: SizeBase::Decimal,
            show_files: true,
            row_limit: 200,
            heaviest_limit: 100,
            worker_threads: 8,
            dense_threshold: 20_000,
            materialize_depth: 3,
            background_root_scan: true,
            background_paused: false,
            deletion_mode: DeletionMode::Trash,
            docker_enabled: true,
            docker_prune_containers: false,
            docker_prune_volumes: false,
            docker_prune_build_cache: false,
            discovery_max_depth: 6,
        },
        settings: SettingsState::new(),
        theme: Theme::terracotta(),
        truecolor: true,
        theme_overrides: Vec::new(),
        pending_foreground: None,
        should_quit: false,
        command_line: CommandLineState::default(),
        command_mode: false,
    }
}

fn row(name: &str) -> ExplorerRow {
    ExplorerRow {
        key: RowKey::Directory(NodeId(7)),
        name: name.to_owned(),
        path: format!("/home/u/{name}"),
        size: ByteSize(2048),
        items: Some(3),
        badge: RowBadge::Complete,
        is_directory: true,
        marked: false,
    }
}

fn item(path: &str) -> DeletionItem {
    DeletionItem { path: path.to_owned(), size: ByteSize(1000), is_directory: false, node: None }
}

#[test]
fn sizes_are_right_aligned_in_ten_columns() {
    assert_eq!(padded_left("1.2 GB", 10), "    1.2 GB");
    assert_eq!(padded_left("123456789012", 10), "123456789012");
    assert_eq!(padded_left("", 3), "   ");
}

#[test]
fn permanent_deletion_needs_yes_typed() {
    let plan = DeletionPlan::new(vec![item("/home/u/cache"), item("/tmp/old")], DeletionMode::Permanent);
    let sizes = vec!["1.0 kB".to_owned(), "1.0 kB".to_owned()];
    let dialog = deletion_question(plan, &sizes, "2.0 kB", Some("/home/u"));
    assert_eq!(dialog.title, "Delete");
    assert_eq!(
        dialog.lines,
        vec![
            "    1.0 kB  ~/cache".to_owned(),
            "    1.0 kB  /tmp/old".to_owned(),
            String::new(),
            "2 items \u{b7} 2.0 kB \u{b7} mode: permanent".to_owned(),
            String::new(),
            "Type  yes  and press Enter to delete permanently. Esc cancels.".to_owned(),
        ]
    );
    match &dialog.confirmation {
        Confirmation::TypedWord { expected, typed } => {
            assert_eq!(expected, "yes");
            assert_eq!(typed, "");
        }
        _ => panic!("a permanent deletion asks for a typed word"),
    }
    assert!(dialog.dangerous);
    assert!(matches!(dialog.action, PendingAction::Delete(ref p) if p.items.len() == 2));
}

#[test]
fn trash_lists_twelve_items_and_counts_the_rest() {
    let items: Vec<DeletionItem> = (0..14).map(|i| item(&format!("/data/f{i}"))).collect();
    let sizes: Vec<String> = (0..14).map(|_| "1 kB".to_owned()).collect();
    let plan = DeletionPlan::new(items, DeletionMode::Trash);
    let dialog = deletion_question(plan, &sizes, "14 kB", None);
    assert_eq!(dialog.lines.len(), 12 + 1 + 4);
    assert_eq!(dialog.lines[0], "      1 kB  /data/f0");
    assert_eq!(dialog.lines[11], "      1 kB  /data/f11");
    assert_eq!(dialog.lines[12], "\u{2026} and 2 more");
    assert_eq!(dialog.lines[14], "14 items \u{b7} 14 kB \u{b7} mode: trash");
    assert_eq!(dialog.lines[16], "Press y to move to the Trash, n or Esc to cancel.");
    assert!(matches!(dialog.confirmation, Confirmation::YesKey));
    assert!(!dialog.dangerous);
}

#[test]
fn a_deletion_waits_for_the_running_operation() {
    let mut s = session(Screen::Explorer);
    let mut heaviest: HeaviestState<String> = HeaviestState::new(100);
    s.explorer.rows.push(row("cache"));
    assert!(!s.deletion_ready(true, &mut heaviest, None));
    let status = s.status.as_ref().expect("a status line");
    assert_eq!(status.text, "a deletion is already running");
    assert_eq!(status.severity, Severity::Warning);
    assert_eq!(s.marks.len(), 0);
}

#[test]
fn with_no_marks_the_row_under_the_cursor_is_marked_first() {
    let mut heaviest: HeaviestState<String> = HeaviestState::new(100);
    let mut s = session(Screen::Explorer);
    assert!(!s.deletion_ready(false, &mut heaviest, None));
    s.explorer.rows.push(row("cache"));
    assert!(s.deletion_ready(false, &mut heaviest, None));
    assert_eq!(s.marks.len(), 1);
    assert!(s.deletion_ready(false, &mut heaviest, None));
    assert_eq!(s.marks.len(), 1);

    let mut elsewhere = session(Screen::Dashboard);
    elsewhere.explorer.rows.push(row("cache"));
    assert!(!elsewhere.deletion_ready(false, &mut heaviest, None));
    let item = MarkedItem { size: ByteSize(1), is_directory: false, node: None, parent_node: None };
    elsewhere.marks.toggle("/home/u/x".to_owned(), item);
    assert!(elsewhere.deletion_ready(false, &mut heaviest, None));
}

#[test]
fn in_the_heaviest_view_the_file_under_the_cursor_is_marked_first() {
    let mut heaviest: HeaviestState<String> = HeaviestState::new(100);
    heaviest.rows.push("/data/big.iso".to_owned());
    heaviest.rows.push("/data/old.zip".to_owned());
    let mut s = session(Screen::Heaviest);
    assert!(!s.deletion_ready(false, &mut heaviest, None));
    let item = MarkedItem { size: ByteSize(9), is_directory: false, node: None, parent_node: Some(NodeId(3)) };
    assert!(s.deletion_ready(false, &mut heaviest, Some(("/data/big.iso".to_owned(), item))));
    assert!(s.marks.contains("/data/big.iso"));
    assert_eq!(heaviest.selected, 1);
    assert_eq!(s.toggle_mark_on_heaviest(&mut heaviest, Some(("/data/big.iso".to_owned(), item))), Some(false));
    assert_eq!(s.marks.len(), 0);
    assert_eq!(heaviest.selected, 1);
    assert_eq!(s.toggle_mark_on_heaviest(&mut heaviest, None), None);
}

#[test]
fn asking_puts_the_question_on_screen() {
    let mut s = session(Screen::Explorer);
    let plan = DeletionPlan::new(vec![item("/home/u/cache")], DeletionMode::Trash);
    s.ask_deletion(plan, &["1.0 kB".to_owned()], "1.0 kB", Some("/home/u"));
    match &s.overlay {
        Some(Overlay::Confirm(dialog)) => assert_eq!(dialog.lines[0], "    1.0 kB  ~/cache"),
        _ => panic!("expected the deletion question"),
    }
}

fn target(id: u32, label: &str, size: Option<u64>, requires_privileges: bool) -> CleaningTarget {
    CleaningTarget { id: CandidateId(id), label: label.to_owned(), size: size.map(ByteSize), requires_privileges }
}

#[test]
fn cleaning_question_lists_targets_and_asks_for_yes() {
    let plan = CleaningPlan {
        candidates: vec![
            target(1, "npm cache", Some(2_000_000), false),
            target(2, "Xcode DerivedData", None, true),
        ],
    };
    assert_eq!(estimated_reclaim(&plan), ByteSize(2_000_000));
    let sizes = vec!["2.0 MB".to_owned(), "unused".to_owned()];
    let dialog = cleaning_question(plan, &sizes, "2.0 MB");
    assert_eq!(dialog.title, "Clean");
    assert_eq!(
        dialog.lines,
        vec![
            "    2.0 MB  npm cache".to_owned(),
            "         ?  Xcode DerivedData".to_owned(),
            String::new(),
            "2 items \u{b7} about 2.0 MB to reclaim \u{b7} some need sudo".to_owned(),
            String::new(),
            "Type  yes  and press Enter to clean. Esc cancels.".to_owned(),
        ]
    );
    assert!(matches!(&dialog.confirmation, Confirmation::TypedWord { expected, typed } if expected == "yes" && typed.is_empty()));
    assert!(dialog.dangerous);
}

#[test]
fn long_cleaning_plans_count_the_rest() {
    let candidates: Vec<CleaningTarget> = (0..16).map(|i| target(i, &format!("t{i}"), Some(1), false)).collect();
    let sizes: Vec<String> = (0..16).map(|_| "1 B".to_owned()).collect();
    let dialog = cleaning_question(CleaningPlan { candidates }, &sizes, "16 B");
    assert_eq!(dialog.lines.len(), 14 + 1 + 4);
    assert_eq!(dialog.lines[14], "\u{2026} and 2 more");
    assert_eq!(dialog.lines[16], "16 items \u{b7} about 16 B to reclaim");
}

#[test]
fn a_cleaning_request_needs_a_selection_and_no_running_operation() {
    let mut s = session(Screen::Cleaner);
    s.request_cleaning(true, CleaningPlan { candidates: vec![target(1, "a", Some(1), false)] }, &["1 B".to_owned()], "1 B");
    assert_eq!(s.status.as_ref().map(|m| m.text.as_str()), Some("a cleaning run is already in progress"));
    assert!(s.overlay.is_none());
    s.request_cleaning(false, CleaningPlan { candidates: Vec::new() }, &[], "0 B");
    assert_eq!(s.status.as_ref().map(|m| m.text.as_str()), Some("nothing selected"));
    assert!(s.overlay.is_none());
    s.request_cleaning(false, CleaningPlan { candidates: vec![target(1, "a", Some(1), false)] }, &["1 B".to_owned()], "1 B");
    assert!(matches!(&s.overlay, Some(Overlay::Confirm(dialog)) if dialog.title == "Clean"));
}
