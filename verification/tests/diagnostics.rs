use tree_cleaner::command_line::CommandLineState;
use tree_cleaner::commands::Session;
use tree_cleaner::diagnostics::{config_path_dialog, statistics_dialog, ScannerFigures};
use tree_cleaner::dialogs::{Overlay, Severity};
use tree_cleaner::explorer::ExplorerState;
use tree_cleaner::marks::Marks;
use tree_cleaner::model::{DeletionMode, SizeBase, SizeMode};
use tree_cleaner::preferences::Preferences;
use tree_cleaner::screen::Screen;
use tree_cleaner::settings::SettingsState;
use tree_cleaner::theme::Theme;

fn session() -> Session {
    Session {
        screen: Screen::Explorer,
        overlay: None,
        status: None,
        explorer: ExplorerState::new(200),
        marks: Marks::default(),
        preferences: Preferences {
            theme_name: "terracotta".to_owned(),
            size_mode: SizeMode::Allocated,
            size_base: SizeBase::Decimal,
            show_files: true,
            row_limit: 200,
            heaviest_limit: 100,
            worker_threads: 8,
            dense_threshold: 20_000,
            materialize_depth: 3,
            background_root_scan: true,
            background_paused: false,
            deletion_mode: DeletionMode::Permanent,
            docker_enabled: true,
            docker_prune_containers: false,
            docker_prune_volumes: false,
            docker_prune_build_cache: false,
            discovery_max_depth: 6,
        },
        settings: SettingsState::new(),
        theme: Theme::terracotta(),
        truecolor: true,
        theme_overrides: Vec::new(),
        pending_foreground: None,
        should_quit: false,
        command_line: CommandLineState::default(),
        command_mode: false,
    }
}

fn figures() -> ScannerFigures {
    ScannerFigures {
        elapsed_text: "4.2 s".to_owned(),
        directories_listed: 12_345,
        files_measured: 1_234_567,
        bytes_text: "12.3 GB".to_owned(),
        files_per_second: 293_944,
        dense_directories: 2,
        unreadable_directories: 3,
        permission_denied: 1,
        hard_links_skipped: 1_000,
        worker_count: 8,
        busy_workers: 2,
        urgent_queue: 0,
        focused_queue: 14,
        background_queue: 250,
        background_paused: false,
        reader_name: "std".to_owned(),
        live_nodes: 54_321,
        roots: 2,
        events_applied: 99_999,
        dense_threshold: 20_000,
        materialize_depth: 3,
        max_depth: 64,
        mount_points: 5,
        focus: Some("/Users/me/src".to_owned()),
    }
}

#[test]
fn statistics_lines_read_like_a_table() {
    let dialog = statistics_dialog(&figures());
    assert_eq!(dialog.title, "Scanner statistics");
    assert_eq!(dialog.severity, Severity::Info);
    let expected = vec![
        "Elapsed              4.2 s",
        "Directories listed   12,345",
        "Files measured       1,234,567",
        "Bytes measured       12.3 GB",
        "Throughput           293,944 files/s",
        "Dense directories    2",
        "Unreadable           3 (1 permission denied)",
        "Hard links skipped   1,000",
        "",
        "Workers              8 (2 busy)",
        "Queue                urgent 0 \u{b7} focused 14 \u{b7} background 250",
        "Background paused    false",
        "Reader               std",
        "",
        "Tree nodes           54,321 live \u{b7} 2 roots",
        "Events applied       99,999",
        "Dense threshold      20,000 entries",
        "Materialise depth    3",
        "Max depth            64",
        "Mount points known   5",
        "Focus                /Users/me/src",
    ];
    assert_eq!(dialog.lines, expected);
}

#[test]
fn statistics_without_a_focus_say_none() {
    let mut f = figures();
    f.focus = None;
    f.background_paused = true;
    let dialog = statistics_dialog(&f);
    assert_eq!(dialog.lines[11], "Background paused    true");
    assert_eq!(dialog.lines[20], "Focus                none");
}

#[test]
fn config_dialog_says_whether_the_file_exists() {
    let there = config_path_dialog("~/.config/tree-cleaner/config.toml", true);
    assert_eq!(there.title, "Configuration");
    assert_eq!(there.severity, Severity::Info);
    assert_eq!(
        there.lines,
        vec![
            "~/.config/tree-cleaner/config.toml".to_owned(),
            String::new(),
            "The file exists. Edit it and restart to apply.".to_owned(),
        ]
    );
    let missing = config_path_dialog("/x/config.toml", false);
    assert_eq!(
        missing.lines[2],
        "The file does not exist yet. Use :config save to write the current settings."
    );
}

#[test]
fn session_shows_the_dialogs() {
    let mut s = session();
    s.show_statistics(&figures());
    assert!(matches!(&s.overlay, Some(Overlay::Message(d)) if d.title == "Scanner statistics"));
    s.show_config_path("/x/config.toml", true);
    assert!(matches!(&s.overlay, Some(Overlay::Message(d)) if d.title == "Configuration"));
}

#[test]
fn listing_mounts_opens_the_log() {
    let mut s = session();
    s.mounts_listed(7);
    let message = s.status.as_ref().expect("a status line");
    assert_eq!(message.text, "7 mount points written to the log (L)");
    assert_eq!(message.severity, Severity::Info);
    assert!(matches!(s.overlay, Some(Overlay::Log)));
    assert_eq!(s.screen, Screen::Explorer);
}
