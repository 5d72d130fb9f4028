use tree_cleaner::command_line::CommandLineState;
use tree_cleaner::commands::Session;
use tree_cleaner::dialogs::Severity;
use tree_cleaner::explorer::ExplorerState;
use tree_cleaner::marks::Marks;
use tree_cleaner::model::{ByteSize, CleaningReport, DeletionMode, NodeId, QueryId, SizeBase, SizeMode};
use tree_cleaner::navigation::{HeaviestRequest, ScreenSwitch};
use tree_cleaner::panels::{CleanerState, HeaviestState};
use tree_cleaner::preferences::Preferences;
use tree_cleaner::screen::Screen;
use tree_cleaner::settings::SettingsState;
use tree_cleaner::theme::Theme;

fn session() -> Session {
    Session {
        screen: Screen::Dashboard,
        overlay: None,
        status: None,
        explorer: ExplorerState::new(200),
        marks: Marks::default(),
        preferences: Preferences {
            theme_name: "terracotta".to_owned(),
            size_mode: SizeMode::Allocated,
            size_base: SizeBase::Decimal,
            show_files: true,
            row_limit: 200,
            heaviest_limit: 100,
            worker_threads: 8,
            dense_threshold: 20_000,
            materialize_depth: 3,
            background_root_scan: true,
            background_paused: false,
            deletion_mode: DeletionMode::Permanent,
            docker_enabled: true,
            docker_prune_containers: false,
            docker_prune_volumes: false,
            docker_prune_build_cache: false,
            discovery_max_depth: 6,
        },
        settings: SettingsState::new(),
        theme: Theme::terracotta(),
        truecolor: true,
        theme_overrides: Vec::new(),
        pending_foreground: None,
        should_quit: false,
        command_line: CommandLineState::default(),
        command_mode: false,
    }
}

fn status(session: &Session) -> (&str, Severity) {
    let message = session.status.as_ref().expect("a status line");
    (message.text.as_str(), message.severity)
}

#[test]
fn the_files_view_needs_an_open_directory() {
    let mut s = session();
    let mut heaviest: HeaviestState<String> = HeaviestState::new(100);
    assert_eq!(s.start_heaviest_query(&mut heaviest, Some(50)), None);
    assert_eq!(status(&s), ("open a directory first", Severity::Warning));
    assert_eq!(s.screen, Screen::Dashboard);
    assert_eq!(heaviest.limit, 100);
}

#[test]
fn a_new_search_replaces_the_previous_one() {
    let mut s = session();
    s.explorer.current = Some(NodeId(4));
    let mut heaviest: HeaviestState<String> = HeaviestState::new(100);
    heaviest.query = Some(QueryId(9));
    heaviest.rows.push("old".to_owned());
    heaviest.selected = 1;
    assert_eq!(
        s.start_heaviest_query(&mut heaviest, Some(1)),
        Some(HeaviestRequest { origin: NodeId(4), limit: 5, cancel: Some(QueryId(9)) })
    );
    assert_eq!(heaviest.query, None);
    assert_eq!(heaviest.origin, Some(NodeId(4)));
    assert!(heaviest.rows.is_empty());
    assert_eq!(heaviest.selected, 0);
    assert_eq!(s.screen, Screen::Heaviest);
    assert_eq!(
        s.start_heaviest_query(&mut heaviest, Some(50_000)),
        Some(HeaviestRequest { origin: NodeId(4), limit: 10_000, cancel: None })
    );
    assert_eq!(
        s.start_heaviest_query(&mut heaviest, None),
        Some(HeaviestRequest { origin: NodeId(4), limit: 10_000, cancel: None })
    );
}

#[test]
fn switching_screens_starts_what_they_need() {
    let mut s = session();
    s.explorer.current = Some(NodeId(2));
    let mut cleaner = CleanerState::default();
    cleaner.last_report = Some(CleaningReport { outcomes: Vec::new(), reclaimed_estimate: ByteSize(0) });
    let mut heaviest: HeaviestState<String> = HeaviestState::new(100);

    assert_eq!(s.switch_screen(Screen::Cleaner, false, &mut cleaner, &mut heaviest), ScreenSwitch::RestartCleaner);
    assert_eq!(s.screen, Screen::Cleaner);
    assert!(cleaner.last_report.is_none());
    assert_eq!(status(&s), ("looking for reclaimable space\u{2026}", Severity::Info));

    assert_eq!(s.switch_screen(Screen::Explorer, true, &mut cleaner, &mut heaviest), ScreenSwitch::Nothing);
    assert_eq!(s.screen, Screen::Explorer);

    assert_eq!(
        s.switch_screen(Screen::Heaviest, true, &mut cleaner, &mut heaviest),
        ScreenSwitch::StartHeaviestQuery(HeaviestRequest { origin: NodeId(2), limit: 100, cancel: None })
    );
    assert_eq!(s.screen, Screen::Heaviest);
    heaviest.query = Some(QueryId(1));
    s.switch_screen(Screen::Cleaner, true, &mut cleaner, &mut heaviest);
    assert_eq!(s.switch_screen(Screen::Heaviest, true, &mut cleaner, &mut heaviest), ScreenSwitch::Nothing);
    assert_eq!(s.screen, Screen::Heaviest);
    assert_eq!(heaviest.query, Some(QueryId(1)));
}
