use tree_cleaner::command_line::{parse_command, CommandLineState, DeveloperCommand};
use tree_cleaner::commands::{CommandEffect, Session};
use tree_cleaner::dialogs::{answer_overlay, DialogOutcome, MessageDialog, Overlay, PendingAction, Severity};
use tree_cleaner::explorer::ExplorerState;
use tree_cleaner::marks::{MarkedItem, Marks};
use tree_cleaner::model::{ByteSize, DeletionMode, NodeId, SizeBase, SizeMode};
use tree_cleaner::preferences::Preferences;
use tree_cleaner::screen::Screen;
use tree_cleaner::settings::SettingsState;
use tree_cleaner::theme::Theme;

fn session() -> Session {
    Session {
        screen: Screen::Dashboard,
        overlay: None,
        status: None,
        explorer: ExplorerState::new(200),
        marks: Marks::default(),
        preferences: Preferences {
            theme_name: "terracotta".to_owned(),
            size_mode: SizeMode::Allocated,
            size_base: SizeBase::Decimal,
            show_files: true,
            row_limit: 200,
            heaviest_limit: 100,
            worker_threads: 8,
            dense_threshold: 20_000,
            materialize_depth: 3,
            background_root_scan: true,
            background_paused: false,
            deletion_mode: DeletionMode::Permanent,
            docker_enabled: true,
            docker_prune_containers: false,
            docker_prune_volumes: false,
            docker_prune_build_cache: false,
            discovery_max_depth: 6,
        },
        settings: SettingsState::new(),
        theme: Theme::terracotta(),
        truecolor: true,
        theme_overrides: Vec::new(),
        pending_foreground: None,
        should_quit: false,
        command_line: CommandLineState::default(),
        command_mode: false,
    }
}

fn status(session: &Session) -> (&str, Severity) {
    let message = session.status.as_ref().expect("a status line");
    (message.text.as_str(), message.severity)
}

fn run(session: &mut Session, line: &str) -> CommandEffect {
    session.execute_command(parse_command(line))
}

#[test]
fn documented_commands_parse() {
    assert_eq!(parse_command(":theme"), DeveloperCommand::Theme(None));
    assert_eq!(parse_command(":theme Nord"), DeveloperCommand::Theme(Some("Nord".to_owned())));
    assert_eq!(parse_command(":settings"), DeveloperCommand::Settings);
    assert_eq!(parse_command(":config edit"), DeveloperCommand::EditConfig);
    assert_eq!(parse_command(":config reload"), DeveloperCommand::ReloadConfig);
}

#[test]
fn quitting_and_overlays() {
    let mut s = session();
    assert_eq!(run(&mut s, "help"), CommandEffect::Nothing);
    assert!(matches!(s.overlay, Some(Overlay::Help)));
    run(&mut s, "log");
    assert!(matches!(s.overlay, Some(Overlay::Log)));
    run(&mut s, "settings");
    assert!(matches!(s.overlay, Some(Overlay::Settings)));
    run(&mut s, "config edit");
    assert!(matches!(s.pending_foreground, Some(PendingAction::EditConfigFile)));
    assert!(!s.should_quit);
    run(&mut s, "q");
    assert!(s.should_quit);
    assert!(s.status.is_none());
}

#[test]
fn work_left_to_the_services() {
    let mut s = session();
    assert_eq!(run(&mut s, "stats"), CommandEffect::ShowStatistics);
    assert_eq!(run(&mut s, "config"), CommandEffect::ShowConfigPath);
    assert_eq!(run(&mut s, "config save"), CommandEffect::SaveSettings);
    assert_eq!(run(&mut s, "config reload"), CommandEffect::ReloadConfig);
    assert_eq!(run(&mut s, "goto ~/src"), CommandEffect::OpenPath("~/src".to_owned()));
    assert_eq!(run(&mut s, "top 20"), CommandEffect::StartHeaviestQuery(Some(20)));
    assert_eq!(run(&mut s, "reveal"), CommandEffect::Reveal);
    assert_eq!(run(&mut s, "mounts"), CommandEffect::ListMounts);
    assert_eq!(run(&mut s, "export out.tsv"), CommandEffect::ExportRows("out.tsv".to_owned()));
    assert_eq!(run(&mut s, "cleaner"), CommandEffect::SwitchScreen(Screen::Cleaner));
    assert_eq!(run(&mut s, "home"), CommandEffect::SwitchScreen(Screen::Dashboard));
    assert_eq!(s.screen, Screen::Dashboard);
}

#[test]
fn rescan_needs_a_current_directory() {
    let mut s = session();
    assert_eq!(run(&mut s, "rescan"), CommandEffect::Nothing);
    assert!(s.status.is_none());
    s.explorer.current = Some(NodeId(4));
    assert_eq!(run(&mut s, "rescan"), CommandEffect::Rescan { node: NodeId(4), expand: false });
    assert_eq!(status(&s), ("rescanning", Severity::Info));
    assert_eq!(run(&mut s, "expand"), CommandEffect::Rescan { node: NodeId(4), expand: true });
    assert_eq!(status(&s), ("expanding dense directory (this may take a while)", Severity::Warning));
}

#[test]
fn scanner_settings() {
    let mut s = session();
    assert_eq!(run(&mut s, "threads 4"), CommandEffect::SetWorkerCount(4));
    assert_eq!(s.preferences.worker_threads, 4);
    assert_eq!(status(&s), ("scanner threads: 4", Severity::Info));
    assert_eq!(run(&mut s, "dense 50_000"), CommandEffect::SetDenseThreshold(50_000));
    assert_eq!(status(&s), ("dense threshold: 50000 entries", Severity::Info));
    assert_eq!(run(&mut s, "depth 5"), CommandEffect::SetMaterializeDepth(5));
    assert_eq!(status(&s), ("materialise depth: 5", Severity::Info));
    assert_eq!(run(&mut s, "pause"), CommandEffect::SetBackgroundPaused(true));
    assert!(s.preferences.background_paused);
    assert_eq!(status(&s), ("background scanning paused", Severity::Info));
    assert_eq!(run(&mut s, "resume"), CommandEffect::SetBackgroundPaused(false));
    assert_eq!(status(&s), ("background scanning resumed", Severity::Info));
}

#[test]
fn row_limit_is_held_in_range() {
    let mut s = session();
    run(&mut s, "limit 1");
    assert_eq!(s.explorer.row_limit, 5);
    assert_eq!(status(&s), ("showing up to 5 rows", Severity::Info));
    run(&mut s, "rows 1_000_000");
    assert_eq!(s.explorer.row_limit, 100_000);
    assert_eq!(s.preferences.row_limit, 100_000);
    assert_eq!(status(&s), ("showing up to 100000 rows", Severity::Info));
}

#[test]
fn size_words() {
    let mut s = session();
    assert_eq!(run(&mut s, "mode Apparent"), CommandEffect::SetSizeMode(SizeMode::Apparent));
    assert_eq!(status(&s), ("showing apparent sizes", Severity::Info));
    assert_eq!(run(&mut s, "mode bytes"), CommandEffect::Nothing);
    assert_eq!(status(&s), ("unknown size mode `bytes`", Severity::Warning));
    assert_eq!(s.preferences.size_mode, SizeMode::Apparent);
    run(&mut s, "base iec");
    assert_eq!(s.preferences.size_base, SizeBase::Binary);
    assert_eq!(status(&s), ("size base changed", Severity::Info));
    run(&mut s, "base kilo");
    assert_eq!(status(&s), ("unknown size base `kilo`", Severity::Warning));
    assert_eq!(s.preferences.size_base, SizeBase::Binary);
}

#[test]
fn deletion_mode_words() {
    let mut s = session();
    run(&mut s, "trash on");
    assert_eq!(s.preferences.deletion_mode, DeletionMode::Trash);
    assert_eq!(status(&s), ("deletion mode: trash", Severity::Info));
    run(&mut s, "trash sometimes");
    assert_eq!(status(&s), ("unknown deletion mode `sometimes`", Severity::Warning));
    assert_eq!(s.preferences.deletion_mode, DeletionMode::Trash);
}

#[test]
fn filter_goes_to_the_explorer() {
    let mut s = session();
    run(&mut s, "filter Photos");
    assert_eq!(s.explorer.filter.as_deref(), Some("Photos"));
    assert_eq!(s.screen, Screen::Explorer);
    assert_eq!(status(&s), ("filter: Photos", Severity::Info));
    s.screen = Screen::Cleaner;
    run(&mut s, "filter");
    assert_eq!(s.explorer.filter, None);
    assert_eq!(s.screen, Screen::Explorer);
    assert_eq!(status(&s), ("filter cleared", Severity::Info));
}

#[test]
fn clear_marks_and_unknown() {
    let mut s = session();
    let item = MarkedItem { size: ByteSize(1), is_directory: false, node: None, parent_node: None };
    s.marks.toggle("/a".to_owned(), item);
    run(&mut s, "clear");
    assert!(s.marks.is_empty());
    assert_eq!(status(&s), ("marks cleared", Severity::Info));
    run(&mut s, "bogus");
    assert_eq!(status(&s), ("unknown command `bogus`", Severity::Warning));
}

#[test]
fn theme_command_lists_or_switches() {
    let mut s = session();
    run(&mut s, "theme");
    match &s.overlay {
        Some(Overlay::Message(dialog)) => {
            assert_eq!(dialog.title, "Themes");
            assert_eq!(dialog.lines.len(), 13);
            assert!(dialog.lines[0].starts_with("\u{25B6} terracotta"));
            assert_eq!(dialog.lines[11], "");
            assert_eq!(
                dialog.lines[12],
                ":theme <name> switches \u{b7} [theme] in the config file overrides single colours"
            );
        }
        _ => panic!("expected the palette list"),
    }
    run(&mut s, "theme mocha");
    assert_eq!(s.preferences.theme_name, "catppuccin");
    assert_eq!(s.theme, Theme::catppuccin());
    assert!(s.settings.dirty);
    assert_eq!(status(&s), ("theme: catppuccin (s in Settings saves it)", Severity::Info));
    run(&mut s, "theme neon");
    assert_eq!(s.preferences.theme_name, "catppuccin");
    assert_eq!(status(&s).1, Severity::Warning);
    assert!(status(&s).0.starts_with("unknown theme `neon`; available: terracotta, btop"));
}

#[test]
fn quitting_with_unsaved_preferences_asks_first() {
    let mut s = session();
    s.settings.dirty = true;
    run(&mut s, "quit");
    assert!(!s.should_quit);
    match &s.overlay {
        Some(Overlay::Confirm(dialog)) => {
            assert_eq!(dialog.title, "Unsaved preferences");
            assert!(matches!(dialog.confirmation, tree_cleaner::dialogs::Confirmation::SaveOrDiscard));
            assert!(matches!(dialog.action, PendingAction::SaveAndQuit));
            assert_eq!(dialog.lines.len(), 3);
        }
        _ => panic!("expected the save-or-discard question"),
    }
    let mut clean = session();
    clean.request_quit();
    assert!(clean.should_quit);
    assert!(clean.overlay.is_none());
}

use tree_cleaner::explorer::{ExplorerRow, RowBadge, RowKey};
use tree_cleaner::keys::{route_key, Key, KeyRoute};
use tree_cleaner::screen_keys::ExplorerEffect;

fn row(key: RowKey, name: &str, size: u64) -> ExplorerRow {
    let is_directory = matches!(key, RowKey::Directory(_));
    ExplorerRow {
        key,
        name: name.to_owned(),
        path: format!("/x/{name}"),
        size: ByteSize(size),
        items: None,
        badge: RowBadge::Complete,
        is_directory,
        marked: false,
    }
}

#[test]
fn routing_keys() {
    assert_eq!(route_key(Key::Char('c'), true, true, true, true, Screen::Explorer), KeyRoute::Abort);
    assert_eq!(route_key(Key::Char('q'), false, true, false, false, Screen::Explorer), KeyRoute::Operation);
    assert_eq!(route_key(Key::Char('q'), false, false, true, true, Screen::Explorer), KeyRoute::Overlay);
    assert_eq!(route_key(Key::Char('q'), false, false, false, true, Screen::Explorer), KeyRoute::CommandLine);
    assert_eq!(route_key(Key::Char('q'), false, false, false, false, Screen::Explorer), KeyRoute::Quit);
    assert_eq!(route_key(Key::Tab, false, false, false, false, Screen::Cleaner), KeyRoute::SwitchScreen(Screen::Dashboard));
    assert_eq!(route_key(Key::BackTab, false, false, false, false, Screen::Dashboard), KeyRoute::SwitchScreen(Screen::Cleaner));
    assert_eq!(route_key(Key::Char('3'), false, false, false, false, Screen::Dashboard), KeyRoute::SwitchScreen(Screen::Heaviest));
    assert_eq!(route_key(Key::Char('a'), false, false, false, false, Screen::Explorer), KeyRoute::ToggleSizeMode);
    assert_eq!(route_key(Key::Char('a'), false, false, false, false, Screen::Cleaner), KeyRoute::Screen);
    assert_eq!(route_key(Key::Char(':'), false, false, false, false, Screen::Cleaner), KeyRoute::OpenCommandLine);
    assert_eq!(route_key(Key::Char('j'), false, false, false, false, Screen::Explorer), KeyRoute::Screen);
}

#[test]
fn explorer_keys_move_and_report() {
    let mut s = session();
    s.explorer.current = Some(NodeId(1));
    s.explorer.show_rows(vec![
        row(RowKey::Directory(NodeId(2)), "big", 30),
        row(RowKey::File("f".to_owned()), "f", 20),
        row(RowKey::Directory(NodeId(3)), "small", 10),
    ]);
    assert_eq!(s.handle_explorer_key(Key::Char('j')), ExplorerEffect::Nothing);
    assert_eq!(s.explorer.selected, 1);
    assert_eq!(s.handle_explorer_key(Key::Char('R')), ExplorerEffect::Nothing);
    s.handle_explorer_key(Key::End);
    assert_eq!(s.explorer.selected, 2);
    assert_eq!(s.handle_explorer_key(Key::Char('R')), ExplorerEffect::Rescan(NodeId(3)));
    assert_eq!(status(&s), ("rescanning selected directory", Severity::Info));
    assert_eq!(s.handle_explorer_key(Key::Char('r')), ExplorerEffect::Rescan(NodeId(1)));
    assert_eq!(status(&s), ("rescanning current directory", Severity::Info));
    s.handle_explorer_key(Key::PageUp);
    assert_eq!(s.explorer.selected, 0);
    assert_eq!(s.handle_explorer_key(Key::Enter), ExplorerEffect::OpenSelected);
    assert_eq!(s.handle_explorer_key(Key::Char('u')), ExplorerEffect::GoToParent);
    assert_eq!(s.handle_explorer_key(Key::Char('t')), ExplorerEffect::StartHeaviestQuery);
    assert_eq!(s.handle_explorer_key(Key::Char('c')), ExplorerEffect::SwitchScreen(Screen::Cleaner));
}

#[test]
fn explorer_keys_change_the_view() {
    let mut s = session();
    s.handle_explorer_key(Key::Char('f'));
    assert!(!s.explorer.show_files);
    assert!(!s.preferences.show_files);
    assert_eq!(status(&s), ("files hidden", Severity::Info));
    s.handle_explorer_key(Key::Char('+'));
    assert_eq!(s.explorer.row_limit, 400);
    assert_eq!(status(&s), ("showing up to 400 rows", Severity::Info));
    s.explorer.row_limit = 6;
    s.handle_explorer_key(Key::Char('-'));
    assert_eq!(s.explorer.row_limit, 5);
    s.explorer.row_limit = usize::MAX;
    s.handle_explorer_key(Key::Char('='));
    assert_eq!(s.explorer.row_limit, 100_000);
    s.handle_explorer_key(Key::Char('/'));
    assert!(s.command_mode);
    assert_eq!(s.command_line.input, "filter ");
    assert_eq!(s.command_line.cursor, 7);
    s.explorer.filter = Some("x".to_owned());
    s.handle_explorer_key(Key::Esc);
    assert_eq!(s.explorer.filter, None);
    assert_eq!(status(&s), ("filter cleared", Severity::Info));
}

#[test]
fn command_line_keys() {
    let mut s = session();
    s.command_mode = true;
    for character in "limit 50".chars() {
        assert_eq!(s.handle_command_line_key(Key::Char(character)), CommandEffect::Nothing);
    }
    assert_eq!(s.command_line.input, "limit 50");
    s.handle_command_line_key(Key::Home);
    assert_eq!(s.command_line.cursor, 0);
    s.handle_command_line_key(Key::End);
    s.handle_command_line_key(Key::Left);
    s.handle_command_line_key(Key::Right);
    assert_eq!(s.command_line.cursor, 8);
    assert_eq!(s.handle_command_line_key(Key::Enter), CommandEffect::Nothing);
    assert!(!s.command_mode);
    assert_eq!(s.explorer.row_limit, 50);
    assert_eq!(s.command_line.history, vec!["limit 50".to_owned()]);

    s.command_mode = true;
    s.command_line.open();
    s.handle_command_line_key(Key::Up);
    assert_eq!(s.command_line.input, "limit 50");
    s.handle_command_line_key(Key::Down);
    assert_eq!(s.command_line.input, "");
    assert!(s.command_mode);
    s.handle_command_line_key(Key::Backspace);
    assert!(!s.command_mode);

    s.command_mode = true;
    s.handle_command_line_key(Key::Char('x'));
    s.handle_command_line_key(Key::Backspace);
    assert!(s.command_mode);
    assert_eq!(s.command_line.input, "");
    s.handle_command_line_key(Key::Esc);
    assert!(!s.command_mode);

    s.command_mode = true;
    for character in "top".chars() {
        s.handle_command_line_key(Key::Char(character));
    }
    assert_eq!(s.handle_command_line_key(Key::Enter), CommandEffect::StartHeaviestQuery(None));
}

#[test]
fn shared_toggles() {
    let mut s = session();
    assert_eq!(s.toggle_background_pause(), CommandEffect::SetBackgroundPaused(true));
    assert_eq!(status(&s), ("background scanning paused (focused directory still scans)", Severity::Info));
    assert_eq!(s.toggle_background_pause(), CommandEffect::SetBackgroundPaused(false));
    assert_eq!(status(&s), ("background scanning resumed", Severity::Info));
    assert_eq!(s.toggle_size_mode(), CommandEffect::SetSizeMode(SizeMode::Apparent));
    assert_eq!(status(&s), ("showing apparent sizes", Severity::Info));
    s.show_status("hello".to_owned(), Severity::Error);
    assert_eq!(status(&s), ("hello", Severity::Error));
}

#[test]
fn opening_and_marking_rows() {
    let mut s = session();
    s.explorer.current = Some(NodeId(1));
    let mut denied = row(RowKey::Directory(NodeId(5)), "private", 40);
    denied.badge = RowBadge::Denied;
    s.explorer.show_rows(vec![denied, row(RowKey::Directory(NodeId(6)), "open", 30), row(RowKey::File("f".to_owned()), "f", 20)]);
    assert_eq!(s.open_selected_row(), Some(NodeId(5)));
    assert_eq!(
        status(&s),
        ("permission denied: grant Full Disk Access to your terminal or run with sudo", Severity::Warning)
    );
    s.status = None;
    s.explorer.select(1);
    assert_eq!(s.open_selected_row(), Some(NodeId(6)));
    assert!(s.status.is_none());
    s.explorer.select(2);
    assert_eq!(s.open_selected_row(), None);
    assert_eq!(status(&s), ("files: space marks, d deletes, o reveals", Severity::Info));

    s.explorer.select(1);
    assert_eq!(s.toggle_mark_on_selected(), Some(true));
    assert!(s.marks.contains("/x/open"));
    assert_eq!(s.explorer.selected, 2);
    assert_eq!(s.marks.parent_of("/x/open"), Some(NodeId(1)));
    assert_eq!(s.toggle_mark_on_selected(), Some(true));
    assert_eq!(s.explorer.selected, 2);
    assert_eq!(s.toggle_mark_on_selected(), Some(false));
    assert_eq!(s.marks.len(), 1);
    s.explorer.show_rows(Vec::new());
    assert_eq!(s.toggle_mark_on_selected(), None);
}

#[test]
fn export_reports_the_rows_written_or_the_error() {
    let mut s = session();
    s.export_finished(Ok("/tmp/rows.tsv".to_owned()));
    assert_eq!(status(&s), ("exported 0 rows to /tmp/rows.tsv", Severity::Success));
    s.export_finished(Err("permission denied".to_owned()));
    assert_eq!(status(&s), ("export failed: permission denied", Severity::Error));
}

#[test]
fn reveal_reports_what_the_file_manager_said() {
    let mut s = session();
    s.reveal_finished("/home/u/cache", Ok(()));
    assert_eq!(status(&s), ("revealed /home/u/cache", Severity::Info));
    s.reveal_finished("/home/u/cache", Err("no file manager".to_owned()));
    assert_eq!(status(&s), ("could not reveal: no file manager", Severity::Error));
}

#[test]
fn answers_to_overlays() {
    let mut s = session();
    let message = Overlay::Message(MessageDialog { title: "t".to_owned(), lines: Vec::new(), severity: Severity::Info });
    assert!(s.overlay_answered(answer_overlay(message, Key::Char('x'))).is_none());
    assert!(s.overlay.is_none());
    assert!(s.status.is_none());

    s.request_quit();
    assert!(s.should_quit);
    let mut t = session();
    t.settings.dirty = true;
    t.request_quit();
    let question = t.overlay.take().expect("the unsaved-preferences question");
    assert!(t.overlay_answered(answer_overlay(question, Key::Esc)).is_none());
    assert_eq!(status(&t), ("cancelled", Severity::Info));
    assert!(!t.should_quit);

    t.request_quit();
    let question = t.overlay.take().expect("the unsaved-preferences question");
    assert!(t.overlay_answered(answer_overlay(question, Key::Char('n'))).is_none());
    assert!(t.should_quit);

    let mut u = session();
    u.settings.dirty = true;
    u.request_quit();
    let question = u.overlay.take().expect("the unsaved-preferences question");
    assert!(matches!(
        u.overlay_answered(answer_overlay(question, Key::Char('y'))),
        Some(PendingAction::SaveAndQuit)
    ));
    assert!(!u.should_quit);
    assert!(u.overlay.is_none());
    assert!(matches!(u.overlay_answered((None, DialogOutcome::Nothing)), None));
}

#[test]
fn mark_status_names_the_item_and_the_total() {
    let mut s = session();
    s.marks.toggle(
        "/x/a".to_owned(),
        MarkedItem { size: ByteSize(5), is_directory: false, node: None, parent_node: None },
    );
    s.show_mark_status(true, Some("a"), "5 B");
    assert_eq!(status(&s), ("marked a \u{b7} 1 marked \u{b7} 5 B", Severity::Info));
    s.show_mark_status(false, None, "0 B");
    assert_eq!(status(&s), ("unmarked \u{b7} 1 marked \u{b7} 0 B", Severity::Info));
}
