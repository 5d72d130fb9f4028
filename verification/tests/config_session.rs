use tree_cleaner::command_line::CommandLineState;
use tree_cleaner::commands::Session;
use tree_cleaner::configuration::ConfigView;
use tree_cleaner::dialogs::{Overlay, Severity};
use tree_cleaner::explorer::ExplorerState;
use tree_cleaner::marks::Marks;
use tree_cleaner::model::{DeletionMode, SizeBase, SizeMode};
use tree_cleaner::preferences::Preferences;
use tree_cleaner::screen::Screen;
use tree_cleaner::settings::SettingsState;
use tree_cleaner::theme::Theme;

fn session() -> Session {
    Session {
        screen: Screen::Dashboard,
        overlay: None,
        status: None,
        explorer: ExplorerState::new(200),
        marks: Marks::default(),
        preferences: Preferences {
            theme_name: "terracotta".to_owned(),
            size_mode: SizeMode::Allocated,
            size_base: SizeBase::Decimal,
            show_files: true,
            row_limit: 200,
            heaviest_limit: 100,
            worker_threads: 8,
            dense_threshold: 20_000,
            materialize_depth: 3,
            background_root_scan: true,
            background_paused: false,
            deletion_mode: DeletionMode::Permanent,
            docker_enabled: true,
            docker_prune_containers: false,
            docker_prune_volumes: false,
            docker_prune_build_cache: false,
            discovery_max_depth: 6,
        },
        settings: SettingsState::new(),
        theme: Theme::terracotta(),
        truecolor: true,
        theme_overrides: Vec::new(),
        pending_foreground: None,
        should_quit: false,
        command_line: CommandLineState::default(),
        command_mode: false,
    }
}

fn status(session: &Session) -> (&str, Severity) {
    let message = session.status.as_ref().expect("a status line");
    (message.text.as_str(), message.severity)
}

fn gruvbox_file() -> ConfigView {
    ConfigView {
        theme: "gruvbox".to_owned(),
        show_files: false,
        row_limit: 50,
        heaviest_files_limit: 25,
        frame_interval_ms: 33,
        size_mode: SizeMode::Apparent,
        size_base: SizeBase::Binary,
        deletion_mode: DeletionMode::Trash,
        worker_threads: Some(4),
    }
}

#[test]
fn saving_clears_the_unsaved_mark() {
    let mut s = session();
    s.settings.dirty = true;
    s.settings_saved(Ok(()), "/home/me/.config/tree-cleaner/config.toml", Some("/home/me"));
    assert_eq!(status(&s), ("preferences saved to ~/.config/tree-cleaner/config.toml", Severity::Success));
    assert!(!s.settings.dirty);
    assert!(s.settings.last_saved.is_some());
}

#[test]
fn a_failed_save_keeps_the_unsaved_mark() {
    let mut s = session();
    s.settings.dirty = true;
    s.settings_saved(Err("disk full".to_owned()), "/etc/x.toml", None);
    assert_eq!(status(&s), ("could not save preferences: disk full", Severity::Error));
    assert!(s.settings.dirty);
    assert!(s.settings.last_saved.is_none());
}

#[test]
fn an_unreadable_file_leaves_the_values_in_effect() {
    let mut s = session();
    s.config_unreadable("expected `=` at line 3".to_owned());
    match &s.overlay {
        Some(Overlay::Message(dialog)) => {
            assert_eq!(dialog.title, "Configuration file could not be read");
            assert_eq!(
                dialog.lines,
                vec![
                    "expected `=` at line 3".to_owned(),
                    String::new(),
                    "The previous values stay in effect. Fix the file and reload (:config reload).".to_owned(),
                ]
            );
            assert_eq!(dialog.severity, Severity::Error);
        }
        _ => panic!("a message dialog"),
    }
    assert_eq!(s.preferences.theme_name, "terracotta");
}

#[test]
fn a_reloaded_configuration_takes_effect() {
    let mut s = session();
    s.settings.dirty = true;
    let applied = s.config_reloaded(&gruvbox_file(), Ok(()), 8).expect("applied");
    assert_eq!(status(&s), ("configuration reloaded", Severity::Success));
    assert!(!s.settings.dirty);
    assert_eq!(s.preferences.theme_name, "gruvbox");
    assert_eq!(s.theme, Theme::gruvbox());
    assert_eq!(applied.theme, Theme::gruvbox());
    assert_eq!(applied.frame_interval_ms, 33);
    assert_eq!(applied.worker_count, 4);
    assert_eq!(s.preferences.row_limit, 50);
    assert_eq!(s.preferences.deletion_mode, DeletionMode::Trash);
}

#[test]
fn a_rejected_configuration_changes_nothing() {
    let mut s = session();
    assert!(s.config_reloaded(&gruvbox_file(), Err("bad glob".to_owned()), 8).is_none());
    assert_eq!(status(&s), ("configuration rejected: bad glob", Severity::Error));
    assert_eq!(s.preferences.theme_name, "terracotta");
    assert_eq!(s.theme, Theme::terracotta());
}

#[test]
fn resetting_counts_as_an_unsaved_change() {
    let mut s = session();
    let applied = s.settings_reset(&gruvbox_file(), Ok(()), 8);
    assert!(applied.is_some());
    assert!(s.settings.dirty);
    assert_eq!(status(&s), ("preferences reset to defaults (not saved yet)", Severity::Info));
    let mut t = session();
    assert!(t.settings_reset(&gruvbox_file(), Err("no".to_owned()), 8).is_none());
    assert_eq!(status(&t), ("could not reset: no", Severity::Error));
    assert!(!t.settings.dirty);
}
