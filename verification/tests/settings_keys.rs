use tree_cleaner::command_line::CommandLineState;
use tree_cleaner::commands::Session;
use tree_cleaner::dialogs::{Confirmation, Overlay, PendingAction};
use tree_cleaner::explorer::ExplorerState;
use tree_cleaner::keys::Key;
use tree_cleaner::marks::Marks;
use tree_cleaner::model::{DeletionMode, SizeBase, SizeMode};
use tree_cleaner::preferences::{Preferences, SettingEffect};
use tree_cleaner::screen::Screen;
use tree_cleaner::settings::{SettingId, SettingsState};
use tree_cleaner::settings_keys::SettingsKeyEffect;
use tree_cleaner::theme::Theme;

fn session(truecolor: bool) -> Session {
    Session {
        screen: Screen::Explorer,
        overlay: None,
        status: None,
        explorer: ExplorerState::new(200),
        marks: Marks::default(),
        preferences: Preferences {
            theme_name: "terracotta".to_owned(),
            size_mode: SizeMode::Allocated,
            size_base: SizeBase::Decimal,
            show_files: true,
            row_limit: 200,
            heaviest_limit: 100,
            worker_threads: 8,
            dense_threshold: 20_000,
            materialize_depth: 3,
            background_root_scan: true,
            background_paused: false,
            deletion_mode: DeletionMode::Permanent,
            docker_enabled: true,
            docker_prune_containers: false,
            docker_prune_volumes: false,
            docker_prune_build_cache: false,
            discovery_max_depth: 6,
        },
        settings: SettingsState::new(),
        theme: Theme::terracotta(),
        truecolor,
        theme_overrides: Vec::new(),
        pending_foreground: None,
        should_quit: false,
        command_line: CommandLineState::default(),
        command_mode: false,
    }
}

fn select(s: &mut Session, id: SettingId) {
    s.settings.select_first();
    while s.settings.selected_setting() != Some(id) {
        s.handle_settings_key(Key::Down);
    }
}

#[test]
fn arrows_skip_section_headers_and_stop_at_the_ends() {
    let mut s = session(true);
    assert_eq!(s.settings.selected_setting(), Some(SettingId::Theme));
    assert_eq!(s.handle_settings_key(Key::Up), SettingsKeyEffect::Nothing);
    assert_eq!(s.settings.selected_setting(), Some(SettingId::Theme));
    for _ in 0..5 {
        s.handle_settings_key(Key::Char('j'));
    }
    assert_eq!(s.settings.selected_setting(), Some(SettingId::HeaviestLimit));
    s.handle_settings_key(Key::Down);
    assert_eq!(s.settings.selected_setting(), Some(SettingId::WorkerThreads));
    s.handle_settings_key(Key::Char('k'));
    assert_eq!(s.settings.selected_setting(), Some(SettingId::HeaviestLimit));
    s.handle_settings_key(Key::PageDown);
    assert_eq!(s.settings.selected_setting(), Some(SettingId::DeletionMode));
    s.handle_settings_key(Key::End);
    assert_eq!(s.settings.selected_setting(), Some(SettingId::ResetDefaults));
    s.handle_settings_key(Key::Char('g'));
    assert_eq!(s.settings.selected_setting(), Some(SettingId::Theme));
    s.handle_settings_key(Key::Char('G'));
    assert_eq!(s.settings.selected_setting(), Some(SettingId::ResetDefaults));
    s.handle_settings_key(Key::PageUp);
    assert_eq!(s.settings.selected_setting(), Some(SettingId::DockerPruneVolumes));
}

#[test]
fn right_steps_a_value_and_marks_unsaved_changes() {
    let mut s = session(true);
    select(&mut s, SettingId::WorkerThreads);
    assert!(!s.settings.dirty);
    assert_eq!(
        s.handle_settings_key(Key::Right),
        SettingsKeyEffect::Changed(SettingEffect::WorkerCount(9))
    );
    assert_eq!(s.preferences.worker_threads, 9);
    assert!(s.settings.dirty);
    assert_eq!(
        s.handle_settings_key(Key::Char('-')),
        SettingsKeyEffect::Changed(SettingEffect::WorkerCount(8))
    );
    assert_eq!(s.preferences.worker_threads, 8);
}

#[test]
fn files_and_row_limit_rows_reach_the_explorer() {
    let mut s = session(true);
    select(&mut s, SettingId::ShowFiles);
    s.handle_settings_key(Key::Enter);
    assert!(!s.preferences.show_files);
    assert!(!s.explorer.show_files);
    select(&mut s, SettingId::RowLimit);
    s.handle_settings_key(Key::Char('l'));
    assert_eq!(s.preferences.row_limit, 500);
    assert_eq!(s.explorer.row_limit, 500);
    s.handle_settings_key(Key::Char('h'));
    s.handle_settings_key(Key::Char('h'));
    assert_eq!(s.explorer.row_limit, 100);
}

#[test]
fn pausing_the_background_scan_leaves_nothing_unsaved() {
    let mut s = session(true);
    select(&mut s, SettingId::BackgroundPaused);
    assert_eq!(
        s.handle_settings_key(Key::Char(' ')),
        SettingsKeyEffect::Changed(SettingEffect::BackgroundPaused(true))
    );
    assert!(s.preferences.background_paused);
    assert!(!s.settings.dirty);
}

#[test]
fn theme_row_cycles_palettes_and_applies_them() {
    let mut s = session(true);
    assert_eq!(s.handle_settings_key(Key::Right), SettingsKeyEffect::Nothing);
    assert_eq!(s.preferences.theme_name, "btop");
    assert!(s.theme == Theme::btop());
    assert!(s.settings.dirty);
    s.handle_settings_key(Key::Left);
    s.handle_settings_key(Key::Left);
    assert_eq!(s.preferences.theme_name, "basic");
    assert!(s.theme == Theme::basic());
}

#[test]
fn theme_row_without_truecolor_draws_basic() {
    let mut s = session(false);
    s.handle_settings_key(Key::Char('+'));
    assert_eq!(s.preferences.theme_name, "btop");
    assert!(s.theme == Theme::basic());
}

#[test]
fn action_rows_and_shortcuts() {
    let mut s = session(true);
    assert_eq!(s.handle_settings_key(Key::Char('s')), SettingsKeyEffect::SaveSettings);
    select(&mut s, SettingId::ReloadConfig);
    assert_eq!(s.handle_settings_key(Key::Enter), SettingsKeyEffect::ReloadConfig);
    assert_eq!(s.handle_settings_key(Key::Right), SettingsKeyEffect::Nothing);
    select(&mut s, SettingId::SaveConfig);
    assert_eq!(s.handle_settings_key(Key::Enter), SettingsKeyEffect::SaveSettings);
    assert_eq!(s.handle_settings_key(Key::Char('e')), SettingsKeyEffect::Nothing);
    assert!(matches!(s.pending_foreground, Some(PendingAction::EditConfigFile)));
    assert_eq!(
        s.handle_settings_key(Key::Esc),
        SettingsKeyEffect::SwitchScreen(Screen::Explorer)
    );
    assert_eq!(s.handle_settings_key(Key::Other), SettingsKeyEffect::Nothing);
}

#[test]
fn reset_asks_first() {
    let mut s = session(true);
    assert_eq!(s.handle_settings_key(Key::Char('R')), SettingsKeyEffect::Nothing);
    match &s.overlay {
        Some(Overlay::Confirm(dialog)) => {
            assert_eq!(dialog.title, "Reset preferences");
            assert!(matches!(dialog.confirmation, Confirmation::YesKey));
            assert!(matches!(dialog.action, PendingAction::ResetSettings));
            assert_eq!(dialog.lines.len(), 4);
            assert_eq!(dialog.lines[3], "Press y to reset, n or Esc to keep the current values.");
        }
        _ => panic!("expected the reset question"),
    }
    assert!(!s.settings.dirty);
}

#[test]
fn notes_of_the_theme_and_save_rows() {
    let s = session(true);
    assert_eq!(
        s.setting_note(SettingId::Theme, "/home/u/.config/tree-cleaner/config.toml", Some("/home/u"), true),
        Some("warm terracotta accents, blue directories (default)".to_owned())
    );
    assert_eq!(
        s.setting_note(SettingId::SaveConfig, "/home/u/.config/tree-cleaner/config.toml", Some("/home/u"), false),
        Some("~/.config/tree-cleaner/config.toml (not written yet)".to_owned())
    );
    assert_eq!(
        s.setting_note(SettingId::SaveConfig, "/etc/tree-cleaner.toml", Some("/home/u"), true),
        Some("/etc/tree-cleaner.toml".to_owned())
    );
    assert_eq!(s.setting_note(SettingId::RowLimit, "/etc/tree-cleaner.toml", None, true), None);

    let plain = session(false);
    assert_eq!(
        plain.setting_note(SettingId::Theme, "", None, true),
        Some("warm terracotta accents, blue directories (default) \u{b7} this terminal has no truecolor, showing basic".to_owned())
    );

    let mut overridden = session(true);
    overridden.theme_overrides.push(("accent".to_owned(), "#ff0000".to_owned()));
    overridden.theme_overrides.push(("border".to_owned(), "red".to_owned()));
    assert_eq!(
        overridden.setting_note(SettingId::Theme, "", None, true),
        Some("warm terracotta accents, blue directories (default) \u{b7} 2 colours overridden in [theme]".to_owned())
    );
}
