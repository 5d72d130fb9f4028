use tree_cleaner::configuration::{apply_config, sync_config_from_state, ConfigView};
use tree_cleaner::model::{DeletionMode, SizeBase, SizeMode};
use tree_cleaner::preferences::Preferences;
use tree_cleaner::theme::Theme;

fn current() -> Preferences {
    Preferences {
        theme_name: "nord".to_owned(),
        size_mode: SizeMode::Apparent,
        size_base: SizeBase::Binary,
        show_files: false,
        row_limit: 500,
        heaviest_limit: 250,
        worker_threads: 6,
        dense_threshold: 20_000,
        materialize_depth: 3,
        background_root_scan: true,
        background_paused: false,
        deletion_mode: DeletionMode::Trash,
        docker_enabled: true,
        docker_prune_containers: false,
        docker_prune_volumes: false,
        docker_prune_build_cache: false,
        discovery_max_depth: 6,
    }
}

fn file() -> ConfigView {
    ConfigView {
        theme: "  Dracula ".to_owned(),
        show_files: true,
        row_limit: 1_000_000,
        heaviest_files_limit: 2,
        frame_interval_ms: 5,
        size_mode: SizeMode::Allocated,
        size_base: SizeBase::Decimal,
        deletion_mode: DeletionMode::Permanent,
        worker_threads: None,
    }
}

#[test]
fn applying_a_configuration_holds_its_limits_to_their_ranges() {
    let mut preferences = current();
    let applied = apply_config(&mut preferences, &file(), &[], true, 4);
    assert_eq!(preferences.theme_name, "dracula");
    assert_eq!(preferences.row_limit, 100_000);
    assert_eq!(preferences.heaviest_limit, 5);
    assert_eq!(applied.frame_interval_ms, 16);
    assert_eq!(preferences.worker_threads, 4);
    assert_eq!(applied.worker_count, 4);
    assert_eq!(preferences.size_mode, SizeMode::Allocated);
    assert_eq!(preferences.size_base, SizeBase::Decimal);
    assert_eq!(preferences.deletion_mode, DeletionMode::Permanent);
    assert!(preferences.show_files);
    assert_eq!(applied.theme, Theme::dracula());
    assert!(applied.warning.is_none());
    assert_eq!(preferences.dense_threshold, 20_000);
}

#[test]
fn an_unknown_palette_falls_back_with_a_warning() {
    let mut preferences = current();
    let mut config = file();
    config.theme = "sepia".to_owned();
    config.worker_threads = Some(12);
    config.frame_interval_ms = 400;
    let applied = apply_config(&mut preferences, &config, &[], false, 4);
    assert_eq!(preferences.theme_name, "terracotta");
    assert_eq!(applied.theme, Theme::basic());
    assert!(applied.warning.is_some());
    assert_eq!(applied.frame_interval_ms, 250);
    assert_eq!(preferences.worker_threads, 12);
}

#[test]
fn saved_preferences_come_back_on_reload() {
    let before = current();
    let mut config = file();
    sync_config_from_state(&mut config, &before);
    assert_eq!(config.theme, "nord");
    assert_eq!(config.worker_threads, Some(6));
    assert_eq!(config.frame_interval_ms, 5);
    let mut reloaded = current();
    reloaded.theme_name = "light".to_owned();
    reloaded.row_limit = 10;
    apply_config(&mut reloaded, &config, &[], true, 4);
    let expected = current();
    assert_eq!(reloaded.theme_name, expected.theme_name);
    assert_eq!(reloaded.row_limit, expected.row_limit);
    assert_eq!(reloaded.heaviest_limit, expected.heaviest_limit);
    assert_eq!(reloaded.worker_threads, expected.worker_threads);
    assert_eq!(reloaded.size_mode, expected.size_mode);
    assert_eq!(reloaded.size_base, expected.size_base);
    assert_eq!(reloaded.deletion_mode, expected.deletion_mode);
    assert_eq!(reloaded.show_files, expected.show_files);
}
