use tree_cleaner::model::{DeletionMode, SizeBase, SizeMode};
use tree_cleaner::preferences::{
    adjust_setting, apply_theme_name, deletion_mode_named, heaviest_limit_within, row_limit_within,
    size_base_named, size_mode_named, unknown_theme_message, Preferences, SettingEffect,
};
use tree_cleaner::settings::{SettingId, SettingsState};
use tree_cleaner::theme::Theme;

fn defaults() -> Preferences {
    Preferences {
        theme_name: "terracotta".to_owned(),
        size_mode: SizeMode::Allocated,
        size_base: SizeBase::Decimal,
        show_files: true,
        row_limit: 200,
        heaviest_limit: 100,
        worker_threads: 8,
        dense_threshold: 20_000,
        materialize_depth: 3,
        background_root_scan: true,
        background_paused: false,
        deletion_mode: DeletionMode::Permanent,
        docker_enabled: true,
        docker_prune_containers: false,
        docker_prune_volumes: false,
        docker_prune_build_cache: false,
        discovery_max_depth: 6,
    }
}

#[test]
fn command_words() {
    assert_eq!(size_mode_named("logical"), Some(SizeMode::Apparent));
    assert_eq!(size_mode_named("disk"), Some(SizeMode::Allocated));
    assert_eq!(size_mode_named("bytes"), None);
    assert_eq!(size_base_named("1024"), Some(SizeBase::Binary));
    assert_eq!(size_base_named("si"), Some(SizeBase::Decimal));
    assert_eq!(size_base_named("Binary"), None);
    assert_eq!(deletion_mode_named("on"), Some(DeletionMode::Trash));
    assert_eq!(deletion_mode_named("permanent"), Some(DeletionMode::Permanent));
    assert_eq!(deletion_mode_named("maybe"), None);
}

#[test]
fn limits_are_held_in_range() {
    assert_eq!(row_limit_within(1), 5);
    assert_eq!(row_limit_within(400), 400);
    assert_eq!(row_limit_within(usize::MAX), 100_000);
    assert_eq!(heaviest_limit_within(0), 5);
    assert_eq!(heaviest_limit_within(20_000), 10_000);
}

#[test]
fn stepped_values_move_through_the_presets() {
    let mut settings = SettingsState::new();
    let mut preferences = defaults();
    adjust_setting(&mut settings, &mut preferences, SettingId::RowLimit, 1);
    assert_eq!(preferences.row_limit, 500);
    preferences.row_limit = 150;
    adjust_setting(&mut settings, &mut preferences, SettingId::RowLimit, -1);
    assert_eq!(preferences.row_limit, 100);
    preferences.row_limit = 1_000_000;
    adjust_setting(&mut settings, &mut preferences, SettingId::RowLimit, 1);
    assert_eq!(preferences.row_limit, 100_000);
    adjust_setting(&mut settings, &mut preferences, SettingId::HeaviestLimit, -1);
    assert_eq!(preferences.heaviest_limit, 50);
    let effect = adjust_setting(&mut settings, &mut preferences, SettingId::DenseThreshold, 1);
    assert_eq!(preferences.dense_threshold, 50_000);
    assert_eq!(effect, SettingEffect::DenseThreshold(50_000));
    assert!(settings.dirty);
}

#[test]
fn ranges_are_clamped() {
    let mut settings = SettingsState::new();
    let mut preferences = defaults();
    preferences.worker_threads = 64;
    assert_eq!(
        adjust_setting(&mut settings, &mut preferences, SettingId::WorkerThreads, 1),
        SettingEffect::WorkerCount(64)
    );
    preferences.worker_threads = 1;
    assert_eq!(
        adjust_setting(&mut settings, &mut preferences, SettingId::WorkerThreads, -1),
        SettingEffect::WorkerCount(1)
    );
    preferences.materialize_depth = 1;
    assert_eq!(
        adjust_setting(&mut settings, &mut preferences, SettingId::MaterializeDepth, -1),
        SettingEffect::MaterializeDepth(1)
    );
    preferences.discovery_max_depth = 2;
    assert_eq!(
        adjust_setting(&mut settings, &mut preferences, SettingId::DiscoveryMaxDepth, -1),
        SettingEffect::CleanerConfig
    );
    assert_eq!(preferences.discovery_max_depth, 2);
    adjust_setting(&mut settings, &mut preferences, SettingId::DiscoveryMaxDepth, 1);
    assert_eq!(preferences.discovery_max_depth, 3);
}

#[test]
fn switches_flip_and_pressing_twice_restores_them() {
    let mut settings = SettingsState::new();
    let mut preferences = defaults();
    for id in [SettingId::ShowFiles, SettingId::SizeBase, SettingId::DeletionMode, SettingId::DockerPruneVolumes] {
        adjust_setting(&mut settings, &mut preferences, id, 1);
    }
    assert!(!preferences.show_files);
    assert_eq!(preferences.size_base, SizeBase::Binary);
    assert_eq!(preferences.deletion_mode, DeletionMode::Trash);
    assert!(preferences.docker_prune_volumes);
    for id in [SettingId::ShowFiles, SettingId::SizeBase, SettingId::DeletionMode, SettingId::DockerPruneVolumes] {
        adjust_setting(&mut settings, &mut preferences, id, -1);
    }
    assert!(preferences.show_files);
    assert_eq!(preferences.size_base, SizeBase::Decimal);
    assert_eq!(preferences.deletion_mode, DeletionMode::Permanent);
    assert!(!preferences.docker_prune_volumes);
}

#[test]
fn size_mode_change_is_passed_on() {
    let mut settings = SettingsState::new();
    let mut preferences = defaults();
    assert_eq!(
        adjust_setting(&mut settings, &mut preferences, SettingId::SizeMode, 1),
        SettingEffect::SizeMode(SizeMode::Apparent)
    );
}

#[test]
fn pausing_is_not_an_unsaved_change() {
    let mut settings = SettingsState::new();
    let mut preferences = defaults();
    let effect = adjust_setting(&mut settings, &mut preferences, SettingId::BackgroundPaused, 1);
    assert_eq!(effect, SettingEffect::BackgroundPaused(true));
    assert!(!settings.dirty);
    let effect = adjust_setting(&mut settings, &mut preferences, SettingId::SaveConfig, 1);
    assert_eq!(effect, SettingEffect::Nothing);
    assert!(!settings.dirty);
    adjust_setting(&mut settings, &mut preferences, SettingId::BackgroundRootScan, 1);
    assert!(settings.dirty);
}

#[test]
fn theme_steps_through_the_palettes() {
    let mut settings = SettingsState::new();
    let mut preferences = defaults();
    let effect = adjust_setting(&mut settings, &mut preferences, SettingId::Theme, -1);
    assert_eq!(effect, SettingEffect::ApplyTheme);
    assert_eq!(preferences.theme_name, "basic");
    adjust_setting(&mut settings, &mut preferences, SettingId::Theme, 1);
    assert_eq!(preferences.theme_name, "terracotta");
    preferences.theme_name = "mystery".to_owned();
    adjust_setting(&mut settings, &mut preferences, SettingId::Theme, 2);
    assert_eq!(preferences.theme_name, "nord");
}

#[test]
fn value_texts() {
    let mut preferences = defaults();
    preferences.dense_threshold = 1_000_000;
    assert_eq!(preferences.value_text(SettingId::Theme), "terracotta");
    assert_eq!(preferences.value_text(SettingId::SizeMode), "allocated");
    assert_eq!(preferences.value_text(SettingId::SizeBase), "decimal (GB)");
    assert_eq!(preferences.value_text(SettingId::ShowFiles), "on");
    assert_eq!(preferences.value_text(SettingId::DockerPruneContainers), "off");
    assert_eq!(preferences.value_text(SettingId::RowLimit), "200");
    assert_eq!(preferences.value_text(SettingId::DenseThreshold), "1,000,000");
    assert_eq!(preferences.value_text(SettingId::WorkerThreads), "8");
    assert_eq!(preferences.value_text(SettingId::MaterializeDepth), "3");
    assert_eq!(preferences.value_text(SettingId::BackgroundPaused), "running");
    assert_eq!(preferences.value_text(SettingId::DeletionMode), "permanent");
    assert_eq!(preferences.value_text(SettingId::ResetDefaults), "\u{23CE}");
}

#[test]
fn switching_theme_by_alias_uses_the_built_in_name() {
    let mut settings = SettingsState::new();
    let mut preferences = defaults();
    let theme = apply_theme_name(&mut preferences, &mut settings, "Tokyo_Night", &[], true);
    assert_eq!(theme, Ok(Theme::tokyo_night()));
    assert_eq!(preferences.theme_name, "tokyo-night");
    assert!(settings.dirty);
}

#[test]
fn switching_theme_without_truecolor_draws_basic() {
    let mut settings = SettingsState::new();
    let mut preferences = defaults();
    let theme = apply_theme_name(&mut preferences, &mut settings, "nord", &[], false);
    assert_eq!(theme, Ok(Theme::basic()));
    assert_eq!(preferences.theme_name, "nord");
    let overrides = vec![("accent".to_owned(), "#010203".to_owned())];
    let theme = apply_theme_name(&mut preferences, &mut settings, "ansi", &overrides, false).unwrap();
    assert_eq!(preferences.theme_name, "basic");
    assert_eq!(theme.accent, tree_cleaner::theme::ColorSpec::Rgb(1, 2, 3));
}

#[test]
fn unknown_theme_changes_nothing() {
    let mut settings = SettingsState::new();
    let mut preferences = defaults();
    let result = apply_theme_name(&mut preferences, &mut settings, "neon", &[], true);
    assert_eq!(result, Err(unknown_theme_message("neon")));
    assert_eq!(
        unknown_theme_message("neon"),
        "unknown theme `neon`; available: terracotta, btop, nord, dracula, gruvbox, catppuccin, \
         tokyo-night, solarized, monochrome, light, basic"
    );
    assert_eq!(preferences.theme_name, "terracotta");
    assert!(!settings.dirty);
}
