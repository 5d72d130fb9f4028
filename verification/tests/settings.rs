use tree_cleaner::settings::{step_through, SettingId, SettingsRow, SettingsState};

#[test]
fn starts_on_the_first_setting() {
    let state = SettingsState::new();
    assert_eq!(state.rows.len(), 26);
    assert_eq!(state.rows[0], SettingsRow::Section("Appearance"));
    assert_eq!(state.selected, 1);
    assert_eq!(state.selected_setting(), Some(SettingId::Theme));
    assert!(!state.dirty);
    assert!(state.last_saved.is_none());
}

#[test]
fn moving_skips_section_headers() {
    let mut state = SettingsState::new();
    state.move_selection(6);
    assert_eq!(state.selected, 8);
    assert_eq!(state.selected_setting(), Some(SettingId::WorkerThreads));
    state.move_selection(-1);
    assert_eq!(state.selected_setting(), Some(SettingId::HeaviestLimit));
    state.move_selection(100);
    assert_eq!(state.selected_setting(), Some(SettingId::ResetDefaults));
    state.move_selection(-100);
    assert_eq!(state.selected, 1);
    state.move_selection(0);
    assert_eq!(state.selected, 1);
}

#[test]
fn first_and_last() {
    let mut state = SettingsState::new();
    state.select_last();
    assert_eq!(state.selected, 25);
    state.select_first();
    assert_eq!(state.selected, 1);
}

#[test]
fn selection_never_rests_on_a_section() {
    let mut state = SettingsState::new();
    for delta in [1isize, 3, -2, 7, -5, 11, 2, -9, 4, 13, -1] {
        state.move_selection(delta);
        assert!(matches!(state.rows[state.selected], SettingsRow::Setting(_)));
    }
}

#[test]
fn labels_and_kinds() {
    assert_eq!(SettingId::SizeBase.label(), "Units");
    assert_eq!(SettingId::ShowFiles.description(), "list the largest files of the current directory next to its folders");
    assert!(SettingId::ResetDefaults.is_action());
    assert!(!SettingId::Theme.is_action());
    assert!(SettingId::BackgroundPaused.is_session_only());
    assert!(!SettingId::DeletionMode.is_session_only());
}

#[test]
fn step_through_presets() {
    let steps = [10usize, 25, 50];
    assert_eq!(step_through(&steps, 25, 1), 50);
    assert_eq!(step_through(&steps, 26, 0), 50);
    assert_eq!(step_through(&steps, 26, -1), 25);
    assert_eq!(step_through(&steps, 1_000, 1), 50);
    assert_eq!(step_through(&steps, 0, -3), 10);
    assert_eq!(step_through(&[7], 3, i32::MAX), 7);
}
