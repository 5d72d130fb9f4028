//! What the keys of the settings screen do: they move the selection, change the selected
//! value, run the actions on the configuration file, and leave the rest to the services.

use vstd::prelude::*;

use crate::commands::{status_is, Session};
use crate::dialogs::{ConfirmDialog, Confirmation, Overlay, PendingAction, Severity};
use crate::explorer::ExplorerState;
use crate::formatting::{decimal, decimal_string, home_relative, home_relative_spec};
use crate::keys::Key;
use crate::preferences::{
    adjust_setting, adjusted, apply_theme_name, effect_spec, marks_dirty, switched_theme,
    unknown_theme_spec, Preferences, SettingEffect,
};
use crate::screen::Screen;
use crate::settings::{is_action_spec, selection_after, SettingId, SettingsRow, SettingsState};
use crate::text::{chars_are, chars_of};
use crate::theme::{
    canonical_name_spec, describe_spec, lemma_theme_position_bounded, palette_for_key,
    theme_key, theme_name_spec, theme_position, Theme, THEME_COUNT,
};

verus! {

/// Work a key of the settings screen leaves to the services.
#[derive(Clone, Copy, Debug, PartialEq, Eq, Structural)]
pub enum SettingsKeyEffect {
    Nothing,
    /// A value changed, and this has to follow outside the interface.
    Changed(SettingEffect),
    /// Write the preferences to the configuration file.
    SaveSettings,
    /// Read the configuration file again and apply it.
    ReloadConfig,
    SwitchScreen(Screen),
}

/// The setting on the selected row, if that row is one.
pub open spec fn selected_setting_spec(settings: SettingsState) -> Option<SettingId> {
    if settings.selected < settings.rows@.len() {
        match settings.rows@[settings.selected as int] {
            SettingsRow::Setting(id) => Some(id),
            SettingsRow::Section(_) => None,
        }
    } else {
        None
    }
}

/// How many settings a key moves the selection: one up or down with the arrows (or `k` and
/// `j`), six with the page keys.
pub open spec fn settings_cursor_step(key: Key) -> Option<int> {
    match key {
        Key::Up | Key::Char('k') => Some(-1),
        Key::Down | Key::Char('j') => Some(1),
        Key::PageUp => Some(-6),
        Key::PageDown => Some(6),
        _ => None,
    }
}

/// Where Home (`g`) and End (`G`) put the selection: on the first setting, and on the last.
pub open spec fn settings_jump(settings: SettingsState, key: Key) -> Option<int> {
    let rows = settings.rows@;
    match key {
        Key::Home | Key::Char('g') => Some(selection_after(rows, 0, 1)),
        Key::End | Key::Char('G') => {
            let last: int = if rows.len() > 0 {
                rows.len() - 1
            } else {
                0
            };
            Some(
                if last < rows.len() && rows[last] is Section {
                    selection_after(rows, last, -1)
                } else {
                    last
                },
            )
        },
        _ => None,
    }
}

/// How far a key turns the selected value: one step down with Left (`h`, `-`), one up with
/// Right (`l`, `+`, `=`).
pub open spec fn settings_value_step(key: Key) -> Option<int> {
    match key {
        Key::Left | Key::Char('h') | Key::Char('-') => Some(-1),
        Key::Right | Key::Char('l') | Key::Char('+') | Key::Char('=') => Some(1),
        _ => None,
    }
}

/// Whether `dialog` asks before every preference goes back to its default.
pub open spec fn is_reset_question(dialog: ConfirmDialog) -> bool {
    &&& dialog.title@ == "Reset preferences"@
    &&& dialog.confirmation == Confirmation::YesKey
    &&& dialog.action == PendingAction::ResetSettings
    &&& !dialog.dangerous
    &&& dialog.lines@.len() == 4
    &&& dialog.lines@[0]@
        == "Every setting goes back to the built-in default, including the theme."@
    &&& dialog.lines@[1]@ == "Nothing is written until you save (s)."@
    &&& dialog.lines@[2]@ == Seq::<char>::empty()
    &&& dialog.lines@[3]@ == "Press y to reset, n or Esc to keep the current values."@
}

/// The built-in palette name `delta` places on from `current` (an unknown name counts as the
/// first), wrapping around.
pub open spec fn stepped_theme_name(current: Seq<char>, delta: int) -> Seq<char> {
    theme_name_spec((theme_position(current, 0) + delta) % (THEME_COUNT as int))
}

/// What turning the value of the row `id` by `delta` does. The theme row switches to the
/// neighbouring palette as `:theme` would; any other row changes as `adjusted` says, the
/// explorer follows the files and row-limit rows, and a stored value leaves unsaved changes.
pub open spec fn value_changed(
    before: Session,
    after: Session,
    id: SettingId,
    delta: int,
    effect: SettingsKeyEffect,
) -> bool {
    if id == SettingId::Theme {
        let next = stepped_theme_name(before.preferences.theme_name@, delta);
        &&& effect == SettingsKeyEffect::Nothing
        &&& after == Session {
            preferences: after.preferences,
            settings: after.settings,
            theme: after.theme,
            status: after.status,
            ..before
        }
        &&& after.settings == SettingsState { dirty: after.settings.dirty, ..before.settings }
        &&& match canonical_name_spec(next) {
            Some(canonical) => {
                &&& after.preferences == Preferences {
                    theme_name: after.preferences.theme_name,
                    ..before.preferences
                }
                &&& after.preferences.theme_name@ == canonical
                &&& after.theme == switched_theme(
                    palette_for_key(theme_key(next))->0,
                    canonical,
                    before.theme_overrides@,
                    before.truecolor,
                )
                &&& after.settings.dirty
                &&& after.status == before.status
            },
            None => {
                &&& after.preferences == before.preferences
                &&& after.theme == before.theme
                &&& after.settings.dirty == before.settings.dirty
                &&& status_is(after.status, unknown_theme_spec(next), Severity::Warning)
            },
        }
    } else {
        &&& effect == SettingsKeyEffect::Changed(effect_spec(before.preferences, id, delta))
        &&& adjusted(before.preferences, after.preferences, id, delta)
        &&& after.settings == SettingsState {
            dirty: before.settings.dirty || marks_dirty(id),
            ..before.settings
        }
        &&& after.explorer == (if id == SettingId::ShowFiles {
            ExplorerState { show_files: after.preferences.show_files, ..before.explorer }
        } else if id == SettingId::RowLimit {
            ExplorerState { row_limit: after.preferences.row_limit, ..before.explorer }
        } else {
            before.explorer
        })
        &&& after == Session {
            preferences: after.preferences,
            settings: after.settings,
            explorer: after.explorer,
            ..before
        }
    }
}

/// What running the action row `id` does: saving and reloading are left to the services,
/// editing suspends the interface for the editor, and resetting asks first.
pub open spec fn action_run(
    before: Session,
    after: Session,
    id: SettingId,
    effect: SettingsKeyEffect,
) -> bool {
    match id {
        SettingId::SaveConfig => after == before && effect == SettingsKeyEffect::SaveSettings,
        SettingId::EditConfig => {
            &&& after == Session {
                pending_foreground: Some(PendingAction::EditConfigFile),
                ..before
            }
            &&& effect == SettingsKeyEffect::Nothing
        },
        SettingId::ReloadConfig => after == before && effect == SettingsKeyEffect::ReloadConfig,
        SettingId::ResetDefaults => {
            &&& after == Session { overlay: after.overlay, ..before }
            &&& after.overlay matches Some(Overlay::Confirm(dialog)) && is_reset_question(dialog)
            &&& effect == SettingsKeyEffect::Nothing
        },
        _ => after == before && effect == SettingsKeyEffect::Nothing,
    }
}

/// What a key of the settings screen does, from the session `before` to the session `after`,
/// and the work it leaves to the services.
pub open spec fn settings_key_outcome(
    before: Session,
    after: Session,
    key: Key,
    effect: SettingsKeyEffect,
) -> bool {
    let unchanged = after == before && effect == SettingsKeyEffect::Nothing;
    match settings_cursor_step(key) {
        Some(step) => {
            &&& effect == SettingsKeyEffect::Nothing
            &&& after == Session {
                settings: SettingsState {
                    selected: selection_after(
                        before.settings.rows@,
                        before.settings.selected as int,
                        step,
                    ) as usize,
                    ..before.settings
                },
                ..before
            }
        },
        None => match settings_jump(before.settings, key) {
            Some(target) => {
                &&& effect == SettingsKeyEffect::Nothing
                &&& after == Session {
                    settings: SettingsState { selected: target as usize, ..before.settings },
                    ..before
                }
            },
            None => match settings_value_step(key) {
                Some(delta) => match selected_setting_spec(before.settings) {
                    Some(id) => if is_action_spec(id) {
                        unchanged
                    } else {
                        value_changed(before, after, id, delta, effect)
                    },
                    None => unchanged,
                },
                None => match key {
                    Key::Enter | Key::Char(' ') => match selected_setting_spec(before.settings) {
                        Some(id) => if is_action_spec(id) {
                            action_run(before, after, id, effect)
                        } else {
                            value_changed(before, after, id, 1, effect)
                        },
                        None => unchanged,
                    },
                    Key::Char('s') => after == before && effect
                        == SettingsKeyEffect::SaveSettings,
                    Key::Char('e') => action_run(before, after, SettingId::EditConfig, effect),
                    Key::Char('R') => action_run(before, after, SettingId::ResetDefaults, effect),
                    Key::Esc => after == before && effect == SettingsKeyEffect::SwitchScreen(
                        Screen::Explorer,
                    ),
                    _ => unchanged,
                },
            },
        },
    }
}

/// The keys of the settings screen that do the same thing: `k` and Up, `j` and Down, `g`
/// and Home, `G` and End move the selection alike; `h`, `-` and Left turn the value down,
/// `l`, `+`, `=` and Right turn it up, and on a value (not an action) Enter and space turn
/// it up as Right does; `s` saves and changes nothing else; Esc leaves for the explorer.
pub proof fn lemma_settings_key_aliases(
    before: Session,
    after: Session,
    effect: SettingsKeyEffect,
)
    ensures
        settings_key_outcome(before, after, Key::Char('k'), effect) == settings_key_outcome(
            before,
            after,
            Key::Up,
            effect,
        ),
        settings_key_outcome(before, after, Key::Char('j'), effect) == settings_key_outcome(
            before,
            after,
            Key::Down,
            effect,
        ),
        settings_key_outcome(before, after, Key::Char('g'), effect) == settings_key_outcome(
            before,
            after,
            Key::Home,
            effect,
        ),
        settings_key_outcome(before, after, Key::Char('G'), effect) == settings_key_outcome(
            before,
            after,
            Key::End,
            effect,
        ),
        settings_key_outcome(before, after, Key::Char('h'), effect) == settings_key_outcome(
            before,
            after,
            Key::Left,
            effect,
        ),
        settings_key_outcome(before, after, Key::Char('-'), effect) == settings_key_outcome(
            before,
            after,
            Key::Left,
            effect,
        ),
        settings_key_outcome(before, after, Key::Char('l'), effect) == settings_key_outcome(
            before,
            after,
            Key::Right,
            effect,
        ),
        settings_key_outcome(before, after, Key::Char('+'), effect) == settings_key_outcome(
            before,
            after,
            Key::Right,
            effect,
        ),
        settings_key_outcome(before, after, Key::Char('='), effect) == settings_key_outcome(
            before,
            after,
            Key::Right,
            effect,
        ),
        selected_setting_spec(before.settings) matches Some(id) && !is_action_spec(id) ==> {
            &&& settings_key_outcome(before, after, Key::Enter, effect) == settings_key_outcome(
                before,
                after,
                Key::Right,
                effect,
            )
            &&& settings_key_outcome(before, after, Key::Char(' '), effect)
                == settings_key_outcome(before, after, Key::Right, effect)
        },
        settings_key_outcome(before, after, Key::Char('s'), effect) <==> (after == before
            && effect == SettingsKeyEffect::SaveSettings),
        settings_key_outcome(before, after, Key::Esc, effect) <==> (after == before && effect
            == SettingsKeyEffect::SwitchScreen(Screen::Explorer)),
        settings_key_outcome(before, after, Key::Up, effect) ==> after.preferences
            == before.preferences && after.settings.rows == before.settings.rows,
        settings_key_outcome(before, after, Key::Down, effect) ==> after.preferences
            == before.preferences && after.settings.rows == before.settings.rows,
{
}

/// The note in the right column of the row `id`, where the description alone is not enough:
/// for the theme row, the palette's description, and that the terminal shows the 16-colour
/// palette instead or how many colours the configuration overrides; for the save row, where
/// the configuration file is (from the home directory) and whether it exists yet.
pub open spec fn setting_note_spec(
    session: Session,
    id: SettingId,
    config_file: Seq<char>,
    home: Option<Seq<char>>,
    written: bool,
) -> Option<Seq<char>> {
    let name = session.preferences.theme_name@;
    match id {
        SettingId::Theme => Some(
            describe_spec(name) + if !session.truecolor && name != "basic"@ {
                " \u{b7} this terminal has no truecolor, showing basic"@
            } else if session.theme_overrides@.len() > 0 {
                " \u{b7} "@ + decimal(session.theme_overrides@.len())
                    + " colours overridden in [theme]"@
            } else {
                Seq::<char>::empty()
            },
        ),
        SettingId::SaveConfig => Some(
            home_relative_spec(config_file, home) + if written {
                Seq::<char>::empty()
            } else {
                " (not written yet)"@
            },
        ),
        _ => None,
    }
}

impl Session {
    /// Answers a key of the settings screen: moves the selection, changes the selected
    /// value, runs the actions on the configuration file, and returns the work left to the
    /// services.
    pub fn handle_settings_key(&mut self, key: Key) -> (effect: SettingsKeyEffect)
        requires
            old(self).settings.selected < old(self).settings.rows@.len()
                || old(self).settings.selected < isize::MAX,
        ensures
            settings_key_outcome(*old(self), *final(self), key, effect),
    {
        match key {
            Key::Up | Key::Char('k') => {
                self.settings.move_selection(-1);
                SettingsKeyEffect::Nothing
            },
            Key::Down | Key::Char('j') => {
                self.settings.move_selection(1);
                SettingsKeyEffect::Nothing
            },
            Key::PageUp => {
                self.settings.move_selection(-6);
                SettingsKeyEffect::Nothing
            },
            Key::PageDown => {
                self.settings.move_selection(6);
                SettingsKeyEffect::Nothing
            },
            Key::Home | Key::Char('g') => {
                self.settings.select_first();
                SettingsKeyEffect::Nothing
            },
            Key::End | Key::Char('G') => {
                self.settings.select_last();
                SettingsKeyEffect::Nothing
            },
            Key::Left | Key::Char('h') | Key::Char('-') => self.change_selected_setting(-1),
            Key::Right | Key::Char('l') | Key::Char('+') | Key::Char('=') => {
                self.change_selected_setting(1)
            },
            Key::Enter | Key::Char(' ') => match self.settings.selected_setting() {
                Some(id) => if id.is_action() {
                    self.run_setting_action(id)
                } else {
                    self.change_setting(id, 1)
                },
                None => SettingsKeyEffect::Nothing,
            },
            Key::Char('s') => SettingsKeyEffect::SaveSettings,
            Key::Char('e') => self.run_setting_action(SettingId::EditConfig),
            Key::Char('R') => self.run_setting_action(SettingId::ResetDefaults),
            Key::Esc => SettingsKeyEffect::SwitchScreen(Screen::Explorer),
            _ => SettingsKeyEffect::Nothing,
        }
    }

    /// Turns the value of the selected row by `delta`; an action row or a section header
    /// changes nothing.
    fn change_selected_setting(&mut self, delta: i32) -> (effect: SettingsKeyEffect)
        requires
            delta == 1 || delta == -1,
        ensures
            match selected_setting_spec(old(self).settings) {
                Some(id) => if is_action_spec(id) {
                    *final(self) == *old(self) && effect == SettingsKeyEffect::Nothing
                } else {
                    value_changed(*old(self), *final(self), id, delta as int, effect)
                },
                None => *final(self) == *old(self) && effect == SettingsKeyEffect::Nothing,
            },
    {
        match self.settings.selected_setting() {
            Some(id) => if id.is_action() {
                SettingsKeyEffect::Nothing
            } else {
                self.change_setting(id, delta)
            },
            None => SettingsKeyEffect::Nothing,
        }
    }

    /// Turns the value of the row `id` by `delta`.
    fn change_setting(&mut self, id: SettingId, delta: i32) -> (effect: SettingsKeyEffect)
        requires
            !is_action_spec(id),
            delta == 1 || delta == -1,
        ensures
            value_changed(*old(self), *final(self), id, delta as int, effect),
    {
        match id {
            SettingId::Theme => {
                proof {
                    lemma_theme_position_bounded(self.preferences.theme_name@, 0);
                }
                let next = Theme::neighbour_name(self.preferences.theme_name.as_str(), delta as isize);
                let truecolor = self.truecolor;
                match apply_theme_name(
                    &mut self.preferences,
                    &mut self.settings,
                    next,
                    self.theme_overrides.as_slice(),
                    truecolor,
                ) {
                    Ok(theme) => {
                        self.theme = theme;
                    },
                    Err(message) => {
                        self.show_status(message, Severity::Warning);
                    },
                }
                SettingsKeyEffect::Nothing
            },
            _ => {
                let effect = adjust_setting(&mut self.settings, &mut self.preferences, id, delta);
                match id {
                    SettingId::ShowFiles => {
                        self.explorer.show_files = self.preferences.show_files;
                    },
                    SettingId::RowLimit => {
                        self.explorer.row_limit = self.preferences.row_limit;
                    },
                    _ => {},
                }
                SettingsKeyEffect::Changed(effect)
            },
        }
    }

    /// The note of the row `id`, given where the configuration file is, the home directory
    /// and whether the file has been written.
    pub fn setting_note(
        &self,
        id: SettingId,
        config_file: &str,
        home: Option<&str>,
        written: bool,
    ) -> (note: Option<String>)
        ensures
            match setting_note_spec(
                *self,
                id,
                config_file@,
                match home {
                    Some(h) => Some(h@),
                    None => None,
                },
                written,
            ) {
                Some(expected) => note matches Some(text) && text@ == expected,
                None => note is None,
            },
    {
        match id {
            SettingId::Theme => {
                let name = self.preferences.theme_name.as_str();
                let mut text = String::from_str(Theme::describe(name));
                let name_chars = chars_of(name);
                if !self.truecolor && !chars_are(name_chars.as_slice(), "basic") {
                    text.append(" \u{b7} this terminal has no truecolor, showing basic");
                } else if self.theme_overrides.len() > 0 {
                    text.append(" \u{b7} ");
                    text.append(decimal_string(self.theme_overrides.len() as u64).as_str());
                    text.append(" colours overridden in [theme]");
                }
                Some(text)
            },
            SettingId::SaveConfig => {
                let mut text = home_relative(config_file, home);
                if !written {
                    text.append(" (not written yet)");
                }
                Some(text)
            },
            _ => None,
        }
    }

    /// Runs the action row `id`.
    fn run_setting_action(&mut self, id: SettingId) -> (effect: SettingsKeyEffect)
        ensures
            action_run(*old(self), *final(self), id, effect),
    {
        match id {
            SettingId::SaveConfig => SettingsKeyEffect::SaveSettings,
            SettingId::EditConfig => {
                self.pending_foreground = Some(PendingAction::EditConfigFile);
                SettingsKeyEffect::Nothing
            },
            SettingId::ReloadConfig => SettingsKeyEffect::ReloadConfig,
            SettingId::ResetDefaults => {
                let mut lines: Vec<String> = Vec::new();
                lines.push(
                    String::from_str(
                        "Every setting goes back to the built-in default, including the theme.",
                    ),
                );
                lines.push(String::from_str("Nothing is written until you save (s)."));
                lines.push(String::new());
                lines.push(
                    String::from_str("Press y to reset, n or Esc to keep the current values."),
                );
                proof {
                    reveal_strlit("");
                }
                let dialog = ConfirmDialog {
                    title: String::from_str("Reset preferences"),
                    lines,
                    confirmation: Confirmation::YesKey,
                    action: PendingAction::ResetSettings,
                    dangerous: false,
                };
                self.overlay = Some(Overlay::Confirm(dialog));
                SettingsKeyEffect::Nothing
            },
            _ => SettingsKeyEffect::Nothing,
        }
    }
}

} // verus!
