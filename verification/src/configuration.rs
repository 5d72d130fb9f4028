//! Moving values between the configuration file and the interface: making a whole
//! configuration effective, and writing the current values back before a save.

use vstd::prelude::*;

use crate::clock::now;
use crate::commands::{status_is, Session};
use crate::dialogs::{MessageDialog, Overlay, Severity};
use crate::formatting::{home_relative, home_relative_spec};
use crate::model::{DeletionMode, SizeBase, SizeMode};
use crate::preferences::{clamp_int, heaviest_limit_within, row_limit_within, Preferences};
use crate::settings::SettingsState;
use crate::theme::{palette_for_key, requested_theme, resolve_spec, resolve_theme, theme_key, Theme};

verus! {

/// The values of the configuration file that the interface reads, each already parsed.
pub struct ConfigView {
    /// Palette name as written in the file.
    pub theme: String,
    pub show_files: bool,
    pub row_limit: usize,
    pub heaviest_files_limit: usize,
    /// Milliseconds between two frames.
    pub frame_interval_ms: u64,
    pub size_mode: SizeMode,
    pub size_base: SizeBase,
    pub deletion_mode: DeletionMode,
    /// Scanner threads the file asks for; `None` leaves the count to the engine.
    pub worker_threads: Option<usize>,
}

/// What the rest of the program has to do once a configuration is applied.
pub struct AppliedConfig {
    /// The theme to draw with.
    pub theme: Theme,
    /// A warning to show: an unknown palette name or a rejected colour override.
    pub warning: Option<String>,
    /// Milliseconds between two frames, held to `16..=250`.
    pub frame_interval_ms: u64,
    /// Scanner threads to run.
    pub worker_count: usize,
}

/// `after` holds what applying `config` to `before` gives: the palette the configuration
/// resolves to, its modes and flags, its limits held to their ranges, the thread count it
/// asks for (`recommended` when it asks for none), and every other value unchanged.
pub open spec fn config_applied(
    before: Preferences,
    after: Preferences,
    config: ConfigView,
    overrides: Seq<(String, String)>,
    truecolor: bool,
    recommended: usize,
) -> bool {
    &&& after.theme_name@ == resolve_spec(config.theme@, overrides, truecolor).0
    &&& after.size_mode == config.size_mode
    &&& after.size_base == config.size_base
    &&& after.deletion_mode == config.deletion_mode
    &&& after.show_files == config.show_files
    &&& after.row_limit == clamp_int(config.row_limit as int, 5, 100_000)
    &&& after.heaviest_limit == clamp_int(config.heaviest_files_limit as int, 5, 10_000)
    &&& after.worker_threads == (match config.worker_threads {
        Some(n) => n,
        None => recommended,
    })
    &&& after.dense_threshold == before.dense_threshold
    &&& after.materialize_depth == before.materialize_depth
    &&& after.background_root_scan == before.background_root_scan
    &&& after.background_paused == before.background_paused
    &&& after.docker_enabled == before.docker_enabled
    &&& after.docker_prune_containers == before.docker_prune_containers
    &&& after.docker_prune_volumes == before.docker_prune_volumes
    &&& after.docker_prune_build_cache == before.docker_prune_build_cache
    &&& after.discovery_max_depth == before.discovery_max_depth
}

/// Makes a whole configuration effective, after the cleaning service accepted it: the
/// palette (with the `[theme]` overrides in `overrides`), the size mode and units, the
/// deletion mode, the rows and heaviest-files limits, the frame interval and the scanner
/// threads. `recommended` is the thread count the engine picks by itself.
pub fn apply_config(
    preferences: &mut Preferences,
    config: &ConfigView,
    overrides: &[(String, String)],
    truecolor: bool,
    recommended: usize,
) -> (applied: AppliedConfig)
    ensures
        config_applied(
            *old(preferences),
            *final(preferences),
            *config,
            overrides@,
            truecolor,
            recommended,
        ),
        ({
            let (_, theme, warning) = resolve_spec(config.theme@, overrides@, truecolor);
            &&& applied.theme == theme
            &&& match applied.warning {
                Some(w) => warning == Some(w@),
                None => warning is None,
            }
        }),
        applied.frame_interval_ms == clamp_int(config.frame_interval_ms as int, 16, 250),
        applied.worker_count == final(preferences).worker_threads,
{
    let (name, theme, warning) = resolve_theme(config.theme.as_str(), overrides, truecolor);
    preferences.theme_name = name;
    preferences.size_base = config.size_base;
    preferences.deletion_mode = config.deletion_mode;
    preferences.size_mode = config.size_mode;
    preferences.row_limit = row_limit_within(config.row_limit);
    preferences.show_files = config.show_files;
    preferences.heaviest_limit = heaviest_limit_within(config.heaviest_files_limit);
    let frame_interval_ms: u64 = if config.frame_interval_ms < 16 {
        16
    } else if config.frame_interval_ms > 250 {
        250
    } else {
        config.frame_interval_ms
    };
    let worker_count = match config.worker_threads {
        Some(n) => n,
        None => recommended,
    };
    preferences.worker_threads = worker_count;
    AppliedConfig { theme, warning, frame_interval_ms, worker_count }
}

/// `after` is `before` with the current values of `preferences` written into it: the
/// palette name, the file list flag, both limits, the modes and the thread count; the
/// frame interval stays as it was.
pub open spec fn config_synced(before: ConfigView, after: ConfigView, preferences: Preferences) -> bool {
    &&& after.theme@ == preferences.theme_name@
    &&& after.show_files == preferences.show_files
    &&& after.row_limit == preferences.row_limit
    &&& after.heaviest_files_limit == preferences.heaviest_limit
    &&& after.size_mode == preferences.size_mode
    &&& after.size_base == preferences.size_base
    &&& after.deletion_mode == preferences.deletion_mode
    &&& after.worker_threads == Some(preferences.worker_threads)
    &&& after.frame_interval_ms == before.frame_interval_ms
}

/// Writes the current values into the configuration, before it is saved.
pub fn sync_config_from_state(config: &mut ConfigView, preferences: &Preferences)
    ensures
        config_synced(*old(config), *final(config), *preferences),
{
    config.theme = preferences.theme_name.clone();
    config.show_files = preferences.show_files;
    config.row_limit = preferences.row_limit;
    config.heaviest_files_limit = preferences.heaviest_limit;
    config.size_mode = preferences.size_mode;
    config.size_base = preferences.size_base;
    config.deletion_mode = preferences.deletion_mode;
    config.worker_threads = Some(preferences.worker_threads);
}

/// A palette name that the configuration reads back as itself: already trimmed and in lower
/// case, and the name of a palette.
pub open spec fn reads_back(name: Seq<char>) -> bool {
    &&& requested_theme(name) == name
    &&& palette_for_key(theme_key(name)) is Some
}

/// What is saved is what comes back: writing the preferences into a configuration and
/// applying that configuration again gives the same preferences, whenever the palette name
/// reads back as itself and both limits lie in their ranges.
pub proof fn lemma_saved_preferences_come_back(
    preferences: Preferences,
    before: ConfigView,
    saved: ConfigView,
    reloaded: Preferences,
    overrides: Seq<(String, String)>,
    truecolor: bool,
    recommended: usize,
)
    requires
        reads_back(preferences.theme_name@),
        5 <= preferences.row_limit <= 100_000,
        5 <= preferences.heaviest_limit <= 10_000,
        config_synced(before, saved, preferences),
        config_applied(preferences, reloaded, saved, overrides, truecolor, recommended),
    ensures
        reloaded.theme_name@ == preferences.theme_name@,
        reloaded.size_mode == preferences.size_mode,
        reloaded.size_base == preferences.size_base,
        reloaded.deletion_mode == preferences.deletion_mode,
        reloaded.show_files == preferences.show_files,
        reloaded.row_limit == preferences.row_limit,
        reloaded.heaviest_limit == preferences.heaviest_limit,
        reloaded.worker_threads == preferences.worker_threads,
        reloaded.dense_threshold == preferences.dense_threshold,
        reloaded.materialize_depth == preferences.materialize_depth,
        reloaded.background_root_scan == preferences.background_root_scan,
        reloaded.background_paused == preferences.background_paused,
        reloaded.docker_enabled == preferences.docker_enabled,
        reloaded.docker_prune_containers == preferences.docker_prune_containers,
        reloaded.docker_prune_volumes == preferences.docker_prune_volumes,
        reloaded.docker_prune_build_cache == preferences.docker_prune_build_cache,
        reloaded.discovery_max_depth == preferences.discovery_max_depth,
{
}

/// The last line of the message about an unreadable configuration file.
pub open spec fn unreadable_hint() -> Seq<char> {
    "The previous values stay in effect. Fix the file and reload (:config reload)."@
}

impl Session {
    /// Says how writing the preferences to `path` went: once written, nothing is left
    /// unsaved and the time is recorded; otherwise the error is shown and nothing else
    /// changes.
    pub fn settings_saved(&mut self, saved: Result<(), String>, path: &str, home: Option<&str>)
        ensures
            match saved {
                Ok(()) => {
                    &&& status_is(
                        final(self).status,
                        "preferences saved to "@ + home_relative_spec(
                            path@,
                            match home {
                                Some(h) => Some(h@),
                                None => None,
                            },
                        ),
                        Severity::Success,
                    )
                    &&& !final(self).settings.dirty
                    &&& final(self).settings.last_saved is Some
                },
                Err(error) => {
                    &&& status_is(
                        final(self).status,
                        "could not save preferences: "@ + error@,
                        Severity::Error,
                    )
                    &&& final(self).settings == old(self).settings
                },
            },
            final(self).settings.rows == old(self).settings.rows,
            final(self).settings.selected == old(self).settings.selected,
            *final(self) == (Session {
                status: final(self).status,
                settings: final(self).settings,
                ..*old(self)
            }),
    {
        match saved {
            Ok(()) => {
                self.settings.dirty = false;
                self.settings.last_saved = Some(now());
                let mut text = String::from_str("preferences saved to ");
                text.append(home_relative(path, home).as_str());
                self.show_status(text, Severity::Success);
            },
            Err(error) => {
                let mut text = String::from_str("could not save preferences: ");
                text.append(error.as_str());
                self.show_status(text, Severity::Error);
            },
        }
    }

    /// A configuration file that could not be read: the previous values stay in effect and
    /// a message says what went wrong and how to go on.
    pub fn config_unreadable(&mut self, error: String)
        ensures
            final(self).overlay matches Some(Overlay::Message(dialog)) && {
                &&& dialog.title@ == "Configuration file could not be read"@
                &&& dialog.lines@.len() == 3
                &&& dialog.lines@[0]@ == error@
                &&& dialog.lines@[1]@ == ""@
                &&& dialog.lines@[2]@ == unreadable_hint()
                &&& dialog.severity == Severity::Error
            },
            *final(self) == (Session { overlay: final(self).overlay, ..*old(self) }),
    {
        let mut lines: Vec<String> = Vec::new();
        lines.push(error);
        lines.push(String::new());
        lines.push(
            String::from_str("The previous values stay in effect. Fix the file and reload (:config reload)."),
        );
        proof {
            reveal_strlit("");
        }
        self.overlay = Some(
            Overlay::Message(
                MessageDialog {
                    title: String::from_str("Configuration file could not be read"),
                    lines,
                    severity: Severity::Error,
                },
            ),
        );
    }

    /// Applies `config` to the session once the cleaning service has `accepted` it; a
    /// refusal changes nothing but the status line. Returns what the services have to
    /// follow.
    fn take_config(&mut self, config: &ConfigView, accepted: Result<(), String>, recommended: usize) -> (applied:
        Option<AppliedConfig>)
        ensures
            match accepted {
                Ok(()) => applied matches Some(a) && {
                    &&& config_applied(
                        old(self).preferences,
                        final(self).preferences,
                        *config,
                        old(self).theme_overrides@,
                        old(self).truecolor,
                        recommended,
                    )
                    &&& a.theme == resolve_spec(config.theme@, old(self).theme_overrides@, old(self).truecolor).1
                    &&& final(self).theme == a.theme
                    &&& a.frame_interval_ms == clamp_int(config.frame_interval_ms as int, 16, 250)
                    &&& a.worker_count == final(self).preferences.worker_threads
                    &&& *final(self) == (Session {
                        preferences: final(self).preferences,
                        theme: final(self).theme,
                        ..*old(self)
                    })
                },
                Err(reason) => {
                    &&& applied is None
                    &&& *final(self) == *old(self)
                },
            },
    {
        match accepted {
            Ok(()) => {
                let applied = apply_config(
                    &mut self.preferences,
                    config,
                    self.theme_overrides.as_slice(),
                    self.truecolor,
                    recommended,
                );
                self.theme = applied.theme;
                Some(applied)
            },
            Err(_) => None,
        }
    }

    /// Takes in a configuration read again from the file, once the cleaning service has
    /// `accepted` it: applied, it leaves nothing unsaved; refused, it changes nothing. The
    /// status line says which.
    pub fn config_reloaded(
        &mut self,
        config: &ConfigView,
        accepted: Result<(), String>,
        recommended: usize,
    ) -> (applied: Option<AppliedConfig>)
        ensures
            match accepted {
                Ok(()) => applied matches Some(a) && {
                    &&& config_applied(
                        old(self).preferences,
                        final(self).preferences,
                        *config,
                        old(self).theme_overrides@,
                        old(self).truecolor,
                        recommended,
                    )
                    &&& a.theme == resolve_spec(config.theme@, old(self).theme_overrides@, old(self).truecolor).1
                    &&& final(self).theme == a.theme
                    &&& a.frame_interval_ms == clamp_int(config.frame_interval_ms as int, 16, 250)
                    &&& a.worker_count == final(self).preferences.worker_threads
                    &&& !final(self).settings.dirty
                    &&& status_is(final(self).status, "configuration reloaded"@, Severity::Success)
                    &&& *final(self) == (Session {
                        preferences: final(self).preferences,
                        theme: final(self).theme,
                        settings: SettingsState { dirty: false, ..old(self).settings },
                        status: final(self).status,
                        ..*old(self)
                    })
                },
                Err(reason) => {
                    &&& applied is None
                    &&& status_is(final(self).status, "configuration rejected: "@ + reason@, Severity::Error)
                    &&& *final(self) == (Session { status: final(self).status, ..*old(self) })
                },
            },
    {
        let refusal = match &accepted {
            Ok(()) => None,
            Err(reason) => Some(reason.clone()),
        };
        let applied = self.take_config(config, accepted, recommended);
        match refusal {
            None => {
                self.settings.dirty = false;
                self.show_status(String::from_str("configuration reloaded"), Severity::Success);
            },
            Some(reason) => {
                let mut text = String::from_str("configuration rejected: ");
                text.append(reason.as_str());
                self.show_status(text, Severity::Error);
            },
        }
        applied
    }

    /// Puts back the default configuration `defaults`, once the cleaning service has
    /// `accepted` it: applied, it counts as an unsaved change; refused, it changes nothing.
    /// The status line says which.
    pub fn settings_reset(
        &mut self,
        defaults: &ConfigView,
        accepted: Result<(), String>,
        recommended: usize,
    ) -> (applied: Option<AppliedConfig>)
        ensures
            match accepted {
                Ok(()) => applied matches Some(a) && {
                    &&& config_applied(
                        old(self).preferences,
                        final(self).preferences,
                        *defaults,
                        old(self).theme_overrides@,
                        old(self).truecolor,
                        recommended,
                    )
                    &&& a.theme == resolve_spec(defaults.theme@, old(self).theme_overrides@, old(self).truecolor).1
                    &&& final(self).theme == a.theme
                    &&& a.frame_interval_ms == clamp_int(defaults.frame_interval_ms as int, 16, 250)
                    &&& a.worker_count == final(self).preferences.worker_threads
                    &&& final(self).settings.dirty
                    &&& status_is(
                        final(self).status,
                        "preferences reset to defaults (not saved yet)"@,
                        Severity::Info,
                    )
                    &&& *final(self) == (Session {
                        preferences: final(self).preferences,
                        theme: final(self).theme,
                        settings: SettingsState { dirty: true, ..old(self).settings },
                        status: final(self).status,
                        ..*old(self)
                    })
                },
                Err(reason) => {
                    &&& applied is None
                    &&& status_is(final(self).status, "could not reset: "@ + reason@, Severity::Error)
                    &&& *final(self) == (Session { status: final(self).status, ..*old(self) })
                },
            },
    {
        let refusal = match &accepted {
            Ok(()) => None,
            Err(reason) => Some(reason.clone()),
        };
        let applied = self.take_config(defaults, accepted, recommended);
        match refusal {
            None => {
                self.settings.dirty = true;
                self.show_status(
                    String::from_str("preferences reset to defaults (not saved yet)"),
                    Severity::Info,
                );
            },
            Some(reason) => {
                let mut text = String::from_str("could not reset: ");
                text.append(reason.as_str());
                self.show_status(text, Severity::Error);
            },
        }
        applied
    }
}

} // verus!
