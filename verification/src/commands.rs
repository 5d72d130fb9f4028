//! What a `:` command does to the interface, and what it leaves to the scanner, the
//! configuration store and the other services.

use vstd::prelude::*;

use crate::command_line::{
    command_spec, plain_argument,
    CommandLineState, CommandView, DeveloperCommand,
};
use crate::dialogs::{
    ConfirmDialog, Confirmation, DialogOutcome, MessageDialog, Overlay, PendingAction, Severity,
    StatusMessage,
};
use crate::explorer::ExplorerState;
use crate::formatting::{decimal, decimal_string};
use crate::marks::{MarkEntry, Marks};
use crate::model::{DeletionMode, NodeId, SizeBase, SizeMode};
use crate::preferences::{
    lemma_deletion_mode_words, lemma_size_base_words, lemma_size_mode_words, apply_theme_name, clamp_int, deletion_mode_named, deletion_mode_named_spec, row_limit_within,
    size_base_named, size_base_named_spec, size_mode_named, size_mode_named_spec,
    switched_theme, unknown_theme_spec, Preferences,
};
use crate::screen::Screen;
use crate::settings::SettingsState;
use crate::text::{ascii_lower, chars_of};
use crate::theme::{
    canonical_name_spec, listing_line, palette_for_key, theme_key, theme_name_spec, Theme,
    THEME_COUNT,
};

verus! {

/// The part of the interface that developer commands read and change.
pub struct Session {
    pub screen: Screen,
    pub overlay: Option<Overlay>,
    pub status: Option<StatusMessage>,
    pub explorer: ExplorerState,
    pub marks: Marks,
    pub preferences: Preferences,
    pub settings: SettingsState,
    /// The colours drawn with.
    pub theme: Theme,
    /// Whether the terminal shows truecolor.
    pub truecolor: bool,
    /// The `[theme]` colour overrides of the configuration file.
    pub theme_overrides: Vec<(String, String)>,
    /// Something to run with the interface suspended.
    pub pending_foreground: Option<PendingAction>,
    pub should_quit: bool,
    /// The `:` line, and whether it is being typed.
    pub command_line: CommandLineState,
    pub command_mode: bool,
}

/// Work a command leaves to the services around the interface.
#[derive(Clone, Debug, PartialEq, Eq)]
pub enum CommandEffect {
    Nothing,
    /// Show the scanner statistics.
    ShowStatistics,
    /// Show where the configuration file is.
    ShowConfigPath,
    /// Write the preferences to the configuration file.
    SaveSettings,
    /// Read the configuration file again and apply it.
    ReloadConfig,
    /// Open this directory (as typed; `~` is the home directory).
    OpenPath(String),
    /// Measure the directory again; `expand` forces a dense directory open.
    Rescan { node: NodeId, expand: bool },
    SetWorkerCount(usize),
    SetDenseThreshold(usize),
    SetMaterializeDepth(u16),
    SetBackgroundPaused(bool),
    SetSizeMode(SizeMode),
    /// Look for the heaviest files below the current directory, keeping this many.
    StartHeaviestQuery(Option<usize>),
    /// Show the selected row (or the current directory) in the file manager.
    Reveal,
    /// Write the mount points to the log and show it.
    ListMounts,
    /// Write the current rows as TSV to this file.
    ExportRows(String),
    SwitchScreen(Screen),
}

/// The effect a command asks for, from its view.
pub open spec fn effect_spec(session: Session, command: CommandView) -> CommandEffect {
    match command {
        CommandView::ShowStatistics => CommandEffect::ShowStatistics,
        CommandView::ShowConfigPath => CommandEffect::ShowConfigPath,
        CommandView::SaveConfig => CommandEffect::SaveSettings,
        CommandView::ReloadConfig => CommandEffect::ReloadConfig,
        CommandView::Rescan => match session.explorer.current {
            Some(node) => CommandEffect::Rescan { node, expand: false },
            None => CommandEffect::Nothing,
        },
        CommandView::ExpandDense => match session.explorer.current {
            Some(node) => CommandEffect::Rescan { node, expand: true },
            None => CommandEffect::Nothing,
        },
        CommandView::SetWorkerThreads(n) => CommandEffect::SetWorkerCount(n as usize),
        CommandView::SetDenseThreshold(n) => CommandEffect::SetDenseThreshold(n as usize),
        CommandView::SetMaterializeDepth(n) => CommandEffect::SetMaterializeDepth(n as u16),
        CommandView::PauseBackground => CommandEffect::SetBackgroundPaused(true),
        CommandView::ResumeBackground => CommandEffect::SetBackgroundPaused(false),
        CommandView::SetSizeMode(word) => match size_mode_named_spec(word) {
            Some(mode) => CommandEffect::SetSizeMode(mode),
            None => CommandEffect::Nothing,
        },
        CommandView::HeaviestFiles(limit) => CommandEffect::StartHeaviestQuery(
            match limit {
                Some(n) => Some(n as usize),
                None => None,
            },
        ),
        CommandView::Reveal => CommandEffect::Reveal,
        CommandView::ListMounts => CommandEffect::ListMounts,
        CommandView::Cleaner => CommandEffect::SwitchScreen(Screen::Cleaner),
        CommandView::Dashboard => CommandEffect::SwitchScreen(Screen::Dashboard),
        CommandView::Explorer => CommandEffect::SwitchScreen(Screen::Explorer),
        _ => CommandEffect::Nothing,
    }
}

/// The status line a command leaves, with how serious it is; `None` when it leaves the
/// status line as it was (the theme commands are described apart).
pub open spec fn status_spec(session: Session, command: CommandView) -> Option<(Seq<char>, Severity)> {
    match command {
        CommandView::Rescan => match session.explorer.current {
            Some(_) => Some(("rescanning"@, Severity::Info)),
            None => None,
        },
        CommandView::ExpandDense => match session.explorer.current {
            Some(_) => Some(
                ("expanding dense directory (this may take a while)"@, Severity::Warning),
            ),
            None => None,
        },
        CommandView::SetRowLimit(n) => Some(
            (
                "showing up to "@ + decimal(clamp_int(n as int, 5, 100_000) as nat) + " rows"@,
                Severity::Info,
            ),
        ),
        CommandView::SetWorkerThreads(n) => Some(
            ("scanner threads: "@ + decimal(n), Severity::Info),
        ),
        CommandView::SetDenseThreshold(n) => Some(
            ("dense threshold: "@ + decimal(n) + " entries"@, Severity::Info),
        ),
        CommandView::SetMaterializeDepth(n) => Some(
            ("materialise depth: "@ + decimal(n), Severity::Info),
        ),
        CommandView::PauseBackground => Some(("background scanning paused"@, Severity::Info)),
        CommandView::ResumeBackground => Some(("background scanning resumed"@, Severity::Info)),
        CommandView::SetSizeMode(word) => match size_mode_named_spec(word) {
            Some(mode) => Some(("showing "@ + mode.label_spec() + " sizes"@, Severity::Info)),
            None => Some(("unknown size mode `"@ + word + "`"@, Severity::Warning)),
        },
        CommandView::SetSizeBase(word) => match size_base_named_spec(word) {
            Some(_) => Some(("size base changed"@, Severity::Info)),
            None => Some(("unknown size base `"@ + word + "`"@, Severity::Warning)),
        },
        CommandView::SetDeletionMode(word) => match deletion_mode_named_spec(word) {
            Some(mode) => Some(("deletion mode: "@ + mode.label_spec(), Severity::Info)),
            None => Some(("unknown deletion mode `"@ + word + "`"@, Severity::Warning)),
        },
        CommandView::Filter(text) => match text {
            Some(t) if t.len() > 0 => Some(("filter: "@ + t, Severity::Info)),
            _ => Some(("filter cleared"@, Severity::Info)),
        },
        CommandView::ClearMarks => Some(("marks cleared"@, Severity::Info)),
        CommandView::Unknown(reason) => Some((reason, Severity::Warning)),
        _ => None,
    }
}

/// Whether `status` is the line `text` at `severity`.
pub open spec fn status_is(status: Option<StatusMessage>, text: Seq<char>, severity: Severity) -> bool {
    status matches Some(message) && message.text@ == text && message.severity == severity
}

/// The last line of the palette list.
pub open spec fn theme_hint() -> Seq<char> {
    ":theme <name> switches \u{b7} [theme] in the config file overrides single colours"@
}

/// Whether `dialog` is the palette list with `current` marked.
pub open spec fn is_theme_list(dialog: MessageDialog, current: Seq<char>) -> bool {
    &&& dialog.title@ == "Themes"@
    &&& dialog.severity == Severity::Info
    &&& dialog.lines@.len() == THEME_COUNT + 2
    &&& forall|k: int|
        0 <= k < THEME_COUNT ==> (#[trigger] dialog.lines@[k])@ == listing_line(
            theme_name_spec(k),
            current,
        )
    &&& dialog.lines@[THEME_COUNT as int]@ == Seq::<char>::empty()
    &&& dialog.lines@[THEME_COUNT + 1]@ == theme_hint()
}

fn set_status(session: &mut Session, text: String, severity: Severity)
    ensures
        status_is(final(session).status, text@, severity),
        *final(session) == (Session { status: final(session).status, ..*old(session) }),
{
    session.show_status(text, severity);
}

fn text_of(literal: &str) -> (text: String)
    ensures
        text@ == literal@,
{
    String::from_str(literal)
}

fn quoted(prefix: &str, word: &String, suffix: &str) -> (text: String)
    ensures
        text@ == prefix@ + word@ + suffix@,
{
    let mut text = String::from_str(prefix);
    text.append(word.as_str());
    text.append(suffix);
    text
}

/// Whether `dialog` asks, before leaving, whether to save the preferences changed since they
/// were last saved.
pub open spec fn is_unsaved_question(dialog: ConfirmDialog) -> bool {
    &&& dialog.title@ == "Unsaved preferences"@
    &&& dialog.confirmation == Confirmation::SaveOrDiscard
    &&& dialog.action == PendingAction::SaveAndQuit
    &&& !dialog.dangerous
    &&& dialog.lines@.len() == 3
    &&& dialog.lines@[0]@ == "Some preferences changed since they were last saved."@
    &&& dialog.lines@[1]@ == Seq::<char>::empty()
    &&& dialog.lines@[2]@ == "Press y to save and quit, n to quit without saving, Esc to stay."@
}

/// What carrying out `command` does, from the session `before` to the session `after`, and
/// the work it leaves to the services.
pub open spec fn command_outcome(
    before: Session,
    after: Session,
    command: DeveloperCommand,
    effect: CommandEffect,
) -> bool {
    &&& effect == (match command {
        DeveloperCommand::GoTo(path) => CommandEffect::OpenPath(path),
        DeveloperCommand::Export(path) => CommandEffect::ExportRows(path),
        _ => effect_spec(before, command@),
    })
    &&& after.should_quit == (before.should_quit || (command is Quit && !before.settings.dirty))
    &&& command is Quit && before.settings.dirty ==> (after.overlay matches Some(
        Overlay::Confirm(dialog),
    ) && is_unsaved_question(dialog))
    &&& !(command matches DeveloperCommand::Theme(None)) && !(command is Quit
        && before.settings.dirty) ==> after.overlay == (match command {
        DeveloperCommand::Help => Some(Overlay::Help),
        DeveloperCommand::ShowLog => Some(Overlay::Log),
        DeveloperCommand::Settings => Some(Overlay::Settings),
        _ => before.overlay,
    })
    &&& command matches DeveloperCommand::Theme(None) ==> after.overlay matches Some(
        Overlay::Message(dialog),
    ) && is_theme_list(dialog, before.preferences.theme_name@)
    &&& command matches DeveloperCommand::Theme(Some(name)) ==> match canonical_name_spec(name@) {
        Some(canonical) => {
            &&& after.theme == switched_theme(
                palette_for_key(theme_key(name@))->0,
                canonical,
                before.theme_overrides@,
                before.truecolor,
            )
            &&& after.preferences.theme_name@ == canonical
            &&& after.settings.dirty
            &&& status_is(
                after.status,
                "theme: "@ + canonical + " (s in Settings saves it)"@,
                Severity::Info,
            )
        },
        None => {
            &&& after.theme == before.theme
            &&& after.preferences.theme_name == before.preferences.theme_name
            &&& after.settings.dirty == before.settings.dirty
            &&& status_is(after.status, unknown_theme_spec(name@), Severity::Warning)
        },
    }
    &&& !(command is Theme) ==> {
        &&& after.theme == before.theme
        &&& after.preferences.theme_name == before.preferences.theme_name
        &&& after.settings == before.settings
    }
    &&& match status_spec(before, command@) {
        Some((text, severity)) => status_is(after.status, text, severity),
        None => !(command is Theme) ==> after.status == before.status,
    }
    &&& after.pending_foreground == (if command is EditConfig {
        Some(PendingAction::EditConfigFile)
    } else {
        before.pending_foreground
    })
    &&& after.screen == (if command is Filter {
        Screen::Explorer
    } else {
        before.screen
    })
    &&& after.marks@ == (if command is ClearMarks {
        Seq::<MarkEntry>::empty()
    } else {
        before.marks@
    })
    &&& after.explorer.row_limit == (match command {
        DeveloperCommand::SetRowLimit(n) => clamp_int(n as int, 5, 100_000),
        _ => before.explorer.row_limit as int,
    })
    &&& after.explorer.filter == (match command {
        DeveloperCommand::Filter(text) => match text {
            Some(t) => if t@.len() > 0 {
                Some(t)
            } else {
                None
            },
            None => None,
        },
        _ => before.explorer.filter,
    })
    &&& after.explorer.rows@ == before.explorer.rows@
    &&& after.explorer.current == before.explorer.current
    &&& after.explorer.selected == before.explorer.selected
    &&& after.explorer.show_files == before.explorer.show_files
    &&& after.explorer.selected_key == before.explorer.selected_key
    &&& after.explorer.table_selection == before.explorer.table_selection
    &&& after.explorer.unlimited_row_count == before.explorer.unlimited_row_count
    &&& after.preferences.show_files == before.preferences.show_files
    &&& after.preferences.heaviest_limit == before.preferences.heaviest_limit
    &&& after.preferences.background_root_scan == before.preferences.background_root_scan
    &&& after.preferences.docker_enabled == before.preferences.docker_enabled
    &&& after.preferences.docker_prune_containers == before.preferences.docker_prune_containers
    &&& after.preferences.docker_prune_volumes == before.preferences.docker_prune_volumes
    &&& after.preferences.docker_prune_build_cache
        == before.preferences.docker_prune_build_cache
    &&& after.preferences.discovery_max_depth == before.preferences.discovery_max_depth
    &&& after.truecolor == before.truecolor
    &&& after.theme_overrides == before.theme_overrides
    &&& after.command_line == before.command_line
    &&& after.command_mode == before.command_mode
    &&& after.preferences.row_limit == (match command {
        DeveloperCommand::SetRowLimit(n) => clamp_int(n as int, 5, 100_000),
        _ => before.preferences.row_limit as int,
    })
    &&& after.preferences.worker_threads == (match command {
        DeveloperCommand::SetWorkerThreads(n) => n,
        _ => before.preferences.worker_threads,
    })
    &&& after.preferences.dense_threshold == (match command {
        DeveloperCommand::SetDenseThreshold(n) => n,
        _ => before.preferences.dense_threshold,
    })
    &&& after.preferences.materialize_depth == (match command {
        DeveloperCommand::SetMaterializeDepth(n) => n,
        _ => before.preferences.materialize_depth,
    })
    &&& after.preferences.background_paused == (match command {
        DeveloperCommand::PauseBackground => true,
        DeveloperCommand::ResumeBackground => false,
        _ => before.preferences.background_paused,
    })
    &&& after.preferences.size_mode == (match command {
        DeveloperCommand::SetSizeMode(word) => match size_mode_named_spec(word@) {
            Some(mode) => mode,
            None => before.preferences.size_mode,
        },
        _ => before.preferences.size_mode,
    })
    &&& after.preferences.size_base == (match command {
        DeveloperCommand::SetSizeBase(word) => match size_base_named_spec(word@) {
            Some(base) => base,
            None => before.preferences.size_base,
        },
        _ => before.preferences.size_base,
    })
    &&& after.preferences.deletion_mode == (match command {
        DeveloperCommand::SetDeletionMode(word) => match deletion_mode_named_spec(word@) {
            Some(mode) => mode,
            None => before.preferences.deletion_mode,
        },
        _ => before.preferences.deletion_mode,
    })
}

proof fn lemma_trash_word_runs(
    before: Session,
    after: Session,
    command: DeveloperCommand,
    effect: CommandEffect,
    word: Seq<char>,
    line: Seq<char>,
)
    requires
        command_outcome(before, after, command, effect),
        word == "off"@ || word == "on"@,
        line == "trash "@ + word,
        command@ == command_spec(line),
    ensures
        after.preferences.deletion_mode == (if word == "off"@ {
            DeletionMode::Permanent
        } else {
            DeletionMode::Trash
        }),
        status_is(
            after.status,
            "deletion mode: "@ + (if word == "off"@ {
                "permanent"@
            } else {
                "trash"@
            }),
            Severity::Info,
        ),
{
    reveal_strlit("off");
    reveal_strlit("on");
    assert(plain_argument(word));
    assert(ascii_lower(word) =~= word);
    crate::command_line::lemma_meaning_with_argument_trash(word);
    lemma_deletion_mode_words(word, DeletionMode::Permanent);
    lemma_deletion_mode_words(word, DeletionMode::Trash);
}

proof fn lemma_mode_and_base_words_run(
    before: Session,
    after: Session,
    command: DeveloperCommand,
    effect: CommandEffect,
)
    requires
        command_outcome(before, after, command, effect),
    ensures
        command@ == command_spec("mode "@ + "apparent"@) ==> after.preferences.size_mode
            == SizeMode::Apparent,
        command@ == command_spec("base "@ + "binary"@) ==> after.preferences.size_base
            == SizeBase::Binary,
{
    reveal_strlit("apparent");
    reveal_strlit("binary");
    assert(plain_argument("apparent"@) && plain_argument("binary"@));
    assert(ascii_lower("apparent"@) =~= "apparent"@);
    assert(ascii_lower("binary"@) =~= "binary"@);
    crate::command_line::lemma_meaning_with_argument_mode("apparent"@);
    crate::command_line::lemma_meaning_with_argument_base("binary"@);
    lemma_size_mode_words("apparent"@, SizeMode::Apparent);
    lemma_size_base_words("binary"@, SizeBase::Binary);
}

proof fn lemma_plain_words_run(
    before: Session,
    after: Session,
    command: DeveloperCommand,
    effect: CommandEffect,
)
    requires
        command_outcome(before, after, command, effect),
    ensures
        command@ == command_spec("pause"@) ==> after.preferences.background_paused,
        command@ == command_spec("resume"@) ==> !after.preferences.background_paused,
        command@ == command_spec("unmark"@) ==> after.marks@.len() == 0,
        command@ == command_spec("q"@) && !before.settings.dirty ==> after.should_quit,
        command@ == command_spec("q"@) && before.settings.dirty ==> (after.should_quit
            == before.should_quit && (after.overlay matches Some(Overlay::Confirm(dialog))
            && is_unsaved_question(dialog))),
{
    crate::command_line::lemma_meaning_alone_pause();
    crate::command_line::lemma_meaning_alone_resume();
    crate::command_line::lemma_meaning_alone_unmark();
    crate::command_line::lemma_meaning_alone_q();
}

/// Running a typed command changes what the command names: `:trash off` makes deletions
/// permanent and `:trash on` sends them to the Trash, saying so; `:mode apparent` shows
/// apparent sizes and `:base binary` binary units; `:pause` and `:resume` pause and resume
/// the background scan; `:unmark` clears the marks; `:q` quits when nothing is unsaved and
/// asks first otherwise.
pub proof fn lemma_typed_commands_take_effect(
    before: Session,
    after: Session,
    command: DeveloperCommand,
    effect: CommandEffect,
)
    requires
        command_outcome(before, after, command, effect),
    ensures
        command@ == command_spec("trash "@ + "off"@) ==> after.preferences.deletion_mode
            == DeletionMode::Permanent && status_is(
            after.status,
            "deletion mode: "@ + "permanent"@,
            Severity::Info,
        ),
        command@ == command_spec("trash "@ + "on"@) ==> after.preferences.deletion_mode
            == DeletionMode::Trash && status_is(
            after.status,
            "deletion mode: "@ + "trash"@,
            Severity::Info,
        ),
        command@ == command_spec("mode "@ + "apparent"@) ==> after.preferences.size_mode
            == SizeMode::Apparent,
        command@ == command_spec("base "@ + "binary"@) ==> after.preferences.size_base
            == SizeBase::Binary,
        command@ == command_spec("pause"@) ==> after.preferences.background_paused,
        command@ == command_spec("resume"@) ==> !after.preferences.background_paused,
        command@ == command_spec("unmark"@) ==> after.marks@.len() == 0,
        command@ == command_spec("q"@) && !before.settings.dirty ==> after.should_quit,
        command@ == command_spec("q"@) && before.settings.dirty ==> (after.should_quit
            == before.should_quit && (after.overlay matches Some(Overlay::Confirm(dialog))
            && is_unsaved_question(dialog))),
{
    reveal_strlit("off");
    reveal_strlit("on");
    if command@ == command_spec("trash "@ + "off"@) {
        lemma_trash_word_runs(before, after, command, effect, "off"@, "trash "@ + "off"@);
    }
    if command@ == command_spec("trash "@ + "on"@) {
        lemma_trash_word_runs(before, after, command, effect, "on"@, "trash "@ + "on"@);
    }
    lemma_mode_and_base_words_run(before, after, command, effect);
    lemma_plain_words_run(before, after, command, effect);
}

/// Which part of `execute_command` carries out a command.
pub open spec fn command_group(command: DeveloperCommand) -> int {
    match command {
        DeveloperCommand::Theme(_) => 1,
        DeveloperCommand::Rescan | DeveloperCommand::ExpandDense => 2,
        DeveloperCommand::SetWorkerThreads(_) | DeveloperCommand::SetDenseThreshold(_)
        | DeveloperCommand::SetMaterializeDepth(_) | DeveloperCommand::PauseBackground
        | DeveloperCommand::ResumeBackground => 3,
        DeveloperCommand::SetRowLimit(_) | DeveloperCommand::SetSizeMode(_)
        | DeveloperCommand::SetSizeBase(_) | DeveloperCommand::SetDeletionMode(_) => 4,
        DeveloperCommand::Filter(_) | DeveloperCommand::ClearMarks
        | DeveloperCommand::Unknown(_) => 5,
        _ => 0,
    }
}

fn group_of(command: &DeveloperCommand) -> (group: u8)
    ensures
        group == command_group(*command),
{
    match command {
        DeveloperCommand::Theme(_) => 1,
        DeveloperCommand::Rescan | DeveloperCommand::ExpandDense => 2,
        DeveloperCommand::SetWorkerThreads(_) | DeveloperCommand::SetDenseThreshold(_)
        | DeveloperCommand::SetMaterializeDepth(_) | DeveloperCommand::PauseBackground
        | DeveloperCommand::ResumeBackground => 3,
        DeveloperCommand::SetRowLimit(_) | DeveloperCommand::SetSizeMode(_)
        | DeveloperCommand::SetSizeBase(_) | DeveloperCommand::SetDeletionMode(_) => 4,
        DeveloperCommand::Filter(_) | DeveloperCommand::ClearMarks
        | DeveloperCommand::Unknown(_) => 5,
        _ => 0,
    }
}

impl Session {
    /// Shows `text` in the status line for a few seconds.
    pub fn show_status(&mut self, text: String, severity: Severity)
        ensures
            status_is(final(self).status, text@, severity),
            *final(self) == (Session { status: final(self).status, ..*old(self) }),
    {
        self.status = Some(StatusMessage::new(text, severity));
    }

    /// Says how writing the rows of `:export` went: `written` is the file written, or what
    /// went wrong.
    pub fn export_finished(&mut self, written: Result<String, String>)
        ensures
            match written {
                Ok(file) => status_is(
                    final(self).status,
                    "exported "@ + decimal(old(self).explorer.rows@.len()) + " rows to "@ + file@,
                    Severity::Success,
                ),
                Err(error) => status_is(
                    final(self).status,
                    "export failed: "@ + error@,
                    Severity::Error,
                ),
            },
            *final(self) == (Session { status: final(self).status, ..*old(self) }),
    {
        match written {
            Ok(file) => {
                let mut text = String::from_str("exported ");
                text.append(decimal_string(self.explorer.rows.len() as u64).as_str());
                text.append(" rows to ");
                text.append(file.as_str());
                self.show_status(text, Severity::Success);
            },
            Err(error) => {
                let mut text = String::from_str("export failed: ");
                text.append(error.as_str());
                self.show_status(text, Severity::Error);
            },
        }
    }

    /// Takes in how an overlay was answered (as `answer_overlay` gives it): the overlay left
    /// on screen, and what follows. A question turned down says so in the status line;
    /// leaving without saving quits; any other action is returned for the services to run.
    pub fn overlay_answered(
        &mut self,
        answer: (Option<Overlay>, DialogOutcome),
    ) -> (action: Option<PendingAction>)
        ensures
            final(self).overlay == answer.0,
            match answer.1 {
                DialogOutcome::Nothing => {
                    &&& action is None
                    &&& *final(self) == (Session { overlay: answer.0, ..*old(self) })
                },
                DialogOutcome::Cancelled => {
                    &&& action is None
                    &&& status_is(final(self).status, "cancelled"@, Severity::Info)
                    &&& *final(self) == (Session {
                        overlay: answer.0,
                        status: final(self).status,
                        ..*old(self)
                    })
                },
                DialogOutcome::Perform(PendingAction::Quit) => {
                    &&& action is None
                    &&& *final(self) == (Session {
                        overlay: answer.0,
                        should_quit: true,
                        ..*old(self)
                    })
                },
                DialogOutcome::Perform(other) => {
                    &&& action == Some(other)
                    &&& *final(self) == (Session { overlay: answer.0, ..*old(self) })
                },
            },
    {
        let (overlay, outcome) = answer;
        self.overlay = overlay;
        match outcome {
            DialogOutcome::Nothing => None,
            DialogOutcome::Cancelled => {
                self.show_status(String::from_str("cancelled"), Severity::Info);
                None
            },
            DialogOutcome::Perform(PendingAction::Quit) => {
                self.should_quit = true;
                None
            },
            DialogOutcome::Perform(other) => Some(other),
        }
    }

    /// Says how showing `path` in the file manager went: `shown` is what the file manager
    /// reported.
    pub fn reveal_finished(&mut self, path: &str, shown: Result<(), String>)
        ensures
            match shown {
                Ok(_) => status_is(final(self).status, "revealed "@ + path@, Severity::Info),
                Err(error) => status_is(
                    final(self).status,
                    "could not reveal: "@ + error@,
                    Severity::Error,
                ),
            },
            *final(self) == (Session { status: final(self).status, ..*old(self) }),
    {
        match shown {
            Ok(_) => {
                let mut text = String::from_str("revealed ");
                text.append(path);
                self.show_status(text, Severity::Info);
            },
            Err(error) => {
                let mut text = String::from_str("could not reveal: ");
                text.append(error.as_str());
                self.show_status(text, Severity::Error);
            },
        }
    }

    /// Leaves, unless preferences changed since they were last saved: then asks whether to
    /// save them first.
    pub fn request_quit(&mut self)
        ensures
            final(self).should_quit == (old(self).should_quit || !old(self).settings.dirty),
            old(self).settings.dirty ==> (final(self).overlay matches Some(
                Overlay::Confirm(dialog),
            ) && is_unsaved_question(dialog)),
            !old(self).settings.dirty ==> final(self).overlay == old(self).overlay,
            *final(self) == (Session {
                should_quit: final(self).should_quit,
                overlay: final(self).overlay,
                ..*old(self)
            }),
    {
        if self.settings.dirty {
            let mut lines: Vec<String> = Vec::new();
            lines.push(text_of("Some preferences changed since they were last saved."));
            lines.push(String::new());
            lines.push(text_of("Press y to save and quit, n to quit without saving, Esc to stay."));
            let dialog = ConfirmDialog {
                title: text_of("Unsaved preferences"),
                lines,
                confirmation: Confirmation::SaveOrDiscard,
                action: PendingAction::SaveAndQuit,
                dangerous: false,
            };
            proof {
                reveal_strlit("");
            }
            self.overlay = Some(Overlay::Confirm(dialog));
        } else {
            self.should_quit = true;
        }
    }

    /// Carries out `command`: changes what the interface shows and returns the work left to
    /// the services.
    pub fn execute_command(&mut self, command: DeveloperCommand) -> (effect: CommandEffect)
        ensures
            command_outcome(*old(self), *final(self), command, effect),
    {
        let group = group_of(&command);
        if group == 1 {
            self.run_theme_command(command)
        } else if group == 2 {
            self.run_rescan_command(command)
        } else if group == 3 {
            self.run_scanner_command(command)
        } else if group == 4 {
            self.run_view_command(command)
        } else if group == 5 {
            self.run_explorer_command(command)
        } else {
            self.run_plain_command(command)
        }
    }

    #[verifier::spinoff_prover]
    #[verifier::rlimit(60)]
    fn run_plain_command(&mut self, command: DeveloperCommand) -> (effect: CommandEffect)
        requires
            command_group(command) == 0,
        ensures
            command_outcome(*old(self), *final(self), command, effect),
    {
        match command {
            DeveloperCommand::Quit => {
                self.request_quit();
                CommandEffect::Nothing
            },
            DeveloperCommand::Help => {
                self.overlay = Some(Overlay::Help);
                CommandEffect::Nothing
            },
            DeveloperCommand::ShowLog => {
                self.overlay = Some(Overlay::Log);
                CommandEffect::Nothing
            },
            DeveloperCommand::Settings => {
                self.overlay = Some(Overlay::Settings);
                CommandEffect::Nothing
            },
            DeveloperCommand::EditConfig => {
                self.pending_foreground = Some(PendingAction::EditConfigFile);
                CommandEffect::Nothing
            },
            DeveloperCommand::ShowStatistics => CommandEffect::ShowStatistics,
            DeveloperCommand::ShowConfigPath => CommandEffect::ShowConfigPath,
            DeveloperCommand::SaveConfig => CommandEffect::SaveSettings,
            DeveloperCommand::ReloadConfig => CommandEffect::ReloadConfig,
            DeveloperCommand::GoTo(path) => CommandEffect::OpenPath(path),
            DeveloperCommand::HeaviestFiles(limit) => CommandEffect::StartHeaviestQuery(limit),
            DeveloperCommand::Reveal => CommandEffect::Reveal,
            DeveloperCommand::ListMounts => CommandEffect::ListMounts,
            DeveloperCommand::Export(path) => CommandEffect::ExportRows(path),
            DeveloperCommand::Cleaner => CommandEffect::SwitchScreen(Screen::Cleaner),
            DeveloperCommand::Dashboard => CommandEffect::SwitchScreen(Screen::Dashboard),
            DeveloperCommand::Explorer => CommandEffect::SwitchScreen(Screen::Explorer),
            _ => CommandEffect::Nothing,
        }
    }

    fn run_theme_command(&mut self, command: DeveloperCommand) -> (effect: CommandEffect)
        requires
            command_group(command) == 1,
        ensures
            command_outcome(*old(self), *final(self), command, effect),
    {
        match command {
            DeveloperCommand::Theme(Some(name)) => self.switch_theme(name),
            _ => self.list_themes(),
        }
    }

    fn list_themes(&mut self) -> (effect: CommandEffect)
        ensures
            command_outcome(*old(self), *final(self), DeveloperCommand::Theme(None), effect),
    {
        let mut lines = Theme::listing(self.preferences.theme_name.as_str());
        lines.push(String::new());
        lines.push(
            text_of(
                ":theme <name> switches \u{b7} [theme] in the config file overrides single colours",
            ),
        );
        let dialog = MessageDialog { title: text_of("Themes"), lines, severity: Severity::Info };
        self.overlay = Some(Overlay::Message(dialog));
        CommandEffect::Nothing
    }

    fn switch_theme(&mut self, name: String) -> (effect: CommandEffect)
        ensures
            command_outcome(*old(self), *final(self), DeveloperCommand::Theme(Some(name)), effect),
    {
        let truecolor = self.truecolor;
        match apply_theme_name(
            &mut self.preferences,
            &mut self.settings,
            name.as_str(),
            self.theme_overrides.as_slice(),
            truecolor,
        ) {
            Ok(theme) => {
                self.theme = theme;
                let text = quoted("theme: ", &self.preferences.theme_name, " (s in Settings saves it)");
                set_status(self, text, Severity::Info);
            },
            Err(message) => set_status(self, message, Severity::Warning),
        }
        CommandEffect::Nothing
    }

    fn run_rescan_command(&mut self, command: DeveloperCommand) -> (effect: CommandEffect)
        requires
            command_group(command) == 2,
        ensures
            command_outcome(*old(self), *final(self), command, effect),
    {
        let expand = match command {
            DeveloperCommand::ExpandDense => true,
            _ => false,
        };
        match self.explorer.current {
            Some(node) => {
                if expand {
                    set_status(
                        self,
                        text_of("expanding dense directory (this may take a while)"),
                        Severity::Warning,
                    );
                } else {
                    set_status(self, text_of("rescanning"), Severity::Info);
                }
                CommandEffect::Rescan { node, expand }
            },
            None => CommandEffect::Nothing,
        }
    }

    #[verifier::spinoff_prover]
    #[verifier::rlimit(60)]
    fn run_scanner_command(&mut self, command: DeveloperCommand) -> (effect: CommandEffect)
        requires
            command_group(command) == 3,
        ensures
            command_outcome(*old(self), *final(self), command, effect),
    {
        match command {
            DeveloperCommand::SetWorkerThreads(count) => {
                self.preferences.worker_threads = count;
                let mut text = text_of("scanner threads: ");
                text.append(decimal_string(count as u64).as_str());
                set_status(self, text, Severity::Info);
                CommandEffect::SetWorkerCount(count)
            },
            DeveloperCommand::SetDenseThreshold(threshold) => {
                self.preferences.dense_threshold = threshold;
                let mut text = text_of("dense threshold: ");
                text.append(decimal_string(threshold as u64).as_str());
                text.append(" entries");
                set_status(self, text, Severity::Info);
                CommandEffect::SetDenseThreshold(threshold)
            },
            DeveloperCommand::SetMaterializeDepth(depth) => {
                self.preferences.materialize_depth = depth;
                let mut text = text_of("materialise depth: ");
                text.append(decimal_string(depth as u64).as_str());
                set_status(self, text, Severity::Info);
                CommandEffect::SetMaterializeDepth(depth)
            },
            DeveloperCommand::PauseBackground => {
                self.preferences.background_paused = true;
                set_status(self, text_of("background scanning paused"), Severity::Info);
                CommandEffect::SetBackgroundPaused(true)
            },
            _ => {
                self.preferences.background_paused = false;
                set_status(self, text_of("background scanning resumed"), Severity::Info);
                CommandEffect::SetBackgroundPaused(false)
            },
        }
    }

    fn run_view_command(&mut self, command: DeveloperCommand) -> (effect: CommandEffect)
        requires
            command_group(command) == 4,
        ensures
            command_outcome(*old(self), *final(self), command, effect),
    {
        match command {
            DeveloperCommand::SetRowLimit(limit) => self.set_row_limit(limit),
            DeveloperCommand::SetSizeMode(word) => self.set_size_mode(word),
            DeveloperCommand::SetSizeBase(word) => self.set_size_base(word),
            DeveloperCommand::SetDeletionMode(word) => self.set_deletion_mode(word),
            _ => CommandEffect::Nothing,
        }
    }

    fn set_row_limit(&mut self, limit: usize) -> (effect: CommandEffect)
        ensures
            command_outcome(*old(self), *final(self), DeveloperCommand::SetRowLimit(limit), effect),
    {
        let held = row_limit_within(limit);
        self.explorer.row_limit = held;
        self.preferences.row_limit = held;
        let mut text = text_of("showing up to ");
        text.append(decimal_string(held as u64).as_str());
        text.append(" rows");
        set_status(self, text, Severity::Info);
        CommandEffect::Nothing
    }

    fn set_size_mode(&mut self, word: String) -> (effect: CommandEffect)
        ensures
            command_outcome(*old(self), *final(self), DeveloperCommand::SetSizeMode(word), effect),
    {
        match size_mode_named(word.as_str()) {
            Some(mode) => {
                self.preferences.size_mode = mode;
                let mut text = text_of("showing ");
                text.append(mode.label());
                text.append(" sizes");
                set_status(self, text, Severity::Info);
                CommandEffect::SetSizeMode(mode)
            },
            None => {
                set_status(self, quoted("unknown size mode `", &word, "`"), Severity::Warning);
                CommandEffect::Nothing
            },
        }
    }

    fn set_size_base(&mut self, word: String) -> (effect: CommandEffect)
        ensures
            command_outcome(*old(self), *final(self), DeveloperCommand::SetSizeBase(word), effect),
    {
        match size_base_named(word.as_str()) {
            Some(base) => {
                self.preferences.size_base = base;
                set_status(self, text_of("size base changed"), Severity::Info);
            },
            None => {
                set_status(self, quoted("unknown size base `", &word, "`"), Severity::Warning);
            },
        }
        CommandEffect::Nothing
    }

    fn set_deletion_mode(&mut self, word: String) -> (effect: CommandEffect)
        ensures
            command_outcome(
                *old(self),
                *final(self),
                DeveloperCommand::SetDeletionMode(word),
                effect,
            ),
    {
        match deletion_mode_named(word.as_str()) {
            Some(mode) => {
                self.preferences.deletion_mode = mode;
                let mut text = text_of("deletion mode: ");
                text.append(mode.label());
                set_status(self, text, Severity::Info);
            },
            None => {
                set_status(self, quoted("unknown deletion mode `", &word, "`"), Severity::Warning);
            },
        }
        CommandEffect::Nothing
    }

    fn run_explorer_command(&mut self, command: DeveloperCommand) -> (effect: CommandEffect)
        requires
            command_group(command) == 5,
        ensures
            command_outcome(*old(self), *final(self), command, effect),
    {
        match command {
            DeveloperCommand::Filter(filter) => self.set_filter(filter),
            DeveloperCommand::ClearMarks => self.clear_marks(),
            DeveloperCommand::Unknown(reason) => self.report_unknown(reason),
            _ => CommandEffect::Nothing,
        }
    }

    #[verifier::spinoff_prover]
    #[verifier::rlimit(60)]
    fn set_filter(&mut self, filter: Option<String>) -> (effect: CommandEffect)
        ensures
            command_outcome(*old(self), *final(self), DeveloperCommand::Filter(filter), effect),
    {
        let ghost wanted = filter;
        let (kept, text) = match filter {
            Some(t) => {
                if chars_of(t.as_str()).len() > 0 {
                    let mut status = text_of("filter: ");
                    status.append(t.as_str());
                    (Some(t), status)
                } else {
                    (None, text_of("filter cleared"))
                }
            },
            None => (None, text_of("filter cleared")),
        };
        assert(kept == (match wanted {
            Some(t) => if t@.len() > 0 {
                Some(t)
            } else {
                None
            },
            None => None,
        }));
        self.explorer.filter = kept;
        set_status(self, text, Severity::Info);
        self.screen = Screen::Explorer;
        CommandEffect::Nothing
    }

    fn clear_marks(&mut self) -> (effect: CommandEffect)
        ensures
            command_outcome(*old(self), *final(self), DeveloperCommand::ClearMarks, effect),
    {
        self.marks.clear();
        set_status(self, text_of("marks cleared"), Severity::Info);
        CommandEffect::Nothing
    }

    fn report_unknown(&mut self, reason: String) -> (effect: CommandEffect)
        ensures
            command_outcome(*old(self), *final(self), DeveloperCommand::Unknown(reason), effect),
    {
        set_status(self, reason, Severity::Warning);
        CommandEffect::Nothing
    }
}

} // verus!
