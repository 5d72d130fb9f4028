//! What the keys of each screen do: the changes to the interface state, and the work they
//! leave to the services.

use vstd::prelude::*;

use crate::command_line::{
    clamp_cursor, command_spec, inserted_text, lemma_insert_at_end, previous_index, removed_text,
    submitted_history, CommandLineState, DeveloperCommand,
};
use crate::commands::{command_outcome, status_is, CommandEffect, Session};
use crate::dialogs::Severity;
use crate::explorer::{clamp_index, ExplorerRow, ExplorerState, RowBadge, RowKey};
use crate::formatting::{decimal, decimal_string};
use crate::keys::Key;
use crate::marks::{has_key, toggled, MarkEntry, MarkedItem};
use crate::paths::path_normal;
use crate::model::NodeId;
use crate::preferences::{clamp_int, row_limit_within, Preferences};
use crate::screen::Screen;
use crate::text::{chars_of, trim};

verus! {

// ---------------------------------------------------------------------------------------
// Explorer
// ---------------------------------------------------------------------------------------

/// Work a key of the explorer leaves to the services.
#[derive(Clone, Copy, Debug, PartialEq, Eq, Structural)]
pub enum ExplorerEffect {
    Nothing,
    /// Enter the directory under the cursor (or explain what a file row offers).
    OpenSelected,
    GoToParent,
    /// Mark or unmark the row under the cursor.
    ToggleMark,
    /// Ask before deleting the marks (or the row under the cursor).
    RequestDeletion,
    /// Measure this directory again.
    Rescan(NodeId),
    /// Look for the heaviest files below the current directory.
    StartHeaviestQuery,
    /// Show the row under the cursor in the file manager.
    Reveal,
    SwitchScreen(Screen),
}

/// The directory under the cursor, if the row there is one.
pub open spec fn selected_directory(explorer: ExplorerState) -> Option<NodeId> {
    if explorer.selected < explorer.rows@.len() {
        match explorer.rows@[explorer.selected as int].key {
            RowKey::Directory(node) => Some(node),
            RowKey::File(_) => None,
        }
    } else {
        None
    }
}

/// The work a key of the explorer leaves to the services.
pub open spec fn explorer_effect_spec(before: Session, key: Key) -> ExplorerEffect {
    match key {
        Key::Enter | Key::Right | Key::Char('l') => ExplorerEffect::OpenSelected,
        Key::Backspace | Key::Left | Key::Char('h') | Key::Char('u') => ExplorerEffect::GoToParent,
        Key::Char(' ') => ExplorerEffect::ToggleMark,
        Key::Char('d') => ExplorerEffect::RequestDeletion,
        Key::Char('r') => match before.explorer.current {
            Some(node) => ExplorerEffect::Rescan(node),
            None => ExplorerEffect::Nothing,
        },
        Key::Char('R') => match selected_directory(before.explorer) {
            Some(node) => ExplorerEffect::Rescan(node),
            None => ExplorerEffect::Nothing,
        },
        Key::Char('T') | Key::Char('t') => ExplorerEffect::StartHeaviestQuery,
        Key::Char('o') => ExplorerEffect::Reveal,
        Key::Char('c') => ExplorerEffect::SwitchScreen(Screen::Cleaner),
        _ => ExplorerEffect::Nothing,
    }
}

/// How far a key moves the cursor of a list: one row, or fifteen for a page.
pub open spec fn cursor_step(key: Key) -> Option<int> {
    match key {
        Key::Up | Key::Char('k') => Some(-1),
        Key::Down | Key::Char('j') => Some(1),
        Key::PageUp => Some(-15),
        Key::PageDown => Some(15),
        _ => None,
    }
}

/// What the keys of the explorer ask for, on any session: Enter, Right and `l` open the row
/// under the cursor; Backspace, Left, `h` and `u` go up; space marks the row; `d` asks to
/// delete; `r` measures the current directory again and `R` the directory under the cursor;
/// `t` and `T` look for the heaviest files; `o` reveals; `c` opens the cleaner. `k`, `j`
/// move like the arrows, and the page keys move fifteen rows.
pub proof fn lemma_explorer_keys(before: Session)
    ensures
        explorer_effect_spec(before, Key::Enter) == ExplorerEffect::OpenSelected,
        explorer_effect_spec(before, Key::Right) == ExplorerEffect::OpenSelected,
        explorer_effect_spec(before, Key::Char('l')) == ExplorerEffect::OpenSelected,
        explorer_effect_spec(before, Key::Backspace) == ExplorerEffect::GoToParent,
        explorer_effect_spec(before, Key::Left) == ExplorerEffect::GoToParent,
        explorer_effect_spec(before, Key::Char('h')) == ExplorerEffect::GoToParent,
        explorer_effect_spec(before, Key::Char('u')) == ExplorerEffect::GoToParent,
        explorer_effect_spec(before, Key::Char(' ')) == ExplorerEffect::ToggleMark,
        explorer_effect_spec(before, Key::Char('d')) == ExplorerEffect::RequestDeletion,
        before.explorer.current matches Some(node) ==> explorer_effect_spec(before, Key::Char('r'))
            == ExplorerEffect::Rescan(node),
        selected_directory(before.explorer) matches Some(node) ==> explorer_effect_spec(
            before,
            Key::Char('R'),
        ) == ExplorerEffect::Rescan(node),
        explorer_effect_spec(before, Key::Char('t')) == ExplorerEffect::StartHeaviestQuery,
        explorer_effect_spec(before, Key::Char('T')) == ExplorerEffect::StartHeaviestQuery,
        explorer_effect_spec(before, Key::Char('o')) == ExplorerEffect::Reveal,
        explorer_effect_spec(before, Key::Char('c')) == ExplorerEffect::SwitchScreen(
            Screen::Cleaner,
        ),
        cursor_step(Key::Char('k')) == cursor_step(Key::Up) && cursor_step(Key::Up) == Some(-1int),
        cursor_step(Key::Char('j')) == cursor_step(Key::Down) && cursor_step(Key::Down) == Some(
            1int,
        ),
        cursor_step(Key::PageUp) == Some(-15int) && cursor_step(Key::PageDown) == Some(15int),
{
}

/// The explorer after its cursor was put on row `target` (held to the rows), remembering
/// the item there.
pub open spec fn cursor_on(before: ExplorerState, after: ExplorerState, target: int) -> bool {
    &&& after.rows@ == before.rows@
    &&& after.current == before.current
    &&& after.row_limit == before.row_limit
    &&& after.show_files == before.show_files
    &&& after.filter == before.filter
    &&& after.unlimited_row_count == before.unlimited_row_count
    &&& if before.rows@.len() == 0 {
        &&& after.selected == 0
        &&& after.selected_key is None
        &&& after.table_selection == Some(0usize)
    } else {
        let held = clamp_index(target, before.rows@.len() as int);
        &&& after.selected == held
        &&& after.selected_key == Some(before.rows@[held].key)
        &&& after.table_selection == Some(after.selected)
    }
}

/// The row limit after `+` or `-`: doubled (held at the largest `usize`) or halved, then held
/// to `5..=100_000`.
pub open spec fn stepped_row_limit(limit: usize, key: Key) -> int {
    if key == Key::Char('-') {
        clamp_int((limit / 2) as int, 5, 100_000)
    } else {
        clamp_int(if 2 * limit > usize::MAX {
            usize::MAX as int
        } else {
            2 * limit
        }, 5, 100_000)
    }
}

impl Session {
    /// Answers a key of the explorer: moves the cursor, folds marks, files, the row limit and
    /// the filter in place, and returns the work left to the services.
    #[verifier::spinoff_prover]
    #[verifier::rlimit(60)]
    pub fn handle_explorer_key(&mut self, key: Key) -> (effect: ExplorerEffect)
        requires
            old(self).explorer.selected + 15 <= isize::MAX,
            old(self).explorer.rows@.len() <= isize::MAX,
        ensures
            effect == explorer_effect_spec(*old(self), key),
            final(self).screen == old(self).screen,
            final(self).overlay == old(self).overlay,
            final(self).preferences.theme_name == old(self).preferences.theme_name,
            final(self).settings == old(self).settings,
            final(self).theme == old(self).theme,
            final(self).should_quit == old(self).should_quit,
            final(self).pending_foreground == old(self).pending_foreground,
            final(self).marks@ == (if key == Key::Char('x') {
                Seq::<MarkEntry>::empty()
            } else {
                old(self).marks@
            }),
            match cursor_step(key) {
                Some(step) => old(self).explorer.rows@.len() > 0 ==> cursor_on(
                    old(self).explorer,
                    final(self).explorer,
                    old(self).explorer.selected + step,
                ),
                None => true,
            },
            old(self).explorer.rows@.len() == 0 && cursor_step(key) is Some
                ==> final(self).explorer == old(self).explorer,
            key == Key::Home || key == Key::Char('g') ==> cursor_on(
                old(self).explorer,
                final(self).explorer,
                0,
            ),
            key == Key::End || key == Key::Char('G') ==> cursor_on(
                old(self).explorer,
                final(self).explorer,
                old(self).explorer.rows@.len() - 1,
            ),
            key == Key::Char('x') ==> status_is(
                final(self).status,
                "marks cleared"@,
                Severity::Info,
            ),
            key == Key::Char('r') && old(self).explorer.current is Some ==> status_is(
                final(self).status,
                "rescanning current directory"@,
                Severity::Info,
            ),
            key == Key::Char('R') && selected_directory(old(self).explorer) is Some ==> status_is(
                final(self).status,
                "rescanning selected directory"@,
                Severity::Info,
            ),
            key == Key::Char('f') ==> {
                &&& final(self).explorer.show_files == !old(self).explorer.show_files
                &&& final(self).preferences.show_files == final(self).explorer.show_files
                &&& status_is(
                    final(self).status,
                    if final(self).explorer.show_files {
                        "files shown"@
                    } else {
                        "files hidden"@
                    },
                    Severity::Info,
                )
            },
            key == Key::Char('+') || key == Key::Char('=') || key == Key::Char('-') ==> {
                let limit = stepped_row_limit(old(self).explorer.row_limit, key);
                &&& final(self).explorer.row_limit == limit
                &&& final(self).preferences.row_limit == limit
                &&& status_is(
                    final(self).status,
                    "showing up to "@ + decimal(limit as nat) + " rows"@,
                    Severity::Info,
                )
            },
            key == Key::Char('/') ==> {
                &&& final(self).command_mode
                &&& final(self).command_line.input@ == "filter "@
                &&& final(self).command_line.cursor == 7
                &&& final(self).command_line.history == old(self).command_line.history
                &&& final(self).command_line.history_index is None
            },
            key != Key::Char('/') ==> final(self).command_line == old(self).command_line
                && final(self).command_mode == old(self).command_mode,
            key == Key::Esc && old(self).explorer.filter is Some ==> {
                &&& final(self).explorer.filter is None
                &&& status_is(final(self).status, "filter cleared"@, Severity::Info)
            },
            !(key == Key::Esc && old(self).explorer.filter is Some) ==> final(self).explorer.filter
                == old(self).explorer.filter,
            cursor_step(key) is None && !(key == Key::Home || key == Key::Char('g') || key
                == Key::End || key == Key::Char('G')) ==> {
                &&& final(self).explorer.rows@ == old(self).explorer.rows@
                &&& final(self).explorer.selected == old(self).explorer.selected
                &&& final(self).explorer.selected_key == old(self).explorer.selected_key
                &&& final(self).explorer.table_selection == old(self).explorer.table_selection
                &&& final(self).explorer.current == old(self).explorer.current
            },
            !(key == Key::Char('x') || key == Key::Char('r') || key == Key::Char('R') || key
                == Key::Char('f') || key == Key::Char('+') || key == Key::Char('=') || key
                == Key::Char('-') || key == Key::Esc) ==> final(self).status == old(self).status,
    {
        match key {
            Key::Up | Key::Char('k') => {
                self.explorer.move_selection(-1);
                ExplorerEffect::Nothing
            },
            Key::Down | Key::Char('j') => {
                self.explorer.move_selection(1);
                ExplorerEffect::Nothing
            },
            Key::PageUp => {
                self.explorer.move_selection(-15);
                ExplorerEffect::Nothing
            },
            Key::PageDown => {
                self.explorer.move_selection(15);
                ExplorerEffect::Nothing
            },
            Key::Home | Key::Char('g') => {
                self.explorer.select(0);
                ExplorerEffect::Nothing
            },
            Key::End | Key::Char('G') => {
                let last = self.explorer.rows.len().saturating_sub(1);
                self.explorer.select(last);
                ExplorerEffect::Nothing
            },
            Key::Enter | Key::Right | Key::Char('l') => ExplorerEffect::OpenSelected,
            Key::Backspace | Key::Left | Key::Char('h') | Key::Char('u') => {
                ExplorerEffect::GoToParent
            },
            Key::Char(' ') => ExplorerEffect::ToggleMark,
            Key::Char('d') => ExplorerEffect::RequestDeletion,
            Key::Char('x') => {
                self.marks.clear();
                self.show_status(String::from_str("marks cleared"), Severity::Info);
                ExplorerEffect::Nothing
            },
            Key::Char('r') => match self.explorer.current {
                Some(node) => {
                    self.show_status(String::from_str("rescanning current directory"), Severity::Info);
                    ExplorerEffect::Rescan(node)
                },
                None => ExplorerEffect::Nothing,
            },
            Key::Char('R') => {
                let mut found: Option<NodeId> = None;
                if self.explorer.selected < self.explorer.rows.len() {
                    match &self.explorer.rows[self.explorer.selected].key {
                        RowKey::Directory(node) => {
                            found = Some(*node);
                        },
                        RowKey::File(_) => {},
                    }
                }
                match found {
                    Some(node) => {
                        self.show_status(String::from_str("rescanning selected directory"), Severity::Info);
                        ExplorerEffect::Rescan(node)
                    },
                    None => ExplorerEffect::Nothing,
                }
            },
            Key::Char('T') | Key::Char('t') => ExplorerEffect::StartHeaviestQuery,
            Key::Char('f') => {
                let shown = !self.explorer.show_files;
                self.explorer.show_files = shown;
                self.preferences.show_files = shown;
                let text = if shown {
                    String::from_str("files shown")
                } else {
                    String::from_str("files hidden")
                };
                self.show_status(text, Severity::Info);
                ExplorerEffect::Nothing
            },
            Key::Char('+') | Key::Char('=') => {
                let doubled = match self.explorer.row_limit.checked_mul(2) {
                    Some(value) => value,
                    None => usize::MAX,
                };
                self.show_row_limit(doubled);
                ExplorerEffect::Nothing
            },
            Key::Char('-') => {
                let halved = self.explorer.row_limit / 2;
                self.show_row_limit(halved);
                ExplorerEffect::Nothing
            },
            Key::Char('o') => ExplorerEffect::Reveal,
            Key::Char('/') => {
                self.command_mode = true;
                self.command_line.open();
                let word = chars_of("filter ");
                let mut i: usize = 0;
                proof {
                    reveal_strlit("filter ");
                }
                while i < word.len()
                    invariant
                        0 <= i <= word@.len(),
                        word@ == "filter "@,
                        self.command_line.input@ == word@.take(i as int),
                        self.command_line.cursor == i,
                        self.command_line.history == old(self).command_line.history,
                        self.command_line.history_index is None,
                        self.command_mode,
                        self.screen == old(self).screen,
                        self.overlay == old(self).overlay,
                        self.status == old(self).status,
                        self.explorer == old(self).explorer,
                        self.marks == old(self).marks,
                        self.preferences == old(self).preferences,
                        self.settings == old(self).settings,
                        self.theme == old(self).theme,
                        self.should_quit == old(self).should_quit,
                        self.pending_foreground == old(self).pending_foreground,
                    decreases word@.len() - i,
                {
                    self.command_line.insert(word[i]);
                    proof {
                        lemma_insert_at_end(word@.take(i as int), word@[i as int]);
                    }
                    assert(word@.take(i + 1) =~= word@.take(i as int).push(word@[i as int]));
                    i += 1;
                }
                assert(word@.take(word@.len() as int) =~= word@);
                ExplorerEffect::Nothing
            },
            Key::Char('c') => ExplorerEffect::SwitchScreen(Screen::Cleaner),
            Key::Esc => {
                if self.explorer.filter.is_some() {
                    self.explorer.filter = None;
                    self.show_status(String::from_str("filter cleared"), Severity::Info);
                }
                ExplorerEffect::Nothing
            },
            _ => ExplorerEffect::Nothing,
        }
    }

    /// Shows up to `limit` rows per directory, held to `5..=100_000`, and says so.
    fn show_row_limit(&mut self, limit: usize)
        ensures
            final(self).explorer.row_limit == clamp_int(limit as int, 5, 100_000),
            final(self).preferences.row_limit == final(self).explorer.row_limit,
            status_is(
                final(self).status,
                "showing up to "@ + decimal(
                    clamp_int(limit as int, 5, 100_000) as nat,
                ) + " rows"@,
                Severity::Info,
            ),
            *final(self) == (Session {
                explorer: ExplorerState { row_limit: final(self).explorer.row_limit, ..old(self).explorer },
                preferences: Preferences {
                    row_limit: final(self).preferences.row_limit,
                    ..old(self).preferences
                },
                status: final(self).status,
                ..*old(self)
            }),
    {
        let held = row_limit_within(limit);
        self.explorer.row_limit = held;
        self.preferences.row_limit = held;
        let mut text = String::from_str("showing up to ");
        text.append(decimal_string(held as u64).as_str());
        text.append(" rows");
        self.show_status(text, Severity::Info);
    }
}

// ---------------------------------------------------------------------------------------
// The `:` line
// ---------------------------------------------------------------------------------------

/// The line after an editing key: the arrows, Home and End move the cursor (Up and Down
/// walk the history), a character is typed at the cursor, Backspace deletes the character
/// before it; other keys change nothing.
pub open spec fn line_edited(before: CommandLineState, after: CommandLineState, key: Key) -> bool {
    match key {
        Key::Char(c) => {
            &&& after.input@ == inserted_text(before.input@, before.cursor as nat, c)
            &&& after.cursor == before.cursor + 1
            &&& after.history == before.history
            &&& after.history_index == before.history_index
        },
        Key::Backspace => if before.cursor == 0 {
            after == before
        } else {
            &&& after.cursor == before.cursor - 1
            &&& after.input@ == removed_text(before.input@, before.cursor as nat)
            &&& after.history == before.history
            &&& after.history_index == before.history_index
        },
        Key::Left | Key::Right | Key::Home | Key::End => {
            &&& after.cursor == (match key {
                Key::Left => if before.cursor > 0 {
                    before.cursor - 1
                } else {
                    0
                },
                Key::Right => clamp_cursor((before.cursor + 1) as nat, before.input@.len()) as int,
                Key::Home => 0,
                _ => before.input@.len() as int,
            })
            &&& after.input == before.input
            &&& after.history == before.history
            &&& after.history_index == before.history_index
        },
        Key::Up => if before.history@.len() == 0 {
            after == before
        } else {
            let i = previous_index(before.history@.len(), before.history_index);
            &&& after.history_index == Some(i as usize)
            &&& after.input@ == before.history@[i as int]@
            &&& after.cursor == after.input@.len()
            &&& after.history == before.history
        },
        Key::Down => match before.history_index {
            None => after == before,
            Some(i) => {
                &&& after.history == before.history
                &&& if i + 1 >= before.history@.len() {
                    &&& after.history_index is None
                    &&& after.input@ == Seq::<char>::empty()
                    &&& after.cursor == 0
                } else {
                    &&& after.history_index == Some((i + 1) as usize)
                    &&& after.input@ == before.history@[i + 1]@
                    &&& after.cursor == after.input@.len()
                }
            },
        },
        _ => after == before,
    }
}

/// `session` with the `:` line closed, the line being `line`.
pub open spec fn line_closed(session: Session, line: CommandLineState) -> Session {
    Session { command_line: line, command_mode: false, ..session }
}

impl Session {
    /// Answers a key while the `:` line is typed: Esc closes it, Enter closes it and carries
    /// out the line (a blank line does nothing), Backspace on an empty line closes it; the
    /// other keys edit the line.
    pub fn handle_command_line_key(&mut self, key: Key) -> (effect: CommandEffect)
        requires
            old(self).command_line.cursor <= old(self).command_line.input@.len(),
            old(self).command_line.cursor < usize::MAX,
            old(self).command_line.history_index matches Some(i) ==> i
                < old(self).command_line.history@.len(),
        ensures
            key == Key::Esc ==> effect == CommandEffect::Nothing && *final(self) == (Session {
                command_mode: false,
                ..*old(self)
            }),
            key == Key::Enter && trim(old(self).command_line.input@).len() == 0 ==> effect
                == CommandEffect::Nothing && *final(self) == (Session {
                command_mode: false,
                ..*old(self)
            }),
            key == Key::Enter && trim(old(self).command_line.input@).len() > 0 ==> exists|
                line: CommandLineState,
                command: DeveloperCommand,
            |
                #![trigger command_outcome(line_closed(*old(self), line), *final(self), command, effect)]
                {
                    &&& command@ == command_spec(trim(old(self).command_line.input@))
                    &&& line.history_view() == submitted_history(
                        old(self).command_line.history_view(),
                        trim(old(self).command_line.input@),
                    )
                    &&& line.history_index is None
                    &&& line.input == old(self).command_line.input
                    &&& line.cursor == old(self).command_line.cursor
                    &&& command_outcome(line_closed(*old(self), line), *final(self), command, effect)
                },
            key != Key::Esc && key != Key::Enter ==> {
                &&& effect == CommandEffect::Nothing
                &&& line_edited(old(self).command_line, final(self).command_line, key)
                &&& final(self).command_mode == (old(self).command_mode && !(key == Key::Backspace
                    && old(self).command_line.cursor == 0 && old(self).command_line.input@.len()
                    == 0))
                &&& *final(self) == (Session {
                    command_line: final(self).command_line,
                    command_mode: final(self).command_mode,
                    ..*old(self)
                })
            },
    {
        match key {
            Key::Esc => {
                self.command_mode = false;
                CommandEffect::Nothing
            },
            Key::Enter => {
                self.command_mode = false;
                match self.command_line.submit() {
                    Some(command) => {
                        let ghost middle = *self;
                        let ghost submitted = command;
                        let effect = self.execute_command(command);
                        assert(middle == line_closed(*old(self), middle.command_line));
                        assert(command_outcome(
                            line_closed(*old(self), middle.command_line),
                            *self,
                            submitted,
                            effect,
                        ));
                        effect
                    },
                    None => CommandEffect::Nothing,
                }
            },
            Key::Backspace => {
                if self.command_line.backspace() {
                    self.command_mode = false;
                }
                CommandEffect::Nothing
            },
            Key::Left => {
                self.command_line.move_left();
                CommandEffect::Nothing
            },
            Key::Right => {
                self.command_line.move_right();
                CommandEffect::Nothing
            },
            Key::Home => {
                self.command_line.move_home();
                CommandEffect::Nothing
            },
            Key::End => {
                self.command_line.move_end();
                CommandEffect::Nothing
            },
            Key::Up => {
                self.command_line.history_previous();
                CommandEffect::Nothing
            },
            Key::Down => {
                let count = self.command_line.history.len();
                assert(count == self.command_line.history@.len());
                self.command_line.history_next();
                CommandEffect::Nothing
            },
            Key::Char(c) => {
                self.command_line.insert(c);
                CommandEffect::Nothing
            },
            _ => CommandEffect::Nothing,
        }
    }
}

// ---------------------------------------------------------------------------------------
// Acting on the row under the cursor, and the keys shared by every screen
// ---------------------------------------------------------------------------------------

/// What a mark of `row` records, the explorer being in `current`.
pub open spec fn mark_of(row: ExplorerRow, current: Option<NodeId>) -> MarkedItem {
    MarkedItem {
        size: row.size,
        is_directory: row.is_directory,
        node: match row.key {
            RowKey::Directory(node) => Some(node),
            RowKey::File(_) => None,
        },
        parent_node: current,
    }
}

/// What marking the row under the cursor does, from the session `before` to the session
/// `after`: the row's mark is toggled and the cursor moves to the next row; with no row under
/// the cursor nothing changes.
pub open spec fn mark_toggled(before: Session, after: Session) -> bool {
    if before.explorer.selected < before.explorer.rows@.len() {
        let row = before.explorer.rows@[before.explorer.selected as int];
        &&& after.marks@ == toggled(
            before.marks@,
            path_normal(row.path@),
            mark_of(row, before.explorer.current),
        )
        &&& cursor_on(before.explorer, after.explorer, before.explorer.selected + 1)
        &&& after == (Session { marks: after.marks, explorer: after.explorer, ..before })
    } else {
        after == before
    }
}

impl Session {
    /// Pauses scanning outside the focused directory, or resumes it, and says so. Returns the
    /// change the scanner has to make.
    pub fn toggle_background_pause(&mut self) -> (effect: CommandEffect)
        ensures
            final(self).preferences.background_paused == !old(self).preferences.background_paused,
            effect == CommandEffect::SetBackgroundPaused(
                final(self).preferences.background_paused,
            ),
            status_is(
                final(self).status,
                if final(self).preferences.background_paused {
                    "background scanning paused (focused directory still scans)"@
                } else {
                    "background scanning resumed"@
                },
                Severity::Info,
            ),
            *final(self) == (Session {
                preferences: Preferences {
                    background_paused: final(self).preferences.background_paused,
                    ..old(self).preferences
                },
                status: final(self).status,
                ..*old(self)
            }),
    {
        let paused = !self.preferences.background_paused;
        self.preferences.background_paused = paused;
        let text = if paused {
            String::from_str("background scanning paused (focused directory still scans)")
        } else {
            String::from_str("background scanning resumed")
        };
        self.show_status(text, Severity::Info);
        CommandEffect::SetBackgroundPaused(paused)
    }

    /// Switches between allocated and apparent sizes and says so. Returns the change the
    /// scanner has to make.
    pub fn toggle_size_mode(&mut self) -> (effect: CommandEffect)
        ensures
            final(self).preferences.size_mode == old(self).preferences.size_mode.toggled_spec(),
            effect == CommandEffect::SetSizeMode(final(self).preferences.size_mode),
            status_is(
                final(self).status,
                "showing "@ + final(self).preferences.size_mode.label_spec() + " sizes"@,
                Severity::Info,
            ),
            *final(self) == (Session {
                preferences: Preferences {
                    size_mode: final(self).preferences.size_mode,
                    ..old(self).preferences
                },
                status: final(self).status,
                ..*old(self)
            }),
    {
        let mode = self.preferences.size_mode.toggled();
        self.preferences.size_mode = mode;
        let mut text = String::from_str("showing ");
        text.append(mode.label());
        text.append(" sizes");
        self.show_status(text, Severity::Info);
        CommandEffect::SetSizeMode(mode)
    }

    /// Opens the row under the cursor: returns the directory to enter (warning first when
    /// access to it was denied); a file row only says what can be done with files.
    pub fn open_selected_row(&mut self) -> (enter: Option<NodeId>)
        ensures
            enter == selected_directory(old(self).explorer),
            selected_directory(old(self).explorer) is Some && old(self).explorer.rows@[old(
                self,
            ).explorer.selected as int].badge == RowBadge::Denied ==> status_is(
                final(self).status,
                "permission denied: grant Full Disk Access to your terminal or run with sudo"@,
                Severity::Warning,
            ),
            old(self).explorer.selected < old(self).explorer.rows@.len() && old(self).explorer.rows@[old(
                self,
            ).explorer.selected as int].key is File ==> status_is(
                final(self).status,
                "files: space marks, d deletes, o reveals"@,
                Severity::Info,
            ),
            *final(self) == (Session { status: final(self).status, ..*old(self) }),
            !(old(self).explorer.selected < old(self).explorer.rows@.len() && (old(self).explorer.rows@[old(
                self,
            ).explorer.selected as int].key is File || old(self).explorer.rows@[old(
                self,
            ).explorer.selected as int].badge == RowBadge::Denied))
                ==> final(self).status == old(self).status,
    {
        if self.explorer.selected >= self.explorer.rows.len() {
            return None;
        }
        let (node, denied) = match &self.explorer.rows[self.explorer.selected].key {
            RowKey::Directory(node) => (
                Some(*node),
                self.explorer.rows[self.explorer.selected].badge == RowBadge::Denied,
            ),
            RowKey::File(_) => (None, false),
        };
        match node {
            Some(n) => {
                if denied {
                    self.show_status(
                        String::from_str(
                            "permission denied: grant Full Disk Access to your terminal or run with sudo",
                        ),
                        Severity::Warning,
                    );
                }
                Some(n)
            },
            None => {
                self.show_status(
                    String::from_str("files: space marks, d deletes, o reveals"),
                    Severity::Info,
                );
                None
            },
        }
    }

    /// Says what a mark did: `marked` tells whether the item is marked now, `name` names it
    /// (in the explorer; the heaviest-files view names none), and `total_text` is the size of
    /// every mark together, as the interface writes sizes.
    pub fn show_mark_status(&mut self, marked: bool, name: Option<&str>, total_text: &str)
        ensures
            status_is(
                final(self).status,
                (if marked {
                    "marked"@
                } else {
                    "unmarked"@
                }) + match name {
                    Some(n) => " "@ + n@,
                    None => Seq::<char>::empty(),
                } + " \u{b7} "@ + decimal(old(self).marks@.len()) + " marked \u{b7} "@ + total_text@,
                Severity::Info,
            ),
            *final(self) == (Session { status: final(self).status, ..*old(self) }),
    {
        let mut text = if marked {
            String::from_str("marked")
        } else {
            String::from_str("unmarked")
        };
        match name {
            Some(n) => {
                text.append(" ");
                text.append(n);
            },
            None => {},
        }
        text.append(" \u{b7} ");
        text.append(decimal_string(self.marks.len() as u64).as_str());
        text.append(" marked \u{b7} ");
        text.append(total_text);
        assert(text@ =~= (if marked {
            "marked"@
        } else {
            "unmarked"@
        }) + match name {
            Some(n) => " "@ + n@,
            None => Seq::<char>::empty(),
        } + " \u{b7} "@ + decimal(self.marks@.len()) + " marked \u{b7} "@ + total_text@);
        self.show_status(text, Severity::Info);
    }

    /// Marks the row under the cursor, or unmarks it when it is marked, and moves the cursor
    /// to the next row. Returns whether the row is marked now; `None` when there is no row.
    pub fn toggle_mark_on_selected(&mut self) -> (marked: Option<bool>)
        requires
            old(self).explorer.selected + 1 <= isize::MAX,
            old(self).explorer.rows@.len() <= isize::MAX,
        ensures
            mark_toggled(*old(self), *final(self)),
            marked == (if old(self).explorer.selected < old(self).explorer.rows@.len() {
                Some(
                    !has_key(
                        old(self).marks@,
                        path_normal(old(self).explorer.rows@[old(self).explorer.selected as int].path@),
                    ),
                )
            } else {
                None
            }),
    {
        if self.explorer.selected >= self.explorer.rows.len() {
            return None;
        }
        let row = &self.explorer.rows[self.explorer.selected];
        let node = match &row.key {
            RowKey::Directory(node) => Some(*node),
            RowKey::File(_) => None,
        };
        let item = MarkedItem {
            size: row.size,
            is_directory: row.is_directory,
            node,
            parent_node: self.explorer.current,
        };
        let path = row.path.clone();
        let now_marked = self.marks.toggle(path, item);
        self.explorer.move_selection(1);
        Some(now_marked)
    }
}

} // verus!
