//! The `:` command line for developer commands, vim style: the line editor with its
//! history, and the parser that turns a line into a command.

use vstd::prelude::*;

use crate::text::{
    len_utf8, ascii_lower, byte_len, chars_are, chars_of, insert_at_byte, is_whitespace, is_ws,
    lower_chars, parse_unsigned, parse_unsigned_chars, remove_all, remove_all_chars,
    remove_at_byte, slice_chars, string_of, strip_leading, strip_leading_chars, trim, trim_chars,
    utf8_len, char_utf8_len, lemma_utf8_len_prefix_monotone, lemma_utf8_len_prefix_injective,
};

verus! {

/// Everything a user can type after `:`.
#[derive(Clone, Debug, PartialEq, Eq)]
pub enum DeveloperCommand {
    Quit,
    Help,
    ShowLog,
    ShowStatistics,
    ShowConfigPath,
    SaveConfig,
    /// Open the configuration file in the editor, then reload it.
    EditConfig,
    ReloadConfig,
    /// The preferences popup.
    Settings,
    /// List the palettes, or switch to the one named.
    Theme(Option<String>),
    GoTo(String),
    Rescan,
    ExpandDense,
    SetRowLimit(usize),
    SetWorkerThreads(usize),
    SetDenseThreshold(usize),
    SetMaterializeDepth(u16),
    PauseBackground,
    ResumeBackground,
    SetSizeMode(String),
    SetSizeBase(String),
    HeaviestFiles(Option<usize>),
    Reveal,
    ListMounts,
    SetDeletionMode(String),
    Filter(Option<String>),
    Export(String),
    Cleaner,
    Dashboard,
    Explorer,
    ClearMarks,
    Unknown(String),
}

/// A [`DeveloperCommand`] with its texts seen as character sequences.
pub enum CommandView {
    Quit,
    Help,
    ShowLog,
    ShowStatistics,
    ShowConfigPath,
    SaveConfig,
    EditConfig,
    ReloadConfig,
    Settings,
    Theme(Option<Seq<char>>),
    GoTo(Seq<char>),
    Rescan,
    ExpandDense,
    SetRowLimit(nat),
    SetWorkerThreads(nat),
    SetDenseThreshold(nat),
    SetMaterializeDepth(nat),
    PauseBackground,
    ResumeBackground,
    SetSizeMode(Seq<char>),
    SetSizeBase(Seq<char>),
    HeaviestFiles(Option<nat>),
    Reveal,
    ListMounts,
    SetDeletionMode(Seq<char>),
    Filter(Option<Seq<char>>),
    Export(Seq<char>),
    Cleaner,
    Dashboard,
    Explorer,
    ClearMarks,
    Unknown(Seq<char>),
}

impl View for DeveloperCommand {
    type V = CommandView;

    open spec fn view(&self) -> CommandView {
        match self {
            DeveloperCommand::Quit => CommandView::Quit,
            DeveloperCommand::Help => CommandView::Help,
            DeveloperCommand::ShowLog => CommandView::ShowLog,
            DeveloperCommand::ShowStatistics => CommandView::ShowStatistics,
            DeveloperCommand::ShowConfigPath => CommandView::ShowConfigPath,
            DeveloperCommand::SaveConfig => CommandView::SaveConfig,
            DeveloperCommand::EditConfig => CommandView::EditConfig,
            DeveloperCommand::ReloadConfig => CommandView::ReloadConfig,
            DeveloperCommand::Settings => CommandView::Settings,
            DeveloperCommand::Theme(name) => CommandView::Theme(
                match name {
                    Some(n) => Some(n@),
                    None => None,
                },
            ),
            DeveloperCommand::GoTo(path) => CommandView::GoTo(path@),
            DeveloperCommand::Rescan => CommandView::Rescan,
            DeveloperCommand::ExpandDense => CommandView::ExpandDense,
            DeveloperCommand::SetRowLimit(n) => CommandView::SetRowLimit(*n as nat),
            DeveloperCommand::SetWorkerThreads(n) => CommandView::SetWorkerThreads(*n as nat),
            DeveloperCommand::SetDenseThreshold(n) => CommandView::SetDenseThreshold(*n as nat),
            DeveloperCommand::SetMaterializeDepth(n) => CommandView::SetMaterializeDepth(*n as nat),
            DeveloperCommand::PauseBackground => CommandView::PauseBackground,
            DeveloperCommand::ResumeBackground => CommandView::ResumeBackground,
            DeveloperCommand::SetSizeMode(mode) => CommandView::SetSizeMode(mode@),
            DeveloperCommand::SetSizeBase(base) => CommandView::SetSizeBase(base@),
            DeveloperCommand::HeaviestFiles(limit) => CommandView::HeaviestFiles(
                match limit {
                    Some(n) => Some(*n as nat),
                    None => None,
                },
            ),
            DeveloperCommand::Reveal => CommandView::Reveal,
            DeveloperCommand::ListMounts => CommandView::ListMounts,
            DeveloperCommand::SetDeletionMode(mode) => CommandView::SetDeletionMode(mode@),
            DeveloperCommand::Filter(text) => CommandView::Filter(
                match text {
                    Some(t) => Some(t@),
                    None => None,
                },
            ),
            DeveloperCommand::Export(path) => CommandView::Export(path@),
            DeveloperCommand::Cleaner => CommandView::Cleaner,
            DeveloperCommand::Dashboard => CommandView::Dashboard,
            DeveloperCommand::Explorer => CommandView::Explorer,
            DeveloperCommand::ClearMarks => CommandView::ClearMarks,
            DeveloperCommand::Unknown(reason) => CommandView::Unknown(reason@),
        }
    }
}

// ---------------------------------------------------------------------------------------
// What a line means
// ---------------------------------------------------------------------------------------

/// Splits at the first whitespace character, as `splitn(2, char::is_whitespace)` does:
/// the text before it, and what follows it when there is one.
pub open spec fn split_first_word(s: Seq<char>) -> (Seq<char>, Option<Seq<char>>)
    decreases s.len(),
{
    if s.len() == 0 {
        (s, None)
    } else if is_ws(s[0]) {
        (Seq::empty(), Some(s.drop_first()))
    } else {
        let (word, rest) = split_first_word(s.drop_first());
        (seq![s[0]] + word, rest)
    }
}

/// The command word (lower case) and its argument (trimmed, absent when empty).
pub open spec fn command_words(text: Seq<char>) -> (Seq<char>, Option<Seq<char>>) {
    let body = strip_leading(trim(text), ':');
    let (first, rest) = split_first_word(body);
    let argument = match rest {
        Some(r) => if trim(r).len() > 0 {
            Some(trim(r))
        } else {
            None
        },
        None => None,
    };
    (ascii_lower(first), argument)
}

/// The argument read as a number, underscores ignored.
pub open spec fn number_argument(argument: Option<Seq<char>>) -> Option<nat> {
    match argument {
        Some(a) => parse_unsigned(remove_all(a, '_'), 10, usize::MAX as nat),
        None => None,
    }
}

/// The command a line stands for.
pub open spec fn command_spec(text: Seq<char>) -> CommandView {
    let (name, argument) = command_words(text);
    let number = number_argument(argument);
    if name == "q"@ || name == "quit"@ || name == "exit"@ {
        CommandView::Quit
    } else if name == "h"@ || name == "help"@ || name == "?"@ {
        CommandView::Help
    } else if name == "log"@ || name == "logs"@ {
        CommandView::ShowLog
    } else if name == "stats"@ || name == "statistics"@ || name == "status"@ {
        CommandView::ShowStatistics
    } else if name == "config"@ {
        if argument == Some("save"@) {
            CommandView::SaveConfig
        } else if argument == Some("edit"@) {
            CommandView::EditConfig
        } else if argument == Some("reload"@) {
            CommandView::ReloadConfig
        } else {
            CommandView::ShowConfigPath
        }
    } else if name == "settings"@ {
        CommandView::Settings
    } else if name == "theme"@ {
        CommandView::Theme(argument)
    } else if name == "goto"@ || name == "cd"@ || name == "go"@ || name == "scan"@ || name
        == "open"@ {
        match argument {
            Some(path) => CommandView::GoTo(path),
            None => CommandView::Unknown(name + " needs a path"@),
        }
    } else if name == "rescan"@ || name == "refresh"@ {
        CommandView::Rescan
    } else if name == "expand"@ || name == "force"@ {
        CommandView::ExpandDense
    } else if name == "limit"@ || name == "rows"@ {
        match number {
            Some(n) if n > 0 => CommandView::SetRowLimit(n),
            _ => CommandView::Unknown("limit needs a positive number"@),
        }
    } else if name == "threads"@ || name == "workers"@ {
        match number {
            Some(n) if n > 0 => CommandView::SetWorkerThreads(n),
            _ => CommandView::Unknown("threads needs a positive number"@),
        }
    } else if name == "dense"@ {
        match number {
            Some(n) if n >= 100 => CommandView::SetDenseThreshold(n),
            _ => CommandView::Unknown("dense needs a number of at least 100"@),
        }
    } else if name == "depth"@ || name == "materialize"@ {
        match number {
            Some(n) if 1 <= n <= 64 => CommandView::SetMaterializeDepth(n),
            _ => CommandView::Unknown("depth needs a number between 1 and 64"@),
        }
    } else if name == "pause"@ {
        CommandView::PauseBackground
    } else if name == "resume"@ || name == "unpause"@ {
        CommandView::ResumeBackground
    } else if name == "mode"@ || name == "size"@ {
        match argument {
            Some(value) => CommandView::SetSizeMode(ascii_lower(value)),
            None => CommandView::Unknown("mode needs `allocated` or `apparent`"@),
        }
    } else if name == "base"@ || name == "units"@ {
        match argument {
            Some(value) => CommandView::SetSizeBase(ascii_lower(value)),
            None => CommandView::Unknown("base needs `decimal` or `binary`"@),
        }
    } else if name == "top"@ || name == "heaviest"@ || name == "largest"@ {
        CommandView::HeaviestFiles(number)
    } else if name == "reveal"@ || name == "finder"@ {
        CommandView::Reveal
    } else if name == "mounts"@ || name == "volumes"@ {
        CommandView::ListMounts
    } else if name == "trash"@ || name == "delete"@ || name == "deletion"@ {
        match argument {
            Some(value) => CommandView::SetDeletionMode(ascii_lower(value)),
            None => CommandView::Unknown("trash needs `on` or `off`"@),
        }
    } else if name == "filter"@ || name == "find"@ || name == "grep"@ {
        CommandView::Filter(argument)
    } else if name == "export"@ || name == "dump"@ {
        match argument {
            Some(path) => CommandView::Export(path),
            None => CommandView::Unknown("export needs a file path"@),
        }
    } else if name == "clean"@ || name == "cleaner"@ {
        CommandView::Cleaner
    } else if name == "dash"@ || name == "dashboard"@ || name == "home"@ {
        CommandView::Dashboard
    } else if name == "explore"@ || name == "explorer"@ || name == "tree"@ {
        CommandView::Explorer
    } else if name == "unmark"@ || name == "clear"@ {
        CommandView::ClearMarks
    } else {
        CommandView::Unknown("unknown command `"@ + name + "`"@)
    }
}

proof fn lemma_split_first_word(s: Seq<char>, i: int)
    requires
        0 <= i <= s.len(),
        forall|k: int| 0 <= k < i ==> !is_ws(#[trigger] s[k]),
        i < s.len() ==> is_ws(s[i]),
    ensures
        split_first_word(s) == (if i < s.len() {
            (s.take(i), Some(s.skip(i + 1)))
        } else {
            (s, None::<Seq<char>>)
        }),
    decreases i,
{
    if i > 0 {
        let tail = s.drop_first();
        assert forall|k: int| 0 <= k < i - 1 implies !is_ws(#[trigger] tail[k]) by {
            assert(tail[k] == s[k + 1]);
        }
        if i < s.len() {
            assert(tail[i - 1] == s[i]);
        }
        lemma_split_first_word(tail, i - 1);
        if i < s.len() {
            assert(seq![s[0]] + tail.take(i - 1) =~= s.take(i));
            assert(tail.skip(i) =~= s.skip(i + 1));
        } else {
            assert(seq![s[0]] + tail =~= s);
        }
    } else {
        if s.len() > 0 {
            assert(s.take(0) =~= Seq::<char>::empty());
            assert(s.skip(1) =~= s.drop_first());
        }
    }
}

/// The text before the first whitespace character, and what follows that character.
fn split_first_word_exec(s: &[char]) -> (result: (Vec<char>, Option<Vec<char>>))
    ensures
        result.0@ == split_first_word(s@).0,
        match result.1 {
            Some(rest) => split_first_word(s@).1 == Some(rest@),
            None => split_first_word(s@).1 is None,
        },
{
    let len = s.len();
    let mut i: usize = 0;
    while i < len && !is_whitespace(s[i])
        invariant
            0 <= i <= len == s@.len(),
            forall|k: int| 0 <= k < i ==> !is_ws(#[trigger] s@[k]),
        decreases len - i,
    {
        i += 1;
    }
    proof {
        lemma_split_first_word(s@, i as int);
    }
    if i < len {
        (slice_chars(s, 0, i), Some(slice_chars(s, i + 1, len)))
    } else {
        assert(s@.subrange(0, len as int) =~= s@);
        (slice_chars(s, 0, len), None)
    }
}

/// An `Unknown` command with a fixed explanation.
fn unknown(reason: &str) -> (command: DeveloperCommand)
    ensures
        command@ == CommandView::Unknown(reason@),
{
    DeveloperCommand::Unknown(String::from_str(reason))
}

/// The argument read as a number, underscores ignored.
fn number_of(argument: &Option<Vec<char>>) -> (result: Option<usize>)
    ensures
        match result {
            Some(n) => number_argument(
                match argument {
                    Some(a) => Some(a@),
                    None => None,
                },
            ) == Some(n as nat),
            None => number_argument(
                match argument {
                    Some(a) => Some(a@),
                    None => None,
                },
            ) is None,
        },
{
    match argument {
        Some(a) => {
            let cleaned = remove_all_chars(a.as_slice(), '_');
            match parse_unsigned_chars(cleaned.as_slice(), 10, usize::MAX as u64) {
                Some(v) => Some(v as usize),
                None => None,
            }
        },
        None => None,
    }
}

/// Parses one line of the command line.
pub fn parse_command(text: &str) -> (command: DeveloperCommand)
    ensures
        command@ == command_spec(text@),
{
    let chars = chars_of(text);
    let trimmed = trim_chars(chars.as_slice());
    let body = strip_leading_chars(trimmed.as_slice(), ':');
    let (first, rest) = split_first_word_exec(body.as_slice());
    let name = lower_chars(first.as_slice());
    let argument: Option<Vec<char>> = match rest {
        Some(r) => {
            let t = trim_chars(r.as_slice());
            if t.len() > 0 {
                Some(t)
            } else {
                None
            }
        },
        None => None,
    };
    let ghost argument_view: Option<Seq<char>> = match &argument {
        Some(a) => Some(a@),
        None => None,
    };
    assert(command_words(text@) == (name@, argument_view));
    let n = name.as_slice();
    if chars_are(n, "q") || chars_are(n, "quit") || chars_are(n, "exit") {
        DeveloperCommand::Quit
    } else if chars_are(n, "h") || chars_are(n, "help") || chars_are(n, "?") {
        DeveloperCommand::Help
    } else if chars_are(n, "log") || chars_are(n, "logs") {
        DeveloperCommand::ShowLog
    } else if chars_are(n, "stats") || chars_are(n, "statistics") || chars_are(n, "status") {
        DeveloperCommand::ShowStatistics
    } else if chars_are(n, "config") {
        match &argument {
            Some(a) => {
                if chars_are(a.as_slice(), "save") {
                    DeveloperCommand::SaveConfig
                } else if chars_are(a.as_slice(), "edit") {
                    DeveloperCommand::EditConfig
                } else if chars_are(a.as_slice(), "reload") {
                    DeveloperCommand::ReloadConfig
                } else {
                    DeveloperCommand::ShowConfigPath
                }
            },
            None => DeveloperCommand::ShowConfigPath,
        }
    } else if chars_are(n, "settings") {
        DeveloperCommand::Settings
    } else if chars_are(n, "theme") {
        match &argument {
            Some(a) => DeveloperCommand::Theme(Some(string_of(a.as_slice()))),
            None => DeveloperCommand::Theme(None),
        }
    } else if chars_are(n, "goto") || chars_are(n, "cd") || chars_are(n, "go") || chars_are(
        n,
        "scan",
    ) || chars_are(n, "open") {
        match &argument {
            Some(path) => DeveloperCommand::GoTo(string_of(path.as_slice())),
            None => {
                let mut reason = string_of(n);
                reason.append(" needs a path");
                DeveloperCommand::Unknown(reason)
            },
        }
    } else if chars_are(n, "rescan") || chars_are(n, "refresh") {
        DeveloperCommand::Rescan
    } else if chars_are(n, "expand") || chars_are(n, "force") {
        DeveloperCommand::ExpandDense
    } else if chars_are(n, "limit") || chars_are(n, "rows") {
        match number_of(&argument) {
            Some(v) if v > 0 => DeveloperCommand::SetRowLimit(v),
            _ => unknown("limit needs a positive number"),
        }
    } else if chars_are(n, "threads") || chars_are(n, "workers") {
        match number_of(&argument) {
            Some(v) if v > 0 => DeveloperCommand::SetWorkerThreads(v),
            _ => unknown("threads needs a positive number"),
        }
    } else if chars_are(n, "dense") {
        match number_of(&argument) {
            Some(v) if v >= 100 => DeveloperCommand::SetDenseThreshold(v),
            _ => unknown("dense needs a number of at least 100"),
        }
    } else if chars_are(n, "depth") || chars_are(n, "materialize") {
        match number_of(&argument) {
            Some(v) if 1 <= v && v <= 64 => DeveloperCommand::SetMaterializeDepth(v as u16),
            _ => unknown("depth needs a number between 1 and 64"),
        }
    } else if chars_are(n, "pause") {
        DeveloperCommand::PauseBackground
    } else if chars_are(n, "resume") || chars_are(n, "unpause") {
        DeveloperCommand::ResumeBackground
    } else if chars_are(n, "mode") || chars_are(n, "size") {
        match &argument {
            Some(value) => DeveloperCommand::SetSizeMode(
                string_of(lower_chars(value.as_slice()).as_slice()),
            ),
            None => unknown("mode needs `allocated` or `apparent`"),
        }
    } else if chars_are(n, "base") || chars_are(n, "units") {
        match &argument {
            Some(value) => DeveloperCommand::SetSizeBase(
                string_of(lower_chars(value.as_slice()).as_slice()),
            ),
            None => unknown("base needs `decimal` or `binary`"),
        }
    } else if chars_are(n, "top") || chars_are(n, "heaviest") || chars_are(n, "largest") {
        DeveloperCommand::HeaviestFiles(number_of(&argument))
    } else if chars_are(n, "reveal") || chars_are(n, "finder") {
        DeveloperCommand::Reveal
    } else if chars_are(n, "mounts") || chars_are(n, "volumes") {
        DeveloperCommand::ListMounts
    } else if chars_are(n, "trash") || chars_are(n, "delete") || chars_are(n, "deletion") {
        match &argument {
            Some(value) => DeveloperCommand::SetDeletionMode(
                string_of(lower_chars(value.as_slice()).as_slice()),
            ),
            None => unknown("trash needs `on` or `off`"),
        }
    } else if chars_are(n, "filter") || chars_are(n, "find") || chars_are(n, "grep") {
        match &argument {
            Some(value) => DeveloperCommand::Filter(Some(string_of(value.as_slice()))),
            None => DeveloperCommand::Filter(None),
        }
    } else if chars_are(n, "export") || chars_are(n, "dump") {
        match &argument {
            Some(path) => DeveloperCommand::Export(string_of(path.as_slice())),
            None => unknown("export needs a file path"),
        }
    } else if chars_are(n, "clean") || chars_are(n, "cleaner") {
        DeveloperCommand::Cleaner
    } else if chars_are(n, "dash") || chars_are(n, "dashboard") || chars_are(n, "home") {
        DeveloperCommand::Dashboard
    } else if chars_are(n, "explore") || chars_are(n, "explorer") || chars_are(n, "tree") {
        DeveloperCommand::Explorer
    } else if chars_are(n, "unmark") || chars_are(n, "clear") {
        DeveloperCommand::ClearMarks
    } else {
        let mut reason = String::from_str("unknown command `");
        let name_text = string_of(n);
        reason.append(name_text.as_str());
        reason.append("`");
        DeveloperCommand::Unknown(reason)
    }
}

// ---------------------------------------------------------------------------------------
// The line editor
// ---------------------------------------------------------------------------------------

/// Where the character index `cursor` falls in a text of `len` characters.
pub open spec fn clamp_cursor(cursor: nat, len: nat) -> nat {
    if cursor < len {
        cursor
    } else {
        len
    }
}

/// The text after typing `c` with the cursor at `cursor`.
pub open spec fn inserted_text(input: Seq<char>, cursor: nat, c: char) -> Seq<char> {
    let k = clamp_cursor(cursor, input.len()) as int;
    input.take(k).push(c) + input.skip(k)
}

/// Typing at the end of the text appends the character.
pub proof fn lemma_insert_at_end(input: Seq<char>, c: char)
    ensures
        inserted_text(input, input.len(), c) == input.push(c),
{
    assert(input.take(input.len() as int) =~= input);
    assert(input.skip(input.len() as int) =~= Seq::<char>::empty());
    assert(inserted_text(input, input.len(), c) =~= input.push(c));
}

/// The text after deleting the character before the cursor (`1 <= cursor <= input.len()`).
pub open spec fn removed_text(input: Seq<char>, cursor: nat) -> Seq<char> {
    input.take(cursor - 1) + input.skip(cursor as int)
}

/// The history entry that `history_previous` shows next.
pub open spec fn previous_index(len: nat, index: Option<usize>) -> nat {
    match index {
        None => (len - 1) as nat,
        Some(i) => if i == 0 {
            0
        } else {
            (i - 1) as nat
        },
    }
}

/// The history after submitting the non-empty line `text`: consecutive repeats are kept once.
pub open spec fn submitted_history(history: Seq<Seq<char>>, text: Seq<char>) -> Seq<Seq<char>> {
    if history.len() > 0 && history.last() == text {
        history
    } else {
        history.push(text)
    }
}

/// State of the `:` line: the text typed, the cursor (a character index), the history of
/// submitted lines and the entry of it being shown.
#[derive(Clone, Debug)]
pub struct CommandLineState {
    pub input: String,
    pub cursor: usize,
    pub history: Vec<String>,
    pub history_index: Option<usize>,
}

impl Default for CommandLineState {
    fn default() -> (state: Self)
        ensures
            state.input@ == Seq::<char>::empty(),
            state.cursor == 0,
            state.history@.len() == 0,
            state.history_index is None,
    {
        CommandLineState { input: String::new(), cursor: 0, history: Vec::new(), history_index: None }
    }
}

impl CommandLineState {
    /// The history as character sequences.
    pub open spec fn history_view(&self) -> Seq<Seq<char>> {
        self.history@.map_values(|entry: String| entry@)
    }

    /// The cursor lies inside the text or just after it.
    pub open spec fn cursor_in_text(&self) -> bool {
        self.cursor <= self.input@.len()
    }

    /// Starts a new line: empty text, cursor at the start, no history entry shown.
    pub fn open(&mut self)
        ensures
            final(self).input@ == Seq::<char>::empty(),
            final(self).cursor == 0,
            final(self).history_index is None,
            final(self).history == old(self).history,
    {
        self.input = String::new();
        self.cursor = 0;
        self.history_index = None;
    }

    /// Types `character` at the cursor and moves the cursor after it.
    pub fn insert(&mut self, character: char)
        requires
            old(self).cursor_in_text() || old(self).cursor < usize::MAX,
        ensures
            final(self).input@ == inserted_text(old(self).input@, old(self).cursor as nat, character),
            final(self).cursor == old(self).cursor + 1,
            final(self).history == old(self).history,
            final(self).history_index == old(self).history_index,
            old(self).cursor_in_text() ==> final(self).cursor_in_text(),
    {
        let index = self.byte_index();
        let ghost k = clamp_cursor(self.cursor as nat, self.input@.len()) as int;
        assert(index == utf8_len(self.input@.take(k)));
        insert_at_byte(&mut self.input, index, character);
        self.cursor += 1;
    }

    /// Deletes the character before the cursor. With the cursor at the start nothing
    /// changes, and the result says whether the line is empty (so the caller closes it).
    pub fn backspace(&mut self) -> (close: bool)
        requires
            old(self).cursor <= old(self).input@.len(),
        ensures
            old(self).cursor == 0 ==> {
                &&& close == (old(self).input@.len() == 0)
                &&& *final(self) == *old(self)
            },
            old(self).cursor > 0 ==> {
                &&& !close
                &&& final(self).cursor == old(self).cursor - 1
                &&& final(self).input@ == removed_text(old(self).input@, old(self).cursor as nat)
                &&& final(self).history == old(self).history
                &&& final(self).history_index == old(self).history_index
            },
            final(self).cursor_in_text(),
    {
        if self.cursor == 0 {
            return self.input.as_str().is_empty();
        }
        self.cursor -= 1;
        let index = self.byte_index();
        let ghost k = self.cursor as int;
        assert(index == utf8_len(self.input@.take(k)));
        let _ = remove_at_byte(&mut self.input, index);
        assert(self.input@.len() == old(self).input@.len() - 1);
        false
    }

    /// Moves the cursor one character to the left, stopping at the start.
    pub fn move_left(&mut self)
        ensures
            final(self).cursor == (if old(self).cursor > 0 {
                old(self).cursor - 1
            } else {
                0
            }),
            final(self).input == old(self).input,
            final(self).history == old(self).history,
            final(self).history_index == old(self).history_index,
    {
        if self.cursor > 0 {
            self.cursor -= 1;
        }
    }

    /// Moves the cursor one character to the right, stopping at the end of the text.
    pub fn move_right(&mut self)
        ensures
            final(self).cursor == clamp_cursor((old(self).cursor + 1) as nat, old(self).input@.len()),
            final(self).input == old(self).input,
            final(self).history == old(self).history,
            final(self).history_index == old(self).history_index,
            final(self).cursor_in_text(),
    {
        let count = chars_of(self.input.as_str()).len();
        self.cursor = if self.cursor < count {
            self.cursor + 1
        } else {
            count
        };
    }

    /// Moves the cursor to the start of the text.
    pub fn move_home(&mut self)
        ensures
            final(self).cursor == 0,
            final(self).input == old(self).input,
            final(self).history == old(self).history,
            final(self).history_index == old(self).history_index,
    {
        self.cursor = 0;
    }

    /// Moves the cursor after the last character.
    pub fn move_end(&mut self)
        ensures
            final(self).cursor == old(self).input@.len(),
            final(self).input == old(self).input,
            final(self).history == old(self).history,
            final(self).history_index == old(self).history_index,
    {
        self.cursor = chars_of(self.input.as_str()).len();
    }

    /// Shows the previous history entry (the latest one first); stays on the oldest.
    pub fn history_previous(&mut self)
        requires
            old(self).history@.len() > 0 ==> (old(self).history_index matches Some(i) ==> i
                <= old(self).history@.len()),
        ensures
            old(self).history@.len() == 0 ==> *final(self) == *old(self),
            old(self).history@.len() > 0 ==> {
                let i = previous_index(old(self).history@.len(), old(self).history_index);
                &&& final(self).history_index == Some(i as usize)
                &&& final(self).input@ == old(self).history@[i as int]@
                &&& final(self).cursor == final(self).input@.len()
                &&& final(self).history == old(self).history
            },
    {
        if self.history.len() == 0 {
            return;
        }
        let index: usize = match self.history_index {
            None => self.history.len() - 1,
            Some(0) => 0,
            Some(i) => i - 1,
        };
        self.history_index = Some(index);
        self.input = self.history[index].clone();
        self.move_end();
    }

    /// Shows the next history entry; past the latest one the line is empty again.
    pub fn history_next(&mut self)
        requires
            old(self).history_index matches Some(i) ==> i < usize::MAX,
        ensures
            old(self).history_index is None ==> *final(self) == *old(self),
            old(self).history_index matches Some(i) ==> {
                &&& final(self).history == old(self).history
                &&& if i + 1 >= old(self).history@.len() {
                    &&& final(self).history_index is None
                    &&& final(self).input@ == Seq::<char>::empty()
                    &&& final(self).cursor == 0
                } else {
                    &&& final(self).history_index == Some((i + 1) as usize)
                    &&& final(self).input@ == old(self).history@[i + 1]@
                    &&& final(self).cursor == final(self).input@.len()
                }
            },
    {
        let index = match self.history_index {
            Some(index) => index,
            None => return,
        };
        if index + 1 >= self.history.len() {
            self.history_index = None;
            self.input = String::new();
            self.cursor = 0;
        } else {
            self.history_index = Some(index + 1);
            self.input = self.history[index + 1].clone();
            self.move_end();
        }
    }

    /// Parses and records the current line. A blank line gives nothing and changes nothing.
    pub fn submit(&mut self) -> (command: Option<DeveloperCommand>)
        ensures
            trim(old(self).input@).len() == 0 ==> {
                &&& command is None
                &&& *final(self) == *old(self)
            },
            trim(old(self).input@).len() > 0 ==> {
                &&& command matches Some(c) && c@ == command_spec(trim(old(self).input@))
                &&& final(self).history_view() == submitted_history(
                    old(self).history_view(),
                    trim(old(self).input@),
                )
                &&& final(self).history_index is None
                &&& final(self).input == old(self).input
                &&& final(self).cursor == old(self).cursor
            },
    {
        let chars = chars_of(self.input.as_str());
        let trimmed = trim_chars(chars.as_slice());
        if trimmed.len() == 0 {
            return None;
        }
        let text = string_of(trimmed.as_slice());
        let count = self.history.len();
        let repeated = count > 0 && self.history[count - 1] == text;
        let ghost before = self.history_view();
        if !repeated {
            self.history.push(text.clone());
            assert(self.history_view() =~= before.push(text@));
        }
        self.history_index = None;
        Some(parse_command(text.as_str()))
    }

    /// Byte offset in `input` of the character at the cursor (the end when the cursor is
    /// past the last character).
    fn byte_index(&self) -> (index: usize)
        ensures
            index == utf8_len(self.input@.take(clamp_cursor(self.cursor as nat, self.input@.len()) as int)),
            self.input@.len() < usize::MAX,
    {
        let chars = chars_of(self.input.as_str());
        let total = byte_len(&self.input);
        proof {
            lemma_utf8_len_prefix_monotone(self.input@, 0, self.input@.len() as int);
            assert(self.input@.take(self.input@.len() as int) =~= self.input@);
            assert(self.input@.take(0) =~= Seq::<char>::empty());
        }
        let limit: usize = if self.cursor < chars.len() {
            self.cursor
        } else {
            chars.len()
        };
        let mut offset: usize = 0;
        let mut i: usize = 0;
        while i < limit
            invariant
                0 <= i <= limit <= chars@.len(),
                chars@ == self.input@,
                total == utf8_len(self.input@),
                offset == utf8_len(self.input@.take(i as int)),
            decreases limit - i,
        {
            proof {
                lemma_utf8_len_prefix_monotone(self.input@, i + 1, self.input@.len() as int);
                assert(self.input@.take(self.input@.len() as int) =~= self.input@);
                assert(self.input@.take(i + 1).drop_last() =~= self.input@.take(i as int));
            }
            offset = offset + len_utf8(chars[i]);
            i += 1;
        }
        offset
    }
}

// ---------------------------------------------------------------------------------------
// Laws of the line editor and the parser
// ---------------------------------------------------------------------------------------

/// Backspace right after typing a character takes it out again: text and cursor are as
/// before (for a cursor inside the text).
pub proof fn lemma_backspace_undoes_insert(input: Seq<char>, cursor: nat, c: char)
    requires
        cursor <= input.len(),
    ensures
        removed_text(inserted_text(input, cursor, c), cursor + 1) == input,
        cursor + 1 <= inserted_text(input, cursor, c).len(),
{
    let typed = inserted_text(input, cursor, c);
    assert(typed.take(cursor as int) =~= input.take(cursor as int));
    assert(typed.skip((cursor + 1) as int) =~= input.skip(cursor as int));
    assert(input.take(cursor as int) + input.skip(cursor as int) =~= input);
}

/// The line just submitted is the one the history shows first.
pub proof fn lemma_history_recalls_submitted(history: Seq<Seq<char>>, text: Seq<char>)
    ensures
        ({
            let after = submitted_history(history, text);
            let i = previous_index(after.len(), None);
            &&& after.len() > 0
            &&& i < after.len()
            &&& after[i as int] == text
        }),
{
}

proof fn lemma_trim_end_after_colon(t: Seq<char>)
    ensures
        crate::text::trim_end(seq![':'] + t) == seq![':'] + crate::text::trim_end(t),
    decreases t.len(),
{
    let s = seq![':'] + t;
    if t.len() > 0 {
        assert(s.last() == t.last());
        if is_ws(t.last()) {
            assert(s.drop_last() =~= seq![':'] + t.drop_last());
            lemma_trim_end_after_colon(t.drop_last());
        }
    } else {
        assert(s.last() == ':');
        assert(s =~= seq![':']);
    }
}

/// A leading `:` is optional: `:cmd args` and `cmd args` are the same command (for a line
/// that does not start with whitespace).
pub proof fn lemma_colon_is_optional(t: Seq<char>)
    requires
        t.len() == 0 || !is_ws(t[0]),
    ensures
        command_spec(seq![':'] + t) == command_spec(t),
{
    let s = seq![':'] + t;
    assert(s[0] == ':');
    assert(s.drop_first() =~= t);
    assert(crate::text::trim_start(s) == s);
    assert(crate::text::trim_start(t) == t);
    lemma_trim_end_after_colon(t);
    let e = crate::text::trim_end(t);
    assert((seq![':'] + e)[0] == ':');
    assert((seq![':'] + e).drop_first() =~= e);
    assert(strip_leading(seq![':'] + e, ':') == strip_leading(e, ':'));
    assert(command_words(s) == command_words(t));
}

proof fn lemma_trim_end_after_word(w: Seq<char>, r: Seq<char>)
    requires
        w.len() > 0,
        !is_ws(w.last()),
    ensures
        crate::text::trim_end(w + r) == w + crate::text::trim_end(r),
    decreases r.len(),
{
    let s = w + r;
    if r.len() > 0 {
        assert(s.last() == r.last());
        if is_ws(r.last()) {
            assert(s.drop_last() =~= w + r.drop_last());
            lemma_trim_end_after_word(w, r.drop_last());
        }
    } else {
        assert(s =~= w);
        assert(w + crate::text::trim_end(r) =~= w);
    }
}

proof fn lemma_trim_end_keeps_first(r: Seq<char>)
    ensures
        crate::text::trim_end(r).len() <= r.len(),
        crate::text::trim_end(r).len() > 0 ==> crate::text::trim_end(r)[0] == r[0],
    decreases r.len(),
{
    if r.len() > 0 && is_ws(r.last()) {
        lemma_trim_end_keeps_first(r.drop_last());
    }
}

proof fn lemma_words_of_word_then_space(w: Seq<char>, r: Seq<char>)
    requires
        w.len() > 0,
        forall|k: int| 0 <= k < w.len() ==> !is_ws(#[trigger] w[k]),
        w[0] != ':',
        r.len() == 0 || is_ws(r[0]),
    ensures
        command_words(w + r) == (ascii_lower(w), command_words(seq!['x'] + r).1),
{
    let s = w + r;
    assert(s[0] == w[0]);
    assert(crate::text::trim_start(s) == s);
    lemma_trim_end_after_word(w, r);
    let e = crate::text::trim_end(r);
    let body = w + e;
    assert(body[0] == w[0]);
    assert(strip_leading(body, ':') == body);
    lemma_trim_end_keeps_first(r);
    assert forall|k: int| 0 <= k < w.len() implies !is_ws(#[trigger] body[k]) by {
        assert(body[k] == w[k]);
    }
    lemma_split_first_word(body, w.len() as int);
    assert(body.take(w.len() as int) =~= w);
    let x = seq!['x'];
    let t = x + r;
    assert(t[0] == 'x');
    assert(crate::text::trim_start(t) == t);
    lemma_trim_end_after_word(x, r);
    let body2 = x + e;
    assert(body2[0] == 'x');
    assert(strip_leading(body2, ':') == body2);
    assert forall|k: int| 0 <= k < 1 implies !is_ws(#[trigger] body2[k]) by {}
    lemma_split_first_word(body2, 1);
    if e.len() > 0 {
        assert(body.skip(w.len() as int + 1) =~= e.skip(1));
        assert(body2.skip(2) =~= e.skip(1));
    }
}

/// `p` read as an argument: not empty, and neither starting nor ending with whitespace.
pub open spec fn plain_argument(p: Seq<char>) -> bool {
    p.len() > 0 && !is_ws(p[0]) && !is_ws(p.last())
}

/// A command word followed by one space and a plain argument splits into the word (in
/// lower case) and that argument.
proof fn lemma_words_with_argument(w: Seq<char>, p: Seq<char>)
    requires
        w.len() > 0,
        forall|k: int| 0 <= k < w.len() ==> !is_ws(#[trigger] w[k]),
        w[0] != ':',
        plain_argument(p),
    ensures
        command_words(w + seq![' '] + p) == (ascii_lower(w), Some(p)),
{
    let r = seq![' '] + p;
    assert(is_ws(' '));
    assert(r[0] == ' ');
    assert(w + seq![' '] + p =~= w + r);
    lemma_words_of_word_then_space(w, r);
    let t = seq!['x'] + r;
    assert(!is_ws('x'));
    assert(t[0] == 'x');
    assert(crate::text::trim_start(t) == t);
    assert(t.last() == p.last());
    assert(crate::text::trim_end(t) == t);
    assert(strip_leading(t, ':') == t);
    assert(t[1] == ' ');
    assert forall|k: int| 0 <= k < 1 implies !is_ws(#[trigger] t[k]) by {}
    lemma_split_first_word(t, 1);
    assert(t.skip(2) =~= p);
    assert(crate::text::trim_start(p) == p);
    assert(crate::text::trim_end(p) == p);
}

/// A lower-case command word alone on the line is that word with no argument.
proof fn lemma_word_alone(w: Seq<char>)
    requires
        w.len() > 0,
        forall|k: int| 0 <= k < w.len() ==> !is_ws(#[trigger] w[k]),
        w[0] != ':',
        ascii_lower(w) == w,
    ensures
        command_words(w) == (w, None::<Seq<char>>),
{
    assert(w + Seq::<char>::empty() =~= w);
    lemma_words_of_word_then_space(w, Seq::empty());
    let t = seq!['x'];
    assert(!is_ws('x'));
    assert(crate::text::trim_start(t) == t);
    assert(crate::text::trim_end(t) == t);
    assert(strip_leading(t, ':') == t);
    assert forall|k: int| 0 <= k < 1 implies !is_ws(#[trigger] t[k]) by {}
    lemma_split_first_word(t, 1);
    assert(seq!['x'] + Seq::<char>::empty() =~= t);
}

/// A lower-case command word, a space and a plain argument: that word with that argument.
proof fn lemma_word_with_argument(w: Seq<char>, p: Seq<char>)
    requires
        w.len() > 0,
        forall|k: int| 0 <= k < w.len() ==> !is_ws(#[trigger] w[k]),
        w[0] != ':',
        ascii_lower(w) == w,
        plain_argument(p),
    ensures
        command_words(w + seq![' '] + p) == (w, Some(p)),
{
    lemma_words_with_argument(w, p);
}

pub(crate) proof fn lemma_meaning_alone_q()
    ensures
        command_spec("q"@) == CommandView::Quit,
{
    reveal_strlit("q");
    assert(ascii_lower("q"@) =~= "q"@);
    lemma_word_alone("q"@);
}

pub(crate) proof fn lemma_meaning_alone_quit()
    ensures
        command_spec("quit"@) == CommandView::Quit,
{
    assert("quit"@ != "q"@) by {
        reveal_strlit("quit");
        reveal_strlit("q");
        assert("quit"@.len() != "q"@.len());
    }
    reveal_strlit("quit");
    assert(ascii_lower("quit"@) =~= "quit"@);
    lemma_word_alone("quit"@);
}

pub(crate) proof fn lemma_meaning_alone_exit()
    ensures
        command_spec("exit"@) == CommandView::Quit,
{
    assert("exit"@ != "quit"@ && "exit"@ != "q"@) by {
        reveal_strlit("quit");
        reveal_strlit("exit");
        reveal_strlit("q");
        assert("exit"@.len() != "q"@.len() && "exit"@[0] != "quit"@[0]);
    }
    reveal_strlit("exit");
    assert(ascii_lower("exit"@) =~= "exit"@);
    lemma_word_alone("exit"@);
}

pub(crate) proof fn lemma_meaning_alone_h()
    ensures
        command_spec("h"@) == CommandView::Help,
{
    assert("h"@ != "exit"@ && "h"@ != "quit"@ && "h"@ != "q"@) by {
        reveal_strlit("q");
        reveal_strlit("h");
        reveal_strlit("quit");
        reveal_strlit("exit");
        assert("h"@[0] != "q"@[0] && "h"@.len() != "quit"@.len() && "h"@.len() != "exit"@.len());
    }
    reveal_strlit("h");
    assert(ascii_lower("h"@) =~= "h"@);
    lemma_word_alone("h"@);
}

pub(crate) proof fn lemma_meaning_alone_help()
    ensures
        command_spec("help"@) == CommandView::Help,
{
    assert("help"@ != "h"@ && "help"@ != "exit"@ && "help"@ != "quit"@ && "help"@ != "q"@) by {
        reveal_strlit("help");
        reveal_strlit("exit");
        reveal_strlit("quit");
        reveal_strlit("q");
        reveal_strlit("h");
        assert("help"@.len() != "h"@.len() && "help"@[0] != "quit"@[0] && "help"@.len() != "q"@.len() && "help"@[0] != "exit"@[0]);
    }
    reveal_strlit("help");
    assert(ascii_lower("help"@) =~= "help"@);
    lemma_word_alone("help"@);
}

pub(crate) proof fn lemma_meaning_alone_question()
    ensures
        command_spec("?"@) == CommandView::Help,
{
    assert("?"@ != "q"@ && "?"@ != "help"@ && "?"@ != "h"@ && "?"@ != "quit"@ && "?"@ != "exit"@) by {
        reveal_strlit("h");
        reveal_strlit("exit");
        reveal_strlit("quit");
        reveal_strlit("q");
        reveal_strlit("?");
        reveal_strlit("help");
        assert("?"@.len() != "exit"@.len() && "?"@[0] != "q"@[0] && "?"@.len() != "help"@.len() && "?"@.len() != "quit"@.len() && "?"@[0] != "h"@[0]);
    }
    reveal_strlit("?");
    assert(ascii_lower("?"@) =~= "?"@);
    lemma_word_alone("?"@);
}

pub(crate) proof fn lemma_meaning_alone_log()
    ensures
        command_spec("log"@) == CommandView::ShowLog,
{
    assert("log"@ != "quit"@ && "log"@ != "q"@ && "log"@ != "h"@ && "log"@ != "help"@ && "log"@ != "exit"@ && "log"@ != "?"@) by {
        reveal_strlit("?");
        reveal_strlit("exit");
        reveal_strlit("log");
        reveal_strlit("h");
        reveal_strlit("help");
        reveal_strlit("quit");
        reveal_strlit("q");
        assert("log"@.len() != "q"@.len() && "log"@.len() != "exit"@.len() && "log"@.len() != "quit"@.len() && "log"@.len() != "h"@.len() && "log"@.len() != "?"@.len() && "log"@.len() != "help"@.len());
    }
    reveal_strlit("log");
    assert(ascii_lower("log"@) =~= "log"@);
    lemma_word_alone("log"@);
}

pub(crate) proof fn lemma_meaning_alone_logs()
    ensures
        command_spec("logs"@) == CommandView::ShowLog,
{
    assert("logs"@ != "q"@ && "logs"@ != "?"@ && "logs"@ != "h"@ && "logs"@ != "exit"@ && "logs"@ != "help"@ && "logs"@ != "log"@ && "logs"@ != "quit"@) by {
        reveal_strlit("exit");
        reveal_strlit("h");
        reveal_strlit("logs");
        reveal_strlit("quit");
        reveal_strlit("log");
        reveal_strlit("q");
        reveal_strlit("help");
        reveal_strlit("?");
        assert("logs"@.len() != "?"@.len() && "logs"@.len() != "log"@.len() && "logs"@.len() != "q"@.len() && "logs"@[0] != "help"@[0] && "logs"@.len() != "h"@.len() && "logs"@[0] != "exit"@[0] && "logs"@[0] != "quit"@[0]);
    }
    reveal_strlit("logs");
    assert(ascii_lower("logs"@) =~= "logs"@);
    lemma_word_alone("logs"@);
}

pub(crate) proof fn lemma_meaning_alone_stats()
    ensures
        command_spec("stats"@) == CommandView::ShowStatistics,
{
    assert("stats"@ != "?"@ && "stats"@ != "quit"@ && "stats"@ != "h"@ && "stats"@ != "help"@ && "stats"@ != "exit"@ && "stats"@ != "log"@ && "stats"@ != "logs"@ && "stats"@ != "q"@) by {
        reveal_strlit("stats");
        reveal_strlit("q");
        reveal_strlit("help");
        reveal_strlit("?");
        reveal_strlit("quit");
        reveal_strlit("log");
        reveal_strlit("h");
        reveal_strlit("logs");
        reveal_strlit("exit");
        assert("stats"@.len() != "h"@.len() && "stats"@.len() != "q"@.len() && "stats"@.len() != "exit"@.len() && "stats"@.len() != "quit"@.len() && "stats"@.len() != "logs"@.len() && "stats"@.len() != "?"@.len() && "stats"@.len() != "log"@.len() && "stats"@.len() != "help"@.len());
    }
    reveal_strlit("stats");
    assert(ascii_lower("stats"@) =~= "stats"@);
    lemma_word_alone("stats"@);
}

pub(crate) proof fn lemma_meaning_alone_statistics()
    ensures
        command_spec("statistics"@) == CommandView::ShowStatistics,
{
    assert("statistics"@ != "stats"@ && "statistics"@ != "h"@ && "statistics"@ != "help"@ && "statistics"@ != "q"@ && "statistics"@ != "logs"@ && "statistics"@ != "?"@ && "statistics"@ != "log"@ && "statistics"@ != "quit"@ && "statistics"@ != "exit"@) by {
        reveal_strlit("statistics");
        reveal_strlit("exit");
        reveal_strlit("h");
        reveal_strlit("stats");
        reveal_strlit("?");
        reveal_strlit("logs");
        reveal_strlit("help");
        reveal_strlit("q");
        reveal_strlit("log");
        reveal_strlit("quit");
        assert("statistics"@.len() != "quit"@.len() && "statistics"@.len() != "h"@.len() && "statistics"@.len() != "stats"@.len() && "statistics"@.len() != "log"@.len() && "statistics"@.len() != "help"@.len() && "statistics"@.len() != "exit"@.len() && "statistics"@.len() != "q"@.len() && "statistics"@.len() != "?"@.len() && "statistics"@.len() != "logs"@.len());
    }
    reveal_strlit("statistics");
    assert(ascii_lower("statistics"@) =~= "statistics"@);
    lemma_word_alone("statistics"@);
}

pub(crate) proof fn lemma_meaning_alone_status()
    ensures
        command_spec("status"@) == CommandView::ShowStatistics,
{
    assert("status"@ != "stats"@ && "status"@ != "h"@ && "status"@ != "logs"@ && "status"@ != "log"@ && "status"@ != "q"@ && "status"@ != "exit"@ && "status"@ != "statistics"@ && "status"@ != "?"@ && "status"@ != "quit"@ && "status"@ != "help"@) by {
        reveal_strlit("q");
        reveal_strlit("statistics");
        reveal_strlit("log");
        reveal_strlit("exit");
        reveal_strlit("h");
        reveal_strlit("quit");
        reveal_strlit("stats");
        reveal_strlit("status");
        reveal_strlit("?");
        reveal_strlit("logs");
        reveal_strlit("help");
        assert("status"@.len() != "help"@.len() && "status"@.len() != "?"@.len() && "status"@.len() != "q"@.len() && "status"@.len() != "stats"@.len() && "status"@.len() != "logs"@.len() && "status"@.len() != "log"@.len() && "status"@.len() != "statistics"@.len() && "status"@.len() != "exit"@.len() && "status"@.len() != "h"@.len() && "status"@.len() != "quit"@.len());
    }
    reveal_strlit("status");
    assert(ascii_lower("status"@) =~= "status"@);
    lemma_word_alone("status"@);
}

pub(crate) proof fn lemma_meaning_alone_config()
    ensures
        command_spec("config"@) == CommandView::ShowConfigPath,
{
    assert("config"@ != "h"@ && "config"@ != "logs"@ && "config"@ != "stats"@ && "config"@ != "statistics"@ && "config"@ != "log"@ && "config"@ != "?"@ && "config"@ != "exit"@ && "config"@ != "status"@ && "config"@ != "q"@ && "config"@ != "quit"@ && "config"@ != "help"@) by {
        reveal_strlit("config");
        reveal_strlit("stats");
        reveal_strlit("log");
        reveal_strlit("q");
        reveal_strlit("statistics");
        reveal_strlit("?");
        reveal_strlit("status");
        reveal_strlit("logs");
        reveal_strlit("h");
        reveal_strlit("exit");
        reveal_strlit("quit");
        reveal_strlit("help");
        assert("config"@.len() != "stats"@.len() && "config"@.len() != "statistics"@.len() && "config"@.len() != "h"@.len() && "config"@.len() != "exit"@.len() && "config"@.len() != "?"@.len() && "config"@.len() != "q"@.len() && "config"@.len() != "quit"@.len() && "config"@.len() != "help"@.len() && "config"@.len() != "logs"@.len() && "config"@[0] != "status"@[0] && "config"@.len() != "log"@.len());
    }
    reveal_strlit("config");
    assert(ascii_lower("config"@) =~= "config"@);
    lemma_word_alone("config"@);
}

pub(crate) proof fn lemma_meaning_alone_settings()
    ensures
        command_spec("settings"@) == CommandView::Settings,
{
    assert("settings"@ != "status"@ && "settings"@ != "help"@ && "settings"@ != "quit"@ && "settings"@ != "stats"@ && "settings"@ != "statistics"@ && "settings"@ != "logs"@ && "settings"@ != "exit"@ && "settings"@ != "?"@ && "settings"@ != "q"@ && "settings"@ != "h"@ && "settings"@ != "config"@ && "settings"@ != "log"@) by {
        reveal_strlit("settings");
        reveal_strlit("log");
        reveal_strlit("config");
        reveal_strlit("stats");
        reveal_strlit("status");
        reveal_strlit("q");
        reveal_strlit("exit");
        reveal_strlit("statistics");
        reveal_strlit("quit");
        reveal_strlit("help");
        reveal_strlit("logs");
        reveal_strlit("?");
        reveal_strlit("h");
        assert("settings"@.len() != "q"@.len() && "settings"@.len() != "config"@.len() && "settings"@.len() != "stats"@.len() && "settings"@.len() != "help"@.len() && "settings"@.len() != "status"@.len() && "settings"@.len() != "h"@.len() && "settings"@.len() != "statistics"@.len() && "settings"@.len() != "?"@.len() && "settings"@.len() != "logs"@.len() && "settings"@.len() != "exit"@.len() && "settings"@.len() != "quit"@.len() && "settings"@.len() != "log"@.len());
    }
    reveal_strlit("settings");
    assert(ascii_lower("settings"@) =~= "settings"@);
    lemma_word_alone("settings"@);
}

pub(crate) proof fn lemma_meaning_alone_theme()
    ensures
        command_spec("theme"@) == CommandView::Theme(None),
{
    assert("theme"@ != "help"@ && "theme"@ != "h"@ && "theme"@ != "exit"@ && "theme"@ != "statistics"@ && "theme"@ != "settings"@ && "theme"@ != "status"@ && "theme"@ != "config"@ && "theme"@ != "logs"@ && "theme"@ != "log"@ && "theme"@ != "?"@ && "theme"@ != "stats"@ && "theme"@ != "quit"@ && "theme"@ != "q"@) by {
        reveal_strlit("logs");
        reveal_strlit("theme");
        reveal_strlit("stats");
        reveal_strlit("exit");
        reveal_strlit("h");
        reveal_strlit("?");
        reveal_strlit("q");
        reveal_strlit("status");
        reveal_strlit("log");
        reveal_strlit("statistics");
        reveal_strlit("quit");
        reveal_strlit("config");
        reveal_strlit("help");
        reveal_strlit("settings");
        assert("theme"@.len() != "logs"@.len() && "theme"@.len() != "settings"@.len() && "theme"@.len() != "statistics"@.len() && "theme"@.len() != "help"@.len() && "theme"@.len() != "config"@.len() && "theme"@.len() != "q"@.len() && "theme"@.len() != "log"@.len() && "theme"@.len() != "status"@.len() && "theme"@.len() != "exit"@.len() && "theme"@.len() != "quit"@.len() && "theme"@[0] != "stats"@[0] && "theme"@.len() != "h"@.len() && "theme"@.len() != "?"@.len());
    }
    reveal_strlit("theme");
    assert(ascii_lower("theme"@) =~= "theme"@);
    lemma_word_alone("theme"@);
}

pub(crate) proof fn lemma_meaning_with_argument_theme(p: Seq<char>)
    ensures
        plain_argument(p) ==> command_spec("theme "@ + p) == CommandView::Theme(Some(p)),
{
    assert("theme"@ != "help"@ && "theme"@ != "h"@ && "theme"@ != "exit"@ && "theme"@ != "statistics"@ && "theme"@ != "settings"@ && "theme"@ != "status"@ && "theme"@ != "config"@ && "theme"@ != "logs"@ && "theme"@ != "log"@ && "theme"@ != "?"@ && "theme"@ != "stats"@ && "theme"@ != "quit"@ && "theme"@ != "q"@) by {
        reveal_strlit("logs");
        reveal_strlit("theme");
        reveal_strlit("stats");
        reveal_strlit("exit");
        reveal_strlit("h");
        reveal_strlit("?");
        reveal_strlit("q");
        reveal_strlit("status");
        reveal_strlit("log");
        reveal_strlit("statistics");
        reveal_strlit("quit");
        reveal_strlit("config");
        reveal_strlit("help");
        reveal_strlit("settings");
        assert("theme"@.len() != "logs"@.len() && "theme"@.len() != "settings"@.len() && "theme"@.len() != "statistics"@.len() && "theme"@.len() != "help"@.len() && "theme"@.len() != "config"@.len() && "theme"@.len() != "q"@.len() && "theme"@.len() != "log"@.len() && "theme"@.len() != "status"@.len() && "theme"@.len() != "exit"@.len() && "theme"@.len() != "quit"@.len() && "theme"@[0] != "stats"@[0] && "theme"@.len() != "h"@.len() && "theme"@.len() != "?"@.len());
    }
    reveal_strlit("theme");
    reveal_strlit("theme ");
    assert(ascii_lower("theme"@) =~= "theme"@);
    assert("theme "@ =~= "theme"@ + seq![' ']);
    if plain_argument(p) {
        lemma_word_with_argument("theme"@, p);
        assert("theme "@ + p =~= "theme"@ + seq![' '] + p);
    }
}

pub(crate) proof fn lemma_meaning_alone_goto()
    ensures
        command_spec("goto"@) == CommandView::Unknown("goto needs a path"@),
{
    assert("goto"@ != "status"@ && "goto"@ != "theme"@ && "goto"@ != "quit"@ && "goto"@ != "help"@ && "goto"@ != "h"@ && "goto"@ != "q"@ && "goto"@ != "exit"@ && "goto"@ != "log"@ && "goto"@ != "statistics"@ && "goto"@ != "config"@ && "goto"@ != "settings"@ && "goto"@ != "?"@ && "goto"@ != "stats"@ && "goto"@ != "logs"@) by {
        reveal_strlit("theme");
        reveal_strlit("?");
        reveal_strlit("log");
        reveal_strlit("settings");
        reveal_strlit("status");
        reveal_strlit("help");
        reveal_strlit("exit");
        reveal_strlit("h");
        reveal_strlit("quit");
        reveal_strlit("stats");
        reveal_strlit("goto");
        reveal_strlit("statistics");
        reveal_strlit("config");
        reveal_strlit("logs");
        reveal_strlit("q");
        assert("goto"@.len() != "status"@.len() && "goto"@.len() != "settings"@.len() && "goto"@.len() != "q"@.len() && "goto"@.len() != "log"@.len() && "goto"@.len() != "stats"@.len() && "goto"@.len() != "statistics"@.len() && "goto"@.len() != "config"@.len() && "goto"@.len() != "h"@.len() && "goto"@[0] != "help"@[0] && "goto"@[0] != "logs"@[0] && "goto"@.len() != "?"@.len() && "goto"@[0] != "exit"@[0] && "goto"@[0] != "quit"@[0] && "goto"@.len() != "theme"@.len());
    }
    reveal_strlit("goto");
    reveal_strlit(" needs a path");
    reveal_strlit("goto needs a path");
    assert(ascii_lower("goto"@) =~= "goto"@);
    lemma_word_alone("goto"@);
    assert("goto"@ + " needs a path"@ =~= "goto needs a path"@);
}

pub(crate) proof fn lemma_meaning_alone_cd()
    ensures
        command_spec("cd"@) == CommandView::Unknown("cd needs a path"@),
{
    assert("cd"@ != "goto"@ && "cd"@ != "exit"@ && "cd"@ != "statistics"@ && "cd"@ != "h"@ && "cd"@ != "status"@ && "cd"@ != "help"@ && "cd"@ != "logs"@ && "cd"@ != "quit"@ && "cd"@ != "stats"@ && "cd"@ != "q"@ && "cd"@ != "config"@ && "cd"@ != "log"@ && "cd"@ != "?"@ && "cd"@ != "settings"@ && "cd"@ != "theme"@) by {
        reveal_strlit("goto");
        reveal_strlit("h");
        reveal_strlit("settings");
        reveal_strlit("log");
        reveal_strlit("config");
        reveal_strlit("theme");
        reveal_strlit("status");
        reveal_strlit("quit");
        reveal_strlit("q");
        reveal_strlit("stats");
        reveal_strlit("exit");
        reveal_strlit("logs");
        reveal_strlit("?");
        reveal_strlit("help");
        reveal_strlit("statistics");
        reveal_strlit("cd");
        assert("cd"@.len() != "settings"@.len() && "cd"@.len() != "config"@.len() && "cd"@.len() != "help"@.len() && "cd"@.len() != "stats"@.len() && "cd"@.len() != "goto"@.len() && "cd"@.len() != "exit"@.len() && "cd"@.len() != "q"@.len() && "cd"@.len() != "quit"@.len() && "cd"@.len() != "log"@.len() && "cd"@.len() != "?"@.len() && "cd"@.len() != "logs"@.len() && "cd"@.len() != "h"@.len() && "cd"@.len() != "status"@.len() && "cd"@.len() != "theme"@.len() && "cd"@.len() != "statistics"@.len());
    }
    reveal_strlit("cd");
    reveal_strlit(" needs a path");
    reveal_strlit("cd needs a path");
    assert(ascii_lower("cd"@) =~= "cd"@);
    lemma_word_alone("cd"@);
    assert("cd"@ + " needs a path"@ =~= "cd needs a path"@);
}

pub(crate) proof fn lemma_meaning_alone_go()
    ensures
        command_spec("go"@) == CommandView::Unknown("go needs a path"@),
{
    assert("go"@ != "exit"@ && "go"@ != "settings"@ && "go"@ != "h"@ && "go"@ != "quit"@ && "go"@ != "stats"@ && "go"@ != "help"@ && "go"@ != "q"@ && "go"@ != "config"@ && "go"@ != "theme"@ && "go"@ != "statistics"@ && "go"@ != "logs"@ && "go"@ != "status"@ && "go"@ != "log"@ && "go"@ != "cd"@ && "go"@ != "goto"@ && "go"@ != "?"@) by {
        reveal_strlit("help");
        reveal_strlit("theme");
        reveal_strlit("stats");
        reveal_strlit("q");
        reveal_strlit("h");
        reveal_strlit("logs");
        reveal_strlit("goto");
        reveal_strlit("log");
        reveal_strlit("config");
        reveal_strlit("exit");
        reveal_strlit("cd");
        reveal_strlit("?");
        reveal_strlit("go");
        reveal_strlit("statistics");
        reveal_strlit("settings");
        reveal_strlit("quit");
        reveal_strlit("status");
        assert("go"@.len() != "stats"@.len() && "go"@.len() != "settings"@.len() && "go"@.len() != "help"@.len() && "go"@.len() != "goto"@.len() && "go"@.len() != "exit"@.len() && "go"@.len() != "q"@.len() && "go"@.len() != "log"@.len() && "go"@.len() != "quit"@.len() && "go"@.len() != "?"@.len() && "go"@.len() != "theme"@.len() && "go"@.len() != "h"@.len() && "go"@.len() != "statistics"@.len() && "go"@.len() != "config"@.len() && "go"@[0] != "cd"@[0] && "go"@.len() != "logs"@.len() && "go"@.len() != "status"@.len());
    }
    reveal_strlit("go");
    reveal_strlit(" needs a path");
    reveal_strlit("go needs a path");
    assert(ascii_lower("go"@) =~= "go"@);
    lemma_word_alone("go"@);
    assert("go"@ + " needs a path"@ =~= "go needs a path"@);
}

pub(crate) proof fn lemma_meaning_alone_scan()
    ensures
        command_spec("scan"@) == CommandView::Unknown("scan needs a path"@),
{
    assert("scan"@ != "statistics"@ && "scan"@ != "status"@ && "scan"@ != "h"@ && "scan"@ != "goto"@ && "scan"@ != "?"@ && "scan"@ != "exit"@ && "scan"@ != "stats"@ && "scan"@ != "q"@ && "scan"@ != "help"@ && "scan"@ != "settings"@ && "scan"@ != "quit"@ && "scan"@ != "cd"@ && "scan"@ != "theme"@ && "scan"@ != "config"@ && "scan"@ != "log"@ && "scan"@ != "go"@ && "scan"@ != "logs"@) by {
        reveal_strlit("logs");
        reveal_strlit("statistics");
        reveal_strlit("?");
        reveal_strlit("config");
        reveal_strlit("go");
        reveal_strlit("exit");
        reveal_strlit("help");
        reveal_strlit("q");
        reveal_strlit("h");
        reveal_strlit("scan");
        reveal_strlit("quit");
        reveal_strlit("goto");
        reveal_strlit("theme");
        reveal_strlit("stats");
        reveal_strlit("cd");
        reveal_strlit("status");
        reveal_strlit("log");
        reveal_strlit("settings");
        assert("scan"@[0] != "logs"@[0] && "scan"@.len() != "statistics"@.len() && "scan"@.len() != "h"@.len() && "scan"@.len() != "settings"@.len() && "scan"@.len() != "log"@.len() && "scan"@[0] != "goto"@[0] && "scan"@.len() != "cd"@.len() && "scan"@.len() != "status"@.len() && "scan"@[0] != "help"@[0] && "scan"@.len() != "?"@.len() && "scan"@[0] != "exit"@[0] && "scan"@.len() != "go"@.len() && "scan"@.len() != "theme"@.len() && "scan"@[0] != "quit"@[0] && "scan"@.len() != "config"@.len() && "scan"@.len() != "stats"@.len() && "scan"@.len() != "q"@.len());
    }
    reveal_strlit("scan");
    reveal_strlit(" needs a path");
    reveal_strlit("scan needs a path");
    assert(ascii_lower("scan"@) =~= "scan"@);
    lemma_word_alone("scan"@);
    assert("scan"@ + " needs a path"@ =~= "scan needs a path"@);
}

pub(crate) proof fn lemma_meaning_alone_open()
    ensures
        command_spec("open"@) == CommandView::Unknown("open needs a path"@),
{
    assert("open"@ != "config"@ && "open"@ != "statistics"@ && "open"@ != "cd"@ && "open"@ != "exit"@ && "open"@ != "stats"@ && "open"@ != "help"@ && "open"@ != "quit"@ && "open"@ != "settings"@ && "open"@ != "theme"@ && "open"@ != "goto"@ && "open"@ != "go"@ && "open"@ != "status"@ && "open"@ != "scan"@ && "open"@ != "log"@ && "open"@ != "logs"@ && "open"@ != "?"@ && "open"@ != "q"@ && "open"@ != "h"@) by {
        reveal_strlit("help");
        reveal_strlit("quit");
        reveal_strlit("open");
        reveal_strlit("log");
        reveal_strlit("config");
        reveal_strlit("go");
        reveal_strlit("scan");
        reveal_strlit("h");
        reveal_strlit("goto");
        reveal_strlit("status");
        reveal_strlit("logs");
        reveal_strlit("?");
        reveal_strlit("theme");
        reveal_strlit("statistics");
        reveal_strlit("q");
        reveal_strlit("settings");
        reveal_strlit("cd");
        reveal_strlit("exit");
        reveal_strlit("stats");
        assert("open"@[0] != "goto"@[0] && "open"@.len() != "?"@.len() && "open"@.len() != "theme"@.len() && "open"@[0] != "exit"@[0] && "open"@.len() != "cd"@.len() && "open"@[0] != "logs"@[0] && "open"@.len() != "h"@.len() && "open"@.len() != "config"@.len() && "open"@.len() != "status"@.len() && "open"@.len() != "settings"@.len() && "open"@[0] != "help"@[0] && "open"@[0] != "scan"@[0] && "open"@[0] != "quit"@[0] && "open"@.len() != "statistics"@.len() && "open"@.len() != "stats"@.len() && "open"@.len() != "q"@.len() && "open"@.len() != "log"@.len() && "open"@.len() != "go"@.len());
    }
    reveal_strlit("open");
    reveal_strlit(" needs a path");
    reveal_strlit("open needs a path");
    assert(ascii_lower("open"@) =~= "open"@);
    lemma_word_alone("open"@);
    assert("open"@ + " needs a path"@ =~= "open needs a path"@);
}

pub(crate) proof fn lemma_meaning_alone_rescan()
    ensures
        command_spec("rescan"@) == CommandView::Rescan,
{
    assert("rescan"@ != "h"@ && "rescan"@ != "logs"@ && "rescan"@ != "?"@ && "rescan"@ != "scan"@ && "rescan"@ != "cd"@ && "rescan"@ != "exit"@ && "rescan"@ != "statistics"@ && "rescan"@ != "open"@ && "rescan"@ != "log"@ && "rescan"@ != "goto"@ && "rescan"@ != "status"@ && "rescan"@ != "quit"@ && "rescan"@ != "stats"@ && "rescan"@ != "go"@ && "rescan"@ != "config"@ && "rescan"@ != "theme"@ && "rescan"@ != "settings"@ && "rescan"@ != "q"@ && "rescan"@ != "help"@) by {
        reveal_strlit("goto");
        reveal_strlit("log");
        reveal_strlit("?");
        reveal_strlit("status");
        reveal_strlit("go");
        reveal_strlit("h");
        reveal_strlit("config");
        reveal_strlit("scan");
        reveal_strlit("quit");
        reveal_strlit("q");
        reveal_strlit("settings");
        reveal_strlit("theme");
        reveal_strlit("cd");
        reveal_strlit("open");
        reveal_strlit("exit");
        reveal_strlit("rescan");
        reveal_strlit("help");
        reveal_strlit("statistics");
        reveal_strlit("stats");
        reveal_strlit("logs");
        assert("rescan"@.len() != "stats"@.len() && "rescan"@.len() != "theme"@.len() && "rescan"@[0] != "config"@[0] && "rescan"@.len() != "log"@.len() && "rescan"@.len() != "settings"@.len() && "rescan"@.len() != "q"@.len() && "rescan"@.len() != "?"@.len() && "rescan"@.len() != "h"@.len() && "rescan"@.len() != "statistics"@.len() && "rescan"@.len() != "go"@.len() && "rescan"@.len() != "open"@.len() && "rescan"@.len() != "logs"@.len() && "rescan"@.len() != "quit"@.len() && "rescan"@.len() != "help"@.len() && "rescan"@.len() != "goto"@.len() && "rescan"@.len() != "exit"@.len() && "rescan"@[0] != "status"@[0] && "rescan"@.len() != "scan"@.len() && "rescan"@.len() != "cd"@.len());
    }
    reveal_strlit("rescan");
    assert(ascii_lower("rescan"@) =~= "rescan"@);
    lemma_word_alone("rescan"@);
}

pub(crate) proof fn lemma_meaning_alone_refresh()
    ensures
        command_spec("refresh"@) == CommandView::Rescan,
{
    assert("refresh"@ != "go"@ && "refresh"@ != "settings"@ && "refresh"@ != "quit"@ && "refresh"@ != "stats"@ && "refresh"@ != "q"@ && "refresh"@ != "logs"@ && "refresh"@ != "theme"@ && "refresh"@ != "statistics"@ && "refresh"@ != "cd"@ && "refresh"@ != "h"@ && "refresh"@ != "exit"@ && "refresh"@ != "status"@ && "refresh"@ != "rescan"@ && "refresh"@ != "goto"@ && "refresh"@ != "log"@ && "refresh"@ != "config"@ && "refresh"@ != "?"@ && "refresh"@ != "open"@ && "refresh"@ != "help"@ && "refresh"@ != "scan"@) by {
        reveal_strlit("rescan");
        reveal_strlit("h");
        reveal_strlit("status");
        reveal_strlit("goto");
        reveal_strlit("go");
        reveal_strlit("quit");
        reveal_strlit("exit");
        reveal_strlit("scan");
        reveal_strlit("help");
        reveal_strlit("statistics");
        reveal_strlit("config");
        reveal_strlit("stats");
        reveal_strlit("?");
        reveal_strlit("log");
        reveal_strlit("open");
        reveal_strlit("settings");
        reveal_strlit("theme");
        reveal_strlit("logs");
        reveal_strlit("cd");
        reveal_strlit("q");
        reveal_strlit("refresh");
        assert("refresh"@.len() != "theme"@.len() && "refresh"@.len() != "settings"@.len() && "refresh"@.len() != "goto"@.len() && "refresh"@.len() != "exit"@.len() && "refresh"@.len() != "statistics"@.len() && "refresh"@.len() != "logs"@.len() && "refresh"@.len() != "scan"@.len() && "refresh"@.len() != "q"@.len() && "refresh"@.len() != "status"@.len() && "refresh"@.len() != "help"@.len() && "refresh"@.len() != "h"@.len() && "refresh"@.len() != "quit"@.len() && "refresh"@.len() != "log"@.len() && "refresh"@.len() != "rescan"@.len() && "refresh"@.len() != "config"@.len() && "refresh"@.len() != "?"@.len() && "refresh"@.len() != "cd"@.len() && "refresh"@.len() != "stats"@.len() && "refresh"@.len() != "open"@.len() && "refresh"@.len() != "go"@.len());
    }
    reveal_strlit("refresh");
    assert(ascii_lower("refresh"@) =~= "refresh"@);
    lemma_word_alone("refresh"@);
}

pub(crate) proof fn lemma_meaning_alone_expand()
    ensures
        command_spec("expand"@) == CommandView::ExpandDense,
{
    assert("expand"@ != "status"@ && "expand"@ != "refresh"@ && "expand"@ != "?"@ && "expand"@ != "help"@ && "expand"@ != "cd"@ && "expand"@ != "rescan"@ && "expand"@ != "config"@ && "expand"@ != "h"@ && "expand"@ != "quit"@ && "expand"@ != "settings"@ && "expand"@ != "open"@ && "expand"@ != "logs"@ && "expand"@ != "scan"@ && "expand"@ != "log"@ && "expand"@ != "goto"@ && "expand"@ != "go"@ && "expand"@ != "exit"@ && "expand"@ != "stats"@ && "expand"@ != "q"@ && "expand"@ != "theme"@ && "expand"@ != "statistics"@) by {
        reveal_strlit("scan");
        reveal_strlit("?");
        reveal_strlit("log");
        reveal_strlit("theme");
        reveal_strlit("goto");
        reveal_strlit("statistics");
        reveal_strlit("h");
        reveal_strlit("config");
        reveal_strlit("quit");
        reveal_strlit("refresh");
        reveal_strlit("go");
        reveal_strlit("open");
        reveal_strlit("exit");
        reveal_strlit("rescan");
        reveal_strlit("stats");
        reveal_strlit("status");
        reveal_strlit("help");
        reveal_strlit("logs");
        reveal_strlit("expand");
        reveal_strlit("q");
        reveal_strlit("settings");
        reveal_strlit("cd");
        assert("expand"@.len() != "refresh"@.len() && "expand"@.len() != "go"@.len() && "expand"@.len() != "h"@.len() && "expand"@.len() != "?"@.len() && "expand"@.len() != "cd"@.len() && "expand"@.len() != "q"@.len() && "expand"@.len() != "goto"@.len() && "expand"@.len() != "quit"@.len() && "expand"@[0] != "rescan"@[0] && "expand"@.len() != "help"@.len() && "expand"@.len() != "settings"@.len() && "expand"@.len() != "stats"@.len() && "expand"@[0] != "status"@[0] && "expand"@.len() != "theme"@.len() && "expand"@.len() != "open"@.len() && "expand"@.len() != "logs"@.len() && "expand"@[0] != "config"@[0] && "expand"@.len() != "scan"@.len() && "expand"@.len() != "exit"@.len() && "expand"@.len() != "statistics"@.len() && "expand"@.len() != "log"@.len());
    }
    reveal_strlit("expand");
    assert(ascii_lower("expand"@) =~= "expand"@);
    lemma_word_alone("expand"@);
}

pub(crate) proof fn lemma_meaning_alone_force()
    ensures
        command_spec("force"@) == CommandView::ExpandDense,
{
    assert("force"@ != "help"@ && "force"@ != "q"@ && "force"@ != "refresh"@ && "force"@ != "expand"@ && "force"@ != "rescan"@ && "force"@ != "settings"@ && "force"@ != "scan"@ && "force"@ != "?"@ && "force"@ != "go"@ && "force"@ != "h"@ && "force"@ != "stats"@ && "force"@ != "quit"@ && "force"@ != "cd"@ && "force"@ != "status"@ && "force"@ != "config"@ && "force"@ != "log"@ && "force"@ != "goto"@ && "force"@ != "statistics"@ && "force"@ != "exit"@ && "force"@ != "open"@ && "force"@ != "theme"@ && "force"@ != "logs"@) by {
        reveal_strlit("theme");
        reveal_strlit("statistics");
        reveal_strlit("help");
        reveal_strlit("?");
        reveal_strlit("quit");
        reveal_strlit("h");
        reveal_strlit("settings");
        reveal_strlit("refresh");
        reveal_strlit("expand");
        reveal_strlit("open");
        reveal_strlit("stats");
        reveal_strlit("cd");
        reveal_strlit("status");
        reveal_strlit("go");
        reveal_strlit("log");
        reveal_strlit("scan");
        reveal_strlit("force");
        reveal_strlit("rescan");
        reveal_strlit("exit");
        reveal_strlit("logs");
        reveal_strlit("q");
        reveal_strlit("goto");
        reveal_strlit("config");
        assert("force"@.len() != "quit"@.len() && "force"@.len() != "h"@.len() && "force"@.len() != "log"@.len() && "force"@.len() != "config"@.len() && "force"@.len() != "refresh"@.len() && "force"@.len() != "cd"@.len() && "force"@.len() != "exit"@.len() && "force"@.len() != "rescan"@.len() && "force"@.len() != "open"@.len() && "force"@.len() != "settings"@.len() && "force"@.len() != "help"@.len() && "force"@.len() != "status"@.len() && "force"@.len() != "statistics"@.len() && "force"@.len() != "goto"@.len() && "force"@.len() != "expand"@.len() && "force"@[0] != "theme"@[0] && "force"@.len() != "q"@.len() && "force"@.len() != "go"@.len() && "force"@.len() != "logs"@.len() && "force"@.len() != "scan"@.len() && "force"@.len() != "?"@.len() && "force"@[0] != "stats"@[0]);
    }
    reveal_strlit("force");
    assert(ascii_lower("force"@) =~= "force"@);
    lemma_word_alone("force"@);
}

pub(crate) proof fn lemma_meaning_alone_pause()
    ensures
        command_spec("pause"@) == CommandView::PauseBackground,
{
    assert("pause"@ != "stats"@ && "pause"@ != "exit"@ && "pause"@ != "h"@ && "pause"@ != "scan"@ && "pause"@ != "goto"@ && "pause"@ != "log"@ && "pause"@ != "open"@ && "pause"@ != "theme"@ && "pause"@ != "q"@ && "pause"@ != "settings"@ && "pause"@ != "threads"@ && "pause"@ != "depth"@ && "pause"@ != "dense"@ && "pause"@ != "limit"@ && "pause"@ != "go"@ && "pause"@ != "logs"@ && "pause"@ != "materialize"@ && "pause"@ != "quit"@ && "pause"@ != "config"@ && "pause"@ != "force"@ && "pause"@ != "help"@ && "pause"@ != "workers"@ && "pause"@ != "refresh"@ && "pause"@ != "expand"@ && "pause"@ != "status"@ && "pause"@ != "cd"@ && "pause"@ != "statistics"@ && "pause"@ != "?"@ && "pause"@ != "rows"@ && "pause"@ != "rescan"@) by {
        reveal_strlit("dense");
        reveal_strlit("go");
        reveal_strlit("quit");
        reveal_strlit("rows");
        reveal_strlit("cd");
        reveal_strlit("config");
        reveal_strlit("workers");
        reveal_strlit("materialize");
        reveal_strlit("h");
        reveal_strlit("theme");
        reveal_strlit("expand");
        reveal_strlit("refresh");
        reveal_strlit("rescan");
        reveal_strlit("?");
        reveal_strlit("help");
        reveal_strlit("open");
        reveal_strlit("pause");
        reveal_strlit("stats");
        reveal_strlit("threads");
        reveal_strlit("q");
        reveal_strlit("scan");
        reveal_strlit("logs");
        reveal_strlit("depth");
        reveal_strlit("log");
        reveal_strlit("status");
        reveal_strlit("force");
        reveal_strlit("limit");
        reveal_strlit("statistics");
        reveal_strlit("goto");
        reveal_strlit("exit");
        reveal_strlit("settings");
        assert("pause"@.len() != "materialize"@.len() && "pause"@.len() != "logs"@.len() && "pause"@.len() != "status"@.len() && "pause"@.len() != "rescan"@.len() && "pause"@.len() != "help"@.len() && "pause"@.len() != "go"@.len() && "pause"@.len() != "settings"@.len() && "pause"@.len() != "config"@.len() && "pause"@[0] != "theme"@[0] && "pause"@.len() != "threads"@.len() && "pause"@[0] != "force"@[0] && "pause"@.len() != "goto"@.len() && "pause"@[0] != "dense"@[0] && "pause"@.len() != "h"@.len() && "pause"@.len() != "workers"@.len() && "pause"@.len() != "open"@.len() && "pause"@[0] != "limit"@[0] && "pause"@[0] != "stats"@[0] && "pause"@[0] != "depth"@[0] && "pause"@.len() != "quit"@.len() && "pause"@.len() != "scan"@.len() && "pause"@.len() != "cd"@.len() && "pause"@.len() != "?"@.len() && "pause"@.len() != "log"@.len() && "pause"@.len() != "statistics"@.len() && "pause"@.len() != "q"@.len() && "pause"@.len() != "expand"@.len() && "pause"@.len() != "refresh"@.len() && "pause"@.len() != "exit"@.len() && "pause"@.len() != "rows"@.len());
    }
    reveal_strlit("pause");
    assert(ascii_lower("pause"@) =~= "pause"@);
    lemma_word_alone("pause"@);
}

pub(crate) proof fn lemma_meaning_alone_resume()
    ensures
        command_spec("resume"@) == CommandView::ResumeBackground,
{
    assert("resume"@ != "cd"@ && "resume"@ != "force"@ && "resume"@ != "workers"@ && "resume"@ != "expand"@ && "resume"@ != "rescan"@ && "resume"@ != "help"@ && "resume"@ != "?"@ && "resume"@ != "statistics"@ && "resume"@ != "refresh"@ && "resume"@ != "quit"@ && "resume"@ != "log"@ && "resume"@ != "settings"@ && "resume"@ != "scan"@ && "resume"@ != "open"@ && "resume"@ != "goto"@ && "resume"@ != "go"@ && "resume"@ != "config"@ && "resume"@ != "logs"@ && "resume"@ != "limit"@ && "resume"@ != "stats"@ && "resume"@ != "theme"@ && "resume"@ != "h"@ && "resume"@ != "status"@ && "resume"@ != "threads"@ && "resume"@ != "pause"@ && "resume"@ != "q"@ && "resume"@ != "materialize"@ && "resume"@ != "depth"@ && "resume"@ != "rows"@ && "resume"@ != "dense"@ && "resume"@ != "exit"@) by {
        reveal_strlit("workers");
        reveal_strlit("stats");
        reveal_strlit("logs");
        reveal_strlit("rescan");
        reveal_strlit("go");
        reveal_strlit("scan");
        reveal_strlit("materialize");
        reveal_strlit("pause");
        reveal_strlit("rows");
        reveal_strlit("config");
        reveal_strlit("resume");
        reveal_strlit("quit");
        reveal_strlit("help");
        reveal_strlit("goto");
        reveal_strlit("cd");
        reveal_strlit("expand");
        reveal_strlit("log");
        reveal_strlit("threads");
        reveal_strlit("refresh");
        reveal_strlit("depth");
        reveal_strlit("statistics");
        reveal_strlit("open");
        reveal_strlit("settings");
        reveal_strlit("exit");
        reveal_strlit("limit");
        reveal_strlit("dense");
        reveal_strlit("h");
        reveal_strlit("status");
        reveal_strlit("q");
        reveal_strlit("theme");
        reveal_strlit("force");
        reveal_strlit("?");
        assert("resume"@.len() != "open"@.len() && "resume"@.len() != "cd"@.len() && "resume"@[0] != "config"@[0] && "resume"@.len() != "stats"@.len() && "resume"@.len() != "help"@.len() && "resume"@.len() != "depth"@.len() && "resume"@.len() != "rows"@.len() && "resume"@.len() != "theme"@.len() && "resume"@.len() != "settings"@.len() && "resume"@[3] != "rescan"@[3] && "resume"@.len() != "logs"@.len() && "resume"@.len() != "threads"@.len() && "resume"@.len() != "quit"@.len() && "resume"@.len() != "refresh"@.len() && "resume"@.len() != "statistics"@.len() && "resume"@.len() != "?"@.len() && "resume"@[0] != "expand"@[0] && "resume"@.len() != "workers"@.len() && "resume"@.len() != "exit"@.len() && "resume"@.len() != "force"@.len() && "resume"@.len() != "goto"@.len() && "resume"@.len() != "limit"@.len() && "resume"@.len() != "h"@.len() && "resume"@.len() != "materialize"@.len() && "resume"@.len() != "go"@.len() && "resume"@.len() != "scan"@.len() && "resume"@.len() != "dense"@.len() && "resume"@.len() != "q"@.len() && "resume"@[0] != "status"@[0] && "resume"@.len() != "pause"@.len() && "resume"@.len() != "log"@.len());
    }
    reveal_strlit("resume");
    assert(ascii_lower("resume"@) =~= "resume"@);
    lemma_word_alone("resume"@);
}

pub(crate) proof fn lemma_meaning_alone_unpause()
    ensures
        command_spec("unpause"@) == CommandView::ResumeBackground,
{
    assert("unpause"@ != "logs"@ && "unpause"@ != "rows"@ && "unpause"@ != "goto"@ && "unpause"@ != "threads"@ && "unpause"@ != "log"@ && "unpause"@ != "theme"@ && "unpause"@ != "exit"@ && "unpause"@ != "status"@ && "unpause"@ != "limit"@ && "unpause"@ != "rescan"@ && "unpause"@ != "materialize"@ && "unpause"@ != "go"@ && "unpause"@ != "?"@ && "unpause"@ != "cd"@ && "unpause"@ != "h"@ && "unpause"@ != "quit"@ && "unpause"@ != "expand"@ && "unpause"@ != "statistics"@ && "unpause"@ != "stats"@ && "unpause"@ != "force"@ && "unpause"@ != "resume"@ && "unpause"@ != "help"@ && "unpause"@ != "config"@ && "unpause"@ != "open"@ && "unpause"@ != "settings"@ && "unpause"@ != "q"@ && "unpause"@ != "pause"@ && "unpause"@ != "refresh"@ && "unpause"@ != "scan"@ && "unpause"@ != "depth"@ && "unpause"@ != "workers"@ && "unpause"@ != "dense"@) by {
        reveal_strlit("pause");
        reveal_strlit("q");
        reveal_strlit("limit");
        reveal_strlit("?");
        reveal_strlit("materialize");
        reveal_strlit("h");
        reveal_strlit("expand");
        reveal_strlit("go");
        reveal_strlit("rows");
        reveal_strlit("log");
        reveal_strlit("help");
        reveal_strlit("open");
        reveal_strlit("workers");
        reveal_strlit("stats");
        reveal_strlit("depth");
        reveal_strlit("goto");
        reveal_strlit("rescan");
        reveal_strlit("unpause");
        reveal_strlit("refresh");
        reveal_strlit("theme");
        reveal_strlit("dense");
        reveal_strlit("threads");
        reveal_strlit("resume");
        reveal_strlit("quit");
        reveal_strlit("force");
        reveal_strlit("cd");
        reveal_strlit("statistics");
        reveal_strlit("exit");
        reveal_strlit("config");
        reveal_strlit("settings");
        reveal_strlit("scan");
        reveal_strlit("logs");
        reveal_strlit("status");
        assert("unpause"@.len() != "logs"@.len() && "unpause"@[0] != "workers"@[0] && "unpause"@.len() != "log"@.len() && "unpause"@.len() != "quit"@.len() && "unpause"@.len() != "expand"@.len() && "unpause"@.len() != "open"@.len() && "unpause"@.len() != "help"@.len() && "unpause"@.len() != "statistics"@.len() && "unpause"@.len() != "theme"@.len() && "unpause"@[0] != "refresh"@[0] && "unpause"@.len() != "stats"@.len() && "unpause"@.len() != "pause"@.len() && "unpause"@.len() != "status"@.len() && "unpause"@.len() != "materialize"@.len() && "unpause"@.len() != "settings"@.len() && "unpause"@.len() != "q"@.len() && "unpause"@.len() != "go"@.len() && "unpause"@.len() != "cd"@.len() && "unpause"@.len() != "force"@.len() && "unpause"@[0] != "threads"@[0] && "unpause"@.len() != "rows"@.len() && "unpause"@.len() != "depth"@.len() && "unpause"@.len() != "rescan"@.len() && "unpause"@.len() != "dense"@.len() && "unpause"@.len() != "resume"@.len() && "unpause"@.len() != "limit"@.len() && "unpause"@.len() != "?"@.len() && "unpause"@.len() != "scan"@.len() && "unpause"@.len() != "goto"@.len() && "unpause"@.len() != "exit"@.len() && "unpause"@.len() != "config"@.len() && "unpause"@.len() != "h"@.len());
    }
    reveal_strlit("unpause");
    assert(ascii_lower("unpause"@) =~= "unpause"@);
    lemma_word_alone("unpause"@);
}

pub(crate) proof fn lemma_meaning_alone_mode()
    ensures
        command_spec("mode"@) == CommandView::Unknown("mode needs `allocated` or `apparent`"@),
{
    assert("mode"@ != "quit"@ && "mode"@ != "unpause"@ && "mode"@ != "cd"@ && "mode"@ != "q"@ && "mode"@ != "open"@ && "mode"@ != "pause"@ && "mode"@ != "dense"@ && "mode"@ != "materialize"@ && "mode"@ != "expand"@ && "mode"@ != "rescan"@ && "mode"@ != "rows"@ && "mode"@ != "stats"@ && "mode"@ != "logs"@ && "mode"@ != "status"@ && "mode"@ != "force"@ && "mode"@ != "resume"@ && "mode"@ != "scan"@ && "mode"@ != "theme"@ && "mode"@ != "help"@ && "mode"@ != "workers"@ && "mode"@ != "exit"@ && "mode"@ != "depth"@ && "mode"@ != "statistics"@ && "mode"@ != "refresh"@ && "mode"@ != "goto"@ && "mode"@ != "limit"@ && "mode"@ != "?"@ && "mode"@ != "threads"@ && "mode"@ != "go"@ && "mode"@ != "config"@ && "mode"@ != "h"@ && "mode"@ != "settings"@ && "mode"@ != "log"@) by {
        reveal_strlit("dense");
        reveal_strlit("stats");
        reveal_strlit("help");
        reveal_strlit("mode");
        reveal_strlit("workers");
        reveal_strlit("theme");
        reveal_strlit("settings");
        reveal_strlit("unpause");
        reveal_strlit("depth");
        reveal_strlit("pause");
        reveal_strlit("force");
        reveal_strlit("quit");
        reveal_strlit("statistics");
        reveal_strlit("?");
        reveal_strlit("expand");
        reveal_strlit("go");
        reveal_strlit("status");
        reveal_strlit("q");
        reveal_strlit("log");
        reveal_strlit("materialize");
        reveal_strlit("cd");
        reveal_strlit("open");
        reveal_strlit("rescan");
        reveal_strlit("logs");
        reveal_strlit("config");
        reveal_strlit("h");
        reveal_strlit("goto");
        reveal_strlit("rows");
        reveal_strlit("scan");
        reveal_strlit("exit");
        reveal_strlit("limit");
        reveal_strlit("threads");
        reveal_strlit("resume");
        reveal_strlit("refresh");
        assert("mode"@.len() != "force"@.len() && "mode"@[0] != "rows"@[0] && "mode"@.len() != "status"@.len() && "mode"@[0] != "exit"@[0] && "mode"@.len() != "unpause"@.len() && "mode"@.len() != "config"@.len() && "mode"@.len() != "dense"@.len() && "mode"@.len() != "theme"@.len() && "mode"@.len() != "threads"@.len() && "mode"@[0] != "logs"@[0] && "mode"@.len() != "h"@.len() && "mode"@.len() != "resume"@.len() && "mode"@.len() != "q"@.len() && "mode"@.len() != "depth"@.len() && "mode"@.len() != "workers"@.len() && "mode"@.len() != "statistics"@.len() && "mode"@.len() != "?"@.len() && "mode"@[0] != "quit"@[0] && "mode"@.len() != "stats"@.len() && "mode"@[0] != "goto"@[0] && "mode"@[0] != "help"@[0] && "mode"@.len() != "rescan"@.len() && "mode"@.len() != "limit"@.len() && "mode"@.len() != "pause"@.len() && "mode"@[0] != "scan"@[0] && "mode"@.len() != "refresh"@.len() && "mode"@[0] != "open"@[0] && "mode"@.len() != "expand"@.len() && "mode"@.len() != "log"@.len() && "mode"@.len() != "cd"@.len() && "mode"@.len() != "materialize"@.len() && "mode"@.len() != "settings"@.len() && "mode"@.len() != "go"@.len());
    }
    reveal_strlit("mode");
    assert(ascii_lower("mode"@) =~= "mode"@);
    lemma_word_alone("mode"@);
}

pub(crate) proof fn lemma_meaning_with_argument_mode(p: Seq<char>)
    ensures
        plain_argument(p) ==> command_spec("mode "@ + p) == CommandView::SetSizeMode(ascii_lower(p)),
{
    assert("mode"@ != "quit"@ && "mode"@ != "unpause"@ && "mode"@ != "cd"@ && "mode"@ != "q"@ && "mode"@ != "open"@ && "mode"@ != "pause"@ && "mode"@ != "dense"@ && "mode"@ != "materialize"@ && "mode"@ != "expand"@ && "mode"@ != "rescan"@ && "mode"@ != "rows"@ && "mode"@ != "stats"@ && "mode"@ != "logs"@ && "mode"@ != "status"@ && "mode"@ != "force"@ && "mode"@ != "resume"@ && "mode"@ != "scan"@ && "mode"@ != "theme"@ && "mode"@ != "help"@ && "mode"@ != "workers"@ && "mode"@ != "exit"@ && "mode"@ != "depth"@ && "mode"@ != "statistics"@ && "mode"@ != "refresh"@ && "mode"@ != "goto"@ && "mode"@ != "limit"@ && "mode"@ != "?"@ && "mode"@ != "threads"@ && "mode"@ != "go"@ && "mode"@ != "config"@ && "mode"@ != "h"@ && "mode"@ != "settings"@ && "mode"@ != "log"@) by {
        reveal_strlit("dense");
        reveal_strlit("stats");
        reveal_strlit("help");
        reveal_strlit("mode");
        reveal_strlit("workers");
        reveal_strlit("theme");
        reveal_strlit("settings");
        reveal_strlit("unpause");
        reveal_strlit("depth");
        reveal_strlit("pause");
        reveal_strlit("force");
        reveal_strlit("quit");
        reveal_strlit("statistics");
        reveal_strlit("?");
        reveal_strlit("expand");
        reveal_strlit("go");
        reveal_strlit("status");
        reveal_strlit("q");
        reveal_strlit("log");
        reveal_strlit("materialize");
        reveal_strlit("cd");
        reveal_strlit("open");
        reveal_strlit("rescan");
        reveal_strlit("logs");
        reveal_strlit("config");
        reveal_strlit("h");
        reveal_strlit("goto");
        reveal_strlit("rows");
        reveal_strlit("scan");
        reveal_strlit("exit");
        reveal_strlit("limit");
        reveal_strlit("threads");
        reveal_strlit("resume");
        reveal_strlit("refresh");
        assert("mode"@.len() != "force"@.len() && "mode"@[0] != "rows"@[0] && "mode"@.len() != "status"@.len() && "mode"@[0] != "exit"@[0] && "mode"@.len() != "unpause"@.len() && "mode"@.len() != "config"@.len() && "mode"@.len() != "dense"@.len() && "mode"@.len() != "theme"@.len() && "mode"@.len() != "threads"@.len() && "mode"@[0] != "logs"@[0] && "mode"@.len() != "h"@.len() && "mode"@.len() != "resume"@.len() && "mode"@.len() != "q"@.len() && "mode"@.len() != "depth"@.len() && "mode"@.len() != "workers"@.len() && "mode"@.len() != "statistics"@.len() && "mode"@.len() != "?"@.len() && "mode"@[0] != "quit"@[0] && "mode"@.len() != "stats"@.len() && "mode"@[0] != "goto"@[0] && "mode"@[0] != "help"@[0] && "mode"@.len() != "rescan"@.len() && "mode"@.len() != "limit"@.len() && "mode"@.len() != "pause"@.len() && "mode"@[0] != "scan"@[0] && "mode"@.len() != "refresh"@.len() && "mode"@[0] != "open"@[0] && "mode"@.len() != "expand"@.len() && "mode"@.len() != "log"@.len() && "mode"@.len() != "cd"@.len() && "mode"@.len() != "materialize"@.len() && "mode"@.len() != "settings"@.len() && "mode"@.len() != "go"@.len());
    }
    reveal_strlit("mode");
    reveal_strlit("mode ");
    assert(ascii_lower("mode"@) =~= "mode"@);
    assert("mode "@ =~= "mode"@ + seq![' ']);
    if plain_argument(p) {
        lemma_word_with_argument("mode"@, p);
        assert("mode "@ + p =~= "mode"@ + seq![' '] + p);
    }
}

pub(crate) proof fn lemma_meaning_alone_size()
    ensures
        command_spec("size"@) == CommandView::Unknown("mode needs `allocated` or `apparent`"@),
{
    assert("size"@ != "?"@ && "size"@ != "quit"@ && "size"@ != "cd"@ && "size"@ != "dense"@ && "size"@ != "expand"@ && "size"@ != "limit"@ && "size"@ != "depth"@ && "size"@ != "stats"@ && "size"@ != "go"@ && "size"@ != "open"@ && "size"@ != "force"@ && "size"@ != "materialize"@ && "size"@ != "threads"@ && "size"@ != "config"@ && "size"@ != "resume"@ && "size"@ != "unpause"@ && "size"@ != "pause"@ && "size"@ != "statistics"@ && "size"@ != "workers"@ && "size"@ != "goto"@ && "size"@ != "q"@ && "size"@ != "theme"@ && "size"@ != "mode"@ && "size"@ != "exit"@ && "size"@ != "logs"@ && "size"@ != "help"@ && "size"@ != "status"@ && "size"@ != "rows"@ && "size"@ != "refresh"@ && "size"@ != "rescan"@ && "size"@ != "h"@ && "size"@ != "log"@ && "size"@ != "settings"@ && "size"@ != "scan"@) by {
        reveal_strlit("workers");
        reveal_strlit("scan");
        reveal_strlit("stats");
        reveal_strlit("depth");
        reveal_strlit("dense");
        reveal_strlit("force");
        reveal_strlit("materialize");
        reveal_strlit("statistics");
        reveal_strlit("config");
        reveal_strlit("limit");
        reveal_strlit("quit");
        reveal_strlit("?");
        reveal_strlit("log");
        reveal_strlit("expand");
        reveal_strlit("unpause");
        reveal_strlit("cd");
        reveal_strlit("rows");
        reveal_strlit("go");
        reveal_strlit("theme");
        reveal_strlit("goto");
        reveal_strlit("exit");
        reveal_strlit("refresh");
        reveal_strlit("settings");
        reveal_strlit("h");
        reveal_strlit("help");
        reveal_strlit("pause");
        reveal_strlit("logs");
        reveal_strlit("open");
        reveal_strlit("rescan");
        reveal_strlit("threads");
        reveal_strlit("resume");
        reveal_strlit("status");
        reveal_strlit("mode");
        reveal_strlit("size");
        reveal_strlit("q");
        assert("size"@.len() != "refresh"@.len() && "size"@.len() != "workers"@.len() && "size"@.len() != "force"@.len() && "size"@.len() != "resume"@.len() && "size"@.len() != "statistics"@.len() && "size"@.len() != "expand"@.len() && "size"@.len() != "materialize"@.len() && "size"@.len() != "stats"@.len() && "size"@[0] != "goto"@[0] && "size"@[0] != "open"@[0] && "size"@.len() != "threads"@.len() && "size"@[0] != "mode"@[0] && "size"@[0] != "rows"@[0] && "size"@[0] != "logs"@[0] && "size"@.len() != "dense"@.len() && "size"@.len() != "depth"@.len() && "size"@[0] != "exit"@[0] && "size"@.len() != "go"@.len() && "size"@.len() != "log"@.len() && "size"@.len() != "limit"@.len() && "size"@.len() != "config"@.len() && "size"@.len() != "settings"@.len() && "size"@.len() != "unpause"@.len() && "size"@.len() != "theme"@.len() && "size"@.len() != "pause"@.len() && "size"@[0] != "help"@[0] && "size"@.len() != "status"@.len() && "size"@.len() != "h"@.len() && "size"@.len() != "?"@.len() && "size"@.len() != "rescan"@.len() && "size"@[1] != "scan"@[1] && "size"@.len() != "cd"@.len() && "size"@.len() != "q"@.len() && "size"@[0] != "quit"@[0]);
    }
    reveal_strlit("size");
    assert(ascii_lower("size"@) =~= "size"@);
    lemma_word_alone("size"@);
}

pub(crate) proof fn lemma_meaning_with_argument_size(p: Seq<char>)
    ensures
        plain_argument(p) ==> command_spec("size "@ + p) == CommandView::SetSizeMode(ascii_lower(p)),
{
    assert("size"@ != "?"@ && "size"@ != "quit"@ && "size"@ != "cd"@ && "size"@ != "dense"@ && "size"@ != "expand"@ && "size"@ != "limit"@ && "size"@ != "depth"@ && "size"@ != "stats"@ && "size"@ != "go"@ && "size"@ != "open"@ && "size"@ != "force"@ && "size"@ != "materialize"@ && "size"@ != "threads"@ && "size"@ != "config"@ && "size"@ != "resume"@ && "size"@ != "unpause"@ && "size"@ != "pause"@ && "size"@ != "statistics"@ && "size"@ != "workers"@ && "size"@ != "goto"@ && "size"@ != "q"@ && "size"@ != "theme"@ && "size"@ != "mode"@ && "size"@ != "exit"@ && "size"@ != "logs"@ && "size"@ != "help"@ && "size"@ != "status"@ && "size"@ != "rows"@ && "size"@ != "refresh"@ && "size"@ != "rescan"@ && "size"@ != "h"@ && "size"@ != "log"@ && "size"@ != "settings"@ && "size"@ != "scan"@) by {
        reveal_strlit("workers");
        reveal_strlit("scan");
        reveal_strlit("stats");
        reveal_strlit("depth");
        reveal_strlit("dense");
        reveal_strlit("force");
        reveal_strlit("materialize");
        reveal_strlit("statistics");
        reveal_strlit("config");
        reveal_strlit("limit");
        reveal_strlit("quit");
        reveal_strlit("?");
        reveal_strlit("log");
        reveal_strlit("expand");
        reveal_strlit("unpause");
        reveal_strlit("cd");
        reveal_strlit("rows");
        reveal_strlit("go");
        reveal_strlit("theme");
        reveal_strlit("goto");
        reveal_strlit("exit");
        reveal_strlit("refresh");
        reveal_strlit("settings");
        reveal_strlit("h");
        reveal_strlit("help");
        reveal_strlit("pause");
        reveal_strlit("logs");
        reveal_strlit("open");
        reveal_strlit("rescan");
        reveal_strlit("threads");
        reveal_strlit("resume");
        reveal_strlit("status");
        reveal_strlit("mode");
        reveal_strlit("size");
        reveal_strlit("q");
        assert("size"@.len() != "refresh"@.len() && "size"@.len() != "workers"@.len() && "size"@.len() != "force"@.len() && "size"@.len() != "resume"@.len() && "size"@.len() != "statistics"@.len() && "size"@.len() != "expand"@.len() && "size"@.len() != "materialize"@.len() && "size"@.len() != "stats"@.len() && "size"@[0] != "goto"@[0] && "size"@[0] != "open"@[0] && "size"@.len() != "threads"@.len() && "size"@[0] != "mode"@[0] && "size"@[0] != "rows"@[0] && "size"@[0] != "logs"@[0] && "size"@.len() != "dense"@.len() && "size"@.len() != "depth"@.len() && "size"@[0] != "exit"@[0] && "size"@.len() != "go"@.len() && "size"@.len() != "log"@.len() && "size"@.len() != "limit"@.len() && "size"@.len() != "config"@.len() && "size"@.len() != "settings"@.len() && "size"@.len() != "unpause"@.len() && "size"@.len() != "theme"@.len() && "size"@.len() != "pause"@.len() && "size"@[0] != "help"@[0] && "size"@.len() != "status"@.len() && "size"@.len() != "h"@.len() && "size"@.len() != "?"@.len() && "size"@.len() != "rescan"@.len() && "size"@[1] != "scan"@[1] && "size"@.len() != "cd"@.len() && "size"@.len() != "q"@.len() && "size"@[0] != "quit"@[0]);
    }
    reveal_strlit("size");
    reveal_strlit("size ");
    assert(ascii_lower("size"@) =~= "size"@);
    assert("size "@ =~= "size"@ + seq![' ']);
    if plain_argument(p) {
        lemma_word_with_argument("size"@, p);
        assert("size "@ + p =~= "size"@ + seq![' '] + p);
    }
}

pub(crate) proof fn lemma_meaning_alone_base()
    ensures
        command_spec("base"@) == CommandView::Unknown("base needs `decimal` or `binary`"@),
{
    assert("base"@ != "goto"@ && "base"@ != "q"@ && "base"@ != "quit"@ && "base"@ != "force"@ && "base"@ != "pause"@ && "base"@ != "config"@ && "base"@ != "log"@ && "base"@ != "?"@ && "base"@ != "limit"@ && "base"@ != "depth"@ && "base"@ != "mode"@ && "base"@ != "unpause"@ && "base"@ != "open"@ && "base"@ != "exit"@ && "base"@ != "cd"@ && "base"@ != "rows"@ && "base"@ != "h"@ && "base"@ != "size"@ && "base"@ != "rescan"@ && "base"@ != "dense"@ && "base"@ != "theme"@ && "base"@ != "status"@ && "base"@ != "stats"@ && "base"@ != "materialize"@ && "base"@ != "logs"@ && "base"@ != "statistics"@ && "base"@ != "help"@ && "base"@ != "expand"@ && "base"@ != "threads"@ && "base"@ != "settings"@ && "base"@ != "go"@ && "base"@ != "refresh"@ && "base"@ != "scan"@ && "base"@ != "resume"@ && "base"@ != "workers"@) by {
        reveal_strlit("dense");
        reveal_strlit("exit");
        reveal_strlit("depth");
        reveal_strlit("unpause");
        reveal_strlit("go");
        reveal_strlit("goto");
        reveal_strlit("quit");
        reveal_strlit("statistics");
        reveal_strlit("open");
        reveal_strlit("threads");
        reveal_strlit("stats");
        reveal_strlit("materialize");
        reveal_strlit("settings");
        reveal_strlit("log");
        reveal_strlit("h");
        reveal_strlit("cd");
        reveal_strlit("q");
        reveal_strlit("?");
        reveal_strlit("scan");
        reveal_strlit("refresh");
        reveal_strlit("workers");
        reveal_strlit("logs");
        reveal_strlit("expand");
        reveal_strlit("status");
        reveal_strlit("base");
        reveal_strlit("pause");
        reveal_strlit("size");
        reveal_strlit("theme");
        reveal_strlit("force");
        reveal_strlit("rescan");
        reveal_strlit("rows");
        reveal_strlit("config");
        reveal_strlit("mode");
        reveal_strlit("help");
        reveal_strlit("resume");
        reveal_strlit("limit");
        assert("base"@.len() != "depth"@.len() && "base"@.len() != "resume"@.len() && "base"@.len() != "q"@.len() && "base"@.len() != "cd"@.len() && "base"@[0] != "scan"@[0] && "base"@.len() != "status"@.len() && "base"@.len() != "h"@.len() && "base"@.len() != "config"@.len() && "base"@.len() != "expand"@.len() && "base"@.len() != "dense"@.len() && "base"@.len() != "workers"@.len() && "base"@.len() != "log"@.len() && "base"@.len() != "theme"@.len() && "base"@.len() != "rescan"@.len() && "base"@.len() != "refresh"@.len() && "base"@.len() != "statistics"@.len() && "base"@.len() != "?"@.len() && "base"@.len() != "settings"@.len() && "base"@.len() != "materialize"@.len() && "base"@.len() != "stats"@.len() && "base"@.len() != "unpause"@.len() && "base"@[0] != "mode"@[0] && "base"@[0] != "size"@[0] && "base"@[0] != "exit"@[0] && "base"@.len() != "force"@.len() && "base"@.len() != "limit"@.len() && "base"@[0] != "rows"@[0] && "base"@[0] != "logs"@[0] && "base"@.len() != "threads"@.len() && "base"@[0] != "open"@[0] && "base"@.len() != "pause"@.len() && "base"@[0] != "help"@[0] && "base"@[0] != "goto"@[0] && "base"@[0] != "quit"@[0] && "base"@.len() != "go"@.len());
    }
    reveal_strlit("base");
    assert(ascii_lower("base"@) =~= "base"@);
    lemma_word_alone("base"@);
}

pub(crate) proof fn lemma_meaning_with_argument_base(p: Seq<char>)
    ensures
        plain_argument(p) ==> command_spec("base "@ + p) == CommandView::SetSizeBase(ascii_lower(p)),
{
    assert("base"@ != "goto"@ && "base"@ != "q"@ && "base"@ != "quit"@ && "base"@ != "force"@ && "base"@ != "pause"@ && "base"@ != "config"@ && "base"@ != "log"@ && "base"@ != "?"@ && "base"@ != "limit"@ && "base"@ != "depth"@ && "base"@ != "mode"@ && "base"@ != "unpause"@ && "base"@ != "open"@ && "base"@ != "exit"@ && "base"@ != "cd"@ && "base"@ != "rows"@ && "base"@ != "h"@ && "base"@ != "size"@ && "base"@ != "rescan"@ && "base"@ != "dense"@ && "base"@ != "theme"@ && "base"@ != "status"@ && "base"@ != "stats"@ && "base"@ != "materialize"@ && "base"@ != "logs"@ && "base"@ != "statistics"@ && "base"@ != "help"@ && "base"@ != "expand"@ && "base"@ != "threads"@ && "base"@ != "settings"@ && "base"@ != "go"@ && "base"@ != "refresh"@ && "base"@ != "scan"@ && "base"@ != "resume"@ && "base"@ != "workers"@) by {
        reveal_strlit("dense");
        reveal_strlit("exit");
        reveal_strlit("depth");
        reveal_strlit("unpause");
        reveal_strlit("go");
        reveal_strlit("goto");
        reveal_strlit("quit");
        reveal_strlit("statistics");
        reveal_strlit("open");
        reveal_strlit("threads");
        reveal_strlit("stats");
        reveal_strlit("materialize");
        reveal_strlit("settings");
        reveal_strlit("log");
        reveal_strlit("h");
        reveal_strlit("cd");
        reveal_strlit("q");
        reveal_strlit("?");
        reveal_strlit("scan");
        reveal_strlit("refresh");
        reveal_strlit("workers");
        reveal_strlit("logs");
        reveal_strlit("expand");
        reveal_strlit("status");
        reveal_strlit("base");
        reveal_strlit("pause");
        reveal_strlit("size");
        reveal_strlit("theme");
        reveal_strlit("force");
        reveal_strlit("rescan");
        reveal_strlit("rows");
        reveal_strlit("config");
        reveal_strlit("mode");
        reveal_strlit("help");
        reveal_strlit("resume");
        reveal_strlit("limit");
        assert("base"@.len() != "depth"@.len() && "base"@.len() != "resume"@.len() && "base"@.len() != "q"@.len() && "base"@.len() != "cd"@.len() && "base"@[0] != "scan"@[0] && "base"@.len() != "status"@.len() && "base"@.len() != "h"@.len() && "base"@.len() != "config"@.len() && "base"@.len() != "expand"@.len() && "base"@.len() != "dense"@.len() && "base"@.len() != "workers"@.len() && "base"@.len() != "log"@.len() && "base"@.len() != "theme"@.len() && "base"@.len() != "rescan"@.len() && "base"@.len() != "refresh"@.len() && "base"@.len() != "statistics"@.len() && "base"@.len() != "?"@.len() && "base"@.len() != "settings"@.len() && "base"@.len() != "materialize"@.len() && "base"@.len() != "stats"@.len() && "base"@.len() != "unpause"@.len() && "base"@[0] != "mode"@[0] && "base"@[0] != "size"@[0] && "base"@[0] != "exit"@[0] && "base"@.len() != "force"@.len() && "base"@.len() != "limit"@.len() && "base"@[0] != "rows"@[0] && "base"@[0] != "logs"@[0] && "base"@.len() != "threads"@.len() && "base"@[0] != "open"@[0] && "base"@.len() != "pause"@.len() && "base"@[0] != "help"@[0] && "base"@[0] != "goto"@[0] && "base"@[0] != "quit"@[0] && "base"@.len() != "go"@.len());
    }
    reveal_strlit("base");
    reveal_strlit("base ");
    assert(ascii_lower("base"@) =~= "base"@);
    assert("base "@ =~= "base"@ + seq![' ']);
    if plain_argument(p) {
        lemma_word_with_argument("base"@, p);
        assert("base "@ + p =~= "base"@ + seq![' '] + p);
    }
}

pub(crate) proof fn lemma_meaning_alone_units()
    ensures
        command_spec("units"@) == CommandView::Unknown("base needs `decimal` or `binary`"@),
{
    assert("units"@ != "dense"@ && "units"@ != "q"@ && "units"@ != "materialize"@ && "units"@ != "help"@ && "units"@ != "resume"@ && "units"@ != "force"@ && "units"@ != "logs"@ && "units"@ != "refresh"@ && "units"@ != "log"@ && "units"@ != "?"@ && "units"@ != "goto"@ && "units"@ != "quit"@ && "units"@ != "size"@ && "units"@ != "depth"@ && "units"@ != "go"@ && "units"@ != "mode"@ && "units"@ != "expand"@ && "units"@ != "limit"@ && "units"@ != "stats"@ && "units"@ != "cd"@ && "units"@ != "theme"@ && "units"@ != "rescan"@ && "units"@ != "h"@ && "units"@ != "rows"@ && "units"@ != "settings"@ && "units"@ != "pause"@ && "units"@ != "unpause"@ && "units"@ != "statistics"@ && "units"@ != "base"@ && "units"@ != "scan"@ && "units"@ != "exit"@ && "units"@ != "open"@ && "units"@ != "workers"@ && "units"@ != "status"@ && "units"@ != "threads"@ && "units"@ != "config"@) by {
        reveal_strlit("refresh");
        reveal_strlit("status");
        reveal_strlit("unpause");
        reveal_strlit("threads");
        reveal_strlit("config");
        reveal_strlit("rows");
        reveal_strlit("help");
        reveal_strlit("go");
        reveal_strlit("statistics");
        reveal_strlit("?");
        reveal_strlit("size");
        reveal_strlit("resume");
        reveal_strlit("base");
        reveal_strlit("rescan");
        reveal_strlit("logs");
        reveal_strlit("mode");
        reveal_strlit("h");
        reveal_strlit("stats");
        reveal_strlit("log");
        reveal_strlit("dense");
        reveal_strlit("limit");
        reveal_strlit("depth");
        reveal_strlit("units");
        reveal_strlit("settings");
        reveal_strlit("theme");
        reveal_strlit("pause");
        reveal_strlit("workers");
        reveal_strlit("exit");
        reveal_strlit("q");
        reveal_strlit("open");
        reveal_strlit("quit");
        reveal_strlit("expand");
        reveal_strlit("scan");
        reveal_strlit("force");
        reveal_strlit("materialize");
        reveal_strlit("goto");
        reveal_strlit("cd");
        assert("units"@.len() != "go"@.len() && "units"@.len() != "?"@.len() && "units"@.len() != "rows"@.len() && "units"@[0] != "stats"@[0] && "units"@.len() != "size"@.len() && "units"@.len() != "refresh"@.len() && "units"@.len() != "q"@.len() && "units"@.len() != "resume"@.len() && "units"@.len() != "status"@.len() && "units"@.len() != "threads"@.len() && "units"@[0] != "pause"@[0] && "units"@[0] != "limit"@[0] && "units"@.len() != "quit"@.len() && "units"@.len() != "scan"@.len() && "units"@[0] != "depth"@[0] && "units"@.len() != "exit"@.len() && "units"@[0] != "force"@[0] && "units"@.len() != "statistics"@.len() && "units"@.len() != "open"@.len() && "units"@.len() != "goto"@.len() && "units"@.len() != "unpause"@.len() && "units"@.len() != "mode"@.len() && "units"@.len() != "config"@.len() && "units"@.len() != "help"@.len() && "units"@[0] != "dense"@[0] && "units"@.len() != "expand"@.len() && "units"@.len() != "rescan"@.len() && "units"@.len() != "logs"@.len() && "units"@.len() != "cd"@.len() && "units"@[0] != "theme"@[0] && "units"@.len() != "workers"@.len() && "units"@.len() != "settings"@.len() && "units"@.len() != "h"@.len() && "units"@.len() != "materialize"@.len() && "units"@.len() != "base"@.len() && "units"@.len() != "log"@.len());
    }
    reveal_strlit("units");
    assert(ascii_lower("units"@) =~= "units"@);
    lemma_word_alone("units"@);
}

pub(crate) proof fn lemma_meaning_with_argument_units(p: Seq<char>)
    ensures
        plain_argument(p) ==> command_spec("units "@ + p) == CommandView::SetSizeBase(ascii_lower(p)),
{
    assert("units"@ != "dense"@ && "units"@ != "q"@ && "units"@ != "materialize"@ && "units"@ != "help"@ && "units"@ != "resume"@ && "units"@ != "force"@ && "units"@ != "logs"@ && "units"@ != "refresh"@ && "units"@ != "log"@ && "units"@ != "?"@ && "units"@ != "goto"@ && "units"@ != "quit"@ && "units"@ != "size"@ && "units"@ != "depth"@ && "units"@ != "go"@ && "units"@ != "mode"@ && "units"@ != "expand"@ && "units"@ != "limit"@ && "units"@ != "stats"@ && "units"@ != "cd"@ && "units"@ != "theme"@ && "units"@ != "rescan"@ && "units"@ != "h"@ && "units"@ != "rows"@ && "units"@ != "settings"@ && "units"@ != "pause"@ && "units"@ != "unpause"@ && "units"@ != "statistics"@ && "units"@ != "base"@ && "units"@ != "scan"@ && "units"@ != "exit"@ && "units"@ != "open"@ && "units"@ != "workers"@ && "units"@ != "status"@ && "units"@ != "threads"@ && "units"@ != "config"@) by {
        reveal_strlit("refresh");
        reveal_strlit("status");
        reveal_strlit("unpause");
        reveal_strlit("threads");
        reveal_strlit("config");
        reveal_strlit("rows");
        reveal_strlit("help");
        reveal_strlit("go");
        reveal_strlit("statistics");
        reveal_strlit("?");
        reveal_strlit("size");
        reveal_strlit("resume");
        reveal_strlit("base");
        reveal_strlit("rescan");
        reveal_strlit("logs");
        reveal_strlit("mode");
        reveal_strlit("h");
        reveal_strlit("stats");
        reveal_strlit("log");
        reveal_strlit("dense");
        reveal_strlit("limit");
        reveal_strlit("depth");
        reveal_strlit("units");
        reveal_strlit("settings");
        reveal_strlit("theme");
        reveal_strlit("pause");
        reveal_strlit("workers");
        reveal_strlit("exit");
        reveal_strlit("q");
        reveal_strlit("open");
        reveal_strlit("quit");
        reveal_strlit("expand");
        reveal_strlit("scan");
        reveal_strlit("force");
        reveal_strlit("materialize");
        reveal_strlit("goto");
        reveal_strlit("cd");
        assert("units"@.len() != "go"@.len() && "units"@.len() != "?"@.len() && "units"@.len() != "rows"@.len() && "units"@[0] != "stats"@[0] && "units"@.len() != "size"@.len() && "units"@.len() != "refresh"@.len() && "units"@.len() != "q"@.len() && "units"@.len() != "resume"@.len() && "units"@.len() != "status"@.len() && "units"@.len() != "threads"@.len() && "units"@[0] != "pause"@[0] && "units"@[0] != "limit"@[0] && "units"@.len() != "quit"@.len() && "units"@.len() != "scan"@.len() && "units"@[0] != "depth"@[0] && "units"@.len() != "exit"@.len() && "units"@[0] != "force"@[0] && "units"@.len() != "statistics"@.len() && "units"@.len() != "open"@.len() && "units"@.len() != "goto"@.len() && "units"@.len() != "unpause"@.len() && "units"@.len() != "mode"@.len() && "units"@.len() != "config"@.len() && "units"@.len() != "help"@.len() && "units"@[0] != "dense"@[0] && "units"@.len() != "expand"@.len() && "units"@.len() != "rescan"@.len() && "units"@.len() != "logs"@.len() && "units"@.len() != "cd"@.len() && "units"@[0] != "theme"@[0] && "units"@.len() != "workers"@.len() && "units"@.len() != "settings"@.len() && "units"@.len() != "h"@.len() && "units"@.len() != "materialize"@.len() && "units"@.len() != "base"@.len() && "units"@.len() != "log"@.len());
    }
    reveal_strlit("units");
    reveal_strlit("units ");
    assert(ascii_lower("units"@) =~= "units"@);
    assert("units "@ =~= "units"@ + seq![' ']);
    if plain_argument(p) {
        lemma_word_with_argument("units"@, p);
        assert("units "@ + p =~= "units"@ + seq![' '] + p);
    }
}

pub(crate) proof fn lemma_meaning_alone_top()
    ensures
        command_spec("top"@) == CommandView::HeaviestFiles(None),
{
    assert("top"@ != "limit"@ && "top"@ != "statistics"@ && "top"@ != "expand"@ && "top"@ != "dense"@ && "top"@ != "exit"@ && "top"@ != "log"@ && "top"@ != "cd"@ && "top"@ != "pause"@ && "top"@ != "mode"@ && "top"@ != "open"@ && "top"@ != "force"@ && "top"@ != "refresh"@ && "top"@ != "theme"@ && "top"@ != "materialize"@ && "top"@ != "size"@ && "top"@ != "?"@ && "top"@ != "goto"@ && "top"@ != "base"@ && "top"@ != "rows"@ && "top"@ != "rescan"@ && "top"@ != "units"@ && "top"@ != "depth"@ && "top"@ != "quit"@ && "top"@ != "help"@ && "top"@ != "unpause"@ && "top"@ != "status"@ && "top"@ != "logs"@ && "top"@ != "resume"@ && "top"@ != "config"@ && "top"@ != "scan"@ && "top"@ != "threads"@ && "top"@ != "h"@ && "top"@ != "stats"@ && "top"@ != "workers"@ && "top"@ != "settings"@ && "top"@ != "q"@ && "top"@ != "go"@) by {
        reveal_strlit("workers");
        reveal_strlit("resume");
        reveal_strlit("base");
        reveal_strlit("logs");
        reveal_strlit("stats");
        reveal_strlit("theme");
        reveal_strlit("q");
        reveal_strlit("force");
        reveal_strlit("quit");
        reveal_strlit("threads");
        reveal_strlit("depth");
        reveal_strlit("top");
        reveal_strlit("log");
        reveal_strlit("limit");
        reveal_strlit("refresh");
        reveal_strlit("statistics");
        reveal_strlit("exit");
        reveal_strlit("go");
        reveal_strlit("units");
        reveal_strlit("size");
        reveal_strlit("cd");
        reveal_strlit("scan");
        reveal_strlit("settings");
        reveal_strlit("rescan");
        reveal_strlit("materialize");
        reveal_strlit("unpause");
        reveal_strlit("?");
        reveal_strlit("mode");
        reveal_strlit("expand");
        reveal_strlit("status");
        reveal_strlit("help");
        reveal_strlit("h");
        reveal_strlit("config");
        reveal_strlit("goto");
        reveal_strlit("dense");
        reveal_strlit("pause");
        reveal_strlit("rows");
        reveal_strlit("open");
        assert("top"@.len() != "refresh"@.len() && "top"@.len() != "base"@.len() && "top"@.len() != "config"@.len() && "top"@.len() != "workers"@.len() && "top"@.len() != "open"@.len() && "top"@.len() != "stats"@.len() && "top"@.len() != "scan"@.len() && "top"@.len() != "logs"@.len() && "top"@.len() != "limit"@.len() && "top"@.len() != "theme"@.len() && "top"@.len() != "quit"@.len() && "top"@.len() != "size"@.len() && "top"@.len() != "threads"@.len() && "top"@.len() != "h"@.len() && "top"@.len() != "status"@.len() && "top"@.len() != "expand"@.len() && "top"@.len() != "depth"@.len() && "top"@.len() != "go"@.len() && "top"@.len() != "goto"@.len() && "top"@.len() != "q"@.len() && "top"@[0] != "log"@[0] && "top"@.len() != "unpause"@.len() && "top"@.len() != "?"@.len() && "top"@.len() != "dense"@.len() && "top"@.len() != "cd"@.len() && "top"@.len() != "rescan"@.len() && "top"@.len() != "force"@.len() && "top"@.len() != "statistics"@.len() && "top"@.len() != "exit"@.len() && "top"@.len() != "help"@.len() && "top"@.len() != "settings"@.len() && "top"@.len() != "materialize"@.len() && "top"@.len() != "resume"@.len() && "top"@.len() != "rows"@.len() && "top"@.len() != "mode"@.len() && "top"@.len() != "units"@.len() && "top"@.len() != "pause"@.len());
    }
    reveal_strlit("top");
    assert(ascii_lower("top"@) =~= "top"@);
    lemma_word_alone("top"@);
}

pub(crate) proof fn lemma_meaning_alone_heaviest()
    ensures
        command_spec("heaviest"@) == CommandView::HeaviestFiles(None),
{
    assert("heaviest"@ != "refresh"@ && "heaviest"@ != "pause"@ && "heaviest"@ != "?"@ && "heaviest"@ != "stats"@ && "heaviest"@ != "q"@ && "heaviest"@ != "resume"@ && "heaviest"@ != "quit"@ && "heaviest"@ != "log"@ && "heaviest"@ != "cd"@ && "heaviest"@ != "mode"@ && "heaviest"@ != "rows"@ && "heaviest"@ != "logs"@ && "heaviest"@ != "size"@ && "heaviest"@ != "unpause"@ && "heaviest"@ != "h"@ && "heaviest"@ != "units"@ && "heaviest"@ != "goto"@ && "heaviest"@ != "exit"@ && "heaviest"@ != "threads"@ && "heaviest"@ != "limit"@ && "heaviest"@ != "open"@ && "heaviest"@ != "go"@ && "heaviest"@ != "top"@ && "heaviest"@ != "materialize"@ && "heaviest"@ != "force"@ && "heaviest"@ != "workers"@ && "heaviest"@ != "expand"@ && "heaviest"@ != "config"@ && "heaviest"@ != "depth"@ && "heaviest"@ != "base"@ && "heaviest"@ != "statistics"@ && "heaviest"@ != "dense"@ && "heaviest"@ != "status"@ && "heaviest"@ != "theme"@ && "heaviest"@ != "settings"@ && "heaviest"@ != "scan"@ && "heaviest"@ != "rescan"@ && "heaviest"@ != "help"@) by {
        reveal_strlit("rescan");
        reveal_strlit("q");
        reveal_strlit("statistics");
        reveal_strlit("base");
        reveal_strlit("h");
        reveal_strlit("unpause");
        reveal_strlit("units");
        reveal_strlit("mode");
        reveal_strlit("settings");
        reveal_strlit("theme");
        reveal_strlit("stats");
        reveal_strlit("materialize");
        reveal_strlit("scan");
        reveal_strlit("rows");
        reveal_strlit("?");
        reveal_strlit("refresh");
        reveal_strlit("help");
        reveal_strlit("expand");
        reveal_strlit("quit");
        reveal_strlit("resume");
        reveal_strlit("status");
        reveal_strlit("threads");
        reveal_strlit("heaviest");
        reveal_strlit("top");
        reveal_strlit("exit");
        reveal_strlit("open");
        reveal_strlit("goto");
        reveal_strlit("limit");
        reveal_strlit("go");
        reveal_strlit("size");
        reveal_strlit("config");
        reveal_strlit("depth");
        reveal_strlit("dense");
        reveal_strlit("cd");
        reveal_strlit("force");
        reveal_strlit("log");
        reveal_strlit("logs");
        reveal_strlit("pause");
        reveal_strlit("workers");
        assert("heaviest"@.len() != "config"@.len() && "heaviest"@.len() != "status"@.len() && "heaviest"@.len() != "?"@.len() && "heaviest"@.len() != "resume"@.len() && "heaviest"@.len() != "logs"@.len() && "heaviest"@.len() != "go"@.len() && "heaviest"@.len() != "quit"@.len() && "heaviest"@.len() != "limit"@.len() && "heaviest"@.len() != "statistics"@.len() && "heaviest"@.len() != "goto"@.len() && "heaviest"@.len() != "top"@.len() && "heaviest"@.len() != "mode"@.len() && "heaviest"@.len() != "size"@.len() && "heaviest"@.len() != "depth"@.len() && "heaviest"@.len() != "h"@.len() && "heaviest"@.len() != "workers"@.len() && "heaviest"@.len() != "unpause"@.len() && "heaviest"@.len() != "exit"@.len() && "heaviest"@.len() != "stats"@.len() && "heaviest"@.len() != "expand"@.len() && "heaviest"@.len() != "rescan"@.len() && "heaviest"@[0] != "settings"@[0] && "heaviest"@.len() != "theme"@.len() && "heaviest"@.len() != "base"@.len() && "heaviest"@.len() != "open"@.len() && "heaviest"@.len() != "help"@.len() && "heaviest"@.len() != "log"@.len() && "heaviest"@.len() != "units"@.len() && "heaviest"@.len() != "materialize"@.len() && "heaviest"@.len() != "cd"@.len() && "heaviest"@.len() != "threads"@.len() && "heaviest"@.len() != "dense"@.len() && "heaviest"@.len() != "rows"@.len() && "heaviest"@.len() != "refresh"@.len() && "heaviest"@.len() != "q"@.len() && "heaviest"@.len() != "scan"@.len() && "heaviest"@.len() != "force"@.len() && "heaviest"@.len() != "pause"@.len());
    }
    reveal_strlit("heaviest");
    assert(ascii_lower("heaviest"@) =~= "heaviest"@);
    lemma_word_alone("heaviest"@);
}

pub(crate) proof fn lemma_meaning_alone_largest()
    ensures
        command_spec("largest"@) == CommandView::HeaviestFiles(None),
{
    assert("largest"@ != "dense"@ && "largest"@ != "stats"@ && "largest"@ != "force"@ && "largest"@ != "rescan"@ && "largest"@ != "units"@ && "largest"@ != "h"@ && "largest"@ != "help"@ && "largest"@ != "depth"@ && "largest"@ != "cd"@ && "largest"@ != "quit"@ && "largest"@ != "heaviest"@ && "largest"@ != "refresh"@ && "largest"@ != "size"@ && "largest"@ != "theme"@ && "largest"@ != "top"@ && "largest"@ != "status"@ && "largest"@ != "?"@ && "largest"@ != "materialize"@ && "largest"@ != "log"@ && "largest"@ != "open"@ && "largest"@ != "resume"@ && "largest"@ != "unpause"@ && "largest"@ != "threads"@ && "largest"@ != "logs"@ && "largest"@ != "rows"@ && "largest"@ != "q"@ && "largest"@ != "statistics"@ && "largest"@ != "mode"@ && "largest"@ != "config"@ && "largest"@ != "goto"@ && "largest"@ != "exit"@ && "largest"@ != "settings"@ && "largest"@ != "go"@ && "largest"@ != "workers"@ && "largest"@ != "pause"@ && "largest"@ != "limit"@ && "largest"@ != "base"@ && "largest"@ != "scan"@ && "largest"@ != "expand"@) by {
        reveal_strlit("expand");
        reveal_strlit("pause");
        reveal_strlit("units");
        reveal_strlit("exit");
        reveal_strlit("rescan");
        reveal_strlit("depth");
        reveal_strlit("top");
        reveal_strlit("q");
        reveal_strlit("config");
        reveal_strlit("?");
        reveal_strlit("largest");
        reveal_strlit("mode");
        reveal_strlit("workers");
        reveal_strlit("quit");
        reveal_strlit("size");
        reveal_strlit("log");
        reveal_strlit("refresh");
        reveal_strlit("limit");
        reveal_strlit("open");
        reveal_strlit("heaviest");
        reveal_strlit("dense");
        reveal_strlit("theme");
        reveal_strlit("rows");
        reveal_strlit("statistics");
        reveal_strlit("unpause");
        reveal_strlit("threads");
        reveal_strlit("force");
        reveal_strlit("materialize");
        reveal_strlit("logs");
        reveal_strlit("h");
        reveal_strlit("resume");
        reveal_strlit("settings");
        reveal_strlit("cd");
        reveal_strlit("goto");
        reveal_strlit("help");
        reveal_strlit("base");
        reveal_strlit("go");
        reveal_strlit("stats");
        reveal_strlit("status");
        reveal_strlit("scan");
        assert("largest"@.len() != "help"@.len() && "largest"@.len() != "units"@.len() && "largest"@.len() != "theme"@.len() && "largest"@.len() != "go"@.len() && "largest"@.len() != "pause"@.len() && "largest"@.len() != "expand"@.len() && "largest"@.len() != "base"@.len() && "largest"@.len() != "h"@.len() && "largest"@.len() != "size"@.len() && "largest"@[0] != "threads"@[0] && "largest"@.len() != "limit"@.len() && "largest"@.len() != "rescan"@.len() && "largest"@.len() != "force"@.len() && "largest"@.len() != "?"@.len() && "largest"@.len() != "statistics"@.len() && "largest"@.len() != "log"@.len() && "largest"@.len() != "quit"@.len() && "largest"@.len() != "dense"@.len() && "largest"@.len() != "q"@.len() && "largest"@.len() != "scan"@.len() && "largest"@.len() != "goto"@.len() && "largest"@[0] != "refresh"@[0] && "largest"@.len() != "resume"@.len() && "largest"@.len() != "settings"@.len() && "largest"@.len() != "config"@.len() && "largest"@[0] != "unpause"@[0] && "largest"@.len() != "heaviest"@.len() && "largest"@.len() != "logs"@.len() && "largest"@.len() != "status"@.len() && "largest"@.len() != "rows"@.len() && "largest"@.len() != "cd"@.len() && "largest"@.len() != "depth"@.len() && "largest"@.len() != "top"@.len() && "largest"@.len() != "open"@.len() && "largest"@.len() != "materialize"@.len() && "largest"@.len() != "exit"@.len() && "largest"@.len() != "stats"@.len() && "largest"@[0] != "workers"@[0] && "largest"@.len() != "mode"@.len());
    }
    reveal_strlit("largest");
    assert(ascii_lower("largest"@) =~= "largest"@);
    lemma_word_alone("largest"@);
}

pub(crate) proof fn lemma_meaning_alone_reveal()
    ensures
        command_spec("reveal"@) == CommandView::Reveal,
{
    assert("reveal"@ != "rows"@ && "reveal"@ != "largest"@ && "reveal"@ != "base"@ && "reveal"@ != "?"@ && "reveal"@ != "expand"@ && "reveal"@ != "dense"@ && "reveal"@ != "units"@ && "reveal"@ != "log"@ && "reveal"@ != "size"@ && "reveal"@ != "rescan"@ && "reveal"@ != "statistics"@ && "reveal"@ != "stats"@ && "reveal"@ != "logs"@ && "reveal"@ != "refresh"@ && "reveal"@ != "q"@ && "reveal"@ != "cd"@ && "reveal"@ != "heaviest"@ && "reveal"@ != "unpause"@ && "reveal"@ != "help"@ && "reveal"@ != "limit"@ && "reveal"@ != "resume"@ && "reveal"@ != "h"@ && "reveal"@ != "materialize"@ && "reveal"@ != "exit"@ && "reveal"@ != "goto"@ && "reveal"@ != "scan"@ && "reveal"@ != "theme"@ && "reveal"@ != "pause"@ && "reveal"@ != "top"@ && "reveal"@ != "threads"@ && "reveal"@ != "mode"@ && "reveal"@ != "quit"@ && "reveal"@ != "settings"@ && "reveal"@ != "config"@ && "reveal"@ != "force"@ && "reveal"@ != "depth"@ && "reveal"@ != "workers"@ && "reveal"@ != "go"@ && "reveal"@ != "status"@ && "reveal"@ != "open"@) by {
        reveal_strlit("mode");
        reveal_strlit("?");
        reveal_strlit("resume");
        reveal_strlit("exit");
        reveal_strlit("size");
        reveal_strlit("reveal");
        reveal_strlit("rescan");
        reveal_strlit("open");
        reveal_strlit("force");
        reveal_strlit("config");
        reveal_strlit("largest");
        reveal_strlit("h");
        reveal_strlit("rows");
        reveal_strlit("base");
        reveal_strlit("go");
        reveal_strlit("statistics");
        reveal_strlit("materialize");
        reveal_strlit("cd");
        reveal_strlit("quit");
        reveal_strlit("dense");
        reveal_strlit("depth");
        reveal_strlit("stats");
        reveal_strlit("units");
        reveal_strlit("goto");
        reveal_strlit("settings");
        reveal_strlit("logs");
        reveal_strlit("heaviest");
        reveal_strlit("top");
        reveal_strlit("scan");
        reveal_strlit("help");
        reveal_strlit("status");
        reveal_strlit("threads");
        reveal_strlit("refresh");
        reveal_strlit("unpause");
        reveal_strlit("limit");
        reveal_strlit("q");
        reveal_strlit("pause");
        reveal_strlit("theme");
        reveal_strlit("log");
        reveal_strlit("expand");
        reveal_strlit("workers");
        assert("reveal"@.len() != "unpause"@.len() && "reveal"@.len() != "cd"@.len() && "reveal"@.len() != "units"@.len() && "reveal"@.len() != "logs"@.len() && "reveal"@.len() != "quit"@.len() && "reveal"@.len() != "base"@.len() && "reveal"@.len() != "dense"@.len() && "reveal"@.len() != "force"@.len() && "reveal"@.len() != "depth"@.len() && "reveal"@.len() != "workers"@.len() && "reveal"@[0] != "config"@[0] && "reveal"@[0] != "expand"@[0] && "reveal"@.len() != "help"@.len() && "reveal"@.len() != "limit"@.len() && "reveal"@.len() != "?"@.len() && "reveal"@.len() != "settings"@.len() && "reveal"@.len() != "size"@.len() && "reveal"@.len() != "statistics"@.len() && "reveal"@.len() != "top"@.len() && "reveal"@.len() != "log"@.len() && "reveal"@.len() != "open"@.len() && "reveal"@.len() != "q"@.len() && "reveal"@.len() != "scan"@.len() && "reveal"@.len() != "exit"@.len() && "reveal"@.len() != "goto"@.len() && "reveal"@[2] != "rescan"@[2] && "reveal"@.len() != "mode"@.len() && "reveal"@.len() != "h"@.len() && "reveal"@.len() != "materialize"@.len() && "reveal"@.len() != "theme"@.len() && "reveal"@.len() != "refresh"@.len() && "reveal"@[2] != "resume"@[2] && "reveal"@.len() != "heaviest"@.len() && "reveal"@.len() != "stats"@.len() && "reveal"@.len() != "largest"@.len() && "reveal"@.len() != "go"@.len() && "reveal"@.len() != "pause"@.len() && "reveal"@[0] != "status"@[0] && "reveal"@.len() != "threads"@.len() && "reveal"@.len() != "rows"@.len());
    }
    reveal_strlit("reveal");
    assert(ascii_lower("reveal"@) =~= "reveal"@);
    lemma_word_alone("reveal"@);
}

pub(crate) proof fn lemma_meaning_alone_finder()
    ensures
        command_spec("finder"@) == CommandView::Reveal,
{
    assert("finder"@ != "force"@ && "finder"@ != "top"@ && "finder"@ != "materialize"@ && "finder"@ != "log"@ && "finder"@ != "goto"@ && "finder"@ != "mode"@ && "finder"@ != "unpause"@ && "finder"@ != "rescan"@ && "finder"@ != "q"@ && "finder"@ != "reveal"@ && "finder"@ != "go"@ && "finder"@ != "units"@ && "finder"@ != "pause"@ && "finder"@ != "stats"@ && "finder"@ != "threads"@ && "finder"@ != "statistics"@ && "finder"@ != "open"@ && "finder"@ != "status"@ && "finder"@ != "largest"@ && "finder"@ != "limit"@ && "finder"@ != "expand"@ && "finder"@ != "resume"@ && "finder"@ != "depth"@ && "finder"@ != "dense"@ && "finder"@ != "h"@ && "finder"@ != "workers"@ && "finder"@ != "help"@ && "finder"@ != "refresh"@ && "finder"@ != "size"@ && "finder"@ != "cd"@ && "finder"@ != "?"@ && "finder"@ != "settings"@ && "finder"@ != "scan"@ && "finder"@ != "exit"@ && "finder"@ != "quit"@ && "finder"@ != "config"@ && "finder"@ != "theme"@ && "finder"@ != "logs"@ && "finder"@ != "rows"@ && "finder"@ != "base"@ && "finder"@ != "heaviest"@) by {
        reveal_strlit("logs");
        reveal_strlit("h");
        reveal_strlit("pause");
        reveal_strlit("rows");
        reveal_strlit("mode");
        reveal_strlit("refresh");
        reveal_strlit("resume");
        reveal_strlit("theme");
        reveal_strlit("settings");
        reveal_strlit("status");
        reveal_strlit("reveal");
        reveal_strlit("go");
        reveal_strlit("limit");
        reveal_strlit("goto");
        reveal_strlit("help");
        reveal_strlit("top");
        reveal_strlit("depth");
        reveal_strlit("size");
        reveal_strlit("expand");
        reveal_strlit("config");
        reveal_strlit("finder");
        reveal_strlit("workers");
        reveal_strlit("largest");
        reveal_strlit("scan");
        reveal_strlit("?");
        reveal_strlit("force");
        reveal_strlit("open");
        reveal_strlit("materialize");
        reveal_strlit("unpause");
        reveal_strlit("base");
        reveal_strlit("threads");
        reveal_strlit("exit");
        reveal_strlit("rescan");
        reveal_strlit("cd");
        reveal_strlit("units");
        reveal_strlit("dense");
        reveal_strlit("log");
        reveal_strlit("q");
        reveal_strlit("quit");
        reveal_strlit("stats");
        reveal_strlit("heaviest");
        reveal_strlit("statistics");
        assert("finder"@.len() != "force"@.len() && "finder"@.len() != "q"@.len() && "finder"@.len() != "open"@.len() && "finder"@.len() != "help"@.len() && "finder"@.len() != "log"@.len() && "finder"@.len() != "workers"@.len() && "finder"@[0] != "config"@[0] && "finder"@.len() != "theme"@.len() && "finder"@.len() != "depth"@.len() && "finder"@.len() != "h"@.len() && "finder"@[0] != "expand"@[0] && "finder"@[0] != "rescan"@[0] && "finder"@.len() != "logs"@.len() && "finder"@.len() != "cd"@.len() && "finder"@.len() != "quit"@.len() && "finder"@.len() != "base"@.len() && "finder"@.len() != "go"@.len() && "finder"@.len() != "units"@.len() && "finder"@.len() != "statistics"@.len() && "finder"@.len() != "largest"@.len() && "finder"@.len() != "threads"@.len() && "finder"@.len() != "refresh"@.len() && "finder"@.len() != "materialize"@.len() && "finder"@.len() != "mode"@.len() && "finder"@.len() != "size"@.len() && "finder"@.len() != "dense"@.len() && "finder"@.len() != "pause"@.len() && "finder"@.len() != "?"@.len() && "finder"@.len() != "limit"@.len() && "finder"@.len() != "stats"@.len() && "finder"@.len() != "heaviest"@.len() && "finder"@[0] != "reveal"@[0] && "finder"@.len() != "rows"@.len() && "finder"@.len() != "scan"@.len() && "finder"@.len() != "unpause"@.len() && "finder"@.len() != "exit"@.len() && "finder"@.len() != "settings"@.len() && "finder"@.len() != "goto"@.len() && "finder"@[0] != "resume"@[0] && "finder"@.len() != "top"@.len() && "finder"@[0] != "status"@[0]);
    }
    reveal_strlit("finder");
    assert(ascii_lower("finder"@) =~= "finder"@);
    lemma_word_alone("finder"@);
}

pub(crate) proof fn lemma_meaning_alone_mounts()
    ensures
        command_spec("mounts"@) == CommandView::ListMounts,
{
    assert("mounts"@ != "depth"@ && "mounts"@ != "goto"@ && "mounts"@ != "threads"@ && "mounts"@ != "cd"@ && "mounts"@ != "go"@ && "mounts"@ != "theme"@ && "mounts"@ != "scan"@ && "mounts"@ != "?"@ && "mounts"@ != "stats"@ && "mounts"@ != "unpause"@ && "mounts"@ != "logs"@ && "mounts"@ != "mode"@ && "mounts"@ != "base"@ && "mounts"@ != "exit"@ && "mounts"@ != "limit"@ && "mounts"@ != "size"@ && "mounts"@ != "largest"@ && "mounts"@ != "top"@ && "mounts"@ != "workers"@ && "mounts"@ != "reveal"@ && "mounts"@ != "rescan"@ && "mounts"@ != "expand"@ && "mounts"@ != "statistics"@ && "mounts"@ != "help"@ && "mounts"@ != "quit"@ && "mounts"@ != "heaviest"@ && "mounts"@ != "rows"@ && "mounts"@ != "finder"@ && "mounts"@ != "q"@ && "mounts"@ != "settings"@ && "mounts"@ != "status"@ && "mounts"@ != "force"@ && "mounts"@ != "open"@ && "mounts"@ != "dense"@ && "mounts"@ != "units"@ && "mounts"@ != "refresh"@ && "mounts"@ != "pause"@ && "mounts"@ != "materialize"@ && "mounts"@ != "config"@ && "mounts"@ != "log"@ && "mounts"@ != "h"@ && "mounts"@ != "resume"@) by {
        reveal_strlit("mode");
        reveal_strlit("size");
        reveal_strlit("expand");
        reveal_strlit("finder");
        reveal_strlit("heaviest");
        reveal_strlit("force");
        reveal_strlit("refresh");
        reveal_strlit("q");
        reveal_strlit("largest");
        reveal_strlit("unpause");
        reveal_strlit("h");
        reveal_strlit("base");
        reveal_strlit("status");
        reveal_strlit("goto");
        reveal_strlit("resume");
        reveal_strlit("rows");
        reveal_strlit("?");
        reveal_strlit("rescan");
        reveal_strlit("dense");
        reveal_strlit("materialize");
        reveal_strlit("settings");
        reveal_strlit("threads");
        reveal_strlit("open");
        reveal_strlit("logs");
        reveal_strlit("scan");
        reveal_strlit("quit");
        reveal_strlit("top");
        reveal_strlit("theme");
        reveal_strlit("pause");
        reveal_strlit("go");
        reveal_strlit("reveal");
        reveal_strlit("exit");
        reveal_strlit("units");
        reveal_strlit("log");
        reveal_strlit("cd");
        reveal_strlit("help");
        reveal_strlit("workers");
        reveal_strlit("limit");
        reveal_strlit("depth");
        reveal_strlit("mounts");
        reveal_strlit("config");
        reveal_strlit("statistics");
        reveal_strlit("stats");
        assert("mounts"@.len() != "exit"@.len() && "mounts"@.len() != "workers"@.len() && "mounts"@.len() != "depth"@.len() && "mounts"@[0] != "reveal"@[0] && "mounts"@.len() != "scan"@.len() && "mounts"@.len() != "pause"@.len() && "mounts"@.len() != "refresh"@.len() && "mounts"@.len() != "limit"@.len() && "mounts"@.len() != "threads"@.len() && "mounts"@.len() != "heaviest"@.len() && "mounts"@.len() != "theme"@.len() && "mounts"@.len() != "largest"@.len() && "mounts"@.len() != "h"@.len() && "mounts"@.len() != "goto"@.len() && "mounts"@.len() != "mode"@.len() && "mounts"@.len() != "materialize"@.len() && "mounts"@.len() != "top"@.len() && "mounts"@.len() != "units"@.len() && "mounts"@.len() != "cd"@.len() && "mounts"@.len() != "statistics"@.len() && "mounts"@.len() != "dense"@.len() && "mounts"@.len() != "go"@.len() && "mounts"@.len() != "unpause"@.len() && "mounts"@.len() != "quit"@.len() && "mounts"@[0] != "config"@[0] && "mounts"@.len() != "stats"@.len() && "mounts"@.len() != "log"@.len() && "mounts"@[0] != "rescan"@[0] && "mounts"@.len() != "?"@.len() && "mounts"@.len() != "help"@.len() && "mounts"@.len() != "logs"@.len() && "mounts"@.len() != "base"@.len() && "mounts"@.len() != "settings"@.len() && "mounts"@.len() != "force"@.len() && "mounts"@.len() != "q"@.len() && "mounts"@.len() != "rows"@.len() && "mounts"@.len() != "size"@.len() && "mounts"@.len() != "open"@.len() && "mounts"@[0] != "finder"@[0] && "mounts"@[0] != "status"@[0] && "mounts"@[0] != "expand"@[0] && "mounts"@[0] != "resume"@[0]);
    }
    reveal_strlit("mounts");
    assert(ascii_lower("mounts"@) =~= "mounts"@);
    lemma_word_alone("mounts"@);
}

pub(crate) proof fn lemma_meaning_alone_volumes()
    ensures
        command_spec("volumes"@) == CommandView::ListMounts,
{
    assert("volumes"@ != "materialize"@ && "volumes"@ != "pause"@ && "volumes"@ != "status"@ && "volumes"@ != "statistics"@ && "volumes"@ != "quit"@ && "volumes"@ != "dense"@ && "volumes"@ != "stats"@ && "volumes"@ != "q"@ && "volumes"@ != "force"@ && "volumes"@ != "rows"@ && "volumes"@ != "open"@ && "volumes"@ != "limit"@ && "volumes"@ != "unpause"@ && "volumes"@ != "heaviest"@ && "volumes"@ != "exit"@ && "volumes"@ != "?"@ && "volumes"@ != "mounts"@ && "volumes"@ != "base"@ && "volumes"@ != "goto"@ && "volumes"@ != "help"@ && "volumes"@ != "settings"@ && "volumes"@ != "units"@ && "volumes"@ != "size"@ && "volumes"@ != "depth"@ && "volumes"@ != "refresh"@ && "volumes"@ != "log"@ && "volumes"@ != "reveal"@ && "volumes"@ != "scan"@ && "volumes"@ != "config"@ && "volumes"@ != "cd"@ && "volumes"@ != "finder"@ && "volumes"@ != "expand"@ && "volumes"@ != "largest"@ && "volumes"@ != "h"@ && "volumes"@ != "go"@ && "volumes"@ != "mode"@ && "volumes"@ != "top"@ && "volumes"@ != "threads"@ && "volumes"@ != "rescan"@ && "volumes"@ != "theme"@ && "volumes"@ != "logs"@ && "volumes"@ != "resume"@ && "volumes"@ != "workers"@) by {
        reveal_strlit("top");
        reveal_strlit("cd");
        reveal_strlit("heaviest");
        reveal_strlit("reveal");
        reveal_strlit("status");
        reveal_strlit("unpause");
        reveal_strlit("log");
        reveal_strlit("theme");
        reveal_strlit("scan");
        reveal_strlit("finder");
        reveal_strlit("quit");
        reveal_strlit("rescan");
        reveal_strlit("h");
        reveal_strlit("pause");
        reveal_strlit("open");
        reveal_strlit("mode");
        reveal_strlit("units");
        reveal_strlit("refresh");
        reveal_strlit("dense");
        reveal_strlit("go");
        reveal_strlit("config");
        reveal_strlit("largest");
        reveal_strlit("settings");
        reveal_strlit("workers");
        reveal_strlit("base");
        reveal_strlit("logs");
        reveal_strlit("q");
        reveal_strlit("statistics");
        reveal_strlit("resume");
        reveal_strlit("depth");
        reveal_strlit("rows");
        reveal_strlit("mounts");
        reveal_strlit("stats");
        reveal_strlit("exit");
        reveal_strlit("threads");
        reveal_strlit("expand");
        reveal_strlit("materialize");
        reveal_strlit("help");
        reveal_strlit("volumes");
        reveal_strlit("force");
        reveal_strlit("?");
        reveal_strlit("size");
        reveal_strlit("goto");
        reveal_strlit("limit");
        assert("volumes"@.len() != "resume"@.len() && "volumes"@.len() != "dense"@.len() && "volumes"@.len() != "exit"@.len() && "volumes"@.len() != "rescan"@.len() && "volumes"@.len() != "expand"@.len() && "volumes"@.len() != "logs"@.len() && "volumes"@[0] != "largest"@[0] && "volumes"@[0] != "unpause"@[0] && "volumes"@.len() != "cd"@.len() && "volumes"@.len() != "theme"@.len() && "volumes"@.len() != "status"@.len() && "volumes"@.len() != "pause"@.len() && "volumes"@.len() != "reveal"@.len() && "volumes"@[0] != "threads"@[0] && "volumes"@.len() != "depth"@.len() && "volumes"@.len() != "stats"@.len() && "volumes"@.len() != "rows"@.len() && "volumes"@.len() != "units"@.len() && "volumes"@[0] != "workers"@[0] && "volumes"@.len() != "top"@.len() && "volumes"@.len() != "size"@.len() && "volumes"@.len() != "scan"@.len() && "volumes"@[0] != "refresh"@[0] && "volumes"@.len() != "h"@.len() && "volumes"@.len() != "?"@.len() && "volumes"@.len() != "go"@.len() && "volumes"@.len() != "heaviest"@.len() && "volumes"@.len() != "materialize"@.len() && "volumes"@.len() != "force"@.len() && "volumes"@.len() != "goto"@.len() && "volumes"@.len() != "mode"@.len() && "volumes"@.len() != "base"@.len() && "volumes"@.len() != "config"@.len() && "volumes"@.len() != "finder"@.len() && "volumes"@.len() != "limit"@.len() && "volumes"@.len() != "settings"@.len() && "volumes"@.len() != "quit"@.len() && "volumes"@.len() != "log"@.len() && "volumes"@.len() != "help"@.len() && "volumes"@.len() != "statistics"@.len() && "volumes"@.len() != "open"@.len() && "volumes"@.len() != "q"@.len() && "volumes"@.len() != "mounts"@.len());
    }
    reveal_strlit("volumes");
    assert(ascii_lower("volumes"@) =~= "volumes"@);
    lemma_word_alone("volumes"@);
}

pub(crate) proof fn lemma_meaning_alone_trash()
    ensures
        command_spec("trash"@) == CommandView::Unknown("trash needs `on` or `off`"@),
{
    assert("trash"@ != "log"@ && "trash"@ != "logs"@ && "trash"@ != "unpause"@ && "trash"@ != "resume"@ && "trash"@ != "pause"@ && "trash"@ != "?"@ && "trash"@ != "settings"@ && "trash"@ != "finder"@ && "trash"@ != "largest"@ && "trash"@ != "heaviest"@ && "trash"@ != "rows"@ && "trash"@ != "top"@ && "trash"@ != "limit"@ && "trash"@ != "dense"@ && "trash"@ != "materialize"@ && "trash"@ != "statistics"@ && "trash"@ != "threads"@ && "trash"@ != "theme"@ && "trash"@ != "status"@ && "trash"@ != "workers"@ && "trash"@ != "scan"@ && "trash"@ != "mode"@ && "trash"@ != "reveal"@ && "trash"@ != "config"@ && "trash"@ != "size"@ && "trash"@ != "goto"@ && "trash"@ != "q"@ && "trash"@ != "refresh"@ && "trash"@ != "go"@ && "trash"@ != "cd"@ && "trash"@ != "volumes"@ && "trash"@ != "expand"@ && "trash"@ != "force"@ && "trash"@ != "mounts"@ && "trash"@ != "base"@ && "trash"@ != "h"@ && "trash"@ != "units"@ && "trash"@ != "open"@ && "trash"@ != "quit"@ && "trash"@ != "exit"@ && "trash"@ != "rescan"@ && "trash"@ != "help"@ && "trash"@ != "depth"@ && "trash"@ != "stats"@) by {
        reveal_strlit("trash");
        reveal_strlit("q");
        reveal_strlit("exit");
        reveal_strlit("rows");
        reveal_strlit("unpause");
        reveal_strlit("settings");
        reveal_strlit("resume");
        reveal_strlit("size");
        reveal_strlit("config");
        reveal_strlit("finder");
        reveal_strlit("cd");
        reveal_strlit("depth");
        reveal_strlit("stats");
        reveal_strlit("log");
        reveal_strlit("goto");
        reveal_strlit("open");
        reveal_strlit("units");
        reveal_strlit("status");
        reveal_strlit("reveal");
        reveal_strlit("mounts");
        reveal_strlit("force");
        reveal_strlit("threads");
        reveal_strlit("largest");
        reveal_strlit("h");
        reveal_strlit("rescan");
        reveal_strlit("base");
        reveal_strlit("materialize");
        reveal_strlit("pause");
        reveal_strlit("workers");
        reveal_strlit("limit");
        reveal_strlit("dense");
        reveal_strlit("quit");
        reveal_strlit("scan");
        reveal_strlit("refresh");
        reveal_strlit("mode");
        reveal_strlit("?");
        reveal_strlit("theme");
        reveal_strlit("go");
        reveal_strlit("statistics");
        reveal_strlit("expand");
        reveal_strlit("heaviest");
        reveal_strlit("logs");
        reveal_strlit("help");
        reveal_strlit("top");
        reveal_strlit("volumes");
        assert("trash"@[0] != "units"@[0] && "trash"@.len() != "base"@.len() && "trash"@.len() != "log"@.len() && "trash"@.len() != "help"@.len() && "trash"@.len() != "goto"@.len() && "trash"@.len() != "rows"@.len() && "trash"@.len() != "settings"@.len() && "trash"@.len() != "h"@.len() && "trash"@.len() != "go"@.len() && "trash"@.len() != "reveal"@.len() && "trash"@.len() != "mounts"@.len() && "trash"@[0] != "limit"@[0] && "trash"@.len() != "resume"@.len() && "trash"@.len() != "status"@.len() && "trash"@.len() != "rescan"@.len() && "trash"@.len() != "exit"@.len() && "trash"@.len() != "open"@.len() && "trash"@[0] != "stats"@[0] && "trash"@.len() != "?"@.len() && "trash"@.len() != "workers"@.len() && "trash"@.len() != "top"@.len() && "trash"@.len() != "threads"@.len() && "trash"@.len() != "unpause"@.len() && "trash"@.len() != "heaviest"@.len() && "trash"@.len() != "largest"@.len() && "trash"@.len() != "mode"@.len() && "trash"@.len() != "logs"@.len() && "trash"@[0] != "dense"@[0] && "trash"@[0] != "depth"@[0] && "trash"@.len() != "finder"@.len() && "trash"@.len() != "quit"@.len() && "trash"@.len() != "statistics"@.len() && "trash"@.len() != "expand"@.len() && "trash"@.len() != "q"@.len() && "trash"@.len() != "cd"@.len() && "trash"@.len() != "volumes"@.len() && "trash"@.len() != "materialize"@.len() && "trash"@.len() != "size"@.len() && "trash"@.len() != "scan"@.len() && "trash"@.len() != "config"@.len() && "trash"@.len() != "refresh"@.len() && "trash"@[0] != "pause"@[0] && "trash"@[1] != "theme"@[1] && "trash"@[0] != "force"@[0]);
    }
    reveal_strlit("trash");
    assert(ascii_lower("trash"@) =~= "trash"@);
    lemma_word_alone("trash"@);
}

pub(crate) proof fn lemma_meaning_with_argument_trash(p: Seq<char>)
    ensures
        plain_argument(p) ==> command_spec("trash "@ + p) == CommandView::SetDeletionMode(ascii_lower(p)),
{
    assert("trash"@ != "log"@ && "trash"@ != "logs"@ && "trash"@ != "unpause"@ && "trash"@ != "resume"@ && "trash"@ != "pause"@ && "trash"@ != "?"@ && "trash"@ != "settings"@ && "trash"@ != "finder"@ && "trash"@ != "largest"@ && "trash"@ != "heaviest"@ && "trash"@ != "rows"@ && "trash"@ != "top"@ && "trash"@ != "limit"@ && "trash"@ != "dense"@ && "trash"@ != "materialize"@ && "trash"@ != "statistics"@ && "trash"@ != "threads"@ && "trash"@ != "theme"@ && "trash"@ != "status"@ && "trash"@ != "workers"@ && "trash"@ != "scan"@ && "trash"@ != "mode"@ && "trash"@ != "reveal"@ && "trash"@ != "config"@ && "trash"@ != "size"@ && "trash"@ != "goto"@ && "trash"@ != "q"@ && "trash"@ != "refresh"@ && "trash"@ != "go"@ && "trash"@ != "cd"@ && "trash"@ != "volumes"@ && "trash"@ != "expand"@ && "trash"@ != "force"@ && "trash"@ != "mounts"@ && "trash"@ != "base"@ && "trash"@ != "h"@ && "trash"@ != "units"@ && "trash"@ != "open"@ && "trash"@ != "quit"@ && "trash"@ != "exit"@ && "trash"@ != "rescan"@ && "trash"@ != "help"@ && "trash"@ != "depth"@ && "trash"@ != "stats"@) by {
        reveal_strlit("trash");
        reveal_strlit("q");
        reveal_strlit("exit");
        reveal_strlit("rows");
        reveal_strlit("unpause");
        reveal_strlit("settings");
        reveal_strlit("resume");
        reveal_strlit("size");
        reveal_strlit("config");
        reveal_strlit("finder");
        reveal_strlit("cd");
        reveal_strlit("depth");
        reveal_strlit("stats");
        reveal_strlit("log");
        reveal_strlit("goto");
        reveal_strlit("open");
        reveal_strlit("units");
        reveal_strlit("status");
        reveal_strlit("reveal");
        reveal_strlit("mounts");
        reveal_strlit("force");
        reveal_strlit("threads");
        reveal_strlit("largest");
        reveal_strlit("h");
        reveal_strlit("rescan");
        reveal_strlit("base");
        reveal_strlit("materialize");
        reveal_strlit("pause");
        reveal_strlit("workers");
        reveal_strlit("limit");
        reveal_strlit("dense");
        reveal_strlit("quit");
        reveal_strlit("scan");
        reveal_strlit("refresh");
        reveal_strlit("mode");
        reveal_strlit("?");
        reveal_strlit("theme");
        reveal_strlit("go");
        reveal_strlit("statistics");
        reveal_strlit("expand");
        reveal_strlit("heaviest");
        reveal_strlit("logs");
        reveal_strlit("help");
        reveal_strlit("top");
        reveal_strlit("volumes");
        assert("trash"@[0] != "units"@[0] && "trash"@.len() != "base"@.len() && "trash"@.len() != "log"@.len() && "trash"@.len() != "help"@.len() && "trash"@.len() != "goto"@.len() && "trash"@.len() != "rows"@.len() && "trash"@.len() != "settings"@.len() && "trash"@.len() != "h"@.len() && "trash"@.len() != "go"@.len() && "trash"@.len() != "reveal"@.len() && "trash"@.len() != "mounts"@.len() && "trash"@[0] != "limit"@[0] && "trash"@.len() != "resume"@.len() && "trash"@.len() != "status"@.len() && "trash"@.len() != "rescan"@.len() && "trash"@.len() != "exit"@.len() && "trash"@.len() != "open"@.len() && "trash"@[0] != "stats"@[0] && "trash"@.len() != "?"@.len() && "trash"@.len() != "workers"@.len() && "trash"@.len() != "top"@.len() && "trash"@.len() != "threads"@.len() && "trash"@.len() != "unpause"@.len() && "trash"@.len() != "heaviest"@.len() && "trash"@.len() != "largest"@.len() && "trash"@.len() != "mode"@.len() && "trash"@.len() != "logs"@.len() && "trash"@[0] != "dense"@[0] && "trash"@[0] != "depth"@[0] && "trash"@.len() != "finder"@.len() && "trash"@.len() != "quit"@.len() && "trash"@.len() != "statistics"@.len() && "trash"@.len() != "expand"@.len() && "trash"@.len() != "q"@.len() && "trash"@.len() != "cd"@.len() && "trash"@.len() != "volumes"@.len() && "trash"@.len() != "materialize"@.len() && "trash"@.len() != "size"@.len() && "trash"@.len() != "scan"@.len() && "trash"@.len() != "config"@.len() && "trash"@.len() != "refresh"@.len() && "trash"@[0] != "pause"@[0] && "trash"@[1] != "theme"@[1] && "trash"@[0] != "force"@[0]);
    }
    reveal_strlit("trash");
    reveal_strlit("trash ");
    assert(ascii_lower("trash"@) =~= "trash"@);
    assert("trash "@ =~= "trash"@ + seq![' ']);
    if plain_argument(p) {
        lemma_word_with_argument("trash"@, p);
        assert("trash "@ + p =~= "trash"@ + seq![' '] + p);
    }
}

pub(crate) proof fn lemma_meaning_alone_delete()
    ensures
        command_spec("delete"@) == CommandView::Unknown("trash needs `on` or `off`"@),
{
    assert("delete"@ != "largest"@ && "delete"@ != "rows"@ && "delete"@ != "finder"@ && "delete"@ != "workers"@ && "delete"@ != "status"@ && "delete"@ != "base"@ && "delete"@ != "mounts"@ && "delete"@ != "?"@ && "delete"@ != "q"@ && "delete"@ != "top"@ && "delete"@ != "reveal"@ && "delete"@ != "pause"@ && "delete"@ != "stats"@ && "delete"@ != "theme"@ && "delete"@ != "units"@ && "delete"@ != "trash"@ && "delete"@ != "limit"@ && "delete"@ != "help"@ && "delete"@ != "rescan"@ && "delete"@ != "h"@ && "delete"@ != "log"@ && "delete"@ != "cd"@ && "delete"@ != "volumes"@ && "delete"@ != "size"@ && "delete"@ != "depth"@ && "delete"@ != "mode"@ && "delete"@ != "statistics"@ && "delete"@ != "goto"@ && "delete"@ != "force"@ && "delete"@ != "unpause"@ && "delete"@ != "resume"@ && "delete"@ != "settings"@ && "delete"@ != "go"@ && "delete"@ != "threads"@ && "delete"@ != "dense"@ && "delete"@ != "logs"@ && "delete"@ != "exit"@ && "delete"@ != "quit"@ && "delete"@ != "materialize"@ && "delete"@ != "scan"@ && "delete"@ != "heaviest"@ && "delete"@ != "refresh"@ && "delete"@ != "expand"@ && "delete"@ != "open"@ && "delete"@ != "config"@) by {
        reveal_strlit("trash");
        reveal_strlit("h");
        reveal_strlit("largest");
        reveal_strlit("exit");
        reveal_strlit("materialize");
        reveal_strlit("status");
        reveal_strlit("go");
        reveal_strlit("workers");
        reveal_strlit("theme");
        reveal_strlit("heaviest");
        reveal_strlit("resume");
        reveal_strlit("cd");
        reveal_strlit("scan");
        reveal_strlit("goto");
        reveal_strlit("dense");
        reveal_strlit("threads");
        reveal_strlit("settings");
        reveal_strlit("base");
        reveal_strlit("pause");
        reveal_strlit("volumes");
        reveal_strlit("open");
        reveal_strlit("reveal");
        reveal_strlit("limit");
        reveal_strlit("?");
        reveal_strlit("stats");
        reveal_strlit("delete");
        reveal_strlit("refresh");
        reveal_strlit("top");
        reveal_strlit("rescan");
        reveal_strlit("unpause");
        reveal_strlit("size");
        reveal_strlit("force");
        reveal_strlit("help");
        reveal_strlit("quit");
        reveal_strlit("q");
        reveal_strlit("finder");
        reveal_strlit("log");
        reveal_strlit("mounts");
        reveal_strlit("units");
        reveal_strlit("depth");
        reveal_strlit("expand");
        reveal_strlit("config");
        reveal_strlit("logs");
        reveal_strlit("rows");
        reveal_strlit("statistics");
        reveal_strlit("mode");
        assert("delete"@.len() != "open"@.len() && "delete"@.len() != "exit"@.len() && "delete"@.len() != "size"@.len() && "delete"@.len() != "heaviest"@.len() && "delete"@[0] != "expand"@[0] && "delete"@.len() != "dense"@.len() && "delete"@.len() != "limit"@.len() && "delete"@.len() != "pause"@.len() && "delete"@[0] != "config"@[0] && "delete"@[0] != "resume"@[0] && "delete"@.len() != "volumes"@.len() && "delete"@.len() != "theme"@.len() && "delete"@.len() != "?"@.len() && "delete"@[0] != "finder"@[0] && "delete"@.len() != "force"@.len() && "delete"@.len() != "cd"@.len() && "delete"@.len() != "mode"@.len() && "delete"@.len() != "q"@.len() && "delete"@.len() != "help"@.len() && "delete"@.len() != "workers"@.len() && "delete"@.len() != "unpause"@.len() && "delete"@[0] != "mounts"@[0] && "delete"@.len() != "units"@.len() && "delete"@.len() != "trash"@.len() && "delete"@.len() != "materialize"@.len() && "delete"@.len() != "threads"@.len() && "delete"@.len() != "go"@.len() && "delete"@[0] != "rescan"@[0] && "delete"@.len() != "rows"@.len() && "delete"@.len() != "top"@.len() && "delete"@[0] != "status"@[0] && "delete"@.len() != "quit"@.len() && "delete"@.len() != "goto"@.len() && "delete"@.len() != "logs"@.len() && "delete"@.len() != "base"@.len() && "delete"@.len() != "refresh"@.len() && "delete"@.len() != "stats"@.len() && "delete"@.len() != "scan"@.len() && "delete"@.len() != "settings"@.len() && "delete"@.len() != "statistics"@.len() && "delete"@.len() != "h"@.len() && "delete"@.len() != "log"@.len() && "delete"@.len() != "depth"@.len() && "delete"@[0] != "reveal"@[0] && "delete"@.len() != "largest"@.len());
    }
    reveal_strlit("delete");
    assert(ascii_lower("delete"@) =~= "delete"@);
    lemma_word_alone("delete"@);
}

pub(crate) proof fn lemma_meaning_with_argument_delete(p: Seq<char>)
    ensures
        plain_argument(p) ==> command_spec("delete "@ + p) == CommandView::SetDeletionMode(ascii_lower(p)),
{
    assert("delete"@ != "largest"@ && "delete"@ != "rows"@ && "delete"@ != "finder"@ && "delete"@ != "workers"@ && "delete"@ != "status"@ && "delete"@ != "base"@ && "delete"@ != "mounts"@ && "delete"@ != "?"@ && "delete"@ != "q"@ && "delete"@ != "top"@ && "delete"@ != "reveal"@ && "delete"@ != "pause"@ && "delete"@ != "stats"@ && "delete"@ != "theme"@ && "delete"@ != "units"@ && "delete"@ != "trash"@ && "delete"@ != "limit"@ && "delete"@ != "help"@ && "delete"@ != "rescan"@ && "delete"@ != "h"@ && "delete"@ != "log"@ && "delete"@ != "cd"@ && "delete"@ != "volumes"@ && "delete"@ != "size"@ && "delete"@ != "depth"@ && "delete"@ != "mode"@ && "delete"@ != "statistics"@ && "delete"@ != "goto"@ && "delete"@ != "force"@ && "delete"@ != "unpause"@ && "delete"@ != "resume"@ && "delete"@ != "settings"@ && "delete"@ != "go"@ && "delete"@ != "threads"@ && "delete"@ != "dense"@ && "delete"@ != "logs"@ && "delete"@ != "exit"@ && "delete"@ != "quit"@ && "delete"@ != "materialize"@ && "delete"@ != "scan"@ && "delete"@ != "heaviest"@ && "delete"@ != "refresh"@ && "delete"@ != "expand"@ && "delete"@ != "open"@ && "delete"@ != "config"@) by {
        reveal_strlit("trash");
        reveal_strlit("h");
        reveal_strlit("largest");
        reveal_strlit("exit");
        reveal_strlit("materialize");
        reveal_strlit("status");
        reveal_strlit("go");
        reveal_strlit("workers");
        reveal_strlit("theme");
        reveal_strlit("heaviest");
        reveal_strlit("resume");
        reveal_strlit("cd");
        reveal_strlit("scan");
        reveal_strlit("goto");
        reveal_strlit("dense");
        reveal_strlit("threads");
        reveal_strlit("settings");
        reveal_strlit("base");
        reveal_strlit("pause");
        reveal_strlit("volumes");
        reveal_strlit("open");
        reveal_strlit("reveal");
        reveal_strlit("limit");
        reveal_strlit("?");
        reveal_strlit("stats");
        reveal_strlit("delete");
        reveal_strlit("refresh");
        reveal_strlit("top");
        reveal_strlit("rescan");
        reveal_strlit("unpause");
        reveal_strlit("size");
        reveal_strlit("force");
        reveal_strlit("help");
        reveal_strlit("quit");
        reveal_strlit("q");
        reveal_strlit("finder");
        reveal_strlit("log");
        reveal_strlit("mounts");
        reveal_strlit("units");
        reveal_strlit("depth");
        reveal_strlit("expand");
        reveal_strlit("config");
        reveal_strlit("logs");
        reveal_strlit("rows");
        reveal_strlit("statistics");
        reveal_strlit("mode");
        assert("delete"@.len() != "open"@.len() && "delete"@.len() != "exit"@.len() && "delete"@.len() != "size"@.len() && "delete"@.len() != "heaviest"@.len() && "delete"@[0] != "expand"@[0] && "delete"@.len() != "dense"@.len() && "delete"@.len() != "limit"@.len() && "delete"@.len() != "pause"@.len() && "delete"@[0] != "config"@[0] && "delete"@[0] != "resume"@[0] && "delete"@.len() != "volumes"@.len() && "delete"@.len() != "theme"@.len() && "delete"@.len() != "?"@.len() && "delete"@[0] != "finder"@[0] && "delete"@.len() != "force"@.len() && "delete"@.len() != "cd"@.len() && "delete"@.len() != "mode"@.len() && "delete"@.len() != "q"@.len() && "delete"@.len() != "help"@.len() && "delete"@.len() != "workers"@.len() && "delete"@.len() != "unpause"@.len() && "delete"@[0] != "mounts"@[0] && "delete"@.len() != "units"@.len() && "delete"@.len() != "trash"@.len() && "delete"@.len() != "materialize"@.len() && "delete"@.len() != "threads"@.len() && "delete"@.len() != "go"@.len() && "delete"@[0] != "rescan"@[0] && "delete"@.len() != "rows"@.len() && "delete"@.len() != "top"@.len() && "delete"@[0] != "status"@[0] && "delete"@.len() != "quit"@.len() && "delete"@.len() != "goto"@.len() && "delete"@.len() != "logs"@.len() && "delete"@.len() != "base"@.len() && "delete"@.len() != "refresh"@.len() && "delete"@.len() != "stats"@.len() && "delete"@.len() != "scan"@.len() && "delete"@.len() != "settings"@.len() && "delete"@.len() != "statistics"@.len() && "delete"@.len() != "h"@.len() && "delete"@.len() != "log"@.len() && "delete"@.len() != "depth"@.len() && "delete"@[0] != "reveal"@[0] && "delete"@.len() != "largest"@.len());
    }
    reveal_strlit("delete");
    reveal_strlit("delete ");
    assert(ascii_lower("delete"@) =~= "delete"@);
    assert("delete "@ =~= "delete"@ + seq![' ']);
    if plain_argument(p) {
        lemma_word_with_argument("delete"@, p);
        assert("delete "@ + p =~= "delete"@ + seq![' '] + p);
    }
}

pub(crate) proof fn lemma_meaning_alone_deletion()
    ensures
        command_spec("deletion"@) == CommandView::Unknown("trash needs `on` or `off`"@),
{
    assert("deletion"@ != "finder"@ && "deletion"@ != "largest"@ && "deletion"@ != "top"@ && "deletion"@ != "settings"@ && "deletion"@ != "goto"@ && "deletion"@ != "config"@ && "deletion"@ != "help"@ && "deletion"@ != "base"@ && "deletion"@ != "threads"@ && "deletion"@ != "exit"@ && "deletion"@ != "log"@ && "deletion"@ != "mode"@ && "deletion"@ != "expand"@ && "deletion"@ != "force"@ && "deletion"@ != "h"@ && "deletion"@ != "volumes"@ && "deletion"@ != "heaviest"@ && "deletion"@ != "quit"@ && "deletion"@ != "unpause"@ && "deletion"@ != "open"@ && "deletion"@ != "cd"@ && "deletion"@ != "units"@ && "deletion"@ != "reveal"@ && "deletion"@ != "pause"@ && "deletion"@ != "depth"@ && "deletion"@ != "mounts"@ && "deletion"@ != "size"@ && "deletion"@ != "?"@ && "deletion"@ != "theme"@ && "deletion"@ != "scan"@ && "deletion"@ != "dense"@ && "deletion"@ != "stats"@ && "deletion"@ != "rows"@ && "deletion"@ != "workers"@ && "deletion"@ != "rescan"@ && "deletion"@ != "limit"@ && "deletion"@ != "resume"@ && "deletion"@ != "delete"@ && "deletion"@ != "refresh"@ && "deletion"@ != "logs"@ && "deletion"@ != "trash"@ && "deletion"@ != "materialize"@ && "deletion"@ != "statistics"@ && "deletion"@ != "go"@ && "deletion"@ != "q"@ && "deletion"@ != "status"@) by {
        reveal_strlit("threads");
        reveal_strlit("base");
        reveal_strlit("rows");
        reveal_strlit("log");
        reveal_strlit("delete");
        reveal_strlit("?");
        reveal_strlit("size");
        reveal_strlit("mounts");
        reveal_strlit("dense");
        reveal_strlit("depth");
        reveal_strlit("heaviest");
        reveal_strlit("workers");
        reveal_strlit("open");
        reveal_strlit("mode");
        reveal_strlit("pause");
        reveal_strlit("trash");
        reveal_strlit("refresh");
        reveal_strlit("finder");
        reveal_strlit("limit");
        reveal_strlit("theme");
        reveal_strlit("statistics");
        reveal_strlit("logs");
        reveal_strlit("settings");
        reveal_strlit("go");
        reveal_strlit("resume");
        reveal_strlit("h");
        reveal_strlit("volumes");
        reveal_strlit("exit");
        reveal_strlit("status");
        reveal_strlit("help");
        reveal_strlit("quit");
        reveal_strlit("deletion");
        reveal_strlit("goto");
        reveal_strlit("stats");
        reveal_strlit("force");
        reveal_strlit("reveal");
        reveal_strlit("rescan");
        reveal_strlit("unpause");
        reveal_strlit("config");
        reveal_strlit("q");
        reveal_strlit("largest");
        reveal_strlit("materialize");
        reveal_strlit("scan");
        reveal_strlit("units");
        reveal_strlit("cd");
        reveal_strlit("top");
        reveal_strlit("expand");
        assert("deletion"@.len() != "materialize"@.len() && "deletion"@[0] != "settings"@[0] && "deletion"@.len() != "q"@.len() && "deletion"@.len() != "refresh"@.len() && "deletion"@.len() != "unpause"@.len() && "deletion"@.len() != "threads"@.len() && "deletion"@.len() != "help"@.len() && "deletion"@.len() != "cd"@.len() && "deletion"@.len() != "rescan"@.len() && "deletion"@.len() != "top"@.len() && "deletion"@.len() != "scan"@.len() && "deletion"@.len() != "resume"@.len() && "deletion"@.len() != "force"@.len() && "deletion"@.len() != "stats"@.len() && "deletion"@[0] != "heaviest"@[0] && "deletion"@.len() != "?"@.len() && "deletion"@.len() != "volumes"@.len() && "deletion"@.len() != "dense"@.len() && "deletion"@.len() != "h"@.len() && "deletion"@.len() != "workers"@.len() && "deletion"@.len() != "base"@.len() && "deletion"@.len() != "config"@.len() && "deletion"@.len() != "pause"@.len() && "deletion"@.len() != "limit"@.len() && "deletion"@.len() != "largest"@.len() && "deletion"@.len() != "depth"@.len() && "deletion"@.len() != "go"@.len() && "deletion"@.len() != "exit"@.len() && "deletion"@.len() != "open"@.len() && "deletion"@.len() != "quit"@.len() && "deletion"@.len() != "finder"@.len() && "deletion"@.len() != "theme"@.len() && "deletion"@.len() != "units"@.len() && "deletion"@.len() != "goto"@.len() && "deletion"@.len() != "mode"@.len() && "deletion"@.len() != "delete"@.len() && "deletion"@.len() != "log"@.len() && "deletion"@.len() != "mounts"@.len() && "deletion"@.len() != "trash"@.len() && "deletion"@.len() != "status"@.len() && "deletion"@.len() != "expand"@.len() && "deletion"@.len() != "size"@.len() && "deletion"@.len() != "statistics"@.len() && "deletion"@.len() != "rows"@.len() && "deletion"@.len() != "reveal"@.len() && "deletion"@.len() != "logs"@.len());
    }
    reveal_strlit("deletion");
    assert(ascii_lower("deletion"@) =~= "deletion"@);
    lemma_word_alone("deletion"@);
}

pub(crate) proof fn lemma_meaning_with_argument_deletion(p: Seq<char>)
    ensures
        plain_argument(p) ==> command_spec("deletion "@ + p) == CommandView::SetDeletionMode(ascii_lower(p)),
{
    assert("deletion"@ != "finder"@ && "deletion"@ != "largest"@ && "deletion"@ != "top"@ && "deletion"@ != "settings"@ && "deletion"@ != "goto"@ && "deletion"@ != "config"@ && "deletion"@ != "help"@ && "deletion"@ != "base"@ && "deletion"@ != "threads"@ && "deletion"@ != "exit"@ && "deletion"@ != "log"@ && "deletion"@ != "mode"@ && "deletion"@ != "expand"@ && "deletion"@ != "force"@ && "deletion"@ != "h"@ && "deletion"@ != "volumes"@ && "deletion"@ != "heaviest"@ && "deletion"@ != "quit"@ && "deletion"@ != "unpause"@ && "deletion"@ != "open"@ && "deletion"@ != "cd"@ && "deletion"@ != "units"@ && "deletion"@ != "reveal"@ && "deletion"@ != "pause"@ && "deletion"@ != "depth"@ && "deletion"@ != "mounts"@ && "deletion"@ != "size"@ && "deletion"@ != "?"@ && "deletion"@ != "theme"@ && "deletion"@ != "scan"@ && "deletion"@ != "dense"@ && "deletion"@ != "stats"@ && "deletion"@ != "rows"@ && "deletion"@ != "workers"@ && "deletion"@ != "rescan"@ && "deletion"@ != "limit"@ && "deletion"@ != "resume"@ && "deletion"@ != "delete"@ && "deletion"@ != "refresh"@ && "deletion"@ != "logs"@ && "deletion"@ != "trash"@ && "deletion"@ != "materialize"@ && "deletion"@ != "statistics"@ && "deletion"@ != "go"@ && "deletion"@ != "q"@ && "deletion"@ != "status"@) by {
        reveal_strlit("threads");
        reveal_strlit("base");
        reveal_strlit("rows");
        reveal_strlit("log");
        reveal_strlit("delete");
        reveal_strlit("?");
        reveal_strlit("size");
        reveal_strlit("mounts");
        reveal_strlit("dense");
        reveal_strlit("depth");
        reveal_strlit("heaviest");
        reveal_strlit("workers");
        reveal_strlit("open");
        reveal_strlit("mode");
        reveal_strlit("pause");
        reveal_strlit("trash");
        reveal_strlit("refresh");
        reveal_strlit("finder");
        reveal_strlit("limit");
        reveal_strlit("theme");
        reveal_strlit("statistics");
        reveal_strlit("logs");
        reveal_strlit("settings");
        reveal_strlit("go");
        reveal_strlit("resume");
        reveal_strlit("h");
        reveal_strlit("volumes");
        reveal_strlit("exit");
        reveal_strlit("status");
        reveal_strlit("help");
        reveal_strlit("quit");
        reveal_strlit("deletion");
        reveal_strlit("goto");
        reveal_strlit("stats");
        reveal_strlit("force");
        reveal_strlit("reveal");
        reveal_strlit("rescan");
        reveal_strlit("unpause");
        reveal_strlit("config");
        reveal_strlit("q");
        reveal_strlit("largest");
        reveal_strlit("materialize");
        reveal_strlit("scan");
        reveal_strlit("units");
        reveal_strlit("cd");
        reveal_strlit("top");
        reveal_strlit("expand");
        assert("deletion"@.len() != "materialize"@.len() && "deletion"@[0] != "settings"@[0] && "deletion"@.len() != "q"@.len() && "deletion"@.len() != "refresh"@.len() && "deletion"@.len() != "unpause"@.len() && "deletion"@.len() != "threads"@.len() && "deletion"@.len() != "help"@.len() && "deletion"@.len() != "cd"@.len() && "deletion"@.len() != "rescan"@.len() && "deletion"@.len() != "top"@.len() && "deletion"@.len() != "scan"@.len() && "deletion"@.len() != "resume"@.len() && "deletion"@.len() != "force"@.len() && "deletion"@.len() != "stats"@.len() && "deletion"@[0] != "heaviest"@[0] && "deletion"@.len() != "?"@.len() && "deletion"@.len() != "volumes"@.len() && "deletion"@.len() != "dense"@.len() && "deletion"@.len() != "h"@.len() && "deletion"@.len() != "workers"@.len() && "deletion"@.len() != "base"@.len() && "deletion"@.len() != "config"@.len() && "deletion"@.len() != "pause"@.len() && "deletion"@.len() != "limit"@.len() && "deletion"@.len() != "largest"@.len() && "deletion"@.len() != "depth"@.len() && "deletion"@.len() != "go"@.len() && "deletion"@.len() != "exit"@.len() && "deletion"@.len() != "open"@.len() && "deletion"@.len() != "quit"@.len() && "deletion"@.len() != "finder"@.len() && "deletion"@.len() != "theme"@.len() && "deletion"@.len() != "units"@.len() && "deletion"@.len() != "goto"@.len() && "deletion"@.len() != "mode"@.len() && "deletion"@.len() != "delete"@.len() && "deletion"@.len() != "log"@.len() && "deletion"@.len() != "mounts"@.len() && "deletion"@.len() != "trash"@.len() && "deletion"@.len() != "status"@.len() && "deletion"@.len() != "expand"@.len() && "deletion"@.len() != "size"@.len() && "deletion"@.len() != "statistics"@.len() && "deletion"@.len() != "rows"@.len() && "deletion"@.len() != "reveal"@.len() && "deletion"@.len() != "logs"@.len());
    }
    reveal_strlit("deletion");
    reveal_strlit("deletion ");
    assert(ascii_lower("deletion"@) =~= "deletion"@);
    assert("deletion "@ =~= "deletion"@ + seq![' ']);
    if plain_argument(p) {
        lemma_word_with_argument("deletion"@, p);
        assert("deletion "@ + p =~= "deletion"@ + seq![' '] + p);
    }
}

pub(crate) proof fn lemma_meaning_alone_filter()
    ensures
        command_spec("filter"@) == CommandView::Filter(None),
{
    assert("filter"@ != "size"@ && "filter"@ != "stats"@ && "filter"@ != "theme"@ && "filter"@ != "log"@ && "filter"@ != "rows"@ && "filter"@ != "resume"@ && "filter"@ != "q"@ && "filter"@ != "finder"@ && "filter"@ != "logs"@ && "filter"@ != "refresh"@ && "filter"@ != "mounts"@ && "filter"@ != "trash"@ && "filter"@ != "go"@ && "filter"@ != "scan"@ && "filter"@ != "top"@ && "filter"@ != "status"@ && "filter"@ != "statistics"@ && "filter"@ != "expand"@ && "filter"@ != "reveal"@ && "filter"@ != "force"@ && "filter"@ != "mode"@ && "filter"@ != "heaviest"@ && "filter"@ != "unpause"@ && "filter"@ != "pause"@ && "filter"@ != "units"@ && "filter"@ != "exit"@ && "filter"@ != "deletion"@ && "filter"@ != "quit"@ && "filter"@ != "base"@ && "filter"@ != "goto"@ && "filter"@ != "delete"@ && "filter"@ != "workers"@ && "filter"@ != "materialize"@ && "filter"@ != "open"@ && "filter"@ != "help"@ && "filter"@ != "cd"@ && "filter"@ != "settings"@ && "filter"@ != "config"@ && "filter"@ != "threads"@ && "filter"@ != "largest"@ && "filter"@ != "?"@ && "filter"@ != "dense"@ && "filter"@ != "limit"@ && "filter"@ != "depth"@ && "filter"@ != "rescan"@ && "filter"@ != "h"@ && "filter"@ != "volumes"@) by {
        reveal_strlit("exit");
        reveal_strlit("limit");
        reveal_strlit("expand");
        reveal_strlit("unpause");
        reveal_strlit("units");
        reveal_strlit("largest");
        reveal_strlit("cd");
        reveal_strlit("rows");
        reveal_strlit("resume");
        reveal_strlit("heaviest");
        reveal_strlit("threads");
        reveal_strlit("refresh");
        reveal_strlit("workers");
        reveal_strlit("depth");
        reveal_strlit("quit");
        reveal_strlit("status");
        reveal_strlit("reveal");
        reveal_strlit("help");
        reveal_strlit("delete");
        reveal_strlit("logs");
        reveal_strlit("size");
        reveal_strlit("trash");
        reveal_strlit("volumes");
        reveal_strlit("stats");
        reveal_strlit("mounts");
        reveal_strlit("go");
        reveal_strlit("base");
        reveal_strlit("config");
        reveal_strlit("log");
        reveal_strlit("dense");
        reveal_strlit("open");
        reveal_strlit("materialize");
        reveal_strlit("finder");
        reveal_strlit("rescan");
        reveal_strlit("force");
        reveal_strlit("scan");
        reveal_strlit("?");
        reveal_strlit("settings");
        reveal_strlit("deletion");
        reveal_strlit("filter");
        reveal_strlit("top");
        reveal_strlit("goto");
        reveal_strlit("theme");
        reveal_strlit("statistics");
        reveal_strlit("h");
        reveal_strlit("mode");
        reveal_strlit("pause");
        reveal_strlit("q");
        assert("filter"@.len() != "stats"@.len() && "filter"@[0] != "expand"@[0] && "filter"@.len() != "trash"@.len() && "filter"@.len() != "cd"@.len() && "filter"@.len() != "limit"@.len() && "filter"@.len() != "q"@.len() && "filter"@.len() != "goto"@.len() && "filter"@.len() != "go"@.len() && "filter"@.len() != "quit"@.len() && "filter"@[0] != "rescan"@[0] && "filter"@.len() != "threads"@.len() && "filter"@.len() != "scan"@.len() && "filter"@.len() != "settings"@.len() && "filter"@.len() != "log"@.len() && "filter"@.len() != "units"@.len() && "filter"@.len() != "base"@.len() && "filter"@[0] != "config"@[0] && "filter"@[0] != "reveal"@[0] && "filter"@.len() != "heaviest"@.len() && "filter"@[0] != "status"@[0] && "filter"@[0] != "mounts"@[0] && "filter"@.len() != "statistics"@.len() && "filter"@.len() != "rows"@.len() && "filter"@.len() != "top"@.len() && "filter"@.len() != "materialize"@.len() && "filter"@.len() != "refresh"@.len() && "filter"@.len() != "pause"@.len() && "filter"@.len() != "force"@.len() && "filter"@[2] != "finder"@[2] && "filter"@.len() != "exit"@.len() && "filter"@.len() != "depth"@.len() && "filter"@.len() != "deletion"@.len() && "filter"@.len() != "unpause"@.len() && "filter"@[0] != "resume"@[0] && "filter"@.len() != "mode"@.len() && "filter"@.len() != "help"@.len() && "filter"@.len() != "workers"@.len() && "filter"@.len() != "?"@.len() && "filter"@.len() != "largest"@.len() && "filter"@.len() != "size"@.len() && "filter"@.len() != "theme"@.len() && "filter"@.len() != "logs"@.len() && "filter"@.len() != "dense"@.len() && "filter"@.len() != "volumes"@.len() && "filter"@.len() != "h"@.len() && "filter"@.len() != "open"@.len() && "filter"@[0] != "delete"@[0]);
    }
    reveal_strlit("filter");
    assert(ascii_lower("filter"@) =~= "filter"@);
    lemma_word_alone("filter"@);
}

pub(crate) proof fn lemma_meaning_with_argument_filter(p: Seq<char>)
    ensures
        plain_argument(p) ==> command_spec("filter "@ + p) == CommandView::Filter(Some(p)),
{
    assert("filter"@ != "size"@ && "filter"@ != "stats"@ && "filter"@ != "theme"@ && "filter"@ != "log"@ && "filter"@ != "rows"@ && "filter"@ != "resume"@ && "filter"@ != "q"@ && "filter"@ != "finder"@ && "filter"@ != "logs"@ && "filter"@ != "refresh"@ && "filter"@ != "mounts"@ && "filter"@ != "trash"@ && "filter"@ != "go"@ && "filter"@ != "scan"@ && "filter"@ != "top"@ && "filter"@ != "status"@ && "filter"@ != "statistics"@ && "filter"@ != "expand"@ && "filter"@ != "reveal"@ && "filter"@ != "force"@ && "filter"@ != "mode"@ && "filter"@ != "heaviest"@ && "filter"@ != "unpause"@ && "filter"@ != "pause"@ && "filter"@ != "units"@ && "filter"@ != "exit"@ && "filter"@ != "deletion"@ && "filter"@ != "quit"@ && "filter"@ != "base"@ && "filter"@ != "goto"@ && "filter"@ != "delete"@ && "filter"@ != "workers"@ && "filter"@ != "materialize"@ && "filter"@ != "open"@ && "filter"@ != "help"@ && "filter"@ != "cd"@ && "filter"@ != "settings"@ && "filter"@ != "config"@ && "filter"@ != "threads"@ && "filter"@ != "largest"@ && "filter"@ != "?"@ && "filter"@ != "dense"@ && "filter"@ != "limit"@ && "filter"@ != "depth"@ && "filter"@ != "rescan"@ && "filter"@ != "h"@ && "filter"@ != "volumes"@) by {
        reveal_strlit("exit");
        reveal_strlit("limit");
        reveal_strlit("expand");
        reveal_strlit("unpause");
        reveal_strlit("units");
        reveal_strlit("largest");
        reveal_strlit("cd");
        reveal_strlit("rows");
        reveal_strlit("resume");
        reveal_strlit("heaviest");
        reveal_strlit("threads");
        reveal_strlit("refresh");
        reveal_strlit("workers");
        reveal_strlit("depth");
        reveal_strlit("quit");
        reveal_strlit("status");
        reveal_strlit("reveal");
        reveal_strlit("help");
        reveal_strlit("delete");
        reveal_strlit("logs");
        reveal_strlit("size");
        reveal_strlit("trash");
        reveal_strlit("volumes");
        reveal_strlit("stats");
        reveal_strlit("mounts");
        reveal_strlit("go");
        reveal_strlit("base");
        reveal_strlit("config");
        reveal_strlit("log");
        reveal_strlit("dense");
        reveal_strlit("open");
        reveal_strlit("materialize");
        reveal_strlit("finder");
        reveal_strlit("rescan");
        reveal_strlit("force");
        reveal_strlit("scan");
        reveal_strlit("?");
        reveal_strlit("settings");
        reveal_strlit("deletion");
        reveal_strlit("filter");
        reveal_strlit("top");
        reveal_strlit("goto");
        reveal_strlit("theme");
        reveal_strlit("statistics");
        reveal_strlit("h");
        reveal_strlit("mode");
        reveal_strlit("pause");
        reveal_strlit("q");
        assert("filter"@.len() != "stats"@.len() && "filter"@[0] != "expand"@[0] && "filter"@.len() != "trash"@.len() && "filter"@.len() != "cd"@.len() && "filter"@.len() != "limit"@.len() && "filter"@.len() != "q"@.len() && "filter"@.len() != "goto"@.len() && "filter"@.len() != "go"@.len() && "filter"@.len() != "quit"@.len() && "filter"@[0] != "rescan"@[0] && "filter"@.len() != "threads"@.len() && "filter"@.len() != "scan"@.len() && "filter"@.len() != "settings"@.len() && "filter"@.len() != "log"@.len() && "filter"@.len() != "units"@.len() && "filter"@.len() != "base"@.len() && "filter"@[0] != "config"@[0] && "filter"@[0] != "reveal"@[0] && "filter"@.len() != "heaviest"@.len() && "filter"@[0] != "status"@[0] && "filter"@[0] != "mounts"@[0] && "filter"@.len() != "statistics"@.len() && "filter"@.len() != "rows"@.len() && "filter"@.len() != "top"@.len() && "filter"@.len() != "materialize"@.len() && "filter"@.len() != "refresh"@.len() && "filter"@.len() != "pause"@.len() && "filter"@.len() != "force"@.len() && "filter"@[2] != "finder"@[2] && "filter"@.len() != "exit"@.len() && "filter"@.len() != "depth"@.len() && "filter"@.len() != "deletion"@.len() && "filter"@.len() != "unpause"@.len() && "filter"@[0] != "resume"@[0] && "filter"@.len() != "mode"@.len() && "filter"@.len() != "help"@.len() && "filter"@.len() != "workers"@.len() && "filter"@.len() != "?"@.len() && "filter"@.len() != "largest"@.len() && "filter"@.len() != "size"@.len() && "filter"@.len() != "theme"@.len() && "filter"@.len() != "logs"@.len() && "filter"@.len() != "dense"@.len() && "filter"@.len() != "volumes"@.len() && "filter"@.len() != "h"@.len() && "filter"@.len() != "open"@.len() && "filter"@[0] != "delete"@[0]);
    }
    reveal_strlit("filter");
    reveal_strlit("filter ");
    assert(ascii_lower("filter"@) =~= "filter"@);
    assert("filter "@ =~= "filter"@ + seq![' ']);
    if plain_argument(p) {
        lemma_word_with_argument("filter"@, p);
        assert("filter "@ + p =~= "filter"@ + seq![' '] + p);
    }
}

pub(crate) proof fn lemma_meaning_alone_find()
    ensures
        command_spec("find"@) == CommandView::Filter(None),
{
    assert("find"@ != "deletion"@ && "find"@ != "config"@ && "find"@ != "filter"@ && "find"@ != "settings"@ && "find"@ != "trash"@ && "find"@ != "cd"@ && "find"@ != "rows"@ && "find"@ != "logs"@ && "find"@ != "refresh"@ && "find"@ != "workers"@ && "find"@ != "size"@ && "find"@ != "reveal"@ && "find"@ != "depth"@ && "find"@ != "force"@ && "find"@ != "resume"@ && "find"@ != "pause"@ && "find"@ != "dense"@ && "find"@ != "goto"@ && "find"@ != "?"@ && "find"@ != "theme"@ && "find"@ != "statistics"@ && "find"@ != "exit"@ && "find"@ != "limit"@ && "find"@ != "materialize"@ && "find"@ != "mode"@ && "find"@ != "finder"@ && "find"@ != "top"@ && "find"@ != "q"@ && "find"@ != "delete"@ && "find"@ != "open"@ && "find"@ != "expand"@ && "find"@ != "base"@ && "find"@ != "scan"@ && "find"@ != "rescan"@ && "find"@ != "h"@ && "find"@ != "stats"@ && "find"@ != "volumes"@ && "find"@ != "unpause"@ && "find"@ != "quit"@ && "find"@ != "threads"@ && "find"@ != "go"@ && "find"@ != "status"@ && "find"@ != "units"@ && "find"@ != "log"@ && "find"@ != "largest"@ && "find"@ != "heaviest"@ && "find"@ != "help"@ && "find"@ != "mounts"@) by {
        reveal_strlit("h");
        reveal_strlit("rescan");
        reveal_strlit("scan");
        reveal_strlit("heaviest");
        reveal_strlit("logs");
        reveal_strlit("pause");
        reveal_strlit("refresh");
        reveal_strlit("cd");
        reveal_strlit("help");
        reveal_strlit("volumes");
        reveal_strlit("q");
        reveal_strlit("statistics");
        reveal_strlit("go");
        reveal_strlit("stats");
        reveal_strlit("largest");
        reveal_strlit("resume");
        reveal_strlit("materialize");
        reveal_strlit("reveal");
        reveal_strlit("force");
        reveal_strlit("finder");
        reveal_strlit("deletion");
        reveal_strlit("delete");
        reveal_strlit("size");
        reveal_strlit("find");
        reveal_strlit("rows");
        reveal_strlit("config");
        reveal_strlit("goto");
        reveal_strlit("trash");
        reveal_strlit("mode");
        reveal_strlit("log");
        reveal_strlit("settings");
        reveal_strlit("status");
        reveal_strlit("unpause");
        reveal_strlit("theme");
        reveal_strlit("mounts");
        reveal_strlit("open");
        reveal_strlit("quit");
        reveal_strlit("threads");
        reveal_strlit("filter");
        reveal_strlit("limit");
        reveal_strlit("depth");
        reveal_strlit("workers");
        reveal_strlit("base");
        reveal_strlit("dense");
        reveal_strlit("top");
        reveal_strlit("expand");
        reveal_strlit("exit");
        reveal_strlit("units");
        reveal_strlit("?");
        assert("find"@.len() != "materialize"@.len() && "find"@.len() != "volumes"@.len() && "find"@.len() != "status"@.len() && "find"@[0] != "scan"@[0] && "find"@.len() != "cd"@.len() && "find"@[0] != "base"@[0] && "find"@.len() != "deletion"@.len() && "find"@[0] != "goto"@[0] && "find"@.len() != "theme"@.len() && "find"@.len() != "workers"@.len() && "find"@.len() != "settings"@.len() && "find"@.len() != "threads"@.len() && "find"@.len() != "go"@.len() && "find"@[0] != "logs"@[0] && "find"@.len() != "reveal"@.len() && "find"@.len() != "top"@.len() && "find"@.len() != "delete"@.len() && "find"@.len() != "depth"@.len() && "find"@.len() != "finder"@.len() && "find"@[0] != "mode"@[0] && "find"@.len() != "unpause"@.len() && "find"@.len() != "largest"@.len() && "find"@.len() != "statistics"@.len() && "find"@.len() != "h"@.len() && "find"@.len() != "resume"@.len() && "find"@[0] != "quit"@[0] && "find"@.len() != "log"@.len() && "find"@.len() != "rescan"@.len() && "find"@[0] != "rows"@[0] && "find"@.len() != "filter"@.len() && "find"@[0] != "exit"@[0] && "find"@.len() != "units"@.len() && "find"@[0] != "open"@[0] && "find"@.len() != "expand"@.len() && "find"@.len() != "trash"@.len() && "find"@.len() != "stats"@.len() && "find"@.len() != "heaviest"@.len() && "find"@.len() != "?"@.len() && "find"@[0] != "size"@[0] && "find"@.len() != "limit"@.len() && "find"@.len() != "pause"@.len() && "find"@.len() != "mounts"@.len() && "find"@.len() != "config"@.len() && "find"@.len() != "refresh"@.len() && "find"@.len() != "dense"@.len() && "find"@[0] != "help"@[0] && "find"@.len() != "force"@.len() && "find"@.len() != "q"@.len());
    }
    reveal_strlit("find");
    assert(ascii_lower("find"@) =~= "find"@);
    lemma_word_alone("find"@);
}

pub(crate) proof fn lemma_meaning_with_argument_find(p: Seq<char>)
    ensures
        plain_argument(p) ==> command_spec("find "@ + p) == CommandView::Filter(Some(p)),
{
    assert("find"@ != "deletion"@ && "find"@ != "config"@ && "find"@ != "filter"@ && "find"@ != "settings"@ && "find"@ != "trash"@ && "find"@ != "cd"@ && "find"@ != "rows"@ && "find"@ != "logs"@ && "find"@ != "refresh"@ && "find"@ != "workers"@ && "find"@ != "size"@ && "find"@ != "reveal"@ && "find"@ != "depth"@ && "find"@ != "force"@ && "find"@ != "resume"@ && "find"@ != "pause"@ && "find"@ != "dense"@ && "find"@ != "goto"@ && "find"@ != "?"@ && "find"@ != "theme"@ && "find"@ != "statistics"@ && "find"@ != "exit"@ && "find"@ != "limit"@ && "find"@ != "materialize"@ && "find"@ != "mode"@ && "find"@ != "finder"@ && "find"@ != "top"@ && "find"@ != "q"@ && "find"@ != "delete"@ && "find"@ != "open"@ && "find"@ != "expand"@ && "find"@ != "base"@ && "find"@ != "scan"@ && "find"@ != "rescan"@ && "find"@ != "h"@ && "find"@ != "stats"@ && "find"@ != "volumes"@ && "find"@ != "unpause"@ && "find"@ != "quit"@ && "find"@ != "threads"@ && "find"@ != "go"@ && "find"@ != "status"@ && "find"@ != "units"@ && "find"@ != "log"@ && "find"@ != "largest"@ && "find"@ != "heaviest"@ && "find"@ != "help"@ && "find"@ != "mounts"@) by {
        reveal_strlit("h");
        reveal_strlit("rescan");
        reveal_strlit("scan");
        reveal_strlit("heaviest");
        reveal_strlit("logs");
        reveal_strlit("pause");
        reveal_strlit("refresh");
        reveal_strlit("cd");
        reveal_strlit("help");
        reveal_strlit("volumes");
        reveal_strlit("q");
        reveal_strlit("statistics");
        reveal_strlit("go");
        reveal_strlit("stats");
        reveal_strlit("largest");
        reveal_strlit("resume");
        reveal_strlit("materialize");
        reveal_strlit("reveal");
        reveal_strlit("force");
        reveal_strlit("finder");
        reveal_strlit("deletion");
        reveal_strlit("delete");
        reveal_strlit("size");
        reveal_strlit("find");
        reveal_strlit("rows");
        reveal_strlit("config");
        reveal_strlit("goto");
        reveal_strlit("trash");
        reveal_strlit("mode");
        reveal_strlit("log");
        reveal_strlit("settings");
        reveal_strlit("status");
        reveal_strlit("unpause");
        reveal_strlit("theme");
        reveal_strlit("mounts");
        reveal_strlit("open");
        reveal_strlit("quit");
        reveal_strlit("threads");
        reveal_strlit("filter");
        reveal_strlit("limit");
        reveal_strlit("depth");
        reveal_strlit("workers");
        reveal_strlit("base");
        reveal_strlit("dense");
        reveal_strlit("top");
        reveal_strlit("expand");
        reveal_strlit("exit");
        reveal_strlit("units");
        reveal_strlit("?");
        assert("find"@.len() != "materialize"@.len() && "find"@.len() != "volumes"@.len() && "find"@.len() != "status"@.len() && "find"@[0] != "scan"@[0] && "find"@.len() != "cd"@.len() && "find"@[0] != "base"@[0] && "find"@.len() != "deletion"@.len() && "find"@[0] != "goto"@[0] && "find"@.len() != "theme"@.len() && "find"@.len() != "workers"@.len() && "find"@.len() != "settings"@.len() && "find"@.len() != "threads"@.len() && "find"@.len() != "go"@.len() && "find"@[0] != "logs"@[0] && "find"@.len() != "reveal"@.len() && "find"@.len() != "top"@.len() && "find"@.len() != "delete"@.len() && "find"@.len() != "depth"@.len() && "find"@.len() != "finder"@.len() && "find"@[0] != "mode"@[0] && "find"@.len() != "unpause"@.len() && "find"@.len() != "largest"@.len() && "find"@.len() != "statistics"@.len() && "find"@.len() != "h"@.len() && "find"@.len() != "resume"@.len() && "find"@[0] != "quit"@[0] && "find"@.len() != "log"@.len() && "find"@.len() != "rescan"@.len() && "find"@[0] != "rows"@[0] && "find"@.len() != "filter"@.len() && "find"@[0] != "exit"@[0] && "find"@.len() != "units"@.len() && "find"@[0] != "open"@[0] && "find"@.len() != "expand"@.len() && "find"@.len() != "trash"@.len() && "find"@.len() != "stats"@.len() && "find"@.len() != "heaviest"@.len() && "find"@.len() != "?"@.len() && "find"@[0] != "size"@[0] && "find"@.len() != "limit"@.len() && "find"@.len() != "pause"@.len() && "find"@.len() != "mounts"@.len() && "find"@.len() != "config"@.len() && "find"@.len() != "refresh"@.len() && "find"@.len() != "dense"@.len() && "find"@[0] != "help"@[0] && "find"@.len() != "force"@.len() && "find"@.len() != "q"@.len());
    }
    reveal_strlit("find");
    reveal_strlit("find ");
    assert(ascii_lower("find"@) =~= "find"@);
    assert("find "@ =~= "find"@ + seq![' ']);
    if plain_argument(p) {
        lemma_word_with_argument("find"@, p);
        assert("find "@ + p =~= "find"@ + seq![' '] + p);
    }
}

pub(crate) proof fn lemma_meaning_alone_grep()
    ensures
        command_spec("grep"@) == CommandView::Filter(None),
{
    assert("grep"@ != "cd"@ && "grep"@ != "stats"@ && "grep"@ != "open"@ && "grep"@ != "deletion"@ && "grep"@ != "goto"@ && "grep"@ != "largest"@ && "grep"@ != "trash"@ && "grep"@ != "status"@ && "grep"@ != "theme"@ && "grep"@ != "?"@ && "grep"@ != "heaviest"@ && "grep"@ != "finder"@ && "grep"@ != "exit"@ && "grep"@ != "mounts"@ && "grep"@ != "depth"@ && "grep"@ != "config"@ && "grep"@ != "volumes"@ && "grep"@ != "reveal"@ && "grep"@ != "materialize"@ && "grep"@ != "rescan"@ && "grep"@ != "top"@ && "grep"@ != "delete"@ && "grep"@ != "q"@ && "grep"@ != "statistics"@ && "grep"@ != "expand"@ && "grep"@ != "h"@ && "grep"@ != "pause"@ && "grep"@ != "settings"@ && "grep"@ != "limit"@ && "grep"@ != "logs"@ && "grep"@ != "go"@ && "grep"@ != "resume"@ && "grep"@ != "help"@ && "grep"@ != "log"@ && "grep"@ != "find"@ && "grep"@ != "refresh"@ && "grep"@ != "force"@ && "grep"@ != "units"@ && "grep"@ != "filter"@ && "grep"@ != "unpause"@ && "grep"@ != "base"@ && "grep"@ != "threads"@ && "grep"@ != "mode"@ && "grep"@ != "workers"@ && "grep"@ != "rows"@ && "grep"@ != "quit"@ && "grep"@ != "size"@ && "grep"@ != "scan"@ && "grep"@ != "dense"@) by {
        reveal_strlit("heaviest");
        reveal_strlit("mounts");
        reveal_strlit("top");
        reveal_strlit("statistics");
        reveal_strlit("open");
        reveal_strlit("materialize");
        reveal_strlit("logs");
        reveal_strlit("rows");
        reveal_strlit("volumes");
        reveal_strlit("goto");
        reveal_strlit("stats");
        reveal_strlit("mode");
        reveal_strlit("h");
        reveal_strlit("expand");
        reveal_strlit("help");
        reveal_strlit("base");
        reveal_strlit("scan");
        reveal_strlit("refresh");
        reveal_strlit("finder");
        reveal_strlit("limit");
        reveal_strlit("delete");
        reveal_strlit("grep");
        reveal_strlit("threads");
        reveal_strlit("units");
        reveal_strlit("deletion");
        reveal_strlit("go");
        reveal_strlit("?");
        reveal_strlit("settings");
        reveal_strlit("filter");
        reveal_strlit("find");
        reveal_strlit("q");
        reveal_strlit("theme");
        reveal_strlit("force");
        reveal_strlit("trash");
        reveal_strlit("rescan");
        reveal_strlit("config");
        reveal_strlit("dense");
        reveal_strlit("quit");
        reveal_strlit("exit");
        reveal_strlit("largest");
        reveal_strlit("depth");
        reveal_strlit("log");
        reveal_strlit("pause");
        reveal_strlit("workers");
        reveal_strlit("unpause");
        reveal_strlit("size");
        reveal_strlit("status");
        reveal_strlit("reveal");
        reveal_strlit("cd");
        reveal_strlit("resume");
        assert("grep"@.len() != "pause"@.len() && "grep"@.len() != "reveal"@.len() && "grep"@[0] != "logs"@[0] && "grep"@.len() != "top"@.len() && "grep"@.len() != "statistics"@.len() && "grep"@[0] != "find"@[0] && "grep"@.len() != "theme"@.len() && "grep"@.len() != "resume"@.len() && "grep"@.len() != "finder"@.len() && "grep"@.len() != "largest"@.len() && "grep"@.len() != "threads"@.len() && "grep"@[0] != "rows"@[0] && "grep"@[0] != "quit"@[0] && "grep"@.len() != "mounts"@.len() && "grep"@[0] != "mode"@[0] && "grep"@.len() != "settings"@.len() && "grep"@.len() != "volumes"@.len() && "grep"@.len() != "limit"@.len() && "grep"@.len() != "trash"@.len() && "grep"@.len() != "filter"@.len() && "grep"@[0] != "size"@[0] && "grep"@[0] != "exit"@[0] && "grep"@.len() != "cd"@.len() && "grep"@[1] != "goto"@[1] && "grep"@.len() != "q"@.len() && "grep"@.len() != "workers"@.len() && "grep"@.len() != "stats"@.len() && "grep"@.len() != "status"@.len() && "grep"@.len() != "log"@.len() && "grep"@.len() != "config"@.len() && "grep"@.len() != "deletion"@.len() && "grep"@.len() != "depth"@.len() && "grep"@.len() != "materialize"@.len() && "grep"@[0] != "base"@[0] && "grep"@.len() != "heaviest"@.len() && "grep"@.len() != "?"@.len() && "grep"@.len() != "delete"@.len() && "grep"@.len() != "dense"@.len() && "grep"@.len() != "h"@.len() && "grep"@.len() != "units"@.len() && "grep"@.len() != "rescan"@.len() && "grep"@.len() != "expand"@.len() && "grep"@.len() != "go"@.len() && "grep"@[0] != "open"@[0] && "grep"@.len() != "force"@.len() && "grep"@.len() != "refresh"@.len() && "grep"@.len() != "unpause"@.len() && "grep"@[0] != "help"@[0] && "grep"@[0] != "scan"@[0]);
    }
    reveal_strlit("grep");
    assert(ascii_lower("grep"@) =~= "grep"@);
    lemma_word_alone("grep"@);
}

pub(crate) proof fn lemma_meaning_with_argument_grep(p: Seq<char>)
    ensures
        plain_argument(p) ==> command_spec("grep "@ + p) == CommandView::Filter(Some(p)),
{
    assert("grep"@ != "cd"@ && "grep"@ != "stats"@ && "grep"@ != "open"@ && "grep"@ != "deletion"@ && "grep"@ != "goto"@ && "grep"@ != "largest"@ && "grep"@ != "trash"@ && "grep"@ != "status"@ && "grep"@ != "theme"@ && "grep"@ != "?"@ && "grep"@ != "heaviest"@ && "grep"@ != "finder"@ && "grep"@ != "exit"@ && "grep"@ != "mounts"@ && "grep"@ != "depth"@ && "grep"@ != "config"@ && "grep"@ != "volumes"@ && "grep"@ != "reveal"@ && "grep"@ != "materialize"@ && "grep"@ != "rescan"@ && "grep"@ != "top"@ && "grep"@ != "delete"@ && "grep"@ != "q"@ && "grep"@ != "statistics"@ && "grep"@ != "expand"@ && "grep"@ != "h"@ && "grep"@ != "pause"@ && "grep"@ != "settings"@ && "grep"@ != "limit"@ && "grep"@ != "logs"@ && "grep"@ != "go"@ && "grep"@ != "resume"@ && "grep"@ != "help"@ && "grep"@ != "log"@ && "grep"@ != "find"@ && "grep"@ != "refresh"@ && "grep"@ != "force"@ && "grep"@ != "units"@ && "grep"@ != "filter"@ && "grep"@ != "unpause"@ && "grep"@ != "base"@ && "grep"@ != "threads"@ && "grep"@ != "mode"@ && "grep"@ != "workers"@ && "grep"@ != "rows"@ && "grep"@ != "quit"@ && "grep"@ != "size"@ && "grep"@ != "scan"@ && "grep"@ != "dense"@) by {
        reveal_strlit("heaviest");
        reveal_strlit("mounts");
        reveal_strlit("top");
        reveal_strlit("statistics");
        reveal_strlit("open");
        reveal_strlit("materialize");
        reveal_strlit("logs");
        reveal_strlit("rows");
        reveal_strlit("volumes");
        reveal_strlit("goto");
        reveal_strlit("stats");
        reveal_strlit("mode");
        reveal_strlit("h");
        reveal_strlit("expand");
        reveal_strlit("help");
        reveal_strlit("base");
        reveal_strlit("scan");
        reveal_strlit("refresh");
        reveal_strlit("finder");
        reveal_strlit("limit");
        reveal_strlit("delete");
        reveal_strlit("grep");
        reveal_strlit("threads");
        reveal_strlit("units");
        reveal_strlit("deletion");
        reveal_strlit("go");
        reveal_strlit("?");
        reveal_strlit("settings");
        reveal_strlit("filter");
        reveal_strlit("find");
        reveal_strlit("q");
        reveal_strlit("theme");
        reveal_strlit("force");
        reveal_strlit("trash");
        reveal_strlit("rescan");
        reveal_strlit("config");
        reveal_strlit("dense");
        reveal_strlit("quit");
        reveal_strlit("exit");
        reveal_strlit("largest");
        reveal_strlit("depth");
        reveal_strlit("log");
        reveal_strlit("pause");
        reveal_strlit("workers");
        reveal_strlit("unpause");
        reveal_strlit("size");
        reveal_strlit("status");
        reveal_strlit("reveal");
        reveal_strlit("cd");
        reveal_strlit("resume");
        assert("grep"@.len() != "pause"@.len() && "grep"@.len() != "reveal"@.len() && "grep"@[0] != "logs"@[0] && "grep"@.len() != "top"@.len() && "grep"@.len() != "statistics"@.len() && "grep"@[0] != "find"@[0] && "grep"@.len() != "theme"@.len() && "grep"@.len() != "resume"@.len() && "grep"@.len() != "finder"@.len() && "grep"@.len() != "largest"@.len() && "grep"@.len() != "threads"@.len() && "grep"@[0] != "rows"@[0] && "grep"@[0] != "quit"@[0] && "grep"@.len() != "mounts"@.len() && "grep"@[0] != "mode"@[0] && "grep"@.len() != "settings"@.len() && "grep"@.len() != "volumes"@.len() && "grep"@.len() != "limit"@.len() && "grep"@.len() != "trash"@.len() && "grep"@.len() != "filter"@.len() && "grep"@[0] != "size"@[0] && "grep"@[0] != "exit"@[0] && "grep"@.len() != "cd"@.len() && "grep"@[1] != "goto"@[1] && "grep"@.len() != "q"@.len() && "grep"@.len() != "workers"@.len() && "grep"@.len() != "stats"@.len() && "grep"@.len() != "status"@.len() && "grep"@.len() != "log"@.len() && "grep"@.len() != "config"@.len() && "grep"@.len() != "deletion"@.len() && "grep"@.len() != "depth"@.len() && "grep"@.len() != "materialize"@.len() && "grep"@[0] != "base"@[0] && "grep"@.len() != "heaviest"@.len() && "grep"@.len() != "?"@.len() && "grep"@.len() != "delete"@.len() && "grep"@.len() != "dense"@.len() && "grep"@.len() != "h"@.len() && "grep"@.len() != "units"@.len() && "grep"@.len() != "rescan"@.len() && "grep"@.len() != "expand"@.len() && "grep"@.len() != "go"@.len() && "grep"@[0] != "open"@[0] && "grep"@.len() != "force"@.len() && "grep"@.len() != "refresh"@.len() && "grep"@.len() != "unpause"@.len() && "grep"@[0] != "help"@[0] && "grep"@[0] != "scan"@[0]);
    }
    reveal_strlit("grep");
    reveal_strlit("grep ");
    assert(ascii_lower("grep"@) =~= "grep"@);
    assert("grep "@ =~= "grep"@ + seq![' ']);
    if plain_argument(p) {
        lemma_word_with_argument("grep"@, p);
        assert("grep "@ + p =~= "grep"@ + seq![' '] + p);
    }
}

pub(crate) proof fn lemma_meaning_alone_export()
    ensures
        command_spec("export"@) == CommandView::Unknown("export needs a file path"@),
{
    assert("export"@ != "heaviest"@ && "export"@ != "reveal"@ && "export"@ != "size"@ && "export"@ != "theme"@ && "export"@ != "rescan"@ && "export"@ != "limit"@ && "export"@ != "refresh"@ && "export"@ != "mode"@ && "export"@ != "mounts"@ && "export"@ != "resume"@ && "export"@ != "q"@ && "export"@ != "delete"@ && "export"@ != "largest"@ && "export"@ != "deletion"@ && "export"@ != "trash"@ && "export"@ != "?"@ && "export"@ != "base"@ && "export"@ != "stats"@ && "export"@ != "pause"@ && "export"@ != "open"@ && "export"@ != "depth"@ && "export"@ != "find"@ && "export"@ != "expand"@ && "export"@ != "materialize"@ && "export"@ != "config"@ && "export"@ != "scan"@ && "export"@ != "h"@ && "export"@ != "goto"@ && "export"@ != "cd"@ && "export"@ != "quit"@ && "export"@ != "exit"@ && "export"@ != "go"@ && "export"@ != "units"@ && "export"@ != "log"@ && "export"@ != "logs"@ && "export"@ != "help"@ && "export"@ != "force"@ && "export"@ != "status"@ && "export"@ != "dense"@ && "export"@ != "statistics"@ && "export"@ != "unpause"@ && "export"@ != "workers"@ && "export"@ != "rows"@ && "export"@ != "threads"@ && "export"@ != "settings"@ && "export"@ != "volumes"@ && "export"@ != "grep"@ && "export"@ != "filter"@ && "export"@ != "top"@ && "export"@ != "finder"@) by {
        reveal_strlit("resume");
        reveal_strlit("filter");
        reveal_strlit("expand");
        reveal_strlit("workers");
        reveal_strlit("volumes");
        reveal_strlit("logs");
        reveal_strlit("deletion");
        reveal_strlit("pause");
        reveal_strlit("base");
        reveal_strlit("export");
        reveal_strlit("quit");
        reveal_strlit("config");
        reveal_strlit("status");
        reveal_strlit("threads");
        reveal_strlit("theme");
        reveal_strlit("cd");
        reveal_strlit("trash");
        reveal_strlit("depth");
        reveal_strlit("statistics");
        reveal_strlit("goto");
        reveal_strlit("finder");
        reveal_strlit("settings");
        reveal_strlit("help");
        reveal_strlit("force");
        reveal_strlit("limit");
        reveal_strlit("h");
        reveal_strlit("rows");
        reveal_strlit("grep");
        reveal_strlit("top");
        reveal_strlit("largest");
        reveal_strlit("heaviest");
        reveal_strlit("rescan");
        reveal_strlit("delete");
        reveal_strlit("exit");
        reveal_strlit("?");
        reveal_strlit("units");
        reveal_strlit("dense");
        reveal_strlit("find");
        reveal_strlit("q");
        reveal_strlit("log");
        reveal_strlit("refresh");
        reveal_strlit("stats");
        reveal_strlit("materialize");
        reveal_strlit("go");
        reveal_strlit("mode");
        reveal_strlit("reveal");
        reveal_strlit("scan");
        reveal_strlit("size");
        reveal_strlit("open");
        reveal_strlit("unpause");
        reveal_strlit("mounts");
        assert("export"@[0] != "config"@[0] && "export"@[0] != "status"@[0] && "export"@[0] != "rescan"@[0] && "export"@.len() != "deletion"@.len() && "export"@.len() != "logs"@.len() && "export"@[0] != "filter"@[0] && "export"@.len() != "exit"@.len() && "export"@[0] != "finder"@[0] && "export"@.len() != "rows"@.len() && "export"@.len() != "size"@.len() && "export"@.len() != "depth"@.len() && "export"@.len() != "q"@.len() && "export"@[0] != "reveal"@[0] && "export"@.len() != "settings"@.len() && "export"@.len() != "dense"@.len() && "export"@.len() != "help"@.len() && "export"@.len() != "workers"@.len() && "export"@.len() != "h"@.len() && "export"@.len() != "open"@.len() && "export"@.len() != "?"@.len() && "export"@.len() != "refresh"@.len() && "export"@.len() != "threads"@.len() && "export"@.len() != "grep"@.len() && "export"@.len() != "theme"@.len() && "export"@.len() != "cd"@.len() && "export"@.len() != "stats"@.len() && "export"@.len() != "top"@.len() && "export"@.len() != "go"@.len() && "export"@.len() != "statistics"@.len() && "export"@.len() != "limit"@.len() && "export"@.len() != "materialize"@.len() && "export"@[0] != "delete"@[0] && "export"@.len() != "scan"@.len() && "export"@.len() != "volumes"@.len() && "export"@.len() != "heaviest"@.len() && "export"@.len() != "unpause"@.len() && "export"@.len() != "pause"@.len() && "export"@.len() != "force"@.len() && "export"@[0] != "resume"@[0] && "export"@[3] != "expand"@[3] && "export"@.len() != "trash"@.len() && "export"@.len() != "goto"@.len() && "export"@.len() != "largest"@.len() && "export"@[0] != "mounts"@[0] && "export"@.len() != "units"@.len() && "export"@.len() != "log"@.len() && "export"@.len() != "find"@.len() && "export"@.len() != "base"@.len() && "export"@.len() != "quit"@.len() && "export"@.len() != "mode"@.len());
    }
    reveal_strlit("export");
    assert(ascii_lower("export"@) =~= "export"@);
    lemma_word_alone("export"@);
}

pub(crate) proof fn lemma_meaning_with_argument_export(p: Seq<char>)
    ensures
        plain_argument(p) ==> command_spec("export "@ + p) == CommandView::Export(p),
{
    assert("export"@ != "heaviest"@ && "export"@ != "reveal"@ && "export"@ != "size"@ && "export"@ != "theme"@ && "export"@ != "rescan"@ && "export"@ != "limit"@ && "export"@ != "refresh"@ && "export"@ != "mode"@ && "export"@ != "mounts"@ && "export"@ != "resume"@ && "export"@ != "q"@ && "export"@ != "delete"@ && "export"@ != "largest"@ && "export"@ != "deletion"@ && "export"@ != "trash"@ && "export"@ != "?"@ && "export"@ != "base"@ && "export"@ != "stats"@ && "export"@ != "pause"@ && "export"@ != "open"@ && "export"@ != "depth"@ && "export"@ != "find"@ && "export"@ != "expand"@ && "export"@ != "materialize"@ && "export"@ != "config"@ && "export"@ != "scan"@ && "export"@ != "h"@ && "export"@ != "goto"@ && "export"@ != "cd"@ && "export"@ != "quit"@ && "export"@ != "exit"@ && "export"@ != "go"@ && "export"@ != "units"@ && "export"@ != "log"@ && "export"@ != "logs"@ && "export"@ != "help"@ && "export"@ != "force"@ && "export"@ != "status"@ && "export"@ != "dense"@ && "export"@ != "statistics"@ && "export"@ != "unpause"@ && "export"@ != "workers"@ && "export"@ != "rows"@ && "export"@ != "threads"@ && "export"@ != "settings"@ && "export"@ != "volumes"@ && "export"@ != "grep"@ && "export"@ != "filter"@ && "export"@ != "top"@ && "export"@ != "finder"@) by {
        reveal_strlit("resume");
        reveal_strlit("filter");
        reveal_strlit("expand");
        reveal_strlit("workers");
        reveal_strlit("volumes");
        reveal_strlit("logs");
        reveal_strlit("deletion");
        reveal_strlit("pause");
        reveal_strlit("base");
        reveal_strlit("export");
        reveal_strlit("quit");
        reveal_strlit("config");
        reveal_strlit("status");
        reveal_strlit("threads");
        reveal_strlit("theme");
        reveal_strlit("cd");
        reveal_strlit("trash");
        reveal_strlit("depth");
        reveal_strlit("statistics");
        reveal_strlit("goto");
        reveal_strlit("finder");
        reveal_strlit("settings");
        reveal_strlit("help");
        reveal_strlit("force");
        reveal_strlit("limit");
        reveal_strlit("h");
        reveal_strlit("rows");
        reveal_strlit("grep");
        reveal_strlit("top");
        reveal_strlit("largest");
        reveal_strlit("heaviest");
        reveal_strlit("rescan");
        reveal_strlit("delete");
        reveal_strlit("exit");
        reveal_strlit("?");
        reveal_strlit("units");
        reveal_strlit("dense");
        reveal_strlit("find");
        reveal_strlit("q");
        reveal_strlit("log");
        reveal_strlit("refresh");
        reveal_strlit("stats");
        reveal_strlit("materialize");
        reveal_strlit("go");
        reveal_strlit("mode");
        reveal_strlit("reveal");
        reveal_strlit("scan");
        reveal_strlit("size");
        reveal_strlit("open");
        reveal_strlit("unpause");
        reveal_strlit("mounts");
        assert("export"@[0] != "config"@[0] && "export"@[0] != "status"@[0] && "export"@[0] != "rescan"@[0] && "export"@.len() != "deletion"@.len() && "export"@.len() != "logs"@.len() && "export"@[0] != "filter"@[0] && "export"@.len() != "exit"@.len() && "export"@[0] != "finder"@[0] && "export"@.len() != "rows"@.len() && "export"@.len() != "size"@.len() && "export"@.len() != "depth"@.len() && "export"@.len() != "q"@.len() && "export"@[0] != "reveal"@[0] && "export"@.len() != "settings"@.len() && "export"@.len() != "dense"@.len() && "export"@.len() != "help"@.len() && "export"@.len() != "workers"@.len() && "export"@.len() != "h"@.len() && "export"@.len() != "open"@.len() && "export"@.len() != "?"@.len() && "export"@.len() != "refresh"@.len() && "export"@.len() != "threads"@.len() && "export"@.len() != "grep"@.len() && "export"@.len() != "theme"@.len() && "export"@.len() != "cd"@.len() && "export"@.len() != "stats"@.len() && "export"@.len() != "top"@.len() && "export"@.len() != "go"@.len() && "export"@.len() != "statistics"@.len() && "export"@.len() != "limit"@.len() && "export"@.len() != "materialize"@.len() && "export"@[0] != "delete"@[0] && "export"@.len() != "scan"@.len() && "export"@.len() != "volumes"@.len() && "export"@.len() != "heaviest"@.len() && "export"@.len() != "unpause"@.len() && "export"@.len() != "pause"@.len() && "export"@.len() != "force"@.len() && "export"@[0] != "resume"@[0] && "export"@[3] != "expand"@[3] && "export"@.len() != "trash"@.len() && "export"@.len() != "goto"@.len() && "export"@.len() != "largest"@.len() && "export"@[0] != "mounts"@[0] && "export"@.len() != "units"@.len() && "export"@.len() != "log"@.len() && "export"@.len() != "find"@.len() && "export"@.len() != "base"@.len() && "export"@.len() != "quit"@.len() && "export"@.len() != "mode"@.len());
    }
    reveal_strlit("export");
    reveal_strlit("export ");
    assert(ascii_lower("export"@) =~= "export"@);
    assert("export "@ =~= "export"@ + seq![' ']);
    if plain_argument(p) {
        lemma_word_with_argument("export"@, p);
        assert("export "@ + p =~= "export"@ + seq![' '] + p);
    }
}

pub(crate) proof fn lemma_meaning_alone_dump()
    ensures
        command_spec("dump"@) == CommandView::Unknown("export needs a file path"@),
{
    assert("dump"@ != "workers"@ && "dump"@ != "delete"@ && "dump"@ != "h"@ && "dump"@ != "rescan"@ && "dump"@ != "trash"@ && "dump"@ != "largest"@ && "dump"@ != "log"@ && "dump"@ != "resume"@ && "dump"@ != "force"@ && "dump"@ != "dense"@ && "dump"@ != "?"@ && "dump"@ != "settings"@ && "dump"@ != "top"@ && "dump"@ != "export"@ && "dump"@ != "heaviest"@ && "dump"@ != "limit"@ && "dump"@ != "scan"@ && "dump"@ != "units"@ && "dump"@ != "status"@ && "dump"@ != "threads"@ && "dump"@ != "unpause"@ && "dump"@ != "find"@ && "dump"@ != "logs"@ && "dump"@ != "deletion"@ && "dump"@ != "go"@ && "dump"@ != "config"@ && "dump"@ != "volumes"@ && "dump"@ != "cd"@ && "dump"@ != "mode"@ && "dump"@ != "base"@ && "dump"@ != "grep"@ && "dump"@ != "finder"@ && "dump"@ != "statistics"@ && "dump"@ != "size"@ && "dump"@ != "pause"@ && "dump"@ != "quit"@ && "dump"@ != "materialize"@ && "dump"@ != "refresh"@ && "dump"@ != "filter"@ && "dump"@ != "reveal"@ && "dump"@ != "q"@ && "dump"@ != "help"@ && "dump"@ != "goto"@ && "dump"@ != "stats"@ && "dump"@ != "mounts"@ && "dump"@ != "expand"@ && "dump"@ != "open"@ && "dump"@ != "exit"@ && "dump"@ != "rows"@ && "dump"@ != "depth"@ && "dump"@ != "theme"@) by {
        reveal_strlit("unpause");
        reveal_strlit("q");
        reveal_strlit("exit");
        reveal_strlit("depth");
        reveal_strlit("log");
        reveal_strlit("expand");
        reveal_strlit("units");
        reveal_strlit("filter");
        reveal_strlit("reveal");
        reveal_strlit("?");
        reveal_strlit("threads");
        reveal_strlit("deletion");
        reveal_strlit("help");
        reveal_strlit("rows");
        reveal_strlit("grep");
        reveal_strlit("open");
        reveal_strlit("limit");
        reveal_strlit("top");
        reveal_strlit("cd");
        reveal_strlit("rescan");
        reveal_strlit("h");
        reveal_strlit("trash");
        reveal_strlit("base");
        reveal_strlit("theme");
        reveal_strlit("logs");
        reveal_strlit("stats");
        reveal_strlit("delete");
        reveal_strlit("force");
        reveal_strlit("largest");
        reveal_strlit("pause");
        reveal_strlit("heaviest");
        reveal_strlit("volumes");
        reveal_strlit("size");
        reveal_strlit("quit");
        reveal_strlit("scan");
        reveal_strlit("status");
        reveal_strlit("config");
        reveal_strlit("dense");
        reveal_strlit("mounts");
        reveal_strlit("go");
        reveal_strlit("resume");
        reveal_strlit("workers");
        reveal_strlit("finder");
        reveal_strlit("statistics");
        reveal_strlit("find");
        reveal_strlit("dump");
        reveal_strlit("settings");
        reveal_strlit("mode");
        reveal_strlit("export");
        reveal_strlit("goto");
        reveal_strlit("materialize");
        reveal_strlit("refresh");
        assert("dump"@[0] != "grep"@[0] && "dump"@[0] != "find"@[0] && "dump"@.len() != "mounts"@.len() && "dump"@.len() != "deletion"@.len() && "dump"@.len() != "log"@.len() && "dump"@[0] != "logs"@[0] && "dump"@.len() != "materialize"@.len() && "dump"@[0] != "size"@[0] && "dump"@.len() != "pause"@.len() && "dump"@[0] != "scan"@[0] && "dump"@.len() != "largest"@.len() && "dump"@.len() != "statistics"@.len() && "dump"@.len() != "go"@.len() && "dump"@.len() != "units"@.len() && "dump"@[0] != "quit"@[0] && "dump"@.len() != "dense"@.len() && "dump"@.len() != "filter"@.len() && "dump"@.len() != "volumes"@.len() && "dump"@.len() != "resume"@.len() && "dump"@.len() != "status"@.len() && "dump"@.len() != "force"@.len() && "dump"@.len() != "workers"@.len() && "dump"@.len() != "reveal"@.len() && "dump"@.len() != "config"@.len() && "dump"@[0] != "help"@[0] && "dump"@[0] != "open"@[0] && "dump"@.len() != "heaviest"@.len() && "dump"@[0] != "mode"@[0] && "dump"@.len() != "refresh"@.len() && "dump"@.len() != "threads"@.len() && "dump"@.len() != "?"@.len() && "dump"@[0] != "exit"@[0] && "dump"@[0] != "base"@[0] && "dump"@.len() != "finder"@.len() && "dump"@.len() != "trash"@.len() && "dump"@.len() != "settings"@.len() && "dump"@.len() != "cd"@.len() && "dump"@.len() != "top"@.len() && "dump"@.len() != "h"@.len() && "dump"@[0] != "rows"@[0] && "dump"@.len() != "export"@.len() && "dump"@.len() != "delete"@.len() && "dump"@.len() != "expand"@.len() && "dump"@.len() != "q"@.len() && "dump"@.len() != "unpause"@.len() && "dump"@.len() != "depth"@.len() && "dump"@.len() != "stats"@.len() && "dump"@[0] != "goto"@[0] && "dump"@.len() != "theme"@.len() && "dump"@.len() != "rescan"@.len() && "dump"@.len() != "limit"@.len());
    }
    reveal_strlit("dump");
    assert(ascii_lower("dump"@) =~= "dump"@);
    lemma_word_alone("dump"@);
}

pub(crate) proof fn lemma_meaning_with_argument_dump(p: Seq<char>)
    ensures
        plain_argument(p) ==> command_spec("dump "@ + p) == CommandView::Export(p),
{
    assert("dump"@ != "workers"@ && "dump"@ != "delete"@ && "dump"@ != "h"@ && "dump"@ != "rescan"@ && "dump"@ != "trash"@ && "dump"@ != "largest"@ && "dump"@ != "log"@ && "dump"@ != "resume"@ && "dump"@ != "force"@ && "dump"@ != "dense"@ && "dump"@ != "?"@ && "dump"@ != "settings"@ && "dump"@ != "top"@ && "dump"@ != "export"@ && "dump"@ != "heaviest"@ && "dump"@ != "limit"@ && "dump"@ != "scan"@ && "dump"@ != "units"@ && "dump"@ != "status"@ && "dump"@ != "threads"@ && "dump"@ != "unpause"@ && "dump"@ != "find"@ && "dump"@ != "logs"@ && "dump"@ != "deletion"@ && "dump"@ != "go"@ && "dump"@ != "config"@ && "dump"@ != "volumes"@ && "dump"@ != "cd"@ && "dump"@ != "mode"@ && "dump"@ != "base"@ && "dump"@ != "grep"@ && "dump"@ != "finder"@ && "dump"@ != "statistics"@ && "dump"@ != "size"@ && "dump"@ != "pause"@ && "dump"@ != "quit"@ && "dump"@ != "materialize"@ && "dump"@ != "refresh"@ && "dump"@ != "filter"@ && "dump"@ != "reveal"@ && "dump"@ != "q"@ && "dump"@ != "help"@ && "dump"@ != "goto"@ && "dump"@ != "stats"@ && "dump"@ != "mounts"@ && "dump"@ != "expand"@ && "dump"@ != "open"@ && "dump"@ != "exit"@ && "dump"@ != "rows"@ && "dump"@ != "depth"@ && "dump"@ != "theme"@) by {
        reveal_strlit("unpause");
        reveal_strlit("q");
        reveal_strlit("exit");
        reveal_strlit("depth");
        reveal_strlit("log");
        reveal_strlit("expand");
        reveal_strlit("units");
        reveal_strlit("filter");
        reveal_strlit("reveal");
        reveal_strlit("?");
        reveal_strlit("threads");
        reveal_strlit("deletion");
        reveal_strlit("help");
        reveal_strlit("rows");
        reveal_strlit("grep");
        reveal_strlit("open");
        reveal_strlit("limit");
        reveal_strlit("top");
        reveal_strlit("cd");
        reveal_strlit("rescan");
        reveal_strlit("h");
        reveal_strlit("trash");
        reveal_strlit("base");
        reveal_strlit("theme");
        reveal_strlit("logs");
        reveal_strlit("stats");
        reveal_strlit("delete");
        reveal_strlit("force");
        reveal_strlit("largest");
        reveal_strlit("pause");
        reveal_strlit("heaviest");
        reveal_strlit("volumes");
        reveal_strlit("size");
        reveal_strlit("quit");
        reveal_strlit("scan");
        reveal_strlit("status");
        reveal_strlit("config");
        reveal_strlit("dense");
        reveal_strlit("mounts");
        reveal_strlit("go");
        reveal_strlit("resume");
        reveal_strlit("workers");
        reveal_strlit("finder");
        reveal_strlit("statistics");
        reveal_strlit("find");
        reveal_strlit("dump");
        reveal_strlit("settings");
        reveal_strlit("mode");
        reveal_strlit("export");
        reveal_strlit("goto");
        reveal_strlit("materialize");
        reveal_strlit("refresh");
        assert("dump"@[0] != "grep"@[0] && "dump"@[0] != "find"@[0] && "dump"@.len() != "mounts"@.len() && "dump"@.len() != "deletion"@.len() && "dump"@.len() != "log"@.len() && "dump"@[0] != "logs"@[0] && "dump"@.len() != "materialize"@.len() && "dump"@[0] != "size"@[0] && "dump"@.len() != "pause"@.len() && "dump"@[0] != "scan"@[0] && "dump"@.len() != "largest"@.len() && "dump"@.len() != "statistics"@.len() && "dump"@.len() != "go"@.len() && "dump"@.len() != "units"@.len() && "dump"@[0] != "quit"@[0] && "dump"@.len() != "dense"@.len() && "dump"@.len() != "filter"@.len() && "dump"@.len() != "volumes"@.len() && "dump"@.len() != "resume"@.len() && "dump"@.len() != "status"@.len() && "dump"@.len() != "force"@.len() && "dump"@.len() != "workers"@.len() && "dump"@.len() != "reveal"@.len() && "dump"@.len() != "config"@.len() && "dump"@[0] != "help"@[0] && "dump"@[0] != "open"@[0] && "dump"@.len() != "heaviest"@.len() && "dump"@[0] != "mode"@[0] && "dump"@.len() != "refresh"@.len() && "dump"@.len() != "threads"@.len() && "dump"@.len() != "?"@.len() && "dump"@[0] != "exit"@[0] && "dump"@[0] != "base"@[0] && "dump"@.len() != "finder"@.len() && "dump"@.len() != "trash"@.len() && "dump"@.len() != "settings"@.len() && "dump"@.len() != "cd"@.len() && "dump"@.len() != "top"@.len() && "dump"@.len() != "h"@.len() && "dump"@[0] != "rows"@[0] && "dump"@.len() != "export"@.len() && "dump"@.len() != "delete"@.len() && "dump"@.len() != "expand"@.len() && "dump"@.len() != "q"@.len() && "dump"@.len() != "unpause"@.len() && "dump"@.len() != "depth"@.len() && "dump"@.len() != "stats"@.len() && "dump"@[0] != "goto"@[0] && "dump"@.len() != "theme"@.len() && "dump"@.len() != "rescan"@.len() && "dump"@.len() != "limit"@.len());
    }
    reveal_strlit("dump");
    reveal_strlit("dump ");
    assert(ascii_lower("dump"@) =~= "dump"@);
    assert("dump "@ =~= "dump"@ + seq![' ']);
    if plain_argument(p) {
        lemma_word_with_argument("dump"@, p);
        assert("dump "@ + p =~= "dump"@ + seq![' '] + p);
    }
}

pub(crate) proof fn lemma_meaning_alone_clean()
    ensures
        command_spec("clean"@) == CommandView::Cleaner,
{
    assert("clean"@ != "exit"@ && "clean"@ != "heaviest"@ && "clean"@ != "resume"@ && "clean"@ != "rescan"@ && "clean"@ != "units"@ && "clean"@ != "?"@ && "clean"@ != "delete"@ && "clean"@ != "theme"@ && "clean"@ != "base"@ && "clean"@ != "dump"@ && "clean"@ != "force"@ && "clean"@ != "cd"@ && "clean"@ != "expand"@ && "clean"@ != "depth"@ && "clean"@ != "deletion"@ && "clean"@ != "grep"@ && "clean"@ != "trash"@ && "clean"@ != "h"@ && "clean"@ != "export"@ && "clean"@ != "log"@ && "clean"@ != "workers"@ && "clean"@ != "filter"@ && "clean"@ != "dense"@ && "clean"@ != "go"@ && "clean"@ != "config"@ && "clean"@ != "size"@ && "clean"@ != "reveal"@ && "clean"@ != "mode"@ && "clean"@ != "settings"@ && "clean"@ != "mounts"@ && "clean"@ != "rows"@ && "clean"@ != "status"@ && "clean"@ != "limit"@ && "clean"@ != "refresh"@ && "clean"@ != "top"@ && "clean"@ != "find"@ && "clean"@ != "threads"@ && "clean"@ != "goto"@ && "clean"@ != "unpause"@ && "clean"@ != "largest"@ && "clean"@ != "logs"@ && "clean"@ != "scan"@ && "clean"@ != "pause"@ && "clean"@ != "q"@ && "clean"@ != "finder"@ && "clean"@ != "volumes"@ && "clean"@ != "materialize"@ && "clean"@ != "quit"@ && "clean"@ != "open"@ && "clean"@ != "stats"@ && "clean"@ != "help"@ && "clean"@ != "statistics"@) by {
        reveal_strlit("help");
        reveal_strlit("?");
        reveal_strlit("scan");
        reveal_strlit("theme");
        reveal_strlit("goto");
        reveal_strlit("trash");
        reveal_strlit("workers");
        reveal_strlit("size");
        reveal_strlit("h");
        reveal_strlit("expand");
        reveal_strlit("export");
        reveal_strlit("largest");
        reveal_strlit("finder");
        reveal_strlit("rescan");
        reveal_strlit("rows");
        reveal_strlit("force");
        reveal_strlit("statistics");
        reveal_strlit("materialize");
        reveal_strlit("delete");
        reveal_strlit("filter");
        reveal_strlit("threads");
        reveal_strlit("status");
        reveal_strlit("depth");
        reveal_strlit("top");
        reveal_strlit("limit");
        reveal_strlit("mode");
        reveal_strlit("base");
        reveal_strlit("refresh");
        reveal_strlit("mounts");
        reveal_strlit("open");
        reveal_strlit("pause");
        reveal_strlit("exit");
        reveal_strlit("volumes");
        reveal_strlit("units");
        reveal_strlit("reveal");
        reveal_strlit("q");
        reveal_strlit("resume");
        reveal_strlit("clean");
        reveal_strlit("cd");
        reveal_strlit("deletion");
        reveal_strlit("unpause");
        reveal_strlit("logs");
        reveal_strlit("go");
        reveal_strlit("quit");
        reveal_strlit("settings");
        reveal_strlit("stats");
        reveal_strlit("heaviest");
        reveal_strlit("find");
        reveal_strlit("config");
        reveal_strlit("dump");
        reveal_strlit("log");
        reveal_strlit("dense");
        reveal_strlit("grep");
        assert("clean"@.len() != "refresh"@.len() && "clean"@.len() != "open"@.len() && "clean"@.len() != "statistics"@.len() && "clean"@.len() != "size"@.len() && "clean"@[0] != "depth"@[0] && "clean"@.len() != "workers"@.len() && "clean"@[0] != "limit"@[0] && "clean"@.len() != "delete"@.len() && "clean"@[0] != "pause"@[0] && "clean"@.len() != "dump"@.len() && "clean"@.len() != "base"@.len() && "clean"@.len() != "volumes"@.len() && "clean"@[0] != "trash"@[0] && "clean"@.len() != "?"@.len() && "clean"@[0] != "units"@[0] && "clean"@.len() != "deletion"@.len() && "clean"@.len() != "settings"@.len() && "clean"@.len() != "h"@.len() && "clean"@.len() != "finder"@.len() && "clean"@.len() != "quit"@.len() && "clean"@.len() != "mode"@.len() && "clean"@.len() != "find"@.len() && "clean"@.len() != "scan"@.len() && "clean"@[0] != "theme"@[0] && "clean"@.len() != "top"@.len() && "clean"@.len() != "filter"@.len() && "clean"@.len() != "status"@.len() && "clean"@.len() != "export"@.len() && "clean"@.len() != "q"@.len() && "clean"@.len() != "resume"@.len() && "clean"@.len() != "mounts"@.len() && "clean"@.len() != "rescan"@.len() && "clean"@.len() != "config"@.len() && "clean"@.len() != "help"@.len() && "clean"@[0] != "stats"@[0] && "clean"@.len() != "log"@.len() && "clean"@.len() != "unpause"@.len() && "clean"@.len() != "rows"@.len() && "clean"@.len() != "largest"@.len() && "clean"@.len() != "go"@.len() && "clean"@.len() != "materialize"@.len() && "clean"@[0] != "dense"@[0] && "clean"@.len() != "reveal"@.len() && "clean"@.len() != "logs"@.len() && "clean"@.len() != "cd"@.len() && "clean"@.len() != "goto"@.len() && "clean"@.len() != "heaviest"@.len() && "clean"@[0] != "force"@[0] && "clean"@.len() != "expand"@.len() && "clean"@.len() != "grep"@.len() && "clean"@.len() != "threads"@.len() && "clean"@.len() != "exit"@.len());
    }
    reveal_strlit("clean");
    assert(ascii_lower("clean"@) =~= "clean"@);
    lemma_word_alone("clean"@);
}

pub(crate) proof fn lemma_meaning_alone_cleaner()
    ensures
        command_spec("cleaner"@) == CommandView::Cleaner,
{
    assert("cleaner"@ != "largest"@ && "cleaner"@ != "refresh"@ && "cleaner"@ != "size"@ && "cleaner"@ != "heaviest"@ && "cleaner"@ != "pause"@ && "cleaner"@ != "help"@ && "cleaner"@ != "depth"@ && "cleaner"@ != "scan"@ && "cleaner"@ != "settings"@ && "cleaner"@ != "statistics"@ && "cleaner"@ != "quit"@ && "cleaner"@ != "delete"@ && "cleaner"@ != "rescan"@ && "cleaner"@ != "h"@ && "cleaner"@ != "base"@ && "cleaner"@ != "exit"@ && "cleaner"@ != "filter"@ && "cleaner"@ != "trash"@ && "cleaner"@ != "dense"@ && "cleaner"@ != "cd"@ && "cleaner"@ != "status"@ && "cleaner"@ != "top"@ && "cleaner"@ != "open"@ && "cleaner"@ != "?"@ && "cleaner"@ != "dump"@ && "cleaner"@ != "stats"@ && "cleaner"@ != "q"@ && "cleaner"@ != "limit"@ && "cleaner"@ != "grep"@ && "cleaner"@ != "finder"@ && "cleaner"@ != "rows"@ && "cleaner"@ != "units"@ && "cleaner"@ != "mounts"@ && "cleaner"@ != "volumes"@ && "cleaner"@ != "workers"@ && "cleaner"@ != "theme"@ && "cleaner"@ != "find"@ && "cleaner"@ != "resume"@ && "cleaner"@ != "deletion"@ && "cleaner"@ != "threads"@ && "cleaner"@ != "goto"@ && "cleaner"@ != "materialize"@ && "cleaner"@ != "logs"@ && "cleaner"@ != "mode"@ && "cleaner"@ != "clean"@ && "cleaner"@ != "expand"@ && "cleaner"@ != "reveal"@ && "cleaner"@ != "force"@ && "cleaner"@ != "log"@ && "cleaner"@ != "export"@ && "cleaner"@ != "unpause"@ && "cleaner"@ != "config"@ && "cleaner"@ != "go"@) by {
        reveal_strlit("settings");
        reveal_strlit("find");
        reveal_strlit("largest");
        reveal_strlit("finder");
        reveal_strlit("heaviest");
        reveal_strlit("config");
        reveal_strlit("exit");
        reveal_strlit("top");
        reveal_strlit("refresh");
        reveal_strlit("clean");
        reveal_strlit("depth");
        reveal_strlit("cleaner");
        reveal_strlit("limit");
        reveal_strlit("rescan");
        reveal_strlit("?");
        reveal_strlit("mode");
        reveal_strlit("statistics");
        reveal_strlit("unpause");
        reveal_strlit("help");
        reveal_strlit("scan");
        reveal_strlit("dump");
        reveal_strlit("go");
        reveal_strlit("open");
        reveal_strlit("units");
        reveal_strlit("stats");
        reveal_strlit("log");
        reveal_strlit("size");
        reveal_strlit("grep");
        reveal_strlit("force");
        reveal_strlit("deletion");
        reveal_strlit("dense");
        reveal_strlit("theme");
        reveal_strlit("logs");
        reveal_strlit("mounts");
        reveal_strlit("threads");
        reveal_strlit("rows");
        reveal_strlit("base");
        reveal_strlit("workers");
        reveal_strlit("quit");
        reveal_strlit("materialize");
        reveal_strlit("trash");
        reveal_strlit("filter");
        reveal_strlit("status");
        reveal_strlit("resume");
        reveal_strlit("h");
        reveal_strlit("reveal");
        reveal_strlit("pause");
        reveal_strlit("cd");
        reveal_strlit("volumes");
        reveal_strlit("goto");
        reveal_strlit("export");
        reveal_strlit("expand");
        reveal_strlit("delete");
        reveal_strlit("q");
        assert("cleaner"@.len() != "settings"@.len() && "cleaner"@.len() != "limit"@.len() && "cleaner"@.len() != "pause"@.len() && "cleaner"@.len() != "expand"@.len() && "cleaner"@.len() != "rows"@.len() && "cleaner"@.len() != "stats"@.len() && "cleaner"@.len() != "reveal"@.len() && "cleaner"@.len() != "finder"@.len() && "cleaner"@.len() != "go"@.len() && "cleaner"@.len() != "filter"@.len() && "cleaner"@.len() != "top"@.len() && "cleaner"@.len() != "heaviest"@.len() && "cleaner"@.len() != "export"@.len() && "cleaner"@.len() != "resume"@.len() && "cleaner"@.len() != "size"@.len() && "cleaner"@.len() != "units"@.len() && "cleaner"@.len() != "open"@.len() && "cleaner"@.len() != "grep"@.len() && "cleaner"@.len() != "goto"@.len() && "cleaner"@.len() != "find"@.len() && "cleaner"@[0] != "workers"@[0] && "cleaner"@.len() != "mounts"@.len() && "cleaner"@.len() != "h"@.len() && "cleaner"@[0] != "threads"@[0] && "cleaner"@.len() != "log"@.len() && "cleaner"@.len() != "mode"@.len() && "cleaner"@.len() != "statistics"@.len() && "cleaner"@.len() != "materialize"@.len() && "cleaner"@.len() != "dump"@.len() && "cleaner"@[0] != "unpause"@[0] && "cleaner"@.len() != "q"@.len() && "cleaner"@[0] != "volumes"@[0] && "cleaner"@.len() != "dense"@.len() && "cleaner"@.len() != "deletion"@.len() && "cleaner"@.len() != "quit"@.len() && "cleaner"@.len() != "scan"@.len() && "cleaner"@.len() != "base"@.len() && "cleaner"@.len() != "force"@.len() && "cleaner"@.len() != "config"@.len() && "cleaner"@.len() != "status"@.len() && "cleaner"@.len() != "logs"@.len() && "cleaner"@.len() != "?"@.len() && "cleaner"@.len() != "trash"@.len() && "cleaner"@.len() != "depth"@.len() && "cleaner"@.len() != "theme"@.len() && "cleaner"@[0] != "largest"@[0] && "cleaner"@.len() != "delete"@.len() && "cleaner"@.len() != "cd"@.len() && "cleaner"@.len() != "exit"@.len() && "cleaner"@.len() != "help"@.len() && "cleaner"@.len() != "clean"@.len() && "cleaner"@.len() != "rescan"@.len() && "cleaner"@[0] != "refresh"@[0]);
    }
    reveal_strlit("cleaner");
    assert(ascii_lower("cleaner"@) =~= "cleaner"@);
    lemma_word_alone("cleaner"@);
}

pub(crate) proof fn lemma_meaning_alone_dash()
    ensures
        command_spec("dash"@) == CommandView::Dashboard,
{
    assert("dash"@ != "force"@ && "dash"@ != "base"@ && "dash"@ != "filter"@ && "dash"@ != "statistics"@ && "dash"@ != "volumes"@ && "dash"@ != "status"@ && "dash"@ != "resume"@ && "dash"@ != "dump"@ && "dash"@ != "export"@ && "dash"@ != "deletion"@ && "dash"@ != "dense"@ && "dash"@ != "top"@ && "dash"@ != "clean"@ && "dash"@ != "trash"@ && "dash"@ != "cd"@ && "dash"@ != "expand"@ && "dash"@ != "largest"@ && "dash"@ != "?"@ && "dash"@ != "rescan"@ && "dash"@ != "heaviest"@ && "dash"@ != "goto"@ && "dash"@ != "mode"@ && "dash"@ != "open"@ && "dash"@ != "q"@ && "dash"@ != "exit"@ && "dash"@ != "log"@ && "dash"@ != "config"@ && "dash"@ != "logs"@ && "dash"@ != "threads"@ && "dash"@ != "go"@ && "dash"@ != "pause"@ && "dash"@ != "reveal"@ && "dash"@ != "stats"@ && "dash"@ != "materialize"@ && "dash"@ != "size"@ && "dash"@ != "workers"@ && "dash"@ != "quit"@ && "dash"@ != "scan"@ && "dash"@ != "find"@ && "dash"@ != "depth"@ && "dash"@ != "finder"@ && "dash"@ != "limit"@ && "dash"@ != "h"@ && "dash"@ != "grep"@ && "dash"@ != "theme"@ && "dash"@ != "refresh"@ && "dash"@ != "settings"@ && "dash"@ != "cleaner"@ && "dash"@ != "units"@ && "dash"@ != "delete"@ && "dash"@ != "rows"@ && "dash"@ != "unpause"@ && "dash"@ != "mounts"@ && "dash"@ != "help"@) by {
        reveal_strlit("?");
        reveal_strlit("expand");
        reveal_strlit("find");
        reveal_strlit("go");
        reveal_strlit("size");
        reveal_strlit("unpause");
        reveal_strlit("config");
        reveal_strlit("q");
        reveal_strlit("mode");
        reveal_strlit("rescan");
        reveal_strlit("depth");
        reveal_strlit("filter");
        reveal_strlit("logs");
        reveal_strlit("export");
        reveal_strlit("open");
        reveal_strlit("units");
        reveal_strlit("statistics");
        reveal_strlit("top");
        reveal_strlit("delete");
        reveal_strlit("stats");
        reveal_strlit("force");
        reveal_strlit("limit");
        reveal_strlit("workers");
        reveal_strlit("dense");
        reveal_strlit("volumes");
        reveal_strlit("clean");
        reveal_strlit("theme");
        reveal_strlit("scan");
        reveal_strlit("rows");
        reveal_strlit("deletion");
        reveal_strlit("refresh");
        reveal_strlit("resume");
        reveal_strlit("cleaner");
        reveal_strlit("exit");
        reveal_strlit("base");
        reveal_strlit("cd");
        reveal_strlit("status");
        reveal_strlit("materialize");
        reveal_strlit("finder");
        reveal_strlit("dump");
        reveal_strlit("largest");
        reveal_strlit("dash");
        reveal_strlit("settings");
        reveal_strlit("log");
        reveal_strlit("heaviest");
        reveal_strlit("pause");
        reveal_strlit("h");
        reveal_strlit("threads");
        reveal_strlit("quit");
        reveal_strlit("grep");
        reveal_strlit("mounts");
        reveal_strlit("goto");
        reveal_strlit("reveal");
        reveal_strlit("trash");
        reveal_strlit("help");
        assert("dash"@.len() != "mounts"@.len() && "dash"@.len() != "delete"@.len() && "dash"@.len() != "config"@.len() && "dash"@[0] != "logs"@[0] && "dash"@.len() != "top"@.len() && "dash"@.len() != "deletion"@.len() && "dash"@.len() != "go"@.len() && "dash"@.len() != "settings"@.len() && "dash"@[0] != "mode"@[0] && "dash"@[1] != "dump"@[1] && "dash"@.len() != "cd"@.len() && "dash"@.len() != "unpause"@.len() && "dash"@.len() != "heaviest"@.len() && "dash"@.len() != "stats"@.len() && "dash"@.len() != "finder"@.len() && "dash"@.len() != "limit"@.len() && "dash"@[0] != "help"@[0] && "dash"@.len() != "?"@.len() && "dash"@.len() != "threads"@.len() && "dash"@.len() != "trash"@.len() && "dash"@.len() != "resume"@.len() && "dash"@.len() != "largest"@.len() && "dash"@.len() != "dense"@.len() && "dash"@.len() != "clean"@.len() && "dash"@[0] != "size"@[0] && "dash"@[0] != "base"@[0] && "dash"@.len() != "rescan"@.len() && "dash"@.len() != "units"@.len() && "dash"@.len() != "h"@.len() && "dash"@.len() != "refresh"@.len() && "dash"@[0] != "rows"@[0] && "dash"@.len() != "cleaner"@.len() && "dash"@.len() != "log"@.len() && "dash"@.len() != "q"@.len() && "dash"@[0] != "exit"@[0] && "dash"@.len() != "materialize"@.len() && "dash"@.len() != "pause"@.len() && "dash"@[0] != "find"@[0] && "dash"@.len() != "export"@.len() && "dash"@.len() != "statistics"@.len() && "dash"@.len() != "expand"@.len() && "dash"@.len() != "reveal"@.len() && "dash"@[0] != "grep"@[0] && "dash"@.len() != "theme"@.len() && "dash"@[0] != "open"@[0] && "dash"@.len() != "status"@.len() && "dash"@.len() != "workers"@.len() && "dash"@[0] != "quit"@[0] && "dash"@.len() != "volumes"@.len() && "dash"@[0] != "scan"@[0] && "dash"@.len() != "filter"@.len() && "dash"@.len() != "depth"@.len() && "dash"@[0] != "goto"@[0] && "dash"@.len() != "force"@.len());
    }
    reveal_strlit("dash");
    assert(ascii_lower("dash"@) =~= "dash"@);
    lemma_word_alone("dash"@);
}

pub(crate) proof fn lemma_meaning_alone_dashboard()
    ensures
        command_spec("dashboard"@) == CommandView::Dashboard,
{
    assert("dashboard"@ != "mode"@ && "dashboard"@ != "h"@ && "dashboard"@ != "volumes"@ && "dashboard"@ != "limit"@ && "dashboard"@ != "mounts"@ && "dashboard"@ != "deletion"@ && "dashboard"@ != "unpause"@ && "dashboard"@ != "threads"@ && "dashboard"@ != "export"@ && "dashboard"@ != "expand"@ && "dashboard"@ != "force"@ && "dashboard"@ != "find"@ && "dashboard"@ != "cd"@ && "dashboard"@ != "depth"@ && "dashboard"@ != "open"@ && "dashboard"@ != "reveal"@ && "dashboard"@ != "exit"@ && "dashboard"@ != "scan"@ && "dashboard"@ != "goto"@ && "dashboard"@ != "dump"@ && "dashboard"@ != "theme"@ && "dashboard"@ != "dense"@ && "dashboard"@ != "grep"@ && "dashboard"@ != "clean"@ && "dashboard"@ != "refresh"@ && "dashboard"@ != "delete"@ && "dashboard"@ != "config"@ && "dashboard"@ != "q"@ && "dashboard"@ != "finder"@ && "dashboard"@ != "materialize"@ && "dashboard"@ != "heaviest"@ && "dashboard"@ != "logs"@ && "dashboard"@ != "trash"@ && "dashboard"@ != "go"@ && "dashboard"@ != "statistics"@ && "dashboard"@ != "base"@ && "dashboard"@ != "largest"@ && "dashboard"@ != "?"@ && "dashboard"@ != "resume"@ && "dashboard"@ != "cleaner"@ && "dashboard"@ != "help"@ && "dashboard"@ != "size"@ && "dashboard"@ != "rescan"@ && "dashboard"@ != "units"@ && "dashboard"@ != "workers"@ && "dashboard"@ != "quit"@ && "dashboard"@ != "stats"@ && "dashboard"@ != "top"@ && "dashboard"@ != "pause"@ && "dashboard"@ != "settings"@ && "dashboard"@ != "rows"@ && "dashboard"@ != "dash"@ && "dashboard"@ != "filter"@ && "dashboard"@ != "status"@ && "dashboard"@ != "log"@) by {
        reveal_strlit("refresh");
        reveal_strlit("resume");
        reveal_strlit("dash");
        reveal_strlit("scan");
        reveal_strlit("mode");
        reveal_strlit("statistics");
        reveal_strlit("theme");
        reveal_strlit("go");
        reveal_strlit("export");
        reveal_strlit("cleaner");
        reveal_strlit("help");
        reveal_strlit("log");
        reveal_strlit("open");
        reveal_strlit("rows");
        reveal_strlit("settings");
        reveal_strlit("mounts");
        reveal_strlit("expand");
        reveal_strlit("heaviest");
        reveal_strlit("size");
        reveal_strlit("base");
        reveal_strlit("status");
        reveal_strlit("filter");
        reveal_strlit("goto");
        reveal_strlit("dense");
        reveal_strlit("top");
        reveal_strlit("limit");
        reveal_strlit("?");
        reveal_strlit("trash");
        reveal_strlit("largest");
        reveal_strlit("q");
        reveal_strlit("pause");
        reveal_strlit("units");
        reveal_strlit("unpause");
        reveal_strlit("dashboard");
        reveal_strlit("dump");
        reveal_strlit("find");
        reveal_strlit("logs");
        reveal_strlit("clean");
        reveal_strlit("cd");
        reveal_strlit("config");
        reveal_strlit("quit");
        reveal_strlit("deletion");
        reveal_strlit("reveal");
        reveal_strlit("exit");
        reveal_strlit("threads");
        reveal_strlit("force");
        reveal_strlit("rescan");
        reveal_strlit("workers");
        reveal_strlit("grep");
        reveal_strlit("delete");
        reveal_strlit("stats");
        reveal_strlit("volumes");
        reveal_strlit("finder");
        reveal_strlit("depth");
        reveal_strlit("materialize");
        reveal_strlit("h");
        assert("dashboard"@.len() != "clean"@.len() && "dashboard"@.len() != "pause"@.len() && "dashboard"@.len() != "delete"@.len() && "dashboard"@.len() != "unpause"@.len() && "dashboard"@.len() != "exit"@.len() && "dashboard"@.len() != "help"@.len() && "dashboard"@.len() != "trash"@.len() && "dashboard"@.len() != "units"@.len() && "dashboard"@.len() != "filter"@.len() && "dashboard"@.len() != "finder"@.len() && "dashboard"@.len() != "reveal"@.len() && "dashboard"@.len() != "expand"@.len() && "dashboard"@.len() != "resume"@.len() && "dashboard"@.len() != "volumes"@.len() && "dashboard"@.len() != "?"@.len() && "dashboard"@.len() != "log"@.len() && "dashboard"@.len() != "force"@.len() && "dashboard"@.len() != "find"@.len() && "dashboard"@.len() != "heaviest"@.len() && "dashboard"@.len() != "base"@.len() && "dashboard"@.len() != "goto"@.len() && "dashboard"@.len() != "size"@.len() && "dashboard"@.len() != "cd"@.len() && "dashboard"@.len() != "statistics"@.len() && "dashboard"@.len() != "dump"@.len() && "dashboard"@.len() != "workers"@.len() && "dashboard"@.len() != "scan"@.len() && "dashboard"@.len() != "stats"@.len() && "dashboard"@.len() != "refresh"@.len() && "dashboard"@.len() != "rows"@.len() && "dashboard"@.len() != "largest"@.len() && "dashboard"@.len() != "theme"@.len() && "dashboard"@.len() != "config"@.len() && "dashboard"@.len() != "mounts"@.len() && "dashboard"@.len() != "logs"@.len() && "dashboard"@.len() != "settings"@.len() && "dashboard"@.len() != "q"@.len() && "dashboard"@.len() != "grep"@.len() && "dashboard"@.len() != "rescan"@.len() && "dashboard"@.len() != "deletion"@.len() && "dashboard"@.len() != "threads"@.len() && "dashboard"@.len() != "mode"@.len() && "dashboard"@.len() != "status"@.len() && "dashboard"@.len() != "quit"@.len() && "dashboard"@.len() != "h"@.len() && "dashboard"@.len() != "depth"@.len() && "dashboard"@.len() != "materialize"@.len() && "dashboard"@.len() != "cleaner"@.len() && "dashboard"@.len() != "dash"@.len() && "dashboard"@.len() != "dense"@.len() && "dashboard"@.len() != "limit"@.len() && "dashboard"@.len() != "top"@.len() && "dashboard"@.len() != "export"@.len() && "dashboard"@.len() != "open"@.len() && "dashboard"@.len() != "go"@.len());
    }
    reveal_strlit("dashboard");
    assert(ascii_lower("dashboard"@) =~= "dashboard"@);
    lemma_word_alone("dashboard"@);
}

pub(crate) proof fn lemma_meaning_alone_home()
    ensures
        command_spec("home"@) == CommandView::Dashboard,
{
    assert("home"@ != "reveal"@ && "home"@ != "volumes"@ && "home"@ != "deletion"@ && "home"@ != "dashboard"@ && "home"@ != "cd"@ && "home"@ != "grep"@ && "home"@ != "base"@ && "home"@ != "largest"@ && "home"@ != "pause"@ && "home"@ != "limit"@ && "home"@ != "go"@ && "home"@ != "rescan"@ && "home"@ != "open"@ && "home"@ != "cleaner"@ && "home"@ != "size"@ && "home"@ != "log"@ && "home"@ != "stats"@ && "home"@ != "force"@ && "home"@ != "unpause"@ && "home"@ != "dense"@ && "home"@ != "workers"@ && "home"@ != "finder"@ && "home"@ != "exit"@ && "home"@ != "resume"@ && "home"@ != "units"@ && "home"@ != "threads"@ && "home"@ != "scan"@ && "home"@ != "heaviest"@ && "home"@ != "rows"@ && "home"@ != "materialize"@ && "home"@ != "find"@ && "home"@ != "top"@ && "home"@ != "export"@ && "home"@ != "q"@ && "home"@ != "clean"@ && "home"@ != "filter"@ && "home"@ != "status"@ && "home"@ != "dump"@ && "home"@ != "h"@ && "home"@ != "?"@ && "home"@ != "settings"@ && "home"@ != "logs"@ && "home"@ != "config"@ && "home"@ != "dash"@ && "home"@ != "mode"@ && "home"@ != "trash"@ && "home"@ != "depth"@ && "home"@ != "theme"@ && "home"@ != "quit"@ && "home"@ != "help"@ && "home"@ != "goto"@ && "home"@ != "statistics"@ && "home"@ != "mounts"@ && "home"@ != "expand"@ && "home"@ != "refresh"@ && "home"@ != "delete"@) by {
        reveal_strlit("finder");
        reveal_strlit("expand");
        reveal_strlit("unpause");
        reveal_strlit("logs");
        reveal_strlit("exit");
        reveal_strlit("home");
        reveal_strlit("open");
        reveal_strlit("cd");
        reveal_strlit("rows");
        reveal_strlit("grep");
        reveal_strlit("cleaner");
        reveal_strlit("quit");
        reveal_strlit("clean");
        reveal_strlit("top");
        reveal_strlit("goto");
        reveal_strlit("theme");
        reveal_strlit("go");
        reveal_strlit("materialize");
        reveal_strlit("mounts");
        reveal_strlit("help");
        reveal_strlit("mode");
        reveal_strlit("refresh");
        reveal_strlit("volumes");
        reveal_strlit("threads");
        reveal_strlit("scan");
        reveal_strlit("delete");
        reveal_strlit("dash");
        reveal_strlit("status");
        reveal_strlit("size");
        reveal_strlit("base");
        reveal_strlit("workers");
        reveal_strlit("resume");
        reveal_strlit("dense");
        reveal_strlit("statistics");
        reveal_strlit("reveal");
        reveal_strlit("h");
        reveal_strlit("pause");
        reveal_strlit("deletion");
        reveal_strlit("dashboard");
        reveal_strlit("units");
        reveal_strlit("heaviest");
        reveal_strlit("depth");
        reveal_strlit("dump");
        reveal_strlit("settings");
        reveal_strlit("stats");
        reveal_strlit("trash");
        reveal_strlit("export");
        reveal_strlit("q");
        reveal_strlit("limit");
        reveal_strlit("config");
        reveal_strlit("find");
        reveal_strlit("?");
        reveal_strlit("force");
        reveal_strlit("log");
        reveal_strlit("rescan");
        reveal_strlit("filter");
        reveal_strlit("largest");
        assert("home"@.len() != "stats"@.len() && "home"@[0] != "size"@[0] && "home"@[0] != "goto"@[0] && "home"@.len() != "unpause"@.len() && "home"@.len() != "reveal"@.len() && "home"@.len() != "resume"@.len() && "home"@.len() != "threads"@.len() && "home"@[0] != "grep"@[0] && "home"@.len() != "filter"@.len() && "home"@.len() != "depth"@.len() && "home"@[0] != "open"@[0] && "home"@.len() != "h"@.len() && "home"@[0] != "scan"@[0] && "home"@[0] != "find"@[0] && "home"@[0] != "mode"@[0] && "home"@.len() != "rescan"@.len() && "home"@[0] != "dump"@[0] && "home"@.len() != "settings"@.len() && "home"@.len() != "mounts"@.len() && "home"@[0] != "exit"@[0] && "home"@.len() != "heaviest"@.len() && "home"@.len() != "?"@.len() && "home"@.len() != "expand"@.len() && "home"@.len() != "force"@.len() && "home"@.len() != "units"@.len() && "home"@.len() != "delete"@.len() && "home"@.len() != "clean"@.len() && "home"@.len() != "limit"@.len() && "home"@[1] != "help"@[1] && "home"@.len() != "status"@.len() && "home"@.len() != "statistics"@.len() && "home"@.len() != "theme"@.len() && "home"@.len() != "largest"@.len() && "home"@.len() != "materialize"@.len() && "home"@.len() != "workers"@.len() && "home"@.len() != "dashboard"@.len() && "home"@.len() != "q"@.len() && "home"@.len() != "finder"@.len() && "home"@.len() != "go"@.len() && "home"@.len() != "top"@.len() && "home"@.len() != "trash"@.len() && "home"@[0] != "logs"@[0] && "home"@.len() != "cd"@.len() && "home"@.len() != "refresh"@.len() && "home"@.len() != "log"@.len() && "home"@.len() != "config"@.len() && "home"@[0] != "rows"@[0] && "home"@.len() != "deletion"@.len() && "home"@.len() != "dense"@.len() && "home"@.len() != "pause"@.len() && "home"@[0] != "quit"@[0] && "home"@[0] != "base"@[0] && "home"@.len() != "export"@.len() && "home"@.len() != "cleaner"@.len() && "home"@.len() != "volumes"@.len() && "home"@[0] != "dash"@[0]);
    }
    reveal_strlit("home");
    assert(ascii_lower("home"@) =~= "home"@);
    lemma_word_alone("home"@);
}

pub(crate) proof fn lemma_meaning_alone_explore()
    ensures
        command_spec("explore"@) == CommandView::Explorer,
{
    assert("explore"@ != "delete"@ && "explore"@ != "rows"@ && "explore"@ != "rescan"@ && "explore"@ != "largest"@ && "explore"@ != "reveal"@ && "explore"@ != "log"@ && "explore"@ != "home"@ && "explore"@ != "export"@ && "explore"@ != "threads"@ && "explore"@ != "dense"@ && "explore"@ != "?"@ && "explore"@ != "find"@ && "explore"@ != "grep"@ && "explore"@ != "units"@ && "explore"@ != "resume"@ && "explore"@ != "statistics"@ && "explore"@ != "mounts"@ && "explore"@ != "force"@ && "explore"@ != "size"@ && "explore"@ != "clean"@ && "explore"@ != "help"@ && "explore"@ != "mode"@ && "explore"@ != "open"@ && "explore"@ != "expand"@ && "explore"@ != "dashboard"@ && "explore"@ != "exit"@ && "explore"@ != "depth"@ && "explore"@ != "stats"@ && "explore"@ != "trash"@ && "explore"@ != "base"@ && "explore"@ != "heaviest"@ && "explore"@ != "config"@ && "explore"@ != "volumes"@ && "explore"@ != "logs"@ && "explore"@ != "workers"@ && "explore"@ != "finder"@ && "explore"@ != "status"@ && "explore"@ != "top"@ && "explore"@ != "theme"@ && "explore"@ != "q"@ && "explore"@ != "pause"@ && "explore"@ != "quit"@ && "explore"@ != "limit"@ && "explore"@ != "goto"@ && "explore"@ != "unpause"@ && "explore"@ != "scan"@ && "explore"@ != "dump"@ && "explore"@ != "filter"@ && "explore"@ != "materialize"@ && "explore"@ != "go"@ && "explore"@ != "h"@ && "explore"@ != "dash"@ && "explore"@ != "settings"@ && "explore"@ != "deletion"@ && "explore"@ != "refresh"@ && "explore"@ != "cd"@ && "explore"@ != "cleaner"@) by {
        reveal_strlit("go");
        reveal_strlit("unpause");
        reveal_strlit("finder");
        reveal_strlit("find");
        reveal_strlit("logs");
        reveal_strlit("top");
        reveal_strlit("pause");
        reveal_strlit("clean");
        reveal_strlit("reveal");
        reveal_strlit("limit");
        reveal_strlit("heaviest");
        reveal_strlit("expand");
        reveal_strlit("mounts");
        reveal_strlit("threads");
        reveal_strlit("open");
        reveal_strlit("?");
        reveal_strlit("filter");
        reveal_strlit("workers");
        reveal_strlit("quit");
        reveal_strlit("depth");
        reveal_strlit("mode");
        reveal_strlit("cleaner");
        reveal_strlit("h");
        reveal_strlit("resume");
        reveal_strlit("q");
        reveal_strlit("theme");
        reveal_strlit("deletion");
        reveal_strlit("refresh");
        reveal_strlit("statistics");
        reveal_strlit("rows");
        reveal_strlit("base");
        reveal_strlit("rescan");
        reveal_strlit("dashboard");
        reveal_strlit("goto");
        reveal_strlit("force");
        reveal_strlit("dense");
        reveal_strlit("config");
        reveal_strlit("size");
        reveal_strlit("home");
        reveal_strlit("exit");
        reveal_strlit("cd");
        reveal_strlit("settings");
        reveal_strlit("help");
        reveal_strlit("materialize");
        reveal_strlit("stats");
        reveal_strlit("trash");
        reveal_strlit("explore");
        reveal_strlit("units");
        reveal_strlit("log");
        reveal_strlit("largest");
        reveal_strlit("volumes");
        reveal_strlit("delete");
        reveal_strlit("grep");
        reveal_strlit("status");
        reveal_strlit("scan");
        reveal_strlit("export");
        reveal_strlit("dump");
        reveal_strlit("dash");
        assert("explore"@.len() != "config"@.len() && "explore"@[0] != "threads"@[0] && "explore"@.len() != "mode"@.len() && "explore"@.len() != "rescan"@.len() && "explore"@.len() != "help"@.len() && "explore"@.len() != "base"@.len() && "explore"@.len() != "exit"@.len() && "explore"@.len() != "statistics"@.len() && "explore"@.len() != "status"@.len() && "explore"@[0] != "unpause"@[0] && "explore"@[0] != "workers"@[0] && "explore"@.len() != "dense"@.len() && "explore"@[0] != "volumes"@[0] && "explore"@.len() != "limit"@.len() && "explore"@.len() != "dashboard"@.len() && "explore"@.len() != "dash"@.len() && "explore"@.len() != "stats"@.len() && "explore"@.len() != "expand"@.len() && "explore"@.len() != "trash"@.len() && "explore"@.len() != "pause"@.len() && "explore"@.len() != "logs"@.len() && "explore"@.len() != "size"@.len() && "explore"@.len() != "materialize"@.len() && "explore"@.len() != "filter"@.len() && "explore"@.len() != "log"@.len() && "explore"@.len() != "theme"@.len() && "explore"@.len() != "cd"@.len() && "explore"@.len() != "force"@.len() && "explore"@.len() != "dump"@.len() && "explore"@.len() != "mounts"@.len() && "explore"@.len() != "goto"@.len() && "explore"@.len() != "reveal"@.len() && "explore"@.len() != "q"@.len() && "explore"@.len() != "open"@.len() && "explore"@.len() != "deletion"@.len() && "explore"@.len() != "scan"@.len() && "explore"@.len() != "finder"@.len() && "explore"@.len() != "export"@.len() && "explore"@[0] != "largest"@[0] && "explore"@[0] != "refresh"@[0] && "explore"@.len() != "grep"@.len() && "explore"@.len() != "quit"@.len() && "explore"@[0] != "cleaner"@[0] && "explore"@.len() != "settings"@.len() && "explore"@.len() != "go"@.len() && "explore"@.len() != "rows"@.len() && "explore"@.len() != "top"@.len() && "explore"@.len() != "heaviest"@.len() && "explore"@.len() != "delete"@.len() && "explore"@.len() != "find"@.len() && "explore"@.len() != "resume"@.len() && "explore"@.len() != "h"@.len() && "explore"@.len() != "home"@.len() && "explore"@.len() != "clean"@.len() && "explore"@.len() != "units"@.len() && "explore"@.len() != "?"@.len() && "explore"@.len() != "depth"@.len());
    }
    reveal_strlit("explore");
    assert(ascii_lower("explore"@) =~= "explore"@);
    lemma_word_alone("explore"@);
}

pub(crate) proof fn lemma_meaning_alone_explorer()
    ensures
        command_spec("explorer"@) == CommandView::Explorer,
{
    assert("explorer"@ != "heaviest"@ && "explorer"@ != "size"@ && "explorer"@ != "mounts"@ && "explorer"@ != "cd"@ && "explorer"@ != "quit"@ && "explorer"@ != "dashboard"@ && "explorer"@ != "materialize"@ && "explorer"@ != "settings"@ && "explorer"@ != "status"@ && "explorer"@ != "log"@ && "explorer"@ != "threads"@ && "explorer"@ != "?"@ && "explorer"@ != "filter"@ && "explorer"@ != "open"@ && "explorer"@ != "force"@ && "explorer"@ != "q"@ && "explorer"@ != "pause"@ && "explorer"@ != "go"@ && "explorer"@ != "dump"@ && "explorer"@ != "top"@ && "explorer"@ != "base"@ && "explorer"@ != "find"@ && "explorer"@ != "finder"@ && "explorer"@ != "dash"@ && "explorer"@ != "dense"@ && "explorer"@ != "unpause"@ && "explorer"@ != "explore"@ && "explorer"@ != "config"@ && "explorer"@ != "export"@ && "explorer"@ != "goto"@ && "explorer"@ != "theme"@ && "explorer"@ != "deletion"@ && "explorer"@ != "largest"@ && "explorer"@ != "statistics"@ && "explorer"@ != "mode"@ && "explorer"@ != "resume"@ && "explorer"@ != "clean"@ && "explorer"@ != "reveal"@ && "explorer"@ != "stats"@ && "explorer"@ != "units"@ && "explorer"@ != "exit"@ && "explorer"@ != "depth"@ && "explorer"@ != "workers"@ && "explorer"@ != "limit"@ && "explorer"@ != "volumes"@ && "explorer"@ != "trash"@ && "explorer"@ != "h"@ && "explorer"@ != "rows"@ && "explorer"@ != "expand"@ && "explorer"@ != "help"@ && "explorer"@ != "delete"@ && "explorer"@ != "scan"@ && "explorer"@ != "cleaner"@ && "explorer"@ != "grep"@ && "explorer"@ != "rescan"@ && "explorer"@ != "logs"@ && "explorer"@ != "refresh"@ && "explorer"@ != "home"@) by {
        reveal_strlit("stats");
        reveal_strlit("?");
        reveal_strlit("export");
        reveal_strlit("delete");
        reveal_strlit("reveal");
        reveal_strlit("threads");
        reveal_strlit("depth");
        reveal_strlit("dash");
        reveal_strlit("go");
        reveal_strlit("q");
        reveal_strlit("force");
        reveal_strlit("statistics");
        reveal_strlit("quit");
        reveal_strlit("unpause");
        reveal_strlit("mode");
        reveal_strlit("deletion");
        reveal_strlit("resume");
        reveal_strlit("explorer");
        reveal_strlit("clean");
        reveal_strlit("logs");
        reveal_strlit("settings");
        reveal_strlit("pause");
        reveal_strlit("log");
        reveal_strlit("cd");
        reveal_strlit("cleaner");
        reveal_strlit("volumes");
        reveal_strlit("help");
        reveal_strlit("theme");
        reveal_strlit("grep");
        reveal_strlit("h");
        reveal_strlit("expand");
        reveal_strlit("rescan");
        reveal_strlit("trash");
        reveal_strlit("top");
        reveal_strlit("explore");
        reveal_strlit("dump");
        reveal_strlit("workers");
        reveal_strlit("base");
        reveal_strlit("dashboard");
        reveal_strlit("open");
        reveal_strlit("rows");
        reveal_strlit("mounts");
        reveal_strlit("exit");
        reveal_strlit("dense");
        reveal_strlit("limit");
        reveal_strlit("finder");
        reveal_strlit("materialize");
        reveal_strlit("find");
        reveal_strlit("heaviest");
        reveal_strlit("config");
        reveal_strlit("largest");
        reveal_strlit("home");
        reveal_strlit("scan");
        reveal_strlit("size");
        reveal_strlit("filter");
        reveal_strlit("refresh");
        reveal_strlit("goto");
        reveal_strlit("units");
        reveal_strlit("status");
        assert("explorer"@.len() != "config"@.len() && "explorer"@.len() != "export"@.len() && "explorer"@.len() != "theme"@.len() && "explorer"@.len() != "rows"@.len() && "explorer"@.len() != "logs"@.len() && "explorer"@.len() != "scan"@.len() && "explorer"@.len() != "reveal"@.len() && "explorer"@[0] != "deletion"@[0] && "explorer"@.len() != "dump"@.len() && "explorer"@.len() != "trash"@.len() && "explorer"@.len() != "go"@.len() && "explorer"@.len() != "base"@.len() && "explorer"@.len() != "finder"@.len() && "explorer"@.len() != "top"@.len() && "explorer"@.len() != "clean"@.len() && "explorer"@.len() != "statistics"@.len() && "explorer"@.len() != "dashboard"@.len() && "explorer"@.len() != "unpause"@.len() && "explorer"@.len() != "cleaner"@.len() && "explorer"@.len() != "status"@.len() && "explorer"@.len() != "h"@.len() && "explorer"@.len() != "mode"@.len() && "explorer"@.len() != "dense"@.len() && "explorer"@.len() != "resume"@.len() && "explorer"@.len() != "threads"@.len() && "explorer"@.len() != "q"@.len() && "explorer"@.len() != "grep"@.len() && "explorer"@.len() != "rescan"@.len() && "explorer"@.len() != "?"@.len() && "explorer"@.len() != "mounts"@.len() && "explorer"@.len() != "dash"@.len() && "explorer"@.len() != "force"@.len() && "explorer"@.len() != "depth"@.len() && "explorer"@.len() != "exit"@.len() && "explorer"@.len() != "materialize"@.len() && "explorer"@.len() != "size"@.len() && "explorer"@.len() != "log"@.len() && "explorer"@.len() != "largest"@.len() && "explorer"@.len() != "expand"@.len() && "explorer"@[0] != "settings"@[0] && "explorer"@.len() != "units"@.len() && "explorer"@.len() != "open"@.len() && "explorer"@.len() != "cd"@.len() && "explorer"@.len() != "workers"@.len() && "explorer"@.len() != "goto"@.len() && "explorer"@.len() != "pause"@.len() && "explorer"@.len() != "delete"@.len() && "explorer"@[0] != "heaviest"@[0] && "explorer"@.len() != "refresh"@.len() && "explorer"@.len() != "limit"@.len() && "explorer"@.len() != "volumes"@.len() && "explorer"@.len() != "help"@.len() && "explorer"@.len() != "find"@.len() && "explorer"@.len() != "stats"@.len() && "explorer"@.len() != "quit"@.len() && "explorer"@.len() != "home"@.len() && "explorer"@.len() != "explore"@.len() && "explorer"@.len() != "filter"@.len());
    }
    reveal_strlit("explorer");
    assert(ascii_lower("explorer"@) =~= "explorer"@);
    lemma_word_alone("explorer"@);
}

pub(crate) proof fn lemma_meaning_alone_tree()
    ensures
        command_spec("tree"@) == CommandView::Explorer,
{
    assert("tree"@ != "volumes"@ && "tree"@ != "status"@ && "tree"@ != "h"@ && "tree"@ != "q"@ && "tree"@ != "threads"@ && "tree"@ != "find"@ && "tree"@ != "config"@ && "tree"@ != "exit"@ && "tree"@ != "resume"@ && "tree"@ != "reveal"@ && "tree"@ != "mode"@ && "tree"@ != "grep"@ && "tree"@ != "deletion"@ && "tree"@ != "size"@ && "tree"@ != "finder"@ && "tree"@ != "base"@ && "tree"@ != "largest"@ && "tree"@ != "clean"@ && "tree"@ != "?"@ && "tree"@ != "mounts"@ && "tree"@ != "logs"@ && "tree"@ != "log"@ && "tree"@ != "cd"@ && "tree"@ != "pause"@ && "tree"@ != "workers"@ && "tree"@ != "filter"@ && "tree"@ != "top"@ && "tree"@ != "explore"@ && "tree"@ != "home"@ && "tree"@ != "scan"@ && "tree"@ != "dump"@ && "tree"@ != "refresh"@ && "tree"@ != "settings"@ && "tree"@ != "expand"@ && "tree"@ != "theme"@ && "tree"@ != "quit"@ && "tree"@ != "export"@ && "tree"@ != "trash"@ && "tree"@ != "rescan"@ && "tree"@ != "help"@ && "tree"@ != "unpause"@ && "tree"@ != "force"@ && "tree"@ != "statistics"@ && "tree"@ != "go"@ && "tree"@ != "limit"@ && "tree"@ != "depth"@ && "tree"@ != "heaviest"@ && "tree"@ != "dashboard"@ && "tree"@ != "rows"@ && "tree"@ != "explorer"@ && "tree"@ != "dense"@ && "tree"@ != "stats"@ && "tree"@ != "materialize"@ && "tree"@ != "dash"@ && "tree"@ != "cleaner"@ && "tree"@ != "delete"@ && "tree"@ != "units"@ && "tree"@ != "open"@ && "tree"@ != "goto"@) by {
        reveal_strlit("settings");
        reveal_strlit("find");
        reveal_strlit("rescan");
        reveal_strlit("dump");
        reveal_strlit("status");
        reveal_strlit("dense");
        reveal_strlit("units");
        reveal_strlit("force");
        reveal_strlit("size");
        reveal_strlit("cd");
        reveal_strlit("reveal");
        reveal_strlit("goto");
        reveal_strlit("h");
        reveal_strlit("pause");
        reveal_strlit("config");
        reveal_strlit("materialize");
        reveal_strlit("finder");
        reveal_strlit("rows");
        reveal_strlit("limit");
        reveal_strlit("trash");
        reveal_strlit("exit");
        reveal_strlit("unpause");
        reveal_strlit("threads");
        reveal_strlit("stats");
        reveal_strlit("grep");
        reveal_strlit("heaviest");
        reveal_strlit("help");
        reveal_strlit("clean");
        reveal_strlit("largest");
        reveal_strlit("deletion");
        reveal_strlit("scan");
        reveal_strlit("workers");
        reveal_strlit("q");
        reveal_strlit("explore");
        reveal_strlit("theme");
        reveal_strlit("cleaner");
        reveal_strlit("tree");
        reveal_strlit("refresh");
        reveal_strlit("base");
        reveal_strlit("expand");
        reveal_strlit("volumes");
        reveal_strlit("filter");
        reveal_strlit("dashboard");
        reveal_strlit("mode");
        reveal_strlit("mounts");
        reveal_strlit("logs");
        reveal_strlit("quit");
        reveal_strlit("resume");
        reveal_strlit("top");
        reveal_strlit("go");
        reveal_strlit("?");
        reveal_strlit("explorer");
        reveal_strlit("export");
        reveal_strlit("log");
        reveal_strlit("depth");
        reveal_strlit("home");
        reveal_strlit("open");
        reveal_strlit("delete");
        reveal_strlit("dash");
        reveal_strlit("statistics");
        assert("tree"@[0] != "goto"@[0] && "tree"@.len() != "dense"@.len() && "tree"@[0] != "help"@[0] && "tree"@.len() != "?"@.len() && "tree"@.len() != "depth"@.len() && "tree"@.len() != "pause"@.len() && "tree"@.len() != "heaviest"@.len() && "tree"@[0] != "scan"@[0] && "tree"@.len() != "stats"@.len() && "tree"@.len() != "log"@.len() && "tree"@.len() != "cd"@.len() && "tree"@.len() != "resume"@.len() && "tree"@.len() != "trash"@.len() && "tree"@.len() != "statistics"@.len() && "tree"@.len() != "top"@.len() && "tree"@.len() != "refresh"@.len() && "tree"@.len() != "delete"@.len() && "tree"@.len() != "threads"@.len() && "tree"@.len() != "mounts"@.len() && "tree"@[0] != "dump"@[0] && "tree"@[0] != "dash"@[0] && "tree"@.len() != "explorer"@.len() && "tree"@.len() != "finder"@.len() && "tree"@[0] != "grep"@[0] && "tree"@.len() != "materialize"@.len() && "tree"@[0] != "open"@[0] && "tree"@[0] != "quit"@[0] && "tree"@.len() != "reveal"@.len() && "tree"@.len() != "export"@.len() && "tree"@.len() != "force"@.len() && "tree"@.len() != "workers"@.len() && "tree"@[0] != "size"@[0] && "tree"@[0] != "home"@[0] && "tree"@.len() != "go"@.len() && "tree"@.len() != "q"@.len() && "tree"@[0] != "logs"@[0] && "tree"@.len() != "limit"@.len() && "tree"@[0] != "rows"@[0] && "tree"@.len() != "rescan"@.len() && "tree"@.len() != "unpause"@.len() && "tree"@.len() != "volumes"@.len() && "tree"@[0] != "mode"@[0] && "tree"@.len() != "settings"@.len() && "tree"@.len() != "config"@.len() && "tree"@.len() != "cleaner"@.len() && "tree"@.len() != "h"@.len() && "tree"@[0] != "find"@[0] && "tree"@.len() != "deletion"@.len() && "tree"@.len() != "explore"@.len() && "tree"@.len() != "units"@.len() && "tree"@.len() != "clean"@.len() && "tree"@.len() != "dashboard"@.len() && "tree"@.len() != "largest"@.len() && "tree"@[0] != "exit"@[0] && "tree"@.len() != "theme"@.len() && "tree"@.len() != "expand"@.len() && "tree"@.len() != "filter"@.len() && "tree"@.len() != "status"@.len() && "tree"@[0] != "base"@[0]);
    }
    reveal_strlit("tree");
    assert(ascii_lower("tree"@) =~= "tree"@);
    lemma_word_alone("tree"@);
}

pub(crate) proof fn lemma_meaning_alone_unmark()
    ensures
        command_spec("unmark"@) == CommandView::ClearMarks,
{
    assert("unmark"@ != "theme"@ && "unmark"@ != "top"@ && "unmark"@ != "filter"@ && "unmark"@ != "deletion"@ && "unmark"@ != "statistics"@ && "unmark"@ != "explore"@ && "unmark"@ != "delete"@ && "unmark"@ != "reveal"@ && "unmark"@ != "cd"@ && "unmark"@ != "go"@ && "unmark"@ != "open"@ && "unmark"@ != "volumes"@ && "unmark"@ != "trash"@ && "unmark"@ != "grep"@ && "unmark"@ != "h"@ && "unmark"@ != "rescan"@ && "unmark"@ != "mode"@ && "unmark"@ != "tree"@ && "unmark"@ != "limit"@ && "unmark"@ != "export"@ && "unmark"@ != "unpause"@ && "unmark"@ != "mounts"@ && "unmark"@ != "base"@ && "unmark"@ != "goto"@ && "unmark"@ != "?"@ && "unmark"@ != "logs"@ && "unmark"@ != "refresh"@ && "unmark"@ != "clean"@ && "unmark"@ != "find"@ && "unmark"@ != "largest"@ && "unmark"@ != "rows"@ && "unmark"@ != "heaviest"@ && "unmark"@ != "resume"@ && "unmark"@ != "finder"@ && "unmark"@ != "size"@ && "unmark"@ != "dense"@ && "unmark"@ != "dashboard"@ && "unmark"@ != "materialize"@ && "unmark"@ != "units"@ && "unmark"@ != "dump"@ && "unmark"@ != "workers"@ && "unmark"@ != "quit"@ && "unmark"@ != "log"@ && "unmark"@ != "scan"@ && "unmark"@ != "status"@ && "unmark"@ != "exit"@ && "unmark"@ != "q"@ && "unmark"@ != "threads"@ && "unmark"@ != "pause"@ && "unmark"@ != "home"@ && "unmark"@ != "dash"@ && "unmark"@ != "stats"@ && "unmark"@ != "cleaner"@ && "unmark"@ != "explorer"@ && "unmark"@ != "help"@ && "unmark"@ != "expand"@ && "unmark"@ != "config"@ && "unmark"@ != "settings"@ && "unmark"@ != "force"@ && "unmark"@ != "depth"@) by {
        reveal_strlit("settings");
        reveal_strlit("theme");
        reveal_strlit("cd");
        reveal_strlit("dump");
        reveal_strlit("pause");
        reveal_strlit("dash");
        reveal_strlit("?");
        reveal_strlit("exit");
        reveal_strlit("home");
        reveal_strlit("mounts");
        reveal_strlit("export");
        reveal_strlit("dashboard");
        reveal_strlit("tree");
        reveal_strlit("force");
        reveal_strlit("rescan");
        reveal_strlit("clean");
        reveal_strlit("open");
        reveal_strlit("statistics");
        reveal_strlit("reveal");
        reveal_strlit("grep");
        reveal_strlit("expand");
        reveal_strlit("explorer");
        reveal_strlit("materialize");
        reveal_strlit("stats");
        reveal_strlit("threads");
        reveal_strlit("find");
        reveal_strlit("size");
        reveal_strlit("logs");
        reveal_strlit("go");
        reveal_strlit("filter");
        reveal_strlit("dense");
        reveal_strlit("h");
        reveal_strlit("deletion");
        reveal_strlit("mode");
        reveal_strlit("largest");
        reveal_strlit("base");
        reveal_strlit("top");
        reveal_strlit("units");
        reveal_strlit("volumes");
        reveal_strlit("unmark");
        reveal_strlit("trash");
        reveal_strlit("resume");
        reveal_strlit("explore");
        reveal_strlit("heaviest");
        reveal_strlit("scan");
        reveal_strlit("depth");
        reveal_strlit("q");
        reveal_strlit("goto");
        reveal_strlit("log");
        reveal_strlit("unpause");
        reveal_strlit("refresh");
        reveal_strlit("quit");
        reveal_strlit("help");
        reveal_strlit("delete");
        reveal_strlit("cleaner");
        reveal_strlit("config");
        reveal_strlit("rows");
        reveal_strlit("limit");
        reveal_strlit("status");
        reveal_strlit("finder");
        reveal_strlit("workers");
        assert("unmark"@.len() != "goto"@.len() && "unmark"@.len() != "deletion"@.len() && "unmark"@.len() != "dense"@.len() && "unmark"@.len() != "limit"@.len() && "unmark"@.len() != "workers"@.len() && "unmark"@.len() != "open"@.len() && "unmark"@.len() != "mode"@.len() && "unmark"@.len() != "exit"@.len() && "unmark"@.len() != "explore"@.len() && "unmark"@.len() != "home"@.len() && "unmark"@[0] != "status"@[0] && "unmark"@.len() != "dashboard"@.len() && "unmark"@[0] != "mounts"@[0] && "unmark"@.len() != "force"@.len() && "unmark"@.len() != "stats"@.len() && "unmark"@.len() != "refresh"@.len() && "unmark"@.len() != "materialize"@.len() && "unmark"@.len() != "tree"@.len() && "unmark"@.len() != "unpause"@.len() && "unmark"@[0] != "finder"@[0] && "unmark"@.len() != "theme"@.len() && "unmark"@.len() != "settings"@.len() && "unmark"@.len() != "logs"@.len() && "unmark"@.len() != "quit"@.len() && "unmark"@.len() != "help"@.len() && "unmark"@.len() != "volumes"@.len() && "unmark"@.len() != "cd"@.len() && "unmark"@[0] != "reveal"@[0] && "unmark"@.len() != "statistics"@.len() && "unmark"@.len() != "go"@.len() && "unmark"@.len() != "base"@.len() && "unmark"@.len() != "log"@.len() && "unmark"@.len() != "top"@.len() && "unmark"@.len() != "largest"@.len() && "unmark"@.len() != "rows"@.len() && "unmark"@.len() != "heaviest"@.len() && "unmark"@.len() != "depth"@.len() && "unmark"@.len() != "find"@.len() && "unmark"@.len() != "size"@.len() && "unmark"@.len() != "threads"@.len() && "unmark"@.len() != "q"@.len() && "unmark"@.len() != "pause"@.len() && "unmark"@.len() != "clean"@.len() && "unmark"@.len() != "trash"@.len() && "unmark"@[0] != "resume"@[0] && "unmark"@.len() != "grep"@.len() && "unmark"@.len() != "dump"@.len() && "unmark"@.len() != "units"@.len() && "unmark"@.len() != "h"@.len() && "unmark"@[0] != "filter"@[0] && "unmark"@.len() != "?"@.len() && "unmark"@[0] != "config"@[0] && "unmark"@[0] != "rescan"@[0] && "unmark"@.len() != "scan"@.len() && "unmark"@.len() != "dash"@.len() && "unmark"@[0] != "expand"@[0] && "unmark"@[0] != "export"@[0] && "unmark"@.len() != "explorer"@.len() && "unmark"@.len() != "cleaner"@.len() && "unmark"@[0] != "delete"@[0]);
    }
    reveal_strlit("unmark");
    assert(ascii_lower("unmark"@) =~= "unmark"@);
    lemma_word_alone("unmark"@);
}

pub(crate) proof fn lemma_meaning_alone_clear()
    ensures
        command_spec("clear"@) == CommandView::ClearMarks,
{
    assert("clear"@ != "config"@ && "clear"@ != "help"@ && "clear"@ != "home"@ && "clear"@ != "quit"@ && "clear"@ != "expand"@ && "clear"@ != "scan"@ && "clear"@ != "tree"@ && "clear"@ != "rescan"@ && "clear"@ != "statistics"@ && "clear"@ != "export"@ && "clear"@ != "workers"@ && "clear"@ != "dense"@ && "clear"@ != "?"@ && "clear"@ != "clean"@ && "clear"@ != "deletion"@ && "clear"@ != "q"@ && "clear"@ != "dump"@ && "clear"@ != "settings"@ && "clear"@ != "status"@ && "clear"@ != "mode"@ && "clear"@ != "resume"@ && "clear"@ != "rows"@ && "clear"@ != "dashboard"@ && "clear"@ != "stats"@ && "clear"@ != "theme"@ && "clear"@ != "delete"@ && "clear"@ != "cleaner"@ && "clear"@ != "finder"@ && "clear"@ != "trash"@ && "clear"@ != "go"@ && "clear"@ != "materialize"@ && "clear"@ != "explore"@ && "clear"@ != "heaviest"@ && "clear"@ != "volumes"@ && "clear"@ != "h"@ && "clear"@ != "depth"@ && "clear"@ != "refresh"@ && "clear"@ != "grep"@ && "clear"@ != "filter"@ && "clear"@ != "logs"@ && "clear"@ != "reveal"@ && "clear"@ != "largest"@ && "clear"@ != "goto"@ && "clear"@ != "exit"@ && "clear"@ != "cd"@ && "clear"@ != "dash"@ && "clear"@ != "find"@ && "clear"@ != "base"@ && "clear"@ != "size"@ && "clear"@ != "log"@ && "clear"@ != "pause"@ && "clear"@ != "unpause"@ && "clear"@ != "open"@ && "clear"@ != "threads"@ && "clear"@ != "explorer"@ && "clear"@ != "top"@ && "clear"@ != "limit"@ && "clear"@ != "mounts"@ && "clear"@ != "force"@ && "clear"@ != "unmark"@ && "clear"@ != "units"@) by {
        reveal_strlit("h");
        reveal_strlit("statistics");
        reveal_strlit("help");
        reveal_strlit("pause");
        reveal_strlit("stats");
        reveal_strlit("home");
        reveal_strlit("go");
        reveal_strlit("status");
        reveal_strlit("limit");
        reveal_strlit("cd");
        reveal_strlit("deletion");
        reveal_strlit("settings");
        reveal_strlit("?");
        reveal_strlit("open");
        reveal_strlit("mode");
        reveal_strlit("force");
        reveal_strlit("base");
        reveal_strlit("log");
        reveal_strlit("unmark");
        reveal_strlit("config");
        reveal_strlit("rescan");
        reveal_strlit("exit");
        reveal_strlit("logs");
        reveal_strlit("explore");
        reveal_strlit("dump");
        reveal_strlit("workers");
        reveal_strlit("expand");
        reveal_strlit("tree");
        reveal_strlit("depth");
        reveal_strlit("delete");
        reveal_strlit("cleaner");
        reveal_strlit("size");
        reveal_strlit("export");
        reveal_strlit("q");
        reveal_strlit("volumes");
        reveal_strlit("clear");
        reveal_strlit("rows");
        reveal_strlit("dense");
        reveal_strlit("mounts");
        reveal_strlit("unpause");
        reveal_strlit("largest");
        reveal_strlit("goto");
        reveal_strlit("heaviest");
        reveal_strlit("filter");
        reveal_strlit("resume");
        reveal_strlit("top");
        reveal_strlit("materialize");
        reveal_strlit("clean");
        reveal_strlit("dash");
        reveal_strlit("find");
        reveal_strlit("trash");
        reveal_strlit("quit");
        reveal_strlit("units");
        reveal_strlit("grep");
        reveal_strlit("explorer");
        reveal_strlit("scan");
        reveal_strlit("reveal");
        reveal_strlit("refresh");
        reveal_strlit("threads");
        reveal_strlit("theme");
        reveal_strlit("finder");
        reveal_strlit("dashboard");
        assert("clear"@.len() != "heaviest"@.len() && "clear"@.len() != "filter"@.len() && "clear"@.len() != "status"@.len() && "clear"@.len() != "q"@.len() && "clear"@.len() != "largest"@.len() && "clear"@[0] != "theme"@[0] && "clear"@.len() != "log"@.len() && "clear"@.len() != "dump"@.len() && "clear"@.len() != "dashboard"@.len() && "clear"@.len() != "materialize"@.len() && "clear"@.len() != "unpause"@.len() && "clear"@.len() != "scan"@.len() && "clear"@.len() != "threads"@.len() && "clear"@.len() != "mounts"@.len() && "clear"@[0] != "limit"@[0] && "clear"@[0] != "pause"@[0] && "clear"@.len() != "unmark"@.len() && "clear"@.len() != "go"@.len() && "clear"@.len() != "config"@.len() && "clear"@.len() != "explore"@.len() && "clear"@.len() != "tree"@.len() && "clear"@.len() != "rows"@.len() && "clear"@[4] != "clean"@[4] && "clear"@.len() != "rescan"@.len() && "clear"@.len() != "dash"@.len() && "clear"@.len() != "cleaner"@.len() && "clear"@.len() != "settings"@.len() && "clear"@.len() != "reveal"@.len() && "clear"@.len() != "volumes"@.len() && "clear"@.len() != "exit"@.len() && "clear"@.len() != "grep"@.len() && "clear"@.len() != "mode"@.len() && "clear"@.len() != "h"@.len() && "clear"@.len() != "logs"@.len() && "clear"@.len() != "cd"@.len() && "clear"@.len() != "delete"@.len() && "clear"@.len() != "deletion"@.len() && "clear"@[0] != "units"@[0] && "clear"@.len() != "base"@.len() && "clear"@.len() != "home"@.len() && "clear"@[0] != "stats"@[0] && "clear"@.len() != "export"@.len() && "clear"@.len() != "finder"@.len() && "clear"@[0] != "depth"@[0] && "clear"@.len() != "goto"@.len() && "clear"@.len() != "find"@.len() && "clear"@.len() != "?"@.len() && "clear"@.len() != "open"@.len() && "clear"@.len() != "statistics"@.len() && "clear"@.len() != "top"@.len() && "clear"@.len() != "refresh"@.len() && "clear"@.len() != "expand"@.len() && "clear"@.len() != "resume"@.len() && "clear"@[0] != "force"@[0] && "clear"@.len() != "help"@.len() && "clear"@[0] != "dense"@[0] && "clear"@.len() != "quit"@.len() && "clear"@.len() != "size"@.len() && "clear"@.len() != "explorer"@.len() && "clear"@.len() != "workers"@.len() && "clear"@[0] != "trash"@[0]);
    }
    reveal_strlit("clear");
    assert(ascii_lower("clear"@) =~= "clear"@);
    lemma_word_alone("clear"@);
}

pub(crate) proof fn lemma_meaning_config_save()
    ensures
        command_spec("config save"@) == CommandView::SaveConfig,
{
    assert("config"@ != "h"@ && "config"@ != "logs"@ && "config"@ != "stats"@ && "config"@ != "statistics"@ && "config"@ != "log"@ && "config"@ != "?"@ && "config"@ != "exit"@ && "config"@ != "status"@ && "config"@ != "q"@ && "config"@ != "quit"@ && "config"@ != "help"@) by {
        reveal_strlit("config");
        reveal_strlit("stats");
        reveal_strlit("log");
        reveal_strlit("q");
        reveal_strlit("statistics");
        reveal_strlit("?");
        reveal_strlit("status");
        reveal_strlit("logs");
        reveal_strlit("h");
        reveal_strlit("exit");
        reveal_strlit("quit");
        reveal_strlit("help");
        assert("config"@.len() != "stats"@.len() && "config"@.len() != "statistics"@.len() && "config"@.len() != "h"@.len() && "config"@.len() != "exit"@.len() && "config"@.len() != "?"@.len() && "config"@.len() != "q"@.len() && "config"@.len() != "quit"@.len() && "config"@.len() != "help"@.len() && "config"@.len() != "logs"@.len() && "config"@[0] != "status"@[0] && "config"@.len() != "log"@.len());
    }
    reveal_strlit("config");
    reveal_strlit("config save");
    reveal_strlit("save");
    reveal_strlit("save");
    reveal_strlit("edit");
    assert(ascii_lower("config"@) =~= "config"@);
    assert("config save"@ =~= "config"@ + seq![' '] + "save"@);
    assert(plain_argument("save"@));
    lemma_word_with_argument("config"@, "save"@);
}

pub(crate) proof fn lemma_meaning_config_edit()
    ensures
        command_spec("config edit"@) == CommandView::EditConfig,
{
    assert("config"@ != "h"@ && "config"@ != "logs"@ && "config"@ != "stats"@ && "config"@ != "statistics"@ && "config"@ != "log"@ && "config"@ != "?"@ && "config"@ != "exit"@ && "config"@ != "status"@ && "config"@ != "q"@ && "config"@ != "quit"@ && "config"@ != "help"@) by {
        reveal_strlit("config");
        reveal_strlit("stats");
        reveal_strlit("log");
        reveal_strlit("q");
        reveal_strlit("statistics");
        reveal_strlit("?");
        reveal_strlit("status");
        reveal_strlit("logs");
        reveal_strlit("h");
        reveal_strlit("exit");
        reveal_strlit("quit");
        reveal_strlit("help");
        assert("config"@.len() != "stats"@.len() && "config"@.len() != "statistics"@.len() && "config"@.len() != "h"@.len() && "config"@.len() != "exit"@.len() && "config"@.len() != "?"@.len() && "config"@.len() != "q"@.len() && "config"@.len() != "quit"@.len() && "config"@.len() != "help"@.len() && "config"@.len() != "logs"@.len() && "config"@[0] != "status"@[0] && "config"@.len() != "log"@.len());
    }
    reveal_strlit("config");
    reveal_strlit("save");
    reveal_strlit("config edit");
    reveal_strlit("edit");
    reveal_strlit("edit");
    assert("edit"@[0] != "save"@[0]);
    assert(ascii_lower("config"@) =~= "config"@);
    assert("config edit"@ =~= "config"@ + seq![' '] + "edit"@);
    assert(plain_argument("edit"@));
    lemma_word_with_argument("config"@, "edit"@);
}

pub(crate) proof fn lemma_meaning_config_reload()
    ensures
        command_spec("config reload"@) == CommandView::ReloadConfig,
{
    assert("config"@ != "h"@ && "config"@ != "logs"@ && "config"@ != "stats"@ && "config"@ != "statistics"@ && "config"@ != "log"@ && "config"@ != "?"@ && "config"@ != "exit"@ && "config"@ != "status"@ && "config"@ != "q"@ && "config"@ != "quit"@ && "config"@ != "help"@) by {
        reveal_strlit("config");
        reveal_strlit("stats");
        reveal_strlit("log");
        reveal_strlit("q");
        reveal_strlit("statistics");
        reveal_strlit("?");
        reveal_strlit("status");
        reveal_strlit("logs");
        reveal_strlit("h");
        reveal_strlit("exit");
        reveal_strlit("quit");
        reveal_strlit("help");
        assert("config"@.len() != "stats"@.len() && "config"@.len() != "statistics"@.len() && "config"@.len() != "h"@.len() && "config"@.len() != "exit"@.len() && "config"@.len() != "?"@.len() && "config"@.len() != "q"@.len() && "config"@.len() != "quit"@.len() && "config"@.len() != "help"@.len() && "config"@.len() != "logs"@.len() && "config"@[0] != "status"@[0] && "config"@.len() != "log"@.len());
    }
    reveal_strlit("config");
    reveal_strlit("config reload");
    reveal_strlit("reload");
    reveal_strlit("save");
    reveal_strlit("edit");
    assert("reload"@.len() != "save"@.len());
    assert("reload"@.len() != "edit"@.len());
    assert(ascii_lower("config"@) =~= "config"@);
    assert("config reload"@ =~= "config"@ + seq![' '] + "reload"@);
    assert(plain_argument("reload"@));
    lemma_word_with_argument("config"@, "reload"@);
}

pub(crate) proof fn lemma_meaning_alone_limit()
    ensures
        command_spec("limit"@) == CommandView::Unknown("limit needs a positive number"@),
{
    assert("limit"@ != "rescan"@ && "limit"@ != "quit"@ && "limit"@ != "h"@ && "limit"@ != "scan"@ && "limit"@ != "exit"@ && "limit"@ != "log"@ && "limit"@ != "?"@ && "limit"@ != "config"@ && "limit"@ != "status"@ && "limit"@ != "theme"@ && "limit"@ != "logs"@ && "limit"@ != "expand"@ && "limit"@ != "goto"@ && "limit"@ != "statistics"@ && "limit"@ != "help"@ && "limit"@ != "go"@ && "limit"@ != "open"@ && "limit"@ != "cd"@ && "limit"@ != "stats"@ && "limit"@ != "force"@ && "limit"@ != "refresh"@ && "limit"@ != "q"@ && "limit"@ != "settings"@) by {
        reveal_strlit("open");
        reveal_strlit("goto");
        reveal_strlit("?");
        reveal_strlit("rescan");
        reveal_strlit("settings");
        reveal_strlit("log");
        reveal_strlit("quit");
        reveal_strlit("config");
        reveal_strlit("statistics");
        reveal_strlit("go");
        reveal_strlit("scan");
        reveal_strlit("refresh");
        reveal_strlit("theme");
        reveal_strlit("help");
        reveal_strlit("limit");
        reveal_strlit("status");
        reveal_strlit("stats");
        reveal_strlit("force");
        reveal_strlit("logs");
        reveal_strlit("expand");
        reveal_strlit("cd");
        reveal_strlit("q");
        reveal_strlit("exit");
        reveal_strlit("h");
        assert("limit"@[0] != "force"@[0] && "limit"@.len() != "statistics"@.len() && "limit"@.len() != "exit"@.len() && "limit"@[0] != "theme"@[0] && "limit"@.len() != "config"@.len() && "limit"@.len() != "scan"@.len() && "limit"@.len() != "cd"@.len() && "limit"@.len() != "help"@.len() && "limit"@.len() != "go"@.len() && "limit"@[0] != "stats"@[0] && "limit"@.len() != "quit"@.len() && "limit"@.len() != "h"@.len() && "limit"@.len() != "q"@.len() && "limit"@.len() != "?"@.len() && "limit"@.len() != "status"@.len() && "limit"@.len() != "goto"@.len() && "limit"@.len() != "settings"@.len() && "limit"@.len() != "refresh"@.len() && "limit"@.len() != "logs"@.len() && "limit"@.len() != "expand"@.len() && "limit"@.len() != "rescan"@.len() && "limit"@.len() != "open"@.len() && "limit"@.len() != "log"@.len());
    }
    reveal_strlit("limit");
    assert(ascii_lower("limit"@) =~= "limit"@);
    lemma_word_alone("limit"@);
    assert(number_argument(None) is None);
}

pub(crate) proof fn lemma_meaning_alone_rows()
    ensures
        command_spec("rows"@) == CommandView::Unknown("limit needs a positive number"@),
{
    assert("rows"@ != "stats"@ && "rows"@ != "open"@ && "rows"@ != "go"@ && "rows"@ != "log"@ && "rows"@ != "q"@ && "rows"@ != "quit"@ && "rows"@ != "logs"@ && "rows"@ != "goto"@ && "rows"@ != "settings"@ && "rows"@ != "refresh"@ && "rows"@ != "exit"@ && "rows"@ != "limit"@ && "rows"@ != "rescan"@ && "rows"@ != "config"@ && "rows"@ != "?"@ && "rows"@ != "force"@ && "rows"@ != "help"@ && "rows"@ != "status"@ && "rows"@ != "expand"@ && "rows"@ != "theme"@ && "rows"@ != "scan"@ && "rows"@ != "cd"@ && "rows"@ != "h"@ && "rows"@ != "statistics"@) by {
        reveal_strlit("h");
        reveal_strlit("config");
        reveal_strlit("statistics");
        reveal_strlit("rescan");
        reveal_strlit("exit");
        reveal_strlit("cd");
        reveal_strlit("?");
        reveal_strlit("goto");
        reveal_strlit("logs");
        reveal_strlit("status");
        reveal_strlit("log");
        reveal_strlit("rows");
        reveal_strlit("expand");
        reveal_strlit("limit");
        reveal_strlit("go");
        reveal_strlit("refresh");
        reveal_strlit("stats");
        reveal_strlit("theme");
        reveal_strlit("help");
        reveal_strlit("settings");
        reveal_strlit("scan");
        reveal_strlit("force");
        reveal_strlit("q");
        reveal_strlit("quit");
        reveal_strlit("open");
        assert("rows"@[0] != "goto"@[0] && "rows"@.len() != "status"@.len() && "rows"@.len() != "go"@.len() && "rows"@.len() != "cd"@.len() && "rows"@.len() != "h"@.len() && "rows"@.len() != "statistics"@.len() && "rows"@.len() != "q"@.len() && "rows"@[0] != "open"@[0] && "rows"@.len() != "force"@.len() && "rows"@[0] != "logs"@[0] && "rows"@.len() != "refresh"@.len() && "rows"@.len() != "?"@.len() && "rows"@.len() != "log"@.len() && "rows"@.len() != "limit"@.len() && "rows"@[0] != "help"@[0] && "rows"@[0] != "scan"@[0] && "rows"@.len() != "config"@.len() && "rows"@.len() != "settings"@.len() && "rows"@[0] != "quit"@[0] && "rows"@.len() != "stats"@.len() && "rows"@.len() != "rescan"@.len() && "rows"@.len() != "expand"@.len() && "rows"@.len() != "theme"@.len() && "rows"@[0] != "exit"@[0]);
    }
    reveal_strlit("rows");
    assert(ascii_lower("rows"@) =~= "rows"@);
    lemma_word_alone("rows"@);
    assert(number_argument(None) is None);
}

pub(crate) proof fn lemma_meaning_alone_threads()
    ensures
        command_spec("threads"@) == CommandView::Unknown("threads needs a positive number"@),
{
    assert("threads"@ != "h"@ && "threads"@ != "help"@ && "threads"@ != "stats"@ && "threads"@ != "open"@ && "threads"@ != "logs"@ && "threads"@ != "scan"@ && "threads"@ != "status"@ && "threads"@ != "cd"@ && "threads"@ != "config"@ && "threads"@ != "?"@ && "threads"@ != "quit"@ && "threads"@ != "force"@ && "threads"@ != "rescan"@ && "threads"@ != "statistics"@ && "threads"@ != "expand"@ && "threads"@ != "limit"@ && "threads"@ != "settings"@ && "threads"@ != "log"@ && "threads"@ != "theme"@ && "threads"@ != "exit"@ && "threads"@ != "rows"@ && "threads"@ != "goto"@ && "threads"@ != "refresh"@ && "threads"@ != "go"@ && "threads"@ != "q"@) by {
        reveal_strlit("cd");
        reveal_strlit("expand");
        reveal_strlit("stats");
        reveal_strlit("scan");
        reveal_strlit("config");
        reveal_strlit("refresh");
        reveal_strlit("logs");
        reveal_strlit("q");
        reveal_strlit("statistics");
        reveal_strlit("h");
        reveal_strlit("force");
        reveal_strlit("log");
        reveal_strlit("?");
        reveal_strlit("threads");
        reveal_strlit("rescan");
        reveal_strlit("goto");
        reveal_strlit("status");
        reveal_strlit("quit");
        reveal_strlit("rows");
        reveal_strlit("settings");
        reveal_strlit("help");
        reveal_strlit("go");
        reveal_strlit("theme");
        reveal_strlit("limit");
        reveal_strlit("exit");
        reveal_strlit("open");
        assert("threads"@.len() != "theme"@.len() && "threads"@.len() != "limit"@.len() && "threads"@.len() != "exit"@.len() && "threads"@.len() != "force"@.len() && "threads"@.len() != "?"@.len() && "threads"@.len() != "quit"@.len() && "threads"@.len() != "config"@.len() && "threads"@.len() != "settings"@.len() && "threads"@.len() != "stats"@.len() && "threads"@.len() != "h"@.len() && "threads"@.len() != "log"@.len() && "threads"@.len() != "help"@.len() && "threads"@.len() != "go"@.len() && "threads"@.len() != "scan"@.len() && "threads"@.len() != "cd"@.len() && "threads"@.len() != "open"@.len() && "threads"@[0] != "refresh"@[0] && "threads"@.len() != "expand"@.len() && "threads"@.len() != "logs"@.len() && "threads"@.len() != "rows"@.len() && "threads"@.len() != "q"@.len() && "threads"@.len() != "rescan"@.len() && "threads"@.len() != "goto"@.len() && "threads"@.len() != "statistics"@.len() && "threads"@.len() != "status"@.len());
    }
    reveal_strlit("threads");
    assert(ascii_lower("threads"@) =~= "threads"@);
    lemma_word_alone("threads"@);
    assert(number_argument(None) is None);
}

pub(crate) proof fn lemma_meaning_alone_workers()
    ensures
        command_spec("workers"@) == CommandView::Unknown("threads needs a positive number"@),
{
    assert("workers"@ != "statistics"@ && "workers"@ != "refresh"@ && "workers"@ != "settings"@ && "workers"@ != "expand"@ && "workers"@ != "log"@ && "workers"@ != "q"@ && "workers"@ != "status"@ && "workers"@ != "force"@ && "workers"@ != "rows"@ && "workers"@ != "scan"@ && "workers"@ != "limit"@ && "workers"@ != "open"@ && "workers"@ != "goto"@ && "workers"@ != "?"@ && "workers"@ != "h"@ && "workers"@ != "go"@ && "workers"@ != "stats"@ && "workers"@ != "quit"@ && "workers"@ != "logs"@ && "workers"@ != "theme"@ && "workers"@ != "cd"@ && "workers"@ != "exit"@ && "workers"@ != "threads"@ && "workers"@ != "help"@ && "workers"@ != "rescan"@ && "workers"@ != "config"@) by {
        reveal_strlit("threads");
        reveal_strlit("rescan");
        reveal_strlit("scan");
        reveal_strlit("rows");
        reveal_strlit("status");
        reveal_strlit("limit");
        reveal_strlit("workers");
        reveal_strlit("stats");
        reveal_strlit("logs");
        reveal_strlit("?");
        reveal_strlit("open");
        reveal_strlit("help");
        reveal_strlit("goto");
        reveal_strlit("theme");
        reveal_strlit("cd");
        reveal_strlit("refresh");
        reveal_strlit("q");
        reveal_strlit("quit");
        reveal_strlit("h");
        reveal_strlit("expand");
        reveal_strlit("exit");
        reveal_strlit("config");
        reveal_strlit("settings");
        reveal_strlit("statistics");
        reveal_strlit("force");
        reveal_strlit("log");
        reveal_strlit("go");
        assert("workers"@.len() != "rescan"@.len() && "workers"@.len() != "config"@.len() && "workers"@.len() != "theme"@.len() && "workers"@.len() != "goto"@.len() && "workers"@.len() != "rows"@.len() && "workers"@.len() != "statistics"@.len() && "workers"@.len() != "exit"@.len() && "workers"@.len() != "quit"@.len() && "workers"@.len() != "help"@.len() && "workers"@.len() != "?"@.len() && "workers"@.len() != "settings"@.len() && "workers"@.len() != "stats"@.len() && "workers"@.len() != "go"@.len() && "workers"@.len() != "h"@.len() && "workers"@.len() != "force"@.len() && "workers"@.len() != "status"@.len() && "workers"@.len() != "limit"@.len() && "workers"@.len() != "logs"@.len() && "workers"@.len() != "open"@.len() && "workers"@.len() != "expand"@.len() && "workers"@.len() != "scan"@.len() && "workers"@.len() != "q"@.len() && "workers"@.len() != "cd"@.len() && "workers"@[0] != "threads"@[0] && "workers"@[0] != "refresh"@[0] && "workers"@.len() != "log"@.len());
    }
    reveal_strlit("workers");
    assert(ascii_lower("workers"@) =~= "workers"@);
    lemma_word_alone("workers"@);
    assert(number_argument(None) is None);
}

pub(crate) proof fn lemma_meaning_alone_dense()
    ensures
        command_spec("dense"@) == CommandView::Unknown("dense needs a number of at least 100"@),
{
    assert("dense"@ != "open"@ && "dense"@ != "scan"@ && "dense"@ != "statistics"@ && "dense"@ != "help"@ && "dense"@ != "rescan"@ && "dense"@ != "refresh"@ && "dense"@ != "stats"@ && "dense"@ != "workers"@ && "dense"@ != "config"@ && "dense"@ != "status"@ && "dense"@ != "limit"@ && "dense"@ != "exit"@ && "dense"@ != "theme"@ && "dense"@ != "quit"@ && "dense"@ != "cd"@ && "dense"@ != "h"@ && "dense"@ != "settings"@ && "dense"@ != "rows"@ && "dense"@ != "threads"@ && "dense"@ != "force"@ && "dense"@ != "?"@ && "dense"@ != "log"@ && "dense"@ != "logs"@ && "dense"@ != "expand"@ && "dense"@ != "goto"@ && "dense"@ != "go"@ && "dense"@ != "q"@) by {
        reveal_strlit("log");
        reveal_strlit("statistics");
        reveal_strlit("workers");
        reveal_strlit("open");
        reveal_strlit("theme");
        reveal_strlit("q");
        reveal_strlit("help");
        reveal_strlit("go");
        reveal_strlit("logs");
        reveal_strlit("dense");
        reveal_strlit("force");
        reveal_strlit("expand");
        reveal_strlit("exit");
        reveal_strlit("limit");
        reveal_strlit("h");
        reveal_strlit("rows");
        reveal_strlit("rescan");
        reveal_strlit("scan");
        reveal_strlit("goto");
        reveal_strlit("cd");
        reveal_strlit("settings");
        reveal_strlit("stats");
        reveal_strlit("refresh");
        reveal_strlit("?");
        reveal_strlit("status");
        reveal_strlit("config");
        reveal_strlit("threads");
        reveal_strlit("quit");
        assert("dense"@.len() != "open"@.len() && "dense"@.len() != "go"@.len() && "dense"@.len() != "refresh"@.len() && "dense"@.len() != "config"@.len() && "dense"@.len() != "log"@.len() && "dense"@.len() != "statistics"@.len() && "dense"@[0] != "force"@[0] && "dense"@.len() != "quit"@.len() && "dense"@.len() != "status"@.len() && "dense"@.len() != "help"@.len() && "dense"@.len() != "goto"@.len() && "dense"@[0] != "limit"@[0] && "dense"@.len() != "cd"@.len() && "dense"@[0] != "stats"@[0] && "dense"@.len() != "h"@.len() && "dense"@.len() != "rows"@.len() && "dense"@.len() != "settings"@.len() && "dense"@.len() != "threads"@.len() && "dense"@.len() != "q"@.len() && "dense"@.len() != "scan"@.len() && "dense"@.len() != "logs"@.len() && "dense"@.len() != "exit"@.len() && "dense"@.len() != "?"@.len() && "dense"@[0] != "theme"@[0] && "dense"@.len() != "expand"@.len() && "dense"@.len() != "rescan"@.len() && "dense"@.len() != "workers"@.len());
    }
    reveal_strlit("dense");
    assert(ascii_lower("dense"@) =~= "dense"@);
    lemma_word_alone("dense"@);
    assert(number_argument(None) is None);
}

pub(crate) proof fn lemma_meaning_alone_depth()
    ensures
        command_spec("depth"@) == CommandView::Unknown("depth needs a number between 1 and 64"@),
{
    assert("depth"@ != "rows"@ && "depth"@ != "exit"@ && "depth"@ != "dense"@ && "depth"@ != "config"@ && "depth"@ != "status"@ && "depth"@ != "log"@ && "depth"@ != "limit"@ && "depth"@ != "?"@ && "depth"@ != "threads"@ && "depth"@ != "force"@ && "depth"@ != "logs"@ && "depth"@ != "cd"@ && "depth"@ != "h"@ && "depth"@ != "theme"@ && "depth"@ != "expand"@ && "depth"@ != "stats"@ && "depth"@ != "workers"@ && "depth"@ != "goto"@ && "depth"@ != "settings"@ && "depth"@ != "go"@ && "depth"@ != "scan"@ && "depth"@ != "quit"@ && "depth"@ != "q"@ && "depth"@ != "statistics"@ && "depth"@ != "rescan"@ && "depth"@ != "help"@ && "depth"@ != "refresh"@ && "depth"@ != "open"@) by {
        reveal_strlit("cd");
        reveal_strlit("open");
        reveal_strlit("settings");
        reveal_strlit("limit");
        reveal_strlit("h");
        reveal_strlit("config");
        reveal_strlit("logs");
        reveal_strlit("q");
        reveal_strlit("workers");
        reveal_strlit("refresh");
        reveal_strlit("force");
        reveal_strlit("help");
        reveal_strlit("depth");
        reveal_strlit("quit");
        reveal_strlit("stats");
        reveal_strlit("theme");
        reveal_strlit("dense");
        reveal_strlit("threads");
        reveal_strlit("exit");
        reveal_strlit("go");
        reveal_strlit("log");
        reveal_strlit("rescan");
        reveal_strlit("status");
        reveal_strlit("statistics");
        reveal_strlit("rows");
        reveal_strlit("scan");
        reveal_strlit("expand");
        reveal_strlit("goto");
        reveal_strlit("?");
        assert("depth"@.len() != "config"@.len() && "depth"@.len() != "statistics"@.len() && "depth"@.len() != "logs"@.len() && "depth"@.len() != "quit"@.len() && "depth"@.len() != "expand"@.len() && "depth"@.len() != "threads"@.len() && "depth"@.len() != "rescan"@.len() && "depth"@[2] != "dense"@[2] && "depth"@.len() != "go"@.len() && "depth"@.len() != "settings"@.len() && "depth"@.len() != "scan"@.len() && "depth"@.len() != "exit"@.len() && "depth"@.len() != "help"@.len() && "depth"@[0] != "limit"@[0] && "depth"@.len() != "goto"@.len() && "depth"@.len() != "refresh"@.len() && "depth"@[0] != "stats"@[0] && "depth"@.len() != "open"@.len() && "depth"@.len() != "h"@.len() && "depth"@[0] != "theme"@[0] && "depth"@.len() != "?"@.len() && "depth"@.len() != "log"@.len() && "depth"@.len() != "workers"@.len() && "depth"@.len() != "status"@.len() && "depth"@.len() != "rows"@.len() && "depth"@[0] != "force"@[0] && "depth"@.len() != "q"@.len() && "depth"@.len() != "cd"@.len());
    }
    reveal_strlit("depth");
    assert(ascii_lower("depth"@) =~= "depth"@);
    lemma_word_alone("depth"@);
    assert(number_argument(None) is None);
}

pub(crate) proof fn lemma_meaning_alone_materialize()
    ensures
        command_spec("materialize"@) == CommandView::Unknown("depth needs a number between 1 and 64"@),
{
    assert("materialize"@ != "settings"@ && "materialize"@ != "limit"@ && "materialize"@ != "workers"@ && "materialize"@ != "logs"@ && "materialize"@ != "goto"@ && "materialize"@ != "refresh"@ && "materialize"@ != "depth"@ && "materialize"@ != "threads"@ && "materialize"@ != "cd"@ && "materialize"@ != "theme"@ && "materialize"@ != "h"@ && "materialize"@ != "dense"@ && "materialize"@ != "scan"@ && "materialize"@ != "q"@ && "materialize"@ != "status"@ && "materialize"@ != "statistics"@ && "materialize"@ != "quit"@ && "materialize"@ != "go"@ && "materialize"@ != "stats"@ && "materialize"@ != "expand"@ && "materialize"@ != "open"@ && "materialize"@ != "exit"@ && "materialize"@ != "rows"@ && "materialize"@ != "force"@ && "materialize"@ != "help"@ && "materialize"@ != "log"@ && "materialize"@ != "config"@ && "materialize"@ != "?"@ && "materialize"@ != "rescan"@) by {
        reveal_strlit("limit");
        reveal_strlit("settings");
        reveal_strlit("expand");
        reveal_strlit("materialize");
        reveal_strlit("exit");
        reveal_strlit("rows");
        reveal_strlit("workers");
        reveal_strlit("?");
        reveal_strlit("log");
        reveal_strlit("goto");
        reveal_strlit("quit");
        reveal_strlit("config");
        reveal_strlit("status");
        reveal_strlit("h");
        reveal_strlit("force");
        reveal_strlit("stats");
        reveal_strlit("go");
        reveal_strlit("scan");
        reveal_strlit("q");
        reveal_strlit("cd");
        reveal_strlit("dense");
        reveal_strlit("help");
        reveal_strlit("logs");
        reveal_strlit("open");
        reveal_strlit("statistics");
        reveal_strlit("depth");
        reveal_strlit("refresh");
        reveal_strlit("rescan");
        reveal_strlit("theme");
        reveal_strlit("threads");
        assert("materialize"@.len() != "statistics"@.len() && "materialize"@.len() != "q"@.len() && "materialize"@.len() != "rows"@.len() && "materialize"@.len() != "force"@.len() && "materialize"@.len() != "scan"@.len() && "materialize"@.len() != "depth"@.len() && "materialize"@.len() != "go"@.len() && "materialize"@.len() != "refresh"@.len() && "materialize"@.len() != "workers"@.len() && "materialize"@.len() != "?"@.len() && "materialize"@.len() != "rescan"@.len() && "materialize"@.len() != "expand"@.len() && "materialize"@.len() != "stats"@.len() && "materialize"@.len() != "logs"@.len() && "materialize"@.len() != "config"@.len() && "materialize"@.len() != "log"@.len() && "materialize"@.len() != "cd"@.len() && "materialize"@.len() != "threads"@.len() && "materialize"@.len() != "status"@.len() && "materialize"@.len() != "settings"@.len() && "materialize"@.len() != "theme"@.len() && "materialize"@.len() != "dense"@.len() && "materialize"@.len() != "goto"@.len() && "materialize"@.len() != "h"@.len() && "materialize"@.len() != "help"@.len() && "materialize"@.len() != "quit"@.len() && "materialize"@.len() != "exit"@.len() && "materialize"@.len() != "limit"@.len() && "materialize"@.len() != "open"@.len());
    }
    reveal_strlit("materialize");
    assert(ascii_lower("materialize"@) =~= "materialize"@);
    lemma_word_alone("materialize"@);
    assert(number_argument(None) is None);
}

/// What each command word means on its own: the words that quit, show help, the log, the
/// statistics or the configuration file, open the settings, list the palettes, rescan,
/// expand, pause or resume the scanner, ask for the row limit, threads, dense threshold or
/// depth they set, look for the heaviest files, reveal, list the
/// mounts, clear the filter, switch screens or clear the marks; and that the words that
/// need an argument say so.
pub proof fn lemma_commands_alone()
    ensures
        command_spec("q"@) == CommandView::Quit,
        command_spec("quit"@) == CommandView::Quit,
        command_spec("exit"@) == CommandView::Quit,
        command_spec("h"@) == CommandView::Help,
        command_spec("help"@) == CommandView::Help,
        command_spec("?"@) == CommandView::Help,
        command_spec("log"@) == CommandView::ShowLog,
        command_spec("logs"@) == CommandView::ShowLog,
        command_spec("stats"@) == CommandView::ShowStatistics,
        command_spec("statistics"@) == CommandView::ShowStatistics,
        command_spec("status"@) == CommandView::ShowStatistics,
        command_spec("config"@) == CommandView::ShowConfigPath,
        command_spec("settings"@) == CommandView::Settings,
        command_spec("theme"@) == CommandView::Theme(None),
        command_spec("goto"@) == CommandView::Unknown("goto needs a path"@),
        command_spec("cd"@) == CommandView::Unknown("cd needs a path"@),
        command_spec("go"@) == CommandView::Unknown("go needs a path"@),
        command_spec("scan"@) == CommandView::Unknown("scan needs a path"@),
        command_spec("open"@) == CommandView::Unknown("open needs a path"@),
        command_spec("rescan"@) == CommandView::Rescan,
        command_spec("refresh"@) == CommandView::Rescan,
        command_spec("expand"@) == CommandView::ExpandDense,
        command_spec("force"@) == CommandView::ExpandDense,
        command_spec("pause"@) == CommandView::PauseBackground,
        command_spec("resume"@) == CommandView::ResumeBackground,
        command_spec("unpause"@) == CommandView::ResumeBackground,
        command_spec("mode"@) == CommandView::Unknown("mode needs `allocated` or `apparent`"@),
        command_spec("size"@) == CommandView::Unknown("mode needs `allocated` or `apparent`"@),
        command_spec("base"@) == CommandView::Unknown("base needs `decimal` or `binary`"@),
        command_spec("units"@) == CommandView::Unknown("base needs `decimal` or `binary`"@),
        command_spec("top"@) == CommandView::HeaviestFiles(None),
        command_spec("heaviest"@) == CommandView::HeaviestFiles(None),
        command_spec("largest"@) == CommandView::HeaviestFiles(None),
        command_spec("reveal"@) == CommandView::Reveal,
        command_spec("finder"@) == CommandView::Reveal,
        command_spec("mounts"@) == CommandView::ListMounts,
        command_spec("volumes"@) == CommandView::ListMounts,
        command_spec("trash"@) == CommandView::Unknown("trash needs `on` or `off`"@),
        command_spec("delete"@) == CommandView::Unknown("trash needs `on` or `off`"@),
        command_spec("deletion"@) == CommandView::Unknown("trash needs `on` or `off`"@),
        command_spec("filter"@) == CommandView::Filter(None),
        command_spec("find"@) == CommandView::Filter(None),
        command_spec("grep"@) == CommandView::Filter(None),
        command_spec("export"@) == CommandView::Unknown("export needs a file path"@),
        command_spec("dump"@) == CommandView::Unknown("export needs a file path"@),
        command_spec("clean"@) == CommandView::Cleaner,
        command_spec("cleaner"@) == CommandView::Cleaner,
        command_spec("dash"@) == CommandView::Dashboard,
        command_spec("dashboard"@) == CommandView::Dashboard,
        command_spec("home"@) == CommandView::Dashboard,
        command_spec("explore"@) == CommandView::Explorer,
        command_spec("explorer"@) == CommandView::Explorer,
        command_spec("tree"@) == CommandView::Explorer,
        command_spec("unmark"@) == CommandView::ClearMarks,
        command_spec("clear"@) == CommandView::ClearMarks,
        command_spec("limit"@) == CommandView::Unknown("limit needs a positive number"@),
        command_spec("rows"@) == CommandView::Unknown("limit needs a positive number"@),
        command_spec("threads"@) == CommandView::Unknown("threads needs a positive number"@),
        command_spec("workers"@) == CommandView::Unknown("threads needs a positive number"@),
        command_spec("dense"@) == CommandView::Unknown("dense needs a number of at least 100"@),
        command_spec("depth"@) == CommandView::Unknown("depth needs a number between 1 and 64"@),
        command_spec("materialize"@) == CommandView::Unknown("depth needs a number between 1 and 64"@),
{
    lemma_meaning_alone_q();
    lemma_meaning_alone_quit();
    lemma_meaning_alone_exit();
    lemma_meaning_alone_h();
    lemma_meaning_alone_help();
    lemma_meaning_alone_question();
    lemma_meaning_alone_log();
    lemma_meaning_alone_logs();
    lemma_meaning_alone_stats();
    lemma_meaning_alone_statistics();
    lemma_meaning_alone_status();
    lemma_meaning_alone_config();
    lemma_meaning_alone_settings();
    lemma_meaning_alone_theme();
    lemma_meaning_alone_goto();
    lemma_meaning_alone_cd();
    lemma_meaning_alone_go();
    lemma_meaning_alone_scan();
    lemma_meaning_alone_open();
    lemma_meaning_alone_rescan();
    lemma_meaning_alone_refresh();
    lemma_meaning_alone_expand();
    lemma_meaning_alone_force();
    lemma_meaning_alone_pause();
    lemma_meaning_alone_resume();
    lemma_meaning_alone_unpause();
    lemma_meaning_alone_mode();
    lemma_meaning_alone_size();
    lemma_meaning_alone_base();
    lemma_meaning_alone_units();
    lemma_meaning_alone_top();
    lemma_meaning_alone_heaviest();
    lemma_meaning_alone_largest();
    lemma_meaning_alone_reveal();
    lemma_meaning_alone_finder();
    lemma_meaning_alone_mounts();
    lemma_meaning_alone_volumes();
    lemma_meaning_alone_trash();
    lemma_meaning_alone_delete();
    lemma_meaning_alone_deletion();
    lemma_meaning_alone_filter();
    lemma_meaning_alone_find();
    lemma_meaning_alone_grep();
    lemma_meaning_alone_export();
    lemma_meaning_alone_dump();
    lemma_meaning_alone_clean();
    lemma_meaning_alone_cleaner();
    lemma_meaning_alone_dash();
    lemma_meaning_alone_dashboard();
    lemma_meaning_alone_home();
    lemma_meaning_alone_explore();
    lemma_meaning_alone_explorer();
    lemma_meaning_alone_tree();
    lemma_meaning_alone_unmark();
    lemma_meaning_alone_clear();
    lemma_meaning_alone_limit();
    lemma_meaning_alone_rows();
    lemma_meaning_alone_threads();
    lemma_meaning_alone_workers();
    lemma_meaning_alone_dense();
    lemma_meaning_alone_depth();
    lemma_meaning_alone_materialize();
}

/// What each command word means followed by a space and an argument: `:theme`, `:mode`,
/// `:base`, `:trash`, `:filter` and `:export` (and their aliases) take it as the palette,
/// the size mode, the unit base, the deletion mode (the last three in lower case), the
/// filter and the file; `:config save`, `:config edit` and `:config reload` write, open and
/// read the configuration file.
pub proof fn lemma_commands_with_argument(p: Seq<char>)
    ensures
        plain_argument(p) ==> command_spec("theme "@ + p) == CommandView::Theme(Some(p)),
        plain_argument(p) ==> command_spec("mode "@ + p) == CommandView::SetSizeMode(ascii_lower(p)),
        plain_argument(p) ==> command_spec("size "@ + p) == CommandView::SetSizeMode(ascii_lower(p)),
        plain_argument(p) ==> command_spec("base "@ + p) == CommandView::SetSizeBase(ascii_lower(p)),
        plain_argument(p) ==> command_spec("units "@ + p) == CommandView::SetSizeBase(ascii_lower(p)),
        plain_argument(p) ==> command_spec("trash "@ + p) == CommandView::SetDeletionMode(ascii_lower(p)),
        plain_argument(p) ==> command_spec("delete "@ + p) == CommandView::SetDeletionMode(ascii_lower(p)),
        plain_argument(p) ==> command_spec("deletion "@ + p) == CommandView::SetDeletionMode(ascii_lower(p)),
        plain_argument(p) ==> command_spec("filter "@ + p) == CommandView::Filter(Some(p)),
        plain_argument(p) ==> command_spec("find "@ + p) == CommandView::Filter(Some(p)),
        plain_argument(p) ==> command_spec("grep "@ + p) == CommandView::Filter(Some(p)),
        plain_argument(p) ==> command_spec("export "@ + p) == CommandView::Export(p),
        plain_argument(p) ==> command_spec("dump "@ + p) == CommandView::Export(p),
        command_spec("config save"@) == CommandView::SaveConfig,
        command_spec("config edit"@) == CommandView::EditConfig,
        command_spec("config reload"@) == CommandView::ReloadConfig,
{
    lemma_meaning_with_argument_theme(p);
    lemma_meaning_with_argument_mode(p);
    lemma_meaning_with_argument_size(p);
    lemma_meaning_with_argument_base(p);
    lemma_meaning_with_argument_units(p);
    lemma_meaning_with_argument_trash(p);
    lemma_meaning_with_argument_delete(p);
    lemma_meaning_with_argument_deletion(p);
    lemma_meaning_with_argument_filter(p);
    lemma_meaning_with_argument_find(p);
    lemma_meaning_with_argument_grep(p);
    lemma_meaning_with_argument_export(p);
    lemma_meaning_with_argument_dump(p);
    lemma_meaning_config_save();
    lemma_meaning_config_edit();
    lemma_meaning_config_reload();
}

/// The command words that come before `goto` in the table are none of its aliases.
proof fn lemma_goto_word(alias: Seq<char>, path: Seq<char>)
    requires
        alias == "goto"@ || alias == "cd"@ || alias == "go"@ || alias == "scan"@ || alias
            == "open"@,
        plain_argument(path),
    ensures
        command_spec(alias + " "@ + path) == CommandView::GoTo(path),
{
    reveal_strlit(" ");
    assert(alias.len() > 0 && alias[0] != ':' && ascii_lower(alias) =~= alias && forall|k: int|
        0 <= k < alias.len() ==> !is_ws(#[trigger] alias[k])) by {
        reveal_strlit("cd");
        reveal_strlit("scan");
        reveal_strlit("open");
        reveal_strlit("go");
        reveal_strlit("goto");
    }
    lemma_words_with_argument(alias, path);
    assert(alias + " "@ + path =~= alias + seq![' '] + path);
    assert(command_words(alias + " "@ + path) == (alias, Some(path)));
    assert(alias != "q"@ && alias != "quit"@ && alias != "exit"@ && alias != "h"@ && alias
        != "help"@ && alias != "?"@ && alias != "log"@ && alias != "logs"@ && alias != "stats"@
        && alias != "statistics"@ && alias != "status"@ && alias != "config"@ && alias
        != "settings"@ && alias != "theme"@) by {
        reveal_strlit("?");
        reveal_strlit("cd");
        reveal_strlit("theme");
        reveal_strlit("config");
        reveal_strlit("log");
        reveal_strlit("h");
        reveal_strlit("scan");
        reveal_strlit("open");
        reveal_strlit("go");
        reveal_strlit("goto");
        reveal_strlit("help");
        reveal_strlit("q");
        reveal_strlit("statistics");
        reveal_strlit("settings");
        reveal_strlit("logs");
        reveal_strlit("stats");
        reveal_strlit("status");
        reveal_strlit("quit");
        reveal_strlit("exit");
    }
}

/// `:goto` and its aliases open the directory given: for each of `goto`, `cd`, `go`, `scan`
/// and `open`, followed by a space and a path, the command is to go to that path, with or
/// without the leading `:`, so every alias means what `goto` means.
pub proof fn lemma_goto_aliases(alias: Seq<char>, path: Seq<char>)
    requires
        alias == "goto"@ || alias == "cd"@ || alias == "go"@ || alias == "scan"@ || alias
            == "open"@,
        plain_argument(path),
    ensures
        command_spec(alias + " "@ + path) == CommandView::GoTo(path),
        command_spec(":"@ + alias + " "@ + path) == CommandView::GoTo(path),
        command_spec(alias + " "@ + path) == command_spec("goto "@ + path),
{
    lemma_goto_word(alias, path);
    lemma_goto_word("goto"@, path);
    reveal_strlit(" ");
    reveal_strlit("goto ");
    reveal_strlit(":");
    reveal_strlit("goto");
    assert("goto "@ + path =~= "goto"@ + " "@ + path);
    let line = alias + " "@ + path;
    assert(alias.len() > 0 && !is_ws(alias[0])) by {
        reveal_strlit("cd");
        reveal_strlit("scan");
        reveal_strlit("open");
        reveal_strlit("go");
    }
    assert(line[0] == alias[0]);
    lemma_colon_is_optional(line);
    assert(":"@ + alias + " "@ + path =~= seq![':'] + line);
}

/// The command word is read in any case: two lines whose command words differ only in the
/// case of their ASCII letters mean the same command (for a word followed by nothing or by
/// whitespace and the argument).
pub proof fn lemma_command_word_any_case(m: Seq<char>, n: Seq<char>, r: Seq<char>)
    requires
        m.len() > 0,
        ascii_lower(m) == ascii_lower(n),
        forall|k: int| 0 <= k < m.len() ==> !is_ws(#[trigger] m[k]),
        forall|k: int| 0 <= k < n.len() ==> !is_ws(#[trigger] n[k]),
        r.len() == 0 || is_ws(r[0]),
    ensures
        command_spec(m + r) == command_spec(n + r),
    decreases m.len(),
{
    assert(n.len() == ascii_lower(n).len());
    assert(m.len() == ascii_lower(m).len());
    assert(ascii_lower(m)[0] == ascii_lower(n)[0]);
    assert(ascii_lower(m)[0] == crate::text::lower_char(m[0]));
    assert(ascii_lower(n)[0] == crate::text::lower_char(n[0]));
    if m[0] != ':' {
        assert(n[0] != ':');
        lemma_words_of_word_then_space(m, r);
        lemma_words_of_word_then_space(n, r);
    } else {
        assert(n[0] == ':');
        if m.len() == 1 {
            assert(n =~= m) by {
                assert(n.len() == 1);
            }
        } else {
            let m1 = m.drop_first();
            let n1 = n.drop_first();
            assert(ascii_lower(m1) =~= ascii_lower(m).drop_first());
            assert(ascii_lower(n1) =~= ascii_lower(n).drop_first());
            assert forall|k: int| 0 <= k < m1.len() implies !is_ws(#[trigger] m1[k]) by {
                assert(m1[k] == m[k + 1]);
            }
            assert forall|k: int| 0 <= k < n1.len() implies !is_ws(#[trigger] n1[k]) by {
                assert(n1[k] == n[k + 1]);
            }
            assert(m + r =~= seq![':'] + (m1 + r));
            assert(n + r =~= seq![':'] + (n1 + r));
            assert((m1 + r)[0] == m1[0]);
            assert(!is_ws(m1[0]));
            lemma_colon_is_optional(m1 + r);
            assert(n1.len() > 0);
            assert((n1 + r)[0] == n1[0]);
            assert(!is_ws(n1[0]));
            lemma_colon_is_optional(n1 + r);
            lemma_command_word_any_case(m1, n1, r);
        }
    }
}

} // verus!
