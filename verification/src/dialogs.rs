//! Modal dialogs, the actions they guard, and the status line.

use std::time::Instant;

use vstd::prelude::*;

use crate::clock::{
    at_or_after, later_by, not_before, now, seconds, shifted, span_of_seconds,
};
use crate::keys::Key;
use crate::model::{CandidateId, CleaningPlan, DeletionItem, DeletionPlan};
use crate::text::{
    ascii_lower, chars_of, is_ws, lower_char, lower_chars, push_char, string_of, trim, trim_chars,
    trim_end, trim_start,
};

verus! {

/// What a confirmation runs.
#[derive(Clone, Debug)]
pub enum PendingAction {
    Delete(DeletionPlan),
    Clean(CleaningPlan),
    ElevateDelete(Vec<DeletionItem>),
    ElevateClean { whole: Vec<String>, contents: Vec<String>, candidates: Vec<CandidateId> },
    /// Open the configuration file in `$EDITOR` with the interface suspended.
    EditConfigFile,
    /// Write the preferences and leave.
    SaveAndQuit,
    /// Go back to the default preferences (in memory; `s` persists them).
    ResetSettings,
    Quit,
}

/// How a dialog is confirmed.
#[derive(Clone, Debug)]
pub enum Confirmation {
    /// Any of `y`/`Enter` confirms.
    YesKey,
    /// The user has to type a word and press Enter.
    TypedWord { expected: String, typed: String },
    /// `y` runs the action, `n` quits without saving, Esc stays in the program.
    SaveOrDiscard,
}

/// A question before an action.
#[derive(Clone, Debug)]
pub struct ConfirmDialog {
    pub title: String,
    pub lines: Vec<String>,
    pub confirmation: Confirmation,
    pub action: PendingAction,
    pub dangerous: bool,
}

/// Whether a typed confirmation is the expected word: surrounding whitespace does not
/// count, nor does ASCII case.
pub open spec fn word_matches(expected: Seq<char>, typed: Seq<char>) -> bool {
    ascii_lower(trim(typed)) == ascii_lower(expected)
}

impl ConfirmDialog {
    /// Whether Enter may run the action: always, unless a word has to be typed, in which case
    /// the typed text (trimmed) has to be that word in any ASCII case.
    pub fn typed_word_matches(&self) -> (matches: bool)
        ensures
            matches == (match self.confirmation {
                Confirmation::TypedWord { expected, typed } => word_matches(expected@, typed@),
                _ => true,
            }),
    {
        match &self.confirmation {
            Confirmation::YesKey | Confirmation::SaveOrDiscard => true,
            Confirmation::TypedWord { expected, typed } => {
                let typed_chars = chars_of(typed.as_str());
                let trimmed = trim_chars(typed_chars.as_slice());
                let left = lower_chars(trimmed.as_slice());
                let expected_chars = chars_of(expected.as_str());
                let right = lower_chars(expected_chars.as_slice());
                crate::text::chars_eq(left.as_slice(), right.as_slice())
            },
        }
    }
}

/// How serious a message is.
#[derive(Clone, Copy, Debug, PartialEq, Eq, Structural)]
pub enum Severity {
    Info,
    Success,
    Warning,
    Error,
}

/// A message in a box.
#[derive(Clone, Debug)]
pub struct MessageDialog {
    pub title: String,
    pub lines: Vec<String>,
    pub severity: Severity,
}

/// What is drawn over the current screen.
#[derive(Clone, Debug)]
pub enum Overlay {
    Help,
    Log,
    /// The preferences popup (`:settings`). Keeps focus until Esc.
    Settings,
    Confirm(ConfirmDialog),
    Message(MessageDialog),
}

/// Seconds a status line stays.
pub const STATUS_SECONDS: u64 = 6;

/// Until when a status line shown at `moment` stays: six seconds on (or `moment` itself,
/// where the clock cannot represent that instant).
pub open spec fn shown_until(moment: Instant) -> Instant {
    match shifted(moment, span_of_seconds(STATUS_SECONDS)) {
        Some(later) => later,
        None => moment,
    }
}

/// The line at the bottom, shown until `until`.
#[derive(Clone, Debug)]
pub struct StatusMessage {
    pub text: String,
    pub severity: Severity,
    pub until: Instant,
}

impl StatusMessage {
    /// A status line shown for six seconds from now (until now, on a clock that cannot
    /// represent an instant six seconds on).
    pub fn new(text: String, severity: Severity) -> (message: StatusMessage)
        ensures
            message.text == text,
            message.severity == severity,
            exists|moment: Instant| message.until == #[trigger] shown_until(moment),
    {
        StatusMessage::shown_at(text, severity, now())
    }

    /// A status line shown at `moment`, for six seconds.
    pub fn shown_at(text: String, severity: Severity, moment: Instant) -> (message: StatusMessage)
        ensures
            message.text == text,
            message.severity == severity,
            message.until == shown_until(moment),
    {
        let until = match later_by(moment, seconds(STATUS_SECONDS)) {
            Some(later) => later,
            None => moment,
        };
        StatusMessage { text, severity, until }
    }

    /// Whether its time is over: whether the moment the clock is read is `until` or later.
    pub fn is_expired(&self) -> (expired: bool)
        ensures
            exists|moment: Instant| expired == #[trigger] at_or_after(moment, self.until),
    {
        self.expired_at(now())
    }

    /// Whether its time is over at `moment`: whether `moment` is `until` or later.
    pub fn expired_at(&self, moment: Instant) -> (expired: bool)
        ensures
            expired == at_or_after(moment, self.until),
    {
        not_before(moment, self.until)
    }
}

// ---------------------------------------------------------------------------------------
// Answering a dialog
// ---------------------------------------------------------------------------------------

/// What a key press on an overlay asks for.
#[derive(Clone, Debug)]
pub enum DialogOutcome {
    /// Nothing beyond what happened to the overlay.
    Nothing,
    /// The question was turned down: the status line says so.
    Cancelled,
    /// Run this action.
    Perform(PendingAction),
}

/// Whether `key` is the character `c` in either case.
pub open spec fn is_letter(key: Key, lower: char, upper: char) -> bool {
    key == Key::Char(lower) || key == Key::Char(upper)
}

/// The text typed into a dialog after `key`.
pub open spec fn typed_after(typed: Seq<char>, key: Key) -> Seq<char> {
    match key {
        Key::Char(c) => typed.push(c),
        Key::Backspace => if typed.len() > 0 {
            typed.drop_last()
        } else {
            typed
        },
        _ => typed,
    }
}

/// The overlay and outcome after `key` on a confirmation dialog: Esc turns the question
/// down (on a save-or-discard question, that is staying in the program); Enter runs the action once the word asked for
/// is typed; `y` runs it and `n` turns it down when a key answers; on a save-or-discard
/// question `y` runs the action and `n` leaves without saving; any other key edits the word
/// being typed, and the dialog stays.
pub open spec fn confirm_answer(dialog: ConfirmDialog, key: Key) -> (Option<ConfirmDialog>, int) {
    match dialog.confirmation {
        Confirmation::YesKey => if key == Key::Esc || is_letter(key, 'n', 'N') {
            (None, 1)
        } else if key == Key::Enter || is_letter(key, 'y', 'Y') {
            (None, 2)
        } else {
            (Some(dialog), 0)
        },
        Confirmation::SaveOrDiscard => if key == Key::Esc {
            (None, 1)
        } else if key == Key::Enter || is_letter(key, 'y', 'Y') {
            (None, 2)
        } else if is_letter(key, 'n', 'N') {
            (None, 3)
        } else {
            (Some(dialog), 0)
        },
        Confirmation::TypedWord { expected, typed } => if key == Key::Esc {
            (None, 1)
        } else if key == Key::Enter {
            if word_matches(expected@, typed@) {
                (None, 2)
            } else {
                (Some(dialog), 0)
            }
        } else {
            (Some(dialog), 0)
        },
    }
}

/// On the question asked before quitting with unsaved preferences, Enter and `y` both run
/// the dialog's own action (saving, then quitting), `n` quits without saving, Esc stays in
/// the program, and any other key leaves the question open. On a question answered by a
/// key, Enter and `y` run the action and Esc and `n` turn it down. On a question that asks
/// for a typed word, only Esc turns it down and only Enter can run the action.
pub proof fn lemma_question_keys(dialog: ConfirmDialog, key: Key)
    ensures
        dialog.confirmation is SaveOrDiscard ==> {
            &&& confirm_answer(dialog, Key::Enter) == confirm_answer(dialog, Key::Char('y'))
            &&& (key == Key::Enter || key == Key::Char('y') || key == Key::Char('Y'))
                <==> confirm_answer(dialog, key) == (None::<ConfirmDialog>, 2int)
            &&& (key == Key::Char('n') || key == Key::Char('N')) <==> confirm_answer(dialog, key)
                == (None::<ConfirmDialog>, 3int)
            &&& key == Key::Esc <==> confirm_answer(dialog, key) == (None::<ConfirmDialog>, 1int)
        },
        dialog.confirmation is YesKey ==> {
            &&& (key == Key::Enter || key == Key::Char('y') || key == Key::Char('Y'))
                <==> confirm_answer(dialog, key) == (None::<ConfirmDialog>, 2int)
            &&& (key == Key::Esc || key == Key::Char('n') || key == Key::Char('N'))
                <==> confirm_answer(dialog, key) == (None::<ConfirmDialog>, 1int)
        },
        dialog.confirmation is TypedWord ==> {
            &&& key == Key::Esc <==> confirm_answer(dialog, key) == (None::<ConfirmDialog>, 1int)
            &&& confirm_answer(dialog, key).1 == 2 ==> key == Key::Enter
            &&& confirm_answer(dialog, key).1 != 3
        },
{
}

/// Lower-casing a character keeps whether it is whitespace.
proof fn lemma_lower_keeps_space(c: char)
    ensures
        is_ws(lower_char(c)) == is_ws(c),
        lower_char(lower_char(c)) == lower_char(c),
{
}

proof fn lemma_trim_start_lower(t: Seq<char>)
    ensures
        trim_start(ascii_lower(t)) == ascii_lower(trim_start(t)),
    decreases t.len(),
{
    if t.len() > 0 {
        lemma_lower_keeps_space(t[0]);
        assert(ascii_lower(t)[0] == lower_char(t[0]));
        if is_ws(t[0]) {
            assert(ascii_lower(t).drop_first() =~= ascii_lower(t.drop_first()));
            lemma_trim_start_lower(t.drop_first());
        }
    } else {
        assert(ascii_lower(t) =~= t);
    }
}

proof fn lemma_trim_end_lower(t: Seq<char>)
    ensures
        trim_end(ascii_lower(t)) == ascii_lower(trim_end(t)),
    decreases t.len(),
{
    if t.len() > 0 {
        lemma_lower_keeps_space(t.last());
        assert(ascii_lower(t).last() == lower_char(t.last()));
        if is_ws(t.last()) {
            assert(ascii_lower(t).drop_last() =~= ascii_lower(t.drop_last()));
            lemma_trim_end_lower(t.drop_last());
        }
    } else {
        assert(ascii_lower(t) =~= t);
    }
}

proof fn lemma_lower_twice(t: Seq<char>)
    ensures
        ascii_lower(ascii_lower(t)) == ascii_lower(t),
{
    assert forall|i: int| 0 <= i < t.len() implies ascii_lower(ascii_lower(t))[i] == ascii_lower(
        t,
    )[i] by {
        lemma_lower_keeps_space(t[i]);
    }
    assert(ascii_lower(ascii_lower(t)) =~= ascii_lower(t));
}

proof fn lemma_trim_start_twice(t: Seq<char>)
    ensures
        trim_start(trim_start(t)) == trim_start(t),
        trim_start(t).len() > 0 ==> !is_ws(trim_start(t)[0]),
    decreases t.len(),
{
    if t.len() > 0 && is_ws(t[0]) {
        lemma_trim_start_twice(t.drop_first());
    }
}

proof fn lemma_trim_end_twice(t: Seq<char>)
    ensures
        trim_end(trim_end(t)) == trim_end(t),
        trim_end(t).len() > 0 ==> !is_ws(trim_end(t).last()),
        trim_end(t).len() <= t.len(),
        trim_end(t).len() > 0 ==> trim_end(t)[0] == t[0],
        trim_end(t) == t.take(trim_end(t).len() as int),
    decreases t.len(),
{
    if t.len() > 0 && is_ws(t.last()) {
        lemma_trim_end_twice(t.drop_last());
        assert(t.drop_last().take(trim_end(t).len() as int) =~= t.take(trim_end(t).len() as int));
    } else {
        assert(t.take(t.len() as int) =~= t);
    }
}

/// Trimming twice is trimming once.
proof fn lemma_trim_twice(t: Seq<char>)
    ensures
        trim(trim(t)) == trim(t),
{
    let u = trim_start(t);
    lemma_trim_start_twice(t);
    lemma_trim_end_twice(u);
    let v = trim_end(u);
    if v.len() > 0 {
        assert(!is_ws(v[0]));
    }
    assert(trim_start(v) == v);
}

/// How a typed confirmation word is compared: neither the case of its ASCII letters nor
/// the whitespace around it counts, so lower-casing or trimming what was typed never
/// changes the answer, and the expected word typed as it is always matches.
pub proof fn lemma_typed_word_ignores_case_and_space(expected: Seq<char>, typed: Seq<char>)
    ensures
        word_matches(expected, ascii_lower(typed)) == word_matches(expected, typed),
        word_matches(expected, trim(typed)) == word_matches(expected, typed),
        trim(expected) == expected ==> word_matches(expected, expected),
        word_matches(expected, typed) ==> word_matches(ascii_lower(expected), typed),
{
    lemma_trim_start_lower(typed);
    let u = trim_start(typed);
    lemma_trim_end_lower(u);
    assert(trim(ascii_lower(typed)) == ascii_lower(trim(typed)));
    lemma_lower_twice(trim(typed));
    lemma_trim_twice(typed);
    lemma_lower_twice(expected);
}

fn remove_last(text: &String) -> (shorter: String)
    ensures
        shorter@ == (if text@.len() > 0 {
            text@.drop_last()
        } else {
            text@
        }),
{
    let chars = chars_of(text.as_str());
    if chars.len() == 0 {
        return string_of(chars.as_slice());
    }
    let last = chars.len() - 1;
    let kept = crate::text::slice_chars(chars.as_slice(), 0, last);
    assert(kept@ =~= text@.drop_last());
    string_of(kept.as_slice())
}

/// Answers `overlay` with `key`. An overlay without a question (help, log, a message)
/// closes on any key; the preferences popup is left as it is, for its own keys. A question
/// is answered as [`confirm_answer`] says, the typed word edited in place.
pub fn answer_overlay(overlay: Overlay, key: Key) -> (result: (Option<Overlay>, DialogOutcome))
    ensures
        match overlay {
            Overlay::Help | Overlay::Log | Overlay::Message(_) => result.0 is None
                && result.1 is Nothing,
            Overlay::Settings => result.0 == Some(Overlay::Settings) && result.1 is Nothing,
            Overlay::Confirm(dialog) => {
                let (kept, answer) = confirm_answer(dialog, key);
                &&& answer == 0 ==> {
                    &&& result.1 is Nothing
                    &&& result.0 matches Some(Overlay::Confirm(next))
                    &&& next.title == dialog.title
                    &&& next.lines == dialog.lines
                    &&& next.action == dialog.action
                    &&& next.dangerous == dialog.dangerous
                    &&& match dialog.confirmation {
                        Confirmation::TypedWord { expected, typed } => next.confirmation
                            matches Confirmation::TypedWord { expected: e, typed: t } && e
                            == expected && t@ == typed_after(typed@, key),
                        _ => next.confirmation == dialog.confirmation,
                    }
                }
                &&& answer == 1 ==> result.0 is None && result.1 is Cancelled
                &&& answer == 2 ==> result.0 is None && result.1 == DialogOutcome::Perform(
                    dialog.action,
                )
                &&& answer == 3 ==> result.0 is None && result.1 == DialogOutcome::Perform(
                    PendingAction::Quit,
                )
                &&& dialog.confirmation is SaveOrDiscard ==> {
                    &&& (key == Key::Enter || key == Key::Char('y') || key == Key::Char('Y'))
                        ==> result == (None::<Overlay>, DialogOutcome::Perform(dialog.action))
                    &&& (key == Key::Char('n') || key == Key::Char('N')) ==> result == (
                        None::<Overlay>,
                        DialogOutcome::Perform(PendingAction::Quit),
                    )
                    &&& key == Key::Esc ==> result == (None::<Overlay>, DialogOutcome::Cancelled)
                }
            },
        },
{
    match overlay {
        Overlay::Help | Overlay::Log | Overlay::Message(_) => (None, DialogOutcome::Nothing),
        Overlay::Settings => (Some(Overlay::Settings), DialogOutcome::Nothing),
        Overlay::Confirm(dialog) => {
            let yes = key == Key::Char('y') || key == Key::Char('Y');
            let no = key == Key::Char('n') || key == Key::Char('N');
            match dialog.confirmation {
                Confirmation::YesKey => {
                    if key == Key::Esc || no {
                        (None, DialogOutcome::Cancelled)
                    } else if key == Key::Enter || yes {
                        (None, DialogOutcome::Perform(dialog.action))
                    } else {
                        (Some(Overlay::Confirm(dialog)), DialogOutcome::Nothing)
                    }
                },
                Confirmation::SaveOrDiscard => {
                    if key == Key::Esc {
                        (None, DialogOutcome::Cancelled)
                    } else if key == Key::Enter || yes {
                        (None, DialogOutcome::Perform(dialog.action))
                    } else if no {
                        (None, DialogOutcome::Perform(PendingAction::Quit))
                    } else {
                        (Some(Overlay::Confirm(dialog)), DialogOutcome::Nothing)
                    }
                },
                Confirmation::TypedWord { expected, typed } => {
                    if key == Key::Esc {
                        (None, DialogOutcome::Cancelled)
                    } else if key == Key::Enter {
                        let probe = ConfirmDialog {
                            title: dialog.title,
                            lines: dialog.lines,
                            confirmation: Confirmation::TypedWord { expected, typed },
                            action: dialog.action,
                            dangerous: dialog.dangerous,
                        };
                        if probe.typed_word_matches() {
                            (None, DialogOutcome::Perform(probe.action))
                        } else {
                            (Some(Overlay::Confirm(probe)), DialogOutcome::Nothing)
                        }
                    } else {
                        let mut edited = typed;
                        match key {
                            Key::Char(c) => push_char(&mut edited, c),
                            Key::Backspace => {
                                edited = remove_last(&edited);
                            },
                            _ => {},
                        }
                        let next = ConfirmDialog {
                            title: dialog.title,
                            lines: dialog.lines,
                            confirmation: Confirmation::TypedWord { expected, typed: edited },
                            action: dialog.action,
                            dangerous: dialog.dangerous,
                        };
                        (Some(Overlay::Confirm(next)), DialogOutcome::Nothing)
                    }
                },
            }
        },
    }
}

} // verus!
