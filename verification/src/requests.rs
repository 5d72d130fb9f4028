//! Asking before a deletion: when a request goes ahead, and the question it asks.

use vstd::prelude::*;

use crate::commands::{status_is, Session};
use crate::dialogs::{
    confirm_answer, word_matches, ConfirmDialog, Confirmation, Overlay, PendingAction, Severity,
};
use crate::keys::Key;
use crate::formatting::{decimal, decimal_string, home_relative, home_relative_spec};
use crate::explorer::clamp_index;
use crate::marks::{has_key, key_index, toggled, MarkEntry, MarkedItem};
use crate::model::{ByteSize, CleaningPlan, CleaningTarget, DeletionItem, DeletionMode, DeletionPlan};
use crate::panels::HeaviestState;
use crate::paths::{path_normal, path_precedes};
use crate::screen::Screen;
use crate::screen_keys::mark_toggled;
use crate::text::{chars_of, push_char, texts_of};

verus! {

/// Items of a plan listed one per line; the rest are counted.
pub const LISTED_ITEMS: usize = 12;

/// `text` after spaces up to `width` characters, as `{:>width}` formats it.
pub open spec fn pad_left(text: Seq<char>, width: nat) -> Seq<char> {
    if text.len() >= width {
        text
    } else {
        Seq::new((width - text.len()) as nat, |i: int| ' ') + text
    }
}

/// `text` right-aligned in `width` characters.
pub fn padded_left(text: &str, width: usize) -> (padded: String)
    ensures
        padded@ == pad_left(text@, width as nat),
{
    let count = chars_of(text).len();
    let mut padded = String::new();
    if count < width {
        let mut i: usize = 0;
        while i < width - count
            invariant
                count < width,
                0 <= i <= width - count,
                padded@ == Seq::new(i as nat, |k: int| ' '),
            decreases width - count - i,
        {
            push_char(&mut padded, ' ');
            assert(padded@ =~= Seq::new((i + 1) as nat, |k: int| ' '));
            i += 1;
        }
    }
    padded.append(text);
    proof {
        reveal_strlit("");
    }
    assert(padded@ =~= pad_left(text@, width as nat));
    padded
}

/// How many items of `count` the question lists.
pub open spec fn listed(count: int) -> int {
    if count > LISTED_ITEMS {
        LISTED_ITEMS as int
    } else {
        count
    }
}

/// The line of an item: its size, right-aligned in ten characters, and its path from the
/// home directory.
pub open spec fn item_line(item: DeletionItem, size_text: Seq<char>, home: Option<Seq<char>>) -> Seq<char> {
    pad_left(size_text, 10) + "  "@ + home_relative_spec(item.path@, home)
}

/// The lines of the first `n` items.
pub open spec fn item_lines(
    items: Seq<DeletionItem>,
    sizes: Seq<Seq<char>>,
    home: Option<Seq<char>>,
    n: nat,
) -> Seq<Seq<char>> {
    Seq::new(n, |i: int| item_line(items[i], sizes[i], home))
}

/// The last line of the question: how to confirm in `mode`.
pub open spec fn confirm_hint(mode: DeletionMode) -> Seq<char> {
    match mode {
        DeletionMode::Permanent => "Type  yes  and press Enter to delete permanently. Esc cancels."@,
        DeletionMode::Trash => "Press y to move to the Trash, n or Esc to cancel."@,
    }
}

/// The lines of the question before deleting `items` in `mode`, their sizes written as
/// `sizes` and their total as `total`: the first twelve items, a count of the others, then
/// how many items, how much and how, and how to confirm.
pub open spec fn deletion_lines(
    items: Seq<DeletionItem>,
    sizes: Seq<Seq<char>>,
    total: Seq<char>,
    mode: DeletionMode,
    home: Option<Seq<char>>,
) -> Seq<Seq<char>> {
    let count = items.len() as int;
    item_lines(items, sizes, home, listed(count) as nat) + (if count
        > LISTED_ITEMS {
        seq!["\u{2026} and "@ + decimal((count - LISTED_ITEMS) as nat) + " more"@]
    } else {
        Seq::empty()
    }) + seq![
        Seq::empty(),
        decimal(count as nat) + " items \u{b7} "@ + total + " \u{b7} mode: "@ + mode.label_spec(),
        Seq::empty(),
        confirm_hint(mode),
    ]
}

/// Whether `dialog` is the question asked before `plan` runs: a permanent deletion needs
/// `yes` typed and is marked dangerous, a move to the Trash takes the `y` key.
pub open spec fn is_deletion_question(
    dialog: ConfirmDialog,
    plan: DeletionPlan,
    sizes: Seq<Seq<char>>,
    total: Seq<char>,
    home: Option<Seq<char>>,
) -> bool {
    &&& dialog.title@ == "Delete"@
    &&& texts_of(dialog.lines@) == deletion_lines(
        plan.items@,
        sizes,
        total,
        plan.mode,
        home,
    )
    &&& match plan.mode {
        DeletionMode::Permanent => dialog.confirmation matches Confirmation::TypedWord {
            expected,
            typed,
        } && expected@ == "yes"@ && typed@ == Seq::<char>::empty(),
        DeletionMode::Trash => dialog.confirmation == Confirmation::YesKey,
    }
    &&& dialog.action == PendingAction::Delete(plan)
    &&& dialog.dangerous == (plan.mode == DeletionMode::Permanent)
}

/// The question asked before `plan` runs; `size_texts` are the sizes of its items and
/// `total_text` their total, as the interface writes sizes.
pub fn deletion_question(
    plan: DeletionPlan,
    size_texts: &[String],
    total_text: &str,
    home: Option<&str>,
) -> (dialog: ConfirmDialog)
    requires
        size_texts@.len() == plan.items@.len(),
    ensures
        is_deletion_question(
            dialog,
            plan,
            texts_of(size_texts@),
            total_text@,
            match home {
                Some(h) => Some(h@),
                None => None,
            },
        ),
{
    let ghost home_view = match home {
        Some(h) => Some(h@),
        None => None,
    };
    let ghost sizes = texts_of(size_texts@);
    let count = plan.items.len();
    let shown = if count > LISTED_ITEMS {
        LISTED_ITEMS
    } else {
        count
    };
    let mut lines: Vec<String> = Vec::new();
    let mut i: usize = 0;
    while i < shown
        invariant
            shown == listed(count as int),
            count == plan.items@.len(),
            size_texts@.len() == count,
            sizes == texts_of(size_texts@),
            home_view == (match home {
                Some(h) => Some(h@),
                None => None,
            }),
            0 <= i <= shown,
            lines@.len() == i,
            texts_of(lines@) == item_lines(plan.items@, sizes, home_view, i as nat),
        decreases shown - i,
    {
        let mut line = padded_left(size_texts[i].as_str(), 10);
        line.append("  ");
        let path = home_relative(plan.items[i].path.as_str(), home);
        line.append(path.as_str());
        assert(sizes[i as int] == size_texts@[i as int]@);
        assert(line@ == item_line(plan.items@[i as int], sizes[i as int], home_view));
        let ghost earlier = lines@;
        lines.push(line);
        assert(texts_of(lines@) =~= item_lines(plan.items@, sizes, home_view, (i + 1) as nat)) by {
            let next = item_lines(plan.items@, sizes, home_view, (i + 1) as nat);
            let done = item_lines(plan.items@, sizes, home_view, i as nat);
            assert forall|k: int| 0 <= k <= i implies #[trigger] texts_of(lines@)[k] == next[k] by {
                if k < i {
                    assert(lines@[k] == earlier[k]);
                    assert(texts_of(earlier)[k] == done[k]);
                }
            }
        }
        i += 1;
    }
    let ghost listed_lines = texts_of(lines@);
    if count > LISTED_ITEMS {
        let mut more = String::from_str("\u{2026} and ");
        more.append(decimal_string((count - LISTED_ITEMS) as u64).as_str());
        more.append(" more");
        lines.push(more);
    }
    let ghost counted_lines = texts_of(lines@);
    lines.push(String::new());
    let mut summary = decimal_string(count as u64);
    summary.append(" items \u{b7} ");
    summary.append(total_text);
    summary.append(" \u{b7} mode: ");
    summary.append(plan.mode.label());
    lines.push(summary);
    lines.push(String::new());
    let permanent = match plan.mode {
        DeletionMode::Permanent => true,
        DeletionMode::Trash => false,
    };
    let confirmation = if permanent {
        lines.push(
            String::from_str("Type  yes  and press Enter to delete permanently. Esc cancels."),
        );
        Confirmation::TypedWord { expected: String::from_str("yes"), typed: String::new() }
    } else {
        lines.push(String::from_str("Press y to move to the Trash, n or Esc to cancel."));
        Confirmation::YesKey
    };
    proof {
        reveal_strlit("");
        assert(counted_lines =~= listed_lines + (if count > LISTED_ITEMS {
            seq!["\u{2026} and "@ + decimal((count - LISTED_ITEMS) as nat) + " more"@]
        } else {
            Seq::empty()
        }));
        assert(texts_of(lines@) =~= deletion_lines(
            plan.items@,
            sizes,
            total_text@,
            plan.mode,
            home_view,
        ));
    }
    ConfirmDialog {
        title: String::from_str("Delete"),
        lines,
        confirmation,
        action: PendingAction::Delete(plan),
        dangerous: permanent,
    }
}

/// What marking the file under the cursor of the heaviest-files view does: `mark` is that
/// file's path and what its mark records, `None` when no file is under the cursor. The mark
/// is toggled and the cursor moves to the next file.
pub open spec fn heaviest_mark_toggled<F>(
    before: Session,
    after: Session,
    heaviest_before: HeaviestState<F>,
    heaviest_after: HeaviestState<F>,
    mark: Option<(Seq<char>, MarkedItem)>,
) -> bool {
    match mark {
        Some((path, item)) => {
            let len = heaviest_before.rows@.len() as int;
            &&& after.marks@ == toggled(before.marks@, path_normal(path), item)
            &&& after == Session { marks: after.marks, ..before }
            &&& heaviest_after.rows@ == heaviest_before.rows@
            &&& heaviest_after.query == heaviest_before.query
            &&& heaviest_after.origin == heaviest_before.origin
            &&& heaviest_after.limit == heaviest_before.limit
            &&& len == 0 ==> heaviest_after.selected == 0 && heaviest_after.table_selection is None
            &&& len > 0 ==> heaviest_after.selected == clamp_index(heaviest_before.selected + 1, len)
                && heaviest_after.table_selection == Some(heaviest_after.selected)
        },
        None => after == before && heaviest_after == heaviest_before,
    }
}

/// The mark as path text and what it records.
pub open spec fn mark_view(mark: Option<(String, MarkedItem)>) -> Option<(Seq<char>, MarkedItem)> {
    match mark {
        Some((path, item)) => Some((path@, item)),
        None => None,
    }
}

impl Session {
    /// Marks the file under the cursor of the heaviest-files view, or unmarks it, and moves
    /// the cursor to the next file; `mark` is that file's path and what its mark records
    /// (`None` when no file is under the cursor). Returns whether the file is marked now.
    pub fn toggle_mark_on_heaviest<F>(
        &mut self,
        heaviest: &mut HeaviestState<F>,
        mark: Option<(String, MarkedItem)>,
    ) -> (marked: Option<bool>)
        requires
            old(heaviest).selected + 1 <= isize::MAX,
            old(heaviest).rows@.len() <= isize::MAX,
        ensures
            heaviest_mark_toggled(*old(self), *final(self), *old(heaviest), *final(heaviest), mark_view(mark)),
            marked == (match mark {
                Some((path, _)) => Some(!has_key(old(self).marks@, path_normal(path@))),
                None => None,
            }),
    {
        match mark {
            Some((path, item)) => {
                let now_marked = self.marks.toggle(path, item);
                heaviest.move_selection(1);
                Some(now_marked)
            },
            None => None,
        }
    }

    /// Whether a deletion request goes ahead: not while an operation runs (the status line
    /// says so); with no marks, the row under the cursor of the explorer, or the file under
    /// the cursor of the heaviest-files view (`heaviest_mark`, as `toggle_mark_on_heaviest`
    /// takes it), is marked first, and the request goes ahead only when something is marked
    /// then.
    pub fn deletion_ready<F>(
        &mut self,
        operation_running: bool,
        heaviest: &mut HeaviestState<F>,
        heaviest_mark: Option<(String, MarkedItem)>,
    ) -> (ready: bool)
        requires
            old(self).explorer.selected + 1 <= isize::MAX,
            old(self).explorer.rows@.len() <= isize::MAX,
            old(heaviest).selected + 1 <= isize::MAX,
            old(heaviest).rows@.len() <= isize::MAX,
        ensures
            operation_running ==> {
                &&& !ready
                &&& status_is(final(self).status, "a deletion is already running"@, Severity::Warning)
                &&& *final(self) == (Session { status: final(self).status, ..*old(self) })
                &&& *final(heaviest) == *old(heaviest)
            },
            !operation_running && old(self).marks@.len() > 0 ==> {
                &&& ready
                &&& *final(self) == *old(self)
                &&& *final(heaviest) == *old(heaviest)
            },
            !operation_running && old(self).marks@.len() == 0 ==> {
                &&& old(self).screen == Screen::Explorer ==> mark_toggled(*old(self), *final(self))
                    && *final(heaviest) == *old(heaviest)
                &&& old(self).screen == Screen::Heaviest ==> heaviest_mark_toggled(
                    *old(self),
                    *final(self),
                    *old(heaviest),
                    *final(heaviest),
                    mark_view(heaviest_mark),
                )
                &&& old(self).screen != Screen::Explorer && old(self).screen != Screen::Heaviest
                    ==> *final(self) == *old(self) && *final(heaviest) == *old(heaviest)
                &&& ready == (final(self).marks@.len() > 0)
            },
    {
        if operation_running {
            self.show_status(String::from_str("a deletion is already running"), Severity::Warning);
            return false;
        }
        if self.marks.is_empty() {
            match self.screen {
                Screen::Explorer => {
                    self.toggle_mark_on_selected();
                },
                Screen::Heaviest => {
                    self.toggle_mark_on_heaviest(heaviest, heaviest_mark);
                },
                _ => {},
            }
            !self.marks.is_empty()
        } else {
            true
        }
    }

    /// Asks before `plan` runs, as `deletion_question` words it.
    pub fn ask_deletion(
        &mut self,
        plan: DeletionPlan,
        size_texts: &[String],
        total_text: &str,
        home: Option<&str>,
    )
        requires
            size_texts@.len() == plan.items@.len(),
        ensures
            final(self).overlay matches Some(Overlay::Confirm(dialog)) && is_deletion_question(
                dialog,
                plan,
                texts_of(size_texts@),
                total_text@,
                match home {
                    Some(h) => Some(h@),
                    None => None,
                },
            ),
            *final(self) == (Session { overlay: final(self).overlay, ..*old(self) }),
    {
        let dialog = deletion_question(plan, size_texts, total_text, home);
        self.overlay = Some(Overlay::Confirm(dialog));
    }
}

// ---------------------------------------------------------------------------------------
// Cleaning
// ---------------------------------------------------------------------------------------

/// Targets of a cleaning plan listed one per line; the rest are counted.
pub const LISTED_TARGETS: usize = 14;

/// The line of a cleaning target: its size right-aligned in ten characters (`?` when it is
/// not known) and its label.
pub open spec fn target_line(target: CleaningTarget, size_text: Seq<char>) -> Seq<char> {
    pad_left(
        match target.size {
            Some(_) => size_text,
            None => "?"@,
        },
        10,
    ) + "  "@ + target.label@
}

/// The lines of the first `n` targets.
pub open spec fn target_lines(targets: Seq<CleaningTarget>, sizes: Seq<Seq<char>>, n: nat) -> Seq<Seq<char>> {
    Seq::new(n, |i: int| target_line(targets[i], sizes[i]))
}

/// Whether some target can only be cleaned with administrator privileges.
pub open spec fn some_need_privileges(targets: Seq<CleaningTarget>) -> bool {
    exists|i: int| 0 <= i < targets.len() && #[trigger] targets[i].requires_privileges
}

/// The lines of the question before cleaning `targets`, their sizes written as `sizes` and
/// the space they free together as `total`: the first fourteen targets, a count of the
/// others, how many and about how much, whether some need sudo, and how to confirm.
pub open spec fn cleaning_lines(
    targets: Seq<CleaningTarget>,
    sizes: Seq<Seq<char>>,
    total: Seq<char>,
) -> Seq<Seq<char>> {
    let count = targets.len() as int;
    let shown = if count > LISTED_TARGETS {
        LISTED_TARGETS as int
    } else {
        count
    };
    target_lines(targets, sizes, shown as nat) + (if count > LISTED_TARGETS {
        seq!["\u{2026} and "@ + decimal((count - LISTED_TARGETS) as nat) + " more"@]
    } else {
        Seq::empty()
    }) + seq![
        Seq::empty(),
        decimal(count as nat) + " items \u{b7} about "@ + total + " to reclaim"@ + (if some_need_privileges(targets) {
            " \u{b7} some need sudo"@
        } else {
            Seq::empty()
        }),
        Seq::empty(),
        "Type  yes  and press Enter to clean. Esc cancels."@,
    ]
}

/// Whether `dialog` is the question asked before `plan` runs: `yes` has to be typed.
pub open spec fn is_cleaning_question(
    dialog: ConfirmDialog,
    plan: CleaningPlan,
    sizes: Seq<Seq<char>>,
    total: Seq<char>,
) -> bool {
    &&& dialog.title@ == "Clean"@
    &&& texts_of(dialog.lines@) == cleaning_lines(plan.candidates@, sizes, total)
    &&& dialog.confirmation matches Confirmation::TypedWord { expected, typed } && expected@
        == "yes"@ && typed@ == Seq::<char>::empty()
    &&& dialog.action == PendingAction::Clean(plan)
    &&& dialog.dangerous
}

/// The bytes the known sizes of `targets` add up to.
pub open spec fn known_size_sum(targets: Seq<CleaningTarget>) -> nat
    decreases targets.len(),
{
    if targets.len() == 0 {
        0
    } else {
        known_size_sum(targets.drop_last()) + match targets.last().size {
            Some(size) => size.0 as nat,
            None => 0nat,
        }
    }
}

/// The space `plan` is expected to free: the known sizes of its targets together, held at
/// `u64::MAX`.
pub fn estimated_reclaim(plan: &CleaningPlan) -> (total: ByteSize)
    ensures
        total.0 == (if known_size_sum(plan.candidates@) > u64::MAX {
            u64::MAX as int
        } else {
            known_size_sum(plan.candidates@) as int
        }),
{
    let targets = plan.candidates.as_slice();
    let mut total = ByteSize(0);
    let mut i: usize = 0;
    while i < targets.len()
        invariant
            0 <= i <= targets@.len(),
            targets@ == plan.candidates@,
            total.0 == (if known_size_sum(targets@.take(i as int)) > u64::MAX {
                u64::MAX as int
            } else {
                known_size_sum(targets@.take(i as int)) as int
            }),
        decreases targets@.len() - i,
    {
        assert(targets@.take(i + 1).drop_last() =~= targets@.take(i as int));
        match targets[i].size {
            Some(size) => {
                total = total.saturating_add(size);
            },
            None => {},
        }
        i += 1;
    }
    assert(targets@.take(targets@.len() as int) =~= targets@);
    total
}

fn any_needs_privileges(targets: &[CleaningTarget]) -> (some: bool)
    ensures
        some == some_need_privileges(targets@),
{
    let mut i: usize = 0;
    while i < targets.len()
        invariant
            0 <= i <= targets@.len(),
            forall|k: int| 0 <= k < i ==> !(#[trigger] targets@[k]).requires_privileges,
        decreases targets@.len() - i,
    {
        if targets[i].requires_privileges {
            return true;
        }
        i += 1;
    }
    false
}

/// The question asked before `plan` runs; `size_texts` are the sizes of its targets (read
/// only where a size is known) and `total_text` the space they free together, as the
/// interface writes sizes.
pub fn cleaning_question(plan: CleaningPlan, size_texts: &[String], total_text: &str) -> (dialog: ConfirmDialog)
    requires
        size_texts@.len() == plan.candidates@.len(),
    ensures
        is_cleaning_question(dialog, plan, texts_of(size_texts@), total_text@),
{
    let ghost sizes = texts_of(size_texts@);
    let count = plan.candidates.len();
    let shown = if count > LISTED_TARGETS {
        LISTED_TARGETS
    } else {
        count
    };
    let mut lines: Vec<String> = Vec::new();
    let mut i: usize = 0;
    while i < shown
        invariant
            shown == (if count > LISTED_TARGETS {
                LISTED_TARGETS as int
            } else {
                count as int
            }),
            count == plan.candidates@.len(),
            size_texts@.len() == count,
            sizes == texts_of(size_texts@),
            0 <= i <= shown,
            lines@.len() == i,
            texts_of(lines@) == target_lines(plan.candidates@, sizes, i as nat),
        decreases shown - i,
    {
        let target = &plan.candidates[i];
        let mut line = match target.size {
            Some(_) => padded_left(size_texts[i].as_str(), 10),
            None => padded_left("?", 10),
        };
        line.append("  ");
        line.append(target.label.as_str());
        assert(sizes[i as int] == size_texts@[i as int]@);
        assert(line@ == target_line(plan.candidates@[i as int], sizes[i as int]));
        let ghost earlier = lines@;
        lines.push(line);
        assert(texts_of(lines@) =~= target_lines(plan.candidates@, sizes, (i + 1) as nat)) by {
            assert forall|k: int| 0 <= k <= i implies #[trigger] texts_of(lines@)[k]
                == target_lines(plan.candidates@, sizes, (i + 1) as nat)[k] by {
                if k < i {
                    assert(lines@[k] == earlier[k]);
                    assert(texts_of(earlier)[k] == target_lines(plan.candidates@, sizes, i as nat)[k]);
                }
            }
        }
        i += 1;
    }
    let ghost listed_lines = texts_of(lines@);
    if count > LISTED_TARGETS {
        let mut more = String::from_str("\u{2026} and ");
        more.append(decimal_string((count - LISTED_TARGETS) as u64).as_str());
        more.append(" more");
        lines.push(more);
    }
    let ghost counted_lines = texts_of(lines@);
    lines.push(String::new());
    let mut summary = decimal_string(count as u64);
    summary.append(" items \u{b7} about ");
    summary.append(total_text);
    summary.append(" to reclaim");
    if any_needs_privileges(plan.candidates.as_slice()) {
        summary.append(" \u{b7} some need sudo");
    }
    lines.push(summary);
    lines.push(String::new());
    lines.push(String::from_str("Type  yes  and press Enter to clean. Esc cancels."));
    proof {
        reveal_strlit("");
        assert(counted_lines =~= listed_lines + (if count > LISTED_TARGETS {
            seq!["\u{2026} and "@ + decimal((count - LISTED_TARGETS) as nat) + " more"@]
        } else {
            Seq::empty()
        }));
        assert(texts_of(lines@) =~= cleaning_lines(plan.candidates@, sizes, total_text@));
    }
    ConfirmDialog {
        title: String::from_str("Clean"),
        lines,
        confirmation: Confirmation::TypedWord { expected: String::from_str("yes"), typed: String::new() },
        action: PendingAction::Clean(plan),
        dangerous: true,
    }
}

impl Session {
    /// Asks before cleaning `plan`: not while a run is in progress, nor when nothing is
    /// selected (the status line says which); otherwise the question goes on screen.
    /// `size_texts` and `total_text` are as `cleaning_question` takes them.
    pub fn request_cleaning(
        &mut self,
        operation_running: bool,
        plan: CleaningPlan,
        size_texts: &[String],
        total_text: &str,
    )
        requires
            size_texts@.len() == plan.candidates@.len(),
        ensures
            operation_running ==> status_is(
                final(self).status,
                "a cleaning run is already in progress"@,
                Severity::Warning,
            ) && *final(self) == (Session { status: final(self).status, ..*old(self) }),
            !operation_running && plan.candidates@.len() == 0 ==> status_is(
                final(self).status,
                "nothing selected"@,
                Severity::Warning,
            ) && *final(self) == (Session { status: final(self).status, ..*old(self) }),
            !operation_running && plan.candidates@.len() > 0 ==> (final(self).overlay matches Some(
                Overlay::Confirm(dialog),
            ) && is_cleaning_question(dialog, plan, texts_of(size_texts@), total_text@))
                && *final(self) == (Session { overlay: final(self).overlay, ..*old(self) }),
    {
        if operation_running {
            self.show_status(
                String::from_str("a cleaning run is already in progress"),
                Severity::Warning,
            );
            return;
        }
        if plan.candidates.len() == 0 {
            self.show_status(String::from_str("nothing selected"), Severity::Warning);
            return;
        }
        let dialog = cleaning_question(plan, size_texts, total_text);
        self.overlay = Some(Overlay::Confirm(dialog));
    }
}

/// A permanent deletion runs only once `yes` has been typed: no key but Enter answers its
/// question with the deletion, and Enter only when the typed text is `yes` (any ASCII case,
/// surrounding spaces ignored). A move to the Trash runs on `y` or Enter.
pub proof fn lemma_permanent_deletion_needs_yes(
    dialog: ConfirmDialog,
    plan: DeletionPlan,
    sizes: Seq<Seq<char>>,
    total: Seq<char>,
    home: Option<Seq<char>>,
    key: Key,
)
    requires
        is_deletion_question(dialog, plan, sizes, total, home),
    ensures
        plan.mode == DeletionMode::Permanent && confirm_answer(dialog, key).1 == 2 ==> {
            &&& key == Key::Enter
            &&& dialog.confirmation matches Confirmation::TypedWord { typed, .. } && word_matches(
                "yes"@,
                typed@,
            )
        },
        plan.mode == DeletionMode::Trash ==> (confirm_answer(dialog, key).1 == 2 <==> (key
            == Key::Enter || key == Key::Char('y') || key == Key::Char('Y'))),
{
}

/// The marks once the mark of `path` (if any) records `size`.
pub open spec fn size_updated(entries: Seq<MarkEntry>, path: Seq<char>, size: ByteSize) -> Seq<
    MarkEntry,
> {
    match key_index(entries, path_normal(path)) {
        Some(i) => entries.update(i, (entries[i].0, MarkedItem { size, ..entries[i].1 })),
        None => entries,
    }
}

/// The marks once the first `n` sizes of `refreshed` are recorded, in order.
pub open spec fn sizes_refreshed(
    entries: Seq<MarkEntry>,
    refreshed: Seq<(String, ByteSize)>,
    n: nat,
) -> Seq<MarkEntry>
    decreases n,
{
    if n == 0 {
        entries
    } else {
        size_updated(
            sizes_refreshed(entries, refreshed, (n - 1) as nat),
            refreshed[n - 1].0@,
            refreshed[n - 1].1,
        )
    }
}

/// `plan` deletes the marks `entries`, in their order (which is path order), in `mode`.
pub open spec fn plans_marks(plan: DeletionPlan, entries: Seq<MarkEntry>, mode: DeletionMode) -> bool {
    &&& plan.mode == mode
    &&& forall|a: int, b: int|
        0 <= a < b < plan.items@.len() ==> !path_precedes(plan.items@[b].path@, plan.items@[a].path@)
    &&& plan.items@.len() == entries.len()
    &&& forall|i: int|
        0 <= i < entries.len() ==> {
            &&& (#[trigger] plan.items@[i]).path@ == entries[i].0
            &&& plan.items@[i].size == entries[i].1.size
            &&& plan.items@[i].is_directory == entries[i].1.is_directory
            &&& plan.items@[i].node == entries[i].1.node
        }
}

impl Session {
    /// The plan a deletion request asks about: the marks, each marked directory with the
    /// size the tree now gives it (`refreshed`, applied in order), deleted in the session's
    /// deletion mode.
    pub fn deletion_plan(&mut self, refreshed: &[(String, ByteSize)]) -> (plan: DeletionPlan)
        ensures
            final(self).marks@ == sizes_refreshed(old(self).marks@, refreshed@, refreshed@.len()),
            plans_marks(plan, final(self).marks@, old(self).preferences.deletion_mode),
            *final(self) == (Session { marks: final(self).marks, ..*old(self) }),
    {
        let mut i: usize = 0;
        while i < refreshed.len()
            invariant
                0 <= i <= refreshed@.len(),
                self.marks@ == sizes_refreshed(old(self).marks@, refreshed@, i as nat),
                *self == (Session { marks: self.marks, ..*old(self) }),
            decreases refreshed@.len() - i,
        {
            self.marks.update_size(refreshed[i].0.as_str(), refreshed[i].1);
            i += 1;
        }
        self.marks.plan(self.preferences.deletion_mode)
    }
}

} // verus!
