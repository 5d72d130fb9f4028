//! What the screens say, as text and tone: the footer, the key hints, and the explorer's
//! rows, summary and empty-table message. Sizes, shares and compact counts arrive written
//! as text; the bars drawn from shares are left to the drawing.

use vstd::prelude::*;

use crate::dialogs::{Severity, StatusMessage};
use crate::explorer::{ExplorerRow, RowBadge};
use crate::marks::{has_key, Marks};
use crate::paths::{path_normal, path_strip, strip_path_prefix};
use crate::formatting::{decimal, decimal_string, fit, fit_spec, spinner, spinner_frame};
use crate::model::CleaningReport;
use crate::reports::{cleaning_kinds, cleaning_kinds_of, count_kind, count_of, OutcomeKind};
use crate::notice::{notice_view, Tone};
use crate::requests::{pad_left, padded_left};
use crate::screen::Screen;

verus! {

/// Key hints as texts.
pub open spec fn hint_texts(hints: Seq<(&str, &str)>) -> Seq<(Seq<char>, Seq<char>)> {
    hints.map_values(|hint: (&str, &str)| (hint.0@, hint.1@))
}

/// Key hints drawn in a row: each key, then what it does, separated by a faint dot.
pub open spec fn hint_parts_spec(hints: Seq<(Seq<char>, Seq<char>)>) -> Seq<(Seq<char>, Tone)>
    decreases hints.len(),
{
    if hints.len() == 0 {
        Seq::empty()
    } else {
        hint_parts_spec(hints.drop_last()) + (if hints.len() > 1 {
            seq![("  \u{b7}  "@, Tone::Faint)]
        } else {
            Seq::empty()
        }) + seq![(hints.last().0, Tone::Key), (" "@ + hints.last().1, Tone::Muted)]
    }
}

/// Key hints drawn in a row.
pub fn hint_parts(hints: &[(&str, &str)]) -> (parts: Vec<(String, Tone)>)
    ensures
        notice_view(parts@) == hint_parts_spec(hint_texts(hints@)),
{
    let mut parts: Vec<(String, Tone)> = Vec::new();
    let mut i: usize = 0;
    while i < hints.len()
        invariant
            0 <= i <= hints@.len(),
            notice_view(parts@) == hint_parts_spec(hint_texts(hints@.take(i as int))),
        decreases hints@.len() - i,
    {
        let ghost before = hint_texts(hints@.take(i as int));
        let ghost after = hint_texts(hints@.take(i + 1));
        proof {
            assert(after.drop_last() =~= before);
            assert(after.last() == (hints@[i as int].0@, hints@[i as int].1@));
        }
        let (key, description) = hints[i];
        if i > 0 {
            parts.push((String::from_str("  \u{b7}  "), Tone::Faint));
        }
        parts.push((String::from_str(key), Tone::Key));
        let mut text = String::from_str(" ");
        text.append(description);
        parts.push((text, Tone::Muted));
        proof {
            reveal_strlit("");
        }
        assert(notice_view(parts@) =~= hint_parts_spec(after));
        i += 1;
    }
    assert(hints@.take(hints@.len() as int) =~= hints@);
    parts
}

/// The key hints of each screen's footer.
pub open spec fn hints_spec(screen: Screen) -> Seq<(Seq<char>, Seq<char>)> {
    match screen {
        Screen::Dashboard => seq![
            ("\u{2191}\u{2193}"@, "select"@),
            ("\u{2190}\u{2192}"@, "panel"@),
            ("\u{23ce}"@, "explore"@),
            ("c"@, "cleaner"@),
            ("r"@, "refresh"@),
            (":"@, "command"@),
            ("?"@, "help"@),
            ("q"@, "quit"@),
        ],
        Screen::Explorer => seq![
            ("\u{23ce}"@, "open"@),
            ("\u{232b}"@, "up"@),
            ("space"@, "mark"@),
            ("d"@, "delete"@),
            ("T"@, "heaviest"@),
            ("r"@, "rescan"@),
            ("a"@, "size mode"@),
            ("f"@, "files"@),
            ("+/-"@, "rows"@),
            ("o"@, "reveal"@),
            ("/"@, "filter"@),
            (":"@, "cmd"@),
            ("?"@, "help"@),
        ],
        Screen::Heaviest => seq![
            ("\u{2191}\u{2193}"@, "select"@),
            ("space"@, "mark"@),
            ("d"@, "delete"@),
            ("\u{23ce}"@, "go to folder"@),
            ("o"@, "reveal"@),
            ("r"@, "rerun"@),
            ("+/-"@, "limit"@),
            ("esc"@, "back"@),
        ],
        Screen::Cleaner => seq![
            ("space"@, "toggle"@),
            ("\u{23ce}"@, "fold group"@),
            ("a"@, "all"@),
            ("n"@, "none"@),
            ("d"@, "clean selected"@),
            ("i"@, "info"@),
            ("o"@, "reveal"@),
            ("r"@, "rescan"@),
            ("esc"@, "back"@),
        ],
    }
}

/// The key hints of `screen`'s footer.
pub fn screen_hints(screen: Screen) -> (hints: Vec<(&'static str, &'static str)>)
    ensures
        hint_texts(hints@) == hints_spec(screen),
{
    let hints: Vec<(&'static str, &'static str)> = match screen {
        Screen::Dashboard => vec![
            ("\u{2191}\u{2193}", "select"),
            ("\u{2190}\u{2192}", "panel"),
            ("\u{23ce}", "explore"),
            ("c", "cleaner"),
            ("r", "refresh"),
            (":", "command"),
            ("?", "help"),
            ("q", "quit"),
        ],
        Screen::Explorer => vec![
            ("\u{23ce}", "open"),
            ("\u{232b}", "up"),
            ("space", "mark"),
            ("d", "delete"),
            ("T", "heaviest"),
            ("r", "rescan"),
            ("a", "size mode"),
            ("f", "files"),
            ("+/-", "rows"),
            ("o", "reveal"),
            ("/", "filter"),
            (":", "cmd"),
            ("?", "help"),
        ],
        Screen::Heaviest => vec![
            ("\u{2191}\u{2193}", "select"),
            ("space", "mark"),
            ("d", "delete"),
            ("\u{23ce}", "go to folder"),
            ("o", "reveal"),
            ("r", "rerun"),
            ("+/-", "limit"),
            ("esc", "back"),
        ],
        Screen::Cleaner => vec![
            ("space", "toggle"),
            ("\u{23ce}", "fold group"),
            ("a", "all"),
            ("n", "none"),
            ("d", "clean selected"),
            ("i", "info"),
            ("o", "reveal"),
            ("r", "rescan"),
            ("esc", "back"),
        ],
    };
    assert(hint_texts(hints@) =~= hints_spec(screen));
    hints
}

/// The glyph and tone of a status line.
pub open spec fn status_mark(severity: Severity) -> (Seq<char>, Tone) {
    match severity {
        Severity::Info => ("\u{2022}"@, Tone::Muted),
        Severity::Success => ("\u{2713}"@, Tone::Success),
        Severity::Warning => ("\u{25b2}"@, Tone::Warning),
        Severity::Error => ("\u{2717}"@, Tone::Danger),
    }
}

/// The footer: the `:` line while it is typed, otherwise the status line when there is
/// one, otherwise the key hints of the screen.
pub open spec fn footer_spec(
    screen: Screen,
    command_mode: bool,
    input: Seq<char>,
    status: Option<StatusMessage>,
) -> Seq<(Seq<char>, Tone)> {
    if command_mode {
        seq![(" :"@, Tone::Key), (input, Tone::Text)]
    } else {
        match status {
            Some(message) => {
                let (glyph, tone) = status_mark(message.severity);
                seq![(" "@ + glyph + " "@, tone), (message.text@, tone)]
            },
            None => hint_parts_spec(hints_spec(screen)),
        }
    }
}

/// The footer line.
pub fn footer_line(
    screen: Screen,
    command_mode: bool,
    input: &str,
    status: &Option<StatusMessage>,
) -> (parts: Vec<(String, Tone)>)
    ensures
        notice_view(parts@) == footer_spec(screen, command_mode, input@, *status),
{
    if command_mode {
        let mut parts: Vec<(String, Tone)> = Vec::new();
        parts.push((String::from_str(" :"), Tone::Key));
        parts.push((String::from_str(input), Tone::Text));
        assert(notice_view(parts@) =~= footer_spec(screen, command_mode, input@, *status));
        return parts;
    }
    match status {
        Some(message) => {
            let (glyph, tone) = match message.severity {
                Severity::Info => ("\u{2022}", Tone::Muted),
                Severity::Success => ("\u{2713}", Tone::Success),
                Severity::Warning => ("\u{25b2}", Tone::Warning),
                Severity::Error => ("\u{2717}", Tone::Danger),
            };
            let mut mark = String::from_str(" ");
            mark.append(glyph);
            mark.append(" ");
            let mut parts: Vec<(String, Tone)> = Vec::new();
            parts.push((mark, tone));
            parts.push((message.text.clone(), tone));
            assert(notice_view(parts@) =~= footer_spec(screen, command_mode, input@, *status));
            parts
        },
        None => {
            let hints = screen_hints(screen);
            hint_parts(hints.as_slice())
        },
    }
}

// ---------------------------------------------------------------------------------------
// The explorer
// ---------------------------------------------------------------------------------------

/// The state column of a row; the spinner of a row being scanned is `step` frames on.
pub open spec fn badge_cell(badge: RowBadge, step: int) -> (Seq<char>, Tone) {
    match badge {
        RowBadge::Scanning => (spinner_frame(step % 10) + " scanning"@, Tone::Key),
        RowBadge::Complete => ("\u{2713}"@, Tone::Faint),
        RowBadge::Dense => ("\u{2261} dense"@, Tone::Warning),
        RowBadge::Denied => ("\u{2298} denied"@, Tone::Danger),
        RowBadge::Failed => ("! error"@, Tone::Danger),
        RowBadge::Boundary => ("\u{2933} volume"@, Tone::Muted),
        RowBadge::Lazy => ("\u{2193} lazy"@, Tone::Muted),
        RowBadge::File => (Seq::empty(), Tone::Faint),
    }
}

/// The cells of the explorer row at `index`: the mark, the position, the kind symbol, the
/// name, the size (`size`), the share (`share`), the entries below a directory (`items`),
/// and the state.
pub open spec fn explorer_cells_spec(
    index: int,
    row: ExplorerRow,
    symbol: Seq<char>,
    size: Seq<char>,
    share: Seq<char>,
    items: Seq<char>,
    tick: int,
) -> Seq<(Seq<char>, Tone)> {
    seq![
        if row.marked {
            ("\u{25cf}"@, Tone::Key)
        } else {
            (" "@, Tone::Text)
        },
        (pad_left(decimal((index + 1) as nat), 4), Tone::Faint),
        (symbol + " "@, if row.is_directory {
            Tone::Directory
        } else {
            Tone::Faint
        }),
        (row.name@, if row.is_directory {
            Tone::Directory
        } else {
            Tone::File
        }),
        (pad_left(size, 10), Tone::Text),
        (pad_left(share, 6), Tone::Muted),
        (pad_left(
            if row.items is Some {
                items
            } else {
                Seq::empty()
            },
            8,
        ), Tone::Muted),
        badge_cell(row.badge, tick + index),
    ]
}

/// The cells of the explorer row at `index`. `symbol` is the symbol of the entry's kind;
/// `size_text`, `share_text` and `items_text` are its size, its share of the directory and
/// the entries below it, as the interface writes them (`items_text` is read only for a
/// directory); `tick` turns the spinner.
pub fn explorer_row_cells(
    index: usize,
    row: &ExplorerRow,
    symbol: &str,
    size_text: &str,
    share_text: &str,
    items_text: &str,
    tick: usize,
) -> (cells: Vec<(String, Tone)>)
    requires
        index < usize::MAX,
    ensures
        notice_view(cells@) == explorer_cells_spec(
            index as int,
            *row,
            symbol@,
            size_text@,
            share_text@,
            items_text@,
            tick as int,
        ),
{
    let mut cells: Vec<(String, Tone)> = Vec::new();
    if row.marked {
        cells.push((String::from_str("\u{25cf}"), Tone::Key));
    } else {
        cells.push((String::from_str(" "), Tone::Text));
    }
    let position = decimal_string((index + 1) as u64);
    cells.push((padded_left(position.as_str(), 4), Tone::Faint));
    let mut kind = String::from_str(symbol);
    kind.append(" ");
    cells.push(
        (
            kind,
            if row.is_directory {
                Tone::Directory
            } else {
                Tone::Faint
            },
        ),
    );
    cells.push(
        (
            row.name.clone(),
            if row.is_directory {
                Tone::Directory
            } else {
                Tone::File
            },
        ),
    );
    cells.push((padded_left(size_text, 10), Tone::Text));
    cells.push((padded_left(share_text, 6), Tone::Muted));
    let items = match row.items {
        Some(_) => padded_left(items_text, 8),
        None => padded_left("", 8),
    };
    cells.push((items, Tone::Muted));
    let step: usize = tick % 10 + index % 10;
    assert(step % 10 == (tick + index) % 10) by (nonlinear_arith)
        requires
            step == tick % 10 + index % 10,
    ;
    let badge = match row.badge {
        RowBadge::Scanning => {
            let mut text = String::from_str(spinner(step));
            text.append(" scanning");
            (text, Tone::Key)
        },
        RowBadge::Complete => (String::from_str("\u{2713}"), Tone::Faint),
        RowBadge::Dense => (String::from_str("\u{2261} dense"), Tone::Warning),
        RowBadge::Denied => (String::from_str("\u{2298} denied"), Tone::Danger),
        RowBadge::Failed => (String::from_str("! error"), Tone::Danger),
        RowBadge::Boundary => (String::from_str("\u{2933} volume"), Tone::Muted),
        RowBadge::Lazy => (String::from_str("\u{2193} lazy"), Tone::Muted),
        RowBadge::File => (String::new(), Tone::Faint),
    };
    cells.push(badge);
    proof {
        reveal_strlit("");
    }
    assert(notice_view(cells@) =~= explorer_cells_spec(
        index as int,
        *row,
        symbol@,
        size_text@,
        share_text@,
        items_text@,
        tick as int,
    ));
    cells
}

/// What an empty explorer table says: still measuring, unreadable, nothing passes the
/// filter, or empty.
pub open spec fn empty_message_spec(
    complete: bool,
    denied: bool,
    filtered: bool,
    tick: int,
) -> Seq<char> {
    if !complete {
        spinner_frame(tick % 10) + " measuring\u{2026}"@
    } else if denied {
        "permission denied"@
    } else if filtered {
        "nothing matches the filter"@
    } else {
        "empty directory"@
    }
}

/// What an empty explorer table says, `tick` turning the spinner.
pub fn explorer_empty_message(
    complete: bool,
    denied: bool,
    filtered: bool,
    tick: usize,
) -> (text: String)
    ensures
        text@ == empty_message_spec(complete, denied, filtered, tick as int),
{
    if !complete {
        let mut text = String::from_str(spinner(tick));
        text.append(" measuring\u{2026}");
        text
    } else if denied {
        String::from_str("permission denied")
    } else if filtered {
        String::from_str("nothing matches the filter")
    } else {
        String::from_str("empty directory")
    }
}

/// The summary above the explorer table: the directory's size, files and directories, then
/// whether its scan is complete or how much is pending.
pub open spec fn explorer_summary_spec(
    size: Seq<char>,
    files: Seq<char>,
    dirs: Seq<char>,
    complete: bool,
    pending: Seq<char>,
    tick: int,
) -> Seq<(Seq<char>, Tone)> {
    seq![
        (" "@ + size + " \u{b7} "@ + files + " files \u{b7} "@ + dirs + " dirs "@, Tone::Text),
        if complete {
            (" \u{2713} complete "@, Tone::Success)
        } else {
            (" "@ + spinner_frame(tick % 10) + " scanning \u{b7} "@ + pending + " pending "@, Tone::Key)
        },
    ]
}

/// The summary above the explorer table; the counts and the size arrive written as text.
pub fn explorer_summary(
    size_text: &str,
    files_text: &str,
    dirs_text: &str,
    complete: bool,
    pending_text: &str,
    tick: usize,
) -> (parts: Vec<(String, Tone)>)
    ensures
        notice_view(parts@) == explorer_summary_spec(
            size_text@,
            files_text@,
            dirs_text@,
            complete,
            pending_text@,
            tick as int,
        ),
{
    let mut counts = String::from_str(" ");
    counts.append(size_text);
    counts.append(" \u{b7} ");
    counts.append(files_text);
    counts.append(" files \u{b7} ");
    counts.append(dirs_text);
    counts.append(" dirs ");
    let progress = if complete {
        (String::from_str(" \u{2713} complete "), Tone::Success)
    } else {
        let mut text = String::from_str(" ");
        text.append(spinner(tick));
        text.append(" scanning \u{b7} ");
        text.append(pending_text);
        text.append(" pending ");
        (text, Tone::Key)
    };
    let mut parts: Vec<(String, Tone)> = Vec::new();
    parts.push((counts, Tone::Text));
    parts.push(progress);
    assert(notice_view(parts@) =~= explorer_summary_spec(
        size_text@,
        files_text@,
        dirs_text@,
        complete,
        pending_text@,
        tick as int,
    ));
    parts
}

// ---------------------------------------------------------------------------------------
// The breakdown of the root on the dashboard
// ---------------------------------------------------------------------------------------

/// The state column of a directory of the breakdown, as one glyph.
pub open spec fn badge_glyph(badge: RowBadge, tick: int) -> (Seq<char>, Tone) {
    match badge {
        RowBadge::Scanning => (spinner_frame(tick % 10), Tone::Key),
        RowBadge::Complete => ("\u{2713}"@, Tone::Faint),
        RowBadge::Dense => ("\u{2261}"@, Tone::Warning),
        RowBadge::Denied => ("\u{2298}"@, Tone::Danger),
        RowBadge::Failed => ("!"@, Tone::Danger),
        RowBadge::Boundary => ("\u{2933}"@, Tone::Muted),
        RowBadge::Lazy | RowBadge::File => (Seq::empty(), Tone::Faint),
    }
}

/// The cells of a directory of the breakdown: its name, size, share, entries and state.
pub open spec fn root_cells_spec(
    name: Seq<char>,
    size: Seq<char>,
    share: Seq<char>,
    items: Seq<char>,
    badge: RowBadge,
    tick: int,
) -> Seq<(Seq<char>, Tone)> {
    seq![
        (name, Tone::Directory),
        (pad_left(size, 10), Tone::Text),
        (pad_left(share, 6), Tone::Muted),
        (pad_left(items, 8), Tone::Muted),
        badge_glyph(badge, tick),
    ]
}

/// The cells of a directory of the breakdown; the size, share and entries arrive written as
/// text, `tick` turns the spinner.
pub fn root_row_cells(
    name: &str,
    size_text: &str,
    share_text: &str,
    items_text: &str,
    badge: RowBadge,
    tick: usize,
) -> (cells: Vec<(String, Tone)>)
    ensures
        notice_view(cells@) == root_cells_spec(
            name@,
            size_text@,
            share_text@,
            items_text@,
            badge,
            tick as int,
        ),
{
    let mut cells: Vec<(String, Tone)> = Vec::new();
    cells.push((String::from_str(name), Tone::Directory));
    cells.push((padded_left(size_text, 10), Tone::Text));
    cells.push((padded_left(share_text, 6), Tone::Muted));
    cells.push((padded_left(items_text, 8), Tone::Muted));
    let glyph = match badge {
        RowBadge::Scanning => (String::from_str(spinner(tick)), Tone::Key),
        RowBadge::Complete => (String::from_str("\u{2713}"), Tone::Faint),
        RowBadge::Dense => (String::from_str("\u{2261}"), Tone::Warning),
        RowBadge::Denied => (String::from_str("\u{2298}"), Tone::Danger),
        RowBadge::Failed => (String::from_str("!"), Tone::Danger),
        RowBadge::Boundary => (String::from_str("\u{2933}"), Tone::Muted),
        RowBadge::Lazy | RowBadge::File => (String::new(), Tone::Faint),
    };
    cells.push(glyph);
    proof {
        reveal_strlit("");
    }
    assert(notice_view(cells@) =~= root_cells_spec(
        name@,
        size_text@,
        share_text@,
        items_text@,
        badge,
        tick as int,
    ));
    cells
}

/// What the root breakdown is, when there is one.
pub struct RootSummary {
    pub size_text: String,
    pub files_text: String,
    pub complete: bool,
}

/// The summary of the breakdown: its size and files, then whether it is complete; without a
/// background scan of the root, that it is disabled.
pub open spec fn root_summary_spec(root: Option<RootSummary>, tick: int) -> Seq<(Seq<char>, Tone)> {
    match root {
        Some(r) => seq![
            (" "@ + r.size_text@ + " \u{b7} "@ + r.files_text@ + " files "@, Tone::Text),
            if r.complete {
                (" \u{2713} "@, Tone::Success)
            } else {
                (" "@ + spinner_frame(tick % 10) + " "@, Tone::Key)
            },
        ],
        None => seq![(" background root scan disabled "@, Tone::Muted)],
    }
}

/// The summary of the breakdown, `tick` turning the spinner.
pub fn root_summary(root: &Option<RootSummary>, tick: usize) -> (parts: Vec<(String, Tone)>)
    ensures
        notice_view(parts@) == root_summary_spec(*root, tick as int),
{
    let mut parts: Vec<(String, Tone)> = Vec::new();
    match root {
        Some(r) => {
            let mut text = String::from_str(" ");
            text.append(r.size_text.as_str());
            text.append(" \u{b7} ");
            text.append(r.files_text.as_str());
            text.append(" files ");
            parts.push((text, Tone::Text));
            if r.complete {
                parts.push((String::from_str(" \u{2713} "), Tone::Success));
            } else {
                let mut state = String::from_str(" ");
                state.append(spinner(tick));
                state.append(" ");
                parts.push((state, Tone::Key));
            }
        },
        None => {
            parts.push((String::from_str(" background root scan disabled "), Tone::Muted));
        },
    }
    assert(notice_view(parts@) =~= root_summary_spec(*root, tick as int));
    parts
}

// ---------------------------------------------------------------------------------------
// The heaviest files
// ---------------------------------------------------------------------------------------

/// A file's path as the list shows it: below the search's origin when it lies there, as it
/// is otherwise.
pub open spec fn relative_spec(path: Seq<char>, origin: Option<Seq<char>>) -> Seq<char> {
    match origin {
        Some(o) => match path_strip(path, o) {
            Some(rest) => rest,
            None => path,
        },
        None => path,
    }
}

/// The cells of the file at `index` of the heaviest-files list: whether it is marked, its
/// position, its kind symbol, its path below the origin, and its size (`size`).
pub open spec fn heaviest_cells_spec(
    index: int,
    path: Seq<char>,
    origin: Option<Seq<char>>,
    marks: Seq<(Seq<char>, crate::marks::MarkedItem)>,
    symbol: Seq<char>,
    size: Seq<char>,
) -> Seq<(Seq<char>, Tone)> {
    seq![
        if has_key(marks, path_normal(path)) {
            ("\u{25cf}"@, Tone::Key)
        } else {
            (" "@, Tone::Text)
        },
        (pad_left(decimal((index + 1) as nat), 4), Tone::Faint),
        (symbol + " "@, Tone::Faint),
        (relative_spec(path, origin), Tone::File),
        (pad_left(size, 10), Tone::Text),
    ]
}

/// The cells of the file at `index` of the heaviest-files list; `symbol` is the symbol of
/// its kind and `size_text` its size, as the interface writes sizes.
pub fn heaviest_row_cells(
    index: usize,
    path: &str,
    origin: Option<&str>,
    marks: &Marks,
    symbol: &str,
    size_text: &str,
) -> (cells: Vec<(String, Tone)>)
    requires
        index < usize::MAX,
    ensures
        notice_view(cells@) == heaviest_cells_spec(
            index as int,
            path@,
            match origin {
                Some(o) => Some(o@),
                None => None,
            },
            marks@,
            symbol@,
            size_text@,
        ),
{
    let mut cells: Vec<(String, Tone)> = Vec::new();
    if marks.contains(path) {
        cells.push((String::from_str("\u{25cf}"), Tone::Key));
    } else {
        cells.push((String::from_str(" "), Tone::Text));
    }
    let position = decimal_string((index + 1) as u64);
    cells.push((padded_left(position.as_str(), 4), Tone::Faint));
    let mut kind = String::from_str(symbol);
    kind.append(" ");
    cells.push((kind, Tone::Faint));
    let relative = match origin {
        Some(o) => match strip_path_prefix(path, o) {
            Some(rest) => rest,
            None => String::from_str(path),
        },
        None => String::from_str(path),
    };
    cells.push((relative, Tone::File));
    cells.push((padded_left(size_text, 10), Tone::Text));
    assert(notice_view(cells@) =~= heaviest_cells_spec(
        index as int,
        path@,
        match origin {
            Some(o) => Some(o@),
            None => None,
        },
        marks@,
        symbol@,
        size_text@,
    ));
    cells
}

/// A search for the heaviest files, as its summary shows it.
pub struct SearchSummary {
    pub limit: usize,
    pub files_seen_text: String,
    pub elapsed_text: String,
    pub complete: bool,
}

/// The summary of the heaviest-files list: how many files it keeps, how many it has seen
/// and for how long, and whether it is done; with no search, how to start one.
pub open spec fn search_summary_spec(search: Option<SearchSummary>, tick: int) -> Seq<
    (Seq<char>, Tone),
> {
    match search {
        Some(q) => seq![
            (
                " top "@ + decimal(q.limit as nat) + " \u{b7} "@ + q.files_seen_text@
                    + " files seen \u{b7} "@ + q.elapsed_text@ + " "@,
                Tone::Text,
            ),
            if q.complete {
                (" \u{2713} "@, Tone::Success)
            } else {
                (" "@ + spinner_frame(tick % 10) + " "@, Tone::Key)
            },
        ],
        None => seq![(" press T in the explorer "@, Tone::Muted)],
    }
}

/// The summary of the heaviest-files list, `tick` turning the spinner.
pub fn search_summary(search: &Option<SearchSummary>, tick: usize) -> (parts: Vec<(String, Tone)>)
    ensures
        notice_view(parts@) == search_summary_spec(*search, tick as int),
{
    let mut parts: Vec<(String, Tone)> = Vec::new();
    match search {
        Some(q) => {
            let mut text = String::from_str(" top ");
            text.append(decimal_string(q.limit as u64).as_str());
            text.append(" \u{b7} ");
            text.append(q.files_seen_text.as_str());
            text.append(" files seen \u{b7} ");
            text.append(q.elapsed_text.as_str());
            text.append(" ");
            parts.push((text, Tone::Text));
            if q.complete {
                parts.push((String::from_str(" \u{2713} "), Tone::Success));
            } else {
                let mut state = String::from_str(" ");
                state.append(spinner(tick));
                state.append(" ");
                parts.push((state, Tone::Key));
            }
        },
        None => {
            parts.push((String::from_str(" press T in the explorer "), Tone::Muted));
        },
    }
    assert(notice_view(parts@) =~= search_summary_spec(*search, tick as int));
    parts
}

/// What an empty heaviest-files list says: searching, nothing found, or how to start.
pub open spec fn search_empty_spec(search: Option<bool>, tick: int) -> Seq<char> {
    match search {
        Some(complete) => if !complete {
            spinner_frame(tick % 10) + " searching\u{2026}"@
        } else {
            "no files found"@
        },
        None => "open a directory in the explorer and press T"@,
    }
}

/// What an empty heaviest-files list says; `search` tells whether the search (when there
/// is one) is complete.
pub fn search_empty_message(search: Option<bool>, tick: usize) -> (text: String)
    ensures
        text@ == search_empty_spec(search, tick as int),
{
    match search {
        Some(complete) => if !complete {
            let mut text = String::from_str(spinner(tick));
            text.append(" searching\u{2026}");
            text
        } else {
            String::from_str("no files found")
        },
        None => String::from_str("open a directory in the explorer and press T"),
    }
}

// ---------------------------------------------------------------------------------------
// The cleaner
// ---------------------------------------------------------------------------------------

/// Why a cleaning target cannot be selected, if it cannot.
#[derive(Clone, Debug)]
pub enum Protection {
    /// It can be selected.
    Open,
    /// A protection rule of the configuration matches it.
    Rule(String),
    /// Something uses it.
    InUse(String),
}

/// What cleaning a target does.
#[derive(Clone, Copy, Debug, PartialEq, Eq, Structural)]
pub enum TargetAction {
    EmptiesFolder,
    RemovesFolder,
    DockerImage,
    DockerPrune,
    Command,
}

/// What the cleaner shows of one target.
pub struct TargetFacts {
    pub label: String,
    pub selected: bool,
    pub protection: Protection,
    pub requires_privileges: bool,
    pub action: TargetAction,
    /// Its size is still being measured.
    pub measuring: bool,
}

/// The checkbox of a target: ticked or not when it can be selected, a dash when it is
/// protected.
pub open spec fn checkbox_spec(target: TargetFacts) -> (Seq<char>, Tone) {
    match target.protection {
        Protection::Open => if target.selected {
            ("[x]"@, Tone::Success)
        } else {
            ("[ ]"@, Tone::Muted)
        },
        _ => ("[-]"@, Tone::Faint),
    }
}

/// The size column of a target: its size (`size`), with a spinner while it is measured;
/// unknown, a spinner, or `?` for a command.
pub open spec fn target_size_spec(target: TargetFacts, size: Option<Seq<char>>, tick: int) -> Seq<
    char,
> {
    match size {
        Some(text) => if !target.measuring {
            text
        } else {
            spinner_frame(tick % 10) + " "@ + text
        },
        None => if target.action == TargetAction::Command {
            "?"@
        } else {
            spinner_frame(tick % 10)
        },
    }
}

/// The notes of a target: why it is protected, that it needs sudo, or what cleaning it
/// does.
pub open spec fn target_note_spec(target: TargetFacts) -> (Seq<char>, Tone) {
    match target.protection {
        Protection::Rule(rule) => ("protected: "@ + rule@, Tone::Warning),
        Protection::InUse(reason) => ("in use: "@ + reason@, Tone::Warning),
        Protection::Open => if target.requires_privileges {
            ("needs sudo"@, Tone::Warning)
        } else {
            (
                match target.action {
                    TargetAction::EmptiesFolder => "empties folder"@,
                    TargetAction::RemovesFolder => "removes folder"@,
                    TargetAction::DockerImage => "docker image rm"@,
                    TargetAction::DockerPrune => "docker prune"@,
                    TargetAction::Command => "runs command"@,
                },
                Tone::Faint,
            )
        },
    }
}

/// The cells of a target row: the checkbox, the label, the size and the notes.
pub open spec fn target_cells_spec(target: TargetFacts, size: Option<Seq<char>>, tick: int) -> Seq<
    (Seq<char>, Tone),
> {
    seq![
        checkbox_spec(target),
        ("   "@ + target.label@, if target.protection is Open {
            Tone::File
        } else {
            Tone::Faint
        }),
        (pad_left(target_size_spec(target, size, tick), 10), Tone::Text),
        target_note_spec(target),
    ]
}

/// The cells of a target row; `size_text` is its size, as the interface writes sizes, when
/// it is known.
pub fn target_row_cells(target: &TargetFacts, size_text: Option<&str>, tick: usize) -> (cells: Vec<
    (String, Tone),
>)
    ensures
        notice_view(cells@) == target_cells_spec(
            *target,
            match size_text {
                Some(t) => Some(t@),
                None => None,
            },
            tick as int,
        ),
{
    let mut cells: Vec<(String, Tone)> = Vec::new();
    let unprotected = match &target.protection {
        Protection::Open => true,
        _ => false,
    };
    if unprotected {
        if target.selected {
            cells.push((String::from_str("[x]"), Tone::Success));
        } else {
            cells.push((String::from_str("[ ]"), Tone::Muted));
        }
    } else {
        cells.push((String::from_str("[-]"), Tone::Faint));
    }
    let mut label = String::from_str("   ");
    label.append(target.label.as_str());
    cells.push(
        (
            label,
            if unprotected {
                Tone::File
            } else {
                Tone::Faint
            },
        ),
    );
    let size = match size_text {
        Some(text) => if !target.measuring {
            String::from_str(text)
        } else {
            let mut shown = String::from_str(spinner(tick));
            shown.append(" ");
            shown.append(text);
            shown
        },
        None => match target.action {
            TargetAction::Command => String::from_str("?"),
            _ => String::from_str(spinner(tick)),
        },
    };
    cells.push((padded_left(size.as_str(), 10), Tone::Text));
    let note = match &target.protection {
        Protection::Rule(rule) => {
            let mut text = String::from_str("protected: ");
            text.append(rule.as_str());
            (text, Tone::Warning)
        },
        Protection::InUse(reason) => {
            let mut text = String::from_str("in use: ");
            text.append(reason.as_str());
            (text, Tone::Warning)
        },
        Protection::Open => if target.requires_privileges {
            (String::from_str("needs sudo"), Tone::Warning)
        } else {
            (
                String::from_str(
                    match target.action {
                        TargetAction::EmptiesFolder => "empties folder",
                        TargetAction::RemovesFolder => "removes folder",
                        TargetAction::DockerImage => "docker image rm",
                        TargetAction::DockerPrune => "docker prune",
                        TargetAction::Command => "runs command",
                    },
                ),
                Tone::Faint,
            )
        },
    };
    cells.push(note);
    assert(notice_view(cells@) =~= target_cells_spec(
        *target,
        match size_text {
            Some(t) => Some(t@),
            None => None,
        },
        tick as int,
    ));
    cells
}

/// The cells of a category row: whether it is folded, its label and number of targets,
/// their size together (`total`), and how many of them are selected.
pub open spec fn category_cells_spec(
    folded: bool,
    label: Seq<char>,
    members: nat,
    total: Seq<char>,
    selected: nat,
) -> Seq<(Seq<char>, Tone)> {
    seq![
        (if folded {
            "\u{25b8}"@
        } else {
            "\u{25be}"@
        }, Tone::Key),
        (label + " ("@ + decimal(members) + ")"@, Tone::Title),
        (pad_left(total, 10), Tone::Text),
        (decimal(selected) + "/"@ + decimal(members) + " selected"@, Tone::Muted),
    ]
}

/// The cells of a category row.
pub fn category_row_cells(
    folded: bool,
    label: &str,
    members: usize,
    total_text: &str,
    selected: usize,
) -> (cells: Vec<(String, Tone)>)
    ensures
        notice_view(cells@) == category_cells_spec(
            folded,
            label@,
            members as nat,
            total_text@,
            selected as nat,
        ),
{
    let mut cells: Vec<(String, Tone)> = Vec::new();
    cells.push(
        (
            String::from_str(
                if folded {
                    "\u{25b8}"
                } else {
                    "\u{25be}"
                },
            ),
            Tone::Key,
        ),
    );
    let count = decimal_string(members as u64);
    let mut name = String::from_str(label);
    name.append(" (");
    name.append(count.as_str());
    name.append(")");
    cells.push((name, Tone::Title));
    cells.push((padded_left(total_text, 10), Tone::Text));
    let mut chosen = decimal_string(selected as u64);
    chosen.append("/");
    chosen.append(count.as_str());
    chosen.append(" selected");
    cells.push((chosen, Tone::Muted));
    assert(notice_view(cells@) =~= category_cells_spec(
        folded,
        label@,
        members as nat,
        total_text@,
        selected as nat,
    ));
    cells
}

/// The summary of the cleaner: how many targets are selected and about how much they free
/// (`total`), then whether a run is going, targets are still found and measured, or it is
/// ready.
pub open spec fn cleaner_summary_spec(
    selected: nat,
    total: Seq<char>,
    running: bool,
    busy: bool,
    tick: int,
) -> Seq<(Seq<char>, Tone)> {
    seq![
        (" "@ + decimal(selected) + " selected \u{b7} about "@ + total + " reclaimable "@, Tone::Text),
        if running {
            (" "@ + spinner_frame(tick % 10) + " cleaning\u{2026} "@, Tone::Key)
        } else if busy {
            (" "@ + spinner_frame(tick % 10) + " discovering and measuring\u{2026} "@, Tone::Key)
        } else {
            (" \u{2713} ready "@, Tone::Success)
        },
    ]
}

/// The summary of the cleaner, `tick` turning the spinner.
pub fn cleaner_summary(
    selected: usize,
    total_text: &str,
    running: bool,
    busy: bool,
    tick: usize,
) -> (parts: Vec<(String, Tone)>)
    ensures
        notice_view(parts@) == cleaner_summary_spec(
            selected as nat,
            total_text@,
            running,
            busy,
            tick as int,
        ),
{
    let mut text = String::from_str(" ");
    text.append(decimal_string(selected as u64).as_str());
    text.append(" selected \u{b7} about ");
    text.append(total_text);
    text.append(" reclaimable ");
    let state = if running {
        let mut t = String::from_str(" ");
        t.append(spinner(tick));
        t.append(" cleaning\u{2026} ");
        (t, Tone::Key)
    } else if busy {
        let mut t = String::from_str(" ");
        t.append(spinner(tick));
        t.append(" discovering and measuring\u{2026} ");
        (t, Tone::Key)
    } else {
        (String::from_str(" \u{2713} ready "), Tone::Success)
    };
    let mut parts: Vec<(String, Tone)> = Vec::new();
    parts.push((text, Tone::Text));
    parts.push(state);
    assert(notice_view(parts@) =~= cleaner_summary_spec(
        selected as nat,
        total_text@,
        running,
        busy,
        tick as int,
    ));
    parts
}

/// Whether Docker can be used for cleaning.
#[derive(Clone, Debug)]
pub enum DockerState {
    Disabled,
    Checking,
    Available(String),
    Unavailable(String),
}

/// The notice above the cleaner's table: Docker's state, then, after a run, what the last
/// run did (`freed` is the space it freed).
pub open spec fn cleaner_notice_spec(
    docker: DockerState,
    last_run: Option<CleaningReport>,
    freed: Seq<char>,
    tick: int,
) -> Seq<(Seq<char>, Tone)> {
    seq![
        match docker {
            DockerState::Disabled => ("docker: disabled in config"@, Tone::Faint),
            DockerState::Checking => ("docker: "@ + spinner_frame(tick % 10) + " checking"@, Tone::Muted),
            DockerState::Available(version) => ("docker: "@ + version@, Tone::Success),
            DockerState::Unavailable(reason) => (
                "docker: unavailable ("@ + fit_spec(reason@, 60, false) + ")"@,
                Tone::Warning,
            ),
        },
    ] + match last_run {
        Some(report) => {
            let kinds = cleaning_kinds(report.outcomes@);
            seq![
                (
                    "  \u{b7}  last run: "@ + decimal(count_kind(kinds, OutcomeKind::Succeeded))
                        + " cleaned, "@ + decimal(count_kind(kinds, OutcomeKind::Failed))
                        + " failed, about "@ + freed + " freed"@,
                    Tone::Muted,
                ),
            ]
        },
        None => Seq::empty(),
    }
}

/// The notice above the cleaner's table; `freed_text` is the space the last run freed, as
/// the interface writes sizes.
pub fn cleaner_notice(
    docker: &DockerState,
    last_run: &Option<CleaningReport>,
    freed_text: &str,
    tick: usize,
) -> (parts: Vec<(String, Tone)>)
    ensures
        notice_view(parts@) == cleaner_notice_spec(*docker, *last_run, freed_text@, tick as int),
{
    let first = match docker {
        DockerState::Disabled => (String::from_str("docker: disabled in config"), Tone::Faint),
        DockerState::Checking => {
            let mut t = String::from_str("docker: ");
            t.append(spinner(tick));
            t.append(" checking");
            (t, Tone::Muted)
        },
        DockerState::Available(version) => {
            let mut t = String::from_str("docker: ");
            t.append(version.as_str());
            (t, Tone::Success)
        },
        DockerState::Unavailable(reason) => {
            let mut t = String::from_str("docker: unavailable (");
            t.append(fit(reason.as_str(), 60, false).as_str());
            t.append(")");
            (t, Tone::Warning)
        },
    };
    let mut parts: Vec<(String, Tone)> = Vec::new();
    parts.push(first);
    match last_run {
        Some(report) => {
            let kinds = cleaning_kinds_of(report.outcomes.as_slice());
            let mut t = String::from_str("  \u{b7}  last run: ");
            t.append(decimal_string(count_of(kinds.as_slice(), OutcomeKind::Succeeded) as u64).as_str());
            t.append(" cleaned, ");
            t.append(decimal_string(count_of(kinds.as_slice(), OutcomeKind::Failed) as u64).as_str());
            t.append(" failed, about ");
            t.append(freed_text);
            t.append(" freed");
            parts.push((t, Tone::Muted));
        },
        None => {},
    }
    assert(notice_view(parts@) =~= cleaner_notice_spec(*docker, *last_run, freed_text@, tick as int));
    parts
}

/// What an empty cleaner table says: still looking, or nothing found.
pub open spec fn cleaner_empty_spec(busy: bool, tick: int) -> Seq<char> {
    if busy {
        spinner_frame(tick % 10) + " looking for reclaimable space\u{2026}"@
    } else {
        "nothing to clean was found"@
    }
}

/// What an empty cleaner table says, `tick` turning the spinner.
pub fn cleaner_empty_message(busy: bool, tick: usize) -> (text: String)
    ensures
        text@ == cleaner_empty_spec(busy, tick as int),
{
    if busy {
        let mut text = String::from_str(spinner(tick));
        text.append(" looking for reclaimable space\u{2026}");
        text
    } else {
        String::from_str("nothing to clean was found")
    }
}

} // verus!
