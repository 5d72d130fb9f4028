//! The lines that describe what is going on: the scanner's state in the header, and the
//! notice above the explorer table (what is special about the directory shown, how far its
//! file listing got, the filter, and how many rows the limit hides).

use vstd::prelude::*;

use crate::explorer::ExplorerState;
use crate::formatting::{count, decimal, decimal_string, grouped, spinner, spinner_frame};
use crate::model::SizeMode;

verus! {

/// How a part of a status or notice line is drawn.
#[derive(Clone, Copy, Debug, PartialEq, Eq, Structural)]
pub enum Tone {
    Success,
    Warning,
    Danger,
    Muted,
    Key,
    Faint,
    /// Plain text.
    Text,
    Title,
    Directory,
    File,
}

/// How far the listing of the files of the directory got.
#[derive(Clone, Copy, Debug, PartialEq, Eq, Structural)]
pub enum FileListing {
    /// Not asked for.
    Absent,
    Loading,
    /// `shown` files are listed of `total`; `truncated` when the rest were left out.
    Loaded { shown: usize, total: u64, truncated: bool },
}

/// What the scanner knows of the directory shown.
pub struct DirectoryFacts {
    /// Summed in aggregate and never listed.
    pub dense: bool,
    pub access_denied: bool,
    /// The number of entries below the directory, written compactly.
    pub entries_text: String,
    /// Subdirectories below it that could not be read.
    pub unreadable_descendants: u64,
    pub listing: FileListing,
}

/// The notice as text and tone.
pub open spec fn notice_view(parts: Seq<(String, Tone)>) -> Seq<(Seq<char>, Tone)> {
    parts.map_values(|part: (String, Tone)| (part.0@, part.1))
}

/// What is special about the directory: dense, unreadable, or with unreadable
/// subdirectories, the first of these that holds.
pub open spec fn condition_part(facts: DirectoryFacts) -> Seq<(Seq<char>, Tone)> {
    if facts.dense {
        seq![
            (
                "\u{2261} dense directory ("@ + facts.entries_text@
                    + " entries): children are summed, not listed \u{b7} :expand forces a full listing"@,
                Tone::Warning,
            ),
        ]
    } else if facts.access_denied {
        seq![
            (
                "\u{2298} permission denied \u{b7} grant Full Disk Access to your terminal (System Settings \u{2192} Privacy & Security) or run with sudo"@,
                Tone::Danger,
            ),
        ]
    } else if facts.unreadable_descendants > 0 {
        seq![
            (
                "\u{2298} "@ + decimal(facts.unreadable_descendants as nat)
                    + " subdirectories could not be read"@,
                Tone::Warning,
            ),
        ]
    } else {
        Seq::empty()
    }
}

/// How far the file listing got: still loading, or cut to the largest files.
pub open spec fn listing_part(listing: FileListing, tick: usize) -> Seq<(Seq<char>, Tone)> {
    match listing {
        FileListing::Loading => seq![
            ("  "@ + spinner_frame((tick % 10) as int) + " listing files"@, Tone::Muted),
        ],
        FileListing::Loaded { shown, total, truncated } => if truncated {
            seq![
                (
                    "  showing the "@ + decimal(shown as nat) + " largest of "@ + grouped(
                        total as nat,
                    ) + " files"@,
                    Tone::Muted,
                ),
            ]
        } else {
            Seq::empty()
        },
        FileListing::Absent => Seq::empty(),
    }
}

/// The filter in force.
pub open spec fn filter_part(filter: Option<String>) -> Seq<(Seq<char>, Tone)> {
    match filter {
        Some(text) => seq![("  filter: "@ + text@ + " (esc clears)"@, Tone::Key)],
        None => Seq::empty(),
    }
}

/// How many rows the limit hides, when it hides any.
pub open spec fn limit_part(shown: nat, unlimited: nat) -> Seq<(Seq<char>, Tone)> {
    if unlimited > shown {
        seq![
            (
                "  "@ + decimal(shown) + " of "@ + grouped(unlimited)
                    + " rows (+/- changes the limit)"@,
                Tone::Faint,
            ),
        ]
    } else {
        Seq::empty()
    }
}

/// The notice line: the parts above that apply, in that order; when none does, how many
/// items there are and by which size they are sorted.
pub open spec fn notice_spec(
    explorer: ExplorerState,
    facts: DirectoryFacts,
    tick: usize,
    mode: SizeMode,
) -> Seq<(Seq<char>, Tone)> {
    let parts = condition_part(facts) + listing_part(facts.listing, tick) + filter_part(
        explorer.filter,
    ) + limit_part(explorer.rows@.len(), explorer.unlimited_row_count as nat);
    if parts.len() == 0 {
        seq![
            (
                grouped(explorer.unlimited_row_count as nat) + " items \u{b7} sorted by "@
                    + mode.label_spec() + " size"@,
                Tone::Faint,
            ),
        ]
    } else {
        parts
    }
}

/// The notice line above the explorer table, `tick` turning the spinner.
pub fn explorer_notice(
    explorer: &ExplorerState,
    facts: &DirectoryFacts,
    tick: usize,
    mode: SizeMode,
) -> (parts: Vec<(String, Tone)>)
    ensures
        notice_view(parts@) == notice_spec(*explorer, *facts, tick, mode),
{
    let mut parts: Vec<(String, Tone)> = Vec::new();
    if facts.dense {
        let mut text = String::from_str("\u{2261} dense directory (");
        text.append(facts.entries_text.as_str());
        text.append(" entries): children are summed, not listed \u{b7} :expand forces a full listing");
        parts.push((text, Tone::Warning));
    } else if facts.access_denied {
        parts.push(
            (
                String::from_str(
                    "\u{2298} permission denied \u{b7} grant Full Disk Access to your terminal (System Settings \u{2192} Privacy & Security) or run with sudo",
                ),
                Tone::Danger,
            ),
        );
    } else if facts.unreadable_descendants > 0 {
        let mut text = String::from_str("\u{2298} ");
        text.append(decimal_string(facts.unreadable_descendants).as_str());
        text.append(" subdirectories could not be read");
        parts.push((text, Tone::Warning));
    }
    assert(notice_view(parts@) =~= condition_part(*facts));
    let ghost after_condition = parts@;
    match facts.listing {
        FileListing::Loading => {
            let mut text = String::from_str("  ");
            text.append(spinner(tick));
            text.append(" listing files");
            parts.push((text, Tone::Muted));
        },
        FileListing::Loaded { shown, total, truncated } => {
            if truncated {
                let mut text = String::from_str("  showing the ");
                text.append(decimal_string(shown as u64).as_str());
                text.append(" largest of ");
                text.append(count(total).as_str());
                text.append(" files");
                parts.push((text, Tone::Muted));
            }
        },
        FileListing::Absent => {},
    }
    assert(notice_view(parts@) =~= condition_part(*facts) + listing_part(facts.listing, tick));
    match &explorer.filter {
        Some(filter) => {
            let mut text = String::from_str("  filter: ");
            text.append(filter.as_str());
            text.append(" (esc clears)");
            parts.push((text, Tone::Key));
        },
        None => {},
    }
    assert(notice_view(parts@) =~= condition_part(*facts) + listing_part(facts.listing, tick)
        + filter_part(explorer.filter));
    if explorer.unlimited_row_count > explorer.rows.len() {
        let mut text = String::from_str("  ");
        text.append(decimal_string(explorer.rows.len() as u64).as_str());
        text.append(" of ");
        text.append(count(explorer.unlimited_row_count as u64).as_str());
        text.append(" rows (+/- changes the limit)");
        parts.push((text, Tone::Faint));
    }
    assert(notice_view(parts@) =~= condition_part(*facts) + listing_part(facts.listing, tick)
        + filter_part(explorer.filter) + limit_part(
        explorer.rows@.len(),
        explorer.unlimited_row_count as nat,
    ));
    if parts.len() == 0 {
        let mut text = count(explorer.unlimited_row_count as u64);
        text.append(" items \u{b7} sorted by ");
        text.append(mode.label());
        text.append(" size");
        parts.push((text, Tone::Faint));
        assert(notice_view(parts@) =~= notice_spec(*explorer, *facts, tick, mode));
    }
    parts
}

// ---------------------------------------------------------------------------------------
// The scanner's state
// ---------------------------------------------------------------------------------------

/// What the scanner is doing, and how much it has done.
pub struct ScanFacts {
    pub idle: bool,
    pub background_paused: bool,
    /// Directories waiting in the focused and the urgent queue.
    pub focused_queued: usize,
    pub urgent_queued: usize,
    /// Files measured, directories listed, files per second and directories queued in all,
    /// written compactly.
    pub files_text: String,
    pub directories_text: String,
    pub rate_text: String,
    pub queued_text: String,
    pub busy_workers: usize,
    pub workers: usize,
}

/// The badge of the scanner's state: idle, paused (when nothing focused or urgent waits),
/// or scanning with the spinner turned by `tick`.
pub open spec fn scan_badge_spec(facts: ScanFacts, tick: usize) -> (Seq<char>, Tone) {
    if facts.idle {
        (" \u{2713} idle "@, Tone::Success)
    } else if facts.background_paused && facts.focused_queued == 0 && facts.urgent_queued == 0 {
        (" \u{2016} paused "@, Tone::Warning)
    } else {
        (" "@ + spinner_frame((tick % 10) as int) + " scanning "@, Tone::Key)
    }
}

/// The scanner's state line: the badge, then what it has measured and how busy it is.
pub open spec fn scan_line_spec(facts: ScanFacts, tick: usize) -> Seq<(Seq<char>, Tone)> {
    seq![
        scan_badge_spec(facts, tick),
        (
            facts.files_text@ + " files \u{b7} "@ + facts.directories_text@ + " dirs \u{b7} "@
                + facts.rate_text@ + " files/s \u{b7} "@ + decimal(facts.busy_workers as nat) + "/"@
                + decimal(facts.workers as nat) + " thr \u{b7} queue "@ + facts.queued_text@ + " "@,
            Tone::Muted,
        ),
    ]
}

/// The scanner's state line, `tick` turning the spinner.
pub fn scan_status_line(facts: &ScanFacts, tick: usize) -> (parts: Vec<(String, Tone)>)
    ensures
        notice_view(parts@) == scan_line_spec(*facts, tick),
{
    let badge = if facts.idle {
        (String::from_str(" \u{2713} idle "), Tone::Success)
    } else if facts.background_paused && facts.focused_queued == 0 && facts.urgent_queued == 0 {
        (String::from_str(" \u{2016} paused "), Tone::Warning)
    } else {
        let mut text = String::from_str(" ");
        text.append(spinner(tick));
        text.append(" scanning ");
        (text, Tone::Key)
    };
    let mut stats = facts.files_text.clone();
    stats.append(" files \u{b7} ");
    stats.append(facts.directories_text.as_str());
    stats.append(" dirs \u{b7} ");
    stats.append(facts.rate_text.as_str());
    stats.append(" files/s \u{b7} ");
    stats.append(decimal_string(facts.busy_workers as u64).as_str());
    stats.append("/");
    stats.append(decimal_string(facts.workers as u64).as_str());
    stats.append(" thr \u{b7} queue ");
    stats.append(facts.queued_text.as_str());
    stats.append(" ");
    let mut parts: Vec<(String, Tone)> = Vec::new();
    parts.push(badge);
    parts.push((stats, Tone::Muted));
    assert(notice_view(parts@) =~= scan_line_spec(*facts, tick));
    parts
}

} // verus!
