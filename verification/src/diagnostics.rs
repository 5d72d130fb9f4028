//! Dialogs and status lines that report on the scanner and the configuration file:
//! `:stats`, `:config` and `:mounts`.

use vstd::prelude::*;

use crate::commands::{status_is, Session};
use crate::dialogs::{MessageDialog, Overlay, Severity};
use crate::formatting::{count, decimal, decimal_string, grouped};
use crate::text::texts_of;

verus! {

/// What the scanner, the queue and the tree report, as `:stats` shows it. The elapsed time
/// and the bytes measured come already written out.
pub struct ScannerFigures {
    pub elapsed_text: String,
    pub directories_listed: u64,
    pub files_measured: u64,
    pub bytes_text: String,
    pub files_per_second: u64,
    pub dense_directories: u64,
    pub unreadable_directories: u64,
    pub permission_denied: u64,
    pub hard_links_skipped: u64,
    pub worker_count: usize,
    pub busy_workers: usize,
    pub urgent_queue: usize,
    pub focused_queue: usize,
    pub background_queue: usize,
    pub background_paused: bool,
    pub reader_name: String,
    pub live_nodes: u64,
    pub roots: usize,
    pub events_applied: u64,
    pub dense_threshold: u64,
    pub materialize_depth: u64,
    pub max_depth: u64,
    pub mount_points: usize,
    /// The directory the scanner works on first, if any.
    pub focus: Option<String>,
}

/// `true` or `false`, as `{}` writes a `bool`.
pub open spec fn bool_text(value: bool) -> Seq<char> {
    if value {
        "true"@
    } else {
        "false"@
    }
}

/// The lines of the scanner statistics: the scan so far, then the workers and the queue,
/// then the tree and the policy.
pub open spec fn statistics_lines(f: ScannerFigures) -> Seq<Seq<char>> {
    seq![
        "Elapsed              "@ + f.elapsed_text@,
        "Directories listed   "@ + grouped(f.directories_listed as nat),
        "Files measured       "@ + grouped(f.files_measured as nat),
        "Bytes measured       "@ + f.bytes_text@,
        "Throughput           "@ + grouped(f.files_per_second as nat) + " files/s"@,
        "Dense directories    "@ + grouped(f.dense_directories as nat),
        "Unreadable           "@ + decimal(f.unreadable_directories as nat) + " ("@ + decimal(
            f.permission_denied as nat,
        ) + " permission denied)"@,
        "Hard links skipped   "@ + grouped(f.hard_links_skipped as nat),
        ""@,
        "Workers              "@ + decimal(f.worker_count as nat) + " ("@ + decimal(f.busy_workers as nat)
            + " busy)"@,
        "Queue                "@ + "urgent "@ + decimal(f.urgent_queue as nat) + " \u{b7} focused "@
            + decimal(f.focused_queue as nat) + " \u{b7} background "@ + decimal(
            f.background_queue as nat,
        ),
        "Background paused    "@ + bool_text(f.background_paused),
        "Reader               "@ + f.reader_name@,
        ""@,
        "Tree nodes           "@ + grouped(f.live_nodes as nat) + " live \u{b7} "@ + decimal(
            f.roots as nat,
        ) + " roots"@,
        "Events applied       "@ + grouped(f.events_applied as nat),
        "Dense threshold      "@ + grouped(f.dense_threshold as nat) + " entries"@,
        "Materialise depth    "@ + decimal(f.materialize_depth as nat),
        "Max depth            "@ + decimal(f.max_depth as nat),
        "Mount points known   "@ + decimal(f.mount_points as nat),
        "Focus                "@ + match f.focus {
            Some(path) => path@,
            None => "none"@,
        },
    ]
}

/// `label` followed by `value`.
fn labelled(label: &str, value: &str) -> (line: String)
    ensures
        line@ == label@ + value@,
{
    let mut line = String::from_str(label);
    line.append(value);
    line
}

/// Appends `line` to `lines`.
fn push_line(lines: &mut Vec<String>, line: String)
    ensures
        texts_of(final(lines)@) == texts_of(old(lines)@).push(line@),
{
    lines.push(line);
    assert(texts_of(lines@) =~= texts_of(old(lines)@).push(line@));
}

/// The lines of the scanner statistics.
#[verifier::rlimit(30)]
fn statistics_text(f: &ScannerFigures) -> (lines: Vec<String>)
    ensures
        texts_of(lines@) == statistics_lines(*f),
{
    let mut lines: Vec<String> = Vec::new();
    assert(texts_of(lines@) =~= Seq::empty());
    push_line(&mut lines, labelled("Elapsed              ", f.elapsed_text.as_str()));
    push_line(&mut lines, labelled("Directories listed   ", count(f.directories_listed).as_str()));
    push_line(&mut lines, labelled("Files measured       ", count(f.files_measured).as_str()));
    push_line(&mut lines, labelled("Bytes measured       ", f.bytes_text.as_str()));
    let mut throughput = labelled("Throughput           ", count(f.files_per_second).as_str());
    throughput.append(" files/s");
    push_line(&mut lines, throughput);
    push_line(&mut lines, labelled("Dense directories    ", count(f.dense_directories).as_str()));
    let mut unreadable = labelled(
        "Unreadable           ",
        decimal_string(f.unreadable_directories).as_str(),
    );
    unreadable.append(" (");
    unreadable.append(decimal_string(f.permission_denied).as_str());
    unreadable.append(" permission denied)");
    push_line(&mut lines, unreadable);
    push_line(&mut lines, labelled("Hard links skipped   ", count(f.hard_links_skipped).as_str()));
    push_line(&mut lines, String::new());
    let mut workers = labelled("Workers              ", decimal_string(f.worker_count as u64).as_str());
    workers.append(" (");
    workers.append(decimal_string(f.busy_workers as u64).as_str());
    workers.append(" busy)");
    push_line(&mut lines, workers);
    let mut queue = labelled("Queue                ", "urgent ");
    queue.append(decimal_string(f.urgent_queue as u64).as_str());
    queue.append(" \u{b7} focused ");
    queue.append(decimal_string(f.focused_queue as u64).as_str());
    queue.append(" \u{b7} background ");
    queue.append(decimal_string(f.background_queue as u64).as_str());
    push_line(&mut lines, queue);
    let paused = if f.background_paused {
        "true"
    } else {
        "false"
    };
    push_line(&mut lines, labelled("Background paused    ", paused));
    push_line(&mut lines, labelled("Reader               ", f.reader_name.as_str()));
    push_line(&mut lines, String::new());
    let mut nodes = labelled("Tree nodes           ", count(f.live_nodes).as_str());
    nodes.append(" live \u{b7} ");
    nodes.append(decimal_string(f.roots as u64).as_str());
    nodes.append(" roots");
    push_line(&mut lines, nodes);
    push_line(&mut lines, labelled("Events applied       ", count(f.events_applied).as_str()));
    let mut threshold = labelled("Dense threshold      ", count(f.dense_threshold).as_str());
    threshold.append(" entries");
    push_line(&mut lines, threshold);
    push_line(&mut lines, labelled("Materialise depth    ", decimal_string(f.materialize_depth).as_str()));
    push_line(&mut lines, labelled("Max depth            ", decimal_string(f.max_depth).as_str()));
    push_line(&mut lines, labelled("Mount points known   ", decimal_string(f.mount_points as u64).as_str()));
    let focus = match &f.focus {
        Some(path) => path.as_str(),
        None => "none",
    };
    push_line(&mut lines, labelled("Focus                ", focus));
    proof {
        reveal_strlit("");
        assert(""@ =~= Seq::<char>::empty());
        assert(texts_of(lines@) =~= statistics_lines(*f));
    }
    lines
}

/// The `:stats` dialog.
pub fn statistics_dialog(figures: &ScannerFigures) -> (dialog: MessageDialog)
    ensures
        dialog.title@ == "Scanner statistics"@,
        dialog.severity == Severity::Info,
        texts_of(dialog.lines@) == statistics_lines(*figures),
{
    MessageDialog {
        title: String::from_str("Scanner statistics"),
        lines: statistics_text(figures),
        severity: Severity::Info,
    }
}

/// What the `:config` dialog says of the file: whether it is there yet, and what to do.
pub open spec fn config_file_note(exists: bool) -> Seq<char> {
    if exists {
        "The file exists. Edit it and restart to apply."@
    } else {
        "The file does not exist yet. Use :config save to write the current settings."@
    }
}

/// The `:config` dialog: where the configuration file is and whether it exists.
pub fn config_path_dialog(path_text: &str, exists: bool) -> (dialog: MessageDialog)
    ensures
        dialog.title@ == "Configuration"@,
        dialog.severity == Severity::Info,
        texts_of(dialog.lines@) == seq![path_text@, ""@, config_file_note(exists)],
{
    let mut lines: Vec<String> = Vec::new();
    assert(texts_of(lines@) =~= Seq::empty());
    push_line(&mut lines, String::from_str(path_text));
    assert(texts_of(lines@) =~= seq![path_text@]);
    push_line(&mut lines, String::new());
    if exists {
        push_line(&mut lines, String::from_str("The file exists. Edit it and restart to apply."));
    } else {
        push_line(&mut lines, 
            String::from_str(
                "The file does not exist yet. Use :config save to write the current settings.",
            ),
        );
    }
    proof {
        reveal_strlit("");
        assert(""@ =~= Seq::<char>::empty());
        assert(texts_of(lines@) =~= seq![path_text@, ""@, config_file_note(exists)]);
    }
    MessageDialog { title: String::from_str("Configuration"), lines, severity: Severity::Info }
}

impl Session {
    /// Shows the scanner statistics over the current screen.
    pub fn show_statistics(&mut self, figures: &ScannerFigures)
        ensures
            final(self).overlay matches Some(Overlay::Message(dialog)) && {
                &&& dialog.title@ == "Scanner statistics"@
                &&& dialog.severity == Severity::Info
                &&& texts_of(dialog.lines@) == statistics_lines(*figures)
            },
            *final(self) == (Session { overlay: final(self).overlay, ..*old(self) }),
    {
        self.overlay = Some(Overlay::Message(statistics_dialog(figures)));
    }

    /// Shows where the configuration file is and whether it exists.
    pub fn show_config_path(&mut self, path_text: &str, exists: bool)
        ensures
            final(self).overlay matches Some(Overlay::Message(dialog)) && {
                &&& dialog.title@ == "Configuration"@
                &&& dialog.severity == Severity::Info
                &&& texts_of(dialog.lines@) == seq![path_text@, ""@, config_file_note(exists)]
            },
            *final(self) == (Session { overlay: final(self).overlay, ..*old(self) }),
    {
        self.overlay = Some(Overlay::Message(config_path_dialog(path_text, exists)));
    }

    /// Once the `count` mount points are written to the log: says so, and opens the log.
    pub fn mounts_listed(&mut self, count: usize)
        ensures
            status_is(
                final(self).status,
                decimal(count as nat) + " mount points written to the log (L)"@,
                Severity::Info,
            ),
            final(self).overlay == Some(Overlay::Log),
            *final(self) == (Session {
                status: final(self).status,
                overlay: final(self).overlay,
                ..*old(self)
            }),
    {
        let mut text = decimal_string(count as u64);
        text.append(" mount points written to the log (L)");
        self.show_status(text, Severity::Info);
        self.overlay = Some(Overlay::Log);
    }
}

} // verus!
