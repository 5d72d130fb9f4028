use tree_cleaner::dialogs::{Severity, StatusMessage};
use tree_cleaner::display::{
    category_row_cells, cleaner_empty_message, cleaner_notice, cleaner_summary, explorer_empty_message,
    explorer_row_cells, explorer_summary, footer_line, heaviest_row_cells, root_row_cells, root_summary,
    search_empty_message, search_summary, target_row_cells, DockerState, Protection, RootSummary,
    SearchSummary, TargetAction, TargetFacts,
};
use tree_cleaner::explorer::{ExplorerRow, RowBadge, RowKey};
use tree_cleaner::marks::{MarkedItem, Marks};
use tree_cleaner::model::{ByteSize, CandidateId, CleaningOutcome, CleaningReport, CleaningStatus, NodeId};
use tree_cleaner::notice::Tone;
use tree_cleaner::screen::Screen;

fn texts(parts: &[(String, Tone)]) -> Vec<(&str, Tone)> {
    parts.iter().map(|(text, tone)| (text.as_str(), *tone)).collect()
}

#[test]
fn the_footer_shows_the_line_the_status_or_the_hints() {
    let hints = footer_line(Screen::Heaviest, false, "", &None);
    assert_eq!(
        texts(&hints)[..4],
        [("\u{2191}\u{2193}", Tone::Key), (" select", Tone::Muted), ("  \u{b7}  ", Tone::Faint), ("space", Tone::Key)]
    );
    assert_eq!(hints.len(), 8 * 3 - 1);
    assert_eq!(texts(&footer_line(Screen::Explorer, true, "goto ~", &None)), vec![(" :", Tone::Key), ("goto ~", Tone::Text)]);
    let status = Some(StatusMessage::new("could not reveal".to_owned(), Severity::Error));
    assert_eq!(
        texts(&footer_line(Screen::Explorer, false, "", &status)),
        vec![(" \u{2717} ", Tone::Danger), ("could not reveal", Tone::Danger)]
    );
}

fn row(marked: bool, badge: RowBadge, is_directory: bool) -> ExplorerRow {
    ExplorerRow {
        key: RowKey::Directory(NodeId(1)),
        name: "Projects".to_owned(),
        path: "/h/Projects".to_owned(),
        size: ByteSize(1),
        items: if is_directory { Some(1) } else { None },
        badge,
        is_directory,
        marked,
    }
}

#[test]
fn explorer_rows_as_cells() {
    let cells = explorer_row_cells(0, &row(true, RowBadge::Complete, true), "\u{25b8}", "120 GB", "38%", "234K", 0);
    assert_eq!(
        texts(&cells),
        vec![
            ("\u{25cf}", Tone::Key),
            ("   1", Tone::Faint),
            ("\u{25b8} ", Tone::Directory),
            ("Projects", Tone::Directory),
            ("    120 GB", Tone::Text),
            ("   38%", Tone::Muted),
            ("    234K", Tone::Muted),
            ("\u{2713}", Tone::Faint),
        ]
    );
    let file = explorer_row_cells(2, &row(false, RowBadge::File, false), "\u{b7}", "20 GB", "6.4%", "ignored", 0);
    assert_eq!(file[0].0, " ");
    assert_eq!(file[3].1, Tone::File);
    assert_eq!(file[6].0, "        ");
    assert_eq!(file[7].0, "");
    let scanning = explorer_row_cells(1, &row(false, RowBadge::Scanning, true), "", "", "", "", 9);
    assert_eq!(scanning[7].0, "\u{280b} scanning");
    assert_eq!(explorer_empty_message(true, false, true, 0), "nothing matches the filter");
    assert_eq!(explorer_empty_message(false, true, true, 0), "\u{280b} measuring\u{2026}");
    assert_eq!(explorer_empty_message(true, true, false, 0), "permission denied");
    assert_eq!(explorer_empty_message(true, false, false, 0), "empty directory");
    assert_eq!(
        texts(&explorer_summary("312 GB", "1.2M", "45K", false, "4", 1)),
        vec![(" 312 GB \u{b7} 1.2M files \u{b7} 45K dirs ", Tone::Text), (" \u{2819} scanning \u{b7} 4 pending ", Tone::Key)]
    );
}

#[test]
fn dashboard_and_heaviest_lines() {
    assert_eq!(
        texts(&root_row_cells("Users", "200 GB", "40%", "1.2M", RowBadge::Denied, 0)),
        vec![
            ("Users", Tone::Directory),
            ("    200 GB", Tone::Text),
            ("   40%", Tone::Muted),
            ("    1.2M", Tone::Muted),
            ("\u{2298}", Tone::Danger),
        ]
    );
    assert_eq!(texts(&root_summary(&None, 0)), vec![(" background root scan disabled ", Tone::Muted)]);
    let root = Some(RootSummary { size_text: "500 GB".to_owned(), files_text: "2M".to_owned(), complete: true });
    assert_eq!(texts(&root_summary(&root, 0))[1], (" \u{2713} ", Tone::Success));

    let mut marks = Marks::default();
    marks.toggle("/d/big.iso".to_owned(), MarkedItem { size: ByteSize(1), is_directory: false, node: None, parent_node: None });
    let cells = heaviest_row_cells(0, "/d/big.iso", Some("/d"), &marks, "\u{b7}", "4 GB");
    assert_eq!(
        texts(&cells),
        vec![("\u{25cf}", Tone::Key), ("   1", Tone::Faint), ("\u{b7} ", Tone::Faint), ("big.iso", Tone::File), ("      4 GB", Tone::Text)]
    );
    assert_eq!(heaviest_row_cells(0, "/e/x", Some("/d"), &marks, "", "")[3].0, "/e/x");
    let search = Some(SearchSummary { limit: 100, files_seen_text: "3K".to_owned(), elapsed_text: "2s".to_owned(), complete: false });
    assert_eq!(texts(&search_summary(&search, 0))[0], (" top 100 \u{b7} 3K files seen \u{b7} 2s ", Tone::Text));
    assert_eq!(texts(&search_summary(&None, 0)), vec![(" press T in the explorer ", Tone::Muted)]);
    assert_eq!(search_empty_message(None, 0), "open a directory in the explorer and press T");
    assert_eq!(search_empty_message(Some(true), 0), "no files found");
    assert_eq!(search_empty_message(Some(false), 0), "\u{280b} searching\u{2026}");
}

fn target(protection: Protection, selected: bool, privileged: bool, action: TargetAction) -> TargetFacts {
    TargetFacts { label: "npm cache".to_owned(), selected, protection, requires_privileges: privileged, action, measuring: false }
}

#[test]
fn cleaner_lines() {
    assert_eq!(
        texts(&target_row_cells(&target(Protection::Open, true, false, TargetAction::EmptiesFolder), Some("1 GB"), 0)),
        vec![("[x]", Tone::Success), ("   npm cache", Tone::File), ("      1 GB", Tone::Text), ("empties folder", Tone::Faint)]
    );
    let protected = target_row_cells(&target(Protection::Rule("~/keep/**".to_owned()), true, false, TargetAction::RemovesFolder), None, 0);
    assert_eq!(texts(&protected)[0], ("[-]", Tone::Faint));
    assert_eq!(texts(&protected)[3], ("protected: ~/keep/**", Tone::Warning));
    let command = target_row_cells(&target(Protection::Open, false, true, TargetAction::Command), None, 0);
    assert_eq!(command[0].0, "[ ]");
    assert_eq!(command[2].0, "         ?");
    assert_eq!(command[3].0, "needs sudo");
    assert_eq!(
        texts(&category_row_cells(true, "Caches", 3, "2 GB", 2)),
        vec![("\u{25b8}", Tone::Key), ("Caches (3)", Tone::Title), ("      2 GB", Tone::Text), ("2/3 selected", Tone::Muted)]
    );
    assert_eq!(
        texts(&cleaner_summary(4, "3 GB", false, false, 0)),
        vec![(" 4 selected \u{b7} about 3 GB reclaimable ", Tone::Text), (" \u{2713} ready ", Tone::Success)]
    );
    let report = Some(CleaningReport {
        outcomes: vec![CleaningOutcome {
            candidate: CandidateId(1),
            label: "a".to_owned(),
            status: CleaningStatus::Cleaned,
            detail: String::new(),
            reclaimed: ByteSize(0),
            entries_removed: 0,
        }],
        reclaimed_estimate: ByteSize(0),
    });
    assert_eq!(
        texts(&cleaner_notice(&DockerState::Available("27.0".to_owned()), &report, "1 GB", 0)),
        vec![("docker: 27.0", Tone::Success), ("  \u{b7}  last run: 1 cleaned, 0 failed, about 1 GB freed", Tone::Muted)]
    );
    assert_eq!(texts(&cleaner_notice(&DockerState::Disabled, &None, "", 0)), vec![("docker: disabled in config", Tone::Faint)]);
    assert_eq!(cleaner_empty_message(false, 0), "nothing to clean was found");
}
