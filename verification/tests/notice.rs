use tree_cleaner::explorer::{ExplorerRow, ExplorerState, RowBadge, RowKey};
use tree_cleaner::model::{ByteSize, NodeId, SizeMode};
use tree_cleaner::notice::{explorer_notice, scan_status_line, DirectoryFacts, FileListing, ScanFacts, Tone};

fn facts(listing: FileListing) -> DirectoryFacts {
    DirectoryFacts {
        dense: false,
        access_denied: false,
        entries_text: "1.2M".to_owned(),
        unreadable_descendants: 0,
        listing,
    }
}

fn texts(parts: &[(String, Tone)]) -> Vec<(&str, Tone)> {
    parts.iter().map(|(text, tone)| (text.as_str(), *tone)).collect()
}

#[test]
fn a_plain_directory_says_how_it_is_sorted() {
    let mut explorer = ExplorerState::new(200);
    explorer.unlimited_row_count = 12_345;
    explorer.rows = (0..12_345u32)
        .take(3)
        .map(|i| ExplorerRow {
            key: RowKey::Directory(NodeId(i)),
            name: format!("d{i}"),
            path: format!("/d{i}"),
            size: ByteSize(1),
            items: Some(1),
            badge: RowBadge::Complete,
            is_directory: true,
            marked: false,
        })
        .collect();
    explorer.unlimited_row_count = 3;
    let parts = explorer_notice(&explorer, &facts(FileListing::Absent), 0, SizeMode::Apparent);
    assert_eq!(texts(&parts), vec![("3 items \u{b7} sorted by apparent size", Tone::Faint)]);
    explorer.unlimited_row_count = 12_345;
    let parts = explorer_notice(&explorer, &facts(FileListing::Absent), 0, SizeMode::Apparent);
    assert_eq!(
        texts(&parts),
        vec![("  3 of 12,345 rows (+/- changes the limit)", Tone::Faint)]
    );
}

#[test]
fn dense_directories_and_listings_are_explained() {
    let mut explorer = ExplorerState::new(200);
    explorer.filter = Some("cache".to_owned());
    let mut dense = facts(FileListing::Loaded { shown: 500, total: 20_000, truncated: true });
    dense.dense = true;
    dense.access_denied = true;
    let parts = explorer_notice(&explorer, &dense, 3, SizeMode::Allocated);
    assert_eq!(
        texts(&parts),
        vec![
            (
                "\u{2261} dense directory (1.2M entries): children are summed, not listed \u{b7} :expand forces a full listing",
                Tone::Warning
            ),
            ("  showing the 500 largest of 20,000 files", Tone::Muted),
            ("  filter: cache (esc clears)", Tone::Key),
        ]
    );
}

#[test]
fn unreadable_parts_and_loading_listings() {
    let explorer = ExplorerState::new(200);
    let mut denied = facts(FileListing::Loading);
    denied.access_denied = true;
    let parts = explorer_notice(&explorer, &denied, 11, SizeMode::Allocated);
    assert_eq!(parts.len(), 2);
    assert_eq!(parts[0].1, Tone::Danger);
    assert!(parts[0].0.starts_with("\u{2298} permission denied"));
    assert_eq!(parts[1].0, "  \u{2819} listing files");
    let mut partial = facts(FileListing::Loaded { shown: 10, total: 10, truncated: false });
    partial.unreadable_descendants = 4;
    let parts = explorer_notice(&explorer, &partial, 0, SizeMode::Allocated);
    assert_eq!(texts(&parts), vec![("\u{2298} 4 subdirectories could not be read", Tone::Warning)]);
}

fn scan(idle: bool, paused: bool, focused: usize) -> ScanFacts {
    ScanFacts {
        idle,
        background_paused: paused,
        focused_queued: focused,
        urgent_queued: 0,
        files_text: "1.2M".to_owned(),
        directories_text: "80k".to_owned(),
        rate_text: "45k".to_owned(),
        queued_text: "12".to_owned(),
        busy_workers: 3,
        workers: 8,
    }
}

#[test]
fn the_scanner_line_shows_its_state_and_counts() {
    let idle = scan_status_line(&scan(true, true, 5), 0);
    assert_eq!(
        texts(&idle),
        vec![
            (" \u{2713} idle ", Tone::Success),
            ("1.2M files \u{b7} 80k dirs \u{b7} 45k files/s \u{b7} 3/8 thr \u{b7} queue 12 ", Tone::Muted),
        ]
    );
    assert_eq!(texts(&scan_status_line(&scan(false, true, 0), 0))[0], (" \u{2016} paused ", Tone::Warning));
    assert_eq!(texts(&scan_status_line(&scan(false, true, 2), 1))[0], (" \u{2819} scanning ", Tone::Key));
    assert_eq!(texts(&scan_status_line(&scan(false, false, 0), 0))[0], (" \u{280b} scanning ", Tone::Key));
}
