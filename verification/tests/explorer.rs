use tree_cleaner::explorer::{
    export_lines, matches_filter, name_precedes, order_rows, row_precedes, ExplorerRow, ExplorerState, NodeFlags,
    RowBadge, RowKey,
};
use tree_cleaner::model::{ByteSize, NodeId};

fn flags() -> NodeFlags {
    NodeFlags {
        boundary: false,
        access_denied: false,
        read_failed: false,
        dense: false,
        has_unmaterialized_children: false,
    }
}

fn directory(id: u32, name: &str, size: u64) -> ExplorerRow {
    ExplorerRow {
        key: RowKey::Directory(NodeId(id)),
        name: name.to_owned(),
        path: format!("/data/{name}"),
        size: ByteSize(size),
        items: Some(1),
        badge: RowBadge::Complete,
        is_directory: true,
        marked: false,
    }
}

fn file(name: &str, size: u64) -> ExplorerRow {
    ExplorerRow {
        key: RowKey::File(name.to_owned()),
        name: name.to_owned(),
        path: format!("/data/{name}"),
        size: ByteSize(size),
        items: None,
        badge: RowBadge::File,
        is_directory: false,
        marked: false,
    }
}

fn names(rows: &[ExplorerRow]) -> Vec<&str> {
    rows.iter().map(|row| row.name.as_str()).collect()
}

#[test]
fn badge_precedence() {
    let mut all = flags();
    all.boundary = true;
    all.access_denied = true;
    all.read_failed = true;
    all.dense = true;
    assert_eq!(RowBadge::from_flags(all, false, false), RowBadge::Boundary);
    all.boundary = false;
    assert_eq!(RowBadge::from_flags(all, true, true), RowBadge::Denied);
    all.access_denied = false;
    assert_eq!(RowBadge::from_flags(all, true, true), RowBadge::Failed);
    all.read_failed = false;
    assert_eq!(RowBadge::from_flags(all, true, true), RowBadge::Dense);
    assert_eq!(RowBadge::from_flags(flags(), false, true), RowBadge::Scanning);
}

#[test]
fn badge_lazy_only_without_known_children() {
    let mut lazy = flags();
    lazy.has_unmaterialized_children = true;
    assert_eq!(RowBadge::from_flags(lazy, true, false), RowBadge::Lazy);
    assert_eq!(RowBadge::from_flags(lazy, true, true), RowBadge::Complete);
    assert_eq!(RowBadge::from_flags(flags(), true, false), RowBadge::Complete);
}

#[test]
fn rows_are_largest_first_directories_before_files_then_by_name() {
    let rows = vec![
        file("b.txt", 10),
        directory(1, "small", 5),
        file("a.txt", 10),
        directory(2, "big", 100),
        directory(3, "Zeta", 10),
    ];
    let sorted = order_rows(rows);
    assert_eq!(names(&sorted), vec!["big", "Zeta", "a.txt", "b.txt", "small"]);
}

#[test]
fn name_order_is_by_code_point() {
    assert!(name_precedes("B", "a"));
    assert!(name_precedes("a", "ab"));
    assert!(!name_precedes("ab", "ab"));
    assert!(name_precedes("z", "é"));
    assert!(row_precedes(&directory(1, "x", 2), &file("a", 1)));
    assert!(row_precedes(&directory(1, "x", 2), &file("a", 2)));
    assert!(!row_precedes(&file("a", 2), &directory(1, "x", 2)));
}

#[test]
fn sorting_keeps_equal_rows_in_their_order() {
    let mut first = file("same", 3);
    first.path = "/one/same".to_owned();
    let mut second = file("same", 3);
    second.path = "/two/same".to_owned();
    let sorted = order_rows(vec![first, file("other", 9), second]);
    let paths: Vec<&str> = sorted.iter().map(|row| row.path.as_str()).collect();
    assert_eq!(paths, vec!["/data/other", "/one/same", "/two/same"]);
}

#[test]
fn filter_ignores_case() {
    assert!(matches_filter("Photos Library", None));
    assert!(matches_filter("Photos Library", Some("PHOTO")));
    assert!(matches_filter("Photos Library", Some("s l")));
    assert!(matches_filter("ÉTÉ", Some("été")));
    assert!(!matches_filter("Photos", Some("video")));
    assert!(matches_filter("anything", Some("")));
}

#[test]
fn new_explorer_shows_files_and_nothing_else() {
    let explorer = ExplorerState::new(200);
    assert_eq!(explorer.row_limit, 200);
    assert!(explorer.show_files);
    assert!(explorer.rows.is_empty());
    assert!(explorer.selected_row().is_none());
    assert!(explorer.table_selection.is_none());
}

#[test]
fn select_remembers_the_item_and_clamps() {
    let mut explorer = ExplorerState::new(100);
    explorer.show_rows(vec![directory(1, "a", 3), directory(2, "b", 2)]);
    explorer.select(7);
    assert_eq!(explorer.selected, 1);
    assert!(matches!(explorer.selected_key, Some(RowKey::Directory(NodeId(2)))));
    assert_eq!(explorer.table_selection, Some(1));
    assert_eq!(explorer.selected_row().map(|row| row.name.as_str()), Some("b"));
}

#[test]
fn move_selection_stops_at_the_ends() {
    let mut explorer = ExplorerState::new(100);
    explorer.show_rows(vec![directory(1, "a", 3), directory(2, "b", 2), directory(3, "c", 1)]);
    explorer.move_selection(10);
    assert_eq!(explorer.selected, 2);
    explorer.move_selection(-1);
    assert_eq!(explorer.selected, 1);
    explorer.move_selection(-10);
    assert_eq!(explorer.selected, 0);
    assert!(matches!(explorer.selected_key, Some(RowKey::Directory(NodeId(1)))));
}

#[test]
fn cursor_follows_its_item_across_a_rebuild() {
    let mut explorer = ExplorerState::new(100);
    explorer.show_rows(vec![directory(1, "a", 3), file("f", 2), directory(2, "b", 1)]);
    explorer.select(1);
    explorer.show_rows(vec![directory(1, "a", 3), directory(2, "b", 1), file("f", 0)]);
    assert_eq!(explorer.selected, 2);
    assert_eq!(explorer.selected_row().map(|row| row.name.as_str()), Some("f"));
    assert_eq!(explorer.table_selection, Some(2));
}

#[test]
fn cursor_keeps_its_place_when_the_item_is_gone() {
    let mut explorer = ExplorerState::new(100);
    explorer.show_rows(vec![directory(1, "a", 3), directory(2, "b", 2), directory(3, "c", 1)]);
    explorer.select(2);
    explorer.show_rows(vec![directory(1, "a", 3), directory(2, "b", 2)]);
    assert_eq!(explorer.selected, 1);
    assert!(matches!(explorer.selected_key, Some(RowKey::Directory(NodeId(2)))));
    explorer.show_rows(Vec::new());
    assert_eq!(explorer.selected, 0);
    assert!(explorer.table_selection.is_none());
}

#[test]
fn row_limit_cuts_after_sorting() {
    let mut explorer = ExplorerState::new(2);
    explorer.show_rows(vec![file("s", 1), file("m", 5), file("l", 9)]);
    assert_eq!(names(&explorer.rows), vec!["l", "m"]);
    assert_eq!(explorer.unlimited_row_count, 3);
}

#[test]
fn keys_compare_by_item() {
    assert!(RowKey::File("a".to_owned()).same_as(&RowKey::File("a".to_owned())));
    assert!(!RowKey::File("a".to_owned()).same_as(&RowKey::File("b".to_owned())));
    assert!(!RowKey::Directory(NodeId(1)).same_as(&RowKey::File("a".to_owned())));
    assert!(RowKey::Directory(NodeId(4)).same_as(&RowKey::Directory(NodeId(4))));
}

#[test]
fn export_writes_a_header_and_one_line_per_row() {
    let mut cache = directory(1, "cache", 4096);
    cache.items = Some(12);
    let rows = vec![cache, file("notes.txt", 10)];
    assert_eq!(
        export_lines(&rows),
        vec![
            "bytes\titems\tkind\tpath".to_owned(),
            "4096\t12\tdir\t/data/cache".to_owned(),
            "10\t\tfile\t/data/notes.txt".to_owned(),
        ]
    );
    assert_eq!(export_lines(&[]), vec!["bytes\titems\tkind\tpath".to_owned()]);
}
