use tree_cleaner::explorer::{ExplorerState, NodeFlags, RowBadge, RowKey};
use tree_cleaner::explorer_rows::{explorer_rows, ChildFacts, FileFacts};
use tree_cleaner::marks::{MarkedItem, Marks};
use tree_cleaner::model::{ByteSize, NodeId};

fn flags() -> NodeFlags {
    NodeFlags { boundary: false, access_denied: false, read_failed: false, dense: false, has_unmaterialized_children: false }
}

fn child(id: u32, name: &str, size: u64) -> ChildFacts {
    ChildFacts {
        node: NodeId(id),
        entry: name.to_owned(),
        name: name.to_owned(),
        size: ByteSize(size),
        items: 3,
        flags: flags(),
        complete: true,
        has_children: true,
    }
}

fn file(name: &str, size: u64) -> FileFacts {
    FileFacts { name: name.to_owned(), size: ByteSize(size) }
}

#[test]
fn rows_hold_children_then_files_with_marks() {
    let mut marks = Marks::default();
    marks.toggle("/data/Cache".to_owned(), MarkedItem { size: ByteSize(1), is_directory: true, node: None, parent_node: None });
    let children = vec![child(1, "Cache", 10), child(2, "src", 20)];
    let files = vec![file("notes.txt", 5)];
    let rows = explorer_rows(&children, Some(&files), true, "/data", None, &marks);
    assert_eq!(rows.len(), 3);
    assert!(matches!(rows[0].key, RowKey::Directory(NodeId(1))));
    assert_eq!(rows[0].path, "/data/Cache");
    assert!(rows[0].marked);
    assert!(!rows[1].marked);
    assert_eq!(rows[1].badge, RowBadge::Complete);
    assert!(matches!(&rows[2].key, RowKey::File(name) if name == "notes.txt"));
    assert_eq!(rows[2].path, "/data/notes.txt");
    assert_eq!(rows[2].items, None);
    assert!(!rows[2].is_directory);

    let hidden = explorer_rows(&children, Some(&files), false, "/data", None, &marks);
    assert_eq!(hidden.len(), 2);
    let unlisted = explorer_rows(&children, None, true, "/data", None, &marks);
    assert_eq!(unlisted.len(), 2);
}

#[test]
fn the_filter_keeps_names_containing_it_in_any_case() {
    let marks = Marks::default();
    let children = vec![child(1, "Cache", 10), child(2, "src", 20)];
    let files = vec![file("cache.db", 5), file("readme", 1)];
    let rows = explorer_rows(&children, Some(&files), true, "/data", Some("CACH"), &marks);
    let names: Vec<&str> = rows.iter().map(|row| row.name.as_str()).collect();
    assert_eq!(names, vec!["Cache", "cache.db"]);
}

#[test]
fn rebuilding_orders_counts_and_cuts_the_rows() {
    let marks = Marks::default();
    let mut explorer = ExplorerState::new(2);
    explorer.current = Some(NodeId(9));
    let children = vec![child(1, "a", 10), child(2, "b", 30), child(3, "c", 20)];
    explorer.rebuild_rows(&children, None, "/x", &marks);
    assert_eq!(explorer.unlimited_row_count, 3);
    let names: Vec<&str> = explorer.rows.iter().map(|row| row.name.as_str()).collect();
    assert_eq!(names, vec!["b", "c"]);
    explorer.filter = Some("a".to_owned());
    explorer.rebuild_rows(&children, None, "/x", &marks);
    assert_eq!(explorer.unlimited_row_count, 1);
    assert_eq!(explorer.rows[0].name, "a");
}
