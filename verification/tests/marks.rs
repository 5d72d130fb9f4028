use tree_cleaner::marks::{MarkedItem, Marks};
use tree_cleaner::model::{ByteSize, DeletionMode, NodeId};

fn item(size: u64, parent: Option<u32>) -> MarkedItem {
    MarkedItem { size: ByteSize(size), is_directory: true, node: Some(NodeId(9)), parent_node: parent.map(NodeId) }
}

#[test]
fn toggle_marks_then_unmarks() {
    let mut marks = Marks::default();
    assert!(marks.is_empty());
    assert!(marks.toggle("/a".to_owned(), item(1, None)));
    assert!(marks.contains("/a"));
    assert!(!marks.toggle("/a".to_owned(), item(1, None)));
    assert!(!marks.contains("/a"));
    assert!(marks.is_empty());
}

#[test]
fn marks_are_kept_in_path_order() {
    let mut marks = Marks::default();
    for path in ["/b", "/a/z", "/a", "/a b"] {
        marks.toggle(path.to_owned(), item(1, None));
    }
    let paths: Vec<&str> = marks.iter().iter().map(|(path, _)| path.as_str()).collect();
    assert_eq!(paths, vec!["/a", "/a/z", "/a b", "/b"]);
}

#[test]
fn total_size_saturates() {
    let mut marks = Marks::default();
    marks.toggle("/x".to_owned(), item(u64::MAX - 1, None));
    marks.toggle("/y".to_owned(), item(5, None));
    assert_eq!(marks.total_size(), ByteSize(u64::MAX));
    marks.remove("/x");
    assert_eq!(marks.total_size(), ByteSize(5));
    assert_eq!(marks.len(), 1);
    marks.clear();
    assert_eq!(marks.total_size(), ByteSize(0));
}

#[test]
fn update_size_only_touches_a_marked_path() {
    let mut marks = Marks::default();
    marks.toggle("/x".to_owned(), item(3, Some(4)));
    marks.update_size("/x", ByteSize(30));
    marks.update_size("/nope", ByteSize(99));
    assert_eq!(marks.total_size(), ByteSize(30));
    assert_eq!(marks.len(), 1);
    assert_eq!(marks.parent_of("/x"), Some(NodeId(4)));
    assert_eq!(marks.parent_of("/nope"), None);
}

#[test]
fn plan_lists_every_mark_in_order() {
    let mut marks = Marks::default();
    marks.toggle("/tmp/b".to_owned(), item(2, None));
    marks.toggle("/tmp/a".to_owned(), item(1, None));
    let plan = marks.plan(DeletionMode::Trash);
    assert_eq!(plan.len(), 2);
    assert_eq!(plan.mode, DeletionMode::Trash);
    assert_eq!(plan.items[0].path, "/tmp/a");
    assert_eq!(plan.items[1].size, ByteSize(2));
    assert!(plan.items[1].is_directory);
}

#[test]
fn a_path_is_one_mark_however_it_is_written() {
    let mut marks = Marks::default();
    let item = MarkedItem { size: ByteSize(7), is_directory: true, node: None, parent_node: None };
    assert!(marks.toggle("/a/b/".to_owned(), item));
    assert_eq!(marks.len(), 1);
    assert!(marks.contains("/a/b"));
    assert!(marks.contains("/a/./b"));
    assert!(!marks.toggle("/a/b".to_owned(), item));
    assert_eq!(marks.len(), 0);
    assert!(!marks.contains("/a/b/"));
}

#[test]
fn marks_are_planned_in_path_order() {
    let mut marks = Marks::default();
    for path in ["/z", "/a/b", "/a", "/m/n/"] {
        marks.toggle(path.to_owned(), item(1, None));
    }
    let plan = marks.plan(DeletionMode::Permanent);
    let paths: Vec<&str> = plan.items.iter().map(|item| item.path.as_str()).collect();
    assert_eq!(paths, vec!["/a", "/a/b", "/m/n", "/z"]);
    marks.remove("/a/b");
    marks.toggle("/b".to_owned(), item(2, None));
    let paths: Vec<String> = marks.iter().iter().map(|(path, _)| path.clone()).collect();
    assert_eq!(paths, vec!["/a", "/b", "/m/n", "/z"]);
}
