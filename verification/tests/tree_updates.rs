use tree_cleaner::marks::{MarkedItem, Marks};
use tree_cleaner::model::{ByteSize, DeletionItem, DeletionOutcome, DeletionReport, DeletionStatus, NodeId};
use tree_cleaner::tree_updates::{absorb_deletion_report, TreeUpdate};

fn mark(parent: Option<u32>) -> MarkedItem {
    MarkedItem { size: ByteSize(10), is_directory: false, node: None, parent_node: parent.map(NodeId) }
}

fn outcome(path: &str, node: Option<u32>, status: DeletionStatus) -> DeletionOutcome {
    DeletionOutcome {
        item: DeletionItem { path: path.to_owned(), size: ByteSize(10), is_directory: node.is_some(), node: node.map(NodeId) },
        status,
        entries_removed: 1,
        reclaimed: ByteSize(10),
    }
}

#[test]
fn removed_items_leave_the_marks_and_the_tree() {
    let mut marks = Marks::default();
    marks.toggle("/a/dir".to_owned(), mark(Some(1)));
    marks.toggle("/a/file".to_owned(), mark(Some(2)));
    marks.toggle("/a/kept".to_owned(), mark(Some(3)));
    marks.toggle("/a/other".to_owned(), mark(None));
    let report = DeletionReport {
        outcomes: vec![
            outcome("/a/dir", Some(7), DeletionStatus::Removed),
            outcome("/a/file", None, DeletionStatus::MovedToTrash),
            outcome("/a/kept", None, DeletionStatus::Failed("busy".to_owned())),
            outcome("/a/other", None, DeletionStatus::Removed),
            outcome("/a/unmarked", None, DeletionStatus::Removed),
        ],
    };
    let updates = absorb_deletion_report(&mut marks, &report, &[false, false, false, false, false]);
    assert_eq!(
        updates,
        vec![
            TreeUpdate::RemoveSubtree(NodeId(7)),
            TreeUpdate::ForgetFile { outcome: 1, parent: NodeId(2) },
            TreeUpdate::ForgetFileByPath { outcome: 3 },
            TreeUpdate::ForgetFileByPath { outcome: 4 },
        ]
    );
    assert_eq!(marks.len(), 1);
    assert!(marks.contains("/a/kept"));
    assert!(!marks.contains("/a/dir"));
}

#[test]
fn an_item_removed_part_way_is_measured_again() {
    let mut marks = Marks::default();
    marks.toggle("/b/half".to_owned(), mark(Some(4)));
    let report = DeletionReport {
        outcomes: vec![
            outcome("/b/half", Some(5), DeletionStatus::Cancelled),
            outcome("/b/none", None, DeletionStatus::Cancelled),
            outcome("/b/whole", Some(6), DeletionStatus::Cancelled),
        ],
    };
    let updates = absorb_deletion_report(&mut marks, &report, &[true, true, false]);
    assert_eq!(updates, vec![TreeUpdate::Rescan(NodeId(5))]);
    assert!(marks.contains("/b/half"));
}
