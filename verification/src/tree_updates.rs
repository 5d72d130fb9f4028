//! What a finished deletion run changes in the tree and in the marks: removed items leave
//! both, items removed part way are measured again.

use vstd::prelude::*;

use crate::marks::{has_key, key_index, keys_distinct, MarkEntry, Marks};
use crate::model::{DeletionOutcome, DeletionReport, NodeId};
use crate::paths::path_normal;
use crate::reports::{deletion_kind, deletion_kind_of, OutcomeKind};

verus! {

/// A change the tree needs after a deletion run.
#[derive(Clone, Copy, Debug, PartialEq, Eq, Structural)]
pub enum TreeUpdate {
    /// The node of a removed item leaves the tree.
    RemoveSubtree(NodeId),
    /// The file of outcome `outcome` was removed and its mark recorded its directory
    /// `parent`: that directory forgets one file of the item's size and lists its files
    /// again.
    ForgetFile { outcome: usize, parent: NodeId },
    /// The same for a file whose directory the tree has to find from the item's path.
    ForgetFileByPath { outcome: usize },
    /// An item removed part way is measured again.
    Rescan(NodeId),
}

/// The marks once the mark of `path` is gone.
pub open spec fn without_mark(entries: Seq<MarkEntry>, path: Seq<char>) -> Seq<MarkEntry> {
    match key_index(entries, path_normal(path)) {
        Some(i) => entries.remove(i),
        None => entries,
    }
}

/// The directory that the mark of `path` recorded, if it is marked.
pub open spec fn marked_parent(entries: Seq<MarkEntry>, path: Seq<char>) -> Option<NodeId> {
    match key_index(entries, path_normal(path)) {
        Some(i) => entries[i].1.parent_node,
        None => None,
    }
}

/// The marks and the tree changes that outcome `index` leads to, from the marks before it:
/// a removed item is unmarked and leaves the tree (through its node, else through the
/// directory its mark recorded, else through its path); an item removed part way
/// (`partial`) that has a node is measured again; anything else changes nothing.
pub open spec fn absorb_step(
    entries: Seq<MarkEntry>,
    outcome: DeletionOutcome,
    index: usize,
    partial: bool,
) -> (Seq<MarkEntry>, Seq<TreeUpdate>) {
    if deletion_kind(outcome.status) == OutcomeKind::Succeeded {
        let update = match outcome.item.node {
            Some(node) => TreeUpdate::RemoveSubtree(node),
            None => match marked_parent(entries, outcome.item.path@) {
                Some(parent) => TreeUpdate::ForgetFile { outcome: index, parent },
                None => TreeUpdate::ForgetFileByPath { outcome: index },
            },
        };
        (without_mark(entries, outcome.item.path@), seq![update])
    } else if partial {
        match outcome.item.node {
            Some(node) => (entries, seq![TreeUpdate::Rescan(node)]),
            None => (entries, Seq::empty()),
        }
    } else {
        (entries, Seq::empty())
    }
}

/// The marks and the tree changes after the first `n` outcomes, taken in order.
pub open spec fn absorbed(
    entries: Seq<MarkEntry>,
    outcomes: Seq<DeletionOutcome>,
    partial: Seq<bool>,
    n: nat,
) -> (Seq<MarkEntry>, Seq<TreeUpdate>)
    decreases n,
{
    if n == 0 {
        (entries, Seq::empty())
    } else {
        let (marks, updates) = absorbed(entries, outcomes, partial, (n - 1) as nat);
        let (next, more) = absorb_step(marks, outcomes[n - 1], (n - 1) as usize, partial[n - 1]);
        (next, updates + more)
    }
}

/// Unmarking one path keeps the other paths distinct, leaves that path unmarked and marks
/// nothing new.
proof fn lemma_without_mark(entries: Seq<MarkEntry>, path: Seq<char>, other: Seq<char>)
    requires
        keys_distinct(entries),
    ensures
        keys_distinct(without_mark(entries, path)),
        !has_key(without_mark(entries, path), path_normal(path)),
        has_key(without_mark(entries, path), other) ==> has_key(entries, other),
{
    let key = path_normal(path);
    let after = without_mark(entries, path);
    if let Some(k) = key_index(entries, key) {
        assert(0 <= k < entries.len() && entries[k].0 == key);
        assert forall|i: int, j: int| 0 <= i < j < after.len() implies after[i].0 != after[j].0 by {
            let a = if i < k { i } else { i + 1 };
            let b = if j < k { j } else { j + 1 };
            assert(after[i] == entries[a]);
            assert(after[j] == entries[b]);
        }
        if has_key(after, key) {
            let i = choose|i: int| 0 <= i < after.len() && after[i].0 == key;
            let a = if i < k { i } else { i + 1 };
            assert(after[i] == entries[a]);
        }
        if has_key(after, other) {
            let i = choose|i: int| 0 <= i < after.len() && after[i].0 == other;
            let a = if i < k { i } else { i + 1 };
            assert(after[i] == entries[a]);
        }
    }
}

/// Once a deletion run is absorbed, no item that it removed is still marked, and the marks
/// still hold each path once.
pub proof fn lemma_removed_items_are_unmarked(
    entries: Seq<MarkEntry>,
    outcomes: Seq<DeletionOutcome>,
    partial: Seq<bool>,
    n: nat,
)
    requires
        keys_distinct(entries),
        n <= outcomes.len(),
    ensures
        keys_distinct(absorbed(entries, outcomes, partial, n).0),
        forall|i: int|
            0 <= i < n && deletion_kind(#[trigger] outcomes[i].status) == OutcomeKind::Succeeded
                ==> !has_key(absorbed(entries, outcomes, partial, n).0, path_normal(outcomes[i].item.path@)),
    decreases n,
{
    if n > 0 {
        let m = (n - 1) as nat;
        lemma_removed_items_are_unmarked(entries, outcomes, partial, m);
        let marks = absorbed(entries, outcomes, partial, m).0;
        let last = outcomes[m as int];
        let after = absorbed(entries, outcomes, partial, n).0;
        if deletion_kind(last.status) == OutcomeKind::Succeeded {
            assert(after == without_mark(marks, last.item.path@));
            lemma_without_mark(marks, last.item.path@, last.item.path@);
            assert forall|i: int|
                0 <= i < n && deletion_kind(#[trigger] outcomes[i].status) == OutcomeKind::Succeeded
                    implies !has_key(after, path_normal(outcomes[i].item.path@)) by {
                lemma_without_mark(marks, last.item.path@, path_normal(outcomes[i].item.path@));
            }
        } else {
            assert(after == marks);
        }
    }
}

/// Reflects a finished deletion in the marks and returns what the tree has to change, in
/// the order of the outcomes. `partial[i]` says whether outcome `i` removed its item part
/// way.
pub fn absorb_deletion_report(marks: &mut Marks, report: &DeletionReport, partial: &[bool]) -> (updates:
    Vec<TreeUpdate>)
    requires
        partial@.len() == report.outcomes@.len(),
    ensures
        (final(marks)@, updates@) == absorbed(
            old(marks)@,
            report.outcomes@,
            partial@,
            report.outcomes@.len(),
        ),
{
    let mut updates: Vec<TreeUpdate> = Vec::new();
    let mut i: usize = 0;
    while i < report.outcomes.len()
        invariant
            partial@.len() == report.outcomes@.len(),
            0 <= i <= report.outcomes@.len(),
            (marks@, updates@) == absorbed(old(marks)@, report.outcomes@, partial@, i as nat),
        decreases report.outcomes@.len() - i,
    {
        let outcome = &report.outcomes[i];
        let ghost before = marks@;
        let ghost earlier = updates@;
        let kind = deletion_kind_of(&outcome.status);
        if kind == OutcomeKind::Succeeded {
            let parent = marks.parent_of(outcome.item.path.as_str());
            marks.remove(outcome.item.path.as_str());
            let update = match outcome.item.node {
                Some(node) => TreeUpdate::RemoveSubtree(node),
                None => match parent {
                    Some(parent) => TreeUpdate::ForgetFile { outcome: i, parent },
                    None => TreeUpdate::ForgetFileByPath { outcome: i },
                },
            };
            updates.push(update);
        } else if partial[i] {
            if let Some(node) = outcome.item.node {
                updates.push(TreeUpdate::Rescan(node));
            }
        }
        proof {
            let step = absorb_step(before, report.outcomes@[i as int], i, partial@[i as int]);
            assert(marks@ == step.0);
            assert(updates@ =~= earlier + step.1);
        }
        i += 1;
    }
    updates
}

} // verus!
