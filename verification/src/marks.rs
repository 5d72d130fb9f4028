//! Items the user marked for deletion, across screens and directories.
//!
//! Marks are keyed by path, in the form std compares paths (`/a/b/` and `/a/b` are one
//! path), each path at most once, and kept in the order std gives paths: a new mark goes
//! before the first mark whose path comes after it.

use vstd::prelude::*;

use crate::model::{ByteSize, DeletionItem, DeletionMode, DeletionPlan, NodeId};
use crate::paths::{normal_path, path_before, path_normal, path_precedes};

verus! {

/// What is known about a marked path.
#[derive(Clone, Copy, Debug, PartialEq, Eq, Structural)]
pub struct MarkedItem {
    pub size: ByteSize,
    pub is_directory: bool,
    /// Node of the directory itself (for directories) or of the containing directory (for files).
    pub node: Option<NodeId>,
    pub parent_node: Option<NodeId>,
}

/// A mark seen as its path text and what is known about it.
pub type MarkEntry = (Seq<char>, MarkedItem);

/// No path is marked twice.
pub open spec fn keys_distinct(entries: Seq<MarkEntry>) -> bool {
    forall|i: int, j: int| 0 <= i < j < entries.len() ==> entries[i].0 != entries[j].0
}

/// The marks are in path order: no path precedes one listed before it.
pub open spec fn in_path_order(entries: Seq<MarkEntry>) -> bool {
    forall|a: int, b: int|
        0 <= a < b < entries.len() ==> !path_precedes(#[trigger] entries[b].0, #[trigger] entries[a].0)
}

/// Whether `path` is marked.
pub open spec fn has_key(entries: Seq<MarkEntry>, path: Seq<char>) -> bool {
    exists|i: int| 0 <= i < entries.len() && entries[i].0 == path
}

/// Position of the mark of `path`, if any.
pub open spec fn key_index(entries: Seq<MarkEntry>, path: Seq<char>) -> Option<int> {
    if has_key(entries, path) {
        Some(choose|i: int| 0 <= i < entries.len() && entries[i].0 == path)
    } else {
        None
    }
}

/// `i` is where a new mark of `path` goes: after every mark whose path does not come after
/// `path`, before the first one that does.
pub open spec fn is_insert_position(entries: Seq<MarkEntry>, path: Seq<char>, i: int) -> bool {
    &&& 0 <= i <= entries.len()
    &&& forall|j: int| 0 <= j < i ==> !path_precedes(path, #[trigger] entries[j].0)
    &&& i < entries.len() ==> path_precedes(path, entries[i].0)
}

/// Where a new mark of `path` goes.
pub open spec fn insert_position(entries: Seq<MarkEntry>, path: Seq<char>) -> int {
    choose|i: int| is_insert_position(entries, path, i)
}

/// The marks after toggling `path`: its mark goes away when there is one, otherwise it is
/// added with `item`.
pub open spec fn toggled(entries: Seq<MarkEntry>, path: Seq<char>, item: MarkedItem) -> Seq<
    MarkEntry,
> {
    match key_index(entries, path) {
        Some(i) => entries.remove(i),
        None => entries.insert(insert_position(entries, path), (path, item)),
    }
}

/// Sum of the marked sizes.
pub open spec fn sizes_sum(entries: Seq<MarkEntry>) -> nat
    decreases entries.len(),
{
    if entries.len() == 0 {
        0
    } else {
        sizes_sum(entries.drop_last()) + (entries.last().1.size.0 as nat)
    }
}

/// `x`, held at `u64::MAX`.
pub open spec fn saturate(x: nat) -> nat {
    if x > u64::MAX {
        u64::MAX as nat
    } else {
        x
    }
}

proof fn lemma_key_index(entries: Seq<MarkEntry>, path: Seq<char>, i: int)
    requires
        keys_distinct(entries),
        0 <= i < entries.len(),
        entries[i].0 == path,
    ensures
        key_index(entries, path) == Some(i),
{
    let k = choose|k: int| 0 <= k < entries.len() && entries[k].0 == path;
    if k < i {
        assert(entries[k].0 != entries[i].0);
    } else if i < k {
        assert(entries[i].0 != entries[k].0);
    }
}

proof fn lemma_insert_position(entries: Seq<MarkEntry>, path: Seq<char>, i: int)
    requires
        is_insert_position(entries, path, i),
    ensures
        insert_position(entries, path) == i,
{
    let k = choose|k: int| is_insert_position(entries, path, k);
    assert(is_insert_position(entries, path, k));
    if k < i {
        assert(!path_precedes(path, entries[k].0));
    } else if i < k {
        assert(!path_precedes(path, entries[i].0));
    }
}

/// Toggling a path that is not marked, and then toggling it again, leaves the marks as they
/// were.
pub proof fn lemma_toggle_twice(entries: Seq<MarkEntry>, path: Seq<char>, item: MarkedItem)
    requires
        keys_distinct(entries),
        !has_key(entries, path),
    ensures
        toggled(toggled(entries, path, item), path, item) == entries,
{
    let pos = insert_position(entries, path);
    lemma_insert_position_exists(entries, path);
    let once = entries.insert(pos, (path, item));
    assert(toggled(entries, path, item) == once);
    assert(once[pos].0 == path);
    assert forall|a: int, b: int| 0 <= a < b < once.len() implies once[a].0 != once[b].0 by {
        if a == pos {
            assert(once[b] == entries[b - 1]);
        } else if b == pos {
            assert(once[a] == entries[a]);
        } else {
            let ea = if a < pos {
                a
            } else {
                a - 1
            };
            let eb = if b < pos {
                b
            } else {
                b - 1
            };
            assert(once[a] == entries[ea]);
            assert(once[b] == entries[eb]);
        }
    }
    lemma_key_index(once, path, pos);
    assert(once.remove(pos) =~= entries);
}

proof fn lemma_insert_position_exists(entries: Seq<MarkEntry>, path: Seq<char>)
    ensures
        is_insert_position(entries, path, insert_position(entries, path)),
{
    lemma_first_following(entries, path, 0);
}

proof fn lemma_first_following(entries: Seq<MarkEntry>, path: Seq<char>, from: int)
    requires
        0 <= from <= entries.len(),
        forall|j: int| 0 <= j < from ==> !path_precedes(path, #[trigger] entries[j].0),
    ensures
        is_insert_position(entries, path, first_following(entries, path, from)),
    decreases entries.len() - from,
{
    if from < entries.len() && !path_precedes(path, entries[from].0) {
        lemma_first_following(entries, path, from + 1);
    }
}

spec fn first_following(entries: Seq<MarkEntry>, path: Seq<char>, from: int) -> int
    decreases entries.len() - from,
{
    if from >= entries.len() || from < 0 {
        entries.len() as int
    } else if path_precedes(path, entries[from].0) {
        from
    } else {
        first_following(entries, path, from + 1)
    }
}

/// Removing a mark keeps the others distinct and in path order.
proof fn lemma_remove_keeps_order(entries: Seq<MarkEntry>, i: int)
    requires
        keys_distinct(entries),
        in_path_order(entries),
        0 <= i < entries.len(),
    ensures
        keys_distinct(entries.remove(i)),
        in_path_order(entries.remove(i)),
{
    let after = entries.remove(i);
    assert forall|a: int, b: int| 0 <= a < b < after.len() implies after[a].0 != after[b].0
        && !path_precedes(after[b].0, after[a].0) by {
        let ea = if a < i {
            a
        } else {
            a + 1
        };
        let eb = if b < i {
            b
        } else {
            b + 1
        };
        assert(after[a] == entries[ea]);
        assert(after[b] == entries[eb]);
    }
}

/// Inserting a mark where `is_insert_position` puts it keeps the marks in path order, given
/// what comparing it with the mark that follows showed: that mark does not precede it, and
/// whatever precedes the new path precedes that mark too.
proof fn lemma_insert_keeps_order(entries: Seq<MarkEntry>, path: Seq<char>, item: MarkedItem, p: int)
    requires
        in_path_order(entries),
        is_insert_position(entries, path, p),
        p < entries.len() ==> !path_precedes(entries[p].0, path),
        p < entries.len() ==> forall|c: Seq<char>|
            #[trigger] path_precedes(c, path) ==> path_precedes(c, entries[p].0),
    ensures
        in_path_order(entries.insert(p, (path, item))),
{
    let after = entries.insert(p, (path, item));
    assert forall|a: int, b: int| 0 <= a < b < after.len() implies !path_precedes(
        #[trigger] after[b].0,
        #[trigger] after[a].0,
    ) by {
        if a == p {
            assert(after[b] == entries[b - 1]);
            if b - 1 > p {
                if path_precedes(entries[b - 1].0, path) {
                    assert(path_precedes(entries[b - 1].0, entries[p].0));
                    assert(!path_precedes(entries[b - 1].0, entries[p].0));
                }
            }
        } else if b == p {
            assert(after[a] == entries[a]);
            assert(!path_precedes(path, entries[a].0));
        } else {
            let ea = if a < p {
                a
            } else {
                a - 1
            };
            let eb = if b < p {
                b
            } else {
                b - 1
            };
            assert(after[a] == entries[ea]);
            assert(after[b] == entries[eb]);
        }
    }
}

/// Marks stored as path strings, seen as path texts.
pub open spec fn view_of(entries: Seq<(String, MarkedItem)>) -> Seq<MarkEntry> {
    entries.map_values(|entry: (String, MarkedItem)| (entry.0@, entry.1))
}

/// The marks, keyed by path.
pub struct Marks {
    entries: Vec<(String, MarkedItem)>,
}

impl View for Marks {
    type V = Seq<MarkEntry>;

    closed spec fn view(&self) -> Seq<MarkEntry> {
        view_of(self.entries@)
    }
}

impl Default for Marks {
    fn default() -> (marks: Self)
        ensures
            marks@ == Seq::<MarkEntry>::empty(),
            keys_distinct(marks@),
            in_path_order(marks@),
    {
        let marks = Marks { entries: Vec::new() };
        assert(marks@ =~= Seq::<MarkEntry>::empty());
        marks
    }
}

impl Marks {
    #[verifier::type_invariant]
    spec fn well_formed(self) -> bool {
        keys_distinct(self@) && in_path_order(self@)
    }

    /// Position of the mark of `path`.
    fn find(&self, path: &String) -> (index: Option<usize>)
        ensures
            match index {
                Some(i) => key_index(self@, path@) == Some(i as int),
                None => key_index(self@, path@) is None,
            },
    {
        proof {
            use_type_invariant(self);
        }
        let mut i: usize = 0;
        while i < self.entries.len()
            invariant
                0 <= i <= self.entries@.len(),
                self@.len() == self.entries@.len(),
                keys_distinct(self@),
                forall|k: int| 0 <= k < i ==> self@[k].0 != path@,
            decreases self.entries@.len() - i,
        {
            if self.entries[i].0 == *path {
                proof {
                    lemma_key_index(self@, path@, i as int);
                }
                return Some(i);
            }
            i += 1;
        }
        None
    }

    /// Where a new mark of `path` goes, with what comparing `path` with the mark found there
    /// showed.
    fn position_for(&self, path: &String) -> (index: usize)
        ensures
            index == insert_position(self@, path@),
            index < self@.len() ==> !path_precedes(self@[index as int].0, path@),
            index < self@.len() ==> forall|c: Seq<char>|
                #[trigger] path_precedes(c, path@) ==> path_precedes(c, self@[index as int].0),
    {
        let mut i: usize = 0;
        while i < self.entries.len()
            invariant_except_break
                0 <= i <= self.entries@.len(),
                self@.len() == self.entries@.len(),
                forall|k: int| 0 <= k < i ==> !path_precedes(path@, #[trigger] self@[k].0),
            ensures
                0 <= i <= self.entries@.len(),
                self@.len() == self.entries@.len(),
                forall|k: int| 0 <= k < i ==> !path_precedes(path@, #[trigger] self@[k].0),
                i < self@.len() ==> path_precedes(path@, self@[i as int].0),
                i < self@.len() ==> !path_precedes(self@[i as int].0, path@),
                i < self@.len() ==> forall|c: Seq<char>|
                    #[trigger] path_precedes(c, path@) ==> path_precedes(c, self@[i as int].0),
            decreases self.entries@.len() - i,
        {
            let follows = path_before(path.as_str(), self.entries[i].0.as_str());
            if follows {
                break;
            }
            i += 1;
        }
        proof {
            lemma_insert_position(self@, path@, i as int);
        }
        i
    }

    /// Marks `path` when it is not marked and unmarks it when it is; the mark is kept under the
    /// path's normal form. Returns whether it is marked now.
    pub fn toggle(&mut self, path: String, item: MarkedItem) -> (marked: bool)
        ensures
            final(self)@ == toggled(old(self)@, path_normal(path@), item),
            marked == !has_key(old(self)@, path_normal(path@)),
            marked == has_key(final(self)@, path_normal(path@)),
            marked ==> final(self)@.len() == old(self)@.len() + 1 && final(self)@[insert_position(
                old(self)@,
                path_normal(path@),
            )] == (path_normal(path@), item),
            !marked ==> final(self)@.len() == old(self)@.len() - 1,
            keys_distinct(old(self)@),
            keys_distinct(final(self)@),
            in_path_order(final(self)@),
    {
        proof {
            use_type_invariant(&*self);
        }
        let path = normal_path(path.as_str());
        match self.find(&path) {
            Some(i) => {
                let ghost before = self@;
                let mut entries: Vec<(String, MarkedItem)> = Vec::new();
                std::mem::swap(&mut entries, &mut self.entries);
                entries.remove(i);
                proof {
                    lemma_remove_keeps_order(before, i as int);
                    let after = view_of(entries@);
                    assert(after =~= before.remove(i as int));
                    assert forall|k: int| 0 <= k < after.len() implies after[k].0 != path@ by {
                        if k < i {
                            assert(after[k] == before[k]);
                        } else {
                            assert(after[k] == before[k + 1]);
                        }
                    }
                }
                self.entries = entries;
                false
            },
            None => {
                let pos = self.position_for(&path);
                let ghost before = self@;
                let ghost key = path@;
                proof {
                    lemma_insert_position_exists(before, key);
                }
                let mut entries: Vec<(String, MarkedItem)> = Vec::new();
                std::mem::swap(&mut entries, &mut self.entries);
                entries.insert(pos, (path, item));
                proof {
                    lemma_insert_keeps_order(before, key, item, pos as int);
                    let after = view_of(entries@);
                    assert(after =~= before.insert(pos as int, (key, item)));
                    assert(after[pos as int].0 == key);
                    assert forall|a: int, b: int|
                        0 <= a < b < after.len() implies after[a].0 != after[b].0 by {
                        if a == pos {
                            assert(after[b] == before[b - 1]);
                        } else if b == pos {
                            assert(after[a] == before[a]);
                        } else {
                            let ea = if a < pos {
                                a
                            } else {
                                a - 1
                            };
                            let eb = if b < pos {
                                b
                            } else {
                                b - 1
                            };
                            assert(after[a] == before[ea]);
                            assert(after[b] == before[eb]);
                        }
                    }
                }
                self.entries = entries;
                true
            },
        }
    }

    /// Whether `path` is marked.
    pub fn contains(&self, path: &str) -> (marked: bool)
        ensures
            marked == has_key(self@, path_normal(path@)),
            keys_distinct(self@),
            in_path_order(self@),
    {
        proof {
            use_type_invariant(self);
        }
        let key = normal_path(path);
        self.find(&key).is_some()
    }

    /// Unmarks `path`.
    pub fn remove(&mut self, path: &str)
        ensures
            final(self)@ == (match key_index(old(self)@, path_normal(path@)) {
                Some(i) => old(self)@.remove(i),
                None => old(self)@,
            }),
            !has_key(final(self)@, path_normal(path@)),
            keys_distinct(final(self)@),
            in_path_order(final(self)@),
    {
        proof {
            use_type_invariant(&*self);
        }
        let key = normal_path(path);
        if let Some(i) = self.find(&key) {
            let ghost before = self@;
            let mut entries: Vec<(String, MarkedItem)> = Vec::new();
            std::mem::swap(&mut entries, &mut self.entries);
            entries.remove(i);
            proof {
                lemma_remove_keeps_order(before, i as int);
                let after = view_of(entries@);
                assert(after =~= before.remove(i as int));
                assert forall|k: int| 0 <= k < after.len() implies after[k].0 != key@ by {
                    if k < i {
                        assert(after[k] == before[k]);
                    } else {
                        assert(after[k] == before[k + 1]);
                    }
                }
            }
            self.entries = entries;
        }
    }

    /// Unmarks everything.
    pub fn clear(&mut self)
        ensures
            final(self)@ == Seq::<MarkEntry>::empty(),
            keys_distinct(final(self)@),
            in_path_order(final(self)@),
    {
        self.entries = Vec::new();
        assert(view_of(self.entries@) =~= Seq::<MarkEntry>::empty());
    }

    /// Number of marks.
    pub fn len(&self) -> (count: usize)
        ensures
            count == self@.len(),
            keys_distinct(self@),
            in_path_order(self@),
    {
        proof {
            use_type_invariant(self);
        }
        self.entries.len()
    }

    /// Whether nothing is marked.
    pub fn is_empty(&self) -> (empty: bool)
        ensures
            empty == (self@.len() == 0),
    {
        self.entries.len() == 0
    }

    /// Total size of the marks, held at `u64::MAX`.
    pub fn total_size(&self) -> (total: ByteSize)
        ensures
            total.0 == saturate(sizes_sum(self@)),
    {
        let mut total = ByteSize::zero();
        let mut i: usize = 0;
        while i < self.entries.len()
            invariant
                0 <= i <= self.entries@.len(),
                self@.len() == self.entries@.len(),
                total.0 == saturate(sizes_sum(self@.take(i as int))),
            decreases self.entries@.len() - i,
        {
            assert(self@.take(i + 1).drop_last() =~= self@.take(i as int));
            total = total.saturating_add(self.entries[i].1.size);
            i += 1;
        }
        assert(self@.take(i as int) =~= self@);
        total
    }

    /// The marks in order, each with its path.
    pub fn iter(&self) -> (entries: &[(String, MarkedItem)])
        ensures
            entries@.map_values(|entry: (String, MarkedItem)| (entry.0@, entry.1)) == self@,
            keys_distinct(self@),
            in_path_order(self@),
    {
        proof {
            use_type_invariant(self);
        }
        self.entries.as_slice()
    }

    /// Refreshes the size of the mark of `path`, so the confirmation shows what the tree
    /// knows right now.
    pub fn update_size(&mut self, path: &str, size: ByteSize)
        ensures
            final(self)@ == (match key_index(old(self)@, path_normal(path@)) {
                Some(i) => old(self)@.update(
                    i,
                    (
                        old(self)@[i].0,
                        MarkedItem {
                            size: size,
                            is_directory: old(self)@[i].1.is_directory,
                            node: old(self)@[i].1.node,
                            parent_node: old(self)@[i].1.parent_node,
                        },
                    ),
                ),
                None => old(self)@,
            }),
            keys_distinct(final(self)@),
            in_path_order(final(self)@),
    {
        proof {
            use_type_invariant(&*self);
        }
        let key = normal_path(path);
        if let Some(i) = self.find(&key) {
            let ghost before = self@;
            let mut entries: Vec<(String, MarkedItem)> = Vec::new();
            std::mem::swap(&mut entries, &mut self.entries);
            let (name, mut item) = entries.remove(i);
            item.size = size;
            entries.insert(i, (name, item));
            proof {
                let after = view_of(entries@);
                assert(after =~= before.update(i as int, (before[i as int].0, item)));
                assert forall|a: int, b: int|
                    0 <= a < b < after.len() implies after[a].0 != after[b].0
                        && !path_precedes(after[b].0, after[a].0) by {
                    assert(after[a].0 == before[a].0);
                    assert(after[b].0 == before[b].0);
                }
            }
            self.entries = entries;
        }
    }

    /// A deletion plan over every mark, in order.
    pub fn plan(&self, mode: DeletionMode) -> (plan: DeletionPlan)
        ensures
            plan.mode == mode,
            plan.items@.len() == self@.len(),
            forall|i: int|
                0 <= i < self@.len() ==> {
                    &&& (#[trigger] plan.items@[i]).path@ == self@[i].0
                    &&& plan.items@[i].size == self@[i].1.size
                    &&& plan.items@[i].is_directory == self@[i].1.is_directory
                    &&& plan.items@[i].node == self@[i].1.node
                },
            forall|a: int, b: int|
                0 <= a < b < plan.items@.len() ==> plan.items@[a].path@ != plan.items@[b].path@,
            forall|a: int, b: int|
                0 <= a < b < plan.items@.len() ==> !path_precedes(
                    plan.items@[b].path@,
                    plan.items@[a].path@,
                ),
    {
        proof {
            use_type_invariant(self);
        }
        let mut items: Vec<DeletionItem> = Vec::new();
        let mut i: usize = 0;
        while i < self.entries.len()
            invariant
                0 <= i <= self.entries@.len(),
                self@.len() == self.entries@.len(),
                items@.len() == i,
                forall|k: int|
                    0 <= k < i ==> {
                        &&& (#[trigger] items@[k]).path@ == self@[k].0
                        &&& items@[k].size == self@[k].1.size
                        &&& items@[k].is_directory == self@[k].1.is_directory
                        &&& items@[k].node == self@[k].1.node
                    },
            decreases self.entries@.len() - i,
        {
            let item = &self.entries[i].1;
            items.push(
                DeletionItem {
                    path: self.entries[i].0.clone(),
                    size: item.size,
                    is_directory: item.is_directory,
                    node: item.node,
                },
            );
            i += 1;
        }
        DeletionPlan::new(items, mode)
    }

    /// The containing directory recorded with the mark of `path`.
    pub fn parent_of(&self, path: &str) -> (parent: Option<NodeId>)
        ensures
            parent == (match key_index(self@, path_normal(path@)) {
                Some(i) => self@[i].1.parent_node,
                None => None,
            }),
    {
        let key = normal_path(path);
        match self.find(&key) {
            Some(i) => self.entries[i].1.parent_node,
            None => None,
        }
    }
}

} // verus!
