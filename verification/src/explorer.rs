//! The directory explorer: the badge of a row, the order rows are shown in, and the
//! cursor that stays on the same item while the rows are rebuilt.

use vstd::prelude::*;

use crate::formatting::{decimal, decimal_string};
use crate::model::{ByteSize, NodeId};
use crate::ordering::{
    in_shown_order, lemma_stable_sorted_in_order, lemma_stable_sorted_permutation, stable_sort,
    stable_sorted, ShownBefore,
};
use crate::text::{chars_of, contains_chars, contains_seq, lowercase, to_lowercase};

verus! {

/// What the scanner knows about a directory node.
#[derive(Clone, Copy, Debug, PartialEq, Eq, Structural)]
pub struct NodeFlags {
    /// A mount point or skipped path: measured as a root of its own.
    pub boundary: bool,
    pub access_denied: bool,
    pub read_failed: bool,
    /// Summed in aggregate and never listed.
    pub dense: bool,
    /// Deeper levels were summed into this node instead of becoming nodes.
    pub has_unmaterialized_children: bool,
}

/// The state column of a row.
#[derive(Clone, Copy, Debug, PartialEq, Eq, Structural)]
pub enum RowBadge {
    Scanning,
    Complete,
    Dense,
    Denied,
    Failed,
    Boundary,
    Lazy,
    File,
}

/// The badge of a directory: the first of boundary, denied, failed, dense that applies;
/// otherwise scanning until complete; then lazy when deeper levels were not materialised and
/// no child is known, complete otherwise.
pub open spec fn badge_spec(flags: NodeFlags, complete: bool, has_children: bool) -> RowBadge {
    if flags.boundary {
        RowBadge::Boundary
    } else if flags.access_denied {
        RowBadge::Denied
    } else if flags.read_failed {
        RowBadge::Failed
    } else if flags.dense {
        RowBadge::Dense
    } else if !complete {
        RowBadge::Scanning
    } else if flags.has_unmaterialized_children && !has_children {
        RowBadge::Lazy
    } else {
        RowBadge::Complete
    }
}

impl RowBadge {
    /// The badge of a directory row.
    pub fn from_flags(flags: NodeFlags, complete: bool, has_children: bool) -> (badge: RowBadge)
        ensures
            badge == badge_spec(flags, complete, has_children),
            badge != RowBadge::File,
    {
        if flags.boundary {
            RowBadge::Boundary
        } else if flags.access_denied {
            RowBadge::Denied
        } else if flags.read_failed {
            RowBadge::Failed
        } else if flags.dense {
            RowBadge::Dense
        } else if !complete {
            RowBadge::Scanning
        } else if flags.has_unmaterialized_children && !has_children {
            RowBadge::Lazy
        } else {
            RowBadge::Complete
        }
    }
}

/// Identity of a row that survives re-sorting while sizes change.
#[derive(Clone, Debug)]
pub enum RowKey {
    Directory(NodeId),
    /// A file, by its name in the directory shown.
    File(String),
}

/// Whether two keys name the same item.
pub open spec fn same_key(a: RowKey, b: RowKey) -> bool {
    match (a, b) {
        (RowKey::Directory(x), RowKey::Directory(y)) => x == y,
        (RowKey::File(x), RowKey::File(y)) => x@ == y@,
        _ => false,
    }
}

impl RowKey {
    /// An equal copy.
    pub fn duplicate(&self) -> (copy: RowKey)
        ensures
            copy == *self,
    {
        match self {
            RowKey::Directory(node) => RowKey::Directory(*node),
            RowKey::File(name) => RowKey::File(name.clone()),
        }
    }

    /// Whether `self` and `other` name the same item.
    pub fn same_as(&self, other: &RowKey) -> (same: bool)
        ensures
            same == same_key(*self, *other),
    {
        match (self, other) {
            (RowKey::Directory(x), RowKey::Directory(y)) => x.0 == y.0,
            (RowKey::File(x), RowKey::File(y)) => {
                let a = chars_of(x.as_str());
                let b = chars_of(y.as_str());
                crate::text::chars_eq(a.as_slice(), b.as_slice())
            },
            _ => false,
        }
    }
}

/// One line of the explorer table. Its share of the parent and the symbol of its entry kind
/// are derived when it is drawn.
#[derive(Clone, Debug)]
pub struct ExplorerRow {
    pub key: RowKey,
    pub name: String,
    pub path: String,
    pub size: ByteSize,
    /// Entries below a directory; `None` for a file.
    pub items: Option<u64>,
    pub badge: RowBadge,
    pub is_directory: bool,
    pub marked: bool,
}

/// What the explorer shows and where its cursor is.
pub struct ExplorerState {
    pub current: Option<NodeId>,
    pub rows: Vec<ExplorerRow>,
    pub selected: usize,
    /// The item under the cursor, followed across rebuilds.
    pub selected_key: Option<RowKey>,
    pub row_limit: usize,
    pub show_files: bool,
    pub filter: Option<String>,
    /// The row the table highlights.
    pub table_selection: Option<usize>,
    /// Number of rows before the limit was applied.
    pub unlimited_row_count: usize,
}

/// `value` held to `0..=len - 1`.
pub open spec fn clamp_index(value: int, len: int) -> int {
    if value < 0 {
        0
    } else if value > len - 1 {
        len - 1
    } else {
        value
    }
}

/// Where the cursor is after the rows became `rows`, with the cursor at `selected` on item
/// `key` before: on the first row of that item when one is shown; otherwise at the same
/// position held within the rows, remembering the item now under it.
pub open spec fn cursor_resynced(
    rows: Seq<ExplorerRow>,
    selected: usize,
    key: Option<RowKey>,
    after: ExplorerState,
) -> bool {
    match key {
        Some(k) if exists|i: int| 0 <= i < rows.len() && same_key(rows[i].key, k) => {
            &&& 0 <= after.selected < rows.len()
            &&& same_key(rows[after.selected as int].key, k)
            &&& forall|j: int| 0 <= j < after.selected ==> !same_key(rows[j].key, k)
            &&& after.selected_key == key
            &&& after.table_selection == Some(after.selected)
        },
        _ => if rows.len() == 0 {
            &&& after.selected == 0
            &&& after.selected_key == key
            &&& after.table_selection is None
        } else {
            &&& after.selected == (if selected < rows.len() {
                selected as int
            } else {
                rows.len() - 1
            })
            &&& after.selected_key == Some(rows[after.selected as int].key)
            &&& after.table_selection == Some(after.selected)
        },
    }
}

/// The cursor moved `delta` rows from `selected`, held to the `len` rows there are.
pub fn clamped_cursor(selected: usize, delta: isize, len: usize) -> (target: usize)
    requires
        0 < len <= isize::MAX,
        selected <= isize::MAX,
        isize::MIN <= selected + delta <= isize::MAX,
    ensures
        target == clamp_index(selected + delta, len as int),
{
    let moved = selected as isize + delta;
    let last = (len - 1) as isize;
    if moved < 0 {
        0
    } else if moved > last {
        last as usize
    } else {
        moved as usize
    }
}

impl ExplorerState {
    /// An explorer showing nothing yet, files included, with no filter.
    pub fn new(row_limit: usize) -> (state: ExplorerState)
        ensures
            state.current is None,
            state.rows@.len() == 0,
            state.selected == 0,
            state.selected_key is None,
            state.row_limit == row_limit,
            state.show_files,
            state.filter is None,
            state.table_selection is None,
            state.unlimited_row_count == 0,
    {
        ExplorerState {
            current: None,
            rows: Vec::new(),
            selected: 0,
            selected_key: None,
            row_limit,
            show_files: true,
            filter: None,
            table_selection: None,
            unlimited_row_count: 0,
        }
    }

    /// The row under the cursor.
    pub fn selected_row(&self) -> (row: Option<&ExplorerRow>)
        ensures
            match row {
                Some(r) => self.selected < self.rows@.len() && *r == self.rows@[self.selected as int],
                None => self.selected >= self.rows@.len(),
            },
    {
        if self.selected < self.rows.len() {
            Some(&self.rows[self.selected])
        } else {
            None
        }
    }

    /// Puts the cursor on row `index`, or on the last row when there are fewer, and
    /// remembers that row's item.
    pub fn select(&mut self, index: usize)
        ensures
            final(self).rows@ == old(self).rows@,
            final(self).current == old(self).current,
            final(self).row_limit == old(self).row_limit,
            final(self).show_files == old(self).show_files,
            final(self).filter == old(self).filter,
            final(self).unlimited_row_count == old(self).unlimited_row_count,
            final(self).table_selection == Some(final(self).selected),
            old(self).rows@.len() == 0 ==> final(self).selected == 0 && final(self).selected_key
                is None,
            old(self).rows@.len() > 0 ==> {
                &&& final(self).selected == (if index < old(self).rows@.len() {
                    index as int
                } else {
                    old(self).rows@.len() - 1
                })
                &&& final(self).selected_key == Some(
                    old(self).rows@[final(self).selected as int].key,
                )
            },
    {
        if self.rows.len() == 0 {
            self.selected = 0;
            self.selected_key = None;
        } else {
            let last = self.rows.len() - 1;
            self.selected = if index < last {
                index
            } else {
                last
            };
            self.selected_key = Some(self.rows[self.selected].key.duplicate());
        }
        self.table_selection = Some(self.selected);
    }

    /// Moves the cursor `delta` rows, stopping at the first and the last row.
    pub fn move_selection(&mut self, delta: isize)
        requires
            old(self).selected <= isize::MAX,
            old(self).rows@.len() <= isize::MAX,
            isize::MIN <= old(self).selected + delta <= isize::MAX,
        ensures
            old(self).rows@.len() == 0 ==> *final(self) == *old(self),
            old(self).rows@.len() > 0 ==> {
                let target = clamp_index(old(self).selected + delta, old(self).rows@.len() as int);
                &&& final(self).selected == target
                &&& final(self).selected_key == Some(old(self).rows@[target].key)
                &&& final(self).table_selection == Some(final(self).selected)
            },
            final(self).rows@ == old(self).rows@,
            final(self).current == old(self).current,
            final(self).row_limit == old(self).row_limit,
            final(self).show_files == old(self).show_files,
            final(self).filter == old(self).filter,
            final(self).unlimited_row_count == old(self).unlimited_row_count,
    {
        if self.rows.len() == 0 {
            return;
        }
        let target = clamped_cursor(self.selected, delta, self.rows.len());
        self.select(target);
    }

    /// After the rows were rebuilt, puts the cursor back on the remembered item when it is
    /// still shown; otherwise keeps the cursor's position, within the rows, and remembers
    /// the item now under it.
    pub fn resync_selection(&mut self)
        ensures
            final(self).rows@ == old(self).rows@,
            final(self).current == old(self).current,
            final(self).row_limit == old(self).row_limit,
            final(self).show_files == old(self).show_files,
            final(self).filter == old(self).filter,
            final(self).unlimited_row_count == old(self).unlimited_row_count,
            cursor_resynced(
                old(self).rows@,
                old(self).selected,
                old(self).selected_key,
                *final(self),
            ),
    {
        if let Some(key) = &self.selected_key {
            let mut i: usize = 0;
            while i < self.rows.len()
                invariant
                    0 <= i <= self.rows@.len(),
                    *self == *old(self),
                    self.selected_key == Some(*key),
                    forall|j: int| 0 <= j < i ==> !same_key(self.rows@[j].key, *key),
                decreases self.rows@.len() - i,
            {
                if self.rows[i].key.same_as(key) {
                    self.selected = i;
                    self.table_selection = Some(i);
                    return;
                }
                i += 1;
            }
        }
        if self.rows.len() == 0 {
            self.selected = 0;
            self.table_selection = None;
        } else {
            let last = self.rows.len() - 1;
            if self.selected > last {
                self.selected = last;
            }
            self.selected_key = Some(self.rows[self.selected].key.duplicate());
            self.table_selection = Some(self.selected);
        }
    }
}

// ---------------------------------------------------------------------------------------
// The order rows are shown in
// ---------------------------------------------------------------------------------------

/// `a` before `b` when compared character by character by code point, which is the order
/// `str` compares in (UTF-8 keeps code-point order byte by byte).
pub open spec fn name_less(a: Seq<char>, b: Seq<char>) -> bool
    decreases a.len(),
{
    if a.len() == 0 {
        b.len() > 0
    } else if b.len() == 0 {
        false
    } else if a[0] != b[0] {
        (a[0] as u32) < (b[0] as u32)
    } else {
        name_less(a.drop_first(), b.drop_first())
    }
}

/// Whether row `a` is shown above row `b`: the larger first, a directory before a file of
/// the same size, then by name.
pub open spec fn row_before(a: ExplorerRow, b: ExplorerRow) -> bool {
    ||| a.size.0 > b.size.0
    ||| a.size.0 == b.size.0 && a.is_directory && !b.is_directory
    ||| a.size.0 == b.size.0 && a.is_directory == b.is_directory && name_less(a.name@, b.name@)
}

/// The rows in the order they are shown; rows that compare equal keep their order.
pub open spec fn sort_rows(rows: Seq<ExplorerRow>) -> Seq<ExplorerRow> {
    stable_sorted(rows)
}

impl ShownBefore for ExplorerRow {
    open spec fn before(self, other: Self) -> bool {
        row_before(self, other)
    }

    proof fn lemma_before_asymmetric(a: Self, b: Self) {
        lemma_name_less_asymmetric(a.name@, b.name@);
    }

    proof fn lemma_before_transitive(a: Self, b: Self, c: Self) {
        if a.size.0 == b.size.0 && b.size.0 == c.size.0 && a.is_directory == b.is_directory
            && b.is_directory == c.is_directory {
            lemma_name_less_transitive(a.name@, b.name@, c.name@);
        }
    }

    fn precedes(&self, other: &Self) -> (before: bool) {
        row_precedes(self, other)
    }
}

proof fn lemma_name_less_asymmetric(a: Seq<char>, b: Seq<char>)
    ensures
        !(name_less(a, b) && name_less(b, a)),
    decreases a.len(),
{
    if a.len() > 0 && b.len() > 0 && a[0] == b[0] {
        lemma_name_less_asymmetric(a.drop_first(), b.drop_first());
    }
}

proof fn lemma_name_less_transitive(a: Seq<char>, b: Seq<char>, c: Seq<char>)
    requires
        name_less(a, b),
        name_less(b, c),
    ensures
        name_less(a, c),
    decreases a.len(),
{
    if a.len() > 0 && b.len() > 0 && c.len() > 0 && a[0] == b[0] && b[0] == c[0] {
        lemma_name_less_transitive(a.drop_first(), b.drop_first(), c.drop_first());
    }
}

/// The rows as shown are in order: no row comes before a row above it, and sorting loses
/// or adds no row.
pub proof fn lemma_sorted_rows(rows: Seq<ExplorerRow>)
    ensures
        in_shown_order(sort_rows(rows)),
        sort_rows(rows).to_multiset() == rows.to_multiset(),
{
    lemma_stable_sorted_in_order(rows);
    lemma_stable_sorted_permutation(rows);
}

/// The rows are shown biggest first: no row is smaller than one shown after it; among rows
/// of one size the directories come before the files; among rows of one size and kind no
/// name sorts before one shown earlier.
pub proof fn lemma_rows_biggest_first(rows: Seq<ExplorerRow>)
    ensures
        forall|i: int, j: int|
            0 <= i < j < sort_rows(rows).len() ==> (#[trigger] sort_rows(rows)[i]).size.0
                >= (#[trigger] sort_rows(rows)[j]).size.0,
        forall|i: int, j: int|
            0 <= i < j < sort_rows(rows).len() && (#[trigger] sort_rows(rows)[i]).size.0 == (
            #[trigger] sort_rows(rows)[j]).size.0 && sort_rows(rows)[j].is_directory
                ==> sort_rows(rows)[i].is_directory,
        forall|i: int, j: int|
            0 <= i < j < sort_rows(rows).len() && (#[trigger] sort_rows(rows)[i]).size.0 == (
            #[trigger] sort_rows(rows)[j]).size.0 && sort_rows(rows)[i].is_directory
                == sort_rows(rows)[j].is_directory ==> !name_less(
                sort_rows(rows)[j].name@,
                sort_rows(rows)[i].name@,
            ),
        sort_rows(rows).len() == rows.len(),
{
    lemma_sorted_rows(rows);
    let sorted = sort_rows(rows);
    vstd::seq_lib::to_multiset_len(sorted);
    vstd::seq_lib::to_multiset_len(rows);
    assert forall|i: int, j: int| 0 <= i < j < sorted.len() implies !row_before(
        sorted[j],
        sorted[i],
    ) by {
        assert(!sorted[j].before(sorted[i]));
    }
}

/// Whether `a` comes before `b` in code-point order.
pub fn name_precedes(a: &str, b: &str) -> (less: bool)
    ensures
        less == name_less(a@, b@),
{
    let x = chars_of(a);
    let y = chars_of(b);
    let mut i: usize = 0;
    assert(a@.skip(0) =~= a@);
    assert(b@.skip(0) =~= b@);
    while i < x.len() && i < y.len() && x[i] == y[i]
        invariant
            0 <= i <= x@.len(),
            i <= y@.len(),
            x@ == a@,
            y@ == b@,
            name_less(a@, b@) == name_less(a@.skip(i as int), b@.skip(i as int)),
        decreases x@.len() - i,
    {
        assert(a@.skip(i as int).drop_first() =~= a@.skip(i + 1));
        assert(b@.skip(i as int).drop_first() =~= b@.skip(i + 1));
        i += 1;
    }
    if i == x.len() {
        i < y.len()
    } else if i == y.len() {
        false
    } else {
        (x[i] as u32) < (y[i] as u32)
    }
}

/// Whether row `a` is shown above row `b`.
pub fn row_precedes(a: &ExplorerRow, b: &ExplorerRow) -> (before: bool)
    ensures
        before == row_before(*a, *b),
{
    if a.size.0 != b.size.0 {
        a.size.0 > b.size.0
    } else if a.is_directory != b.is_directory {
        a.is_directory
    } else {
        name_precedes(a.name.as_str(), b.name.as_str())
    }
}

/// The rows in the order they are shown (a stable sort by [`row_precedes`]).
pub fn order_rows(rows: Vec<ExplorerRow>) -> (sorted: Vec<ExplorerRow>)
    ensures
        sorted@ == sort_rows(rows@),
{
    stable_sort(rows)
}

/// Whether a row named `name` is shown under `filter`: every row when there is none,
/// otherwise those whose lower-cased name contains the lower-cased filter.
pub fn matches_filter(name: &str, filter: Option<&str>) -> (shown: bool)
    ensures
        shown == match filter {
            None => true,
            Some(f) => contains_seq(lowercase(name@), lowercase(f@)),
        },
{
    match filter {
        None => true,
        Some(f) => {
            let lower_name = to_lowercase(name);
            let lower_filter = to_lowercase(f);
            let text = chars_of(lower_name.as_str());
            let part = chars_of(lower_filter.as_str());
            contains_chars(text.as_slice(), part.as_slice())
        },
    }
}

impl ExplorerState {
    /// Shows `rows`: in order, at most `row_limit` of them, counting how many there were,
    /// with the cursor put back on the remembered item.
    pub fn show_rows(&mut self, rows: Vec<ExplorerRow>)
        ensures
            final(self).unlimited_row_count == rows@.len(),
            final(self).rows@ == (if rows@.len() <= old(self).row_limit {
                sort_rows(rows@)
            } else {
                sort_rows(rows@).take(old(self).row_limit as int)
            }),
            cursor_resynced(final(self).rows@, old(self).selected, old(self).selected_key, *final(self)),
            final(self).current == old(self).current,
            final(self).row_limit == old(self).row_limit,
            final(self).show_files == old(self).show_files,
            final(self).filter == old(self).filter,
    {
        let ghost input = rows@;
        let mut sorted = order_rows(rows);
        proof {
            lemma_stable_sorted_permutation(input);
        }
        self.unlimited_row_count = sorted.len();
        sorted.truncate(self.row_limit);
        self.rows = sorted;
        self.resync_selection();
    }
}

// ---------------------------------------------------------------------------------------
// Export
// ---------------------------------------------------------------------------------------

/// The first line of an export: the column names.
pub open spec fn export_header() -> Seq<char> {
    "bytes\titems\tkind\tpath"@
}

/// The export line of `row`: its bytes, its entries (empty for a file), `dir` or `file`, and
/// its path, separated by tabs.
pub open spec fn export_line_spec(row: ExplorerRow) -> Seq<char> {
    decimal(row.size.0 as nat) + "\t"@ + match row.items {
        Some(items) => decimal(items as nat),
        None => Seq::<char>::empty(),
    } + "\t"@ + (if row.is_directory {
        "dir"@
    } else {
        "file"@
    }) + "\t"@ + row.path@
}

/// The export line of `row`.
pub fn export_line(row: &ExplorerRow) -> (line: String)
    ensures
        line@ == export_line_spec(*row),
{
    let mut line = decimal_string(row.size.0);
    line.append("\t");
    match row.items {
        Some(items) => line.append(decimal_string(items).as_str()),
        None => {},
    }
    line.append("\t");
    if row.is_directory {
        line.append("dir");
    } else {
        line.append("file");
    }
    line.append("\t");
    line.append(row.path.as_str());
    proof {
        reveal_strlit("\t");
        reveal_strlit("dir");
        reveal_strlit("file");
    }
    assert(line@ =~= export_line_spec(*row));
    line
}

/// The lines `:export` writes for `rows`, as TSV: the column names, then one line per row in
/// the order shown.
pub fn export_lines(rows: &[ExplorerRow]) -> (lines: Vec<String>)
    ensures
        lines@.len() == rows@.len() + 1,
        lines@[0]@ == export_header(),
        forall|i: int| 0 <= i < rows@.len() ==> #[trigger] lines@[i + 1]@ == export_line_spec(rows@[i]),
{
    let mut lines: Vec<String> = Vec::new();
    lines.push(String::from_str("bytes\titems\tkind\tpath"));
    let mut i: usize = 0;
    while i < rows.len()
        invariant
            0 <= i <= rows@.len(),
            lines@.len() == i + 1,
            lines@[0]@ == export_header(),
            forall|k: int| 0 <= k < i ==> #[trigger] lines@[k + 1]@ == export_line_spec(rows@[k]),
        decreases rows@.len() - i,
    {
        lines.push(export_line(&rows[i]));
        i += 1;
    }
    lines
}

} // verus!
