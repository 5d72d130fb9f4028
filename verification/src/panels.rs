//! The state of the dashboard, the cleaner and the heaviest-files view: what each lists and
//! where its cursor is.

use std::time::Instant;

use vstd::prelude::*;

use crate::clock::now;
use crate::screen_keys::cursor_step;
use crate::screen::Screen;
use crate::explorer::{clamp_index, clamped_cursor};
use crate::keys::Key;
use crate::model::{
    ByteSize, CandidateId, CleaningCandidate, CleaningCategory, CleaningReport, NodeId, QueryId,
};
use crate::ordering::{
    lemma_stable_sorted_in_order, lemma_stable_sorted_permutation, stable_sort, stable_sorted,
    ShownBefore,
};

verus! {

// ---------------------------------------------------------------------------------------
// Cleaner
// ---------------------------------------------------------------------------------------

/// A line of the cleaner table: the header of a category or one of its candidates.
#[derive(Clone, Copy, Debug, PartialEq, Eq, Structural)]
pub enum CleanerRow {
    Category(CleaningCategory),
    Candidate(CandidateId),
}

/// The candidates of `category`, in the order given.
pub open spec fn members_of(candidates: Seq<CleaningCandidate>, category: CleaningCategory) -> Seq<
    CleaningCandidate,
>
    decreases candidates.len(),
{
    if candidates.len() == 0 {
        Seq::empty()
    } else if candidates.last().category == category {
        members_of(candidates.drop_last(), category).push(candidates.last())
    } else {
        members_of(candidates.drop_last(), category)
    }
}

/// Rank of a size for the cleaner's order: an unknown size below every known one.
pub open spec fn size_rank(size: Option<ByteSize>) -> int {
    match size {
        Some(bytes) => bytes.0 + 1,
        None => 0,
    }
}

impl ShownBefore for CleaningCandidate {
    /// The larger candidate first; unknown sizes last.
    open spec fn before(self, other: Self) -> bool {
        size_rank(self.size) > size_rank(other.size)
    }

    proof fn lemma_before_asymmetric(a: Self, b: Self) {
    }

    proof fn lemma_before_transitive(a: Self, b: Self, c: Self) {
    }

    fn precedes(&self, other: &Self) -> (before: bool) {
        match (self.size, other.size) {
            (Some(a), Some(b)) => a.0 > b.0,
            (Some(_), None) => true,
            (None, _) => false,
        }
    }
}

/// The rows of one category: nothing when it has no candidate; otherwise its header, then,
/// unless it is collapsed, its candidates from the largest down.
pub open spec fn category_rows(
    category: CleaningCategory,
    candidates: Seq<CleaningCandidate>,
    collapsed: Seq<CleaningCategory>,
) -> Seq<CleanerRow> {
    let members = members_of(candidates, category);
    if members.len() == 0 {
        Seq::empty()
    } else if collapsed.contains(category) {
        seq![CleanerRow::Category(category)]
    } else {
        seq![CleanerRow::Category(category)] + stable_sorted(members).map_values(
            |candidate: CleaningCandidate| CleanerRow::Candidate(candidate.id),
        )
    }
}

/// The rows of the cleaner table: the rows of each category, in catalogue order.
pub open spec fn cleaner_rows_spec(
    categories: Seq<CleaningCategory>,
    candidates: Seq<CleaningCandidate>,
    collapsed: Seq<CleaningCategory>,
) -> Seq<CleanerRow>
    decreases categories.len(),
{
    if categories.len() == 0 {
        Seq::empty()
    } else {
        cleaner_rows_spec(categories.drop_last(), candidates, collapsed) + category_rows(
            categories.last(),
            candidates,
            collapsed,
        )
    }
}

/// The candidates of `category`.
fn members(candidates: &[CleaningCandidate], category: CleaningCategory) -> (found: Vec<
    CleaningCandidate,
>)
    ensures
        found@ == members_of(candidates@, category),
{
    let mut found: Vec<CleaningCandidate> = Vec::new();
    let mut i: usize = 0;
    while i < candidates.len()
        invariant
            0 <= i <= candidates@.len(),
            found@ == members_of(candidates@.take(i as int), category),
        decreases candidates@.len() - i,
    {
        let candidate = candidates[i];
        assert(candidates@.take(i + 1).drop_last() =~= candidates@.take(i as int));
        if candidate.category == category {
            found.push(candidate);
        }
        i += 1;
    }
    assert(candidates@.take(candidates@.len() as int) =~= candidates@);
    found
}

/// Whether `category` is one of `collapsed`.
fn is_collapsed(collapsed: &[CleaningCategory], category: CleaningCategory) -> (found: bool)
    ensures
        found == collapsed@.contains(category),
{
    let mut i: usize = 0;
    while i < collapsed.len()
        invariant
            0 <= i <= collapsed@.len(),
            forall|k: int| 0 <= k < i ==> collapsed@[k] != category,
        decreases collapsed@.len() - i,
    {
        if collapsed[i] == category {
            return true;
        }
        i += 1;
    }
    false
}

/// The rows of the cleaner table for `candidates`, the categories taken in the order of
/// `categories`.
pub fn cleaner_rows(
    categories: &[CleaningCategory],
    candidates: &[CleaningCandidate],
    collapsed: &[CleaningCategory],
) -> (rows: Vec<CleanerRow>)
    ensures
        rows@ == cleaner_rows_spec(categories@, candidates@, collapsed@),
{
    let mut rows: Vec<CleanerRow> = Vec::new();
    let mut k: usize = 0;
    while k < categories.len()
        invariant
            0 <= k <= categories@.len(),
            rows@ == cleaner_rows_spec(categories@.take(k as int), candidates@, collapsed@),
        decreases categories@.len() - k,
    {
        let category = categories[k];
        let ghost before = rows@;
        let found = members(candidates, category);
        if found.len() > 0 {
            rows.push(CleanerRow::Category(category));
            if !is_collapsed(collapsed, category) {
                let sorted = stable_sort(found);
                let mut j: usize = 0;
                while j < sorted.len()
                    invariant
                        0 <= j <= sorted@.len(),
                        rows@ == before.push(CleanerRow::Category(category)) + sorted@.take(
                            j as int,
                        ).map_values(|candidate: CleaningCandidate| CleanerRow::Candidate(candidate.id)),
                    decreases sorted@.len() - j,
                {
                    rows.push(CleanerRow::Candidate(sorted[j].id));
                    assert(sorted@.take(j + 1).map_values(
                        |candidate: CleaningCandidate| CleanerRow::Candidate(candidate.id),
                    ) =~= sorted@.take(j as int).map_values(
                        |candidate: CleaningCandidate| CleanerRow::Candidate(candidate.id),
                    ).push(CleanerRow::Candidate(sorted@[j as int].id)));
                    j += 1;
                }
                assert(sorted@.take(sorted@.len() as int) =~= sorted@);
            }
        }
        proof {
            assert(categories@.take(k + 1).drop_last() =~= categories@.take(k as int));
            assert(rows@ =~= before + category_rows(category, candidates@, collapsed@));
        }
        k += 1;
    }
    assert(categories@.take(categories@.len() as int) =~= categories@);
    rows
}

/// The categories folded away, taken as a set.
pub open spec fn collapsed_set(collapsed: Seq<CleaningCategory>) -> Set<CleaningCategory> {
    Set::new(|c: CleaningCategory| collapsed.contains(c))
}

/// `folded` with `category` opened when it is folded and folded when it is open.
pub open spec fn fold_toggled(folded: Set<CleaningCategory>, category: CleaningCategory) -> Set<
    CleaningCategory,
> {
    if folded.contains(category) {
        folded.remove(category)
    } else {
        folded.insert(category)
    }
}

/// Folding a category twice leaves the folds as they were.
pub proof fn lemma_fold_twice(folded: Set<CleaningCategory>, category: CleaningCategory)
    ensures
        fold_toggled(fold_toggled(folded, category), category) == folded,
{
    assert(fold_toggled(fold_toggled(folded, category), category) =~= folded);
}

/// The candidates of an open category are listed from the largest down, unknown sizes last,
/// and none is lost or repeated.
pub proof fn lemma_open_category_largest_first(
    category: CleaningCategory,
    candidates: Seq<CleaningCandidate>,
)
    ensures
        ({
            let listed = stable_sorted(members_of(candidates, category));
            &&& forall|i: int, j: int|
                0 <= i < j < listed.len() ==> size_rank(#[trigger] listed[i].size) >= size_rank(
                    #[trigger] listed[j].size,
                )
            &&& listed.to_multiset() == members_of(candidates, category).to_multiset()
        }),
{
    let members = members_of(candidates, category);
    lemma_stable_sorted_in_order(members);
    lemma_stable_sorted_permutation(members);
    let listed = stable_sorted(members);
    assert forall|i: int, j: int| 0 <= i < j < listed.len() implies size_rank(
        #[trigger] listed[i].size,
    ) >= size_rank(#[trigger] listed[j].size) by {
        assert(!listed[j].before(listed[i]));
    }
}

proof fn lemma_push_contains(s: Seq<CleaningCategory>, x: CleaningCategory)
    ensures
        forall|c: CleaningCategory|
            #[trigger] s.push(x).contains(c) <==> (s.contains(c) || c == x),
{
    assert forall|c: CleaningCategory| #[trigger] s.push(x).contains(c) <==> (s.contains(c) || c
        == x) by {
        if s.push(x).contains(c) {
            let w = choose|w: int| 0 <= w < s.push(x).len() && s.push(x)[w] == c;
            if w < s.len() {
                assert(s[w] == c);
            }
        }
        if s.contains(c) {
            let w = choose|w: int| 0 <= w < s.len() && s[w] == c;
            assert(s.push(x)[w] == c);
        }
        if c == x {
            assert(s.push(x)[s.len() as int] == c);
        }
    }
}

/// State of the cleaner screen.
pub struct CleanerState {
    pub rows: Vec<CleanerRow>,
    pub selected: usize,
    /// Categories whose candidates are hidden.
    pub collapsed: Vec<CleaningCategory>,
    /// The row the table highlights.
    pub table_selection: Option<usize>,
    pub last_report: Option<CleaningReport>,
    pub running: bool,
}

impl Default for CleanerState {
    fn default() -> (state: CleanerState)
        ensures
            state.rows@.len() == 0,
            state.selected == 0,
            state.collapsed@.len() == 0,
            state.table_selection is None,
            state.last_report is None,
            !state.running,
    {
        CleanerState {
            rows: Vec::new(),
            selected: 0,
            collapsed: Vec::new(),
            table_selection: None,
            last_report: None,
            running: false,
        }
    }
}

impl CleanerState {
    /// The row under the cursor.
    pub fn selected_row(&self) -> (row: Option<&CleanerRow>)
        ensures
            match row {
                Some(r) => self.selected < self.rows@.len() && *r == self.rows@[self.selected as int],
                None => self.selected >= self.rows@.len(),
            },
    {
        if self.selected < self.rows.len() {
            Some(&self.rows[self.selected])
        } else {
            None
        }
    }

    /// Moves the cursor `delta` rows, stopping at the first and the last row.
    pub fn move_selection(&mut self, delta: isize)
        requires
            old(self).selected <= isize::MAX,
            old(self).rows@.len() <= isize::MAX,
            isize::MIN <= old(self).selected + delta <= isize::MAX,
        ensures
            final(self).rows@ == old(self).rows@,
            final(self).collapsed@ == old(self).collapsed@,
            final(self).last_report == old(self).last_report,
            final(self).running == old(self).running,
            old(self).rows@.len() == 0 ==> final(self).selected == 0
                && final(self).table_selection is None,
            old(self).rows@.len() > 0 ==> final(self).selected == clamp_index(
                old(self).selected + delta,
                old(self).rows@.len() as int,
            ) && final(self).table_selection == Some(final(self).selected),
    {
        if self.rows.len() == 0 {
            self.selected = 0;
            self.table_selection = None;
            return;
        }
        self.selected = clamped_cursor(self.selected, delta, self.rows.len());
        self.table_selection = Some(self.selected);
    }

    /// Keeps the cursor within the rows.
    pub fn clamp_selection(&mut self)
        ensures
            final(self).rows@ == old(self).rows@,
            final(self).collapsed@ == old(self).collapsed@,
            final(self).last_report == old(self).last_report,
            final(self).running == old(self).running,
            old(self).rows@.len() == 0 ==> final(self).selected == 0
                && final(self).table_selection is None,
            old(self).rows@.len() > 0 ==> final(self).selected == (if old(self).selected
                < old(self).rows@.len() {
                old(self).selected as int
            } else {
                old(self).rows@.len() - 1
            }) && final(self).table_selection == Some(final(self).selected),
    {
        if self.rows.len() == 0 {
            self.selected = 0;
            self.table_selection = None;
        } else {
            let last = self.rows.len() - 1;
            if self.selected > last {
                self.selected = last;
            }
            self.table_selection = Some(self.selected);
        }
    }

    /// Folds `category` away when it is open, and opens it when it is folded.
    pub fn toggle_collapsed(&mut self, category: CleaningCategory)
        ensures
            collapsed_set(final(self).collapsed@) == fold_toggled(
                collapsed_set(old(self).collapsed@),
                category,
            ),
            final(self).rows@ == old(self).rows@,
            final(self).selected == old(self).selected,
            final(self).table_selection == old(self).table_selection,
            final(self).last_report == old(self).last_report,
            final(self).running == old(self).running,
    {
        let mut kept: Vec<CleaningCategory> = Vec::new();
        let mut removed = false;
        let mut i: usize = 0;
        while i < self.collapsed.len()
            invariant
                0 <= i <= self.collapsed@.len(),
                self.collapsed@ == old(self).collapsed@,
                forall|c: CleaningCategory|
                    #[trigger] kept@.contains(c) <==> (c != category && self.collapsed@.take(
                        i as int,
                    ).contains(c)),
                removed == self.collapsed@.take(i as int).contains(category),
            decreases self.collapsed@.len() - i,
        {
            let current = self.collapsed[i];
            let ghost seen = self.collapsed@.take(i as int);
            let ghost old_kept = kept@;
            proof {
                assert(self.collapsed@.take(i + 1) =~= seen.push(current));
                lemma_push_contains(seen, current);
            }
            if current == category {
                removed = true;
            } else {
                kept.push(current);
                proof {
                    lemma_push_contains(old_kept, current);
                }
            }
            i += 1;
        }
        if !removed {
            let ghost old_kept = kept@;
            kept.push(category);
            proof {
                lemma_push_contains(old_kept, category);
            }
        }
        proof {
            assert(self.collapsed@.take(self.collapsed@.len() as int) =~= self.collapsed@);
            let before = collapsed_set(old(self).collapsed@);
            assert(collapsed_set(kept@) =~= (if before.contains(category) {
                before.remove(category)
            } else {
                before.insert(category)
            }));
        }
        self.collapsed = kept;
    }

    /// Rebuilds the rows from `candidates`, categories in the order of `categories`, and
    /// keeps the cursor within them.
    pub fn rebuild_rows(
        &mut self,
        categories: &[CleaningCategory],
        candidates: &[CleaningCandidate],
    )
        ensures
            final(self).rows@ == cleaner_rows_spec(categories@, candidates@, old(self).collapsed@),
            final(self).collapsed@ == old(self).collapsed@,
            final(self).last_report == old(self).last_report,
            final(self).running == old(self).running,
            final(self).rows@.len() == 0 ==> final(self).selected == 0
                && final(self).table_selection is None,
            final(self).rows@.len() > 0 ==> final(self).selected == (if old(self).selected
                < final(self).rows@.len() {
                old(self).selected as int
            } else {
                final(self).rows@.len() - 1
            }) && final(self).table_selection == Some(final(self).selected),
    {
        self.rows = cleaner_rows(categories, candidates, self.collapsed.as_slice());
        self.clamp_selection();
    }
}

// ---------------------------------------------------------------------------------------
// Dashboard
// ---------------------------------------------------------------------------------------

/// The part of the dashboard that has the keyboard.
#[derive(Clone, Copy, Debug, PartialEq, Eq, Structural)]
pub enum DashboardPanel {
    Volumes,
    RootBreakdown,
}

/// State of the dashboard: the mounted volumes, of whatever record the storage layer
/// describes them with, and the largest children of the system root.
pub struct DashboardState<V> {
    pub volumes: Vec<V>,
    pub selected_volume: usize,
    pub selected_root_row: usize,
    pub focus: DashboardPanel,
    pub root_node: Option<NodeId>,
    pub root_rows: Vec<NodeId>,
    /// The row the breakdown table highlights.
    pub root_table_selection: Option<usize>,
    pub refreshed_at: Instant,
}

impl<V> DashboardState<V> {
    /// A dashboard listing `volumes`, the breakdown focused and still empty.
    pub fn new(volumes: Vec<V>) -> (state: DashboardState<V>)
        ensures
            state.volumes@ == volumes@,
            state.selected_volume == 0,
            state.selected_root_row == 0,
            state.focus == DashboardPanel::RootBreakdown,
            state.root_node is None,
            state.root_rows@.len() == 0,
            state.root_table_selection is None,
    {
        DashboardState {
            volumes,
            selected_volume: 0,
            selected_root_row: 0,
            focus: DashboardPanel::RootBreakdown,
            root_node: None,
            root_rows: Vec::new(),
            root_table_selection: None,
            refreshed_at: now(),
        }
    }

    /// The volume under the cursor.
    pub fn selected_volume(&self) -> (volume: Option<&V>)
        ensures
            match volume {
                Some(v) => self.selected_volume < self.volumes@.len() && *v
                    == self.volumes@[self.selected_volume as int],
                None => self.selected_volume >= self.volumes@.len(),
            },
    {
        if self.selected_volume < self.volumes.len() {
            Some(&self.volumes[self.selected_volume])
        } else {
            None
        }
    }

    /// The child of the root under the cursor.
    pub fn selected_root_child(&self) -> (node: Option<NodeId>)
        ensures
            node == (if self.selected_root_row < self.root_rows@.len() {
                Some(self.root_rows@[self.selected_root_row as int])
            } else {
                None
            }),
    {
        if self.selected_root_row < self.root_rows.len() {
            Some(self.root_rows[self.selected_root_row])
        } else {
            None
        }
    }

    /// Moves the cursor of the focused panel `delta` rows, stopping at its first and last
    /// row; an empty panel keeps its cursor.
    pub fn move_selection(&mut self, delta: isize)
        requires
            old(self).selected_volume <= isize::MAX,
            old(self).selected_root_row <= isize::MAX,
            old(self).volumes@.len() <= isize::MAX,
            old(self).root_rows@.len() <= isize::MAX,
            isize::MIN <= old(self).selected_volume + delta <= isize::MAX,
            isize::MIN <= old(self).selected_root_row + delta <= isize::MAX,
        ensures
            final(self).volumes@ == old(self).volumes@,
            final(self).root_rows@ == old(self).root_rows@,
            final(self).focus == old(self).focus,
            final(self).root_node == old(self).root_node,
            final(self).refreshed_at == old(self).refreshed_at,
            old(self).focus == DashboardPanel::Volumes ==> {
                &&& final(self).selected_volume == (if old(self).volumes@.len() == 0 {
                    old(self).selected_volume as int
                } else {
                    clamp_index(old(self).selected_volume + delta, old(self).volumes@.len() as int)
                })
                &&& final(self).selected_root_row == old(self).selected_root_row
                &&& final(self).root_table_selection == old(self).root_table_selection
            },
            old(self).focus == DashboardPanel::RootBreakdown ==> {
                &&& final(self).selected_volume == old(self).selected_volume
                &&& old(self).root_rows@.len() == 0 ==> final(self).selected_root_row
                    == old(self).selected_root_row && final(self).root_table_selection
                    == old(self).root_table_selection
                &&& old(self).root_rows@.len() > 0 ==> final(self).selected_root_row
                    == clamp_index(
                    old(self).selected_root_row + delta,
                    old(self).root_rows@.len() as int,
                ) && final(self).root_table_selection == Some(final(self).selected_root_row)
            },
    {
        match self.focus {
            DashboardPanel::Volumes => {
                if self.volumes.len() > 0 {
                    self.selected_volume = clamped_cursor(
                        self.selected_volume,
                        delta,
                        self.volumes.len(),
                    );
                }
            },
            DashboardPanel::RootBreakdown => {
                if self.root_rows.len() > 0 {
                    self.selected_root_row = clamped_cursor(
                        self.selected_root_row,
                        delta,
                        self.root_rows.len(),
                    );
                    self.root_table_selection = Some(self.selected_root_row);
                }
            },
        }
    }

    /// Gives the keyboard to the other panel.
    pub fn toggle_focus(&mut self)
        ensures
            final(self).focus == (if old(self).focus == DashboardPanel::Volumes {
                DashboardPanel::RootBreakdown
            } else {
                DashboardPanel::Volumes
            }),
            final(self).volumes@ == old(self).volumes@,
            final(self).root_rows@ == old(self).root_rows@,
            final(self).selected_volume == old(self).selected_volume,
            final(self).selected_root_row == old(self).selected_root_row,
            final(self).root_table_selection == old(self).root_table_selection,
            final(self).root_node == old(self).root_node,
            final(self).refreshed_at == old(self).refreshed_at,
    {
        self.focus = match self.focus {
            DashboardPanel::Volumes => DashboardPanel::RootBreakdown,
            DashboardPanel::RootBreakdown => DashboardPanel::Volumes,
        };
    }

    /// Shows `rows` as the children of the root, keeping the cursor within them.
    pub fn show_root_rows(&mut self, rows: Vec<NodeId>)
        ensures
            final(self).root_rows@ == rows@,
            final(self).volumes@ == old(self).volumes@,
            final(self).focus == old(self).focus,
            final(self).selected_volume == old(self).selected_volume,
            rows@.len() == 0 ==> final(self).selected_root_row == old(self).selected_root_row
                && final(self).root_table_selection is None,
            rows@.len() > 0 ==> final(self).selected_root_row == (if old(self).selected_root_row
                < rows@.len() {
                old(self).selected_root_row as int
            } else {
                rows@.len() - 1
            }) && final(self).root_table_selection == Some(final(self).selected_root_row),
    {
        self.root_rows = rows;
        if self.root_rows.len() == 0 {
            self.root_table_selection = None;
        } else {
            let last = self.root_rows.len() - 1;
            if self.selected_root_row > last {
                self.selected_root_row = last;
            }
            self.root_table_selection = Some(self.selected_root_row);
        }
    }
}

// ---------------------------------------------------------------------------------------
// Heaviest files
// ---------------------------------------------------------------------------------------

/// State of the "heaviest files below this directory" view, over whatever record the
/// storage layer describes a file with.
pub struct HeaviestState<F> {
    pub query: Option<QueryId>,
    pub origin: Option<NodeId>,
    pub rows: Vec<F>,
    pub selected: usize,
    /// How many files the query keeps.
    pub limit: usize,
    /// The row the table highlights.
    pub table_selection: Option<usize>,
}

impl<F> HeaviestState<F> {
    /// A view with no query yet that will keep `limit` files.
    pub fn new(limit: usize) -> (state: HeaviestState<F>)
        ensures
            state.query is None,
            state.origin is None,
            state.rows@.len() == 0,
            state.selected == 0,
            state.limit == limit,
            state.table_selection is None,
    {
        HeaviestState {
            query: None,
            origin: None,
            rows: Vec::new(),
            selected: 0,
            limit,
            table_selection: None,
        }
    }

    /// The file under the cursor.
    pub fn selected_file(&self) -> (file: Option<&F>)
        ensures
            match file {
                Some(f) => self.selected < self.rows@.len() && *f == self.rows@[self.selected as int],
                None => self.selected >= self.rows@.len(),
            },
    {
        if self.selected < self.rows.len() {
            Some(&self.rows[self.selected])
        } else {
            None
        }
    }

    /// Moves the cursor `delta` rows, stopping at the first and the last row.
    pub fn move_selection(&mut self, delta: isize)
        requires
            old(self).selected <= isize::MAX,
            old(self).rows@.len() <= isize::MAX,
            isize::MIN <= old(self).selected + delta <= isize::MAX,
        ensures
            final(self).rows@ == old(self).rows@,
            final(self).query == old(self).query,
            final(self).origin == old(self).origin,
            final(self).limit == old(self).limit,
            old(self).rows@.len() == 0 ==> final(self).selected == 0
                && final(self).table_selection is None,
            old(self).rows@.len() > 0 ==> final(self).selected == clamp_index(
                old(self).selected + delta,
                old(self).rows@.len() as int,
            ) && final(self).table_selection == Some(final(self).selected),
    {
        if self.rows.len() == 0 {
            self.selected = 0;
            self.table_selection = None;
            return;
        }
        self.selected = clamped_cursor(self.selected, delta, self.rows.len());
        self.table_selection = Some(self.selected);
    }

    /// Keeps the cursor within the rows.
    pub fn clamp_selection(&mut self)
        ensures
            final(self).rows@ == old(self).rows@,
            final(self).query == old(self).query,
            final(self).origin == old(self).origin,
            final(self).limit == old(self).limit,
            old(self).rows@.len() == 0 ==> final(self).selected == 0
                && final(self).table_selection is None,
            old(self).rows@.len() > 0 ==> final(self).selected == (if old(self).selected
                < old(self).rows@.len() {
                old(self).selected as int
            } else {
                old(self).rows@.len() - 1
            }) && final(self).table_selection == Some(final(self).selected),
    {
        if self.rows.len() == 0 {
            self.selected = 0;
            self.table_selection = None;
        } else {
            let last = self.rows.len() - 1;
            if self.selected > last {
                self.selected = last;
            }
            self.table_selection = Some(self.selected);
        }
    }
}

// ---------------------------------------------------------------------------------------
// Keys
// ---------------------------------------------------------------------------------------

/// Work a key of the heaviest-files view leaves to the services.
#[derive(Clone, Copy, Debug, PartialEq, Eq, Structural)]
pub enum HeaviestEffect {
    Nothing,
    /// Mark or unmark the file under the cursor.
    ToggleMark,
    RequestDeletion,
    ClearMarks,
    /// Open the directory of the file under the cursor in the explorer, on that file.
    JumpToFile,
    SwitchScreen(Screen),
    /// Look for the heaviest files again, keeping this many.
    StartQuery(usize),
    /// Show the file under the cursor in the file manager.
    Reveal,
}

/// The work a key of the heaviest-files view leaves to the services, when it keeps `limit`
/// files: `+` doubles the list (up to ten thousand), `-` halves it (down to ten).
pub open spec fn heaviest_effect_spec(limit: usize, key: Key) -> HeaviestEffect {
    match key {
        Key::Char(' ') => HeaviestEffect::ToggleMark,
        Key::Char('d') => HeaviestEffect::RequestDeletion,
        Key::Char('x') => HeaviestEffect::ClearMarks,
        Key::Enter => HeaviestEffect::JumpToFile,
        Key::Esc | Key::Backspace => HeaviestEffect::SwitchScreen(Screen::Explorer),
        Key::Char('r') => HeaviestEffect::StartQuery(limit),
        Key::Char('+') | Key::Char('=') => HeaviestEffect::StartQuery(
            if 2 * limit > 10_000 {
                10_000
            } else {
                (2 * limit) as usize
            },
        ),
        Key::Char('-') => HeaviestEffect::StartQuery(
            if limit / 2 < 10 {
                10
            } else {
                limit / 2
            },
        ),
        Key::Char('o') => HeaviestEffect::Reveal,
        _ => HeaviestEffect::Nothing,
    }
}

/// Where a list cursor ends after `key`, with `len` rows: moved and held inside the rows,
/// or on the first or the last row.
pub open spec fn list_cursor_after(selected: usize, len: nat, key: Key) -> Option<int> {
    match cursor_step(key) {
        Some(step) => if len == 0 {
            Some(0)
        } else {
            Some(clamp_index(selected + step, len as int))
        },
        None => if key == Key::Home || key == Key::Char('g') {
            Some(0)
        } else if key == Key::End || key == Key::Char('G') {
            Some(if len == 0 {
                0
            } else {
                len - 1
            })
        } else {
            None
        },
    }
}

impl<F> HeaviestState<F> {
    /// Answers a key of the heaviest-files view: moves the cursor in place and returns the
    /// work left to the services.
    pub fn handle_key(&mut self, key: Key) -> (effect: HeaviestEffect)
        requires
            old(self).selected + 15 <= isize::MAX,
            old(self).rows@.len() <= isize::MAX,
        ensures
            effect == heaviest_effect_spec(old(self).limit, key),
            final(self).rows@ == old(self).rows@,
            final(self).query == old(self).query,
            final(self).origin == old(self).origin,
            final(self).limit == old(self).limit,
            match list_cursor_after(old(self).selected, old(self).rows@.len(), key) {
                Some(at) => {
                    &&& final(self).selected == at
                    &&& final(self).table_selection == (if old(self).rows@.len() == 0 {
                        None
                    } else {
                        Some(final(self).selected)
                    })
                },
                None => final(self).selected == old(self).selected
                    && final(self).table_selection == old(self).table_selection,
            },
    {
        match key {
            Key::Up | Key::Char('k') => {
                self.move_selection(-1);
                HeaviestEffect::Nothing
            },
            Key::Down | Key::Char('j') => {
                self.move_selection(1);
                HeaviestEffect::Nothing
            },
            Key::PageUp => {
                self.move_selection(-15);
                HeaviestEffect::Nothing
            },
            Key::PageDown => {
                self.move_selection(15);
                HeaviestEffect::Nothing
            },
            Key::Home | Key::Char('g') => {
                self.selected = 0;
                self.clamp_selection();
                HeaviestEffect::Nothing
            },
            Key::End | Key::Char('G') => {
                self.selected = usize::MAX;
                self.clamp_selection();
                HeaviestEffect::Nothing
            },
            Key::Char(' ') => HeaviestEffect::ToggleMark,
            Key::Char('d') => HeaviestEffect::RequestDeletion,
            Key::Char('x') => HeaviestEffect::ClearMarks,
            Key::Enter => HeaviestEffect::JumpToFile,
            Key::Esc | Key::Backspace => HeaviestEffect::SwitchScreen(Screen::Explorer),
            Key::Char('r') => HeaviestEffect::StartQuery(self.limit),
            Key::Char('+') | Key::Char('=') => {
                let doubled = if self.limit > 5_000 {
                    10_000
                } else {
                    self.limit * 2
                };
                HeaviestEffect::StartQuery(doubled)
            },
            Key::Char('-') => {
                let halved = if self.limit / 2 < 10 {
                    10
                } else {
                    self.limit / 2
                };
                HeaviestEffect::StartQuery(halved)
            },
            Key::Char('o') => HeaviestEffect::Reveal,
            _ => HeaviestEffect::Nothing,
        }
    }
}

/// Work a key of the cleaner leaves to the services.
#[derive(Clone, Copy, Debug, PartialEq, Eq, Structural)]
pub enum CleanerEffect {
    Nothing,
    /// Select or deselect one candidate.
    ToggleCandidate(CandidateId),
    /// Select or deselect every candidate of a category.
    ToggleCategory(CleaningCategory),
    /// Select (`true`) or deselect every candidate.
    SetAll(bool),
    RequestCleaning,
    /// Look for reclaimable space again.
    Restart,
    /// Show a candidate in the file manager.
    Reveal(CandidateId),
    /// Explain the category of this row.
    ShowInfo(CleanerRow),
    SwitchScreen(Screen),
}

/// The row under the cursor of the cleaner.
pub open spec fn selected_cleaner_row(state: CleanerState) -> Option<CleanerRow> {
    if state.selected < state.rows@.len() {
        Some(state.rows@[state.selected as int])
    } else {
        None
    }
}

/// The work a key of the cleaner leaves to the services.
pub open spec fn cleaner_effect_spec(state: CleanerState, key: Key) -> CleanerEffect {
    let row = selected_cleaner_row(state);
    match key {
        Key::Char(' ') => match row {
            Some(CleanerRow::Candidate(id)) => CleanerEffect::ToggleCandidate(id),
            Some(CleanerRow::Category(category)) => CleanerEffect::ToggleCategory(category),
            None => CleanerEffect::Nothing,
        },
        Key::Enter | Key::Right | Key::Left => match row {
            Some(CleanerRow::Candidate(id)) => CleanerEffect::ToggleCandidate(id),
            _ => CleanerEffect::Nothing,
        },
        Key::Char('a') => CleanerEffect::SetAll(true),
        Key::Char('n') => CleanerEffect::SetAll(false),
        Key::Char('d') | Key::Char('x') | Key::Char('c') => CleanerEffect::RequestCleaning,
        Key::Char('r') => CleanerEffect::Restart,
        Key::Char('o') => match row {
            Some(CleanerRow::Candidate(id)) => CleanerEffect::Reveal(id),
            _ => CleanerEffect::Nothing,
        },
        Key::Char('i') => match row {
            Some(r) => CleanerEffect::ShowInfo(r),
            None => CleanerEffect::Nothing,
        },
        Key::Esc => CleanerEffect::SwitchScreen(Screen::Explorer),
        _ => CleanerEffect::Nothing,
    }
}

/// What the keys of the heaviest-files view ask for, whatever the list: space marks the
/// file, `d` asks to delete the marks, `x` clears them, Enter opens the file's directory,
/// Esc and Backspace go back to the explorer, `o` reveals the file; `r` searches again with
/// the same length, `+` (or `=`) with a longer list that never passes ten thousand files,
/// and `-` with a shorter one that never drops below ten.
pub proof fn lemma_heaviest_keys(limit: usize)
    ensures
        heaviest_effect_spec(limit, Key::Char(' ')) == HeaviestEffect::ToggleMark,
        heaviest_effect_spec(limit, Key::Char('d')) == HeaviestEffect::RequestDeletion,
        heaviest_effect_spec(limit, Key::Char('x')) == HeaviestEffect::ClearMarks,
        heaviest_effect_spec(limit, Key::Enter) == HeaviestEffect::JumpToFile,
        heaviest_effect_spec(limit, Key::Esc) == HeaviestEffect::SwitchScreen(Screen::Explorer),
        heaviest_effect_spec(limit, Key::Backspace) == HeaviestEffect::SwitchScreen(
            Screen::Explorer,
        ),
        heaviest_effect_spec(limit, Key::Char('o')) == HeaviestEffect::Reveal,
        heaviest_effect_spec(limit, Key::Char('r')) == HeaviestEffect::StartQuery(limit),
        heaviest_effect_spec(limit, Key::Char('=')) == heaviest_effect_spec(limit, Key::Char('+')),
        heaviest_effect_spec(limit, Key::Char('+')) matches HeaviestEffect::StartQuery(longer)
            && longer <= 10_000 && (limit <= 5_000 ==> longer == 2 * limit) && (limit <= 10_000
            ==> longer >= limit),
        heaviest_effect_spec(limit, Key::Char('-')) matches HeaviestEffect::StartQuery(shorter)
            && shorter >= 10 && (limit >= 20 ==> shorter == limit / 2) && (limit >= 10
            ==> shorter <= limit),
{
}

/// What the keys of the cleaner ask for: space selects or deselects the row's candidate
/// (or its whole category), Enter and the arrows do the same on a candidate, `a` selects
/// every candidate and `n` none, `d`, `x` and `c` ask to clean, `r` looks again, Esc goes
/// back to the explorer.
pub proof fn lemma_cleaner_keys(state: CleanerState)
    ensures
        selected_cleaner_row(state) matches Some(CleanerRow::Candidate(id)) ==> {
            &&& cleaner_effect_spec(state, Key::Char(' ')) == CleanerEffect::ToggleCandidate(id)
            &&& cleaner_effect_spec(state, Key::Enter) == CleanerEffect::ToggleCandidate(id)
            &&& cleaner_effect_spec(state, Key::Right) == CleanerEffect::ToggleCandidate(id)
            &&& cleaner_effect_spec(state, Key::Left) == CleanerEffect::ToggleCandidate(id)
            &&& cleaner_effect_spec(state, Key::Char('o')) == CleanerEffect::Reveal(id)
        },
        selected_cleaner_row(state) matches Some(CleanerRow::Category(category))
            ==> cleaner_effect_spec(state, Key::Char(' ')) == CleanerEffect::ToggleCategory(
            category,
        ),
        cleaner_effect_spec(state, Key::Char('a')) == CleanerEffect::SetAll(true),
        cleaner_effect_spec(state, Key::Char('n')) == CleanerEffect::SetAll(false),
        cleaner_effect_spec(state, Key::Char('d')) == CleanerEffect::RequestCleaning,
        cleaner_effect_spec(state, Key::Char('x')) == CleanerEffect::RequestCleaning,
        cleaner_effect_spec(state, Key::Char('c')) == CleanerEffect::RequestCleaning,
        cleaner_effect_spec(state, Key::Char('r')) == CleanerEffect::Restart,
        cleaner_effect_spec(state, Key::Esc) == CleanerEffect::SwitchScreen(Screen::Explorer),
{
}

impl CleanerState {
    /// Answers a key of the cleaner: moves the cursor and folds categories in place, and
    /// returns the work left to the services.
    pub fn handle_key(&mut self, key: Key) -> (effect: CleanerEffect)
        requires
            old(self).selected + 15 <= isize::MAX,
            old(self).rows@.len() <= isize::MAX,
        ensures
            effect == cleaner_effect_spec(*old(self), key),
            final(self).rows@ == old(self).rows@,
            final(self).last_report == old(self).last_report,
            final(self).running == old(self).running,
            match list_cursor_after(old(self).selected, old(self).rows@.len(), key) {
                Some(at) => {
                    &&& final(self).selected == at
                    &&& final(self).table_selection == (if old(self).rows@.len() == 0 {
                        None
                    } else {
                        Some(final(self).selected)
                    })
                },
                None => final(self).selected == old(self).selected
                    && final(self).table_selection == old(self).table_selection,
            },
            collapsed_set(final(self).collapsed@) == (match (key, selected_cleaner_row(*old(self))) {
                (Key::Enter, Some(CleanerRow::Category(category)))
                | (Key::Right, Some(CleanerRow::Category(category)))
                | (Key::Left, Some(CleanerRow::Category(category))) => fold_toggled(
                    collapsed_set(old(self).collapsed@),
                    category,
                ),
                _ => collapsed_set(old(self).collapsed@),
            }),
    {
        match key {
            Key::Up | Key::Char('k') => {
                self.move_selection(-1);
                CleanerEffect::Nothing
            },
            Key::Down | Key::Char('j') => {
                self.move_selection(1);
                CleanerEffect::Nothing
            },
            Key::PageUp => {
                self.move_selection(-15);
                CleanerEffect::Nothing
            },
            Key::PageDown => {
                self.move_selection(15);
                CleanerEffect::Nothing
            },
            Key::Home | Key::Char('g') => {
                self.selected = 0;
                self.clamp_selection();
                CleanerEffect::Nothing
            },
            Key::End | Key::Char('G') => {
                self.selected = usize::MAX;
                self.clamp_selection();
                CleanerEffect::Nothing
            },
            Key::Char(' ') => match self.selected_row() {
                Some(CleanerRow::Candidate(id)) => CleanerEffect::ToggleCandidate(*id),
                Some(CleanerRow::Category(category)) => CleanerEffect::ToggleCategory(*category),
                None => CleanerEffect::Nothing,
            },
            Key::Enter | Key::Right | Key::Left => {
                let row = match self.selected_row() {
                    Some(r) => Some(*r),
                    None => None,
                };
                match row {
                    Some(CleanerRow::Category(category)) => {
                        self.toggle_collapsed(category);
                        CleanerEffect::Nothing
                    },
                    Some(CleanerRow::Candidate(id)) => CleanerEffect::ToggleCandidate(id),
                    None => CleanerEffect::Nothing,
                }
            },
            Key::Char('a') => CleanerEffect::SetAll(true),
            Key::Char('n') => CleanerEffect::SetAll(false),
            Key::Char('d') | Key::Char('x') | Key::Char('c') => CleanerEffect::RequestCleaning,
            Key::Char('r') => CleanerEffect::Restart,
            Key::Char('o') => match self.selected_row() {
                Some(CleanerRow::Candidate(id)) => CleanerEffect::Reveal(*id),
                _ => CleanerEffect::Nothing,
            },
            Key::Char('i') => match self.selected_row() {
                Some(r) => CleanerEffect::ShowInfo(*r),
                None => CleanerEffect::Nothing,
            },
            Key::Esc => CleanerEffect::SwitchScreen(Screen::Explorer),
            _ => CleanerEffect::Nothing,
        }
    }
}

/// Work a key of the dashboard leaves to the services.
#[derive(Clone, Copy, Debug, PartialEq, Eq, Structural)]
pub enum DashboardEffect {
    Nothing,
    /// Open the mount point of the volume at this position in the explorer.
    OpenVolume(usize),
    /// Open this child of the root in the explorer.
    EnterDirectory(NodeId),
    SwitchScreen(Screen),
    /// Read the volumes again and measure the root again.
    Refresh,
}

/// The work a key of the dashboard leaves to the services.
pub open spec fn dashboard_effect_spec<V>(state: DashboardState<V>, key: Key) -> DashboardEffect {
    match key {
        Key::Enter | Key::Char('e') => match state.focus {
            DashboardPanel::Volumes => if state.selected_volume < state.volumes@.len() {
                DashboardEffect::OpenVolume(state.selected_volume)
            } else {
                DashboardEffect::Nothing
            },
            DashboardPanel::RootBreakdown => if state.selected_root_row < state.root_rows@.len() {
                DashboardEffect::EnterDirectory(state.root_rows@[state.selected_root_row as int])
            } else {
                DashboardEffect::Nothing
            },
        },
        Key::Char('c') => DashboardEffect::SwitchScreen(Screen::Cleaner),
        Key::Char('r') => DashboardEffect::Refresh,
        _ => DashboardEffect::Nothing,
    }
}

impl<V> DashboardState<V> {
    /// Answers a key of the dashboard: moves the cursor of the focused panel or the focus in
    /// place, and returns the work left to the services.
    pub fn handle_key(&mut self, key: Key) -> (effect: DashboardEffect)
        requires
            old(self).selected_volume + 1 <= isize::MAX,
            old(self).selected_root_row + 1 <= isize::MAX,
            old(self).volumes@.len() <= isize::MAX,
            old(self).root_rows@.len() <= isize::MAX,
        ensures
            effect == dashboard_effect_spec(*old(self), key),
            final(self).volumes@ == old(self).volumes@,
            final(self).root_rows@ == old(self).root_rows@,
            final(self).root_node == old(self).root_node,
            final(self).focus == (if key == Key::Left || key == Key::Right || key == Key::Char('h')
                || key == Key::Char('l') {
                if old(self).focus == DashboardPanel::Volumes {
                    DashboardPanel::RootBreakdown
                } else {
                    DashboardPanel::Volumes
                }
            } else {
                old(self).focus
            }),
            (key == Key::Up || key == Key::Char('k') || key == Key::Down || key == Key::Char('j'))
                ==> {
                let step: int = if key == Key::Up || key == Key::Char('k') {
                    -1
                } else {
                    1
                };
                &&& old(self).focus == DashboardPanel::Volumes ==> {
                    &&& final(self).selected_volume == (if old(self).volumes@.len() == 0 {
                        old(self).selected_volume as int
                    } else {
                        clamp_index(old(self).selected_volume + step, old(self).volumes@.len() as int)
                    })
                    &&& final(self).selected_root_row == old(self).selected_root_row
                }
                &&& old(self).focus == DashboardPanel::RootBreakdown ==> {
                    &&& final(self).selected_volume == old(self).selected_volume
                    &&& final(self).selected_root_row == (if old(self).root_rows@.len() == 0 {
                        old(self).selected_root_row as int
                    } else {
                        clamp_index(
                            old(self).selected_root_row + step,
                            old(self).root_rows@.len() as int,
                        )
                    })
                }
            },
            !(key == Key::Up || key == Key::Char('k') || key == Key::Down || key == Key::Char('j'))
                ==> final(self).selected_volume == old(self).selected_volume
                && final(self).selected_root_row == old(self).selected_root_row,
    {
        match key {
            Key::Up | Key::Char('k') => {
                self.move_selection(-1);
                DashboardEffect::Nothing
            },
            Key::Down | Key::Char('j') => {
                self.move_selection(1);
                DashboardEffect::Nothing
            },
            Key::Left | Key::Right | Key::Char('h') | Key::Char('l') => {
                self.toggle_focus();
                DashboardEffect::Nothing
            },
            Key::Enter | Key::Char('e') => match self.focus {
                DashboardPanel::Volumes => if self.selected_volume < self.volumes.len() {
                    DashboardEffect::OpenVolume(self.selected_volume)
                } else {
                    DashboardEffect::Nothing
                },
                DashboardPanel::RootBreakdown => match self.selected_root_child() {
                    Some(node) => DashboardEffect::EnterDirectory(node),
                    None => DashboardEffect::Nothing,
                },
            },
            Key::Char('c') => DashboardEffect::SwitchScreen(Screen::Cleaner),
            Key::Char('r') => DashboardEffect::Refresh,
            _ => DashboardEffect::Nothing,
        }
    }
}

} // verus!
