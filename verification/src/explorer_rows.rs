//! Building the explorer's rows from what the scanner knows of the current directory: its
//! subdirectories, and its files when they are listed and shown, both under the filter,
//! each row marked when its path is.

use vstd::prelude::*;

use crate::explorer::{
    badge_spec, cursor_resynced, matches_filter, sort_rows, ExplorerRow, ExplorerState, NodeFlags,
    RowBadge, RowKey,
};
use crate::marks::{has_key, Marks};
use crate::model::{ByteSize, NodeId};
use crate::paths::{join_path, path_joined, path_normal};
use crate::text::{contains_seq, lowercase};

verus! {

/// What the scanner knows of a subdirectory of the current directory.
pub struct ChildFacts {
    pub node: NodeId,
    /// The name on disk, which its path is built from.
    pub entry: String,
    /// The name shown.
    pub name: String,
    pub size: ByteSize,
    /// Entries below it.
    pub items: u64,
    pub flags: NodeFlags,
    pub complete: bool,
    pub has_children: bool,
}

/// A file of the current directory, as its listing gives it.
pub struct FileFacts {
    pub name: String,
    pub size: ByteSize,
}

/// Whether `name` passes `filter`, as `matches_filter` decides.
pub open spec fn passes(name: Seq<char>, filter: Option<Seq<char>>) -> bool {
    match filter {
        None => true,
        Some(f) => contains_seq(lowercase(name), lowercase(f)),
    }
}

/// The subdirectories whose shown name passes `filter`, in order.
pub open spec fn shown_children(children: Seq<ChildFacts>, filter: Option<Seq<char>>) -> Seq<
    ChildFacts,
>
    decreases children.len(),
{
    if children.len() == 0 {
        Seq::empty()
    } else {
        let rest = shown_children(children.drop_last(), filter);
        if passes(children.last().name@, filter) {
            rest.push(children.last())
        } else {
            rest
        }
    }
}

/// The files whose name passes `filter`, in order.
pub open spec fn shown_files(files: Seq<FileFacts>, filter: Option<Seq<char>>) -> Seq<FileFacts>
    decreases files.len(),
{
    if files.len() == 0 {
        Seq::empty()
    } else {
        let rest = shown_files(files.drop_last(), filter);
        if passes(files.last().name@, filter) {
            rest.push(files.last())
        } else {
            rest
        }
    }
}

/// The files that get rows: the listed ones under the filter, when files are shown.
pub open spec fn listed_files(
    files: Option<Seq<FileFacts>>,
    show_files: bool,
    filter: Option<Seq<char>>,
) -> Seq<FileFacts> {
    match files {
        Some(listed) => if show_files {
            shown_files(listed, filter)
        } else {
            Seq::empty()
        },
        None => Seq::empty(),
    }
}

/// Whether `row` is the row of the subdirectory `child` of the directory at `base`, with
/// `marks` marked.
pub open spec fn is_child_row(
    row: ExplorerRow,
    child: ChildFacts,
    base: Seq<char>,
    marks: Seq<(Seq<char>, crate::marks::MarkedItem)>,
) -> bool {
    &&& row.key == RowKey::Directory(child.node)
    &&& row.name@ == child.name@
    &&& row.path@ == path_joined(base, child.entry@)
    &&& row.size == child.size
    &&& row.items == Some(child.items)
    &&& row.badge == badge_spec(child.flags, child.complete, child.has_children)
    &&& row.is_directory
    &&& row.marked == has_key(marks, path_normal(row.path@))
}

/// Whether `row` is the row of the file `file` of the directory at `base`, with `marks`
/// marked.
pub open spec fn is_file_row(
    row: ExplorerRow,
    file: FileFacts,
    base: Seq<char>,
    marks: Seq<(Seq<char>, crate::marks::MarkedItem)>,
) -> bool {
    &&& row.key matches RowKey::File(name) && name@ == file.name@
    &&& row.name@ == file.name@
    &&& row.path@ == path_joined(base, file.name@)
    &&& row.size == file.size
    &&& row.items is None
    &&& row.badge == RowBadge::File
    &&& !row.is_directory
    &&& row.marked == has_key(marks, path_normal(row.path@))
}

/// Whether `rows` are the rows of the directory at `base`: one per subdirectory whose name
/// passes `filter`, in order, then one per file that gets a row, in order.
pub open spec fn rows_built(
    rows: Seq<ExplorerRow>,
    children: Seq<ChildFacts>,
    files: Option<Seq<FileFacts>>,
    show_files: bool,
    base: Seq<char>,
    filter: Option<Seq<char>>,
    marks: Seq<(Seq<char>, crate::marks::MarkedItem)>,
) -> bool {
    let dirs = shown_children(children, filter);
    let listed = listed_files(files, show_files, filter);
    &&& rows.len() == dirs.len() + listed.len()
    &&& forall|i: int| 0 <= i < dirs.len() ==> is_child_row(#[trigger] rows[i], dirs[i], base, marks)
    &&& forall|j: int|
        0 <= j < listed.len() ==> is_file_row(#[trigger] rows[dirs.len() + j], listed[j], base, marks)
}

/// The listed files, as a sequence.
pub open spec fn files_view(files: Option<&[FileFacts]>) -> Option<Seq<FileFacts>> {
    match files {
        Some(fs) => Some(fs@),
        None => None,
    }
}

/// The filter, as text.
pub open spec fn filter_text(filter: Option<String>) -> Option<Seq<char>> {
    match filter {
        Some(text) => Some(text@),
        None => None,
    }
}

fn filter_view(filter: Option<&str>) -> (view: Ghost<Option<Seq<char>>>)
    ensures
        view@ == (match filter {
            Some(f) => Some(f@),
            None => None,
        }),
{
    Ghost(
        match filter {
            Some(f) => Some(f@),
            None => None,
        },
    )
}

/// The rows of the directory at `current_path`, before they are ordered: one per
/// subdirectory whose name passes `filter`, then, when `show_files` and the files are
/// listed, one per file whose name passes it; each row is marked when its path is.
pub fn explorer_rows(
    children: &[ChildFacts],
    files: Option<&[FileFacts]>,
    show_files: bool,
    current_path: &str,
    filter: Option<&str>,
    marks: &Marks,
) -> (rows: Vec<ExplorerRow>)
    ensures
        rows_built(
            rows@,
            children@,
            match files {
                Some(fs) => Some(fs@),
                None => None,
            },
            show_files,
            current_path@,
            match filter {
                Some(text) => Some(text@),
                None => None,
            },
            marks@,
        ),
{
    let f = filter_view(filter);
    let mut rows: Vec<ExplorerRow> = Vec::new();
    let mut i: usize = 0;
    while i < children.len()
        invariant
            0 <= i <= children@.len(),
            f@ == (match filter {
                Some(text) => Some(text@),
                None => None,
            }),
            rows@.len() == shown_children(children@.take(i as int), f@).len(),
            forall|k: int|
                0 <= k < rows@.len() ==> is_child_row(
                    #[trigger] rows@[k],
                    shown_children(children@.take(i as int), f@)[k],
                    current_path@,
                    marks@,
                ),
        decreases children@.len() - i,
    {
        let child = &children[i];
        proof {
            assert(children@.take(i + 1).drop_last() =~= children@.take(i as int));
            assert(children@.take(i + 1).last() == children@[i as int]);
        }
        if matches_filter(child.name.as_str(), filter) {
            let path = join_path(current_path, child.entry.as_str());
            let marked = marks.contains(path.as_str());
            let row = ExplorerRow {
                key: RowKey::Directory(child.node),
                name: child.name.clone(),
                path,
                size: child.size,
                items: Some(child.items),
                badge: RowBadge::from_flags(child.flags, child.complete, child.has_children),
                is_directory: true,
                marked,
            };
            let ghost earlier = rows@;
            rows.push(row);
            proof {
                let now = shown_children(children@.take(i + 1), f@);
                assert(now == shown_children(children@.take(i as int), f@).push(children@[i as int]));
                assert forall|k: int| 0 <= k < rows@.len() implies is_child_row(
                    #[trigger] rows@[k],
                    now[k],
                    current_path@,
                    marks@,
                ) by {
                    if k < earlier.len() {
                        assert(rows@[k] == earlier[k]);
                    }
                }
            }
        }
        i += 1;
    }
    proof {
        assert(children@.take(children@.len() as int) =~= children@);
    }
    let ghost dirs = shown_children(children@, f@);
    let ghost base = rows@;
    match files {
        Some(listed) => {
            if show_files {
                let mut j: usize = 0;
                while j < listed.len()
                    invariant
                        0 <= j <= listed@.len(),
                        f@ == (match filter {
                            Some(text) => Some(text@),
                            None => None,
                        }),
                        dirs == shown_children(children@, f@),
                        base.len() == dirs.len(),
                        forall|k: int|
                            0 <= k < dirs.len() ==> is_child_row(
                                #[trigger] base[k],
                                dirs[k],
                                current_path@,
                                marks@,
                            ),
                        rows@.len() == dirs.len() + shown_files(listed@.take(j as int), f@).len(),
                        forall|k: int| 0 <= k < dirs.len() ==> #[trigger] rows@[k] == base[k],
                        forall|k: int|
                            0 <= k < shown_files(listed@.take(j as int), f@).len() ==> is_file_row(
                                #[trigger] rows@[dirs.len() + k],
                                shown_files(listed@.take(j as int), f@)[k],
                                current_path@,
                                marks@,
                            ),
                    decreases listed@.len() - j,
                {
                    let file = &listed[j];
                    proof {
                        assert(listed@.take(j + 1).drop_last() =~= listed@.take(j as int));
                        assert(listed@.take(j + 1).last() == listed@[j as int]);
                    }
                    if matches_filter(file.name.as_str(), filter) {
                        let path = join_path(current_path, file.name.as_str());
                        let marked = marks.contains(path.as_str());
                        let row = ExplorerRow {
                            key: RowKey::File(file.name.clone()),
                            name: file.name.clone(),
                            path,
                            size: file.size,
                            items: None,
                            badge: RowBadge::File,
                            is_directory: false,
                            marked,
                        };
                        let ghost earlier = rows@;
                        rows.push(row);
                        proof {
                            let before = shown_files(listed@.take(j as int), f@);
                            let now = shown_files(listed@.take(j + 1), f@);
                            assert(now == before.push(listed@[j as int]));
                            assert forall|k: int| 0 <= k < now.len() implies is_file_row(
                                #[trigger] rows@[dirs.len() + k],
                                now[k],
                                current_path@,
                                marks@,
                            ) by {
                                if k < before.len() {
                                    assert(rows@[dirs.len() + k] == earlier[dirs.len() + k]);
                                }
                            }
                            assert forall|k: int| 0 <= k < dirs.len() implies #[trigger] rows@[k]
                                == base[k] by {
                                assert(rows@[k] == earlier[k]);
                            }
                        }
                    }
                    j += 1;
                }
                proof {
                    assert(listed@.take(listed@.len() as int) =~= listed@);
                }
            }
        },
        None => {},
    }
    rows
}

impl ExplorerState {
    /// Rebuilds the rows of the directory at `current_path` from its subdirectories and
    /// listed files, under the explorer's own filter and files setting: the rows are built
    /// as `explorer_rows` builds them, then ordered, counted and cut to the row limit, the
    /// cursor kept on its item.
    pub fn rebuild_rows(
        &mut self,
        children: &[ChildFacts],
        files: Option<&[FileFacts]>,
        current_path: &str,
        marks: &Marks,
    )
        ensures
            exists|built: Seq<ExplorerRow>|
                {
                    &&& #[trigger] rows_built(
                        built,
                        children@,
                        files_view(files),
                        old(self).show_files,
                        current_path@,
                        filter_text(old(self).filter),
                        marks@,
                    )
                    &&& final(self).unlimited_row_count == built.len()
                    &&& final(self).rows@ == (if built.len() <= old(self).row_limit {
                        sort_rows(built)
                    } else {
                        sort_rows(built).take(old(self).row_limit as int)
                    })
                },
            cursor_resynced(final(self).rows@, old(self).selected, old(self).selected_key, *final(self)),
            final(self).current == old(self).current,
            final(self).row_limit == old(self).row_limit,
            final(self).show_files == old(self).show_files,
            final(self).filter == old(self).filter,
    {
        let rows = match &self.filter {
            Some(text) => explorer_rows(children, files, self.show_files, current_path, Some(text.as_str()), marks),
            None => explorer_rows(children, files, self.show_files, current_path, None, marks),
        };
        let ghost built = rows@;
        self.show_rows(rows);
        assert(rows_built(
            built,
            children@,
            files_view(files),
            old(self).show_files,
            current_path@,
            filter_text(old(self).filter),
            marks@,
        ));
    }
}

} // verus!
