//! Options of the headless `measure` run, which scans without the interface.

use vstd::prelude::*;

use crate::formatting::{count, decimal, decimal_string, grouped};
use crate::model::SizeBase;
use crate::requests::{pad_left, padded_left};
use crate::text::texts_of;

verus! {

/// What `tree-cleaner measure` was asked for.
pub struct MeasureOptions {
    /// Directory to measure.
    pub path: String,
    /// How many of the largest children to print.
    pub top: usize,
    /// Print JSON instead of a table.
    pub json: bool,
    pub worker_count: usize,
    pub size_base: SizeBase,
}

/// The marks written after a child's name: ` dense`, ` denied` and ` volume`, in that
/// order, for the flags that the child has.
pub open spec fn child_flags_spec(dense: bool, denied: bool, boundary: bool) -> Seq<char> {
    (if dense { " dense"@ } else { ""@ }) + (if denied { " denied"@ } else { ""@ }) + (
    if boundary {
        " volume"@
    } else {
        ""@
    })
}

/// The marks written after a child's name.
pub fn child_flags(dense: bool, denied: bool, boundary: bool) -> (flags: String)
    ensures
        flags@ == child_flags_spec(dense, denied, boundary),
{
    let mut flags = String::new();
    let ghost start = flags@;
    if dense {
        flags.append(" dense");
    }
    let ghost after_dense = flags@;
    if denied {
        flags.append(" denied");
    }
    let ghost after_denied = flags@;
    if boundary {
        flags.append(" volume");
    }
    proof {
        reveal_strlit("");
        assert(start =~= ""@);
        assert(after_dense =~= (if dense { " dense"@ } else { ""@ }));
        assert(after_denied =~= (if dense { " dense"@ } else { ""@ }) + (if denied {
            " denied"@
        } else {
            ""@
        }));
        assert(flags@ =~= child_flags_spec(dense, denied, boundary));
    }
    flags
}

/// One line of the table of children: the size right-aligned in ten characters, the share
/// in six, the bar, then the name and its marks.
pub open spec fn child_line_spec(
    size_text: Seq<char>,
    share_text: Seq<char>,
    bar_text: Seq<char>,
    name: Seq<char>,
    dense: bool,
    denied: bool,
    boundary: bool,
) -> Seq<char> {
    "  "@ + pad_left(size_text, 10) + "  "@ + pad_left(share_text, 6) + "  "@ + bar_text + "  "@
        + name + child_flags_spec(dense, denied, boundary)
}

/// One line of the table of children, from the size, share and bar already written out.
pub fn child_line(
    size_text: &str,
    share_text: &str,
    bar_text: &str,
    name: &str,
    dense: bool,
    denied: bool,
    boundary: bool,
) -> (line: String)
    ensures
        line@ == child_line_spec(size_text@, share_text@, bar_text@, name@, dense, denied, boundary),
{
    let mut line = String::from_str("  ");
    let size = padded_left(size_text, 10);
    line.append(size.as_str());
    line.append("  ");
    let share = padded_left(share_text, 6);
    line.append(share.as_str());
    line.append("  ");
    line.append(bar_text);
    line.append("  ");
    line.append(name);
    let flags = child_flags(dense, denied, boundary);
    line.append(flags.as_str());
    line
}

/// The line after the table when the directory has more children than were printed: how
/// many were left out.
pub open spec fn more_line_spec(children: nat, top: nat) -> Option<Seq<char>> {
    if children > top {
        Some("  \u{2026} "@ + decimal((children - top) as nat) + " more"@)
    } else {
        None
    }
}

/// The line that counts the children left out of the table, if any were.
pub fn more_line(children: usize, top: usize) -> (line: Option<String>)
    ensures
        line matches Some(l) ==> more_line_spec(children as nat, top as nat) == Some(l@),
        line is None <==> more_line_spec(children as nat, top as nat) is None,
{
    if children > top {
        let mut line = String::from_str("  \u{2026} ");
        let left_out = decimal_string((children - top) as u64);
        line.append(left_out.as_str());
        line.append(" more");
        Some(line)
    } else {
        None
    }
}

/// What the totals line says: allocated and apparent size, then the file and directory
/// counts with their digits grouped.
pub open spec fn totals_line_spec(
    allocated_text: Seq<char>,
    apparent_text: Seq<char>,
    files: nat,
    directories: nat,
) -> Seq<char> {
    "  "@ + allocated_text + " allocated \u{b7} "@ + apparent_text + " apparent \u{b7} "@ + grouped(
        files,
    ) + " files \u{b7} "@ + grouped(directories) + " directories"@
}

/// The line of totals under the measured path.
pub fn totals_line(allocated_text: &str, apparent_text: &str, files: u64, directories: u64) -> (line:
    String)
    ensures
        line@ == totals_line_spec(allocated_text@, apparent_text@, files as nat, directories as nat),
{
    let mut line = String::from_str("  ");
    line.append(allocated_text);
    line.append(" allocated \u{b7} ");
    line.append(apparent_text);
    line.append(" apparent \u{b7} ");
    let file_count = count(files);
    line.append(file_count.as_str());
    line.append(" files \u{b7} ");
    let directory_count = count(directories);
    line.append(directory_count.as_str());
    line.append(" directories");
    line
}

/// The end of the run line: nothing for a finished scan, ` · INCOMPLETE` otherwise.
pub open spec fn completion_suffix(complete: bool) -> Seq<char> {
    if complete {
        ""@
    } else {
        " \u{b7} INCOMPLETE"@
    }
}

/// The figures of a run that the run line reports.
pub struct RunFigures {
    pub elapsed_text: String,
    pub files_per_second: u64,
    pub worker_count: usize,
    pub reader_name: String,
    pub dense_directories: u64,
    pub permission_denied: u64,
    pub hard_links_skipped: u64,
    pub complete: bool,
}

/// What the run line says: how long the scan took and how fast it went, the threads and
/// reader it used, what it met on the way, and whether the root finished.
pub open spec fn run_line_spec(run: RunFigures) -> Seq<char> {
    "  "@ + run.elapsed_text@ + " \u{b7} "@ + grouped(run.files_per_second as nat)
        + " files/s \u{b7} "@ + decimal(run.worker_count as nat) + " threads \u{b7} reader "@
        + run.reader_name@ + " \u{b7} dense "@ + decimal(run.dense_directories as nat)
        + " \u{b7} denied "@ + decimal(run.permission_denied as nat)
        + " \u{b7} hard links skipped "@ + decimal(run.hard_links_skipped as nat)
        + completion_suffix(run.complete)
}

/// The line that reports how the run went.
pub fn run_line(run: &RunFigures) -> (line: String)
    ensures
        line@ == run_line_spec(*run),
{
    let mut line = String::from_str("  ");
    line.append(run.elapsed_text.as_str());
    line.append(" \u{b7} ");
    let rate = count(run.files_per_second);
    line.append(rate.as_str());
    line.append(" files/s \u{b7} ");
    let workers = decimal_string(run.worker_count as u64);
    line.append(workers.as_str());
    line.append(" threads \u{b7} reader ");
    line.append(run.reader_name.as_str());
    line.append(" \u{b7} dense ");
    let dense = decimal_string(run.dense_directories);
    line.append(dense.as_str());
    line.append(" \u{b7} denied ");
    let denied = decimal_string(run.permission_denied);
    line.append(denied.as_str());
    line.append(" \u{b7} hard links skipped ");
    let links = decimal_string(run.hard_links_skipped);
    line.append(links.as_str());
    let ghost before = line@;
    if !run.complete {
        line.append(" \u{b7} INCOMPLETE");
    }
    proof {
        reveal_strlit("");
        assert(line@ =~= before + completion_suffix(run.complete));
    }
    line
}

/// What `format!("{:?}", text)` writes for a string: the text in double quotes, with
/// quotes, backslashes and control characters escaped. It depends on the text alone.
pub uninterp spec fn debug_quoted(text: Seq<char>) -> Seq<char>;

/// `text` as `{:?}` writes a string.
#[verifier::external_body]
fn quoted(text: &str) -> (quoted: String)
    ensures
        quoted@ == debug_quoted(text@),
{
    format!("{:?}", text)
}

/// The measured root, as the JSON report gives it. The elapsed seconds and the rate come
/// already written out (`{:.3}` and `{:.0}`).
pub struct MeasuredRoot {
    pub path: String,
    pub allocated_bytes: u64,
    pub apparent_bytes: u64,
    pub files: u64,
    pub directories: u64,
    pub complete: bool,
    pub elapsed_seconds_text: String,
    pub files_per_second_text: String,
    pub dense_directories: u64,
    pub permission_denied: u64,
    pub hard_links_skipped: u64,
}

/// One child of the measured root, as the JSON report gives it.
pub struct MeasuredChild {
    pub name: String,
    pub allocated_bytes: u64,
    pub apparent_bytes: u64,
    pub files: u64,
    pub dense: bool,
    pub denied: bool,
}

/// `true` or `false`, as `{}` writes a `bool`.
pub open spec fn json_bool(value: bool) -> Seq<char> {
    if value {
        "true"@
    } else {
        "false"@
    }
}

/// The lines of the report before the children.
pub open spec fn json_head(root: MeasuredRoot) -> Seq<Seq<char>> {
    seq![
        "{"@,
        "  \"path\": "@ + debug_quoted(root.path@) + ","@,
        "  \"allocated_bytes\": "@ + decimal(root.allocated_bytes as nat) + ","@,
        "  \"apparent_bytes\": "@ + decimal(root.apparent_bytes as nat) + ","@,
        "  \"files\": "@ + decimal(root.files as nat) + ","@,
        "  \"directories\": "@ + decimal(root.directories as nat) + ","@,
        "  \"complete\": "@ + json_bool(root.complete) + ","@,
        "  \"elapsed_seconds\": "@ + root.elapsed_seconds_text@ + ","@,
        "  \"files_per_second\": "@ + root.files_per_second_text@ + ","@,
        "  \"dense_directories\": "@ + decimal(root.dense_directories as nat) + ","@,
        "  \"permission_denied\": "@ + decimal(root.permission_denied as nat) + ","@,
        "  \"hard_links_skipped\": "@ + decimal(root.hard_links_skipped as nat) + ","@,
        "  \"children\": ["@,
    ]
}

/// The line of one child; all but the last are followed by a comma.
pub open spec fn json_child(child: MeasuredChild, last: bool) -> Seq<char> {
    "    {\"name\": "@ + debug_quoted(child.name@) + ", \"allocated_bytes\": "@ + decimal(
        child.allocated_bytes as nat,
    ) + ", \"apparent_bytes\": "@ + decimal(child.apparent_bytes as nat) + ", \"files\": "@
        + decimal(child.files as nat) + ", \"dense\": "@ + json_bool(child.dense)
        + ", \"denied\": "@ + json_bool(child.denied) + "}"@ + (if last {
        ""@
    } else {
        ","@
    })
}

/// How many children the report lists: the first `top` of them.
pub open spec fn json_shown(count: nat, top: nat) -> nat {
    if count < top {
        count
    } else {
        top
    }
}

/// The lines of the JSON report: the root's figures, the first `top` children in the order
/// given, and the closing brackets.
pub open spec fn json_lines(root: MeasuredRoot, children: Seq<MeasuredChild>, top: nat) -> Seq<
    Seq<char>,
> {
    let shown = json_shown(children.len(), top);
    json_head(root) + Seq::new(shown, |i: int| json_child(children[i], i + 1 == shown)) + seq![
        "  ]"@,
        "}"@,
    ]
}

/// The flags at the end of a child's JSON line, written out: its own `dense` and `denied`
/// flags as `true` or `false`, the closing brace, and the comma for all but the last.
pub open spec fn json_flags_tail(dense: bool, denied: bool, last: bool) -> Seq<char> {
    ", \"dense\": "@ + (if dense {
        "true"@
    } else {
        "false"@
    }) + ", \"denied\": "@ + (if denied {
        "true"@
    } else {
        "false"@
    }) + "}"@ + (if last {
        ""@
    } else {
        ","@
    })
}

/// Every child line of the JSON report ends with that child's own flags: `"dense"` is
/// `true` exactly for a dense child and `"denied"` exactly for a child that could not be
/// read, each independent of the other, and only the last child line has no comma.
pub proof fn lemma_json_child_reports_its_flags(
    root: MeasuredRoot,
    children: Seq<MeasuredChild>,
    top: nat,
    i: int,
)
    requires
        0 <= i < json_shown(children.len(), top),
    ensures
        ({
            let line = json_lines(root, children, top)[13 + i];
            let shown = json_shown(children.len(), top);
            let tail = json_flags_tail(children[i].dense, children[i].denied, i + 1 == shown);
            &&& tail.len() <= line.len()
            &&& line.subrange(line.len() - tail.len(), line.len() as int) == tail
        }),
{
    let shown = json_shown(children.len(), top);
    let c = children[i];
    let last = i + 1 == shown;
    let head = json_head(root);
    assert(head.len() == 13);
    let lines = json_lines(root, children, top);
    assert(lines[13 + i] == json_child(c, last));
    let line = json_child(c, last);
    let front = "    {\"name\": "@ + debug_quoted(c.name@) + ", \"allocated_bytes\": "@ + decimal(
        c.allocated_bytes as nat,
    ) + ", \"apparent_bytes\": "@ + decimal(c.apparent_bytes as nat) + ", \"files\": "@
        + decimal(c.files as nat);
    let tail = json_flags_tail(c.dense, c.denied, last);
    assert(json_bool(c.dense) == (if c.dense {
        "true"@
    } else {
        "false"@
    }));
    assert(json_bool(c.denied) == (if c.denied {
        "true"@
    } else {
        "false"@
    }));
    assert(line =~= front + tail);
    assert((front + tail).subrange(front.len() as int, (front + tail).len() as int) =~= tail);
}

/// The marks after a child's name in the table: each flag contributes its own word and
/// nothing else, in the order dense, denied, volume; a child with no flag gets none.
pub proof fn lemma_table_flags(dense: bool, denied: bool, boundary: bool)
    ensures
        child_flags_spec(dense, denied, boundary) == child_flags_spec(dense, false, false)
            + child_flags_spec(false, denied, false) + child_flags_spec(false, false, boundary),
        child_flags_spec(true, false, false) == " dense"@,
        child_flags_spec(false, true, false) == " denied"@,
        child_flags_spec(false, false, true) == " volume"@,
        child_flags_spec(false, false, false).len() == 0,
{
    reveal_strlit("");
    assert(child_flags_spec(true, false, false) =~= " dense"@);
    assert(child_flags_spec(false, true, false) =~= " denied"@);
    assert(child_flags_spec(false, false, true) =~= " volume"@);
    assert(child_flags_spec(dense, denied, boundary) =~= child_flags_spec(dense, false, false)
        + child_flags_spec(false, denied, false) + child_flags_spec(false, false, boundary));
}

/// The run line marks an unfinished scan and only that: it is the line of the same run
/// finished, followed by ` · INCOMPLETE` when the root did not complete.
pub proof fn lemma_run_line_marks_incomplete(run: RunFigures)
    ensures
        run_line_spec(run) == run_line_spec(RunFigures { complete: true, ..run }) + (if run.complete {
            ""@
        } else {
            " \u{b7} INCOMPLETE"@
        }),
{
    reveal_strlit("");
    let done = RunFigures { complete: true, ..run };
    assert(run_line_spec(done) =~= run_line_spec(done) + ""@);
    assert(run_line_spec(run) =~= run_line_spec(done) + completion_suffix(run.complete));
}

/// The JSON report has one line per child shown (the first `top`, or all when there are
/// fewer), between the thirteen lines of the root's figures and the two closing lines; each
/// figure of the root stands on its own line under its own key.
pub proof fn lemma_json_report_shape(root: MeasuredRoot, children: Seq<MeasuredChild>, top: nat)
    ensures
        json_lines(root, children, top).len() == 15 + (if children.len() < top {
            children.len()
        } else {
            top
        }),
        json_lines(root, children, top)[0] == "{"@,
        json_lines(root, children, top)[1] == "  \"path\": "@ + debug_quoted(root.path@) + ","@,
        json_lines(root, children, top)[2] == "  \"allocated_bytes\": "@ + decimal(
            root.allocated_bytes as nat,
        ) + ","@,
        json_lines(root, children, top)[3] == "  \"apparent_bytes\": "@ + decimal(
            root.apparent_bytes as nat,
        ) + ","@,
        json_lines(root, children, top)[4] == "  \"files\": "@ + decimal(root.files as nat) + ","@,
        json_lines(root, children, top)[5] == "  \"directories\": "@ + decimal(
            root.directories as nat,
        ) + ","@,
        json_lines(root, children, top)[6] == "  \"complete\": "@ + (if root.complete {
            "true"@
        } else {
            "false"@
        }) + ","@,
        json_lines(root, children, top)[7] == "  \"elapsed_seconds\": "@ + root.elapsed_seconds_text@
            + ","@,
        json_lines(root, children, top)[8] == "  \"files_per_second\": "@
            + root.files_per_second_text@ + ","@,
        json_lines(root, children, top)[9] == "  \"dense_directories\": "@ + decimal(
            root.dense_directories as nat,
        ) + ","@,
        json_lines(root, children, top)[10] == "  \"permission_denied\": "@ + decimal(
            root.permission_denied as nat,
        ) + ","@,
        json_lines(root, children, top)[11] == "  \"hard_links_skipped\": "@ + decimal(
            root.hard_links_skipped as nat,
        ) + ","@,
        json_lines(root, children, top)[12] == "  \"children\": ["@,
        json_lines(root, children, top)[json_lines(root, children, top).len() - 2] == "  ]"@,
        json_lines(root, children, top)[json_lines(root, children, top).len() - 1] == "}"@,
{
}

/// Appends `line` to `lines`.
fn push_line(lines: &mut Vec<String>, line: String)
    ensures
        texts_of(final(lines)@) == texts_of(old(lines)@).push(line@),
{
    lines.push(line);
    assert(texts_of(lines@) =~= texts_of(old(lines)@).push(line@));
}

/// `label`, the number, and a comma.
fn number_field(label: &str, value: u64) -> (line: String)
    ensures
        line@ == label@ + decimal(value as nat) + ","@,
{
    let mut line = String::from_str(label);
    line.append(decimal_string(value).as_str());
    line.append(",");
    line
}

/// `true` or `false`.
fn bool_word(value: bool) -> (word: &'static str)
    ensures
        word@ == json_bool(value),
{
    if value {
        "true"
    } else {
        "false"
    }
}

/// The line of one child.
fn json_child_line(child: &MeasuredChild, last: bool) -> (line: String)
    ensures
        line@ == json_child(*child, last),
{
    let mut line = String::from_str("    {\"name\": ");
    line.append(quoted(child.name.as_str()).as_str());
    line.append(", \"allocated_bytes\": ");
    line.append(decimal_string(child.allocated_bytes).as_str());
    line.append(", \"apparent_bytes\": ");
    line.append(decimal_string(child.apparent_bytes).as_str());
    line.append(", \"files\": ");
    line.append(decimal_string(child.files).as_str());
    line.append(", \"dense\": ");
    line.append(bool_word(child.dense));
    line.append(", \"denied\": ");
    line.append(bool_word(child.denied));
    line.append("}");
    let ghost before = line@;
    if !last {
        line.append(",");
    }
    proof {
        reveal_strlit("");
        assert(line@ =~= before + (if last {
            ""@
        } else {
            ","@
        }));
    }
    line
}

/// The report that `measure --json` prints, line by line.
#[verifier::rlimit(30)]
pub fn json_report(root: &MeasuredRoot, children: &[MeasuredChild], top: usize) -> (lines: Vec<
    String,
>)
    ensures
        texts_of(lines@) == json_lines(*root, children@, top as nat),
{
    let mut lines: Vec<String> = Vec::new();
    assert(texts_of(lines@) =~= Seq::empty());
    push_line(&mut lines, String::from_str("{"));
    let mut path = String::from_str("  \"path\": ");
    path.append(quoted(root.path.as_str()).as_str());
    path.append(",");
    push_line(&mut lines, path);
    push_line(&mut lines, number_field("  \"allocated_bytes\": ", root.allocated_bytes));
    push_line(&mut lines, number_field("  \"apparent_bytes\": ", root.apparent_bytes));
    push_line(&mut lines, number_field("  \"files\": ", root.files));
    push_line(&mut lines, number_field("  \"directories\": ", root.directories));
    let mut complete = String::from_str("  \"complete\": ");
    complete.append(bool_word(root.complete));
    complete.append(",");
    push_line(&mut lines, complete);
    let mut elapsed = String::from_str("  \"elapsed_seconds\": ");
    elapsed.append(root.elapsed_seconds_text.as_str());
    elapsed.append(",");
    push_line(&mut lines, elapsed);
    let mut rate = String::from_str("  \"files_per_second\": ");
    rate.append(root.files_per_second_text.as_str());
    rate.append(",");
    push_line(&mut lines, rate);
    push_line(&mut lines, number_field("  \"dense_directories\": ", root.dense_directories));
    push_line(&mut lines, number_field("  \"permission_denied\": ", root.permission_denied));
    push_line(&mut lines, number_field("  \"hard_links_skipped\": ", root.hard_links_skipped));
    push_line(&mut lines, String::from_str("  \"children\": ["));
    assert(texts_of(lines@) =~= json_head(*root));
    let shown: usize = if children.len() < top {
        children.len()
    } else {
        top
    };
    let mut i: usize = 0;
    while i < shown
        invariant
            shown == json_shown(children@.len(), top as nat),
            shown <= children@.len(),
            0 <= i <= shown,
            texts_of(lines@) == json_head(*root) + Seq::new(
                i as nat,
                |k: int| json_child(children@[k], k + 1 == shown),
            ),
        decreases shown - i,
    {
        let line = json_child_line(&children[i], i + 1 == shown);
        push_line(&mut lines, line);
        assert(texts_of(lines@) =~= json_head(*root) + Seq::new(
            (i + 1) as nat,
            |k: int| json_child(children@[k], k + 1 == shown),
        ));
        i += 1;
    }
    push_line(&mut lines, String::from_str("  ]"));
    push_line(&mut lines, String::from_str("}"));
    assert(texts_of(lines@) =~= json_lines(*root, children@, top as nat));
    lines
}

} // verus!
