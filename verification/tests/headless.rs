use tree_cleaner::headless::{child_flags, child_line, more_line, run_line, totals_line, RunFigures};

#[test]
fn child_flags_come_in_a_fixed_order() {
    assert_eq!(child_flags(false, false, false), "");
    assert_eq!(child_flags(true, false, false), " dense");
    assert_eq!(child_flags(true, true, true), " dense denied volume");
    assert_eq!(child_flags(false, true, true), " denied volume");
}

#[test]
fn a_child_line_aligns_size_and_share() {
    let line = child_line("1.2 GB", "45.0%", "[bar]", "target", true, false, true);
    assert_eq!(line, "      1.2 GB   45.0%  [bar]  target dense volume");
}

#[test]
fn a_long_size_is_not_cut() {
    let line = child_line("123456789012", "100.0%", "", "x", false, false, false);
    assert_eq!(line, "  123456789012  100.0%    x");
}

#[test]
fn more_line_counts_the_children_left_out() {
    assert_eq!(more_line(25, 20), Some(String::from("  \u{2026} 5 more")));
    assert_eq!(more_line(20, 20), None);
    assert_eq!(more_line(3, 20), None);
}

#[test]
fn totals_line_groups_the_counts() {
    let line = totals_line("5.0 GB", "4.8 GB", 1234567, 1000);
    assert_eq!(
        line,
        "  5.0 GB allocated \u{b7} 4.8 GB apparent \u{b7} 1,234,567 files \u{b7} 1,000 directories"
    );
}

#[test]
fn run_line_marks_an_unfinished_scan() {
    let mut run = RunFigures {
        elapsed_text: String::from("2.5s"),
        files_per_second: 12345,
        worker_count: 8,
        reader_name: String::from("getdents"),
        dense_directories: 3,
        permission_denied: 0,
        hard_links_skipped: 12,
        complete: true,
    };
    assert_eq!(
        run_line(&run),
        "  2.5s \u{b7} 12,345 files/s \u{b7} 8 threads \u{b7} reader getdents \u{b7} dense 3 \u{b7} denied 0 \u{b7} hard links skipped 12"
    );
    run.complete = false;
    assert!(run_line(&run).ends_with(" \u{b7} hard links skipped 12 \u{b7} INCOMPLETE"));
}

use tree_cleaner::headless::{json_report, MeasuredChild, MeasuredRoot};

fn root(path: &str) -> MeasuredRoot {
    MeasuredRoot {
        path: path.to_owned(),
        allocated_bytes: 4096,
        apparent_bytes: 1000,
        files: 3,
        directories: 2,
        complete: true,
        elapsed_seconds_text: "0.125".to_owned(),
        files_per_second_text: "24".to_owned(),
        dense_directories: 0,
        permission_denied: 1,
        hard_links_skipped: 0,
    }
}

fn child(name: &str, bytes: u64, denied: bool) -> MeasuredChild {
    MeasuredChild { name: name.to_owned(), allocated_bytes: bytes, apparent_bytes: bytes / 2, files: 1, dense: false, denied }
}

#[test]
fn json_report_lists_the_first_children() {
    let children = vec![child("b", 2048, false), child("a \"q\"", 1024, true), child("c", 8, false)];
    let lines = json_report(&root("/tmp/x"), &children, 2);
    let expected = vec![
        "{",
        "  \"path\": \"/tmp/x\",",
        "  \"allocated_bytes\": 4096,",
        "  \"apparent_bytes\": 1000,",
        "  \"files\": 3,",
        "  \"directories\": 2,",
        "  \"complete\": true,",
        "  \"elapsed_seconds\": 0.125,",
        "  \"files_per_second\": 24,",
        "  \"dense_directories\": 0,",
        "  \"permission_denied\": 1,",
        "  \"hard_links_skipped\": 0,",
        "  \"children\": [",
        "    {\"name\": \"b\", \"allocated_bytes\": 2048, \"apparent_bytes\": 1024, \"files\": 1, \"dense\": false, \"denied\": false},",
        "    {\"name\": \"a \\\"q\\\"\", \"allocated_bytes\": 1024, \"apparent_bytes\": 512, \"files\": 1, \"dense\": false, \"denied\": true}",
        "  ]",
        "}",
    ];
    assert_eq!(lines, expected);
}

#[test]
fn json_report_with_no_children_to_show() {
    let lines = json_report(&root("/"), &[], 20);
    assert_eq!(lines.len(), 15);
    assert_eq!(lines[13], "  ]");
}
