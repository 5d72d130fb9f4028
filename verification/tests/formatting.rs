use tree_cleaner::formatting::{
    bar_cells, count, decimal_string, fit, fit_measured, home_relative, spinner, tilde_path,
};

#[test]
fn count_groups_thousands() {
    assert_eq!(count(0), "0");
    assert_eq!(count(999), "999");
    assert_eq!(count(1000), "1,000");
    assert_eq!(count(1234567), "1,234,567");
    assert_eq!(count(u64::MAX), "18,446,744,073,709,551,615");
}

#[test]
fn count_without_commas_is_the_decimal_number() {
    for value in [0u64, 7, 1_000, 65_536, 1_000_001, u64::MAX] {
        assert_eq!(count(value).replace(',', ""), decimal_string(value));
        assert_eq!(decimal_string(value), value.to_string());
    }
}

#[test]
fn spinner_repeats_every_ten_ticks() {
    assert_eq!(spinner(0), "\u{280B}");
    assert_eq!(spinner(3), "\u{2838}");
    assert_eq!(spinner(9), "\u{280F}");
    assert_eq!(spinner(13), spinner(3));
}

#[test]
fn fit_leaves_short_text_alone() {
    assert_eq!(fit("hello", 5, false), "hello");
    assert_eq!(fit("hello", 10, true), "hello");
}

#[test]
fn fit_cuts_with_an_ellipsis() {
    assert_eq!(fit("hello world", 6, false), "hello\u{2026}");
    assert_eq!(fit("/Users/me/Documents", 8, true), "\u{2026}cuments");
    assert_eq!(fit("hello", 1, false), "\u{2026}");
    assert_eq!(fit("hello", 0, true), "");
}

#[test]
fn fit_counts_wide_characters_as_two_cells() {
    assert_eq!(fit("日本語テキスト", 6, false), "日本\u{2026}");
    assert_eq!(fit("日本語テキスト", 6, true), "\u{2026}スト");
}

#[test]
fn bar_fills_eighths() {
    assert_eq!(bar_cells(0, 4), "    ");
    assert_eq!(bar_cells(12, 3), "\u{2588}\u{258C} ");
    assert_eq!(bar_cells(16, 2), "\u{2588}\u{2588}");
    assert_eq!(bar_cells(100, 2), "\u{2588}\u{2588}");
    assert_eq!(bar_cells(1, 1), "\u{258F}");
    assert_eq!(bar_cells(5, 0), "");
}

#[test]
fn bar_is_always_as_wide_as_asked() {
    for eighths in 0..40 {
        for width in 0..5 {
            assert_eq!(bar_cells(eighths, width).chars().count(), width);
        }
    }
}

#[test]
fn home_relative_uses_a_tilde() {
    assert_eq!(home_relative("/Users/me", Some("/Users/me")), "~");
    assert_eq!(home_relative("/Users/me/Documents/a", Some("/Users/me")), "~/Documents/a");
    assert_eq!(home_relative("/Users/meadow", Some("/Users/me")), "/Users/meadow");
    assert_eq!(home_relative("/tmp/x", None), "/tmp/x");
    assert_eq!(home_relative("/Users/me/", Some("/Users/me")), "~");
}

#[test]
fn fit_with_given_measures() {
    assert_eq!(fit_measured("abcd", 4, &[1, 1, 1, 1], 4, false), "abcd");
    assert_eq!(fit_measured("abcd", 8, &[2, 2, 2, 2], 5, false), "ab\u{2026}");
    assert_eq!(fit_measured("abcd", 8, &[2, 2, 2, 2], 5, true), "\u{2026}cd");
    assert_eq!(fit_measured("abcd", 8, &[2, 2, 2, 2], 4, true), "\u{2026}d");
    assert_eq!(fit_measured("ab", 9, &[5, 4], 3, false), "\u{2026}");
}

#[test]
fn tilde_paths() {
    assert_eq!(tilde_path("/Users/me", true, None), "~");
    assert_eq!(tilde_path("/Users/me/x", false, Some("x")), "~/x");
    assert_eq!(tilde_path("/srv", false, None), "/srv");
}
