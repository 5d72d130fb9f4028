//! Text helpers shared by every screen: spinner frames, digit grouping, width-aware
//! truncation, bars and home-relative paths.

use unicode_width::{UnicodeWidthChar, UnicodeWidthStr};
use vstd::prelude::*;

use crate::paths::{path_eq, path_strip, same_path, strip_path_prefix};
use crate::text::{chars_of, push_char, remove_all, slice_chars, string_of};

verus! {

// ---------------------------------------------------------------------------------------
// Spinner
// ---------------------------------------------------------------------------------------

/// The ten braille frames of the activity spinner.
pub open spec fn spinner_frame(index: int) -> Seq<char> {
    if index == 0 {
        "\u{280B}"@
    } else if index == 1 {
        "\u{2819}"@
    } else if index == 2 {
        "\u{2839}"@
    } else if index == 3 {
        "\u{2838}"@
    } else if index == 4 {
        "\u{283C}"@
    } else if index == 5 {
        "\u{2834}"@
    } else if index == 6 {
        "\u{2826}"@
    } else if index == 7 {
        "\u{2827}"@
    } else if index == 8 {
        "\u{2807}"@
    } else {
        "\u{280F}"@
    }
}

/// The spinner frame for animation step `tick`; the frames repeat every ten steps.
pub fn spinner(tick: usize) -> (frame: &'static str)
    ensures
        frame@ == spinner_frame((tick % 10) as int),
{
    let index = tick % 10;
    if index == 0 {
        "\u{280B}"
    } else if index == 1 {
        "\u{2819}"
    } else if index == 2 {
        "\u{2839}"
    } else if index == 3 {
        "\u{2838}"
    } else if index == 4 {
        "\u{283C}"
    } else if index == 5 {
        "\u{2834}"
    } else if index == 6 {
        "\u{2826}"
    } else if index == 7 {
        "\u{2827}"
    } else if index == 8 {
        "\u{2807}"
    } else {
        "\u{280F}"
    }
}

// ---------------------------------------------------------------------------------------
// Digit grouping
// ---------------------------------------------------------------------------------------

/// The decimal digit character for `d` (`0 <= d <= 9`).
pub open spec fn digit_char(d: nat) -> char {
    (48 + d) as char
}

/// Decimal notation of `v`, as `to_string` writes it.
pub open spec fn decimal(v: nat) -> Seq<char>
    decreases v,
{
    if v < 10 {
        seq![digit_char(v)]
    } else {
        decimal(v / 10).push(digit_char(v % 10))
    }
}

/// The three digits of `v % 1000`, leading zeros included.
pub open spec fn three_digits(v: nat) -> Seq<char> {
    seq![digit_char((v / 100) % 10), digit_char((v / 10) % 10), digit_char(v % 10)]
}

/// Decimal notation of `v` with a comma between groups of three digits.
pub open spec fn grouped(v: nat) -> Seq<char>
    decreases v,
{
    if v < 1000 {
        decimal(v)
    } else {
        grouped(v / 1000) + seq![','] + three_digits(v % 1000)
    }
}

fn digit_of(d: u64) -> (c: char)
    requires
        d <= 9,
    ensures
        c == digit_char(d as nat),
{
    let b: u8 = 48 + (d as u8);
    b as char
}

fn decimal_digits(v: u64) -> (digits: Vec<char>)
    ensures
        digits@ == decimal(v as nat),
    decreases v,
{
    if v < 10 {
        let mut digits: Vec<char> = Vec::new();
        digits.push(digit_of(v));
        digits
    } else {
        let mut digits = decimal_digits(v / 10);
        digits.push(digit_of(v % 10));
        digits
    }
}

fn grouped_digits(v: u64) -> (digits: Vec<char>)
    ensures
        digits@ == grouped(v as nat),
    decreases v,
{
    if v < 1000 {
        decimal_digits(v)
    } else {
        let mut digits = grouped_digits(v / 1000);
        let low = v % 1000;
        digits.push(',');
        digits.push(digit_of((low / 100) % 10));
        digits.push(digit_of((low / 10) % 10));
        digits.push(digit_of(low % 10));
        digits
    }
}

/// Decimal notation of `value`, as `to_string` writes it.
pub fn decimal_string(value: u64) -> (text: String)
    ensures
        text@ == decimal(value as nat),
{
    let digits = decimal_digits(value);
    string_of(digits.as_slice())
}

/// `1234567` becomes `1,234,567`.
pub fn count(value: u64) -> (text: String)
    ensures
        text@ == grouped(value as nat),
{
    let digits = grouped_digits(value);
    string_of(digits.as_slice())
}

proof fn lemma_decimal_thousands(v: nat)
    requires
        v >= 1000,
    ensures
        decimal(v) == decimal(v / 1000) + three_digits(v % 1000),
{
    let a = v / 10;
    let b = a / 10;
    let c = b / 10;
    assert(a >= 100);
    assert(b >= 10);
    assert(c >= 1);
    vstd::arithmetic::div_mod::lemma_div_denominator(v as int, 10, 10);
    vstd::arithmetic::div_mod::lemma_div_denominator(v as int, 100, 10);
    assert(b == v / 100);
    assert(c == v / 1000);
    let r = v % 1000;
    assert((r / 100) % 10 == b % 10) by (nonlinear_arith)
        requires
            r == v % 1000,
            b == v / 100,
    ;
    assert((r / 10) % 10 == a % 10) by (nonlinear_arith)
        requires
            r == v % 1000,
            a == v / 10,
    ;
    assert(r % 10 == v % 10) by (nonlinear_arith)
        requires
            r == v % 1000,
    ;
    assert(decimal(v) == decimal(a).push(digit_char(v % 10)));
    assert(decimal(a) == decimal(b).push(digit_char(a % 10)));
    assert(decimal(b) == decimal(c).push(digit_char(b % 10)));
    assert(decimal(v) =~= decimal(c) + three_digits(r));
}

proof fn lemma_digit_not_comma(d: nat)
    requires
        d <= 9,
    ensures
        digit_char(d) != ',',
{
}

proof fn lemma_decimal_digits_only(v: nat)
    ensures
        forall|i: int| 0 <= i < decimal(v).len() ==> #[trigger] decimal(v)[i] != ',',
    decreases v,
{
    if v >= 10 {
        lemma_decimal_digits_only(v / 10);
        lemma_digit_not_comma(v % 10);
        let d = decimal(v);
        let p = decimal(v / 10);
        assert(d == p.push(digit_char(v % 10)));
        assert forall|i: int| 0 <= i < d.len() implies #[trigger] d[i] != ',' by {
            if i < p.len() {
                assert(d[i] == p[i]);
            }
        }
    } else {
        lemma_digit_not_comma(v);
    }
}

proof fn lemma_remove_all_keeps(s: Seq<char>, ch: char)
    requires
        forall|i: int| 0 <= i < s.len() ==> #[trigger] s[i] != ch,
    ensures
        remove_all(s, ch) == s,
    decreases s.len(),
{
    if s.len() > 0 {
        lemma_remove_all_keeps(s.drop_last(), ch);
        assert(s.drop_last().push(s.last()) =~= s);
    }
}

proof fn lemma_remove_all_concat(a: Seq<char>, b: Seq<char>, ch: char)
    ensures
        remove_all(a + b, ch) == remove_all(a, ch) + remove_all(b, ch),
    decreases b.len(),
{
    if b.len() == 0 {
        assert(a + b =~= a);
        assert(remove_all(a, ch) + remove_all(b, ch) =~= remove_all(a, ch));
    } else {
        lemma_remove_all_concat(a, b.drop_last(), ch);
        assert((a + b).drop_last() =~= a + b.drop_last());
        assert((a + b).last() == b.last());
        if b.last() != ch {
            assert(remove_all(a, ch) + remove_all(b.drop_last(), ch).push(b.last()) =~= (
            remove_all(a, ch) + remove_all(b.drop_last(), ch)).push(b.last()));
        }
    }
}

/// Taking the commas out of `count(v)` gives back the plain decimal notation of `v`.
pub proof fn lemma_count_digits(v: nat)
    ensures
        remove_all(grouped(v), ',') == decimal(v),
    decreases v,
{
    if v < 1000 {
        lemma_decimal_digits_only(v);
        lemma_remove_all_keeps(decimal(v), ',');
    } else {
        let q = v / 1000;
        let r = v % 1000;
        lemma_count_digits(q);
        lemma_decimal_thousands(v);
        lemma_remove_all_concat(grouped(q) + seq![','], three_digits(r), ',');
        lemma_remove_all_concat(grouped(q), seq![','], ',');
        assert(remove_all(seq![','], ',') =~= Seq::<char>::empty()) by {
            let one = seq![','];
            assert(one.len() == 1);
            assert(one.last() == ',');
            assert(one.drop_last() =~= Seq::<char>::empty());
            assert(remove_all(Seq::<char>::empty(), ',') == Seq::<char>::empty());
        }
        lemma_digit_not_comma((r / 100) % 10);
        lemma_digit_not_comma((r / 10) % 10);
        lemma_digit_not_comma(r % 10);
        lemma_remove_all_keeps(three_digits(r), ',');
        assert(grouped(v) == grouped(q) + seq![','] + three_digits(r));
        assert(decimal(q) + Seq::<char>::empty() =~= decimal(q));
    }
}

// ---------------------------------------------------------------------------------------
// Fitting text into a number of terminal cells
// ---------------------------------------------------------------------------------------

/// `UnicodeWidthStr::width`: the cells a text takes on screen.
pub uninterp spec fn str_width(text: Seq<char>) -> usize;

/// `UnicodeWidthChar::width`: the cells one character takes, `None` for control characters.
pub uninterp spec fn char_width(c: char) -> Option<usize>;

/// `UnicodeWidthStr::width` of `text`.
#[verifier::external_body]
fn text_width(text: &str) -> (cells: usize)
    ensures
        cells == str_width(text@),
{
    UnicodeWidthStr::width(text)
}

/// `UnicodeWidthChar::width` of `c`. Printable ASCII takes one cell; the C0 and C1 control
/// characters have no width.
#[verifier::external_body]
fn character_width(c: char) -> (cells: Option<usize>)
    ensures
        cells == char_width(c),
        0x20 <= c as u32 && (c as u32) < 0x7F ==> cells == Some(1usize),
        (c as u32) < 0x20 || (0x7F <= c as u32 && (c as u32) < 0xA0) ==> cells is None,
{
    UnicodeWidthChar::width(c)
}

/// Cells of one character when counting a cut, control characters counting as none.
pub open spec fn cells_of(c: char) -> nat {
    match char_width(c) {
        Some(w) => w as nat,
        None => 0,
    }
}

/// The cells of each character of `s`.
pub open spec fn cells_of_each(s: Seq<char>) -> Seq<usize> {
    s.map_values(|c: char| cells_of(c) as usize)
}

/// How many of the leading cell counts fit in `budget` cells, stopping at the first one that
/// does not fit.
pub open spec fn fitting_prefix_len(cells: Seq<usize>, budget: nat) -> nat
    decreases cells.len(),
{
    if cells.len() == 0 || cells[0] > budget {
        0
    } else {
        1 + fitting_prefix_len(cells.drop_first(), (budget - cells[0]) as nat)
    }
}

/// How many of the trailing cell counts fit in `budget` cells, stopping at the first one
/// that does not fit.
pub open spec fn fitting_suffix_len(cells: Seq<usize>, budget: nat) -> nat
    decreases cells.len(),
{
    if cells.len() == 0 || cells.last() > budget {
        0
    } else {
        1 + fitting_suffix_len(cells.drop_last(), (budget - cells.last()) as nat)
    }
}

/// `text`, which takes `total` cells, its characters `cells[i]` cells each, cut to `width`
/// cells: kept whole when it fits, otherwise the longest start (or, with `keep_end`, the
/// longest end) that fits in one cell less, marked with an ellipsis.
pub open spec fn fit_measured_spec(
    text: Seq<char>,
    total: nat,
    cells: Seq<usize>,
    width: nat,
    keep_end: bool,
) -> Seq<char> {
    if width == 0 {
        Seq::empty()
    } else if total <= width {
        text
    } else if width == 1 {
        "\u{2026}"@
    } else if keep_end {
        "\u{2026}"@ + text.skip(text.len() - fitting_suffix_len(cells, (width - 1) as nat))
    } else {
        text.take(fitting_prefix_len(cells, (width - 1) as nat) as int).push('\u{2026}')
    }
}

/// `text` cut to `width` cells, measured as the terminal measures it.
pub open spec fn fit_spec(text: Seq<char>, width: nat, keep_end: bool) -> Seq<char> {
    fit_measured_spec(text, str_width(text) as nat, cells_of_each(text), width, keep_end)
}

/// Cuts `text`, which takes `text_cells` cells and whose characters take `char_cells` cells
/// each, so it fits `width` cells, keeping the end when `keep_end` is set and marking the
/// cut with an ellipsis.
pub fn fit_measured(
    text: &str,
    text_cells: usize,
    char_cells: &[usize],
    width: usize,
    keep_end: bool,
) -> (result: String)
    requires
        char_cells@.len() == text@.len(),
    ensures
        result@ == fit_measured_spec(text@, text_cells as nat, char_cells@, width as nat, keep_end),
{
    if width == 0 {
        return String::new();
    }
    if text_cells <= width {
        return text.to_owned();
    }
    if width == 1 {
        return String::from_str("\u{2026}");
    }
    let budget = width - 1;
    let chars = chars_of(text);
    let len = chars.len();
    let ghost cells = char_cells@;
    if keep_end {
        let mut used: usize = 0;
        let mut i: usize = len;
        let mut stop = false;
        assert(cells.take(len as int) =~= cells);
        while i > 0 && !stop
            invariant
                0 <= i <= len == chars@.len() == cells.len(),
                cells == char_cells@,
                chars@ == text@,
                used <= budget,
                fitting_suffix_len(cells, budget as nat) == (len - i) + fitting_suffix_len(
                    cells.take(i as int),
                    (budget - used) as nat,
                ),
                stop ==> fitting_suffix_len(cells.take(i as int), (budget - used) as nat) == 0,
            decreases i + (if stop {
                0int
            } else {
                1int
            }),
        {
            let w = char_cells[i - 1];
            proof {
                let t = cells.take(i as int);
                assert(t.last() == cells[i - 1]);
                assert(t.drop_last() =~= cells.take(i - 1));
            }
            if w > budget - used {
                stop = true;
            } else {
                used = used + w;
                i = i - 1;
            }
        }
        assert(cells.take(0) =~= Seq::<usize>::empty());
        let mut result = String::from_str("\u{2026}");
        let tail = string_of(slice_chars(chars.as_slice(), i, len).as_slice());
        result.append(tail.as_str());
        assert(chars@.subrange(i as int, len as int) =~= chars@.skip(i as int));
        result
    } else {
        let mut used: usize = 0;
        let mut i: usize = 0;
        let mut stop = false;
        assert(cells.skip(0) =~= cells);
        while i < len && !stop
            invariant
                0 <= i <= len == chars@.len() == cells.len(),
                cells == char_cells@,
                chars@ == text@,
                used <= budget,
                fitting_prefix_len(cells, budget as nat) == i + fitting_prefix_len(
                    cells.skip(i as int),
                    (budget - used) as nat,
                ),
                stop ==> fitting_prefix_len(cells.skip(i as int), (budget - used) as nat) == 0,
            decreases len - i + (if stop {
                0int
            } else {
                1int
            }),
        {
            let w = char_cells[i];
            proof {
                let t = cells.skip(i as int);
                assert(t[0] == cells[i as int]);
                assert(t.drop_first() =~= cells.skip(i + 1));
            }
            if w > budget - used {
                stop = true;
            } else {
                used = used + w;
                i = i + 1;
            }
        }
        assert(cells.skip(len as int) =~= Seq::<usize>::empty());
        let mut result = string_of(slice_chars(chars.as_slice(), 0, i).as_slice());
        push_char(&mut result, '\u{2026}');
        assert(chars@.subrange(0, i as int) =~= chars@.take(i as int));
        result
    }
}

/// Cuts `text` so it fits `width` cells, keeping the end when `keep_end` is set (useful
/// for paths) and marking the cut with an ellipsis.
pub fn fit(text: &str, width: usize, keep_end: bool) -> (result: String)
    ensures
        result@ == fit_spec(text@, width as nat, keep_end),
{
    let total = text_width(text);
    let chars = chars_of(text);
    let mut cells: Vec<usize> = Vec::new();
    let mut i: usize = 0;
    while i < chars.len()
        invariant
            0 <= i <= chars@.len(),
            chars@ == text@,
            cells@ == cells_of_each(chars@.take(i as int)),
        decreases chars@.len() - i,
    {
        let w = match character_width(chars[i]) {
            Some(w) => w,
            None => 0,
        };
        cells.push(w);
        assert(cells_of_each(chars@.take(i + 1)) =~= cells_of_each(chars@.take(i as int)).push(
            cells_of(chars@[i as int]) as usize,
        ));
        i += 1;
    }
    assert(chars@.take(chars@.len() as int) =~= chars@);
    fit_measured(text, total, cells.as_slice(), width, keep_end)
}

// ---------------------------------------------------------------------------------------
// Bars
// ---------------------------------------------------------------------------------------

/// The block that fills `eighths` eighths of a cell (`1 <= eighths <= 7`).
pub open spec fn partial_block(eighths: nat) -> char {
    if eighths == 1 {
        '\u{258F}'
    } else if eighths == 2 {
        '\u{258E}'
    } else if eighths == 3 {
        '\u{258D}'
    } else if eighths == 4 {
        '\u{258C}'
    } else if eighths == 5 {
        '\u{258B}'
    } else if eighths == 6 {
        '\u{258A}'
    } else {
        '\u{2589}'
    }
}

/// A bar of `width` cells showing `filled_eighths` eighths of a cell: full blocks, one
/// partial block for the remainder when there is room, then spaces.
pub open spec fn bar_spec(filled_eighths: nat, width: nat) -> Seq<char> {
    if width == 0 {
        Seq::empty()
    } else {
        let full = filled_eighths / 8;
        let partial = filled_eighths % 8;
        let solid = if full < width {
            full
        } else {
            width
        };
        let part: Seq<char> = if full < width && partial > 0 {
            seq![partial_block(partial)]
        } else {
            Seq::empty()
        };
        Seq::new(solid, |_i: int| '\u{2588}') + part + Seq::new(
            (width - solid - part.len()) as nat,
            |_i: int| ' ',
        )
    }
}

fn partial_block_of(eighths: usize) -> (c: char)
    requires
        1 <= eighths <= 7,
    ensures
        c == partial_block(eighths as nat),
{
    if eighths == 1 {
        '\u{258F}'
    } else if eighths == 2 {
        '\u{258E}'
    } else if eighths == 3 {
        '\u{258D}'
    } else if eighths == 4 {
        '\u{258C}'
    } else if eighths == 5 {
        '\u{258B}'
    } else if eighths == 6 {
        '\u{258A}'
    } else {
        '\u{2589}'
    }
}

/// A horizontal bar of `width` cells holding `filled_eighths` eighths of a cell of fill,
/// with eighth blocks for the partial cell. The bar is always exactly `width` cells long.
pub fn bar_cells(filled_eighths: usize, width: usize) -> (result: String)
    ensures
        result@ == bar_spec(filled_eighths as nat, width as nat),
        result@.len() == width,
{
    if width == 0 {
        return String::new();
    }
    let full = filled_eighths / 8;
    let partial = filled_eighths % 8;
    let solid = if full < width {
        full
    } else {
        width
    };
    let mut cells: Vec<char> = Vec::new();
    let mut i: usize = 0;
    while i < solid
        invariant
            0 <= i <= solid <= width,
            cells@ == Seq::new(i as nat, |_k: int| '\u{2588}'),
        decreases solid - i,
    {
        cells.push('\u{2588}');
        assert(cells@ =~= Seq::new((i + 1) as nat, |_k: int| '\u{2588}'));
        i += 1;
    }
    let has_part = full < width && partial > 0;
    if has_part {
        cells.push(partial_block_of(partial));
    }
    let used: usize = if has_part {
        solid + 1
    } else {
        solid
    };
    let ghost head = cells@;
    let mut j: usize = used;
    while j < width
        invariant
            used <= j <= width,
            cells@ == head + Seq::new((j - used) as nat, |_k: int| ' '),
        decreases width - j,
    {
        cells.push(' ');
        assert(cells@ =~= head + Seq::new((j + 1 - used) as nat, |_k: int| ' '));
        j += 1;
    }
    let ghost part: Seq<char> = if has_part {
        seq![partial_block(partial as nat)]
    } else {
        Seq::empty()
    };
    assert(head =~= Seq::new(solid as nat, |_k: int| '\u{2588}') + part);
    assert(cells@ =~= bar_spec(filled_eighths as nat, width as nat));
    string_of(cells.as_slice())
}

// ---------------------------------------------------------------------------------------
// Paths
// ---------------------------------------------------------------------------------------

/// `path` with the home directory written as `~`.
pub open spec fn home_relative_spec(path: Seq<char>, home: Option<Seq<char>>) -> Seq<char> {
    match home {
        Some(h) => if path_eq(path, h) {
            "~"@
        } else {
            match path_strip(path, h) {
                Some(rest) => "~/"@ + rest,
                None => path,
            }
        },
        None => path,
    }
}

/// `path` written from the home directory: `~` when it is the home directory itself,
/// `~/` and the rest when it lies below it, as it is otherwise.
pub open spec fn tilde_path_spec(path: Seq<char>, at_home: bool, below_home: Option<Seq<char>>) -> Seq<char> {
    if at_home {
        "~"@
    } else {
        match below_home {
            Some(rest) => "~/"@ + rest,
            None => path,
        }
    }
}

/// `path` written from the home directory, given whether it is the home directory and
/// what is left of it below the home directory.
pub fn tilde_path(path: &str, at_home: bool, below_home: Option<&str>) -> (text: String)
    ensures
        text@ == tilde_path_spec(
            path@,
            at_home,
            match below_home {
                Some(rest) => Some(rest@),
                None => None,
            },
        ),
{
    if at_home {
        return String::from_str("~");
    }
    match below_home {
        Some(rest) => {
            let mut text = String::from_str("~/");
            text.append(rest);
            text
        },
        None => path.to_owned(),
    }
}

/// Shortens a path with `~` for the home directory.
pub fn home_relative(path: &str, home: Option<&str>) -> (text: String)
    ensures
        text@ == home_relative_spec(
            path@,
            match home {
                Some(h) => Some(h@),
                None => None,
            },
        ),
{
    match home {
        Some(h) => {
            if same_path(path, h) {
                tilde_path(path, true, None)
            } else {
                match strip_path_prefix(path, h) {
                    Some(rest) => tilde_path(path, false, Some(rest.as_str())),
                    None => tilde_path(path, false, None),
                }
            }
        },
        None => path.to_owned(),
    }
}

} // verus!
