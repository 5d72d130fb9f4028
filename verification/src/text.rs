//! Character-level helpers over `String` and `&str`: trimming, ASCII case folding,
//! number parsing and the UTF-8 byte offsets that `String` edits are expressed in.

use vstd::prelude::*;

verus! {

/// The text of each string.
pub open spec fn texts_of(strings: Seq<String>) -> Seq<Seq<char>> {
    strings.map_values(|text: String| text@)
}


// ---------------------------------------------------------------------------------------
// Specifications
// ---------------------------------------------------------------------------------------

/// The Unicode `White_Space` property, which is what `char::is_whitespace` tests.
pub open spec fn is_ws(c: char) -> bool {
    let v = c as u32;
    (0x09 <= v && v <= 0x0D) || v == 0x20 || v == 0x85 || v == 0xA0 || v == 0x1680 || (0x2000 <= v
        && v <= 0x200A) || v == 0x2028 || v == 0x2029 || v == 0x202F || v == 0x205F || v == 0x3000
}

/// `s` without its leading whitespace.
pub open spec fn trim_start(s: Seq<char>) -> Seq<char>
    decreases s.len(),
{
    if s.len() > 0 && is_ws(s[0]) {
        trim_start(s.drop_first())
    } else {
        s
    }
}

/// `s` without its trailing whitespace.
pub open spec fn trim_end(s: Seq<char>) -> Seq<char>
    decreases s.len(),
{
    if s.len() > 0 && is_ws(s.last()) {
        trim_end(s.drop_last())
    } else {
        s
    }
}

/// `s` without leading and trailing whitespace, as `str::trim` gives it.
pub open spec fn trim(s: Seq<char>) -> Seq<char> {
    trim_end(trim_start(s))
}

/// `s` without every leading occurrence of `ch`, as `str::trim_start_matches(ch)` gives it.
pub open spec fn strip_leading(s: Seq<char>, ch: char) -> Seq<char>
    decreases s.len(),
{
    if s.len() > 0 && s[0] == ch {
        strip_leading(s.drop_first(), ch)
    } else {
        s
    }
}

/// ASCII upper-case letters become lower case; every other character stays.
pub open spec fn lower_char(c: char) -> char {
    if 'A' <= c && c <= 'Z' {
        ((c as u32) + 32) as char
    } else {
        c
    }
}

/// `str::to_ascii_lowercase`.
pub open spec fn ascii_lower(s: Seq<char>) -> Seq<char> {
    s.map_values(|c: char| lower_char(c))
}

/// `s` with every `ch` removed, as `str::replace(ch, "")` gives it.
pub open spec fn remove_all(s: Seq<char>, ch: char) -> Seq<char>
    decreases s.len(),
{
    if s.len() == 0 {
        s
    } else if s.last() == ch {
        remove_all(s.drop_last(), ch)
    } else {
        remove_all(s.drop_last(), ch).push(s.last())
    }
}

/// Value of a digit in base `radix` (2..=36), letters in either case.
pub open spec fn digit_value(c: char, radix: nat) -> Option<nat> {
    let v = c as u32;
    let d: int = if '0' <= c && c <= '9' {
        v - 48
    } else if 'a' <= c && c <= 'z' {
        v - 97 + 10
    } else if 'A' <= c && c <= 'Z' {
        v - 65 + 10
    } else {
        99
    };
    if d < radix {
        Some(d as nat)
    } else {
        None
    }
}

/// Value of a string made only of digits of base `radix`; `None` when one is not a digit.
pub open spec fn digits_value(s: Seq<char>, radix: nat) -> Option<nat>
    decreases s.len(),
{
    if s.len() == 0 {
        Some(0)
    } else {
        match (digits_value(s.drop_last(), radix), digit_value(s.last(), radix)) {
            (Some(high), Some(low)) => Some(high * radix + low),
            _ => None,
        }
    }
}

/// What `from_str_radix` of an unsigned type with maximum `max` gives: one optional `+`,
/// then at least one digit, and a value that fits.
pub open spec fn parse_unsigned(s: Seq<char>, radix: nat, max: nat) -> Option<nat> {
    if s.len() == 0 {
        None
    } else {
        let digits = if s[0] == '+' {
            s.drop_first()
        } else {
            s
        };
        if digits.len() == 0 {
            None
        } else {
            match digits_value(digits, radix) {
                Some(v) => if v <= max {
                    Some(v)
                } else {
                    None
                },
                None => None,
            }
        }
    }
}

/// Number of bytes of the UTF-8 encoding of `c` (`char::len_utf8`).
pub open spec fn char_utf8_len(c: char) -> nat {
    let v = c as u32;
    if v < 0x80 {
        1
    } else if v < 0x800 {
        2
    } else if v < 0x10000 {
        3
    } else {
        4
    }
}

/// Number of bytes of the UTF-8 encoding of `s`.
pub open spec fn utf8_len(s: Seq<char>) -> nat
    decreases s.len(),
{
    if s.len() == 0 {
        0
    } else {
        utf8_len(s.drop_last()) + char_utf8_len(s.last())
    }
}

// ---------------------------------------------------------------------------------------
// Lemmas
// ---------------------------------------------------------------------------------------

/// The byte offset of a character index grows with the index.
pub proof fn lemma_utf8_len_prefix_monotone(s: Seq<char>, i: int, j: int)
    requires
        0 <= i <= j <= s.len(),
    ensures
        utf8_len(s.take(i)) <= utf8_len(s.take(j)),
        i < j ==> utf8_len(s.take(i)) < utf8_len(s.take(j)),
        j - i <= utf8_len(s.take(j)) - utf8_len(s.take(i)),
    decreases j - i,
{
    if i < j {
        lemma_utf8_len_prefix_monotone(s, i, j - 1);
        assert(s.take(j).drop_last() =~= s.take(j - 1));
    }
}

/// Byte offsets of distinct character indices differ.
pub proof fn lemma_utf8_len_prefix_injective(s: Seq<char>, i: int, j: int)
    requires
        0 <= i <= s.len(),
        0 <= j <= s.len(),
        utf8_len(s.take(i)) == utf8_len(s.take(j)),
    ensures
        i == j,
{
    if i < j {
        lemma_utf8_len_prefix_monotone(s, i, j);
    } else if j < i {
        lemma_utf8_len_prefix_monotone(s, j, i);
    }
}

proof fn lemma_trim_start_skip(s: Seq<char>, i: int)
    requires
        0 <= i <= s.len(),
        forall|k: int| 0 <= k < i ==> is_ws(#[trigger] s[k]),
    ensures
        trim_start(s) == trim_start(s.subrange(i, s.len() as int)),
    decreases i,
{
    if i > 0 {
        assert(s.drop_first().subrange(i - 1, s.drop_first().len() as int) =~= s.subrange(
            i,
            s.len() as int,
        ));
        lemma_trim_start_skip(s.drop_first(), i - 1);
    } else {
        assert(s.subrange(0, s.len() as int) =~= s);
    }
}

proof fn lemma_trim_end_take(s: Seq<char>, j: int)
    requires
        0 <= j <= s.len(),
        forall|k: int| j <= k < s.len() ==> is_ws(#[trigger] s[k]),
    ensures
        trim_end(s) == trim_end(s.subrange(0, j)),
    decreases s.len() - j,
{
    if j < s.len() {
        assert(s.drop_last().subrange(0, j) =~= s.subrange(0, j));
        lemma_trim_end_take(s.drop_last(), j);
    } else {
        assert(s.subrange(0, j) =~= s);
    }
}

proof fn lemma_strip_leading_skip(s: Seq<char>, ch: char, i: int)
    requires
        0 <= i <= s.len(),
        forall|k: int| 0 <= k < i ==> #[trigger] s[k] == ch,
    ensures
        strip_leading(s, ch) == strip_leading(s.subrange(i, s.len() as int), ch),
    decreases i,
{
    if i > 0 {
        assert(s.drop_first().subrange(i - 1, s.drop_first().len() as int) =~= s.subrange(
            i,
            s.len() as int,
        ));
        lemma_strip_leading_skip(s.drop_first(), ch, i - 1);
    } else {
        assert(s.subrange(0, s.len() as int) =~= s);
    }
}

proof fn lemma_digits_value_grows(s: Seq<char>, radix: nat, i: int)
    requires
        radix >= 1,
        0 <= i <= s.len(),
        digits_value(s.take(i), radix) is Some,
    ensures
        digits_value(s, radix) matches Some(v) ==> v >= digits_value(s.take(i), radix)->0,
    decreases s.len() - i,
{
    if i < s.len() {
        let t = s.take(i + 1);
        assert(t.drop_last() =~= s.take(i));
        if digits_value(t, radix) is Some {
            let high = digits_value(s.take(i), radix)->0;
            let low = digit_value(t.last(), radix)->0;
            assert(high * radix + low >= high) by (nonlinear_arith)
                requires
                    radix >= 1,
            ;
            lemma_digits_value_grows(s, radix, i + 1);
        } else {
            lemma_digits_value_none_extends(s, radix, i + 1);
        }
    } else {
        assert(s.take(i) =~= s);
    }
}

proof fn lemma_digits_value_none_extends(s: Seq<char>, radix: nat, i: int)
    requires
        0 <= i <= s.len(),
        digits_value(s.take(i), radix) is None,
    ensures
        digits_value(s, radix) is None,
    decreases s.len() - i,
{
    if i < s.len() {
        let t = s.take(i + 1);
        assert(t.drop_last() =~= s.take(i));
        lemma_digits_value_none_extends(s, radix, i + 1);
    } else {
        assert(s.take(i) =~= s);
    }
}

// ---------------------------------------------------------------------------------------
// Calls into std
// ---------------------------------------------------------------------------------------

/// `String::push`: appends one character at the end.
#[verifier::external_body]
pub(crate) fn push_char(s: &mut String, c: char)
    ensures
        final(s)@ == old(s)@.push(c),
{
    s.push(c);
}

/// `String::len`: the number of bytes of the UTF-8 encoding. A `String` never holds more
/// than `isize::MAX` bytes (growing it past that panics).
#[verifier::external_body]
pub(crate) fn byte_len(s: &String) -> (result: usize)
    ensures
        result == utf8_len(s@),
        result <= isize::MAX,
{
    s.len()
}

/// `String::insert`: puts `c` at the byte position `index`, which has to be the start of
/// a character or the end (the call panics otherwise, so that is required).
#[verifier::external_body]
pub(crate) fn insert_at_byte(s: &mut String, index: usize, c: char)
    requires
        exists|k: int| 0 <= k <= old(s)@.len() && index == utf8_len(#[trigger] old(s)@.take(k)),
    ensures
        forall|k: int|
            0 <= k <= old(s)@.len() && index == utf8_len(#[trigger] old(s)@.take(k))
                ==> final(s)@ == old(s)@.take(k).push(c) + old(s)@.skip(k),
{
    s.insert(index, c);
}

/// `String::remove`: takes out the character that starts at byte position `index`, which
/// has to be the start of a character before the end (the call panics otherwise).
#[verifier::external_body]
pub(crate) fn remove_at_byte(s: &mut String, index: usize) -> (removed: char)
    requires
        exists|k: int| 0 <= k < old(s)@.len() && index == utf8_len(#[trigger] old(s)@.take(k)),
    ensures
        forall|k: int|
            0 <= k < old(s)@.len() && index == utf8_len(#[trigger] old(s)@.take(k)) ==> {
                &&& final(s)@ == old(s)@.take(k) + old(s)@.skip(k + 1)
                &&& removed == old(s)@[k]
            },
{
    s.remove(index)
}

/// The Unicode lower-case mapping of `text`, which is what `str::to_lowercase` returns; it
/// depends on the text alone, not on a locale.
pub uninterp spec fn lowercase(text: Seq<char>) -> Seq<char>;

/// `str::to_lowercase`: the result is the lower-case mapping of the argument.
#[verifier::external_body]
pub(crate) fn to_lowercase(text: &str) -> (lower: String)
    ensures
        lower@ == lowercase(text@),
{
    text.to_lowercase()
}

// ---------------------------------------------------------------------------------------
// Executable helpers
// ---------------------------------------------------------------------------------------

/// Whether `part` occurs in `text` as a run of consecutive characters (the empty run occurs
/// everywhere), as `str::contains` with a `&str` pattern tests.
pub open spec fn contains_seq(text: Seq<char>, part: Seq<char>) -> bool {
    exists|i: int| 0 <= i && i + part.len() <= text.len() && #[trigger] text.subrange(i, i + part.len()) == part
}

/// Whether `part` occurs in `text`.
pub fn contains_chars(text: &[char], part: &[char]) -> (found: bool)
    ensures
        found == contains_seq(text@, part@),
{
    if part.len() > text.len() {
        return false;
    }
    let n = text.len();
    let last = n - part.len();
    let mut i: usize = 0;
    while i <= last
        invariant
            n == text@.len(),
            last == text@.len() - part@.len(),
            0 <= i <= last + 1,
            forall|k: int| 0 <= k < i ==> #[trigger] text@.subrange(k, k + part@.len()) != part@,
        decreases last + 1 - i,
    {
        let mut j: usize = 0;
        while j < part.len() && text[i + j] == part[j]
            invariant
                i <= last,
                part@.len() <= text@.len(),
                n == text@.len(),
                last == text@.len() - part@.len(),
                0 <= j <= part@.len(),
                forall|m: int| 0 <= m < j ==> text@[i + m] == part@[m],
            decreases part@.len() - j,
        {
            j += 1;
        }
        if j == part.len() {
            assert(text@.subrange(i as int, i + part@.len()) =~= part@);
            return true;
        }
        assert(text@.subrange(i as int, i + part@.len())[j as int] != part@[j as int]);
        i += 1;
    }
    false
}

/// `char::len_utf8`.
pub fn len_utf8(c: char) -> (n: usize)
    ensures
        n == char_utf8_len(c),
{
    let v = c as u32;
    if v < 0x80 {
        1
    } else if v < 0x800 {
        2
    } else if v < 0x10000 {
        3
    } else {
        4
    }
}

/// The UTF-8 length of `chars`, or `cap` when it is larger.
pub fn utf8_len_capped(chars: &[char], cap: usize) -> (n: usize)
    requires
        cap <= 1000,
    ensures
        n == (if utf8_len(chars@) < cap {
            utf8_len(chars@)
        } else {
            cap as nat
        }),
{
    let mut total: usize = 0;
    let mut i: usize = 0;
    while i < chars.len() && total < cap
        invariant
            0 <= i <= chars@.len(),
            total == utf8_len(chars@.take(i as int)),
            cap <= 1000,
            total <= cap + 4,
        decreases chars@.len() - i,
    {
        proof {
            assert(chars@.take(i + 1).drop_last() =~= chars@.take(i as int));
        }
        total = total + len_utf8(chars[i]);
        i += 1;
    }
    proof {
        lemma_utf8_len_prefix_monotone(chars@, i as int, chars@.len() as int);
        assert(chars@.take(chars@.len() as int) =~= chars@);
    }
    if total < cap {
        total
    } else {
        cap
    }
}

/// The characters of `s`, in order.
pub fn chars_of(s: &str) -> (result: Vec<char>)
    ensures
        result@ == s@,
{
    let mut result: Vec<char> = Vec::new();
    for c in it: s.chars()
        invariant
            result@ == it.seq().take(it.index() as int),
    {
        result.push(c);
    }
    result
}

/// A `String` holding exactly the given characters.
pub fn string_of(chars: &[char]) -> (result: String)
    ensures
        result@ == chars@,
{
    let mut result = String::new();
    let mut i: usize = 0;
    while i < chars.len()
        invariant
            0 <= i <= chars@.len(),
            result@ == chars@.take(i as int),
        decreases chars@.len() - i,
    {
        push_char(&mut result, chars[i]);
        assert(chars@.take(i as int).push(chars@[i as int]) =~= chars@.take(i + 1));
        i += 1;
    }
    assert(chars@.take(chars@.len() as int) =~= chars@);
    result
}

/// The characters `chars[start..end]`.
pub fn slice_chars(chars: &[char], start: usize, end: usize) -> (result: Vec<char>)
    requires
        start <= end <= chars@.len(),
    ensures
        result@ == chars@.subrange(start as int, end as int),
{
    let mut result: Vec<char> = Vec::new();
    let mut i: usize = start;
    while i < end
        invariant
            start <= i <= end <= chars@.len(),
            result@ == chars@.subrange(start as int, i as int),
        decreases end - i,
    {
        result.push(chars[i]);
        assert(chars@.subrange(start as int, i as int).push(chars@[i as int]) =~= chars@.subrange(
            start as int,
            i + 1,
        ));
        i += 1;
    }
    result
}

/// Whether two character sequences are equal.
pub fn chars_eq(a: &[char], b: &[char]) -> (result: bool)
    ensures
        result == (a@ == b@),
{
    if a.len() != b.len() {
        return false;
    }
    let mut i: usize = 0;
    while i < a.len()
        invariant
            0 <= i <= a@.len(),
            a@.len() == b@.len(),
            forall|k: int| 0 <= k < i ==> a@[k] == b@[k],
        decreases a@.len() - i,
    {
        if a[i] != b[i] {
            return false;
        }
        i += 1;
    }
    assert(a@ =~= b@);
    true
}

/// Whether the characters are exactly those of the literal `word`.
pub fn chars_are(chars: &[char], word: &str) -> (result: bool)
    ensures
        result == (chars@ == word@),
{
    let expected = chars_of(word);
    chars_eq(chars, expected.as_slice())
}

/// `char::is_whitespace`.
pub fn is_whitespace(c: char) -> (result: bool)
    ensures
        result == is_ws(c),
{
    let v = c as u32;
    (0x09 <= v && v <= 0x0D) || v == 0x20 || v == 0x85 || v == 0xA0 || v == 0x1680 || (0x2000
        <= v && v <= 0x200A) || v == 0x2028 || v == 0x2029 || v == 0x202F || v == 0x205F || v
        == 0x3000
}

/// `char::to_ascii_lowercase`.
pub fn to_lower(c: char) -> (result: char)
    ensures
        result == lower_char(c),
{
    if 'A' <= c && c <= 'Z' {
        let v: u8 = c as u8;
        (v + 32) as char
    } else {
        c
    }
}

/// `str::to_ascii_lowercase` over characters.
pub fn lower_chars(chars: &[char]) -> (result: Vec<char>)
    ensures
        result@ == ascii_lower(chars@),
{
    let mut result: Vec<char> = Vec::new();
    let mut i: usize = 0;
    while i < chars.len()
        invariant
            0 <= i <= chars@.len(),
            result@ == ascii_lower(chars@.take(i as int)),
        decreases chars@.len() - i,
    {
        result.push(to_lower(chars[i]));
        assert(ascii_lower(chars@.take(i + 1)) =~= ascii_lower(chars@.take(i as int)).push(
            lower_char(chars@[i as int]),
        ));
        i += 1;
    }
    assert(chars@.take(chars@.len() as int) =~= chars@);
    result
}

/// `str::trim` over characters.
pub fn trim_chars(chars: &[char]) -> (result: Vec<char>)
    ensures
        result@ == trim(chars@),
{
    let len = chars.len();
    let mut start: usize = 0;
    while start < len && is_whitespace(chars[start])
        invariant
            0 <= start <= len == chars@.len(),
            forall|k: int| 0 <= k < start ==> is_ws(#[trigger] chars@[k]),
        decreases len - start,
    {
        start += 1;
    }
    proof {
        lemma_trim_start_skip(chars@, start as int);
        let rest = chars@.subrange(start as int, len as int);
        if rest.len() > 0 {
            assert(rest[0] == chars@[start as int]);
        }
        assert(trim_start(rest) == rest);
    }
    let mut end: usize = len;
    while end > start && is_whitespace(chars[end - 1])
        invariant
            start <= end <= len == chars@.len(),
            forall|k: int| end <= k < len ==> is_ws(#[trigger] chars@[k]),
        decreases end - start,
    {
        end -= 1;
    }
    proof {
        let rest = chars@.subrange(start as int, len as int);
        let j = end - start;
        assert forall|k: int| j <= k < rest.len() implies is_ws(#[trigger] rest[k]) by {
            assert(rest[k] == chars@[start + k]);
        }
        lemma_trim_end_take(rest, j);
        let kept = rest.subrange(0, j);
        assert(kept =~= chars@.subrange(start as int, end as int));
        if kept.len() > 0 {
            assert(kept.last() == chars@[end - 1]);
        }
        assert(trim_end(kept) == kept);
    }
    slice_chars(chars, start, end)
}

/// `str::trim_start_matches(ch)` over characters.
pub fn strip_leading_chars(chars: &[char], ch: char) -> (result: Vec<char>)
    ensures
        result@ == strip_leading(chars@, ch),
{
    let len = chars.len();
    let mut start: usize = 0;
    while start < len && chars[start] == ch
        invariant
            0 <= start <= len == chars@.len(),
            forall|k: int| 0 <= k < start ==> #[trigger] chars@[k] == ch,
        decreases len - start,
    {
        start += 1;
    }
    proof {
        lemma_strip_leading_skip(chars@, ch, start as int);
        let rest = chars@.subrange(start as int, len as int);
        if rest.len() > 0 {
            assert(rest[0] == chars@[start as int]);
        }
        assert(strip_leading(rest, ch) == rest);
    }
    slice_chars(chars, start, len)
}

/// `str::replace(ch, "")` over characters.
pub fn remove_all_chars(chars: &[char], ch: char) -> (result: Vec<char>)
    ensures
        result@ == remove_all(chars@, ch),
{
    let mut result: Vec<char> = Vec::new();
    let mut i: usize = 0;
    while i < chars.len()
        invariant
            0 <= i <= chars@.len(),
            result@ == remove_all(chars@.take(i as int), ch),
        decreases chars@.len() - i,
    {
        assert(chars@.take(i + 1).drop_last() =~= chars@.take(i as int));
        if chars[i] != ch {
            result.push(chars[i]);
        }
        i += 1;
    }
    assert(chars@.take(chars@.len() as int) =~= chars@);
    result
}

/// Value of one digit of base `radix`.
fn digit(c: char, radix: u32) -> (result: Option<u32>)
    requires
        2 <= radix <= 36,
    ensures
        result matches Some(d) ==> digit_value(c, radix as nat) == Some(d as nat),
        result is None ==> digit_value(c, radix as nat) is None,
{
    let v = c as u32;
    let d: u32 = if '0' <= c && c <= '9' {
        v - 48
    } else if 'a' <= c && c <= 'z' {
        v - 97 + 10
    } else if 'A' <= c && c <= 'Z' {
        v - 65 + 10
    } else {
        99
    };
    if d < radix {
        Some(d)
    } else {
        None
    }
}

/// `from_str_radix` for an unsigned type whose largest value is `max`.
pub fn parse_unsigned_chars(chars: &[char], radix: u32, max: u64) -> (result: Option<u64>)
    requires
        2 <= radix <= 36,
    ensures
        match result {
            Some(v) => parse_unsigned(chars@, radix as nat, max as nat) == Some(v as nat),
            None => parse_unsigned(chars@, radix as nat, max as nat) is None,
        },
{
    let len = chars.len();
    if len == 0 {
        return None;
    }
    let start: usize = if chars[0] == '+' {
        1
    } else {
        0
    };
    if start == len {
        return None;
    }
    let ghost digits = if chars@[0] == '+' {
        chars@.drop_first()
    } else {
        chars@
    };
    assert(digits =~= chars@.subrange(start as int, len as int));
    let mut value: u64 = 0;
    let mut i: usize = start;
    while i < len
        invariant
            2 <= radix <= 36,
            start <= i <= len == chars@.len(),
            len > 0,
            digits == (if chars@[0] == '+' {
                chars@.drop_first()
            } else {
                chars@
            }),
            digits.len() > 0,
            digits =~= chars@.subrange(start as int, len as int),
            value <= max,
            digits_value(digits.take(i - start), radix as nat) == Some(value as nat),
        decreases len - i,
    {
        let ghost before = digits.take(i - start);
        let ghost after = digits.take(i - start + 1);
        assert(after.drop_last() =~= before);
        assert(after.last() == chars@[i as int]);
        match digit(chars[i], radix) {
            None => {
                proof {
                    lemma_digits_value_none_extends(digits, radix as nat, i - start + 1);
                }
                return None;
            },
            Some(d) => {
                assert((value as u128) * (radix as u128) <= 36 * 0xffff_ffff_ffff_ffffu128)
                    by (nonlinear_arith)
                    requires
                        value <= 0xffff_ffff_ffff_ffffu64,
                        radix <= 36,
                ;
                let wide: u128 = (value as u128) * (radix as u128) + (d as u128);
                if wide > max as u128 {
                    proof {
                        lemma_digits_value_grows(digits, radix as nat, i - start + 1);
                    }
                    return None;
                }
                value = wide as u64;
            },
        }
        i += 1;
    }
    assert(digits.take(len - start) =~= digits);
    Some(value)
}

} // verus!
