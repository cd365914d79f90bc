//! Character-level text helpers: scanning, trimming, segment extraction,
//! and rendering of decimal numbers.
//!
//! These carry the head-label fallback (reading a label out of a raw head
//! pointer file) and the number rendering that the formatter needs.

use vstd::prelude::*;

verus! {

/// ASCII whitespace, as the trimming of labels understands it.
pub open spec fn is_space(c: char) -> bool {
    c == ' ' || c == '\t' || c == '\n' || c == '\r' || c == '\u{b}' || c == '\u{c}'
}

/// Index of the first occurrence of `c` in `s`, or `s.len()` when absent.
pub open spec fn first_index_of(s: Seq<char>, c: char) -> int
    decreases s.len(),
{
    if s.len() == 0 {
        0
    } else if s[0] == c {
        0
    } else {
        1 + first_index_of(s.drop_first(), c)
    }
}

/// Index of the last occurrence of `c` in `s`, or `-1` when absent.
pub open spec fn last_index_of(s: Seq<char>, c: char) -> int
    decreases s.len(),
{
    if s.len() == 0 {
        -1
    } else if s.last() == c {
        s.len() - 1
    } else {
        last_index_of(s.drop_last(), c)
    }
}

/// Index of the first character of `s` that is not whitespace, or `s.len()`.
pub open spec fn first_non_space(s: Seq<char>) -> int
    decreases s.len(),
{
    if s.len() == 0 {
        0
    } else if !is_space(s[0]) {
        0
    } else {
        1 + first_non_space(s.drop_first())
    }
}

/// Index of the last character of `s` that is not whitespace, or `-1`.
pub open spec fn last_non_space(s: Seq<char>) -> int
    decreases s.len(),
{
    if s.len() == 0 {
        -1
    } else if !is_space(s.last()) {
        s.len() - 1
    } else {
        last_non_space(s.drop_last())
    }
}

pub proof fn lemma_first_index_of_props(s: Seq<char>, c: char)
    ensures
        0 <= first_index_of(s, c) <= s.len(),
        first_index_of(s, c) < s.len() ==> s[first_index_of(s, c)] == c,
        forall|j: int| 0 <= j < first_index_of(s, c) ==> s[j] != c,
    decreases s.len(),
{
    if s.len() > 0 && s[0] != c {
        lemma_first_index_of_props(s.drop_first(), c);
        assert forall|j: int| 0 <= j < first_index_of(s, c) implies s[j] != c by {
            if j >= 1 {
                assert(s.drop_first()[j - 1] == s[j]);
            }
        }
    }
}

pub proof fn lemma_last_index_of_props(s: Seq<char>, c: char)
    ensures
        -1 <= last_index_of(s, c) < s.len(),
        last_index_of(s, c) >= 0 ==> s[last_index_of(s, c)] == c,
        forall|j: int| last_index_of(s, c) < j < s.len() ==> s[j] != c,
    decreases s.len(),
{
    if s.len() > 0 && s.last() != c {
        lemma_last_index_of_props(s.drop_last(), c);
        assert(forall|j: int| 0 <= j < s.len() - 1 ==> s.drop_last()[j] == s[j]);
    }
}

pub proof fn lemma_first_non_space_props(s: Seq<char>)
    ensures
        0 <= first_non_space(s) <= s.len(),
        first_non_space(s) < s.len() ==> !is_space(s[first_non_space(s)]),
        forall|j: int| 0 <= j < first_non_space(s) ==> is_space(s[j]),
    decreases s.len(),
{
    if s.len() > 0 && is_space(s[0]) {
        lemma_first_non_space_props(s.drop_first());
        assert forall|j: int| 0 <= j < first_non_space(s) implies is_space(s[j]) by {
            if j >= 1 {
                assert(s.drop_first()[j - 1] == s[j]);
            }
        }
    }
}

pub proof fn lemma_last_non_space_props(s: Seq<char>)
    ensures
        -1 <= last_non_space(s) < s.len(),
        last_non_space(s) >= 0 ==> !is_space(s[last_non_space(s)]),
        forall|j: int| last_non_space(s) < j < s.len() ==> is_space(s[j]),
    decreases s.len(),
{
    if s.len() > 0 && is_space(s.last()) {
        lemma_last_non_space_props(s.drop_last());
        assert(forall|j: int| 0 <= j < s.len() - 1 ==> s.drop_last()[j] == s[j]);
    }
}

/// `s` with leading and trailing whitespace removed.
pub open spec fn spec_trimmed(s: Seq<char>) -> Seq<char> {
    if last_non_space(s) >= first_non_space(s) {
        s.subrange(first_non_space(s), last_non_space(s) + 1)
    } else {
        Seq::empty()
    }
}

/// Everything before the first newline of `s`.
pub open spec fn spec_first_line(s: Seq<char>) -> Seq<char> {
    s.take(first_index_of(s, '\n'))
}

/// Everything after the last `/` of `s`.
pub open spec fn spec_last_segment(s: Seq<char>) -> Seq<char> {
    s.subrange(last_index_of(s, '/') + 1, s.len() as int)
}

/// The label a raw head pointer file yields: the last `/`-separated
/// segment of the file's trimmed first line.
pub open spec fn spec_head_file_label(s: Seq<char>) -> Seq<char> {
    spec_last_segment(spec_trimmed(spec_first_line(s)))
}

fn char_is_space(c: char) -> (b: bool)
    ensures
        b == is_space(c),
{
    c == ' ' || c == '\t' || c == '\n' || c == '\r' || c == '\u{b}' || c == '\u{c}'
}

fn find_first_char(s: &str, c: char) -> (r: usize)
    ensures
        r == first_index_of(s@, c),
{
    proof {
        lemma_first_index_of_props(s@, c);
    }
    let n = s.unicode_len();
    let mut i: usize = 0;
    while i < n
        invariant
            n == s@.len(),
            i <= n,
            forall|j: int| 0 <= j < i ==> s@[j] != c,
            0 <= first_index_of(s@, c) <= n,
            first_index_of(s@, c) < n ==> s@[first_index_of(s@, c)] == c,
            forall|j: int| 0 <= j < first_index_of(s@, c) ==> s@[j] != c,
        decreases n - i,
    {
        if s.get_char(i) == c {
            return i;
        }
        i = i + 1;
    }
    n
}

fn find_last_char(s: &str, c: char) -> (r: Option<usize>)
    ensures
        r matches Some(i) ==> i == last_index_of(s@, c),
        r is None ==> last_index_of(s@, c) == -1,
{
    proof {
        lemma_last_index_of_props(s@, c);
    }
    let n = s.unicode_len();
    let mut i: usize = n;
    while i > 0
        invariant
            n == s@.len(),
            i <= n,
            forall|j: int| i <= j < n ==> s@[j] != c,
            -1 <= last_index_of(s@, c) < n,
            last_index_of(s@, c) >= 0 ==> s@[last_index_of(s@, c)] == c,
            forall|j: int| last_index_of(s@, c) < j < n ==> s@[j] != c,
        decreases i,
    {
        i = i - 1;
        if s.get_char(i) == c {
            return Some(i);
        }
    }
    None
}

fn find_first_non_space(s: &str) -> (r: usize)
    ensures
        r == first_non_space(s@),
{
    proof {
        lemma_first_non_space_props(s@);
    }
    let n = s.unicode_len();
    let mut i: usize = 0;
    while i < n
        invariant
            n == s@.len(),
            i <= n,
            forall|j: int| 0 <= j < i ==> is_space(s@[j]),
            0 <= first_non_space(s@) <= n,
            first_non_space(s@) < n ==> !is_space(s@[first_non_space(s@)]),
            forall|j: int| 0 <= j < first_non_space(s@) ==> is_space(s@[j]),
        decreases n - i,
    {
        if !char_is_space(s.get_char(i)) {
            return i;
        }
        i = i + 1;
    }
    n
}

fn find_last_non_space(s: &str) -> (r: Option<usize>)
    ensures
        r matches Some(i) ==> i == last_non_space(s@),
        r is None ==> last_non_space(s@) == -1,
{
    proof {
        lemma_last_non_space_props(s@);
    }
    let n = s.unicode_len();
    let mut i: usize = n;
    while i > 0
        invariant
            n == s@.len(),
            i <= n,
            forall|j: int| i <= j < n ==> is_space(s@[j]),
            -1 <= last_non_space(s@) < n,
            last_non_space(s@) >= 0 ==> !is_space(s@[last_non_space(s@)]),
            forall|j: int| last_non_space(s@) < j < n ==> is_space(s@[j]),
        decreases i,
    {
        i = i - 1;
        if !char_is_space(s.get_char(i)) {
            return Some(i);
        }
    }
    None
}

/// Take the last `/`-separated segment of `s`: all of it when it has no
/// `/`, and everything after the last `/` otherwise.
pub fn last_segment(s: &str) -> (r: String)
    ensures
        r@ == spec_last_segment(s@),
{
    proof {
        lemma_last_index_of_props(s@, '/');
    }
    let n = s.unicode_len();
    let start = match find_last_char(s, '/') {
        Some(i) => i + 1,
        None => 0,
    };
    let seg = s.substring_char(start, n);
    proof {
        assert(seg@ =~= spec_last_segment(s@));
    }
    seg.to_owned()
}

/// Label drawn from a raw head pointer file when the branch has no commits
/// yet: the last `/`-separated segment of the file's trimmed first line.
/// Only empty content yields nothing.
pub fn head_file_label(content: &str) -> (r: Option<String>)
    ensures
        r is Some <==> content@.len() > 0,
        r matches Some(l) ==> l@ == spec_head_file_label(content@),
{
    let n = content.unicode_len();
    if n == 0 {
        return None;
    }
    proof {
        lemma_first_index_of_props(content@, '\n');
    }
    let nl = find_first_char(content, '\n');
    let line = content.substring_char(0, nl);
    proof {
        assert(line@ =~= spec_first_line(content@));
        lemma_first_non_space_props(line@);
        lemma_last_non_space_props(line@);
    }
    let a = find_first_non_space(line);
    let b_opt = find_last_non_space(line);
    let trimmed = match b_opt {
        Some(b) => line.substring_char(a, b + 1),
        None => line.substring_char(0, 0),
    };
    proof {
        assert(trimmed@ =~= spec_trimmed(line@));
    }
    let seg = last_segment(trimmed);
    proof {
        assert(seg@ =~= spec_head_file_label(content@));
    }
    Some(seg)
}

/// The decimal digit character for `d`.
pub open spec fn spec_digit(d: int) -> char
    recommends
        0 <= d < 10,
{
    if d == 0 {
        '0'
    } else if d == 1 {
        '1'
    } else if d == 2 {
        '2'
    } else if d == 3 {
        '3'
    } else if d == 4 {
        '4'
    } else if d == 5 {
        '5'
    } else if d == 6 {
        '6'
    } else if d == 7 {
        '7'
    } else if d == 8 {
        '8'
    } else {
        '9'
    }
}

/// The decimal rendering of a non-negative number, most significant digit
/// first, with no leading zeros (a lone `0` for zero).
pub open spec fn spec_decimal(n: int) -> Seq<char>
    recommends
        n >= 0,
    decreases n,
{
    if n < 10 {
        seq![spec_digit(n)]
    } else {
        spec_decimal(n / 10) + seq![spec_digit(n % 10)]
    }
}

fn digit_str(d: u64) -> (r: &'static str)
    requires
        d < 10,
    ensures
        r@ == seq![spec_digit(d as int)],
{
    proof {
        reveal_strlit("0");
        reveal_strlit("1");
        reveal_strlit("2");
        reveal_strlit("3");
        reveal_strlit("4");
        reveal_strlit("5");
        reveal_strlit("6");
        reveal_strlit("7");
        reveal_strlit("8");
        reveal_strlit("9");
    }
    let r = if d == 0 {
        "0"
    } else if d == 1 {
        "1"
    } else if d == 2 {
        "2"
    } else if d == 3 {
        "3"
    } else if d == 4 {
        "4"
    } else if d == 5 {
        "5"
    } else if d == 6 {
        "6"
    } else if d == 7 {
        "7"
    } else if d == 8 {
        "8"
    } else {
        "9"
    };
    proof {
        assert(r@ =~= seq![spec_digit(d as int)]);
    }
    r
}

/// Render a number in decimal.
pub fn u64_to_string(n: u64) -> (r: String)
    ensures
        r@ == spec_decimal(n as int),
    decreases n,
{
    if n < 10 {
        digit_str(n).to_owned()
    } else {
        let prefix = u64_to_string(n / 10);
        let r = prefix.concat(digit_str(n % 10));
        proof {
            assert(r@ =~= spec_decimal(n as int));
        }
        r
    }
}

} // verus!
