//! Conversion of a cursor offset, counted in UTF-16 code units, into a
//! 1-based (line, column) pair.

use vstd::prelude::*;

verus! {

/// Number of UTF-16 code units that encode `c`.
pub open spec fn utf16_width(c: char) -> int {
    if (c as u32) > 0xFFFF {
        2
    } else {
        1
    }
}

/// Number of UTF-16 code units of `s`.
pub open spec fn utf16_len(s: Seq<char>) -> int
    decreases s.len(),
{
    if s.len() == 0 {
        0
    } else {
        utf16_width(s[0]) + utf16_len(s.skip(1))
    }
}

/// Walks `s` with `budget` code units left before the cursor, starting from
/// the counters `line` and `col`, and yields the counters where the walk stops.
///
/// A `\r\n` pair is one break; a lone `\r` or `\n` is a break too. A NUL
/// character takes up code units but no column.
pub open spec fn walk(s: Seq<char>, budget: int, line: int, col: int) -> (int, int)
    decreases s.len(),
{
    if s.len() == 0 || budget <= 0 {
        (line, col)
    } else if s[0] == '\r' {
        if s.len() > 1 && s[1] == '\n' {
            walk(s.skip(2), budget - 2, line + 1, 1)
        } else {
            walk(s.skip(1), budget - 1, line + 1, 1)
        }
    } else if s[0] == '\n' {
        walk(s.skip(1), budget - 1, line + 1, 1)
    } else if s[0] == '\0' {
        walk(s.skip(1), budget - 1, line, col)
    } else {
        walk(s.skip(1), budget - utf16_width(s[0]), line, col + 1)
    }
}

/// The (line, column) of the cursor `cursor` code units into `s`.
pub open spec fn line_column_of(s: Seq<char>, cursor: int) -> (int, int) {
    walk(s, cursor, 1, 1)
}

/// Converts the cursor offset `cursor_pos` (in UTF-16 code units) into a
/// 1-based (line, column) pair. An offset past the end of the text gives the
/// position at the end of the text.
pub fn calculate_line_column(text: &str, cursor_pos: i32) -> (r: (i32, i32))
    requires
        text@.len() < i32::MAX,
    ensures
        (r.0 as int, r.1 as int) == line_column_of(text@, cursor_pos as int),
        r.0 >= 1,
        r.1 >= 1,
{
    let mut chars: Vec<char> = Vec::new();
    for ch in it: text.chars()
        invariant
            chars@ == it.seq().take(it.index() as int),
    {
        chars.push(ch);
    }
    assert(chars@ =~= text@);

    let n = chars.len();
    let target = cursor_pos as i64;
    let mut line: i32 = 1;
    let mut col: i32 = 1;
    let mut pos: i64 = 0;
    let mut i: usize = 0;
    while i < n && pos < target
        invariant
            n == chars@.len(),
            chars@ == text@,
            n < i32::MAX,
            target == cursor_pos as int,
            0 <= i <= n,
            0 <= pos <= 2 * i,
            1 <= line <= i + 1,
            1 <= col <= i + 1,
            walk(chars@.skip(i as int), target - pos, line as int, col as int)
                == line_column_of(text@, cursor_pos as int),
        decreases n - i,
    {
        let ghost rest = chars@.skip(i as int);
        let ch = chars[i];
        if ch == '\r' {
            if i + 1 < n && chars[i + 1] == '\n' {
                assert(rest.skip(2) =~= chars@.skip(i + 2));
                i = i + 2;
                pos = pos + 2;
            } else {
                assert(rest.skip(1) =~= chars@.skip(i + 1));
                i = i + 1;
                pos = pos + 1;
            }
            line = line + 1;
            col = 1;
        } else if ch == '\n' {
            assert(rest.skip(1) =~= chars@.skip(i + 1));
            i = i + 1;
            pos = pos + 1;
            line = line + 1;
            col = 1;
        } else if ch == '\0' {
            assert(rest.skip(1) =~= chars@.skip(i + 1));
            i = i + 1;
            pos = pos + 1;
        } else {
            assert(rest.skip(1) =~= chars@.skip(i + 1));
            let width: i64 = if (ch as u32) > 0xFFFF {
                2
            } else {
                1
            };
            i = i + 1;
            pos = pos + width;
            col = col + 1;
        }
    }
    (line, col)
}

/// True when `s` holds no line break, no NUL and no character outside the
/// Basic Multilingual Plane, so that each code unit is one column.
pub open spec fn is_plain_single_line(s: Seq<char>) -> bool {
    forall|i: int|
        0 <= i < s.len() ==> s[i] != '\r' && s[i] != '\n' && s[i] != '\0' && (s[i] as u32)
            <= 0xFFFF
}

/// The cursor at offset zero is at line 1, column 1, whatever the text.
pub proof fn lemma_offset_zero_is_first_line_first_column(s: Seq<char>)
    ensures
        line_column_of(s, 0) == (1int, 1int),
{
}

proof fn lemma_walk_plain_line(s: Seq<char>, budget: int, col: int)
    requires
        is_plain_single_line(s),
        0 <= budget <= s.len(),
    ensures
        walk(s, budget, 1, col) == (1int, col + budget),
    decreases s.len(),
{
    if budget > 0 {
        assert(is_plain_single_line(s.skip(1)));
        lemma_walk_plain_line(s.skip(1), budget - 1, col + 1);
    }
}

/// On a single plain line, the cursor `k` code units in stands on line 1,
/// column `k + 1`.
pub proof fn lemma_plain_line_column_follows_offset(s: Seq<char>, k: int)
    requires
        is_plain_single_line(s),
        0 <= k <= s.len(),
    ensures
        line_column_of(s, k) == (1int, k + 1),
{
    lemma_walk_plain_line(s, k, 1);
}

proof fn lemma_utf16_len_nonneg(s: Seq<char>)
    ensures
        utf16_len(s) >= 0,
    decreases s.len(),
{
    if s.len() > 0 {
        lemma_utf16_len_nonneg(s.skip(1));
    }
}

proof fn lemma_walk_past_end(s: Seq<char>, b1: int, b2: int, line: int, col: int)
    requires
        b1 >= utf16_len(s),
        b2 >= utf16_len(s),
    ensures
        walk(s, b1, line, col) == walk(s, b2, line, col),
    decreases s.len(),
{
    if s.len() > 0 {
        lemma_utf16_len_nonneg(s.skip(1));
        if s[0] == '\r' && s.len() > 1 && s[1] == '\n' {
            assert(s.skip(1).skip(1) =~= s.skip(2));
            assert(utf16_len(s.skip(1)) == 1 + utf16_len(s.skip(2)));
            lemma_walk_past_end(s.skip(2), b1 - 2, b2 - 2, line + 1, 1);
        } else if s[0] == '\r' || s[0] == '\n' {
            lemma_walk_past_end(s.skip(1), b1 - 1, b2 - 1, line + 1, 1);
        } else if s[0] == '\0' {
            lemma_walk_past_end(s.skip(1), b1 - 1, b2 - 1, line, col);
        } else {
            lemma_walk_past_end(s.skip(1), b1 - utf16_width(s[0]), b2 - utf16_width(s[0]), line, col + 1);
        }
    }
}

/// An offset at or past the end of the text gives the position at the end of
/// the text.
pub proof fn lemma_offset_past_end_is_end_of_text(s: Seq<char>, k: int)
    requires
        k >= utf16_len(s),
    ensures
        line_column_of(s, k) == line_column_of(s, utf16_len(s)),
{
    lemma_walk_past_end(s, k, utf16_len(s), 1, 1);
}

proof fn lemma_walk_without_breaks(s: Seq<char>, budget: int, col: int)
    requires
        forall|i: int| 0 <= i < s.len() ==> s[i] != '\r' && s[i] != '\n',
    ensures
        walk(s, budget, 1, col).0 == 1,
    decreases s.len(),
{
    if s.len() > 0 && budget > 0 {
        if s[0] == '\0' {
            lemma_walk_without_breaks(s.skip(1), budget - 1, col);
        } else {
            lemma_walk_without_breaks(s.skip(1), budget - utf16_width(s[0]), col + 1);
        }
    }
}

/// In a text without line breaks every offset is on line 1.
pub proof fn lemma_no_breaks_stays_on_first_line(s: Seq<char>, k: int)
    requires
        forall|i: int| 0 <= i < s.len() ==> s[i] != '\r' && s[i] != '\n',
    ensures
        line_column_of(s, k).0 == 1,
{
    lemma_walk_without_breaks(s, k, 1);
}

/// The position depends on the text and the offset alone: two calls with the
/// same arguments give the same result.
pub proof fn lemma_line_column_is_deterministic(s: Seq<char>, t: Seq<char>, p: int, q: int)
    requires
        s == t,
        p == q,
    ensures
        line_column_of(s, p) == line_column_of(t, q),
{
}

} // verus!
