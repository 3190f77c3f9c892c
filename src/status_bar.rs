//! The figures shown in the editor's status bar: the cursor's offset in
//! UTF-16 code units, the character count, the zoom level and the encoding
//! name.

use vstd::prelude::*;
use vstd::math::abs;
use crate::codec::FileEncoding;
use crate::i18n::{get_string, text_for, LanguageSetting};
use crate::line_column::{utf16_len, utf16_width};

verus! {

/// Code units covered by the first `count` characters of `s`, where a
/// `\r\n` pair counts as one character of two code units.
pub open spec fn utf16_offset_of(s: Seq<char>, count: int) -> int
    decreases s.len(),
{
    if s.len() == 0 || count <= 0 {
        0
    } else if s.len() > 1 && s[0] == '\r' && s[1] == '\n' {
        2 + utf16_offset_of(s.skip(2), count - 1)
    } else {
        utf16_width(s[0]) + utf16_offset_of(s.skip(1), count - 1)
    }
}

proof fn lemma_offset_within_len(s: Seq<char>, count: int)
    ensures
        0 <= utf16_offset_of(s, count) <= utf16_len(s),
    decreases s.len(),
{
    if s.len() > 0 {
        if s.len() > 1 && s[0] == '\r' && s[1] == '\n' {
            lemma_offset_within_len(s.skip(2), count - 1);
            assert(s.skip(1).skip(1) =~= s.skip(2));
            assert(utf16_len(s.skip(1)) == 1 + utf16_len(s.skip(1).skip(1)));
        } else {
            lemma_offset_within_len(s.skip(1), count - 1);
        }
    }
}

/// Converts a cursor position counted in characters, a `\r\n` pair being one
/// character, into an offset in UTF-16 code units.
pub fn cursor_utf16_offset(text: &str, char_pos: i32) -> (r: i32)
    requires
        utf16_len(text@) <= i32::MAX,
    ensures
        r as int == utf16_offset_of(text@, char_pos as int),
{
    let mut chars: Vec<char> = Vec::new();
    for ch in it: text.chars()
        invariant
            chars@ == it.seq().take(it.index() as int),
    {
        chars.push(ch);
    }
    assert(chars@ =~= text@);
    let n = chars.len();
    let mut pos: i32 = 0;
    let mut idx: i32 = 0;
    let mut i: usize = 0;
    while i < n && idx < char_pos
        invariant
            n == chars@.len(),
            chars@ == text@,
            0 <= i <= n,
            0 <= idx,
            utf16_len(text@) <= i32::MAX,
            pos + utf16_offset_of(chars@.skip(i as int), char_pos - idx) == utf16_offset_of(
                text@,
                char_pos as int,
            ),
            pos + utf16_len(chars@.skip(i as int)) == utf16_len(text@),
        decreases n - i,
    {
        let ghost rest = chars@.skip(i as int);
        if chars[i] == '\r' && i + 1 < n && chars[i + 1] == '\n' {
            assert(rest.skip(2) =~= chars@.skip(i + 2));
            assert(rest.skip(1).skip(1) =~= rest.skip(2));
            assert(utf16_len(rest.skip(1)) == 1 + utf16_len(rest.skip(1).skip(1)));
            proof {
                lemma_offset_within_len(rest.skip(2), 0);
            }
            i = i + 2;
            pos = pos + 2;
        } else {
            assert(rest.skip(1) =~= chars@.skip(i + 1));
            proof {
                lemma_offset_within_len(rest.skip(1), 0);
            }
            let c = chars[i];
            let width: i32 = if (c as u32) > 0xFFFF {
                2
            } else {
                1
            };
            i = i + 1;
            pos = pos + width;
        }
        idx = idx + 1;
    }
    pos
}

/// Characters of `s` as the status bar counts them: a `\r\n` pair is one,
/// a NUL is none.
pub open spec fn char_count_of(s: Seq<char>) -> int
    decreases s.len(),
{
    if s.len() == 0 {
        0
    } else if s.len() > 1 && s[0] == '\r' && s[1] == '\n' {
        1 + char_count_of(s.skip(2))
    } else if s[0] == '\0' {
        char_count_of(s.skip(1))
    } else {
        1 + char_count_of(s.skip(1))
    }
}

/// Counts the characters of `text`, a `\r\n` pair as one and a NUL as none.
pub fn count_characters(text: &str) -> (r: i32)
    requires
        text@.len() <= i32::MAX,
    ensures
        r as int == char_count_of(text@),
{
    let mut chars: Vec<char> = Vec::new();
    for ch in it: text.chars()
        invariant
            chars@ == it.seq().take(it.index() as int),
    {
        chars.push(ch);
    }
    assert(chars@ =~= text@);
    let n = chars.len();
    let mut count: i32 = 0;
    let mut i: usize = 0;
    while i < n
        invariant
            n == chars@.len(),
            chars@ == text@,
            n <= i32::MAX,
            0 <= i <= n,
            0 <= count <= i,
            count + char_count_of(chars@.skip(i as int)) == char_count_of(text@),
        decreases n - i,
    {
        let ghost rest = chars@.skip(i as int);
        if chars[i] == '\r' && i + 1 < n && chars[i + 1] == '\n' {
            assert(rest.skip(2) =~= chars@.skip(i + 2));
            i = i + 2;
            count = count + 1;
        } else {
            assert(rest.skip(1) =~= chars@.skip(i + 1));
            if chars[i] != '\0' {
                count = count + 1;
            }
            i = i + 1;
        }
    }
    count
}

/// `a / b` rounded toward zero, as integer division does.
pub open spec fn div_toward_zero(a: int, b: int) -> int {
    let q = (abs(a) / abs(b)) as int;
    if (a < 0) != (b < 0) {
        -q
    } else {
        q
    }
}

/// The zoom level in percent for the zoom ratio `numerator / denominator`,
/// rounded toward zero; 100 when the ratio is unset (`denominator` zero).
pub fn zoom_percent(numerator: i32, denominator: i32) -> (r: i32)
    requires
        i32::MIN <= numerator * 100 <= i32::MAX,
    ensures
        denominator == 0 ==> r == 100,
        denominator != 0 ==> r as int == div_toward_zero(numerator * 100, denominator as int),
{
    if denominator == 0 {
        return 100;
    }
    let scaled: i64 = numerator as i64 * 100;
    let divisor: i64 = denominator as i64;
    let magnitude: u64 = if scaled < 0 {
        (-scaled) as u64
    } else {
        scaled as u64
    };
    let divisor_magnitude: u64 = if divisor < 0 {
        (-divisor) as u64
    } else {
        divisor as u64
    };
    let q: u64 = magnitude / divisor_magnitude;
    assert(q <= magnitude) by (nonlinear_arith)
        requires
            divisor_magnitude >= 1,
            q == magnitude / divisor_magnitude,
    ;
    if (scaled < 0) != (divisor < 0) {
        -(q as i64) as i32
    } else {
        q as i32
    }
}

/// The name the status bar gives an encoding.
pub open spec fn encoding_label_of(lang: crate::i18n::Language, e: FileEncoding) -> Seq<char> {
    match e {
        FileEncoding::Utf8 => "UTF-8"@,
        FileEncoding::Utf8Bom => "UTF-8 (BOM)"@,
        FileEncoding::Utf16Le => "UTF-16 LE"@,
        FileEncoding::Utf16Be => "UTF-16 BE"@,
        FileEncoding::ShiftJis => "Shift-JIS"@,
        FileEncoding::Auto => text_for(lang, "ENCODING_AUTO"@),
    }
}

/// The name the status bar gives `encoding`, in the current language where
/// it depends on one.
pub fn encoding_label(setting: &LanguageSetting, encoding: FileEncoding) -> (r: String)
    ensures
        r@ == encoding_label_of(setting.current, encoding),
{
    match encoding {
        FileEncoding::Utf8 => "UTF-8".to_owned(),
        FileEncoding::Utf8Bom => "UTF-8 (BOM)".to_owned(),
        FileEncoding::Utf16Le => "UTF-16 LE".to_owned(),
        FileEncoding::Utf16Be => "UTF-16 BE".to_owned(),
        FileEncoding::ShiftJis => "Shift-JIS".to_owned(),
        FileEncoding::Auto => get_string(setting, "ENCODING_AUTO"),
    }
}

} // verus!
