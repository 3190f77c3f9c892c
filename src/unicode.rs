//! UTF-16 code units: how text maps to them, how they map to bytes in either
//! byte order, and how std converts between them and strings.

use vstd::prelude::*;
use vstd::utf8::*;

verus! {

pub open spec fn is_high_surrogate(u: u16) -> bool {
    0xD800 <= u <= 0xDBFF
}

pub open spec fn is_low_surrogate(u: u16) -> bool {
    0xDC00 <= u <= 0xDFFF
}

/// The scalar value that the surrogate pair `hi`, `lo` stands for.
pub open spec fn surrogate_pair_value(hi: u16, lo: u16) -> u32 {
    (0x10000 + (hi - 0xD800) * 0x400 + (lo - 0xDC00)) as u32
}

/// The UTF-16 code units of one character.
pub open spec fn utf16_of_char(c: char) -> Seq<u16> {
    let v = c as u32;
    if v <= 0xFFFF {
        seq![v as u16]
    } else {
        seq![(0xD800 + (v - 0x10000) / 0x400) as u16, (0xDC00 + (v - 0x10000) % 0x400) as u16]
    }
}

/// The UTF-16 code units of a text.
pub open spec fn utf16_units_of(s: Seq<char>) -> Seq<u16>
    decreases s.len(),
{
    if s.len() == 0 {
        Seq::empty()
    } else {
        utf16_of_char(s[0]) + utf16_units_of(s.skip(1))
    }
}

/// Characters of UTF-16 code units, where a surrogate that is not part of a
/// well-formed pair becomes U+FFFD.
pub open spec fn utf16_decode_lossy(u: Seq<u16>) -> Seq<char>
    decreases u.len(),
{
    if u.len() == 0 {
        Seq::empty()
    } else if u.len() >= 2 && is_high_surrogate(u[0]) && is_low_surrogate(u[1]) {
        seq![surrogate_pair_value(u[0], u[1]) as char] + utf16_decode_lossy(u.skip(2))
    } else if is_high_surrogate(u[0]) || is_low_surrogate(u[0]) {
        seq!['\u{FFFD}'] + utf16_decode_lossy(u.skip(1))
    } else {
        seq![(u[0] as u32) as char] + utf16_decode_lossy(u.skip(1))
    }
}

/// Code units read from byte pairs, low byte first; an odd last byte is dropped.
pub open spec fn units_from_le_bytes(b: Seq<u8>) -> Seq<u16> {
    Seq::new((b.len() / 2) as nat, |i: int| (b[2 * i] + 256 * b[2 * i + 1]) as u16)
}

/// Code units read from byte pairs, high byte first; an odd last byte is dropped.
pub open spec fn units_from_be_bytes(b: Seq<u8>) -> Seq<u16> {
    Seq::new((b.len() / 2) as nat, |i: int| (256 * b[2 * i] + b[2 * i + 1]) as u16)
}

/// Code units written as byte pairs, low byte first.
pub open spec fn le_bytes(u: Seq<u16>) -> Seq<u8> {
    Seq::new(
        2 * u.len(),
        |i: int|
            if i % 2 == 0 {
                (u[i / 2] % 256) as u8
            } else {
                (u[i / 2] / 256) as u8
            },
    )
}

/// Code units written as byte pairs, high byte first.
pub open spec fn be_bytes(u: Seq<u16>) -> Seq<u8> {
    Seq::new(
        2 * u.len(),
        |i: int|
            if i % 2 == 0 {
                (u[i / 2] / 256) as u8
            } else {
                (u[i / 2] % 256) as u8
            },
    )
}

/// Reading back the byte pairs of `le_bytes(u)` gives `u`.
pub proof fn lemma_le_bytes_round_trip(u: Seq<u16>)
    ensures
        units_from_le_bytes(le_bytes(u)) == u,
{
    let b = le_bytes(u);
    assert forall|i: int| 0 <= i < u.len() implies #[trigger] units_from_le_bytes(b)[i] == u[i] by {
        assert((2 * i) % 2 == 0 && (2 * i) / 2 == i);
        assert((2 * i + 1) % 2 == 1 && (2 * i + 1) / 2 == i);
    }
    assert(units_from_le_bytes(b) =~= u);
}

/// Reading back the byte pairs of `be_bytes(u)` gives `u`.
pub proof fn lemma_be_bytes_round_trip(u: Seq<u16>)
    ensures
        units_from_be_bytes(be_bytes(u)) == u,
{
    let b = be_bytes(u);
    assert forall|i: int| 0 <= i < u.len() implies #[trigger] units_from_be_bytes(b)[i] == u[i] by {
        assert((2 * i) % 2 == 0 && (2 * i) / 2 == i);
        assert((2 * i + 1) % 2 == 1 && (2 * i + 1) / 2 == i);
    }
    assert(units_from_be_bytes(b) =~= u);
}

proof fn lemma_utf16_char_round_trip(c: char, rest: Seq<u16>)
    ensures
        utf16_decode_lossy(utf16_of_char(c) + rest) == seq![c] + utf16_decode_lossy(rest),
{
    let v = c as u32;
    char_is_scalar(c);
    char_u32_cast(c, v);
    let u = utf16_of_char(c) + rest;
    if v <= 0xFFFF {
        assert(u[0] == v as u16);
        assert(u.skip(1) =~= rest);
    } else {
        let q = (v - 0x10000) / 0x400;
        let r = (v - 0x10000) % 0x400;
        assert(0 <= q <= 0x3FF && 0 <= r < 0x400 && q * 0x400 + r == v - 0x10000);
        assert(u[0] == (0xD800 + q) as u16);
        assert(u[1] == (0xDC00 + r) as u16);
        assert(surrogate_pair_value(u[0], u[1]) == v);
        assert(u.skip(2) =~= rest);
    }
}

/// Decoding the UTF-16 code units of a text gives the text back.
pub proof fn lemma_utf16_round_trip(s: Seq<char>)
    ensures
        utf16_decode_lossy(utf16_units_of(s)) == s,
    decreases s.len(),
{
    if s.len() > 0 {
        lemma_utf16_char_round_trip(s[0], utf16_units_of(s.skip(1)));
        lemma_utf16_round_trip(s.skip(1));
        assert(seq![s[0]] + s.skip(1) =~= s);
    }
}

proof fn lemma_utf16_units_push(s: Seq<char>, c: char)
    ensures
        utf16_units_of(s.push(c)) == utf16_units_of(s) + utf16_of_char(c),
    decreases s.len(),
{
    if s.len() == 0 {
        assert(seq![c].skip(1) =~= Seq::<char>::empty());
        assert(utf16_units_of(seq![c].skip(1)) == Seq::<u16>::empty());
        assert(utf16_units_of(seq![c]) =~= utf16_of_char(c));
        assert(s.push(c) =~= seq![c]);
    } else {
        assert(s.push(c).skip(1) =~= s.skip(1).push(c));
        lemma_utf16_units_push(s.skip(1), c);
        assert(utf16_units_of(s.push(c)) =~= utf16_units_of(s) + utf16_of_char(c));
    }
}

/// The text's UTF-16 code units, in order.
pub(crate) fn utf16_units(s: &str) -> (r: Vec<u16>)
    ensures
        r@ == utf16_units_of(s@),
{
    let mut r: Vec<u16> = Vec::new();
    let ghost mut done: Seq<char> = Seq::empty();
    for c in it: s.chars()
        invariant
            done == it.seq().take(it.index() as int),
            r@ == utf16_units_of(done),
    {
        proof {
            assert(it.seq().take(it.index() + 1) =~= done.push(c));
            lemma_utf16_units_push(done, c);
        }
        let v = c as u32;
        if v <= 0xFFFF {
            r.push(v as u16);
        } else {
            let offset = v - 0x10000;
            r.push((0xD800 + offset / 0x400) as u16);
            r.push((0xDC00 + offset % 0x400) as u16);
        }
        assert(r@ =~= utf16_units_of(done) + utf16_of_char(c));
        proof {
            done = done.push(c);
        }
    }
    assert(done =~= s@);
    r
}

/// Relies on `String::from_utf16_lossy`: decodes the units, replacing each
/// unpaired surrogate with U+FFFD.
#[verifier::external_body]
pub(crate) fn string_from_utf16_lossy(v: &[u16]) -> (r: String)
    ensures
        r@ == utf16_decode_lossy(v@),
{
    String::from_utf16_lossy(v)
}

/// Relies on `String::from_utf8`: succeeds exactly on well-formed UTF-8, with
/// the characters that the bytes encode.
#[verifier::external_body]
pub(crate) fn string_from_utf8(v: Vec<u8>) -> (r: Option<String>)
    ensures
        r is Some <==> valid_utf8(v@),
        r is Some ==> r->0@ == decode_utf8(v@),
{
    String::from_utf8(v).ok()
}

/// Appends `units` to `out` as byte pairs in the chosen order.
pub(crate) fn push_unit_bytes(out: &mut Vec<u8>, units: &Vec<u16>, little: bool)
    ensures
        final(out)@ == old(out)@ + if little {
            le_bytes(units@)
        } else {
            be_bytes(units@)
        },
{
    let ghost start = out@;
    let ghost pairs = if little {
        le_bytes(units@)
    } else {
        be_bytes(units@)
    };
    let mut i: usize = 0;
    while i < units.len()
        invariant
            i <= units@.len(),
            pairs == if little {
                le_bytes(units@)
            } else {
                be_bytes(units@)
            },
            pairs.len() == 2 * units@.len(),
            out@ == start + pairs.take(2 * i),
        decreases units.len() - i,
    {
        let word = units[i];
        let low = (word % 256) as u8;
        let high = (word / 256) as u8;
        if little {
            out.push(low);
            out.push(high);
        } else {
            out.push(high);
            out.push(low);
        }
        assert(pairs.take(2 * (i + 1)) =~= pairs.take(2 * i) + seq![pairs[2 * i], pairs[2 * i + 1]]);
        i = i + 1;
    }
    assert(pairs.take(2 * i) =~= pairs);
}

/// Reads the bytes of `b` from `start` on as code units in the chosen order.
pub(crate) fn units_from_bytes(b: &[u8], start: usize, little: bool) -> (r: Vec<u16>)
    requires
        start <= b@.len(),
    ensures
        r@ == if little {
            units_from_le_bytes(b@.skip(start as int))
        } else {
            units_from_be_bytes(b@.skip(start as int))
        },
{
    let ghost rest = b@.skip(start as int);
    let ghost want = if little {
        units_from_le_bytes(rest)
    } else {
        units_from_be_bytes(rest)
    };
    let count = (b.len() - start) / 2;
    let mut r: Vec<u16> = Vec::new();
    let mut i: usize = 0;
    assert(rest.len() == b@.len() - start);
    while i < count
        invariant
            count == rest.len() / 2,
            rest == b@.skip(start as int),
            start + 2 * count <= b@.len() <= usize::MAX,
            start <= b@.len(),
            want == if little {
                units_from_le_bytes(rest)
            } else {
                units_from_be_bytes(rest)
            },
            i <= count,
            r@ == want.take(i as int),
        decreases count - i,
    {
        let first = b[start + 2 * i] as u16;
        let second = b[start + 2 * i + 1] as u16;
        let unit = if little {
            first + 256 * second
        } else {
            256 * first + second
        };
        r.push(unit);
        assert(r@ =~= want.take(i + 1));
        i = i + 1;
    }
    assert(r@ =~= want);
    r
}

/// Copies the bytes of `b` from `start` on.
pub(crate) fn bytes_from(b: &[u8], start: usize) -> (r: Vec<u8>)
    requires
        start <= b@.len(),
    ensures
        r@ == b@.skip(start as int),
{
    let mut r: Vec<u8> = Vec::new();
    let mut i: usize = start;
    while i < b.len()
        invariant
            start <= i <= b@.len(),
            r@ == b@.subrange(start as int, i as int),
        decreases b.len() - i,
    {
        r.push(b[i]);
        assert(r@ =~= b@.subrange(start as int, i + 1));
        i = i + 1;
    }
    assert(r@ =~= b@.skip(start as int));
    r
}

} // verus!
