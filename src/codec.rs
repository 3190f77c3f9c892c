//! Encoding-aware conversion between file bytes and document text: UTF-8 with
//! and without a byte order mark, UTF-16 in both byte orders, the system ANSI
//! code page, and detection of the encoding from the bytes.

use vstd::prelude::*;
use vstd::utf8::*;
use crate::unicode::{
    be_bytes, bytes_from, le_bytes, lemma_be_bytes_round_trip, lemma_le_bytes_round_trip,
    lemma_utf16_round_trip, push_unit_bytes, string_from_utf16_lossy, string_from_utf8,
    units_from_be_bytes, units_from_bytes, units_from_le_bytes, utf16_decode_lossy, utf16_units,
    utf16_units_of,
};

verus! {

/// The encoding a file is read or written in. `Auto` asks for detection on
/// read and means UTF-8 on write.
#[derive(Clone, Copy, Debug, PartialEq, Eq, Structural)]
pub enum FileEncoding {
    Utf8,
    Utf8Bom,
    Utf16Le,
    Utf16Be,
    ShiftJis,
    Auto,
}

/// Why bytes could not be read as text.
#[derive(Clone, Copy, Debug, PartialEq, Eq, Structural)]
pub enum DecodeError {
    /// The bytes are not well-formed UTF-8.
    InvalidSequence,
}

/// What decoding file bytes resolved to.
#[derive(Debug)]
pub enum Decoded {
    /// The document text and the concrete encoding it was read in.
    Text(String, FileEncoding),
    /// The bytes are in the system ANSI code page. Converting them belongs to
    /// the host; `decode_code_page_units` finishes the job.
    SystemCodePage,
}

/// Mathematical view of `Decoded`.
pub enum DecodedView {
    Text(Seq<char>, FileEncoding),
    SystemCodePage,
}

impl View for Decoded {
    type V = DecodedView;

    open spec fn view(&self) -> DecodedView {
        match self {
            Decoded::Text(s, e) => DecodedView::Text(s@, *e),
            Decoded::SystemCodePage => DecodedView::SystemCodePage,
        }
    }
}

/// The UTF-8 byte order mark.
pub open spec fn utf8_bom() -> Seq<u8> {
    seq![0xEFu8, 0xBBu8, 0xBFu8]
}

/// The UTF-16 little-endian byte order mark.
pub open spec fn utf16_le_bom() -> Seq<u8> {
    seq![0xFFu8, 0xFEu8]
}

/// The UTF-16 big-endian byte order mark.
pub open spec fn utf16_be_bom() -> Seq<u8> {
    seq![0xFEu8, 0xFFu8]
}

/// Whether `b` starts with `p`.
pub open spec fn has_prefix(b: Seq<u8>, p: Seq<u8>) -> bool {
    p.len() <= b.len() && b.take(p.len() as int) == p
}

/// `b` without the leading `p`, if it starts with it.
pub open spec fn strip_prefix(b: Seq<u8>, p: Seq<u8>) -> Seq<u8> {
    if has_prefix(b, p) {
        b.skip(p.len() as int)
    } else {
        b
    }
}

/// UTF-16 text as read in little-endian (`little`) or big-endian byte order:
/// the bytes decoded in pairs, a trailing odd byte dropped, invalid units replaced.
pub open spec fn utf16_text(b: Seq<u8>, little: bool) -> Seq<char> {
    if little {
        utf16_decode_lossy(units_from_le_bytes(b))
    } else {
        utf16_decode_lossy(units_from_be_bytes(b))
    }
}

/// What reading the bytes `b` with the requested encoding yields.
pub open spec fn decode_spec(b: Seq<u8>, requested: FileEncoding) -> Result<DecodedView, DecodeError> {
    match requested {
        FileEncoding::Utf8 => if valid_utf8(b) {
            Ok(DecodedView::Text(decode_utf8(b), FileEncoding::Utf8))
        } else {
            Err(DecodeError::InvalidSequence)
        },
        FileEncoding::Utf8Bom => {
            let body = strip_prefix(b, utf8_bom());
            if valid_utf8(body) {
                Ok(DecodedView::Text(decode_utf8(body), FileEncoding::Utf8Bom))
            } else {
                Err(DecodeError::InvalidSequence)
            }
        },
        FileEncoding::Utf16Le => Ok(
            DecodedView::Text(
                utf16_text(strip_prefix(b, utf16_le_bom()), true),
                FileEncoding::Utf16Le,
            ),
        ),
        FileEncoding::Utf16Be => Ok(
            DecodedView::Text(
                utf16_text(strip_prefix(b, utf16_be_bom()), false),
                FileEncoding::Utf16Be,
            ),
        ),
        FileEncoding::ShiftJis => Ok(DecodedView::SystemCodePage),
        FileEncoding::Auto => detect_spec(b),
    }
}

/// Detection order: UTF-16 LE mark, UTF-16 BE mark, UTF-8 mark followed by
/// valid UTF-8, valid UTF-8, and the system code page for anything else.
/// Detection never fails.
pub open spec fn detect_spec(b: Seq<u8>) -> Result<DecodedView, DecodeError> {
    if has_prefix(b, utf16_le_bom()) {
        Ok(DecodedView::Text(utf16_text(b.skip(2), true), FileEncoding::Utf16Le))
    } else if has_prefix(b, utf16_be_bom()) {
        Ok(DecodedView::Text(utf16_text(b.skip(2), false), FileEncoding::Utf16Be))
    } else if has_prefix(b, utf8_bom()) && valid_utf8(b.skip(3)) {
        Ok(DecodedView::Text(decode_utf8(b.skip(3)), FileEncoding::Utf8Bom))
    } else if valid_utf8(b) {
        Ok(DecodedView::Text(decode_utf8(b), FileEncoding::Utf8))
    } else {
        Ok(DecodedView::SystemCodePage)
    }
}

/// The bytes written for the text `s` in the encoding `e`; `None` for the
/// system code page, whose conversion belongs to the host.
pub open spec fn encode_spec(s: Seq<char>, e: FileEncoding) -> Option<Seq<u8>> {
    match e {
        FileEncoding::Utf8 | FileEncoding::Auto => Some(encode_utf8(s)),
        FileEncoding::Utf8Bom => Some(utf8_bom() + encode_utf8(s)),
        FileEncoding::Utf16Le => Some(utf16_le_bom() + le_bytes(utf16_units_of(s))),
        FileEncoding::Utf16Be => Some(utf16_be_bom() + be_bytes(utf16_units_of(s))),
        FileEncoding::ShiftJis => None,
    }
}

/// The view of a decoding result.
pub open spec fn decoded_view(r: Result<Decoded, DecodeError>) -> Result<DecodedView, DecodeError> {
    match r {
        Ok(d) => Ok(d@),
        Err(e) => Err(e),
    }
}

fn starts_with_utf8_bom(b: &[u8]) -> (r: bool)
    ensures
        r == has_prefix(b@, utf8_bom()),
{
    let r = b.len() >= 3 && b[0] == 0xEF && b[1] == 0xBB && b[2] == 0xBF;
    if r {
        assert(b@.take(3) =~= utf8_bom());
    } else if b.len() >= 3 {
        assert(b@.take(3)[0] == b@[0] && b@.take(3)[1] == b@[1] && b@.take(3)[2] == b@[2]);
    }
    r
}

fn starts_with_utf16_le_bom(b: &[u8]) -> (r: bool)
    ensures
        r == has_prefix(b@, utf16_le_bom()),
{
    let r = b.len() >= 2 && b[0] == 0xFF && b[1] == 0xFE;
    if r {
        assert(b@.take(2) =~= utf16_le_bom());
    } else if b.len() >= 2 {
        assert(b@.take(2)[0] == b@[0] && b@.take(2)[1] == b@[1]);
    }
    r
}

fn starts_with_utf16_be_bom(b: &[u8]) -> (r: bool)
    ensures
        r == has_prefix(b@, utf16_be_bom()),
{
    let r = b.len() >= 2 && b[0] == 0xFE && b[1] == 0xFF;
    if r {
        assert(b@.take(2) =~= utf16_be_bom());
    } else if b.len() >= 2 {
        assert(b@.take(2)[0] == b@[0] && b@.take(2)[1] == b@[1]);
    }
    r
}

/// Strict UTF-8 reading of the bytes from `start` on, labelled `tag`.
fn utf8_text_from(b: &[u8], start: usize, tag: FileEncoding) -> (r: Result<Decoded, DecodeError>)
    requires
        start <= b@.len(),
    ensures
        decoded_view(r) == if valid_utf8(b@.skip(start as int)) {
            Ok(DecodedView::Text(decode_utf8(b@.skip(start as int)), tag))
        } else {
            Err(DecodeError::InvalidSequence)
        },
{
    match string_from_utf8(bytes_from(b, start)) {
        Some(text) => Ok(Decoded::Text(text, tag)),
        None => Err(DecodeError::InvalidSequence),
    }
}

/// Permissive UTF-16 reading of the bytes from `start` on.
fn utf16_text_from(b: &[u8], start: usize, little: bool) -> (r: String)
    requires
        start <= b@.len(),
    ensures
        r@ == utf16_text(b@.skip(start as int), little),
{
    let units = units_from_bytes(b, start, little);
    string_from_utf16_lossy(units.as_slice())
}

/// Detects the encoding of `b` and reads it.
fn detect_and_decode(b: &[u8]) -> (r: Result<Decoded, DecodeError>)
    ensures
        decoded_view(r) == detect_spec(b@),
{
    if starts_with_utf16_le_bom(b) {
        Ok(Decoded::Text(utf16_text_from(b, 2, true), FileEncoding::Utf16Le))
    } else if starts_with_utf16_be_bom(b) {
        Ok(Decoded::Text(utf16_text_from(b, 2, false), FileEncoding::Utf16Be))
    } else {
        if starts_with_utf8_bom(b) {
            if let Ok(d) = utf8_text_from(b, 3, FileEncoding::Utf8Bom) {
                return Ok(d);
            }
        }
        match utf8_text_from(b, 0, FileEncoding::Utf8) {
            Ok(d) => Ok(d),
            Err(_) => {
                assert(b@.skip(0) == b@);
                Ok(Decoded::SystemCodePage)
            },
        }
    }
}

/// Reads file bytes as text in the requested encoding. UTF-8 (with or without
/// a mark) is read strictly and fails on malformed bytes; UTF-16 is read
/// permissively; the system code page is left to the host; `Auto` detects.
pub fn decode_content(bytes: &[u8], requested: FileEncoding) -> (r: Result<Decoded, DecodeError>)
    ensures
        decoded_view(r) == decode_spec(bytes@, requested),
{
    assert(bytes@.skip(0) == bytes@);
    match requested {
        FileEncoding::Utf8 => utf8_text_from(bytes, 0, FileEncoding::Utf8),
        FileEncoding::Utf8Bom => {
            let start: usize = if starts_with_utf8_bom(bytes) {
                3
            } else {
                0
            };
            utf8_text_from(bytes, start, FileEncoding::Utf8Bom)
        },
        FileEncoding::Utf16Le => {
            let start: usize = if starts_with_utf16_le_bom(bytes) {
                2
            } else {
                0
            };
            Ok(Decoded::Text(utf16_text_from(bytes, start, true), FileEncoding::Utf16Le))
        },
        FileEncoding::Utf16Be => {
            let start: usize = if starts_with_utf16_be_bom(bytes) {
                2
            } else {
                0
            };
            Ok(Decoded::Text(utf16_text_from(bytes, start, false), FileEncoding::Utf16Be))
        },
        FileEncoding::ShiftJis => Ok(Decoded::SystemCodePage),
        FileEncoding::Auto => detect_and_decode(bytes),
    }
}

/// Finishes reading a file in the system code page, from the UTF-16 code
/// units that the host's conversion produced (none when it produced nothing).
/// Unpaired surrogates become U+FFFD; the encoding is reported as `ShiftJis`.
pub fn decode_code_page_units(units: &[u16]) -> (r: Decoded)
    ensures
        r@ == DecodedView::Text(utf16_decode_lossy(units@), FileEncoding::ShiftJis),
{
    Decoded::Text(string_from_utf16_lossy(units), FileEncoding::ShiftJis)
}

/// The bytes to write for `content` in `encoding`: UTF-8 (also for `Auto`),
/// UTF-8 after the mark `EF BB BF`, or UTF-16 after the mark `FF FE` (little
/// endian) or `FE FF` (big endian). `None` for `ShiftJis`, whose conversion
/// belongs to the host.
pub fn encode_content(content: &str, encoding: FileEncoding) -> (r: Option<Vec<u8>>)
    ensures
        r is Some <==> encode_spec(content@, encoding) is Some,
        r is Some ==> r->0@ == encode_spec(content@, encoding)->0,
{
    match encoding {
        FileEncoding::Utf8 | FileEncoding::Auto => {
            let mut out: Vec<u8> = Vec::new();
            out.extend_from_slice(content.as_bytes());
            assert(out@ =~= encode_utf8(content@));
            Some(out)
        },
        FileEncoding::Utf8Bom => {
            let mut out: Vec<u8> = vec![0xEF, 0xBB, 0xBF];
            out.extend_from_slice(content.as_bytes());
            assert(out@ =~= utf8_bom() + encode_utf8(content@));
            Some(out)
        },
        FileEncoding::Utf16Le => {
            let mut out: Vec<u8> = vec![0xFF, 0xFE];
            assert(out@ =~= utf16_le_bom());
            push_unit_bytes(&mut out, &utf16_units(content), true);
            Some(out)
        },
        FileEncoding::Utf16Be => {
            let mut out: Vec<u8> = vec![0xFE, 0xFF];
            assert(out@ =~= utf16_be_bom());
            push_unit_bytes(&mut out, &utf16_units(content), false);
            Some(out)
        },
        FileEncoding::ShiftJis => None,
    }
}

/// Writing a text in UTF-8 (with or without the mark) or in UTF-16 of either
/// byte order, and reading the bytes back in the same encoding, gives the
/// same text and reports that encoding.
pub proof fn lemma_save_then_load_round_trips(s: Seq<char>, e: FileEncoding)
    requires
        e == FileEncoding::Utf8 || e == FileEncoding::Utf8Bom || e == FileEncoding::Utf16Le || e
            == FileEncoding::Utf16Be,
    ensures
        encode_spec(s, e) is Some,
        decode_spec(encode_spec(s, e)->0, e) == Ok::<DecodedView, DecodeError>(
            DecodedView::Text(s, e),
        ),
{
    encode_utf8_valid_utf8(s);
    encode_utf8_decode_utf8(s);
    lemma_utf16_round_trip(s);
    let b = encode_spec(s, e)->0;
    match e {
        FileEncoding::Utf8Bom => {
            assert(b.take(3) =~= utf8_bom());
            assert(b.skip(3) =~= encode_utf8(s));
        },
        FileEncoding::Utf16Le => {
            lemma_le_bytes_round_trip(utf16_units_of(s));
            assert(b.take(2) =~= utf16_le_bom());
            assert(b.skip(2) =~= le_bytes(utf16_units_of(s)));
        },
        FileEncoding::Utf16Be => {
            lemma_be_bytes_round_trip(utf16_units_of(s));
            assert(b.take(2) =~= utf16_be_bom());
            assert(b.skip(2) =~= be_bytes(utf16_units_of(s)));
        },
        _ => {},
    }
}

/// Text written as UTF-16 little endian and read back with detection is
/// recognised as UTF-16 little endian and comes back unchanged.
pub proof fn lemma_detects_saved_utf16_le(s: Seq<char>)
    ensures
        decode_spec(encode_spec(s, FileEncoding::Utf16Le)->0, FileEncoding::Auto) == Ok::<
            DecodedView,
            DecodeError,
        >(DecodedView::Text(s, FileEncoding::Utf16Le)),
{
    lemma_save_then_load_round_trips(s, FileEncoding::Utf16Le);
    let b = encode_spec(s, FileEncoding::Utf16Le)->0;
    assert(b.take(2) =~= utf16_le_bom());
}

/// Reading with detection never fails, whatever the bytes.
pub proof fn lemma_detection_never_fails(b: Seq<u8>)
    ensures
        decode_spec(b, FileEncoding::Auto) is Ok,
{
}

/// Bytes that are not well-formed UTF-8 fail a UTF-8 read, but are read with
/// detection; when they start with no UTF-16 mark, detection hands them to
/// the system code page.
pub proof fn lemma_malformed_utf8_fails_strict_read_only(b: Seq<u8>)
    requires
        !valid_utf8(b),
    ensures
        decode_spec(b, FileEncoding::Utf8) == Err::<DecodedView, DecodeError>(
            DecodeError::InvalidSequence,
        ),
        decode_spec(b, FileEncoding::Auto) is Ok,
        !has_prefix(b, utf16_le_bom()) && !has_prefix(b, utf16_be_bom()) ==> decode_spec(
            b,
            FileEncoding::Auto,
        ) == Ok::<DecodedView, DecodeError>(DecodedView::SystemCodePage),
{
    if has_prefix(b, utf8_bom()) && valid_utf8(b.skip(3)) {
        lemma_utf8_bom_is_valid();
        valid_utf8_concat(utf8_bom(), b.skip(3));
        assert(utf8_bom() + b.skip(3) =~= b);
    }
}

proof fn lemma_utf8_bom_is_valid()
    ensures
        valid_utf8(utf8_bom()),
{
    let m = utf8_bom();
    assert(((0xEFu8 & 0x0F) as u32) << 12 | ((0xBBu8 & 0x3f) as u32) << 6 | ((0xBFu8 & 0x3f) as u32)
        == 0xFEFF) by (bit_vector);
    assert(decode_first_codepoint(m) == 0xFEFF);
    assert(valid_first_scalar(m));
    assert(pop_first_scalar(m) =~= Seq::<u8>::empty());
    assert(valid_utf8(pop_first_scalar(m)));
}

} // verus!
