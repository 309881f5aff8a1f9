use vstd::prelude::*;
use vstd::utf8::{
    char_is_scalar, char_u32_cast, decode_utf8, encode_scalar, encode_utf8, encode_utf8_decode_utf8,
    encode_utf8_valid_utf8, has_width_1_encoding, has_width_2_encoding, has_width_3_encoding,
    leading_byte_width_1, leading_byte_width_2, leading_byte_width_3, leading_byte_width_4,
    last_continuation_byte, second_last_continuation_byte, valid_utf8,
};

use crate::chars::{chars_to_string, push_char, str_to_chars};

verus! {

/// What `String::from_utf8_lossy` makes of a byte sequence.
pub uninterp spec fn utf8_lossy(bytes: Seq<u8>) -> Seq<char>;

/// Decodes UTF-8 with `String::from_utf8_lossy`.
/// Trusted: the result is the lossy decoding of exactly these bytes (named, not spelled
/// out), and where the bytes are valid UTF-8 it is their plain decoding, as the function's
/// documentation says. How invalid sequences are replaced is not stated here.
#[verifier::external_body]
fn from_utf8_lossy(bytes: &[u8]) -> (s: String)
    ensures
        s@ == utf8_lossy(bytes@),
        valid_utf8(bytes@) ==> s@ == decode_utf8(bytes@),
{
    String::from_utf8_lossy(bytes).into_owned()
}

/// The character with the given Unicode scalar value (`char::from_u32`).
/// Trusted: for a scalar value, `char::from_u32` returns the character with that value.
#[verifier::external_body]
fn scalar_to_char(v: u32) -> (c: char)
    requires
        v < 0xD800 || (0xE000 <= v && v <= 0x10FFFF),
    ensures
        c as u32 == v,
{
    char::from_u32(v).unwrap()
}

pub open spec fn is_high_surrogate(w: u16) -> bool {
    0xD800 <= w && w < 0xDC00
}

pub open spec fn is_low_surrogate(w: u16) -> bool {
    0xDC00 <= w && w < 0xE000
}

pub open spec fn surrogate_pair_value(hi: u16, lo: u16) -> u32 {
    (0x10000 + (hi - 0xD800) * 0x400 + (lo - 0xDC00)) as u32
}

/// UTF-16 decoding in which every unit that does not take part in a valid surrogate pair
/// becomes U+FFFD.
pub open spec fn utf16_lossy(w: Seq<u16>) -> Seq<char>
    decreases w.len(),
{
    if w.len() == 0 {
        seq![]
    } else if !is_high_surrogate(w[0]) && !is_low_surrogate(w[0]) {
        seq![(w[0] as u32) as char] + utf16_lossy(w.drop_first())
    } else if is_high_surrogate(w[0]) && w.len() >= 2 && is_low_surrogate(w[1]) {
        seq![surrogate_pair_value(w[0], w[1]) as char] + utf16_lossy(w.skip(2))
    } else {
        seq!['\u{FFFD}'] + utf16_lossy(w.drop_first())
    }
}

/// The 16-bit units of `b`, two bytes each, low byte first; an odd last byte is dropped.
pub open spec fn le_units(b: Seq<u8>) -> Seq<u16> {
    Seq::new(b.len() / 2, |i: int| (b[2 * i] + 256 * b[2 * i + 1]) as u16)
}

/// The 16-bit units of `b`, two bytes each, high byte first; an odd last byte is dropped.
pub open spec fn be_units(b: Seq<u8>) -> Seq<u16> {
    Seq::new(b.len() / 2, |i: int| (256 * b[2 * i] + b[2 * i + 1]) as u16)
}

pub open spec fn has_prefix(b: Seq<u8>, p: Seq<u8>) -> bool {
    p.len() <= b.len() && b.take(p.len() as int) == p
}

/// The text that a file's bytes hold: UTF-16 when the bytes begin with a UTF-16 byte order
/// mark (little or big endian), UTF-8 otherwise, with a UTF-8 byte order mark dropped.
pub open spec fn spec_decode_text(raw: Seq<u8>) -> Seq<char> {
    if has_prefix(raw, seq![0xFFu8, 0xFEu8]) {
        utf16_lossy(le_units(raw.skip(2)))
    } else if has_prefix(raw, seq![0xFEu8, 0xFFu8]) {
        utf16_lossy(be_units(raw.skip(2)))
    } else if has_prefix(raw, seq![0xEFu8, 0xBBu8, 0xBFu8]) {
        lossy_utf8(raw.skip(3))
    } else {
        lossy_utf8(raw)
    }
}

/// UTF-8 decoding as `String::from_utf8_lossy` does it: the plain decoding of valid UTF-8,
/// and otherwise the crate's lossy result (named).
pub open spec fn lossy_utf8(b: Seq<u8>) -> Seq<char> {
    if valid_utf8(b) {
        decode_utf8(b)
    } else {
        utf8_lossy(b)
    }
}


proof fn lemma_encoding_start(s: Seq<char>)
    requires
        s.len() > 0,
    ensures
        encode_utf8(s).len() > 0,
        encode_utf8(s)[0] != 0xFFu8,
        encode_utf8(s)[0] != 0xFEu8,
        encode_utf8(s).len() >= 3 && encode_utf8(s)[0] == 0xEFu8 && encode_utf8(s)[1] == 0xBBu8
            && encode_utf8(s)[2] == 0xBFu8 ==> s[0] == '\u{FEFF}',
{
    char_is_scalar(s[0]);
    let v = s[0] as u32;
    let e = encode_scalar(v);
    let b = encode_utf8(s);
    assert(b == e + encode_utf8(s.drop_first()));
    if has_width_1_encoding(v) {
        assert(leading_byte_width_1(v) < 0x80u8) by (bit_vector)
            requires
                v <= 0x7F,
        ;
    } else if has_width_2_encoding(v) {
        assert(0xC0u8 <= leading_byte_width_2(v) && leading_byte_width_2(v) <= 0xDFu8)
            by (bit_vector);
    } else if has_width_3_encoding(v) {
        assert(0xE0u8 <= leading_byte_width_3(v) && leading_byte_width_3(v) <= 0xEFu8)
            by (bit_vector);
        assert(leading_byte_width_3(v) == 0xEFu8 && second_last_continuation_byte(v) == 0xBBu8
            && last_continuation_byte(v) == 0xBFu8 ==> v == 0xFEFFu32) by (bit_vector)
            requires
                v <= 0xFFFF,
        ;
        if b[0] == 0xEFu8 && b[1] == 0xBBu8 && b[2] == 0xBFu8 {
            assert(v == 0xFEFFu32);
            char_u32_cast(s[0], v);
            assert(('\u{FEFF}' as u32) == 0xFEFFu32);
            char_u32_cast('\u{FEFF}', 0xFEFFu32);
        }
    } else {
        assert(0xF0u8 <= leading_byte_width_4(v) && leading_byte_width_4(v) <= 0xF7u8)
            by (bit_vector);
    }
}

/// Decoding the UTF-8 bytes of a text gives the text back, unless the text begins with
/// U+FEFF, whose encoding reads as a byte order mark.
pub proof fn lemma_decode_utf8_round_trip(s: Seq<char>)
    requires
        s.len() == 0 || s[0] != '\u{FEFF}',
    ensures
        spec_decode_text(encode_utf8(s)) == s,
{
    let b = encode_utf8(s);
    encode_utf8_valid_utf8(s);
    encode_utf8_decode_utf8(s);
    if s.len() > 0 {
        lemma_encoding_start(s);
        assert(!has_prefix(b, seq![0xFFu8, 0xFEu8]) && !has_prefix(b, seq![0xFEu8, 0xFFu8])) by {
            if has_prefix(b, seq![0xFFu8, 0xFEu8]) {
                assert(b.take(2)[0] == b[0]);
            }
            if has_prefix(b, seq![0xFEu8, 0xFFu8]) {
                assert(b.take(2)[0] == b[0]);
            }
        }
        if has_prefix(b, seq![0xEFu8, 0xBBu8, 0xBFu8]) {
            assert(b.take(3)[0] == b[0] && b.take(3)[1] == b[1] && b.take(3)[2] == b[2]);
        }
    } else {
        assert(b.len() == 0);
    }
}

/// Decoding a UTF-8 byte order mark followed by the UTF-8 bytes of a text gives the text.
pub proof fn lemma_decode_utf8_bom_round_trip(s: Seq<char>)
    ensures
        spec_decode_text(seq![0xEFu8, 0xBBu8, 0xBFu8] + encode_utf8(s)) == s,
{
    let b = seq![0xEFu8, 0xBBu8, 0xBFu8] + encode_utf8(s);
    encode_utf8_valid_utf8(s);
    encode_utf8_decode_utf8(s);
    assert(b.take(3) == seq![0xEFu8, 0xBBu8, 0xBFu8]);
    assert(b.skip(3) == encode_utf8(s));
    assert(!has_prefix(b, seq![0xFFu8, 0xFEu8])) by {
        if has_prefix(b, seq![0xFFu8, 0xFEu8]) {
            assert(b.take(2)[0] == b[0]);
        }
    }
    assert(!has_prefix(b, seq![0xFEu8, 0xFFu8])) by {
        if has_prefix(b, seq![0xFEu8, 0xFFu8]) {
            assert(b.take(2)[0] == b[0]);
        }
    }
}

/// The UTF-16 units of a text: a character below U+10000 is one unit, any other a
/// surrogate pair.
pub open spec fn encode_utf16(s: Seq<char>) -> Seq<u16>
    decreases s.len(),
{
    if s.len() == 0 {
        seq![]
    } else {
        let v = s[0] as u32;
        (if v < 0x10000 {
            seq![v as u16]
        } else {
            seq![
                (0xD800 + (v - 0x10000) / 0x400) as u16,
                (0xDC00 + (v - 0x10000) % 0x400) as u16,
            ]
        }) + encode_utf16(s.drop_first())
    }
}

/// The bytes of 16-bit units, low byte first.
pub open spec fn le_bytes(w: Seq<u16>) -> Seq<u8> {
    Seq::new(
        2 * w.len(),
        |i: int|
            if i % 2 == 0 {
                (w[i / 2] % 256) as u8
            } else {
                (w[i / 2] / 256) as u8
            },
    )
}

proof fn lemma_utf16_round_trip(s: Seq<char>)
    ensures
        utf16_lossy(encode_utf16(s)) == s,
    decreases s.len(),
{
    if s.len() > 0 {
        char_is_scalar(s[0]);
        let v = s[0] as u32;
        let w = encode_utf16(s);
        let rest = encode_utf16(s.drop_first());
        lemma_utf16_round_trip(s.drop_first());
        if v < 0x10000 {
            assert(w == seq![v as u16] + rest);
            assert(w[0] == v as u16);
            assert(w.drop_first() == rest);
            char_u32_cast(s[0], v);
            assert(((w[0] as u32) as char) == s[0]);
            assert(utf16_lossy(w) == seq![s[0]] + s.drop_first());
        } else {
            let hi = (0xD800 + (v - 0x10000) / 0x400) as u16;
            let lo = (0xDC00 + (v - 0x10000) % 0x400) as u16;
            assert(w == seq![hi, lo] + rest);
            assert(w[0] == hi && w[1] == lo);
            assert(w.skip(2) == rest);
            assert(is_high_surrogate(hi) && is_low_surrogate(lo));
            assert(surrogate_pair_value(hi, lo) == v);
            char_u32_cast(s[0], v);
            assert(utf16_lossy(w) == seq![s[0]] + s.drop_first());
        }
        assert(seq![s[0]] + s.drop_first() == s);
    }
}

/// Decoding a little-endian UTF-16 byte order mark followed by the little-endian UTF-16
/// bytes of a text gives the text.
pub proof fn lemma_decode_utf16_le_round_trip(s: Seq<char>)
    ensures
        spec_decode_text(seq![0xFFu8, 0xFEu8] + le_bytes(encode_utf16(s))) == s,
{
    let w = encode_utf16(s);
    let b = seq![0xFFu8, 0xFEu8] + le_bytes(w);
    assert(b.take(2) == seq![0xFFu8, 0xFEu8]);
    assert(b.skip(2) == le_bytes(w));
    assert(le_units(le_bytes(w)) =~= w);
    lemma_utf16_round_trip(s);
}

/// The bytes of 16-bit units, high byte first.
pub open spec fn be_bytes(w: Seq<u16>) -> Seq<u8> {
    Seq::new(
        2 * w.len(),
        |i: int|
            if i % 2 == 0 {
                (w[i / 2] / 256) as u8
            } else {
                (w[i / 2] % 256) as u8
            },
    )
}

/// Decoding a big-endian UTF-16 byte order mark followed by the big-endian UTF-16 bytes of
/// a text gives the text.
pub proof fn lemma_decode_utf16_be_round_trip(s: Seq<char>)
    ensures
        spec_decode_text(seq![0xFEu8, 0xFFu8] + be_bytes(encode_utf16(s))) == s,
{
    let w = encode_utf16(s);
    let b = seq![0xFEu8, 0xFFu8] + be_bytes(w);
    assert(b.take(2) == seq![0xFEu8, 0xFFu8]);
    assert(b.skip(2) == be_bytes(w));
    assert(!has_prefix(b, seq![0xFFu8, 0xFEu8])) by {
        if has_prefix(b, seq![0xFFu8, 0xFEu8]) {
            assert(b.take(2)[0] == b[0]);
        }
    }
    assert(be_units(be_bytes(w)) =~= w);
    lemma_utf16_round_trip(s);
}

/// Decodes UTF-16 units, replacing every unit that is not part of a valid surrogate pair
/// with U+FFFD.
pub fn decode_utf16_lossy(w: &Vec<u16>) -> (s: String)
    ensures
        s@ == utf16_lossy(w@),
{
    let mut s = String::new();
    let mut i: usize = 0;
    assert(w@.skip(0) == w@);
    assert(s@ + utf16_lossy(w@) =~= utf16_lossy(w@));
    while i < w.len()
        invariant
            i <= w.len(),
            s@ + utf16_lossy(w@.skip(i as int)) == utf16_lossy(w@),
        decreases w.len() - i,
    {
        let ghost rest = w@.skip(i as int);
        let u = w[i];
        assert(rest[0] == u);
        if u < 0xD800 || u >= 0xE000 {
            let c = scalar_to_char(u as u32);
            proof {
                vstd::utf8::char_u32_cast(c, u as u32);
                assert(rest.drop_first() == w@.skip(i + 1));
            }
            push_char(&mut s, c);
            i = i + 1;
        } else if u < 0xDC00 && i + 1 < w.len() && w[i + 1] >= 0xDC00 && w[i + 1] < 0xE000 {
            let lo = w[i + 1];
            let v: u32 = 0x10000 + ((u - 0xD800) as u32) * 0x400 + ((lo - 0xDC00) as u32);
            assert(rest[1] == lo);
            assert(v == surrogate_pair_value(u, lo));
            let c = scalar_to_char(v);
            proof {
                vstd::utf8::char_u32_cast(c, v);
                assert(rest.skip(2) == w@.skip(i + 2));
            }
            push_char(&mut s, c);
            i = i + 2;
        } else {
            proof {
                assert(rest.drop_first() == w@.skip(i + 1));
            }
            push_char(&mut s, '\u{FFFD}');
            i = i + 1;
        }
        assert(s@ + utf16_lossy(w@.skip(i as int)) == utf16_lossy(w@));
    }
    assert(w@.skip(i as int).len() == 0);
    assert(s@ + utf16_lossy(w@.skip(i as int)) == s@);
    s
}

fn units_from(raw: &[u8], start: usize, little_endian: bool) -> (w: Vec<u16>)
    requires
        start <= raw@.len(),
    ensures
        little_endian ==> w@ == le_units(raw@.skip(start as int)),
        !little_endian ==> w@ == be_units(raw@.skip(start as int)),
{
    let ghost b = raw@.skip(start as int);
    let len = raw.len();
    let mut w: Vec<u16> = Vec::new();
    let mut pos: usize = start;
    while pos < len && len - pos >= 2
        invariant
            len == raw@.len(),
            start <= pos <= len,
            b == raw@.skip(start as int),
            (pos - start) % 2 == 0,
            w@.len() == (pos - start) / 2,
            little_endian ==> forall|j: int| 0 <= j < w@.len() ==> w@[j] == le_units(b)[j],
            !little_endian ==> forall|j: int| 0 <= j < w@.len() ==> w@[j] == be_units(b)[j],
        decreases len - pos,
    {
        let b0 = raw[pos];
        let b1 = raw[pos + 1];
        let ghost k = w@.len() as int;
        assert(2 * k == pos - start);
        assert(b[2 * k] == b0 && b[2 * k + 1] == b1);
        let u: u16 = if little_endian {
            (b0 as u16) + 256 * (b1 as u16)
        } else {
            256 * (b0 as u16) + (b1 as u16)
        };
        w.push(u);
        pos = pos + 2;
    }
    assert(w@.len() == b.len() / 2);
    proof {
        if little_endian {
            assert(w@ =~= le_units(b));
        } else {
            assert(w@ =~= be_units(b));
        }
    }
    w
}

fn starts_with_bytes(raw: &[u8], p: &[u8]) -> (r: bool)
    ensures
        r == has_prefix(raw@, p@),
{
    if p.len() > raw.len() {
        return false;
    }
    let mut i: usize = 0;
    while i < p.len()
        invariant
            p@.len() <= raw@.len(),
            i <= p@.len(),
            forall|j: int| 0 <= j < i ==> raw@[j] == p@[j],
        decreases p.len() - i,
    {
        if raw[i] != p[i] {
            assert(raw@.take(p@.len() as int)[i as int] != p@[i as int]);
            return false;
        }
        i = i + 1;
    }
    assert(raw@.take(p@.len() as int) =~= p@);
    true
}

fn bytes_from(raw: &[u8], start: usize) -> (r: Vec<u8>)
    requires
        start <= raw@.len(),
    ensures
        r@ == raw@.skip(start as int),
{
    let mut r: Vec<u8> = Vec::new();
    let mut i: usize = start;
    while i < raw.len()
        invariant
            start <= i <= raw@.len(),
            r@ == raw@.subrange(start as int, i as int),
        decreases raw.len() - i,
    {
        r.push(raw[i]);
        assert(raw@.subrange(start as int, i + 1) == raw@.subrange(start as int, i as int).push(
            raw@[i as int],
        ));
        i = i + 1;
    }
    assert(raw@.subrange(start as int, raw@.len() as int) == raw@.skip(start as int));
    r
}

/// Decodes the bytes of a text file: UTF-16 LE or BE after a UTF-16 byte order mark,
/// otherwise UTF-8 (a UTF-8 byte order mark is dropped); invalid data becomes U+FFFD.
pub fn decode_text(raw: &[u8]) -> (s: String)
    ensures
        s@ == spec_decode_text(raw@),
{
    let bom_le: [u8; 2] = [0xFF, 0xFE];
    let bom_be: [u8; 2] = [0xFE, 0xFF];
    let bom_utf8: [u8; 3] = [0xEF, 0xBB, 0xBF];
    assert(bom_le@ =~= seq![0xFFu8, 0xFEu8]);
    assert(bom_be@ =~= seq![0xFEu8, 0xFFu8]);
    assert(bom_utf8@ =~= seq![0xEFu8, 0xBBu8, 0xBFu8]);
    if starts_with_bytes(raw, bom_le.as_slice()) {
        let w = units_from(raw, 2, true);
        decode_utf16_lossy(&w)
    } else if starts_with_bytes(raw, bom_be.as_slice()) {
        let w = units_from(raw, 2, false);
        decode_utf16_lossy(&w)
    } else if starts_with_bytes(raw, bom_utf8.as_slice()) {
        let rest = bytes_from(raw, 3);
        from_utf8_lossy(rest.as_slice())
    } else {
        from_utf8_lossy(raw)
    }
}

} // verus!

verus! {

/// Unicode `White_Space` characters (`char::is_whitespace`).
pub open spec fn is_white_space(c: char) -> bool {
    let u = c as u32;
    (0x9 <= u && u <= 0xD) || u == 0x20 || u == 0x85 || u == 0xA0 || u == 0x1680 || (0x2000 <= u
        && u <= 0x200A) || u == 0x2028 || u == 0x2029 || u == 0x202F || u == 0x205F || u == 0x3000
}

pub open spec fn trim_start(s: Seq<char>) -> Seq<char>
    decreases s.len(),
{
    if s.len() > 0 && is_white_space(s[0]) {
        trim_start(s.drop_first())
    } else {
        s
    }
}

pub open spec fn trim_end(s: Seq<char>) -> Seq<char>
    decreases s.len(),
{
    if s.len() > 0 && is_white_space(s.last()) {
        trim_end(s.drop_last())
    } else {
        s
    }
}

/// The text without its leading and trailing white space (`str::trim`).
pub open spec fn trim(s: Seq<char>) -> Seq<char> {
    trim_end(trim_start(s))
}

pub open spec fn strip_cr(line: Seq<char>) -> Seq<char> {
    if line.len() > 0 && line.last() == '\r' {
        line.drop_last()
    } else {
        line
    }
}

/// The lines of `s`, given that the current line so far holds `cur` (`str::lines`: a line
/// ends at `\n`, a `\r` right before it is dropped, and a final line end is optional).
pub open spec fn lines_from(s: Seq<char>, cur: Seq<char>) -> Seq<Seq<char>>
    decreases s.len(),
{
    if s.len() == 0 {
        if cur.len() == 0 {
            seq![]
        } else {
            seq![cur]
        }
    } else if s[0] == '\n' {
        seq![strip_cr(cur)] + lines_from(s.drop_first(), seq![])
    } else {
        lines_from(s.drop_first(), cur.push(s[0]))
    }
}

pub open spec fn text_lines(s: Seq<char>) -> Seq<Seq<char>> {
    lines_from(s, seq![])
}

/// The lines, each trimmed, with those left empty dropped.
pub open spec fn nonblank_trimmed(ls: Seq<Seq<char>>) -> Seq<Seq<char>>
    decreases ls.len(),
{
    if ls.len() == 0 {
        seq![]
    } else if trim(ls[0]).len() == 0 {
        nonblank_trimmed(ls.drop_first())
    } else {
        seq![trim(ls[0])] + nonblank_trimmed(ls.drop_first())
    }
}

pub open spec fn strings_view(v: Seq<String>) -> Seq<Seq<char>> {
    v.map_values(|x: String| x@)
}

fn is_white_space_char(c: char) -> (r: bool)
    ensures
        r == is_white_space(c),
{
    let u = c as u32;
    (0x9 <= u && u <= 0xD) || u == 0x20 || u == 0x85 || u == 0xA0 || u == 0x1680 || (0x2000 <= u
        && u <= 0x200A) || u == 0x2028 || u == 0x2029 || u == 0x202F || u == 0x205F || u == 0x3000
}

proof fn lemma_trim_start_skip(s: Seq<char>, i: int)
    requires
        0 <= i <= s.len(),
        forall|j: int| 0 <= j < i ==> is_white_space(s[j]),
    ensures
        trim_start(s) == trim_start(s.skip(i)),
    decreases i,
{
    if i > 0 {
        assert(s.skip(1) == s.drop_first());
        lemma_trim_start_skip(s.drop_first(), i - 1);
        assert(s.drop_first().skip(i - 1) == s.skip(i));
    } else {
        assert(s.skip(0) == s);
    }
}

proof fn lemma_trim_end_take(s: Seq<char>, k: int)
    requires
        0 <= k <= s.len(),
        forall|j: int| k <= j < s.len() ==> is_white_space(s[j]),
    ensures
        trim_end(s) == trim_end(s.take(k)),
    decreases s.len() - k,
{
    if k < s.len() {
        assert(s.drop_last().take(k) == s.take(k));
        lemma_trim_end_take(s.drop_last(), k);
    } else {
        assert(s.take(k) == s);
    }
}

/// The text without its leading and trailing white space.
pub fn trim_chars(v: &Vec<char>) -> (r: Vec<char>)
    ensures
        r@ == trim(v@),
{
    let mut i: usize = 0;
    while i < v.len() && is_white_space_char(v[i])
        invariant
            i <= v.len(),
            forall|j: int| 0 <= j < i ==> is_white_space(v@[j]),
        decreases v.len() - i,
    {
        i = i + 1;
    }
    proof {
        lemma_trim_start_skip(v@, i as int);
    }
    let ghost rest = v@.skip(i as int);
    assert(rest.len() > 0 ==> !is_white_space(rest[0]));
    assert(trim_start(rest) == rest);
    let mut k: usize = v.len();
    while k > i && is_white_space_char(v[k - 1])
        invariant
            i <= k <= v.len(),
            rest == v@.skip(i as int),
            forall|j: int| k <= j < v.len() ==> is_white_space(v@[j]),
        decreases k,
    {
        k = k - 1;
    }
    proof {
        lemma_trim_end_take(rest, k - i);
        let t = rest.take(k - i);
        assert(t.len() > 0 ==> t.last() == v@[k - 1]);
        assert(trim_end(t) == t);
    }
    let mut r: Vec<char> = Vec::new();
    let mut p: usize = i;
    while p < k
        invariant
            i <= p <= k <= v.len(),
            r@ == v@.subrange(i as int, p as int),
        decreases k - p,
    {
        r.push(v[p]);
        assert(v@.subrange(i as int, p + 1) == v@.subrange(i as int, p as int).push(v@[p as int]));
        p = p + 1;
    }
    assert(r@ == rest.take(k - i));
    r
}

/// Whether the text holds nothing but white space.
pub fn is_blank(s: &str) -> (r: bool)
    ensures
        r == (trim(s@).len() == 0),
{
    let t = trim_chars(&str_to_chars(s));
    t.len() == 0
}

/// The lines of a text (`str::lines`).
pub fn split_lines(s: &str) -> (r: Vec<String>)
    ensures
        strings_view(r@) == text_lines(s@),
{
    let v = str_to_chars(s);
    let mut out: Vec<String> = Vec::new();
    let mut cur: Vec<char> = Vec::new();
    let mut i: usize = 0;
    assert(v@.skip(0) == v@);
    assert(strings_view(out@) + text_lines(v@) =~= text_lines(v@));
    while i < v.len()
        invariant
            i <= v.len(),
            strings_view(out@) + lines_from(v@.skip(i as int), cur@) == text_lines(v@),
        decreases v.len() - i,
    {
        let c = v[i];
        let ghost rest = v@.skip(i as int);
        assert(rest[0] == c);
        assert(rest.drop_first() == v@.skip(i + 1));
        if c == '\n' {
            let line = if cur.len() > 0 && cur[cur.len() - 1] == '\r' {
                let n = cur.len() - 1;
                crate::chars::take_chars(&cur, n)
            } else {
                cur.clone()
            };
            assert(cur@.len() > 0 ==> cur@.drop_last() == cur@.take(cur@.len() - 1));
            assert(line@ == strip_cr(cur@));
            let ghost before = out@;
            out.push(chars_to_string(&line));
            assert(strings_view(out@) =~= strings_view(before).push(line@));
            assert(strings_view(out@) + lines_from(v@.skip(i + 1), seq![]) =~= strings_view(before)
                + lines_from(rest, cur@));
            cur = Vec::new();
        } else {
            cur.push(c);
        }
        i = i + 1;
    }
    if cur.len() > 0 {
        let ghost before = out@;
        out.push(chars_to_string(&cur));
        assert(strings_view(out@) =~= strings_view(before).push(cur@));
    }
    assert(strings_view(out@) =~= text_lines(v@));
    out
}

/// The lines of a text, each trimmed, without those that are left empty.
pub fn nonblank_lines(s: &str) -> (r: Vec<String>)
    ensures
        strings_view(r@) == nonblank_trimmed(text_lines(s@)),
{
    let lines = split_lines(s);
    let ghost ls = strings_view(lines@);
    let mut out: Vec<String> = Vec::new();
    let mut i: usize = 0;
    assert(ls.skip(0) == ls);
    assert(strings_view(out@) + nonblank_trimmed(ls) =~= nonblank_trimmed(ls));
    while i < lines.len()
        invariant
            i <= lines.len(),
            ls == strings_view(lines@),
            strings_view(out@) + nonblank_trimmed(ls.skip(i as int)) == nonblank_trimmed(ls),
        decreases lines.len() - i,
    {
        let ghost rest = ls.skip(i as int);
        assert(rest[0] == lines@[i as int]@);
        assert(rest.drop_first() == ls.skip(i + 1));
        let t = trim_chars(&str_to_chars(lines[i].as_str()));
        if t.len() > 0 {
            let ghost before = out@;
            out.push(chars_to_string(&t));
            assert(strings_view(out@) =~= strings_view(before).push(t@));
            assert(strings_view(out@) + nonblank_trimmed(ls.skip(i + 1)) =~= strings_view(before)
                + nonblank_trimmed(rest));
        }
        i = i + 1;
    }
    assert(ls.skip(i as int).len() == 0);
    assert(strings_view(out@) =~= nonblank_trimmed(ls));
    out
}

/// The lines that are not blank, each trimmed and paired with its position among all the
/// lines, counting from `start`.
pub open spec fn numbered_nonblank(ls: Seq<Seq<char>>, start: int) -> Seq<(int, Seq<char>)>
    decreases ls.len(),
{
    if ls.len() == 0 {
        seq![]
    } else if trim(ls[0]).len() == 0 {
        numbered_nonblank(ls.drop_first(), start + 1)
    } else {
        seq![(start, trim(ls[0]))] + numbered_nonblank(ls.drop_first(), start + 1)
    }
}

pub open spec fn numbered_view(v: Seq<(usize, String)>) -> Seq<(int, Seq<char>)> {
    v.map_values(|p: (usize, String)| (p.0 as int, p.1@))
}

/// The lines of a text that are not blank, each trimmed and paired with its line number
/// (counting every line from 0, blank ones included).
pub fn numbered_nonblank_lines(s: &str) -> (r: Vec<(usize, String)>)
    ensures
        numbered_view(r@) == numbered_nonblank(text_lines(s@), 0),
{
    let lines = split_lines(s);
    let ghost ls = strings_view(lines@);
    let mut out: Vec<(usize, String)> = Vec::new();
    let mut i: usize = 0;
    assert(ls.skip(0) == ls);
    assert(numbered_view(out@) + numbered_nonblank(ls, 0) =~= numbered_nonblank(ls, 0));
    while i < lines.len()
        invariant
            i <= lines.len(),
            ls == strings_view(lines@),
            numbered_view(out@) + numbered_nonblank(ls.skip(i as int), i as int)
                == numbered_nonblank(ls, 0),
        decreases lines.len() - i,
    {
        let ghost rest = ls.skip(i as int);
        assert(rest[0] == lines@[i as int]@);
        assert(rest.drop_first() == ls.skip(i + 1));
        let t = trim_chars(&str_to_chars(lines[i].as_str()));
        if t.len() > 0 {
            let ghost before = out@;
            out.push((i, chars_to_string(&t)));
            assert(numbered_view(out@) =~= numbered_view(before).push((i as int, t@)));
            assert(numbered_view(out@) + numbered_nonblank(ls.skip(i + 1), i + 1)
                =~= numbered_view(before) + numbered_nonblank(rest, i as int));
        }
        i = i + 1;
    }
    assert(ls.skip(i as int).len() == 0);
    assert(numbered_view(out@) =~= numbered_nonblank(ls, 0));
    out
}

} // verus!
