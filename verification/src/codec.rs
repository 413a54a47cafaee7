//! The UUID text grammar and the byte codec.
//!
//! A UUID has two textual forms: the canonical lowercase hyphenated
//! 36-character form and the plain 32-digit form without hyphens; both are
//! accepted case-insensitively.  The binary form is exactly 16 bytes in
//! RFC 4122 byte order.  The RFC 4122 version is the high nibble of byte 6.

use vstd::prelude::*;

verus! {

/// Whether `c` is an ASCII hexadecimal digit (either case).
pub open spec fn is_hex_digit(c: char) -> bool {
    ||| '0' as u32 <= c as u32 && c as u32 <= '9' as u32
    ||| 'a' as u32 <= c as u32 && c as u32 <= 'f' as u32
    ||| 'A' as u32 <= c as u32 && c as u32 <= 'F' as u32
}

/// The numeric value of a hexadecimal digit.
pub open spec fn hex_val(c: char) -> u8 {
    if '0' as u32 <= c as u32 && c as u32 <= '9' as u32 {
        (c as u32 - '0' as u32) as u8
    } else if 'a' as u32 <= c as u32 && c as u32 <= 'f' as u32 {
        (c as u32 - 'a' as u32 + 10) as u8
    } else {
        (c as u32 - 'A' as u32 + 10) as u8
    }
}

/// The lowercase hexadecimal digit for a nibble value.
pub open spec fn hex_char_lower(v: u8) -> char {
    if v == 0 { '0' }
    else if v == 1 { '1' }
    else if v == 2 { '2' }
    else if v == 3 { '3' }
    else if v == 4 { '4' }
    else if v == 5 { '5' }
    else if v == 6 { '6' }
    else if v == 7 { '7' }
    else if v == 8 { '8' }
    else if v == 9 { '9' }
    else if v == 10 { 'a' }
    else if v == 11 { 'b' }
    else if v == 12 { 'c' }
    else if v == 13 { 'd' }
    else if v == 14 { 'e' }
    else { 'f' }
}

pub proof fn lemma_hex_char_lower_val(v: u8)
    requires
        v < 16,
    ensures
        is_hex_digit(hex_char_lower(v)),
        hex_val(hex_char_lower(v)) == v,
{
}

/// Reports the numeric value of a hexadecimal digit, or `None` for any
/// other character.
pub fn hex_digit_value(c: char) -> (r: Option<u8>)
    ensures
        r is Some <==> is_hex_digit(c),
        r matches Some(v) ==> v == hex_val(c) && v < 16,
{
    let u = c as u32;
    if 48 <= u && u <= 57 {
        Some((u - 48) as u8)
    } else if 97 <= u && u <= 102 {
        Some((u - 97 + 10) as u8)
    } else if 65 <= u && u <= 70 {
        Some((u - 65 + 10) as u8)
    } else {
        None
    }
}

/// The position within the hyphenated form of digit number `j` of the
/// plain 32-digit form: the four hyphens sit after digits 8, 12, 16 and 20.
pub open spec fn digit_pos(j: int) -> int {
    if j < 8 { j } else if j < 12 { j + 1 } else if j < 16 { j + 2 } else if j < 20 { j + 3 } else { j + 4 }
}

/// The plain form: 32 hexadecimal digits, no hyphens.
pub open spec fn is_simple_uuid_text(s: Seq<char>) -> bool {
    &&& s.len() == 32
    &&& forall|j: int| 0 <= j < 32 ==> is_hex_digit(#[trigger] s[j])
}

/// The hyphenated form: 36 characters, hyphens at positions 8, 13, 18
/// and 23, hexadecimal digits everywhere else.
pub open spec fn is_hyphenated_uuid_text(s: Seq<char>) -> bool {
    &&& s.len() == 36
    &&& s[8] == '-' && s[13] == '-' && s[18] == '-' && s[23] == '-'
    &&& forall|j: int| 0 <= j < 32 ==> is_hex_digit(s[#[trigger] digit_pos(j)])
}

/// Syntactically valid UUID text: hyphenated or plain, either case.
pub open spec fn is_uuid_text(s: Seq<char>) -> bool {
    is_hyphenated_uuid_text(s) || is_simple_uuid_text(s)
}

/// The byte named by a pair of hexadecimal digits, high digit first.
pub open spec fn byte_of_digits(hi: char, lo: char) -> u8 {
    (hex_val(hi) * 16 + hex_val(lo)) as u8
}

/// The 16 bytes named by 32 plain hexadecimal digits, big-endian.
pub open spec fn simple_uuid_bytes(s: Seq<char>) -> Seq<u8> {
    Seq::new(16, |i: int| byte_of_digits(s[2 * i], s[2 * i + 1]))
}

/// The 16 bytes named by the digits of the hyphenated form.
pub open spec fn hyphenated_uuid_bytes(s: Seq<char>) -> Seq<u8> {
    Seq::new(16, |i: int| byte_of_digits(s[digit_pos(2 * i)], s[digit_pos(2 * i + 1)]))
}

/// The 16-byte RFC 4122 encoding of valid UUID text.
pub open spec fn uuid_bytes_of(s: Seq<char>) -> Seq<u8> {
    if s.len() == 36 { hyphenated_uuid_bytes(s) } else { simple_uuid_bytes(s) }
}

/// Whether position `i` of the hyphenated form holds a hyphen.
pub open spec fn is_hyphen_pos(i: int) -> bool {
    i == 8 || i == 13 || i == 18 || i == 23
}

/// The digit number of position `i` of the hyphenated form; the inverse
/// of `digit_pos` on the non-hyphen positions.
pub open spec fn digit_index(i: int) -> int {
    if i < 8 { i } else if i < 13 { i - 1 } else if i < 18 { i - 2 } else if i < 23 { i - 3 } else { i - 4 }
}

/// Nibble number `j` (big-endian) of a 16-byte value.
pub open spec fn nibble_of(b: Seq<u8>, j: int) -> u8 {
    if j % 2 == 0 { (b[j / 2] as int / 16) as u8 } else { (b[j / 2] as int % 16) as u8 }
}

/// The canonical text of a 16-byte value: lowercase, hyphenated,
/// 36 characters.
pub open spec fn canonical_text_of(b: Seq<u8>) -> Seq<char> {
    Seq::new(36, |i: int|
        if is_hyphen_pos(i) { '-' } else { hex_char_lower(nibble_of(b, digit_index(i))) })
}

/// The RFC 4122 version field: the high nibble of byte 6.
pub open spec fn version_of(b: Seq<u8>) -> u32 {
    (b[6] as int / 16) as u32
}

/// The lowercase hexadecimal digit for a nibble value.
pub fn hex_char_of(v: u8) -> (c: char)
    requires
        v < 16,
    ensures
        c == hex_char_lower(v),
{
    if v == 0 { '0' }
    else if v == 1 { '1' }
    else if v == 2 { '2' }
    else if v == 3 { '3' }
    else if v == 4 { '4' }
    else if v == 5 { '5' }
    else if v == 6 { '6' }
    else if v == 7 { '7' }
    else if v == 8 { '8' }
    else if v == 9 { '9' }
    else if v == 10 { 'a' }
    else if v == 11 { 'b' }
    else if v == 12 { 'c' }
    else if v == 13 { 'd' }
    else if v == 14 { 'e' }
    else { 'f' }
}

/// The position within the hyphenated form of digit number `j`.
fn digit_position(j: usize) -> (p: usize)
    requires
        j < 32,
    ensures
        p == digit_pos(j as int),
{
    if j < 8 { j } else if j < 12 { j + 1 } else if j < 16 { j + 2 } else if j < 20 { j + 3 } else { j + 4 }
}

/// Parses UUID text into its 16-byte RFC 4122 encoding.  Accepts the
/// hyphenated and the plain form, either case; rejects everything else.
pub fn parse_uuid_text(s: &str) -> (r: Option<Vec<u8>>)
    ensures
        r is Some <==> is_uuid_text(s@),
        r matches Some(b) ==> b@ =~= uuid_bytes_of(s@) && b@.len() == 16,
{
    let n = s.unicode_len();
    if n == 36 {
        if s.get_char(8) != '-' || s.get_char(13) != '-' || s.get_char(18) != '-'
            || s.get_char(23) != '-' {
            return None;
        }
        let mut bytes: Vec<u8> = Vec::new();
        let mut i: usize = 0;
        while i < 16
            invariant
                i <= 16,
                s@.len() == 36,
                s@[8] == '-' && s@[13] == '-' && s@[18] == '-' && s@[23] == '-',
                bytes@.len() == i,
                forall|k: int| 0 <= k < i ==> #[trigger] bytes@[k] == byte_of_digits(
                    s@[digit_pos(2 * k)], s@[digit_pos(2 * k + 1)]),
                forall|j: int| 0 <= j < 2 * i ==> is_hex_digit(s@[#[trigger] digit_pos(j)]),
            decreases 16 - i,
        {
            let hi = match hex_digit_value(s.get_char(digit_position(2 * i))) {
                Some(v) => v,
                None => {
                    return None;
                },
            };
            let lo = match hex_digit_value(s.get_char(digit_position(2 * i + 1))) {
                Some(v) => v,
                None => {
                    return None;
                },
            };
            bytes.push(hi * 16 + lo);
            i += 1;
        }
        proof {
            assert(is_hyphenated_uuid_text(s@));
            assert(bytes@ =~= hyphenated_uuid_bytes(s@));
        }
        Some(bytes)
    } else if n == 32 {
        let mut bytes: Vec<u8> = Vec::new();
        let mut i: usize = 0;
        while i < 16
            invariant
                i <= 16,
                s@.len() == 32,
                bytes@.len() == i,
                forall|k: int| 0 <= k < i ==> #[trigger] bytes@[k] == byte_of_digits(
                    s@[2 * k], s@[2 * k + 1]),
                forall|j: int| 0 <= j < 2 * i ==> is_hex_digit(#[trigger] s@[j]),
            decreases 16 - i,
        {
            let hi = match hex_digit_value(s.get_char(2 * i)) {
                Some(v) => v,
                None => {
                    return None;
                },
            };
            let lo = match hex_digit_value(s.get_char(2 * i + 1)) {
                Some(v) => v,
                None => {
                    return None;
                },
            };
            bytes.push(hi * 16 + lo);
            i += 1;
        }
        proof {
            assert(is_simple_uuid_text(s@));
            assert(bytes@ =~= simple_uuid_bytes(s@));
        }
        Some(bytes)
    } else {
        None
    }
}

/// Relies on String::push: appends exactly the one character.
#[verifier::external_body]
fn push_char(s: &mut String, c: char)
    ensures
        final(s)@ == old(s)@.push(c),
{
    s.push(c);
}

/// Writes the canonical text of a 16-byte value: lowercase, hyphenated,
/// 36 characters.
pub fn format_uuid_text(b: &Vec<u8>) -> (r: String)
    requires
        b@.len() == 16,
    ensures
        r@ =~= canonical_text_of(b@),
        r@.len() == 36,
{
    let mut out = String::new();
    let mut i: usize = 0;
    while i < 36
        invariant
            i <= 36,
            b@.len() == 16,
            out@.len() == i,
            forall|k: int| 0 <= k < i ==> #[trigger] out@[k] == canonical_text_of(b@)[k],
        decreases 36 - i,
    {
        if i == 8 || i == 13 || i == 18 || i == 23 {
            push_char(&mut out, '-');
        } else {
            let j: usize = if i < 8 { i } else if i < 13 { i - 1 } else if i < 18 { i - 2 }
                else if i < 23 { i - 3 } else { i - 4 };
            let byte = b[j / 2];
            let nib = if j % 2 == 0 { byte / 16 } else { byte % 16 };
            proof {
                assert(j == digit_index(i as int));
                assert(nib == nibble_of(b@, j as int));
            }
            push_char(&mut out, hex_char_of(nib));
        }
        i += 1;
    }
    proof {
        assert(out@ =~= canonical_text_of(b@));
    }
    out
}

/// Reads the RFC 4122 version field of a 16-byte value.
pub fn uuid_version_of(b: &Vec<u8>) -> (v: u32)
    requires
        b@.len() == 16,
    ensures
        v == version_of(b@),
        v < 16,
{
    (b[6] / 16) as u32
}

/// The canonical text of any 16-byte value is itself valid UUID text.
pub proof fn lemma_canonical_text_valid(b: Seq<u8>)
    requires
        b.len() == 16,
    ensures
        is_hyphenated_uuid_text(canonical_text_of(b)),
        is_uuid_text(canonical_text_of(b)),
{
    let s = canonical_text_of(b);
    assert forall|j: int| 0 <= j < 32 implies is_hex_digit(s[#[trigger] digit_pos(j)]) by {
        assert(digit_index(digit_pos(j)) == j);
        assert(!is_hyphen_pos(digit_pos(j)));
        lemma_hex_char_lower_val(nibble_of(b, j));
    }
}

/// Decoding the canonical text of a 16-byte value gives back the bytes.
pub proof fn lemma_canonical_text_bytes(b: Seq<u8>)
    requires
        b.len() == 16,
    ensures
        uuid_bytes_of(canonical_text_of(b)) == b,
{
    let s = canonical_text_of(b);
    assert forall|i: int| 0 <= i < 16 implies #[trigger] hyphenated_uuid_bytes(s)[i] == b[i] by {
        assert(digit_index(digit_pos(2 * i)) == 2 * i);
        assert(digit_index(digit_pos(2 * i + 1)) == 2 * i + 1);
        assert(!is_hyphen_pos(digit_pos(2 * i)));
        assert(!is_hyphen_pos(digit_pos(2 * i + 1)));
        lemma_hex_char_lower_val(nibble_of(b, 2 * i));
        lemma_hex_char_lower_val(nibble_of(b, 2 * i + 1));
        assert(b[i] as int == 16 * (b[i] as int / 16) + b[i] as int % 16);
    }
    assert(hyphenated_uuid_bytes(s) =~= b);
}

} // verus!
