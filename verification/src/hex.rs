//! Hex seed strings: validation and conversion to and from bytes.

use vstd::prelude::*;

verus! {

/// A hexadecimal digit, upper or lower case.
pub open spec fn is_hex_char(c: char) -> bool {
    let u = c as int;
    (48 <= u <= 57) || (97 <= u <= 102) || (65 <= u <= 70)
}

/// A well-formed seed string: exactly 64 hex digits.
pub open spec fn spec_valid_seed(s: Seq<char>) -> bool {
    s.len() == 64 && (forall|i: int| 0 <= i < s.len() ==> is_hex_char(#[trigger] s[i]))
}

fn is_hex_char_exec(c: char) -> (r: bool)
    ensures
        r == is_hex_char(c),
{
    let u = c as u32;
    (48 <= u && u <= 57) || (97 <= u && u <= 102) || (65 <= u && u <= 70)
}

/// True exactly when `seed` is 64 hex digits (either case).
pub fn validate_seed(seed: &str) -> (r: bool)
    ensures
        r == spec_valid_seed(seed@),
{
    let n = seed.unicode_len();
    if n != 64 {
        return false;
    }
    let mut i: usize = 0;
    while i < 64
        invariant
            seed@.len() == 64,
            0 <= i <= 64,
            forall|j: int| 0 <= j < i ==> is_hex_char(#[trigger] seed@[j]),
        decreases 64 - i,
    {
        if !is_hex_char_exec(seed.get_char(i)) {
            return false;
        }
        i += 1;
    }
    true
}

/// The value of a hex digit, in `0..16`.
pub open spec fn hex_val(c: char) -> int {
    let u = c as int;
    if 48 <= u <= 57 {
        u - 48
    } else if 97 <= u <= 102 {
        u - 87
    } else {
        u - 55
    }
}

/// The bytes written by a hex string: each pair of digits gives one byte,
/// high digit first.
pub open spec fn spec_hex_bytes(s: Seq<char>) -> Seq<u8> {
    Seq::new((s.len() / 2) as nat, |i: int| (16 * hex_val(s[2 * i]) + hex_val(s[2 * i + 1])) as u8)
}

fn hex_val_exec(c: char) -> (v: u8)
    requires
        is_hex_char(c),
    ensures
        v as int == hex_val(c),
        v < 16,
{
    let u = c as u32;
    if 48 <= u && u <= 57 {
        (u - 48) as u8
    } else if 97 <= u && u <= 102 {
        (u - 87) as u8
    } else {
        (u - 55) as u8
    }
}

/// Convert a validated 64-digit hex seed string to its 32 bytes. Only safe
/// on validated input: the caller must have checked `validate_seed` first.
pub fn hexstring_to_bytes(hexstring: &str) -> (r: Vec<u8>)
    requires
        spec_valid_seed(hexstring@),
    ensures
        r@ == spec_hex_bytes(hexstring@),
        r@.len() == 32,
{
    let mut r: Vec<u8> = Vec::new();
    let mut i: usize = 0;
    while i < 32
        invariant
            spec_valid_seed(hexstring@),
            0 <= i <= 32,
            r@.len() == i,
            forall|j: int| 0 <= j < i ==> r@[j] == spec_hex_bytes(hexstring@)[j],
        decreases 32 - i,
    {
        let hi = hex_val_exec(hexstring.get_char(2 * i));
        let lo = hex_val_exec(hexstring.get_char(2 * i + 1));
        r.push(16 * hi + lo);
        i += 1;
    }
    assert(r@ =~= spec_hex_bytes(hexstring@));
    r
}

/// The sixteen hex digits, upper case, in value order.
pub open spec fn hex_digits() -> Seq<char> {
    seq!['0', '1', '2', '3', '4', '5', '6', '7', '8', '9', 'A', 'B', 'C', 'D', 'E', 'F']
}

/// The hex string of a byte sequence: two digits for each byte, high digit
/// first.
pub open spec fn spec_hex_string(bs: Seq<u8>) -> Seq<char> {
    Seq::new(
        (2 * bs.len()) as nat,
        |i: int|
            if i % 2 == 0 {
                hex_digits()[bs[i / 2] as int / 16]
            } else {
                hex_digits()[bs[i / 2] as int % 16]
            },
    )
}

fn hex_digit_of(v: u8) -> (c: char)
    requires
        v < 16,
    ensures
        c == hex_digits()[v as int],
{
    match v {
        0 => '0',
        1 => '1',
        2 => '2',
        3 => '3',
        4 => '4',
        5 => '5',
        6 => '6',
        7 => '7',
        8 => '8',
        9 => '9',
        10 => 'A',
        11 => 'B',
        12 => 'C',
        13 => 'D',
        14 => 'E',
        15 => 'F',
        _ => '0',
    }
}

/// Write a byte sequence as upper-case hex, two digits per byte.
pub fn bytes_to_hexstring(bytes: &Vec<u8>) -> (r: String)
    ensures
        r@ == spec_hex_string(bytes@),
{
    let mut r = String::new();
    let n = bytes.len();
    let mut i: usize = 0;
    while i < n
        invariant
            n == bytes@.len(),
            0 <= i <= n,
            r@.len() == 2 * i,
            forall|j: int| 0 <= j < 2 * i ==> r@[j] == spec_hex_string(bytes@)[j],
        decreases n - i,
    {
        let b = bytes[i];
        r.push(hex_digit_of(b / 16));
        r.push(hex_digit_of(b % 16));
        i += 1;
    }
    assert(r@ =~= spec_hex_string(bytes@));
    r
}

/// Each hex digit is a hex character, and reading it back gives its value.
proof fn lemma_hex_digit_val(v: int)
    requires
        0 <= v < 16,
    ensures
        is_hex_char(hex_digits()[v]),
        hex_val(hex_digits()[v]) == v,
{
    let d = hex_digits();
    assert(d[0] == '0');
    assert(d[1] == '1');
    assert(d[2] == '2');
    assert(d[3] == '3');
    assert(d[4] == '4');
    assert(d[5] == '5');
    assert(d[6] == '6');
    assert(d[7] == '7');
    assert(d[8] == '8');
    assert(d[9] == '9');
    assert(d[10] == 'A');
    assert(d[11] == 'B');
    assert(d[12] == 'C');
    assert(d[13] == 'D');
    assert(d[14] == 'E');
    assert(d[15] == 'F');
}

/// Round trip: the hex string of 32 bytes is a valid seed string, and
/// converting it back gives the same bytes.
pub proof fn lemma_hex_round_trip(bs: Seq<u8>)
    requires
        bs.len() == 32,
    ensures
        spec_valid_seed(spec_hex_string(bs)),
        spec_hex_bytes(spec_hex_string(bs)) == bs,
{
    let s = spec_hex_string(bs);
    assert(s.len() == 64);
    assert forall|i: int| 0 <= i < s.len() implies is_hex_char(#[trigger] s[i]) by {
        if i % 2 == 0 {
            lemma_hex_digit_val(bs[i / 2] as int / 16);
        } else {
            lemma_hex_digit_val(bs[i / 2] as int % 16);
        }
    }
    assert forall|i: int| 0 <= i < 32 implies spec_hex_bytes(s)[i] == bs[i] by {
        assert((2 * i) % 2 == 0 && (2 * i + 1) % 2 == 1);
        assert((2 * i) / 2 == i && (2 * i + 1) / 2 == i);
        lemma_hex_digit_val(bs[i] as int / 16);
        lemma_hex_digit_val(bs[i] as int % 16);
        assert(hex_val(s[2 * i]) == bs[i] as int / 16);
        assert(hex_val(s[2 * i + 1]) == bs[i] as int % 16);
    }
    assert(spec_hex_bytes(s) =~= bs);
}

} // verus!
