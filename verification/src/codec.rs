//! The base-32 codec used by the address format: a bit sequence whose length
//! is a multiple of five is split into 5-bit groups, most significant bit
//! first, and each group is mapped through a fixed 32-symbol alphabet.

use vstd::prelude::*;

verus! {

/// Relies on String::push: appends one character at the end of the string.
pub assume_specification[ String::push ](s: &mut String, c: char)
    ensures
        final(s)@ == old(s)@.push(c),
;

/// The 32-symbol alphabet, in order: the 5-bit value `v` is written as
/// `alphabet()[v]`.
pub open spec fn alphabet() -> Seq<char> {
    seq![
        '1', '3', '4', '5', '6', '7', '8', '9',
        'a', 'b', 'c', 'd', 'e', 'f', 'g', 'h',
        'i', 'j', 'k', 'm', 'n', 'o', 'p', 'q',
        'r', 's', 't', 'u', 'w', 'x', 'y', 'z',
    ]
}

/// A character of the 32-symbol alphabet: `1`, `3`-`9`, or a lowercase letter
/// other than `l` and `v`.
pub open spec fn is_b32_char(c: char) -> bool {
    let u = c as int;
    u == 49 || (51 <= u <= 57) || (97 <= u <= 122 && u != 108 && u != 118)
}

/// Every alphabet symbol satisfies `is_b32_char`, and the first two are the
/// digits allowed to open an address body.
pub proof fn lemma_alphabet_closed(v: int)
    requires
        0 <= v < 32,
    ensures
        is_b32_char(alphabet()[v]),
        v == 0 ==> alphabet()[v] == '1',
        v == 1 ==> alphabet()[v] == '3',
{
    let a = alphabet();
    assert(a[0] == '1');
    assert(a[1] == '3');
    assert(a[2] == '4');
    assert(a[3] == '5');
    assert(a[4] == '6');
    assert(a[5] == '7');
    assert(a[6] == '8');
    assert(a[7] == '9');
    assert(a[8] == 'a');
    assert(a[9] == 'b');
    assert(a[10] == 'c');
    assert(a[11] == 'd');
    assert(a[12] == 'e');
    assert(a[13] == 'f');
    assert(a[14] == 'g');
    assert(a[15] == 'h');
    assert(a[16] == 'i');
    assert(a[17] == 'j');
    assert(a[18] == 'k');
    assert(a[19] == 'm');
    assert(a[20] == 'n');
    assert(a[21] == 'o');
    assert(a[22] == 'p');
    assert(a[23] == 'q');
    assert(a[24] == 'r');
    assert(a[25] == 's');
    assert(a[26] == 't');
    assert(a[27] == 'u');
    assert(a[28] == 'w');
    assert(a[29] == 'x');
    assert(a[30] == 'y');
    assert(a[31] == 'z');
}

/// The eight bits of a byte, most significant first.
pub open spec fn byte_bits(b: u8) -> Seq<bool> {
    seq![
        (b as int) / 128 % 2 == 1,
        (b as int) / 64 % 2 == 1,
        (b as int) / 32 % 2 == 1,
        (b as int) / 16 % 2 == 1,
        (b as int) / 8 % 2 == 1,
        (b as int) / 4 % 2 == 1,
        (b as int) / 2 % 2 == 1,
        (b as int) % 2 == 1,
    ]
}

/// The bits of a byte sequence, byte by byte, most significant bit first.
pub open spec fn bytes_bits(bs: Seq<u8>) -> Seq<bool>
    decreases bs.len(),
{
    if bs.len() == 0 {
        Seq::empty()
    } else {
        bytes_bits(bs.drop_last()) + byte_bits(bs.last())
    }
}

pub proof fn lemma_bytes_bits_len(bs: Seq<u8>)
    ensures
        bytes_bits(bs).len() == 8 * bs.len(),
    decreases bs.len(),
{
    if bs.len() > 0 {
        lemma_bytes_bits_len(bs.drop_last());
    }
}

pub proof fn lemma_bytes_bits_push(bs: Seq<u8>, b: u8)
    ensures
        bytes_bits(bs.push(b)) == bytes_bits(bs) + byte_bits(b),
{
    assert(bs.push(b).drop_last() =~= bs);
    assert(bs.push(b).last() == b);
}

pub open spec fn bit_val(b: bool) -> int {
    if b {
        1
    } else {
        0
    }
}

/// The value of the `i`-th 5-bit group of a bit sequence, most significant
/// bit first: always in `0..32`.
pub open spec fn group_val(bits: Seq<bool>, i: int) -> int {
    16 * bit_val(bits[5 * i]) + 8 * bit_val(bits[5 * i + 1]) + 4 * bit_val(bits[5 * i + 2]) + 2
        * bit_val(bits[5 * i + 3]) + bit_val(bits[5 * i + 4])
}

/// The base-32 encoding of a bit sequence: one alphabet symbol for each
/// 5-bit group.
pub open spec fn encode32(bits: Seq<bool>) -> Seq<char> {
    Seq::new((bits.len() / 5) as nat, |i: int| alphabet()[group_val(bits, i)])
}

fn b32_char_of(v: u8) -> (c: char)
    requires
        v < 32,
    ensures
        c == alphabet()[v as int],
{
    match v {
        0 => '1',
        1 => '3',
        2 => '4',
        3 => '5',
        4 => '6',
        5 => '7',
        6 => '8',
        7 => '9',
        8 => 'a',
        9 => 'b',
        10 => 'c',
        11 => 'd',
        12 => 'e',
        13 => 'f',
        14 => 'g',
        15 => 'h',
        16 => 'i',
        17 => 'j',
        18 => 'k',
        19 => 'm',
        20 => 'n',
        21 => 'o',
        22 => 'p',
        23 => 'q',
        24 => 'r',
        25 => 's',
        26 => 't',
        27 => 'u',
        28 => 'w',
        29 => 'x',
        30 => 'y',
        _ => 'z',
    }
}

/// Push the eight bits of `b`, most significant first, onto `bits`.
pub fn push_byte_bits(bits: &mut Vec<bool>, b: u8)
    ensures
        final(bits)@ == old(bits)@ + byte_bits(b),
{
    bits.push(b / 128 % 2 == 1);
    bits.push(b / 64 % 2 == 1);
    bits.push(b / 32 % 2 == 1);
    bits.push(b / 16 % 2 == 1);
    bits.push(b / 8 % 2 == 1);
    bits.push(b / 4 % 2 == 1);
    bits.push(b / 2 % 2 == 1);
    bits.push(b % 2 == 1);
    assert(bits@ =~= old(bits)@ + byte_bits(b));
}

/// Encode a bit sequence, whose length must be a multiple of five, as a
/// base-32 string: 5-bit groups, most significant bit first, each mapped
/// through the 32-symbol alphabet.
pub fn encode_nano_base_32(bits: &Vec<bool>) -> (s: String)
    requires
        bits@.len() % 5 == 0,
    ensures
        s@ == encode32(bits@),
{
    let mut s = String::new();
    let n = bits.len();
    let mut i: usize = 0;
    while i < n
        invariant
            n == bits@.len(),
            n % 5 == 0,
            i % 5 == 0,
            i <= n,
            s@.len() == i / 5,
            forall|j: int| 0 <= j < i / 5 ==> s@[j] == alphabet()[group_val(bits@, j)],
        decreases n - i,
    {
        let b0: u8 = if bits[i] { 1 } else { 0 };
        let b1: u8 = if bits[i + 1] { 1 } else { 0 };
        let b2: u8 = if bits[i + 2] { 1 } else { 0 };
        let b3: u8 = if bits[i + 3] { 1 } else { 0 };
        let b4: u8 = if bits[i + 4] { 1 } else { 0 };
        let v: u8 = 16 * b0 + 8 * b1 + 4 * b2 + 2 * b3 + b4;
        proof {
            assert(5 * ((i / 5) as int) == i as int);
            assert(v as int == group_val(bits@, (i / 5) as int));
        }
        let c = b32_char_of(v);
        s.push(c);
        i += 5;
    }
    assert(s@ =~= encode32(bits@));
    s
}

} // verus!
