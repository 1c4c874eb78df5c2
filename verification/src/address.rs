//! Address encoding and validation. An address is the network prefix
//! `nano_`, a 52-character base-32 body encoding the 256 public-key bits
//! behind 4 zero padding bits, and an 8-character base-32 checksum encoding
//! the byte-reversed 5-byte BLAKE2b digest of the public key.

use vstd::prelude::*;

use crate::codec::bytes_bits;
use crate::codec::encode32;
use crate::codec::encode_nano_base_32;
use crate::codec::group_val;
use crate::codec::is_b32_char;
use crate::codec::lemma_alphabet_closed;
use crate::codec::lemma_bytes_bits_len;
use crate::codec::push_byte_bits;
use crate::keys::blake2b_of;
use crate::keys::ed25519_pubkey_of;
use crate::keys::spec_private_key;
use crate::derive_private_key;
use crate::derive_public_key;

verus! {

/// Four zero padding bits: they bring the 256 public-key bits to a 260-bit
/// boundary, divisible by five.
pub open spec fn pad_bits() -> Seq<bool> {
    seq![false, false, false, false]
}

/// The 52-character body of an address: the base-32 encoding of 4 zero bits
/// followed by the bits of the public key.
pub open spec fn spec_body(pk: Seq<u8>) -> Seq<char> {
    encode32(pad_bits() + bytes_bits(pk))
}

/// The 8-character checksum encoding of a 5-byte digest `h`: its bytes are
/// reversed, and the resulting 40 bits are encoded in base 32.
pub open spec fn spec_checksum(h: Seq<u8>) -> Seq<char> {
    encode32(bytes_bits(h.reverse()))
}

pub open spec fn nano_prefix() -> Seq<char> {
    seq!['n', 'a', 'n', 'o', '_']
}

pub open spec fn xrb_prefix() -> Seq<char> {
    seq!['x', 'r', 'b', '_']
}

/// The address derived from a 32-byte public key.
pub open spec fn spec_address(pk: Seq<u8>) -> Seq<char> {
    nano_prefix() + spec_body(pk) + spec_checksum(blake2b_of(5, pk))
}

/// The address at `index` under `seed`: the whole derivation pipeline as one
/// deterministic function of the two inputs.
pub open spec fn spec_address_at(seed: Seq<u8>, index: u32) -> Seq<char> {
    spec_address(ed25519_pubkey_of(spec_private_key(seed, index)))
}

/// Determinism: the derivation pipeline is a function of the seed and the
/// index alone, so any two results it gives for the same pair are equal.
pub proof fn lemma_derivation_deterministic(
    seed: Seq<u8>,
    index: u32,
    r1: Seq<char>,
    r2: Seq<char>,
)
    requires
        r1 == spec_address_at(seed, index),
        r2 == spec_address_at(seed, index),
    ensures
        r1 == r2,
{
}

/// The sixty characters after the underscore: one of `1` or `3`, then
/// alphabet symbols throughout.
pub open spec fn addr_tail_ok(t: Seq<char>) -> bool {
    &&& t.len() == 60
    &&& (t[0] == '1' || t[0] == '3')
    &&& forall|i: int| 0 <= i < 60 ==> is_b32_char(#[trigger] t[i])
}

/// A well-formed address: `nano_` or `xrb_`, then a character from `{1, 3}`,
/// then 59 alphabet symbols.
pub open spec fn spec_validate_address(s: Seq<char>) -> bool {
    ||| (s.len() == 65 && s.take(5) == nano_prefix() && addr_tail_ok(s.skip(5)))
    ||| (s.len() == 64 && s.take(4) == xrb_prefix() && addr_tail_ok(s.skip(4)))
}

/// Body and checksum are made of alphabet symbols, have lengths 52 and 8, the
/// body opens with `1` or `3`, and the assembled address is well-formed.
pub proof fn lemma_address_valid(pk: Seq<u8>, h: Seq<u8>)
    requires
        pk.len() == 32,
        h.len() == 5,
    ensures
        spec_body(pk).len() == 52,
        forall|i: int| 0 <= i < 52 ==> is_b32_char(#[trigger] spec_body(pk)[i]),
        spec_body(pk)[0] == '1' || spec_body(pk)[0] == '3',
        spec_checksum(h).len() == 8,
        forall|i: int| 0 <= i < 8 ==> is_b32_char(#[trigger] spec_checksum(h)[i]),
        spec_validate_address(nano_prefix() + spec_body(pk) + spec_checksum(h)),
{
    let body_bits = pad_bits() + bytes_bits(pk);
    let chk_bits = bytes_bits(h.reverse());
    lemma_bytes_bits_len(pk);
    lemma_bytes_bits_len(h.reverse());
    assert(body_bits.len() == 260);
    assert(chk_bits.len() == 40);
    let body = spec_body(pk);
    let chk = spec_checksum(h);
    assert(body.len() == 52);
    assert(chk.len() == 8);
    assert forall|i: int| 0 <= i < 52 implies is_b32_char(#[trigger] body[i]) by {
        lemma_group_val_bound(body_bits, i);
        lemma_alphabet_closed(group_val(body_bits, i));
    }
    assert forall|i: int| 0 <= i < 8 implies is_b32_char(#[trigger] chk[i]) by {
        lemma_group_val_bound(chk_bits, i);
        lemma_alphabet_closed(group_val(chk_bits, i));
    }
    assert(body_bits[0] == false && body_bits[1] == false && body_bits[2] == false
        && body_bits[3] == false);
    assert(group_val(body_bits, 0) == crate::codec::bit_val(body_bits[4]));
    assert(0 <= group_val(body_bits, 0) < 2);
    lemma_alphabet_closed(group_val(body_bits, 0));
    assert(body[0] == '1' || body[0] == '3');

    let s = nano_prefix() + body + chk;
    assert(s.len() == 65);
    assert(s.take(5) =~= nano_prefix());
    let t = s.skip(5);
    assert(t =~= body + chk);
    assert(t[0] == body[0]);
    assert forall|i: int| 0 <= i < 60 implies is_b32_char(#[trigger] t[i]) by {
        if i < 52 {
            assert(t[i] == body[i]);
        } else {
            assert(t[i] == chk[i - 52]);
        }
    }
}

/// Any 5-bit group value lies in `0..32`.
proof fn lemma_group_val_bound(bits: Seq<bool>, i: int)
    requires
        0 <= i,
        5 * i + 5 <= bits.len(),
    ensures
        0 <= group_val(bits, i) < 32,
{
}

/// Encode a 32-byte public key as an address: `nano_`, the 52-character
/// body, and the 8-character checksum. The result is always well-formed.
pub fn derive_address(public_key: &Vec<u8>) -> (r: String)
    requires
        public_key@.len() == 32,
    ensures
        r@ == spec_address(public_key@),
        r@.len() == 65,
        spec_validate_address(r@),
        blake2b_of(5, public_key@).len() == 5,
{
    let mut bits: Vec<bool> = Vec::new();
    bits.push(false);
    bits.push(false);
    bits.push(false);
    bits.push(false);
    assert(bits@ =~= pad_bits());
    let mut i: usize = 0;
    while i < public_key.len()
        invariant
            public_key@.len() == 32,
            0 <= i <= 32,
            bits@ == pad_bits() + bytes_bits(public_key@.take(i as int)),
        decreases 32 - i,
    {
        proof {
            crate::codec::lemma_bytes_bits_push(public_key@.take(i as int), public_key@[i as int]);
            assert(public_key@.take(i as int).push(public_key@[i as int]) =~= public_key@.take(
                i + 1,
            ));
        }
        push_byte_bits(&mut bits, public_key[i]);
        i += 1;
    }
    assert(public_key@.take(32) =~= public_key@);
    proof {
        lemma_bytes_bits_len(public_key@);
    }
    let body = encode_nano_base_32(&bits);

    let hash = crate::keys::blake2b_hash(public_key, 5);
    let mut rev: Vec<u8> = Vec::new();
    rev.push(hash[4]);
    rev.push(hash[3]);
    rev.push(hash[2]);
    rev.push(hash[1]);
    rev.push(hash[0]);
    assert(rev@ =~= hash@.reverse());
    let mut cbits: Vec<bool> = Vec::new();
    let mut j: usize = 0;
    while j < rev.len()
        invariant
            rev@.len() == 5,
            0 <= j <= 5,
            cbits@ == bytes_bits(rev@.take(j as int)),
        decreases 5 - j,
    {
        proof {
            crate::codec::lemma_bytes_bits_push(rev@.take(j as int), rev@[j as int]);
            assert(rev@.take(j as int).push(rev@[j as int]) =~= rev@.take(j + 1));
        }
        push_byte_bits(&mut cbits, rev[j]);
        j += 1;
    }
    assert(rev@.take(5) =~= rev@);
    proof {
        lemma_bytes_bits_len(rev@);
    }
    let checksum = encode_nano_base_32(&cbits);

    let mut r = String::new();
    r.push('n');
    r.push('a');
    r.push('n');
    r.push('o');
    r.push('_');
    assert(r@ =~= nano_prefix());
    r.append(body.as_str());
    r.append(checksum.as_str());
    proof {
        lemma_address_valid(public_key@, hash@);
        assert(r@ =~= spec_address(public_key@));
    }
    r
}

/// True exactly when `target` is a well-formed address string.
pub fn validate_address(target: &str) -> (r: bool)
    ensures
        r == spec_validate_address(target@),
{
    let n = target.unicode_len();
    let p: usize = if n == 65 {
        if target.get_char(0) == 'n' && target.get_char(1) == 'a' && target.get_char(2) == 'n'
            && target.get_char(3) == 'o' && target.get_char(4) == '_' {
            proof {
                assert(target@.take(5) =~= nano_prefix());
            }
            5
        } else {
            proof {
                assert(target@.take(5) != nano_prefix());
            }
            return false;
        }
    } else if n == 64 {
        if target.get_char(0) == 'x' && target.get_char(1) == 'r' && target.get_char(2) == 'b'
            && target.get_char(3) == '_' {
            proof {
                assert(target@.take(4) =~= xrb_prefix());
            }
            4
        } else {
            proof {
                assert(target@.take(4) != xrb_prefix());
            }
            return false;
        }
    } else {
        return false;
    };
    let first = target.get_char(p);
    if !(first == '1' || first == '3') {
        return false;
    }
    let mut i: usize = p;
    while i < n
        invariant
            target@.len() == n,
            p + 60 == n,
            p <= i <= n,
            forall|j: int| p <= j < i ==> is_b32_char(#[trigger] target@[j]),
        decreases n - i,
    {
        if !is_b32_char_exec(target.get_char(i)) {
            proof {
                let t = target@.skip(p as int);
                assert(t[i - p] == target@[i as int]);
            }
            return false;
        }
        i += 1;
    }
    proof {
        let t = target@.skip(p as int);
        assert forall|j: int| 0 <= j < 60 implies is_b32_char(#[trigger] t[j]) by {
            assert(t[j] == target@[p + j]);
        }
        assert(t[0] == target@[p as int]);
    }
    true
}

fn is_b32_char_exec(c: char) -> (r: bool)
    ensures
        r == is_b32_char(c),
{
    let u = c as u32;
    u == 49 || (51 <= u && u <= 57) || (97 <= u && u <= 122 && u != 108 && u != 118)
}

/// Run the whole pipeline: the address at `index` under a 32-byte `seed`.
pub fn derive_address_at(seed: &Vec<u8>, index: u32) -> (r: String)
    requires
        seed@.len() == 32,
    ensures
        r@ == spec_address_at(seed@, index),
        r@.len() == 65,
        spec_validate_address(r@),
        ed25519_pubkey_of(spec_private_key(seed@, index)).len() == 32,
        blake2b_of(5, ed25519_pubkey_of(spec_private_key(seed@, index))).len() == 5,
{
    let private_key = derive_private_key(seed, index);
    let public_key = derive_public_key(&private_key);
    derive_address(&public_key)
}

} // verus!
