//! Key derivation: a 32-byte private key is the 256-bit BLAKE2b digest of the
//! seed followed by the big-endian index, and the public key is the Ed25519
//! public key of that private key.

use vstd::prelude::*;

verus! {

/// The BLAKE2b digest of `input` with a digest length of `out_len` bytes.
pub uninterp spec fn blake2b_of(out_len: int, input: Seq<u8>) -> Seq<u8>;

/// The Ed25519 public key matching a 32-byte private key.
pub uninterp spec fn ed25519_pubkey_of(private_key: Seq<u8>) -> Seq<u8>;

/// Relies on blake2b_simd: `Params::hash_length` fixes the digest length in
/// bytes (it panics outside 1..=64) and `finalize` returns the BLAKE2b digest
/// of the bytes fed to `update` — a deterministic function of the input bytes
/// and the configured length, of exactly that length.
#[verifier::external_body]
pub(crate) fn blake2b_hash(input: &Vec<u8>, out_len: usize) -> (r: Vec<u8>)
    requires
        1 <= out_len <= 64,
    ensures
        r@ == blake2b_of(out_len as int, input@),
        r@.len() == out_len,
{
    let hash = blake2b_simd::Params::new()
        .hash_length(out_len)
        .to_state()
        .update(input.as_slice())
        .finalize();
    hash.as_bytes().to_vec()
}

/// Relies on ed25519_dalek: `SigningKey::from_bytes` accepts any 32-byte
/// secret key, and `verifying_key` returns the matching Ed25519 public key —
/// a deterministic function of the secret key bytes alone, 32 bytes long.
#[verifier::external_body]
pub fn derive_public_key(private_key: &Vec<u8>) -> (r: Vec<u8>)
    requires
        private_key@.len() == 32,
    ensures
        r@ == ed25519_pubkey_of(private_key@),
        r@.len() == 32,
{
    let mut sk = [0u8; 32];
    sk.copy_from_slice(private_key.as_slice());
    let signing = ed25519_dalek::SigningKey::from_bytes(&sk);
    signing.verifying_key().to_bytes().to_vec()
}

/// The four bytes of `x`, most significant first.
pub open spec fn u32_be_bytes(x: u32) -> Seq<u8> {
    seq![(x >> 24u32) as u8, (x >> 16u32) as u8, (x >> 8u32) as u8, x as u8]
}

/// The private key at `index` under `seed`.
pub open spec fn spec_private_key(seed: Seq<u8>, index: u32) -> Seq<u8> {
    blake2b_of(32, seed + u32_be_bytes(index))
}

/// Derive the private key at `index` under a 32-byte `seed`: the 256-bit
/// BLAKE2b digest of the seed bytes followed by the index in big-endian.
pub fn derive_private_key(seed: &Vec<u8>, index: u32) -> (r: Vec<u8>)
    requires
        seed@.len() == 32,
    ensures
        r@ == spec_private_key(seed@, index),
        r@.len() == 32,
{
    let mut input: Vec<u8> = Vec::new();
    let mut i: usize = 0;
    while i < seed.len()
        invariant
            seed@.len() == 32,
            0 <= i <= 32,
            input@ == seed@.take(i as int),
        decreases 32 - i,
    {
        input.push(seed[i]);
        assert(input@ =~= seed@.take(i + 1));
        i += 1;
    }
    assert(input@ =~= seed@);
    input.push(#[verifier::truncate] ((index >> 24u32) as u8));
    input.push(#[verifier::truncate] ((index >> 16u32) as u8));
    input.push(#[verifier::truncate] ((index >> 8u32) as u8));
    input.push(#[verifier::truncate] (index as u8));
    assert(input@ =~= seed@ + u32_be_bytes(index));
    blake2b_hash(&input, 32)
}

} // verus!
