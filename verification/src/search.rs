//! Search logic: the per-candidate checks of the sweep and vanity drivers.
//! The sweep scans an index range under one seed for an exact target
//! address; the vanity check tests the address of a fresh seed at index 0
//! against textual constraints.

use vstd::prelude::*;

use crate::address::derive_address_at;
use crate::address::spec_address_at;
use crate::address::spec_body;
use crate::address::spec_checksum;
use crate::address::spec_validate_address;
use crate::codec::is_b32_char;
use crate::keys::blake2b_of;
use crate::keys::ed25519_pubkey_of;
use crate::keys::spec_private_key;

verus! {

/// `p` is a prefix of `s`.
pub open spec fn spec_starts_with(s: Seq<char>, p: Seq<char>) -> bool {
    p.len() <= s.len() && s.take(p.len() as int) == p
}

/// `p` is a suffix of `s`.
pub open spec fn spec_ends_with(s: Seq<char>, p: Seq<char>) -> bool {
    p.len() <= s.len() && s.skip(s.len() - p.len()) == p
}

/// `p` occurs in `s` at position `k`.
pub open spec fn match_at(s: Seq<char>, p: Seq<char>, k: int) -> bool {
    0 <= k && k + p.len() <= s.len() && s.subrange(k, k + p.len()) == p
}

/// `p` occurs somewhere in `s`.
pub open spec fn spec_contains(s: Seq<char>, p: Seq<char>) -> bool {
    exists|k: int| match_at(s, p, k)
}

fn chars_match_at(s: &str, p: &str, k: usize) -> (r: bool)
    requires
        k + p@.len() <= s@.len(),
        s@.len() <= usize::MAX,
    ensures
        r == match_at(s@, p@, k as int),
{
    let m = p.unicode_len();
    let mut i: usize = 0;
    while i < m
        invariant
            m == p@.len(),
            k + m <= s@.len(),
            s@.len() <= usize::MAX,
            0 <= i <= m,
            forall|j: int| 0 <= j < i ==> s@[k + j] == p@[j],
        decreases m - i,
    {
        if s.get_char(k + i) != p.get_char(i) {
            proof {
                assert(s@.subrange(k as int, k + p@.len())[i as int] != p@[i as int]);
            }
            return false;
        }
        i += 1;
    }
    assert(s@.subrange(k as int, k + p@.len()) =~= p@);
    true
}

/// True exactly when `p` is a prefix of `s`.
pub fn str_starts_with(s: &str, p: &str) -> (r: bool)
    ensures
        r == spec_starts_with(s@, p@),
{
    let n = s.unicode_len();
    let m = p.unicode_len();
    if m > n {
        return false;
    }
    let r = chars_match_at(s, p, 0);
    proof {
        assert(s@.subrange(0, p@.len() as int) == s@.take(p@.len() as int));
    }
    r
}

/// True exactly when `p` is a suffix of `s`.
pub fn str_ends_with(s: &str, p: &str) -> (r: bool)
    ensures
        r == spec_ends_with(s@, p@),
{
    let n = s.unicode_len();
    let m = p.unicode_len();
    if m > n {
        return false;
    }
    let r = chars_match_at(s, p, n - m);
    proof {
        assert(s@.subrange(s@.len() - p@.len(), s@.len() - p@.len() + p@.len()) == s@.skip(
            s@.len() - p@.len(),
        ));
    }
    r
}

/// True exactly when `p` occurs somewhere in `s`.
pub fn str_contains(s: &str, p: &str) -> (r: bool)
    ensures
        r == spec_contains(s@, p@),
{
    let n = s.unicode_len();
    let m = p.unicode_len();
    if m > n {
        proof {
            if spec_contains(s@, p@) {
                let k = choose|k: int| match_at(s@, p@, k);
                assert(false);
            }
        }
        return false;
    }
    if m == 0 {
        proof {
            assert(s@.subrange(0, 0) =~= p@);
            assert(match_at(s@, p@, 0));
        }
        return true;
    }
    let mut k: usize = 0;
    while k <= n - m
        invariant
            n == s@.len(),
            m == p@.len(),
            1 <= m <= n,
            0 <= k <= n - m + 1,
            forall|j: int| 0 <= j < k ==> !match_at(s@, p@, j),
        decreases n - m + 1 - k,
    {
        if chars_match_at(s, p, k) {
            assert(spec_contains(s@, p@));
            return true;
        }
        k += 1;
    }
    proof {
        if spec_contains(s@, p@) {
            let j = choose|j: int| match_at(s@, p@, j);
            assert(j <= n - m);
            assert(false);
        }
    }
    false
}

/// The textual constraints of a vanity search. Empty strings constrain
/// nothing.
pub struct PatternConstraint {
    pub starts_with: String,
    pub ends_with: String,
    pub contains: String,
}

/// A well-formed constraint string: at most 59 characters, all from the
/// 32-symbol alphabet.
pub open spec fn spec_valid_pattern(p: Seq<char>) -> bool {
    p.len() <= 59 && (forall|i: int| 0 <= i < p.len() ==> is_b32_char(#[trigger] p[i]))
}

/// True exactly when `p` may serve as a constraint string: at most 59
/// characters, all from the 32-symbol alphabet.
pub fn validate_pattern(p: &str) -> (r: bool)
    ensures
        r == spec_valid_pattern(p@),
{
    let n = p.unicode_len();
    if n > 59 {
        return false;
    }
    let mut i: usize = 0;
    while i < n
        invariant
            n == p@.len(),
            0 <= i <= n,
            forall|j: int| 0 <= j < i ==> is_b32_char(#[trigger] p@[j]),
        decreases n - i,
    {
        let c = p.get_char(i);
        let u = c as u32;
        if !(u == 49 || (51 <= u && u <= 57) || (97 <= u && u <= 122 && u != 108 && u != 118)) {
            return false;
        }
        i += 1;
    }
    true
}

/// True exactly when all three constraint strings are well formed.
pub fn validate_constraints(c: &PatternConstraint) -> (r: bool)
    ensures
        r == (spec_valid_pattern(c.starts_with@) && spec_valid_pattern(c.ends_with@)
            && spec_valid_pattern(c.contains@)),
{
    validate_pattern(c.starts_with.as_str()) && validate_pattern(c.ends_with.as_str())
        && validate_pattern(c.contains.as_str())
}

/// Whether the address at `index` under `seed` is exactly `target`.
pub fn sweep_check(seed: &Vec<u8>, index: u32, target: &String) -> (r: bool)
    requires
        seed@.len() == 32,
    ensures
        r == (spec_address_at(seed@, index) == target@),
{
    let address = derive_address_at(seed, index);
    address == *target
}

/// Scan the index range `[start, stop)` under `seed` for `target`: report
/// the first index whose address is the target, or nothing when no index of
/// the range matches.
pub fn sweep_range(seed: &Vec<u8>, target: &String, start: u32, stop: u32) -> (r: Option<u32>)
    requires
        seed@.len() == 32,
    ensures
        match r {
            Some(i) => start <= i < stop && spec_address_at(seed@, i) == target@ && (forall|j: u32|
                start <= j < i ==> spec_address_at(seed@, j) != target@),
            None => forall|j: u32| start <= j < stop ==> spec_address_at(seed@, j) != target@,
        },
{
    let mut i: u32 = start;
    while i < stop
        invariant
            seed@.len() == 32,
            start <= i <= stop || (start > stop && i == start),
            forall|j: u32| start <= j < i ==> spec_address_at(seed@, j) != target@,
        decreases stop - i,
    {
        if sweep_check(seed, i, target) {
            return Some(i);
        }
        i += 1;
    }
    None
}

/// The vanity criterion for a seed: at index 0, the body starts with
/// `starts`, the body followed by the checksum ends with `ends`, and the
/// body contains `contains`.
pub open spec fn spec_vanity_hit(
    seed: Seq<u8>,
    starts: Seq<char>,
    ends: Seq<char>,
    contains: Seq<char>,
) -> bool {
    let pk = ed25519_pubkey_of(spec_private_key(seed, 0));
    let body = spec_body(pk);
    let tail = body + spec_checksum(blake2b_of(5, pk));
    spec_starts_with(body, starts) && spec_ends_with(tail, ends) && spec_contains(body, contains)
}

/// One vanity attempt: derive the address of `seed` at index 0 and test it
/// against the constraints. The address is reported exactly when it
/// satisfies them; a reported address is well formed and its body contains
/// the `contains` string.
pub fn vanity_attempt(seed: &Vec<u8>, c: &PatternConstraint) -> (r: Option<String>)
    requires
        seed@.len() == 32,
    ensures
        r is Some <==> spec_vanity_hit(seed@, c.starts_with@, c.ends_with@, c.contains@),
        r matches Some(a) ==> a@ == spec_address_at(seed@, 0) && spec_validate_address(a@)
            && spec_contains(a@.subrange(5, 57), c.contains@),
{
    let address = derive_address_at(seed, 0);
    let ghost pk = ed25519_pubkey_of(spec_private_key(seed@, 0));
    proof {
        crate::address::lemma_address_valid(pk, blake2b_of(5, pk));
    }
    let body = address.as_str().substring_char(5, 57);
    let tail = address.as_str().substring_char(5, 65);
    proof {
        assert(body@ =~= spec_body(pk));
        assert(tail@ =~= spec_body(pk) + spec_checksum(blake2b_of(5, pk)));
    }
    if str_starts_with(body, c.starts_with.as_str()) && str_ends_with(tail, c.ends_with.as_str())
        && str_contains(body, c.contains.as_str()) {
        proof {
            assert(address@.subrange(5, 57) =~= spec_body(pk));
        }
        Some(address)
    } else {
        None
    }
}

} // verus!
