use nano_tinytools::bytes_to_hexstring;
use nano_tinytools::derive_address;
use nano_tinytools::derive_address_at;
use nano_tinytools::derive_private_key;
use nano_tinytools::derive_public_key;
use nano_tinytools::encode_nano_base_32;
use nano_tinytools::hexstring_to_bytes;
use nano_tinytools::sweep_range;
use nano_tinytools::validate_address;
use nano_tinytools::validate_constraints;
use nano_tinytools::validate_pattern;
use nano_tinytools::validate_seed;
use nano_tinytools::vanity_attempt;
use nano_tinytools::PatternConstraint;

const ALPHABET: &str = "13456789abcdefghijkmnopqrstuwxyz";
const ZERO_SEED_ADDRESS: &str =
    "nano_33jppf5rfij877axrtp1q41j76wpynfccbgdowuxrh6x5hm9zezkjoxiimuk";

fn zero_seed() -> Vec<u8> {
    vec![0u8; 32]
}

fn seed_with_last_byte(b: u8) -> Vec<u8> {
    let mut s = vec![0u8; 32];
    s[31] = b;
    s
}

#[test]
fn it_works() {
    let result = 2 + 2;
    assert_eq!(result, 4);
}

#[test]
fn golden_private_key() {
    let private_key = derive_private_key(&zero_seed(), 0);
    assert_eq!(
        bytes_to_hexstring(&private_key),
        "9F0E444C69F77A49BD0BE89DB92C38FE713E0963165CCA12FAF5712D7657120F"
    );
}

#[test]
fn golden_public_key() {
    let private_key = derive_private_key(&zero_seed(), 0);
    let public_key = derive_public_key(&private_key);
    assert_eq!(
        bytes_to_hexstring(&public_key),
        "8636B34786C2262951DC6AC0B881129396F51AA525CBAF37DC3C9D1BE67FB3F2"
    );
}

#[test]
fn golden_address() {
    let address = derive_address_at(&zero_seed(), 0);
    assert_eq!(address, ZERO_SEED_ADDRESS);
}

#[test]
fn derivation_is_deterministic() {
    let seed = seed_with_last_byte(7);
    let first = derive_address_at(&seed, 41);
    let second = derive_address_at(&seed, 41);
    assert_eq!(first, second);
    let k1 = derive_private_key(&seed, 41);
    let k2 = derive_private_key(&seed, 41);
    assert_eq!(k1, k2);
    assert_eq!(derive_public_key(&k1), derive_public_key(&k2));
}

#[test]
fn derived_addresses_validate() {
    let seed = seed_with_last_byte(9);
    for index in 0..4 {
        let address = derive_address_at(&seed, index);
        assert!(validate_address(address.as_str()));
    }
}

#[test]
fn address_alphabet_closure() {
    let seed = seed_with_last_byte(5);
    let address = derive_address_at(&seed, 1);
    for c in address[5..].chars() {
        assert!(ALPHABET.contains(c));
    }
}

#[test]
fn address_lengths() {
    let seed = seed_with_last_byte(3);
    let address = derive_address_at(&seed, 2);
    assert_eq!(address.len(), 65);
    let body = &address[5..57];
    let checksum = &address[57..];
    assert_eq!(body.len(), 52);
    assert_eq!(checksum.len(), 8);
}

#[test]
fn seed_validation_accepts_hex() {
    assert!(validate_seed(
        "0000000000000000000000000000000000000000000000000000000000000000"
    ));
    assert!(validate_seed(
        "0123456789abcdefABCDEF0123456789abcdefABCDEF0123456789abcdefABCD"
    ));
}

#[test]
fn seed_validation_rejects_bad_input() {
    assert!(!validate_seed(""));
    assert!(!validate_seed("0"));
    assert!(!validate_seed(
        "000000000000000000000000000000000000000000000000000000000000000"
    ));
    assert!(!validate_seed(
        "00000000000000000000000000000000000000000000000000000000000000000"
    ));
    assert!(!validate_seed(
        "000000000000000000000000000000000000000000000000000000000000000g"
    ));
    assert!(!validate_seed(
        "00000000000000000000000000000000 0000000000000000000000000000000"
    ));
}

#[test]
fn address_validation_rejects_bad_input() {
    assert!(validate_address(ZERO_SEED_ADDRESS));
    // same tail under the xrb prefix
    let xrb = format!("xrb_{}", &ZERO_SEED_ADDRESS[5..]);
    assert!(validate_address(xrb.as_str()));
    // wrong prefix
    let nona = format!("nona_{}", &ZERO_SEED_ADDRESS[5..]);
    assert!(!validate_address(nona.as_str()));
    // wrong lengths
    assert!(!validate_address(""));
    assert!(!validate_address("nano_"));
    assert!(!validate_address(&ZERO_SEED_ADDRESS[..64]));
    let long = format!("{}1", ZERO_SEED_ADDRESS);
    assert!(!validate_address(long.as_str()));
    // first tail character must be 1 or 3
    let mut wrong_first = String::from("nano_4");
    wrong_first.push_str(&ZERO_SEED_ADDRESS[6..]);
    assert!(!validate_address(wrong_first.as_str()));
    // characters outside the alphabet
    for bad in ['l', 'v', '0', '2', 'L', '_'] {
        let mut s = String::from(&ZERO_SEED_ADDRESS[..64]);
        s.push(bad);
        assert!(!validate_address(s.as_str()));
    }
}

#[test]
fn encode_covers_whole_alphabet() {
    // the 160-bit sequence of the 5-bit values 0, 1, ..., 31 in order
    let mut bits: Vec<bool> = Vec::new();
    for v in 0u8..32 {
        for k in (0..5).rev() {
            bits.push(v >> k & 1 == 1);
        }
    }
    let s = encode_nano_base_32(&bits);
    assert_eq!(s, ALPHABET);
}

#[test]
fn encode_empty_is_empty() {
    let bits: Vec<bool> = Vec::new();
    assert_eq!(encode_nano_base_32(&bits), "");
}

#[test]
fn hex_conversion_exact_values() {
    let hexstring = "000102030405060708090A0B0C0D0E0F101112131415161718191a1b1c1d1e1f";
    assert!(validate_seed(hexstring));
    let bytes = hexstring_to_bytes(hexstring);
    let expected: Vec<u8> = (0u8..32).collect();
    assert_eq!(bytes, expected);
    assert_eq!(
        bytes_to_hexstring(&bytes),
        "000102030405060708090A0B0C0D0E0F101112131415161718191A1B1C1D1E1F"
    );
}

#[test]
fn hex_round_trip() {
    let bytes: Vec<u8> = (100u8..132).collect();
    let hexstring = bytes_to_hexstring(&bytes);
    assert!(validate_seed(hexstring.as_str()));
    assert_eq!(hexstring_to_bytes(hexstring.as_str()), bytes);
}

#[test]
fn checksum_avalanche() {
    let private_key = derive_private_key(&zero_seed(), 0);
    let public_key = derive_public_key(&private_key);
    let base = derive_address(&public_key);
    let base_checksum = String::from(&base[57..]);
    let mut changed = 0;
    for bit in 0..256 {
        let mut flipped = public_key.clone();
        flipped[bit / 8] ^= 1 << (bit % 8);
        let address = derive_address(&flipped);
        if address[57..] != base_checksum {
            changed += 1;
        }
    }
    assert!(changed >= 250, "checksum changed on only {changed} of 256 bit flips");
}

#[test]
fn sweep_finds_target_at_index_3() {
    let target = derive_address_at(&zero_seed(), 3);
    assert_eq!(
        target,
        "nano_1b5bmrprs6w6krpaw8q94r3z8hszxgnqzihoupm1jw4zz7bibrp8q46f9bau"
    );
    assert_eq!(sweep_range(&zero_seed(), &target, 0, 5), Some(3));
}

#[test]
fn sweep_reports_not_found() {
    let target = derive_address_at(&zero_seed(), 3);
    assert_eq!(sweep_range(&zero_seed(), &target, 0, 3), None);
    let absent = String::from(ZERO_SEED_ADDRESS);
    assert_eq!(sweep_range(&zero_seed(), &absent, 1, 5), None);
    assert_eq!(sweep_range(&zero_seed(), &absent, 4, 2), None);
}

#[test]
fn pattern_validation() {
    assert!(validate_pattern(""));
    assert!(validate_pattern("ab"));
    assert!(validate_pattern("13456789abcdefghijkmnopqrstuwxyz"));
    assert!(!validate_pattern("l"));
    assert!(!validate_pattern("v"));
    assert!(!validate_pattern("0"));
    assert!(!validate_pattern("2"));
    assert!(!validate_pattern("AB"));
    assert!(!validate_pattern("nano_"));
    let too_long: String = std::iter::repeat('1').take(60).collect();
    assert!(!validate_pattern(too_long.as_str()));
    let just_fits: String = std::iter::repeat('1').take(59).collect();
    assert!(validate_pattern(just_fits.as_str()));
}

#[test]
fn constraint_validation() {
    let good = PatternConstraint {
        starts_with: String::from("1"),
        ends_with: String::new(),
        contains: String::from("ab"),
    };
    assert!(validate_constraints(&good));
    let bad = PatternConstraint {
        starts_with: String::from("1"),
        ends_with: String::from("v"),
        contains: String::new(),
    };
    assert!(!validate_constraints(&bad));
}

#[test]
fn vanity_contains_holds_of_reported_addresses() {
    let constraint = PatternConstraint {
        starts_with: String::new(),
        ends_with: String::new(),
        contains: String::from("ab"),
    };
    let mut hits = 0;
    for b in 0..3 {
        let seed = seed_with_last_byte(b);
        if let Some(address) = vanity_attempt(&seed, &constraint) {
            assert!(address[5..57].contains("ab"));
            hits += 1;
        }
    }
    // the seed whose last byte is 2 produces a body containing "ab"
    assert_eq!(hits, 1);
}

#[test]
fn vanity_misses_when_body_lacks_pattern() {
    let constraint = PatternConstraint {
        starts_with: String::new(),
        ends_with: String::new(),
        contains: String::from("ab"),
    };
    // the zero-seed body holds no "ab"
    assert_eq!(vanity_attempt(&zero_seed(), &constraint), None);
}

#[test]
fn vanity_empty_constraints_match_everything() {
    let constraint = PatternConstraint {
        starts_with: String::new(),
        ends_with: String::new(),
        contains: String::new(),
    };
    let reported = vanity_attempt(&zero_seed(), &constraint).expect("empty constraints match");
    assert_eq!(reported, ZERO_SEED_ADDRESS);
}

#[test]
fn sweep_empty_range() {
    let target = String::from(ZERO_SEED_ADDRESS);
    assert_eq!(sweep_range(&zero_seed(), &target, 2, 2), None);
}

#[test]
fn vanity_prefix_and_suffix() {
    // the zero-seed body is 33jpp..., and the address ends in joxiimuk
    let hit = PatternConstraint {
        starts_with: String::from("33jpp"),
        ends_with: String::from("imuk"),
        contains: String::new(),
    };
    let reported = vanity_attempt(&zero_seed(), &hit).expect("constraints match the zero seed");
    assert_eq!(reported, ZERO_SEED_ADDRESS);
    // the prefix is matched against the body, not the whole address
    let against_whole = PatternConstraint {
        starts_with: String::from("nano"),
        ends_with: String::new(),
        contains: String::new(),
    };
    assert_eq!(vanity_attempt(&zero_seed(), &against_whole), None);
}
