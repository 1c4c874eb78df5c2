//! Deterministic derivation of account addresses from a 32-byte seed and an
//! index, and the per-candidate logic of two searches over that derivation:
//! a sweep over an index range for an exact target address, and a vanity
//! search over random seeds for an address matching textual constraints.

pub mod address;
pub mod codec;
pub mod hex;
pub mod keys;
pub mod search;

pub use address::derive_address;
pub use address::derive_address_at;
pub use address::validate_address;
pub use codec::encode_nano_base_32;
pub use hex::bytes_to_hexstring;
pub use hex::hexstring_to_bytes;
pub use hex::validate_seed;
pub use keys::derive_private_key;
pub use keys::derive_public_key;
pub use search::PatternConstraint;
pub use search::sweep_check;
pub use search::sweep_range;
pub use search::validate_constraints;
pub use search::validate_pattern;
pub use search::vanity_attempt;
