//! Textual serialization of ed25519 signing keys.
//!
//! A key is rendered as the literal prefix `ed25519:` followed by the
//! base58 (Bitcoin alphabet) encoding of its 32 raw bytes, and parsed
//! back by stripping the prefix, base58-decoding the remainder and
//! checking that the payload holds exactly 32 bytes.

pub mod serialization;
