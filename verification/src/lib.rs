//! Verification engine for cross-chain transaction batches.
//!
//! A batch of wire-encoded transaction messages and a blob of concatenated
//! raw signatures are decoded, split, paired positionally and checked against
//! the signature scheme of the originating chain (ECDSA over secp256k1 with a
//! selectable pre-hash, BIP-340 style Schnorr, a bespoke secp256k1 scheme,
//! BLS12-381, ed25519 and sr25519).  All parsing, structural validation and
//! pairing logic is verified; the elliptic-curve and pairing arithmetic is
//! delegated to established libraries behind trusted wrappers.

pub mod bls;
pub mod btc;
pub mod chain;
pub mod ecdsa;
pub mod eddsa;
pub mod error;
pub mod eth;
pub mod filecoin;
pub mod hashing;
pub mod hex;
pub mod rpc;
pub mod schnorr;
pub mod secp;
pub mod tron;
pub mod utils;
pub mod wire;
