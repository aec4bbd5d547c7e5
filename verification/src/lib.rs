//! Nugget BLS: BLS signatures on BLS12-381 whose public keys certify themselves.
//!
//! A public key carries its point on G2 together with a discrete-log-equality
//! proof that binds it to the signer's key on G1, so keys can be aggregated
//! without a separate proof of possession.  An aggregate signature is checked
//! against an aggregate public key by one product of two pairings.
//!
//! Every group element, scalar and proof is held as its canonical byte
//! encoding, and a secret key as the seed of its scalar.  The arithmetic is
//! done by `ark-ec`, the transcripts by `ark-transcript` and the proofs by
//! `dleq_vrf`.  They are reached through the private functions of [`curve`],
//! [`transcript`], [`vrf`] and [`keys`] that are marked `external_body`:
//! their contracts are assumed, and name what the outside functions return.
//! Everything else is proved from those contracts.
//!
//! The statements that relate several functions are collected in [`laws`].

pub mod aggregate;
pub mod bytes;
pub mod curve;
pub mod error;
pub mod keys;
pub mod laws;
pub mod transcript;
pub mod vrf;

pub use aggregate::AggregateSignature;
pub use error::{SignatureError, SignatureResult};
pub use keys::{PublicKey, PublicKeyG1, SecretKey, Signature};
pub use transcript::Transcript;
pub use vrf::{pedersen_vrf, thin_vrf};
