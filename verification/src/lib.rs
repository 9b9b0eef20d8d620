//! Remote signing oracle for transaction-template commitments.
//!
//! A 256-bit commitment hash over a proposed transaction's structure is
//! mapped losslessly onto a nine-index, non-hardened hierarchical
//! key-derivation path.  A Signing Service holding the master private
//! extended key derives the child key for exactly that commitment and signs
//! best-effort; a Remote Signer holding only the master public extended key
//! computes the matching public key locally and forwards actual signing
//! requests over a length-prefixed wire protocol on a single cached
//! connection.

pub mod btc;
pub mod connection;
pub mod oracle;
pub mod path;
pub mod remote;
pub mod template;
pub mod wire;
