//! Remote Signer: holds only the master public extended key.  It computes
//! the expected public key for a commitment hash locally, and applies the
//! response of a remote signing exchange to the caller's structure —
//! best-effort: on any transport, decode or merge failure the structure
//! comes back unchanged, with the failure reported beside it rather than
//! swallowed.

use vstd::prelude::*;
use crate::path::{derive_path, spec_derive_path};
use crate::oracle::DeriveError;
use crate::wire::{encode_frame, spec_frame, MAX_MSG};
use crate::btc::SecpContext;
use crate::btc::{combined_with, psbt_bytes_of, psbt_parse, pub_child_of, pub_key_bytes_of};

verus! {

/// How one remote signing exchange ended; every outcome but `Merged` leaves
/// the caller's structure unchanged.
#[derive(Clone, Copy, Debug, PartialEq, Eq, Structural)]
pub enum RemoteOutcome {
    /// The response's partial signatures were merged into the structure.
    Merged,
    /// The request could not be sent or no response arrived.
    TransportFailed,
    /// The response payload did not parse as a structure.
    DecodeFailed,
    /// The response parsed but could not be merged.
    MergeFailed,
}

/// The client side of the oracle: holds the master public extended key.
pub struct HDOracleClient {
    root: bitcoin::bip32::Xpub,
}

impl HDOracleClient {
    /// The master public extended key the client derives from.
    pub closed spec fn spec_root(&self) -> bitcoin::bip32::Xpub {
        self.root
    }

    /// Builds a client around the master public extended key.
    pub fn new(root: bitcoin::bip32::Xpub) -> (r: Self)
        ensures
            r.spec_root() == root,
    {
        HDOracleClient { root }
    }

    /// Derives the child public key for a commitment hash using public-only
    /// derivation: the nine-index path is never hardened, so it fails
    /// exactly where the underlying derivation rejects the key material.
    pub fn derive(&self, h: &Vec<u8>, secp: &SecpContext) -> (r: Result<
        bitcoin::bip32::Xpub,
        DeriveError,
    >)
        requires
            h@.len() == 32,
        ensures
            r matches Ok(k) ==> pub_child_of(self.spec_root(), spec_derive_path(h@)) == Some(k),
            r is Err ==> pub_child_of(self.spec_root(), spec_derive_path(h@)) is None,
    {
        let path = derive_path(h);
        match crate::btc::derive_pub_at(&self.root, secp, &path) {
            Ok(key) => Ok(key),
            Err(_) => Err(DeriveError::KeyDerivation),
        }
    }

    /// The compressed public key that would authorize a transaction with
    /// this commitment hash — what the compiler embeds into a locking
    /// script; `Ok` exactly where public-only derivation succeeds.
    pub fn expected_public_key(&self, h: &Vec<u8>, secp: &SecpContext) -> (r: Result<
        Vec<u8>,
        DeriveError,
    >)
        requires
            h@.len() == 32,
        ensures
            (r is Ok) <==> pub_child_of(self.spec_root(), spec_derive_path(h@)) is Some,
            r matches Ok(k) ==> (pub_child_of(self.spec_root(), spec_derive_path(h@))
                matches Some(c) && k@ == pub_key_bytes_of(c) && k@.len() == 33),
    {
        match self.derive(h, secp) {
            Ok(key) => Ok(crate::btc::xpub_key_bytes(&key)),
            Err(e) => Err(e),
        }
    }

    /// Serializes a structure and frames it as one signing request, or
    /// refuses a structure whose serialization exceeds the maximum accepted
    /// payload length.
    pub fn build_sign_request(b: &bitcoin::psbt::Psbt) -> (r: Option<Vec<u8>>)
        ensures
            psbt_bytes_of(*b).len() > MAX_MSG ==> r is None,
            psbt_bytes_of(*b).len() <= MAX_MSG ==> (r matches Some(f) && f@ == spec_frame(
                psbt_bytes_of(*b),
            )),
            r matches Some(f) ==> f@.len() >= 4 && f@ == spec_frame(f@.skip(4)) && f@.len()
                <= MAX_MSG + 4,
    {
        let out = crate::btc::psbt_serialize(b);
        let framed = encode_frame(&out);
        proof {
            if out@.len() <= MAX_MSG {
                crate::wire::lemma_frame_consistent(out@);
            }
        }
        framed
    }

    /// Applies a remote signing exchange's response payload to the caller's
    /// structure: merges the returned partial signatures, or — on a missing
    /// response, a decode failure or a merge failure — hands the structure
    /// back unchanged with the failure named.
    pub fn apply_sign_response(
        original: bitcoin::psbt::Psbt,
        response: Option<Vec<u8>>,
    ) -> (r: (bitcoin::psbt::Psbt, RemoteOutcome))
        ensures
            response is None ==> (r.1 == RemoteOutcome::TransportFailed && r.0 == original),
            response matches Some(bytes) ==> (psbt_parse(bytes@) is None ==> (r.1
                == RemoteOutcome::DecodeFailed && r.0 == original)),
            response matches Some(bytes) ==> (psbt_parse(bytes@) matches Some(p) ==> {
                &&& (combined_with(original, p) matches Some(m) ==> (r.1 == RemoteOutcome::Merged
                    && r.0 == m))
                &&& (combined_with(original, p) is None ==> (r.1 == RemoteOutcome::MergeFailed
                    && r.0 == original))
            }),
            !(r.1 == RemoteOutcome::Merged) ==> r.0 == original,
    {
        match response {
            None => (original, RemoteOutcome::TransportFailed),
            Some(bytes) => match crate::btc::psbt_deserialize(&bytes) {
                Err(_) => (original, RemoteOutcome::DecodeFailed),
                Ok(resp) => {
                    let base = crate::btc::clone_psbt(&original);
                    match crate::btc::combine_psbt(base, resp) {
                        Some(merged) => (merged, RemoteOutcome::Merged),
                        None => (original, RemoteOutcome::MergeFailed),
                    }
                },
            },
        }
    }
}

} // verus!
