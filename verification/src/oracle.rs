//! Signing Service: owns the master private extended key; for each request
//! it recomputes the template's commitment hash for input 0, derives the
//! matching child private key, and — when the input carries the witness
//! script and spent value needed for a segwit-v0 digest — inserts a
//! signature into the structure's partial-signature map.  A structure it
//! cannot sign is returned unchanged, so the caller can try other signers.

use vstd::prelude::*;
use crate::path::{derive_path, spec_derive_path};
use crate::template::{counts_ok, TxTemplate};
use crate::wire::{encode_frame, MAX_MSG};
use crate::btc::SecpContext;
use crate::btc::{
    ecdsa_der_of, input0_context_of, priv_child_of, priv_key_bytes_of, psbt_bytes_of, psbt_parse,
    sighash_of, template_of, with_input0_signature,
};

verus! {

/// Why key derivation was refused, as the library's own error.
#[derive(Clone, Copy, Debug, PartialEq, Eq, Structural)]
pub enum DeriveError {
    /// The underlying hierarchical-derivation step rejected the key material.
    KeyDerivation,
}

/// How one signing attempt ended; failures leave the structure unchanged.
#[derive(Clone, Copy, Debug, PartialEq, Eq, Structural)]
pub enum SignOutcome {
    /// A signature for input 0 was inserted.
    Signed,
    /// Input 0 carries no witness script or no spent-output value.
    MissingContext,
    /// Child key derivation failed.
    DerivationFailed,
    /// The segwit-v0 signature digest could not be computed.
    SighashFailed,
    /// The produced signature could not be inserted.
    InsertFailed,
    /// The template's input or output count does not fit a 32-bit field.
    TemplateTooLarge,
}

/// The sighash-type byte appended to every signature: it covers all outputs.
pub const SIGHASH_ALL: u8 = 0x01;

/// Appends the standard "signature covers all outputs" sighash-type byte to
/// a serialized signature.
pub fn finalize_signature(sig: Vec<u8>) -> (r: Vec<u8>)
    ensures
        r@ == sig@ + seq![SIGHASH_ALL],
        r@.len() == sig@.len() + 1,
{
    let mut r = sig;
    r.push(SIGHASH_ALL);
    r
}

/// The witness context of input 0, as the mathematical values the signing
/// decision reads.
pub open spec fn spec_context_view(context: Option<(Vec<u8>, u64)>) -> Option<(Seq<u8>, u64)> {
    match context {
        None => None,
        Some(c) => Some((c.0@, c.1)),
    }
}

/// What signing a structure against a commitment hash yields, step by step:
/// no witness context, a failed derivation, a failed digest or a failed
/// insert each return the structure unchanged with the failure named; else
/// the structure gains the signature of the digest under the derived child
/// key, with the sighash-type byte appended.
pub open spec fn spec_sign_for_commitment(
    root: bitcoin::bip32::Xpriv,
    b: bitcoin::psbt::Psbt,
    h: Seq<u8>,
    context: Option<(Seq<u8>, u64)>,
) -> (bitcoin::psbt::Psbt, SignOutcome) {
    match context {
        None => (b, SignOutcome::MissingContext),
        Some(c) => match priv_child_of(root, spec_derive_path(h)) {
            None => (b, SignOutcome::DerivationFailed),
            Some(k) => match sighash_of(b, c.0, c.1) {
                None => (b, SignOutcome::SighashFailed),
                Some(d) => match with_input0_signature(b, k, ecdsa_der_of(k, d).push(SIGHASH_ALL)) {
                    None => (b, SignOutcome::InsertFailed),
                    Some(s) => (s, SignOutcome::Signed),
                },
            },
        },
    }
}

/// What the service's whole signing step yields: the commitment hash is the
/// template digest at input 0, and the witness context is read from input 0.
pub open spec fn spec_sign(root: bitcoin::bip32::Xpriv, b: bitcoin::psbt::Psbt) -> (
    bitcoin::psbt::Psbt,
    SignOutcome,
) {
    if !counts_ok(template_of(b)) {
        (b, SignOutcome::TemplateTooLarge)
    } else {
        spec_sign_for_commitment(
            root,
            b,
            crate::template::spec_commitment(template_of(b), 0),
            input0_context_of(b),
        )
    }
}

/// The server side of the oracle: holds the master private extended key.
#[derive(Clone)]
pub struct HDOracleEmulator {
    root: bitcoin::bip32::Xpriv,
}

impl HDOracleEmulator {
    /// The master private extended key the oracle signs with.
    pub closed spec fn spec_root(&self) -> bitcoin::bip32::Xpriv {
        self.root
    }

    /// Builds an oracle around the master private extended key.
    pub fn new(root: bitcoin::bip32::Xpriv) -> (r: Self)
        ensures
            r.spec_root() == root,
    {
        HDOracleEmulator { root }
    }

    /// Derives the child private key for a commitment hash: the hash is
    /// mapped to its nine-index path and the path applied to the master key;
    /// it fails exactly where the underlying derivation rejects the key
    /// material, never for a hardened index.
    pub fn derive(&self, h: &Vec<u8>, secp: &SecpContext) -> (r: Result<
        bitcoin::bip32::Xpriv,
        DeriveError,
    >)
        requires
            h@.len() == 32,
        ensures
            r matches Ok(k) ==> priv_child_of(self.spec_root(), spec_derive_path(h@)) == Some(k),
            r is Err ==> priv_child_of(self.spec_root(), spec_derive_path(h@)) is None,
    {
        let path = derive_path(h);
        match crate::btc::derive_priv_at(&self.root, secp, &path) {
            Ok(key) => Ok(key),
            Err(_) => Err(DeriveError::KeyDerivation),
        }
    }

    /// The compressed public key matching the child private key the oracle
    /// would sign with for this commitment hash; `Ok` exactly where that
    /// derivation succeeds.
    pub fn signing_public_key(&self, h: &Vec<u8>, secp: &SecpContext) -> (r: Result<
        Vec<u8>,
        DeriveError,
    >)
        requires
            h@.len() == 32,
        ensures
            (r is Ok) <==> priv_child_of(self.spec_root(), spec_derive_path(h@)) is Some,
            r matches Ok(k) ==> (priv_child_of(self.spec_root(), spec_derive_path(h@))
                matches Some(c) && k@ == priv_key_bytes_of(c) && k@.len() == 33),
    {
        match self.derive(h, secp) {
            Ok(key) => Ok(crate::btc::xpriv_key_bytes(&key, secp)),
            Err(e) => Err(e),
        }
    }

    /// Signs input 0 of a structure against the given commitment hash, or
    /// returns the structure unchanged when the input lacks its witness
    /// script or spent value, or when derivation, digest computation or the
    /// insert fails.
    pub fn sign_for_commitment(
        &self,
        b: bitcoin::psbt::Psbt,
        h: &Vec<u8>,
        context: Option<(Vec<u8>, u64)>,
        secp: &SecpContext,
    ) -> (r: (bitcoin::psbt::Psbt, SignOutcome))
        requires
            h@.len() == 32,
        ensures
            r == spec_sign_for_commitment(self.spec_root(), b, h@, spec_context_view(context)),
            (r.1 == SignOutcome::MissingContext) <==> context is None,
            !(r.1 == SignOutcome::Signed) ==> r.0 == b,
    {
        match context {
            None => (b, SignOutcome::MissingContext),
            Some((script, value)) => match self.derive(h, secp) {
                Err(_) => (b, SignOutcome::DerivationFailed),
                Ok(key) => match crate::btc::segwit_sighash(&b, &script, value) {
                    None => (b, SignOutcome::SighashFailed),
                    Some(digest) => {
                        let der = crate::btc::sign_digest(secp, &key, &digest);
                        let sig = finalize_signature(der);
                        proof {
                            assert(sig@ =~= ecdsa_der_of(key, digest@).push(SIGHASH_ALL));
                        }
                        match crate::btc::insert_input0_signature(b, &key, secp, &sig) {
                            Ok(signed) => (signed, SignOutcome::Signed),
                            Err(unchanged) => (unchanged, SignOutcome::InsertFailed),
                        }
                    },
                },
            },
        }
    }

    /// Recomputes the commitment hash of a structure's transaction template
    /// at the given input index, together with the template it was computed
    /// over; refused only where a count does not fit the digest's 32-bit
    /// fields.
    pub fn commitment_of(p: &bitcoin::psbt::Psbt, input_index: u32) -> (r: Option<
        (TxTemplate, Vec<u8>),
    >)
        ensures
            (r is Some) <==> counts_ok(template_of(*p)),
            r matches Some(th) ==> th.0 == template_of(*p) && th.1@
                == crate::template::spec_commitment(template_of(*p), input_index) && th.1@.len()
                == 32,
    {
        let t = crate::btc::template_of_psbt(p);
        if t.sequences.len() > 0xffff_ffff as usize || t.outputs.len() > 0xffff_ffff as usize {
            return None;
        }
        let h = crate::template::template_commitment(&t, input_index);
        Some((t, h))
    }

    /// Signs a structure as the service does: recomputes the commitment hash
    /// for input 0 and attempts a best-effort signature there.
    pub fn sign(&self, b: bitcoin::psbt::Psbt, secp: &SecpContext) -> (r: (
        bitcoin::psbt::Psbt,
        SignOutcome,
    ))
        ensures
            r == spec_sign(self.spec_root(), b),
            !(r.1 == SignOutcome::Signed) ==> r.0 == b,
    {
        match Self::commitment_of(&b, 0) {
            None => (b, SignOutcome::TemplateTooLarge),
            Some((_, h)) => {
                let context = crate::btc::input0_context(&b);
                self.sign_for_commitment(b, &h, context, secp)
            },
        }
    }

    /// Handles one decoded request: signs best-effort and re-serializes the
    /// result framed for the wire.  No response is produced exactly when the
    /// payload does not parse as a structure or the response would exceed
    /// the maximum accepted payload length; a response carries the
    /// serialization of the signed structure.
    pub fn handle_request(&self, msg: &Vec<u8>, secp: &SecpContext) -> (r: Option<Vec<u8>>)
        ensures
            psbt_parse(msg@) is None ==> r is None,
            psbt_parse(msg@) matches Some(p) ==> {
                let out = psbt_bytes_of(spec_sign(self.spec_root(), p).0);
                &&& (out.len() > MAX_MSG ==> r is None)
                &&& (out.len() <= MAX_MSG ==> (r matches Some(f) && f@
                    == crate::wire::spec_frame(out)))
            },
            r matches Some(f) ==> f@.len() >= 4 && f@ == crate::wire::spec_frame(f@.skip(4))
                && f@.len() <= MAX_MSG + 4,
    {
        match crate::btc::psbt_deserialize(msg) {
            Err(_) => None,
            Ok(psbt) => {
                let (signed, _outcome) = self.sign(psbt, secp);
                let out = crate::btc::psbt_serialize(&signed);
                let framed = encode_frame(&out);
                proof {
                    if out@.len() <= MAX_MSG {
                        crate::wire::lemma_frame_consistent(out@);
                    }
                }
                framed
            },
        }
    }
}

/// Law: a structure whose input 0 carries no witness context is returned
/// unchanged by the service's signing step, with the missing context named.
pub proof fn lemma_missing_context_unchanged(root: bitcoin::bip32::Xpriv, b: bitcoin::psbt::Psbt)
    requires
        counts_ok(template_of(b)),
        input0_context_of(b) is None,
    ensures
        spec_sign(root, b) == (b, SignOutcome::MissingContext),
{
}

} // verus!
