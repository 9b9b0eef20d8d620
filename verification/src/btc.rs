//! Trusted boundary to the bitcoin crate: the standard key-derivation,
//! elliptic-curve, hashing and partially-signed-transaction serialization
//! primitives the oracle consumes but does not reimplement.  Every function
//! here only converts between plain values and the outside call's arguments
//! and results; its contract states no more than the outside source shows.

use vstd::prelude::*;
use bitcoin::hashes::Hash as _;

verus! {

#[verifier::external_type_specification]
#[verifier::external_body]
pub struct ExXpriv(bitcoin::bip32::Xpriv);

#[verifier::external_type_specification]
#[verifier::external_body]
pub struct ExXpub(bitcoin::bip32::Xpub);

#[verifier::external_type_specification]
#[verifier::external_body]
pub struct ExBip32Error(bitcoin::bip32::Error);

#[verifier::external_type_specification]
#[verifier::external_body]
pub struct ExPsbt(bitcoin::psbt::Psbt);

#[verifier::external_type_specification]
#[verifier::external_body]
pub struct ExPsbtError(bitcoin::psbt::Error);

/// A shared elliptic-curve computation context, comparatively expensive to
/// construct and reused across requests.  Verus refuses the underlying
/// generic declaration, so the context is held opaquely.
#[verifier::external_body]
pub struct SecpContext {
    inner: bitcoin::secp256k1::Secp256k1<bitcoin::secp256k1::All>,
}

/// Relies on Xpriv's derived Clone (the type is Copy): the copy equals the
/// original.
pub assume_specification[ <bitcoin::bip32::Xpriv as core::clone::Clone>::clone ](
    x: &bitcoin::bip32::Xpriv,
) -> (r: bitcoin::bip32::Xpriv)
    ensures
        r == *x,
;

/// The SHA-256 digest of a byte sequence; a function of the bytes alone.
pub uninterp spec fn sha256_of(data: Seq<u8>) -> Seq<u8>;

/// The child private key Xpriv::derive_priv yields along a path, or `None`
/// where a derivation step rejects the key material; a function of the key
/// and the indices alone.
pub uninterp spec fn priv_child_of(root: bitcoin::bip32::Xpriv, path: Seq<u32>) -> Option<
    bitcoin::bip32::Xpriv,
>;

/// The child public key Xpub::derive_pub yields along a non-hardened path,
/// or `None` where a derivation step rejects the key material.
pub uninterp spec fn pub_child_of(root: bitcoin::bip32::Xpub, path: Seq<u32>) -> Option<
    bitcoin::bip32::Xpub,
>;

/// The 33-byte compressed encoding of an extended public key's key.
pub uninterp spec fn pub_key_bytes_of(x: bitcoin::bip32::Xpub) -> Seq<u8>;

/// The 33-byte compressed encoding of the public key matching an extended
/// private key's key.
pub uninterp spec fn priv_key_bytes_of(k: bitcoin::bip32::Xpriv) -> Seq<u8>;

/// The structure Psbt::deserialize parses from a byte sequence, or `None`
/// where the bytes are rejected.
pub uninterp spec fn psbt_parse(bytes: Seq<u8>) -> Option<bitcoin::psbt::Psbt>;

/// The standard binary serialization Psbt::serialize writes.
pub uninterp spec fn psbt_bytes_of(p: bitcoin::psbt::Psbt) -> Seq<u8>;

/// The plain template fields of a structure's unsigned transaction.
pub uninterp spec fn template_of(p: bitcoin::psbt::Psbt) -> crate::template::TxTemplate;

/// Input 0's witness script bytes and spent-output value, where both are
/// present.
pub uninterp spec fn input0_context_of(p: bitcoin::psbt::Psbt) -> Option<(Seq<u8>, u64)>;

/// The segwit-v0 signature digest of input 0 under a witness script and
/// spent value, or `None` where the structure has no input 0.
pub uninterp spec fn sighash_of(p: bitcoin::psbt::Psbt, script: Seq<u8>, value: u64) -> Option<
    Seq<u8>,
>;

/// The DER serialization of the (deterministic, RFC 6979) ECDSA signature of
/// a 32-byte digest under an extended private key's key.
pub uninterp spec fn ecdsa_der_of(key: bitcoin::bip32::Xpriv, digest: Seq<u8>) -> Seq<u8>;

/// The structure with the (public key of `key`, `sig`) pair inserted into
/// input 0's partial-signature map, or `None` where `sig` does not parse as
/// a DER signature plus sighash-type byte or the structure has no input 0.
pub uninterp spec fn with_input0_signature(
    b: bitcoin::psbt::Psbt,
    key: bitcoin::bip32::Xpriv,
    sig: Seq<u8>,
) -> Option<bitcoin::psbt::Psbt>;

/// The merge Psbt::combine produces, or `None` where the structures cannot
/// be combined; a function of the two structures alone.
pub uninterp spec fn combined_with(
    base: bitcoin::psbt::Psbt,
    other: bitcoin::psbt::Psbt,
) -> Option<bitcoin::psbt::Psbt>;

/// Relies on bitcoin's sha256 hash: the digest is 32 bytes and depends on
/// the input bytes alone.
#[verifier::external_body]
pub(crate) fn sha256(data: &Vec<u8>) -> (r: Vec<u8>)
    ensures
        r@ == sha256_of(data@),
        r@.len() == 32,
{
    bitcoin::hashes::sha256::Hash::hash(data.as_slice()).to_byte_array().to_vec()
}

/// Relies on Secp256k1::new to build a fresh all-capabilities context.
#[verifier::external_body]
pub fn fresh_context() -> SecpContext {
    SecpContext { inner: bitcoin::secp256k1::Secp256k1::new() }
}

/// Relies on Xpriv::derive_priv: derives the child private key along the
/// given indices, each taken as a non-hardened child number; the result and
/// the failure condition depend on the key and the indices alone.
#[verifier::external_body]
pub(crate) fn derive_priv_at(
    root: &bitcoin::bip32::Xpriv,
    secp: &SecpContext,
    path: &Vec<u32>,
) -> (r: Result<bitcoin::bip32::Xpriv, bitcoin::bip32::Error>)
    requires
        forall|i: int| 0 <= i < path@.len() ==> path@[i] < crate::path::HARDENED_BOUND,
    ensures
        r matches Ok(k) ==> priv_child_of(*root, path@) == Some(k),
        r is Err ==> priv_child_of(*root, path@) is None,
{
    let cs: Vec<bitcoin::bip32::ChildNumber> = path
        .iter()
        .map(|x| bitcoin::bip32::ChildNumber::from(*x))
        .collect();
    root.derive_priv(&secp.inner, &cs)
}

/// Relies on Xpub::derive_pub: derives the child public key along the given
/// indices, each taken as a non-hardened child number, without private key
/// material; under the non-hardened bound it never fails for hardenedness,
/// and the result and the failure condition depend on the key and the
/// indices alone.
#[verifier::external_body]
pub(crate) fn derive_pub_at(
    root: &bitcoin::bip32::Xpub,
    secp: &SecpContext,
    path: &Vec<u32>,
) -> (r: Result<bitcoin::bip32::Xpub, bitcoin::bip32::Error>)
    requires
        forall|i: int| 0 <= i < path@.len() ==> path@[i] < crate::path::HARDENED_BOUND,
    ensures
        r matches Ok(k) ==> pub_child_of(*root, path@) == Some(k),
        r is Err ==> pub_child_of(*root, path@) is None,
{
    let cs: Vec<bitcoin::bip32::ChildNumber> = path
        .iter()
        .map(|x| bitcoin::bip32::ChildNumber::from(*x))
        .collect();
    root.derive_pub(&secp.inner, &cs)
}

/// Relies on secp256k1's PublicKey::serialize: the compressed encoding of a
/// public key is 33 bytes.
#[verifier::external_body]
pub(crate) fn xpub_key_bytes(x: &bitcoin::bip32::Xpub) -> (r: Vec<u8>)
    ensures
        r@ == pub_key_bytes_of(*x),
        r@.len() == 33,
{
    x.public_key.serialize().to_vec()
}

/// Relies on SecretKey::public_key and PublicKey::serialize: the compressed
/// encoding of the public key matching a private key is 33 bytes.
#[verifier::external_body]
pub(crate) fn xpriv_key_bytes(
    k: &bitcoin::bip32::Xpriv,
    secp: &SecpContext,
) -> (r: Vec<u8>)
    ensures
        r@ == priv_key_bytes_of(*k),
        r@.len() == 33,
{
    k.private_key.public_key(&secp.inner).serialize().to_vec()
}

/// Relies on Psbt::deserialize to parse a partially-signed-transaction
/// structure from its standard binary serialization; the result is a
/// function of the bytes alone.
#[verifier::external_body]
pub(crate) fn psbt_deserialize(bytes: &Vec<u8>) -> (r: Result<
    bitcoin::psbt::Psbt,
    bitcoin::psbt::Error,
>)
    ensures
        r matches Ok(p) ==> psbt_parse(bytes@) == Some(p),
        r is Err ==> psbt_parse(bytes@) is None,
{
    bitcoin::psbt::Psbt::deserialize(bytes.as_slice())
}

/// Relies on Psbt::serialize to write the standard binary serialization.
#[verifier::external_body]
pub(crate) fn psbt_serialize(p: &bitcoin::psbt::Psbt) -> (r: Vec<u8>)
    ensures
        r@ == psbt_bytes_of(*p),
{
    p.serialize()
}

/// Relies on Psbt's Clone impl: the copy equals the original.
#[verifier::external_body]
pub(crate) fn clone_psbt(p: &bitcoin::psbt::Psbt) -> (r: bitcoin::psbt::Psbt)
    ensures
        r == *p,
{
    p.clone()
}

/// Relies on Psbt::combine to merge another structure's partial signatures
/// and metadata into this one.  The dependency's global-xpub merge computes
/// a slice range that underflows (a panic) when an incoming derivation path
/// is shorter than the held one for the same xpub yet not a suffix of it;
/// that inconsistent-key-source case is detected first and reported as an
/// ordinary failure instead of reaching the panic.
#[verifier::external_body]
pub(crate) fn combine_psbt(base: bitcoin::psbt::Psbt, other: bitcoin::psbt::Psbt) -> (r: Option<
    bitcoin::psbt::Psbt,
>)
    ensures
        r matches Some(m) ==> combined_with(base, other) == Some(m),
        r is None ==> combined_with(base, other) is None,
{
    let mut b = base;
    for (xpub, (_, d1)) in other.xpub.iter() {
        if let Some((_, d2)) = b.xpub.get(xpub) {
            if d1.len() < d2.len() && d1[..] != d2[d2.len() - d1.len()..] {
                return None;
            }
        }
    }
    match b.combine(other) {
        Ok(()) => Some(b),
        Err(_) => None,
    }
}

/// Relies on the Psbt field layout and TxOut's consensus encoding: copies the
/// unsigned transaction's template fields out as plain values.
#[verifier::external_body]
pub(crate) fn template_of_psbt(p: &bitcoin::psbt::Psbt) -> (r: crate::template::TxTemplate)
    ensures
        r == template_of(*p),
{
    let tx = &p.unsigned_tx;
    crate::template::TxTemplate {
        version: tx.version.0,
        lock_time: tx.lock_time.to_consensus_u32(),
        sequences: tx.input.iter().map(|i| i.sequence.0).collect(),
        outputs: tx.output.iter().map(|o| bitcoin::consensus::encode::serialize(o)).collect(),
    }
}

/// Relies on the Psbt input field layout: hands out input 0's witness script
/// bytes and spent-output value, if both are present.
#[verifier::external_body]
pub(crate) fn input0_context(p: &bitcoin::psbt::Psbt) -> (r: Option<(Vec<u8>, u64)>)
    ensures
        r matches Some(c) ==> input0_context_of(*p) == Some((c.0@, c.1)),
        r is None ==> input0_context_of(*p) is None,
{
    match p.inputs.get(0) {
        Some(inp) => match (&inp.witness_script, &inp.witness_utxo) {
            (Some(ws), Some(utxo)) => Some((ws.as_bytes().to_vec(), utxo.value.to_sat())),
            _ => None,
        },
        None => None,
    }
}

/// Relies on SighashCache::p2wsh_signature_hash: the segwit-v0 signature
/// digest for input 0 under the given witness script and spent value is 32
/// bytes.
#[verifier::external_body]
pub(crate) fn segwit_sighash(p: &bitcoin::psbt::Psbt, script: &Vec<u8>, value: u64) -> (r: Option<
    Vec<u8>,
>)
    ensures
        r matches Some(d) ==> sighash_of(*p, script@, value) == Some(d@) && d@.len() == 32,
        r is None ==> sighash_of(*p, script@, value) is None,
{
    let mut cache = bitcoin::sighash::SighashCache::new(&p.unsigned_tx);
    match cache.p2wsh_signature_hash(
        0,
        bitcoin::Script::from_bytes(script.as_slice()),
        bitcoin::Amount::from_sat(value),
        bitcoin::EcdsaSighashType::All,
    ) {
        Ok(h) => Some(h.to_byte_array().to_vec()),
        Err(_) => None,
    }
}

/// Relies on secp256k1's sign_ecdsa (deterministic per RFC 6979) and the
/// DER serialization of the resulting signature: the bytes are a function of
/// the key and the digest alone.
#[verifier::external_body]
pub(crate) fn sign_digest(
    secp: &SecpContext,
    key: &bitcoin::bip32::Xpriv,
    digest: &Vec<u8>,
) -> (r: Vec<u8>)
    requires
        digest@.len() == 32,
    ensures
        r@ == ecdsa_der_of(*key, digest@),
{
    let mut d = [0u8; 32];
    d.copy_from_slice(&digest[..]);
    let msg = bitcoin::secp256k1::Message::from_digest(d);
    secp.inner.sign_ecdsa(&msg, &key.private_key).serialize_der().to_vec()
}

/// Relies on ecdsa::Signature::from_slice and the partial-signature map of
/// Psbt input 0: inserts the (public key, signature) pair, or hands the
/// structure back unchanged when the signature bytes do not parse or the
/// structure has no input 0.
#[verifier::external_body]
pub(crate) fn insert_input0_signature(
    b: bitcoin::psbt::Psbt,
    key: &bitcoin::bip32::Xpriv,
    secp: &SecpContext,
    sig: &Vec<u8>,
) -> (r: Result<bitcoin::psbt::Psbt, bitcoin::psbt::Psbt>)
    ensures
        r matches Ok(p) ==> with_input0_signature(b, *key, sig@) == Some(p),
        r matches Err(p) ==> p == b && with_input0_signature(b, *key, sig@) is None,
{
    let mut b = b;
    let pk = bitcoin::PublicKey::new(key.private_key.public_key(&secp.inner));
    let parsed = bitcoin::ecdsa::Signature::from_slice(sig.as_slice());
    let ok = match (parsed, b.inputs.get_mut(0)) {
        (Ok(s), Some(inp)) => {
            inp.partial_sigs.insert(pk, s);
            true
        },
        _ => false,
    };
    if ok {
        Ok(b)
    } else {
        Err(b)
    }
}

} // verus!
