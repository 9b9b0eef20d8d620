//! The transaction-template commitment digest.
//!
//! The Signing Service recomputes, from the unsigned transaction carried in a
//! request, the commitment hash the compiler committed to: a SHA-256 over the
//! transaction's structural fields — version, lock time, input count, a
//! digest of the input sequence numbers, output count, a digest of the
//! serialized outputs, and the committed input index.

use vstd::prelude::*;
use crate::btc::sha256_of;
use crate::wire::push_all;

verus! {

/// The structural fields of a transaction template that the commitment
/// digest covers, as plain values.  A template carries no scriptSigs: the
/// digest as written here matches a transaction's commitment only where
/// every input's scriptSig is empty, which holds of the segwit structures
/// the oracle signs.
pub struct TxTemplate {
    /// Transaction version, as consensus-encoded (little-endian, signed).
    pub version: i32,
    /// Absolute lock time, as its consensus `u32`.
    pub lock_time: u32,
    /// Each input's sequence number, in input order.
    pub sequences: Vec<u32>,
    /// Each output's standard binary serialization, in output order.
    pub outputs: Vec<Vec<u8>>,
}

/// The four little-endian bytes of a 32-bit field.
pub open spec fn le32(x: u32) -> Seq<u8> {
    seq![x as u8, (x >> 8u32) as u8, (x >> 16u32) as u8, (x >> 24u32) as u8]
}

/// All sequence numbers, concatenated little-endian.
pub open spec fn le32_all(xs: Seq<u32>) -> Seq<u8>
    decreases xs.len(),
{
    if xs.len() == 0 {
        Seq::empty()
    } else {
        le32_all(xs.drop_last()) + le32(xs.last())
    }
}

/// All serialized outputs, concatenated.
pub open spec fn concat_all(xs: Seq<Vec<u8>>) -> Seq<u8>
    decreases xs.len(),
{
    if xs.len() == 0 {
        Seq::empty()
    } else {
        concat_all(xs.drop_last()) + xs.last()@
    }
}

/// The bytes the commitment digest is computed over.
pub open spec fn commitment_preimage(t: TxTemplate, input_index: u32) -> Seq<u8>
    recommends
        t.sequences@.len() <= 0xffff_ffff,
        t.outputs@.len() <= 0xffff_ffff,
{
    le32(t.version as u32) + le32(t.lock_time) + le32(t.sequences@.len() as u32) + sha256_of(
        le32_all(t.sequences@),
    ) + le32(t.outputs@.len() as u32) + sha256_of(concat_all(t.outputs@)) + le32(input_index)
}

/// The commitment hash of a template at an input index.
pub open spec fn spec_commitment(t: TxTemplate, input_index: u32) -> Seq<u8> {
    sha256_of(commitment_preimage(t, input_index))
}

/// Whether the template's input and output counts fit the digest's 32-bit
/// count fields.
pub open spec fn counts_ok(t: TxTemplate) -> bool {
    t.sequences@.len() <= 0xffff_ffff && t.outputs@.len() <= 0xffff_ffff
}

/// Appends a 32-bit field little-endian.
fn push_le32(buf: &mut Vec<u8>, x: u32)
    ensures
        final(buf)@ == old(buf)@ + le32(x),
{
    buf.push(x as u8);
    buf.push((x >> 8u32) as u8);
    buf.push((x >> 16u32) as u8);
    buf.push((x >> 24u32) as u8);
    proof {
        assert(buf@ =~= old(buf)@ + le32(x));
    }
}

/// Computes the 32-byte commitment hash of a template for the given input
/// index.
pub fn template_commitment(t: &TxTemplate, input_index: u32) -> (h: Vec<u8>)
    requires
        t.sequences@.len() <= 0xffff_ffff,
        t.outputs@.len() <= 0xffff_ffff,
    ensures
        h@ == spec_commitment(*t, input_index),
        h@.len() == 32,
{
    let mut seq_blob: Vec<u8> = Vec::new();
    let mut i: usize = 0;
    while i < t.sequences.len()
        invariant
            i <= t.sequences@.len(),
            seq_blob@ == le32_all(t.sequences@.take(i as int)),
        decreases t.sequences@.len() - i,
    {
        push_le32(&mut seq_blob, t.sequences[i]);
        proof {
            assert(t.sequences@.take(i as int + 1).drop_last() =~= t.sequences@.take(i as int));
            assert(t.sequences@.take(i as int + 1).last() == t.sequences@[i as int]);
        }
        i = i + 1;
    }
    proof {
        assert(t.sequences@.take(t.sequences@.len() as int) =~= t.sequences@);
    }
    let seq_hash = crate::btc::sha256(&seq_blob);
    let mut out_blob: Vec<u8> = Vec::new();
    let mut j: usize = 0;
    while j < t.outputs.len()
        invariant
            j <= t.outputs@.len(),
            out_blob@ == concat_all(t.outputs@.take(j as int)),
        decreases t.outputs@.len() - j,
    {
        push_all(&mut out_blob, &t.outputs[j]);
        proof {
            assert(t.outputs@.take(j as int + 1).drop_last() =~= t.outputs@.take(j as int));
            assert(t.outputs@.take(j as int + 1).last() == t.outputs@[j as int]);
        }
        j = j + 1;
    }
    proof {
        assert(t.outputs@.take(t.outputs@.len() as int) =~= t.outputs@);
    }
    let out_hash = crate::btc::sha256(&out_blob);
    let mut buf: Vec<u8> = Vec::new();
    push_le32(&mut buf, t.version as u32);
    push_le32(&mut buf, t.lock_time);
    push_le32(&mut buf, t.sequences.len() as u32);
    push_all(&mut buf, &seq_hash);
    push_le32(&mut buf, t.outputs.len() as u32);
    push_all(&mut buf, &out_hash);
    push_le32(&mut buf, input_index);
    proof {
        assert(buf@ =~= commitment_preimage(*t, input_index));
    }
    crate::btc::sha256(&buf)
}

} // verus!
