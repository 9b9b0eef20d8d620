//! Wire Protocol: length-prefixed binary framing, symmetric in both
//! directions.  A frame is a big-endian `u32` length followed by exactly that
//! many payload bytes; frames declaring more than the maximum accepted
//! payload length are rejected without reading the body.

use vstd::prelude::*;

verus! {

/// Maximum accepted payload length in bytes.
pub const MAX_MSG: u32 = 1_000_000;

/// The framing violation the library itself detects.  Truncated reads and
/// payloads that do not decode surface as an absent response instead: the
/// wire protocol has no error frame.
#[derive(Clone, Copy, Debug, PartialEq, Eq, Structural)]
pub enum ProtocolError {
    /// The declared length exceeds the maximum accepted payload length.
    Oversized,
}

/// The four big-endian bytes of a length prefix.
pub open spec fn spec_len_be(len: u32) -> Seq<u8> {
    seq![(len >> 24u32) as u8, (len >> 16u32) as u8, (len >> 8u32) as u8, len as u8]
}

/// The length a four-byte big-endian header declares.
pub open spec fn spec_parse_len(b: Seq<u8>) -> u32
    recommends
        b.len() == 4,
{
    (((b[0] as u32) << 24u32) | ((b[1] as u32) << 16u32) | ((b[2] as u32) << 8u32) | (b[3] as u32))
}

/// A whole frame: the length prefix followed by the payload.
pub open spec fn spec_frame(payload: Seq<u8>) -> Seq<u8>
    recommends
        payload.len() <= MAX_MSG,
{
    spec_len_be(payload.len() as u32) + payload
}

/// Encodes a length prefix.
pub fn encode_len(len: u32) -> (r: Vec<u8>)
    ensures
        r@ == spec_len_be(len),
        r@.len() == 4,
{
    let mut r: Vec<u8> = Vec::new();
    r.push((len >> 24u32) as u8);
    r.push((len >> 16u32) as u8);
    r.push((len >> 8u32) as u8);
    r.push(len as u8);
    proof {
        assert(r@ =~= spec_len_be(len));
    }
    r
}

/// Reads the length a four-byte big-endian header declares.
pub fn parse_len(b: &Vec<u8>) -> (r: u32)
    requires
        b@.len() == 4,
    ensures
        r == spec_parse_len(b@),
{
    ((b[0] as u32) << 24u32) | ((b[1] as u32) << 16u32) | ((b[2] as u32) << 8u32) | (b[3] as u32)
}

/// Law: parsing a header written for `len` yields `len` again, and
/// re-encoding a parsed header yields the same four bytes.
pub proof fn lemma_len_roundtrip(len: u32, b: Seq<u8>)
    requires
        b.len() == 4,
    ensures
        spec_parse_len(spec_len_be(len)) == len,
        spec_len_be(spec_parse_len(b)) == b,
{
    let r0 = (len >> 24u32) as u8;
    let r1 = (len >> 16u32) as u8;
    let r2 = (len >> 8u32) as u8;
    let r3 = len as u8;
    assert((((r0 as u32) << 24u32) | ((r1 as u32) << 16u32) | ((r2 as u32) << 8u32) | (
    r3 as u32)) == len) by (bit_vector)
        requires
            r0 == (len >> 24u32) as u8,
            r1 == (len >> 16u32) as u8,
            r2 == (len >> 8u32) as u8,
            r3 == len as u8,
    ;
    let b0 = b[0];
    let b1 = b[1];
    let b2 = b[2];
    let b3 = b[3];
    let p = spec_parse_len(b);
    assert((p >> 24u32) as u8 == b0 && (p >> 16u32) as u8 == b1 && (p >> 8u32) as u8 == b2
        && p as u8 == b3) by (bit_vector)
        requires
            p == (((b0 as u32) << 24u32) | ((b1 as u32) << 16u32) | ((b2 as u32) << 8u32) | (
            b3 as u32)),
    ;
    assert(spec_len_be(spec_parse_len(b)) =~= b);
}

/// Decides whether a declared payload length is accepted: lengths above the
/// maximum are a framing violation and the body must not be read.
pub fn check_declared_len(len: u32) -> (r: Result<usize, ProtocolError>)
    ensures
        len <= MAX_MSG ==> (r matches Ok(n) && n == len as usize),
        len > MAX_MSG ==> (r matches Err(e) && e == ProtocolError::Oversized),
{
    if len > MAX_MSG {
        Err(ProtocolError::Oversized)
    } else {
        Ok(len as usize)
    }
}

/// Appends all of `src` to `dst`.
pub fn push_all(dst: &mut Vec<u8>, src: &Vec<u8>)
    ensures
        final(dst)@ == old(dst)@ + src@,
{
    let mut i: usize = 0;
    while i < src.len()
        invariant
            i <= src@.len(),
            dst@ == old(dst)@ + src@.take(i as int),
        decreases src@.len() - i,
    {
        dst.push(src[i]);
        proof {
            assert(old(dst)@ + src@.take(i as int) + seq![src@[i as int]] =~= old(dst)@
                + src@.take(i as int + 1));
        }
        i = i + 1;
    }
    proof {
        assert(src@.take(src@.len() as int) =~= src@);
    }
}

/// Builds the frame for a payload, or refuses a payload longer than the
/// maximum accepted length.
pub fn encode_frame(payload: &Vec<u8>) -> (r: Option<Vec<u8>>)
    ensures
        payload@.len() <= MAX_MSG ==> (r matches Some(f) && f@ == spec_frame(payload@)
            && f@.len() == payload@.len() + 4),
        payload@.len() > MAX_MSG ==> r is None,
{
    if payload.len() > MAX_MSG as usize {
        return None;
    }
    let mut f = encode_len(payload.len() as u32);
    push_all(&mut f, payload);
    Some(f)
}

/// Law: a frame declares exactly the length of the payload that follows the
/// four-byte header, and a declared length within the maximum is accepted.
pub proof fn lemma_frame_consistent(payload: Seq<u8>)
    requires
        payload.len() <= MAX_MSG,
    ensures
        spec_frame(payload).len() == payload.len() + 4,
        spec_parse_len(spec_frame(payload).take(4)) == payload.len(),
        spec_frame(payload).skip(4) == payload,
{
    let f = spec_frame(payload);
    assert(f.take(4) =~= spec_len_be(payload.len() as u32));
    lemma_len_roundtrip(payload.len() as u32, f.take(4));
    assert(f.skip(4) =~= payload);
}

} // verus!
