//! Path Derivation Function: maps a 256-bit commitment hash onto nine
//! non-hardened child-derivation indices without losing entropy.
//!
//! The hash is split into eight big-endian 32-bit words; each word's
//! most-significant bit is cleared so the word is a valid non-hardened child
//! index, and the eight cleared bits are repacked into a ninth index, so the
//! nine indices together encode the full 256 bits.

use vstd::prelude::*;

verus! {

/// Lowest hardened child index: indices strictly below this bound are
/// non-hardened and usable for public-key-only derivation.
pub const HARDENED_BOUND: u32 = 0x8000_0000;

/// Big-endian 32-bit word `i` of a 32-byte hash.
pub open spec fn word_be(h: Seq<u8>, i: int) -> u32
    recommends
        h.len() == 32,
        0 <= i < 8,
{
    (((h[4 * i] as u32) << 24u32) | ((h[4 * i + 1] as u32) << 16u32) | ((h[4 * i + 2] as u32)
        << 8u32) | (h[4 * i + 3] as u32))
}

/// Word `i` with its most-significant bit cleared: a non-hardened index.
pub open spec fn masked_word(h: Seq<u8>, i: int) -> u32 {
    word_be(h, i) & 0x7fff_ffff
}

/// The discarded top bits of the first `n` words, packed so that bit `i` of
/// the result is the most-significant bit of word `i`.
pub open spec fn top_bits_prefix(h: Seq<u8>, n: int) -> u32
    decreases n,
{
    if n <= 0 {
        0u32
    } else {
        (top_bits_prefix(h, n - 1) | ((word_be(h, n - 1) >> 31u32) << ((n - 1) as u32)))
    }
}

/// The ninth index: all eight discarded top bits.
pub open spec fn top_bits(h: Seq<u8>) -> u32 {
    top_bits_prefix(h, 8)
}

/// The nine child indices derived from a 32-byte commitment hash.
pub open spec fn spec_derive_path(h: Seq<u8>) -> Seq<u32> {
    Seq::new(9, |i: int| if i < 8 { masked_word(h, i) } else { top_bits(h) })
}

/// Maps a 256-bit commitment hash to its nine-index derivation path.
pub fn derive_path(h: &Vec<u8>) -> (path: Vec<u32>)
    requires
        h@.len() == 32,
    ensures
        path@ == spec_derive_path(h@),
        path@.len() == 9,
        forall|i: int| 0 <= i < 8 ==> path@[i] < HARDENED_BOUND,
        path@[8] < 512,
{
    let mut path: Vec<u32> = Vec::new();
    let mut top: u32 = 0;
    let mut i: usize = 0;
    while i < 8
        invariant
            h@.len() == 32,
            i <= 8,
            path@.len() == i,
            forall|j: int| 0 <= j < i ==> path@[j] == masked_word(h@, j),
            forall|j: int| 0 <= j < i ==> path@[j] < HARDENED_BOUND,
            top == top_bits_prefix(h@, i as int),
            top < 256,
        decreases 8 - i,
    {
        let w: u32 = ((h[4 * i] as u32) << 24u32) | ((h[4 * i + 1] as u32) << 16u32) | ((h[4 * i
            + 2] as u32) << 8u32) | (h[4 * i + 3] as u32);
        let m: u32 = w & 0x7fff_ffff;
        proof {
            assert(w == word_be(h@, i as int));
            assert(m == masked_word(h@, i as int));
            assert(m < 0x8000_0000u32) by (bit_vector)
                requires
                    m == w & 0x7fff_ffff,
            ;
            let t = top;
            let iw = i as u32;
            assert((t | ((w >> 31u32) << iw)) < 256) by (bit_vector)
                requires
                    t < 256,
                    iw < 8,
            ;
        }
        path.push(m);
        top = top | ((w >> 31u32) << (i as u32));
        i = i + 1;
    }
    path.push(top);
    proof {
        assert(path@ =~= spec_derive_path(h@));
    }
    path
}

/// Big-endian byte `k` of a 32-bit word.
pub open spec fn byte_of_word(w: u32, k: int) -> u8
    recommends
        0 <= k < 4,
{
    if k == 0 {
        (w >> 24u32) as u8
    } else if k == 1 {
        (w >> 16u32) as u8
    } else if k == 2 {
        (w >> 8u32) as u8
    } else {
        w as u8
    }
}

/// Word `i` re-assembled from a derivation path: the masked word with its
/// most-significant bit restored from bit `i` of the ninth index.
pub open spec fn restored_word(path: Seq<u32>, i: int) -> u32
    recommends
        path.len() == 9,
        0 <= i < 8,
{
    (path[i] | (((path[8] >> (i as u32)) & 1) << 31u32))
}

/// The 32 bytes encoded by a nine-index derivation path.
pub open spec fn recovered_hash(path: Seq<u32>) -> Seq<u8>
    recommends
        path.len() == 9,
{
    Seq::new(32, |j: int| byte_of_word(restored_word(path, j / 4), j % 4))
}

/// Bound on the packed top bits: the first `n` words contribute only the low
/// `n` bits of the ninth index.
proof fn lemma_top_bits_prefix_bound(h: Seq<u8>, n: int)
    requires
        0 <= n <= 8,
    ensures
        top_bits_prefix(h, n) < (1u32 << (n as u32)),
    decreases n,
{
    if n == 0 {
        assert(0u32 < (1u32 << 0u32)) by (bit_vector);
    } else {
        lemma_top_bits_prefix_bound(h, n - 1);
        let t = top_bits_prefix(h, n - 1);
        let w = word_be(h, n - 1);
        let m = (n - 1) as u32;
        assert((t | ((w >> 31u32) << m)) < (1u32 << (m + 1) as u32)) by (bit_vector)
            requires
                t < (1u32 << m),
                m < 8,
        ;
    }
}

/// Bit `i` of the ninth index is the most-significant bit of word `i`.
proof fn lemma_top_bits_bit(h: Seq<u8>, n: int, i: int)
    requires
        0 <= i < n <= 8,
    ensures
        (top_bits_prefix(h, n) >> (i as u32)) & 1 == word_be(h, i) >> 31u32,
    decreases n,
{
    let t = top_bits_prefix(h, n - 1);
    let w = word_be(h, n - 1);
    let m = (n - 1) as u32;
    let iw = i as u32;
    if i == n - 1 {
        lemma_top_bits_prefix_bound(h, n - 1);
        assert(((t | ((w >> 31u32) << m)) >> m) & 1 == w >> 31u32) by (bit_vector)
            requires
                t < (1u32 << m),
                m < 8,
        ;
    } else {
        lemma_top_bits_bit(h, n - 1, i);
        assert(((t | ((w >> 31u32) << m)) >> iw) & 1 == (t >> iw) & 1) by (bit_vector)
            requires
                iw < m,
                m < 8,
        ;
    }
}

/// Law: the nine-index output is a lossless encoding of the hash; the
/// original 256 bits are fully recoverable from the indices.
pub proof fn lemma_path_lossless(h: Seq<u8>)
    requires
        h.len() == 32,
    ensures
        recovered_hash(spec_derive_path(h)) == h,
{
    let p = spec_derive_path(h);
    assert forall|j: int| 0 <= j < 32 implies recovered_hash(p)[j] == h[j] by {
        let i = j / 4;
        let k = j % 4;
        let w = word_be(h, i);
        lemma_top_bits_bit(h, 8, i);
        assert(((w & 0x7fff_ffff) | ((w >> 31u32) << 31u32)) == w) by (bit_vector);
        assert((w >> 31u32) & 1 == w >> 31u32) by (bit_vector);
        assert(restored_word(p, i) == w);
        let b0 = h[4 * i];
        let b1 = h[4 * i + 1];
        let b2 = h[4 * i + 2];
        let b3 = h[4 * i + 3];
        assert((((b0 as u32) << 24u32 | (b1 as u32) << 16u32 | (b2 as u32) << 8u32 | (b3 as u32))
            >> 24u32) as u8 == b0) by (bit_vector);
        assert((((b0 as u32) << 24u32 | (b1 as u32) << 16u32 | (b2 as u32) << 8u32 | (b3 as u32))
            >> 16u32) as u8 == b1) by (bit_vector);
        assert((((b0 as u32) << 24u32 | (b1 as u32) << 16u32 | (b2 as u32) << 8u32 | (b3 as u32))
            >> 8u32) as u8 == b2) by (bit_vector);
        assert(((b0 as u32) << 24u32 | (b1 as u32) << 16u32 | (b2 as u32) << 8u32 | (
        b3 as u32)) as u8 == b3) by (bit_vector);
    }
    assert(recovered_hash(p) =~= h);
}

/// Law: the derivation path is a deterministic function of the hash; equal
/// hashes always map to the identical nine-index sequence.
pub proof fn lemma_path_deterministic(h1: Seq<u8>, h2: Seq<u8>)
    requires
        h1 == h2,
    ensures
        spec_derive_path(h1) == spec_derive_path(h2),
{
}

/// Law: every index of the path is non-hardened; the first eight are below
/// 2^31 and the ninth below 2^9.
pub proof fn lemma_path_indices_bounded(h: Seq<u8>)
    requires
        h.len() == 32,
    ensures
        spec_derive_path(h).len() == 9,
        forall|i: int| 0 <= i < 8 ==> spec_derive_path(h)[i] < HARDENED_BOUND,
        spec_derive_path(h)[8] < 512,
{
    assert forall|i: int| 0 <= i < 8 implies spec_derive_path(h)[i] < HARDENED_BOUND by {
        let w = word_be(h, i);
        assert((w & 0x7fff_ffff) < 0x8000_0000u32) by (bit_vector);
    }
    lemma_top_bits_prefix_bound(h, 8);
    assert(top_bits_prefix(h, 8) < (1u32 << 8u32));
    assert((1u32 << 8u32) == 256) by (bit_vector);
}

/// Law: distinct hashes always yield distinct paths (the encoding is
/// injective, so even a single flipped bit changes the nine-index sequence).
pub proof fn lemma_path_injective(h1: Seq<u8>, h2: Seq<u8>)
    requires
        h1.len() == 32,
        h2.len() == 32,
        spec_derive_path(h1) == spec_derive_path(h2),
    ensures
        h1 == h2,
{
    lemma_path_lossless(h1);
    lemma_path_lossless(h2);
}

/// Rebuilds the 32-byte commitment hash encoded by a nine-index path.
pub fn recover_commitment(path: &Vec<u32>) -> (h: Vec<u8>)
    requires
        path@.len() == 9,
    ensures
        h@ == recovered_hash(path@),
        h@.len() == 32,
{
    let mut h: Vec<u8> = Vec::new();
    let mut i: usize = 0;
    while i < 8
        invariant
            path@.len() == 9,
            i <= 8,
            h@.len() == 4 * i,
            forall|j: int| 0 <= j < 4 * i ==> h@[j] == recovered_hash(path@)[j],
        decreases 8 - i,
    {
        let ninth: u32 = path[8];
        let w: u32 = path[i] | (((ninth >> (i as u32)) & 1) << 31u32);
        proof {
            assert(w == restored_word(path@, i as int));
        }
        h.push((w >> 24u32) as u8);
        h.push((w >> 16u32) as u8);
        h.push((w >> 8u32) as u8);
        h.push(w as u8);
        i = i + 1;
    }
    proof {
        assert(h@ =~= recovered_hash(path@));
    }
    h
}

} // verus!
