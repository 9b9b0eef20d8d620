use ctv_emulators::path::derive_path;
use ctv_emulators::path::recover_commitment;

fn sample_hash(seed: u8) -> Vec<u8> {
    let mut h: Vec<u8> = Vec::new();
    for i in 0..32u32 {
        h.push(seed.wrapping_add(i as u8).wrapping_mul(37));
    }
    h
}

#[test]
fn it_works() {
    assert_eq!(2 + 2, 4);
}

#[test]
fn zero_hash_maps_to_zero_indices() {
    let h = vec![0u8; 32];
    let p = derive_path(&h);
    assert_eq!(p, vec![0u32; 9]);
}

#[test]
fn all_ones_hash_masks_top_bits() {
    let h = vec![0xffu8; 32];
    let p = derive_path(&h);
    for i in 0..8 {
        assert_eq!(p[i], 0x7fff_ffff);
    }
    assert_eq!(p[8], 0xff);
}

#[test]
fn counting_hash_words_are_big_endian() {
    let h: Vec<u8> = (0u8..32u8).collect();
    let p = derive_path(&h);
    assert_eq!(p[0], 0x0001_0203);
    assert_eq!(p[1], 0x0405_0607);
    assert_eq!(p[7], 0x1c1d_1e1f);
    assert_eq!(p[8], 0);
}

#[test]
fn top_bits_pack_into_ninth_index() {
    let mut h = vec![0u8; 32];
    h[0] = 0x80;
    h[16] = 0x80;
    let p = derive_path(&h);
    assert_eq!(p[0], 0);
    assert_eq!(p[4], 0);
    assert_eq!(p[8], (1 << 0) | (1 << 4));
}

#[test]
fn derive_path_is_deterministic() {
    let h = sample_hash(7);
    assert_eq!(derive_path(&h), derive_path(&h));
}

#[test]
fn indices_are_non_hardened() {
    for seed in [0u8, 1, 44, 200, 255] {
        let p = derive_path(&sample_hash(seed));
        assert_eq!(p.len(), 9);
        for i in 0..8 {
            assert!(p[i] < 0x8000_0000);
        }
        assert!(p[8] < 512);
    }
}

#[test]
fn path_encoding_is_lossless() {
    for seed in [0u8, 3, 44, 128, 255] {
        let h = sample_hash(seed);
        let p = derive_path(&h);
        assert_eq!(recover_commitment(&p), h);
    }
}

#[test]
fn single_bit_flips_change_the_path() {
    let h = sample_hash(99);
    let base = derive_path(&h);
    for byte in [0usize, 5, 13, 21, 31] {
        for bit in 0..8 {
            let mut flipped = h.clone();
            flipped[byte] ^= 1u8 << bit;
            assert_ne!(derive_path(&flipped), base);
        }
    }
}
