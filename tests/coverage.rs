use fuzzer::{collect_bit_coverage, collect_byte_coverage, path_hash};

#[test]
fn bit_coverage_of_two_bytes() {
    let mut map = vec![0u8; 8];
    map[0] = 0x01;
    map[5] = 0x80;
    assert_eq!(collect_bit_coverage(&map), vec![0, 47]);
}

#[test]
fn bit_coverage_of_zero_map_is_empty() {
    let map = vec![0u8; 1024];
    assert!(collect_bit_coverage(&map).is_empty());
}

#[test]
fn bit_coverage_of_empty_map_is_empty() {
    let map: Vec<u8> = Vec::new();
    assert!(collect_bit_coverage(&map).is_empty());
}

#[test]
fn bit_decoder_gives_set_bits_of_every_byte_value() {
    for b in 0u16..=255 {
        let b = b as u8;
        let map = vec![0u8, 0u8, b];
        let expected: Vec<usize> = (0..8).filter(|k| (b >> k) & 1 == 1).map(|k| 16 + k).collect();
        assert_eq!(collect_bit_coverage(&map), expected);
    }
}

#[test]
fn encode_then_decode_gives_same_edges() {
    let edges = vec![3usize, 9, 10, 47, 63];
    let mut map = vec![0u8; 8];
    for e in &edges {
        map[e / 8] |= 1 << (e % 8);
    }
    assert_eq!(collect_bit_coverage(&map), edges);
}

#[test]
fn full_byte_decodes_to_eight_edges() {
    let map = vec![0u8, 0xff];
    assert_eq!(collect_bit_coverage(&map), vec![8, 9, 10, 11, 12, 13, 14, 15]);
}

#[test]
fn byte_coverage_lists_nonzero_bytes() {
    let map = vec![0u8, 3, 0, 0x80, 1];
    assert_eq!(collect_byte_coverage(&map), vec![1, 3, 4]);
}

#[test]
fn path_hash_is_deterministic() {
    let a = vec![0usize, 47];
    let b = vec![0usize, 47];
    assert_eq!(path_hash(&a), path_hash(&b));
}

#[test]
fn path_hash_depends_on_the_path() {
    let a = vec![0usize, 47];
    let b = vec![47usize, 0];
    let c: Vec<usize> = Vec::new();
    assert_ne!(path_hash(&a), path_hash(&b));
    assert_ne!(path_hash(&a), path_hash(&c));
}
