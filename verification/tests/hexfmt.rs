use agglayer_core::hexfmt::u64_hex;

#[test]
fn hex_of_zero_is_a_single_digit() {
    assert_eq!(u64_hex(0), b"0".to_vec());
}

#[test]
fn hex_of_small_values() {
    assert_eq!(u64_hex(9), b"9".to_vec());
    assert_eq!(u64_hex(10), b"a".to_vec());
    assert_eq!(u64_hex(15), b"f".to_vec());
    assert_eq!(u64_hex(16), b"10".to_vec());
    assert_eq!(u64_hex(255), b"ff".to_vec());
}

#[test]
fn hex_matches_the_standard_rendering() {
    for n in [0u64, 1, 0x28f, 48879, 1 << 40, u64::MAX] {
        assert_eq!(u64_hex(n), format!("{n:x}").into_bytes());
    }
}
