use scam::checksum::{Checksum, ChecksumState, checksum_hex};

#[test]
fn streaming_checksum_equals_one_shot_blake3() {
    let mut state = ChecksumState::new();
    state.update(b"foo");
    state.update(b"bar");
    state.update(b"baz");
    let digest = state.finalize();
    assert_eq!(&digest.bytes, blake3::hash(b"foobarbaz").as_bytes());
    assert_ne!(&digest.bytes[..], b"foobarbaz");
}

#[test]
fn empty_input_has_the_known_blake3_digest() {
    let digest = ChecksumState::new().finalize();
    assert_eq!(
        checksum_hex(&digest),
        "af1349b9f5f9a1a6a0404dea36dcc9499bcb25c9adc112b7cc9a93cae41f3262"
    );
}

#[test]
fn hex_is_lowercase_two_digits_per_byte() {
    let mut bytes = [0u8; 32];
    bytes[0] = 0xbe;
    bytes[1] = 0xef;
    bytes[31] = 0x0a;
    let hex = checksum_hex(&Checksum { bytes });
    assert_eq!(hex.len(), 64);
    assert!(hex.starts_with("beef0000"));
    assert!(hex.ends_with("0a"));
    let digest = blake3::hash(b"abc");
    assert_eq!(checksum_hex(&Checksum { bytes: *digest.as_bytes() }), digest.to_hex().to_string());
}

#[test]
fn checksums_match_only_when_equal() {
    let a = Checksum { bytes: [7u8; 32] };
    let mut other = [7u8; 32];
    assert!(a.matches(&Checksum { bytes: other }));
    other[31] = 8;
    assert!(!a.matches(&Checksum { bytes: other }));
}
