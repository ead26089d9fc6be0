use shadow_core::digest::{sha256_bytes, Sha256Stream};
use shadow_core::hex::hex_lower;

#[test]
fn hex_lower_two_digits_per_byte() {
    assert_eq!(hex_lower(&[0x0a, 0x14, 0x1e]), "0a141e");
    assert_eq!(hex_lower(&[0x00, 0xff, 0xab]), "00ffab");
    assert_eq!(hex_lower(&[]), "");
}

#[test]
fn sha256_bytes_known_vectors() {
    assert_eq!(
        sha256_bytes(b""),
        "e3b0c44298fc1c149afbf4c8996fb92427ae41e4649b934ca495991b7852b855"
    );
    assert_eq!(
        sha256_bytes(b"abc"),
        "ba7816bf8f01cfea414140de5dae2223b00361a396177a9cb410ff61f20015ad"
    );
}

#[test]
fn sha256_bytes_is_64_lowercase_hex() {
    let h = sha256_bytes(b"shadow export");
    assert_eq!(h.len(), 64);
    assert!(h.chars().all(|c| c.is_ascii_digit() || ('a'..='f').contains(&c)));
}

#[test]
fn stream_in_chunks_matches_one_shot() {
    let data = b"The quick brown fox jumps over the lazy dog";
    let mut s = Sha256Stream::new();
    s.update(&data[..10]);
    s.update(&data[10..]);
    s.update(&[]);
    assert_eq!(s.finalize_hex(), sha256_bytes(data));
    assert_eq!(
        sha256_bytes(data),
        "d7a8fbb307d7809469ca9abcb0082e4f8d5651e46d3cdb762d02d0bf37c9e592"
    );
}
