use upix::hash::content_fingerprint;

#[test]
fn fingerprint_of_no_bytes() {
    assert_eq!(
        content_fingerprint(b""),
        "e3b0c44298fc1c149afbf4c8996fb92427ae41e4649b934ca495991b7852b855"
    );
}

#[test]
fn fingerprint_of_abc() {
    assert_eq!(
        content_fingerprint(b"abc"),
        "ba7816bf8f01cfea414140de5dae2223b00361a396177a9cb410ff61f20015ad"
    );
}

#[test]
fn fingerprint_is_64_lowercase_hex_digits() {
    let f = content_fingerprint(&[0xff, 0x00, 0x7f, 0x80]);
    assert_eq!(f.len(), 64);
    assert!(f.chars().all(|c| c.is_ascii_digit() || ('a'..='f').contains(&c)));
}

#[test]
fn equal_bytes_have_equal_fingerprints() {
    let a: Vec<u8> = (0..=255).collect();
    let b: Vec<u8> = (0..=255).collect();
    assert_eq!(content_fingerprint(&a), content_fingerprint(&b));
    assert_eq!(content_fingerprint(&a), content_fingerprint(&a));
}

#[test]
fn different_bytes_have_different_fingerprints() {
    assert_ne!(content_fingerprint(b"abc"), content_fingerprint(b"abd"));
    assert_ne!(content_fingerprint(b""), content_fingerprint(&[0]));
}
