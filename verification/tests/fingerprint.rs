use kiosk::fingerprint::{fingerprint, to_hex};

#[test]
fn hex_of_bytes() {
    assert_eq!(to_hex(&[0xbe, 0xef]), "beef");
    assert_eq!(to_hex(&[0x00, 0x01, 0x0f, 0x10, 0xff]), "00010f10ff");
    assert_eq!(to_hex(&[]), "");
}

#[test]
fn fingerprint_of_empty_input() {
    assert_eq!(
        fingerprint(b""),
        "e3b0c44298fc1c149afbf4c8996fb92427ae41e4649b934ca495991b7852b855"
    );
}

#[test]
fn fingerprint_of_known_input() {
    assert_eq!(
        fingerprint(b"hello world"),
        "b94d27b9934d3e08a52e52d7da7dabfac484efe37a5380ee9088f7ace2efcde9"
    );
}

#[test]
fn fingerprints_differ_when_content_differs() {
    assert_ne!(fingerprint(b"frame one"), fingerprint(b"frame two"));
    assert_eq!(fingerprint(b"frame one"), fingerprint(b"frame one"));
}
