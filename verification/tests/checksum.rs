use sen5x::checksum::{checksum, verify};

#[test]
fn checksum_of_published_word() {
    assert_eq!(checksum([0xbe, 0xef]), 0x92);
}

#[test]
fn checksum_of_zero_word() {
    assert_eq!(checksum([0x00, 0x00]), 0x81);
}

#[test]
fn verify_accepts_the_checksum_and_nothing_else() {
    assert!(verify([0xbe, 0xef], 0x92));
    assert!(!verify([0xbe, 0xef], 0x93));
    assert!(!verify([0xbe, 0xee], 0x92));
}
