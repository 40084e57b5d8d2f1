use sen5x::msg::{DecodeError, MessageReason};
use sen5x::text::RawString;

fn string_frame(chars: &[u8]) -> [u8; 47] {
    let mut buf = [0u8; 47];
    for g in 0..15 {
        let hi = chars.get(2 * g).copied().unwrap_or(0);
        let lo = chars.get(2 * g + 1).copied().unwrap_or(0);
        buf[3 * g] = hi;
        buf[3 * g + 1] = lo;
        buf[3 * g + 2] = sensirion_i2c::crc8::calculate(&[hi, lo]);
    }
    buf
}

#[test]
fn product_name_is_decoded() {
    let s = RawString::decode(&string_frame(b"SEN55")).unwrap();
    assert_eq!(s.as_str(), "SEN55");
    assert_eq!(s.len(), 5);
}

#[test]
fn groups_after_the_terminator_are_not_looked_at() {
    let mut buf = [0xffu8; 47];
    buf[..9].copy_from_slice(&string_frame(b"SEN55")[..9]);
    assert_eq!(RawString::decode(&buf).unwrap().as_str(), "SEN55");
}

#[test]
fn terminator_in_first_byte_of_a_group() {
    let s = RawString::decode(&string_frame(b"SEN5")).unwrap();
    assert_eq!(s.as_str(), "SEN5");
}

#[test]
fn byte_after_the_terminator_is_not_looked_at() {
    let mut buf = string_frame(b"SE");
    buf[3] = 0x00;
    buf[4] = 0xc3;
    buf[5] = sensirion_i2c::crc8::calculate(&[0x00, 0xc3]);
    assert_eq!(RawString::decode(&buf).unwrap().as_str(), "SE");
}

#[test]
fn empty_string() {
    let s = RawString::decode(&string_frame(b"")).unwrap();
    assert_eq!(s.as_str(), "");
    assert_eq!(s.len(), 0);
    assert_eq!(RawString::empty().as_str(), "");
}

#[test]
fn non_ascii_before_the_terminator() {
    match RawString::decode(&string_frame(&[b'S', b'E', 0xc3, b'N'])) {
        Err(DecodeError::Msg(e)) => {
            assert!(matches!(e.reason, MessageReason::NonAscii));
            assert_eq!(e.message(), "non-ASCII character in string");
        }
        other => panic!("{:?}", other),
    }
}

#[test]
fn non_ascii_in_second_byte() {
    assert!(matches!(
        RawString::decode(&string_frame(&[b'S', 0x80])),
        Err(DecodeError::Msg(_))
    ));
}

#[test]
fn checksum_mismatch_before_the_terminator() {
    let mut buf = string_frame(b"SEN55");
    buf[5] ^= 0x04;
    assert_eq!(RawString::decode(&buf).unwrap_err(), DecodeError::Crc);
}

#[test]
fn checksum_mismatch_in_the_terminating_group() {
    let mut buf = string_frame(b"SEN55");
    buf[8] ^= 0x04;
    assert_eq!(RawString::decode(&buf).unwrap_err(), DecodeError::Crc);
}

#[test]
fn checksum_is_checked_before_the_characters() {
    let mut buf = string_frame(&[0xc3, b'A']);
    buf[2] ^= 0x01;
    assert_eq!(RawString::decode(&buf).unwrap_err(), DecodeError::Crc);
}

#[test]
fn string_without_terminator_ends_with_the_last_group() {
    let text = b"0123456789ABCDEFGHIJKLMNOPQRST";
    let mut buf = string_frame(text);
    buf[45] = b'X';
    buf[46] = b'Y';
    let s = RawString::decode(&buf).unwrap();
    assert_eq!(s.as_str(), "0123456789ABCDEFGHIJKLMNOPQRST");
    assert_eq!(s.len(), 30);
}

#[test]
fn push_char_adds_stops_and_refuses() {
    let s = RawString::empty();
    let (s, done) = s.push_char(b'A').unwrap();
    assert!(!done);
    assert_eq!(s.as_str(), "A");
    let (s, done) = s.push_char(0).unwrap();
    assert!(done);
    assert_eq!(s.as_str(), "A");
    assert!(matches!(s.push_char(0xff), Err(DecodeError::Msg(_))));
}
