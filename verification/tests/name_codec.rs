use snmptools::decode_name;
use snmptools::encode_name;
use snmptools::ErrorKind;
use snmptools::MAX_NAME_LEN;

#[test]
fn encode_name_appends_terminator() {
    let buf = encode_name("IF-MIB::ifDescr").unwrap();
    let mut expected = "IF-MIB::ifDescr".as_bytes().to_vec();
    expected.push(0);
    assert_eq!(buf, expected);
}

#[test]
fn encode_name_accepts_empty_text() {
    let buf = encode_name("").unwrap();
    assert_eq!(buf, vec![0]);
}

#[test]
fn encode_name_accepts_multibyte_text() {
    let buf = encode_name("héllo").unwrap();
    let mut expected = "héllo".as_bytes().to_vec();
    expected.push(0);
    assert_eq!(buf, expected);
}

#[test]
fn encode_name_rejects_embedded_nul() {
    let err = encode_name("IF-MIB\0ifDescr").unwrap_err();
    assert_eq!(err.kind(), ErrorKind::InvalidData);
    assert_eq!(err.message(), "string contains a nul byte");
}

#[test]
fn encode_name_rejects_trailing_nul() {
    let err = encode_name("x\0").unwrap_err();
    assert_eq!(err.kind(), ErrorKind::InvalidData);
}

#[test]
fn decode_name_stops_at_first_nul() {
    let mut buf = "IF-MIB::ifDescr".as_bytes().to_vec();
    buf.push(0);
    buf.extend_from_slice("leftover junk".as_bytes());
    assert_eq!(decode_name(&buf), "IF-MIB::ifDescr");
}

#[test]
fn decode_name_without_terminator_takes_all() {
    let buf = "abc".as_bytes().to_vec();
    assert_eq!(decode_name(&buf), "abc");
}

#[test]
fn decode_name_replaces_invalid_utf8() {
    let buf = vec![0xff, 0xfe, b'a', 0];
    assert_eq!(decode_name(&buf), "\u{fffd}\u{fffd}a");
}

#[test]
fn decode_name_of_truncated_multibyte_sequence() {
    // A lead byte with its continuation cut off by the terminator.
    let buf = vec![b'h', 0xc3, 0];
    assert_eq!(decode_name(&buf), "h\u{fffd}");
}

#[test]
fn decode_name_of_empty_buffer() {
    assert_eq!(decode_name(&Vec::new()), "");
}

#[test]
fn decode_name_of_leading_nul() {
    assert_eq!(decode_name(&vec![0, b'a', b'b']), "");
}

#[test]
fn decode_name_of_full_size_buffer_never_fails() {
    let buf = vec![0xffu8; MAX_NAME_LEN];
    let name = decode_name(&buf);
    assert_eq!(name.chars().count(), MAX_NAME_LEN);
    assert!(name.chars().all(|c| c == '\u{fffd}'));
}

#[test]
fn name_codec_round_trip() {
    let text = "IBM-CPS-MIB::cpsSystemSendTrap";
    let buf = encode_name(text).unwrap();
    assert_eq!(decode_name(&buf), text);
}
