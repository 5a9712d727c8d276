use atsamd::wifi::sys_rpcs::{GetVersion, RpcError, VERSION_CAPACITY};

fn reply(length: u32, text: &[u8]) -> Vec<u8> {
    let mut data = length.to_le_bytes().to_vec();
    data.extend_from_slice(text);
    data
}

#[test]
fn version_text_is_read() {
    let mut call = GetVersion {};
    let text = call.parse(&reply(5, b"2.1.3")).unwrap();
    assert_eq!(text.as_bytes(), b"2.1.3".to_vec());
}

#[test]
fn length_is_read_lowest_byte_first() {
    let mut call = GetVersion {};
    assert!(call.parse(&[16, 0, 0, 0]).is_ok());
    assert_eq!(call.parse(&[17, 0, 0, 0]).err(), Some(RpcError::ResponseOverrun));
    assert_eq!(call.parse(&[0, 1, 0, 0]).err(), Some(RpcError::ResponseOverrun));
    assert_eq!(call.parse(&[0, 0, 1, 0]).err(), Some(RpcError::ResponseOverrun));
    assert_eq!(call.parse(&[0, 0, 0, 1]).err(), Some(RpcError::ResponseOverrun));
    assert_eq!(call.parse(&[0, 0, 0, 0x80, b'x']).err(), Some(RpcError::ResponseOverrun));
    assert!(call.parse(&[0, 0, 0, 0]).unwrap().as_bytes().is_empty());
}

#[test]
fn short_reply_is_incomplete() {
    let mut call = GetVersion {};
    assert_eq!(call.parse(&[]).err(), Some(RpcError::Incomplete));
    assert_eq!(call.parse(&[1]).err(), Some(RpcError::Incomplete));
    assert_eq!(call.parse(&[1, 0, 0]).err(), Some(RpcError::Incomplete));
    assert_eq!(call.parse(&[0xff, 0xff, 0xff]).err(), Some(RpcError::Incomplete));
}

#[test]
fn text_takes_every_byte_behind_the_length() {
    let mut call = GetVersion {};
    let text = call.parse(&reply(2, b"abcdef")).unwrap();
    assert_eq!(text.as_bytes(), b"abcdef".to_vec());
}

#[test]
fn text_stops_at_its_capacity() {
    assert_eq!(VERSION_CAPACITY, 16);
    let mut call = GetVersion {};
    let text = call.parse(&reply(16, b"0123456789abcdefXYZ")).unwrap();
    assert_eq!(text.as_bytes(), b"0123456789abcdef".to_vec());
}

#[test]
fn high_bytes_take_two_bytes_each() {
    let text = GetVersion::text_of(&[b'v', 0xe9, 0x80, 0xff]);
    assert_eq!(text.as_bytes(), vec![b'v', 0xc3, 0xa9, 0xc2, 0x80, 0xc3, 0xbf]);
    assert_eq!(String::from_utf8(text.as_bytes()).unwrap(), "v\u{e9}\u{80}\u{ff}");
}

#[test]
fn a_character_that_does_not_fit_is_dropped_and_the_next_is_tried() {
    let mut bytes = b"0123456789abcde".to_vec();
    bytes.push(0xe9);
    bytes.push(b'f');
    bytes.push(b'g');
    let text = GetVersion::text_of(&bytes);
    assert_eq!(text.as_bytes(), b"0123456789abcdef".to_vec());
}

#[test]
fn empty_text() {
    assert!(GetVersion::text_of(&[]).as_bytes().is_empty());
}
