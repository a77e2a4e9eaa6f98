use rumble_tools::mumble_voice::{
    encode_varint, encode_voice_packet, parse_voice_packet, read_varint, OPUS_TYPE,
};

#[test]
fn test_varint_roundtrip() {
    for val in [
        0u64,
        1,
        127,
        128,
        16383,
        16384,
        2097151,
        2097152,
        268435455,
        268435456,
        u32::MAX as u64,
    ] {
        let encoded = encode_varint(val);
        let (decoded, consumed) = read_varint(&encoded).unwrap();
        assert_eq!(decoded, val, "Failed roundtrip for {val}");
        assert_eq!(consumed, encoded.len());
    }
}

#[test]
fn test_parse_client_to_server_packet() {
    let opus_data = vec![0xDE, 0xAD, 0xBE, 0xEF];
    let mut packet = Vec::new();
    packet.push(OPUS_TYPE << 5);
    packet.extend_from_slice(&encode_varint(7));
    packet.extend_from_slice(&encode_varint(opus_data.len() as u64));
    packet.extend_from_slice(&opus_data);

    let parsed = parse_voice_packet(&packet).unwrap();
    assert_eq!(parsed.sequence, 7);
    assert_eq!(parsed.opus_data, opus_data);
    assert!(!parsed.is_last);
}

#[test]
fn test_parse_client_to_server_with_terminator() {
    let opus_data = vec![0x01, 0x02];
    let mut packet = Vec::new();
    packet.push(OPUS_TYPE << 5);
    packet.extend_from_slice(&encode_varint(99));
    packet.extend_from_slice(&encode_varint(opus_data.len() as u64 | 0x2000));
    packet.extend_from_slice(&opus_data);

    let parsed = parse_voice_packet(&packet).unwrap();
    assert_eq!(parsed.sequence, 99);
    assert_eq!(parsed.opus_data, opus_data);
    assert!(parsed.is_last);
}

#[test]
fn test_encode_server_to_client_packet() {
    let opus_data = vec![0xDE, 0xAD, 0xBE, 0xEF];
    let encoded = encode_voice_packet(42, 7, &opus_data, false);

    assert_eq!((encoded[0] >> 5) & 0x07, OPUS_TYPE);
    let rest = &encoded[1..];
    let (session, consumed) = read_varint(rest).unwrap();
    assert_eq!(session, 42);
    let rest = &rest[consumed..];
    let (sequence, consumed) = read_varint(rest).unwrap();
    assert_eq!(sequence, 7);
    let rest = &rest[consumed..];
    let (opus_header, consumed) = read_varint(rest).unwrap();
    assert_eq!((opus_header & 0x1FFF) as usize, opus_data.len());
    assert_eq!((opus_header & 0x2000), 0);
    let rest = &rest[consumed..];
    assert_eq!(rest, &opus_data);
}

#[test]
fn test_encode_server_to_client_with_terminator() {
    let opus_data = vec![0x01, 0x02];
    let encoded = encode_voice_packet(100, 50, &opus_data, true);

    let rest = &encoded[1..];
    let (session, consumed) = read_varint(rest).unwrap();
    assert_eq!(session, 100);
    let rest = &rest[consumed..];
    let (sequence, consumed) = read_varint(rest).unwrap();
    assert_eq!(sequence, 50);
    let rest = &rest[consumed..];
    let (opus_header, consumed) = read_varint(rest).unwrap();
    assert_eq!((opus_header & 0x1FFF) as usize, opus_data.len());
    assert!((opus_header & 0x2000) != 0);
    let rest = &rest[consumed..];
    assert_eq!(rest, &opus_data);
}

#[test]
fn broken_packets_are_refused() {
    assert!(parse_voice_packet(&[]).is_none());
    assert!(parse_voice_packet(&[1 << 5, 0, 0]).is_none());
    assert!(parse_voice_packet(&[OPUS_TYPE << 5, 7]).is_none());
    assert!(parse_voice_packet(&[OPUS_TYPE << 5, 7, 4, 1, 2]).is_none());
}

#[test]
fn long_frames_keep_off_the_terminator() {
    for (len, is_last) in [(8191, false), (8192, false), (8192, true), (8193, true), (16384, false)] {
        let opus_data = vec![7u8; len];
        let encoded = encode_voice_packet(1, 1, &opus_data, is_last);
        let (opus_header, consumed) = read_varint(&encoded[3..]).unwrap();
        assert_eq!(opus_header & 0x2000 != 0, is_last);
        assert_eq!((opus_header & 0x1FFF) as usize, len % 8192);
        assert_eq!(&encoded[3 + consumed..], &opus_data[..]);
    }
}
