use hub_rs::{DecodeError, Message, MsgType, Outcome};

fn message(msg_type: MsgType, body: &str) -> Message {
    Message { msg_type, body: body.to_string() }
}

#[test]
fn decodes_relay_hi() {
    let decoded = Message::deserialize(&[0x32, 0x68, 0x69]);
    assert_eq!(decoded, Ok(message(MsgType::Relay, "hi")));
}

#[test]
fn decodes_each_tag() {
    assert_eq!(Message::deserialize(b"0a"), Ok(message(MsgType::Identify, "a")));
    assert_eq!(Message::deserialize(b"1b"), Ok(message(MsgType::List, "b")));
    assert_eq!(Message::deserialize(b"2c"), Ok(message(MsgType::Relay, "c")));
    assert_eq!(Message::deserialize(b"3d"), Ok(message(MsgType::Server, "d")));
}

#[test]
fn decodes_a_lone_tag_to_an_empty_body() {
    assert_eq!(Message::deserialize(&[0x30]), Ok(message(MsgType::Identify, "")));
}

#[test]
fn decodes_a_multibyte_body() {
    let buffer = [0x31, 0x68, 0xC3, 0xA9, 0xE2, 0x82, 0xAC, 0xF0, 0x9F, 0x98, 0x80];
    assert_eq!(Message::deserialize(&buffer), Ok(message(MsgType::List, "h\u{e9}\u{20ac}\u{1f600}")));
}

#[test]
fn decodes_a_padded_buffer_with_its_padding() {
    let mut buffer = [0u8; 50];
    buffer[0] = 0x30;
    buffer[1] = 0x68;
    let decoded = Message::deserialize(&buffer).unwrap();
    assert_eq!(decoded.msg_type, MsgType::Identify);
    assert_eq!(decoded.body.len(), 49);
    assert!(decoded.body.starts_with('h'));
    assert!(decoded.body[1..].bytes().all(|b| b == 0));
}

#[test]
fn rejects_an_unknown_tag() {
    assert_eq!(Message::deserialize(&[0xFF, 0x68, 0x69]), Err(DecodeError::InvalidDiscriminant));
    assert_eq!(Message::deserialize(&[0xFF]), Err(DecodeError::InvalidDiscriminant));
    assert_eq!(Message::deserialize(&[0x2F, 0x68]), Err(DecodeError::InvalidDiscriminant));
    assert_eq!(Message::deserialize(&[0x34, 0x68]), Err(DecodeError::InvalidDiscriminant));
    assert_eq!(Message::deserialize(&[0x00]), Err(DecodeError::InvalidDiscriminant));
    assert_eq!(Message::deserialize(&[0x01, 0x68]), Err(DecodeError::InvalidDiscriminant));
}

#[test]
fn rejects_an_empty_buffer() {
    assert_eq!(Message::deserialize(&[]), Err(DecodeError::InvalidDiscriminant));
}

#[test]
fn rejects_a_body_that_is_not_utf8() {
    assert_eq!(Message::deserialize(&[0x30, 0xFF, 0xFE]), Err(DecodeError::InvalidEncoding));
    assert_eq!(Message::deserialize(&[0x30, 0x80]), Err(DecodeError::InvalidEncoding));
    assert_eq!(Message::deserialize(&[0x31, 0x68, 0xE2, 0x82]), Err(DecodeError::InvalidEncoding));
    assert_eq!(Message::deserialize(&[0x32, 0xC0, 0x80]), Err(DecodeError::InvalidEncoding));
    assert_eq!(Message::deserialize(&[0x33, 0xED, 0xA0, 0x80]), Err(DecodeError::InvalidEncoding));
    assert_eq!(
        Message::deserialize(&[0x33, 0xF4, 0x90, 0x80, 0x80]),
        Err(DecodeError::InvalidEncoding)
    );
}

#[test]
fn checks_the_tag_before_the_body() {
    assert_eq!(Message::deserialize(&[0xFF, 0xFF, 0xFE]), Err(DecodeError::InvalidDiscriminant));
}

#[test]
fn reads_exactly_four_tag_bytes() {
    for byte in 0..=255u8 {
        let expected = match byte {
            0x30 => Some(MsgType::Identify),
            0x31 => Some(MsgType::List),
            0x32 => Some(MsgType::Relay),
            0x33 => Some(MsgType::Server),
            _ => None,
        };
        assert_eq!(MsgType::from_u8(byte), expected);
    }
}

#[test]
fn writes_the_ascii_digits_as_tags() {
    assert_eq!(MsgType::Identify.to_u8(), b'0');
    assert_eq!(MsgType::List.to_u8(), b'1');
    assert_eq!(MsgType::Relay.to_u8(), b'2');
    assert_eq!(MsgType::Server.to_u8(), b'3');
}

#[test]
fn tag_bytes_read_back_as_their_kind() {
    for kind in [MsgType::Identify, MsgType::List, MsgType::Relay, MsgType::Server] {
        assert_eq!(MsgType::from_u8(kind.to_u8()), Some(kind));
    }
}

#[test]
fn encodes_tag_then_body() {
    assert_eq!(message(MsgType::Relay, "hi").serialize(), vec![0x32, 0x68, 0x69]);
    assert_eq!(message(MsgType::Identify, "").serialize(), vec![0x30]);
    assert_eq!(
        message(MsgType::List, "h\u{e9}llo").serialize(),
        vec![0x31, 0x68, 0xC3, 0xA9, 0x6C, 0x6C, 0x6F]
    );
    assert_eq!(
        message(MsgType::Server, "\u{1f600}").serialize(),
        vec![0x33, 0xF0, 0x9F, 0x98, 0x80]
    );
}

#[test]
fn every_message_decodes_from_its_encoding() {
    let bodies = ["", "hi", "0123", "h\u{e9}llo", "\u{20ac}\u{1f600}", "a\0b", "line\nbreak"];
    for kind in [MsgType::Identify, MsgType::List, MsgType::Relay, MsgType::Server] {
        for body in bodies {
            let sent = message(kind, body);
            let bytes = sent.clone().serialize();
            assert_eq!(Message::deserialize(&bytes), Ok(sent));
        }
    }
}

#[test]
fn every_decoded_buffer_encodes_to_itself() {
    let buffers: [&[u8]; 4] = [b"0", b"1peers", b"2hi there", &[0x33, 0xE2, 0x82, 0xAC]];
    for buffer in buffers {
        let decoded = Message::deserialize(buffer).unwrap();
        assert_eq!(decoded.serialize(), buffer.to_vec());
    }
}

#[test]
fn a_clone_is_equal_to_its_source() {
    let first = message(MsgType::Relay, "hi");
    let copy = first.clone();
    assert_eq!(copy, first);
    assert_eq!(copy.body, "hi");
}

#[test]
fn each_kind_has_its_outcome() {
    assert_eq!(message(MsgType::Identify, "").outcome(), Outcome::WritePeerAddress);
    assert_eq!(message(MsgType::List, "").outcome(), Outcome::ListPeers);
    assert_eq!(message(MsgType::Relay, "hi").outcome(), Outcome::RelayBody);
    assert_eq!(message(MsgType::Server, "x").outcome(), Outcome::Unhandled);
}
