//! The wire format of a message: one tag byte followed by a UTF-8 body.

use vstd::prelude::*;
use vstd::slice::{slice_subrange, slice_to_vec};
use vstd::utf8::{
    decode_utf8, decode_utf8_encode_utf8, encode_utf8, encode_utf8_decode_utf8,
    encode_utf8_valid_utf8, valid_utf8,
};
use std::string::FromUtf8Error;

verus! {

/// The error that `String::from_utf8` returns. Nothing is read from it.
#[verifier::external_type_specification]
#[verifier::external_body]
pub struct ExFromUtf8Error(FromUtf8Error);

/// `String::from_utf8` of the standard library. It succeeds on exactly the
/// byte vectors that are well-formed UTF-8, and the string it then returns
/// is made of the bytes it was given.
pub assume_specification[ String::from_utf8 ](vec: Vec<u8>) -> (res: Result<String, FromUtf8Error>)
    ensures
        res is Ok <==> valid_utf8(vec@),
        res matches Ok(s) ==> encode_utf8(s@) == vec@,
;

/// The kind of a message, carried on the wire as its first byte.
#[derive(Clone, Copy, Debug, PartialEq, Eq, Structural)]
pub enum MsgType {
    Identify,
    List,
    Relay,
    Server,
}

/// The kind that a tag byte stands for, if it stands for one.
pub open spec fn tag_kind(byte: u8) -> Option<MsgType> {
    if byte == 0x30 {
        Some(MsgType::Identify)
    } else if byte == 0x31 {
        Some(MsgType::List)
    } else if byte == 0x32 {
        Some(MsgType::Relay)
    } else if byte == 0x33 {
        Some(MsgType::Server)
    } else {
        None
    }
}

/// The tag byte of a kind: the ASCII digits `'0'` to `'3'`.
pub open spec fn kind_tag(kind: MsgType) -> u8 {
    match kind {
        MsgType::Identify => 0x30,
        MsgType::List => 0x31,
        MsgType::Relay => 0x32,
        MsgType::Server => 0x33,
    }
}

impl MsgType {
    /// Reads a tag byte. `None` for every byte but the four tags.
    pub fn from_u8(val: u8) -> (kind: Option<MsgType>)
        ensures
            kind == tag_kind(val),
    {
        match val {
            0x30 => Some(MsgType::Identify),
            0x31 => Some(MsgType::List),
            0x32 => Some(MsgType::Relay),
            0x33 => Some(MsgType::Server),
            _ => None,
        }
    }

    /// The tag byte that stands for this kind on the wire.
    pub fn to_u8(self) -> (tag: u8)
        ensures
            tag == kind_tag(self),
            tag_kind(tag) == Some(self),
    {
        match self {
            MsgType::Identify => 0x30,
            MsgType::List => 0x31,
            MsgType::Relay => 0x32,
            MsgType::Server => 0x33,
        }
    }
}

/// What a server owes the sender of a message of a given kind.
#[derive(Clone, Copy, Debug, PartialEq, Eq, Structural)]
pub enum Outcome {
    /// Write the sender's own address back to it.
    WritePeerAddress,
    /// Enumerate the known peers.
    ListPeers,
    /// Forward the body to the other connections.
    RelayBody,
    /// Nothing is defined for this kind.
    Unhandled,
}

/// The outcome that each kind asks for. `Server` is reserved and asks for
/// nothing yet.
pub open spec fn kind_outcome(kind: MsgType) -> Outcome {
    match kind {
        MsgType::Identify => Outcome::WritePeerAddress,
        MsgType::List => Outcome::ListPeers,
        MsgType::Relay => Outcome::RelayBody,
        MsgType::Server => Outcome::Unhandled,
    }
}

/// Why a buffer was not decoded.
#[derive(Clone, Copy, Debug, PartialEq, Eq, Structural)]
pub enum DecodeError {
    /// The buffer does not start with one of the four tag bytes.
    InvalidDiscriminant,
    /// The bytes after the tag are not well-formed UTF-8.
    InvalidEncoding,
}

/// A message: its kind and its text.
#[derive(Debug, PartialEq, Eq)]
pub struct Message {
    pub msg_type: MsgType,
    pub body: String,
}

impl Clone for Message {
    fn clone(&self) -> (copy: Message)
        ensures
            copy == *self,
    {
        Message { msg_type: self.msg_type, body: self.body.clone() }
    }
}

/// What a message is: its kind and the characters of its body.
pub struct MessageView {
    pub msg_type: MsgType,
    pub body: Seq<char>,
}

impl View for Message {
    type V = MessageView;

    open spec fn view(&self) -> MessageView {
        MessageView { msg_type: self.msg_type, body: self.body@ }
    }
}

/// The bytes of a message on the wire: the tag byte, then the body in UTF-8.
pub open spec fn encoding(m: MessageView) -> Seq<u8> {
    seq![kind_tag(m.msg_type)] + encode_utf8(m.body)
}

/// The message that a buffer holds, or the reason why it holds none.
///
/// An empty buffer has no tag byte, and so no valid discriminant.
pub open spec fn decoding(buf: Seq<u8>) -> Result<MessageView, DecodeError> {
    if buf.len() == 0 {
        Err(DecodeError::InvalidDiscriminant)
    } else {
        match tag_kind(buf[0]) {
            None => Err(DecodeError::InvalidDiscriminant),
            Some(kind) => if valid_utf8(buf.skip(1)) {
                Ok(MessageView { msg_type: kind, body: decode_utf8(buf.skip(1)) })
            } else {
                Err(DecodeError::InvalidEncoding)
            },
        }
    }
}

impl Message {
    /// Encodes the message: its tag byte followed by the UTF-8 bytes of its
    /// body. Always succeeds.
    pub fn serialize(self) -> (bytes: Vec<u8>)
        ensures
            bytes@ == encoding(self@),
    {
        let mut bytes: Vec<u8> = Vec::new();
        bytes.push(self.msg_type.to_u8());
        let body = self.body.as_str().as_bytes();
        let mut i: usize = 0;
        while i < body.len()
            invariant
                i <= body@.len(),
                bytes@ == seq![kind_tag(self.msg_type)] + body@.take(i as int),
            decreases body@.len() - i,
        {
            bytes.push(body[i]);
            i += 1;
        }
        assert(body@.take(i as int) == body@);
        bytes
    }

    /// What the server does for this message.
    pub fn outcome(&self) -> (outcome: Outcome)
        ensures
            outcome == kind_outcome(self.msg_type),
    {
        match self.msg_type {
            MsgType::Identify => Outcome::WritePeerAddress,
            MsgType::List => Outcome::ListPeers,
            MsgType::Relay => Outcome::RelayBody,
            MsgType::Server => Outcome::Unhandled,
        }
    }

    /// Decodes a buffer: byte 0 is the tag, the rest is the body.
    ///
    /// Fails with `InvalidDiscriminant` if the buffer is empty or its first
    /// byte is none of the four tags, and with `InvalidEncoding` if the tag
    /// is known but the remaining bytes are not UTF-8.
    pub fn deserialize(msg: &[u8]) -> (result: Result<Message, DecodeError>)
        ensures
            match decoding(msg@) {
                Ok(m) => result matches Ok(decoded) && decoded@ == m,
                Err(e) => result == Err::<Message, DecodeError>(e),
            },
            result == Err::<Message, DecodeError>(DecodeError::InvalidDiscriminant) <==> msg@.len()
                == 0 || tag_kind(msg@[0]) is None,
            result == Err::<Message, DecodeError>(DecodeError::InvalidEncoding) <==> msg@.len() > 0
                && tag_kind(msg@[0]) is Some && !valid_utf8(msg@.skip(1)),
    {
        if msg.len() == 0 {
            return Err(DecodeError::InvalidDiscriminant);
        }
        let msg_type = match MsgType::from_u8(msg[0]) {
            Some(kind) => kind,
            None => {
                return Err(DecodeError::InvalidDiscriminant);
            },
        };
        let rest = slice_to_vec(slice_subrange(msg, 1, msg.len()));
        assert(rest@ == msg@.skip(1));
        match String::from_utf8(rest) {
            Ok(body) => {
                proof {
                    encode_utf8_decode_utf8(body@);
                }
                Ok(Message { msg_type, body })
            },
            Err(_) => Err(DecodeError::InvalidEncoding),
        }
    }
}

/// Which buffers are rejected, and why. A buffer without a known tag byte
/// in front, the empty buffer among them, has no valid discriminant,
/// whatever follows; a known tag followed by bytes that are not UTF-8 is
/// badly encoded; every other buffer decodes.
pub proof fn lemma_decoding_errors(buf: Seq<u8>)
    ensures
        decoding(buf) == Err::<MessageView, DecodeError>(DecodeError::InvalidDiscriminant)
            <==> buf.len() == 0 || tag_kind(buf[0]) is None,
        decoding(buf) == Err::<MessageView, DecodeError>(DecodeError::InvalidEncoding)
            <==> buf.len() > 0 && tag_kind(buf[0]) is Some && !valid_utf8(buf.skip(1)),
        decoding(buf) is Ok <==> buf.len() > 0 && tag_kind(buf[0]) is Some && valid_utf8(
            buf.skip(1),
        ),
{
}

/// A known tag in front of bytes that are not UTF-8 is rejected as badly
/// encoded.
pub proof fn lemma_decoding_invalid_body(kind: MsgType, body: Seq<u8>)
    requires
        !valid_utf8(body),
    ensures
        decoding(seq![kind_tag(kind)] + body) == Err::<MessageView, DecodeError>(
            DecodeError::InvalidEncoding,
        ),
{
    let buf = seq![kind_tag(kind)] + body;
    assert(buf.skip(1) == body);
}

/// Round trip: every message decodes from its own encoding.
pub proof fn lemma_decode_encode(m: MessageView)
    ensures
        decoding(encoding(m)) == Ok::<MessageView, DecodeError>(m),
{
    let buf = encoding(m);
    assert(buf[0] == kind_tag(m.msg_type));
    assert(buf.skip(1) == encode_utf8(m.body));
    encode_utf8_valid_utf8(m.body);
    encode_utf8_decode_utf8(m.body);
}

/// A buffer that decodes is the encoding of what it decodes to, so no two
/// buffers hold the same message.
pub proof fn lemma_encode_decode(buf: Seq<u8>)
    requires
        decoding(buf) is Ok,
    ensures
        encoding(decoding(buf)->Ok_0) == buf,
{
    decode_utf8_encode_utf8(buf.skip(1));
    assert(seq![buf[0]] + buf.skip(1) == buf);
}

} // verus!
