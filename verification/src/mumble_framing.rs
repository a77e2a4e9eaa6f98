//! Framing of Mumble's control channel: two bytes of type, four bytes of
//! length, both big-endian, then the payload.

use vstd::prelude::*;

use crate::bytes::{be_bytes, be_value, push_all, push_be, read_be};
use crate::mumble_proto::MessageType;

verus! {

/// A raw Mumble protocol message: type number and payload.
#[derive(Debug)]
pub struct MumbleMessage {
    pub msg_type: u16,
    pub payload: Vec<u8>,
}

/// Maximum message size (8 MB, Mumble's default).
pub const MAX_MESSAGE_SIZE: u32 = 8388608;

/// How many bytes stand before the payload.
pub const HEADER_SIZE: usize = 6;

/// The frame of a message.
pub open spec fn frame_bytes(msg_type: u16, payload: Seq<u8>) -> Seq<u8> {
    be_bytes(msg_type as nat, 2) + be_bytes(payload.len(), 4) + payload
}

/// The frame of a message. The length field keeps the low 32 bits of the length.
pub fn write_raw_frame(msg_type: u16, payload: &[u8]) -> (frame: Vec<u8>)
    ensures
        frame@ == frame_bytes(msg_type, payload@),
{
    let mut frame: Vec<u8> = Vec::new();
    push_be(&mut frame, msg_type as u64, 2);
    push_be(&mut frame, payload.len() as u64, 4);
    push_all(&mut frame, payload);
    assert(frame@ =~= frame_bytes(msg_type, payload@));
    frame
}

/// The frame of an encoded message of a known type.
pub fn write_message(msg_type: MessageType, payload: &[u8]) -> (frame: Vec<u8>)
    ensures
        frame@ == frame_bytes(msg_type.number(), payload@),
{
    write_raw_frame(msg_type.as_u16(), payload)
}

/// The frame of a voice packet, which is sent as it is.
pub fn write_udp_tunnel(voice_data: &[u8]) -> (frame: Vec<u8>)
    ensures
        frame@ == frame_bytes(1, voice_data@),
{
    write_message(MessageType::UdpTunnel, voice_data)
}

/// What a frame header announces.
#[derive(Debug, Clone, Copy, PartialEq, Eq, Structural)]
pub struct FrameHeader {
    pub msg_type: u16,
    pub length: u32,
}

/// A message longer than allowed was announced.
#[derive(Debug, Clone, Copy, PartialEq, Eq, Structural)]
pub struct MessageTooLarge {
    pub length: u32,
}

impl MessageTooLarge {
    /// The error in words.
    pub fn message(&self) -> (text: String)
        ensures
            text@ == "Message too large: "@ + crate::text::decimal(self.length as nat)
                + " bytes (max "@ + crate::text::decimal(MAX_MESSAGE_SIZE as nat) + ")"@,
    {
        let mut text = "Message too large: ".to_owned();
        text.push_str(crate::text::decimal_text(self.length as u64).as_str());
        text.push_str(" bytes (max ");
        text.push_str(crate::text::decimal_text(MAX_MESSAGE_SIZE as u64).as_str());
        text.push_str(")");
        text
    }
}

/// Reads a frame header. A message over the maximum size is refused before any
/// of it is read.
pub fn parse_header(bytes: &[u8; 6]) -> (result: Result<FrameHeader, MessageTooLarge>)
    ensures
        ({
            let length = be_value(bytes@.subrange(2, 6));
            match result {
                Ok(header) => {
                    &&& length <= MAX_MESSAGE_SIZE
                    &&& header.length == length
                    &&& header.msg_type == be_value(bytes@.subrange(0, 2))
                },
                Err(e) => length > MAX_MESSAGE_SIZE && e.length == length,
            }
        }),
{
    let slice = bytes.as_slice();
    let msg_type: u64 = read_be(slice, 0, 2);
    let length: u64 = read_be(slice, 2, 4);
    proof {
        crate::bytes::lemma_be_value_bound(bytes@.subrange(0, 2));
        crate::bytes::lemma_be_value_bound(bytes@.subrange(2, 6));
        reveal_with_fuel(crate::bytes::pow256, 5);
    }
    if length > MAX_MESSAGE_SIZE as u64 {
        return Err(MessageTooLarge { length: length as u32 });
    }
    Ok(FrameHeader { msg_type: msg_type as u16, length: length as u32 })
}

/// What the front of a byte stream holds.
pub open spec fn spec_read_message(data: Seq<u8>) -> Option<Result<(int, Seq<u8>), int>> {
    if data.len() < 6 {
        None
    } else {
        let length = be_value(data.subrange(2, 6)) as int;
        if length > MAX_MESSAGE_SIZE {
            Some(Err(length))
        } else if data.len() < 6 + length {
            None
        } else {
            Some(Ok((be_value(data.subrange(0, 2)) as int, data.subrange(6, 6 + length))))
        }
    }
}

/// Takes the message off the front of the bytes received so far: nothing while
/// the message is not whole, an error as soon as a message over the maximum size
/// is announced.
pub fn read_message(data: &[u8]) -> (result: Option<Result<MumbleMessage, MessageTooLarge>>)
    ensures
        match result {
            None => spec_read_message(data@) is None,
            Some(Ok(message)) => spec_read_message(data@) == Some(
                Ok::<(int, Seq<u8>), int>((message.msg_type as int, message.payload@)),
            ),
            Some(Err(e)) => spec_read_message(data@) == Some(
                Err::<(int, Seq<u8>), int>(e.length as int),
            ),
        },
{
    if data.len() < HEADER_SIZE {
        return None;
    }
    let header: [u8; 6] = [data[0], data[1], data[2], data[3], data[4], data[5]];
    proof {
        assert(header@.subrange(0, 2) =~= data@.subrange(0, 2));
        assert(header@.subrange(2, 6) =~= data@.subrange(2, 6));
    }
    match parse_header(&header) {
        Err(e) => Some(Err(e)),
        Ok(parsed) => {
            let length: usize = parsed.length as usize;
            if data.len() - HEADER_SIZE < length {
                return None;
            }
            let payload = crate::bytes::copy_bytes(
                vstd::slice::slice_subrange(data, HEADER_SIZE, HEADER_SIZE + length),
            );
            Some(Ok(MumbleMessage { msg_type: parsed.msg_type, payload }))
        },
    }
}

/// Reading a frame gives back the type and payload that were written, whatever
/// follows the frame, for every payload of allowed size.
pub proof fn frame_round_trip(msg_type: u16, payload: Seq<u8>, rest: Seq<u8>)
    requires
        payload.len() <= MAX_MESSAGE_SIZE,
    ensures
        spec_read_message(frame_bytes(msg_type, payload) + rest) == Some(
            Ok::<(int, Seq<u8>), int>((msg_type as int, payload)),
        ),
        frame_bytes(msg_type, payload).len() == 6 + payload.len(),
{
    let head = be_bytes(msg_type as nat, 2);
    let size = be_bytes(payload.len(), 4);
    reveal_with_fuel(crate::bytes::pow256, 5);
    crate::bytes::lemma_be_round_trip(msg_type as nat, 2);
    crate::bytes::lemma_be_round_trip(payload.len(), 4);
    let data = frame_bytes(msg_type, payload) + rest;
    assert(data.subrange(0, 2) =~= head);
    assert(data.subrange(2, 6) =~= size);
    assert(data.subrange(6, 6 + payload.len() as int) =~= payload);
}

/// A frame over the maximum size is refused on its header alone.
pub proof fn oversized_frame_is_refused(msg_type: u16, payload: Seq<u8>, rest: Seq<u8>)
    requires
        MAX_MESSAGE_SIZE < payload.len() <= u32::MAX,
    ensures
        spec_read_message(frame_bytes(msg_type, payload) + rest) == Some(
            Err::<(int, Seq<u8>), int>(payload.len() as int),
        ),
{
    reveal_with_fuel(crate::bytes::pow256, 5);
    crate::bytes::lemma_be_bytes_len(msg_type as nat, 2);
    crate::bytes::lemma_be_round_trip(payload.len(), 4);
    let data = frame_bytes(msg_type, payload) + rest;
    assert(data.subrange(2, 6) =~= be_bytes(payload.len(), 4));
}

} // verus!
