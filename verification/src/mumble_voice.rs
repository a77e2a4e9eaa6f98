//! Mumble voice packets carried in a UDPTunnel message (Opus over TCP).
//!
//! A client sends, and this side reads:
//! ```text
//! header byte (bits 7-5 = type, 4 for Opus; bits 4-0 = target)
//! varint sequence number
//! varint Opus length (bits 12-0 = size, bit 13 = terminator)
//! Opus frame
//! ```
//! In the other direction a varint with the speaker's session stands between
//! the header and the sequence number.

use vstd::prelude::*;

use crate::bytes::{push_all, push_be, read_be};

verus! {

/// Opus type code in the header byte (bits 7-5).
pub const OPUS_TYPE: u8 = 4;

/// The bit of the length field that marks the last frame of a stream.
pub const TERMINATOR: u64 = 0x2000;

/// The bytes of the Mumble varint that stands for `value`: the shortest form
/// that holds it.
pub open spec fn varint_bytes(value: u64) -> Seq<u8> {
    if value < 0x80 {
        seq![value as u8]
    } else if value < 0x4000 {
        crate::bytes::be_bytes((0x8000 + value) as nat, 2)
    } else if value < 0x20_0000 {
        crate::bytes::be_bytes((0xC0_0000 + value) as nat, 3)
    } else if value < 0x1000_0000 {
        crate::bytes::be_bytes((0xE000_0000 + value) as nat, 4)
    } else if value <= 0xFFFF_FFFF {
        seq![0xF0u8] + crate::bytes::be_bytes(value as nat, 4)
    } else {
        seq![0xF4u8] + crate::bytes::be_bytes(value as nat, 8)
    }
}

/// How many bytes the varint that starts with `first` takes, if `first` starts
/// one at all: the negative forms (0xF8 and up) are not in use.
pub open spec fn varint_width(first: u8) -> Option<int> {
    if first < 0x80 {
        Some(1)
    } else if first < 0xC0 {
        Some(2)
    } else if first < 0xE0 {
        Some(3)
    } else if first < 0xF0 {
        Some(4)
    } else if first < 0xF4 {
        Some(5)
    } else if first < 0xF8 {
        Some(9)
    } else {
        None
    }
}

/// The value of the varint `bytes`, whose length is the width that its first
/// byte announces.
pub open spec fn varint_value(bytes: Seq<u8>) -> int {
    let first = bytes[0];
    if first < 0x80 {
        first as int
    } else if first < 0xC0 {
        crate::bytes::be_value(bytes) - 0x8000
    } else if first < 0xE0 {
        crate::bytes::be_value(bytes) - 0xC0_0000
    } else if first < 0xF0 {
        crate::bytes::be_value(bytes) - 0xE000_0000
    } else {
        crate::bytes::be_value(bytes.drop_first()) as int
    }
}

/// What reading a varint off the front of `data` gives: its value and its width.
pub open spec fn spec_read_varint(data: Seq<u8>) -> Option<(int, int)> {
    if data.len() == 0 {
        None
    } else {
        match varint_width(data[0]) {
            Some(width) if width <= data.len() => Some(
                (varint_value(data.subrange(0, width)), width),
            ),
            _ => None,
        }
    }
}

/// Reads a Mumble varint off the front of `data`: its value and the number of
/// bytes it takes.
pub fn read_varint(data: &[u8]) -> (result: Option<(u64, usize)>)
    ensures
        match result {
            Some((value, width)) => spec_read_varint(data@) == Some((value as int, width as int)),
            None => spec_read_varint(data@) is None,
        },
{
    if data.len() == 0 {
        return None;
    }
    let first: u8 = data[0];
    let width: usize = if first < 0x80 {
        1
    } else if first < 0xC0 {
        2
    } else if first < 0xE0 {
        3
    } else if first < 0xF0 {
        4
    } else if first < 0xF4 {
        5
    } else if first < 0xF8 {
        9
    } else {
        return None;
    };
    if data.len() < width {
        return None;
    }
    let ghost bytes = data@.subrange(0, width as int);
    if width == 1 {
        Some((first as u64, 1))
    } else if width <= 4 {
        let raw: u64 = read_be(data, 0, width);
        proof {
            lemma_leading_byte(bytes);
        }
        let value: u64 = if width == 2 {
            raw - 0x8000
        } else if width == 3 {
            raw - 0xC0_0000
        } else {
            raw - 0xE000_0000
        };
        Some((value, width))
    } else {
        let value: u64 = read_be(data, 1, width - 1);
        assert(bytes.drop_first() =~= data@.subrange(1, width as int));
        Some((value, width))
    }
}

/// A byte string of two to four bytes spells at least what its first byte
/// contributes, and less than one more of it would.
proof fn lemma_leading_byte(bytes: Seq<u8>)
    requires
        2 <= bytes.len() <= 4,
    ensures
        bytes.len() == 2 ==> bytes[0] * 0x100 <= crate::bytes::be_value(bytes) < (bytes[0] + 1)
            * 0x100,
        bytes.len() == 3 ==> bytes[0] * 0x1_0000 <= crate::bytes::be_value(bytes) < (bytes[0] + 1)
            * 0x1_0000,
        bytes.len() == 4 ==> bytes[0] * 0x100_0000 <= crate::bytes::be_value(bytes) < (bytes[0]
            + 1) * 0x100_0000,
{
    reveal_with_fuel(crate::bytes::be_value, 5);
    if bytes.len() >= 3 {
        assert(bytes.drop_last().drop_last()[0] == bytes[0]);
    }
    if bytes.len() == 4 {
        assert(bytes.drop_last().drop_last().drop_last()[0] == bytes[0]);
    }
}

/// The Mumble varint for `val`.
pub fn encode_varint(val: u64) -> (bytes: Vec<u8>)
    ensures
        bytes@ == varint_bytes(val),
{
    let mut bytes: Vec<u8> = Vec::new();
    if val < 0x80 {
        bytes.push(val as u8);
    } else if val < 0x4000 {
        push_be(&mut bytes, 0x8000 + val, 2);
    } else if val < 0x20_0000 {
        push_be(&mut bytes, 0xC0_0000 + val, 3);
    } else if val < 0x1000_0000 {
        push_be(&mut bytes, 0xE000_0000 + val, 4);
    } else if val <= 0xFFFF_FFFF {
        bytes.push(0xF0);
        push_be(&mut bytes, val, 4);
    } else {
        bytes.push(0xF4);
        push_be(&mut bytes, val, 8);
    }
    assert(bytes@ =~= varint_bytes(val));
    bytes
}

/// Reading back an encoded varint gives the value and consumes exactly its
/// bytes, whatever follows them.
pub proof fn varint_round_trip(value: u64, rest: Seq<u8>)
    ensures
        spec_read_varint(varint_bytes(value) + rest) == Some(
            (value as int, varint_bytes(value).len() as int),
        ),
        1 <= varint_bytes(value).len() <= 9,
{
    let code = varint_bytes(value);
    let data = code + rest;
    reveal_with_fuel(crate::bytes::pow256, 9);
    if value < 0x80 {
        assert(data.subrange(0, 1) =~= code);
    } else if value < 0x4000 {
        crate::bytes::lemma_be_round_trip((0x8000 + value) as nat, 2);
        lemma_leading_byte(code);
        assert(data[0] == code[0]);
        assert(data.subrange(0, 2) =~= code);
    } else if value < 0x20_0000 {
        crate::bytes::lemma_be_round_trip((0xC0_0000 + value) as nat, 3);
        lemma_leading_byte(code);
        assert(data[0] == code[0]);
        assert(data.subrange(0, 3) =~= code);
    } else if value < 0x1000_0000 {
        crate::bytes::lemma_be_round_trip((0xE000_0000 + value) as nat, 4);
        lemma_leading_byte(code);
        assert(data[0] == code[0]);
        assert(data.subrange(0, 4) =~= code);
    } else if value <= 0xFFFF_FFFF {
        crate::bytes::lemma_be_round_trip(value as nat, 4);
        assert(data[0] == code[0]);
        assert(data.subrange(0, 5) =~= code);
        assert(code.drop_first() =~= crate::bytes::be_bytes(value as nat, 4));
    } else {
        crate::bytes::lemma_be_round_trip(value as nat, 8);
        assert(data[0] == code[0]);
        assert(data.subrange(0, 9) =~= code);
        assert(code.drop_first() =~= crate::bytes::be_bytes(value as nat, 8));
    }
}

/// A parsed Mumble Opus voice packet, as a client sends it.
///
/// It carries no session: the server knows the sender from the connection.
#[derive(Debug)]
pub struct MumbleVoicePacket {
    /// Target (0 = normal talking, other values = whisper targets).
    pub target: u8,
    /// Sequence number from the Mumble client.
    pub sequence: u64,
    /// Raw Opus frame data.
    pub opus_data: Vec<u8>,
    /// Whether this is the last frame of the stream (terminator bit set).
    pub is_last: bool,
}

/// The contents of a voice packet.
pub struct VoiceContents {
    pub target: int,
    pub sequence: int,
    pub opus_data: Seq<u8>,
    pub is_last: bool,
}

impl View for MumbleVoicePacket {
    type V = VoiceContents;

    open spec fn view(&self) -> VoiceContents {
        VoiceContents {
            target: self.target as int,
            sequence: self.sequence as int,
            opus_data: self.opus_data@,
            is_last: self.is_last,
        }
    }
}

/// What a client's packet says, where it is one that this side understands:
/// Opus, with both numbers whole and the frame at least as long as announced.
pub open spec fn spec_parse_voice_packet(data: Seq<u8>) -> Option<VoiceContents> {
    if data.len() == 0 || data[0] / 32 != OPUS_TYPE {
        None
    } else {
        let after_header = data.subrange(1, data.len() as int);
        match spec_read_varint(after_header) {
            None => None,
            Some((sequence, seq_width)) => {
                let after_seq = after_header.subrange(seq_width, after_header.len() as int);
                match spec_read_varint(after_seq) {
                    None => None,
                    Some((length_field, len_width)) => {
                        let frame = after_seq.subrange(len_width, after_seq.len() as int);
                        let size = length_field % 0x2000;
                        if frame.len() < size {
                            None
                        } else {
                            Some(
                                VoiceContents {
                                    target: data[0] as int % 32,
                                    sequence,
                                    opus_data: frame.subrange(0, size),
                                    is_last: (length_field / 0x2000) % 2 == 1,
                                },
                            )
                        }
                    },
                }
            },
        }
    }
}

/// Parses a voice packet from a client.
pub fn parse_voice_packet(data: &[u8]) -> (result: Option<MumbleVoicePacket>)
    ensures
        match result {
            Some(packet) => spec_parse_voice_packet(data@) == Some(packet@),
            None => spec_parse_voice_packet(data@) is None,
        },
{
    if data.len() == 0 {
        return None;
    }
    let header: u8 = data[0];
    if header / 32 != OPUS_TYPE {
        return None;
    }
    let after_header = vstd::slice::slice_subrange(data, 1, data.len());
    let (sequence, seq_width): (u64, usize) = match read_varint(after_header) {
        Some(read) => read,
        None => {
            return None;
        },
    };
    let after_seq = vstd::slice::slice_subrange(after_header, seq_width, after_header.len());
    let (length_field, len_width): (u64, usize) = match read_varint(after_seq) {
        Some(read) => read,
        None => {
            return None;
        },
    };
    let frame = vstd::slice::slice_subrange(after_seq, len_width, after_seq.len());
    let size: usize = (length_field % TERMINATOR) as usize;
    if frame.len() < size {
        return None;
    }
    let opus_data = crate::bytes::copy_bytes(vstd::slice::slice_subrange(frame, 0, size));
    Some(
        MumbleVoicePacket {
            target: header % 32,
            sequence,
            opus_data,
            is_last: (length_field / TERMINATOR) % 2 == 1,
        },
    )
}

/// The length field for a frame of `len` bytes: its size in bits 12-0, which hold the
/// size of every frame shorter than 0x2000 bytes, and in bit 13 whether the frame is the
/// last one.
pub open spec fn length_field(len: nat, is_last: bool) -> u64 {
    (len % 0x2000 + if is_last {
        0x2000int
    } else {
        0
    }) as u64
}

/// The terminator bit of a length field is set for the last frame and no other, whatever
/// the size of the frame; the bits below it are the size, as far as they can hold it.
pub proof fn terminator_has_its_own_bit(len: nat, is_last: bool)
    ensures
        (length_field(len, is_last) & TERMINATOR != 0) == is_last,
        length_field(len, is_last) & 0x1FFF == len % 0x2000,
        length_field(len, is_last) < 0x4000,
{
    let field = length_field(len, is_last);
    assert(field < 0x4000 ==> (field & 0x2000 != 0) == (field >= 0x2000)) by (bit_vector);
    assert(field & 0x1FFF == field % 0x2000) by (bit_vector);
}

/// The bytes of a voice packet for clients.
pub open spec fn voice_packet_bytes(
    session_id: u32,
    sequence: u64,
    opus_data: Seq<u8>,
    is_last: bool,
) -> Seq<u8> {
    seq![128u8] + varint_bytes(session_id as u64) + varint_bytes(sequence) + varint_bytes(
        length_field(opus_data.len(), is_last),
    ) + opus_data
}

/// Encodes a voice packet for clients; the header says Opus and target 0.
pub fn encode_voice_packet(
    session_id: u32,
    sequence: u64,
    opus_data: &[u8],
    is_last: bool,
) -> (packet: Vec<u8>)
    ensures
        packet@ == voice_packet_bytes(session_id, sequence, opus_data@, is_last),
{
    let size: u64 = opus_data.len() as u64 % TERMINATOR;
    let field: u64 = if is_last {
        size + TERMINATOR
    } else {
        size
    };
    let mut packet: Vec<u8> = Vec::new();
    packet.push(OPUS_TYPE * 32);
    push_all(&mut packet, encode_varint(session_id as u64).as_slice());
    push_all(&mut packet, encode_varint(sequence).as_slice());
    push_all(&mut packet, encode_varint(field).as_slice());
    push_all(&mut packet, opus_data);
    assert(packet@ =~= voice_packet_bytes(session_id, sequence, opus_data@, is_last));
    packet
}

/// A packet as a client builds it is parsed back into what the client put in:
/// any target, any sequence number, any frame short enough for the length
/// field, terminated or not, whatever follows the frame.
pub proof fn client_packet_round_trip(
    target: u8,
    sequence: u64,
    opus_data: Seq<u8>,
    is_last: bool,
    rest: Seq<u8>,
)
    requires
        target < 32,
        opus_data.len() < 0x2000,
    ensures
        spec_parse_voice_packet(
            seq![(128 + target) as u8] + varint_bytes(sequence) + varint_bytes(
                length_field(opus_data.len(), is_last),
            ) + opus_data + rest,
        ) == Some(
            VoiceContents { target: target as int, sequence: sequence as int, opus_data, is_last },
        ),
{
    let field = length_field(opus_data.len(), is_last);
    let seq_code = varint_bytes(sequence);
    let len_code = varint_bytes(field);
    let data = seq![(128 + target) as u8] + seq_code + len_code + opus_data + rest;
    let tail = opus_data + rest;
    let after_header = data.subrange(1, data.len() as int);
    assert(after_header =~= seq_code + (len_code + tail));
    varint_round_trip(sequence, len_code + tail);
    let after_seq = after_header.subrange(seq_code.len() as int, after_header.len() as int);
    assert(after_seq =~= len_code + tail);
    varint_round_trip(field, tail);
    let frame = after_seq.subrange(len_code.len() as int, after_seq.len() as int);
    assert(frame =~= tail);
    assert(frame.subrange(0, opus_data.len() as int) =~= opus_data);
}

/// A client that reads the three numbers off a packet from this side finds the
/// speaker's session, the sequence number, the length field with the frame's size and
/// terminator bit, and then the frame itself. The size is that of the whole frame
/// wherever the field can hold it.
pub proof fn server_packet_round_trip(
    session_id: u32,
    sequence: u64,
    opus_data: Seq<u8>,
    is_last: bool,
)
    ensures
        ({
            let packet = voice_packet_bytes(session_id, sequence, opus_data, is_last);
            let after_header = packet.drop_first();
            let session_read = spec_read_varint(after_header);
            let after_session = after_header.skip((session_read->0).1);
            let sequence_read = spec_read_varint(after_session);
            let after_sequence = after_session.skip((sequence_read->0).1);
            let length_read = spec_read_varint(after_sequence);
            &&& packet[0] / 32 == OPUS_TYPE
            &&& packet[0] % 32 == 0
            &&& session_read is Some && (session_read->0).0 == session_id
            &&& sequence_read is Some && (sequence_read->0).0 == sequence
            &&& length_read is Some && (length_read->0).0 == length_field(
                opus_data.len(),
                is_last,
            )
            &&& (length_read->0).0 % 0x2000 == opus_data.len() % 0x2000
            &&& ((length_read->0).0 / 0x2000 == 1) == is_last
            &&& opus_data.len() < 0x2000 ==> (length_read->0).0 % 0x2000 == opus_data.len()
            &&& after_sequence.skip((length_read->0).1) == opus_data
        }),
{
    let field = length_field(opus_data.len(), is_last);
    let a = varint_bytes(session_id as u64);
    let b = varint_bytes(sequence);
    let c = varint_bytes(field);
    let packet = voice_packet_bytes(session_id, sequence, opus_data, is_last);
    let after_header = packet.drop_first();
    assert(after_header =~= a + (b + (c + opus_data)));
    varint_round_trip(session_id as u64, b + (c + opus_data));
    let after_session = after_header.skip(a.len() as int);
    assert(after_session =~= b + (c + opus_data));
    varint_round_trip(sequence, c + opus_data);
    let after_sequence = after_session.skip(b.len() as int);
    assert(after_sequence =~= c + opus_data);
    varint_round_trip(field, opus_data);
    assert(after_sequence.skip(c.len() as int) =~= opus_data);
}

} // verus!
