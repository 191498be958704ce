//! deCONZ frames: command, sequence, status, length, payload and a 16-bit CRC.

use vstd::prelude::*;
use crate::commands::{CommandId, command_byte, command_of_byte};
use crate::types::ProtocolError;
use crate::wire::{le16, le16_bytes, read_le16, push_le16, push_all, copy_range, lemma_le16_round_trip};

verus! {

/// Smallest frame: command, sequence, status, two length bytes and two CRC bytes.
pub const MIN_FRAME_SIZE: usize = 7;

/// Sum of the bytes, as an unbounded number.
pub open spec fn byte_sum(s: Seq<u8>) -> nat
    decreases s.len(),
{
    if s.len() == 0 {
        0
    } else {
        byte_sum(s.drop_last()) + s.last() as nat
    }
}

/// Two's complement of the 16-bit sum of the bytes.
pub open spec fn crc_of(s: Seq<u8>) -> u16 {
    ((0x10000 - byte_sum(s) % 0x10000) % 0x10000) as u16
}

/// The bytes of a frame up to, not including, its CRC.
pub open spec fn frame_body(cmd: u8, sequence: u8, payload: Seq<u8>) -> Seq<u8> {
    seq![cmd, sequence, 0u8] + le16_bytes((5 + payload.len()) as u16) + payload
}

/// A whole serialized frame.
pub open spec fn frame_bytes(cmd: u8, sequence: u8, payload: Seq<u8>) -> Seq<u8> {
    frame_body(cmd, sequence, payload) + le16_bytes(crc_of(frame_body(cmd, sequence, payload)))
}

/// What deserializing `data` gives: each error on exactly the inputs that
/// cause it, checked in this order (size, CRC, command, length field).
pub open spec fn frame_outcome(data: Seq<u8>, r: Result<Frame, ProtocolError>) -> bool {
    let n = data.len();
    if n < MIN_FRAME_SIZE {
        r == Err::<Frame, ProtocolError>(ProtocolError::FrameTooShort(n as usize))
    } else {
        let body = data.subrange(0, n - 2);
        let stored = le16(data[n - 2], data[n - 1]);
        if stored != crc_of(body) {
            r == Err::<Frame, ProtocolError>(
                ProtocolError::CrcMismatch { expected: crc_of(body), actual: stored },
            )
        } else if command_of_byte(data[0]) is None {
            r == Err::<Frame, ProtocolError>(ProtocolError::UnknownCommand(data[0]))
        } else if le16(data[3], data[4]) as int + 2 != n {
            r matches Err(ProtocolError::InvalidFrame(_))
        } else {
            r matches Ok(f) && f.command_id == command_of_byte(data[0])->Some_0 && f.sequence
                == data[1] && f.status == data[2] && f.payload@ == data.subrange(5, n - 2)
        }
    }
}

/// A deCONZ frame.
#[derive(Debug, Clone)]
pub struct Frame {
    pub command_id: CommandId,
    pub sequence: u8,
    pub status: u8,
    pub payload: Vec<u8>,
}

proof fn lemma_byte_sum_update(s: Seq<u8>, i: int, v: u8)
    requires
        0 <= i < s.len(),
    ensures
        byte_sum(s.update(i, v)) as int == byte_sum(s) as int - s[i] as int + v as int,
    decreases s.len(),
{
    let t = s.update(i, v);
    if i == s.len() - 1 {
        assert(t.drop_last() =~= s.drop_last());
    } else {
        lemma_byte_sum_update(s.drop_last(), i, v);
        assert(t.drop_last() =~= s.drop_last().update(i, v));
    }
}

proof fn lemma_byte_sum_prefix(s: Seq<u8>, i: int)
    requires
        0 <= i < s.len(),
    ensures
        byte_sum(s.subrange(0, i + 1)) == byte_sum(s.subrange(0, i)) + s[i] as nat,
{
    assert(s.subrange(0, i + 1).drop_last() =~= s.subrange(0, i));
}

impl Frame {
    /// A request frame: status zero.
    pub fn new(command_id: CommandId, sequence: u8, payload: Vec<u8>) -> (r: Frame)
        ensures
            r.command_id == command_id,
            r.sequence == sequence,
            r.status == 0,
            r.payload@ == payload@,
    {
        Frame { command_id, sequence, status: 0, payload }
    }

    /// The CRC of `data`: two's complement of the 16-bit sum of its bytes.
    pub fn calculate_crc(data: &[u8]) -> (r: u16)
        ensures
            r == crc_of(data@),
    {
        let mut sum: u16 = 0;
        let mut i: usize = 0;
        while i < data.len()
            invariant
                i <= data@.len(),
                sum as nat == byte_sum(data@.subrange(0, i as int)) % 0x10000,
            decreases data@.len() - i,
        {
            proof {
                lemma_byte_sum_prefix(data@, i as int);
            }
            sum = sum.wrapping_add(data[i] as u16);
            i = i + 1;
        }
        assert(data@.subrange(0, data@.len() as int) =~= data@);
        0u16.wrapping_sub(sum)
    }

    /// The frame's bytes, ready for SLIP encoding. The length field counts
    /// everything but the CRC; the status byte is written as zero.
    pub fn serialize(&self) -> (r: Vec<u8>)
        requires
            self.payload@.len() + 5 <= 0xFFFF,
        ensures
            r@ == frame_bytes(command_byte(self.command_id), self.sequence, self.payload@),
    {
        let frame_len = (5 + self.payload.len()) as u16;
        let mut data: Vec<u8> = Vec::new();
        data.push(self.command_id.to_u8());
        data.push(self.sequence);
        data.push(0x00);
        push_le16(&mut data, frame_len);
        push_all(&mut data, self.payload.as_slice());
        assert(data@ =~= frame_body(command_byte(self.command_id), self.sequence, self.payload@));
        let crc = Self::calculate_crc(data.as_slice());
        push_le16(&mut data, crc);
        data
    }

    /// Parses a frame (after SLIP decoding), checking size, CRC, command and
    /// length field in that order.
    pub fn deserialize(data: &[u8]) -> (r: Result<Frame, ProtocolError>)
        ensures
            frame_outcome(data@, r),
    {
        let n = data.len();
        if n < MIN_FRAME_SIZE {
            return Err(ProtocolError::FrameTooShort(n));
        }
        let crc_offset = n - 2;
        let received = read_le16(data, crc_offset);
        let body = copy_range(data, 0, crc_offset);
        let calculated = Self::calculate_crc(body.as_slice());
        if received != calculated {
            return Err(ProtocolError::CrcMismatch { expected: calculated, actual: received });
        }
        let command_id = match CommandId::from_u8(data[0]) {
            Some(c) => c,
            None => {
                return Err(ProtocolError::UnknownCommand(data[0]));
            },
        };
        let frame_len = read_le16(data, 3) as usize;
        if frame_len + 2 != n {
            return Err(ProtocolError::InvalidFrame("frame length field does not match the frame size".to_string()));
        }
        let payload = copy_range(data, 5, crc_offset);
        Ok(Frame { command_id, sequence: data[1], status: data[2], payload })
    }
}

/// Deserializing a serialized frame gives back its command, sequence and
/// payload, with status zero.
pub proof fn lemma_frame_round_trip(cmd: CommandId, sequence: u8, payload: Seq<u8>)
    requires
        payload.len() + 5 <= 0xFFFF,
    ensures
        forall|r: Result<Frame, ProtocolError>| #[trigger]
            frame_outcome(frame_bytes(command_byte(cmd), sequence, payload), r) ==> (r matches Ok(
                f,
            ) && f.command_id == cmd && f.sequence == sequence && f.status == 0 && f.payload@
                == payload),
{
    let body = frame_body(command_byte(cmd), sequence, payload);
    let data = frame_bytes(command_byte(cmd), sequence, payload);
    let n = data.len();
    lemma_le16_round_trip(crc_of(body));
    lemma_le16_round_trip((5 + payload.len()) as u16);
    assert(data.subrange(0, n - 2) =~= body);
    assert(data.subrange(5, n - 2) =~= payload);
    assert(data[n - 2] == le16_bytes(crc_of(body))[0]);
    assert(data[n - 1] == le16_bytes(crc_of(body))[1]);
    assert(data[3] == le16_bytes((5 + payload.len()) as u16)[0]);
    assert(data[4] == le16_bytes((5 + payload.len()) as u16)[1]);
}

/// Changing any one byte of a serialized frame outside its CRC field makes
/// deserialization fail with a CRC mismatch.
pub proof fn lemma_frame_corruption_detected(
    cmd: CommandId,
    sequence: u8,
    payload: Seq<u8>,
    i: int,
    v: u8,
)
    requires
        payload.len() + 5 <= 0xFFFF,
        0 <= i < frame_bytes(command_byte(cmd), sequence, payload).len() - 2,
        v != frame_bytes(command_byte(cmd), sequence, payload)[i],
    ensures
        forall|r: Result<Frame, ProtocolError>| #[trigger]
            frame_outcome(frame_bytes(command_byte(cmd), sequence, payload).update(i, v), r)
                ==> r matches Err(ProtocolError::CrcMismatch { .. }),
{
    let body = frame_body(command_byte(cmd), sequence, payload);
    let data = frame_bytes(command_byte(cmd), sequence, payload);
    let bad = data.update(i, v);
    let n = data.len();
    assert(bad.subrange(0, n - 2) =~= body.update(i, v));
    assert(bad[n - 2] == data[n - 2]);
    assert(bad[n - 1] == data[n - 1]);
    lemma_le16_round_trip(crc_of(body));
    lemma_byte_sum_update(body, i, v);
    let a = byte_sum(body) as int;
    let b = byte_sum(body.update(i, v)) as int;
    assert(b - a == v as int - body[i] as int);
    assert(b % 0x10000 != a % 0x10000) by {
        vstd::arithmetic::div_mod::lemma_mod_equivalence(b, a, 0x10000);
    }
    assert(crc_of(body.update(i, v)) != crc_of(body));
}

/// Flipping any single bit of a serialized frame outside its CRC field makes
/// deserialization fail with a CRC mismatch.
pub proof fn lemma_frame_bit_flip_detected(
    cmd: CommandId,
    sequence: u8,
    payload: Seq<u8>,
    i: int,
    bit: u8,
)
    requires
        payload.len() + 5 <= 0xFFFF,
        0 <= i < frame_bytes(command_byte(cmd), sequence, payload).len() - 2,
        bit < 8,
    ensures
        forall|r: Result<Frame, ProtocolError>| #[trigger]
            frame_outcome(
                frame_bytes(command_byte(cmd), sequence, payload).update(
                    i,
                    frame_bytes(command_byte(cmd), sequence, payload)[i] ^ (1u8 << bit),
                ),
                r,
            ) ==> r matches Err(ProtocolError::CrcMismatch { .. }),
{
    let x = frame_bytes(command_byte(cmd), sequence, payload)[i];
    assert(x ^ (1u8 << bit) != x) by (bit_vector)
        requires
            bit < 8,
    ;
    lemma_frame_corruption_detected(cmd, sequence, payload, i, x ^ (1u8 << bit));
}

} // verus!
