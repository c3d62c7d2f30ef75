//! What the two wrappers do with an observed message before they hand the
//! call on to the trampoline: sanity gates on the message-buffer object,
//! opcode extraction, and one ring entry per message.
//!
//! The message-buffer object keeps its data pointer at offset 0x04 and its
//! current size at offset 0x10.  Outbound messages start with a 32-bit
//! opcode, inbound ones with a 16-bit opcode; the rest is the payload.

use vstd::bytes::*;
use vstd::prelude::*;
use vstd::slice::slice_subrange;

use crate::ring::{
    PacketRingHeader,
    PacketView,
    ring_after_write,
    ring_wf,
    word_at,
    write_fits,
    write_packet,
};

verus! {

/// Pointers at or below this value are never dereferenced.
pub const MIN_VALID_POINTER: usize = 0x10000;

/// Messages of this size or more are ignored (1 MiB).
pub const MAX_MESSAGE_SIZE: u32 = 0x10_0000;

/// Offset of the data pointer in the message-buffer object.
pub const BUFFER_DATA_OFFSET: usize = 0x04;

/// Offset of the current size in the message-buffer object.
pub const BUFFER_SIZE_OFFSET: usize = 0x10;

/// Smallest outbound message: its opcode.
pub const OUTBOUND_MIN_SIZE: u32 = 4;

/// Smallest inbound message: its opcode.
pub const INBOUND_MIN_SIZE: u32 = 2;

/// Direction byte of a message from the server.
pub const DIRECTION_INBOUND: u8 = 0;

/// Direction byte of a message to the server.
pub const DIRECTION_OUTBOUND: u8 = 1;

/// The message-buffer object may be read: its address is above the low guard.
pub fn buffer_is_plausible(buffer: usize) -> (r: bool)
    ensures
        r == (buffer > MIN_VALID_POINTER),
{
    buffer > MIN_VALID_POINTER
}

/// The message bytes may be read: the data pointer is non-null and above the
/// low guard, and the size lies in `[min_size, 1 MiB)`.
pub fn message_is_plausible(data: usize, size: u32, min_size: u32) -> (r: bool)
    ensures
        r == (data != 0 && data > MIN_VALID_POINTER && min_size <= size && size
            < MAX_MESSAGE_SIZE),
{
    data != 0 && data > MIN_VALID_POINTER && size >= min_size && size < MAX_MESSAGE_SIZE
}

/// Opcode of an outbound message: its first four bytes, little-endian.
pub open spec fn outbound_opcode(msg: Seq<u8>) -> u32 {
    word_at(msg, 0)
}

/// Opcode of an inbound message: its first two bytes, little-endian.
pub open spec fn inbound_opcode(msg: Seq<u8>) -> u32 {
    spec_u16_from_le_bytes(msg.subrange(0, 2)) as u32
}

/// Splits an outbound message into opcode and payload.
pub fn split_outbound(msg: &[u8]) -> (r: (u32, &[u8]))
    requires
        msg@.len() >= OUTBOUND_MIN_SIZE,
    ensures
        r.0 == outbound_opcode(msg@),
        r.1@ == msg@.subrange(OUTBOUND_MIN_SIZE as int, msg@.len() as int),
{
    let opcode = u32_from_le_bytes(slice_subrange(msg, 0, 4));
    let payload = slice_subrange(msg, 4, msg.len());
    (opcode, payload)
}

/// Splits an inbound message into opcode and payload.
pub fn split_inbound(msg: &[u8]) -> (r: (u32, &[u8]))
    requires
        msg@.len() >= INBOUND_MIN_SIZE,
    ensures
        r.0 == inbound_opcode(msg@),
        r.1@ == msg@.subrange(INBOUND_MIN_SIZE as int, msg@.len() as int),
{
    let opcode = u16_from_le_bytes(slice_subrange(msg, 0, 2)) as u32;
    let payload = slice_subrange(msg, 2, msg.len());
    (opcode, payload)
}

/// The entry that relaying `msg` in `direction` at `timestamp` writes.
pub open spec fn relayed(direction: u8, msg: Seq<u8>, timestamp: u32) -> PacketView {
    if direction == DIRECTION_OUTBOUND {
        PacketView {
            timestamp,
            direction,
            opcode: outbound_opcode(msg),
            data: msg.subrange(OUTBOUND_MIN_SIZE as int, msg.len() as int),
        }
    } else {
        PacketView {
            timestamp,
            direction,
            opcode: inbound_opcode(msg),
            data: msg.subrange(INBOUND_MIN_SIZE as int, msg.len() as int),
        }
    }
}

/// Smallest message in `direction`.
pub open spec fn min_size(direction: u8) -> nat {
    if direction == DIRECTION_OUTBOUND {
        OUTBOUND_MIN_SIZE as nat
    } else {
        INBOUND_MIN_SIZE as nat
    }
}

/// Writes one ring entry for an observed message (`DIRECTION_OUTBOUND` for
/// a message to the server, else inbound).  Nothing is written before the
/// agent has announced readiness, nor for a message shorter than its
/// opcode, nor when the ring has no room for it.
pub fn relay_message(
    header: &mut PacketRingHeader,
    data: &mut [u8],
    direction: u8,
    msg: &[u8],
    timestamp: u32,
) -> (written: bool)
    requires
        ring_wf(*old(header), old(data)@),
    ensures
        ring_wf(*final(header), final(data)@),
        old(header).dll_ready != 1 ==> !written && *final(header) == *old(header)
            && final(data)@ == old(data)@,
        old(header).dll_ready == 1 && msg@.len() < min_size(direction) ==> !written
            && *final(header) == *old(header) && final(data)@ == old(data)@,
        old(header).dll_ready == 1 && msg@.len() >= min_size(direction) ==> {
            let p = relayed(direction, msg@, timestamp);
            &&& written == write_fits(*old(header), p.data.len() as int)
            &&& (*final(header), final(data)@) == ring_after_write(*old(header), old(data)@, p)
        },
{
    if header.dll_ready != 1 {
        return false;
    }
    if direction == DIRECTION_OUTBOUND {
        if msg.len() < OUTBOUND_MIN_SIZE as usize {
            return false;
        }
        let (opcode, payload) = split_outbound(msg);
        write_packet(header, data, direction, opcode, payload, timestamp)
    } else {
        if msg.len() < INBOUND_MIN_SIZE as usize {
            return false;
        }
        let (opcode, payload) = split_inbound(msg);
        write_packet(header, data, direction, opcode, payload, timestamp)
    }
}

} // verus!
