//! Shared-memory byte ring: one writer (the agent) and one reader (the
//! controller).  The region is a 24-byte header followed by a data area of
//! `capacity` bytes.  Entries are a 20-byte descriptor followed by the payload,
//! padded so that the next descriptor starts on a 4-byte boundary.
//!
//! The functions here work on a header value and a slice that holds the data
//! area; the caller maps the region and performs the aligned cursor stores.

use vstd::bytes::*;
use vstd::prelude::*;
use vstd::slice::slice_subrange;

use crate::text::{decimal, text_with_number};

verus! {

/// Sentinel at offset 0 of the region: "WSPY".
pub const RING_MAGIC: u32 = 0x57535059;

/// Size of the data area of a freshly created region (4 MiB).
pub const RING_CAPACITY: u32 = 4 * 1024 * 1024;

/// Size of the region header.
pub const HEADER_SIZE: usize = 24;

/// Size of an entry descriptor.
pub const ENTRY_HEADER_SIZE: usize = 20;

/// Header at the start of the shared region.  Each field is a naturally
/// aligned little-endian 32-bit word, in this order.
#[derive(Clone, Copy, Debug, PartialEq, Eq, Structural)]
pub struct PacketRingHeader {
    /// `RING_MAGIC` once the agent has created the region.
    pub magic: u32,
    /// Offset in the data area of the next write; written by the agent.
    pub write_pos: u32,
    /// Offset in the data area of the next read; written by the controller.
    pub read_pos: u32,
    /// Size of the data area in bytes; fixed for the region's lifetime.
    pub capacity: u32,
    /// 0 until the diversions are installed, 1 thereafter.
    pub dll_ready: u32,
    /// The build the agent detected.
    pub build_number: u32,
}

/// Descriptor that precedes each payload in the data area.  On the wire it
/// is 20 bytes: `total_size`, `timestamp`, `direction`, three zero bytes of
/// padding, `opcode`, `data_len`, all little-endian.
#[derive(Clone, Copy, Debug, PartialEq, Eq, Structural)]
pub struct PacketEntry {
    /// Descriptor plus payload, rounded up to a multiple of 4.
    pub total_size: u32,
    /// Millisecond tick sampled when the entry was written.
    pub timestamp: u32,
    /// 0 = inbound (server to client), 1 = outbound (client to server).
    pub direction: u8,
    /// Numeric message id.
    pub opcode: u32,
    /// Payload length in bytes.
    pub data_len: u32,
}

/// A message as handed to the writer and returned by the reader.
pub struct PacketView {
    pub timestamp: u32,
    pub direction: u8,
    pub opcode: u32,
    pub data: Seq<u8>,
}

/// One message read out of the ring.
#[derive(Clone, Debug)]
pub struct RawPacket {
    pub timestamp: u32,
    /// 0 = inbound, 1 = outbound.
    pub direction: u8,
    pub opcode: u32,
    pub data: Vec<u8>,
}

impl View for RawPacket {
    type V = PacketView;

    open spec fn view(&self) -> PacketView {
        PacketView {
            timestamp: self.timestamp,
            direction: self.direction,
            opcode: self.opcode,
            data: self.data@,
        }
    }
}

/// The 20 bytes of a descriptor.
pub open spec fn descriptor_image(e: PacketEntry) -> Seq<u8> {
    spec_u32_to_le_bytes(e.total_size) + spec_u32_to_le_bytes(e.timestamp) + seq![
        e.direction,
        0u8,
        0u8,
        0u8,
    ] + spec_u32_to_le_bytes(e.opcode) + spec_u32_to_le_bytes(e.data_len)
}

/// The little-endian word at byte `at` of `b`.
pub open spec fn word_at(b: Seq<u8>, at: int) -> u32 {
    spec_u32_from_le_bytes(b.subrange(at, at + 4))
}

/// The descriptor that a 20-byte image holds (the padding bytes are ignored).
pub open spec fn descriptor_of(b: Seq<u8>) -> PacketEntry {
    PacketEntry {
        total_size: word_at(b, 0),
        timestamp: word_at(b, 4),
        direction: b[8],
        opcode: word_at(b, 12),
        data_len: word_at(b, 16),
    }
}

impl PacketEntry {
    /// The 20-byte wire image of this descriptor.
    pub fn to_bytes(&self) -> (out: Vec<u8>)
        ensures
            out@ == descriptor_image(*self),
    {
        let mut out = u32_to_le_bytes(self.total_size);
        let mut ts = u32_to_le_bytes(self.timestamp);
        out.append(&mut ts);
        out.push(self.direction);
        out.push(0);
        out.push(0);
        out.push(0);
        let mut op = u32_to_le_bytes(self.opcode);
        out.append(&mut op);
        let mut len = u32_to_le_bytes(self.data_len);
        out.append(&mut len);
        proof {
            assert(out@ =~= descriptor_image(*self));
        }
        out
    }

    /// Reads a descriptor from its 20-byte wire image.
    pub fn from_bytes(b: &[u8]) -> (e: PacketEntry)
        requires
            b@.len() == ENTRY_HEADER_SIZE,
        ensures
            e == descriptor_of(b@),
    {
        PacketEntry {
            total_size: u32_from_le_bytes(slice_subrange(b, 0, 4)),
            timestamp: u32_from_le_bytes(slice_subrange(b, 4, 8)),
            direction: b[8],
            opcode: u32_from_le_bytes(slice_subrange(b, 12, 16)),
            data_len: u32_from_le_bytes(slice_subrange(b, 16, 20)),
        }
    }
}

/// Reading a descriptor back from its image gives the descriptor.
pub proof fn lemma_descriptor_round_trip(e: PacketEntry)
    ensures
        descriptor_image(e).len() == ENTRY_HEADER_SIZE,
        descriptor_of(descriptor_image(e)) == e,
{
    lemma_auto_spec_u32_to_from_le_bytes();
    let b = descriptor_image(e);
    assert(b.subrange(0, 4) =~= spec_u32_to_le_bytes(e.total_size));
    assert(b.subrange(4, 8) =~= spec_u32_to_le_bytes(e.timestamp));
    assert(b.subrange(12, 16) =~= spec_u32_to_le_bytes(e.opcode));
    assert(b.subrange(16, 20) =~= spec_u32_to_le_bytes(e.data_len));
}

/// Position of the `i`-th byte after `off` in a ring of `cap` bytes
/// (for `off < cap` and `0 <= i <= cap`).
pub open spec fn ring_index(off: int, i: int, cap: int) -> int {
    if off + i < cap {
        off + i
    } else {
        off + i - cap
    }
}

/// Offset of absolute position `j` relative to `off`, going forward around the ring.
pub open spec fn ring_distance(off: int, j: int, cap: int) -> int {
    if j >= off {
        j - off
    } else {
        j + cap - off
    }
}

/// The `len` bytes that start at `off`, wrapping at the end of `data`.
pub open spec fn ring_slice(data: Seq<u8>, off: int, len: int) -> Seq<u8> {
    Seq::new(len as nat, |i: int| data[ring_index(off, i, data.len() as int)])
}

/// `data` after `src` has been copied in starting at `off`, wrapping at its end.
pub open spec fn ring_update(data: Seq<u8>, off: int, src: Seq<u8>) -> Seq<u8> {
    Seq::new(
        data.len(),
        |j: int|
            if ring_distance(off, j, data.len() as int) < src.len() {
                src[ring_distance(off, j, data.len() as int)]
            } else {
                data[j]
            },
    )
}

/// Copies `src` into the ring at `offset`, wrapping byte-wise at the end of `data`.
pub fn ring_write(data: &mut [u8], offset: usize, src: &[u8])
    requires
        offset < old(data)@.len(),
        src@.len() <= old(data)@.len(),
    ensures
        final(data)@ == ring_update(old(data)@, offset as int, src@),
{
    let cap = data.len();
    let mut dst = offset;
    let mut i: usize = 0;
    while i < src.len()
        invariant
            data@.len() == cap,
            cap == old(data)@.len(),
            offset < cap,
            src@.len() <= cap,
            i <= src@.len(),
            dst < cap,
            dst as int == ring_index(offset as int, i as int, cap as int),
            data@ == ring_update(old(data)@, offset as int, src@.take(i as int)),
        decreases src@.len() - i,
    {
        data[dst] = src[i];
        proof {
            assert(data@ =~= ring_update(old(data)@, offset as int, src@.take(i + 1)));
        }
        dst = dst + 1;
        if dst >= cap {
            dst = 0;
        }
        i = i + 1;
    }
    proof {
        assert(src@.take(src@.len() as int) =~= src@);
    }
}

/// Reads `len` bytes from the ring starting at `offset`, wrapping at the end of
/// `data`: one copy when the range fits, two segments when it wraps.
pub fn ring_read(data: &[u8], offset: usize, len: usize) -> (out: Vec<u8>)
    requires
        offset < data@.len(),
        len <= data@.len(),
    ensures
        out@ == ring_slice(data@, offset as int, len as int),
{
    let cap = data.len();
    let mut out: Vec<u8> = Vec::with_capacity(len);
    let first = if len <= cap - offset {
        len
    } else {
        cap - offset
    };
    let mut i: usize = 0;
    while i < first
        invariant
            cap == data@.len(),
            offset < cap,
            len <= cap,
            first <= len,
            offset + first <= cap,
            i <= first,
            out@ == ring_slice(data@, offset as int, i as int),
        decreases first - i,
    {
        out.push(data[offset + i]);
        proof {
            assert(out@ =~= ring_slice(data@, offset as int, i + 1));
        }
        i = i + 1;
    }
    let mut k: usize = 0;
    while k < len - first
        invariant
            cap == data@.len(),
            offset < cap,
            len <= cap,
            first <= len,
            first < len ==> offset + first == cap,
            k <= len - first,
            out@ == ring_slice(data@, offset as int, first + k),
        decreases len - first - k,
    {
        out.push(data[k]);
        proof {
            assert(out@ =~= ring_slice(data@, offset as int, first + k + 1));
        }
        k = k + 1;
    }
    out
}

/// Writing a byte string into the ring and reading the same range back gives
/// the byte string again, whether or not the range wraps at the end of the ring.
pub proof fn lemma_ring_read_after_write(data: Seq<u8>, off: int, src: Seq<u8>)
    requires
        0 <= off < data.len(),
        src.len() <= data.len(),
    ensures
        ring_slice(ring_update(data, off, src), off, src.len() as int) == src,
{
    assert(ring_slice(ring_update(data, off, src), off, src.len() as int) =~= src);
}

/// Reading a range of the ring and writing those bytes back to the same range
/// leaves the ring unchanged, whether or not the range wraps.
pub proof fn lemma_ring_write_after_read(data: Seq<u8>, off: int, len: int)
    requires
        0 <= off < data.len(),
        0 <= len <= data.len(),
    ensures
        ring_update(data, off, ring_slice(data, off, len)) == data,
{
    assert(ring_update(data, off, ring_slice(data, off, len)) =~= data);
}

/// Size that an entry with a payload of `len` bytes takes in the data area.
pub open spec fn aligned_entry_size(len: int) -> int {
    (ENTRY_HEADER_SIZE + len + 3) / 4 * 4
}

/// Bytes the writer may still use; one byte is always kept free so that a
/// full ring never looks empty.
pub open spec fn free_bytes(write_pos: int, read_pos: int, cap: int) -> int {
    if write_pos >= read_pos {
        cap - (write_pos - read_pos) - 1
    } else {
        read_pos - write_pos - 1
    }
}

/// Bytes written and not yet read.
pub open spec fn used_bytes(write_pos: int, read_pos: int, cap: int) -> int {
    if write_pos >= read_pos {
        write_pos - read_pos
    } else {
        cap - read_pos + write_pos
    }
}

/// A header and a data area that the ring's algorithms can work on: the
/// data area is `capacity` bytes, which hold at least one descriptor, and
/// both cursors lie inside it.
pub open spec fn ring_wf(h: PacketRingHeader, data: Seq<u8>) -> bool {
    &&& h.capacity as int == data.len()
    &&& ENTRY_HEADER_SIZE <= h.capacity
    &&& h.write_pos < h.capacity
    &&& h.read_pos < h.capacity
}

/// The writer takes an entry with a payload of `len` bytes.
pub open spec fn write_fits(h: PacketRingHeader, len: int) -> bool {
    let size = aligned_entry_size(len);
    &&& size <= h.capacity
    &&& size <= free_bytes(h.write_pos as int, h.read_pos as int, h.capacity as int)
}

/// The descriptor the writer emits for `p`.
pub open spec fn descriptor_for(p: PacketView) -> PacketEntry {
    PacketEntry {
        total_size: aligned_entry_size(p.data.len() as int) as u32,
        timestamp: p.timestamp,
        direction: p.direction,
        opcode: p.opcode,
        data_len: p.data.len() as u32,
    }
}

/// Header and data area after the writer has handled `p`: unchanged when
/// the entry does not fit, else the descriptor at `write_pos`, the payload
/// right after it, and `write_pos` moved past the aligned entry.
pub open spec fn ring_after_write(h: PacketRingHeader, data: Seq<u8>, p: PacketView) -> (
    PacketRingHeader,
    Seq<u8>,
) {
    if write_fits(h, p.data.len() as int) {
        let cap = h.capacity as int;
        let w = h.write_pos as int;
        let with_descriptor = ring_update(data, w, descriptor_image(descriptor_for(p)));
        (
            PacketRingHeader {
                write_pos: ring_index(w, aligned_entry_size(p.data.len() as int), cap) as u32,
                ..h
            },
            ring_update(with_descriptor, ring_index(w, ENTRY_HEADER_SIZE as int, cap), p.data),
        )
    } else {
        (h, data)
    }
}

/// Appends one entry (descriptor, then payload) at `write_pos` and publishes
/// it by moving `write_pos`.  An entry that is larger than the ring or than
/// its free space is dropped and nothing changes.  `timestamp` is the
/// millisecond tick to record.
pub fn write_packet(
    header: &mut PacketRingHeader,
    data: &mut [u8],
    direction: u8,
    opcode: u32,
    payload: &[u8],
    timestamp: u32,
) -> (written: bool)
    requires
        ring_wf(*old(header), old(data)@),
    ensures
        written == write_fits(*old(header), payload@.len() as int),
        (*final(header), final(data)@) == ring_after_write(
            *old(header),
            old(data)@,
            PacketView { timestamp, direction, opcode, data: payload@ },
        ),
        ring_wf(*final(header), final(data)@),
        !written ==> *final(header) == *old(header) && final(data)@ == old(data)@,
        written ==> final(header).write_pos != final(header).read_pos,
        written && old(header).write_pos % 4 == 0 && old(header).capacity % 4 == 0
            ==> final(header).write_pos % 4 == 0,
{
    let ghost p = PacketView { timestamp, direction, opcode, data: payload@ };
    let cap = header.capacity;
    let len = payload.len();
    if len > cap as usize {
        return false;
    }
    let size64: u64 = (ENTRY_HEADER_SIZE as u64 + len as u64 + 3) / 4 * 4;
    if size64 > cap as u64 {
        return false;
    }
    let size = size64 as u32;
    let w = header.write_pos;
    let r = header.read_pos;
    let free = if w >= r {
        cap - (w - r) - 1
    } else {
        r - w - 1
    };
    if size > free {
        return false;
    }
    let entry = PacketEntry {
        total_size: size,
        timestamp,
        direction,
        opcode,
        data_len: len as u32,
    };
    let descriptor = entry.to_bytes();
    proof {
        lemma_descriptor_round_trip(entry);
        assert(entry == descriptor_for(p));
    }
    ring_write(data, w as usize, descriptor.as_slice());
    let payload_at = if w < cap - ENTRY_HEADER_SIZE as u32 {
        w + ENTRY_HEADER_SIZE as u32
    } else {
        w - (cap - ENTRY_HEADER_SIZE as u32)
    };
    ring_write(data, payload_at as usize, payload);
    let new_write = if w < cap - size {
        w + size
    } else {
        w - (cap - size)
    };
    header.write_pos = new_write;
    proof {
        assert(size as int % 4 == 0) by {
            assert(size64 as int == (ENTRY_HEADER_SIZE + len + 3) / 4 * 4);
            vstd::arithmetic::div_mod::lemma_mod_multiples_basic(
                (ENTRY_HEADER_SIZE + len + 3) / 4,
                4,
            );
        }
    }
    true
}

/// A descriptor the reader accepts in a ring of `cap` bytes.
pub open spec fn descriptor_valid(e: PacketEntry, cap: int) -> bool {
    &&& ENTRY_HEADER_SIZE <= e.total_size <= cap
    &&& e.data_len <= e.total_size - ENTRY_HEADER_SIZE
}

/// What the reader takes out of `data` from `pos` on, with `remaining` bytes
/// still to consume: the messages in order, and the position it stops at.
/// It stops when nothing remains or at the first descriptor it rejects.
pub open spec fn parse_entries(data: Seq<u8>, pos: int, remaining: nat) -> (Seq<PacketView>, int)
    decreases remaining,
{
    if remaining == 0 {
        (Seq::empty(), pos)
    } else {
        let cap = data.len() as int;
        let e = descriptor_of(ring_slice(data, pos, ENTRY_HEADER_SIZE as int));
        if !descriptor_valid(e, cap) {
            (Seq::empty(), pos)
        } else {
            let p = PacketView {
                timestamp: e.timestamp,
                direction: e.direction,
                opcode: e.opcode,
                data: ring_slice(
                    data,
                    ring_index(pos, ENTRY_HEADER_SIZE as int, cap),
                    e.data_len as int,
                ),
            };
            let next: nat = if e.total_size < remaining {
                (remaining - e.total_size) as nat
            } else {
                0
            };
            let rest = parse_entries(data, ring_index(pos, e.total_size as int, cap), next);
            (seq![p] + rest.0, rest.1)
        }
    }
}

/// What one poll of the reader returns, and the header after it.
pub open spec fn ring_after_read(h: PacketRingHeader, data: Seq<u8>) -> (
    Seq<PacketView>,
    PacketRingHeader,
) {
    let parsed = parse_entries(
        data,
        h.read_pos as int,
        used_bytes(h.write_pos as int, h.read_pos as int, h.capacity as int) as nat,
    );
    (parsed.0, PacketRingHeader { read_pos: parsed.1 as u32, ..h })
}

/// Takes every complete entry between `read_pos` and `write_pos` out of the
/// ring, in order, and publishes the new `read_pos`.  A descriptor whose
/// size fields are inconsistent ends the poll at that descriptor.
pub fn read_packets(header: &mut PacketRingHeader, data: &[u8]) -> (packets: Vec<RawPacket>)
    requires
        ring_wf(*old(header), data@),
    ensures
        packets@.map_values(|p: RawPacket| p@) == ring_after_read(*old(header), data@).0,
        *final(header) == ring_after_read(*old(header), data@).1,
        ring_wf(*final(header), data@),
{
    let ghost h0 = *header;
    let ghost target = parse_entries(
        data@,
        h0.read_pos as int,
        used_bytes(h0.write_pos as int, h0.read_pos as int, h0.capacity as int) as nat,
    );
    let mut packets: Vec<RawPacket> = Vec::new();
    let w = header.write_pos;
    let mut r = header.read_pos;
    let cap = header.capacity;
    if r == w {
        return packets;
    }
    let mut remaining: u32 = if w >= r {
        w - r
    } else {
        cap - r + w
    };
    while remaining > 0
        invariant
            ring_wf(h0, data@),
            cap == h0.capacity,
            r < cap,
            packets@.map_values(|p: RawPacket| p@) + parse_entries(
                data@,
                r as int,
                remaining as nat,
            ).0 == target.0,
            parse_entries(data@, r as int, remaining as nat).1 == target.1,
        ensures
            r < cap,
            parse_entries(data@, r as int, remaining as nat) == (Seq::<PacketView>::empty(), r as int),
            packets@.map_values(|p: RawPacket| p@) + parse_entries(
                data@,
                r as int,
                remaining as nat,
            ).0 == target.0,
            parse_entries(data@, r as int, remaining as nat).1 == target.1,
        decreases remaining,
    {
        let descriptor = ring_read(data, r as usize, ENTRY_HEADER_SIZE);
        let e = PacketEntry::from_bytes(descriptor.as_slice());
        if e.total_size < ENTRY_HEADER_SIZE as u32 || e.total_size > cap || e.data_len
            > e.total_size - ENTRY_HEADER_SIZE as u32 {
            break;
        }
        let payload_at = if r < cap - ENTRY_HEADER_SIZE as u32 {
            r + ENTRY_HEADER_SIZE as u32
        } else {
            r - (cap - ENTRY_HEADER_SIZE as u32)
        };
        let payload = ring_read(data, payload_at as usize, e.data_len as usize);
        let packet = RawPacket {
            timestamp: e.timestamp,
            direction: e.direction,
            opcode: e.opcode,
            data: payload,
        };
        let ghost before = packets@.map_values(|p: RawPacket| p@);
        let ghost parsed_here = parse_entries(data@, r as int, remaining as nat);
        packets.push(packet);
        let ghost next_r = ring_index(r as int, e.total_size as int, cap as int);
        r = if r < cap - e.total_size {
            r + e.total_size
        } else {
            r - (cap - e.total_size)
        };
        remaining = if e.total_size < remaining {
            remaining - e.total_size
        } else {
            0
        };
        proof {
            let rest = parse_entries(data@, r as int, remaining as nat);
            assert(r as int == next_r);
            assert(parsed_here.0 == seq![packet@] + rest.0);
            assert(packets@.map_values(|p: RawPacket| p@) =~= before.push(packet@));
            assert(before.push(packet@) + rest.0 =~= before + (seq![packet@] + rest.0));
        }
    }
    header.read_pos = r;
    proof {
        assert(packets@.map_values(|p: RawPacket| p@) + Seq::<PacketView>::empty() =~= packets@.map_values(
            |p: RawPacket| p@,
        ));
    }
    packets
}

/// Total space that `ps` take in the data area, one aligned entry each.
pub open spec fn entries_size(ps: Seq<PacketView>) -> int
    decreases ps.len(),
{
    if ps.len() == 0 {
        0
    } else {
        aligned_entry_size(ps[0].data.len() as int) + entries_size(ps.drop_first())
    }
}

/// `p` stands as one entry at `pos`: its descriptor, then its payload.
pub open spec fn entry_at(data: Seq<u8>, pos: int, p: PacketView) -> bool {
    let cap = data.len() as int;
    &&& descriptor_of(ring_slice(data, pos, ENTRY_HEADER_SIZE as int)) == descriptor_for(p)
    &&& ring_slice(data, ring_index(pos, ENTRY_HEADER_SIZE as int, cap), p.data.len() as int)
        == p.data
}

/// `ps` stand one after another from `pos` on.
pub open spec fn laid_out(data: Seq<u8>, pos: int, ps: Seq<PacketView>) -> bool
    decreases ps.len(),
{
    if ps.len() == 0 {
        true
    } else {
        &&& entry_at(data, pos, ps[0])
        &&& laid_out(
            data,
            ring_index(pos, aligned_entry_size(ps[0].data.len() as int), data.len() as int),
            ps.drop_first(),
        )
    }
}

/// Header and data area after the writer has handled each of `ps` in turn.
pub open spec fn ring_after_writes(h: PacketRingHeader, data: Seq<u8>, ps: Seq<PacketView>) -> (
    PacketRingHeader,
    Seq<u8>,
)
    decreases ps.len(),
{
    if ps.len() == 0 {
        (h, data)
    } else {
        let before = ring_after_writes(h, data, ps.drop_last());
        ring_after_write(before.0, before.1, ps.last())
    }
}

/// The writer took each of `ps` in turn.
pub open spec fn all_written(h: PacketRingHeader, data: Seq<u8>, ps: Seq<PacketView>) -> bool
    decreases ps.len(),
{
    if ps.len() == 0 {
        true
    } else {
        let before = ring_after_writes(h, data, ps.drop_last());
        &&& all_written(h, data, ps.drop_last())
        &&& write_fits(before.0, ps.last().data.len() as int)
    }
}

/// An aligned entry holds its descriptor and payload, wastes at most
/// three bytes, and is a multiple of 4.
proof fn lemma_aligned_size(len: int)
    requires
        len >= 0,
    ensures
        ENTRY_HEADER_SIZE + len <= aligned_entry_size(len) <= ENTRY_HEADER_SIZE + len + 3,
        aligned_entry_size(len) % 4 == 0,
{
    let x = ENTRY_HEADER_SIZE + len + 3;
    vstd::arithmetic::div_mod::lemma_fundamental_div_mod(x, 4);
    vstd::arithmetic::div_mod::lemma_mod_pos_bound(x, 4);
    vstd::arithmetic::div_mod::lemma_mod_multiples_basic(x / 4, 4);
}

/// Entries take no negative space, the first at least its own size.
proof fn lemma_entries_size_nonneg(ps: Seq<PacketView>)
    ensures
        entries_size(ps) >= 0,
        ps.len() > 0 ==> entries_size(ps) >= aligned_entry_size(ps[0].data.len() as int),
    decreases ps.len(),
{
    if ps.len() > 0 {
        lemma_aligned_size(ps[0].data.len() as int);
        lemma_entries_size_nonneg(ps.drop_first());
    }
}

/// Space taken grows by one aligned entry per message appended.
proof fn lemma_entries_size_push(ps: Seq<PacketView>, p: PacketView)
    ensures
        entries_size(ps.push(p)) == entries_size(ps) + aligned_entry_size(p.data.len() as int),
    decreases ps.len(),
{
    if ps.len() == 0 {
        assert(ps.push(p).drop_first() =~= Seq::<PacketView>::empty());
        assert(entries_size(ps.push(p).drop_first()) == 0);
        assert(ps.push(p)[0] == p);
    } else {
        assert(ps.push(p).drop_first() =~= ps.drop_first().push(p));
        assert(ps.push(p)[0] == ps[0]);
        lemma_entries_size_push(ps.drop_first(), p);
    }
}

/// Reading `entries_size(ps)` bytes from where `ps` stand gives back `ps`.
proof fn lemma_parse_laid_out(data: Seq<u8>, pos: int, ps: Seq<PacketView>)
    requires
        ENTRY_HEADER_SIZE <= data.len() <= u32::MAX,
        0 <= pos < data.len(),
        laid_out(data, pos, ps),
        entries_size(ps) < data.len(),
    ensures
        parse_entries(data, pos, entries_size(ps) as nat) == (
            ps,
            ring_index(pos, entries_size(ps), data.len() as int),
        ),
    decreases ps.len(),
{
    lemma_entries_size_nonneg(ps);
    if ps.len() > 0 {
        let cap = data.len() as int;
        let p = ps[0];
        let t = aligned_entry_size(p.data.len() as int);
        lemma_aligned_size(p.data.len() as int);
        lemma_entries_size_nonneg(ps.drop_first());
        let next = ring_index(pos, t, cap);
        lemma_parse_laid_out(data, next, ps.drop_first());
        let e = descriptor_of(ring_slice(data, pos, ENTRY_HEADER_SIZE as int));
        assert(e == descriptor_for(p));
        assert(descriptor_valid(e, cap));
        assert(seq![p] + ps.drop_first() =~= ps);
    }
}

/// Bytes outside the space that `ps` take do not matter to them.
proof fn lemma_laid_out_frame(data: Seq<u8>, other: Seq<u8>, pos: int, ps: Seq<PacketView>)
    requires
        ENTRY_HEADER_SIZE <= data.len(),
        other.len() == data.len(),
        0 <= pos < data.len(),
        laid_out(data, pos, ps),
        entries_size(ps) <= data.len(),
        forall|k: int|
            0 <= k < entries_size(ps) ==> other[ring_index(pos, k, data.len() as int)]
                == data[ring_index(pos, k, data.len() as int)],
    ensures
        laid_out(other, pos, ps),
    decreases ps.len(),
{
    lemma_entries_size_nonneg(ps);
    if ps.len() > 0 {
        let cap = data.len() as int;
        let p = ps[0];
        let t = aligned_entry_size(p.data.len() as int);
        lemma_aligned_size(p.data.len() as int);
        lemma_entries_size_nonneg(ps.drop_first());
        let rest = entries_size(ps.drop_first());
        assert(ring_slice(other, pos, ENTRY_HEADER_SIZE as int) =~= ring_slice(
            data,
            pos,
            ENTRY_HEADER_SIZE as int,
        )) by {
            assert forall|i: int| 0 <= i < ENTRY_HEADER_SIZE implies other[ring_index(pos, i, cap)]
                == data[ring_index(pos, i, cap)] by {
                assert(0 <= i < entries_size(ps));
            }
        }
        let at = ring_index(pos, ENTRY_HEADER_SIZE as int, cap);
        assert(ring_slice(other, at, p.data.len() as int) =~= ring_slice(
            data,
            at,
            p.data.len() as int,
        )) by {
            assert forall|i: int| 0 <= i < p.data.len() implies other[ring_index(at, i, cap)]
                == data[ring_index(at, i, cap)] by {
                assert(ring_index(at, i, cap) == ring_index(pos, ENTRY_HEADER_SIZE + i, cap));
                assert(0 <= ENTRY_HEADER_SIZE + i < entries_size(ps));
            }
        }
        let next = ring_index(pos, t, cap);
        assert forall|k: int| 0 <= k < rest implies other[ring_index(next, k, cap)]
            == data[ring_index(next, k, cap)] by {
            assert(ring_index(next, k, cap) == ring_index(pos, t + k, cap));
            assert(0 <= t + k < entries_size(ps));
        }
        lemma_laid_out_frame(data, other, next, ps.drop_first());
    }
}

/// One more entry right after `ps` extends the run.
proof fn lemma_laid_out_push(data: Seq<u8>, pos: int, ps: Seq<PacketView>, p: PacketView)
    requires
        0 <= pos < data.len(),
        laid_out(data, pos, ps),
        entries_size(ps) < data.len(),
        entry_at(data, ring_index(pos, entries_size(ps), data.len() as int), p),
    ensures
        laid_out(data, pos, ps.push(p)),
    decreases ps.len(),
{
    lemma_entries_size_nonneg(ps);
    let cap = data.len() as int;
    if ps.len() == 0 {
        assert(ps.push(p).drop_first() =~= Seq::<PacketView>::empty());
        assert(ps.push(p)[0] == p);
        assert(entries_size(ps) == 0);
        assert(ring_index(pos, 0, cap) == pos);
        let q = ps.push(p);
        assert(laid_out(
            data,
            ring_index(pos, aligned_entry_size(q[0].data.len() as int), cap),
            q.drop_first(),
        ));
    } else {
        let t = aligned_entry_size(ps[0].data.len() as int);
        lemma_entries_size_nonneg(ps.drop_first());
        let next = ring_index(pos, t, cap);
        assert(ring_index(next, entries_size(ps.drop_first()), cap) == ring_index(
            pos,
            entries_size(ps),
            cap,
        ));
        lemma_laid_out_push(data, next, ps.drop_first(), p);
        assert(ps.push(p).drop_first() =~= ps.drop_first().push(p));
        assert(ps.push(p)[0] == ps[0]);
    }
}

/// One write onto a ring that holds exactly `ps` from `read_pos` on, when
/// the new entry fits: the writer takes it and the ring then holds `ps`
/// followed by it.
proof fn lemma_write_extends(h: PacketRingHeader, data: Seq<u8>, ps: Seq<PacketView>, p: PacketView)
    requires
        ring_wf(h, data),
        laid_out(data, h.read_pos as int, ps),
        h.write_pos as int == ring_index(
            h.read_pos as int,
            entries_size(ps),
            h.capacity as int,
        ),
        entries_size(ps) + aligned_entry_size(p.data.len() as int) <= h.capacity - 1,
    ensures
        write_fits(h, p.data.len() as int),
        ring_wf(ring_after_write(h, data, p).0, ring_after_write(h, data, p).1),
        ring_after_write(h, data, p).0 == (PacketRingHeader {
            write_pos: ring_index(
                h.read_pos as int,
                entries_size(ps.push(p)),
                h.capacity as int,
            ) as u32,
            ..h
        }),
        laid_out(ring_after_write(h, data, p).1, h.read_pos as int, ps.push(p)),
{
    let cap = h.capacity as int;
    let r = h.read_pos as int;
    let w = h.write_pos as int;
    let total = entries_size(ps);
    let len = p.data.len() as int;
    let t = aligned_entry_size(len);
    lemma_entries_size_nonneg(ps);
    lemma_aligned_size(len);
    lemma_entries_size_push(ps, p);
    assert(used_bytes(w, r, cap) == total);
    let img = descriptor_image(descriptor_for(p));
    lemma_descriptor_round_trip(descriptor_for(p));
    let with_descriptor = ring_update(data, w, img);
    let w2 = ring_index(w, ENTRY_HEADER_SIZE as int, cap);
    let after = ring_update(with_descriptor, w2, p.data);
    assert(ring_after_write(h, data, p).1 == after);
    assert forall|k: int| 0 <= k < total implies after[ring_index(r, k, cap)] == data[ring_index(
        r,
        k,
        cap,
    )] by {
        let j = ring_index(r, k, cap);
        assert(ring_distance(w, j, cap) == k - total + cap);
        assert(ring_distance(w2, j, cap) == k - total - ENTRY_HEADER_SIZE + cap);
    }
    lemma_laid_out_frame(data, after, r, ps);
    lemma_ring_read_after_write(data, w, img);
    lemma_ring_read_after_write(with_descriptor, w2, p.data);
    assert(ring_slice(after, w, ENTRY_HEADER_SIZE as int) =~= ring_slice(
        with_descriptor,
        w,
        ENTRY_HEADER_SIZE as int,
    )) by {
        assert forall|i: int| 0 <= i < ENTRY_HEADER_SIZE implies after[ring_index(w, i, cap)]
            == with_descriptor[ring_index(w, i, cap)] by {
            assert(ring_distance(w2, ring_index(w, i, cap), cap) == i - ENTRY_HEADER_SIZE + cap);
        }
    }
    assert(entry_at(after, w, p));
    lemma_laid_out_push(after, r, ps, p);
}

/// From an empty ring, writes that fit together are all taken and leave
/// the messages laid out from `read_pos` on.
proof fn lemma_writes_laid_out(h: PacketRingHeader, data: Seq<u8>, ps: Seq<PacketView>)
    requires
        ring_wf(h, data),
        h.write_pos == h.read_pos,
        entries_size(ps) <= h.capacity - 1,
    ensures
        all_written(h, data, ps),
        ring_wf(ring_after_writes(h, data, ps).0, ring_after_writes(h, data, ps).1),
        ring_after_writes(h, data, ps).0 == (PacketRingHeader {
            write_pos: ring_index(
                h.read_pos as int,
                entries_size(ps),
                h.capacity as int,
            ) as u32,
            ..h
        }),
        laid_out(ring_after_writes(h, data, ps).1, h.read_pos as int, ps),
    decreases ps.len(),
{
    if ps.len() > 0 {
        let init = ps.drop_last();
        let p = ps.last();
        assert(init.push(p) =~= ps);
        lemma_entries_size_push(init, p);
        lemma_aligned_size(p.data.len() as int);
        lemma_entries_size_nonneg(init);
        lemma_writes_laid_out(h, data, init);
        let before = ring_after_writes(h, data, init);
        lemma_write_extends(before.0, before.1, init, p);
    }
}

/// The timestamps of `ps` never decrease.
pub open spec fn timestamps_ordered(ps: Seq<PacketView>) -> bool {
    forall|i: int, j: int| 0 <= i <= j < ps.len() ==> ps[i].timestamp <= ps[j].timestamp
}

/// Round trip through the ring: starting from an empty ring, writing any
/// sequence of messages whose aligned sizes add up to at most
/// `capacity - 1` accepts every one of them, and one poll of the reader then
/// returns exactly those messages, in order, with the same timestamps,
/// directions, opcodes and payloads, after which `read_pos == write_pos`;
/// timestamps written in non-decreasing order are read in that order.
pub proof fn lemma_ring_round_trip(h: PacketRingHeader, data: Seq<u8>, ps: Seq<PacketView>)
    requires
        ring_wf(h, data),
        h.write_pos == h.read_pos,
        entries_size(ps) <= h.capacity - 1,
    ensures
        all_written(h, data, ps),
        ring_after_read(ring_after_writes(h, data, ps).0, ring_after_writes(h, data, ps).1).0
            == ps,
        ring_after_read(
            ring_after_writes(h, data, ps).0,
            ring_after_writes(h, data, ps).1,
        ).1.read_pos == ring_after_writes(h, data, ps).0.write_pos,
        timestamps_ordered(ps) ==> timestamps_ordered(
            ring_after_read(ring_after_writes(h, data, ps).0, ring_after_writes(h, data, ps).1).0,
        ),
{
    lemma_writes_laid_out(h, data, ps);
    lemma_entries_size_nonneg(ps);
    let after = ring_after_writes(h, data, ps);
    let cap = h.capacity as int;
    let r = h.read_pos as int;
    assert(used_bytes(after.0.write_pos as int, r, cap) == entries_size(ps));
    lemma_parse_laid_out(after.1, r, ps);
}

/// Size of the whole shared region: header and data area.
pub const TOTAL_SIZE: usize = 24 + 4 * 1024 * 1024;

/// Why a mapped region cannot be used as a ring.
#[derive(Clone, Copy, Debug, PartialEq, Eq, Structural)]
pub enum RingError {
    /// Offset 0 does not hold `RING_MAGIC`; the value found is kept.
    BadMagic(u32),
    /// The capacity does not match the data area, or a cursor lies outside it.
    BadGeometry,
}

/// Name of the mapping that the agent in process `pid` creates.
pub open spec fn spec_ring_name(pid: u32) -> Seq<char> {
    "Local\\WowCapture_"@ + decimal(pid as nat)
}

/// `Local\WowCapture_<pid>`: the session-local name of the mapping, so that
/// creating it needs no elevated privilege.
pub fn ring_name(pid: u32) -> (name: String)
    ensures
        name@ == spec_ring_name(pid),
{
    text_with_number("Local\\WowCapture_", pid)
}

impl PacketRingHeader {
    /// The header the agent writes into a freshly zeroed region.
    pub fn new(build_number: u32) -> (h: PacketRingHeader)
        ensures
            h == (PacketRingHeader {
                magic: RING_MAGIC,
                write_pos: 0,
                read_pos: 0,
                capacity: RING_CAPACITY,
                dll_ready: 0,
                build_number,
            }),
    {
        PacketRingHeader {
            magic: RING_MAGIC,
            write_pos: 0,
            read_pos: 0,
            capacity: RING_CAPACITY,
            dll_ready: 0,
            build_number,
        }
    }

    /// Checks a header read from a mapped region whose data area is
    /// `data_len` bytes: the sentinel first, then the geometry.
    pub fn check(&self, data_len: usize) -> (r: Result<(), RingError>)
        ensures
            self.magic != RING_MAGIC ==> r == Err::<(), RingError>(RingError::BadMagic(self.magic)),
            self.magic == RING_MAGIC ==> (r is Ok <==> self.capacity as int == data_len
                && ENTRY_HEADER_SIZE <= self.capacity && self.write_pos < self.capacity
                && self.read_pos < self.capacity),
            self.magic == RING_MAGIC && r is Err ==> r == Err::<(), RingError>(
                RingError::BadGeometry,
            ),
    {
        if self.magic != RING_MAGIC {
            return Err(RingError::BadMagic(self.magic));
        }
        if self.capacity as usize != data_len || self.capacity < ENTRY_HEADER_SIZE as u32
            || self.write_pos >= self.capacity || self.read_pos >= self.capacity {
            return Err(RingError::BadGeometry);
        }
        Ok(())
    }
}

/// The agent has announced that its diversions are installed.
pub fn is_ready(header: &PacketRingHeader) -> (r: bool)
    ensures
        r == (header.dll_ready == 1),
{
    header.dll_ready == 1
}

/// Announces readiness; every other field is left as it is.
pub fn set_dll_ready(header: &mut PacketRingHeader)
    ensures
        *final(header) == (PacketRingHeader { dll_ready: 1, ..*old(header) }),
{
    header.dll_ready = 1;
}

/// Withdraws readiness, as on detach; every other field is left as it is.
pub fn clear_dll_ready(header: &mut PacketRingHeader)
    ensures
        *final(header) == (PacketRingHeader { dll_ready: 0, ..*old(header) }),
{
    header.dll_ready = 0;
}

/// The writer's free-space formula keeps one byte in reserve: free and used
/// bytes add up to `capacity - 1` for any cursors inside the ring, so a
/// write that fits never brings `write_pos` onto `read_pos`.
pub proof fn lemma_free_space_headroom(write_pos: int, read_pos: int, cap: int)
    requires
        0 <= write_pos < cap,
        0 <= read_pos < cap,
    ensures
        free_bytes(write_pos, read_pos, cap) + used_bytes(write_pos, read_pos, cap) == cap - 1,
        0 <= free_bytes(write_pos, read_pos, cap) <= cap - 1,
        forall|size: int|
            0 < size <= free_bytes(write_pos, read_pos, cap) ==> ring_index(write_pos, size, cap)
                != read_pos,
{
}

} // verus!
