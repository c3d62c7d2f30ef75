use wow_capture::ring::{
    is_ready, read_packets, ring_name, ring_read, ring_write, set_dll_ready, write_packet,
    PacketEntry, PacketRingHeader, RingError, ENTRY_HEADER_SIZE, RING_CAPACITY, RING_MAGIC,
};

fn header(capacity: u32, write_pos: u32, read_pos: u32) -> PacketRingHeader {
    PacketRingHeader {
        magic: RING_MAGIC,
        write_pos,
        read_pos,
        capacity,
        dll_ready: 1,
        build_number: 5875,
    }
}

#[test]
fn ring_single_packet() {
    let mut h = PacketRingHeader::new(5875);
    let mut data = vec![0u8; RING_CAPACITY as usize];
    assert!(write_packet(&mut h, &mut data, 1, 0x1DC, &[0x12, 0x34, 0x56], 1000));
    let packets = read_packets(&mut h, &data);
    assert_eq!(packets.len(), 1);
    assert_eq!(packets[0].direction, 1);
    assert_eq!(packets[0].opcode, 0x1DC);
    assert_eq!(packets[0].timestamp, 1000);
    assert_eq!(packets[0].data, vec![0x12, 0x34, 0x56]);
    assert_eq!(h.read_pos, h.write_pos);
}

#[test]
fn ring_wrap() {
    let mut h = header(64, 60, 60);
    let mut data = vec![0u8; 64];
    let payload = [1u8, 2, 3, 4, 5, 6, 7, 8];
    assert!(write_packet(&mut h, &mut data, 0, 0x42, &payload, 7));
    assert_eq!(h.write_pos, 24);
    let packets = read_packets(&mut h, &data);
    assert_eq!(packets.len(), 1);
    assert_eq!(packets[0].data, payload.to_vec());
    assert_eq!(packets[0].opcode, 0x42);
    assert_eq!(packets[0].direction, 0);
    assert_eq!(h.read_pos, 24);
}

#[test]
fn ring_drop() {
    let mut h = header(32, 0, 0);
    let mut data = vec![0u8; 32];
    assert!(write_packet(&mut h, &mut data, 1, 1, &[9, 9, 9, 9], 1));
    assert_eq!(h.write_pos, 24);
    let before_h = h;
    let before_data = data.clone();
    assert!(!write_packet(&mut h, &mut data, 1, 2, &[0u8; 16], 2));
    assert_eq!(h, before_h);
    assert_eq!(data, before_data);
}

#[test]
fn ring_drop_when_free_space_short() {
    let mut h = header(64, 0, 0);
    let mut data = vec![0u8; 64];
    assert!(write_packet(&mut h, &mut data, 1, 1, &[0u8; 20], 1));
    assert_eq!(h.write_pos, 40);
    let before_h = h;
    let before_data = data.clone();
    // 20 + 8 = 28 bytes, but only 64 - 40 - 1 = 23 are free.
    assert!(!write_packet(&mut h, &mut data, 0, 2, &[0u8; 8], 2));
    assert_eq!(h, before_h);
    assert_eq!(data, before_data);
    let packets = read_packets(&mut h, &data);
    assert_eq!(packets.len(), 1);
    assert_eq!(packets[0].opcode, 1);
}

#[test]
fn ring_round_trip_many() {
    let mut h = header(256, 100, 100);
    let mut data = vec![0u8; 256];
    let payloads: Vec<Vec<u8>> = vec![vec![], vec![1], vec![2, 3], vec![4, 5, 6], vec![7; 13]];
    let mut total = 0u32;
    for (i, p) in payloads.iter().enumerate() {
        total += (20 + p.len() as u32 + 3) / 4 * 4;
        assert!(write_packet(&mut h, &mut data, (i % 2) as u8, 0x100 + i as u32, p, 10 + i as u32));
    }
    assert!(total <= 255);
    let packets = read_packets(&mut h, &data);
    assert_eq!(packets.len(), payloads.len());
    for (i, p) in packets.iter().enumerate() {
        assert_eq!(p.data, payloads[i]);
        assert_eq!(p.opcode, 0x100 + i as u32);
        assert_eq!(p.direction, (i % 2) as u8);
        assert_eq!(p.timestamp, 10 + i as u32);
        if i > 0 {
            assert!(packets[i - 1].timestamp <= p.timestamp);
        }
    }
    assert_eq!(h.read_pos, h.write_pos);
}

#[test]
fn ring_full_keeps_one_byte() {
    // Capacity 48: one 44-byte entry leaves 3 free bytes, never 0.
    let mut h = header(48, 0, 0);
    let mut data = vec![0u8; 48];
    assert!(write_packet(&mut h, &mut data, 1, 5, &[0u8; 24], 1));
    assert_eq!(h.write_pos, 44);
    assert_ne!(h.write_pos, h.read_pos);
    // An entry that would fill the ring exactly is refused.
    let mut h2 = header(44, 0, 0);
    let mut data2 = vec![0u8; 44];
    assert!(!write_packet(&mut h2, &mut data2, 1, 5, &[0u8; 24], 1));
    assert_eq!(h2.write_pos, 0);
}

#[test]
fn ring_write_pos_stays_aligned() {
    let mut h = header(64, 0, 0);
    let mut data = vec![0u8; 64];
    for len in [1usize, 2, 3, 5] {
        let mut r = h;
        let _ = read_packets(&mut r, &data);
        h.read_pos = r.read_pos;
        assert!(write_packet(&mut h, &mut data, 1, 1, &vec![0u8; len], 1));
        assert_eq!(h.write_pos % 4, 0);
    }
}

#[test]
fn ring_oversized_entry_dropped() {
    let mut h = header(32, 0, 0);
    let mut data = vec![0u8; 32];
    assert!(!write_packet(&mut h, &mut data, 1, 1, &[0u8; 13], 1));
    assert_eq!(h.write_pos, 0);
}

#[test]
fn ring_empty_read() {
    let mut h = header(64, 12, 12);
    let data = vec![0u8; 64];
    assert!(read_packets(&mut h, &data).is_empty());
    assert_eq!(h.read_pos, 12);
}

#[test]
fn ring_corrupt_descriptor_stops_poll() {
    let mut h = header(64, 0, 0);
    let mut data = vec![0u8; 64];
    assert!(write_packet(&mut h, &mut data, 1, 7, &[1, 2, 3, 4], 1));
    assert!(write_packet(&mut h, &mut data, 1, 8, &[5, 6, 7, 8], 2));
    // Corrupt the second descriptor's total size.
    data[24] = 3;
    data[25] = 0;
    data[26] = 0;
    data[27] = 0;
    let packets = read_packets(&mut h, &data);
    assert_eq!(packets.len(), 1);
    assert_eq!(packets[0].opcode, 7);
    assert_eq!(h.read_pos, 24);
}

#[test]
fn ring_write_read_wrapping_inverse() {
    let mut data: Vec<u8> = (0..16u8).collect();
    let src = [0xA0u8, 0xA1, 0xA2, 0xA3, 0xA4, 0xA5];
    ring_write(&mut data, 13, &src);
    assert_eq!(&data[13..16], &[0xA0, 0xA1, 0xA2]);
    assert_eq!(&data[0..3], &[0xA3, 0xA4, 0xA5]);
    assert_eq!(&data[3..13], &(3..13u8).collect::<Vec<u8>>()[..]);
    assert_eq!(ring_read(&data, 13, 6), src.to_vec());
    let original = data.clone();
    let read = ring_read(&data, 10, 9);
    ring_write(&mut data, 10, &read);
    assert_eq!(data, original);
}

#[test]
fn descriptor_wire_layout() {
    let e = PacketEntry { total_size: 24, timestamp: 0x01020304, direction: 1, opcode: 0x1DC, data_len: 3 };
    let b = e.to_bytes();
    assert_eq!(b.len(), ENTRY_HEADER_SIZE);
    assert_eq!(b, vec![24, 0, 0, 0, 4, 3, 2, 1, 1, 0, 0, 0, 0xDC, 1, 0, 0, 3, 0, 0, 0]);
    assert_eq!(PacketEntry::from_bytes(&b), e);
}

#[test]
fn header_checks_and_readiness() {
    let mut h = PacketRingHeader::new(12340);
    assert_eq!(h.magic, RING_MAGIC);
    assert_eq!(h.capacity, RING_CAPACITY);
    assert_eq!(h.build_number, 12340);
    assert!(!is_ready(&h));
    set_dll_ready(&mut h);
    assert!(is_ready(&h));
    assert_eq!(h.check(RING_CAPACITY as usize), Ok(()));
    assert_eq!(h.check(64), Err(RingError::BadGeometry));
    let bad = PacketRingHeader { magic: 0x1234, ..h };
    assert_eq!(bad.check(RING_CAPACITY as usize), Err(RingError::BadMagic(0x1234)));
}

#[test]
fn ring_name_has_pid() {
    assert_eq!(ring_name(4242), "Local\\WowCapture_4242");
    assert_eq!(ring_name(0), "Local\\WowCapture_0");
}
