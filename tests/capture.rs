use wow_capture::capture::{
    buffer_is_plausible, message_is_plausible, relay_message, split_inbound, split_outbound,
    DIRECTION_INBOUND, DIRECTION_OUTBOUND,
};
use wow_capture::ring::{read_packets, set_dll_ready, PacketRingHeader, RING_MAGIC};

#[test]
fn gates() {
    assert!(!buffer_is_plausible(0x10000));
    assert!(buffer_is_plausible(0x10001));
    assert!(message_is_plausible(0x20000, 4, 4));
    assert!(!message_is_plausible(0, 4, 4));
    assert!(!message_is_plausible(0x10000, 4, 4));
    assert!(!message_is_plausible(0x20000, 3, 4));
    assert!(message_is_plausible(0x20000, 2, 2));
    assert!(!message_is_plausible(0x20000, 0x10_0000, 2));
    assert!(message_is_plausible(0x20000, 0xF_FFFF, 2));
}

#[test]
fn opcode_extraction() {
    let (op, payload) = split_outbound(&[0xDC, 0x01, 0x00, 0x00, 0x12, 0x34]);
    assert_eq!(op, 0x1DC);
    assert_eq!(payload, &[0x12, 0x34]);
    let (op, payload) = split_inbound(&[0xDD, 0x01, 0xAA]);
    assert_eq!(op, 0x1DD);
    assert_eq!(payload, &[0xAA]);
    let (op, payload) = split_inbound(&[0x34, 0x12]);
    assert_eq!(op, 0x1234);
    assert!(payload.is_empty());
}

#[test]
fn nothing_written_before_ready() {
    let mut h = PacketRingHeader { magic: RING_MAGIC, write_pos: 0, read_pos: 0, capacity: 128, dll_ready: 0, build_number: 5875 };
    let mut data = vec![0u8; 128];
    assert!(!relay_message(&mut h, &mut data, DIRECTION_OUTBOUND, &[1, 0, 0, 0, 9], 5));
    assert_eq!(h.write_pos, 0);
    assert!(data.iter().all(|b| *b == 0));
    set_dll_ready(&mut h);
    assert!(relay_message(&mut h, &mut data, DIRECTION_OUTBOUND, &[1, 0, 0, 0, 9], 5));
    assert!(relay_message(&mut h, &mut data, DIRECTION_INBOUND, &[2, 0, 7, 7], 6));
    assert!(!relay_message(&mut h, &mut data, DIRECTION_INBOUND, &[2], 7));
    let packets = read_packets(&mut h, &data);
    assert_eq!(packets.len(), 2);
    assert_eq!((packets[0].direction, packets[0].opcode, packets[0].data.clone()), (1, 1, vec![9]));
    assert_eq!((packets[1].direction, packets[1].opcode, packets[1].data.clone()), (0, 2, vec![7, 7]));
}
