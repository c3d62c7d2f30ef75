use wow_capture::version::{build_from_version_ls, build_to_version_name, detect_build, offsets_for_build};

#[test]
fn build_detection() {
    let (build, o) = detect_build(0x16F3_0000 | 5875, 0x400000).unwrap();
    assert_eq!(build, 5875);
    assert_eq!(o.send_hook_size, 6);
    assert_eq!(o.recv_hook_size, 9);
    assert_eq!(o.send_packet, 0x400000 + 0x001B5630);
    assert_eq!(o.recv_handler, 0x400000 + 0x00137AA0);
    assert_eq!(o.opcode_names, 0);
}

#[test]
fn build_table_entries() {
    for b in [8606u32, 12340, 15595] {
        let o = offsets_for_build(b, 0x10000).unwrap();
        assert_eq!(o.send_hook_size, 6);
        assert_eq!(o.recv_hook_size, 6);
    }
    let w = offsets_for_build(12340, 0x10000).unwrap();
    assert_eq!(w.opcode_names, 0x10000 + 0x005E0E24);
    assert_eq!(w.num_opcodes, 0x4FF);
    assert!(offsets_for_build(0, 0).is_none());
    assert!(offsets_for_build(5876, 0).is_none());
    assert!(detect_build(0x0001_0000, 0).is_none());
}

#[test]
fn build_number_is_low_word() {
    assert_eq!(build_from_version_ls(0xABCD_1234), 0x1234);
}

#[test]
fn version_names() {
    assert_eq!(build_to_version_name(5875), "1.12.1 (Vanilla)");
    assert_eq!(build_to_version_name(8606), "2.4.3 (TBC)");
    assert_eq!(build_to_version_name(12340), "3.3.5a (WotLK)");
    assert_eq!(build_to_version_name(15595), "4.3.4 (Cataclysm)");
    assert_eq!(build_to_version_name(0), "Unknown");
    assert_eq!(build_to_version_name(1234), "Unknown (build 1234)");
}
