use wow_capture::hooks::{
    create_trampoline, encode_jump, hooks_active, install_hooks, uninstall_hooks, HookError,
    HookPair, HookSlot,
};

const PAGE: [u8; 16] = [
    0xAA, 0xBB, 0xCC, 0xDD, 0xEE, 0xFF, 0x11, 0x22, 0x33, 0x44, 0x55, 0x66, 0x77, 0x88, 0x99, 0x00,
];

#[test]
fn install_uninstall_round_trip() {
    let mut page = PAGE;
    let mut slot = HookSlot::new(0x0040_1000, 8);
    let tramp = slot.install(&mut page[..8], 0x0090_0000, 0x0050_0000).unwrap();
    assert_eq!(page[0], 0xE9);
    assert_eq!(&page[5..8], &[0x90, 0x90, 0x90]);
    assert_eq!(&page[8..], &PAGE[8..]);
    assert_eq!(&tramp[..8], &PAGE[..8]);
    slot.uninstall(&mut page[..8]);
    assert_eq!(page, PAGE);
    // A second uninstall changes nothing.
    slot.uninstall(&mut page[..8]);
    assert_eq!(page, PAGE);
}

#[test]
fn install_twice_is_noop() {
    let mut page = PAGE;
    let mut slot = HookSlot::new(0x0040_1000, 6);
    assert!(slot.install(&mut page[..6], 0x0090_0000, 0x0050_0000).is_some());
    let patched = page;
    assert!(slot.install(&mut page[..6], 0x0091_0000, 0x0051_0000).is_none());
    assert_eq!(page, patched);
    assert_eq!(slot.saved, PAGE[..6].to_vec());
}

#[test]
fn jump_displacement_bytes() {
    // From 0x401000 to 0x500000: rel = 0x500000 - 0x401005 = 0xFEFFB.
    assert_eq!(encode_jump(0x0040_1000, 0x0050_0000), vec![0xE9, 0xFB, 0xEF, 0x0F, 0x00]);
    // Backwards: from 0x500000 to 0x401000: rel = -0xFF005.
    assert_eq!(encode_jump(0x0050_0000, 0x0040_1000), vec![0xE9, 0xFB, 0x0F, 0xF0, 0xFF]);
}

#[test]
fn trampoline_jumps_past_site() {
    // push ebp; mov ebp, esp; sub esp, 0x14 (six bytes)
    let prologue = [0x55u8, 0x8B, 0xEC, 0x83, 0xEC, 0x14];
    let target: u32 = 0x005B_5630;
    let tramp_at: u32 = 0x0100_0000;
    let t = create_trampoline(&prologue, target, tramp_at);
    assert_eq!(&t[..6], &prologue);
    assert_eq!(t[6], 0xE9);
    let rel = u32::from_le_bytes([t[7], t[8], t[9], t[10]]);
    let lands = tramp_at.wrapping_add(6).wrapping_add(5).wrapping_add(rel);
    assert_eq!(lands, target + 6);
    assert_eq!(t.len(), 11);
}

#[test]
fn pair_install_and_rollback() {
    let mut send = PAGE;
    let mut recv = PAGE;
    let mut pair = HookPair::new(0x0040_0000, 6, 0x0041_0000, 9);
    assert!(!hooks_active(&pair));
    let r = install_hooks(&mut pair, &mut send[..6], Some(0x0100_0000), 0x0200_0000, &mut recv[..9], None, 0x0200_1000);
    assert!(matches!(r, Err(HookError::RecvSite)));
    assert_eq!(send, PAGE);
    assert_eq!(recv, PAGE);
    assert!(!hooks_active(&pair));

    let r = install_hooks(&mut pair, &mut send[..6], None, 0x0200_0000, &mut recv[..9], Some(1), 0x0200_1000);
    assert!(matches!(r, Err(HookError::SendSite)));
    assert_eq!(send, PAGE);

    let r = install_hooks(&mut pair, &mut send[..6], Some(0x0100_0000), 0x0200_0000, &mut recv[..9], Some(0x0100_1000), 0x0200_1000);
    let (st, rt) = r.unwrap().unwrap();
    assert_eq!(st.len(), 11);
    assert_eq!(rt.len(), 14);
    assert!(hooks_active(&pair));
    assert_eq!(send[0], 0xE9);
    assert_eq!(recv[0], 0xE9);
    assert_eq!(&recv[5..9], &[0x90; 4]);

    let again = install_hooks(&mut pair, &mut send[..6], Some(5), 6, &mut recv[..9], Some(7), 8);
    assert!(matches!(again, Ok(None)));

    uninstall_hooks(&mut pair, &mut send[..6], &mut recv[..9]);
    assert!(!hooks_active(&pair));
    assert_eq!(send, PAGE);
    assert_eq!(recv, PAGE);
    uninstall_hooks(&mut pair, &mut send[..6], &mut recv[..9]);
    assert_eq!(send, PAGE);
}
