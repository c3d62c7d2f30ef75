use wow_capture::pe::{find_export, module_name_matches, ExportError};

fn put32(img: &mut [u8], at: usize, v: u32) {
    img[at..at + 4].copy_from_slice(&v.to_le_bytes());
}

fn put16(img: &mut [u8], at: usize, v: u16) {
    img[at..at + 2].copy_from_slice(&v.to_le_bytes());
}

fn sample_image() -> Vec<u8> {
    let mut img = vec![0u8; 0x400];
    put32(&mut img, 0x3C, 0x80);
    put32(&mut img, 0x80 + 0x78, 0x200);
    put32(&mut img, 0x200 + 0x18, 2);
    put32(&mut img, 0x200 + 0x1C, 0x260);
    put32(&mut img, 0x200 + 0x20, 0x280);
    put32(&mut img, 0x200 + 0x24, 0x2A0);
    put32(&mut img, 0x280, 0x300);
    put32(&mut img, 0x284, 0x320);
    put16(&mut img, 0x2A0, 1);
    put16(&mut img, 0x2A2, 0);
    put32(&mut img, 0x260, 0x1234);
    put32(&mut img, 0x264, 0x5678);
    img[0x300..0x30C].copy_from_slice(b"FreeLibrary\0");
    img[0x320..0x32D].copy_from_slice(b"LoadLibraryW\0");
    img
}

#[test]
fn export_resolution_adds_rva_to_base() {
    let img = sample_image();
    assert_eq!(find_export(&img, 0x7700_0000, b"LoadLibraryW"), Ok(0x7700_1234));
    assert_eq!(find_export(&img, 0x7700_0000, b"FreeLibrary"), Ok(0x7700_5678));
}

#[test]
fn export_prefix_does_not_match() {
    let img = sample_image();
    assert_eq!(find_export(&img, 0, b"LoadLibrary"), Err(ExportError::NotFound));
    assert_eq!(find_export(&img, 0, b"LoadLibraryWX"), Err(ExportError::NotFound));
}

#[test]
fn export_errors() {
    let mut img = sample_image();
    put32(&mut img, 0x80 + 0x78, 0);
    assert_eq!(find_export(&img, 0, b"LoadLibraryW"), Err(ExportError::NoExportDirectory));
    let mut img = sample_image();
    put32(&mut img, 0x3C, 0x3F0);
    assert_eq!(find_export(&img, 0, b"LoadLibraryW"), Err(ExportError::OutOfImage));
    assert_eq!(find_export(&[0u8; 8], 0, b"LoadLibraryW"), Err(ExportError::OutOfImage));
}

#[test]
fn module_names_ignore_ascii_case() {
    let mut name = [0u16; 16];
    for (i, c) in "KERNEL32.DLL".encode_utf16().enumerate() {
        name[i] = c;
    }
    assert!(module_name_matches(&name, b"kernel32.dll"));
    assert!(!module_name_matches(&name, b"kernel32.dl"));
    assert!(!module_name_matches(&name, b"kernelbase.dll"));
    let exact: Vec<u16> = "ntdll.dll".encode_utf16().collect();
    assert!(module_name_matches(&exact, b"NTDLL.DLL"));
}
