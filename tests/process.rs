use wow_capture::command::{command_reply, is_own_game_window, CommandReply, CAPTURE_WPARAM};
use wow_capture::process::{add_process, is_game_window, lowered_title_matches, text_starts_with, WowProcess};

#[test]
fn game_windows() {
    assert!(is_game_window("World of Warcraft", ""));
    assert!(is_game_window("WORLD OF WARCRAFT - realm", "Other"));
    assert!(is_game_window("Launcher", "GxWindowClassD3d"));
    assert!(!is_game_window("Notepad", "Edit"));
    assert!(!is_game_window("World of", "gxwindow"));
    assert!(lowered_title_matches("world of warcraft"));
    assert!(!lowered_title_matches("World of Warcraft"));
    assert!(text_starts_with("abc", ""));
    assert!(!text_starts_with("ab", "abc"));
}

#[test]
fn process_records() {
    let p = WowProcess::identified(10, 5, "C:\\WoW\\WoW.exe".to_string(), Some(0x16F3_16F3));
    assert_eq!(p.build, 5875);
    assert_eq!(p.version_name, "1.12.1 (Vanilla)");
    let q = WowProcess::identified(11, 5, String::new(), Some(0x16F3_16F3));
    assert_eq!(q.build, 0);
    assert_eq!(q.version_name, "Unknown");
    let r = WowProcess::identified(12, 5, "x".to_string(), None);
    assert_eq!(r.build, 0);
    let d = WowProcess::access_denied(13, 6);
    assert_eq!(d.version_name, "Unknown (access denied)");
    assert!(d.exe_path.is_empty());
}

#[test]
fn one_record_per_process() {
    let mut list = Vec::new();
    add_process(&mut list, WowProcess::access_denied(1, 1));
    add_process(&mut list, WowProcess::access_denied(2, 2));
    add_process(&mut list, WowProcess::access_denied(1, 3));
    assert_eq!(list.len(), 2);
    assert_eq!(list[0].hwnd, 1);
}

#[test]
fn command_replies() {
    assert_eq!(command_reply(0x401, CAPTURE_WPARAM, false), CommandReply::Reply(1));
    assert_eq!(command_reply(0x402, CAPTURE_WPARAM, true), CommandReply::Reply(1));
    assert_eq!(command_reply(0x402, CAPTURE_WPARAM, false), CommandReply::Reply(0));
    assert_eq!(command_reply(0x403, CAPTURE_WPARAM, true), CommandReply::Reply(3));
    assert_eq!(command_reply(0x403, CAPTURE_WPARAM, false), CommandReply::Reply(2));
    assert_eq!(command_reply(0x408, CAPTURE_WPARAM, true), CommandReply::Reply(0));
    assert_eq!(command_reply(0x409, CAPTURE_WPARAM, true), CommandReply::Forward);
    assert_eq!(command_reply(0x400, CAPTURE_WPARAM, true), CommandReply::Forward);
    assert_eq!(command_reply(0x401, 7, true), CommandReply::Forward);
    assert!(is_own_game_window(5, 5, "GxWindowClass"));
    assert!(!is_own_game_window(5, 6, "GxWindowClass"));
    assert!(!is_own_game_window(5, 5, "Edit"));
}
