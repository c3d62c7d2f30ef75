use wow_capture::opcodes::get_opcode_name;
use wow_capture::ring::RawPacket;
use wow_capture::state::{
    AppState, Direction, Packet, PacketSummary, SavedSessionMeta, Session, SessionFile, SessionInfo,
};

fn raw(opcode: u32, data: Vec<u8>) -> RawPacket {
    RawPacket { timestamp: 1, direction: 1, opcode, data }
}

#[test]
fn direction_from_byte() {
    assert_eq!(Direction::from(0u8), Direction::ServerToClient);
    assert_eq!(Direction::from(1u8), Direction::ClientToServer);
    assert_eq!(Direction::from(7u8), Direction::ClientToServer);
}

#[test]
fn new_state_has_untitled_session() {
    let st = AppState::new();
    assert_eq!(st.sessions.len(), 1);
    assert_eq!(st.sessions[0].name, "Untitled");
    assert_eq!(st.sessions[0].id.len(), 36);
    assert_eq!(st.active_session_id.as_deref(), Some(st.sessions[0].id.as_str()));
    assert!(!st.capturing);
    assert!(st.attached.is_none());
}

#[test]
fn recording_and_queries() {
    let mut st = AppState::new();
    st.update_attached_state(77, 5875, "1.12.1 (Vanilla)".to_string());
    assert!(st.capturing);
    assert_eq!(st.sessions[0].build, Some(5875));
    assert_eq!(st.record_packet(raw(0x1DC, vec![1, 2, 3]), "CMSG_PING".to_string()), Some(0));
    assert_eq!(st.record_packet(raw(0x1DD, vec![]), "SMSG_PONG".to_string()), Some(1));
    assert_eq!(st.packet_count(), 2);
    let id = st.sessions[0].id.clone();
    let summaries = st.packet_summaries(&id);
    assert_eq!(summaries.len(), 2);
    assert_eq!(summaries[0].size, 3);
    assert_eq!(summaries[1].opcode_name, "SMSG_PONG");
    let page = st.packets_page(&id, 1, 10);
    assert_eq!(page.len(), 1);
    assert_eq!(page[0].opcode, 0x1DD);
    assert_eq!(st.packets_page(&id, 5, 10).len(), 0);
    assert_eq!(st.packets_page(&id, 0, 1).len(), 1);
    assert_eq!(st.packet_detail(&id, 0).unwrap().data, vec![1, 2, 3]);
    assert!(st.packet_detail(&id, 9).is_none());
    st.clear_packets(id.clone());
    assert_eq!(st.packet_count(), 0);
    assert_eq!(st.record_packet(raw(1, vec![]), "X".to_string()), Some(0));
    st.detach();
    assert!(!st.capturing);
    assert!(st.attached.is_none());
}

#[test]
fn session_management() {
    let mut st = AppState::new();
    let first = st.sessions[0].id.clone();
    assert_eq!(st.close_session(first.clone()), Err("Cannot close the last session".to_string()));
    st.insert_session(Session::with_identity("s2".to_string(), "Second".to_string(), "t".to_string()));
    assert_eq!(st.session_infos().len(), 2);
    assert_eq!(st.switch_session("nope".to_string()), Err("Session nope not found".to_string()));
    assert_eq!(st.switch_session("s2".to_string()), Ok(()));
    assert_eq!(st.active_session_id.as_deref(), Some("s2"));
    assert_eq!(st.rename_session("s2".to_string(), "Renamed".to_string()), Ok(()));
    assert!(st.rename_session("zz".to_string(), "x".to_string()).is_err());
    let infos = st.session_infos();
    assert_eq!(infos[1].name, "Renamed");
    assert_eq!(st.close_session("s2".to_string()), Ok(()));
    assert_eq!(st.sessions.len(), 1);
    assert_eq!(st.active_session_id.as_deref(), Some(first.as_str()));
}

#[test]
fn restored_session_continues_ids() {
    let p = |id: usize| Packet {
        id,
        timestamp: 0,
        direction: Direction::ServerToClient,
        opcode: 0,
        opcode_name: String::new(),
        size: 0,
        data: vec![],
    };
    let s = Session::restored("a".into(), "b".into(), "c".into(), Some(8606), vec![p(4), p(9), p(2)]);
    assert_eq!(s.next_packet_id, 10);
    let e = Session::restored("a".into(), "b".into(), "c".into(), None, vec![]);
    assert_eq!(e.next_packet_id, 0);
}

#[test]
fn opcode_names() {
    assert_eq!(get_opcode_name(5875, 0x1DC), "CMSG_PING");
    assert_eq!(get_opcode_name(5875, 0x2E7), "CMSG_WARDEN_DATA");
    assert_eq!(get_opcode_name(12340, 0x1EE), "CMSG_AUTH_SESSION");
    assert_eq!(get_opcode_name(15595, 0x6362), "SMSG_CHAR_ENUM");
    assert_eq!(get_opcode_name(8606, 0x0037), "CMSG_CHAR_ENUM");
    assert_eq!(get_opcode_name(5875, 0xFFFF), "UNKNOWN");
    assert_eq!(get_opcode_name(1, 0x1DC), "UNKNOWN");
}

#[test]
fn session_file_round_trip() {
    let mut st = AppState::new();
    assert_eq!(st.record_packet(raw(0x1DC, vec![1, 2]), "CMSG_PING".to_string()), Some(0));
    let f = SessionFile::of(&st.sessions[0], "2024-01-01T00:00:00+00:00".to_string());
    assert_eq!(f.version, 1);
    assert_eq!(f.packets.len(), 1);
    assert_eq!(f.packets[0].data, vec![1, 2]);
    let meta = SavedSessionMeta::of(&f, "x.json".to_string());
    assert_eq!(meta.packet_count, 1);
    assert_eq!(meta.file_path, "x.json");
    let s = f.to_session().unwrap();
    assert_eq!(s.next_packet_id, 1);
    assert_eq!(s.packets[0].opcode, 0x1DC);
}

#[test]
fn summaries_from_records() {
    let mut st = AppState::new();
    st.record_packet(raw(0x1DC, vec![4, 5, 6]), "CMSG_PING".to_string());
    let s = PacketSummary::from(&st.sessions[0].packets[0]);
    assert_eq!((s.id, s.opcode, s.size), (0, 0x1DC, 3));
    assert_eq!(s.opcode_name, "CMSG_PING");
    let info = SessionInfo::from(&st.sessions[0]);
    assert_eq!(info.packet_count, 1);
    assert_eq!(info.name, "Untitled");
}
