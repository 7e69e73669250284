use multiworld::everdrive::{
    ConnectError, DeviceVersion, EverDriveAction, EverDriveError, EverDriveSession, SessionState,
    handshake_request, handshake_response, parse_handshake_reply, read_file_hash,
};
use multiworld::frontend::{ClientMessage, Filename, ServerMessage};
use multiworld::hash_icon::HashIcon;

fn version(dev_fenhl: bool, major: u8, minor: u8, patch: u8, supplementary: Option<u8>) -> DeviceVersion {
    DeviceVersion { major, minor, patch, dev_fenhl, supplementary }
}

fn sent(actions: &[EverDriveAction]) -> Vec<[u8; 16]> {
    actions.iter().filter_map(|a| match a { EverDriveAction::Send(p) => Some(*p), EverDriveAction::Report(_) => None }).collect()
}

fn item_packet(item: u16) -> [u8; 16] {
    let mut p = [0u8; 16];
    p[0] = 2;
    p[1] = (item >> 8) as u8;
    p[2] = item as u8;
    p
}

#[test]
fn handshake_packets() {
    assert_eq!(handshake_request(), [0x63, 0x6d, 0x64, 0x74, 0, 0, 0, 0, 0, 0, 0, 0, 0, 0, 0, 0]);
    assert_eq!(handshake_response(), [0x4d, 0x57, 1, 1, 1, 0, 0, 0, 0, 0, 0, 0, 0, 0, 0, 0]);
}

#[test]
fn legacy_in_game_packet_versions() {
    assert!(version(true, 8, 3, 68, Some(1)).sends_legacy_in_game_packet());
    assert!(version(true, 8, 3, 67, Some(9)).sends_legacy_in_game_packet());
    assert!(version(true, 7, 9, 99, None).sends_legacy_in_game_packet());
    assert!(!version(true, 8, 3, 68, Some(2)).sends_legacy_in_game_packet());
    assert!(!version(true, 8, 4, 0, Some(1)).sends_legacy_in_game_packet());
    assert!(!version(false, 8, 0, 0, None).sends_legacy_in_game_packet());
}

#[test]
fn handshake_replies() {
    let v = version(true, 8, 3, 70, Some(1));
    let mut reply = [0x4f, 0x6f, 0x54, 0x52, 1, 8, 3, 70, 1, 1, 2, 0, 1, 30, 31, 5];
    let step = parse_handshake_reply(&reply, Some(v));
    assert_eq!(step.response, Some(handshake_response()));
    let h = step.result.expect("valid reply");
    assert_eq!(h.player_id, 2);
    assert_eq!(h.version, v);
    assert_eq!(h.file_hash, [HashIcon::DekuStick, HashIcon::DekuNut, HashIcon::DungeonMap, HashIcon::BigMagic, HashIcon::Bombchu]);
    assert!(matches!(parse_handshake_reply(&reply, None).result, Err(ConnectError::Branch(1))));
    reply[13] = 32;
    assert!(matches!(parse_handshake_reply(&reply, Some(v)).result, Err(ConnectError::HashIcon)));
    reply[10] = 0;
    assert!(matches!(parse_handshake_reply(&reply, Some(v)).result, Err(ConnectError::PlayerId)));
    let menu = [0x63, 0x6d, 0x64, 0x6b, 0, 0, 0, 0, 0, 0, 0, 0, 0, 0, 0, 0];
    let step = parse_handshake_reply(&menu, Some(v));
    assert_eq!(step.response, None);
    assert!(matches!(step.result, Err(ConnectError::MainMenu)));
    let other = [1, 2, 3, 4, 0, 0, 0, 0, 0, 0, 0, 0, 0, 0, 0, 0];
    assert!(matches!(parse_handshake_reply(&other, Some(v)).result, Err(ConnectError::UnknownReply([1, 2, 3, 4]))));
}

#[test]
fn file_hash_bytes() {
    assert_eq!(read_file_hash(&[9, 0, 1, 2, 3, 4], 1), Some([HashIcon::DekuStick, HashIcon::DekuNut, HashIcon::Bow, HashIcon::Slingshot, HashIcon::FairyOcarina]));
    assert_eq!(read_file_hash(&[0, 1, 2, 3, 32], 0), None);
}

#[test]
fn extra_lengths() {
    let modern = EverDriveSession::new(version(false, 8, 0, 0, None));
    let legacy = EverDriveSession::new(version(true, 8, 0, 0, None));
    let mut h = [0u8; 16];
    h[0] = 2;
    assert_eq!(modern.extra_len(&h), 185);
    assert_eq!(legacy.extra_len(&h), 0);
    h[0] = 5;
    assert_eq!(modern.extra_len(&h), 3);
    h[0] = 6;
    h[1] = 9;
    assert_eq!(modern.extra_len(&h), 486);
    h[1] = 10;
    assert_eq!(modern.extra_len(&h), 0);
    h[0] = 3;
    assert_eq!(modern.extra_len(&h), 0);
}

#[test]
fn items_are_delivered_in_order_one_at_a_time() {
    let mut session = EverDriveSession::new(version(false, 8, 0, 0, None));
    assert!(session.on_server_message(ServerMessage::ItemQueue(vec![5, 6])).is_empty());
    // the last save data segment enters the game with the count saved in the file (0)
    let mut header = [0u8; 16];
    header[0] = 6;
    header[1] = 9;
    let actions = session.handle_packet(&header, &[0u8; 486]).expect("valid packet");
    assert_eq!(sent(&actions), vec![item_packet(5)]);
    assert!(matches!(actions.last(), Some(EverDriveAction::Report(ClientMessage::SaveData(_)))));
    assert_eq!(session.state, SessionState::InGame { internal_count: 1, item_pending: true });
    let mut ack = [0u8; 16];
    ack[0] = 4;
    let actions = session.handle_packet(&ack, &[]).unwrap();
    assert_eq!(sent(&actions), vec![item_packet(6)]);
    let actions = session.handle_packet(&ack, &[]).unwrap();
    assert!(actions.is_empty());
    assert_eq!(session.state, SessionState::InGame { internal_count: 2, item_pending: false });
    let actions = session.on_server_message(ServerMessage::GetItem(0x1234));
    assert_eq!(sent(&actions), vec![item_packet(0x1234)]);
    assert_eq!(session.queue, vec![5, 6, 0x1234]);
}

#[test]
fn legacy_in_game_packet_carries_the_count() {
    let mut session = EverDriveSession::new(version(true, 8, 2, 0, None));
    session.on_server_message(ServerMessage::ItemQueue(vec![10, 11, 12]));
    session.on_server_message(ServerMessage::PlayerName(3, Filename([0xab; 8])));
    let mut header = [0u8; 16];
    header[0] = 2;
    header[2] = 2;
    let actions = session.handle_packet(&header, &[]).unwrap();
    let mut player = [0u8; 16];
    player[0] = 1;
    player[1] = 3;
    player[2..10].copy_from_slice(&[0xab; 8]);
    assert_eq!(sent(&actions), vec![player, item_packet(12)]);
    assert!(session.player_data.is_empty());
}

#[test]
fn reports_from_the_game() {
    let mut session = EverDriveSession::new(version(false, 8, 0, 0, None));
    let mut header = [0u8; 16];
    header[0] = 1;
    header[1..9].copy_from_slice(b"LINK    ");
    let actions = session.handle_packet(&header, &[]).unwrap();
    assert!(matches!(&actions[..], [EverDriveAction::Report(ClientMessage::PlayerName(Filename(name)))] if name == b"LINK    "));
    assert_eq!(session.state, SessionState::FileSelect);
    let mut found = [0u8; 16];
    found[0] = 3;
    found[1..9].copy_from_slice(&0x0102_0304_0506_0708u64.to_be_bytes());
    found[9] = 0x00;
    found[10] = 0x5b;
    found[11] = 2;
    let actions = session.handle_packet(&found, &[]).unwrap();
    assert!(matches!(&actions[..], [EverDriveAction::Report(ClientMessage::SendItem { key: 0x0102_0304_0506_0708, kind: 0x5b, target_world: 2 })]));
}

#[test]
fn packets_that_end_the_session() {
    let mut session = EverDriveSession::new(version(false, 8, 0, 0, None));
    let mut found = [0u8; 16];
    found[0] = 3;
    assert_eq!(session.handle_packet(&found, &[]).unwrap_err(), EverDriveError::PlayerId);
    let mut segment = [0u8; 16];
    segment[0] = 6;
    segment[1] = 10;
    assert_eq!(session.handle_packet(&segment, &[]).unwrap_err(), EverDriveError::SaveDataSegment(10));
    let mut unknown = [0u8; 16];
    unknown[0] = 7;
    assert_eq!(session.handle_packet(&unknown, &[]).unwrap_err(), EverDriveError::UnknownCommand(7));
}

#[test]
fn player_name_and_progressive_items_both_kept() {
    let mut session = EverDriveSession::new(version(false, 8, 0, 0, None));
    session.on_server_message(ServerMessage::ProgressiveItems(4, 0xdead_beef));
    session.on_server_message(ServerMessage::PlayerName(4, Filename([1, 2, 3, 4, 5, 6, 7, 8])));
    assert_eq!(session.player_data.len(), 1);
    assert_eq!(session.player_data[0].world, 4);
    assert_eq!(session.player_data[0].name.0, [1, 2, 3, 4, 5, 6, 7, 8]);
    assert_eq!(session.player_data[0].progressive_items, 0xdead_beef);
    let actions = session.on_server_message(ServerMessage::ProgressiveItems(4, 7));
    assert_eq!(sent(&actions), vec![[1, 4, 1, 2, 3, 4, 5, 6, 7, 8, 0, 0, 0, 7, 0, 0]]);
    assert_eq!(session.player_data[0].name.0, [1, 2, 3, 4, 5, 6, 7, 8]);
}
