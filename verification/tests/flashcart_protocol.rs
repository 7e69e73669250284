use multiworld::everdrive::{DeviceVersion, PlayerData};
use multiworld::flashcart::{
    CommState, FlashcartAction, FlashcartError, FlashcartSession, InGameState, UsbDataType,
    check_handshake_reply, finish_handshake,
};
use multiworld::frontend::{ClientMessage, Filename, SAVE_DATA_SIZE, ServerMessage};
use multiworld::hash_icon::HashIcon;

fn reply() -> Vec<u8> {
    vec![0x4f, 0x6f, 0x54, 0x52, 3, 8, 3, 70, 1, 1, 5, 4, 3, 2, 1, 0]
}

#[test]
fn handshake_with_a_flashcart() {
    assert_eq!(check_handshake_reply(UsbDataType::Handshake, &reply()).unwrap(), vec![0x4d, 0x57, 3, 1, 1]);
    assert!(matches!(check_handshake_reply(UsbDataType::Text, &reply()), Err(FlashcartError::UnknownReplyHeader(UsbDataType::Text))));
    assert!(matches!(check_handshake_reply(UsbDataType::Handshake, &vec![0; 15]), Err(FlashcartError::UnknownReplyLength(15))));
    let mut other = reply();
    other[4] = 2;
    assert!(matches!(check_handshake_reply(UsbDataType::Handshake, &other), Err(FlashcartError::UnknownReply([0x4f, 0x6f, 0x54, 0x52]))));
    let v = DeviceVersion { major: 8, minor: 3, patch: 70, dev_fenhl: true, supplementary: Some(1) };
    assert!(matches!(finish_handshake(&reply(), false, Some(v)), Err(FlashcartError::FailedReply)));
    assert!(matches!(finish_handshake(&reply(), true, None), Err(FlashcartError::Branch(1))));
    let h = finish_handshake(&reply(), true, Some(v)).unwrap();
    assert_eq!(h.player_id, 5);
    assert_eq!(h.file_hash, [HashIcon::FairyOcarina, HashIcon::Slingshot, HashIcon::Bow, HashIcon::DekuNut, HashIcon::DekuStick]);
    let mut world0 = reply();
    world0[10] = 0;
    assert!(matches!(finish_handshake(&world0, true, Some(v)), Err(FlashcartError::PlayerId)));
}

fn save_data(name: &[u8; 8], count: u16) -> Vec<u8> {
    let mut save = vec![0u8; SAVE_DATA_SIZE];
    save[0x24..0x2c].copy_from_slice(name);
    save[0x90..0x92].copy_from_slice(&count.to_be_bytes());
    save
}

#[test]
fn messages_to_the_game_go_out_in_order_and_wait_for_acknowledgement() {
    let other = PlayerData { world: 2, name: Filename(*b"ZELDA   "), progressive_items: 5 };
    let mut session = FlashcartSession::new(vec![other]);
    session.on_server_message(ServerMessage::ItemQueue(vec![0x10, 0x20]));
    assert!(session.message_to_send().is_none());
    let outcome = session.process_packet(UsbDataType::IngameState, &save_data(b"LINK    ", 1)).unwrap();
    assert_eq!(outcome.state, Some(InGameState::InGame { internal_count: 1, item_pending: true }));
    assert_eq!(outcome.actions.len(), 3);
    assert!(matches!(&outcome.actions[0], FlashcartAction::Report(ClientMessage::PlayerName(Filename(n))) if n == b"LINK    "));
    assert!(matches!(&outcome.actions[1], FlashcartAction::Report(ClientMessage::SaveData(d)) if d.len() == SAVE_DATA_SIZE));
    assert!(matches!(&outcome.actions[2], FlashcartAction::Send(UsbDataType::AckMessage, p) if *p == vec![0, 16]));
    assert_eq!(session.apply_outcome(outcome.state), None);
    let first = session.message_to_send().unwrap();
    assert_eq!(first.datatype, UsbDataType::PlayerNames);
    assert_eq!(first.payload, vec![2, b'Z', b'E', b'L', b'D', b'A', b' ', b' ', b' ', 0, 0, 0, 5, 0, 0, 0]);
    session.record_send(true);
    assert!(session.message_to_send().is_none());
    let outcome = session.process_packet(UsbDataType::AckMessage, &vec![]).unwrap();
    assert_eq!(outcome.state, None);
    assert!(outcome.actions.is_empty());
    let second = session.message_to_send().unwrap();
    assert_eq!(second.datatype, UsbDataType::SendItem);
    assert_eq!(second.payload, vec![0, 0x20]);
    session.record_send(true);
    session.process_packet(UsbDataType::AckMessage, &vec![]).unwrap();
    assert!(session.message_to_send().is_none());
    let outcome = session.process_packet(UsbDataType::ItemGiven, &vec![]).unwrap();
    assert_eq!(outcome.state, None);
    assert_eq!(session.ingame_state, InGameState::InGame { internal_count: 2, item_pending: false });
    // an acknowledgement with nothing sent means the connection is out of step
    let outcome = session.process_packet(UsbDataType::AckMessage, &vec![]).unwrap();
    assert_eq!(outcome.state, Some(InGameState::Desynced));
    assert_eq!(session.apply_outcome(outcome.state), Some(CommState::Disconnect));
}

#[test]
fn reports_and_refusals() {
    let mut session = FlashcartSession::new(vec![]);
    let mut item = 0x0000_0001_0000_0002u64.to_be_bytes().to_vec();
    item.extend_from_slice(&[0x12, 0x34, 3]);
    let outcome = session.process_packet(UsbDataType::SendItem, &item).unwrap();
    assert!(matches!(&outcome.actions[0], FlashcartAction::Report(ClientMessage::SendItem { key: 0x0000_0001_0000_0002, kind: 0x1234, target_world: 3 })));
    let outcome = session.process_packet(UsbDataType::SaveFilename, &vec![1, 2, 3]).unwrap();
    assert!(matches!(&outcome.actions[..], [FlashcartAction::Send(UsbDataType::Unrecoverable, _)]));
    assert!(matches!(session.process_packet(UsbDataType::Other(200), &vec![]), Err(FlashcartError::UnknownCommand(UsbDataType::Other(200)))));
    assert!(matches!(session.process_packet(UsbDataType::Text, &b"hello!".to_vec()), Err(FlashcartError::UnknownCommand(UsbDataType::Text))));
    assert_eq!(session.process_packet(UsbDataType::Text, &b"joybus".to_vec()).unwrap().state, Some(InGameState::NotKnown));
    assert!(matches!(session.process_packet(UsbDataType::ItemGiven, &vec![]), Err(FlashcartError::ReadFail)));
}

#[test]
fn flashcart_player_name_and_progressive_items_both_kept() {
    let mut session = FlashcartSession::new(vec![]);
    session.on_server_message(ServerMessage::PlayerName(9, Filename(*b"SARIA   ")));
    session.on_server_message(ServerMessage::ProgressiveItems(9, 42));
    assert_eq!(session.player_data.len(), 1);
    assert_eq!(&session.player_data[0].name.0, b"SARIA   ");
    assert_eq!(session.player_data[0].progressive_items, 42);
    assert_eq!(session.message_queue.len(), 2);
}
