use multiworld::frontend::{ClientMessage, Filename, PROTOCOL_VERSION, SAVE_DATA_SIZE, ServerMessage};
use multiworld::hash_icon::HashIcon;
use multiworld::hint_area::{HintArea, OptHintArea};
use multiworld::plugin::{
    PluginClient, ReadOutcome, client_reset_player_id, client_send_current_scene, client_send_dungeon_reward_info,
    client_send_item, client_set_file_hash, client_set_player_id, client_set_player_name, client_set_save_data,
    opt_message_result_filename, opt_message_result_item_kind_at_index, opt_message_result_item_queue_len,
    opt_message_result_kind, opt_message_result_progressive_items, opt_message_result_world_id,
};

#[test]
fn read_outcome_kinds() {
    assert_eq!(opt_message_result_kind(&ReadOutcome::EndOfStream), -3);
    assert_eq!(opt_message_result_kind(&ReadOutcome::Failed), -2);
    assert_eq!(opt_message_result_kind(&ReadOutcome::Nothing), -1);
    assert_eq!(opt_message_result_kind(&ReadOutcome::Message(ServerMessage::ItemQueue(vec![]))), 0);
    assert_eq!(opt_message_result_kind(&ReadOutcome::Message(ServerMessage::GetItem(1))), 1);
    assert_eq!(opt_message_result_kind(&ReadOutcome::Message(ServerMessage::PlayerName(1, Filename([0; 8])))), 2);
    assert_eq!(opt_message_result_kind(&ReadOutcome::Message(ServerMessage::ProgressiveItems(1, 2))), 3);
}

#[test]
fn read_outcome_fields() {
    let queue = ReadOutcome::Message(ServerMessage::ItemQueue(vec![7, 8, 9]));
    assert_eq!(opt_message_result_item_queue_len(&queue), 3);
    assert_eq!(opt_message_result_item_kind_at_index(&queue, 2), 9);
    let item = ReadOutcome::Message(ServerMessage::GetItem(0x42));
    assert_eq!(opt_message_result_item_kind_at_index(&item, 0), 0x42);
    let name = ReadOutcome::Message(ServerMessage::PlayerName(5, Filename(*b"NAVI    ")));
    assert_eq!(opt_message_result_world_id(&name), 5);
    assert_eq!(&opt_message_result_filename(&name).0, b"NAVI    ");
    let progressive = ReadOutcome::Message(ServerMessage::ProgressiveItems(6, 0x0102_0304));
    assert_eq!(opt_message_result_progressive_items(&progressive), 0x0102_0304);
}

#[test]
fn queued_messages_delivered_in_order() {
    let mut client = PluginClient::new();
    assert!(client_set_player_id(&mut client, 3).is_none());
    assert!(client_set_player_name(&mut client, Filename(*b"LINK    ")).is_none());
    assert!(client_send_item(&mut client, 9, 8, 7).is_none());
    // a version mismatch keeps the queue
    assert_eq!(client.accept(PROTOCOL_VERSION + 1).unwrap_err(), PROTOCOL_VERSION + 1);
    assert_eq!(client.message_queue.len(), 3);
    let queued = client.accept(PROTOCOL_VERSION).unwrap();
    assert!(matches!(
        &queued[..],
        [ClientMessage::PlayerId(3), ClientMessage::PlayerName(_), ClientMessage::SendItem { key: 9, kind: 8, target_world: 7 }]
    ));
    assert!(client.message_queue.is_empty());
    client.connected = true;
    assert!(matches!(client_reset_player_id(&mut client), Some(ClientMessage::ResetPlayerId)));
    assert!(matches!(client_send_current_scene(&mut client, 0x55), Some(ClientMessage::CurrentScene(0x55))));
    assert!(client.message_queue.is_empty());
}

#[test]
fn plugin_reports() {
    let mut client = PluginClient::new();
    client.connected = true;
    let hash = [HashIcon::Bow, HashIcon::Bow, HashIcon::Saw, HashIcon::Frog, HashIcon::Cucco];
    assert!(matches!(client_set_file_hash(&mut client, hash), Some(ClientMessage::FileHash(Some(h))) if h == hash));
    assert!(matches!(client_set_save_data(&mut client, vec![3; SAVE_DATA_SIZE]), Some(ClientMessage::SaveData(s)) if s.len() == SAVE_DATA_SIZE));
    let msg = client_send_dungeon_reward_info(
        1, OptHintArea::DekuTree,
        0, OptHintArea::DekuTree,
        2, OptHintArea::Unknown,
        3, OptHintArea::SpiritTemple,
        0, OptHintArea::Unknown,
        0, OptHintArea::Unknown,
        0, OptHintArea::Unknown,
        0, OptHintArea::Unknown,
        4, OptHintArea::Root,
        &mut client,
    );
    match msg {
        Some(ClientMessage::DungeonRewardInfo { emerald, ruby, sapphire, light, spirit, .. }) => {
            assert_eq!(emerald, Some((1, HintArea::DekuTree)));
            assert_eq!(ruby, None);
            assert_eq!(sapphire, None);
            assert_eq!(light, Some((3, HintArea::SpiritTemple)));
            assert_eq!(spirit, Some((4, HintArea::Root)));
        }
        other => panic!("unexpected {other:?}"),
    }
}
