use multiworld::frontend::{ClientMessage, Filename};
use multiworld::hash_icon::HashIcon;
use multiworld::hint_area::HintArea;
use multiworld::relay::{
    DungeonReward, Link, PendingItem, Relay, RelayAction, ToServer, frontend_greeting, is_default_name, same_hash,
};

const OFFLINE: Link = Link { server: false, in_room: false };
const LOBBY: Link = Link { server: true, in_room: false };
const ROOM: Link = Link { server: true, in_room: true };

fn hash() -> [HashIcon; 5] {
    [HashIcon::Bow, HashIcon::Cucco, HashIcon::Frog, HashIcon::Saw, HashIcon::Beans]
}

fn name() -> Filename {
    Filename(*b"LINK    ")
}

fn rewards(emerald: Option<(u8, HintArea)>, light: Option<(u8, HintArea)>) -> ClientMessage {
    ClientMessage::DungeonRewardInfo {
        emerald,
        ruby: None,
        sapphire: None,
        light,
        forest: None,
        fire: None,
        water: None,
        shadow: None,
        spirit: None,
    }
}

#[test]
fn default_names_and_hashes() {
    assert!(is_default_name(&Filename([0xdf; 8])));
    assert!(!is_default_name(&name()));
    assert!(same_hash(&Some(hash()), &Some(hash())));
    assert!(!same_hash(&Some(hash()), &None));
    let mut other = hash();
    other[4] = HashIcon::Bow;
    assert!(!same_hash(&Some(hash()), &Some(other)));
    assert!(same_hash(&None, &None));
}

#[test]
fn claiming_a_world_reports_what_is_known() {
    let mut relay = Relay::new(vec![], vec![]);
    assert!(relay.on_plugin_message(ClientMessage::PlayerName(name()), ROOM, true).is_empty());
    assert!(relay.on_plugin_message(ClientMessage::FileHash(Some(hash())), ROOM, true).is_empty());
    let actions = relay.on_plugin_message(ClientMessage::PlayerId(3), ROOM, true);
    assert!(matches!(
        &actions[..],
        [
            RelayAction::Server(ToServer::PlayerId(3)),
            RelayAction::Server(ToServer::PlayerName(n)),
            RelayAction::Server(ToServer::FileHash(Some(h))),
        ] if n.0 == name().0 && *h == hash()
    ));
    // claiming again only sends the world
    let actions = relay.on_plugin_message(ClientMessage::PlayerId(4), ROOM, true);
    assert!(matches!(&actions[..], [RelayAction::Server(ToServer::PlayerId(4))]));
    // a name change is sent now that a world is claimed
    let actions = relay.on_plugin_message(ClientMessage::PlayerName(Filename(*b"ZELDA   ")), ROOM, true);
    assert!(matches!(&actions[..], [RelayAction::Server(ToServer::PlayerName(_))]));
    let actions = relay.on_plugin_message(ClientMessage::ResetPlayerId, ROOM, true);
    assert!(matches!(&actions[..], [RelayAction::Server(ToServer::ResetPlayerId)]));
    assert_eq!(relay.last_world, None);
    // outside a room nothing is sent
    assert!(relay.on_plugin_message(ClientMessage::PlayerId(5), LOBBY, true).is_empty());
    assert_eq!(relay.last_world, Some(5));
}

#[test]
fn offline_item_sent_on_entering_room() {
    let mut relay = Relay::new(vec![], vec![]);
    relay.on_plugin_message(ClientMessage::FileHash(Some(hash())), OFFLINE, true);
    let actions = relay.on_plugin_message(ClientMessage::SendItem { key: 77, kind: 0x5b, target_world: 2 }, OFFLINE, true);
    assert!(matches!(&actions[..], [RelayAction::SavePending]));
    assert_eq!(relay.pending_after_save.len(), 1);
    let actions = relay.on_enter_room(&vec![]);
    assert!(matches!(actions[0], RelayAction::SavePending));
    assert!(actions.iter().any(|a| matches!(a, RelayAction::Server(ToServer::SendItem { key: 77, kind: 0x5b, target_world: 2 }))));
    assert!(relay.pending_after_save.is_empty());
    assert!(relay.pending_before_save.is_empty());
    // in a room, an item goes to the server at once
    let actions = relay.on_plugin_message(ClientMessage::SendItem { key: 1, kind: 2, target_world: 3 }, ROOM, true);
    assert!(matches!(&actions[..], [RelayAction::Server(ToServer::SendItem { key: 1, kind: 2, target_world: 3 })]));
}

#[test]
fn items_without_a_known_hash_are_not_kept() {
    let mut relay = Relay::new(vec![], vec![]);
    let actions = relay.on_plugin_message(ClientMessage::SendItem { key: 1, kind: 2, target_world: 3 }, LOBBY, true);
    assert!(actions.is_empty());
    assert!(relay.pending_after_save.is_empty());
}

#[test]
fn saving_moves_pending_items_before_the_save() {
    let item = |key| PendingItem { hash: Some(hash()), key, kind: 1, target_world: 2 };
    let mut relay = Relay::new(vec![item(1)], vec![item(2), item(3)]);
    let actions = relay.on_plugin_message(ClientMessage::SaveData(vec![0; 4]), OFFLINE, true);
    assert!(matches!(&actions[..], [RelayAction::SavePending]));
    assert_eq!(relay.pending_before_save.iter().map(|i| i.key).collect::<Vec<_>>(), vec![1, 2, 3]);
    assert!(relay.pending_after_save.is_empty());
    assert_eq!(relay.last_save, Some(vec![0; 4]));
    let actions = relay.on_plugin_message(ClientMessage::SaveData(vec![1; 4]), ROOM, true);
    assert!(matches!(&actions[..], [RelayAction::SavePending, RelayAction::Server(ToServer::SaveData)]));
    // save data that cannot be read is reported to the server, and forgotten
    let actions = relay.on_plugin_message(ClientMessage::SaveData(vec![2; 4]), LOBBY, false);
    assert!(matches!(&actions[..], [RelayAction::Server(ToServer::SaveDataError)]));
    assert_eq!(relay.last_save, Some(vec![1; 4]));
}

#[test]
fn entering_a_room_replays_the_game() {
    let other = [HashIcon::Bow; 5];
    let item = |key, h| PendingItem { hash: Some(h), key, kind: 1, target_world: 2 };
    let mut relay = Relay::new(vec![item(1, hash()), item(2, other)], vec![item(3, hash())]);
    relay.on_plugin_message(ClientMessage::PlayerId(6), OFFLINE, true);
    relay.on_plugin_message(ClientMessage::FileHash(Some(hash())), OFFLINE, true);
    relay.on_plugin_message(ClientMessage::SaveData(vec![0; 4]), OFFLINE, true);
    relay.on_plugin_message(rewards(None, Some((4, HintArea::Market))), OFFLINE, true);
    // the save moved item 3 before the save
    let actions = relay.on_enter_room(&vec![(1, Filename([0xdf; 8])), (2, name())]);
    let keys: Vec<u64> = actions.iter().filter_map(|a| match a {
        RelayAction::Server(ToServer::SendItem { key, .. }) => Some(*key),
        _ => None,
    }).collect();
    assert_eq!(keys, vec![1, 3]);
    assert!(matches!(actions[0], RelayAction::SavePending));
    assert!(matches!(actions[1], RelayAction::Server(ToServer::PlayerId(6))));
    assert!(matches!(actions[2], RelayAction::Server(ToServer::FileHash(Some(_)))));
    assert!(actions.iter().any(|a| matches!(a, RelayAction::Server(ToServer::SaveData))));
    assert!(actions.iter().any(|a| matches!(a, RelayAction::Server(ToServer::DungeonRewardInfo { reward: DungeonReward::LightMedallion, world: 4, area: HintArea::Market }))));
    let n = actions.len();
    assert!(matches!(actions[n - 2], RelayAction::FrontendPlayerName(1, None)));
    assert!(matches!(actions[n - 1], RelayAction::FrontendPlayerName(2, Some(f)) if f.0 == name().0));
}

#[test]
fn repeated_reward_report_is_silent() {
    let mut relay = Relay::new(vec![], vec![]);
    let report = || rewards(Some((1, HintArea::DekuTree)), Some((2, HintArea::Graveyard)));
    let actions = relay.on_plugin_message(report(), ROOM, true);
    assert!(matches!(
        &actions[..],
        [
            RelayAction::Server(ToServer::DungeonRewardInfo { reward: DungeonReward::KokiriEmerald, world: 1, area: HintArea::DekuTree }),
            RelayAction::Server(ToServer::DungeonRewardInfo { reward: DungeonReward::LightMedallion, world: 2, area: HintArea::Graveyard }),
        ]
    ));
    assert!(relay.on_plugin_message(report(), ROOM, true).is_empty());
    // an unknown location does not forget a known one
    assert!(relay.on_plugin_message(rewards(None, None), ROOM, true).is_empty());
    assert_eq!(relay.reward_locations[0], Some((1, HintArea::DekuTree)));
    let actions = relay.on_plugin_message(rewards(Some((3, HintArea::DekuTree)), None), ROOM, true);
    assert!(matches!(&actions[..], [RelayAction::Server(ToServer::DungeonRewardInfo { world: 3, .. })]));
}

#[test]
fn current_scene_goes_to_any_connected_server() {
    let mut relay = Relay::new(vec![], vec![]);
    assert!(matches!(&relay.on_plugin_message(ClientMessage::CurrentScene(0x51), LOBBY, true)[..], [RelayAction::Server(ToServer::CurrentScene(0x51))]));
    assert!(relay.on_plugin_message(ClientMessage::CurrentScene(0x51), OFFLINE, true).is_empty());
}

#[test]
fn greeting_a_frontend() {
    let players = vec![(1, name()), (2, Filename([0xdf; 8]))];
    let actions = frontend_greeting(true, &players, &vec![5]);
    assert!(matches!(
        &actions[..],
        [RelayAction::FrontendPlayerName(1, Some(_)), RelayAction::FrontendPlayerName(2, None), RelayAction::FrontendItemQueue]
    ));
    assert_eq!(frontend_greeting(true, &players, &vec![]).len(), 2);
    assert!(frontend_greeting(false, &players, &vec![5]).is_empty());
}
