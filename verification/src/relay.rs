//! What the app remembers of the player's game between connections to the
//! server, and what it relays between the frontend and the server: the world the
//! player claimed, their file's name and hash, their save data, where they found
//! the dungeon rewards, and the items they sent while not in a room.
use vstd::prelude::*;
use crate::everdrive::{FILENAME_DEFAULT_BYTE, is_default_filename};
use crate::frontend::{ClientMessage, Filename, RewardLocation};
use crate::hash_icon::HashIcon;
use crate::hint_area::HintArea;

verus! {

/// One of the nine dungeon rewards.
#[derive(Clone, Copy, Debug, PartialEq, Eq, Structural)]
pub enum DungeonReward {
    KokiriEmerald,
    GoronRuby,
    ZoraSapphire,
    LightMedallion,
    ForestMedallion,
    FireMedallion,
    WaterMedallion,
    ShadowMedallion,
    SpiritMedallion,
}

/// The position of a dungeon reward in the game's list of rewards.
pub open spec fn reward_index(r: DungeonReward) -> int {
    match r {
        DungeonReward::KokiriEmerald => 0,
        DungeonReward::GoronRuby => 1,
        DungeonReward::ZoraSapphire => 2,
        DungeonReward::LightMedallion => 3,
        DungeonReward::ForestMedallion => 4,
        DungeonReward::FireMedallion => 5,
        DungeonReward::WaterMedallion => 6,
        DungeonReward::ShadowMedallion => 7,
        DungeonReward::SpiritMedallion => 8,
    }
}

pub open spec fn reward_at_index(i: int) -> DungeonReward {
    if i == 0 {
        DungeonReward::KokiriEmerald
    } else if i == 1 {
        DungeonReward::GoronRuby
    } else if i == 2 {
        DungeonReward::ZoraSapphire
    } else if i == 3 {
        DungeonReward::LightMedallion
    } else if i == 4 {
        DungeonReward::ForestMedallion
    } else if i == 5 {
        DungeonReward::FireMedallion
    } else if i == 6 {
        DungeonReward::WaterMedallion
    } else if i == 7 {
        DungeonReward::ShadowMedallion
    } else {
        DungeonReward::SpiritMedallion
    }
}

impl DungeonReward {
    /// The reward at position `i` of the game's list of rewards.
    pub fn from_index(i: usize) -> (r: DungeonReward)
        requires
            i < 9,
        ensures
            r == reward_at_index(i as int),
            reward_index(r) == i,
    {
        if i == 0 {
            DungeonReward::KokiriEmerald
        } else if i == 1 {
            DungeonReward::GoronRuby
        } else if i == 2 {
            DungeonReward::ZoraSapphire
        } else if i == 3 {
            DungeonReward::LightMedallion
        } else if i == 4 {
            DungeonReward::ForestMedallion
        } else if i == 5 {
            DungeonReward::FireMedallion
        } else if i == 6 {
            DungeonReward::WaterMedallion
        } else if i == 7 {
            DungeonReward::ShadowMedallion
        } else {
            DungeonReward::SpiritMedallion
        }
    }
}

/// An item the player sent while the app was not in a room, kept (on disk) to
/// be sent when it next enters one.
#[derive(Clone, Copy, Debug)]
pub struct PendingItem {
    /// The file hash of the game the item was sent from.
    pub hash: Option<[HashIcon; 5]>,
    pub key: u64,
    pub kind: u16,
    pub target_world: u8,
}

/// A message the app sends to the server for the player.
#[derive(Clone, Copy, Debug)]
pub enum ToServer {
    PlayerId(u8),
    PlayerName(Filename),
    FileHash(Option<[HashIcon; 5]>),
    SendItem { key: u64, kind: u16, target_world: u8 },
    /// The save data last received from the frontend (`Relay::last_save`).
    SaveData,
    /// The save data last received from the frontend could not be read.
    SaveDataError,
    ResetPlayerId,
    DungeonRewardInfo { reward: DungeonReward, world: u8, area: HintArea },
    CurrentScene(u8),
}

/// Something the app does on the player's behalf.
#[derive(Clone, Copy, Debug)]
pub enum RelayAction {
    Server(ToServer),
    /// Tells the frontend the name of a player's file; `None` where the file has
    /// the default name, for which the frontend shows a name made from the world.
    FrontendPlayerName(u8, Option<Filename>),
    /// Sends the room's item queue to the frontend.
    FrontendItemQueue,
    /// Writes the pending items to disk.
    SavePending,
}

/// The app's link to the server at the time of an event.
#[derive(Clone, Copy, Debug)]
pub struct Link {
    /// The app is connected to the server.
    pub server: bool,
    /// The app is in a room.
    pub in_room: bool,
}

/// What the app remembers of the player's game.
#[derive(Debug)]
pub struct Relay {
    pub last_world: Option<u8>,
    pub last_name: Filename,
    /// `None` until the frontend reports the file hash, which may itself be unknown.
    pub last_hash: Option<Option<[HashIcon; 5]>>,
    pub last_save: Option<Vec<u8>>,
    /// Where each dungeon reward was last reported, by position in the game's list.
    pub reward_locations: Vec<RewardLocation>,
    /// Items sent while not in a room, before the last save.
    pub pending_before_save: Vec<PendingItem>,
    /// Items sent while not in a room, since the last save.
    pub pending_after_save: Vec<PendingItem>,
}

/// A `Relay`, with its sequences as mathematical sequences.
pub struct RelayModel {
    pub last_world: Option<u8>,
    pub last_name: Filename,
    pub last_hash: Option<Option<[HashIcon; 5]>>,
    pub last_save: Option<Seq<u8>>,
    pub reward_locations: Seq<RewardLocation>,
    pub pending_before_save: Seq<PendingItem>,
    pub pending_after_save: Seq<PendingItem>,
}

impl View for Relay {
    type V = RelayModel;

    open spec fn view(&self) -> RelayModel {
        RelayModel {
            last_world: self.last_world,
            last_name: self.last_name,
            last_hash: self.last_hash,
            last_save: match self.last_save {
                Some(s) => Some(s@),
                None => None,
            },
            reward_locations: self.reward_locations@,
            pending_before_save: self.pending_before_save@,
            pending_after_save: self.pending_after_save@,
        }
    }
}

/// One slot per dungeon reward.
pub open spec fn relay_wf(m: RelayModel) -> bool {
    m.reward_locations.len() == 9
}

pub open spec fn online(link: Link) -> bool {
    link.server && link.in_room
}

pub open spec fn when(c: bool, s: Seq<RelayAction>) -> Seq<RelayAction> {
    if c {
        s
    } else {
        Seq::empty()
    }
}

pub open spec fn to_server(m: ToServer) -> Seq<RelayAction> {
    seq![RelayAction::Server(m)]
}

/// The filename the app has for the player, if it is not the default one.
pub open spec fn known_name(name: Filename) -> Option<Filename> {
    if is_default_filename(name) {
        None
    } else {
        Some(name)
    }
}

/// Claiming world `w`: the first claim also sends the name and hash known so far.
pub open spec fn player_id_actions(old: RelayModel, w: u8, link: Link) -> Seq<RelayAction> {
    let first = old.last_world is None;
    when(
        online(link),
        to_server(ToServer::PlayerId(w)) + when(
            first && !is_default_filename(old.last_name),
            to_server(ToServer::PlayerName(old.last_name)),
        ) + when(
            first && old.last_hash is Some,
            to_server(ToServer::FileHash(old.last_hash->Some_0)),
        ),
    )
}

/// The reward message for slot `i`, if the location reported there is new.
pub open spec fn reward_change(old: RewardLocation, input: RewardLocation, i: int) -> Seq<
    RelayAction,
> {
    match input {
        Some((w, a)) => when(
            old != input,
            to_server(ToServer::DungeonRewardInfo { reward: reward_at_index(i), world: w, area: a }),
        ),
        None => Seq::empty(),
    }
}

/// The reward messages for the first `n` slots, in order.
pub open spec fn reward_changes(old: Seq<RewardLocation>, input: Seq<RewardLocation>, n: int) -> Seq<
    RelayAction,
>
    decreases n,
{
    if n <= 0 {
        Seq::empty()
    } else {
        reward_changes(old, input, n - 1) + reward_change(old[n - 1], input[n - 1], n - 1)
    }
}

/// The reward locations after a report: a slot reported as known takes the
/// reported location, the others stay.
pub open spec fn merged_rewards(old: Seq<RewardLocation>, input: Seq<RewardLocation>) -> Seq<
    RewardLocation,
> {
    Seq::new(9, |i: int| if input[i] is Some { input[i] } else { old[i] })
}

/// The nine locations of a dungeon reward report, in the game's order.
pub open spec fn reported_rewards(msg: ClientMessage) -> Seq<RewardLocation> {
    match msg {
        ClientMessage::DungeonRewardInfo {
            emerald,
            ruby,
            sapphire,
            light,
            forest,
            fire,
            water,
            shadow,
            spirit,
        } => seq![emerald, ruby, sapphire, light, forest, fire, water, shadow, spirit],
        _ => Seq::empty(),
    }
}

/// What a message from the frontend does to the remembered game, and what the
/// app then does. `save_valid` says whether save data that came with the
/// message could be read as a save.
pub open spec fn plugin_effect(
    old: RelayModel,
    msg: ClientMessage,
    link: Link,
    save_valid: bool,
    new: RelayModel,
    actions: Seq<RelayAction>,
) -> bool {
    match msg {
        ClientMessage::PlayerId(w) => {
            &&& new == RelayModel { last_world: Some(w), ..old }
            &&& actions == player_id_actions(old, w, link)
        },
        ClientMessage::PlayerName(name) => {
            &&& new == RelayModel { last_name: name, ..old }
            &&& actions == when(
                online(link) && old.last_world is Some,
                to_server(ToServer::PlayerName(name)),
            )
        },
        ClientMessage::SendItem { key, kind, target_world } => if online(link) {
            &&& new == old
            &&& actions == to_server(ToServer::SendItem { key, kind, target_world })
        } else if old.last_hash is Some {
            &&& new == RelayModel {
                pending_after_save: old.pending_after_save.push(
                    PendingItem { hash: old.last_hash->Some_0, key, kind, target_world },
                ),
                ..old
            }
            &&& actions == seq![RelayAction::SavePending]
        } else {
            &&& new == old
            &&& actions == Seq::<RelayAction>::empty()
        },
        ClientMessage::SaveData(data) => if save_valid {
            &&& new == RelayModel {
                last_save: Some(data@),
                pending_before_save: old.pending_before_save + old.pending_after_save,
                pending_after_save: Seq::empty(),
                ..old
            }
            &&& actions == seq![RelayAction::SavePending] + when(
                online(link),
                to_server(ToServer::SaveData),
            )
        } else {
            &&& new == old
            &&& actions == when(link.server, to_server(ToServer::SaveDataError))
        },
        ClientMessage::FileHash(hash) => {
            &&& new == RelayModel { last_hash: Some(hash), ..old }
            &&& actions == when(
                online(link) && old.last_world is Some,
                to_server(ToServer::FileHash(hash)),
            )
        },
        ClientMessage::ResetPlayerId => {
            &&& new == RelayModel { last_world: None, ..old }
            &&& actions == when(online(link), to_server(ToServer::ResetPlayerId))
        },
        ClientMessage::DungeonRewardInfo { .. } => {
            &&& new == RelayModel {
                reward_locations: merged_rewards(old.reward_locations, reported_rewards(msg)),
                ..old
            }
            &&& actions == when(
                online(link),
                reward_changes(old.reward_locations, reported_rewards(msg), 9),
            )
        },
        ClientMessage::CurrentScene(scene) => {
            &&& new == old
            &&& actions == when(link.server, to_server(ToServer::CurrentScene(scene)))
        },
    }
}

/// Whether the app sends an item kept from a game with hash `item_hash`, given
/// the hash the app has for the player's game.
pub open spec fn hash_allows(last_hash: Option<Option<[HashIcon; 5]>>, item_hash: Option<[HashIcon; 5]>) -> bool {
    match last_hash {
        None => true,
        Some(h) => h == item_hash,
    }
}

/// The sends of the first `n` pending items whose game matches the hash.
pub open spec fn pending_sends(
    items: Seq<PendingItem>,
    last_hash: Option<Option<[HashIcon; 5]>>,
    n: int,
) -> Seq<RelayAction>
    decreases n,
{
    if n <= 0 {
        Seq::empty()
    } else {
        pending_sends(items, last_hash, n - 1) + when(
            hash_allows(last_hash, items[n - 1].hash),
            to_server(
                ToServer::SendItem {
                    key: items[n - 1].key,
                    kind: items[n - 1].kind,
                    target_world: items[n - 1].target_world,
                },
            ),
        )
    }
}

/// The messages reporting the known locations of the first `n` rewards.
pub open spec fn reward_replay(rewards: Seq<RewardLocation>, n: int) -> Seq<RelayAction>
    decreases n,
{
    if n <= 0 {
        Seq::empty()
    } else {
        reward_replay(rewards, n - 1) + match rewards[n - 1] {
            Some((w, a)) => to_server(
                ToServer::DungeonRewardInfo { reward: reward_at_index(n - 1), world: w, area: a },
            ),
            None => Seq::empty(),
        }
    }
}

/// Telling the frontend each player's name.
pub open spec fn player_names(players: Seq<(u8, Filename)>) -> Seq<RelayAction> {
    Seq::new(
        players.len(),
        |i: int| RelayAction::FrontendPlayerName(players[i].0, known_name(players[i].1)),
    )
}

/// What the app does on entering a room: it writes the emptied pending lists to
/// disk, claims the world and reports the name and hash it has, sends the
/// pending items from before the last save, the save, the known reward
/// locations and the pending items since the save (items from another game than
/// the one whose hash it has are dropped), and tells the frontend the players'
/// names.
pub open spec fn enter_room_actions(old: RelayModel, players: Seq<(u8, Filename)>) -> Seq<
    RelayAction,
> {
    seq![RelayAction::SavePending] + match old.last_world {
        Some(w) => to_server(ToServer::PlayerId(w)) + when(
            !is_default_filename(old.last_name),
            to_server(ToServer::PlayerName(old.last_name)),
        ) + when(old.last_hash is Some, to_server(ToServer::FileHash(old.last_hash->Some_0))),
        None => Seq::empty(),
    } + pending_sends(old.pending_before_save, old.last_hash, old.pending_before_save.len() as int)
        + when(old.last_save is Some, to_server(ToServer::SaveData)) + reward_replay(
        old.reward_locations,
        9,
    ) + pending_sends(old.pending_after_save, old.last_hash, old.pending_after_save.len() as int)
        + player_names(players)
}

/// What the app tells a frontend that has just connected: if the app is in a
/// room, the players' names, then the room's item queue unless it is empty.
pub open spec fn greeting_actions(in_room: bool, players: Seq<(u8, Filename)>, queue_len: nat) -> Seq<
    RelayAction,
> {
    when(in_room, player_names(players) + when(queue_len > 0, seq![RelayAction::FrontendItemQueue]))
}

/// Whether a filename is the default one (eight spaces).
pub fn is_default_name(f: &Filename) -> (r: bool)
    ensures
        r == is_default_filename(*f),
{
    let b = f.0;
    let r = b[0] == FILENAME_DEFAULT_BYTE && b[1] == FILENAME_DEFAULT_BYTE && b[2]
        == FILENAME_DEFAULT_BYTE && b[3] == FILENAME_DEFAULT_BYTE && b[4] == FILENAME_DEFAULT_BYTE
        && b[5] == FILENAME_DEFAULT_BYTE && b[6] == FILENAME_DEFAULT_BYTE && b[7]
        == FILENAME_DEFAULT_BYTE;
    if r {
        assert(f.0@ =~= Seq::new(8, |i: int| FILENAME_DEFAULT_BYTE));
    } else {
        assert(f.0@ != Seq::new(8, |i: int| FILENAME_DEFAULT_BYTE)) by {
            if f.0@ == Seq::new(8, |i: int| FILENAME_DEFAULT_BYTE) {
                assert(f.0@[0] == FILENAME_DEFAULT_BYTE && f.0@[1] == FILENAME_DEFAULT_BYTE
                    && f.0@[2] == FILENAME_DEFAULT_BYTE && f.0@[3] == FILENAME_DEFAULT_BYTE
                    && f.0@[4] == FILENAME_DEFAULT_BYTE && f.0@[5] == FILENAME_DEFAULT_BYTE
                    && f.0@[6] == FILENAME_DEFAULT_BYTE && f.0@[7] == FILENAME_DEFAULT_BYTE);
            }
        }
    }
    r
}

/// Whether two file hashes are the same.
pub fn same_hash(a: &Option<[HashIcon; 5]>, b: &Option<[HashIcon; 5]>) -> (r: bool)
    ensures
        r == (*a == *b),
{
    match (a, b) {
        (None, None) => true,
        (Some(x), Some(y)) => {
            let r = x[0] == y[0] && x[1] == y[1] && x[2] == y[2] && x[3] == y[3] && x[4] == y[4];
            if r {
                assert(*x =~= *y);
            } else {
                assert(*x != *y);
            }
            r
        },
        _ => false,
    }
}

/// Whether two reward locations are the same.
fn same_location(a: RewardLocation, b: RewardLocation) -> (r: bool)
    ensures
        r == (a == b),
{
    match (a, b) {
        (None, None) => true,
        (Some((w1, a1)), Some((w2, a2))) => w1 == w2 && a1 == a2,
        _ => false,
    }
}

impl Relay {
    /// Nothing known of the game yet; the pending items as loaded from disk.
    pub fn new(pending_before_save: Vec<PendingItem>, pending_after_save: Vec<PendingItem>) -> (r:
        Relay)
        ensures
            relay_wf(r@),
            r@.last_world is None,
            is_default_filename(r@.last_name),
            r@.last_hash is None,
            r@.last_save is None,
            forall|i: int| 0 <= i < 9 ==> r@.reward_locations[i] is None,
            r@.pending_before_save == pending_before_save@,
            r@.pending_after_save == pending_after_save@,
    {
        let name = Filename([FILENAME_DEFAULT_BYTE; 8]);
        assert(name.0@ =~= Seq::new(8, |i: int| FILENAME_DEFAULT_BYTE));
        Relay {
            last_world: None,
            last_name: name,
            last_hash: None,
            last_save: None,
            reward_locations: vec![None, None, None, None, None, None, None, None, None],
            pending_before_save,
            pending_after_save,
        }
    }

    /// Handles a message from the frontend. `save_valid` says, for save data,
    /// whether it could be read as a save; it is not consulted for other messages.
    pub fn on_plugin_message(&mut self, msg: ClientMessage, link: Link, save_valid: bool) -> (actions:
        Vec<RelayAction>)
        requires
            relay_wf(old(self)@),
        ensures
            relay_wf(final(self)@),
            plugin_effect(old(self)@, msg, link, save_valid, final(self)@, actions@),
    {
        let ghost old_model = self@;
        let ghost msg0 = msg;
        let in_room = link.server && link.in_room;
        let mut actions: Vec<RelayAction> = Vec::new();
        match msg {
            ClientMessage::PlayerId(w) => {
                let first = self.last_world.is_none();
                self.last_world = Some(w);
                if in_room {
                    actions.push(RelayAction::Server(ToServer::PlayerId(w)));
                    if first && !is_default_name(&self.last_name) {
                        actions.push(RelayAction::Server(ToServer::PlayerName(self.last_name)));
                    }
                    if first {
                        if let Some(h) = self.last_hash {
                            actions.push(RelayAction::Server(ToServer::FileHash(h)));
                        }
                    }
                }
                assert(actions@ =~= player_id_actions(old_model, w, link));
            },
            ClientMessage::PlayerName(name) => {
                self.last_name = name;
                if in_room && self.last_world.is_some() {
                    actions.push(RelayAction::Server(ToServer::PlayerName(name)));
                }
                assert(actions@ =~= when(
                    online(link) && old_model.last_world is Some,
                    to_server(ToServer::PlayerName(name)),
                ));
            },
            ClientMessage::SendItem { key, kind, target_world } => {
                if in_room {
                    actions.push(RelayAction::Server(ToServer::SendItem { key, kind, target_world }));
                    assert(actions@ =~= to_server(ToServer::SendItem { key, kind, target_world }));
                } else if let Some(hash) = self.last_hash {
                    self.pending_after_save.push(PendingItem { hash, key, kind, target_world });
                    actions.push(RelayAction::SavePending);
                    assert(actions@ =~= seq![RelayAction::SavePending]);
                }
            },
            ClientMessage::SaveData(data) => {
                if save_valid {
                    let mut after: Vec<PendingItem> = Vec::new();
                    std::mem::swap(&mut after, &mut self.pending_after_save);
                    self.pending_before_save.append(&mut after);
                    self.last_save = Some(data);
                    actions.push(RelayAction::SavePending);
                    if in_room {
                        actions.push(RelayAction::Server(ToServer::SaveData));
                    }
                    assert(actions@ =~= seq![RelayAction::SavePending] + when(
                        online(link),
                        to_server(ToServer::SaveData),
                    ));
                } else {
                    if link.server {
                        actions.push(RelayAction::Server(ToServer::SaveDataError));
                    }
                    assert(actions@ =~= when(link.server, to_server(ToServer::SaveDataError)));
                }
            },
            ClientMessage::FileHash(hash) => {
                self.last_hash = Some(hash);
                if in_room && self.last_world.is_some() {
                    actions.push(RelayAction::Server(ToServer::FileHash(hash)));
                }
                assert(actions@ =~= when(
                    online(link) && old_model.last_world is Some,
                    to_server(ToServer::FileHash(hash)),
                ));
            },
            ClientMessage::ResetPlayerId => {
                self.last_world = None;
                if in_room {
                    actions.push(RelayAction::Server(ToServer::ResetPlayerId));
                }
                assert(actions@ =~= when(online(link), to_server(ToServer::ResetPlayerId)));
            },
            ClientMessage::DungeonRewardInfo {
                emerald,
                ruby,
                sapphire,
                light,
                forest,
                fire,
                water,
                shadow,
                spirit,
            } => {
                let inputs: Vec<RewardLocation> = vec![
                    emerald,
                    ruby,
                    sapphire,
                    light,
                    forest,
                    fire,
                    water,
                    shadow,
                    spirit,
                ];
                let ghost input_seq = reported_rewards(msg0);
                assert(inputs@ =~= input_seq);
                let changes = self.merge_rewards(&inputs);
                if in_room {
                    actions = changes;
                }
                assert(actions@ =~= when(
                    online(link),
                    reward_changes(old_model.reward_locations, input_seq, 9),
                ));
            },
            ClientMessage::CurrentScene(scene) => {
                if link.server {
                    actions.push(RelayAction::Server(ToServer::CurrentScene(scene)));
                }
                assert(actions@ =~= when(link.server, to_server(ToServer::CurrentScene(scene))));
            },
        }
        actions
    }

    /// Takes in a report of the dungeon rewards' locations; returns the messages
    /// for the locations that changed.
    fn merge_rewards(&mut self, inputs: &Vec<RewardLocation>) -> (changes: Vec<RelayAction>)
        requires
            relay_wf(old(self)@),
            inputs@.len() == 9,
        ensures
            final(self)@ == (RelayModel {
                reward_locations: merged_rewards(old(self)@.reward_locations, inputs@),
                ..old(self)@
            }),
            changes@ == reward_changes(old(self)@.reward_locations, inputs@, 9),
    {
        let ghost old_model = self@;
        let ghost old_rewards = self@.reward_locations;
        let mut changes: Vec<RelayAction> = Vec::new();
        let mut i: usize = 0;
        while i < 9
            invariant
                inputs@.len() == 9,
                old_rewards.len() == 9,
                i <= 9,
                self@ == (RelayModel { reward_locations: self@.reward_locations, ..old_model }),
                self@.reward_locations.len() == 9,
                forall|k: int|
                    0 <= k < i ==> self@.reward_locations[k] == merged_rewards(
                        old_rewards,
                        inputs@,
                    )[k],
                forall|k: int| i <= k < 9 ==> self@.reward_locations[k] == old_rewards[k],
                changes@ == reward_changes(old_rewards, inputs@, i as int),
            decreases 9 - i,
        {
            let ghost before = changes@;
            if let Some((w, a)) = inputs[i] {
                if !same_location(self.reward_locations[i], Some((w, a))) {
                    changes.push(
                        RelayAction::Server(
                            ToServer::DungeonRewardInfo {
                                reward: DungeonReward::from_index(i),
                                world: w,
                                area: a,
                            },
                        ),
                    );
                }
                self.reward_locations.set(i, Some((w, a)));
            }
            assert(changes@ =~= before + reward_change(old_rewards[i as int], inputs@[i as int], i as int));
            i = i + 1;
        }
        assert(self@.reward_locations =~= merged_rewards(old_rewards, inputs@));
        changes
    }
}

/// Appends the sends of the pending items whose game matches the hash.
fn push_pending_sends(
    actions: &mut Vec<RelayAction>,
    items: &Vec<PendingItem>,
    last_hash: &Option<Option<[HashIcon; 5]>>,
)
    ensures
        final(actions)@ == old(actions)@ + pending_sends(items@, *last_hash, items@.len() as int),
{
    let ghost start = actions@;
    let mut i: usize = 0;
    while i < items.len()
        invariant
            i <= items@.len(),
            actions@ == start + pending_sends(items@, *last_hash, i as int),
        decreases items.len() - i,
    {
        let item = items[i];
        let allowed = match last_hash {
            None => true,
            Some(h) => same_hash(h, &item.hash),
        };
        let ghost before = actions@;
        if allowed {
            actions.push(
                RelayAction::Server(
                    ToServer::SendItem { key: item.key, kind: item.kind, target_world: item.target_world },
                ),
            );
        }
        i = i + 1;
        assert(actions@ =~= start + pending_sends(items@, *last_hash, i as int));
    }
}

/// Appends the messages reporting the known reward locations.
fn push_reward_replay(actions: &mut Vec<RelayAction>, rewards: &Vec<RewardLocation>)
    requires
        rewards@.len() == 9,
    ensures
        final(actions)@ == old(actions)@ + reward_replay(rewards@, 9),
{
    let ghost start = actions@;
    let mut i: usize = 0;
    while i < 9
        invariant
            rewards@.len() == 9,
            i <= 9,
            actions@ == start + reward_replay(rewards@, i as int),
        decreases 9 - i,
    {
        if let Some((w, a)) = rewards[i] {
            actions.push(
                RelayAction::Server(
                    ToServer::DungeonRewardInfo { reward: DungeonReward::from_index(i), world: w, area: a },
                ),
            );
        }
        i = i + 1;
        assert(actions@ =~= start + reward_replay(rewards@, i as int));
    }
}

/// Appends the messages telling the frontend each player's name.
fn push_player_names(actions: &mut Vec<RelayAction>, players: &Vec<(u8, Filename)>)
    ensures
        final(actions)@ == old(actions)@ + player_names(players@),
{
    let ghost start = actions@;
    let mut i: usize = 0;
    while i < players.len()
        invariant
            i <= players@.len(),
            actions@ == start + player_names(players@.take(i as int)),
        decreases players.len() - i,
    {
        let (w, name) = players[i];
        let shown = if is_default_name(&name) {
            None
        } else {
            Some(name)
        };
        actions.push(RelayAction::FrontendPlayerName(w, shown));
        i = i + 1;
        assert(actions@ =~= start + player_names(players@.take(i as int)));
    }
    assert(players@.take(players@.len() as int) =~= players@);
}

impl Relay {
    /// What the app does on entering a room; the pending items are sent (or
    /// dropped) and forgotten.
    pub fn on_enter_room(&mut self, players: &Vec<(u8, Filename)>) -> (actions: Vec<RelayAction>)
        requires
            relay_wf(old(self)@),
        ensures
            relay_wf(final(self)@),
            final(self)@ == (RelayModel {
                pending_before_save: Seq::empty(),
                pending_after_save: Seq::empty(),
                ..old(self)@
            }),
            actions@ == enter_room_actions(old(self)@, players@),
    {
        let ghost old_model = self@;
        let mut before: Vec<PendingItem> = Vec::new();
        let mut after: Vec<PendingItem> = Vec::new();
        std::mem::swap(&mut before, &mut self.pending_before_save);
        std::mem::swap(&mut after, &mut self.pending_after_save);
        let mut actions: Vec<RelayAction> = Vec::new();
        actions.push(RelayAction::SavePending);
        if let Some(w) = self.last_world {
            actions.push(RelayAction::Server(ToServer::PlayerId(w)));
            if !is_default_name(&self.last_name) {
                actions.push(RelayAction::Server(ToServer::PlayerName(self.last_name)));
            }
            if let Some(h) = self.last_hash {
                actions.push(RelayAction::Server(ToServer::FileHash(h)));
            }
        }
        let ghost head = actions@;
        push_pending_sends(&mut actions, &before, &self.last_hash);
        if self.last_save.is_some() {
            actions.push(RelayAction::Server(ToServer::SaveData));
        }
        push_reward_replay(&mut actions, &self.reward_locations);
        push_pending_sends(&mut actions, &after, &self.last_hash);
        push_player_names(&mut actions, players);
        assert(head =~= seq![RelayAction::SavePending] + match old_model.last_world {
            Some(w) => to_server(ToServer::PlayerId(w)) + when(
                !is_default_filename(old_model.last_name),
                to_server(ToServer::PlayerName(old_model.last_name)),
            ) + when(
                old_model.last_hash is Some,
                to_server(ToServer::FileHash(old_model.last_hash->Some_0)),
            ),
            None => Seq::empty(),
        });
        assert(actions@ =~= enter_room_actions(old_model, players@));
        actions
    }
}

/// What the app tells a frontend that has just connected.
pub fn frontend_greeting(in_room: bool, players: &Vec<(u8, Filename)>, item_queue: &Vec<u16>) -> (actions:
    Vec<RelayAction>)
    ensures
        actions@ == greeting_actions(in_room, players@, item_queue@.len()),
{
    let mut actions: Vec<RelayAction> = Vec::new();
    if in_room {
        push_player_names(&mut actions, players);
        if item_queue.len() > 0 {
            actions.push(RelayAction::FrontendItemQueue);
        }
    }
    assert(actions@ =~= greeting_actions(in_room, players@, item_queue@.len()));
    actions
}

proof fn lemma_pending_sends_prefix(
    items: Seq<PendingItem>,
    more: Seq<PendingItem>,
    last_hash: Option<Option<[HashIcon; 5]>>,
    n: int,
)
    requires
        0 <= n <= items.len(),
    ensures
        pending_sends(items + more, last_hash, n) == pending_sends(items, last_hash, n),
    decreases n,
{
    if n > 0 {
        lemma_pending_sends_prefix(items, more, last_hash, n - 1);
        assert((items + more)[n - 1] == items[n - 1]);
    }
}

proof fn lemma_no_reward_changes(old: Seq<RewardLocation>, input: Seq<RewardLocation>, n: int)
    requires
        0 <= n <= 9,
        old.len() == 9,
        input.len() == 9,
        forall|i: int| 0 <= i < n && input[i] is Some ==> old[i] == input[i],
    ensures
        reward_changes(old, input, n) == Seq::<RelayAction>::empty(),
    decreases n,
{
    if n > 0 {
        lemma_no_reward_changes(old, input, n - 1);
        assert(reward_changes(old, input, n) =~= Seq::<RelayAction>::empty());
    }
}

/// An item that the player sends while the app is not in a room, once the
/// file hash is known, is sent to the server when the app next enters a room,
/// as long as the file hash has not changed in between.
pub proof fn lemma_offline_item_sent_on_entering_room(
    old: RelayModel,
    key: u64,
    kind: u16,
    target_world: u8,
    link: Link,
    save_valid: bool,
    new: RelayModel,
    actions: Seq<RelayAction>,
    players: Seq<(u8, Filename)>,
)
    requires
        relay_wf(old),
        !online(link),
        old.last_hash is Some,
        plugin_effect(
            old,
            ClientMessage::SendItem { key, kind, target_world },
            link,
            save_valid,
            new,
            actions,
        ),
    ensures
        actions == seq![RelayAction::SavePending],
        enter_room_actions(new, players).contains(
            RelayAction::Server(ToServer::SendItem { key, kind, target_world }),
        ),
{
    let item = PendingItem { hash: old.last_hash->Some_0, key, kind, target_world };
    let after = old.pending_after_save;
    let n = after.len() as int;
    assert(new.pending_after_save == after.push(item));
    lemma_pending_sends_prefix(after, seq![item], new.last_hash, n);
    assert(after + seq![item] == after.push(item));
    assert(new.pending_after_save[n] == item);
    let sends = pending_sends(new.pending_after_save, new.last_hash, n + 1);
    let sent = RelayAction::Server(ToServer::SendItem { key, kind, target_world });
    assert(sends == pending_sends(after, new.last_hash, n) + seq![sent]);
    assert(sends[sends.len() - 1] == sent);
    let whole = enter_room_actions(new, players);
    let prefix = seq![RelayAction::SavePending] + match new.last_world {
        Some(w) => to_server(ToServer::PlayerId(w)) + when(
            !is_default_filename(new.last_name),
            to_server(ToServer::PlayerName(new.last_name)),
        ) + when(new.last_hash is Some, to_server(ToServer::FileHash(new.last_hash->Some_0))),
        None => Seq::empty(),
    } + pending_sends(new.pending_before_save, new.last_hash, new.pending_before_save.len() as int)
        + when(new.last_save is Some, to_server(ToServer::SaveData)) + reward_replay(
        new.reward_locations,
        9,
    );
    assert(whole == prefix + sends + player_names(players));
    assert(whole[prefix.len() + sends.len() - 1] == sent);
}

/// Reporting the same dungeon reward locations twice: the second report changes
/// nothing and sends nothing, whatever the link.
pub proof fn lemma_repeated_reward_report_is_silent(
    old: RelayModel,
    msg: ClientMessage,
    link1: Link,
    link2: Link,
    valid1: bool,
    valid2: bool,
    mid: RelayModel,
    actions1: Seq<RelayAction>,
    new: RelayModel,
    actions2: Seq<RelayAction>,
)
    requires
        relay_wf(old),
        msg is DungeonRewardInfo,
        plugin_effect(old, msg, link1, valid1, mid, actions1),
        plugin_effect(mid, msg, link2, valid2, new, actions2),
    ensures
        new == mid,
        actions2 == Seq::<RelayAction>::empty(),
{
    let input = reported_rewards(msg);
    let merged = merged_rewards(old.reward_locations, input);
    assert(mid.reward_locations == merged);
    lemma_no_reward_changes(merged, input, 9);
    assert(merged_rewards(merged, input) =~= merged);
}

/// A file hash that the frontend reports while the app is in a room and the
/// player has claimed a world is remembered and told to the server, in one
/// message and nothing else; outside a room, or before a world is claimed,
/// the server is told nothing.
pub proof fn lemma_file_hash_reaches_server(
    old: RelayModel,
    hash: Option<[HashIcon; 5]>,
    link: Link,
    save_valid: bool,
    new: RelayModel,
    actions: Seq<RelayAction>,
)
    requires
        relay_wf(old),
        plugin_effect(old, ClientMessage::FileHash(hash), link, save_valid, new, actions),
    ensures
        new.last_hash == Some(hash),
        new.last_world == old.last_world,
        link.server && link.in_room && old.last_world is Some ==> {
            &&& actions.len() == 1
            &&& actions[0] matches RelayAction::Server(ToServer::FileHash(h)) && h == hash
        },
        !(link.server && link.in_room && old.last_world is Some) ==> actions.len() == 0,
{
}

/// In a room, with a world claimed, what the frontend reports reaches the
/// server unchanged: the file name, an item found for another world, the
/// claimed world itself (first), an unclaim, and the current scene.
pub proof fn lemma_reports_forwarded_in_room(
    old: RelayModel,
    msg: ClientMessage,
    link: Link,
    save_valid: bool,
    new: RelayModel,
    actions: Seq<RelayAction>,
)
    requires
        relay_wf(old),
        link.server,
        link.in_room,
        old.last_world is Some,
        plugin_effect(old, msg, link, save_valid, new, actions),
    ensures
        msg matches ClientMessage::PlayerName(name) ==> {
            &&& new.last_name == name
            &&& actions.len() == 1
            &&& actions[0] matches RelayAction::Server(ToServer::PlayerName(n)) && n == name
        },
        msg matches ClientMessage::SendItem { key, kind, target_world } ==> {
            &&& new == old
            &&& actions.len() == 1
            &&& actions[0] matches RelayAction::Server(ToServer::SendItem { key: k, kind: i, target_world: w })
                && k == key && i == kind && w == target_world
        },
        msg matches ClientMessage::PlayerId(w) ==> {
            &&& new.last_world == Some(w)
            &&& actions.len() == 1
            &&& actions[0] matches RelayAction::Server(ToServer::PlayerId(x)) && x == w
        },
        msg is ResetPlayerId ==> {
            &&& new.last_world is None
            &&& actions.len() == 1
            &&& actions[0] matches RelayAction::Server(ToServer::ResetPlayerId)
        },
        msg matches ClientMessage::CurrentScene(scene) ==> {
            &&& actions.len() == 1
            &&& actions[0] matches RelayAction::Server(ToServer::CurrentScene(x)) && x == scene
        },
{
}

/// An item found while the app is not in a room is not sent: once the file
/// hash is known it is kept (with that hash) to be sent later, and the kept
/// items are written to disk.
pub proof fn lemma_offline_item_kept(
    old: RelayModel,
    key: u64,
    kind: u16,
    target_world: u8,
    link: Link,
    save_valid: bool,
    new: RelayModel,
    actions: Seq<RelayAction>,
)
    requires
        relay_wf(old),
        !(link.server && link.in_room),
        plugin_effect(old, ClientMessage::SendItem { key, kind, target_world }, link, save_valid, new, actions),
    ensures
        forall|j: int| 0 <= j < actions.len() ==> !(actions[j] is Server),
        old.last_hash matches Some(h) ==> {
            &&& new.pending_after_save.len() == old.pending_after_save.len() + 1
            &&& new.pending_after_save.last() == (PendingItem { hash: h, key, kind, target_world })
            &&& new.pending_before_save == old.pending_before_save
            &&& actions.len() == 1
            &&& actions[0] is SavePending
        },
{
}

} // verus!
