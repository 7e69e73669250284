//! The serial protocol spoken with an EverDrive running a randomized seed, and
//! the session that relays items between the app and the game.
//!
//! Every packet is 16 bytes long; a few commands are followed by more bytes.
//! The app reads a packet, asks [`EverDriveSession::extra_len`] how many more
//! bytes belong to it, reads those, and hands both to
//! [`EverDriveSession::handle_packet`], then performs the actions it returns.
use vstd::prelude::*;
use crate::dotted::new_semver;
use crate::updater::{VersionOrder, compare_semver};
use crate::bytes::{be_value, be16, be32, lemma_be16_roundtrip, lemma_be32_roundtrip, read_be, read_be16, u16_to_be, u32_to_be};
use crate::frontend::{
    ClientMessage, Filename, ServerMessage, SAVE_DATA_SIZE, dungeon_reward_info, reward_location_matches,
};
use crate::hash_icon::{HashIcon, hash_icon_index};
use crate::hint_area::hint_area_index;

verus! {

/// The version of the EverDrive protocol spoken here.
pub const EVERDRIVE_PROTOCOL_VERSION: u8 = 1;

/// The byte that fills an unnamed save file's name.
pub const FILENAME_DEFAULT_BYTE: u8 = 0xdf;

pub open spec fn zeros(n: nat) -> Seq<u8> {
    Seq::new(n, |i: int| 0u8)
}

/// `cmdt` followed by zeros: asks the EverDrive what is running.
pub open spec fn handshake_request_bytes() -> Seq<u8> {
    seq![0x63u8, 0x6d, 0x64, 0x74] + zeros(12)
}

/// `MW`, the protocol version, and the two options the app enables (sending the
/// player's own items to the server, and progressive item info).
pub open spec fn handshake_response_bytes() -> Seq<u8> {
    seq![0x4du8, 0x57, EVERDRIVE_PROTOCOL_VERSION, 1, 1] + zeros(11)
}

/// The first packet the app sends to a serial port.
pub fn handshake_request() -> (r: [u8; 16])
    ensures
        r@ == handshake_request_bytes(),
{
    let r: [u8; 16] = [0x63, 0x6d, 0x64, 0x74, 0, 0, 0, 0, 0, 0, 0, 0, 0, 0, 0, 0];
    assert(r@ =~= handshake_request_bytes());
    r
}

/// The packet that completes the handshake with a game.
pub fn handshake_response() -> (r: [u8; 16])
    ensures
        r@ == handshake_response_bytes(),
{
    let r: [u8; 16] = [0x4d, 0x57, EVERDRIVE_PROTOCOL_VERSION, 1, 1, 0, 0, 0, 0, 0, 0, 0, 0, 0, 0, 0];
    assert(r@ =~= handshake_response_bytes());
    r
}

/// The randomizer version a game reports, as far as the protocol depends on it.
#[derive(Clone, Copy, Debug, PartialEq, Eq, Structural)]
pub struct DeviceVersion {
    pub major: u8,
    pub minor: u8,
    pub patch: u8,
    /// Whether this is Fenhl's development branch.
    pub dev_fenhl: bool,
    pub supplementary: Option<u8>,
}

/// Versions of Fenhl's branch before 8.3.68 Fenhl-2 send the "in game" packet in
/// an older form, without the save data.
pub open spec fn sends_legacy_in_game_packet(v: DeviceVersion) -> bool {
    v.dev_fenhl && (v.major < 8 || (v.major == 8 && (v.minor < 3 || (v.minor == 3 && (v.patch
        < 68 || (v.patch == 68 && match v.supplementary {
        None => true,
        Some(s) => s < 2,
    }))))))
}

impl DeviceVersion {
    /// Whether a game of this version sends the older form of the "in game" packet.
    pub fn sends_legacy_in_game_packet(&self) -> (r: bool)
        ensures
            r == sends_legacy_in_game_packet(*self),
    {
        if !self.dev_fenhl {
            return false;
        }
        let base = new_semver(self.major as u64, self.minor as u64, self.patch as u64);
        let first_full = new_semver(8, 3, 68);
        match compare_semver(&base, &first_full) {
            VersionOrder::Older => true,
            VersionOrder::Newer => false,
            VersionOrder::Same => match self.supplementary {
                None => true,
                Some(s) => s < 2,
            },
        }
    }
}

/// What a game tells the app in its handshake reply.
#[derive(Clone, Copy, Debug)]
pub struct HandshakeReply {
    pub version: DeviceVersion,
    pub player_id: u8,
    pub file_hash: [HashIcon; 5],
}

/// Why a serial port is not a game the app can talk to.
#[derive(Clone, Copy, Debug)]
pub enum ConnectError {
    /// The game reported a randomizer branch the app does not know.
    Branch(u8),
    /// The game reported a hash icon number past the last icon.
    HashIcon,
    /// The EverDrive is in its main menu.
    MainMenu,
    /// The game reported world 0.
    PlayerId,
    /// The reply starts with these bytes, which mean nothing to the app.
    UnknownReply([u8; 4]),
}

/// What the app does with a handshake reply: the packet to send back, if any,
/// and whether the connection is established.
#[derive(Clone, Copy, Debug)]
pub struct HandshakeStep {
    pub response: Option<[u8; 16]>,
    pub result: Result<HandshakeReply, ConnectError>,
}

/// `OoTR` and the protocol version: a game that speaks this protocol.
pub open spec fn is_in_game_reply(r: Seq<u8>) -> bool {
    r[0] == 0x4f && r[1] == 0x6f && r[2] == 0x54 && r[3] == 0x52 && r[4] == EVERDRIVE_PROTOCOL_VERSION
}

/// `cmdr` or `cmdk`: the EverDrive menu (older EverDrive OS versions send `cmdk`).
pub open spec fn is_main_menu_reply(r: Seq<u8>) -> bool {
    r[0] == 0x63 && r[1] == 0x6d && r[2] == 0x64 && (r[3] == 0x72 || r[3] == 0x6b)
}

/// The five hash icon numbers at `r[start..start + 5]` all name an icon.
pub open spec fn hash_icons_valid(r: Seq<u8>, start: int) -> bool {
    forall|i: int| start <= i < start + 5 ==> r[i] < 32
}

/// `icons` are the icons numbered `r[start..start + 5]`.
pub open spec fn hash_icons_match(icons: Seq<HashIcon>, r: Seq<u8>, start: int) -> bool {
    icons.len() == 5 && forall|i: int| 0 <= i < 5 ==> hash_icon_index(#[trigger] icons[i]) == r[start + i]
}

/// Reads the five hash icons numbered `r[start..start + 5]`.
pub fn read_file_hash(r: &[u8], start: usize) -> (h: Option<[HashIcon; 5]>)
    requires
        start + 5 <= r.len(),
    ensures
        h is Some <==> hash_icons_valid(r@, start as int),
        h matches Some(icons) ==> hash_icons_match(icons@, r@, start as int),
{
    let i0 = HashIcon::from_index(r[start]);
    let i1 = HashIcon::from_index(r[start + 1]);
    let i2 = HashIcon::from_index(r[start + 2]);
    let i3 = HashIcon::from_index(r[start + 3]);
    let i4 = HashIcon::from_index(r[start + 4]);
    match (i0, i1, i2, i3, i4) {
        (Some(a), Some(b), Some(c), Some(d), Some(e)) => {
            let icons = [a, b, c, d, e];
            assert(forall|i: int| 0 <= i < 5 ==> hash_icon_index(#[trigger] icons@[i]) == r@[start + i]) by {
                assert(icons@[0] == a && icons@[1] == b && icons@[2] == c && icons@[3] == d && icons@[4] == e);
            }
            Some(icons)
        },
        _ => {
            assert(!hash_icons_valid(r@, start as int)) by {
                if i0 is None {
                    assert(r@[start as int] >= 32);
                } else if i1 is None {
                    assert(r@[start + 1] >= 32);
                } else if i2 is None {
                    assert(r@[start + 2] >= 32);
                } else if i3 is None {
                    assert(r@[start + 3] >= 32);
                } else {
                    assert(r@[start + 4] >= 32);
                }
            }
            None
        },
    }
}

/// Interprets the 16-byte reply to the handshake request. `version` is the
/// randomizer version decoded from bytes 5 to 9 of the reply (major, minor,
/// patch, branch, supplementary), or `None` where the branch byte names no branch.
pub fn parse_handshake_reply(reply: &[u8; 16], version: Option<DeviceVersion>) -> (step: HandshakeStep)
    ensures
        step.response is Some <==> is_in_game_reply(reply@),
        step.response matches Some(b) ==> b@ == handshake_response_bytes(),
        is_in_game_reply(reply@) ==> match version {
            None => (step.result matches Err(ConnectError::Branch(b)) && b == reply@[8]),
            Some(v) => if reply@[10] == 0 {
                step.result matches Err(ConnectError::PlayerId)
            } else if !hash_icons_valid(reply@, 11) {
                step.result matches Err(ConnectError::HashIcon)
            } else {
                (step.result matches Ok(h) && h.version == v && h.player_id == reply@[10]
                    && hash_icons_match(h.file_hash@, reply@, 11))
            },
        },
        !is_in_game_reply(reply@) && is_main_menu_reply(reply@) ==> step.result matches Err(
            ConnectError::MainMenu,
        ),
        !is_in_game_reply(reply@) && !is_main_menu_reply(reply@) ==> (step.result matches Err(
            ConnectError::UnknownReply(b),
        ) && b@ == reply@.take(4)),
        step.result matches Ok(h) ==> h.player_id == reply@[10] && reply@[10] != 0,
        step.result matches Ok(h) ==> forall|i: int|
            0 <= i < 5 ==> hash_icon_index(#[trigger] h.file_hash@[i]) == reply@[11 + i],
{
    if reply[0] == 0x4f && reply[1] == 0x6f && reply[2] == 0x54 && reply[3] == 0x52 && reply[4]
        == EVERDRIVE_PROTOCOL_VERSION {
        let response = Some(handshake_response());
        let result = match version {
            None => Err(ConnectError::Branch(reply[8])),
            Some(v) => if reply[10] == 0 {
                Err(ConnectError::PlayerId)
            } else {
                match read_file_hash(reply.as_slice(), 11) {
                    Some(file_hash) => Ok(HandshakeReply { version: v, player_id: reply[10], file_hash }),
                    None => Err(ConnectError::HashIcon),
                }
            },
        };
        HandshakeStep { response, result }
    } else if reply[0] == 0x63 && reply[1] == 0x6d && reply[2] == 0x64 && (reply[3] == 0x72
        || reply[3] == 0x6b) {
        HandshakeStep { response: None, result: Err(ConnectError::MainMenu) }
    } else {
        let head = [reply[0], reply[1], reply[2], reply[3]];
        assert(head@ =~= reply@.take(4));
        HandshakeStep { response: None, result: Err(ConnectError::UnknownReply(head)) }
    }
}

/// Where the game is, as far as item delivery goes.
#[derive(Clone, Copy, Debug, PartialEq, Eq, Structural)]
pub enum SessionState {
    Handshake,
    FileSelect,
    /// In game: the game has received `internal_count` items, and an item
    /// packet is awaiting confirmation if `item_pending`.
    InGame { internal_count: u16, item_pending: bool },
}

/// The name and progressive item state of another player, as the game shows them.
#[derive(Clone, Copy, Debug)]
pub struct PlayerData {
    pub world: u8,
    pub name: Filename,
    pub progressive_items: u32,
}

/// Something the app has to do on behalf of the session.
#[derive(Debug)]
pub enum EverDriveAction {
    /// Write this packet to the EverDrive.
    Send([u8; 16]),
    /// Pass this message on to the app.
    Report(ClientMessage),
}

/// A packet from the game that ends the session.
#[derive(Clone, Copy, Debug, PartialEq, Eq, Structural)]
pub enum EverDriveError {
    /// A save data segment with an index of 10 or more.
    SaveDataSegment(u8),
    /// A command byte the protocol does not define.
    UnknownCommand(u8),
    /// An item sent to world 0.
    PlayerId,
}

/// The state of a connection to a game on an EverDrive.
pub struct EverDriveSession {
    pub state: SessionState,
    /// Whether the game sends the older "in game" packet.
    pub legacy_in_game: bool,
    /// The other players' names and progressive items, to be sent when the
    /// game is entered (one entry per world).
    pub player_data: Vec<PlayerData>,
    /// The save data the game has sent so far.
    pub save_data: Vec<u8>,
    /// The items this world has received, in order.
    pub queue: Vec<u16>,
}

/// The mathematical state of a session.
pub struct SessionModel {
    pub state: SessionState,
    pub legacy_in_game: bool,
    pub players: Seq<PlayerData>,
    pub save: Seq<u8>,
    pub queue: Seq<u16>,
}

impl View for EverDriveSession {
    type V = SessionModel;

    open spec fn view(&self) -> SessionModel {
        SessionModel {
            state: self.state,
            legacy_in_game: self.legacy_in_game,
            players: self.player_data@,
            save: self.save_data@,
            queue: self.queue@,
        }
    }
}

/// No two entries are for the same world, and no entry is for world 0.
pub open spec fn players_wf(players: Seq<PlayerData>) -> bool {
    &&& forall|i: int| 0 <= i < players.len() ==> (#[trigger] players[i]).world != 0
    &&& forall|i: int, j: int|
        0 <= i < j < players.len() ==> (#[trigger] players[i]).world != (#[trigger] players[j]).world
}

/// The invariant of a session: the save data buffer has the size of a save
/// file, and the item queue fits the game's 16-bit item counter.
pub open spec fn session_wf(m: SessionModel) -> bool {
    &&& m.save.len() == SAVE_DATA_SIZE
    &&& m.queue.len() <= 0xffff
    &&& players_wf(m.players)
}

/// The packet that hands the game an item.
pub open spec fn get_item_packet_bytes(item: u16) -> Seq<u8> {
    seq![2u8] + be16(item) + zeros(13)
}

/// The packet that tells the game another player's name and progressive items.
pub open spec fn player_data_packet_bytes(p: PlayerData) -> Seq<u8> {
    seq![1u8, p.world] + p.name.0@ + be32(p.progressive_items) + zeros(2)
}

pub open spec fn sends(a: EverDriveAction, bytes: Seq<u8>) -> bool {
    a matches EverDriveAction::Send(b) && b@ == bytes
}

/// `actions` send the data of each of `players`, in order.
pub open spec fn sends_players(actions: Seq<EverDriveAction>, players: Seq<PlayerData>) -> bool {
    actions.len() == players.len() && forall|i: int|
        0 <= i < players.len() ==> sends(#[trigger] actions[i], player_data_packet_bytes(players[i]))
}

/// Handing the game its next item: the item at position `count` of the queue,
/// if there is one, which advances the count by one.
pub open spec fn delivers_next(
    queue: Seq<u16>,
    count: u16,
    actions: Seq<EverDriveAction>,
    new_count: u16,
    sent: bool,
) -> bool {
    if count < queue.len() {
        &&& sent
        &&& new_count == count + 1
        &&& actions.len() == 1
        &&& sends(actions[0], get_item_packet_bytes(queue[count as int]))
    } else {
        &&& !sent
        &&& new_count == count
        &&& actions.len() == 0
    }
}

/// The game reports being in game with `count` items received. Outside the game
/// this sends the cached player data (and forgets it), then the next item; in
/// game it only takes the new count.
pub open spec fn enters_game(
    old: SessionModel,
    count: u16,
    new: SessionModel,
    actions: Seq<EverDriveAction>,
) -> bool {
    &&& new.queue == old.queue
    &&& new.legacy_in_game == old.legacy_in_game
    &&& match old.state {
        SessionState::InGame { item_pending, .. } => {
            &&& new.state == SessionState::InGame { internal_count: count, item_pending }
            &&& new.players == old.players
            &&& actions.len() == 0
        },
        _ => {
            let n = old.players.len() as int;
            &&& new.players == Seq::<PlayerData>::empty()
            &&& actions.len() >= n
            &&& sends_players(actions.take(n), old.players)
            &&& new.state matches SessionState::InGame { internal_count, item_pending }
                && delivers_next(old.queue, count, actions.skip(n), internal_count, item_pending)
        },
    }
}

/// The number of bytes that follow a packet with this header.
pub open spec fn extra_len_spec(legacy_in_game: bool, h: Seq<u8>) -> nat {
    if h[0] == 0x02 && !legacy_in_game {
        185
    } else if h[0] == 0x05 {
        3
    } else if h[0] == 0x06 && h[1] < 10 {
        486
    } else {
        0
    }
}

/// The error that a packet with this header ends the session with, if any.
pub open spec fn packet_error(h: Seq<u8>) -> Option<EverDriveError> {
    if h[0] == 0x03 && h[11] == 0 {
        Some(EverDriveError::PlayerId)
    } else if h[0] == 0x06 && h[1] >= 10 {
        Some(EverDriveError::SaveDataSegment(h[1]))
    } else if h[0] > 0x06 {
        Some(EverDriveError::UnknownCommand(h[0]))
    } else {
        None
    }
}

/// The save data segment `i` starts here.
pub open spec fn segment_start(i: u8) -> int {
    500 * i + 200
}

/// What a packet (header `h`, followed by the bytes `x`) does to a session that
/// it does not end.
pub open spec fn packet_effect(
    old: SessionModel,
    h: Seq<u8>,
    x: Seq<u8>,
    new: SessionModel,
    actions: Seq<EverDriveAction>,
) -> bool {
    if h[0] == 0x00 {
        // ping
        new == old && actions.len() == 0
    } else if h[0] == 0x01 {
        // file select, with the file's name
        &&& new == SessionModel { state: SessionState::FileSelect, ..old }
        &&& actions.len() == 1
        &&& actions[0] matches EverDriveAction::Report(ClientMessage::PlayerName(f))
        &&& f.0@ == h.subrange(1, 9)
    } else if h[0] == 0x02 {
        // in game
        if old.legacy_in_game {
            new.save == old.save && enters_game(old, be_value(h.subrange(1, 3)) as u16, new, actions)
        } else {
            &&& new == SessionModel { save: h.subrange(1, 16) + x + old.save.skip(200), ..old }
            &&& actions.len() == 0
        }
    } else if h[0] == 0x03 {
        // an item found in this world
        &&& new == old
        &&& actions.len() == 1
        &&& actions[0] matches EverDriveAction::Report(
            ClientMessage::SendItem { key, kind, target_world },
        )
        &&& key == be_value(h.subrange(1, 9))
        &&& kind == be_value(h.subrange(9, 11))
        &&& target_world == h[11]
    } else if h[0] == 0x04 {
        // the pending item has been received
        match old.state {
            SessionState::InGame { internal_count, item_pending } => {
                &&& new.queue == old.queue
                &&& new.players == old.players
                &&& new.save == old.save
                &&& new.legacy_in_game == old.legacy_in_game
                &&& new.state matches SessionState::InGame { internal_count: c, item_pending: p }
                    && delivers_next(
                    old.queue,
                    internal_count,
                    actions,
                    c,
                    internal_count < old.queue.len(),
                ) && p == (item_pending && internal_count < old.queue.len())
            },
            _ => new == old && actions.len() == 0,
        }
    } else if h[0] == 0x05 {
        // where the dungeon rewards are
        let b = h + x;
        &&& new == old
        &&& actions.len() == 1
        &&& actions[0] matches EverDriveAction::Report(
            ClientMessage::DungeonRewardInfo {
                emerald,
                ruby,
                sapphire,
                light,
                forest,
                fire,
                water,
                shadow,
                spirit,
            },
        )
        &&& reward_location_matches(emerald, b, 1)
        &&& reward_location_matches(ruby, b, 3)
        &&& reward_location_matches(sapphire, b, 5)
        &&& reward_location_matches(light, b, 7)
        &&& reward_location_matches(forest, b, 9)
        &&& reward_location_matches(fire, b, 11)
        &&& reward_location_matches(water, b, 13)
        &&& reward_location_matches(shadow, b, 15)
        &&& reward_location_matches(spirit, b, 17)
    } else {
        // a segment of the save data
        let s = segment_start(h[1]);
        let save = old.save.take(s) + h.subrange(2, 16) + x + old.save.skip(s + 500);
        let n = actions.len() as int;
        &&& new.save == save
        &&& n >= 1
        &&& actions[n - 1] matches EverDriveAction::Report(ClientMessage::SaveData(d))
        &&& d@ == save
        &&& if h[1] == 9 {
            enters_game(old, be_value(save.subrange(0x90, 0x92)) as u16, new, actions.take(n - 1))
        } else {
            new == SessionModel { save, ..old } && n == 1
        }
    }
}

/// The app's messages a session accepts: an item queue that fits the game's
/// 16-bit item counter, and player data for a world other than 0.
pub open spec fn server_message_ok(m: SessionModel, msg: ServerMessage) -> bool {
    match msg {
        ServerMessage::ItemQueue(q) => q@.len() <= 0xffff,
        ServerMessage::GetItem(_) => m.queue.len() < 0xffff,
        ServerMessage::PlayerName(world, _) => world != 0,
        ServerMessage::ProgressiveItems(world, _) => world != 0,
    }
}

/// `f` is the name of an unnamed file.
pub open spec fn is_default_filename(f: Filename) -> bool {
    f.0@ == Seq::new(8, |i: int| FILENAME_DEFAULT_BYTE)
}

pub open spec fn has_player(players: Seq<PlayerData>, world: u8) -> bool {
    exists|i: int| 0 <= i < players.len() && (#[trigger] players[i]).world == world
}

/// The position of the entry for `world`.
pub open spec fn player_index(players: Seq<PlayerData>, world: u8) -> int {
    choose|i: int| 0 <= i < players.len() && (#[trigger] players[i]).world == world
}

/// `new` is `old` with the entry for `entry.world` replaced by `entry`, or with
/// `entry` added where there was none.
pub open spec fn upserted(old: Seq<PlayerData>, new: Seq<PlayerData>, entry: PlayerData) -> bool {
    if has_player(old, entry.world) {
        new == old.update(player_index(old, entry.world), entry)
    } else {
        new == old.push(entry)
    }
}

/// The item queue changed: in game with no item pending, the next item goes out.
pub open spec fn queue_changed(
    old: SessionModel,
    queue: Seq<u16>,
    new: SessionModel,
    actions: Seq<EverDriveAction>,
) -> bool {
    &&& new.queue == queue
    &&& new.players == old.players
    &&& new.save == old.save
    &&& new.legacy_in_game == old.legacy_in_game
    &&& match old.state {
        SessionState::InGame { internal_count, item_pending: false } => new.state matches SessionState::InGame {
            internal_count: c,
            item_pending: p,
        } && delivers_next(queue, internal_count, actions, c, p),
        _ => new.state == old.state && actions.len() == 0,
    }
}

/// What a message from the app does to a session.
pub open spec fn server_message_effect(
    old: SessionModel,
    msg: ServerMessage,
    new: SessionModel,
    actions: Seq<EverDriveAction>,
) -> bool {
    match msg {
        ServerMessage::ItemQueue(q) => queue_changed(old, q@, new, actions),
        ServerMessage::GetItem(item) => queue_changed(old, old.queue.push(item), new, actions),
        ServerMessage::PlayerName(world, name) => {
            let entry = PlayerData {
                world,
                name,
                progressive_items: if has_player(old.players, world) {
                    old.players[player_index(old.players, world)].progressive_items
                } else {
                    0
                },
            };
            &&& new == SessionModel { players: new.players, ..old }
            &&& upserted(old.players, new.players, entry)
            &&& actions.len() == 1
            &&& sends(actions[0], player_data_packet_bytes(entry))
        },
        ServerMessage::ProgressiveItems(world, progressive_items) => {
            &&& new == SessionModel { players: new.players, ..old }
            &&& actions.len() == 1
            &&& exists|entry: PlayerData|
                {
                    &&& entry.world == world
                    &&& entry.progressive_items == progressive_items
                    &&& if has_player(old.players, world) {
                        entry.name == old.players[player_index(old.players, world)].name
                    } else {
                        is_default_filename(entry.name)
                    }
                    &&& upserted(old.players, new.players, entry)
                    &&& sends(actions[0], player_data_packet_bytes(entry))
                }
        },
    }
}

/// Copies `src[from..from + len]` over `dst[at..at + len]`.
pub fn copy_into(dst: &mut Vec<u8>, at: usize, src: &[u8], from: usize, len: usize)
    requires
        at + len <= old(dst)@.len(),
        from + len <= src.len(),
    ensures
        final(dst)@ == old(dst)@.take(at as int) + src@.subrange(from as int, from + len) + old(
            dst,
        )@.skip(at + len),
{
    let mut i: usize = 0;
    while i < len
        invariant
            i <= len,
            at + len <= dst.len(),
            from + len <= src.len(),
            dst@.len() == old(dst)@.len(),
            forall|k: int| 0 <= k < at ==> dst@[k] == old(dst)@[k],
            forall|k: int| at + len <= k < dst@.len() ==> dst@[k] == old(dst)@[k],
            forall|k: int| at <= k < at + i ==> dst@[k] == src@[from + k - at],
            forall|k: int| at + i <= k < at + len ==> dst@[k] == old(dst)@[k],
        decreases len - i,
    {
        dst[at + i] = src[from + i];
        i = i + 1;
    }
    assert(dst@ =~= old(dst)@.take(at as int) + src@.subrange(from as int, from + len) + old(
        dst,
    )@.skip(at + len));
}

impl EverDriveSession {
    /// A session with a game that has completed the handshake.
    pub fn new(version: DeviceVersion) -> (r: EverDriveSession)
        ensures
            session_wf(r@),
            r.state == SessionState::Handshake,
            r.legacy_in_game == sends_legacy_in_game_packet(version),
            r@.players.len() == 0,
            r@.queue.len() == 0,
            forall|i: int| 0 <= i < SAVE_DATA_SIZE ==> r@.save[i] == 0,
    {
        let mut save_data: Vec<u8> = Vec::new();
        let mut i: usize = 0;
        while i < SAVE_DATA_SIZE
            invariant
                i <= SAVE_DATA_SIZE,
                save_data@.len() == i,
                forall|k: int| 0 <= k < i ==> save_data@[k] == 0,
            decreases SAVE_DATA_SIZE - i,
        {
            save_data.push(0);
            i = i + 1;
        }
        EverDriveSession {
            state: SessionState::Handshake,
            legacy_in_game: version.sends_legacy_in_game_packet(),
            player_data: Vec::new(),
            save_data,
            queue: Vec::new(),
        }
    }

    /// How many bytes follow a packet with this header, to be read before the
    /// packet is handled.
    pub fn extra_len(&self, header: &[u8; 16]) -> (r: usize)
        ensures
            r == extra_len_spec(self.legacy_in_game, header@),
    {
        if header[0] == 0x02 && !self.legacy_in_game {
            185
        } else if header[0] == 0x05 {
            3
        } else if header[0] == 0x06 && header[1] < 10 {
            486
        } else {
            0
        }
    }

    /// Hands the game the item at position `count` of `queue`, if there is one.
    fn deliver_next(queue: &Vec<u16>, count: u16, actions: &mut Vec<EverDriveAction>) -> (r: (
        u16,
        bool,
    ))
        requires
            queue@.len() <= 0xffff,
        ensures
            final(actions)@.len() >= old(actions)@.len(),
            final(actions)@.take(old(actions)@.len() as int) == old(actions)@,
            delivers_next(
                queue@,
                count,
                final(actions)@.skip(old(actions)@.len() as int),
                r.0,
                r.1,
            ),
    {
        let ghost before = actions@;
        if (count as usize) < queue.len() {
            let item = queue[count as usize];
            let b = u16_to_be(item);
            let packet: [u8; 16] = [2, b[0], b[1], 0, 0, 0, 0, 0, 0, 0, 0, 0, 0, 0, 0, 0];
            assert(packet@ =~= get_item_packet_bytes(item));
            actions.push(EverDriveAction::Send(packet));
            assert(actions@.take(before.len() as int) =~= before);
            assert(actions@.skip(before.len() as int) =~= seq![EverDriveAction::Send(packet)]);
            (count + 1, true)
        } else {
            assert(actions@.take(before.len() as int) =~= before);
            assert(actions@.skip(before.len() as int) =~= Seq::<EverDriveAction>::empty());
            (count, false)
        }
    }

    /// The packet with another player's data.
    fn player_data_packet(p: &PlayerData) -> (r: [u8; 16])
        ensures
            r@ == player_data_packet_bytes(*p),
    {
        let n = p.name.0;
        let b = u32_to_be(p.progressive_items);
        let r: [u8; 16] = [1, p.world, n[0], n[1], n[2], n[3], n[4], n[5], n[6], n[7], b[0], b[1], b[2], b[3], 0, 0];
        assert(r@ =~= player_data_packet_bytes(*p));
        r
    }

    /// The game reports being in game with `count` items received.
    fn enter_game(&mut self, count: u16, actions: &mut Vec<EverDriveAction>)
        requires
            session_wf(old(self)@),
        ensures
            session_wf(final(self)@),
            final(self)@.save == old(self)@.save,
            final(actions)@.len() >= old(actions)@.len(),
            final(actions)@.take(old(actions)@.len() as int) == old(actions)@,
            enters_game(old(self)@, count, final(self)@, final(actions)@.skip(old(actions)@.len() as int)),
    {
        let ghost before = actions@;
        let ghost old_model = self@;
        match self.state {
            SessionState::InGame { item_pending, .. } => {
                self.state = SessionState::InGame { internal_count: count, item_pending };
                assert(actions@.take(before.len() as int) =~= before);
                assert(actions@.skip(before.len() as int) =~= Seq::<EverDriveAction>::empty());
            },
            _ => {
                let mut i: usize = 0;
                while i < self.player_data.len()
                    invariant
                        i <= self.player_data@.len(),
                        self@ == old_model,
                        actions@.len() == before.len() + i,
                        actions@.take(before.len() as int) == before,
                        forall|k: int|
                            0 <= k < i ==> sends(
                                #[trigger] actions@[before.len() + k],
                                player_data_packet_bytes(self.player_data@[k]),
                            ),
                    decreases self.player_data@.len() - i,
                {
                    let packet = Self::player_data_packet(&self.player_data[i]);
                    actions.push(EverDriveAction::Send(packet));
                    assert(actions@.take(before.len() as int) =~= before);
                    i = i + 1;
                }
                let ghost mid = actions@;
                self.player_data = Vec::new();
                let (c, sent) = Self::deliver_next(&self.queue, count, actions);
                self.state = SessionState::InGame { internal_count: c, item_pending: sent };
                proof {
                    let n = old_model.players.len() as int;
                    let all = actions@.skip(before.len() as int);
                    assert(mid.take(before.len() as int) =~= before);
                    assert(all.take(n) =~= mid.skip(before.len() as int)) by {
                        assert(actions@.take(mid.len() as int) == mid);
                    }
                    assert(all.skip(n) =~= actions@.skip(mid.len() as int));
                    assert(actions@.take(before.len() as int) =~= before) by {
                        assert(actions@.take(mid.len() as int) == mid);
                    }
                    assert forall|k: int| 0 <= k < n implies sends(
                        #[trigger] all.take(n)[k],
                        player_data_packet_bytes(old_model.players[k]),
                    ) by {
                        assert(all.take(n)[k] == mid[before.len() + k]);
                    }
                }
            },
        }
    }

    /// The position of the entry for `world` in the player data, if any.
    fn find_player(&self, world: u8) -> (r: Option<usize>)
        requires
            players_wf(self@.players),
        ensures
            r is Some <==> has_player(self@.players, world),
            r matches Some(i) ==> i == player_index(self@.players, world) && i < self@.players.len(),
    {
        let mut i: usize = 0;
        while i < self.player_data.len()
            invariant
                i <= self.player_data@.len(),
                players_wf(self@.players),
                forall|k: int| 0 <= k < i ==> (#[trigger] self.player_data@[k]).world != world,
            decreases self.player_data@.len() - i,
        {
            if self.player_data[i].world == world {
                let ghost j = player_index(self@.players, world);
                assert(self@.players[i as int].world == world);
                assert(has_player(self@.players, world));
                assert(0 <= j < self@.players.len() && self@.players[j].world == world);
                assert(j == i) by {
                    if j != i {
                        if j < i {
                            assert(self.player_data@[j].world != world);
                        } else {
                            assert(self@.players[i as int].world != self@.players[j].world);
                        }
                    }
                }
                return Some(i);
            }
            i = i + 1;
        }
        None
    }

    /// Replaces or adds the entry for `entry.world`.
    fn upsert_player(&mut self, entry: PlayerData)
        requires
            players_wf(old(self)@.players),
            entry.world != 0,
        ensures
            upserted(old(self)@.players, final(self)@.players, entry),
            players_wf(final(self)@.players),
            final(self)@ == (SessionModel { players: final(self)@.players, ..old(self)@ }),
    {
        match self.find_player(entry.world) {
            Some(i) => {
                self.player_data.set(i, entry);
            },
            None => {
                self.player_data.push(entry);
            },
        }
    }

    /// Handles a message from the app, returning the packets to send.
    pub fn on_server_message(&mut self, msg: ServerMessage) -> (actions: Vec<EverDriveAction>)
        requires
            session_wf(old(self)@),
            server_message_ok(old(self)@, msg),
        ensures
            session_wf(final(self)@),
            server_message_effect(old(self)@, msg, final(self)@, actions@),
            forall|i: int| 0 <= i < actions@.len() ==> (#[trigger] actions@[i]) is Send,
    {
        let mut actions: Vec<EverDriveAction> = Vec::new();
        match msg {
            ServerMessage::ItemQueue(q) => {
                self.queue = q;
                self.deliver_if_idle(&mut actions);
            },
            ServerMessage::GetItem(item) => {
                self.queue.push(item);
                self.deliver_if_idle(&mut actions);
            },
            ServerMessage::PlayerName(world, name) => {
                let progressive_items = match self.find_player(world) {
                    Some(i) => self.player_data[i].progressive_items,
                    None => 0,
                };
                let entry = PlayerData { world, name, progressive_items };
                self.upsert_player(entry);
                actions.push(EverDriveAction::Send(Self::player_data_packet(&entry)));
            },
            ServerMessage::ProgressiveItems(world, progressive_items) => {
                let name = match self.find_player(world) {
                    Some(i) => self.player_data[i].name,
                    None => {
                        let f = Filename([FILENAME_DEFAULT_BYTE; 8]);
                        assert(f.0@ =~= Seq::new(8, |i: int| FILENAME_DEFAULT_BYTE));
                        f
                    },
                };
                let entry = PlayerData { world, name, progressive_items };
                self.upsert_player(entry);
                actions.push(EverDriveAction::Send(Self::player_data_packet(&entry)));
            },
        }
        actions
    }

    /// In game with no item pending, hands the game its next item.
    fn deliver_if_idle(&mut self, actions: &mut Vec<EverDriveAction>)
        requires
            old(self)@.queue.len() <= 0xffff,
            old(actions)@.len() == 0,
        ensures
            queue_changed(old(self)@, old(self)@.queue, final(self)@, final(actions)@),
            forall|i: int| 0 <= i < final(actions)@.len() ==> (#[trigger] final(actions)@[i]) is Send,
    {
        match self.state {
            SessionState::InGame { internal_count, item_pending: false } => {
                let (c, sent) = Self::deliver_next(&self.queue, internal_count, actions);
                assert(actions@.skip(0) =~= actions@);
                self.state = SessionState::InGame { internal_count: c, item_pending: sent };
            },
            _ => {},
        }
    }

    /// Handles a packet from the game: its 16-byte header and the `extra_len`
    /// bytes that follow it. Returns what to send and what to report, or the
    /// error that ends the session (leaving the session unchanged).
    pub fn handle_packet(&mut self, header: &[u8; 16], extra: &[u8]) -> (r: Result<
        Vec<EverDriveAction>,
        EverDriveError,
    >)
        requires
            session_wf(old(self)@),
            extra@.len() == extra_len_spec(old(self).legacy_in_game, header@),
        ensures
            session_wf(final(self)@),
            r is Err ==> final(self)@ == old(self)@,
            r matches Err(e) ==> packet_error(header@) == Some(e),
            r is Ok ==> packet_error(header@) is None,
            r matches Ok(actions) ==> packet_effect(old(self)@, header@, extra@, final(self)@, actions@),
    {
        let cmd = header[0];
        let mut actions: Vec<EverDriveAction> = Vec::new();
        if cmd == 0x00 {
            Ok(actions)
        } else if cmd == 0x01 {
            self.state = SessionState::FileSelect;
            let f = Filename([header[1], header[2], header[3], header[4], header[5], header[6], header[7], header[8]]);
            assert(f.0@ =~= header@.subrange(1, 9));
            actions.push(EverDriveAction::Report(ClientMessage::PlayerName(f)));
            Ok(actions)
        } else if cmd == 0x02 {
            if self.legacy_in_game {
                let count = read_be16(header.as_slice(), 1);
                self.enter_game(count, &mut actions);
                assert(actions@.skip(0) =~= actions@);
            } else {
                let ghost old_save = self.save_data@;
                copy_into(&mut self.save_data, 0, header.as_slice(), 1, 15);
                copy_into(&mut self.save_data, 15, extra, 0, 185);
                assert(self.save_data@ =~= header@.subrange(1, 16) + extra@ + old_save.skip(200));
            }
            Ok(actions)
        } else if cmd == 0x03 {
            if header[11] == 0 {
                return Err(EverDriveError::PlayerId);
            }
            let key = read_be(header.as_slice(), 1, 8);
            let kind = read_be16(header.as_slice(), 9);
            actions.push(
                EverDriveAction::Report(ClientMessage::SendItem { key, kind, target_world: header[11] }),
            );
            Ok(actions)
        } else if cmd == 0x04 {
            match self.state {
                SessionState::InGame { internal_count, item_pending } => {
                    let (c, sent) = Self::deliver_next(&self.queue, internal_count, &mut actions);
                    assert(actions@.skip(0) =~= actions@);
                    self.state = SessionState::InGame { internal_count: c, item_pending: item_pending && sent };
                },
                _ => {}
            }
            Ok(actions)
        } else if cmd == 0x05 {
            let mut all: Vec<u8> = Vec::new();
            let mut i: usize = 0;
            while i < 16
                invariant
                    i <= 16,
                    all@ == header@.take(i as int),
                decreases 16 - i,
            {
                all.push(header[i]);
                i = i + 1;
                assert(all@ =~= header@.take(i as int));
            }
            let mut j: usize = 0;
            while j < 3
                invariant
                    j <= 3,
                    extra@.len() == 3,
                    all@ == header@ + extra@.take(j as int),
                decreases 3 - j,
            {
                all.push(extra[j]);
                j = j + 1;
                assert(all@ =~= header@ + extra@.take(j as int));
            }
            assert(extra@.take(3) =~= extra@);
            actions.push(EverDriveAction::Report(dungeon_reward_info(all.as_slice(), 1)));
            Ok(actions)
        } else if cmd == 0x06 {
            let idx = header[1];
            if idx >= 10 {
                return Err(EverDriveError::SaveDataSegment(idx));
            }
            let start: usize = 500 * (idx as usize) + 200;
            let ghost old_model = self@;
            copy_into(&mut self.save_data, start, header.as_slice(), 2, 14);
            copy_into(&mut self.save_data, start + 14, extra, 0, 486);
            let ghost save = old_model.save.take(start as int) + header@.subrange(2, 16) + extra@
                + old_model.save.skip(start + 500);
            assert(self.save_data@ =~= save);
            if idx == 9 {
                let count = read_be16(self.save_data.as_slice(), 0x90);
                self.enter_game(count, &mut actions);
                assert(actions@.skip(0) =~= actions@);
            }
            let ghost before = actions@;
            let copy = self.save_data.clone();
            assert(copy@ =~= self.save_data@);
            actions.push(EverDriveAction::Report(ClientMessage::SaveData(copy)));
            assert(actions@.take(actions@.len() - 1) =~= before);
            Ok(actions)
        } else {
            Err(EverDriveError::UnknownCommand(cmd))
        }
    }
}

/// Putting an entry for a world other than 0 into a list of players keeps the
/// list free of duplicates, and the entry is then the one found for its world.
pub proof fn lemma_upserted_entry(old: Seq<PlayerData>, new: Seq<PlayerData>, entry: PlayerData)
    requires
        players_wf(old),
        entry.world != 0,
        upserted(old, new, entry),
    ensures
        players_wf(new),
        has_player(new, entry.world),
        new[player_index(new, entry.world)] == entry,
{
    if has_player(old, entry.world) {
        let k = player_index(old, entry.world);
        assert forall|i: int, j: int| 0 <= i < j < new.len() implies (#[trigger] new[i]).world
            != (#[trigger] new[j]).world by {
            if i != k && j != k {
                assert(old[i].world != old[j].world);
            } else if i == k {
                assert(old[j].world != old[k].world);
            } else {
                assert(old[i].world != old[k].world);
            }
        }
        assert(new[k].world == entry.world);
    } else {
        let n = old.len() as int;
        assert forall|i: int, j: int| 0 <= i < j < new.len() implies (#[trigger] new[i]).world
            != (#[trigger] new[j]).world by {
            if j == n {
                assert(new[i] == old[i]);
                assert(!(0 <= i < old.len() && old[i].world == entry.world));
            } else {
                assert(old[i].world != old[j].world);
            }
        }
        assert(new[n].world == entry.world);
    }
    let c = player_index(new, entry.world);
    if has_player(old, entry.world) {
        let k = player_index(old, entry.world);
        if c != k {
            assert(new[c].world != new[k].world);
        }
    } else {
        let n = old.len() as int;
        if c != n {
            assert(new[c].world != new[n].world);
        }
    }
}

/// Whatever order the app sends a world's player name and progressive items
/// in, the session ends up with an entry for that world holding both: the
/// second message keeps what the first one set.
pub proof fn lemma_player_name_and_items_both_kept(
    m0: SessionModel,
    world: u8,
    name: Filename,
    items: u32,
    name_first: bool,
    m1: SessionModel,
    a1: Seq<EverDriveAction>,
    m2: SessionModel,
    a2: Seq<EverDriveAction>,
)
    requires
        session_wf(m0),
        world != 0,
        server_message_effect(
            m0,
            if name_first {
                ServerMessage::PlayerName(world, name)
            } else {
                ServerMessage::ProgressiveItems(world, items)
            },
            m1,
            a1,
        ),
        server_message_effect(
            m1,
            if name_first {
                ServerMessage::ProgressiveItems(world, items)
            } else {
                ServerMessage::PlayerName(world, name)
            },
            m2,
            a2,
        ),
    ensures
        players_wf(m2.players),
        has_player(m2.players, world),
        m2.players[player_index(m2.players, world)].name == name,
        m2.players[player_index(m2.players, world)].progressive_items == items,
{
    if name_first {
        let e1 = PlayerData {
            world,
            name,
            progressive_items: if has_player(m0.players, world) {
                m0.players[player_index(m0.players, world)].progressive_items
            } else {
                0
            },
        };
        lemma_upserted_entry(m0.players, m1.players, e1);
        let e2 = choose|entry: PlayerData|
            {
                &&& entry.world == world
                &&& entry.progressive_items == items
                &&& if has_player(m1.players, world) {
                    entry.name == m1.players[player_index(m1.players, world)].name
                } else {
                    is_default_filename(entry.name)
                }
                &&& upserted(m1.players, m2.players, entry)
                &&& sends(a2[0], player_data_packet_bytes(entry))
            };
        lemma_upserted_entry(m1.players, m2.players, e2);
    } else {
        let e1 = choose|entry: PlayerData|
            {
                &&& entry.world == world
                &&& entry.progressive_items == items
                &&& if has_player(m0.players, world) {
                    entry.name == m0.players[player_index(m0.players, world)].name
                } else {
                    is_default_filename(entry.name)
                }
                &&& upserted(m0.players, m1.players, entry)
                &&& sends(a1[0], player_data_packet_bytes(entry))
            };
        lemma_upserted_entry(m0.players, m1.players, e1);
        let e2 = PlayerData {
            world,
            name,
            progressive_items: m1.players[player_index(m1.players, world)].progressive_items,
        };
        lemma_upserted_entry(m1.players, m2.players, e2);
    }
}

/// A dungeon reward packet (command 0x05: 16 bytes, then 3 more) reports
/// where each of the nine rewards is, in the order emerald, ruby, sapphire,
/// light, forest, fire, water, shadow, spirit: reward `k` is read from the
/// world byte `2k + 1` and the area byte `2k + 2` (the command byte at 0 is
/// skipped). It is known exactly when the world is not 0 and the area byte
/// names a hint area (1 to 36, the area's number plus one); the session is
/// left as it was.
pub proof fn lemma_reward_packet_layout(
    old: SessionModel,
    h: Seq<u8>,
    x: Seq<u8>,
    new: SessionModel,
    actions: Seq<EverDriveAction>,
)
    requires
        h.len() == 16,
        x.len() == 3,
        h[0] == 0x05,
        packet_effect(old, h, x, new, actions),
    ensures
        new == old,
        actions.len() == 1,
        actions[0] matches EverDriveAction::Report(
            ClientMessage::DungeonRewardInfo { emerald, ruby, sapphire, light, forest, fire, water, shadow, spirit },
        ) && ({
            let locs = seq![emerald, ruby, sapphire, light, forest, fire, water, shadow, spirit];
            let b = h + x;
            forall|k: int|
                0 <= k < 9 ==> {
                    &&& (#[trigger] locs[k] is Some <==> (b[2 * k + 1] != 0 && 1 <= b[2 * k + 2] <= 36))
                    &&& (locs[k] matches Some((w, a)) ==> w == b[2 * k + 1] && hint_area_index(a) + 1 == b[2 * k + 2])
                }
        }),
{
    let b = h + x;
    if let EverDriveAction::Report(
        ClientMessage::DungeonRewardInfo { emerald, ruby, sapphire, light, forest, fire, water, shadow, spirit },
    ) = actions[0] {
        let locs = seq![emerald, ruby, sapphire, light, forest, fire, water, shadow, spirit];
        assert forall|k: int| 0 <= k < 9 implies {
            &&& (#[trigger] locs[k] is Some <==> (b[2 * k + 1] != 0 && 1 <= b[2 * k + 2] <= 36))
            &&& (locs[k] matches Some((w, a)) ==> w == b[2 * k + 1] && hint_area_index(a) + 1 == b[2 * k + 2])
        } by {
            assert(reward_location_matches(locs[k], b, 2 * k + 1));
        }
    }
}

/// A file select packet (0x01) reports the file's name, bytes 1 to 8, and
/// puts the session at the file select screen; an item packet (0x03)
/// reports the item: its key is bytes 1 to 8 and its kind bytes 9 and 10, most
/// significant first, and its receiving world byte 11.
pub proof fn lemma_name_and_item_packet_layout(
    old: SessionModel,
    h: Seq<u8>,
    x: Seq<u8>,
    new: SessionModel,
    actions: Seq<EverDriveAction>,
)
    requires
        h.len() == 16,
        packet_effect(old, h, x, new, actions),
    ensures
        h[0] == 0x01 ==> {
            &&& new.state == SessionState::FileSelect
            &&& new.queue == old.queue
            &&& actions.len() == 1
            &&& actions[0] matches EverDriveAction::Report(ClientMessage::PlayerName(f))
                && f.0@ == seq![h[1], h[2], h[3], h[4], h[5], h[6], h[7], h[8]]
        },
        h[0] == 0x03 ==> {
            &&& new == old
            &&& actions.len() == 1
            &&& actions[0] matches EverDriveAction::Report(ClientMessage::SendItem { key, kind, target_world })
                && key == be_value(seq![h[1], h[2], h[3], h[4], h[5], h[6], h[7], h[8]])
                && kind == h[9] * 256 + h[10]
                && target_world == h[11]
        },
{
    assert(h.subrange(1, 9) =~= seq![h[1], h[2], h[3], h[4], h[5], h[6], h[7], h[8]]);
    let k = h.subrange(9, 11);
    assert(k.drop_last() =~= seq![h[9]]);
    assert(seq![h[9]].drop_last() =~= Seq::<u8>::empty());
    assert(be_value(Seq::<u8>::empty()) == 0);
    assert(seq![h[9]].last() == h[9]);
    assert(be_value(seq![h[9]]) == h[9]);
    assert(k.last() == h[10]);
    assert(be_value(k) == h[9] * 256 + h[10]);
}

/// The packets the app sends the game are 16 bytes long. A player data
/// packet is command 0x01, the world, the 8 bytes of the file name and the
/// progressive items as 4 bytes, most significant first, then zeros; an item
/// packet is command 0x02 and the item as 2 bytes, most significant first,
/// then zeros.
pub proof fn lemma_outgoing_packet_layout(p: PlayerData, item: u16)
    ensures
        ({
            let b = player_data_packet_bytes(p);
            &&& b.len() == 16
            &&& b[0] == 0x01
            &&& b[1] == p.world
            &&& b.subrange(2, 10) == p.name.0@
            &&& be_value(b.subrange(10, 14)) == p.progressive_items
            &&& b[14] == 0 && b[15] == 0
        }),
        ({
            let b = get_item_packet_bytes(item);
            &&& b.len() == 16
            &&& b[0] == 0x02
            &&& be_value(b.subrange(1, 3)) == item
            &&& forall|k: int| 3 <= k < 16 ==> b[k] == 0
        }),
{
    let b = player_data_packet_bytes(p);
    assert(p.name.0@.len() == 8);
    assert(b.subrange(2, 10) =~= p.name.0@);
    assert(b.subrange(10, 14) =~= be32(p.progressive_items));
    lemma_be32_roundtrip(p.progressive_items);
    let g = get_item_packet_bytes(item);
    assert(g.subrange(1, 3) =~= be16(item));
    lemma_be16_roundtrip(item);
}

} // verus!
