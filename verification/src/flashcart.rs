//! The USB protocol spoken with a flashcart (SummerCart64 and the like) running a
//! randomized seed: typed messages of any length, an acknowledged outbox of
//! messages to the game, and the session that relays items.
use vstd::prelude::*;
use crate::hint_area::hint_area_index;
use crate::bytes::{be_value, be16, be32, lemma_be16_roundtrip, lemma_be32_roundtrip, read_be, read_be16, u16_to_be, u32_to_be};
use crate::everdrive::{
    DeviceVersion, FILENAME_DEFAULT_BYTE, HandshakeReply, PlayerData, has_player, hash_icons_match,
    hash_icons_valid, is_default_filename, lemma_upserted_entry, player_index, players_wf, read_file_hash, upserted,
};
use crate::frontend::{
    ClientMessage, Filename, SAVE_DATA_SIZE, ServerMessage, dungeon_reward_info,
    reward_location_matches,
};

verus! {

/// The version of the flashcart protocol spoken here.
pub const FLASHCART_PROTOCOL_VERSION: u8 = 3;

/// The kind of a USB message.
#[derive(Clone, Copy, Debug, PartialEq, Eq, Structural)]
pub enum UsbDataType {
    Text,
    RawBinary,
    Heartbeat,
    Handshake,
    Reset,
    SaveFilename,
    IngameState,
    SendItem,
    ItemGiven,
    AckMessage,
    PlayerNames,
    DungeonRewards,
    Unrecoverable,
    /// Any other kind, by its number.
    Other(u8),
}

/// Why a flashcart connection failed or a message from it was refused.
#[derive(Clone, Copy, Debug)]
pub enum FlashcartError {
    /// The game reported a randomizer branch the app does not know.
    Branch(u8),
    /// The game reported a hash icon number past the last icon.
    HashIcon,
    /// The game reported world 0.
    PlayerId,
    /// The handshake reply was a message of another kind.
    UnknownReplyHeader(UsbDataType),
    /// The handshake reply starts with these bytes, which mean nothing to the app.
    UnknownReply([u8; 4]),
    /// The handshake reply has this length instead of 16.
    UnknownReplyLength(usize),
    /// The app could not answer the handshake.
    FailedReply,
    /// The game sent a message of a kind the app does not handle.
    UnknownCommand(UsbDataType),
    /// An item was reported as received while not in game.
    ReadFail,
}

/// `OoTR` and the protocol version.
pub open spec fn is_flashcart_game_reply(r: Seq<u8>) -> bool {
    r.len() == 16 && r[0] == 0x4f && r[1] == 0x6f && r[2] == 0x54 && r[3] == 0x52 && r[4]
        == FLASHCART_PROTOCOL_VERSION
}

/// `MW`, the protocol version, and the two options the app enables.
pub open spec fn flashcart_handshake_response_bytes() -> Seq<u8> {
    seq![0x4du8, 0x57, FLASHCART_PROTOCOL_VERSION, 1, 1]
}

/// The first step of the handshake: whether the reply asks for the app's
/// response (the bytes to send, as a `Handshake` message), or fails.
pub fn check_handshake_reply(datatype: UsbDataType, data: &Vec<u8>) -> (r: Result<Vec<u8>, FlashcartError>)
    ensures
        datatype != UsbDataType::Handshake ==> (r matches Err(FlashcartError::UnknownReplyHeader(t))
            && t == datatype),
        datatype == UsbDataType::Handshake && data@.len() != 16 ==> (r matches Err(
            FlashcartError::UnknownReplyLength(n),
        ) && n == data@.len()),
        datatype == UsbDataType::Handshake && data@.len() == 16 && !is_flashcart_game_reply(data@)
            ==> (r matches Err(FlashcartError::UnknownReply(b)) && b@ == data@.take(4)),
        datatype == UsbDataType::Handshake && is_flashcart_game_reply(data@) ==> (r matches Ok(v)
            && v@ == flashcart_handshake_response_bytes()),
{
    if datatype != UsbDataType::Handshake {
        return Err(FlashcartError::UnknownReplyHeader(datatype));
    }
    if data.len() != 16 {
        return Err(FlashcartError::UnknownReplyLength(data.len()));
    }
    if data[0] == 0x4f && data[1] == 0x6f && data[2] == 0x54 && data[3] == 0x52 && data[4]
        == FLASHCART_PROTOCOL_VERSION {
        let mut v: Vec<u8> = Vec::new();
        v.push(0x4d);
        v.push(0x57);
        v.push(FLASHCART_PROTOCOL_VERSION);
        v.push(1);
        v.push(1);
        assert(v@ =~= flashcart_handshake_response_bytes());
        Ok(v)
    } else {
        let head = [data[0], data[1], data[2], data[3]];
        assert(head@ =~= data@.take(4));
        Err(FlashcartError::UnknownReply(head))
    }
}

/// The second step of the handshake, once the response has been sent
/// (`response_sent`) or has failed. `version` is the randomizer version decoded
/// from bytes 5 to 9 of the reply, or `None` where the branch byte names no branch.
pub fn finish_handshake(data: &Vec<u8>, response_sent: bool, version: Option<DeviceVersion>) -> (r: Result<
    HandshakeReply,
    FlashcartError,
>)
    requires
        is_flashcart_game_reply(data@),
    ensures
        !response_sent ==> r matches Err(FlashcartError::FailedReply),
        response_sent ==> match version {
            None => (r matches Err(FlashcartError::Branch(b)) && b == data@[8]),
            Some(v) => if data@[10] == 0 {
                r matches Err(FlashcartError::PlayerId)
            } else if !hash_icons_valid(data@, 11) {
                r matches Err(FlashcartError::HashIcon)
            } else {
                (r matches Ok(h) && h.version == v && h.player_id == data@[10] && hash_icons_match(
                    h.file_hash@,
                    data@,
                    11,
                ))
            },
        },
{
    if !response_sent {
        return Err(FlashcartError::FailedReply);
    }
    match version {
        None => Err(FlashcartError::Branch(data[8])),
        Some(v) => if data[10] == 0 {
            Err(FlashcartError::PlayerId)
        } else {
            match read_file_hash(data.as_slice(), 11) {
                Some(file_hash) => Ok(HandshakeReply { version: v, player_id: data[10], file_hash }),
                None => Err(FlashcartError::HashIcon),
            }
        },
    }
}

/// Where the game is, as far as item delivery goes.
#[derive(Clone, Copy, Debug, PartialEq, Eq, Structural)]
pub enum InGameState {
    NotKnown,
    Desynced,
    FileSelect,
    /// In game: the game has received `internal_count` items, and an item is
    /// on its way to it if `item_pending`.
    InGame { internal_count: u16, item_pending: bool },
}

/// A message waiting in the outbox to the game.
#[derive(Debug)]
pub struct OutMessage {
    pub datatype: UsbDataType,
    pub payload: Vec<u8>,
}

/// Something the app has to do right away on behalf of the session.
#[derive(Debug)]
pub enum FlashcartAction {
    /// Send this message to the game now (acknowledgements), whatever comes of it.
    Send(UsbDataType, Vec<u8>),
    /// Pass this message on to the app.
    Report(ClientMessage),
}

/// The state of a connection to a game on a flashcart, once the handshake is done.
pub struct FlashcartSession {
    /// The items this world has received, in order.
    pub item_queue: Vec<u16>,
    pub ingame_state: InGameState,
    /// The name of the file the game last reported.
    pub filename: Option<Filename>,
    /// The other players' names and progressive items (one entry per world).
    pub player_data: Vec<PlayerData>,
    /// The messages to the game, each sent in turn once the one before is acknowledged.
    pub message_queue: Vec<OutMessage>,
    /// Whether the first message of the outbox has been sent and awaits acknowledgement.
    pub pending_message: bool,
}

/// The mathematical state of a flashcart session.
pub struct FlashcartModel {
    pub item_queue: Seq<u16>,
    pub ingame_state: InGameState,
    pub filename: Option<Filename>,
    pub players: Seq<PlayerData>,
    pub outbox: Seq<OutMessage>,
    pub pending: bool,
}

impl View for FlashcartSession {
    type V = FlashcartModel;

    open spec fn view(&self) -> FlashcartModel {
        FlashcartModel {
            item_queue: self.item_queue@,
            ingame_state: self.ingame_state,
            filename: self.filename,
            players: self.player_data@,
            outbox: self.message_queue@,
            pending: self.pending_message,
        }
    }
}

/// The invariant of a session: an item counter that can always advance past
/// an item of the queue, and one player entry per world.
pub open spec fn flashcart_wf(m: FlashcartModel) -> bool {
    &&& m.item_queue.len() <= 0xffff
    &&& players_wf(m.players)
}

pub open spec fn is_out(m: OutMessage, datatype: UsbDataType, bytes: Seq<u8>) -> bool {
    m.datatype == datatype && m.payload@ == bytes
}

/// The message that hands the game an item.
pub open spec fn item_message_bytes(item: u16) -> Seq<u8> {
    be16(item)
}

/// The message that tells the game another player's name and progressive items.
pub open spec fn player_message_bytes(p: PlayerData) -> Seq<u8> {
    seq![p.world] + p.name.0@ + be32(p.progressive_items) + seq![0u8, 0, 0]
}

/// The acknowledgement and error messages carry these two bytes.
pub open spec fn ack_bytes() -> Seq<u8> {
    seq![0u8, 16]
}

/// `new_outbox` is `outbox` with the item at `count` of `queue` added, if there
/// is one; `sent` says whether there was.
pub open spec fn queues_next_item(
    queue: Seq<u16>,
    count: u16,
    outbox: Seq<OutMessage>,
    new_outbox: Seq<OutMessage>,
    sent: bool,
) -> bool {
    if count < queue.len() {
        &&& sent
        &&& new_outbox.len() == outbox.len() + 1
        &&& new_outbox.take(outbox.len() as int) == outbox
        &&& is_out(
            new_outbox[outbox.len() as int],
            UsbDataType::SendItem,
            item_message_bytes(queue[count as int]),
        )
    } else {
        !sent && new_outbox == outbox
    }
}

/// `new_outbox` is `outbox` with a message for each of `players` added, in order.
pub open spec fn queues_players(
    outbox: Seq<OutMessage>,
    players: Seq<PlayerData>,
    new_outbox: Seq<OutMessage>,
) -> bool {
    &&& new_outbox.len() == outbox.len() + players.len()
    &&& new_outbox.take(outbox.len() as int) == outbox
    &&& forall|i: int|
        0 <= i < players.len() ==> is_out(
            #[trigger] new_outbox[outbox.len() + i],
            UsbDataType::PlayerNames,
            player_message_bytes(players[i]),
        )
}

pub open spec fn is_send(a: FlashcartAction, datatype: UsbDataType, bytes: Seq<u8>) -> bool {
    a matches FlashcartAction::Send(t, b) && t == datatype && b@ == bytes
}

/// The messages the game sends that the app does not handle (a panic in the
/// game's protocol would follow from an item for world 0, so such items are
/// not accepted either).
pub open spec fn packet_accepted(datatype: UsbDataType, data: Seq<u8>) -> bool {
    !(datatype == UsbDataType::SendItem && data.len() >= 11 && data[10] == 0)
}

/// The error with which the session refuses a message from the game, if any.
pub open spec fn flashcart_packet_error(m: FlashcartModel, datatype: UsbDataType, data: Seq<u8>) -> Option<
    FlashcartError,
> {
    match datatype {
        UsbDataType::Text => if data.len() >= 6 && data.take(6) == seq![0x6au8, 0x6f, 0x79, 0x62, 0x75, 0x73] {
            None
        } else {
            Some(FlashcartError::UnknownCommand(datatype))
        },
        UsbDataType::ItemGiven => if m.ingame_state is InGame {
            None
        } else {
            Some(FlashcartError::ReadFail)
        },
        UsbDataType::Handshake | UsbDataType::Reset | UsbDataType::SaveFilename
        | UsbDataType::IngameState | UsbDataType::SendItem | UsbDataType::AckMessage
        | UsbDataType::Unrecoverable | UsbDataType::DungeonRewards | UsbDataType::Heartbeat
        | UsbDataType::RawBinary => None,
        _ => Some(FlashcartError::UnknownCommand(datatype)),
    }
}

/// An acknowledged outbox: the message the game acknowledges is removed.
pub open spec fn acknowledged(old: FlashcartModel, new: FlashcartModel) -> bool {
    &&& new == (FlashcartModel { outbox: new.outbox, pending: false, ..old })
    &&& new.outbox == if old.outbox.len() > 0 { old.outbox.drop_first() } else { old.outbox }
}

/// The result of a handled message: a new state of the game, if any, what to do
/// right away, and the changes to the session.
pub open spec fn flashcart_packet_effect(
    old: FlashcartModel,
    datatype: UsbDataType,
    data: Seq<u8>,
    new: FlashcartModel,
    state: Option<InGameState>,
    actions: Seq<FlashcartAction>,
) -> bool {
    match datatype {
        UsbDataType::Handshake | UsbDataType::Reset | UsbDataType::Text => new == old && state
            == Some(InGameState::NotKnown) && actions.len() == 0,
        UsbDataType::Heartbeat => new == old && state is None && actions.len() == 0,
        UsbDataType::SaveFilename => if data.len() >= 8 {
            &&& new == (FlashcartModel { filename: new.filename, ..old })
            &&& new.filename matches Some(f) && f.0@ == data.take(8)
            &&& state == Some(InGameState::FileSelect)
            &&& actions.len() == 2
            &&& actions[0] matches FlashcartAction::Report(ClientMessage::PlayerName(f))
            &&& f.0@ == data.take(8)
            &&& is_send(actions[1], UsbDataType::AckMessage, ack_bytes())
        } else {
            new == old && state is None && actions.len() == 1 && is_send(
                actions[0],
                UsbDataType::Unrecoverable,
                ack_bytes(),
            )
        },
        UsbDataType::IngameState => if data.len() == SAVE_DATA_SIZE {
            let name = data.subrange(0x24, 0x2c);
            let count = be_value(data.subrange(0x90, 0x92)) as u16;
            let renamed = !(old.filename matches Some(f) && f.0@ == name);
            let n = actions.len() as int;
            &&& new.item_queue == old.item_queue
            &&& new.players == old.players
            &&& new.pending == old.pending
            &&& new.ingame_state == old.ingame_state
            &&& new.filename matches Some(f) && (if renamed { f.0@ == name } else { old.filename == Some(f) })
            &&& n == if renamed { 3int } else { 2int }
            &&& renamed ==> (actions[0] matches FlashcartAction::Report(ClientMessage::PlayerName(f)) && f.0@ == name)
            &&& actions[n - 2] matches FlashcartAction::Report(ClientMessage::SaveData(d)) && d@ == data
            &&& is_send(actions[n - 1], UsbDataType::AckMessage, ack_bytes())
            &&& match old.ingame_state {
                InGameState::InGame { item_pending, .. } => {
                    &&& new.outbox == old.outbox
                    &&& state == Some(InGameState::InGame { internal_count: count, item_pending })
                },
                _ => {
                    let mid = (old.outbox.len() + old.players.len()) as int;
                    &&& queues_players(old.outbox, old.players, new.outbox.take(mid))
                    &&& state matches Some(InGameState::InGame { internal_count: c, item_pending: p })
                    &&& c == count
                    &&& queues_next_item(old.item_queue, count, new.outbox.take(mid), new.outbox, p)
                },
            }
        } else {
            new == old && state == Some(InGameState::NotKnown) && actions.len() == 1 && is_send(
                actions[0],
                UsbDataType::Unrecoverable,
                ack_bytes(),
            )
        },
        UsbDataType::SendItem => if data.len() >= 11 {
            &&& new == old
            &&& state is None
            &&& actions.len() == 2
            &&& actions[0] matches FlashcartAction::Report(
                ClientMessage::SendItem { key, kind, target_world },
            )
            &&& key == be_value(data.take(8))
            &&& kind == be_value(data.subrange(8, 10))
            &&& target_world == data[10]
            &&& is_send(actions[1], UsbDataType::AckMessage, ack_bytes())
        } else {
            new == old && state is None && actions.len() == 1 && is_send(
                actions[0],
                UsbDataType::Unrecoverable,
                ack_bytes(),
            )
        },
        UsbDataType::AckMessage => actions.len() == 0 && if old.pending {
            state is None && acknowledged(old, new)
        } else {
            new == old && state == Some(InGameState::Desynced)
        },
        UsbDataType::RawBinary => if old.pending {
            &&& state is None
            &&& actions.len() == 1
            &&& is_send(actions[0], UsbDataType::AckMessage, ack_bytes())
            &&& if old.outbox.len() > 0 { acknowledged(old, new) } else { new == old }
        } else {
            new == old && state == Some(InGameState::Desynced) && actions.len() == 0
        },
        UsbDataType::Unrecoverable => actions.len() == 0 && if old.pending {
            state is None && new == (FlashcartModel { pending: false, ..old })
        } else {
            new == old && state == Some(InGameState::Desynced)
        },
        UsbDataType::ItemGiven => match old.ingame_state {
            InGameState::InGame { internal_count, item_pending } => actions.len() == 0 && if !item_pending {
                new == old && state == Some(InGameState::Desynced)
            } else {
                &&& state is None
                &&& new.item_queue == old.item_queue
                &&& new.players == old.players
                &&& new.filename == old.filename
                &&& new.pending == old.pending
                &&& internal_count < 0xffff
                &&& new.ingame_state matches InGameState::InGame { internal_count: c, item_pending: p }
                &&& c == internal_count + 1
                &&& queues_next_item(old.item_queue, c, old.outbox, new.outbox, p)
            },
            _ => false,
        },
        UsbDataType::DungeonRewards => if data.len() == 19 {
            &&& new == old
            &&& state is None
            &&& actions.len() == 2
            &&& actions[0] matches FlashcartAction::Report(
                ClientMessage::DungeonRewardInfo {
                    emerald,
                    ruby,
                    sapphire,
                    light,
                    forest,
                    fire,
                    water,
                    shadow,
                    spirit,
                },
            )
            &&& reward_location_matches(emerald, data, 1)
            &&& reward_location_matches(ruby, data, 3)
            &&& reward_location_matches(sapphire, data, 5)
            &&& reward_location_matches(light, data, 7)
            &&& reward_location_matches(forest, data, 9)
            &&& reward_location_matches(fire, data, 11)
            &&& reward_location_matches(water, data, 13)
            &&& reward_location_matches(shadow, data, 15)
            &&& reward_location_matches(spirit, data, 17)
            &&& is_send(actions[1], UsbDataType::AckMessage, ack_bytes())
        } else {
            new == old && state is None && actions.len() == 1 && is_send(
                actions[0],
                UsbDataType::Unrecoverable,
                ack_bytes(),
            )
        },
        _ => false,
    }
}

/// What the connection does next after the game's state is known.
#[derive(Clone, Copy, Debug, PartialEq, Eq, Structural)]
pub enum CommState {
    Disconnect,
    SendHandshake,
    WaitForGame,
    Handshake,
    Ready,
}

/// An item queue that fits the game's 16-bit item counter; player data for a
/// world other than 0.
pub open spec fn flashcart_server_message_ok(m: FlashcartModel, msg: ServerMessage) -> bool {
    match msg {
        ServerMessage::ItemQueue(q) => q@.len() <= 0xffff,
        ServerMessage::GetItem(_) => m.item_queue.len() < 0xffff,
        ServerMessage::PlayerName(world, _) => world != 0,
        ServerMessage::ProgressiveItems(world, _) => world != 0,
    }
}

/// The item queue changed: in game with no item on its way, the next item is queued.
pub open spec fn flashcart_queue_changed(old: FlashcartModel, queue: Seq<u16>, new: FlashcartModel) -> bool {
    &&& new.item_queue == queue
    &&& new.players == old.players
    &&& new.filename == old.filename
    &&& new.pending == old.pending
    &&& match old.ingame_state {
        InGameState::InGame { internal_count, item_pending: false } => new.ingame_state matches InGameState::InGame {
            internal_count: c,
            item_pending: p,
        } && c == internal_count && queues_next_item(queue, internal_count, old.outbox, new.outbox, p),
        _ => new.ingame_state == old.ingame_state && new.outbox == old.outbox,
    }
}

/// `new` has `entry` for its world, and a message with it at the end of the outbox.
pub open spec fn player_queued(old: FlashcartModel, new: FlashcartModel, entry: PlayerData) -> bool {
    &&& new == (FlashcartModel { players: new.players, outbox: new.outbox, ..old })
    &&& upserted(old.players, new.players, entry)
    &&& new.outbox.len() == old.outbox.len() + 1
    &&& new.outbox.take(old.outbox.len() as int) == old.outbox
    &&& is_out(
        new.outbox[old.outbox.len() as int],
        UsbDataType::PlayerNames,
        player_message_bytes(entry),
    )
}

/// What a message from the app does to a flashcart session.
pub open spec fn flashcart_server_message_effect(
    old: FlashcartModel,
    msg: ServerMessage,
    new: FlashcartModel,
) -> bool {
    match msg {
        ServerMessage::ItemQueue(q) => flashcart_queue_changed(old, q@, new),
        ServerMessage::GetItem(item) => flashcart_queue_changed(old, old.item_queue.push(item), new),
        ServerMessage::PlayerName(world, name) => player_queued(
            old,
            new,
            PlayerData {
                world,
                name,
                progressive_items: if has_player(old.players, world) {
                    old.players[player_index(old.players, world)].progressive_items
                } else {
                    0
                },
            },
        ),
        ServerMessage::ProgressiveItems(world, progressive_items) => exists|entry: PlayerData|
            {
                &&& entry.world == world
                &&& entry.progressive_items == progressive_items
                &&& if has_player(old.players, world) {
                    entry.name == old.players[player_index(old.players, world)].name
                } else {
                    is_default_filename(entry.name)
                }
                &&& #[trigger] player_queued(old, new, entry)
            },
    }
}

/// The outcome of a handled message, applied: the game having left the game
/// makes the connection wait for it, a desync ends the connection, any other
/// new state is taken.
pub open spec fn outcome_applied(
    old: FlashcartModel,
    state: Option<InGameState>,
    new: FlashcartModel,
    next: Option<CommState>,
) -> bool {
    match state {
        Some(InGameState::NotKnown) => new == old && next == Some(CommState::WaitForGame),
        Some(InGameState::Desynced) => new == old && next == Some(CommState::Disconnect),
        Some(s) => new == (FlashcartModel { ingame_state: s, ..old }) && next is None,
        None => new == old && next is None,
    }
}

/// The outcome of a message from the game: the state the game is now in (if it
/// changed), and what to do right away.
#[derive(Debug)]
pub struct PacketOutcome {
    pub state: Option<InGameState>,
    pub actions: Vec<FlashcartAction>,
}

/// The two bytes that acknowledgements and errors carry.
fn ack_payload() -> (r: Vec<u8>)
    ensures
        r@ == ack_bytes(),
{
    let mut v: Vec<u8> = Vec::new();
    v.push(0);
    v.push(16);
    assert(v@ =~= ack_bytes());
    v
}

/// Copies `v[start..end]`.
fn sub_vec(v: &Vec<u8>, start: usize, end: usize) -> (r: Vec<u8>)
    requires
        start <= end <= v@.len(),
    ensures
        r@ == v@.subrange(start as int, end as int),
{
    let mut r: Vec<u8> = Vec::new();
    let mut i: usize = start;
    while i < end
        invariant
            start <= i <= end <= v@.len(),
            r@ == v@.subrange(start as int, i as int),
        decreases end - i,
    {
        r.push(v[i]);
        i = i + 1;
        assert(r@ =~= v@.subrange(start as int, i as int));
    }
    r
}

/// Reads `v[start..start + 8]` as a file name.
fn filename_at(v: &Vec<u8>, start: usize) -> (f: Filename)
    requires
        start + 8 <= v.len(),
    ensures
        f.0@ == v@.subrange(start as int, start + 8),
{
    let f = Filename([v[start], v[start + 1], v[start + 2], v[start + 3], v[start + 4], v[start + 5], v[start + 6], v[start + 7]]);
    assert(f.0@ =~= v@.subrange(start as int, start + 8));
    f
}

/// Whether two file names are the same.
fn same_filename(a: &Filename, b: &Filename) -> (r: bool)
    ensures
        r == (a.0@ == b.0@),
{
    let mut i: usize = 0;
    while i < 8
        invariant
            i <= 8,
            forall|k: int| 0 <= k < i ==> a.0@[k] == b.0@[k],
        decreases 8 - i,
    {
        if a.0[i] != b.0[i] {
            return false;
        }
        i = i + 1;
    }
    assert(a.0@ =~= b.0@);
    true
}

impl FlashcartSession {
    /// A session with a game that has completed the handshake; the player data
    /// is what the app remembers from earlier connections.
    pub fn new(player_data: Vec<PlayerData>) -> (r: FlashcartSession)
        requires
            players_wf(player_data@),
        ensures
            flashcart_wf(r@),
            r@.item_queue.len() == 0,
            r@.ingame_state == InGameState::NotKnown,
            r@.filename is None,
            r@.players == player_data@,
            r@.outbox.len() == 0,
            !r@.pending,
    {
        FlashcartSession {
            item_queue: Vec::new(),
            ingame_state: InGameState::NotKnown,
            filename: None,
            player_data,
            message_queue: Vec::new(),
            pending_message: false,
        }
    }

    /// Adds the item at `count` of the queue to the outbox, if there is one.
    fn queue_next_item(&mut self, count: u16) -> (sent: bool)
        ensures
            final(self)@ == (FlashcartModel { outbox: final(self)@.outbox, ..old(self)@ }),
            queues_next_item(old(self)@.item_queue, count, old(self)@.outbox, final(self)@.outbox, sent),
    {
        if (count as usize) < self.item_queue.len() {
            let item = self.item_queue[count as usize];
            let b = u16_to_be(item);
            let mut payload: Vec<u8> = Vec::new();
            payload.push(b[0]);
            payload.push(b[1]);
            assert(payload@ =~= be16(item));
            let ghost before = self.message_queue@;
            self.message_queue.push(OutMessage { datatype: UsbDataType::SendItem, payload });
            assert(self.message_queue@.take(before.len() as int) =~= before);
            true
        } else {
            false
        }
    }

    /// The message with another player's data.
    fn player_message(p: &PlayerData) -> (r: Vec<u8>)
        ensures
            r@ == player_message_bytes(*p),
    {
        let b = u32_to_be(p.progressive_items);
        let mut v: Vec<u8> = Vec::new();
        v.push(p.world);
        let mut i: usize = 0;
        while i < 8
            invariant
                i <= 8,
                v@ == seq![p.world] + p.name.0@.take(i as int),
            decreases 8 - i,
        {
            v.push(p.name.0[i]);
            i = i + 1;
            assert(v@ =~= seq![p.world] + p.name.0@.take(i as int));
        }
        v.push(b[0]);
        v.push(b[1]);
        v.push(b[2]);
        v.push(b[3]);
        v.push(0);
        v.push(0);
        v.push(0);
        assert(v@ =~= player_message_bytes(*p));
        v
    }

    /// Adds a message with each player's data to the outbox.
    fn queue_players(&mut self)
        ensures
            final(self)@ == (FlashcartModel { outbox: final(self)@.outbox, ..old(self)@ }),
            queues_players(old(self)@.outbox, old(self)@.players, final(self)@.outbox),
    {
        let ghost before = self.message_queue@;
        let mut i: usize = 0;
        while i < self.player_data.len()
            invariant
                i <= self.player_data@.len(),
                self@ == (FlashcartModel { outbox: self@.outbox, ..old(self)@ }),
                self.message_queue@.len() == before.len() + i,
                self.message_queue@.take(before.len() as int) == before,
                before == old(self)@.outbox,
                forall|k: int|
                    0 <= k < i ==> is_out(
                        #[trigger] self.message_queue@[before.len() + k],
                        UsbDataType::PlayerNames,
                        player_message_bytes(self.player_data@[k]),
                    ),
            decreases self.player_data@.len() - i,
        {
            let payload = Self::player_message(&self.player_data[i]);
            self.message_queue.push(OutMessage { datatype: UsbDataType::PlayerNames, payload });
            assert(self.message_queue@.take(before.len() as int) =~= before);
            i = i + 1;
        }
    }

    /// The position of the entry for `world` in the player data, if any.
    fn find_player(&self, world: u8) -> (r: Option<usize>)
        requires
            players_wf(self@.players),
        ensures
            r is Some <==> has_player(self@.players, world),
            r matches Some(i) ==> i == player_index(self@.players, world) && i < self@.players.len(),
    {
        let mut i: usize = 0;
        while i < self.player_data.len()
            invariant
                i <= self.player_data@.len(),
                players_wf(self@.players),
                forall|k: int| 0 <= k < i ==> (#[trigger] self.player_data@[k]).world != world,
            decreases self.player_data@.len() - i,
        {
            if self.player_data[i].world == world {
                let ghost j = player_index(self@.players, world);
                assert(self@.players[i as int].world == world);
                assert(has_player(self@.players, world));
                assert(0 <= j < self@.players.len() && self@.players[j].world == world);
                assert(j == i) by {
                    if j != i {
                        if j < i {
                            assert(self.player_data@[j].world != world);
                        } else {
                            assert(self@.players[i as int].world != self@.players[j].world);
                        }
                    }
                }
                return Some(i);
            }
            i = i + 1;
        }
        None
    }

    /// Records `entry` for its world and queues a message with it.
    fn queue_player(&mut self, entry: PlayerData)
        requires
            flashcart_wf(old(self)@),
            entry.world != 0,
        ensures
            flashcart_wf(final(self)@),
            player_queued(old(self)@, final(self)@, entry),
    {
        match self.find_player(entry.world) {
            Some(i) => {
                self.player_data.set(i, entry);
            },
            None => {
                self.player_data.push(entry);
            },
        }
        let payload = Self::player_message(&entry);
        let ghost before = self.message_queue@;
        self.message_queue.push(OutMessage { datatype: UsbDataType::PlayerNames, payload });
        assert(self.message_queue@.take(before.len() as int) =~= before);
    }

    /// In game with no item on its way, queues the next item.
    fn queue_if_idle(&mut self)
        ensures
            flashcart_queue_changed(old(self)@, old(self)@.item_queue, final(self)@),
    {
        match self.ingame_state {
            InGameState::InGame { internal_count, item_pending: false } => {
                let sent = self.queue_next_item(internal_count);
                self.ingame_state = InGameState::InGame { internal_count, item_pending: sent };
            },
            _ => {},
        }
    }

    /// Handles a message from the app: the item queue, an item, or another
    /// player's data, which is queued for the game.
    pub fn on_server_message(&mut self, msg: ServerMessage)
        requires
            flashcart_wf(old(self)@),
            flashcart_server_message_ok(old(self)@, msg),
        ensures
            flashcart_wf(final(self)@),
            flashcart_server_message_effect(old(self)@, msg, final(self)@),
    {
        match msg {
            ServerMessage::ItemQueue(q) => {
                self.item_queue = q;
                self.queue_if_idle();
            },
            ServerMessage::GetItem(item) => {
                self.item_queue.push(item);
                self.queue_if_idle();
            },
            ServerMessage::PlayerName(world, name) => {
                let progressive_items = match self.find_player(world) {
                    Some(i) => self.player_data[i].progressive_items,
                    None => 0,
                };
                self.queue_player(PlayerData { world, name, progressive_items });
            },
            ServerMessage::ProgressiveItems(world, progressive_items) => {
                let name = match self.find_player(world) {
                    Some(i) => self.player_data[i].name,
                    None => {
                        let f = Filename([FILENAME_DEFAULT_BYTE; 8]);
                        assert(f.0@ =~= Seq::new(8, |i: int| FILENAME_DEFAULT_BYTE));
                        f
                    },
                };
                let entry = PlayerData { world, name, progressive_items };
                self.queue_player(entry);
                assert(player_queued(old(self)@, self@, entry));
            },
        }
    }

    /// The message to send to the game now: the first of the outbox, when no
    /// message awaits acknowledgement.
    pub fn message_to_send(&self) -> (r: Option<&OutMessage>)
        ensures
            r is Some <==> !self@.pending && self@.outbox.len() > 0,
            r matches Some(m) ==> *m == self@.outbox[0],
    {
        if !self.pending_message && self.message_queue.len() > 0 {
            Some(&self.message_queue[0])
        } else {
            None
        }
    }

    /// Records whether sending the first message of the outbox succeeded; if it
    /// did, it awaits acknowledgement, else it is sent again later.
    pub fn record_send(&mut self, sent: bool)
        ensures
            final(self)@ == (FlashcartModel { pending: sent, ..old(self)@ }),
    {
        self.pending_message = sent;
    }

    /// Applies the game's new state from a handled message, and says what the
    /// connection does next (`None`: it stays ready).
    pub fn apply_outcome(&mut self, state: Option<InGameState>) -> (next: Option<CommState>)
        ensures
            outcome_applied(old(self)@, state, final(self)@, next),
    {
        match state {
            Some(InGameState::NotKnown) => Some(CommState::WaitForGame),
            Some(InGameState::Desynced) => Some(CommState::Disconnect),
            Some(s) => {
                self.ingame_state = s;
                None
            },
            None => None,
        }
    }

    /// Handles a message from the game.
    pub fn process_packet(&mut self, datatype: UsbDataType, data: &Vec<u8>) -> (r: Result<
        PacketOutcome,
        FlashcartError,
    >)
        requires
            flashcart_wf(old(self)@),
            packet_accepted(datatype, data@),
            datatype == UsbDataType::ItemGiven ==> old(self)@.ingame_state != (InGameState::InGame {
                internal_count: 0xffff,
                item_pending: true,
            }),
        ensures
            flashcart_wf(final(self)@),
            r matches Err(e) ==> flashcart_packet_error(old(self)@, datatype, data@) == Some(e)
                && final(self)@ == old(self)@,
            r is Ok ==> flashcart_packet_error(old(self)@, datatype, data@) is None,
            r matches Ok(o) ==> flashcart_packet_effect(
                old(self)@,
                datatype,
                data@,
                final(self)@,
                o.state,
                o.actions@,
            ),
    {
        let mut actions: Vec<FlashcartAction> = Vec::new();
        match datatype {
            UsbDataType::Handshake | UsbDataType::Reset => {
                Ok(PacketOutcome { state: Some(InGameState::NotKnown), actions })
            },
            UsbDataType::Text => {
                if data.len() >= 6 && data[0] == 0x6a && data[1] == 0x6f && data[2] == 0x79
                    && data[3] == 0x62 && data[4] == 0x75 && data[5] == 0x73 {
                    assert(data@.take(6) =~= seq![0x6au8, 0x6f, 0x79, 0x62, 0x75, 0x73]);
                    Ok(PacketOutcome { state: Some(InGameState::NotKnown), actions })
                } else {
                    assert(data@.len() >= 6 ==> data@.take(6)[0] == data@[0] && data@.take(6)[1]
                        == data@[1] && data@.take(6)[2] == data@[2] && data@.take(6)[3] == data@[3]
                        && data@.take(6)[4] == data@[4] && data@.take(6)[5] == data@[5]);
                    Err(FlashcartError::UnknownCommand(datatype))
                }
            },
            UsbDataType::SaveFilename => {
                if data.len() >= 8 {
                    let f = filename_at(data, 0);
                    assert(data@.subrange(0, 8) =~= data@.take(8));
                    self.filename = Some(f);
                    actions.push(FlashcartAction::Report(ClientMessage::PlayerName(f)));
                    actions.push(FlashcartAction::Send(UsbDataType::AckMessage, ack_payload()));
                    Ok(PacketOutcome { state: Some(InGameState::FileSelect), actions })
                } else {
                    actions.push(FlashcartAction::Send(UsbDataType::Unrecoverable, ack_payload()));
                    Ok(PacketOutcome { state: None, actions })
                }
            },
            UsbDataType::IngameState => {
                if data.len() == SAVE_DATA_SIZE {
                    let f = filename_at(data, 0x24);
                    let renamed = match self.filename {
                        Some(old_f) => !same_filename(&old_f, &f),
                        None => true,
                    };
                    if renamed {
                        self.filename = Some(f);
                        actions.push(FlashcartAction::Report(ClientMessage::PlayerName(f)));
                    }
                    let count = read_be16(data.as_slice(), 0x90);
                    let copy = sub_vec(data, 0, data.len());
                    assert(data@.subrange(0, data@.len() as int) =~= data@);
                    actions.push(FlashcartAction::Report(ClientMessage::SaveData(copy)));
                    let state = match self.ingame_state {
                        InGameState::InGame { item_pending, .. } => {
                            InGameState::InGame { internal_count: count, item_pending }
                        },
                        _ => {
                            let ghost o = self@;
                            self.queue_players();
                            let ghost mid = self@.outbox;
                            let sent = self.queue_next_item(count);
                            proof {
                                assert(self@.outbox.take(mid.len() as int) =~= mid);
                            }
                            InGameState::InGame { internal_count: count, item_pending: sent }
                        },
                    };
                    actions.push(FlashcartAction::Send(UsbDataType::AckMessage, ack_payload()));
                    Ok(PacketOutcome { state: Some(state), actions })
                } else {
                    actions.push(FlashcartAction::Send(UsbDataType::Unrecoverable, ack_payload()));
                    Ok(PacketOutcome { state: Some(InGameState::NotKnown), actions })
                }
            },
            UsbDataType::SendItem => {
                if data.len() >= 11 {
                    let key = read_be(data.as_slice(), 0, 8);
                    let kind = read_be16(data.as_slice(), 8);
                    assert(data@.subrange(0, 8) =~= data@.take(8));
                    actions.push(
                        FlashcartAction::Report(
                            ClientMessage::SendItem { key, kind, target_world: data[10] },
                        ),
                    );
                    actions.push(FlashcartAction::Send(UsbDataType::AckMessage, ack_payload()));
                    Ok(PacketOutcome { state: None, actions })
                } else {
                    actions.push(FlashcartAction::Send(UsbDataType::Unrecoverable, ack_payload()));
                    Ok(PacketOutcome { state: None, actions })
                }
            },
            UsbDataType::AckMessage => {
                if !self.pending_message {
                    Ok(PacketOutcome { state: Some(InGameState::Desynced), actions })
                } else {
                    if self.message_queue.len() > 0 {
                        self.message_queue.remove(0);
                    }
                    self.pending_message = false;
                    Ok(PacketOutcome { state: None, actions })
                }
            },
            UsbDataType::ItemGiven => {
                match self.ingame_state {
                    InGameState::InGame { internal_count, item_pending } => {
                        if !item_pending {
                            Ok(PacketOutcome { state: Some(InGameState::Desynced), actions })
                        } else {
                            let c = internal_count + 1;
                            let sent = self.queue_next_item(c);
                            self.ingame_state = InGameState::InGame {
                                internal_count: c,
                                item_pending: sent,
                            };
                            Ok(PacketOutcome { state: None, actions })
                        }
                    },
                    _ => Err(FlashcartError::ReadFail),
                }
            },
            UsbDataType::Unrecoverable => {
                if !self.pending_message {
                    Ok(PacketOutcome { state: Some(InGameState::Desynced), actions })
                } else {
                    self.pending_message = false;
                    Ok(PacketOutcome { state: None, actions })
                }
            },
            UsbDataType::DungeonRewards => {
                if data.len() == 19 {
                    actions.push(FlashcartAction::Report(dungeon_reward_info(data.as_slice(), 1)));
                    actions.push(FlashcartAction::Send(UsbDataType::AckMessage, ack_payload()));
                    Ok(PacketOutcome { state: None, actions })
                } else {
                    actions.push(FlashcartAction::Send(UsbDataType::Unrecoverable, ack_payload()));
                    Ok(PacketOutcome { state: None, actions })
                }
            },
            UsbDataType::Heartbeat => Ok(PacketOutcome { state: None, actions }),
            UsbDataType::RawBinary => {
                if !self.pending_message {
                    Ok(PacketOutcome { state: Some(InGameState::Desynced), actions })
                } else {
                    if self.message_queue.len() > 0 {
                        self.message_queue.remove(0);
                        self.pending_message = false;
                    }
                    actions.push(FlashcartAction::Send(UsbDataType::AckMessage, ack_payload()));
                    Ok(PacketOutcome { state: None, actions })
                }
            },
            _ => Err(FlashcartError::UnknownCommand(datatype)),
        }
    }
}

/// Whatever order the app sends a world's player name and progressive items
/// in, the session ends up with an entry for that world holding both, and the
/// game is sent both messages in that order.
pub proof fn lemma_flashcart_player_name_and_items_both_kept(
    m0: FlashcartModel,
    world: u8,
    name: Filename,
    items: u32,
    name_first: bool,
    m1: FlashcartModel,
    m2: FlashcartModel,
)
    requires
        flashcart_wf(m0),
        world != 0,
        flashcart_server_message_effect(
            m0,
            if name_first {
                ServerMessage::PlayerName(world, name)
            } else {
                ServerMessage::ProgressiveItems(world, items)
            },
            m1,
        ),
        flashcart_server_message_effect(
            m1,
            if name_first {
                ServerMessage::ProgressiveItems(world, items)
            } else {
                ServerMessage::PlayerName(world, name)
            },
            m2,
        ),
    ensures
        players_wf(m2.players),
        has_player(m2.players, world),
        m2.players[player_index(m2.players, world)].name == name,
        m2.players[player_index(m2.players, world)].progressive_items == items,
        m2.outbox.len() == m0.outbox.len() + 2,
        m2.outbox.take(m0.outbox.len() as int) == m0.outbox,
{
    if name_first {
        let e1 = PlayerData {
            world,
            name,
            progressive_items: if has_player(m0.players, world) {
                m0.players[player_index(m0.players, world)].progressive_items
            } else {
                0
            },
        };
        lemma_upserted_entry(m0.players, m1.players, e1);
        let e2 = choose|entry: PlayerData|
            {
                &&& entry.world == world
                &&& entry.progressive_items == items
                &&& if has_player(m1.players, world) {
                    entry.name == m1.players[player_index(m1.players, world)].name
                } else {
                    is_default_filename(entry.name)
                }
                &&& #[trigger] player_queued(m1, m2, entry)
            };
        lemma_upserted_entry(m1.players, m2.players, e2);
    } else {
        let e1 = choose|entry: PlayerData|
            {
                &&& entry.world == world
                &&& entry.progressive_items == items
                &&& if has_player(m0.players, world) {
                    entry.name == m0.players[player_index(m0.players, world)].name
                } else {
                    is_default_filename(entry.name)
                }
                &&& #[trigger] player_queued(m0, m1, entry)
            };
        lemma_upserted_entry(m0.players, m1.players, e1);
        let e2 = PlayerData {
            world,
            name,
            progressive_items: m1.players[player_index(m1.players, world)].progressive_items,
        };
        lemma_upserted_entry(m1.players, m2.players, e2);
    }
    assert(m2.outbox.take(m0.outbox.len() as int) =~= m1.outbox.take(m0.outbox.len() as int));
}

/// A file name message of at least 8 bytes is accepted: the game is at the
/// file select screen, the first 8 bytes become the player's file name, which
/// is reported to the app, and the message is acknowledged (`[0, 16]`) after
/// the report. A shorter one is answered with an error and changes nothing.
pub proof fn lemma_save_filename_reported(
    old: FlashcartModel,
    data: Seq<u8>,
    new: FlashcartModel,
    state: Option<InGameState>,
    actions: Seq<FlashcartAction>,
)
    requires
        flashcart_packet_effect(old, UsbDataType::SaveFilename, data, new, state, actions),
    ensures
        flashcart_packet_error(old, UsbDataType::SaveFilename, data) is None,
        data.len() >= 8 ==> {
            &&& state == Some(InGameState::FileSelect)
            &&& new.filename matches Some(f) && f.0@ == data.subrange(0, 8)
            &&& actions.len() == 2
            &&& actions[0] matches FlashcartAction::Report(ClientMessage::PlayerName(f)) && f.0@ == data.subrange(0, 8)
            &&& actions[1] matches FlashcartAction::Send(t, b) && t == UsbDataType::AckMessage && b@ == seq![0u8, 16]
        },
        data.len() < 8 ==> {
            &&& new == old
            &&& state is None
            &&& actions.len() == 1
            &&& actions[0] matches FlashcartAction::Send(t, b) && t == UsbDataType::Unrecoverable && b@ == seq![0u8, 16]
        },
{
    if data.len() >= 8 {
        assert(data.take(8) =~= data.subrange(0, 8));
    }
}

/// A dungeon reward message of 19 bytes reports where each of the nine
/// rewards is, in the order emerald, ruby, sapphire, light, forest, fire,
/// water, shadow, spirit: reward `k` is read from the world byte `2k + 1` and
/// the area byte `2k + 2` (byte 0 is skipped), known exactly when the world is
/// not 0 and the area byte names a hint area (1 to 36). The message is then
/// acknowledged.
pub proof fn lemma_reward_message_layout(
    old: FlashcartModel,
    data: Seq<u8>,
    new: FlashcartModel,
    state: Option<InGameState>,
    actions: Seq<FlashcartAction>,
)
    requires
        data.len() == 19,
        flashcart_packet_effect(old, UsbDataType::DungeonRewards, data, new, state, actions),
    ensures
        new == old,
        state is None,
        actions.len() == 2,
        actions[1] matches FlashcartAction::Send(t, b) && t == UsbDataType::AckMessage && b@ == seq![0u8, 16],
        actions[0] matches FlashcartAction::Report(
            ClientMessage::DungeonRewardInfo { emerald, ruby, sapphire, light, forest, fire, water, shadow, spirit },
        ) && ({
            let locs = seq![emerald, ruby, sapphire, light, forest, fire, water, shadow, spirit];
            forall|k: int|
                0 <= k < 9 ==> {
                    &&& (#[trigger] locs[k] is Some <==> (data[2 * k + 1] != 0 && 1 <= data[2 * k + 2] <= 36))
                    &&& (locs[k] matches Some((w, a)) ==> w == data[2 * k + 1] && hint_area_index(a) + 1 == data[2 * k + 2])
                }
        }),
{
    if let FlashcartAction::Report(
        ClientMessage::DungeonRewardInfo { emerald, ruby, sapphire, light, forest, fire, water, shadow, spirit },
    ) = actions[0] {
        let locs = seq![emerald, ruby, sapphire, light, forest, fire, water, shadow, spirit];
        assert forall|k: int| 0 <= k < 9 implies {
            &&& (#[trigger] locs[k] is Some <==> (data[2 * k + 1] != 0 && 1 <= data[2 * k + 2] <= 36))
            &&& (locs[k] matches Some((w, a)) ==> w == data[2 * k + 1] && hint_area_index(a) + 1 == data[2 * k + 2])
        } by {
            assert(reward_location_matches(locs[k], data, 2 * k + 1));
        }
    }
}

/// The messages the app queues for the game: player data is 16 bytes, the
/// world, the 8 bytes of the file name, the progressive items as 4 bytes, most
/// significant first, then three zeros; an item is its 2 bytes, most
/// significant first.
pub proof fn lemma_outgoing_message_layout(p: PlayerData, item: u16)
    ensures
        ({
            let b = player_message_bytes(p);
            &&& b.len() == 16
            &&& b[0] == p.world
            &&& b.subrange(1, 9) == p.name.0@
            &&& be_value(b.subrange(9, 13)) == p.progressive_items
            &&& b[13] == 0 && b[14] == 0 && b[15] == 0
        }),
        item_message_bytes(item).len() == 2,
        be_value(item_message_bytes(item)) == item,
{
    let b = player_message_bytes(p);
    assert(b.subrange(1, 9) =~= p.name.0@);
    assert(b.subrange(9, 13) =~= be32(p.progressive_items));
    lemma_be32_roundtrip(p.progressive_items);
    lemma_be16_roundtrip(item);
}

/// An item message of at least 11 bytes reports the item the player found:
/// its key is bytes 0 to 7 and its kind bytes 8 and 9, most significant first,
/// and its receiving world byte 10; the message is then acknowledged.
pub proof fn lemma_item_message_layout(
    old: FlashcartModel,
    data: Seq<u8>,
    new: FlashcartModel,
    state: Option<InGameState>,
    actions: Seq<FlashcartAction>,
)
    requires
        data.len() >= 11,
        flashcart_packet_effect(old, UsbDataType::SendItem, data, new, state, actions),
    ensures
        new == old,
        actions.len() == 2,
        actions[0] matches FlashcartAction::Report(ClientMessage::SendItem { key, kind, target_world })
            && key == be_value(seq![data[0], data[1], data[2], data[3], data[4], data[5], data[6], data[7]])
            && kind == data[8] * 256 + data[9] && target_world == data[10],
        actions[1] matches FlashcartAction::Send(t, b) && t == UsbDataType::AckMessage && b@ == seq![0u8, 16],
{
    assert(data.take(8) =~= seq![data[0], data[1], data[2], data[3], data[4], data[5], data[6], data[7]]);
    let k = data.subrange(8, 10);
    assert(k.drop_last() =~= seq![data[8]]);
    assert(seq![data[8]].drop_last() =~= Seq::<u8>::empty());
    assert(be_value(Seq::<u8>::empty()) == 0);
    assert(seq![data[8]].last() == data[8]);
    assert(be_value(seq![data[8]]) == data[8]);
    assert(k.last() == data[9]);
    assert(be_value(k) == data[8] * 256 + data[9]);
}

} // verus!
