//! The side of an emulator plugin (the BizHawk tool) that talks to the
//! multiworld app: messages to the app wait in a queue until the app has
//! connected and agreed on the protocol version, and messages from the app are
//! taken apart for the plugin's scripting language.
use vstd::prelude::*;
use crate::frontend::{ClientMessage, Filename, PROTOCOL_VERSION, RewardLocation, SAVE_DATA_SIZE, ServerMessage};
use crate::hash_icon::HashIcon;
use crate::hint_area::{HintArea, OptHintArea, hint_area_of};

verus! {

/// What an attempt to read a message from the app gave.
#[derive(Debug)]
pub enum ReadOutcome {
    /// The app closed the connection.
    EndOfStream,
    /// Reading failed otherwise.
    Failed,
    /// No message is available yet.
    Nothing,
    Message(ServerMessage),
}

/// The number the plugin's scripts know a read outcome by: `-3` for the end of
/// the stream, `-2` for another error, `-1` for no message, else the message's
/// kind: `0` item queue, `1` item, `2` player name, `3` progressive items.
pub open spec fn read_outcome_kind(r: ReadOutcome) -> int {
    match r {
        ReadOutcome::EndOfStream => -3,
        ReadOutcome::Failed => -2,
        ReadOutcome::Nothing => -1,
        ReadOutcome::Message(ServerMessage::ItemQueue(_)) => 0,
        ReadOutcome::Message(ServerMessage::GetItem(_)) => 1,
        ReadOutcome::Message(ServerMessage::PlayerName(_, _)) => 2,
        ReadOutcome::Message(ServerMessage::ProgressiveItems(_, _)) => 3,
    }
}

/// The kind of a read outcome.
pub fn opt_message_result_kind(r: &ReadOutcome) -> (k: i8)
    ensures
        k == read_outcome_kind(*r),
{
    match r {
        ReadOutcome::EndOfStream => -3,
        ReadOutcome::Failed => -2,
        ReadOutcome::Nothing => -1,
        ReadOutcome::Message(ServerMessage::ItemQueue(_)) => 0,
        ReadOutcome::Message(ServerMessage::GetItem(_)) => 1,
        ReadOutcome::Message(ServerMessage::PlayerName(_, _)) => 2,
        ReadOutcome::Message(ServerMessage::ProgressiveItems(_, _)) => 3,
    }
}

/// The length of a received item queue.
pub fn opt_message_result_item_queue_len(r: &ReadOutcome) -> (n: u16)
    requires
        r matches ReadOutcome::Message(ServerMessage::ItemQueue(q)) && q@.len() <= u16::MAX,
    ensures
        r matches ReadOutcome::Message(ServerMessage::ItemQueue(q)) && n == q@.len(),
{
    match r {
        ReadOutcome::Message(ServerMessage::ItemQueue(q)) => q.len() as u16,
        _ => 0,
    }
}

/// The item at `index` of a received item queue, or a received item.
pub fn opt_message_result_item_kind_at_index(r: &ReadOutcome, index: u16) -> (item: u16)
    requires
        r matches ReadOutcome::Message(ServerMessage::ItemQueue(q)) ==> index < q@.len(),
        r matches ReadOutcome::Message(ServerMessage::ItemQueue(_)) || r matches ReadOutcome::Message(
            ServerMessage::GetItem(_),
        ),
    ensures
        r matches ReadOutcome::Message(ServerMessage::ItemQueue(q)) ==> item == q@[index as int],
        r matches ReadOutcome::Message(ServerMessage::GetItem(i)) ==> item == i,
{
    match r {
        ReadOutcome::Message(ServerMessage::ItemQueue(q)) => q[index as usize],
        ReadOutcome::Message(ServerMessage::GetItem(i)) => *i,
        _ => 0,
    }
}

/// The world of a received player name. Any other message is refused.
pub fn opt_message_result_world_id(r: &ReadOutcome) -> (w: u8)
    requires
        r matches ReadOutcome::Message(ServerMessage::PlayerName(_, _)),
    ensures
        r matches ReadOutcome::Message(ServerMessage::PlayerName(world, _)) && w == world,
{
    match r {
        ReadOutcome::Message(ServerMessage::PlayerName(world, _)) => *world,
        _ => 0,
    }
}

/// The filename of a received player name.
pub fn opt_message_result_filename(r: &ReadOutcome) -> (f: Filename)
    requires
        r matches ReadOutcome::Message(ServerMessage::PlayerName(_, _)),
    ensures
        r matches ReadOutcome::Message(ServerMessage::PlayerName(_, name)) && f == name,
{
    match r {
        ReadOutcome::Message(ServerMessage::PlayerName(_, name)) => *name,
        _ => Filename([0; 8]),
    }
}

/// The state of a received progressive items message.
pub fn opt_message_result_progressive_items(r: &ReadOutcome) -> (s: u32)
    requires
        r matches ReadOutcome::Message(ServerMessage::ProgressiveItems(_, _)),
    ensures
        r matches ReadOutcome::Message(ServerMessage::ProgressiveItems(_, state)) && s == state,
{
    match r {
        ReadOutcome::Message(ServerMessage::ProgressiveItems(_, state)) => *state,
        _ => 0,
    }
}

/// The plugin's link to the app: until the app has connected, messages wait
/// in a queue.
#[derive(Debug)]
pub struct PluginClient {
    pub connected: bool,
    pub message_queue: Vec<ClientMessage>,
}

/// What writing a message does: with the app connected, the message goes out
/// at once; without, it joins the end of the queue.
pub open spec fn write_effect(
    old_connected: bool,
    old_queue: Seq<ClientMessage>,
    msg: ClientMessage,
    new_connected: bool,
    new_queue: Seq<ClientMessage>,
    out: Option<ClientMessage>,
) -> bool {
    &&& new_connected == old_connected
    &&& if old_connected {
        new_queue == old_queue && out == Some(msg)
    } else {
        new_queue == old_queue.push(msg) && out is None
    }
}

/// What the app's connecting with protocol version `app_version` does to the
/// queue: on a match the queued messages are handed out, oldest first, and the
/// queue is emptied; on a mismatch the app's version is the error and the queue
/// stays.
pub open spec fn accept_effect(
    old_queue: Seq<ClientMessage>,
    app_version: u8,
    handed_out: Result<Seq<ClientMessage>, u8>,
    new_queue: Seq<ClientMessage>,
) -> bool {
    if app_version == PROTOCOL_VERSION {
        handed_out == Ok::<Seq<ClientMessage>, u8>(old_queue) && new_queue.len() == 0
    } else {
        handed_out == Err::<Seq<ClientMessage>, u8>(app_version) && new_queue == old_queue
    }
}

pub open spec fn handed_out_view(r: Result<Vec<ClientMessage>, u8>) -> Result<Seq<ClientMessage>, u8> {
    match r {
        Ok(v) => Ok(v@),
        Err(e) => Err(e),
    }
}

impl PluginClient {
    /// A link that the app has not connected to yet.
    pub fn new() -> (c: PluginClient)
        ensures
            !c.connected,
            c.message_queue@.len() == 0,
    {
        PluginClient { connected: false, message_queue: Vec::new() }
    }

    /// Writes a message: returns it if it is to be sent now.
    pub fn write(&mut self, msg: ClientMessage) -> (out: Option<ClientMessage>)
        ensures
            write_effect(
                old(self).connected,
                old(self).message_queue@,
                msg,
                final(self).connected,
                final(self).message_queue@,
                out,
            ),
    {
        if self.connected {
            Some(msg)
        } else {
            self.message_queue.push(msg);
            None
        }
    }

    /// The app has connected and sent its protocol version. On a match, the
    /// queued messages are handed out, oldest first, to be sent before anything
    /// else; the plugin marks the link connected once they are sent. On a
    /// mismatch, the app's version is returned and the queue kept.
    pub fn accept(&mut self, app_version: u8) -> (r: Result<Vec<ClientMessage>, u8>)
        ensures
            final(self).connected == old(self).connected,
            accept_effect(
                old(self).message_queue@,
                app_version,
                handed_out_view(r),
                final(self).message_queue@,
            ),
    {
        if app_version != PROTOCOL_VERSION {
            return Err(app_version);
        }
        let mut queue: Vec<ClientMessage> = Vec::new();
        std::mem::swap(&mut queue, &mut self.message_queue);
        Ok(queue)
    }
}

/// Claims world `id` (never 0).
pub fn client_set_player_id(client: &mut PluginClient, id: u8) -> (out: Option<ClientMessage>)
    requires
        id != 0,
    ensures
        write_effect(
            old(client).connected,
            old(client).message_queue@,
            ClientMessage::PlayerId(id),
            final(client).connected,
            final(client).message_queue@,
            out,
        ),
{
    client.write(ClientMessage::PlayerId(id))
}

/// Gives up the claimed world.
pub fn client_reset_player_id(client: &mut PluginClient) -> (out: Option<ClientMessage>)
    ensures
        write_effect(
            old(client).connected,
            old(client).message_queue@,
            ClientMessage::ResetPlayerId,
            final(client).connected,
            final(client).message_queue@,
            out,
        ),
{
    client.write(ClientMessage::ResetPlayerId)
}

/// Reports the name of the player's file.
pub fn client_set_player_name(client: &mut PluginClient, name: Filename) -> (out: Option<ClientMessage>)
    ensures
        write_effect(
            old(client).connected,
            old(client).message_queue@,
            ClientMessage::PlayerName(name),
            final(client).connected,
            final(client).message_queue@,
            out,
        ),
{
    client.write(ClientMessage::PlayerName(name))
}

/// Reports the hash of the player's file.
pub fn client_set_file_hash(client: &mut PluginClient, hash: [HashIcon; 5]) -> (out: Option<ClientMessage>)
    ensures
        write_effect(
            old(client).connected,
            old(client).message_queue@,
            ClientMessage::FileHash(Some(hash)),
            final(client).connected,
            final(client).message_queue@,
            out,
        ),
{
    client.write(ClientMessage::FileHash(Some(hash)))
}

/// Reports the player's save data, which is a whole save.
pub fn client_set_save_data(client: &mut PluginClient, save: Vec<u8>) -> (out: Option<ClientMessage>)
    requires
        save@.len() == SAVE_DATA_SIZE,
    ensures
        final(client).connected == old(client).connected,
        old(client).connected ==> final(client).message_queue@ == old(client).message_queue@,
        old(client).connected ==> (out matches Some(ClientMessage::SaveData(s)) && s@ == save@),
        !old(client).connected ==> out is None,
        !old(client).connected ==> final(client).message_queue@.len() == old(
            client,
        ).message_queue@.len() + 1,
        !old(client).connected ==> final(client).message_queue@.take(
            old(client).message_queue@.len() as int,
        ) == old(client).message_queue@,
        !old(client).connected ==> (final(client).message_queue@.last() matches ClientMessage::SaveData(s)
            && s@ == save@),
{
    let ghost data = save@;
    let out = client.write(ClientMessage::SaveData(save));
    proof {
        if !old(client).connected {
            assert(final(client).message_queue@.take(old(client).message_queue@.len() as int)
                =~= old(client).message_queue@);
        }
    }
    out
}

/// Sends an item to world `target_world` (never 0).
pub fn client_send_item(client: &mut PluginClient, key: u64, kind: u16, target_world: u8) -> (out:
    Option<ClientMessage>)
    requires
        target_world != 0,
    ensures
        write_effect(
            old(client).connected,
            old(client).message_queue@,
            ClientMessage::SendItem { key, kind, target_world },
            final(client).connected,
            final(client).message_queue@,
            out,
        ),
{
    client.write(ClientMessage::SendItem { key, kind, target_world })
}

/// A dungeon reward's location from the plugin: known if the world is not 0 and
/// the area is known.
pub open spec fn plugin_reward_location(world: u8, area: OptHintArea) -> RewardLocation {
    if world != 0 && hint_area_of(area) is Some {
        Some((world, hint_area_of(area)->Some_0))
    } else {
        None
    }
}

fn reward_location_of(world: u8, area: OptHintArea) -> (r: RewardLocation)
    ensures
        r == plugin_reward_location(world, area),
{
    match HintArea::try_from_opt(area) {
        Ok(a) => if world != 0 {
            Some((world, a))
        } else {
            None
        },
        Err(()) => None,
    }
}

/// Reports where the dungeon rewards are, in the game's order of rewards.
pub fn client_send_dungeon_reward_info(
    emerald_world: u8,
    emerald_area: OptHintArea,
    ruby_world: u8,
    ruby_area: OptHintArea,
    sapphire_world: u8,
    sapphire_area: OptHintArea,
    light_world: u8,
    light_area: OptHintArea,
    forest_world: u8,
    forest_area: OptHintArea,
    fire_world: u8,
    fire_area: OptHintArea,
    water_world: u8,
    water_area: OptHintArea,
    shadow_world: u8,
    shadow_area: OptHintArea,
    spirit_world: u8,
    spirit_area: OptHintArea,
    client: &mut PluginClient,
) -> (out: Option<ClientMessage>)
    ensures
        write_effect(
            old(client).connected,
            old(client).message_queue@,
            ClientMessage::DungeonRewardInfo {
                emerald: plugin_reward_location(emerald_world, emerald_area),
                ruby: plugin_reward_location(ruby_world, ruby_area),
                sapphire: plugin_reward_location(sapphire_world, sapphire_area),
                light: plugin_reward_location(light_world, light_area),
                forest: plugin_reward_location(forest_world, forest_area),
                fire: plugin_reward_location(fire_world, fire_area),
                water: plugin_reward_location(water_world, water_area),
                shadow: plugin_reward_location(shadow_world, shadow_area),
                spirit: plugin_reward_location(spirit_world, spirit_area),
            },
            final(client).connected,
            final(client).message_queue@,
            out,
        ),
{
    let msg = ClientMessage::DungeonRewardInfo {
        emerald: reward_location_of(emerald_world, emerald_area),
        ruby: reward_location_of(ruby_world, ruby_area),
        sapphire: reward_location_of(sapphire_world, sapphire_area),
        light: reward_location_of(light_world, light_area),
        forest: reward_location_of(forest_world, forest_area),
        fire: reward_location_of(fire_world, fire_area),
        water: reward_location_of(water_world, water_area),
        shadow: reward_location_of(shadow_world, shadow_area),
        spirit: reward_location_of(spirit_world, spirit_area),
    };
    client.write(msg)
}

/// Reports the scene the player is in.
pub fn client_send_current_scene(client: &mut PluginClient, current_scene: u8) -> (out: Option<
    ClientMessage,
>)
    ensures
        write_effect(
            old(client).connected,
            old(client).message_queue@,
            ClientMessage::CurrentScene(current_scene),
            final(client).connected,
            final(client).message_queue@,
            out,
        ),
{
    client.write(ClientMessage::CurrentScene(current_scene))
}

/// Every message written while the app is not connected is handed out when the
/// app connects with the plugin's protocol version: the messages come out in
/// the order they were written, after those queued before, and none is sent
/// early. (`queues[i]` is the queue before the `i`-th write.)
pub proof fn lemma_queued_messages_delivered_in_order(
    queues: Seq<Seq<ClientMessage>>,
    msgs: Seq<ClientMessage>,
    outs: Seq<Option<ClientMessage>>,
    handed_out: Result<Seq<ClientMessage>, u8>,
    final_queue: Seq<ClientMessage>,
)
    requires
        queues.len() == msgs.len() + 1,
        outs.len() == msgs.len(),
        forall|i: int|
            0 <= i < msgs.len() ==> write_effect(
                false,
                #[trigger] queues[i],
                msgs[i],
                false,
                queues[i + 1],
                outs[i],
            ),
        accept_effect(queues.last(), PROTOCOL_VERSION, handed_out, final_queue),
    ensures
        forall|i: int| 0 <= i < outs.len() ==> outs[i] is None,
        handed_out == Ok::<Seq<ClientMessage>, u8>(queues[0] + msgs),
        final_queue.len() == 0,
    decreases msgs.len(),
{
    assert forall|i: int| 0 <= i < outs.len() implies outs[i] is None by {
        assert(write_effect(false, queues[i], msgs[i], false, queues[i + 1], outs[i]));
    }
    if msgs.len() == 0 {
        assert(queues[0] + msgs =~= queues[0]);
    } else {
        let n = msgs.len() - 1;
        let prefix_queues = queues.take(queues.len() - 1);
        let prefix_msgs = msgs.take(n);
        let prefix_outs = outs.take(n);
        assert forall|i: int| 0 <= i < prefix_msgs.len() implies write_effect(
            false,
            #[trigger] prefix_queues[i],
            prefix_msgs[i],
            false,
            prefix_queues[i + 1],
            prefix_outs[i],
        ) by {
            assert(write_effect(false, queues[i], msgs[i], false, queues[i + 1], outs[i]));
        }
        lemma_queued_messages_delivered_in_order(
            prefix_queues,
            prefix_msgs,
            prefix_outs,
            Ok(prefix_queues.last()),
            Seq::empty(),
        );
        assert(write_effect(false, queues[n], msgs[n], false, queues[n + 1], outs[n]));
        assert(prefix_queues.last() == queues[n]);
        assert(queues[n] == queues[0] + prefix_msgs);
        assert(queues.last() =~= queues[0] + msgs);
    }
}

} // verus!
