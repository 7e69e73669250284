//! The messages exchanged between the multiworld app and a frontend (an
//! emulator plugin or a flashcart), and the kinds of frontend.
use vstd::prelude::*;
use crate::hash_icon::HashIcon;
use crate::hint_area::{HintArea, hint_area_index, hint_area_from_byte};

verus! {

/// The default port used for connections between client and frontend.
///
/// If possible, prefer having the OS select an unused port dynamically, to
/// allow multiple instances of multiworld to run in parallel on the same computer.
pub const PORT: u16 = 24818;

/// The version of the protocol between the app and the emulator plugins.
pub const PROTOCOL_VERSION: u8 = 4;

/// The size in bytes of the save data of an Ocarina of Time file.
pub const SAVE_DATA_SIZE: usize = 0x1450;

/// The operating system the app was built for.
#[derive(Clone, Copy, Debug, PartialEq, Eq, Structural)]
pub enum TargetOs {
    Linux,
    Windows,
    MacOs,
    Other,
}

/// A kind of frontend the app can connect to.
#[derive(Clone, Copy, Debug, PartialEq, Eq, Hash, Structural)]
pub enum Kind {
    Dummy,
    EverDrive,
    BizHawk,
    Pj64V3,
    Pj64V4,
}

/// Whether a frontend kind is offered on `os`; EverDrive support is enabled by a
/// non-empty `MHMW_EVERDRIVE` environment variable, whose value is `everdrive_envar`.
pub open spec fn kind_supported(kind: Kind, os: TargetOs, everdrive_envar: Option<Seq<char>>) -> bool {
    match kind {
        Kind::Dummy => false,
        Kind::EverDrive => everdrive_envar matches Some(v) && v.len() > 0,
        Kind::BizHawk => os == TargetOs::Linux || os == TargetOs::Windows,
        Kind::Pj64V3 => os == TargetOs::Windows,
        Kind::Pj64V4 => false,
    }
}

/// The name under which a frontend kind is shown.
pub open spec fn kind_display_name(kind: Kind) -> Seq<char> {
    match kind {
        Kind::Dummy => "(no frontend)"@,
        Kind::EverDrive => "EverDrive"@,
        Kind::BizHawk => "BizHawk"@,
        Kind::Pj64V3 => "Project64"@,
        Kind::Pj64V4 => "Project64"@,
    }
}

impl Kind {
    /// Whether this frontend is offered to the user, on the given OS and with the
    /// given value of the `MHMW_EVERDRIVE` environment variable.
    pub fn is_supported(&self, os: TargetOs, everdrive_envar: Option<&str>) -> (r: bool)
        ensures
            r == kind_supported(
                *self,
                os,
                match everdrive_envar {
                    Some(v) => Some(v@),
                    None => None,
                },
            ),
    {
        match self {
            Kind::Dummy => false,
            Kind::EverDrive => match everdrive_envar {
                Some(v) => !v.is_empty(),
                None => false,
            },
            Kind::BizHawk => match os {
                TargetOs::Linux | TargetOs::Windows => true,
                _ => false,
            },
            Kind::Pj64V3 => match os {
                TargetOs::Windows => true,
                _ => false,
            },
            Kind::Pj64V4 => false,
        }
    }

    /// The name under which this frontend is shown (its `Display` text).
    pub fn display_name(&self) -> (r: &'static str)
        ensures
            r@ == kind_display_name(*self),
    {
        match self {
            Kind::Dummy => "(no frontend)",
            Kind::EverDrive => "EverDrive",
            Kind::BizHawk => "BizHawk",
            Kind::Pj64V3 => "Project64",
            Kind::Pj64V4 => "Project64",
        }
    }
}

/// The name of a save file, in the game's own 8-byte character encoding.
#[derive(Clone, Copy, Debug)]
pub struct Filename(pub [u8; 8]);

impl Default for Filename {
    /// The name of an unnamed file: eight spaces (`0xdf` in the game's encoding).
    fn default() -> (r: Filename)
        ensures
            r.0@ == Seq::new(8, |i: int| 0xdfu8),
    {
        let r = Filename([0xdf; 8]);
        assert(r.0@ =~= Seq::new(8, |i: int| 0xdfu8));
        r
    }
}

/// Where a dungeon reward is: the world (never 0) and the hint area.
pub type RewardLocation = Option<(u8, HintArea)>;

/// A message from the app to a frontend.
#[derive(Clone, Debug)]
pub enum ServerMessage {
    ItemQueue(Vec<u16>),
    GetItem(u16),
    PlayerName(u8, Filename),
    ProgressiveItems(u8, u32),
}

/// A message from a frontend to the app. World numbers are never 0.
#[derive(Clone, Debug)]
pub enum ClientMessage {
    PlayerId(u8),
    PlayerName(Filename),
    SendItem { key: u64, kind: u16, target_world: u8 },
    SaveData(Vec<u8>),
    FileHash(Option<[HashIcon; 5]>),
    ResetPlayerId,
    DungeonRewardInfo {
        emerald: RewardLocation,
        ruby: RewardLocation,
        sapphire: RewardLocation,
        light: RewardLocation,
        forest: RewardLocation,
        fire: RewardLocation,
        water: RewardLocation,
        shadow: RewardLocation,
        spirit: RewardLocation,
    },
    CurrentScene(u8),
}

/// Decodes a (world, area) pair of bytes sent by the game for a dungeon reward.
pub fn reward_location(world: u8, area: u8) -> (r: RewardLocation)
    ensures
        r is Some <==> world != 0 && 1 <= area <= 36,
        r matches Some((w, a)) ==> w == world && hint_area_index(a) + 1 == area,
{
    if world == 0 {
        return None;
    }
    match hint_area_from_byte(area) {
        Some(a) => Some((world, a)),
        None => None,
    }
}

/// The nine dungeon reward locations that the game sends as 18 bytes, starting at
/// `buf[start]`, as (world, area) pairs in the order Kokiri Emerald, Goron Ruby,
/// Zora Sapphire, Light, Forest, Fire, Water, Shadow and Spirit Medallion.
pub fn dungeon_reward_info(buf: &[u8], start: usize) -> (r: ClientMessage)
    requires
        start + 18 <= buf.len(),
    ensures
        r matches ClientMessage::DungeonRewardInfo {
            emerald,
            ruby,
            sapphire,
            light,
            forest,
            fire,
            water,
            shadow,
            spirit,
        } && reward_location_matches(emerald, buf@, start as int) && reward_location_matches(
            ruby,
            buf@,
            start + 2,
        ) && reward_location_matches(sapphire, buf@, start + 4) && reward_location_matches(
            light,
            buf@,
            start + 6,
        ) && reward_location_matches(forest, buf@, start + 8) && reward_location_matches(
            fire,
            buf@,
            start + 10,
        ) && reward_location_matches(water, buf@, start + 12) && reward_location_matches(
            shadow,
            buf@,
            start + 14,
        ) && reward_location_matches(spirit, buf@, start + 16),
{
    ClientMessage::DungeonRewardInfo {
        emerald: reward_location(buf[start], buf[start + 1]),
        ruby: reward_location(buf[start + 2], buf[start + 3]),
        sapphire: reward_location(buf[start + 4], buf[start + 5]),
        light: reward_location(buf[start + 6], buf[start + 7]),
        forest: reward_location(buf[start + 8], buf[start + 9]),
        fire: reward_location(buf[start + 10], buf[start + 11]),
        water: reward_location(buf[start + 12], buf[start + 13]),
        shadow: reward_location(buf[start + 14], buf[start + 15]),
        spirit: reward_location(buf[start + 16], buf[start + 17]),
    }
}

/// `loc` is what the bytes `b[i]` (world) and `b[i + 1]` (area) describe.
pub open spec fn reward_location_matches(loc: RewardLocation, b: Seq<u8>, i: int) -> bool {
    &&& (loc is Some <==> b[i] != 0 && 1 <= b[i + 1] <= 36)
    &&& (loc matches Some((w, a)) ==> w == b[i] && hint_area_index(a) + 1 == b[i + 1])
}

} // verus!

