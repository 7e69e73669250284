//! The hint areas of the randomizer, as reported by the game for dungeon rewards.
use vstd::prelude::*;

verus! {

/// A hint area of the randomizer.
#[derive(Clone, Copy, Debug, PartialEq, Eq, Hash, Structural)]
pub enum HintArea {
    Root,
    HyruleField,
    LonLonRanch,
    Market,
    TempleOfTime,
    HyruleCastle,
    OutsideGanonsCastle,
    InsideGanonsCastle,
    KokiriForest,
    DekuTree,
    LostWoods,
    SacredForestMeadow,
    ForestTemple,
    DeathMountainTrail,
    DodongosCavern,
    GoronCity,
    DeathMountainCrater,
    FireTemple,
    ZoraRiver,
    ZorasDomain,
    ZorasFountain,
    JabuJabusBelly,
    IceCavern,
    LakeHylia,
    WaterTemple,
    KakarikoVillage,
    BottomOfTheWell,
    Graveyard,
    ShadowTemple,
    GerudoValley,
    GerudoFortress,
    ThievesHideout,
    GerudoTrainingGround,
    HauntedWasteland,
    DesertColossus,
    SpiritTemple,
}

/// A hint area as the game encodes it in one byte: `Unknown` (byte 0) when the
/// location of a reward is not known yet, else a hint area.
#[derive(Clone, Copy, Debug, PartialEq, Eq, Structural)]
pub enum OptHintArea {
    Unknown,
    Root,
    HyruleField,
    LonLonRanch,
    Market,
    TempleOfTime,
    HyruleCastle,
    OutsideGanonsCastle,
    InsideGanonsCastle,
    KokiriForest,
    DekuTree,
    LostWoods,
    SacredForestMeadow,
    ForestTemple,
    DeathMountainTrail,
    DodongosCavern,
    GoronCity,
    DeathMountainCrater,
    FireTemple,
    ZoraRiver,
    ZorasDomain,
    ZorasFountain,
    JabuJabusBelly,
    IceCavern,
    LakeHylia,
    WaterTemple,
    KakarikoVillage,
    BottomOfTheWell,
    Graveyard,
    ShadowTemple,
    GerudoValley,
    GerudoFortress,
    ThievesHideout,
    GerudoTrainingGround,
    HauntedWasteland,
    DesertColossus,
    SpiritTemple,
}

/// The byte that encodes `a`.
pub open spec fn opt_hint_area_byte(a: OptHintArea) -> nat {
    match a {
        OptHintArea::Unknown => 0,
        OptHintArea::Root => 1,
        OptHintArea::HyruleField => 2,
        OptHintArea::LonLonRanch => 3,
        OptHintArea::Market => 4,
        OptHintArea::TempleOfTime => 5,
        OptHintArea::HyruleCastle => 6,
        OptHintArea::OutsideGanonsCastle => 7,
        OptHintArea::InsideGanonsCastle => 8,
        OptHintArea::KokiriForest => 9,
        OptHintArea::DekuTree => 10,
        OptHintArea::LostWoods => 11,
        OptHintArea::SacredForestMeadow => 12,
        OptHintArea::ForestTemple => 13,
        OptHintArea::DeathMountainTrail => 14,
        OptHintArea::DodongosCavern => 15,
        OptHintArea::GoronCity => 16,
        OptHintArea::DeathMountainCrater => 17,
        OptHintArea::FireTemple => 18,
        OptHintArea::ZoraRiver => 19,
        OptHintArea::ZorasDomain => 20,
        OptHintArea::ZorasFountain => 21,
        OptHintArea::JabuJabusBelly => 22,
        OptHintArea::IceCavern => 23,
        OptHintArea::LakeHylia => 24,
        OptHintArea::WaterTemple => 25,
        OptHintArea::KakarikoVillage => 26,
        OptHintArea::BottomOfTheWell => 27,
        OptHintArea::Graveyard => 28,
        OptHintArea::ShadowTemple => 29,
        OptHintArea::GerudoValley => 30,
        OptHintArea::GerudoFortress => 31,
        OptHintArea::ThievesHideout => 32,
        OptHintArea::GerudoTrainingGround => 33,
        OptHintArea::HauntedWasteland => 34,
        OptHintArea::DesertColossus => 35,
        OptHintArea::SpiritTemple => 36,
    }
}

/// The hint area that `a` names, if it names one.
pub open spec fn hint_area_of(a: OptHintArea) -> Option<HintArea> {
    match a {
        OptHintArea::Unknown => None,
        OptHintArea::Root => Some(HintArea::Root),
        OptHintArea::HyruleField => Some(HintArea::HyruleField),
        OptHintArea::LonLonRanch => Some(HintArea::LonLonRanch),
        OptHintArea::Market => Some(HintArea::Market),
        OptHintArea::TempleOfTime => Some(HintArea::TempleOfTime),
        OptHintArea::HyruleCastle => Some(HintArea::HyruleCastle),
        OptHintArea::OutsideGanonsCastle => Some(HintArea::OutsideGanonsCastle),
        OptHintArea::InsideGanonsCastle => Some(HintArea::InsideGanonsCastle),
        OptHintArea::KokiriForest => Some(HintArea::KokiriForest),
        OptHintArea::DekuTree => Some(HintArea::DekuTree),
        OptHintArea::LostWoods => Some(HintArea::LostWoods),
        OptHintArea::SacredForestMeadow => Some(HintArea::SacredForestMeadow),
        OptHintArea::ForestTemple => Some(HintArea::ForestTemple),
        OptHintArea::DeathMountainTrail => Some(HintArea::DeathMountainTrail),
        OptHintArea::DodongosCavern => Some(HintArea::DodongosCavern),
        OptHintArea::GoronCity => Some(HintArea::GoronCity),
        OptHintArea::DeathMountainCrater => Some(HintArea::DeathMountainCrater),
        OptHintArea::FireTemple => Some(HintArea::FireTemple),
        OptHintArea::ZoraRiver => Some(HintArea::ZoraRiver),
        OptHintArea::ZorasDomain => Some(HintArea::ZorasDomain),
        OptHintArea::ZorasFountain => Some(HintArea::ZorasFountain),
        OptHintArea::JabuJabusBelly => Some(HintArea::JabuJabusBelly),
        OptHintArea::IceCavern => Some(HintArea::IceCavern),
        OptHintArea::LakeHylia => Some(HintArea::LakeHylia),
        OptHintArea::WaterTemple => Some(HintArea::WaterTemple),
        OptHintArea::KakarikoVillage => Some(HintArea::KakarikoVillage),
        OptHintArea::BottomOfTheWell => Some(HintArea::BottomOfTheWell),
        OptHintArea::Graveyard => Some(HintArea::Graveyard),
        OptHintArea::ShadowTemple => Some(HintArea::ShadowTemple),
        OptHintArea::GerudoValley => Some(HintArea::GerudoValley),
        OptHintArea::GerudoFortress => Some(HintArea::GerudoFortress),
        OptHintArea::ThievesHideout => Some(HintArea::ThievesHideout),
        OptHintArea::GerudoTrainingGround => Some(HintArea::GerudoTrainingGround),
        OptHintArea::HauntedWasteland => Some(HintArea::HauntedWasteland),
        OptHintArea::DesertColossus => Some(HintArea::DesertColossus),
        OptHintArea::SpiritTemple => Some(HintArea::SpiritTemple),
    }
}

/// The position of `a` among the hint areas (as the byte encoding less one).
pub open spec fn hint_area_index(a: HintArea) -> nat {
    match a {
        HintArea::Root => 0,
        HintArea::HyruleField => 1,
        HintArea::LonLonRanch => 2,
        HintArea::Market => 3,
        HintArea::TempleOfTime => 4,
        HintArea::HyruleCastle => 5,
        HintArea::OutsideGanonsCastle => 6,
        HintArea::InsideGanonsCastle => 7,
        HintArea::KokiriForest => 8,
        HintArea::DekuTree => 9,
        HintArea::LostWoods => 10,
        HintArea::SacredForestMeadow => 11,
        HintArea::ForestTemple => 12,
        HintArea::DeathMountainTrail => 13,
        HintArea::DodongosCavern => 14,
        HintArea::GoronCity => 15,
        HintArea::DeathMountainCrater => 16,
        HintArea::FireTemple => 17,
        HintArea::ZoraRiver => 18,
        HintArea::ZorasDomain => 19,
        HintArea::ZorasFountain => 20,
        HintArea::JabuJabusBelly => 21,
        HintArea::IceCavern => 22,
        HintArea::LakeHylia => 23,
        HintArea::WaterTemple => 24,
        HintArea::KakarikoVillage => 25,
        HintArea::BottomOfTheWell => 26,
        HintArea::Graveyard => 27,
        HintArea::ShadowTemple => 28,
        HintArea::GerudoValley => 29,
        HintArea::GerudoFortress => 30,
        HintArea::ThievesHideout => 31,
        HintArea::GerudoTrainingGround => 32,
        HintArea::HauntedWasteland => 33,
        HintArea::DesertColossus => 34,
        HintArea::SpiritTemple => 35,
    }
}

impl OptHintArea {
    /// Decodes the byte that the game sends (`FromPrimitive::from_u8`): `None`
    /// for bytes past the last hint area.
    pub fn from_u8(b: u8) -> (r: Option<OptHintArea>)
        ensures
            b <= 36 <==> r is Some,
            r matches Some(a) ==> opt_hint_area_byte(a) == b,
    {
        match b {
            0 => Some(OptHintArea::Unknown),
            1 => Some(OptHintArea::Root),
            2 => Some(OptHintArea::HyruleField),
            3 => Some(OptHintArea::LonLonRanch),
            4 => Some(OptHintArea::Market),
            5 => Some(OptHintArea::TempleOfTime),
            6 => Some(OptHintArea::HyruleCastle),
            7 => Some(OptHintArea::OutsideGanonsCastle),
            8 => Some(OptHintArea::InsideGanonsCastle),
            9 => Some(OptHintArea::KokiriForest),
            10 => Some(OptHintArea::DekuTree),
            11 => Some(OptHintArea::LostWoods),
            12 => Some(OptHintArea::SacredForestMeadow),
            13 => Some(OptHintArea::ForestTemple),
            14 => Some(OptHintArea::DeathMountainTrail),
            15 => Some(OptHintArea::DodongosCavern),
            16 => Some(OptHintArea::GoronCity),
            17 => Some(OptHintArea::DeathMountainCrater),
            18 => Some(OptHintArea::FireTemple),
            19 => Some(OptHintArea::ZoraRiver),
            20 => Some(OptHintArea::ZorasDomain),
            21 => Some(OptHintArea::ZorasFountain),
            22 => Some(OptHintArea::JabuJabusBelly),
            23 => Some(OptHintArea::IceCavern),
            24 => Some(OptHintArea::LakeHylia),
            25 => Some(OptHintArea::WaterTemple),
            26 => Some(OptHintArea::KakarikoVillage),
            27 => Some(OptHintArea::BottomOfTheWell),
            28 => Some(OptHintArea::Graveyard),
            29 => Some(OptHintArea::ShadowTemple),
            30 => Some(OptHintArea::GerudoValley),
            31 => Some(OptHintArea::GerudoFortress),
            32 => Some(OptHintArea::ThievesHideout),
            33 => Some(OptHintArea::GerudoTrainingGround),
            34 => Some(OptHintArea::HauntedWasteland),
            35 => Some(OptHintArea::DesertColossus),
            36 => Some(OptHintArea::SpiritTemple),
            _ => None,
        }
    }

    /// The byte that encodes this value.
    pub fn to_u8(&self) -> (r: u8)
        ensures
            r as nat == opt_hint_area_byte(*self),
    {
        match self {
            OptHintArea::Unknown => 0,
            OptHintArea::Root => 1,
            OptHintArea::HyruleField => 2,
            OptHintArea::LonLonRanch => 3,
            OptHintArea::Market => 4,
            OptHintArea::TempleOfTime => 5,
            OptHintArea::HyruleCastle => 6,
            OptHintArea::OutsideGanonsCastle => 7,
            OptHintArea::InsideGanonsCastle => 8,
            OptHintArea::KokiriForest => 9,
            OptHintArea::DekuTree => 10,
            OptHintArea::LostWoods => 11,
            OptHintArea::SacredForestMeadow => 12,
            OptHintArea::ForestTemple => 13,
            OptHintArea::DeathMountainTrail => 14,
            OptHintArea::DodongosCavern => 15,
            OptHintArea::GoronCity => 16,
            OptHintArea::DeathMountainCrater => 17,
            OptHintArea::FireTemple => 18,
            OptHintArea::ZoraRiver => 19,
            OptHintArea::ZorasDomain => 20,
            OptHintArea::ZorasFountain => 21,
            OptHintArea::JabuJabusBelly => 22,
            OptHintArea::IceCavern => 23,
            OptHintArea::LakeHylia => 24,
            OptHintArea::WaterTemple => 25,
            OptHintArea::KakarikoVillage => 26,
            OptHintArea::BottomOfTheWell => 27,
            OptHintArea::Graveyard => 28,
            OptHintArea::ShadowTemple => 29,
            OptHintArea::GerudoValley => 30,
            OptHintArea::GerudoFortress => 31,
            OptHintArea::ThievesHideout => 32,
            OptHintArea::GerudoTrainingGround => 33,
            OptHintArea::HauntedWasteland => 34,
            OptHintArea::DesertColossus => 35,
            OptHintArea::SpiritTemple => 36,
        }
    }
}

impl HintArea {
    /// The hint area that `a` names (`TryFrom<OptHintArea>`): an error for `Unknown`.
    pub fn try_from_opt(a: OptHintArea) -> (r: Result<HintArea, ()>)
        ensures
            r matches Ok(h) ==> hint_area_of(a) == Some(h),
            r is Err <==> a == OptHintArea::Unknown,
            hint_area_of(a) is None <==> a == OptHintArea::Unknown,
    {
        match a {
            OptHintArea::Unknown => Err(()),
            OptHintArea::Root => Ok(HintArea::Root),
            OptHintArea::HyruleField => Ok(HintArea::HyruleField),
            OptHintArea::LonLonRanch => Ok(HintArea::LonLonRanch),
            OptHintArea::Market => Ok(HintArea::Market),
            OptHintArea::TempleOfTime => Ok(HintArea::TempleOfTime),
            OptHintArea::HyruleCastle => Ok(HintArea::HyruleCastle),
            OptHintArea::OutsideGanonsCastle => Ok(HintArea::OutsideGanonsCastle),
            OptHintArea::InsideGanonsCastle => Ok(HintArea::InsideGanonsCastle),
            OptHintArea::KokiriForest => Ok(HintArea::KokiriForest),
            OptHintArea::DekuTree => Ok(HintArea::DekuTree),
            OptHintArea::LostWoods => Ok(HintArea::LostWoods),
            OptHintArea::SacredForestMeadow => Ok(HintArea::SacredForestMeadow),
            OptHintArea::ForestTemple => Ok(HintArea::ForestTemple),
            OptHintArea::DeathMountainTrail => Ok(HintArea::DeathMountainTrail),
            OptHintArea::DodongosCavern => Ok(HintArea::DodongosCavern),
            OptHintArea::GoronCity => Ok(HintArea::GoronCity),
            OptHintArea::DeathMountainCrater => Ok(HintArea::DeathMountainCrater),
            OptHintArea::FireTemple => Ok(HintArea::FireTemple),
            OptHintArea::ZoraRiver => Ok(HintArea::ZoraRiver),
            OptHintArea::ZorasDomain => Ok(HintArea::ZorasDomain),
            OptHintArea::ZorasFountain => Ok(HintArea::ZorasFountain),
            OptHintArea::JabuJabusBelly => Ok(HintArea::JabuJabusBelly),
            OptHintArea::IceCavern => Ok(HintArea::IceCavern),
            OptHintArea::LakeHylia => Ok(HintArea::LakeHylia),
            OptHintArea::WaterTemple => Ok(HintArea::WaterTemple),
            OptHintArea::KakarikoVillage => Ok(HintArea::KakarikoVillage),
            OptHintArea::BottomOfTheWell => Ok(HintArea::BottomOfTheWell),
            OptHintArea::Graveyard => Ok(HintArea::Graveyard),
            OptHintArea::ShadowTemple => Ok(HintArea::ShadowTemple),
            OptHintArea::GerudoValley => Ok(HintArea::GerudoValley),
            OptHintArea::GerudoFortress => Ok(HintArea::GerudoFortress),
            OptHintArea::ThievesHideout => Ok(HintArea::ThievesHideout),
            OptHintArea::GerudoTrainingGround => Ok(HintArea::GerudoTrainingGround),
            OptHintArea::HauntedWasteland => Ok(HintArea::HauntedWasteland),
            OptHintArea::DesertColossus => Ok(HintArea::DesertColossus),
            OptHintArea::SpiritTemple => Ok(HintArea::SpiritTemple),
        }
    }
}

/// Decodes a hint area byte as the frontends do
/// (`OptHintArea::from_u8(b).and_then(|a| HintArea::try_from(a).ok())`).
pub fn hint_area_from_byte(b: u8) -> (r: Option<HintArea>)
    ensures
        r is Some <==> 1 <= b <= 36,
        r matches Some(a) ==> hint_area_index(a) + 1 == b,
{
    match OptHintArea::from_u8(b) {
        Some(o) => match HintArea::try_from_opt(o) {
            Ok(a) => {
                proof { lemma_hint_area_byte(o); }
                Some(a)
            }
            Err(()) => None,
        },
        None => None,
    }
}

/// The byte of a named hint area is its index plus one.
pub proof fn lemma_hint_area_byte(o: OptHintArea)
    ensures
        hint_area_of(o) matches Some(a) ==> opt_hint_area_byte(o) == hint_area_index(a) + 1,
        hint_area_of(o) is None ==> opt_hint_area_byte(o) == 0,
{
}

/// Every hint area has a distinct index below 36.
pub proof fn lemma_hint_area_index_injective(a: HintArea, b: HintArea)
    ensures
        hint_area_index(a) < 36,
        hint_area_index(a) == hint_area_index(b) ==> a == b,
{
}

/// The randomizer numbers the hint areas in this order: the game sends the
/// area at position `i` as the byte `i + 1`, and byte 0 for an unknown area.
pub proof fn lemma_hint_area_table(a: HintArea, n: int)
    ensures
        ({
            let table = seq![
                HintArea::Root, HintArea::HyruleField, HintArea::LonLonRanch, HintArea::Market,
                HintArea::TempleOfTime, HintArea::HyruleCastle, HintArea::OutsideGanonsCastle,
                HintArea::InsideGanonsCastle, HintArea::KokiriForest, HintArea::DekuTree, HintArea::LostWoods,
                HintArea::SacredForestMeadow, HintArea::ForestTemple, HintArea::DeathMountainTrail,
                HintArea::DodongosCavern, HintArea::GoronCity, HintArea::DeathMountainCrater,
                HintArea::FireTemple, HintArea::ZoraRiver, HintArea::ZorasDomain, HintArea::ZorasFountain,
                HintArea::JabuJabusBelly, HintArea::IceCavern, HintArea::LakeHylia, HintArea::WaterTemple,
                HintArea::KakarikoVillage, HintArea::BottomOfTheWell, HintArea::Graveyard,
                HintArea::ShadowTemple, HintArea::GerudoValley, HintArea::GerudoFortress,
                HintArea::ThievesHideout, HintArea::GerudoTrainingGround, HintArea::HauntedWasteland,
                HintArea::DesertColossus, HintArea::SpiritTemple,
            ];
            &&& table.len() == 36
            &&& table[hint_area_index(a) as int] == a
            &&& 0 <= n < 36 ==> hint_area_index(table[n]) == n
        }),
        opt_hint_area_byte(OptHintArea::Unknown) == 0,
{
}

} // verus!
