//! The icons of a seed's file hash.
use vstd::prelude::*;

verus! {

/// One of the 32 icons that make up a seed's file hash, in the order in which
/// the randomizer numbers them.
#[derive(Clone, Copy, Debug, PartialEq, Eq, Hash, Structural)]
pub enum HashIcon {
    DekuStick,
    DekuNut,
    Bow,
    Slingshot,
    FairyOcarina,
    Bombchu,
    Longshot,
    Boomerang,
    LensOfTruth,
    Beans,
    MegatonHammer,
    BottledFish,
    BottledMilk,
    MaskOfTruth,
    SoldOut,
    Cucco,
    Mushroom,
    Saw,
    Frog,
    MasterSword,
    MirrorShield,
    KokiriTunic,
    HoverBoots,
    SilverGauntlets,
    GoldScale,
    StoneOfAgony,
    SkullToken,
    HeartContainer,
    BossKey,
    Compass,
    DungeonMap,
    BigMagic,
}

/// The number of distinct hash icons.
pub const HASH_ICON_COUNT: u8 = 32;

/// The position of `icon` in the randomizer's numbering.
pub open spec fn hash_icon_index(icon: HashIcon) -> nat {
    match icon {
        HashIcon::DekuStick => 0,
        HashIcon::DekuNut => 1,
        HashIcon::Bow => 2,
        HashIcon::Slingshot => 3,
        HashIcon::FairyOcarina => 4,
        HashIcon::Bombchu => 5,
        HashIcon::Longshot => 6,
        HashIcon::Boomerang => 7,
        HashIcon::LensOfTruth => 8,
        HashIcon::Beans => 9,
        HashIcon::MegatonHammer => 10,
        HashIcon::BottledFish => 11,
        HashIcon::BottledMilk => 12,
        HashIcon::MaskOfTruth => 13,
        HashIcon::SoldOut => 14,
        HashIcon::Cucco => 15,
        HashIcon::Mushroom => 16,
        HashIcon::Saw => 17,
        HashIcon::Frog => 18,
        HashIcon::MasterSword => 19,
        HashIcon::MirrorShield => 20,
        HashIcon::KokiriTunic => 21,
        HashIcon::HoverBoots => 22,
        HashIcon::SilverGauntlets => 23,
        HashIcon::GoldScale => 24,
        HashIcon::StoneOfAgony => 25,
        HashIcon::SkullToken => 26,
        HashIcon::HeartContainer => 27,
        HashIcon::BossKey => 28,
        HashIcon::Compass => 29,
        HashIcon::DungeonMap => 30,
        HashIcon::BigMagic => 31,
    }
}

impl HashIcon {
    /// The icon with the given number (the `n`th value of the icon sequence),
    /// or `None` past the last icon.
    pub fn from_index(n: u8) -> (r: Option<HashIcon>)
        ensures
            n < 32 <==> r is Some,
            r matches Some(icon) ==> hash_icon_index(icon) == n,
    {
        match n {
            0 => Some(HashIcon::DekuStick),
            1 => Some(HashIcon::DekuNut),
            2 => Some(HashIcon::Bow),
            3 => Some(HashIcon::Slingshot),
            4 => Some(HashIcon::FairyOcarina),
            5 => Some(HashIcon::Bombchu),
            6 => Some(HashIcon::Longshot),
            7 => Some(HashIcon::Boomerang),
            8 => Some(HashIcon::LensOfTruth),
            9 => Some(HashIcon::Beans),
            10 => Some(HashIcon::MegatonHammer),
            11 => Some(HashIcon::BottledFish),
            12 => Some(HashIcon::BottledMilk),
            13 => Some(HashIcon::MaskOfTruth),
            14 => Some(HashIcon::SoldOut),
            15 => Some(HashIcon::Cucco),
            16 => Some(HashIcon::Mushroom),
            17 => Some(HashIcon::Saw),
            18 => Some(HashIcon::Frog),
            19 => Some(HashIcon::MasterSword),
            20 => Some(HashIcon::MirrorShield),
            21 => Some(HashIcon::KokiriTunic),
            22 => Some(HashIcon::HoverBoots),
            23 => Some(HashIcon::SilverGauntlets),
            24 => Some(HashIcon::GoldScale),
            25 => Some(HashIcon::StoneOfAgony),
            26 => Some(HashIcon::SkullToken),
            27 => Some(HashIcon::HeartContainer),
            28 => Some(HashIcon::BossKey),
            29 => Some(HashIcon::Compass),
            30 => Some(HashIcon::DungeonMap),
            31 => Some(HashIcon::BigMagic),
            _ => None,
        }
    }

    /// The number of this icon.
    pub fn index(&self) -> (r: u8)
        ensures
            r as nat == hash_icon_index(*self),
            r < 32,
    {
        match self {
            HashIcon::DekuStick => 0,
            HashIcon::DekuNut => 1,
            HashIcon::Bow => 2,
            HashIcon::Slingshot => 3,
            HashIcon::FairyOcarina => 4,
            HashIcon::Bombchu => 5,
            HashIcon::Longshot => 6,
            HashIcon::Boomerang => 7,
            HashIcon::LensOfTruth => 8,
            HashIcon::Beans => 9,
            HashIcon::MegatonHammer => 10,
            HashIcon::BottledFish => 11,
            HashIcon::BottledMilk => 12,
            HashIcon::MaskOfTruth => 13,
            HashIcon::SoldOut => 14,
            HashIcon::Cucco => 15,
            HashIcon::Mushroom => 16,
            HashIcon::Saw => 17,
            HashIcon::Frog => 18,
            HashIcon::MasterSword => 19,
            HashIcon::MirrorShield => 20,
            HashIcon::KokiriTunic => 21,
            HashIcon::HoverBoots => 22,
            HashIcon::SilverGauntlets => 23,
            HashIcon::GoldScale => 24,
            HashIcon::StoneOfAgony => 25,
            HashIcon::SkullToken => 26,
            HashIcon::HeartContainer => 27,
            HashIcon::BossKey => 28,
            HashIcon::Compass => 29,
            HashIcon::DungeonMap => 30,
            HashIcon::BigMagic => 31,
        }
    }
}

/// Numbering the icons and reading the number back gives the same icon.
pub proof fn lemma_hash_icon_index_roundtrip(icon: HashIcon)
    ensures
        hash_icon_index(icon) < 32,
        forall|other: HashIcon| hash_icon_index(other) == hash_icon_index(icon) ==> other == icon,
{
}

/// The randomizer numbers the icons in this order (the order of the plugin's
/// `repr(u8)` icon type): the icon at position `i` has number `i`, and
/// `from_index` reads each number back as the icon at its position.
pub proof fn lemma_hash_icon_table(icon: HashIcon, n: u8)
    ensures
        ({
            let table = seq![
                HashIcon::DekuStick, HashIcon::DekuNut, HashIcon::Bow, HashIcon::Slingshot,
                HashIcon::FairyOcarina, HashIcon::Bombchu, HashIcon::Longshot, HashIcon::Boomerang,
                HashIcon::LensOfTruth, HashIcon::Beans, HashIcon::MegatonHammer, HashIcon::BottledFish,
                HashIcon::BottledMilk, HashIcon::MaskOfTruth, HashIcon::SoldOut, HashIcon::Cucco,
                HashIcon::Mushroom, HashIcon::Saw, HashIcon::Frog, HashIcon::MasterSword,
                HashIcon::MirrorShield, HashIcon::KokiriTunic, HashIcon::HoverBoots, HashIcon::SilverGauntlets,
                HashIcon::GoldScale, HashIcon::StoneOfAgony, HashIcon::SkullToken, HashIcon::HeartContainer,
                HashIcon::BossKey, HashIcon::Compass, HashIcon::DungeonMap, HashIcon::BigMagic,
            ];
            &&& table.len() == 32
            &&& hash_icon_index(icon) < 32
            &&& table[hash_icon_index(icon) as int] == icon
            &&& n < 32 ==> hash_icon_index(table[n as int]) == n
        }),
{
}

/// The hash icons as the BizHawk plugin passes them (one byte each, in the
/// randomizer's numbering).
#[derive(Clone, Copy, Debug, PartialEq, Eq, Structural)]
pub enum FfiHashIcon {
    DekuStick,
    DekuNut,
    Bow,
    Slingshot,
    FairyOcarina,
    Bombchu,
    Longshot,
    Boomerang,
    LensOfTruth,
    Beans,
    MegatonHammer,
    BottledFish,
    BottledMilk,
    MaskOfTruth,
    SoldOut,
    Cucco,
    Mushroom,
    Saw,
    Frog,
    MasterSword,
    MirrorShield,
    KokiriTunic,
    HoverBoots,
    SilverGauntlets,
    GoldScale,
    StoneOfAgony,
    SkullToken,
    HeartContainer,
    BossKey,
    Compass,
    DungeonMap,
    BigMagic,
}

pub open spec fn ffi_hash_icon_to_hash_icon(icon: FfiHashIcon) -> HashIcon {
    match icon {
        FfiHashIcon::DekuStick => HashIcon::DekuStick,
        FfiHashIcon::DekuNut => HashIcon::DekuNut,
        FfiHashIcon::Bow => HashIcon::Bow,
        FfiHashIcon::Slingshot => HashIcon::Slingshot,
        FfiHashIcon::FairyOcarina => HashIcon::FairyOcarina,
        FfiHashIcon::Bombchu => HashIcon::Bombchu,
        FfiHashIcon::Longshot => HashIcon::Longshot,
        FfiHashIcon::Boomerang => HashIcon::Boomerang,
        FfiHashIcon::LensOfTruth => HashIcon::LensOfTruth,
        FfiHashIcon::Beans => HashIcon::Beans,
        FfiHashIcon::MegatonHammer => HashIcon::MegatonHammer,
        FfiHashIcon::BottledFish => HashIcon::BottledFish,
        FfiHashIcon::BottledMilk => HashIcon::BottledMilk,
        FfiHashIcon::MaskOfTruth => HashIcon::MaskOfTruth,
        FfiHashIcon::SoldOut => HashIcon::SoldOut,
        FfiHashIcon::Cucco => HashIcon::Cucco,
        FfiHashIcon::Mushroom => HashIcon::Mushroom,
        FfiHashIcon::Saw => HashIcon::Saw,
        FfiHashIcon::Frog => HashIcon::Frog,
        FfiHashIcon::MasterSword => HashIcon::MasterSword,
        FfiHashIcon::MirrorShield => HashIcon::MirrorShield,
        FfiHashIcon::KokiriTunic => HashIcon::KokiriTunic,
        FfiHashIcon::HoverBoots => HashIcon::HoverBoots,
        FfiHashIcon::SilverGauntlets => HashIcon::SilverGauntlets,
        FfiHashIcon::GoldScale => HashIcon::GoldScale,
        FfiHashIcon::StoneOfAgony => HashIcon::StoneOfAgony,
        FfiHashIcon::SkullToken => HashIcon::SkullToken,
        FfiHashIcon::HeartContainer => HashIcon::HeartContainer,
        FfiHashIcon::BossKey => HashIcon::BossKey,
        FfiHashIcon::Compass => HashIcon::Compass,
        FfiHashIcon::DungeonMap => HashIcon::DungeonMap,
        FfiHashIcon::BigMagic => HashIcon::BigMagic,
    }
}

impl From<FfiHashIcon> for HashIcon {
    fn from(icon: FfiHashIcon) -> (r: HashIcon) {
        match icon {
            FfiHashIcon::DekuStick => HashIcon::DekuStick,
            FfiHashIcon::DekuNut => HashIcon::DekuNut,
            FfiHashIcon::Bow => HashIcon::Bow,
            FfiHashIcon::Slingshot => HashIcon::Slingshot,
            FfiHashIcon::FairyOcarina => HashIcon::FairyOcarina,
            FfiHashIcon::Bombchu => HashIcon::Bombchu,
            FfiHashIcon::Longshot => HashIcon::Longshot,
            FfiHashIcon::Boomerang => HashIcon::Boomerang,
            FfiHashIcon::LensOfTruth => HashIcon::LensOfTruth,
            FfiHashIcon::Beans => HashIcon::Beans,
            FfiHashIcon::MegatonHammer => HashIcon::MegatonHammer,
            FfiHashIcon::BottledFish => HashIcon::BottledFish,
            FfiHashIcon::BottledMilk => HashIcon::BottledMilk,
            FfiHashIcon::MaskOfTruth => HashIcon::MaskOfTruth,
            FfiHashIcon::SoldOut => HashIcon::SoldOut,
            FfiHashIcon::Cucco => HashIcon::Cucco,
            FfiHashIcon::Mushroom => HashIcon::Mushroom,
            FfiHashIcon::Saw => HashIcon::Saw,
            FfiHashIcon::Frog => HashIcon::Frog,
            FfiHashIcon::MasterSword => HashIcon::MasterSword,
            FfiHashIcon::MirrorShield => HashIcon::MirrorShield,
            FfiHashIcon::KokiriTunic => HashIcon::KokiriTunic,
            FfiHashIcon::HoverBoots => HashIcon::HoverBoots,
            FfiHashIcon::SilverGauntlets => HashIcon::SilverGauntlets,
            FfiHashIcon::GoldScale => HashIcon::GoldScale,
            FfiHashIcon::StoneOfAgony => HashIcon::StoneOfAgony,
            FfiHashIcon::SkullToken => HashIcon::SkullToken,
            FfiHashIcon::HeartContainer => HashIcon::HeartContainer,
            FfiHashIcon::BossKey => HashIcon::BossKey,
            FfiHashIcon::Compass => HashIcon::Compass,
            FfiHashIcon::DungeonMap => HashIcon::DungeonMap,
            FfiHashIcon::BigMagic => HashIcon::BigMagic,
        }
    }
}

impl vstd::std_specs::convert::FromSpecImpl<FfiHashIcon> for HashIcon {
    open spec fn obeys_from_spec() -> bool {
        true
    }

    open spec fn from_spec(v: FfiHashIcon) -> HashIcon {
        ffi_hash_icon_to_hash_icon(v)
    }
}

/// The plugin's icons turn into the app's icons position by position: the
/// `k`-th variant of the plugin's icon type is the icon numbered `k`.
pub proof fn lemma_ffi_hash_icon_order(k: int)
    requires
        0 <= k < 32,
    ensures
        ({
            let ffi = seq![
                FfiHashIcon::DekuStick, FfiHashIcon::DekuNut, FfiHashIcon::Bow, FfiHashIcon::Slingshot,
                FfiHashIcon::FairyOcarina, FfiHashIcon::Bombchu, FfiHashIcon::Longshot, FfiHashIcon::Boomerang,
                FfiHashIcon::LensOfTruth, FfiHashIcon::Beans, FfiHashIcon::MegatonHammer, FfiHashIcon::BottledFish,
                FfiHashIcon::BottledMilk, FfiHashIcon::MaskOfTruth, FfiHashIcon::SoldOut, FfiHashIcon::Cucco,
                FfiHashIcon::Mushroom, FfiHashIcon::Saw, FfiHashIcon::Frog, FfiHashIcon::MasterSword,
                FfiHashIcon::MirrorShield, FfiHashIcon::KokiriTunic, FfiHashIcon::HoverBoots,
                FfiHashIcon::SilverGauntlets, FfiHashIcon::GoldScale, FfiHashIcon::StoneOfAgony,
                FfiHashIcon::SkullToken, FfiHashIcon::HeartContainer, FfiHashIcon::BossKey, FfiHashIcon::Compass,
                FfiHashIcon::DungeonMap, FfiHashIcon::BigMagic,
            ];
            hash_icon_index(ffi_hash_icon_to_hash_icon(ffi[k])) == k
        }),
{
}

} // verus!
