use multiworld::bytes::{read_be, read_be16, u16_to_be, u32_to_be};
use multiworld::frontend::{ClientMessage, Kind, TargetOs, dungeon_reward_info, reward_location};
use multiworld::hash_icon::{FfiHashIcon, HashIcon};
use multiworld::hint_area::{HintArea, OptHintArea, hint_area_from_byte};
use multiworld::server_error::ServerError;
use multiworld::text::{IntErrorKind, chars_of, decimal_string, parse_unsigned_range, word_ranges};

#[test]
fn hash_icon_numbers_round_trip() {
    for n in 0u8..32 {
        let icon = HashIcon::from_index(n).expect("icon number in range");
        assert_eq!(icon.index(), n);
    }
    assert_eq!(HashIcon::from_index(0), Some(HashIcon::DekuStick));
    assert_eq!(HashIcon::from_index(30), Some(HashIcon::DungeonMap));
    assert_eq!(HashIcon::from_index(31), Some(HashIcon::BigMagic));
    assert_eq!(HashIcon::from_index(32), None);
    assert_eq!(HashIcon::from_index(255), None);
}

#[test]
fn ffi_hash_icons_convert_by_name() {
    assert_eq!(HashIcon::from(FfiHashIcon::DekuStick), HashIcon::DekuStick);
    assert_eq!(HashIcon::from(FfiHashIcon::SoldOut), HashIcon::SoldOut);
    assert_eq!(HashIcon::from(FfiHashIcon::DungeonMap), HashIcon::DungeonMap);
    assert_eq!(HashIcon::from(FfiHashIcon::BigMagic), HashIcon::BigMagic);
}

#[test]
fn hint_area_bytes() {
    assert_eq!(OptHintArea::from_u8(0), Some(OptHintArea::Unknown));
    assert_eq!(OptHintArea::from_u8(1), Some(OptHintArea::Root));
    assert_eq!(OptHintArea::from_u8(36), Some(OptHintArea::SpiritTemple));
    assert_eq!(OptHintArea::from_u8(37), None);
    for b in 0u8..=36 {
        assert_eq!(OptHintArea::from_u8(b).unwrap().to_u8(), b);
    }
    assert_eq!(HintArea::try_from_opt(OptHintArea::Unknown), Err(()));
    assert_eq!(HintArea::try_from_opt(OptHintArea::DekuTree), Ok(HintArea::DekuTree));
    assert_eq!(hint_area_from_byte(0), None);
    assert_eq!(hint_area_from_byte(1), Some(HintArea::Root));
    assert_eq!(hint_area_from_byte(36), Some(HintArea::SpiritTemple));
    assert_eq!(hint_area_from_byte(37), None);
}

#[test]
fn server_error_bytes_round_trip() {
    assert_eq!(ServerError::from(1u8), ServerError::WrongPassword);
    assert_eq!(ServerError::from(6u8), ServerError::SessionExpiredRaceTime);
    assert_eq!(ServerError::from(0u8), ServerError::Future(0));
    assert_eq!(ServerError::from(42u8), ServerError::Future(42));
    for b in 0u8..=255 {
        assert_eq!(u8::from(ServerError::from(b)), b);
    }
    assert_eq!(u8::from(ServerError::RoomExists), 2);
}

#[test]
fn server_error_messages() {
    assert_eq!(ServerError::WrongPassword.to_display_string(), "wrong password");
    assert_eq!(ServerError::Future(17).to_display_string(), "server error #17");
    assert_eq!(
        ServerError::NoMidosHouseAccountRaceTime.to_display_string(),
        "no Mido's House user associated with this racetime.gg account",
    );
}

#[test]
fn big_endian_numbers() {
    let buf = [0x12u8, 0x34, 0x56, 0x78, 0x9a, 0xbc, 0xde, 0xf0, 0x11];
    assert_eq!(read_be16(&buf, 0), 0x1234);
    assert_eq!(read_be16(&buf, 7), 0xf011);
    assert_eq!(read_be(&buf, 0, 8), 0x1234_5678_9abc_def0);
    assert_eq!(read_be(&buf, 1, 3), 0x34_5678);
    assert_eq!(read_be(&buf, 4, 0), 0);
    assert_eq!(u16_to_be(0xbeef), [0xbe, 0xef]);
    assert_eq!(u32_to_be(0x0102_0304), [1, 2, 3, 4]);
}

#[test]
fn decimal_text() {
    assert_eq!(decimal_string(0), "0");
    assert_eq!(decimal_string(7), "7");
    assert_eq!(decimal_string(1234), "1234");
    assert_eq!(decimal_string(u64::MAX), "18446744073709551615");
}

#[test]
fn parsing_unsigned_numbers() {
    let v = chars_of("+255 256 x1 +");
    assert_eq!(parse_unsigned_range(&v, 0, 4, 255), Ok(255));
    assert_eq!(parse_unsigned_range(&v, 5, 8, 255).map_err(|e| e.kind), Err(IntErrorKind::PosOverflow));
    assert_eq!(parse_unsigned_range(&v, 9, 11, 255).map_err(|e| e.kind), Err(IntErrorKind::InvalidDigit));
    assert_eq!(parse_unsigned_range(&v, 12, 13, 255).map_err(|e| e.kind), Err(IntErrorKind::InvalidDigit));
    assert_eq!(parse_unsigned_range(&v, 4, 4, 255).map_err(|e| e.kind), Err(IntErrorKind::Empty));
    let w = chars_of("18446744073709551616");
    assert_eq!(parse_unsigned_range(&w, 0, w.len(), u64::MAX).map_err(|e| e.kind), Err(IntErrorKind::PosOverflow));
    assert_eq!(parse_unsigned_range(&w, 0, w.len() - 1, u64::MAX), Ok(1844674407370955161));
}

#[test]
fn words_split_on_ascii_whitespace() {
    let v = chars_of("  8.2.52\t Fenhl-1 \n");
    assert_eq!(word_ranges(&v), vec![(2, 8), (10, 17)]);
    assert_eq!(word_ranges(&chars_of("")), vec![]);
    assert_eq!(word_ranges(&chars_of(" \t ")), vec![]);
}

#[test]
fn frontend_kinds() {
    assert!(Kind::BizHawk.is_supported(TargetOs::Linux, None));
    assert!(!Kind::BizHawk.is_supported(TargetOs::MacOs, None));
    assert!(Kind::Pj64V3.is_supported(TargetOs::Windows, None));
    assert!(!Kind::Pj64V3.is_supported(TargetOs::Linux, None));
    assert!(!Kind::Pj64V4.is_supported(TargetOs::Windows, None));
    assert!(!Kind::Dummy.is_supported(TargetOs::Windows, Some("1")));
    assert!(Kind::EverDrive.is_supported(TargetOs::MacOs, Some("1")));
    assert!(!Kind::EverDrive.is_supported(TargetOs::Linux, Some("")));
    assert!(!Kind::EverDrive.is_supported(TargetOs::Linux, None));
    assert_eq!(Kind::Pj64V4.display_name(), "Project64");
    assert_eq!(Kind::Dummy.display_name(), "(no frontend)");
}

#[test]
fn reward_locations_from_bytes() {
    assert_eq!(reward_location(0, 5), None);
    assert_eq!(reward_location(3, 0), None);
    assert_eq!(reward_location(3, 37), None);
    assert_eq!(reward_location(3, 1), Some((3, HintArea::Root)));
    assert_eq!(reward_location(255, 36), Some((255, HintArea::SpiritTemple)));
    let mut buf = vec![9u8];
    buf.extend_from_slice(&[1, 10, 0, 4, 2, 0, 2, 11, 3, 13, 4, 16, 5, 19, 6, 25, 7, 29]);
    match dungeon_reward_info(&buf, 1) {
        ClientMessage::DungeonRewardInfo { emerald, ruby, sapphire, light, forest, fire, water, shadow, spirit } => {
            assert_eq!(emerald, Some((1, HintArea::DekuTree)));
            assert_eq!(ruby, None);
            assert_eq!(sapphire, None);
            assert_eq!(light, Some((2, HintArea::LostWoods)));
            assert_eq!(forest, Some((3, HintArea::ForestTemple)));
            assert_eq!(fire, Some((4, HintArea::GoronCity)));
            assert_eq!(water, Some((5, HintArea::ZoraRiver)));
            assert_eq!(shadow, Some((6, HintArea::WaterTemple)));
            assert_eq!(spirit, Some((7, HintArea::ShadowTemple)));
        }
        other => panic!("unexpected message {other:?}"),
    }
}
