use multiworld::frontend::{Kind, TargetOs};
use multiworld::gui::initial_frontend;
use multiworld::installer::{Emulator, Page, browse_title};

#[test]
fn back_button() {
    let locate = Page::LocateEmulator {
        emulator: Emulator::BizHawk,
        install_emulator: true,
        emulator_path: "/home/link/BizHawk".to_string(),
        multiworld_path: None,
    };
    match locate.back() {
        Page::SelectEmulator { emulator, install_emulator, emulator_path, multiworld_path } => {
            assert_eq!(emulator, Some(Emulator::BizHawk));
            assert_eq!(install_emulator, Some(true));
            assert_eq!(emulator_path.as_deref(), Some("/home/link/BizHawk"));
            assert_eq!(multiworld_path, None);
        }
        other => panic!("unexpected {other:?}"),
    }
    let ask = Page::AskBizHawkUpdate { emulator_path: "p".to_string(), multiworld_path: Some("m".to_string()) };
    assert!(matches!(ask.back(), Page::LocateEmulator { emulator: Emulator::BizHawk, install_emulator: false, multiworld_path: Some(_), .. }));
    let pj64 = Page::LocateMultiworld { emulator: Emulator::Project64, emulator_path: "p".to_string(), multiworld_path: "m".to_string() };
    assert!(matches!(pj64.back(), Page::LocateEmulator { emulator: Emulator::Project64, multiworld_path: Some(m), .. } if m == "m"));
    let launch = Page::AskLaunch { emulator: Emulator::Project64, emulator_path: "p".to_string(), multiworld_path: Some("m".to_string()) };
    assert!(matches!(launch.back(), Page::LocateMultiworld { multiworld_path, .. } if multiworld_path == "m"));
    let launch = Page::AskLaunch { emulator: Emulator::Project64, emulator_path: "p".to_string(), multiworld_path: None };
    assert!(matches!(launch.back(), Page::LocateEmulator { multiworld_path: None, .. }));
    let install = Page::InstallMultiworld { emulator: Emulator::BizHawk, emulator_path: "p".to_string(), multiworld_path: Some("m".to_string()), config_write_failed: true };
    assert!(matches!(install.back(), Page::LocateEmulator { emulator: Emulator::BizHawk, multiworld_path: Some(_), .. }));
}

#[test]
fn folder_dialog_titles() {
    assert_eq!(browse_title(Emulator::BizHawk, false), "Select BizHawk Folder");
    assert_eq!(browse_title(Emulator::BizHawk, true), "Choose Location for BizHawk Installation");
    assert_eq!(browse_title(Emulator::Project64, false), "Select Project64 Folder");
    assert_eq!(browse_title(Emulator::Project64, true), "Choose Location for Project64 Installation");
}

#[test]
fn starting_frontend() {
    assert_eq!(initial_frontend(Some(Kind::Dummy), Some(Kind::BizHawk), TargetOs::Windows), Kind::Dummy);
    assert_eq!(initial_frontend(None, Some(Kind::BizHawk), TargetOs::Windows), Kind::BizHawk);
    assert_eq!(initial_frontend(None, None, TargetOs::Windows), Kind::Pj64V3);
    assert_eq!(initial_frontend(None, None, TargetOs::Linux), Kind::EverDrive);
}
