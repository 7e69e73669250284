use multiworld::frontend::{Kind, TargetOs};
use multiworld::github::ReleaseAsset;
use multiworld::gui::{ErrorSource, ErrorState, JoinRequest, RoomChoice, display_with_version, error_heading, error_source, is_locked, join_request, window_title};
use multiworld::updater::{
    BizHawkStep, Emulator, UpdaterError, bizhawk_platform_suffix, bizhawk_step, bizhawk_tag, multiworld_assets,
    ZipEntryTarget, archive_bizhawk_version, required_bizhawk_version, select_assets, single_asset_with_suffix,
    zip_entry_target,
};

fn asset(name: &str) -> ReleaseAsset {
    ReleaseAsset { name: name.to_string(), browser_download_url: url::Url::parse("https://example.com/").unwrap() }
}

#[test]
fn assets_per_emulator() {
    assert_eq!(multiworld_assets(Emulator::EverDrive, TargetOs::Linux), ("multiworld-gui-linux", None));
    assert_eq!(multiworld_assets(Emulator::EverDrive, TargetOs::Windows), ("multiworld-pj64.exe", None));
    assert_eq!(multiworld_assets(Emulator::BizHawk, TargetOs::Linux), ("multiworld-bizhawk-linux.zip", None));
    assert_eq!(multiworld_assets(Emulator::BizHawk, TargetOs::Windows), ("multiworld-bizhawk.zip", None));
    assert_eq!(multiworld_assets(Emulator::Pj64, TargetOs::Windows), ("multiworld-pj64.exe", Some("ootrmw-pj64.js")));
    assert_eq!(bizhawk_platform_suffix(TargetOs::Linux), "-linux-x64.tar.gz");
    assert_eq!(bizhawk_platform_suffix(TargetOs::Windows), "-win-x64.zip");
}

#[test]
fn selecting_release_assets() {
    let assets = vec![asset("ootrmw-pj64.js"), asset("multiworld-pj64.exe"), asset("multiworld-bizhawk.zip"), asset("multiworld-pj64.exe")];
    assert_eq!(select_assets(&assets, "multiworld-pj64.exe", Some("ootrmw-pj64.js")).unwrap(), (3, Some(0)));
    assert_eq!(select_assets(&assets, "multiworld-bizhawk.zip", None).unwrap(), (2, None));
    assert!(matches!(select_assets(&assets, "multiworld-gui-linux", None), Err(UpdaterError::MissingAsset)));
    assert!(matches!(select_assets(&assets, "multiworld-pj64.exe", Some("other.js")), Err(UpdaterError::MissingAsset)));
}

#[test]
fn bizhawk_downloads() {
    let assets = vec![asset("BizHawk-2.10-win-x64.zip"), asset("BizHawk-2.10-linux-x64.tar.gz"), asset("README")];
    assert_eq!(single_asset_with_suffix(&assets, "-win-x64.zip").unwrap(), 0);
    assert_eq!(single_asset_with_suffix(&assets, "-linux-x64.tar.gz").unwrap(), 1);
    assert!(matches!(single_asset_with_suffix(&assets, "-mac.zip"), Err(UpdaterError::MissingAsset)));
    let twice = vec![asset("a-win-x64.zip"), asset("b-win-x64.zip")];
    assert!(matches!(single_asset_with_suffix(&twice, "-win-x64.zip"), Err(UpdaterError::MissingAsset)));
}

#[test]
fn required_bizhawk_versions() {
    let prefix = "This is Mido's House Multiworld for BizHawk. It requires BizHawk ";
    let readme = "This is Mido's House Multiworld for BizHawk. It requires BizHawk 2.10.0. Other text. More.";
    assert_eq!(required_bizhawk_version(readme, prefix).unwrap(), semver::Version::new(2, 10, 0));
    assert!(matches!(required_bizhawk_version("Something else 2.10.0. ", prefix), Err(UpdaterError::ReadmeFormat)));
    assert!(matches!(required_bizhawk_version(&format!("{prefix}2.10.0"), prefix), Err(UpdaterError::ReadmeFormat)));
    assert!(matches!(required_bizhawk_version(&format!("{prefix}2.10. "), prefix), Err(UpdaterError::SemVer(_))));
}

#[test]
fn bizhawk_steps_and_tags() {
    let v = |a, b, c| semver::Version::new(a, b, c);
    assert!(matches!(bizhawk_step(&v(2, 9, 1), &v(2, 10, 0)), Ok(BizHawkStep::AskUpdate)));
    assert!(matches!(bizhawk_step(&v(2, 10, 0), &v(2, 10, 0)), Ok(BizHawkStep::Launch)));
    assert!(matches!(bizhawk_step(&v(2, 10, 1), &v(2, 10, 0)), Err(UpdaterError::BizHawkVersionRegression)));
    assert_eq!(bizhawk_tag(&v(2, 10, 0)), "2.10");
    assert_eq!(bizhawk_tag(&v(2, 0, 0)), "2");
    assert_eq!(bizhawk_tag(&v(2, 9, 1)), "2.9.1");
    assert_eq!(bizhawk_tag(&v(10, 0, 10)), "10.0.10");
}

#[test]
fn joining_rooms() {
    let pw = "secret".to_string();
    let none = String::new();
    let open = Some(RoomChoice { id: 5, password_required: false });
    let closed = Some(RoomChoice { id: 6, password_required: true });
    assert!(matches!(join_request(false, open, &none, &none), Some(JoinRequest::JoinRoom { id: 5, password: None })));
    assert!(join_request(false, closed, &none, &none).is_none());
    assert!(matches!(join_request(false, closed, &none, &pw), Some(JoinRequest::JoinRoom { id: 6, password: Some(p) }) if p == "secret"));
    assert!(matches!(join_request(true, None, &"new".to_string(), &pw), Some(JoinRequest::CreateRoom { name, password }) if name == "new" && password == "secret"));
    assert!(join_request(true, None, &none, &pw).is_none());
    assert!(join_request(true, None, &"new".to_string(), &none).is_none());
    assert!(join_request(false, None, &none, &pw).is_none());
}

#[test]
fn window_names() {
    assert_eq!(window_title(Kind::BizHawk, true), "Mido's House Multiworld for BizHawk");
    assert_eq!(window_title(Kind::BizHawk, false), "Mido's House Multiworld");
    assert_eq!(window_title(Kind::Pj64V3, true), "Mido's House Multiworld");
    assert!(is_locked(Kind::BizHawk, true));
    assert!(!is_locked(Kind::EverDrive, true));
    let v = semver::Version::new(2, 9, 1);
    assert_eq!(display_with_version(Kind::BizHawk, Some(&v)), "BizHawk 2.9.1");
    assert_eq!(display_with_version(Kind::BizHawk, None), "BizHawk");
    assert_eq!(display_with_version(Kind::Pj64V4, None), "Project64 4.x");
    assert_eq!(display_with_version(Kind::Dummy, None), "(no frontend)");
}

fn no_errors() -> ErrorState {
    ErrorState {
        update_error: None,
        icon_error: false,
        config_error: false,
        persistent_state_error: false,
        command_error: false,
        login_error: false,
        frontend_subscription_error: false,
        everdrive_search: None,
        server_error: None,
        session_refresh_error: false,
    }
}

#[test]
fn bug_report_sources() {
    assert_eq!(error_source(false, &no_errors()), ErrorSource::NoError);
    assert_eq!(error_source(true, &no_errors()), ErrorSource::NoError);
    let mut e = no_errors();
    e.update_error = Some(true);
    e.command_error = true;
    assert_eq!(error_source(true, &e), ErrorSource::Update { network: true });
    assert_eq!(error_source(false, &e), ErrorSource::Command);
    e.config_error = true;
    assert_eq!(error_source(false, &e), ErrorSource::Config);
    let mut e = no_errors();
    e.everdrive_search = Some(0);
    e.server_error = Some(true);
    assert_eq!(error_source(false, &e), ErrorSource::EverDriveSearch { no_ports: true });
    e.everdrive_search = None;
    assert_eq!(error_source(false, &e), ErrorSource::ServerNetwork);
    e.server_error = Some(false);
    assert_eq!(error_source(false, &e), ErrorSource::ServerCommunication);
}

#[test]
fn bug_report_headings() {
    assert_eq!(
        error_heading(ErrorSource::Update { network: true }, "16.0.0", false, None, ""),
        "network error while attempting to update Mido's House Multiworld from version 16.0.0:",
    );
    assert_eq!(
        error_heading(ErrorSource::Config, "16.0.0", true, None, ""),
        "error in Mido's House Multiworld version 16.0.0 (debug) while trying to load config:",
    );
    assert_eq!(
        error_heading(ErrorSource::Login, "1.2.3", false, Some("Discord"), ""),
        "error in Mido's House Multiworld version 1.2.3 while trying to sign in with Discord:",
    );
    assert_eq!(
        error_heading(ErrorSource::FrontendSubscription, "1.2.3", false, None, "Project64 3.x"),
        "error in Mido's House Multiworld version 1.2.3 during communication with Project64 3.x:",
    );
    assert_eq!(
        error_heading(ErrorSource::EverDriveSearch { no_ports: true }, "1", false, None, ""),
        "error in Mido's House Multiworld version 1 while searching for EverDrives: no serial ports found",
    );
    assert_eq!(error_heading(ErrorSource::ServerNetwork, "1", false, None, ""), "network error in Mido's House Multiworld version 1:");
    assert_eq!(error_heading(ErrorSource::NoError, "1", false, None, ""), "tried to copy debug info with no active error");
}

#[test]
fn bizhawk_archive_entries() {
    assert_eq!(zip_entry_target("README.txt", TargetOs::Linux).unwrap(), ZipEntryTarget::Readme);
    assert_eq!(zip_entry_target("OotrMultiworld.dll", TargetOs::Windows).unwrap(), ZipEntryTarget::Tool);
    assert_eq!(zip_entry_target("libmultiworld.so", TargetOs::Linux).unwrap(), ZipEntryTarget::NativeLibrary);
    assert_eq!(zip_entry_target("multiworld.dll", TargetOs::Windows).unwrap(), ZipEntryTarget::NativeLibrary);
    assert!(matches!(zip_entry_target("multiworld.dll", TargetOs::Linux), Err(UpdaterError::UnexpectedZipEntry)));
    assert!(matches!(zip_entry_target("libmultiworld.so", TargetOs::Windows), Err(UpdaterError::UnexpectedZipEntry)));
    assert!(matches!(zip_entry_target("readme.txt", TargetOs::Linux), Err(UpdaterError::UnexpectedZipEntry)));
    assert_eq!(archive_bizhawk_version(Some(semver::Version::new(2, 10, 0))).unwrap(), semver::Version::new(2, 10, 0));
    assert!(matches!(archive_bizhawk_version(None), Err(UpdaterError::MissingReadme)));
}
