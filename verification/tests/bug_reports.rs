use multiworld::gui::{ErrorSource, bug_report};
use multiworld::installer::install_error_report;
use multiworld::report::{error_report, port_errors_report};
use multiworld::updater::update_error_report;

#[test]
fn report_escapes_the_message() {
    let report = error_report("heading:", "failed *badly* at `x` in my_file", "Io(Error { kind: NotFound })");
    assert_eq!(
        report,
        "heading:\nfailed \\*badly\\* at \\`x\\` in my\\_file\n```rust\nIo(Error { kind: NotFound })\n```",
    );
}

#[test]
fn report_defuses_mentions_and_fences() {
    let report = error_report("h", "ping @everyone", "a```b");
    assert_eq!(report, "h\nping @\u{200B}everyone\n```rust\na b\n```");
}

#[test]
fn report_on_serial_ports() {
    let errors = vec![
        ("/dev/ttyUSB0".to_string(), "TimedOut".to_string()),
        ("COM`3".to_string(), "x```y".to_string()),
    ];
    assert_eq!(
        port_errors_report("searching:", &errors),
        "searching:\n`/dev/ttyUSB0`:\n```rust\nTimedOut\n```\n`COM'3`:\n```rust\nx y\n```",
    );
    assert_eq!(port_errors_report("searching:", &vec![]), "searching:");
}

#[test]
fn window_bug_reports() {
    let none = vec![];
    assert_eq!(
        bug_report(ErrorSource::Config, "16.0.0", false, None, "BizHawk", "bad config", "Json(..)", &none),
        "error in Mido's House Multiworld version 16.0.0 while trying to load config:\nbad config\n```rust\nJson(..)\n```",
    );
    assert_eq!(
        bug_report(ErrorSource::NoError, "16.0.0", false, None, "BizHawk", "", "", &none),
        "tried to copy debug info with no active error",
    );
    assert_eq!(
        bug_report(ErrorSource::EverDriveSearch { no_ports: true }, "16.0.0", true, None, "EverDrive", "", "", &none),
        "error in Mido's House Multiworld version 16.0.0 (debug) while searching for EverDrives: no serial ports found",
    );
    let ports = vec![("COM3".to_string(), "Timeout".to_string())];
    assert_eq!(
        bug_report(ErrorSource::EverDriveSearch { no_ports: false }, "16.0.0", false, None, "EverDrive", "", "", &ports),
        "error in Mido's House Multiworld version 16.0.0 while searching for EverDrives:\n`COM3`:\n```rust\nTimeout\n```",
    );
    assert_eq!(
        bug_report(ErrorSource::Login, "16.0.0", false, Some("Discord"), "BizHawk", "denied", "Denied", &none),
        "error in Mido's House Multiworld version 16.0.0 while trying to sign in with Discord:\ndenied\n```rust\nDenied\n```",
    );
}

#[test]
fn updater_and_installer_reports() {
    assert_eq!(
        update_error_report("16.0.0", true, "no release", "NoRelease"),
        "error while trying to update Mido's House Multiworld from version 16.0.0 (debug):\nno release\n```rust\nNoRelease\n```",
    );
    assert_eq!(
        install_error_report("1.2.3", "can't install to the filesystem root", "Root"),
        "error in multiworld-installer version 1.2.3:\ncan't install to the filesystem root\n```rust\nRoot\n```",
    );
}
