use multiworld::config::{Config, IdentityProvider, default_websocket_hostname};
use multiworld::dotted::{bizhawk_release_version, dotted_version, normalized_version};
use multiworld::github::{Issue, Label, Release, ReleaseAsset, Repo};
use multiworld::localization::{Locale, Message};
use multiworld::text::{IntErrorKind, ParseIntError};

fn release(tag: &str, upload_url: &str) -> Release {
    Release { assets: vec![], id: 123456, tag_name: tag.to_string(), upload_url: upload_url.to_string() }
}

#[test]
fn default_config() {
    let config = Config::default();
    assert_eq!(config.websocket_hostname, "mw.midos.house");
    assert_eq!(default_websocket_hostname(), "mw.midos.house");
    assert!(!config.log);
    assert!(config.login_tokens.is_empty());
    assert!(config.refresh_tokens.is_empty());
    assert!(config.default_frontend.is_none());
    assert!(config.locale.is_none());
    assert!(config.pj64_script_path.is_none());
}

#[test]
fn websocket_url() {
    let mut config = Config::default();
    assert_eq!(config.websocket_url(16).unwrap().as_str(), "wss://mw.midos.house/v16");
    config.websocket_hostname = "localhost:24809".to_string();
    assert_eq!(config.websocket_url(3).unwrap().as_str(), "wss://localhost:24809/v3");
    config.websocket_hostname = "bad host".to_string();
    assert!(config.websocket_url(1).is_err());
    config.login_tokens.insert(IdentityProvider::Discord, "token".to_string());
    assert_eq!(config.clone().login_tokens.len(), 1);
}

#[test]
fn github_api_urls() {
    let repo = Repo::new("midoshouse", "ootr-multiworld");
    assert_eq!(repo.latest_release_url(), "https://api.github.com/repos/midoshouse/ootr-multiworld/releases/latest");
    assert_eq!(repo.release_by_tag_url("v16.0.0"), "https://api.github.com/repos/midoshouse/ootr-multiworld/releases/tags/v16.0.0");
    assert_eq!(repo.releases_url(), "https://api.github.com/repos/midoshouse/ootr-multiworld/releases");
    assert_eq!(repo.release_url(&release("v1.0.0", "")), "https://api.github.com/repos/midoshouse/ootr-multiworld/releases/123456");
    assert_eq!(repo.issues_url(), "https://api.github.com/repos/midoshouse/ootr-multiworld/issues");
    let issue = Issue { number: 43, labels: vec![Label { name: "bug".to_string() }] };
    assert_eq!(repo.issue_url(&issue), "https://api.github.com/repos/midoshouse/ootr-multiworld/issues/43");
}

#[test]
fn release_versions() {
    assert_eq!(release("v16.0.3", "").version().unwrap(), semver::Version::new(16, 0, 3));
    assert_eq!(release("v1.2.3-beta.1", "").version().unwrap(), semver::Version::parse("1.2.3-beta.1").unwrap());
    assert!(release("vx", "").version().is_err());
    assert!(release("v", "").version().is_err());
}

#[test]
fn upload_targets() {
    let r = release("v1.0.0", "https://uploads.github.com/repos/midoshouse/ootr-multiworld/releases/1/assets{?name,label}");
    assert_eq!(r.upload_target(), "https://uploads.github.com/repos/midoshouse/ootr-multiworld/releases/1/assets");
    assert_eq!(release("v1", "a{?name,label}b{?name,label}").upload_target(), "ab");
    assert_eq!(release("v1", "{?name,label").upload_target(), "{?name,label");
    assert_eq!(release("v1", "").upload_target(), "");
    let asset = ReleaseAsset { name: "x".to_string(), browser_download_url: url::Url::parse("https://example.com/x").unwrap() };
    assert_eq!(asset.browser_download_url.as_str(), "https://example.com/x");
}

#[test]
fn dotted_versions() {
    assert_eq!(dotted_version("2.9.1"), Ok((2, 9, 1)));
    assert_eq!(dotted_version("2.9"), Ok((2, 9, 0)));
    assert_eq!(dotted_version("4"), Ok((4, 0, 0)));
    assert_eq!(dotted_version("2.9.1.0"), Ok((2, 9, 1)));
    assert_eq!(dotted_version("2.9.1.x"), Ok((2, 9, 1)));
    assert_eq!(dotted_version(""), Err(ParseIntError { kind: IntErrorKind::Empty }));
    assert_eq!(dotted_version("2..1"), Err(ParseIntError { kind: IntErrorKind::Empty }));
    assert_eq!(dotted_version("2.x.1"), Err(ParseIntError { kind: IntErrorKind::InvalidDigit }));
    assert_eq!(dotted_version("a.99999999999999999999"), Err(ParseIntError { kind: IntErrorKind::InvalidDigit }));
    assert_eq!(dotted_version("1.99999999999999999999"), Err(ParseIntError { kind: IntErrorKind::PosOverflow }));
    assert_eq!(normalized_version("2.9").unwrap(), "2.9.0");
    assert_eq!(normalized_version("+2.09.1.5").unwrap(), "2.9.1");
    assert_eq!(bizhawk_release_version("2.10").unwrap(), semver::Version::new(2, 10, 0));
    assert!(bizhawk_release_version("BizHawk 2.10").is_err());
}

#[test]
fn translations() {
    assert_eq!(Locale::default(), Locale::EN);
    assert_eq!(Locale::EN.message(Message::OpenPj64Button), "Open Project64");
    assert_eq!(Locale::FR.message(Message::OpenPj64Button), "Ouvrir Project64");
    assert_eq!(
        Locale::EN.message(Message::InstallerReopenUAC),
        "The installer has been reopened with admin permissions. Please continue there.",
    );
    assert!(Locale::FR.message(Message::InstallerReopenUAC).starts_with("L'installateur a été ré-ouvert"));
    assert_eq!(Locale::EN.to_display_string(), "English");
    assert_eq!(Locale::FR.to_display_string(), "Français");
}
