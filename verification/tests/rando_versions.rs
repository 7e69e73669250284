use multiworld::rando::{BaseVersion, Branch, Version, VersionParseError};
use multiworld::text::{IntErrorKind, ParseIntError};

#[test]
fn parses_main_branch_versions() {
    assert_eq!(Version::from_str("8.1.0"), Ok(Version::dev(8, 1, 0)));
    assert_eq!(Version::from_str("8.1.0 f.LUM"), Ok(Version::dev(8, 1, 0)));
    assert_eq!(Version::from_str("  7.1.195\tf.LUM\n"), Ok(Version::dev(7, 1, 195)));
}

#[test]
fn parses_branch_versions() {
    assert_eq!(Version::from_str("8.2.52 Fenhl-1"), Ok(Version::branch(Branch::DevFenhl, 8, 2, 52, 1)));
    assert_eq!(Version::from_str("8.2.7 R-1"), Ok(Version::branch(Branch::DevR, 8, 2, 7, 1)));
    let v = Version::from_str("8.3.68 Fenhl-2").unwrap();
    assert_eq!(v.branch, Branch::DevFenhl);
    assert_eq!(v.base, BaseVersion { major: 8, minor: 3, patch: 68 });
    assert_eq!(v.supplementary, Some(2));
}

#[test]
fn rejects_malformed_versions() {
    assert_eq!(Version::from_str(""), Err(VersionParseError::Words));
    assert_eq!(Version::from_str("   "), Err(VersionParseError::Words));
    assert_eq!(Version::from_str("8.1.0 f.LUM extra"), Err(VersionParseError::Words));
    assert_eq!(Version::from_str("8.1"), Err(VersionParseError::Base));
    assert_eq!(Version::from_str("8.1.x"), Err(VersionParseError::Base));
    assert_eq!(Version::from_str("8..1"), Err(VersionParseError::Base));
    assert_eq!(Version::from_str("8.1.0 foo"), Err(VersionParseError::Branch));
    assert_eq!(Version::from_str("8.1.0 Fenhl-"), Err(VersionParseError::Branch));
    assert_eq!(Version::from_str("8.1.0 R-1x"), Err(VersionParseError::Branch));
    assert_eq!(
        Version::from_str("300.0.0"),
        Err(VersionParseError::ParseInt(ParseIntError { kind: IntErrorKind::PosOverflow })),
    );
    assert_eq!(
        Version::from_str("8.2.52 Fenhl-256"),
        Err(VersionParseError::ParseInt(ParseIntError { kind: IntErrorKind::PosOverflow })),
    );
    // the base version is checked before the branch
    assert_eq!(Version::from_str("8.1 foo"), Err(VersionParseError::Base));
}

#[test]
fn writes_versions() {
    assert_eq!(Version::dev(8, 1, 0).to_display_string(), "8.1.0 f.LUM");
    assert_eq!(Version::branch(Branch::DevFenhl, 8, 2, 52, 1).to_display_string(), "8.2.52 Fenhl-1");
    assert_eq!(Version::branch(Branch::DevR, 8, 2, 7, 12).to_display_string(), "8.2.7 R-12");
}

#[test]
fn written_versions_read_back() {
    for v in [
        Version::dev(0, 0, 0),
        Version::dev(255, 255, 255),
        Version::branch(Branch::DevFenhl, 8, 3, 68, 2),
        Version::branch(Branch::DevR, 8, 2, 7, 0),
    ] {
        assert_eq!(Version::from_str(&v.to_display_string()), Ok(v));
    }
}

#[test]
fn checkout_directory_names() {
    assert_eq!(Version::dev(8, 1, 0).dir_name(), "rando-dev-8.1.0");
    assert_eq!(Version::branch(Branch::DevFenhl, 8, 2, 52, 1).dir_name(), "rando-devFenhl-8.2.52-1");
    assert_eq!(Version::branch(Branch::DevR, 8, 2, 7, 3).dir_name(), "rando-devR-8.2.7-3");
}

#[test]
fn branch_names() {
    assert_eq!(Branch::Dev.github_username(), "TestRunnerSRL");
    assert_eq!(Branch::DevFenhl.github_username(), "fenhl");
    assert_eq!(Branch::DevR.github_username(), "Roman971");
    assert_eq!(Branch::DevFenhl.web_name_known_settings(), "devFenhl");
    assert_eq!(Branch::Dev.web_name_known_settings(), "dev");
}
