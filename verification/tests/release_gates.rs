use multiworld::github::{Issue, Label};
use multiworld::release_checks::{
    ReleaseArgs, ReleaseCheckError, ReleaseCommand, check_bizhawk_version, check_pj64_protocol_version, check_release_version, released_labels,
};
use multiworld::text::{IntErrorKind, ParseIntError};
use semver::Version;

#[test]
fn release_version_gate() {
    let v = |a, b, c| Version::new(a, b, c);
    assert_eq!(check_release_version(&v(16, 0, 0), None, false), Ok(()));
    assert_eq!(check_release_version(&v(16, 0, 1), Some(&v(16, 0, 0)), false), Ok(()));
    assert_eq!(check_release_version(&v(16, 0, 0), Some(&v(16, 0, 0)), false), Err(ReleaseCheckError::SameVersion));
    assert_eq!(check_release_version(&v(16, 0, 0), Some(&v(16, 0, 0)), true), Ok(()));
    assert_eq!(
        check_release_version(&v(15, 9, 9), Some(&v(16, 0, 0)), true),
        Err(ReleaseCheckError::VersionRegression),
    );
    let pre = Version::parse("16.0.0-beta.1").unwrap();
    assert_eq!(check_release_version(&pre, Some(&v(16, 0, 0)), false), Err(ReleaseCheckError::VersionRegression));
}

#[test]
fn bizhawk_version_gate() {
    let v = |a, b, c| Version::new(a, b, c);
    assert_eq!(check_bizhawk_version(&v(2, 10, 0), &v(2, 10, 0)), Ok(()));
    assert_eq!(check_bizhawk_version(&v(2, 9, 1), &v(2, 10, 0)), Err(ReleaseCheckError::BizHawkOutdated));
    assert_eq!(check_bizhawk_version(&v(2, 11, 0), &v(2, 10, 0)), Err(ReleaseCheckError::BizHawkVersionRegression));
}

#[test]
fn pj64_protocol_versions() {
    let ok = "// multiworld\r\nconst MW_FRONTEND_PROTO_VERSION = 4;\r\nconst OTHER = 1;\r\n";
    assert_eq!(check_pj64_protocol_version(ok), Ok(()));
    assert_eq!(check_pj64_protocol_version("const MW_FRONTEND_PROTO_VERSION = 004;"), Ok(()));
    assert_eq!(
        check_pj64_protocol_version("x\nconst MW_FRONTEND_PROTO_VERSION = 5;\nconst MW_FRONTEND_PROTO_VERSION = 4;\n"),
        Err(ReleaseCheckError::WrongPj64ProtocolVersion(5)),
    );
    assert_eq!(
        check_pj64_protocol_version("const MW_FRONTEND_PROTO_VERSION = 300;\n"),
        Err(ReleaseCheckError::ParseInt(ParseIntError { kind: IntErrorKind::PosOverflow })),
    );
    assert_eq!(check_pj64_protocol_version(""), Err(ReleaseCheckError::MissingPj64ProtocolVersion));
    assert_eq!(
        check_pj64_protocol_version("const MW_FRONTEND_PROTO_VERSION = 4; // current\n"),
        Err(ReleaseCheckError::MissingPj64ProtocolVersion),
    );
    assert_eq!(
        check_pj64_protocol_version("const MW_FRONTEND_PROTO_VERSION = ;\n"),
        Err(ReleaseCheckError::MissingPj64ProtocolVersion),
    );
    assert_eq!(
        check_pj64_protocol_version(" const MW_FRONTEND_PROTO_VERSION = 4;"),
        Err(ReleaseCheckError::MissingPj64ProtocolVersion),
    );
    // a carriage return is kept on a last line that no line feed ends
    assert_eq!(
        check_pj64_protocol_version("const MW_FRONTEND_PROTO_VERSION = 4;\r"),
        Err(ReleaseCheckError::MissingPj64ProtocolVersion),
    );
}

#[test]
fn relabelling_released_issues() {
    let label = |name: &str| Label { name: name.to_string() };
    let issue = Issue {
        number: 42,
        labels: vec![label("bug"), label("status: pending release"), label("component: GUI")],
    };
    assert_eq!(released_labels(&issue), vec!["bug", "component: GUI", "status: released"]);
    let bare = Issue { number: 7, labels: vec![] };
    assert_eq!(released_labels(&bare), vec!["status: released"]);
}

#[test]
fn release_arguments() {
    let both = ReleaseArgs::from(ReleaseCommand::Both { force: true, no_publish: false, no_wait: true });
    assert_eq!(both, ReleaseArgs { force: true, no_publish: false, no_server: false, no_wait: true, server_only: false });
    let client = ReleaseArgs::from(ReleaseCommand::Client { no_publish: true, no_wait: false });
    assert_eq!(client, ReleaseArgs { force: false, no_publish: true, no_server: true, no_wait: false, server_only: false });
    let server = ReleaseArgs::from(ReleaseCommand::Server { force: true });
    assert_eq!(server, ReleaseArgs { force: true, no_publish: false, no_server: false, no_wait: false, server_only: true });
}
