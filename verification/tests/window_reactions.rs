use multiworld::bytes::{read_be16, u16_to_be, u32_to_be, read_be};
use multiworld::config::IdentityProvider;
use multiworld::dotted::{dotted_version, normalized_version};
use multiworld::frontend::{Filename, Kind};
use multiworld::gui::{
    FrontendFailureAction, FrontendReadFailure, Listener, RoomChoice, RoomFormProblem, join_enabled, keep_first_error, next_connection_id, room_form_problems, Reconnect, ServerErrorAction, active_listeners,
    frontend_failure_action, server_error_action, server_failure_response,
};
use multiworld::relay::is_default_name;
use multiworld::server_error::ServerError;

#[test]
fn frontend_failures() {
    assert_eq!(frontend_failure_action(Kind::BizHawk, FrontendReadFailure::UnexpectedEof), FrontendFailureAction::Exit);
    assert_eq!(frontend_failure_action(Kind::Pj64V4, FrontendReadFailure::ConnectionReset), FrontendFailureAction::Exit);
    assert_eq!(frontend_failure_action(Kind::Pj64V3, FrontendReadFailure::ConnectionReset), FrontendFailureAction::Disconnect);
    assert_eq!(frontend_failure_action(Kind::Pj64V3, FrontendReadFailure::UnexpectedEof), FrontendFailureAction::Report);
    assert_eq!(frontend_failure_action(Kind::EverDrive, FrontendReadFailure::ConnectionReset), FrontendFailureAction::Report);
    assert_eq!(frontend_failure_action(Kind::BizHawk, FrontendReadFailure::Other), FrontendFailureAction::Report);
}

#[test]
fn server_failures() {
    let pw = "pw".to_string();
    let r = server_failure_response(true, true, Some((7, &pw)));
    assert!(matches!(r.retry, Some(Reconnect::Room(7, ref p)) if p == "pw"));
    assert!(!r.check_for_updates);
    assert!(matches!(server_failure_response(true, false, None).retry, Some(Reconnect::Lobby)));
    let r = server_failure_response(false, true, Some((7, &pw)));
    assert!(r.retry.is_none());
    assert!(r.check_for_updates);
    assert!(!server_failure_response(false, false, None).check_for_updates);
}

#[test]
fn server_error_reactions() {
    assert_eq!(server_error_action(ServerError::RoomExists, true, false), ServerErrorAction::JoinRoom);
    assert_eq!(server_error_action(ServerError::RoomExists, false, false), ServerErrorAction::Nothing);
    assert_eq!(server_error_action(ServerError::NoMidosHouseAccountDiscord, true, true), ServerErrorAction::ForgetLogin(IdentityProvider::Discord));
    assert_eq!(server_error_action(ServerError::SessionExpiredRaceTime, true, true), ServerErrorAction::RefreshLogin(IdentityProvider::RaceTime));
    assert_eq!(server_error_action(ServerError::SessionExpiredRaceTime, true, false), ServerErrorAction::LoginExpired(IdentityProvider::RaceTime));
    assert_eq!(server_error_action(ServerError::WrongPassword, true, true), ServerErrorAction::Nothing);
    assert_eq!(server_error_action(ServerError::Future(9), true, true), ServerErrorAction::Nothing);
}

#[test]
fn big_endian_round_trips() {
    for x in [0u16, 1, 0xff, 0x100, 0xbeef, u16::MAX] {
        assert_eq!(read_be16(&u16_to_be(x), 0), x);
    }
    for x in [0u32, 1, 0x0102_0304, u32::MAX] {
        assert_eq!(read_be(&u32_to_be(x), 0, 4), x as u64);
    }
}

#[test]
fn normalized_version_reads_back() {
    for text in ["2.9.1", "2.9", "4", "0.0.0", "18446744073709551615.1.2"] {
        let normalized = normalized_version(text).unwrap();
        assert_eq!(dotted_version(&normalized), dotted_version(text));
    }
}

#[test]
fn default_filename() {
    assert_eq!(Filename::default().0, [0xdf; 8]);
    assert!(is_default_name(&Filename::default()));
}

#[test]
fn window_listeners() {
    assert_eq!(
        active_listeners(true, Kind::EverDrive, None, 0, true, Some((IdentityProvider::Discord, false))),
        vec![Listener::WindowClose],
    );
    assert_eq!(
        active_listeners(false, Kind::BizHawk, Some(55000), 3, true, None),
        vec![Listener::WindowClose, Listener::FrontendConnection { port: 55000, kind: Kind::BizHawk, connection_id: 3 }, Listener::Server],
    );
    assert_eq!(active_listeners(false, Kind::BizHawk, None, 0, false, None), vec![Listener::WindowClose]);
    assert_eq!(
        active_listeners(false, Kind::Pj64V4, None, 255, false, Some((IdentityProvider::RaceTime, false))),
        vec![
            Listener::WindowClose,
            Listener::FrontendConnection { port: 24818, kind: Kind::Pj64V4, connection_id: 255 },
            Listener::LoginHandler(IdentityProvider::RaceTime),
        ],
    );
    assert_eq!(
        active_listeners(false, Kind::Pj64V3, None, 7, true, Some((IdentityProvider::Discord, true))),
        vec![Listener::WindowClose, Listener::Pj64Listener { connection_id: 7 }, Listener::Server],
    );
    assert_eq!(active_listeners(false, Kind::Dummy, None, 0, false, None), vec![Listener::WindowClose]);
    assert_eq!(
        active_listeners(false, Kind::EverDrive, None, 0, false, None),
        vec![Listener::WindowClose, Listener::EverDrive],
    );
}

#[test]
fn lobby_form_rules() {
    let long = "x".repeat(65);
    let max = "y".repeat(64);
    assert!(join_enabled(true, None, "room", "pw"));
    assert!(join_enabled(true, None, &max, &max));
    assert!(!join_enabled(true, None, &long, "pw"));
    assert!(!join_enabled(true, None, "room", ""));
    assert!(!join_enabled(true, None, "", "pw"));
    assert!(!join_enabled(true, None, "ro\0om", "pw"));
    assert!(!join_enabled(true, None, "room", "p\0w"));
    let open = RoomChoice { id: 1, password_required: false };
    let locked = RoomChoice { id: 2, password_required: true };
    assert!(join_enabled(false, Some(open), "", ""));
    assert!(!join_enabled(false, Some(locked), "", ""));
    assert!(join_enabled(false, Some(locked), "", "pw"));
    assert!(!join_enabled(false, None, "room", "pw"));
    assert_eq!(room_form_problems(false, &long, "\0"), vec![]);
    assert_eq!(room_form_problems(true, "room", "pw"), vec![]);
    assert_eq!(
        room_form_problems(true, &format!("{long}\0"), &format!("\0{long}")),
        vec![
            RoomFormProblem::NameTooLong,
            RoomFormProblem::NameHasNul,
            RoomFormProblem::PasswordTooLong,
            RoomFormProblem::PasswordHasNul,
        ],
    );
}

#[test]
fn reconnects_and_command_errors() {
    assert_eq!(next_connection_id(0), 1);
    assert_eq!(next_connection_id(254), 255);
    assert_eq!(next_connection_id(255), 0);
    let mut slot: Option<&str> = None;
    keep_first_error(&mut slot, "first");
    keep_first_error(&mut slot, "second");
    assert_eq!(slot, Some("first"));
}
