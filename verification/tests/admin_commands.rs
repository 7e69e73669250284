use multiworld::admin::{AdminCommand, AdminError, Expr, FieldMember, SessionSummary, prompt};
use multiworld::text::{IntErrorKind, ParseIntError};

fn int_lit(d: &str) -> Expr {
    Expr::IntLit(d.to_string())
}

fn text(s: &str) -> Expr {
    Expr::StrLit(s.to_string())
}

fn path(name: &str) -> Expr {
    Expr::Path(Some(name.to_string()))
}

fn call(name: &str, args: Vec<Expr>) -> Expr {
    Expr::Call(Box::new(path(name)), args)
}

fn field(name: &str, value: Expr) -> (FieldMember, Expr) {
    (FieldMember::Named(name.to_string()), value)
}

fn strukt(name: &str, fields: Vec<(FieldMember, Expr)>) -> Expr {
    Expr::Struct(Some(name.to_string()), fields)
}

fn int_error(kind: IntErrorKind) -> AdminError {
    AdminError::IntParse(ParseIntError { kind })
}

#[test]
fn unit_commands() {
    assert!(matches!(AdminCommand::from_expr(path("Ping")), Ok(AdminCommand::Ping)));
    assert!(matches!(AdminCommand::from_expr(path("Stop")), Ok(AdminCommand::Stop)));
    assert!(matches!(AdminCommand::from_expr(path("ResetPlayerId")), Ok(AdminCommand::ResetPlayerId)));
    assert!(matches!(AdminCommand::from_expr(path("DeleteRoom")), Ok(AdminCommand::DeleteRoom)));
    assert!(matches!(AdminCommand::from_expr(path("Pong")), Err(AdminError::FromExpr)));
    assert!(matches!(AdminCommand::from_expr(Expr::Path(None)), Err(AdminError::FromExpr)));
}

#[test]
fn commands_with_a_world() {
    assert!(matches!(AdminCommand::from_expr(call("PlayerId", vec![int_lit("3")])), Ok(AdminCommand::PlayerId(3))));
    assert!(matches!(AdminCommand::from_expr(call("KickPlayer", vec![int_lit("255")])), Ok(AdminCommand::KickPlayer(255))));
    assert!(matches!(AdminCommand::from_expr(call("PlayerId", vec![int_lit("0")])), Err(e) if e == int_error(IntErrorKind::Zero)));
    assert!(matches!(AdminCommand::from_expr(call("PlayerId", vec![int_lit("256")])), Err(e) if e == int_error(IntErrorKind::PosOverflow)));
    assert!(matches!(AdminCommand::from_expr(call("PlayerId", vec![])), Err(AdminError::ExactlyOne)));
    assert!(matches!(AdminCommand::from_expr(call("KickPlayer", vec![int_lit("1"), int_lit("2")])), Err(AdminError::ExactlyOne)));
    assert!(matches!(AdminCommand::from_expr(call("PlayerId", vec![text("3")])), Err(AdminError::FromExpr)));
    assert!(matches!(AdminCommand::from_expr(call("Frobnicate", vec![])), Err(AdminError::FromExpr)));
}

#[test]
fn player_name_is_eight_bytes() {
    let name: Vec<Expr> = [0x10, 0x11, 0x12, 0x13, 0xdf, 0xdf, 0xdf, 0xdf].iter().map(|b: &u8| int_lit(&b.to_string())).collect();
    match AdminCommand::from_expr(call("PlayerName", vec![Expr::Array(name)])) {
        Ok(AdminCommand::PlayerName(f)) => assert_eq!(f.0, [0x10, 0x11, 0x12, 0x13, 0xdf, 0xdf, 0xdf, 0xdf]),
        other => panic!("unexpected {other:?}"),
    }
    let short: Vec<Expr> = (0..7).map(|_| int_lit("1")).collect();
    assert!(matches!(AdminCommand::from_expr(call("PlayerName", vec![Expr::Array(short)])), Err(AdminError::FromExpr)));
    let bad = vec![int_lit("1"), int_lit("300"), text("x")];
    assert!(matches!(AdminCommand::from_expr(call("PlayerName", vec![Expr::Array(bad)])), Err(e) if e == int_error(IntErrorKind::PosOverflow)));
}

#[test]
fn rooms() {
    match AdminCommand::from_expr(strukt("JoinRoom", vec![field("password", text("pw")), field("name", text("room"))])) {
        Ok(AdminCommand::JoinRoom { name, password }) => {
            assert_eq!(name, "room");
            assert_eq!(password, "pw");
        }
        other => panic!("unexpected {other:?}"),
    }
    assert!(matches!(
        AdminCommand::from_expr(strukt("CreateRoom", vec![field("name", text("a")), field("password", text("b"))])),
        Ok(AdminCommand::CreateRoom { .. }),
    ));
    // a missing, repeated, unknown or unnamed field
    assert!(matches!(AdminCommand::from_expr(strukt("JoinRoom", vec![field("name", text("room"))])), Err(AdminError::FromExpr)));
    assert!(matches!(
        AdminCommand::from_expr(strukt("JoinRoom", vec![field("name", text("a")), field("name", text("b")), field("password", text("c"))])),
        Err(AdminError::FromExpr),
    ));
    assert!(matches!(
        AdminCommand::from_expr(strukt("JoinRoom", vec![field("name", text("a")), field("pass", text("c"))])),
        Err(AdminError::FromExpr),
    ));
    assert!(matches!(
        AdminCommand::from_expr(strukt("JoinRoom", vec![(FieldMember::Unnamed, text("a"))])),
        Err(AdminError::FromExpr),
    ));
    assert!(matches!(AdminCommand::from_expr(strukt("LeaveRoom", vec![])), Err(AdminError::FromExpr)));
    // a value of the wrong type is reported before a repeated field
    assert!(matches!(
        AdminCommand::from_expr(strukt("JoinRoom", vec![field("name", text("a")), field("name", int_lit("1"))])),
        Err(AdminError::FromExpr),
    ));
}

#[test]
fn login_and_items() {
    let key: Vec<Expr> = (0..32).map(|b: u8| int_lit(&b.to_string())).collect();
    match AdminCommand::from_expr(strukt("Login", vec![field("id", Expr::Neg(Box::new(int_lit("1")))), field("api_key", Expr::Array(key))])) {
        Ok(AdminCommand::Login { id, api_key }) => {
            assert_eq!(id, u64::MAX);
            assert_eq!(api_key, (0..32).collect::<Vec<u8>>());
        }
        other => panic!("unexpected {other:?}"),
    }
    let key: Vec<Expr> = (0..32).map(|_| int_lit("0")).collect();
    assert!(matches!(
        AdminCommand::from_expr(strukt("Login", vec![field("id", Expr::Neg(Box::new(int_lit("9223372036854775808")))), field("api_key", Expr::Array(key))])),
        Err(e) if e == int_error(IntErrorKind::PosOverflow),
    ));
    match AdminCommand::from_expr(strukt("SendItem", vec![field("key", int_lit("4294967295")), field("kind", int_lit("65535")), field("target_world", int_lit("2"))])) {
        Ok(AdminCommand::SendItem { key, kind, target_world }) => assert_eq!((key, kind, target_world), (u32::MAX, u16::MAX, 2)),
        other => panic!("unexpected {other:?}"),
    }
    assert!(matches!(
        AdminCommand::from_expr(strukt("SendItem", vec![field("key", int_lit("4294967296")), field("kind", int_lit("1")), field("target_world", int_lit("2"))])),
        Err(e) if e == int_error(IntErrorKind::PosOverflow),
    ));
    assert!(matches!(
        AdminCommand::from_expr(strukt("Track", vec![field("room_name", text("r")), field("world_count", int_lit("3"))])),
        Ok(AdminCommand::Track { world_count: 3, .. }),
    ));
    match AdminCommand::from_expr(strukt("SendAll", vec![field("room", text("r")), field("source_world", int_lit("1")), field("spoiler_log", text("/tmp/log.json"))])) {
        Ok(AdminCommand::SendAll { room, source_world, spoiler_log }) => {
            assert_eq!(room, "r");
            assert_eq!(source_world, 1);
            assert_eq!(spoiler_log, "/tmp/log.json");
        }
        other => panic!("unexpected {other:?}"),
    }
}

#[test]
fn console_prompts() {
    assert_eq!(prompt(&SessionSummary::Init), "connecting");
    assert_eq!(prompt(&SessionSummary::InitAutoRejoin), "connecting (will auto-rejoin)");
    assert_eq!(prompt(&SessionSummary::Error), "error");
    assert_eq!(prompt(&SessionSummary::Closed), "closed");
    assert_eq!(prompt(&SessionSummary::Lobby { rooms: 1, login: None, wrong_password: false }), "lobby (1 room)");
    assert_eq!(prompt(&SessionSummary::Lobby { rooms: 0, login: Some(true), wrong_password: false }), "lobby (0 rooms, admin)");
    assert_eq!(
        prompt(&SessionSummary::Lobby { rooms: 12, login: Some(false), wrong_password: true }),
        "lobby (12 rooms, signed in, wrong room password)",
    );
    assert_eq!(
        prompt(&SessionSummary::Room { room_name: "my \"room\"".to_string(), players: 0, unassigned_clients: 0, items: 0 }),
        "room \"my \\\"room\\\"\" (empty)",
    );
    assert_eq!(
        prompt(&SessionSummary::Room { room_name: "r".to_string(), players: 1, unassigned_clients: 0, items: 1 }),
        "room \"r\" (1 player, 1 item)",
    );
    assert_eq!(
        prompt(&SessionSummary::Room { room_name: "r".to_string(), players: 3, unassigned_clients: 2, items: 40 }),
        "room \"r\" (3 players, 2 unassigned clients, 40 items)",
    );
    assert_eq!(
        prompt(&SessionSummary::Room { room_name: "r".to_string(), players: 0, unassigned_clients: 1, items: 0 }),
        "room \"r\" (1 unassigned client)",
    );
}

#[test]
fn create_room_needs_exactly_name_and_password() {
    match AdminCommand::from_expr(strukt("CreateRoom", vec![field("password", text("pw")), field("name", text("new"))])) {
        Ok(AdminCommand::CreateRoom { name, password }) => {
            assert_eq!(name, "new");
            assert_eq!(password, "pw");
        }
        other => panic!("unexpected {other:?}"),
    }
    for fields in [
        vec![],
        vec![field("password", text("pw"))],
        vec![field("name", text("a")), field("password", text("b")), field("extra", text("c"))],
        vec![field("name", text("a")), field("password", text("b")), field("name", text("c"))],
        vec![field("name", text("a")), field("password", int_lit("5"))],
        vec![field("name", text("a")), (FieldMember::Unnamed, text("b"))],
    ] {
        assert!(matches!(AdminCommand::from_expr(strukt("CreateRoom", fields)), Err(AdminError::FromExpr)));
    }
}
