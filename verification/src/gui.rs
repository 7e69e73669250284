//! Decisions of the app's window: joining or creating a room from the lobby,
//! the window's title, and which error a bug report is about.
use vstd::prelude::*;
use semver::Version as SemverVersion;
use crate::config::IdentityProvider;
use crate::frontend::{Kind, PORT, TargetOs, kind_display_name};
use crate::report::{error_report, error_report_text, port_error_lines, port_errors_report, port_errors_view};
use crate::server_error::ServerError;
use crate::text::{chars_of, push_str};
use crate::updater::{semver_text, semver_to_string};

verus! {

/// A room picked in the lobby.
#[derive(Clone, Copy, Debug)]
pub struct RoomChoice {
    pub id: u64,
    pub password_required: bool,
}

/// What the lobby asks the server for.
#[derive(Debug)]
pub enum JoinRequest {
    CreateRoom { name: String, password: String },
    JoinRoom { id: u64, password: Option<String> },
}

/// The request the lobby's join button sends, if any: with a password typed,
/// or a picked room that needs none, a new room is created (if it has a name)
/// or the picked room is joined (with the password if it needs one).
pub open spec fn join_request_spec(
    create_new_room: bool,
    selection: Option<RoomChoice>,
    new_room_name: Seq<char>,
    password: Seq<char>,
) -> Option<(bool, u64, Seq<char>, Option<Seq<char>>)> {
    if password.len() > 0 || (selection matches Some(room) && !room.password_required) {
        if create_new_room {
            if new_room_name.len() > 0 {
                Some((true, 0, new_room_name, Some(password)))
            } else {
                None
            }
        } else {
            match selection {
                Some(room) => Some(
                    (
                        false,
                        room.id,
                        Seq::empty(),
                        if room.password_required {
                            Some(password)
                        } else {
                            None
                        },
                    ),
                ),
                None => None,
            }
        }
    } else {
        None
    }
}

/// `r` as the tuple `join_request_spec` gives: whether a room is created, the
/// room to join, the new room's name and the password.
pub open spec fn join_request_view(r: Option<JoinRequest>) -> Option<(bool, u64, Seq<char>, Option<Seq<char>>)> {
    match r {
        Some(JoinRequest::CreateRoom { name, password }) => Some((true, 0, name@, Some(password@))),
        Some(JoinRequest::JoinRoom { id, password }) => Some(
            (
                false,
                id,
                Seq::empty(),
                match password {
                    Some(p) => Some(p@),
                    None => None,
                },
            ),
        ),
        None => None,
    }
}

/// What the lobby's join button does.
pub fn join_request(
    create_new_room: bool,
    selection: Option<RoomChoice>,
    new_room_name: &String,
    password: &String,
) -> (r: Option<JoinRequest>)
    ensures
        join_request_view(r) == join_request_spec(create_new_room, selection, new_room_name@, password@),
{
    let open_room = match selection {
        Some(room) => !room.password_required,
        None => false,
    };
    if password.as_str().unicode_len() > 0 || open_room {
        if create_new_room {
            if new_room_name.as_str().unicode_len() > 0 {
                Some(JoinRequest::CreateRoom { name: new_room_name.clone(), password: password.clone() })
            } else {
                None
            }
        } else {
            match selection {
                Some(room) => Some(
                    JoinRequest::JoinRoom {
                        id: room.id,
                        password: if room.password_required {
                            Some(password.clone())
                        } else {
                            None
                        },
                    },
                ),
                None => None,
            }
        }
    } else {
        None
    }
}

/// The frontend as the window names it: BizHawk with its version if known.
pub open spec fn frontend_display_spec(kind: Kind, bizhawk: Option<SemverVersion>) -> Seq<char> {
    match kind {
        Kind::Dummy => "(no frontend)"@,
        Kind::EverDrive => "EverDrive"@,
        Kind::BizHawk => match bizhawk {
            Some(v) => "BizHawk "@ + semver_text(v),
            None => "BizHawk"@,
        },
        Kind::Pj64V3 => "Project64 3.x"@,
        Kind::Pj64V4 => "Project64 4.x"@,
    }
}

/// Whether `text` holds the NUL character.
pub open spec fn has_nul(text: Seq<char>) -> bool {
    exists|k: int| 0 <= k < text.len() && text[k] == '\0'
}

/// The longest room name and room password, in characters.
pub const ROOM_TEXT_MAX: usize = 64;

/// What the lobby warns of about a new room's name and password.
#[derive(Clone, Copy, Debug, PartialEq, Eq, Structural)]
pub enum RoomFormProblem {
    NameTooLong,
    NameHasNul,
    PasswordTooLong,
    PasswordHasNul,
}

/// The warnings shown under the lobby form, in order: only when creating a
/// room, a name or password over 64 characters or holding a NUL character.
pub open spec fn room_form_problems_spec(create_new_room: bool, name: Seq<char>, password: Seq<char>) -> Seq<
    RoomFormProblem,
> {
    if !create_new_room {
        Seq::empty()
    } else {
        (if name.len() > 64 { seq![RoomFormProblem::NameTooLong] } else { Seq::empty() }) + (if has_nul(name) {
            seq![RoomFormProblem::NameHasNul]
        } else {
            Seq::empty()
        }) + (if password.len() > 64 { seq![RoomFormProblem::PasswordTooLong] } else { Seq::empty() })
            + (if has_nul(password) { seq![RoomFormProblem::PasswordHasNul] } else { Seq::empty() })
    }
}

/// Whether the lobby's Connect button is enabled: to create a room, a name and
/// a password, each of 1 to 64 characters without NUL; to join, a picked room
/// that needs no password, or a password typed.
pub open spec fn join_enabled_spec(
    create_new_room: bool,
    selection: Option<RoomChoice>,
    name: Seq<char>,
    password: Seq<char>,
) -> bool {
    if create_new_room {
        &&& name.len() > 0
        &&& name.len() <= 64
        &&& !has_nul(name)
        &&& password.len() > 0
        &&& password.len() <= 64
        &&& !has_nul(password)
    } else {
        selection matches Some(room) && (!room.password_required || password.len() > 0)
    }
}

/// When the Connect button is enabled, pressing it sends a request: a room to
/// create or a room to join.
pub proof fn lemma_enabled_join_sends_request(
    create_new_room: bool,
    selection: Option<RoomChoice>,
    name: Seq<char>,
    password: Seq<char>,
)
    requires
        join_enabled_spec(create_new_room, selection, name, password),
    ensures
        join_request_spec(create_new_room, selection, name, password) is Some,
{
}

/// The length of `text` in characters, and whether it holds a NUL character.
fn length_and_nul(text: &str) -> (r: (usize, bool))
    ensures
        r.0 == text@.len(),
        r.1 == has_nul(text@),
{
    let v = chars_of(text);
    let mut i: usize = 0;
    while i < v.len()
        invariant
            v@ == text@,
            i <= v@.len(),
            forall|k: int| 0 <= k < i ==> v@[k] != '\0',
        decreases v.len() - i,
    {
        if v[i] == '\0' {
            return (v.len(), true);
        }
        i = i + 1;
    }
    (v.len(), false)
}

/// The warnings shown under the lobby form.
pub fn room_form_problems(create_new_room: bool, name: &str, password: &str) -> (r: Vec<RoomFormProblem>)
    ensures
        r@ == room_form_problems_spec(create_new_room, name@, password@),
{
    let mut r: Vec<RoomFormProblem> = Vec::new();
    if create_new_room {
        let (name_len, name_nul) = length_and_nul(name);
        let (password_len, password_nul) = length_and_nul(password);
        if name_len > ROOM_TEXT_MAX {
            r.push(RoomFormProblem::NameTooLong);
        }
        if name_nul {
            r.push(RoomFormProblem::NameHasNul);
        }
        if password_len > ROOM_TEXT_MAX {
            r.push(RoomFormProblem::PasswordTooLong);
        }
        if password_nul {
            r.push(RoomFormProblem::PasswordHasNul);
        }
    }
    assert(r@ =~= room_form_problems_spec(create_new_room, name@, password@));
    r
}

/// Whether the lobby's Connect button is enabled.
pub fn join_enabled(create_new_room: bool, selection: Option<RoomChoice>, name: &str, password: &str) -> (r: bool)
    ensures
        r == join_enabled_spec(create_new_room, selection, name@, password@),
{
    let (password_len, password_nul) = length_and_nul(password);
    if create_new_room {
        let (name_len, name_nul) = length_and_nul(name);
        name_len > 0 && name_len <= ROOM_TEXT_MAX && !name_nul && password_len > 0 && password_len
            <= ROOM_TEXT_MAX && !password_nul
    } else {
        match selection {
            Some(room) => !room.password_required || password_len > 0,
            None => false,
        }
    }
}

/// The name of the frontend, with the version of BizHawk the app was started from.
pub fn display_with_version(kind: Kind, bizhawk: Option<&SemverVersion>) -> (r: String)
    ensures
        r@ == frontend_display_spec(
            kind,
            match bizhawk {
                Some(v) => Some(*v),
                None => None,
            },
        ),
{
    let mut s = String::new();
    match kind {
        Kind::Dummy => push_str(&mut s, "(no frontend)"),
        Kind::EverDrive => push_str(&mut s, "EverDrive"),
        Kind::BizHawk => match bizhawk {
            Some(v) => {
                push_str(&mut s, "BizHawk ");
                let t = semver_to_string(v);
                push_str(&mut s, t.as_str());
            },
            None => push_str(&mut s, "BizHawk"),
        },
        Kind::Pj64V3 => push_str(&mut s, "Project64 3.x"),
        Kind::Pj64V4 => push_str(&mut s, "Project64 4.x"),
    }
    assert(s@ =~= frontend_display_spec(
        kind,
        match bizhawk {
            Some(v) => Some(*v),
            None => None,
        },
    ));
    s
}

/// Whether the app is tied to the frontend it was started from: only BizHawk,
/// when the app was started from it.
pub fn is_locked(kind: Kind, started_from_bizhawk: bool) -> (r: bool)
    ensures
        r == (kind == Kind::BizHawk && started_from_bizhawk),
{
    match kind {
        Kind::BizHawk => started_from_bizhawk,
        _ => false,
    }
}

pub open spec fn app_name() -> Seq<char> {
    "Mido's House Multiworld"@
}

/// The window's title: the app's name, and the frontend's when the app is tied to it.
pub fn window_title(kind: Kind, started_from_bizhawk: bool) -> (r: String)
    ensures
        r@ == if kind == Kind::BizHawk && started_from_bizhawk {
            app_name() + " for "@ + kind_display_name(kind)
        } else {
            app_name()
        },
{
    let mut s = String::new();
    push_str(&mut s, "Mido's House Multiworld");
    if is_locked(kind, started_from_bizhawk) {
        push_str(&mut s, " for ");
        push_str(&mut s, kind.display_name());
    }
    s
}

/// The errors the window knows of when the user asks for a bug report.
#[derive(Clone, Copy, Debug)]
pub struct ErrorState {
    /// The update check failed; whether it was a network error.
    pub update_error: Option<bool>,
    pub icon_error: bool,
    pub config_error: bool,
    pub persistent_state_error: bool,
    pub command_error: bool,
    pub login_error: bool,
    pub frontend_subscription_error: bool,
    /// The app is looking for an EverDrive without a connection to one; the
    /// number of serial ports that failed.
    pub everdrive_search: Option<u64>,
    /// The connection to the server ended in an error; whether it was a
    /// network error.
    pub server_error: Option<bool>,
    /// Refreshing a login session failed.
    pub session_refresh_error: bool,
}

/// Which error a bug report is about.
#[derive(Clone, Copy, Debug, PartialEq, Eq, Structural)]
pub enum ErrorSource {
    Update { network: bool },
    Icon,
    Config,
    PersistentState,
    Command,
    Login,
    FrontendSubscription,
    EverDriveSearch { no_ports: bool },
    ServerNetwork,
    ServerCommunication,
    SessionRefresh,
    NoError,
}

/// The report on the update check is about its error; any other report is
/// about the first error there is, in this order: the icon, the configuration,
/// the persistent state, a command, signing in, the frontend connection, the
/// search for an EverDrive, the server connection, refreshing a login.
pub open spec fn error_source_spec(update: bool, e: ErrorState) -> ErrorSource {
    if update {
        match e.update_error {
            Some(network) => ErrorSource::Update { network },
            None => ErrorSource::NoError,
        }
    } else if e.icon_error {
        ErrorSource::Icon
    } else if e.config_error {
        ErrorSource::Config
    } else if e.persistent_state_error {
        ErrorSource::PersistentState
    } else if e.command_error {
        ErrorSource::Command
    } else if e.login_error {
        ErrorSource::Login
    } else if e.frontend_subscription_error {
        ErrorSource::FrontendSubscription
    } else if e.everdrive_search is Some {
        ErrorSource::EverDriveSearch { no_ports: e.everdrive_search->Some_0 == 0 }
    } else if e.server_error is Some {
        if e.server_error->Some_0 {
            ErrorSource::ServerNetwork
        } else {
            ErrorSource::ServerCommunication
        }
    } else if e.session_refresh_error {
        ErrorSource::SessionRefresh
    } else {
        ErrorSource::NoError
    }
}

pub fn error_source(update: bool, e: &ErrorState) -> (r: ErrorSource)
    ensures
        r == error_source_spec(update, *e),
{
    if update {
        match e.update_error {
            Some(network) => ErrorSource::Update { network },
            None => ErrorSource::NoError,
        }
    } else if e.icon_error {
        ErrorSource::Icon
    } else if e.config_error {
        ErrorSource::Config
    } else if e.persistent_state_error {
        ErrorSource::PersistentState
    } else if e.command_error {
        ErrorSource::Command
    } else if e.login_error {
        ErrorSource::Login
    } else if e.frontend_subscription_error {
        ErrorSource::FrontendSubscription
    } else if let Some(n) = e.everdrive_search {
        ErrorSource::EverDriveSearch { no_ports: n == 0 }
    } else if let Some(network) = e.server_error {
        if network {
            ErrorSource::ServerNetwork
        } else {
            ErrorSource::ServerCommunication
        }
    } else if e.session_refresh_error {
        ErrorSource::SessionRefresh
    } else {
        ErrorSource::NoError
    }
}

/// `version` as a bug report names it: `(debug)` follows for a debug build.
pub open spec fn version_text(version: Seq<char>, debug: bool) -> Seq<char> {
    version + if debug {
        " (debug)"@
    } else {
        ""@
    }
}

pub open spec fn error_in(version: Seq<char>, debug: bool) -> Seq<char> {
    "error in Mido's House Multiworld version "@ + version_text(version, debug)
}

/// The first line of a bug report. `provider` is the sign-in service that
/// failed (for `Login` and `SessionRefresh`), `frontend` the frontend's name.
pub open spec fn report_heading(
    source: ErrorSource,
    version: Seq<char>,
    debug: bool,
    provider: Option<Seq<char>>,
    frontend: Seq<char>,
) -> Seq<char> {
    match source {
        ErrorSource::Update { network } => (if network {
            "network "@
        } else {
            ""@
        }) + "error while attempting to update Mido's House Multiworld from version "@
            + version_text(version, debug) + ":"@,
        ErrorSource::Icon => error_in(version, debug) + " while trying to load icon:"@,
        ErrorSource::Config => error_in(version, debug) + " while trying to load config:"@,
        ErrorSource::PersistentState => error_in(version, debug)
            + " while trying to load persistent state:"@,
        ErrorSource::Command => error_in(version, debug) + ":"@,
        ErrorSource::Login => error_in(version, debug) + " while trying to sign in"@ + match provider {
            Some(p) => " with "@ + p,
            None => ""@,
        } + ":"@,
        ErrorSource::FrontendSubscription => error_in(version, debug) + " during communication with "@
            + frontend + ":"@,
        ErrorSource::EverDriveSearch { no_ports } => error_in(version, debug) + if no_ports {
            " while searching for EverDrives: no serial ports found"@
        } else {
            " while searching for EverDrives:"@
        },
        ErrorSource::ServerNetwork => "network "@ + error_in(version, debug) + ":"@,
        ErrorSource::ServerCommunication => error_in(version, debug)
            + " during communication with the server:"@,
        ErrorSource::SessionRefresh => error_in(version, debug) + " while refreshing "@ + match provider {
            Some(p) => p,
            None => ""@,
        } + " login session:"@,
        ErrorSource::NoError => "tried to copy debug info with no active error"@,
    }
}

fn push_version(s: &mut String, version: &str, debug: bool)
    ensures
        final(s)@ == old(s)@ + version_text(version@, debug),
{
    push_str(s, version);
    if debug {
        push_str(s, " (debug)");
    } else {
        push_str(s, "");
    }
}

fn push_error_in(s: &mut String, version: &str, debug: bool)
    ensures
        final(s)@ == old(s)@ + error_in(version@, debug),
{
    let ghost start = s@;
    push_str(s, "error in Mido's House Multiworld version ");
    push_version(s, version, debug);
    assert(s@ =~= start + error_in(version@, debug));
}

/// The first line of a bug report.
pub fn error_heading(source: ErrorSource, version: &str, debug: bool, provider: Option<&str>, frontend: &str) -> (r:
    String)
    ensures
        r@ == report_heading(
            source,
            version@,
            debug,
            match provider {
                Some(p) => Some(p@),
                None => None,
            },
            frontend@,
        ),
{
    let mut s = String::new();
    match source {
        ErrorSource::Update { network } => {
            if network {
                push_str(&mut s, "network ");
            } else {
                push_str(&mut s, "");
            }
            push_str(&mut s, "error while attempting to update Mido's House Multiworld from version ");
            push_version(&mut s, version, debug);
            push_str(&mut s, ":");
        },
        ErrorSource::Icon => {
            push_error_in(&mut s, version, debug);
            push_str(&mut s, " while trying to load icon:");
        },
        ErrorSource::Config => {
            push_error_in(&mut s, version, debug);
            push_str(&mut s, " while trying to load config:");
        },
        ErrorSource::PersistentState => {
            push_error_in(&mut s, version, debug);
            push_str(&mut s, " while trying to load persistent state:");
        },
        ErrorSource::Command => {
            push_error_in(&mut s, version, debug);
            push_str(&mut s, ":");
        },
        ErrorSource::Login => {
            push_error_in(&mut s, version, debug);
            push_str(&mut s, " while trying to sign in");
            match provider {
                Some(p) => {
                    push_str(&mut s, " with ");
                    push_str(&mut s, p);
                },
                None => push_str(&mut s, ""),
            }
            push_str(&mut s, ":");
        },
        ErrorSource::FrontendSubscription => {
            push_error_in(&mut s, version, debug);
            push_str(&mut s, " during communication with ");
            push_str(&mut s, frontend);
            push_str(&mut s, ":");
        },
        ErrorSource::EverDriveSearch { no_ports } => {
            push_error_in(&mut s, version, debug);
            if no_ports {
                push_str(&mut s, " while searching for EverDrives: no serial ports found");
            } else {
                push_str(&mut s, " while searching for EverDrives:");
            }
        },
        ErrorSource::ServerNetwork => {
            push_str(&mut s, "network ");
            push_error_in(&mut s, version, debug);
            push_str(&mut s, ":");
        },
        ErrorSource::ServerCommunication => {
            push_error_in(&mut s, version, debug);
            push_str(&mut s, " during communication with the server:");
        },
        ErrorSource::SessionRefresh => {
            push_error_in(&mut s, version, debug);
            push_str(&mut s, " while refreshing ");
            match provider {
                Some(p) => push_str(&mut s, p),
                None => push_str(&mut s, ""),
            }
            push_str(&mut s, " login session:");
        },
        ErrorSource::NoError => push_str(&mut s, "tried to copy debug info with no active error"),
    }
    assert(s@ =~= report_heading(
        source,
        version@,
        debug,
        match provider {
            Some(p) => Some(p@),
            None => None,
        },
        frontend@,
    ));
    s
}

/// The bug report the window copies for the error that `source` names: the
/// heading alone when there is no error or no serial port was found; after a
/// failed search for an EverDrive, the heading and a line for each port that
/// failed; otherwise the heading, the error's message and its debug form
/// (`display` and `debug_text`).
pub open spec fn bug_report_text(
    source: ErrorSource,
    version: Seq<char>,
    debug: bool,
    provider: Option<Seq<char>>,
    frontend: Seq<char>,
    display: Seq<char>,
    debug_text: Seq<char>,
    port_errors: Seq<(Seq<char>, Seq<char>)>,
) -> Seq<char> {
    let heading = report_heading(source, version, debug, provider, frontend);
    match source {
        ErrorSource::NoError => heading,
        ErrorSource::EverDriveSearch { no_ports } => if no_ports {
            heading
        } else {
            heading + port_error_lines(port_errors)
        },
        _ => error_report_text(heading, display, debug_text),
    }
}

/// The bug report on the error that `source` names.
pub fn bug_report(
    source: ErrorSource,
    version: &str,
    debug: bool,
    provider: Option<&str>,
    frontend: &str,
    display: &str,
    debug_text: &str,
    port_errors: &Vec<(String, String)>,
) -> (r: String)
    ensures
        r@ == bug_report_text(
            source,
            version@,
            debug,
            match provider {
                Some(p) => Some(p@),
                None => None,
            },
            frontend@,
            display@,
            debug_text@,
            port_errors_view(port_errors@),
        ),
{
    let heading = error_heading(source, version, debug, provider, frontend);
    match source {
        ErrorSource::NoError => heading,
        ErrorSource::EverDriveSearch { no_ports } => if no_ports {
            heading
        } else {
            port_errors_report(heading.as_str(), port_errors)
        },
        _ => error_report(heading.as_str(), display, debug_text),
    }
}

/// The frontend the app starts with: the one named on the command line, else
/// the configured default, else Project64 3.x on Windows and the EverDrive
/// elsewhere.
pub open spec fn initial_frontend_spec(arg: Option<Kind>, default: Option<Kind>, os: TargetOs) -> Kind {
    match arg {
        Some(k) => k,
        None => match default {
            Some(k) => k,
            None => if os == TargetOs::Windows {
                Kind::Pj64V3
            } else {
                Kind::EverDrive
            },
        },
    }
}

pub fn initial_frontend(arg: Option<Kind>, default: Option<Kind>, os: TargetOs) -> (r: Kind)
    ensures
        r == initial_frontend_spec(arg, default, os),
{
    match arg {
        Some(k) => k,
        None => match default {
            Some(k) => k,
            None => if os == TargetOs::Windows {
                Kind::Pj64V3
            } else {
                Kind::EverDrive
            },
        },
    }
}

/// How reading from a frontend failed, as far as the app's reaction depends on it.
#[derive(Clone, Copy, Debug, PartialEq, Eq, Structural)]
pub enum FrontendReadFailure {
    ConnectionReset,
    UnexpectedEof,
    /// Any other failure.
    Other,
}

/// What the app does when reading from the frontend fails.
#[derive(Clone, Copy, Debug, PartialEq, Eq, Structural)]
pub enum FrontendFailureAction {
    /// The frontend was closed; the app closes too.
    Exit,
    /// The frontend went away; the app waits for it to connect again.
    Disconnect,
    /// The error is shown.
    Report,
}

/// BizHawk and Project64 4 closing the connection close the app, Project64 3
/// resetting it makes the app wait for it again, anything else is an error.
pub open spec fn frontend_failure_action_spec(kind: Kind, failure: FrontendReadFailure) -> FrontendFailureAction {
    match (kind, failure) {
        (Kind::BizHawk, FrontendReadFailure::ConnectionReset) | (Kind::BizHawk, FrontendReadFailure::UnexpectedEof)
        | (Kind::Pj64V4, FrontendReadFailure::ConnectionReset) | (Kind::Pj64V4, FrontendReadFailure::UnexpectedEof) => FrontendFailureAction::Exit,
        (Kind::Pj64V3, FrontendReadFailure::ConnectionReset) => FrontendFailureAction::Disconnect,
        _ => FrontendFailureAction::Report,
    }
}

pub fn frontend_failure_action(kind: Kind, failure: FrontendReadFailure) -> (r: FrontendFailureAction)
    ensures
        r == frontend_failure_action_spec(kind, failure),
{
    match (kind, failure) {
        (Kind::BizHawk, FrontendReadFailure::ConnectionReset) | (Kind::BizHawk, FrontendReadFailure::UnexpectedEof)
        | (Kind::Pj64V4, FrontendReadFailure::ConnectionReset) | (Kind::Pj64V4, FrontendReadFailure::UnexpectedEof) => FrontendFailureAction::Exit,
        (Kind::Pj64V3, FrontendReadFailure::ConnectionReset) => FrontendFailureAction::Disconnect,
        _ => FrontendFailureAction::Report,
    }
}

/// Where the app reconnects to after losing the server.
#[derive(Debug)]
pub enum Reconnect {
    Lobby,
    /// The room the app was in, with its password.
    Room(u64, String),
}

/// What the app does when the connection to the server fails (unless it is
/// already showing a server error).
#[derive(Debug)]
pub struct ServerFailureResponse {
    /// Whether the app retries by itself (after a wait), and where to.
    pub retry: Option<Reconnect>,
    /// Whether the app checks for an update (the server no longer speaks its
    /// protocol version).
    pub check_for_updates: bool,
}

/// A network error is retried, into the room the app was in if any; another
/// error is shown, and a server that answers 410 Gone leads to an update check.
pub fn server_failure_response(network: bool, http_gone: bool, room: Option<(u64, &String)>) -> (r: ServerFailureResponse)
    ensures
        network ==> match room {
            Some((id, password)) => r.retry matches Some(Reconnect::Room(i, p)) && i == id && p@ == password@,
            None => r.retry matches Some(Reconnect::Lobby),
        },
        network ==> !r.check_for_updates,
        !network ==> r.retry is None && r.check_for_updates == http_gone,
{
    if network {
        let retry = match room {
            Some((id, password)) => Reconnect::Room(id, password.clone()),
            None => Reconnect::Lobby,
        };
        ServerFailureResponse { retry: Some(retry), check_for_updates: false }
    } else {
        ServerFailureResponse { retry: None, check_for_updates: http_gone }
    }
}

/// What the app does about an error the server reports.
#[derive(Clone, Copy, Debug, PartialEq, Eq, Structural)]
pub enum ServerErrorAction {
    /// Press the lobby's join button again (the room to create exists already).
    JoinRoom,
    /// Forget the sign-in and refresh tokens of this service, in memory and in
    /// the configuration.
    ForgetLogin(IdentityProvider),
    /// Forget the sign-in token of this service and use its refresh token to
    /// sign in again (forgetting both in the configuration).
    RefreshLogin(IdentityProvider),
    /// Forget the sign-in token of this service and show that the session expired.
    LoginExpired(IdentityProvider),
    Nothing,
}

/// A room name that exists already joins it from the lobby; an account that is
/// not linked forgets the service's tokens; an expired session is refreshed if
/// there is a refresh token for the service (`has_refresh_token`), else shown.
pub open spec fn server_error_action_spec(e: ServerError, in_lobby: bool, has_refresh_token: bool) -> ServerErrorAction {
    match e {
        ServerError::RoomExists => if in_lobby {
            ServerErrorAction::JoinRoom
        } else {
            ServerErrorAction::Nothing
        },
        ServerError::NoMidosHouseAccountDiscord => ServerErrorAction::ForgetLogin(IdentityProvider::Discord),
        ServerError::NoMidosHouseAccountRaceTime => ServerErrorAction::ForgetLogin(IdentityProvider::RaceTime),
        ServerError::SessionExpiredDiscord => if has_refresh_token {
            ServerErrorAction::RefreshLogin(IdentityProvider::Discord)
        } else {
            ServerErrorAction::LoginExpired(IdentityProvider::Discord)
        },
        ServerError::SessionExpiredRaceTime => if has_refresh_token {
            ServerErrorAction::RefreshLogin(IdentityProvider::RaceTime)
        } else {
            ServerErrorAction::LoginExpired(IdentityProvider::RaceTime)
        },
        _ => ServerErrorAction::Nothing,
    }
}

pub fn server_error_action(e: ServerError, in_lobby: bool, has_refresh_token: bool) -> (r: ServerErrorAction)
    ensures
        r == server_error_action_spec(e, in_lobby, has_refresh_token),
{
    match e {
        ServerError::RoomExists => if in_lobby {
            ServerErrorAction::JoinRoom
        } else {
            ServerErrorAction::Nothing
        },
        ServerError::NoMidosHouseAccountDiscord => ServerErrorAction::ForgetLogin(IdentityProvider::Discord),
        ServerError::NoMidosHouseAccountRaceTime => ServerErrorAction::ForgetLogin(IdentityProvider::RaceTime),
        ServerError::SessionExpiredDiscord => if has_refresh_token {
            ServerErrorAction::RefreshLogin(IdentityProvider::Discord)
        } else {
            ServerErrorAction::LoginExpired(IdentityProvider::Discord)
        },
        ServerError::SessionExpiredRaceTime => if has_refresh_token {
            ServerErrorAction::RefreshLogin(IdentityProvider::RaceTime)
        } else {
            ServerErrorAction::LoginExpired(IdentityProvider::RaceTime)
        },
        _ => ServerErrorAction::Nothing,
    }
}

/// A source of events that the window listens to.
#[derive(Clone, Copy, Debug, PartialEq, Eq, Structural)]
pub enum Listener {
    /// Requests to close the window.
    WindowClose,
    /// Packets from an EverDrive.
    EverDrive,
    /// A connection to a frontend plugin listening on `port`; a new
    /// `connection_id` starts a new connection.
    FrontendConnection { port: u16, kind: Kind, connection_id: u8 },
    /// A listener for Project64 version 3 to connect to; a new
    /// `connection_id` starts a new listener.
    Pj64Listener { connection_id: u8 },
    /// Messages from the multiworld server.
    Server,
    /// The handler for a sign-in with the given service.
    LoginHandler(IdentityProvider),
}

/// The listeners the window keeps, in order: close requests always; while no
/// update is pending, the frontend's, the server's while the connection is
/// neither closed nor failed, and the sign-in handler while a sign-in is under
/// way (`login`: its service, and whether the server found no account for it).
/// The frontend's listener carries the frontend connection's number.
pub open spec fn listeners_spec(
    update_pending: bool,
    kind: Kind,
    bizhawk_port: Option<u16>,
    connection_id: u8,
    server_open: bool,
    login: Option<(IdentityProvider, bool)>,
) -> Seq<Listener> {
    let base = seq![Listener::WindowClose];
    if update_pending {
        base
    } else {
        let with_frontend = match kind {
            Kind::Dummy => base,
            Kind::EverDrive => base.push(Listener::EverDrive),
            Kind::BizHawk => match bizhawk_port {
                Some(port) => base.push(Listener::FrontendConnection { port, kind, connection_id }),
                None => base,
            },
            Kind::Pj64V3 => base.push(Listener::Pj64Listener { connection_id }),
            Kind::Pj64V4 => base.push(Listener::FrontendConnection { port: PORT, kind, connection_id }),
        };
        let with_server = if server_open {
            with_frontend.push(Listener::Server)
        } else {
            with_frontend
        };
        match login {
            Some((provider, false)) => with_server.push(Listener::LoginHandler(provider)),
            _ => with_server,
        }
    }
}

/// The listeners the window keeps in its current state.
pub fn active_listeners(
    update_pending: bool,
    kind: Kind,
    bizhawk_port: Option<u16>,
    connection_id: u8,
    server_open: bool,
    login: Option<(IdentityProvider, bool)>,
) -> (r: Vec<Listener>)
    ensures
        r@ == listeners_spec(update_pending, kind, bizhawk_port, connection_id, server_open, login),
{
    let mut r: Vec<Listener> = Vec::new();
    r.push(Listener::WindowClose);
    if !update_pending {
        match kind {
            Kind::Dummy => {},
            Kind::EverDrive => r.push(Listener::EverDrive),
            Kind::BizHawk => match bizhawk_port {
                Some(port) => r.push(Listener::FrontendConnection { port, kind, connection_id }),
                None => {},
            },
            Kind::Pj64V3 => r.push(Listener::Pj64Listener { connection_id }),
            Kind::Pj64V4 => r.push(Listener::FrontendConnection { port: PORT, kind, connection_id }),
        }
        if server_open {
            r.push(Listener::Server);
        }
        match login {
            Some((provider, false)) => r.push(Listener::LoginHandler(provider)),
            _ => {},
        }
    }
    r
}

/// The number of the next frontend connection, after the user asks to
/// reconnect: one more, wrapping around after 255.
pub fn next_connection_id(id: u8) -> (r: u8)
    ensures
        r == (id + 1) % 256,
{
    if id == 255 {
        0
    } else {
        id + 1
    }
}

/// Records an error of a command the window ran: the first one is kept until
/// the user dismisses it, and later ones are dropped.
pub fn keep_first_error<E>(slot: &mut Option<E>, e: E)
    ensures
        *final(slot) == match *old(slot) {
            Some(first) => Some(first),
            None => Some(e),
        },
{
    if slot.is_none() {
        *slot = Some(e);
    }
}

} // verus!
