//! The structured errors the multiworld server reports, and their one-byte
//! encoding. New unit variants do not need a protocol version bump: a client
//! reads a byte it does not know as `Future`.
use vstd::prelude::*;
use vstd::string::*;
use crate::text::{decimal, push_decimal};

verus! {

/// An error reported by the server.
#[derive(Clone, Copy, Debug, PartialEq, Eq, Structural)]
pub enum ServerError {
    /// The server sent a `ServerError` that the client doesn't know about yet.
    Future(u8),
    /// You sent the wrong password for the given room.
    WrongPassword,
    /// You attempted to create a room with a duplicate name.
    RoomExists,
    /// You tried to sign in with a Discord account that's not associated with a Mido's House account.
    NoMidosHouseAccountDiscord,
    /// You tried to sign in with a racetime.gg account that's not associated with a Mido's House account.
    NoMidosHouseAccountRaceTime,
    /// You tried to sign in with an expired Discord session token.
    SessionExpiredDiscord,
    /// You tried to sign in with an expired racetime.gg session token.
    SessionExpiredRaceTime,
}

/// The error a byte encodes: the known errors are numbered from 1 in
/// declaration order, every other byte is a `Future` error.
pub open spec fn server_error_from_byte(d: u8) -> ServerError {
    if d == 1 {
        ServerError::WrongPassword
    } else if d == 2 {
        ServerError::RoomExists
    } else if d == 3 {
        ServerError::NoMidosHouseAccountDiscord
    } else if d == 4 {
        ServerError::NoMidosHouseAccountRaceTime
    } else if d == 5 {
        ServerError::SessionExpiredDiscord
    } else if d == 6 {
        ServerError::SessionExpiredRaceTime
    } else {
        ServerError::Future(d)
    }
}

/// The byte that encodes an error.
pub open spec fn server_error_to_byte(e: ServerError) -> u8 {
    match e {
        ServerError::Future(d) => d,
        ServerError::WrongPassword => 1,
        ServerError::RoomExists => 2,
        ServerError::NoMidosHouseAccountDiscord => 3,
        ServerError::NoMidosHouseAccountRaceTime => 4,
        ServerError::SessionExpiredDiscord => 5,
        ServerError::SessionExpiredRaceTime => 6,
    }
}

impl From<u8> for ServerError {
    fn from(d: u8) -> (r: ServerError) {
        if d == 1 {
            ServerError::WrongPassword
        } else if d == 2 {
            ServerError::RoomExists
        } else if d == 3 {
            ServerError::NoMidosHouseAccountDiscord
        } else if d == 4 {
            ServerError::NoMidosHouseAccountRaceTime
        } else if d == 5 {
            ServerError::SessionExpiredDiscord
        } else if d == 6 {
            ServerError::SessionExpiredRaceTime
        } else {
            ServerError::Future(d)
        }
    }
}

impl vstd::std_specs::convert::FromSpecImpl<u8> for ServerError {
    open spec fn obeys_from_spec() -> bool {
        true
    }

    open spec fn from_spec(v: u8) -> ServerError {
        server_error_from_byte(v)
    }
}

impl From<ServerError> for u8 {
    fn from(e: ServerError) -> (r: u8) {
        match e {
            ServerError::Future(d) => d,
            ServerError::WrongPassword => 1,
            ServerError::RoomExists => 2,
            ServerError::NoMidosHouseAccountDiscord => 3,
            ServerError::NoMidosHouseAccountRaceTime => 4,
            ServerError::SessionExpiredDiscord => 5,
            ServerError::SessionExpiredRaceTime => 6,
        }
    }
}

impl vstd::std_specs::convert::FromSpecImpl<ServerError> for u8 {
    open spec fn obeys_from_spec() -> bool {
        true
    }

    open spec fn from_spec(v: ServerError) -> u8 {
        server_error_to_byte(v)
    }
}

/// Every byte survives decoding and encoding: a client that does not know an
/// error passes its byte on unchanged.
pub proof fn lemma_server_error_byte_roundtrip(d: u8)
    ensures
        server_error_to_byte(server_error_from_byte(d)) == d,
{
}

/// Every error survives encoding and decoding, except a `Future` error with a
/// byte that a known error has.
pub proof fn lemma_server_error_roundtrip(e: ServerError)
    requires
        !(e matches ServerError::Future(d) && 1 <= d <= 6),
    ensures
        server_error_from_byte(server_error_to_byte(e)) == e,
{
}

/// The message shown for an error (its `Display` text).
pub open spec fn server_error_text(e: ServerError) -> Seq<char> {
    match e {
        ServerError::Future(d) => "server error #"@ + decimal(d as nat),
        ServerError::WrongPassword => "wrong password"@,
        ServerError::RoomExists => "a room with this name already exists"@,
        ServerError::NoMidosHouseAccountDiscord => "no Mido's House user associated with this Discord account"@,
        ServerError::NoMidosHouseAccountRaceTime => "no Mido's House user associated with this racetime.gg account"@,
        ServerError::SessionExpiredDiscord => "this Discord session token has expired"@,
        ServerError::SessionExpiredRaceTime => "this racetime.gg session token has expired"@,
    }
}

impl ServerError {
    /// The message shown for this error.
    pub fn to_display_string(&self) -> (r: String)
        ensures
            r@ == server_error_text(*self),
    {
        match self {
            ServerError::Future(d) => {
                let mut s = String::from_str("server error #");
                push_decimal(&mut s, *d as u64);
                s
            },
            ServerError::WrongPassword => String::from_str("wrong password"),
            ServerError::RoomExists => String::from_str("a room with this name already exists"),
            ServerError::NoMidosHouseAccountDiscord => String::from_str(
                "no Mido's House user associated with this Discord account",
            ),
            ServerError::NoMidosHouseAccountRaceTime => String::from_str(
                "no Mido's House user associated with this racetime.gg account",
            ),
            ServerError::SessionExpiredDiscord => String::from_str(
                "this Discord session token has expired",
            ),
            ServerError::SessionExpiredRaceTime => String::from_str(
                "this racetime.gg session token has expired",
            ),
        }
    }
}

/// The server's error numbers: 1 wrong password, 2 room exists, 3 and 4 no
/// Mido's House account (Discord, racetime.gg), 5 and 6 session expired
/// (Discord, racetime.gg); 0 and every byte from 7 on is an error the client
/// does not know yet, carried as its number.
pub proof fn lemma_server_error_numbers(d: u8)
    ensures
        ({
            let known = seq![
                ServerError::WrongPassword,
                ServerError::RoomExists,
                ServerError::NoMidosHouseAccountDiscord,
                ServerError::NoMidosHouseAccountRaceTime,
                ServerError::SessionExpiredDiscord,
                ServerError::SessionExpiredRaceTime,
            ];
            &&& 1 <= d <= 6 ==> server_error_from_byte(d) == known[d - 1] && server_error_to_byte(known[d - 1]) == d
            &&& (d == 0 || d > 6) ==> server_error_from_byte(d) == ServerError::Future(d)
        }),
{
}

} // verus!
