//! The commands of the admin console: a server message written as a Rust
//! expression (`PlayerId(3)`, `JoinRoom { name: "room", password: "pw" }`),
//! read from the expression's syntax tree.
use vstd::prelude::*;
use crate::frontend::Filename;
use crate::text::{IntErrorKind, ParseIntError, chars_of, decimal, parse_nonzero, parse_unsigned, parse_unsigned_range, push_decimal, push_str};

verus! {

/// The name of a field in a struct expression.
#[derive(Clone, Debug)]
pub enum FieldMember {
    Named(String),
    Unnamed,
}

/// The parts of a Rust expression that admin commands are written with.
#[derive(Debug)]
pub enum Expr {
    /// An integer literal, by its decimal digits (without suffix or underscores).
    IntLit(String),
    /// A string literal, by its value.
    StrLit(String),
    /// `-expr`.
    Neg(Box<Expr>),
    /// `[a, b, ...]`.
    Array(Vec<Expr>),
    /// A path; its identifier if it is a single identifier.
    Path(Option<String>),
    /// `func(args...)`.
    Call(Box<Expr>, Vec<Expr>),
    /// `Name { field: value, ... }`; the identifier of the name if it is a single identifier.
    Struct(Option<String>, Vec<(FieldMember, Expr)>),
    /// Any other expression.
    Other,
}

/// Why an expression is not a command.
#[derive(Clone, Copy, Debug, PartialEq, Eq, Structural)]
pub enum AdminError {
    /// An integer literal does not fit its field.
    IntParse(ParseIntError),
    /// A call does not have exactly one argument.
    ExactlyOne,
    /// The expression does not have the shape of a command.
    FromExpr,
}

/// A server message written at the admin console.
#[derive(Debug)]
pub enum AdminCommand {
    Ping,
    Stop,
    ResetPlayerId,
    DeleteRoom,
    PlayerId(u8),
    PlayerName(Filename),
    KickPlayer(u8),
    JoinRoom { name: String, password: String },
    CreateRoom { name: String, password: String },
    /// `api_key` has 32 bytes.
    Login { id: u64, api_key: Vec<u8> },
    SendItem { key: u32, kind: u16, target_world: u8 },
    Track { room_name: String, world_count: u8 },
    /// `spoiler_log` is the path of the spoiler log to read.
    SendAll { room: String, source_world: u8, spoiler_log: String },
}

/// An admin command, with strings as character sequences.
pub enum CommandModel {
    Ping,
    Stop,
    ResetPlayerId,
    DeleteRoom,
    PlayerId(u8),
    PlayerName(Seq<u8>),
    KickPlayer(u8),
    JoinRoom { name: Seq<char>, password: Seq<char> },
    CreateRoom { name: Seq<char>, password: Seq<char> },
    Login { id: u64, api_key: Seq<u8> },
    SendItem { key: u32, kind: u16, target_world: u8 },
    Track { room_name: Seq<char>, world_count: u8 },
    SendAll { room: Seq<char>, source_world: u8, spoiler_log: Seq<char> },
}

impl View for AdminCommand {
    type V = CommandModel;

    open spec fn view(&self) -> CommandModel {
        match self {
            AdminCommand::Ping => CommandModel::Ping,
            AdminCommand::Stop => CommandModel::Stop,
            AdminCommand::ResetPlayerId => CommandModel::ResetPlayerId,
            AdminCommand::DeleteRoom => CommandModel::DeleteRoom,
            AdminCommand::PlayerId(w) => CommandModel::PlayerId(*w),
            AdminCommand::PlayerName(f) => CommandModel::PlayerName(f.0@),
            AdminCommand::KickPlayer(w) => CommandModel::KickPlayer(*w),
            AdminCommand::JoinRoom { name, password } => CommandModel::JoinRoom {
                name: name@,
                password: password@,
            },
            AdminCommand::CreateRoom { name, password } => CommandModel::CreateRoom {
                name: name@,
                password: password@,
            },
            AdminCommand::Login { id, api_key } => CommandModel::Login { id: *id, api_key: api_key@ },
            AdminCommand::SendItem { key, kind, target_world } => CommandModel::SendItem {
                key: *key,
                kind: *kind,
                target_world: *target_world,
            },
            AdminCommand::Track { room_name, world_count } => CommandModel::Track {
                room_name: room_name@,
                world_count: *world_count,
            },
            AdminCommand::SendAll { room, source_world, spoiler_log } => CommandModel::SendAll {
                room: room@,
                source_world: *source_world,
                spoiler_log: spoiler_log@,
            },
        }
    }
}

pub open spec fn int_parse_error(k: IntErrorKind) -> AdminError {
    AdminError::IntParse(ParseIntError { kind: k })
}

/// An unsigned integer of at most `max`: an integer literal that fits.
pub open spec fn uint_from_expr(e: Expr, max: nat) -> Result<nat, AdminError> {
    match e {
        Expr::IntLit(d) => match parse_unsigned(d@, max) {
            Ok(v) => Ok(v),
            Err(k) => Err(int_parse_error(k)),
        },
        _ => Err(AdminError::FromExpr),
    }
}

/// A world number: an integer literal between 1 and 255.
pub open spec fn world_from_expr(e: Expr) -> Result<nat, AdminError> {
    match e {
        Expr::IntLit(d) => match parse_nonzero(d@, 255) {
            Ok(v) => Ok(v),
            Err(k) => Err(int_parse_error(k)),
        },
        _ => Err(AdminError::FromExpr),
    }
}

pub open spec fn i64_max() -> nat {
    0x7fff_ffff_ffff_ffff
}

/// A `u64`: an integer literal that fits, or a negated literal that fits an
/// `i64`, taken modulo 2^64.
pub open spec fn u64_from_expr(e: Expr) -> Result<nat, AdminError> {
    match e {
        Expr::IntLit(d) => match parse_unsigned(d@, 0xffff_ffff_ffff_ffff) {
            Ok(v) => Ok(v),
            Err(k) => Err(int_parse_error(k)),
        },
        Expr::Neg(inner) => match *inner {
            Expr::IntLit(d) => match parse_unsigned(d@, i64_max()) {
                Ok(v) => Ok(if v == 0 { 0 } else { (0x1_0000_0000_0000_0000 - v) as nat }),
                Err(k) => Err(int_parse_error(k)),
            },
            _ => Err(AdminError::FromExpr),
        },
        _ => Err(AdminError::FromExpr),
    }
}

/// A string: a string literal.
pub open spec fn str_from_expr(e: Expr) -> Result<Seq<char>, AdminError> {
    match e {
        Expr::StrLit(s) => Ok(s@),
        _ => Err(AdminError::FromExpr),
    }
}

/// The bytes of the elements of an array, read in order: the first element
/// that is not a byte gives the error.
pub open spec fn bytes_from_elems(elems: Seq<Expr>) -> Result<Seq<u8>, AdminError>
    decreases elems.len(),
{
    if elems.len() == 0 {
        Ok(Seq::empty())
    } else {
        match uint_from_expr(elems[0], 255) {
            Err(e) => Err(e),
            Ok(b) => match bytes_from_elems(elems.drop_first()) {
                Err(e) => Err(e),
                Ok(rest) => Ok(seq![b as u8] + rest),
            },
        }
    }
}

/// An array of exactly `n` bytes.
pub open spec fn byte_array_from_expr(e: Expr, n: nat) -> Result<Seq<u8>, AdminError> {
    match e {
        Expr::Array(elems) => match bytes_from_elems(elems@) {
            Err(e) => Err(e),
            Ok(b) => if b.len() == n { Ok(b) } else { Err(AdminError::FromExpr) },
        },
        _ => Err(AdminError::FromExpr),
    }
}

/// The types of the fields of the commands written as struct expressions.
#[derive(Clone, Copy, Debug, PartialEq, Eq, Structural)]
pub enum FieldKind {
    Str,
    U64,
    U32,
    U16,
    World,
    Bytes32,
}

/// The value of a field.
pub enum FieldValue {
    Text(Seq<char>),
    Number(nat),
    Bytes(Seq<u8>),
}

pub open spec fn field_from_expr(kind: FieldKind, e: Expr) -> Result<FieldValue, AdminError> {
    match kind {
        FieldKind::Str => match str_from_expr(e) {
            Ok(s) => Ok(FieldValue::Text(s)),
            Err(x) => Err(x),
        },
        FieldKind::U64 => match u64_from_expr(e) {
            Ok(v) => Ok(FieldValue::Number(v)),
            Err(x) => Err(x),
        },
        FieldKind::U32 => match uint_from_expr(e, 0xffff_ffff) {
            Ok(v) => Ok(FieldValue::Number(v)),
            Err(x) => Err(x),
        },
        FieldKind::U16 => match uint_from_expr(e, 0xffff) {
            Ok(v) => Ok(FieldValue::Number(v)),
            Err(x) => Err(x),
        },
        FieldKind::World => match world_from_expr(e) {
            Ok(v) => Ok(FieldValue::Number(v)),
            Err(x) => Err(x),
        },
        FieldKind::Bytes32 => match byte_array_from_expr(e, 32) {
            Ok(b) => Ok(FieldValue::Bytes(b)),
            Err(x) => Err(x),
        },
    }
}

/// Whether `i` is the first position of `name` among `names`.
pub open spec fn first_position(names: Seq<Seq<char>>, name: Seq<char>, i: int) -> bool {
    &&& 0 <= i < names.len()
    &&& names[i] == name
    &&& forall|k: int| 0 <= k < i ==> names[k] != name
}

/// The first position of the field called `name` among `names`, if any.
pub open spec fn field_position(names: Seq<Seq<char>>, name: Seq<char>) -> Option<int> {
    if exists|i: int| first_position(names, name, i) {
        Some(choose|i: int| first_position(names, name, i))
    } else {
        None
    }
}

/// Reading the fields of a struct expression in order into `acc` (one slot per
/// field name): an unnamed or unknown field, or a field given twice, is an
/// error, as is the first value that does not fit its field.
pub open spec fn collect_fields(
    fields: Seq<(FieldMember, Expr)>,
    names: Seq<Seq<char>>,
    kinds: Seq<FieldKind>,
    acc: Seq<Option<FieldValue>>,
) -> Result<Seq<Option<FieldValue>>, AdminError>
    decreases fields.len(),
{
    if fields.len() == 0 {
        Ok(acc)
    } else {
        match fields[0].0 {
            FieldMember::Unnamed => Err(AdminError::FromExpr),
            FieldMember::Named(n) => match field_position(names, n@) {
                None => Err(AdminError::FromExpr),
                Some(k) => match field_from_expr(kinds[k], fields[0].1) {
                    Err(x) => Err(x),
                    Ok(v) => if acc[k] is Some {
                        Err(AdminError::FromExpr)
                    } else {
                        collect_fields(fields.drop_first(), names, kinds, acc.update(k, Some(v)))
                    },
                },
            },
        }
    }
}

/// One empty slot for each of `n` fields.
pub open spec fn empty_slots(n: nat) -> Seq<Option<FieldValue>> {
    Seq::new(n, |i: int| None)
}

/// The names and kinds of the fields of each command written as a struct expression.
pub open spec fn struct_fields(name: Seq<char>) -> Option<(Seq<Seq<char>>, Seq<FieldKind>)> {
    if name == "JoinRoom"@ || name == "CreateRoom"@ {
        Some((seq!["name"@, "password"@], seq![FieldKind::Str, FieldKind::Str]))
    } else if name == "Login"@ {
        Some((seq!["id"@, "api_key"@], seq![FieldKind::U64, FieldKind::Bytes32]))
    } else if name == "SendItem"@ {
        Some((seq!["key"@, "kind"@, "target_world"@], seq![FieldKind::U32, FieldKind::U16, FieldKind::World]))
    } else if name == "Track"@ {
        Some((seq!["room_name"@, "world_count"@], seq![FieldKind::Str, FieldKind::World]))
    } else if name == "SendAll"@ {
        Some((seq!["room"@, "source_world"@, "spoiler_log"@], seq![FieldKind::Str, FieldKind::World, FieldKind::Str]))
    } else {
        None
    }
}

pub open spec fn text_of(v: Option<FieldValue>) -> Seq<char> {
    match v {
        Some(FieldValue::Text(s)) => s,
        _ => Seq::empty(),
    }
}

pub open spec fn number_of(v: Option<FieldValue>) -> nat {
    match v {
        Some(FieldValue::Number(n)) => n,
        _ => 0,
    }
}

pub open spec fn bytes_of(v: Option<FieldValue>) -> Seq<u8> {
    match v {
        Some(FieldValue::Bytes(b)) => b,
        _ => Seq::empty(),
    }
}

/// The command a struct expression with all its fields given stands for.
pub open spec fn struct_command(name: Seq<char>, vals: Seq<Option<FieldValue>>) -> CommandModel {
    if name == "JoinRoom"@ {
        CommandModel::JoinRoom { name: text_of(vals[0]), password: text_of(vals[1]) }
    } else if name == "CreateRoom"@ {
        CommandModel::CreateRoom { name: text_of(vals[0]), password: text_of(vals[1]) }
    } else if name == "Login"@ {
        CommandModel::Login { id: number_of(vals[0]) as u64, api_key: bytes_of(vals[1]) }
    } else if name == "SendItem"@ {
        CommandModel::SendItem {
            key: number_of(vals[0]) as u32,
            kind: number_of(vals[1]) as u16,
            target_world: number_of(vals[2]) as u8,
        }
    } else if name == "Track"@ {
        CommandModel::Track { room_name: text_of(vals[0]), world_count: number_of(vals[1]) as u8 }
    } else {
        CommandModel::SendAll {
            room: text_of(vals[0]),
            source_world: number_of(vals[1]) as u8,
            spoiler_log: text_of(vals[2]),
        }
    }
}

/// The command an expression stands for.
pub open spec fn command_from_expr(e: Expr) -> Result<CommandModel, AdminError> {
    match e {
        Expr::Call(func, args) => match *func {
            Expr::Path(Some(ident)) => {
                let i = ident@;
                if i == "PlayerId"@ || i == "KickPlayer"@ || i == "PlayerName"@ {
                    if args@.len() != 1 {
                        Err(AdminError::ExactlyOne)
                    } else if i == "PlayerName"@ {
                        match byte_array_from_expr(args@[0], 8) {
                            Ok(b) => Ok(CommandModel::PlayerName(b)),
                            Err(x) => Err(x),
                        }
                    } else {
                        match world_from_expr(args@[0]) {
                            Ok(w) => Ok(
                                if i == "PlayerId"@ {
                                    CommandModel::PlayerId(w as u8)
                                } else {
                                    CommandModel::KickPlayer(w as u8)
                                },
                            ),
                            Err(x) => Err(x),
                        }
                    }
                } else {
                    Err(AdminError::FromExpr)
                }
            },
            _ => Err(AdminError::FromExpr),
        },
        Expr::Path(Some(ident)) => {
            let i = ident@;
            if i == "Ping"@ {
                Ok(CommandModel::Ping)
            } else if i == "Stop"@ {
                Ok(CommandModel::Stop)
            } else if i == "ResetPlayerId"@ {
                Ok(CommandModel::ResetPlayerId)
            } else if i == "DeleteRoom"@ {
                Ok(CommandModel::DeleteRoom)
            } else {
                Err(AdminError::FromExpr)
            }
        },
        Expr::Struct(Some(ident), fields) => match struct_fields(ident@) {
            None => Err(AdminError::FromExpr),
            Some((names, kinds)) => match collect_fields(
                fields@,
                names,
                kinds,
                empty_slots(names.len()),
            ) {
                Err(x) => Err(x),
                Ok(vals) => if exists|k: int| 0 <= k < vals.len() && vals[k] is None {
                    Err(AdminError::FromExpr)
                } else {
                    Ok(struct_command(ident@, vals))
                },
            },
        },
        _ => Err(AdminError::FromExpr),
    }
}


pub open spec fn nat_result(r: Result<u64, AdminError>) -> Result<nat, AdminError> {
    match r {
        Ok(v) => Ok(v as nat),
        Err(x) => Err(x),
    }
}

/// Whether `s` is the text `lit`.
fn text_is(s: &String, lit: &str) -> (r: bool)
    ensures
        r == (s@ == lit@),
{
    let a = chars_of(s.as_str());
    let b = chars_of(lit);
    if a.len() != b.len() {
        assert(a@.len() != b@.len());
        return false;
    }
    let mut i: usize = 0;
    while i < a.len()
        invariant
            a@ == s@,
            b@ == lit@,
            a@.len() == b@.len(),
            i <= a@.len(),
            forall|k: int| 0 <= k < i ==> a@[k] == b@[k],
        decreases a.len() - i,
    {
        if a[i] != b[i] {
            assert(a@[i as int] != b@[i as int]);
            assert(a@ != b@);
            return false;
        }
        i = i + 1;
    }
    assert(a@ =~= b@);
    true
}

/// The value of the decimal digits `d`, if it is at most `max`.
fn digits_value(d: &String, max: u64) -> (r: Result<u64, AdminError>)
    ensures
        match r {
            Ok(v) => v <= max && parse_unsigned(d@, max as nat) == Ok::<nat, IntErrorKind>(v as nat),
            Err(x) => parse_unsigned(d@, max as nat) is Err && x == int_parse_error(
                parse_unsigned(d@, max as nat)->Err_0,
            ),
        },
{
    let cs = chars_of(d.as_str());
    assert(cs@.subrange(0, cs@.len() as int) =~= d@);
    match parse_unsigned_range(&cs, 0, cs.len(), max) {
        Ok(v) => Ok(v),
        Err(e) => Err(AdminError::IntParse(e)),
    }
}

/// An unsigned integer literal of at most `max`.
fn uint_from(e: &Expr, max: u64) -> (r: Result<u64, AdminError>)
    ensures
        r matches Ok(v) ==> v <= max,
        nat_result(r) == uint_from_expr(*e, max as nat),
{
    match e {
        Expr::IntLit(d) => digits_value(d, max),
        _ => Err(AdminError::FromExpr),
    }
}

/// A world number: an integer literal between 1 and 255.
fn world_from(e: &Expr) -> (r: Result<u8, AdminError>)
    ensures
        match r {
            Ok(w) => world_from_expr(*e) == Ok::<nat, AdminError>(w as nat),
            Err(x) => world_from_expr(*e) == Err::<nat, AdminError>(x),
        },
{
    match e {
        Expr::IntLit(d) => match digits_value(d, 255) {
            Ok(v) => if v == 0 {
                Err(AdminError::IntParse(ParseIntError { kind: IntErrorKind::Zero }))
            } else {
                Ok(v as u8)
            },
            Err(x) => Err(x),
        },
        _ => Err(AdminError::FromExpr),
    }
}

/// A `u64`, possibly written as a negated literal.
fn u64_from(e: &Expr) -> (r: Result<u64, AdminError>)
    ensures
        nat_result(r) == u64_from_expr(*e),
{
    match e {
        Expr::IntLit(d) => digits_value(d, 0xffff_ffff_ffff_ffff),
        Expr::Neg(inner) => match &**inner {
            Expr::IntLit(d) => match digits_value(d, 0x7fff_ffff_ffff_ffff) {
                Ok(v) => if v == 0 {
                    Ok(0)
                } else {
                    Ok((0xffff_ffff_ffff_ffff - v) + 1)
                },
                Err(x) => Err(x),
            },
            _ => Err(AdminError::FromExpr),
        },
        _ => Err(AdminError::FromExpr),
    }
}

/// A string literal's value.
fn str_from(e: &Expr) -> (r: Result<String, AdminError>)
    ensures
        match r {
            Ok(s) => str_from_expr(*e) == Ok::<Seq<char>, AdminError>(s@),
            Err(x) => str_from_expr(*e) == Err::<Seq<char>, AdminError>(x),
        },
{
    match e {
        Expr::StrLit(s) => Ok(s.clone()),
        _ => Err(AdminError::FromExpr),
    }
}

/// `r` with `p` in front of its bytes.
pub open spec fn bytes_after(p: Seq<u8>, r: Result<Seq<u8>, AdminError>) -> Result<Seq<u8>, AdminError> {
    match r {
        Ok(rest) => Ok(p + rest),
        Err(x) => Err(x),
    }
}

/// The bytes of the elements of an array literal.
fn bytes_from(elems: &Vec<Expr>) -> (r: Result<Vec<u8>, AdminError>)
    ensures
        match r {
            Ok(b) => bytes_from_elems(elems@) == Ok::<Seq<u8>, AdminError>(b@),
            Err(x) => bytes_from_elems(elems@) == Err::<Seq<u8>, AdminError>(x),
        },
{
    let mut out: Vec<u8> = Vec::new();
    let mut i: usize = 0;
    assert(elems@.skip(0) =~= elems@);
    proof {
        match bytes_from_elems(elems@) {
            Ok(all) => {
                assert(Seq::<u8>::empty() + all =~= all);
            },
            Err(_) => {},
        }
    }
    while i < elems.len()
        invariant
            i <= elems@.len(),
            bytes_from_elems(elems@) == bytes_after(out@, bytes_from_elems(elems@.skip(i as int))),
        decreases elems.len() - i,
    {
        let ghost rest = elems@.skip(i as int);
        assert(rest[0] == elems@[i as int]);
        assert(rest.drop_first() =~= elems@.skip(i + 1));
        match uint_from(&elems[i], 255) {
            Ok(b) => {
                let ghost before = out@;
                out.push(b as u8);
                assert(bytes_after(before, bytes_from_elems(rest)) == bytes_after(
                    out@,
                    bytes_from_elems(elems@.skip(i + 1)),
                )) by {
                    match bytes_from_elems(elems@.skip(i + 1)) {
                        Ok(tail) => {
                            assert(before + (seq![b as u8] + tail) =~= out@ + tail);
                        },
                        Err(x) => {},
                    }
                }
                i = i + 1;
            },
            Err(x) => {
                return Err(x);
            },
        }
    }
    assert(elems@.skip(i as int) =~= Seq::<Expr>::empty());
    assert(out@ + Seq::<u8>::empty() =~= out@);
    Ok(out)
}

/// An array literal of exactly `n` bytes.
fn byte_array_from(e: &Expr, n: usize) -> (r: Result<Vec<u8>, AdminError>)
    ensures
        match r {
            Ok(b) => byte_array_from_expr(*e, n as nat) == Ok::<Seq<u8>, AdminError>(b@),
            Err(x) => byte_array_from_expr(*e, n as nat) == Err::<Seq<u8>, AdminError>(x),
        },
{
    match e {
        Expr::Array(elems) => match bytes_from(elems) {
            Ok(out) => if out.len() == n {
                Ok(out)
            } else {
                Err(AdminError::FromExpr)
            },
            Err(x) => Err(x),
        },
        _ => Err(AdminError::FromExpr),
    }
}

/// The value read for one field of a struct expression.
enum FieldRead {
    Text(String),
    Number(u64),
    Bytes(Vec<u8>),
}

spec fn read_view(f: FieldRead) -> FieldValue {
    match f {
        FieldRead::Text(s) => FieldValue::Text(s@),
        FieldRead::Number(n) => FieldValue::Number(n as nat),
        FieldRead::Bytes(b) => FieldValue::Bytes(b@),
    }
}

spec fn slots_view(s: Seq<Option<FieldRead>>) -> Seq<Option<FieldValue>> {
    Seq::new(
        s.len(),
        |i: int|
            match s[i] {
                Some(f) => Some(read_view(f)),
                None => None,
            },
    )
}

pub open spec fn names_view(names: Seq<&str>) -> Seq<Seq<char>> {
    Seq::new(names.len(), |i: int| names[i]@)
}

/// The value of a field of the given kind.
fn field_from(kind: FieldKind, e: &Expr) -> (r: Result<FieldRead, AdminError>)
    ensures
        match r {
            Ok(f) => field_from_expr(kind, *e) == Ok::<FieldValue, AdminError>(read_view(f)),
            Err(x) => field_from_expr(kind, *e) == Err::<FieldValue, AdminError>(x),
        },
{
    match kind {
        FieldKind::Str => match str_from(e) {
            Ok(s) => Ok(FieldRead::Text(s)),
            Err(x) => Err(x),
        },
        FieldKind::U64 => match u64_from(e) {
            Ok(v) => Ok(FieldRead::Number(v)),
            Err(x) => Err(x),
        },
        FieldKind::U32 => match uint_from(e, 0xffff_ffff) {
            Ok(v) => Ok(FieldRead::Number(v)),
            Err(x) => Err(x),
        },
        FieldKind::U16 => match uint_from(e, 0xffff) {
            Ok(v) => Ok(FieldRead::Number(v)),
            Err(x) => Err(x),
        },
        FieldKind::World => match world_from(e) {
            Ok(v) => Ok(FieldRead::Number(v as u64)),
            Err(x) => Err(x),
        },
        FieldKind::Bytes32 => match byte_array_from(e, 32) {
            Ok(b) => Ok(FieldRead::Bytes(b)),
            Err(x) => Err(x),
        },
    }
}

/// The first position of `name` among `names`.
fn field_index(names: &Vec<&str>, name: &String) -> (r: Option<usize>)
    ensures
        match r {
            Some(k) => field_position(names_view(names@), name@) == Some(k as int),
            None => field_position(names_view(names@), name@) is None,
        },
{
    let ghost nv = names_view(names@);
    let mut i: usize = 0;
    while i < names.len()
        invariant
            nv == names_view(names@),
            i <= names@.len(),
            forall|k: int| 0 <= k < i ==> nv[k] != name@,
        decreases names.len() - i,
    {
        if text_is(name, names[i]) {
            assert(first_position(nv, name@, i as int));
            return Some(i);
        }
        i = i + 1;
    }
    assert(forall|k: int| !first_position(nv, name@, k));
    None
}

/// The fields of a struct expression, read into one slot per field name.
fn collect(fields: &Vec<(FieldMember, Expr)>, names: &Vec<&str>, kinds: &Vec<FieldKind>) -> (r: Result<
    Vec<Option<FieldRead>>,
    AdminError,
>)
    requires
        names@.len() == kinds@.len(),
    ensures
        match r {
            Ok(v) => v@.len() == names@.len() && collect_fields(
                fields@,
                names_view(names@),
                kinds@,
                empty_slots(names@.len()),
            ) == Ok::<Seq<Option<FieldValue>>, AdminError>(slots_view(v@)),
            Err(x) => collect_fields(
                fields@,
                names_view(names@),
                kinds@,
                empty_slots(names@.len()),
            ) == Err::<Seq<Option<FieldValue>>, AdminError>(x),
        },
{
    let ghost nv = names_view(names@);
    let ghost init = empty_slots(names@.len());
    let mut acc: Vec<Option<FieldRead>> = Vec::new();
    let mut j: usize = 0;
    while j < names.len()
        invariant
            j <= names@.len(),
            acc@.len() == j,
            forall|k: int| 0 <= k < j ==> acc@[k] is None,
        decreases names.len() - j,
    {
        acc.push(None);
        j = j + 1;
    }
    assert(slots_view(acc@) =~= init);
    assert(fields@.skip(0) =~= fields@);
    let mut i: usize = 0;
    while i < fields.len()
        invariant
            nv == names_view(names@),
            init == empty_slots(names@.len()),
            names@.len() == kinds@.len(),
            acc@.len() == names@.len(),
            i <= fields@.len(),
            collect_fields(fields@, nv, kinds@, init) == collect_fields(
                fields@.skip(i as int),
                nv,
                kinds@,
                slots_view(acc@),
            ),
        decreases fields.len() - i,
    {
        let ghost rest = fields@.skip(i as int);
        assert(rest[0] == fields@[i as int]);
        assert(rest.drop_first() =~= fields@.skip(i + 1));
        let field = &fields[i];
        match &field.0 {
            FieldMember::Unnamed => {
                return Err(AdminError::FromExpr);
            },
            FieldMember::Named(n) => match field_index(names, n) {
                None => {
                    return Err(AdminError::FromExpr);
                },
                Some(k) => match field_from(kinds[k], &field.1) {
                    Err(x) => {
                        return Err(x);
                    },
                    Ok(v) => {
                        if acc[k].is_some() {
                            return Err(AdminError::FromExpr);
                        }
                        let ghost vv = read_view(v);
                        let ghost old_slots = slots_view(acc@);
                        acc.set(k, Some(v));
                        assert(slots_view(acc@) =~= old_slots.update(k as int, Some(vv)));
                        i = i + 1;
                    },
                },
            },
        }
    }
    assert(fields@.skip(i as int) =~= Seq::<(FieldMember, Expr)>::empty());
    Ok(acc)
}

/// The field names and kinds of the command called `name`, if it is written
/// as a struct expression.
fn struct_table(name: &String) -> (r: Option<(Vec<&'static str>, Vec<FieldKind>)>)
    ensures
        match r {
            Some(t) => t.0@.len() == t.1@.len() && struct_fields(name@) == Some(
                (names_view(t.0@), t.1@),
            ),
            None => struct_fields(name@) is None,
        },
{
    let (names, kinds): (Vec<&'static str>, Vec<FieldKind>) = if text_is(name, "JoinRoom")
        || text_is(name, "CreateRoom") {
        (vec!["name", "password"], vec![FieldKind::Str, FieldKind::Str])
    } else if text_is(name, "Login") {
        (vec!["id", "api_key"], vec![FieldKind::U64, FieldKind::Bytes32])
    } else if text_is(name, "SendItem") {
        (
            vec!["key", "kind", "target_world"],
            vec![FieldKind::U32, FieldKind::U16, FieldKind::World],
        )
    } else if text_is(name, "Track") {
        (vec!["room_name", "world_count"], vec![FieldKind::Str, FieldKind::World])
    } else if text_is(name, "SendAll") {
        (
            vec!["room", "source_world", "spoiler_log"],
            vec![FieldKind::Str, FieldKind::World, FieldKind::Str],
        )
    } else {
        return None;
    };
    proof {
        let t = struct_fields(name@)->Some_0;
        assert(names_view(names@) =~= t.0);
        assert(kinds@ =~= t.1);
    }
    Some((names, kinds))
}

/// The text in slot `k`.
fn text_at(vals: &Vec<Option<FieldRead>>, k: usize) -> (r: String)
    requires
        k < vals@.len(),
    ensures
        r@ == text_of(slots_view(vals@)[k as int]),
{
    match &vals[k] {
        Some(FieldRead::Text(s)) => s.clone(),
        _ => String::new(),
    }
}

/// The number in slot `k`.
fn number_at(vals: &Vec<Option<FieldRead>>, k: usize) -> (r: u64)
    requires
        k < vals@.len(),
    ensures
        r as nat == number_of(slots_view(vals@)[k as int]),
{
    match &vals[k] {
        Some(FieldRead::Number(n)) => *n,
        _ => 0,
    }
}

/// The bytes in slot `k`.
fn bytes_at(vals: &Vec<Option<FieldRead>>, k: usize) -> (r: Vec<u8>)
    requires
        k < vals@.len(),
    ensures
        r@ == bytes_of(slots_view(vals@)[k as int]),
{
    match &vals[k] {
        Some(FieldRead::Bytes(b)) => {
            let mut out: Vec<u8> = Vec::new();
            let mut i: usize = 0;
            while i < b.len()
                invariant
                    i <= b@.len(),
                    out@ == b@.take(i as int),
                decreases b.len() - i,
            {
                out.push(b[i]);
                i = i + 1;
                assert(out@ =~= b@.take(i as int));
            }
            assert(b@.take(b@.len() as int) =~= b@);
            out
        },
        _ => Vec::new(),
    }
}

/// Whether every slot holds a value.
fn all_present(vals: &Vec<Option<FieldRead>>) -> (r: bool)
    ensures
        r == !(exists|k: int| 0 <= k < vals@.len() && slots_view(vals@)[k] is None),
{
    let mut i: usize = 0;
    while i < vals.len()
        invariant
            i <= vals@.len(),
            forall|k: int| 0 <= k < i ==> slots_view(vals@)[k] is Some,
        decreases vals.len() - i,
    {
        if vals[i].is_none() {
            assert(slots_view(vals@)[i as int] is None);
            return false;
        }
        i = i + 1;
    }
    true
}

/// The command written as a struct expression, from its name and fields.
fn struct_from(name: &String, fields: &Vec<(FieldMember, Expr)>) -> (r: Result<
    AdminCommand,
    AdminError,
>)
    ensures
        match struct_fields(name@) {
            None => r == Err::<AdminCommand, AdminError>(AdminError::FromExpr),
            Some((names, kinds)) => match collect_fields(
                fields@,
                names,
                kinds,
                empty_slots(names.len()),
            ) {
                Err(x) => r == Err::<AdminCommand, AdminError>(x),
                Ok(vals) => if exists|k: int| 0 <= k < vals.len() && vals[k] is None {
                    r == Err::<AdminCommand, AdminError>(AdminError::FromExpr)
                } else {
                    r matches Ok(c) && c@ == struct_command(name@, vals)
                },
            },
        },
{
    let (names, kinds) = match struct_table(name) {
        None => {
            return Err(AdminError::FromExpr);
        },
        Some(t) => t,
    };
    let vals = match collect(fields, &names, &kinds) {
        Err(x) => {
            return Err(x);
        },
        Ok(v) => v,
    };
    if !all_present(&vals) {
        return Err(AdminError::FromExpr);
    }
    let ghost sv = slots_view(vals@);
    let cmd = if text_is(name, "JoinRoom") {
        AdminCommand::JoinRoom { name: text_at(&vals, 0), password: text_at(&vals, 1) }
    } else if text_is(name, "CreateRoom") {
        AdminCommand::CreateRoom { name: text_at(&vals, 0), password: text_at(&vals, 1) }
    } else if text_is(name, "Login") {
        AdminCommand::Login { id: number_at(&vals, 0), api_key: bytes_at(&vals, 1) }
    } else if text_is(name, "SendItem") {
        let key = number_at(&vals, 0);
        let kind = number_at(&vals, 1);
        let target_world = number_at(&vals, 2);
        AdminCommand::SendItem { key: key as u32, kind: kind as u16, target_world: target_world as u8 }
    } else if text_is(name, "Track") {
        let world_count = number_at(&vals, 1);
        AdminCommand::Track { room_name: text_at(&vals, 0), world_count: world_count as u8 }
    } else {
        let source_world = number_at(&vals, 1);
        AdminCommand::SendAll {
            room: text_at(&vals, 0),
            source_world: source_world as u8,
            spoiler_log: text_at(&vals, 2),
        }
    };
    Ok(cmd)
}

/// The 8 bytes of a filename.
fn filename_of(b: &Vec<u8>) -> (f: Filename)
    requires
        b@.len() == 8,
    ensures
        f.0@ == b@,
{
    let f = Filename([b[0], b[1], b[2], b[3], b[4], b[5], b[6], b[7]]);
    assert(f.0@ =~= b@);
    f
}

impl AdminCommand {
    /// Reads the command that an expression stands for.
    pub fn from_expr(expr: Expr) -> (r: Result<AdminCommand, AdminError>)
        ensures
            match r {
                Ok(c) => command_from_expr(expr) == Ok::<CommandModel, AdminError>(c@),
                Err(x) => command_from_expr(expr) == Err::<CommandModel, AdminError>(x),
            },
    {
        match &expr {
            Expr::Call(func, args) => match &**func {
                Expr::Path(Some(ident)) => {
                    let player_id = text_is(ident, "PlayerId");
                    let kick = text_is(ident, "KickPlayer");
                    let player_name = text_is(ident, "PlayerName");
                    if player_id || kick || player_name {
                        if args.len() != 1 {
                            Err(AdminError::ExactlyOne)
                        } else if player_name {
                            match byte_array_from(&args[0], 8) {
                                Ok(b) => Ok(AdminCommand::PlayerName(filename_of(&b))),
                                Err(x) => Err(x),
                            }
                        } else {
                            match world_from(&args[0]) {
                                Ok(w) => Ok(
                                    if player_id {
                                        AdminCommand::PlayerId(w)
                                    } else {
                                        AdminCommand::KickPlayer(w)
                                    },
                                ),
                                Err(x) => Err(x),
                            }
                        }
                    } else {
                        Err(AdminError::FromExpr)
                    }
                },
                _ => Err(AdminError::FromExpr),
            },
            Expr::Path(Some(ident)) => {
                if text_is(ident, "Ping") {
                    Ok(AdminCommand::Ping)
                } else if text_is(ident, "Stop") {
                    Ok(AdminCommand::Stop)
                } else if text_is(ident, "ResetPlayerId") {
                    Ok(AdminCommand::ResetPlayerId)
                } else if text_is(ident, "DeleteRoom") {
                    Ok(AdminCommand::DeleteRoom)
                } else {
                    Err(AdminError::FromExpr)
                }
            },
            Expr::Struct(Some(ident), fields) => struct_from(ident, fields),
            _ => Err(AdminError::FromExpr),
        }
    }
}

/// What `<str as Debug>::fmt` writes for a text: the text in double quotes,
/// with special characters escaped.
pub uninterp spec fn debug_text(s: Seq<char>) -> Seq<char>;

/// `format!("{:?}", s)`: the `Debug` text of a string. Its result is taken to
/// depend on the text alone; nothing more is said of it.
#[verifier::external_body]
pub(crate) fn debug_string(s: &str) -> (r: String)
    ensures
        r@ == debug_text(s@),
{
    format!("{:?}", s)
}

/// What the admin console's prompt shows of the connection to the server.
#[derive(Debug)]
pub enum SessionSummary {
    Error,
    Init,
    InitAutoRejoin,
    /// In the lobby: the number of rooms, whether signed in (and as an admin),
    /// and whether the last room password was wrong.
    Lobby { rooms: u64, login: Option<bool>, wrong_password: bool },
    /// In a room: its name, and how many players, unassigned clients and
    /// queued items it has.
    Room { room_name: String, players: u64, unassigned_clients: u64, items: u64 },
    Closed,
}

/// `n` followed by `one` if it is 1, else by `many`; nothing if `n` is 0.
pub open spec fn counted(n: nat, one: Seq<char>, many: Seq<char>) -> Seq<char> {
    if n == 0 {
        Seq::empty()
    } else if n == 1 {
        one
    } else {
        decimal(n) + many
    }
}

/// The prompt of the admin console (without the `> ` that follows it).
pub open spec fn prompt_text(s: SessionSummary) -> Seq<char> {
    match s {
        SessionSummary::Error => "error"@,
        SessionSummary::Init => "connecting"@,
        SessionSummary::InitAutoRejoin => "connecting (will auto-rejoin)"@,
        SessionSummary::Lobby { rooms, login, wrong_password } => "lobby ("@ + decimal(rooms as nat)
            + " room"@ + (if rooms == 1 {
            ""@
        } else {
            "s"@
        }) + match login {
            Some(true) => ", admin"@,
            Some(false) => ", signed in"@,
            None => ""@,
        } + (if wrong_password {
            ", wrong room password"@
        } else {
            ""@
        }) + ")"@,
        SessionSummary::Room { room_name, players, unassigned_clients, items } => "room "@ + debug_text(
            room_name@,
        ) + " ("@ + counted(players as nat, "1 player"@, " players"@) + (if players != 0
            && unassigned_clients != 0 {
            ", "@
        } else if players == 0 && unassigned_clients == 0 {
            "empty"@
        } else {
            ""@
        }) + counted(unassigned_clients as nat, "1 unassigned client"@, " unassigned clients"@)
            + (if items == 0 {
            ""@
        } else if items == 1 {
            ", 1 item"@
        } else {
            ", "@ + decimal(items as nat) + " items"@
        }) + ")"@,
        SessionSummary::Closed => "closed"@,
    }
}

fn push_counted(s: &mut String, n: u64, one: &str, many: &str)
    ensures
        final(s)@ == old(s)@ + counted(n as nat, one@, many@),
{
    let ghost start = s@;
    if n == 1 {
        push_str(s, one);
    } else if n != 0 {
        push_decimal(s, n);
        push_str(s, many);
    }
    assert(s@ =~= start + counted(n as nat, one@, many@));
}

/// The admin console's prompt for the state of the connection.
pub fn prompt(state: &SessionSummary) -> (r: String)
    ensures
        r@ == prompt_text(*state),
{
    let mut s = String::new();
    match state {
        SessionSummary::Error => push_str(&mut s, "error"),
        SessionSummary::Init => push_str(&mut s, "connecting"),
        SessionSummary::InitAutoRejoin => push_str(&mut s, "connecting (will auto-rejoin)"),
        SessionSummary::Lobby { rooms, login, wrong_password } => {
            push_str(&mut s, "lobby (");
            push_decimal(&mut s, *rooms);
            push_str(&mut s, " room");
            if *rooms == 1 {
                push_str(&mut s, "");
            } else {
                push_str(&mut s, "s");
            }
            match login {
                Some(true) => push_str(&mut s, ", admin"),
                Some(false) => push_str(&mut s, ", signed in"),
                None => push_str(&mut s, ""),
            }
            if *wrong_password {
                push_str(&mut s, ", wrong room password");
            } else {
                push_str(&mut s, "");
            }
            push_str(&mut s, ")");
        },
        SessionSummary::Room { room_name, players, unassigned_clients, items } => {
            push_str(&mut s, "room ");
            let quoted = debug_string(room_name.as_str());
            push_str(&mut s, quoted.as_str());
            push_str(&mut s, " (");
            push_counted(&mut s, *players, "1 player", " players");
            if *players != 0 && *unassigned_clients != 0 {
                push_str(&mut s, ", ");
            } else if *players == 0 && *unassigned_clients == 0 {
                push_str(&mut s, "empty");
            } else {
                push_str(&mut s, "");
            }
            push_counted(&mut s, *unassigned_clients, "1 unassigned client", " unassigned clients");
            if *items == 0 {
                push_str(&mut s, "");
            } else if *items == 1 {
                push_str(&mut s, ", 1 item");
            } else {
                push_str(&mut s, ", ");
                push_decimal(&mut s, *items);
                push_str(&mut s, " items");
            }
            push_str(&mut s, ")");
        },
        SessionSummary::Closed => push_str(&mut s, "closed"),
    }
    assert(s@ =~= prompt_text(*state));
    s
}

/// `s` with the elements at `i` and `i + 1` swapped.
pub open spec fn swap_adjacent<A>(s: Seq<A>, i: int) -> Seq<A> {
    s.update(i, s[i + 1]).update(i + 1, s[i])
}

proof fn lemma_field_position_bounds(names: Seq<Seq<char>>, name: Seq<char>)
    ensures
        field_position(names, name) matches Some(k) ==> 0 <= k < names.len(),
{
}

proof fn lemma_collect_fields_swap(
    fields: Seq<(FieldMember, Expr)>,
    names: Seq<Seq<char>>,
    kinds: Seq<FieldKind>,
    acc: Seq<Option<FieldValue>>,
    i: int,
)
    requires
        0 <= i < fields.len() - 1,
        acc.len() == names.len(),
        kinds.len() == names.len(),
        collect_fields(fields, names, kinds, acc) is Ok,
    ensures
        collect_fields(swap_adjacent(fields, i), names, kinds, acc) == collect_fields(
            fields,
            names,
            kinds,
            acc,
        ),
    decreases i,
{
    let swapped = swap_adjacent(fields, i);
    if i > 0 {
        assert(swapped[0] == fields[0]);
        assert(swapped.drop_first() =~= swap_adjacent(fields.drop_first(), i - 1));
        match fields[0].0 {
            FieldMember::Named(n) => {
                lemma_field_position_bounds(names, n@);
                let k = field_position(names, n@)->Some_0;
                let v = field_from_expr(kinds[k], fields[0].1)->Ok_0;
                let next = acc.update(k, Some(v));
                assert(collect_fields(fields, names, kinds, acc) == collect_fields(
                    fields.drop_first(),
                    names,
                    kinds,
                    next,
                ));
                assert(collect_fields(swapped, names, kinds, acc) == collect_fields(
                    swapped.drop_first(),
                    names,
                    kinds,
                    next,
                ));
                lemma_collect_fields_swap(fields.drop_first(), names, kinds, next, i - 1);
            },
            FieldMember::Unnamed => {},
        }
    } else {
        let x = fields[0];
        let y = fields[1];
        let rest = fields.skip(2);
        assert(fields.drop_first()[0] == y);
        assert(fields.drop_first().drop_first() =~= rest);
        assert(swapped[0] == y);
        assert(swapped[1] == x);
        assert(swapped.drop_first()[0] == x);
        assert(swapped.drop_first().drop_first() =~= rest);
        let nx = x.0->Named_0;
        let ny = y.0->Named_0;
        lemma_field_position_bounds(names, nx@);
        lemma_field_position_bounds(names, ny@);
        let kx = field_position(names, nx@)->Some_0;
        let ky = field_position(names, ny@)->Some_0;
        let vx = field_from_expr(kinds[kx], x.1)->Ok_0;
        let vy = field_from_expr(kinds[ky], y.1)->Ok_0;
        let acc1 = acc.update(kx, Some(vx));
        assert(x.0 is Named && field_position(names, nx@) is Some);
        assert(field_from_expr(kinds[kx], x.1) is Ok && acc[kx] is None);
        assert(collect_fields(fields, names, kinds, acc) == collect_fields(
            fields.drop_first(),
            names,
            kinds,
            acc1,
        ));
        assert(collect_fields(fields.drop_first(), names, kinds, acc1) is Ok);
        assert(y.0 is Named && field_position(names, ny@) is Some);
        assert(field_from_expr(kinds[ky], y.1) is Ok && acc1[ky] is None);
        assert(kx != ky);
        let acc2 = acc1.update(ky, Some(vy));
        let acc1s = acc.update(ky, Some(vy));
        assert(acc1s[kx] == acc[kx]);
        assert(acc1s.update(kx, Some(vx)) =~= acc2);
        assert(collect_fields(fields.drop_first(), names, kinds, acc1) == collect_fields(
            rest,
            names,
            kinds,
            acc2,
        ));
        assert(collect_fields(swapped, names, kinds, acc) == collect_fields(
            swapped.drop_first(),
            names,
            kinds,
            acc1s,
        ));
        assert(collect_fields(swapped.drop_first(), names, kinds, acc1s) == collect_fields(
            rest,
            names,
            kinds,
            acc2,
        ));
    }
}

/// The fields of a command written as a struct expression may come in any
/// order: swapping two neighbouring fields of a command that reads gives the
/// same command.
pub proof fn lemma_struct_field_order_irrelevant(
    name: String,
    fields: Vec<(FieldMember, Expr)>,
    swapped: Vec<(FieldMember, Expr)>,
    i: int,
)
    requires
        0 <= i < fields@.len() - 1,
        swapped@ == swap_adjacent(fields@, i),
        command_from_expr(Expr::Struct(Some(name), fields)) is Ok,
    ensures
        command_from_expr(Expr::Struct(Some(name), swapped)) == command_from_expr(
            Expr::Struct(Some(name), fields),
        ),
{
    let (names, kinds) = struct_fields(name@)->Some_0;
    lemma_collect_fields_swap(fields@, names, kinds, empty_slots(names.len()), i);
}

/// The text of a field `key: "text"`, if `f` is one.
pub open spec fn named_text(f: (FieldMember, Expr), key: Seq<char>) -> Option<Seq<char>> {
    match f.0 {
        FieldMember::Named(m) => if m@ == key {
            match f.1 {
                Expr::StrLit(t) => Some(t@),
                _ => None,
            }
        } else {
            None
        },
        FieldMember::Unnamed => None,
    }
}

/// The name and password of a struct expression whose fields are exactly
/// `name` and `password`, once each, in either order, each a string literal.
pub open spec fn name_password_fields(fields: Seq<(FieldMember, Expr)>) -> Option<(Seq<char>, Seq<char>)> {
    if fields.len() != 2 {
        None
    } else if named_text(fields[0], "name"@) is Some && named_text(fields[1], "password"@) is Some {
        Some((named_text(fields[0], "name"@)->Some_0, named_text(fields[1], "password"@)->Some_0))
    } else if named_text(fields[0], "password"@) is Some && named_text(fields[1], "name"@) is Some {
        Some((named_text(fields[1], "name"@)->Some_0, named_text(fields[0], "password"@)->Some_0))
    } else {
        None
    }
}

proof fn lemma_name_password_position(x: Seq<char>)
    ensures
        field_position(seq!["name"@, "password"@], x) == if x == "name"@ {
            Some(0int)
        } else if x == "password"@ {
            Some(1int)
        } else {
            None::<int>
        },
{
    reveal_strlit("name");
    reveal_strlit("password");
    let names = seq!["name"@, "password"@];
    assert(names[0].len() == 4 && names[1].len() == 8);
    if x == "name"@ {
        assert(first_position(names, x, 0));
    } else if x == "password"@ {
        assert(first_position(names, x, 1));
    } else {
        assert(!exists|i: int| first_position(names, x, i));
    }
}

proof fn lemma_named_text_slot(f: (FieldMember, Expr))
    ensures
        match f.0 {
            FieldMember::Named(m) => {
                let k = field_position(seq!["name"@, "password"@], m@);
                &&& k == Some(0int) ==> (field_from_expr(FieldKind::Str, f.1) matches Ok(v) <==> named_text(f, "name"@) is Some)
                &&& k == Some(0int) && named_text(f, "name"@) is Some ==> field_from_expr(FieldKind::Str, f.1) == Ok::<FieldValue, AdminError>(FieldValue::Text(named_text(f, "name"@)->Some_0))
                &&& k == Some(1int) ==> (field_from_expr(FieldKind::Str, f.1) matches Ok(v) <==> named_text(f, "password"@) is Some)
                &&& k == Some(1int) && named_text(f, "password"@) is Some ==> field_from_expr(FieldKind::Str, f.1) == Ok::<FieldValue, AdminError>(FieldValue::Text(named_text(f, "password"@)->Some_0))
                &&& k is None ==> named_text(f, "name"@) is None && named_text(f, "password"@) is None
                &&& k == Some(0int) ==> named_text(f, "password"@) is None
                &&& k == Some(1int) ==> named_text(f, "name"@) is None
            },
            FieldMember::Unnamed => named_text(f, "name"@) is None && named_text(f, "password"@) is None,
        },
        field_from_expr(FieldKind::Str, f.1) is Err ==> field_from_expr(FieldKind::Str, f.1) == Err::<FieldValue, AdminError>(AdminError::FromExpr),
{
    reveal_strlit("name");
    reveal_strlit("password");
    assert("name"@.len() == 4 && "password"@.len() == 8);
    match f.0 {
        FieldMember::Named(m) => lemma_name_password_position(m@),
        FieldMember::Unnamed => {},
    }
}

/// A struct expression for `JoinRoom` or `CreateRoom` is that command exactly
/// when its fields are `name` and `password`, once each, in either order, each
/// a string literal; any other fields (one missing, repeated or unknown, an
/// unnamed one, a value that is not a string literal) make it no command.
pub proof fn lemma_room_command_fields(ident: String, fields: Vec<(FieldMember, Expr)>)
    requires
        ident@ == "JoinRoom"@ || ident@ == "CreateRoom"@,
    ensures
        command_from_expr(Expr::Struct(Some(ident), fields)) == match name_password_fields(fields@) {
            Some((n, p)) => Ok::<CommandModel, AdminError>(
                if ident@ == "JoinRoom"@ {
                    CommandModel::JoinRoom { name: n, password: p }
                } else {
                    CommandModel::CreateRoom { name: n, password: p }
                },
            ),
            None => Err(AdminError::FromExpr),
        },
{
    reveal_strlit("JoinRoom");
    reveal_strlit("CreateRoom");
    reveal_strlit("name");
    reveal_strlit("password");
    reveal_with_fuel(collect_fields, 4);
    let f = fields@;
    let names = seq!["name"@, "password"@];
    let kinds = seq![FieldKind::Str, FieldKind::Str];
    assert(struct_fields(ident@) == Some((names, kinds)));
    let acc0 = empty_slots(2);
    assert(acc0 =~= seq![None::<FieldValue>, None::<FieldValue>]);
    if f.len() > 0 {
        lemma_named_text_slot(f[0]);
    }
    if f.len() > 1 {
        lemma_named_text_slot(f[1]);
        assert(f.drop_first()[0] == f[1]);
    }
    if f.len() > 2 {
        lemma_named_text_slot(f[2]);
        assert(f.drop_first().drop_first()[0] == f[2]);
    }
    let r = collect_fields(f, names, kinds, acc0);
    if f.len() == 0 {
        assert(r == Ok::<Seq<Option<FieldValue>>, AdminError>(acc0));
        assert(acc0[0] is None);
    } else if f.len() == 1 {
        assert(f.drop_first().len() == 0);
        match r {
            Ok(vals) => {
                assert(vals[0] is None || vals[1] is None);
            },
            Err(_) => {},
        }
    } else if f.len() == 2 {
        assert(f.drop_first().drop_first().len() == 0);
    } else {
        match r {
            Ok(vals) => {
                assert(false);
            },
            Err(_) => {},
        }
    }
}

/// The value of the `k`-th field, if it fits the `k`-th kind.
spec fn field_value(kinds: Seq<FieldKind>, fields: Seq<(FieldMember, Expr)>, k: int) -> Option<FieldValue> {
    match field_from_expr(kinds[k], fields[k].1) {
        Ok(v) => Some(v),
        Err(_) => None,
    }
}

/// The slots after the first `j` fields are read.
spec fn filled(kinds: Seq<FieldKind>, fields: Seq<(FieldMember, Expr)>, j: int) -> Seq<Option<FieldValue>> {
    Seq::new(kinds.len(), |k: int| if k < j { field_value(kinds, fields, k) } else { None })
}

/// Fields given once each, in the order of `names`, all fitting.
spec fn fields_in_order(fields: Seq<(FieldMember, Expr)>, names: Seq<Seq<char>>, kinds: Seq<FieldKind>) -> bool {
    &&& fields.len() == names.len()
    &&& kinds.len() == names.len()
    &&& forall|a: int, b: int| 0 <= a < b < names.len() ==> names[a] != names[b]
    &&& forall|k: int|
        0 <= k < fields.len() ==> ((#[trigger] fields[k]).0 matches FieldMember::Named(m) && m@ == names[k])
    &&& forall|k: int| 0 <= k < fields.len() ==> #[trigger] field_value(kinds, fields, k) is Some
}

proof fn lemma_distinct_position(names: Seq<Seq<char>>, k: int)
    requires
        0 <= k < names.len(),
        forall|a: int, b: int| 0 <= a < b < names.len() ==> names[a] != names[b],
    ensures
        field_position(names, names[k]) == Some(k),
{
    assert(first_position(names, names[k], k));
    let c = choose|i: int| first_position(names, names[k], i);
    assert(first_position(names, names[k], c));
    if c < k {
        assert(names[c] != names[k]);
    } else if c > k {
        assert(names[k] != names[c]);
    }
}

proof fn lemma_collect_in_order(
    fields: Seq<(FieldMember, Expr)>,
    names: Seq<Seq<char>>,
    kinds: Seq<FieldKind>,
    j: int,
)
    requires
        fields_in_order(fields, names, kinds),
        0 <= j <= fields.len(),
    ensures
        collect_fields(fields.skip(j), names, kinds, filled(kinds, fields, j)) == Ok::<
            Seq<Option<FieldValue>>,
            AdminError,
        >(filled(kinds, fields, fields.len() as int)),
    decreases fields.len() - j,
{
    let n = fields.len() as int;
    if j == n {
        assert(fields.skip(j).len() == 0);
    } else {
        let rest = fields.skip(j);
        assert(rest[0] == fields[j]);
        assert(rest.drop_first() =~= fields.skip(j + 1));
        lemma_distinct_position(names, j);
        let m = fields[j].0->Named_0;
        assert(m@ == names[j]);
        assert(field_value(kinds, fields, j) is Some);
        let acc = filled(kinds, fields, j);
        assert(acc[j] is None);
        assert(acc.update(j, field_value(kinds, fields, j)) =~= filled(kinds, fields, j + 1));
        lemma_collect_in_order(fields, names, kinds, j + 1);
    }
}

/// A struct expression whose fields are given in order and all fit gives the
/// command built from their values, each in its own slot.
proof fn lemma_struct_in_order(ident: String, fields: Vec<(FieldMember, Expr)>)
    requires
        struct_fields(ident@) is Some,
        fields_in_order(fields@, struct_fields(ident@)->Some_0.0, struct_fields(ident@)->Some_0.1),
    ensures
        command_from_expr(Expr::Struct(Some(ident), fields)) == Ok::<CommandModel, AdminError>(
            struct_command(ident@, filled(struct_fields(ident@)->Some_0.1, fields@, fields@.len() as int)),
        ),
{
    let (names, kinds) = struct_fields(ident@)->Some_0;
    lemma_collect_in_order(fields@, names, kinds, 0);
    assert(fields@.skip(0) =~= fields@);
    assert(filled(kinds, fields@, 0) =~= empty_slots(names.len()));
    let vals = filled(kinds, fields@, fields@.len() as int);
    assert forall|k: int| 0 <= k < vals.len() implies vals[k] is Some by {
        assert(field_value(kinds, fields@, k) is Some);
    }
}

/// `Track { room_name: "…", world_count: n }` is the command to track the room
/// of that name with `n` worlds: each field's value lands in the command's
/// field of the same name.
pub proof fn lemma_track_fields(
    ident: String,
    fields: Vec<(FieldMember, Expr)>,
    room_field: String,
    count_field: String,
    room: String,
    count: String,
    worlds: nat,
)
    requires
        ident@ == "Track"@,
        room_field@ == "room_name"@,
        count_field@ == "world_count"@,
        fields@ == seq![
            (FieldMember::Named(room_field), Expr::StrLit(room)),
            (FieldMember::Named(count_field), Expr::IntLit(count)),
        ],
        parse_nonzero(count@, 255) == Ok::<nat, IntErrorKind>(worlds),
    ensures
        command_from_expr(Expr::Struct(Some(ident), fields)) == Ok::<CommandModel, AdminError>(
            CommandModel::Track { room_name: room@, world_count: worlds as u8 },
        ),
{
    reveal_strlit("Track");
    reveal_strlit("JoinRoom");
    reveal_strlit("CreateRoom");
    reveal_strlit("Login");
    reveal_strlit("SendItem");
    reveal_strlit("room_name");
    reveal_strlit("world_count");
    assert(ident@[0] == 'T');
    assert(ident@ != "JoinRoom"@ && ident@ != "CreateRoom"@ && ident@ != "SendItem"@);
    assert(ident@ != "Login"@) by {
        assert("Login"@[0] == 'L');
    }
    let names = seq!["room_name"@, "world_count"@];
    let kinds = seq![FieldKind::Str, FieldKind::World];
    assert(struct_fields(ident@) == Some((names, kinds)));
    assert(names[0].len() == 9 && names[1].len() == 11);
    assert(field_value(kinds, fields@, 0) is Some);
    assert(field_value(kinds, fields@, 1) is Some);
    lemma_struct_in_order(ident, fields);
}

/// `SendItem { key: k, kind: i, target_world: w }` is the command to send item
/// `i` with key `k` to world `w`: each value lands in the field of its name.
pub proof fn lemma_send_item_fields(
    ident: String,
    fields: Vec<(FieldMember, Expr)>,
    key_field: String,
    kind_field: String,
    world_field: String,
    key: String,
    kind: String,
    world: String,
    k: nat,
    i: nat,
    w: nat,
)
    requires
        ident@ == "SendItem"@,
        key_field@ == "key"@,
        kind_field@ == "kind"@,
        world_field@ == "target_world"@,
        fields@ == seq![
            (FieldMember::Named(key_field), Expr::IntLit(key)),
            (FieldMember::Named(kind_field), Expr::IntLit(kind)),
            (FieldMember::Named(world_field), Expr::IntLit(world)),
        ],
        parse_unsigned(key@, 0xffff_ffff) == Ok::<nat, IntErrorKind>(k),
        parse_unsigned(kind@, 0xffff) == Ok::<nat, IntErrorKind>(i),
        parse_nonzero(world@, 255) == Ok::<nat, IntErrorKind>(w),
    ensures
        command_from_expr(Expr::Struct(Some(ident), fields)) == Ok::<CommandModel, AdminError>(
            CommandModel::SendItem { key: k as u32, kind: i as u16, target_world: w as u8 },
        ),
{
    reveal_strlit("SendItem");
    reveal_strlit("JoinRoom");
    reveal_strlit("CreateRoom");
    reveal_strlit("Login");
    reveal_strlit("key");
    reveal_strlit("kind");
    reveal_strlit("target_world");
    assert(ident@.len() == 8 && ident@[0] == 'S');
    assert(ident@ != "JoinRoom"@) by {
        assert("JoinRoom"@[0] == 'J');
    }
    assert(ident@ != "CreateRoom"@ && ident@ != "Login"@);
    let names = seq!["key"@, "kind"@, "target_world"@];
    let kinds = seq![FieldKind::U32, FieldKind::U16, FieldKind::World];
    assert(struct_fields(ident@) == Some((names, kinds)));
    assert(names[0].len() == 3 && names[1].len() == 4 && names[2].len() == 12);
    assert(field_value(kinds, fields@, 0) is Some);
    assert(field_value(kinds, fields@, 1) is Some);
    assert(field_value(kinds, fields@, 2) is Some);
    lemma_struct_in_order(ident, fields);
}

/// `SendAll { room: "…", source_world: w, spoiler_log: "…" }` is the command to
/// send everything of world `w` in that room, read from that spoiler log: each
/// value lands in the field of its name.
pub proof fn lemma_send_all_fields(
    ident: String,
    fields: Vec<(FieldMember, Expr)>,
    room_field: String,
    world_field: String,
    log_field: String,
    room: String,
    world: String,
    log: String,
    w: nat,
)
    requires
        ident@ == "SendAll"@,
        room_field@ == "room"@,
        world_field@ == "source_world"@,
        log_field@ == "spoiler_log"@,
        fields@ == seq![
            (FieldMember::Named(room_field), Expr::StrLit(room)),
            (FieldMember::Named(world_field), Expr::IntLit(world)),
            (FieldMember::Named(log_field), Expr::StrLit(log)),
        ],
        parse_nonzero(world@, 255) == Ok::<nat, IntErrorKind>(w),
    ensures
        command_from_expr(Expr::Struct(Some(ident), fields)) == Ok::<CommandModel, AdminError>(
            CommandModel::SendAll { room: room@, source_world: w as u8, spoiler_log: log@ },
        ),
{
    reveal_strlit("SendAll");
    reveal_strlit("JoinRoom");
    reveal_strlit("CreateRoom");
    reveal_strlit("Login");
    reveal_strlit("SendItem");
    reveal_strlit("Track");
    reveal_strlit("room");
    reveal_strlit("source_world");
    reveal_strlit("spoiler_log");
    assert(ident@.len() == 7 && ident@[0] == 'S');
    assert(ident@ != "JoinRoom"@ && ident@ != "CreateRoom"@ && ident@ != "SendItem"@);
    assert(ident@ != "Login"@ && ident@ != "Track"@);
    let names = seq!["room"@, "source_world"@, "spoiler_log"@];
    let kinds = seq![FieldKind::Str, FieldKind::World, FieldKind::Str];
    assert(struct_fields(ident@) == Some((names, kinds)));
    assert(names[0].len() == 4 && names[1].len() == 12 && names[2].len() == 11);
    assert(field_value(kinds, fields@, 0) is Some);
    assert(field_value(kinds, fields@, 1) is Some);
    assert(field_value(kinds, fields@, 2) is Some);
    lemma_struct_in_order(ident, fields);
}

/// `Login { id: n, api_key: [...] }` is the login with that id and key: each
/// value lands in the field of its name.
pub proof fn lemma_login_fields(
    ident: String,
    fields: Vec<(FieldMember, Expr)>,
    id_field: String,
    key_field: String,
    id_digits: String,
    key: Expr,
    id: nat,
    key_bytes: Seq<u8>,
)
    requires
        ident@ == "Login"@,
        id_field@ == "id"@,
        key_field@ == "api_key"@,
        fields@ == seq![
            (FieldMember::Named(id_field), Expr::IntLit(id_digits)),
            (FieldMember::Named(key_field), key),
        ],
        parse_unsigned(id_digits@, 0xffff_ffff_ffff_ffff) == Ok::<nat, IntErrorKind>(id),
        byte_array_from_expr(key, 32) == Ok::<Seq<u8>, AdminError>(key_bytes),
    ensures
        command_from_expr(Expr::Struct(Some(ident), fields)) == Ok::<CommandModel, AdminError>(
            CommandModel::Login { id: id as u64, api_key: key_bytes },
        ),
{
    reveal_strlit("Login");
    reveal_strlit("JoinRoom");
    reveal_strlit("CreateRoom");
    reveal_strlit("id");
    reveal_strlit("api_key");
    assert(ident@.len() == 5);
    assert(ident@ != "JoinRoom"@ && ident@ != "CreateRoom"@);
    let names = seq!["id"@, "api_key"@];
    let kinds = seq![FieldKind::U64, FieldKind::Bytes32];
    assert(struct_fields(ident@) == Some((names, kinds)));
    assert(names[0].len() == 2 && names[1].len() == 7);
    assert(field_value(kinds, fields@, 0) is Some);
    assert(field_value(kinds, fields@, 1) is Some);
    lemma_struct_in_order(ident, fields);
}

/// `PlayerId(n)` and `KickPlayer(n)` with a world number `n` from 1 to 255 are
/// the commands to claim and to kick world `n`; `Ping`, `Stop`,
/// `ResetPlayerId` and `DeleteRoom` are the commands of those names.
pub proof fn lemma_world_and_unit_commands(ident: String, func: String, args: Vec<Expr>, digits: String, w: nat)
    requires
        args@ == seq![Expr::IntLit(digits)],
        parse_nonzero(digits@, 255) == Ok::<nat, IntErrorKind>(w),
    ensures
        func@ == "PlayerId"@ ==> command_from_expr(Expr::Call(Box::new(Expr::Path(Some(func))), args))
            == Ok::<CommandModel, AdminError>(CommandModel::PlayerId(w as u8)),
        func@ == "KickPlayer"@ ==> command_from_expr(Expr::Call(Box::new(Expr::Path(Some(func))), args))
            == Ok::<CommandModel, AdminError>(CommandModel::KickPlayer(w as u8)),
        ident@ == "Ping"@ ==> command_from_expr(Expr::Path(Some(ident))) == Ok::<CommandModel, AdminError>(
            CommandModel::Ping,
        ),
        ident@ == "Stop"@ ==> command_from_expr(Expr::Path(Some(ident))) == Ok::<CommandModel, AdminError>(
            CommandModel::Stop,
        ),
        ident@ == "ResetPlayerId"@ ==> command_from_expr(Expr::Path(Some(ident))) == Ok::<
            CommandModel,
            AdminError,
        >(CommandModel::ResetPlayerId),
        ident@ == "DeleteRoom"@ ==> command_from_expr(Expr::Path(Some(ident))) == Ok::<CommandModel, AdminError>(
            CommandModel::DeleteRoom,
        ),
{
    reveal_strlit("PlayerId");
    reveal_strlit("KickPlayer");
    reveal_strlit("PlayerName");
    reveal_strlit("Ping");
    reveal_strlit("Stop");
    reveal_strlit("ResetPlayerId");
    reveal_strlit("DeleteRoom");
    assert("PlayerId"@.len() == 8 && "KickPlayer"@.len() == 10 && "PlayerName"@.len() == 10);
    assert("KickPlayer"@[0] != "PlayerName"@[0]);
    assert("Ping"@.len() == 4 && "Stop"@.len() == 4 && "ResetPlayerId"@.len() == 13 && "DeleteRoom"@.len() == 10);
    assert("Ping"@[0] != "Stop"@[0]);
}

} // verus!
