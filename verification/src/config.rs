//! The app's configuration, and the address of the multiworld server it names.
use vstd::prelude::*;
use std::collections::BTreeMap;
use crate::frontend::Kind;
use crate::localization::Locale;
use crate::text::{decimal, push_decimal, push_str};

verus! {

#[verifier::external_type_specification]
#[verifier::external_body]
pub struct ExUrl(url::Url);

#[verifier::external_type_specification]
#[verifier::external_body]
pub struct ExUrlParseError(url::ParseError);

/// What `url::Url::parse` gives for an input.
pub uninterp spec fn url_parse(input: Seq<char>) -> Result<url::Url, url::ParseError>;

/// `url::Url::parse`: parses an absolute URL. Its result is taken to depend on
/// the input alone; nothing more is said of it.
#[verifier::external_body]
pub(crate) fn parse_url(input: &str) -> (r: Result<url::Url, url::ParseError>)
    ensures
        r == url_parse(input@),
{
    url::Url::parse(input)
}

/// A service that users sign in to the multiworld server with.
#[derive(Clone, Copy, Debug, PartialEq, Eq, PartialOrd, Ord, Hash, Structural)]
pub enum IdentityProvider {
    RaceTime,
    Discord,
}

/// The app's configuration.
#[derive(Clone, Debug)]
pub struct Config {
    /// The frontend to use when none is given on the command line.
    pub default_frontend: Option<Kind>,
    /// Whether to write a log of the messages exchanged.
    pub log: bool,
    pub login_tokens: BTreeMap<IdentityProvider, String>,
    pub refresh_tokens: BTreeMap<IdentityProvider, String>,
    /// Where the Project64 script was installed.
    pub pj64_script_path: Option<String>,
    pub locale: Option<Locale>,
    /// The host name of the multiworld server.
    pub websocket_hostname: String,
}

pub open spec fn default_hostname() -> Seq<char> {
    "mw.midos.house"@
}

/// The host name of the official multiworld server, used where the
/// configuration names none.
pub fn default_websocket_hostname() -> (r: String)
    ensures
        r@ == default_hostname(),
{
    let mut s = String::new();
    push_str(&mut s, "mw.midos.house");
    assert(s@ =~= default_hostname());
    s
}

impl Default for Config {
    /// No default frontend, no logging, no sign-in, the official server.
    fn default() -> (c: Config)
        ensures
            c.default_frontend is None,
            !c.log,
            c.login_tokens@ == Map::<IdentityProvider, String>::empty(),
            c.refresh_tokens@ == Map::<IdentityProvider, String>::empty(),
            c.pj64_script_path is None,
            c.locale is None,
            c.websocket_hostname@ == default_hostname(),
    {
        Config {
            default_frontend: None,
            log: false,
            login_tokens: BTreeMap::new(),
            refresh_tokens: BTreeMap::new(),
            pj64_script_path: None,
            locale: None,
            websocket_hostname: default_websocket_hostname(),
        }
    }
}

/// The WebSocket address of version `major` of the protocol on `host`:
/// `wss://{host}/v{major}`.
pub open spec fn websocket_url_text(host: Seq<char>, major: u64) -> Seq<char> {
    "wss://"@ + host + "/v"@ + decimal(major as nat)
}

impl Config {
    /// The address of the configured server for version `major` of the
    /// protocol (the app's own major version).
    pub fn websocket_url(&self, major: u64) -> (r: Result<url::Url, url::ParseError>)
        ensures
            r == url_parse(websocket_url_text(self.websocket_hostname@, major)),
    {
        let mut s = String::new();
        push_str(&mut s, "wss://");
        push_str(&mut s, self.websocket_hostname.as_str());
        push_str(&mut s, "/v");
        push_decimal(&mut s, major);
        assert(s@ =~= websocket_url_text(self.websocket_hostname@, major));
        parse_url(s.as_str())
    }
}

} // verus!
