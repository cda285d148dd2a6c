use vstd::prelude::*;

use crate::devices::{DeviceStats, RawDevice};
use crate::encoding::{hex, hex_of_bytes, sanitize, utf16le, utf16le_auth_input};
use crate::encoding::{is_hex_digit_char, lemma_hex_shape};
use crate::error::FritzError;

verus! {

// ---------------------------------------------------------------------------
// Challenge/response solver.
// ---------------------------------------------------------------------------

/// What `md5::compute` returns for a byte sequence: a function of those
/// bytes alone.
pub uninterp spec fn md5_of(bytes: Seq<u8>) -> Seq<u8>;

/// Relies on `md5::compute` of the md5 crate: the 16-byte MD5 digest of the
/// input bytes, depending on them alone.
#[verifier::external_body]
fn md5_digest(bytes: &Vec<u8>) -> (r: Vec<u8>)
    ensures
        r@ == md5_of(bytes@),
        r@.len() == 16,
{
    md5::compute(bytes.as_slice()).0.to_vec()
}

/// The text whose UTF-16LE encoding is hashed: the challenge, a '-', and
/// the sanitized password.
pub open spec fn hash_input(password: Seq<char>, challenge: Seq<char>) -> Seq<char> {
    challenge + seq!['-'] + sanitize(password)
}

/// The authentication response: the challenge, a '-', and the MD5 digest of
/// the UTF-16LE-encoded hash input as 32 lowercase hexadecimal digits.
pub open spec fn response_token(password: Seq<char>, challenge: Seq<char>) -> Seq<char> {
    challenge + seq!['-'] + hex(md5_of(utf16le(hash_input(password, challenge))))
}

/// Computes the string that authenticates against the gateway:
/// 1. every password character outside 0x00..=0x7F becomes a literal '.';
/// 2. the challenge, a '-', and the sanitized password are concatenated;
/// 3. that text is encoded as UTF-16 little-endian, no byte-order mark;
/// 4. the MD5 digest of those bytes is rendered as 32 lowercase hex digits;
/// 5. the result is the challenge, a '-', and the digest.
///
/// The shape is part of the contract: the challenge, then a '-', then
/// exactly 32 characters of the lowercase hexadecimal alphabet.
pub fn request_response(password: &str, challenge: &str) -> (r: String)
    ensures
        r@ == response_token(password@, challenge@),
        r@.len() == challenge@.len() + 33,
        r@[challenge@.len() as int] == '-',
        forall|i: int|
            challenge@.len() + 1 <= i < r@.len() ==> is_hex_digit_char(#[trigger] r@[i]),
{
    let bytes = utf16le_auth_input(challenge, password);
    let digest = md5_digest(&bytes);
    let digits = hex_of_bytes(&digest);
    let mut out = String::from_str(challenge);
    out.append("-");
    out.append(digits.as_str());
    proof {
        reveal_strlit("-");
        assert("-"@ =~= seq!['-']);
        assert(out@ =~= response_token(password@, challenge@));
        lemma_hex_shape(digest@);
        assert(out@.len() == challenge@.len() + 33);
        assert forall|i: int|
            challenge@.len() + 1 <= i < out@.len() implies is_hex_digit_char(out@[i]) by {
            assert(out@[i] == hex(digest@)[i - challenge@.len() - 1]);
        }
    }
    out
}

/// The response is a function of password and challenge alone: two calls on
/// identical inputs agree.
pub proof fn lemma_response_deterministic(
    password: Seq<char>,
    challenge: Seq<char>,
    r1: Seq<char>,
    r2: Seq<char>,
)
    requires
        r1 == response_token(password, challenge),
        r2 == response_token(password, challenge),
    ensures
        r1 == r2,
{
}

/// Two passwords that sanitize alike produce the same response for every
/// challenge: a character outside 0x00..=0x7F never influences the digest
/// differently from the literal '.'.
pub proof fn lemma_sanitized_alike_same_response(
    p1: Seq<char>,
    p2: Seq<char>,
    challenge: Seq<char>,
)
    requires
        sanitize(p1) == sanitize(p2),
    ensures
        response_token(p1, challenge) == response_token(p2, challenge),
{
}

/// Any single character outside 0x00..=0x7F sanitizes exactly like the
/// one-character password ".".
pub proof fn lemma_non_seven_bit_sanitizes_like_dot(c: char)
    requires
        c as u32 > 0x7F,
    ensures
        sanitize(seq![c]) == sanitize(seq!['.']),
{
    assert(sanitize(seq![c]) =~= sanitize(seq!['.']));
}

// ---------------------------------------------------------------------------
// Sessions.
// ---------------------------------------------------------------------------

/// The reserved sixteen-zero session identifier meaning "unauthenticated".
pub open spec fn sentinel_sid() -> Seq<char> {
    Seq::new(16, |i: int| '0')
}

/// True iff `sid` is the reserved all-zero session identifier.
pub fn is_sentinel_sid(sid: &str) -> (r: bool)
    ensures
        r == (sid@ == sentinel_sid()),
{
    let len: usize = sid.unicode_len();
    if len != 16 {
        assert(sid@ != sentinel_sid());
        return false;
    }
    let mut i: usize = 0;
    while i < 16
        invariant
            sid@.len() == 16,
            i <= 16,
            forall|j: int| 0 <= j < i ==> sid@[j] == '0',
        decreases 16 - i,
    {
        if sid.get_char(i) != '0' {
            assert(sid@ != sentinel_sid());
            return false;
        }
        i += 1;
    }
    assert(sid@ =~= sentinel_sid());
    true
}

/// The two fields of a session-info response that this crate inspects; the
/// XML collaborator produces it.
pub struct SessionInfo {
    pub challenge: String,
    pub sid: String,
}

/// An authenticated context: the gateway's host and the session identifier
/// it confirmed. Immutable once created; re-authentication on expiry is the
/// caller's business.
#[derive(Debug)]
pub struct Token {
    sid: String,
    host: String,
}

impl Token {
    pub closed spec fn sid_spec(&self) -> Seq<char> {
        self.sid@
    }

    pub closed spec fn host_spec(&self) -> Seq<char> {
        self.host@
    }

    pub fn sid(&self) -> (r: &str)
        ensures
            r@ == self.sid_spec(),
    {
        self.sid.as_str()
    }

    pub fn host(&self) -> (r: &str)
        ensures
            r@ == self.host_spec(),
    {
        self.host.as_str()
    }
}

/// The gateway as this crate reaches it: one parameterized HTTP GET
/// returning the body text, and the XML collaborator that parses the two
/// response shapes into records. Implementations live outside the verified
/// core; tests substitute fakes.
pub trait Gateway {
    /// Performs a blocking GET of `url` with `query` appended as
    /// URL-encoded parameters and returns the response body, or a
    /// `TransportError` for any failure or non-success status.
    fn get(&mut self, url: &str, query: &Vec<(String, String)>) -> Result<String, FritzError>;

    /// Parses a session-info response body.
    fn parse_session_info(&mut self, xml: &str) -> Result<SessionInfo, FritzError>;

    /// Parses a device-list response body.
    fn parse_device_list(&mut self, xml: &str) -> Result<Vec<RawDevice>, FritzError>;

    /// Parses a basic-stats response body.
    fn parse_device_stats(&mut self, xml: &str) -> Result<Vec<DeviceStats>, FritzError>;
}

/// The unauthenticated session-info endpoint.
pub open spec fn session_info_url_spec(host: Seq<char>) -> Seq<char> {
    "http://"@ + host + "/login_sid.lua"@
}

pub fn session_info_url(host: &str) -> (r: String)
    ensures
        r@ == session_info_url_spec(host@),
{
    let mut out = String::from_str("http://");
    out.append(host);
    out.append("/login_sid.lua");
    proof {
        assert(out@ =~= session_info_url_spec(host@));
    }
    out
}

/// The login endpoint carrying user name and computed response.
pub open spec fn login_url_spec(host: Seq<char>, user: Seq<char>, response: Seq<char>) -> Seq<
    char,
> {
    "http://"@ + host + "/login_sid.lua?username="@ + user + "&response="@ + response
}

pub fn login_url(host: &str, user: &str, response: &str) -> (r: String)
    ensures
        r@ == login_url_spec(host@, user@, response@),
{
    let mut out = String::from_str("http://");
    out.append(host);
    out.append("/login_sid.lua?username=");
    out.append(user);
    out.append("&response=");
    out.append(response);
    proof {
        assert(out@ =~= login_url_spec(host@, user@, response@));
    }
    out
}

/// The session an already-confirmed identifier yields: a token exactly when
/// the identifier is not the sentinel.
pub fn token_from_info(host: &str, info: &SessionInfo) -> (r: Option<Token>)
    ensures
        r is Some <==> info.sid@ != sentinel_sid(),
        r matches Some(t) ==> t.sid_spec() == info.sid@ && t.host_spec() == host@,
{
    if is_sentinel_sid(info.sid.as_str()) {
        None
    } else {
        Some(Token { sid: info.sid.clone(), host: String::from_str(host) })
    }
}

/// The outcome of the second handshake step: the confirmed session, or a
/// `LoginError` exactly when the identifier is still the sentinel.
pub fn finish_login(host: &str, info: &SessionInfo) -> (r: Result<Token, FritzError>)
    ensures
        r is Ok <==> info.sid@ != sentinel_sid(),
        r matches Ok(t) ==> t.sid_spec() == info.sid@ && t.host_spec() == host@,
        r matches Err(e) ==> e is LoginError,
{
    match token_from_info(host, info) {
        Some(t) => Ok(t),
        None => Err(
            FritzError::LoginError(
                String::from_str("login error - sid is still the default after login attempt"),
            ),
        ),
    }
}

/// Performs the two-step login handshake. The first session-info response
/// decides: a non-sentinel identifier is an existing session and is
/// returned at once, no credentials sent; otherwise the response to the
/// returned challenge is computed and submitted, and the re-read session
/// info either confirms a fresh identifier or the attempt failed with
/// `LoginError`. Whatever the gateway answered, a returned token carries
/// this host and a non-sentinel identifier.
pub fn get_token<G: Gateway>(gw: &mut G, host: &str, user: &str, password: &str) -> (r: Result<
    Token,
    FritzError,
>)
    ensures
        r matches Ok(t) ==> t.host_spec() == host@ && t.sid_spec() != sentinel_sid(),
{
    let url = session_info_url(host);
    let empty: Vec<(String, String)> = Vec::new();
    let body = match gw.get(url.as_str(), &empty) {
        Ok(b) => b,
        Err(e) => {
            return Err(e);
        },
    };
    let info = match gw.parse_session_info(body.as_str()) {
        Ok(i) => i,
        Err(e) => {
            return Err(e);
        },
    };
    if let Some(t) = token_from_info(host, &info) {
        return Ok(t);
    }
    let response = request_response(password, info.challenge.as_str());
    let url2 = login_url(host, user, response.as_str());
    let body2 = match gw.get(url2.as_str(), &empty) {
        Ok(b) => b,
        Err(e) => {
            return Err(e);
        },
    };
    let info2 = match gw.parse_session_info(body2.as_str()) {
        Ok(i) => i,
        Err(e) => {
            return Err(e);
        },
    };
    finish_login(host, &info2)
}

// ---------------------------------------------------------------------------
// Command dispatch.
// ---------------------------------------------------------------------------

/// The fixed set of logical commands; each maps to exactly one protocol
/// keyword, and no command is constructed at runtime.
#[derive(Debug, Clone, Copy, PartialEq, Eq, Structural)]
pub enum Commands {
    GetDeviceListInfos,
    GetBasicDeviceStats,
    SetSwitchOff,
    SetSwitchOn,
    SetSwitchToggle,
}

/// The protocol keyword of each command, fixed and case-sensitive.
pub open spec fn switchcmd_spec(cmd: Commands) -> Seq<char> {
    match cmd {
        Commands::GetDeviceListInfos => "getdevicelistinfos"@,
        Commands::GetBasicDeviceStats => "getbasicdevicestats"@,
        Commands::SetSwitchOff => "setswitchoff"@,
        Commands::SetSwitchOn => "setswitchon"@,
        Commands::SetSwitchToggle => "setswitchtoggle"@,
    }
}

pub fn switchcmd(cmd: Commands) -> (r: &'static str)
    ensures
        r@ == switchcmd_spec(cmd),
{
    match cmd {
        Commands::GetDeviceListInfos => "getdevicelistinfos",
        Commands::GetBasicDeviceStats => "getbasicdevicestats",
        Commands::SetSwitchOff => "setswitchoff",
        Commands::SetSwitchOn => "setswitchon",
        Commands::SetSwitchToggle => "setswitchtoggle",
    }
}

/// The control endpoint every command goes to.
pub open spec fn control_url_spec(host: Seq<char>) -> Seq<char> {
    "http://"@ + host + "/webservices/homeautoswitch.lua"@
}

pub fn control_url(host: &str) -> (r: String)
    ensures
        r@ == control_url_spec(host@),
{
    let mut out = String::from_str("http://");
    out.append(host);
    out.append("/webservices/homeautoswitch.lua");
    proof {
        assert(out@ =~= control_url_spec(host@));
    }
    out
}

/// The query parameters of one command: the command keyword, the session
/// identifier, and the device identifier exactly when one is supplied.
pub fn command_query(cmd: Commands, token: &Token, ain: Option<&str>) -> (r: Vec<
    (String, String),
>)
    ensures
        ain is None ==> r@.len() == 2,
        ain matches Some(a) ==> r@.len() == 3 && r@[2].0@ == "ain"@ && r@[2].1@ == a@,
        r@[0].0@ == "switchcmd"@,
        r@[0].1@ == switchcmd_spec(cmd),
        r@[1].0@ == "sid"@,
        r@[1].1@ == token.sid_spec(),
{
    let mut q: Vec<(String, String)> = Vec::new();
    q.push((String::from_str("switchcmd"), String::from_str(switchcmd(cmd))));
    q.push((String::from_str("sid"), String::from_str(token.sid())));
    if let Some(a) = ain {
        q.push((String::from_str("ain"), String::from_str(a)));
    }
    q
}

/// Issues one authenticated command against the control endpoint and
/// returns the response body as text, whatever the command; parsing is the
/// caller's business, and any failure is surfaced unmodified, never
/// retried.
pub fn request<G: Gateway>(gw: &mut G, cmd: Commands, token: &Token, ain: Option<&str>) -> (r:
    Result<String, FritzError>) {
    let url = control_url(token.host());
    let query = command_query(cmd, token, ain);
    gw.get(url.as_str(), &query)
}

/// Requests and parses the raw device list.
pub fn device_infos<G: Gateway>(gw: &mut G, token: &Token) -> (r: Result<
    Vec<RawDevice>,
    FritzError,
>) {
    let body = match request(gw, Commands::GetDeviceListInfos, token, None) {
        Ok(b) => b,
        Err(e) => {
            return Err(e);
        },
    };
    gw.parse_device_list(body.as_str())
}

/// Requests and parses the basic statistics series of one device.
pub fn fetch_device_stats<G: Gateway>(gw: &mut G, ain: &str, token: &Token) -> (r: Result<
    Vec<DeviceStats>,
    FritzError,
>) {
    let body = match request(gw, Commands::GetBasicDeviceStats, token, Some(ain)) {
        Ok(b) => b,
        Err(e) => {
            return Err(e);
        },
    };
    gw.parse_device_stats(body.as_str())
}

} // verus!
