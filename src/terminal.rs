//! The per-user terminal subprocess as seen from the gateway: how it is
//! launched under each session policy, how requests reach it, and how frames
//! are relayed between the browser and it.

use vstd::prelude::*;

use crate::text::{has_prefix, starts_with};

verus! {

/// One decimal digit.
pub open spec fn digit_char(d: int) -> char {
    ((48 + d) as u8) as char
}

/// Decimal text of a number, without leading zeros.
pub open spec fn decimal_of(n: nat) -> Seq<char>
    decreases n,
{
    if n < 10 {
        seq![digit_char(n as int)]
    } else {
        decimal_of(n / 10).push(digit_char((n % 10) as int))
    }
}

fn digit_text(d: u16) -> (r: String)
    requires
        d < 10,
    ensures
        r@ == seq![digit_char(d as int)],
{
    let digits = "0123456789";
    proof {
        reveal_strlit("0123456789");
    }
    let r = String::from_str(digits.substring_char(d as usize, d as usize + 1));
    assert(r@ =~= seq![digit_char(d as int)]);
    r
}

/// Decimal text of a port number.
pub fn port_text(port: u16) -> (r: String)
    ensures
        r@ == decimal_of(port as nat),
    decreases port,
{
    if port < 10 {
        digit_text(port)
    } else {
        let mut r = port_text(port / 10);
        let d = digit_text(port % 10);
        r.append(d.as_str());
        r
    }
}

/// How a session's terminal state lives.
#[derive(Debug, Clone, Copy, PartialEq, Eq, Structural)]
pub enum SessionPolicy {
    /// The terminal state dies with the subprocess.
    Ephemeral,
    /// The terminal state lives on in a per-user socket that a new
    /// subprocess reattaches to.
    Detached,
}

pub open spec fn detach_socket_text(username: Seq<char>) -> Seq<char> {
    "/tmp/irc-"@ + username + ".sock"@
}

/// The per-user socket of the detached policy.
pub fn detach_socket_path(username: &str) -> (r: String)
    ensures
        r@ == detach_socket_text(username@),
{
    let mut r = String::from_str("/tmp/irc-");
    r.append(username);
    r.append(".sock");
    r
}

/// The socket to delete when a session is killed, so that the next one
/// starts afresh: the detached policy's socket, and none otherwise.
pub fn socket_to_remove(policy: SessionPolicy, username: &str) -> (r: Option<String>)
    ensures
        match policy {
            SessionPolicy::Detached => r matches Some(p) && p@ == detach_socket_text(username@),
            SessionPolicy::Ephemeral => r is None,
        },
{
    match policy {
        SessionPolicy::Detached => Some(detach_socket_path(username)),
        SessionPolicy::Ephemeral => None,
    }
}

pub open spec fn config_path_text(user_dir: Seq<char>) -> Seq<char> {
    user_dir + "/irssi.conf"@
}

/// The user's terminal client configuration file inside its directory.
pub fn config_path(user_dir: &str) -> (r: String)
    ensures
        r@ == config_path_text(user_dir@),
{
    let mut r = String::from_str(user_dir);
    r.append("/irssi.conf");
    r
}

/// The arguments of the terminal server for a session on `port`, listening
/// on loopback only and writable, running the IRC client on the user's
/// configuration; under the detached policy the client runs inside the
/// user's reattachable socket.
pub open spec fn spawn_args_spec(policy: SessionPolicy, port: u16, username: Seq<char>, user_dir: Seq<char>) -> Seq<Seq<char>> {
    let head = seq![
        "--port"@,
        decimal_of(port as nat),
        "--interface"@,
        "127.0.0.1"@,
        "--writable"@,
    ];
    let client = seq!["irssi"@, "--config"@, config_path_text(user_dir)];
    match policy {
        SessionPolicy::Ephemeral => head + client,
        SessionPolicy::Detached => head + seq!["dtach"@, "-A"@, detach_socket_text(username)]
            + client,
    }
}

/// The terminal server's arguments; `user_dir` is the user's directory as an
/// absolute path.
pub fn spawn_args(policy: SessionPolicy, port: u16, username: &str, user_dir: &str) -> (r: Vec<String>)
    ensures
        r@.map_values(|s: String| s@) == spawn_args_spec(policy, port, username@, user_dir@),
{
    let mut r: Vec<String> = Vec::new();
    r.push(String::from_str("--port"));
    r.push(port_text(port));
    r.push(String::from_str("--interface"));
    r.push(String::from_str("127.0.0.1"));
    r.push(String::from_str("--writable"));
    match policy {
        SessionPolicy::Detached => {
            r.push(String::from_str("dtach"));
            r.push(String::from_str("-A"));
            r.push(detach_socket_path(username));
        },
        SessionPolicy::Ephemeral => {},
    }
    r.push(String::from_str("irssi"));
    r.push(String::from_str("--config"));
    r.push(config_path(user_dir));
    assert(r@.map_values(|s: String| s@) =~= spawn_args_spec(policy, port, username@, user_dir@));
    r
}

pub open spec fn loopback_base(scheme: Seq<char>, port: u16) -> Seq<char> {
    scheme + "127.0.0.1:"@ + decimal_of(port as nat)
}

fn loopback(scheme: &str, port: u16) -> (r: String)
    ensures
        r@ == loopback_base(scheme@, port),
{
    let mut r = String::from_str(scheme);
    r.append("127.0.0.1:");
    let p = port_text(port);
    r.append(p.as_str());
    r
}

/// The session's WebSocket endpoint.
pub fn upstream_ws_url(port: u16) -> (r: String)
    ensures
        r@ == loopback_base("ws://"@, port) + "/ws"@,
{
    let mut r = loopback("ws://", port);
    r.append("/ws");
    r
}

/// The origin presented to the session: its own loopback address.
pub fn upstream_origin(port: u16) -> (r: String)
    ensures
        r@ == loopback_base("http://"@, port),
{
    loopback("http://", port)
}

/// The application sub-protocol spoken with the terminal server.
pub fn terminal_subprotocol() -> (r: &'static str)
    ensures
        r@ == "tty"@,
{
    "tty"
}

/// The path under the gateway's terminal prefix; `/` for the prefix itself.
pub open spec fn terminal_subpath(path: Seq<char>) -> Seq<char> {
    let rest = if has_prefix(path, "/terminal"@) {
        path.subrange(9, path.len() as int)
    } else {
        path
    };
    if rest.len() == 0 {
        "/"@
    } else {
        rest
    }
}

/// Where an HTTP request under the terminal prefix goes.
pub enum TerminalRoute {
    /// The client's token handshake: answer with an empty success.
    Handshake,
    /// Forward the request to this URI on the session's loopback port.
    Forward(String),
}

/// `/token` is answered locally; any other path is re-targeted to the
/// session's port, keeping the rest of the path and the query.
pub open spec fn route_spec(path: Seq<char>, query: Option<Seq<char>>, port: u16) -> Option<Seq<char>> {
    let sub = terminal_subpath(path);
    if sub == "/token"@ {
        None
    } else {
        Some(
            loopback_base("http://"@, port) + sub + match query {
                Some(q) => "?"@ + q,
                None => Seq::empty(),
            },
        )
    }
}

pub open spec fn query_view(q: Option<&str>) -> Option<Seq<char>> {
    match q {
        Some(t) => Some(t@),
        None => None,
    }
}

/// Routes a request for `path` (with `query`, if any) to the session on
/// `port`.
pub fn terminal_route(path: &str, query: Option<&str>, port: u16) -> (r: TerminalRoute)
    ensures
        match r {
            TerminalRoute::Handshake => route_spec(path@, query_view(query), port) is None,
            TerminalRoute::Forward(u) => route_spec(path@, query_view(query), port) == Some(u@),
        },
{
    proof {
        reveal_strlit("/terminal");
    }
    let n = path.unicode_len();
    let rest = if starts_with(path, "/terminal") {
        path.substring_char(9, n)
    } else {
        path
    };
    let sub = if rest.unicode_len() == 0 {
        String::from_str("/")
    } else {
        String::from_str(rest)
    };
    if sub == String::from_str("/token") {
        return TerminalRoute::Handshake;
    }
    let mut u = loopback("http://", port);
    u.append(sub.as_str());
    match query {
        Some(q) => {
            u.append("?");
            u.append(q);
            assert(u@ =~= loopback_base("http://"@, port) + sub@ + ("?"@ + q@));
        },
        None => {
            assert(u@ =~= loopback_base("http://"@, port) + sub@ + Seq::<char>::empty());
        },
    }
    TerminalRoute::Forward(u)
}

/// The kind of a WebSocket frame on either side of the splice.
#[derive(Debug, Clone, Copy, PartialEq, Eq, Structural)]
pub enum FrameKind {
    Text,
    Binary,
    Ping,
    Pong,
    Close,
    /// A raw frame of the transport, below the message level.
    Raw,
}

/// What a relay direction does with a frame: forward data and control
/// frames as the same kind; a close (or a raw frame) ends that direction.
pub fn relay_frame(kind: FrameKind) -> (r: Option<FrameKind>)
    ensures
        kind == FrameKind::Close || kind == FrameKind::Raw ==> r is None,
        !(kind == FrameKind::Close || kind == FrameKind::Raw) ==> r == Some(kind),
{
    match kind {
        FrameKind::Close | FrameKind::Raw => None,
        k => Some(k),
    }
}

} // verus!
