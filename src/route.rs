//! Destination resolution: from a routing token and the configuration to
//! the upstream target of one connection.
use vstd::prelude::*;
use vstd::string::*;
use crate::config::{Opt, PortMapType};
use crate::text::{
    after_last, before_first, chars_of, decimal, decimal_text, strip_leading, strip_trailing, strip_both,
    take_after_last, take_before_first, text_of, trim_of, trim_text,
};

verus! {

/// The port of `s` read as a socket address `host:port`, if it is one.
pub uninterp spec fn socket_port_of(s: Seq<char>) -> Option<u16>;

/// Relies on `SocketAddr::from_str` and `SocketAddr::port`: whether the text
/// is a socket address, and its port.
#[verifier::external_body]
fn parse_socket_port(s: &str) -> (r: Option<u16>)
    ensures
        r == socket_port_of(s@),
{
    match <core::net::SocketAddr as core::str::FromStr>::from_str(s) {
        Ok(address) => Some(address.port()),
        Err(_) => None,
    }
}

/// Where one connection is forwarded to.
#[derive(Clone, Debug)]
pub enum StreamType {
    /// A Unix domain socket, by path.
    UnixDomainSocket(String),
    /// A TCP socket, by `host:port`.
    TcpSocket(String),
}

/// Why a handshake request could not be routed.
#[derive(Clone, Debug)]
pub enum RouteError {
    /// The request has no readable `Host` header.
    MissingHost,
    /// The token names no socket path or network address.
    InvalidDestination(String),
    /// The port lies outside the configured window.
    PortRestricted { port: u16, min: u16, max: u16 },
}

/// The text of a routing failure, sent back as the body of the rejection.
pub open spec fn error_text(e: RouteError) -> Seq<char> {
    match e {
        RouteError::MissingHost => "Could not find a Host header"@,
        RouteError::InvalidDestination(t) => "Invalid Unix Domain Socket or Network Address: "@
            + t@,
        RouteError::PortRestricted { port, min, max } => "Port Restrict: "@ + decimal(port as nat)
            + ", min: "@ + decimal(min as nat) + " max: "@ + decimal(max as nat),
    }
}

impl RouteError {
    /// The text of this failure.
    pub fn message(&self) -> (r: String)
        ensures
            r@ == error_text(*self),
    {
        match self {
            RouteError::MissingHost => String::from_str("Could not find a Host header"),
            RouteError::InvalidDestination(t) => {
                let mut r = String::from_str("Invalid Unix Domain Socket or Network Address: ");
                r.append(t.as_str());
                r
            },
            RouteError::PortRestricted { port, min, max } => {
                let mut r = String::from_str("Port Restrict: ");
                r.append(decimal_text(*port).as_str());
                r.append(", min: ");
                r.append(decimal_text(*min).as_str());
                r.append(" max: ");
                r.append(decimal_text(*max).as_str());
                r
            },
        }
    }
}

/// The outcome of routing, over plain values.
pub enum Route {
    Uds(Seq<char>),
    Tcp(Seq<char>),
    NoHost,
    Invalid(Seq<char>),
    Restricted(u16, u16, u16),
}

/// The route that a result of routing stands for.
pub open spec fn route_of(r: Result<StreamType, RouteError>) -> Route {
    match r {
        Ok(StreamType::UnixDomainSocket(p)) => Route::Uds(p@),
        Ok(StreamType::TcpSocket(a)) => Route::Tcp(a@),
        Err(RouteError::MissingHost) => Route::NoHost,
        Err(RouteError::InvalidDestination(t)) => Route::Invalid(t@),
        Err(RouteError::PortRestricted { port, min, max }) => Route::Restricted(port, min, max),
    }
}

/// The port window `[min, max)`: a zero bound is no bound, and with only a
/// ceiling the ceiling itself is allowed.
pub open spec fn port_allowed(min: u16, max: u16, p: u16) -> bool {
    (min == 0 && max == 0) || (min == 0 && p <= max) || (max == 0 && p >= min) || (min <= p
        && p < max)
}

/// The socket path of `token` under the directory `dst`.
pub open spec fn uds_path(dst: Seq<char>, token: Seq<char>) -> Seq<char> {
    dst + seq!['/'] + token
}

/// The network address of port `token` on host `dst`.
pub open spec fn tcp_address(dst: Seq<char>, token: Seq<char>) -> Seq<char> {
    dst + seq![':'] + token
}

/// Where `token` leads, given whether `dst` is a directory and the port
/// that `dst:token` parses to. A token that is empty once trimmed leads
/// nowhere.
pub open spec fn resolve_spec(
    dst: Seq<char>,
    min: u16,
    max: u16,
    token: Seq<char>,
    dst_is_dir: bool,
    port: Option<u16>,
) -> Route {
    if trim_of(token).len() == 0 {
        Route::Invalid(token)
    } else if dst_is_dir {
        Route::Uds(uds_path(dst, token))
    } else {
        match port {
            None => Route::Invalid(token),
            Some(p) => if port_allowed(min, max, p) {
                Route::Tcp(tcp_address(dst, token))
            } else {
                Route::Restricted(p, min, max)
            },
        }
    }
}

/// Where `token` leads under the configuration `opt`.
pub open spec fn resolve_with(opt: Opt, token: Seq<char>, dst_is_dir: bool) -> Route {
    resolve_spec(
        opt.dst@,
        opt.port_restrict_min,
        opt.port_restrict_max,
        token,
        dst_is_dir,
        socket_port_of(tcp_address(opt.dst@, token)),
    )
}

/// The routing token of a `Host` header: its first dot-separated label.
pub open spec fn host_token(host: Seq<char>) -> Seq<char> {
    trim_of(before_first(host, '.'))
}

/// The routing token of a request target: the last segment of its path (the
/// part before any `?`) once surrounding slashes are removed.
pub open spec fn path_token(uri: Seq<char>) -> Seq<char> {
    trim_of(after_last(strip_trailing(strip_leading(before_first(uri, '?'), '/'), '/'), '/'))
}

/// What a routing decision needs from a handshake request.
#[derive(Clone, Debug)]
pub struct RouteRequest {
    /// The `Host` header, when present and readable as text.
    pub host: Option<String>,
    /// The request target, as text.
    pub uri: String,
}

/// The route of a request under the configuration `opt`.
pub open spec fn request_route(opt: Opt, req: RouteRequest, dst_is_dir: bool) -> Route {
    match opt.port_map_type {
        PortMapType::Domain => match req.host {
            None => Route::NoHost,
            Some(h) => resolve_with(opt, host_token(h@), dst_is_dir),
        },
        PortMapType::Prefix => resolve_with(opt, path_token(req.uri@), dst_is_dir),
    }
}

/// For a token that is not blank, a network address whose port parses is
/// accepted exactly when the port lies in the window, and is otherwise refused with the port and both bounds.
pub proof fn lemma_port_window(dst: Seq<char>, min: u16, max: u16, token: Seq<char>, p: u16)
    requires
        trim_of(token).len() > 0,
    ensures
        resolve_spec(dst, min, max, token, false, Some(p)) == (if port_allowed(min, max, p) {
            Route::Tcp(tcp_address(dst, token))
        } else {
            Route::Restricted(p, min, max)
        }),
        (min == 0 && max == 0) ==> port_allowed(min, max, p),
        (min == 0 && max != 0) ==> (port_allowed(min, max, p) <==> p <= max),
        (min != 0 && max == 0) ==> (port_allowed(min, max, p) <==> p >= min),
        (min != 0 && max != 0 && min < max) ==> (port_allowed(min, max, p) <==> min <= p < max),
{
}

/// Under a directory every token that is not blank names the socket of that name in
/// it, whatever the port window and whatever the token would parse to.
pub proof fn lemma_directory_ignores_ports(
    dst: Seq<char>,
    min: u16,
    max: u16,
    token: Seq<char>,
    port: Option<u16>,
)
    requires
        trim_of(token).len() > 0,
    ensures
        resolve_spec(dst, min, max, token, true, port) == Route::Uds(uds_path(dst, token)),
{
}

/// Whether port `p` lies in the window `[min, max)`.
pub fn port_permitted(min: u16, max: u16, p: u16) -> (r: bool)
    ensures
        r == port_allowed(min, max, p),
{
    if min == 0 && max == 0 {
        true
    } else if min == 0 && p <= max {
        true
    } else if max == 0 && p >= min {
        true
    } else {
        min <= p && p < max
    }
}

fn joined(dst: &String, sep: &str, token: &str) -> (r: String)
    ensures
        r@ == dst@ + sep@ + token@,
{
    let mut r = dst.clone();
    r.append(sep);
    r.append(token);
    r
}

impl Opt {
    /// Resolves `file_or_port` once it is known whether the upstream base is a
    /// directory and which port, if any, `dst:file_or_port` parses to.
    pub fn resolve_parsed(&self, file_or_port: &str, dst_is_dir: bool, port: Option<u16>) -> (r:
        Result<StreamType, RouteError>)
        ensures
            route_of(r) == resolve_spec(
                self.dst@,
                self.port_restrict_min,
                self.port_restrict_max,
                file_or_port@,
                dst_is_dir,
                port,
            ),
    {
        proof {
            reveal_strlit("/");
            reveal_strlit(":");
            assert("/"@ =~= seq!['/']);
            assert(":"@ =~= seq![':']);
        }
        if trim_text(file_or_port).as_str().is_empty() {
            return Err(RouteError::InvalidDestination(String::from_str(file_or_port)));
        }
        if dst_is_dir {
            return Ok(StreamType::UnixDomainSocket(joined(&self.dst, "/", file_or_port)));
        }
        match port {
            None => Err(RouteError::InvalidDestination(String::from_str(file_or_port))),
            Some(p) => {
                if port_permitted(self.port_restrict_min, self.port_restrict_max, p) {
                    Ok(StreamType::TcpSocket(joined(&self.dst, ":", file_or_port)))
                } else {
                    Err(
                        RouteError::PortRestricted {
                            port: p,
                            min: self.port_restrict_min,
                            max: self.port_restrict_max,
                        },
                    )
                }
            },
        }
    }

    /// Resolves `file_or_port`: a socket path under `dst` when `dst` is a
    /// directory, else `dst:file_or_port` as a network address whose port
    /// must lie in the configured window.
    pub fn get_stream_type(&self, file_or_port: &str, dst_is_dir: bool) -> (r: Result<
        StreamType,
        RouteError,
    >)
        ensures
            route_of(r) == resolve_with(*self, file_or_port@, dst_is_dir),
    {
        proof {
            reveal_strlit(":");
            assert(":"@ =~= seq![':']);
        }
        let address = joined(&self.dst, ":", file_or_port);
        let port = parse_socket_port(address.as_str());
        self.resolve_parsed(file_or_port, dst_is_dir, port)
    }
}

/// Routes by the first label of the `Host` header.
pub fn extract_from_host(host: Option<&str>, opt: &Opt, dst_is_dir: bool) -> (r: Result<
    StreamType,
    RouteError,
>)
    ensures
        route_of(r) == (match host {
            None => Route::NoHost,
            Some(h) => resolve_with(*opt, host_token(h@), dst_is_dir),
        }),
{
    match host {
        None => Err(RouteError::MissingHost),
        Some(h) => {
            let label = text_of(&take_before_first(&chars_of(h), '.'));
            let token = trim_text(label.as_str());
            opt.get_stream_type(token.as_str(), dst_is_dir)
        },
    }
}

/// Routes by the last segment of the request path.
pub fn extract_from_uri(uri: &str, opt: &Opt, dst_is_dir: bool) -> (r: Result<
    StreamType,
    RouteError,
>)
    ensures
        route_of(r) == resolve_with(*opt, path_token(uri@), dst_is_dir),
{
    let path = take_before_first(&chars_of(uri), '?');
    let inner = strip_both(&path, '/');
    let segment = text_of(&take_after_last(&inner, '/'));
    let token = trim_text(segment.as_str());
    opt.get_stream_type(token.as_str(), dst_is_dir)
}

/// The routing decision for a handshake request.
pub fn route_request(req: &RouteRequest, opt: &Opt, dst_is_dir: bool) -> (r: Result<
    StreamType,
    RouteError,
>)
    ensures
        route_of(r) == request_route(*opt, *req, dst_is_dir),
{
    match opt.port_map_type {
        PortMapType::Domain => match &req.host {
            None => extract_from_host(None, opt, dst_is_dir),
            Some(h) => extract_from_host(Some(h.as_str()), opt, dst_is_dir),
        },
        PortMapType::Prefix => extract_from_uri(req.uri.as_str(), opt, dst_is_dir),
    }
}

} // verus!
