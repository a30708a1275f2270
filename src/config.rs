//! The gateway's configuration, built once and shared read-only.
use vstd::prelude::*;
use vstd::string::*;
use crate::text::{decimal, decimal_text};

verus! {

/// How the routing token is found in a handshake request.
#[derive(Clone, Copy, Debug, PartialEq, Eq, Structural)]
pub enum PortMapType {
    /// The first label of the `Host` header.
    Domain,
    /// The last segment of the request path.
    Prefix,
}

/// The configuration of one gateway process.
#[derive(Clone, Debug)]
pub struct Opt {
    /// Address to listen on.
    pub listen: String,
    /// Upstream host, or a directory holding Unix domain sockets.
    pub dst: String,
    /// Plain WebSocket listen port (0 when unused).
    pub tcp_port: u16,
    /// TLS WebSocket listen port (0 when unused).
    pub ssl_port: u16,
    /// Path of the TLS certificate file.
    pub ssl_cert: String,
    /// Path of the TLS private key file.
    pub ssl_key: String,
    /// Where the routing token is read from.
    pub port_map_type: PortMapType,
    /// Lower bound of the allowed port window (0: no floor).
    pub port_restrict_min: u16,
    /// Upper bound of the allowed port window (0: no ceiling).
    pub port_restrict_max: u16,
    /// Handshake deadline, in seconds.
    pub timeout: u64,
}

/// Settings as given by the operator: each may be absent.
#[derive(Clone, Debug)]
pub struct OptArgs {
    pub listen: Option<String>,
    pub dst: Option<String>,
    pub tcp_port: Option<u16>,
    pub ssl_port: Option<u16>,
    pub ssl_cert: Option<String>,
    pub ssl_key: Option<String>,
    pub port_map_type: Option<PortMapType>,
    pub port_restrict_min: Option<u16>,
    pub port_restrict_max: Option<u16>,
    pub timeout: Option<u64>,
}

/// Default handshake deadline, in seconds.
pub const DEFAULT_TIMEOUT: u64 = 10;

/// The value a text setting takes: the given one, else the default.
pub open spec fn text_or(given: Option<String>, default: Seq<char>) -> Seq<char> {
    match given {
        Some(s) => s@,
        None => default,
    }
}

fn text_setting(given: Option<String>, default: &str) -> (r: String)
    ensures
        r@ == text_or(given, default@),
{
    match given {
        Some(s) => s,
        None => String::from_str(default),
    }
}

/// Fills every absent setting with its default: listen on `0.0.0.0`,
/// upstream `127.0.0.1`, no ports, no TLS files, routing by path, no port
/// window and a ten second handshake deadline.
pub fn load(args: OptArgs) -> (r: Opt)
    ensures
        r.listen@ == text_or(args.listen, "0.0.0.0"@),
        r.dst@ == text_or(args.dst, "127.0.0.1"@),
        r.tcp_port == args.tcp_port.unwrap_or(0),
        r.ssl_port == args.ssl_port.unwrap_or(0),
        r.ssl_cert@ == text_or(args.ssl_cert, ""@),
        r.ssl_key@ == text_or(args.ssl_key, ""@),
        r.port_map_type == args.port_map_type.unwrap_or(PortMapType::Prefix),
        r.port_restrict_min == args.port_restrict_min.unwrap_or(0),
        r.port_restrict_max == args.port_restrict_max.unwrap_or(0),
        r.timeout == args.timeout.unwrap_or(DEFAULT_TIMEOUT),
{
    Opt {
        listen: text_setting(args.listen, "0.0.0.0"),
        dst: text_setting(args.dst, "127.0.0.1"),
        tcp_port: args.tcp_port.unwrap_or(0),
        ssl_port: args.ssl_port.unwrap_or(0),
        ssl_cert: text_setting(args.ssl_cert, ""),
        ssl_key: text_setting(args.ssl_key, ""),
        port_map_type: args.port_map_type.unwrap_or(PortMapType::Prefix),
        port_restrict_min: args.port_restrict_min.unwrap_or(0),
        port_restrict_max: args.port_restrict_max.unwrap_or(0),
        timeout: args.timeout.unwrap_or(DEFAULT_TIMEOUT),
    }
}

/// Which listener a process runs.
#[derive(Clone, Copy, Debug, PartialEq, Eq, Structural)]
pub enum ListenMode {
    /// WebSocket over plain TCP on `tcp_port`.
    Plain,
    /// WebSocket over TLS on `ssl_port`.
    Secure,
    /// Neither port is set: nothing is listened on.
    Unset,
}

/// The listener a configuration selects.
pub open spec fn mode_of(opt: Opt) -> ListenMode {
    if opt.tcp_port != 0 {
        ListenMode::Plain
    } else if opt.ssl_port != 0 {
        ListenMode::Secure
    } else {
        ListenMode::Unset
    }
}

impl Opt {
    /// The plain port wins when both are set; with neither, no listener runs.
    pub fn listen_mode(&self) -> (r: ListenMode)
        ensures
            r == mode_of(*self),
    {
        if self.tcp_port != 0 {
            ListenMode::Plain
        } else if self.ssl_port != 0 {
            ListenMode::Secure
        } else {
            ListenMode::Unset
        }
    }

    /// The `listen:port` address that the selected listener binds, if any.
    pub fn bind_address(&self) -> (r: Option<String>)
        ensures
            match mode_of(*self) {
                ListenMode::Plain => r is Some && r->0@ == self.listen@ + ":"@ + decimal(
                    self.tcp_port as nat,
                ),
                ListenMode::Secure => r is Some && r->0@ == self.listen@ + ":"@ + decimal(
                    self.ssl_port as nat,
                ),
                ListenMode::Unset => r is None,
            },
    {
        let port = match self.listen_mode() {
            ListenMode::Plain => self.tcp_port,
            ListenMode::Secure => self.ssl_port,
            ListenMode::Unset => return None,
        };
        let mut r = self.listen.clone();
        r.append(":");
        r.append(decimal_text(port).as_str());
        Some(r)
    }
}

} // verus!
