//! A gateway that bridges WebSocket clients to TCP or Unix-domain-socket
//! services chosen per connection from the handshake request.
//!
//! - `config`: the configuration and its defaults, and which listener runs.
//! - `route`: routing tokens from handshake requests, and where they lead.
//! - `gate`: the handshake under its deadline, up to the dial of the upstream.
//! - `bridge`: what each forwarding direction does with what it receives.
//! - `text`: character-level helpers.
pub mod bridge;
pub mod config;
pub mod gate;
pub mod route;
pub mod text;
