//! Building blocks of a tunnel that hides TCP connections inside a websocket
//! to a relay server: SOCKS5 negotiation, the tunnel handshake, the steps of
//! establishing a tunnel, relaying, and allow-list decisions.

pub mod rules;
pub mod text;
pub mod socks5;
pub mod common;
pub mod dns;
pub mod connect;
pub mod relay;
pub mod backend;
pub mod tunnel;
pub mod args;
