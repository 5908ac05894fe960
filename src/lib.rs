//! A SOCKS5 (RFC 1928 / RFC 1929) client handshake, written as a verified
//! state machine over the bytes of the protocol.
//!
//! The library never touches a socket: it says which bytes to send and how
//! many to read next, and decides what the bytes that came back mean.
pub mod address;
pub mod client;
pub mod error;
pub mod negotiation;
pub mod reply;

pub use address::{connect_request, AddrType, TargetAddress};
pub use client::{Action, Socks5Client, Stage};
pub use error::Socks5Error;
pub use negotiation::{
    auth_request, check_auth_reply, greeting, select_method, Credentials, Method,
};
pub use reply::{parse_connect_reply, reply_progress, ReplyProgress};
