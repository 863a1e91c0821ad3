//! The decisions behind a LAN remote-desktop session.
//!
//! Two peers shake hands ([`client`], [`server`]) over a TCP stream, then race that stream against
//! a WebRTC channel for the session's transport ([`race`]). On a Linux desktop, links are handed to
//! the running process over the session bus ([`bus`]), whose window is brought to the front
//! ([`window`]), and a locked host's display is woken for its viewers ([`display`]).
//!
//! Nothing here does I/O. A function says what to do, and takes what came of it.

pub mod bus;
pub mod client;
pub mod crypto;
pub mod desktop_laws;
pub mod display;
pub mod error;
pub mod event;
pub mod handshake_laws;
pub mod messages;
pub mod protocol;
pub mod race;
pub mod race_laws;
pub mod server;
pub mod text;
pub mod window;
