//! A small hybrid post-quantum VPN core: the handshake frames and their wire
//! encoding, the authenticated record layer, the server identity, the handshake
//! state machines and the server's forwarding decisions.

pub mod buf;
pub mod codec;
pub mod record;
pub mod identity;
pub mod handshake;
pub mod packet;
pub mod server;
pub mod client;
