//! What client and server agree on: the handshake constant, the server
//! addresses, and the messages and replicated components they exchange.

pub mod components;
pub mod messages;
pub mod primitives;

use vstd::prelude::*;

verus! {

/// The number that every `Auth` message carries, so that the server can tell
/// a client of this game from any other peer.
pub const MAGIC_NUMBER: u16 = 772;

/// Where a client opens its handshake with the server.
pub const SERVER_HANDSHAKE_URL: &'static str = "http://192.168.0.188:14191";

/// The data address that the server advertises to clients.
pub const SERVER_AD_URL: &'static str = "http://192.168.0.188:14192";

} // verus!
