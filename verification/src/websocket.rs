//! Websocket messages as the servers receive them.

use vstd::prelude::*;

verus! {

/// A message received on a websocket.
#[derive(Debug)]
pub enum WsMessage {
    Text(String),
    Binary(Vec<u8>),
    Ping(String),
    Pong(String),
    /// The peer closes the connection.
    Close,
    Nop,
}

} // verus!
