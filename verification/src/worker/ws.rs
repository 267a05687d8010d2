//! The worker's websocket: what it answers to each message.

use vstd::prelude::*;
use crate::websocket::WsMessage;

verus! {

/// What the worker's websocket does with a message.
#[derive(Debug)]
pub enum WorkerWsAction {
    /// Answer a ping with this pong.
    Pong(String),
    /// Send these bytes back.
    Binary(Vec<u8>),
    /// Text from the client is only logged.
    LogText(String),
    Ignore,
}

/// The answer to `msg`: pings are ponged with their payload, binary data
/// is echoed, text is logged, everything else is ignored.
pub open spec fn worker_ws_action_spec(msg: WsMessage) -> WorkerWsAction {
    match msg {
        WsMessage::Ping(p) => WorkerWsAction::Pong(p),
        WsMessage::Text(t) => WorkerWsAction::LogText(t),
        WsMessage::Binary(b) => WorkerWsAction::Binary(b),
        _ => WorkerWsAction::Ignore,
    }
}

/// What to do with a websocket message (see [`worker_ws_action_spec`]).
pub fn worker_ws_action(msg: WsMessage) -> (a: WorkerWsAction)
    ensures
        a == worker_ws_action_spec(msg),
{
    match msg {
        WsMessage::Ping(p) => WorkerWsAction::Pong(p),
        WsMessage::Text(t) => WorkerWsAction::LogText(t),
        WsMessage::Binary(b) => WorkerWsAction::Binary(b),
        _ => WorkerWsAction::Ignore,
    }
}

/// The worker's websocket answers a ping with its own payload, echoes
/// binary data unchanged, only logs text, and ignores everything else.
pub proof fn lemma_worker_ws_actions(msg: WsMessage)
    ensures
        msg is Ping ==> worker_ws_action_spec(msg) == WorkerWsAction::Pong(msg->Ping_0),
        msg is Binary ==> worker_ws_action_spec(msg) == WorkerWsAction::Binary(msg->Binary_0),
        msg is Text ==> worker_ws_action_spec(msg) == WorkerWsAction::LogText(msg->Text_0),
        (msg is Close || msg is Pong || msg is Nop) ==> worker_ws_action_spec(msg) == WorkerWsAction::Ignore,
{
}

} // verus!
