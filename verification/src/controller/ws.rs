//! The controller's websocket: commands from the browser.

use vstd::prelude::*;
use crate::websocket::WsMessage;

verus! {

/// What `serde_json` gives for `text` parsed as a JSON value and asked for
/// its member `key` as a string: `None` when `text` is not JSON,
/// `Some(None)` when the value is not an object, has no member `key`, or
/// that member is not a string, `Some(Some(s))` for the string `s`.
pub uninterp spec fn json_string_member(text: Seq<char>, key: Seq<char>) -> Option<Option<Seq<char>>>;

/// Parses `text` with `serde_json::from_str::<serde_json::Value>` and reads
/// `key` with `Value::get`, keeping it when it is a `Value::String`.
/// Claimed: the result depends on `text` and `key` alone, as
/// `json_string_member`; JSON syntax itself is not stated.
#[verifier::external_body]
fn string_member(text: &str, key: &str) -> (r: Result<Option<String>, ()>)
    ensures
        r matches Ok(Some(s)) ==> json_string_member(text@, key@) == Some(Some(s@)),
        r matches Ok(None) ==> json_string_member(text@, key@) == Some(None::<Seq<char>>),
        r is Err ==> json_string_member(text@, key@) == None::<Option<Seq<char>>>,
{
    match ::serde_json::from_str::<::serde_json::Value>(text) {
        Err(_) => Err(()),
        Ok(value) => match value.get(key) {
            Some(::serde_json::Value::String(s)) => Ok(Some(s.clone())),
            _ => Ok(None),
        },
    }
}

/// What the controller's websocket does with a message.
#[derive(Debug)]
pub enum ControllerWsAction {
    /// Answer a ping with this pong.
    Pong(String),
    /// Send these bytes back.
    Binary(Vec<u8>),
    /// Ask the coordinator for a new worker.
    CreateWorker,
    Ignore,
}

/// A text message that is not JSON.
#[derive(Debug, Clone, Copy, PartialEq, Eq, Structural)]
pub enum CommandError {
    InvalidJson,
}

/// The `type` of a command that asks for a new worker.
pub open spec fn create_worker_type() -> Seq<char> {
    "COMMAND_CREATE_WORKER"@
}

/// Whether a command's `type` member asks for a new worker.
pub fn is_create_worker_command(type_member: &Option<String>) -> (b: bool)
    ensures
        b == (type_member matches Some(t) && t@ == create_worker_type()),
{
    match type_member {
        Some(t) => *t == String::from_str("COMMAND_CREATE_WORKER"),
        None => false,
    }
}

/// The answer to `msg`: pings are ponged, binary data echoed; a text
/// message is a JSON command, and one whose `type` is
/// `COMMAND_CREATE_WORKER` asks for a worker; text that is not JSON is an
/// error; everything else is ignored.
pub open spec fn controller_ws_action_spec(msg: WsMessage) -> Result<ControllerWsAction, CommandError> {
    match msg {
        WsMessage::Ping(p) => Ok(ControllerWsAction::Pong(p)),
        WsMessage::Binary(b) => Ok(ControllerWsAction::Binary(b)),
        WsMessage::Text(t) => match json_string_member(t@, "type"@) {
            None => Err(CommandError::InvalidJson),
            Some(m) => if m == Some(create_worker_type()) {
                Ok(ControllerWsAction::CreateWorker)
            } else {
                Ok(ControllerWsAction::Ignore)
            },
        },
        _ => Ok(ControllerWsAction::Ignore),
    }
}

/// What to do with a websocket message (see [`controller_ws_action_spec`]).
pub fn controller_ws_action(msg: WsMessage) -> (r: Result<ControllerWsAction, CommandError>)
    ensures
        r == controller_ws_action_spec(msg),
{
    match msg {
        WsMessage::Ping(p) => Ok(ControllerWsAction::Pong(p)),
        WsMessage::Binary(b) => Ok(ControllerWsAction::Binary(b)),
        WsMessage::Text(t) => {
            match string_member(t.as_str(), "type") {
                Err(_) => Err(CommandError::InvalidJson),
                Ok(member) => {
                    if is_create_worker_command(&member) {
                        Ok(ControllerWsAction::CreateWorker)
                    } else {
                        Ok(ControllerWsAction::Ignore)
                    }
                },
            }
        },
        _ => Ok(ControllerWsAction::Ignore),
    }
}

/// Only a text command asks for a worker, and only one whose `type` member
/// is the string `COMMAND_CREATE_WORKER`; such a command always does. A
/// ping is answered with its own payload, binary data is echoed unchanged,
/// text that is not JSON is the only error, and closing, pongs and no-ops
/// are ignored.
pub proof fn lemma_controller_ws_actions(msg: WsMessage)
    ensures
        controller_ws_action_spec(msg) == Ok::<ControllerWsAction, CommandError>(ControllerWsAction::CreateWorker)
            <==> (msg is Text && json_string_member(msg->Text_0@, "type"@) == Some(Some("COMMAND_CREATE_WORKER"@))),
        controller_ws_action_spec(msg) is Err <==> (msg is Text && json_string_member(msg->Text_0@, "type"@) is None),
        msg is Ping ==> controller_ws_action_spec(msg) == Ok::<ControllerWsAction, CommandError>(
            ControllerWsAction::Pong(msg->Ping_0),
        ),
        msg is Binary ==> controller_ws_action_spec(msg) == Ok::<ControllerWsAction, CommandError>(
            ControllerWsAction::Binary(msg->Binary_0),
        ),
        (msg is Close || msg is Pong || msg is Nop) ==> controller_ws_action_spec(msg) == Ok::<ControllerWsAction, CommandError>(
            ControllerWsAction::Ignore,
        ),
{
}

} // verus!
