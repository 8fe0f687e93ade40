//! The bridge as it behaves in a build without the engine: every operation is
//! accepted and does nothing, so callers need no special case.

use vstd::prelude::*;

use crate::protocol::ProtocolEvent;
use crate::scope::RobitScope;

verus! {

/// Starts nothing.
pub fn init_from_config() {
}

/// Starts nothing.
pub fn init_from_env() {
}

/// Starts nothing; the scope is dropped.
pub fn init(_scope: RobitScope) {
}

/// Stops nothing.
pub fn shutdown() {
}

/// No message is the bridge's own.
pub fn is_robit_message(_text: &str) -> (r: bool)
    ensures
        !r,
{
    false
}

/// Records nothing.
pub fn mark_room_ready(_room_id: &str) {
}

/// No room is ready.
pub fn room_ready(_room_id: &str) -> (r: bool)
    ensures
        !r,
{
    false
}

/// No history is replayed.
pub fn context_window_size() -> (r: usize)
    ensures
        r == 0,
{
    0
}

/// No room's history is loaded.
pub fn context_loaded(_room_id: &str) -> (r: bool)
    ensures
        !r,
{
    false
}

/// Records nothing.
pub fn mark_context_loaded(_room_id: &str) {
}

/// Every message is dropped.
pub fn submit_message(_room_id: &str, _message_id: &str, _sender_id: &str, _text: &str) -> (r:
    Option<ProtocolEvent>)
    ensures
        r is None,
{
    None
}

/// Every replayed message is dropped.
pub fn submit_context_message(
    _room_id: &str,
    _message_id: &str,
    _sender_id: &str,
    _text: &str,
    _role: &str,
) -> (r: Option<ProtocolEvent>)
    ensures
        r is None,
{
    None
}

/// Text is left as it is.
pub fn strip_robit_prefix(text: &str) -> (r: &str)
    ensures
        r@ == text@,
{
    text
}

} // verus!
