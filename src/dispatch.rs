//! Turning engine responses into outgoing chat messages.

use vstd::prelude::*;
use vstd::utf8::encode_utf8;

use crate::protocol::{BodyView, ProtocolBody, ProtocolEvent, ResponsePayload, ResponseView};
use crate::tag::{format_response_text, prefix_chars, tagged_text};

verus! {

/// The longest identifier the chat protocol accepts, in bytes.
pub const MAX_ID_BYTES: usize = 255;

/// Whether `s` is a room identifier: at most [`MAX_ID_BYTES`] bytes of UTF-8,
/// beginning with `!`, with no NUL character.
pub open spec fn is_room_id(s: Seq<char>) -> bool {
    &&& encode_utf8(s).len() <= MAX_ID_BYTES
    &&& s.len() > 0
    &&& s[0] == '!'
    &&& !s.contains('\u{0}')
}

/// Whether `s` is an event identifier, as the chat protocol's library decides.
pub uninterp spec fn is_event_id(s: Seq<char>) -> bool;

/// Relies on `ruma::RoomId::parse`, which accepts a room id of at most 255
/// bytes that begins with `!` and holds no NUL byte.
#[verifier::external_body]
fn parse_room_id(s: &str) -> (r: bool)
    ensures
        r == is_room_id(s@),
{
    ruma::RoomId::parse(s).is_ok()
}

/// Relies on `ruma::EventId::parse`. Without a `:` an event id only has to
/// begin with `$`; one that does not begin with `$` is never accepted.
#[verifier::external_body]
fn parse_event_id(s: &str) -> (r: bool)
    ensures
        r == is_event_id(s@),
        r ==> s@.len() > 0 && s@[0] == '$',
        s@.len() > 0 && s@[0] == '$' && !s@.contains(':') ==> r,
{
    ruma::EventId::parse(s).is_ok()
}

/// A text message to send into a room. When `reply_to` is set the message
/// answers that event, in its thread if the event is part of one and as a
/// plain reply otherwise.
#[derive(Clone, Debug, PartialEq, Eq)]
pub struct OutgoingMessage {
    pub room_id: String,
    pub text: String,
    pub reply_to: Option<String>,
}

pub struct OutgoingView {
    pub room_id: Seq<char>,
    pub text: Seq<char>,
    pub reply_to: Option<Seq<char>>,
}

impl View for OutgoingMessage {
    type V = OutgoingView;

    open spec fn view(&self) -> OutgoingView {
        OutgoingView {
            room_id: self.room_id@,
            text: self.text@,
            reply_to: self.reply_to.deep_view(),
        }
    }
}

/// The message sent for a response whose room id is valid: the tagged text,
/// as a reply to `in_reply_to` when that is a valid event id.
pub open spec fn outgoing_view(p: ResponseView, reply_target_valid: bool) -> OutgoingView {
    OutgoingView {
        room_id: p.room_id,
        text: tagged_text(p.kind, p.text),
        reply_to: if reply_target_valid {
            Some(p.in_reply_to)
        } else {
            None
        },
    }
}

/// Builds the message for `payload`, given whether its room id and its reply
/// target parse. A response with an invalid room id is dropped.
pub fn build_outgoing(payload: &ResponsePayload, room_id_valid: bool, reply_target_valid: bool) -> (r:
    Option<OutgoingMessage>)
    ensures
        r is Some <==> room_id_valid,
        r matches Some(m) ==> m@ == outgoing_view(payload@, reply_target_valid),
{
    if !room_id_valid {
        return None;
    }
    let text = format_response_text(payload.kind.as_str(), payload.text.as_str());
    let reply_to = if reply_target_valid {
        Some(payload.in_reply_to.clone())
    } else {
        None
    };
    Some(OutgoingMessage { room_id: payload.room_id.clone(), text, reply_to })
}

/// The message to send for an event the engine produced. Only responses
/// become messages, and only when their room id is valid.
pub fn dispatch_response(event: ProtocolEvent) -> (r: Option<OutgoingMessage>)
    ensures
        match event@.body {
            BodyView::Response(p) => {
                &&& r is Some <==> is_room_id(p.room_id)
                &&& r matches Some(m) ==> m@ == outgoing_view(p, is_event_id(p.in_reply_to))
                &&& prefix_chars().is_prefix_of(p.text) ==> (r matches Some(m) ==> m@.text == p.text)
            },
            _ => r is None,
        },
{
    let payload = match event.body {
        ProtocolBody::Response(payload) => payload,
        _ => {
            return None;
        },
    };
    let room_id_valid = parse_room_id(payload.room_id.as_str());
    let reply_target_valid = parse_event_id(payload.in_reply_to.as_str());
    build_outgoing(&payload, room_id_valid, reply_target_valid)
}

} // verus!
