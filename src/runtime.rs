//! The bridge's runtime handle: its scope, which rooms are set up, and the
//! filter that decides which submissions become engine events.

use vstd::prelude::*;

use crate::protocol::{
    BodyView, EventView, MessageMetadata, MessagePayload, MessageView, MetadataView, ProtocolBody,
    ProtocolEvent, SCHEMA_VERSION,
};
use crate::scope::{configured_scope, RobitScope, RoomSet, ScopeView};
use crate::tag::{is_robit_message, is_tagged};
use crate::text::{concat_str, trim_chars, trim_str};

verus! {

/// How many earlier messages of a room are replayed as context before live
/// messages are submitted.
pub const ROBIT_CONTEXT_WINDOW: usize = 50;

/// The source recorded in the metadata of every submitted message.
pub const MESSAGE_SOURCE: &'static str = "robrix";

/// The event kind of every submitted message.
pub const MESSAGE_EVENT_KIND: &'static str = "text";

/// Put before a message id to form the id of its event.
pub const MESSAGE_EVENT_ID_PREFIX: &'static str = "msg-";

/// Put before a message id to form the id of the event of a replayed message.
pub const CONTEXT_EVENT_ID_PREFIX: &'static str = "ctx-msg-";

/// Put before the id of a replayed message, to tell it from live messages.
pub const CONTEXT_MESSAGE_ID_PREFIX: &'static str = "ctx-";

/// How many earlier messages of a room are replayed as context.
pub fn context_window_size() -> (r: usize)
    ensures
        r == ROBIT_CONTEXT_WINDOW,
{
    ROBIT_CONTEXT_WINDOW
}

/// The event a live message becomes.
pub open spec fn live_message_event(
    workspace_id: Seq<char>,
    room_id: Seq<char>,
    message_id: Seq<char>,
    sender_id: Seq<char>,
    text: Seq<char>,
) -> EventView {
    EventView {
        schema_version: SCHEMA_VERSION@,
        id: MESSAGE_EVENT_ID_PREFIX@ + message_id,
        timestamp: None,
        body: BodyView::Message(
            MessageView {
                message_id,
                room_id,
                workspace_id,
                sender_id,
                text,
                event_kind: Some(MESSAGE_EVENT_KIND@),
                metadata: MetadataView { source: MESSAGE_SOURCE@, context_only: false, role: None },
            },
        ),
    }
}

/// The event a replayed message becomes; `text` is already trimmed.
pub open spec fn context_message_event(
    workspace_id: Seq<char>,
    room_id: Seq<char>,
    message_id: Seq<char>,
    sender_id: Seq<char>,
    text: Seq<char>,
    role: Seq<char>,
) -> EventView {
    EventView {
        schema_version: SCHEMA_VERSION@,
        id: CONTEXT_EVENT_ID_PREFIX@ + message_id,
        timestamp: None,
        body: BodyView::Message(
            MessageView {
                message_id: CONTEXT_MESSAGE_ID_PREFIX@ + message_id,
                room_id,
                workspace_id,
                sender_id,
                text,
                event_kind: Some(MESSAGE_EVENT_KIND@),
                metadata: MetadataView {
                    source: MESSAGE_SOURCE@,
                    context_only: true,
                    role: Some(role),
                },
            },
        ),
    }
}

/// Whether a room lies in the scope of a started runtime.
pub open spec fn in_scope(scope: Option<ScopeView>, room_id: Seq<char>) -> bool {
    scope matches Some(s) && s.rooms.contains(room_id)
}

/// The runtime handle. It starts out idle; [`RobitRuntime::init`] gives it its
/// scope once, after which the scope never changes.
pub struct RobitRuntime {
    scope: Option<RobitScope>,
    ready_rooms: RoomSet,
    context_loaded_rooms: RoomSet,
}

pub struct RuntimeView {
    /// `None` until the runtime is started.
    pub scope: Option<ScopeView>,
    /// Rooms whose bridge-side setup is complete.
    pub ready_rooms: Set<Seq<char>>,
    /// Rooms whose history has been fed to the engine.
    pub context_loaded_rooms: Set<Seq<char>>,
}

impl RuntimeView {
    /// The state after `room_id` is marked ready.
    pub open spec fn with_room_ready(self, room_id: Seq<char>) -> RuntimeView {
        if self.scope is Some {
            RuntimeView { ready_rooms: self.ready_rooms.insert(room_id), ..self }
        } else {
            self
        }
    }

    /// Whether `room_id` reads as ready.
    pub open spec fn is_room_ready(self, room_id: Seq<char>) -> bool {
        self.scope is Some && self.ready_rooms.contains(room_id)
    }

    /// The state after the history of `room_id` is marked as loaded.
    pub open spec fn with_context_loaded(self, room_id: Seq<char>) -> RuntimeView {
        if self.scope is Some {
            RuntimeView { context_loaded_rooms: self.context_loaded_rooms.insert(room_id), ..self }
        } else {
            self
        }
    }

    /// Whether the history of `room_id` reads as loaded.
    pub open spec fn is_context_loaded(self, room_id: Seq<char>) -> bool {
        self.scope is Some && self.context_loaded_rooms.contains(room_id)
    }
}

impl View for RobitRuntime {
    type V = RuntimeView;

    closed spec fn view(&self) -> RuntimeView {
        RuntimeView {
            scope: match self.scope {
                Some(s) => Some(s@),
                None => None,
            },
            ready_rooms: self.ready_rooms@,
            context_loaded_rooms: self.context_loaded_rooms@,
        }
    }
}

impl RobitRuntime {
    /// A runtime that has not been started: every submission is dropped.
    pub fn new() -> (r: RobitRuntime)
        ensures
            r@.scope is None,
            r@.ready_rooms == Set::<Seq<char>>::empty(),
            r@.context_loaded_rooms == Set::<Seq<char>>::empty(),
    {
        RobitRuntime { scope: None, ready_rooms: RoomSet::new(), context_loaded_rooms: RoomSet::new() }
    }

    /// Whether the runtime has been started.
    pub fn is_initialized(&self) -> (r: bool)
        ensures
            r == self@.scope is Some,
    {
        self.scope.is_some()
    }

    /// Starts the runtime with `scope`, unless it was started before, in which
    /// case nothing changes. Gives whether this call started it: the caller
    /// then starts the worker.
    pub fn init(&mut self, scope: RobitScope) -> (started: bool)
        ensures
            started == old(self)@.scope is None,
            started ==> final(self)@ == (RuntimeView { scope: Some(scope@), ..old(self)@ }),
            !started ==> *final(self) == *old(self),
    {
        if self.scope.is_some() {
            return false;
        }
        self.scope = Some(scope);
        true
    }

    /// Starts the runtime with the configured scope; see [`RobitRuntime::init`].
    pub fn init_from_config(&mut self) -> (started: bool)
        ensures
            started == old(self)@.scope is None,
            started ==> final(self)@ == (RuntimeView {
                scope: Some(configured_scope()),
                ..old(self)@
            }),
            !started ==> *final(self) == *old(self),
    {
        let scope = match RobitScope::from_config() {
            Some(scope) => scope,
            None => {
                return false;
            },
        };
        if self.scope.is_some() {
            return false;
        }
        self.init(scope)
    }

    /// Stops nothing: the worker ends when every handle to its channel is gone.
    pub fn shutdown(&self) {
    }

    /// Records that the bridge-side setup of `room_id` is complete. Does
    /// nothing before the runtime is started.
    pub fn mark_room_ready(&mut self, room_id: &str)
        ensures
            final(self)@ == old(self)@.with_room_ready(room_id@),
    {
        if self.scope.is_some() {
            self.ready_rooms.insert(room_id);
        }
    }

    /// Whether the runtime is started and `room_id` has been marked ready.
    pub fn room_ready(&self, room_id: &str) -> (r: bool)
        ensures
            r == self@.is_room_ready(room_id@),
    {
        self.scope.is_some() && self.ready_rooms.contains(room_id)
    }

    /// Records that the history of `room_id` has been fed to the engine. Does
    /// nothing before the runtime is started.
    pub fn mark_context_loaded(&mut self, room_id: &str)
        ensures
            final(self)@ == old(self)@.with_context_loaded(room_id@),
    {
        if self.scope.is_some() {
            self.context_loaded_rooms.insert(room_id);
        }
    }

    /// Whether the runtime is started and the history of `room_id` has been
    /// marked as loaded.
    pub fn context_loaded(&self, room_id: &str) -> (r: bool)
        ensures
            r == self@.is_context_loaded(room_id@),
    {
        self.scope.is_some() && self.context_loaded_rooms.contains(room_id)
    }

    /// The event to enqueue for a live message, or `None` when the message is
    /// dropped: the runtime is not started, the room is outside the scope, or
    /// the text carries the bridge's own tag.
    pub fn submit_message(&self, room_id: &str, message_id: &str, sender_id: &str, text: &str) -> (r:
        Option<ProtocolEvent>)
        ensures
            !in_scope(self@.scope, room_id@) ==> r is None,
            is_tagged(text@) ==> r is None,
            r is Some <==> in_scope(self@.scope, room_id@) && !is_tagged(text@),
            r matches Some(e) ==> e@ == live_message_event(
                self@.scope->0.workspace_id,
                room_id@,
                message_id@,
                sender_id@,
                text@,
            ),
    {
        let scope = match &self.scope {
            Some(scope) => scope,
            None => {
                return None;
            },
        };
        if !scope.contains_room(room_id) {
            return None;
        }
        if is_robit_message(text) {
            return None;
        }
        let payload = MessagePayload {
            message_id: String::from_str(message_id),
            room_id: String::from_str(room_id),
            workspace_id: scope.workspace_id.clone(),
            sender_id: String::from_str(sender_id),
            text: String::from_str(text),
            event_kind: Some(String::from_str(MESSAGE_EVENT_KIND)),
            metadata: MessageMetadata {
                source: String::from_str(MESSAGE_SOURCE),
                context_only: false,
                role: None,
            },
        };
        let event = ProtocolEvent {
            schema_version: String::from_str(SCHEMA_VERSION),
            id: concat_str(MESSAGE_EVENT_ID_PREFIX, message_id),
            timestamp: None,
            body: ProtocolBody::Message(payload),
        };
        Some(event)
    }

    /// The event to enqueue for a message replayed as context, or `None` when
    /// it is dropped: the runtime is not started, the room is outside the
    /// scope, or the text is empty once trimmed. Tagged texts are replayed too.
    pub fn submit_context_message(
        &self,
        room_id: &str,
        message_id: &str,
        sender_id: &str,
        text: &str,
        role: &str,
    ) -> (r: Option<ProtocolEvent>)
        ensures
            r is Some <==> in_scope(self@.scope, room_id@) && trim_chars(text@).len() > 0,
            r matches Some(e) ==> e@ == context_message_event(
                self@.scope->0.workspace_id,
                room_id@,
                message_id@,
                sender_id@,
                trim_chars(text@),
                role@,
            ),
    {
        let scope = match &self.scope {
            Some(scope) => scope,
            None => {
                return None;
            },
        };
        if !scope.contains_room(room_id) {
            return None;
        }
        let trimmed = trim_str(text);
        if trimmed.is_empty() {
            return None;
        }
        let payload = MessagePayload {
            message_id: concat_str(CONTEXT_MESSAGE_ID_PREFIX, message_id),
            room_id: String::from_str(room_id),
            workspace_id: scope.workspace_id.clone(),
            sender_id: String::from_str(sender_id),
            text: String::from_str(trimmed),
            event_kind: Some(String::from_str(MESSAGE_EVENT_KIND)),
            metadata: MessageMetadata {
                source: String::from_str(MESSAGE_SOURCE),
                context_only: true,
                role: Some(String::from_str(role)),
            },
        };
        let event = ProtocolEvent {
            schema_version: String::from_str(SCHEMA_VERSION),
            id: concat_str(CONTEXT_EVENT_ID_PREFIX, message_id),
            timestamp: None,
            body: ProtocolBody::Message(payload),
        };
        Some(event)
    }
}

/// On a started runtime, a room marked ready reads as ready, a room that was
/// not ready and was not marked still reads as not ready, and marking the same
/// room a second time changes nothing, so the number of ready rooms stays the
/// same.
pub proof fn lemma_room_ready_after_mark(v: RuntimeView, room_id: Seq<char>, other: Seq<char>)
    requires
        v.scope is Some,
        other != room_id,
        !v.is_room_ready(other),
    ensures
        v.with_room_ready(room_id).is_room_ready(room_id),
        !v.with_room_ready(room_id).is_room_ready(other),
        v.with_room_ready(room_id).with_room_ready(room_id) == v.with_room_ready(room_id),
        v.with_room_ready(room_id).with_room_ready(room_id).ready_rooms.len() == v.with_room_ready(
            room_id,
        ).ready_rooms.len(),
{
    let once = v.ready_rooms.insert(room_id);
    assert(once.insert(room_id) =~= once);
}

/// The same for rooms whose history is marked as loaded.
pub proof fn lemma_context_loaded_after_mark(v: RuntimeView, room_id: Seq<char>, other: Seq<char>)
    requires
        v.scope is Some,
        other != room_id,
        !v.is_context_loaded(other),
    ensures
        v.with_context_loaded(room_id).is_context_loaded(room_id),
        !v.with_context_loaded(room_id).is_context_loaded(other),
        v.with_context_loaded(room_id).with_context_loaded(room_id) == v.with_context_loaded(
            room_id,
        ),
{
    let once = v.context_loaded_rooms.insert(room_id);
    assert(once.insert(room_id) =~= once);
}

} // verus!
