//! The events exchanged with the engine, and their mathematical views.

use vstd::prelude::*;

verus! {

/// The schema version every event carries.
pub const SCHEMA_VERSION: &'static str = "robit.v1";

/// How a room scope update combines with what the engine already knows.
#[derive(Clone, Copy, Debug, PartialEq, Eq, Structural)]
pub enum ConfigMode {
    Replace,
    Merge,
}

/// Structured metadata attached to an inbound message.
#[derive(Clone, Debug, PartialEq, Eq)]
pub struct MessageMetadata {
    /// Which client the message came through.
    pub source: String,
    /// Set for history replayed only to give the engine context.
    pub context_only: bool,
    /// The role of the sender in replayed history.
    pub role: Option<String>,
}

pub struct MetadataView {
    pub source: Seq<char>,
    pub context_only: bool,
    pub role: Option<Seq<char>>,
}

impl View for MessageMetadata {
    type V = MetadataView;

    open spec fn view(&self) -> MetadataView {
        MetadataView {
            source: self.source@,
            context_only: self.context_only,
            role: self.role.deep_view(),
        }
    }
}

/// An inbound chat message.
#[derive(Clone, Debug, PartialEq, Eq)]
pub struct MessagePayload {
    pub message_id: String,
    pub room_id: String,
    pub workspace_id: String,
    pub sender_id: String,
    pub text: String,
    pub event_kind: Option<String>,
    pub metadata: MessageMetadata,
}

pub struct MessageView {
    pub message_id: Seq<char>,
    pub room_id: Seq<char>,
    pub workspace_id: Seq<char>,
    pub sender_id: Seq<char>,
    pub text: Seq<char>,
    pub event_kind: Option<Seq<char>>,
    pub metadata: MetadataView,
}

impl View for MessagePayload {
    type V = MessageView;

    open spec fn view(&self) -> MessageView {
        MessageView {
            message_id: self.message_id@,
            room_id: self.room_id@,
            workspace_id: self.workspace_id@,
            sender_id: self.sender_id@,
            text: self.text@,
            event_kind: self.event_kind.deep_view(),
            metadata: self.metadata@,
        }
    }
}

/// One room the engine may act in.
#[derive(Clone, Debug, PartialEq, Eq)]
pub struct RoomScopeItem {
    pub room_id: String,
    pub name: Option<String>,
}

pub struct RoomScopeItemView {
    pub room_id: Seq<char>,
    pub name: Option<Seq<char>>,
}

impl View for RoomScopeItem {
    type V = RoomScopeItemView;

    open spec fn view(&self) -> RoomScopeItemView {
        RoomScopeItemView { room_id: self.room_id@, name: self.name.deep_view() }
    }
}

/// One workspace and the rooms of it that the engine may act in.
#[derive(Clone, Debug, PartialEq, Eq)]
pub struct WorkspaceScope {
    pub workspace_id: String,
    pub name: Option<String>,
    pub rooms: Vec<RoomScopeItem>,
}

pub struct WorkspaceScopeView {
    pub workspace_id: Seq<char>,
    pub name: Option<Seq<char>>,
    pub rooms: Seq<RoomScopeItemView>,
}

impl View for WorkspaceScope {
    type V = WorkspaceScopeView;

    open spec fn view(&self) -> WorkspaceScopeView {
        WorkspaceScopeView {
            workspace_id: self.workspace_id@,
            name: self.name.deep_view(),
            rooms: self.rooms@.map_values(|r: RoomScopeItem| r@),
        }
    }
}

/// Tells the engine which rooms it may act in.
#[derive(Clone, Debug, PartialEq, Eq)]
pub struct RoomScopePayload {
    pub mode: Option<ConfigMode>,
    pub workspaces: Vec<WorkspaceScope>,
}

pub struct RoomScopeView {
    pub mode: Option<ConfigMode>,
    pub workspaces: Seq<WorkspaceScopeView>,
}

impl View for RoomScopePayload {
    type V = RoomScopeView;

    open spec fn view(&self) -> RoomScopeView {
        RoomScopeView {
            mode: self.mode,
            workspaces: self.workspaces@.map_values(|w: WorkspaceScope| w@),
        }
    }
}

/// A response of the engine, to be posted in a room.
#[derive(Clone, Debug, PartialEq, Eq)]
pub struct ResponsePayload {
    pub room_id: String,
    /// `approval_request`, `action_result`, `error`, `need_input`, or another kind.
    pub kind: String,
    pub text: String,
    /// The id of the event this response answers.
    pub in_reply_to: String,
}

pub struct ResponseView {
    pub room_id: Seq<char>,
    pub kind: Seq<char>,
    pub text: Seq<char>,
    pub in_reply_to: Seq<char>,
}

impl View for ResponsePayload {
    type V = ResponseView;

    open spec fn view(&self) -> ResponseView {
        ResponseView {
            room_id: self.room_id@,
            kind: self.kind@,
            text: self.text@,
            in_reply_to: self.in_reply_to@,
        }
    }
}

/// What an event carries.
#[derive(Clone, Debug, PartialEq, Eq)]
pub enum ProtocolBody {
    Message(MessagePayload),
    RoomScope(RoomScopePayload),
    Response(ResponsePayload),
}

pub enum BodyView {
    Message(MessageView),
    RoomScope(RoomScopeView),
    Response(ResponseView),
}

impl View for ProtocolBody {
    type V = BodyView;

    open spec fn view(&self) -> BodyView {
        match self {
            ProtocolBody::Message(m) => BodyView::Message(m@),
            ProtocolBody::RoomScope(s) => BodyView::RoomScope(s@),
            ProtocolBody::Response(r) => BodyView::Response(r@),
        }
    }
}

/// A versioned envelope around a message, a scope update or a response.
#[derive(Clone, Debug, PartialEq, Eq)]
pub struct ProtocolEvent {
    pub schema_version: String,
    pub id: String,
    /// Milliseconds since the Unix epoch, when known.
    pub timestamp: Option<u64>,
    pub body: ProtocolBody,
}

pub struct EventView {
    pub schema_version: Seq<char>,
    pub id: Seq<char>,
    pub timestamp: Option<u64>,
    pub body: BodyView,
}

impl View for ProtocolEvent {
    type V = EventView;

    open spec fn view(&self) -> EventView {
        EventView {
            schema_version: self.schema_version@,
            id: self.id@,
            timestamp: self.timestamp,
            body: self.body@,
        }
    }
}

} // verus!
