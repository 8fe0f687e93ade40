//! The decisions of the single worker that owns the engine. The worker itself
//! (a thread, a channel, the engine) lives with the caller: it reports what
//! happened and performs the action it is given.

use vstd::prelude::*;

use crate::protocol::{
    BodyView, ConfigMode, EventView, ProtocolBody, ProtocolEvent, RoomScopeItem, RoomScopeItemView,
    RoomScopePayload, WorkspaceScope, SCHEMA_VERSION,
};
use crate::scope::{RobitScope, ScopeView};

verus! {

/// The id of the scope event the worker sends first.
pub const SCOPE_EVENT_ID: &'static str = "scope-boot";

/// Whether `e` is the scope event for `s`: it replaces the engine's scope with
/// one workspace, `s`'s, holding each of `s`'s rooms once, none of them named.
pub open spec fn is_scope_event(e: EventView, s: ScopeView) -> bool {
    &&& e.schema_version == SCHEMA_VERSION@
    &&& e.id == SCOPE_EVENT_ID@
    &&& e.timestamp is None
    &&& e.body matches BodyView::RoomScope(p) && {
        &&& p.mode == Some(ConfigMode::Replace)
        &&& p.workspaces.len() == 1
        &&& p.workspaces[0].workspace_id == s.workspace_id
        &&& p.workspaces[0].name is None
        &&& p.workspaces[0].rooms.map_values(|r: RoomScopeItemView| r.room_id).to_set()
            == s.rooms
        &&& p.workspaces[0].rooms.map_values(|r: RoomScopeItemView| r.room_id).no_duplicates()
        &&& forall|i: int| 0 <= i < p.workspaces[0].rooms.len() ==> #[trigger] p.workspaces[0].rooms[i].name is None
    }
}

/// The event that tells the engine which rooms it may act in.
pub fn build_scope_event(scope: &RobitScope) -> (e: ProtocolEvent)
    ensures
        is_scope_event(e@, scope@),
{
    let ids = scope.rooms.to_vec();
    let mut rooms: Vec<RoomScopeItem> = Vec::new();
    let mut i: usize = 0;
    while i < ids.len()
        invariant
            0 <= i <= ids.len(),
            rooms.len() == i,
            forall|j: int| 0 <= j < i ==> #[trigger] rooms@[j].room_id@ == ids@[j]@ && rooms@[j].name is None,
        decreases ids.len() - i,
    {
        rooms.push(RoomScopeItem { room_id: ids[i].clone(), name: None });
        i = i + 1;
    }
    let workspace = WorkspaceScope {
        workspace_id: scope.workspace_id.clone(),
        name: None,
        rooms,
    };
    let e = ProtocolEvent {
        schema_version: String::from_str(SCHEMA_VERSION),
        id: String::from_str(SCOPE_EVENT_ID),
        timestamp: None,
        body: ProtocolBody::RoomScope(
            RoomScopePayload { mode: Some(ConfigMode::Replace), workspaces: vec![workspace] },
        ),
    };
    proof {
        let p = match e@.body {
            BodyView::RoomScope(p) => p,
            _ => arbitrary(),
        };
        let items = p.workspaces[0].rooms;
        assert(items.map_values(|r: RoomScopeItemView| r.room_id) =~= ids@.map_values(
            |s: String| s@,
        ));
    }
    e
}

/// Where the worker is in its life.
#[derive(Clone, Copy, Debug, PartialEq, Eq, Structural)]
pub enum WorkerPhase {
    /// Building the engine.
    Starting,
    /// Serving the channel.
    Ready,
    /// Gone: the engine could not be built, or the channel was closed and
    /// drained.
    Stopped,
}

/// What happened to the worker.
#[derive(Clone, Debug, PartialEq, Eq)]
pub enum WorkerInput {
    /// The engine was built.
    EngineStarted,
    /// The engine could not be built.
    EngineFailed,
    /// An event came off the channel.
    Received(ProtocolEvent),
    /// The channel is closed and holds no more events.
    ChannelClosed,
}

/// What the worker does next.
#[derive(Clone, Debug, PartialEq, Eq)]
pub enum WorkerAction {
    /// Give the engine its backend, then hand it this scope event and discard
    /// its responses: nothing can receive them yet.
    Bootstrap(ProtocolEvent),
    /// Hand the engine this event and dispatch its responses in order.
    Handle(ProtocolEvent),
    /// End the worker.
    Exit,
}

/// The worker's next phase and action, given its phase and what happened. An
/// input that cannot occur in a phase stops the worker.
pub fn worker_step(phase: WorkerPhase, input: WorkerInput, scope: &RobitScope) -> (r: (
    WorkerPhase,
    WorkerAction,
))
    ensures
        match (phase, input) {
            (WorkerPhase::Starting, WorkerInput::EngineStarted) => {
                &&& r.0 == WorkerPhase::Ready
                &&& r.1 matches WorkerAction::Bootstrap(e) && is_scope_event(e@, scope@)
            },
            (WorkerPhase::Ready, WorkerInput::Received(e)) => {
                &&& r.0 == WorkerPhase::Ready
                &&& r.1 == WorkerAction::Handle(e)
            },
            _ => r.0 == WorkerPhase::Stopped && r.1 == WorkerAction::Exit,
        },
{
    match (phase, input) {
        (WorkerPhase::Starting, WorkerInput::EngineStarted) => (
            WorkerPhase::Ready,
            WorkerAction::Bootstrap(build_scope_event(scope)),
        ),
        (WorkerPhase::Ready, WorkerInput::Received(e)) => (WorkerPhase::Ready, WorkerAction::Handle(e)),
        _ => (WorkerPhase::Stopped, WorkerAction::Exit),
    }
}

} // verus!
