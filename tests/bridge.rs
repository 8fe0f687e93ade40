use robit_bridge::backend::{
    backend_for, is_local_backend, provider_from_name, select_backend, select_local_backend,
    select_remote_backend, AiProvider, BackendChoice, BackendDisabled, BackendSettings,
    LocalUnavailable,
};
use robit_bridge::disabled;
use robit_bridge::dispatch::build_outgoing;
use robit_bridge::protocol::{
    ConfigMode, MessagePayload, ProtocolBody, ProtocolEvent, ResponsePayload,
};
use robit_bridge::runtime::ROBIT_CONTEXT_WINDOW;
use robit_bridge::scope::RoomSet;
use robit_bridge::tag::{format_response_text, kind_tag};
use robit_bridge::worker::{build_scope_event, worker_step, WorkerAction, WorkerInput, WorkerPhase};
use robit_bridge::{
    context_window_size, dispatch_response, is_robit_message, strip_robit_prefix, RobitRuntime,
    RobitScope,
};

fn scope(workspace: &str, rooms: &[&str]) -> RobitScope {
    RobitScope::from_rooms(workspace, rooms).expect("scope with rooms")
}

fn started(workspace: &str, rooms: &[&str]) -> RobitRuntime {
    let mut runtime = RobitRuntime::new();
    assert!(runtime.init(scope(workspace, rooms)));
    runtime
}

fn sorted_rooms(scope: &RobitScope) -> Vec<String> {
    let mut rooms = scope.rooms.to_vec();
    rooms.sort();
    rooms
}

fn message(event: &ProtocolEvent) -> &MessagePayload {
    match &event.body {
        ProtocolBody::Message(m) => m,
        other => panic!("expected a message, got {other:?}"),
    }
}

fn response_event(room_id: &str, kind: &str, text: &str, in_reply_to: &str) -> ProtocolEvent {
    ProtocolEvent {
        schema_version: "robit.v1".to_string(),
        id: "resp-1".to_string(),
        timestamp: None,
        body: ProtocolBody::Response(ResponsePayload {
            room_id: room_id.to_string(),
            kind: kind.to_string(),
            text: text.to_string(),
            in_reply_to: in_reply_to.to_string(),
        }),
    }
}

fn settings(backend: &str, provider: &str, model: &str, key: &str, dir: &str) -> BackendSettings {
    BackendSettings {
        backend: backend.to_string(),
        provider: provider.to_string(),
        model: model.to_string(),
        api_key: key.to_string(),
        base_url: None,
        local_model_dir: dir.to_string(),
        local_max_tokens: 128,
    }
}

// Scope construction.

#[test]
fn scope_trims_and_drops_empty_room_ids() {
    let s = scope("W", &["  a ", "", "b"]);
    assert_eq!(s.workspace_id, "W");
    assert_eq!(sorted_rooms(&s), vec!["a".to_string(), "b".to_string()]);
    assert_eq!(s.rooms.len(), 2);
    assert!(s.contains_room("a"));
    assert!(!s.contains_room("  a "));
}

#[test]
fn scope_of_blank_room_ids_is_absent() {
    assert!(RobitScope::from_rooms("W", &["", "  "]).is_none());
    assert!(RobitScope::from_rooms("W", &[]).is_none());
}

#[test]
fn scope_keeps_one_copy_of_a_repeated_room() {
    let s = scope("W", &["a", " a", "a "]);
    assert_eq!(sorted_rooms(&s), vec!["a".to_string()]);
    assert_eq!(s.rooms.len(), 1);
}

#[test]
fn scope_from_config_holds_the_configured_room() {
    let s = RobitScope::from_config().expect("configured scope");
    assert_eq!(s.workspace_id, "!jiykcEdlcruEoeQPcG:matrix.org");
    assert_eq!(sorted_rooms(&s), vec!["!KHZpGbrVPoZqDtAkAg:matrix.org".to_string()]);
}

#[test]
fn room_set_insert_is_idempotent() {
    let mut set = RoomSet::new();
    assert!(set.is_empty());
    assert!(set.insert("r"));
    assert!(!set.insert("r"));
    assert_eq!(set.to_vec(), vec!["r".to_string()]);
    assert_eq!(set.len(), 1);
    assert!(!set.is_empty());
    let copy = set.clone();
    assert_eq!(copy.to_vec(), vec!["r".to_string()]);
}

// Tagging and stripping.

#[test]
fn tagged_messages_are_recognised() {
    assert!(is_robit_message("[Robit] hello"));
    assert!(is_robit_message("  [Robit] hello"));
    assert!(is_robit_message("[Robit-LEGACY] hello"));
    assert!(is_robit_message("\t[Robit-LEGACY] hello"));
    assert!(!is_robit_message("hello [Robit] "));
    assert!(!is_robit_message("[Robit]hello"));
    assert!(!is_robit_message(""));
}

#[test]
fn strip_removes_prefix_and_kind_tag() {
    assert_eq!(strip_robit_prefix("[Robit] [result] done"), "done");
    assert_eq!(strip_robit_prefix("  [Robit]   [error]   oops"), "oops");
    assert_eq!(strip_robit_prefix("[Robit-LEGACY] [need] more"), "more");
    assert_eq!(strip_robit_prefix("[Robit] plain"), "plain");
    assert_eq!(strip_robit_prefix("[Robit] [unterminated"), "[unterminated");
}

#[test]
fn strip_leaves_untagged_text() {
    assert_eq!(strip_robit_prefix("hello"), "hello");
    assert_eq!(strip_robit_prefix("[other] hello"), "[other] hello");
    assert_eq!(strip_robit_prefix("   hello"), "hello");
    assert_eq!(strip_robit_prefix(""), "");
}

#[test]
fn strip_inverts_tagging() {
    for kind in ["approval_request", "action_result", "error", "need_input", "other"] {
        for text in ["x", "hello world", "", "[Robit-LEGACY] old"] {
            if kind == "other" && text.starts_with('[') {
                continue;
            }
            let tagged = format_response_text(kind, text);
            assert_eq!(strip_robit_prefix(&tagged), text, "kind {kind}, text {text:?}");
        }
    }
}

#[test]
fn kind_tags_follow_the_kind() {
    assert_eq!(kind_tag("approval_request"), "[approval] ");
    assert_eq!(kind_tag("action_result"), "[result] ");
    assert_eq!(kind_tag("error"), "[error] ");
    assert_eq!(kind_tag("need_input"), "[need] ");
    assert_eq!(kind_tag("something_else"), "");
    assert_eq!(kind_tag("ERROR"), "");
}

#[test]
fn response_text_is_tagged_once() {
    assert_eq!(format_response_text("error", "x"), "[Robit] [error] x");
    assert_eq!(format_response_text("other", "x"), "[Robit] x");
    assert_eq!(format_response_text("error", "[Robit] already"), "[Robit] already");
    assert_eq!(
        format_response_text("error", "[Robit-LEGACY] old"),
        "[Robit] [error] [Robit-LEGACY] old"
    );
}

// Runtime: submission filter.

#[test]
fn end_to_end_submission_reaches_engine_once() {
    let runtime = started("W", &["R1"]);
    let event = runtime.submit_message("R1", "m1", "u1", "hello").expect("accepted");
    assert_eq!(event.id, "msg-m1");
    assert_eq!(event.schema_version, "robit.v1");
    assert_eq!(event.timestamp, None);
    let m = message(&event);
    assert_eq!(m.room_id, "R1");
    assert_eq!(m.message_id, "m1");
    assert_eq!(m.workspace_id, "W");
    assert_eq!(m.sender_id, "u1");
    assert_eq!(m.text, "hello");
    assert_eq!(m.event_kind.as_deref(), Some("text"));
    assert_eq!(m.metadata.source, "robrix");
    assert!(!m.metadata.context_only);
    assert_eq!(m.metadata.role, None);
    assert!(runtime.submit_message("R2", "m2", "u1", "hello").is_none());
}

#[test]
fn submit_outside_scope_is_dropped() {
    let runtime = started("W", &["R1", "R2"]);
    for room in ["R3", "", "r1", " R1"] {
        assert!(runtime.submit_message(room, "m", "u", "hi").is_none());
    }
}

#[test]
fn submit_of_tagged_text_is_dropped() {
    let runtime = started("W", &["R1"]);
    for text in ["[Robit] hi", "  [Robit] hi", "[Robit-LEGACY] hi", "\n[Robit-LEGACY] x"] {
        assert!(runtime.submit_message("R1", "m", "u", text).is_none());
    }
    assert!(runtime.submit_message("R1", "m", "u", "hi [Robit] ").is_some());
}

#[test]
fn submit_before_init_is_dropped() {
    let runtime = RobitRuntime::new();
    assert!(!runtime.is_initialized());
    assert!(runtime.submit_message("R1", "m", "u", "hi").is_none());
    assert!(runtime.submit_context_message("R1", "m", "u", "hi", "user").is_none());
}

#[test]
fn second_init_changes_nothing() {
    let mut runtime = started("W", &["R1"]);
    assert!(!runtime.init(scope("V", &["R2"])));
    assert!(runtime.submit_message("R1", "m", "u", "hi").is_some());
    assert!(runtime.submit_message("R2", "m", "u", "hi").is_none());
    assert!(!runtime.init_from_config());
}

#[test]
fn init_from_config_uses_configured_scope() {
    let mut runtime = RobitRuntime::new();
    assert!(runtime.init_from_config());
    let event = runtime
        .submit_message("!KHZpGbrVPoZqDtAkAg:matrix.org", "m", "u", "hi")
        .expect("configured room");
    assert_eq!(message(&event).workspace_id, "!jiykcEdlcruEoeQPcG:matrix.org");
    runtime.shutdown();
}

#[test]
fn context_message_is_trimmed_and_marked() {
    let runtime = started("W", &["R1"]);
    let event = runtime
        .submit_context_message("R1", "m7", "u2", "  earlier words \n", "assistant")
        .expect("accepted");
    assert_eq!(event.id, "ctx-msg-m7");
    let m = message(&event);
    assert_eq!(m.message_id, "ctx-m7");
    assert_eq!(m.text, "earlier words");
    assert_eq!(m.room_id, "R1");
    assert_eq!(m.sender_id, "u2");
    assert!(m.metadata.context_only);
    assert_eq!(m.metadata.role.as_deref(), Some("assistant"));
    assert_eq!(m.metadata.source, "robrix");
}

#[test]
fn context_message_filters() {
    let runtime = started("W", &["R1"]);
    assert!(runtime.submit_context_message("R1", "m", "u", "   ", "user").is_none());
    assert!(runtime.submit_context_message("R1", "m", "u", "", "user").is_none());
    assert!(runtime.submit_context_message("R2", "m", "u", "hi", "user").is_none());
    assert!(runtime.submit_context_message("R1", "m", "u", "[Robit] old reply", "assistant").is_some());
}

#[test]
fn room_ready_after_mark() {
    let mut runtime = started("W", &["R1"]);
    assert!(!runtime.room_ready("R1"));
    runtime.mark_room_ready("R1");
    assert!(runtime.room_ready("R1"));
    assert!(!runtime.room_ready("R2"));
    runtime.mark_room_ready("R1");
    assert!(runtime.room_ready("R1"));
    assert!(!runtime.room_ready("R2"));
}

#[test]
fn context_loaded_after_mark() {
    let mut runtime = started("W", &["R1"]);
    assert!(!runtime.context_loaded("R1"));
    runtime.mark_context_loaded("R1");
    runtime.mark_context_loaded("R1");
    assert!(runtime.context_loaded("R1"));
    assert!(!runtime.context_loaded("R2"));
    assert!(!runtime.room_ready("R1"));
}

#[test]
fn marks_before_init_do_nothing() {
    let mut runtime = RobitRuntime::new();
    runtime.mark_room_ready("R1");
    runtime.mark_context_loaded("R1");
    assert!(!runtime.room_ready("R1"));
    assert!(!runtime.context_loaded("R1"));
}

#[test]
fn context_window_is_fifty() {
    assert_eq!(context_window_size(), 50);
    assert_eq!(ROBIT_CONTEXT_WINDOW, 50);
}

// Dispatch.

#[test]
fn dispatch_tags_error_response() {
    let out = dispatch_response(response_event("!room:example.org", "error", "x", "$event1"))
        .expect("valid room");
    assert_eq!(out.room_id, "!room:example.org");
    assert_eq!(out.text, "[Robit] [error] x");
    assert_eq!(out.reply_to.as_deref(), Some("$event1"));
}

#[test]
fn dispatch_passes_prefixed_text_through() {
    let out = dispatch_response(response_event("!room:example.org", "error", "[Robit] done", "$e"))
        .expect("valid room");
    assert_eq!(out.text, "[Robit] done");
}

#[test]
fn dispatch_drops_invalid_room() {
    assert!(dispatch_response(response_event("room:example.org", "error", "x", "$e")).is_none());
    assert!(dispatch_response(response_event("", "error", "x", "$e")).is_none());
    assert!(dispatch_response(response_event("!a\0b:example.org", "error", "x", "$e")).is_none());
    let long = format!("!{}", "a".repeat(255));
    assert!(dispatch_response(response_event(&long, "error", "x", "$e")).is_none());
}

#[test]
fn dispatch_without_valid_reply_target_sends_flat() {
    let out = dispatch_response(response_event("!r:example.org", "action_result", "ok", "not-an-event"))
        .expect("valid room");
    assert_eq!(out.text, "[Robit] [result] ok");
    assert_eq!(out.reply_to, None);
    let out = dispatch_response(response_event("!r:example.org", "need_input", "?", "")).unwrap();
    assert_eq!(out.text, "[Robit] [need] ?");
    assert_eq!(out.reply_to, None);
}

#[test]
fn dispatch_ignores_non_responses() {
    let runtime = started("W", &["!r:example.org"]);
    let event = runtime.submit_message("!r:example.org", "m", "u", "hi").unwrap();
    assert!(dispatch_response(event).is_none());
}

#[test]
fn build_outgoing_follows_its_flags() {
    let payload = ResponsePayload {
        room_id: "anything".to_string(),
        kind: "approval_request".to_string(),
        text: "may I?".to_string(),
        in_reply_to: "whatever".to_string(),
    };
    assert!(build_outgoing(&payload, false, true).is_none());
    let out = build_outgoing(&payload, true, true).unwrap();
    assert_eq!(out.text, "[Robit] [approval] may I?");
    assert_eq!(out.room_id, "anything");
    assert_eq!(out.reply_to.as_deref(), Some("whatever"));
    assert_eq!(build_outgoing(&payload, true, false).unwrap().reply_to, None);
}

// Backend selection.

#[test]
fn provider_names_map_to_providers() {
    assert_eq!(provider_from_name("openai"), Some(AiProvider::OpenAI));
    assert_eq!(provider_from_name("chatgpt"), Some(AiProvider::OpenAI));
    assert_eq!(provider_from_name("deepseek"), Some(AiProvider::DeepSeek));
    assert_eq!(provider_from_name("DeepSeek"), None);
    assert_eq!(provider_from_name("mistral"), None);
}

#[test]
fn local_backend_names() {
    assert!(is_local_backend("omnix-mlx"));
    assert!(is_local_backend("omnix"));
    assert!(is_local_backend("mlx"));
    assert!(!is_local_backend("http"));
    assert!(!is_local_backend("MLX"));
}

#[test]
fn remote_backend_normalises_provider_case() {
    let b = select_remote_backend(&settings("http", "  DeepSeek ", " deepseek-chat ", " k ", ""))
        .expect("enabled");
    assert_eq!(b.provider, AiProvider::DeepSeek);
    assert_eq!(b.model, "deepseek-chat");
    assert_eq!(b.api_key, "k");
    assert_eq!(b.base_url, None);
    let b = select_remote_backend(&settings("http", "ChatGPT", "m", "k", "")).unwrap();
    assert_eq!(b.provider, AiProvider::OpenAI);
}

#[test]
fn remote_backend_disabled_by_configuration() {
    assert_eq!(
        select_remote_backend(&settings("http", "openai", "  ", "k", "")),
        Err(BackendDisabled::EmptyModel)
    );
    assert_eq!(
        select_remote_backend(&settings("http", "openai", "m", "", "")),
        Err(BackendDisabled::EmptyApiKey)
    );
    assert_eq!(
        select_remote_backend(&settings("http", " Mistral ", "m", "k", "")),
        Err(BackendDisabled::UnknownProvider("mistral".to_string()))
    );
}

#[test]
fn local_backend_selection() {
    let s = settings("omnix-mlx", "deepseek", "m", "k", " /models/qwen ");
    assert_eq!(select_local_backend(&s, false), Err(LocalUnavailable::NotCompiledIn));
    let b = select_local_backend(&s, true).unwrap();
    assert_eq!(b.model_dir, "/models/qwen");
    assert_eq!(b.max_tokens, 128);
    assert_eq!(b.label, "omnix-mlx:qwen3@/models/qwen");
    let empty = settings("mlx", "deepseek", "m", "k", "  ");
    assert_eq!(select_local_backend(&empty, true), Err(LocalUnavailable::EmptyModelDir));
}

#[test]
fn backend_family_follows_backend_name() {
    let s = settings(" OMNIX-MLX ", "deepseek", "deepseek-chat", "k", "/m");
    assert!(matches!(select_backend(&s, true), BackendChoice::Local(_)));
    assert_eq!(
        select_backend(&s, false),
        BackendChoice::LocalUnavailable(LocalUnavailable::NotCompiledIn)
    );
    let s = settings("http", "deepseek", "deepseek-chat", "k", "/m");
    assert!(matches!(select_backend(&s, true), BackendChoice::Remote(_)));
    let s = settings("http", "deepseek", "deepseek-chat", "", "/m");
    assert_eq!(select_backend(&s, true), BackendChoice::Disabled(BackendDisabled::EmptyApiKey));
    assert!(matches!(
        backend_for(&s, true, "mlx", "deepseek"),
        BackendChoice::Local(_)
    ));
}

// Worker.

#[test]
fn scope_event_lists_scope_rooms() {
    let s = scope("W", &["a", "b"]);
    let event = build_scope_event(&s);
    assert_eq!(event.id, "scope-boot");
    assert_eq!(event.schema_version, "robit.v1");
    let ProtocolBody::RoomScope(p) = event.body else { panic!("expected a scope event") };
    assert_eq!(p.mode, Some(ConfigMode::Replace));
    assert_eq!(p.workspaces.len(), 1);
    assert_eq!(p.workspaces[0].workspace_id, "W");
    assert_eq!(p.workspaces[0].name, None);
    let mut rooms: Vec<String> = p.workspaces[0].rooms.iter().map(|r| r.room_id.clone()).collect();
    rooms.sort();
    assert_eq!(rooms, vec!["a".to_string(), "b".to_string()]);
    assert!(p.workspaces[0].rooms.iter().all(|r| r.name.is_none()));
}

#[test]
fn worker_lifecycle() {
    let s = scope("W", &["R1"]);
    let (phase, action) = worker_step(WorkerPhase::Starting, WorkerInput::EngineStarted, &s);
    assert_eq!(phase, WorkerPhase::Ready);
    assert!(matches!(action, WorkerAction::Bootstrap(ref e) if e.id == "scope-boot"));
    let runtime = started("W", &["R1"]);
    let event = runtime.submit_message("R1", "m1", "u1", "hello").unwrap();
    let (phase, action) = worker_step(WorkerPhase::Ready, WorkerInput::Received(event.clone()), &s);
    assert_eq!(phase, WorkerPhase::Ready);
    assert_eq!(action, WorkerAction::Handle(event));
    let (phase, action) = worker_step(WorkerPhase::Ready, WorkerInput::ChannelClosed, &s);
    assert_eq!(phase, WorkerPhase::Stopped);
    assert_eq!(action, WorkerAction::Exit);
}

#[test]
fn worker_stops_when_engine_fails() {
    let s = scope("W", &["R1"]);
    let (phase, action) = worker_step(WorkerPhase::Starting, WorkerInput::EngineFailed, &s);
    assert_eq!(phase, WorkerPhase::Stopped);
    assert_eq!(action, WorkerAction::Exit);
    let (phase, action) = worker_step(WorkerPhase::Stopped, WorkerInput::EngineStarted, &s);
    assert_eq!(phase, WorkerPhase::Stopped);
    assert_eq!(action, WorkerAction::Exit);
}

// The disabled build.

#[test]
fn disabled_bridge_does_nothing() {
    disabled::init_from_config();
    disabled::init_from_env();
    disabled::init(scope("W", &["R1"]));
    disabled::shutdown();
    disabled::mark_room_ready("R1");
    disabled::mark_context_loaded("R1");
    assert!(!disabled::is_robit_message("[Robit] x"));
    assert!(!disabled::room_ready("R1"));
    assert!(!disabled::context_loaded("R1"));
    assert_eq!(disabled::context_window_size(), 0);
    assert!(disabled::submit_message("R1", "m", "u", "hi").is_none());
    assert!(disabled::submit_context_message("R1", "m", "u", "hi", "user").is_none());
    assert_eq!(disabled::strip_robit_prefix("[Robit] x"), "[Robit] x");
}
