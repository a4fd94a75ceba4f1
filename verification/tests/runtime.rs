use paw::auth::state::{AuthUserProfile, SessionEvent, SessionExpiryReason, StoredTokens};
use paw::events::{ConnectionSnapshot, ConnectionStateView, CoreEvent, RecoveryCursorView};
use paw::proto::{
    ContentDeltaMsg, ConvSyncState, DeviceSyncResponse, HelloOkMsg, MessageFormat,
    MessageReceivedMsg, ServerMessage, StreamEndMsg, StreamStartMsg, ToolEndMsg, ToolStartMsg,
    PROTOCOL_VERSION,
};
use paw::runtime::{
    saturating_u32, saturating_u64, CoreRuntime, CoreRuntimeError, RuntimeBootstrapReport,
    RuntimeEffect, RuntimeEffectDomain, RuntimeInitStep, StoredSyncState,
};
use paw::sync::service::{ConversationRecord, MessageRecord, SyncRequest};
use paw::sync::streaming::{FinalizedStreamMessage, StreamingSession};
use paw::ws::reconnect::ReconnectionManager;
use paw::ws::service::{WsConnectionState, WsService};

fn conversation(id: u128, last_seq: i64) -> ConversationRecord {
    ConversationRecord {
        id: uuid::Uuid::from_u128(id).to_string(),
        name: "hello".into(),
        avatar_url: None,
        last_seq,
        unread_count: 0,
        updated_at_ms: 200_000,
    }
}

fn runtime_with(conversations: &[ConversationRecord]) -> CoreRuntime {
    let ws = WsService::new(
        "https://paw.example/api".to_string(),
        ReconnectionManager::new(3, vec![1_000]),
    );
    CoreRuntime::new(&conversations.to_vec(), ws).unwrap()
}

fn empty_store() -> StoredSyncState {
    StoredSyncState { conversations: vec![], conversation_heads: vec![], thread_cursors: vec![] }
}

fn id() -> u128 {
    uuid::Uuid::new_v4().as_u128()
}

#[test]
fn bootstrap_enforces_db_tokens_session_then_ws_order() {
    let mut runtime = runtime_with(&[]);
    let uri = runtime.connect_with_access_token("access-token".into()).unwrap();
    let report = RuntimeBootstrapReport::completed(
        StoredTokens::new("access-token".into(), "refresh-token".into()),
        AuthUserProfile { username: "worker".into(), discoverable_by_phone: true },
        &uri,
    );

    assert_eq!(
        report.steps,
        vec![
            RuntimeInitStep::DatabaseOpened,
            RuntimeInitStep::TokensRestored,
            RuntimeInitStep::SessionValidated,
            RuntimeInitStep::WsConnected,
        ]
    );
    assert_eq!(report.connected_endpoint.as_deref(), Some("wss://paw.example/ws"));
    assert_eq!(runtime.ws_service().connection_state(), WsConnectionState::Connecting);
    assert_eq!(uri, "wss://paw.example/ws?token=access-token");
}

#[test]
fn bootstrap_stops_when_no_tokens_are_available() {
    let report = RuntimeBootstrapReport::skipped();
    assert_eq!(
        report.steps,
        vec![RuntimeInitStep::DatabaseOpened, RuntimeInitStep::BootstrapSkippedNoStoredTokens]
    );
    assert!(report.tokens.is_none());
    assert!(report.connected_endpoint.is_none());
}

#[test]
fn hello_ok_reloads_cursors_and_requests_sync() {
    let conversation_id = id();
    let stored = StoredSyncState {
        conversations: vec![conversation(conversation_id, 4)],
        conversation_heads: vec![(uuid::Uuid::from_u128(conversation_id).to_string(), 0)],
        thread_cursors: vec![],
    };
    let mut runtime = runtime_with(&stored.conversations);

    let effects = runtime
        .handle_server_message(
            &ServerMessage::HelloOk(HelloOkMsg { v: PROTOCOL_VERSION, user_id: id(), server_time_ms: 0 }),
            &stored,
        )
        .unwrap();

    assert_eq!(
        effects,
        vec![
            RuntimeEffect::ConnectionStateChanged(ConnectionSnapshot {
                state: ConnectionStateView::Connected,
                attempts: 0,
                pending_reconnect_delay_ms: None,
                pending_reconnect_endpoint: None,
            }),
            RuntimeEffect::SyncRequested(SyncRequest {
                conversation_id: uuid::Uuid::from_u128(conversation_id).to_string(),
                thread_id: None,
                last_seq: 0,
            }),
        ]
    );
    assert_eq!(runtime.ws_service().connection_state(), WsConnectionState::Connected);
}

#[test]
fn hello_ok_reports_a_stored_id_that_is_not_a_uuid() {
    let mut runtime = runtime_with(&[]);
    let stored = StoredSyncState {
        conversations: vec![ConversationRecord {
            id: "conv-1".into(),
            name: "x".into(),
            avatar_url: None,
            last_seq: 0,
            unread_count: 0,
            updated_at_ms: 0,
        }],
        conversation_heads: vec![],
        thread_cursors: vec![],
    };
    let err = runtime
        .handle_server_message(
            &ServerMessage::HelloOk(HelloOkMsg { v: PROTOCOL_VERSION, user_id: 1, server_time_ms: 0 }),
            &stored,
        )
        .unwrap_err();
    assert_eq!(err, CoreRuntimeError::InvalidConversationId("conv-1".into()));
    assert_eq!(runtime.ws_service().connection_state(), WsConnectionState::Connected);
}

fn received(conversation_id: u128, content: &str, seq: i64) -> MessageReceivedMsg {
    MessageReceivedMsg {
        v: PROTOCOL_VERSION,
        id: id(),
        conversation_id,
        thread_id: None,
        sender_id: id(),
        content: content.into(),
        format: MessageFormat::Markdown,
        seq,
        created_at_ms: 1_000,
    }
}

#[test]
fn message_ingest_emits_ack_gap_and_persist_effects() {
    let conversation_id = id();
    let mut runtime = runtime_with(&[conversation(conversation_id, 2)]);
    let store = empty_store();

    let stale = received(conversation_id, "stale", 2);
    let gap = MessageReceivedMsg { seq: 4, ..stale.clone() };
    let applied = MessageReceivedMsg { id: id(), content: "fresh".into(), seq: 3, ..stale.clone() };

    assert_eq!(
        runtime.handle_server_message(&ServerMessage::MessageReceived(stale), &store).unwrap(),
        vec![
            RuntimeEffect::DuplicateMessage { conversation_id, received_seq: 2, last_seq: 2 },
            RuntimeEffect::AckRequested { conversation_id, last_seq: 2 },
        ]
    );
    assert_eq!(
        runtime.handle_server_message(&ServerMessage::MessageReceived(gap), &store).unwrap(),
        vec![
            RuntimeEffect::GapDetected {
                conversation_id,
                expected_seq: 3,
                received_seq: 4,
                request_from_seq: 2,
            },
            RuntimeEffect::SyncRequested(SyncRequest {
                conversation_id: uuid::Uuid::from_u128(conversation_id).to_string(),
                thread_id: None,
                last_seq: 2,
            }),
        ]
    );
    assert_eq!(
        runtime.snapshot().pending_recoveries,
        vec![RecoveryCursorView {
            conversation_id: uuid::Uuid::from_u128(conversation_id).to_string(),
            request_from_seq: 2,
        }]
    );

    let effects = runtime
        .handle_server_message(&ServerMessage::MessageReceived(applied), &store)
        .unwrap();
    assert!(matches!(
        &effects[..],
        [
            RuntimeEffect::MessagePersisted(MessageRecord { content, seq, .. }),
            RuntimeEffect::AckRequested { conversation_id: ack_id, last_seq }
        ] if content == "fresh" && *seq == 3 && *ack_id == conversation_id && *last_seq == 3
    ));
    assert!(runtime.snapshot().pending_recoveries.is_empty());
}

#[test]
fn device_sync_gap_fill_persists_messages_and_acks_highest_seq() {
    let conversation_id = id();
    let mut runtime = runtime_with(&[conversation(conversation_id, 0)]);

    let effects = runtime
        .handle_server_message(
            &ServerMessage::DeviceSyncResponse(DeviceSyncResponse {
                v: PROTOCOL_VERSION,
                conversations: vec![ConvSyncState { conversation_id, last_seq: 0, threads: vec![] }],
                messages: vec![
                    received(conversation_id, "one", 1),
                    received(conversation_id, "three", 3),
                    received(conversation_id, "two", 2),
                ],
            }),
            &empty_store(),
        )
        .unwrap();

    assert!(runtime.snapshot().pending_recoveries.is_empty());
    assert!(effects.iter().any(|effect| matches!(
        effect,
        RuntimeEffect::DeviceSyncBatchProcessed { message_count: 3, conversation_count: 1, conversation_ids }
            if conversation_ids == &vec![conversation_id]
    )));
    assert_eq!(effects.last(), Some(&RuntimeEffect::AckRequested { conversation_id, last_seq: 3 }));
    assert!(effects.iter().any(|effect| matches!(
        effect,
        RuntimeEffect::DeviceSyncApplied { conversation_id: c, applied_count: 3, highest_seq: 3 }
            if *c == conversation_id
    )));
    assert_eq!(
        effects.iter().filter(|e| matches!(e, RuntimeEffect::MessagePersisted(_))).count(),
        3
    );
    assert_eq!(runtime.snapshot().cursors[0].last_seq, 3);
}

#[test]
fn device_sync_orders_conversations_by_id() {
    let mut runtime = runtime_with(&[]);
    let effects = runtime
        .handle_server_message(
            &ServerMessage::DeviceSyncResponse(DeviceSyncResponse {
                v: PROTOCOL_VERSION,
                conversations: vec![],
                messages: vec![received(9, "a", 1), received(2, "b", 5), received(9, "c", 4)],
            }),
            &empty_store(),
        )
        .unwrap();
    assert_eq!(effects.len(), 3 + 1 + 2 + 2);
    assert_eq!(
        effects[4..].to_vec(),
        vec![
            RuntimeEffect::DeviceSyncApplied { conversation_id: 2, applied_count: 1, highest_seq: 5 },
            RuntimeEffect::DeviceSyncApplied { conversation_id: 9, applied_count: 2, highest_seq: 4 },
            RuntimeEffect::AckRequested { conversation_id: 2, last_seq: 5 },
            RuntimeEffect::AckRequested { conversation_id: 9, last_seq: 4 },
        ]
    );
}

#[test]
fn empty_device_sync_response_still_surfaces_batch_completion() {
    let mut runtime = runtime_with(&[]);
    let conversation_id = id();
    runtime.mark_recovery_pending(conversation_id, 4);

    let effects = runtime
        .handle_server_message(
            &ServerMessage::DeviceSyncResponse(DeviceSyncResponse {
                v: PROTOCOL_VERSION,
                conversations: vec![ConvSyncState { conversation_id, last_seq: 4, threads: vec![] }],
                messages: vec![],
            }),
            &empty_store(),
        )
        .unwrap();

    assert_eq!(
        effects,
        vec![RuntimeEffect::DeviceSyncBatchProcessed {
            message_count: 0,
            conversation_count: 1,
            conversation_ids: vec![conversation_id],
        }]
    );
    assert!(runtime.snapshot().pending_recoveries.is_empty());
}

#[test]
fn streaming_effects_track_updates_and_finalization() {
    let conversation_id = id();
    let mut runtime = runtime_with(&[conversation(conversation_id, 7)]);
    let store = empty_store();
    let stream_id = id();
    let agent_id = id();

    let start = runtime
        .handle_server_message(
            &ServerMessage::StreamStart(StreamStartMsg {
                v: PROTOCOL_VERSION,
                conversation_id,
                thread_id: None,
                agent_id,
                stream_id,
            }),
            &store,
        )
        .unwrap();
    assert!(matches!(
        &start[..],
        [RuntimeEffect::StreamUpdated(StreamingSession { content, .. })] if content.is_empty()
    ));

    runtime
        .handle_server_message(
            &ServerMessage::ContentDelta(ContentDeltaMsg { v: PROTOCOL_VERSION, stream_id, delta: "Hello".into() }),
            &store,
        )
        .unwrap();
    runtime
        .handle_server_message(
            &ServerMessage::ToolStart(ToolStartMsg {
                v: PROTOCOL_VERSION,
                stream_id,
                tool: "search".into(),
                label: "Searching".into(),
            }),
            &store,
        )
        .unwrap();
    runtime
        .handle_server_message(
            &ServerMessage::ToolEnd(ToolEndMsg { v: PROTOCOL_VERSION, stream_id, tool: "search".into() }),
            &store,
        )
        .unwrap();
    runtime
        .handle_server_message(
            &ServerMessage::ContentDelta(ContentDeltaMsg { v: PROTOCOL_VERSION, stream_id, delta: " world".into() }),
            &store,
        )
        .unwrap();

    let end = runtime
        .handle_server_message_at(
            &ServerMessage::StreamEnd(StreamEndMsg { v: PROTOCOL_VERSION, stream_id, tokens: 12, duration_ms: 250 }),
            &store,
            1_234,
        )
        .unwrap();

    assert!(matches!(
        &end[..],
        [RuntimeEffect::StreamFinalized(FinalizedStreamMessage {
            conversation_id: c,
            sender_id,
            content,
            seq,
            tool_calls,
            created_at_ms,
            ..
        })]
        if *c == conversation_id
            && *sender_id == agent_id
            && content == "Hello world"
            && *seq == 8
            && tool_calls.len() == 1
            && *created_at_ms == 1_234
    ));
}

#[test]
fn repeated_transport_errors_transition_runtime_to_exhausted() {
    let ws = WsService::new(
        "https://paw.example/api".to_string(),
        ReconnectionManager::new(1, vec![1_000]),
    );
    let mut runtime = CoreRuntime::new(&vec![], ws).unwrap();
    runtime.connect_with_access_token("access-token".into()).unwrap();

    let first = runtime.on_transport_error();
    assert!(matches!(
        &first[..],
        [
            RuntimeEffect::ReconnectScheduled { delay_ms: 1_000, attempt: 1, .. },
            RuntimeEffect::ConnectionStateChanged(ConnectionSnapshot {
                state: ConnectionStateView::Retrying,
                ..
            })
        ]
    ));

    let second = runtime.on_transport_error();
    assert!(matches!(
        &second[..],
        [RuntimeEffect::ConnectionStateChanged(ConnectionSnapshot {
            state: ConnectionStateView::Exhausted,
            pending_reconnect_delay_ms: None,
            pending_reconnect_endpoint: None,
            ..
        })]
    ));
}

#[test]
fn reconnect_plan_endpoint_hides_the_token() {
    let mut runtime = runtime_with(&[]);
    runtime.connect_with_access_token("secret-token".into()).unwrap();
    let effects = runtime.on_transport_closed();
    match &effects[0] {
        RuntimeEffect::ReconnectScheduled { endpoint, .. } => {
            assert_eq!(endpoint, "wss://paw.example/ws");
        }
        other => panic!("expected a reconnect plan, got {other:?}"),
    }
}

#[test]
fn session_invalidation_clears_tokens_and_disconnects_runtime() {
    let mut runtime = runtime_with(&[]);
    runtime.connect_with_access_token("access-token".into()).unwrap();

    let effects = runtime.handle_session_event(SessionEvent { reason: SessionExpiryReason::Unauthorized });

    assert_eq!(
        effects,
        vec![
            RuntimeEffect::SessionInvalidated(SessionEvent { reason: SessionExpiryReason::Unauthorized }),
            RuntimeEffect::ConnectionStateChanged(ConnectionSnapshot {
                state: ConnectionStateView::Disconnected,
                attempts: 0,
                pending_reconnect_delay_ms: None,
                pending_reconnect_endpoint: None,
            }),
        ]
    );
    assert_eq!(runtime.ws_service().connection_state(), WsConnectionState::Disconnected);
    assert!(runtime.ws_service().access_token().is_none());
}

#[test]
fn session_invalidation_discards_active_streams_before_notifying_ui() {
    let mut runtime = runtime_with(&[]);
    runtime
        .handle_server_message(
            &ServerMessage::StreamStart(StreamStartMsg {
                v: PROTOCOL_VERSION,
                conversation_id: id(),
                thread_id: None,
                agent_id: id(),
                stream_id: id(),
            }),
            &empty_store(),
        )
        .unwrap();
    assert_eq!(runtime.snapshot().active_streams.len(), 1);

    let effects = runtime.handle_session_event(SessionEvent { reason: SessionExpiryReason::Unauthorized });

    assert_eq!(effects.first(), Some(&RuntimeEffect::ActiveStreamsCleared { count: 1 }));
    assert!(runtime.snapshot().active_streams.is_empty());
}

#[test]
fn session_invalidation_prevents_reconnect_with_stale_in_memory_token() {
    let mut runtime = runtime_with(&[]);
    runtime.connect_with_access_token("access-token".into()).unwrap();
    runtime.handle_session_event(SessionEvent { reason: SessionExpiryReason::Unauthorized });

    let reconnect = runtime.reconnect_with_stored_token().unwrap();
    assert_eq!(reconnect, None);
    assert_eq!(runtime.ws_service().connection_state(), WsConnectionState::Disconnected);
}

#[test]
fn reconnect_with_stored_token_surfaces_attempt_metadata() {
    let mut runtime = runtime_with(&[]);
    runtime.connect_with_access_token("access-token".into()).unwrap();
    let (uri, effects) = runtime.reconnect_with_stored_token().unwrap().expect("stored token reconnect effects");

    assert_eq!(uri, "wss://paw.example/ws?token=access-token");
    assert!(matches!(
        &effects[..],
        [
            RuntimeEffect::ReconnectAttemptStarted { attempt: 0, .. },
            RuntimeEffect::ConnectionStateChanged(ConnectionSnapshot {
                state: ConnectionStateView::Connecting,
                ..
            })
        ]
    ));
}

#[test]
fn disconnect_reports_disconnected_state() {
    let mut runtime = runtime_with(&[]);
    runtime.connect_with_access_token("access-token".into()).unwrap();
    let effect = runtime.disconnect();
    assert!(matches!(
        effect,
        RuntimeEffect::ConnectionStateChanged(ConnectionSnapshot { state: ConnectionStateView::Disconnected, .. })
    ));
    // A manual disconnect plans no reconnect.
    let after = runtime.on_transport_closed();
    assert_eq!(after.len(), 1);
}

#[test]
fn runtime_effect_domain_groups_recovery_events_by_semantics() {
    assert_eq!(
        RuntimeEffect::ReconnectScheduled {
            delay_ms: 1_000,
            endpoint: "wss://paw.example/ws".into(),
            attempt: 1,
        }
        .domain(),
        RuntimeEffectDomain::Connection
    );
    assert_eq!(
        RuntimeEffect::DeviceSyncBatchProcessed {
            message_count: 0,
            conversation_count: 0,
            conversation_ids: vec![],
        }
        .domain(),
        RuntimeEffectDomain::Sync
    );
    assert_eq!(
        RuntimeEffect::SessionInvalidated(SessionEvent { reason: SessionExpiryReason::Unauthorized }).domain(),
        RuntimeEffectDomain::Lifecycle
    );
}

#[test]
fn saturating_conversions_cap_at_the_maximum() {
    assert_eq!(saturating_u32(7), 7);
    assert_eq!(saturating_u32(usize::MAX), u32::MAX);
    assert_eq!(saturating_u64(5), 5);
    assert_eq!(saturating_u64(u128::MAX), u64::MAX);
}

#[test]
fn bootstrap_effects_report_then_connection() {
    let runtime = runtime_with(&[]);
    let effects = runtime.bootstrap_effects(RuntimeBootstrapReport::skipped());
    assert!(matches!(&effects[..], [RuntimeEffect::BootstrapProgress(_), RuntimeEffect::ConnectionStateChanged(_)]));
    match CoreEvent::from(&effects[0]) {
        CoreEvent::BootstrapProgress(view) => {
            assert!(!view.has_tokens);
            assert_eq!(view.steps.len(), 2);
        }
        other => panic!("unexpected {other:?}"),
    }
}
