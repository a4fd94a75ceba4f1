use paw::proto::{
    ContentDeltaMsg, MessageFormat, MessageReceivedMsg, StreamEndMsg, StreamStartMsg, ToolEndMsg,
    ToolStartMsg, PROTOCOL_VERSION,
};
use paw::sync::engine::{ConversationSyncCursor, MessageSyncOutcome, SyncEngine};
use paw::sync::service::{
    load_cursors, message_record_from, sync_requests, ConversationRecord, CursorLoadError,
    ThreadCursorRecord,
};
use paw::sync::streaming::StreamingState;

fn id() -> u128 {
    uuid::Uuid::new_v4().as_u128()
}

fn message(conversation_id: u128, thread_id: Option<u128>, seq: i64) -> MessageReceivedMsg {
    MessageReceivedMsg {
        v: PROTOCOL_VERSION,
        id: id(),
        conversation_id,
        thread_id,
        sender_id: id(),
        content: format!("msg-{seq}"),
        format: MessageFormat::Markdown,
        seq,
        created_at_ms: 1_700_000_000_000,
    }
}

#[test]
fn sync_all_uses_current_cursors() {
    let conversation_id = id();
    let engine = SyncEngine::new(vec![ConversationSyncCursor { conversation_id, last_seq: 7 }]);

    let messages = engine.sync_all_conversations();
    assert_eq!(messages.len(), 1);
    assert_eq!(messages[0].conversation_id, conversation_id);
    assert_eq!(messages[0].thread_id, None);
    assert_eq!(messages[0].last_seq, 7);
}

#[test]
fn ingest_message_matches_flutter_gap_detection() {
    let conversation_id = id();
    let mut engine = SyncEngine::new(vec![ConversationSyncCursor { conversation_id, last_seq: 2 }]);

    assert_eq!(
        engine.ingest_message(&message(conversation_id, None, 2)),
        MessageSyncOutcome::DuplicateOrStale { ack_seq: 2 }
    );
    assert_eq!(
        engine.ingest_message(&message(conversation_id, None, 4)),
        MessageSyncOutcome::GapDetected { request_from_seq: 2 }
    );
    assert_eq!(
        engine.ingest_message(&message(conversation_id, None, 3)),
        MessageSyncOutcome::Applied { ack_seq: 3 }
    );
}

#[test]
fn gap_fill_updates_cursor_to_highest_seq() {
    let conversation_id = id();
    let mut engine = SyncEngine::default();

    engine.apply_gap_fill(&vec![
        message(conversation_id, None, 1),
        message(conversation_id, None, 2),
        message(conversation_id, None, 5),
    ]);

    assert_eq!(engine.last_seq(conversation_id), 5);
}

#[test]
fn recovery_tracking_marks_gap_and_clears_after_response() {
    let conversation_id = id();
    let mut engine = SyncEngine::new(vec![ConversationSyncCursor { conversation_id, last_seq: 2 }]);

    assert_eq!(
        engine.ingest_message(&message(conversation_id, None, 4)),
        MessageSyncOutcome::GapDetected { request_from_seq: 2 }
    );
    engine.mark_recovery_pending(conversation_id, 2);
    assert_eq!(engine.pending_recoveries().len(), 1);

    engine.clear_recoveries(&vec![ConversationSyncCursor { conversation_id, last_seq: 2 }]);
    assert!(engine.pending_recoveries().is_empty());
}

#[test]
fn thread_scopes_track_highest_seen_while_gap_detection_uses_conversation_head() {
    let conversation_id = id();
    let thread_id = id();
    let mut engine = SyncEngine::default();

    assert_eq!(
        engine.ingest_message(&message(conversation_id, Some(thread_id), 1)),
        MessageSyncOutcome::Applied { ack_seq: 1 }
    );
    assert_eq!(engine.last_conversation_seq(conversation_id), 1);
    assert_eq!(engine.last_thread_seq(conversation_id, thread_id), 1);

    assert_eq!(
        engine.ingest_message(&message(conversation_id, None, 2)),
        MessageSyncOutcome::Applied { ack_seq: 2 }
    );
    assert_eq!(
        engine.ingest_message(&message(conversation_id, Some(thread_id), 3)),
        MessageSyncOutcome::Applied { ack_seq: 3 }
    );

    assert_eq!(engine.last_conversation_seq(conversation_id), 3);
    assert_eq!(engine.last_thread_seq(conversation_id, thread_id), 3);
}

#[test]
fn sync_all_scopes_includes_threads_with_scope_last_seq() {
    let conversation_id = id();
    let thread_id = id();
    let mut engine = SyncEngine::new(vec![ConversationSyncCursor { conversation_id, last_seq: 4 }]);
    engine.upsert_thread_cursor(conversation_id, thread_id, 9);

    let messages = engine.sync_all_scopes();
    assert_eq!(messages.len(), 2);
    assert!(messages
        .iter()
        .any(|m| m.conversation_id == conversation_id && m.thread_id.is_none() && m.last_seq == 4));
    assert!(messages.iter().any(|m| m.conversation_id == conversation_id
        && m.thread_id == Some(thread_id)
        && m.last_seq == 9));
}

#[test]
fn thread_recoveries_are_tracked_separately_from_main_timeline() {
    let conversation_id = id();
    let thread_id = id();
    let mut engine = SyncEngine::default();

    engine.mark_recovery_pending(conversation_id, 4);
    engine.mark_thread_recovery_pending(conversation_id, thread_id, 7);

    assert_eq!(
        engine.pending_recoveries(),
        vec![ConversationSyncCursor { conversation_id, last_seq: 4 }]
    );
    assert!(engine.pending_scope_recoveries().iter().any(|scope| {
        scope.conversation_id == conversation_id
            && scope.thread_id == Some(thread_id)
            && scope.last_seq == 7
    }));
}

#[test]
fn interleaved_thread_message_detects_gap_from_conversation_head_not_thread_cursor() {
    let conversation_id = id();
    let thread_id = id();
    let mut engine = SyncEngine::default();

    assert_eq!(
        engine.ingest_message(&message(conversation_id, Some(thread_id), 1)),
        MessageSyncOutcome::Applied { ack_seq: 1 }
    );
    assert_eq!(
        engine.ingest_message(&message(conversation_id, Some(thread_id), 3)),
        MessageSyncOutcome::GapDetected { request_from_seq: 1 }
    );
    assert_eq!(
        engine.ingest_message(&message(conversation_id, None, 2)),
        MessageSyncOutcome::Applied { ack_seq: 2 }
    );
    assert_eq!(
        engine.ingest_message(&message(conversation_id, Some(thread_id), 3)),
        MessageSyncOutcome::Applied { ack_seq: 3 }
    );
}

#[test]
fn negative_cursor_counts_as_zero() {
    let conversation_id = id();
    let engine = SyncEngine::new(vec![ConversationSyncCursor { conversation_id, last_seq: -5 }]);
    assert_eq!(engine.last_seq(conversation_id), 0);
    assert_eq!(engine.request_sync_message(conversation_id).last_seq, 0);
}

#[test]
fn streaming_flow_accumulates_content_and_tool_history() {
    let conversation_id = id();
    let agent_id = id();
    let stream_id = id();
    let mut state = StreamingState::default();

    state.handle_stream_start(&StreamStartMsg {
        v: PROTOCOL_VERSION,
        conversation_id,
        thread_id: None,
        agent_id,
        stream_id,
    });
    assert!(state.handle_content_delta(&ContentDeltaMsg {
        v: PROTOCOL_VERSION,
        stream_id,
        delta: "Hello".into(),
    }));
    assert!(state.handle_tool_start(&ToolStartMsg {
        v: PROTOCOL_VERSION,
        stream_id,
        tool: "search".into(),
        label: "Searching".into(),
    }));
    assert!(state.handle_tool_end(&ToolEndMsg {
        v: PROTOCOL_VERSION,
        stream_id,
        tool: "search".into(),
    }));
    assert!(state.handle_content_delta(&ContentDeltaMsg {
        v: PROTOCOL_VERSION,
        stream_id,
        delta: " world".into(),
    }));

    let message = state
        .handle_stream_end(
            &StreamEndMsg { v: PROTOCOL_VERSION, stream_id, tokens: 12, duration_ms: 400 },
            8,
            1_700_000_000_000,
        )
        .expect("stream should finalize");

    assert_eq!(message.conversation_id, conversation_id);
    assert_eq!(message.sender_id, agent_id);
    assert_eq!(message.content, "Hello world");
    assert_eq!(message.seq, 8);
    assert_eq!(message.tool_calls.len(), 1);
    assert_eq!(message.tool_calls[0].tool, "search");
    assert!(state.active_session(stream_id).is_none());
}

#[test]
fn unknown_stream_frames_are_ignored() {
    let mut state = StreamingState::new();
    assert!(!state.handle_content_delta(&ContentDeltaMsg {
        v: PROTOCOL_VERSION,
        stream_id: 9,
        delta: "x".into(),
    }));
    assert!(state
        .handle_stream_end(
            &StreamEndMsg { v: PROTOCOL_VERSION, stream_id: 9, tokens: 0, duration_ms: 0 },
            1,
            0,
        )
        .is_none());
    assert_eq!(state.clear(), 0);
}

#[test]
fn tool_end_for_another_tool_keeps_current_tool_open() {
    let stream_id = 7;
    let mut state = StreamingState::new();
    state.handle_stream_start(&StreamStartMsg {
        v: PROTOCOL_VERSION,
        conversation_id: 1,
        thread_id: None,
        agent_id: 2,
        stream_id,
    });
    state.handle_tool_start(&ToolStartMsg {
        v: PROTOCOL_VERSION,
        stream_id,
        tool: "search".into(),
        label: "Searching".into(),
    });
    assert!(state.handle_tool_end(&ToolEndMsg { v: PROTOCOL_VERSION, stream_id, tool: "other".into() }));
    assert!(!state.active_session(stream_id).unwrap().tool_complete);
    assert_eq!(state.active_sessions().len(), 1);
    assert_eq!(state.clear(), 1);
    assert!(state.active_sessions().is_empty());
}

#[test]
fn sync_requests_follow_conversation_sort_order() {
    // The store lists conversations newest first; requests keep that order.
    let heads = vec![("conv-2".to_string(), 0i64), ("conv-1".to_string(), 0i64)];
    let requests = sync_requests(&heads, &vec![]);
    assert_eq!(requests[0].conversation_id, "conv-2");
    assert!(requests[0].thread_id.is_none());
    assert_eq!(requests[1].conversation_id, "conv-1");
    assert!(requests[1].thread_id.is_none());
}

#[test]
fn sync_requests_include_thread_cursors() {
    let heads = vec![("conv-1".to_string(), 0i64)];
    let threads = vec![ThreadCursorRecord {
        conversation_id: "conv-1".into(),
        thread_id: "thread-1".into(),
        last_seq: 3,
    }];
    let requests = sync_requests(&heads, &threads);

    assert!(requests.iter().any(|request| {
        request.conversation_id == "conv-1" && request.thread_id.is_none() && request.last_seq == 0
    }));
    assert!(requests.iter().any(|request| {
        request.conversation_id == "conv-1"
            && request.thread_id.as_deref() == Some("thread-1")
            && request.last_seq == 3
    }));
}

#[test]
fn received_message_record_uses_text_ids() {
    let msg = MessageReceivedMsg {
        v: PROTOCOL_VERSION,
        id: 0x0123456789abcdef0123456789abcdef,
        conversation_id: 1,
        thread_id: Some(2),
        sender_id: 3,
        content: "hi".into(),
        format: MessageFormat::Plain,
        seq: 9,
        created_at_ms: 42,
    };
    let record = message_record_from(&msg);
    assert_eq!(record.id, "01234567-89ab-cdef-0123-456789abcdef");
    assert_eq!(record.conversation_id, "00000000-0000-0000-0000-000000000001");
    assert_eq!(record.thread_id.as_deref(), Some("00000000-0000-0000-0000-000000000002"));
    assert_eq!(record.format, "plain");
    assert_eq!(record.seq, 9);
    assert!(!record.is_me && !record.is_agent);
}

fn conversation(id: &str, last_seq: i64) -> ConversationRecord {
    ConversationRecord {
        id: id.into(),
        name: "c".into(),
        avatar_url: None,
        last_seq,
        unread_count: 0,
        updated_at_ms: 0,
    }
}

#[test]
fn load_cursors_parses_ids_and_reports_the_first_bad_one() {
    let good = uuid::Uuid::new_v4();
    let cursors = load_cursors(&vec![conversation(&good.to_string(), 4)]).unwrap();
    assert_eq!(cursors, vec![ConversationSyncCursor { conversation_id: good.as_u128(), last_seq: 4 }]);

    let err = load_cursors(&vec![
        conversation(&good.to_string(), 4),
        conversation("conv-1", 1),
        conversation("conv-2", 1),
    ])
    .unwrap_err();
    assert_eq!(err, CursorLoadError::InvalidConversationId("conv-1".into()));
}

#[test]
fn recovery_marks_replace_and_clear() {
    let mut engine = SyncEngine::new(vec![]);
    engine.mark_recovery_pending(7, -3);
    engine.mark_thread_recovery_pending(7, 9, 5);
    assert_eq!(
        engine.pending_recoveries(),
        vec![ConversationSyncCursor { conversation_id: 7, last_seq: 0 }]
    );
    engine.mark_recovery_pending(7, 4);
    assert_eq!(
        engine.pending_recoveries(),
        vec![ConversationSyncCursor { conversation_id: 7, last_seq: 4 }]
    );
    engine.clear_recoveries(&vec![ConversationSyncCursor { conversation_id: 7, last_seq: 0 }]);
    assert!(engine.pending_recoveries().is_empty());
    assert_eq!(engine.pending_scope_recoveries().len(), 1);
    engine.mark_recovery_pending(8, 1);
    engine.replace_cursors(vec![ConversationSyncCursor { conversation_id: 8, last_seq: 3 }]);
    assert!(engine.pending_recoveries().is_empty());
    assert!(engine.pending_scope_recoveries().is_empty());
}
