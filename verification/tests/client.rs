use paw::auth::state::{SessionEvent, SessionExpiryReason};
use paw::crypto::{create_account, decrypt, encrypt, try_decrypt, CIPHERTEXT_OVERHEAD};
use paw::events::{
    ConnectionSnapshot, ConnectionStateView, CoreEvent, FinalizedStreamMessageView,
    SessionExpiryReasonView,
};
use paw::http::{
    check_status, conversation_name, found_or_none, relative_path, search_user_query, ApiError,
    ApiErrorKind, ErrorPayload, MediaAttachment,
};
use paw::proto::MessageFormat;
use paw::runtime::RuntimeEffect;
use paw::search::build_fts5_query;
use paw::sync::streaming::{FinalizedStreamMessage, ToolCallRecord};
use paw::ws::reconnect::ReconnectionManager;
use paw::ws::service::{WsConnectionState, WsService};

#[test]
fn connect_builds_ws_uri_and_sends_connect_frame() {
    let mut service =
        WsService::new("https://paw.example/api".to_string(), ReconnectionManager::default());
    service.begin_connect("https://paw.example/api".to_string(), "token-123".to_string());
    let uri = service.connect_uri().unwrap();

    assert_eq!(service.connection_state(), WsConnectionState::Connecting);
    assert_eq!(uri, "wss://paw.example/ws?token=token-123");
    let frame = WsService::connect_frame("token-123".to_string());
    assert_eq!(frame.token, "token-123");
}

#[test]
fn hello_ok_marks_connected_and_runs_sync_hook() {
    let mut service =
        WsService::new("https://paw.example".to_string(), ReconnectionManager::default());
    service.begin_connect("https://paw.example".to_string(), "token-123".to_string());
    service.on_hello_ok();

    assert!(service.is_connected());
    assert_eq!(service.connection_state(), WsConnectionState::Connected);
}

#[test]
fn transport_failures_schedule_backoff() {
    let mut service = WsService::new(
        "http://localhost:38173".to_string(),
        ReconnectionManager::new(3, vec![1_000, 5_000]),
    );
    service.begin_connect("http://localhost:38173".to_string(), "token-123".to_string());

    service.on_transport_closed();
    let plan = service.pending_reconnect().unwrap();

    assert_eq!(service.connection_state(), WsConnectionState::Retrying);
    assert_eq!(plan.delay_ms, 1_000);
    assert_eq!(plan.attempt, 1);
    assert_eq!(plan.uri, "ws://localhost:38173/ws?token=token-123");
}

#[test]
fn user_disconnect_plans_no_reconnect() {
    let mut service =
        WsService::new("https://paw.example".to_string(), ReconnectionManager::default());
    service.begin_connect("https://paw.example".to_string(), "token-123".to_string());
    service.on_hello_ok();
    service.begin_disconnect();
    service.on_transport_closed();
    assert!(service.pending_reconnect().is_none());
    assert_eq!(service.connection_state(), WsConnectionState::Disconnected);
}

#[test]
fn connection_snapshot_tracks_retry_plan_metadata() {
    let mut service = WsService::new(
        "https://example.com".to_string(),
        ReconnectionManager::new(3, vec![1_000]),
    );
    service.begin_connect("https://example.com".to_string(), "token".to_string());
    service.on_transport_error();

    let snapshot = ConnectionSnapshot::from(&service);
    assert_eq!(snapshot.state, ConnectionStateView::Retrying);
    assert_eq!(snapshot.attempts, 1);
    assert_eq!(snapshot.pending_reconnect_delay_ms, Some(1_000));
}

#[test]
fn runtime_effects_convert_to_serializable_core_events() {
    let effect = RuntimeEffect::DuplicateMessage { conversation_id: 0, received_seq: 7, last_seq: 9 };
    match CoreEvent::from(&effect) {
        CoreEvent::DuplicateMessage(view) => {
            assert_eq!(view.conversation_id, "00000000-0000-0000-0000-000000000000");
            assert_eq!(view.received_seq, 7);
            assert_eq!(view.last_seq, 9);
        }
        _ => panic!("expected a duplicate message event"),
    }
}

#[test]
fn session_invalidated_effects_convert_to_serializable_core_events() {
    let effect =
        RuntimeEffect::SessionInvalidated(SessionEvent { reason: SessionExpiryReason::Unauthorized });
    match CoreEvent::from(&effect) {
        CoreEvent::SessionInvalidated(view) => {
            assert_eq!(view.reason, SessionExpiryReasonView::Unauthorized)
        }
        _ => panic!("expected a session invalidated event"),
    }
}

#[test]
fn active_streams_cleared_effects_convert_to_serializable_core_events() {
    let effect = RuntimeEffect::ActiveStreamsCleared { count: 2 };
    match CoreEvent::from(&effect) {
        CoreEvent::ActiveStreamsCleared(view) => assert_eq!(view.count, 2),
        _ => panic!("expected an active streams cleared event"),
    }
}

#[test]
fn finalized_stream_message_view_uses_platform_friendly_scalars() {
    let message = FinalizedStreamMessage {
        id: 0,
        conversation_id: 0,
        sender_id: 0,
        content: "hello".into(),
        format: MessageFormat::Markdown,
        seq: 4,
        created_at_ms: 10_000,
        tool_calls: vec![ToolCallRecord { tool: "search".into(), label: "Searching".into() }],
        tokens: 12,
        duration_ms: 300,
    };

    let view = FinalizedStreamMessageView::from(&message);
    assert_eq!(view.format, "markdown");
    assert_eq!(view.created_at_ms, 10_000);
    assert_eq!(view.tool_calls.len(), 1);
    assert_eq!(view.id, "00000000-0000-0000-0000-000000000000");
}

#[test]
fn build_fts5_query_matches_flutter_behavior() {
    assert_eq!(build_fts5_query(""), "");
    assert_eq!(build_fts5_query("   "), "");
    assert_eq!(build_fts5_query("hello"), "\"hello\"");
    assert_eq!(build_fts5_query("hello world"), "\"hello\" \"world\"");
    assert_eq!(build_fts5_query("say \"hi\""), "\"say\" \"\"\"hi\"\"\"");
    assert_eq!(build_fts5_query("안녕 세계"), "\"안녕\" \"세계\"");
}

#[test]
fn create_account_returns_expected_key_sizes() {
    let keys = create_account();
    assert_eq!(keys.identity_key.len(), 32);
    assert_eq!(keys.identity_secret.len(), 32);
    assert_eq!(keys.signed_prekey.len(), 32);
    assert_eq!(keys.signed_prekey_secret.len(), 32);
}

#[test]
fn encrypt_then_decrypt_round_trips() {
    let recipient = create_account();
    let plaintext = b"hello from paw-core".to_vec();
    let ciphertext = encrypt(recipient.signed_prekey.clone(), plaintext.clone());
    let decrypted = decrypt(recipient.signed_prekey_secret, ciphertext);
    assert_eq!(decrypted, plaintext);
}

#[test]
fn ciphertext_format_matches_current_ffi_contract() {
    let recipient = create_account();
    let ciphertext = encrypt(recipient.signed_prekey, b"test".to_vec());
    assert!(ciphertext.len() >= CIPHERTEXT_OVERHEAD + 20);
}

#[test]
fn test_create_account_key_sizes() {
    let keys = create_account();
    assert_eq!(keys.identity_key.len(), 32);
    assert_eq!(keys.identity_secret.len(), 32);
    assert_eq!(keys.signed_prekey.len(), 32);
    assert_eq!(keys.signed_prekey_secret.len(), 32);
}

#[test]
fn test_encrypt_decrypt_roundtrip() {
    let alice = create_account();
    let plaintext = b"hello paw e2ee".to_vec();
    let ciphertext = encrypt(alice.signed_prekey.clone(), plaintext.clone());
    assert!(ciphertext.len() > plaintext.len(), "ciphertext must be larger than plaintext");
    assert_ne!(ciphertext[44..], plaintext[..], "ciphertext must differ from plaintext");
    let decrypted = decrypt(alice.signed_prekey_secret, ciphertext);
    assert_eq!(decrypted, plaintext);
}

#[test]
fn test_ciphertext_format() {
    let alice = create_account();
    let ciphertext = encrypt(alice.signed_prekey, b"test".to_vec());
    assert!(ciphertext.len() >= 12 + 32 + 20);
}

#[test]
fn decrypt_with_another_key_fails() {
    let alice = create_account();
    let bob = create_account();
    let ciphertext = encrypt(alice.signed_prekey, b"secret".to_vec());
    assert_eq!(try_decrypt(&bob.signed_prekey_secret, &ciphertext), None);
    assert_eq!(try_decrypt(&alice.signed_prekey_secret, &ciphertext[..10].to_vec()), None);
    assert_eq!(
        try_decrypt(&alice.signed_prekey_secret, &ciphertext),
        Some(b"secret".to_vec())
    );
}

#[test]
fn relative_path_drops_leading_slashes() {
    assert_eq!(relative_path("/auth/request-otp"), "auth/request-otp");
    assert_eq!(relative_path("//users/me"), "users/me");
    assert_eq!(relative_path("conversations"), "conversations");
    assert_eq!(relative_path(""), "");
}

#[test]
fn search_query_leaves_out_empty_fields() {
    assert_eq!(
        search_user_query(Some("+8210"), Some("")),
        vec![("phone".to_string(), "+8210".to_string())]
    );
    assert_eq!(
        search_user_query(None, Some("paw")),
        vec![("username".to_string(), "paw".to_string())]
    );
    assert!(search_user_query(Some(""), None).is_empty());
}

#[test]
fn not_found_lookups_become_none() {
    assert_eq!(found_or_none::<u8>(Ok(3)), Ok(Some(3)));
    let nf = ApiError::not_found("missing".into(), None);
    assert_eq!(found_or_none::<u8>(Err(nf)), Ok(None));
    let server = ApiError::server(502, "bad gateway".into(), None);
    assert_eq!(found_or_none::<u8>(Err(server.clone())), Err(server));
}

#[test]
fn blank_conversation_names_are_left_out() {
    assert_eq!(conversation_name(Some("  ".into())), None);
    assert_eq!(conversation_name(Some("team".into())), Some("team".to_string()));
    assert_eq!(conversation_name(None), None);
}

#[test]
fn error_statuses_are_classified() {
    assert_eq!(check_status(204, String::new(), None), Ok(()));
    let e = check_status(
        401,
        "{}".into(),
        Some(ErrorPayload { error: Some("expired".into()), message: None }),
    )
    .unwrap_err();
    assert_eq!(e.kind(), ApiErrorKind::Unauthorized);
    assert_eq!(e.message(), "expired");
    assert_eq!(e.code(), Some("expired"));
    let e = check_status(503, String::new(), None).unwrap_err();
    assert_eq!(e.kind(), ApiErrorKind::Server);
    assert_eq!(e.message(), "HTTP 503");
    let e = check_status(418, "teapot".into(), None).unwrap_err();
    assert_eq!(e.kind(), ApiErrorKind::Client);
    assert_eq!(e.status_code(), Some(418));
    assert_eq!(e.message(), "teapot");
}

#[test]
fn attachment_content_type_is_inferred_from_extension() {
    assert_eq!(MediaAttachment::inferred_content_type("photo.JPG"), "image/jpeg");
    assert_eq!(MediaAttachment::inferred_content_type("clip.mp4"), "video/mp4");
    assert_eq!(MediaAttachment::inferred_content_type("noext"), "application/octet-stream");
}
