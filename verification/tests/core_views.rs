use paw::auth::state::{AuthState, AuthStep, InMemoryTokenStore, StoredTokens, TokenStore};
use paw::events::{AuthStateView, AuthStepView};
use paw::platform::{
    lifecycle_hints_for, DeviceKeyMaterial, InMemoryDeviceKeyStore, InMemoryLifecycleBridge,
    InMemorySecureTokenVault, LifecycleBridge, LifecycleEvent, LifecycleHint, LifecycleState,
    NoopPushRegistrar, PushPlatform, PushRegistrationErrorCode, PushRegistrationStatus,
    PushTokenRegistration,
};
use paw::ws::reconnect::ReconnectionManager;

#[test]
fn auth_view_hides_secret_values_but_preserves_step() {
    let state = AuthState {
        step: AuthStep::UsernameSetup,
        phone: "+821012345678".into(),
        device_name: "paw".into(),
        username: "friend".into(),
        discoverable_by_phone: true,
        session_token: Some("session".into()),
        access_token: Some("access".into()),
        refresh_token: Some("refresh".into()),
        is_loading: false,
        error: None,
    };

    let view = AuthStateView::from(&state);
    assert_eq!(view.step, AuthStepView::UsernameSetup);
    assert!(view.has_session_token);
    assert!(view.has_access_token);
    assert!(view.has_refresh_token);
}

#[test]
fn auth_view_reports_missing_tokens() {
    let state = AuthState {
        step: AuthStep::PhoneInput,
        phone: String::new(),
        device_name: String::new(),
        username: String::new(),
        discoverable_by_phone: false,
        session_token: None,
        access_token: Some("access".into()),
        refresh_token: None,
        is_loading: true,
        error: Some("boom".into()),
    };
    let view = AuthStateView::from(&state);
    assert_eq!(view.step, AuthStepView::PhoneInput);
    assert!(!view.has_session_token);
    assert!(view.has_access_token);
    assert!(!view.has_refresh_token);
    assert!(view.is_loading);
    assert_eq!(view.error, Some("boom".to_string()));
}

#[test]
fn lifecycle_hints_match_runtime_expectations() {
    let hints = lifecycle_hints_for(&LifecycleEvent {
        state: LifecycleState::Background,
        timestamp_ms: 1,
        user_initiated: false,
    });

    assert_eq!(
        hints,
        vec![
            LifecycleHint::PauseRealtime,
            LifecycleHint::FlushAcks,
            LifecycleHint::PersistDrafts,
        ]
    );
}

#[test]
fn lifecycle_hints_for_other_states() {
    let ev = |state| LifecycleEvent { state, timestamp_ms: 0, user_initiated: true };
    assert_eq!(
        lifecycle_hints_for(&ev(LifecycleState::Active)),
        vec![LifecycleHint::ReconnectSocket, LifecycleHint::RefreshPushToken]
    );
    assert_eq!(
        lifecycle_hints_for(&ev(LifecycleState::Launching)),
        vec![LifecycleHint::ReconnectSocket, LifecycleHint::RefreshPushToken]
    );
    assert_eq!(lifecycle_hints_for(&ev(LifecycleState::Inactive)), vec![LifecycleHint::FlushAcks]);
    assert_eq!(
        lifecycle_hints_for(&ev(LifecycleState::Terminated)),
        vec![LifecycleHint::FlushAcks, LifecycleHint::PersistDrafts]
    );
}

#[test]
fn backs_off_and_caps_to_last_delay() {
    let mut manager = ReconnectionManager::default();

    let delays: Vec<_> = (0..7).filter_map(|_| manager.next_delay()).collect();

    assert_eq!(delays[0], 1000);
    assert_eq!(delays[1], 2000);
    assert_eq!(delays[2], 4000);
    assert_eq!(delays[5], 30000);
    assert_eq!(delays[6], 30000);
}

#[test]
fn stops_after_max_attempts_until_reset() {
    let mut manager = ReconnectionManager::new(2, vec![1000]);

    assert_eq!(manager.next_delay(), Some(1000));
    assert_eq!(manager.next_delay(), Some(1000));
    assert_eq!(manager.next_delay(), None);

    manager.on_connected();
    assert_eq!(manager.next_delay(), Some(1000));
}

#[test]
fn empty_schedule_falls_back_to_default() {
    let mut manager = ReconnectionManager::new(3, Vec::new());
    assert_eq!(manager.next_delay(), Some(1000));
    assert_eq!(manager.next_delay(), Some(2000));
    assert_eq!(manager.attempts(), 2);
    assert!(manager.can_retry());
    assert_eq!(manager.next_delay(), Some(4000));
    assert!(!manager.can_retry());
    manager.reset();
    assert_eq!(manager.attempts(), 0);
}

#[test]
fn memory_secure_vault_adapts_to_token_store_behavior() {
    let mut vault = InMemorySecureTokenVault::new();
    vault
        .write_tokens(StoredTokens::new("access".into(), "refresh".into()))
        .unwrap();
    assert_eq!(
        TokenStore::read(&vault),
        Some(StoredTokens::new("access".into(), "refresh".into()))
    );
    TokenStore::clear(&mut vault);
    assert_eq!(TokenStore::read(&vault), None);
}

#[test]
fn in_memory_token_store_reads_back_writes() {
    let mut store = InMemoryTokenStore::new();
    assert_eq!(store.read(), None);
    store.write(StoredTokens::new("a".into(), "r".into()));
    assert_eq!(store.snapshot(), Some(StoredTokens::new("a".into(), "r".into())));
    store.clear();
    assert_eq!(store.read(), None);
}

#[test]
fn device_key_store_round_trips_material() {
    let mut store = InMemoryDeviceKeyStore::new();
    let material = DeviceKeyMaterial {
        identity_key: vec![1, 2],
        x25519_private_key: vec![3, 4],
        x25519_public_key: vec![5, 6],
    };
    store.save_device_keys(material.clone()).unwrap();
    assert_eq!(store.load_device_keys().unwrap(), Some(material));
    store.clear_device_keys().unwrap();
    assert_eq!(store.load_device_keys().unwrap(), None);
}

#[test]
fn noop_push_registrar_tracks_latest_state() {
    let mut registrar = NoopPushRegistrar::new();
    let state = registrar
        .register(PushTokenRegistration { token: "abc".into(), platform: PushPlatform::Fcm })
        .unwrap();
    assert_eq!(state.status, PushRegistrationStatus::Registered);
    assert_eq!(registrar.current_state().platform, Some(PushPlatform::Fcm));

    let err = registrar
        .register(PushTokenRegistration { token: "  ".into(), platform: PushPlatform::Apns })
        .unwrap_err();
    assert_eq!(err.code, PushRegistrationErrorCode::EmptyToken);
    assert_eq!(registrar.current_state().platform, Some(PushPlatform::Fcm));

    let state = registrar.unregister().unwrap();
    assert_eq!(state.status, PushRegistrationStatus::Unregistered);
    assert_eq!(registrar.current_state().token, None);
}

#[test]
fn lifecycle_bridge_remembers_last_state() {
    let mut bridge = InMemoryLifecycleBridge::new();
    assert_eq!(bridge.current_state(), LifecycleState::Launching);
    let hints = bridge.handle_event(LifecycleEvent {
        state: LifecycleState::Inactive,
        timestamp_ms: 5,
        user_initiated: false,
    });
    assert_eq!(hints, vec![LifecycleHint::FlushAcks]);
    assert_eq!(bridge.current_state(), LifecycleState::Inactive);
}
