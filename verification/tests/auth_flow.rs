use paw::auth::machine::{AuthOutcome, AuthStateMachine};
use paw::auth::state::{
    AuthBackendError, AuthState, AuthStateMachineError, AuthStep, AuthUserProfile,
    InMemoryTokenStore, RegisterDeviceResponse, SessionEvent, SessionExpiryReason, StoredTokens,
    TokenStore, VerifyOtpResponse,
};

/// Applies what a step asks of the persisted session; counts disconnects.
fn apply<T>(outcome: &AuthOutcome<T>, store: &mut InMemoryTokenStore, disconnects: &mut u32) {
    if outcome.reset_session {
        store.clear();
        *disconnects += 1;
    }
    if let Some(tokens) = &outcome.persist {
        store.write(tokens.clone());
    }
}

fn tokens(a: &str, r: &str) -> StoredTokens {
    StoredTokens::new(a.to_string(), r.to_string())
}

#[test]
fn request_otp_advances_to_verify_step() {
    let mut machine = AuthStateMachine::new();
    machine.show_phone_otp();
    machine.begin_request_otp();
    assert!(machine.state().is_loading);
    machine.finish_request_otp("+821012345678".to_string(), Ok(())).unwrap();

    assert_eq!(machine.state().step, AuthStep::OtpVerify);
    assert_eq!(machine.state().phone, "+821012345678");
    assert!(!machine.state().is_loading);
    assert_eq!(machine.state().error, None);
}

#[test]
fn request_otp_failure_reports_backend_message() {
    let mut machine = AuthStateMachine::new();
    machine.show_phone_otp();
    machine.begin_request_otp();
    let err = machine
        .finish_request_otp("+82".to_string(), Err(AuthBackendError::new("rate limited".into())))
        .unwrap_err();
    assert_eq!(err, AuthStateMachineError::Backend(AuthBackendError::new("rate limited".into())));
    assert_eq!(machine.state().step, AuthStep::PhoneInput);
    assert_eq!(machine.state().error, Some("rate limited".to_string()));
    assert!(!machine.state().is_loading);
}

#[test]
fn register_device_persists_tokens_and_routes_to_username_setup() {
    let mut store = InMemoryTokenStore::new();
    let mut disconnects = 0;
    let mut connects: Vec<String> = Vec::new();
    let mut machine = AuthStateMachine::new();

    machine.show_phone_otp();
    machine.begin_request_otp();
    machine.finish_request_otp("+821012345678".to_string(), Ok(())).unwrap();
    let phone = machine.begin_verify_otp();
    assert_eq!(phone, "+821012345678");
    machine
        .finish_verify_otp(Ok(VerifyOtpResponse { session_token: "session-1".into() }))
        .unwrap();
    assert_eq!(machine.state().step, AuthStep::DeviceName);

    let session = machine.begin_register_device().unwrap();
    assert_eq!(session, "session-1");
    let issued = machine.register_device_tokens(Ok(RegisterDeviceResponse {
        access_token: "access".into(),
        refresh_token: "refresh".into(),
    }));
    apply(&issued, &mut store, &mut disconnects);
    let issued = issued.result.unwrap();
    let profile = machine.register_device_profile(Ok(AuthUserProfile {
        username: String::new(),
        discoverable_by_phone: false,
    }));
    apply(&profile, &mut store, &mut disconnects);
    let profile = profile.result.unwrap();
    connects.push(issued.access_token.clone());
    let done =
        machine.finish_register_device("Haruna's iPhone".to_string(), issued, profile, Ok(()));
    apply(&done, &mut store, &mut disconnects);
    done.result.unwrap();

    assert_eq!(machine.state().step, AuthStep::UsernameSetup);
    assert_eq!(machine.state().device_name, "Haruna's iPhone");
    assert_eq!(store.snapshot(), Some(tokens("access", "refresh")));
    assert_eq!(connects, vec!["access".to_string()]);
    assert_eq!(disconnects, 0);
}

#[test]
fn register_device_without_session_token_fails() {
    let mut machine = AuthStateMachine::new();
    assert_eq!(machine.begin_register_device(), Err(AuthStateMachineError::MissingSessionToken));
    assert_eq!(
        machine.state().error,
        Some("Missing session token for device registration".to_string())
    );
}

#[test]
fn register_device_with_empty_tokens_resets_session() {
    let mut store = InMemoryTokenStore::new();
    store.write(tokens("old", "old"));
    let mut disconnects = 0;
    let mut machine = AuthStateMachine::new();
    let issued = machine.register_device_tokens(Ok(RegisterDeviceResponse {
        access_token: String::new(),
        refresh_token: "refresh".into(),
    }));
    apply(&issued, &mut store, &mut disconnects);
    assert!(issued.result.is_err());
    assert_eq!(store.snapshot(), None);
    assert_eq!(disconnects, 1);
    assert_eq!(
        machine.state().error,
        Some("Missing tokens from register-device response".to_string())
    );
}

#[test]
fn restore_session_failure_clears_tokens_and_state() {
    let mut store = InMemoryTokenStore::new();
    store.write(tokens("stale-access", "stale-refresh"));
    let mut disconnects = 0;
    let mut machine = AuthStateMachine::new();

    let outcome =
        machine.restore_session_profile(Err(AuthBackendError::new("unauthorized".into())));
    apply(&outcome, &mut store, &mut disconnects);

    assert_eq!(
        outcome.result,
        Err(AuthStateMachineError::Backend(AuthBackendError::new("unauthorized".into())))
    );
    assert_eq!(machine.state(), &AuthState::initial());
    assert_eq!(store.snapshot(), None);
    assert_eq!(disconnects, 1);
}

#[test]
fn complete_username_setup_updates_profile_and_authenticates() {
    let mut machine = AuthStateMachine::from_state(AuthState {
        step: AuthStep::UsernameSetup,
        access_token: Some("access".to_string()),
        ..AuthState::initial()
    });

    let token = machine.begin_username_setup().unwrap();
    assert_eq!(token, "access");
    machine
        .finish_username_setup(
            "paw_friend19",
            Ok(AuthUserProfile { username: "paw_friend19".to_string(), discoverable_by_phone: true }),
        )
        .unwrap();

    assert_eq!(machine.state().step, AuthStep::Authenticated);
    assert_eq!(machine.state().username, "paw_friend19");
    assert!(machine.state().discoverable_by_phone);
}

#[test]
fn username_setup_keeps_requested_name_when_server_returns_none() {
    let mut machine = AuthStateMachine::from_state(AuthState {
        step: AuthStep::UsernameSetup,
        access_token: Some("access".to_string()),
        ..AuthState::initial()
    });
    machine.begin_username_setup().unwrap();
    machine
        .finish_username_setup(
            "chosen",
            Ok(AuthUserProfile { username: String::new(), discoverable_by_phone: false }),
        )
        .unwrap();
    assert_eq!(machine.state().username, "chosen");
    assert!(machine.is_authenticated());
}

#[test]
fn unauthorized_session_events_clear_existing_session() {
    let mut store = InMemoryTokenStore::new();
    store.write(tokens("access", "refresh"));
    let mut machine = AuthStateMachine::from_state(AuthState {
        step: AuthStep::Authenticated,
        access_token: Some("access".to_string()),
        refresh_token: Some("refresh".to_string()),
        ..AuthState::initial()
    });

    machine.handle_session_event(SessionEvent { reason: SessionExpiryReason::Unauthorized });

    assert_eq!(machine.state(), &AuthState::initial());
    assert_eq!(store.snapshot(), Some(tokens("access", "refresh")));
}

#[test]
fn logout_clears_persisted_session_and_disconnects_transport() {
    let mut store = InMemoryTokenStore::new();
    store.write(tokens("access", "refresh"));
    let mut disconnects = 0;
    let mut machine = AuthStateMachine::from_state(AuthState {
        step: AuthStep::Authenticated,
        access_token: Some("access".to_string()),
        refresh_token: Some("refresh".to_string()),
        ..AuthState::initial()
    });

    let outcome = machine.logout();
    apply(&outcome, &mut store, &mut disconnects);

    assert_eq!(machine.state(), &AuthState::initial());
    assert_eq!(store.snapshot(), None);
    assert_eq!(disconnects, 1);
}
