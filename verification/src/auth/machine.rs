//! The sign-in flow as a state machine. Each backend call is made by the
//! caller between a `begin_*` step, which returns what to send, and the step
//! that takes the call's result. Steps that end a session ask the caller to
//! reset the persisted session (clear the stored tokens, then disconnect the
//! transport); a completed registration asks it to persist the new tokens.

use vstd::prelude::*;
use crate::auth::state::{
    initial_model, opt_str, AuthBackendError, AuthModel, AuthState, AuthStateMachineError,
    AuthStep, AuthUserProfile, RegisterDeviceResponse, SessionEvent, SessionExpiryReason,
    StoredTokens, VerifyOtpResponse,
};

verus! {

/// A step's result and what the caller must do with the persisted session.
#[derive(Debug, PartialEq, Eq)]
pub struct AuthOutcome<T> {
    pub result: Result<T, AuthStateMachineError>,
    /// Clear the stored tokens, then disconnect the transport.
    pub reset_session: bool,
    /// Write these tokens to the token store.
    pub persist: Option<StoredTokens>,
}

/// The state while a request is in flight.
pub open spec fn loading(m: AuthModel) -> AuthModel {
    AuthModel { is_loading: true, error: None, ..m }
}

/// The state after a failed request: not loading, with the error message.
pub open spec fn failed(m: AuthModel, message: Seq<char>) -> AuthModel {
    AuthModel { is_loading: false, error: Some(message), ..m }
}

/// The error is the backend error with the given message.
pub open spec fn is_backend_error(e: AuthStateMachineError, message: Seq<char>) -> bool {
    e matches AuthStateMachineError::Backend(b) && b@ == message
}

/// The sign-in flow.
pub struct AuthStateMachine {
    state: AuthState,
}

impl View for AuthStateMachine {
    type V = AuthModel;

    closed spec fn view(&self) -> AuthModel {
        self.state@
    }
}

impl AuthStateMachine {
    /// A flow in its initial state.
    pub fn new() -> (m: Self)
        ensures
            m@ == initial_model(),
    {
        AuthStateMachine { state: AuthState::initial() }
    }

    /// A flow resumed from a given state.
    pub fn from_state(state: AuthState) -> (m: Self)
        ensures
            m@ == state@,
    {
        AuthStateMachine { state }
    }

    pub fn state(&self) -> (s: &AuthState)
        ensures
            s@ == self@,
    {
        &self.state
    }

    pub fn is_authenticated(&self) -> (b: bool)
        ensures
            b == (self@.step == AuthStep::Authenticated),
    {
        match self.state.step {
            AuthStep::Authenticated => true,
            _ => false,
        }
    }

    /// Shows the phone input.
    pub fn show_phone_otp(&mut self)
        ensures
            final(self)@ == (AuthModel { step: AuthStep::PhoneInput, error: None, ..old(self)@ }),
    {
        self.state.step = AuthStep::PhoneInput;
        self.state.error = None;
    }

    /// Goes back to method selection and forgets the phone number.
    pub fn back_to_auth_method_select(&mut self)
        ensures
            final(self)@ == (AuthModel {
                step: AuthStep::AuthMethodSelect,
                phone: Seq::empty(),
                error: None,
                ..old(self)@
            }),
    {
        self.state.step = AuthStep::AuthMethodSelect;
        self.state.phone = String::new();
        self.state.error = None;
    }

    fn start_loading(&mut self)
        ensures
            final(self)@ == loading(old(self)@),
    {
        self.state.is_loading = true;
        self.state.error = None;
    }

    fn fail(&mut self, error: &AuthBackendError)
        ensures
            final(self)@ == failed(old(self)@, error@),
    {
        self.state.is_loading = false;
        self.state.error = Some(error.message().to_string());
    }

    /// Starts a one-time-code request; the caller then sends it for the phone.
    pub fn begin_request_otp(&mut self)
        ensures
            final(self)@ == loading(old(self)@),
    {
        self.start_loading();
    }

    /// Takes the result of the one-time-code request: on success the flow moves
    /// to code verification for that phone.
    pub fn finish_request_otp(&mut self, phone: String, result: Result<(), AuthBackendError>) -> (r:
        Result<(), AuthStateMachineError>)
        ensures
            match result {
                Ok(()) => {
                    &&& r is Ok
                    &&& final(self)@ == (AuthModel {
                        step: AuthStep::OtpVerify,
                        phone: phone@,
                        is_loading: false,
                        ..old(self)@
                    })
                },
                Err(e) => {
                    &&& r matches Err(err) && is_backend_error(err, e@)
                    &&& final(self)@ == failed(old(self)@, e@)
                },
            },
    {
        match result {
            Ok(()) => {
                self.state.step = AuthStep::OtpVerify;
                self.state.phone = phone;
                self.state.is_loading = false;
                Ok(())
            },
            Err(error) => {
                self.fail(&error);
                Err(AuthStateMachineError::Backend(error))
            },
        }
    }

    /// Starts code verification and returns the phone to verify the code for.
    pub fn begin_verify_otp(&mut self) -> (phone: String)
        ensures
            final(self)@ == loading(old(self)@),
            phone@ == old(self)@.phone,
    {
        self.start_loading();
        self.state.phone.clone()
    }

    /// Takes the verification result: a non-empty session token moves the flow
    /// to device naming; an empty one is an error.
    pub fn finish_verify_otp(&mut self, result: Result<VerifyOtpResponse, AuthBackendError>) -> (r:
        Result<(), AuthStateMachineError>)
        ensures
            match result {
                Ok(resp) => if resp.session_token@.len() > 0 {
                    &&& r is Ok
                    &&& final(self)@ == (AuthModel {
                        step: AuthStep::DeviceName,
                        session_token: Some(resp.session_token@),
                        is_loading: false,
                        ..old(self)@
                    })
                } else {
                    &&& r matches Err(err) && is_backend_error(err, "Missing session token"@)
                    &&& final(self)@ == failed(old(self)@, "Missing session token"@)
                },
                Err(e) => {
                    &&& r matches Err(err) && is_backend_error(err, e@)
                    &&& final(self)@ == failed(old(self)@, e@)
                },
            },
    {
        match result {
            Ok(response) => {
                if !response.session_token.as_str().is_empty() {
                    self.state.step = AuthStep::DeviceName;
                    self.state.session_token = Some(response.session_token);
                    self.state.is_loading = false;
                    Ok(())
                } else {
                    let error = AuthBackendError::new("Missing session token".to_string());
                    self.fail(&error);
                    Err(AuthStateMachineError::Backend(error))
                }
            },
            Err(error) => {
                self.fail(&error);
                Err(AuthStateMachineError::Backend(error))
            },
        }
    }

    /// Starts device registration and returns the session token to register with;
    /// without one the flow fails with `MissingSessionToken`.
    pub fn begin_register_device(&mut self) -> (r: Result<String, AuthStateMachineError>)
        ensures
            match old(self)@.session_token {
                Some(token) => {
                    &&& r matches Ok(t) && t@ == token
                    &&& final(self)@ == loading(old(self)@)
                },
                None => {
                    &&& r == Err::<String, AuthStateMachineError>(
                        AuthStateMachineError::MissingSessionToken,
                    )
                    &&& final(self)@ == failed(
                        old(self)@,
                        "Missing session token for device registration"@,
                    )
                },
            },
    {
        self.start_loading();
        match &self.state.session_token {
            Some(token) => Ok(token.clone()),
            None => {
                self.state.is_loading = false;
                self.state.error = Some(
                    "Missing session token for device registration".to_string(),
                );
                Err(AuthStateMachineError::MissingSessionToken)
            },
        }
    }

    /// Takes the registration response: two non-empty tokens are handed back so
    /// the caller can fetch the profile; anything else fails the flow and resets
    /// the persisted session.
    pub fn register_device_tokens(
        &mut self,
        result: Result<RegisterDeviceResponse, AuthBackendError>,
    ) -> (o: AuthOutcome<StoredTokens>)
        ensures
            o.persist is None,
            match result {
                Ok(resp) => if resp.access_token@.len() > 0 && resp.refresh_token@.len() > 0 {
                    &&& o.result matches Ok(t) && t.access_token@ == resp.access_token@
                        && t.refresh_token@ == resp.refresh_token@
                    &&& !o.reset_session
                    &&& final(self)@ == old(self)@
                } else {
                    &&& o.result matches Err(err) && is_backend_error(
                        err,
                        "Missing tokens from register-device response"@,
                    )
                    &&& o.reset_session
                    &&& final(self)@ == failed(
                        old(self)@,
                        "Missing tokens from register-device response"@,
                    )
                },
                Err(e) => {
                    &&& o.result matches Err(err) && is_backend_error(err, e@)
                    &&& o.reset_session
                    &&& final(self)@ == failed(old(self)@, e@)
                },
            },
    {
        match result {
            Ok(response) => {
                if !response.access_token.as_str().is_empty() && !response.refresh_token.as_str().is_empty() {
                    AuthOutcome {
                        result: Ok(StoredTokens::new(response.access_token, response.refresh_token)),
                        reset_session: false,
                        persist: None,
                    }
                } else {
                    let error = AuthBackendError::new(
                        "Missing tokens from register-device response".to_string(),
                    );
                    self.fail(&error);
                    AuthOutcome {
                        result: Err(AuthStateMachineError::Backend(error)),
                        reset_session: true,
                        persist: None,
                    }
                }
            },
            Err(error) => {
                self.fail(&error);
                AuthOutcome {
                    result: Err(AuthStateMachineError::Backend(error)),
                    reset_session: true,
                    persist: None,
                }
            },
        }
    }

    /// Takes the profile fetched with the new access token; a failure fails the
    /// flow and resets the persisted session.
    pub fn register_device_profile(&mut self, result: Result<AuthUserProfile, AuthBackendError>) -> (o:
        AuthOutcome<AuthUserProfile>)
        ensures
            o.persist is None,
            match result {
                Ok(p) => {
                    &&& o.result == Ok::<AuthUserProfile, AuthStateMachineError>(p)
                    &&& !o.reset_session
                    &&& final(self)@ == old(self)@
                },
                Err(e) => {
                    &&& o.result matches Err(err) && is_backend_error(err, e@)
                    &&& o.reset_session
                    &&& final(self)@ == failed(old(self)@, e@)
                },
            },
    {
        match result {
            Ok(profile) => AuthOutcome { result: Ok(profile), reset_session: false, persist: None },
            Err(error) => {
                self.fail(&error);
                AuthOutcome {
                    result: Err(AuthStateMachineError::Backend(error)),
                    reset_session: true,
                    persist: None,
                }
            },
        }
    }

    /// Takes the result of connecting the transport with the new access token.
    /// On success the tokens are to be persisted and the flow moves to username
    /// setup (empty username) or is authenticated; on failure the persisted
    /// session is reset and the flow starts over.
    pub fn finish_register_device(
        &mut self,
        device_name: String,
        tokens: StoredTokens,
        profile: AuthUserProfile,
        connect: Result<(), AuthBackendError>,
    ) -> (o: AuthOutcome<()>)
        ensures
            match connect {
                Ok(()) => {
                    &&& o.result is Ok
                    &&& !o.reset_session
                    &&& o.persist matches Some(t) && t.access_token@ == tokens.access_token@
                        && t.refresh_token@ == tokens.refresh_token@
                    &&& final(self)@ == (AuthModel {
                        step: if profile.username@.len() == 0 {
                            AuthStep::UsernameSetup
                        } else {
                            AuthStep::Authenticated
                        },
                        device_name: device_name@,
                        access_token: Some(tokens.access_token@),
                        refresh_token: Some(tokens.refresh_token@),
                        username: profile.username@,
                        discoverable_by_phone: profile.discoverable_by_phone,
                        is_loading: false,
                        error: None,
                        ..old(self)@
                    })
                },
                Err(e) => {
                    &&& o.result matches Err(err) && is_backend_error(err, e@)
                    &&& o.reset_session
                    &&& o.persist is None
                    &&& final(self)@ == initial_model()
                },
            },
    {
        match connect {
            Ok(()) => {
                let persisted = StoredTokens::new(
                    tokens.access_token.clone(),
                    tokens.refresh_token.clone(),
                );
                self.state.step = if profile.username.as_str().is_empty() {
                    AuthStep::UsernameSetup
                } else {
                    AuthStep::Authenticated
                };
                self.state.device_name = device_name;
                self.state.access_token = Some(tokens.access_token);
                self.state.refresh_token = Some(tokens.refresh_token);
                self.state.username = profile.username;
                self.state.discoverable_by_phone = profile.discoverable_by_phone;
                self.state.is_loading = false;
                self.state.error = None;
                AuthOutcome { result: Ok(()), reset_session: false, persist: Some(persisted) }
            },
            Err(error) => {
                self.state = AuthState::initial();
                AuthOutcome {
                    result: Err(AuthStateMachineError::Backend(error)),
                    reset_session: true,
                    persist: None,
                }
            },
        }
    }

    /// Takes the profile fetched with stored tokens when restoring a session; a
    /// failure resets the persisted session and starts the flow over.
    pub fn restore_session_profile(&mut self, result: Result<AuthUserProfile, AuthBackendError>) -> (o:
        AuthOutcome<AuthUserProfile>)
        ensures
            o.persist is None,
            match result {
                Ok(p) => {
                    &&& o.result == Ok::<AuthUserProfile, AuthStateMachineError>(p)
                    &&& !o.reset_session
                    &&& final(self)@ == old(self)@
                },
                Err(e) => {
                    &&& o.result matches Err(err) && is_backend_error(err, e@)
                    &&& o.reset_session
                    &&& final(self)@ == initial_model()
                },
            },
    {
        match result {
            Ok(profile) => AuthOutcome { result: Ok(profile), reset_session: false, persist: None },
            Err(error) => {
                self.state = AuthState::initial();
                AuthOutcome {
                    result: Err(AuthStateMachineError::Backend(error)),
                    reset_session: true,
                    persist: None,
                }
            },
        }
    }

    /// Takes the result of connecting the transport when restoring a session:
    /// success authenticates with the stored tokens and profile; failure resets
    /// the persisted session and records the error.
    pub fn finish_restore_session(
        &mut self,
        tokens: StoredTokens,
        profile: AuthUserProfile,
        connect: Result<(), AuthBackendError>,
    ) -> (o: AuthOutcome<()>)
        ensures
            o.persist is None,
            match connect {
                Ok(()) => {
                    &&& o.result is Ok
                    &&& !o.reset_session
                    &&& final(self)@ == (AuthModel {
                        step: AuthStep::Authenticated,
                        access_token: Some(tokens.access_token@),
                        refresh_token: Some(tokens.refresh_token@),
                        username: profile.username@,
                        discoverable_by_phone: profile.discoverable_by_phone,
                        is_loading: false,
                        error: None,
                        ..old(self)@
                    })
                },
                Err(e) => {
                    &&& o.result matches Err(err) && is_backend_error(err, e@)
                    &&& o.reset_session
                    &&& final(self)@ == failed(old(self)@, e@)
                },
            },
    {
        match connect {
            Ok(()) => {
                self.state.step = AuthStep::Authenticated;
                self.state.access_token = Some(tokens.access_token);
                self.state.refresh_token = Some(tokens.refresh_token);
                self.state.username = profile.username;
                self.state.discoverable_by_phone = profile.discoverable_by_phone;
                self.state.is_loading = false;
                self.state.error = None;
                AuthOutcome { result: Ok(()), reset_session: false, persist: None }
            },
            Err(error) => {
                self.fail(&error);
                AuthOutcome {
                    result: Err(AuthStateMachineError::Backend(error)),
                    reset_session: true,
                    persist: None,
                }
            },
        }
    }

    /// Starts username setup and returns the access token to update the profile
    /// with; without one the flow fails with `AuthenticationRequired`.
    pub fn begin_username_setup(&mut self) -> (r: Result<String, AuthStateMachineError>)
        ensures
            match old(self)@.access_token {
                Some(token) => {
                    &&& r matches Ok(t) && t@ == token
                    &&& final(self)@ == loading(old(self)@)
                },
                None => {
                    &&& r == Err::<String, AuthStateMachineError>(
                        AuthStateMachineError::AuthenticationRequired,
                    )
                    &&& final(self)@ == failed(old(self)@, "Authentication required"@)
                },
            },
    {
        self.start_loading();
        match &self.state.access_token {
            Some(token) => Ok(token.clone()),
            None => {
                self.state.is_loading = false;
                self.state.error = Some("Authentication required".to_string());
                Err(AuthStateMachineError::AuthenticationRequired)
            },
        }
    }

    /// Takes the updated profile: the flow is authenticated with the returned
    /// username, or the requested one when the server returned none.
    pub fn finish_username_setup(
        &mut self,
        username: &str,
        result: Result<AuthUserProfile, AuthBackendError>,
    ) -> (r: Result<(), AuthStateMachineError>)
        ensures
            match result {
                Ok(p) => {
                    &&& r is Ok
                    &&& final(self)@ == (AuthModel {
                        step: AuthStep::Authenticated,
                        username: if p.username@.len() == 0 {
                            username@
                        } else {
                            p.username@
                        },
                        discoverable_by_phone: p.discoverable_by_phone,
                        is_loading: false,
                        error: None,
                        ..old(self)@
                    })
                },
                Err(e) => {
                    &&& r matches Err(err) && is_backend_error(err, e@)
                    &&& final(self)@ == failed(old(self)@, e@)
                },
            },
    {
        match result {
            Ok(profile) => {
                self.state.step = AuthStep::Authenticated;
                self.state.username = if profile.username.as_str().is_empty() {
                    username.to_string()
                } else {
                    profile.username
                };
                self.state.discoverable_by_phone = profile.discoverable_by_phone;
                self.state.is_loading = false;
                self.state.error = None;
                Ok(())
            },
            Err(error) => {
                self.fail(&error);
                Err(AuthStateMachineError::Backend(error))
            },
        }
    }

    /// Skips username setup.
    pub fn skip_username_setup(&mut self)
        ensures
            final(self)@ == (AuthModel {
                step: AuthStep::Authenticated,
                is_loading: false,
                error: None,
                ..old(self)@
            }),
    {
        self.state.step = AuthStep::Authenticated;
        self.state.is_loading = false;
        self.state.error = None;
    }

    /// Signs out: the persisted session is to be reset and the flow starts over.
    pub fn logout(&mut self) -> (o: AuthOutcome<()>)
        ensures
            o.result is Ok,
            o.reset_session,
            o.persist is None,
            final(self)@ == initial_model(),
    {
        self.state = AuthState::initial();
        AuthOutcome { result: Ok(()), reset_session: true, persist: None }
    }

    /// An ended session (unauthorized) starts the flow over; the persisted
    /// session is left to the runtime.
    pub fn handle_session_event(&mut self, event: SessionEvent)
        ensures
            event.reason == SessionExpiryReason::Unauthorized ==> final(self)@ == initial_model(),
    {
        match event.reason {
            SessionExpiryReason::Unauthorized => {
                self.state = AuthState::initial();
            },
        }
    }
}

/// A failed request always ends loading and shows the backend's message,
/// whatever the state was.
pub proof fn law_failure_reports_error(m: AuthModel, message: Seq<char>)
    ensures
        !failed(m, message).is_loading,
        failed(m, message).error == Some(message),
        failed(loading(m), message).step == m.step,
{
}

/// Starting a request clears the previous error and nothing else but the loading flag.
pub proof fn law_loading_clears_error(m: AuthModel)
    ensures
        loading(m).error is None,
        loading(m).is_loading,
        loading(m) == (AuthModel { is_loading: true, error: None, ..m }),
{
}

} // verus!
