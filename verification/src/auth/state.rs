//! The data of the sign-in flow.

use vstd::prelude::*;

verus! {

/// The screens of the sign-in flow.
#[derive(Clone, Copy, Debug, PartialEq, Eq, Structural)]
pub enum AuthStep {
    AuthMethodSelect,
    PhoneInput,
    OtpVerify,
    DeviceName,
    UsernameSetup,
    Authenticated,
}

/// The state of the sign-in flow.
#[derive(Clone, Debug, PartialEq, Eq)]
pub struct AuthState {
    pub step: AuthStep,
    pub phone: String,
    pub device_name: String,
    pub username: String,
    pub discoverable_by_phone: bool,
    pub session_token: Option<String>,
    pub access_token: Option<String>,
    pub refresh_token: Option<String>,
    pub is_loading: bool,
    pub error: Option<String>,
}

pub struct AuthModel {
    pub step: AuthStep,
    pub phone: Seq<char>,
    pub device_name: Seq<char>,
    pub username: Seq<char>,
    pub discoverable_by_phone: bool,
    pub session_token: Option<Seq<char>>,
    pub access_token: Option<Seq<char>>,
    pub refresh_token: Option<Seq<char>>,
    pub is_loading: bool,
    pub error: Option<Seq<char>>,
}

pub open spec fn opt_str(o: Option<String>) -> Option<Seq<char>> {
    match o {
        Some(s) => Some(s@),
        None => None,
    }
}

impl View for AuthState {
    type V = AuthModel;

    open spec fn view(&self) -> AuthModel {
        AuthModel {
            step: self.step,
            phone: self.phone@,
            device_name: self.device_name@,
            username: self.username@,
            discoverable_by_phone: self.discoverable_by_phone,
            session_token: opt_str(self.session_token),
            access_token: opt_str(self.access_token),
            refresh_token: opt_str(self.refresh_token),
            is_loading: self.is_loading,
            error: opt_str(self.error),
        }
    }
}

/// The state a flow starts in and returns to after a sign-out.
pub open spec fn initial_model() -> AuthModel {
    AuthModel {
        step: AuthStep::AuthMethodSelect,
        phone: Seq::empty(),
        device_name: Seq::empty(),
        username: Seq::empty(),
        discoverable_by_phone: false,
        session_token: None,
        access_token: None,
        refresh_token: None,
        is_loading: false,
        error: None,
    }
}

impl AuthState {
    /// The initial state: method selection, nothing entered, no tokens.
    pub fn initial() -> (s: Self)
        ensures
            s@ == initial_model(),
    {
        AuthState {
            step: AuthStep::AuthMethodSelect,
            phone: String::new(),
            device_name: String::new(),
            username: String::new(),
            discoverable_by_phone: false,
            session_token: None,
            access_token: None,
            refresh_token: None,
            is_loading: false,
            error: None,
        }
    }
}

impl Default for AuthState {
    fn default() -> (s: Self)
        ensures
            s@ == initial_model(),
    {
        AuthState::initial()
    }
}

/// The server's answer to a verified one-time code.
#[derive(Clone, Debug, PartialEq, Eq)]
pub struct VerifyOtpResponse {
    pub session_token: String,
}

/// The tokens issued for a registered device.
#[derive(Clone, Debug, PartialEq, Eq)]
pub struct RegisterDeviceResponse {
    pub access_token: String,
    pub refresh_token: String,
}

/// The profile fields the sign-in flow reads.
#[derive(Clone, Debug, PartialEq, Eq)]
pub struct AuthUserProfile {
    pub username: String,
    pub discoverable_by_phone: bool,
}

/// Why a session ended.
#[derive(Clone, Copy, Debug, PartialEq, Eq, Structural)]
pub enum SessionExpiryReason {
    Unauthorized,
}

/// A session that ended.
#[derive(Clone, Copy, Debug, PartialEq, Eq, Structural)]
pub struct SessionEvent {
    pub reason: SessionExpiryReason,
}

/// An error reported by the authentication backend.
#[derive(Clone, Debug, PartialEq, Eq)]
pub struct AuthBackendError {
    message: String,
}

impl View for AuthBackendError {
    type V = Seq<char>;

    closed spec fn view(&self) -> Seq<char> {
        self.message@
    }
}

impl AuthBackendError {
    pub fn new(message: String) -> (e: Self)
        ensures
            e@ == message@,
    {
        AuthBackendError { message }
    }

    pub fn message(&self) -> (m: &str)
        ensures
            m@ == self@,
    {
        self.message.as_str()
    }

    /// A copy of the error.
    pub fn copy(&self) -> (e: Self)
        ensures
            e@ == self@,
    {
        AuthBackendError { message: self.message.clone() }
    }
}

/// Errors of the sign-in flow.
#[derive(Clone, Debug, PartialEq, Eq)]
pub enum AuthStateMachineError {
    Backend(AuthBackendError),
    MissingSessionToken,
    AuthenticationRequired,
}

/// The tokens kept between launches.
#[derive(Clone, Debug, PartialEq, Eq)]
pub struct StoredTokens {
    pub access_token: String,
    pub refresh_token: String,
}

impl StoredTokens {
    pub fn new(access_token: String, refresh_token: String) -> (t: Self)
        ensures
            t.access_token@ == access_token@,
            t.refresh_token@ == refresh_token@,
    {
        StoredTokens { access_token, refresh_token }
    }
}

/// Where the client keeps its tokens between launches.
pub trait TokenStore {
    fn read(&self) -> Option<StoredTokens>;

    fn write(&mut self, tokens: StoredTokens);

    fn clear(&mut self);
}

/// A copy of stored tokens.
pub fn copy_tokens(t: &StoredTokens) -> (c: StoredTokens)
    ensures
        c.access_token@ == t.access_token@,
        c.refresh_token@ == t.refresh_token@,
{
    StoredTokens { access_token: t.access_token.clone(), refresh_token: t.refresh_token.clone() }
}

/// Tokens kept in memory.
pub struct InMemoryTokenStore {
    inner: Option<StoredTokens>,
}

impl View for InMemoryTokenStore {
    /// The stored access and refresh token.
    type V = Option<(Seq<char>, Seq<char>)>;

    closed spec fn view(&self) -> Option<(Seq<char>, Seq<char>)> {
        match self.inner {
            Some(t) => Some((t.access_token@, t.refresh_token@)),
            None => None,
        }
    }
}

impl InMemoryTokenStore {
    pub fn new() -> (s: Self)
        ensures
            s@ is None,
    {
        InMemoryTokenStore { inner: None }
    }

    /// A copy of what is stored.
    pub fn snapshot(&self) -> (r: Option<StoredTokens>)
        ensures
            match r {
                Some(t) => self@ == Some((t.access_token@, t.refresh_token@)),
                None => self@ is None,
            },
    {
        match &self.inner {
            Some(t) => Some(copy_tokens(t)),
            None => None,
        }
    }
}

impl TokenStore for InMemoryTokenStore {
    fn read(&self) -> (r: Option<StoredTokens>)
        ensures
            match r {
                Some(t) => self@ == Some((t.access_token@, t.refresh_token@)),
                None => self@ is None,
            },
    {
        self.snapshot()
    }

    fn write(&mut self, tokens: StoredTokens)
        ensures
            final(self)@ == Some((tokens.access_token@, tokens.refresh_token@)),
    {
        self.inner = Some(tokens);
    }

    fn clear(&mut self)
        ensures
            final(self)@ is None,
    {
        self.inner = None;
    }
}

/// The realtime connection a signed-in session opens and closes.
pub trait SessionTransport {
    fn connect(&self, access_token: &str) -> Result<(), AuthBackendError>;

    fn disconnect(&self);
}

/// A transport that connects nowhere and always succeeds.
pub struct NoopSessionTransport;

impl SessionTransport for NoopSessionTransport {
    fn connect(&self, access_token: &str) -> (r: Result<(), AuthBackendError>)
        ensures
            r is Ok,
    {
        Ok(())
    }

    fn disconnect(&self) {
    }
}

} // verus!
