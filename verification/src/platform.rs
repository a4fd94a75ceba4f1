//! What the client asks of the platform: secure storage of tokens and device
//! keys, push registration, and hints for app lifecycle changes.

use vstd::prelude::*;
use crate::clock::now_millis;
use crate::auth::state::{StoredTokens, TokenStore};
use crate::text::{is_blank, trim};

verus! {

#[derive(Clone, Copy, Debug, PartialEq, Eq, Structural)]
pub enum SecureStorageProvider {
    Keychain,
    Keystore,
    MemoryFallback,
    Unknown,
}

#[derive(Clone, Copy, Debug, PartialEq, Eq, Structural)]
pub enum SecureStorageAvailability {
    Available,
    Degraded,
    Unavailable,
}

#[derive(Clone, Copy, Debug, PartialEq, Eq, Structural)]
pub struct SecureStorageCapabilities {
    pub provider: SecureStorageProvider,
    pub availability: SecureStorageAvailability,
    pub supports_tokens: bool,
    pub supports_device_keys: bool,
    pub supports_biometric_gate: bool,
}

/// In-memory storage: degraded, for tokens and device keys, without a biometric gate.
pub open spec fn memory_fallback_capabilities() -> SecureStorageCapabilities {
    SecureStorageCapabilities {
        provider: SecureStorageProvider::MemoryFallback,
        availability: SecureStorageAvailability::Degraded,
        supports_tokens: true,
        supports_device_keys: true,
        supports_biometric_gate: false,
    }
}

impl SecureStorageCapabilities {
    pub fn memory_fallback() -> (c: Self)
        ensures
            c == memory_fallback_capabilities(),
    {
        SecureStorageCapabilities {
            provider: SecureStorageProvider::MemoryFallback,
            availability: SecureStorageAvailability::Degraded,
            supports_tokens: true,
            supports_device_keys: true,
            supports_biometric_gate: false,
        }
    }
}

#[derive(Clone, Debug, PartialEq, Eq)]
pub struct DeviceKeyMaterial {
    pub identity_key: Vec<u8>,
    pub x25519_private_key: Vec<u8>,
    pub x25519_public_key: Vec<u8>,
}

#[derive(Clone, Copy, Debug, PartialEq, Eq, Structural)]
pub enum SecureStorageErrorCode {
    Unavailable,
    PermissionDenied,
    CorruptedData,
    Serialization,
    Unknown,
}

#[derive(Clone, Debug, PartialEq, Eq)]
pub struct SecureStorageError {
    pub code: SecureStorageErrorCode,
    pub message: String,
    pub retryable: bool,
}

/// Tokens kept in memory, standing in for a platform keychain.
pub struct InMemorySecureTokenVault {
    tokens: Option<StoredTokens>,
}

impl View for InMemorySecureTokenVault {
    /// The stored access and refresh token.
    type V = Option<(Seq<char>, Seq<char>)>;

    closed spec fn view(&self) -> Option<(Seq<char>, Seq<char>)> {
        match self.tokens {
            Some(t) => Some((t.access_token@, t.refresh_token@)),
            None => None,
        }
    }
}

pub open spec fn tokens_view(t: Option<StoredTokens>) -> Option<(Seq<char>, Seq<char>)> {
    match t {
        Some(t) => Some((t.access_token@, t.refresh_token@)),
        None => None,
    }
}

impl InMemorySecureTokenVault {
    pub fn new() -> (v: Self)
        ensures
            v@ is None,
    {
        InMemorySecureTokenVault { tokens: None }
    }

    pub fn capabilities(&self) -> (c: SecureStorageCapabilities)
        ensures
            c == memory_fallback_capabilities(),
    {
        SecureStorageCapabilities::memory_fallback()
    }

    /// A copy of the stored tokens.
    pub fn read_tokens(&self) -> (r: Result<Option<StoredTokens>, SecureStorageError>)
        ensures
            r matches Ok(t) && tokens_view(t) == self@,
    {
        match &self.tokens {
            Some(t) => Ok(
                Some(
                    StoredTokens {
                        access_token: t.access_token.clone(),
                        refresh_token: t.refresh_token.clone(),
                    },
                ),
            ),
            None => Ok(None),
        }
    }

    pub fn write_tokens(&mut self, tokens: StoredTokens) -> (r: Result<(), SecureStorageError>)
        ensures
            r is Ok,
            final(self)@ == Some((tokens.access_token@, tokens.refresh_token@)),
    {
        self.tokens = Some(tokens);
        Ok(())
    }

    pub fn clear_tokens(&mut self) -> (r: Result<(), SecureStorageError>)
        ensures
            r is Ok,
            final(self)@ is None,
    {
        self.tokens = None;
        Ok(())
    }
}

/// A read after a write gives back what was written; a read after a clear
/// gives nothing.
pub proof fn law_vault_read_after_write(tokens: StoredTokens)
    ensures
        tokens_view(Some(tokens)) == Some((tokens.access_token@, tokens.refresh_token@)),
        tokens_view(None) is None,
{
}

pub struct KeyMaterialModel {
    pub identity_key: Seq<u8>,
    pub x25519_private_key: Seq<u8>,
    pub x25519_public_key: Seq<u8>,
}

pub open spec fn key_material_view(k: DeviceKeyMaterial) -> KeyMaterialModel {
    KeyMaterialModel {
        identity_key: k.identity_key@,
        x25519_private_key: k.x25519_private_key@,
        x25519_public_key: k.x25519_public_key@,
    }
}

/// Device keys kept in memory, standing in for a platform key store.
pub struct InMemoryDeviceKeyStore {
    keys: Option<DeviceKeyMaterial>,
}

impl View for InMemoryDeviceKeyStore {
    type V = Option<KeyMaterialModel>;

    closed spec fn view(&self) -> Option<KeyMaterialModel> {
        match self.keys {
            Some(k) => Some(key_material_view(k)),
            None => None,
        }
    }
}

impl InMemoryDeviceKeyStore {
    pub fn new() -> (s: Self)
        ensures
            s@ is None,
    {
        InMemoryDeviceKeyStore { keys: None }
    }

    pub fn capabilities(&self) -> (c: SecureStorageCapabilities)
        ensures
            c == memory_fallback_capabilities(),
    {
        SecureStorageCapabilities::memory_fallback()
    }

    /// A copy of the stored keys.
    pub fn load_device_keys(&self) -> (r: Result<Option<DeviceKeyMaterial>, SecureStorageError>)
        ensures
            r matches Ok(k) && match k {
                Some(k) => self@ == Some(key_material_view(k)),
                None => self@ is None,
            },
    {
        match &self.keys {
            Some(k) => Ok(
                Some(
                    DeviceKeyMaterial {
                        identity_key: k.identity_key.clone(),
                        x25519_private_key: k.x25519_private_key.clone(),
                        x25519_public_key: k.x25519_public_key.clone(),
                    },
                ),
            ),
            None => Ok(None),
        }
    }

    pub fn save_device_keys(&mut self, keys: DeviceKeyMaterial) -> (r: Result<(), SecureStorageError>)
        ensures
            r is Ok,
            final(self)@ == Some(key_material_view(keys)),
    {
        self.keys = Some(keys);
        Ok(())
    }

    pub fn clear_device_keys(&mut self) -> (r: Result<(), SecureStorageError>)
        ensures
            r is Ok,
            final(self)@ is None,
    {
        self.keys = None;
        Ok(())
    }
}

#[derive(Clone, Copy, Debug, PartialEq, Eq, Structural)]
pub enum PushPlatform {
    Fcm,
    Apns,
}

#[derive(Clone, Copy, Debug, PartialEq, Eq, Structural)]
pub enum PushRegistrationStatus {
    Unregistered,
    Registering,
    Registered,
    Failed,
}

#[derive(Clone, Debug, PartialEq, Eq)]
pub struct PushTokenRegistration {
    pub token: String,
    pub platform: PushPlatform,
}

#[derive(Clone, Debug, PartialEq, Eq)]
pub struct PushRegistrationState {
    pub status: PushRegistrationStatus,
    pub token: Option<String>,
    pub platform: Option<PushPlatform>,
    pub last_error: Option<String>,
    pub last_updated_ms: i64,
}

#[derive(Clone, Copy, Debug, PartialEq, Eq, Structural)]
pub enum PushRegistrationErrorCode {
    EmptyToken,
    Unauthorized,
    Transport,
    Unknown,
}

#[derive(Clone, Debug, PartialEq, Eq)]
pub struct PushRegistrationError {
    pub code: PushRegistrationErrorCode,
    pub message: String,
    pub retryable: bool,
}


pub open spec fn is_unregistered_at(s: PushRegistrationState, now_ms: i64) -> bool {
    &&& s.status == PushRegistrationStatus::Unregistered
    &&& s.token is None
    &&& s.platform is None
    &&& s.last_error is None
    &&& s.last_updated_ms == now_ms
}

impl PushRegistrationState {
    /// No registration, as of `now_ms`.
    pub fn unregistered_at(now_ms: i64) -> (s: Self)
        ensures
            is_unregistered_at(s, now_ms),
    {
        PushRegistrationState {
            status: PushRegistrationStatus::Unregistered,
            token: None,
            platform: None,
            last_error: None,
            last_updated_ms: now_ms,
        }
    }

    /// No registration, as of now.
    pub fn unregistered() -> (s: Self)
        ensures
            exists|now_ms: i64| is_unregistered_at(s, now_ms),
    {
        Self::unregistered_at(now_millis())
    }
}

/// A registrar that records registrations without contacting any service.
pub struct NoopPushRegistrar {
    state: PushRegistrationState,
}

impl NoopPushRegistrar {
    pub fn new() -> (r: Self)
        ensures
            exists|now_ms: i64| is_unregistered_at(r.current(), now_ms),
    {
        NoopPushRegistrar { state: PushRegistrationState::unregistered() }
    }

    /// The last state recorded.
    pub closed spec fn current(&self) -> PushRegistrationState {
        self.state
    }

    /// Registers a token at `now_ms`: a blank token is refused (and nothing
    /// changes), any other becomes the registered token for its platform.
    pub fn register_at(&mut self, registration: PushTokenRegistration, now_ms: i64) -> (r: Result<
        PushRegistrationState,
        PushRegistrationError,
    >)
        ensures
            is_blank(registration.token@) ==> {
                &&& r matches Err(e) && e.code == PushRegistrationErrorCode::EmptyToken
                    && e.message@ == "Push token must not be empty"@ && !e.retryable
                &&& final(self).current() == old(self).current()
            },
            !is_blank(registration.token@) ==> {
                &&& r matches Ok(s) && s.status == PushRegistrationStatus::Registered
                    && (s.token matches Some(t) && t@ == registration.token@)
                    && s.platform == Some(registration.platform) && s.last_error is None
                    && s.last_updated_ms == now_ms
                &&& final(self).current().status == PushRegistrationStatus::Registered
                &&& final(self).current().token matches Some(t) && t@ == registration.token@
                &&& final(self).current().platform == Some(registration.platform)
                &&& final(self).current().last_updated_ms == now_ms
            },
    {
        let trimmed = trim(registration.token.as_str());
        if trimmed.as_str().is_empty() {
            proof {
                reveal_strlit("Push token must not be empty");
            }
            return Err(
                PushRegistrationError {
                    code: PushRegistrationErrorCode::EmptyToken,
                    message: "Push token must not be empty".to_string(),
                    retryable: false,
                },
            );
        }
        let token_copy = registration.token.clone();
        self.state = PushRegistrationState {
            status: PushRegistrationStatus::Registered,
            token: Some(token_copy),
            platform: Some(registration.platform),
            last_error: None,
            last_updated_ms: now_ms,
        };
        Ok(
            PushRegistrationState {
                status: PushRegistrationStatus::Registered,
                token: Some(registration.token),
                platform: Some(registration.platform),
                last_error: None,
                last_updated_ms: now_ms,
            },
        )
    }

    /// Registers a token now.
    pub fn register(&mut self, registration: PushTokenRegistration) -> (r: Result<
        PushRegistrationState,
        PushRegistrationError,
    >)
        ensures
            is_blank(registration.token@) ==> (r matches Err(e) && e.code
                == PushRegistrationErrorCode::EmptyToken && final(self).current()
                == old(self).current()),
            !is_blank(registration.token@) ==> (r matches Ok(s) && s.status
                == PushRegistrationStatus::Registered && s.platform == Some(registration.platform)
                && (s.token matches Some(t) && t@ == registration.token@) && s.last_error is None
                && final(self).current().status == PushRegistrationStatus::Registered
                && final(self).current().platform == Some(registration.platform)
                && (final(self).current().token matches Some(t) && t@ == registration.token@)
                && final(self).current().last_updated_ms == s.last_updated_ms),
    {
        let now_ms = now_millis();
        self.register_at(registration, now_ms)
    }

    /// Drops the registration now.
    pub fn unregister(&mut self) -> (r: Result<PushRegistrationState, PushRegistrationError>)
        ensures
            r matches Ok(s) && (exists|now_ms: i64|
                is_unregistered_at(s, now_ms) && #[trigger] is_unregistered_at(
                    final(self).current(),
                    now_ms,
                )),
    {
        let now_ms = now_millis();
        self.state = PushRegistrationState::unregistered_at(now_ms);
        Ok(PushRegistrationState::unregistered_at(now_ms))
    }

    /// A copy of the last state recorded.
    pub fn current_state(&self) -> (s: PushRegistrationState)
        ensures
            s.status == self.current().status,
            s.platform == self.current().platform,
            s.last_updated_ms == self.current().last_updated_ms,
            s.token is Some == self.current().token is Some,
            s.token matches Some(t) ==> self.current().token matches Some(u) && t@ == u@,
            s.last_error is Some == self.current().last_error is Some,
            s.last_error matches Some(t) ==> self.current().last_error matches Some(u) && t@ == u@,
    {
        let token = match &self.state.token {
            Some(t) => Some(t.clone()),
            None => None,
        };
        let last_error = match &self.state.last_error {
            Some(e) => Some(e.clone()),
            None => None,
        };
        PushRegistrationState {
            status: self.state.status,
            token,
            platform: self.state.platform,
            last_error,
            last_updated_ms: self.state.last_updated_ms,
        }
    }
}

#[derive(Clone, Copy, Debug, PartialEq, Eq, Structural)]
pub enum LifecycleState {
    Launching,
    Active,
    Inactive,
    Background,
    Terminated,
}

#[derive(Clone, Copy, Debug, PartialEq, Eq, Structural)]
pub enum LifecycleHint {
    ReconnectSocket,
    RefreshPushToken,
    PauseRealtime,
    FlushAcks,
    PersistDrafts,
}

#[derive(Clone, Copy, Debug, PartialEq, Eq, Structural)]
pub struct LifecycleEvent {
    pub state: LifecycleState,
    pub timestamp_ms: i64,
    pub user_initiated: bool,
}

/// What the runtime should do when the app enters a lifecycle state.
pub open spec fn hints_for(state: LifecycleState) -> Seq<LifecycleHint> {
    match state {
        LifecycleState::Launching | LifecycleState::Active => seq![
            LifecycleHint::ReconnectSocket,
            LifecycleHint::RefreshPushToken,
        ],
        LifecycleState::Inactive => seq![LifecycleHint::FlushAcks],
        LifecycleState::Background => seq![
            LifecycleHint::PauseRealtime,
            LifecycleHint::FlushAcks,
            LifecycleHint::PersistDrafts,
        ],
        LifecycleState::Terminated => seq![LifecycleHint::FlushAcks, LifecycleHint::PersistDrafts],
    }
}

pub fn lifecycle_hints_for(event: &LifecycleEvent) -> (hints: Vec<LifecycleHint>)
    ensures
        hints@ == hints_for(event.state),
{
    let hints = match event.state {
        LifecycleState::Launching | LifecycleState::Active => vec![
            LifecycleHint::ReconnectSocket,
            LifecycleHint::RefreshPushToken,
        ],
        LifecycleState::Inactive => vec![LifecycleHint::FlushAcks],
        LifecycleState::Background => vec![
            LifecycleHint::PauseRealtime,
            LifecycleHint::FlushAcks,
            LifecycleHint::PersistDrafts,
        ],
        LifecycleState::Terminated => vec![LifecycleHint::FlushAcks, LifecycleHint::PersistDrafts],
    };
    assert(hints@ =~= hints_for(event.state));
    hints
}

/// Platform storage for the session tokens.
pub trait SecureTokenVault {
    fn capabilities(&self) -> SecureStorageCapabilities;

    fn read_tokens(&self) -> Result<Option<StoredTokens>, SecureStorageError>;

    fn write_tokens(&mut self, tokens: StoredTokens) -> Result<(), SecureStorageError>;

    fn clear_tokens(&mut self) -> Result<(), SecureStorageError>;
}

/// Platform storage for the device's key material.
pub trait DeviceKeyStore {
    fn capabilities(&self) -> SecureStorageCapabilities;

    fn load_device_keys(&self) -> Result<Option<DeviceKeyMaterial>, SecureStorageError>;

    fn save_device_keys(&mut self, keys: DeviceKeyMaterial) -> Result<(), SecureStorageError>;

    fn clear_device_keys(&mut self) -> Result<(), SecureStorageError>;
}

/// Registration of the device for push notifications.
pub trait PushRegistrar {
    fn register(&mut self, registration: PushTokenRegistration) -> Result<
        PushRegistrationState,
        PushRegistrationError,
    >;

    fn unregister(&mut self) -> Result<PushRegistrationState, PushRegistrationError>;

    fn current_state(&self) -> PushRegistrationState;
}

/// The bridge through which the platform reports app lifecycle changes.
pub trait LifecycleBridge {
    fn handle_event(&mut self, event: LifecycleEvent) -> Vec<LifecycleHint>;

    fn current_state(&self) -> LifecycleState;
}

impl SecureTokenVault for InMemorySecureTokenVault {
    fn capabilities(&self) -> (c: SecureStorageCapabilities)
        ensures
            c == memory_fallback_capabilities(),
    {
        InMemorySecureTokenVault::capabilities(self)
    }

    fn read_tokens(&self) -> (r: Result<Option<StoredTokens>, SecureStorageError>)
        ensures
            r matches Ok(t) && tokens_view(t) == self@,
    {
        InMemorySecureTokenVault::read_tokens(self)
    }

    fn write_tokens(&mut self, tokens: StoredTokens) -> (r: Result<(), SecureStorageError>)
        ensures
            r is Ok,
            final(self)@ == Some((tokens.access_token@, tokens.refresh_token@)),
    {
        InMemorySecureTokenVault::write_tokens(self, tokens)
    }

    fn clear_tokens(&mut self) -> (r: Result<(), SecureStorageError>)
        ensures
            r is Ok,
            final(self)@ is None,
    {
        InMemorySecureTokenVault::clear_tokens(self)
    }
}

/// The vault also serves as the session's token store.
impl TokenStore for InMemorySecureTokenVault {
    fn read(&self) -> (r: Option<StoredTokens>)
        ensures
            tokens_view(r) == self@,
    {
        match InMemorySecureTokenVault::read_tokens(self) {
            Ok(t) => t,
            Err(_) => None,
        }
    }

    fn write(&mut self, tokens: StoredTokens)
        ensures
            final(self)@ == Some((tokens.access_token@, tokens.refresh_token@)),
    {
        let _ = InMemorySecureTokenVault::write_tokens(self, tokens);
    }

    fn clear(&mut self)
        ensures
            final(self)@ is None,
    {
        let _ = InMemorySecureTokenVault::clear_tokens(self);
    }
}

impl DeviceKeyStore for InMemoryDeviceKeyStore {
    fn capabilities(&self) -> (c: SecureStorageCapabilities)
        ensures
            c == memory_fallback_capabilities(),
    {
        InMemoryDeviceKeyStore::capabilities(self)
    }

    fn load_device_keys(&self) -> (r: Result<Option<DeviceKeyMaterial>, SecureStorageError>)
        ensures
            r matches Ok(k) && match k {
                Some(k) => self@ == Some(key_material_view(k)),
                None => self@ is None,
            },
    {
        InMemoryDeviceKeyStore::load_device_keys(self)
    }

    fn save_device_keys(&mut self, keys: DeviceKeyMaterial) -> (r: Result<(), SecureStorageError>)
        ensures
            r is Ok,
            final(self)@ == Some(key_material_view(keys)),
    {
        InMemoryDeviceKeyStore::save_device_keys(self, keys)
    }

    fn clear_device_keys(&mut self) -> (r: Result<(), SecureStorageError>)
        ensures
            r is Ok,
            final(self)@ is None,
    {
        InMemoryDeviceKeyStore::clear_device_keys(self)
    }
}

impl PushRegistrar for NoopPushRegistrar {
    fn register(&mut self, registration: PushTokenRegistration) -> (r: Result<
        PushRegistrationState,
        PushRegistrationError,
    >)
        ensures
            is_blank(registration.token@) ==> (r matches Err(e) && e.code
                == PushRegistrationErrorCode::EmptyToken && final(self).current()
                == old(self).current()),
            !is_blank(registration.token@) ==> (r matches Ok(s) && s.status
                == PushRegistrationStatus::Registered && s.platform == Some(registration.platform)
                && final(self).current().platform == Some(registration.platform)),
    {
        NoopPushRegistrar::register(self, registration)
    }

    fn unregister(&mut self) -> (r: Result<PushRegistrationState, PushRegistrationError>)
        ensures
            r matches Ok(s) && (exists|now_ms: i64|
                is_unregistered_at(s, now_ms) && #[trigger] is_unregistered_at(
                    final(self).current(),
                    now_ms,
                )),
    {
        NoopPushRegistrar::unregister(self)
    }

    fn current_state(&self) -> (s: PushRegistrationState)
        ensures
            s.status == self.current().status,
            s.platform == self.current().platform,
            s.last_updated_ms == self.current().last_updated_ms,
            s.token is Some == self.current().token is Some,
    {
        NoopPushRegistrar::current_state(self)
    }
}

/// A lifecycle bridge that remembers the last state it was told of.
pub struct InMemoryLifecycleBridge {
    state: LifecycleState,
}

impl View for InMemoryLifecycleBridge {
    type V = LifecycleState;

    closed spec fn view(&self) -> LifecycleState {
        self.state
    }
}

impl InMemoryLifecycleBridge {
    /// A bridge in the launching state.
    pub fn new() -> (b: Self)
        ensures
            b@ == LifecycleState::Launching,
    {
        InMemoryLifecycleBridge { state: LifecycleState::Launching }
    }
}

impl LifecycleBridge for InMemoryLifecycleBridge {
    /// Records the new state and returns its hints.
    fn handle_event(&mut self, event: LifecycleEvent) -> (hints: Vec<LifecycleHint>)
        ensures
            final(self)@ == event.state,
            hints@ == hints_for(event.state),
    {
        self.state = event.state;
        lifecycle_hints_for(&event)
    }

    fn current_state(&self) -> (s: LifecycleState)
        ensures
            s == self@,
    {
        self.state
    }
}

} // verus!
