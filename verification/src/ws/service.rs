//! The WebSocket connection state machine: connection state, the stored access
//! token, and reconnect planning. Opening, closing and writing to the socket
//! are done by the caller, which reports what happened.

use vstd::prelude::*;
use crate::proto::{ConnectMsg, MessageAckMsg, SyncMsg, TypingMsg, PROTOCOL_VERSION};
use crate::ws::reconnect::{delay_for_attempt, ReconnectionManager, ReconnectionModel};
use crate::ws::url::{build_ws_uri, string_result_view, ws_uri_result};

verus! {

/// The state of the connection as shown to the user.
#[derive(Clone, Copy, Debug, PartialEq, Eq, Structural)]
pub enum WsConnectionState {
    Disconnected,
    Connecting,
    Connected,
    Retrying,
    /// Reconnect attempts are used up.
    Exhausted,
}

/// A planned reconnect: wait `delay_ms`, then open `uri`; `attempt` counts from one.
#[derive(Clone, Debug, PartialEq, Eq)]
pub struct ReconnectPlan {
    pub delay_ms: u64,
    pub uri: String,
    pub attempt: usize,
}

pub struct PlanModel {
    pub delay_ms: u64,
    pub uri: Seq<char>,
    pub attempt: nat,
}

impl View for ReconnectPlan {
    type V = PlanModel;

    open spec fn view(&self) -> PlanModel {
        PlanModel { delay_ms: self.delay_ms, uri: self.uri@, attempt: self.attempt as nat }
    }
}

/// Errors of the WebSocket service.
#[derive(Clone, Debug, PartialEq, Eq)]
pub enum WsServiceError {
    InvalidUrl(String),
    Transport(String),
}

/// The abstract state of a [`WsService`].
pub struct WsModel {
    pub server_url: Seq<char>,
    pub manager: ReconnectionModel,
    pub connected: bool,
    pub manual_disconnect: bool,
    pub access_token: Option<Seq<char>>,
    pub state: WsConnectionState,
    pub pending: Option<PlanModel>,
}

/// The state after a connection loss: a reconnect is planned unless the user
/// disconnected, there is no token, the attempts are used up (then the state is
/// `Exhausted`) or the URI cannot be built.
pub open spec fn scheduled(m: WsModel) -> WsModel {
    let lost = WsModel { connected: false, ..m };
    if m.manual_disconnect || m.access_token is None {
        WsModel { pending: None, state: WsConnectionState::Disconnected, ..lost }
    } else if m.manager.attempts >= m.manager.max_attempts {
        WsModel { pending: None, state: WsConnectionState::Exhausted, ..lost }
    } else {
        let delay = delay_for_attempt(m.manager.delays_ms, m.manager.attempts);
        let manager = ReconnectionModel { attempts: m.manager.attempts + 1, ..m.manager };
        match ws_uri_result(m.server_url, m.access_token->0) {
            Ok(uri) => WsModel {
                manager,
                pending: Some(PlanModel { delay_ms: delay, uri, attempt: manager.attempts }),
                state: WsConnectionState::Retrying,
                ..lost
            },
            Err(_) => WsModel {
                manager,
                pending: None,
                state: WsConnectionState::Disconnected,
                ..lost
            },
        }
    }
}

/// The state after the server accepted the session.
pub open spec fn after_hello_ok(m: WsModel) -> WsModel {
    WsModel {
        connected: true,
        state: WsConnectionState::Connected,
        pending: None,
        manager: ReconnectionModel { attempts: 0, ..m.manager },
        ..m
    }
}

/// The state when a connection to `server_url` with `token` starts.
pub open spec fn after_begin_connect(m: WsModel, server_url: Seq<char>, token: Seq<char>) -> WsModel {
    WsModel {
        server_url,
        state: WsConnectionState::Connecting,
        manual_disconnect: false,
        connected: false,
        pending: None,
        access_token: Some(token),
        ..m
    }
}

/// The state when the user disconnects (before the socket is closed).
pub open spec fn after_begin_disconnect(m: WsModel) -> WsModel {
    WsModel {
        manual_disconnect: true,
        connected: false,
        pending: None,
        manager: ReconnectionModel { attempts: 0, ..m.manager },
        ..m
    }
}

/// Tracks the connection and plans reconnects.
pub struct WsService {
    server_url: String,
    reconnection_manager: ReconnectionManager,
    connected: bool,
    manual_disconnect: bool,
    access_token: Option<String>,
    connection_state: WsConnectionState,
    pending_reconnect: Option<ReconnectPlan>,
}

pub open spec fn opt_view(o: Option<String>) -> Option<Seq<char>> {
    match o {
        Some(s) => Some(s@),
        None => None,
    }
}

pub open spec fn plan_view(o: Option<ReconnectPlan>) -> Option<PlanModel> {
    match o {
        Some(p) => Some(p@),
        None => None,
    }
}

impl View for WsService {
    type V = WsModel;

    closed spec fn view(&self) -> WsModel {
        WsModel {
            server_url: self.server_url@,
            manager: self.reconnection_manager@,
            connected: self.connected,
            manual_disconnect: self.manual_disconnect,
            access_token: opt_view(self.access_token),
            state: self.connection_state,
            pending: plan_view(self.pending_reconnect),
        }
    }
}

impl WsService {
    /// The reconnect manager is well formed.
    pub closed spec fn wf(&self) -> bool {
        self.reconnection_manager.well_formed()
    }

    /// A disconnected service for a server.
    pub fn new(server_url: String, reconnection_manager: ReconnectionManager) -> (s: Self)
        requires
            reconnection_manager.well_formed(),
        ensures
            s.wf(),
            s@ == (WsModel {
                server_url: server_url@,
                manager: reconnection_manager@,
                connected: false,
                manual_disconnect: false,
                access_token: None,
                state: WsConnectionState::Disconnected,
                pending: None,
            }),
    {
        WsService {
            server_url,
            reconnection_manager,
            connected: false,
            manual_disconnect: false,
            access_token: None,
            connection_state: WsConnectionState::Disconnected,
            pending_reconnect: None,
        }
    }

    pub fn is_connected(&self) -> (b: bool)
        ensures
            b == self@.connected,
    {
        self.connected
    }

    pub fn connection_state(&self) -> (s: WsConnectionState)
        ensures
            s == self@.state,
    {
        self.connection_state
    }

    pub fn attempts(&self) -> (n: usize)
        ensures
            n == self@.manager.attempts,
    {
        self.reconnection_manager.attempts()
    }

    pub fn pending_reconnect(&self) -> (p: Option<&ReconnectPlan>)
        ensures
            match p {
                Some(plan) => self@.pending == Some(plan@),
                None => self@.pending is None,
            },
    {
        match &self.pending_reconnect {
            Some(plan) => Some(plan),
            None => None,
        }
    }

    /// The server URL the service connects to.
    pub fn server_url(&self) -> (url: &str)
        ensures
            url@ == self@.server_url,
    {
        self.server_url.as_str()
    }

    /// The access token of the current session, if any.
    pub fn access_token(&self) -> (t: Option<&str>)
        ensures
            match t {
                Some(s) => self@.access_token == Some(s@),
                None => self@.access_token is None,
            },
    {
        match &self.access_token {
            Some(token) => Some(token.as_str()),
            None => None,
        }
    }

    /// Starts a connection: records the server and token and enters `Connecting`.
    /// The caller then closes any previous socket and opens [`WsService::connect_uri`].
    pub fn begin_connect(&mut self, server_url: String, access_token: String)
        requires
            old(self).wf(),
        ensures
            final(self).wf(),
            final(self)@ == after_begin_connect(old(self)@, server_url@, access_token@),
    {
        self.server_url = server_url;
        self.connection_state = WsConnectionState::Connecting;
        self.manual_disconnect = false;
        self.connected = false;
        self.pending_reconnect = None;
        self.access_token = Some(access_token);
    }

    /// The URI to open for the current server and token.
    pub fn connect_uri(&self) -> (r: Result<String, WsServiceError>)
        requires
            self@.access_token is Some,
        ensures
            match r {
                Ok(uri) => ws_uri_result(self@.server_url, self@.access_token->0) == Ok::<
                    Seq<char>,
                    Seq<char>,
                >(uri@),
                Err(WsServiceError::InvalidUrl(e)) => ws_uri_result(
                    self@.server_url,
                    self@.access_token->0,
                ) == Err::<Seq<char>, Seq<char>>(e@),
                Err(WsServiceError::Transport(_)) => false,
            },
    {
        let token = match &self.access_token {
            Some(t) => t.as_str(),
            None => "",
        };
        match build_ws_uri(self.server_url.as_str(), token) {
            Ok(uri) => Ok(uri),
            Err(e) => Err(WsServiceError::InvalidUrl(e)),
        }
    }

    /// The frame that opens a session.
    pub fn connect_frame(access_token: String) -> (msg: ConnectMsg)
        ensures
            msg.v == PROTOCOL_VERSION,
            msg.token@ == access_token@,
            msg.capabilities is None,
    {
        ConnectMsg { v: PROTOCOL_VERSION, token: access_token, capabilities: None }
    }

    /// The server and token to reconnect with, when a session token is stored.
    pub fn stored_connection(&self) -> (r: Option<(String, String)>)
        ensures
            match r {
                Some((url, token)) => self@.access_token == Some(token@) && url@ == self@.server_url,
                None => self@.access_token is None,
            },
    {
        match &self.access_token {
            Some(token) => Some((self.server_url.clone(), token.clone())),
            None => None,
        }
    }

    /// The server accepted the session.
    pub fn on_hello_ok(&mut self)
        requires
            old(self).wf(),
        ensures
            final(self).wf(),
            final(self)@ == after_hello_ok(old(self)@),
    {
        self.connected = true;
        self.connection_state = WsConnectionState::Connected;
        self.pending_reconnect = None;
        self.reconnection_manager.on_connected();
    }

    /// The server refused the session.
    pub fn on_hello_error(&mut self)
        requires
            old(self).wf(),
        ensures
            final(self).wf(),
            final(self)@ == scheduled(old(self)@),
    {
        self.connected = false;
        self.connection_state = WsConnectionState::Disconnected;
        self.schedule_reconnect();
    }

    /// The socket failed.
    pub fn on_transport_error(&mut self)
        requires
            old(self).wf(),
        ensures
            final(self).wf(),
            final(self)@ == scheduled(old(self)@),
    {
        self.connected = false;
        self.connection_state = WsConnectionState::Disconnected;
        self.schedule_reconnect();
    }

    /// The socket closed.
    pub fn on_transport_closed(&mut self)
        requires
            old(self).wf(),
        ensures
            final(self).wf(),
            final(self)@ == scheduled(old(self)@),
    {
        self.connected = false;
        self.connection_state = WsConnectionState::Disconnected;
        self.schedule_reconnect();
    }

    /// The user disconnects: no reconnect will be planned until the next connect.
    /// The caller then closes the socket and calls [`WsService::finish_disconnect`].
    pub fn begin_disconnect(&mut self)
        requires
            old(self).wf(),
        ensures
            final(self).wf(),
            final(self)@ == after_begin_disconnect(old(self)@),
    {
        self.manual_disconnect = true;
        self.connected = false;
        self.pending_reconnect = None;
        self.reconnection_manager.reset();
    }

    /// The socket was closed after a disconnect.
    pub fn finish_disconnect(&mut self)
        requires
            old(self).wf(),
        ensures
            final(self).wf(),
            final(self)@ == (WsModel { state: WsConnectionState::Disconnected, ..old(self)@ }),
    {
        self.connection_state = WsConnectionState::Disconnected;
    }

    /// Ends the session: like a disconnect, and the stored token is forgotten,
    /// so no reconnect with it is possible.
    pub fn clear_session(&mut self)
        requires
            old(self).wf(),
        ensures
            final(self).wf(),
            final(self)@ == (WsModel {
                access_token: None,
                state: WsConnectionState::Disconnected,
                ..after_begin_disconnect(old(self)@)
            }),
    {
        self.begin_disconnect();
        self.access_token = None;
        self.connection_state = WsConnectionState::Disconnected;
    }

    /// Typing-started frame for a conversation.
    pub fn typing_frame(conversation_id: u128) -> (msg: TypingMsg)
        ensures
            msg == (TypingMsg {
                v: PROTOCOL_VERSION,
                conversation_id,
                thread_id: None,
                user_id: None,
            }),
    {
        TypingMsg { v: PROTOCOL_VERSION, conversation_id, thread_id: None, user_id: None }
    }

    /// Acknowledgement frame for a conversation.
    pub fn ack_frame(conversation_id: u128, last_seq: i64) -> (msg: MessageAckMsg)
        ensures
            msg == (MessageAckMsg {
                v: PROTOCOL_VERSION,
                conversation_id,
                thread_id: None,
                last_seq,
            }),
    {
        MessageAckMsg { v: PROTOCOL_VERSION, conversation_id, thread_id: None, last_seq }
    }

    /// Sync request frame for a conversation.
    pub fn sync_frame(conversation_id: u128, last_seq: i64) -> (msg: SyncMsg)
        ensures
            msg == (SyncMsg { v: PROTOCOL_VERSION, conversation_id, thread_id: None, last_seq }),
    {
        SyncMsg { v: PROTOCOL_VERSION, conversation_id, thread_id: None, last_seq }
    }

    fn schedule_reconnect(&mut self)
        requires
            old(self).wf(),
            !old(self)@.connected,
        ensures
            final(self).wf(),
            final(self)@ == scheduled(old(self)@),
    {
        if self.manual_disconnect {
            self.pending_reconnect = None;
            self.connection_state = WsConnectionState::Disconnected;
            return;
        }
        let token = match &self.access_token {
            Some(token) => token.clone(),
            None => {
                self.pending_reconnect = None;
                self.connection_state = WsConnectionState::Disconnected;
                return;
            },
        };
        let delay = match self.reconnection_manager.next_delay() {
            Some(delay) => delay,
            None => {
                self.pending_reconnect = None;
                self.connection_state = WsConnectionState::Exhausted;
                return;
            },
        };
        match build_ws_uri(self.server_url.as_str(), token.as_str()) {
            Ok(uri) => {
                self.connection_state = WsConnectionState::Retrying;
                let attempt = self.reconnection_manager.attempts();
                self.pending_reconnect = Some(ReconnectPlan { delay_ms: delay, uri, attempt });
            },
            Err(_) => {
                self.pending_reconnect = None;
                self.connection_state = WsConnectionState::Disconnected;
            },
        }
    }
}

/// A user disconnect blocks reconnects: losing the connection afterwards plans
/// no reconnect and leaves the service disconnected.
pub proof fn law_no_reconnect_after_disconnect(m: WsModel)
    ensures
        scheduled(after_begin_disconnect(m)).pending is None,
        scheduled(after_begin_disconnect(m)).state == WsConnectionState::Disconnected,
        scheduled(after_begin_disconnect(m)).manager.attempts == 0,
{
}

/// Without a stored token nothing is planned either.
pub proof fn law_no_reconnect_without_token(m: WsModel)
    requires
        m.access_token is None,
    ensures
        scheduled(m).pending is None,
        scheduled(m).state == WsConnectionState::Disconnected,
        scheduled(m).manager == m.manager,
{
}

/// Every planned reconnect counts one attempt and never goes beyond the limit;
/// once the limit is reached the state is `Exhausted`.
pub proof fn law_attempts_bounded(m: WsModel)
    requires
        m.manager.attempts <= m.manager.max_attempts,
    ensures
        scheduled(m).manager.attempts <= m.manager.max_attempts,
        scheduled(m).pending matches Some(p) ==> p.attempt == m.manager.attempts + 1
            && p.attempt <= m.manager.max_attempts,
        !m.manual_disconnect && m.access_token is Some && m.manager.attempts
            == m.manager.max_attempts ==> scheduled(m).state == WsConnectionState::Exhausted,
{
}

/// A successful hello forgets earlier attempts: the next loss plans the first delay again.
pub proof fn law_hello_ok_restarts_backoff(m: WsModel)
    requires
        m.manager.delays_ms.len() > 0,
        m.manager.max_attempts > 0,
        m.access_token is Some,
        !m.manual_disconnect,
        ws_uri_result(m.server_url, m.access_token->0) is Ok,
    ensures
        scheduled(after_hello_ok(m)).pending matches Some(p) && p.attempt == 1
            && p.delay_ms == m.manager.delays_ms[0],
{
}

} // verus!
