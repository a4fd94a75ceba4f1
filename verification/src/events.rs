//! Platform-friendly views of the runtime's state and effects: identifiers as
//! strings, instants as milliseconds, and no secret values.

use vstd::prelude::*;
use crate::auth::state::{AuthState, AuthStep, SessionEvent, SessionExpiryReason};
use crate::ids::{uuid_string, uuid_text};
use crate::proto::MessageFormat;
use crate::sync::engine::{ConversationSyncCursor};
use crate::sync::service::{MessageRecord, SyncRequest};
use crate::runtime::{EffectModel, ReportModel, RuntimeBootstrapReport, RuntimeEffect, RuntimeInitStep};
use crate::sync::streaming::{
    tool_calls_view, FinalizedModel, FinalizedStreamMessage, SessionModel, StreamingSession,
    ToolCallRecord, ToolCallModel,
};
use crate::ws::service::{WsConnectionState, WsModel, WsService};
use crate::ws::url::{endpoint_label, public_endpoint_label};

verus! {

#[derive(Clone, Copy, Debug, PartialEq, Eq, Structural)]
pub enum AuthStepView {
    AuthMethodSelect,
    PhoneInput,
    OtpVerify,
    DeviceName,
    UsernameSetup,
    Authenticated,
}

pub open spec fn step_view(s: AuthStep) -> AuthStepView {
    match s {
        AuthStep::AuthMethodSelect => AuthStepView::AuthMethodSelect,
        AuthStep::PhoneInput => AuthStepView::PhoneInput,
        AuthStep::OtpVerify => AuthStepView::OtpVerify,
        AuthStep::DeviceName => AuthStepView::DeviceName,
        AuthStep::UsernameSetup => AuthStepView::UsernameSetup,
        AuthStep::Authenticated => AuthStepView::Authenticated,
    }
}

impl AuthStepView {
    pub fn from(s: &AuthStep) -> (v: Self)
        ensures
            v == step_view(*s),
    {
        match s {
            AuthStep::AuthMethodSelect => AuthStepView::AuthMethodSelect,
            AuthStep::PhoneInput => AuthStepView::PhoneInput,
            AuthStep::OtpVerify => AuthStepView::OtpVerify,
            AuthStep::DeviceName => AuthStepView::DeviceName,
            AuthStep::UsernameSetup => AuthStepView::UsernameSetup,
            AuthStep::Authenticated => AuthStepView::Authenticated,
        }
    }
}

/// The sign-in state without its tokens: only whether each token is present.
#[derive(Clone, Debug, PartialEq, Eq)]
pub struct AuthStateView {
    pub step: AuthStepView,
    pub phone: String,
    pub device_name: String,
    pub username: String,
    pub discoverable_by_phone: bool,
    pub has_session_token: bool,
    pub has_access_token: bool,
    pub has_refresh_token: bool,
    pub is_loading: bool,
    pub error: Option<String>,
}

fn copy_opt(o: &Option<String>) -> (r: Option<String>)
    ensures
        match (r, *o) {
            (Some(a), Some(b)) => a@ == b@,
            (None, None) => true,
            _ => false,
        },
{
    match o {
        Some(s) => Some(s.clone()),
        None => None,
    }
}

impl AuthStateView {
    pub fn from(s: &AuthState) -> (v: Self)
        ensures
            v.step == step_view(s.step),
            v.phone@ == s.phone@,
            v.device_name@ == s.device_name@,
            v.username@ == s.username@,
            v.discoverable_by_phone == s.discoverable_by_phone,
            v.has_session_token == s.session_token is Some,
            v.has_access_token == s.access_token is Some,
            v.has_refresh_token == s.refresh_token is Some,
            v.is_loading == s.is_loading,
            s@.error == crate::auth::state::opt_str(v.error),
    {
        let error = copy_opt(&s.error);
        AuthStateView {
            step: AuthStepView::from(&s.step),
            phone: s.phone.clone(),
            device_name: s.device_name.clone(),
            username: s.username.clone(),
            discoverable_by_phone: s.discoverable_by_phone,
            has_session_token: s.session_token.is_some(),
            has_access_token: s.access_token.is_some(),
            has_refresh_token: s.refresh_token.is_some(),
            is_loading: s.is_loading,
            error,
        }
    }
}

#[derive(Clone, Copy, Debug, PartialEq, Eq, Structural)]
pub enum ConnectionStateView {
    Disconnected,
    Connecting,
    Connected,
    Retrying,
    Exhausted,
}

pub open spec fn connection_state_view(s: WsConnectionState) -> ConnectionStateView {
    match s {
        WsConnectionState::Disconnected => ConnectionStateView::Disconnected,
        WsConnectionState::Connecting => ConnectionStateView::Connecting,
        WsConnectionState::Connected => ConnectionStateView::Connected,
        WsConnectionState::Retrying => ConnectionStateView::Retrying,
        WsConnectionState::Exhausted => ConnectionStateView::Exhausted,
    }
}

impl ConnectionStateView {
    pub fn from(s: WsConnectionState) -> (v: Self)
        ensures
            v == connection_state_view(s),
    {
        match s {
            WsConnectionState::Disconnected => ConnectionStateView::Disconnected,
            WsConnectionState::Connecting => ConnectionStateView::Connecting,
            WsConnectionState::Connected => ConnectionStateView::Connected,
            WsConnectionState::Retrying => ConnectionStateView::Retrying,
            WsConnectionState::Exhausted => ConnectionStateView::Exhausted,
        }
    }
}

/// The connection as the UI sees it; the pending endpoint has no token.
#[derive(Clone, Debug, PartialEq, Eq)]
pub struct ConnectionSnapshot {
    pub state: ConnectionStateView,
    pub attempts: u32,
    pub pending_reconnect_delay_ms: Option<u64>,
    pub pending_reconnect_endpoint: Option<String>,
}

pub struct SnapshotModel {
    pub state: ConnectionStateView,
    pub attempts: u32,
    pub pending_reconnect_delay_ms: Option<u64>,
    pub pending_reconnect_endpoint: Option<Seq<char>>,
}

impl View for ConnectionSnapshot {
    type V = SnapshotModel;

    open spec fn view(&self) -> SnapshotModel {
        SnapshotModel {
            state: self.state,
            attempts: self.attempts,
            pending_reconnect_delay_ms: self.pending_reconnect_delay_ms,
            pending_reconnect_endpoint: match self.pending_reconnect_endpoint {
                Some(e) => Some(e@),
                None => None,
            },
        }
    }
}

/// What the UI is shown of a connection state: the endpoint of a planned
/// reconnect without its token.
pub open spec fn snapshot_of(m: WsModel) -> SnapshotModel {
    SnapshotModel {
        state: connection_state_view(m.state),
        attempts: m.manager.attempts as u32,
        pending_reconnect_delay_ms: match m.pending {
            Some(p) => Some(p.delay_ms),
            None => None,
        },
        pending_reconnect_endpoint: match m.pending {
            Some(p) => Some(endpoint_label(p.uri)),
            None => None,
        },
    }
}

impl ConnectionSnapshot {
    pub fn from(ws: &WsService) -> (v: Self)
        ensures
            v@ == snapshot_of(ws@),
    {
        let attempts = ws.attempts() as u32;
        let (delay, endpoint) = match ws.pending_reconnect() {
            Some(plan) => (Some(plan.delay_ms), Some(public_endpoint_label(plan.uri.as_str()))),
            None => (None, None),
        };
        ConnectionSnapshot {
            state: ConnectionStateView::from(ws.connection_state()),
            attempts,
            pending_reconnect_delay_ms: delay,
            pending_reconnect_endpoint: endpoint,
        }
    }
}

#[derive(Clone, Copy, Debug, PartialEq, Eq, Structural)]
pub struct ActiveStreamsClearedView {
    pub count: u32,
}

#[derive(Clone, Debug, PartialEq, Eq)]
pub struct ConversationCursorView {
    pub conversation_id: String,
    pub last_seq: i64,
}

impl ConversationCursorView {
    pub fn from(c: &ConversationSyncCursor) -> (v: Self)
        ensures
            v.conversation_id@ == uuid_text(c.conversation_id),
            v.last_seq == c.last_seq,
    {
        ConversationCursorView {
            conversation_id: uuid_string(c.conversation_id),
            last_seq: c.last_seq,
        }
    }
}

/// A pending gap recovery.
#[derive(Clone, Debug, PartialEq, Eq)]
pub struct RecoveryCursorView {
    pub conversation_id: String,
    pub request_from_seq: i64,
}

impl RecoveryCursorView {
    pub fn from(c: &ConversationSyncCursor) -> (v: Self)
        ensures
            v.conversation_id@ == uuid_text(c.conversation_id),
            v.request_from_seq == c.last_seq,
    {
        RecoveryCursorView {
            conversation_id: uuid_string(c.conversation_id),
            request_from_seq: c.last_seq,
        }
    }
}

#[derive(Clone, Debug, PartialEq, Eq)]
pub struct ToolCallView {
    pub tool: String,
    pub label: String,
}

impl ToolCallView {
    pub fn from(t: &ToolCallRecord) -> (v: Self)
        ensures
            v.tool@ == t.tool@,
            v.label@ == t.label@,
    {
        ToolCallView { tool: t.tool.clone(), label: t.label.clone() }
    }
}

pub open spec fn tool_views_match(v: Seq<ToolCallView>, t: Seq<ToolCallModel>) -> bool {
    &&& v.len() == t.len()
    &&& forall|i: int| 0 <= i < v.len() ==> #[trigger] v[i].tool@ == t[i].tool && v[i].label@ == t[i].label
}

fn tool_views(v: &Vec<ToolCallRecord>) -> (r: Vec<ToolCallView>)
    ensures
        tool_views_match(r@, tool_calls_view(v@)),
{
    let mut r: Vec<ToolCallView> = Vec::new();
    let mut i: usize = 0;
    while i < v.len()
        invariant
            i <= v@.len(),
            r@.len() == i,
            forall|j: int| 0 <= j < i ==> (#[trigger] r@[j]).tool@ == v@[j].tool@ && r@[j].label@ == v@[j].label@,
        decreases v@.len() - i,
    {
        let t = ToolCallView::from(&v[i]);
        let ghost prev = r@;
        r.push(t);
        assert(forall|j: int| 0 <= j < i ==> r@[j] == prev[j]);
        i = i + 1;
    }
    assert(tool_views_match(r@, tool_calls_view(v@))) by {
        assert forall|j: int| 0 <= j < r@.len() implies #[trigger] r@[j].tool@ == tool_calls_view(v@)[j].tool
            && r@[j].label@ == tool_calls_view(v@)[j].label by {
            assert(r@[j].tool@ == v@[j].tool@);
        }
    }
    r
}

#[derive(Clone, Debug, PartialEq, Eq)]
pub struct StreamingSessionView {
    pub stream_id: String,
    pub conversation_id: String,
    pub agent_id: String,
    pub content: String,
    pub current_tool: Option<String>,
    pub current_tool_label: Option<String>,
    pub tool_complete: bool,
    pub is_complete: bool,
    pub tool_history: Vec<ToolCallView>,
}

pub open spec fn session_view_matches(v: StreamingSessionView, s: SessionModel) -> bool {
    &&& v.stream_id@ == uuid_text(s.stream_id)
    &&& v.conversation_id@ == uuid_text(s.conversation_id)
    &&& v.agent_id@ == uuid_text(s.agent_id)
    &&& v.content@ == s.content
    &&& crate::auth::state::opt_str(v.current_tool) == s.current_tool
    &&& crate::auth::state::opt_str(v.current_tool_label) == s.current_tool_label
    &&& v.tool_complete == s.tool_complete
    &&& v.is_complete == s.is_complete
    &&& tool_views_match(v.tool_history@, s.tool_history)
}

impl StreamingSessionView {
    pub fn from(s: &StreamingSession) -> (v: Self)
        ensures
            session_view_matches(v, s@),
    {
        StreamingSessionView {
            stream_id: uuid_string(s.stream_id),
            conversation_id: uuid_string(s.conversation_id),
            agent_id: uuid_string(s.agent_id),
            content: s.content.clone(),
            current_tool: copy_opt(&s.current_tool),
            current_tool_label: copy_opt(&s.current_tool_label),
            tool_complete: s.tool_complete,
            is_complete: s.is_complete,
            tool_history: tool_views(&s.tool_history),
        }
    }
}

/// The name of a message format.
pub open spec fn format_name(f: MessageFormat) -> Seq<char> {
    match f {
        MessageFormat::Markdown => "markdown"@,
        MessageFormat::Plain => "plain"@,
    }
}

/// The name of a message format, as stored and shown.
pub fn message_format_name(f: &MessageFormat) -> (s: &'static str)
    ensures
        s@ == format_name(*f),
{
    match f {
        MessageFormat::Markdown => "markdown",
        MessageFormat::Plain => "plain",
    }
}

#[derive(Clone, Debug, PartialEq, Eq)]
pub struct FinalizedStreamMessageView {
    pub id: String,
    pub conversation_id: String,
    pub sender_id: String,
    pub content: String,
    pub format: String,
    pub seq: i64,
    pub created_at_ms: i64,
    pub tool_calls: Vec<ToolCallView>,
    pub tokens: u32,
    pub duration_ms: u64,
}

pub open spec fn finalized_view_matches(v: FinalizedStreamMessageView, m: FinalizedModel) -> bool {
    &&& v.id@ == uuid_text(m.id)
    &&& v.conversation_id@ == uuid_text(m.conversation_id)
    &&& v.sender_id@ == uuid_text(m.sender_id)
    &&& v.content@ == m.content
    &&& v.format@ == format_name(m.format)
    &&& v.seq == m.seq
    &&& v.created_at_ms == m.created_at_ms
    &&& tool_views_match(v.tool_calls@, m.tool_calls)
    &&& v.tokens == m.tokens
    &&& v.duration_ms == m.duration_ms
}

impl FinalizedStreamMessageView {
    pub fn from(m: &FinalizedStreamMessage) -> (v: Self)
        ensures
            finalized_view_matches(v, m@),
    {
        FinalizedStreamMessageView {
            id: uuid_string(m.id),
            conversation_id: uuid_string(m.conversation_id),
            sender_id: uuid_string(m.sender_id),
            content: m.content.clone(),
            format: message_format_name(&m.format).to_string(),
            seq: m.seq,
            created_at_ms: m.created_at_ms,
            tool_calls: tool_views(&m.tool_calls),
            tokens: m.tokens,
            duration_ms: m.duration_ms,
        }
    }
}

#[derive(Clone, Copy, Debug, PartialEq, Eq, Structural)]
pub enum RuntimeInitStepView {
    DatabaseOpened,
    TokensRestored,
    BootstrapSkippedNoStoredTokens,
    SessionValidated,
    WsConnected,
}

#[derive(Clone, Copy, Debug, PartialEq, Eq, Structural)]
pub enum SessionExpiryReasonView {
    Unauthorized,
}

#[derive(Clone, Copy, Debug, PartialEq, Eq, Structural)]
pub struct SessionEventView {
    pub reason: SessionExpiryReasonView,
}

impl SessionEventView {
    pub fn from(e: &SessionEvent) -> (v: Self)
        ensures
            e.reason == SessionExpiryReason::Unauthorized ==> v.reason
                == SessionExpiryReasonView::Unauthorized,
    {
        match e.reason {
            SessionExpiryReason::Unauthorized => SessionEventView {
                reason: SessionExpiryReasonView::Unauthorized,
            },
        }
    }
}


/// A stored message as shown to the UI.
#[derive(Clone, Debug, PartialEq, Eq)]
pub struct MessageRecordView {
    pub id: String,
    pub conversation_id: String,
    pub sender_id: String,
    pub content: String,
    pub format: String,
    pub seq: i64,
    pub created_at_ms: i64,
    pub is_me: bool,
    pub is_agent: bool,
}

impl MessageRecordView {
    pub fn from(r: &MessageRecord) -> (v: Self)
        ensures
            v.id@ == r.id@,
            v.conversation_id@ == r.conversation_id@,
            v.sender_id@ == r.sender_id@,
            v.content@ == r.content@,
            v.format@ == r.format@,
            v.seq == r.seq,
            v.created_at_ms == r.created_at_ms,
            v.is_me == r.is_me,
            v.is_agent == r.is_agent,
    {
        MessageRecordView {
            id: r.id.clone(),
            conversation_id: r.conversation_id.clone(),
            sender_id: r.sender_id.clone(),
            content: r.content.clone(),
            format: r.format.clone(),
            seq: r.seq,
            created_at_ms: r.created_at_ms,
            is_me: r.is_me,
            is_agent: r.is_agent,
        }
    }
}

#[derive(Clone, Debug, PartialEq, Eq)]
pub struct SyncRequestView {
    pub conversation_id: String,
    pub last_seq: i64,
}

impl SyncRequestView {
    pub fn from(r: &SyncRequest) -> (v: Self)
        ensures
            v.conversation_id@ == r.conversation_id@,
            v.last_seq == r.last_seq,
    {
        SyncRequestView { conversation_id: r.conversation_id.clone(), last_seq: r.last_seq }
    }
}

#[derive(Clone, Debug, PartialEq, Eq)]
pub struct AckRequestView {
    pub conversation_id: String,
    pub last_seq: i64,
}

#[derive(Clone, Debug, PartialEq, Eq)]
pub struct DuplicateMessageView {
    pub conversation_id: String,
    pub received_seq: i64,
    pub last_seq: i64,
}

impl DuplicateMessageView {
    /// The view of a duplicate-message effect.
    pub fn from(e: &RuntimeEffect) -> (v: Self)
        requires
            e is DuplicateMessage,
        ensures
            e@ matches EffectModel::DuplicateMessage { conversation_id, received_seq, last_seq }
                && v.conversation_id@ == uuid_text(conversation_id) && v.received_seq
                == received_seq && v.last_seq == last_seq,
    {
        match e {
            RuntimeEffect::DuplicateMessage { conversation_id, received_seq, last_seq } => {
                DuplicateMessageView {
                    conversation_id: uuid_string(*conversation_id),
                    received_seq: *received_seq,
                    last_seq: *last_seq,
                }
            },
            _ => {
                proof {
                    assert(false);
                }
                DuplicateMessageView { conversation_id: String::new(), received_seq: 0, last_seq: 0 }
            },
        }
    }
}

#[derive(Clone, Debug, PartialEq, Eq)]
pub struct GapDetectedView {
    pub conversation_id: String,
    pub expected_seq: i64,
    pub received_seq: i64,
    pub request_from_seq: i64,
}

impl GapDetectedView {
    /// The view of a gap-detected effect.
    pub fn from(e: &RuntimeEffect) -> (v: Self)
        requires
            e is GapDetected,
        ensures
            e@ matches EffectModel::GapDetected {
                conversation_id,
                expected_seq,
                received_seq,
                request_from_seq,
            } && v.conversation_id@ == uuid_text(conversation_id) && v.expected_seq
                == expected_seq && v.received_seq == received_seq && v.request_from_seq
                == request_from_seq,
    {
        match e {
            RuntimeEffect::GapDetected {
                conversation_id,
                expected_seq,
                received_seq,
                request_from_seq,
            } => GapDetectedView {
                conversation_id: uuid_string(*conversation_id),
                expected_seq: *expected_seq,
                received_seq: *received_seq,
                request_from_seq: *request_from_seq,
            },
            _ => {
                proof {
                    assert(false);
                }
                GapDetectedView {
                    conversation_id: String::new(),
                    expected_seq: 0,
                    received_seq: 0,
                    request_from_seq: 0,
                }
            },
        }
    }
}

#[derive(Clone, Debug, PartialEq, Eq)]
pub struct DeviceSyncAppliedView {
    pub conversation_id: String,
    pub applied_count: u32,
    pub highest_seq: i64,
}

impl DeviceSyncAppliedView {
    /// The view of a device-sync-applied effect.
    pub fn from(e: &RuntimeEffect) -> (v: Self)
        requires
            e is DeviceSyncApplied,
        ensures
            e@ matches EffectModel::DeviceSyncApplied { conversation_id, applied_count, highest_seq }
                && v.conversation_id@ == uuid_text(conversation_id) && v.applied_count
                == applied_count && v.highest_seq == highest_seq,
    {
        match e {
            RuntimeEffect::DeviceSyncApplied { conversation_id, applied_count, highest_seq } => {
                DeviceSyncAppliedView {
                    conversation_id: uuid_string(*conversation_id),
                    applied_count: *applied_count,
                    highest_seq: *highest_seq,
                }
            },
            _ => {
                proof {
                    assert(false);
                }
                DeviceSyncAppliedView { conversation_id: String::new(), applied_count: 0, highest_seq: 0 }
            },
        }
    }
}

#[derive(Clone, Debug, PartialEq, Eq)]
pub struct ReconnectScheduledView {
    pub delay_ms: u64,
    pub endpoint: String,
    pub attempt: u32,
}

#[derive(Clone, Debug, PartialEq, Eq)]
pub struct ReconnectAttemptStartedView {
    pub endpoint: String,
    pub attempt: u32,
}

#[derive(Clone, Debug, PartialEq, Eq)]
pub struct DeviceSyncBatchProcessedView {
    pub message_count: u32,
    pub conversation_count: u32,
    pub conversation_ids: Vec<String>,
}

pub open spec fn step_view_of(s: RuntimeInitStep) -> RuntimeInitStepView {
    match s {
        RuntimeInitStep::DatabaseOpened => RuntimeInitStepView::DatabaseOpened,
        RuntimeInitStep::TokensRestored => RuntimeInitStepView::TokensRestored,
        RuntimeInitStep::BootstrapSkippedNoStoredTokens => {
            RuntimeInitStepView::BootstrapSkippedNoStoredTokens
        },
        RuntimeInitStep::SessionValidated => RuntimeInitStepView::SessionValidated,
        RuntimeInitStep::WsConnected => RuntimeInitStepView::WsConnected,
    }
}

impl RuntimeInitStepView {
    pub fn from(s: &RuntimeInitStep) -> (v: Self)
        ensures
            v == step_view_of(*s),
    {
        match s {
            RuntimeInitStep::DatabaseOpened => RuntimeInitStepView::DatabaseOpened,
            RuntimeInitStep::TokensRestored => RuntimeInitStepView::TokensRestored,
            RuntimeInitStep::BootstrapSkippedNoStoredTokens => {
                RuntimeInitStepView::BootstrapSkippedNoStoredTokens
            },
            RuntimeInitStep::SessionValidated => RuntimeInitStepView::SessionValidated,
            RuntimeInitStep::WsConnected => RuntimeInitStepView::WsConnected,
        }
    }
}

/// A start-up report without its tokens.
#[derive(Clone, Debug, PartialEq, Eq)]
pub struct RuntimeBootstrapReportView {
    pub steps: Vec<RuntimeInitStepView>,
    pub has_tokens: bool,
    pub has_profile: bool,
    pub connected_uri: Option<String>,
}

pub open spec fn report_view_matches(v: RuntimeBootstrapReportView, r: ReportModel) -> bool {
    &&& v.steps@ == r.steps.map_values(|s: RuntimeInitStep| step_view_of(s))
    &&& v.has_tokens == r.tokens is Some
    &&& v.has_profile == r.profile is Some
    &&& match (v.connected_uri, r.connected_endpoint) {
        (Some(a), Some(b)) => a@ == b,
        (None, None) => true,
        _ => false,
    }
}

impl RuntimeBootstrapReportView {
    pub fn from(r: &RuntimeBootstrapReport) -> (v: Self)
        ensures
            report_view_matches(v, r@),
    {
        let mut steps: Vec<RuntimeInitStepView> = Vec::new();
        let mut i: usize = 0;
        while i < r.steps.len()
            invariant
                i <= r.steps@.len(),
                steps@.len() == i,
                forall|k: int| 0 <= k < i ==> #[trigger] steps@[k] == step_view_of(r.steps@[k]),
            decreases r.steps@.len() - i,
        {
            steps.push(RuntimeInitStepView::from(&r.steps[i]));
            i = i + 1;
        }
        assert(steps@ =~= r@.steps.map_values(|s: RuntimeInitStep| step_view_of(s)));
        let connected_uri = copy_opt(&r.connected_endpoint);
        RuntimeBootstrapReportView {
            steps,
            has_tokens: r.tokens.is_some(),
            has_profile: r.profile.is_some(),
            connected_uri,
        }
    }
}

/// What the UI shows of the runtime.
#[derive(Clone, Debug, PartialEq, Eq)]
pub struct RuntimeSnapshot {
    pub connection: ConnectionSnapshot,
    pub cursors: Vec<ConversationCursorView>,
    pub pending_recoveries: Vec<RecoveryCursorView>,
    pub active_streams: Vec<StreamingSessionView>,
}

/// A runtime effect as an event for the UI.
#[derive(Clone, Debug, PartialEq, Eq)]
pub enum CoreEvent {
    AuthStateChanged(AuthStateView),
    BootstrapProgress(RuntimeBootstrapReportView),
    ConnectionStateChanged(ConnectionSnapshot),
    ReconnectScheduled(ReconnectScheduledView),
    ReconnectAttemptStarted(ReconnectAttemptStartedView),
    ActiveStreamsCleared(ActiveStreamsClearedView),
    SessionInvalidated(SessionEventView),
    SyncRequested(SyncRequestView),
    AckRequested(AckRequestView),
    DuplicateMessage(DuplicateMessageView),
    GapDetected(GapDetectedView),
    DeviceSyncApplied(DeviceSyncAppliedView),
    DeviceSyncBatchProcessed(DeviceSyncBatchProcessedView),
    MessagePersisted(MessageRecordView),
    StreamUpdated(StreamingSessionView),
    StreamFinalized(FinalizedStreamMessageView),
}

/// Whether `ev` is the UI event of effect `e`: the same kind, identifiers as
/// text and the same values.
pub open spec fn event_of(e: EffectModel, ev: CoreEvent) -> bool {
    match (e, ev) {
        (EffectModel::BootstrapProgress(r), CoreEvent::BootstrapProgress(v)) => report_view_matches(v, r),
        (EffectModel::ConnectionStateChanged(s), CoreEvent::ConnectionStateChanged(v)) => v@ == s,
        (
            EffectModel::ReconnectScheduled { delay_ms, endpoint, attempt },
            CoreEvent::ReconnectScheduled(v),
        ) => v.delay_ms == delay_ms && v.endpoint@ == endpoint && v.attempt == attempt,
        (
            EffectModel::ReconnectAttemptStarted { endpoint, attempt },
            CoreEvent::ReconnectAttemptStarted(v),
        ) => v.endpoint@ == endpoint && v.attempt == attempt,
        (EffectModel::ActiveStreamsCleared { count }, CoreEvent::ActiveStreamsCleared(v)) => v.count
            == count,
        (EffectModel::SessionInvalidated(s), CoreEvent::SessionInvalidated(v)) => s.reason
            == SessionExpiryReason::Unauthorized && v.reason == SessionExpiryReasonView::Unauthorized,
        (EffectModel::SyncRequested(q), CoreEvent::SyncRequested(v)) => v.conversation_id@
            == q.conversation_id && v.last_seq == q.last_seq,
        (EffectModel::AckRequested { conversation_id, last_seq }, CoreEvent::AckRequested(v)) => {
            v.conversation_id@ == uuid_text(conversation_id) && v.last_seq == last_seq
        },
        (
            EffectModel::DuplicateMessage { conversation_id, received_seq, last_seq },
            CoreEvent::DuplicateMessage(v),
        ) => v.conversation_id@ == uuid_text(conversation_id) && v.received_seq == received_seq
            && v.last_seq == last_seq,
        (
            EffectModel::GapDetected { conversation_id, expected_seq, received_seq, request_from_seq },
            CoreEvent::GapDetected(v),
        ) => v.conversation_id@ == uuid_text(conversation_id) && v.expected_seq == expected_seq
            && v.received_seq == received_seq && v.request_from_seq == request_from_seq,
        (
            EffectModel::DeviceSyncApplied { conversation_id, applied_count, highest_seq },
            CoreEvent::DeviceSyncApplied(v),
        ) => v.conversation_id@ == uuid_text(conversation_id) && v.applied_count == applied_count
            && v.highest_seq == highest_seq,
        (
            EffectModel::DeviceSyncBatchProcessed { message_count, conversation_count, conversation_ids },
            CoreEvent::DeviceSyncBatchProcessed(v),
        ) => v.message_count == message_count && v.conversation_count == conversation_count
            && v.conversation_ids@.len() == conversation_ids.len() && forall|i: int|
            0 <= i < conversation_ids.len() ==> #[trigger] v.conversation_ids@[i]@ == uuid_text(
            conversation_ids[i]),
        (EffectModel::MessagePersisted(r), CoreEvent::MessagePersisted(v)) => v.id@ == r.id
            && v.conversation_id@ == r.conversation_id && v.sender_id@ == r.sender_id
            && v.content@ == r.content && v.format@ == r.format && v.seq == r.seq
            && v.created_at_ms == r.created_at_ms && v.is_me == r.is_me && v.is_agent == r.is_agent,
        (EffectModel::StreamUpdated(s), CoreEvent::StreamUpdated(v)) => session_view_matches(v, s),
        (EffectModel::StreamFinalized(f), CoreEvent::StreamFinalized(v)) => finalized_view_matches(v, f),
        _ => false,
    }
}

fn uuid_strings(ids: &Vec<u128>) -> (r: Vec<String>)
    ensures
        r@.len() == ids@.len(),
        forall|i: int| 0 <= i < ids@.len() ==> #[trigger] r@[i]@ == uuid_text(ids@[i]),
{
    let mut r: Vec<String> = Vec::new();
    let mut i: usize = 0;
    while i < ids.len()
        invariant
            i <= ids@.len(),
            r@.len() == i,
            forall|k: int| 0 <= k < i ==> #[trigger] r@[k]@ == uuid_text(ids@[k]),
        decreases ids@.len() - i,
    {
        r.push(uuid_string(ids[i]));
        i = i + 1;
    }
    r
}

impl CoreEvent {
    /// The UI event of a runtime effect.
    pub fn from(e: &RuntimeEffect) -> (ev: Self)
        ensures
            event_of(e@, ev),
    {
        match e {
            RuntimeEffect::BootstrapProgress(r) => CoreEvent::BootstrapProgress(
                RuntimeBootstrapReportView::from(r),
            ),
            RuntimeEffect::ConnectionStateChanged(s) => {
                let copy = ConnectionSnapshot {
                    state: s.state,
                    attempts: s.attempts,
                    pending_reconnect_delay_ms: s.pending_reconnect_delay_ms,
                    pending_reconnect_endpoint: copy_opt(&s.pending_reconnect_endpoint),
                };
                CoreEvent::ConnectionStateChanged(copy)
            },
            RuntimeEffect::ReconnectScheduled { delay_ms, endpoint, attempt } => {
                CoreEvent::ReconnectScheduled(
                    ReconnectScheduledView {
                        delay_ms: *delay_ms,
                        endpoint: endpoint.clone(),
                        attempt: *attempt,
                    },
                )
            },
            RuntimeEffect::ReconnectAttemptStarted { endpoint, attempt } => {
                CoreEvent::ReconnectAttemptStarted(
                    ReconnectAttemptStartedView { endpoint: endpoint.clone(), attempt: *attempt },
                )
            },
            RuntimeEffect::ActiveStreamsCleared { count } => CoreEvent::ActiveStreamsCleared(
                ActiveStreamsClearedView { count: *count },
            ),
            RuntimeEffect::SessionInvalidated(event) => CoreEvent::SessionInvalidated(
                SessionEventView::from(event),
            ),
            RuntimeEffect::SyncRequested(q) => CoreEvent::SyncRequested(SyncRequestView::from(q)),
            RuntimeEffect::AckRequested { conversation_id, last_seq } => CoreEvent::AckRequested(
                AckRequestView { conversation_id: uuid_string(*conversation_id), last_seq: *last_seq },
            ),
            RuntimeEffect::DuplicateMessage { .. } => CoreEvent::DuplicateMessage(
                DuplicateMessageView::from(e),
            ),
            RuntimeEffect::GapDetected { .. } => CoreEvent::GapDetected(GapDetectedView::from(e)),
            RuntimeEffect::DeviceSyncApplied { .. } => CoreEvent::DeviceSyncApplied(
                DeviceSyncAppliedView::from(e),
            ),
            RuntimeEffect::DeviceSyncBatchProcessed {
                message_count,
                conversation_count,
                conversation_ids,
            } => CoreEvent::DeviceSyncBatchProcessed(
                DeviceSyncBatchProcessedView {
                    message_count: *message_count,
                    conversation_count: *conversation_count,
                    conversation_ids: uuid_strings(conversation_ids),
                },
            ),
            RuntimeEffect::MessagePersisted(r) => CoreEvent::MessagePersisted(
                MessageRecordView::from(r),
            ),
            RuntimeEffect::StreamUpdated(s) => CoreEvent::StreamUpdated(StreamingSessionView::from(s)),
            RuntimeEffect::StreamFinalized(f) => CoreEvent::StreamFinalized(
                FinalizedStreamMessageView::from(f),
            ),
        }
    }
}

} // verus!
