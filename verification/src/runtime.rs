//! The client runtime: it feeds server frames and connection events to the
//! sync engine, the streaming state and the WebSocket service, and answers with
//! the effects the platform layer carries out (persisting, acknowledging,
//! requesting sync, updating the UI).

use vstd::prelude::*;
use crate::clock::now_millis;
use crate::auth::state::{AuthBackendError, AuthUserProfile, SessionEvent, StoredTokens};
use crate::events::{
    snapshot_of, ConnectionSnapshot, ConversationCursorView, RecoveryCursorView, RuntimeSnapshot,
    session_view_matches, SnapshotModel, StreamingSessionView,
};
use crate::sync::engine::{SyncEngine, SyncModel};
use crate::sync::service::{
    load_cursors, CursorLoadError, ConversationRecord, MessageRecord, RecordModel, SyncRequest,
    SyncRequestModel,
};
use crate::sync::streaming::{
    FinalizedModel, FinalizedStreamMessage, SessionModel, StreamingSession, StreamingState,
};
use crate::sync::service::first_invalid;
use crate::sync::service::cursor_of;
use crate::ws::service::{WsModel, WsService, WsServiceError};
use crate::ws::url::{endpoint_label, public_endpoint_label};
use crate::sync::engine::cursor_map;
use crate::sync::engine::{
    gap_fill_cursors, gap_fill_heads, get_or_zero, max_i64, message_scope, raise,
    without_conversations, ConversationSyncCursor, MessageSyncOutcome,
};
use crate::sync::table::{main_key, seq_to_map, sorted, Table};
use crate::sync::service::{message_record_from, record_of};
use crate::proto::{ConvSyncState, DeviceSyncResponse, MessageReceivedMsg};
use crate::ids::{uuid_string, uuid_text};
use crate::proto::ServerMessage;
use crate::sync::service::{head_view, sync_requests, sync_requests_of, ThreadCursorRecord};
use crate::sync::streaming::{
    after_delta, after_tool_end, after_tool_start, copy_session, finalized_from, started_session,
};
use crate::ws::service::{after_hello_ok, scheduled};

verus! {

/// A count as a `u32`, saturating at `u32::MAX`.
pub fn saturating_u32(value: usize) -> (r: u32)
    ensures
        r == (if value <= u32::MAX { value as int } else { u32::MAX as int }),
{
    if value <= 4294967295usize {
        value as u32
    } else {
        4294967295u32
    }
}

/// A duration as a `u64`, saturating at `u64::MAX`.
pub fn saturating_u64(value: u128) -> (r: u64)
    ensures
        r == (if value <= u64::MAX { value as int } else { u64::MAX as int }),
{
    if value <= 18446744073709551615u128 {
        value as u64
    } else {
        18446744073709551615u64
    }
}

/// Errors of the runtime.
#[derive(Clone, Debug, PartialEq, Eq)]
pub enum CoreRuntimeError {
    /// The local store failed.
    Db(String),
    Auth(AuthBackendError),
    Ws(WsServiceError),
    /// A stored conversation id is not a UUID.
    InvalidConversationId(String),
}

/// A step of starting the runtime.
#[derive(Clone, Copy, Debug, PartialEq, Eq, Structural)]
pub enum RuntimeInitStep {
    DatabaseOpened,
    TokensRestored,
    BootstrapSkippedNoStoredTokens,
    SessionValidated,
    WsConnected,
}

/// What starting the runtime did.
#[derive(Clone, Debug, PartialEq, Eq)]
pub struct RuntimeBootstrapReport {
    pub steps: Vec<RuntimeInitStep>,
    pub tokens: Option<StoredTokens>,
    pub profile: Option<AuthUserProfile>,
    pub connected_endpoint: Option<String>,
}

pub struct ReportModel {
    pub steps: Seq<RuntimeInitStep>,
    /// The access and refresh token, when tokens were restored.
    pub tokens: Option<(Seq<char>, Seq<char>)>,
    /// The user name and discoverability, when the session was validated.
    pub profile: Option<(Seq<char>, bool)>,
    pub connected_endpoint: Option<Seq<char>>,
}

impl View for RuntimeBootstrapReport {
    type V = ReportModel;

    open spec fn view(&self) -> ReportModel {
        ReportModel {
            steps: self.steps@,
            tokens: match self.tokens {
                Some(t) => Some((t.access_token@, t.refresh_token@)),
                None => None,
            },
            profile: match self.profile {
                Some(p) => Some((p.username@, p.discoverable_by_phone)),
                None => None,
            },
            connected_endpoint: match self.connected_endpoint {
                Some(e) => Some(e@),
                None => None,
            },
        }
    }
}

impl RuntimeBootstrapReport {
    /// The report once the database is open.
    pub fn db_only() -> (r: Self)
        ensures
            r@.steps == seq![RuntimeInitStep::DatabaseOpened],
            r@.tokens is None,
            r@.profile is None,
            r@.connected_endpoint is None,
    {
        RuntimeBootstrapReport {
            steps: vec![RuntimeInitStep::DatabaseOpened],
            tokens: None,
            profile: None,
            connected_endpoint: None,
        }
    }

    /// The report when no tokens are stored: nothing after the database.
    pub fn skipped() -> (r: Self)
        ensures
            r@.steps == seq![
                RuntimeInitStep::DatabaseOpened,
                RuntimeInitStep::BootstrapSkippedNoStoredTokens,
            ],
            r@.tokens is None,
            r@.profile is None,
            r@.connected_endpoint is None,
    {
        let mut r = Self::db_only();
        r.steps.push(RuntimeInitStep::BootstrapSkippedNoStoredTokens);
        r
    }

    /// The report of a full start: the database, then the restored tokens,
    /// then the validated session, then the connection to `uri` (shown
    /// without its token).
    pub fn completed(tokens: StoredTokens, profile: AuthUserProfile, uri: &str) -> (r: Self)
        ensures
            r@.steps == seq![
                RuntimeInitStep::DatabaseOpened,
                RuntimeInitStep::TokensRestored,
                RuntimeInitStep::SessionValidated,
                RuntimeInitStep::WsConnected,
            ],
            r@.tokens == Some((tokens.access_token@, tokens.refresh_token@)),
            r@.profile == Some((profile.username@, profile.discoverable_by_phone)),
            r@.connected_endpoint == Some(endpoint_label(uri@)),
    {
        let mut r = Self::db_only();
        r.steps.push(RuntimeInitStep::TokensRestored);
        r.tokens = Some(tokens);
        r.steps.push(RuntimeInitStep::SessionValidated);
        r.profile = Some(profile);
        r.steps.push(RuntimeInitStep::WsConnected);
        r.connected_endpoint = Some(public_endpoint_label(uri));
        r
    }
}

/// Something the platform layer must do or show.
#[derive(Clone, Debug, PartialEq, Eq)]
pub enum RuntimeEffect {
    BootstrapProgress(RuntimeBootstrapReport),
    ConnectionStateChanged(ConnectionSnapshot),
    ReconnectScheduled { delay_ms: u64, endpoint: String, attempt: u32 },
    ReconnectAttemptStarted { endpoint: String, attempt: u32 },
    ActiveStreamsCleared { count: u32 },
    SessionInvalidated(SessionEvent),
    SyncRequested(SyncRequest),
    AckRequested { conversation_id: u128, last_seq: i64 },
    DuplicateMessage { conversation_id: u128, received_seq: i64, last_seq: i64 },
    GapDetected {
        conversation_id: u128,
        expected_seq: i64,
        received_seq: i64,
        request_from_seq: i64,
    },
    DeviceSyncApplied { conversation_id: u128, applied_count: u32, highest_seq: i64 },
    DeviceSyncBatchProcessed {
        message_count: u32,
        conversation_count: u32,
        conversation_ids: Vec<u128>,
    },
    MessagePersisted(MessageRecord),
    StreamUpdated(StreamingSession),
    StreamFinalized(FinalizedStreamMessage),
}

/// The abstract value of a [`RuntimeEffect`].
pub enum EffectModel {
    BootstrapProgress(ReportModel),
    ConnectionStateChanged(SnapshotModel),
    ReconnectScheduled { delay_ms: u64, endpoint: Seq<char>, attempt: u32 },
    ReconnectAttemptStarted { endpoint: Seq<char>, attempt: u32 },
    ActiveStreamsCleared { count: u32 },
    SessionInvalidated(SessionEvent),
    SyncRequested(SyncRequestModel),
    AckRequested { conversation_id: u128, last_seq: i64 },
    DuplicateMessage { conversation_id: u128, received_seq: i64, last_seq: i64 },
    GapDetected {
        conversation_id: u128,
        expected_seq: i64,
        received_seq: i64,
        request_from_seq: i64,
    },
    DeviceSyncApplied { conversation_id: u128, applied_count: u32, highest_seq: i64 },
    DeviceSyncBatchProcessed {
        message_count: u32,
        conversation_count: u32,
        conversation_ids: Seq<u128>,
    },
    MessagePersisted(RecordModel),
    StreamUpdated(SessionModel),
    StreamFinalized(FinalizedModel),
}

impl View for RuntimeEffect {
    type V = EffectModel;

    open spec fn view(&self) -> EffectModel {
        match self {
            RuntimeEffect::BootstrapProgress(r) => EffectModel::BootstrapProgress(r@),
            RuntimeEffect::ConnectionStateChanged(s) => EffectModel::ConnectionStateChanged(s@),
            RuntimeEffect::ReconnectScheduled { delay_ms, endpoint, attempt } => {
                EffectModel::ReconnectScheduled {
                    delay_ms: *delay_ms,
                    endpoint: endpoint@,
                    attempt: *attempt,
                }
            },
            RuntimeEffect::ReconnectAttemptStarted { endpoint, attempt } => {
                EffectModel::ReconnectAttemptStarted { endpoint: endpoint@, attempt: *attempt }
            },
            RuntimeEffect::ActiveStreamsCleared { count } => EffectModel::ActiveStreamsCleared {
                count: *count,
            },
            RuntimeEffect::SessionInvalidated(e) => EffectModel::SessionInvalidated(*e),
            RuntimeEffect::SyncRequested(q) => EffectModel::SyncRequested(q@),
            RuntimeEffect::AckRequested { conversation_id, last_seq } => EffectModel::AckRequested {
                conversation_id: *conversation_id,
                last_seq: *last_seq,
            },
            RuntimeEffect::DuplicateMessage { conversation_id, received_seq, last_seq } => {
                EffectModel::DuplicateMessage {
                    conversation_id: *conversation_id,
                    received_seq: *received_seq,
                    last_seq: *last_seq,
                }
            },
            RuntimeEffect::GapDetected {
                conversation_id,
                expected_seq,
                received_seq,
                request_from_seq,
            } => EffectModel::GapDetected {
                conversation_id: *conversation_id,
                expected_seq: *expected_seq,
                received_seq: *received_seq,
                request_from_seq: *request_from_seq,
            },
            RuntimeEffect::DeviceSyncApplied { conversation_id, applied_count, highest_seq } => {
                EffectModel::DeviceSyncApplied {
                    conversation_id: *conversation_id,
                    applied_count: *applied_count,
                    highest_seq: *highest_seq,
                }
            },
            RuntimeEffect::DeviceSyncBatchProcessed {
                message_count,
                conversation_count,
                conversation_ids,
            } => EffectModel::DeviceSyncBatchProcessed {
                message_count: *message_count,
                conversation_count: *conversation_count,
                conversation_ids: conversation_ids@,
            },
            RuntimeEffect::MessagePersisted(r) => EffectModel::MessagePersisted(r@),
            RuntimeEffect::StreamUpdated(s) => EffectModel::StreamUpdated(s@),
            RuntimeEffect::StreamFinalized(f) => EffectModel::StreamFinalized(f@),
        }
    }
}

/// The views of a list of effects.
pub open spec fn effects_view(v: Seq<RuntimeEffect>) -> Seq<EffectModel> {
    v.map_values(|e: RuntimeEffect| e@)
}

/// The part of the app an effect concerns.
#[derive(Clone, Copy, Debug, PartialEq, Eq, Structural)]
pub enum RuntimeEffectDomain {
    Lifecycle,
    Connection,
    Sync,
    Streaming,
}

/// Start-up, stream clearing and session loss are lifecycle effects; connection
/// changes and reconnects are connection effects; streaming updates are
/// streaming effects; everything about messages and cursors is a sync effect.
pub open spec fn effect_domain(e: EffectModel) -> RuntimeEffectDomain {
    match e {
        EffectModel::BootstrapProgress(_) | EffectModel::ActiveStreamsCleared { .. }
        | EffectModel::SessionInvalidated(_) => RuntimeEffectDomain::Lifecycle,
        EffectModel::ConnectionStateChanged(_) | EffectModel::ReconnectScheduled { .. }
        | EffectModel::ReconnectAttemptStarted { .. } => RuntimeEffectDomain::Connection,
        EffectModel::StreamUpdated(_) | EffectModel::StreamFinalized(_) => {
            RuntimeEffectDomain::Streaming
        },
        _ => RuntimeEffectDomain::Sync,
    }
}

impl RuntimeEffect {
    pub fn domain(&self) -> (d: RuntimeEffectDomain)
        ensures
            d == effect_domain(self@),
    {
        match self {
            RuntimeEffect::BootstrapProgress(_)
            | RuntimeEffect::ActiveStreamsCleared { .. }
            | RuntimeEffect::SessionInvalidated(_) => RuntimeEffectDomain::Lifecycle,
            RuntimeEffect::ConnectionStateChanged(_)
            | RuntimeEffect::ReconnectScheduled { .. }
            | RuntimeEffect::ReconnectAttemptStarted { .. } => RuntimeEffectDomain::Connection,
            RuntimeEffect::SyncRequested(_)
            | RuntimeEffect::AckRequested { .. }
            | RuntimeEffect::DuplicateMessage { .. }
            | RuntimeEffect::GapDetected { .. }
            | RuntimeEffect::DeviceSyncApplied { .. }
            | RuntimeEffect::DeviceSyncBatchProcessed { .. }
            | RuntimeEffect::MessagePersisted(_) => RuntimeEffectDomain::Sync,
            RuntimeEffect::StreamUpdated(_) | RuntimeEffect::StreamFinalized(_) => {
                RuntimeEffectDomain::Streaming
            },
        }
    }
}


/// A count as a `u32`, saturating at `u32::MAX`.
pub open spec fn sat_u32(n: nat) -> u32 {
    if n <= u32::MAX { n as u32 } else { u32::MAX }
}

/// The effects of a connection change: the planned reconnect, if any, then
/// the new connection state.
pub open spec fn transition_effects(m: WsModel) -> Seq<EffectModel> {
    let changed = seq![EffectModel::ConnectionStateChanged(snapshot_of(m))];
    match m.pending {
        Some(p) => seq![
            EffectModel::ReconnectScheduled {
                delay_ms: p.delay_ms,
                endpoint: endpoint_label(p.uri),
                attempt: sat_u32(p.attempt),
            },
        ] + changed,
        None => changed,
    }
}

/// The effects of losing the session with `count` active streams: the streams
/// are cleared (when there were any), then the session is reported invalid,
/// then the connection state.
pub open spec fn session_loss_effects(count: nat, event: SessionEvent, m: WsModel) -> Seq<
    EffectModel,
> {
    let tail = seq![
        EffectModel::SessionInvalidated(event),
        EffectModel::ConnectionStateChanged(snapshot_of(m)),
    ];
    if count > 0 {
        seq![EffectModel::ActiveStreamsCleared { count: sat_u32(count) }] + tail
    } else {
        tail
    }
}

/// How a received message changes the sync state, and the effects it has:
/// a duplicate is acknowledged at the scope's cursor; a message beyond the
/// conversation head marks a recovery from the head and requests a sync; the
/// next message is applied, persisted and acknowledged.
pub open spec fn ingest_spec(s: SyncModel, msg: MessageReceivedMsg) -> (SyncModel, Seq<EffectModel>) {
    let scope = message_scope(msg);
    let scope_current = get_or_zero(s.cursors, scope);
    let current = get_or_zero(s.heads, main_key(msg.conversation_id));
    if msg.seq <= scope_current {
        (
            s,
            seq![
                EffectModel::DuplicateMessage {
                    conversation_id: msg.conversation_id,
                    received_seq: msg.seq,
                    last_seq: scope_current,
                },
                EffectModel::AckRequested {
                    conversation_id: msg.conversation_id,
                    last_seq: scope_current,
                },
            ],
        )
    } else if msg.seq > current + 1 {
        (
            SyncModel {
                pending: s.pending.insert(main_key(msg.conversation_id), max_i64(current, 0)),
                ..s
            },
            seq![
                EffectModel::GapDetected {
                    conversation_id: msg.conversation_id,
                    expected_seq: (current + 1) as i64,
                    received_seq: msg.seq,
                    request_from_seq: current,
                },
                EffectModel::SyncRequested(
                    SyncRequestModel {
                        conversation_id: uuid_text(msg.conversation_id),
                        thread_id: None,
                        last_seq: current,
                    },
                ),
            ],
        )
    } else {
        (
            SyncModel {
                cursors: s.cursors.insert(scope, msg.seq),
                heads: raise(s.heads, main_key(msg.conversation_id), msg.seq),
                pending: s.pending.remove(scope),
            },
            seq![
                EffectModel::MessagePersisted(record_of(msg)),
                EffectModel::AckRequested { conversation_id: msg.conversation_id, last_seq: msg.seq },
            ],
        )
    }
}

/// A received message is acknowledged at its scope's cursor as it stands
/// once the message was handled, which is never below the cursor it had
/// before nor below the message's own sequence number. A message at or below
/// the cursor changes nothing: it is reported as a duplicate with the cursor,
/// and the acknowledgement carries the cursor too.
pub proof fn law_ack_at_scope_cursor(s: SyncModel, msg: MessageReceivedMsg)
    ensures
        forall|i: int|
            0 <= i < ingest_spec(s, msg).1.len() ==> (#[trigger] ingest_spec(s, msg).1[i] matches
                EffectModel::AckRequested { conversation_id, last_seq } ==> {
                &&& conversation_id == msg.conversation_id
                &&& last_seq == get_or_zero(ingest_spec(s, msg).0.cursors, message_scope(msg))
                &&& last_seq >= msg.seq
                &&& last_seq >= get_or_zero(s.cursors, message_scope(msg))
            }),
        msg.seq <= get_or_zero(s.cursors, message_scope(msg)) ==> ingest_spec(s, msg) == (
            s,
            seq![
                EffectModel::DuplicateMessage {
                    conversation_id: msg.conversation_id,
                    received_seq: msg.seq,
                    last_seq: get_or_zero(s.cursors, message_scope(msg)),
                },
                EffectModel::AckRequested {
                    conversation_id: msg.conversation_id,
                    last_seq: get_or_zero(s.cursors, message_scope(msg)),
                },
            ],
        ),
{
    let scope = message_scope(msg);
    let (t, effs) = ingest_spec(s, msg);
    if msg.seq <= get_or_zero(s.cursors, scope) {
    } else if msg.seq > get_or_zero(s.heads, main_key(msg.conversation_id)) + 1 {
    } else {
        assert(t.cursors.contains_key(scope) && t.cursors[scope] == msg.seq);
    }
}

/// A message past its scope's cursor: when it would skip a sequence number
/// of its conversation, nothing is applied, a recovery from the
/// conversation's head is marked and a sync from the head is requested; when
/// it is the next one (or fills an older place), it is persisted, its scope's
/// cursor becomes its sequence number, the conversation's head does not fall
/// below it, and it is acknowledged at that number.
pub proof fn law_ingest_past_cursor(s: SyncModel, msg: MessageReceivedMsg)
    requires
        msg.seq > get_or_zero(s.cursors, message_scope(msg)),
    ensures
        ({
            let head = get_or_zero(s.heads, main_key(msg.conversation_id));
            let after = ingest_spec(s, msg);
            msg.seq > head + 1 ==> {
                &&& after.0.cursors == s.cursors
                &&& after.0.heads == s.heads
                &&& after.0.pending == s.pending.insert(main_key(msg.conversation_id), if head >= 0 { head } else { 0 })
                &&& after.1 == seq![
                    EffectModel::GapDetected {
                        conversation_id: msg.conversation_id,
                        expected_seq: (head + 1) as i64,
                        received_seq: msg.seq,
                        request_from_seq: head,
                    },
                    EffectModel::SyncRequested(
                        SyncRequestModel {
                            conversation_id: uuid_text(msg.conversation_id),
                            thread_id: None,
                            last_seq: head,
                        },
                    ),
                ]
            }
        }),
        ({
            let head = get_or_zero(s.heads, main_key(msg.conversation_id));
            let after = ingest_spec(s, msg);
            msg.seq <= head + 1 ==> {
                &&& after.0.cursors == s.cursors.insert(message_scope(msg), msg.seq)
                &&& get_or_zero(after.0.heads, main_key(msg.conversation_id)) >= msg.seq
                &&& (s.heads.contains_key(main_key(msg.conversation_id)) ==> get_or_zero(
                    after.0.heads,
                    main_key(msg.conversation_id),
                ) >= head)
                &&& !after.0.pending.contains_key(message_scope(msg))
                &&& after.1 == seq![
                    EffectModel::MessagePersisted(record_of(msg)),
                    EffectModel::AckRequested { conversation_id: msg.conversation_id, last_seq: msg.seq },
                ]
            }
        }),
{
    let head = get_or_zero(s.heads, main_key(msg.conversation_id));
    let after = ingest_spec(s, msg);
    if msg.seq <= head + 1 {
        let k = main_key(msg.conversation_id);
        assert(after.0.heads == raise(s.heads, k, msg.seq));
        assert(after.0.heads.contains_key(k));
        assert(after.0.cursors == s.cursors.insert(message_scope(msg), msg.seq));
        assert(!after.0.pending.contains_key(message_scope(msg)));
    }
}

/// A conversation of a batch with its message count and highest sequence number.
pub type StatEntry = (u128, (u32, i64));

/// Per conversation of a batch: how many messages it has and its highest
/// sequence number.
pub open spec fn batch_stats(msgs: Seq<MessageReceivedMsg>) -> Map<u128, (u32, i64)>
    decreases msgs.len(),
{
    if msgs.len() == 0 {
        Map::empty()
    } else {
        let prev = batch_stats(msgs.drop_last());
        let m = msgs.last();
        prev.insert(
            m.conversation_id,
            if prev.contains_key(m.conversation_id) {
                (
                    (prev[m.conversation_id].0 + 1) as u32,
                    max_i64(prev[m.conversation_id].1, m.seq),
                )
            } else {
                (1u32, m.seq)
            },
        )
    }
}

pub open spec fn conv_cursor_of(c: ConvSyncState) -> ConversationSyncCursor {
    ConversationSyncCursor { conversation_id: c.conversation_id, last_seq: c.last_seq }
}

pub open spec fn persisted_effects(msgs: Seq<MessageReceivedMsg>) -> Seq<EffectModel> {
    msgs.map_values(|m: MessageReceivedMsg| EffectModel::MessagePersisted(record_of(m)))
}

pub open spec fn applied_effects(es: Seq<StatEntry>) -> Seq<EffectModel> {
    es.map_values(
        |e: StatEntry| EffectModel::DeviceSyncApplied {
            conversation_id: e.0,
            applied_count: e.1.0,
            highest_seq: e.1.1,
        },
    )
}

pub open spec fn ack_effects(es: Seq<StatEntry>) -> Seq<EffectModel> {
    es.map_values(
        |e: StatEntry| EffectModel::AckRequested { conversation_id: e.0, last_seq: e.1.1 },
    )
}

/// The effects of a device sync answer, given its per-conversation statistics
/// in increasing conversation order: every message persisted in order, then the
/// batch summary, then per conversation what was applied, then per
/// conversation an acknowledgement of its highest sequence number.
pub open spec fn device_sync_effects(r: DeviceSyncResponse, es: Seq<StatEntry>) -> Seq<
    EffectModel,
> {
    persisted_effects(r.messages@) + seq![
        EffectModel::DeviceSyncBatchProcessed {
            message_count: sat_u32(r.messages@.len()),
            conversation_count: sat_u32(r.conversations@.len()),
            conversation_ids: r.conversations@.map_values(|c: ConvSyncState| c.conversation_id),
        },
    ] + applied_effects(es) + ack_effects(es)
}

/// How a device sync answer changes the sync state: recoveries of the listed
/// conversations are cleared and the messages fill the gaps.
pub open spec fn device_sync_state(s: SyncModel, r: DeviceSyncResponse) -> SyncModel {
    SyncModel {
        cursors: gap_fill_cursors(s.cursors, r.messages@),
        heads: gap_fill_heads(s.heads, r.messages@),
        pending: without_conversations(
            s.pending,
            r.conversations@.map_values(|c: ConvSyncState| conv_cursor_of(c)),
        ),
    }
}

proof fn lemma_batch_stats_bound(msgs: Seq<MessageReceivedMsg>)
    requires
        msgs.len() <= u32::MAX,
    ensures
        forall|k: u128| #[trigger] batch_stats(msgs).contains_key(k) ==> 1 <= batch_stats(msgs)[k].0 <= msgs.len(),
    decreases msgs.len(),
{
    if msgs.len() > 0 {
        let prev = msgs.drop_last();
        lemma_batch_stats_bound(prev);
        assert forall|k: u128| #[trigger] batch_stats(msgs).contains_key(k) implies 1 <= batch_stats(
            msgs,
        )[k].0 <= msgs.len() by {
            if k == msgs.last().conversation_id && batch_stats(prev).contains_key(k) {
                assert(prev.len() + 1 == msgs.len());
                assert(batch_stats(prev)[k].0 <= prev.len());
                assert(batch_stats(prev)[k].0 + 1 <= msgs.len());
            }
        }
    }
}

/// Mapping a sequence with one more element maps that element last.
pub proof fn lemma_map_push<A, B>(s: Seq<A>, a: A, f: spec_fn(A) -> B)
    ensures
        s.push(a).map_values(f) == s.map_values(f).push(f(a)),
{
    assert(s.push(a).map_values(f) =~= s.map_values(f).push(f(a)));
}

/// What the local store holds that a session start needs: the conversations
/// (for the cursors), each conversation's id with its highest stored sequence
/// number in the store's order, and the stored thread cursors.
#[derive(Clone, Debug, PartialEq, Eq)]
pub struct StoredSyncState {
    pub conversations: Vec<ConversationRecord>,
    pub conversation_heads: Vec<(String, i64)>,
    pub thread_cursors: Vec<ThreadCursorRecord>,
}

/// A streaming update for a known stream, nothing for an unknown one.
pub open spec fn stream_update_effects(
    before: Map<u128, SessionModel>,
    after: Map<u128, SessionModel>,
    id: u128,
) -> Seq<EffectModel> {
    if before.contains_key(id) {
        seq![EffectModel::StreamUpdated(after[id])]
    } else {
        seq![]
    }
}

/// The sequence number a finished stream gets: one past its conversation's
/// main cursor (one for an unknown stream).
pub open spec fn stream_end_seq(s: RuntimeModel, id: u128) -> int {
    if s.streams.contains_key(id) {
        get_or_zero(s.sync.cursors, main_key(s.streams[id].conversation_id)) + 1
    } else {
        1
    }
}

/// Whether the runtime can take a server frame without overflow: a device
/// sync counts its messages in a `u32`, and a finished stream's sequence
/// number must fit in an `i64`.
pub open spec fn server_message_fits(s: RuntimeModel, msg: ServerMessage) -> bool {
    match msg {
        ServerMessage::DeviceSyncResponse(r) => r.messages@.len() <= u32::MAX,
        ServerMessage::StreamEnd(m) => stream_end_seq(s, m.stream_id) <= i64::MAX,
        _ => true,
    }
}

/// The effects of a session start: the new connection state, then one sync
/// request per stored conversation and thread cursor.
pub open spec fn hello_effects(ws: WsModel, stored: StoredSyncState) -> Seq<EffectModel> {
    seq![EffectModel::ConnectionStateChanged(snapshot_of(ws))] + sync_requests_of(
        stored.conversation_heads@.map_values(|h: (String, i64)| head_view(h)),
        stored.thread_cursors@,
    ).map_values(|q: SyncRequestModel| EffectModel::SyncRequested(q))
}

/// How the runtime handles a server frame at time `now_ms`, as a relation
/// between the state before, the state after and the result.
pub open spec fn server_message_spec(
    s: RuntimeModel,
    t: RuntimeModel,
    msg: ServerMessage,
    stored: StoredSyncState,
    now_ms: i64,
    r: Result<Vec<RuntimeEffect>, CoreRuntimeError>,
) -> bool {
    match msg {
        ServerMessage::HelloOk(_) => {
            let ws = after_hello_ok(s.ws);
            match first_invalid(stored.conversations@) {
                Some(i) => {
                    &&& t == RuntimeModel { ws, ..s }
                    &&& r matches Err(CoreRuntimeError::InvalidConversationId(id)) && id@
                        == stored.conversations@[i].id@
                },
                None => {
                    let cursors = cursor_map(
                        stored.conversations@.map_values(|c: ConversationRecord| cursor_of(c)),
                    );
                    &&& t == RuntimeModel {
                        ws,
                        sync: SyncModel { cursors, heads: cursors, pending: Map::empty() },
                        ..s
                    }
                    &&& r matches Ok(v) && effects_view(v@) == hello_effects(ws, stored)
                },
            }
        },
        ServerMessage::HelloError(_) => {
            &&& t == RuntimeModel { ws: scheduled(s.ws), ..s }
            &&& r matches Ok(v) && v@.len() == 0
        },
        ServerMessage::MessageReceived(m) => {
            &&& t == RuntimeModel { sync: ingest_spec(s.sync, m).0, ..s }
            &&& r matches Ok(v) && effects_view(v@) == ingest_spec(s.sync, m).1
        },
        ServerMessage::DeviceSyncResponse(d) => {
            &&& t == RuntimeModel { sync: device_sync_state(s.sync, d), ..s }
            &&& r matches Ok(v) && exists|es: Seq<StatEntry>|
                sorted(es) && seq_to_map(es) == batch_stats(d.messages@) && effects_view(v@)
                    == device_sync_effects(d, es)
        },
        ServerMessage::StreamStart(m) => {
            &&& t == RuntimeModel {
                streams: s.streams.insert(m.stream_id, started_session(m)),
                ..s
            }
            &&& r matches Ok(v) && effects_view(v@) == seq![
                EffectModel::StreamUpdated(started_session(m)),
            ]
        },
        ServerMessage::ContentDelta(m) => {
            &&& t == RuntimeModel { streams: after_delta(s.streams, m), ..s }
            &&& r matches Ok(v) && effects_view(v@) == stream_update_effects(
                s.streams,
                t.streams,
                m.stream_id,
            )
        },
        ServerMessage::ToolStart(m) => {
            &&& t == RuntimeModel { streams: after_tool_start(s.streams, m), ..s }
            &&& r matches Ok(v) && effects_view(v@) == stream_update_effects(
                s.streams,
                t.streams,
                m.stream_id,
            )
        },
        ServerMessage::ToolEnd(m) => {
            &&& t == RuntimeModel { streams: after_tool_end(s.streams, m), ..s }
            &&& r matches Ok(v) && effects_view(v@) == stream_update_effects(
                s.streams,
                t.streams,
                m.stream_id,
            )
        },
        ServerMessage::StreamEnd(m) => {
            &&& t == RuntimeModel { streams: s.streams.remove(m.stream_id), ..s }
            &&& r matches Ok(v) && effects_view(v@) == if s.streams.contains_key(m.stream_id) {
                seq![
                    EffectModel::StreamFinalized(
                        finalized_from(
                            s.streams[m.stream_id],
                            m,
                            stream_end_seq(s, m.stream_id) as i64,
                            now_ms,
                        ),
                    ),
                ]
            } else {
                seq![]
            }
        },
        ServerMessage::Other => {
            &&& t == s
            &&& r matches Ok(v) && v@.len() == 0
        },
    }
}

/// A copy of a sync request.
fn copy_request(q: &SyncRequest) -> (r: SyncRequest)
    ensures
        r@ == q@,
{
    let thread_id = match &q.thread_id {
        Some(t) => Some(t.clone()),
        None => None,
    };
    SyncRequest { conversation_id: q.conversation_id.clone(), thread_id, last_seq: q.last_seq }
}


/// The abstract state of a [`CoreRuntime`].
pub struct RuntimeModel {
    pub sync: SyncModel,
    pub streams: Map<u128, SessionModel>,
    pub ws: WsModel,
}

/// The client runtime.
pub struct CoreRuntime {
    sync_engine: SyncEngine,
    streaming: StreamingState,
    ws_service: WsService,
}

impl View for CoreRuntime {
    type V = RuntimeModel;

    closed spec fn view(&self) -> RuntimeModel {
        RuntimeModel {
            sync: self.sync_engine@,
            streams: self.streaming@,
            ws: self.ws_service@,
        }
    }
}

impl CoreRuntime {
    pub closed spec fn wf(&self) -> bool {
        &&& self.sync_engine.wf()
        &&& self.streaming.wf()
        &&& self.ws_service.wf()
    }

    /// The main-timeline cursors in conversation order.
    pub closed spec fn main_cursors(&self) -> Seq<crate::sync::engine::ConversationSyncCursor> {
        self.sync_engine.cursor_entries().filter_map(
            |e: (crate::sync::table::ScopeKey, i64)| crate::sync::engine::main_cursor_of(e),
        )
    }

    /// The pending main-timeline recoveries in conversation order.
    pub closed spec fn main_recoveries(&self) -> Seq<crate::sync::engine::ConversationSyncCursor> {
        self.sync_engine.pending_entries().filter_map(
            |e: (crate::sync::table::ScopeKey, i64)| crate::sync::engine::main_cursor_of(e),
        )
    }

    /// The active streams in stream-id order.
    pub closed spec fn stream_list(&self) -> Seq<SessionModel> {
        self.streaming.ordered()
    }

    /// A runtime whose cursors come from the stored conversations.
    pub fn new(stored: &Vec<ConversationRecord>, ws_service: WsService) -> (r: Result<
        Self,
        CoreRuntimeError,
    >)
        requires
            ws_service.wf(),
        ensures
            match first_invalid(stored@) {
                Some(i) => r matches Err(CoreRuntimeError::InvalidConversationId(id)) && id@
                    == stored@[i].id@,
                None => r matches Ok(rt) && rt.wf() && rt@.sync.cursors == cursor_map(
                    stored@.map_values(|c: ConversationRecord| cursor_of(c)),
                ) && rt@.sync.heads == rt@.sync.cursors && rt@.sync.pending.is_empty()
                    && rt@.streams.is_empty() && rt@.ws == ws_service@,
            },
    {
        match load_cursors(stored) {
            Ok(cursors) => {
                let rt = CoreRuntime {
                    sync_engine: SyncEngine::new(cursors),
                    streaming: StreamingState::new(),
                    ws_service,
                };
                Ok(rt)
            },
            Err(CursorLoadError::InvalidConversationId(id)) => Err(
                CoreRuntimeError::InvalidConversationId(id),
            ),
        }
    }

    pub fn ws_service(&self) -> (ws: &WsService)
        ensures
            ws@ == self@.ws,
    {
        &self.ws_service
    }

    /// What the UI shows: the connection, the cursors, the pending recoveries
    /// and the active streams.
    pub fn snapshot(&self) -> (snap: RuntimeSnapshot)
        requires
            self.wf(),
        ensures
            snap.connection@ == snapshot_of(self@.ws),
            cursor_views_match(snap.cursors@, self.main_cursors()),
            recovery_views_match(snap.pending_recoveries@, self.main_recoveries()),
            snap.active_streams@.len() == self.stream_list().len(),
            forall|i: int| 0 <= i < snap.active_streams@.len() ==> session_view_matches(
                #[trigger] snap.active_streams@[i],
                self.stream_list()[i],
            ),
    {
        let cursors = self.sync_engine.cursors();
        let recoveries = self.sync_engine.pending_recoveries();
        let sessions = self.streaming.active_sessions();
        let mut streams: Vec<StreamingSessionView> = Vec::new();
        let mut i: usize = 0;
        while i < sessions.len()
            invariant
                i <= sessions@.len(),
                sessions@.map_values(|s: StreamingSession| s@) == self.stream_list(),
                streams@.len() == i,
                forall|k: int| 0 <= k < i ==> session_view_matches(
                    #[trigger] streams@[k],
                    sessions@[k]@,
                ),
            decreases sessions@.len() - i,
        {
            streams.push(StreamingSessionView::from(&sessions[i]));
            i = i + 1;
        }
        proof {
            assert forall|k: int| 0 <= k < streams@.len() implies session_view_matches(
                #[trigger] streams@[k],
                self.stream_list()[k],
            ) by {
                assert(sessions@.map_values(|s: StreamingSession| s@)[k] == sessions@[k]@);
            }
        }
        RuntimeSnapshot {
            connection: ConnectionSnapshot::from(&self.ws_service),
            cursors: cursor_views(&cursors),
            pending_recoveries: recovery_views(&recoveries),
            active_streams: streams,
        }
    }

    /// The effects of a connection change.
    fn connection_transition_effects(&self) -> (r: Vec<RuntimeEffect>)
        ensures
            effects_view(r@) == transition_effects(self@.ws),
    {
        let mut effects: Vec<RuntimeEffect> = Vec::new();
        match self.ws_service.pending_reconnect() {
            Some(plan) => {
                effects.push(
                    RuntimeEffect::ReconnectScheduled {
                        delay_ms: plan.delay_ms,
                        endpoint: public_endpoint_label(plan.uri.as_str()),
                        attempt: saturating_u32(plan.attempt),
                    },
                );
            },
            None => {},
        }
        effects.push(RuntimeEffect::ConnectionStateChanged(ConnectionSnapshot::from(&self.ws_service)));
        assert(effects_view(effects@) =~= transition_effects(self@.ws));
        effects
    }

    /// The transport failed: a reconnect is planned when possible.
    pub fn on_transport_error(&mut self) -> (r: Vec<RuntimeEffect>)
        requires
            old(self).wf(),
        ensures
            final(self).wf(),
            final(self)@ == (RuntimeModel { ws: crate::ws::service::scheduled(old(self)@.ws), ..old(self)@ }),
            effects_view(r@) == transition_effects(final(self)@.ws),
    {
        self.ws_service.on_transport_error();
        self.connection_transition_effects()
    }

    /// The transport closed: a reconnect is planned when possible.
    pub fn on_transport_closed(&mut self) -> (r: Vec<RuntimeEffect>)
        requires
            old(self).wf(),
        ensures
            final(self).wf(),
            final(self)@ == (RuntimeModel { ws: crate::ws::service::scheduled(old(self)@.ws), ..old(self)@ }),
            effects_view(r@) == transition_effects(final(self)@.ws),
    {
        self.ws_service.on_transport_closed();
        self.connection_transition_effects()
    }

    /// The session ended: the connection is dropped with its token, active
    /// streams are discarded, and the UI is told in that order. The caller
    /// clears the token store first and closes the socket.
    pub fn handle_session_event(&mut self, event: SessionEvent) -> (r: Vec<RuntimeEffect>)
        requires
            old(self).wf(),
        ensures
            final(self).wf(),
            final(self)@.sync == old(self)@.sync,
            final(self)@.streams.is_empty(),
            final(self)@.ws == (WsModel {
                access_token: None,
                state: crate::ws::service::WsConnectionState::Disconnected,
                ..crate::ws::service::after_begin_disconnect(old(self)@.ws)
            }),
            effects_view(r@) == session_loss_effects(
                old(self)@.streams.dom().len(),
                event,
                final(self)@.ws,
            ),
    {
        self.ws_service.clear_session();
        let cleared = self.streaming.clear();
        let mut effects: Vec<RuntimeEffect> = Vec::new();
        if cleared > 0 {
            effects.push(RuntimeEffect::ActiveStreamsCleared { count: saturating_u32(cleared) });
        }
        effects.push(RuntimeEffect::SessionInvalidated(event));
        effects.push(RuntimeEffect::ConnectionStateChanged(ConnectionSnapshot::from(&self.ws_service)));
        assert(effects_view(effects@) =~= session_loss_effects(
            old(self)@.streams.dom().len(),
            event,
            self@.ws,
        ));
        effects
    }

    /// Reconnects with the stored token, if there is one: the connection
    /// restarts and the URI to open is returned with the effects that report
    /// the attempt. The caller closes any previous socket, opens the URI and
    /// sends the connect frame.
    pub fn reconnect_with_stored_token(&mut self) -> (r: Result<
        Option<(String, Vec<RuntimeEffect>)>,
        CoreRuntimeError,
    >)
        requires
            old(self).wf(),
        ensures
            final(self).wf(),
            final(self)@.sync == old(self)@.sync,
            final(self)@.streams == old(self)@.streams,
            match old(self)@.ws.access_token {
                None => r matches Ok(None) && final(self)@.ws == old(self)@.ws,
                Some(token) => {
                    &&& final(self)@.ws == crate::ws::service::after_begin_connect(
                        old(self)@.ws,
                        old(self)@.ws.server_url,
                        token,
                    )
                    &&& match crate::ws::url::ws_uri_result(old(self)@.ws.server_url, token) {
                        Ok(uri) => r matches Ok(Some((u, effects))) && u@ == uri && effects_view(
                            effects@,
                        ) == seq![
                            EffectModel::ReconnectAttemptStarted {
                                endpoint: endpoint_label(uri),
                                attempt: sat_u32(final(self)@.ws.manager.attempts),
                            },
                            EffectModel::ConnectionStateChanged(snapshot_of(final(self)@.ws)),
                        ],
                        Err(e) => r matches Err(CoreRuntimeError::Ws(WsServiceError::InvalidUrl(m)))
                            && m@ == e,
                    }
                },
            },
    {
        match self.ws_service.stored_connection() {
            None => Ok(None),
            Some((url, token)) => {
                self.ws_service.begin_connect(url, token);
                match self.ws_service.connect_uri() {
                    Ok(uri) => {
                        let mut effects: Vec<RuntimeEffect> = Vec::new();
                        effects.push(
                            RuntimeEffect::ReconnectAttemptStarted {
                                endpoint: public_endpoint_label(uri.as_str()),
                                attempt: saturating_u32(self.ws_service.attempts()),
                            },
                        );
                        effects.push(
                            RuntimeEffect::ConnectionStateChanged(
                                ConnectionSnapshot::from(&self.ws_service),
                            ),
                        );
                        assert(effects_view(effects@) =~= seq![
                            EffectModel::ReconnectAttemptStarted {
                                endpoint: endpoint_label(uri@),
                                attempt: sat_u32(self@.ws.manager.attempts),
                            },
                            EffectModel::ConnectionStateChanged(snapshot_of(self@.ws)),
                        ]);
                        Ok(Some((uri, effects)))
                    },
                    Err(e) => Err(CoreRuntimeError::Ws(e)),
                }
            },
        }
    }

    /// Connects with a fresh access token (at start-up). The caller closes any
    /// previous socket, opens the returned URI and sends the connect frame.
    pub fn connect_with_access_token(&mut self, access_token: String) -> (r: Result<
        String,
        CoreRuntimeError,
    >)
        requires
            old(self).wf(),
        ensures
            final(self).wf(),
            final(self)@.sync == old(self)@.sync,
            final(self)@.streams == old(self)@.streams,
            final(self)@.ws == crate::ws::service::after_begin_connect(
                old(self)@.ws,
                old(self)@.ws.server_url,
                access_token@,
            ),
            match crate::ws::url::ws_uri_result(old(self)@.ws.server_url, access_token@) {
                Ok(uri) => r matches Ok(u) && u@ == uri,
                Err(e) => r matches Err(CoreRuntimeError::Ws(WsServiceError::InvalidUrl(m))) && m@
                    == e,
            },
    {
        let url = self.ws_service.server_url().to_string();
        self.ws_service.begin_connect(url, access_token);
        match self.ws_service.connect_uri() {
            Ok(uri) => Ok(uri),
            Err(e) => Err(CoreRuntimeError::Ws(e)),
        }
    }

    /// The effects of a finished start-up: its report, then the connection state.
    pub fn bootstrap_effects(&self, report: RuntimeBootstrapReport) -> (r: Vec<RuntimeEffect>)
        ensures
            effects_view(r@) == seq![
                EffectModel::BootstrapProgress(report@),
                EffectModel::ConnectionStateChanged(snapshot_of(self@.ws)),
            ],
    {
        let ghost rv = report@;
        let mut effects: Vec<RuntimeEffect> = Vec::new();
        effects.push(RuntimeEffect::BootstrapProgress(report));
        effects.push(RuntimeEffect::ConnectionStateChanged(ConnectionSnapshot::from(&self.ws_service)));
        assert(effects_view(effects@) =~= seq![
            EffectModel::BootstrapProgress(rv),
            EffectModel::ConnectionStateChanged(snapshot_of(self@.ws)),
        ]);
        effects
    }

    /// Handles a received message.
    fn handle_message_received(&mut self, msg: &MessageReceivedMsg) -> (r: Vec<RuntimeEffect>)
        requires
            old(self).wf(),
        ensures
            final(self).wf(),
            final(self)@ == (RuntimeModel { sync: ingest_spec(old(self)@.sync, *msg).0, ..old(self)@ }),
            effects_view(r@) == ingest_spec(old(self)@.sync, *msg).1,
    {
        let mut effects: Vec<RuntimeEffect> = Vec::new();
        match self.sync_engine.ingest_message(msg) {
            MessageSyncOutcome::DuplicateOrStale { ack_seq } => {
                effects.push(
                    RuntimeEffect::DuplicateMessage {
                        conversation_id: msg.conversation_id,
                        received_seq: msg.seq,
                        last_seq: ack_seq,
                    },
                );
                effects.push(
                    RuntimeEffect::AckRequested { conversation_id: msg.conversation_id, last_seq: ack_seq },
                );
            },
            MessageSyncOutcome::GapDetected { request_from_seq } => {
                self.sync_engine.mark_recovery_pending(msg.conversation_id, request_from_seq);
                effects.push(
                    RuntimeEffect::GapDetected {
                        conversation_id: msg.conversation_id,
                        expected_seq: request_from_seq + 1,
                        received_seq: msg.seq,
                        request_from_seq,
                    },
                );
                effects.push(
                    RuntimeEffect::SyncRequested(
                        SyncRequest {
                            conversation_id: uuid_string(msg.conversation_id),
                            thread_id: None,
                            last_seq: request_from_seq,
                        },
                    ),
                );
            },
            MessageSyncOutcome::Applied { ack_seq } => {
                effects.push(RuntimeEffect::MessagePersisted(message_record_from(msg)));
                effects.push(
                    RuntimeEffect::AckRequested { conversation_id: msg.conversation_id, last_seq: ack_seq },
                );
            },
        }
        assert(effects_view(effects@) =~= ingest_spec(old(self)@.sync, *msg).1);
        effects
    }

    /// Handles the answer to a device sync.
    fn handle_device_sync_response(&mut self, response: &DeviceSyncResponse) -> (r: Vec<
        RuntimeEffect,
    >)
        requires
            old(self).wf(),
            response.messages@.len() <= u32::MAX,
        ensures
            final(self).wf(),
            final(self)@ == (RuntimeModel {
                sync: device_sync_state(old(self)@.sync, *response),
                ..old(self)@
            }),
            exists|es: Seq<StatEntry>|
                sorted(es) && seq_to_map(es) == batch_stats(response.messages@) && effects_view(r@)
                    == device_sync_effects(*response, es),
    {
        let mut cursors: Vec<ConversationSyncCursor> = Vec::new();
        let mut conversation_ids: Vec<u128> = Vec::new();
        let mut c: usize = 0;
        while c < response.conversations.len()
            invariant
                c <= response.conversations@.len(),
                cursors@ == response.conversations@.take(c as int).map_values(
                    |x: ConvSyncState| conv_cursor_of(x),
                ),
                conversation_ids@ == response.conversations@.take(c as int).map_values(
                    |x: ConvSyncState| x.conversation_id,
                ),
            decreases response.conversations@.len() - c,
        {
            let conv = &response.conversations[c];
            cursors.push(ConversationSyncCursor { conversation_id: conv.conversation_id, last_seq: conv.last_seq });
            conversation_ids.push(conv.conversation_id);
            proof {
                assert(response.conversations@.take(c + 1) == response.conversations@.take(c as int).push(response.conversations@[c as int]));
                assert(cursors@ =~= response.conversations@.take(c + 1).map_values(
                    |x: ConvSyncState| conv_cursor_of(x),
                ));
                assert(conversation_ids@ =~= response.conversations@.take(c + 1).map_values(
                    |x: ConvSyncState| x.conversation_id,
                ));
            }
            c = c + 1;
        }
        assert(response.conversations@.take(c as int) == response.conversations@);
        self.sync_engine.clear_recoveries(&cursors);
        self.sync_engine.apply_gap_fill(&response.messages);

        let msgs = &response.messages;
        let mut effects: Vec<RuntimeEffect> = Vec::new();
        let mut stats: Table<u128, (u32, i64)> = Table::new();
        let mut i: usize = 0;
        while i < msgs.len()
            invariant
                i <= msgs@.len(),
                msgs@.len() <= u32::MAX,
                stats.wf(),
                stats@ == batch_stats(msgs@.take(i as int)),
                effects_view(effects@) == persisted_effects(msgs@.take(i as int)),
            decreases msgs@.len() - i,
        {
            let m = &msgs[i];
            let ghost prev = effects@;
            let persisted = RuntimeEffect::MessagePersisted(message_record_from(m));
            effects.push(persisted);
            proof {
                lemma_batch_stats_bound(msgs@.take(i as int));
                assert(msgs@.take(i + 1).drop_last() == msgs@.take(i as int));
                assert(msgs@.take(i + 1).last() == *m);
            }
            let next = match stats.get(&m.conversation_id) {
                Some(entry) => {
                    let highest = if entry.1 >= m.seq { entry.1 } else { m.seq };
                    (entry.0 + 1, highest)
                },
                None => (1u32, m.seq),
            };
            stats.insert(m.conversation_id, next);
            proof {
                lemma_map_push(prev, persisted, |e: RuntimeEffect| e@);
                assert(msgs@.take(i + 1) == msgs@.take(i as int).push(*m));
                lemma_map_push(
                    msgs@.take(i as int),
                    *m,
                    |x: MessageReceivedMsg| EffectModel::MessagePersisted(record_of(x)),
                );
            }
            i = i + 1;
        }
        assert(msgs@.take(i as int) == msgs@);
        effects.push(
            RuntimeEffect::DeviceSyncBatchProcessed {
                message_count: saturating_u32(msgs.len()),
                conversation_count: saturating_u32(response.conversations.len()),
                conversation_ids,
            },
        );
        let ghost es = stats.entries();
        let ghost base = effects_view(effects@);
        proof {
            stats.lemma_sorted();
        }
        let n = stats.len();
        let mut j: usize = 0;
        while j < n
            invariant
                n == es.len(),
                es == stats.entries(),
                j <= n,
                effects_view(effects@) == base + applied_effects(es.take(j as int)),
            decreases n - j,
        {
            let e = stats.entry(j);
            let ghost prev = effects@;
            let applied = RuntimeEffect::DeviceSyncApplied {
                conversation_id: e.0,
                applied_count: (e.1).0,
                highest_seq: (e.1).1,
            };
            effects.push(applied);
            proof {
                lemma_map_push(prev, applied, |x: RuntimeEffect| x@);
                assert(es.take(j + 1) == es.take(j as int).push(es[j as int]));
                lemma_map_push(
                    es.take(j as int),
                    es[j as int],
                    |x: StatEntry| EffectModel::DeviceSyncApplied {
                        conversation_id: x.0,
                        applied_count: x.1.0,
                        highest_seq: x.1.1,
                    },
                );
                assert(effects_view(effects@) =~= base + applied_effects(es.take(j + 1)));
            }
            j = j + 1;
        }
        assert(es.take(n as int) == es);
        let ghost base2 = effects_view(effects@);
        let mut k: usize = 0;
        while k < n
            invariant
                n == es.len(),
                es == stats.entries(),
                k <= n,
                effects_view(effects@) == base2 + ack_effects(es.take(k as int)),
            decreases n - k,
        {
            let e = stats.entry(k);
            let ghost prev = effects@;
            let ack = RuntimeEffect::AckRequested { conversation_id: e.0, last_seq: (e.1).1 };
            effects.push(ack);
            proof {
                lemma_map_push(prev, ack, |x: RuntimeEffect| x@);
                assert(es.take(k + 1) == es.take(k as int).push(es[k as int]));
                lemma_map_push(
                    es.take(k as int),
                    es[k as int],
                    |x: StatEntry| EffectModel::AckRequested { conversation_id: x.0, last_seq: x.1.1 },
                );
                assert(effects_view(effects@) =~= base2 + ack_effects(es.take(k + 1)));
            }
            k = k + 1;
        }
        assert(es.take(n as int) == es);
        assert(effects_view(effects@) =~= device_sync_effects(*response, es));
        effects
    }

    /// Handles a server frame, taking `now_ms` as the time a finished stream
    /// is stored with. `stored` is what the local store holds; it is read only
    /// for a session start.
    pub fn handle_server_message_at(
        &mut self,
        msg: &ServerMessage,
        stored: &StoredSyncState,
        now_ms: i64,
    ) -> (r: Result<Vec<RuntimeEffect>, CoreRuntimeError>)
        requires
            old(self).wf(),
            server_message_fits(old(self)@, *msg),
        ensures
            final(self).wf(),
            server_message_spec(old(self)@, final(self)@, *msg, *stored, now_ms, r),
    {
        match msg {
            ServerMessage::HelloOk(_) => {
                self.ws_service.on_hello_ok();
                let cursors = match load_cursors(&stored.conversations) {
                    Ok(c) => c,
                    Err(CursorLoadError::InvalidConversationId(id)) => {
                        return Err(CoreRuntimeError::InvalidConversationId(id));
                    },
                };
                self.sync_engine.replace_cursors(cursors);
                let mut effects: Vec<RuntimeEffect> = Vec::new();
                effects.push(
                    RuntimeEffect::ConnectionStateChanged(ConnectionSnapshot::from(&self.ws_service)),
                );
                let requests = sync_requests(&stored.conversation_heads, &stored.thread_cursors);
                let ghost base = effects_view(effects@);
                let ghost qs = requests@.map_values(|q: SyncRequest| q@);
                let ghost all = requests@;
                let n = requests.len();
                let mut i: usize = 0;
                while i < n
                    invariant
                        n == all.len(),
                        all == requests@,
                        i <= n,
                        effects_view(effects@) == base + all.take(i as int).map_values(
                            |q: SyncRequest| EffectModel::SyncRequested(q@),
                        ),
                    decreases n - i,
                {
                    let q = copy_request(&requests[i]);
                    let ghost prev = effects@;
                    let e = RuntimeEffect::SyncRequested(q);
                    effects.push(e);
                    proof {
                        lemma_map_push(prev, e, |x: RuntimeEffect| x@);
                        assert(all.take(i + 1) == all.take(i as int).push(all[i as int]));
                        lemma_map_push(
                            all.take(i as int),
                            all[i as int],
                            |q: SyncRequest| EffectModel::SyncRequested(q@),
                        );
                    }
                    i = i + 1;
                }
                proof {
                    assert(all.take(n as int) == all);
                    assert(all.map_values(|q: SyncRequest| EffectModel::SyncRequested(q@))
                        =~= qs.map_values(|q: SyncRequestModel| EffectModel::SyncRequested(q)));
                    assert(effects_view(effects@) =~= hello_effects(self@.ws, *stored));
                }
                Ok(effects)
            },
            ServerMessage::HelloError(_) => {
                self.ws_service.on_hello_error();
                Ok(Vec::new())
            },
            ServerMessage::MessageReceived(m) => Ok(self.handle_message_received(m)),
            ServerMessage::DeviceSyncResponse(d) => Ok(self.handle_device_sync_response(d)),
            ServerMessage::StreamStart(m) => {
                self.streaming.handle_stream_start(m);
                let mut effects: Vec<RuntimeEffect> = Vec::new();
                match self.streaming.active_session(m.stream_id) {
                    Some(session) => {
                        effects.push(RuntimeEffect::StreamUpdated(copy_session(session)));
                    },
                    None => {},
                }
                assert(effects_view(effects@) =~= seq![EffectModel::StreamUpdated(started_session(*m))]);
                Ok(effects)
            },
            ServerMessage::ContentDelta(m) => {
                let known = self.streaming.handle_content_delta(m);
                Ok(self.stream_update(known, m.stream_id))
            },
            ServerMessage::ToolStart(m) => {
                let known = self.streaming.handle_tool_start(m);
                Ok(self.stream_update(known, m.stream_id))
            },
            ServerMessage::ToolEnd(m) => {
                let known = self.streaming.handle_tool_end(m);
                Ok(self.stream_update(known, m.stream_id))
            },
            ServerMessage::StreamEnd(m) => {
                let next_seq: i64 = match self.streaming.active_session(m.stream_id) {
                    Some(session) => self.sync_engine.last_seq(session.conversation_id) + 1,
                    None => 1,
                };
                let mut effects: Vec<RuntimeEffect> = Vec::new();
                match self.streaming.handle_stream_end(m, next_seq, now_ms) {
                    Some(f) => {
                        effects.push(RuntimeEffect::StreamFinalized(f));
                    },
                    None => {},
                }
                assert(effects_view(effects@) =~= if old(self)@.streams.contains_key(m.stream_id) {
                    seq![
                        EffectModel::StreamFinalized(
                            finalized_from(
                                old(self)@.streams[m.stream_id],
                                *m,
                                stream_end_seq(old(self)@, m.stream_id) as i64,
                                now_ms,
                            ),
                        ),
                    ]
                } else {
                    seq![]
                });
                Ok(effects)
            },
            ServerMessage::Other => Ok(Vec::new()),
        }
    }

    /// Handles a server frame; a finished stream is stored with the current time.
    pub fn handle_server_message(&mut self, msg: &ServerMessage, stored: &StoredSyncState) -> (r:
        Result<Vec<RuntimeEffect>, CoreRuntimeError>)
        requires
            old(self).wf(),
            server_message_fits(old(self)@, *msg),
        ensures
            final(self).wf(),
            exists|now_ms: i64|
                server_message_spec(old(self)@, final(self)@, *msg, *stored, now_ms, r),
    {
        let now_ms = now_millis();
        self.handle_server_message_at(msg, stored, now_ms)
    }

    /// The update of a stream after a frame for it, if it is known.
    fn stream_update(&self, known: bool, id: u128) -> (r: Vec<RuntimeEffect>)
        requires
            self.wf(),
            known == self@.streams.contains_key(id),
        ensures
            effects_view(r@) == (if known { seq![EffectModel::StreamUpdated(self@.streams[id])] } else { seq![] }),
    {
        let mut effects: Vec<RuntimeEffect> = Vec::new();
        if known {
            match self.streaming.active_session(id) {
                Some(session) => {
                    effects.push(RuntimeEffect::StreamUpdated(copy_session(session)));
                },
                None => {},
            }
        }
        assert(effects_view(effects@) =~= (if known { seq![EffectModel::StreamUpdated(self@.streams[id])] } else { seq![] }));
        effects
    }

    /// Records a pending gap recovery of a conversation's main timeline
    /// (negative values count as zero).
    pub fn mark_recovery_pending(&mut self, conversation_id: u128, request_from_seq: i64)
        requires
            old(self).wf(),
        ensures
            final(self).wf(),
            final(self)@ == (RuntimeModel {
                sync: SyncModel {
                    pending: old(self)@.sync.pending.insert(
                        main_key(conversation_id),
                        max_i64(request_from_seq, 0),
                    ),
                    ..old(self)@.sync
                },
                ..old(self)@
            }),
    {
        self.sync_engine.mark_recovery_pending(conversation_id, request_from_seq);
    }

    /// The user disconnects. The caller closes the socket.
    pub fn disconnect(&mut self) -> (r: RuntimeEffect)
        requires
            old(self).wf(),
        ensures
            final(self).wf(),
            final(self)@.sync == old(self)@.sync,
            final(self)@.streams == old(self)@.streams,
            final(self)@.ws == (WsModel {
                state: crate::ws::service::WsConnectionState::Disconnected,
                ..crate::ws::service::after_begin_disconnect(old(self)@.ws)
            }),
            r@ == EffectModel::ConnectionStateChanged(snapshot_of(final(self)@.ws)),
    {
        self.ws_service.begin_disconnect();
        self.ws_service.finish_disconnect();
        RuntimeEffect::ConnectionStateChanged(ConnectionSnapshot::from(&self.ws_service))
    }
}

pub open spec fn cursor_views_match(
    v: Seq<ConversationCursorView>,
    cs: Seq<crate::sync::engine::ConversationSyncCursor>,
) -> bool {
    &&& v.len() == cs.len()
    &&& forall|i: int| 0 <= i < v.len() ==> (#[trigger] v[i]).conversation_id@ == crate::ids::uuid_text(cs[i].conversation_id)
        && v[i].last_seq == cs[i].last_seq
}

pub open spec fn recovery_views_match(
    v: Seq<RecoveryCursorView>,
    cs: Seq<crate::sync::engine::ConversationSyncCursor>,
) -> bool {
    &&& v.len() == cs.len()
    &&& forall|i: int| 0 <= i < v.len() ==> (#[trigger] v[i]).conversation_id@ == crate::ids::uuid_text(cs[i].conversation_id)
        && v[i].request_from_seq == cs[i].last_seq
}

fn cursor_views(cs: &Vec<crate::sync::engine::ConversationSyncCursor>) -> (r: Vec<ConversationCursorView>)
    ensures
        cursor_views_match(r@, cs@),
{
    let mut r: Vec<ConversationCursorView> = Vec::new();
    let mut i: usize = 0;
    while i < cs.len()
        invariant
            i <= cs@.len(),
            r@.len() == i,
            forall|k: int| 0 <= k < i ==> (#[trigger] r@[k]).conversation_id@ == crate::ids::uuid_text(cs@[k].conversation_id)
                && r@[k].last_seq == cs@[k].last_seq,
        decreases cs@.len() - i,
    {
        r.push(ConversationCursorView::from(&cs[i]));
        i = i + 1;
    }
    r
}

fn recovery_views(cs: &Vec<crate::sync::engine::ConversationSyncCursor>) -> (r: Vec<RecoveryCursorView>)
    ensures
        recovery_views_match(r@, cs@),
{
    let mut r: Vec<RecoveryCursorView> = Vec::new();
    let mut i: usize = 0;
    while i < cs.len()
        invariant
            i <= cs@.len(),
            r@.len() == i,
            forall|k: int| 0 <= k < i ==> (#[trigger] r@[k]).conversation_id@ == crate::ids::uuid_text(cs@[k].conversation_id)
                && r@[k].request_from_seq == cs@[k].last_seq,
        decreases cs@.len() - i,
    {
        r.push(RecoveryCursorView::from(&cs[i]));
        i = i + 1;
    }
    r
}

} // verus!
