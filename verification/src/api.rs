//! The platform-facing API: plain records with identifiers as text and times
//! as milliseconds, input validation, and the error type the platform sees.

use vstd::prelude::*;
use crate::auth::state::AuthState;
use crate::events::{
    AuthStateView, ConnectionSnapshot, ConnectionStateView, RuntimeSnapshot,
};
use crate::http::{decimal, decimal_text, opt_chars, ApiError, ApiErrorKind};
use crate::ids::{new_uuid_v4, parse_uuid, uuid_parse_result, uuid_string, uuid_text};
use crate::platform::{
    hints_for, is_unregistered_at, lifecycle_hints_for, memory_fallback_capabilities,
    LifecycleEvent, LifecycleHint, PushRegistrationState, SecureStorageCapabilities,
};
use crate::text::{concat, trim, trimmed};

verus! {

/// Where the API is and who calls it.
#[derive(Clone, Debug, PartialEq, Eq)]
pub struct CoreApiConfig {
    pub base_url: String,
    pub access_token: Option<String>,
}

#[derive(Clone, Debug, PartialEq, Eq)]
pub struct Thread {
    pub id: String,
    pub conversation_id: String,
    pub root_message_id: String,
    pub title: Option<String>,
    pub created_by: String,
    pub message_count: i32,
    pub last_seq: Option<i64>,
    pub last_message_at_ms: Option<i64>,
    pub created_at_ms: i64,
}

#[derive(Clone, Debug, PartialEq, Eq)]
pub struct Message {
    pub id: String,
    pub conversation_id: String,
    pub thread_id: Option<String>,
    pub thread_seq: Option<i64>,
    pub sender_id: String,
    pub content: String,
    pub format: String,
    pub seq: i64,
    pub created_at_ms: i64,
}

#[derive(Clone, Debug, PartialEq, Eq)]
pub struct Conversation {
    pub id: String,
    pub name: Option<String>,
    pub last_message: Option<String>,
    pub unread_count: i64,
}

#[derive(Clone, Debug, PartialEq, Eq)]
pub struct User {
    pub id: String,
    pub phone: Option<String>,
    pub username: Option<String>,
    pub preferred_locale: Option<String>,
    pub discoverable_by_phone: bool,
    pub phone_verified_at_ms: Option<i64>,
    pub display_name: Option<String>,
    pub avatar_url: Option<String>,
    pub created_at_ms: Option<i64>,
}

#[derive(Clone, Copy, Debug, PartialEq, Eq, Structural)]
pub enum AgentPermission {
    ReadMessages,
    SendMessages,
    ManageThread,
    AccessHistory,
    UseTools,
}

#[derive(Clone, Debug, PartialEq, Eq)]
pub struct CreateThreadInput {
    pub conversation_id: String,
    pub root_message_id: String,
    pub title: Option<String>,
}

#[derive(Clone, Debug, PartialEq, Eq)]
pub struct SendMessageInput {
    pub conversation_id: String,
    pub content: String,
    pub format: String,
    pub idempotency_key: Option<String>,
    pub attachment_ids: Vec<String>,
}

#[derive(Clone, Debug, PartialEq, Eq)]
pub struct ListMessagesInput {
    pub conversation_id: String,
    pub thread_id: Option<String>,
    pub after_seq: Option<i64>,
    pub limit: Option<u32>,
}

#[derive(Clone, Debug, PartialEq, Eq)]
pub struct SyncThreadStateInput {
    pub conversation_id: String,
    pub thread_id: String,
    pub since_seq: Option<i64>,
    pub limit: Option<u32>,
}

#[derive(Clone, Debug, PartialEq, Eq)]
pub struct ThreadSyncState {
    pub thread: Thread,
    pub participant_ids: Vec<String>,
    pub message_count: i32,
    pub last_seq: i64,
    pub last_message_at_ms: Option<i64>,
    pub messages: Vec<Message>,
}

#[derive(Clone, Copy, Debug, PartialEq, Eq, Structural)]
pub enum PawCoreApiErrorKind {
    InvalidInput,
    Unauthorized,
    Forbidden,
    NotFound,
    Server,
    Network,
    Timeout,
    Client,
    InvalidResponse,
    Unknown,
}

/// The error the platform sees.
#[derive(Clone, Debug, PartialEq, Eq)]
pub enum PawCoreApiError {
    RequestFailed {
        kind: PawCoreApiErrorKind,
        status_code: Option<u16>,
        code: Option<String>,
        message: String,
    },
}

pub struct PawErrorModel {
    pub kind: PawCoreApiErrorKind,
    pub status_code: Option<u16>,
    pub code: Option<Seq<char>>,
    pub message: Seq<char>,
}

impl View for PawCoreApiError {
    type V = PawErrorModel;

    open spec fn view(&self) -> PawErrorModel {
        match self {
            PawCoreApiError::RequestFailed { kind, status_code, code, message } => PawErrorModel {
                kind: *kind,
                status_code: *status_code,
                code: opt_chars(*code),
                message: message@,
            },
        }
    }
}

pub open spec fn paw_kind_of(k: ApiErrorKind) -> PawCoreApiErrorKind {
    match k {
        ApiErrorKind::Unauthorized => PawCoreApiErrorKind::Unauthorized,
        ApiErrorKind::Forbidden => PawCoreApiErrorKind::Forbidden,
        ApiErrorKind::NotFound => PawCoreApiErrorKind::NotFound,
        ApiErrorKind::Server => PawCoreApiErrorKind::Server,
        ApiErrorKind::Network => PawCoreApiErrorKind::Network,
        ApiErrorKind::Timeout => PawCoreApiErrorKind::Timeout,
        ApiErrorKind::Client => PawCoreApiErrorKind::Client,
        ApiErrorKind::InvalidResponse => PawCoreApiErrorKind::InvalidResponse,
        ApiErrorKind::Unknown => PawCoreApiErrorKind::Unknown,
    }
}

impl PawCoreApiError {
    /// The platform error of an API error: same status, code and message.
    pub fn from(e: ApiError) -> (r: Self)
        ensures
            r@ == (PawErrorModel {
                kind: paw_kind_of(e@.kind),
                status_code: e@.status_code,
                code: e@.code,
                message: e@.message,
            }),
    {
        let kind = match e.kind() {
            ApiErrorKind::Unauthorized => PawCoreApiErrorKind::Unauthorized,
            ApiErrorKind::Forbidden => PawCoreApiErrorKind::Forbidden,
            ApiErrorKind::NotFound => PawCoreApiErrorKind::NotFound,
            ApiErrorKind::Server => PawCoreApiErrorKind::Server,
            ApiErrorKind::Network => PawCoreApiErrorKind::Network,
            ApiErrorKind::Timeout => PawCoreApiErrorKind::Timeout,
            ApiErrorKind::Client => PawCoreApiErrorKind::Client,
            ApiErrorKind::InvalidResponse => PawCoreApiErrorKind::InvalidResponse,
            ApiErrorKind::Unknown => PawCoreApiErrorKind::Unknown,
        };
        let code = match e.code() {
            Some(c) => Some(c.to_string()),
            None => None,
        };
        PawCoreApiError::RequestFailed {
            kind,
            status_code: e.status_code(),
            code,
            message: e.message().to_string(),
        }
    }
}

/// A rejected input: kind `InvalidInput`, no status, code `invalid_<field>`.
pub open spec fn invalid_input_error(field: Seq<char>, message: Seq<char>) -> PawErrorModel {
    PawErrorModel {
        kind: PawCoreApiErrorKind::InvalidInput,
        status_code: None,
        code: Some("invalid_"@ + field),
        message,
    }
}

pub fn invalid_input(field: &str, message: String) -> (e: PawCoreApiError)
    ensures
        e@ == invalid_input_error(field@, message@),
{
    proof {
        reveal_strlit("invalid_");
    }
    PawCoreApiError::RequestFailed {
        kind: PawCoreApiErrorKind::InvalidInput,
        status_code: None,
        code: Some(concat("invalid_", field)),
        message,
    }
}

/// Parses an identifier field: a UUID, or an input error naming the field.
pub fn parse_id(field: &str, value: &str) -> (r: Result<u128, PawCoreApiError>)
    ensures
        match uuid_parse_result(value@) {
            Some(id) => r == Ok::<u128, PawCoreApiError>(id),
            None => r matches Err(e) && e@ == invalid_input_error(
                field@,
                field@ + " must be a valid UUID"@,
            ),
        },
{
    match parse_uuid(value) {
        Some(id) => Ok(id),
        None => {
            proof {
                reveal_strlit(" must be a valid UUID");
            }
            Err(invalid_input(field, concat(field, " must be a valid UUID")))
        },
    }
}

/// A page size: 50 when absent, clamped to 1..=100.
pub open spec fn limit_of(limit: Option<u32>) -> i64 {
    let l = match limit {
        Some(l) => l,
        None => 50u32,
    };
    if l < 1 { 1 } else if l > 100 { 100 } else { l as i64 }
}

pub fn normalize_limit(limit: Option<u32>) -> (r: i64)
    ensures
        r == limit_of(limit),
        1 <= r <= 100,
{
    let l = match limit {
        Some(l) => l,
        None => 50,
    };
    if l < 1 {
        1
    } else if l > 100 {
        100
    } else {
        l as i64
    }
}

/// The idempotency key of a send: the given one when it is not blank (it must
/// be a UUID), else a fresh random (version 4) one.
pub fn resolve_idempotency_key(value: Option<&str>) -> (r: Result<u128, PawCoreApiError>)
    ensures
        match value {
            Some(v) if trimmed(v@).len() > 0 => match uuid_parse_result(trimmed(v@)) {
                Some(id) => r == Ok::<u128, PawCoreApiError>(id),
                None => r matches Err(e) && e@ == invalid_input_error(
                    "idempotency_key"@,
                    "idempotency_key must be a valid UUID"@,
                ),
            },
            _ => r matches Ok(id) && (id >> 76u128) & 15u128 == 4 && (id >> 62u128) & 3u128 == 2,
        },
{
    proof {
        reveal_strlit("idempotency_key");
        reveal_strlit(" must be a valid UUID");
        reveal_strlit("idempotency_key must be a valid UUID");
    }
    match value {
        Some(v) => {
            let t = trim(v);
            if t.as_str().is_empty() {
                Ok(new_uuid_v4())
            } else {
                let r = parse_id("idempotency_key", t.as_str());
                assert("idempotency_key"@ + " must be a valid UUID"@ =~= "idempotency_key must be a valid UUID"@);
                r
            }
        },
        None => Ok(new_uuid_v4()),
    }
}

/// The name of the `i`-th attachment id field.
pub open spec fn attachment_field(i: nat) -> Seq<char> {
    "attachment_ids["@ + decimal_text(i) + "]"@
}

/// The index of the first attachment id that is not a UUID, if any.
pub open spec fn first_bad_id(values: Seq<String>) -> Option<int>
    decreases values.len(),
{
    if values.len() == 0 {
        None
    } else {
        match first_bad_id(values.drop_last()) {
            Some(i) => Some(i),
            None => if uuid_parse_result(values.last()@) is None {
                Some(values.len() - 1)
            } else {
                None
            },
        }
    }
}

proof fn lemma_first_bad_prefix(values: Seq<String>, i: int)
    requires
        0 <= i < values.len(),
        first_bad_id(values.take(i + 1)) == Some(i),
    ensures
        first_bad_id(values) == Some(i),
    decreases values.len(),
{
    if values.len() == i + 1 {
        assert(values.take(i + 1) == values);
    } else {
        assert(values.drop_last().take(i + 1) == values.take(i + 1));
        lemma_first_bad_prefix(values.drop_last(), i);
    }
}

/// Parses attachment ids in order; the first that is not a UUID is reported
/// with its index.
pub fn parse_attachment_ids(values: &Vec<String>) -> (r: Result<Vec<u128>, PawCoreApiError>)
    requires
        values@.len() <= u64::MAX,
    ensures
        match first_bad_id(values@) {
            Some(i) => r matches Err(e) && e@ == invalid_input_error(
                attachment_field(i as nat),
                attachment_field(i as nat) + " must be a valid UUID"@,
            ),
            None => r matches Ok(ids) && ids@ == values@.map_values(
                |v: String| uuid_parse_result(v@)->0,
            ),
        },
{
    let mut ids: Vec<u128> = Vec::new();
    let mut i: usize = 0;
    while i < values.len()
        invariant
            i <= values@.len(),
            values@.len() <= u64::MAX,
            first_bad_id(values@.take(i as int)) is None,
            ids@ == values@.take(i as int).map_values(|v: String| uuid_parse_result(v@)->0),
        decreases values@.len() - i,
    {
        proof {
            assert(values@.take(i + 1).drop_last() == values@.take(i as int));
        }
        match parse_uuid(values[i].as_str()) {
            Some(id) => {
                ids.push(id);
                proof {
                    assert(ids@ =~= values@.take(i + 1).map_values(
                        |v: String| uuid_parse_result(v@)->0,
                    ));
                }
            },
            None => {
                proof {
                    assert(first_bad_id(values@.take(i + 1)) == Some(i as int));
                    lemma_first_bad_prefix(values@, i as int);
                    reveal_strlit("attachment_ids[");
                    reveal_strlit("]");
                }
                let prefix = concat("attachment_ids[", decimal(i as u64).as_str());
                let field = concat(prefix.as_str(), "]");
                proof {
                    reveal_strlit(" must be a valid UUID");
                }
                let message = concat(field.as_str(), " must be a valid UUID");
                return Err(invalid_input(field.as_str(), message));
            },
        }
        i = i + 1;
    }
    assert(values@.take(i as int) == values@);
    Ok(ids)
}

/// The base URL and the access token to call the API with: the base URL must
/// not be blank; a blank token counts as none and a token is trimmed.
pub fn client_settings(config: &CoreApiConfig) -> (r: Result<(String, Option<String>), PawCoreApiError>)
    ensures
        trimmed(config.base_url@).len() == 0 ==> (r matches Err(e) && e@ == invalid_input_error(
            "base_url"@,
            "base_url must not be empty"@,
        )),
        trimmed(config.base_url@).len() > 0 ==> (r matches Ok((url, token)) && url@
            == config.base_url@ && match config.access_token {
            Some(t) if trimmed(t@).len() > 0 => token matches Some(x) && x@ == trimmed(t@),
            _ => token is None,
        }),
{
    let base = trim(config.base_url.as_str());
    if base.as_str().is_empty() {
        return Err(invalid_input("base_url", "base_url must not be empty".to_string()));
    }
    let token = match &config.access_token {
        Some(t) => {
            let tt = trim(t.as_str());
            if tt.as_str().is_empty() {
                None
            } else {
                Some(tt)
            }
        },
        None => None,
    };
    Ok((config.base_url.clone(), token))
}

/// What to fetch for a message list.
#[derive(Clone, Copy, Debug, PartialEq, Eq, Structural)]
pub struct ListMessagesPlan {
    pub conversation_id: u128,
    pub thread_id: Option<u128>,
    pub after_seq: i64,
    pub limit: i64,
}

/// Validates a message-list request: ids must be UUIDs (the conversation is
/// checked first), a missing or negative `after_seq` is zero, and the limit is
/// normalized.
pub fn plan_list_messages(input: &ListMessagesInput) -> (r: Result<ListMessagesPlan, PawCoreApiError>)
    ensures
        match uuid_parse_result(input.conversation_id@) {
            None => r matches Err(e) && e@ == invalid_input_error(
                "conversation_id"@,
                "conversation_id"@ + " must be a valid UUID"@,
            ),
            Some(c) => match input.thread_id {
                Some(t) if uuid_parse_result(t@) is None => r matches Err(e) && e@
                    == invalid_input_error("thread_id"@, "thread_id"@ + " must be a valid UUID"@),
                _ => r matches Ok(p) && p.conversation_id == c && p.thread_id == (match input.thread_id {
                    Some(t) => uuid_parse_result(t@),
                    None => None,
                }) && p.after_seq == (match input.after_seq {
                    Some(a) => if a > 0 { a } else { 0 },
                    None => 0,
                }) && p.limit == limit_of(input.limit),
            },
        },
{
    let conversation_id = match parse_id("conversation_id", input.conversation_id.as_str()) {
        Ok(id) => id,
        Err(e) => return Err(e),
    };
    let after = match input.after_seq {
        Some(a) => a,
        None => 0,
    };
    let after_seq = if after > 0 { after } else { 0 };
    let limit = normalize_limit(input.limit);
    let thread_id = match &input.thread_id {
        Some(t) => match parse_id("thread_id", t.as_str()) {
            Ok(id) => Some(id),
            Err(e) => return Err(e),
        },
        None => None,
    };
    Ok(ListMessagesPlan { conversation_id, thread_id, after_seq, limit })
}

/// What to fetch for a thread sync.
#[derive(Clone, Copy, Debug, PartialEq, Eq, Structural)]
pub struct ThreadSyncPlan {
    pub conversation_id: u128,
    pub thread_id: u128,
    pub since_seq: i64,
    pub limit: i64,
}

/// Validates a thread-sync request like [`plan_list_messages`].
pub fn plan_sync_thread_state(input: &SyncThreadStateInput) -> (r: Result<
    ThreadSyncPlan,
    PawCoreApiError,
>)
    ensures
        match (uuid_parse_result(input.conversation_id@), uuid_parse_result(input.thread_id@)) {
            (None, _) => r matches Err(e) && e@ == invalid_input_error(
                "conversation_id"@,
                "conversation_id"@ + " must be a valid UUID"@,
            ),
            (Some(_), None) => r matches Err(e) && e@ == invalid_input_error(
                "thread_id"@,
                "thread_id"@ + " must be a valid UUID"@,
            ),
            (Some(c), Some(t)) => r matches Ok(p) && p.conversation_id == c && p.thread_id == t
                && p.since_seq == (match input.since_seq {
                Some(a) => if a > 0 { a } else { 0 },
                None => 0,
            }) && p.limit == limit_of(input.limit),
        },
{
    let conversation_id = match parse_id("conversation_id", input.conversation_id.as_str()) {
        Ok(id) => id,
        Err(e) => return Err(e),
    };
    let thread_id = match parse_id("thread_id", input.thread_id.as_str()) {
        Ok(id) => id,
        Err(e) => return Err(e),
    };
    let since = match input.since_seq {
        Some(a) => a,
        None => 0,
    };
    let since_seq = if since > 0 { since } else { 0 };
    Ok(ThreadSyncPlan { conversation_id, thread_id, since_seq, limit: normalize_limit(input.limit) })
}

/// Validates a thread creation: the conversation and root message ids.
pub fn plan_create_thread(input: &CreateThreadInput) -> (r: Result<(u128, u128), PawCoreApiError>)
    ensures
        match (uuid_parse_result(input.conversation_id@), uuid_parse_result(input.root_message_id@)) {
            (None, _) => r matches Err(e) && e@ == invalid_input_error(
                "conversation_id"@,
                "conversation_id"@ + " must be a valid UUID"@,
            ),
            (Some(_), None) => r matches Err(e) && e@ == invalid_input_error(
                "root_message_id"@,
                "root_message_id"@ + " must be a valid UUID"@,
            ),
            (Some(c), Some(m)) => r == Ok::<(u128, u128), PawCoreApiError>((c, m)),
        },
{
    let conversation_id = match parse_id("conversation_id", input.conversation_id.as_str()) {
        Ok(id) => id,
        Err(e) => return Err(e),
    };
    let root = match parse_id("root_message_id", input.root_message_id.as_str()) {
        Ok(id) => id,
        Err(e) => return Err(e),
    };
    Ok((conversation_id, root))
}

/// A conversation as the API lists it.
#[derive(Clone, Debug, PartialEq, Eq)]
pub struct ConversationListItem {
    pub id: u128,
    pub name: Option<String>,
    pub last_message: Option<String>,
    pub unread_count: i64,
}

/// A message as the API returns it.
#[derive(Clone, Debug, PartialEq, Eq)]
pub struct HttpMessageRecord {
    pub id: u128,
    pub conversation_id: u128,
    pub thread_id: Option<u128>,
    pub thread_seq: Option<i64>,
    pub sender_id: u128,
    pub content: String,
    pub format: String,
    pub seq: i64,
    pub created_at_ms: i64,
}

/// A thread as the API returns it.
#[derive(Clone, Debug, PartialEq, Eq)]
pub struct ThreadRecord {
    pub id: u128,
    pub conversation_id: u128,
    pub root_message_id: u128,
    pub title: Option<String>,
    pub created_by: u128,
    pub message_count: i32,
    pub last_seq: Option<i64>,
    pub last_message_at_ms: Option<i64>,
    pub created_at_ms: i64,
}

/// A user profile as the API returns it.
#[derive(Clone, Debug, PartialEq, Eq)]
pub struct UserProfile {
    pub id: u128,
    pub phone: Option<String>,
    pub username: Option<String>,
    pub preferred_locale: Option<String>,
    pub discoverable_by_phone: bool,
    pub phone_verified_at_ms: Option<i64>,
    pub display_name: Option<String>,
    pub avatar_url: Option<String>,
    pub created_at_ms: Option<i64>,
}

impl Conversation {
    pub fn from(c: ConversationListItem) -> (r: Self)
        ensures
            r.id@ == uuid_text(c.id),
            r.name == c.name,
            r.last_message == c.last_message,
            r.unread_count == c.unread_count,
    {
        Conversation {
            id: uuid_string(c.id),
            name: c.name,
            last_message: c.last_message,
            unread_count: c.unread_count,
        }
    }
}

pub open spec fn message_matches(m: Message, r: HttpMessageRecord) -> bool {
    &&& m.id@ == uuid_text(r.id)
    &&& m.conversation_id@ == uuid_text(r.conversation_id)
    &&& opt_chars(m.thread_id) == (match r.thread_id {
        Some(t) => Some(uuid_text(t)),
        None => None,
    })
    &&& m.thread_seq == r.thread_seq
    &&& m.sender_id@ == uuid_text(r.sender_id)
    &&& m.content@ == r.content@
    &&& m.format@ == r.format@
    &&& m.seq == r.seq
    &&& m.created_at_ms == r.created_at_ms
}

impl Message {
    pub fn from(r: HttpMessageRecord) -> (m: Self)
        ensures
            message_matches(m, r),
    {
        let thread_id = match r.thread_id {
            Some(t) => Some(uuid_string(t)),
            None => None,
        };
        Message {
            id: uuid_string(r.id),
            conversation_id: uuid_string(r.conversation_id),
            thread_id,
            thread_seq: r.thread_seq,
            sender_id: uuid_string(r.sender_id),
            content: r.content,
            format: r.format,
            seq: r.seq,
            created_at_ms: r.created_at_ms,
        }
    }
}

impl Thread {
    pub fn from(r: ThreadRecord) -> (t: Self)
        ensures
            t.id@ == uuid_text(r.id),
            t.conversation_id@ == uuid_text(r.conversation_id),
            t.root_message_id@ == uuid_text(r.root_message_id),
            t.title == r.title,
            t.created_by@ == uuid_text(r.created_by),
            t.message_count == r.message_count,
            t.last_seq == r.last_seq,
            t.last_message_at_ms == r.last_message_at_ms,
            t.created_at_ms == r.created_at_ms,
    {
        Thread {
            id: uuid_string(r.id),
            conversation_id: uuid_string(r.conversation_id),
            root_message_id: uuid_string(r.root_message_id),
            title: r.title,
            created_by: uuid_string(r.created_by),
            message_count: r.message_count,
            last_seq: r.last_seq,
            last_message_at_ms: r.last_message_at_ms,
            created_at_ms: r.created_at_ms,
        }
    }
}

impl User {
    pub fn from(p: UserProfile) -> (u: Self)
        ensures
            u.id@ == uuid_text(p.id),
            u.phone == p.phone,
            u.username == p.username,
            u.preferred_locale == p.preferred_locale,
            u.discoverable_by_phone == p.discoverable_by_phone,
            u.phone_verified_at_ms == p.phone_verified_at_ms,
            u.display_name == p.display_name,
            u.avatar_url == p.avatar_url,
            u.created_at_ms == p.created_at_ms,
    {
        User {
            id: uuid_string(p.id),
            phone: p.phone,
            username: p.username,
            preferred_locale: p.preferred_locale,
            discoverable_by_phone: p.discoverable_by_phone,
            phone_verified_at_ms: p.phone_verified_at_ms,
            display_name: p.display_name,
            avatar_url: p.avatar_url,
            created_at_ms: p.created_at_ms,
        }
    }
}

fn copy_record(r: &HttpMessageRecord) -> (c: HttpMessageRecord)
    ensures
        c.id == r.id && c.conversation_id == r.conversation_id && c.thread_id == r.thread_id
            && c.thread_seq == r.thread_seq && c.sender_id == r.sender_id && c.content@
            == r.content@ && c.format@ == r.format@ && c.seq == r.seq && c.created_at_ms
            == r.created_at_ms,
{
    HttpMessageRecord {
        id: r.id,
        conversation_id: r.conversation_id,
        thread_id: r.thread_id,
        thread_seq: r.thread_seq,
        sender_id: r.sender_id,
        content: r.content.clone(),
        format: r.format.clone(),
        seq: r.seq,
        created_at_ms: r.created_at_ms,
    }
}

/// Finds the message a send created in the history fetched after it: the first
/// with its id; an input error when the history does not hold it.
pub fn find_sent_message(history: &Vec<HttpMessageRecord>, sent_id: u128) -> (r: Result<
    Message,
    PawCoreApiError,
>)
    ensures
        match r {
            Ok(m) => exists|i: int|
                0 <= i < history@.len() && (#[trigger] history@[i]).id == sent_id && (forall|k: int|
                    0 <= k < i ==> (#[trigger] history@[k]).id != sent_id) && message_matches(
                    m,
                    history@[i],
                ),
            Err(e) => (forall|k: int| 0 <= k < history@.len() ==> (#[trigger] history@[k]).id != sent_id)
                && e@ == invalid_input_error(
                "message_lookup"@,
                "message "@ + uuid_text(sent_id) + " was accepted but not returned by list_messages"@,
            ),
        },
{
    let ghost h = history@;
    let mut i: usize = 0;
    while i < history.len()
        invariant
            history@ == h,
            i <= h.len(),
            forall|k: int| 0 <= k < i ==> (#[trigger] h[k]).id != sent_id,
        decreases h.len() - i,
    {
        if history[i].id == sent_id {
            let rec = copy_record(&history[i]);
            let m = Message::from(rec);
            assert(message_matches(m, h[i as int]));
            assert(h[i as int].id == sent_id);
            return Ok(m);
        }
        i = i + 1;
    }
    proof {
        reveal_strlit("message ");
        reveal_strlit(" was accepted but not returned by list_messages");
    }
    let text = concat("message ", uuid_string(sent_id).as_str());
    let message = concat(text.as_str(), " was accepted but not returned by list_messages");
    Err(invalid_input("message_lookup", message))
}

pub fn ping() -> (s: String)
    ensures
        s@ == "paw-core-ok"@,
{
    "paw-core-ok".to_string()
}

/// The sign-in state at launch, as the UI sees it.
pub fn initial_auth_state_view() -> (v: AuthStateView)
    ensures
        v.step == crate::events::step_view(crate::auth::state::initial_model().step),
        v.phone@ == Seq::<char>::empty(),
        v.device_name@ == Seq::<char>::empty(),
        v.username@ == Seq::<char>::empty(),
        !v.discoverable_by_phone,
        !v.has_session_token && !v.has_access_token && !v.has_refresh_token,
        !v.is_loading,
        v.error is None,
{
    let s = AuthState::initial();
    AuthStateView::from(&s)
}

/// The runtime before anything happened: disconnected, no cursors, nothing
/// pending, no streams.
pub fn empty_runtime_snapshot() -> (s: RuntimeSnapshot)
    ensures
        s.connection.state == ConnectionStateView::Disconnected,
        s.connection.attempts == 0,
        s.connection.pending_reconnect_delay_ms is None,
        s.connection.pending_reconnect_endpoint is None,
        s.cursors@.len() == 0,
        s.pending_recoveries@.len() == 0,
        s.active_streams@.len() == 0,
{
    RuntimeSnapshot {
        connection: ConnectionSnapshot {
            state: ConnectionStateView::Disconnected,
            attempts: 0,
            pending_reconnect_delay_ms: None,
            pending_reconnect_endpoint: None,
        },
        cursors: Vec::new(),
        pending_recoveries: Vec::new(),
        active_streams: Vec::new(),
    }
}

pub fn memory_fallback_secure_storage_capabilities() -> (c: SecureStorageCapabilities)
    ensures
        c == memory_fallback_capabilities(),
{
    SecureStorageCapabilities::memory_fallback()
}

pub fn empty_push_registration_state() -> (s: PushRegistrationState)
    ensures
        exists|now_ms: i64| is_unregistered_at(s, now_ms),
{
    PushRegistrationState::unregistered()
}

pub fn lifecycle_hints(event: LifecycleEvent) -> (hints: Vec<LifecycleHint>)
    ensures
        hints@ == hints_for(event.state),
{
    lifecycle_hints_for(&event)
}

} // verus!
