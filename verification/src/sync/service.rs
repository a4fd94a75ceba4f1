//! What the client stores about messages and conversations, and the sync
//! requests and cursors derived from what is stored.

use vstd::prelude::*;
use crate::events::format_name;
use crate::events::message_format_name;
use crate::ids::{parse_uuid, uuid_parse_result, uuid_string, uuid_text};
use crate::proto::MessageReceivedMsg;
use crate::sync::engine::ConversationSyncCursor;

verus! {

/// A message as stored locally.
#[derive(Clone, Debug, PartialEq, Eq)]
pub struct MessageRecord {
    pub id: String,
    pub conversation_id: String,
    pub thread_id: Option<String>,
    pub sender_id: String,
    pub content: String,
    pub format: String,
    pub seq: i64,
    pub created_at_ms: i64,
    pub is_me: bool,
    pub is_agent: bool,
}

pub struct RecordModel {
    pub id: Seq<char>,
    pub conversation_id: Seq<char>,
    pub thread_id: Option<Seq<char>>,
    pub sender_id: Seq<char>,
    pub content: Seq<char>,
    pub format: Seq<char>,
    pub seq: i64,
    pub created_at_ms: i64,
    pub is_me: bool,
    pub is_agent: bool,
}

pub open spec fn opt_text(o: Option<String>) -> Option<Seq<char>> {
    match o {
        Some(s) => Some(s@),
        None => None,
    }
}

impl View for MessageRecord {
    type V = RecordModel;

    open spec fn view(&self) -> RecordModel {
        RecordModel {
            id: self.id@,
            conversation_id: self.conversation_id@,
            thread_id: opt_text(self.thread_id),
            sender_id: self.sender_id@,
            content: self.content@,
            format: self.format@,
            seq: self.seq,
            created_at_ms: self.created_at_ms,
            is_me: self.is_me,
            is_agent: self.is_agent,
        }
    }
}

/// A conversation as stored locally.
#[derive(Clone, Debug, PartialEq, Eq)]
pub struct ConversationRecord {
    pub id: String,
    pub name: String,
    pub avatar_url: Option<String>,
    pub last_seq: i64,
    pub unread_count: i64,
    pub updated_at_ms: i64,
}

/// The highest stored sequence number of a thread.
#[derive(Clone, Debug, PartialEq, Eq)]
pub struct ThreadCursorRecord {
    pub conversation_id: String,
    pub thread_id: String,
    pub last_seq: i64,
}

/// A request to sync a conversation (or one of its threads) from a sequence number.
#[derive(Clone, Debug, PartialEq, Eq)]
pub struct SyncRequest {
    pub conversation_id: String,
    pub thread_id: Option<String>,
    pub last_seq: i64,
}

pub struct SyncRequestModel {
    pub conversation_id: Seq<char>,
    pub thread_id: Option<Seq<char>>,
    pub last_seq: i64,
}

impl View for SyncRequest {
    type V = SyncRequestModel;

    open spec fn view(&self) -> SyncRequestModel {
        SyncRequestModel {
            conversation_id: self.conversation_id@,
            thread_id: opt_text(self.thread_id),
            last_seq: self.last_seq,
        }
    }
}

pub open spec fn opt_uuid_text(o: Option<u128>) -> Option<Seq<char>> {
    match o {
        Some(id) => Some(uuid_text(id)),
        None => None,
    }
}

/// The stored form of a received message: identifiers as text, not sent by
/// this user, not by an agent.
pub open spec fn record_of(msg: MessageReceivedMsg) -> RecordModel {
    RecordModel {
        id: uuid_text(msg.id),
        conversation_id: uuid_text(msg.conversation_id),
        thread_id: opt_uuid_text(msg.thread_id),
        sender_id: uuid_text(msg.sender_id),
        content: msg.content@,
        format: format_name(msg.format),
        seq: msg.seq,
        created_at_ms: msg.created_at_ms,
        is_me: false,
        is_agent: false,
    }
}

/// The record to store for a received message. A record without a thread also
/// moves its conversation's stored head to `seq`.
pub fn message_record_from(msg: &MessageReceivedMsg) -> (r: MessageRecord)
    ensures
        r@ == record_of(*msg),
{
    let thread_id = match msg.thread_id {
        Some(t) => Some(uuid_string(t)),
        None => None,
    };
    MessageRecord {
        id: uuid_string(msg.id),
        conversation_id: uuid_string(msg.conversation_id),
        thread_id,
        sender_id: uuid_string(msg.sender_id),
        content: msg.content.clone(),
        format: message_format_name(&msg.format).to_string(),
        seq: msg.seq,
        created_at_ms: msg.created_at_ms,
        is_me: false,
        is_agent: false,
    }
}

/// The sync requests for the stored state: one per conversation, in the given
/// order, from the conversation's highest stored sequence number, then one per
/// thread cursor, in the given order.
pub open spec fn sync_requests_of(
    heads: Seq<(Seq<char>, i64)>,
    threads: Seq<ThreadCursorRecord>,
) -> Seq<SyncRequestModel> {
    heads.map_values(
        |h: (Seq<char>, i64)| SyncRequestModel { conversation_id: h.0, thread_id: None, last_seq: h.1 },
    ) + threads.map_values(
        |t: ThreadCursorRecord| SyncRequestModel {
            conversation_id: t.conversation_id@,
            thread_id: Some(t.thread_id@),
            last_seq: t.last_seq,
        },
    )
}

pub open spec fn head_view(h: (String, i64)) -> (Seq<char>, i64) {
    (h.0@, h.1)
}

/// Builds the sync requests from the stored conversations (each with its highest
/// stored sequence number, in the store's order) and the stored thread cursors.
pub fn sync_requests(
    conversation_heads: &Vec<(String, i64)>,
    threads: &Vec<ThreadCursorRecord>,
) -> (r: Vec<SyncRequest>)
    ensures
        r@.map_values(|q: SyncRequest| q@) == sync_requests_of(
            conversation_heads@.map_values(|h: (String, i64)| head_view(h)),
            threads@,
        ),
{
    let ghost heads = conversation_heads@.map_values(|h: (String, i64)| head_view(h));
    let ghost f = |h: (Seq<char>, i64)| SyncRequestModel { conversation_id: h.0, thread_id: None, last_seq: h.1 };
    let ghost g = |t: ThreadCursorRecord| SyncRequestModel {
        conversation_id: t.conversation_id@,
        thread_id: Some(t.thread_id@),
        last_seq: t.last_seq,
    };
    let mut r: Vec<SyncRequest> = Vec::new();
    let mut i: usize = 0;
    while i < conversation_heads.len()
        invariant
            i <= conversation_heads@.len(),
            heads == conversation_heads@.map_values(|h: (String, i64)| head_view(h)),
            r@.len() == i,
            f == (|h: (Seq<char>, i64)| SyncRequestModel { conversation_id: h.0, thread_id: None, last_seq: h.1 }),
            forall|k: int| 0 <= k < i ==> (#[trigger] r@[k])@ == f(heads[k]),
        decreases conversation_heads@.len() - i,
    {
        let h = &conversation_heads[i];
        r.push(SyncRequest { conversation_id: h.0.clone(), thread_id: None, last_seq: h.1 });
        i = i + 1;
    }
    let n = r.len();
    let mut j: usize = 0;
    while j < threads.len()
        invariant
            j <= threads@.len(),
            n == heads.len(),
            r@.len() == n + j,
            g == (|t: ThreadCursorRecord| SyncRequestModel {
                conversation_id: t.conversation_id@,
                thread_id: Some(t.thread_id@),
                last_seq: t.last_seq,
            }),
            forall|k: int| 0 <= k < n ==> (#[trigger] r@[k])@ == f(heads[k]),
            forall|k: int| 0 <= k < j ==> (#[trigger] r@[n + k])@ == g(threads@[k]),
        decreases threads@.len() - j,
    {
        let t = &threads[j];
        r.push(
            SyncRequest {
                conversation_id: t.conversation_id.clone(),
                thread_id: Some(t.thread_id.clone()),
                last_seq: t.last_seq,
            },
        );
        proof {
            assert(r@[n + j]@ == g(threads@[j as int]));
        }
        j = j + 1;
    }
    proof {
        let lhs = r@.map_values(|q: SyncRequest| q@);
        let rhs = sync_requests_of(heads, threads@);
        assert forall|k: int| 0 <= k < lhs.len() implies lhs[k] == rhs[k] by {
            if k < n {
                assert(r@[k]@ == f(heads[k]));
            } else {
                assert(r@[n + (k - n)]@ == g(threads@[k - n]));
            }
        }
        assert(lhs =~= rhs);
    }
    r
}

/// Why stored state could not be turned into sync cursors.
#[derive(Clone, Debug, PartialEq, Eq)]
pub enum CursorLoadError {
    /// A stored conversation id is not a UUID.
    InvalidConversationId(String),
}

/// The index of the first stored conversation whose id is not a UUID, if any.
pub open spec fn first_invalid(cs: Seq<ConversationRecord>) -> Option<int>
    decreases cs.len(),
{
    if cs.len() == 0 {
        None
    } else {
        match first_invalid(cs.drop_last()) {
            Some(i) => Some(i),
            None => if uuid_parse_result(cs.last().id@) is None {
                Some(cs.len() - 1)
            } else {
                None
            },
        }
    }
}

/// The cursor of a stored conversation whose id is a UUID.
pub open spec fn cursor_of(c: ConversationRecord) -> ConversationSyncCursor {
    ConversationSyncCursor {
        conversation_id: uuid_parse_result(c.id@)->0,
        last_seq: c.last_seq,
    }
}

/// The sync cursors of the stored conversations, in order; the first stored id
/// that is not a UUID is reported instead.
pub fn load_cursors(conversations: &Vec<ConversationRecord>) -> (r: Result<
    Vec<ConversationSyncCursor>,
    CursorLoadError,
>)
    ensures
        match first_invalid(conversations@) {
            Some(i) => r matches Err(CursorLoadError::InvalidConversationId(id)) && id@
                == conversations@[i].id@,
            None => r matches Ok(v) && v@ == conversations@.map_values(
                |c: ConversationRecord| cursor_of(c),
            ),
        },
{
    let ghost f = |c: ConversationRecord| cursor_of(c);
    let mut out: Vec<ConversationSyncCursor> = Vec::new();
    let mut i: usize = 0;
    while i < conversations.len()
        invariant
            i <= conversations@.len(),
            first_invalid(conversations@.take(i as int)) is None,
            f == (|c: ConversationRecord| cursor_of(c)),
            out@ == conversations@.take(i as int).map_values(f),
        decreases conversations@.len() - i,
    {
        let c = &conversations[i];
        proof {
            assert(conversations@.take(i + 1).drop_last() == conversations@.take(i as int));
        }
        match parse_uuid(c.id.as_str()) {
            Some(id) => {
                out.push(ConversationSyncCursor { conversation_id: id, last_seq: c.last_seq });
                proof {
                    assert(out@ =~= conversations@.take(i + 1).map_values(f));
                }
            },
            None => {
                proof {
                    assert(first_invalid(conversations@.take(i + 1)) == Some(i as int));
                    lemma_first_invalid_prefix(conversations@, i as int);
                }
                return Err(CursorLoadError::InvalidConversationId(c.id.clone()));
            },
        }
        i = i + 1;
    }
    assert(conversations@.take(i as int) == conversations@);
    Ok(out)
}

/// Once a prefix has its first invalid id at `i`, so has the whole sequence.
proof fn lemma_first_invalid_prefix(cs: Seq<ConversationRecord>, i: int)
    requires
        0 <= i < cs.len(),
        first_invalid(cs.take(i + 1)) == Some(i),
    ensures
        first_invalid(cs) == Some(i),
    decreases cs.len(),
{
    if cs.len() == i + 1 {
        assert(cs.take(i + 1) == cs);
    } else {
        assert(cs.drop_last().take(i + 1) == cs.take(i + 1));
        lemma_first_invalid_prefix(cs.drop_last(), i);
    }
}

} // verus!
