//! Per-scope sequence tracking: duplicate and gap detection for incoming
//! messages, sync requests, and pending gap recoveries.

use vstd::prelude::*;
use crate::proto::{MessageReceivedMsg, SyncMsg, PROTOCOL_VERSION};
use crate::sync::table::{
    lemma_index, main_key, seq_has, seq_index, seq_to_map, sorted, thread_key, ScopeKey,
    ScopeTable,
};

verus! {

/// The last sequence number seen in a conversation's main timeline.
#[derive(Clone, Copy, Debug, PartialEq, Eq, Structural)]
pub struct ConversationSyncCursor {
    pub conversation_id: u128,
    pub last_seq: i64,
}

/// The last sequence number seen in a scope (main timeline or a thread).
#[derive(Clone, Copy, Debug, PartialEq, Eq, Structural)]
pub struct ScopedSyncCursor {
    pub conversation_id: u128,
    pub thread_id: Option<u128>,
    pub last_seq: i64,
}

/// What to do with an incoming message.
#[derive(Clone, Copy, Debug, PartialEq, Eq, Structural)]
pub enum MessageSyncOutcome {
    /// Already seen: acknowledge the scope's current cursor.
    DuplicateOrStale { ack_seq: i64 },
    /// Messages are missing: request the conversation from `request_from_seq`.
    GapDetected { request_from_seq: i64 },
    /// The message is the next one: it was applied.
    Applied { ack_seq: i64 },
}

/// The abstract state of a [`SyncEngine`].
pub struct SyncModel {
    /// Highest sequence number per scope.
    pub cursors: Map<ScopeKey, i64>,
    /// Highest sequence number per conversation over all its scopes (keyed by main scope).
    pub heads: Map<ScopeKey, i64>,
    /// Pending gap recoveries per scope, with the sequence to request from.
    pub pending: Map<ScopeKey, i64>,
}

pub open spec fn max_i64(a: i64, b: i64) -> i64 {
    if a >= b { a } else { b }
}

/// The value of a key, or zero when it is absent.
pub open spec fn get_or_zero(m: Map<ScopeKey, i64>, k: ScopeKey) -> i64 {
    if m.contains_key(k) { m[k] } else { 0 }
}

/// Raises the value of a key to at least `seq`, inserting `seq` when the key is absent.
pub open spec fn raise(m: Map<ScopeKey, i64>, k: ScopeKey, seq: i64) -> Map<ScopeKey, i64> {
    m.insert(k, if m.contains_key(k) { max_i64(m[k], seq) } else { seq })
}

/// The scope a message belongs to.
pub open spec fn message_scope(msg: MessageReceivedMsg) -> ScopeKey {
    ScopeKey { conversation_id: msg.conversation_id, thread_id: msg.thread_id }
}

/// The cursors (and heads) that a list of conversation cursors stands for:
/// negative values count as zero and later entries win.
pub open spec fn cursor_map(cs: Seq<ConversationSyncCursor>) -> Map<ScopeKey, i64>
    decreases cs.len(),
{
    if cs.len() == 0 {
        Map::empty()
    } else {
        cursor_map(cs.drop_last()).insert(
            main_key(cs.last().conversation_id),
            max_i64(cs.last().last_seq, 0),
        )
    }
}

/// Cursors after applying the messages of a gap fill in order.
pub open spec fn gap_fill_cursors(
    m: Map<ScopeKey, i64>,
    msgs: Seq<MessageReceivedMsg>,
) -> Map<ScopeKey, i64>
    decreases msgs.len(),
{
    if msgs.len() == 0 {
        m
    } else {
        let prev = gap_fill_cursors(m, msgs.drop_last());
        let k = message_scope(msgs.last());
        prev.insert(k, max_i64(get_or_zero(prev, k), msgs.last().seq))
    }
}

/// Conversation heads after applying the messages of a gap fill in order.
pub open spec fn gap_fill_heads(
    m: Map<ScopeKey, i64>,
    msgs: Seq<MessageReceivedMsg>,
) -> Map<ScopeKey, i64>
    decreases msgs.len(),
{
    if msgs.len() == 0 {
        m
    } else {
        raise(
            gap_fill_heads(m, msgs.drop_last()),
            main_key(msgs.last().conversation_id),
            msgs.last().seq,
        )
    }
}

/// Pending recoveries after clearing the main scopes of the given conversations.
pub open spec fn without_conversations(
    m: Map<ScopeKey, i64>,
    cs: Seq<ConversationSyncCursor>,
) -> Map<ScopeKey, i64>
    decreases cs.len(),
{
    if cs.len() == 0 {
        m
    } else {
        without_conversations(m, cs.drop_last()).remove(main_key(cs.last().conversation_id))
    }
}

/// Pending recoveries after clearing the given scopes.
pub open spec fn without_scopes(m: Map<ScopeKey, i64>, ss: Seq<ScopedSyncCursor>) -> Map<
    ScopeKey,
    i64,
>
    decreases ss.len(),
{
    if ss.len() == 0 {
        m
    } else {
        without_scopes(m, ss.drop_last()).remove(
            ScopeKey { conversation_id: ss.last().conversation_id, thread_id: ss.last().thread_id },
        )
    }
}

/// A main-timeline entry as a conversation cursor; thread entries are skipped.
pub open spec fn main_cursor_of(e: (ScopeKey, i64)) -> Option<ConversationSyncCursor> {
    if e.0.thread_id is None {
        Some(ConversationSyncCursor { conversation_id: e.0.conversation_id, last_seq: e.1 })
    } else {
        None
    }
}

/// An entry as a scoped cursor.
pub open spec fn scoped_cursor_of(e: (ScopeKey, i64)) -> ScopedSyncCursor {
    ScopedSyncCursor {
        conversation_id: e.0.conversation_id,
        thread_id: e.0.thread_id,
        last_seq: e.1,
    }
}

/// The sync request for a scope with a given cursor.
pub open spec fn sync_msg_of(e: (ScopeKey, i64)) -> SyncMsg {
    SyncMsg {
        v: PROTOCOL_VERSION,
        conversation_id: e.0.conversation_id,
        thread_id: e.0.thread_id,
        last_seq: e.1,
    }
}

/// The sync request of a main-timeline entry; thread entries are skipped.
pub open spec fn main_sync_msg_of(e: (ScopeKey, i64)) -> Option<SyncMsg> {
    if e.0.thread_id is None {
        Some(sync_msg_of(e))
    } else {
        None
    }
}

/// Ingesting a message: a sequence number at or below the scope's cursor is a
/// duplicate (acknowledged with the cursor); one more than a step past the
/// conversation head reveals a gap (recovered from the head); otherwise the
/// message is applied: the scope's cursor moves to it, the head is raised and
/// the scope's pending recovery is cleared. Only an applied message changes
/// the state.
pub open spec fn ingest_spec(m: SyncModel, msg: MessageReceivedMsg) -> (SyncModel, MessageSyncOutcome) {
    let scope = message_scope(msg);
    let scope_current = get_or_zero(m.cursors, scope);
    let current = get_or_zero(m.heads, main_key(msg.conversation_id));
    if msg.seq <= scope_current {
        (m, MessageSyncOutcome::DuplicateOrStale { ack_seq: scope_current })
    } else if msg.seq > current + 1 {
        (m, MessageSyncOutcome::GapDetected { request_from_seq: current })
    } else {
        (
            SyncModel {
                cursors: m.cursors.insert(scope, msg.seq),
                heads: raise(m.heads, main_key(msg.conversation_id), msg.seq),
                pending: m.pending.remove(scope),
            },
            MessageSyncOutcome::Applied { ack_seq: msg.seq },
        )
    }
}

/// Tracks per-scope cursors, per-conversation heads and pending recoveries.
pub struct SyncEngine {
    cursors: ScopeTable,
    conversation_heads: ScopeTable,
    pending_recoveries: ScopeTable,
}

impl View for SyncEngine {
    type V = SyncModel;

    closed spec fn view(&self) -> SyncModel {
        SyncModel {
            cursors: self.cursors@,
            heads: self.conversation_heads@,
            pending: self.pending_recoveries@,
        }
    }
}

impl SyncEngine {
    /// The tables are well formed.
    pub closed spec fn wf(&self) -> bool {
        &&& self.cursors.wf()
        &&& self.conversation_heads.wf()
        &&& self.pending_recoveries.wf()
    }

    /// The cursor entries in scope order.
    pub closed spec fn cursor_entries(&self) -> Seq<(ScopeKey, i64)> {
        self.cursors.entries()
    }

    /// The pending recovery entries in scope order.
    pub closed spec fn pending_entries(&self) -> Seq<(ScopeKey, i64)> {
        self.pending_recoveries.entries()
    }

    /// The ordered entries stand for the maps of the view.
    pub proof fn lemma_entries(&self)
        requires
            self.wf(),
        ensures
            sorted(self.cursor_entries()),
            seq_to_map(self.cursor_entries()) == self@.cursors,
            sorted(self.pending_entries()),
            seq_to_map(self.pending_entries()) == self@.pending,
    {
        self.cursors.lemma_sorted();
        self.pending_recoveries.lemma_sorted();
    }

    /// An engine with no cursors.
    pub fn empty() -> (e: Self)
        ensures
            e.wf(),
            e@.cursors == Map::<ScopeKey, i64>::empty(),
            e@.heads == Map::<ScopeKey, i64>::empty(),
            e@.pending == Map::<ScopeKey, i64>::empty(),
    {
        SyncEngine {
            cursors: ScopeTable::new(),
            conversation_heads: ScopeTable::new(),
            pending_recoveries: ScopeTable::new(),
        }
    }

    /// An engine loaded with conversation cursors.
    pub fn new(cursors: Vec<ConversationSyncCursor>) -> (e: Self)
        ensures
            e.wf(),
            e@.cursors == cursor_map(cursors@),
            e@.heads == cursor_map(cursors@),
            e@.pending == Map::<ScopeKey, i64>::empty(),
    {
        let mut engine = Self::empty();
        engine.replace_cursors(cursors);
        engine
    }

    /// Replaces all cursors and heads by the given conversation cursors and
    /// drops every pending recovery.
    pub fn replace_cursors(&mut self, cursors: Vec<ConversationSyncCursor>)
        requires
            old(self).wf(),
        ensures
            final(self).wf(),
            final(self)@.cursors == cursor_map(cursors@),
            final(self)@.heads == cursor_map(cursors@),
            final(self)@.pending == Map::<ScopeKey, i64>::empty(),
    {
        self.cursors.clear();
        self.conversation_heads.clear();
        let mut i: usize = 0;
        while i < cursors.len()
            invariant
                i <= cursors@.len(),
                self.cursors.wf(),
                self.conversation_heads.wf(),
                self.pending_recoveries.wf(),
                self.cursors@ == cursor_map(cursors@.take(i as int)),
                self.conversation_heads@ == cursor_map(cursors@.take(i as int)),
            decreases cursors@.len() - i,
        {
            let cursor = cursors[i];
            let last_seq = if cursor.last_seq >= 0 { cursor.last_seq } else { 0 };
            let key = ScopeKey { conversation_id: cursor.conversation_id, thread_id: None };
            self.cursors.insert(key, last_seq);
            self.conversation_heads.insert(key, last_seq);
            proof {
                assert(cursors@.take(i + 1).drop_last() == cursors@.take(i as int));
            }
            i = i + 1;
        }
        proof {
            assert(cursors@.take(cursors@.len() as int) == cursors@);
        }
        self.pending_recoveries.clear();
    }

    /// Sets the cursor of a thread (negative values count as zero) and raises
    /// the conversation head to at least that value.
    pub fn upsert_thread_cursor(&mut self, conversation_id: u128, thread_id: u128, last_seq: i64)
        requires
            old(self).wf(),
        ensures
            final(self).wf(),
            final(self)@.cursors == old(self)@.cursors.insert(
                thread_key(conversation_id, thread_id),
                max_i64(last_seq, 0),
            ),
            final(self)@.heads == raise(
                old(self)@.heads,
                main_key(conversation_id),
                max_i64(last_seq, 0),
            ),
            final(self)@.pending == old(self)@.pending,
    {
        let last_seq = if last_seq >= 0 { last_seq } else { 0 };
        self.cursors.insert(
            ScopeKey { conversation_id, thread_id: Some(thread_id) },
            last_seq,
        );
        self.raise_head(conversation_id, last_seq);
    }

    fn raise_head(&mut self, conversation_id: u128, seq: i64)
        requires
            old(self).wf(),
        ensures
            final(self).wf(),
            final(self)@.cursors == old(self)@.cursors,
            final(self)@.heads == raise(old(self)@.heads, main_key(conversation_id), seq),
            final(self)@.pending == old(self)@.pending,
    {
        let key = ScopeKey { conversation_id, thread_id: None };
        let next = match self.conversation_heads.get(&key) {
            Some(current) => if *current >= seq { *current } else { seq },
            None => seq,
        };
        self.conversation_heads.insert(key, next);
    }

    /// The cursor of a conversation's main timeline (zero when unknown).
    pub fn last_seq(&self, conversation_id: u128) -> (seq: i64)
        requires
            self.wf(),
        ensures
            seq == get_or_zero(self@.cursors, main_key(conversation_id)),
    {
        match self.cursors.get(&ScopeKey { conversation_id, thread_id: None }) {
            Some(seq) => *seq,
            None => 0,
        }
    }

    /// The highest sequence number seen in a conversation over all its scopes
    /// (zero when unknown).
    pub fn last_conversation_seq(&self, conversation_id: u128) -> (seq: i64)
        requires
            self.wf(),
        ensures
            seq == get_or_zero(self@.heads, main_key(conversation_id)),
    {
        match self.conversation_heads.get(&ScopeKey { conversation_id, thread_id: None }) {
            Some(seq) => *seq,
            None => 0,
        }
    }

    /// The cursor of a thread (zero when unknown).
    pub fn last_thread_seq(&self, conversation_id: u128, thread_id: u128) -> (seq: i64)
        requires
            self.wf(),
        ensures
            seq == get_or_zero(self@.cursors, thread_key(conversation_id, thread_id)),
    {
        match self.cursors.get(&ScopeKey { conversation_id, thread_id: Some(thread_id) }) {
            Some(seq) => *seq,
            None => 0,
        }
    }

    /// The sync request for a conversation's main timeline.
    pub fn request_sync_message(&self, conversation_id: u128) -> (msg: SyncMsg)
        requires
            self.wf(),
        ensures
            msg == (SyncMsg {
                v: PROTOCOL_VERSION,
                conversation_id,
                thread_id: None,
                last_seq: get_or_zero(self@.cursors, main_key(conversation_id)),
            }),
    {
        SyncMsg {
            v: PROTOCOL_VERSION,
            conversation_id,
            thread_id: None,
            last_seq: self.last_seq(conversation_id),
        }
    }

    /// The sync request for a thread.
    pub fn request_thread_sync_message(&self, conversation_id: u128, thread_id: u128) -> (msg:
        SyncMsg)
        requires
            self.wf(),
        ensures
            msg == (SyncMsg {
                v: PROTOCOL_VERSION,
                conversation_id,
                thread_id: Some(thread_id),
                last_seq: get_or_zero(self@.cursors, thread_key(conversation_id, thread_id)),
            }),
    {
        SyncMsg {
            v: PROTOCOL_VERSION,
            conversation_id,
            thread_id: Some(thread_id),
            last_seq: self.last_thread_seq(conversation_id, thread_id),
        }
    }

    /// Sync requests for every conversation's main timeline, in scope order.
    pub fn sync_all_conversations(&self) -> (msgs: Vec<SyncMsg>)
        requires
            self.wf(),
        ensures
            msgs@ == self.cursor_entries().filter_map(|e: (ScopeKey, i64)| main_sync_msg_of(e)),
    {
        let ghost s = self.cursors.entries();
        let ghost f = |e: (ScopeKey, i64)| main_sync_msg_of(e);
        let mut msgs: Vec<SyncMsg> = Vec::new();
        let n = self.cursors.len();
        let mut i: usize = 0;
        while i < n
            invariant
                f == (|e: (ScopeKey, i64)| main_sync_msg_of(e)),
                n == s.len(),
                s == self.cursors.entries(),
                i <= n,
                msgs@ == s.take(i as int).filter_map(f),
            decreases n - i,
        {
            let e = self.cursors.entry(i);
            proof {
                s.lemma_filter_map_take_succ(f, i as int);
            }
            if e.0.thread_id.is_none() {
                msgs.push(SyncMsg {
                    v: PROTOCOL_VERSION,
                    conversation_id: e.0.conversation_id,
                    thread_id: None,
                    last_seq: e.1,
                });
                assert(f(s[i as int]) == Some(msgs@.last()));
                assert(msgs@ =~= s.take(i + 1).filter_map(f));
            } else {
                assert(f(s[i as int]) is None);
                assert(msgs@ =~= s.take(i + 1).filter_map(f));
            }
            i = i + 1;
        }
        proof {
            assert(s.take(n as int) == s);
        }
        msgs
    }

    /// Sync requests for every scope, in scope order.
    pub fn sync_all_scopes(&self) -> (msgs: Vec<SyncMsg>)
        requires
            self.wf(),
        ensures
            msgs@ == self.cursor_entries().map_values(|e: (ScopeKey, i64)| sync_msg_of(e)),
    {
        let ghost s = self.cursors.entries();
        let ghost f = |e: (ScopeKey, i64)| sync_msg_of(e);
        let mut msgs: Vec<SyncMsg> = Vec::new();
        let n = self.cursors.len();
        let mut i: usize = 0;
        while i < n
            invariant
                f == (|e: (ScopeKey, i64)| sync_msg_of(e)),
                n == s.len(),
                s == self.cursors.entries(),
                i <= n,
                msgs@ == s.take(i as int).map_values(f),
            decreases n - i,
        {
            let e = self.cursors.entry(i);
            proof {
                s.lemma_map_take_succ(f, i as int);
            }
            msgs.push(SyncMsg {
                v: PROTOCOL_VERSION,
                conversation_id: e.0.conversation_id,
                thread_id: e.0.thread_id,
                last_seq: e.1,
            });
            assert(f(s[i as int]) == msgs@.last());
            assert(msgs@ =~= s.take(i + 1).map_values(f));
            i = i + 1;
        }
        proof {
            assert(s.take(n as int) == s);
        }
        msgs
    }

    /// Classifies an incoming message against the scope's cursor and the
    /// conversation head, and applies it when it is the next one.
    pub fn ingest_message(&mut self, msg: &MessageReceivedMsg) -> (outcome: MessageSyncOutcome)
        requires
            old(self).wf(),
        ensures
            final(self).wf(),
            outcome == ingest_spec(old(self)@, *msg).1,
            final(self)@.cursors == ingest_spec(old(self)@, *msg).0.cursors,
            final(self)@.heads == ingest_spec(old(self)@, *msg).0.heads,
            final(self)@.pending == ingest_spec(old(self)@, *msg).0.pending,
    {
        let scope = ScopeKey { conversation_id: msg.conversation_id, thread_id: msg.thread_id };
        let scope_current = match self.cursors.get(&scope) {
            Some(seq) => *seq,
            None => 0,
        };
        let current = self.last_conversation_seq(msg.conversation_id);
        if msg.seq <= scope_current {
            return MessageSyncOutcome::DuplicateOrStale { ack_seq: scope_current };
        }
        if (msg.seq as i128) > (current as i128) + 1 {
            return MessageSyncOutcome::GapDetected { request_from_seq: current };
        }
        let next = match self.cursors.get(&scope) {
            Some(seq) => if *seq >= msg.seq { *seq } else { msg.seq },
            None => msg.seq,
        };
        self.cursors.insert(scope, next);
        self.raise_head(msg.conversation_id, msg.seq);
        self.pending_recoveries.remove(&scope);
        MessageSyncOutcome::Applied { ack_seq: msg.seq }
    }

    /// Records a pending recovery of a conversation's main timeline
    /// (negative values count as zero).
    pub fn mark_recovery_pending(&mut self, conversation_id: u128, request_from_seq: i64)
        requires
            old(self).wf(),
        ensures
            final(self).wf(),
            final(self)@.cursors == old(self)@.cursors,
            final(self)@.heads == old(self)@.heads,
            final(self)@.pending == old(self)@.pending.insert(
                main_key(conversation_id),
                max_i64(request_from_seq, 0),
            ),
    {
        let from = if request_from_seq >= 0 { request_from_seq } else { 0 };
        self.pending_recoveries.insert(ScopeKey { conversation_id, thread_id: None }, from);
    }

    /// Records a pending recovery of a thread (negative values count as zero).
    pub fn mark_thread_recovery_pending(
        &mut self,
        conversation_id: u128,
        thread_id: u128,
        request_from_seq: i64,
    )
        requires
            old(self).wf(),
        ensures
            final(self).wf(),
            final(self)@.cursors == old(self)@.cursors,
            final(self)@.heads == old(self)@.heads,
            final(self)@.pending == old(self)@.pending.insert(
                thread_key(conversation_id, thread_id),
                max_i64(request_from_seq, 0),
            ),
    {
        let from = if request_from_seq >= 0 { request_from_seq } else { 0 };
        self.pending_recoveries.insert(
            ScopeKey { conversation_id, thread_id: Some(thread_id) },
            from,
        );
    }

    /// Applies the messages of a gap fill in order: each scope's cursor and each
    /// conversation head is raised to the highest sequence seen.
    pub fn apply_gap_fill(&mut self, messages: &Vec<MessageReceivedMsg>)
        requires
            old(self).wf(),
        ensures
            final(self).wf(),
            final(self)@.cursors == gap_fill_cursors(old(self)@.cursors, messages@),
            final(self)@.heads == gap_fill_heads(old(self)@.heads, messages@),
            final(self)@.pending == old(self)@.pending,
    {
        let ghost c0 = self.cursors@;
        let ghost h0 = self.conversation_heads@;
        let mut i: usize = 0;
        while i < messages.len()
            invariant
                i <= messages@.len(),
                self.wf(),
                self.cursors@ == gap_fill_cursors(c0, messages@.take(i as int)),
                self.conversation_heads@ == gap_fill_heads(h0, messages@.take(i as int)),
                self.pending_recoveries@ == old(self)@.pending,
            decreases messages@.len() - i,
        {
            let message = &messages[i];
            let scope = ScopeKey {
                conversation_id: message.conversation_id,
                thread_id: message.thread_id,
            };
            let current = match self.cursors.get(&scope) {
                Some(seq) => *seq,
                None => 0,
            };
            let next = if current >= message.seq { current } else { message.seq };
            self.cursors.insert(scope, next);
            self.raise_head(message.conversation_id, message.seq);
            proof {
                assert(messages@.take(i + 1).drop_last() == messages@.take(i as int));
            }
            i = i + 1;
        }
        proof {
            assert(messages@.take(messages@.len() as int) == messages@);
        }
    }

    /// Clears the pending recoveries of the main timelines of the given conversations.
    pub fn clear_recoveries(&mut self, conversations: &Vec<ConversationSyncCursor>)
        requires
            old(self).wf(),
        ensures
            final(self).wf(),
            final(self)@.cursors == old(self)@.cursors,
            final(self)@.heads == old(self)@.heads,
            final(self)@.pending == without_conversations(old(self)@.pending, conversations@),
    {
        let ghost p0 = self.pending_recoveries@;
        let mut i: usize = 0;
        while i < conversations.len()
            invariant
                i <= conversations@.len(),
                self.wf(),
                self.cursors@ == old(self)@.cursors,
                self.conversation_heads@ == old(self)@.heads,
                self.pending_recoveries@ == without_conversations(
                    p0,
                    conversations@.take(i as int),
                ),
            decreases conversations@.len() - i,
        {
            let key = ScopeKey {
                conversation_id: conversations[i].conversation_id,
                thread_id: None,
            };
            self.pending_recoveries.remove(&key);
            proof {
                assert(conversations@.take(i + 1).drop_last() == conversations@.take(i as int));
            }
            i = i + 1;
        }
        proof {
            assert(conversations@.take(conversations@.len() as int) == conversations@);
        }
    }

    /// Clears the pending recoveries of the given scopes.
    pub fn clear_scope_recoveries(&mut self, scopes: &Vec<ScopedSyncCursor>)
        requires
            old(self).wf(),
        ensures
            final(self).wf(),
            final(self)@.cursors == old(self)@.cursors,
            final(self)@.heads == old(self)@.heads,
            final(self)@.pending == without_scopes(old(self)@.pending, scopes@),
    {
        let ghost p0 = self.pending_recoveries@;
        let mut i: usize = 0;
        while i < scopes.len()
            invariant
                i <= scopes@.len(),
                self.wf(),
                self.cursors@ == old(self)@.cursors,
                self.conversation_heads@ == old(self)@.heads,
                self.pending_recoveries@ == without_scopes(p0, scopes@.take(i as int)),
            decreases scopes@.len() - i,
        {
            let key = ScopeKey {
                conversation_id: scopes[i].conversation_id,
                thread_id: scopes[i].thread_id,
            };
            self.pending_recoveries.remove(&key);
            proof {
                assert(scopes@.take(i + 1).drop_last() == scopes@.take(i as int));
            }
            i = i + 1;
        }
        proof {
            assert(scopes@.take(scopes@.len() as int) == scopes@);
        }
    }

    /// The main-timeline cursors, in conversation order.
    pub fn cursors(&self) -> (cs: Vec<ConversationSyncCursor>)
        requires
            self.wf(),
        ensures
            cs@ == self.cursor_entries().filter_map(|e: (ScopeKey, i64)| main_cursor_of(e)),
    {
        main_cursors_of(&self.cursors)
    }

    /// Every scope's cursor, in scope order.
    pub fn scope_cursors(&self) -> (cs: Vec<ScopedSyncCursor>)
        requires
            self.wf(),
        ensures
            cs@ == self.cursor_entries().map_values(|e: (ScopeKey, i64)| scoped_cursor_of(e)),
    {
        scoped_cursors_of(&self.cursors)
    }

    /// The pending recoveries of main timelines, in conversation order.
    /// They are cleared by [`SyncEngine::replace_cursors`] and [`SyncEngine::clear_recoveries`].
    pub fn pending_recoveries(&self) -> (cs: Vec<ConversationSyncCursor>)
        requires
            self.wf(),
        ensures
            cs@ == self.pending_entries().filter_map(|e: (ScopeKey, i64)| main_cursor_of(e)),
    {
        main_cursors_of(&self.pending_recoveries)
    }

    /// Every pending recovery, in scope order.
    pub fn pending_scope_recoveries(&self) -> (cs: Vec<ScopedSyncCursor>)
        requires
            self.wf(),
        ensures
            cs@ == self.pending_entries().map_values(
                |e: (ScopeKey, i64)| scoped_cursor_of(e),
            ),
    {
        scoped_cursors_of(&self.pending_recoveries)
    }
}

fn main_cursors_of(t: &ScopeTable) -> (cs: Vec<ConversationSyncCursor>)
    ensures
        cs@ == t.entries().filter_map(|e: (ScopeKey, i64)| main_cursor_of(e)),
{
    let ghost s = t.entries();
    let ghost f = |e: (ScopeKey, i64)| main_cursor_of(e);
    let mut cs: Vec<ConversationSyncCursor> = Vec::new();
    let n = t.len();
    let mut i: usize = 0;
    while i < n
        invariant
            f == (|e: (ScopeKey, i64)| main_cursor_of(e)),
            n == s.len(),
            s == t.entries(),
            i <= n,
            cs@ == s.take(i as int).filter_map(f),
        decreases n - i,
    {
        let e = t.entry(i);
        proof {
            s.lemma_filter_map_take_succ(f, i as int);
        }
        if e.0.thread_id.is_none() {
            cs.push(ConversationSyncCursor { conversation_id: e.0.conversation_id, last_seq: e.1 });
            assert(f(s[i as int]) == Some(cs@.last()));
            assert(cs@ =~= s.take(i + 1).filter_map(f));
        } else {
            assert(f(s[i as int]) is None);
            assert(cs@ =~= s.take(i + 1).filter_map(f));
        }
        i = i + 1;
    }
    proof {
        assert(s.take(n as int) == s);
    }
    cs
}

fn scoped_cursors_of(t: &ScopeTable) -> (cs: Vec<ScopedSyncCursor>)
    ensures
        cs@ == t.entries().map_values(|e: (ScopeKey, i64)| scoped_cursor_of(e)),
{
    let ghost s = t.entries();
    let ghost f = |e: (ScopeKey, i64)| scoped_cursor_of(e);
    let mut cs: Vec<ScopedSyncCursor> = Vec::new();
    let n = t.len();
    let mut i: usize = 0;
    while i < n
        invariant
            f == (|e: (ScopeKey, i64)| scoped_cursor_of(e)),
            n == s.len(),
            s == t.entries(),
            i <= n,
            cs@ == s.take(i as int).map_values(f),
        decreases n - i,
    {
        let e = t.entry(i);
        proof {
            s.lemma_map_take_succ(f, i as int);
        }
        cs.push(ScopedSyncCursor {
            conversation_id: e.0.conversation_id,
            thread_id: e.0.thread_id,
            last_seq: e.1,
        });
        assert(f(s[i as int]) == cs@.last());
        assert(cs@ =~= s.take(i + 1).map_values(f));
        i = i + 1;
    }
    proof {
        assert(s.take(n as int) == s);
    }
    cs
}

/// A message that was applied is a duplicate when it arrives again: it is
/// acknowledged with its own sequence number and changes nothing.
pub proof fn law_redelivered_message_is_duplicate(m: SyncModel, msg: MessageReceivedMsg)
    requires
        ingest_spec(m, msg).1 is Applied,
    ensures
        ingest_spec(ingest_spec(m, msg).0, msg).1 == (MessageSyncOutcome::DuplicateOrStale {
            ack_seq: msg.seq,
        }),
        ingest_spec(ingest_spec(m, msg).0, msg).0 == ingest_spec(m, msg).0,
{
}

/// Ingesting a message never lowers a cursor, nor a conversation head when
/// the message's sequence number is not negative.
pub proof fn law_ingest_never_lowers_cursors(m: SyncModel, msg: MessageReceivedMsg, k: ScopeKey)
    ensures
        get_or_zero(ingest_spec(m, msg).0.cursors, k) >= get_or_zero(m.cursors, k),
        msg.seq >= 0 ==> get_or_zero(ingest_spec(m, msg).0.heads, k) >= get_or_zero(m.heads, k),
{
}

/// A message is applied exactly when it is past its scope's cursor and at
/// most one past its conversation's head; the acknowledged sequence is then
/// the message's own.
pub proof fn law_applied_exactly_when_next(m: SyncModel, msg: MessageReceivedMsg)
    ensures
        (ingest_spec(m, msg).1 is Applied) <==> (get_or_zero(m.cursors, message_scope(msg))
            < msg.seq <= get_or_zero(m.heads, main_key(msg.conversation_id)) + 1),
{
}

/// Applying a gap fill never lowers a cursor, nor a conversation head when
/// no sequence number in it is negative, and leaves every scope at or above
/// the sequence of each message it carries.
pub proof fn law_gap_fill_raises(
    cursors: Map<ScopeKey, i64>,
    heads: Map<ScopeKey, i64>,
    msgs: Seq<MessageReceivedMsg>,
    k: ScopeKey,
)
    ensures
        get_or_zero(gap_fill_cursors(cursors, msgs), k) >= get_or_zero(cursors, k),
        (forall|i: int| 0 <= i < msgs.len() ==> #[trigger] msgs[i].seq >= 0) ==> get_or_zero(
            gap_fill_heads(heads, msgs),
            k,
        ) >= get_or_zero(heads, k),
        forall|i: int|
            0 <= i < msgs.len() ==> get_or_zero(
                gap_fill_cursors(cursors, msgs),
                message_scope(#[trigger] msgs[i]),
            ) >= msgs[i].seq,
    decreases msgs.len(),
{
    if msgs.len() > 0 {
        let prev = msgs.drop_last();
        law_gap_fill_raises(cursors, heads, prev, k);
        assert forall|i: int| 0 <= i < msgs.len() implies get_or_zero(
            gap_fill_cursors(cursors, msgs),
            message_scope(#[trigger] msgs[i]),
        ) >= msgs[i].seq by {
            if i < msgs.len() - 1 {
                law_gap_fill_raises(cursors, heads, prev, message_scope(msgs[i]));
                assert(prev[i] == msgs[i]);
            }
        }
    }
}

/// An item is in a filtered-and-mapped sequence exactly when some element
/// maps to it.
proof fn lemma_filter_map_contains<A, B>(s: Seq<A>, f: spec_fn(A) -> Option<B>, x: B)
    ensures
        s.filter_map(f).contains(x) <==> exists|i: int| 0 <= i < s.len() && #[trigger] f(s[i]) == Some(x),
    decreases s.len(),
{
    if s.len() > 0 {
        let rest = s.drop_last();
        lemma_filter_map_contains(rest, f, x);
        if exists|i: int| 0 <= i < rest.len() && #[trigger] f(rest[i]) == Some(x) {
            let i = choose|i: int| 0 <= i < rest.len() && #[trigger] f(rest[i]) == Some(x);
            assert(rest[i] == s[i]);
            assert(f(s[i]) == Some(x));
        }
        if exists|i: int| 0 <= i < s.len() && #[trigger] f(s[i]) == Some(x) {
            let i = choose|i: int| 0 <= i < s.len() && #[trigger] f(s[i]) == Some(x);
            if i < s.len() - 1 {
                assert(rest[i] == s[i]);
                assert(f(rest[i]) == Some(x));
                let fr = rest.filter_map(f);
                match f(s.last()) {
                    Some(y) => {
                        let k = choose|k: int| 0 <= k < fr.len() && fr[k] == x;
                        assert((fr + seq![y])[k] == x);
                    },
                    None => {},
                }
            } else {
                assert(s.last() == s[i]);
                let fr = rest.filter_map(f);
                assert((fr + seq![x])[fr.len() as int] == x);
            }
        }
        let fr = rest.filter_map(f);
        match f(s.last()) {
            Some(y) => {
                if (fr + seq![y]).contains(x) {
                    let k = choose|k: int| 0 <= k < (fr + seq![y]).len() && (fr + seq![y])[k] == x;
                    if k < fr.len() {
                        assert(fr[k] == x);
                    } else {
                        assert(y == x);
                        assert(f(s[s.len() - 1]) == Some(x));
                    }
                }
            },
            None => {},
        }
    }
}

/// The pending recoveries listed from ordered entries: a conversation's main
/// timeline is listed with a sequence exactly when the map holds that
/// recovery for it; a thread's recovery never appears as its conversation's.
pub proof fn law_listed_recoveries(entries: Seq<(ScopeKey, i64)>, conversation_id: u128, seq: i64)
    requires
        sorted(entries),
    ensures
        entries.filter_map(|e: (ScopeKey, i64)| main_cursor_of(e)).contains(
            ConversationSyncCursor { conversation_id, last_seq: seq },
        ) <==> (seq_to_map(entries).contains_key(main_key(conversation_id)) && seq_to_map(
            entries,
        )[main_key(conversation_id)] == seq),
{
    let f = |e: (ScopeKey, i64)| main_cursor_of(e);
    let x = ConversationSyncCursor { conversation_id, last_seq: seq };
    lemma_filter_map_contains(entries, f, x);
    if exists|i: int| 0 <= i < entries.len() && #[trigger] f(entries[i]) == Some(x) {
        let i = choose|i: int| 0 <= i < entries.len() && #[trigger] f(entries[i]) == Some(x);
        assert(entries[i].0 == main_key(conversation_id));
        lemma_index(entries, i);
    }
    let k = main_key(conversation_id);
    if seq_to_map(entries).contains_key(k) && seq_to_map(entries)[k] == seq {
        assert(seq_has(entries, k));
        let i = seq_index(entries, k);
        lemma_index(entries, i);
        assert(f(entries[i]) == Some(x));
    }
}

/// Marking, replacing and clearing recoveries: a mark sets its conversation's
/// recovery (negative sequences count as zero); a thread's mark leaves its
/// conversation's main recovery as it was; replacing the cursors drops every
/// recovery; clearing a list that names the conversation drops its recovery.
pub proof fn law_recovery_marks(
    pending: Map<ScopeKey, i64>,
    conversation_id: u128,
    thread_id: u128,
    request_from_seq: i64,
    cleared: Seq<ConversationSyncCursor>,
)
    ensures
        pending.insert(main_key(conversation_id), max_i64(request_from_seq, 0)).contains_key(
            main_key(conversation_id),
        ),
        pending.insert(main_key(conversation_id), max_i64(request_from_seq, 0))[main_key(
            conversation_id,
        )] == max_i64(request_from_seq, 0),
        pending.insert(thread_key(conversation_id, thread_id), max_i64(request_from_seq, 0)).contains_key(
            main_key(conversation_id),
        ) == pending.contains_key(main_key(conversation_id)),
        pending.contains_key(main_key(conversation_id)) ==> pending.insert(
            thread_key(conversation_id, thread_id),
            max_i64(request_from_seq, 0),
        )[main_key(conversation_id)] == pending[main_key(conversation_id)],
        (exists|j: int| 0 <= j < cleared.len() && (#[trigger] cleared[j]).conversation_id == conversation_id)
            ==> !without_conversations(pending, cleared).contains_key(main_key(conversation_id)),
    decreases cleared.len(),
{
    assert(thread_key(conversation_id, thread_id) != main_key(conversation_id));
    if cleared.len() > 0 {
        let rest = cleared.drop_last();
        law_recovery_marks(pending, conversation_id, thread_id, request_from_seq, rest);
        if exists|j: int| 0 <= j < cleared.len() && (#[trigger] cleared[j]).conversation_id == conversation_id {
            let j = choose|j: int| 0 <= j < cleared.len() && (#[trigger] cleared[j]).conversation_id == conversation_id;
            if j < cleared.len() - 1 {
                assert(rest[j] == cleared[j]);
            }
        }
    }
}

impl Default for SyncEngine {
    /// An engine with no cursors.
    fn default() -> (e: Self)
        ensures
            e.wf(),
            e@.cursors == Map::<ScopeKey, i64>::empty(),
            e@.heads == Map::<ScopeKey, i64>::empty(),
            e@.pending == Map::<ScopeKey, i64>::empty(),
    {
        SyncEngine::empty()
    }
}

} // verus!
