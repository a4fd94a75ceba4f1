//! Accumulation of streamed agent replies.

use vstd::prelude::*;
use crate::proto::{
    ContentDeltaMsg, MessageFormat, StreamEndMsg, StreamStartMsg, ToolEndMsg, ToolStartMsg,
};
use crate::sync::table::{Table, sorted, seq_to_map};
use vstd::string::StringExecFns;

verus! {

/// A tool the agent used while streaming.
#[derive(Clone, Debug, PartialEq, Eq)]
pub struct ToolCallRecord {
    pub tool: String,
    pub label: String,
}

pub struct ToolCallModel {
    pub tool: Seq<char>,
    pub label: Seq<char>,
}

impl View for ToolCallRecord {
    type V = ToolCallModel;

    open spec fn view(&self) -> ToolCallModel {
        ToolCallModel { tool: self.tool@, label: self.label@ }
    }
}

/// The views of a list of tool calls.
pub open spec fn tool_calls_view(v: Seq<ToolCallRecord>) -> Seq<ToolCallModel> {
    v.map_values(|t: ToolCallRecord| t@)
}

/// An agent reply being streamed.
#[derive(Clone, Debug, PartialEq, Eq)]
pub struct StreamingSession {
    pub stream_id: u128,
    pub conversation_id: u128,
    pub agent_id: u128,
    pub content: String,
    pub current_tool: Option<String>,
    pub current_tool_label: Option<String>,
    pub tool_complete: bool,
    pub is_complete: bool,
    pub tool_history: Vec<ToolCallRecord>,
}

pub struct SessionModel {
    pub stream_id: u128,
    pub conversation_id: u128,
    pub agent_id: u128,
    pub content: Seq<char>,
    pub current_tool: Option<Seq<char>>,
    pub current_tool_label: Option<Seq<char>>,
    pub tool_complete: bool,
    pub is_complete: bool,
    pub tool_history: Seq<ToolCallModel>,
}

pub open spec fn opt_string_view(o: Option<String>) -> Option<Seq<char>> {
    match o {
        Some(s) => Some(s@),
        None => None,
    }
}

impl View for StreamingSession {
    type V = SessionModel;

    open spec fn view(&self) -> SessionModel {
        SessionModel {
            stream_id: self.stream_id,
            conversation_id: self.conversation_id,
            agent_id: self.agent_id,
            content: self.content@,
            current_tool: opt_string_view(self.current_tool),
            current_tool_label: opt_string_view(self.current_tool_label),
            tool_complete: self.tool_complete,
            is_complete: self.is_complete,
            tool_history: tool_calls_view(self.tool_history@),
        }
    }
}

/// The sessions after a content delta: the text is appended to a known stream.
pub open spec fn after_delta(m: Map<u128, SessionModel>, msg: ContentDeltaMsg) -> Map<u128, SessionModel> {
    if m.contains_key(msg.stream_id) {
        m.insert(
            msg.stream_id,
            SessionModel { content: m[msg.stream_id].content + msg.delta@, ..m[msg.stream_id] },
        )
    } else {
        m
    }
}

/// The sessions after a tool start: a known stream records the tool as current
/// (not complete) and in its history.
pub open spec fn after_tool_start(m: Map<u128, SessionModel>, msg: ToolStartMsg) -> Map<u128, SessionModel> {
    if m.contains_key(msg.stream_id) {
        m.insert(
            msg.stream_id,
            SessionModel {
                current_tool: Some(msg.tool@),
                current_tool_label: Some(msg.label@),
                tool_complete: false,
                tool_history: m[msg.stream_id].tool_history.push(
                    ToolCallModel { tool: msg.tool@, label: msg.label@ },
                ),
                ..m[msg.stream_id]
            },
        )
    } else {
        m
    }
}

/// The sessions after a tool end: a known stream whose current tool is the
/// one that ended marks it complete.
pub open spec fn after_tool_end(m: Map<u128, SessionModel>, msg: ToolEndMsg) -> Map<u128, SessionModel> {
    if m.contains_key(msg.stream_id) && m[msg.stream_id].current_tool == Some(msg.tool@) {
        m.insert(msg.stream_id, SessionModel { tool_complete: true, ..m[msg.stream_id] })
    } else {
        m
    }
}

/// The session a stream start opens: empty content, no tool, nothing complete.
pub open spec fn started_session(msg: StreamStartMsg) -> SessionModel {
    SessionModel {
        stream_id: msg.stream_id,
        conversation_id: msg.conversation_id,
        agent_id: msg.agent_id,
        content: Seq::empty(),
        current_tool: None,
        current_tool_label: None,
        tool_complete: false,
        is_complete: false,
        tool_history: Seq::empty(),
    }
}

/// A finished streamed reply, ready to be shown as a message.
#[derive(Clone, Debug, PartialEq, Eq)]
pub struct FinalizedStreamMessage {
    pub id: u128,
    pub conversation_id: u128,
    pub sender_id: u128,
    pub content: String,
    pub format: MessageFormat,
    pub seq: i64,
    pub created_at_ms: i64,
    pub tool_calls: Vec<ToolCallRecord>,
    pub tokens: u32,
    pub duration_ms: u64,
}

pub struct FinalizedModel {
    pub id: u128,
    pub conversation_id: u128,
    pub sender_id: u128,
    pub content: Seq<char>,
    pub format: MessageFormat,
    pub seq: i64,
    pub created_at_ms: i64,
    pub tool_calls: Seq<ToolCallModel>,
    pub tokens: u32,
    pub duration_ms: u64,
}

impl View for FinalizedStreamMessage {
    type V = FinalizedModel;

    open spec fn view(&self) -> FinalizedModel {
        FinalizedModel {
            id: self.id,
            conversation_id: self.conversation_id,
            sender_id: self.sender_id,
            content: self.content@,
            format: self.format,
            seq: self.seq,
            created_at_ms: self.created_at_ms,
            tool_calls: tool_calls_view(self.tool_calls@),
            tokens: self.tokens,
            duration_ms: self.duration_ms,
        }
    }
}

/// The message a finished stream becomes: the stream id as message id, the agent
/// as sender, the accumulated content in markdown, and the tool history.
pub open spec fn finalized_from(
    s: SessionModel,
    msg: StreamEndMsg,
    next_seq: i64,
    created_at_ms: i64,
) -> FinalizedModel {
    FinalizedModel {
        id: msg.stream_id,
        conversation_id: s.conversation_id,
        sender_id: s.agent_id,
        content: s.content,
        format: MessageFormat::Markdown,
        seq: next_seq,
        created_at_ms,
        tool_calls: s.tool_history,
        tokens: msg.tokens,
        duration_ms: msg.duration_ms,
    }
}

/// Copies a tool call record.
pub fn copy_tool_call(t: &ToolCallRecord) -> (r: ToolCallRecord)
    ensures
        r@ == t@,
{
    ToolCallRecord { tool: t.tool.clone(), label: t.label.clone() }
}

fn copy_opt_string(o: &Option<String>) -> (r: Option<String>)
    ensures
        opt_string_view(r) == opt_string_view(*o),
{
    match o {
        Some(s) => Some(s.clone()),
        None => None,
    }
}

/// Copies a list of tool call records.
pub fn copy_tool_calls(v: &Vec<ToolCallRecord>) -> (r: Vec<ToolCallRecord>)
    ensures
        tool_calls_view(r@) == tool_calls_view(v@),
{
    let mut r: Vec<ToolCallRecord> = Vec::new();
    let mut i: usize = 0;
    while i < v.len()
        invariant
            i <= v@.len(),
            tool_calls_view(r@) == tool_calls_view(v@.take(i as int)),
        decreases v@.len() - i,
    {
        r.push(copy_tool_call(&v[i]));
        proof {
            v@.lemma_map_take_succ(|t: ToolCallRecord| t@, i as int);
            assert(tool_calls_view(r@) =~= tool_calls_view(v@.take(i + 1)));
        }
        i = i + 1;
    }
    proof {
        assert(v@.take(v@.len() as int) == v@);
    }
    r
}

/// Copies a streaming session.
pub fn copy_session(s: &StreamingSession) -> (r: StreamingSession)
    ensures
        r@ == s@,
{
    StreamingSession {
        stream_id: s.stream_id,
        conversation_id: s.conversation_id,
        agent_id: s.agent_id,
        content: s.content.clone(),
        current_tool: copy_opt_string(&s.current_tool),
        current_tool_label: copy_opt_string(&s.current_tool_label),
        tool_complete: s.tool_complete,
        is_complete: s.is_complete,
        tool_history: copy_tool_calls(&s.tool_history),
    }
}

/// The views of a table's sessions, by stream id.
pub open spec fn sessions_view(m: Map<u128, StreamingSession>) -> Map<u128, SessionModel> {
    m.map_values(|s: StreamingSession| s@)
}

/// The active streams, ordered by stream id.
pub struct StreamingState {
    active: Table<u128, StreamingSession>,
}

impl View for StreamingState {
    type V = Map<u128, SessionModel>;

    closed spec fn view(&self) -> Map<u128, SessionModel> {
        sessions_view(self.active@)
    }
}

impl StreamingState {
    pub closed spec fn wf(&self) -> bool {
        self.active.wf()
    }

    /// The views of the active sessions in stream-id order.
    pub closed spec fn ordered(&self) -> Seq<SessionModel> {
        self.active.entries().map_values(|e: (u128, StreamingSession)| e.1@)
    }

    /// No stream is active.
    pub fn new() -> (s: Self)
        ensures
            s.wf(),
            s@ == Map::<u128, SessionModel>::empty(),
            s.ordered() == Seq::<SessionModel>::empty(),
    {
        let s = StreamingState { active: Table::new() };
        assert(s@ =~= Map::<u128, SessionModel>::empty());
        assert(s.ordered() =~= Seq::<SessionModel>::empty());
        s
    }

    proof fn lemma_view_insert(m: Map<u128, StreamingSession>, k: u128, v: StreamingSession)
        ensures
            sessions_view(m.insert(k, v)) == sessions_view(m).insert(k, v@),
    {
        assert(sessions_view(m.insert(k, v)) =~= sessions_view(m).insert(k, v@));
    }

    proof fn lemma_view_remove(m: Map<u128, StreamingSession>, k: u128)
        ensures
            sessions_view(m.remove(k)) == sessions_view(m).remove(k),
    {
        assert(sessions_view(m.remove(k)) =~= sessions_view(m).remove(k));
    }

    /// Opens (or restarts) the session of a stream.
    pub fn handle_stream_start(&mut self, msg: &StreamStartMsg)
        requires
            old(self).wf(),
        ensures
            final(self).wf(),
            final(self)@ == old(self)@.insert(msg.stream_id, started_session(*msg)),
    {
        let session = StreamingSession {
            stream_id: msg.stream_id,
            conversation_id: msg.conversation_id,
            agent_id: msg.agent_id,
            content: String::new(),
            current_tool: None,
            current_tool_label: None,
            tool_complete: false,
            is_complete: false,
            tool_history: Vec::new(),
        };
        proof {
            assert(session@.tool_history =~= Seq::<ToolCallModel>::empty());
            Self::lemma_view_insert(self.active@, msg.stream_id, session);
        }
        self.active.insert(msg.stream_id, session);
    }

    /// Appends streamed text; `false` when the stream is unknown (nothing changes then).
    pub fn handle_content_delta(&mut self, msg: &ContentDeltaMsg) -> (known: bool)
        requires
            old(self).wf(),
        ensures
            final(self).wf(),
            final(self)@ == after_delta(old(self)@, *msg),
            known == old(self)@.contains_key(msg.stream_id),
            known ==> final(self)@ == old(self)@.insert(
                msg.stream_id,
                SessionModel {
                    content: old(self)@[msg.stream_id].content + msg.delta@,
                    ..old(self)@[msg.stream_id]
                },
            ),
            !known ==> final(self)@ == old(self)@,
    {
        let ghost m0 = self.active@;
        match self.active.take(&msg.stream_id) {
            Some(mut session) => {
                session.content.append(msg.delta.as_str());
                proof {
                    Self::lemma_view_insert(m0.remove(msg.stream_id), msg.stream_id, session);
                    assert(m0.remove(msg.stream_id).insert(msg.stream_id, session) =~= m0.insert(
                        msg.stream_id,
                        session,
                    ));
                    Self::lemma_view_insert(m0, msg.stream_id, session);
                }
                self.active.insert(msg.stream_id, session);
                true
            },
            None => {
                proof {
                    assert(m0.remove(msg.stream_id) =~= m0);
                }
                false
            },
        }
    }

    /// Records that the agent started a tool; `false` when the stream is unknown.
    pub fn handle_tool_start(&mut self, msg: &ToolStartMsg) -> (known: bool)
        requires
            old(self).wf(),
        ensures
            final(self).wf(),
            final(self)@ == after_tool_start(old(self)@, *msg),
            known == old(self)@.contains_key(msg.stream_id),
            known ==> final(self)@ == old(self)@.insert(
                msg.stream_id,
                SessionModel {
                    current_tool: Some(msg.tool@),
                    current_tool_label: Some(msg.label@),
                    tool_complete: false,
                    tool_history: old(self)@[msg.stream_id].tool_history.push(
                        ToolCallModel { tool: msg.tool@, label: msg.label@ },
                    ),
                    ..old(self)@[msg.stream_id]
                },
            ),
            !known ==> final(self)@ == old(self)@,
    {
        let ghost m0 = self.active@;
        match self.active.take(&msg.stream_id) {
            Some(mut session) => {
                let ghost h0 = session.tool_history@;
                session.current_tool = Some(msg.tool.clone());
                session.current_tool_label = Some(msg.label.clone());
                session.tool_complete = false;
                session.tool_history.push(
                    ToolCallRecord { tool: msg.tool.clone(), label: msg.label.clone() },
                );
                proof {
                    assert(tool_calls_view(session.tool_history@) =~= tool_calls_view(h0).push(
                        ToolCallModel { tool: msg.tool@, label: msg.label@ },
                    ));
                    assert(m0.remove(msg.stream_id).insert(msg.stream_id, session) =~= m0.insert(
                        msg.stream_id,
                        session,
                    ));
                    Self::lemma_view_insert(m0, msg.stream_id, session);
                }
                self.active.insert(msg.stream_id, session);
                true
            },
            None => {
                proof {
                    assert(m0.remove(msg.stream_id) =~= m0);
                }
                false
            },
        }
    }

    /// Marks the current tool complete when it is the one that ended; `false`
    /// when the stream is unknown.
    pub fn handle_tool_end(&mut self, msg: &ToolEndMsg) -> (known: bool)
        requires
            old(self).wf(),
        ensures
            final(self).wf(),
            final(self)@ == after_tool_end(old(self)@, *msg),
            known == old(self)@.contains_key(msg.stream_id),
            known ==> final(self)@ == old(self)@.insert(
                msg.stream_id,
                if old(self)@[msg.stream_id].current_tool == Some(msg.tool@) {
                    SessionModel { tool_complete: true, ..old(self)@[msg.stream_id] }
                } else {
                    old(self)@[msg.stream_id]
                },
            ),
            !known ==> final(self)@ == old(self)@,
    {
        let ghost m0 = self.active@;
        match self.active.take(&msg.stream_id) {
            Some(mut session) => {
                let matches = match &session.current_tool {
                    Some(tool) => *tool == msg.tool,
                    None => false,
                };
                if matches {
                    session.tool_complete = true;
                }
                proof {
                    assert(m0.remove(msg.stream_id).insert(msg.stream_id, session) =~= m0.insert(
                        msg.stream_id,
                        session,
                    ));
                    Self::lemma_view_insert(m0, msg.stream_id, session);
                }
                self.active.insert(msg.stream_id, session);
                true
            },
            None => {
                proof {
                    assert(m0.remove(msg.stream_id) =~= m0);
                }
                false
            },
        }
    }

    /// Closes a stream and turns it into a message with the given sequence
    /// number and time; `None` (and nothing changes) when the stream is unknown.
    pub fn handle_stream_end(
        &mut self,
        msg: &StreamEndMsg,
        next_seq: i64,
        created_at_ms: i64,
    ) -> (r: Option<FinalizedStreamMessage>)
        requires
            old(self).wf(),
        ensures
            final(self).wf(),
            final(self)@ == old(self)@.remove(msg.stream_id),
            r is Some == old(self)@.contains_key(msg.stream_id),
            r matches Some(f) ==> f@ == finalized_from(
                old(self)@[msg.stream_id],
                *msg,
                next_seq,
                created_at_ms,
            ),
    {
        proof {
            Self::lemma_view_remove(self.active@, msg.stream_id);
        }
        match self.active.take(&msg.stream_id) {
            Some(session) => Some(
                FinalizedStreamMessage {
                    id: msg.stream_id,
                    conversation_id: session.conversation_id,
                    sender_id: session.agent_id,
                    content: session.content,
                    format: MessageFormat::Markdown,
                    seq: next_seq,
                    created_at_ms,
                    tool_calls: session.tool_history,
                    tokens: msg.tokens,
                    duration_ms: msg.duration_ms,
                },
            ),
            None => None,
        }
    }

    /// The session of a stream, if it is active.
    pub fn active_session(&self, stream_id: u128) -> (r: Option<&StreamingSession>)
        requires
            self.wf(),
        ensures
            r is Some == self@.contains_key(stream_id),
            r matches Some(s) ==> s@ == self@[stream_id],
    {
        self.active.get(&stream_id)
    }

    /// Copies of the active sessions in stream-id order.
    pub fn active_sessions(&self) -> (v: Vec<StreamingSession>)
        requires
            self.wf(),
        ensures
            v@.map_values(|s: StreamingSession| s@) == self.ordered(),
    {
        let ghost s = self.active.entries();
        let mut v: Vec<StreamingSession> = Vec::new();
        let n = self.active.len();
        let mut i: usize = 0;
        while i < n
            invariant
                n == s.len(),
                s == self.active.entries(),
                i <= n,
                v@.map_values(|x: StreamingSession| x@) == s.take(i as int).map_values(
                    |e: (u128, StreamingSession)| e.1@,
                ),
            decreases n - i,
        {
            let e = self.active.entry(i);
            let copy = copy_session(&e.1);
            v.push(copy);
            proof {
                s.lemma_map_take_succ(|e: (u128, StreamingSession)| e.1@, i as int);
                assert(v@.map_values(|x: StreamingSession| x@) =~= s.take(i + 1).map_values(
                    |e: (u128, StreamingSession)| e.1@,
                ));
            }
            i = i + 1;
        }
        proof {
            assert(s.take(n as int) == s);
        }
        v
    }

    /// Drops every active session and reports how many there were.
    pub fn clear(&mut self) -> (count: usize)
        requires
            old(self).wf(),
        ensures
            final(self).wf(),
            count == old(self)@.dom().len(),
            final(self)@ == Map::<u128, SessionModel>::empty(),
            final(self).ordered() == Seq::<SessionModel>::empty(),
    {
        let count = self.active.len();
        proof {
            self.active.lemma_len();
            assert(sessions_view(self.active@).dom() =~= self.active@.dom());
        }
        self.active.clear();
        assert(self@ =~= Map::<u128, SessionModel>::empty());
        assert(self.ordered() =~= Seq::<SessionModel>::empty());
        count
    }
}

/// The text of a run of content deltas, in order.
pub open spec fn deltas_text(ds: Seq<ContentDeltaMsg>) -> Seq<char>
    decreases ds.len(),
{
    if ds.len() == 0 {
        Seq::empty()
    } else {
        deltas_text(ds.drop_last()) + ds.last().delta@
    }
}

/// The sessions after a run of content deltas, applied in order.
pub open spec fn after_deltas(m: Map<u128, SessionModel>, ds: Seq<ContentDeltaMsg>) -> Map<
    u128,
    SessionModel,
>
    decreases ds.len(),
{
    if ds.len() == 0 {
        m
    } else {
        after_delta(after_deltas(m, ds.drop_last()), ds.last())
    }
}

/// A stream that was started and then received a run of deltas holds exactly
/// their text, in order, and keeps the rest of its start: what its end
/// finalizes as the message content.
pub proof fn law_stream_content_is_concatenation(
    m: Map<u128, SessionModel>,
    start: StreamStartMsg,
    ds: Seq<ContentDeltaMsg>,
)
    requires
        forall|i: int| 0 <= i < ds.len() ==> (#[trigger] ds[i]).stream_id == start.stream_id,
    ensures
        after_deltas(m.insert(start.stream_id, started_session(start)), ds).contains_key(
            start.stream_id,
        ),
        after_deltas(m.insert(start.stream_id, started_session(start)), ds)[start.stream_id]
            == (SessionModel { content: deltas_text(ds), ..started_session(start) }),
    decreases ds.len(),
{
    if ds.len() > 0 {
        assert forall|i: int| 0 <= i < ds.drop_last().len() implies (#[trigger] ds.drop_last()[i]).stream_id == start.stream_id by {
            assert(ds.drop_last()[i] == ds[i]);
        }
        law_stream_content_is_concatenation(m, start, ds.drop_last());
        assert(ds.last().stream_id == start.stream_id);
    } else {
        assert(Seq::<char>::empty() =~= started_session(start).content);
    }
}

impl Default for StreamingState {
    /// No active streams.
    fn default() -> (s: Self)
        ensures
            s.wf(),
            s@ == Map::<u128, SessionModel>::empty(),
    {
        StreamingState::new()
    }
}

} // verus!
