//! Relaying an agent's streamed reply to the members of a conversation: each
//! stream is tracked from its start, bounded in duration and bytes, and cut off
//! with a synthesized end when it exceeds a bound. The caller serializes frames,
//! sends them and persists tool calls (after checking a tool-call frame's
//! protocol version with `require_v`); this module decides what happens.

use vstd::prelude::*;
use crate::proto::PROTOCOL_VERSION;
use crate::sync::table::Table;

verus! {

/// A stream may run this long (five minutes), in nanoseconds.
pub const MAX_STREAM_DURATION_NS: u64 = 300_000_000_000;
/// A stream may send this many bytes.
pub const MAX_STREAM_BYTES: usize = 1_048_576;
/// An agent may run this many streams at once.
pub const MAX_CONCURRENT_STREAMS_PER_AGENT: usize = 10;
/// A content delta may hold this many bytes; larger ones are dropped.
pub const MAX_DELTA_SIZE: usize = 4096;

/// A stream being relayed: where it goes, when it started (monotonic
/// nanoseconds) and how many bytes it has sent.
#[derive(Clone, Copy, Debug, PartialEq, Eq, Structural)]
pub struct StreamRelayState {
    pub conversation_id: u128,
    pub thread_id: Option<u128>,
    pub started_at_ns: u64,
    pub bytes_sent: usize,
}

/// A frame from an agent, reduced to what the relay decides on.
#[derive(Clone, Copy, Debug, PartialEq, Eq, Structural)]
pub enum AgentFrame {
    StreamStart {
        v: u8,
        agent_id: u128,
        stream_id: u128,
        conversation_id: u128,
        thread_id: Option<u128>,
    },
    AgentTypingStart { v: u8, agent_id: u128, conversation_id: u128, thread_id: Option<u128> },
    AgentTypingEnd { v: u8, agent_id: u128, conversation_id: u128, thread_id: Option<u128> },
    ContentDelta { v: u8, stream_id: u128, delta_len: usize },
    ToolCallStart { v: u8, stream_id: u128 },
    ToolCallResult { v: u8, stream_id: u128 },
    ToolCallEnd { v: u8, stream_id: u128 },
    ToolStart { v: u8, stream_id: u128 },
    ToolEnd { v: u8, stream_id: u128 },
    StreamEnd { v: u8, stream_id: u128 },
}

/// What the caller must do, in order.
#[derive(Clone, Copy, Debug, PartialEq, Eq, Structural)]
pub enum RelayAction {
    /// Send the serialized frame to the conversation's members.
    SendFrame { conversation_id: u128 },
    /// Send a synthesized stream end (no tokens) to the conversation's members.
    SendStreamEnd { conversation_id: u128, stream_id: u128, duration_ms: u64 },
    /// Tell the conversation's members that the agent started or stopped typing.
    Typing { conversation_id: u128, thread_id: Option<u128>, agent_id: u128, active: bool },
}

/// Why a frame was refused.
#[derive(Clone, Copy, Debug, PartialEq, Eq, Structural)]
pub enum RelayError {
    /// The frame carries another protocol version.
    UnsupportedVersion(u8),
    /// The frame names another agent than the connection's.
    AgentMismatch,
    /// A stream start frame exceeds the byte bound on its own.
    FrameTooLarge(usize),
}

/// Accepts only the current protocol version.
pub fn require_v(v: u8) -> (r: Result<(), RelayError>)
    ensures
        r is Ok <==> v == PROTOCOL_VERSION,
        r is Err ==> r == Err::<(), RelayError>(RelayError::UnsupportedVersion(v)),
{
    if v == PROTOCOL_VERSION {
        Ok(())
    } else {
        Err(RelayError::UnsupportedVersion(v))
    }
}

pub open spec fn sat_add(a: usize, b: usize) -> usize {
    if a + b > usize::MAX { usize::MAX } else { (a + b) as usize }
}

fn saturating_add(a: usize, b: usize) -> (r: usize)
    ensures
        r == sat_add(a, b),
{
    if a > usize::MAX - b {
        usize::MAX
    } else {
        a + b
    }
}

/// Time between two monotonic instants, zero when `now` is earlier.
pub open spec fn elapsed_ns(start: u64, now: u64) -> u64 {
    if now >= start { (now - start) as u64 } else { 0 }
}

/// Relaying a frame of a stream that carries `len` bytes at time `now`: an
/// unknown stream's frame is dropped; a stream over its duration or byte
/// bound is cut off with an end frame and its typing indicator cleared;
/// otherwise the frame is sent and counted, and a final frame ends the stream.
pub open spec fn relay_frame_spec(
    m: Map<u128, StreamRelayState>,
    stream_id: u128,
    finalize: bool,
    agent_id: u128,
    len: usize,
    now: u64,
) -> (Map<u128, StreamRelayState>, Seq<RelayAction>) {
    if !m.contains_key(stream_id) {
        (m, seq![])
    } else {
        let cur = m[stream_id];
        let elapsed = elapsed_ns(cur.started_at_ns, now);
        if elapsed > MAX_STREAM_DURATION_NS || sat_add(cur.bytes_sent, len) > MAX_STREAM_BYTES {
            (
                m.remove(stream_id),
                seq![
                    RelayAction::SendStreamEnd {
                        conversation_id: cur.conversation_id,
                        stream_id,
                        duration_ms: (elapsed / 1_000_000) as u64,
                    },
                    RelayAction::Typing {
                        conversation_id: cur.conversation_id,
                        thread_id: cur.thread_id,
                        agent_id,
                        active: false,
                    },
                ],
            )
        } else {
            let counted = m.insert(
                stream_id,
                StreamRelayState { bytes_sent: sat_add(cur.bytes_sent, len), ..cur },
            );
            (
                if finalize { counted.remove(stream_id) } else { counted },
                seq![RelayAction::SendFrame { conversation_id: cur.conversation_id }],
            )
        }
    }
}

pub open spec fn frame_version(f: AgentFrame) -> u8 {
    match f {
        AgentFrame::StreamStart { v, .. } => v,
        AgentFrame::AgentTypingStart { v, .. } => v,
        AgentFrame::AgentTypingEnd { v, .. } => v,
        AgentFrame::ContentDelta { v, .. } => v,
        AgentFrame::ToolCallStart { v, .. } => v,
        AgentFrame::ToolCallResult { v, .. } => v,
        AgentFrame::ToolCallEnd { v, .. } => v,
        AgentFrame::ToolStart { v, .. } => v,
        AgentFrame::ToolEnd { v, .. } => v,
        AgentFrame::StreamEnd { v, .. } => v,
    }
}

/// How the relay handles a frame from agent `agent_id` whose outgoing form
/// has `len` bytes, at time `now`.
pub open spec fn relay_spec(
    m: Map<u128, StreamRelayState>,
    agent_id: u128,
    frame: AgentFrame,
    len: usize,
    now: u64,
) -> (Map<u128, StreamRelayState>, Result<Seq<RelayAction>, RelayError>) {
    if frame_version(frame) != PROTOCOL_VERSION {
        (m, Err(RelayError::UnsupportedVersion(frame_version(frame))))
    } else {
        match frame {
            AgentFrame::StreamStart { agent_id: a, stream_id, conversation_id, thread_id, .. } => {
                if a != agent_id {
                    (m, Err(RelayError::AgentMismatch))
                } else if m.dom().len() >= MAX_CONCURRENT_STREAMS_PER_AGENT {
                    (m, Ok(seq![]))
                } else if len > MAX_STREAM_BYTES {
                    (m, Err(RelayError::FrameTooLarge(len)))
                } else {
                    (
                        m.insert(
                            stream_id,
                            StreamRelayState {
                                conversation_id,
                                thread_id,
                                started_at_ns: now,
                                bytes_sent: len,
                            },
                        ),
                        Ok(
                            seq![
                                RelayAction::SendFrame { conversation_id },
                                RelayAction::Typing {
                                    conversation_id,
                                    thread_id,
                                    agent_id: a,
                                    active: true,
                                },
                            ],
                        ),
                    )
                }
            },
            AgentFrame::AgentTypingStart { agent_id: a, conversation_id, thread_id, .. } => {
                if a != agent_id {
                    (m, Err(RelayError::AgentMismatch))
                } else {
                    (
                        m,
                        Ok(
                            seq![
                                RelayAction::Typing {
                                    conversation_id,
                                    thread_id,
                                    agent_id: a,
                                    active: true,
                                },
                            ],
                        ),
                    )
                }
            },
            AgentFrame::AgentTypingEnd { agent_id: a, conversation_id, thread_id, .. } => {
                if a != agent_id {
                    (m, Err(RelayError::AgentMismatch))
                } else {
                    (
                        m,
                        Ok(
                            seq![
                                RelayAction::Typing {
                                    conversation_id,
                                    thread_id,
                                    agent_id: a,
                                    active: false,
                                },
                            ],
                        ),
                    )
                }
            },
            AgentFrame::ContentDelta { stream_id, delta_len, .. } => {
                if delta_len > MAX_DELTA_SIZE {
                    (m, Ok(seq![]))
                } else {
                    let (m2, acts) = relay_frame_spec(m, stream_id, false, agent_id, len, now);
                    (m2, Ok(acts))
                }
            },
            AgentFrame::ToolCallStart { stream_id, .. } | AgentFrame::ToolCallResult { stream_id, .. }
            | AgentFrame::ToolCallEnd { stream_id, .. } | AgentFrame::ToolStart { stream_id, .. }
            | AgentFrame::ToolEnd { stream_id, .. } => {
                let (m2, acts) = relay_frame_spec(m, stream_id, false, agent_id, len, now);
                (m2, Ok(acts))
            },
            AgentFrame::StreamEnd { stream_id, .. } => {
                let (m2, acts) = relay_frame_spec(m, stream_id, true, agent_id, len, now);
                let typing = if m.contains_key(stream_id) {
                    seq![
                        RelayAction::Typing {
                            conversation_id: m[stream_id].conversation_id,
                            thread_id: m[stream_id].thread_id,
                            agent_id,
                            active: false,
                        },
                    ]
                } else {
                    seq![]
                };
                (m2, Ok(acts + typing))
            },
        }
    }
}

/// The streams one agent connection is relaying.
pub struct StreamRelay {
    agent_id: u128,
    streams: Table<u128, StreamRelayState>,
}

impl View for StreamRelay {
    type V = Map<u128, StreamRelayState>;

    closed spec fn view(&self) -> Map<u128, StreamRelayState> {
        self.streams@
    }
}

impl StreamRelay {
    pub closed spec fn wf(&self) -> bool {
        self.streams.wf()
    }

    /// The agent this connection authenticated as.
    pub closed spec fn agent(&self) -> u128 {
        self.agent_id
    }

    /// A relay for an agent's connection, with no streams.
    pub fn new(agent_id: u128) -> (r: Self)
        ensures
            r.wf(),
            r.agent() == agent_id,
            r@ == Map::<u128, StreamRelayState>::empty(),
            r@.dom().finite(),
    {
        StreamRelay { agent_id, streams: Table::new() }
    }

    fn relay_frame(&mut self, stream_id: u128, finalize: bool, len: usize, now: u64) -> (r: Vec<RelayAction>)
        requires
            old(self).wf(),
        ensures
            final(self).wf(),
            final(self).agent() == old(self).agent(),
            (final(self)@, r@) == relay_frame_spec(old(self)@, stream_id, finalize, old(self).agent(), len, now),
    {
        let mut actions: Vec<RelayAction> = Vec::new();
        let current = match self.streams.get(&stream_id) {
            Some(s) => *s,
            None => {
                return actions;
            },
        };
        let elapsed: u64 = if now >= current.started_at_ns { now - current.started_at_ns } else { 0 };
        let total = saturating_add(current.bytes_sent, len);
        if elapsed > MAX_STREAM_DURATION_NS || total > MAX_STREAM_BYTES {
            self.streams.remove(&stream_id);
            actions.push(
                RelayAction::SendStreamEnd {
                    conversation_id: current.conversation_id,
                    stream_id,
                    duration_ms: elapsed / 1_000_000,
                },
            );
            actions.push(
                RelayAction::Typing {
                    conversation_id: current.conversation_id,
                    thread_id: current.thread_id,
                    agent_id: self.agent_id,
                    active: false,
                },
            );
            assert(actions@ =~= relay_frame_spec(old(self)@, stream_id, finalize, old(self).agent(), len, now).1);
            return actions;
        }
        self.streams.insert(stream_id, StreamRelayState { bytes_sent: total, ..current });
        actions.push(RelayAction::SendFrame { conversation_id: current.conversation_id });
        if finalize {
            self.streams.remove(&stream_id);
        }
        assert(actions@ =~= relay_frame_spec(old(self)@, stream_id, finalize, old(self).agent(), len, now).1);
        actions
    }

    /// Decides what to do with a frame from the agent whose outgoing form has
    /// `len` bytes, at monotonic time `now_ns`. For tool-call frames the caller
    /// first checks the protocol version with `require_v` (an unsupported
    /// version is refused before anything is stored), then persists the call,
    /// and relays nothing if storing fails.
    pub fn relay(&mut self, frame: &AgentFrame, len: usize, now_ns: u64) -> (r: Result<
        Vec<RelayAction>,
        RelayError,
    >)
        requires
            old(self).wf(),
        ensures
            final(self).wf(),
            final(self).agent() == old(self).agent(),
            final(self)@ == relay_spec(old(self)@, old(self).agent(), *frame, len, now_ns).0,
            final(self)@.dom().finite(),
            match (r, relay_spec(old(self)@, old(self).agent(), *frame, len, now_ns).1) {
                (Ok(a), Ok(b)) => a@ == b,
                (Err(a), Err(b)) => a == b,
                _ => false,
            },
    {
        let r = self.relay_inner(frame, len, now_ns);
        proof {
            self.streams.lemma_len();
        }
        r
    }

    /// The decision of [`Self::relay`], without the finiteness of the result.
    fn relay_inner(&mut self, frame: &AgentFrame, len: usize, now_ns: u64) -> (r: Result<
        Vec<RelayAction>,
        RelayError,
    >)
        requires
            old(self).wf(),
        ensures
            final(self).wf(),
            final(self).agent() == old(self).agent(),
            final(self)@ == relay_spec(old(self)@, old(self).agent(), *frame, len, now_ns).0,
            match (r, relay_spec(old(self)@, old(self).agent(), *frame, len, now_ns).1) {
                (Ok(a), Ok(b)) => a@ == b,
                (Err(a), Err(b)) => a == b,
                _ => false,
            },
    {
        match *frame {
            AgentFrame::StreamStart { v, agent_id, stream_id, conversation_id, thread_id } => {
                if let Err(e) = require_v(v) {
                    return Err(e);
                }
                if agent_id != self.agent_id {
                    return Err(RelayError::AgentMismatch);
                }
                proof {
                    self.streams.lemma_len();
                }
                if self.streams.len() >= MAX_CONCURRENT_STREAMS_PER_AGENT {
                    let empty: Vec<RelayAction> = Vec::new();
                    assert(empty@ =~= Seq::<RelayAction>::empty());
                    return Ok(empty);
                }
                if len > MAX_STREAM_BYTES {
                    return Err(RelayError::FrameTooLarge(len));
                }
                self.streams.insert(
                    stream_id,
                    StreamRelayState { conversation_id, thread_id, started_at_ns: now_ns, bytes_sent: len },
                );
                let mut actions: Vec<RelayAction> = Vec::new();
                actions.push(RelayAction::SendFrame { conversation_id });
                actions.push(RelayAction::Typing { conversation_id, thread_id, agent_id, active: true });
                assert(actions@ =~= seq![
                    RelayAction::SendFrame { conversation_id },
                    RelayAction::Typing { conversation_id, thread_id, agent_id, active: true },
                ]);
                Ok(actions)
            },
            AgentFrame::AgentTypingStart { v, agent_id, conversation_id, thread_id } => {
                if let Err(e) = require_v(v) {
                    return Err(e);
                }
                if agent_id != self.agent_id {
                    return Err(RelayError::AgentMismatch);
                }
                let mut actions: Vec<RelayAction> = Vec::new();
                actions.push(RelayAction::Typing { conversation_id, thread_id, agent_id, active: true });
                assert(actions@ =~= seq![
                    RelayAction::Typing { conversation_id, thread_id, agent_id, active: true },
                ]);
                Ok(actions)
            },
            AgentFrame::AgentTypingEnd { v, agent_id, conversation_id, thread_id } => {
                if let Err(e) = require_v(v) {
                    return Err(e);
                }
                if agent_id != self.agent_id {
                    return Err(RelayError::AgentMismatch);
                }
                let mut actions: Vec<RelayAction> = Vec::new();
                actions.push(RelayAction::Typing { conversation_id, thread_id, agent_id, active: false });
                assert(actions@ =~= seq![
                    RelayAction::Typing { conversation_id, thread_id, agent_id, active: false },
                ]);
                Ok(actions)
            },
            AgentFrame::ContentDelta { v, stream_id, delta_len } => {
                if let Err(e) = require_v(v) {
                    return Err(e);
                }
                if delta_len > MAX_DELTA_SIZE {
                    let empty: Vec<RelayAction> = Vec::new();
                    assert(empty@ =~= Seq::<RelayAction>::empty());
                    return Ok(empty);
                }
                Ok(self.relay_frame(stream_id, false, len, now_ns))
            },
            AgentFrame::ToolCallStart { v, stream_id } | AgentFrame::ToolCallResult { v, stream_id }
            | AgentFrame::ToolCallEnd { v, stream_id } | AgentFrame::ToolStart { v, stream_id }
            | AgentFrame::ToolEnd { v, stream_id } => {
                if let Err(e) = require_v(v) {
                    return Err(e);
                }
                Ok(self.relay_frame(stream_id, false, len, now_ns))
            },
            AgentFrame::StreamEnd { v, stream_id } => {
                if let Err(e) = require_v(v) {
                    return Err(e);
                }
                let context = match self.streams.get(&stream_id) {
                    Some(s) => Some((s.conversation_id, s.thread_id)),
                    None => None,
                };
                let mut actions = self.relay_frame(stream_id, true, len, now_ns);
                let ghost first = actions@;
                match context {
                    Some((conversation_id, thread_id)) => {
                        actions.push(
                            RelayAction::Typing {
                                conversation_id,
                                thread_id,
                                agent_id: self.agent_id,
                                active: false,
                            },
                        );
                    },
                    None => {},
                }
                assert(actions@ =~= relay_spec(old(self)@, old(self).agent(), *frame, len, now_ns).1->Ok_0);
                Ok(actions)
            },
        }
    }

    /// How many streams are being relayed.
    pub fn active_count(&self) -> (n: usize)
        requires
            self.wf(),
        ensures
            n == self@.dom().len(),
    {
        proof {
            self.streams.lemma_len();
        }
        self.streams.len()
    }
}

/// A relayed stream never holds more bytes than the bound: starting one
/// checks its first frame, and a frame that would pass the bound ends it.
pub proof fn law_relay_bytes_bounded(
    m: Map<u128, StreamRelayState>,
    agent_id: u128,
    frame: AgentFrame,
    len: usize,
    now: u64,
)
    requires
        forall|k: u128| #[trigger] m.contains_key(k) ==> m[k].bytes_sent <= MAX_STREAM_BYTES,
    ensures
        forall|k: u128| #[trigger] relay_spec(m, agent_id, frame, len, now).0.contains_key(k)
            ==> relay_spec(m, agent_id, frame, len, now).0[k].bytes_sent <= MAX_STREAM_BYTES,
{
}

/// An agent never relays more than the concurrent-stream bound at once.
pub proof fn law_relay_streams_bounded(
    m: Map<u128, StreamRelayState>,
    agent_id: u128,
    frame: AgentFrame,
    len: usize,
    now: u64,
)
    requires
        m.dom().finite(),
        m.dom().len() <= MAX_CONCURRENT_STREAMS_PER_AGENT,
    ensures
        relay_spec(m, agent_id, frame, len, now).0.dom().finite(),
        relay_spec(m, agent_id, frame, len, now).0.dom().len() <= MAX_CONCURRENT_STREAMS_PER_AGENT,
{
    let r = relay_spec(m, agent_id, frame, len, now).0;
    match frame {
        AgentFrame::StreamStart { stream_id, .. } => {
            if r.dom() != m.dom() {
                assert(m.dom().len() < MAX_CONCURRENT_STREAMS_PER_AGENT);
                assert(r.dom() =~= m.dom().insert(stream_id));
                vstd::set::axiom_set_insert_len(m.dom(), stream_id);
            }
        },
        _ => {
            assert(r.dom().subset_of(m.dom()));
            vstd::set_lib::lemma_len_subset(r.dom(), m.dom());
        },
    }
}

/// The stream a frame carries content for, when it is one the relay forwards
/// and counts: a content delta within the delta bound, or any tool frame.
pub open spec fn forwarded_frame_stream(f: AgentFrame) -> Option<u128> {
    match f {
        AgentFrame::ContentDelta { stream_id, delta_len, .. } => if delta_len <= MAX_DELTA_SIZE {
            Some(stream_id)
        } else {
            None
        },
        AgentFrame::ToolCallStart { stream_id, .. } => Some(stream_id),
        AgentFrame::ToolCallResult { stream_id, .. } => Some(stream_id),
        AgentFrame::ToolCallEnd { stream_id, .. } => Some(stream_id),
        AgentFrame::ToolStart { stream_id, .. } => Some(stream_id),
        AgentFrame::ToolEnd { stream_id, .. } => Some(stream_id),
        _ => None,
    }
}

/// A content delta or tool frame of the current version, on a stream that is
/// running within its duration and whose bytes stay within the bound, is sent
/// to the stream's conversation and nothing else happens: the one action is
/// that send, and the stream's byte count grows by the frame's length.
pub proof fn law_forwarded_frames_reach_members(
    m: Map<u128, StreamRelayState>,
    agent_id: u128,
    frame: AgentFrame,
    stream_id: u128,
    len: usize,
    now: u64,
)
    requires
        forwarded_frame_stream(frame) == Some(stream_id),
        frame_version(frame) == PROTOCOL_VERSION,
        m.contains_key(stream_id),
        m[stream_id].started_at_ns <= now,
        now - m[stream_id].started_at_ns <= MAX_STREAM_DURATION_NS,
        m[stream_id].bytes_sent + len <= MAX_STREAM_BYTES,
    ensures
        relay_spec(m, agent_id, frame, len, now).1 == Ok::<Seq<RelayAction>, RelayError>(
            seq![RelayAction::SendFrame { conversation_id: m[stream_id].conversation_id }],
        ),
        relay_spec(m, agent_id, frame, len, now).0 == m.insert(
            stream_id,
            StreamRelayState {
                conversation_id: m[stream_id].conversation_id,
                thread_id: m[stream_id].thread_id,
                started_at_ns: m[stream_id].started_at_ns,
                bytes_sent: (m[stream_id].bytes_sent + len) as usize,
            },
        ),
{
}

/// A stream end of the current version on a stream running within its bounds
/// is sent to the stream's conversation, the agent's typing indicator there is
/// cleared after it, and the stream is forgotten.
pub proof fn law_stream_end_closes_stream(
    m: Map<u128, StreamRelayState>,
    agent_id: u128,
    v: u8,
    stream_id: u128,
    len: usize,
    now: u64,
)
    requires
        v == PROTOCOL_VERSION,
        m.contains_key(stream_id),
        m[stream_id].started_at_ns <= now,
        now - m[stream_id].started_at_ns <= MAX_STREAM_DURATION_NS,
        m[stream_id].bytes_sent + len <= MAX_STREAM_BYTES,
    ensures
        relay_spec(m, agent_id, AgentFrame::StreamEnd { v, stream_id }, len, now).1 == Ok::<
            Seq<RelayAction>,
            RelayError,
        >(
            seq![
                RelayAction::SendFrame { conversation_id: m[stream_id].conversation_id },
                RelayAction::Typing {
                    conversation_id: m[stream_id].conversation_id,
                    thread_id: m[stream_id].thread_id,
                    agent_id,
                    active: false,
                },
            ],
        ),
        relay_spec(m, agent_id, AgentFrame::StreamEnd { v, stream_id }, len, now).0 == m.remove(stream_id),
{
    let cur = m[stream_id];
    let counted = m.insert(stream_id, StreamRelayState { bytes_sent: sat_add(cur.bytes_sent, len), ..cur });
    assert(counted.remove(stream_id) =~= m.remove(stream_id));
    let send = seq![RelayAction::SendFrame { conversation_id: cur.conversation_id }];
    let typing = seq![
        RelayAction::Typing {
            conversation_id: cur.conversation_id,
            thread_id: cur.thread_id,
            agent_id,
            active: false,
        },
    ];
    assert(send + typing =~= seq![send[0], typing[0]]);
}

/// A content delta or tool frame of the current version that finds its
/// stream past the duration bound, or that would take it past the byte bound,
/// is not sent: the members get a synthesized end of the stream (with the
/// milliseconds it ran) and the agent's typing indicator is cleared, and the
/// stream is forgotten.
pub proof fn law_stream_cut_off_past_bounds(
    m: Map<u128, StreamRelayState>,
    agent_id: u128,
    frame: AgentFrame,
    stream_id: u128,
    len: usize,
    now: u64,
)
    requires
        forwarded_frame_stream(frame) == Some(stream_id),
        frame_version(frame) == PROTOCOL_VERSION,
        m.contains_key(stream_id),
        m[stream_id].started_at_ns <= now,
        now - m[stream_id].started_at_ns > MAX_STREAM_DURATION_NS || m[stream_id].bytes_sent + len
            > MAX_STREAM_BYTES,
    ensures
        relay_spec(m, agent_id, frame, len, now).1 == Ok::<Seq<RelayAction>, RelayError>(
            seq![
                RelayAction::SendStreamEnd {
                    conversation_id: m[stream_id].conversation_id,
                    stream_id,
                    duration_ms: ((now - m[stream_id].started_at_ns) / 1_000_000) as u64,
                },
                RelayAction::Typing {
                    conversation_id: m[stream_id].conversation_id,
                    thread_id: m[stream_id].thread_id,
                    agent_id,
                    active: false,
                },
            ],
        ),
        relay_spec(m, agent_id, frame, len, now).0 == m.remove(stream_id),
{
}

/// A frame of another protocol version is refused with that version and
/// changes nothing; a content delta, tool frame or stream end for a stream
/// that is not running is dropped without any action, and so is a content
/// delta over the delta bound.
pub proof fn law_unrelayed_frames(
    m: Map<u128, StreamRelayState>,
    agent_id: u128,
    frame: AgentFrame,
    len: usize,
    now: u64,
)
    ensures
        frame_version(frame) != PROTOCOL_VERSION ==> relay_spec(m, agent_id, frame, len, now) == (
            m,
            Err::<Seq<RelayAction>, RelayError>(RelayError::UnsupportedVersion(frame_version(frame))),
        ),
        frame_version(frame) == PROTOCOL_VERSION && forwarded_frame_stream(frame) is Some
            && !m.contains_key(forwarded_frame_stream(frame)->0) ==> relay_spec(m, agent_id, frame, len, now)
            == (m, Ok::<Seq<RelayAction>, RelayError>(Seq::empty())),
        frame_version(frame) == PROTOCOL_VERSION && frame is StreamEnd && !m.contains_key(
            frame->StreamEnd_stream_id,
        ) ==> relay_spec(m, agent_id, frame, len, now) == (m, Ok::<Seq<RelayAction>, RelayError>(Seq::empty())),
        frame_version(frame) == PROTOCOL_VERSION && frame is ContentDelta && frame->delta_len > MAX_DELTA_SIZE
            ==> relay_spec(m, agent_id, frame, len, now) == (m, Ok::<Seq<RelayAction>, RelayError>(Seq::empty())),
{
    if frame_version(frame) == PROTOCOL_VERSION && frame is StreamEnd {
        assert(Seq::<RelayAction>::empty() + Seq::<RelayAction>::empty() =~= Seq::<RelayAction>::empty());
    }
}

/// A stream start of the current version: one naming another agent is
/// refused; with the concurrent-stream bound reached it is dropped; one whose
/// frame alone exceeds the byte bound is refused; otherwise the stream is
/// recorded from now with the frame's bytes, the frame is sent to the
/// conversation and the agent is shown typing there.
pub proof fn law_stream_start(
    m: Map<u128, StreamRelayState>,
    agent_id: u128,
    frame: AgentFrame,
    len: usize,
    now: u64,
)
    requires
        frame is StreamStart,
        frame_version(frame) == PROTOCOL_VERSION,
    ensures
        frame->StreamStart_agent_id != agent_id ==> relay_spec(m, agent_id, frame, len, now) == (
            m,
            Err::<Seq<RelayAction>, RelayError>(RelayError::AgentMismatch),
        ),
        frame->StreamStart_agent_id == agent_id && m.dom().len() >= MAX_CONCURRENT_STREAMS_PER_AGENT
            ==> relay_spec(m, agent_id, frame, len, now) == (m, Ok::<Seq<RelayAction>, RelayError>(Seq::empty())),
        frame->StreamStart_agent_id == agent_id && m.dom().len() < MAX_CONCURRENT_STREAMS_PER_AGENT && len
            > MAX_STREAM_BYTES ==> relay_spec(m, agent_id, frame, len, now) == (
            m,
            Err::<Seq<RelayAction>, RelayError>(RelayError::FrameTooLarge(len)),
        ),
        frame->StreamStart_agent_id == agent_id && m.dom().len() < MAX_CONCURRENT_STREAMS_PER_AGENT && len
            <= MAX_STREAM_BYTES ==> relay_spec(m, agent_id, frame, len, now) == (
            m.insert(
                frame->StreamStart_stream_id,
                StreamRelayState {
                    conversation_id: frame->StreamStart_conversation_id,
                    thread_id: frame->StreamStart_thread_id,
                    started_at_ns: now,
                    bytes_sent: len,
                },
            ),
            Ok::<Seq<RelayAction>, RelayError>(
                seq![
                    RelayAction::SendFrame { conversation_id: frame->StreamStart_conversation_id },
                    RelayAction::Typing {
                        conversation_id: frame->StreamStart_conversation_id,
                        thread_id: frame->StreamStart_thread_id,
                        agent_id,
                        active: true,
                    },
                ],
            ),
        ),
{
}

} // verus!
