//! The protocol frames that the client logic reads and writes.
//!
//! Identifiers are the 128-bit values of UUIDs; instants are milliseconds
//! since the Unix epoch.

use vstd::prelude::*;

verus! {

/// The protocol version that every frame carries.
pub const PROTOCOL_VERSION: u8 = 1;

/// Common behaviour of WebSocket frames.
pub trait PawMessage {
    /// The protocol version of the frame.
    fn version(&self) -> (v: u8)
        ensures
            v == PROTOCOL_VERSION,
    {
        PROTOCOL_VERSION
    }

    /// The frame's type tag.
    fn message_type(&self) -> &str;
}

/// Message body format.
#[derive(Clone, Copy, Debug, PartialEq, Eq, Structural)]
pub enum MessageFormat {
    Markdown,
    Plain,
}

impl Default for MessageFormat {
    fn default() -> (f: Self)
        ensures
            f == MessageFormat::Markdown,
    {
        MessageFormat::Markdown
    }
}

/// Client → server: opens a session with an access token.
#[derive(Clone, Debug, PartialEq, Eq)]
pub struct ConnectMsg {
    pub v: u8,
    pub token: String,
    pub capabilities: Option<Vec<String>>,
}

/// Server → client: the session was accepted.
#[derive(Clone, Copy, Debug, PartialEq, Eq)]
pub struct HelloOkMsg {
    pub v: u8,
    pub user_id: u128,
    pub server_time_ms: i64,
}

/// Server → client: the session was refused.
#[derive(Clone, Debug, PartialEq, Eq)]
pub struct HelloErrorMsg {
    pub v: u8,
    pub code: String,
    pub message: String,
    pub details: Option<String>,
}

/// Server → client: a request failed.
#[derive(Clone, Debug, PartialEq, Eq)]
pub struct ErrorMsg {
    pub v: u8,
    pub code: String,
    pub ref_type: String,
    pub message: String,
}

/// Client → server: asks for the messages of a scope after `last_seq`.
#[derive(Clone, Copy, Debug, PartialEq, Eq, Structural)]
pub struct SyncMsg {
    pub v: u8,
    pub conversation_id: u128,
    pub thread_id: Option<u128>,
    pub last_seq: i64,
}

/// Client → server: acknowledges messages up to `last_seq`.
#[derive(Clone, Copy, Debug, PartialEq, Eq, Structural)]
pub struct MessageAckMsg {
    pub v: u8,
    pub conversation_id: u128,
    pub thread_id: Option<u128>,
    pub last_seq: i64,
}

/// Typing indicator.
#[derive(Clone, Copy, Debug, PartialEq, Eq, Structural)]
pub struct TypingMsg {
    pub v: u8,
    pub conversation_id: u128,
    pub thread_id: Option<u128>,
    pub user_id: Option<u128>,
}

/// Server → client: a message delivered to a conversation (or one of its threads).
#[derive(Clone, Debug, PartialEq, Eq)]
pub struct MessageReceivedMsg {
    pub v: u8,
    pub id: u128,
    pub conversation_id: u128,
    pub thread_id: Option<u128>,
    pub sender_id: u128,
    pub content: String,
    pub format: MessageFormat,
    pub seq: i64,
    pub created_at_ms: i64,
}

/// The cursor of one thread in a device sync.
#[derive(Clone, Copy, Debug, PartialEq, Eq, Structural)]
pub struct ThreadSyncEntry {
    pub thread_id: u128,
    pub last_seq: i64,
}

/// The cursor of one conversation in a device sync.
#[derive(Clone, Debug, PartialEq, Eq)]
pub struct ConvSyncState {
    pub conversation_id: u128,
    pub last_seq: i64,
    pub threads: Vec<ThreadSyncEntry>,
}

/// Server → client: the answer to a device sync, with the missing messages.
#[derive(Clone, Debug, PartialEq, Eq)]
pub struct DeviceSyncResponse {
    pub v: u8,
    pub conversations: Vec<ConvSyncState>,
    pub messages: Vec<MessageReceivedMsg>,
}

/// Server → client: an agent starts streaming a reply.
#[derive(Clone, Copy, Debug, PartialEq, Eq, Structural)]
pub struct StreamStartMsg {
    pub v: u8,
    pub conversation_id: u128,
    pub thread_id: Option<u128>,
    pub agent_id: u128,
    pub stream_id: u128,
}

/// Server → client: more text of a streamed reply.
#[derive(Clone, Debug, PartialEq, Eq)]
pub struct ContentDeltaMsg {
    pub v: u8,
    pub stream_id: u128,
    pub delta: String,
}

/// Server → client: the agent started a tool.
#[derive(Clone, Debug, PartialEq, Eq)]
pub struct ToolStartMsg {
    pub v: u8,
    pub stream_id: u128,
    pub tool: String,
    pub label: String,
}

/// Server → client: the agent finished a tool.
#[derive(Clone, Debug, PartialEq, Eq)]
pub struct ToolEndMsg {
    pub v: u8,
    pub stream_id: u128,
    pub tool: String,
}

/// Server → client: the streamed reply is complete.
#[derive(Clone, Copy, Debug, PartialEq, Eq, Structural)]
pub struct StreamEndMsg {
    pub v: u8,
    pub stream_id: u128,
    pub tokens: u32,
    pub duration_ms: u64,
}

/// The server frames that the client runtime reacts to; every other frame is `Other`.
#[derive(Clone, Debug, PartialEq, Eq)]
pub enum ServerMessage {
    HelloOk(HelloOkMsg),
    HelloError(HelloErrorMsg),
    MessageReceived(MessageReceivedMsg),
    DeviceSyncResponse(DeviceSyncResponse),
    StreamStart(StreamStartMsg),
    ContentDelta(ContentDeltaMsg),
    ToolStart(ToolStartMsg),
    ToolEnd(ToolEndMsg),
    StreamEnd(StreamEndMsg),
    Other,
}

/// Copies a received message field by field.
pub fn copy_message(m: &MessageReceivedMsg) -> (r: MessageReceivedMsg)
    ensures
        r == *m,
{
    MessageReceivedMsg {
        v: m.v,
        id: m.id,
        conversation_id: m.conversation_id,
        thread_id: m.thread_id,
        sender_id: m.sender_id,
        content: m.content.clone(),
        format: m.format,
        seq: m.seq,
        created_at_ms: m.created_at_ms,
    }
}

} // verus!
