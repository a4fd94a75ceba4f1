//! Agents on the server: their permissions in a conversation, their access
//! tokens, and the decisions of the agent endpoints.

use vstd::prelude::*;
use crate::ids::{new_uuid_v4, parse_uuid, uuid_parse_result, uuid_string, uuid_text};
use crate::server::failure::{failure, HttpFailure};
use crate::text::{chars_of, concat, str_equal, trim, trimmed};
use sha2::Digest;

verus! {

/// What an agent may do in a conversation.
#[derive(Clone, Copy, Debug, PartialEq, Eq, Hash, Structural)]
pub enum AgentPermission {
    ReadMessages,
    SendMessages,
    ManageThread,
    AccessHistory,
    UseTools,
}

/// The stored name of a permission.
pub open spec fn permission_name(p: AgentPermission) -> Seq<char> {
    match p {
        AgentPermission::ReadMessages => "read_messages"@,
        AgentPermission::SendMessages => "send_messages"@,
        AgentPermission::ManageThread => "manage_thread"@,
        AgentPermission::AccessHistory => "access_history"@,
        AgentPermission::UseTools => "use_tools"@,
    }
}

impl AgentPermission {
    pub fn as_str(self) -> (s: &'static str)
        ensures
            s@ == permission_name(self),
    {
        match self {
            AgentPermission::ReadMessages => "read_messages",
            AgentPermission::SendMessages => "send_messages",
            AgentPermission::ManageThread => "manage_thread",
            AgentPermission::AccessHistory => "access_history",
            AgentPermission::UseTools => "use_tools",
        }
    }

    /// The permission with a stored name; `None` for an unknown name.
    pub fn from_db(value: &str) -> (r: Option<Self>)
        ensures
            match r {
                Some(p) => permission_name(p) == value@,
                None => forall|p: AgentPermission| permission_name(p) != value@,
            },
    {
        proof {
            reveal_strlit("read_messages");
            reveal_strlit("send_messages");
            reveal_strlit("manage_thread");
            reveal_strlit("access_history");
            reveal_strlit("use_tools");
        }
        if str_equal(value, "read_messages") {
            Some(AgentPermission::ReadMessages)
        } else if str_equal(value, "send_messages") {
            Some(AgentPermission::SendMessages)
        } else if str_equal(value, "manage_thread") {
            Some(AgentPermission::ManageThread)
        } else if str_equal(value, "access_history") {
            Some(AgentPermission::AccessHistory)
        } else if str_equal(value, "use_tools") {
            Some(AgentPermission::UseTools)
        } else {
            proof {
                assert forall|p: AgentPermission| permission_name(p) != value@ by {
                    match p {
                        AgentPermission::ReadMessages => {},
                        AgentPermission::SendMessages => {},
                        AgentPermission::ManageThread => {},
                        AgentPermission::AccessHistory => {},
                        AgentPermission::UseTools => {},
                    }
                }
            }
            None
        }
    }
}

/// The permissions an invited agent gets: reading and sending messages.
pub open spec fn default_invite_permission_seq() -> Seq<AgentPermission> {
    seq![AgentPermission::ReadMessages, AgentPermission::SendMessages]
}

pub fn default_invite_permissions() -> (v: Vec<AgentPermission>)
    ensures
        v@ == default_invite_permission_seq(),
{
    let v = vec![AgentPermission::ReadMessages, AgentPermission::SendMessages];
    assert(v@ =~= default_invite_permission_seq());
    v
}

#[derive(Clone, Debug, PartialEq, Eq)]
pub struct UpdateAgentPermissionsRequest {
    pub permissions: Vec<AgentPermission>,
}

/// The first occurrences of the permissions, in order.
pub open spec fn dedup(s: Seq<AgentPermission>) -> Seq<AgentPermission>
    decreases s.len(),
{
    if s.len() == 0 {
        s
    } else if dedup(s.drop_last()).contains(s.last()) {
        dedup(s.drop_last())
    } else {
        dedup(s.drop_last()).push(s.last())
    }
}

proof fn lemma_dedup_contains(s: Seq<AgentPermission>)
    ensures
        forall|p: AgentPermission| dedup(s).contains(p) <==> s.contains(p),
    decreases s.len(),
{
    if s.len() > 0 {
        lemma_dedup_contains(s.drop_last());
        assert forall|p: AgentPermission| dedup(s).contains(p) <==> s.contains(p) by {
            if s.contains(p) {
                let i = choose|i: int| 0 <= i < s.len() && #[trigger] s[i] == p;
                if i < s.len() - 1 {
                    assert(s.drop_last()[i] == p);
                }
            }
            if s.drop_last().contains(p) {
                let i = choose|i: int| 0 <= i < s.drop_last().len() && #[trigger] s.drop_last()[i] == p;
                assert(s[i] == p);
            }
            if dedup(s) == dedup(s.drop_last()).push(s.last()) && dedup(s).contains(p) {
                let i = choose|i: int| 0 <= i < dedup(s).len() && #[trigger] dedup(s)[i] == p;
                if i < dedup(s).len() - 1 {
                    assert(dedup(s.drop_last())[i] == p);
                } else {
                    assert(s[s.len() - 1] == p);
                }
            }
            if dedup(s) == dedup(s.drop_last()).push(s.last()) && dedup(s.drop_last()).contains(p) {
                let i = choose|i: int| 0 <= i < dedup(s.drop_last()).len() && #[trigger] dedup(s.drop_last())[i] == p;
                assert(dedup(s)[i] == p);
            }
            if s.last() == p {
                assert(s[s.len() - 1] == p);
                if dedup(s) == dedup(s.drop_last()).push(s.last()) {
                    assert(dedup(s)[dedup(s).len() - 1] == p);
                }
            }
        }
    }
}

proof fn lemma_dedup_unique(s: Seq<AgentPermission>)
    ensures
        dedup(s).no_duplicates(),
    decreases s.len(),
{
    if s.len() > 0 {
        lemma_dedup_unique(s.drop_last());
        let d = dedup(s.drop_last());
        if !d.contains(s.last()) {
            assert forall|i: int, j: int| 0 <= i < d.push(s.last()).len() && 0 <= j < d.push(s.last()).len() && i != j implies d.push(s.last())[i] != d.push(s.last())[j] by {
                if i == d.len() {
                    assert(d[j] != s.last());
                } else if j == d.len() {
                    assert(d[i] != s.last());
                }
            }
        }
    }
}

/// Drops repeated permissions, keeping the first occurrence of each in order.
pub fn normalize_permissions(permissions: &Vec<AgentPermission>) -> (normalized: Vec<AgentPermission>)
    ensures
        normalized@ == dedup(permissions@),
        normalized@.no_duplicates(),
        forall|p: AgentPermission| normalized@.contains(p) <==> permissions@.contains(p),
{
    let mut normalized: Vec<AgentPermission> = Vec::new();
    let mut i: usize = 0;
    while i < permissions.len()
        invariant
            i <= permissions@.len(),
            normalized@ == dedup(permissions@.take(i as int)),
        decreases permissions@.len() - i,
    {
        let p = permissions[i];
        let mut seen = false;
        let mut j: usize = 0;
        while j < normalized.len()
            invariant
                j <= normalized@.len(),
                seen <==> normalized@.take(j as int).contains(p),
            decreases normalized@.len() - j,
        {
            if normalized[j] == p {
                seen = true;
            }
            proof {
                assert(normalized@.take(j + 1) == normalized@.take(j as int).push(normalized@[j as int]));
                if normalized@.take(j as int).contains(p) {
                    let k = choose|k: int| 0 <= k < j && #[trigger] normalized@.take(j as int)[k] == p;
                    assert(normalized@.take(j + 1)[k] == p);
                }
                if normalized@.take(j + 1).contains(p) && normalized@[j as int] != p {
                    let k = choose|k: int| 0 <= k < j + 1 && #[trigger] normalized@.take(j + 1)[k] == p;
                    assert(normalized@.take(j as int)[k] == p);
                }
                if normalized@[j as int] == p {
                    assert(normalized@.take(j + 1)[j as int] == p);
                }
            }
            j = j + 1;
        }
        assert(normalized@.take(j as int) == normalized@);
        proof {
            assert(permissions@.take(i + 1).drop_last() == permissions@.take(i as int));
            assert(permissions@.take(i + 1).last() == p);
        }
        if !seen {
            normalized.push(p);
        }
        i = i + 1;
    }
    assert(permissions@.take(i as int) == permissions@);
    proof {
        lemma_dedup_unique(permissions@);
        lemma_dedup_contains(permissions@);
    }
    normalized
}

#[derive(Clone, Debug, PartialEq, Eq)]
pub struct RegisterAgentRequest {
    pub name: String,
    pub description: Option<String>,
    pub avatar_url: Option<String>,
}

#[derive(Clone, Copy, Debug, PartialEq, Eq, Structural)]
pub struct InviteAgentResponse {
    pub invited: bool,
}

#[derive(Clone, Copy, Debug, PartialEq, Eq, Structural)]
pub struct RemoveAgentResponse {
    pub removed: bool,
}

/// Whether a user may manage the agents of a conversation.
#[derive(Clone, Copy, Debug, PartialEq, Eq, Structural)]
pub enum ConversationAgentManageAccess {
    Allowed,
    Forbidden,
    ConversationNotFound,
}

/// A missing conversation is reported as such; otherwise the user may manage
/// its agents when they created it as an agent-only conversation or are one
/// of its admins.
pub fn conversation_agent_manage_access(exists: bool, created_agent_only_or_admin: bool) -> (r:
    ConversationAgentManageAccess)
    ensures
        !exists ==> r == ConversationAgentManageAccess::ConversationNotFound,
        exists && created_agent_only_or_admin ==> r == ConversationAgentManageAccess::Allowed,
        exists && !created_agent_only_or_admin ==> r == ConversationAgentManageAccess::Forbidden,
{
    if !exists {
        ConversationAgentManageAccess::ConversationNotFound
    } else if created_agent_only_or_admin {
        ConversationAgentManageAccess::Allowed
    } else {
        ConversationAgentManageAccess::Forbidden
    }
}

/// The prefix of every agent token.
pub open spec fn token_prefix() -> Seq<char> {
    "paw_agent_"@
}

/// A well-formed agent token: the prefix, then a UUID.
pub open spec fn is_agent_token(t: Seq<char>) -> bool {
    &&& t.len() >= 10
    &&& t.take(10) == token_prefix()
    &&& uuid_parse_result(t.skip(10)) is Some
}

/// Whether a token has the agent token form.
pub fn is_valid_agent_token_format(raw_token: &str) -> (b: bool)
    ensures
        b == is_agent_token(raw_token@),
        (exists|id: u128| raw_token@ == #[trigger] (token_prefix() + uuid_text(id))) ==> b,
{
    proof {
        reveal_strlit("paw_agent_");
    }
    let v = chars_of(raw_token);
    let prefix = chars_of("paw_agent_");
    if v.len() < 10 {
        return false;
    }
    assert(prefix@.len() == 10);
    let mut i: usize = 0;
    while i < 10
        invariant
            i <= 10,
            v@ == raw_token@,
            prefix@ == token_prefix(),
            prefix@.len() == 10,
            v@.len() >= 10,
            v@.take(i as int) == prefix@.take(i as int),
        decreases 10 - i,
    {
        if v[i] != prefix[i] {
            assert(v@.take(10)[i as int] != token_prefix()[i as int]);
            return false;
        }
        proof {
            assert(v@.take(i + 1) =~= prefix@.take(i + 1));
        }
        i = i + 1;
    }
    assert(prefix@.take(10) =~= prefix@);
    let mut suffix: Vec<char> = Vec::new();
    let mut k: usize = 10;
    while k < v.len()
        invariant
            10 <= k <= v@.len(),
            suffix@ == v@.subrange(10, k as int),
        decreases v@.len() - k,
    {
        suffix.push(v[k]);
        proof {
            assert(suffix@ =~= v@.subrange(10, k + 1));
        }
        k = k + 1;
    }
    assert(suffix@ =~= v@.skip(10));
    let s = crate::text::string_from_chars(&suffix);
    let parsed = parse_uuid(s.as_str());
    proof {
        if exists|id: u128| raw_token@ == #[trigger] (token_prefix() + uuid_text(id)) {
            let id = choose|id: u128| raw_token@ == #[trigger] (token_prefix() + uuid_text(id));
            assert(s@ =~= uuid_text(id));
        }
    }
    parsed.is_some()
}

/// A fresh agent token: the prefix and a random UUID.
pub fn generate_agent_token() -> (t: String)
    ensures
        exists|id: u128| t@ == #[trigger] (token_prefix() + uuid_text(id)),
{
    proof {
        reveal_strlit("paw_agent_");
    }
    let id = new_uuid_v4();
    let t = concat("paw_agent_", uuid_string(id).as_str());
    assert(t@ == token_prefix() + uuid_text(id));
    t
}

/// SHA-256 of the UTF-8 encoding of a text.
pub uninterp spec fn sha256_utf8(text: Seq<char>) -> Seq<u8>;

/// `Sha256::digest` of a text's UTF-8 bytes (`sha2`). Named, 32 bytes.
#[verifier::external_body]
fn sha256_of_str(text: &str) -> (r: Vec<u8>)
    ensures
        r@ == sha256_utf8(text@),
        r@.len() == 32,
{
    sha2::Sha256::digest(text.as_bytes()).to_vec()
}

pub open spec fn hex_char(n: u8) -> char {
    if n < 10 { (('0' as u8) + n) as char } else { (('a' as u8) + n - 10) as char }
}

/// Lowercase hexadecimal, two digits per byte, high nibble first.
pub open spec fn hex_text(bytes: Seq<u8>) -> Seq<char>
    decreases bytes.len(),
{
    if bytes.len() == 0 {
        Seq::empty()
    } else {
        hex_text(bytes.drop_last()) + seq![hex_char(bytes.last() / 16), hex_char(bytes.last() % 16)]
    }
}

/// `hex::encode`: lowercase hexadecimal, two digits per byte, high nibble
/// first (the crate's documented behaviour, stated in full).
#[verifier::external_body]
fn hex_encode(bytes: &Vec<u8>) -> (r: String)
    ensures
        r@ == hex_text(bytes@),
{
    hex::encode(bytes)
}

/// The stored hash of a token: hex of its SHA-256.
pub open spec fn token_hash_of(raw: Seq<char>) -> Seq<char> {
    hex_text(sha256_utf8(raw))
}

pub fn hash_token(raw_token: &str) -> (h: String)
    ensures
        h@ == token_hash_of(raw_token@),
{
    let digest = sha256_of_str(raw_token);
    hex_encode(&digest)
}

/// A fresh token and its stored hash.
pub fn generate_agent_token_pair() -> (r: (String, String))
    ensures
        exists|id: u128| r.0@ == #[trigger] (token_prefix() + uuid_text(id)),
        r.1@ == token_hash_of(r.0@),
{
    let raw = generate_agent_token();
    let hash = hash_token(raw.as_str());
    (raw, hash)
}

/// The membership of a user in a conversation.
#[derive(Clone, Copy, Debug, PartialEq, Eq, Structural)]
pub enum Membership {
    Member,
    NotMember,
    ConversationNotFound,
}

/// What inviting an agent to a conversation did.
#[derive(Clone, Copy, Debug, PartialEq, Eq, Structural)]
pub enum InviteOutcome {
    Invited,
    AlreadyInvited,
    AgentNotFoundOrRevoked,
    Failed,
}

/// The first check of the invitation endpoint, made before anything else is
/// read: the inviter must be a member of the conversation (`None` means the
/// membership check failed). `Ok` means the endpoint goes on to read whether
/// the inviter may manage the conversation's agents.
pub fn invite_membership_gate(membership: Option<Membership>) -> (r: Result<(), HttpFailure>)
    ensures
        match membership {
            None => r matches Err(f) && f.status == 500 && f.code@ == "membership_check_failed"@
                && f.fallback@ == "Could not validate conversation membership"@,
            Some(Membership::NotMember) => r matches Err(f) && f.status == 403 && f.code@ == "forbidden"@
                && f.fallback@ == "User is not a member of this conversation"@,
            Some(Membership::ConversationNotFound) => r matches Err(f) && f.status == 404 && f.code@
                == "conversation_not_found"@ && f.fallback@ == "Conversation not found"@,
            Some(Membership::Member) => r is Ok,
        },
{
    match membership {
        None => Err(
            failure(500, "membership_check_failed", "Could not validate conversation membership"),
        ),
        Some(Membership::NotMember) => Err(
            failure(403, "forbidden", "User is not a member of this conversation"),
        ),
        Some(Membership::ConversationNotFound) => Err(
            failure(404, "conversation_not_found", "Conversation not found"),
        ),
        Some(Membership::Member) => Ok(()),
    }
}

/// The second check of the invitation endpoint, made only after the
/// membership check passed: whether the inviter may manage the
/// conversation's agents (`None` means the check failed). `Ok` means the
/// agent is to be invited now, and only then.
pub fn invite_manage_gate(can_manage: Option<bool>) -> (r: Result<(), HttpFailure>)
    ensures
        match can_manage {
            None => r matches Err(f) && f.status == 500 && f.code@ == "internal_error"@
                && f.fallback@ == "Failed to invite agent"@,
            Some(false) => r matches Err(f) && f.status == 403 && f.code@ == "forbidden"@
                && f.fallback@ == "Only conversation admins can invite agents"@,
            Some(true) => r is Ok,
        },
{
    match can_manage {
        None => Err(failure(500, "internal_error", "Failed to invite agent")),
        Some(false) => Err(failure(403, "forbidden", "Only conversation admins can invite agents")),
        Some(true) => Ok(()),
    }
}

/// The invitation endpoint's answer once both checks passed and the agent
/// was invited, from what the invitation did.
pub fn invite_agent_answer(outcome: InviteOutcome) -> (r: Result<InviteAgentResponse, HttpFailure>)
    ensures
        match outcome {
            InviteOutcome::Invited => r == Ok::<InviteAgentResponse, HttpFailure>(
                InviteAgentResponse { invited: true },
            ),
            InviteOutcome::AlreadyInvited => r matches Err(f) && f.status == 409 && f.code@
                == "already_invited"@ && f.fallback@ == "Agent is already invited to this conversation"@,
            InviteOutcome::AgentNotFoundOrRevoked => r matches Err(f) && f.status == 404 && f.code@
                == "agent_not_found"@ && f.fallback@ == "Agent not found or revoked"@,
            InviteOutcome::Failed => r matches Err(f) && f.status == 500 && f.code@ == "invite_failed"@
                && f.fallback@ == "Failed to invite agent"@,
        },
{
    match outcome {
        InviteOutcome::Invited => Ok(InviteAgentResponse { invited: true }),
        InviteOutcome::AlreadyInvited => Err(
            failure(409, "already_invited", "Agent is already invited to this conversation"),
        ),
        InviteOutcome::AgentNotFoundOrRevoked => Err(
            failure(404, "agent_not_found", "Agent not found or revoked"),
        ),
        InviteOutcome::Failed => Err(failure(500, "invite_failed", "Failed to invite agent")),
    }
}

/// What removing an agent from a conversation did.
#[derive(Clone, Copy, Debug, PartialEq, Eq, Structural)]
pub enum RemoveOutcome {
    Removed,
    NotInConversation,
    NotAdmin,
    Failed,
}

pub fn remove_agent_decision(outcome: RemoveOutcome) -> (r: Result<RemoveAgentResponse, HttpFailure>)
    ensures
        match outcome {
            RemoveOutcome::Removed => r == Ok::<RemoveAgentResponse, HttpFailure>(
                RemoveAgentResponse { removed: true },
            ),
            RemoveOutcome::NotInConversation => r matches Err(f) && f.status == 404 && f.code@
                == "agent_not_found"@,
            RemoveOutcome::NotAdmin => r matches Err(f) && f.status == 403 && f.code@ == "forbidden"@,
            RemoveOutcome::Failed => r matches Err(f) && f.status == 500 && f.code@ == "remove_failed"@,
        },
{
    match outcome {
        RemoveOutcome::Removed => Ok(RemoveAgentResponse { removed: true }),
        RemoveOutcome::NotInConversation => Err(
            failure(404, "agent_not_found", "Agent is not in this conversation"),
        ),
        RemoveOutcome::NotAdmin => Err(
            failure(403, "forbidden", "Only conversation admins can remove agents"),
        ),
        RemoveOutcome::Failed => Err(failure(500, "remove_failed", "Failed to remove agent")),
    }
}

/// How an agent's WebSocket upgrade ends before relaying starts.
#[derive(Clone, Copy, Debug, PartialEq, Eq)]
pub enum AgentSocketStart {
    /// Accept the socket for the agent and relay through the message bus.
    Relay(u128),
    /// Accept the socket only to send an error frame with this code and close it.
    ErrorFrame(&'static str, &'static str),
}

/// The first check of the agent socket endpoint, made on the query's token
/// alone before any lookup: a missing or empty token is refused with 401.
/// `Ok` hands back the token to be looked up.
pub fn agent_socket_token<'a>(token: Option<&'a str>) -> (r: Result<&'a str, HttpFailure>)
    ensures
        match token {
            None => r matches Err(f) && f.status == 401 && f.code@ == "agent_missing_token"@
                && f.fallback@ == "Agent token is required"@,
            Some(t) => if t@.len() == 0 {
                r matches Err(f) && f.status == 401 && f.code@ == "agent_missing_token"@
                    && f.fallback@ == "Agent token is required"@
            } else {
                r == Ok::<&str, HttpFailure>(t)
            },
        },
{
    match token {
        Some(t) => {
            if t.is_empty() {
                Err(failure(401, "agent_missing_token", "Agent token is required"))
            } else {
                Ok(t)
            }
        },
        None => Err(failure(401, "agent_missing_token", "Agent token is required")),
    }
}

/// The agent socket endpoint's decision once the token was looked up
/// (`None`: the lookup failed; `Some(None)`: no live agent holds the token):
/// an invalid token is refused with 401, a failed lookup with 500; without a
/// message bus the socket only receives an error frame.
pub fn agent_socket_after_lookup(verified: Option<Option<u128>>, bus_available: bool) -> (r: Result<
    AgentSocketStart,
    HttpFailure,
>)
    ensures
        match verified {
            None => r matches Err(f) && f.status == 500 && f.code@ == "internal_error"@
                && f.fallback@ == "Internal error"@,
            Some(None) => r matches Err(f) && f.status == 401 && f.code@ == "invalid_agent_token"@
                && f.fallback@ == "Agent token is invalid"@,
            Some(Some(id)) => if bus_available {
                r == Ok::<AgentSocketStart, HttpFailure>(AgentSocketStart::Relay(id))
            } else {
                r matches Ok(AgentSocketStart::ErrorFrame(code, text)) && code@ == "nats_unavailable"@
                    && text@ == "Agent gateway requires NATS"@
            },
        },
{
    let agent_id = match verified {
        None => return Err(failure(500, "internal_error", "Internal error")),
        Some(None) => return Err(failure(401, "invalid_agent_token", "Agent token is invalid")),
        Some(Some(id)) => id,
    };
    if bus_available {
        Ok(AgentSocketStart::Relay(agent_id))
    } else {
        Ok(AgentSocketStart::ErrorFrame("nats_unavailable", "Agent gateway requires NATS"))
    }
}

/// Whether the agent socket keeps reading after a text frame of `len` bytes:
/// an oversized frame or a rate-limited agent ends the session.
pub fn agent_frame_admitted(len: usize, max_len: usize, rate_allowed: bool) -> (b: bool)
    ensures
        b == (len <= max_len && rate_allowed),
{
    len <= max_len && rate_allowed
}

/// A task handed from one agent to another in a conversation; the time in
/// milliseconds since the epoch.
#[derive(Clone, Copy, Debug, PartialEq, Eq, Structural)]
pub struct AgentDelegationRecord {
    pub id: u128,
    pub conversation_id: u128,
    pub from_agent_id: u128,
    pub target_agent_id: u128,
    pub delegated_at_ms: i64,
}

/// Checks a delegation before anything is read: the task, trimmed, must not
/// be blank, and an agent cannot delegate to itself. Gives the trimmed task.
pub fn delegation_precheck(task_description: &str, from_agent_id: u128, target_agent_id: u128) -> (r:
    Result<String, &'static str>)
    ensures
        trimmed(task_description@).len() == 0 ==> (r matches Err(c) && c@ == "invalid_task_description"@),
        trimmed(task_description@).len() > 0 && from_agent_id == target_agent_id ==> (r matches Err(c)
            && c@ == "same_agent"@),
        trimmed(task_description@).len() > 0 && from_agent_id != target_agent_id ==> (r matches Ok(t)
            && t@ == trimmed(task_description@)),
{
    let task = trim(task_description);
    if task.as_str().is_empty() {
        return Err("invalid_task_description");
    }
    if from_agent_id == target_agent_id {
        return Err("same_agent");
    }
    Ok(task)
}

/// Checks what the conversation holds: it must exist and both agents must
/// be in it, in that order.
pub fn delegation_membership_decision(
    conversation_exists: bool,
    source_in_conversation: bool,
    target_in_conversation: bool,
) -> (r: Result<(), &'static str>)
    ensures
        !conversation_exists ==> (r matches Err(c) && c@ == "conversation_not_found"@),
        conversation_exists && !source_in_conversation ==> (r matches Err(c) && c@
            == "source_agent_not_in_conversation"@),
        conversation_exists && source_in_conversation && !target_in_conversation ==> (r matches Err(
            c,
        ) && c@ == "target_agent_not_in_conversation"@),
        conversation_exists && source_in_conversation && target_in_conversation ==> r is Ok,
{
    if !conversation_exists {
        return Err("conversation_not_found");
    }
    if !source_in_conversation {
        return Err("source_agent_not_in_conversation");
    }
    if !target_in_conversation {
        return Err("target_agent_not_in_conversation");
    }
    Ok(())
}

/// Whether a stored text names a permission.
pub open spec fn names_permission(t: Seq<char>) -> bool {
    exists|p: AgentPermission| permission_name(p) == t
}

/// Reads the stored permission rows of an agent in a conversation, in order;
/// the first unknown value fails the whole read with its text.
pub fn parse_permissions(rows: &Vec<String>) -> (r: Result<Vec<AgentPermission>, String>)
    ensures
        match r {
            Ok(ps) => ps@.len() == rows@.len() && forall|i: int|
                0 <= i < rows@.len() ==> permission_name(#[trigger] ps@[i]) == rows@[i]@,
            Err(m) => exists|i: int|
                0 <= i < rows@.len() && !names_permission(#[trigger] rows@[i]@) && (forall|j: int|
                    0 <= j < i ==> names_permission(#[trigger] rows@[j]@)) && m@
                    == "unknown permission value: "@ + rows@[i]@,
        },
{
    let mut out: Vec<AgentPermission> = Vec::new();
    let mut i: usize = 0;
    while i < rows.len()
        invariant
            i <= rows@.len(),
            out@.len() == i,
            forall|k: int| 0 <= k < i ==> permission_name(#[trigger] out@[k]) == rows@[k]@,
        decreases rows@.len() - i,
    {
        match AgentPermission::from_db(rows[i].as_str()) {
            Some(p) => {
                out.push(p);
            },
            None => {
                let m = concat("unknown permission value: ", rows[i].as_str());
                proof {
                    reveal_strlit("unknown permission value: ");
                    assert forall|j: int| 0 <= j < i implies names_permission(#[trigger] rows@[j]@) by {
                        assert(permission_name(out@[j]) == rows@[j]@);
                    }
                    assert(!names_permission(rows@[i as int]@));
                }
                return Err(m);
            },
        }
        i = i + 1;
    }
    Ok(out)
}

/// The message-bus subject an agent's inbound messages arrive on.
pub fn agent_inbound_subject(agent_id: u128) -> (s: String)
    ensures
        s@ == "agent.inbound."@ + uuid_text(agent_id),
{
    concat("agent.inbound.", uuid_string(agent_id).as_str())
}

/// What an accepted agent session does once it tried to subscribe to its
/// inbound subject: on success it registers the agent's connection and
/// relays; on failure it sends one `subscribe_failed` error frame, closes the
/// socket and registers nothing.
#[derive(Clone, Copy, Debug, PartialEq, Eq)]
pub enum AgentSessionStep {
    RegisterAndRelay(u128),
    ErrorFrameAndClose(&'static str, &'static str),
}

pub fn agent_session_after_subscribe(agent_id: u128, subscribed: bool) -> (r: AgentSessionStep)
    ensures
        subscribed ==> r == AgentSessionStep::RegisterAndRelay(agent_id),
        !subscribed ==> (r matches AgentSessionStep::ErrorFrameAndClose(code, fallback) && code@
            == "subscribe_failed"@ && fallback@ == "Failed to subscribe agent session"@),
{
    if subscribed {
        AgentSessionStep::RegisterAndRelay(agent_id)
    } else {
        AgentSessionStep::ErrorFrameAndClose("subscribe_failed", "Failed to subscribe agent session")
    }
}

} // verus!
