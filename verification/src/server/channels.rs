//! Broadcast channels: who may read, subscribe and post, and the decisions
//! of the channel endpoints.

use vstd::prelude::*;
use crate::server::failure::{failure, HttpFailure};
use crate::text::{ascii_lowercase, str_equal, to_lower, trim, trimmed};

verus! {

#[derive(Clone, Debug, PartialEq, Eq)]
pub struct CreateChannelRequest {
    pub name: String,
    pub is_public: Option<bool>,
}

#[derive(Clone, Debug, PartialEq, Eq)]
pub struct ListChannelsQuery {
    pub q: Option<String>,
}

#[derive(Clone, Copy, Debug, PartialEq, Eq, Structural)]
pub struct SubscribeResponse {
    pub subscribed: bool,
}

#[derive(Clone, Copy, Debug, PartialEq, Eq, Structural)]
pub struct UnsubscribeResponse {
    pub unsubscribed: bool,
}

#[derive(Clone, Copy, Debug, PartialEq, Eq, Structural)]
pub struct GetChannelMessagesQuery {
    pub after_seq: Option<i64>,
    pub limit: Option<i64>,
}

/// A page of channel messages (each message as the API serializes it).
#[derive(Clone, Debug, PartialEq, Eq)]
pub struct GetChannelMessagesResponse {
    pub messages: Vec<String>,
    pub has_more: bool,
}

#[derive(Clone, Copy, Debug, PartialEq, Eq, Structural)]
pub enum ChannelAccess {
    Owner,
    Subscriber,
    Forbidden,
    NotFound,
}

#[derive(Clone, Copy, Debug, PartialEq, Eq, Structural)]
pub enum SubscribeError {
    NotFound,
    Forbidden,
}

#[derive(Clone, Copy, Debug, PartialEq, Eq, Structural)]
pub enum UnsubscribeError {
    NotFound,
    CannotUnsubscribeOwner,
}

#[derive(Clone, Copy, Debug, PartialEq, Eq, Structural)]
pub enum SendPermission {
    Owner,
    NotOwner,
    NotFound,
}

/// A user's access to a channel with the given owner (`None`: no such
/// channel): the owner, a subscriber, or no one.
pub fn access_for_user(owner: Option<u128>, user_id: u128, subscribed: bool) -> (a: ChannelAccess)
    ensures
        a == (match owner {
            None => ChannelAccess::NotFound,
            Some(o) => if o == user_id {
                ChannelAccess::Owner
            } else if subscribed {
                ChannelAccess::Subscriber
            } else {
                ChannelAccess::Forbidden
            },
        }),
{
    match owner {
        None => ChannelAccess::NotFound,
        Some(o) => if o == user_id {
            ChannelAccess::Owner
        } else if subscribed {
            ChannelAccess::Subscriber
        } else {
            ChannelAccess::Forbidden
        },
    }
}

/// Only a channel's owner may post in it.
pub fn send_permission(owner: Option<u128>, user_id: u128) -> (p: SendPermission)
    ensures
        p == (match owner {
            None => SendPermission::NotFound,
            Some(o) => if o == user_id { SendPermission::Owner } else { SendPermission::NotOwner },
        }),
{
    match owner {
        None => SendPermission::NotFound,
        Some(o) => if o == user_id {
            SendPermission::Owner
        } else {
            SendPermission::NotOwner
        },
    }
}

/// What a subscription request does.
#[derive(Clone, Copy, Debug, PartialEq, Eq, Structural)]
pub enum SubscribeStep {
    /// The owner is always subscribed; nothing to store.
    AlreadyOwner,
    /// Store the subscription and the membership.
    Subscribe,
}

/// Subscribing to a channel (`None`: no such channel; else its owner and
/// whether it is public): the owner needs nothing, others only to public
/// channels.
pub fn subscribe_decision(channel: Option<(u128, bool)>, user_id: u128) -> (r: Result<SubscribeStep, SubscribeError>)
    ensures
        r == (match channel {
            None => Err(SubscribeError::NotFound),
            Some((owner, is_public)) => if owner == user_id {
                Ok(SubscribeStep::AlreadyOwner)
            } else if !is_public {
                Err(SubscribeError::Forbidden)
            } else {
                Ok(SubscribeStep::Subscribe)
            },
        }),
{
    match channel {
        None => Err(SubscribeError::NotFound),
        Some((owner, is_public)) => if owner == user_id {
            Ok(SubscribeStep::AlreadyOwner)
        } else if !is_public {
            Err(SubscribeError::Forbidden)
        } else {
            Ok(SubscribeStep::Subscribe)
        },
    }
}

/// Unsubscribing (`None`: no such channel): the owner cannot leave.
pub fn unsubscribe_decision(owner: Option<u128>, user_id: u128) -> (r: Result<(), UnsubscribeError>)
    ensures
        r == (match owner {
            None => Err(UnsubscribeError::NotFound),
            Some(o) => if o == user_id { Err(UnsubscribeError::CannotUnsubscribeOwner) } else { Ok(()) },
        }),
{
    match owner {
        None => Err(UnsubscribeError::NotFound),
        Some(o) => if o == user_id {
            Err(UnsubscribeError::CannotUnsubscribeOwner)
        } else {
            Ok(())
        },
    }
}

/// The message formats a channel accepts (compared in lower case).
pub open spec fn is_message_format(f: Seq<char>) -> bool {
    f == "markdown"@ || f == "plain"@
}

/// Checks a channel message: its trimmed content must not be empty and its
/// format (case-insensitive) must be markdown or plain. Returns the trimmed
/// content and the lower-case format.
pub fn validate_channel_message(content: &str, format: &str) -> (r: Result<(String, String), HttpFailure>)
    ensures
        trimmed(content@).len() == 0 ==> (r matches Err(f) && f.status == 400 && f.code@
            == "invalid_content"@),
        trimmed(content@).len() > 0 && !is_message_format(format@.map_values(|c: char| to_lower(c)))
            ==> (r matches Err(f) && f.status == 400 && f.code@ == "invalid_format"@),
        trimmed(content@).len() > 0 && is_message_format(format@.map_values(|c: char| to_lower(c)))
            ==> (r matches Ok((c, f)) && c@ == trimmed(content@) && f@ == format@.map_values(
            |c: char| to_lower(c),
        )),
{
    let body = trim(content);
    if body.as_str().is_empty() {
        return Err(failure(400, "invalid_content", "Message content is required"));
    }
    let lower = ascii_lowercase(format);
    proof {
        reveal_strlit("markdown");
        reveal_strlit("plain");
    }
    if !str_equal(lower.as_str(), "markdown") && !str_equal(lower.as_str(), "plain") {
        return Err(failure(400, "invalid_format", "format must be markdown or plain"));
    }
    Ok((body, lower))
}

/// The answer to a post's permission check (`None`: the check failed).
pub fn channel_send_decision(permission: Option<SendPermission>) -> (r: Result<(), HttpFailure>)
    ensures
        match permission {
            Some(SendPermission::Owner) => r is Ok,
            Some(SendPermission::NotOwner) => r matches Err(f) && f.status == 403 && f.code@ == "forbidden"@,
            Some(SendPermission::NotFound) => r matches Err(f) && f.status == 404 && f.code@
                == "channel_not_found"@,
            None => r matches Err(f) && f.status == 500 && f.code@ == "channel_permission_failed"@,
        },
{
    match permission {
        Some(SendPermission::Owner) => Ok(()),
        Some(SendPermission::NotOwner) => Err(
            failure(403, "forbidden", "Only channel owner can send messages"),
        ),
        Some(SendPermission::NotFound) => Err(failure(404, "channel_not_found", "Channel not found")),
        None => Err(
            failure(500, "channel_permission_failed", "Could not validate channel permission"),
        ),
    }
}

/// What the store said about a post: an earlier post with the same
/// idempotency key, the new post, or failures.
#[derive(Clone, Copy, Debug, PartialEq, Eq, Structural)]
pub enum ChannelPostStep {
    /// Answer with the earlier post.
    Replay,
    /// Store the post.
    Insert,
}

/// Before storing: an earlier post with the same key is replayed; a failed
/// lookup is an error.
pub fn channel_idempotency_decision(lookup: Option<bool>) -> (r: Result<ChannelPostStep, HttpFailure>)
    ensures
        match lookup {
            Some(true) => r == Ok::<ChannelPostStep, HttpFailure>(ChannelPostStep::Replay),
            Some(false) => r == Ok::<ChannelPostStep, HttpFailure>(ChannelPostStep::Insert),
            None => r matches Err(f) && f.status == 500 && f.code@ == "message_lookup_failed"@,
        },
{
    match lookup {
        Some(true) => Ok(ChannelPostStep::Replay),
        Some(false) => Ok(ChannelPostStep::Insert),
        None => Err(failure(500, "message_lookup_failed", "Could not send message")),
    }
}

/// After a failed insert the key is looked up again: a concurrent post with
/// the same key is replayed, anything else is an error.
pub fn channel_insert_failed_decision(replay_found: bool) -> (r: Result<ChannelPostStep, HttpFailure>)
    ensures
        replay_found ==> r == Ok::<ChannelPostStep, HttpFailure>(ChannelPostStep::Replay),
        !replay_found ==> (r matches Err(f) && f.status == 500 && f.code@ == "message_send_failed"@),
{
    if replay_found {
        Ok(ChannelPostStep::Replay)
    } else {
        Err(failure(500, "message_send_failed", "Could not send message"))
    }
}

/// The answer to a history read's access check (`None`: the check failed):
/// only the owner and subscribers may read.
pub fn channel_history_access(access: Option<ChannelAccess>) -> (r: Result<(), HttpFailure>)
    ensures
        match access {
            Some(ChannelAccess::Owner) | Some(ChannelAccess::Subscriber) => r is Ok,
            Some(ChannelAccess::Forbidden) => r matches Err(f) && f.status == 403 && f.code@
                == "forbidden"@,
            Some(ChannelAccess::NotFound) => r matches Err(f) && f.status == 404 && f.code@
                == "channel_not_found"@,
            None => r matches Err(f) && f.status == 500 && f.code@ == "channel_access_failed"@,
        },
{
    match access {
        Some(ChannelAccess::Owner) | Some(ChannelAccess::Subscriber) => Ok(()),
        Some(ChannelAccess::Forbidden) => Err(
            failure(403, "forbidden", "User is not subscribed to this channel"),
        ),
        Some(ChannelAccess::NotFound) => Err(failure(404, "channel_not_found", "Channel not found")),
        None => Err(failure(500, "channel_access_failed", "Could not validate channel access")),
    }
}

/// The position and size of a history page: after sequence zero by default,
/// 50 messages by default, and between 1 and 50 in any case.
pub fn history_window(query: GetChannelMessagesQuery) -> (w: (i64, i64))
    ensures
        w.0 == (match query.after_seq {
            Some(a) => a,
            None => 0,
        }),
        w.1 == (match query.limit {
            Some(l) => if l < 1 {
                1
            } else if l > 50 {
                50
            } else {
                l
            },
            None => 50,
        }),
{
    let after_seq = match query.after_seq {
        Some(a) => a,
        None => 0,
    };
    let limit = match query.limit {
        Some(l) => if l < 1 {
            1
        } else if l > 50 {
            50
        } else {
            l
        },
        None => 50,
    };
    (after_seq, limit)
}

/// A page from rows fetched with one more than the limit: the first `limit`
/// rows, and whether there were more.
pub fn history_page<T>(rows: Vec<T>, limit: usize) -> (r: (Vec<T>, bool))
    ensures
        r.1 == (rows@.len() > limit),
        r.0@ == (if rows@.len() > limit { rows@.subrange(0, limit as int) } else { rows@ }),
{
    let mut messages = rows;
    let has_more = messages.len() > limit;
    if has_more {
        messages.truncate(limit);
    }
    (messages, has_more)
}

/// The name and visibility of a new channel: the name trimmed and required,
/// public unless said otherwise.
pub fn validate_channel_creation(name: &str, is_public: Option<bool>) -> (r: Result<
    (String, bool),
    HttpFailure,
>)
    ensures
        trimmed(name@).len() == 0 ==> (r matches Err(f) && f.status == 400 && f.code@
            == "invalid_channel_name"@ && f.fallback@ == "Channel name is required"@),
        trimmed(name@).len() > 0 ==> (r matches Ok((n, p)) && n@ == trimmed(name@) && p == (match is_public {
            Some(b) => b,
            None => true,
        })),
{
    let n = trim(name);
    if n.as_str().is_empty() {
        return Err(failure(400, "invalid_channel_name", "Channel name is required"));
    }
    let public = match is_public {
        Some(b) => b,
        None => true,
    };
    Ok((n, public))
}

} // verus!
