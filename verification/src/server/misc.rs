//! Small server vocabularies and decisions: backups and their schedules,
//! device deletion, context event names and the database pool's settings.

use vstd::prelude::*;
use crate::ids::{uuid_string, uuid_text};
use crate::server::failure::{failure, HttpFailure};
use crate::text::{concat, str_equal};

verus! {

#[derive(Clone, Copy, Debug, PartialEq, Eq, Structural)]
pub enum BackupFrequency {
    Daily,
    Weekly,
    Never,
}

pub open spec fn frequency_name(f: BackupFrequency) -> Seq<char> {
    match f {
        BackupFrequency::Daily => "daily"@,
        BackupFrequency::Weekly => "weekly"@,
        BackupFrequency::Never => "never"@,
    }
}

impl BackupFrequency {
    pub fn as_str(&self) -> (s: &'static str)
        ensures
            s@ == frequency_name(*self),
    {
        match self {
            BackupFrequency::Daily => "daily",
            BackupFrequency::Weekly => "weekly",
            BackupFrequency::Never => "never",
        }
    }
}

#[derive(Clone, Copy, Debug, PartialEq, Eq, Structural)]
pub struct BackupSettings {
    pub frequency: BackupFrequency,
}

#[derive(Clone, Debug, PartialEq, Eq)]
pub struct RestoreBackupResponse {
    pub download_url: String,
}

/// What happened in a conversation that agents are told about.
#[derive(Clone, Copy, Debug, PartialEq, Eq, Structural)]
pub enum ContextEventType {
    MessageCreated,
    MessageEdited,
    MessageDeleted,
    MemberJoined,
    MemberLeft,
    ThreadCreated,
    ConversationSettingsChanged,
}

pub open spec fn context_event_name(e: ContextEventType) -> Seq<char> {
    match e {
        ContextEventType::MessageCreated => "message_created"@,
        ContextEventType::MessageEdited => "message_edited"@,
        ContextEventType::MessageDeleted => "message_deleted"@,
        ContextEventType::MemberJoined => "member_joined"@,
        ContextEventType::MemberLeft => "member_left"@,
        ContextEventType::ThreadCreated => "thread_created"@,
        ContextEventType::ConversationSettingsChanged => "conversation_settings_changed"@,
    }
}

impl ContextEventType {
    pub fn as_str(self) -> (s: &'static str)
        ensures
            s@ == context_event_name(self),
    {
        match self {
            ContextEventType::MessageCreated => "message_created",
            ContextEventType::MessageEdited => "message_edited",
            ContextEventType::MessageDeleted => "message_deleted",
            ContextEventType::MemberJoined => "member_joined",
            ContextEventType::MemberLeft => "member_left",
            ContextEventType::ThreadCreated => "thread_created",
            ContextEventType::ConversationSettingsChanged => "conversation_settings_changed",
        }
    }
}

/// Most connections the database pool opens.
pub const POOL_MAX_CONNECTIONS: u32 = 20;
/// Connections the pool keeps open.
pub const POOL_MIN_CONNECTIONS: u32 = 5;
/// Seconds to wait for a free connection.
pub const POOL_ACQUIRE_TIMEOUT_SECS: u64 = 30;
/// Seconds an idle connection is kept.
pub const POOL_IDLE_TIMEOUT_SECS: u64 = 600;

/// How long a backup's upload or download link stays valid, in seconds.
pub const PRESIGNED_URL_EXPIRY_SECS: u64 = 3600;

/// A backup that was started: its id, the link to upload it to, and where it
/// is stored.
#[derive(Clone, Debug, PartialEq, Eq)]
pub struct InitiateBackupResponse {
    pub backup_id: u128,
    pub upload_url: String,
    pub s3_key: String,
}

/// A stored backup; the time in milliseconds since the epoch.
#[derive(Clone, Copy, Debug, PartialEq, Eq, Structural)]
pub struct BackupEntry {
    pub id: u128,
    pub size_bytes: i64,
    pub created_at_ms: i64,
}

#[derive(Clone, Debug, PartialEq, Eq)]
pub struct ListBackupsResponse {
    pub backups: Vec<BackupEntry>,
}

/// The schedule of a stored setting: `daily` and `weekly` as named, anything
/// else (or nothing stored) means never.
pub fn frequency_from_stored(stored: Option<&str>) -> (f: BackupFrequency)
    ensures
        f == (match stored {
            Some(t) => if t@ == "daily"@ {
                BackupFrequency::Daily
            } else if t@ == "weekly"@ {
                BackupFrequency::Weekly
            } else {
                BackupFrequency::Never
            },
            None => BackupFrequency::Never,
        }),
{
    proof {
        reveal_strlit("daily");
        reveal_strlit("weekly");
    }
    match stored {
        Some(t) => if str_equal(t, "daily") {
            BackupFrequency::Daily
        } else if str_equal(t, "weekly") {
            BackupFrequency::Weekly
        } else {
            BackupFrequency::Never
        },
        None => BackupFrequency::Never,
    }
}

/// Where a user's backup is stored: `backups/<user>/<backup>.enc`.
pub fn backup_object_key(user_id: u128, backup_id: u128) -> (k: String)
    ensures
        k@ == "backups/"@ + uuid_text(user_id) + "/"@ + uuid_text(backup_id) + ".enc"@,
{
    let a = concat("backups/", uuid_string(user_id).as_str());
    let b = concat(a.as_str(), "/");
    let c = concat(b.as_str(), uuid_string(backup_id).as_str());
    concat(c.as_str(), ".enc")
}

/// The answer to a restore once the store looked the backup up (`None`: the
/// lookup or the link failed; `Some(None)`: no such backup of this user).
pub fn restore_backup_decision(found: Option<Option<String>>) -> (r: Result<
    RestoreBackupResponse,
    HttpFailure,
>)
    ensures
        match found {
            Some(Some(url)) => r == Ok::<RestoreBackupResponse, HttpFailure>(
                RestoreBackupResponse { download_url: url },
            ),
            Some(None) => r matches Err(f) && f.status == 404 && f.code@ == "backup_not_found"@,
            None => r matches Err(f) && f.status == 500 && f.code@ == "backup_restore_failed"@,
        },
{
    match found {
        Some(Some(url)) => Ok(RestoreBackupResponse { download_url: url }),
        Some(None) => Err(failure(404, "backup_not_found", "Backup not found")),
        None => Err(failure(500, "backup_restore_failed", "Could not restore backup")),
    }
}

/// The answer to a backup deletion (`None`: it failed; `Some(false)`: no such
/// backup of this user).
pub fn delete_backup_decision(deleted: Option<bool>) -> (r: Result<(), HttpFailure>)
    ensures
        match deleted {
            Some(true) => r is Ok,
            Some(false) => r matches Err(f) && f.status == 404 && f.code@ == "backup_not_found"@,
            None => r matches Err(f) && f.status == 500 && f.code@ == "backup_delete_failed"@,
        },
{
    match deleted {
        Some(true) => Ok(()),
        Some(false) => Err(failure(404, "backup_not_found", "Backup not found")),
        None => Err(failure(500, "backup_delete_failed", "Could not delete backup")),
    }
}

/// The answer to a device deletion given the rows it removed (`None`: it
/// failed): exactly one is a deletion, anything else means no such device
/// of this user.
pub fn delete_device_decision(rows_affected: Option<u64>) -> (r: Result<(), HttpFailure>)
    ensures
        match rows_affected {
            Some(n) => if n == 1 {
                r is Ok
            } else {
                r matches Err(f) && f.status == 404 && f.code@ == "device_not_found"@
            },
            None => r matches Err(f) && f.status == 500 && f.code@ == "delete_failed"@,
        },
{
    match rows_affected {
        Some(n) => if n == 1 {
            Ok(())
        } else {
            Err(failure(404, "device_not_found", "Device not found"))
        },
        None => Err(failure(500, "delete_failed", "Failed to delete device")),
    }
}

} // verus!
