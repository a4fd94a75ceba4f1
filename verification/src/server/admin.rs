//! Administration: roles and their order, the request and response bodies of
//! the admin endpoints, and their decisions.

use vstd::prelude::*;
use crate::server::failure::{failure, HttpFailure};
use crate::text::{str_equal, trim, trimmed};

verus! {

/// An administrative role; later roles include the earlier ones.
#[derive(Clone, Copy, Debug, PartialEq, Eq, PartialOrd, Ord, Hash, Structural)]
pub enum AdminRole {
    Moderator,
    Admin,
    SuperAdmin,
}

/// The rank of a role: moderator 1, admin 2, super admin 3.
pub open spec fn role_level(r: AdminRole) -> int {
    match r {
        AdminRole::Moderator => 1,
        AdminRole::Admin => 2,
        AdminRole::SuperAdmin => 3,
    }
}

/// The stored name of a role.
pub open spec fn role_name(r: AdminRole) -> Seq<char> {
    match r {
        AdminRole::Moderator => "moderator"@,
        AdminRole::Admin => "admin"@,
        AdminRole::SuperAdmin => "super_admin"@,
    }
}

impl AdminRole {
    /// The role with a stored name; `None` for any other text.
    pub fn from_str(s: &str) -> (r: Option<Self>)
        ensures
            match r {
                Some(role) => role_name(role) == s@,
                None => forall|role: AdminRole| role_name(role) != s@,
            },
    {
        proof {
            reveal_strlit("moderator");
            reveal_strlit("admin");
            reveal_strlit("super_admin");
        }
        if str_equal(s, "moderator") {
            Some(AdminRole::Moderator)
        } else if str_equal(s, "admin") {
            Some(AdminRole::Admin)
        } else if str_equal(s, "super_admin") {
            Some(AdminRole::SuperAdmin)
        } else {
            proof {
                assert forall|role: AdminRole| role_name(role) != s@ by {
                    match role {
                        AdminRole::Moderator => {},
                        AdminRole::Admin => {},
                        AdminRole::SuperAdmin => {},
                    }
                }
            }
            None
        }
    }

    /// The rank of the role.
    pub fn level(self) -> (l: u8)
        ensures
            l == role_level(self),
    {
        match self {
            AdminRole::Moderator => 1,
            AdminRole::Admin => 2,
            AdminRole::SuperAdmin => 3,
        }
    }

    /// Whether this role includes `required`.
    pub fn includes(self, required: AdminRole) -> (b: bool)
        ensures
            b == (role_level(self) >= role_level(required)),
    {
        self.level() >= required.level()
    }
}

/// Whether a stored role name grants a required role: a known role of at
/// least that rank.
pub fn role_grants(stored: Option<&str>, required: AdminRole) -> (b: bool)
    ensures
        b == (match stored {
            Some(s) => exists|role: AdminRole| #[trigger] role_name(role) == s@ && role_level(role)
                >= role_level(required),
            None => false,
        }),
{
    match stored {
        None => false,
        Some(s) => match AdminRole::from_str(s) {
            Some(actual) => {
                let b = actual.includes(required);
                proof {
                    reveal_strlit("moderator");
                    reveal_strlit("admin");
                    reveal_strlit("super_admin");
                    if !b {
                        assert forall|role: AdminRole| #[trigger] role_name(role) == s@ implies role_level(role) < role_level(required) by {
                            assert("moderator"@.len() == 9);
                            assert("admin"@.len() == 5);
                            assert("super_admin"@.len() == 11);
                            assert(role_name(role).len() == role_name(actual).len());
                            match role {
                                AdminRole::Moderator => {},
                                AdminRole::Admin => {},
                                AdminRole::SuperAdmin => {},
                            }
                            match actual {
                                AdminRole::Moderator => {},
                                AdminRole::Admin => {},
                                AdminRole::SuperAdmin => {},
                            }
                        }
                    }
                }
                b
            },
            None => false,
        },
    }
}

/// The role check of an admin endpoint: `None` means the check failed.
pub fn require_role_decision(granted: Option<bool>) -> (r: Result<(), HttpFailure>)
    ensures
        match granted {
            Some(true) => r is Ok,
            Some(false) => r matches Err(f) && f.status == 403 && f.code@ == "forbidden"@
                && f.fallback@ == "Admin access required"@,
            None => r matches Err(f) && f.status == 500 && f.code@ == "admin_check_failed"@,
        },
{
    match granted {
        Some(true) => Ok(()),
        Some(false) => Err(failure(403, "forbidden", "Admin access required")),
        None => Err(failure(500, "admin_check_failed", "Could not verify admin status")),
    }
}

/// The page a listing starts at when none is given.
pub fn default_page() -> (p: i64)
    ensures
        p == 1,
{
    1
}

/// The page size of a listing when none is given.
pub fn default_limit() -> (l: i64)
    ensures
        l == 20,
{
    20
}

#[derive(Clone, Debug, PartialEq, Eq)]
pub struct AdminUserListQuery {
    pub page: i64,
    pub limit: i64,
    pub search: Option<String>,
}

impl AdminUserListQuery {
    /// The query with every field left out.
    pub fn defaults() -> (q: Self)
        ensures
            q.page == 1,
            q.limit == 20,
            q.search is None,
    {
        AdminUserListQuery { page: default_page(), limit: default_limit(), search: None }
    }
}

#[derive(Clone, Debug, PartialEq, Eq)]
pub struct RejectAgentRequest {
    pub reason: String,
}

#[derive(Clone, Copy, Debug, PartialEq, Eq, Structural)]
pub struct AgentActionResponse {
    pub success: bool,
}

#[derive(Clone, Debug, PartialEq, Eq)]
pub struct ResolveReportRequest {
    pub action: String,
    pub reason: Option<String>,
}

#[derive(Clone, Copy, Debug, PartialEq, Eq, Structural)]
pub struct ResolveReportResponse {
    pub resolved: bool,
}

#[derive(Clone, Debug, PartialEq, Eq)]
pub struct CreateSpamPatternRequest {
    pub keyword: String,
}

#[derive(Clone, Debug, PartialEq, Eq)]
pub struct CreateSpamPatternResponse {
    pub id: i32,
    pub keyword: String,
}

#[derive(Clone, Copy, Debug, PartialEq, Eq, Structural)]
pub struct DashboardMetrics {
    pub total_users: i64,
    pub dau: i64,
    pub wau: i64,
    pub total_messages_today: i64,
    pub ws_connections: usize,
    pub pending_reports: i64,
}

/// The actions a report can be resolved with.
pub open spec fn is_report_action(a: Seq<char>) -> bool {
    a == "warn"@ || a == "suspend"@ || a == "delete"@ || a == "dismiss"@
}

/// Checks a report resolution's action.
pub fn validate_report_action(action: &str) -> (r: Result<(), HttpFailure>)
    ensures
        is_report_action(action@) ==> r is Ok,
        !is_report_action(action@) ==> (r matches Err(f) && f.status == 400 && f.code@
            == "invalid_action"@ && f.fallback@ == "Action must be warn, suspend, delete, or dismiss"@),
{
    proof {
        reveal_strlit("warn");
        reveal_strlit("suspend");
        reveal_strlit("delete");
        reveal_strlit("dismiss");
    }
    if str_equal(action, "warn") || str_equal(action, "suspend") || str_equal(action, "delete")
        || str_equal(action, "dismiss") {
        Ok(())
    } else {
        Err(failure(400, "invalid_action", "Action must be warn, suspend, delete, or dismiss"))
    }
}

/// The answer once the store tried to resolve a pending report: `Some(true)`
/// resolved it, `Some(false)` found no pending report, `None` failed.
pub fn resolve_report_decision(updated: Option<bool>) -> (r: Result<ResolveReportResponse, HttpFailure>)
    ensures
        match updated {
            Some(true) => r == Ok::<ResolveReportResponse, HttpFailure>(
                ResolveReportResponse { resolved: true },
            ),
            Some(false) => r matches Err(f) && f.status == 404 && f.code@ == "not_found"@,
            None => r matches Err(f) && f.status == 500 && f.code@ == "internal_error"@,
        },
{
    match updated {
        Some(true) => Ok(ResolveReportResponse { resolved: true }),
        Some(false) => Err(failure(404, "not_found", "Report not found or already resolved")),
        None => Err(failure(500, "internal_error", "Could not resolve report")),
    }
}

/// Filters of the audit log listing; times in milliseconds since the epoch.
#[derive(Clone, Debug, PartialEq, Eq)]
pub struct AuditLogQuery {
    pub page: i64,
    pub limit: i64,
    pub actor_id: Option<u128>,
    pub action: Option<String>,
    pub from_ms: Option<i64>,
    pub to_ms: Option<i64>,
}

impl AuditLogQuery {
    /// The query with every field left out.
    pub fn defaults() -> (q: Self)
        ensures
            q.page == 1,
            q.limit == 20,
            q.actor_id is None,
            q.action is None,
            q.from_ms is None,
            q.to_ms is None,
    {
        AuditLogQuery {
            page: default_page(),
            limit: default_limit(),
            actor_id: None,
            action: None,
            from_ms: None,
            to_ms: None,
        }
    }
}

/// The rows a listing page asks for: at most 100, starting after the rows of
/// the earlier pages (pages count from one; earlier ones count as the first).
pub open spec fn page_offset(page: i64, limit: i64) -> int {
    (if page - 1 >= 0 { page - 1 } else { 0 }) * limit
}

/// The limit and offset of a listing page.
pub fn page_window(page: i64, limit: i64) -> (w: (i64, i64))
    requires
        i64::MIN <= page_offset(page, limit) <= i64::MAX,
    ensures
        w.0 == (if limit <= 100 { limit } else { 100 }),
        w.1 == page_offset(page, limit),
{
    let before: i64 = if page >= 1 { page - 1 } else { 0 };
    let offset = before * limit;
    let capped = if limit <= 100 { limit } else { 100 };
    (capped, offset)
}

/// The keyword of a new spam pattern, trimmed; a blank one is refused.
pub fn validate_spam_keyword(keyword: &str) -> (r: Result<String, HttpFailure>)
    ensures
        trimmed(keyword@).len() == 0 ==> (r matches Err(f) && f.status == 400 && f.code@
            == "invalid_keyword"@ && f.fallback@ == "Keyword is required"@),
        trimmed(keyword@).len() > 0 ==> (r matches Ok(k) && k@ == trimmed(keyword@)),
{
    let k = trim(keyword);
    if k.as_str().is_empty() {
        Err(failure(400, "invalid_keyword", "Keyword is required"))
    } else {
        Ok(k)
    }
}

/// An administrative action on an agent.
#[derive(Clone, Copy, Debug, PartialEq, Eq, Structural)]
pub enum AgentAdminAction {
    Approve,
    Reject,
    Deactivate,
}

/// The audit log action of an administrative action on an agent.
pub fn agent_action_log_name(action: AgentAdminAction) -> (n: &'static str)
    ensures
        n@ == (match action {
            AgentAdminAction::Approve => "agent.approve"@,
            AgentAdminAction::Reject => "agent.reject"@,
            AgentAdminAction::Deactivate => "agent.deactivate"@,
        }),
{
    match action {
        AgentAdminAction::Approve => "agent.approve",
        AgentAdminAction::Reject => "agent.reject",
        AgentAdminAction::Deactivate => "agent.deactivate",
    }
}

/// The answer once the store applied an action to an agent: `Some(true)`
/// changed it, `Some(false)` found no such agent in the required state,
/// `None` failed.
pub fn agent_action_decision(action: AgentAdminAction, updated: Option<bool>) -> (r: Result<
    AgentActionResponse,
    HttpFailure,
>)
    ensures
        match updated {
            Some(true) => r == Ok::<AgentActionResponse, HttpFailure>(
                AgentActionResponse { success: true },
            ),
            Some(false) => r matches Err(f) && f.status == 404 && f.code@ == "agent_not_found"@
                && f.fallback@ == (if action == AgentAdminAction::Approve {
                "Agent not found or already public"@
            } else {
                "Agent not found"@
            }),
            None => r matches Err(f) && f.status == 500 && f.code@ == "internal_error"@
                && f.fallback@ == (match action {
                AgentAdminAction::Approve => "Could not approve agent"@,
                AgentAdminAction::Reject => "Could not reject agent"@,
                AgentAdminAction::Deactivate => "Could not deactivate agent"@,
            }),
        },
{
    match updated {
        Some(true) => Ok(AgentActionResponse { success: true }),
        Some(false) => match action {
            AgentAdminAction::Approve => Err(
                failure(404, "agent_not_found", "Agent not found or already public"),
            ),
            _ => Err(failure(404, "agent_not_found", "Agent not found")),
        },
        None => match action {
            AgentAdminAction::Approve => Err(failure(500, "internal_error", "Could not approve agent")),
            AgentAdminAction::Reject => Err(failure(500, "internal_error", "Could not reject agent")),
            AgentAdminAction::Deactivate => Err(
                failure(500, "internal_error", "Could not deactivate agent"),
            ),
        },
    }
}

} // verus!
