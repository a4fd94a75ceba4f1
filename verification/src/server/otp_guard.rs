//! Brute-force protection for one-time codes: a phone number is locked for a
//! while after too many failed codes, and failures per client address are
//! counted in windows of the same length. Times are milliseconds since the
//! Unix epoch.

use vstd::prelude::*;
use crate::clock::now_millis;
use crate::server::strmap::StrMap;

verus! {

/// Failures before a phone number is locked, by default.
pub const DEFAULT_MAX_ATTEMPTS: u32 = 5;
/// How long a lock (and a counting window) lasts by default: 15 minutes.
pub const DEFAULT_LOCK_MS: i64 = 900_000;
/// Failures from one address within a window that count as suspicious.
pub const DEFAULT_SUSPICIOUS_IP_THRESHOLD: u32 = 5;

/// Bound on the instants and durations the guard is given (about 73 million
/// years either side of 1970, far beyond what a clock reports); it keeps all
/// arithmetic on them within `i64`.
pub const TIME_BOUND: i64 = 0x2000_0000_0000_0000;

#[derive(Clone, Copy, Debug, PartialEq, Eq, Structural)]
pub struct PhoneAttempt {
    pub failed_attempts: u32,
    pub last_failed_at_ms: i64,
    pub locked_until_ms: Option<i64>,
}

#[derive(Clone, Copy, Debug, PartialEq, Eq, Structural)]
pub struct IpAttempt {
    pub failed_attempts: u32,
    pub window_started_at_ms: i64,
}

pub open spec fn time_ok(t: i64) -> bool {
    -TIME_BOUND <= t <= TIME_BOUND
}

/// Seconds until `locked_until`, rounded toward zero, and at least one.
pub open spec fn seconds_left(locked_until: i64, now: i64) -> u64 {
    let d = locked_until - now;
    if d < 1000 { 1 } else { (d / 1000) as u64 }
}

/// Seconds from `now` until `locked_until`, at least one.
pub fn seconds_until(locked_until: i64, now: i64) -> (s: u64)
    requires
        -2 * TIME_BOUND <= locked_until <= 2 * TIME_BOUND,
        time_ok(now),
    ensures
        s == seconds_left(locked_until, now),
{
    let d = locked_until - now;
    if d < 1000 {
        1
    } else {
        (d / 1000) as u64
    }
}

/// The abstract state of an [`OtpAttemptGuard`].
pub struct GuardModel {
    pub phones: Map<Seq<char>, PhoneAttempt>,
    pub ips: Map<Seq<char>, IpAttempt>,
    pub max_attempts: u32,
    pub lock_ms: i64,
    pub suspicious_ip_threshold: u32,
}

/// Looking up the lock of a phone number at `now`: a running lock gives the
/// seconds left; an ended lock, or failures older than the lock duration,
/// are forgotten.
pub open spec fn retry_after_spec(g: GuardModel, phone: Seq<char>, now: i64) -> (GuardModel, Option<u64>) {
    if !g.phones.contains_key(phone) {
        (g, None)
    } else {
        let e = g.phones[phone];
        match e.locked_until_ms {
            Some(l) => if l > now {
                (g, Some(seconds_left(l, now)))
            } else {
                (GuardModel { phones: g.phones.remove(phone), ..g }, None)
            },
            None => if now - e.last_failed_at_ms >= g.lock_ms {
                (GuardModel { phones: g.phones.remove(phone), ..g }, None)
            } else {
                (g, None)
            },
        }
    }
}

/// The failure count of an address after one more failure at `now`: a new
/// window starts once the old one is as long as the lock duration.
pub open spec fn bump_ip_spec(ips: Map<Seq<char>, IpAttempt>, ip: Seq<char>, now: i64, lock_ms: i64) -> IpAttempt {
    let e = if ips.contains_key(ip) {
        ips[ip]
    } else {
        IpAttempt { failed_attempts: 0, window_started_at_ms: now }
    };
    let e1 = if now - e.window_started_at_ms >= lock_ms {
        IpAttempt { failed_attempts: 0, window_started_at_ms: now }
    } else {
        e
    };
    IpAttempt { failed_attempts: (e1.failed_attempts + 1) as u32, ..e1 }
}

/// Recording a failed code for a phone number from an address at `now`: the
/// address's count goes up; a running lock reports the seconds left; otherwise
/// an ended lock or failures older than the lock duration restart the count,
/// the failure is counted, and reaching the maximum locks the number for the
/// lock duration.
pub open spec fn record_failure_spec(g: GuardModel, phone: Seq<char>, ip: Seq<char>, now: i64) -> (GuardModel, Option<u64>) {
    let ips = g.ips.insert(ip, bump_ip_spec(g.ips, ip, now, g.lock_ms));
    let e0 = if g.phones.contains_key(phone) {
        g.phones[phone]
    } else {
        PhoneAttempt { failed_attempts: 0, last_failed_at_ms: now, locked_until_ms: None }
    };
    if e0.locked_until_ms matches Some(l) && l > now {
        (
            GuardModel { ips, phones: g.phones.insert(phone, e0), ..g },
            Some(seconds_left(e0.locked_until_ms->0, now)),
        )
    } else {
        let e1 = if e0.locked_until_ms is Some {
            PhoneAttempt { failed_attempts: 0, locked_until_ms: None, ..e0 }
        } else {
            e0
        };
        let count = if now - e1.last_failed_at_ms >= g.lock_ms { 0 } else { e1.failed_attempts };
        let counted = PhoneAttempt {
            failed_attempts: (count + 1) as u32,
            last_failed_at_ms: now,
            locked_until_ms: None,
        };
        if count + 1 >= g.max_attempts {
            let until = (now + g.lock_ms) as i64;
            (
                GuardModel {
                    ips,
                    phones: g.phones.insert(phone, PhoneAttempt { locked_until_ms: Some(until), ..counted }),
                    ..g
                },
                Some(seconds_left(until, now)),
            )
        } else {
            (GuardModel { ips, phones: g.phones.insert(phone, counted), ..g }, None)
        }
    }
}

/// Tracks failed one-time codes per phone number and per address.
pub struct OtpAttemptGuard {
    phone_attempts: StrMap<PhoneAttempt>,
    ip_attempts: StrMap<IpAttempt>,
    max_attempts: u32,
    lock_duration_ms: i64,
    suspicious_ip_threshold: u32,
}

impl View for OtpAttemptGuard {
    type V = GuardModel;

    closed spec fn view(&self) -> GuardModel {
        GuardModel {
            phones: self.phone_attempts@,
            ips: self.ip_attempts@,
            max_attempts: self.max_attempts,
            lock_ms: self.lock_duration_ms,
            suspicious_ip_threshold: self.suspicious_ip_threshold,
        }
    }
}

/// What the guard keeps: instants within bounds, and an unlocked number's count
/// below the maximum (or zero).
pub open spec fn guard_invariant(g: GuardModel) -> bool {
    &&& time_ok(g.lock_ms)
    &&& forall|p: Seq<char>| #[trigger] g.phones.contains_key(p) ==> {
        let e = g.phones[p];
        &&& time_ok(e.last_failed_at_ms)
        &&& (e.locked_until_ms matches Some(l) ==> -2 * TIME_BOUND <= l <= 2 * TIME_BOUND)
        &&& (e.locked_until_ms is None ==> (e.failed_attempts < g.max_attempts || e.failed_attempts == 0))
    }
    &&& forall|a: Seq<char>| #[trigger] g.ips.contains_key(a) ==> time_ok(g.ips[a].window_started_at_ms)
}

proof fn lemma_remove_phone(g: GuardModel, phone: Seq<char>)
    requires
        guard_invariant(g),
    ensures
        guard_invariant(GuardModel { phones: g.phones.remove(phone), ..g }),
{
    let h = GuardModel { phones: g.phones.remove(phone), ..g };
    assert forall|p: Seq<char>| #[trigger] h.phones.contains_key(p) implies g.phones.contains_key(p) && h.phones[p] == g.phones[p] by {}
}

impl OtpAttemptGuard {
    pub closed spec fn wf(&self) -> bool {
        &&& self.phone_attempts.wf()
        &&& self.ip_attempts.wf()
        &&& guard_invariant(self@)
    }

    /// A guard that locks after `max_attempts` failures for `lock_duration_ms`.
    pub fn new(max_attempts: u32, lock_duration_ms: i64) -> (g: Self)
        requires
            time_ok(lock_duration_ms),
        ensures
            g.wf(),
            g@.phones.is_empty(),
            g@.ips.is_empty(),
            g@.max_attempts == max_attempts,
            g@.lock_ms == lock_duration_ms,
            g@.suspicious_ip_threshold == DEFAULT_SUSPICIOUS_IP_THRESHOLD,
    {
        OtpAttemptGuard {
            phone_attempts: StrMap::new(),
            ip_attempts: StrMap::new(),
            max_attempts,
            lock_duration_ms,
            suspicious_ip_threshold: DEFAULT_SUSPICIOUS_IP_THRESHOLD,
        }
    }

    /// Five failures, fifteen minutes.
    pub fn default() -> (g: Self)
        ensures
            g.wf(),
            g@.phones.is_empty(),
            g@.ips.is_empty(),
            g@.max_attempts == DEFAULT_MAX_ATTEMPTS,
            g@.lock_ms == DEFAULT_LOCK_MS,
    {
        Self::new(DEFAULT_MAX_ATTEMPTS, DEFAULT_LOCK_MS)
    }

    /// How long a phone number stays locked at `now`, in seconds; `None` when
    /// it is not locked. Ended locks and stale failures are forgotten.
    pub fn retry_after_seconds_at(&mut self, phone: &str, now: i64) -> (r: Option<u64>)
        requires
            old(self).wf(),
            time_ok(now),
        ensures
            final(self).wf(),
            (final(self)@, r) == retry_after_spec(old(self)@, phone@, now),
    {
        let entry = match self.phone_attempts.get(phone) {
            Some(e) => e,
            None => return None,
        };
        match entry.locked_until_ms {
            Some(locked_until) => {
                if locked_until > now {
                    Some(seconds_until(locked_until, now))
                } else {
                    proof {
                        lemma_remove_phone(self@, phone@);
                    }
                    self.phone_attempts.remove(phone);
                    None
                }
            },
            None => {
                if now - entry.last_failed_at_ms >= self.lock_duration_ms {
                    proof {
                        lemma_remove_phone(self@, phone@);
                    }
                    self.phone_attempts.remove(phone);
                }
                None
            },
        }
    }

    /// Counts a failure from an address and returns the address's count in
    /// the current window.
    fn bump_ip_failures(&mut self, ip: &str, now: i64) -> (count: u32)
        requires
            old(self).wf(),
            time_ok(now),
            (if old(self)@.ips.contains_key(ip@) { old(self)@.ips[ip@].failed_attempts as int } else { 0 }) < u32::MAX,
        ensures
            final(self).wf(),
            final(self)@ == (GuardModel {
                ips: old(self)@.ips.insert(ip@, bump_ip_spec(old(self)@.ips, ip@, now, old(self)@.lock_ms)),
                ..old(self)@
            }),
            count == bump_ip_spec(old(self)@.ips, ip@, now, old(self)@.lock_ms).failed_attempts,
    {
        let mut entry = match self.ip_attempts.get(ip) {
            Some(e) => e,
            None => IpAttempt { failed_attempts: 0, window_started_at_ms: now },
        };
        if now - entry.window_started_at_ms >= self.lock_duration_ms {
            entry.failed_attempts = 0;
            entry.window_started_at_ms = now;
        }
        entry.failed_attempts = entry.failed_attempts + 1;
        self.ip_attempts.insert(ip, entry);
        entry.failed_attempts
    }

    /// Records a failed code for a phone number from an address at `now`;
    /// returns the seconds the number is locked for, if it is locked.
    pub fn record_failure_at(&mut self, phone: &str, ip: &str, now: i64) -> (r: Option<u64>)
        requires
            old(self).wf(),
            time_ok(now),
            (if old(self)@.ips.contains_key(ip@) { old(self)@.ips[ip@].failed_attempts as int } else { 0 }) < u32::MAX,
        ensures
            final(self).wf(),
            (final(self)@, r) == record_failure_spec(old(self)@, phone@, ip@, now),
    {
        let _ip_count = self.bump_ip_failures(ip, now);
        let mut entry = match self.phone_attempts.get(phone) {
            Some(e) => e,
            None => PhoneAttempt { failed_attempts: 0, last_failed_at_ms: now, locked_until_ms: None },
        };
        if let Some(locked_until) = entry.locked_until_ms {
            if locked_until > now {
                self.phone_attempts.insert(phone, entry);
                return Some(seconds_until(locked_until, now));
            }
            entry.failed_attempts = 0;
            entry.locked_until_ms = None;
        }
        if now - entry.last_failed_at_ms >= self.lock_duration_ms {
            entry.failed_attempts = 0;
        }
        entry.failed_attempts = entry.failed_attempts + 1;
        entry.last_failed_at_ms = now;
        if entry.failed_attempts >= self.max_attempts {
            let locked_until = now + self.lock_duration_ms;
            entry.locked_until_ms = Some(locked_until);
            self.phone_attempts.insert(phone, entry);
            return Some(seconds_until(locked_until, now));
        }
        self.phone_attempts.insert(phone, entry);
        None
    }

    /// Forgets a phone number's failures (after a correct code).
    pub fn reset_phone(&mut self, phone: &str)
        requires
            old(self).wf(),
        ensures
            final(self).wf(),
            final(self)@ == (GuardModel { phones: old(self)@.phones.remove(phone@), ..old(self)@ }),
    {
        proof {
            lemma_remove_phone(self@, phone@);
        }
        self.phone_attempts.remove(phone);
    }

    /// Failures from an address in its current window (zero when unknown).
    pub fn ip_failures(&self, ip: &str) -> (n: u32)
        requires
            self.wf(),
        ensures
            n == (if self@.ips.contains_key(ip@) { self@.ips[ip@].failed_attempts } else { 0 }),
    {
        match self.ip_attempts.get(ip) {
            Some(e) => e.failed_attempts,
            None => 0,
        }
    }

    /// Whether an address has failed often enough to look suspicious.
    pub fn is_suspicious_ip(&self, ip: &str) -> (b: bool)
        requires
            self.wf(),
        ensures
            b == ((if self@.ips.contains_key(ip@) { self@.ips[ip@].failed_attempts } else { 0 })
                >= self@.suspicious_ip_threshold),
    {
        self.ip_failures(ip) >= self.suspicious_ip_threshold
    }

    /// The lock of a phone number now.
    pub fn retry_after_seconds(&mut self, phone: &str) -> (r: Option<u64>)
        requires
            old(self).wf(),
        ensures
            final(self).wf(),
            exists|now: i64| time_ok(now) && #[trigger] retry_after_spec(old(self)@, phone@, now) == (final(self)@, r),
    {
        let now = now_millis();
        self.retry_after_seconds_at(phone, now)
    }

    /// Records a failed code now.
    pub fn record_failure(&mut self, phone: &str, ip: &str) -> (r: Option<u64>)
        requires
            old(self).wf(),
            (if old(self)@.ips.contains_key(ip@) { old(self)@.ips[ip@].failed_attempts as int } else { 0 }) < u32::MAX,
        ensures
            final(self).wf(),
            exists|now: i64| time_ok(now) && #[trigger] record_failure_spec(old(self)@, phone@, ip@, now) == (final(self)@, r),
    {
        let now = now_millis();
        self.record_failure_at(phone, ip, now)
    }
}

/// Once the maximum number of failures is reached within the lock duration, a
/// failure locks the number for the whole lock duration.
pub proof fn law_lock_after_max_failures(g: GuardModel, phone: Seq<char>, ip: Seq<char>, now: i64)
    requires
        guard_invariant(g),
        time_ok(now),
        g.lock_ms >= 1000,
        g.max_attempts >= 1,
        g.phones.contains_key(phone),
        g.phones[phone].locked_until_ms is None,
        now - g.phones[phone].last_failed_at_ms < g.lock_ms,
        g.phones[phone].failed_attempts + 1 == g.max_attempts,
    ensures
        record_failure_spec(g, phone, ip, now).1 == Some((g.lock_ms / 1000) as u64),
        record_failure_spec(g, phone, ip, now).0.phones[phone].locked_until_ms == Some((now + g.lock_ms) as i64),
{
}

/// A failure recorded while the number's lock is still running changes
/// nothing about the lock and answers with the seconds the lock still has
/// (at least one, rounded down), the same answer a lookup of the lock gives.
pub proof fn law_failure_during_lock_reports_time_left(g: GuardModel, phone: Seq<char>, ip: Seq<char>, now: i64)
    requires
        g.phones.contains_key(phone),
        g.phones[phone].locked_until_ms matches Some(l) && l > now,
    ensures
        record_failure_spec(g, phone, ip, now).1 matches Some(s) && s >= 1
            && (g.phones[phone].locked_until_ms->0 - now < 1000 ==> s == 1)
            && (g.phones[phone].locked_until_ms->0 - now >= 1000 ==> s * 1000 <= g.phones[phone].locked_until_ms->0 - now
                < (s + 1) * 1000),
        record_failure_spec(g, phone, ip, now).1 == retry_after_spec(g, phone, now).1,
        record_failure_spec(g, phone, ip, now).0.phones == g.phones,
{
    let l = g.phones[phone].locked_until_ms->0;
    let d = l - now;
    if d >= 1000 {
        assert((d / 1000) * 1000 <= d < (d / 1000 + 1) * 1000) by (nonlinear_arith)
            requires d >= 1000;
    }
    assert(g.phones.insert(phone, g.phones[phone]) =~= g.phones);
}

/// A failure of a number that is not locked is counted: it is the first of a
/// new count when the number had none, when its lock has ended or when its
/// last failure is as old as the lock duration, and otherwise one more than
/// before. Below the maximum it answers that the number is not locked. The
/// address's count goes up by one, or starts again at one once its window is
/// as long as the lock duration.
pub proof fn law_failure_is_counted(g: GuardModel, phone: Seq<char>, ip: Seq<char>, now: i64)
    requires
        !g.phones.contains_key(phone) || g.phones[phone].locked_until_ms is None
            || g.phones[phone].locked_until_ms->0 <= now,
        guard_invariant(g),
        g.ips.contains_key(ip) ==> g.ips[ip].failed_attempts < u32::MAX,
    ensures
        ({
            let fresh = !g.phones.contains_key(phone) || g.phones[phone].locked_until_ms is Some || now
                - g.phones[phone].last_failed_at_ms >= g.lock_ms;
            let count: int = if fresh { 1 } else { g.phones[phone].failed_attempts + 1 };
            let after = record_failure_spec(g, phone, ip, now);
            &&& after.0.phones.contains_key(phone)
            &&& after.0.phones[phone].failed_attempts == count
            &&& after.0.phones[phone].last_failed_at_ms == now
            &&& (count < g.max_attempts ==> after.1 is None && after.0.phones[phone].locked_until_ms is None)
            &&& (count >= g.max_attempts ==> after.0.phones[phone].locked_until_ms == Some((now + g.lock_ms) as i64))
            &&& forall|p: Seq<char>| p != phone ==> #[trigger] after.0.phones.contains_key(p) == g.phones.contains_key(p)
                && (g.phones.contains_key(p) ==> after.0.phones[p] == g.phones[p])
        }),
        ({
            let after = record_failure_spec(g, phone, ip, now);
            let restart = !g.ips.contains_key(ip) || now - g.ips[ip].window_started_at_ms >= g.lock_ms;
            &&& after.0.ips.contains_key(ip)
            &&& after.0.ips[ip].failed_attempts == (if restart { 1 } else { g.ips[ip].failed_attempts + 1 })
        }),
{
}

/// Looking up a running lock answers with the seconds it still has (at least
/// one, rounded down) and changes nothing.
pub proof fn law_lookup_during_lock(g: GuardModel, phone: Seq<char>, now: i64)
    requires
        g.phones.contains_key(phone),
        g.phones[phone].locked_until_ms matches Some(l) && l > now,
    ensures
        retry_after_spec(g, phone, now).0 == g,
        retry_after_spec(g, phone, now).1 matches Some(s) && s >= 1
            && (g.phones[phone].locked_until_ms->0 - now < 1000 ==> s == 1)
            && (g.phones[phone].locked_until_ms->0 - now >= 1000 ==> s * 1000 <= g.phones[phone].locked_until_ms->0 - now
                < (s + 1) * 1000),
{
    let d = g.phones[phone].locked_until_ms->0 - now;
    if d >= 1000 {
        assert((d / 1000) * 1000 <= d < (d / 1000 + 1) * 1000) by (nonlinear_arith)
            requires d >= 1000;
    }
}

/// A lock ends: once its time has passed, the number is no longer locked.
pub proof fn law_unlock_after_cooldown(g: GuardModel, phone: Seq<char>, now: i64)
    requires
        g.phones.contains_key(phone),
        g.phones[phone].locked_until_ms matches Some(l) && l <= now,
    ensures
        retry_after_spec(g, phone, now).1 is None,
        !retry_after_spec(g, phone, now).0.phones.contains_key(phone),
{
}

/// After a reset the number is not locked.
pub proof fn law_reset_unlocks(g: GuardModel, phone: Seq<char>, now: i64)
    ensures
        retry_after_spec(GuardModel { phones: g.phones.remove(phone), ..g }, phone, now).1 is None,
{
}

} // verus!
