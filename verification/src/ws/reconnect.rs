//! Exponential reconnect back-off with a bounded number of attempts.

use vstd::prelude::*;

verus! {

/// Default number of reconnect attempts before giving up.
pub const DEFAULT_MAX_ATTEMPTS: usize = 10;

/// The abstract state of a [`ReconnectionManager`].
pub struct ReconnectionModel {
    pub max_attempts: nat,
    pub delays_ms: Seq<u64>,
    pub attempts: nat,
}

/// The delay used for the attempt numbered `attempts` (counting from zero):
/// the configured delay at that position, or the last one once the list runs out.
pub open spec fn delay_for_attempt(delays_ms: Seq<u64>, attempts: nat) -> u64
    recommends
        delays_ms.len() > 0,
{
    if attempts < delays_ms.len() {
        delays_ms[attempts as int]
    } else {
        delays_ms.last()
    }
}

/// The default back-off schedule in milliseconds: 1, 2, 4, 8, 16 and 30 seconds.
pub open spec fn spec_default_retry_delays() -> Seq<u64> {
    seq![1000u64, 2000, 4000, 8000, 16000, 30000]
}

/// Builds the default back-off schedule.
pub fn default_retry_delays() -> (delays: Vec<u64>)
    ensures
        delays@ == spec_default_retry_delays(),
{
    let delays: Vec<u64> = vec![1000u64, 2000, 4000, 8000, 16000, 30000];
    delays
}

/// Tracks reconnect attempts and hands out the delay before each one.
/// Delays are in milliseconds.
pub struct ReconnectionManager {
    max_attempts: usize,
    retry_delays: Vec<u64>,
    attempts: usize,
}

impl View for ReconnectionManager {
    type V = ReconnectionModel;

    closed spec fn view(&self) -> ReconnectionModel {
        ReconnectionModel {
            max_attempts: self.max_attempts as nat,
            delays_ms: self.retry_delays@,
            attempts: self.attempts as nat,
        }
    }
}

impl ReconnectionManager {
    /// The invariant every manager keeps: a non-empty schedule and no more attempts
    /// than allowed.
    pub closed spec fn well_formed(&self) -> bool {
        &&& self@.delays_ms.len() > 0
        &&& self@.attempts <= self@.max_attempts
    }

    /// Creates a manager; an empty schedule is replaced by the default one.
    pub fn new(max_attempts: usize, retry_delays: Vec<u64>) -> (m: Self)
        ensures
            m@.max_attempts == max_attempts,
            m@.attempts == 0,
            retry_delays@.len() > 0 ==> m@.delays_ms == retry_delays@,
            retry_delays@.len() == 0 ==> m@.delays_ms == spec_default_retry_delays(),
            m.well_formed(),
    {
        let delays = if retry_delays.len() == 0 {
            default_retry_delays()
        } else {
            retry_delays
        };
        ReconnectionManager { max_attempts, retry_delays: delays, attempts: 0 }
    }

    /// The number of attempts handed out since the last reset.
    pub fn attempts(&self) -> (n: usize)
        ensures
            n == self@.attempts,
    {
        self.attempts
    }

    /// Whether another attempt is allowed.
    pub fn can_retry(&self) -> (b: bool)
        ensures
            b == (self@.attempts < self@.max_attempts),
    {
        self.attempts < self.max_attempts
    }

    /// Hands out the delay before the next attempt and counts it, or `None`
    /// once the attempts are used up (the manager is then left unchanged).
    pub fn next_delay(&mut self) -> (delay: Option<u64>)
        requires
            old(self).well_formed(),
        ensures
            final(self)@.max_attempts == old(self)@.max_attempts,
            final(self)@.delays_ms == old(self)@.delays_ms,
            old(self)@.attempts < old(self)@.max_attempts ==> {
                &&& delay == Some(delay_for_attempt(old(self)@.delays_ms, old(self)@.attempts))
                &&& final(self)@.attempts == old(self)@.attempts + 1
            },
            old(self)@.attempts >= old(self)@.max_attempts ==> {
                &&& delay is None
                &&& final(self)@.attempts == old(self)@.attempts
            },
            final(self).well_formed(),
    {
        if !self.can_retry() {
            return None;
        }
        let last = self.retry_delays.len() - 1;
        let index = if self.attempts < last { self.attempts } else { last };
        let delay = self.retry_delays[index];
        self.attempts = self.attempts + 1;
        Some(delay)
    }

    /// Resets the attempt counter after a successful connection.
    pub fn on_connected(&mut self)
        requires
            old(self).well_formed(),
        ensures
            final(self)@ == (ReconnectionModel { attempts: 0, ..old(self)@ }),
            final(self).well_formed(),
    {
        self.attempts = 0;
    }

    /// Resets the attempt counter.
    pub fn reset(&mut self)
        requires
            old(self).well_formed(),
        ensures
            final(self)@ == (ReconnectionModel { attempts: 0, ..old(self)@ }),
            final(self).well_formed(),
    {
        self.attempts = 0;
    }
}

impl Default for ReconnectionManager {
    fn default() -> (m: Self)
        ensures
            m@.max_attempts == DEFAULT_MAX_ATTEMPTS,
            m@.delays_ms == spec_default_retry_delays(),
            m@.attempts == 0,
            m.well_formed(),
    {
        ReconnectionManager::new(DEFAULT_MAX_ATTEMPTS, default_retry_delays())
    }
}

} // verus!
