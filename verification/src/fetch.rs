use vstd::prelude::*;

verus! {

/// Why a single fetch against the home chain failed: a transient fault is
/// worth retrying (an RPC timeout, a height not yet finalized), while a
/// fatal one is caller error (a height beyond the chain's tip) and ends the
/// fetch at once.
#[derive(Clone, Copy, Debug, PartialEq, Eq, Structural)]
pub enum FetchFault {
    Transient,
    Fatal,
}

/// Bounded retrying with doubling backoff for transient fetch faults. The
/// policy only decides; the driver performing the I/O waits out the delay
/// it is handed and re-issues the call.
pub struct RetryPolicy {
    /// How many more attempts may still be made.
    pub attempts_left: u32,
    /// How long to wait before the next attempt, in milliseconds.
    pub delay_ms: u64,
}

impl RetryPolicy {
    /// A fresh policy allowing `attempts` further tries, the first after
    /// `initial_delay_ms` milliseconds.
    pub fn new(attempts: u32, initial_delay_ms: u64) -> (r: RetryPolicy)
        ensures
            r.attempts_left == attempts,
            r.delay_ms == initial_delay_ms,
    {
        RetryPolicy { attempts_left: attempts, delay_ms: initial_delay_ms }
    }

    /// Decides what a failed attempt means. A fatal fault or an exhausted
    /// attempt budget ends the fetch with nothing changed; otherwise the
    /// caller is told to wait out the current backoff, one attempt is
    /// spent, and the backoff doubles (saturating) for the round after.
    pub fn on_fault(&mut self, fault: FetchFault) -> (r: Option<u64>)
        ensures
            fault == FetchFault::Fatal ==> r is None && *final(self) == *old(self),
            fault == FetchFault::Transient && old(self).attempts_left == 0 ==> r is None
                && *final(self) == *old(self),
            fault == FetchFault::Transient && old(self).attempts_left > 0 ==> {
                &&& r == Some(old(self).delay_ms)
                &&& final(self).attempts_left == old(self).attempts_left - 1
                &&& final(self).delay_ms == (if old(self).delay_ms <= u64::MAX / 2 {
                    2 * old(self).delay_ms
                } else {
                    u64::MAX as int
                })
            },
    {
        match fault {
            FetchFault::Fatal => None,
            FetchFault::Transient => {
                if self.attempts_left == 0 {
                    None
                } else {
                    let wait = self.delay_ms;
                    self.attempts_left = self.attempts_left - 1;
                    self.delay_ms = if self.delay_ms <= u64::MAX / 2 {
                        2 * self.delay_ms
                    } else {
                        u64::MAX
                    };
                    Some(wait)
                }
            },
        }
    }
}

} // verus!
