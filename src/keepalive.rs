use vstd::prelude::*;

verus! {

/// Largest number of unanswered pings that still lengthen the wait.
pub const MAX_MISSED: u8 = 5;

/// Seconds added to the wait for each unanswered ping.
pub const STEP_SECS: u64 = 10;

/// Largest base interval for which the longest wait fits in `u64`.
pub const MAX_BASE_INTERVAL: u64 = 18446744073709551565;

/// Time until the next ping: the base interval, lengthened by ten seconds for
/// each ping that went unanswered, up to five of them.
#[derive(Debug, Clone, Copy, PartialEq, Eq, Structural)]
pub struct Keepalive {
    missed: u8,
    base_interval: u64,
}

/// The wait in seconds for a base interval and a count of unanswered pings.
pub open spec fn interval(base: int, missed: int) -> int {
    base + STEP_SECS * missed
}

impl Keepalive {
    pub closed spec fn missed_count(self) -> int {
        self.missed as int
    }

    pub closed spec fn base(self) -> int {
        self.base_interval as int
    }

    pub open spec fn wf(self) -> bool {
        &&& 0 <= self.missed_count() <= MAX_MISSED
        &&& 0 <= self.base() <= MAX_BASE_INTERVAL
    }

    pub open spec fn wait(self) -> int {
        interval(self.base(), self.missed_count())
    }

    /// The state after a ping went out and nothing answered it yet.
    pub closed spec fn delayed(self) -> Keepalive {
        Keepalive {
            missed: if self.missed < MAX_MISSED { (self.missed + 1) as u8 } else { self.missed },
            base_interval: self.base_interval,
        }
    }

    /// The state after the peer answered.
    pub closed spec fn refreshed(self) -> Keepalive {
        Keepalive { missed: 0, base_interval: self.base_interval }
    }

    pub proof fn lemma_delayed(self)
        requires
            self.wf(),
        ensures
            self.delayed().wf(),
            self.delayed().base() == self.base(),
            self.delayed().missed_count() == if self.missed_count() < MAX_MISSED {
                self.missed_count() + 1
            } else {
                self.missed_count()
            },
    {
    }

    pub proof fn lemma_refreshed(self)
        requires
            self.wf(),
        ensures
            self.refreshed().wf(),
            self.refreshed().base() == self.base(),
            self.refreshed().missed_count() == 0,
    {
    }

    pub fn new(base_interval: u64) -> (r: Keepalive)
        requires
            base_interval <= MAX_BASE_INTERVAL,
        ensures
            r.wf(),
            r.base() == base_interval,
            r.missed_count() == 0,
    {
        Keepalive { missed: 0, base_interval }
    }

    /// Records a ping that went out unanswered.
    pub fn delay(&mut self)
        requires
            old(self).wf(),
        ensures
            *final(self) == old(self).delayed(),
            final(self).wf(),
            final(self).base() == old(self).base(),
            final(self).missed_count() == if old(self).missed_count() < MAX_MISSED {
                old(self).missed_count() + 1
            } else {
                old(self).missed_count()
            },
    {
        if self.missed < MAX_MISSED {
            self.missed = self.missed + 1;
        }
    }

    /// Records a liveness answer: the wait falls back to the base interval.
    pub fn reset(&mut self)
        requires
            old(self).wf(),
        ensures
            *final(self) == old(self).refreshed(),
            final(self).wf(),
            final(self).base() == old(self).base(),
            final(self).missed_count() == 0,
    {
        self.missed = 0;
    }

    /// Seconds to wait before the next ping.
    pub fn wait_secs(&self) -> (r: u64)
        requires
            self.wf(),
        ensures
            r == self.wait(),
    {
        self.base_interval + STEP_SECS * (self.missed as u64)
    }

    pub fn missed(&self) -> (r: u8)
        ensures
            r == self.missed_count(),
    {
        self.missed
    }

    pub fn base_interval(&self) -> (r: u64)
        ensures
            r == self.base(),
    {
        self.base_interval
    }
}

/// The wait never shrinks while pings go unanswered, never exceeds the base
/// interval plus fifty seconds, and an answer brings it back to the base
/// interval exactly.
pub proof fn lemma_keepalive_wait(k: Keepalive)
    requires
        k.wf(),
    ensures
        k.wait() <= k.delayed().wait(),
        k.delayed().wait() <= k.base() + 50,
        k.wait() <= k.base() + 50,
        k.base() <= k.wait(),
        k.refreshed().wait() == k.base(),
{
    k.lemma_delayed();
    k.lemma_refreshed();
}

/// The state after `n` pings in a row went unanswered.
pub open spec fn delayed_times(k: Keepalive, n: nat) -> Keepalive
    decreases n,
{
    if n == 0 {
        k
    } else {
        delayed_times(k, (n - 1) as nat).delayed()
    }
}

/// From a freshly answered state, after `n` unanswered pings `min(n, 5)` of
/// them count as missed.
pub proof fn lemma_delayed_times(k: Keepalive, n: nat)
    requires
        k.wf(),
        k.missed_count() == 0,
    ensures
        delayed_times(k, n).wf(),
        delayed_times(k, n).base() == k.base(),
        delayed_times(k, n).missed_count() == if n < 5 { n as int } else { 5 },
        delayed_times(k, n).wait() == k.base() + STEP_SECS * (if n < 5 { n as int } else { 5 }),
    decreases n,
{
    if n > 0 {
        lemma_delayed_times(k, (n - 1) as nat);
        delayed_times(k, (n - 1) as nat).lemma_delayed();
    }
}

/// Over consecutive unanswered firings the wait is non-decreasing and stays
/// within the base interval plus fifty seconds.
pub proof fn lemma_keepalive_monotone(k: Keepalive, n: nat, m: nat)
    requires
        k.wf(),
        k.missed_count() == 0,
        n <= m,
    ensures
        delayed_times(k, n).wait() <= delayed_times(k, m).wait(),
        delayed_times(k, m).wait() <= k.base() + 50,
        delayed_times(k, 0).wait() == k.base(),
{
    lemma_delayed_times(k, n);
    lemma_delayed_times(k, m);
}

} // verus!
