use vstd::prelude::*;

verus! {

/// How long a loaded certificate is used before it is read again: one day,
/// in milliseconds.
pub const RELOAD_AFTER_SUCCESS_MS: u64 = 86_400_000;

/// How long after a first failed load it is tried again: one minute, in
/// milliseconds.
pub const RELOAD_AFTER_ERROR_MS: u64 = 60_000;

/// The longest wait after failed loads: one hour, in milliseconds.
pub const RELOAD_AFTER_ERROR_MAX_MS: u64 = 3_600_000;

/// When to read the TLS certificate chain and key again, as mathematical
/// values; times are milliseconds since a fixed start.
pub struct ReloadState {
    /// The time from which the next connection reloads first.
    pub next_reload: nat,
    /// How long to wait after the next failed load.
    pub fail_timeout: nat,
}

/// The wait after one more failed load: twice the last one, at most an hour.
pub open spec fn spec_next_fail_timeout(fail_timeout: nat) -> nat {
    if 2 * fail_timeout < RELOAD_AFTER_ERROR_MAX_MS {
        2 * fail_timeout
    } else {
        RELOAD_AFTER_ERROR_MAX_MS as nat
    }
}

/// The wait after the next failed load when `failures` loads in a row have
/// failed since the last success (or the start).
pub open spec fn spec_fail_timeout_after(failures: nat) -> nat
    decreases failures,
{
    if failures == 0 {
        RELOAD_AFTER_ERROR_MS as nat
    } else {
        spec_next_fail_timeout(spec_fail_timeout_after((failures - 1) as nat))
    }
}

/// The wait grows as a doubling from one minute, up to one hour: after `n`
/// failed loads in a row the next wait is `min(1 minute * 2^n, 1 hour)`.
pub proof fn lemma_backoff_doubles_to_cap(n: nat)
    ensures
        spec_fail_timeout_after(n) == (if RELOAD_AFTER_ERROR_MS * vstd::arithmetic::power2::pow2(n)
            < RELOAD_AFTER_ERROR_MAX_MS {
            RELOAD_AFTER_ERROR_MS * vstd::arithmetic::power2::pow2(n)
        } else {
            RELOAD_AFTER_ERROR_MAX_MS as int
        }),
    decreases n,
{
    if n == 0 {
        vstd::arithmetic::power2::lemma2_to64();
    } else {
        lemma_backoff_doubles_to_cap((n - 1) as nat);
        vstd::arithmetic::power2::lemma_pow2_unfold(n);
        vstd::arithmetic::power2::lemma_pow2_pos((n - 1) as nat);
    }
}

/// The schedule after a failed load at time `now`: the next try is after
/// the current wait, and the wait doubles, up to an hour.
pub open spec fn spec_record_failure(s: ReloadState, now: nat) -> ReloadState {
    ReloadState { next_reload: now + s.fail_timeout, fail_timeout: spec_next_fail_timeout(s.fail_timeout) }
}

/// The schedule after failed loads at the times in `times`, in order.
pub open spec fn spec_failures(s: ReloadState, times: Seq<nat>) -> ReloadState
    decreases times.len(),
{
    if times.len() == 0 {
        s
    } else {
        spec_record_failure(spec_failures(s, times.drop_last()), times.last())
    }
}

/// Failed loads in a row: starting from a schedule whose wait is one minute
/// (a fresh one, or one right after a successful load), after `k >= 1`
/// failures at the times in `times` the wait is `spec_fail_timeout_after(k)`
/// (that is, `min(1 minute * 2^k, 1 hour)`, see
/// `lemma_backoff_doubles_to_cap`), the next try comes
/// `spec_fail_timeout_after(k - 1)` after the last failure, and the wait
/// stays between a minute and an hour.
pub proof fn lemma_failures_in_a_row(s: ReloadState, times: Seq<nat>)
    requires
        s.fail_timeout == RELOAD_AFTER_ERROR_MS,
        times.len() >= 1,
    ensures
        spec_failures(s, times).fail_timeout == spec_fail_timeout_after(times.len()),
        spec_failures(s, times).next_reload == times.last() + spec_fail_timeout_after(
            (times.len() - 1) as nat,
        ),
        spec_failures(s, times).wf(),
    decreases times.len(),
{
    let before = times.drop_last();
    let k = times.len();
    if k > 1 {
        lemma_failures_in_a_row(s, before);
        assert(spec_fail_timeout_after(k) == spec_next_fail_timeout(spec_fail_timeout_after((k - 1) as nat)));
    } else {
        assert(before.len() == 0);
        assert(spec_failures(s, before) == s);
        assert(spec_fail_timeout_after(1) == spec_next_fail_timeout(spec_fail_timeout_after(0)));
    }
}

/// The reload schedule of the TLS certificate: after a successful load the
/// next one is due in a day; after a failed one it is retried after a wait
/// that starts at a minute and doubles with each failure, up to an hour.
#[derive(Debug, Clone, Copy)]
pub struct ReloadSchedule {
    next_reload: u64,
    fail_timeout: u64,
}

impl View for ReloadSchedule {
    type V = ReloadState;

    closed spec fn view(&self) -> ReloadState {
        ReloadState { next_reload: self.next_reload as nat, fail_timeout: self.fail_timeout as nat }
    }
}

impl ReloadState {
    /// What every schedule satisfies: the wait after a failure is between a
    /// minute and an hour.
    pub open spec fn wf(self) -> bool {
        RELOAD_AFTER_ERROR_MS <= self.fail_timeout <= RELOAD_AFTER_ERROR_MAX_MS
    }
}

impl ReloadSchedule {
    #[verifier::type_invariant]
    spec fn well_formed(self) -> bool {
        self@.wf()
    }

    /// The schedule right after a successful load at time `now`.
    pub fn new(now: u64) -> (s: ReloadSchedule)
        requires
            now + RELOAD_AFTER_SUCCESS_MS <= u64::MAX,
        ensures
            s@ == (ReloadState {
                next_reload: (now + RELOAD_AFTER_SUCCESS_MS) as nat,
                fail_timeout: RELOAD_AFTER_ERROR_MS as nat,
            }),
            s@.wf(),
    {
        ReloadSchedule { next_reload: now + RELOAD_AFTER_SUCCESS_MS, fail_timeout: RELOAD_AFTER_ERROR_MS }
    }

    /// Whether a connection that arrives at time `now` reloads first.
    pub fn is_due(&self, now: u64) -> (r: bool)
        ensures
            r == (now >= self@.next_reload),
    {
        now >= self.next_reload
    }

    /// The time from which the next connection reloads first.
    pub fn next_reload(&self) -> (r: u64)
        ensures
            r == self@.next_reload,
    {
        self.next_reload
    }

    /// The wait after the next failed load.
    pub fn fail_timeout(&self) -> (r: u64)
        ensures
            r == self@.fail_timeout,
            self@.wf(),
    {
        proof {
            use_type_invariant(self);
        }
        self.fail_timeout
    }

    /// Records a successful load at time `now`: the next is due in a day,
    /// and the wait after a failure is back to a minute.
    pub fn record_success(&mut self, now: u64)
        requires
            now + RELOAD_AFTER_SUCCESS_MS <= u64::MAX,
        ensures
            final(self)@ == (ReloadState {
                next_reload: (now + RELOAD_AFTER_SUCCESS_MS) as nat,
                fail_timeout: RELOAD_AFTER_ERROR_MS as nat,
            }),
            final(self)@.wf(),
    {
        proof {
            use_type_invariant(&*self);
        }
        self.next_reload = now + RELOAD_AFTER_SUCCESS_MS;
        self.fail_timeout = RELOAD_AFTER_ERROR_MS;
    }

    /// Records a failed load at time `now`: the next try is after the
    /// current wait, and the wait doubles, up to an hour.
    pub fn record_failure(&mut self, now: u64)
        requires
            now + old(self)@.fail_timeout <= u64::MAX,
        ensures
            final(self)@ == spec_record_failure(old(self)@, now as nat),
            final(self)@.wf(),
    {
        proof {
            use_type_invariant(&*self);
        }
        self.next_reload = now + self.fail_timeout;
        let doubled = self.fail_timeout * 2;
        self.fail_timeout = if doubled < RELOAD_AFTER_ERROR_MAX_MS {
            doubled
        } else {
            RELOAD_AFTER_ERROR_MAX_MS
        };
    }
}

} // verus!
