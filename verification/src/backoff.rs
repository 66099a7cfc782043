//! Exponential backoff for venue rate limits.
//!
//! A caller that hits a rate limit backs off for one second, doubling on
//! each consecutive error up to a minute, and resets on the first
//! success.  While the backoff is active the caller's cycle is skipped.

use vstd::prelude::*;

verus! {

/// Longest backoff, in seconds.
pub const BACKOFF_CAP_SECS: u64 = 60;

/// The backoff after `n` consecutive errors: zero before the first
/// error, one second after it, doubling per error, capped at a minute.
pub open spec fn spec_backoff_secs(n: nat) -> nat
    decreases n,
{
    if n == 0 {
        0
    } else if n == 1 {
        1
    } else {
        let prev = spec_backoff_secs((n - 1) as nat);
        if 2 * prev >= BACKOFF_CAP_SECS {
            BACKOFF_CAP_SECS as nat
        } else {
            2 * prev
        }
    }
}

/// The backoff never exceeds the cap.
pub proof fn lemma_backoff_secs_capped(n: nat)
    ensures
        spec_backoff_secs(n) <= BACKOFF_CAP_SECS,
    decreases n,
{
    if n > 1 {
        lemma_backoff_secs_capped((n - 1) as nat);
    }
}

/// Per-caller rate-limit tracker.
#[derive(Debug)]
pub struct RateLimitTracker {
    consecutive_errors: u32,
    current_backoff_secs: u64,
    backoff_until_ms: Option<u64>,
}

impl RateLimitTracker {
    /// Number of consecutive errors recorded.
    pub closed spec fn errors(self) -> u32 {
        self.consecutive_errors
    }

    /// Current backoff, in seconds.
    pub closed spec fn backoff_secs(self) -> u64 {
        self.current_backoff_secs
    }

    /// When the backoff ends, in milliseconds, if one is active.
    pub closed spec fn until_ms(self) -> Option<u64> {
        self.backoff_until_ms
    }

    /// The stored backoff matches the error count and no backoff is
    /// active before the first error.
    pub open spec fn wf(self) -> bool {
        &&& self.backoff_secs() == spec_backoff_secs(self.errors() as nat)
        &&& self.backoff_secs() <= BACKOFF_CAP_SECS
        &&& (self.errors() == 0 ==> self.until_ms() is None)
    }

    /// Fresh tracker: no errors, no backoff.
    pub fn new() -> (r: Self)
        ensures
            r.wf(),
            r.errors() == 0,
            r.backoff_secs() == 0,
            r.until_ms() is None,
    {
        RateLimitTracker { consecutive_errors: 0, current_backoff_secs: 0, backoff_until_ms: None }
    }

    /// Whether the caller's cycle must be skipped: a backoff is active
    /// and its end lies in the future.
    pub fn should_skip(&self, now_ms: u64) -> (r: bool)
        ensures
            r == (match self.until_ms() {
                Some(t) => now_ms < t,
                None => false,
            }),
    {
        match self.backoff_until_ms {
            Some(t) => now_ms < t,
            None => false,
        }
    }

    /// Record a success: the error count and the backoff reset.
    pub fn record_success(&mut self)
        ensures
            final(self).wf(),
            final(self).errors() == 0,
            final(self).backoff_secs() == 0,
            final(self).until_ms() is None,
    {
        self.consecutive_errors = 0;
        self.current_backoff_secs = 0;
        self.backoff_until_ms = None;
    }

    /// Record a rate-limit error: the count rises, the backoff starts at
    /// one second, doubles per consecutive error and caps at a minute,
    /// and it runs from now.
    pub fn record_error(&mut self, now_ms: u64)
        requires
            old(self).wf(),
            old(self).errors() < u32::MAX,
            now_ms <= u64::MAX - 1000 * BACKOFF_CAP_SECS,
        ensures
            final(self).wf(),
            final(self).errors() == old(self).errors() + 1,
            final(self).backoff_secs() == spec_backoff_secs((old(self).errors() + 1) as nat),
            final(self).until_ms() == Some(
                (now_ms + 1000 * final(self).backoff_secs()) as u64,
            ),
    {
        self.consecutive_errors = self.consecutive_errors + 1;
        if self.consecutive_errors == 1 {
            self.current_backoff_secs = 1;
        } else {
            let doubled = 2 * self.current_backoff_secs;
            self.current_backoff_secs = if doubled >= BACKOFF_CAP_SECS {
                BACKOFF_CAP_SECS
            } else {
                doubled
            };
        }
        self.backoff_until_ms = Some(now_ms + 1000 * self.current_backoff_secs);
    }

    /// The current backoff, in seconds.
    pub fn get_backoff_secs(&self) -> (r: u64)
        ensures
            r == self.backoff_secs(),
    {
        self.current_backoff_secs
    }

    /// The number of consecutive errors recorded.
    pub fn consecutive_errors(&self) -> (r: u32)
        ensures
            r == self.errors(),
    {
        self.consecutive_errors
    }

    /// Whole seconds of backoff remaining, zero when none is active.
    pub fn remaining_backoff_secs(&self, now_ms: u64) -> (r: u64)
        ensures
            r == (match self.until_ms() {
                Some(t) => if now_ms < t {
                    ((t - now_ms) / 1000) as int
                } else {
                    0
                },
                None => 0,
            }),
    {
        match self.backoff_until_ms {
            Some(t) => {
                if now_ms < t {
                    (t - now_ms) / 1000
                } else {
                    0
                }
            },
            None => 0,
        }
    }
}

} // verus!
