//! The device-code polling schedule (RFC 8628 semantics).
//!
//! The schedule owns the interval, the `slow_down` back-off, the expiry
//! deadline, and cancellation. The caller performs each poll and each sleep,
//! and reports what happened; [`DeviceCodePoller`] decides what comes next.
//! Durations are whole milliseconds.

use vstd::prelude::*;

verus! {

/// Outcome of one poll of the device-authorization endpoint.
#[derive(Debug, Clone, PartialEq, Eq)]
pub enum DeviceCodePoll<T> {
    /// Authorization completed; carries the provider's result.
    Complete(T),
    /// The user has not finished authorizing yet.
    Pending,
    /// The server asked the client to poll less often.
    SlowDown {
        /// A server-supplied replacement interval in seconds, when one was
        /// given.
        interval_seconds: Option<u64>,
    },
    /// Authorization cannot complete; carries the reason.
    Failed(DeviceCodeFailure),
}

/// Why a device-code authorization ended without a credential.
#[derive(Debug, Clone, PartialEq, Eq)]
pub enum DeviceCodeFailure {
    /// The user declined the authorization.
    Denied,
    /// The code expired before the user finished.
    Expired,
    /// The attempt was cancelled from within jinn.
    Cancelled,
    /// The provider replied with something unusable.
    Provider(String),
}

/// Lower bound on the polling interval, so a misreported interval cannot turn
/// into a busy loop (one second).
pub const MINIMUM_INTERVAL_MS: u64 = 1000;

/// RFC 8628 §3.5: each `slow_down` increases the interval by five seconds.
pub const SLOW_DOWN_INCREMENT_MS: u64 = 5000;

/// How long a device-code authorization may run and how often to poll.
#[derive(Debug, Clone, Copy, PartialEq, Eq, Structural)]
pub struct DeviceCodeSchedule {
    /// Initial interval between polls, in milliseconds.
    pub interval_ms: u64,
    /// Total time the user has to authorize, in milliseconds.
    pub expires_in_ms: u64,
}

/// What the caller does after a poll.
#[derive(Debug)]
pub enum PollStep<T> {
    /// The authorization is over, with this result.
    Finished(Result<T, DeviceCodeFailure>),
    /// Sleep this many milliseconds (waking early on cancellation), then
    /// report back through [`DeviceCodePoller::after_wait`].
    Wait(u64),
}

/// The state of one device-code polling loop.
#[derive(Debug, Clone, Copy, PartialEq, Eq, Structural)]
pub struct DeviceCodePoller {
    /// Current interval between polls.
    pub interval_ms: u64,
    /// Time left before the code expires, as far as the loop has accounted.
    pub remaining_ms: u64,
    /// The schedule's total lifetime.
    pub expires_in_ms: u64,
}

/// `a + b`, saturating at `u64::MAX`.
pub open spec fn sat_add(a: u64, b: u64) -> u64 {
    if a + b > u64::MAX {
        u64::MAX
    } else {
        (a + b) as u64
    }
}

/// `a - b`, saturating at zero.
pub open spec fn sat_sub(a: u64, b: u64) -> u64 {
    if a >= b {
        (a - b) as u64
    } else {
        0
    }
}

/// `n` seconds in milliseconds, saturating at `u64::MAX`.
pub open spec fn seconds_ms(n: u64) -> u64 {
    if n * 1000 > u64::MAX {
        u64::MAX
    } else {
        (n * 1000) as u64
    }
}

/// The larger of two values.
pub open spec fn max_u64(a: u64, b: u64) -> u64 {
    if a >= b {
        a
    } else {
        b
    }
}

/// The smaller of two values.
pub open spec fn min_u64(a: u64, b: u64) -> u64 {
    if a <= b {
        a
    } else {
        b
    }
}

/// The interval after a `slow_down` response.
pub open spec fn slowed_interval(interval_ms: u64, interval_seconds: Option<u64>) -> u64 {
    match interval_seconds {
        Some(s) => max_u64(seconds_ms(s), MINIMUM_INTERVAL_MS),
        None => sat_add(interval_ms, SLOW_DOWN_INCREMENT_MS),
    }
}

impl DeviceCodePoller {
    /// The loop's invariant: the interval never drops below the minimum and
    /// the accounted time never exceeds the lifetime.
    pub open spec fn wf(self) -> bool {
        &&& self.interval_ms >= MINIMUM_INTERVAL_MS
        &&& self.remaining_ms <= self.expires_in_ms
    }

    /// Starts a loop for `schedule`.
    pub fn new(schedule: DeviceCodeSchedule) -> (p: DeviceCodePoller)
        ensures
            p.wf(),
            p.interval_ms == max_u64(schedule.interval_ms, MINIMUM_INTERVAL_MS),
            p.remaining_ms == schedule.expires_in_ms,
            p.expires_in_ms == schedule.expires_in_ms,
    {
        let interval_ms = if schedule.interval_ms >= MINIMUM_INTERVAL_MS {
            schedule.interval_ms
        } else {
            MINIMUM_INTERVAL_MS
        };
        DeviceCodePoller {
            interval_ms,
            remaining_ms: schedule.expires_in_ms,
            expires_in_ms: schedule.expires_in_ms,
        }
    }

    /// Checks, before a poll, whether the loop must stop: on cancellation, or
    /// once no time is left given `elapsed_ms` since the loop started. Shrinks
    /// the remaining time to what the clock allows.
    pub fn before_poll(&mut self, cancelled: bool, elapsed_ms: u64) -> (r: Option<DeviceCodeFailure>)
        requires
            old(self).wf(),
        ensures
            final(self).wf(),
            final(self).interval_ms == old(self).interval_ms,
            final(self).expires_in_ms == old(self).expires_in_ms,
            cancelled ==> r == Some(DeviceCodeFailure::Cancelled) && *final(self) == *old(self),
            !cancelled ==> final(self).remaining_ms == min_u64(
                old(self).remaining_ms,
                sat_sub(old(self).expires_in_ms, elapsed_ms),
            ),
            !cancelled ==> (r == Some(DeviceCodeFailure::Expired) <==> final(self).remaining_ms
                == 0),
            !cancelled ==> (r is None || r == Some(DeviceCodeFailure::Expired)),
    {
        if cancelled {
            return Some(DeviceCodeFailure::Cancelled);
        }
        let allowed = if self.expires_in_ms >= elapsed_ms {
            self.expires_in_ms - elapsed_ms
        } else {
            0
        };
        if allowed < self.remaining_ms {
            self.remaining_ms = allowed;
        }
        if self.remaining_ms == 0 {
            return Some(DeviceCodeFailure::Expired);
        }
        None
    }

    /// The longest a poll may take before the code expires.
    pub fn poll_deadline_ms(&self) -> (d: u64)
        ensures
            d == self.remaining_ms,
    {
        self.remaining_ms
    }

    /// Decides what follows a poll: a result, or a wait of the current
    /// interval (never longer than the time left).
    pub fn after_poll<T>(&mut self, outcome: DeviceCodePoll<T>) -> (r: PollStep<T>)
        requires
            old(self).wf(),
        ensures
            final(self).wf(),
            final(self).remaining_ms == old(self).remaining_ms,
            final(self).expires_in_ms == old(self).expires_in_ms,
            match outcome {
                DeviceCodePoll::Complete(v) => r == PollStep::Finished(
                    Ok::<T, DeviceCodeFailure>(v),
                ) && *final(self) == *old(self),
                DeviceCodePoll::Failed(f) => r == PollStep::<T>::Finished(Err(f))
                    && *final(self) == *old(self),
                DeviceCodePoll::Pending => final(self).interval_ms == old(self).interval_ms && r
                    == PollStep::<T>::Wait(min_u64(old(self).interval_ms, old(self).remaining_ms)),
                DeviceCodePoll::SlowDown { interval_seconds } => final(self).interval_ms
                    == slowed_interval(old(self).interval_ms, interval_seconds) && r
                    == PollStep::<T>::Wait(min_u64(final(self).interval_ms, old(self).remaining_ms)),
            },
    {
        match outcome {
            DeviceCodePoll::Complete(value) => PollStep::Finished(Ok(value)),
            DeviceCodePoll::Failed(failure) => PollStep::Finished(Err(failure)),
            DeviceCodePoll::Pending => PollStep::Wait(self.wait_ms()),
            DeviceCodePoll::SlowDown { interval_seconds } => {
                self.interval_ms =
                    match interval_seconds {
                        Some(seconds) => {
                            let ms = if seconds <= u64::MAX / 1000 {
                                seconds * 1000
                            } else {
                                u64::MAX
                            };
                            if ms >= MINIMUM_INTERVAL_MS {
                                ms
                            } else {
                                MINIMUM_INTERVAL_MS
                            }
                        },
                        None => if self.interval_ms <= u64::MAX - SLOW_DOWN_INCREMENT_MS {
                            self.interval_ms + SLOW_DOWN_INCREMENT_MS
                        } else {
                            u64::MAX
                        },
                    };
                PollStep::Wait(self.wait_ms())
            },
        }
    }

    /// The next wait: the interval, cut short by the time left.
    fn wait_ms(&self) -> (w: u64)
        ensures
            w == min_u64(self.interval_ms, self.remaining_ms),
    {
        if self.interval_ms <= self.remaining_ms {
            self.interval_ms
        } else {
            self.remaining_ms
        }
    }

    /// Accounts for a finished wait of `waited_ms`, and stops the loop if the
    /// attempt was cancelled meanwhile.
    pub fn after_wait(&mut self, waited_ms: u64, cancelled: bool) -> (r: Option<DeviceCodeFailure>)
        requires
            old(self).wf(),
        ensures
            final(self).wf(),
            final(self).interval_ms == old(self).interval_ms,
            final(self).expires_in_ms == old(self).expires_in_ms,
            final(self).remaining_ms == sat_sub(old(self).remaining_ms, waited_ms),
            r == (if cancelled {
                Some(DeviceCodeFailure::Cancelled)
            } else {
                None
            }),
    {
        self.remaining_ms = if self.remaining_ms >= waited_ms {
            self.remaining_ms - waited_ms
        } else {
            0
        };
        if cancelled {
            Some(DeviceCodeFailure::Cancelled)
        } else {
            None
        }
    }

    /// A poll that outlived the time left ends the authorization as expired.
    pub fn poll_timed_out(&self) -> (f: DeviceCodeFailure)
        ensures
            f == DeviceCodeFailure::Expired,
    {
        DeviceCodeFailure::Expired
    }
}

/// Every round of the loop makes progress: a wait that follows a poll is
/// positive whenever time is left, never longer than the time left, and
/// accounting for it strictly shrinks the remaining time, so the loop ends
/// within the code's lifetime.
pub proof fn lemma_polling_makes_progress(p: DeviceCodePoller)
    requires
        p.wf(),
        p.remaining_ms > 0,
    ensures
        0 < min_u64(p.interval_ms, p.remaining_ms) <= p.remaining_ms,
        sat_sub(p.remaining_ms, min_u64(p.interval_ms, p.remaining_ms)) < p.remaining_ms,
        min_u64(p.interval_ms, p.remaining_ms) >= min_u64(MINIMUM_INTERVAL_MS, p.remaining_ms),
{
}

/// `slow_down` never shortens the wait below the minimum interval, and
/// without a server-supplied interval it lengthens the interval by exactly
/// the RFC 8628 increment (short of overflow).
pub proof fn lemma_slow_down_backs_off(interval_ms: u64, interval_seconds: Option<u64>)
    requires
        interval_ms >= MINIMUM_INTERVAL_MS,
    ensures
        slowed_interval(interval_ms, interval_seconds) >= MINIMUM_INTERVAL_MS,
        interval_seconds is None && interval_ms + SLOW_DOWN_INCREMENT_MS <= u64::MAX
            ==> slowed_interval(interval_ms, interval_seconds) == interval_ms
            + SLOW_DOWN_INCREMENT_MS,
        interval_seconds is None ==> slowed_interval(interval_ms, interval_seconds) > interval_ms
            || interval_ms == u64::MAX,
{
}

} // verus!
