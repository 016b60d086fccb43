//! The backpressure controller and admission gate: two independent, optional
//! ceilings, checked only at admission time. A concurrency ceiling is compared
//! against the number of registered tasks, and a memory ceiling (a percentage
//! of host memory) against a sampled usage snapshot. Either ceiling left unset
//! disables its check.

use vstd::prelude::*;
use vstd::string::StringExecFns;
use crate::errors::MakeParallelError;

verus! {

/// Admission waits for a free slot start at this backoff.
pub const SLOT_WAIT_INITIAL_MS: u64 = 10;

/// The backoff between slot checks doubles up to this cap.
pub const SLOT_WAIT_CAP_MS: u64 = 1000;

/// A slot wait is abandoned (and the submission proceeds) after this long.
pub const SLOT_WAIT_CEILING_MS: u64 = 300000;

/// The two optional admission ceilings.
pub struct BackpressureConfig {
    pub max_concurrent: Option<usize>,
    pub memory_limit_percent: Option<u64>,
}

/// A valid configuration keeps the memory ceiling, when set, in 1 to 100.
pub open spec fn config_wf(c: BackpressureConfig) -> bool {
    c.memory_limit_percent matches Some(p) ==> 1 <= p <= 100
}

impl BackpressureConfig {
    /// A configuration with both ceilings unset: nothing is throttled.
    pub fn new() -> (r: Self)
        ensures
            config_wf(r),
            r.max_concurrent.is_none(),
            r.memory_limit_percent.is_none(),
    {
        BackpressureConfig { max_concurrent: None, memory_limit_percent: None }
    }

    /// Sets the concurrency ceiling.
    pub fn set_max_concurrent_tasks(&mut self, max_tasks: usize)
        requires
            config_wf(*old(self)),
        ensures
            config_wf(*final(self)),
            final(self).max_concurrent == Some(max_tasks),
            final(self).memory_limit_percent == old(self).memory_limit_percent,
    {
        self.max_concurrent = Some(max_tasks);
    }

    /// Sets the memory ceiling. Accepts exactly the percentages from 1 to
    /// 100; anything else is rejected as invalid configuration and leaves the
    /// ceilings unchanged.
    pub fn configure_memory_limit(&mut self, max_memory_percent: u64) -> (r: Result<
        (),
        MakeParallelError,
    >)
        requires
            config_wf(*old(self)),
        ensures
            config_wf(*final(self)),
            r is Ok <==> 1 <= max_memory_percent <= 100,
            r is Ok ==> final(self).memory_limit_percent == Some(max_memory_percent),
            r is Err ==> *final(self) == *old(self),
            r matches Err(e) ==> e matches MakeParallelError::InvalidConfiguration { message }
                && message@ == "max_memory_percent must be between 0 and 100"@,
            final(self).max_concurrent == old(self).max_concurrent,
    {
        if max_memory_percent == 0 || max_memory_percent > 100 {
            return Err(
                MakeParallelError::InvalidConfiguration {
                    message: String::from_str("max_memory_percent must be between 0 and 100"),
                },
            );
        }
        self.memory_limit_percent = Some(max_memory_percent);
        Ok(())
    }
}

/// Whether a memory sample of `used` out of `total` bytes stays within a
/// ceiling of `limit_percent` percent: exceeding the ceiling, not merely
/// reaching it, fails the check.
pub fn memory_within_limit(used: u64, total: u64, limit_percent: u64) -> (r: bool)
    requires
        limit_percent <= 100,
    ensures
        r == (used as int * 100 <= limit_percent as int * total as int),
{
    proof {
        assert((limit_percent as int) * (total as int) <= 100 * (u64::MAX as int))
            by (nonlinear_arith)
            requires
                limit_percent <= 100,
                total <= u64::MAX,
        ;
    }
    let lhs: u128 = (used as u128) * 100;
    let rhs: u128 = (limit_percent as u128) * (total as u128);
    lhs <= rhs
}

/// What a submission waiting for a concurrency slot does next.
pub enum SlotWait {
    /// Stop waiting and go on with admission.
    Proceed,
    /// Sleep for the previous backoff, then check again with the next one.
    Sleep { next_backoff_ms: u64 },
}

/// One decision of the slot wait: while a concurrency ceiling is set and
/// reached, the submission keeps sleeping under exponential backoff, but the
/// wait is abandoned as soon as shutdown is requested or after the fixed
/// ceiling that bounds worst-case admission stalls.
pub fn slot_wait_step(
    max_concurrent: Option<usize>,
    active_count: usize,
    shutdown: bool,
    waited_ms: u64,
    backoff_ms: u64,
) -> (r: SlotWait)
    requires
        backoff_ms <= SLOT_WAIT_CAP_MS,
    ensures
        r matches SlotWait::Sleep { next_backoff_ms } ==> {
            &&& max_concurrent matches Some(m) && active_count >= m
            &&& !shutdown
            &&& waited_ms <= SLOT_WAIT_CEILING_MS
            &&& next_backoff_ms == if 2 * backoff_ms <= SLOT_WAIT_CAP_MS {
                2 * backoff_ms
            } else {
                SLOT_WAIT_CAP_MS as int
            }
        },
        r is Proceed <==> (match max_concurrent {
            Some(m) => active_count < m || shutdown || waited_ms > SLOT_WAIT_CEILING_MS,
            None => true,
        }),
{
    match max_concurrent {
        Some(m) => {
            if active_count < m {
                SlotWait::Proceed
            } else if shutdown {
                SlotWait::Proceed
            } else if waited_ms > SLOT_WAIT_CEILING_MS {
                SlotWait::Proceed
            } else {
                let doubled = if backoff_ms <= SLOT_WAIT_CAP_MS / 2 {
                    2 * backoff_ms
                } else {
                    SLOT_WAIT_CAP_MS
                };
                SlotWait::Sleep { next_backoff_ms: doubled }
            }
        },
        None => SlotWait::Proceed,
    }
}

/// The admission gate every dispatch strategy runs before creating a task:
/// reject at once when shutdown is in progress, then reject when the memory
/// check failed; otherwise admit.
pub fn admission_gate(shutdown: bool, memory_ok: bool, limit_percent: Option<u64>) -> (r: Result<
    (),
    MakeParallelError,
>)
    ensures
        shutdown ==> (r matches Err(e) && e is ShutdownInProgress),
        !shutdown && !memory_ok ==> (r matches Err(e) && e matches
            MakeParallelError::MemoryLimitExceeded { limit_percent: lp } && lp
            == limit_percent.unwrap_or(0)),
        !shutdown && memory_ok ==> r is Ok,
{
    if shutdown {
        Err(MakeParallelError::ShutdownInProgress)
    } else if !memory_ok {
        let lp = match limit_percent {
            Some(p) => p,
            None => 0,
        };
        Err(MakeParallelError::MemoryLimitExceeded { limit_percent: lp })
    } else {
        Ok(())
    }
}

} // verus!
