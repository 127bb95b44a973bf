//! The rate-limited fetch gate.
//!
//! All outbound API calls pass one process-wide gate that enforces a
//! minimum randomized delay between requests. Its bookkeeping is
//! modelled here over millisecond timestamps: how long a caller must wait
//! before issuing a request, and where the next not-before deadline lands
//! after one. The actual lock, clock and HTTP client live outside.

use vstd::prelude::*;

verus! {

/// Inter-request pacing parameters: a base delay and a uniform random
/// variance, both in milliseconds.
#[derive(Debug, Clone, Copy, PartialEq, Eq, Structural)]
pub struct DelaySettings {
    pub base_ms: i64,
    pub var_ms: i64,
}

/// Build the pacing parameters used by every subsequent fetch.
pub fn update_delay_settings(base: i64, var: i64) -> (s: DelaySettings)
    ensures
        s.base_ms == base,
        s.var_ms == var,
{
    DelaySettings { base_ms: base, var_ms: var }
}

/// Pacing state: the earliest instant (ms) at which the next request
/// may be issued, or `None` before the first request.
#[derive(Debug, Clone, Copy, PartialEq, Eq, Structural)]
pub struct FetchGate {
    pub not_before_ms: Option<u64>,
}

/// The wait a request arriving at `now_ms` incurs at gate `g`.
pub open spec fn spec_wait_ms(g: FetchGate, now_ms: u64) -> int {
    match g.not_before_ms {
        None => 0,
        Some(d) => if now_ms >= d {
            0
        } else {
            d - now_ms
        },
    }
}

impl FetchGate {
    /// A fresh gate: the first request incurs no wait.
    pub fn new() -> (g: FetchGate)
        ensures
            g.not_before_ms is None,
    {
        FetchGate { not_before_ms: None }
    }

    /// How long a request arriving at `now_ms` must sleep before it may go
    /// out: zero with no deadline set or one already elapsed, the remaining
    /// time otherwise.
    pub fn wait_ms(&self, now_ms: u64) -> (w: u64)
        ensures
            w == spec_wait_ms(*self, now_ms),
    {
        match self.not_before_ms {
            None => 0,
            Some(d) => if now_ms >= d {
                0
            } else {
                d - now_ms
            },
        }
    }

    /// Reschedule when a request completes at `now_ms`: the next
    /// request may not go out before `now_ms` plus a randomized delay of
    /// `base_ms` plus a uniform draw in `[-var_ms, var_ms]`, floored at zero
    /// should the draw outweigh the base.
    pub fn completed(&self, now_ms: u64, settings: &DelaySettings) -> (g: FetchGate)
        requires
            0 <= settings.var_ms,
            0 <= settings.base_ms,
            settings.base_ms + settings.var_ms <= i64::MAX,
            now_ms + settings.base_ms + settings.var_ms <= u64::MAX,
        ensures
            g.not_before_ms matches Some(d) && now_ms <= d <= now_ms + settings.base_ms
                + settings.var_ms,
            settings.var_ms <= settings.base_ms ==> (g.not_before_ms matches Some(d) && now_ms
                + settings.base_ms - settings.var_ms <= d),
            settings.var_ms == 0 ==> g.not_before_ms == Some((now_ms + settings.base_ms) as u64),
    {
        let jitter = draw_jitter(settings.var_ms);
        let delay: i64 = settings.base_ms + jitter;
        let delay_ms: u64 = if delay >= 0 {
            delay as u64
        } else {
            0
        };
        FetchGate { not_before_ms: Some(now_ms + delay_ms) }
    }
}

/// Relies on rand::random_range over `-var..=var`: a uniform draw that lies
/// within the (non-empty) range it is given.
#[verifier::external_body]
fn draw_jitter(var: i64) -> (r: i64)
    requires
        0 <= var,
    ensures
        -var <= r <= var,
{
    rand::random_range(-var..=var)
}

/// Pacing of sequential calls: with variance zero and base delay `base_ms`,
/// three gated calls that start at `t1 <= t2 <= t3` and complete at `c1`,
/// `c2` (each no earlier than its start), where each later call respects the
/// deadline the previous completion scheduled, span at least two full base
/// delays; and a fresh gate makes the first call wait nothing.
pub proof fn lemma_three_paced_calls(
    g0: FetchGate,
    t1: u64,
    c1: u64,
    t2: u64,
    c2: u64,
    t3: u64,
    base_ms: u64,
)
    requires
        g0.not_before_ms is None,
        t1 <= c1,
        t2 <= c2,
        c1 + base_ms <= t2,
        c2 + base_ms <= t3,
    ensures
        t3 - t1 >= 2 * base_ms,
        spec_wait_ms(g0, t1) == 0,
{
}

} // verus!
