//! The timing policy: randomized pauses between answer submissions and
//! between session restarts, each drawn uniformly from an inclusive
//! millisecond range, so that requests are not sent at a mechanically
//! constant cadence. The caller performs the actual sleep.

use vstd::prelude::*;

verus! {

/// The two inclusive pause ranges, in milliseconds.
pub struct TimingConfig {
    pub min_answer_ms: u64,
    pub max_answer_ms: u64,
    pub min_restart_ms: u64,
    pub max_restart_ms: u64,
}

impl TimingConfig {
    /// Both ranges are nonempty.
    pub open spec fn wf(&self) -> bool {
        self.min_answer_ms <= self.max_answer_ms && self.min_restart_ms <= self.max_restart_ms
    }

    /// The stock pacing: 986–4465 ms between answers, 2178–9653 ms
    /// between sessions.
    pub fn standard() -> (r: TimingConfig)
        ensures
            r.wf(),
            r.min_answer_ms == 986 && r.max_answer_ms == 4465,
            r.min_restart_ms == 2178 && r.max_restart_ms == 9653,
    {
        TimingConfig { min_answer_ms: 986, max_answer_ms: 4465, min_restart_ms: 2178, max_restart_ms: 9653 }
    }
}

/// Relies on rand::random_range on an inclusive integer range: the sample
/// lies within the bounds. An empty range panics, which the precondition
/// rules out.
#[verifier::external_body]
fn sample_uniform(lo: u64, hi: u64) -> (r: u64)
    requires
        lo <= hi,
    ensures
        lo <= r <= hi,
{
    rand::random_range(lo..=hi)
}

/// Draws the pause before the next answer; it always lies within the
/// configured inter-answer range.
pub fn answer_pause_ms(cfg: &TimingConfig) -> (r: u64)
    requires
        cfg.wf(),
    ensures
        cfg.min_answer_ms <= r <= cfg.max_answer_ms,
{
    sample_uniform(cfg.min_answer_ms, cfg.max_answer_ms)
}

/// Draws the pause before a session restart; it always lies within the
/// configured inter-session range.
pub fn restart_pause_ms(cfg: &TimingConfig) -> (r: u64)
    requires
        cfg.wf(),
    ensures
        cfg.min_restart_ms <= r <= cfg.max_restart_ms,
{
    sample_uniform(cfg.min_restart_ms, cfg.max_restart_ms)
}

} // verus!
