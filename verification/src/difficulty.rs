//! Dynamic PoW difficulty adjustment: every `window_size` solves, the
//! difficulty is rescaled by the ratio of the target solve time to the
//! observed average gap, clamped to the protocol bounds.

use vstd::prelude::*;

use crate::constants::{POW_INITIAL_DIFFICULTY, POW_MAX_DIFFICULTY, POW_MIN_DIFFICULTY};

verus! {

/// Configuration and state for dynamic difficulty adjustment.
#[derive(Clone, Debug)]
pub struct DifficultyConfig {
    /// Current difficulty (leading zero bits required).
    pub current: u8,
    /// Target solve time in milliseconds.
    pub target_solve_ms: u64,
    /// Number of solves per adjustment window.
    pub window_size: u32,
    /// Solve timestamps (ms) in the current window.
    pub window_samples: Vec<u64>,
}

/// The sum of consecutive saturating gaps over the first `n` samples.
pub open spec fn spec_total_gap(s: Seq<u64>, n: int) -> int
    decreases n,
{
    if n <= 1 {
        0
    } else {
        let gap = if s[n - 1] >= s[n - 2] {
            s[n - 1] - s[n - 2]
        } else {
            0
        };
        spec_total_gap(s, n - 1) + gap
    }
}

/// The adjusted difficulty for a window of solve timestamps: unchanged when
/// under two samples; one step up (bounded) when all gaps are zero; otherwise
/// `current × target / avg_gap` clamped into the protocol range.
pub open spec fn spec_adjusted(current: u8, target_solve_ms: u64, samples: Seq<u64>) -> u8 {
    let n = samples.len() as int;
    if n < 2 {
        current
    } else {
        let avg = spec_total_gap(samples, n) / (n - 1);
        if avg == 0 {
            if current + 1 <= POW_MAX_DIFFICULTY {
                (current + 1) as u8
            } else {
                POW_MAX_DIFFICULTY
            }
        } else {
            let scaled = (current * target_solve_ms) as int / avg;
            if scaled < POW_MIN_DIFFICULTY {
                POW_MIN_DIFFICULTY
            } else if scaled > POW_MAX_DIFFICULTY {
                POW_MAX_DIFFICULTY
            } else {
                scaled as u8
            }
        }
    }
}

impl DifficultyConfig {
    pub fn new(initial_difficulty: u8, target_solve_ms: u64, window_size: u32) -> (r: Self)
        ensures
            r.current == initial_difficulty,
            r.target_solve_ms == target_solve_ms,
            r.window_size == window_size,
            r.window_samples@.len() == 0,
    {
        DifficultyConfig {
            current: initial_difficulty,
            target_solve_ms,
            window_size,
            window_samples: Vec::new(),
        }
    }

    /// Record a solve timestamp. When the window fills, the difficulty is
    /// retargeted over the full window (this timestamp included), the window
    /// clears, and the new difficulty is returned.
    pub fn record_solve(&mut self, timestamp_ms: u64) -> (r: Option<u8>)
        ensures
            ({
                let filled = old(self).window_samples@.len() + 1 >= old(self).window_size;
                &&& !filled ==> r is None && final(self).current == old(self).current && final(self).window_samples@ == old(self).window_samples@.push(timestamp_ms)
                &&& filled ==> {
                    &&& final(self).current == spec_adjusted(
                        old(self).current,
                        old(self).target_solve_ms,
                        old(self).window_samples@.push(timestamp_ms),
                    )
                    &&& final(self).window_samples@.len() == 0
                    &&& r == Some(final(self).current)
                }
                &&& final(self).target_solve_ms == old(self).target_solve_ms
                &&& final(self).window_size == old(self).window_size
            }),
    {
        self.window_samples.push(timestamp_ms);
        if self.window_samples.len() >= self.window_size as usize {
            let new_diff = adjust_difficulty(self);
            self.current = new_diff;
            self.window_samples = Vec::new();
            return Some(new_diff);
        }
        None
    }
}

impl Default for DifficultyConfig {
    fn default() -> (r: Self)
        ensures
            r.current == POW_INITIAL_DIFFICULTY,
            r.target_solve_ms == 10_000,
            r.window_size == 100,
            r.window_samples@.len() == 0,
    {
        DifficultyConfig {
            current: POW_INITIAL_DIFFICULTY,
            target_solve_ms: 10_000,
            window_size: 100,
            window_samples: Vec::new(),
        }
    }
}

/// Compute a new difficulty from the current window of solve timestamps.
/// The result always respects the protocol's difficulty bounds when an
/// adjustment actually happens.
pub fn adjust_difficulty(config: &DifficultyConfig) -> (r: u8)
    ensures
        r == spec_adjusted(config.current, config.target_solve_ms, config.window_samples@),
{
    let n: usize = config.window_samples.len();
    if n < 2 {
        return config.current;
    }
    let mut total_gap: u128 = 0;
    let mut i: usize = 1;
    #[verifier::loop_isolation(false)]
    while i < n
        invariant
            1 <= i <= n,
            total_gap == spec_total_gap(config.window_samples@, i as int),
            total_gap <= i * 0xffff_ffff_ffff_ffff,
        decreases n - i,
    {
        let prev = config.window_samples[i - 1];
        let cur = config.window_samples[i];
        let gap: u64 = if cur >= prev {
            cur - prev
        } else {
            0
        };
        total_gap = total_gap + gap as u128;
        i += 1;
    }
    let avg_gap: u128 = total_gap / ((n - 1) as u128);
    proof {
        assert(avg_gap == spec_total_gap(config.window_samples@, n as int) / (n as int - 1));
    }
    if avg_gap == 0 {
        if config.current < POW_MAX_DIFFICULTY {
            return config.current + 1;
        }
        return POW_MAX_DIFFICULTY;
    }
    proof {
        vstd::arithmetic::mul::lemma_mul_upper_bound(
            config.current as int,
            255,
            config.target_solve_ms as int,
            0xffff_ffff_ffff_ffff,
        );
    }
    let scaled: u128 = (config.current as u128) * (config.target_solve_ms as u128) / avg_gap;
    if scaled < POW_MIN_DIFFICULTY as u128 {
        POW_MIN_DIFFICULTY
    } else if scaled > POW_MAX_DIFFICULTY as u128 {
        POW_MAX_DIFFICULTY
    } else {
        scaled as u8
    }
}

} // verus!
