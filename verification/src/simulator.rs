//! Configuration for the load-testing simulator: run shape, retry
//! policy, and think-time parsing. The simulator itself performs
//! network work and lives outside the library.

use vstd::prelude::*;
use vstd::string::*;

use crate::strutil::{
    after_first, all_digits, before_first, digits_val, lower_char, parse_u64, split_first, trim,
    trim_spec,
};

verus! {

/// Think time between requests: a delay drawn from this range, in
/// milliseconds.
#[derive(Debug, Clone)]
pub struct ThinkTime {
    /// Minimum delay in milliseconds.
    pub min_ms: u64,
    /// Maximum delay in milliseconds.
    pub max_ms: u64,
}

/// Simulator configuration. The maximum cost threshold is in
/// micro-dollars.
#[derive(Debug, Clone)]
pub struct SimulatorConfig {
    /// Number of concurrent requests.
    pub concurrency: usize,
    /// Total number of requests to make.
    pub runs: usize,
    /// Retry count on failure.
    pub retry: u32,
    /// Think time between requests, if any.
    pub think_time: Option<ThinkTime>,
    /// Request timeout in seconds.
    pub timeout_secs: u64,
    /// Dry-run mode: estimate costs without making calls.
    pub dry_run: bool,
    /// Maximum cost threshold in micro-dollars, if any.
    pub max_cost_micros: Option<u64>,
}

/// `t` with a trailing `ms` suffix removed, case-insensitively.
pub open spec fn strip_ms_spec(t: Seq<char>) -> Seq<char> {
    if t.len() >= 2 && lower_char(t[t.len() - 2]) == 'm' && lower_char(t[t.len() - 1]) == 's' {
        t.subrange(0, t.len() - 2)
    } else {
        t
    }
}

/// The value of a non-empty all-digit string, when it fits in `u64`.
pub open spec fn parse_u64_spec(s: Seq<char>) -> Option<u64> {
    if all_digits(s) && digits_val(s) <= u64::MAX {
        Some(digits_val(s) as u64)
    } else {
        None
    }
}

/// The think-time range a string denotes: after trimming and removing
/// an `ms` suffix, either `min-max` or a single delay; nothing when a
/// number is malformed or the range is inverted.
pub open spec fn think_time_spec(raw: Seq<char>) -> Option<(u64, u64)> {
    let t = strip_ms_spec(trim_spec(raw));
    match after_first(t, '-') {
        Some(maxs) => {
            match (parse_u64_spec(trim_spec(before_first(t, '-'))), parse_u64_spec(
                trim_spec(maxs),
            )) {
                (Some(mn), Some(mx)) => if mn <= mx {
                    Some((mn, mx))
                } else {
                    None
                },
                _ => None,
            }
        },
        None => match parse_u64_spec(trim_spec(t)) {
            Some(ms) => Some((ms, ms)),
            None => None,
        },
    }
}

impl SimulatorConfig {
    /// Create a configuration with the default retry count, timeout,
    /// and no think time, dry run, or cost threshold.
    pub fn new(concurrency: usize, runs: usize) -> (r: SimulatorConfig)
        ensures
            r.concurrency == concurrency,
            r.runs == runs,
            r.retry == 3,
            r.think_time is None,
            r.timeout_secs == 60,
            !r.dry_run,
            r.max_cost_micros is None,
    {
        SimulatorConfig {
            concurrency,
            runs,
            retry: 3,
            think_time: None,
            timeout_secs: 60,
            dry_run: false,
            max_cost_micros: None,
        }
    }

    /// Parse a think time such as `250-750ms` or `500ms`. Succeeds
    /// exactly when the string denotes a well-formed, non-inverted
    /// range.
    pub fn parse_think_time(s: &str) -> (r: Result<ThinkTime, String>)
        ensures
            match r {
                Ok(tt) => think_time_spec(s@) == Some((tt.min_ms, tt.max_ms)),
                Err(e) => {
                    &&& think_time_spec(s@) is None
                    &&& ({
                        let t = strip_ms_spec(trim_spec(s@));
                        match after_first(t, '-') {
                            Some(maxs) => {
                                ||| (parse_u64_spec(trim_spec(before_first(t, '-'))) is None && e@
                                    == "Invalid min think time"@)
                                ||| (parse_u64_spec(trim_spec(before_first(t, '-'))) is Some
                                    && parse_u64_spec(trim_spec(maxs)) is None && e@
                                    == "Invalid max think time"@)
                                ||| (parse_u64_spec(trim_spec(before_first(t, '-'))) is Some
                                    && parse_u64_spec(trim_spec(maxs)) is Some && e@
                                    == "Min think time must be <= max think time"@)
                            },
                            None => parse_u64_spec(trim_spec(t)) is None && e@
                                == "Invalid think time format. Use '250-750ms' or '500ms'"@,
                        }
                    })
                },
            },
    {
        let trimmed = trim(s);
        let tn = trimmed.unicode_len();
        let stripped: &str = if tn >= 2 {
            let c1 = trimmed.get_char(tn - 2);
            let c2 = trimmed.get_char(tn - 1);
            if (c1 == 'm' || c1 == 'M') && (c2 == 's' || c2 == 'S') {
                trimmed.substring_char(0, tn - 2)
            } else {
                trimmed
            }
        } else {
            trimmed
        };
        match split_first(stripped, '-') {
            Some((min_raw, max_raw)) => {
                let min_ms = match parse_u64(trim(min_raw)) {
                    Some(v) => v,
                    None => {
                        return Err("Invalid min think time".to_owned());
                    },
                };
                let max_ms = match parse_u64(trim(max_raw)) {
                    Some(v) => v,
                    None => {
                        return Err("Invalid max think time".to_owned());
                    },
                };
                if min_ms > max_ms {
                    return Err("Min think time must be <= max think time".to_owned());
                }
                Ok(ThinkTime { min_ms, max_ms })
            },
            None => {
                match parse_u64(trim(stripped)) {
                    Some(ms) => Ok(ThinkTime { min_ms: ms, max_ms: ms }),
                    None => Err(
                        "Invalid think time format. Use '250-750ms' or '500ms'".to_owned(),
                    ),
                }
            },
        }
    }
}

impl Default for SimulatorConfig {
    fn default() -> (r: SimulatorConfig)
        ensures
            r.concurrency == 10,
            r.runs == 100,
            r.retry == 3,
            r.think_time is None,
            r.timeout_secs == 60,
            !r.dry_run,
            r.max_cost_micros is None,
    {
        SimulatorConfig::new(10, 100)
    }
}

} // verus!
