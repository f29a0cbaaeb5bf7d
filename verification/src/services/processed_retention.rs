//! Retention of `C:\FileWisely\Processed` and `C:\FileWisely\Failed`: which folders are
//! swept and which files in them are old enough to delete. Reading the folders, the
//! clock and deleting are the caller's.
use vstd::prelude::*;

verus! {

/// Seconds between sweeps (six hours).
pub const SWEEP_INTERVAL_SECS: u64 = 21_600;
/// Seconds after start-up before the first sweep.
pub const STARTUP_DELAY_SECS: u64 = 120;

/// The retention days of Processed and of Failed: Failed falls back to Processed's;
/// `None` (no sweeper at all) when neither is set.
pub fn retention_plan(processed_days: Option<u64>, failed_days: Option<u64>) -> (r: Option<
    (Option<u64>, Option<u64>),
>)
    ensures
        ({
            let failed = match failed_days {
                Some(d) => Some(d),
                None => processed_days,
            };
            if processed_days is None && failed is None {
                r is None
            } else {
                r == Some((processed_days, failed))
            }
        }),
{
    let failed = match failed_days {
        Some(d) => Some(d),
        None => processed_days,
    };
    if processed_days.is_none() && failed.is_none() {
        None
    } else {
        Some((processed_days, failed))
    }
}

/// The retention in seconds (saturating).
pub fn retention_secs(days: u64) -> (r: u64)
    ensures
        r == (if days * 86400 <= u64::MAX {
            days * 86400
        } else {
            u64::MAX as int
        }),
{
    if days <= u64::MAX / 86400 {
        days * 86400
    } else {
        u64::MAX
    }
}

/// What a sweep does with one directory entry.
#[derive(Clone, Copy, Debug, PartialEq, Eq, Structural)]
pub enum SweepStep {
    /// Not a regular file, or its modification time is unreadable.
    Skip,
    /// Its metadata could not be read (counted as an error).
    Error,
    /// Younger than the retention.
    Keep,
    /// Old enough: delete it.
    Remove,
}

/// The age of a file modified at `modified_ms`, at `now_ms` (0 for a time in the future).
pub open spec fn age_ms(now_ms: u64, modified_ms: u64) -> int {
    if now_ms >= modified_ms {
        now_ms - modified_ms
    } else {
        0
    }
}

/// One entry of a sweep: regular files with readable metadata and modification time are
/// removed once their age (milliseconds) reaches the retention (seconds).
pub fn sweep_entry(is_file: bool, metadata_ok: bool, modified_ms: Option<u64>, now_ms: u64, retention_secs: u64) -> (r:
    SweepStep)
    ensures
        r == (if !is_file {
            SweepStep::Skip
        } else if !metadata_ok {
            SweepStep::Error
        } else {
            match modified_ms {
                None => SweepStep::Skip,
                Some(m) => if age_ms(now_ms, m) < retention_secs * 1000 {
                    SweepStep::Keep
                } else {
                    SweepStep::Remove
                },
            }
        }),
{
    if !is_file {
        return SweepStep::Skip;
    }
    if !metadata_ok {
        return SweepStep::Error;
    }
    match modified_ms {
        None => SweepStep::Skip,
        Some(m) => {
            let age: u64 = if now_ms >= m {
                now_ms - m
            } else {
                0
            };
            if (age as u128) < (retention_secs as u128) * 1000 {
                SweepStep::Keep
            } else {
                SweepStep::Remove
            }
        },
    }
}

} // verus!
