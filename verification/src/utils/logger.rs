//! Which log files have outlived their keep.

use crate::text::same_text;
use vstd::prelude::*;

verus! {

/// Days a log file is kept.
pub const DAYS_TO_KEEP: u64 = 7;

/// Seconds in a day.
pub const SECONDS_PER_DAY: u64 = 86400;

/// Whether a file is to be removed: its extension is `log` and it was last
/// changed more than `days_to_keep` days ago. The age is given in whole
/// seconds and the nanoseconds beyond them.
pub open spec fn spec_is_expired(
    extension: Option<Seq<char>>,
    age_seconds: u64,
    age_nanoseconds: u32,
    days_to_keep: u64,
) -> bool {
    &&& extension == Some("log"@)
    &&& (age_seconds > days_to_keep * SECONDS_PER_DAY || (age_seconds == days_to_keep
        * SECONDS_PER_DAY && age_nanoseconds > 0))
}

/// Whether a file with this extension and age is to be removed when log
/// files are kept for `days_to_keep` days.
pub fn cleanup_old_logs(
    extension: Option<&str>,
    age_seconds: u64,
    age_nanoseconds: u32,
    days_to_keep: u64,
) -> (expired: bool)
    ensures
        expired == spec_is_expired(
            match extension {
                Some(e) => Some(e@),
                None => None,
            },
            age_seconds,
            age_nanoseconds,
            days_to_keep,
        ),
{
    let is_log = match extension {
        Some(e) => same_text(e, "log"),
        None => false,
    };
    if !is_log {
        return false;
    }
    match days_to_keep.checked_mul(SECONDS_PER_DAY) {
        Some(keep) => age_seconds > keep || (age_seconds == keep && age_nanoseconds > 0),
        // A keep beyond what seconds can count: nothing is that old.
        None => false,
    }
}

} // verus!
