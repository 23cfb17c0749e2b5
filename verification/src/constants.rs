use vstd::prelude::*;

verus! {

/// Length of a day in seconds; deadlines are counted in whole days.
pub const SECONDS_PER_DAY: i64 = 86_400;

/// Value of `activated_at` for a pool that has not been activated.
pub const NOT_ACTIVATED: i64 = i64::MAX;

/// A single request for test tokens must stay below this amount.
pub const TEST_TOKEN_LIMIT: u64 = 10_000_000;

} // verus!
