//! The wall clock, in epoch milliseconds.
use vstd::prelude::*;
use crate::outside::clock_epoch_millis;

verus! {

/// A clock reading as an `i64`, or `None` when there is no reading or it
/// does not fit.
pub fn millis_as_i64(ms: Option<u128>) -> (r: Option<i64>)
    ensures
        r == match ms {
            Some(v) => if v <= i64::MAX { Some(v as i64) } else { None::<i64> },
            None => None::<i64>,
        },
{
    match ms {
        Some(v) => if v <= i64::MAX as u128 {
            Some(v as i64)
        } else {
            None
        },
        None => None,
    }
}

/// A clock reading as an `i64`: zero without a reading, `i64::MAX` when it
/// does not fit.
pub fn millis_or_zero(ms: Option<u128>) -> (r: i64)
    ensures
        r == match ms {
            Some(v) => if v <= i64::MAX { v as i64 } else { i64::MAX },
            None => 0,
        },
{
    match ms {
        Some(v) => if v <= i64::MAX as u128 {
            v as i64
        } else {
            i64::MAX
        },
        None => 0,
    }
}

/// The current time in epoch milliseconds for the reporting worker, or
/// `None` when the clock is unusable.
pub fn epoch_ms() -> (r: Option<i64>)
    ensures
        r matches Some(v) ==> v >= 0,
{
    millis_as_i64(clock_epoch_millis())
}

/// The current time in epoch milliseconds for request handling; zero when the
/// clock reads before the epoch.
pub fn now_ms() -> (r: i64)
    ensures
        r >= 0,
{
    millis_or_zero(clock_epoch_millis())
}

} // verus!
