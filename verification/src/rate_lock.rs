//! A rate locked for a user until an expiry time.

use vstd::prelude::*;

verus! {

/// Why a locked rate cannot be used.
#[derive(Clone, Copy, Debug, PartialEq, Eq, Structural)]
pub enum RateLockError {
    /// The user has locked no rate.
    NoRateLocked,
    /// The lock has expired.
    RateExpired,
}

/// The rules for a locked rate. The host keeps rate and expiry per user.
pub struct RateLockContract;

impl RateLockContract {
    /// The rate and the expiry to keep for a rate locked at `now` for
    /// `duration_seconds`.
    pub fn lock_rate(rate: i128, duration_seconds: u64, now: u64) -> (locked: (i128, u64))
        requires
            now + duration_seconds <= u64::MAX,
        ensures
            locked.0 == rate,
            locked.1 == now + duration_seconds,
    {
        (rate, now + duration_seconds)
    }

    /// The locked rate, if one is kept and `now` is not past its expiry.
    pub fn validate_conversion(stored: Option<(i128, u64)>, now: u64) -> (res: Result<
        i128,
        RateLockError,
    >)
        ensures
            res == match stored {
                None => Err::<i128, RateLockError>(RateLockError::NoRateLocked),
                Some(lock) => if now > lock.1 {
                    Err::<i128, RateLockError>(RateLockError::RateExpired)
                } else {
                    Ok::<i128, RateLockError>(lock.0)
                },
            },
    {
        match stored {
            None => Err(RateLockError::NoRateLocked),
            Some((rate, expiry)) => {
                if now > expiry {
                    return Err(RateLockError::RateExpired);
                }
                Ok(rate)
            },
        }
    }
}

} // verus!
