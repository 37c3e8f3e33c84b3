//! Replay protection by a nonce that only grows, one per user.

use vstd::prelude::*;

verus! {

/// Why a nonce was refused.
#[derive(Clone, Copy, Debug, PartialEq, Eq, Structural)]
pub enum ContractError {
    /// The nonce is not above the one stored.
    InvalidNonce,
}

/// The rule for a user's nonce. The host keeps the value per user.
pub struct NonceTracker;

impl NonceTracker {
    /// The nonce of a user for whom `stored` is kept: zero if nothing is.
    pub fn get_nonce(stored: Option<u64>) -> (nonce: u64)
        ensures
            nonce == Self::stored_nonce(stored),
    {
        match stored {
            Some(n) => n,
            None => 0,
        }
    }

    /// Accepts `incoming` if it is above the user's nonce, and returns it
    /// as the value to keep from now on.
    pub fn check_and_update_nonce(stored: Option<u64>, incoming: u64) -> (res: Result<
        u64,
        ContractError,
    >)
        ensures
            res == if incoming > Self::stored_nonce(stored) {
                Ok::<u64, ContractError>(incoming)
            } else {
                Err::<u64, ContractError>(ContractError::InvalidNonce)
            },
    {
        if incoming <= Self::get_nonce(stored) {
            return Err(ContractError::InvalidNonce);
        }
        Ok(incoming)
    }

    /// The nonce of a user for whom `stored` is kept: zero if nothing is.
    pub open spec fn stored_nonce(stored: Option<u64>) -> u64 {
        match stored {
            Some(n) => n,
            None => 0,
        }
    }
}

} // verus!
