//! Failure conditions, one variant per condition a caller can tell apart.

use vstd::prelude::*;

verus! {

/// Why an escrow operation was refused. A refused operation changes nothing.
#[derive(Clone, Copy, Debug, PartialEq, Eq, Structural)]
pub enum EscrowError {
    /// New escrows and new disputes are not accepted while the engine is paused.
    ContractPaused,
    /// The amount is zero or negative.
    InvalidAmount,
    /// The timeout duration is zero.
    ZeroTimeout,
    /// The dispute period is zero.
    ZeroDisputePeriod,
    /// The dispute period is longer than the timeout duration.
    DisputePeriodExceedsTimeout,
    /// Sender and recipient are the same party.
    SameParty,
    /// The creation time plus the timeout duration is past the end of the clock.
    TimeoutOverflow,
    /// The engine has named as many escrows as it can.
    CapacityExhausted,
    /// The caller is not the party that has to authorize the operation.
    Unauthorized,
    /// The balance does not cover the escrowed amount.
    InsufficientBalance,
    /// The balance does not cover the dispute fee.
    InsufficientBalanceForFee,
    /// No escrow has this id.
    NotFound,
    /// The escrow is not active.
    NotActive,
    /// The escrow is not disputed.
    NotDisputed,
    /// A dispute was opened on this escrow before.
    DisputeAlreadyInitiated,
    /// The timeout has not been reached.
    NotTimedOut,
    /// The dispute window is still open.
    DisputePeriodNotExpired,
    /// An admin was appointed before.
    AlreadyInitialized,
    /// No admin has been appointed.
    NotInitialized,
    /// The dispute fee is negative.
    NegativeFee,
}

/// The kinds of failure, so that a caller can tell bad input from a record
/// in the wrong state, a missing authorization, a missing resource and an
/// unknown id.
#[derive(Clone, Copy, Debug, PartialEq, Eq, Structural)]
pub enum ErrorCategory {
    /// An input is out of range.
    Validation,
    /// The record or the engine is not in the state the operation needs.
    State,
    /// The caller is not the party that has to authorize.
    Authorization,
    /// A balance or a capacity does not suffice.
    Resource,
    /// The id was never created.
    NotFound,
}

/// Why an approval-engine operation was refused.
#[derive(Clone, Copy, Debug, PartialEq, Eq, Structural)]
pub enum MultisigError {
    /// The threshold is zero or larger than the number of signers.
    InvalidThreshold,
    /// A signer is listed twice.
    DuplicateSigner,
    /// No configuration has been stored.
    NotInitialized,
    /// A configuration was stored before.
    AlreadyInitialized,
    /// The nonce cannot advance any further.
    NonceExhausted,
}

/// Failure conditions of the amount and rate helpers.
#[derive(Clone, Copy, Debug, PartialEq, Eq, Structural)]
pub enum AppError {
    InvalidAmount,
    InvalidAddress,
    InvalidTimestamp,
    InsufficientBalance,
    UnsupportedCurrency,
    RateExpired,
    ConversionLimitExceeded,
    Unauthorized,
}

impl EscrowError {
    /// The kind of failure this is.
    pub open spec fn category_of(self) -> ErrorCategory {
        match self {
            EscrowError::InvalidAmount => ErrorCategory::Validation,
            EscrowError::ZeroTimeout => ErrorCategory::Validation,
            EscrowError::ZeroDisputePeriod => ErrorCategory::Validation,
            EscrowError::DisputePeriodExceedsTimeout => ErrorCategory::Validation,
            EscrowError::SameParty => ErrorCategory::Validation,
            EscrowError::TimeoutOverflow => ErrorCategory::Validation,
            EscrowError::NegativeFee => ErrorCategory::Validation,
            EscrowError::Unauthorized => ErrorCategory::Authorization,
            EscrowError::InsufficientBalance => ErrorCategory::Resource,
            EscrowError::InsufficientBalanceForFee => ErrorCategory::Resource,
            EscrowError::CapacityExhausted => ErrorCategory::Resource,
            EscrowError::NotFound => ErrorCategory::NotFound,
            EscrowError::ContractPaused => ErrorCategory::State,
            EscrowError::NotActive => ErrorCategory::State,
            EscrowError::NotDisputed => ErrorCategory::State,
            EscrowError::DisputeAlreadyInitiated => ErrorCategory::State,
            EscrowError::NotTimedOut => ErrorCategory::State,
            EscrowError::DisputePeriodNotExpired => ErrorCategory::State,
            EscrowError::AlreadyInitialized => ErrorCategory::State,
            EscrowError::NotInitialized => ErrorCategory::State,
        }
    }

    /// The kind of failure this is.
    pub fn category(&self) -> (c: ErrorCategory)
        ensures
            c == self.category_of(),
    {
        match self {
            EscrowError::InvalidAmount
            | EscrowError::ZeroTimeout
            | EscrowError::ZeroDisputePeriod
            | EscrowError::DisputePeriodExceedsTimeout
            | EscrowError::SameParty
            | EscrowError::TimeoutOverflow
            | EscrowError::NegativeFee => ErrorCategory::Validation,
            EscrowError::Unauthorized => ErrorCategory::Authorization,
            EscrowError::InsufficientBalance
            | EscrowError::InsufficientBalanceForFee
            | EscrowError::CapacityExhausted => ErrorCategory::Resource,
            EscrowError::NotFound => ErrorCategory::NotFound,
            EscrowError::ContractPaused
            | EscrowError::NotActive
            | EscrowError::NotDisputed
            | EscrowError::DisputeAlreadyInitiated
            | EscrowError::NotTimedOut
            | EscrowError::DisputePeriodNotExpired
            | EscrowError::AlreadyInitialized
            | EscrowError::NotInitialized => ErrorCategory::State,
        }
    }

    /// The message that goes with the condition, as a sequence of characters.
    pub open spec fn message_text(self) -> Seq<char> {
        match self {
            EscrowError::ContractPaused => "Contract is paused"@,
            EscrowError::InvalidAmount => "Amount must be positive"@,
            EscrowError::ZeroTimeout => "Timeout duration must be non-zero"@,
            EscrowError::ZeroDisputePeriod => "Dispute period must be non-zero"@,
            EscrowError::DisputePeriodExceedsTimeout => "Dispute period cannot exceed timeout duration"@,
            EscrowError::SameParty => "Sender and recipient cannot be the same"@,
            EscrowError::TimeoutOverflow => "Timeout lies beyond the end of the clock"@,
            EscrowError::CapacityExhausted => "No escrow id is left"@,
            EscrowError::Unauthorized => "Caller is not authorized"@,
            EscrowError::InsufficientBalance => "Insufficient token balance"@,
            EscrowError::InsufficientBalanceForFee => "Insufficient balance for dispute fee"@,
            EscrowError::NotFound => "Escrow not found"@,
            EscrowError::NotActive => "Escrow is not active"@,
            EscrowError::NotDisputed => "Escrow is not disputed"@,
            EscrowError::DisputeAlreadyInitiated => "Dispute already initiated"@,
            EscrowError::NotTimedOut => "Escrow has not timed out yet"@,
            EscrowError::DisputePeriodNotExpired => "Dispute period has not expired yet"@,
            EscrowError::AlreadyInitialized => "Contract already initialized"@,
            EscrowError::NotInitialized => "Contract is not initialized"@,
            EscrowError::NegativeFee => "Dispute fee cannot be negative"@,
        }
    }

    /// The message that goes with the condition.
    pub fn message(&self) -> (m: &'static str)
        ensures
            m@ == self.message_text(),
    {
        match self {
            EscrowError::ContractPaused => "Contract is paused",
            EscrowError::InvalidAmount => "Amount must be positive",
            EscrowError::ZeroTimeout => "Timeout duration must be non-zero",
            EscrowError::ZeroDisputePeriod => "Dispute period must be non-zero",
            EscrowError::DisputePeriodExceedsTimeout => "Dispute period cannot exceed timeout duration",
            EscrowError::SameParty => "Sender and recipient cannot be the same",
            EscrowError::TimeoutOverflow => "Timeout lies beyond the end of the clock",
            EscrowError::CapacityExhausted => "No escrow id is left",
            EscrowError::Unauthorized => "Caller is not authorized",
            EscrowError::InsufficientBalance => "Insufficient token balance",
            EscrowError::InsufficientBalanceForFee => "Insufficient balance for dispute fee",
            EscrowError::NotFound => "Escrow not found",
            EscrowError::NotActive => "Escrow is not active",
            EscrowError::NotDisputed => "Escrow is not disputed",
            EscrowError::DisputeAlreadyInitiated => "Dispute already initiated",
            EscrowError::NotTimedOut => "Escrow has not timed out yet",
            EscrowError::DisputePeriodNotExpired => "Dispute period has not expired yet",
            EscrowError::AlreadyInitialized => "Contract already initialized",
            EscrowError::NotInitialized => "Contract is not initialized",
            EscrowError::NegativeFee => "Dispute fee cannot be negative",
        }
    }
}

} // verus!
