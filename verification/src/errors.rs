//! Error kinds returned by the protocol operations.
use vstd::prelude::*;

verus! {

/// Why an operation was refused.
#[derive(Clone, Copy, Debug, PartialEq, Eq, Structural)]
pub enum ContractError {
    InvalidAmount,
    NotFound,
    NoActiveLoan,
    UnauthorizedCaller,
    InvalidStateTransition,
    InsufficientFunds,
    StakeOverflow,
    PermissionDenied,
    ArithmeticError,
    ProposalNotFound,
    InvalidRelayChain,
    VotingPeriodEnded,
    RecurringPaymentNotFound,
    LoanExceedsMaxAmount,
    ActiveLoanExists,
    PoolLengthMismatch,
    PoolEmpty,
    PoolBorrowerActiveLoan,
    OracleUnauthorized,
    MaxVouchersPerBorrowerExceeded,
    LoanBelowMinAmount,
    InvalidInput,
    InvalidDifficulty,
    InvalidBps,
    VouchTooRecent,
    VouchCooldownActive,
    SelfHealingDisabled,
    ReminderAlreadySent,
    RelayReplayDetected,
    RelayKeyNotConfigured,
    RelayEventFromFuture,
    RelayEventExpired,
    RelayEventAlreadyProcessed,
    RelayAckRegression,
    Reentrancy,
    RecurringPaymentNotDue,
    RecurringPaymentInactive,
    RecurringPaymentExists,
    PoolInsufficientFunds,
    NonceAlreadyUsed,
    NoEscrowFound,
    MaxRetriesExceeded,
    LoanPastDeadline,
    InvariantViolation,
    InvalidToken,
    InvalidThreshold,
    InvalidAdminThreshold,
    InsufficientYieldReserve,
    InsufficientVouchers,
    InsufficientQuorum,
    DuplicateVouch,
    ContractPaused,
    Blacklisted,
    AlreadyVoted,
    AlreadyRepaid,
    AlreadyInitialized,
    AdminNotFound,
    AdminAlreadyRevoked,
    RateLimitExceeded,
    IdempotencyKeyReused,
}

impl ContractError {
    /// Stable numeric code of the error, starting at 1.
    pub open spec fn spec_code(self) -> u32 {
        match self {
            ContractError::InvalidAmount => 1,
            ContractError::NotFound => 15,
            ContractError::NoActiveLoan => 3,
            ContractError::UnauthorizedCaller => 4,
            ContractError::InvalidStateTransition => 5,
            ContractError::InsufficientFunds => 6,
            ContractError::StakeOverflow => 7,
            ContractError::PermissionDenied => 8,
            ContractError::ArithmeticError => 9,
            ContractError::ProposalNotFound => 10,
            ContractError::InvalidRelayChain => 11,
            ContractError::VotingPeriodEnded => 12,
            ContractError::RecurringPaymentNotFound => 13,
            ContractError::LoanExceedsMaxAmount => 14,
            ContractError::ActiveLoanExists => 2,
            ContractError::PoolLengthMismatch => 16,
            ContractError::PoolEmpty => 17,
            ContractError::PoolBorrowerActiveLoan => 18,
            ContractError::OracleUnauthorized => 19,
            ContractError::MaxVouchersPerBorrowerExceeded => 20,
            ContractError::LoanBelowMinAmount => 21,
            ContractError::InvalidInput => 22,
            ContractError::InvalidDifficulty => 23,
            ContractError::InvalidBps => 24,
            ContractError::VouchTooRecent => 25,
            ContractError::VouchCooldownActive => 26,
            ContractError::SelfHealingDisabled => 27,
            ContractError::ReminderAlreadySent => 28,
            ContractError::RelayReplayDetected => 29,
            ContractError::RelayKeyNotConfigured => 30,
            ContractError::RelayEventFromFuture => 31,
            ContractError::RelayEventExpired => 32,
            ContractError::RelayEventAlreadyProcessed => 33,
            ContractError::RelayAckRegression => 34,
            ContractError::Reentrancy => 35,
            ContractError::RecurringPaymentNotDue => 36,
            ContractError::RecurringPaymentInactive => 37,
            ContractError::RecurringPaymentExists => 38,
            ContractError::PoolInsufficientFunds => 39,
            ContractError::NonceAlreadyUsed => 40,
            ContractError::NoEscrowFound => 41,
            ContractError::MaxRetriesExceeded => 42,
            ContractError::LoanPastDeadline => 43,
            ContractError::InvariantViolation => 44,
            ContractError::InvalidToken => 45,
            ContractError::InvalidThreshold => 46,
            ContractError::InvalidAdminThreshold => 47,
            ContractError::InsufficientYieldReserve => 48,
            ContractError::InsufficientVouchers => 49,
            ContractError::InsufficientQuorum => 50,
            ContractError::DuplicateVouch => 51,
            ContractError::ContractPaused => 52,
            ContractError::Blacklisted => 53,
            ContractError::AlreadyVoted => 54,
            ContractError::AlreadyRepaid => 55,
            ContractError::AlreadyInitialized => 56,
            ContractError::AdminNotFound => 57,
            ContractError::AdminAlreadyRevoked => 58,
            ContractError::RateLimitExceeded => 59,
            ContractError::IdempotencyKeyReused => 60,
        }
    }

    /// Stable numeric code of the error, starting at 1.
    pub fn code(&self) -> (c: u32)
        ensures
            c == self.spec_code(),
    {
        match self {
            ContractError::InvalidAmount => 1,
            ContractError::NotFound => 15,
            ContractError::NoActiveLoan => 3,
            ContractError::UnauthorizedCaller => 4,
            ContractError::InvalidStateTransition => 5,
            ContractError::InsufficientFunds => 6,
            ContractError::StakeOverflow => 7,
            ContractError::PermissionDenied => 8,
            ContractError::ArithmeticError => 9,
            ContractError::ProposalNotFound => 10,
            ContractError::InvalidRelayChain => 11,
            ContractError::VotingPeriodEnded => 12,
            ContractError::RecurringPaymentNotFound => 13,
            ContractError::LoanExceedsMaxAmount => 14,
            ContractError::ActiveLoanExists => 2,
            ContractError::PoolLengthMismatch => 16,
            ContractError::PoolEmpty => 17,
            ContractError::PoolBorrowerActiveLoan => 18,
            ContractError::OracleUnauthorized => 19,
            ContractError::MaxVouchersPerBorrowerExceeded => 20,
            ContractError::LoanBelowMinAmount => 21,
            ContractError::InvalidInput => 22,
            ContractError::InvalidDifficulty => 23,
            ContractError::InvalidBps => 24,
            ContractError::VouchTooRecent => 25,
            ContractError::VouchCooldownActive => 26,
            ContractError::SelfHealingDisabled => 27,
            ContractError::ReminderAlreadySent => 28,
            ContractError::RelayReplayDetected => 29,
            ContractError::RelayKeyNotConfigured => 30,
            ContractError::RelayEventFromFuture => 31,
            ContractError::RelayEventExpired => 32,
            ContractError::RelayEventAlreadyProcessed => 33,
            ContractError::RelayAckRegression => 34,
            ContractError::Reentrancy => 35,
            ContractError::RecurringPaymentNotDue => 36,
            ContractError::RecurringPaymentInactive => 37,
            ContractError::RecurringPaymentExists => 38,
            ContractError::PoolInsufficientFunds => 39,
            ContractError::NonceAlreadyUsed => 40,
            ContractError::NoEscrowFound => 41,
            ContractError::MaxRetriesExceeded => 42,
            ContractError::LoanPastDeadline => 43,
            ContractError::InvariantViolation => 44,
            ContractError::InvalidToken => 45,
            ContractError::InvalidThreshold => 46,
            ContractError::InvalidAdminThreshold => 47,
            ContractError::InsufficientYieldReserve => 48,
            ContractError::InsufficientVouchers => 49,
            ContractError::InsufficientQuorum => 50,
            ContractError::DuplicateVouch => 51,
            ContractError::ContractPaused => 52,
            ContractError::Blacklisted => 53,
            ContractError::AlreadyVoted => 54,
            ContractError::AlreadyRepaid => 55,
            ContractError::AlreadyInitialized => 56,
            ContractError::AdminNotFound => 57,
            ContractError::AdminAlreadyRevoked => 58,
            ContractError::RateLimitExceeded => 59,
            ContractError::IdempotencyKeyReused => 60,
        }
    }
}

} // verus!
