use vstd::prelude::*;

verus! {

/// Every way an operation of the ledger can fail.
#[derive(Clone, Copy, Debug, PartialEq, Eq, Structural)]
pub enum ErrorCode {
    ProgramPaused,
    InsufficientDeposit,
    Unauthorized,
    InvalidAmount,
    InsufficientStake,
    NoRewardsToClaim,
    InsufficientTreasuryFunds,
    InvalidRequestId,
    InvalidRequestStatus,
    InvalidDeploymentStatus,
    InvalidTreasuryWallet,
    InvalidEphemeralKey,
    EphemeralKeyNotSet,
    CalculationOverflow,
    InvalidRecoveredFunds,
    FeeAmountTooLarge,
    InsufficientLiquidBalance,
    InvalidAccountData,
    InvalidAccountOwner,
    TimelockNotExpired,
    NoPendingWithdrawal,
    PendingWithdrawalExpired,
    PendingWithdrawalExists,
    GuardianNotSet,
    OnlyGuardian,
    DailyWithdrawalLimitExceeded,
    InvalidTimelockDuration,
    InvalidGuardianAddress,
    CannotWithdrawProtectedRewards,
    AuthorityTransferFailed,
    ProxyUpgradeFailed,
    SubscriptionStillActive,
    SubscriptionExpired,
    ProgramNotManaged,
    InvalidAuthorityPda,
    EscrowNotFound,
    InsufficientEscrowBalance,
    AutoRenewalDisabled,
    GracePeriodActive,
    GracePeriodNotExpired,
    InvalidTokenType,
    TokenAccountMismatch,
    AlreadyInGracePeriod,
    WithdrawalLocked,
    EscrowAlreadyExists,
    NotInGracePeriod,
    PoolUtilizationTooHigh,
    SubscriptionExtensionOverflow,
    SubscriptionExtensionTooLarge,
    RewardDebtExceedsAccumulated,
    WithdrawalAlreadyQueued,
    WithdrawalAlreadyProcessed,
    NoQueuedWithdrawal,
    WithdrawalQueueEmpty,
    InvalidQueuePosition,
    DebtNotRepaid,
    RecoveryRatioTooLow,
    NoDebtToRepay,
    InvalidDebtRepayment,
    NoStakersForDistribution,
    InvalidDistributionPercentage,
    NoPendingRewards,
}

impl ErrorCode {
    /// A human-readable description of the failure.
    pub fn message(&self) -> &'static str {
        match self {
            ErrorCode::ProgramPaused => "Program is currently paused",
            ErrorCode::InsufficientDeposit => "Insufficient deposit amount",
            ErrorCode::Unauthorized => "Unauthorized access",
            ErrorCode::InvalidAmount => "Invalid amount",
            ErrorCode::InsufficientStake => "Insufficient stake amount",
            ErrorCode::NoRewardsToClaim => "No rewards to claim",
            ErrorCode::InsufficientTreasuryFunds => "Insufficient treasury funds",
            ErrorCode::InvalidRequestId => "Invalid request ID",
            ErrorCode::InvalidRequestStatus => "Invalid request status",
            ErrorCode::InvalidDeploymentStatus => "Invalid deployment status",
            ErrorCode::InvalidTreasuryWallet => "Invalid treasury wallet",
            ErrorCode::InvalidEphemeralKey => "Invalid ephemeral key",
            ErrorCode::EphemeralKeyNotSet => "Ephemeral key not set - deployment was never properly funded",
            ErrorCode::CalculationOverflow => "Calculation overflow",
            ErrorCode::InvalidRecoveredFunds => "Recovered funds exceed deployment cost",
            ErrorCode::FeeAmountTooLarge => "Fee amount exceeds maximum allowed",
            ErrorCode::InsufficientLiquidBalance => "Insufficient liquid balance for withdrawal",
            ErrorCode::InvalidAccountData => "Invalid account data - the account layout is out of date",
            ErrorCode::InvalidAccountOwner => "Invalid account owner - account must be owned by this program",
            ErrorCode::TimelockNotExpired => "Timelock period has not expired yet",
            ErrorCode::NoPendingWithdrawal => "No pending withdrawal to execute",
            ErrorCode::PendingWithdrawalExpired => "Pending withdrawal has expired",
            ErrorCode::PendingWithdrawalExists => "A pending withdrawal already exists",
            ErrorCode::GuardianNotSet => "Guardian not set",
            ErrorCode::OnlyGuardian => "Only guardian can perform this action",
            ErrorCode::DailyWithdrawalLimitExceeded => "Daily withdrawal limit exceeded",
            ErrorCode::InvalidTimelockDuration => "Invalid timelock duration",
            ErrorCode::InvalidGuardianAddress => "Cannot set guardian to zero address",
            ErrorCode::CannotWithdrawProtectedRewards => "Cannot withdraw protected rewards - only excess rewards can be withdrawn",
            ErrorCode::AuthorityTransferFailed => "Program authority transfer failed",
            ErrorCode::ProxyUpgradeFailed => "Program upgrade via proxy failed",
            ErrorCode::SubscriptionStillActive => "Cannot reclaim - subscription still active",
            ErrorCode::SubscriptionExpired => "Subscription has expired",
            ErrorCode::ProgramNotManaged => "Program is not managed by D2D",
            ErrorCode::InvalidAuthorityPda => "Invalid program authority PDA",
            ErrorCode::EscrowNotFound => "Escrow account not found",
            ErrorCode::InsufficientEscrowBalance => "Insufficient escrow balance for auto-renewal",
            ErrorCode::AutoRenewalDisabled => "Auto-renewal is disabled",
            ErrorCode::GracePeriodActive => "Program is currently in grace period",
            ErrorCode::GracePeriodNotExpired => "Grace period has not yet expired",
            ErrorCode::InvalidTokenType => "Invalid token type",
            ErrorCode::TokenAccountMismatch => "Token account does not match expected mint",
            ErrorCode::AlreadyInGracePeriod => "Program is already in grace period",
            ErrorCode::WithdrawalLocked => "Cannot withdraw during pending auto-renewal",
            ErrorCode::EscrowAlreadyExists => "Escrow account already exists",
            ErrorCode::NotInGracePeriod => "Not in grace period",
            ErrorCode::PoolUtilizationTooHigh => "Pool utilization exceeds 80% limit - cannot fund deployment",
            ErrorCode::SubscriptionExtensionOverflow => "Subscription extension would cause overflow",
            ErrorCode::SubscriptionExtensionTooLarge => "Maximum subscription extension is 120 months (10 years)",
            ErrorCode::RewardDebtExceedsAccumulated => "Reward debt exceeds accumulated rewards - data corruption",
            ErrorCode::WithdrawalAlreadyQueued => "Withdrawal already queued - cancel existing withdrawal first",
            ErrorCode::WithdrawalAlreadyProcessed => "Withdrawal has already been processed",
            ErrorCode::NoQueuedWithdrawal => "No queued withdrawal to cancel",
            ErrorCode::WithdrawalQueueEmpty => "Withdrawal queue is empty",
            ErrorCode::InvalidQueuePosition => "Invalid queue position",
            ErrorCode::DebtNotRepaid => "Debt not yet repaid - cannot close program",
            ErrorCode::RecoveryRatioTooLow => "Recovery ratio too low - investigate before proceeding",
            ErrorCode::NoDebtToRepay => "No debt to repay",
            ErrorCode::InvalidDebtRepayment => "Invalid debt repayment amount",
            ErrorCode::NoStakersForDistribution => "No stakers for reward distribution",
            ErrorCode::InvalidDistributionPercentage => "Invalid distribution percentage",
            ErrorCode::NoPendingRewards => "No pending rewards to distribute",
        }
    }
}

} // verus!
