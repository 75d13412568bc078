//! Error types of every module, each with a stable numeric code.
use vstd::prelude::*;

verus! {

/// Errors of the bridge and the modules built around it (codes 100-151).
#[derive(Copy, Clone, Debug, PartialEq, Eq, Structural)]
pub enum BridgeError {
    AlreadyInitialized,
    AmountMustBePositive,
    DestinationChainNotSupported,
    InsufficientValidatorSignatures,
    InvalidValidatorSignature,
    NonceAlreadyProcessed,
    TokenMismatch,
    BridgeTransactionNotFound,
    TimeoutNotReached,
    FeeCannotBeNegative,
    MinimumValidatorsMustBeAtLeastOne,
    ProposalNotFound,
    ProposalAlreadyVoted,
    ProposalExpired,
    InsufficientStake,
    InsufficientBalance,
    ValidatorNotActive,
    ByzantineThresholdNotMet,
    ValidatorAlreadySlashed,
    InvalidSlashingEvidence,
    CannotSlashSelf,
    ChainNotActive,
    AssetNotSupported,
    InvalidChainConfiguration,
    InsufficientLiquidity,
    SlippageExceeded,
    InvalidLPAmount,
    BridgePaused,
    ChainPaused,
    UnauthorizedPause,
    CircuitBreakerTriggered,
    PacketNotFound,
    PacketTimeout,
    InvalidPayload,
    SwapNotFound,
    InvalidHashlock,
    TimelockExpired,
    SwapAlreadyCompleted,
    Unauthorized,
    InvalidInput,
    RetryLimitExceeded,
    RetryBackoffActive,
    BridgeTransactionFailed,
    StorageError,
    NotInitialized,
    IncompatibleInterfaceVersion,
    InvalidInterfaceVersionRange,
    ReentrancyDetected,
    BatchSizeLimitExceeded,
    InvalidTimestamp,
    InvalidParameter,
    NotFound,
}

impl BridgeError {
    /// The stable numeric code of the error.
    pub open spec fn spec_code(&self) -> u32 {
        match self {
            BridgeError::AlreadyInitialized => 100u32,
            BridgeError::AmountMustBePositive => 101u32,
            BridgeError::DestinationChainNotSupported => 102u32,
            BridgeError::InsufficientValidatorSignatures => 103u32,
            BridgeError::InvalidValidatorSignature => 104u32,
            BridgeError::NonceAlreadyProcessed => 105u32,
            BridgeError::TokenMismatch => 106u32,
            BridgeError::BridgeTransactionNotFound => 107u32,
            BridgeError::TimeoutNotReached => 108u32,
            BridgeError::FeeCannotBeNegative => 109u32,
            BridgeError::MinimumValidatorsMustBeAtLeastOne => 110u32,
            BridgeError::ProposalNotFound => 111u32,
            BridgeError::ProposalAlreadyVoted => 112u32,
            BridgeError::ProposalExpired => 113u32,
            BridgeError::InsufficientStake => 114u32,
            BridgeError::InsufficientBalance => 115u32,
            BridgeError::ValidatorNotActive => 116u32,
            BridgeError::ByzantineThresholdNotMet => 117u32,
            BridgeError::ValidatorAlreadySlashed => 118u32,
            BridgeError::InvalidSlashingEvidence => 119u32,
            BridgeError::CannotSlashSelf => 120u32,
            BridgeError::ChainNotActive => 121u32,
            BridgeError::AssetNotSupported => 122u32,
            BridgeError::InvalidChainConfiguration => 123u32,
            BridgeError::InsufficientLiquidity => 124u32,
            BridgeError::SlippageExceeded => 125u32,
            BridgeError::InvalidLPAmount => 126u32,
            BridgeError::BridgePaused => 127u32,
            BridgeError::ChainPaused => 128u32,
            BridgeError::UnauthorizedPause => 129u32,
            BridgeError::CircuitBreakerTriggered => 130u32,
            BridgeError::PacketNotFound => 131u32,
            BridgeError::PacketTimeout => 132u32,
            BridgeError::InvalidPayload => 133u32,
            BridgeError::SwapNotFound => 134u32,
            BridgeError::InvalidHashlock => 135u32,
            BridgeError::TimelockExpired => 136u32,
            BridgeError::SwapAlreadyCompleted => 137u32,
            BridgeError::Unauthorized => 138u32,
            BridgeError::InvalidInput => 139u32,
            BridgeError::RetryLimitExceeded => 140u32,
            BridgeError::RetryBackoffActive => 141u32,
            BridgeError::BridgeTransactionFailed => 142u32,
            BridgeError::StorageError => 143u32,
            BridgeError::NotInitialized => 144u32,
            BridgeError::IncompatibleInterfaceVersion => 145u32,
            BridgeError::InvalidInterfaceVersionRange => 146u32,
            BridgeError::ReentrancyDetected => 147u32,
            BridgeError::BatchSizeLimitExceeded => 148u32,
            BridgeError::InvalidTimestamp => 149u32,
            BridgeError::InvalidParameter => 150u32,
            BridgeError::NotFound => 151u32,
        }
    }

    /// The stable numeric code of the error.
    #[verifier::when_used_as_spec(spec_code)]
    pub fn code(&self) -> (c: u32)
        ensures
            c == self.spec_code(),
    {
        match self {
            BridgeError::AlreadyInitialized => 100u32,
            BridgeError::AmountMustBePositive => 101u32,
            BridgeError::DestinationChainNotSupported => 102u32,
            BridgeError::InsufficientValidatorSignatures => 103u32,
            BridgeError::InvalidValidatorSignature => 104u32,
            BridgeError::NonceAlreadyProcessed => 105u32,
            BridgeError::TokenMismatch => 106u32,
            BridgeError::BridgeTransactionNotFound => 107u32,
            BridgeError::TimeoutNotReached => 108u32,
            BridgeError::FeeCannotBeNegative => 109u32,
            BridgeError::MinimumValidatorsMustBeAtLeastOne => 110u32,
            BridgeError::ProposalNotFound => 111u32,
            BridgeError::ProposalAlreadyVoted => 112u32,
            BridgeError::ProposalExpired => 113u32,
            BridgeError::InsufficientStake => 114u32,
            BridgeError::InsufficientBalance => 115u32,
            BridgeError::ValidatorNotActive => 116u32,
            BridgeError::ByzantineThresholdNotMet => 117u32,
            BridgeError::ValidatorAlreadySlashed => 118u32,
            BridgeError::InvalidSlashingEvidence => 119u32,
            BridgeError::CannotSlashSelf => 120u32,
            BridgeError::ChainNotActive => 121u32,
            BridgeError::AssetNotSupported => 122u32,
            BridgeError::InvalidChainConfiguration => 123u32,
            BridgeError::InsufficientLiquidity => 124u32,
            BridgeError::SlippageExceeded => 125u32,
            BridgeError::InvalidLPAmount => 126u32,
            BridgeError::BridgePaused => 127u32,
            BridgeError::ChainPaused => 128u32,
            BridgeError::UnauthorizedPause => 129u32,
            BridgeError::CircuitBreakerTriggered => 130u32,
            BridgeError::PacketNotFound => 131u32,
            BridgeError::PacketTimeout => 132u32,
            BridgeError::InvalidPayload => 133u32,
            BridgeError::SwapNotFound => 134u32,
            BridgeError::InvalidHashlock => 135u32,
            BridgeError::TimelockExpired => 136u32,
            BridgeError::SwapAlreadyCompleted => 137u32,
            BridgeError::Unauthorized => 138u32,
            BridgeError::InvalidInput => 139u32,
            BridgeError::RetryLimitExceeded => 140u32,
            BridgeError::RetryBackoffActive => 141u32,
            BridgeError::BridgeTransactionFailed => 142u32,
            BridgeError::StorageError => 143u32,
            BridgeError::NotInitialized => 144u32,
            BridgeError::IncompatibleInterfaceVersion => 145u32,
            BridgeError::InvalidInterfaceVersionRange => 146u32,
            BridgeError::ReentrancyDetected => 147u32,
            BridgeError::BatchSizeLimitExceeded => 148u32,
            BridgeError::InvalidTimestamp => 149u32,
            BridgeError::InvalidParameter => 150u32,
            BridgeError::NotFound => 151u32,
        }
    }
}

/// Errors of role checks (code 200).
#[derive(Copy, Clone, Debug, PartialEq, Eq, Structural)]
pub enum AccessControlError {
    MissingRole,
}

impl AccessControlError {
    /// The stable numeric code of the error.
    pub open spec fn spec_code(&self) -> u32 {
        match self {
            AccessControlError::MissingRole => 200u32,
        }
    }

    /// The stable numeric code of the error.
    #[verifier::when_used_as_spec(spec_code)]
    pub fn code(&self) -> (c: u32)
        ensures
            c == self.spec_code(),
    {
        match self {
            AccessControlError::MissingRole => 200u32,
        }
    }
}

/// Errors of the access log (code 210).
#[derive(Copy, Clone, Debug, PartialEq, Eq, Structural)]
pub enum AccessLogError {
    StorageError,
}

impl AccessLogError {
    /// The stable numeric code of the error.
    pub open spec fn spec_code(&self) -> u32 {
        match self {
            AccessLogError::StorageError => 210u32,
        }
    }

    /// The stable numeric code of the error.
    #[verifier::when_used_as_spec(spec_code)]
    pub fn code(&self) -> (c: u32)
        ensures
            c == self.spec_code(),
    {
        match self {
            AccessLogError::StorageError => 210u32,
        }
    }
}

/// Errors of bridge analytics (codes 220-221).
#[derive(Copy, Clone, Debug, PartialEq, Eq, Structural)]
pub enum AnalyticsError {
    InvalidIndex,
    StorageError,
}

impl AnalyticsError {
    /// The stable numeric code of the error.
    pub open spec fn spec_code(&self) -> u32 {
        match self {
            AnalyticsError::InvalidIndex => 220u32,
            AnalyticsError::StorageError => 221u32,
        }
    }

    /// The stable numeric code of the error.
    #[verifier::when_used_as_spec(spec_code)]
    pub fn code(&self) -> (c: u32)
        ensures
            c == self.spec_code(),
    {
        match self {
            AnalyticsError::InvalidIndex => 220u32,
            AnalyticsError::StorageError => 221u32,
        }
    }
}

/// Errors of multi-signature escrow (codes 300-330).
#[derive(Copy, Clone, Debug, PartialEq, Eq, Structural)]
pub enum EscrowError {
    AmountMustBePositive,
    ArbitratorNotAuthorized,
    AtLeastOneSignerRequired,
    CallerNotAuthorized,
    DepositorCannotBeBeneficiary,
    DuplicateSigner,
    EscrowNotPending,
    InsufficientApprovals,
    InvalidAddress,
    InvalidAmount,
    InvalidArbitrator,
    InvalidBeneficiary,
    InvalidSignerCount,
    InvalidSignerThreshold,
    InvalidTimestamp,
    InvalidToken,
    ReentrancyDetected,
    RefundTimeMustBeAfterReleaseTime,
    ReleaseTimeNotReached,
    SignerAlreadyApproved,
    SignerNotAuthorized,
    StorageError,
    EscrowNotFound,
    OnlyDepositorCanRefund,
    RefundNotEnabled,
    RefundTimeNotReached,
    OnlyDepositorCanCancel,
    CannotCancelAfterApprovals,
    OnlyDepositorOrBeneficiaryCanDispute,
    EscrowNotInDispute,
    OnlyArbitratorCanResolve,
}

impl EscrowError {
    /// The stable numeric code of the error.
    pub open spec fn spec_code(&self) -> u32 {
        match self {
            EscrowError::AmountMustBePositive => 300u32,
            EscrowError::ArbitratorNotAuthorized => 301u32,
            EscrowError::AtLeastOneSignerRequired => 302u32,
            EscrowError::CallerNotAuthorized => 303u32,
            EscrowError::DepositorCannotBeBeneficiary => 304u32,
            EscrowError::DuplicateSigner => 305u32,
            EscrowError::EscrowNotPending => 306u32,
            EscrowError::InsufficientApprovals => 307u32,
            EscrowError::InvalidAddress => 308u32,
            EscrowError::InvalidAmount => 309u32,
            EscrowError::InvalidArbitrator => 310u32,
            EscrowError::InvalidBeneficiary => 311u32,
            EscrowError::InvalidSignerCount => 312u32,
            EscrowError::InvalidSignerThreshold => 313u32,
            EscrowError::InvalidTimestamp => 314u32,
            EscrowError::InvalidToken => 315u32,
            EscrowError::ReentrancyDetected => 316u32,
            EscrowError::RefundTimeMustBeAfterReleaseTime => 317u32,
            EscrowError::ReleaseTimeNotReached => 318u32,
            EscrowError::SignerAlreadyApproved => 319u32,
            EscrowError::SignerNotAuthorized => 320u32,
            EscrowError::StorageError => 321u32,
            EscrowError::EscrowNotFound => 322u32,
            EscrowError::OnlyDepositorCanRefund => 323u32,
            EscrowError::RefundNotEnabled => 324u32,
            EscrowError::RefundTimeNotReached => 325u32,
            EscrowError::OnlyDepositorCanCancel => 326u32,
            EscrowError::CannotCancelAfterApprovals => 327u32,
            EscrowError::OnlyDepositorOrBeneficiaryCanDispute => 328u32,
            EscrowError::EscrowNotInDispute => 329u32,
            EscrowError::OnlyArbitratorCanResolve => 330u32,
        }
    }

    /// The stable numeric code of the error.
    #[verifier::when_used_as_spec(spec_code)]
    pub fn code(&self) -> (c: u32)
        ensures
            c == self.spec_code(),
    {
        match self {
            EscrowError::AmountMustBePositive => 300u32,
            EscrowError::ArbitratorNotAuthorized => 301u32,
            EscrowError::AtLeastOneSignerRequired => 302u32,
            EscrowError::CallerNotAuthorized => 303u32,
            EscrowError::DepositorCannotBeBeneficiary => 304u32,
            EscrowError::DuplicateSigner => 305u32,
            EscrowError::EscrowNotPending => 306u32,
            EscrowError::InsufficientApprovals => 307u32,
            EscrowError::InvalidAddress => 308u32,
            EscrowError::InvalidAmount => 309u32,
            EscrowError::InvalidArbitrator => 310u32,
            EscrowError::InvalidBeneficiary => 311u32,
            EscrowError::InvalidSignerCount => 312u32,
            EscrowError::InvalidSignerThreshold => 313u32,
            EscrowError::InvalidTimestamp => 314u32,
            EscrowError::InvalidToken => 315u32,
            EscrowError::ReentrancyDetected => 316u32,
            EscrowError::RefundTimeMustBeAfterReleaseTime => 317u32,
            EscrowError::ReleaseTimeNotReached => 318u32,
            EscrowError::SignerAlreadyApproved => 319u32,
            EscrowError::SignerNotAuthorized => 320u32,
            EscrowError::StorageError => 321u32,
            EscrowError::EscrowNotFound => 322u32,
            EscrowError::OnlyDepositorCanRefund => 323u32,
            EscrowError::RefundNotEnabled => 324u32,
            EscrowError::RefundTimeNotReached => 325u32,
            EscrowError::OnlyDepositorCanCancel => 326u32,
            EscrowError::CannotCancelAfterApprovals => 327u32,
            EscrowError::OnlyDepositorOrBeneficiaryCanDispute => 328u32,
            EscrowError::EscrowNotInDispute => 329u32,
            EscrowError::OnlyArbitratorCanResolve => 330u32,
        }
    }
}

/// Errors of escrow analytics (code 330).
#[derive(Copy, Clone, Debug, PartialEq, Eq, Structural)]
pub enum EscrowAnalyticsError {
    StorageError,
}

impl EscrowAnalyticsError {
    /// The stable numeric code of the error.
    pub open spec fn spec_code(&self) -> u32 {
        match self {
            EscrowAnalyticsError::StorageError => 330u32,
        }
    }

    /// The stable numeric code of the error.
    #[verifier::when_used_as_spec(spec_code)]
    pub fn code(&self) -> (c: u32)
        ensures
            c == self.spec_code(),
    {
        match self {
            EscrowAnalyticsError::StorageError => 330u32,
        }
    }
}

/// Errors of governance voting (codes 340-345).
#[derive(Copy, Clone, Debug, PartialEq, Eq, Structural)]
pub enum GovernanceError {
    AlreadyVoted,
    GovernanceProposalNotActive,
    GovernanceProposalNotFound,
    ProposalsNotInitialized,
    VotingPeriodEnded,
    VotingStillInProgress,
}

impl GovernanceError {
    /// The stable numeric code of the error.
    pub open spec fn spec_code(&self) -> u32 {
        match self {
            GovernanceError::AlreadyVoted => 340u32,
            GovernanceError::GovernanceProposalNotActive => 341u32,
            GovernanceError::GovernanceProposalNotFound => 342u32,
            GovernanceError::ProposalsNotInitialized => 343u32,
            GovernanceError::VotingPeriodEnded => 344u32,
            GovernanceError::VotingStillInProgress => 345u32,
        }
    }

    /// The stable numeric code of the error.
    #[verifier::when_used_as_spec(spec_code)]
    pub fn code(&self) -> (c: u32)
        ensures
            c == self.spec_code(),
    {
        match self {
            GovernanceError::AlreadyVoted => 340u32,
            GovernanceError::GovernanceProposalNotActive => 341u32,
            GovernanceError::GovernanceProposalNotFound => 342u32,
            GovernanceError::ProposalsNotInitialized => 343u32,
            GovernanceError::VotingPeriodEnded => 344u32,
            GovernanceError::VotingStillInProgress => 345u32,
        }
    }
}

/// Errors of the mobile platform entry points (codes 350-352).
#[derive(Copy, Clone, Debug, PartialEq, Eq, Structural)]
pub enum MobilePlatformError {
    DeviceNotSupported,
    InsufficientStorage,
    PaymentFailed,
}

impl MobilePlatformError {
    /// The stable numeric code of the error.
    pub open spec fn spec_code(&self) -> u32 {
        match self {
            MobilePlatformError::DeviceNotSupported => 350u32,
            MobilePlatformError::InsufficientStorage => 351u32,
            MobilePlatformError::PaymentFailed => 352u32,
        }
    }

    /// The stable numeric code of the error.
    #[verifier::when_used_as_spec(spec_code)]
    pub fn code(&self) -> (c: u32)
        ensures
            c == self.spec_code(),
    {
        match self {
            MobilePlatformError::DeviceNotSupported => 350u32,
            MobilePlatformError::InsufficientStorage => 351u32,
            MobilePlatformError::PaymentFailed => 352u32,
        }
    }
}

/// Errors of provenance tracking (code 360).
#[derive(Copy, Clone, Debug, PartialEq, Eq, Structural)]
pub enum ProvenanceError {
    StorageError,
}

impl ProvenanceError {
    /// The stable numeric code of the error.
    pub open spec fn spec_code(&self) -> u32 {
        match self {
            ProvenanceError::StorageError => 360u32,
        }
    }

    /// The stable numeric code of the error.
    #[verifier::when_used_as_spec(spec_code)]
    pub fn code(&self) -> (c: u32)
        ensures
            c == self.spec_code(),
    {
        match self {
            ProvenanceError::StorageError => 360u32,
        }
    }
}

/// Errors of per-user rate limiting (codes 370-371).
#[derive(Copy, Clone, Debug, PartialEq, Eq, Structural)]
pub enum RateLimitingError {
    StorageError,
    RateLimitExceeded,
}

impl RateLimitingError {
    /// The stable numeric code of the error.
    pub open spec fn spec_code(&self) -> u32 {
        match self {
            RateLimitingError::StorageError => 370u32,
            RateLimitingError::RateLimitExceeded => 371u32,
        }
    }

    /// The stable numeric code of the error.
    #[verifier::when_used_as_spec(spec_code)]
    pub fn code(&self) -> (c: u32)
        ensures
            c == self.spec_code(),
    {
        match self {
            RateLimitingError::StorageError => 370u32,
            RateLimitingError::RateLimitExceeded => 371u32,
        }
    }
}

/// Errors of the reward pool (codes 380-389).
#[derive(Copy, Clone, Debug, PartialEq, Eq, Structural)]
pub enum RewardsError {
    AlreadyInitialized,
    AmountExceedsMaxLimit,
    AmountMustBePositive,
    ArithmeticOverflow,
    InsufficientRewardPoolBalance,
    NoPendingRewards,
    NoRewardsAvailable,
    RateCannotBeNegative,
    ReentrancyDetected,
    StorageError,
}

impl RewardsError {
    /// The stable numeric code of the error.
    pub open spec fn spec_code(&self) -> u32 {
        match self {
            RewardsError::AlreadyInitialized => 380u32,
            RewardsError::AmountExceedsMaxLimit => 381u32,
            RewardsError::AmountMustBePositive => 382u32,
            RewardsError::ArithmeticOverflow => 383u32,
            RewardsError::InsufficientRewardPoolBalance => 384u32,
            RewardsError::NoPendingRewards => 385u32,
            RewardsError::NoRewardsAvailable => 386u32,
            RewardsError::RateCannotBeNegative => 387u32,
            RewardsError::ReentrancyDetected => 388u32,
            RewardsError::StorageError => 389u32,
        }
    }

    /// The stable numeric code of the error.
    #[verifier::when_used_as_spec(spec_code)]
    pub fn code(&self) -> (c: u32)
        ensures
            c == self.spec_code(),
    {
        match self {
            RewardsError::AlreadyInitialized => 380u32,
            RewardsError::AmountExceedsMaxLimit => 381u32,
            RewardsError::AmountMustBePositive => 382u32,
            RewardsError::ArithmeticOverflow => 383u32,
            RewardsError::InsufficientRewardPoolBalance => 384u32,
            RewardsError::NoPendingRewards => 385u32,
            RewardsError::NoRewardsAvailable => 386u32,
            RewardsError::RateCannotBeNegative => 387u32,
            RewardsError::ReentrancyDetected => 388u32,
            RewardsError::StorageError => 389u32,
        }
    }
}

/// Errors of content tokenization (codes 390-393).
#[derive(Copy, Clone, Debug, PartialEq, Eq, Structural)]
pub enum TokenizationError {
    InvalidMetadata,
    StorageError,
    TokenNotFound,
    UnauthorizedMint,
}

impl TokenizationError {
    /// The stable numeric code of the error.
    pub open spec fn spec_code(&self) -> u32 {
        match self {
            TokenizationError::InvalidMetadata => 390u32,
            TokenizationError::StorageError => 391u32,
            TokenizationError::TokenNotFound => 392u32,
            TokenizationError::UnauthorizedMint => 393u32,
        }
    }

    /// The stable numeric code of the error.
    #[verifier::when_used_as_spec(spec_code)]
    pub fn code(&self) -> (c: u32)
        ensures
            c == self.spec_code(),
    {
        match self {
            TokenizationError::InvalidMetadata => 390u32,
            TokenizationError::StorageError => 391u32,
            TokenizationError::TokenNotFound => 392u32,
            TokenizationError::UnauthorizedMint => 393u32,
        }
    }
}

} // verus!
