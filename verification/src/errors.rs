//! The errors that the platform's operations return.

use vstd::prelude::*;

verus! {

/// Why an operation was rejected. A rejected operation changes nothing.
#[derive(Clone, Copy, Debug, PartialEq, Eq, Structural)]
pub enum TaleForgeError {
    /// Title length must be between 1 and 100 characters.
    InvalidTitleLength,
    /// Description length must be between 1 and 1000 characters.
    InvalidDescriptionLength,
    /// Pen name length must be between 1 and 50 characters.
    InvalidPenNameLength,
    /// Invalid CID format.
    InvalidCIDFormat,
    /// Story is already completed.
    StoryAlreadyCompleted,
    /// Unauthorized author.
    UnauthorizedAuthor,
    /// Unauthorized NFT owner.
    UnauthorizedOwner,
    /// Invalid chapter number.
    InvalidChapterNumber,
    /// Invalid NFT metadata.
    InvalidNFTMetadata,
    /// Maximum NFTs reached for this story.
    MaxNFTsReached,
    /// Invalid tip amount.
    InvalidTipAmount,
    /// No eligible readers for lottery.
    NoEligibleReaders,
    /// Too early for lottery.
    TooEarlyForLottery,
    /// Already checked in today.
    AlreadyCheckedIn,
    /// Empty reward pool.
    EmptyRewardPool,
    /// No active readers.
    NoActiveReaders,
    /// Insufficient eligible readers.
    InsufficientEligibleReaders,
    /// NFT minting is disabled for this story.
    NFTMintingDisabled,
    /// NFT is not transferable.
    NFTNotTransferable,
    /// Too early to distribute mining rewards.
    TooEarlyToDistribute,
    /// Insufficient word count for NFT minting.
    InsufficientWordCount,
    /// Maximum first batch NFTs reached.
    MaxFirstBatchNFTsReached,
    /// First mint must be completed before second mint.
    FirstMintNotCompleted,
    /// Second mint not enabled yet.
    SecondMintNotEnabled,
    /// NFT is already listed.
    NFTAlreadyListed,
    /// NFT is not listed for sale.
    NFTNotListed,
    /// Invalid listing price.
    InvalidListPrice,
    /// Token accounts required for token payment.
    TokenAccountsRequired,
    /// Invalid payment method.
    InvalidPaymentMethod,
    /// Invalid listing prices.
    InvalidListPrices,
    /// Currency type mismatch.
    CurrencyTypeMismatch,
    /// Reentrancy detected.
    ReentrancyError,
    /// Target word count must be at least 50,000.
    InvalidTargetWordCount,
    /// Story is abandoned.
    StoryAbandoned,
    /// Target word count not met.
    TargetWordCountNotMet,
    /// Invalid author.
    InvalidAuthor,
    /// Author not initialized.
    AuthorNotInitialized,
    /// Invalid author statistics update.
    InvalidAuthorStats,
    /// Invalid unstake amount.
    InvalidUnstakeAmount,
    /// Pen name already exists.
    PenNameAlreadyExists,
    /// Maximum stories exceeded.
    MaxStoriesExceeded,
    /// Invalid pen name.
    InvalidPenName,
    /// Invalid word count.
    InvalidWordCount,
    /// Invalid NFT limit.
    InvalidNFTLimit,
    /// Unauthorized platform operation.
    UnauthorizedPlatform,
    /// No staked earnings to release.
    NoStakedEarnings,
    /// Invalid NFT.
    InvalidNFT,
    /// Stake period not met.
    StakePeriodNotMet,
    /// No active stories found.
    NoActiveStories,
    /// Failed to load story data.
    StoryLoadError,
    /// Failed to load NFT data.
    NFTLoadError,
    /// Failed to process mining rewards.
    MiningRewardError,
    /// Failed to update mining power.
    MiningPowerUpdateError,
    /// Failed to distribute rewards.
    RewardDistributionError,
    /// Invalid mining power calculation.
    InvalidMiningPower,
    /// The global story list is full.
    GlobalStoryListFull,
    /// Calculation is already in progress.
    CalculationInProgress,
    /// Not in calculation period.
    NotInCalculationPeriod,
    /// Too early to calculate mining power.
    TooEarlyToCalculate,
    /// Batch size exceeded.
    BatchSizeExceeded,
    /// Invalid batch.
    InvalidBatch,
    /// Not all batches completed.
    BatchesNotCompleted,
    /// No unclaimed rewards.
    NoUnclaimedRewards,
    /// Period reward not found.
    PeriodRewardNotFound,
    /// Story not active.
    StoryNotActive,
    /// Story already processed.
    StoryAlreadyProcessed,
    /// Invalid reward distribution.
    InvalidRewardDistribution,
    /// A computed value does not fit in the field that holds it.
    ArithmeticOverflow,
}

impl TaleForgeError {
    /// The text that describes the error to a user.
    pub open spec fn spec_message(self) -> Seq<char> {
        match self {
            TaleForgeError::InvalidTitleLength => "Title length must be between 1 and 100 characters"@,
            TaleForgeError::InvalidDescriptionLength => "Description length must be between 1 and 1000 characters"@,
            TaleForgeError::InvalidPenNameLength => "Pen name length must be between 1 and 50 characters"@,
            TaleForgeError::InvalidCIDFormat => "Invalid CID format"@,
            TaleForgeError::StoryAlreadyCompleted => "Story is already completed"@,
            TaleForgeError::UnauthorizedAuthor => "Unauthorized author"@,
            TaleForgeError::UnauthorizedOwner => "Unauthorized NFT owner"@,
            TaleForgeError::InvalidChapterNumber => "Invalid chapter number"@,
            TaleForgeError::InvalidNFTMetadata => "Invalid NFT metadata"@,
            TaleForgeError::MaxNFTsReached => "Maximum NFTs reached for this story"@,
            TaleForgeError::InvalidTipAmount => "Invalid tip amount"@,
            TaleForgeError::NoEligibleReaders => "No eligible readers for lottery"@,
            TaleForgeError::TooEarlyForLottery => "Too early for lottery"@,
            TaleForgeError::AlreadyCheckedIn => "Already checked in today"@,
            TaleForgeError::EmptyRewardPool => "Empty reward pool"@,
            TaleForgeError::NoActiveReaders => "No active readers"@,
            TaleForgeError::InsufficientEligibleReaders => "Insufficient eligible readers"@,
            TaleForgeError::NFTMintingDisabled => "NFT minting is disabled for this story"@,
            TaleForgeError::NFTNotTransferable => "NFT is not transferable"@,
            TaleForgeError::TooEarlyToDistribute => "Too early to distribute mining rewards"@,
            TaleForgeError::InsufficientWordCount => "Insufficient word count for NFT minting"@,
            TaleForgeError::MaxFirstBatchNFTsReached => "Maximum first batch NFTs reached"@,
            TaleForgeError::FirstMintNotCompleted => "First mint must be completed before second mint"@,
            TaleForgeError::SecondMintNotEnabled => "Second mint not enabled yet"@,
            TaleForgeError::NFTAlreadyListed => "NFT is already listed"@,
            TaleForgeError::NFTNotListed => "NFT is not listed for sale"@,
            TaleForgeError::InvalidListPrice => "Invalid listing price"@,
            TaleForgeError::TokenAccountsRequired => "Token accounts required for token payment"@,
            TaleForgeError::InvalidPaymentMethod => "Invalid payment method"@,
            TaleForgeError::InvalidListPrices => "Invalid listing prices"@,
            TaleForgeError::CurrencyTypeMismatch => "Currency type mismatch"@,
            TaleForgeError::ReentrancyError => "Reentrancy detected"@,
            TaleForgeError::InvalidTargetWordCount => "Target word count must be at least 50,000"@,
            TaleForgeError::StoryAbandoned => "Story is abandoned"@,
            TaleForgeError::TargetWordCountNotMet => "Target word count not met"@,
            TaleForgeError::InvalidAuthor => "Invalid author"@,
            TaleForgeError::AuthorNotInitialized => "Author not initialized"@,
            TaleForgeError::InvalidAuthorStats => "Invalid author statistics update"@,
            TaleForgeError::InvalidUnstakeAmount => "Invalid unstake amount"@,
            TaleForgeError::PenNameAlreadyExists => "Pen name already exists"@,
            TaleForgeError::MaxStoriesExceeded => "Maximum stories exceeded"@,
            TaleForgeError::InvalidPenName => "Invalid pen name"@,
            TaleForgeError::InvalidWordCount => "Invalid word count"@,
            TaleForgeError::InvalidNFTLimit => "Invalid NFT limit"@,
            TaleForgeError::UnauthorizedPlatform => "Unauthorized platform operation"@,
            TaleForgeError::NoStakedEarnings => "No staked earnings to release"@,
            TaleForgeError::InvalidNFT => "Invalid NFT"@,
            TaleForgeError::StakePeriodNotMet => "Stake period not met"@,
            TaleForgeError::NoActiveStories => "No active stories found"@,
            TaleForgeError::StoryLoadError => "Failed to load story data"@,
            TaleForgeError::NFTLoadError => "Failed to load NFT data"@,
            TaleForgeError::MiningRewardError => "Failed to process mining rewards"@,
            TaleForgeError::MiningPowerUpdateError => "Failed to update mining power"@,
            TaleForgeError::RewardDistributionError => "Failed to distribute rewards"@,
            TaleForgeError::InvalidMiningPower => "Invalid mining power calculation"@,
            TaleForgeError::GlobalStoryListFull => "Global story list is full"@,
            TaleForgeError::CalculationInProgress => "Calculation is already in progress"@,
            TaleForgeError::NotInCalculationPeriod => "Not in calculation period"@,
            TaleForgeError::TooEarlyToCalculate => "Too early to calculate mining power"@,
            TaleForgeError::BatchSizeExceeded => "Batch size exceeded"@,
            TaleForgeError::InvalidBatch => "Invalid batch"@,
            TaleForgeError::BatchesNotCompleted => "Not all batches completed"@,
            TaleForgeError::NoUnclaimedRewards => "No unclaimed rewards"@,
            TaleForgeError::PeriodRewardNotFound => "Period reward not found"@,
            TaleForgeError::StoryNotActive => "Story not active"@,
            TaleForgeError::StoryAlreadyProcessed => "Story already processed"@,
            TaleForgeError::InvalidRewardDistribution => "Invalid reward distribution"@,
            TaleForgeError::ArithmeticOverflow => "Arithmetic overflow"@,
        }
    }

    /// The text that describes the error to a user.
    pub fn message(&self) -> (text: &'static str)
        ensures
            text@ == self.spec_message(),
    {
        match self {
            TaleForgeError::InvalidTitleLength => "Title length must be between 1 and 100 characters",
            TaleForgeError::InvalidDescriptionLength => "Description length must be between 1 and 1000 characters",
            TaleForgeError::InvalidPenNameLength => "Pen name length must be between 1 and 50 characters",
            TaleForgeError::InvalidCIDFormat => "Invalid CID format",
            TaleForgeError::StoryAlreadyCompleted => "Story is already completed",
            TaleForgeError::UnauthorizedAuthor => "Unauthorized author",
            TaleForgeError::UnauthorizedOwner => "Unauthorized NFT owner",
            TaleForgeError::InvalidChapterNumber => "Invalid chapter number",
            TaleForgeError::InvalidNFTMetadata => "Invalid NFT metadata",
            TaleForgeError::MaxNFTsReached => "Maximum NFTs reached for this story",
            TaleForgeError::InvalidTipAmount => "Invalid tip amount",
            TaleForgeError::NoEligibleReaders => "No eligible readers for lottery",
            TaleForgeError::TooEarlyForLottery => "Too early for lottery",
            TaleForgeError::AlreadyCheckedIn => "Already checked in today",
            TaleForgeError::EmptyRewardPool => "Empty reward pool",
            TaleForgeError::NoActiveReaders => "No active readers",
            TaleForgeError::InsufficientEligibleReaders => "Insufficient eligible readers",
            TaleForgeError::NFTMintingDisabled => "NFT minting is disabled for this story",
            TaleForgeError::NFTNotTransferable => "NFT is not transferable",
            TaleForgeError::TooEarlyToDistribute => "Too early to distribute mining rewards",
            TaleForgeError::InsufficientWordCount => "Insufficient word count for NFT minting",
            TaleForgeError::MaxFirstBatchNFTsReached => "Maximum first batch NFTs reached",
            TaleForgeError::FirstMintNotCompleted => "First mint must be completed before second mint",
            TaleForgeError::SecondMintNotEnabled => "Second mint not enabled yet",
            TaleForgeError::NFTAlreadyListed => "NFT is already listed",
            TaleForgeError::NFTNotListed => "NFT is not listed for sale",
            TaleForgeError::InvalidListPrice => "Invalid listing price",
            TaleForgeError::TokenAccountsRequired => "Token accounts required for token payment",
            TaleForgeError::InvalidPaymentMethod => "Invalid payment method",
            TaleForgeError::InvalidListPrices => "Invalid listing prices",
            TaleForgeError::CurrencyTypeMismatch => "Currency type mismatch",
            TaleForgeError::ReentrancyError => "Reentrancy detected",
            TaleForgeError::InvalidTargetWordCount => "Target word count must be at least 50,000",
            TaleForgeError::StoryAbandoned => "Story is abandoned",
            TaleForgeError::TargetWordCountNotMet => "Target word count not met",
            TaleForgeError::InvalidAuthor => "Invalid author",
            TaleForgeError::AuthorNotInitialized => "Author not initialized",
            TaleForgeError::InvalidAuthorStats => "Invalid author statistics update",
            TaleForgeError::InvalidUnstakeAmount => "Invalid unstake amount",
            TaleForgeError::PenNameAlreadyExists => "Pen name already exists",
            TaleForgeError::MaxStoriesExceeded => "Maximum stories exceeded",
            TaleForgeError::InvalidPenName => "Invalid pen name",
            TaleForgeError::InvalidWordCount => "Invalid word count",
            TaleForgeError::InvalidNFTLimit => "Invalid NFT limit",
            TaleForgeError::UnauthorizedPlatform => "Unauthorized platform operation",
            TaleForgeError::NoStakedEarnings => "No staked earnings to release",
            TaleForgeError::InvalidNFT => "Invalid NFT",
            TaleForgeError::StakePeriodNotMet => "Stake period not met",
            TaleForgeError::NoActiveStories => "No active stories found",
            TaleForgeError::StoryLoadError => "Failed to load story data",
            TaleForgeError::NFTLoadError => "Failed to load NFT data",
            TaleForgeError::MiningRewardError => "Failed to process mining rewards",
            TaleForgeError::MiningPowerUpdateError => "Failed to update mining power",
            TaleForgeError::RewardDistributionError => "Failed to distribute rewards",
            TaleForgeError::InvalidMiningPower => "Invalid mining power calculation",
            TaleForgeError::GlobalStoryListFull => "Global story list is full",
            TaleForgeError::CalculationInProgress => "Calculation is already in progress",
            TaleForgeError::NotInCalculationPeriod => "Not in calculation period",
            TaleForgeError::TooEarlyToCalculate => "Too early to calculate mining power",
            TaleForgeError::BatchSizeExceeded => "Batch size exceeded",
            TaleForgeError::InvalidBatch => "Invalid batch",
            TaleForgeError::BatchesNotCompleted => "Not all batches completed",
            TaleForgeError::NoUnclaimedRewards => "No unclaimed rewards",
            TaleForgeError::PeriodRewardNotFound => "Period reward not found",
            TaleForgeError::StoryNotActive => "Story not active",
            TaleForgeError::StoryAlreadyProcessed => "Story already processed",
            TaleForgeError::InvalidRewardDistribution => "Invalid reward distribution",
            TaleForgeError::ArithmeticOverflow => "Arithmetic overflow",
        }
    }
}

} // verus!
