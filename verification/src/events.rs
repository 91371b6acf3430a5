//! The records that operations hand back for observers: one per state
//! transition, with the values before and after and the time.

use vstd::prelude::*;
use solana_program::pubkey::Pubkey;
use crate::nft::{NFTType, Rarity};

verus! {

/// The platform's pools were set up.
#[derive(Clone, Copy, Debug, PartialEq)]
pub struct PlatformInitialized {
    pub mining_pool: Pubkey,
    pub reader_reward_pool: Pubkey,
    pub mint: Pubkey,
    pub initial_mining_supply: u64,
    pub treasury_reserve: u64,
    pub timestamp: i64,
}

/// A story was created.
#[derive(Clone, Debug, PartialEq)]
pub struct StoryCreated {
    pub story: Pubkey,
    pub author: Pubkey,
    pub title: String,
    pub target_words: u64,
    pub timestamp: i64,
}

/// A chapter was published.
#[derive(Clone, Copy, Debug, PartialEq)]
pub struct ChapterUpdated {
    pub story: Pubkey,
    pub chapter_number: u32,
    pub timestamp: i64,
}

/// A story was tipped.
#[derive(Clone, Copy, Debug, PartialEq)]
pub struct StoryTipped {
    pub story: Pubkey,
    pub tipper: Pubkey,
    pub amount: u64,
    /// Whether the tip was paid in the platform token rather than in SOL.
    pub use_token: bool,
    pub staked_amount: u64,
    pub timestamp: i64,
}

/// An NFT was minted.
#[derive(Clone, Copy, Debug, PartialEq)]
pub struct NFTMinted {
    pub story: Pubkey,
    pub nft: Pubkey,
    pub nft_type: NFTType,
    pub rarity: Rarity,
    pub timestamp: i64,
}

/// A story was liked.
#[derive(Clone, Copy, Debug, PartialEq)]
pub struct StoryLiked {
    pub story: Pubkey,
    pub user: Pubkey,
    pub timestamp: i64,
}

/// A story was commented on.
#[derive(Clone, Copy, Debug, PartialEq)]
pub struct StoryCommented {
    pub story: Pubkey,
    pub user: Pubkey,
    pub timestamp: i64,
}

/// Words were added to a story.
#[derive(Clone, Copy, Debug, PartialEq)]
pub struct WordCountUpdated {
    pub story: Pubkey,
    pub total_words: u64,
    pub weekly_words: u64,
    pub author_total_words: u64,
    pub timestamp: i64,
}

/// A lottery was due but nobody was eligible; the pool carries over.
#[derive(Clone, Debug, PartialEq)]
pub struct LotterySkipped {
    pub reason: String,
    pub accumulated_amount: u64,
    pub timestamp: i64,
}

/// A lottery with few eligible readers paid them evenly.
#[derive(Clone, Copy, Debug, PartialEq)]
pub struct MinimalLotteryCompleted {
    pub winner_count: u32,
    pub distributed_amount: u64,
    pub reserved_amount: u64,
    pub timestamp: i64,
}

/// A lottery drew its winners.
#[derive(Clone, Copy, Debug, PartialEq)]
pub struct MonthlyLotteryCompleted {
    pub base_winners: u32,
    pub extra_winners: u8,
    pub total_reward: u64,
    pub timestamp: i64,
}

/// An NFT was put up for sale.
#[derive(Clone, Copy, Debug, PartialEq)]
pub struct NFTListed {
    pub story: Pubkey,
    pub nft: Pubkey,
    pub owner: Pubkey,
    pub price_sol: u64,
    pub price_token: u64,
    pub timestamp: i64,
}

/// An NFT was sold.
#[derive(Clone, Copy, Debug, PartialEq)]
pub struct NFTSold {
    pub story: Pubkey,
    pub nft: Pubkey,
    pub seller: Pubkey,
    pub buyer: Pubkey,
    pub price: u64,
    pub platform_fee: u64,
    /// Whether the price was paid in the platform token rather than in SOL.
    pub use_token: bool,
    pub timestamp: i64,
}

/// An NFT was taken off sale.
#[derive(Clone, Copy, Debug, PartialEq)]
pub struct NFTListingCanceled {
    pub story: Pubkey,
    pub nft: Pubkey,
    pub owner: Pubkey,
    pub timestamp: i64,
}

/// An epoch was opened for scoring.
#[derive(Clone, Copy, Debug, PartialEq)]
pub struct WeeklyCalculationStarted {
    pub period: u64,
    pub total_stories: u32,
    pub total_batches: u32,
    pub timestamp: i64,
}

/// A story was scored.
#[derive(Clone, Copy, Debug, PartialEq)]
pub struct StoryMiningPowerUpdated {
    pub story: Pubkey,
    pub old_power: u64,
    pub new_power: u64,
    pub timestamp: i64,
}

/// A batch of stories was scored.
#[derive(Clone, Copy, Debug, PartialEq)]
pub struct BatchCompleted {
    pub batch: u32,
    pub stories_processed: u32,
    pub is_final_batch: bool,
    pub timestamp: i64,
}

/// An epoch was closed and its rate fixed.
#[derive(Clone, Copy, Debug, PartialEq)]
pub struct WeeklyCalculationCompleted {
    pub period: u64,
    pub total_mining_power: u64,
    pub reward_per_power: u64,
    pub total_rewards: u64,
    pub timestamp: i64,
}

/// The rewards of a story's pending periods were split four ways.
#[derive(Clone, Copy, Debug, PartialEq)]
pub struct RewardsDistributed {
    pub story: Pubkey,
    pub author: Pubkey,
    pub period: u64,
    pub mining_power: u64,
    pub total_reward: u64,
    pub reader_pool_reward: u64,
    pub platform_reward: u64,
    pub author_reward: u64,
    pub nft_reward: u64,
    pub timestamp: i64,
}

/// A summary of one distribution of mining rewards.
#[derive(Clone, Copy, Debug, PartialEq)]
pub struct MiningRewardDistributed {
    pub story: Pubkey,
    pub total_reward: u64,
    pub platform_reward: u64,
    pub reader_pool_reward: u64,
    pub remaining_reward: u64,
    pub active_stories_count: u32,
    pub total_mining_power: u64,
    pub timestamp: i64,
}

/// A story's rewards for a range of closed periods were claimed.
#[derive(Clone, Copy, Debug, PartialEq)]
pub struct StoryRewardClaimed {
    pub story: Pubkey,
    pub author_reward: u64,
    pub nft_holders_reward: u64,
    pub total_nft_weight: u64,
    pub nft_count: u64,
    /// Number of periods that the claim covered.
    pub claimed_periods: u64,
    pub total_reward: u64,
    /// The period that was current at the time of the claim.
    pub period: u64,
    pub timestamp: i64,
}

/// An NFT received its share of a claim: paid at once for a legendary NFT,
/// added to its locked earnings for any other.
#[derive(Clone, Copy, Debug, PartialEq)]
pub struct NFTRewardStaked {
    pub nft: Pubkey,
    pub story: Pubkey,
    pub amount: u64,
    pub rarity: Rarity,
    pub batch: u8,
    pub weight: u64,
    pub timestamp: i64,
}

/// An NFT's locked earnings were paid to its holder.
#[derive(Clone, Copy, Debug, PartialEq)]
pub struct NFTEarningsReleased {
    pub nft: Pubkey,
    pub owner: Pubkey,
    pub amount: u64,
    pub timestamp: i64,
}

/// An unfinished story went too long without an update; its stake is split
/// between the platform and the holders.
#[derive(Clone, Copy, Debug, PartialEq)]
pub struct StoryAbandoned {
    pub story: Pubkey,
    pub staked_amount: u64,
    pub platform_share: u64,
    pub holder_share: u64,
    /// Whether the stake is held in the platform token rather than in SOL.
    pub use_token: bool,
    pub timestamp: i64,
}

/// A finished story's stake was paid to its author.
#[derive(Clone, Copy, Debug, PartialEq)]
pub struct StakeReleased {
    pub story: Pubkey,
    pub author: Pubkey,
    pub amount: u64,
    /// Whether the stake was held in the platform token rather than in SOL.
    pub use_token: bool,
    pub timestamp: i64,
}

/// An author took a new pen name.
#[derive(Clone, Debug, PartialEq)]
pub struct PenNameUpdated {
    pub author: Pubkey,
    pub old_pen_name: String,
    pub new_pen_name: String,
    pub timestamp: i64,
}

} // verus!
