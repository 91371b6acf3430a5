//! The platform's fixed parameters.

use vstd::prelude::*;

verus! {

/// Total token supply; all of it enters circulation through mining.
pub const TOTAL_SUPPLY: u64 = 1_000_000_000;

/// Reward of the first week: the supply spread over three years of weeks.
pub const INITIAL_WEEKLY_REWARD: u64 = 6_410_256;

/// Length of one halving period, in seconds (three years).
pub const HALVING_PERIOD: i64 = 94_608_000;

/// Platform share of a reward, in percent.
pub const PLATFORM_SHARE: u8 = 10;

/// Author share of a reward, in percent.
pub const AUTHOR_SHARE: u8 = 45;

/// NFT holders' share of a reward, in percent.
pub const NFT_HOLDERS_SHARE: u8 = 45;

/// Upper limit of NFTs per story, over both mint batches.
pub const MAX_NFTS_PER_STORY: u32 = 100;

/// Size of the first mint batch.
pub const FIRST_BATCH_NFTS: u32 = 10;

/// Seconds in one day.
pub const DAY_IN_SECONDS: i64 = 86_400;

/// Shortest time between two epochs, in seconds (seven days).
pub const EPOCH_SECONDS: i64 = 604_800;

/// Shortest time between two lotteries, in seconds (thirty days).
pub const LOTTERY_PERIOD_SECONDS: i64 = 2_592_000;

/// Works scored by one batch call, at most.
pub const DEFAULT_BATCH_SIZE: u8 = 25;

/// Finalized periods kept in the epoch history.
pub const PERIOD_HISTORY_LIMIT: usize = 10;

/// Active days a reader needs in the month to enter the lottery.
pub const MIN_ACTIVE_DAYS_FOR_LOTTERY: u8 = 7;

/// Share of active readers that win a base prize, in percent.
pub const LOTTERY_WINNER_PERCENTAGE: u32 = 3;

/// Number of bonus prizes per lottery, at most.
pub const LOTTERY_EXTRA_PRIZE_COUNT: u32 = 10;

/// Largest eligible set that is paid evenly without a draw.
pub const MINIMAL_LOTTERY_LIMIT: usize = 10;

/// Slots in a reader's check-in ring.
pub const CHECK_IN_SLOTS: usize = 30;

/// Smallest target word count of a story that may mine.
pub const MIN_MINING_WORDS: u64 = 50_000;

/// Platform share of an abandoned story's stake, in percent.
pub const ABANDONED_PLATFORM_SHARE: u8 = 20;

/// Days without an update after which an unfinished story counts as abandoned.
pub const MAX_INACTIVE_DAYS: i64 = 30;

/// Token units that count as one currency unit in scoring.
pub const TOKEN_UNIT: u64 = 100_000;

/// Stories one author may hold, at most.
pub const MAX_STORIES_PER_AUTHOR: u32 = 50;

/// Marketplace fee, in thousandths of the price.
pub const PLATFORM_FEE_PER_MILLE: u64 = 25;

} // verus!
