//! Setting the platform up.

use vstd::prelude::*;
use solana_program::pubkey::Pubkey;
use crate::constants::TOTAL_SUPPLY;
use crate::emission::MiningPool;
use crate::events::PlatformInitialized;
use crate::lottery::ReaderRewardPool;

verus! {

/// What setting the platform up hands back.
#[derive(Clone, Copy, Debug, PartialEq)]
pub struct PlatformSetup {
    pub mining_pool: MiningPool,
    pub reader_reward_pool: ReaderRewardPool,
    /// The tokens that the caller is to mint into the mining pool.
    pub mint_amount: u64,
    pub event: PlatformInitialized,
}

/// The mining pool of a platform set up at `now`: it holds the whole supply,
/// and nothing has been paid from it.
pub open spec fn spec_initial_mining_pool(mint: Pubkey, now: i64) -> MiningPool {
    MiningPool {
        start_time: now,
        last_reward_time: now,
        total_distributed: 0,
        current_epoch: 0,
        total_mining_power: 0,
        total_amount: 1_000_000_000,
        token_mint: mint,
    }
}

/// The readers' pool of a platform set up at `now`: it is empty, and its
/// first lottery is due thirty days on.
pub open spec fn spec_initial_reader_pool(mint: Pubkey, now: i64) -> ReaderRewardPool {
    ReaderRewardPool {
        total_amount: 0,
        last_lottery_time: now,
        active_readers: 0,
        token_mint: mint,
        accumulated_rewards: 0,
        last_distribution: 0,
    }
}

/// Sets up the mining pool and the readers' pool of the platform. The whole
/// supply is to be minted into the mining pool; there is no reserve.
pub fn initialize_platform(
    mining_pool_key: Pubkey,
    reader_reward_pool_key: Pubkey,
    mint: Pubkey,
    current_time: i64,
) -> (setup: PlatformSetup)
    ensures
        setup == (PlatformSetup {
            mining_pool: spec_initial_mining_pool(mint, current_time),
            reader_reward_pool: spec_initial_reader_pool(mint, current_time),
            mint_amount: 1_000_000_000,
            event: PlatformInitialized {
                mining_pool: mining_pool_key,
                reader_reward_pool: reader_reward_pool_key,
                mint,
                initial_mining_supply: 1_000_000_000,
                treasury_reserve: 0,
                timestamp: current_time,
            },
        }),
{
    let mining_pool = MiningPool {
        start_time: current_time,
        last_reward_time: current_time,
        total_distributed: 0,
        current_epoch: 0,
        total_mining_power: 0,
        total_amount: TOTAL_SUPPLY,
        token_mint: mint,
    };
    let reader_reward_pool = ReaderRewardPool {
        total_amount: 0,
        last_lottery_time: current_time,
        active_readers: 0,
        token_mint: mint,
        accumulated_rewards: 0,
        last_distribution: 0,
    };
    PlatformSetup {
        mining_pool,
        reader_reward_pool,
        mint_amount: TOTAL_SUPPLY,
        event: PlatformInitialized {
            mining_pool: mining_pool_key,
            reader_reward_pool: reader_reward_pool_key,
            mint,
            initial_mining_supply: TOTAL_SUPPLY,
            treasury_reserve: 0,
            timestamp: current_time,
        },
    }
}

} // verus!
