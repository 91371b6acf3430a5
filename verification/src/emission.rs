//! The emission schedule: the weekly reward, halved with every halving
//! period that has passed.

use vstd::prelude::*;
use vstd::arithmetic::power2::{lemma2_to64, lemma_pow2_pos, lemma_pow2_strictly_increases, pow2};
use vstd::bits::lemma_u64_shr_is_div;
use solana_program::pubkey::Pubkey;
use crate::constants::INITIAL_WEEKLY_REWARD;

verus! {

/// The pool from which mining rewards are paid.
#[derive(Clone, Copy, Debug, PartialEq)]
pub struct MiningPool {
    /// When mining began.
    pub start_time: i64,
    /// When a reward was last paid.
    pub last_reward_time: i64,
    /// What has been paid so far.
    pub total_distributed: u64,
    /// Number of halving periods that have passed.
    pub current_epoch: u64,
    pub total_mining_power: u64,
    /// What the pool was filled with.
    pub total_amount: u64,
    /// Mint of the token the pool is held in.
    pub token_mint: Pubkey,
}

/// The weekly reward after `epoch` halvings: the initial reward divided by
/// two to the power of `epoch`, rounded down.
pub open spec fn spec_weekly_reward(epoch: u64) -> int {
    6_410_256int / pow2(epoch as nat) as int
}

/// From the 23rd halving on the weekly reward is nothing.
pub proof fn lemma_weekly_reward_runs_out(epoch: u64)
    requires
        epoch >= 23,
    ensures
        spec_weekly_reward(epoch) == 0,
{
    lemma2_to64();
    if epoch > 23 {
        lemma_pow2_strictly_increases(23, epoch as nat);
    }
    assert(6_410_256int / pow2(epoch as nat) as int == 0) by (nonlinear_arith)
        requires
            pow2(epoch as nat) > 6_410_256,
    ;
}

/// Each halving halves the weekly reward, rounding down.
pub proof fn lemma_weekly_reward_halves(epoch: u64)
    requires
        epoch < u64::MAX,
    ensures
        spec_weekly_reward((epoch + 1) as u64) == spec_weekly_reward(epoch) / 2,
{
    let p = pow2(epoch as nat) as int;
    lemma_pow2_pos(epoch as nat);
    vstd::arithmetic::power2::lemma_pow2_unfold((epoch + 1) as nat);
    vstd::arithmetic::div_mod::lemma_div_denominator(6_410_256, p, 2);
}

impl MiningPool {
    /// The reward of the current week.
    pub fn get_current_reward(&self) -> (reward: u64)
        ensures
            reward == spec_weekly_reward(self.current_epoch),
    {
        if self.current_epoch >= 64 {
            proof {
                lemma_weekly_reward_runs_out(self.current_epoch);
            }
            0
        } else {
            proof {
                lemma_u64_shr_is_div(INITIAL_WEEKLY_REWARD, self.current_epoch);
            }
            INITIAL_WEEKLY_REWARD >> self.current_epoch
        }
    }
}

} // verus!
