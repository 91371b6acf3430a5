//! The platform token: its parameters, the record of a holder's account,
//! and the records of what happens to tokens.

use vstd::prelude::*;
use solana_program::pubkey::Pubkey;

verus! {

/// Decimal places of the token.
pub const TAFOR_DECIMALS: u8 = 9;

/// Symbol of the token.
pub const TAFOR_SYMBOL: &'static str = "TAFOR";

/// Name of the token.
pub const TAFOR_NAME: &'static str = "TaleForge Token";

/// The standing of a holder, from the lowest to the highest.
#[derive(Clone, Copy, Debug, PartialEq, Eq, Structural)]
pub enum TaforLevel {
    Spark,
    Shine,
    Radiant,
    Brilliant,
    Luminous,
}

/// What the platform records about one holder of the token.
#[derive(Clone, Copy, Debug, PartialEq)]
pub struct TaforAccount {
    pub owner: Pubkey,
    pub balance: u64,
    pub level: TaforLevel,
    pub staked_amount: u64,
    pub last_stake_time: i64,
    pub total_earned: u64,
}

/// Tokens were minted.
#[derive(Clone, Copy, Debug, PartialEq)]
pub struct TokenMinted {
    pub recipient: Pubkey,
    pub amount: u64,
    pub timestamp: i64,
}

/// Tokens were burned.
#[derive(Clone, Copy, Debug, PartialEq)]
pub struct TokenBurned {
    pub owner: Pubkey,
    pub amount: u64,
    pub timestamp: i64,
}

/// Tokens were staked.
#[derive(Clone, Copy, Debug, PartialEq)]
pub struct TokenStaked {
    pub owner: Pubkey,
    pub amount: u64,
    pub timestamp: i64,
}

/// Staked tokens were taken back, with their rewards.
#[derive(Clone, Copy, Debug, PartialEq)]
pub struct TokenUnstaked {
    pub owner: Pubkey,
    pub amount: u64,
    pub rewards: u64,
    pub timestamp: i64,
}

/// Why a token-account operation was rejected.
#[derive(Clone, Copy, Debug, PartialEq, Eq, Structural)]
pub enum TokenError {
    /// Insufficient balance.
    InsufficientBalance,
    /// Invalid stake amount.
    InvalidStakeAmount,
    /// Stake still locked.
    StakeLocked,
    /// Invalid unstake amount.
    InvalidUnstakeAmount,
}

impl TokenError {
    /// The text that describes the error to a user.
    pub open spec fn spec_message(self) -> Seq<char> {
        match self {
            TokenError::InsufficientBalance => "Insufficient balance"@,
            TokenError::InvalidStakeAmount => "Invalid stake amount"@,
            TokenError::StakeLocked => "Stake still locked"@,
            TokenError::InvalidUnstakeAmount => "Invalid unstake amount"@,
        }
    }

    /// The text that describes the error to a user.
    pub fn message(&self) -> (text: &'static str)
        ensures
            text@ == self.spec_message(),
    {
        match self {
            TokenError::InsufficientBalance => "Insufficient balance",
            TokenError::InvalidStakeAmount => "Invalid stake amount",
            TokenError::StakeLocked => "Stake still locked",
            TokenError::InvalidUnstakeAmount => "Invalid unstake amount",
        }
    }
}

} // verus!
