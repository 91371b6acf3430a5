//! The claim ledger: what a story is owed for the periods it has not
//! claimed, and how that is split.
//!
//! Two policies stand side by side. A claim over a range of closed periods
//! goes half to the author and half to the holders of the story's NFTs. A
//! lump-sum distribution over a list of pending periods gives a twentieth to
//! the readers' pool and a tenth to the platform first, and halves the rest
//! between the author and the story's stake.

use vstd::prelude::*;
use solana_program::pubkey::Pubkey;
use crate::epoch::{spec_lookup, ActiveStories, PeriodReward};
use crate::errors::TaleForgeError;
use crate::events::{NFTRewardStaked, RewardsDistributed, StoryRewardClaimed};
use crate::keys::{key_eq, same_key};
use crate::nft::{batch_weight, spec_batch_weight, NovelNFT, Rarity};
use crate::story::Story;

verus! {

/// What `power` units of mining power earn over the periods from `first` up
/// to but not including `end`: for each period the power times the period's
/// reward per unit.
///
/// There is no result where a period has no record in the history
/// (`PeriodRewardNotFound`), or where a product or the sum does not fit in
/// 64 bits (`InvalidMiningPower`); the earliest period at which either
/// happens decides.
pub open spec fn spec_range_reward(history: Seq<PeriodReward>, power: u64, first: int, end: int) -> Result<
    int,
    TaleForgeError,
>
    decreases end - first,
{
    if first >= end {
        Ok(0)
    } else {
        match spec_range_reward(history, power, first, end - 1) {
            Err(e) => Err(e),
            Ok(sum) => match spec_lookup(history, (end - 1) as u64) {
                None => Err(TaleForgeError::PeriodRewardNotFound),
                Some(record) => if sum + power * record.reward_per_power > u64::MAX {
                    Err(TaleForgeError::InvalidMiningPower)
                } else {
                    Ok(sum + power * record.reward_per_power)
                },
            },
        }
    }
}

/// A range that fails keeps failing, in the same way, when it is extended.
pub proof fn lemma_range_error_extends(
    history: Seq<PeriodReward>,
    power: u64,
    first: int,
    mid: int,
    end: int,
)
    requires
        first <= mid <= end,
        spec_range_reward(history, power, first, mid) is Err,
    ensures
        spec_range_reward(history, power, first, end) == spec_range_reward(
            history,
            power,
            first,
            mid,
        ),
    decreases end - mid,
{
    if mid < end {
        lemma_range_error_extends(history, power, first, mid, end - 1);
    }
}

/// A reward over a range is never negative.
pub proof fn lemma_range_reward_nonnegative(
    history: Seq<PeriodReward>,
    power: u64,
    first: int,
    end: int,
)
    ensures
        spec_range_reward(history, power, first, end) matches Ok(sum) ==> 0 <= sum <= u64::MAX,
    decreases end - first,
{
    if first < end {
        lemma_range_reward_nonnegative(history, power, first, end - 1);
        match spec_range_reward(history, power, first, end - 1) {
            Ok(sum) => match spec_lookup(history, (end - 1) as u64) {
                Some(record) => {
                    assert(power * record.reward_per_power >= 0) by (nonlinear_arith)
                        requires
                            power >= 0,
                            record.reward_per_power >= 0,
                    ;
                },
                None => {},
            },
            Err(_) => {},
        }
    }
}

/// The sum of the weights of a story's NFTs.
pub open spec fn spec_total_nft_weight(nfts: Seq<NovelNFT>) -> int
    decreases nfts.len(),
{
    if nfts.len() == 0 {
        0
    } else {
        spec_total_nft_weight(nfts.drop_last()) + spec_batch_weight(nfts.last().mint_batch)
    }
}

/// The weight of the first `i` NFTs is between nothing and a hundred each,
/// and no more than the weight of all.
pub proof fn lemma_total_nft_weight_prefix(nfts: Seq<NovelNFT>, i: int)
    requires
        0 <= i <= nfts.len(),
    ensures
        0 <= spec_total_nft_weight(nfts.take(i)) <= 100 * i,
        spec_total_nft_weight(nfts.take(i)) <= spec_total_nft_weight(nfts),
        i < nfts.len() ==> spec_total_nft_weight(nfts.take(i + 1)) == spec_total_nft_weight(
            nfts.take(i),
        ) + spec_batch_weight(nfts[i].mint_batch),
        i < nfts.len() ==> spec_batch_weight(nfts[i].mint_batch) <= spec_total_nft_weight(nfts),
    decreases nfts.len() - i, i,
{
    if i > 0 {
        lemma_total_nft_weight_bounds(nfts.take(i - 1));
    }
    lemma_total_nft_weight_bounds(nfts.take(i));
    if i < nfts.len() {
        assert(nfts.take(i + 1).drop_last() =~= nfts.take(i));
        lemma_total_nft_weight_prefix(nfts, i + 1);
    } else {
        assert(nfts.take(i) =~= nfts);
    }
}

/// A total weight is between nothing and a hundred for each NFT.
pub proof fn lemma_total_nft_weight_bounds(nfts: Seq<NovelNFT>)
    ensures
        0 <= spec_total_nft_weight(nfts) <= 100 * nfts.len(),
    decreases nfts.len(),
{
    if nfts.len() > 0 {
        lemma_total_nft_weight_bounds(nfts.drop_last());
    }
}

/// The amounts of a claim.
#[derive(Clone, Copy, Debug, PartialEq, Eq, Structural)]
pub struct ClaimAmounts {
    /// What the story earned over the periods claimed.
    pub total_reward: u64,
    /// The author's half.
    pub author_reward: u64,
    /// The half of the holders of the story's NFTs.
    pub nft_holders_reward: u64,
    /// The sum of the weights of the story's NFTs.
    pub total_weight: u64,
}

/// Half of a reward, rounded down.
pub open spec fn spec_half(total: u64) -> u64 {
    (total as int * 50 / 100) as u64
}

/// The share of one NFT in the holders' half: in proportion to its weight,
/// rounded down.
pub open spec fn spec_nft_share(pool: u64, nft: NovelNFT, total_weight: u64) -> u64 {
    if total_weight > 0 {
        (pool as int * spec_batch_weight(nft.mint_batch) / total_weight as int) as u64
    } else {
        0
    }
}

/// Whether each NFT can take its share of the holders' half.
pub open spec fn spec_all_accept(nfts: Seq<NovelNFT>, pool: u64, total_weight: u64) -> bool {
    forall|i: int|
        0 <= i < nfts.len() ==> (#[trigger] nfts[i]).spec_accepts(
            spec_nft_share(pool, nfts[i], total_weight),
        )
}

/// The amounts of a claim by `author` for `story`, or why there is no claim.
///
/// A claim covers the periods after the last one claimed and before the
/// current one. It needs the author's own story, a period not yet claimed,
/// one address for each NFT, a record of every period covered, and amounts
/// that fit in 64 bits.
pub open spec fn spec_claim_amounts(
    story: Story,
    author: Pubkey,
    current_period: u64,
    history: Seq<PeriodReward>,
    nfts: Seq<NovelNFT>,
    key_count: nat,
) -> Result<ClaimAmounts, TaleForgeError> {
    if !same_key(story.author, author) {
        Err(TaleForgeError::UnauthorizedAuthor)
    } else if story.last_claimed_period >= current_period {
        Err(TaleForgeError::NoUnclaimedRewards)
    } else if key_count != nfts.len() {
        Err(TaleForgeError::NFTLoadError)
    } else {
        match spec_range_reward(
            history,
            story.mining_power,
            story.last_claimed_period + 1,
            current_period as int,
        ) {
            Err(e) => Err(e),
            Ok(total) => {
                let amounts = ClaimAmounts {
                    total_reward: total as u64,
                    author_reward: spec_half(total as u64),
                    nft_holders_reward: spec_half(total as u64),
                    total_weight: spec_total_nft_weight(nfts) as u64,
                };
                if spec_total_nft_weight(nfts) > u64::MAX {
                    Err(TaleForgeError::ArithmeticOverflow)
                } else if !spec_all_accept(nfts, amounts.nft_holders_reward, amounts.total_weight) {
                    Err(TaleForgeError::InvalidMiningPower)
                } else {
                    Ok(amounts)
                }
            },
        }
    }
}

/// The record of what a claim gave one NFT.
pub open spec fn spec_nft_reward(
    nft: NovelNFT,
    nft_key: Pubkey,
    story_key: Pubkey,
    amounts: ClaimAmounts,
    now: i64,
) -> NFTRewardStaked {
    NFTRewardStaked {
        nft: nft_key,
        story: story_key,
        amount: spec_nft_share(amounts.nft_holders_reward, nft, amounts.total_weight),
        rarity: nft.rarity,
        batch: nft.mint_batch,
        weight: spec_batch_weight(nft.mint_batch) as u64,
        timestamp: now,
    }
}

/// What a claim hands back: the amounts to pay, with the records to publish.
#[derive(Clone, Debug, PartialEq)]
pub struct ClaimOutcome {
    /// The claim as a whole. The author is to be paid `author_reward`.
    pub claimed: StoryRewardClaimed,
    /// One record for each NFT, in their order, where the NFTs have any
    /// weight; none otherwise. The holder of a legendary NFT is to be paid
    /// the record's amount; `payments_at_once` lists these payments.
    pub nft_rewards: Vec<NFTRewardStaked>,
}

/// A share of a claim that is to be paid to the holder of an NFT at once.
#[derive(Clone, Copy, Debug, PartialEq)]
pub struct HolderPayment {
    /// The position of the NFT among the NFTs of the claim.
    pub position: usize,
    /// The address of the NFT.
    pub nft: Pubkey,
    /// What the holder is to be paid.
    pub amount: u64,
}

/// Whether the share that a record tells of was paid at once rather than
/// locked: it was where the NFT is legendary.
pub open spec fn spec_paid_at_once(record: NFTRewardStaked) -> bool {
    record.rarity == Rarity::Legendary
}

/// The payments that the records of a claim ask for: one for each share that
/// is paid at once, in the order of the records.
pub open spec fn spec_payments_at_once(records: Seq<NFTRewardStaked>) -> Seq<HolderPayment>
    decreases records.len(),
{
    if records.len() == 0 {
        Seq::empty()
    } else {
        let rest = spec_payments_at_once(records.drop_last());
        if spec_paid_at_once(records.last()) {
            rest.push(
                HolderPayment {
                    position: (records.len() - 1) as usize,
                    nft: records.last().nft,
                    amount: records.last().amount,
                },
            )
        } else {
            rest
        }
    }
}

/// The payments that the records of a claim ask for: the shares of the
/// legendary NFTs, which are paid to their holders at once. The shares of
/// all other NFTs are locked and ask for no payment.
pub fn payments_at_once(records: &Vec<NFTRewardStaked>) -> (payments: Vec<HolderPayment>)
    ensures
        payments@ == spec_payments_at_once(records@),
{
    let mut payments: Vec<HolderPayment> = Vec::new();
    let mut i: usize = 0;
    while i < records.len()
        invariant
            i <= records.len(),
            payments@ == spec_payments_at_once(records@.take(i as int)),
        decreases records.len() - i,
    {
        proof {
            assert(records@.take(i as int + 1).drop_last() =~= records@.take(i as int));
        }
        match records[i].rarity {
            Rarity::Legendary => {
                payments.push(
                    HolderPayment { position: i, nft: records[i].nft, amount: records[i].amount },
                );
            },
            _ => {},
        }
        i = i + 1;
    }
    proof {
        assert(records@.take(records.len() as int) =~= records@);
    }
    payments
}

/// The rewards of `story` over the periods from `first` up to the current one.
fn range_reward(active_stories: &ActiveStories, power: u64, first: u64) -> (result: Result<
    u64,
    TaleForgeError,
>)
    requires
        first <= active_stories.current_period,
    ensures
        match spec_range_reward(
            active_stories@.history,
            power,
            first as int,
            active_stories.current_period as int,
        ) {
            Ok(sum) => result == Ok::<u64, TaleForgeError>(sum as u64) && 0 <= sum <= u64::MAX,
            Err(e) => result == Err::<u64, TaleForgeError>(e),
        },
{
    let ghost history = active_stories@.history;
    let end: u64 = active_stories.current_period;
    let mut total_reward: u64 = 0;
    let mut period: u64 = first;
    while period < end
        invariant
            first <= period <= end,
            end == active_stories.current_period,
            history == active_stories@.history,
            spec_range_reward(history, power, first as int, period as int) == Ok::<
                int,
                TaleForgeError,
            >(total_reward as int),
        decreases end - period,
    {
        let rate: u64 = match active_stories.get_period_reward_per_power(period) {
            Ok(rate) => rate,
            Err(e) => {
                proof {
                    lemma_range_error_extends(
                        history,
                        power,
                        first as int,
                        period as int + 1,
                        end as int,
                    );
                }
                return Err(e);
            },
        };
        let sum: Option<u64> = match power.checked_mul(rate) {
            Some(period_reward) => total_reward.checked_add(period_reward),
            None => None,
        };
        match sum {
            Some(sum) => {
                total_reward = sum;
            },
            None => {
                proof {
                    assert(power * rate >= 0) by (nonlinear_arith)
                        requires
                            power >= 0,
                            rate >= 0,
                    ;
                    lemma_range_error_extends(
                        history,
                        power,
                        first as int,
                        period as int + 1,
                        end as int,
                    );
                }
                return Err(TaleForgeError::InvalidMiningPower);
            },
        }
        period = period + 1;
    }
    Ok(total_reward)
}

/// The sum of the weights of the NFTs, or nothing where it does not fit in
/// 64 bits.
fn total_nft_weight(nfts: &Vec<NovelNFT>) -> (total: Option<u64>)
    ensures
        spec_total_nft_weight(nfts@) >= 0,
        match total {
            Some(weight) => weight == spec_total_nft_weight(nfts@),
            None => spec_total_nft_weight(nfts@) > u64::MAX,
        },
{
    let mut total_weight: u128 = 0;
    let mut i: usize = 0;
    while i < nfts.len()
        invariant
            i <= nfts.len(),
            total_weight == spec_total_nft_weight(nfts@.take(i as int)),
            total_weight <= 100 * i,
        decreases nfts.len() - i,
    {
        proof {
            lemma_total_nft_weight_prefix(nfts@, i as int);
        }
        total_weight = total_weight + batch_weight(nfts[i].mint_batch) as u128;
        i = i + 1;
    }
    proof {
        assert(nfts@.take(nfts.len() as int) =~= nfts@);
    }
    if total_weight > u64::MAX as u128 {
        None
    } else {
        Some(total_weight as u64)
    }
}

/// The share of an NFT of weight `weight` in `pool`.
fn nft_share(pool: u64, weight: u64, total_weight: u64) -> (share: u64)
    requires
        weight <= total_weight,
    ensures
        share == (if total_weight > 0 {
            pool as int * weight as int / total_weight as int
        } else {
            0
        }),
        share <= pool,
{
    if total_weight == 0 {
        0
    } else {
        assert(pool * weight / total_weight as int <= pool) by (nonlinear_arith)
            requires
                0 <= weight <= total_weight,
                total_weight > 0,
                pool >= 0,
        ;
        assert(pool * weight <= u64::MAX * u64::MAX) by (nonlinear_arith)
            requires
                0 <= pool <= u64::MAX,
                0 <= weight <= u64::MAX,
        ;
        assert(pool * weight / total_weight as int >= 0) by (nonlinear_arith)
            requires
                pool >= 0,
                weight >= 0,
                total_weight > 0,
        ;
        ((pool as u128 * weight as u128) / total_weight as u128) as u64
    }
}

/// Claims a story's rewards for the closed periods it has not claimed.
///
/// The claim covers the periods after `last_claimed_period` and before the
/// current one; the current period is left for a later claim. For each of
/// them the story earns its mining power times the period's reward per unit.
/// Half of the sum, rounded down, goes to the author, and as much to the
/// holders of the story's NFTs, who share it in proportion to the weight of
/// their NFTs' mint batches, each share rounded down. The share of a
/// legendary NFT is paid at once; any other is added to the NFT's locked
/// earnings. With no weight among the NFTs none of them receives anything.
///
/// Rejected with `UnauthorizedAuthor` where `author` is not the story's,
/// with `NoUnclaimedRewards` where the story has claimed up to the current
/// period, with `NFTLoadError` where `nft_keys` does not hold one address
/// for each NFT, with `PeriodRewardNotFound` where a period covered has left
/// the history, with `InvalidMiningPower` where an amount does not fit in 64
/// bits, and with `ArithmeticOverflow` where the total weight does not. A
/// rejected claim changes nothing.
pub fn claim_story_reward(
    story: &mut Story,
    story_key: Pubkey,
    author: Pubkey,
    active_stories: &ActiveStories,
    nfts: &mut Vec<NovelNFT>,
    nft_keys: &Vec<Pubkey>,
    current_time: i64,
) -> (result: Result<ClaimOutcome, TaleForgeError>)
    ensures
        match spec_claim_amounts(
            *old(story),
            author,
            active_stories.current_period,
            active_stories@.history,
            old(nfts)@,
            nft_keys@.len(),
        ) {
            Err(e) => {
                &&& result is Err
                &&& result->Err_0 == e
                &&& *final(story) == *old(story)
                &&& *final(nfts) == *old(nfts)
            },
            Ok(amounts) => {
                &&& result is Ok
                &&& *final(story) == (Story {
                    last_claimed_period: (active_stories.current_period - 1) as u64,
                    ..*old(story)
                })
                &&& old(story).last_claimed_period <= final(story).last_claimed_period
                    < active_stories.current_period
                &&& final(nfts)@.len() == old(nfts)@.len()
                &&& forall|i: int|
                    0 <= i < old(nfts)@.len() ==> #[trigger] final(nfts)@[i] == (if amounts.total_weight
                        > 0 {
                        old(nfts)@[i].spec_credited(
                            spec_nft_share(
                                amounts.nft_holders_reward,
                                old(nfts)@[i],
                                amounts.total_weight,
                            ),
                            current_time,
                        )
                    } else {
                        old(nfts)@[i]
                    })
                &&& result->Ok_0.claimed == (StoryRewardClaimed {
                    story: story_key,
                    author_reward: amounts.author_reward,
                    nft_holders_reward: amounts.nft_holders_reward,
                    total_nft_weight: amounts.total_weight,
                    nft_count: old(nfts)@.len() as u64,
                    claimed_periods: (active_stories.current_period - 1 - old(
                        story,
                    ).last_claimed_period) as u64,
                    total_reward: amounts.total_reward,
                    period: active_stories.current_period,
                    timestamp: current_time,
                })
                &&& result->Ok_0.nft_rewards@.len() == (if amounts.total_weight > 0 {
                    old(nfts)@.len()
                } else {
                    0
                })
                &&& forall|i: int|
                    0 <= i < result->Ok_0.nft_rewards@.len() ==> #[trigger] result->Ok_0.nft_rewards@[i]
                        == spec_nft_reward(
                        old(nfts)@[i],
                        nft_keys@[i],
                        story_key,
                        amounts,
                        current_time,
                    )
            },
        },
{
    if !key_eq(&story.author, &author) {
        return Err(TaleForgeError::UnauthorizedAuthor);
    }
    if story.last_claimed_period >= active_stories.current_period {
        return Err(TaleForgeError::NoUnclaimedRewards);
    }
    let n: usize = nfts.len();
    if nft_keys.len() != n {
        return Err(TaleForgeError::NFTLoadError);
    }
    let first: u64 = story.last_claimed_period + 1;
    let total_reward: u64 = match range_reward(active_stories, story.mining_power, first) {
        Ok(total) => total,
        Err(e) => {
            return Err(e);
        },
    };
    let author_reward: u64 = ((total_reward as u128 * 50) / 100) as u64;
    let nft_holders_reward: u64 = ((total_reward as u128 * 50) / 100) as u64;
    let total_weight: u64 = match total_nft_weight(nfts) {
        Some(weight) => weight,
        None => {
            return Err(TaleForgeError::ArithmeticOverflow);
        },
    };
    let ghost before = nfts@;
    let ghost amounts = ClaimAmounts { total_reward, author_reward, nft_holders_reward, total_weight };
    let mut shares: Vec<u64> = Vec::new();
    let mut i: usize = 0;
    while i < n
        invariant
            i <= n,
            n == before.len(),
            nfts@ == before,
            *nfts == *old(nfts),
            *story == *old(story),
            same_key(story.author, author),
            story.last_claimed_period < active_stories.current_period,
            nft_keys@.len() == n,
            spec_range_reward(
                active_stories@.history,
                story.mining_power,
                story.last_claimed_period + 1,
                active_stories.current_period as int,
            ) == Ok::<int, TaleForgeError>(total_reward as int),
            author_reward == spec_half(total_reward),
            nft_holders_reward == spec_half(total_reward),
            total_weight == spec_total_nft_weight(before),
            shares@.len() == i,
            forall|j: int|
                0 <= j < i ==> #[trigger] shares@[j] == spec_nft_share(
                    nft_holders_reward,
                    before[j],
                    total_weight,
                ),
            forall|j: int|
                0 <= j < i ==> (#[trigger] before[j]).spec_accepts(
                    spec_nft_share(nft_holders_reward, before[j], total_weight),
                ),
        decreases n - i,
    {
        proof {
            lemma_total_nft_weight_prefix(before, i as int);
        }
        let share: u64 = nft_share(nft_holders_reward, batch_weight(nfts[i].mint_batch), total_weight);
        let legendary: bool = match nfts[i].rarity {
            Rarity::Legendary => true,
            _ => false,
        };
        if !legendary && share > u64::MAX - nfts[i].staked_earnings {
            proof {
                assert(!before[i as int].spec_accepts(
                    spec_nft_share(nft_holders_reward, before[i as int], total_weight),
                ));
            }
            return Err(TaleForgeError::InvalidMiningPower);
        }
        shares.push(share);
        i = i + 1;
    }
    let mut nft_rewards: Vec<NFTRewardStaked> = Vec::new();
    if total_weight > 0 {
        let mut k: usize = 0;
        while k < n
            invariant
                k <= n,
                n == before.len(),
                nfts@.len() == n,
                nft_keys@.len() == n,
                shares@.len() == n,
                total_weight > 0,
                amounts == (ClaimAmounts {
                    total_reward,
                    author_reward,
                    nft_holders_reward,
                    total_weight,
                }),
                forall|j: int|
                    0 <= j < n ==> #[trigger] shares@[j] == spec_nft_share(
                        nft_holders_reward,
                        before[j],
                        total_weight,
                    ),
                forall|j: int|
                    0 <= j < n ==> (#[trigger] before[j]).spec_accepts(
                        spec_nft_share(nft_holders_reward, before[j], total_weight),
                    ),
                forall|j: int|
                    0 <= j < k ==> #[trigger] nfts@[j] == before[j].spec_credited(
                        shares@[j],
                        current_time,
                    ),
                forall|j: int| k <= j < n ==> #[trigger] nfts@[j] == before[j],
                nft_rewards@.len() == k,
                forall|j: int|
                    0 <= j < k ==> #[trigger] nft_rewards@[j] == spec_nft_reward(
                        before[j],
                        nft_keys@[j],
                        story_key,
                        amounts,
                        current_time,
                    ),
            decreases n - k,
        {
            let share: u64 = shares[k];
            let rarity: Rarity = nfts[k].rarity;
            let mint_batch: u8 = nfts[k].mint_batch;
            proof {
                assert(before[k as int].spec_accepts(
                    spec_nft_share(nft_holders_reward, before[k as int], total_weight),
                ));
            }
            let credited: Result<bool, TaleForgeError> = nfts[k].credit_share(share, current_time);
            assert(credited == Ok::<bool, TaleForgeError>(rarity == Rarity::Legendary));
            nft_rewards.push(
                NFTRewardStaked {
                    nft: nft_keys[k],
                    story: story_key,
                    amount: share,
                    rarity,
                    batch: mint_batch,
                    weight: batch_weight(mint_batch),
                    timestamp: current_time,
                },
            );
            k = k + 1;
        }
    }
    let claimed_periods: u64 = active_stories.current_period - 1 - story.last_claimed_period;
    story.last_claimed_period = active_stories.current_period - 1;
    let claimed = StoryRewardClaimed {
        story: story_key,
        author_reward,
        nft_holders_reward,
        total_nft_weight: total_weight,
        nft_count: n as u64,
        claimed_periods,
        total_reward,
        period: active_stories.current_period,
        timestamp: current_time,
    };
    Ok(ClaimOutcome { claimed, nft_rewards })
}

/// What `power` units of mining power earn over a list of periods: for each
/// period listed the power times the period's reward per unit.
///
/// There is no result where a period has no record in the history
/// (`PeriodRewardNotFound`), or where the sum does not fit in 64 bits
/// (`InvalidRewardDistribution`); the first entry of the list at which
/// either happens decides.
pub open spec fn spec_list_reward(history: Seq<PeriodReward>, power: u64, periods: Seq<u64>) -> Result<
    int,
    TaleForgeError,
>
    decreases periods.len(),
{
    if periods.len() == 0 {
        Ok(0)
    } else {
        match spec_list_reward(history, power, periods.drop_last()) {
            Err(e) => Err(e),
            Ok(sum) => match spec_lookup(history, periods.last()) {
                None => Err(TaleForgeError::PeriodRewardNotFound),
                Some(record) => if sum + power * record.reward_per_power > u64::MAX {
                    Err(TaleForgeError::InvalidRewardDistribution)
                } else {
                    Ok(sum + power * record.reward_per_power)
                },
            },
        }
    }
}

/// A list that fails keeps failing, in the same way, when it goes on.
pub proof fn lemma_list_error_extends(
    history: Seq<PeriodReward>,
    power: u64,
    periods: Seq<u64>,
    i: int,
)
    requires
        0 <= i <= periods.len(),
        spec_list_reward(history, power, periods.take(i)) is Err,
    ensures
        spec_list_reward(history, power, periods) == spec_list_reward(
            history,
            power,
            periods.take(i),
        ),
    decreases periods.len() - i,
{
    if i < periods.len() {
        assert(periods.take(i + 1).drop_last() =~= periods.take(i));
        lemma_list_error_extends(history, power, periods, i + 1);
    } else {
        assert(periods.take(i) =~= periods);
    }
}

/// The parts of a lump-sum distribution.
#[derive(Clone, Copy, Debug, PartialEq, Eq, Structural)]
pub struct LumpSplit {
    pub total_reward: u64,
    /// A twentieth of the total, for the readers' pool.
    pub reader_pool_reward: u64,
    /// A tenth of the total, for the platform.
    pub platform_reward: u64,
    /// Half of what is left, for the author.
    pub author_reward: u64,
    /// Half of what is left, for the story's stake.
    pub nft_reward: u64,
}

/// The split of a lump sum: a twentieth to the readers' pool, a tenth to the
/// platform, and of what is left half to the author and half to the story's
/// stake, each part rounded down.
pub open spec fn spec_lump_split(total: u64) -> LumpSplit {
    let reader_pool_reward = total as int * 5 / 100;
    let platform_reward = total as int * 10 / 100;
    let remaining = total - reader_pool_reward - platform_reward;
    LumpSplit {
        total_reward: total,
        reader_pool_reward: reader_pool_reward as u64,
        platform_reward: platform_reward as u64,
        author_reward: (remaining * 50 / 100) as u64,
        nft_reward: (remaining * 50 / 100) as u64,
    }
}

/// The parts of a lump sum fit within it.
pub proof fn lemma_lump_split_within_total(total: u64)
    ensures
        ({
            let split = spec_lump_split(total);
            split.reader_pool_reward + split.platform_reward + split.author_reward
                + split.nft_reward <= total
        }),
{
}

/// The split of a lump sum.
pub fn lump_split(total: u64) -> (split: LumpSplit)
    ensures
        split == spec_lump_split(total),
{
    let reader_pool_reward: u64 = ((total as u128 * 5) / 100) as u64;
    let platform_reward: u64 = ((total as u128 * 10) / 100) as u64;
    let remaining_reward: u64 = total - reader_pool_reward - platform_reward;
    let author_reward: u64 = ((remaining_reward as u128 * 50) / 100) as u64;
    let nft_reward: u64 = ((remaining_reward as u128 * 50) / 100) as u64;
    LumpSplit { total_reward: total, reader_pool_reward, platform_reward, author_reward, nft_reward }
}

/// The split of a story's pending periods, or why there is none.
pub open spec fn spec_distribution(story: Story, history: Seq<PeriodReward>) -> Result<
    LumpSplit,
    TaleForgeError,
> {
    if story.unclaimed_periods@.len() == 0 {
        Err(TaleForgeError::InvalidRewardDistribution)
    } else {
        match spec_list_reward(history, story.mining_power, story.unclaimed_periods@) {
            Err(e) => Err(e),
            Ok(total) => {
                let split = spec_lump_split(total as u64);
                if story.staked_earnings_sol + split.nft_reward > u64::MAX {
                    Err(TaleForgeError::InvalidRewardDistribution)
                } else {
                    Ok(split)
                }
            },
        }
    }
}

/// The last period claimed after a lump-sum distribution in period
/// `current_period`: the period before the current one, unless the story has
/// claimed further already.
pub open spec fn spec_claimed_through(last_claimed_period: u64, current_period: u64) -> u64 {
    if last_claimed_period < current_period {
        (current_period - 1) as u64
    } else {
        last_claimed_period
    }
}

/// Distributes the rewards of a story's pending periods as a lump sum.
///
/// For each period on the story's list the story earns its mining power
/// times the period's reward per unit. Of the sum a twentieth goes to the
/// readers' pool and a tenth to the platform; what is left is halved between
/// the author and the story's stake. The list is then empty. The event names
/// the amounts that the caller is to pay.
///
/// Rejected with `InvalidRewardDistribution` where the list is empty or an
/// amount does not fit in 64 bits, and with `PeriodRewardNotFound` where a
/// period listed has no record in the history. A rejected call changes
/// nothing.
pub fn distribute_mining_rewards(
    active_stories: &ActiveStories,
    story: &mut Story,
    story_key: Pubkey,
    author: Pubkey,
    current_time: i64,
) -> (result: Result<RewardsDistributed, TaleForgeError>)
    ensures
        match spec_distribution(*old(story), active_stories@.history) {
            Err(e) => result == Err::<RewardsDistributed, TaleForgeError>(e) && *final(story)
                == *old(story),
            Ok(split) => {
                &&& result == Ok::<RewardsDistributed, TaleForgeError>(
                    RewardsDistributed {
                        story: story_key,
                        author,
                        period: active_stories.current_period,
                        mining_power: old(story).mining_power,
                        total_reward: split.total_reward,
                        reader_pool_reward: split.reader_pool_reward,
                        platform_reward: split.platform_reward,
                        author_reward: split.author_reward,
                        nft_reward: split.nft_reward,
                        timestamp: current_time,
                    },
                )
                &&& final(story).unclaimed_periods@ == Seq::<u64>::empty()
                &&& *final(story) == (Story {
                    staked_earnings_sol: (old(story).staked_earnings_sol + split.nft_reward) as u64,
                    last_claimed_period: spec_claimed_through(
                        old(story).last_claimed_period,
                        active_stories.current_period,
                    ),
                    unclaimed_periods: final(story).unclaimed_periods,
                    ..*old(story)
                })
                &&& old(story).last_claimed_period <= final(story).last_claimed_period
            },
        },
{
    if story.unclaimed_periods.len() == 0 {
        return Err(TaleForgeError::InvalidRewardDistribution);
    }
    let ghost history = active_stories@.history;
    let ghost periods = story.unclaimed_periods@;
    let power: u64 = story.mining_power;
    let mut total_reward: u64 = 0;
    let mut i: usize = 0;
    while i < story.unclaimed_periods.len()
        invariant
            i <= story.unclaimed_periods.len(),
            *story == *old(story),
            periods == story.unclaimed_periods@,
            periods.len() > 0,
            power == story.mining_power,
            history == active_stories@.history,
            spec_list_reward(history, power, periods.take(i as int)) == Ok::<int, TaleForgeError>(
                total_reward as int,
            ),
        decreases story.unclaimed_periods.len() - i,
    {
        proof {
            assert(periods.take(i as int + 1).drop_last() =~= periods.take(i as int));
        }
        let period: u64 = story.unclaimed_periods[i];
        let rate: u64 = match active_stories.get_period_reward_per_power(period) {
            Ok(rate) => rate,
            Err(e) => {
                proof {
                    lemma_list_error_extends(history, power, periods, i as int + 1);
                }
                return Err(e);
            },
        };
        let sum: Option<u64> = match power.checked_mul(rate) {
            Some(period_reward) => total_reward.checked_add(period_reward),
            None => None,
        };
        match sum {
            Some(sum) => {
                total_reward = sum;
            },
            None => {
                proof {
                    assert(power * rate >= 0) by (nonlinear_arith)
                        requires
                            power >= 0,
                            rate >= 0,
                    ;
                    lemma_list_error_extends(history, power, periods, i as int + 1);
                }
                return Err(TaleForgeError::InvalidRewardDistribution);
            },
        }
        i = i + 1;
    }
    proof {
        assert(periods.take(periods.len() as int) =~= periods);
    }
    let split: LumpSplit = lump_split(total_reward);
    let staked: u64 = match story.staked_earnings_sol.checked_add(split.nft_reward) {
        Some(staked) => staked,
        None => {
            return Err(TaleForgeError::InvalidRewardDistribution);
        },
    };
    story.staked_earnings_sol = staked;
    story.unclaimed_periods.clear();
    if story.last_claimed_period < active_stories.current_period {
        story.last_claimed_period = active_stories.current_period - 1;
    }
    Ok(
        RewardsDistributed {
            story: story_key,
            author,
            period: active_stories.current_period,
            mining_power: power,
            total_reward: split.total_reward,
            reader_pool_reward: split.reader_pool_reward,
            platform_reward: split.platform_reward,
            author_reward: split.author_reward,
            nft_reward: split.nft_reward,
            timestamp: current_time,
        },
    )
}

/// What the NFTs of a story receive together from the holders' half.
pub open spec fn spec_shares_paid(nfts: Seq<NovelNFT>, pool: u64, total_weight: u64) -> int
    decreases nfts.len(),
{
    if nfts.len() == 0 {
        0
    } else {
        spec_shares_paid(nfts.drop_last(), pool, total_weight) + spec_nft_share(
            pool,
            nfts.last(),
            total_weight,
        )
    }
}

/// The shares of the NFTs are within the holders' half.
pub proof fn lemma_shares_within_pool(nfts: Seq<NovelNFT>, pool: u64, total_weight: u64)
    requires
        spec_total_nft_weight(nfts) <= total_weight,
    ensures
        0 <= spec_shares_paid(nfts, pool, total_weight) <= pool,
        spec_shares_paid(nfts, pool, total_weight) * total_weight <= pool * spec_total_nft_weight(
            nfts,
        ),
    decreases nfts.len(),
{
    lemma_total_nft_weight_bounds(nfts);
    if nfts.len() > 0 {
        let front = nfts.drop_last();
        let weight = spec_batch_weight(nfts.last().mint_batch);
        lemma_total_nft_weight_bounds(front);
        lemma_shares_within_pool(front, pool, total_weight);
        let paid = spec_shares_paid(front, pool, total_weight);
        let share = spec_nft_share(pool, nfts.last(), total_weight) as int;
        let front_weight = spec_total_nft_weight(front);
        if total_weight > 0 {
            assert(0 <= pool * weight / total_weight as int <= pool && (pool * weight
                / total_weight as int) * total_weight <= pool * weight) by (nonlinear_arith)
                requires
                    0 <= weight <= total_weight,
                    total_weight > 0,
                    pool >= 0,
            ;
            assert((paid + share) * total_weight <= pool * (front_weight + weight))
                by (nonlinear_arith)
                requires
                    paid * total_weight <= pool * front_weight,
                    share * total_weight <= pool * weight,
            ;
            assert(paid + share <= pool) by (nonlinear_arith)
                requires
                    (paid + share) * total_weight <= pool * (front_weight + weight),
                    0 <= front_weight + weight <= total_weight,
                    total_weight > 0,
                    pool >= 0,
            ;
        } else {
            assert(paid * total_weight == 0) by (nonlinear_arith)
                requires
                    total_weight == 0,
            ;
            assert(pool * spec_total_nft_weight(nfts) >= 0) by (nonlinear_arith)
                requires
                    pool >= 0,
                    spec_total_nft_weight(nfts) >= 0,
            ;
        }
    } else {
        assert(pool * spec_total_nft_weight(nfts) == 0) by (nonlinear_arith)
            requires
                spec_total_nft_weight(nfts) == 0,
        ;
    }
}

/// A claim pays out no more than the story earned: what the author receives
/// and what the NFTs receive together are within the total reward.
pub proof fn lemma_claim_within_reward(
    story: Story,
    author: Pubkey,
    current_period: u64,
    history: Seq<PeriodReward>,
    nfts: Seq<NovelNFT>,
    key_count: nat,
)
    requires
        spec_claim_amounts(story, author, current_period, history, nfts, key_count) is Ok,
    ensures
        ({
            let amounts = spec_claim_amounts(
                story,
                author,
                current_period,
                history,
                nfts,
                key_count,
            )->Ok_0;
            amounts.author_reward + spec_shares_paid(
                nfts,
                amounts.nft_holders_reward,
                amounts.total_weight,
            ) <= amounts.total_reward
        }),
{
    let amounts = spec_claim_amounts(story, author, current_period, history, nfts, key_count)->Ok_0;
    lemma_range_reward_nonnegative(
        history,
        story.mining_power,
        story.last_claimed_period + 1,
        current_period as int,
    );
    lemma_total_nft_weight_bounds(nfts);
    lemma_shares_within_pool(nfts, amounts.nft_holders_reward, amounts.total_weight);
}

} // verus!
