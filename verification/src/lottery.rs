//! The monthly lottery that pays the reader reward pool out.

use vstd::prelude::*;
use solana_program::pubkey::Pubkey;
use crate::constants::{
    LOTTERY_EXTRA_PRIZE_COUNT, LOTTERY_PERIOD_SECONDS, LOTTERY_WINNER_PERCENTAGE,
    MINIMAL_LOTTERY_LIMIT,
};
use crate::draw::{
    draw_winners, generate_pseudo_random, lemma_draw_count, lemma_draw_properties,
    lemma_none_used_count, lottery_seed, spec_as_ints, spec_draw, spec_lottery_seed,
    spec_no_negative, spec_none_used, spec_pseudo_random,
};
use crate::errors::TaleForgeError;
use crate::events::{LotterySkipped, MinimalLotteryCompleted, MonthlyLotteryCompleted};
use crate::indices::{
    lemma_unpicked, spec_compose, spec_distinct_below, spec_unpicked, to_ints,
};
use crate::reader::{
    calculate_reader_weight, eligible_reader_indices, lemma_consecutive_days_bounds,
    lemma_eligible_indices, spec_check_ins_made, spec_eligible_indices, spec_is_eligible,
    spec_reader_weight, ReaderActivity,
};

verus! {

/// The pool from which readers are rewarded.
#[derive(Clone, Copy, Debug, PartialEq)]
pub struct ReaderRewardPool {
    /// Balance that a lottery can pay out.
    pub total_amount: u64,
    /// Time of the last lottery that paid out.
    pub last_lottery_time: i64,
    /// Number of readers counted as active.
    pub active_readers: u32,
    /// Mint of the token the pool is held in.
    pub token_mint: Pubkey,
    /// Rewards credited since the last distribution.
    pub accumulated_rewards: u64,
    /// Time of the last distribution.
    pub last_distribution: i64,
}

/// The lottery weights of the candidates, in their order.
pub open spec fn spec_weights(candidates: Seq<ReaderActivity>) -> Seq<int> {
    Seq::new(candidates.len(), |i: int| spec_reader_weight(candidates[i]))
}

/// The sum of the candidates' lottery weights.
pub open spec fn spec_total_weight(candidates: Seq<ReaderActivity>) -> int
    decreases candidates.len(),
{
    if candidates.len() == 0 {
        0
    } else {
        spec_total_weight(candidates.drop_last()) + spec_reader_weight(candidates.last())
    }
}

/// The positions among the candidates that a draw at `now` for `count`
/// winners picks, where the total weight fits in 32 bits.
pub open spec fn spec_select_winners(candidates: Seq<ReaderActivity>, count: u32, now: i64) -> Seq<int> {
    let total = spec_total_weight(candidates) as u32;
    let random_weight = spec_pseudo_random(spec_lottery_seed(now, total, count), now, total);
    spec_draw(
        spec_weights(candidates),
        spec_none_used(candidates.len()),
        random_weight,
        count as nat,
    )
}

/// The outcome of selecting winners: the positions picked, or the reason
/// why no draw is held.
pub open spec fn spec_select_result(candidates: Seq<ReaderActivity>, count: u32, now: i64) -> Result<
    Seq<int>,
    TaleForgeError,
> {
    if candidates.len() == 0 {
        Err(TaleForgeError::NoEligibleReaders)
    } else if spec_total_weight(candidates) > u32::MAX {
        Err(TaleForgeError::ArithmeticOverflow)
    } else {
        Ok(spec_select_winners(candidates, count, now))
    }
}

/// Every lottery weight is at least the base weight.
pub proof fn lemma_reader_weight_positive(activity: ReaderActivity)
    ensures
        spec_reader_weight(activity) >= 100,
{
    lemma_consecutive_days_bounds(
        spec_check_ins_made(activity.daily_check_ins@, activity.check_in_count),
    );
}

/// The weight of the first `i` candidates is at most the weight of all.
pub proof fn lemma_total_weight_prefix(candidates: Seq<ReaderActivity>, i: int)
    requires
        0 <= i <= candidates.len(),
    ensures
        0 <= spec_total_weight(candidates.take(i)) <= spec_total_weight(candidates),
        i > 0 ==> spec_total_weight(candidates.take(i)) >= 100,
    decreases candidates.len() - i, i,
{
    if i < candidates.len() {
        lemma_total_weight_prefix(candidates, i + 1);
        assert(candidates.take(i + 1).drop_last() =~= candidates.take(i));
        lemma_reader_weight_positive(candidates[i]);
    }
    if i > 0 {
        lemma_total_weight_nonnegative(candidates.take(i - 1));
        assert(candidates.take(i).drop_last() =~= candidates.take(i - 1));
        lemma_reader_weight_positive(candidates[i - 1]);
    }
}

/// A total weight is never negative.
pub proof fn lemma_total_weight_nonnegative(candidates: Seq<ReaderActivity>)
    ensures
        spec_total_weight(candidates) >= 0,
    decreases candidates.len(),
{
    if candidates.len() > 0 {
        lemma_total_weight_nonnegative(candidates.drop_last());
        lemma_reader_weight_positive(candidates.last());
    }
}

/// Selects `winner_count` of the candidates by a weighted draw without
/// replacement, or all of them where they are fewer, and returns their
/// positions among the candidates in the order drawn.
///
/// The number drawn comes from the time, the candidates' total weight and
/// the requested count; the draws that go by it pick as `draw_winners`
/// describes. With no candidates the selection fails with
/// `NoEligibleReaders`; where the total weight does not fit in 32 bits, with
/// `ArithmeticOverflow`.
pub fn select_winners(candidates: &Vec<ReaderActivity>, winner_count: u32, current_time: i64) -> (result:
    Result<Vec<usize>, TaleForgeError>)
    ensures
        match spec_select_result(candidates@, winner_count, current_time) {
            Ok(positions) => result is Ok && to_ints(result->Ok_0@) == positions,
            Err(e) => result is Err && result->Err_0 == e,
        },
{
    if candidates.len() == 0 {
        return Err(TaleForgeError::NoEligibleReaders);
    }
    let mut weights: Vec<u32> = Vec::new();
    let mut total_weight: u32 = 0;
    let mut i: usize = 0;
    while i < candidates.len()
        invariant
            i <= candidates.len(),
            weights@.len() == i,
            forall|j: int| 0 <= j < i ==> weights@[j] as int == spec_reader_weight(candidates@[j]),
            total_weight == spec_total_weight(candidates@.take(i as int)),
        decreases candidates.len() - i,
    {
        proof {
            let next = candidates@.take(i as int + 1);
            assert(next.drop_last() =~= candidates@.take(i as int));
            lemma_total_weight_prefix(candidates@, i as int + 1);
        }
        match calculate_reader_weight(&candidates[i]) {
            Err(_) => {
                return Err(TaleForgeError::ArithmeticOverflow);
            },
            Ok(weight) => {
                match total_weight.checked_add(weight) {
                    None => {
                        return Err(TaleForgeError::ArithmeticOverflow);
                    },
                    Some(sum) => {
                        total_weight = sum;
                        weights.push(weight);
                    },
                }
            },
        }
        i = i + 1;
    }
    proof {
        assert(candidates@.take(candidates.len() as int) =~= candidates@);
        lemma_total_weight_prefix(candidates@, candidates.len() as int);
        assert(spec_as_ints(weights@) =~= spec_weights(candidates@));
    }
    let seed: Vec<u8> = lottery_seed(current_time, total_weight, winner_count);
    let random_weight: u32 = generate_pseudo_random(seed.as_slice(), current_time, total_weight);
    Ok(draw_winners(&weights, winner_count, random_weight))
}

/// The readers at the given positions, in the order of the positions.
pub open spec fn spec_at(readers: Seq<ReaderActivity>, indices: Seq<int>) -> Seq<ReaderActivity> {
    Seq::new(indices.len(), |k: int| readers[indices[k]])
}

/// The readers at the given positions.
fn readers_at(readers: &Vec<ReaderActivity>, indices: &Vec<usize>) -> (chosen: Vec<ReaderActivity>)
    requires
        forall|k: int| 0 <= k < indices.len() ==> indices[k] < readers.len(),
    ensures
        chosen@ == spec_at(readers@, to_ints(indices@)),
{
    let mut chosen: Vec<ReaderActivity> = Vec::new();
    let mut k: usize = 0;
    while k < indices.len()
        invariant
            k <= indices.len(),
            chosen@.len() == k,
            forall|j: int| 0 <= j < indices.len() ==> indices[j] < readers.len(),
            forall|j: int| 0 <= j < k ==> chosen[j] == readers[indices[j] as int],
        decreases indices.len() - k,
    {
        chosen.push(readers[indices[k]]);
        k = k + 1;
    }
    chosen
}

/// Carries positions within a selection back to what it was made from.
fn compose_indices(outer: &Vec<usize>, inner: &Vec<usize>) -> (composed: Vec<usize>)
    requires
        forall|k: int| 0 <= k < inner.len() ==> inner[k] < outer.len(),
    ensures
        to_ints(composed@) == spec_compose(to_ints(outer@), to_ints(inner@)),
{
    let mut composed: Vec<usize> = Vec::new();
    let mut k: usize = 0;
    while k < inner.len()
        invariant
            k <= inner.len(),
            composed@.len() == k,
            forall|j: int| 0 <= j < inner.len() ==> inner[j] < outer.len(),
            forall|j: int| 0 <= j < k ==> composed[j] == outer[inner[j] as int],
        decreases inner.len() - k,
    {
        composed.push(outer[inner[k]]);
        k = k + 1;
    }
    composed
}

/// The positions below `n` that are not among the picked ones, ascending.
fn unpicked_positions(n: usize, picked: &Vec<usize>) -> (rest: Vec<usize>)
    ensures
        to_ints(rest@) == spec_unpicked(n as nat, to_ints(picked@)),
{
    let ghost p = to_ints(picked@);
    let mut rest: Vec<usize> = Vec::new();
    let mut i: usize = 0;
    while i < n
        invariant
            i <= n,
            p == to_ints(picked@),
            to_ints(rest@) == spec_unpicked(i as nat, p),
        decreases n - i,
    {
        let mut found: bool = false;
        let mut k: usize = 0;
        while k < picked.len()
            invariant
                k <= picked.len(),
                p == to_ints(picked@),
                found == p.take(k as int).contains(i as int),
            decreases picked.len() - k,
        {
            proof {
                if picked[k as int] == i {
                    assert(p.take(k as int + 1)[k as int] == i as int);
                }
            }
            if picked[k] == i {
                found = true;
            }
            k = k + 1;
        }
        proof {
            assert(p.take(picked.len() as int) =~= p);
        }
        if !found {
            rest.push(i);
        }
        i = i + 1;
    }
    rest
}

/// What a lottery decides, before anything is paid.
pub enum LotteryPlan {
    /// Nobody is eligible: nothing is paid and the pool carries over.
    Skipped,
    /// At most ten are eligible: all of them share four fifths of the pool
    /// evenly, and a fifth stays for the next month.
    Minimal { winners: Seq<int>, reward_per_reader: int, reserved: int },
    /// More are eligible: base winners share four fifths of the pool, bonus
    /// winners a fifth.
    Normal { base_winners: Seq<int>, extra_winners: Seq<int>, base_reward: int, extra_reward: int },
}

/// The part of a pool that is set aside: a fifth, rounded down.
pub open spec fn spec_fifth(total: u64) -> int {
    total as int * 20 / 100
}

/// The number of base prizes: three in a hundred active readers, rounded
/// down.
pub open spec fn spec_base_winner_count(active_readers: u32) -> int {
    active_readers as int * 3 / 100
}

/// An even share of a pool among a number of winners, rounded down; nothing
/// where there are no winners.
pub open spec fn spec_even_share(pool: int, winners: int) -> int {
    if winners > 0 {
        pool / winners
    } else {
        0
    }
}

/// The plan of a lottery with a draw, over the eligible positions `eligible`.
pub open spec fn spec_normal_plan(
    pool: ReaderRewardPool,
    readers: Seq<ReaderActivity>,
    eligible: Seq<int>,
    now: i64,
) -> Result<LotteryPlan, TaleForgeError> {
    let extra_pool = spec_fifth(pool.total_amount);
    let base_pool = pool.total_amount - extra_pool;
    let base_count = spec_base_winner_count(pool.active_readers) as u32;
    match spec_select_result(spec_at(readers, eligible), base_count, now) {
        Err(e) => Err(e),
        Ok(base) => {
            let rest = spec_compose(eligible, spec_unpicked(eligible.len(), base));
            let second = if rest.len() > 0 {
                spec_select_result(spec_at(readers, rest), 10, now)
            } else {
                Ok(Seq::empty())
            };
            match second {
                Err(e) => Err(e),
                Ok(extra) => Ok(
                    LotteryPlan::Normal {
                        base_winners: spec_compose(eligible, base),
                        extra_winners: spec_compose(rest, extra),
                        base_reward: spec_even_share(base_pool, base.len() as int),
                        extra_reward: spec_even_share(extra_pool, extra.len() as int),
                    },
                ),
            }
        },
    }
}

/// What a lottery held at `now` decides, or why none is held.
///
/// A lottery is due thirty days after the last one, and needs a pool that is
/// not empty and at least one active reader. The number of eligible readers
/// then chooses the branch.
pub open spec fn spec_lottery_plan(pool: ReaderRewardPool, readers: Seq<ReaderActivity>, now: i64) -> Result<
    LotteryPlan,
    TaleForgeError,
> {
    if now - pool.last_lottery_time < 2_592_000 {
        Err(TaleForgeError::TooEarlyForLottery)
    } else if pool.total_amount == 0 {
        Err(TaleForgeError::EmptyRewardPool)
    } else if pool.active_readers == 0 {
        Err(TaleForgeError::NoActiveReaders)
    } else {
        let eligible = spec_eligible_indices(readers, now);
        if eligible.len() == 0 {
            Ok(LotteryPlan::Skipped)
        } else if eligible.len() <= 10 {
            let reserved = spec_fifth(pool.total_amount);
            Ok(
                LotteryPlan::Minimal {
                    winners: eligible,
                    reward_per_reader: (pool.total_amount - reserved) / eligible.len() as int,
                    reserved,
                },
            )
        } else {
            spec_normal_plan(pool, readers, eligible, now)
        }
    }
}

/// The pool after a lottery at `now` that followed `plan`.
pub open spec fn spec_pool_after(pool: ReaderRewardPool, plan: LotteryPlan, now: i64) -> ReaderRewardPool {
    match plan {
        LotteryPlan::Skipped => pool,
        LotteryPlan::Minimal { reserved, .. } => ReaderRewardPool {
            last_lottery_time: now,
            total_amount: reserved as u64,
            accumulated_rewards: 0,
            ..pool
        },
        LotteryPlan::Normal { .. } => ReaderRewardPool {
            last_lottery_time: now,
            total_amount: 0,
            ..pool
        },
    }
}

/// What a lottery did: whom to pay how much, and the event to publish.
/// Winners are given by their positions in the list of readers.
#[allow(inconsistent_fields)]
#[derive(Clone, Debug, PartialEq)]
pub enum LotteryOutcome {
    /// Nobody was eligible.
    Skipped { event: LotterySkipped },
    /// Every eligible reader is paid `reward_per_reader`.
    Minimal { winners: Vec<usize>, reward_per_reader: u64, event: MinimalLotteryCompleted },
    /// Each base winner is paid `base_reward`, each bonus winner
    /// `extra_reward`.
    Normal {
        base_winners: Vec<usize>,
        extra_winners: Vec<usize>,
        base_reward: u64,
        extra_reward: u64,
        event: MonthlyLotteryCompleted,
    },
}

/// Whether an outcome carries out a plan made for `pool` at `now`.
pub open spec fn outcome_matches(
    outcome: LotteryOutcome,
    plan: LotteryPlan,
    pool: ReaderRewardPool,
    now: i64,
) -> bool {
    match (outcome, plan) {
        (LotteryOutcome::Skipped { event }, LotteryPlan::Skipped) => {
            &&& event.reason@ == "No eligible readers"@
            &&& event.accumulated_amount == pool.total_amount
            &&& event.timestamp == now
        },
        (
            LotteryOutcome::Minimal { winners, reward_per_reader, event },
            LotteryPlan::Minimal { winners: planned, reward_per_reader: share, reserved },
        ) => {
            &&& to_ints(winners@) == planned
            &&& reward_per_reader == share
            &&& event == (MinimalLotteryCompleted {
                winner_count: planned.len() as u32,
                distributed_amount: (pool.total_amount - reserved) as u64,
                reserved_amount: reserved as u64,
                timestamp: now,
            })
        },
        (
            LotteryOutcome::Normal { base_winners, extra_winners, base_reward, extra_reward, event },
            LotteryPlan::Normal {
                base_winners: base,
                extra_winners: extra,
                base_reward: base_share,
                extra_reward: extra_share,
            },
        ) => {
            &&& to_ints(base_winners@) == base
            &&& to_ints(extra_winners@) == extra
            &&& base_reward == base_share
            &&& extra_reward == extra_share
            &&& event == (MonthlyLotteryCompleted {
                base_winners: base.len() as u32,
                extra_winners: extra.len() as u8,
                total_reward: pool.total_amount,
                timestamp: now,
            })
        },
        _ => false,
    }
}

/// Holds the monthly lottery over the reader reward pool.
///
/// The lottery is rejected with `TooEarlyForLottery` before thirty days have
/// passed since the last one, with `EmptyRewardPool` where the pool holds
/// nothing, with `NoActiveReaders` where no reader counts as active, and,
/// where winners are to be drawn, with `ArithmeticOverflow` where the total
/// weight of the eligible readers does not fit in 32 bits. A rejected lottery
/// leaves the pool as it was.
///
/// With nobody eligible the pool carries over unchanged. With one to ten
/// eligible readers a fifth of the pool is kept for the next month and the
/// rest is shared evenly among them. With more, three in a hundred active
/// readers win a base prize from four fifths of the pool, and up to ten of
/// those who did not win one share the last fifth; both kinds of winners
/// are chosen by `select_winners`, and the pool is left empty. What division
/// leaves over is not paid out.
///
/// Of every lottery that is held, `spec_plan_holds` says who wins and what
/// is paid. The outcome names the winners by their positions in `readers`;
/// paying them is the caller's part.
pub fn monthly_lottery(
    pool: &mut ReaderRewardPool,
    readers: &Vec<ReaderActivity>,
    current_time: i64,
) -> (result: Result<LotteryOutcome, TaleForgeError>)
    ensures
        match spec_lottery_plan(*old(pool), readers@, current_time) {
            Err(e) => result is Err && result->Err_0 == e && *final(pool) == *old(pool),
            Ok(plan) => {
                &&& result is Ok
                &&& outcome_matches(result->Ok_0, plan, *old(pool), current_time)
                &&& *final(pool) == spec_pool_after(*old(pool), plan, current_time)
                &&& spec_plan_holds(*old(pool), readers@, current_time, plan)
            },
        },
{
    proof {
        if spec_lottery_plan(*pool, readers@, current_time) is Ok {
            lemma_lottery_outcomes(*pool, readers@, current_time);
        }
    }
    let total_amount: u64 = pool.total_amount;
    let active_readers: u32 = pool.active_readers;
    if (current_time as i128 - pool.last_lottery_time as i128) < LOTTERY_PERIOD_SECONDS as i128 {
        return Err(TaleForgeError::TooEarlyForLottery);
    }
    if total_amount == 0 {
        return Err(TaleForgeError::EmptyRewardPool);
    }
    if active_readers == 0 {
        return Err(TaleForgeError::NoActiveReaders);
    }
    let eligible: Vec<usize> = eligible_reader_indices(readers, current_time);
    let ghost e = spec_eligible_indices(readers@, current_time);
    proof {
        lemma_eligible_indices(readers@, current_time);
        assert forall|k: int| 0 <= k < eligible.len() implies eligible[k] < readers.len() by {
            assert(to_ints(eligible@)[k] == e[k]);
        }
    }
    if eligible.len() == 0 {
        return Ok(
            LotteryOutcome::Skipped {
                event: LotterySkipped {
                    reason: "No eligible readers".to_owned(),
                    accumulated_amount: total_amount,
                    timestamp: current_time,
                },
            },
        );
    }
    let fifth: u64 = ((total_amount as u128 * 20) / 100) as u64;
    if eligible.len() <= MINIMAL_LOTTERY_LIMIT {
        let reader_count: usize = eligible.len();
        let reserved_amount: u64 = fifth;
        let distributable_amount: u64 = total_amount - reserved_amount;
        let reward_per_reader: u64 = distributable_amount / reader_count as u64;
        pool.last_lottery_time = current_time;
        pool.total_amount = reserved_amount;
        pool.accumulated_rewards = 0;
        return Ok(
            LotteryOutcome::Minimal {
                winners: eligible,
                reward_per_reader,
                event: MinimalLotteryCompleted {
                    winner_count: reader_count as u32,
                    distributed_amount: distributable_amount,
                    reserved_amount,
                    timestamp: current_time,
                },
            },
        );
    }
    let base_winner_count: u32 = ((active_readers as u64 * LOTTERY_WINNER_PERCENTAGE as u64)
        / 100) as u32;
    let extra_prize_pool: u64 = fifth;
    let base_prize_pool: u64 = total_amount - extra_prize_pool;

    let candidates: Vec<ReaderActivity> = readers_at(readers, &eligible);
    let base_positions: Vec<usize> = match select_winners(
        &candidates,
        base_winner_count,
        current_time,
    ) {
        Ok(positions) => positions,
        Err(e) => {
            return Err(e);
        },
    };
    let ghost base = spec_select_winners(candidates@, base_winner_count, current_time);
    proof {
        lemma_select_winners_count(candidates@, base_winner_count, current_time);
        assert forall|k: int| 0 <= k < base_positions.len() implies base_positions[k]
            < eligible.len() by {
            assert(to_ints(base_positions@)[k] == base[k]);
        }
    }
    let rest_positions: Vec<usize> = unpicked_positions(eligible.len(), &base_positions);
    proof {
        lemma_unpicked(eligible.len() as nat, base);
        assert forall|k: int| 0 <= k < rest_positions.len() implies rest_positions[k]
            < eligible.len() by {
            assert(to_ints(rest_positions@)[k] == spec_unpicked(eligible.len() as nat, base)[k]);
        }
    }
    let rest: Vec<usize> = compose_indices(&eligible, &rest_positions);
    proof {
        assert forall|k: int| 0 <= k < rest.len() implies rest[k] < readers.len() by {
            assert(to_ints(rest@)[k] == to_ints(eligible@)[to_ints(rest_positions@)[k]]);
        }
    }
    let extra_positions: Vec<usize> = if rest.len() > 0 {
        let others: Vec<ReaderActivity> = readers_at(readers, &rest);
        match select_winners(&others, LOTTERY_EXTRA_PRIZE_COUNT, current_time) {
            Ok(positions) => {
                proof {
                    let extra = spec_select_winners(others@, 10, current_time);
                    lemma_select_winners_count(others@, 10, current_time);
                    assert forall|k: int| 0 <= k < positions.len() implies positions[k]
                        < rest.len() by {
                        assert(to_ints(positions@)[k] == extra[k]);
                    }
                }
                positions
            },
            Err(e) => {
                return Err(e);
            },
        }
    } else {
        let none: Vec<usize> = Vec::new();
        proof {
            assert(to_ints(none@) =~= Seq::<int>::empty());
        }
        none
    };
    let base_winners: Vec<usize> = compose_indices(&eligible, &base_positions);
    let extra_winners: Vec<usize> = compose_indices(&rest, &extra_positions);
    let base_reward: u64 = if base_winners.len() > 0 {
        base_prize_pool / base_winners.len() as u64
    } else {
        0
    };
    let extra_reward: u64 = if extra_winners.len() > 0 {
        extra_prize_pool / extra_winners.len() as u64
    } else {
        0
    };
    let event = MonthlyLotteryCompleted {
        base_winners: base_winners.len() as u32,
        extra_winners: extra_winners.len() as u8,
        total_reward: total_amount,
        timestamp: current_time,
    };
    pool.last_lottery_time = current_time;
    pool.total_amount = 0;
    Ok(LotteryOutcome::Normal { base_winners, extra_winners, base_reward, extra_reward, event })
}

impl ReaderRewardPool {
    /// Whether `amount` can be credited without overflowing a balance.
    pub open spec fn spec_can_credit(self, amount: u64) -> bool {
        self.accumulated_rewards + amount <= u64::MAX && self.total_amount + amount <= u64::MAX
    }

    /// Credits `amount` to the pool: to its balance and to the rewards
    /// accumulated since the last distribution.
    pub fn add_rewards(&mut self, amount: u64) -> (result: Result<(), TaleForgeError>)
        ensures
            old(self).spec_can_credit(amount) ==> result is Ok && *final(self) == (ReaderRewardPool {
                accumulated_rewards: (old(self).accumulated_rewards + amount) as u64,
                total_amount: (old(self).total_amount + amount) as u64,
                ..*old(self)
            }),
            !old(self).spec_can_credit(amount) ==> result == Err::<(), TaleForgeError>(
                TaleForgeError::ArithmeticOverflow,
            ) && *final(self) == *old(self),
    {
        if amount > u64::MAX - self.accumulated_rewards || amount > u64::MAX - self.total_amount {
            return Err(TaleForgeError::ArithmeticOverflow);
        }
        self.accumulated_rewards = self.accumulated_rewards + amount;
        self.total_amount = self.total_amount + amount;
        Ok(())
    }

    /// What each of `winners` winners receives from the accumulated rewards:
    /// an even share, rounded down.
    pub open spec fn spec_reward_per_winner(self, winners: nat) -> int {
        self.accumulated_rewards as int / winners as int
    }

    /// Whether the accumulated rewards can be shared among `winners`
    /// winners, and if not, why.
    pub open spec fn spec_distribute_result(self, winners: nat) -> Result<(), TaleForgeError> {
        if self.accumulated_rewards == 0 {
            Err(TaleForgeError::EmptyRewardPool)
        } else if winners == 0 {
            Err(TaleForgeError::NoEligibleReaders)
        } else if self.spec_reward_per_winner(winners) * winners > self.total_amount {
            Err(TaleForgeError::ArithmeticOverflow)
        } else {
            Ok(())
        }
    }

    /// Shares the accumulated rewards evenly among the winners and returns
    /// what each of them is to be paid.
    ///
    /// The accumulated rewards are set to zero and the balance is reduced by
    /// what is paid; what division leaves over stays in the balance.
    pub fn distribute_rewards(&mut self, winners: Vec<Pubkey>, current_time: i64) -> (result: Result<
        u64,
        TaleForgeError,
    >)
        ensures
            match old(self).spec_distribute_result(winners@.len()) {
                Err(e) => result == Err::<u64, TaleForgeError>(e) && *final(self) == *old(self),
                Ok(_) => {
                    let share = old(self).spec_reward_per_winner(winners@.len());
                    &&& result == Ok::<u64, TaleForgeError>(share as u64)
                    &&& *final(self) == (ReaderRewardPool {
                        accumulated_rewards: 0,
                        last_distribution: current_time,
                        total_amount: (old(self).total_amount - share * winners@.len()) as u64,
                        ..*old(self)
                    })
                },
            },
    {
        if self.accumulated_rewards == 0 {
            return Err(TaleForgeError::EmptyRewardPool);
        }
        if winners.len() == 0 {
            return Err(TaleForgeError::NoEligibleReaders);
        }
        let count: u64 = winners.len() as u64;
        let reward_per_winner: u64 = self.accumulated_rewards / count;
        assert(reward_per_winner * count <= self.accumulated_rewards) by (nonlinear_arith)
            requires
                reward_per_winner == self.accumulated_rewards / count,
                count > 0,
        ;
        let paid: u64 = reward_per_winner * count;
        if paid > self.total_amount {
            return Err(TaleForgeError::ArithmeticOverflow);
        }
        self.accumulated_rewards = 0;
        self.last_distribution = current_time;
        self.total_amount = self.total_amount - paid;
        Ok(reward_per_winner)
    }
}

/// A draw among the candidates picks as many as were asked for, or all of
/// them where they are fewer; the positions picked are valid and differ from
/// each other.
pub proof fn lemma_select_winners_count(candidates: Seq<ReaderActivity>, count: u32, now: i64)
    ensures
        spec_select_winners(candidates, count, now).len() == if count <= candidates.len() {
            count as int
        } else {
            candidates.len() as int
        },
        spec_distinct_below(spec_select_winners(candidates, count, now), candidates.len() as int),
{
    let total = spec_total_weight(candidates) as u32;
    let random_weight = spec_pseudo_random(spec_lottery_seed(now, total, count), now, total);
    let weights = spec_weights(candidates);
    let none = spec_none_used(candidates.len());
    assert(spec_no_negative(weights)) by {
        assert forall|i: int| 0 <= i < weights.len() implies #[trigger] weights[i] >= 0 by {
            lemma_reader_weight_positive(candidates[i]);
        }
    }
    lemma_draw_count(weights, none, random_weight, count as nat);
    lemma_none_used_count(candidates.len(), candidates.len() as int);
    lemma_draw_properties(weights, none, random_weight, count as nat);
}

/// What holds of the plan of every lottery that is held.
///
/// With nobody eligible the pool stays as it is. With one to ten eligible
/// readers all of them win, a fifth of the pool is kept, and what they are
/// paid and what is kept are within the pool. With more, the base winners are
/// three in a hundred active readers, or all eligible readers where those are
/// fewer, and the bonus winners are ten of the others, or all of the others
/// where those are fewer; every winner is eligible, nobody wins twice, each
/// base winner gets an even share of four fifths of the pool and each bonus
/// winner an even share of the last fifth, both rounded down, and the pool
/// is left empty.
pub open spec fn spec_plan_holds(
    pool: ReaderRewardPool,
    readers: Seq<ReaderActivity>,
    now: i64,
    plan: LotteryPlan,
) -> bool {
    let eligible = spec_eligible_indices(readers, now);
    let total = pool.total_amount as int;
    match plan {
        LotteryPlan::Skipped => {
            &&& eligible.len() == 0
            &&& spec_pool_after(pool, plan, now) == pool
        },
        LotteryPlan::Minimal { winners, reward_per_reader, reserved } => {
            &&& 1 <= eligible.len() <= 10
            &&& winners == eligible
            &&& reserved == total * 20 / 100
            &&& reward_per_reader == (total - reserved) / winners.len() as int
            &&& 0 <= reward_per_reader
            &&& reward_per_reader * winners.len() + reserved <= total
            &&& spec_pool_after(pool, plan, now).total_amount == reserved
        },
        LotteryPlan::Normal { base_winners, extra_winners, base_reward, extra_reward } => {
            let base_count = spec_base_winner_count(pool.active_readers);
            let extra_pool = total * 20 / 100;
            &&& eligible.len() > 10
            &&& base_winners.len() == (if base_count <= eligible.len() {
                base_count
            } else {
                eligible.len() as int
            })
            &&& extra_winners.len() == (if 10 <= eligible.len() - base_winners.len() {
                10
            } else {
                eligible.len() - base_winners.len()
            })
            &&& forall|k: int|
                0 <= k < base_winners.len() ==> 0 <= #[trigger] base_winners[k] < readers.len()
                    && spec_is_eligible(readers[base_winners[k]], now)
            &&& forall|k: int|
                0 <= k < extra_winners.len() ==> 0 <= #[trigger] extra_winners[k] < readers.len()
                    && spec_is_eligible(readers[extra_winners[k]], now)
            &&& forall|k: int, l: int|
                0 <= k < l < base_winners.len() ==> #[trigger] base_winners[k]
                    != #[trigger] base_winners[l]
            &&& forall|k: int, l: int|
                0 <= k < l < extra_winners.len() ==> #[trigger] extra_winners[k]
                    != #[trigger] extra_winners[l]
            &&& forall|k: int, l: int|
                0 <= k < base_winners.len() && 0 <= l < extra_winners.len()
                    ==> #[trigger] base_winners[k] != #[trigger] extra_winners[l]
            &&& base_reward == spec_even_share(total - extra_pool, base_winners.len() as int)
            &&& extra_reward == spec_even_share(extra_pool, extra_winners.len() as int)
            &&& 0 <= base_reward
            &&& 0 <= extra_reward
            &&& base_reward * base_winners.len() + extra_reward * extra_winners.len() <= total
            &&& spec_pool_after(pool, plan, now).total_amount == 0
        },
    }
}

/// The plan of every lottery that is held is as `spec_plan_holds` says.
pub proof fn lemma_lottery_outcomes(pool: ReaderRewardPool, readers: Seq<ReaderActivity>, now: i64)
    requires
        spec_lottery_plan(pool, readers, now) is Ok,
    ensures
        spec_plan_holds(pool, readers, now, spec_lottery_plan(pool, readers, now)->Ok_0),
{
    let eligible = spec_eligible_indices(readers, now);
    let total = pool.total_amount as int;
    lemma_eligible_indices(readers, now);
    match spec_lottery_plan(pool, readers, now)->Ok_0 {
        LotteryPlan::Skipped => {},
        LotteryPlan::Minimal { winners, reward_per_reader, reserved } => {
            let n = eligible.len() as int;
            let spread = total - reserved;
            assert(0 <= spread / n && (spread / n) * n <= spread) by (nonlinear_arith)
                requires
                    n > 0,
                    spread >= 0,
            ;
        },
        LotteryPlan::Normal { base_winners, extra_winners, base_reward, extra_reward } => {
            let extra_pool = spec_fifth(pool.total_amount);
            let base_pool = total - extra_pool;
            let base_count = spec_base_winner_count(pool.active_readers) as u32;
            let first = spec_at(readers, eligible);
            let base = spec_select_winners(first, base_count, now);
            lemma_select_winners_count(first, base_count, now);
            let open = spec_unpicked(eligible.len(), base);
            lemma_unpicked(eligible.len(), base);
            let rest = spec_compose(eligible, open);
            lemma_select_winners_count(spec_at(readers, rest), 10, now);
            let b = base_winners.len() as int;
            let x = extra_winners.len() as int;
            assert(0 <= spec_even_share(base_pool, b) && spec_even_share(base_pool, b) * b
                <= base_pool) by (nonlinear_arith)
                requires
                    b >= 0,
                    base_pool >= 0,
                    spec_even_share(base_pool, b) == if b > 0 {
                        base_pool / b
                    } else {
                        0
                    },
            ;
            assert(0 <= spec_even_share(extra_pool, x) && spec_even_share(extra_pool, x) * x
                <= extra_pool) by (nonlinear_arith)
                requires
                    x >= 0,
                    extra_pool >= 0,
                    spec_even_share(extra_pool, x) == if x > 0 {
                        extra_pool / x
                    } else {
                        0
                    },
            ;
        },
    }
}

/// The readers left over by a draw weigh no more than all the candidates.
pub proof fn lemma_unpicked_weight(candidates: Seq<ReaderActivity>, picked: Seq<int>, m: nat)
    requires
        m <= candidates.len(),
    ensures
        spec_total_weight(spec_at(candidates, spec_unpicked(m, picked))) <= spec_total_weight(
            candidates.take(m as int),
        ),
    decreases m,
{
    if m == 0 {
    } else {
        lemma_unpicked_weight(candidates, picked, (m - 1) as nat);
        let rest = spec_unpicked((m - 1) as nat, picked);
        assert(candidates.take(m as int).drop_last() =~= candidates.take(m - 1));
        lemma_reader_weight_positive(candidates[m - 1]);
        if !picked.contains(m - 1) {
            let all = spec_at(candidates, rest.push(m - 1));
            assert(all.drop_last() =~= spec_at(candidates, rest));
        }
    }
}

/// A lottery is rejected for four reasons and no others: it is too early,
/// the pool is empty, no reader is active, or more than ten readers are
/// eligible and their total weight does not fit in 32 bits.
pub proof fn lemma_lottery_rejections(pool: ReaderRewardPool, readers: Seq<ReaderActivity>, now: i64)
    ensures
        ({
            let eligible = spec_eligible_indices(readers, now);
            spec_lottery_plan(pool, readers, now) is Err <==> {
                ||| now - pool.last_lottery_time < 2_592_000
                ||| pool.total_amount == 0
                ||| pool.active_readers == 0
                ||| eligible.len() > 10 && spec_total_weight(spec_at(readers, eligible)) > u32::MAX
            }
        }),
{
    let eligible = spec_eligible_indices(readers, now);
    let first = spec_at(readers, eligible);
    let base_count = spec_base_winner_count(pool.active_readers) as u32;
    if eligible.len() > 10 && spec_total_weight(first) <= u32::MAX {
        let base = spec_select_winners(first, base_count, now);
        let open = spec_unpicked(eligible.len(), base);
        let rest = spec_compose(eligible, open);
        lemma_unpicked(eligible.len(), base);
        lemma_unpicked_weight(first, base, eligible.len());
        assert(first.take(eligible.len() as int) =~= first);
        assert(spec_at(readers, rest) =~= spec_at(first, open));
    }
}

} // verus!
