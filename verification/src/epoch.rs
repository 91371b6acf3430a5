//! The epoch coordinator: once a week an epoch is opened, the stories are
//! scored in batches, and the epoch is closed, which fixes the reward per
//! unit of mining power for that period and enters it in a short history.

use vstd::prelude::*;
use solana_program::pubkey::Pubkey;
use crate::constants::{DEFAULT_BATCH_SIZE, EPOCH_SECONDS, PERIOD_HISTORY_LIMIT};
use crate::errors::TaleForgeError;
use crate::events::{
    BatchCompleted, StoryMiningPowerUpdated, WeeklyCalculationCompleted, WeeklyCalculationStarted,
};
use crate::scoring::{mining_power_with, spec_power_with, spec_score_inputs};
use crate::story::{RecentActivity, Story};

verus! {

/// The record of one closed period.
#[derive(Clone, Copy, Debug, PartialEq, Eq, Structural)]
pub struct PeriodReward {
    /// The number of the period; the key by which the record is found.
    pub period: u64,
    /// The reward per unit of mining power that the period was closed with.
    pub reward_per_power: u64,
    pub total_mining_power: u64,
    pub total_rewards: u64,
    /// When the period was closed.
    pub timestamp: i64,
}

/// The state of the epoch coordinator.
#[derive(Clone, Debug, PartialEq)]
pub struct ActiveStories {
    pub authority: Pubkey,
    /// Sum of the mining power scored in the current period, capped at the
    /// largest 64-bit number.
    pub total_mining_power: u64,
    /// When an epoch was last opened or closed.
    pub last_update_time: i64,
    /// The number of the current period.
    pub current_period: u64,
    /// Whether an epoch is open.
    pub is_calculating: bool,
    /// Stories that one batch may hold, at most.
    pub batch_size: u8,
    /// Number of batches scored in the open epoch.
    pub current_batch: u32,
    pub total_batches: u32,
    /// Whether a batch has been scored in the open epoch.
    pub is_batch_completed: bool,
    /// The reward per unit of mining power of the period closed last.
    pub reward_per_power: u64,
    /// The reward budget of the current period.
    pub total_rewards: u64,
    /// The records of the periods closed last, oldest first.
    pub period_rewards: Vec<PeriodReward>,
    pub last_distribution_time: i64,
}

/// The state of the epoch coordinator, as a mathematical value.
pub struct EpochView {
    pub authority: Pubkey,
    pub total_mining_power: u64,
    pub last_update_time: i64,
    pub current_period: u64,
    pub is_calculating: bool,
    pub batch_size: u8,
    pub current_batch: u32,
    pub total_batches: u32,
    pub is_batch_completed: bool,
    pub reward_per_power: u64,
    pub total_rewards: u64,
    pub history: Seq<PeriodReward>,
    pub last_distribution_time: i64,
}

impl View for ActiveStories {
    type V = EpochView;

    open spec fn view(&self) -> EpochView {
        EpochView {
            authority: self.authority,
            total_mining_power: self.total_mining_power,
            last_update_time: self.last_update_time,
            current_period: self.current_period,
            is_calculating: self.is_calculating,
            batch_size: self.batch_size,
            current_batch: self.current_batch,
            total_batches: self.total_batches,
            is_batch_completed: self.is_batch_completed,
            reward_per_power: self.reward_per_power,
            total_rewards: self.total_rewards,
            history: self.period_rewards@,
            last_distribution_time: self.last_distribution_time,
        }
    }
}

/// The first record of `history` kept under `period`, if there is one.
pub open spec fn spec_lookup(history: Seq<PeriodReward>, period: u64) -> Option<PeriodReward>
    decreases history.len(),
{
    if history.len() == 0 {
        None
    } else if history[0].period == period {
        Some(history[0])
    } else {
        spec_lookup(history.drop_first(), period)
    }
}

/// The history after a record is appended: the record comes last, and where
/// that makes more than ten records the oldest one leaves.
pub open spec fn spec_append(history: Seq<PeriodReward>, reward: PeriodReward) -> Seq<PeriodReward> {
    let longer = history.push(reward);
    if longer.len() > 10 {
        longer.drop_first()
    } else {
        longer
    }
}

/// The state after an epoch is opened at `now`, or why it cannot be.
///
/// An epoch can be opened seven days after the last opening or closing, and
/// only while none is open. Opening starts the next period with no mining
/// power and no batch scored.
pub open spec fn spec_open(state: EpochView, now: i64) -> Result<EpochView, TaleForgeError> {
    if now - state.last_update_time < 604_800 {
        Err(TaleForgeError::TooEarlyToCalculate)
    } else if state.is_calculating {
        Err(TaleForgeError::CalculationInProgress)
    } else if state.current_period == u64::MAX {
        Err(TaleForgeError::ArithmeticOverflow)
    } else {
        Ok(
            EpochView {
                is_calculating: true,
                total_mining_power: 0,
                current_period: (state.current_period + 1) as u64,
                current_batch: 0,
                batch_size: 25,
                total_batches: 0,
                is_batch_completed: false,
                last_update_time: now,
                ..state
            },
        )
    }
}

/// The reward per unit of mining power that closing fixes: the budget
/// divided by the total power, rounded down; with no power at all, the rate
/// of the period closed before.
pub open spec fn spec_closing_rate(state: EpochView) -> u64 {
    if state.total_mining_power > 0 {
        state.total_rewards / state.total_mining_power
    } else {
        state.reward_per_power
    }
}

/// The record that closing at `now` enters in the history.
pub open spec fn spec_closing_record(state: EpochView, now: i64) -> PeriodReward {
    PeriodReward {
        period: state.current_period,
        reward_per_power: spec_closing_rate(state),
        total_mining_power: state.total_mining_power,
        total_rewards: state.total_rewards,
        timestamp: now,
    }
}

/// The state after the open epoch is closed at `now`, or why it cannot be.
///
/// An epoch can be closed while it is open and once a batch has been scored
/// in it.
pub open spec fn spec_close(state: EpochView, now: i64) -> Result<EpochView, TaleForgeError> {
    if !state.is_calculating {
        Err(TaleForgeError::NotInCalculationPeriod)
    } else if !state.is_batch_completed {
        Err(TaleForgeError::BatchesNotCompleted)
    } else {
        Ok(
            EpochView {
                reward_per_power: spec_closing_rate(state),
                history: spec_append(state.history, spec_closing_record(state, now)),
                is_calculating: false,
                is_batch_completed: false,
                last_update_time: now,
                ..state
            },
        )
    }
}

impl EpochView {
    /// Whether the state is one that the protocol can reach: the history
    /// holds at most ten records, in ascending order of their periods, and
    /// none of a period after the current one, nor of the current one while
    /// it is open; and a batch counts as scored only while an epoch is open.
    pub open spec fn wf(self) -> bool {
        &&& self.history.len() <= 10
        &&& forall|i: int, j: int|
            0 <= i < j < self.history.len() ==> (#[trigger] self.history[i]).period < (
            #[trigger] self.history[j]).period
        &&& forall|i: int|
            0 <= i < self.history.len() ==> (#[trigger] self.history[i]).period
                <= self.current_period
        &&& self.is_calculating ==> forall|i: int|
            0 <= i < self.history.len() ==> (#[trigger] self.history[i]).period
                < self.current_period
        &&& self.is_batch_completed ==> self.is_calculating
    }
}

impl ActiveStories {
    /// The coordinator before its first epoch: no period has been opened,
    /// and the history is empty. The first epoch can be opened seven days
    /// after `current_time`.
    pub fn new(authority: Pubkey, current_time: i64) -> (active_stories: ActiveStories)
        ensures
            active_stories@.wf(),
            active_stories@ == (EpochView {
                authority,
                total_mining_power: 0,
                last_update_time: current_time,
                current_period: 0,
                is_calculating: false,
                batch_size: 25,
                current_batch: 0,
                total_batches: 0,
                is_batch_completed: false,
                reward_per_power: 0,
                total_rewards: 0,
                history: Seq::empty(),
                last_distribution_time: 0,
            }),
    {
        ActiveStories {
            authority,
            total_mining_power: 0,
            last_update_time: current_time,
            current_period: 0,
            is_calculating: false,
            batch_size: DEFAULT_BATCH_SIZE,
            current_batch: 0,
            total_batches: 0,
            is_batch_completed: false,
            reward_per_power: 0,
            total_rewards: 0,
            period_rewards: Vec::new(),
            last_distribution_time: 0,
        }
    }

    /// The first record kept under `period`, if there is one.
    fn find_period(&self, period: u64) -> (found: Option<PeriodReward>)
        ensures
            found == spec_lookup(self@.history, period),
    {
        let ghost history = self.period_rewards@;
        let mut i: usize = 0;
        proof {
            assert(history.skip(0) =~= history);
        }
        while i < self.period_rewards.len()
            invariant
                i <= self.period_rewards.len(),
                history == self.period_rewards@,
                spec_lookup(history, period) == spec_lookup(history.skip(i as int), period),
            decreases self.period_rewards.len() - i,
        {
            proof {
                assert(history.skip(i as int).drop_first() =~= history.skip(i as int + 1));
            }
            if self.period_rewards[i].period == period {
                return Some(self.period_rewards[i]);
            }
            i = i + 1;
        }
        None
    }

    /// The reward per unit of mining power of a closed period.
    ///
    /// Fails with `PeriodRewardNotFound` where the history holds no record of
    /// the period: it was never closed, or its record has left the history.
    pub fn get_period_reward_per_power(&self, period: u64) -> (result: Result<u64, TaleForgeError>)
        ensures
            match spec_lookup(self@.history, period) {
                Some(record) => result == Ok::<u64, TaleForgeError>(record.reward_per_power),
                None => result == Err::<u64, TaleForgeError>(TaleForgeError::PeriodRewardNotFound),
            },
    {
        match self.find_period(period) {
            Some(record) => Ok(record.reward_per_power),
            None => Err(TaleForgeError::PeriodRewardNotFound),
        }
    }

    /// The reward budget of a closed period.
    ///
    /// Fails with `PeriodRewardNotFound` where the history holds no record of
    /// the period.
    pub fn get_period_total_rewards(&self, period: u64) -> (result: Result<u64, TaleForgeError>)
        ensures
            match spec_lookup(self@.history, period) {
                Some(record) => result == Ok::<u64, TaleForgeError>(record.total_rewards),
                None => result == Err::<u64, TaleForgeError>(TaleForgeError::PeriodRewardNotFound),
            },
    {
        match self.find_period(period) {
            Some(record) => Ok(record.total_rewards),
            None => Err(TaleForgeError::PeriodRewardNotFound),
        }
    }

    /// Appends a record to the history; where that makes more than ten, the
    /// oldest record leaves.
    pub fn add_period_reward(&mut self, reward: PeriodReward)
        ensures
            final(self)@ == (EpochView {
                history: spec_append(old(self)@.history, reward),
                ..old(self)@
            }),
    {
        self.period_rewards.push(reward);
        if self.period_rewards.len() > PERIOD_HISTORY_LIMIT {
            self.period_rewards.remove(0);
        }
    }
}

/// Opens an epoch at `current_time`.
///
/// Rejected with `TooEarlyToCalculate` before seven days have passed since
/// the last opening or closing, and with `CalculationInProgress` while an
/// epoch is open. A rejected call changes nothing.
pub fn start_weekly_power_calculation(active_stories: &mut ActiveStories, current_time: i64) -> (result:
    Result<WeeklyCalculationStarted, TaleForgeError>)
    ensures
        match spec_open(old(active_stories)@, current_time) {
            Err(e) => result == Err::<WeeklyCalculationStarted, TaleForgeError>(e)
                && *final(active_stories) == *old(active_stories),
            Ok(state) => final(active_stories)@ == state && (old(active_stories)@.wf()
                ==> state.wf()) && result == Ok::<WeeklyCalculationStarted, TaleForgeError>(
                WeeklyCalculationStarted {
                    period: state.current_period,
                    total_stories: 0,
                    total_batches: 0,
                    timestamp: current_time,
                },
            ),
        },
{
    proof {
        if active_stories@.wf() {
            lemma_protocol_keeps_wf(active_stories@, Seq::empty(), current_time);
        }
    }
    if (current_time as i128 - active_stories.last_update_time as i128) < EPOCH_SECONDS as i128 {
        return Err(TaleForgeError::TooEarlyToCalculate);
    }
    if active_stories.is_calculating {
        return Err(TaleForgeError::CalculationInProgress);
    }
    if active_stories.current_period == u64::MAX {
        return Err(TaleForgeError::ArithmeticOverflow);
    }
    active_stories.is_calculating = true;
    active_stories.total_mining_power = 0;
    active_stories.current_period = active_stories.current_period + 1;
    active_stories.current_batch = 0;
    active_stories.batch_size = DEFAULT_BATCH_SIZE;
    active_stories.total_batches = 0;
    active_stories.is_batch_completed = false;
    active_stories.last_update_time = current_time;
    Ok(
        WeeklyCalculationStarted {
            period: active_stories.current_period,
            total_stories: 0,
            total_batches: 0,
            timestamp: current_time,
        },
    )
}

/// Closes the open epoch at `current_time`.
///
/// Rejected with `NotInCalculationPeriod` while no epoch is open, and with
/// `BatchesNotCompleted` before a batch has been scored in it. A rejected call
/// changes nothing. Closing fixes the period's reward per unit of mining
/// power and enters the period in the history. Where the period's total
/// mining power is zero, the rate of the period before stays in place.
pub fn finish_weekly_calculation(active_stories: &mut ActiveStories, current_time: i64) -> (result:
    Result<WeeklyCalculationCompleted, TaleForgeError>)
    ensures
        match spec_close(old(active_stories)@, current_time) {
            Err(e) => result == Err::<WeeklyCalculationCompleted, TaleForgeError>(e)
                && *final(active_stories) == *old(active_stories),
            Ok(state) => final(active_stories)@ == state && (old(active_stories)@.wf()
                ==> state.wf()) && result == Ok::<WeeklyCalculationCompleted, TaleForgeError>(
                WeeklyCalculationCompleted {
                    period: state.current_period,
                    total_mining_power: state.total_mining_power,
                    reward_per_power: state.reward_per_power,
                    total_rewards: state.total_rewards,
                    timestamp: current_time,
                },
            ),
        },
{
    proof {
        if active_stories@.wf() {
            lemma_protocol_keeps_wf(active_stories@, Seq::empty(), current_time);
        }
    }
    if !active_stories.is_calculating {
        return Err(TaleForgeError::NotInCalculationPeriod);
    }
    if !active_stories.is_batch_completed {
        return Err(TaleForgeError::BatchesNotCompleted);
    }
    if active_stories.total_mining_power > 0 {
        active_stories.reward_per_power = active_stories.total_rewards
            / active_stories.total_mining_power;
    }
    let period_reward = PeriodReward {
        period: active_stories.current_period,
        reward_per_power: active_stories.reward_per_power,
        total_mining_power: active_stories.total_mining_power,
        total_rewards: active_stories.total_rewards,
        timestamp: current_time,
    };
    active_stories.add_period_reward(period_reward);
    active_stories.is_calculating = false;
    active_stories.is_batch_completed = false;
    active_stories.last_update_time = current_time;
    Ok(
        WeeklyCalculationCompleted {
            period: active_stories.current_period,
            total_mining_power: active_stories.total_mining_power,
            reward_per_power: active_stories.reward_per_power,
            total_rewards: active_stories.total_rewards,
            timestamp: current_time,
        },
    )
}

/// A story after it is scored at `now` with `power`: it has its new mining
/// power, and the counters of the period start again from zero.
pub open spec fn spec_scored(story: Story, power: int, now: i64) -> Story {
    Story {
        mining_power: power as u64,
        current_period_words: 0,
        current_period_likes: 0,
        current_period_comments: 0,
        current_period_tips_sol: 0,
        current_period_tips_token: 0,
        last_mining_power_update: now,
        ..story
    }
}

/// The mining power that the scoring function gives each story of a batch,
/// the recent activity of the stories being `recents`.
pub open spec fn spec_batch_powers(stories: Seq<Story>, recents: Seq<RecentActivity>) -> Seq<int> {
    Seq::new(stories.len(), |i: int| spec_power_with(stories[i], recents[i]))
}

/// What the stories of a batch themselves report as their recent activity.
pub open spec fn spec_own_reports(stories: Seq<Story>) -> Seq<RecentActivity> {
    Seq::new(stories.len(), |i: int| stories[i].spec_recent_activity())
}

/// The sum of the mining power of a batch.
pub open spec fn spec_sum(powers: Seq<int>) -> int
    decreases powers.len(),
{
    if powers.len() == 0 {
        0
    } else {
        spec_sum(powers.drop_last()) + powers.last()
    }
}

/// Whether the mining power of every story of a batch fits in 64 bits.
pub open spec fn spec_all_fit(powers: Seq<int>) -> bool {
    forall|i: int| 0 <= i < powers.len() ==> #[trigger] powers[i] <= u64::MAX
}

/// Whether a batch can be scored, and if not, why.
///
/// A batch is scored only while an epoch is open; it holds no more stories
/// than the batch size, with one address and one record of recent activity
/// for each story.
pub open spec fn spec_score_check(
    state: EpochView,
    stories: nat,
    keys: nat,
    recents: nat,
    powers: Seq<int>,
) -> Result<(), TaleForgeError> {
    if !state.is_calculating {
        Err(TaleForgeError::NotInCalculationPeriod)
    } else if stories > state.batch_size {
        Err(TaleForgeError::BatchSizeExceeded)
    } else if keys != stories || recents != stories {
        Err(TaleForgeError::StoryLoadError)
    } else if !spec_all_fit(powers) {
        Err(TaleForgeError::ArithmeticOverflow)
    } else {
        Ok(())
    }
}

/// A sum of mining power, capped at the largest 64-bit number.
pub open spec fn spec_capped(sum: int) -> u64 {
    if sum > u64::MAX {
        u64::MAX
    } else {
        sum as u64
    }
}

/// The number of batches after one more, capped at the largest 32-bit
/// number.
pub open spec fn spec_next_batch(current_batch: u32) -> u32 {
    if current_batch == u32::MAX {
        u32::MAX
    } else {
        (current_batch + 1) as u32
    }
}

/// The state after a batch is scored: the batch's mining power is added to
/// the period's total, and one more batch is counted.
pub open spec fn spec_after_batch(state: EpochView, powers: Seq<int>) -> EpochView {
    EpochView {
        total_mining_power: spec_capped(state.total_mining_power + spec_sum(powers)),
        current_batch: spec_next_batch(state.current_batch),
        is_batch_completed: true,
        ..state
    }
}

/// What scoring a batch hands back.
#[derive(Clone, Debug, PartialEq)]
pub struct BatchOutcome {
    /// One record for each story, in the order of the batch.
    pub updates: Vec<StoryMiningPowerUpdated>,
    pub completed: BatchCompleted,
}

/// The record of a story's scoring with `power` at `now`.
pub open spec fn spec_power_update(story: Story, key: Pubkey, power: int, now: i64) -> StoryMiningPowerUpdated {
    StoryMiningPowerUpdated {
        story: key,
        old_power: story.mining_power,
        new_power: power as u64,
        timestamp: now,
    }
}

/// Whether a batch was scored as `powers` asks, or rejected as the check
/// asks, and left as it was.
pub open spec fn spec_batch_scored(
    before: EpochView,
    after: EpochView,
    stories_before: Seq<Story>,
    stories_after: Seq<Story>,
    keys: Seq<Pubkey>,
    recents: nat,
    powers: Seq<int>,
    now: i64,
    result: Result<BatchOutcome, TaleForgeError>,
) -> bool {
    match spec_score_check(before, stories_before.len(), keys.len(), recents, powers) {
        Err(e) => {
            &&& result is Err
            &&& result->Err_0 == e
            &&& after == before
            &&& stories_after == stories_before
        },
        Ok(_) => {
            &&& result is Ok
            &&& after == spec_after_batch(before, powers)
            &&& before.wf() ==> after.wf()
            &&& stories_after.len() == stories_before.len()
            &&& forall|i: int|
                0 <= i < stories_before.len() ==> #[trigger] stories_after[i] == spec_scored(
                    stories_before[i],
                    powers[i],
                    now,
                )
            &&& result->Ok_0.updates@.len() == stories_before.len()
            &&& forall|i: int|
                0 <= i < stories_before.len() ==> #[trigger] result->Ok_0.updates@[i]
                    == spec_power_update(stories_before[i], keys[i], powers[i], now)
            &&& result->Ok_0.completed == (BatchCompleted {
                batch: (after.current_batch - 1) as u32,
                stories_processed: stories_before.len() as u32,
                is_final_batch: true,
                timestamp: now,
            })
        },
    }
}

/// Whether stories of a batch that had the same inputs to the scoring
/// function were given the same mining power, whatever else was different
/// about them: the power they held before, their place in the batch.
pub open spec fn spec_scored_alike(
    stories_before: Seq<Story>,
    recents: Seq<RecentActivity>,
    stories_after: Seq<Story>,
) -> bool {
    forall|i: int, j: int|
        0 <= i < stories_before.len() && 0 <= j < stories_before.len() && spec_score_inputs(
            stories_before[i],
            recents[i],
        ) == spec_score_inputs(stories_before[j], recents[j]) ==> (
        #[trigger] stories_after[i]).mining_power == (#[trigger] stories_after[j]).mining_power
}

/// The sum of the first `i + 1` powers is the sum of the first `i` and the
/// next.
pub proof fn lemma_sum_step(powers: Seq<int>, i: int)
    requires
        0 <= i < powers.len(),
    ensures
        spec_sum(powers.take(i + 1)) == spec_sum(powers.take(i)) + powers[i],
{
    assert(powers.take(i + 1).drop_last() =~= powers.take(i));
}

/// Scores a batch of stories at `current_time`, the recent activity of each
/// story being given by the caller.
///
/// Each story gets the mining power that the scoring function gives it, the
/// power is added to the period's total, and the story's counters of the
/// period are set to zero. `story_keys` holds the address and `recents` the
/// recent activity of each story, in the order of `stories`.
///
/// Rejected with `NotInCalculationPeriod` while no epoch is open, with
/// `BatchSizeExceeded` where the batch holds more stories than the batch
/// size, with `StoryLoadError` where the addresses or the records of recent
/// activity do not match the stories in number, and with
/// `ArithmeticOverflow` where a story's mining power does not fit in 64 bits.
/// A rejected call changes nothing: a batch is scored as a whole or not at
/// all.
///
/// The power that a story is given depends on its counters of the period,
/// on its lifetime NFT revenue and on whether its recent activity counts as
/// trending, and on nothing else: stories of a batch that agree on these are
/// given the same power.
///
/// Nothing keeps a story from being scored twice in an epoch; its power
/// would then be counted twice. The caller sees to it that each story is in
/// one batch only.
pub fn score_batch(
    active_stories: &mut ActiveStories,
    stories: &mut Vec<Story>,
    story_keys: &Vec<Pubkey>,
    recents: &Vec<RecentActivity>,
    current_time: i64,
) -> (result: Result<BatchOutcome, TaleForgeError>)
    ensures
        spec_batch_scored(
            old(active_stories)@,
            final(active_stories)@,
            old(stories)@,
            final(stories)@,
            story_keys@,
            recents@.len(),
            spec_batch_powers(old(stories)@, recents@),
            current_time,
            result,
        ),
        result is Err ==> *final(active_stories) == *old(active_stories) && *final(stories)
            == *old(stories),
        result is Ok ==> spec_scored_alike(old(stories)@, recents@, final(stories)@),
{
    proof {
        if active_stories@.wf() {
            lemma_protocol_keeps_wf(
                active_stories@,
                spec_batch_powers(stories@, recents@),
                current_time,
            );
        }
    }
    if !active_stories.is_calculating {
        return Err(TaleForgeError::NotInCalculationPeriod);
    }
    let n: usize = stories.len();
    if n > active_stories.batch_size as usize {
        return Err(TaleForgeError::BatchSizeExceeded);
    }
    if story_keys.len() != n || recents.len() != n {
        return Err(TaleForgeError::StoryLoadError);
    }
    let ghost before = stories@;
    let ghost expected = spec_batch_powers(before, recents@);
    let mut powers: Vec<u64> = Vec::new();
    let mut i: usize = 0;
    while i < n
        invariant
            i <= n,
            n == stories@.len(),
            stories@ == before,
            *stories == *old(stories),
            *active_stories == *old(active_stories),
            active_stories.is_calculating,
            n <= active_stories.batch_size,
            story_keys@.len() == n,
            recents@.len() == n,
            expected == spec_batch_powers(before, recents@),
            powers@.len() == i,
            forall|j: int| 0 <= j < i ==> powers@[j] as int == #[trigger] expected[j],
        decreases n - i,
    {
        match mining_power_with(&stories[i], &recents[i]) {
            Ok(power) => {
                powers.push(power);
            },
            Err(e) => {
                proof {
                    assert(expected[i as int] > u64::MAX);
                }
                return Err(e);
            },
        }
        i = i + 1;
    }
    let mut total: u64 = active_stories.total_mining_power;
    let mut updates: Vec<StoryMiningPowerUpdated> = Vec::new();
    let mut k: usize = 0;
    while k < n
        invariant
            k <= n,
            n == before.len(),
            expected.len() == n,
            stories@.len() == n,
            story_keys@.len() == n,
            powers@.len() == n,
            forall|j: int| 0 <= j < n ==> powers@[j] as int == #[trigger] expected[j],
            forall|j: int|
                0 <= j < k ==> #[trigger] stories@[j] == spec_scored(
                    before[j],
                    expected[j],
                    current_time,
                ),
            forall|j: int| k <= j < n ==> #[trigger] stories@[j] == before[j],
            spec_sum(expected.take(k as int)) >= 0,
            total == spec_capped(
                old(active_stories).total_mining_power + spec_sum(expected.take(k as int)),
            ),
            updates@.len() == k,
            forall|j: int|
                0 <= j < k ==> #[trigger] updates@[j] == spec_power_update(
                    before[j],
                    story_keys@[j],
                    expected[j],
                    current_time,
                ),
        decreases n - k,
    {
        proof {
            lemma_sum_step(expected, k as int);
        }
        let old_power: u64 = stories[k].mining_power;
        let new_power: u64 = powers[k];
        stories[k].mining_power = new_power;
        stories[k].current_period_words = 0;
        stories[k].current_period_likes = 0;
        stories[k].current_period_comments = 0;
        stories[k].current_period_tips_sol = 0;
        stories[k].current_period_tips_token = 0;
        stories[k].last_mining_power_update = current_time;
        total = total.saturating_add(new_power);
        updates.push(
            StoryMiningPowerUpdated {
                story: story_keys[k],
                old_power,
                new_power,
                timestamp: current_time,
            },
        );
        k = k + 1;
    }
    proof {
        assert(expected.take(n as int) =~= expected);
        assert(spec_all_fit(expected));
    }
    active_stories.total_mining_power = total;
    active_stories.current_batch = active_stories.current_batch.saturating_add(1);
    active_stories.is_batch_completed = true;
    let completed = BatchCompleted {
        batch: active_stories.current_batch.saturating_sub(1),
        stories_processed: n as u32,
        is_final_batch: active_stories.is_batch_completed,
        timestamp: current_time,
    };
    Ok(BatchOutcome { updates, completed })
}

/// Scores a batch of stories at `current_time`, the recent activity of each
/// story being what the story itself reports.
///
/// This is `score_batch` with the stories' own reports; it is rejected, and
/// changes nothing, where `score_batch` is.
pub fn calculate_story_power(
    active_stories: &mut ActiveStories,
    stories: &mut Vec<Story>,
    story_keys: &Vec<Pubkey>,
    current_time: i64,
) -> (result: Result<BatchOutcome, TaleForgeError>)
    ensures
        spec_batch_scored(
            old(active_stories)@,
            final(active_stories)@,
            old(stories)@,
            final(stories)@,
            story_keys@,
            old(stories)@.len(),
            spec_batch_powers(old(stories)@, spec_own_reports(old(stories)@)),
            current_time,
            result,
        ),
        result is Err ==> *final(active_stories) == *old(active_stories) && *final(stories)
            == *old(stories),
        result is Ok ==> spec_scored_alike(
            old(stories)@,
            spec_own_reports(old(stories)@),
            final(stories)@,
        ),
{
    let mut recents: Vec<RecentActivity> = Vec::new();
    let mut i: usize = 0;
    while i < stories.len()
        invariant
            i <= stories.len(),
            *stories == *old(stories),
            recents@.len() == i,
            forall|j: int| 0 <= j < i ==> #[trigger] recents@[j] == stories@[j].spec_recent_activity(),
        decreases stories.len() - i,
    {
        recents.push(stories[i].recent_activity(current_time));
        i = i + 1;
    }
    proof {
        assert(recents@ =~= spec_own_reports(stories@));
    }
    score_batch(active_stories, stories, story_keys, &recents, current_time)
}

/// An epoch that has just been opened holds no mining power, still has the
/// rate of the period closed before, and cannot be closed: closing it before
/// a batch is scored is rejected with `BatchesNotCompleted`.
pub proof fn lemma_close_right_after_open(state: EpochView, opened_at: i64, closed_at: i64)
    requires
        spec_open(state, opened_at) is Ok,
    ensures
        ({
            let opened = spec_open(state, opened_at)->Ok_0;
            &&& opened.total_mining_power == 0
            &&& opened.reward_per_power == state.reward_per_power
            &&& opened.history == state.history
            &&& spec_close(opened, closed_at) == Err::<EpochView, TaleForgeError>(
                TaleForgeError::BatchesNotCompleted,
            )
        }),
{
}

/// An epoch in which only stories without mining power were scored, or none
/// at all, closes with a total mining power of zero and with the rate that
/// was in place before it was opened; the record of the period holds that
/// rate.
pub proof fn lemma_close_without_power(
    state: EpochView,
    opened_at: i64,
    powers: Seq<int>,
    closed_at: i64,
)
    requires
        spec_open(state, opened_at) is Ok,
        spec_sum(powers) == 0,
    ensures
        ({
            let opened = spec_open(state, opened_at)->Ok_0;
            let scored = spec_after_batch(opened, powers);
            &&& spec_close(scored, closed_at) is Ok
            &&& spec_close(scored, closed_at)->Ok_0.total_mining_power == 0
            &&& spec_close(scored, closed_at)->Ok_0.reward_per_power == state.reward_per_power
            &&& spec_closing_record(scored, closed_at).reward_per_power == state.reward_per_power
        }),
{
}

/// An epoch cannot be closed twice: after a closing, another one without an
/// opening in between is rejected with `NotInCalculationPeriod`. The first
/// closing adds one record to the history, and the second, being rejected,
/// adds none.
pub proof fn lemma_close_twice(state: EpochView, first_at: i64, second_at: i64)
    requires
        spec_close(state, first_at) is Ok,
    ensures
        spec_close(spec_close(state, first_at)->Ok_0, second_at) == Err::<EpochView, TaleForgeError>(
            TaleForgeError::NotInCalculationPeriod,
        ),
        spec_close(state, first_at)->Ok_0.history == spec_append(
            state.history,
            spec_closing_record(state, first_at),
        ),
{
}

/// Closing is the only way out of an open epoch, and opening the only way
/// into one: after an opening no second opening is accepted until the epoch
/// is closed.
pub proof fn lemma_open_twice(state: EpochView, first_at: i64, second_at: i64)
    requires
        spec_open(state, first_at) is Ok,
    ensures
        spec_open(spec_open(state, first_at)->Ok_0, second_at) is Err,
{
}

/// The history after a run of records is appended, one after the other.
pub open spec fn spec_append_all(history: Seq<PeriodReward>, records: Seq<PeriodReward>) -> Seq<
    PeriodReward,
>
    decreases records.len(),
{
    if records.len() == 0 {
        history
    } else {
        spec_append(spec_append_all(history, records.drop_last()), records.last())
    }
}

/// A history without a record of `period` has nothing to find under it, and
/// the other way round.
pub proof fn lemma_lookup_none(history: Seq<PeriodReward>, period: u64)
    ensures
        spec_lookup(history, period) is None <==> (forall|j: int|
            0 <= j < history.len() ==> (#[trigger] history[j]).period != period),
    decreases history.len(),
{
    if history.len() > 0 {
        let rest = history.drop_first();
        lemma_lookup_none(rest, period);
        if history[0].period != period {
            if spec_lookup(history, period) is None {
                assert forall|j: int| 0 <= j < history.len() implies (#[trigger] history[j]).period
                    != period by {
                    if j > 0 {
                        assert(rest[j - 1] == history[j]);
                    }
                }
            }
        }
    }
}

/// What is found under `period` is the earliest record of it.
pub proof fn lemma_lookup_first(history: Seq<PeriodReward>, period: u64, k: int)
    requires
        0 <= k < history.len(),
        history[k].period == period,
        forall|j: int| 0 <= j < k ==> (#[trigger] history[j]).period != period,
    ensures
        spec_lookup(history, period) == Some(history[k]),
    decreases k,
{
    if k > 0 {
        lemma_lookup_first(history.drop_first(), period, k - 1);
    }
}

/// Where a record enters a history of at most ten that had none of its
/// period, and `later` records of other periods follow: up to the ninth of
/// them the record is the only one of its period and stands as far from the
/// end as records followed; from the tenth on no record of its period is
/// left.
pub proof fn lemma_record_position(
    history: Seq<PeriodReward>,
    record: PeriodReward,
    later: Seq<PeriodReward>,
)
    requires
        history.len() <= 10,
        spec_lookup(history, record.period) is None,
        forall|i: int| 0 <= i < later.len() ==> (#[trigger] later[i]).period != record.period,
    ensures
        ({
            let after = spec_append_all(spec_append(history, record), later);
            &&& 1 <= after.len() <= 10
            &&& later.len() <= 9 ==> after.len() >= later.len() + 1 && after[after.len() - 1
                - later.len()] == record
            &&& forall|j: int|
                0 <= j < after.len() && (#[trigger] after[j]).period == record.period
                    ==> later.len() <= 9 && j == after.len() - 1 - later.len()
        }),
    decreases later.len(),
{
    if later.len() == 0 {
        lemma_lookup_none(history, record.period);
    } else {
        lemma_record_position(history, record, later.drop_last());
    }
}

/// Every record appended can be found under its period until it is evicted.
///
/// Where a record enters a history of at most ten records that holds none of
/// its period, it is found under its period right away, and still after up
/// to nine records of other periods have followed it. Once ten have
/// followed, it has left the history, and nothing is found under its period:
/// looking it up then fails with `PeriodRewardNotFound`.
pub proof fn lemma_record_found_until_evicted(
    history: Seq<PeriodReward>,
    record: PeriodReward,
    later: Seq<PeriodReward>,
)
    requires
        history.len() <= 10,
        spec_lookup(history, record.period) is None,
        forall|i: int| 0 <= i < later.len() ==> (#[trigger] later[i]).period != record.period,
    ensures
        later.len() <= 9 ==> spec_lookup(
            spec_append_all(spec_append(history, record), later),
            record.period,
        ) == Some(record),
        later.len() >= 10 ==> spec_lookup(
            spec_append_all(spec_append(history, record), later),
            record.period,
        ) is None,
{
    let after = spec_append_all(spec_append(history, record), later);
    lemma_record_position(history, record, later);
    if later.len() <= 9 {
        lemma_lookup_first(after, record.period, after.len() - 1 - later.len());
    } else {
        lemma_lookup_none(after, record.period);
    }
}

/// A history of at most ten records stays one when a record is appended.
pub proof fn lemma_append_keeps_limit(history: Seq<PeriodReward>, record: PeriodReward)
    requires
        history.len() <= 10,
    ensures
        1 <= spec_append(history, record).len() <= 10,
        spec_append(history, record).last() == record,
{
}

/// Opening an epoch, scoring a batch and closing an epoch each lead from a
/// state that the protocol can reach to another.
pub proof fn lemma_protocol_keeps_wf(state: EpochView, powers: Seq<int>, now: i64)
    requires
        state.wf(),
    ensures
        spec_open(state, now) matches Ok(opened) ==> opened.wf(),
        state.is_calculating ==> spec_after_batch(state, powers).wf(),
        spec_close(state, now) matches Ok(closed) ==> closed.wf(),
{
}

/// In a state that the protocol can reach, the record of a period that has
/// just been closed is found under the period's number.
pub proof fn lemma_closed_period_is_found(state: EpochView, now: i64)
    requires
        state.wf(),
        spec_close(state, now) is Ok,
    ensures
        spec_lookup(spec_close(state, now)->Ok_0.history, state.current_period) == Some(
            spec_closing_record(state, now),
        ),
{
    let record = spec_closing_record(state, now);
    lemma_lookup_none(state.history, state.current_period);
    lemma_record_found_until_evicted(state.history, record, Seq::empty());
}

} // verus!
