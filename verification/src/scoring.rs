//! The scoring function: from a story's counters of the current period and
//! its lifetime NFT revenue to its mining power.

use vstd::prelude::*;
use crate::constants::TOKEN_UNIT;
use crate::errors::TaleForgeError;
use crate::keys::lamports_per_sol;
use crate::nft::MiningLevel;
use crate::story::{is_trending_activity, spec_is_trending, RecentActivity, Story};

verus! {

/// What the scoring function reads, and nothing else.
#[derive(Clone, Copy, Debug, PartialEq, Eq, Structural)]
pub struct ScoreInputs {
    /// Words added in the period.
    pub words: u64,
    /// Likes received in the period.
    pub likes: u64,
    /// Comments received in the period.
    pub comments: u64,
    /// Tips received in the period, in lamports.
    pub tips_sol: u64,
    /// Tips received in the period, in token units.
    pub tips_token: u64,
    /// Lifetime revenue from NFT sales, in lamports.
    pub nft_revenue_sol: u64,
    /// Lifetime revenue from NFT sales, in token units.
    pub nft_revenue_token: u64,
    /// Whether the story is trending.
    pub trending: bool,
}

/// The weighted sum of the period's counters: 30 per thousand words, 10 per
/// hundred likes, 15 per fifty comments, and 25 per hundred currency units
/// tipped, where a SOL and 100,000 token units each count as one unit.
pub open spec fn spec_base_power(inputs: ScoreInputs) -> int {
    (inputs.words / 1000) * 30 + (inputs.likes * 10) / 100 + (inputs.comments * 15) / 50 + ((
    inputs.tips_sol / 1_000_000_000 + inputs.tips_token / 100_000) * 25) / 100
}

/// The power that lifetime NFT revenue in SOL gives, by bucket.
pub open spec fn spec_nft_tier(revenue_sol: u64) -> int {
    if revenue_sol <= 1_000_000_000 {
        100
    } else if revenue_sol <= 5_000_000_000 {
        200
    } else if revenue_sol <= 10_000_000_000 {
        400
    } else if revenue_sol <= 50_000_000_000 {
        800
    } else {
        1600
    }
}

/// The power before the level multiplier: the base power plus a fifth of the
/// NFT tier and token bonus, the bonus being one per 100,000 token units of
/// lifetime NFT revenue.
pub open spec fn spec_total_base_power(inputs: ScoreInputs) -> int {
    spec_base_power(inputs) + ((spec_nft_tier(inputs.nft_revenue_sol) + inputs.nft_revenue_token
        / 100_000) * 20) / 100
}

/// The level that a power before the multiplier falls in.
pub open spec fn spec_mining_level(total: int) -> MiningLevel {
    if total <= 1000 {
        MiningLevel::Copper
    } else if total <= 3000 {
        MiningLevel::Silver
    } else if total <= 6000 {
        MiningLevel::Gold
    } else if total <= 10000 {
        MiningLevel::Platinum
    } else if total <= 15000 {
        MiningLevel::Diamond
    } else {
        MiningLevel::Legend
    }
}

/// Twice the multiplier of a level: the multipliers are 1, 1.5, 2.5, 4, 8
/// and 16.
pub open spec fn spec_doubled_multiplier(level: MiningLevel) -> int {
    match level {
        MiningLevel::Copper => 2,
        MiningLevel::Silver => 3,
        MiningLevel::Gold => 5,
        MiningLevel::Platinum => 8,
        MiningLevel::Diamond => 16,
        MiningLevel::Legend => 32,
    }
}

/// The mining power of a story with the given inputs: the power before the
/// multiplier, times the multiplier of its level and rounded down, plus
/// twice the power before the multiplier where the story is trending.
pub open spec fn spec_mining_power(inputs: ScoreInputs) -> int {
    let total = spec_total_base_power(inputs);
    let adjusted = total * spec_doubled_multiplier(spec_mining_level(total)) / 2;
    let burst_bonus = if inputs.trending {
        total * 2
    } else {
        0
    };
    adjusted + burst_bonus
}

/// What the scoring function reads of a story whose recent activity is
/// `recent`.
pub open spec fn spec_score_inputs(story: Story, recent: RecentActivity) -> ScoreInputs {
    ScoreInputs {
        words: story.current_period_words,
        likes: story.current_period_likes,
        comments: story.current_period_comments,
        tips_sol: story.current_period_tips_sol,
        tips_token: story.current_period_tips_token,
        nft_revenue_sol: story.total_nft_revenue_sol,
        nft_revenue_token: story.total_nft_revenue_token,
        trending: spec_is_trending(recent),
    }
}

/// The mining power of a story as it stands, its recent activity being
/// `recent`.
pub open spec fn spec_power_with(story: Story, recent: RecentActivity) -> int {
    spec_mining_power(spec_score_inputs(story, recent))
}

/// The mining power of a story as it stands, its recent activity being what
/// the story itself reports.
pub open spec fn spec_story_power(story: Story) -> int {
    spec_power_with(story, story.spec_recent_activity())
}

/// What the scoring function reads of a story whose recent activity is
/// `recent`.
pub fn score_inputs(story: &Story, recent: &RecentActivity) -> (inputs: ScoreInputs)
    ensures
        inputs == spec_score_inputs(*story, *recent),
{
    ScoreInputs {
        words: story.current_period_words,
        likes: story.current_period_likes,
        comments: story.current_period_comments,
        tips_sol: story.current_period_tips_sol,
        tips_token: story.current_period_tips_token,
        nft_revenue_sol: story.total_nft_revenue_sol,
        nft_revenue_token: story.total_nft_revenue_token,
        trending: is_trending_activity(recent),
    }
}

/// The level that a power before the multiplier falls in.
pub fn mining_level(total_base_power: u128) -> (level: MiningLevel)
    ensures
        level == spec_mining_level(total_base_power as int),
{
    if total_base_power <= 1000 {
        MiningLevel::Copper
    } else if total_base_power <= 3000 {
        MiningLevel::Silver
    } else if total_base_power <= 6000 {
        MiningLevel::Gold
    } else if total_base_power <= 10000 {
        MiningLevel::Platinum
    } else if total_base_power <= 15000 {
        MiningLevel::Diamond
    } else {
        MiningLevel::Legend
    }
}

/// Twice the multiplier of a level.
pub fn doubled_multiplier(level: MiningLevel) -> (doubled: u128)
    ensures
        doubled == spec_doubled_multiplier(level),
{
    match level {
        MiningLevel::Copper => 2,
        MiningLevel::Silver => 3,
        MiningLevel::Gold => 5,
        MiningLevel::Platinum => 8,
        MiningLevel::Diamond => 16,
        MiningLevel::Legend => 32,
    }
}

/// The scoring function. The result depends on the inputs alone; where it
/// does not fit in 64 bits the scoring fails with `ArithmeticOverflow`.
pub fn compute_mining_power(inputs: &ScoreInputs) -> (result: Result<u64, TaleForgeError>)
    ensures
        spec_mining_power(*inputs) >= 0,
        match result {
            Ok(power) => power == spec_mining_power(*inputs),
            Err(e) => e == TaleForgeError::ArithmeticOverflow && spec_mining_power(*inputs)
                > u64::MAX,
        },
{
    let unit: u128 = lamports_per_sol() as u128;
    let token_unit: u128 = TOKEN_UNIT as u128;
    let base_power: u128 = (inputs.words as u128 / 1000) * 30 + (inputs.likes as u128 * 10) / 100
        + (inputs.comments as u128 * 15) / 50 + ((inputs.tips_sol as u128 / unit
        + inputs.tips_token as u128 / token_unit) * 25) / 100;
    let nft_power: u128 = if inputs.nft_revenue_sol <= 1_000_000_000 {
        100
    } else if inputs.nft_revenue_sol <= 5_000_000_000 {
        200
    } else if inputs.nft_revenue_sol <= 10_000_000_000 {
        400
    } else if inputs.nft_revenue_sol <= 50_000_000_000 {
        800
    } else {
        1600
    };
    let token_weight: u128 = inputs.nft_revenue_token as u128 / token_unit;
    let total_base_power: u128 = base_power + ((nft_power + token_weight) * 20) / 100;
    let doubled: u128 = doubled_multiplier(mining_level(total_base_power));
    assert(total_base_power * doubled <= 0x100_0000_0000_0000_0000_0000 * 32) by (nonlinear_arith)
        requires
            total_base_power <= 0x100_0000_0000_0000_0000_0000,
            doubled <= 32,
    ;
    let adjusted_power: u128 = total_base_power * doubled / 2;
    let burst_bonus: u128 = if inputs.trending {
        total_base_power * 2
    } else {
        0
    };
    let power: u128 = adjusted_power + burst_bonus;
    if power > u64::MAX as u128 {
        Err(TaleForgeError::ArithmeticOverflow)
    } else {
        Ok(power as u64)
    }
}

/// The mining power of a story as it stands, its recent activity being
/// `recent`.
pub fn mining_power_with(story: &Story, recent: &RecentActivity) -> (result: Result<
    u64,
    TaleForgeError,
>)
    ensures
        spec_power_with(*story, *recent) >= 0,
        match result {
            Ok(power) => power == spec_power_with(*story, *recent),
            Err(e) => e == TaleForgeError::ArithmeticOverflow && spec_power_with(*story, *recent)
                > u64::MAX,
        },
{
    let inputs: ScoreInputs = score_inputs(story, recent);
    compute_mining_power(&inputs)
}

/// The mining power of a story as it stands at `current_time`, its recent
/// activity being what the story itself reports.
pub fn story_mining_power(story: &Story, current_time: i64) -> (result: Result<u64, TaleForgeError>)
    ensures
        spec_story_power(*story) >= 0,
        match result {
            Ok(power) => power == spec_story_power(*story),
            Err(e) => e == TaleForgeError::ArithmeticOverflow && spec_story_power(*story)
                > u64::MAX,
        },
{
    let recent: RecentActivity = story.recent_activity(current_time);
    mining_power_with(story, &recent)
}

/// The scoring function is a function of its inputs: two stories that agree
/// on the counters of the period, on lifetime NFT revenue and on whether
/// they are trending have the same mining power, whatever else differs.
pub proof fn lemma_score_depends_on_inputs_only(
    a: Story,
    recent_a: RecentActivity,
    b: Story,
    recent_b: RecentActivity,
)
    requires
        a.current_period_words == b.current_period_words,
        a.current_period_likes == b.current_period_likes,
        a.current_period_comments == b.current_period_comments,
        a.current_period_tips_sol == b.current_period_tips_sol,
        a.current_period_tips_token == b.current_period_tips_token,
        a.total_nft_revenue_sol == b.total_nft_revenue_sol,
        a.total_nft_revenue_token == b.total_nft_revenue_token,
        spec_is_trending(recent_a) == spec_is_trending(recent_b),
    ensures
        spec_mining_power(spec_score_inputs(a, recent_a)) == spec_mining_power(
            spec_score_inputs(b, recent_b),
        ),
{
}

} // verus!
