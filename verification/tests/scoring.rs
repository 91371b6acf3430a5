use tale_forge::errors::TaleForgeError;
use tale_forge::nft::MiningLevel;
use tale_forge::scoring::{compute_mining_power, doubled_multiplier, mining_level, ScoreInputs};
use tale_forge::story::{is_trending_activity, RecentActivity};

fn quiet_inputs() -> ScoreInputs {
    ScoreInputs {
        words: 0,
        likes: 0,
        comments: 0,
        tips_sol: 0,
        tips_token: 0,
        nft_revenue_sol: 0,
        nft_revenue_token: 0,
        trending: false,
    }
}

#[test]
fn score_is_weighted_sum_of_counters() {
    let inputs = ScoreInputs {
        words: 12_345,
        likes: 250,
        comments: 120,
        tips_sol: 4_000_000_000,
        tips_token: 700_000,
        ..quiet_inputs()
    };
    // 12 * 30 + 25 + 36 + (4 + 7) * 25 / 100 = 423, plus a fifth of tier 100.
    assert_eq!(compute_mining_power(&inputs), Ok(443));
}

#[test]
fn score_of_no_activity_is_a_fifth_of_the_lowest_tier() {
    assert_eq!(compute_mining_power(&quiet_inputs()), Ok(20));
}

#[test]
fn each_counter_rounds_down_on_its_own() {
    let inputs = ScoreInputs { words: 999, likes: 9, comments: 3, ..quiet_inputs() };
    assert_eq!(compute_mining_power(&inputs), Ok(20));
    let inputs = ScoreInputs { words: 1000, likes: 10, comments: 4, ..quiet_inputs() };
    assert_eq!(compute_mining_power(&inputs), Ok(20 + 30 + 1 + 1));
}

#[test]
fn tips_count_in_whole_currency_units() {
    // 3 SOL and 1 token unit of 100,000: 4 units, 4 * 25 / 100 = 1.
    let inputs = ScoreInputs { tips_sol: 3_999_999_999, tips_token: 199_999, ..quiet_inputs() };
    assert_eq!(compute_mining_power(&inputs), Ok(21));
    // Below one SOL the lamports count for nothing.
    let inputs = ScoreInputs { tips_sol: 999_999_999, tips_token: 300_000, ..quiet_inputs() };
    assert_eq!(compute_mining_power(&inputs), Ok(20));
    let inputs = ScoreInputs { tips_sol: 400_000_000_000, ..quiet_inputs() };
    assert_eq!(compute_mining_power(&inputs), Ok(120));
}

#[test]
fn nft_tier_steps_with_revenue() {
    let tier = |revenue: u64| {
        compute_mining_power(&ScoreInputs { nft_revenue_sol: revenue, ..quiet_inputs() })
    };
    assert_eq!(tier(0), Ok(20));
    assert_eq!(tier(1_000_000_000), Ok(20));
    assert_eq!(tier(1_000_000_001), Ok(40));
    assert_eq!(tier(5_000_000_000), Ok(40));
    assert_eq!(tier(5_000_000_001), Ok(80));
    assert_eq!(tier(10_000_000_000), Ok(80));
    assert_eq!(tier(10_000_000_001), Ok(160));
    assert_eq!(tier(50_000_000_000), Ok(160));
    assert_eq!(tier(50_000_000_001), Ok(320));
    assert_eq!(tier(u64::MAX), Ok(320));
}

#[test]
fn token_revenue_adds_one_per_hundred_thousand() {
    let inputs = ScoreInputs { nft_revenue_token: 1_000_000, ..quiet_inputs() };
    assert_eq!(compute_mining_power(&inputs), Ok(22));
    let inputs = ScoreInputs { nft_revenue_token: 99_999, ..quiet_inputs() };
    assert_eq!(compute_mining_power(&inputs), Ok(20));
}

#[test]
fn level_multiplier_applies_by_threshold() {
    let with_words = |words: u64, likes: u64| {
        compute_mining_power(&ScoreInputs { words, likes, ..quiet_inputs() })
    };
    // 960 + 20 + 20 = 1000: the first level, times 1.
    assert_eq!(with_words(32_000, 200), Ok(1000));
    // 1001: the second level, times 1.5, rounded down.
    assert_eq!(with_words(32_000, 210), Ok(1501));
    // 2970 + 10 + 20 = 3000: still times 1.5.
    assert_eq!(with_words(99_000, 100), Ok(4500));
    // 3001: times 2.5, rounded down.
    assert_eq!(with_words(99_000, 110), Ok(7502));
    // 5970 + 10 + 20 = 6000, then 6001: times 4.
    assert_eq!(with_words(199_000, 100), Ok(15_000));
    assert_eq!(with_words(199_000, 110), Ok(24_004));
    // 10000, then 10001: times 8.
    assert_eq!(with_words(332_000, 200), Ok(40_000));
    assert_eq!(with_words(332_000, 210), Ok(80_008));
    // 15000, then 15001: times 16.
    assert_eq!(with_words(499_000, 100), Ok(120_000));
    assert_eq!(with_words(499_000, 110), Ok(240_016));
}

#[test]
fn trending_adds_twice_the_power_before_the_multiplier() {
    let calm = ScoreInputs { words: 40_000, likes: 10, ..quiet_inputs() };
    let trending = ScoreInputs { trending: true, ..calm };
    // 1200 + 1 + 20 = 1221, times 1.5 rounded down.
    assert_eq!(compute_mining_power(&calm), Ok(1831));
    assert_eq!(compute_mining_power(&trending), Ok(1831 + 2442));
}

#[test]
fn trending_thresholds_are_strict() {
    let quiet = RecentActivity { likes: 500, comments: 200, tips_sol: 10_000_000_000, tips_token: 1000 };
    assert!(!is_trending_activity(&quiet));
    assert!(is_trending_activity(&RecentActivity { likes: 501, ..quiet }));
    assert!(is_trending_activity(&RecentActivity { comments: 201, ..quiet }));
    assert!(is_trending_activity(&RecentActivity { tips_sol: 10_000_000_001, ..quiet }));
    assert!(is_trending_activity(&RecentActivity { tips_token: 1001, ..quiet }));
}

#[test]
fn scoring_is_deterministic() {
    let inputs = ScoreInputs {
        words: 987_654,
        likes: 4321,
        comments: 765,
        tips_sol: 12_000_000_000,
        tips_token: 3_400_000,
        nft_revenue_sol: 7_000_000_000,
        nft_revenue_token: 2_500_000,
        trending: true,
    };
    let first = compute_mining_power(&inputs);
    let second = compute_mining_power(&inputs);
    assert_eq!(first, second);
    let copy = inputs;
    assert_eq!(compute_mining_power(&copy), first);
    // 987 * 30 + 432 + 229 + (12 + 34) * 25 / 100 = 30282; tier 400 plus 25,
    // a fifth of which is 85: 30367, times 16, plus twice 30367.
    assert_eq!(first, Ok(30_367 * 16 + 30_367 * 2));
}

#[test]
fn score_too_large_for_64_bits_is_rejected() {
    let inputs = ScoreInputs { words: u64::MAX, comments: u64::MAX, ..quiet_inputs() };
    assert_eq!(compute_mining_power(&inputs), Err(TaleForgeError::ArithmeticOverflow));
    let inputs = ScoreInputs { likes: u64::MAX, ..quiet_inputs() };
    assert_eq!(compute_mining_power(&inputs), Err(TaleForgeError::ArithmeticOverflow));
    // A tenth of half as many likes, times 16, still fits.
    let inputs = ScoreInputs { likes: u64::MAX / 2, ..quiet_inputs() };
    assert_eq!(compute_mining_power(&inputs), Ok(14_757_395_258_967_641_600));
}

#[test]
fn levels_and_their_multipliers() {
    assert_eq!(mining_level(0), MiningLevel::Copper);
    assert_eq!(mining_level(1000), MiningLevel::Copper);
    assert_eq!(mining_level(1001), MiningLevel::Silver);
    assert_eq!(mining_level(3000), MiningLevel::Silver);
    assert_eq!(mining_level(3001), MiningLevel::Gold);
    assert_eq!(mining_level(6000), MiningLevel::Gold);
    assert_eq!(mining_level(6001), MiningLevel::Platinum);
    assert_eq!(mining_level(10_000), MiningLevel::Platinum);
    assert_eq!(mining_level(10_001), MiningLevel::Diamond);
    assert_eq!(mining_level(15_000), MiningLevel::Diamond);
    assert_eq!(mining_level(15_001), MiningLevel::Legend);
    assert_eq!(doubled_multiplier(MiningLevel::Copper), 2);
    assert_eq!(doubled_multiplier(MiningLevel::Silver), 3);
    assert_eq!(doubled_multiplier(MiningLevel::Gold), 5);
    assert_eq!(doubled_multiplier(MiningLevel::Platinum), 8);
    assert_eq!(doubled_multiplier(MiningLevel::Diamond), 16);
    assert_eq!(doubled_multiplier(MiningLevel::Legend), 32);
}
