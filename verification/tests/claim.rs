use solana_program::pubkey::Pubkey;
use tale_forge::claim::{
    claim_story_reward, distribute_mining_rewards, lump_split, payments_at_once, ClaimOutcome,
    HolderPayment, LumpSplit,
};
use tale_forge::epoch::{ActiveStories, PeriodReward};
use tale_forge::errors::TaleForgeError;
use tale_forge::events::{NFTRewardStaked, RewardsDistributed, StoryRewardClaimed};
use tale_forge::nft::{batch_weight, NFTType, NovelNFT, Rarity};
use tale_forge::story::Story;

fn claim_key(tag: u8) -> Pubkey {
    Pubkey::new_from_array([tag; 32])
}

const AUTHOR: u8 = 11;
const STORY: u8 = 12;
const NOW: i64 = 1_700_000_000;

fn claim_story(author: Pubkey) -> Story {
    Story {
        title: String::from("A Tale"),
        description: String::from("Of many things"),
        author,
        pen_name: String::from("quill"),
        cover_cid: String::from("QmCover"),
        content_cid: String::from("QmContent"),
        chapter_count: 1,
        is_completed: false,
        created_at: 0,
        updated_at: 0,
        nft_count: 0,
        like_count: 0,
        comment_count: 0,
        word_count: 0,
        weekly_word_count: 0,
        last_word_reset: 0,
        avg_rating: 0,
        rating_count: 0,
        mining_power: 0,
        nft_minting_enabled: false,
        max_nfts: 100,
        first_mint_completed: false,
        second_mint_enabled: false,
        target_word_count: 50_000,
        total_nft_revenue_sol: 0,
        total_nft_revenue_token: 0,
        total_tip_revenue_sol: 0,
        total_tip_revenue_token: 0,
        last_nft_revenue_update: 0,
        last_tip_update: 0,
        staked_earnings_sol: 0,
        staked_earnings_token: 0,
        is_abandoned: false,
        last_update_time: 0,
        min_words_for_nft: 100_000,
        unclaimed_mining_reward: 0,
        last_claimed_period: 0,
        unclaimed_periods: Vec::new(),
        last_mining_power_update: 0,
        current_period_likes: 0,
        current_period_comments: 0,
        current_period_tips_sol: 0,
        current_period_tips_token: 0,
        current_period_words: 0,
        is_active: false,
    }
}

fn claim_state(current_period: u64, rates: &[(u64, u64)]) -> ActiveStories {
    let mut state = ActiveStories::new(claim_key(1), 0);
    state.current_period = current_period;
    for &(period, rate) in rates {
        state.add_period_reward(PeriodReward {
            period,
            reward_per_power: rate,
            total_mining_power: 1,
            total_rewards: rate,
            timestamp: 0,
        });
    }
    state
}

fn claim_nft(rarity: Rarity, mint_batch: u8, staked: u64, start: i64) -> NovelNFT {
    NovelNFT {
        story: claim_key(STORY),
        name: String::from("Hero"),
        description: String::from("The hero of the tale"),
        image_uri: String::from("ipfs://hero"),
        nft_type: NFTType::Character,
        rarity,
        owner: claim_key(30),
        created_at: 0,
        is_transferable: true,
        mint_batch,
        mining_weight: batch_weight(mint_batch),
        is_listed: false,
        list_time: 0,
        list_price_sol: 0,
        list_price_token: 0,
        staked_earnings: staked,
        earnings_start_time: start,
    }
}

fn powered_story(power: u64, last_claimed: u64) -> Story {
    Story { mining_power: power, last_claimed_period: last_claimed, ..claim_story(claim_key(AUTHOR)) }
}

fn run_claim(
    story: &mut Story,
    state: &ActiveStories,
    nfts: &mut Vec<NovelNFT>,
) -> Result<ClaimOutcome, TaleForgeError> {
    let keys: Vec<Pubkey> = (0..nfts.len()).map(|i| claim_key(100 + i as u8)).collect();
    claim_story_reward(story, claim_key(STORY), claim_key(AUTHOR), state, nfts, &keys, NOW)
}

#[test]
fn claim_over_two_periods_is_split_in_halves() {
    let state = claim_state(3, &[(1, 10), (2, 20)]);
    let mut story = powered_story(5, 0);
    let before = story.clone();
    let mut nfts: Vec<NovelNFT> = Vec::new();
    let outcome = run_claim(&mut story, &state, &mut nfts).unwrap();
    assert_eq!(
        outcome.claimed,
        StoryRewardClaimed {
            story: claim_key(STORY),
            author_reward: 75,
            nft_holders_reward: 75,
            total_nft_weight: 0,
            nft_count: 0,
            claimed_periods: 2,
            total_reward: 150,
            period: 3,
            timestamp: NOW,
        }
    );
    assert!(outcome.nft_rewards.is_empty());
    assert_eq!(story.last_claimed_period, 2);
    assert_eq!(story, Story { last_claimed_period: 2, ..before });
}

#[test]
fn claim_leaves_the_current_period_for_later() {
    // Period 3 is on record, but it is the current one.
    let state = claim_state(3, &[(1, 10), (2, 20), (3, 1000)]);
    let mut story = powered_story(5, 0);
    let mut nfts: Vec<NovelNFT> = Vec::new();
    let outcome = run_claim(&mut story, &state, &mut nfts).unwrap();
    assert_eq!(outcome.claimed.total_reward, 150);
    assert_eq!(story.last_claimed_period, 2);
}

#[test]
fn claim_of_nothing_new_still_moves_the_mark() {
    let state = claim_state(3, &[(1, 10), (2, 20)]);
    let mut story = powered_story(5, 2);
    let mut nfts: Vec<NovelNFT> = Vec::new();
    let outcome = run_claim(&mut story, &state, &mut nfts).unwrap();
    assert_eq!(outcome.claimed.total_reward, 0);
    assert_eq!(outcome.claimed.author_reward, 0);
    assert_eq!(outcome.claimed.claimed_periods, 0);
    assert_eq!(story.last_claimed_period, 2);
}

#[test]
fn claim_is_rejected_when_claimed_up_to_the_current_period() {
    let state = claim_state(3, &[(1, 10), (2, 20)]);
    for last in [3u64, 4, u64::MAX] {
        let mut story = powered_story(5, last);
        let before = story.clone();
        let mut nfts = vec![claim_nft(Rarity::Common, 1, 0, 0)];
        assert_eq!(
            run_claim(&mut story, &state, &mut nfts).unwrap_err(),
            TaleForgeError::NoUnclaimedRewards
        );
        assert_eq!(story, before);
        assert_eq!(nfts, vec![claim_nft(Rarity::Common, 1, 0, 0)]);
    }
}

#[test]
fn second_claim_in_the_same_period_pays_nothing_more() {
    let state = claim_state(3, &[(1, 10), (2, 20)]);
    let mut story = powered_story(5, 0);
    let mut nfts: Vec<NovelNFT> = Vec::new();
    assert_eq!(run_claim(&mut story, &state, &mut nfts).unwrap().claimed.total_reward, 150);
    assert_eq!(run_claim(&mut story, &state, &mut nfts).unwrap().claimed.total_reward, 0);
    assert_eq!(story.last_claimed_period, 2);
}

#[test]
fn claim_by_another_author_is_rejected() {
    let state = claim_state(3, &[(1, 10), (2, 20)]);
    let mut story = powered_story(5, 0);
    let before = story.clone();
    let mut nfts: Vec<NovelNFT> = Vec::new();
    let keys: Vec<Pubkey> = Vec::new();
    let result = claim_story_reward(
        &mut story,
        claim_key(STORY),
        claim_key(AUTHOR + 1),
        &state,
        &mut nfts,
        &keys,
        NOW,
    );
    assert_eq!(result.unwrap_err(), TaleForgeError::UnauthorizedAuthor);
    assert_eq!(story, before);
}

#[test]
fn claim_without_an_address_for_each_nft_is_rejected() {
    let state = claim_state(3, &[(1, 10), (2, 20)]);
    let mut story = powered_story(5, 0);
    let mut nfts = vec![claim_nft(Rarity::Common, 1, 0, 0)];
    let keys: Vec<Pubkey> = Vec::new();
    let result = claim_story_reward(
        &mut story,
        claim_key(STORY),
        claim_key(AUTHOR),
        &state,
        &mut nfts,
        &keys,
        NOW,
    );
    assert_eq!(result.unwrap_err(), TaleForgeError::NFTLoadError);
    assert_eq!(story.last_claimed_period, 0);
}

#[test]
fn claim_over_a_period_that_left_the_history_is_rejected() {
    let state = claim_state(4, &[(2, 20), (3, 30)]);
    let mut story = powered_story(5, 0);
    let before = story.clone();
    let mut nfts = vec![claim_nft(Rarity::Rare, 1, 7, 3)];
    assert_eq!(
        run_claim(&mut story, &state, &mut nfts).unwrap_err(),
        TaleForgeError::PeriodRewardNotFound
    );
    assert_eq!(story, before);
    assert_eq!(nfts, vec![claim_nft(Rarity::Rare, 1, 7, 3)]);
}

#[test]
fn claim_after_more_than_ten_unclaimed_periods_is_rejected() {
    let rates: Vec<(u64, u64)> = (1..=11).map(|p| (p, 10)).collect();
    let state = claim_state(12, &rates);
    assert_eq!(state.period_rewards.len(), 10);
    let mut story = powered_story(5, 0);
    let mut nfts: Vec<NovelNFT> = Vec::new();
    assert_eq!(
        run_claim(&mut story, &state, &mut nfts).unwrap_err(),
        TaleForgeError::PeriodRewardNotFound
    );
    let mut story = powered_story(5, 1);
    assert_eq!(run_claim(&mut story, &state, &mut nfts).unwrap().claimed.total_reward, 500);
    assert_eq!(story.last_claimed_period, 11);
}

#[test]
fn claim_whose_product_overflows_is_rejected() {
    let state = claim_state(2, &[(1, u64::MAX)]);
    let mut story = powered_story(2, 0);
    let before = story.clone();
    let mut nfts: Vec<NovelNFT> = Vec::new();
    assert_eq!(
        run_claim(&mut story, &state, &mut nfts).unwrap_err(),
        TaleForgeError::InvalidMiningPower
    );
    assert_eq!(story, before);
}

#[test]
fn claim_whose_sum_overflows_is_rejected() {
    let state = claim_state(3, &[(1, u64::MAX), (2, 1)]);
    let mut story = powered_story(1, 0);
    let mut nfts: Vec<NovelNFT> = Vec::new();
    assert_eq!(
        run_claim(&mut story, &state, &mut nfts).unwrap_err(),
        TaleForgeError::InvalidMiningPower
    );
    // The largest sum that fits is paid.
    let state = claim_state(2, &[(1, u64::MAX)]);
    let mut story = powered_story(1, 0);
    let outcome = run_claim(&mut story, &state, &mut nfts).unwrap();
    assert_eq!(outcome.claimed.total_reward, u64::MAX);
    assert_eq!(outcome.claimed.author_reward, u64::MAX / 2);
    assert_eq!(outcome.claimed.nft_holders_reward, u64::MAX / 2);
}

#[test]
fn odd_total_loses_one_to_rounding() {
    let state = claim_state(2, &[(1, 3)]);
    let mut story = powered_story(5, 0);
    let mut nfts: Vec<NovelNFT> = Vec::new();
    let outcome = run_claim(&mut story, &state, &mut nfts).unwrap();
    assert_eq!(outcome.claimed.total_reward, 15);
    assert_eq!(outcome.claimed.author_reward, 7);
    assert_eq!(outcome.claimed.nft_holders_reward, 7);
}

#[test]
fn holders_share_by_mint_batch_weight() {
    let state = claim_state(3, &[(1, 10), (2, 20)]);
    let mut story = powered_story(5, 0);
    let mut nfts = vec![
        claim_nft(Rarity::Common, 1, 0, 5),
        claim_nft(Rarity::Rare, 2, 40, 5),
        claim_nft(Rarity::Legendary, 1, 9, 5),
        claim_nft(Rarity::Epic, 3, 0, 5),
    ];
    let outcome = run_claim(&mut story, &state, &mut nfts).unwrap();
    assert_eq!(outcome.claimed.total_nft_weight, 250);
    assert_eq!(outcome.claimed.nft_count, 4);
    // 75 * 100 / 250 = 30, 75 * 50 / 250 = 15, and nothing for batch 3.
    let reward = |i: u8, amount: u64, rarity: Rarity, batch: u8, weight: u64| NFTRewardStaked {
        nft: claim_key(100 + i),
        story: claim_key(STORY),
        amount,
        rarity,
        batch,
        weight,
        timestamp: NOW,
    };
    assert_eq!(
        outcome.nft_rewards,
        vec![
            reward(0, 30, Rarity::Common, 1, 100),
            reward(1, 15, Rarity::Rare, 2, 50),
            reward(2, 30, Rarity::Legendary, 1, 100),
            reward(3, 0, Rarity::Epic, 3, 0),
        ]
    );
    assert_eq!(
        nfts,
        vec![
            // First accrual: the lock starts now.
            claim_nft(Rarity::Common, 1, 30, NOW),
            // Later accrual: the lock keeps running.
            claim_nft(Rarity::Rare, 2, 55, 5),
            // Paid at once: nothing accrues.
            claim_nft(Rarity::Legendary, 1, 9, 5),
            // Nothing accrued: the lock does not start.
            claim_nft(Rarity::Epic, 3, 0, 5),
        ]
    );
}

#[test]
fn holders_get_nothing_without_weight() {
    let state = claim_state(3, &[(1, 10), (2, 20)]);
    let mut story = powered_story(5, 0);
    let mut nfts = vec![claim_nft(Rarity::Common, 0, 3, 5), claim_nft(Rarity::Rare, 7, 4, 6)];
    let before = nfts.clone();
    let outcome = run_claim(&mut story, &state, &mut nfts).unwrap();
    assert_eq!(outcome.claimed.total_nft_weight, 0);
    assert_eq!(outcome.claimed.nft_holders_reward, 75);
    assert_eq!(outcome.claimed.nft_count, 2);
    assert!(outcome.nft_rewards.is_empty());
    assert_eq!(nfts, before);
    assert_eq!(story.last_claimed_period, 2);
}

#[test]
fn claim_is_rejected_when_locked_earnings_would_overflow() {
    let state = claim_state(3, &[(1, 10), (2, 20)]);
    let mut story = powered_story(5, 0);
    let mut nfts =
        vec![claim_nft(Rarity::Common, 1, 0, 0), claim_nft(Rarity::Common, 1, u64::MAX - 36, 0)];
    let before = (story.clone(), nfts.clone());
    assert_eq!(
        run_claim(&mut story, &state, &mut nfts).unwrap_err(),
        TaleForgeError::InvalidMiningPower
    );
    assert_eq!((story.clone(), nfts.clone()), before);
    // A legendary NFT holds nothing back and cannot overflow.
    nfts[1].rarity = Rarity::Legendary;
    assert!(run_claim(&mut story, &state, &mut nfts).is_ok());
    // 75 * 100 / 200 = 37 fits exactly.
    let mut story = powered_story(5, 0);
    let mut nfts =
        vec![claim_nft(Rarity::Common, 1, 0, 0), claim_nft(Rarity::Common, 1, u64::MAX - 37, 0)];
    assert!(run_claim(&mut story, &state, &mut nfts).is_ok());
    assert_eq!(nfts[1].staked_earnings, u64::MAX);
}

#[test]
fn large_pool_is_shared_without_overflow() {
    let state = claim_state(2, &[(1, u64::MAX)]);
    let mut story = powered_story(1, 0);
    let mut nfts = vec![claim_nft(Rarity::Legendary, 1, 0, 0), claim_nft(Rarity::Legendary, 2, 0, 0)];
    let outcome = run_claim(&mut story, &state, &mut nfts).unwrap();
    let pool = u64::MAX / 2;
    assert_eq!(outcome.nft_rewards[0].amount, (pool as u128 * 100 / 150) as u64);
    assert_eq!(outcome.nft_rewards[1].amount, (pool as u128 * 50 / 150) as u64);
}

#[test]
fn lump_sum_is_split_five_ten_and_halves() {
    assert_eq!(
        lump_split(1000),
        LumpSplit {
            total_reward: 1000,
            reader_pool_reward: 50,
            platform_reward: 100,
            author_reward: 425,
            nft_reward: 425,
        }
    );
    assert_eq!(
        lump_split(150),
        LumpSplit {
            total_reward: 150,
            reader_pool_reward: 7,
            platform_reward: 15,
            author_reward: 64,
            nft_reward: 64,
        }
    );
    assert_eq!(
        lump_split(0),
        LumpSplit {
            total_reward: 0,
            reader_pool_reward: 0,
            platform_reward: 0,
            author_reward: 0,
            nft_reward: 0,
        }
    );
    let split = lump_split(u64::MAX);
    assert_eq!(split.reader_pool_reward, (u64::MAX as u128 * 5 / 100) as u64);
    assert_eq!(split.platform_reward, (u64::MAX as u128 * 10 / 100) as u64);
    let rest = u64::MAX - split.reader_pool_reward - split.platform_reward;
    assert_eq!(split.author_reward, rest / 2);
    assert_eq!(split.nft_reward, rest / 2);
}

#[test]
fn lump_sum_distribution_pays_the_listed_periods() {
    let state = claim_state(3, &[(1, 10), (2, 20)]);
    let mut story = powered_story(5, 0);
    story.unclaimed_periods = vec![1, 2];
    story.staked_earnings_sol = 6;
    let before = story.clone();
    let event = distribute_mining_rewards(&state, &mut story, claim_key(STORY), claim_key(AUTHOR), NOW);
    assert_eq!(
        event,
        Ok(RewardsDistributed {
            story: claim_key(STORY),
            author: claim_key(AUTHOR),
            period: 3,
            mining_power: 5,
            total_reward: 150,
            reader_pool_reward: 7,
            platform_reward: 15,
            author_reward: 64,
            nft_reward: 64,
            timestamp: NOW,
        })
    );
    assert_eq!(
        story,
        Story {
            staked_earnings_sol: 70,
            unclaimed_periods: Vec::new(),
            last_claimed_period: 2,
            ..before
        }
    );
}

#[test]
fn lump_sum_distribution_counts_a_period_as_often_as_it_is_listed() {
    let state = claim_state(3, &[(1, 10), (2, 20)]);
    let mut story = powered_story(5, 0);
    story.unclaimed_periods = vec![2, 2, 1];
    let event =
        distribute_mining_rewards(&state, &mut story, claim_key(STORY), claim_key(AUTHOR), NOW)
            .unwrap();
    assert_eq!(event.total_reward, 250);
}

#[test]
fn lump_sum_distribution_needs_a_pending_period() {
    let state = claim_state(3, &[(1, 10), (2, 20)]);
    let mut story = powered_story(5, 0);
    let before = story.clone();
    assert_eq!(
        distribute_mining_rewards(&state, &mut story, claim_key(STORY), claim_key(AUTHOR), NOW),
        Err(TaleForgeError::InvalidRewardDistribution)
    );
    assert_eq!(story, before);
}

#[test]
fn lump_sum_distribution_needs_a_record_of_each_period() {
    let state = claim_state(3, &[(1, 10), (2, 20)]);
    let mut story = powered_story(5, 0);
    story.unclaimed_periods = vec![1, 5];
    let before = story.clone();
    assert_eq!(
        distribute_mining_rewards(&state, &mut story, claim_key(STORY), claim_key(AUTHOR), NOW),
        Err(TaleForgeError::PeriodRewardNotFound)
    );
    assert_eq!(story, before);
}

#[test]
fn lump_sum_distribution_rejects_amounts_that_do_not_fit() {
    let state = claim_state(3, &[(1, u64::MAX), (2, 20)]);
    let mut story = powered_story(2, 0);
    story.unclaimed_periods = vec![1];
    let before = story.clone();
    assert_eq!(
        distribute_mining_rewards(&state, &mut story, claim_key(STORY), claim_key(AUTHOR), NOW),
        Err(TaleForgeError::InvalidRewardDistribution)
    );
    assert_eq!(story, before);
    let mut story = powered_story(5, 0);
    story.unclaimed_periods = vec![2];
    story.staked_earnings_sol = u64::MAX - 41;
    let before = story.clone();
    assert_eq!(
        distribute_mining_rewards(&state, &mut story, claim_key(STORY), claim_key(AUTHOR), NOW),
        Err(TaleForgeError::InvalidRewardDistribution)
    );
    assert_eq!(story, before);
    story.staked_earnings_sol = u64::MAX - 42;
    assert!(
        distribute_mining_rewards(&state, &mut story, claim_key(STORY), claim_key(AUTHOR), NOW)
            .is_ok()
    );
    assert_eq!(story.staked_earnings_sol, u64::MAX);
}

#[test]
fn lump_sum_distribution_never_moves_the_mark_back() {
    let state = claim_state(3, &[(1, 10), (2, 20)]);
    let mut story = powered_story(5, 7);
    story.unclaimed_periods = vec![1];
    distribute_mining_rewards(&state, &mut story, claim_key(STORY), claim_key(AUTHOR), NOW).unwrap();
    assert_eq!(story.last_claimed_period, 7);
    let mut story = powered_story(5, 2);
    story.unclaimed_periods = vec![1];
    distribute_mining_rewards(&state, &mut story, claim_key(STORY), claim_key(AUTHOR), NOW).unwrap();
    assert_eq!(story.last_claimed_period, 2);
}

#[test]
fn only_legendary_shares_are_paid_at_once() {
    let state = claim_state(3, &[(1, 10), (2, 20)]);
    let mut story = powered_story(5, 0);
    let mut nfts = vec![
        claim_nft(Rarity::Common, 1, 0, 5),
        claim_nft(Rarity::Legendary, 2, 0, 5),
        claim_nft(Rarity::Epic, 1, 0, 5),
        claim_nft(Rarity::Legendary, 1, 9, 5),
    ];
    let outcome = run_claim(&mut story, &state, &mut nfts).unwrap();
    // Weights 100, 50, 100 and 100: 75 * 50 / 350 = 10 and 75 * 100 / 350 = 21.
    assert_eq!(
        payments_at_once(&outcome.nft_rewards),
        vec![
            HolderPayment { position: 1, nft: claim_key(101), amount: 10 },
            HolderPayment { position: 3, nft: claim_key(103), amount: 21 },
        ]
    );
    assert_eq!(nfts[0].staked_earnings, 21);
    assert_eq!(nfts[1].staked_earnings, 0);
    assert_eq!(nfts[2].staked_earnings, 21);
    assert_eq!(nfts[3].staked_earnings, 9);
    assert_eq!(payments_at_once(&Vec::new()), Vec::<HolderPayment>::new());
    let mut story = powered_story(5, 0);
    let mut locked = vec![claim_nft(Rarity::Rare, 1, 0, 5)];
    let outcome = run_claim(&mut story, &state, &mut locked).unwrap();
    assert_eq!(payments_at_once(&outcome.nft_rewards), Vec::<HolderPayment>::new());
}
