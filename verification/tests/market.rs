use solana_program::pubkey::Pubkey;
use tale_forge::errors::TaleForgeError;
use tale_forge::events::{NFTListed, NFTListingCanceled, NFTMinted, NFTSold};
use tale_forge::nft::{
    batch_weight, buy_nft, cancel_listing, create_nft, list_nft, NFTType, NovelNFT, Rarity,
    ReentrancyGuard, SaleOutcome,
};
use tale_forge::story::Story;

const NOW: i64 = 1_700_000_000;
const AUTHOR: u8 = 40;

fn market_key(tag: u8) -> Pubkey {
    Pubkey::new_from_array([tag; 32])
}

fn market_story(author: Pubkey) -> Story {
    Story {
        title: String::from("A Tale"),
        description: String::from("Of many things"),
        author,
        pen_name: String::from("quill"),
        cover_cid: String::from("QmCover"),
        content_cid: String::from("QmContent"),
        chapter_count: 1,
        is_completed: false,
        created_at: 0,
        updated_at: 0,
        nft_count: 0,
        like_count: 0,
        comment_count: 0,
        word_count: 0,
        weekly_word_count: 0,
        last_word_reset: 0,
        avg_rating: 0,
        rating_count: 0,
        mining_power: 0,
        nft_minting_enabled: false,
        max_nfts: 100,
        first_mint_completed: false,
        second_mint_enabled: false,
        target_word_count: 50_000,
        total_nft_revenue_sol: 0,
        total_nft_revenue_token: 0,
        total_tip_revenue_sol: 0,
        total_tip_revenue_token: 0,
        last_nft_revenue_update: 0,
        last_tip_update: 0,
        staked_earnings_sol: 0,
        staked_earnings_token: 0,
        is_abandoned: false,
        last_update_time: 0,
        min_words_for_nft: 100_000,
        unclaimed_mining_reward: 0,
        last_claimed_period: 0,
        unclaimed_periods: Vec::new(),
        last_mining_power_update: 0,
        current_period_likes: 0,
        current_period_comments: 0,
        current_period_tips_sol: 0,
        current_period_tips_token: 0,
        current_period_words: 0,
        is_active: false,
    }
}

fn mint(story: &mut Story, author: u8) -> Result<tale_forge::nft::MintOutcome, TaleForgeError> {
    create_nft(
        story,
        market_key(42),
        market_key(43),
        market_key(author),
        String::from("Hero"),
        String::from("The hero of the tale"),
        String::from("ipfs://hero"),
        NFTType::Character,
        market_key(250),
        NOW,
    )
}

fn listed_nft(price_sol: u64, price_token: u64) -> NovelNFT {
    NovelNFT {
        story: market_key(42),
        name: String::from("Hero"),
        description: String::from("The hero of the tale"),
        image_uri: String::from("ipfs://hero"),
        nft_type: NFTType::Character,
        rarity: Rarity::Rare,
        owner: market_key(60),
        created_at: 0,
        is_transferable: true,
        mint_batch: 1,
        mining_weight: 100,
        is_listed: true,
        list_time: 9,
        list_price_sol: price_sol,
        list_price_token: price_token,
        staked_earnings: 12,
        earnings_start_time: 3,
    }
}

#[test]
fn first_batch_mints_ten_nfts_of_weight_100() {
    let mut story = market_story(market_key(AUTHOR));
    story.word_count = 100_000;
    for minted in 0..10u32 {
        let before = story.clone();
        let outcome = mint(&mut story, AUTHOR).unwrap();
        assert_eq!(
            outcome.nft,
            NovelNFT {
                story: market_key(42),
                name: String::from("Hero"),
                description: String::from("The hero of the tale"),
                image_uri: String::from("ipfs://hero"),
                nft_type: NFTType::Character,
                rarity: Rarity::Common,
                owner: market_key(AUTHOR),
                created_at: NOW,
                is_transferable: true,
                mint_batch: 1,
                mining_weight: 100,
                is_listed: false,
                list_time: 0,
                list_price_sol: 0,
                list_price_token: 0,
                staked_earnings: 0,
                earnings_start_time: NOW,
            }
        );
        assert_eq!(
            outcome.event,
            NFTMinted {
                story: market_key(42),
                nft: market_key(43),
                nft_type: NFTType::Character,
                rarity: Rarity::Common,
                timestamp: NOW,
            }
        );
        assert_eq!(
            story,
            Story { nft_count: minted + 1, first_mint_completed: minted == 9, ..before }
        );
    }
    assert!(story.first_mint_completed);
    assert_eq!(mint(&mut story, AUTHOR).unwrap_err(), TaleForgeError::SecondMintNotEnabled);
}

#[test]
fn first_batch_needs_the_words_and_room() {
    let mut story = market_story(market_key(AUTHOR));
    story.word_count = 99_999;
    let before = story.clone();
    assert_eq!(mint(&mut story, AUTHOR).unwrap_err(), TaleForgeError::InsufficientWordCount);
    assert_eq!(mint(&mut story, AUTHOR + 1).unwrap_err(), TaleForgeError::UnauthorizedAuthor);
    assert_eq!(story, before);
    story.word_count = 100_000;
    story.nft_count = 10;
    assert_eq!(mint(&mut story, AUTHOR).unwrap_err(), TaleForgeError::MaxFirstBatchNFTsReached);
}

#[test]
fn second_batch_mints_up_to_the_limit_at_weight_50() {
    let mut story = market_story(market_key(AUTHOR));
    story.first_mint_completed = true;
    story.second_mint_enabled = true;
    story.nft_count = 10;
    story.max_nfts = 12;
    let first = mint(&mut story, AUTHOR).unwrap();
    assert_eq!(first.nft.mint_batch, 2);
    assert_eq!(first.nft.mining_weight, 50);
    mint(&mut story, AUTHOR).unwrap();
    assert_eq!(story.nft_count, 12);
    let before = story.clone();
    assert_eq!(mint(&mut story, AUTHOR).unwrap_err(), TaleForgeError::MaxNFTsReached);
    assert_eq!(story, before);
}

#[test]
fn batch_weights() {
    assert_eq!(batch_weight(1), 100);
    assert_eq!(batch_weight(2), 50);
    assert_eq!(batch_weight(0), 0);
    assert_eq!(batch_weight(3), 0);
    assert_eq!(batch_weight(255), 0);
}

#[test]
fn listing_sets_the_prices() {
    let mut nft = NovelNFT { is_listed: false, list_time: 0, ..listed_nft(0, 0) };
    let before = nft.clone();
    let event = list_nft(&mut nft, market_key(43), market_key(60), 500, 0, NOW);
    assert_eq!(
        event,
        Ok(NFTListed {
            story: market_key(42),
            nft: market_key(43),
            owner: market_key(60),
            price_sol: 500,
            price_token: 0,
            timestamp: NOW,
        })
    );
    assert_eq!(
        nft,
        NovelNFT { is_listed: true, list_price_sol: 500, list_price_token: 0, list_time: NOW, ..before }
    );
}

#[test]
fn listing_is_checked_in_order() {
    let mut nft = NovelNFT { is_listed: false, is_transferable: false, ..listed_nft(0, 0) };
    let before = nft.clone();
    assert_eq!(
        list_nft(&mut nft, market_key(43), market_key(61), 0, 0, NOW),
        Err(TaleForgeError::UnauthorizedOwner)
    );
    assert_eq!(
        list_nft(&mut nft, market_key(43), market_key(60), 0, 0, NOW),
        Err(TaleForgeError::NFTNotTransferable)
    );
    assert_eq!(nft, before);
    nft.is_transferable = true;
    nft.is_listed = true;
    assert_eq!(
        list_nft(&mut nft, market_key(43), market_key(60), 0, 0, NOW),
        Err(TaleForgeError::NFTAlreadyListed)
    );
    nft.is_listed = false;
    assert_eq!(
        list_nft(&mut nft, market_key(43), market_key(60), 0, 0, NOW),
        Err(TaleForgeError::InvalidListPrice)
    );
    assert!(list_nft(&mut nft, market_key(43), market_key(60), 0, 1, NOW).is_ok());
}

#[test]
fn cancelling_takes_the_nft_off_sale() {
    let mut nft = listed_nft(500, 7);
    let before = nft.clone();
    assert_eq!(
        cancel_listing(&mut nft, market_key(43), market_key(61), NOW),
        Err(TaleForgeError::UnauthorizedOwner)
    );
    assert_eq!(nft, before);
    assert_eq!(
        cancel_listing(&mut nft, market_key(43), market_key(60), NOW),
        Ok(NFTListingCanceled {
            story: market_key(42),
            nft: market_key(43),
            owner: market_key(60),
            timestamp: NOW,
        })
    );
    assert_eq!(
        nft,
        NovelNFT { is_listed: false, list_price_sol: 0, list_price_token: 0, ..before }
    );
    assert_eq!(
        cancel_listing(&mut nft, market_key(43), market_key(60), NOW),
        Err(TaleForgeError::NFTNotListed)
    );
}

fn buy(
    guard: &mut ReentrancyGuard,
    nft: &mut NovelNFT,
    story: &mut Story,
    seller: u8,
    use_token: bool,
    token_accounts: bool,
) -> Result<SaleOutcome, TaleForgeError> {
    buy_nft(
        guard,
        nft,
        story,
        market_key(43),
        market_key(42),
        market_key(seller),
        market_key(70),
        use_token,
        token_accounts,
        NOW,
    )
}

#[test]
fn purchase_in_sol_passes_the_nft_on() {
    let mut guard = ReentrancyGuard { is_entered: false };
    let mut nft = listed_nft(1000, 77);
    let mut story = market_story(market_key(AUTHOR));
    story.total_nft_revenue_sol = 5;
    let (nft_before, story_before) = (nft.clone(), story.clone());
    let outcome = buy(&mut guard, &mut nft, &mut story, 60, false, false);
    assert_eq!(
        outcome,
        Ok(SaleOutcome {
            seller_amount: 975,
            platform_fee: 25,
            event: NFTSold {
                story: market_key(42),
                nft: market_key(43),
                seller: market_key(60),
                buyer: market_key(70),
                price: 1000,
                platform_fee: 25,
                use_token: false,
                timestamp: NOW,
            },
        })
    );
    assert_eq!(
        nft,
        NovelNFT {
            owner: market_key(70),
            is_listed: false,
            list_price_sol: 0,
            list_price_token: 0,
            ..nft_before
        }
    );
    assert_eq!(
        story,
        Story { total_nft_revenue_sol: 1005, last_nft_revenue_update: NOW, ..story_before }
    );
    assert!(!guard.is_entered);
}

#[test]
fn purchase_in_the_token_uses_the_token_price() {
    let mut guard = ReentrancyGuard { is_entered: false };
    let mut nft = listed_nft(1000, 77);
    let mut story = market_story(market_key(AUTHOR));
    let before = (nft.clone(), story.clone());
    assert_eq!(
        buy(&mut guard, &mut nft, &mut story, 60, true, false),
        Err(TaleForgeError::TokenAccountsRequired)
    );
    assert_eq!((nft.clone(), story.clone()), before);
    assert!(!guard.is_entered);
    let outcome = buy(&mut guard, &mut nft, &mut story, 60, true, true).unwrap();
    // 77 * 25 / 1000 rounds down to 1.
    assert_eq!((outcome.seller_amount, outcome.platform_fee, outcome.event.price), (76, 1, 77));
    assert_eq!(story.total_nft_revenue_token, 77);
    assert_eq!(story.total_nft_revenue_sol, 0);
}

#[test]
fn purchase_is_checked_in_order() {
    let mut story = market_story(market_key(AUTHOR));
    let mut nft = NovelNFT { is_transferable: false, is_listed: false, ..listed_nft(10, 10) };
    let mut entered = ReentrancyGuard { is_entered: true };
    assert_eq!(
        buy(&mut entered, &mut nft, &mut story, 61, true, false),
        Err(TaleForgeError::ReentrancyError)
    );
    assert!(entered.is_entered);
    let mut guard = ReentrancyGuard { is_entered: false };
    assert_eq!(
        buy(&mut guard, &mut nft, &mut story, 61, true, false),
        Err(TaleForgeError::NFTNotTransferable)
    );
    nft.is_transferable = true;
    assert_eq!(
        buy(&mut guard, &mut nft, &mut story, 61, true, false),
        Err(TaleForgeError::NFTNotListed)
    );
    nft.is_listed = true;
    assert_eq!(
        buy(&mut guard, &mut nft, &mut story, 61, true, false),
        Err(TaleForgeError::UnauthorizedOwner)
    );
    story.total_nft_revenue_sol = u64::MAX - 9;
    assert_eq!(
        buy(&mut guard, &mut nft, &mut story, 60, false, false),
        Err(TaleForgeError::ArithmeticOverflow)
    );
    assert!(!guard.is_entered);
    assert_eq!(nft.owner, market_key(60));
}

#[test]
fn fee_of_the_largest_price_does_not_overflow() {
    let mut guard = ReentrancyGuard { is_entered: false };
    let mut nft = listed_nft(u64::MAX, 0);
    let mut story = market_story(market_key(AUTHOR));
    let outcome = buy(&mut guard, &mut nft, &mut story, 60, false, false).unwrap();
    assert_eq!(outcome.platform_fee, (u64::MAX as u128 * 25 / 1000) as u64);
    assert_eq!(outcome.seller_amount, u64::MAX - outcome.platform_fee);
}

#[test]
fn guard_admits_one_at_a_time() {
    let mut guard = ReentrancyGuard { is_entered: false };
    assert_eq!(guard.enter(), Ok(()));
    assert!(guard.is_entered);
    assert_eq!(guard.enter(), Err(TaleForgeError::ReentrancyError));
    assert!(guard.is_entered);
    guard.leave();
    assert!(!guard.is_entered);
    assert_eq!(guard.enter(), Ok(()));
}
