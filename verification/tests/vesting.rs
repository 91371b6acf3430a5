use solana_program::pubkey::Pubkey;
use tale_forge::errors::TaleForgeError;
use tale_forge::events::NFTEarningsReleased;
use tale_forge::nft::{release_nft_earnings, NFTType, NovelNFT, Rarity};

const DAY: i64 = 24 * 60 * 60;
const NOW: i64 = 1_700_000_000;

fn vest_key(tag: u8) -> Pubkey {
    Pubkey::new_from_array([tag; 32])
}

fn position(rarity: Rarity, staked: u64, start: i64) -> NovelNFT {
    NovelNFT {
        story: vest_key(1),
        name: String::from("Castle"),
        description: String::from("Where it all began"),
        image_uri: String::from("ipfs://castle"),
        nft_type: NFTType::Scene,
        rarity,
        owner: vest_key(2),
        created_at: 0,
        is_transferable: true,
        mint_batch: 1,
        mining_weight: 100,
        is_listed: false,
        list_time: 0,
        list_price_sol: 0,
        list_price_token: 0,
        staked_earnings: staked,
        earnings_start_time: start,
    }
}

fn release(nft: &mut NovelNFT, now: i64) -> Result<NFTEarningsReleased, TaleForgeError> {
    release_nft_earnings(nft, vest_key(3), vest_key(2), now)
}

#[test]
fn common_position_is_locked_for_365_days() {
    let mut nft = position(Rarity::Common, 100, NOW - 364 * DAY);
    let before = nft.clone();
    assert_eq!(release(&mut nft, NOW), Err(TaleForgeError::StakePeriodNotMet));
    assert_eq!(nft, before);
    let mut nft = position(Rarity::Common, 100, NOW - 365 * DAY + 1);
    assert_eq!(release(&mut nft, NOW), Err(TaleForgeError::StakePeriodNotMet));

    let mut nft = position(Rarity::Common, 100, NOW - 365 * DAY);
    let before = nft.clone();
    assert_eq!(
        release(&mut nft, NOW),
        Ok(NFTEarningsReleased { nft: vest_key(3), owner: vest_key(2), amount: 100, timestamp: NOW })
    );
    assert_eq!(nft.staked_earnings, 0);
    assert_eq!(nft, NovelNFT { staked_earnings: 0, ..before });
}

#[test]
fn rare_position_is_locked_for_180_days() {
    let mut nft = position(Rarity::Rare, 55, NOW - 180 * DAY + 1);
    assert_eq!(release(&mut nft, NOW), Err(TaleForgeError::StakePeriodNotMet));
    assert_eq!(nft.staked_earnings, 55);
    let mut nft = position(Rarity::Rare, 55, NOW - 180 * DAY);
    assert_eq!(release(&mut nft, NOW).unwrap().amount, 55);
    assert_eq!(nft.staked_earnings, 0);
}

#[test]
fn epic_position_is_locked_for_90_days() {
    let mut nft = position(Rarity::Epic, 55, NOW - 90 * DAY + 1);
    assert_eq!(release(&mut nft, NOW), Err(TaleForgeError::StakePeriodNotMet));
    let mut nft = position(Rarity::Epic, 55, NOW - 90 * DAY);
    assert_eq!(release(&mut nft, NOW).unwrap().amount, 55);
}

#[test]
fn legendary_position_is_never_locked() {
    let mut nft = position(Rarity::Legendary, 8, NOW);
    assert_eq!(release(&mut nft, NOW).unwrap().amount, 8);
    // Not even when the start lies ahead.
    let mut nft = position(Rarity::Legendary, 8, NOW + 1000);
    assert_eq!(release(&mut nft, NOW).unwrap().amount, 8);
    let mut nft = position(Rarity::Epic, 8, NOW + 1000);
    assert_eq!(release(&mut nft, NOW), Err(TaleForgeError::StakePeriodNotMet));
}

#[test]
fn release_of_nothing_is_rejected() {
    let mut nft = position(Rarity::Common, 0, NOW - 400 * DAY);
    let before = nft.clone();
    assert_eq!(release(&mut nft, NOW), Err(TaleForgeError::NoStakedEarnings));
    assert_eq!(nft, before);
    // The lock is checked first.
    let mut nft = position(Rarity::Common, 0, NOW);
    assert_eq!(release(&mut nft, NOW), Err(TaleForgeError::StakePeriodNotMet));
}

#[test]
fn release_pays_everything_at_once_and_only_once() {
    let mut nft = position(Rarity::Rare, u64::MAX, 0);
    assert_eq!(release(&mut nft, NOW).unwrap().amount, u64::MAX);
    assert_eq!(release(&mut nft, NOW), Err(TaleForgeError::NoStakedEarnings));
}

#[test]
fn release_to_someone_else_is_rejected() {
    let mut nft = position(Rarity::Legendary, 100, 0);
    let before = nft.clone();
    assert_eq!(
        release_nft_earnings(&mut nft, vest_key(3), vest_key(4), NOW),
        Err(TaleForgeError::UnauthorizedOwner)
    );
    assert_eq!(nft, before);
    assert!(release_nft_earnings(&mut nft, vest_key(3), vest_key(2), NOW).is_ok());
}

#[test]
fn hold_time_is_computed_without_overflow() {
    let mut nft = position(Rarity::Common, 1, i64::MIN);
    assert_eq!(release(&mut nft, i64::MAX).unwrap().amount, 1);
    let mut nft = position(Rarity::Common, 1, i64::MAX);
    assert_eq!(release(&mut nft, i64::MIN), Err(TaleForgeError::StakePeriodNotMet));
}

#[test]
fn accrual_starts_the_lock_when_earnings_leave_zero() {
    let mut nft = position(Rarity::Common, 0, 17);
    assert_eq!(nft.credit_share(0, NOW), Ok(false));
    assert_eq!((nft.staked_earnings, nft.earnings_start_time), (0, 17));
    assert_eq!(nft.credit_share(40, NOW), Ok(false));
    assert_eq!((nft.staked_earnings, nft.earnings_start_time), (40, NOW));
    assert_eq!(nft.credit_share(2, NOW + 50), Ok(false));
    assert_eq!((nft.staked_earnings, nft.earnings_start_time), (42, NOW));
    assert_eq!(nft.credit_share(u64::MAX - 41, NOW + 60), Err(TaleForgeError::InvalidMiningPower));
    assert_eq!((nft.staked_earnings, nft.earnings_start_time), (42, NOW));
    assert_eq!(nft.credit_share(u64::MAX - 42, NOW + 60), Ok(false));
    assert_eq!(nft.staked_earnings, u64::MAX);
}

#[test]
fn legendary_position_never_accrues() {
    let mut nft = position(Rarity::Legendary, 5, 17);
    let before = nft.clone();
    assert_eq!(nft.credit_share(40, NOW), Ok(true));
    assert_eq!(nft.credit_share(u64::MAX, NOW), Ok(true));
    assert_eq!(nft, before);
}

#[test]
fn lock_starts_again_after_a_release() {
    let mut nft = position(Rarity::Epic, 0, 0);
    nft.credit_share(10, NOW).unwrap();
    assert_eq!(release(&mut nft, NOW + 90 * DAY).unwrap().amount, 10);
    assert_eq!(nft.earnings_start_time, NOW);
    nft.credit_share(7, NOW + 100 * DAY).unwrap();
    assert_eq!(nft.earnings_start_time, NOW + 100 * DAY);
    assert_eq!(release(&mut nft, NOW + 189 * DAY), Err(TaleForgeError::StakePeriodNotMet));
    assert_eq!(release(&mut nft, NOW + 190 * DAY).unwrap().amount, 7);
}

#[test]
fn rarities_are_ordered_and_locks_shorten() {
    assert!(Rarity::Common < Rarity::Rare);
    assert!(Rarity::Rare < Rarity::Epic);
    assert!(Rarity::Epic < Rarity::Legendary);
    assert_eq!(Rarity::Common.rank(), 0);
    assert_eq!(Rarity::Rare.rank(), 1);
    assert_eq!(Rarity::Epic.rank(), 2);
    assert_eq!(Rarity::Legendary.rank(), 3);
    assert_eq!(Rarity::Common.get_stake_requirement(), 31_536_000);
    assert_eq!(Rarity::Rare.get_stake_requirement(), 15_552_000);
    assert_eq!(Rarity::Epic.get_stake_requirement(), 7_776_000);
    assert_eq!(Rarity::Legendary.get_stake_requirement(), 0);
}

#[test]
fn rarity_is_rolled_from_the_first_byte() {
    assert_eq!(Rarity::random(&[0u8, 255, 255]), Rarity::Common);
    assert_eq!(Rarity::random(&[255u8]), Rarity::Common);
    assert_eq!(Rarity::random(&[128u8; 32]), Rarity::Common);
}
