//! Story NFTs: minting in two batches, the marketplace, and the vesting of
//! the holders' share of mining rewards behind a lock that depends on rarity.

use vstd::prelude::*;
use solana_program::pubkey::Pubkey;
use crate::errors::TaleForgeError;
use crate::events::{NFTEarningsReleased, NFTListed, NFTListingCanceled, NFTMinted, NFTSold};
use crate::keys::{key_bytes, key_eq, key_to_bytes, same_key};
use crate::story::Story;

verus! {

/// How rare an NFT is, from the most common to the rarest. The rarer, the
/// shorter the lock on its earnings.
#[derive(Clone, Copy, Debug, PartialEq, Eq, PartialOrd, Ord, Structural)]
pub enum Rarity {
    Common,
    Rare,
    Epic,
    Legendary,
}

/// What an NFT depicts.
#[derive(Clone, Copy, Debug, PartialEq, Eq, Structural)]
pub enum NFTType {
    Character,
    Scene,
    Pet,
    Item,
}

/// The currency of a payment.
#[derive(Clone, Copy, Debug, PartialEq, Eq, Structural)]
pub enum CurrencyType {
    SOL,
    TAFOR,
}

/// The tier of a story's mining power.
#[derive(Clone, Copy, Debug, PartialEq, Eq, Structural)]
pub enum MiningLevel {
    Copper,
    Silver,
    Gold,
    Platinum,
    Diamond,
    Legend,
}

/// What the platform records about one NFT of a story.
#[derive(Clone, Debug, PartialEq)]
pub struct NovelNFT {
    /// The address of the story that the NFT belongs to.
    pub story: Pubkey,
    pub name: String,
    pub description: String,
    pub image_uri: String,
    pub nft_type: NFTType,
    pub rarity: Rarity,
    pub owner: Pubkey,
    pub created_at: i64,
    pub is_transferable: bool,
    /// The batch that the NFT was minted in: 1 or 2.
    pub mint_batch: u8,
    pub mining_weight: u64,
    pub is_listed: bool,
    pub list_time: i64,
    /// The asking price in lamports.
    pub list_price_sol: u64,
    /// The asking price in token units.
    pub list_price_token: u64,
    /// The holder's share of mining rewards that is still locked.
    pub staked_earnings: u64,
    /// When the locked earnings began to accrue.
    pub earnings_start_time: i64,
}

impl Rarity {
    /// The place of a rarity in the order from common to legendary.
    pub open spec fn spec_rank(self) -> int {
        match self {
            Rarity::Common => 0,
            Rarity::Rare => 1,
            Rarity::Epic => 2,
            Rarity::Legendary => 3,
        }
    }

    /// The place of a rarity in the order from common to legendary.
    pub fn rank(&self) -> (rank: u8)
        ensures
            rank == self.spec_rank(),
    {
        match self {
            Rarity::Common => 0,
            Rarity::Rare => 1,
            Rarity::Epic => 2,
            Rarity::Legendary => 3,
        }
    }

    /// How long earnings stay locked, in seconds: 365 days for a common NFT,
    /// 180 for a rare one, 90 for an epic one, none for a legendary one.
    pub open spec fn spec_stake_requirement(self) -> int {
        match self {
            Rarity::Common => 31_536_000,
            Rarity::Rare => 15_552_000,
            Rarity::Epic => 7_776_000,
            Rarity::Legendary => 0,
        }
    }

    /// How long earnings stay locked, in seconds.
    pub fn get_stake_requirement(&self) -> (seconds: i64)
        ensures
            seconds == self.spec_stake_requirement(),
    {
        match self {
            Rarity::Common => 365 * 24 * 60 * 60,
            Rarity::Rare => 180 * 24 * 60 * 60,
            Rarity::Epic => 90 * 24 * 60 * 60,
            Rarity::Legendary => 0,
        }
    }

    /// The rarity that a roll between 0 and 999 gives: 65 in a hundred rolls
    /// are common, 25 rare, 8 epic and 2 legendary.
    pub open spec fn spec_of_roll(roll: int) -> Rarity {
        if roll <= 649 {
            Rarity::Common
        } else if roll <= 899 {
            Rarity::Rare
        } else if roll <= 979 {
            Rarity::Epic
        } else {
            Rarity::Legendary
        }
    }

    /// The rarity of a new NFT, rolled from the first byte of a recent block
    /// hash.
    pub fn random(recent_blockhash: &[u8]) -> (rarity: Rarity)
        requires
            recent_blockhash@.len() > 0,
        ensures
            rarity == Rarity::spec_of_roll(recent_blockhash@[0] as int % 1000),
    {
        let seed: u32 = recent_blockhash[0] as u32;
        let roll: u32 = seed % 1000;
        if roll <= 649 {
            Rarity::Common
        } else if roll <= 899 {
            Rarity::Rare
        } else if roll <= 979 {
            Rarity::Epic
        } else {
            Rarity::Legendary
        }
    }
}

/// A roll from a single byte is below 256, and so always gives a common NFT.
pub proof fn lemma_byte_rolls_common(byte: u8)
    ensures
        Rarity::spec_of_roll(byte as int % 1000) == Rarity::Common,
{
}

/// A shorter lock goes with a higher rarity.
pub proof fn lemma_lock_shortens_with_rarity(a: Rarity, b: Rarity)
    requires
        a.spec_rank() < b.spec_rank(),
    ensures
        a.spec_stake_requirement() > b.spec_stake_requirement(),
{
}

/// The weight of an NFT in the split of the holders' share: 100 for the
/// first mint batch, 50 for the second, none for any other.
pub open spec fn spec_batch_weight(mint_batch: u8) -> int {
    if mint_batch == 1 {
        100
    } else if mint_batch == 2 {
        50
    } else {
        0
    }
}

/// The weight of an NFT in the split of the holders' share.
pub fn batch_weight(mint_batch: u8) -> (weight: u64)
    ensures
        weight == spec_batch_weight(mint_batch),
{
    if mint_batch == 1 {
        100
    } else if mint_batch == 2 {
        50
    } else {
        0
    }
}

impl NovelNFT {
    /// Whether the NFT can take a share of a claim: a legendary NFT always
    /// can, any other while its locked earnings fit in 64 bits.
    pub open spec fn spec_accepts(self, share: u64) -> bool {
        self.rarity == Rarity::Legendary || self.staked_earnings + share <= u64::MAX
    }

    /// The NFT after it is given a share of a claim at `now`. A legendary NFT
    /// is paid at once and stays as it was. Any other adds the share to its
    /// locked earnings; its lock starts to run when the earnings leave zero,
    /// and is not started again by later shares.
    pub open spec fn spec_credited(self, share: u64, now: i64) -> NovelNFT {
        if self.rarity == Rarity::Legendary {
            self
        } else {
            NovelNFT {
                staked_earnings: (self.staked_earnings + share) as u64,
                earnings_start_time: if self.staked_earnings == 0 && share > 0 {
                    now
                } else {
                    self.earnings_start_time
                },
                ..self
            }
        }
    }

    /// Gives the NFT a share of a claim, and says whether the share is to be
    /// paid to the holder at once, as it is for a legendary NFT, rather than
    /// locked.
    ///
    /// Fails with `InvalidMiningPower`, and changes nothing, where the locked
    /// earnings would not fit in 64 bits.
    pub fn credit_share(&mut self, share: u64, current_time: i64) -> (result: Result<
        bool,
        TaleForgeError,
    >)
        ensures
            old(self).spec_accepts(share) ==> result == Ok::<bool, TaleForgeError>(
                old(self).rarity == Rarity::Legendary,
            ) && *final(self) == old(self).spec_credited(share, current_time),
            !old(self).spec_accepts(share) ==> result == Err::<bool, TaleForgeError>(
                TaleForgeError::InvalidMiningPower,
            ) && *final(self) == *old(self),
    {
        match self.rarity {
            Rarity::Legendary => Ok(true),
            _ => match self.staked_earnings.checked_add(share) {
                None => Err(TaleForgeError::InvalidMiningPower),
                Some(sum) => {
                    if self.staked_earnings == 0 && share > 0 {
                        self.earnings_start_time = current_time;
                    }
                    self.staked_earnings = sum;
                    Ok(false)
                },
            },
        }
    }

    /// Whether the lock on the earnings has run out at `now`: the lock of
    /// the NFT's rarity has passed since the earnings began to accrue. A
    /// legendary NFT is never locked.
    pub open spec fn spec_lock_expired(self, now: i64) -> bool {
        now - self.earnings_start_time >= self.rarity.spec_stake_requirement() || self.rarity
            == Rarity::Legendary
    }

    /// What a release at `now` to `owner` pays, or why there is none.
    pub open spec fn spec_release_result(self, owner: Pubkey, now: i64) -> Result<
        u64,
        TaleForgeError,
    > {
        if !same_key(self.owner, owner) {
            Err(TaleForgeError::UnauthorizedOwner)
        } else if !self.spec_lock_expired(now) {
            Err(TaleForgeError::StakePeriodNotMet)
        } else if self.staked_earnings == 0 {
            Err(TaleForgeError::NoStakedEarnings)
        } else {
            Ok(self.staked_earnings)
        }
    }
}

/// Releases an NFT's locked earnings to its holder.
///
/// Rejected with `UnauthorizedOwner` where `owner` does not hold the NFT,
/// with `StakePeriodNotMet` while the lock runs, and with `NoStakedEarnings`
/// where nothing is locked. A rejected call changes nothing. A release pays
/// the whole of the earnings and leaves none locked; the event names the
/// amount that the caller is to pay.
pub fn release_nft_earnings(nft: &mut NovelNFT, nft_key: Pubkey, owner: Pubkey, current_time: i64) -> (result:
    Result<NFTEarningsReleased, TaleForgeError>)
    ensures
        match old(nft).spec_release_result(owner, current_time) {
            Err(e) => result == Err::<NFTEarningsReleased, TaleForgeError>(e) && *final(nft)
                == *old(nft),
            Ok(amount) => {
                &&& result == Ok::<NFTEarningsReleased, TaleForgeError>(
                    NFTEarningsReleased { nft: nft_key, owner, amount, timestamp: current_time },
                )
                &&& *final(nft) == (NovelNFT { staked_earnings: 0, ..*old(nft) })
            },
        },
{
    if !key_eq(&nft.owner, &owner) {
        return Err(TaleForgeError::UnauthorizedOwner);
    }
    let hold_time: i128 = current_time as i128 - nft.earnings_start_time as i128;
    let required_time: i64 = nft.rarity.get_stake_requirement();
    let legendary: bool = match nft.rarity {
        Rarity::Legendary => true,
        _ => false,
    };
    if !(hold_time >= required_time as i128 || legendary) {
        return Err(TaleForgeError::StakePeriodNotMet);
    }
    let amount: u64 = nft.staked_earnings;
    if amount == 0 {
        return Err(TaleForgeError::NoStakedEarnings);
    }
    nft.staked_earnings = 0;
    Ok(NFTEarningsReleased { nft: nft_key, owner, amount, timestamp: current_time })
}

/// The batch in which a story's next NFT is minted, or why none can be.
///
/// The first batch holds ten NFTs and opens once the story has the words it
/// asks for; the second batch opens when it is enabled, and ends at the
/// story's limit.
pub open spec fn spec_mint_batch(story: Story, author: Pubkey) -> Result<u8, TaleForgeError> {
    if !same_key(story.author, author) {
        Err(TaleForgeError::UnauthorizedAuthor)
    } else if !story.first_mint_completed {
        if story.word_count < story.min_words_for_nft {
            Err(TaleForgeError::InsufficientWordCount)
        } else if story.nft_count >= 10 {
            Err(TaleForgeError::MaxFirstBatchNFTsReached)
        } else {
            Ok(1)
        }
    } else {
        if !story.second_mint_enabled {
            Err(TaleForgeError::SecondMintNotEnabled)
        } else if story.nft_count >= story.max_nfts {
            Err(TaleForgeError::MaxNFTsReached)
        } else {
            Ok(2)
        }
    }
}

/// A story after one more NFT is minted for it. The tenth NFT completes the
/// first batch.
pub open spec fn spec_story_after_mint(story: Story) -> Story {
    Story {
        nft_count: (story.nft_count + 1) as u32,
        first_mint_completed: story.first_mint_completed || story.nft_count == 9,
        ..story
    }
}

/// What minting hands back.
#[derive(Clone, Debug, PartialEq)]
pub struct MintOutcome {
    pub nft: NovelNFT,
    pub event: NFTMinted,
}

/// Mints an NFT for a story.
///
/// The NFT belongs to the author, is not listed, and holds no earnings; its
/// rarity is rolled from `recent_blockhash`.
///
/// Rejected with `UnauthorizedAuthor` where `author` is not the story's;
/// in the first batch with `InsufficientWordCount` where the story is short
/// of the words it asks for, and with `MaxFirstBatchNFTsReached` once the
/// batch is full; in the second batch with `SecondMintNotEnabled` until it
/// is enabled, and with `MaxNFTsReached` at the story's limit. A rejected
/// call changes nothing.
pub fn create_nft(
    story: &mut Story,
    story_key: Pubkey,
    nft_key: Pubkey,
    author: Pubkey,
    name: String,
    description: String,
    image_uri: String,
    nft_type: NFTType,
    recent_blockhash: Pubkey,
    current_time: i64,
) -> (result: Result<MintOutcome, TaleForgeError>)
    ensures
        match spec_mint_batch(*old(story), author) {
            Err(e) => result is Err && result->Err_0 == e && *final(story) == *old(story),
            Ok(batch) => {
                &&& result is Ok
                &&& *final(story) == spec_story_after_mint(*old(story))
                &&& result->Ok_0.nft == (NovelNFT {
                    story: story_key,
                    name,
                    description,
                    image_uri,
                    nft_type,
                    rarity: Rarity::spec_of_roll(key_bytes(recent_blockhash)[0] as int % 1000),
                    owner: author,
                    created_at: current_time,
                    is_transferable: true,
                    mint_batch: batch,
                    mining_weight: spec_batch_weight(batch) as u64,
                    is_listed: false,
                    list_time: 0,
                    list_price_sol: 0,
                    list_price_token: 0,
                    staked_earnings: 0,
                    earnings_start_time: current_time,
                })
                &&& result->Ok_0.event == (NFTMinted {
                    story: story_key,
                    nft: nft_key,
                    nft_type,
                    rarity: result->Ok_0.nft.rarity,
                    timestamp: current_time,
                })
            },
        },
{
    if !key_eq(&story.author, &author) {
        return Err(TaleForgeError::UnauthorizedAuthor);
    }
    let mint_batch: u8;
    if !story.first_mint_completed {
        if story.word_count < story.min_words_for_nft {
            return Err(TaleForgeError::InsufficientWordCount);
        }
        if story.nft_count >= 10 {
            return Err(TaleForgeError::MaxFirstBatchNFTsReached);
        }
        mint_batch = 1;
    } else {
        if !story.second_mint_enabled {
            return Err(TaleForgeError::SecondMintNotEnabled);
        }
        if story.nft_count >= story.max_nfts {
            return Err(TaleForgeError::MaxNFTsReached);
        }
        mint_batch = 2;
    }
    let hash: [u8; 32] = key_to_bytes(&recent_blockhash);
    let rarity: Rarity = Rarity::random(hash.as_slice());
    let nft = NovelNFT {
        story: story_key,
        name,
        description,
        image_uri,
        nft_type,
        rarity,
        owner: author,
        created_at: current_time,
        is_transferable: true,
        mint_batch,
        mining_weight: batch_weight(mint_batch),
        is_listed: false,
        list_time: 0,
        list_price_sol: 0,
        list_price_token: 0,
        staked_earnings: 0,
        earnings_start_time: current_time,
    };
    if story.nft_count == 9 && !story.first_mint_completed {
        story.first_mint_completed = true;
    }
    story.nft_count = story.nft_count + 1;
    let event = NFTMinted { story: story_key, nft: nft_key, nft_type, rarity, timestamp: current_time };
    Ok(MintOutcome { nft, event })
}

/// Whether an NFT can be put up for sale, and if not, why.
pub open spec fn spec_listing_check(nft: NovelNFT, owner: Pubkey, price_sol: u64, price_token: u64) -> Result<
    (),
    TaleForgeError,
> {
    if !same_key(nft.owner, owner) {
        Err(TaleForgeError::UnauthorizedOwner)
    } else if !nft.is_transferable {
        Err(TaleForgeError::NFTNotTransferable)
    } else if nft.is_listed {
        Err(TaleForgeError::NFTAlreadyListed)
    } else if price_sol == 0 && price_token == 0 {
        Err(TaleForgeError::InvalidListPrice)
    } else {
        Ok(())
    }
}

/// Puts an NFT up for sale at a price in SOL, in the token, or in both.
///
/// Rejected with `UnauthorizedOwner` where `owner` does not hold the NFT,
/// with `NFTNotTransferable` where it cannot change hands, with
/// `NFTAlreadyListed` where it is up for sale already, and with
/// `InvalidListPrice` where neither price is set. A rejected call changes
/// nothing.
pub fn list_nft(
    nft: &mut NovelNFT,
    nft_key: Pubkey,
    owner: Pubkey,
    price_sol: u64,
    price_token: u64,
    current_time: i64,
) -> (result: Result<NFTListed, TaleForgeError>)
    ensures
        match spec_listing_check(*old(nft), owner, price_sol, price_token) {
            Err(e) => result == Err::<NFTListed, TaleForgeError>(e) && *final(nft) == *old(nft),
            Ok(_) => {
                &&& result == Ok::<NFTListed, TaleForgeError>(
                    NFTListed {
                        story: old(nft).story,
                        nft: nft_key,
                        owner: old(nft).owner,
                        price_sol,
                        price_token,
                        timestamp: current_time,
                    },
                )
                &&& *final(nft) == (NovelNFT {
                    is_listed: true,
                    list_price_sol: price_sol,
                    list_price_token: price_token,
                    list_time: current_time,
                    ..*old(nft)
                })
            },
        },
{
    if !key_eq(&nft.owner, &owner) {
        return Err(TaleForgeError::UnauthorizedOwner);
    }
    if !nft.is_transferable {
        return Err(TaleForgeError::NFTNotTransferable);
    }
    if nft.is_listed {
        return Err(TaleForgeError::NFTAlreadyListed);
    }
    if price_sol == 0 && price_token == 0 {
        return Err(TaleForgeError::InvalidListPrice);
    }
    nft.is_listed = true;
    nft.list_price_sol = price_sol;
    nft.list_price_token = price_token;
    nft.list_time = current_time;
    Ok(
        NFTListed {
            story: nft.story,
            nft: nft_key,
            owner: nft.owner,
            price_sol,
            price_token,
            timestamp: current_time,
        },
    )
}

/// Takes an NFT off sale.
///
/// Rejected with `UnauthorizedOwner` where `owner` does not hold the NFT, and
/// with `NFTNotListed` where it is not up for sale. A rejected call changes
/// nothing.
pub fn cancel_listing(nft: &mut NovelNFT, nft_key: Pubkey, owner: Pubkey, current_time: i64) -> (result:
    Result<NFTListingCanceled, TaleForgeError>)
    ensures
        !same_key(old(nft).owner, owner) ==> result == Err::<NFTListingCanceled, TaleForgeError>(
            TaleForgeError::UnauthorizedOwner,
        ) && *final(nft) == *old(nft),
        same_key(old(nft).owner, owner) && !old(nft).is_listed ==> result == Err::<
            NFTListingCanceled,
            TaleForgeError,
        >(TaleForgeError::NFTNotListed) && *final(nft) == *old(nft),
        same_key(old(nft).owner, owner) && old(nft).is_listed ==> {
            &&& result == Ok::<NFTListingCanceled, TaleForgeError>(
                NFTListingCanceled {
                    story: old(nft).story,
                    nft: nft_key,
                    owner: old(nft).owner,
                    timestamp: current_time,
                },
            )
            &&& *final(nft) == (NovelNFT {
                is_listed: false,
                list_price_sol: 0,
                list_price_token: 0,
                ..*old(nft)
            })
        },
{
    if !key_eq(&nft.owner, &owner) {
        return Err(TaleForgeError::UnauthorizedOwner);
    }
    if !nft.is_listed {
        return Err(TaleForgeError::NFTNotListed);
    }
    nft.is_listed = false;
    nft.list_price_sol = 0;
    nft.list_price_token = 0;
    Ok(
        NFTListingCanceled {
            story: nft.story,
            nft: nft_key,
            owner: nft.owner,
            timestamp: current_time,
        },
    )
}

/// The mark that a purchase is under way.
#[derive(Clone, Copy, Debug, PartialEq, Eq, Structural)]
pub struct ReentrancyGuard {
    pub is_entered: bool,
}

impl ReentrancyGuard {
    /// Sets the mark. Fails with `ReentrancyError`, and changes nothing,
    /// where it is set already.
    pub fn enter(&mut self) -> (result: Result<(), TaleForgeError>)
        ensures
            old(self).is_entered ==> result == Err::<(), TaleForgeError>(
                TaleForgeError::ReentrancyError,
            ) && final(self).is_entered,
            !old(self).is_entered ==> result is Ok && final(self).is_entered,
    {
        if self.is_entered {
            return Err(TaleForgeError::ReentrancyError);
        }
        self.is_entered = true;
        Ok(())
    }

    /// Clears the mark.
    pub fn leave(&mut self)
        ensures
            !final(self).is_entered,
    {
        self.is_entered = false;
    }
}

/// The asking price of an NFT in the currency of the purchase.
pub open spec fn spec_list_price(nft: NovelNFT, use_token: bool) -> u64 {
    if use_token {
        nft.list_price_token
    } else {
        nft.list_price_sol
    }
}

/// The platform's fee on a price: 25 in a thousand, rounded down.
pub open spec fn spec_platform_fee(price: u64) -> u64 {
    (price as int * 25 / 1000) as u64
}

/// Whether an NFT can be bought, and if not, why.
pub open spec fn spec_purchase_check(
    guard: ReentrancyGuard,
    nft: NovelNFT,
    story: Story,
    current_owner: Pubkey,
    use_token: bool,
    token_accounts_present: bool,
) -> Result<(), TaleForgeError> {
    if guard.is_entered {
        Err(TaleForgeError::ReentrancyError)
    } else if !nft.is_transferable {
        Err(TaleForgeError::NFTNotTransferable)
    } else if !nft.is_listed {
        Err(TaleForgeError::NFTNotListed)
    } else if !same_key(nft.owner, current_owner) {
        Err(TaleForgeError::UnauthorizedOwner)
    } else if use_token && !token_accounts_present {
        Err(TaleForgeError::TokenAccountsRequired)
    } else if (if use_token {
        story.total_nft_revenue_token
    } else {
        story.total_nft_revenue_sol
    }) + spec_list_price(nft, use_token) > u64::MAX {
        Err(TaleForgeError::ArithmeticOverflow)
    } else {
        Ok(())
    }
}

/// A story after one of its NFTs is sold for `price` at `now`.
pub open spec fn spec_story_after_sale(story: Story, price: u64, use_token: bool, now: i64) -> Story {
    if use_token {
        Story {
            total_nft_revenue_token: (story.total_nft_revenue_token + price) as u64,
            last_nft_revenue_update: now,
            ..story
        }
    } else {
        Story {
            total_nft_revenue_sol: (story.total_nft_revenue_sol + price) as u64,
            last_nft_revenue_update: now,
            ..story
        }
    }
}

/// What a purchase hands back: the amounts that the caller is to move from
/// the buyer, and the record to publish.
#[derive(Clone, Copy, Debug, PartialEq)]
pub struct SaleOutcome {
    /// What the seller is paid: the price less the platform's fee.
    pub seller_amount: u64,
    /// The platform's fee.
    pub platform_fee: u64,
    pub event: NFTSold,
}

/// Buys a listed NFT at its asking price, in SOL or in the platform token.
///
/// The NFT passes to the new owner and leaves the market; the price counts
/// toward the story's revenue from NFTs. The mark on `guard` is found unset
/// and is left unset.
///
/// Rejected with `ReentrancyError` where a purchase is under way, with
/// `NFTNotTransferable` where the NFT cannot change hands, with
/// `NFTNotListed` where it is not up for sale, with `UnauthorizedOwner` where
/// `current_owner` does not hold it, with `TokenAccountsRequired` for a
/// purchase in the token without the token accounts, and with
/// `ArithmeticOverflow` where the story's revenue does not fit in its field.
/// A rejected call changes nothing.
pub fn buy_nft(
    guard: &mut ReentrancyGuard,
    nft: &mut NovelNFT,
    story: &mut Story,
    nft_key: Pubkey,
    story_key: Pubkey,
    current_owner: Pubkey,
    new_owner: Pubkey,
    use_token: bool,
    token_accounts_present: bool,
    current_time: i64,
) -> (result: Result<SaleOutcome, TaleForgeError>)
    ensures
        *final(guard) == *old(guard),
        match spec_purchase_check(
            *old(guard),
            *old(nft),
            *old(story),
            current_owner,
            use_token,
            token_accounts_present,
        ) {
            Err(e) => {
                &&& result == Err::<SaleOutcome, TaleForgeError>(e)
                &&& *final(nft) == *old(nft)
                &&& *final(story) == *old(story)
            },
            Ok(_) => {
                let price = spec_list_price(*old(nft), use_token);
                &&& result == Ok::<SaleOutcome, TaleForgeError>(
                    SaleOutcome {
                        seller_amount: (price - spec_platform_fee(price)) as u64,
                        platform_fee: spec_platform_fee(price),
                        event: NFTSold {
                            story: story_key,
                            nft: nft_key,
                            seller: old(nft).owner,
                            buyer: new_owner,
                            price,
                            platform_fee: spec_platform_fee(price),
                            use_token,
                            timestamp: current_time,
                        },
                    },
                )
                &&& *final(nft) == (NovelNFT {
                    owner: new_owner,
                    is_listed: false,
                    list_price_sol: 0,
                    list_price_token: 0,
                    ..*old(nft)
                })
                &&& *final(story) == spec_story_after_sale(
                    *old(story),
                    price,
                    use_token,
                    current_time,
                )
            },
        },
{
    match guard.enter() {
        Err(e) => {
            return Err(e);
        },
        Ok(_) => {},
    }
    let previous_owner: Pubkey = nft.owner;
    let list_price: u64 = if use_token {
        nft.list_price_token
    } else {
        nft.list_price_sol
    };
    let platform_fee: u64 = ((list_price as u128 * 25) / 1000) as u64;
    let seller_amount: u64 = list_price - platform_fee;
    let revenue: u64 = if use_token {
        story.total_nft_revenue_token
    } else {
        story.total_nft_revenue_sol
    };
    let rejected: Option<TaleForgeError> = if !nft.is_transferable {
        Some(TaleForgeError::NFTNotTransferable)
    } else if !nft.is_listed {
        Some(TaleForgeError::NFTNotListed)
    } else if !key_eq(&nft.owner, &current_owner) {
        Some(TaleForgeError::UnauthorizedOwner)
    } else if use_token && !token_accounts_present {
        Some(TaleForgeError::TokenAccountsRequired)
    } else if list_price > u64::MAX - revenue {
        Some(TaleForgeError::ArithmeticOverflow)
    } else {
        None
    };
    match rejected {
        Some(e) => {
            guard.leave();
            return Err(e);
        },
        None => {},
    }
    nft.owner = new_owner;
    nft.is_listed = false;
    nft.list_price_sol = 0;
    nft.list_price_token = 0;
    if use_token {
        story.total_nft_revenue_token = revenue + list_price;
    } else {
        story.total_nft_revenue_sol = revenue + list_price;
    }
    story.last_nft_revenue_update = current_time;
    guard.leave();
    Ok(
        SaleOutcome {
            seller_amount,
            platform_fee,
            event: NFTSold {
                story: story_key,
                nft: nft_key,
                seller: previous_owner,
                buyer: new_owner,
                price: list_price,
                platform_fee,
                use_token,
                timestamp: current_time,
            },
        },
    )
}

} // verus!
