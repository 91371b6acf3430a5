//! Stories: the record kept of each work, and the operations of its author
//! and its readers on it.

use vstd::prelude::*;
use vstd::utf8::encode_utf8;
use solana_program::pubkey::Pubkey;
use crate::author::Author;
use crate::constants::{DAY_IN_SECONDS, EPOCH_SECONDS, MAX_INACTIVE_DAYS, MIN_MINING_WORDS};
use crate::errors::TaleForgeError;
use crate::events::{
    ChapterUpdated, StakeReleased, StoryAbandoned, StoryCommented, StoryCreated, StoryLiked,
    StoryTipped, WordCountUpdated,
};
use crate::keys::{key_eq, lamports_per_sol, same_key};

verus! {

/// What the platform records about one story.
#[derive(Clone, Debug, PartialEq)]
pub struct Story {
    pub title: String,
    pub description: String,
    /// The wallet address of the author.
    pub author: Pubkey,
    pub pen_name: String,
    /// Content identifier of the cover.
    pub cover_cid: String,
    /// Content identifier of the latest content.
    pub content_cid: String,
    pub chapter_count: u32,
    pub is_completed: bool,
    pub created_at: i64,
    pub updated_at: i64,
    /// Number of NFTs minted for the story.
    pub nft_count: u32,
    /// Likes over the story's lifetime.
    pub like_count: u64,
    /// Comments over the story's lifetime.
    pub comment_count: u64,
    /// Words over the story's lifetime.
    pub word_count: u64,
    /// Words added since the weekly count was last reset.
    pub weekly_word_count: u64,
    pub last_word_reset: i64,
    pub avg_rating: u8,
    pub rating_count: u32,
    /// The score of the latest epoch in which the story was scored.
    pub mining_power: u64,
    pub nft_minting_enabled: bool,
    pub max_nfts: u32,
    pub first_mint_completed: bool,
    pub second_mint_enabled: bool,
    pub target_word_count: u64,
    /// Revenue from NFT sales over the story's lifetime, in lamports.
    pub total_nft_revenue_sol: u64,
    /// Revenue from NFT sales over the story's lifetime, in token units.
    pub total_nft_revenue_token: u64,
    /// Tips over the story's lifetime, in lamports.
    pub total_tip_revenue_sol: u64,
    /// Tips over the story's lifetime, in token units.
    pub total_tip_revenue_token: u64,
    pub last_nft_revenue_update: i64,
    pub last_tip_update: i64,
    /// Stake held for the author until the story is finished, in lamports.
    pub staked_earnings_sol: u64,
    /// Stake held for the author until the story is finished, in token units.
    pub staked_earnings_token: u64,
    pub is_abandoned: bool,
    pub last_update_time: i64,
    /// Words the story needs before its first NFT can be minted.
    pub min_words_for_nft: u64,
    pub unclaimed_mining_reward: u64,
    /// The latest period whose reward the story has claimed.
    pub last_claimed_period: u64,
    /// Periods whose reward is pending for a lump-sum distribution.
    pub unclaimed_periods: Vec<u64>,
    pub last_mining_power_update: i64,
    /// Likes since the story was last scored.
    pub current_period_likes: u64,
    /// Comments since the story was last scored.
    pub current_period_comments: u64,
    /// Tips in lamports since the story was last scored.
    pub current_period_tips_sol: u64,
    /// Tips in token units since the story was last scored.
    pub current_period_tips_token: u64,
    /// Words added since the story was last scored.
    pub current_period_words: u64,
    pub is_active: bool,
}

/// What is recorded about one chapter.
#[derive(Clone, Debug, PartialEq)]
pub struct ChapterMetadata {
    pub title: String,
    /// Content identifier of the chapter.
    pub cid: String,
    pub created_at: i64,
    pub word_count: u32,
}

/// A story's activity in a recent window of time.
#[derive(Clone, Copy, Debug, PartialEq, Eq, Structural)]
pub struct RecentActivity {
    pub likes: u64,
    pub comments: u64,
    /// Tips in lamports.
    pub tips_sol: u64,
    /// Tips in token units.
    pub tips_token: u64,
}

/// Whether activity counts as trending: more than 500 likes, more than 200
/// comments, more than 10 SOL in tips, or more than 1000 token units in
/// tips.
pub open spec fn spec_is_trending(recent: RecentActivity) -> bool {
    ||| recent.likes > 500
    ||| recent.comments > 200
    ||| recent.tips_sol > 10_000_000_000
    ||| recent.tips_token > 1000
}

/// Whether activity counts as trending.
pub fn is_trending_activity(recent: &RecentActivity) -> (trending: bool)
    ensures
        trending == spec_is_trending(*recent),
{
    let threshold_tips_sol: u64 = 10 * lamports_per_sol();
    recent.likes > 500 || recent.comments > 200 || recent.tips_sol > threshold_tips_sol
        || recent.tips_token > 1000
}

impl Story {
    /// The activity that the story reports for a recent window: its
    /// lifetime totals.
    pub open spec fn spec_recent_activity(self) -> RecentActivity {
        RecentActivity {
            likes: self.like_count,
            comments: self.comment_count,
            tips_sol: self.total_tip_revenue_sol,
            tips_token: self.total_tip_revenue_token,
        }
    }

    /// Likes in the window of `duration` seconds that ends at
    /// `current_time`. The story keeps no record by time, and reports its
    /// lifetime total for every window.
    pub fn get_recent_likes(&self, current_time: i64, duration: i64) -> (likes: u64)
        ensures
            likes == self.like_count,
    {
        self.like_count
    }

    /// Comments in the window of `duration` seconds that ends at
    /// `current_time`: the lifetime total, as for likes.
    pub fn get_recent_comments(&self, current_time: i64, duration: i64) -> (comments: u64)
        ensures
            comments == self.comment_count,
    {
        self.comment_count
    }

    /// Tips in the window of `duration` seconds that ends at `current_time`,
    /// in lamports and in token units: the lifetime totals, as for likes.
    pub fn get_recent_tips(&self, current_time: i64, duration: i64) -> (tips: (u64, u64))
        ensures
            tips.0 == self.total_tip_revenue_sol,
            tips.1 == self.total_tip_revenue_token,
    {
        (self.total_tip_revenue_sol, self.total_tip_revenue_token)
    }

    /// The story's activity in the day that ends at `current_time`.
    pub fn recent_activity(&self, current_time: i64) -> (recent: RecentActivity)
        ensures
            recent == self.spec_recent_activity(),
    {
        let likes: u64 = self.get_recent_likes(current_time, DAY_IN_SECONDS);
        let comments: u64 = self.get_recent_comments(current_time, DAY_IN_SECONDS);
        let tips: (u64, u64) = self.get_recent_tips(current_time, DAY_IN_SECONDS);
        RecentActivity { likes, comments, tips_sol: tips.0, tips_token: tips.1 }
    }

    /// Whether the story is trending at `current_time`.
    pub fn is_trending(&self, current_time: i64) -> (trending: bool)
        ensures
            trending == spec_is_trending(self.spec_recent_activity()),
    {
        let recent: RecentActivity = self.recent_activity(current_time);
        is_trending_activity(&recent)
    }

    /// The holders of the story's NFTs. The story keeps no list of them.
    pub fn get_nft_holders(&self) -> (holders: Vec<Pubkey>)
        ensures
            holders@.len() == 0,
    {
        Vec::new()
    }
}

/// Whether `bytes` begins with `prefix`.
pub open spec fn spec_starts_with(bytes: Seq<u8>, prefix: Seq<u8>) -> bool {
    bytes.len() >= prefix.len() && bytes.subrange(0, prefix.len() as int) == prefix
}

/// Whether a title has an acceptable length: 1 to 100 bytes.
pub open spec fn spec_valid_title(title: Seq<char>) -> bool {
    1 <= encode_utf8(title).len() <= 100
}

/// Whether a description has an acceptable length: 1 to 1000 bytes.
pub open spec fn spec_valid_description(description: Seq<char>) -> bool {
    1 <= encode_utf8(description).len() <= 1000
}

/// Whether a content identifier has a known form: it begins with `Qm` or
/// with `bafy`.
pub open spec fn spec_valid_cid(cid: Seq<char>) -> bool {
    spec_starts_with(encode_utf8(cid), seq![0x51u8, 0x6du8]) || spec_starts_with(
        encode_utf8(cid),
        seq![0x62u8, 0x61u8, 0x66u8, 0x79u8],
    )
}

/// Whether the texts of a new story are acceptable, and if not, which of
/// them is the first that is not.
pub open spec fn spec_story_texts(
    title: Seq<char>,
    description: Seq<char>,
    cover_cid: Seq<char>,
    content_cid: Seq<char>,
) -> Result<(), TaleForgeError> {
    if !spec_valid_title(title) {
        Err(TaleForgeError::InvalidTitleLength)
    } else if !spec_valid_description(description) {
        Err(TaleForgeError::InvalidDescriptionLength)
    } else if !spec_valid_cid(cover_cid) || !spec_valid_cid(content_cid) {
        Err(TaleForgeError::InvalidCIDFormat)
    } else {
        Ok(())
    }
}

impl Story {
    /// Checks the length of a title.
    pub fn validate_title(title: &str) -> (result: Result<(), TaleForgeError>)
        ensures
            spec_valid_title(title@) ==> result is Ok,
            !spec_valid_title(title@) ==> result == Err::<(), TaleForgeError>(
                TaleForgeError::InvalidTitleLength,
            ),
    {
        let length: usize = title.as_bytes().len();
        if 1 <= length && length <= 100 {
            Ok(())
        } else {
            Err(TaleForgeError::InvalidTitleLength)
        }
    }

    /// Checks the length of a description.
    pub fn validate_description(description: &str) -> (result: Result<(), TaleForgeError>)
        ensures
            spec_valid_description(description@) ==> result is Ok,
            !spec_valid_description(description@) ==> result == Err::<(), TaleForgeError>(
                TaleForgeError::InvalidDescriptionLength,
            ),
    {
        let length: usize = description.as_bytes().len();
        if 1 <= length && length <= 1000 {
            Ok(())
        } else {
            Err(TaleForgeError::InvalidDescriptionLength)
        }
    }

    /// Checks the form of a content identifier.
    pub fn validate_cid(cid: &str) -> (result: Result<(), TaleForgeError>)
        ensures
            spec_valid_cid(cid@) ==> result is Ok,
            !spec_valid_cid(cid@) ==> result == Err::<(), TaleForgeError>(
                TaleForgeError::InvalidCIDFormat,
            ),
    {
        let bytes: &[u8] = cid.as_bytes();
        let n: usize = bytes.len();
        let v0: bool = n >= 2 && bytes[0] == 0x51 && bytes[1] == 0x6d;
        let v1: bool = n >= 4 && bytes[0] == 0x62 && bytes[1] == 0x61 && bytes[2] == 0x66
            && bytes[3] == 0x79;
        proof {
            let first = seq![0x51u8, 0x6du8];
            let second = seq![0x62u8, 0x61u8, 0x66u8, 0x79u8];
            if v0 {
                assert(bytes@.subrange(0, 2) =~= first);
            }
            if v1 {
                assert(bytes@.subrange(0, 4) =~= second);
            }
        }
        if v0 || v1 {
            Ok(())
        } else {
            Err(TaleForgeError::InvalidCIDFormat)
        }
    }

    /// A story as it is when created at `now`: one chapter, no readers'
    /// marks, no NFTs, nothing earned and nothing claimed. Its first NFT
    /// needs 100,000 words, and it may have up to 100 NFTs.
    pub open spec fn spec_new(
        title: String,
        description: String,
        author: Pubkey,
        pen_name: String,
        cover_cid: String,
        content_cid: String,
        target_word_count: u64,
        unclaimed_periods: Vec<u64>,
        now: i64,
    ) -> Story {
        Story {
            title,
            description,
            author,
            pen_name,
            cover_cid,
            content_cid,
            chapter_count: 1,
            is_completed: false,
            created_at: now,
            updated_at: now,
            nft_count: 0,
            like_count: 0,
            comment_count: 0,
            word_count: 0,
            weekly_word_count: 0,
            last_word_reset: 0,
            avg_rating: 0,
            rating_count: 0,
            mining_power: 0,
            nft_minting_enabled: false,
            max_nfts: 100,
            first_mint_completed: false,
            second_mint_enabled: false,
            target_word_count,
            total_nft_revenue_sol: 0,
            total_nft_revenue_token: 0,
            total_tip_revenue_sol: 0,
            total_tip_revenue_token: 0,
            last_nft_revenue_update: 0,
            last_tip_update: 0,
            staked_earnings_sol: 0,
            staked_earnings_token: 0,
            is_abandoned: false,
            last_update_time: now,
            min_words_for_nft: 100_000,
            unclaimed_mining_reward: 0,
            last_claimed_period: 0,
            unclaimed_periods,
            last_mining_power_update: 0,
            current_period_likes: 0,
            current_period_comments: 0,
            current_period_tips_sol: 0,
            current_period_tips_token: 0,
            current_period_words: 0,
            is_active: false,
        }
    }
}

/// Whether a story can be created, and if not, why.
pub open spec fn spec_story_creation(
    author: Author,
    author_wallet: Pubkey,
    title: Seq<char>,
    description: Seq<char>,
    cover_cid: Seq<char>,
    content_cid: Seq<char>,
    target_word_count: u64,
) -> Result<(), TaleForgeError> {
    if !same_key(author.address, author_wallet) {
        Err(TaleForgeError::InvalidAuthor)
    } else if spec_story_texts(title, description, cover_cid, content_cid) is Err {
        spec_story_texts(title, description, cover_cid, content_cid)
    } else if target_word_count < 50_000 {
        Err(TaleForgeError::InvalidTargetWordCount)
    } else if author.story_count == u32::MAX {
        Err(TaleForgeError::ArithmeticOverflow)
    } else {
        Ok(())
    }
}

/// What creating a story hands back.
#[derive(Clone, Debug, PartialEq)]
pub struct StoryCreation {
    pub story: Story,
    pub event: StoryCreated,
}

/// Creates a story for an author.
///
/// Rejected with `InvalidAuthor` where `author_wallet` is not the author's
/// wallet, with `InvalidTitleLength`, `InvalidDescriptionLength` or
/// `InvalidCIDFormat` for the first text that is not acceptable, and with
/// `InvalidTargetWordCount` where the target is below 50,000 words. A
/// rejected call changes nothing. The author's record counts the new story
/// and lists its address.
pub fn create_story(
    author: &mut Author,
    author_key: Pubkey,
    author_wallet: Pubkey,
    story_key: Pubkey,
    title: String,
    description: String,
    cover_cid: String,
    content_cid: String,
    target_word_count: u64,
    current_time: i64,
) -> (result: Result<StoryCreation, TaleForgeError>)
    ensures
        match spec_story_creation(
            *old(author),
            author_wallet,
            title@,
            description@,
            cover_cid@,
            content_cid@,
            target_word_count,
        ) {
            Err(e) => result is Err && result->Err_0 == e && *final(author) == *old(author),
            Ok(_) => {
                &&& result is Ok
                &&& result->Ok_0.story == Story::spec_new(
                    title,
                    description,
                    author_wallet,
                    old(author).pen_name,
                    cover_cid,
                    content_cid,
                    target_word_count,
                    result->Ok_0.story.unclaimed_periods,
                    current_time,
                )
                &&& result->Ok_0.story.unclaimed_periods@.len() == 0
                &&& result->Ok_0.event.story == story_key
                &&& result->Ok_0.event.author == author_key
                &&& result->Ok_0.event.title@ == title@
                &&& result->Ok_0.event.target_words == target_word_count
                &&& result->Ok_0.event.timestamp == current_time
                &&& final(author).stories@ == old(author).stories@.push(story_key)
                &&& *final(author) == (Author {
                    story_count: (old(author).story_count + 1) as u32,
                    stories: final(author).stories,
                    last_update: current_time,
                    ..*old(author)
                })
            },
        },
{
    if !key_eq(&author.address, &author_wallet) {
        return Err(TaleForgeError::InvalidAuthor);
    }
    match Story::validate_title(title.as_str()) {
        Err(e) => {
            return Err(e);
        },
        Ok(_) => {},
    }
    match Story::validate_description(description.as_str()) {
        Err(e) => {
            return Err(e);
        },
        Ok(_) => {},
    }
    match Story::validate_cid(cover_cid.as_str()) {
        Err(e) => {
            return Err(e);
        },
        Ok(_) => {},
    }
    match Story::validate_cid(content_cid.as_str()) {
        Err(e) => {
            return Err(e);
        },
        Ok(_) => {},
    }
    if target_word_count < MIN_MINING_WORDS {
        return Err(TaleForgeError::InvalidTargetWordCount);
    }
    if author.story_count == u32::MAX {
        return Err(TaleForgeError::ArithmeticOverflow);
    }
    let event = StoryCreated {
        story: story_key,
        author: author_key,
        title: title.clone(),
        target_words: target_word_count,
        timestamp: current_time,
    };
    let story = Story {
        title,
        description,
        author: author_wallet,
        pen_name: author.pen_name.clone(),
        cover_cid,
        content_cid,
        chapter_count: 1,
        is_completed: false,
        created_at: current_time,
        updated_at: current_time,
        nft_count: 0,
        like_count: 0,
        comment_count: 0,
        word_count: 0,
        weekly_word_count: 0,
        last_word_reset: 0,
        avg_rating: 0,
        rating_count: 0,
        mining_power: 0,
        nft_minting_enabled: false,
        max_nfts: 100,
        first_mint_completed: false,
        second_mint_enabled: false,
        target_word_count,
        total_nft_revenue_sol: 0,
        total_nft_revenue_token: 0,
        total_tip_revenue_sol: 0,
        total_tip_revenue_token: 0,
        last_nft_revenue_update: 0,
        last_tip_update: 0,
        staked_earnings_sol: 0,
        staked_earnings_token: 0,
        is_abandoned: false,
        last_update_time: current_time,
        min_words_for_nft: 100_000,
        unclaimed_mining_reward: 0,
        last_claimed_period: 0,
        unclaimed_periods: Vec::new(),
        last_mining_power_update: 0,
        current_period_likes: 0,
        current_period_comments: 0,
        current_period_tips_sol: 0,
        current_period_tips_token: 0,
        current_period_words: 0,
        is_active: false,
    };
    author.story_count = author.story_count + 1;
    author.stories.push(story_key);
    author.last_update = current_time;
    Ok(StoryCreation { story, event })
}

/// The part of a tip that is the author's: half of it, rounded down.
pub open spec fn spec_tip_author_share(amount: u64) -> u64 {
    amount / 2
}

/// The part of a tip that is held as the story's stake until the story is
/// finished: half of the author's share, rounded down.
pub open spec fn spec_tip_stake(amount: u64) -> u64 {
    spec_tip_author_share(amount) / 2
}

/// The part of a tip that is paid to the author at once: the author's share
/// less the stake.
pub open spec fn spec_tip_payment(amount: u64) -> u64 {
    (spec_tip_author_share(amount) - spec_tip_stake(amount)) as u64
}

/// A story after a tip of `amount` at `now`.
pub open spec fn spec_tipped_story(story: Story, amount: u64, use_token: bool, now: i64) -> Story {
    if use_token {
        Story {
            total_tip_revenue_token: (story.total_tip_revenue_token + amount) as u64,
            current_period_tips_token: (story.current_period_tips_token + amount) as u64,
            staked_earnings_token: (story.staked_earnings_token + spec_tip_stake(amount)) as u64,
            last_tip_update: now,
            last_update_time: now,
            ..story
        }
    } else {
        Story {
            total_tip_revenue_sol: (story.total_tip_revenue_sol + amount) as u64,
            current_period_tips_sol: (story.current_period_tips_sol + amount) as u64,
            staked_earnings_sol: (story.staked_earnings_sol + spec_tip_stake(amount)) as u64,
            last_tip_update: now,
            last_update_time: now,
            ..story
        }
    }
}

/// An author after a tip of `amount` at `now`.
pub open spec fn spec_tipped_author(author: Author, amount: u64, use_token: bool, now: i64) -> Author {
    if use_token {
        Author {
            total_earnings_token: (author.total_earnings_token + spec_tip_payment(amount)) as u64,
            last_update: now,
            ..author
        }
    } else {
        Author {
            total_earnings_sol: (author.total_earnings_sol + spec_tip_payment(amount)) as u64,
            last_update: now,
            ..author
        }
    }
}

/// Whether the sums of a tip fit in their fields.
pub open spec fn spec_tip_fits(story: Story, author: Author, amount: u64, use_token: bool) -> bool {
    if use_token {
        &&& story.total_tip_revenue_token + amount <= u64::MAX
        &&& story.current_period_tips_token + amount <= u64::MAX
        &&& story.staked_earnings_token + spec_tip_stake(amount) <= u64::MAX
        &&& author.total_earnings_token + spec_tip_payment(amount) <= u64::MAX
    } else {
        &&& story.total_tip_revenue_sol + amount <= u64::MAX
        &&& story.current_period_tips_sol + amount <= u64::MAX
        &&& story.staked_earnings_sol + spec_tip_stake(amount) <= u64::MAX
        &&& author.total_earnings_sol + spec_tip_payment(amount) <= u64::MAX
    }
}

/// Whether a tip is accepted, and if not, why.
pub open spec fn spec_tip_check(
    story: Story,
    author: Author,
    author_wallet: Pubkey,
    amount: u64,
    use_token: bool,
    token_accounts_present: bool,
) -> Result<(), TaleForgeError> {
    if !same_key(author.address, author_wallet) {
        Err(TaleForgeError::InvalidAuthor)
    } else if amount == 0 {
        Err(TaleForgeError::InvalidTipAmount)
    } else if use_token && !token_accounts_present {
        Err(TaleForgeError::TokenAccountsRequired)
    } else if !spec_tip_fits(story, author, amount, use_token) {
        Err(TaleForgeError::ArithmeticOverflow)
    } else {
        Ok(())
    }
}

/// What a tip hands back: the amounts that the caller is to move from the
/// tipper, and the record to publish.
#[derive(Clone, Copy, Debug, PartialEq)]
pub struct TipOutcome {
    /// What the author is paid at once.
    pub author_payment: u64,
    /// What is moved to the story as its stake.
    pub stake_payment: u64,
    pub event: StoryTipped,
}

/// Tips a story, in SOL or in the platform token.
///
/// Half of the tip is the author's share; half of that share is held as the
/// story's stake until the story is finished, and the rest of the share is
/// paid to the author at once. The tip counts toward the story's totals and
/// toward its counters of the current period.
///
/// Rejected with `InvalidAuthor` where `author_wallet` is not the wallet of
/// the author's record, with `InvalidTipAmount` for a tip of nothing, with
/// `TokenAccountsRequired` for a tip in the token without the token accounts,
/// and with `ArithmeticOverflow` where a sum does not fit in its field. A
/// rejected call changes nothing.
pub fn tip_story(
    story: &mut Story,
    author_account: &mut Author,
    story_key: Pubkey,
    tipper: Pubkey,
    author_wallet: Pubkey,
    amount: u64,
    use_token: bool,
    token_accounts_present: bool,
    current_time: i64,
) -> (result: Result<TipOutcome, TaleForgeError>)
    ensures
        match spec_tip_check(
            *old(story),
            *old(author_account),
            author_wallet,
            amount,
            use_token,
            token_accounts_present,
        ) {
            Err(e) => {
                &&& result == Err::<TipOutcome, TaleForgeError>(e)
                &&& *final(story) == *old(story)
                &&& *final(author_account) == *old(author_account)
            },
            Ok(_) => {
                &&& result == Ok::<TipOutcome, TaleForgeError>(
                    TipOutcome {
                        author_payment: spec_tip_payment(amount),
                        stake_payment: spec_tip_stake(amount),
                        event: StoryTipped {
                            story: story_key,
                            tipper,
                            amount,
                            use_token,
                            staked_amount: spec_tip_stake(amount),
                            timestamp: current_time,
                        },
                    },
                )
                &&& *final(story) == spec_tipped_story(*old(story), amount, use_token, current_time)
                &&& *final(author_account) == spec_tipped_author(
                    *old(author_account),
                    amount,
                    use_token,
                    current_time,
                )
            },
        },
{
    if !key_eq(&author_account.address, &author_wallet) {
        return Err(TaleForgeError::InvalidAuthor);
    }
    if amount == 0 {
        return Err(TaleForgeError::InvalidTipAmount);
    }
    if use_token && !token_accounts_present {
        return Err(TaleForgeError::TokenAccountsRequired);
    }
    let author_share: u64 = amount / 2;
    let stake_amount: u64 = author_share / 2;
    let author_payment: u64 = author_share - stake_amount;
    if use_token {
        if amount > u64::MAX - story.total_tip_revenue_token || amount > u64::MAX
            - story.current_period_tips_token || stake_amount > u64::MAX
            - story.staked_earnings_token || author_payment > u64::MAX
            - author_account.total_earnings_token {
            return Err(TaleForgeError::ArithmeticOverflow);
        }
        story.total_tip_revenue_token = story.total_tip_revenue_token + amount;
        story.current_period_tips_token = story.current_period_tips_token + amount;
        story.staked_earnings_token = story.staked_earnings_token + stake_amount;
        author_account.total_earnings_token = author_account.total_earnings_token + author_payment;
    } else {
        if amount > u64::MAX - story.total_tip_revenue_sol || amount > u64::MAX
            - story.current_period_tips_sol || stake_amount > u64::MAX - story.staked_earnings_sol
            || author_payment > u64::MAX - author_account.total_earnings_sol {
            return Err(TaleForgeError::ArithmeticOverflow);
        }
        story.total_tip_revenue_sol = story.total_tip_revenue_sol + amount;
        story.current_period_tips_sol = story.current_period_tips_sol + amount;
        story.staked_earnings_sol = story.staked_earnings_sol + stake_amount;
        author_account.total_earnings_sol = author_account.total_earnings_sol + author_payment;
    }
    story.last_tip_update = current_time;
    story.last_update_time = current_time;
    author_account.last_update = current_time;
    Ok(
        TipOutcome {
            author_payment,
            stake_payment: stake_amount,
            event: StoryTipped {
                story: story_key,
                tipper,
                amount,
                use_token,
                staked_amount: stake_amount,
                timestamp: current_time,
            },
        },
    )
}

/// Publishes a chapter of a story.
///
/// Rejected with `InvalidAuthor` where `author` is not the story's, and with
/// `InvalidCIDFormat` where the chapter's content identifier has no known
/// form. A rejected call changes nothing.
pub fn update_chapter(
    story: &mut Story,
    story_key: Pubkey,
    author: Pubkey,
    chapter_number: u32,
    chapter_cid: String,
    current_time: i64,
) -> (result: Result<ChapterUpdated, TaleForgeError>)
    ensures
        !same_key(old(story).author, author) ==> result == Err::<ChapterUpdated, TaleForgeError>(
            TaleForgeError::InvalidAuthor,
        ) && *final(story) == *old(story),
        same_key(old(story).author, author) && !spec_valid_cid(chapter_cid@) ==> result == Err::<
            ChapterUpdated,
            TaleForgeError,
        >(TaleForgeError::InvalidCIDFormat) && *final(story) == *old(story),
        same_key(old(story).author, author) && spec_valid_cid(chapter_cid@) ==> {
            &&& result == Ok::<ChapterUpdated, TaleForgeError>(
                ChapterUpdated { story: story_key, chapter_number, timestamp: current_time },
            )
            &&& *final(story) == (Story {
                chapter_count: chapter_number,
                content_cid: chapter_cid,
                updated_at: current_time,
                ..*old(story)
            })
        },
{
    if !key_eq(&story.author, &author) {
        return Err(TaleForgeError::InvalidAuthor);
    }
    match Story::validate_cid(chapter_cid.as_str()) {
        Err(e) => {
            return Err(e);
        },
        Ok(_) => {},
    }
    story.chapter_count = chapter_number;
    story.content_cid = chapter_cid;
    story.updated_at = current_time;
    Ok(ChapterUpdated { story: story_key, chapter_number, timestamp: current_time })
}

/// Whether a story can be finished, and if not, why.
pub open spec fn spec_completion_check(story: Story, token_accounts_present: bool) -> Result<
    (),
    TaleForgeError,
> {
    if story.is_completed {
        Err(TaleForgeError::StoryAlreadyCompleted)
    } else if story.word_count < story.target_word_count {
        Err(TaleForgeError::TargetWordCountNotMet)
    } else if story.staked_earnings_token > 0 && !token_accounts_present {
        Err(TaleForgeError::TokenAccountsRequired)
    } else {
        Ok(())
    }
}

/// The record of the release of a stake of `amount`, where there is one.
pub open spec fn spec_stake_release(
    story_key: Pubkey,
    author: Pubkey,
    amount: u64,
    use_token: bool,
    now: i64,
) -> Option<StakeReleased> {
    if amount > 0 {
        Some(StakeReleased { story: story_key, author, amount, use_token, timestamp: now })
    } else {
        None
    }
}

/// What finishing a story hands back: the stakes that the caller is to pay
/// to the author.
#[derive(Clone, Copy, Debug, PartialEq)]
pub struct CompletionOutcome {
    /// The release of the stake in SOL, where the story held one.
    pub released_sol: Option<StakeReleased>,
    /// The release of the stake in the token, where the story held one.
    pub released_token: Option<StakeReleased>,
}

/// Finishes a story and releases its stakes to the author.
///
/// Rejected with `StoryAlreadyCompleted` for a finished story, with
/// `TargetWordCountNotMet` where the story is short of its target, and with
/// `TokenAccountsRequired` where a stake in the token is to be released
/// without the token accounts. A rejected call changes nothing.
pub fn complete_story(
    story: &mut Story,
    story_key: Pubkey,
    author: Pubkey,
    token_accounts_present: bool,
    current_time: i64,
) -> (result: Result<CompletionOutcome, TaleForgeError>)
    ensures
        match spec_completion_check(*old(story), token_accounts_present) {
            Err(e) => result == Err::<CompletionOutcome, TaleForgeError>(e) && *final(story)
                == *old(story),
            Ok(_) => {
                &&& result == Ok::<CompletionOutcome, TaleForgeError>(
                    CompletionOutcome {
                        released_sol: spec_stake_release(
                            story_key,
                            author,
                            old(story).staked_earnings_sol,
                            false,
                            current_time,
                        ),
                        released_token: spec_stake_release(
                            story_key,
                            author,
                            old(story).staked_earnings_token,
                            true,
                            current_time,
                        ),
                    },
                )
                &&& *final(story) == (Story {
                    staked_earnings_sol: 0,
                    staked_earnings_token: 0,
                    is_completed: true,
                    last_update_time: current_time,
                    ..*old(story)
                })
            },
        },
{
    if story.is_completed {
        return Err(TaleForgeError::StoryAlreadyCompleted);
    }
    if story.word_count < story.target_word_count {
        return Err(TaleForgeError::TargetWordCountNotMet);
    }
    let staked_sol: u64 = story.staked_earnings_sol;
    let staked_token: u64 = story.staked_earnings_token;
    if staked_token > 0 && !token_accounts_present {
        return Err(TaleForgeError::TokenAccountsRequired);
    }
    let released_sol: Option<StakeReleased> = if staked_sol > 0 {
        Some(
            StakeReleased {
                story: story_key,
                author,
                amount: staked_sol,
                use_token: false,
                timestamp: current_time,
            },
        )
    } else {
        None
    };
    let released_token: Option<StakeReleased> = if staked_token > 0 {
        Some(
            StakeReleased {
                story: story_key,
                author,
                amount: staked_token,
                use_token: true,
                timestamp: current_time,
            },
        )
    } else {
        None
    };
    story.staked_earnings_sol = 0;
    story.staked_earnings_token = 0;
    story.is_completed = true;
    story.last_update_time = current_time;
    Ok(CompletionOutcome { released_sol, released_token })
}

/// Counts a like for a story: toward its lifetime total and toward the
/// current period. Fails with `ArithmeticOverflow`, and changes nothing,
/// where a counter is full.
pub fn like_story(story: &mut Story, story_key: Pubkey, user: Pubkey, current_time: i64) -> (result:
    Result<StoryLiked, TaleForgeError>)
    ensures
        old(story).like_count < u64::MAX && old(story).current_period_likes < u64::MAX ==> {
            &&& result == Ok::<StoryLiked, TaleForgeError>(
                StoryLiked { story: story_key, user, timestamp: current_time },
            )
            &&& *final(story) == (Story {
                like_count: (old(story).like_count + 1) as u64,
                current_period_likes: (old(story).current_period_likes + 1) as u64,
                ..*old(story)
            })
        },
        old(story).like_count == u64::MAX || old(story).current_period_likes == u64::MAX ==> {
            &&& result == Err::<StoryLiked, TaleForgeError>(TaleForgeError::ArithmeticOverflow)
            &&& *final(story) == *old(story)
        },
{
    if story.like_count == u64::MAX || story.current_period_likes == u64::MAX {
        return Err(TaleForgeError::ArithmeticOverflow);
    }
    story.like_count = story.like_count + 1;
    story.current_period_likes = story.current_period_likes + 1;
    Ok(StoryLiked { story: story_key, user, timestamp: current_time })
}

/// Counts a comment for a story: toward its lifetime total and toward the
/// current period. Fails with `ArithmeticOverflow`, and changes nothing,
/// where a counter is full.
pub fn add_comment(story: &mut Story, story_key: Pubkey, user: Pubkey, current_time: i64) -> (result:
    Result<StoryCommented, TaleForgeError>)
    ensures
        old(story).comment_count < u64::MAX && old(story).current_period_comments < u64::MAX ==> {
            &&& result == Ok::<StoryCommented, TaleForgeError>(
                StoryCommented { story: story_key, user, timestamp: current_time },
            )
            &&& *final(story) == (Story {
                comment_count: (old(story).comment_count + 1) as u64,
                current_period_comments: (old(story).current_period_comments + 1) as u64,
                ..*old(story)
            })
        },
        old(story).comment_count == u64::MAX || old(story).current_period_comments == u64::MAX ==> {
            &&& result == Err::<StoryCommented, TaleForgeError>(TaleForgeError::ArithmeticOverflow)
            &&& *final(story) == *old(story)
        },
{
    if story.comment_count == u64::MAX || story.current_period_comments == u64::MAX {
        return Err(TaleForgeError::ArithmeticOverflow);
    }
    story.comment_count = story.comment_count + 1;
    story.current_period_comments = story.current_period_comments + 1;
    Ok(StoryCommented { story: story_key, user, timestamp: current_time })
}

/// The words of the week before new words are added at `now`: none where a
/// week has passed since the count was last reset.
pub open spec fn spec_weekly_words_before(story: Story, now: i64) -> u64 {
    if now - story.last_word_reset >= 604_800 {
        0
    } else {
        story.weekly_word_count
    }
}

/// Whether new words are accepted, and if not, why.
pub open spec fn spec_word_update_check(
    story: Story,
    author_account: Author,
    author: Pubkey,
    new_words: u64,
    now: i64,
) -> Result<(), TaleForgeError> {
    if !same_key(story.author, author) {
        Err(TaleForgeError::UnauthorizedAuthor)
    } else if !same_key(author_account.address, author) {
        Err(TaleForgeError::InvalidAuthor)
    } else if story.word_count + new_words > u64::MAX || story.current_period_words + new_words
        > u64::MAX || author_account.total_word_count + new_words > u64::MAX
        || spec_weekly_words_before(story, now) + new_words > u64::MAX {
        Err(TaleForgeError::ArithmeticOverflow)
    } else {
        Ok(())
    }
}

/// A story after `new_words` are added at `now`.
pub open spec fn spec_words_added(story: Story, new_words: u64, now: i64) -> Story {
    Story {
        weekly_word_count: (spec_weekly_words_before(story, now) + new_words) as u64,
        last_word_reset: if now - story.last_word_reset >= 604_800 {
            now
        } else {
            story.last_word_reset
        },
        word_count: (story.word_count + new_words) as u64,
        current_period_words: (story.current_period_words + new_words) as u64,
        ..story
    }
}

/// Adds newly written words to a story.
///
/// The words count toward the story's lifetime total, toward its week, which
/// starts anew seven days after it last did, toward its current period, and
/// toward the author's total.
///
/// Rejected with `UnauthorizedAuthor` where `author` is not the story's, with
/// `InvalidAuthor` where `author` is not the wallet of the author's record,
/// and with `ArithmeticOverflow` where a sum does not fit in its field. A
/// rejected call changes nothing.
pub fn update_word_count(
    story: &mut Story,
    author_account: &mut Author,
    story_key: Pubkey,
    author: Pubkey,
    new_words: u64,
    current_time: i64,
) -> (result: Result<WordCountUpdated, TaleForgeError>)
    ensures
        match spec_word_update_check(
            *old(story),
            *old(author_account),
            author,
            new_words,
            current_time,
        ) {
            Err(e) => {
                &&& result == Err::<WordCountUpdated, TaleForgeError>(e)
                &&& *final(story) == *old(story)
                &&& *final(author_account) == *old(author_account)
            },
            Ok(_) => {
                &&& *final(story) == spec_words_added(*old(story), new_words, current_time)
                &&& *final(author_account) == (Author {
                    total_word_count: (old(author_account).total_word_count + new_words) as u64,
                    last_update: current_time,
                    ..*old(author_account)
                })
                &&& result == Ok::<WordCountUpdated, TaleForgeError>(
                    WordCountUpdated {
                        story: story_key,
                        total_words: final(story).word_count,
                        weekly_words: final(story).weekly_word_count,
                        author_total_words: final(author_account).total_word_count,
                        timestamp: current_time,
                    },
                )
            },
        },
{
    if !key_eq(&story.author, &author) {
        return Err(TaleForgeError::UnauthorizedAuthor);
    }
    if !key_eq(&author_account.address, &author) {
        return Err(TaleForgeError::InvalidAuthor);
    }
    let week_over: bool = current_time as i128 - story.last_word_reset as i128
        >= EPOCH_SECONDS as i128;
    let weekly_before: u64 = if week_over {
        0
    } else {
        story.weekly_word_count
    };
    if new_words > u64::MAX - story.word_count || new_words > u64::MAX - story.current_period_words
        || new_words > u64::MAX - author_account.total_word_count || new_words > u64::MAX
        - weekly_before {
        return Err(TaleForgeError::ArithmeticOverflow);
    }
    if week_over {
        story.weekly_word_count = 0;
        story.last_word_reset = current_time;
    }
    story.word_count = story.word_count + new_words;
    story.weekly_word_count = story.weekly_word_count + new_words;
    story.current_period_words = story.current_period_words + new_words;
    author_account.total_word_count = author_account.total_word_count + new_words;
    author_account.last_update = current_time;
    Ok(
        WordCountUpdated {
            story: story_key,
            total_words: story.word_count,
            weekly_words: story.weekly_word_count,
            author_total_words: author_account.total_word_count,
            timestamp: current_time,
        },
    )
}

/// Sets the limits of a story's NFTs: the words that the first NFT needs,
/// and the number of NFTs that the story may have.
///
/// Rejected with `InvalidWordCount` where no words are asked for, and with
/// `InvalidNFTLimit` where more than 100 NFTs are allowed. A rejected call
/// changes nothing.
pub fn update_story_settings(
    story: &mut Story,
    min_words_for_nft: u64,
    max_nfts: u32,
    current_time: i64,
) -> (result: Result<(), TaleForgeError>)
    ensures
        min_words_for_nft == 0 ==> result == Err::<(), TaleForgeError>(
            TaleForgeError::InvalidWordCount,
        ) && *final(story) == *old(story),
        min_words_for_nft > 0 && max_nfts > 100 ==> result == Err::<(), TaleForgeError>(
            TaleForgeError::InvalidNFTLimit,
        ) && *final(story) == *old(story),
        min_words_for_nft > 0 && max_nfts <= 100 ==> result is Ok && *final(story) == (Story {
            min_words_for_nft,
            max_nfts,
            last_update_time: current_time,
            ..*old(story)
        }),
{
    if min_words_for_nft == 0 {
        return Err(TaleForgeError::InvalidWordCount);
    }
    if max_nfts > 100 {
        return Err(TaleForgeError::InvalidNFTLimit);
    }
    story.min_words_for_nft = min_words_for_nft;
    story.max_nfts = max_nfts;
    story.last_update_time = current_time;
    Ok(())
}

/// The platform's part of an abandoned stake: a fifth, rounded down.
pub open spec fn spec_abandoned_platform_share(staked: u64) -> u64 {
    (staked as int * 20 / 100) as u64
}

/// The record of the split of an abandoned stake, where there is a stake.
pub open spec fn spec_abandoned_split(story_key: Pubkey, staked: u64, use_token: bool, now: i64) -> Option<
    StoryAbandoned,
> {
    if staked > 0 {
        Some(
            StoryAbandoned {
                story: story_key,
                staked_amount: staked,
                platform_share: spec_abandoned_platform_share(staked),
                holder_share: (staked - spec_abandoned_platform_share(staked)) as u64,
                use_token,
                timestamp: now,
            },
        )
    } else {
        None
    }
}

/// The split of an abandoned stake.
fn abandoned_split(story_key: Pubkey, staked: u64, use_token: bool, current_time: i64) -> (split:
    Option<StoryAbandoned>)
    ensures
        split == spec_abandoned_split(story_key, staked, use_token, current_time),
{
    if staked > 0 {
        let platform_share: u64 = ((staked as u128 * 20) / 100) as u64;
        Some(
            StoryAbandoned {
                story: story_key,
                staked_amount: staked,
                platform_share,
                holder_share: staked - platform_share,
                use_token,
                timestamp: current_time,
            },
        )
    } else {
        None
    }
}

/// What a check for abandonment hands back: how each stake of an abandoned
/// story is split between the platform and the holders.
#[derive(Clone, Copy, Debug, PartialEq)]
pub struct AbandonmentOutcome {
    /// The split of the stake in SOL, where the story holds one.
    pub split_sol: Option<StoryAbandoned>,
    /// The split of the stake in the token, where the story holds one.
    pub split_token: Option<StoryAbandoned>,
}

impl Story {
    /// Whether the story counts as abandoned at `now`: it is not finished
    /// and has gone more than thirty days without an update.
    pub open spec fn spec_is_abandoned_at(self, now: i64) -> bool {
        !self.is_completed && now - self.last_update_time > 2_592_000
    }

    /// Marks the story as abandoned where it counts as such at
    /// `current_time`, and says how its stakes are then split: a fifth to the
    /// platform, the rest to the holders. A story that does not count as
    /// abandoned stays as it is, and nothing is split.
    pub fn check_abandoned_status(&mut self, story_key: Pubkey, current_time: i64) -> (outcome:
        AbandonmentOutcome)
        ensures
            old(self).spec_is_abandoned_at(current_time) ==> {
                &&& *final(self) == (Story { is_abandoned: true, ..*old(self) })
                &&& outcome.split_sol == spec_abandoned_split(
                    story_key,
                    old(self).staked_earnings_sol,
                    false,
                    current_time,
                )
                &&& outcome.split_token == spec_abandoned_split(
                    story_key,
                    old(self).staked_earnings_token,
                    true,
                    current_time,
                )
            },
            !old(self).spec_is_abandoned_at(current_time) ==> {
                &&& *final(self) == *old(self)
                &&& outcome.split_sol is None
                &&& outcome.split_token is None
            },
    {
        if !self.is_completed && current_time as i128 - self.last_update_time as i128
            > MAX_INACTIVE_DAYS as i128 * 24 * 60 * 60 {
            self.is_abandoned = true;
            AbandonmentOutcome {
                split_sol: abandoned_split(story_key, self.staked_earnings_sol, false, current_time),
                split_token: abandoned_split(
                    story_key,
                    self.staked_earnings_token,
                    true,
                    current_time,
                ),
            }
        } else {
            AbandonmentOutcome { split_sol: None, split_token: None }
        }
    }
}

} // verus!
