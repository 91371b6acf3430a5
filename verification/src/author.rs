//! Authors and their pen names.

use vstd::prelude::*;
use solana_program::pubkey::Pubkey;
use crate::constants::MAX_STORIES_PER_AUTHOR;
use crate::errors::TaleForgeError;
use crate::events::PenNameUpdated;
use crate::keys::{default_key, key_bytes, key_eq, same_key, zero_key_bytes};

verus! {

/// What the platform records about one author.
#[derive(Clone, Debug, PartialEq)]
pub struct Author {
    /// The wallet address of the author.
    pub address: Pubkey,
    pub pen_name: String,
    pub story_count: u32,
    pub total_word_count: u64,
    /// Earnings in lamports.
    pub total_earnings_sol: u64,
    /// Earnings in token units.
    pub total_earnings_token: u64,
    pub total_mining_rewards: u64,
    /// The addresses of the author's stories.
    pub stories: Vec<Pubkey>,
    pub created_at: i64,
    pub last_update: i64,
}

/// The claim of a pen name by an author. A record that nobody has claimed
/// has the unset address as its owner and an empty name.
#[derive(Clone, Debug, PartialEq)]
pub struct PenNameRecord {
    pub pen_name: String,
    pub owner: Pubkey,
    pub created_at: i64,
}

impl Default for PenNameRecord {
    /// A record that nobody has claimed.
    fn default() -> (record: PenNameRecord)
        ensures
            record.spec_is_free(),
            record.created_at == 0,
    {
        PenNameRecord { pen_name: String::new(), owner: default_key(), created_at: 0 }
    }
}

impl PenNameRecord {
    /// Whether nobody has claimed the record.
    pub open spec fn spec_is_free(self) -> bool {
        key_bytes(self.owner) == zero_key_bytes() && self.pen_name@.len() == 0
    }

    /// Whether nobody has claimed the record.
    pub fn is_free(&self) -> (free: bool)
        ensures
            free == self.spec_is_free(),
    {
        let unset: Pubkey = default_key();
        key_eq(&self.owner, &unset) && self.pen_name.as_str().is_empty()
    }
}

/// Whether a pen name has an acceptable length: 1 to 50 bytes.
pub open spec fn spec_valid_pen_name(pen_name: Seq<char>) -> bool {
    1 <= vstd::utf8::encode_utf8(pen_name).len() <= 50
}

/// Whether a pen name has an acceptable length.
pub fn validate_pen_name(pen_name: &str) -> (result: Result<(), TaleForgeError>)
    ensures
        spec_valid_pen_name(pen_name@) ==> result is Ok,
        !spec_valid_pen_name(pen_name@) ==> result == Err::<(), TaleForgeError>(
            TaleForgeError::InvalidPenNameLength,
        ),
{
    let length: usize = pen_name.as_bytes().len();
    if 1 <= length && length <= 50 {
        Ok(())
    } else {
        Err(TaleForgeError::InvalidPenNameLength)
    }
}

/// Whether a pen name can be claimed through a record, and if not, why.
pub open spec fn spec_pen_name_claim(record: PenNameRecord, pen_name: Seq<char>) -> Result<
    (),
    TaleForgeError,
> {
    if !spec_valid_pen_name(pen_name) {
        Err(TaleForgeError::InvalidPenNameLength)
    } else if !record.spec_is_free() {
        Err(TaleForgeError::PenNameAlreadyExists)
    } else {
        Ok(())
    }
}

/// Registers an author under a pen name.
///
/// Rejected with `InvalidPenNameLength` where the name is empty or longer
/// than 50 bytes, and with `PenNameAlreadyExists` where the record of the
/// name has been claimed. A rejected call changes nothing. Registration
/// claims the record for `authority` and returns the author's own record,
/// with no stories and no earnings.
pub fn register_author(
    pen_name_record: &mut PenNameRecord,
    authority: Pubkey,
    pen_name: String,
    current_time: i64,
) -> (result: Result<Author, TaleForgeError>)
    ensures
        match spec_pen_name_claim(*old(pen_name_record), pen_name@) {
            Err(e) => result is Err && result->Err_0 == e && *final(pen_name_record) == *old(
                pen_name_record,
            ),
            Ok(_) => {
                &&& result is Ok
                &&& final(pen_name_record).pen_name@ == pen_name@
                &&& final(pen_name_record).owner == authority
                &&& final(pen_name_record).created_at == current_time
                &&& result->Ok_0.address == authority
                &&& result->Ok_0.pen_name@ == pen_name@
                &&& result->Ok_0.story_count == 0
                &&& result->Ok_0.total_word_count == 0
                &&& result->Ok_0.total_earnings_sol == 0
                &&& result->Ok_0.total_earnings_token == 0
                &&& result->Ok_0.total_mining_rewards == 0
                &&& result->Ok_0.stories@.len() == 0
                &&& result->Ok_0.created_at == current_time
                &&& result->Ok_0.last_update == current_time
            },
        },
{
    match validate_pen_name(pen_name.as_str()) {
        Err(e) => {
            return Err(e);
        },
        Ok(_) => {},
    }
    if !pen_name_record.is_free() {
        return Err(TaleForgeError::PenNameAlreadyExists);
    }
    pen_name_record.pen_name = pen_name.clone();
    pen_name_record.owner = authority;
    pen_name_record.created_at = current_time;
    Ok(
        Author {
            address: authority,
            pen_name,
            story_count: 0,
            total_word_count: 0,
            total_earnings_sol: 0,
            total_earnings_token: 0,
            total_mining_rewards: 0,
            stories: Vec::new(),
            created_at: current_time,
            last_update: current_time,
        },
    )
}

/// Additions to an author's statistics.
#[derive(Clone, Copy, Debug, PartialEq, Eq, Structural)]
pub struct AuthorStatsDelta {
    pub story_count: u64,
    pub word_count: u64,
    pub earnings_token: u64,
    pub earnings_sol: u64,
}

/// Whether additions to an author's statistics are accepted from
/// `authority`, and if not, why.
pub open spec fn spec_stats_update(author: Author, authority: Pubkey, delta: AuthorStatsDelta) -> Result<
    (),
    TaleForgeError,
> {
    if !same_key(author.address, authority) {
        Err(TaleForgeError::InvalidAuthor)
    } else if author.story_count + delta.story_count > u32::MAX {
        Err(TaleForgeError::InvalidAuthorStats)
    } else if author.story_count + delta.story_count > 50 {
        Err(TaleForgeError::MaxStoriesExceeded)
    } else if author.total_word_count + delta.word_count > u64::MAX
        || author.total_earnings_token + delta.earnings_token > u64::MAX
        || author.total_earnings_sol + delta.earnings_sol > u64::MAX {
        Err(TaleForgeError::InvalidAuthorStats)
    } else {
        Ok(())
    }
}

/// Adds to an author's statistics.
///
/// Rejected with `InvalidAuthor` where `authority` is not the author, with
/// `MaxStoriesExceeded` where the author would have more than 50 stories,
/// and with `InvalidAuthorStats` where a sum does not fit in its field. A
/// rejected call changes nothing.
pub fn update_author_stats(
    author: &mut Author,
    authority: Pubkey,
    story_count_delta: u64,
    word_count_delta: u64,
    earnings_token_delta: u64,
    earnings_sol_delta: u64,
    current_time: i64,
) -> (result: Result<(), TaleForgeError>)
    ensures
        result == spec_stats_update(
            *old(author),
            authority,
            AuthorStatsDelta {
                story_count: story_count_delta,
                word_count: word_count_delta,
                earnings_token: earnings_token_delta,
                earnings_sol: earnings_sol_delta,
            },
        ),
        result is Err ==> *final(author) == *old(author),
        result is Ok ==> *final(author) == (Author {
            story_count: (old(author).story_count + story_count_delta) as u32,
            total_word_count: (old(author).total_word_count + word_count_delta) as u64,
            total_earnings_token: (old(author).total_earnings_token + earnings_token_delta) as u64,
            total_earnings_sol: (old(author).total_earnings_sol + earnings_sol_delta) as u64,
            last_update: current_time,
            ..*old(author)
        }),
{
    if !key_eq(&author.address, &authority) {
        return Err(TaleForgeError::InvalidAuthor);
    }
    let new_story_count: u128 = author.story_count as u128 + story_count_delta as u128;
    if new_story_count > u32::MAX as u128 {
        return Err(TaleForgeError::InvalidAuthorStats);
    }
    if new_story_count > MAX_STORIES_PER_AUTHOR as u128 {
        return Err(TaleForgeError::MaxStoriesExceeded);
    }
    let total_word_count: Option<u64> = author.total_word_count.checked_add(word_count_delta);
    let total_earnings_token: Option<u64> = author.total_earnings_token.checked_add(
        earnings_token_delta,
    );
    let total_earnings_sol: Option<u64> = author.total_earnings_sol.checked_add(earnings_sol_delta);
    match (total_word_count, total_earnings_token, total_earnings_sol) {
        (Some(words), Some(token), Some(sol)) => {
            author.story_count = new_story_count as u32;
            author.total_word_count = words;
            author.total_earnings_token = token;
            author.total_earnings_sol = sol;
            author.last_update = current_time;
            Ok(())
        },
        _ => Err(TaleForgeError::InvalidAuthorStats),
    }
}

/// Whether an author can take a new pen name, and if not, why.
pub open spec fn spec_pen_name_change(
    author: Author,
    old_record: PenNameRecord,
    new_record: PenNameRecord,
    authority: Pubkey,
    new_pen_name: Seq<char>,
) -> Result<(), TaleForgeError> {
    if !same_key(author.address, authority) || !same_key(old_record.owner, authority) {
        Err(TaleForgeError::InvalidAuthor)
    } else {
        spec_pen_name_claim(new_record, new_pen_name)
    }
}

/// Gives an author a new pen name.
///
/// Rejected with `InvalidAuthor` where `authority` is not the author or does
/// not own the record of the old name, with `InvalidPenNameLength` where the
/// new name is empty or longer than 50 bytes, and with `PenNameAlreadyExists`
/// where the record of the new name has been claimed. A rejected call changes
/// nothing. The record of the old name is the caller's to give up.
pub fn update_pen_name(
    author: &mut Author,
    author_key: Pubkey,
    old_pen_name_record: &PenNameRecord,
    new_pen_name_record: &mut PenNameRecord,
    authority: Pubkey,
    new_pen_name: String,
    current_time: i64,
) -> (result: Result<PenNameUpdated, TaleForgeError>)
    ensures
        match spec_pen_name_change(
            *old(author),
            *old_pen_name_record,
            *old(new_pen_name_record),
            authority,
            new_pen_name@,
        ) {
            Err(e) => {
                &&& result is Err
                &&& result->Err_0 == e
                &&& *final(author) == *old(author)
                &&& *final(new_pen_name_record) == *old(new_pen_name_record)
            },
            Ok(_) => {
                &&& result is Ok
                &&& final(new_pen_name_record).pen_name@ == new_pen_name@
                &&& final(new_pen_name_record).owner == authority
                &&& final(new_pen_name_record).created_at == current_time
                &&& final(author).pen_name@ == new_pen_name@
                &&& *final(author) == (Author {
                    pen_name: final(author).pen_name,
                    last_update: current_time,
                    ..*old(author)
                })
                &&& result->Ok_0.author == author_key
                &&& result->Ok_0.old_pen_name@ == old(author).pen_name@
                &&& result->Ok_0.new_pen_name@ == new_pen_name@
                &&& result->Ok_0.timestamp == current_time
            },
        },
{
    if !key_eq(&author.address, &authority) {
        return Err(TaleForgeError::InvalidAuthor);
    }
    if !key_eq(&old_pen_name_record.owner, &authority) {
        return Err(TaleForgeError::InvalidAuthor);
    }
    match validate_pen_name(new_pen_name.as_str()) {
        Err(e) => {
            return Err(e);
        },
        Ok(_) => {},
    }
    if !new_pen_name_record.is_free() {
        return Err(TaleForgeError::PenNameAlreadyExists);
    }
    let old_pen_name: String = author.pen_name.clone();
    new_pen_name_record.pen_name = new_pen_name.clone();
    new_pen_name_record.owner = authority;
    new_pen_name_record.created_at = current_time;
    author.pen_name = new_pen_name.clone();
    author.last_update = current_time;
    Ok(PenNameUpdated { author: author_key, old_pen_name, new_pen_name, timestamp: current_time })
}

} // verus!
