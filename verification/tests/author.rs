use solana_program::pubkey::Pubkey;
use tale_forge::author::{
    register_author, update_author_stats, update_pen_name, validate_pen_name, Author,
    PenNameRecord,
};
use tale_forge::errors::TaleForgeError;

const NOW: i64 = 1_700_000_000;

fn author_key(tag: u8) -> Pubkey {
    Pubkey::new_from_array([tag; 32])
}

fn registered(tag: u8, pen_name: &str) -> (Author, PenNameRecord) {
    let mut record = PenNameRecord::default();
    let author = register_author(&mut record, author_key(tag), String::from(pen_name), NOW).unwrap();
    (author, record)
}

#[test]
fn unclaimed_record_is_free() {
    let record = PenNameRecord::default();
    assert!(record.is_free());
    assert_eq!(record.owner, Pubkey::default());
    assert_eq!(record.pen_name, "");
    assert!(!PenNameRecord { owner: author_key(1), ..PenNameRecord::default() }.is_free());
    assert!(!PenNameRecord { pen_name: String::from("x"), ..PenNameRecord::default() }.is_free());
}

#[test]
fn pen_names_are_one_to_fifty_bytes() {
    assert_eq!(validate_pen_name(""), Err(TaleForgeError::InvalidPenNameLength));
    assert_eq!(validate_pen_name("q"), Ok(()));
    assert_eq!(validate_pen_name(&"q".repeat(50)), Ok(()));
    assert_eq!(validate_pen_name(&"q".repeat(51)), Err(TaleForgeError::InvalidPenNameLength));
}

#[test]
fn registration_claims_the_pen_name() {
    let (author, record) = registered(7, "quill");
    assert_eq!(
        record,
        PenNameRecord { pen_name: String::from("quill"), owner: author_key(7), created_at: NOW }
    );
    assert_eq!(
        author,
        Author {
            address: author_key(7),
            pen_name: String::from("quill"),
            story_count: 0,
            total_word_count: 0,
            total_earnings_sol: 0,
            total_earnings_token: 0,
            total_mining_rewards: 0,
            stories: Vec::new(),
            created_at: NOW,
            last_update: NOW,
        }
    );
}

#[test]
fn registration_is_rejected_for_a_taken_or_unfit_name() {
    let (_, mut record) = registered(7, "quill");
    let taken = record.clone();
    assert_eq!(
        register_author(&mut record, author_key(8), String::from("quill"), NOW + 1).unwrap_err(),
        TaleForgeError::PenNameAlreadyExists
    );
    assert_eq!(record, taken);
    let mut free = PenNameRecord::default();
    assert_eq!(
        register_author(&mut free, author_key(8), String::new(), NOW).unwrap_err(),
        TaleForgeError::InvalidPenNameLength
    );
    assert_eq!(
        register_author(&mut record, author_key(8), "q".repeat(51), NOW).unwrap_err(),
        TaleForgeError::InvalidPenNameLength
    );
    assert_eq!(free, PenNameRecord::default());
}

#[test]
fn statistics_add_up() {
    let (mut author, _) = registered(7, "quill");
    assert_eq!(update_author_stats(&mut author, author_key(7), 2, 300, 40, 5, NOW + 9), Ok(()));
    assert_eq!(update_author_stats(&mut author, author_key(7), 48, 1, 1, 1, NOW + 10), Ok(()));
    assert_eq!(author.story_count, 50);
    assert_eq!(author.total_word_count, 301);
    assert_eq!(author.total_earnings_token, 41);
    assert_eq!(author.total_earnings_sol, 6);
    assert_eq!(author.last_update, NOW + 10);
}

#[test]
fn statistics_are_bounded() {
    let (mut author, _) = registered(7, "quill");
    author.story_count = 50;
    let before = author.clone();
    assert_eq!(
        update_author_stats(&mut author, author_key(7), 1, 0, 0, 0, NOW),
        Err(TaleForgeError::MaxStoriesExceeded)
    );
    assert_eq!(
        update_author_stats(&mut author, author_key(7), u64::MAX, 0, 0, 0, NOW),
        Err(TaleForgeError::InvalidAuthorStats)
    );
    assert_eq!(
        update_author_stats(&mut author, author_key(7), 1 << 32, 0, 0, 0, NOW),
        Err(TaleForgeError::InvalidAuthorStats)
    );
    assert_eq!(
        update_author_stats(&mut author, author_key(8), 0, 0, 0, 0, NOW),
        Err(TaleForgeError::InvalidAuthor)
    );
    author.total_earnings_sol = u64::MAX;
    let full = author.clone();
    assert_eq!(
        update_author_stats(&mut author, author_key(7), 0, 5, 5, 1, NOW),
        Err(TaleForgeError::InvalidAuthorStats)
    );
    assert_eq!(author, full);
    assert_eq!(Author { total_earnings_sol: 0, ..author }, before);
}

#[test]
fn pen_name_change_claims_the_new_name() {
    let (mut author, old_record) = registered(7, "quill");
    let before = author.clone();
    let mut new_record = PenNameRecord::default();
    let event = update_pen_name(
        &mut author,
        author_key(70),
        &old_record,
        &mut new_record,
        author_key(7),
        String::from("feather"),
        NOW + 100,
    )
    .unwrap();
    assert_eq!(event.author, author_key(70));
    assert_eq!(event.old_pen_name, "quill");
    assert_eq!(event.new_pen_name, "feather");
    assert_eq!(event.timestamp, NOW + 100);
    assert_eq!(
        new_record,
        PenNameRecord { pen_name: String::from("feather"), owner: author_key(7), created_at: NOW + 100 }
    );
    assert_eq!(
        author,
        Author { pen_name: String::from("feather"), last_update: NOW + 100, ..before }
    );
}

#[test]
fn pen_name_change_is_rejected_for_others_and_for_taken_names() {
    let (mut author, old_record) = registered(7, "quill");
    let (_, mut taken) = registered(8, "feather");
    let before = (author.clone(), taken.clone());
    let mut change = |author: &mut Author, record: &mut PenNameRecord, who: u8, name: &str| {
        update_pen_name(author, author_key(70), &old_record, record, author_key(who), String::from(name), NOW)
            .map(|_| ())
    };
    assert_eq!(change(&mut author, &mut taken, 7, "feather"), Err(TaleForgeError::PenNameAlreadyExists));
    assert_eq!(change(&mut author, &mut taken, 8, "feather"), Err(TaleForgeError::InvalidAuthor));
    assert_eq!(change(&mut author, &mut taken, 7, ""), Err(TaleForgeError::InvalidPenNameLength));
    assert_eq!((author.clone(), taken.clone()), before);
    // The record of the old name must be the author's own.
    let someone_elses = PenNameRecord { owner: author_key(9), ..PenNameRecord::default() };
    let mut free = PenNameRecord::default();
    assert_eq!(
        update_pen_name(
            &mut author,
            author_key(70),
            &someone_elses,
            &mut free,
            author_key(7),
            String::from("ink"),
            NOW
        )
        .unwrap_err(),
        TaleForgeError::InvalidAuthor
    );
    assert_eq!(free, PenNameRecord::default());
}
