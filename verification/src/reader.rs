//! Readers: daily check-ins, the lottery weight that activity earns, and
//! who may enter a lottery.

use vstd::prelude::*;
use vstd::relations::{sorted_by, total_ordering};
use vstd::seq_lib::lemma_sorted_unique;
use solana_program::pubkey::Pubkey;
use crate::constants::{DAY_IN_SECONDS, LOTTERY_PERIOD_SECONDS, MIN_ACTIVE_DAYS_FOR_LOTTERY};
use crate::errors::TaleForgeError;
use crate::indices::{holds_indices, lemma_holds_indices, to_ints};
use crate::keys::{default_key, key_bytes, zero_key_bytes};

verus! {

/// What the platform records about one reader.
#[derive(Clone, Copy, Debug, PartialEq)]
pub struct ReaderActivity {
    /// The reader's address.
    pub reader: Pubkey,
    /// Times of the most recent check-ins, oldest first; unused slots hold 0.
    pub daily_check_ins: [i64; 30],
    /// Number of slots of `daily_check_ins` in use.
    pub check_in_count: u8,
    /// Time of the latest check-in.
    pub last_check_in: i64,
    /// Days on which the reader checked in.
    pub monthly_active_days: u8,
    /// Lottery weight as of the latest check-in.
    pub lottery_weight: u32,
    /// Comments the reader wrote.
    pub comment_count: u32,
    /// Likes the reader gave.
    pub like_count: u32,
}

/// The calendar day of a timestamp: whole days since the epoch, rounded
/// toward zero.
pub open spec fn spec_day_index(t: i64) -> int {
    if t >= 0 {
        t as int / 86_400
    } else {
        -((-(t as int)) / 86_400)
    }
}

/// The calendar day of a timestamp.
pub fn day_index(t: i64) -> (day: i64)
    ensures
        day == spec_day_index(t),
{
    t / DAY_IN_SECONDS
}

/// Whether two timestamps fall on the same calendar day.
pub fn is_same_day(timestamp1: i64, timestamp2: i64) -> (same: bool)
    ensures
        same == (spec_day_index(timestamp1) == spec_day_index(timestamp2)),
{
    day_index(timestamp1) == day_index(timestamp2)
}

/// The order in which check-in times are sorted.
pub open spec fn time_leq() -> spec_fn(i64, i64) -> bool {
    |a: i64, b: i64| a <= b
}

/// `<[i64]>::sort_unstable` on a reader's check-in times. The standard library
/// documents that it sorts the slice in ascending order and may reorder equal
/// elements: the result is ascending and holds the same times as before.
#[verifier::external_body]
fn sort_check_ins(times: &mut Vec<i64>)
    ensures
        sorted_by(final(times)@, time_leq()),
        final(times)@.to_multiset() == old(times)@.to_multiset(),
{
    times.sort_unstable();
}

/// The check-ins that a ring holds: the times in its first `count` slots, or
/// in all thirty where the count says more. The slots behind them are unused
/// and hold no check-in.
pub open spec fn spec_check_ins_made(slots: Seq<i64>, count: u8) -> Seq<i64> {
    slots.take(
        if count < 30 {
            count as int
        } else {
            30
        },
    )
}

/// The length of the run of consecutive days that ends at the last of the
/// given times, which are in ascending order. The first time starts a run of
/// one day. A time on the day after the time before it extends the run, a
/// time on the same day leaves it as it is, and a time on any other day
/// starts a new run of one day. With no times there is no run.
pub open spec fn spec_run_length(times: Seq<i64>) -> int
    decreases times.len(),
{
    if times.len() == 0 {
        0
    } else if times.len() == 1 {
        1
    } else {
        let day = spec_day_index(times.last());
        let day_before = spec_day_index(times[times.len() - 2]);
        if day == day_before + 1 {
            spec_run_length(times.drop_last()) + 1
        } else if day == day_before {
            spec_run_length(times.drop_last())
        } else {
            1
        }
    }
}

/// The length of the run of consecutive check-in days that ends at the latest
/// of the given check-ins, whatever order they are given in.
pub open spec fn spec_consecutive_days(check_ins: Seq<i64>) -> int {
    spec_run_length(check_ins.sort_by(time_leq()))
}

/// A run has at least one day where there is a time, and never more days
/// than there are times.
pub proof fn lemma_run_length_bounds(times: Seq<i64>)
    ensures
        0 <= spec_run_length(times) <= times.len(),
        times.len() > 0 ==> spec_run_length(times) >= 1,
    decreases times.len(),
{
    if times.len() > 1 {
        lemma_run_length_bounds(times.drop_last());
    }
}

/// The run of consecutive days has at least one day where there is a
/// check-in, and never more days than there are check-ins.
pub proof fn lemma_consecutive_days_bounds(check_ins: Seq<i64>)
    ensures
        0 <= spec_consecutive_days(check_ins) <= check_ins.len(),
        check_ins.len() > 0 ==> spec_consecutive_days(check_ins) >= 1,
{
    let sorted = check_ins.sort_by(time_leq());
    lemma_time_leq_total();
    check_ins.lemma_sort_by_ensures(time_leq());
    check_ins.to_multiset_ensures();
    sorted.to_multiset_ensures();
    lemma_run_length_bounds(sorted);
}

/// Check-ins that are given in ascending order are walked as they are given.
pub proof fn lemma_consecutive_days_of_sorted(check_ins: Seq<i64>)
    requires
        sorted_by(check_ins, time_leq()),
    ensures
        spec_consecutive_days(check_ins) == spec_run_length(check_ins),
{
    lemma_time_leq_total();
    check_ins.lemma_sort_by_ensures(time_leq());
    lemma_sorted_unique(check_ins, check_ins.sort_by(time_leq()), time_leq());
}

/// `<=` on times is a total order.
pub proof fn lemma_time_leq_total()
    ensures
        total_ordering(time_leq()),
{
    let leq = time_leq();
    assert forall|x: i64, y: i64| #[trigger] leq(x, y) || #[trigger] leq(y, x) by {}
}

/// The length of the run of consecutive check-in days that ends at the
/// reader's latest check-in: the check-ins in the ring are sorted, and the
/// days are counted back from the last for as long as no day is missing.
/// Unused slots of the ring are no check-ins and count for nothing; a reader
/// who has not checked in has a run of no days.
pub fn get_consecutive_days(activity: &ReaderActivity) -> (days: u32)
    ensures
        days == spec_consecutive_days(
            spec_check_ins_made(activity.daily_check_ins@, activity.check_in_count),
        ),
        days <= activity.check_in_count,
        days <= 30,
        activity.check_in_count > 0 ==> days >= 1,
{
    let made: usize = if activity.check_in_count < 30 {
        activity.check_in_count as usize
    } else {
        30
    };
    let ghost unsorted = spec_check_ins_made(activity.daily_check_ins@, activity.check_in_count);
    let mut check_ins: Vec<i64> = Vec::new();
    let mut k: usize = 0;
    while k < made
        invariant
            k <= made <= 30,
            activity.daily_check_ins@.len() == 30,
            check_ins@ == activity.daily_check_ins@.take(k as int),
        decreases made - k,
    {
        check_ins.push(activity.daily_check_ins[k]);
        proof {
            assert(check_ins@ =~= activity.daily_check_ins@.take(k as int + 1));
        }
        k = k + 1;
    }
    sort_check_ins(&mut check_ins);
    proof {
        lemma_time_leq_total();
        unsorted.lemma_sort_by_ensures(time_leq());
        lemma_sorted_unique(check_ins@, unsorted.sort_by(time_leq()), time_leq());
        unsorted.to_multiset_ensures();
        check_ins@.to_multiset_ensures();
        lemma_run_length_bounds(check_ins@);
    }
    let mut consecutive_days: u32 = 0;
    let mut last_day: i64 = 0;
    let mut i: usize = 0;
    while i < check_ins.len()
        invariant
            i <= check_ins.len() <= 30,
            consecutive_days == spec_run_length(check_ins@.take(i as int)),
            consecutive_days <= i,
            i > 0 ==> last_day == spec_day_index(check_ins@[i - 1]),
        decreases check_ins.len() - i,
    {
        let current_day: i64 = day_index(check_ins[i]);
        proof {
            let next = check_ins@.take(i as int + 1);
            assert(next.drop_last() =~= check_ins@.take(i as int));
            assert(next.last() == check_ins@[i as int]);
            if i > 0 {
                assert(next[next.len() - 2] == check_ins@[i - 1]);
            }
        }
        if i == 0 || (current_day != last_day && current_day as i128 != last_day as i128 + 1) {
            consecutive_days = 1;
        } else if current_day != last_day {
            consecutive_days = consecutive_days + 1;
        }
        last_day = current_day;
        i = i + 1;
    }
    proof {
        assert(check_ins@.take(check_ins.len() as int) =~= check_ins@);
    }
    consecutive_days
}

/// A lottery weight from its parts: a base of 100, 20 for each active day,
/// 50 for each day of the current run of the check-ins made, 10 for each
/// comment and 5 for each like.
pub open spec fn spec_weight_of(active_days: int, check_ins: Seq<i64>, comments: int, likes: int) -> int {
    100 + active_days * 20 + spec_consecutive_days(check_ins) * 50 + comments * 10 + likes * 5
}

/// A reader's lottery weight.
pub open spec fn spec_reader_weight(activity: ReaderActivity) -> int {
    spec_weight_of(
        activity.monthly_active_days as int,
        spec_check_ins_made(activity.daily_check_ins@, activity.check_in_count),
        activity.comment_count as int,
        activity.like_count as int,
    )
}

/// A reader's lottery weight, or `ArithmeticOverflow` where it does not fit
/// in 32 bits.
pub fn calculate_reader_weight(activity: &ReaderActivity) -> (result: Result<u32, TaleForgeError>)
    ensures
        spec_reader_weight(*activity) >= 100,
        match result {
            Ok(weight) => weight == spec_reader_weight(*activity),
            Err(e) => e == TaleForgeError::ArithmeticOverflow && spec_reader_weight(*activity)
                > u32::MAX,
        },
{
    let base_weight: u64 = 100;
    let daily_bonus: u64 = activity.monthly_active_days as u64 * 20;
    let consecutive_bonus: u64 = get_consecutive_days(activity) as u64 * 50;
    let interaction_bonus: u64 = activity.comment_count as u64 * 10 + activity.like_count as u64
        * 5;
    let weight: u64 = base_weight + daily_bonus + consecutive_bonus + interaction_bonus;
    if weight > u32::MAX as u64 {
        Err(TaleForgeError::ArithmeticOverflow)
    } else {
        Ok(weight as u32)
    }
}

/// The check-in ring after one more check-in: the next free slot takes the
/// time; a full ring drops its oldest time and takes the new one last.
pub open spec fn spec_ring_push(slots: Seq<i64>, count: u8, now: i64) -> Seq<i64> {
    if count < 30 {
        slots.update(count as int, now)
    } else {
        slots.subrange(1, 30).push(now)
    }
}

/// The number of slots in use after one more check-in.
pub open spec fn spec_count_after(count: u8) -> u8 {
    if count < 30 {
        (count + 1) as u8
    } else {
        count
    }
}

/// Whether a check-in at `now` is accepted, and if not, why.
pub open spec fn spec_check_in_result(activity: ReaderActivity, now: i64) -> Result<
    (),
    TaleForgeError,
> {
    if spec_day_index(activity.last_check_in) == spec_day_index(now) {
        Err(TaleForgeError::AlreadyCheckedIn)
    } else if activity.monthly_active_days == 255 || spec_weight_of(
        activity.monthly_active_days + 1,
        spec_check_ins_made(
            spec_ring_push(activity.daily_check_ins@, activity.check_in_count, now),
            spec_count_after(activity.check_in_count),
        ),
        activity.comment_count as int,
        activity.like_count as int,
    ) > u32::MAX {
        Err(TaleForgeError::ArithmeticOverflow)
    } else {
        Ok(())
    }
}

/// Records a reader's check-in at `current_time`.
///
/// A second check-in on the same calendar day is rejected. An accepted one
/// enters the ring, counts as one more active day, and renews the reader's
/// lottery weight.
pub fn reader_check_in(activity: &mut ReaderActivity, current_time: i64) -> (result: Result<
    (),
    TaleForgeError,
>)
    ensures
        result == spec_check_in_result(*old(activity), current_time),
        result is Err ==> *final(activity) == *old(activity),
        result is Ok ==> {
            &&& final(activity).reader == old(activity).reader
            &&& final(activity).daily_check_ins@ == spec_ring_push(
                old(activity).daily_check_ins@,
                old(activity).check_in_count,
                current_time,
            )
            &&& final(activity).check_in_count == spec_count_after(old(activity).check_in_count)
            &&& final(activity).last_check_in == current_time
            &&& final(activity).monthly_active_days == old(activity).monthly_active_days + 1
            &&& final(activity).lottery_weight == spec_reader_weight(*final(activity))
            &&& final(activity).comment_count == old(activity).comment_count
            &&& final(activity).like_count == old(activity).like_count
        },
{
    if is_same_day(activity.last_check_in, current_time) {
        return Err(TaleForgeError::AlreadyCheckedIn);
    }
    if activity.monthly_active_days == u8::MAX {
        return Err(TaleForgeError::ArithmeticOverflow);
    }
    let mut updated: ReaderActivity = *activity;
    let mut slots: [i64; 30] = activity.daily_check_ins;
    if activity.check_in_count < 30 {
        let check_in_index: usize = activity.check_in_count as usize;
        slots[check_in_index] = current_time;
        updated.check_in_count = activity.check_in_count + 1;
    } else {
        let mut i: usize = 1;
        while i < 30
            invariant
                1 <= i <= 30,
                slots@.len() == 30,
                activity.daily_check_ins@.len() == 30,
                forall|j: int| 0 <= j < i - 1 ==> slots@[j] == activity.daily_check_ins@[j + 1],
                forall|j: int| i - 1 <= j < 30 ==> slots@[j] == activity.daily_check_ins@[j],
            decreases 30 - i,
        {
            slots[i - 1] = slots[i];
            i = i + 1;
        }
        slots[29] = current_time;
    }
    assert(slots@ =~= spec_ring_push(
        activity.daily_check_ins@,
        activity.check_in_count,
        current_time,
    ));
    updated.daily_check_ins = slots;
    updated.last_check_in = current_time;
    updated.monthly_active_days = activity.monthly_active_days + 1;
    match calculate_reader_weight(&updated) {
        Ok(weight) => {
            updated.lottery_weight = weight;
            *activity = updated;
            Ok(())
        },
        Err(e) => Err(e),
    }
}

/// Whether a reader may enter a lottery held at `now`: at least seven active
/// days, a check-in within the last thirty days, and a comment or a like.
pub open spec fn spec_is_eligible(activity: ReaderActivity, now: i64) -> bool {
    &&& activity.monthly_active_days >= 7
    &&& activity.last_check_in > now - 2_592_000
    &&& (activity.comment_count > 0 || activity.like_count > 0)
}

/// Whether a reader may enter a lottery held at `current_time`.
pub fn is_eligible(activity: &ReaderActivity, current_time: i64) -> (eligible: bool)
    ensures
        eligible == spec_is_eligible(*activity, current_time),
{
    activity.monthly_active_days >= MIN_ACTIVE_DAYS_FOR_LOTTERY
        && activity.last_check_in as i128 > current_time as i128 - LOTTERY_PERIOD_SECONDS as i128
        && (activity.comment_count > 0 || activity.like_count > 0)
}

/// The positions of the eligible readers, in ascending order.
pub open spec fn spec_eligible_indices(readers: Seq<ReaderActivity>, now: i64) -> Seq<int>
    decreases readers.len(),
{
    if readers.len() == 0 {
        Seq::empty()
    } else {
        let rest = spec_eligible_indices(readers.drop_last(), now);
        if spec_is_eligible(readers.last(), now) {
            rest.push(readers.len() - 1)
        } else {
            rest
        }
    }
}

/// Eligible positions are valid, ascending, and exactly those of the
/// eligible readers.
pub proof fn lemma_eligible_indices(readers: Seq<ReaderActivity>, now: i64)
    ensures
        spec_eligible_indices(readers, now).len() <= readers.len(),
        forall|k: int|
            0 <= k < spec_eligible_indices(readers, now).len() ==> {
                let i = #[trigger] spec_eligible_indices(readers, now)[k];
                0 <= i < readers.len() && spec_is_eligible(readers[i], now)
            },
        forall|k: int, l: int|
            0 <= k < l < spec_eligible_indices(readers, now).len() ==> spec_eligible_indices(
                readers,
                now,
            )[k] < spec_eligible_indices(readers, now)[l],
        forall|i: int|
            0 <= i < readers.len() && spec_is_eligible(#[trigger] readers[i], now)
                ==> spec_eligible_indices(readers, now).contains(i),
    decreases readers.len(),
{
    if readers.len() > 0 {
        let front = readers.drop_last();
        lemma_eligible_indices(front, now);
        let rest = spec_eligible_indices(front, now);
        let all = spec_eligible_indices(readers, now);
        assert forall|i: int|
            0 <= i < readers.len() && spec_is_eligible(#[trigger] readers[i], now) implies all.contains(
            i,
        ) by {
            if i < readers.len() - 1 {
                assert(front[i] == readers[i]);
                let k = choose|k: int| 0 <= k < rest.len() && rest[k] == i;
                assert(all[k] == i);
            } else {
                assert(all[all.len() - 1] == i);
            }
        }
    }
}

/// The positions in `readers` of those who may enter a lottery held at
/// `current_time`, in ascending order.
pub fn eligible_reader_indices(readers: &Vec<ReaderActivity>, current_time: i64) -> (indices: Vec<
    usize,
>)
    ensures
        to_ints(indices@) == spec_eligible_indices(readers@, current_time),
{
    let mut indices: Vec<usize> = Vec::new();
    let mut i: usize = 0;
    while i < readers.len()
        invariant
            i <= readers.len(),
            holds_indices(indices@, spec_eligible_indices(readers@.take(i as int), current_time)),
        decreases readers.len() - i,
    {
        proof {
            let next = readers@.take(i as int + 1);
            assert(next.drop_last() =~= readers@.take(i as int));
        }
        if is_eligible(&readers[i], current_time) {
            indices.push(i);
        }
        i = i + 1;
    }
    proof {
        assert(readers@.take(readers.len() as int) =~= readers@);
        lemma_holds_indices(indices@, spec_eligible_indices(readers@, current_time));
    }
    indices
}

/// The addresses of the readers at the given positions.
pub open spec fn spec_reader_keys(readers: Seq<ReaderActivity>, indices: Seq<int>) -> Seq<Pubkey> {
    Seq::new(indices.len(), |k: int| readers[indices[k]].reader)
}

/// The addresses of the readers who may enter a lottery held at
/// `current_time`, in the order of `readers`.
pub fn get_eligible_readers(readers: &Vec<ReaderActivity>, current_time: i64) -> (keys: Vec<Pubkey>)
    ensures
        keys@ == spec_reader_keys(readers@, spec_eligible_indices(readers@, current_time)),
{
    let indices: Vec<usize> = eligible_reader_indices(readers, current_time);
    proof {
        lemma_eligible_indices(readers@, current_time);
        let eligible = spec_eligible_indices(readers@, current_time);
        assert forall|k: int| 0 <= k < indices.len() implies indices[k] < readers.len() by {
            assert(to_ints(indices@)[k] == eligible[k]);
        }
    }
    reader_keys(readers, &indices)
}

/// The addresses of the readers at the given positions.
fn reader_keys(readers: &Vec<ReaderActivity>, indices: &Vec<usize>) -> (keys: Vec<Pubkey>)
    requires
        forall|k: int| 0 <= k < indices.len() ==> indices[k] < readers.len(),
    ensures
        keys@.len() == indices.len(),
        forall|k: int| 0 <= k < indices.len() ==> keys[k] == readers[indices[k] as int].reader,
        keys@ == spec_reader_keys(readers@, to_ints(indices@)),
{
    let mut keys: Vec<Pubkey> = Vec::new();
    let mut k: usize = 0;
    while k < indices.len()
        invariant
            k <= indices.len(),
            keys@.len() == k,
            forall|j: int| 0 <= j < indices.len() ==> indices[j] < readers.len(),
            forall|j: int| 0 <= j < k ==> keys[j] == readers[indices[j] as int].reader,
        decreases indices.len() - k,
    {
        keys.push(readers[indices[k]].reader);
        k = k + 1;
    }
    keys
}

impl Default for ReaderActivity {
    /// A reader who has not checked in yet, with the unset address.
    fn default() -> (activity: ReaderActivity)
        ensures
            key_bytes(activity.reader) == zero_key_bytes(),
            activity.daily_check_ins@ == Seq::new(30, |i: int| 0i64),
            activity.check_in_count == 0,
            activity.last_check_in == 0,
            activity.monthly_active_days == 0,
            activity.lottery_weight == 0,
            activity.comment_count == 0,
            activity.like_count == 0,
    {
        let slots: [i64; 30] = [0; 30];
        ReaderActivity {
            reader: default_key(),
            daily_check_ins: slots,
            check_in_count: 0,
            last_check_in: 0,
            monthly_active_days: 0,
            lottery_weight: 0,
            comment_count: 0,
            like_count: 0,
        }
    }
}

} // verus!
