//! The draw of the lottery: the number that a time and a seed give, and the
//! weighted draw of winners without replacement that goes by it.

use vstd::prelude::*;
use crate::indices::{holds_indices, lemma_holds_indices, to_ints};

verus! {

/// The `n` low bytes of a natural number, least significant first.
pub open spec fn spec_le_bytes(v: nat, n: nat) -> Seq<u8>
    decreases n,
{
    if n == 0 {
        Seq::empty()
    } else {
        seq![(v % 256) as u8] + spec_le_bytes(v / 256, (n - 1) as nat)
    }
}

/// A timestamp as an unsigned 64-bit number in two's complement.
pub open spec fn spec_time_bits(t: i64) -> nat {
    if t >= 0 {
        t as nat
    } else {
        (t + 0x1_0000_0000_0000_0000) as nat
    }
}

/// The seed of a draw: the bytes of the time, of the total weight and of the
/// requested number of winners, each least significant byte first.
pub open spec fn spec_lottery_seed(now: i64, total_weight: u32, winner_count: u32) -> Seq<u8> {
    spec_le_bytes(spec_time_bits(now), 8) + spec_le_bytes(total_weight as nat, 4) + spec_le_bytes(
        winner_count as nat,
        4,
    )
}

/// Appends the `n` low bytes of `value` to `out`, least significant first.
fn push_le_bytes(out: &mut Vec<u8>, value: u64, n: usize)
    ensures
        final(out)@ == old(out)@ + spec_le_bytes(value as nat, n as nat),
{
    let mut rest: u64 = value;
    let mut k: usize = 0;
    while k < n
        invariant
            k <= n,
            out@ + spec_le_bytes(rest as nat, (n - k) as nat) == old(out)@ + spec_le_bytes(
                value as nat,
                n as nat,
            ),
        decreases n - k,
    {
        out.push((rest % 256) as u8);
        rest = rest / 256;
        k = k + 1;
    }
}

/// The seed of a draw held at `current_time` over `total_weight` for
/// `winner_count` winners.
pub fn lottery_seed(current_time: i64, total_weight: u32, winner_count: u32) -> (seed: Vec<u8>)
    ensures
        seed@ == spec_lottery_seed(current_time, total_weight, winner_count),
{
    let time_bits: u64 = if current_time >= 0 {
        current_time as u64
    } else {
        (current_time as i128 + 0x1_0000_0000_0000_0000i128) as u64
    };
    let mut seed: Vec<u8> = Vec::new();
    push_le_bytes(&mut seed, time_bits, 8);
    push_le_bytes(&mut seed, total_weight as u64, 4);
    push_le_bytes(&mut seed, winner_count as u64, 4);
    seed
}

/// The low 32 bits of a timestamp.
pub open spec fn spec_low_bits(t: i64) -> u32 {
    (t as int % 0x1_0000_0000) as u32
}

/// One round of mixing: multiply by 31 and add the byte, in 32 bits.
pub open spec fn spec_mix_step(h: u32, byte: u8) -> u32 {
    ((h * 31 + byte) % 0x1_0000_0000) as u32
}

/// The state after mixing the seed into `h`, byte by byte from the front.
pub open spec fn spec_mix(h: u32, seed: Seq<u8>) -> u32
    decreases seed.len(),
{
    if seed.len() == 0 {
        h
    } else {
        spec_mix_step(spec_mix(h, seed.drop_last()), seed.last())
    }
}

/// The number below `max` that a seed and a timestamp give: the low bits of
/// the timestamp, with the seed mixed in, reduced modulo `max`.
pub open spec fn spec_pseudo_random(seed: Seq<u8>, timestamp: i64, max: u32) -> int {
    spec_mix(spec_low_bits(timestamp), seed) as int % max as int
}

/// A number below `max` computed from a seed and a timestamp. The same
/// arguments always give the same number; it is not fit for use where an
/// outcome must be unpredictable.
pub fn generate_pseudo_random(seed: &[u8], timestamp: i64, max: u32) -> (value: u32)
    requires
        max > 0,
    ensures
        value == spec_pseudo_random(seed@, timestamp, max),
        value < max,
{
    let low: i64 = timestamp % 4_294_967_296;
    let mut result: u32 = if low < 0 {
        (low + 4_294_967_296) as u32
    } else {
        low as u32
    };
    let mut i: usize = 0;
    while i < seed.len()
        invariant
            i <= seed.len(),
            result == spec_mix(spec_low_bits(timestamp), seed@.take(i as int)),
        decreases seed.len() - i,
    {
        proof {
            assert(seed@.take(i as int + 1).drop_last() =~= seed@.take(i as int));
        }
        let mixed: u64 = (result as u64 * 31 + seed[i] as u64) % 4_294_967_296;
        result = mixed as u32;
        i = i + 1;
    }
    proof {
        assert(seed@.take(seed.len() as int) =~= seed@);
    }
    result % max
}

/// The weight of the positions below `n` that have not been picked.
pub open spec fn spec_unused_weight(weights: Seq<int>, used: Seq<bool>, n: int) -> int
    decreases n,
{
    if n <= 0 {
        0
    } else {
        spec_unused_weight(weights, used, n - 1) + if used[n - 1] {
            0
        } else {
            weights[n - 1]
        }
    }
}

/// The number of positions below `n` that have not been picked.
pub open spec fn spec_unused_count(used: Seq<bool>, n: int) -> int
    decreases n,
{
    if n <= 0 {
        0
    } else {
        spec_unused_count(used, n - 1) + if used[n - 1] {
            0int
        } else {
            1int
        }
    }
}

/// The number that a draw of `r` goes by when the positions not picked yet
/// weigh `remaining` together: `r` itself while it is within that weight,
/// and else its remainder modulo that weight.
pub open spec fn spec_reduced(r: int, remaining: int) -> int {
    if r <= remaining {
        r
    } else if remaining <= 0 {
        0
    } else {
        r % remaining
    }
}

/// The first position from `start` on that is not picked yet and at which the
/// weights of the unpicked positions passed, added to `acc`, reach `r`; the
/// number of positions where there is none.
pub open spec fn spec_pick_from(weights: Seq<int>, used: Seq<bool>, r: int, start: int, acc: int) -> int
    decreases weights.len() - start,
{
    if start < 0 || start >= weights.len() {
        weights.len() as int
    } else if used[start] {
        spec_pick_from(weights, used, r, start + 1, acc)
    } else if acc + weights[start] >= r {
        start
    } else {
        spec_pick_from(weights, used, r, start + 1, acc + weights[start])
    }
}

/// The position that one draw of `r` picks among those not picked yet.
pub open spec fn spec_pick(weights: Seq<int>, used: Seq<bool>, r: int) -> int {
    spec_pick_from(
        weights,
        used,
        spec_reduced(r, spec_unused_weight(weights, used, weights.len() as int)),
        0,
        0,
    )
}

/// The positions picked by `count` draws of the same `r`, each among the
/// positions that no earlier draw picked; fewer where the positions run out.
pub open spec fn spec_draw(weights: Seq<int>, used: Seq<bool>, r: int, count: nat) -> Seq<int>
    decreases count,
{
    if count == 0 {
        Seq::empty()
    } else {
        let i = spec_pick(weights, used, r);
        if i >= weights.len() {
            Seq::empty()
        } else {
            seq![i] + spec_draw(weights, used.update(i, true), r, (count - 1) as nat)
        }
    }
}

/// Unsigned weights as integers.
pub open spec fn spec_as_ints(weights: Seq<u32>) -> Seq<int> {
    Seq::new(weights.len(), |i: int| weights[i] as int)
}

/// The marks of a draw in which nobody has been picked yet.
pub open spec fn spec_none_used(n: nat) -> Seq<bool> {
    Seq::new(n, |i: int| false)
}

/// Whether no weight is negative.
pub open spec fn spec_no_negative(weights: Seq<int>) -> bool {
    forall|i: int| 0 <= i < weights.len() ==> #[trigger] weights[i] >= 0
}

/// A pick lands on an unpicked position at or after `start`, or on none.
pub proof fn lemma_pick_from(weights: Seq<int>, used: Seq<bool>, r: int, start: int, acc: int)
    requires
        used.len() == weights.len(),
        0 <= start,
    ensures
        start <= spec_pick_from(weights, used, r, start, acc) || spec_pick_from(
            weights,
            used,
            r,
            start,
            acc,
        ) == weights.len(),
        spec_pick_from(weights, used, r, start, acc) <= weights.len(),
        spec_pick_from(weights, used, r, start, acc) < weights.len() ==> !used[spec_pick_from(
            weights,
            used,
            r,
            start,
            acc,
        )],
    decreases weights.len() - start,
{
    if start < weights.len() {
        if used[start] {
            lemma_pick_from(weights, used, r, start + 1, acc);
        } else if acc + weights[start] >= r {
        } else {
            lemma_pick_from(weights, used, r, start + 1, acc + weights[start]);
        }
    }
}

/// Where every position from `from` on has been picked, the unpicked weight
/// and the unpicked number below `from` are those of all positions.
pub proof fn lemma_unused_suffix(weights: Seq<int>, used: Seq<bool>, from: int, n: int)
    requires
        used.len() == weights.len(),
        0 <= from <= n <= weights.len(),
        forall|i: int| from <= i < n ==> used[i],
    ensures
        spec_unused_weight(weights, used, n) == spec_unused_weight(weights, used, from),
        spec_unused_count(used, n) == spec_unused_count(used, from),
    decreases n - from,
{
    if from < n {
        lemma_unused_suffix(weights, used, from, n - 1);
    }
}

/// The unpicked weight is not negative where no weight is, and the unpicked
/// number is between nothing and the number of positions.
pub proof fn lemma_unused_bounds(weights: Seq<int>, used: Seq<bool>, n: int)
    requires
        used.len() == weights.len(),
        0 <= n <= weights.len(),
    ensures
        spec_no_negative(weights) ==> spec_unused_weight(weights, used, n) >= 0,
        0 <= spec_unused_count(used, n) <= n,
    decreases n,
{
    if n > 0 {
        lemma_unused_bounds(weights, used, n - 1);
    }
}

/// A draw of a number within the unpicked weight picks a position, where
/// there is one left to pick.
pub proof fn lemma_pick_exists(
    weights: Seq<int>,
    used: Seq<bool>,
    r: int,
    start: int,
    witness: int,
)
    requires
        used.len() == weights.len(),
        0 <= start <= witness < weights.len(),
        !used[witness],
        r <= spec_unused_weight(weights, used, weights.len() as int),
    ensures
        spec_pick_from(weights, used, r, start, spec_unused_weight(weights, used, start))
            < weights.len(),
    decreases weights.len() - start,
{
    let n = weights.len() as int;
    if used[start] {
        lemma_pick_exists(weights, used, r, start + 1, witness);
    } else if spec_unused_weight(weights, used, start) + weights[start] >= r {
    } else {
        if forall|i: int| start + 1 <= i < n ==> used[i] {
            lemma_unused_suffix(weights, used, start + 1, n);
        } else {
            let next = choose|i: int| start + 1 <= i < n && !used[i];
            lemma_pick_exists(weights, used, r, start + 1, next);
        }
    }
}

/// Marking an unpicked position as picked leaves one position less to pick.
pub proof fn lemma_unused_count_update(used: Seq<bool>, i: int, n: int)
    requires
        0 <= i < used.len(),
        0 <= n <= used.len(),
        !used[i],
    ensures
        spec_unused_count(used.update(i, true), n) == spec_unused_count(used, n) - if i < n {
            1int
        } else {
            0int
        },
    decreases n,
{
    if n > 0 {
        lemma_unused_count_update(used, i, n - 1);
    }
}

/// With nobody picked yet, every position is left to pick.
pub proof fn lemma_none_used_count(n: nat, m: int)
    requires
        0 <= m <= n,
    ensures
        spec_unused_count(spec_none_used(n), m) == m,
    decreases m,
{
    if m > 0 {
        lemma_none_used_count(n, m - 1);
    }
}

/// The positions that a draw picks are valid, were not picked before it, and
/// differ from each other; there are at most `count` of them.
pub proof fn lemma_draw_properties(weights: Seq<int>, used: Seq<bool>, r: int, count: nat)
    requires
        used.len() == weights.len(),
    ensures
        spec_draw(weights, used, r, count).len() <= count,
        forall|k: int|
            0 <= k < spec_draw(weights, used, r, count).len() ==> {
                let i = #[trigger] spec_draw(weights, used, r, count)[k];
                0 <= i < weights.len() && !used[i]
            },
        forall|k: int, l: int|
            0 <= k < l < spec_draw(weights, used, r, count).len() ==> spec_draw(
                weights,
                used,
                r,
                count,
            )[k] != spec_draw(weights, used, r, count)[l],
    decreases count,
{
    if count > 0 {
        let i = spec_pick(weights, used, r);
        let target = spec_reduced(r, spec_unused_weight(weights, used, weights.len() as int));
        lemma_pick_from(weights, used, target, 0, 0);
        if i < weights.len() {
            lemma_draw_properties(weights, used.update(i, true), r, (count - 1) as nat);
        }
    }
}

/// A draw for `count` winners picks that many, or all that are left to pick
/// where those are fewer.
pub proof fn lemma_draw_count(weights: Seq<int>, used: Seq<bool>, r: int, count: nat)
    requires
        used.len() == weights.len(),
        spec_no_negative(weights),
    ensures
        spec_draw(weights, used, r, count).len() == if count <= spec_unused_count(
            used,
            used.len() as int,
        ) {
            count as int
        } else {
            spec_unused_count(used, used.len() as int)
        },
    decreases count,
{
    let n = weights.len() as int;
    lemma_unused_bounds(weights, used, n);
    if count > 0 {
        let remaining = spec_unused_weight(weights, used, n);
        let target = spec_reduced(r, remaining);
        let i = spec_pick(weights, used, r);
        lemma_pick_from(weights, used, target, 0, 0);
        if forall|j: int| 0 <= j < n ==> used[j] {
            lemma_unused_suffix(weights, used, 0, n);
        } else {
            let witness = choose|j: int| 0 <= j < n && !used[j];
            assert(target <= remaining) by {
                if r > remaining && remaining > 0 {
                    assert(r % remaining < remaining) by (nonlinear_arith)
                        requires
                            remaining > 0,
                    ;
                }
            }
            lemma_pick_exists(weights, used, target, 0, witness);
            let marked = used.update(i, true);
            lemma_unused_count_update(used, i, n);
            lemma_draw_count(weights, marked, r, (count - 1) as nat);
        }
    }
}

/// Picks `winner_count` positions by repeated draws of `random_weight`,
/// without replacement; all positions where there are fewer.
///
/// Each draw walks the positions not picked so far from the front, adding up
/// their weights, and picks the first at which the sum reaches the number
/// drawn. Where the number drawn is more than all the weight that is left, the
/// draw goes by its remainder modulo that weight.
pub fn draw_winners(weights: &Vec<u32>, winner_count: u32, random_weight: u32) -> (winners: Vec<
    usize,
>)
    ensures
        to_ints(winners@) == spec_draw(
            spec_as_ints(weights@),
            spec_none_used(weights.len() as nat),
            random_weight as int,
            winner_count as nat,
        ),
{
    let n: usize = weights.len();
    let ghost w = spec_as_ints(weights@);
    let ghost r = random_weight as int;
    let mut used: Vec<bool> = Vec::new();
    let mut j: usize = 0;
    while j < n
        invariant
            j <= n,
            used@.len() == j,
            forall|i: int| 0 <= i < j ==> !used@[i],
        decreases n - j,
    {
        used.push(false);
        j = j + 1;
    }
    assert(used@ =~= spec_none_used(n as nat));
    let mut winners: Vec<usize> = Vec::new();
    let ghost mut drawn: Seq<int> = Seq::empty();
    let mut remaining: u32 = winner_count;
    let mut exhausted: bool = false;
    while remaining > 0 && !exhausted
        invariant
            exhausted ==> spec_draw(w, used@, r, remaining as nat) == Seq::<int>::empty(),
            n == weights.len(),
            w == spec_as_ints(weights@),
            r == random_weight as int,
            used@.len() == n,
            holds_indices(winners@, drawn),
            spec_draw(w, spec_none_used(n as nat), r, winner_count as nat) == drawn + spec_draw(
                w,
                used@,
                r,
                remaining as nat,
            ),
        decreases remaining, (if exhausted { 0int } else { 1int }),
    {
        let left: u128 = unused_weight(weights, &used);
        let target: u128 = if random_weight as u128 <= left {
            random_weight as u128
        } else if left == 0 {
            0
        } else {
            random_weight as u128 % left
        };
        let mut picked: usize = n;
        let mut acc: u128 = 0;
        let mut i: usize = 0;
        while i < n
            invariant_except_break
                picked == n,
                spec_pick(w, used@, r) == spec_pick_from(w, used@, target as int, i as int, acc as int),
                acc <= i * 0x1_0000_0000,
            invariant
                i <= n,
                n == weights.len(),
                w == spec_as_ints(weights@),
                used@.len() == n,
            ensures
                picked <= n,
                picked == spec_pick(w, used@, r),
            decreases n - i,
        {
            if !used[i] {
                assert(acc + weights[i as int] <= (i + 1) * 0x1_0000_0000) by (nonlinear_arith)
                    requires
                        acc <= i * 0x1_0000_0000,
                        weights[i as int] < 0x1_0000_0000,
                ;
                assert((i + 1) * 0x1_0000_0000 <= 0x1_0000_0000_0000_0000 * 0x1_0000_0000)
                    by (nonlinear_arith)
                    requires
                        i < 0x1_0000_0000_0000_0000,
                ;
                acc = acc + weights[i] as u128;
                if acc >= target {
                    picked = i;
                    break ;
                }
            } else {
                assert(acc <= (i + 1) * 0x1_0000_0000) by (nonlinear_arith)
                    requires
                        acc <= i * 0x1_0000_0000,
                ;
            }
            i = i + 1;
        }
        if picked == n {
            exhausted = true;
        } else {
            proof {
                drawn = drawn.push(picked as int);
            }
            winners.push(picked);
            used.set(picked, true);
            remaining = remaining - 1;
        }
    }
    proof {
        lemma_holds_indices(winners@, drawn);
    }
    winners
}

/// The weight of the positions that have not been picked.
fn unused_weight(weights: &Vec<u32>, used: &Vec<bool>) -> (left: u128)
    requires
        used@.len() == weights@.len(),
    ensures
        left == spec_unused_weight(spec_as_ints(weights@), used@, weights@.len() as int),
{
    let ghost w = spec_as_ints(weights@);
    let n: usize = weights.len();
    let mut left: u128 = 0;
    let mut i: usize = 0;
    while i < n
        invariant
            i <= n,
            n == weights@.len(),
            used@.len() == n,
            w == spec_as_ints(weights@),
            left == spec_unused_weight(w, used@, i as int),
            left <= i * 0x1_0000_0000,
        decreases n - i,
    {
        assert((i + 1) * 0x1_0000_0000 <= 0x1_0000_0000_0000_0000 * 0x1_0000_0000)
            by (nonlinear_arith)
            requires
                i < 0x1_0000_0000_0000_0000,
        ;
        if !used[i] {
            assert(left + weights[i as int] <= (i + 1) * 0x1_0000_0000) by (nonlinear_arith)
                requires
                    left <= i * 0x1_0000_0000,
                    weights[i as int] < 0x1_0000_0000,
            ;
            left = left + weights[i] as u128;
        } else {
            assert(left <= (i + 1) * 0x1_0000_0000) by (nonlinear_arith)
                requires
                    left <= i * 0x1_0000_0000,
            ;
        }
        i = i + 1;
    }
    left
}

} // verus!
