use tale_forge::draw::{draw_winners, generate_pseudo_random, lottery_seed};

#[test]
fn seed_is_time_weight_and_count_in_little_endian() {
    assert_eq!(
        lottery_seed(1_700_000_000, 1000, 3),
        vec![0x00, 0xf1, 0x53, 0x65, 0, 0, 0, 0, 0xe8, 0x03, 0, 0, 0x03, 0, 0, 0]
    );
    assert_eq!(
        lottery_seed(-2, 0x0102_0304, 7),
        vec![254, 255, 255, 255, 255, 255, 255, 255, 4, 3, 2, 1, 7, 0, 0, 0]
    );
    assert_eq!(lottery_seed(0, 0, 0), vec![0u8; 16]);
    assert_eq!(lottery_seed(i64::MIN, u32::MAX, u32::MAX)[..8], i64::MIN.to_le_bytes());
    assert_eq!(lottery_seed(i64::MAX, u32::MAX, 1)[..8], i64::MAX.to_le_bytes());
    assert_eq!(lottery_seed(i64::MAX, u32::MAX, 1)[8..12], [255u8; 4]);
}

#[test]
fn pseudo_random_mixes_the_seed_into_the_time() {
    // ((0 * 31 + 1) * 31 + 2) * 31 + 3 = 1026.
    assert_eq!(generate_pseudo_random(&[1, 2, 3], 0, 1000), 26);
    assert_eq!(generate_pseudo_random(&[1, 2, 3], 0, 2000), 1026);
    assert_eq!(generate_pseudo_random(&[], 5, 7), 5);
    assert_eq!(generate_pseudo_random(&[1, 2, 3], 1_700_000_000, 1000), 890);
}

#[test]
fn pseudo_random_uses_the_low_bits_of_the_time_and_wraps() {
    assert_eq!(generate_pseudo_random(&[], -1, 10), 5);
    assert_eq!(generate_pseudo_random(&[], 0x1_0000_0007, 100), 7);
    assert_eq!(generate_pseudo_random(&[], i64::MIN, 100), 0);
    assert_eq!(generate_pseudo_random(&[255u8; 16], -1, u32::MAX), 1_559_888_127);
}

#[test]
fn pseudo_random_is_below_its_bound_and_repeats() {
    let seed = lottery_seed(1_700_000_000, 34_000, 30);
    let first = generate_pseudo_random(&seed, 1_700_000_000, 34_000);
    assert_eq!(first, 32_585);
    assert_eq!(generate_pseudo_random(&seed, 1_700_000_000, 34_000), first);
    assert_eq!(generate_pseudo_random(&seed, 1_700_000_000, 1), 0);
}

#[test]
fn draw_picks_where_the_running_weight_reaches_the_number() {
    let weights = vec![10, 20, 30, 40];
    assert_eq!(draw_winners(&weights, 1, 0), vec![0]);
    assert_eq!(draw_winners(&weights, 1, 10), vec![0]);
    assert_eq!(draw_winners(&weights, 1, 11), vec![1]);
    assert_eq!(draw_winners(&weights, 1, 30), vec![1]);
    assert_eq!(draw_winners(&weights, 1, 31), vec![2]);
    assert_eq!(draw_winners(&weights, 1, 100), vec![3]);
}

#[test]
fn draw_is_without_replacement() {
    let weights = vec![10, 20, 30, 40];
    assert_eq!(draw_winners(&weights, 2, 25), vec![1, 2]);
    assert_eq!(draw_winners(&weights, 4, 25), vec![1, 2, 3, 0]);
    assert_eq!(draw_winners(&weights, 9, 0), vec![0, 1, 2, 3]);
}

#[test]
fn draw_reduces_a_number_beyond_the_weight_that_is_left() {
    let weights = vec![10, 20, 30, 40];
    // 100 picks the last; 60 are left and 100 mod 60 = 40 picks the third;
    // 30 are left and 100 mod 30 = 10 picks the first.
    assert_eq!(draw_winners(&weights, 3, 100), vec![3, 2, 0]);
    // 101 mod 100 = 1 picks the first.
    assert_eq!(draw_winners(&weights, 3, 101), vec![0, 1, 3]);
    assert_eq!(draw_winners(&vec![5, 5], 2, 4_000_000_000), vec![0, 1]);
}

#[test]
fn draw_among_weightless_positions_goes_from_the_front() {
    assert_eq!(draw_winners(&vec![0, 0, 5], 3, 4), vec![2, 0, 1]);
    assert_eq!(draw_winners(&vec![0, 0, 0], 2, 7), vec![0, 1]);
}

#[test]
fn draw_of_nobody_or_among_nobody_is_empty() {
    assert_eq!(draw_winners(&vec![10, 20], 0, 5), Vec::<usize>::new());
    assert_eq!(draw_winners(&Vec::new(), 3, 5), Vec::<usize>::new());
}

#[test]
fn draw_handles_the_largest_weights() {
    let weights = vec![u32::MAX, u32::MAX, u32::MAX];
    assert_eq!(draw_winners(&weights, 3, u32::MAX), vec![0, 1, 2]);
    assert_eq!(draw_winners(&weights, 2, 0), vec![0, 1]);
}
