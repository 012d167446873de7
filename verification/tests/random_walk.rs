use pullpiri::random::{
    changes, gen_random_in_range, perturbation, random_walk_integer, random_walk_milli,
    RandomSource, SeededRandom, WalkDraw, WalkRule, MAX_WALK_DELTA,
};

/// A draw that changes the value by `delta` under a rule with `max_delta`.
fn moving(max_delta: i64, delta: i64) -> WalkDraw {
    WalkDraw { roll: 0, delta: (max_delta + delta) as u64 }
}

/// A draw that keeps the value under any rule below a hundred percent.
fn resting() -> WalkDraw {
    WalkDraw { roll: 99, delta: 0 }
}

#[test]
fn seeded_random_matches_known_stream() {
    let mut rng = SeededRandom::new(0);
    assert_eq!(rng.next_raw(), 0xE220_A839_7B1D_CDAF);
    assert_eq!(rng.next_raw(), 0x6E78_9E6A_A1B9_65F4);
    assert_eq!(rng.next_raw(), 487617019471545679);

    let mut other = SeededRandom::new(1234567);
    assert_eq!(other.next_raw(), 6457827717110365317);
    assert_eq!(other.next_raw(), 3203168211198807973);
    assert_eq!(other.next_raw(), 9817491932198370423);
}

#[test]
fn equal_seeds_give_equal_streams() {
    let mut first = SeededRandom::new(42);
    let mut second = SeededRandom::new(42);
    for _ in 0..1000 {
        assert_eq!(first.next_raw(), second.next_raw());
    }
    let mut third = SeededRandom::new(43);
    assert_ne!(SeededRandom::new(42).next_raw(), third.next_raw());
}

#[test]
fn gen_random_in_range_fits_raw_draws() {
    assert_eq!(gen_random_in_range(7, 0, 99), 7);
    assert_eq!(gen_random_in_range(250, 0, 99), 50);
    assert_eq!(gen_random_in_range(u64::MAX, 0, 99), 1);
    assert_eq!(gen_random_in_range(0x7fff_ffff_ffff_ffff, 5, 10), 5);
    assert_eq!(gen_random_in_range(12345678901234567890, -15_000, 15_000), -8031);
    assert_eq!(gen_random_in_range(3, -10, 10), -7);
    assert_eq!(gen_random_in_range(99, 4, 4), 4);
}

#[test]
fn gen_random_in_range_reaches_both_ends() {
    assert_eq!(gen_random_in_range(0, -10, 10), -10);
    assert_eq!(gen_random_in_range(20, -10, 10), 10);
    assert_eq!(gen_random_in_range(21, -10, 10), -10);
    assert_eq!(gen_random_in_range(0, i64::MIN + 2, i64::MAX), i64::MIN + 2);
}

#[test]
fn roll_decides_by_percent() {
    assert!(changes(29, 30));
    assert!(!changes(30, 30));
    assert!(!changes(0, 0));
    assert!(changes(99, 100));
    assert!(changes(199, 100));
    assert!(!changes(99, 99));
    assert!(changes(100, 1));
}

#[test]
fn perturbation_is_zero_without_change() {
    let rule = WalkRule { change_percent: 30, max_delta: 15_000, lo: 25_000, hi: 70_000 };
    assert_eq!(perturbation(&rule, &WalkDraw { roll: 30, delta: 123 }), 0);
    assert_eq!(perturbation(&rule, &WalkDraw { roll: 29, delta: 123 }), -15_000 + 123);
    assert_eq!(perturbation(&rule, &moving(15_000, 15_000)), 15_000);
    assert_eq!(perturbation(&rule, &moving(15_000, -15_000)), -15_000);
}

#[test]
fn random_walk_milli_adds_and_clamps() {
    let rule = WalkRule { change_percent: 80, max_delta: 8_000, lo: 4_000, hi: 25_000 };
    assert_eq!(random_walk_milli(10_000, &rule, &moving(8_000, 2_500)), 12_500);
    assert_eq!(random_walk_milli(10_000, &rule, &moving(8_000, -8_000)), 4_000);
    assert_eq!(random_walk_milli(24_000, &rule, &moving(8_000, 7_999)), 25_000);
    assert_eq!(random_walk_milli(10_000, &rule, &resting()), 10_000);
    assert_eq!(random_walk_milli(1_000, &rule, &resting()), 4_000);
    assert_eq!(random_walk_milli(90_000, &rule, &resting()), 25_000);
}

#[test]
fn random_walk_milli_survives_extreme_values() {
    let rule = WalkRule { change_percent: 100, max_delta: MAX_WALK_DELTA, lo: -5, hi: 5 };
    assert!(rule.is_valid());
    assert_eq!(random_walk_milli(i64::MAX, &rule, &moving(MAX_WALK_DELTA, MAX_WALK_DELTA)), 5);
    assert_eq!(random_walk_milli(i64::MIN, &rule, &moving(MAX_WALK_DELTA, -MAX_WALK_DELTA)), -5);
    assert_eq!(random_walk_milli(0, &rule, &moving(MAX_WALK_DELTA, 3)), 3);
}

#[test]
fn random_walk_integer_never_goes_below_zero() {
    let rule = WalkRule { change_percent: 30, max_delta: 1, lo: 0, hi: 3 };
    assert_eq!(random_walk_integer(0, &rule, &moving(1, -1)), 0);
    assert_eq!(random_walk_integer(0, &rule, &moving(1, 1)), 1);
    assert_eq!(random_walk_integer(3, &rule, &moving(1, 1)), 3);
    assert_eq!(random_walk_integer(2, &rule, &resting()), 2);
    assert_eq!(random_walk_integer(9, &rule, &resting()), 3);
    assert_eq!(random_walk_integer(usize::MAX, &rule, &moving(1, 1)), 3);
}

#[test]
fn walk_rule_validity() {
    assert!(WalkRule { change_percent: 0, max_delta: 0, lo: 0, hi: 0 }.is_valid());
    assert!(!WalkRule { change_percent: 50, max_delta: -1, lo: 0, hi: 10 }.is_valid());
    assert!(!WalkRule { change_percent: 50, max_delta: 1, lo: 11, hi: 10 }.is_valid());
    assert!(!WalkRule { change_percent: 50, max_delta: MAX_WALK_DELTA + 1, lo: 0, hi: 10 }
        .is_valid());
}

#[test]
fn random_walk_stays_in_range_for_ten_thousand_steps() {
    let rules = [
        WalkRule { change_percent: 80, max_delta: 8_000, lo: 4_000, hi: 25_000 },
        WalkRule { change_percent: 100, max_delta: 2_000, lo: 1_500, hi: 5_000 },
        WalkRule { change_percent: 10, max_delta: 2_000, lo: -10_000, hi: 10_000 },
        WalkRule { change_percent: 100, max_delta: 10_000, lo: 1_500, hi: 30_000 },
    ];
    for (index, rule) in rules.iter().enumerate() {
        let mut rng = SeededRandom::new(index as u64);
        let mut value: i64 = rule.lo;
        let mut moved = false;
        for _ in 0..10_000 {
            let draw = WalkDraw::draw(&mut rng);
            let next = random_walk_milli(value, rule, &draw);
            assert!(rule.lo <= next && next <= rule.hi);
            assert!((next - value).abs() <= rule.max_delta);
            moved = moved || next != value;
            value = next;
        }
        assert!(moved);
    }
}

#[test]
fn count_walk_stays_in_range_for_ten_thousand_steps() {
    let rule = WalkRule { change_percent: 90, max_delta: 3, lo: 3, hi: 9 };
    let mut rng = SeededRandom::new(2025);
    let mut value: usize = 4;
    let mut seen = [false; 10];
    for _ in 0..10_000 {
        let draw = WalkDraw::draw(&mut rng);
        value = random_walk_integer(value, &rule, &draw);
        assert!((3..=9).contains(&value));
        seen[value] = true;
    }
    assert!(seen[3..=9].iter().all(|hit| *hit));
}
