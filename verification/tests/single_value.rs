use random_number::{
    random, random_at_least, random_at_least_with_rng, random_at_most,
    random_at_most_exclusively, random_at_most_exclusively_with_rng, random_at_most_with_rng,
    random_exclusively, random_exclusively_with_rng, random_inclusively,
    random_inclusively_cmp, random_inclusively_cmp_with_rng, random_inclusively_with_rng,
    random_with_rng,
};

#[test]
fn full_range_smoke() {
    let _v: u8 = random();
    let _v: i8 = random();
    let _v: u128 = random();
    let _v: isize = random();
    let mut rng = rand::thread_rng();
    let _v: u64 = random_with_rng(&mut rng);
    let _v: i16 = random_with_rng(&mut rng);
}

#[test]
fn full_range_i8_within_natural_bounds() {
    let mut rng = rand::thread_rng();
    for _ in 0..10_000 {
        let v: i8 = random_with_rng(&mut rng);
        assert!(i8::MIN <= v && v <= i8::MAX);
    }
}

#[test]
fn full_range_u8_draws_are_not_constant() {
    let mut rng = rand::thread_rng();
    let first: u8 = random_with_rng(&mut rng);
    let mut saw_other = false;
    for _ in 0..10_000 {
        let v: u8 = random_with_rng(&mut rng);
        if v != first {
            saw_other = true;
        }
    }
    assert!(saw_other);
}

#[test]
fn inclusive_range_stays_in_range() {
    let mut rng = rand::thread_rng();
    for _ in 0..10_000 {
        let v: u8 = random_inclusively_with_rng(12, 20, &mut rng);
        assert!(12 <= v && v <= 20);
        let w: i32 = random_inclusively_with_rng(-5, 5, &mut rng);
        assert!(-5 <= w && w <= 5);
    }
    let v: i8 = random_inclusively(-2, 12);
    assert!(-2 <= v && v <= 12);
}

#[test]
fn inclusive_range_reaches_both_endpoints() {
    let mut rng = rand::thread_rng();
    let mut saw_low = false;
    let mut saw_high = false;
    for _ in 0..10_000 {
        let v: u8 = random_inclusively_with_rng(3, 4, &mut rng);
        if v == 3 {
            saw_low = true;
        }
        if v == 4 {
            saw_high = true;
        }
    }
    assert!(saw_low && saw_high);
}

#[test]
fn degenerate_inclusive_range_returns_the_single_value() {
    let v: u16 = random_inclusively(7, 7);
    assert_eq!(v, 7);
}

#[test]
fn exclusive_range_never_returns_the_end() {
    let mut rng = rand::thread_rng();
    for _ in 0..10_000 {
        let v: u8 = random_exclusively_with_rng(12, 20, &mut rng);
        assert!(12 <= v && v < 20);
        let w: i64 = random_exclusively_with_rng(-3, 1, &mut rng);
        assert!(-3 <= w && w < 1);
    }
    let v: u32 = random_exclusively(1, 10);
    assert!(1 <= v && v < 10);
}

#[test]
fn exclusive_range_of_width_one_returns_the_start() {
    let mut rng = rand::thread_rng();
    for _ in 0..100 {
        let v: i8 = random_exclusively_with_rng(-1, 0, &mut rng);
        assert_eq!(v, -1);
    }
}

#[test]
fn cmp_mode_accepts_either_order() {
    let mut rng = rand::thread_rng();
    for _ in 0..10_000 {
        let v: u8 = random_inclusively_cmp_with_rng(12, 20, &mut rng);
        assert!(12 <= v && v <= 20);
        let w: u8 = random_inclusively_cmp_with_rng(20, 12, &mut rng);
        assert!(12 <= w && w <= 20);
    }
    let v: i8 = random_inclusively_cmp(9, -9);
    assert!(-9 <= v && v <= 9);
}

#[test]
fn cmp_mode_equal_values_come_back_unchanged() {
    let mut rng = rand::thread_rng();
    for _ in 0..100 {
        let v: i32 = random_inclusively_cmp_with_rng(42, 42, &mut rng);
        assert_eq!(v, 42);
    }
    let v: u64 = random_inclusively_cmp(5, 5);
    assert_eq!(v, 5);
}

#[test]
fn at_least_stays_above_the_bound() {
    let mut rng = rand::thread_rng();
    for _ in 0..10_000 {
        let v: u8 = random_at_least_with_rng(250, &mut rng);
        assert!(v >= 250);
        let w: i8 = random_at_least_with_rng(120, &mut rng);
        assert!(w >= 120);
    }
    let v: u8 = random_at_least(10);
    assert!(v >= 10);
}

#[test]
fn at_most_stays_below_the_bound() {
    let mut rng = rand::thread_rng();
    for _ in 0..10_000 {
        let v: u8 = random_at_most_with_rng(5, &mut rng);
        assert!(v <= 5);
        let w: i8 = random_at_most_with_rng(-120, &mut rng);
        assert!(w <= -120);
    }
    let v: u8 = random_at_most(0);
    assert_eq!(v, 0);
}

#[test]
fn at_most_exclusive_excludes_the_bound() {
    let mut rng = rand::thread_rng();
    for _ in 0..10_000 {
        let v: i8 = random_at_most_exclusively_with_rng(-120, &mut rng);
        assert!(v < -120);
    }
    let v: u8 = random_at_most_exclusively(1);
    assert_eq!(v, 0);
}

#[test]
fn eight_bit_upper_bound_exclusive_ten_end_to_end() {
    let mut rng = rand::thread_rng();
    let mut saw_nine = false;
    for _ in 0..100_000 {
        let v: u8 = random_at_most_exclusively_with_rng(10, &mut rng);
        assert!(v < 10);
        if v == 9 {
            saw_nine = true;
        }
    }
    assert!(saw_nine);
}

#[test]
fn signed_inclusive_range_reaches_both_endpoints() {
    let mut rng = rand::thread_rng();
    let mut saw_low = false;
    let mut saw_high = false;
    for _ in 0..10_000 {
        let v: i8 = random_inclusively_with_rng(-1, 0, &mut rng);
        if v == -1 {
            saw_low = true;
        }
        if v == 0 {
            saw_high = true;
        }
    }
    assert!(saw_low && saw_high);
}

#[test]
fn signed_exclusive_range_reaches_every_admitted_value() {
    let mut rng = rand::thread_rng();
    let mut saw_low = false;
    let mut saw_high = false;
    for _ in 0..10_000 {
        let v: i8 = random_exclusively_with_rng(-1, 1, &mut rng);
        assert!(v == -1 || v == 0);
        if v == -1 {
            saw_low = true;
        }
        if v == 0 {
            saw_high = true;
        }
    }
    assert!(saw_low && saw_high);
}
