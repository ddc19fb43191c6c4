use random_number::{
    random_fill, random_fill_at_least, random_fill_at_least_with_rng, random_fill_at_most,
    random_fill_at_most_exclusively, random_fill_at_most_exclusively_with_rng,
    random_fill_at_most_with_rng, random_fill_exclusively, random_fill_exclusively_with_rng,
    random_fill_inclusively, random_fill_inclusively_cmp, random_fill_inclusively_cmp_with_rng,
    random_fill_inclusively_with_rng, random_fill_with_rng,
};

#[test]
fn fill_full_range_keeps_length() {
    let mut a = vec![0u8; 100];
    random_fill(&mut a);
    assert_eq!(a.len(), 100);
    let mut rng = rand::thread_rng();
    let mut b = vec![0i16; 37];
    random_fill_with_rng(&mut b, &mut rng);
    assert_eq!(b.len(), 37);
    for v in b.iter().copied() {
        assert!(i16::MIN <= v && v <= i16::MAX);
    }
}

#[test]
fn fill_full_range_is_not_constant() {
    let mut a = vec![0u64; 64];
    random_fill(&mut a);
    let first = a[0];
    assert!(a.iter().any(|v| *v != first));
}

#[test]
fn fill_inclusive_every_slot_in_range() {
    let mut rng = rand::thread_rng();
    let mut a = vec![0i8; 100];
    random_fill_inclusively_with_rng(&mut a, -2, 12, &mut rng);
    assert_eq!(a.len(), 100);
    for v in a.iter().copied() {
        assert!(-2 <= v && v <= 12);
    }
    let mut b = vec![0u8; 50];
    random_fill_inclusively(&mut b, 12, 20);
    assert_eq!(b.len(), 50);
    for v in b.iter().copied() {
        assert!(12 <= v && v <= 20);
    }
}

#[test]
fn fill_exclusive_every_slot_below_the_end() {
    let mut rng = rand::thread_rng();
    let mut a = vec![0u8; 1000];
    random_fill_exclusively_with_rng(&mut a, 1, 10, &mut rng);
    assert_eq!(a.len(), 1000);
    for v in a.iter().copied() {
        assert!(1 <= v && v < 10);
    }
    let mut b = vec![0i32; 20];
    random_fill_exclusively(&mut b, -4, -1);
    for v in b.iter().copied() {
        assert!(-4 <= v && v < -1);
    }
}

#[test]
fn fill_cmp_accepts_either_order() {
    let mut rng = rand::thread_rng();
    let mut a = vec![0u8; 100];
    random_fill_inclusively_cmp_with_rng(&mut a, 20, 12, &mut rng);
    assert_eq!(a.len(), 100);
    for v in a.iter().copied() {
        assert!(12 <= v && v <= 20);
    }
    let mut b = vec![0i8; 100];
    random_fill_inclusively_cmp(&mut b, 12, 20);
    for v in b.iter().copied() {
        assert!(12 <= v && v <= 20);
    }
}

#[test]
fn fill_cmp_equal_values_fill_every_slot_with_that_value() {
    let mut rng = rand::thread_rng();
    let mut a = vec![0i64; 33];
    random_fill_inclusively_cmp_with_rng(&mut a, -7, -7, &mut rng);
    assert_eq!(a.len(), 33);
    for v in a.iter().copied() {
        assert_eq!(v, -7);
    }
}

#[test]
fn fill_at_least_and_at_most() {
    let mut rng = rand::thread_rng();
    let mut a = vec![0u8; 100];
    random_fill_at_least_with_rng(&mut a, 250, &mut rng);
    for v in a.iter().copied() {
        assert!(v >= 250);
    }
    random_fill_at_least(&mut a, 10);
    for v in a.iter().copied() {
        assert!(v >= 10);
    }
    random_fill_at_most_with_rng(&mut a, 5, &mut rng);
    for v in a.iter().copied() {
        assert!(v <= 5);
    }
    random_fill_at_most(&mut a, 0);
    for v in a.iter().copied() {
        assert_eq!(v, 0);
    }
}

#[test]
fn fill_at_most_exclusive_excludes_the_bound() {
    let mut rng = rand::thread_rng();
    let mut a = vec![0u8; 1000];
    random_fill_at_most_exclusively_with_rng(&mut a, 10, &mut rng);
    for v in a.iter().copied() {
        assert!(v < 10);
    }
    let mut b = vec![0i8; 100];
    random_fill_at_most_exclusively(&mut b, -120);
    for v in b.iter().copied() {
        assert!(v < -120);
    }
}

#[test]
fn fill_empty_buffer_is_a_no_op() {
    let mut a: Vec<u8> = vec![];
    random_fill_inclusively(&mut a, 1, 3);
    assert_eq!(a.len(), 0);
    random_fill(&mut a);
    assert_eq!(a.len(), 0);
}
