use engine_rs::algos::amount::Amount;
use engine_rs::algos::root::integer_sqrt;
use engine_rs::algos::single_pass::{
    mean, mean_centered_sum_squared, next_mean, sum, Sqrt, Zero,
};

#[test]
fn mean_moves_by_one_nth_of_the_distance() {
    assert_eq!(mean(Amount(3), Amount(9), 2), Amount(6));
    assert_eq!(mean(Amount(10), Amount(4), 3), Amount(8));
    assert_eq!(mean(Amount(10), Amount(4), 1), Amount(4));
    assert_eq!(mean(5u64, 5u64, 7), 5);
    assert_eq!(mean(Amount(-6), Amount(6), 4), Amount(-3));
    assert_eq!(next_mean(3u128, 9, 2), 6);
    assert_eq!(next_mean(Amount(-6), Amount(6), 4), Amount(-3));
}

#[test]
fn mean_truncates_like_the_division_of_its_type() {
    assert_eq!(mean(Amount(0), Amount(5), 2), Amount(2));
    assert_eq!(mean(Amount(0), Amount(-5), 2), Amount(-2));
    assert_eq!(mean(7u64, 8u64, 2), 7);
}

#[test]
fn mean_converts_the_new_value() {
    assert_eq!(mean(Amount(10), 4u32, 3), Amount(8));
    assert_eq!(mean(1u64, 9u8, 4), 3);
    assert_eq!(mean(1u128, 9u64, 4), 3);
}

#[test]
fn sum_folds_from_zero() {
    assert_eq!(sum(vec![1i64, 2, 3].into_iter()), 6);
    assert_eq!(sum(vec![-4i64, 4].into_iter()), 0);
    assert_eq!(sum(vec![7u32].into_iter()), 7);
    assert_eq!(sum(Vec::<u64>::new().into_iter()), 0);
}

#[test]
fn sum_takes_any_iterator() {
    assert_eq!(sum(1u64..=10), 55);
    assert_eq!(sum([3i64, 4, 5].iter().copied()), 12);
}

#[test]
fn centered_squares_are_summed() {
    assert_eq!(mean_centered_sum_squared(vec![2i64, 4].into_iter(), 3), 2);
    assert_eq!(mean_centered_sum_squared(vec![1i64, 2, 3, 4].into_iter(), 2), 6);
    assert_eq!(mean_centered_sum_squared(vec![5i64, 5, 5].into_iter(), 5), 0);
    assert_eq!(mean_centered_sum_squared(Vec::<i64>::new().into_iter(), 3), 0);
}

#[test]
fn zero_of_the_integers() {
    assert_eq!(<u32 as Zero>::zero(), 0);
    assert_eq!(<u64 as Zero>::zero(), 0);
    assert_eq!(<u128 as Zero>::zero(), 0);
    assert_eq!(<i64 as Zero>::zero(), 0);
    assert_eq!(<i128 as Zero>::zero(), 0);
}

#[test]
fn integer_sqrt_is_the_floor_of_the_root() {
    assert_eq!(integer_sqrt(0), 0);
    assert_eq!(integer_sqrt(1), 1);
    assert_eq!(integer_sqrt(2), 1);
    assert_eq!(integer_sqrt(3), 1);
    assert_eq!(integer_sqrt(4), 2);
    assert_eq!(integer_sqrt(15), 3);
    assert_eq!(integer_sqrt(16), 4);
    assert_eq!(integer_sqrt(17), 4);
    assert_eq!(integer_sqrt(1_000_000), 1_000);
    assert_eq!(integer_sqrt(999_999), 999);
}

#[test]
fn integer_sqrt_at_the_limits() {
    assert_eq!(integer_sqrt(u128::MAX), u64::MAX as u128);
    assert_eq!(integer_sqrt(u64::MAX as u128), u32::MAX as u128);
    let r = (1u128 << 64) - 1;
    assert_eq!(integer_sqrt(r * r), r);
    assert_eq!(integer_sqrt(r * r - 1), r - 1);
}

#[test]
fn integer_sqrt_brackets_its_argument() {
    let mut n: u128 = 0;
    while n < 5_000 {
        let r = integer_sqrt(n);
        assert!(r * r <= n);
        assert!(n < (r + 1) * (r + 1));
        n += 1;
    }
}

#[test]
fn sqrt_of_the_integers() {
    assert_eq!(Sqrt::sqrt(20u32), 4);
    assert_eq!(Sqrt::sqrt(u32::MAX), 65_535);
    assert_eq!(Sqrt::sqrt(81u64), 9);
    assert_eq!(Sqrt::sqrt(u64::MAX), 4_294_967_295);
    assert_eq!(Sqrt::sqrt(99u128), 9);
    assert_eq!(Sqrt::sqrt(2i64), 1);
    assert_eq!(Sqrt::sqrt(i64::MAX), 3_037_000_499);
    assert_eq!(Sqrt::sqrt(144i128), 12);
    assert_eq!(Sqrt::sqrt(i128::MAX), 13_043_817_825_332_782_212);
}

#[test]
fn amounts_add_subtract_and_multiply() {
    assert_eq!(Amount(3) + Amount(-5), Amount(-2));
    assert_eq!(Amount(3) - Amount(5), Amount(-2));
    assert_eq!(Amount(-3) * Amount(5), Amount(-15));
    assert_eq!(Amount(i64::MAX - 1) + Amount(1), Amount(i64::MAX));
}

#[test]
fn amounts_divide_towards_zero() {
    assert_eq!(Amount(7) / Amount(2), Amount(3));
    assert_eq!(Amount(-7) / Amount(2), Amount(-3));
    assert_eq!(Amount(7) / Amount(-2), Amount(-3));
    assert_eq!(Amount(-7) / Amount(-2), Amount(3));
    assert_eq!(Amount(0) / Amount(-2), Amount(0));
    assert_eq!(Amount(i64::MIN) / Amount(2), Amount(i64::MIN / 2));
}

#[test]
fn amounts_are_ordered_by_their_value() {
    assert!(Amount(-1) < Amount(0));
    assert!(Amount(2) > Amount(1));
    assert!(Amount(2) >= Amount(2));
    assert!(Amount(2) <= Amount(2));
    assert!(Amount(2) == Amount(2));
    assert!(Amount(2) != Amount(3));
    assert_eq!(Amount(1).partial_cmp(&Amount(2)), Some(std::cmp::Ordering::Less));
    assert_eq!(Amount(2).partial_cmp(&Amount(2)), Some(std::cmp::Ordering::Equal));
    assert_eq!(Amount(3).partial_cmp(&Amount(2)), Some(std::cmp::Ordering::Greater));
}

#[test]
fn amounts_come_from_counts_and_have_zero_and_roots() {
    assert_eq!(Amount::from(0u32), Amount(0));
    assert_eq!(Amount::from(u32::MAX), Amount(4_294_967_295));
    assert_eq!(<Amount as Zero>::zero(), Amount(0));
    assert_eq!(Sqrt::sqrt(Amount(0)), Amount(0));
    assert_eq!(Sqrt::sqrt(Amount(24)), Amount(4));
    assert_eq!(Sqrt::sqrt(Amount(25)), Amount(5));
    assert_eq!(Sqrt::sqrt(Amount(i64::MAX)), Amount(3_037_000_499));
}

#[test]
fn folds_over_amounts() {
    assert_eq!(sum(vec![Amount(-4), Amount(9), Amount(-1)].into_iter()), Amount(4));
    assert_eq!(
        mean_centered_sum_squared(vec![Amount(-2), Amount(2), Amount(3)].into_iter(), Amount(1)),
        Amount(14)
    );
}
