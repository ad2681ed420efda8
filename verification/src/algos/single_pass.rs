//! Single-pass folds and the incremental mean used by the online statistics.

use core::ops::{Add, Div, Mul, Sub};
use vstd::prelude::*;
use vstd::std_specs::convert::{FromSpec, IntoSpec};
use vstd::std_specs::iter::IteratorSpec;
use vstd::std_specs::ops::{AddSpec, DivSpec, MulSpec, SubSpec};

verus! {

/// A number type with a distinguished zero, the start value of every fold.
pub trait Zero: Sized {
    /// The value that `zero` returns.
    spec fn zero_spec() -> Self;

    fn zero() -> (r: Self)
        ensures
            r == Self::zero_spec(),
    ;
}

impl Zero for u32 {
    open spec fn zero_spec() -> u32 {
        0
    }

    fn zero() -> u32 {
        0
    }
}

impl Zero for u64 {
    open spec fn zero_spec() -> u64 {
        0
    }

    fn zero() -> u64 {
        0
    }
}

impl Zero for u128 {
    open spec fn zero_spec() -> u128 {
        0
    }

    fn zero() -> u128 {
        0
    }
}

impl Zero for i64 {
    open spec fn zero_spec() -> i64 {
        0
    }

    fn zero() -> i64 {
        0
    }
}

impl Zero for i128 {
    open spec fn zero_spec() -> i128 {
        0
    }

    fn zero() -> i128 {
        0
    }
}

/// A number type with a square root.
pub trait Sqrt: Sized {
    /// The values that have a square root in `Self`.
    spec fn sqrt_req(self) -> bool;

    /// The value that `sqrt` returns.
    spec fn sqrt_spec(self) -> Self;

    fn sqrt(self) -> (r: Self)
        requires
            self.sqrt_req(),
        ensures
            r == self.sqrt_spec(),
    ;
}

/// The running mean after one more observation:
/// `last + (new - last) / size`, in the arithmetic of `T`.
pub open spec fn mean_spec<T>(last: T, new: T, size: u32) -> T where
    T: Add<Output = T> + Sub<Output = T> + Div<Output = T> + Copy + From<u32>,
 {
    last.add_spec(new.sub_spec(last).div_spec(T::from_spec(size)))
}

/// Every operation of `mean_spec` is within what `T` can compute.
pub open spec fn mean_defined<T>(last: T, new: T, size: u32) -> bool where
    T: Add<Output = T> + Sub<Output = T> + Div<Output = T> + Copy + From<u32>,
 {
    &&& new.sub_req(last)
    &&& new.sub_spec(last).div_req(T::from_spec(size))
    &&& last.add_req(new.sub_spec(last).div_spec(T::from_spec(size)))
}

/// Moves the mean `last` towards `new` by one `size`-th of their distance.
pub fn next_mean<T>(last: T, new: T, size: u32) -> (r: T) where
    T: Add<Output = T> + Sub<Output = T> + Div<Output = T> + Copy + From<u32>,

    requires
        T::obeys_add_spec(),
        T::obeys_sub_spec(),
        T::obeys_div_spec(),
        <T as FromSpec<u32>>::obeys_from_spec(),
        mean_defined(last, new, size),
    ensures
        r == mean_spec(last, new, size),
{
    last + (new - last) / T::from(size)
}

/// Moves the mean `last` towards `new`, converted into `T`, by one `size`-th
/// of their distance.
pub fn mean<T, U: Into<T>>(last: T, new: U, size: u32) -> (r: T) where
    T: Add<Output = T> + Sub<Output = T> + Div<Output = T> + Copy + From<u32>,

    requires
        T::obeys_add_spec(),
        T::obeys_sub_spec(),
        T::obeys_div_spec(),
        <T as FromSpec<u32>>::obeys_from_spec(),
        U::obeys_into_spec(),
        mean_defined(last, new.into_spec(), size),
    ensures
        r == mean_spec(last, new.into_spec(), size),
{
    next_mean(last, new.into(), size)
}

/// The left fold of `+` over `s`, starting from zero.
pub open spec fn sum_of<T: Add<Output = T> + Zero>(s: Seq<T>) -> T
    decreases s.len(),
{
    if s.len() == 0 {
        T::zero_spec()
    } else {
        sum_of(s.drop_last()).add_spec(s.last())
    }
}

/// Every addition of `sum_of(s)` is within what `T` can compute.
pub open spec fn sum_defined<T: Add<Output = T> + Zero>(s: Seq<T>) -> bool
    decreases s.len(),
{
    s.len() > 0 ==> sum_defined(s.drop_last()) && sum_of(s.drop_last()).add_req(s.last())
}

/// A sum that is defined on a sequence is defined on each of its prefixes.
pub proof fn lemma_sum_defined_prefix<T: Add<Output = T> + Zero>(s: Seq<T>, n: int)
    requires
        sum_defined(s),
        0 <= n <= s.len(),
    ensures
        sum_defined(s.take(n)),
    decreases s.len(),
{
    if n < s.len() {
        lemma_sum_defined_prefix(s.drop_last(), n);
        assert(s.drop_last().take(n) == s.take(n));
    } else {
        assert(s.take(n) == s);
    }
}

/// Adds up the items of `values`, first to last.
pub fn sum<T: Add<T, Output = T>>(values: impl Iterator<Item = T>) -> (r: T) where T: Zero
    requires
        T::obeys_add_spec(),
        values.obeys_prophetic_iter_laws(),
        values.decrease() is Some,
        sum_defined(values.remaining()),
    ensures
        r == sum_of(values.remaining()),
{
    let mut rest = values;
    let mut acc = T::zero();
    let ghost all = values.remaining();
    let ghost mut seen: Seq<T> = Seq::empty();
    loop
        invariant
            T::obeys_add_spec(),
            rest.obeys_prophetic_iter_laws(),
            rest.decrease() is Some,
            all == seen + rest.remaining(),
            sum_defined(all),
            acc == sum_of(seen),
        ensures
            acc == sum_of(all),
        decreases rest.decrease()->0,
    {
        match rest.next() {
            Some(x) => {
                proof {
                    let n = seen.len() + 1;
                    lemma_sum_defined_prefix(all, n as int);
                    assert(all.take(n as int) == seen.push(x));
                    assert(seen.push(x).drop_last() == seen);
                    seen = seen.push(x);
                }
                acc = acc + x;
            },
            None => {
                proof {
                    assert(all == seen);
                }
                break ;
            },
        }
    }
    acc
}

/// The left fold of `acc + (x - mean) * (x - mean)` over `s`, starting from
/// zero: the sum of the squared distances of the items from `mean`.
pub open spec fn centered_squares_of<T>(s: Seq<T>, mean: T) -> T where
    T: Add<Output = T> + Sub<Output = T> + Mul<Output = T> + Zero + Copy,

    decreases s.len(),
{
    if s.len() == 0 {
        T::zero_spec()
    } else {
        let diff = s.last().sub_spec(mean);
        centered_squares_of(s.drop_last(), mean).add_spec(diff.mul_spec(diff))
    }
}

/// Every operation of `centered_squares_of(s, mean)` is within what `T` can
/// compute.
pub open spec fn centered_squares_defined<T>(s: Seq<T>, mean: T) -> bool where
    T: Add<Output = T> + Sub<Output = T> + Mul<Output = T> + Zero + Copy,

    decreases s.len(),
{
    s.len() > 0 ==> {
        let diff = s.last().sub_spec(mean);
        &&& centered_squares_defined(s.drop_last(), mean)
        &&& s.last().sub_req(mean)
        &&& diff.mul_req(diff)
        &&& centered_squares_of(s.drop_last(), mean).add_req(diff.mul_spec(diff))
    }
}

/// A sum of squares that is defined on a sequence is defined on each of its
/// prefixes.
pub proof fn lemma_centered_squares_defined_prefix<T>(s: Seq<T>, mean: T, n: int) where
    T: Add<Output = T> + Sub<Output = T> + Mul<Output = T> + Zero + Copy,

    requires
        centered_squares_defined(s, mean),
        0 <= n <= s.len(),
    ensures
        centered_squares_defined(s.take(n), mean),
    decreases s.len(),
{
    if n < s.len() {
        lemma_centered_squares_defined_prefix(s.drop_last(), mean, n);
        assert(s.drop_last().take(n) == s.take(n));
    } else {
        assert(s.take(n) == s);
    }
}

/// Adds up the squared distances of the items of `values` from `mean`, first
/// to last.
pub fn mean_centered_sum_squared<T>(values: impl Iterator<Item = T>, mean: T) -> (r: T) where
    T: Add<Output = T> + Sub<Output = T> + Mul<Output = T>,
    T: Zero,
    T: Copy,

    requires
        T::obeys_add_spec(),
        T::obeys_sub_spec(),
        T::obeys_mul_spec(),
        values.obeys_prophetic_iter_laws(),
        values.decrease() is Some,
        centered_squares_defined(values.remaining(), mean),
    ensures
        r == centered_squares_of(values.remaining(), mean),
{
    let mut rest = values;
    let mut acc = T::zero();
    let ghost all = values.remaining();
    let ghost mut seen: Seq<T> = Seq::empty();
    loop
        invariant
            T::obeys_add_spec(),
            T::obeys_sub_spec(),
            T::obeys_mul_spec(),
            rest.obeys_prophetic_iter_laws(),
            rest.decrease() is Some,
            all == seen + rest.remaining(),
            centered_squares_defined(all, mean),
            acc == centered_squares_of(seen, mean),
        ensures
            acc == centered_squares_of(all, mean),
        decreases rest.decrease()->0,
    {
        match rest.next() {
            Some(x) => {
                proof {
                    let n = seen.len() + 1;
                    lemma_centered_squares_defined_prefix(all, mean, n as int);
                    assert(all.take(n as int) == seen.push(x));
                    assert(seen.push(x).drop_last() == seen);
                    seen = seen.push(x);
                }
                let diff = x - mean;
                acc = acc + diff * diff;
            },
            None => {
                proof {
                    assert(all == seen);
                }
                break ;
            },
        }
    }
    acc
}

/// A copy of `values`, item by item.
pub(crate) fn copied<T: Copy>(values: &Vec<T>) -> (r: Vec<T>)
    ensures
        r@ == values@,
{
    let mut r: Vec<T> = Vec::with_capacity(values.len());
    let mut i: usize = 0;
    while i < values.len()
        invariant
            i <= values.len(),
            r@ == values@.take(i as int),
        decreases values.len() - i,
    {
        r.push(values[i]);
        assert(values@.take(i + 1) == values@.take(i as int).push(values@[i as int]));
        i = i + 1;
    }
    assert(values@.take(values.len() as int) == values@);
    r
}

} // verus!
