//! The square root on the built-in integers: the largest integer whose square
//! does not exceed the argument.

use crate::algos::single_pass::Sqrt;
use vstd::prelude::*;

verus! {

/// `r` is the integer square root of `n`.
pub open spec fn is_floor_sqrt(n: int, r: int) -> bool {
    0 <= r && r * r <= n < (r + 1) * (r + 1)
}

/// The integer square root of `n`, for `n` that is not negative.
pub open spec fn floor_sqrt(n: int) -> int {
    choose|r: int| is_floor_sqrt(n, r)
}

/// Squaring keeps the order of numbers that are not negative.
proof fn lemma_square_monotonic(a: int, b: int)
    requires
        0 <= a <= b,
    ensures
        a * a <= b * b,
{
    assert(a * a <= b * b) by (nonlinear_arith)
        requires
            0 <= a <= b,
    ;
}

/// A number has at most one integer square root, so whoever finds one has
/// found `floor_sqrt`.
pub proof fn lemma_floor_sqrt_unique(n: int, r: int)
    requires
        is_floor_sqrt(n, r),
    ensures
        floor_sqrt(n) == r,
{
    let s = floor_sqrt(n);
    assert(is_floor_sqrt(n, s));
    if s < r {
        lemma_square_monotonic(s + 1, r);
    } else if r < s {
        lemma_square_monotonic(r + 1, s);
    }
}

/// The integer square root stays below `2^64` on 128 bits, below `2^32` on 64
/// bits, and below `2^16` on 32 bits.
pub proof fn lemma_floor_sqrt_bounds(n: int)
    requires
        0 <= n,
        is_floor_sqrt(n, floor_sqrt(n)),
    ensures
        n < 0x1_0000_0000 ==> floor_sqrt(n) < 0x1_0000,
        n < 0x1_0000_0000_0000_0000 ==> floor_sqrt(n) < 0x1_0000_0000,
        n < 0x1_0000_0000_0000_0000_0000_0000_0000_0000 ==> floor_sqrt(n) < 0x1_0000_0000_0000_0000,
{
    let r = floor_sqrt(n);
    if n < 0x1_0000_0000 && r >= 0x1_0000 {
        lemma_square_monotonic(0x1_0000, r);
    }
    if n < 0x1_0000_0000_0000_0000 && r >= 0x1_0000_0000 {
        lemma_square_monotonic(0x1_0000_0000, r);
    }
    if n < 0x1_0000_0000_0000_0000_0000_0000_0000_0000 && r >= 0x1_0000_0000_0000_0000 {
        lemma_square_monotonic(0x1_0000_0000_0000_0000, r);
    }
}

/// The integer square root of `n`, found by bisection.
pub fn integer_sqrt(n: u128) -> (r: u128)
    ensures
        is_floor_sqrt(n as int, r as int),
        r == floor_sqrt(n as int),
        r < 0x1_0000_0000_0000_0000,
{
    let mut low: u128 = 0;
    let mut high: u128 = 0x1_0000_0000_0000_0000;
    while high - low > 1
        invariant
            low < high <= 0x1_0000_0000_0000_0000,
            low * low <= n < high * high,
        decreases high - low,
    {
        let middle = low + (high - low) / 2;
        assert(middle * middle < 0x1_0000_0000_0000_0000_0000_0000_0000_0000) by (nonlinear_arith)
            requires
                0 <= middle < 0x1_0000_0000_0000_0000,
        ;
        if middle * middle <= n {
            low = middle;
        } else {
            high = middle;
        }
    }
    proof {
        lemma_floor_sqrt_unique(n as int, low as int);
    }
    low
}

impl Sqrt for u32 {
    open spec fn sqrt_req(self) -> bool {
        true
    }

    open spec fn sqrt_spec(self) -> u32 {
        floor_sqrt(self as int) as u32
    }

    fn sqrt(self) -> u32 {
        let r = integer_sqrt(self as u128);
        proof {
            lemma_floor_sqrt_bounds(self as int);
        }
        r as u32
    }
}

impl Sqrt for u64 {
    open spec fn sqrt_req(self) -> bool {
        true
    }

    open spec fn sqrt_spec(self) -> u64 {
        floor_sqrt(self as int) as u64
    }

    fn sqrt(self) -> u64 {
        let r = integer_sqrt(self as u128);
        proof {
            lemma_floor_sqrt_bounds(self as int);
        }
        r as u64
    }
}

impl Sqrt for u128 {
    open spec fn sqrt_req(self) -> bool {
        true
    }

    open spec fn sqrt_spec(self) -> u128 {
        floor_sqrt(self as int) as u128
    }

    fn sqrt(self) -> u128 {
        integer_sqrt(self)
    }
}

impl Sqrt for i64 {
    open spec fn sqrt_req(self) -> bool {
        self >= 0
    }

    open spec fn sqrt_spec(self) -> i64 {
        floor_sqrt(self as int) as i64
    }

    fn sqrt(self) -> i64 {
        let r = integer_sqrt(self as u128);
        proof {
            lemma_floor_sqrt_bounds(self as int);
        }
        r as i64
    }
}

impl Sqrt for i128 {
    open spec fn sqrt_req(self) -> bool {
        self >= 0
    }

    open spec fn sqrt_spec(self) -> i128 {
        floor_sqrt(self as int) as i128
    }

    fn sqrt(self) -> i128 {
        let r = integer_sqrt(self as u128);
        r as i128
    }
}

} // verus!
