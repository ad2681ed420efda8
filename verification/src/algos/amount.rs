//! A signed number type of the library's own: whole amounts of a smallest
//! unit (a tick, a cent), with the arithmetic of `i64`.
//!
//! Every operator of the pipeline is written out here together with what it
//! computes and where it is defined, so the stages and the policy engine can
//! be run, and reasoned about, over numbers that go below zero.

use crate::algos::root::{floor_sqrt, integer_sqrt, lemma_floor_sqrt_bounds};
use crate::algos::single_pass::{Sqrt, Zero};
use core::cmp::Ordering;
use core::ops::{Add, Div, Mul, Sub};
use vstd::prelude::*;
use vstd::std_specs::cmp::{PartialEqSpecImpl, PartialOrdSpecImpl};
use vstd::std_specs::convert::FromSpecImpl;
use vstd::std_specs::ops::{AddSpecImpl, DivSpecImpl, MulSpecImpl, SubSpecImpl};

verus! {

/// A whole amount, positive or negative.
#[derive(Clone, Copy, Debug)]
pub struct Amount(pub i64);

/// `n` is an amount that fits.
pub open spec fn fits(n: int) -> bool {
    i64::MIN <= n <= i64::MAX
}

/// The quotient of `a` by `b`, rounded towards zero. (On integers `/` rounds
/// down for a positive divisor and up for a negative one; for a dividend that
/// is not negative that is towards zero, so a negative one is divided as its
/// opposite.)
pub open spec fn quotient(a: int, b: int) -> int {
    if a >= 0 {
        a / b
    } else {
        -((-a) / b)
    }
}

impl Amount {
    /// An amount of at most half the largest one, either side of zero: sums
    /// and differences of two such amounts fit.
    pub open spec fn in_range(self) -> bool {
        -0x3fff_ffff_ffff_ffff <= self.0 <= 0x3fff_ffff_ffff_ffff
    }
}

impl PartialEq for Amount {
    fn eq(&self, other: &Amount) -> (r: bool) {
        self.0 == other.0
    }
}

impl PartialEqSpecImpl for Amount {
    open spec fn obeys_eq_spec() -> bool {
        true
    }

    open spec fn eq_spec(&self, other: &Amount) -> bool {
        self.0 == other.0
    }
}

impl PartialOrd for Amount {
    fn partial_cmp(&self, other: &Amount) -> (r: Option<Ordering>) {
        if self.0 < other.0 {
            Some(Ordering::Less)
        } else if self.0 > other.0 {
            Some(Ordering::Greater)
        } else {
            Some(Ordering::Equal)
        }
    }
}

impl PartialOrdSpecImpl for Amount {
    open spec fn obeys_partial_cmp_spec() -> bool {
        true
    }

    open spec fn partial_cmp_spec(&self, other: &Amount) -> Option<Ordering> {
        if self.0 < other.0 {
            Some(Ordering::Less)
        } else if self.0 > other.0 {
            Some(Ordering::Greater)
        } else {
            Some(Ordering::Equal)
        }
    }
}

impl Add for Amount {
    type Output = Amount;

    fn add(self, rhs: Amount) -> (r: Amount) {
        Amount(self.0 + rhs.0)
    }
}

impl AddSpecImpl for Amount {
    open spec fn obeys_add_spec() -> bool {
        true
    }

    open spec fn add_req(self, rhs: Amount) -> bool {
        fits(self.0 + rhs.0)
    }

    open spec fn add_spec(self, rhs: Amount) -> Amount {
        Amount((self.0 + rhs.0) as i64)
    }
}

impl Sub for Amount {
    type Output = Amount;

    fn sub(self, rhs: Amount) -> (r: Amount) {
        Amount(self.0 - rhs.0)
    }
}

impl SubSpecImpl for Amount {
    open spec fn obeys_sub_spec() -> bool {
        true
    }

    open spec fn sub_req(self, rhs: Amount) -> bool {
        fits(self.0 - rhs.0)
    }

    open spec fn sub_spec(self, rhs: Amount) -> Amount {
        Amount((self.0 - rhs.0) as i64)
    }
}

impl Mul for Amount {
    type Output = Amount;

    fn mul(self, rhs: Amount) -> (r: Amount) {
        Amount(self.0 * rhs.0)
    }
}

impl MulSpecImpl for Amount {
    open spec fn obeys_mul_spec() -> bool {
        true
    }

    open spec fn mul_req(self, rhs: Amount) -> bool {
        fits(self.0 * rhs.0)
    }

    open spec fn mul_spec(self, rhs: Amount) -> Amount {
        Amount((self.0 * rhs.0) as i64)
    }
}

impl Div for Amount {
    type Output = Amount;

    fn div(self, rhs: Amount) -> (r: Amount) {
        Amount(self.0 / rhs.0)
    }
}

impl DivSpecImpl for Amount {
    open spec fn obeys_div_spec() -> bool {
        true
    }

    open spec fn div_req(self, rhs: Amount) -> bool {
        rhs.0 != 0 && !(self.0 == i64::MIN && rhs.0 == -1)
    }

    open spec fn div_spec(self, rhs: Amount) -> Amount {
        Amount(quotient(self.0 as int, rhs.0 as int) as i64)
    }
}

impl From<u32> for Amount {
    fn from(n: u32) -> (r: Amount) {
        Amount(n as i64)
    }
}

impl FromSpecImpl<u32> for Amount {
    open spec fn obeys_from_spec() -> bool {
        true
    }

    open spec fn from_spec(n: u32) -> Amount {
        Amount(n as i64)
    }
}

impl Zero for Amount {
    open spec fn zero_spec() -> Amount {
        Amount(0)
    }

    fn zero() -> Amount {
        Amount(0)
    }
}

impl Sqrt for Amount {
    open spec fn sqrt_req(self) -> bool {
        self.0 >= 0
    }

    open spec fn sqrt_spec(self) -> Amount {
        Amount(floor_sqrt(self.0 as int) as i64)
    }

    fn sqrt(self) -> Amount {
        let r = integer_sqrt(self.0 as u128);
        proof {
            lemma_floor_sqrt_bounds(self.0 as int);
        }
        Amount(r as i64)
    }
}

} // verus!
