//! Durations: a count of equal subdivisions, compared by musical value
//! across different subdivision units without floating point.

use vstd::prelude::*;
use vstd::arithmetic::mul::{
    lemma_mul_inequality, lemma_mul_is_associative, lemma_mul_nonnegative,
    lemma_mul_strict_inequality, lemma_mul_upper_bound,
};
use vstd::arithmetic::power2::{
    lemma2_to64_rest, lemma_pow2_adds, lemma_pow2_pos, lemma_pow2_strictly_increases, pow2,
};
use core::cmp::Ordering;
use crate::subdivision::{pow2_u128, Subdivision};

verus! {

/// A rhythmic length: `length` notes of `unit`, i.e. `length / 2^exponent`
/// whole notes. Equality and ordering go by that value, so one half note
/// equals two quarter notes even though the fields differ.
#[derive(Clone, Copy, Debug, Eq)]
pub struct Duration {
    pub length: usize,
    pub unit: Subdivision,
}

/// The ordering of two unbounded integers.
pub open spec fn int_order(a: int, b: int) -> Ordering {
    if a < b {
        Ordering::Less
    } else if a == b {
        Ordering::Equal
    } else {
        Ordering::Greater
    }
}

/// The comparison of two durations by value. The values `a.length / 2^ea`
/// and `b.length / 2^eb` are compared exactly by cross-scaling:
/// `a.length * 2^eb` against `b.length * 2^ea`.
pub open spec fn duration_order(a: Duration, b: Duration) -> Ordering {
    int_order(
        a.length * pow2(b.unit.0 as nat),
        b.length * pow2(a.unit.0 as nat),
    )
}

/// Scaling both sides by the same positive factor does not change their
/// ordering.
proof fn lemma_mul_order_same_factor(x: int, y: int, f: int)
    requires
        0 <= x,
        0 <= y,
        0 < f,
    ensures
        int_order(x * f, y * f) == int_order(x, y),
{
    if x < y {
        lemma_mul_strict_inequality(x, y, f);
    } else if y < x {
        lemma_mul_strict_inequality(y, x, f);
    }
}

/// Compare `x * 2^d` against `y` exactly, for any machine values: scaling
/// is done in wide arithmetic, and a scale past the machine word decides
/// the comparison outright.
fn scaled_cmp(x: usize, y: usize, d: usize) -> (r: Ordering)
    ensures
        r == int_order(x * pow2(d as nat), y as int),
{
    if x == 0 {
        if y == 0 {
            Ordering::Equal
        } else {
            Ordering::Less
        }
    } else if d >= 64 {
        proof {
            lemma2_to64_rest();
            if d > 64 {
                lemma_pow2_strictly_increases(64, d as nat);
            }
            lemma_mul_inequality(1, x as int, pow2(d as nat) as int);
            assert((usize::MAX as int) < pow2(64));
        }
        Ordering::Greater
    } else {
        let f = pow2_u128(d);
        proof {
            lemma2_to64_rest();
            if d < 63 {
                lemma_pow2_strictly_increases(d as nat, 63);
            }
            lemma_mul_upper_bound(x as int, u64::MAX as int, f as int, pow2(63) as int);
        }
        let xv: u128 = (x as u128) * f;
        let yv: u128 = y as u128;
        if xv < yv {
            Ordering::Less
        } else if xv == yv {
            Ordering::Equal
        } else {
            Ordering::Greater
        }
    }
}

impl Duration {
    /// The duration of `length` notes of `unit`.
    pub fn new(length: usize, unit: Subdivision) -> (r: Self)
        ensures
            r == (Duration { length, unit }),
    {
        Duration { length, unit }
    }

    /// Compare two durations by musical value, normalising across their
    /// subdivision units without rounding or overflow.
    pub fn cmp(&self, other: &Self) -> (r: Ordering)
        ensures
            r == duration_order(*self, *other),
    {
        let ea: usize = self.unit.0;
        let eb: usize = other.unit.0;
        if ea == eb {
            proof {
                lemma_pow2_pos(ea as nat);
                lemma_mul_order_same_factor(
                    self.length as int,
                    other.length as int,
                    pow2(ea as nat) as int,
                );
            }
            if self.length < other.length {
                Ordering::Less
            } else if self.length == other.length {
                Ordering::Equal
            } else {
                Ordering::Greater
            }
        } else if ea < eb {
            let d: usize = eb - ea;
            let r = scaled_cmp(self.length, other.length, d);
            proof {
                lemma_pow2_pos(ea as nat);
                lemma_pow2_pos(d as nat);
                lemma_mul_nonnegative(self.length as int, pow2(d as nat) as int);
                lemma_mul_order_same_factor(
                    self.length as int * pow2(d as nat),
                    other.length as int,
                    pow2(ea as nat) as int,
                );
                lemma_pow2_adds(d as nat, ea as nat);
                lemma_mul_is_associative(
                    self.length as int,
                    pow2(d as nat) as int,
                    pow2(ea as nat) as int,
                );
            }
            r
        } else {
            let d: usize = ea - eb;
            let r = scaled_cmp(other.length, self.length, d);
            proof {
                lemma_pow2_pos(eb as nat);
                lemma_pow2_pos(d as nat);
                lemma_mul_nonnegative(other.length as int, pow2(d as nat) as int);
                lemma_mul_order_same_factor(
                    other.length as int * pow2(d as nat),
                    self.length as int,
                    pow2(eb as nat) as int,
                );
                lemma_pow2_adds(d as nat, eb as nat);
                lemma_mul_is_associative(
                    other.length as int,
                    pow2(d as nat) as int,
                    pow2(eb as nat) as int,
                );
            }
            match r {
                Ordering::Less => Ordering::Greater,
                Ordering::Equal => Ordering::Equal,
                Ordering::Greater => Ordering::Less,
            }
        }
    }
}

impl From<Duration> for (usize, Subdivision) {
    /// A duration converts to its length and unit.
    fn from(duration: Duration) -> (r: Self) {
        (duration.length, duration.unit)
    }
}

impl vstd::std_specs::convert::FromSpecImpl<Duration> for (usize, Subdivision) {
    open spec fn obeys_from_spec() -> bool {
        true
    }

    open spec fn from_spec(v: Duration) -> Self {
        (v.length, v.unit)
    }
}

impl From<(usize, Subdivision)> for Duration {
    /// A length and a unit convert to the duration counting them.
    fn from(parts: (usize, Subdivision)) -> (r: Self) {
        Duration { length: parts.0, unit: parts.1 }
    }
}

impl vstd::std_specs::convert::FromSpecImpl<(usize, Subdivision)> for Duration {
    open spec fn obeys_from_spec() -> bool {
        true
    }

    open spec fn from_spec(v: (usize, Subdivision)) -> Self {
        Duration { length: v.0, unit: v.1 }
    }
}

impl PartialEq for Duration {
    /// Durations are equal when their musical values coincide, whatever
    /// their units.
    fn eq(&self, other: &Self) -> (r: bool) {
        match self.cmp(other) {
            Ordering::Equal => true,
            _ => false,
        }
    }
}

impl vstd::std_specs::cmp::PartialEqSpecImpl for Duration {
    open spec fn obeys_eq_spec() -> bool {
        true
    }

    open spec fn eq_spec(&self, other: &Self) -> bool {
        duration_order(*self, *other) == Ordering::Equal
    }
}

impl PartialOrd for Duration {
    /// Durations are totally ordered by musical value.
    fn partial_cmp(&self, other: &Self) -> (r: Option<Ordering>) {
        Some(self.cmp(other))
    }
}

impl vstd::std_specs::cmp::PartialOrdSpecImpl for Duration {
    open spec fn obeys_partial_cmp_spec() -> bool {
        true
    }

    open spec fn partial_cmp_spec(&self, other: &Self) -> Option<Ordering> {
        Some(duration_order(*self, *other))
    }
}

} // verus!
