//! Nanosecond-resolution time values.

use std::cmp::Ordering;
use vstd::prelude::*;
use vstd::std_specs::cmp::PartialEqSpecImpl;
use vstd::std_specs::cmp::PartialOrdSpecImpl;

verus! {

/// Nanoseconds in one microsecond.
pub const NSEC_PER_USEC: u64 = 1000;

/// A point in time, in nanoseconds on a signed 64-bit scale.
#[derive(Clone, Copy, Debug)]
pub struct Ktime(i64);

/// The position of `x` on the signed 64-bit scale after wrapping around it.
pub open spec fn wrap_i64(x: int) -> int {
    let m = x % 0x1_0000_0000_0000_0000;
    if m >= 0x8000_0000_0000_0000 {
        m - 0x1_0000_0000_0000_0000
    } else {
        m
    }
}

/// How the nanosecond counts `a` and `b` stand to each other.
pub open spec fn order_of(a: int, b: int) -> Ordering {
    if a < b {
        Ordering::Less
    } else if a > b {
        Ordering::Greater
    } else {
        Ordering::Equal
    }
}

impl Ktime {
    /// The number of nanoseconds that this value stands for.
    pub closed spec fn ns(self) -> int {
        self.0 as int
    }

    /// The time value of `ns` nanoseconds, in specifications.
    pub closed spec fn at(ns: int) -> Ktime {
        Ktime(ns as i64)
    }

    /// The time value of `ns` nanoseconds.
    pub fn from_ns(ns: i64) -> (t: Ktime)
        ensures
            t.ns() == ns,
            t == Ktime::at(ns as int),
    {
        Ktime(ns)
    }

    /// The nanoseconds of this time value.
    pub fn to_ns(&self) -> (ns: i64)
        ensures
            ns == self.ns(),
    {
        self.0
    }

    /// Adds `usec` microseconds. The sum wraps around the signed 64-bit
    /// scale, as the product of `usec` and a thousand does around the
    /// unsigned one.
    pub fn add_us(&self, usec: u64) -> (t: Ktime)
        ensures
            t.ns() == wrap_i64(self.ns() + usec * NSEC_PER_USEC),
    {
        let delta: u64 = usec.wrapping_mul(NSEC_PER_USEC);
        Ktime(self.0.wrapping_add_unsigned(delta))
    }

    /// Whether this time lies strictly after `other`.
    pub fn is_after(&self, other: &Ktime) -> (b: bool)
        ensures
            b == (self.ns() > other.ns()),
    {
        self.0 > other.0
    }

    /// A time value is its nanosecond count: two values with the same count
    /// are the same value, and every count within the signed 64-bit range
    /// is the count of the value made from it.
    pub proof fn lemma_ns_at(self)
        ensures
            i64::MIN <= self.ns() <= i64::MAX,
            Ktime::at(self.ns()) == self,
            forall|n: int| i64::MIN <= n <= i64::MAX ==> #[trigger] Ktime::at(n).ns() == n,
    {
    }
}

/// Compares two time values by their nanosecond counts.
pub fn ktime_compare(cmp1: &Ktime, cmp2: &Ktime) -> (o: Ordering)
    ensures
        o == order_of(cmp1.ns(), cmp2.ns()),
{
    if cmp1.0 < cmp2.0 {
        Ordering::Less
    } else if cmp1.0 > cmp2.0 {
        Ordering::Greater
    } else {
        Ordering::Equal
    }
}

impl PartialEq for Ktime {
    fn eq(&self, other: &Self) -> (b: bool) {
        match ktime_compare(self, other) {
            Ordering::Equal => true,
            _ => false,
        }
    }
}

impl PartialEqSpecImpl for Ktime {
    open spec fn obeys_eq_spec() -> bool {
        true
    }

    open spec fn eq_spec(&self, other: &Ktime) -> bool {
        self.ns() == other.ns()
    }
}

impl PartialOrd for Ktime {
    fn partial_cmp(&self, other: &Self) -> (o: Option<Ordering>) {
        Some(ktime_compare(self, other))
    }
}

impl PartialOrdSpecImpl for Ktime {
    open spec fn obeys_partial_cmp_spec() -> bool {
        true
    }

    open spec fn partial_cmp_spec(&self, other: &Ktime) -> Option<Ordering> {
        Some(order_of(self.ns(), other.ns()))
    }
}

} // verus!
