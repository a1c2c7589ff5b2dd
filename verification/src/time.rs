//! Temporal types and operations.

use vstd::prelude::*;

verus! {

/// Nanoseconds in a second.
pub const NS_PER_S: i128 = 1_000_000_000;

/// Time measured since the Unix epoch, in nanoseconds.
///
/// The Unix epoch = Julian date 2440587.5 = Gregorian date January 1st 1970 00:00 UTC
#[derive(Clone, Copy, Debug, PartialEq, Eq, Structural, PartialOrd, Ord, Hash)]
pub struct EpochTime {
    ns: i128,
}

impl View for EpochTime {
    type V = int;

    /// Nanoseconds since the Unix epoch.
    closed spec fn view(&self) -> int {
        self.ns as int
    }
}

/// The nanoseconds that `s` seconds and `ns` nanoseconds are.
pub open spec fn ns_of_s_ns(s: int, ns: int) -> int {
    NS_PER_S * s + ns
}

/// Whether `n` is a 128-bit signed number.
pub open spec fn fits_i128(n: int) -> bool {
    i128::MIN <= n <= i128::MAX
}

impl EpochTime {
    /// Convert from nanoseconds since the Unix epoch to an `EpochTime`.
    pub fn from_ns_since_epoch(n: i128) -> (t: EpochTime)
        ensures
            t@ == n,
    {
        EpochTime { ns: n }
    }

    /// Convert from an `EpochTime` to nanoseconds since the Unix epoch.
    pub fn to_ns_since_epoch(self) -> (n: i128)
        ensures
            n == self@,
    {
        self.ns
    }

    /// The time that is `s` seconds and `ns` nanoseconds after the Unix
    /// epoch, as the kernel gives a time.
    pub fn from_s_ns(s: i64, ns: i64) -> (t: EpochTime)
        ensures
            t@ == ns_of_s_ns(s as int, ns as int),
    {
        EpochTime { ns: NS_PER_S * (s as i128) + (ns as i128) }
    }

    /// The time `span` nanoseconds after this one. The sum must be a 128-bit
    /// signed number.
    pub fn add_ns(self, span: i128) -> (t: EpochTime)
        requires
            fits_i128(self@ + span),
        ensures
            t@ == self@ + span,
    {
        EpochTime { ns: self.ns + span }
    }

    /// The time `span` nanoseconds before this one. The difference must be a
    /// 128-bit signed number.
    pub fn sub_ns(self, span: i128) -> (t: EpochTime)
        requires
            fits_i128(self@ - span),
        ensures
            t@ == self@ - span,
    {
        EpochTime { ns: self.ns - span }
    }

    /// The nanoseconds from `other` to this time. The difference must be a
    /// 128-bit signed number.
    pub fn since(self, other: EpochTime) -> (span: i128)
        requires
            fits_i128(self@ - other@),
        ensures
            span == self@ - other@,
    {
        self.ns - other.ns
    }
}

/// The quotient of `a` by the positive number `b`, rounded towards zero.
pub open spec fn quotient(a: int, b: int) -> int {
    if a >= 0 {
        a / b
    } else {
        -((-a) / b)
    }
}

/// What is left of `a` when the quotient by `b`, rounded towards zero, is
/// taken out: it has the sign of `a`.
pub open spec fn remainder(a: int, b: int) -> int {
    a - b * quotient(a, b)
}

/// Split a span of `ns` nanoseconds into the seconds and the nanoseconds
/// that the kernel takes a time as; `None` where the seconds are no 64-bit
/// signed number. Both parts have the sign of `ns`.
pub fn to_timespec(ns: i128) -> (r: Option<(i64, i64)>)
    ensures
        r is Some <==> i64::MIN <= quotient(ns as int, NS_PER_S as int) <= i64::MAX,
        r matches Some((s, n)) ==> {
            &&& s == quotient(ns as int, NS_PER_S as int)
            &&& n == remainder(ns as int, NS_PER_S as int)
            &&& ns_of_s_ns(s as int, n as int) == ns
            &&& -NS_PER_S < n < NS_PER_S
        },
{
    let s = ns / NS_PER_S;
    let n = ns % NS_PER_S;
    if s < i64::MIN as i128 || s > i64::MAX as i128 {
        None
    } else {
        Some((s as i64, n as i64))
    }
}

} // verus!
