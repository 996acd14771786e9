//! Points in time and time spans, counted in nanoseconds.

use vstd::prelude::*;

verus! {

/// A span of time.
#[derive(Clone, Copy, Debug, PartialEq, Eq, Structural)]
pub struct Duration {
    pub nanos: u128,
}

/// A point in time, counted from an origin that the embedder fixes once;
/// points before the origin are negative.
#[derive(Clone, Copy, Debug, PartialEq, Eq, Structural)]
pub struct Instant {
    pub nanos: i128,
}

/// How long a wait with this timeout may last: `None` stands for a wait
/// without an end.
pub open spec fn timeout_admits(timeout: Option<Duration>, nanos: nat) -> bool {
    match timeout {
        Some(limit) => nanos <= limit.nanos,
        None => true,
    }
}

/// The time from `earlier` to `later`, or nothing when `later` is not later.
pub open spec fn span_between(later: Instant, earlier: Instant) -> int {
    if later.nanos > earlier.nanos {
        later.nanos - earlier.nanos
    } else {
        0
    }
}

impl Duration {
    /// The empty span.
    pub fn zero() -> (span: Duration)
        ensures
            span.nanos == 0,
    {
        Duration { nanos: 0 }
    }
}

impl Instant {
    /// The time that has passed since `earlier`, or zero when `earlier` is the later one.
    pub fn saturating_duration_since(self, earlier: Instant) -> (span: Duration)
        ensures
            span.nanos == span_between(self, earlier),
            self.nanos >= earlier.nanos ==> earlier.nanos + span.nanos == self.nanos,
            self.nanos <= earlier.nanos ==> span.nanos == 0,
    {
        if self.nanos <= earlier.nanos {
            Duration { nanos: 0 }
        } else if earlier.nanos >= 0 || self.nanos < 0 {
            Duration { nanos: (self.nanos - earlier.nanos) as u128 }
        } else {
            let above: u128 = self.nanos as u128;
            let below: u128 = (-(earlier.nanos + 1)) as u128;
            Duration { nanos: above + below + 1 }
        }
    }

    /// Whether `self` comes before `other`.
    pub fn is_before(self, other: Instant) -> (before: bool)
        ensures
            before == (self.nanos < other.nanos),
    {
        self.nanos < other.nanos
    }
}

/// The smaller of two timeouts, where `None` is a wait without an end, not a
/// wait of no length.
pub open spec fn least_timeout(a: Option<Duration>, b: Option<Duration>) -> Option<Duration> {
    match (a, b) {
        (Some(x), Some(y)) => if x.nanos <= y.nanos {
            Some(x)
        } else {
            Some(y)
        },
        (Some(x), None) => Some(x),
        (None, _) => b,
    }
}

/// The minimum of two timeouts, taking into account that `None` equates to an
/// infinite timeout and not to a zero timeout: a wait fits the result exactly
/// when it fits both.
pub fn min_timeout(a: Option<Duration>, b: Option<Duration>) -> (least: Option<Duration>)
    ensures
        least == least_timeout(a, b),
        least is None <==> a is None && b is None,
        least is Some ==> least == a || least == b,
        a matches Some(x) ==> (least matches Some(z) && z.nanos <= x.nanos),
        b matches Some(y) ==> (least matches Some(z) && z.nanos <= y.nanos),
        forall|nanos: nat| #[trigger]
            timeout_admits(least, nanos) <==> timeout_admits(a, nanos) && timeout_admits(b, nanos),
{
    match a {
        None => b,
        Some(a_timeout) => match b {
            None => Some(a_timeout),
            Some(b_timeout) => if b_timeout.nanos < a_timeout.nanos {
                Some(b_timeout)
            } else {
                Some(a_timeout)
            },
        },
    }
}

/// The minimum of timeouts does not depend on their order.
pub proof fn law_min_timeout_commutes(a: Option<Duration>, b: Option<Duration>)
    ensures
        least_timeout(a, b) == least_timeout(b, a),
{
}

/// The minimum of three timeouts does not depend on how they are grouped.
pub proof fn law_min_timeout_associates(
    a: Option<Duration>,
    b: Option<Duration>,
    c: Option<Duration>,
)
    ensures
        least_timeout(least_timeout(a, b), c) == least_timeout(a, least_timeout(b, c)),
{
}

/// An infinite timeout leaves the other one as it is, and a zero timeout
/// always wins.
pub proof fn law_min_timeout_bounds(a: Option<Duration>)
    ensures
        least_timeout(a, None) == a,
        least_timeout(a, Some(Duration { nanos: 0 })) == Some(Duration { nanos: 0 }),
{
}

/// The span between two points is what has to be added to the earlier one to get
/// to the later one, and nothing when there is nothing to add.
pub proof fn law_span_leads_to_later(later: Instant, earlier: Instant)
    ensures
        later.nanos >= earlier.nanos ==> earlier.nanos + span_between(later, earlier)
            == later.nanos,
        later.nanos <= earlier.nanos ==> span_between(later, earlier) == 0,
        0 <= span_between(later, earlier) <= u128::MAX,
{
}

/// The minimum of two timeouts is one of them and no longer than either; there is
/// none only where both are infinite.
pub proof fn law_min_timeout_is_the_smaller(a: Option<Duration>, b: Option<Duration>)
    ensures
        least_timeout(a, b) is None <==> a is None && b is None,
        least_timeout(a, b) is Some ==> least_timeout(a, b) == a || least_timeout(a, b) == b,
        a matches Some(x) ==> (least_timeout(a, b) matches Some(z) && z.nanos <= x.nanos),
        b matches Some(y) ==> (least_timeout(a, b) matches Some(z) && z.nanos <= y.nanos),
{
}

/// A timeout admits the waits up to its length, and an infinite one all of them.
pub proof fn law_timeout_admits_up_to_its_length(limit: Duration, nanos: nat)
    ensures
        timeout_admits(Some(limit), nanos) <==> nanos <= limit.nanos,
        timeout_admits(None, nanos),
{
}

} // verus!
