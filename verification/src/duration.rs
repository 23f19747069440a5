//! A span of time, counted in nanoseconds.
use vstd::prelude::*;

verus! {

/// The longest span: `u64::MAX` seconds and 999,999,999 nanoseconds.
pub const MAX_NANOS: u128 = 18_446_744_073_709_551_615_999_999_999;

/// Nanoseconds in one second.
pub const NANOS_PER_SEC: u128 = 1_000_000_000;

/// Nanoseconds in one millisecond.
pub const NANOS_PER_MILLI: u128 = 1_000_000;

/// A span of time of at most [`MAX_NANOS`] nanoseconds.
#[derive(Clone, Copy, Debug, PartialEq, Eq, Structural)]
pub struct Duration {
    nanos: u128,
}

/// The nanosecond count closest to `n` that a span can hold.
pub open spec fn saturated_nanos(n: nat) -> nat {
    if n <= MAX_NANOS {
        n
    } else {
        MAX_NANOS as nat
    }
}

impl View for Duration {
    type V = nat;

    closed spec fn view(&self) -> nat {
        self.nanos as nat
    }
}

/// How a span of `nanos` nanoseconds reads in messages, in the unit that suits it.
pub uninterp spec fn span_text(nanos: nat) -> Seq<char>;

/// The `Debug` form of `std::time::Duration`, which depends on the span's length
/// alone. What the form looks like is left unsaid.
#[verifier::external_body]
fn debug_form(secs: u64, subsec_nanos: u32) -> (text: String)
    requires
        subsec_nanos < NANOS_PER_SEC,
    ensures
        text@ == span_text((secs * NANOS_PER_SEC + subsec_nanos) as nat),
{
    format!("{:?}", std::time::Duration::new(secs, subsec_nanos))
}

impl Duration {
    #[verifier::type_invariant]
    spec fn in_range(self) -> bool {
        self.nanos <= MAX_NANOS
    }

    /// The empty span.
    pub fn zero() -> (d: Duration)
        ensures
            d@ == 0,
    {
        Duration { nanos: 0 }
    }

    /// A span of `nanos` nanoseconds.
    pub fn from_nanos(nanos: u64) -> (d: Duration)
        ensures
            d@ == nanos,
    {
        Duration { nanos: nanos as u128 }
    }

    /// A span of `nanos` nanoseconds, or the longest span where that is longer.
    pub fn saturating_from_nanos(nanos: u128) -> (d: Duration)
        ensures
            d@ == saturated_nanos(nanos as nat),
    {
        if nanos <= MAX_NANOS {
            Duration { nanos }
        } else {
            Duration { nanos: MAX_NANOS }
        }
    }

    /// A span of `millis` milliseconds.
    pub fn from_millis(millis: u64) -> (d: Duration)
        ensures
            d@ == millis * NANOS_PER_MILLI,
    {
        Duration { nanos: millis as u128 * NANOS_PER_MILLI }
    }

    /// A span of `secs` seconds.
    pub fn from_secs(secs: u64) -> (d: Duration)
        ensures
            d@ == secs * NANOS_PER_SEC,
    {
        Duration { nanos: secs as u128 * NANOS_PER_SEC }
    }

    /// A span of `secs` seconds and `subsec_nanos` nanoseconds.
    pub fn new(secs: u64, subsec_nanos: u32) -> (d: Duration)
        requires
            subsec_nanos < NANOS_PER_SEC,
        ensures
            d@ == secs * NANOS_PER_SEC + subsec_nanos,
    {
        Duration { nanos: secs as u128 * NANOS_PER_SEC + subsec_nanos as u128 }
    }

    /// The whole seconds of the span.
    pub fn as_secs(&self) -> (secs: u64)
        ensures
            secs == self@ / NANOS_PER_SEC as nat,
    {
        proof {
            use_type_invariant(self);
        }
        (self.nanos / NANOS_PER_SEC) as u64
    }

    /// The nanoseconds of the span past its whole seconds.
    pub fn subsec_nanos(&self) -> (nanos: u32)
        ensures
            nanos == self@ % NANOS_PER_SEC as nat,
            nanos < NANOS_PER_SEC,
    {
        (self.nanos % NANOS_PER_SEC) as u32
    }

    /// `self` repeated `factor` times, or the longest span where that is longer.
    pub fn saturating_mul(self, factor: u32) -> (d: Duration)
        ensures
            d@ == saturated_nanos(self@ * factor as nat),
    {
        proof {
            use_type_invariant(&self);
        }
        assert(self.nanos * factor <= MAX_NANOS * u32::MAX) by (nonlinear_arith)
            requires
                self.nanos <= MAX_NANOS,
                factor <= u32::MAX,
        ;
        let product: u128 = self.nanos * factor as u128;
        if product <= MAX_NANOS {
            Duration { nanos: product }
        } else {
            Duration { nanos: MAX_NANOS }
        }
    }

    /// The two spans in a row, or the longest span where that is longer.
    pub fn saturating_add(self, other: Duration) -> (d: Duration)
        ensures
            d@ == saturated_nanos(self@ + other@),
    {
        proof {
            use_type_invariant(&self);
            use_type_invariant(&other);
        }
        let sum: u128 = self.nanos + other.nanos;
        if sum <= MAX_NANOS {
            Duration { nanos: sum }
        } else {
            Duration { nanos: MAX_NANOS }
        }
    }

    /// What is left of `self` after `other`, or the empty span where nothing is.
    pub fn saturating_sub(self, other: Duration) -> (d: Duration)
        ensures
            d@ == if self@ >= other@ {
                (self@ - other@) as nat
            } else {
                0
            },
    {
        proof {
            use_type_invariant(&self);
        }
        if self.nanos >= other.nanos {
            Duration { nanos: self.nanos - other.nanos }
        } else {
            Duration { nanos: 0 }
        }
    }

    /// The shorter of two spans.
    pub fn min(self, other: Duration) -> (d: Duration)
        ensures
            d@ == if self@ <= other@ {
                self@
            } else {
                other@
            },
    {
        if self.nanos <= other.nanos {
            self
        } else {
            other
        }
    }

    /// The span as it reads in messages.
    pub fn to_text(&self) -> (text: String)
        ensures
            text@ == span_text(self@),
    {
        let secs: u64 = self.as_secs();
        let subsec_nanos: u32 = self.subsec_nanos();
        assert(secs * NANOS_PER_SEC + subsec_nanos == self@);
        debug_form(secs, subsec_nanos)
    }

    /// The length of the span in nanoseconds.
    pub fn as_nanos(&self) -> (nanos: u128)
        ensures
            nanos == self@,
            nanos <= MAX_NANOS,
    {
        proof {
            use_type_invariant(self);
        }
        self.nanos
    }

    /// Reports whether `self` is shorter than `other`.
    pub fn is_shorter_than(&self, other: &Duration) -> (shorter: bool)
        ensures
            shorter == (self@ < other@),
    {
        self.nanos < other.nanos
    }
}

/// Spans are counted in nanoseconds, a thousand million to the second and a million to
/// the millisecond.
pub proof fn spans_count_nanoseconds(n: u64, secs: Duration, millis: Duration, nanos: Duration)
    requires
        call_ensures(Duration::from_secs, (n,), secs),
        call_ensures(Duration::from_millis, (n,), millis),
        call_ensures(Duration::from_nanos, (n,), nanos),
    ensures
        nanos@ == n,
        millis@ == n * 1_000_000,
        secs@ == n * 1_000_000_000,
{
}

/// Whole seconds and the nanoseconds past them make up the span.
pub proof fn seconds_and_nanoseconds_make_up_the_span(
    span: Duration,
    secs: u64,
    nanos: u32,
    again: Duration,
)
    requires
        call_ensures(Duration::as_secs, (&span,), secs),
        call_ensures(Duration::subsec_nanos, (&span,), nanos),
        call_ensures(Duration::new, (secs, nanos), again),
    ensures
        nanos < 1_000_000_000,
        secs * 1_000_000_000 + nanos == span@,
        again@ == span@,
{
}

/// Sums, differences and multiples of spans are those of their lengths, cut off at
/// nothing and at the longest span; and the shorter of two is no longer than either.
pub proof fn spans_are_reckoned_by_length(
    a: Duration,
    b: Duration,
    factor: u32,
    sum: Duration,
    rest: Duration,
    product: Duration,
    shorter: Duration,
    less: bool,
)
    requires
        call_ensures(Duration::saturating_add, (a, b), sum),
        call_ensures(Duration::saturating_sub, (a, b), rest),
        call_ensures(Duration::saturating_mul, (a, factor), product),
        call_ensures(Duration::min, (a, b), shorter),
        call_ensures(Duration::is_shorter_than, (&a, &b), less),
    ensures
        ({
            let longest = 18_446_744_073_709_551_615_999_999_999nat;
            &&& a@ + b@ <= longest ==> sum@ == a@ + b@
            &&& a@ + b@ > longest ==> sum@ == longest
            &&& a@ >= b@ ==> rest@ == a@ - b@
            &&& a@ < b@ ==> rest@ == 0
            &&& a@ * factor <= longest ==> product@ == a@ * factor
            &&& a@ * factor > longest ==> product@ == longest
        }),
        shorter@ <= a@,
        shorter@ <= b@,
        shorter@ == a@ || shorter@ == b@,
        less <==> a@ < b@,
{
}

} // verus!
