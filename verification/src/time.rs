//! Points in time and spans of time, both counted in whole microseconds.
use vstd::prelude::*;

verus! {

/// A span of time.
#[derive(Debug, Clone, Copy, PartialEq, Eq, Structural, Hash)]
pub struct Duration {
    micros: u64,
}

impl View for Duration {
    type V = nat;

    /// The length of the span in microseconds.
    closed spec fn view(&self) -> nat {
        self.micros as nat
    }
}

impl Duration {
    /// A span of the given number of microseconds.
    pub fn from_micros(micros: u64) -> (r: Duration)
        ensures
            r@ == micros,
    {
        Duration { micros }
    }

    /// The length of the span in microseconds.
    pub fn total_micros(&self) -> (r: u64)
        ensures
            r == self@,
    {
        self.micros
    }
}

/// A point in time, relative to some fixed moment (such as power-up).
#[derive(Debug, Clone, Copy, PartialEq, Eq, Structural, Hash)]
pub struct Instant {
    micros: i64,
}

impl View for Instant {
    type V = int;

    /// Microseconds since the fixed moment; negative for points before it.
    closed spec fn view(&self) -> int {
        self.micros as int
    }
}

impl Instant {
    /// The point that lies the given number of microseconds after the fixed moment.
    pub fn from_micros(micros: i64) -> (r: Instant)
        ensures
            r@ == micros,
    {
        Instant { micros }
    }

    /// Microseconds since the fixed moment.
    pub fn total_micros(&self) -> (r: i64)
        ensures
            r == self@,
    {
        self.micros
    }

    /// Can the point `span` after this one still be represented?
    pub open spec fn can_add(self, span: Duration) -> bool {
        self@ + span@ <= i64::MAX
    }

    /// The closed form of `self + span`.
    pub closed spec fn sum(self, span: Duration) -> Instant {
        Instant { micros: (self.micros + span.micros) as i64 }
    }

    /// Adding a span moves a point forward by exactly that span.
    pub broadcast proof fn lemma_sum(self, span: Duration)
        requires
            self.can_add(span),
        ensures
            (#[trigger] self.sum(span))@ == self@ + span@,
    {
    }
}

impl core::ops::Add<Duration> for Instant {
    type Output = Instant;

    fn add(self, rhs: Duration) -> (r: Instant) {
        Instant { micros: (self.micros as i128 + rhs.micros as i128) as i64 }
    }
}

impl vstd::std_specs::ops::AddSpecImpl<Duration> for Instant {
    open spec fn obeys_add_spec() -> bool {
        true
    }

    open spec fn add_req(self, rhs: Duration) -> bool {
        self.can_add(rhs)
    }

    open spec fn add_spec(self, rhs: Duration) -> Instant {
        self.sum(rhs)
    }
}

impl PartialOrd for Instant {
    fn partial_cmp(&self, other: &Instant) -> (r: Option<core::cmp::Ordering>) {
        if self.micros < other.micros {
            Some(core::cmp::Ordering::Less)
        } else if self.micros == other.micros {
            Some(core::cmp::Ordering::Equal)
        } else {
            Some(core::cmp::Ordering::Greater)
        }
    }
}

impl vstd::std_specs::cmp::PartialOrdSpecImpl for Instant {
    open spec fn obeys_partial_cmp_spec() -> bool {
        true
    }

    open spec fn partial_cmp_spec(&self, other: &Instant) -> Option<core::cmp::Ordering> {
        if self@ < other@ {
            Some(core::cmp::Ordering::Less)
        } else if self@ == other@ {
            Some(core::cmp::Ordering::Equal)
        } else {
            Some(core::cmp::Ordering::Greater)
        }
    }
}

/// Points and spans give back the microseconds that they were made of. A point moves by exactly the
/// span that is added to it, and points are ordered as their microseconds are.
pub proof fn law_time_is_counted_in_microseconds(
    a: i64,
    b: i64,
    span: u64,
    first: Instant,
    second: Instant,
    length: Duration,
)
    requires
        call_ensures(Instant::from_micros, (a,), first),
        call_ensures(Instant::from_micros, (b,), second),
        call_ensures(Duration::from_micros, (span,), length),
    ensures
        forall|r: i64| #[trigger] call_ensures(Instant::total_micros, (&first,), r) ==> r == a,
        forall|r: u64| #[trigger] call_ensures(Duration::total_micros, (&length,), r) ==> r == span,
        first == second ==> a == b,
        a + span <= i64::MAX ==> {
            &&& vstd::std_specs::ops::AddSpec::add_req(first, length)
            &&& forall|r: i64| #[trigger]
                call_ensures(
                    Instant::total_micros,
                    (&vstd::std_specs::ops::AddSpec::add_spec(first, length),),
                    r,
                ) ==> r == a + span
        },
        match vstd::std_specs::cmp::PartialOrdSpec::partial_cmp_spec(&first, &second) {
            Some(core::cmp::Ordering::Less) => a < b,
            Some(core::cmp::Ordering::Equal) => a == b,
            Some(core::cmp::Ordering::Greater) => a > b,
            None => false,
        },
{
    if first.can_add(length) {
        first.lemma_sum(length);
    }
}

} // verus!
