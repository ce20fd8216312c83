//! Spans of simulated time, with nanosecond resolution.

use vstd::prelude::*;

verus! {

/// Nanoseconds in one second.
pub const NANOS_PER_SEC: u32 = 1_000_000_000;

/// The longest span a [`SimulationDuration`] can hold, in nanoseconds:
/// `u64::MAX` whole seconds and 999,999,999 nanoseconds.
pub const MAX_NANOS: u128 = 18_446_744_073_709_551_615_999_999_999;

/// A non-negative span of time, counted in nanoseconds.
///
/// Its view is the number of nanoseconds, never above `MAX_NANOS`, so the
/// whole seconds of a span always fit in `u64`.
#[derive(Clone, Copy, Debug, PartialEq, Eq, Structural, Hash)]
pub struct SimulationDuration {
    nanos: u128,
}

impl View for SimulationDuration {
    type V = nat;

    closed spec fn view(&self) -> nat {
        self.nanos as nat
    }
}

impl SimulationDuration {
    #[verifier::type_invariant]
    spec fn within_limit(self) -> bool {
        self.nanos <= MAX_NANOS
    }

    /// The span whose view is `nanos`, for `nanos` up to `u128::MAX`.
    pub closed spec fn of_nanos(nanos: nat) -> SimulationDuration {
        SimulationDuration { nanos: nanos as u128 }
    }

    /// A span is determined by its view.
    pub proof fn view_determines(self)
        ensures
            self == SimulationDuration::of_nanos(self@),
    {
    }

    /// The view of `of_nanos(nanos)` is `nanos`.
    pub proof fn view_of_nanos(nanos: nat)
        requires
            nanos <= u128::MAX,
        ensures
            SimulationDuration::of_nanos(nanos)@ == nanos,
    {
    }

    /// The empty span.
    pub fn zero() -> (d: SimulationDuration)
        ensures
            d@ == 0,
    {
        SimulationDuration { nanos: 0 }
    }

    /// A span of `secs` seconds and `nanos` nanoseconds. A `nanos` of a second
    /// or more carries into the seconds, which must stay within `u64`.
    pub fn new(secs: u64, nanos: u32) -> (d: SimulationDuration)
        requires
            secs + nanos / NANOS_PER_SEC <= u64::MAX,
        ensures
            d@ == secs * NANOS_PER_SEC + nanos,
    {
        SimulationDuration { nanos: secs as u128 * 1_000_000_000 + nanos as u128 }
    }

    /// A span of `secs` whole seconds.
    pub fn from_secs(secs: u64) -> (d: SimulationDuration)
        ensures
            d@ == secs * NANOS_PER_SEC,
    {
        SimulationDuration { nanos: secs as u128 * 1_000_000_000 }
    }

    /// A span of `nanos` nanoseconds, or `None` where that is longer than
    /// `MAX_NANOS`.
    pub fn checked_from_nanos(nanos: u128) -> (r: Option<SimulationDuration>)
        ensures
            r is Some <==> nanos <= MAX_NANOS,
            r matches Some(d) ==> d@ == nanos,
    {
        if nanos > MAX_NANOS {
            None
        } else {
            Some(SimulationDuration { nanos })
        }
    }

    /// The whole seconds in the span.
    pub fn as_secs(&self) -> (secs: u64)
        ensures
            secs == self@ / (NANOS_PER_SEC as nat),
    {
        proof {
            use_type_invariant(self);
        }
        (self.nanos / 1_000_000_000) as u64
    }

    /// The nanoseconds past the last whole second.
    pub fn subsec_nanos(&self) -> (nanos: u32)
        ensures
            nanos == self@ % (NANOS_PER_SEC as nat),
            nanos < NANOS_PER_SEC,
    {
        (self.nanos % 1_000_000_000) as u32
    }

    /// The whole span in nanoseconds.
    pub fn as_nanos(&self) -> (nanos: u128)
        ensures
            nanos == self@,
            nanos <= MAX_NANOS,
    {
        proof {
            use_type_invariant(self);
        }
        self.nanos
    }

    /// Whether the span is empty.
    pub fn is_zero(&self) -> (zero: bool)
        ensures
            zero == (self@ == 0),
    {
        self.nanos == 0
    }

    /// The sum of two spans, or `None` where it is longer than `MAX_NANOS`.
    pub fn checked_add(self, rhs: SimulationDuration) -> (r: Option<SimulationDuration>)
        ensures
            r is Some <==> self@ + rhs@ <= MAX_NANOS,
            r matches Some(d) ==> d@ == self@ + rhs@,
    {
        proof {
            use_type_invariant(self);
            use_type_invariant(rhs);
        }
        SimulationDuration::checked_from_nanos(self.nanos + rhs.nanos)
    }

    /// The span less `rhs`, or the empty span where `rhs` is the longer.
    pub fn saturating_sub(self, rhs: SimulationDuration) -> (d: SimulationDuration)
        ensures
            d@ == if self@ >= rhs@ {
                self@ - rhs@
            } else {
                0
            },
    {
        proof {
            use_type_invariant(self);
        }
        if self.nanos >= rhs.nanos {
            SimulationDuration { nanos: self.nanos - rhs.nanos }
        } else {
            SimulationDuration { nanos: 0 }
        }
    }
}

} // verus!
