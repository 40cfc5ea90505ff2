//! Lengths of time, as whole seconds and a fraction in nanoseconds.

use vstd::prelude::*;

verus! {

/// Nanoseconds in one second.
pub const NANOS_PER_SEC: u32 = 1_000_000_000;

/// The time from the reading `earlier` to the reading `later`, in
/// nanoseconds; nothing if the clock went backwards.
pub open spec fn elapsed_nanos(earlier: nat, later: nat) -> nat {
    if later >= earlier {
        (later - earlier) as nat
    } else {
        0
    }
}

/// A length of time. A clock reading is the span since the clock's origin.
#[derive(Debug, Clone, Copy, PartialEq, Eq, Structural)]
pub struct Span {
    secs: u64,
    subsec_nanos: u32,
}

impl Span {
    #[verifier::type_invariant]
    spec fn well_formed(self) -> bool {
        self.subsec_nanos < NANOS_PER_SEC
    }

    /// The whole span in nanoseconds.
    pub closed spec fn nanos(self) -> nat {
        (self.secs * NANOS_PER_SEC + self.subsec_nanos) as nat
    }

    /// The span of `secs` seconds and `subsec_nanos` nanoseconds, if the
    /// fraction is less than one second.
    pub fn new(secs: u64, subsec_nanos: u32) -> (span: Option<Span>)
        ensures
            span is Some <==> subsec_nanos < NANOS_PER_SEC,
            span is Some ==> span->0.nanos() == secs * NANOS_PER_SEC + subsec_nanos,
    {
        if subsec_nanos < NANOS_PER_SEC {
            Some(Span { secs, subsec_nanos })
        } else {
            None
        }
    }

    /// The empty span.
    pub fn zero() -> (span: Span)
        ensures
            span.nanos() == 0,
    {
        Span { secs: 0, subsec_nanos: 0 }
    }

    /// The whole seconds in the span.
    pub fn secs(&self) -> (secs: u64)
        ensures
            secs == self.nanos() / (NANOS_PER_SEC as nat),
    {
        proof {
            use_type_invariant(self);
            assert((self.secs * 1_000_000_000 + self.subsec_nanos) / 1_000_000_000
                == self.secs as int) by (nonlinear_arith)
                requires
                    0 <= self.subsec_nanos < 1_000_000_000,
            ;
        }
        self.secs
    }

    /// The fraction of a second in the span, in nanoseconds.
    pub fn subsec_nanos(&self) -> (subsec_nanos: u32)
        ensures
            subsec_nanos == self.nanos() % (NANOS_PER_SEC as nat),
            subsec_nanos < NANOS_PER_SEC,
    {
        proof {
            use_type_invariant(self);
            assert((self.secs * 1_000_000_000 + self.subsec_nanos) % 1_000_000_000
                == self.subsec_nanos as int) by (nonlinear_arith)
                requires
                    0 <= self.subsec_nanos < 1_000_000_000,
                    0 <= self.secs,
            ;
        }
        self.subsec_nanos
    }

    /// The time from `earlier` to `self`, or the empty span if `earlier` is
    /// the later of the two.
    pub fn saturating_sub(&self, earlier: &Span) -> (span: Span)
        ensures
            span.nanos() == elapsed_nanos(earlier.nanos(), self.nanos()),
    {
        proof {
            use_type_invariant(self);
            use_type_invariant(earlier);
        }
        if self.secs < earlier.secs {
            Span::zero()
        } else if self.subsec_nanos >= earlier.subsec_nanos {
            Span {
                secs: self.secs - earlier.secs,
                subsec_nanos: self.subsec_nanos - earlier.subsec_nanos,
            }
        } else if self.secs > earlier.secs {
            Span {
                secs: self.secs - earlier.secs - 1,
                subsec_nanos: self.subsec_nanos + (NANOS_PER_SEC - earlier.subsec_nanos),
            }
        } else {
            Span::zero()
        }
    }
}

} // verus!
