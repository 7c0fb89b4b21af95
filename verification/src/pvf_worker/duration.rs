//! Spans of process-CPU time, held as whole seconds and a sub-second part.

use vstd::prelude::*;

verus! {

/// Nanoseconds in one second.
pub const NANOS_PER_SEC: u32 = 1_000_000_000;

/// Nanoseconds in one millisecond.
pub const NANOS_PER_MILLI: u32 = 1_000_000;

/// Milliseconds in one second.
pub const MILLIS_PER_SEC: u64 = 1_000;

/// A span of CPU time. The sub-second part is always below one second, so two
/// spans are equal exactly when they last equally long.
#[derive(Clone, Copy, Debug, PartialEq, Eq, Structural)]
pub struct CpuDuration {
    secs: u64,
    nanos: u32,
}

impl CpuDuration {
    /// The invariant of the type: the sub-second part is less than a second.
    #[verifier::type_invariant]
    pub closed spec fn wf(self) -> bool {
        self.nanos < NANOS_PER_SEC
    }

    /// Whole seconds of the span.
    pub closed spec fn spec_secs(self) -> u64 {
        self.secs
    }

    /// Nanoseconds beyond the whole seconds.
    pub closed spec fn spec_subsec_nanos(self) -> u32 {
        self.nanos
    }

    /// The span in nanoseconds: the model that contracts compare and add.
    pub open spec fn total_nanos(self) -> nat {
        (self.spec_secs() as nat) * (NANOS_PER_SEC as nat) + (self.spec_subsec_nanos() as nat)
    }

    /// The span with the given parts, for contracts that build one.
    pub closed spec fn spec_new(secs: u64, nanos: u32) -> CpuDuration {
        CpuDuration { secs, nanos }
    }

    /// `spec_new` has the parts it was given.
    pub proof fn lemma_spec_new(secs: u64, nanos: u32)
        ensures
            Self::spec_new(secs, nanos).spec_secs() == secs,
            Self::spec_new(secs, nanos).spec_subsec_nanos() == nanos,
            Self::spec_new(secs, nanos).wf() <==> nanos < NANOS_PER_SEC,
    {
    }

    /// A span is determined by its two parts.
    pub proof fn lemma_parts(self)
        ensures
            self == Self::spec_new(self.spec_secs(), self.spec_subsec_nanos()),
    {
    }

    /// What `wf` says, over the two parts.
    pub proof fn lemma_wf(self)
        ensures
            self.wf() <==> self.spec_subsec_nanos() < NANOS_PER_SEC,
    {
    }

    /// Well-formed spans with the same parts are the same span, and so are
    /// well-formed spans of the same length.
    pub proof fn lemma_total_nanos_injective(self, other: CpuDuration)
        requires
            self.wf(),
            other.wf(),
            self.total_nanos() == other.total_nanos(),
        ensures
            self == other,
    {
        let a: int = self.secs as int;
        let b: int = other.secs as int;
        assert(a * 1_000_000_000 + self.nanos == b * 1_000_000_000 + other.nanos);
        if a < b {
            assert(b * 1_000_000_000 >= (a + 1) * 1_000_000_000) by (nonlinear_arith)
                requires a < b;
        } else if b < a {
            assert(a * 1_000_000_000 >= (b + 1) * 1_000_000_000) by (nonlinear_arith)
                requires b < a;
        }
    }

    /// The empty span.
    pub fn zero() -> (d: CpuDuration)
        ensures
            d.wf(),
            d.spec_secs() == 0,
            d.spec_subsec_nanos() == 0,
            d.total_nanos() == 0,
    {
        CpuDuration { secs: 0, nanos: 0 }
    }

    /// A span from its two parts; `None` when `nanos` is a second or more.
    pub fn new(secs: u64, nanos: u32) -> (d: Option<CpuDuration>)
        ensures
            d is Some <==> nanos < NANOS_PER_SEC,
            d matches Some(span) ==> span == Self::spec_new(secs, nanos) && span.wf()
                && span.spec_secs() == secs && span.spec_subsec_nanos() == nanos,
    {
        if nanos < NANOS_PER_SEC {
            Some(CpuDuration { secs, nanos })
        } else {
            None
        }
    }

    /// A span of whole seconds.
    pub fn from_secs(secs: u64) -> (d: CpuDuration)
        ensures
            d.wf(),
            d.spec_secs() == secs,
            d.spec_subsec_nanos() == 0,
            d.total_nanos() == secs as nat * (NANOS_PER_SEC as nat),
    {
        CpuDuration { secs, nanos: 0 }
    }

    /// A span of whole milliseconds.
    pub fn from_millis(millis: u64) -> (d: CpuDuration)
        ensures
            d.wf(),
            d.total_nanos() == millis as nat * (NANOS_PER_MILLI as nat),
    {
        let secs: u64 = millis / MILLIS_PER_SEC;
        let rest: u64 = millis % MILLIS_PER_SEC;
        let nanos: u32 = (rest as u32) * NANOS_PER_MILLI;
        assert(millis as nat * 1_000_000 == (secs as nat) * 1_000_000_000 + (rest as nat) * 1_000_000)
            by (nonlinear_arith)
            requires
                secs == millis / 1_000,
                rest == millis % 1_000,
        ;
        CpuDuration { secs, nanos }
    }

    /// Whole seconds of the span.
    pub fn as_secs(&self) -> (secs: u64)
        ensures
            secs == self.spec_secs(),
    {
        self.secs
    }

    /// Nanoseconds beyond the whole seconds: always less than a second.
    pub fn subsec_nanos(&self) -> (nanos: u32)
        ensures
            nanos == self.spec_subsec_nanos(),
            nanos < NANOS_PER_SEC,
            self.wf(),
    {
        proof {
            use_type_invariant(self);
        }
        self.nanos
    }

    /// The span in whole milliseconds, rounded down.
    pub fn as_millis(&self) -> (millis: u128)
        ensures
            millis == self.total_nanos() / (NANOS_PER_MILLI as nat),
    {
        proof {
            use_type_invariant(self);
        }
        let whole: u128 = (self.secs as u128) * (MILLIS_PER_SEC as u128);
        let part: u128 = (self.nanos / NANOS_PER_MILLI) as u128;
        assert(((self.secs as nat) * 1_000_000_000 + (self.nanos as nat)) / 1_000_000
            == (self.secs as nat) * 1_000 + (self.nanos as nat) / 1_000_000) by (nonlinear_arith);
        whole + part
    }

    /// Whether this span is at least as long as `other`.
    pub fn at_least(&self, other: &CpuDuration) -> (r: bool)
        ensures
            r == (self.total_nanos() >= other.total_nanos()),
    {
        proof {
            use_type_invariant(self);
            use_type_invariant(other);
            let a: int = self.secs as int;
            let b: int = other.secs as int;
            if a < b {
                assert(b * 1_000_000_000 >= (a + 1) * 1_000_000_000) by (nonlinear_arith)
                    requires a < b;
            } else if b < a {
                assert(a * 1_000_000_000 >= (b + 1) * 1_000_000_000) by (nonlinear_arith)
                    requires b < a;
            }
        }
        self.secs > other.secs || (self.secs == other.secs && self.nanos >= other.nanos)
    }

    /// The part of this span that exceeds `other`, or the empty span when
    /// there is none.
    pub fn saturating_sub(&self, other: &CpuDuration) -> (d: CpuDuration)
        ensures
            d.wf(),
            self.total_nanos() >= other.total_nanos() ==> d.total_nanos() == self.total_nanos()
                - other.total_nanos(),
            self.total_nanos() < other.total_nanos() ==> d.total_nanos() == 0,
    {
        proof {
            use_type_invariant(self);
            use_type_invariant(other);
        }
        if !self.at_least(other) {
            return CpuDuration { secs: 0, nanos: 0 };
        }
        proof {
            let a: int = self.secs as int;
            let b: int = other.secs as int;
            if a < b {
                assert(b * 1_000_000_000 >= (a + 1) * 1_000_000_000) by (nonlinear_arith)
                    requires a < b;
            }
        }
        if self.nanos >= other.nanos {
            let secs: u64 = self.secs - other.secs;
            let nanos: u32 = self.nanos - other.nanos;
            assert((secs as nat) * 1_000_000_000 == (self.secs as nat) * 1_000_000_000
                - (other.secs as nat) * 1_000_000_000) by (nonlinear_arith)
                requires secs == self.secs - other.secs;
            CpuDuration { secs, nanos }
        } else {
            let secs: u64 = self.secs - other.secs - 1;
            let nanos: u32 = self.nanos + NANOS_PER_SEC - other.nanos;
            assert((secs as nat) * 1_000_000_000 == (self.secs as nat) * 1_000_000_000
                - (other.secs as nat) * 1_000_000_000 - 1_000_000_000) by (nonlinear_arith)
                requires secs == self.secs - other.secs - 1;
            CpuDuration { secs, nanos }
        }
    }
}

} // verus!
