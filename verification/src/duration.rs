//! A span of time, held as whole seconds plus a sub-second count of nanoseconds.
use vstd::prelude::*;
use vstd::arithmetic::div_mod::lemma_fundamental_div_mod_converse;

verus! {

/// Nanoseconds in one second.
pub const NANOS_PER_SEC: u32 = 1_000_000_000;

/// Nanoseconds in one millisecond.
pub const NANOS_PER_MILLI: u32 = 1_000_000;

/// A span of time with nanosecond precision, laid out as `std::time::Duration` is:
/// whole seconds and the nanoseconds of the second that is not whole.
#[derive(Debug, Clone, Copy, PartialEq, Eq)]
pub struct Duration {
    secs: u64,
    nanos: u32,
}

impl View for Duration {
    /// The length of the span in nanoseconds.
    type V = nat;

    closed spec fn view(&self) -> nat {
        (self.secs as nat) * (NANOS_PER_SEC as nat) + (self.nanos as nat)
    }
}

impl Duration {
    /// The sub-second part is always below one second.
    #[verifier::type_invariant]
    spec fn wf(self) -> bool {
        self.nanos < NANOS_PER_SEC
    }

    /// The number of whole milliseconds in the span.
    pub open spec fn millis(self) -> nat {
        self@ / (NANOS_PER_MILLI as nat)
    }

    /// The span of `secs` seconds and `nanos` nanoseconds; nanoseconds beyond one
    /// second are carried into the seconds. The carried seconds must fit in a `u64`.
    pub fn new(secs: u64, nanos: u32) -> (d: Duration)
        requires
            secs + nanos / NANOS_PER_SEC <= u64::MAX,
        ensures
            d@ == secs * (NANOS_PER_SEC as nat) + nanos,
    {
        let carry: u64 = (nanos / NANOS_PER_SEC) as u64;
        let rest: u32 = nanos % NANOS_PER_SEC;
        proof {
            lemma_fundamental_div_mod_converse(
                nanos as int,
                NANOS_PER_SEC as int,
                (nanos / NANOS_PER_SEC) as int,
                (nanos % NANOS_PER_SEC) as int,
            );
        }
        Duration { secs: secs + carry, nanos: rest }
    }

    /// The span of `secs` whole seconds.
    pub fn from_secs(secs: u64) -> (d: Duration)
        ensures
            d@ == secs * (NANOS_PER_SEC as nat),
    {
        Duration { secs, nanos: 0 }
    }

    /// The span of `millis` milliseconds.
    pub fn from_millis(millis: u64) -> (d: Duration)
        ensures
            d@ == millis * (NANOS_PER_MILLI as nat),
    {
        let secs: u64 = millis / 1000;
        let sub: u64 = millis % 1000;
        assert(sub * 1_000_000 < 1_000_000_000) by (nonlinear_arith)
            requires
                sub < 1000,
        ;
        let nanos: u32 = (sub * 1_000_000) as u32;
        proof {
            lemma_fundamental_div_mod_converse(millis as int, 1000, secs as int, sub as int);
            assert(millis * 1_000_000 == secs * 1_000_000_000 + sub * 1_000_000) by (nonlinear_arith)
                requires
                    millis == secs * 1000 + sub,
            ;
        }
        Duration { secs, nanos }
    }

    /// The number of whole milliseconds in the span.
    pub fn as_millis(&self) -> (ms: u128)
        ensures
            ms == self.millis(),
    {
        proof {
            use_type_invariant(self);
        }
        let ms: u128 = (self.secs as u128) * 1000 + ((self.nanos / NANOS_PER_MILLI) as u128);
        proof {
            let q: int = (self.nanos / NANOS_PER_MILLI) as int;
            let r: int = (self.nanos % NANOS_PER_MILLI) as int;
            lemma_fundamental_div_mod_converse(
                self.nanos as int,
                NANOS_PER_MILLI as int,
                q,
                r,
            );
            let total: int = (self.secs as int) * 1_000_000_000 + (self.nanos as int);
            assert(total == ((self.secs as int) * 1000 + q) * 1_000_000 + r) by (nonlinear_arith)
                requires
                    self.nanos == q * 1_000_000 + r,
                    total == (self.secs as int) * 1_000_000_000 + (self.nanos as int),
            ;
            lemma_fundamental_div_mod_converse(
                total,
                NANOS_PER_MILLI as int,
                (self.secs as int) * 1000 + q,
                r,
            );
        }
        ms
    }
}

/// The millisecond count of a span is its whole number of milliseconds: the span lies
/// between that many milliseconds and one more.
pub proof fn lemma_millis_are_whole_milliseconds(d: Duration)
    ensures
        d.millis() * (NANOS_PER_MILLI as nat) <= d@,
        d@ < (d.millis() + 1) * (NANOS_PER_MILLI as nat),
{
    vstd::arithmetic::div_mod::lemma_fundamental_div_mod(d@ as int, NANOS_PER_MILLI as int);
}

} // verus!
