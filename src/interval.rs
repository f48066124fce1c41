use vstd::arithmetic::div_mod::lemma_fundamental_div_mod_converse;
use vstd::prelude::*;

verus! {

/// Nanoseconds in one second.
pub const NANOS_PER_SEC: u32 = 1_000_000_000;

/// A span of time: whole seconds and the nanoseconds beyond them.
///
/// Its view is the span's length in nanoseconds.
#[derive(Clone, Copy, Debug, PartialEq, Eq)]
pub struct Interval {
    secs: u64,
    nanos: u32,
}

impl View for Interval {
    type V = nat;

    closed spec fn view(&self) -> nat {
        self.secs as nat * NANOS_PER_SEC as nat + self.nanos as nat
    }
}

impl Interval {
    #[verifier::type_invariant]
    spec fn nanos_below_one_second(self) -> bool {
        self.nanos < NANOS_PER_SEC
    }

    /// The span of `secs` whole seconds.
    pub fn from_secs(secs: u64) -> (r: Interval)
        ensures
            r@ == secs as nat * NANOS_PER_SEC as nat,
    {
        Interval { secs, nanos: 0 }
    }

    /// The span of `secs` seconds and `nanos` nanoseconds.
    pub fn new(secs: u64, nanos: u32) -> (r: Interval)
        requires
            nanos < NANOS_PER_SEC,
        ensures
            r@ == secs as nat * NANOS_PER_SEC as nat + nanos as nat,
    {
        Interval { secs, nanos }
    }

    /// The whole seconds of the span.
    pub fn as_secs(&self) -> (r: u64)
        ensures
            r as nat == self@ / NANOS_PER_SEC as nat,
    {
        proof {
            use_type_invariant(self);
            lemma_fundamental_div_mod_converse(
                self@ as int,
                NANOS_PER_SEC as int,
                self.secs as int,
                self.nanos as int,
            );
        }
        self.secs
    }

    /// The nanoseconds beyond the whole seconds of the span.
    pub fn subsec_nanos(&self) -> (r: u32)
        ensures
            r as nat == self@ % NANOS_PER_SEC as nat,
            r < NANOS_PER_SEC,
    {
        proof {
            use_type_invariant(self);
            lemma_fundamental_div_mod_converse(
                self@ as int,
                NANOS_PER_SEC as int,
                self.secs as int,
                self.nanos as int,
            );
        }
        self.nanos
    }

    /// Half the span, rounded down to the nanosecond.
    pub fn half(&self) -> (r: Interval)
        ensures
            r@ == self@ / 2,
    {
        proof {
            use_type_invariant(self);
        }
        let carry: u32 = if self.secs % 2 == 1 { NANOS_PER_SEC / 2 } else { 0 };
        let r = Interval { secs: self.secs / 2, nanos: self.nanos / 2 + carry };
        proof {
            let s = self.secs as int;
            let n = self.nanos as int;
            let c = s % 2;
            assert(s == 2 * (s / 2) + c);
            assert(self@ == 2 * ((s / 2) * 1_000_000_000 + c * 500_000_000 + n / 2) + n % 2)
                by (nonlinear_arith)
                requires
                    self@ == s * 1_000_000_000 + n,
                    s == 2 * (s / 2) + c,
                    n == 2 * (n / 2) + n % 2,
            ;
            lemma_fundamental_div_mod_converse(
                self@ as int,
                2,
                (s / 2) * 1_000_000_000 + c * 500_000_000 + n / 2,
                n % 2,
            );
        }
        r
    }
}

} // verus!
