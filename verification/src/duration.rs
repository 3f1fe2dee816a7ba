//! A span of time held as whole seconds plus a nanosecond remainder, with the saturating
//! arithmetic the client's timeout rules use. Its view is the length in nanoseconds.
use vstd::prelude::*;

verus! {

/// Nanoseconds in one second.
pub const NANOS_PER_SEC: u32 = 1_000_000_000;

/// The largest span: `u64::MAX` seconds and `999_999_999` nanoseconds.
pub open spec fn max_nanos() -> nat {
    u64::MAX as nat * 1_000_000_000 + 999_999_999
}

/// A span of time, as `std::time::Duration` measures it.
#[derive(Clone, Copy, PartialEq, Eq, PartialOrd, Ord, Hash)]
pub struct Duration {
    secs: u64,
    nanos: u32,
}

impl View for Duration {
    type V = nat;

    closed spec fn view(&self) -> nat {
        self.secs as nat * 1_000_000_000 + self.nanos as nat
    }
}

impl Duration {
    #[verifier::type_invariant]
    closed spec fn nanos_below_one_second(self) -> bool {
        self.nanos < 1_000_000_000
    }

    /// The whole seconds of this span.
    pub closed spec fn whole_secs(self) -> u64 {
        self.secs
    }

    /// The nanoseconds beyond the whole seconds.
    pub closed spec fn subsec(self) -> u32 {
        self.nanos
    }

    /// `secs` seconds.
    pub fn from_secs(secs: u64) -> (d: Duration)
        ensures
            d@ == secs as nat * 1_000_000_000,
    {
        Duration { secs, nanos: 0 }
    }

    /// `millis` milliseconds.
    pub fn from_millis(millis: u64) -> (d: Duration)
        ensures
            d@ == millis as nat * 1_000_000,
    {
        let secs = millis / 1000;
        let rest = millis % 1000;
        let nanos = (rest as u32) * 1_000_000;
        assert(secs as nat * 1_000_000_000 + rest as nat * 1_000_000 == millis as nat * 1_000_000)
            by (nonlinear_arith)
            requires
                secs == millis / 1000,
                rest == millis % 1000,
        ;
        Duration { secs, nanos }
    }

    /// `secs` seconds and `nanos` nanoseconds, where `nanos` is below one second.
    pub fn from_parts(secs: u64, nanos: u32) -> (d: Duration)
        requires
            nanos < NANOS_PER_SEC,
        ensures
            d@ == secs as nat * 1_000_000_000 + nanos as nat,
            d.whole_secs() == secs,
            d.subsec() == nanos,
    {
        Duration { secs, nanos }
    }

    /// The largest span.
    pub fn max_value() -> (d: Duration)
        ensures
            d@ == max_nanos(),
    {
        Duration { secs: u64::MAX, nanos: 999_999_999 }
    }

    /// The whole seconds of this span.
    pub fn as_secs(&self) -> (s: u64)
        ensures
            s == self.whole_secs(),
    {
        self.secs
    }

    /// The nanoseconds beyond the whole seconds.
    pub fn subsec_nanos(&self) -> (n: u32)
        ensures
            n == self.subsec(),
            n < NANOS_PER_SEC,
            self@ == self.whole_secs() as nat * 1_000_000_000 + n as nat,
    {
        proof {
            use_type_invariant(self);
        }
        self.nanos
    }

    /// `self + other`, or the largest span where the sum would exceed it.
    pub fn saturating_add(self, other: Duration) -> (d: Duration)
        ensures
            d@ == if self@ + other@ <= max_nanos() {
                self@ + other@
            } else {
                max_nanos()
            },
    {
        proof {
            use_type_invariant(self);
            use_type_invariant(other);
        }
        let nanos_sum = self.nanos + other.nanos;
        if self.secs > u64::MAX - other.secs {
            return Duration::max_value();
        }
        let secs = self.secs + other.secs;
        if nanos_sum >= NANOS_PER_SEC {
            if secs == u64::MAX {
                return Duration::max_value();
            }
            Duration { secs: secs + 1, nanos: nanos_sum - NANOS_PER_SEC }
        } else {
            Duration { secs, nanos: nanos_sum }
        }
    }

    /// Whether `self` is at least as long as `other`.
    pub fn at_least(&self, other: &Duration) -> (r: bool)
        ensures
            r == (self@ >= other@),
    {
        proof {
            use_type_invariant(self);
            use_type_invariant(other);
        }
        self.secs > other.secs || (self.secs == other.secs && self.nanos >= other.nanos)
    }

    /// The longer of `self` and `other`.
    pub fn max(self, other: Duration) -> (d: Duration)
        ensures
            d@ == if self@ >= other@ {
                self@
            } else {
                other@
            },
    {
        if other.at_least(&self) {
            other
        } else {
            self
        }
    }

    /// The text std's `Debug` writes for this span (such as `10s` or `1.5ms`).
    pub fn debug_string(&self) -> (r: String)
        ensures
            r@ == duration_debug_text(self.whole_secs(), self.subsec()),
    {
        proof {
            use_type_invariant(self);
        }
        std_duration_debug(self.secs, self.nanos)
    }
}

/// Names the text that `Debug` for `std::time::Duration::new(secs, nanos)` writes.
pub uninterp spec fn duration_debug_text(secs: u64, nanos: u32) -> Seq<char>;

/// std's `Debug` rendering of the span `secs` seconds plus `nanos` nanoseconds.
#[verifier::external_body]
fn std_duration_debug(secs: u64, nanos: u32) -> (r: String)
    requires
        nanos < NANOS_PER_SEC,
    ensures
        r@ == duration_debug_text(secs, nanos),
{
    format!("{:?}", std::time::Duration::new(secs, nanos))
}

} // verus!
