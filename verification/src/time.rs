//! Wall-clock instants as plain integers.
//!
//! The cache never reads a clock itself: whoever drives it hands in the
//! current instant, so every computation on time is a function of its
//! arguments.

use vstd::prelude::*;

verus! {

/// Nanoseconds in one second.
pub const NANOS_PER_SEC: u32 = 1_000_000_000;

/// An instant on the wall clock: whole seconds since the Unix epoch
/// (negative before it) and the nanoseconds into that second.
#[derive(Clone, Copy, Debug, PartialEq, Eq)]
pub struct UnixTime {
    secs: i64,
    nanos: u32,
}

/// A length of time: whole seconds and the nanoseconds beyond them.
#[derive(Clone, Copy, Debug, PartialEq, Eq)]
pub struct TimeSpan {
    pub secs: u64,
    pub nanos: u32,
}

impl TimeSpan {
    /// A span of whole seconds.
    pub fn from_secs(secs: u64) -> (r: TimeSpan)
        ensures
            r == (TimeSpan { secs, nanos: 0 }),
    {
        TimeSpan { secs, nanos: 0 }
    }
}

impl UnixTime {
    #[verifier::type_invariant]
    spec fn inv(self) -> bool {
        self.nanos < NANOS_PER_SEC
    }

    /// Whole seconds since the Unix epoch.
    pub closed spec fn spec_secs(self) -> i64 {
        self.secs
    }

    /// Nanoseconds into the current second.
    pub closed spec fn spec_subsec_nanos(self) -> u32 {
        self.nanos
    }

    /// Whether the value is a proper instant: its sub-second part is below one second.
    /// Every value handed out by this module is.
    pub open spec fn wf(self) -> bool {
        self.spec_subsec_nanos() < NANOS_PER_SEC
    }

    /// The instant `secs` whole seconds earlier, where it can be held.
    pub closed spec fn earlier_by(self, secs: int) -> UnixTime {
        UnixTime { secs: (self.secs - secs) as i64, nanos: self.nanos }
    }

    /// The instant as one number: nanoseconds since the Unix epoch.
    pub open spec fn total_nanos(self) -> int {
        self.spec_secs() * (NANOS_PER_SEC as int) + self.spec_subsec_nanos()
    }

    /// Builds an instant; `None` when `nanos` is a second or more.
    pub fn new(secs: i64, nanos: u32) -> (r: Option<UnixTime>)
        ensures
            r is Some <==> nanos < NANOS_PER_SEC,
            r matches Some(t) ==> t.spec_secs() == secs && t.spec_subsec_nanos() == nanos && t.wf(),
    {
        if nanos < NANOS_PER_SEC {
            Some(UnixTime { secs, nanos })
        } else {
            None
        }
    }

    /// Whole seconds since the Unix epoch.
    pub fn secs(&self) -> (r: i64)
        ensures
            r == self.spec_secs(),
    {
        self.secs
    }

    /// Nanoseconds into the current second.
    pub fn subsec_nanos(&self) -> (r: u32)
        ensures
            r == self.spec_subsec_nanos(),
            self.wf(),
    {
        proof {
            use_type_invariant(self);
        }
        self.nanos
    }

    /// The instant `secs` whole seconds earlier; `None` when it is not representable.
    pub fn checked_sub_secs(&self, secs: u64) -> (r: Option<UnixTime>)
        ensures
            self.wf(),
            r is Some <==> self.spec_secs() - secs >= i64::MIN,
            r matches Some(t) ==> {
                &&& t == self.earlier_by(secs as int)
                &&& t.wf()
                &&& t.spec_secs() == self.spec_secs() - secs
                &&& t.spec_subsec_nanos() == self.spec_subsec_nanos()
                &&& t.total_nanos() == self.total_nanos() - secs * (NANOS_PER_SEC as int)
            },
    {
        proof {
            use_type_invariant(self);
        }
        match self.secs.checked_sub_unsigned(secs) {
            Some(earlier) => {
                assert((self.secs - secs) * (NANOS_PER_SEC as int) == self.secs * (NANOS_PER_SEC as int)
                    - secs * (NANOS_PER_SEC as int)) by (nonlinear_arith);
                Some(UnixTime { secs: earlier, nanos: self.nanos })
            },
            None => None,
        }
    }

    /// Whole seconds elapsed from `earlier` to `self`, rounded down, when that
    /// count is not negative and fits 32 bits; `None` otherwise.
    pub fn whole_secs_since(&self, earlier: &UnixTime) -> (r: Option<u32>)
        ensures
            r == elapsed_secs(*self, *earlier),
    {
        proof {
            use_type_invariant(self);
            use_type_invariant(earlier);
            lemma_elapsed(*self, *earlier);
        }
        if self.secs < earlier.secs {
            return None;
        }
        if self.secs == earlier.secs {
            return if self.nanos >= earlier.nanos {
                Some(0)
            } else {
                None
            };
        }
        // self.secs > earlier.secs: the difference fits an i128 with room to spare.
        let gap: i128 = self.secs as i128 - earlier.secs as i128;
        let whole: i128 = if self.nanos >= earlier.nanos {
            gap
        } else {
            gap - 1
        };
        if whole <= u32::MAX as i128 {
            Some(whole as u32)
        } else {
            None
        }
    }
}

/// Whole seconds from `earlier` to `later`, rounded down: `None` when `later`
/// lies before `earlier` or the count does not fit 32 bits.
pub open spec fn elapsed_secs(later: UnixTime, earlier: UnixTime) -> Option<u32> {
    whole_secs(later.total_nanos() - earlier.total_nanos())
}

/// A span of `nanos` nanoseconds in whole seconds, rounded down: `None` when the
/// span is negative or the count does not fit 32 bits.
pub open spec fn whole_secs(nanos: int) -> Option<u32> {
    if 0 <= nanos && nanos / (NANOS_PER_SEC as int) <= u32::MAX {
        Some((nanos / (NANOS_PER_SEC as int)) as u32)
    } else {
        None
    }
}

/// What `earlier_by` yields where the earlier instant can be held.
pub proof fn lemma_earlier_by(t: UnixTime, secs: int)
    requires
        t.wf(),
        0 <= secs,
        t.spec_secs() - secs >= i64::MIN,
    ensures
        t.earlier_by(secs).wf(),
        t.earlier_by(secs).spec_secs() == t.spec_secs() - secs,
        t.earlier_by(secs).spec_subsec_nanos() == t.spec_subsec_nanos(),
        t.earlier_by(secs).total_nanos() == t.total_nanos() - secs * (NANOS_PER_SEC as int),
{
    assert((t.spec_secs() - secs) * (NANOS_PER_SEC as int) == t.spec_secs() * (NANOS_PER_SEC as int)
        - secs * (NANOS_PER_SEC as int)) by (nonlinear_arith);
}

/// The quotient in `elapsed_secs`, by seconds and sub-second parts.
proof fn lemma_elapsed(later: UnixTime, earlier: UnixTime)
    requires
        later.wf(),
        earlier.wf(),
    ensures
        ({
            let gap = later.total_nanos() - earlier.total_nanos();
            let ds = later.spec_secs() - earlier.spec_secs();
            let borrow: int = if later.spec_subsec_nanos() >= earlier.spec_subsec_nanos() {
                0
            } else {
                1
            };
            &&& gap >= 0 <==> ds - borrow >= 0
            &&& gap >= 0 ==> gap / (NANOS_PER_SEC as int) == ds - borrow
        }),
{
    let n = NANOS_PER_SEC as int;
    let ds = later.spec_secs() - earlier.spec_secs();
    let dn = later.spec_subsec_nanos() - earlier.spec_subsec_nanos();
    let gap = later.total_nanos() - earlier.total_nanos();
    assert(gap == ds * n + dn) by (nonlinear_arith)
        requires
            gap == (later.spec_secs() * n + later.spec_subsec_nanos()) - (earlier.spec_secs() * n
                + earlier.spec_subsec_nanos()),
            ds == later.spec_secs() - earlier.spec_secs(),
            dn == later.spec_subsec_nanos() - earlier.spec_subsec_nanos(),
    ;
    if dn >= 0 {
        assert(ds >= 0 ==> (ds * n + dn) / n == ds) by (nonlinear_arith)
            requires
                0 <= dn < n,
                n > 0,
        ;
        assert(ds < 0 ==> ds * n + dn < 0) by (nonlinear_arith)
            requires
                0 <= dn < n,
                n > 0,
        ;
    } else {
        assert(ds >= 1 ==> (ds * n + dn) / n == ds - 1) by (nonlinear_arith)
            requires
                -n < dn < 0,
                n > 0,
        ;
        assert(ds < 1 ==> ds * n + dn < 0) by (nonlinear_arith)
            requires
                -n < dn < 0,
                n > 0,
        ;
    }
}

} // verus!
