//! A span of time, the quantity that relates lengths to speeds and energies
//! to powers. Its base unit is the second.
use crate::measurement::Measurement;
use crate::scalar::{Scalar, Text};
use vstd::prelude::*;

verus! {

/// The nanoseconds in a second.
pub const NANOS_PER_SEC: u32 = 1_000_000_000;

/// A span of time: whole seconds and the nanoseconds of the second that
/// has begun, which are fewer than a thousand million.
#[derive(Copy, Clone, Debug, PartialEq, Eq, Structural)]
pub struct Duration {
    secs: u64,
    nanos: u32,
}

/// The span of `secs` seconds and `nanos` nanoseconds, as whole seconds and
/// what is left of the nanoseconds. A span too long to hold is cut to the
/// longest one.
pub open spec fn normalized(secs: int, nanos: int) -> (int, int) {
    if secs + nanos / (NANOS_PER_SEC as int) > u64::MAX {
        (u64::MAX as int, NANOS_PER_SEC - 1)
    } else {
        (secs + nanos / (NANOS_PER_SEC as int), nanos % (NANOS_PER_SEC as int))
    }
}

/// The count `n` as a number of nanoseconds that fits 32 bits, the largest
/// such number if `n` does not.
pub open spec fn clamped_nanos(n: int) -> int {
    if n > u32::MAX {
        u32::MAX as int
    } else {
        n
    }
}

/// The seconds that a span of `secs` seconds and `nanos` nanoseconds is:
/// `secs + nanos * 1e-9`.
pub open spec fn seconds_spec<T: Scalar>(secs: u64, nanos: u32) -> T {
    T::whole_spec(secs).plus_spec(
        T::whole_spec(nanos as u64).times_spec(T::ratio_spec(1, 1_000_000_000)),
    )
}

/// The whole seconds and the nanoseconds that `units` seconds are: the
/// number rounded toward zero, and the remainder of its nanoseconds in a
/// second.
pub open spec fn parts_spec<T: Scalar>(units: T) -> (int, int) {
    let billion = T::ratio_spec(1_000_000_000, 1);
    normalized(
        units.trunc_spec() as int,
        clamped_nanos(units.times_spec(billion).modulo_spec(billion).trunc_spec() as int),
    )
}

impl Duration {
    #[verifier::type_invariant]
    spec fn well_formed(self) -> bool {
        self.nanos < NANOS_PER_SEC
    }

    /// The whole seconds of the span.
    pub closed spec fn secs_spec(&self) -> u64 {
        self.secs
    }

    /// The nanoseconds beyond the whole seconds.
    pub closed spec fn nanos_spec(&self) -> u32 {
        self.nanos
    }

    /// The span with the given parts.
    pub closed spec fn from_parts_spec(parts: (int, int)) -> Duration {
        Duration { secs: parts.0 as u64, nanos: parts.1 as u32 }
    }

    /// A span is its two parts, and every pair of a count of seconds and a
    /// count of nanoseconds below a thousand million is the parts of a span.
    pub proof fn lemma_parts(d: Duration, secs: int, nanos: int)
        ensures
            Duration::from_parts_spec((d.secs_spec() as int, d.nanos_spec() as int)) == d,
            0 <= secs <= u64::MAX && 0 <= nanos <= u32::MAX ==> {
                &&& Duration::from_parts_spec((secs, nanos)).secs_spec() == secs
                &&& Duration::from_parts_spec((secs, nanos)).nanos_spec() == nanos
            },
    {
    }

    /// Creates a span from whole seconds and additional nanoseconds. A
    /// thousand million nanoseconds or more carry over into the seconds.
    pub fn new(secs: u64, nanos: u32) -> (r: Duration)
        ensures
            r == Duration::from_parts_spec(normalized(secs as int, nanos as int)),
            (r.secs_spec() as int, r.nanos_spec() as int) == normalized(secs as int, nanos as int),
            r.nanos_spec() < NANOS_PER_SEC,
    {
        let carry: u64 = (nanos / NANOS_PER_SEC) as u64;
        let rest: u32 = nanos % NANOS_PER_SEC;
        if secs > u64::MAX - carry {
            Duration { secs: u64::MAX, nanos: NANOS_PER_SEC - 1 }
        } else {
            Duration { secs: secs + carry, nanos: rest }
        }
    }

    /// The whole seconds of the span.
    pub fn as_secs(&self) -> (r: u64)
        ensures
            r == self.secs_spec(),
    {
        self.secs
    }

    /// The nanoseconds beyond the whole seconds: fewer than a thousand
    /// million.
    pub fn subsec_nanos(&self) -> (r: u32)
        ensures
            r == self.nanos_spec(),
            r < NANOS_PER_SEC,
    {
        proof {
            use_type_invariant(self);
        }
        self.nanos
    }
}

impl<T: Scalar> Measurement<T> for Duration {
    open spec fn base(&self) -> T {
        seconds_spec::<T>(self.secs_spec(), self.nanos_spec())
    }

    open spec fn from_base_spec(units: T) -> Self {
        Duration::from_parts_spec(parts_spec(units))
    }

    open spec fn units_name_spec() -> Text {
        "s"@
    }

    fn get_base_units_name(&self) -> (r: &'static str) {
        "s"
    }

    fn as_base_units(&self) -> (r: T) {
        let nanos: u64 = self.nanos as u64;
        T::from_whole(self.secs).plus(T::from_whole(nanos).times(T::from_ratio(1, 1_000_000_000)))
    }

    fn from_base_units(units: T) -> (r: Self) {
        let billion = T::from_ratio(1_000_000_000, 1);
        let subsec: u64 = units.times(billion).modulo(billion).trunc();
        let subsec_nanos: u32 = if subsec > 0xffff_ffff {
            0xffff_ffff
        } else {
            subsec as u32
        };
        let secs: u64 = units.trunc();
        Duration::new(secs, subsec_nanos)
    }
}

} // verus!
