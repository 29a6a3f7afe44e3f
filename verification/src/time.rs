//! Device time representation: whole seconds plus a fractional part held
//! as nanoseconds, always normalized into `[0, 1_000_000_000)`.
//!
//! The native boundary exchanges a whole-second count and a possibly
//! unnormalized (even negative) fractional component. Construction
//! normalizes, carrying overflow and underflow of the fractional part into
//! the whole-second count, and fails rather than clamping when the implied
//! instant does not fit the representation.

use vstd::prelude::*;

verus! {

/// Nanoseconds in one second; the exclusive bound of a normalized
/// fractional part.
pub const NANOS_PER_SEC: u32 = 1_000_000_000;

/// An absolute or relative device time: `full_secs` whole seconds plus
/// `frac_nanos` nanoseconds, with `frac_nanos` normalized into
/// `[0, NANOS_PER_SEC)`.
#[derive(Clone, Copy, Debug, PartialEq, Eq, Structural)]
pub struct TimeSpec {
    pub full_secs: i64,
    pub frac_nanos: u32,
}

impl TimeSpec {
    /// The fractional part is normalized.
    pub open spec fn wf(self) -> bool {
        self.frac_nanos < 1_000_000_000
    }

    /// The instant as a single nanosecond count.
    pub open spec fn total_nanos(self) -> int {
        self.full_secs * 1_000_000_000 + self.frac_nanos
    }

    /// Whether a nanosecond count fits a normalized `TimeSpec`.
    pub open spec fn representable(total: int) -> bool {
        i64::MIN * 1_000_000_000 <= total <= i64::MAX * 1_000_000_000 + 999_999_999
    }

    /// The normalized time denoting a representable nanosecond count.
    pub open spec fn spec_normalized(total: int) -> TimeSpec
        recommends
            Self::representable(total),
    {
        TimeSpec {
            full_secs: (total / 1_000_000_000) as i64,
            frac_nanos: (total % 1_000_000_000) as u32,
        }
    }

    /// Builds a time from already-normalized parts.
    pub fn new(full_secs: i64, frac_nanos: u32) -> (r: TimeSpec)
        requires
            frac_nanos < 1_000_000_000,
        ensures
            r == (TimeSpec { full_secs, frac_nanos }),
            r.wf(),
    {
        TimeSpec { full_secs, frac_nanos }
    }

    /// Builds a time from raw boundary parts, normalizing the nanosecond
    /// component into `[0, NANOS_PER_SEC)` with carry into the whole-second
    /// count in either direction. Returns `None` exactly when the implied
    /// instant overflows the whole-second representation.
    pub fn from_parts(full_secs: i64, nanos: i64) -> (r: Option<TimeSpec>)
        ensures
            r is Some <==> Self::representable(full_secs * 1_000_000_000 + nanos),
            r matches Some(t) ==> t.wf() && t.total_nanos() == full_secs * 1_000_000_000 + nanos,
            r matches Some(t) ==> t == Self::spec_normalized(full_secs * 1_000_000_000 + nanos),
    {
        let q_opt = nanos.checked_div_euclid(1_000_000_000);
        let r_opt = nanos.checked_rem_euclid(1_000_000_000);
        proof {
            assert(q_opt is Some);
            assert(r_opt is Some);
            assert(nanos == 1_000_000_000 * (nanos as int / 1_000_000_000) + nanos as int
                % 1_000_000_000);
        }
        let q = q_opt.unwrap();
        let rem = r_opt.unwrap();
        let frac_nanos = rem as u32;
        match full_secs.checked_add(q) {
            Some(f) => {
                proof {
                    assert(f * 1_000_000_000 + frac_nanos == full_secs * 1_000_000_000 + nanos);
                    let total = full_secs * 1_000_000_000 + nanos as int;
                    let canonical = Self::spec_normalized(total);
                    assert(total == 1_000_000_000 * (total / 1_000_000_000) + total
                        % 1_000_000_000);
                    assert(i64::MIN <= total / 1_000_000_000 <= i64::MAX) by {
                        if total / 1_000_000_000 > i64::MAX {
                            assert(total >= (i64::MAX + 1) * 1_000_000_000);
                        }
                        if total / 1_000_000_000 < i64::MIN {
                            assert(total < i64::MIN * 1_000_000_000);
                        }
                    }
                    assert(canonical.wf() && canonical.total_nanos() == total);
                    lemma_wf_total_unique(TimeSpec { full_secs: f, frac_nanos }, canonical);
                }
                Some(TimeSpec { full_secs: f, frac_nanos })
            },
            None => {
                proof {
                    let total = full_secs * 1_000_000_000 + nanos as int;
                    let fsum = full_secs + q;
                    assert(total == fsum * 1_000_000_000 + nanos as int % 1_000_000_000);
                    if fsum > i64::MAX {
                        assert(total >= (i64::MAX + 1) * 1_000_000_000);
                    } else {
                        assert(fsum < i64::MIN);
                        assert(total < i64::MIN * 1_000_000_000);
                    }
                }
                None
            },
        }
    }

    /// The whole-second part.
    pub fn full_secs(&self) -> (r: i64)
        ensures
            r == self.full_secs,
    {
        self.full_secs
    }

    /// The fractional part, in nanoseconds.
    pub fn frac_nanos(&self) -> (r: u32)
        ensures
            r == self.frac_nanos,
    {
        self.frac_nanos
    }

    /// Adds two times, carrying fractional overflow into the whole-second
    /// part. Returns `None` exactly when the sum overflows the
    /// representation.
    pub fn add(self, other: TimeSpec) -> (r: Option<TimeSpec>)
        requires
            self.wf(),
            other.wf(),
        ensures
            r is Some <==> Self::representable(self.total_nanos() + other.total_nanos()),
            r matches Some(t) ==> t.wf() && t.total_nanos() == self.total_nanos()
                + other.total_nanos(),
            r matches Some(t) ==> t == Self::spec_normalized(
                self.total_nanos() + other.total_nanos(),
            ),
    {
        let frac_sum: u32 = self.frac_nanos + other.frac_nanos;
        let carry: i64 = if frac_sum >= 1_000_000_000 {
            1
        } else {
            0
        };
        let frac_nanos: u32 = if frac_sum >= 1_000_000_000 {
            frac_sum - 1_000_000_000
        } else {
            frac_sum
        };
        let full_sum: i128 = self.full_secs as i128 + other.full_secs as i128 + carry as i128;
        if full_sum >= i64::MIN as i128 && full_sum <= i64::MAX as i128 {
            let f = full_sum as i64;
            proof {
                assert(f * 1_000_000_000 + frac_nanos == self.total_nanos()
                    + other.total_nanos());
                let total = self.total_nanos() + other.total_nanos();
                let canonical = Self::spec_normalized(total);
                assert(total == 1_000_000_000 * (total / 1_000_000_000) + total % 1_000_000_000);
                assert(i64::MIN <= total / 1_000_000_000 <= i64::MAX) by {
                    if total / 1_000_000_000 > i64::MAX {
                        assert(total >= (i64::MAX + 1) * 1_000_000_000);
                    }
                    if total / 1_000_000_000 < i64::MIN {
                        assert(total < i64::MIN * 1_000_000_000);
                    }
                }
                assert(canonical.wf() && canonical.total_nanos() == total);
                lemma_wf_total_unique(TimeSpec { full_secs: f, frac_nanos }, canonical);
            }
            Some(TimeSpec { full_secs: f, frac_nanos })
        } else {
            proof {
                let total = self.total_nanos() + other.total_nanos();
                assert(total == full_sum * 1_000_000_000 + frac_nanos);
                if full_sum > i64::MAX {
                    assert(total >= (i64::MAX + 1) * 1_000_000_000);
                } else {
                    assert(total < i64::MIN * 1_000_000_000);
                }
            }
            None
        }
    }
}

/// A normalized time is determined by the instant it denotes: two
/// well-formed `TimeSpec` values with the same nanosecond count are equal.
pub proof fn lemma_wf_total_unique(a: TimeSpec, b: TimeSpec)
    requires
        a.wf(),
        b.wf(),
        a.total_nanos() == b.total_nanos(),
    ensures
        a == b,
{
    assert((a.full_secs - b.full_secs) * 1_000_000_000 == b.frac_nanos - a.frac_nanos);
    assert(a.full_secs == b.full_secs);
}

} // verus!
