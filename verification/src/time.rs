//! Millisecond-precision timestamps and durations used throughout the
//! authentication core. Timestamps are kept inside the years 1 through 9999
//! so that calendar (RFC 3339) formatting of any stored instant is always
//! possible.

use vstd::prelude::*;

verus! {

/// Smallest timestamp (milliseconds since the Unix epoch) the library stores.
pub const MIN_TIMESTAMP_MILLIS: i64 = -62_135_596_800_000;

/// Largest timestamp (milliseconds since the Unix epoch) the library stores.
pub const MAX_TIMESTAMP_MILLIS: i64 = 253_402_300_799_999;

/// True when `millis` lies in the range of instants the library stores.
pub open spec fn ts_in_range(millis: i64) -> bool {
    MIN_TIMESTAMP_MILLIS <= millis <= MAX_TIMESTAMP_MILLIS
}

/// An instant in time, in milliseconds since the Unix epoch.
#[derive(Clone, Copy, Debug, PartialEq, Eq, Structural)]
pub struct Timestamp {
    millis: i64,
}

/// A signed span of time, in milliseconds.
#[derive(Clone, Copy, Debug, PartialEq, Eq, Structural)]
pub struct Duration {
    millis: i64,
}

impl Timestamp {
    /// The instant's offset from the Unix epoch, for specifications.
    pub closed spec fn spec_millis(self) -> i64 {
        self.millis
    }

    #[verifier::type_invariant]
    pub closed spec fn inv(self) -> bool {
        ts_in_range(self.millis)
    }

    /// Build a timestamp, clamping into the storable range.
    pub fn from_millis(millis: i64) -> (r: Timestamp)
        ensures
            ts_in_range(millis) ==> r.spec_millis() == millis,
            r.spec_millis() == clamp_ts(millis),
    {
        let m: i64 = if millis < MIN_TIMESTAMP_MILLIS {
            MIN_TIMESTAMP_MILLIS
        } else if millis > MAX_TIMESTAMP_MILLIS {
            MAX_TIMESTAMP_MILLIS
        } else {
            millis
        };
        Timestamp { millis: m }
    }

    /// The instant's offset from the Unix epoch, in milliseconds.
    pub fn millis(self) -> (r: i64)
        ensures
            r == self.spec_millis(),
            ts_in_range(r),
    {
        proof {
            use_type_invariant(self);
        }
        self.millis
    }

    /// The instant shifted by `d`, clamped into the storable range.
    pub fn plus(self, d: Duration) -> (r: Timestamp)
        ensures
            r.spec_millis() == clamp_ts_wide(self.spec_millis() + d.spec_millis()),
    {
        proof {
            use_type_invariant(self);
        }
        let sum: i128 = self.millis as i128 + d.millis as i128;
        if sum < MIN_TIMESTAMP_MILLIS as i128 {
            Timestamp { millis: MIN_TIMESTAMP_MILLIS }
        } else if sum > MAX_TIMESTAMP_MILLIS as i128 {
            Timestamp { millis: MAX_TIMESTAMP_MILLIS }
        } else {
            Timestamp { millis: sum as i64 }
        }
    }
}

/// `millis` clamped into the storable timestamp range.
pub open spec fn clamp_ts(millis: i64) -> i64 {
    if millis < MIN_TIMESTAMP_MILLIS {
        MIN_TIMESTAMP_MILLIS
    } else if millis > MAX_TIMESTAMP_MILLIS {
        MAX_TIMESTAMP_MILLIS
    } else {
        millis
    }
}

/// An `i64`-range saturation of a mathematical integer.
pub open spec fn sat_i64(x: int) -> i64 {
    if x < i64::MIN {
        i64::MIN
    } else if x > i64::MAX {
        i64::MAX
    } else {
        x as i64
    }
}

/// A mathematical-integer sum clamped into the storable timestamp range.
pub open spec fn clamp_ts_wide(millis: int) -> i64 {
    if millis < MIN_TIMESTAMP_MILLIS {
        MIN_TIMESTAMP_MILLIS
    } else if millis > MAX_TIMESTAMP_MILLIS {
        MAX_TIMESTAMP_MILLIS
    } else {
        millis as i64
    }
}

impl Duration {
    /// The span's length in milliseconds, for specifications.
    pub closed spec fn spec_millis(self) -> i64 {
        self.millis
    }

    /// A span of `millis` milliseconds.
    pub fn from_millis(millis: i64) -> (r: Duration)
        ensures
            r.spec_millis() == millis,
    {
        Duration { millis }
    }

    /// The span's length in milliseconds.
    pub fn millis(self) -> (r: i64)
        ensures
            r == self.spec_millis(),
    {
        self.millis
    }

    /// A span of `n` seconds, saturating at the `i64` bounds.
    pub fn seconds(n: i64) -> (r: Duration)
        ensures
            r.spec_millis() == sat_i64(n * 1000),
    {
        Duration { millis: mul_sat(n, 1000) }
    }

    /// A span of `n` minutes, saturating at the `i64` bounds.
    pub fn minutes(n: i64) -> (r: Duration)
        ensures
            r.spec_millis() == sat_i64(n * 60_000),
    {
        Duration { millis: mul_sat(n, 60_000) }
    }

    /// A span of `n` hours, saturating at the `i64` bounds.
    pub fn hours(n: i64) -> (r: Duration)
        ensures
            r.spec_millis() == sat_i64(n * 3_600_000),
    {
        Duration { millis: mul_sat(n, 3_600_000) }
    }
}

impl Timestamp {
    /// A timestamp satisfying its invariant lies in the storable range.
    pub proof fn lemma_in_range(self)
        requires
            self.inv(),
        ensures
            ts_in_range(self.spec_millis()),
    {
    }

    /// Relies on chrono's `Utc::now`: the current wall-clock instant, clamped
    /// into the storable range.
    #[verifier::external_body]
    pub fn now() -> (r: Timestamp)
    {
        Timestamp::from_millis(chrono::Utc::now().timestamp_millis())
    }
}

/// The RFC 3339 text chrono prints for an instant, with millisecond
/// precision and a `Z` suffix. Fixed by the instant alone.
pub uninterp spec fn rfc3339_of(millis: i64) -> Seq<char>;

/// The instant chrono reads from a piece of RFC 3339 text, in milliseconds.
/// Fixed by the text alone; `None` where the text is not RFC 3339.
pub uninterp spec fn rfc3339_val_of(s: Seq<char>) -> Option<i64>;

/// Relies on chrono's `DateTime::<Utc>::to_rfc3339_opts` with millisecond
/// precision and `use_z`: the text is fixed by the instant, and chrono's
/// `DateTime::parse_from_rfc3339` reads the same instant back from it.
#[verifier::external_body]
pub fn format_rfc3339(t: Timestamp) -> (r: String)
    ensures
        r@ == rfc3339_of(t.spec_millis()),
        rfc3339_val_of(r@) == Some(t.spec_millis()),
{
    match chrono::DateTime::<chrono::Utc>::from_timestamp_millis(t.millis()) {
        Some(dt) => dt.to_rfc3339_opts(chrono::SecondsFormat::Millis, true),
        None => String::new(),
    }
}

/// Relies on chrono's `DateTime::parse_from_rfc3339` followed by
/// `timestamp_millis`: the value is fixed by the text alone.
#[verifier::external_body]
pub fn parse_rfc3339_millis(s: &str) -> (r: Option<i64>)
    ensures
        r == rfc3339_val_of(s@),
{
    match chrono::DateTime::parse_from_rfc3339(s) {
        Ok(dt) => Some(dt.timestamp_millis()),
        Err(_) => None,
    }
}

/// `a * b`, saturating at the `i64` bounds.
fn mul_sat(a: i64, b: i64) -> (r: i64)
    ensures
        r == sat_i64(a * b),
{
    proof {
        assert((a as int) * (b as int) <= i128::MAX && i128::MIN <= (a as int) * (b as int))
            by (nonlinear_arith)
            requires
                i64::MIN <= a <= i64::MAX,
                i64::MIN <= b <= i64::MAX,
        ;
    }
    let wide: i128 = a as i128 * b as i128;
    if wide < i64::MIN as i128 {
        i64::MIN
    } else if wide > i64::MAX as i128 {
        i64::MAX
    } else {
        wide as i64
    }
}

} // verus!
