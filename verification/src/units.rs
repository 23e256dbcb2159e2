//! Fixed-point sample values and the clamping rules every percentage
//! series obeys.
//!
//! Stored samples are unsigned integers in milli-units: a value of 1000
//! stands for 1.0 of the series' unit (percent, or degrees Celsius).

use vstd::prelude::*;

verus! {

/// One whole unit in the fixed-point milli scale: a stored sample of
/// `MILLI` stands for 1.0 of the series' unit.
pub const MILLI: u64 = 1000;

/// Full scale for percentage samples: 100% in milli-percent.
pub const FULL_PERCENT: u64 = 100_000;

/// Upper bound every stored sample respects. It keeps all plot-geometry
/// products inside 63 bits; percentage samples sit far below it.
pub const SAMPLE_LIMIT: u64 = 0x8000_0000;

/// Every sample of `s` is a clamped percentage.
pub open spec fn all_percent(s: Seq<u64>) -> bool {
    forall|i: int| 0 <= i < s.len() ==> s[i] <= FULL_PERCENT
}

/// Every sample of `s` respects the fixed-point sample limit.
pub open spec fn all_in_range(s: Seq<u64>) -> bool {
    forall|i: int| 0 <= i < s.len() ==> s[i] <= SAMPLE_LIMIT
}

/// A clamped percentage series stays inside the fixed-point sample limit.
pub proof fn lemma_percent_in_range(s: Seq<u64>)
    requires
        all_percent(s),
    ensures
        all_in_range(s),
{
    assert forall|i: int| 0 <= i < s.len() implies s[i] <= SAMPLE_LIMIT by {
        assert(s[i] <= FULL_PERCENT);
    }
}

/// A raw reading as the sampling edge hands it over: either a finite
/// fixed-point value in milli-units (possibly negative or above full
/// scale), or the marker for a non-finite reading (a NaN or infinity).
#[derive(Clone, Copy, PartialEq, Eq, Structural, Debug)]
pub enum RawValue {
    Finite(i64),
    NonFinite,
}

/// What a percentage push stores for a raw reading: a non-finite reading
/// becomes exactly 0, a negative value becomes 0, a value above full
/// scale is cut to full scale, and anything in range is kept as it is.
pub open spec fn clamp_percent_spec(raw: RawValue) -> u64 {
    match raw {
        RawValue::NonFinite => 0,
        RawValue::Finite(v) => if v < 0 {
            0
        } else if v as int > FULL_PERCENT as int {
            FULL_PERCENT
        } else {
            v as u64
        },
    }
}

/// Clamp a raw percentage reading into `[0, FULL_PERCENT]`.
pub fn clamp_percent(raw: RawValue) -> (r: u64)
    ensures
        r == clamp_percent_spec(raw),
        r <= FULL_PERCENT,
{
    match raw {
        RawValue::NonFinite => 0,
        RawValue::Finite(v) => {
            if v < 0 {
                0
            } else if v > FULL_PERCENT as i64 {
                FULL_PERCENT
            } else {
                v as u64
            }
        },
    }
}

/// The percentage (in milli-percent, clamped to `[0, FULL_PERCENT]`) that
/// `part` is of `whole`, with the zero-division guard: a zero `whole`
/// yields 0, never a division error.
pub open spec fn percent_of_spec(part: u64, whole: u64) -> u64 {
    if whole == 0 {
        0
    } else if part * FULL_PERCENT / (whole as int) > FULL_PERCENT as int {
        FULL_PERCENT
    } else {
        (part * FULL_PERCENT / (whole as int)) as u64
    }
}

/// Compute what share of `whole` the value `part` is, as a clamped
/// milli-percent sample; `whole == 0` yields 0.
pub fn percent_of(part: u64, whole: u64) -> (r: u64)
    ensures
        r == percent_of_spec(part, whole),
        r <= FULL_PERCENT,
{
    if whole == 0 {
        0
    } else {
        proof {
            assert((part as u128) * (FULL_PERCENT as u128) <= 0xffff_ffff_ffff_ffffu128
                * 100_000u128) by (nonlinear_arith)
                requires
                    part <= 0xffff_ffff_ffff_ffffu64,
                    FULL_PERCENT == 100_000,
            ;
        }
        let scaled: u128 = (part as u128) * (FULL_PERCENT as u128) / (whole as u128);
        if scaled > FULL_PERCENT as u128 {
            FULL_PERCENT
        } else {
            scaled as u64
        }
    }
}

} // verus!
