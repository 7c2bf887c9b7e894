//! Conversion of a legacy eligible ratio into an absolute eligible count.

use vstd::prelude::*;
use crate::num::NonZeroU32;

verus! {

/// The eligible count used when no legacy ratio was stored.
pub const DEFAULT_TOTAL_ELIGIBLE_AUTHORS: u32 = 50;

/// A proportion in whole percent, from 0 to 100.
#[derive(Clone, Copy, Debug, PartialEq, Eq, Structural)]
pub struct Percent {
    parts: u8,
}

impl View for Percent {
    type V = u8;

    closed spec fn view(&self) -> u8 {
        self.parts
    }
}

impl Percent {
    #[verifier::type_invariant]
    spec fn at_most_whole(self) -> bool {
        self.parts <= 100
    }

    /// `x` percent; anything above 100 counts as 100.
    pub fn from_percent(x: u8) -> (r: Percent)
        ensures
            r@ == if x > 100 { 100 } else { x },
    {
        if x > 100 {
            Percent { parts: 100 }
        } else {
            Percent { parts: x }
        }
    }

    /// The number of percent.
    pub fn deconstruct(&self) -> (r: u8)
        ensures
            r == self@,
            r <= 100,
    {
        proof {
            use_type_invariant(self);
        }
        self.parts
    }
}

/// `p` percent of `n`, rounded up.
pub open spec fn ceil_percent_of(p: int, n: int) -> int {
    (p * n + 99) / 100
}

/// The eligible count that a legacy ratio of `percent` stands for among `num` authors,
/// rounded up.
pub fn percent_of_num(percent: Percent, num: u32) -> (r: u32)
    ensures
        r == ceil_percent_of(percent@ as int, num as int),
{
    let parts = percent.deconstruct();
    percent_mul_ceil(parts, num)
}

/// The one-time upgrade that replaces the stored eligible ratio by an eligible count.
pub struct EligibleRatioToEligiblityCount;

/// The eligible count that stands for `old_ratio` among `total_authors` authors.
pub open spec fn migrated_count(old_ratio: Option<Percent>, total_authors: u32) -> int {
    match old_ratio {
        Some(p) => if ceil_percent_of(p@ as int, total_authors as int) > 0 {
            ceil_percent_of(p@ as int, total_authors as int)
        } else {
            DEFAULT_TOTAL_ELIGIBLE_AUTHORS as int
        },
        None => DEFAULT_TOTAL_ELIGIBLE_AUTHORS as int,
    }
}

impl EligibleRatioToEligiblityCount {
    /// The eligible count to store in place of a legacy ratio: the ratio's share of
    /// `total_authors`, rounded up, or the default when no ratio was stored or the share
    /// is zero.
    pub fn eligible_count(old_ratio: Option<Percent>, total_authors: u32) -> (r: NonZeroU32)
        ensures
            r@ == migrated_count(old_ratio, total_authors),
    {
        let converted = match old_ratio {
            Some(p) => NonZeroU32::new(percent_of_num(p, total_authors)),
            None => None,
        };
        match converted {
            Some(n) => n,
            None => default_eligible_count(),
        }
    }

    /// Whether the count stored by the upgrade is the one computed before it.
    pub fn post_upgrade_matches(expected: Option<NonZeroU32>, actual: Option<NonZeroU32>) -> (r: bool)
        ensures
            r == (expected == actual),
    {
        match (expected, actual) {
            (Some(e), Some(a)) => e == a,
            (None, None) => true,
            _ => false,
        }
    }
}

/// The eligible count in force when none was configured.
pub fn default_eligible_count() -> (r: NonZeroU32)
    ensures
        r@ == DEFAULT_TOTAL_ELIGIBLE_AUTHORS,
{
    NonZeroU32::new_unchecked(DEFAULT_TOTAL_ELIGIBLE_AUTHORS)
}

/// Relies on `sp_runtime::Percent::mul_ceil`: `parts` percent of `n`, rounded up. It
/// computes `(n / 100) * parts` plus the rounded-up share of `n % 100`, which is exact.
#[verifier::external_body]
fn percent_mul_ceil(parts: u8, n: u32) -> (r: u32)
    requires
        parts <= 100,
    ensures
        r == ceil_percent_of(parts as int, n as int),
{
    sp_runtime::Percent::from_parts(parts).mul_ceil(n)
}

} // verus!
