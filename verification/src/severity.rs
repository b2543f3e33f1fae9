//! Severity tiers: six ordered qualitative bands, each owning a fixed
//! AQI sub-range. The tier is a pure function of the AQI number.

use vstd::prelude::*;

verus! {

/// The six severity bands, ordered from least to most severe.
#[derive(Clone, Copy, Debug, PartialEq, Eq, Structural)]
pub enum SeverityTier {
    Good,
    Moderate,
    UnhealthySensitive,
    Unhealthy,
    VeryUnhealthy,
    Hazardous,
}

/// Lower end of the AQI sub-range owned by a tier.
pub open spec fn tier_low(t: SeverityTier) -> int {
    match t {
        SeverityTier::Good => 0,
        SeverityTier::Moderate => 51,
        SeverityTier::UnhealthySensitive => 101,
        SeverityTier::Unhealthy => 151,
        SeverityTier::VeryUnhealthy => 201,
        SeverityTier::Hazardous => 301,
    }
}

/// Upper end of the AQI sub-range owned by a tier.
pub open spec fn tier_high(t: SeverityTier) -> int {
    match t {
        SeverityTier::Good => 50,
        SeverityTier::Moderate => 100,
        SeverityTier::UnhealthySensitive => 150,
        SeverityTier::Unhealthy => 200,
        SeverityTier::VeryUnhealthy => 300,
        SeverityTier::Hazardous => 500,
    }
}

/// Whether `aqi` lies in the sub-range owned by tier `t`.
pub open spec fn tier_contains(t: SeverityTier, aqi: int) -> bool {
    tier_low(t) <= aqi <= tier_high(t)
}

/// The tier owning a given AQI value: the unique band whose sub-range
/// contains it (for values in 0..=500).
pub open spec fn tier_of(aqi: int) -> SeverityTier {
    if aqi <= 50 {
        SeverityTier::Good
    } else if aqi <= 100 {
        SeverityTier::Moderate
    } else if aqi <= 150 {
        SeverityTier::UnhealthySensitive
    } else if aqi <= 200 {
        SeverityTier::Unhealthy
    } else if aqi <= 300 {
        SeverityTier::VeryUnhealthy
    } else {
        SeverityTier::Hazardous
    }
}

/// Rank of a tier in the Good < Moderate < ... < Hazardous order.
pub open spec fn tier_rank(t: SeverityTier) -> int {
    match t {
        SeverityTier::Good => 0,
        SeverityTier::Moderate => 1,
        SeverityTier::UnhealthySensitive => 2,
        SeverityTier::Unhealthy => 3,
        SeverityTier::VeryUnhealthy => 4,
        SeverityTier::Hazardous => 5,
    }
}

impl SeverityTier {
    /// The tier for an AQI value.
    pub fn from_aqi(aqi: u32) -> (t: SeverityTier)
        ensures
            t == tier_of(aqi as int),
    {
        if aqi <= 50 {
            SeverityTier::Good
        } else if aqi <= 100 {
            SeverityTier::Moderate
        } else if aqi <= 150 {
            SeverityTier::UnhealthySensitive
        } else if aqi <= 200 {
            SeverityTier::Unhealthy
        } else if aqi <= 300 {
            SeverityTier::VeryUnhealthy
        } else {
            SeverityTier::Hazardous
        }
    }

    /// Rank in the severity order; lower rank means better air.
    pub fn rank(&self) -> (r: u32)
        ensures
            r == tier_rank(*self),
    {
        match self {
            SeverityTier::Good => 0,
            SeverityTier::Moderate => 1,
            SeverityTier::UnhealthySensitive => 2,
            SeverityTier::Unhealthy => 3,
            SeverityTier::VeryUnhealthy => 4,
            SeverityTier::Hazardous => 5,
        }
    }
}

/// Every AQI value in 0..=500 lies in the sub-range of exactly one tier,
/// and that tier is `tier_of(aqi)`.
pub proof fn lemma_tier_partition(aqi: int)
    requires
        0 <= aqi <= 500,
    ensures
        tier_contains(tier_of(aqi), aqi),
        forall|t: SeverityTier| tier_contains(t, aqi) ==> t == tier_of(aqi),
{
    assert forall|t: SeverityTier| tier_contains(t, aqi) implies t == tier_of(aqi) by {
        match t {
            SeverityTier::Good => {},
            SeverityTier::Moderate => {},
            SeverityTier::UnhealthySensitive => {},
            SeverityTier::Unhealthy => {},
            SeverityTier::VeryUnhealthy => {},
            SeverityTier::Hazardous => {},
        }
    }
}

} // verus!
