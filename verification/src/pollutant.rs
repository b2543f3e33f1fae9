//! The closed set of supported pollutants and the parse step that turns an
//! external identifier string (e.g. "pm25", "O3") into a `PollutantKind`.
//!
//! Identifier matching is ASCII-case-insensitive, so upstream feeds may
//! report "PM25" or "pm25" alike.

use vstd::prelude::*;

verus! {

/// The six supported pollutant kinds. Each owns one breakpoint table and a
/// fixed concentration unit:
/// - `Pm25`: tenths of a microgram per cubic metre (24-hour average)
/// - `Pm10`: micrograms per cubic metre (24-hour average)
/// - `Ozone8`: parts per billion (8-hour average)
/// - `No2`: parts per billion (1-hour average)
/// - `So2`: parts per billion (1-hour average)
/// - `Co`: tenths of a part per million (8-hour average)
#[derive(Clone, Copy, Debug, PartialEq, Eq, Structural)]
pub enum PollutantKind {
    Pm25,
    Pm10,
    Ozone8,
    No2,
    So2,
    Co,
}

/// Code point of a character with ASCII upper-case letters folded to lower
/// case; all other characters are left as they are.
pub open spec fn lower_code(c: char) -> int {
    if 'A' as int <= c as int && c as int <= 'Z' as int {
        c as int + 32
    } else {
        c as int
    }
}

/// Whether two character sequences are equal up to ASCII case.
pub open spec fn eq_lower(s: Seq<char>, t: Seq<char>) -> bool {
    s.len() == t.len() && forall|i: int| 0 <= i < s.len() ==> lower_code(s[i]) == lower_code(t[i])
}

/// The pollutant kind named by an identifier string, if any. Matching is
/// ASCII-case-insensitive; unrecognized identifiers yield `None`.
pub open spec fn parse_name(s: Seq<char>) -> Option<PollutantKind> {
    if eq_lower(s, "pm25"@) {
        Some(PollutantKind::Pm25)
    } else if eq_lower(s, "pm10"@) {
        Some(PollutantKind::Pm10)
    } else if eq_lower(s, "o3"@) {
        Some(PollutantKind::Ozone8)
    } else if eq_lower(s, "no2"@) {
        Some(PollutantKind::No2)
    } else if eq_lower(s, "so2"@) {
        Some(PollutantKind::So2)
    } else if eq_lower(s, "co"@) {
        Some(PollutantKind::Co)
    } else {
        None
    }
}

/// Number of table units per unit reported by the upstream feed: the feed
/// reports micrograms per cubic metre for particulates, parts per billion
/// for the gases except CO, and parts per million for CO.
pub open spec fn unit_scale_spec(k: PollutantKind) -> int {
    match k {
        PollutantKind::Pm25 => 10,
        PollutantKind::Pm10 => 1,
        PollutantKind::Ozone8 => 1,
        PollutantKind::No2 => 1,
        PollutantKind::So2 => 1,
        PollutantKind::Co => 10,
    }
}

/// ASCII-case-insensitive string comparison.
pub fn eq_ignore_case(s: &str, t: &str) -> (r: bool)
    ensures
        r == eq_lower(s@, t@),
{
    let n = s.unicode_len();
    if n != t.unicode_len() {
        return false;
    }
    let mut i: usize = 0;
    while i < n
        invariant
            n == s@.len(),
            n == t@.len(),
            i <= n,
            forall|j: int| 0 <= j < i ==> lower_code(s@[j]) == lower_code(t@[j]),
        decreases n - i,
    {
        let a = s.get_char(i);
        let b = t.get_char(i);
        let ac: u32 = a as u32;
        let bc: u32 = b as u32;
        let la: u32 = if 65 <= ac && ac <= 90 {
            ac + 32
        } else {
            ac
        };
        let lb: u32 = if 65 <= bc && bc <= 90 {
            bc + 32
        } else {
            bc
        };
        if la != lb {
            assert(lower_code(s@[i as int]) != lower_code(t@[i as int]));
            return false;
        }
        i += 1;
    }
    true
}

impl PollutantKind {
    /// Parses an external pollutant identifier; `None` for any identifier
    /// outside the supported six-kind set.
    pub fn from_name(name: &str) -> (r: Option<PollutantKind>)
        ensures
            r == parse_name(name@),
    {
        if eq_ignore_case(name, "pm25") {
            Some(PollutantKind::Pm25)
        } else if eq_ignore_case(name, "pm10") {
            Some(PollutantKind::Pm10)
        } else if eq_ignore_case(name, "o3") {
            Some(PollutantKind::Ozone8)
        } else if eq_ignore_case(name, "no2") {
            Some(PollutantKind::No2)
        } else if eq_ignore_case(name, "so2") {
            Some(PollutantKind::So2)
        } else if eq_ignore_case(name, "co") {
            Some(PollutantKind::Co)
        } else {
            None
        }
    }

    /// Table units per feed-reported unit for this pollutant (see the unit
    /// list on `PollutantKind`): callers holding a concentration in feed
    /// units multiply by this factor before converting.
    pub fn unit_scale(&self) -> (s: u32)
        ensures
            s == unit_scale_spec(*self),
    {
        match self {
            PollutantKind::Pm25 => 10,
            PollutantKind::Pm10 => 1,
            PollutantKind::Ozone8 => 1,
            PollutantKind::No2 => 1,
            PollutantKind::So2 => 1,
            PollutantKind::Co => 10,
        }
    }
}

} // verus!
