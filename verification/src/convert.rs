//! The breakpoint converter: regulator breakpoint tables, one per pollutant
//! kind, and the piecewise-linear interpolation that turns a concentration
//! into an AQI value with its severity tier.
//!
//! Concentrations are held in each pollutant's table unit (see
//! `PollutantKind`), so every table is a contiguous run of integer ranges:
//! each row starts one unit above the previous row's upper bound. A
//! concentration below zero or above the last row's upper bound is out of
//! the table's domain.

use vstd::arithmetic::div_mod::{
    lemma_div_is_ordered, lemma_div_multiples_vanish_fancy, lemma_div_pos_is_pos,
};
use vstd::prelude::*;

use crate::pollutant::{parse_name, PollutantKind};
use crate::severity::{tier_of, SeverityTier};

verus! {

/// One row of a conversion table: concentrations in `conc_low..=conc_high`
/// (table units) map linearly onto AQI values in `aqi_low..=aqi_high`.
#[derive(Clone, Copy, Debug, PartialEq, Eq, Structural)]
pub struct Breakpoint {
    pub conc_low: u32,
    pub conc_high: u32,
    pub aqi_low: u32,
    pub aqi_high: u32,
}

/// Output of a conversion: an AQI value in 0..=500 and the severity tier
/// whose sub-range contains it.
#[derive(Clone, Copy, Debug, PartialEq, Eq, Structural)]
pub struct AirQualityResult {
    pub aqi: u32,
    pub level: SeverityTier,
}

/// The three failure modes of the reporting core.
#[derive(Clone, Copy, Debug, PartialEq, Eq, Structural)]
pub enum AqiError {
    /// The pollutant identifier is not one of the six supported kinds.
    UnknownPollutant,
    /// The concentration is negative or above the highest table row.
    OutOfDomain,
    /// The reading has no current value for its dominant pollutant.
    MissingCurrentValue,
}

/// The regulator breakpoint table for a pollutant, in that pollutant's
/// table unit.
#[verifier::opaque]
pub open spec fn table_spec(k: PollutantKind) -> Seq<Breakpoint> {
    match k {
        PollutantKind::Pm25 => seq![
            (Breakpoint { conc_low: 0, conc_high: 120, aqi_low: 0, aqi_high: 50 }),
            (Breakpoint { conc_low: 121, conc_high: 354, aqi_low: 51, aqi_high: 100 }),
            (Breakpoint { conc_low: 355, conc_high: 554, aqi_low: 101, aqi_high: 150 }),
            (Breakpoint { conc_low: 555, conc_high: 1504, aqi_low: 151, aqi_high: 200 }),
            (Breakpoint { conc_low: 1505, conc_high: 2504, aqi_low: 201, aqi_high: 300 }),
            (Breakpoint { conc_low: 2505, conc_high: 3504, aqi_low: 301, aqi_high: 400 }),
            (Breakpoint { conc_low: 3505, conc_high: 5004, aqi_low: 401, aqi_high: 500 }),
        ],
        PollutantKind::Pm10 => seq![
            (Breakpoint { conc_low: 0, conc_high: 54, aqi_low: 0, aqi_high: 50 }),
            (Breakpoint { conc_low: 55, conc_high: 154, aqi_low: 51, aqi_high: 100 }),
            (Breakpoint { conc_low: 155, conc_high: 254, aqi_low: 101, aqi_high: 150 }),
            (Breakpoint { conc_low: 255, conc_high: 354, aqi_low: 151, aqi_high: 200 }),
            (Breakpoint { conc_low: 355, conc_high: 424, aqi_low: 201, aqi_high: 300 }),
            (Breakpoint { conc_low: 425, conc_high: 504, aqi_low: 301, aqi_high: 400 }),
            (Breakpoint { conc_low: 505, conc_high: 604, aqi_low: 401, aqi_high: 500 }),
        ],
        PollutantKind::Ozone8 => seq![
            (Breakpoint { conc_low: 0, conc_high: 54, aqi_low: 0, aqi_high: 50 }),
            (Breakpoint { conc_low: 55, conc_high: 70, aqi_low: 51, aqi_high: 100 }),
            (Breakpoint { conc_low: 71, conc_high: 85, aqi_low: 101, aqi_high: 150 }),
            (Breakpoint { conc_low: 86, conc_high: 105, aqi_low: 151, aqi_high: 200 }),
            (Breakpoint { conc_low: 106, conc_high: 200, aqi_low: 201, aqi_high: 300 }),
        ],
        PollutantKind::No2 => seq![
            (Breakpoint { conc_low: 0, conc_high: 53, aqi_low: 0, aqi_high: 50 }),
            (Breakpoint { conc_low: 54, conc_high: 100, aqi_low: 51, aqi_high: 100 }),
            (Breakpoint { conc_low: 101, conc_high: 360, aqi_low: 101, aqi_high: 150 }),
            (Breakpoint { conc_low: 361, conc_high: 649, aqi_low: 151, aqi_high: 200 }),
            (Breakpoint { conc_low: 650, conc_high: 1249, aqi_low: 201, aqi_high: 300 }),
            (Breakpoint { conc_low: 1250, conc_high: 1649, aqi_low: 301, aqi_high: 400 }),
            (Breakpoint { conc_low: 1650, conc_high: 2049, aqi_low: 401, aqi_high: 500 }),
        ],
        PollutantKind::So2 => seq![
            (Breakpoint { conc_low: 0, conc_high: 35, aqi_low: 0, aqi_high: 50 }),
            (Breakpoint { conc_low: 36, conc_high: 75, aqi_low: 51, aqi_high: 100 }),
            (Breakpoint { conc_low: 76, conc_high: 185, aqi_low: 101, aqi_high: 150 }),
        ],
        PollutantKind::Co => seq![
            (Breakpoint { conc_low: 0, conc_high: 44, aqi_low: 0, aqi_high: 50 }),
            (Breakpoint { conc_low: 45, conc_high: 94, aqi_low: 51, aqi_high: 100 }),
            (Breakpoint { conc_low: 95, conc_high: 124, aqi_low: 101, aqi_high: 150 }),
            (Breakpoint { conc_low: 125, conc_high: 154, aqi_low: 151, aqi_high: 200 }),
            (Breakpoint { conc_low: 155, conc_high: 304, aqi_low: 201, aqi_high: 300 }),
            (Breakpoint { conc_low: 305, conc_high: 404, aqi_low: 301, aqi_high: 400 }),
            (Breakpoint { conc_low: 405, conc_high: 504, aqi_low: 401, aqi_high: 500 }),
        ],
    }
}

/// A single row is well formed: a non-empty concentration range (so the
/// interpolation denominator is positive), bounded values, and an ordered
/// AQI sub-range within 0..=500.
pub open spec fn row_wf(b: Breakpoint) -> bool {
    &&& b.conc_low < b.conc_high <= 10000
    &&& b.aqi_low <= b.aqi_high <= 500
}

/// A whole table is well formed: non-empty, starting at zero, every row
/// well formed, and both the concentration ranges and the AQI sub-ranges
/// contiguous from row to row.
pub open spec fn table_wf(rows: Seq<Breakpoint>) -> bool {
    &&& rows.len() > 0
    &&& rows[0].conc_low == 0
    &&& forall|i: int| 0 <= i < rows.len() ==> row_wf(#[trigger] rows[i])
    &&& forall|i: int|
        0 < i < rows.len() ==> (#[trigger] rows[i]).conc_low == rows[i - 1].conc_high + 1
    &&& forall|i: int|
        0 < i < rows.len() ==> (#[trigger] rows[i]).aqi_low == rows[i - 1].aqi_high + 1
}

/// Every pollutant's table is well formed.
pub proof fn lemma_table_wf(k: PollutantKind)
    ensures
        table_wf(table_spec(k)),
{
    reveal(table_spec);
    match k {
        PollutantKind::Pm25 => {
            assert(table_wf(table_spec(k)));
        },
        PollutantKind::Pm10 => {
            assert(table_wf(table_spec(k)));
        },
        PollutantKind::Ozone8 => {
            assert(table_wf(table_spec(k)));
        },
        PollutantKind::No2 => {
            assert(table_wf(table_spec(k)));
        },
        PollutantKind::So2 => {
            assert(table_wf(table_spec(k)));
        },
        PollutantKind::Co => {
            assert(table_wf(table_spec(k)));
        },
    }
}

/// Highest concentration the table for `k` covers.
pub open spec fn max_conc(k: PollutantKind) -> int {
    table_spec(k).last().conc_high as int
}

/// Whether a concentration lies in the domain the table for `k` covers.
pub open spec fn in_domain(k: PollutantKind, c: int) -> bool {
    0 <= c <= max_conc(k)
}

/// Index of the first row whose upper bound is at least `c`: the row a
/// conversion uses. On a shared boundary the lower row is preferred, which
/// with contiguous integer ranges is the unique containing row.
pub open spec fn find_row(rows: Seq<Breakpoint>, c: int) -> int
    decreases rows.len(),
{
    if rows.len() == 0 {
        0
    } else if c <= rows[0].conc_high {
        0
    } else {
        1 + find_row(rows.subrange(1, rows.len() as int), c)
    }
}

/// Linear interpolation of `c` over row `b`, rounded half-up:
/// `round((aqi_high - aqi_low) / (conc_high - conc_low) * (c - conc_low) + aqi_low)`.
pub open spec fn interp(b: Breakpoint, c: int) -> int {
    b.aqi_low + (2 * (b.aqi_high - b.aqi_low) * (c - b.conc_low) + (b.conc_high - b.conc_low)) / (2
        * (b.conc_high - b.conc_low))
}

/// The AQI value the table for `k` assigns to an in-domain concentration.
pub open spec fn aqi_spec(k: PollutantKind, c: int) -> int {
    interp(table_spec(k)[find_row(table_spec(k), c)], c)
}

/// Whether `res` is exactly the conversion of concentration `c` for
/// pollutant `k`: the interpolated AQI and the tier owning that AQI.
pub open spec fn is_conversion(res: AirQualityResult, k: PollutantKind, c: int) -> bool {
    &&& res.aqi as int == aqi_spec(k, c)
    &&& res.level == tier_of(res.aqi as int)
}

/// `find_row` returns `i` when `c` is at most row `i`'s upper bound but
/// above every earlier row's.
proof fn lemma_find_row_at(rows: Seq<Breakpoint>, c: int, i: int)
    requires
        0 <= i < rows.len(),
        forall|j: int| 0 <= j < i ==> c > (#[trigger] rows[j]).conc_high,
        c <= rows[i].conc_high,
    ensures
        find_row(rows, c) == i,
    decreases i,
{
    if i > 0 {
        let sub = rows.subrange(1, rows.len() as int);
        lemma_find_row_at(sub, c, i - 1);
    }
}

/// In a contiguous table, earlier rows end strictly below later rows'
/// lower bounds.
proof fn lemma_rows_ordered(rows: Seq<Breakpoint>, j: int, i: int)
    requires
        forall|m: int| 0 <= m < rows.len() ==> row_wf(#[trigger] rows[m]),
        forall|m: int|
            0 < m < rows.len() ==> (#[trigger] rows[m]).conc_low == rows[m - 1].conc_high + 1,
        0 <= j < i < rows.len(),
    ensures
        rows[j].conc_high < rows[i].conc_low,
    decreases i - j,
{
    if j + 1 < i {
        lemma_rows_ordered(rows, j + 1, i);
    }
}

/// In a contiguous table, earlier rows' AQI sub-ranges end strictly below
/// later rows' lower AQI bounds.
proof fn lemma_rows_aqi_ordered(rows: Seq<Breakpoint>, j: int, i: int)
    requires
        forall|m: int| 0 <= m < rows.len() ==> row_wf(#[trigger] rows[m]),
        forall|m: int|
            0 < m < rows.len() ==> (#[trigger] rows[m]).aqi_low == rows[m - 1].aqi_high + 1,
        0 <= j < i < rows.len(),
    ensures
        rows[j].aqi_high < rows[i].aqi_low,
    decreases i - j,
{
    if j + 1 < i {
        lemma_rows_aqi_ordered(rows, j + 1, i);
    }
}

/// For any in-domain concentration, `find_row` lands on a valid row whose
/// range contains the concentration.
proof fn lemma_find_row_in_range(rows: Seq<Breakpoint>, c: int)
    requires
        rows.len() > 0,
        forall|m: int| 0 <= m < rows.len() ==> row_wf(#[trigger] rows[m]),
        forall|m: int|
            0 < m < rows.len() ==> (#[trigger] rows[m]).conc_low == rows[m - 1].conc_high + 1,
        rows[0].conc_low <= c <= rows[rows.len() - 1].conc_high,
    ensures
        0 <= find_row(rows, c) < rows.len(),
        rows[find_row(rows, c)].conc_low <= c <= rows[find_row(rows, c)].conc_high,
    decreases rows.len(),
{
    if c > rows[0].conc_high {
        let sub = rows.subrange(1, rows.len() as int);
        assert(rows.len() > 1);
        lemma_find_row_in_range(sub, c);
    }
}

/// Interpolation stays within the row's AQI sub-range.
proof fn lemma_interp_in_range(b: Breakpoint, c: int)
    requires
        row_wf(b),
        b.conc_low <= c <= b.conc_high,
    ensures
        b.aqi_low <= interp(b, c) <= b.aqi_high,
{
    let d = b.conc_high - b.conc_low;
    let da = b.aqi_high - b.aqi_low;
    let x = c - b.conc_low;
    let num = 2 * da * x + d;
    let den = 2 * d;
    assert(2 * da * x >= 0) by (nonlinear_arith)
        requires
            da >= 0,
            x >= 0,
    ;
    lemma_div_pos_is_pos(num, den);
    assert(num <= den * da + d) by (nonlinear_arith)
        requires
            da >= 0,
            0 <= x <= d,
            num == 2 * da * x + d,
            den == 2 * d,
    ;
    lemma_div_is_ordered(num, den * da + d, den);
    lemma_div_multiples_vanish_fancy(da, d, den);
}

/// At a row's exact bounds interpolation returns the sub-range's exact
/// ends.
proof fn lemma_interp_at_bounds(b: Breakpoint)
    requires
        row_wf(b),
    ensures
        interp(b, b.conc_low as int) == b.aqi_low,
        interp(b, b.conc_high as int) == b.aqi_high,
{
    let d = b.conc_high - b.conc_low;
    let da = b.aqi_high - b.aqi_low;
    let den = 2 * d;
    assert(2 * da * (b.conc_low - b.conc_low) + d == den * 0 + d) by (nonlinear_arith);
    lemma_div_multiples_vanish_fancy(0, d, den);
    assert(2 * da * (b.conc_high - b.conc_low) + d == den * da + d) by (nonlinear_arith)
        requires
            d == b.conc_high - b.conc_low,
            den == 2 * d,
    ;
    lemma_div_multiples_vanish_fancy(da, d, den);
}

/// Within one row, interpolation is monotonically non-decreasing in the
/// concentration.
proof fn lemma_interp_monotone(b: Breakpoint, c1: int, c2: int)
    requires
        row_wf(b),
        b.conc_low <= c1 <= c2 <= b.conc_high,
    ensures
        interp(b, c1) <= interp(b, c2),
{
    let d = b.conc_high - b.conc_low;
    let da = b.aqi_high - b.aqi_low;
    assert(2 * da * (c1 - b.conc_low) <= 2 * da * (c2 - b.conc_low)) by (nonlinear_arith)
        requires
            da >= 0,
            c1 <= c2,
    ;
    lemma_div_is_ordered(2 * da * (c1 - b.conc_low) + d, 2 * da * (c2 - b.conc_low) + d, 2 * d);
}

/// The breakpoint table for a pollutant, as executable data.
pub fn table(k: PollutantKind) -> (rows: Vec<Breakpoint>)
    ensures
        rows@ == table_spec(k),
{
    let rows: Vec<Breakpoint> = match k {
        PollutantKind::Pm25 => vec![
            Breakpoint { conc_low: 0, conc_high: 120, aqi_low: 0, aqi_high: 50 },
            Breakpoint { conc_low: 121, conc_high: 354, aqi_low: 51, aqi_high: 100 },
            Breakpoint { conc_low: 355, conc_high: 554, aqi_low: 101, aqi_high: 150 },
            Breakpoint { conc_low: 555, conc_high: 1504, aqi_low: 151, aqi_high: 200 },
            Breakpoint { conc_low: 1505, conc_high: 2504, aqi_low: 201, aqi_high: 300 },
            Breakpoint { conc_low: 2505, conc_high: 3504, aqi_low: 301, aqi_high: 400 },
            Breakpoint { conc_low: 3505, conc_high: 5004, aqi_low: 401, aqi_high: 500 },
        ],
        PollutantKind::Pm10 => vec![
            Breakpoint { conc_low: 0, conc_high: 54, aqi_low: 0, aqi_high: 50 },
            Breakpoint { conc_low: 55, conc_high: 154, aqi_low: 51, aqi_high: 100 },
            Breakpoint { conc_low: 155, conc_high: 254, aqi_low: 101, aqi_high: 150 },
            Breakpoint { conc_low: 255, conc_high: 354, aqi_low: 151, aqi_high: 200 },
            Breakpoint { conc_low: 355, conc_high: 424, aqi_low: 201, aqi_high: 300 },
            Breakpoint { conc_low: 425, conc_high: 504, aqi_low: 301, aqi_high: 400 },
            Breakpoint { conc_low: 505, conc_high: 604, aqi_low: 401, aqi_high: 500 },
        ],
        PollutantKind::Ozone8 => vec![
            Breakpoint { conc_low: 0, conc_high: 54, aqi_low: 0, aqi_high: 50 },
            Breakpoint { conc_low: 55, conc_high: 70, aqi_low: 51, aqi_high: 100 },
            Breakpoint { conc_low: 71, conc_high: 85, aqi_low: 101, aqi_high: 150 },
            Breakpoint { conc_low: 86, conc_high: 105, aqi_low: 151, aqi_high: 200 },
            Breakpoint { conc_low: 106, conc_high: 200, aqi_low: 201, aqi_high: 300 },
        ],
        PollutantKind::No2 => vec![
            Breakpoint { conc_low: 0, conc_high: 53, aqi_low: 0, aqi_high: 50 },
            Breakpoint { conc_low: 54, conc_high: 100, aqi_low: 51, aqi_high: 100 },
            Breakpoint { conc_low: 101, conc_high: 360, aqi_low: 101, aqi_high: 150 },
            Breakpoint { conc_low: 361, conc_high: 649, aqi_low: 151, aqi_high: 200 },
            Breakpoint { conc_low: 650, conc_high: 1249, aqi_low: 201, aqi_high: 300 },
            Breakpoint { conc_low: 1250, conc_high: 1649, aqi_low: 301, aqi_high: 400 },
            Breakpoint { conc_low: 1650, conc_high: 2049, aqi_low: 401, aqi_high: 500 },
        ],
        PollutantKind::So2 => vec![
            Breakpoint { conc_low: 0, conc_high: 35, aqi_low: 0, aqi_high: 50 },
            Breakpoint { conc_low: 36, conc_high: 75, aqi_low: 51, aqi_high: 100 },
            Breakpoint { conc_low: 76, conc_high: 185, aqi_low: 101, aqi_high: 150 },
        ],
        PollutantKind::Co => vec![
            Breakpoint { conc_low: 0, conc_high: 44, aqi_low: 0, aqi_high: 50 },
            Breakpoint { conc_low: 45, conc_high: 94, aqi_low: 51, aqi_high: 100 },
            Breakpoint { conc_low: 95, conc_high: 124, aqi_low: 101, aqi_high: 150 },
            Breakpoint { conc_low: 125, conc_high: 154, aqi_low: 151, aqi_high: 200 },
            Breakpoint { conc_low: 155, conc_high: 304, aqi_low: 201, aqi_high: 300 },
            Breakpoint { conc_low: 305, conc_high: 404, aqi_low: 301, aqi_high: 400 },
            Breakpoint { conc_low: 405, conc_high: 504, aqi_low: 401, aqi_high: 500 },
        ],
    };
    proof {
        reveal(table_spec);
        assert(rows@ =~= table_spec(k));
    }
    rows
}

/// Finds the row a conversion uses: the first whose upper bound is at
/// least `c`.
fn locate_row(rows: &Vec<Breakpoint>, c: u32) -> (idx: usize)
    requires
        table_wf(rows@),
        c <= rows@[rows@.len() - 1].conc_high,
    ensures
        idx < rows@.len(),
        find_row(rows@, c as int) == idx as int,
        rows@[idx as int].conc_low <= c <= rows@[idx as int].conc_high,
{
    let n = rows.len();
    let mut idx: usize = 0;
    while idx + 1 < n && rows[idx].conc_high < c
        invariant
            n == rows@.len(),
            0 < n,
            0 <= idx < n,
            forall|j: int| 0 <= j < idx ==> c > (#[trigger] rows@[j]).conc_high,
        decreases n - idx,
    {
        idx += 1;
    }
    proof {
        assert(c <= rows@[idx as int].conc_high);
        if idx > 0 {
            assert(rows@[idx as int].conc_low == rows@[idx as int - 1].conc_high + 1);
        }
        lemma_find_row_at(rows@, c as int, idx as int);
    }
    idx
}

/// Linear interpolation of `c` over row `b`, rounded half-up.
fn interp_row(b: &Breakpoint, c: u32) -> (aqi: u32)
    requires
        row_wf(*b),
        b.conc_low <= c <= b.conc_high,
    ensures
        aqi as int == interp(*b, c as int),
        b.aqi_low <= aqi <= b.aqi_high,
{
    proof {
        lemma_interp_in_range(*b, c as int);
    }
    let dc: u32 = b.conc_high - b.conc_low;
    let da: u32 = b.aqi_high - b.aqi_low;
    let off: u32 = c - b.conc_low;
    proof {
        assert(2 * (da as int) * (off as int) <= 10000000) by (nonlinear_arith)
            requires
                0 <= da as int <= 500,
                0 <= off as int <= 10000,
        ;
    }
    let num: u64 = 2 * (da as u64) * (off as u64) + (dc as u64);
    let q: u64 = num / (2 * (dc as u64));
    b.aqi_low + (q as u32)
}

/// Converts a concentration (in `kind`'s table unit) into its AQI value
/// and severity tier. Fails with `OutOfDomain` exactly when the
/// concentration is negative or above the highest breakpoint.
pub fn convert(kind: PollutantKind, concentration: i64) -> (r: Result<AirQualityResult, AqiError>)
    ensures
        r is Ok <==> in_domain(kind, concentration as int),
        r is Err ==> r == Result::<AirQualityResult, AqiError>::Err(AqiError::OutOfDomain),
        r matches Ok(res) ==> is_conversion(res, kind, concentration as int),
        r matches Ok(res) ==> res.aqi <= 500,
{
    proof {
        lemma_table_wf(kind);
    }
    let rows = table(kind);
    let n = rows.len();
    if concentration < 0 {
        return Err(AqiError::OutOfDomain);
    }
    let last_high: u32 = rows[n - 1].conc_high;
    if concentration > last_high as i64 {
        return Err(AqiError::OutOfDomain);
    }
    let c: u32 = concentration as u32;
    let idx = locate_row(&rows, c);
    let b = rows[idx];
    let aqi: u32 = interp_row(&b, c);
    let level = SeverityTier::from_aqi(aqi);
    Ok(AirQualityResult { aqi, level })
}

/// Converts by external pollutant identifier, as upstream feeds name
/// pollutants: an unrecognized identifier fails with `UnknownPollutant`,
/// and a recognized one converts exactly as `convert` does.
pub fn convert_by_name(name: &str, concentration: i64) -> (r: Result<
    AirQualityResult,
    AqiError,
>)
    ensures
        (r == Result::<AirQualityResult, AqiError>::Err(AqiError::UnknownPollutant)) <==> parse_name(
            name@,
        ) is None,
        parse_name(name@) matches Some(k) ==> (r is Ok <==> in_domain(
            k,
            concentration as int,
        )),
        parse_name(name@) matches Some(k) ==> (r is Err && r != Result::<
            AirQualityResult,
            AqiError,
        >::Err(AqiError::UnknownPollutant) ==> r == Result::<AirQualityResult, AqiError>::Err(
            AqiError::OutOfDomain,
        )),
        parse_name(name@) matches Some(k) ==> (r matches Ok(res) ==> is_conversion(
            res,
            k,
            concentration as int,
        )),
{
    match PollutantKind::from_name(name) {
        None => Err(AqiError::UnknownPollutant),
        Some(k) => convert(k, concentration),
    }
}

/// Within one breakpoint row, conversion is monotonically non-decreasing
/// in the concentration: a higher concentration never yields a lower AQI.
pub proof fn lemma_convert_monotone_in_row(k: PollutantKind, i: int, c1: int, c2: int)
    requires
        0 <= i < table_spec(k).len(),
        table_spec(k)[i].conc_low <= c1 <= c2 <= table_spec(k)[i].conc_high,
    ensures
        aqi_spec(k, c1) <= aqi_spec(k, c2),
{
    lemma_table_wf(k);
    let rows = table_spec(k);
    assert forall|j: int| 0 <= j < i implies c1 > (#[trigger] rows[j]).conc_high by {
        lemma_rows_ordered(rows, j, i);
    }
    assert forall|j: int| 0 <= j < i implies c2 > (#[trigger] rows[j]).conc_high by {
        lemma_rows_ordered(rows, j, i);
    }
    lemma_find_row_at(rows, c1, i);
    lemma_find_row_at(rows, c2, i);
    lemma_interp_monotone(rows[i], c1, c2);
}

/// Over the whole domain, conversion is monotonically non-decreasing in
/// the concentration, also across row boundaries.
pub proof fn lemma_convert_monotone(k: PollutantKind, c1: int, c2: int)
    requires
        in_domain(k, c1),
        in_domain(k, c2),
        c1 <= c2,
    ensures
        aqi_spec(k, c1) <= aqi_spec(k, c2),
{
    lemma_table_wf(k);
    let rows = table_spec(k);
    lemma_find_row_in_range(rows, c1);
    lemma_find_row_in_range(rows, c2);
    let i1 = find_row(rows, c1);
    let i2 = find_row(rows, c2);
    lemma_interp_in_range(rows[i1], c1);
    lemma_interp_in_range(rows[i2], c2);
    if i1 == i2 {
        lemma_interp_monotone(rows[i1], c1, c2);
    } else if i1 < i2 {
        lemma_rows_aqi_ordered(rows, i1, i2);
    } else {
        lemma_rows_ordered(rows, i2, i1);
        assert(false);
    }
}

/// At a breakpoint row's exact lower bound the conversion returns exactly
/// that row's `aqi_low`; at its exact upper bound, exactly `aqi_high`.
pub proof fn lemma_convert_at_row_bounds(k: PollutantKind, i: int)
    requires
        0 <= i < table_spec(k).len(),
    ensures
        aqi_spec(k, table_spec(k)[i].conc_low as int) == table_spec(k)[i].aqi_low,
        aqi_spec(k, table_spec(k)[i].conc_high as int) == table_spec(k)[i].aqi_high,
{
    lemma_table_wf(k);
    let rows = table_spec(k);
    let cl = rows[i].conc_low as int;
    let ch = rows[i].conc_high as int;
    assert forall|j: int| 0 <= j < i implies cl > (#[trigger] rows[j]).conc_high by {
        lemma_rows_ordered(rows, j, i);
    }
    assert forall|j: int| 0 <= j < i implies ch > (#[trigger] rows[j]).conc_high by {
        lemma_rows_ordered(rows, j, i);
    }
    lemma_find_row_at(rows, cl, i);
    lemma_find_row_at(rows, ch, i);
    lemma_interp_at_bounds(rows[i]);
}

/// For every in-domain conversion the AQI lies in 0..=500 and its severity
/// tier is the unique tier whose sub-range contains it.
pub proof fn lemma_level_matches_aqi(k: PollutantKind, c: int)
    requires
        in_domain(k, c),
    ensures
        0 <= aqi_spec(k, c) <= 500,
        crate::severity::tier_contains(tier_of(aqi_spec(k, c)), aqi_spec(k, c)),
        forall|t: SeverityTier|
            crate::severity::tier_contains(t, aqi_spec(k, c)) ==> t == tier_of(aqi_spec(k, c)),
{
    lemma_table_wf(k);
    let rows = table_spec(k);
    lemma_find_row_in_range(rows, c);
    lemma_interp_in_range(rows[find_row(rows, c)], c);
    crate::severity::lemma_tier_partition(aqi_spec(k, c));
}

} // verus!

