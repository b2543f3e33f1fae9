//! The report deriver: turns a pollution reading into the ordered daily
//! report for its dominant pollutant — one entry for the current day,
//! then one per forecast day dated strictly after the current day, in the
//! forecast's original order.

use vstd::prelude::*;
use vstd::seq_lib::group_seq_properties;

use crate::convert::{convert, in_domain, is_conversion, AirQualityResult, AqiError};
use crate::order::{lex_lt, str_lex_lt};
use crate::pollutant::{parse_name, PollutantKind};

verus! {

/// A current measurement: the concentration for one pollutant, in that
/// pollutant's table unit.
pub struct PollutantValue {
    pub pollutant: String,
    pub value: i64,
}

/// One forecast day: its date label and the forecast average
/// concentration, in the pollutant's table unit.
pub struct ForecastDay {
    pub date_label: String,
    pub avg: i64,
}

/// The forecast series for one pollutant, in the feed's original order.
pub struct PollutantForecast {
    pub pollutant: String,
    pub days: Vec<ForecastDay>,
}

/// A parsed pollution reading, as the upstream feed reports it: the
/// dominant pollutant's identifier, the current per-pollutant values, the
/// per-pollutant forecast series and the current day's date label.
pub struct PollutionReading {
    pub dominant_pollutant: String,
    pub current_values: Vec<PollutantValue>,
    pub forecasts: Vec<PollutantForecast>,
    pub current_date_label: String,
}

/// One line of the derived report: a date label with the conversion result
/// for that day.
#[derive(Debug, PartialEq, Eq)]
pub struct DailyReportEntry {
    pub date_label: String,
    pub result: AirQualityResult,
}

/// The current value recorded for `name`: the first matching entry.
pub open spec fn lookup_value(vals: Seq<PollutantValue>, name: Seq<char>) -> Option<int>
    decreases vals.len(),
{
    if vals.len() == 0 {
        None
    } else if vals[0].pollutant@ == name {
        Some(vals[0].value as int)
    } else {
        lookup_value(vals.skip(1), name)
    }
}

/// The forecast series recorded for `name`: the first matching entry.
pub open spec fn lookup_series(fs: Seq<PollutantForecast>, name: Seq<char>) -> Option<
    Seq<ForecastDay>,
>
    decreases fs.len(),
{
    if fs.len() == 0 {
        None
    } else if fs[0].pollutant@ == name {
        Some(fs[0].days@)
    } else {
        lookup_series(fs.skip(1), name)
    }
}

/// The filter a forecast day must pass to appear in the report: dated
/// strictly after the current day.
pub open spec fn selected_pred(cur: Seq<char>) -> spec_fn(ForecastDay) -> bool {
    |d: ForecastDay| lex_lt(cur, d.date_label@)
}

/// The forecast days that appear in the report, in their original order:
/// exactly those dated strictly after `cur`.
pub open spec fn selected_days(days: Seq<ForecastDay>, cur: Seq<char>) -> Seq<ForecastDay> {
    days.filter(selected_pred(cur))
}

/// The reading's current concentration for its dominant pollutant.
pub open spec fn dominant_current(r: PollutionReading) -> Option<int> {
    lookup_value(r.current_values@, r.dominant_pollutant@)
}

/// The reading's dominant pollutant, parsed.
pub open spec fn dominant_kind(r: PollutionReading) -> Option<PollutantKind> {
    parse_name(r.dominant_pollutant@)
}

/// The reading's forecast series for its dominant pollutant; an absent
/// series is an empty one, not an error.
pub open spec fn dominant_forecast(r: PollutionReading) -> Seq<ForecastDay> {
    match lookup_series(r.forecasts@, r.dominant_pollutant@) {
        None => Seq::empty(),
        Some(days) => days,
    }
}

/// The forecast days the report includes for this reading.
pub open spec fn report_selected(r: PollutionReading) -> Seq<ForecastDay> {
    selected_days(dominant_forecast(r), r.current_date_label@)
}

/// Whether report derivation succeeds: a current value exists for the
/// dominant pollutant, the pollutant is a supported kind, and the current
/// and every included forecast concentration are in the table's domain.
pub open spec fn report_ok(r: PollutionReading) -> bool {
    match (dominant_current(r), dominant_kind(r)) {
        (Some(v), Some(k)) => in_domain(k, v) && (forall|i: int|
            0 <= i < report_selected(r).len() ==> in_domain(
                k,
                (#[trigger] report_selected(r)[i]).avg as int,
            )),
        _ => false,
    }
}

/// Whether `entries` is exactly the report derived from `r`: the current
/// day's conversion first, then the conversions of the included forecast
/// days in their original order.
pub open spec fn entries_match(r: PollutionReading, entries: Seq<DailyReportEntry>) -> bool {
    match (dominant_current(r), dominant_kind(r)) {
        (Some(v), Some(k)) => {
            &&& entries.len() == 1 + report_selected(r).len()
            &&& entries[0].date_label@ == r.current_date_label@
            &&& is_conversion(entries[0].result, k, v)
            &&& forall|i: int|
                0 <= i < report_selected(r).len() ==> entries[i + 1].date_label@ == (
                #[trigger] report_selected(r)[i]).date_label@ && is_conversion(
                    entries[i + 1].result,
                    k,
                    report_selected(r)[i].avg as int,
                )
        },
        _ => false,
    }
}

/// Looks up the current value for `name`: the first matching entry.
fn lookup_current(vals: &Vec<PollutantValue>, name: &String) -> (r: Option<i64>)
    ensures
        r is None <==> lookup_value(vals@, name@) is None,
        r matches Some(v) ==> lookup_value(vals@, name@) == Some(v as int),
{
    let n = vals.len();
    let mut i: usize = 0;
    proof {
        assert(vals@.skip(0) =~= vals@);
    }
    while i < n
        invariant
            n == vals@.len(),
            0 <= i <= n,
            lookup_value(vals@.skip(i as int), name@) == lookup_value(vals@, name@),
        decreases n - i,
    {
        let entry = &vals[i];
        if entry.pollutant == *name {
            assert(vals@.skip(i as int)[0] == vals@[i as int]);
            return Some(entry.value);
        }
        proof {
            assert(vals@.skip(i as int)[0] == vals@[i as int]);
            assert(vals@.skip(i as int).skip(1) =~= vals@.skip(i as int + 1));
        }
        i += 1;
    }
    proof {
        assert(vals@.skip(n as int) =~= Seq::<PollutantValue>::empty());
    }
    None
}

/// Looks up the forecast series for `name`: the first matching entry.
fn lookup_forecast<'a>(fs: &'a Vec<PollutantForecast>, name: &String) -> (r: Option<
    &'a Vec<ForecastDay>,
>)
    ensures
        r is None <==> lookup_series(fs@, name@) is None,
        r matches Some(days) ==> lookup_series(fs@, name@) == Some(days@),
{
    let n = fs.len();
    let mut i: usize = 0;
    proof {
        assert(fs@.skip(0) =~= fs@);
    }
    while i < n
        invariant
            n == fs@.len(),
            0 <= i <= n,
            lookup_series(fs@.skip(i as int), name@) == lookup_series(fs@, name@),
        decreases n - i,
    {
        let entry = &fs[i];
        if entry.pollutant == *name {
            assert(fs@.skip(i as int)[0] == fs@[i as int]);
            return Some(&entry.days);
        }
        proof {
            assert(fs@.skip(i as int)[0] == fs@[i as int]);
            assert(fs@.skip(i as int).skip(1) =~= fs@.skip(i as int + 1));
        }
        i += 1;
    }
    proof {
        assert(fs@.skip(n as int) =~= Seq::<PollutantForecast>::empty());
    }
    None
}

/// Extending the scanned prefix by one day extends the selection exactly
/// when that day passes the date filter.
proof fn lemma_selected_take_step(days: Seq<ForecastDay>, cur: Seq<char>, i: int)
    requires
        0 <= i < days.len(),
    ensures
        selected_days(days.take(i + 1), cur) == if selected_pred(cur)(days[i]) {
            selected_days(days.take(i), cur).push(days[i])
        } else {
            selected_days(days.take(i), cur)
        },
{
    reveal(Seq::filter);
    assert(days.take(i + 1).drop_last() =~= days.take(i));
    assert(days.take(i + 1).last() == days[i]);
}

/// The selection over the whole series splits at any scan position.
proof fn lemma_selected_split(days: Seq<ForecastDay>, cur: Seq<char>, m: int)
    requires
        0 <= m <= days.len(),
    ensures
        selected_days(days, cur) == selected_days(days.take(m), cur) + selected_days(
            days.skip(m),
            cur,
        ),
{
    assert(days =~= days.take(m) + days.skip(m));
    Seq::filter_distributes_over_add(days.take(m), days.skip(m), selected_pred(cur));
}

/// When the reading has no forecast series for its dominant pollutant,
/// the selection is empty and a derived report holds exactly one entry:
/// the current day's.
pub proof fn lemma_single_entry_without_series(r: PollutionReading, entries: Seq<DailyReportEntry>)
    requires
        lookup_series(r.forecasts@, r.dominant_pollutant@) is None,
        entries_match(r, entries),
    ensures
        entries.len() == 1,
{
    reveal(Seq::filter);
    assert(report_selected(r) =~= Seq::<ForecastDay>::empty());
}

/// Number of days selected among the first `m` forecast days: the
/// position at which day `m` would appear in the selection.
pub open spec fn sel_count(days: Seq<ForecastDay>, cur: Seq<char>, m: int) -> int {
    selected_days(days.take(m), cur).len() as int
}

/// Every day of the selection is dated strictly after the current day:
/// days dated on or before it are excluded.
pub proof fn lemma_selected_days_later(days: Seq<ForecastDay>, cur: Seq<char>)
    ensures
        forall|i: int|
            0 <= i < selected_days(days, cur).len() ==> lex_lt(
                cur,
                (#[trigger] selected_days(days, cur)[i]).date_label@,
            ),
{
    assert forall|i: int| 0 <= i < selected_days(days, cur).len() implies lex_lt(
        cur,
        (#[trigger] selected_days(days, cur)[i]).date_label@,
    ) by {
        days.lemma_filter_pred(selected_pred(cur), i);
    }
}

/// Every forecast day dated strictly after the current day appears in the
/// selection, at position `sel_count(days, cur, i)`.
pub proof fn lemma_selected_day_position(days: Seq<ForecastDay>, cur: Seq<char>, i: int)
    requires
        0 <= i < days.len(),
        lex_lt(cur, days[i].date_label@),
    ensures
        0 <= sel_count(days, cur, i) < selected_days(days, cur).len(),
        selected_days(days, cur)[sel_count(days, cur, i)] == days[i],
{
    lemma_selected_take_step(days, cur, i);
    lemma_selected_split(days, cur, i + 1);
    assert(selected_days(days.take(i + 1), cur)[sel_count(days, cur, i)] == days[i]);
}

/// `sel_count` never decreases as the scanned prefix grows.
pub proof fn lemma_sel_count_monotone(days: Seq<ForecastDay>, cur: Seq<char>, i: int, j: int)
    requires
        0 <= i <= j <= days.len(),
    ensures
        sel_count(days, cur, i) <= sel_count(days, cur, j),
    decreases j - i,
{
    if i < j {
        lemma_selected_take_step(days, cur, j - 1);
        lemma_sel_count_monotone(days, cur, i, j - 1);
    }
}

/// Two selected days keep their relative order: the earlier day's
/// position in the selection is strictly before the later day's. Together
/// with `lemma_selected_day_position` this says the selection preserves
/// the forecast's original order.
pub proof fn lemma_selected_order_preserved(days: Seq<ForecastDay>, cur: Seq<char>, i: int, j: int)
    requires
        0 <= i < j < days.len(),
        lex_lt(cur, days[i].date_label@),
        lex_lt(cur, days[j].date_label@),
    ensures
        sel_count(days, cur, i) < sel_count(days, cur, j),
{
    lemma_selected_take_step(days, cur, i);
    lemma_sel_count_monotone(days, cur, i + 1, j);
}

/// In a derived report every forecast entry's date is strictly after the
/// current date label.
pub proof fn lemma_report_dates_later(r: PollutionReading, entries: Seq<DailyReportEntry>)
    requires
        entries_match(r, entries),
    ensures
        forall|i: int|
            1 <= i < entries.len() ==> lex_lt(
                r.current_date_label@,
                (#[trigger] entries[i]).date_label@,
            ),
{
    lemma_selected_days_later(dominant_forecast(r), r.current_date_label@);
    assert forall|i: int| 1 <= i < entries.len() implies lex_lt(
        r.current_date_label@,
        (#[trigger] entries[i]).date_label@,
    ) by {
        assert(entries[i].date_label@ == report_selected(r)[i - 1].date_label@);
    }
}

/// Derives the daily report for a reading's dominant pollutant: the
/// current day's conversion first, then one entry per forecast day dated
/// strictly after the current day, in the forecast's original order.
///
/// Fails with `MissingCurrentValue` when the reading has no current value
/// for the dominant pollutant, with `UnknownPollutant` when the dominant
/// identifier is not a supported kind, and with `OutOfDomain` when any
/// converted concentration (current or included forecast day) is outside
/// the pollutant's table; any failure aborts the whole report.
pub fn derive_report(reading: &PollutionReading) -> (r: Result<Vec<DailyReportEntry>, AqiError>)
    ensures
        r is Ok <==> report_ok(*reading),
        r matches Ok(entries) ==> entries_match(*reading, entries@),
        (r == Result::<Vec<DailyReportEntry>, AqiError>::Err(AqiError::MissingCurrentValue))
            <==> dominant_current(*reading) is None,
        dominant_current(*reading) is Some ==> ((r == Result::<
            Vec<DailyReportEntry>,
            AqiError,
        >::Err(AqiError::UnknownPollutant)) <==> dominant_kind(*reading) is None),
{
    broadcast use group_seq_properties;

    let v: i64 = match lookup_current(&reading.current_values, &reading.dominant_pollutant) {
        None => {
            return Err(AqiError::MissingCurrentValue);
        },
        Some(v) => v,
    };
    let k: PollutantKind = match PollutantKind::from_name(reading.dominant_pollutant.as_str()) {
        None => {
            return Err(AqiError::UnknownPollutant);
        },
        Some(k) => k,
    };
    let current_result: AirQualityResult = match convert(k, v) {
        Err(_) => {
            return Err(AqiError::OutOfDomain);
        },
        Ok(res) => res,
    };
    let mut entries: Vec<DailyReportEntry> = Vec::new();
    entries.push(
        DailyReportEntry { date_label: reading.current_date_label.clone(), result: current_result },
    );
    let days: &Vec<ForecastDay> = match lookup_forecast(
        &reading.forecasts,
        &reading.dominant_pollutant,
    ) {
        None => {
            proof {
                reveal(Seq::filter);
                assert(report_selected(*reading) =~= Seq::<ForecastDay>::empty());
            }
            return Ok(entries);
        },
        Some(days) => days,
    };
    let ghost cur: Seq<char> = reading.current_date_label@;
    proof {
        assert(dominant_forecast(*reading) == days@);
    }
    let n = days.len();
    let mut i: usize = 0;
    while i < n
        invariant
            n == days@.len(),
            0 <= i <= n,
            cur == reading.current_date_label@,
            dominant_forecast(*reading) == days@,
            dominant_current(*reading) == Some(v as int),
            dominant_kind(*reading) == Some(k),
            in_domain(k, v as int),
            entries@.len() == 1 + selected_days(days@.take(i as int), cur).len(),
            entries@[0].date_label@ == cur,
            is_conversion(entries@[0].result, k, v as int),
            forall|j: int|
                0 <= j < selected_days(days@.take(i as int), cur).len() ==> in_domain(
                    k,
                    (#[trigger] selected_days(days@.take(i as int), cur)[j]).avg as int,
                ),
            forall|j: int|
                0 <= j < selected_days(days@.take(i as int), cur).len() ==> entries@[j
                    + 1].date_label@ == (#[trigger] selected_days(
                    days@.take(i as int),
                    cur,
                )[j]).date_label@ && is_conversion(
                    entries@[j + 1].result,
                    k,
                    selected_days(days@.take(i as int), cur)[j].avg as int,
                ),
        decreases n - i,
    {
        let d = &days[i];
        proof {
            lemma_selected_take_step(days@, cur, i as int);
        }
        if str_lex_lt(reading.current_date_label.as_str(), d.date_label.as_str()) {
            let day_result: AirQualityResult = match convert(k, d.avg) {
                Err(_) => {
                    proof {
                        lemma_selected_split(days@, cur, i as int + 1);
                        let sel_pre = selected_days(days@.take(i as int), cur);
                        assert(selected_days(days@.take(i as int + 1), cur)[sel_pre.len() as int]
                            == days@[i as int]);
                        assert(report_selected(*reading)[sel_pre.len() as int]
                            == days@[i as int]);
                        assert(!report_ok(*reading));
                    }
                    return Err(AqiError::OutOfDomain);
                },
                Ok(res) => res,
            };
            entries.push(DailyReportEntry { date_label: d.date_label.clone(), result: day_result });
        }
        i += 1;
    }
    proof {
        assert(days@.take(n as int) =~= days@);
    }
    Ok(entries)
}

} // verus!
