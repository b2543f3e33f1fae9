use aqi_report::convert::AqiError;
use aqi_report::report::{
    derive_report, ForecastDay, PollutantForecast, PollutantValue, PollutionReading,
};
use aqi_report::severity::SeverityTier;

fn day(label: &str, avg: i64) -> ForecastDay {
    ForecastDay { date_label: label.to_string(), avg }
}

fn reading_with(
    dominant: &str,
    current: Vec<(&str, i64)>,
    forecasts: Vec<(&str, Vec<ForecastDay>)>,
    date: &str,
) -> PollutionReading {
    PollutionReading {
        dominant_pollutant: dominant.to_string(),
        current_values: current
            .into_iter()
            .map(|(p, v)| PollutantValue { pollutant: p.to_string(), value: v })
            .collect(),
        forecasts: forecasts
            .into_iter()
            .map(|(p, days)| PollutantForecast { pollutant: p.to_string(), days })
            .collect(),
        current_date_label: date.to_string(),
    }
}

#[test]
fn ozone_example_skips_same_day_forecast() {
    // Dominant o3 at 70 ppb on 2024-06-01, with a same-day forecast entry
    // (skipped) and one for the next day (kept).
    let reading = reading_with(
        "o3",
        vec![("o3", 70)],
        vec![("o3", vec![day("2024-06-01", 60), day("2024-06-02", 90)])],
        "2024-06-01",
    );
    let report = derive_report(&reading).unwrap();
    assert_eq!(report.len(), 2);
    assert_eq!(report[0].date_label, "2024-06-01");
    assert_eq!(report[0].result.aqi, 100);
    assert_eq!(report[0].result.level, SeverityTier::Moderate);
    assert_eq!(report[1].date_label, "2024-06-02");
    // 90 ppb sits in the 86–105 → 151–200 row: 151 + round(49/19*4) = 161.
    assert_eq!(report[1].result.aqi, 161);
    assert_eq!(report[1].result.level, SeverityTier::Unhealthy);
}

#[test]
fn missing_current_value_fails() {
    let reading = reading_with(
        "pm25",
        vec![("pm10", 100)],
        vec![("pm25", vec![day("2024-06-02", 100)])],
        "2024-06-01",
    );
    assert_eq!(derive_report(&reading), Err(AqiError::MissingCurrentValue));
}

#[test]
fn empty_current_values_fail() {
    let reading = reading_with("pm25", vec![], vec![], "2024-06-01");
    assert_eq!(derive_report(&reading), Err(AqiError::MissingCurrentValue));
}

#[test]
fn unknown_dominant_pollutant_fails() {
    let reading = reading_with("xyz", vec![("xyz", 10)], vec![], "2024-06-01");
    assert_eq!(derive_report(&reading), Err(AqiError::UnknownPollutant));
}

#[test]
fn no_forecast_series_gives_single_entry() {
    // A forecast map without the dominant pollutant's key is not an error:
    // the report is the current day alone.
    let reading = reading_with(
        "pm25",
        vec![("pm25", 120)],
        vec![("pm10", vec![day("2024-06-02", 80)])],
        "2024-06-01",
    );
    let report = derive_report(&reading).unwrap();
    assert_eq!(report.len(), 1);
    assert_eq!(report[0].date_label, "2024-06-01");
    assert_eq!(report[0].result.aqi, 50);
    assert_eq!(report[0].result.level, SeverityTier::Good);
}

#[test]
fn past_and_same_day_entries_are_excluded_in_order() {
    let reading = reading_with(
        "pm10",
        vec![("pm10", 54)],
        vec![(
            "pm10",
            vec![
                day("2024-05-30", 400),
                day("2024-06-01", 300),
                day("2024-06-02", 154),
                day("2024-06-03", 55),
                day("2024-06-04", 254),
            ],
        )],
        "2024-06-01",
    );
    let report = derive_report(&reading).unwrap();
    assert_eq!(report.len(), 4);
    assert_eq!(report[0].date_label, "2024-06-01");
    assert_eq!(report[0].result.aqi, 50);
    assert_eq!(report[1].date_label, "2024-06-02");
    assert_eq!(report[1].result.aqi, 100);
    assert_eq!(report[2].date_label, "2024-06-03");
    assert_eq!(report[2].result.aqi, 51);
    assert_eq!(report[3].date_label, "2024-06-04");
    assert_eq!(report[3].result.aqi, 150);
}

#[test]
fn out_of_domain_current_aborts_report() {
    let reading = reading_with(
        "so2",
        vec![("so2", 500)],
        vec![("so2", vec![day("2024-06-02", 40)])],
        "2024-06-01",
    );
    assert_eq!(derive_report(&reading), Err(AqiError::OutOfDomain));
}

#[test]
fn out_of_domain_forecast_day_aborts_report() {
    // One bad forecast day poisons the whole report: no partial output.
    let reading = reading_with(
        "pm25",
        vec![("pm25", 120)],
        vec![("pm25", vec![day("2024-06-02", 100), day("2024-06-03", 9999)])],
        "2024-06-01",
    );
    assert_eq!(derive_report(&reading), Err(AqiError::OutOfDomain));
}

#[test]
fn out_of_domain_past_forecast_day_is_ignored() {
    // A bad value on an excluded (historical) day does not abort anything.
    let reading = reading_with(
        "pm25",
        vec![("pm25", 120)],
        vec![("pm25", vec![day("2024-05-30", 99999), day("2024-06-02", 121)])],
        "2024-06-01",
    );
    let report = derive_report(&reading).unwrap();
    assert_eq!(report.len(), 2);
    assert_eq!(report[1].result.aqi, 51);
}

#[test]
fn first_matching_current_entry_wins() {
    let reading = reading_with(
        "co",
        vec![("no2", 40), ("co", 44), ("co", 504)],
        vec![],
        "2024-06-01",
    );
    let report = derive_report(&reading).unwrap();
    assert_eq!(report.len(), 1);
    assert_eq!(report[0].result.aqi, 50);
}

#[test]
fn case_insensitive_dominant_identifier() {
    let reading = reading_with("PM25", vec![("PM25", 354)], vec![], "2024-06-01");
    let report = derive_report(&reading).unwrap();
    assert_eq!(report[0].result.aqi, 100);
    assert_eq!(report[0].result.level, SeverityTier::Moderate);
}
