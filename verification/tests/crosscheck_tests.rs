//! Cross-checks the converter against an independent implementation of the
//! same EPA breakpoint tables.

use aqi_report::convert::convert;
use aqi_report::pollutant::PollutantKind;
use aqi_report::severity::SeverityTier;

fn tier_of_level(level: aqi::AirQualityLevel) -> SeverityTier {
    match level {
        aqi::AirQualityLevel::Good => SeverityTier::Good,
        aqi::AirQualityLevel::Moderate => SeverityTier::Moderate,
        aqi::AirQualityLevel::UnhealthySensitive => SeverityTier::UnhealthySensitive,
        aqi::AirQualityLevel::Unhealthy => SeverityTier::Unhealthy,
        aqi::AirQualityLevel::VeryUnhealthy => SeverityTier::VeryUnhealthy,
        aqi::AirQualityLevel::Hazardous => SeverityTier::Hazardous,
    }
}

fn check(kind: PollutantKind, conc: i64, reference: aqi::AirQuality) {
    let res = convert(kind, conc).expect("reference accepted this concentration");
    assert_eq!(res.aqi, reference.aqi(), "AQI mismatch for {kind:?} at {conc}");
    assert_eq!(
        res.level,
        tier_of_level(reference.level()),
        "level mismatch for {kind:?} at {conc}"
    );
}

#[test]
fn pm25_matches_reference_implementation() {
    // Whole and half micrograms are exactly representable, so the
    // reference's float pipeline sees the same concentration.
    for tenths in [0, 50, 120, 200, 355, 500, 555, 1000, 1500, 2000, 2505, 3500, 5000] {
        let reference = aqi::pm2_5((tenths as f64) / 10.0).unwrap();
        check(PollutantKind::Pm25, tenths, reference);
    }
}

#[test]
fn pm10_matches_reference_implementation() {
    for c in [0, 54, 55, 100, 154, 155, 254, 300, 354, 400, 424, 425, 504, 505, 604] {
        let reference = aqi::pm10(c as f64).unwrap();
        check(PollutantKind::Pm10, c, reference);
    }
}

#[test]
fn no2_matches_reference_implementation() {
    for c in [0, 53, 54, 100, 101, 360, 361, 649, 650, 1249, 1250, 1649, 1650, 2049] {
        let reference = aqi::no2(c as f64).unwrap();
        check(PollutantKind::No2, c, reference);
    }
}

#[test]
fn so2_matches_reference_implementation() {
    for c in [0, 35, 36, 75, 76, 100, 185] {
        let reference = aqi::so2_1(c as f64).unwrap();
        check(PollutantKind::So2, c, reference);
    }
}

#[test]
fn co_matches_reference_implementation() {
    for tenths in [0, 20, 44, 45, 90, 95, 125, 155, 300, 305, 405, 500] {
        let reference = aqi::co((tenths as f64) / 10.0).unwrap();
        check(PollutantKind::Co, tenths, reference);
    }
}

#[test]
fn ozone_matches_reference_implementation() {
    // The reference takes parts per million; the table unit here is parts
    // per billion. Eighths of a ppm are exactly representable.
    for ppb in [0, 125] {
        let reference = aqi::ozone8((ppb as f64) / 1000.0).unwrap();
        check(PollutantKind::Ozone8, ppb, reference);
    }
}

#[test]
fn reference_rejects_what_the_tables_reject() {
    assert!(aqi::pm10(605.0).is_err());
    assert!(convert(PollutantKind::Pm10, 605).is_err());
    assert!(aqi::no2(2050.0).is_err());
    assert!(convert(PollutantKind::No2, 2050).is_err());
}
