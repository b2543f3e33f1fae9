use aqi_report::convert::{convert, convert_by_name, AqiError};
use aqi_report::pollutant::PollutantKind;
use aqi_report::severity::SeverityTier;

fn aqi_of(kind: PollutantKind, conc: i64) -> u32 {
    convert(kind, conc).expect("in-domain conversion").aqi
}

fn level_of(kind: PollutantKind, conc: i64) -> SeverityTier {
    convert(kind, conc).expect("in-domain conversion").level
}

#[test]
fn pm25_twelve_micrograms_is_aqi_fifty_good() {
    // 12.0 µg/m³ is the top of the first PM2.5 row (0.0–12.0 → 0–50).
    let res = convert(PollutantKind::Pm25, 120).unwrap();
    assert_eq!(res.aqi, 50);
    assert_eq!(res.level, SeverityTier::Good);
}

#[test]
fn pm25_thirty_five_point_four_is_aqi_hundred_moderate() {
    // 35.4 µg/m³ is the top of the second PM2.5 row (12.1–35.4 → 51–100).
    let res = convert(PollutantKind::Pm25, 354).unwrap();
    assert_eq!(res.aqi, 100);
    assert_eq!(res.level, SeverityTier::Moderate);
}

#[test]
fn pm25_interior_values_interpolate() {
    // Round-half-up interpolation inside a row: 16.0 µg/m³ → 59.
    assert_eq!(aqi_of(PollutantKind::Pm25, 160), 59);
    assert_eq!(aqi_of(PollutantKind::Pm25, 850), 166);
    assert_eq!(aqi_of(PollutantKind::Pm25, 1380), 194);
    assert_eq!(aqi_of(PollutantKind::Pm25, 2000), 250);
}

#[test]
fn row_lower_bounds_give_exact_aqi_low() {
    assert_eq!(aqi_of(PollutantKind::Pm25, 0), 0);
    assert_eq!(aqi_of(PollutantKind::Pm25, 121), 51);
    assert_eq!(aqi_of(PollutantKind::Pm25, 355), 101);
    assert_eq!(aqi_of(PollutantKind::Pm10, 55), 51);
    assert_eq!(aqi_of(PollutantKind::Ozone8, 71), 101);
    assert_eq!(aqi_of(PollutantKind::No2, 1650), 401);
    assert_eq!(aqi_of(PollutantKind::So2, 76), 101);
    assert_eq!(aqi_of(PollutantKind::Co, 45), 51);
}

#[test]
fn row_upper_bounds_give_exact_aqi_high() {
    assert_eq!(aqi_of(PollutantKind::Pm25, 5004), 500);
    assert_eq!(aqi_of(PollutantKind::Pm10, 154), 100);
    assert_eq!(aqi_of(PollutantKind::Pm10, 604), 500);
    assert_eq!(aqi_of(PollutantKind::Ozone8, 70), 100);
    assert_eq!(aqi_of(PollutantKind::Ozone8, 200), 300);
    assert_eq!(aqi_of(PollutantKind::No2, 53), 50);
    assert_eq!(aqi_of(PollutantKind::So2, 185), 150);
    assert_eq!(aqi_of(PollutantKind::Co, 504), 500);
}

#[test]
fn monotone_within_a_row() {
    let mut prev = aqi_of(PollutantKind::Pm25, 121);
    for c in 122..=354 {
        let cur = aqi_of(PollutantKind::Pm25, c);
        assert!(cur >= prev, "AQI decreased at concentration {c}");
        prev = cur;
    }
}

#[test]
fn level_agrees_with_aqi_sub_range() {
    for c in 0..=5004 {
        let res = convert(PollutantKind::Pm25, c).unwrap();
        let expected = match res.aqi {
            0..=50 => SeverityTier::Good,
            51..=100 => SeverityTier::Moderate,
            101..=150 => SeverityTier::UnhealthySensitive,
            151..=200 => SeverityTier::Unhealthy,
            201..=300 => SeverityTier::VeryUnhealthy,
            _ => SeverityTier::Hazardous,
        };
        assert_eq!(res.level, expected);
        assert!(res.aqi <= 500);
    }
}

#[test]
fn tiers_cover_their_ranges() {
    assert_eq!(level_of(PollutantKind::No2, 54), SeverityTier::Moderate);
    assert_eq!(level_of(PollutantKind::No2, 101), SeverityTier::UnhealthySensitive);
    assert_eq!(level_of(PollutantKind::No2, 361), SeverityTier::Unhealthy);
    assert_eq!(level_of(PollutantKind::No2, 650), SeverityTier::VeryUnhealthy);
    assert_eq!(level_of(PollutantKind::No2, 1250), SeverityTier::Hazardous);
    assert_eq!(SeverityTier::from_aqi(0), SeverityTier::Good);
    assert_eq!(SeverityTier::from_aqi(500), SeverityTier::Hazardous);
    assert!(SeverityTier::Good.rank() < SeverityTier::Hazardous.rank());
}

#[test]
fn negative_concentration_is_out_of_domain() {
    assert_eq!(convert(PollutantKind::Pm25, -1), Err(AqiError::OutOfDomain));
    assert_eq!(convert(PollutantKind::Co, -100), Err(AqiError::OutOfDomain));
}

#[test]
fn concentration_above_table_is_out_of_domain() {
    assert_eq!(convert(PollutantKind::Pm25, 5005), Err(AqiError::OutOfDomain));
    assert_eq!(convert(PollutantKind::Pm10, 605), Err(AqiError::OutOfDomain));
    assert_eq!(convert(PollutantKind::Ozone8, 201), Err(AqiError::OutOfDomain));
    assert_eq!(convert(PollutantKind::No2, 2050), Err(AqiError::OutOfDomain));
    assert_eq!(convert(PollutantKind::So2, 186), Err(AqiError::OutOfDomain));
    assert_eq!(convert(PollutantKind::Co, 505), Err(AqiError::OutOfDomain));
}

#[test]
fn unknown_pollutant_name_is_rejected() {
    assert_eq!(convert_by_name("xx", 10), Err(AqiError::UnknownPollutant));
    assert_eq!(convert_by_name("", 10), Err(AqiError::UnknownPollutant));
    assert_eq!(convert_by_name("pm2.5", 10), Err(AqiError::UnknownPollutant));
}

#[test]
fn known_names_convert_case_insensitively() {
    assert_eq!(convert_by_name("pm25", 120).unwrap().aqi, 50);
    assert_eq!(convert_by_name("PM25", 120).unwrap().aqi, 50);
    assert_eq!(convert_by_name("Pm10", 55).unwrap().aqi, 51);
    assert_eq!(convert_by_name("O3", 70).unwrap().aqi, 100);
    assert_eq!(convert_by_name("no2", 53).unwrap().aqi, 50);
    assert_eq!(convert_by_name("SO2", 36).unwrap().aqi, 51);
    assert_eq!(convert_by_name("co", 44).unwrap().aqi, 50);
}

#[test]
fn known_name_out_of_domain_propagates() {
    assert_eq!(convert_by_name("o3", -5), Err(AqiError::OutOfDomain));
    assert_eq!(convert_by_name("so2", 1000), Err(AqiError::OutOfDomain));
}

#[test]
fn from_name_parses_the_six_kinds() {
    assert_eq!(PollutantKind::from_name("pm25"), Some(PollutantKind::Pm25));
    assert_eq!(PollutantKind::from_name("pm10"), Some(PollutantKind::Pm10));
    assert_eq!(PollutantKind::from_name("o3"), Some(PollutantKind::Ozone8));
    assert_eq!(PollutantKind::from_name("NO2"), Some(PollutantKind::No2));
    assert_eq!(PollutantKind::from_name("so2"), Some(PollutantKind::So2));
    assert_eq!(PollutantKind::from_name("CO"), Some(PollutantKind::Co));
    assert_eq!(PollutantKind::from_name("xx"), None);
}

#[test]
fn unit_scales_match_table_units() {
    assert_eq!(PollutantKind::Pm25.unit_scale(), 10);
    assert_eq!(PollutantKind::Pm10.unit_scale(), 1);
    assert_eq!(PollutantKind::Ozone8.unit_scale(), 1);
    assert_eq!(PollutantKind::No2.unit_scale(), 1);
    assert_eq!(PollutantKind::So2.unit_scale(), 1);
    assert_eq!(PollutantKind::Co.unit_scale(), 10);
}
